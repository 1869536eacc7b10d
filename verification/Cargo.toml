[package]
name = "tb"
version = "0.1.0"
edition = "2021"
publish = false

[dependencies]
arboard = { version = "=3.7.0", default-features = false }
color-eyre = "=0.6.5"
directories-next = "=2.0.0"
eyre = "=0.6.14"
facet = "=0.46.5"
figue = "=4.0.5"
tracing = "=0.1.44"
tracing-subscriber = "=0.3.23"
windows = { version = "=0.59.0", features = ["Win32_Foundation", "Win32_Graphics_Gdi", "Win32_System_Console", "Win32_System_LibraryLoader", "Win32_UI_Input_KeyboardAndMouse", "Win32_UI_Shell", "Win32_UI_WindowsAndMessaging"] }
