//! Toggle the taskbar's auto-hide flag from a global hotkey or a tray icon:
//! the hotkey expression codec, the tray controller's state machine and the
//! small decisions around them.

pub mod canon;
pub mod cli;
pub mod controller;
pub mod hotkey;
pub mod keys;
pub mod paths;
pub mod startup;
pub mod taskbar;
pub mod text;
pub mod tray;
