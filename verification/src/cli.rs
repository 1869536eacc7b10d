//! The command line as the application sees it once it is parsed.

use vstd::prelude::*;

verus! {

/// What holds for every command.
#[derive(Debug)]
pub struct GlobalArgs {
    /// Whether to log at debug level.
    pub debug: bool,
}

impl Default for GlobalArgs {
    fn default() -> (r: GlobalArgs)
        ensures
            !r.debug,
    {
        GlobalArgs { debug: false }
    }
}

/// What to do about the stored hotkey.
#[derive(Debug)]
pub enum HotkeyCommand {
    /// Print it.
    Show,
    /// Replace it by `expression`.
    SetHotkey { expression: String },
}

impl Default for HotkeyCommand {
    fn default() -> (r: HotkeyCommand)
        ensures
            r is Show,
    {
        HotkeyCommand::Show
    }
}

/// The arguments of the `hotkey` command.
#[derive(Debug)]
pub struct HotkeyArgs {
    pub command: HotkeyCommand,
}

/// The commands.
#[derive(Debug)]
pub enum Command {
    /// Run the tray session.
    Run,
    /// Toggle auto-hide once.
    Toggle,
    /// Print whether auto-hide is on.
    Status,
    /// Print the home directory.
    Home,
    /// Print the cache directory.
    Cache,
    /// Show or set the hotkey.
    Hotkey(HotkeyArgs),
}

impl Default for Command {
    fn default() -> (r: Command)
        ensures
            r is Run,
    {
        Command::Run
    }
}

/// The command line: what holds for every command, and the command, if one
/// was given.
#[derive(Debug)]
pub struct Cli {
    pub global: GlobalArgs,
    pub command: Option<Command>,
}

/// The level at which to log.
#[derive(Clone, Copy, Debug, PartialEq, Eq, Structural)]
pub enum LogLevel {
    Debug,
    Info,
}

/// The command to carry out: the one given, or `Run` where none was.
pub fn command_or_default(command: Option<Command>) -> (r: Command)
    ensures
        match command {
            Some(c) => r == c,
            None => r is Run,
        },
{
    match command {
        Some(c) => c,
        None => Command::Run,
    }
}

/// The level at which to log: debug where asked for, else info.
pub fn init_tracing(debug: bool) -> (r: LogLevel)
    ensures
        r == (if debug { LogLevel::Debug } else { LogLevel::Info }),
{
    if debug {
        LogLevel::Debug
    } else {
        LogLevel::Info
    }
}

} // verus!
