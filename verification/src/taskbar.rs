//! The taskbar's state word: reading the auto-hide flag and computing the
//! word that toggles it.

use vstd::prelude::*;
use vstd::string::StringExecFns;

verus! {

/// Flag of the state word: the taskbar hides itself.
pub const ABS_AUTOHIDE: u64 = 0x1;

/// Flag of the state word: the taskbar stays above other windows.
pub const ABS_ALWAYSONTOP: u64 = 0x2;

/// Whether the state word `state` has the auto-hide flag.
pub open spec fn auto_hide(state: u64) -> bool {
    state & ABS_AUTOHIDE != 0
}

/// Whether the state word `state` has the always-on-top flag.
pub open spec fn always_on_top(state: u64) -> bool {
    state & ABS_ALWAYSONTOP != 0
}

/// The state word that toggles auto-hide in `state`: the auto-hide flag
/// flipped, always-on-top set whatever it was, every other flag kept.
pub open spec fn toggled(state: u64) -> u64 {
    (state ^ ABS_AUTOHIDE) | ABS_ALWAYSONTOP
}

/// Whether the taskbar hides itself, by its state word.
pub fn is_taskbar_auto_hide_enabled(state: u64) -> (r: bool)
    ensures
        r == auto_hide(state),
{
    (state & ABS_AUTOHIDE) != 0
}

/// What a toggle asks of the shell and what it will report.
#[derive(Debug, Clone, Copy, PartialEq, Eq, Structural)]
pub struct Toggle {
    /// The state word to set.
    pub next_state: u64,
    /// Whether auto-hide is on once that word is set.
    pub enabled: bool,
}

/// The toggle of auto-hide for the current state word.
pub fn toggle_taskbar_auto_hide(current_state: u64) -> (r: Toggle)
    ensures
        r.next_state == toggled(current_state),
        r.enabled == !auto_hide(current_state),
        auto_hide(r.next_state) == r.enabled,
        always_on_top(r.next_state),
{
    let currently_enabled = (current_state & ABS_AUTOHIDE) != 0;
    let mut next_state: u64 = if currently_enabled {
        current_state & !ABS_AUTOHIDE
    } else {
        current_state | ABS_AUTOHIDE
    };
    if (next_state & ABS_ALWAYSONTOP) == 0 {
        next_state |= ABS_ALWAYSONTOP;
    }
    proof {
        lemma_toggled(current_state);
        let s = current_state;
        assert((if s & 1 != 0 { s & !1u64 } else { s | 1 }) == s ^ 1) by (bit_vector);
        let n = s ^ 1;
        assert((if n & 2 == 0 { n | 2 } else { n }) == n | 2) by (bit_vector);
    }
    Toggle { next_state, enabled: !currently_enabled }
}

/// A toggle flips the auto-hide flag, sets always-on-top and keeps every
/// other flag.
pub proof fn lemma_toggled(state: u64)
    ensures
        auto_hide(toggled(state)) == !auto_hide(state),
        always_on_top(toggled(state)),
        toggled(state) & !3u64 == state & !3u64,
{
    assert((((state ^ 1) | 2) & 1 != 0) == !(state & 1 != 0)) by (bit_vector);
    assert(((state ^ 1) | 2) & 2 != 0) by (bit_vector);
    assert(((state ^ 1) | 2) & !3u64 == state & !3u64) by (bit_vector);
}

/// Two toggles in a row leave auto-hide as it was.
pub proof fn lemma_toggled_twice(state: u64)
    ensures
        auto_hide(toggled(toggled(state))) == auto_hide(state),
{
    lemma_toggled(state);
    lemma_toggled(toggled(state));
}

/// Why the taskbar could not be read or set.
#[derive(Debug, Clone, Copy, PartialEq, Eq, Structural)]
pub enum TaskbarError {
    /// The shell's taskbar window was not found.
    WindowNotFound,
    /// The shell gave a null handle for it.
    NullWindow,
    /// The shell refused the new state word.
    SetStateFailed,
}

impl TaskbarError {
    /// The text of the error's message.
    pub open spec fn message_text(self) -> Seq<char> {
        match self {
            TaskbarError::WindowNotFound => "Failed to locate Shell_TrayWnd"@,
            TaskbarError::NullWindow => "Taskbar window handle was null"@,
            TaskbarError::SetStateFailed => "Failed to set taskbar state"@,
        }
    }

    /// One line that says what went wrong.
    pub fn message(&self) -> (r: String)
        ensures
            r@ == self.message_text(),
    {
        match self {
            TaskbarError::WindowNotFound => String::from_str("Failed to locate Shell_TrayWnd"),
            TaskbarError::NullWindow => String::from_str("Taskbar window handle was null"),
            TaskbarError::SetStateFailed => String::from_str("Failed to set taskbar state"),
        }
    }
}

/// The handle of the taskbar window, by what the lookup gave: `None` where
/// it failed, else the handle's bits.
pub fn find_taskbar_window(found: Option<isize>) -> (r: Result<isize, TaskbarError>)
    ensures
        r == (match found {
            None => Err::<isize, TaskbarError>(TaskbarError::WindowNotFound),
            Some(handle) => if handle == 0 {
                Err::<isize, TaskbarError>(TaskbarError::NullWindow)
            } else {
                Ok::<isize, TaskbarError>(handle)
            },
        }),
{
    match found {
        None => Err(TaskbarError::WindowNotFound),
        Some(handle) => if handle == 0 {
            Err(TaskbarError::NullWindow)
        } else {
            Ok(handle)
        },
    }
}

/// The outcome of a toggle once the shell has answered the request to set
/// the state word: a zero answer is a refusal.
pub fn toggle_outcome(toggle: Toggle, answer: usize) -> (r: Result<bool, TaskbarError>)
    ensures
        r == (if answer == 0 {
            Err::<bool, TaskbarError>(TaskbarError::SetStateFailed)
        } else {
            Ok::<bool, TaskbarError>(toggle.enabled)
        }),
{
    if answer == 0 {
        Err(TaskbarError::SetStateFailed)
    } else {
        Ok(toggle.enabled)
    }
}

/// The line that reports the auto-hide state.
pub open spec fn status_text(enabled: bool) -> Seq<char> {
    "taskbar auto-hide: "@ + (if enabled { "enabled"@ } else { "disabled"@ })
}

/// The line that reports the auto-hide state.
pub fn status_line(enabled: bool) -> (r: String)
    ensures
        r@ == status_text(enabled),
{
    String::from_str("taskbar auto-hide: ").concat(if enabled { "enabled" } else { "disabled" })
}

/// A line for the log, and whether it reports an error.
#[derive(Debug)]
pub struct LogLine {
    pub error: bool,
    pub text: String,
}

/// The text of the log line for a toggle's outcome.
pub open spec fn toggle_log_text(outcome: Result<bool, TaskbarError>) -> Seq<char> {
    match outcome {
        Ok(enabled) => "Taskbar auto-hide "@ + (if enabled { "enabled"@ } else { "disabled"@ }),
        Err(e) => "Failed to toggle taskbar: "@ + e.message_text(),
    }
}

/// What is logged after a toggle: the new state, or why there is none. A
/// failed toggle is reported and nothing more.
pub fn handle_toggle(outcome: Result<bool, TaskbarError>) -> (r: LogLine)
    ensures
        r.error == outcome is Err,
        r.text@ == toggle_log_text(outcome),
{
    match outcome {
        Ok(enabled) => LogLine {
            error: false,
            text: String::from_str("Taskbar auto-hide ").concat(
                if enabled {
                    "enabled"
                } else {
                    "disabled"
                },
            ),
        },
        Err(e) => LogLine {
            error: true,
            text: String::from_str("Failed to toggle taskbar: ").concat(e.message().as_str()),
        },
    }
}

} // verus!
