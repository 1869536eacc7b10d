//! What the tray window keeps between messages, and the small decisions of
//! its menu, its About dialog and its console.

use vstd::prelude::*;
use vstd::string::StringExecFns;

verus! {

/// Menu command: toggle auto-hide.
pub const CMD_TOGGLE: usize = 0x3000;

/// Menu command: show the log console.
pub const CMD_SHOW_LOGS: usize = 0x3001;

/// Menu command: hide the log console.
pub const CMD_HIDE_LOGS: usize = 0x3002;

/// Menu command: open the About dialog.
pub const CMD_ABOUT: usize = 0x3003;

/// Menu command: leave.
pub const CMD_EXIT: usize = 0x3004;

/// Answer of a dialog: Yes.
pub const IDYES: i32 = 6;

/// Answer of a dialog: No.
pub const IDNO: i32 = 7;

/// Console signal: Ctrl+C.
pub const CTRL_C_EVENT: u32 = 0;

/// Console signal: Ctrl+Break.
pub const CTRL_BREAK_EVENT: u32 = 1;

/// Console signal: the console is closing.
pub const CTRL_CLOSE_EVENT: u32 = 2;

/// Whether the process has a console of its own making.
#[derive(Clone, Copy, Debug, PartialEq, Eq, Structural)]
pub enum ConsoleMode {
    Detached,
    Owned,
}

/// The state that belongs to the tray window.
#[derive(Debug)]
pub struct TrayState {
    pub version: String,
    pub hotkey_expression: String,
    pub console_mode: ConsoleMode,
}

/// The tray window's state as contracts see it.
pub struct TrayStateModel {
    pub version: Seq<char>,
    pub hotkey_expression: Seq<char>,
    pub console_mode: ConsoleMode,
}

impl View for TrayState {
    type V = TrayStateModel;

    open spec fn view(&self) -> TrayStateModel {
        TrayStateModel {
            version: self.version@,
            hotkey_expression: self.hotkey_expression@,
            console_mode: self.console_mode,
        }
    }
}

/// The text of the About dialog for a version and a hotkey.
pub open spec fn about_text_of(version: Seq<char>, hotkey_expression: Seq<char>) -> Seq<char> {
    "tb\nVersion: "@ + version + "\nHotkey: "@ + hotkey_expression
        + "\n\nChoose Yes to copy this text to clipboard."@
}

impl TrayState {
    /// The state of a window just created: no console of its own.
    pub fn new(version: String, hotkey_expression: String) -> (r: TrayState)
        ensures
            r@ == (TrayStateModel {
                version: version@,
                hotkey_expression: hotkey_expression@,
                console_mode: ConsoleMode::Detached,
            }),
    {
        TrayState { version, hotkey_expression, console_mode: ConsoleMode::Detached }
    }

    /// Whether showing the logs would change anything.
    pub fn can_show_logs(&self) -> (r: bool)
        ensures
            r == (self.console_mode != ConsoleMode::Owned),
    {
        self.console_mode != ConsoleMode::Owned
    }

    /// Whether hiding the logs would change anything.
    pub fn can_hide_logs(&self) -> (r: bool)
        ensures
            r == (self.console_mode == ConsoleMode::Owned),
    {
        self.console_mode == ConsoleMode::Owned
    }

    /// Turns to `Owned`. The result says whether a console is to be made and
    /// shown now: only where the state was `Detached`. Nothing else changes.
    pub fn show_logs(&mut self) -> (attach: bool)
        ensures
            attach == (old(self).console_mode == ConsoleMode::Detached),
            final(self)@ == (TrayStateModel { console_mode: ConsoleMode::Owned, ..old(self)@ }),
            !attach ==> final(self)@ == old(self)@,
    {
        if !self.can_show_logs() {
            return false;
        }
        self.console_mode = ConsoleMode::Owned;
        true
    }

    /// Turns to `Detached`. The result says whether the console is to be
    /// released now: only where the state was `Owned`. Nothing else changes.
    pub fn hide_logs(&mut self) -> (release: bool)
        ensures
            release == (old(self).console_mode == ConsoleMode::Owned),
            final(self)@ == (TrayStateModel { console_mode: ConsoleMode::Detached, ..old(self)@ }),
            !release ==> final(self)@ == old(self)@,
    {
        if !self.can_hide_logs() {
            return false;
        }
        self.console_mode = ConsoleMode::Detached;
        true
    }

    /// The text of the About dialog.
    pub fn about_text(&self) -> (r: String)
        ensures
            r@ == about_text_of(self@.version, self@.hotkey_expression),
    {
        String::from_str("tb\nVersion: ").concat(self.version.as_str()).concat("\nHotkey: ").concat(
            self.hotkey_expression.as_str(),
        ).concat("\n\nChoose Yes to copy this text to clipboard.")
    }
}

/// One entry of the tray icon's menu.
#[derive(Clone, Copy, Debug, PartialEq, Eq, Structural)]
pub enum MenuItem {
    /// A command, with its identifier and whether it can be chosen.
    Command { id: usize, enabled: bool },
    /// A line between groups.
    Separator,
}

/// The entries of the menu, top down, for a console mode: toggle, show
/// logs, hide logs, About and exit, with the one of show and hide greyed
/// that would change nothing.
pub open spec fn menu_of(mode: ConsoleMode) -> Seq<MenuItem> {
    seq![
        MenuItem::Command { id: CMD_TOGGLE, enabled: true },
        MenuItem::Command { id: CMD_SHOW_LOGS, enabled: mode != ConsoleMode::Owned },
        MenuItem::Command { id: CMD_HIDE_LOGS, enabled: mode == ConsoleMode::Owned },
        MenuItem::Separator,
        MenuItem::Command { id: CMD_ABOUT, enabled: true },
        MenuItem::Separator,
        MenuItem::Command { id: CMD_EXIT, enabled: true },
    ]
}

/// The label of a menu command; empty for an identifier that is none.
pub open spec fn menu_label_of(id: usize) -> Seq<char> {
    if id == CMD_TOGGLE {
        "Toggle taskbar auto-hide"@
    } else if id == CMD_SHOW_LOGS {
        "Show logs"@
    } else if id == CMD_HIDE_LOGS {
        "Hide logs"@
    } else if id == CMD_ABOUT {
        "About"@
    } else if id == CMD_EXIT {
        "Exit"@
    } else {
        Seq::empty()
    }
}

/// The label of a menu command.
pub fn menu_label(id: usize) -> (r: &'static str)
    ensures
        r@ == menu_label_of(id),
{
    if id == CMD_TOGGLE {
        "Toggle taskbar auto-hide"
    } else if id == CMD_SHOW_LOGS {
        "Show logs"
    } else if id == CMD_HIDE_LOGS {
        "Hide logs"
    } else if id == CMD_ABOUT {
        "About"
    } else if id == CMD_EXIT {
        "Exit"
    } else {
        proof {
            reveal_strlit("");
        }
        assert(""@ =~= Seq::<char>::empty());
        ""
    }
}

/// The entries of the tray icon's menu for the window's state.
pub fn context_menu(state: &TrayState) -> (r: Vec<MenuItem>)
    ensures
        r@ == menu_of(state.console_mode),
{
    let mut items: Vec<MenuItem> = Vec::new();
    items.push(MenuItem::Command { id: CMD_TOGGLE, enabled: true });
    items.push(MenuItem::Command { id: CMD_SHOW_LOGS, enabled: state.can_show_logs() });
    items.push(MenuItem::Command { id: CMD_HIDE_LOGS, enabled: state.can_hide_logs() });
    items.push(MenuItem::Separator);
    items.push(MenuItem::Command { id: CMD_ABOUT, enabled: true });
    items.push(MenuItem::Separator);
    items.push(MenuItem::Command { id: CMD_EXIT, enabled: true });
    assert(items@ =~= menu_of(state.console_mode));
    items
}

/// What is to be done after a choice in the menu.
#[derive(Debug)]
pub enum MenuOutcome {
    /// Toggle auto-hide.
    Toggle,
    /// Make a console and show it.
    AttachConsole,
    /// Release the console.
    ReleaseConsole,
    /// Open the About dialog with this text.
    About(String),
    /// Ask the window to close.
    Close,
    /// Nothing.
    Nothing,
}

/// A menu outcome as contracts see it.
pub enum MenuOutcomeModel {
    Toggle,
    AttachConsole,
    ReleaseConsole,
    About(Seq<char>),
    Close,
    Nothing,
}

impl View for MenuOutcome {
    type V = MenuOutcomeModel;

    open spec fn view(&self) -> MenuOutcomeModel {
        match self {
            MenuOutcome::Toggle => MenuOutcomeModel::Toggle,
            MenuOutcome::AttachConsole => MenuOutcomeModel::AttachConsole,
            MenuOutcome::ReleaseConsole => MenuOutcomeModel::ReleaseConsole,
            MenuOutcome::About(text) => MenuOutcomeModel::About(text@),
            MenuOutcome::Close => MenuOutcomeModel::Close,
            MenuOutcome::Nothing => MenuOutcomeModel::Nothing,
        }
    }
}

/// The state after the menu's answer `selection`.
pub open spec fn chosen_state(state: TrayStateModel, selection: i32) -> TrayStateModel {
    if selection == CMD_SHOW_LOGS {
        TrayStateModel { console_mode: ConsoleMode::Owned, ..state }
    } else if selection == CMD_HIDE_LOGS {
        TrayStateModel { console_mode: ConsoleMode::Detached, ..state }
    } else {
        state
    }
}

/// What is to be done after the menu's answer `selection`, in `state`.
pub open spec fn chosen_outcome(state: TrayStateModel, selection: i32) -> MenuOutcomeModel {
    if selection == CMD_TOGGLE {
        MenuOutcomeModel::Toggle
    } else if selection == CMD_SHOW_LOGS && state.console_mode == ConsoleMode::Detached {
        MenuOutcomeModel::AttachConsole
    } else if selection == CMD_HIDE_LOGS && state.console_mode == ConsoleMode::Owned {
        MenuOutcomeModel::ReleaseConsole
    } else if selection == CMD_ABOUT {
        MenuOutcomeModel::About(about_text_of(state.version, state.hotkey_expression))
    } else if selection == CMD_EXIT {
        MenuOutcomeModel::Close
    } else {
        MenuOutcomeModel::Nothing
    }
}

/// Takes the menu's answer: the identifier of the command chosen, or
/// anything else where the menu was dismissed. Show and hide change the
/// console mode; an answer that is no command changes nothing.
pub fn menu_selected(state: &mut TrayState, selection: i32) -> (r: MenuOutcome)
    ensures
        final(state)@ == chosen_state(old(state)@, selection),
        r@ == chosen_outcome(old(state)@, selection),
{
    if selection < 0 {
        return MenuOutcome::Nothing;
    }
    let id: usize = selection as usize;
    if id == CMD_TOGGLE {
        MenuOutcome::Toggle
    } else if id == CMD_SHOW_LOGS {
        if state.show_logs() {
            MenuOutcome::AttachConsole
        } else {
            MenuOutcome::Nothing
        }
    } else if id == CMD_HIDE_LOGS {
        if state.hide_logs() {
            MenuOutcome::ReleaseConsole
        } else {
            MenuOutcome::Nothing
        }
    } else if id == CMD_ABOUT {
        MenuOutcome::About(state.about_text())
    } else if id == CMD_EXIT {
        MenuOutcome::Close
    } else {
        MenuOutcome::Nothing
    }
}

/// What follows the answer to the About dialog.
#[derive(Clone, Copy, Debug, PartialEq, Eq, Structural)]
pub enum AboutFollowUp {
    /// Copy the dialog's text to the clipboard.
    Copy,
    /// Nothing: the answer was No.
    Nothing,
    /// Nothing, but the answer was neither Yes nor No and is worth a note.
    Unexpected,
}

/// What follows the answer `response` to the About dialog.
pub fn about_answered(response: i32) -> (r: AboutFollowUp)
    ensures
        r == (if response == IDYES {
            AboutFollowUp::Copy
        } else if response == IDNO {
            AboutFollowUp::Nothing
        } else {
            AboutFollowUp::Unexpected
        }),
{
    if response == IDYES {
        AboutFollowUp::Copy
    } else if response == IDNO {
        AboutFollowUp::Nothing
    } else {
        AboutFollowUp::Unexpected
    }
}

/// The text of the second dialog, which reports how the copy to the
/// clipboard went.
pub open spec fn confirmation_text(copied: bool) -> Seq<char> {
    if copied {
        "Copied version info to clipboard."@
    } else {
        "Failed to copy version info to clipboard."@
    }
}

/// What is shown once the copy to the clipboard has been tried: a second
/// dialog reports the outcome, success or failure alike.
pub fn copy_confirmation(copied: bool) -> (r: &'static str)
    ensures
        r@ == confirmation_text(copied),
{
    if copied {
        "Copied version info to clipboard."
    } else {
        "Failed to copy version info to clipboard."
    }
}

/// The About dialog touches no state: choosing it leaves the window's
/// state as it was and hands out the text to show and to copy, and the copy
/// is answered by a second dialog whether it was made or not, with a text
/// of its own for each.
pub proof fn lemma_about_reports(state: TrayStateModel)
    ensures
        chosen_state(state, 0x3003) == state,
        chosen_outcome(state, 0x3003) == MenuOutcomeModel::About(
            about_text_of(state.version, state.hotkey_expression),
        ),
        confirmation_text(true).len() > 0,
        confirmation_text(false).len() > 0,
        confirmation_text(true) != confirmation_text(false),
{
    reveal_strlit("Copied version info to clipboard.");
    reveal_strlit("Failed to copy version info to clipboard.");
    assert(confirmation_text(true)[0] != confirmation_text(false)[0]);
}

/// Whether the process shares its console with another: it has one, and
/// more than one process is attached to it.
pub fn is_inheriting_console(has_console: bool, attached: u32) -> (r: bool)
    ensures
        r == (has_console && attached > 1),
{
    has_console && attached > 1
}

/// Whether the console is to be released at startup: the process has one
/// and is the only one attached to it.
pub fn detach_default_console_if_not_inherited(has_console: bool, attached: u32) -> (r: bool)
    ensures
        r == (has_console && attached == 1),
{
    has_console && attached == 1
}

/// The answer to a console signal.
#[derive(Clone, Copy, Debug, PartialEq, Eq, Structural)]
pub struct SignalReply {
    /// Whether the signal counts as handled.
    pub handled: bool,
    /// The window to post a close request to, if any.
    pub close: Option<isize>,
}

/// Answers a console signal: interrupt, break and close are handled, and
/// ask the tray window, if there is one yet, to close. Any other signal is
/// left to the next handler.
pub fn ctrl_c_handler(ctrl_type: u32, window: Option<isize>) -> (r: SignalReply)
    ensures
        r.handled == (ctrl_type == CTRL_C_EVENT || ctrl_type == CTRL_BREAK_EVENT || ctrl_type
            == CTRL_CLOSE_EVENT),
        r.close == (if r.handled { window } else { None }),
{
    if ctrl_type == CTRL_C_EVENT || ctrl_type == CTRL_BREAK_EVENT || ctrl_type == CTRL_CLOSE_EVENT {
        SignalReply { handled: true, close: window }
    } else {
        SignalReply { handled: false, close: None }
    }
}

/// Show and hide are idempotent: a second choice of the same one changes
/// nothing and asks for nothing, and neither touches anything but the
/// console mode.
pub proof fn lemma_console_idempotent(state: TrayStateModel, selection: i32)
    requires
        selection == CMD_SHOW_LOGS || selection == CMD_HIDE_LOGS,
    ensures
        chosen_state(chosen_state(state, selection), selection) == chosen_state(state, selection),
        chosen_outcome(chosen_state(state, selection), selection) == MenuOutcomeModel::Nothing,
        chosen_state(state, selection).version == state.version,
        chosen_state(state, selection).hotkey_expression == state.hotkey_expression,
        chosen_outcome(state, selection) != MenuOutcomeModel::Nothing <==> chosen_state(
            state,
            selection,
        ).console_mode != state.console_mode,
{
}

} // verus!
