//! The tray window's controller: what it owns, how it starts, and what each
//! window message does to it. The controller decides; whoever runs the
//! message loop performs the actions it hands out and reports back.

use crate::hotkey::{Hotkey, HotkeyModel};
use crate::tray::{ConsoleMode, TrayState, TrayStateModel};
use vstd::prelude::*;
use vstd::string::StringExecFns;

verus! {

/// Identifier of the one hotkey that the window registers.
pub const HOTKEY_ID: i32 = 1;

/// Identifier of the one icon that the window shows.
pub const TRAY_ICON_ID: u32 = 1;

pub const WM_CREATE: u32 = 0x0001;

pub const WM_DESTROY: u32 = 0x0002;

pub const WM_CLOSE: u32 = 0x0010;

pub const WM_CONTEXTMENU: u32 = 0x007B;

pub const WM_LBUTTONDBLCLK: u32 = 0x0203;

pub const WM_RBUTTONUP: u32 = 0x0205;

pub const WM_HOTKEY: u32 = 0x0312;

pub const WM_USER: u32 = 0x0400;

/// The message by which the tray icon reports what the pointer did.
pub const WM_TRAY_CALLBACK: u32 = 0x0401;

/// Where a tray session stands.
#[derive(Clone, Copy, Debug, PartialEq, Eq, Structural)]
pub enum Phase {
    Uninitialized,
    Running,
    ShuttingDown,
    Terminated,
}

/// The step of the startup that is awaited next.
#[derive(Clone, Copy, Debug, PartialEq, Eq, Structural)]
pub enum StartupStep {
    Begin,
    Console,
    Stored,
    Broadcast,
    Window,
    Hotkey,
    Icon,
    Loop,
    Over,
}

/// A window message, told apart.
#[derive(Clone, Copy, Debug, PartialEq, Eq, Structural)]
pub enum WindowEvent {
    Create,
    /// A hotkey fired; `ours` says whether it carries the window's own
    /// identifier.
    Hotkey { ours: bool },
    /// The tray icon reports the pointer's message `code`.
    Tray { code: u32 },
    Close,
    Destroy,
    /// The shell has made its taskbar anew.
    TaskbarCreated,
    Other,
}

/// What the message loop is to do for the controller.
#[derive(Clone, Copy, Debug, PartialEq, Eq, Structural)]
pub enum Action {
    Toggle,
    ShowContextMenu,
    DestroyWindow,
    UnregisterHotkey,
    DeleteTrayIcon,
    PostQuit,
    ReAddTrayIcon,
    /// Report that the window's state could not be made: no version is set.
    ReportMissingVersion,
}

/// The answer to a window message.
#[derive(Debug)]
pub struct Reply {
    /// The message's result; `None` leaves the message to the system's
    /// default handling.
    pub result: Option<isize>,
    /// What is to be done, in this order.
    pub actions: Vec<Action>,
}

/// A reply as contracts see it.
pub struct ReplyModel {
    pub result: Option<isize>,
    pub actions: Seq<Action>,
}

impl View for Reply {
    type V = ReplyModel;

    open spec fn view(&self) -> ReplyModel {
        ReplyModel { result: self.result, actions: self.actions@ }
    }
}

/// The controller of one tray session.
#[derive(Debug)]
pub struct Controller {
    pub phase: Phase,
    pub step: StartupStep,
    pub inherited_console: bool,
    pub version: Option<String>,
    pub hotkey: Option<Hotkey>,
    pub taskbar_created: Option<u32>,
    pub window: Option<isize>,
    pub hotkey_registered: bool,
    pub icon_present: bool,
    pub state: Option<TrayState>,
}

/// A controller as contracts see it.
pub struct ControllerModel {
    pub phase: Phase,
    pub step: StartupStep,
    pub inherited_console: bool,
    pub version: Option<Seq<char>>,
    pub hotkey: Option<HotkeyModel>,
    pub taskbar_created: Option<u32>,
    pub window: Option<isize>,
    pub hotkey_registered: bool,
    pub icon_present: bool,
    pub state: Option<TrayStateModel>,
}

impl View for Controller {
    type V = ControllerModel;

    open spec fn view(&self) -> ControllerModel {
        ControllerModel {
            phase: self.phase,
            step: self.step,
            inherited_console: self.inherited_console,
            version: match self.version {
                Some(v) => Some(v@),
                None => None,
            },
            hotkey: match self.hotkey {
                Some(h) => Some(h@),
                None => None,
            },
            taskbar_created: self.taskbar_created,
            window: self.window,
            hotkey_registered: self.hotkey_registered,
            icon_present: self.icon_present,
            state: match self.state {
                Some(s) => Some(s@),
                None => None,
            },
        }
    }
}

/// The controller before anything has happened, for a version.
pub open spec fn fresh(version: Seq<char>) -> ControllerModel {
    ControllerModel {
        phase: Phase::Uninitialized,
        step: StartupStep::Begin,
        inherited_console: false,
        version: Some(version),
        hotkey: None,
        taskbar_created: None,
        window: None,
        hotkey_registered: false,
        icon_present: false,
        state: None,
    }
}

/// The low 32 bits of a message's second parameter, where the tray icon
/// puts the pointer's message.
pub open spec fn low_word(lparam: isize) -> u32 {
    ((lparam as i64) & 0xFFFF_FFFF) as u32
}

/// The low 32 bits of a message's second parameter.
pub fn low_word_of(lparam: isize) -> (r: u32)
    ensures
        r == low_word(lparam),
{
    let wide: i64 = lparam as i64;
    let low: i64 = wide & 0xFFFF_FFFF;
    assert(0 <= wide & 0xFFFF_FFFF <= 0xFFFF_FFFF) by (bit_vector);
    low as u32
}

/// Tells a window message apart. The fixed messages come first; the
/// taskbar's broadcast is known by the identifier that was registered for
/// it, if one was.
pub open spec fn classified(
    message: u32,
    wparam: usize,
    lparam: isize,
    taskbar_created: Option<u32>,
) -> WindowEvent {
    if message == WM_CREATE {
        WindowEvent::Create
    } else if message == WM_HOTKEY {
        WindowEvent::Hotkey { ours: wparam == HOTKEY_ID }
    } else if message == WM_TRAY_CALLBACK {
        WindowEvent::Tray { code: low_word(lparam) }
    } else if message == WM_CLOSE {
        WindowEvent::Close
    } else if message == WM_DESTROY {
        WindowEvent::Destroy
    } else if taskbar_created == Some(message) {
        WindowEvent::TaskbarCreated
    } else {
        WindowEvent::Other
    }
}

/// Tells a window message apart.
pub fn classify_message(
    message: u32,
    wparam: usize,
    lparam: isize,
    taskbar_created: Option<u32>,
) -> (r: WindowEvent)
    ensures
        r == classified(message, wparam, lparam, taskbar_created),
{
    if message == WM_CREATE {
        WindowEvent::Create
    } else if message == WM_HOTKEY {
        WindowEvent::Hotkey { ours: wparam == 1 }
    } else if message == WM_TRAY_CALLBACK {
        WindowEvent::Tray { code: low_word_of(lparam) }
    } else if message == WM_CLOSE {
        WindowEvent::Close
    } else if message == WM_DESTROY {
        WindowEvent::Destroy
    } else {
        match taskbar_created {
            Some(id) => if id == message {
                WindowEvent::TaskbarCreated
            } else {
                WindowEvent::Other
            },
            None => WindowEvent::Other,
        }
    }
}

/// The state of a window just created, for a controller.
pub open spec fn created_state(c: ControllerModel) -> TrayStateModel {
    TrayStateModel {
        version: c.version->0,
        hotkey_expression: match c.hotkey {
            Some(h) => h.expression,
            None => "Ctrl+Shift+B"@,
        },
        console_mode: ConsoleMode::Detached,
    }
}

/// What is to be done at a window's destruction: the hotkey is
/// unregistered if it is registered, then the icon is deleted if it is
/// there, then the loop is told to stop.
pub open spec fn teardown_actions(c: ControllerModel) -> Seq<Action> {
    (if c.hotkey_registered { seq![Action::UnregisterHotkey] } else { Seq::empty() }) + (
    if c.icon_present { seq![Action::DeleteTrayIcon] } else { Seq::empty() }) + seq![
        Action::PostQuit,
    ]
}

/// The controller after a window event.
pub open spec fn dispatched(c: ControllerModel, e: WindowEvent) -> ControllerModel {
    match e {
        WindowEvent::Create => if c.version is Some {
            ControllerModel { state: Some(created_state(c)), ..c }
        } else {
            c
        },
        WindowEvent::Close => ControllerModel {
            phase: if c.phase == Phase::Terminated {
                Phase::Terminated
            } else {
                Phase::ShuttingDown
            },
            ..c
        },
        WindowEvent::Destroy => ControllerModel {
            phase: Phase::Terminated,
            hotkey_registered: false,
            icon_present: false,
            state: None,
            ..c
        },
        _ => c,
    }
}

/// The answer to a window event.
///
/// The taskbar's broadcast re-adds the icon only where the icon is there:
/// before the start has added it there is nothing to restore, and the
/// start adds it next; after a destroy the icon has been deleted for good,
/// and a late broadcast must not bring it back.
pub open spec fn reply_to(c: ControllerModel, e: WindowEvent) -> ReplyModel {
    match e {
        WindowEvent::Create => if c.version is Some {
            ReplyModel { result: Some(0), actions: Seq::empty() }
        } else {
            ReplyModel { result: Some(-1isize), actions: seq![Action::ReportMissingVersion] }
        },
        WindowEvent::Hotkey { ours } => ReplyModel {
            result: Some(0),
            actions: if ours { seq![Action::Toggle] } else { Seq::empty() },
        },
        WindowEvent::Tray { code } => ReplyModel {
            result: Some(0),
            actions: if (code == WM_RBUTTONUP || code == WM_CONTEXTMENU) && c.state is Some {
                seq![Action::ShowContextMenu]
            } else if code == WM_LBUTTONDBLCLK {
                seq![Action::Toggle]
            } else {
                Seq::empty()
            },
        },
        WindowEvent::Close => ReplyModel { result: Some(0), actions: seq![Action::DestroyWindow] },
        WindowEvent::Destroy => ReplyModel { result: Some(0), actions: teardown_actions(c) },
        WindowEvent::TaskbarCreated => ReplyModel {
            result: Some(0),
            actions: if c.icon_present { seq![Action::ReAddTrayIcon] } else { Seq::empty() },
        },
        WindowEvent::Other => ReplyModel { result: None, actions: Seq::empty() },
    }
}

impl Controller {
    /// A controller before anything has happened.
    pub fn new(version: &str) -> (r: Controller)
        ensures
            r@ == fresh(version@),
    {
        Controller {
            phase: Phase::Uninitialized,
            step: StartupStep::Begin,
            inherited_console: false,
            version: Some(String::from_str(version)),
            hotkey: None,
            taskbar_created: None,
            window: None,
            hotkey_registered: false,
            icon_present: false,
            state: None,
        }
    }

    /// Takes one window event and says what is to be done.
    pub fn dispatch(&mut self, event: WindowEvent) -> (r: Reply)
        ensures
            final(self)@ == dispatched(old(self)@, event),
            r@ == reply_to(old(self)@, event),
    {
        let mut actions: Vec<Action> = Vec::new();
        let mut result: Option<isize> = Some(0);
        match event {
            WindowEvent::Create => {
                match &self.version {
                    Some(version) => {
                        let expression = match &self.hotkey {
                            Some(h) => h.expression.clone(),
                            None => String::from_str("Ctrl+Shift+B"),
                        };
                        self.state = Some(TrayState::new(version.clone(), expression));
                    },
                    None => {
                        actions.push(Action::ReportMissingVersion);
                        result = Some(-1);
                    },
                }
            },
            WindowEvent::Hotkey { ours } => {
                if ours {
                    actions.push(Action::Toggle);
                }
            },
            WindowEvent::Tray { code } => {
                if (code == WM_RBUTTONUP || code == WM_CONTEXTMENU) && self.state.is_some() {
                    actions.push(Action::ShowContextMenu);
                } else if code == WM_LBUTTONDBLCLK {
                    actions.push(Action::Toggle);
                }
            },
            WindowEvent::Close => {
                if self.phase != Phase::Terminated {
                    self.phase = Phase::ShuttingDown;
                }
                actions.push(Action::DestroyWindow);
            },
            WindowEvent::Destroy => {
                if self.hotkey_registered {
                    actions.push(Action::UnregisterHotkey);
                }
                if self.icon_present {
                    actions.push(Action::DeleteTrayIcon);
                }
                actions.push(Action::PostQuit);
                self.hotkey_registered = false;
                self.icon_present = false;
                self.state = None;
                self.phase = Phase::Terminated;
            },
            WindowEvent::TaskbarCreated => {
                if self.icon_present {
                    actions.push(Action::ReAddTrayIcon);
                }
            },
            WindowEvent::Other => {
                result = None;
            },
        }
        assert(actions@ =~= reply_to(old(self)@, event).actions);
        Reply { result, actions }
    }
}

/// Takes one window message, as the window procedure gets it, and says
/// what is to be done.
pub fn window_proc(ctl: &mut Controller, message: u32, wparam: usize, lparam: isize) -> (r: Reply)
    ensures
        final(ctl)@ == dispatched(
            old(ctl)@,
            classified(message, wparam, lparam, old(ctl).taskbar_created),
        ),
        r@ == reply_to(old(ctl)@, classified(message, wparam, lparam, old(ctl).taskbar_created)),
{
    let event = classify_message(message, wparam, lparam, ctl.taskbar_created);
    ctl.dispatch(event)
}

/// The controller after a run of window events.
pub open spec fn run(c: ControllerModel, events: Seq<WindowEvent>) -> ControllerModel
    decreases events.len(),
{
    if events.len() == 0 {
        c
    } else {
        dispatched(run(c, events.drop_last()), events.last())
    }
}

/// Everything that a run of window events asks to be done, in order.
pub open spec fn run_actions(c: ControllerModel, events: Seq<WindowEvent>) -> Seq<Action>
    decreases events.len(),
{
    if events.len() == 0 {
        Seq::empty()
    } else {
        run_actions(c, events.drop_last()) + reply_to(
            run(c, events.drop_last()),
            events.last(),
        ).actions
    }
}

/// How often `a` stands in `actions`.
pub open spec fn count(actions: Seq<Action>, a: Action) -> nat
    decreases actions.len(),
{
    if actions.len() == 0 {
        0
    } else {
        count(actions.drop_last(), a) + if actions.last() == a {
            1nat
        } else {
            0nat
        }
    }
}

/// Whether a destroy event is among `events`.
pub open spec fn destroyed(events: Seq<WindowEvent>) -> bool {
    exists|i: int| 0 <= i < events.len() && events[i] == WindowEvent::Destroy
}

proof fn lemma_count_concat(s: Seq<Action>, t: Seq<Action>, a: Action)
    ensures
        count(s + t, a) == count(s, a) + count(t, a),
    decreases t.len(),
{
    if t.len() == 0 {
        assert(s + t == s);
    } else {
        assert((s + t).drop_last() == s + t.drop_last());
        lemma_count_concat(s, t.drop_last(), a);
    }
}

proof fn lemma_count_one(x: Action, a: Action)
    ensures
        count(seq![x], a) == if x == a {
            1nat
        } else {
            0nat
        },
        count(Seq::empty(), a) == 0,
{
    reveal_with_fuel(count, 2);
    assert(seq![x].drop_last() == Seq::<Action>::empty());
}

/// How often each of the two releases stands in what one event asks for.
proof fn lemma_reply_counts(c: ControllerModel, e: WindowEvent)
    ensures
        count(reply_to(c, e).actions, Action::UnregisterHotkey) == if e == WindowEvent::Destroy
            && c.hotkey_registered {
            1nat
        } else {
            0nat
        },
        count(reply_to(c, e).actions, Action::DeleteTrayIcon) == if e == WindowEvent::Destroy
            && c.icon_present {
            1nat
        } else {
            0nat
        },
{
    let none = Seq::<Action>::empty();
    lemma_count_one(Action::Toggle, Action::UnregisterHotkey);
    lemma_count_one(Action::Toggle, Action::DeleteTrayIcon);
    lemma_count_one(Action::ShowContextMenu, Action::UnregisterHotkey);
    lemma_count_one(Action::ShowContextMenu, Action::DeleteTrayIcon);
    lemma_count_one(Action::DestroyWindow, Action::UnregisterHotkey);
    lemma_count_one(Action::DestroyWindow, Action::DeleteTrayIcon);
    lemma_count_one(Action::ReAddTrayIcon, Action::UnregisterHotkey);
    lemma_count_one(Action::ReAddTrayIcon, Action::DeleteTrayIcon);
    lemma_count_one(Action::ReportMissingVersion, Action::UnregisterHotkey);
    lemma_count_one(Action::ReportMissingVersion, Action::DeleteTrayIcon);
    lemma_count_one(Action::PostQuit, Action::UnregisterHotkey);
    lemma_count_one(Action::PostQuit, Action::DeleteTrayIcon);
    lemma_count_one(Action::UnregisterHotkey, Action::UnregisterHotkey);
    lemma_count_one(Action::UnregisterHotkey, Action::DeleteTrayIcon);
    lemma_count_one(Action::DeleteTrayIcon, Action::UnregisterHotkey);
    lemma_count_one(Action::DeleteTrayIcon, Action::DeleteTrayIcon);
    if e == WindowEvent::Destroy {
        let first = if c.hotkey_registered { seq![Action::UnregisterHotkey] } else { none };
        let second = if c.icon_present { seq![Action::DeleteTrayIcon] } else { none };
        let last = seq![Action::PostQuit];
        lemma_count_concat(first, second, Action::UnregisterHotkey);
        lemma_count_concat(first + second, last, Action::UnregisterHotkey);
        lemma_count_concat(first, second, Action::DeleteTrayIcon);
        lemma_count_concat(first + second, last, Action::DeleteTrayIcon);
    }
}

/// Teardown happens once: over any run of window events, the hotkey is
/// unregistered exactly once if it was registered and a destroy event is
/// among them, and never otherwise; the same holds of the icon's removal.
/// After a destroy event nothing is left registered and the session is
/// over, however many more events follow; right after it the window's
/// state is gone.
pub proof fn lemma_teardown_once(c: ControllerModel, events: Seq<WindowEvent>)
    ensures
        count(run_actions(c, events), Action::UnregisterHotkey) == if c.hotkey_registered
            && destroyed(events) {
            1nat
        } else {
            0nat
        },
        count(run_actions(c, events), Action::DeleteTrayIcon) == if c.icon_present && destroyed(
            events,
        ) {
            1nat
        } else {
            0nat
        },
        destroyed(events) ==> !run(c, events).hotkey_registered && !run(c, events).icon_present
            && run(c, events).phase == Phase::Terminated,
        events.len() > 0 && events.last() == WindowEvent::Destroy ==> run(c, events).state is None,
        !destroyed(events) ==> run(c, events).hotkey_registered == c.hotkey_registered && run(
            c,
            events,
        ).icon_present == c.icon_present,
    decreases events.len(),
{
    if events.len() > 0 {
        let before = events.drop_last();
        let e = events.last();
        lemma_teardown_once(c, before);
        lemma_reply_counts(run(c, before), e);
        lemma_count_concat(
            run_actions(c, before),
            reply_to(run(c, before), e).actions,
            Action::UnregisterHotkey,
        );
        lemma_count_concat(
            run_actions(c, before),
            reply_to(run(c, before), e).actions,
            Action::DeleteTrayIcon,
        );
        if destroyed(before) {
            let i = choose|i: int| 0 <= i < before.len() && before[i] == WindowEvent::Destroy;
            assert(events[i] == WindowEvent::Destroy);
        }
        if e == WindowEvent::Destroy {
            assert(events[events.len() - 1] == WindowEvent::Destroy);
        }
        if destroyed(events) {
            let i = choose|i: int| 0 <= i < events.len() && events[i] == WindowEvent::Destroy;
            if i < before.len() {
                assert(before[i] == WindowEvent::Destroy);
            }
        }
    }
}

/// No window event takes a session back to an earlier phase: once it
/// shuts down it never runs again.
pub proof fn lemma_dispatch_forward(c: ControllerModel, e: WindowEvent)
    ensures
        c.phase == Phase::Terminated ==> dispatched(c, e).phase == Phase::Terminated,
        c.phase == Phase::ShuttingDown ==> dispatched(c, e).phase != Phase::Running && dispatched(
            c,
            e,
        ).phase != Phase::Uninitialized,
        dispatched(c, e).phase == Phase::Running ==> c.phase == Phase::Running,
        dispatched(c, e).step == c.step,
{
}

} // verus!
