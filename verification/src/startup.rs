//! The start of a tray session, step by step: the controller says what is
//! to be done next, and is told how it went.

use crate::controller::{
    dispatched, fresh, Controller, ControllerModel, Phase, StartupStep, WindowEvent, HOTKEY_ID,
};
use crate::hotkey::{
    load_hotkey, loaded, HotkeyRegistration, InvalidStored, InvalidStoredModel,
};
use crate::tray::{detach_default_console_if_not_inherited, is_inheriting_console};
use vstd::prelude::*;

verus! {

/// How the step that was asked for went.
#[derive(Debug)]
pub enum StartupEvent {
    /// The session begins; whether the process has a console, and how many
    /// processes are attached to it.
    Begin { has_console: bool, attached: u32 },
    /// The console signal handler was installed, or the console released;
    /// `ok` says whether that worked.
    ConsoleSettled { ok: bool },
    /// What the hotkey store holds; `None` where there is no store.
    StoredRead { text: Option<String> },
    /// The hotkey store is there and could not be read.
    StoredUnreadable,
    /// The taskbar's broadcast has the identifier `id`.
    BroadcastRegistered { id: u32 },
    /// The window's handle, or `None` where none could be made.
    WindowCreated { handle: Option<isize> },
    HotkeyRegistered { ok: bool },
    IconAdded { ok: bool },
    /// The message loop has seen the request to quit.
    LoopEnded,
}

/// A startup event as contracts see it.
pub enum StartupEventModel {
    Begin { has_console: bool, attached: u32 },
    ConsoleSettled { ok: bool },
    StoredRead { text: Option<Seq<char>> },
    StoredUnreadable,
    BroadcastRegistered { id: u32 },
    WindowCreated { handle: Option<isize> },
    HotkeyRegistered { ok: bool },
    IconAdded { ok: bool },
    LoopEnded,
}

impl View for StartupEvent {
    type V = StartupEventModel;

    open spec fn view(&self) -> StartupEventModel {
        match self {
            StartupEvent::Begin { has_console, attached } => StartupEventModel::Begin {
                has_console: *has_console,
                attached: *attached,
            },
            StartupEvent::ConsoleSettled { ok } => StartupEventModel::ConsoleSettled { ok: *ok },
            StartupEvent::StoredRead { text } => StartupEventModel::StoredRead {
                text: match text {
                    Some(t) => Some(t@),
                    None => None,
                },
            },
            StartupEvent::StoredUnreadable => StartupEventModel::StoredUnreadable,
            StartupEvent::BroadcastRegistered { id } => StartupEventModel::BroadcastRegistered {
                id: *id,
            },
            StartupEvent::WindowCreated { handle } => StartupEventModel::WindowCreated {
                handle: *handle,
            },
            StartupEvent::HotkeyRegistered { ok } => StartupEventModel::HotkeyRegistered { ok: *ok },
            StartupEvent::IconAdded { ok } => StartupEventModel::IconAdded { ok: *ok },
            StartupEvent::LoopEnded => StartupEventModel::LoopEnded,
        }
    }
}

/// Why a session did not start.
#[derive(Debug)]
pub enum StartupError {
    /// The console signal handler could not be installed.
    SignalHandler,
    /// The hotkey store could not be read.
    StoredUnreadable,
    /// The stored expression is no hotkey.
    InvalidHotkey(InvalidStored),
    /// No hotkey is configured at the time of its registration.
    HotkeyMissing,
    /// The window could not be made.
    WindowCreation,
    /// The hotkey could not be registered: it is taken, or it is no valid
    /// combination.
    HotkeyRegistration,
    /// The tray icon could not be added.
    TrayIcon,
    /// The event does not answer the step that was asked for, or the
    /// session has begun to shut down before it was running.
    OutOfTurn,
}

/// A startup error as contracts see it.
pub enum StartupErrorModel {
    SignalHandler,
    StoredUnreadable,
    InvalidHotkey(InvalidStoredModel),
    HotkeyMissing,
    WindowCreation,
    HotkeyRegistration,
    TrayIcon,
    OutOfTurn,
}

impl View for StartupError {
    type V = StartupErrorModel;

    open spec fn view(&self) -> StartupErrorModel {
        match self {
            StartupError::SignalHandler => StartupErrorModel::SignalHandler,
            StartupError::StoredUnreadable => StartupErrorModel::StoredUnreadable,
            StartupError::InvalidHotkey(e) => StartupErrorModel::InvalidHotkey(e@),
            StartupError::HotkeyMissing => StartupErrorModel::HotkeyMissing,
            StartupError::WindowCreation => StartupErrorModel::WindowCreation,
            StartupError::HotkeyRegistration => StartupErrorModel::HotkeyRegistration,
            StartupError::TrayIcon => StartupErrorModel::TrayIcon,
            StartupError::OutOfTurn => StartupErrorModel::OutOfTurn,
        }
    }
}

/// What is to be done next.
#[derive(Debug)]
pub enum StartupAction {
    InstallSignalHandler,
    ReleaseConsole,
    ReadStored,
    RegisterBroadcast,
    CreateWindow,
    RegisterHotkey { id: i32, registration: HotkeyRegistration },
    AddTrayIcon,
    RunLoop,
    /// The session is over.
    Finish,
    /// The start has failed. Where `destroy_window` holds, the window
    /// exists and is to be destroyed, which releases what was registered
    /// on it.
    Fail { error: StartupError, destroy_window: bool },
}

/// A startup action as contracts see it.
pub enum StartupActionModel {
    InstallSignalHandler,
    ReleaseConsole,
    ReadStored,
    RegisterBroadcast,
    CreateWindow,
    RegisterHotkey { id: i32, registration: HotkeyRegistration },
    AddTrayIcon,
    RunLoop,
    Finish,
    Fail { error: StartupErrorModel, destroy_window: bool },
}

impl View for StartupAction {
    type V = StartupActionModel;

    open spec fn view(&self) -> StartupActionModel {
        match self {
            StartupAction::InstallSignalHandler => StartupActionModel::InstallSignalHandler,
            StartupAction::ReleaseConsole => StartupActionModel::ReleaseConsole,
            StartupAction::ReadStored => StartupActionModel::ReadStored,
            StartupAction::RegisterBroadcast => StartupActionModel::RegisterBroadcast,
            StartupAction::CreateWindow => StartupActionModel::CreateWindow,
            StartupAction::RegisterHotkey { id, registration } => {
                StartupActionModel::RegisterHotkey { id: *id, registration: *registration }
            },
            StartupAction::AddTrayIcon => StartupActionModel::AddTrayIcon,
            StartupAction::RunLoop => StartupActionModel::RunLoop,
            StartupAction::Finish => StartupActionModel::Finish,
            StartupAction::Fail { error, destroy_window } => StartupActionModel::Fail {
                error: error@,
                destroy_window: *destroy_window,
            },
        }
    }
}

/// The error with which the start fails at an event, if it fails there.
pub open spec fn startup_error(c: ControllerModel, e: StartupEventModel) -> Option<
    StartupErrorModel,
> {
    if c.step != StartupStep::Loop && c.phase != Phase::Uninitialized {
        Some(StartupErrorModel::OutOfTurn)
    } else {
        step_error(c, e)
    }
}

/// The error with which a step of the start fails at an event, if it
/// fails there, in a session that has not begun to shut down.
pub open spec fn step_error(c: ControllerModel, e: StartupEventModel) -> Option<
    StartupErrorModel,
> {
    match (c.step, e) {
        (StartupStep::Begin, StartupEventModel::Begin { .. }) => None,
        (StartupStep::Console, StartupEventModel::ConsoleSettled { ok }) => if c.inherited_console
            && !ok {
            Some(StartupErrorModel::SignalHandler)
        } else {
            None
        },
        (StartupStep::Stored, StartupEventModel::StoredRead { text }) => match loaded(text) {
            Ok(_) => None,
            Err(invalid) => Some(StartupErrorModel::InvalidHotkey(invalid)),
        },
        (StartupStep::Stored, StartupEventModel::StoredUnreadable) => Some(
            StartupErrorModel::StoredUnreadable,
        ),
        (StartupStep::Broadcast, StartupEventModel::BroadcastRegistered { .. }) => None,
        (StartupStep::Window, StartupEventModel::WindowCreated { handle }) => if handle is None {
            Some(StartupErrorModel::WindowCreation)
        } else if c.hotkey is None {
            Some(StartupErrorModel::HotkeyMissing)
        } else {
            None
        },
        (StartupStep::Hotkey, StartupEventModel::HotkeyRegistered { ok }) => if ok {
            None
        } else {
            Some(StartupErrorModel::HotkeyRegistration)
        },
        (StartupStep::Icon, StartupEventModel::IconAdded { ok }) => if ok {
            None
        } else {
            Some(StartupErrorModel::TrayIcon)
        },
        (StartupStep::Loop, StartupEventModel::LoopEnded) => None,
        _ => Some(StartupErrorModel::OutOfTurn),
    }
}

/// The controller after a step that went well.
pub open spec fn advanced(c: ControllerModel, e: StartupEventModel) -> ControllerModel {
    match e {
        StartupEventModel::Begin { has_console, attached } => ControllerModel {
            inherited_console: has_console && attached > 1,
            step: if has_console && attached >= 1 {
                StartupStep::Console
            } else {
                StartupStep::Stored
            },
            ..c
        },
        StartupEventModel::ConsoleSettled { .. } => ControllerModel { step: StartupStep::Stored, ..c },
        StartupEventModel::StoredRead { text } => ControllerModel {
            hotkey: Some(loaded(text)->Ok_0),
            step: StartupStep::Broadcast,
            ..c
        },
        StartupEventModel::StoredUnreadable => c,
        StartupEventModel::BroadcastRegistered { id } => ControllerModel {
            taskbar_created: Some(id),
            step: StartupStep::Window,
            ..c
        },
        StartupEventModel::WindowCreated { handle } => ControllerModel {
            window: handle,
            step: StartupStep::Hotkey,
            ..c
        },
        StartupEventModel::HotkeyRegistered { .. } => ControllerModel {
            hotkey_registered: true,
            step: StartupStep::Icon,
            ..c
        },
        StartupEventModel::IconAdded { .. } => ControllerModel {
            icon_present: true,
            phase: Phase::Running,
            step: StartupStep::Loop,
            ..c
        },
        StartupEventModel::LoopEnded => ControllerModel {
            phase: Phase::Terminated,
            step: StartupStep::Over,
            ..c
        },
    }
}

/// What is asked for after a step that went well.
pub open spec fn asked_next(c: ControllerModel, e: StartupEventModel) -> StartupActionModel {
    match e {
        StartupEventModel::Begin { has_console, attached } => if has_console && attached > 1 {
            StartupActionModel::InstallSignalHandler
        } else if has_console && attached == 1 {
            StartupActionModel::ReleaseConsole
        } else {
            StartupActionModel::ReadStored
        },
        StartupEventModel::ConsoleSettled { .. } => StartupActionModel::ReadStored,
        StartupEventModel::StoredRead { .. } => StartupActionModel::RegisterBroadcast,
        StartupEventModel::StoredUnreadable => StartupActionModel::Finish,
        StartupEventModel::BroadcastRegistered { .. } => StartupActionModel::CreateWindow,
        StartupEventModel::WindowCreated { .. } => StartupActionModel::RegisterHotkey {
            id: HOTKEY_ID,
            registration: c.hotkey->0.registration,
        },
        StartupEventModel::HotkeyRegistered { .. } => StartupActionModel::AddTrayIcon,
        StartupEventModel::IconAdded { .. } => StartupActionModel::RunLoop,
        StartupEventModel::LoopEnded => StartupActionModel::Finish,
    }
}

/// The controller after a step that failed: the start is over, and the
/// session shuts down through its window where it has one.
pub open spec fn failed(c: ControllerModel) -> ControllerModel {
    ControllerModel {
        step: StartupStep::Over,
        phase: if c.window is Some && c.phase != Phase::Terminated {
            Phase::ShuttingDown
        } else {
            Phase::Terminated
        },
        ..c
    }
}

/// The controller with the window noted that the event reports, if the
/// window was awaited: a window that was made is owned from then on, also
/// where the start fails at that very step.
pub open spec fn noted(c: ControllerModel, e: StartupEventModel) -> ControllerModel {
    match e {
        StartupEventModel::WindowCreated { handle } => if c.step == StartupStep::Window
            && handle is Some {
            ControllerModel { window: handle, ..c }
        } else {
            c
        },
        _ => c,
    }
}

/// The controller after a startup event.
pub open spec fn started(c: ControllerModel, e: StartupEventModel) -> ControllerModel {
    if startup_error(c, e) is Some {
        failed(noted(c, e))
    } else {
        advanced(c, e)
    }
}

/// What is to be done after a startup event.
pub open spec fn startup_action(c: ControllerModel, e: StartupEventModel) -> StartupActionModel {
    match startup_error(c, e) {
        Some(error) => StartupActionModel::Fail {
            error,
            destroy_window: noted(c, e).window is Some,
        },
        None => asked_next(c, e),
    }
}

fn fail(ctl: &mut Controller, error: StartupError) -> (r: StartupAction)
    ensures
        final(ctl)@ == failed(old(ctl)@),
        r@ == (StartupActionModel::Fail { error: error@, destroy_window: old(ctl)@.window is Some }),
{
    let has_window = ctl.window.is_some();
    ctl.step = StartupStep::Over;
    ctl.phase = if has_window && ctl.phase != Phase::Terminated {
        Phase::ShuttingDown
    } else {
        Phase::Terminated
    };
    StartupAction::Fail { error, destroy_window: has_window }
}

/// Runs the start of a tray session one step on: takes how the last step
/// went and says what is to be done next. Every step must go well; the
/// first that does not ends the start.
pub fn run_tray(ctl: &mut Controller, event: StartupEvent) -> (r: StartupAction)
    ensures
        final(ctl)@ == started(old(ctl)@, event@),
        r@ == startup_action(old(ctl)@, event@),
{
    if ctl.step == StartupStep::Window {
        if let StartupEvent::WindowCreated { handle: Some(handle) } = &event {
            ctl.window = Some(*handle);
        }
    }
    if ctl.step != StartupStep::Loop && ctl.phase != Phase::Uninitialized {
        return fail(ctl, StartupError::OutOfTurn);
    }
    match (ctl.step, event) {
        (StartupStep::Begin, StartupEvent::Begin { has_console, attached }) => {
            let inherited = is_inheriting_console(has_console, attached);
            let release = detach_default_console_if_not_inherited(has_console, attached);
            ctl.inherited_console = inherited;
            if inherited {
                ctl.step = StartupStep::Console;
                StartupAction::InstallSignalHandler
            } else if release {
                ctl.step = StartupStep::Console;
                StartupAction::ReleaseConsole
            } else {
                ctl.step = StartupStep::Stored;
                StartupAction::ReadStored
            }
        },
        (StartupStep::Console, StartupEvent::ConsoleSettled { ok }) => {
            if ctl.inherited_console && !ok {
                fail(ctl, StartupError::SignalHandler)
            } else {
                ctl.step = StartupStep::Stored;
                StartupAction::ReadStored
            }
        },
        (StartupStep::Stored, StartupEvent::StoredRead { text }) => {
            let outcome = match &text {
                Some(t) => load_hotkey(Some(t.as_str())),
                None => load_hotkey(None),
            };
            match outcome {
                Ok(hotkey) => {
                    ctl.hotkey = Some(hotkey);
                    ctl.step = StartupStep::Broadcast;
                    StartupAction::RegisterBroadcast
                },
                Err(invalid) => fail(ctl, StartupError::InvalidHotkey(invalid)),
            }
        },
        (StartupStep::Stored, StartupEvent::StoredUnreadable) => fail(
            ctl,
            StartupError::StoredUnreadable,
        ),
        (StartupStep::Broadcast, StartupEvent::BroadcastRegistered { id }) => {
            ctl.taskbar_created = Some(id);
            ctl.step = StartupStep::Window;
            StartupAction::CreateWindow
        },
        (StartupStep::Window, StartupEvent::WindowCreated { handle }) => {
            if handle.is_none() {
                return fail(ctl, StartupError::WindowCreation);
            }
            let registration = match &ctl.hotkey {
                Some(hotkey) => hotkey.registration,
                None => {
                    return fail(ctl, StartupError::HotkeyMissing);
                },
            };
            ctl.step = StartupStep::Hotkey;
            StartupAction::RegisterHotkey { id: HOTKEY_ID, registration }
        },
        (StartupStep::Hotkey, StartupEvent::HotkeyRegistered { ok }) => {
            if ok {
                ctl.hotkey_registered = true;
                ctl.step = StartupStep::Icon;
                StartupAction::AddTrayIcon
            } else {
                fail(ctl, StartupError::HotkeyRegistration)
            }
        },
        (StartupStep::Icon, StartupEvent::IconAdded { ok }) => {
            if ok {
                ctl.icon_present = true;
                ctl.phase = Phase::Running;
                ctl.step = StartupStep::Loop;
                StartupAction::RunLoop
            } else {
                fail(ctl, StartupError::TrayIcon)
            }
        },
        (StartupStep::Loop, StartupEvent::LoopEnded) => {
            ctl.phase = Phase::Terminated;
            ctl.step = StartupStep::Over;
            StartupAction::Finish
        },
        _ => fail(ctl, StartupError::OutOfTurn),
    }
}

/// The rank of a phase in the order in which a session goes through them.
pub open spec fn phase_rank(p: Phase) -> nat {
    match p {
        Phase::Uninitialized => 0,
        Phase::Running => 1,
        Phase::ShuttingDown => 2,
        Phase::Terminated => 3,
    }
}

/// No startup event takes a session back to an earlier phase, a session
/// runs only once its icon is there, and a failed step ends the start
/// without registering anything and asks for the window's destruction
/// wherever there is a window.
pub proof fn lemma_startup_forward(c: ControllerModel, e: StartupEventModel)
    ensures
        phase_rank(started(c, e).phase) >= phase_rank(c.phase),
        started(c, e).phase == Phase::Running && c.phase != Phase::Running ==> started(
            c,
            e,
        ).icon_present,
        startup_error(c, e) is Some ==> started(c, e).step == StartupStep::Over && started(
            c,
            e,
        ).phase != Phase::Running && started(c, e).hotkey_registered == c.hotkey_registered
            && started(c, e).icon_present == c.icon_present,
        startup_error(c, e) is Some && started(c, e).window is Some ==> startup_action(c, e)
            == (StartupActionModel::Fail {
            error: startup_error(c, e)->0,
            destroy_window: true,
        }),
{
}

/// What holds of a controller at every moment of a session: nothing is
/// registered without what it is registered on, the hotkey counts as
/// registered only once its registration was answered, the icon is added
/// last, and a session that runs has its window, its hotkey and its icon.
pub open spec fn consistent(c: ControllerModel) -> bool {
    &&& c.hotkey_registered ==> c.window is Some && c.hotkey is Some
    &&& c.icon_present ==> c.hotkey_registered
    &&& c.phase == Phase::Running ==> c.icon_present && c.step == StartupStep::Loop
    &&& c.phase == Phase::Uninitialized ==> !c.icon_present && c.step != StartupStep::Loop
        && c.step != StartupStep::Over
    &&& c.phase == Phase::Uninitialized && c.step == StartupStep::Icon ==> c.hotkey_registered
    &&& c.phase == Phase::Uninitialized && c.step == StartupStep::Hotkey ==> c.window is Some
        && c.hotkey is Some
    &&& c.phase == Phase::Uninitialized && c.step != StartupStep::Icon ==> !c.hotkey_registered
}

/// A controller is consistent before anything has happened.
pub proof fn lemma_consistent_at_first(version: Seq<char>)
    ensures
        consistent(fresh(version)),
{
}

/// Startup events keep a controller consistent.
pub proof fn lemma_startup_keeps_consistent(c: ControllerModel, e: StartupEventModel)
    requires
        consistent(c),
    ensures
        consistent(started(c, e)),
{
}

/// Window events keep a controller consistent.
pub proof fn lemma_dispatch_keeps_consistent(c: ControllerModel, e: WindowEvent)
    requires
        consistent(c),
    ensures
        consistent(dispatched(c, e)),
{
}

} // verus!
