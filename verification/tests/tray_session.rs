use tb::cli::{command_or_default, init_tracing, Command, GlobalArgs, HotkeyCommand, LogLevel};
use tb::controller::{
    classify_message, window_proc, Action, Controller, Phase, StartupStep, WindowEvent,
    WM_CLOSE, WM_CONTEXTMENU, WM_CREATE, WM_DESTROY, WM_HOTKEY, WM_LBUTTONDBLCLK, WM_RBUTTONUP,
    WM_TRAY_CALLBACK,
};
use tb::hotkey::HotkeyRegistration;
use tb::paths::{app_home, cache_home, AppHome, CacheHome, PathError};
use tb::startup::{run_tray, StartupAction, StartupError, StartupEvent};
use tb::taskbar::{
    find_taskbar_window, is_taskbar_auto_hide_enabled, status_line, toggle_outcome,
    toggle_taskbar_auto_hide, TaskbarError,
};
use tb::tray::{
    about_answered, context_menu, copy_confirmation, ctrl_c_handler,
    detach_default_console_if_not_inherited, is_inheriting_console, menu_label, menu_selected,
    AboutFollowUp, ConsoleMode, MenuItem, MenuOutcome, TrayState, CMD_ABOUT, CMD_EXIT,
    CMD_HIDE_LOGS, CMD_SHOW_LOGS, CMD_TOGGLE,
};

fn state() -> TrayState {
    TrayState::new("1.2.3 (rev abc)".to_string(), "Ctrl+Shift+B".to_string())
}

fn running() -> Controller {
    let mut ctl = Controller::new("1.0");
    let steps = vec![
        StartupEvent::Begin { has_console: false, attached: 0 },
        StartupEvent::StoredRead { text: Some("alt+f4\n".to_string()) },
        StartupEvent::BroadcastRegistered { id: 0xC123 },
    ];
    for e in steps {
        run_tray(&mut ctl, e);
    }
    run_tray(&mut ctl, StartupEvent::WindowCreated { handle: Some(77) });
    window_proc(&mut ctl, WM_CREATE, 0, 0);
    run_tray(&mut ctl, StartupEvent::HotkeyRegistered { ok: true });
    run_tray(&mut ctl, StartupEvent::IconAdded { ok: true });
    ctl
}

#[test]
fn new_state_is_detached() {
    let s = state();
    assert_eq!(s.console_mode, ConsoleMode::Detached);
    assert!(s.can_show_logs());
    assert!(!s.can_hide_logs());
}

#[test]
fn show_and_hide_are_idempotent() {
    let mut s = state();
    assert!(!s.hide_logs());
    assert_eq!(s.console_mode, ConsoleMode::Detached);
    assert!(s.show_logs());
    assert_eq!(s.console_mode, ConsoleMode::Owned);
    assert!(!s.can_show_logs() && s.can_hide_logs());
    assert!(!s.show_logs());
    assert_eq!(s.console_mode, ConsoleMode::Owned);
    assert!(s.hide_logs());
    assert_eq!(s.console_mode, ConsoleMode::Detached);
    assert!(!s.hide_logs());
    assert_eq!(s.version, "1.2.3 (rev abc)");
    assert_eq!(s.hotkey_expression, "Ctrl+Shift+B");
}

#[test]
fn about_text_names_version_and_hotkey() {
    assert_eq!(
        state().about_text(),
        "tb\nVersion: 1.2.3 (rev abc)\nHotkey: Ctrl+Shift+B\n\nChoose Yes to copy this text to clipboard."
    );
}

#[test]
fn menu_greys_what_would_change_nothing() {
    let mut s = state();
    assert_eq!(
        context_menu(&s),
        vec![
            MenuItem::Command { id: CMD_TOGGLE, enabled: true },
            MenuItem::Command { id: CMD_SHOW_LOGS, enabled: true },
            MenuItem::Command { id: CMD_HIDE_LOGS, enabled: false },
            MenuItem::Separator,
            MenuItem::Command { id: CMD_ABOUT, enabled: true },
            MenuItem::Separator,
            MenuItem::Command { id: CMD_EXIT, enabled: true },
        ]
    );
    s.show_logs();
    let items = context_menu(&s);
    assert_eq!(items[1], MenuItem::Command { id: 0x3001, enabled: false });
    assert_eq!(items[2], MenuItem::Command { id: 0x3002, enabled: true });
    assert_eq!(menu_label(CMD_TOGGLE), "Toggle taskbar auto-hide");
    assert_eq!(menu_label(CMD_SHOW_LOGS), "Show logs");
    assert_eq!(menu_label(CMD_HIDE_LOGS), "Hide logs");
    assert_eq!(menu_label(CMD_ABOUT), "About");
    assert_eq!(menu_label(CMD_EXIT), "Exit");
    assert_eq!(menu_label(0), "");
}

#[test]
fn menu_choices() {
    let mut s = state();
    assert!(matches!(menu_selected(&mut s, 0x3000), MenuOutcome::Toggle));
    assert!(matches!(menu_selected(&mut s, 0x3002), MenuOutcome::Nothing));
    assert!(matches!(menu_selected(&mut s, 0x3001), MenuOutcome::AttachConsole));
    assert_eq!(s.console_mode, ConsoleMode::Owned);
    assert!(matches!(menu_selected(&mut s, 0x3001), MenuOutcome::Nothing));
    assert_eq!(s.console_mode, ConsoleMode::Owned);
    assert!(matches!(menu_selected(&mut s, 0x3002), MenuOutcome::ReleaseConsole));
    assert_eq!(s.console_mode, ConsoleMode::Detached);
    match menu_selected(&mut s, 0x3003) {
        MenuOutcome::About(text) => assert_eq!(text, s.about_text()),
        _ => panic!("expected the About dialog"),
    }
    assert!(matches!(menu_selected(&mut s, 0x3004), MenuOutcome::Close));
    assert!(matches!(menu_selected(&mut s, 0), MenuOutcome::Nothing));
    assert!(matches!(menu_selected(&mut s, -1), MenuOutcome::Nothing));
    assert!(matches!(menu_selected(&mut s, 0x3005), MenuOutcome::Nothing));
    assert_eq!(s.console_mode, ConsoleMode::Detached);
}

#[test]
fn about_dialog_answers() {
    assert_eq!(about_answered(6), AboutFollowUp::Copy);
    assert_eq!(about_answered(7), AboutFollowUp::Nothing);
    assert_eq!(about_answered(0), AboutFollowUp::Unexpected);
    assert_eq!(about_answered(2), AboutFollowUp::Unexpected);
    assert_eq!(copy_confirmation(true), "Copied version info to clipboard.");
    assert_eq!(copy_confirmation(false), "Failed to copy version info to clipboard.");
}

#[test]
fn console_inheritance() {
    assert!(!is_inheriting_console(false, 0));
    assert!(!is_inheriting_console(false, 5));
    assert!(!is_inheriting_console(true, 1));
    assert!(is_inheriting_console(true, 2));
    assert!(detach_default_console_if_not_inherited(true, 1));
    assert!(!detach_default_console_if_not_inherited(true, 2));
    assert!(!detach_default_console_if_not_inherited(true, 0));
    assert!(!detach_default_console_if_not_inherited(false, 1));
}

#[test]
fn console_signals_ask_the_window_to_close() {
    for signal in [0u32, 1, 2] {
        let r = ctrl_c_handler(signal, Some(42));
        assert!(r.handled);
        assert_eq!(r.close, Some(42));
        let r = ctrl_c_handler(signal, None);
        assert!(r.handled);
        assert_eq!(r.close, None);
    }
    for signal in [3u32, 5, 6, 100] {
        let r = ctrl_c_handler(signal, Some(42));
        assert!(!r.handled);
        assert_eq!(r.close, None);
    }
}

#[test]
fn messages_are_told_apart() {
    assert_eq!(classify_message(0x0001, 0, 0, None), WindowEvent::Create);
    assert_eq!(classify_message(0x0312, 1, 0, None), WindowEvent::Hotkey { ours: true });
    assert_eq!(classify_message(0x0312, 2, 0, None), WindowEvent::Hotkey { ours: false });
    assert_eq!(classify_message(0x0401, 1, 0x0205, None), WindowEvent::Tray { code: 0x0205 });
    assert_eq!(classify_message(0x0010, 0, 0, None), WindowEvent::Close);
    assert_eq!(classify_message(0x0002, 0, 0, None), WindowEvent::Destroy);
    assert_eq!(classify_message(0xC123, 0, 0, Some(0xC123)), WindowEvent::TaskbarCreated);
    assert_eq!(classify_message(0xC123, 0, 0, Some(0xC124)), WindowEvent::Other);
    assert_eq!(classify_message(0xC123, 0, 0, None), WindowEvent::Other);
    assert_eq!(classify_message(0x0001, 0, 0, Some(1)), WindowEvent::Create);
    assert_eq!(WM_TRAY_CALLBACK, 0x0400 + 1);
}

#[test]
fn startup_goes_step_by_step() {
    let mut ctl = Controller::new("1.0");
    assert_eq!(ctl.phase, Phase::Uninitialized);
    assert!(matches!(
        run_tray(&mut ctl, StartupEvent::Begin { has_console: true, attached: 2 }),
        StartupAction::InstallSignalHandler
    ));
    assert!(ctl.inherited_console);
    assert!(matches!(
        run_tray(&mut ctl, StartupEvent::ConsoleSettled { ok: true }),
        StartupAction::ReadStored
    ));
    assert!(matches!(
        run_tray(&mut ctl, StartupEvent::StoredRead { text: None }),
        StartupAction::RegisterBroadcast
    ));
    assert_eq!(ctl.hotkey.as_ref().unwrap().expression, "Ctrl+Shift+B");
    assert!(matches!(
        run_tray(&mut ctl, StartupEvent::BroadcastRegistered { id: 0xC001 }),
        StartupAction::CreateWindow
    ));
    assert_eq!(ctl.taskbar_created, Some(0xC001));
    match run_tray(&mut ctl, StartupEvent::WindowCreated { handle: Some(9) }) {
        StartupAction::RegisterHotkey { id, registration } => {
            assert_eq!(id, 1);
            assert_eq!(registration, HotkeyRegistration { modifiers: 6, vk: 0x42 });
        }
        _ => panic!("expected the hotkey's registration"),
    }
    assert_eq!(ctl.window, Some(9));
    assert!(matches!(
        run_tray(&mut ctl, StartupEvent::HotkeyRegistered { ok: true }),
        StartupAction::AddTrayIcon
    ));
    assert!(ctl.hotkey_registered);
    assert_eq!(ctl.phase, Phase::Uninitialized);
    assert!(matches!(run_tray(&mut ctl, StartupEvent::IconAdded { ok: true }), StartupAction::RunLoop));
    assert!(ctl.icon_present);
    assert_eq!(ctl.phase, Phase::Running);
    assert!(matches!(run_tray(&mut ctl, StartupEvent::LoopEnded), StartupAction::Finish));
    assert_eq!(ctl.phase, Phase::Terminated);
    assert_eq!(ctl.step, StartupStep::Over);
}

#[test]
fn startup_console_choices() {
    let mut ctl = Controller::new("1.0");
    assert!(matches!(
        run_tray(&mut ctl, StartupEvent::Begin { has_console: true, attached: 1 }),
        StartupAction::ReleaseConsole
    ));
    assert!(!ctl.inherited_console);
    assert!(matches!(
        run_tray(&mut ctl, StartupEvent::ConsoleSettled { ok: false }),
        StartupAction::ReadStored
    ));
    let mut ctl = Controller::new("1.0");
    assert!(matches!(
        run_tray(&mut ctl, StartupEvent::Begin { has_console: false, attached: 0 }),
        StartupAction::ReadStored
    ));
    let mut ctl = Controller::new("1.0");
    run_tray(&mut ctl, StartupEvent::Begin { has_console: true, attached: 3 });
    assert!(matches!(
        run_tray(&mut ctl, StartupEvent::ConsoleSettled { ok: false }),
        StartupAction::Fail { error: StartupError::SignalHandler, destroy_window: false }
    ));
    assert_eq!(ctl.phase, Phase::Terminated);
}

#[test]
fn startup_failures_are_fatal() {
    let mut ctl = Controller::new("1.0");
    run_tray(&mut ctl, StartupEvent::Begin { has_console: false, attached: 0 });
    match run_tray(&mut ctl, StartupEvent::StoredRead { text: Some("ctrl+nope".to_string()) }) {
        StartupAction::Fail { error: StartupError::InvalidHotkey(e), destroy_window } => {
            assert_eq!(e.text, "ctrl+nope");
            assert!(!destroy_window);
        }
        _ => panic!("expected a failure"),
    }
    assert_eq!(ctl.step, StartupStep::Over);
    assert!(matches!(
        run_tray(&mut ctl, StartupEvent::BroadcastRegistered { id: 1 }),
        StartupAction::Fail { error: StartupError::OutOfTurn, .. }
    ));

    let mut ctl = Controller::new("1.0");
    run_tray(&mut ctl, StartupEvent::Begin { has_console: false, attached: 0 });
    assert!(matches!(
        run_tray(&mut ctl, StartupEvent::StoredUnreadable),
        StartupAction::Fail { error: StartupError::StoredUnreadable, destroy_window: false }
    ));

    let mut ctl = Controller::new("1.0");
    run_tray(&mut ctl, StartupEvent::Begin { has_console: false, attached: 0 });
    run_tray(&mut ctl, StartupEvent::StoredRead { text: None });
    run_tray(&mut ctl, StartupEvent::BroadcastRegistered { id: 0xC001 });
    assert!(matches!(
        run_tray(&mut ctl, StartupEvent::WindowCreated { handle: None }),
        StartupAction::Fail { error: StartupError::WindowCreation, destroy_window: false }
    ));

    let mut ctl = Controller::new("1.0");
    run_tray(&mut ctl, StartupEvent::Begin { has_console: false, attached: 0 });
    run_tray(&mut ctl, StartupEvent::StoredRead { text: None });
    run_tray(&mut ctl, StartupEvent::BroadcastRegistered { id: 0xC001 });
    run_tray(&mut ctl, StartupEvent::WindowCreated { handle: Some(5) });
    assert!(matches!(
        run_tray(&mut ctl, StartupEvent::HotkeyRegistered { ok: false }),
        StartupAction::Fail { error: StartupError::HotkeyRegistration, destroy_window: true }
    ));
    assert_eq!(ctl.phase, Phase::ShuttingDown);
    assert!(!ctl.hotkey_registered);
    let reply = window_proc(&mut ctl, WM_DESTROY, 0, 0);
    assert_eq!(reply.actions, vec![Action::PostQuit]);

    let mut ctl = Controller::new("1.0");
    run_tray(&mut ctl, StartupEvent::Begin { has_console: false, attached: 0 });
    run_tray(&mut ctl, StartupEvent::StoredRead { text: None });
    run_tray(&mut ctl, StartupEvent::BroadcastRegistered { id: 0xC001 });
    run_tray(&mut ctl, StartupEvent::WindowCreated { handle: Some(5) });
    run_tray(&mut ctl, StartupEvent::HotkeyRegistered { ok: true });
    assert!(matches!(
        run_tray(&mut ctl, StartupEvent::IconAdded { ok: false }),
        StartupAction::Fail { error: StartupError::TrayIcon, destroy_window: true }
    ));
    let reply = window_proc(&mut ctl, WM_DESTROY, 0, 0);
    assert_eq!(reply.actions, vec![Action::UnregisterHotkey, Action::PostQuit]);
    assert_eq!(ctl.phase, Phase::Terminated);
}

#[test]
fn creation_makes_the_window_state() {
    let ctl = running();
    let s = ctl.state.as_ref().unwrap();
    assert_eq!(s.version, "1.0");
    assert_eq!(s.hotkey_expression, "Alt+F4");
    assert_eq!(s.console_mode, ConsoleMode::Detached);

    let mut bare = Controller::new("2.0");
    let reply = window_proc(&mut bare, WM_CREATE, 0, 0);
    assert_eq!(reply.result, Some(0));
    assert_eq!(bare.state.as_ref().unwrap().hotkey_expression, "Ctrl+Shift+B");

    bare.version = None;
    bare.state = None;
    let reply = window_proc(&mut bare, WM_CREATE, 0, 0);
    assert_eq!(reply.result, Some(-1));
    assert_eq!(reply.actions, vec![Action::ReportMissingVersion]);
    assert!(bare.state.is_none());
}

#[test]
fn dispatch_table() {
    let mut ctl = running();
    let r = window_proc(&mut ctl, WM_HOTKEY, 1, 0);
    assert_eq!((r.result, r.actions), (Some(0), vec![Action::Toggle]));
    let r = window_proc(&mut ctl, WM_HOTKEY, 7, 0);
    assert_eq!((r.result, r.actions), (Some(0), vec![]));
    let r = window_proc(&mut ctl, WM_TRAY_CALLBACK, 1, WM_RBUTTONUP as isize);
    assert_eq!((r.result, r.actions), (Some(0), vec![Action::ShowContextMenu]));
    let r = window_proc(&mut ctl, WM_TRAY_CALLBACK, 1, WM_CONTEXTMENU as isize);
    assert_eq!((r.result, r.actions), (Some(0), vec![Action::ShowContextMenu]));
    let r = window_proc(&mut ctl, WM_TRAY_CALLBACK, 1, WM_LBUTTONDBLCLK as isize);
    assert_eq!((r.result, r.actions), (Some(0), vec![Action::Toggle]));
    let r = window_proc(&mut ctl, WM_TRAY_CALLBACK, 1, 0x0200);
    assert_eq!((r.result, r.actions), (Some(0), vec![]));
    let r = window_proc(&mut ctl, 0xC123, 0, 0);
    assert_eq!((r.result, r.actions), (Some(0), vec![Action::ReAddTrayIcon]));
    assert!(ctl.hotkey_registered);
    let r = window_proc(&mut ctl, 0x000F, 0, 0);
    assert_eq!((r.result, r.actions), (None, vec![]));
    assert_eq!(ctl.phase, Phase::Running);
    let r = window_proc(&mut ctl, WM_CLOSE, 0, 0);
    assert_eq!((r.result, r.actions), (Some(0), vec![Action::DestroyWindow]));
    assert_eq!(ctl.phase, Phase::ShuttingDown);
}

#[test]
fn teardown_happens_once_and_in_order() {
    let mut ctl = running();
    let r = window_proc(&mut ctl, WM_DESTROY, 0, 0);
    assert_eq!(r.result, Some(0));
    assert_eq!(
        r.actions,
        vec![Action::UnregisterHotkey, Action::DeleteTrayIcon, Action::PostQuit]
    );
    assert!(!ctl.hotkey_registered && !ctl.icon_present);
    assert!(ctl.state.is_none());
    assert_eq!(ctl.phase, Phase::Terminated);
    for _ in 0..3 {
        let r = window_proc(&mut ctl, WM_DESTROY, 0, 0);
        assert_eq!(r.actions, vec![Action::PostQuit]);
    }
    let r = window_proc(&mut ctl, 0xC123, 0, 0);
    assert_eq!(r.actions, vec![]);
    let r = window_proc(&mut ctl, WM_CLOSE, 0, 0);
    assert_eq!(r.actions, vec![Action::DestroyWindow]);
    assert_eq!(ctl.phase, Phase::Terminated);
    assert!(matches!(
        run_tray(&mut ctl, StartupEvent::LoopEnded),
        StartupAction::Finish
    ));
}

#[test]
fn no_menu_without_a_window_state() {
    let mut ctl = Controller::new("1.0");
    let r = window_proc(&mut ctl, WM_TRAY_CALLBACK, 1, WM_RBUTTONUP as isize);
    assert_eq!(r.actions, vec![]);
}

#[test]
fn toggling_flips_auto_hide_once() {
    let t = toggle_taskbar_auto_hide(0);
    assert_eq!((t.next_state, t.enabled), (3, true));
    let t = toggle_taskbar_auto_hide(1);
    assert_eq!((t.next_state, t.enabled), (2, false));
    let t = toggle_taskbar_auto_hide(2);
    assert_eq!((t.next_state, t.enabled), (3, true));
    let t = toggle_taskbar_auto_hide(3);
    assert_eq!((t.next_state, t.enabled), (2, false));
    let t = toggle_taskbar_auto_hide(0xF0);
    assert_eq!((t.next_state, t.enabled), (0xF3, true));
    let mut word: u64 = 0;
    for round in 0..6 {
        let t = toggle_taskbar_auto_hide(word);
        assert_eq!(is_taskbar_auto_hide_enabled(t.next_state), !is_taskbar_auto_hide_enabled(word));
        assert_eq!(t.enabled, round % 2 == 0);
        word = t.next_state;
    }
}

#[test]
fn taskbar_state_and_errors() {
    assert!(!is_taskbar_auto_hide_enabled(0));
    assert!(is_taskbar_auto_hide_enabled(1));
    assert!(!is_taskbar_auto_hide_enabled(2));
    assert!(is_taskbar_auto_hide_enabled(3));
    assert_eq!(find_taskbar_window(None), Err(TaskbarError::WindowNotFound));
    assert_eq!(find_taskbar_window(Some(0)), Err(TaskbarError::NullWindow));
    assert_eq!(find_taskbar_window(Some(1234)), Ok(1234));
    let t = toggle_taskbar_auto_hide(0);
    assert_eq!(toggle_outcome(t, 0), Err(TaskbarError::SetStateFailed));
    assert_eq!(toggle_outcome(t, 1), Ok(true));
    assert_eq!(TaskbarError::WindowNotFound.message(), "Failed to locate Shell_TrayWnd");
    assert_eq!(TaskbarError::NullWindow.message(), "Taskbar window handle was null");
    assert_eq!(TaskbarError::SetStateFailed.message(), "Failed to set taskbar state");
    assert_eq!(status_line(true), "taskbar auto-hide: enabled");
    assert_eq!(status_line(false), "taskbar auto-hide: disabled");
}

#[test]
fn directories_from_the_environment_come_first() {
    let home = AppHome::resolve(Some("C:\\tb-home".to_string())).unwrap();
    assert_eq!(home.path(), "C:\\tb-home");
    let home = app_home(Some("/tmp/tb".to_string())).unwrap();
    assert_eq!(home.path(), "/tmp/tb");
    let cache = CacheHome::resolve(Some("/tmp/tb-cache".to_string())).unwrap();
    assert_eq!(cache.path(), "/tmp/tb-cache");
    let cache = cache_home(Some("D:\\cache".to_string())).unwrap();
    assert_eq!(cache.path(), "D:\\cache");
}

#[test]
fn directories_from_their_sources() {
    let home = AppHome::from_sources(Some("a".to_string()), Some("b".to_string())).unwrap();
    assert_eq!(home.path(), "a");
    let home = AppHome::from_sources(None, Some("b".to_string())).unwrap();
    assert_eq!(home.path(), "b");
    assert_eq!(AppHome::from_sources(None, None).unwrap_err(), PathError::AppHomeUndetermined);
    let cache = CacheHome::from_sources(None, Some("c".to_string())).unwrap();
    assert_eq!(cache.path(), "c");
    assert_eq!(CacheHome::from_sources(None, None).unwrap_err(), PathError::CacheHomeUndetermined);
    assert_eq!(
        PathError::AppHomeUndetermined.message(),
        "Could not determine app home directory"
    );
    assert_eq!(
        PathError::CacheHomeUndetermined.message(),
        "Could not determine app cache directory"
    );
}

#[test]
fn directories_from_the_system() {
    match app_home(None) {
        Ok(home) => assert!(!home.path().is_empty()),
        Err(e) => assert_eq!(e, PathError::AppHomeUndetermined),
    }
    match cache_home(None) {
        Ok(cache) => assert!(!cache.path().is_empty()),
        Err(e) => assert_eq!(e, PathError::CacheHomeUndetermined),
    }
}

#[test]
fn command_line_defaults() {
    assert!(!GlobalArgs::default().debug);
    assert!(matches!(Command::default(), Command::Run));
    assert!(matches!(HotkeyCommand::default(), HotkeyCommand::Show));
    assert!(matches!(command_or_default(None), Command::Run));
    assert!(matches!(command_or_default(Some(Command::Status)), Command::Status));
    assert_eq!(init_tracing(true), LogLevel::Debug);
    assert_eq!(init_tracing(false), LogLevel::Info);
}

#[test]
fn toggle_log_lines() {
    let line = tb::taskbar::handle_toggle(Ok(true));
    assert_eq!((line.error, line.text.as_str()), (false, "Taskbar auto-hide enabled"));
    let line = tb::taskbar::handle_toggle(Ok(false));
    assert_eq!((line.error, line.text.as_str()), (false, "Taskbar auto-hide disabled"));
    let line = tb::taskbar::handle_toggle(Err(TaskbarError::SetStateFailed));
    assert_eq!(
        (line.error, line.text.as_str()),
        (true, "Failed to toggle taskbar: Failed to set taskbar state")
    );
}

#[test]
fn tray_codes_are_the_low_word() {
    assert_eq!(tb::controller::low_word_of(0x0205), 0x0205);
    assert_eq!(tb::controller::low_word_of(-1), 0xFFFF_FFFF);
    assert_eq!(tb::controller::low_word_of(0), 0);
    assert_eq!(tb::controller::low_word_of(isize::MIN), (isize::MIN as i64 as u64 & 0xFFFF_FFFF) as u32);
    assert_eq!(
        classify_message(WM_TRAY_CALLBACK, 0, -1, None),
        WindowEvent::Tray { code: 0xFFFF_FFFF }
    );
}

#[test]
fn a_window_made_out_of_turn_is_destroyed() {
    let mut ctl = Controller::new("1.0");
    run_tray(&mut ctl, StartupEvent::Begin { has_console: false, attached: 0 });
    run_tray(&mut ctl, StartupEvent::StoredRead { text: None });
    run_tray(&mut ctl, StartupEvent::BroadcastRegistered { id: 0xC001 });
    ctl.hotkey = None;
    assert!(matches!(
        run_tray(&mut ctl, StartupEvent::WindowCreated { handle: Some(5) }),
        StartupAction::Fail { error: StartupError::HotkeyMissing, destroy_window: true }
    ));
    assert_eq!(ctl.window, Some(5));
    assert_eq!(ctl.phase, Phase::ShuttingDown);
}

#[test]
fn command_line_without_a_command_runs_the_tray() {
    let cli = tb::cli::Cli { global: GlobalArgs { debug: true }, command: None };
    assert_eq!(init_tracing(cli.global.debug), LogLevel::Debug);
    assert!(matches!(command_or_default(cli.command), Command::Run));
    let cli = tb::cli::Cli {
        global: GlobalArgs::default(),
        command: Some(Command::Hotkey(tb::cli::HotkeyArgs {
            command: HotkeyCommand::SetHotkey { expression: "alt+tab".to_string() },
        })),
    };
    match command_or_default(cli.command) {
        Command::Hotkey(args) => match args.command {
            HotkeyCommand::SetHotkey { expression } => assert_eq!(expression, "alt+tab"),
            HotkeyCommand::Show => panic!("expected a hotkey to set"),
        },
        _ => panic!("expected the hotkey command"),
    }
}
