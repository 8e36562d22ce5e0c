use aimx::config::{CloseAction, Config};
use aimx::ipc::ChildProcessHandle;
use aimx::panel::{Command, DialogChoice, Lifecycle, PanelAction, PanelApp, Polled};
use aimx::platform::JobObject;
use aimx::tray::{TrayController, TrayFlags, TraySignal};

const OVERLAY: ChildProcessHandle = ChildProcessHandle { pid: 4242 };

fn panel(close_action: CloseAction) -> PanelApp {
    PanelApp::new(Config { close_action, ..Config::default() }, None, Some(OVERLAY))
}

fn minimized_panel() -> (PanelApp, TrayFlags) {
    let mut app = panel(CloseAction::Minimize);
    let mut flags = TrayFlags::new();
    app.close_requested(&mut flags);
    assert_eq!(app.lifecycle, Lifecycle::Minimized);
    (app, flags)
}

#[test]
fn new_panel_is_running_and_has_sent_nothing() {
    let job = Some(JobObject { handle: 5 });
    let app = PanelApp::new(Config::default(), job, Some(OVERLAY));
    assert_eq!(app.lifecycle, Lifecycle::Running);
    assert_eq!(app.config, Config::default());
    assert_eq!(app.prev_config, None);
    assert_eq!(app.child, Some(OVERLAY));
    assert_eq!(app.job, job);
    assert!(!app.remember_choice);
    assert_eq!(app.tray, TrayController { active: false, poller_started: false });
    assert!(app.overlay_alive());
    assert!(!app.show_close_dialog());
    assert!(!app.minimized());
}

#[test]
fn panel_without_overlay_reports_none_alive() {
    let app = PanelApp::new(Config::default(), None, None);
    assert!(!app.overlay_alive());
}

#[test]
fn clicks_become_one_action() {
    assert_eq!(PanelAction::from_clicks(true, false, false, false), PanelAction::Idle);
    assert_eq!(PanelAction::from_clicks(true, true, false, false), PanelAction::HideOverlay);
    assert_eq!(PanelAction::from_clicks(false, true, false, false), PanelAction::ShowOverlay);
    assert_eq!(PanelAction::from_clicks(false, false, true, false), PanelAction::Save);
    assert_eq!(PanelAction::from_clicks(false, true, true, false), PanelAction::Save);
    assert_eq!(PanelAction::from_clicks(false, false, false, true), PanelAction::Reset);
    assert_eq!(PanelAction::from_clicks(true, true, true, true), PanelAction::Reset);
}

#[test]
fn close_with_quit_policy_goes_ahead() {
    let mut app = panel(CloseAction::Quit);
    let mut flags = TrayFlags::new();
    assert_eq!(app.close_requested(&mut flags), vec![]);
    assert_eq!(app.lifecycle, Lifecycle::Closing);
}

#[test]
fn close_with_ask_policy_opens_the_dialog() {
    let mut app = panel(CloseAction::Ask);
    let mut flags = TrayFlags::new();
    assert_eq!(app.close_requested(&mut flags), vec![Command::CancelClose]);
    assert_eq!(app.lifecycle, Lifecycle::ClosePending);
    assert!(app.show_close_dialog());
    // asked again while the dialog is open: refused again, dialog stays
    assert_eq!(app.close_requested(&mut flags), vec![Command::CancelClose]);
    assert_eq!(app.lifecycle, Lifecycle::ClosePending);
}

#[test]
fn close_with_minimize_policy_goes_to_tray() {
    let mut app = panel(CloseAction::Minimize);
    let mut flags = TrayFlags { restore_requested: true, quit_requested: true };
    assert_eq!(
        app.close_requested(&mut flags),
        vec![
            Command::CancelClose,
            Command::CreateTrayIcon,
            Command::SpawnTrayPoller,
            Command::HideWindow,
        ]
    );
    assert_eq!(app.lifecycle, Lifecycle::Minimized);
    assert!(app.minimized());
    assert_eq!(app.tray, TrayController { active: true, poller_started: true });
    assert_eq!(flags, TrayFlags::new());
}

#[test]
fn dialog_quit_closes_without_remembering() {
    let mut app = panel(CloseAction::Ask);
    let mut flags = TrayFlags::new();
    app.close_requested(&mut flags);
    assert_eq!(app.close_dialog(false, Some(DialogChoice::Quit), &mut flags), vec![Command::Close]);
    assert_eq!(app.lifecycle, Lifecycle::Closing);
    assert_eq!(app.config.close_action, CloseAction::Ask);
    assert!(!app.remember_choice);
    // the close that follows is let through
    assert_eq!(app.close_requested(&mut flags), vec![]);
    assert_eq!(app.lifecycle, Lifecycle::Closing);
}

#[test]
fn dialog_quit_remembered_becomes_the_policy_and_is_saved() {
    let mut app = panel(CloseAction::Ask);
    let mut flags = TrayFlags::new();
    app.close_requested(&mut flags);
    assert_eq!(
        app.close_dialog(true, Some(DialogChoice::Quit), &mut flags),
        vec![Command::SaveConfig, Command::Close]
    );
    assert_eq!(app.config.close_action, CloseAction::Quit);
    assert!(app.remember_choice);
    assert_eq!(app.lifecycle, Lifecycle::Closing);
}

#[test]
fn dialog_minimize_goes_to_tray() {
    let mut app = panel(CloseAction::Ask);
    let mut flags = TrayFlags::new();
    app.close_requested(&mut flags);
    assert_eq!(
        app.close_dialog(false, Some(DialogChoice::Minimize), &mut flags),
        vec![Command::CreateTrayIcon, Command::SpawnTrayPoller, Command::HideWindow]
    );
    assert_eq!(app.lifecycle, Lifecycle::Minimized);
    assert_eq!(app.config.close_action, CloseAction::Ask);
}

#[test]
fn dialog_minimize_remembered_becomes_the_policy_and_is_saved() {
    let mut app = panel(CloseAction::Ask);
    let mut flags = TrayFlags::new();
    app.close_requested(&mut flags);
    assert_eq!(
        app.close_dialog(true, Some(DialogChoice::Minimize), &mut flags),
        vec![
            Command::SaveConfig,
            Command::CreateTrayIcon,
            Command::SpawnTrayPoller,
            Command::HideWindow,
        ]
    );
    assert_eq!(app.lifecycle, Lifecycle::Minimized);
    assert_eq!(app.config.close_action, CloseAction::Minimize);
}

#[test]
fn dialog_without_answer_keeps_waiting_and_keeps_the_checkbox() {
    let mut app = panel(CloseAction::Ask);
    let mut flags = TrayFlags::new();
    app.close_requested(&mut flags);
    assert_eq!(app.close_dialog(true, None, &mut flags), vec![]);
    assert_eq!(app.lifecycle, Lifecycle::ClosePending);
    assert!(app.remember_choice);
    assert_eq!(app.config.close_action, CloseAction::Ask);
}

#[test]
fn dialog_answer_without_open_dialog_changes_nothing() {
    let mut app = panel(CloseAction::Ask);
    let mut flags = TrayFlags::new();
    let before = PanelApp::new(app.config, None, Some(OVERLAY));
    assert_eq!(app.close_dialog(true, Some(DialogChoice::Quit), &mut flags), vec![]);
    assert_eq!(app, before);
}

#[test]
fn running_panel_ignores_tray_flags() {
    let mut app = panel(CloseAction::Ask);
    let mut flags = TrayFlags { restore_requested: true, quit_requested: true };
    assert_eq!(app.poll_tray(&mut flags), Polled { commands: vec![], draw: true });
    assert_eq!(app.lifecycle, Lifecycle::Running);
    assert_eq!(flags, TrayFlags { restore_requested: true, quit_requested: true });
}

#[test]
fn minimized_panel_waits_without_requests() {
    let (mut app, mut flags) = minimized_panel();
    assert_eq!(app.poll_tray(&mut flags), Polled { commands: vec![], draw: false });
    assert_eq!(app.lifecycle, Lifecycle::Minimized);
}

#[test]
fn two_restore_requests_restore_once() {
    let (mut app, mut flags) = minimized_panel();
    assert!(flags.on_menu_event("show"));
    assert!(flags.on_menu_event("show"));
    let first = app.poll_tray(&mut flags);
    assert_eq!(
        first,
        Polled {
            commands: vec![Command::DestroyTrayIcon, Command::ShowWindow, Command::FocusWindow],
            draw: false,
        }
    );
    assert_eq!(app.lifecycle, Lifecycle::Running);
    assert_eq!(app.tray, TrayController { active: false, poller_started: true });
    assert_eq!(flags, TrayFlags::new());
    let second = app.poll_tray(&mut flags);
    assert_eq!(second, Polled { commands: vec![], draw: true });
    assert_eq!(app.lifecycle, Lifecycle::Running);
}

#[test]
fn tray_quit_restores_then_closes_whatever_the_policy() {
    let (mut app, mut flags) = minimized_panel();
    flags.raise(TraySignal::Restore);
    flags.raise(TraySignal::Quit);
    assert_eq!(
        app.poll_tray(&mut flags),
        Polled {
            commands: vec![
                Command::DestroyTrayIcon,
                Command::ShowWindow,
                Command::FocusWindow,
                Command::Close,
            ],
            draw: false,
        }
    );
    assert_eq!(app.lifecycle, Lifecycle::Closing);
    assert_eq!(app.config.close_action, CloseAction::Minimize);
    assert_eq!(flags, TrayFlags::new());
    assert!(!app.tray.active);
    // the close that follows is let through in spite of the minimize policy
    assert_eq!(app.poll_tray(&mut flags), Polled { commands: vec![], draw: true });
    assert_eq!(app.close_requested(&mut flags), vec![]);
    assert_eq!(app.lifecycle, Lifecycle::Closing);
}

#[test]
fn second_minimize_does_not_start_another_poller() {
    let (mut app, mut flags) = minimized_panel();
    flags.raise(TraySignal::Restore);
    app.poll_tray(&mut flags);
    assert_eq!(
        app.close_requested(&mut flags),
        vec![Command::CancelClose, Command::CreateTrayIcon, Command::HideWindow]
    );
    assert_eq!(app.lifecycle, Lifecycle::Minimized);
}

#[test]
fn minimize_and_restore_are_available_directly() {
    let mut app = panel(CloseAction::Ask);
    let mut flags = TrayFlags { restore_requested: true, quit_requested: false };
    assert_eq!(
        app.minimize_to_tray(&mut flags),
        vec![Command::CreateTrayIcon, Command::SpawnTrayPoller, Command::HideWindow]
    );
    assert_eq!(flags, TrayFlags::new());
    assert!(app.minimized());
    flags.raise(TraySignal::Quit);
    assert_eq!(
        app.restore_from_tray(&mut flags),
        vec![Command::DestroyTrayIcon, Command::ShowWindow, Command::FocusWindow]
    );
    assert_eq!(flags, TrayFlags::new());
    assert_eq!(app.lifecycle, Lifecycle::Running);
}

#[test]
fn close_request_while_minimized_is_not_examined() {
    let (mut app, mut flags) = minimized_panel();
    assert_eq!(app.close_requested(&mut flags), vec![]);
    assert_eq!(app.lifecycle, Lifecycle::Minimized);
}

#[test]
fn panel_actions_are_carried_out() {
    let mut app = panel(CloseAction::Quit);
    app.set_config(Config { offset_x: 9_000, ..app.config });
    assert_eq!(app.panel_action(PanelAction::Idle), vec![]);
    assert_eq!(app.panel_action(PanelAction::Save), vec![Command::SaveConfig]);
    assert_eq!(app.config.offset_x, 9_000);
    assert_eq!(app.panel_action(PanelAction::Reset), vec![]);
    assert_eq!(app.config, Config::default());
    assert_eq!(app.lifecycle, Lifecycle::Running);
}

#[test]
fn hide_overlay_kills_the_supervised_process() {
    let mut app = panel(CloseAction::Ask);
    assert_eq!(app.panel_action(PanelAction::HideOverlay), vec![Command::KillOverlay(OVERLAY)]);
    assert!(!app.overlay_alive());
    assert_eq!(app.panel_action(PanelAction::HideOverlay), vec![]);
}

#[test]
fn show_overlay_spawns_only_when_none_runs() {
    let mut app = panel(CloseAction::Ask);
    assert_eq!(app.panel_action(PanelAction::ShowOverlay), vec![]);
    app.panel_action(PanelAction::HideOverlay);
    assert_eq!(app.panel_action(PanelAction::ShowOverlay), vec![Command::SpawnOverlay]);
    assert!(!app.overlay_alive());
    app.overlay_spawned(Some(ChildProcessHandle { pid: 77 }));
    assert_eq!(app.child, Some(ChildProcessHandle { pid: 77 }));
}

#[test]
fn failed_spawn_leaves_show_overlay_available() {
    let mut app = PanelApp::new(Config::default(), None, None);
    assert_eq!(app.panel_action(PanelAction::ShowOverlay), vec![Command::SpawnOverlay]);
    app.overlay_spawned(None);
    assert!(!app.overlay_alive());
    assert_eq!(app.panel_action(PanelAction::ShowOverlay), vec![Command::SpawnOverlay]);
}

#[test]
fn identical_config_is_sent_once_per_frame_sequence() {
    let mut app = panel(CloseAction::Ask);
    let mut writes = 0;
    for _frame in 0..60 {
        if app.send_config(b"{\"offset_x\":0.0}").is_some() {
            writes += 1;
        }
    }
    assert_eq!(writes, 1);
    assert_eq!(app.prev_config, Some(b"{\"offset_x\":0.0}".to_vec()));
    assert_eq!(app.send_config(b"{\"offset_x\":1.0}"), Some(b"{\"offset_x\":1.0}\n".to_vec()));
}

#[test]
fn new_overlay_is_sent_the_unchanged_config() {
    let mut app = panel(CloseAction::Ask);
    assert!(app.send_config(b"{}").is_some());
    app.panel_action(PanelAction::HideOverlay);
    assert_eq!(app.send_config(b"{}"), None);
    app.panel_action(PanelAction::ShowOverlay);
    app.overlay_spawned(Some(ChildProcessHandle { pid: 78 }));
    assert_eq!(app.prev_config, None);
    assert_eq!(app.send_config(b"{}"), Some(b"{}\n".to_vec()));
    assert_eq!(app.send_config(b"{}"), None);
}

#[test]
fn failed_write_means_no_overlay_runs() {
    let mut app = panel(CloseAction::Ask);
    assert!(app.send_config(b"{}").is_some());
    app.write_finished(true);
    assert!(app.overlay_alive());
    assert!(app.send_config(b"{\"a\":1}").is_some());
    app.write_finished(false);
    assert!(!app.overlay_alive());
    assert_eq!(app.send_config(b"{\"a\":2}"), None);
    assert_eq!(PanelAction::from_clicks(app.overlay_alive(), true, false, false), PanelAction::ShowOverlay);
}

#[test]
fn exit_kills_the_overlay() {
    let mut app = panel(CloseAction::Quit);
    let mut flags = TrayFlags::new();
    app.close_requested(&mut flags);
    assert_eq!(app.on_exit(), vec![Command::KillOverlay(OVERLAY)]);
    assert!(!app.overlay_alive());
    assert_eq!(app.on_exit(), vec![]);
}

#[test]
fn exit_without_overlay_kills_nothing() {
    let mut app = PanelApp::new(Config::default(), None, None);
    assert_eq!(app.on_exit(), vec![]);
}

#[test]
fn frame_with_two_restore_requests_restores_once() {
    let (mut app, mut flags) = minimized_panel();
    flags.raise(TraySignal::Restore);
    flags.raise(TraySignal::Restore);
    assert_eq!(flags, TrayFlags { restore_requested: true, quit_requested: false });
    let first = app.update(&mut flags, false);
    assert_eq!(
        first,
        Polled {
            commands: vec![Command::DestroyTrayIcon, Command::ShowWindow, Command::FocusWindow],
            draw: false,
        }
    );
    assert!(!app.minimized());
    assert_eq!(app.lifecycle, Lifecycle::Running);
    assert!(!app.tray.active);
    assert_eq!(flags, TrayFlags { restore_requested: false, quit_requested: false });
    let second = app.update(&mut flags, false);
    assert_eq!(second, Polled { commands: vec![], draw: true });
    assert_eq!(app.lifecycle, Lifecycle::Running);
}

#[test]
fn frame_decides_a_close_request_of_the_open_window() {
    let mut app = panel(CloseAction::Ask);
    let mut flags = TrayFlags::new();
    assert_eq!(app.update(&mut flags, false), Polled { commands: vec![], draw: true });
    assert_eq!(app.lifecycle, Lifecycle::Running);
    assert_eq!(
        app.update(&mut flags, true),
        Polled { commands: vec![Command::CancelClose], draw: true }
    );
    assert_eq!(app.lifecycle, Lifecycle::ClosePending);

    let mut app = panel(CloseAction::Minimize);
    assert_eq!(
        app.update(&mut flags, true),
        Polled {
            commands: vec![
                Command::CancelClose,
                Command::CreateTrayIcon,
                Command::SpawnTrayPoller,
                Command::HideWindow,
            ],
            draw: true,
        }
    );
    assert_eq!(app.lifecycle, Lifecycle::Minimized);

    let mut app = panel(CloseAction::Quit);
    assert_eq!(app.update(&mut flags, true), Polled { commands: vec![], draw: true });
    assert_eq!(app.lifecycle, Lifecycle::Closing);
}

#[test]
fn frame_that_begins_minimized_ends_with_the_tray() {
    let (mut app, mut flags) = minimized_panel();
    assert_eq!(app.update(&mut flags, true), Polled { commands: vec![], draw: false });
    assert_eq!(app.lifecycle, Lifecycle::Minimized);
    flags.raise(TraySignal::Quit);
    assert_eq!(
        app.update(&mut flags, true),
        Polled {
            commands: vec![
                Command::DestroyTrayIcon,
                Command::ShowWindow,
                Command::FocusWindow,
                Command::Close,
            ],
            draw: false,
        }
    );
    assert_eq!(app.lifecycle, Lifecycle::Closing);
    assert_eq!(app.update(&mut flags, true), Polled { commands: vec![], draw: true });
    assert_eq!(app.lifecycle, Lifecycle::Closing);
}
