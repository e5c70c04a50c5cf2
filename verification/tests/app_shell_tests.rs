use openclaw_gui::commands::{
    dashboard_command, gateway_command, tray_action, tray_menu, TrayAction, TrayMenuEntry,
    TRAY_QUIT_ID, TRAY_RESTART_ID, TRAY_SHOW_ID, TRAY_START_ID, TRAY_STOP_ID,
};
use openclaw_gui::lifecycle::{on_close_requested, AppLifecycleState, CloseAction};

#[test]
fn quitting_is_remembered() {
    let mut l = AppLifecycleState::new();
    assert!(!l.is_quitting());
    l.mark_quitting();
    assert!(l.is_quitting());
    l.mark_quitting();
    assert!(l.is_quitting());
    assert!(!AppLifecycleState::default().is_quitting());
}

#[test]
fn main_window_hides_until_quitting() {
    let mut l = AppLifecycleState::new();
    assert_eq!(on_close_requested("main", &l), CloseAction::Hide);
    assert_eq!(on_close_requested("settings", &l), CloseAction::Close);
    l.mark_quitting();
    assert_eq!(on_close_requested("main", &l), CloseAction::Close);
}

#[test]
fn tray_items_map_to_actions() {
    assert_eq!(tray_action(TRAY_SHOW_ID), TrayAction::ShowWindow);
    assert_eq!(tray_action(TRAY_START_ID), TrayAction::StartGateway);
    assert_eq!(tray_action(TRAY_STOP_ID), TrayAction::StopGateway);
    assert_eq!(tray_action(TRAY_RESTART_ID), TrayAction::RestartGateway);
    assert_eq!(tray_action(TRAY_QUIT_ID), TrayAction::Quit);
    assert_eq!(tray_action("tray.other"), TrayAction::Ignore);
}

#[test]
fn tray_menu_layout() {
    let m = tray_menu();
    assert_eq!(m.len(), 7);
    let ids: Vec<Option<&str>> = m
        .iter()
        .map(|e| match e {
            TrayMenuEntry::Item { id, .. } => Some(*id),
            TrayMenuEntry::Separator => None,
        })
        .collect();
    assert_eq!(
        ids,
        vec![Some("tray.show"), None, Some("tray.start"), Some("tray.stop"), Some("tray.restart"), None, Some("tray.quit")]
    );
    match m[0] {
        TrayMenuEntry::Item { label, .. } => assert_eq!(label, "显示主窗口"),
        TrayMenuEntry::Separator => panic!("first entry is an item"),
    }
}

#[test]
fn command_lines_per_platform() {
    let g = gateway_command(false);
    assert_eq!(g.program, "/bin/zsh");
    assert_eq!(g.args[0], "-lc");
    assert!(g.args[1].ends_with("exec openclaw gateway"));
    assert!(g.capture_output);
    let g = gateway_command(true);
    assert_eq!(g.program, "cmd");
    assert_eq!(g.args[0], "/C");
    assert!(g.args[1].ends_with("&& openclaw gateway"));
    let d = dashboard_command(false);
    assert!(d.args[1].ends_with("exec openclaw dashboard"));
    assert!(!d.capture_output);
    let d = dashboard_command(true);
    assert_eq!(d.program, "cmd");
    assert!(d.args[1].ends_with("&& openclaw dashboard"));
}
