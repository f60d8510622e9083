use aether_shell::router::{Action, ActionRouter, NavTarget};
use aether_shell::tray::{TrayInteraction, TrayManager};
use aether_shell::windows::{VisOutcome, WindowRegistry};

#[test]
fn main_starts_hidden_quick_capture_absent() {
    let reg = WindowRegistry::new();
    assert!(!reg.main.visible);
    assert!(!reg.main.focused);
    assert!(reg.quick_capture.is_none());
}

#[test]
fn ensure_visible_shows_main() {
    let mut reg = WindowRegistry::new();
    let v = reg.ensure_visible("main");
    assert_eq!(v, VisOutcome::Shown);
    assert!(reg.main.visible && reg.main.focused && !reg.main.minimized);
}

#[test]
fn ensure_visible_idempotent_on_visible_window() {
    let mut reg = WindowRegistry::new();
    reg.ensure_visible("main");
    let before = reg.main;
    let v = reg.ensure_visible("main");
    assert_eq!(v, VisOutcome::Shown);
    assert_eq!(reg.main, before);
}

#[test]
fn hide_idempotent_on_hidden_window() {
    let mut reg = WindowRegistry::new();
    let before = reg.main;
    reg.hide_window("main");
    assert_eq!(reg.main, before);
    assert!(reg.quick_capture.is_none());
}

#[test]
fn hide_then_show_round_trip() {
    let mut reg = WindowRegistry::new();
    reg.ensure_visible("main");
    reg.hide_window("main");
    assert!(!reg.main.visible);
    assert!(!reg.main.focused);
    let v = reg.ensure_visible("main");
    assert_eq!(v, VisOutcome::Shown);
    assert!(reg.main.visible);
}

#[test]
fn unknown_label_is_reported_not_fatal() {
    let mut reg = WindowRegistry::new();
    let v = reg.ensure_visible("scratchpad");
    assert_eq!(v, VisOutcome::UnknownLabel);
    assert!(reg.quick_capture.is_none());
    reg.hide_window("scratchpad");
    assert!(!reg.main.visible);
}

#[test]
fn quick_capture_singleton_across_repeated_requests() {
    let mut reg = WindowRegistry::new();
    let v = reg.ensure_visible("quick-capture");
    assert_eq!(v, VisOutcome::NeedsBuild);
    assert!(reg.quick_capture.is_none());
    reg.window_created(true);
    assert!(reg.quick_capture.is_some());
    // from now on, no call ever plans a second construction
    for _ in 0..3 {
        let v = reg.ensure_visible("quick-capture");
        assert_eq!(v, VisOutcome::Shown);
        assert!(reg.quick_capture.is_some());
    }
    reg.hide_window("quick-capture");
    assert!(reg.quick_capture.is_some());
}

#[test]
fn failed_construction_leaves_no_partial_handle() {
    let mut reg = WindowRegistry::new();
    assert_eq!(reg.ensure_visible("quick-capture"), VisOutcome::NeedsBuild);
    reg.window_created(false);
    assert!(reg.quick_capture.is_none());
    // the next request asks for construction again
    assert_eq!(reg.ensure_visible("quick-capture"), VisOutcome::NeedsBuild);
}

#[test]
fn close_request_becomes_hide_and_is_suppressed() {
    let mut reg = WindowRegistry::new();
    reg.ensure_visible("main");
    let prevent = reg.request_close("main");
    assert!(prevent);
    assert!(!reg.main.visible);
}

#[test]
fn tray_clicks_show_main() {
    assert_eq!(
        TrayManager::handle_tray_event(&TrayInteraction::LeftClick),
        Some(Action::ShowWindow)
    );
    assert_eq!(
        TrayManager::handle_tray_event(&TrayInteraction::DoubleClick),
        Some(Action::ShowWindow)
    );
    assert_eq!(TrayManager::handle_tray_event(&TrayInteraction::RightClick), None);
}

#[test]
fn tray_menu_table_is_fixed() {
    assert_eq!(TrayManager::handle_menu_item_click("show"), Some(Action::ShowWindow));
    assert_eq!(TrayManager::handle_menu_item_click("capture"), Some(Action::QuickCapture));
    assert_eq!(TrayManager::handle_menu_item_click("dashboard"), Some(Action::Dashboard));
    assert_eq!(TrayManager::handle_menu_item_click("settings"), Some(Action::Settings));
    assert_eq!(TrayManager::handle_menu_item_click("quit"), Some(Action::Quit));
    assert_eq!(TrayManager::handle_menu_item_click("help"), None);
    assert_eq!(TrayManager::handle_menu_item_click(""), None);
}

#[test]
fn tray_menu_event_routes_through_table() {
    let event = TrayInteraction::MenuItemClick("capture".to_string());
    assert_eq!(TrayManager::handle_tray_event(&event), Some(Action::QuickCapture));
    let unknown = TrayInteraction::MenuItemClick("nonsense".to_string());
    assert_eq!(TrayManager::handle_tray_event(&unknown), None);
}

#[test]
fn dispatch_show_window_touches_main() {
    let mut router = ActionRouter::new();
    let d = router.dispatch(Action::ShowWindow);
    assert_eq!(d.window, Some(VisOutcome::Shown));
    assert_eq!(d.navigate, None);
    assert!(!d.quit);
    assert!(router.windows.main.visible);
}

#[test]
fn dispatch_navigation_only_with_visible_main() {
    let mut router = ActionRouter::new();
    let d = router.dispatch(Action::Dashboard);
    assert_eq!(d.navigate, Some(NavTarget::Dashboard));
    assert!(router.windows.main.visible);
    let d = router.dispatch(Action::Settings);
    assert_eq!(d.navigate, Some(NavTarget::Settings));
    assert!(router.windows.main.visible);
}

#[test]
fn quit_latches_and_stops_all_dispatch() {
    let mut router = ActionRouter::new();
    let quit_event = TrayManager::handle_menu_item_click("quit").unwrap();
    let d = router.dispatch(quit_event);
    assert!(d.quit);
    assert!(router.quitting);
    // no further event dispatch occurs afterwards
    for action in [Action::ShowWindow, Action::QuickCapture, Action::Quit] {
        let after = router.dispatch(action);
        assert_eq!(after.window, None);
        assert_eq!(after.navigate, None);
        assert!(!after.quit);
        assert!(!router.windows.main.visible);
    }
}
