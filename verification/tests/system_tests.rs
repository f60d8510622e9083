use aether_shell::autostart::AutoStartManager;
use aether_shell::hotkeys::{DispatcherPhase, HotkeyManager};
use aether_shell::router::Action;

#[test]
fn binding_table_is_built_from_returned_ids() {
    // identifiers are opaque OS values: nothing positional about them
    let mut mgr = HotkeyManager::new();
    mgr.setup_hotkeys(948_213, 61);
    assert_eq!(mgr.action_for(948_213), Some(Action::QuickCapture));
    assert_eq!(mgr.action_for(61), Some(Action::ShowWindow));
    assert_eq!(mgr.phase, DispatcherPhase::Registered);
}

#[test]
fn duplicate_identifier_is_refused() {
    let mut mgr = HotkeyManager::new();
    assert!(mgr.register_quick_capture_hotkey(7));
    assert!(!mgr.register_show_window_hotkey(7));
    assert_eq!(mgr.action_for(7), Some(Action::QuickCapture));
    assert_eq!(mgr.bindings.len(), 1);
}

#[test]
fn unknown_identifier_never_breaks_dispatch() {
    let mut mgr = HotkeyManager::new();
    mgr.setup_hotkeys(10, 20);
    mgr.start_listening();
    assert_eq!(mgr.phase, DispatcherPhase::Listening);
    // an event with an unregistered identifier dispatches nothing...
    assert_eq!(mgr.handle_hotkey_event(999, true), None);
    // ...and later valid events still dispatch
    assert_eq!(mgr.handle_hotkey_event(10, true), Some(Action::QuickCapture));
    assert_eq!(mgr.handle_hotkey_event(20, true), Some(Action::ShowWindow));
}

#[test]
fn release_events_are_ignored() {
    let mut mgr = HotkeyManager::new();
    mgr.setup_hotkeys(10, 20);
    mgr.start_listening();
    assert_eq!(mgr.handle_hotkey_event(10, false), None);
    assert_eq!(mgr.handle_hotkey_event(10, true), Some(Action::QuickCapture));
}

#[test]
fn no_dispatch_before_listening() {
    let mut mgr = HotkeyManager::new();
    mgr.setup_hotkeys(10, 20);
    assert_eq!(mgr.handle_hotkey_event(10, true), None);
    mgr.start_listening();
    assert_eq!(mgr.handle_hotkey_event(10, true), Some(Action::QuickCapture));
}

#[test]
fn registration_failure_degrades_only_the_dispatcher() {
    let mut mgr = HotkeyManager::new();
    mgr.registration_failed();
    assert_eq!(mgr.phase, DispatcherPhase::Error);
    assert_eq!(mgr.handle_hotkey_event(1, true), None);
}

#[test]
fn toggle_reports_the_requested_state() {
    // exercised against the real OS launch-agent mechanism
    if let Ok(mgr) = AutoStartManager::new("aether-shell-toggle-test", "/usr/bin/true") {
        if let Ok(enabled) = mgr.toggle_autostart(true) {
            assert!(enabled);
        }
        if let Ok(disabled) = mgr.toggle_autostart(false) {
            assert!(!disabled);
        }
    }
}

#[test]
fn autostart_round_trip_reads_back_what_was_set() {
    let mgr = match AutoStartManager::new("aether-shell-roundtrip-test", "/usr/bin/true") {
        Ok(mgr) => mgr,
        Err(_) => return, // no launcher on this platform: nothing to round-trip
    };
    if mgr.enable_autostart().is_err() {
        return; // OS layer unavailable here; the library surfaced it, nothing crashed
    }
    assert_eq!(mgr.is_enabled().ok(), Some(true));
    assert_eq!(mgr.disable_autostart().ok(), Some(false));
    assert_eq!(mgr.is_enabled().ok(), Some(false));
    // order independence: a second enable after the disable reads back true
    assert!(mgr.enable_autostart().is_ok());
    assert_eq!(mgr.is_enabled().ok(), Some(true));
    let _ = mgr.disable_autostart();
}

#[test]
fn initialize_always_succeeds() {
    if let Ok(mgr) = AutoStartManager::new("aether-shell-init-test", "/usr/bin/true") {
        assert!(mgr.initialize().is_ok());
    }
}
