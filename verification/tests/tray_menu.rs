use pw_eq_imgui::tray::{MenuEntryKind, Tray, TrayEvent, APP_ID, APP_TITLE, ICON_NAME, QUIT_ICON_NAME};

#[test]
fn new_tray_has_no_eq() {
    let t = Tray::new(true);
    assert!(t.window_shown);
    assert!(!t.bypass);
    assert_eq!(t.eq_name, "");
    assert_eq!(t.tool_tip_description(), "No EQ loaded");
}

#[test]
fn tool_tip_names_the_eq() {
    let mut t = Tray::new(false);
    t.eq_name = "config.apo".to_string();
    assert_eq!(t.tool_tip_description(), "config.apo");
    t.bypass = true;
    assert_eq!(t.tool_tip_description(), "config.apo (bypassed)");
    t.eq_name = String::new();
    assert_eq!(t.tool_tip_description(), "No EQ loaded");
}

#[test]
fn clicks_map_to_events() {
    let t = Tray::new(true);
    assert_eq!(t.activate(), TrayEvent::ToggleWindow);
    assert_eq!(t.secondary_activate(), TrayEvent::ToggleBypass);
}

#[test]
fn menu_entries() {
    let mut t = Tray::new(true);
    t.bypass = true;
    let m = t.menu();
    assert_eq!(m.len(), 4);
    assert_eq!(m[0].kind, MenuEntryKind::Standard);
    assert_eq!(m[0].label, "Hide");
    assert_eq!(m[0].event, Some(TrayEvent::ToggleWindow));
    assert_eq!(m[1].kind, MenuEntryKind::Checkmark);
    assert_eq!(m[1].label, "Bypass");
    assert!(m[1].checked);
    assert_eq!(m[1].event, Some(TrayEvent::ToggleBypass));
    assert_eq!(m[2].kind, MenuEntryKind::Separator);
    assert_eq!(m[2].event, None);
    assert_eq!(m[3].kind, MenuEntryKind::Standard);
    assert_eq!(m[3].label, "Quit");
    assert_eq!(m[3].icon_name, QUIT_ICON_NAME);
    assert_eq!(m[3].event, Some(TrayEvent::Quit));
    let t = Tray::new(false);
    let m = t.menu();
    assert_eq!(m[0].label, "Show");
    assert!(!m[1].checked);
}

#[test]
fn tray_names() {
    assert_eq!(APP_ID, "pw-eq-imgui");
    assert_eq!(APP_TITLE, "PipeWire Equalizer");
    assert_eq!(ICON_NAME, "audio-headphones");
    assert_eq!(QUIT_ICON_NAME, "application-exit");
}
