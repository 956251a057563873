use pw_eq_imgui::app_state::{sync_pipewire, SyncPlan};
use pw_eq_imgui::filter::{bypass_request, hovered_selection, FilterWindowState};
use pw_eq_imgui::pipewire::{PipewireState, DEFAULT_SAMPLE_RATE, FILTER_CHAIN_MODULE};

#[test]
fn new_window_has_nothing_pending() {
    let mut f = FilterWindowState::new(44100);
    assert!(f.show_window);
    assert!(!f.bypass());
    assert!(f.preamp_enable());
    assert_eq!(f.sample_rate(), 44100);
    assert!(!f.take_sync_all());
    assert!(!f.take_sync_preamp());
}

#[test]
fn bypass_change_schedules_full_update() {
    let mut f = FilterWindowState::new(48000);
    let mut eq_bypassed = false;
    f.set_bypass(true, &mut eq_bypassed);
    assert!(f.bypass());
    assert!(eq_bypassed);
    assert!(f.take_sync_all());
    assert!(!f.take_sync_all());
}

#[test]
fn bypass_unchanged_schedules_nothing() {
    let mut f = FilterWindowState::new(48000);
    let mut eq_bypassed = true;
    f.set_bypass(true, &mut eq_bypassed);
    assert!(f.bypass());
    assert!(!f.take_sync_all());
    let mut eq_bypassed = false;
    f.set_bypass(false, &mut eq_bypassed);
    assert!(!f.bypass());
    assert!(!f.take_sync_all());
}

#[test]
fn module_loaded_once_per_band_count() {
    let mut f = FilterWindowState::new(48000);
    assert!(f.need_module_load(0));
    assert!(!f.need_module_load(0));
    assert!(f.need_module_load(10));
    assert!(!f.need_module_load(10));
    assert!(f.need_module_load(9));
}

#[test]
fn preamp_toggle_follows_checkbox() {
    let mut f = FilterWindowState::new(48000);
    assert!(!f.preamp_enable_toggled(false));
    assert!(!f.preamp_enable());
    assert!(f.take_sync_preamp());
    assert!(f.preamp_enable_toggled(true));
    assert!(f.preamp_enable());
    assert!(f.take_sync_preamp());
    assert!(!f.take_sync_preamp());
}

#[test]
fn preamp_and_filter_changes_are_separate() {
    let mut f = FilterWindowState::new(48000);
    f.preamp_changed();
    assert!(!f.take_sync_all());
    assert!(f.take_sync_preamp());
    f.filters_changed();
    assert!(!f.take_sync_preamp());
    assert!(f.take_sync_all());
}

#[test]
fn sample_rate_follows_graph() {
    let mut f = FilterWindowState::new(48000);
    f.set_sample_rate(96000);
    assert_eq!(f.sample_rate(), 96000);
}

#[test]
fn hovered_rows_skip_header() {
    assert_eq!(hovered_selection(-1), None);
    assert_eq!(hovered_selection(0), None);
    assert_eq!(hovered_selection(1), Some(0));
    assert_eq!(hovered_selection(5), Some(4));
}

#[test]
fn sync_waits_for_a_node() {
    let mut f = FilterWindowState::new(48000);
    f.filters_changed();
    f.preamp_changed();
    let plan = sync_pipewire(&mut f, 3, None);
    assert_eq!(plan, SyncPlan { load_module: true, update_all: None, update_preamp: None });
    let plan = sync_pipewire(&mut f, 3, Some(42));
    assert_eq!(plan, SyncPlan { load_module: false, update_all: Some(42), update_preamp: Some(42) });
    let plan = sync_pipewire(&mut f, 3, Some(42));
    assert_eq!(plan, SyncPlan { load_module: false, update_all: None, update_preamp: None });
}

#[test]
fn module_loaded_takes_pending_update() {
    let mut p = PipewireState::new();
    assert_eq!(p.sample_rate, DEFAULT_SAMPLE_RATE);
    assert_eq!(p.sample_rate, 48000);
    assert_eq!(p.active_node_id, None);
    let mut f = FilterWindowState::new(48000);
    assert!(!p.module_loaded(7, &mut f));
    assert_eq!(p.active_node_id, Some(7));
    f.filters_changed();
    assert!(p.module_loaded(8, &mut f));
    assert_eq!(p.active_node_id, Some(8));
    assert!(!f.take_sync_all());
    assert_eq!(FILTER_CHAIN_MODULE, "libpipewire-module-filter-chain");
}

#[test]
fn toggles_undo_each_other() {
    let mut f = FilterWindowState::new(48000);
    let mut eq_bypassed = false;
    f.toggle_bypass(&mut eq_bypassed);
    assert!(f.bypass());
    assert!(eq_bypassed);
    assert!(f.take_sync_all());
    f.toggle_bypass(&mut eq_bypassed);
    assert!(!f.bypass());
    assert!(!eq_bypassed);
    assert!(f.take_sync_all());
}

#[test]
fn bypass_is_last_set() {
    let mut f = FilterWindowState::new(48000);
    let mut eq_bypassed = false;
    f.set_bypass(true, &mut eq_bypassed);
    f.filters_changed();
    f.need_module_load(4);
    f.set_bypass(false, &mut eq_bypassed);
    f.preamp_changed();
    assert!(!f.bypass());
}

#[test]
fn ctrl_b_flips_requested_bypass() {
    assert!(bypass_request(true, false, false));
    assert!(!bypass_request(true, true, true));
    assert!(bypass_request(false, true, true));
    assert!(!bypass_request(false, true, false));
    assert!(!bypass_request(false, false, true));
}
