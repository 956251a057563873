use pw_eq_imgui::paths::{join_path, path_to_string, str_to_path};
use pw_eq_imgui::save_load::{
    format_for_extension, is_apo_extension, restored_eq_name, SaveFormat, SaveLoadWindowState,
};

fn window(path: &str) -> SaveLoadWindowState<u32> {
    SaveLoadWindowState::new(
        path.to_string(),
        "/home/u/.config/pw-eq-imgui/last-saved".to_string(),
        None,
        false,
    )
}

#[test]
fn home_is_shown_as_tilde() {
    assert_eq!(path_to_string("/home/u/eq/a.apo", Some("/home/u")), "~/eq/a.apo");
    assert_eq!(path_to_string("/home/u//eq/a.apo", Some("/home/u")), "~/eq/a.apo");
    assert_eq!(path_to_string("/home/u", Some("/home/u")), "~/");
}

#[test]
fn other_paths_are_shown_as_they_are() {
    assert_eq!(path_to_string("/etc/a.apo", Some("/home/u")), "/etc/a.apo");
    assert_eq!(path_to_string("/home/u/a.apo", None), "/home/u/a.apo");
}

#[test]
fn home_prefix_is_textual() {
    assert_eq!(path_to_string("/home/user2/a.apo", Some("/home/user")), "~/2/a.apo");
}

#[test]
fn tilde_expands_to_home() {
    assert_eq!(str_to_path("~/eq/a.apo", Some("/home/u")), "/home/u/eq/a.apo");
    assert_eq!(str_to_path("~/eq/a.apo", Some("/home/u/")), "/home/u/eq/a.apo");
    assert_eq!(str_to_path("~/eq/a.apo", None), "eq/a.apo");
    assert_eq!(str_to_path("~//etc/a.apo", Some("/home/u")), "/etc/a.apo");
}

#[test]
fn text_without_tilde_is_the_path() {
    assert_eq!(str_to_path("/etc/a.apo", Some("/home/u")), "/etc/a.apo");
    assert_eq!(str_to_path("~eq.apo", Some("/home/u")), "~eq.apo");
    assert_eq!(str_to_path("", Some("/home/u")), "");
}

#[test]
fn new_window_prefers_existing_remembered_path() {
    let s: SaveLoadWindowState<u32> =
        SaveLoadWindowState::new("/d/config.apo".to_string(), "/d/last".to_string(), Some("/x/mine.apo".to_string()), true);
    assert_eq!(s.path(), "/x/mine.apo");
    assert_eq!(s.last_saved_path(), "/d/last");
    assert!(!s.show_window);
    let s: SaveLoadWindowState<u32> =
        SaveLoadWindowState::new("/d/config.apo".to_string(), "/d/last".to_string(), Some("/x/gone.apo".to_string()), false);
    assert_eq!(s.path(), "/d/config.apo");
    let s: SaveLoadWindowState<u32> =
        SaveLoadWindowState::new("/d/config.apo".to_string(), "/d/last".to_string(), None, true);
    assert_eq!(s.path(), "/d/config.apo");
}

#[test]
fn extension_decides_format() {
    assert!(window("/d/config.apo").has_apo_extension());
    assert_eq!(window("/d/config.apo").save_format(), Some(SaveFormat::Apo));
    assert!(!window("/d/config.conf").has_apo_extension());
    assert_eq!(window("/d/config.conf").save_format(), Some(SaveFormat::PwParamEq));
    assert!(!window("/d/config").has_apo_extension());
    assert_eq!(window("/d/config").save_format(), None);
    assert_eq!(window("/d/.apo").save_format(), None);
    assert_eq!(window("/d/a.APO").save_format(), Some(SaveFormat::PwParamEq));
}

#[test]
fn load_needs_apo_file_that_exists() {
    assert!(window("/d/config.apo").can_load(true));
    assert!(!window("/d/config.apo").can_load(false));
    assert!(!window("/d/config.txt").can_load(true));
}

#[test]
fn file_name_of_path() {
    assert_eq!(window("/d/config.apo").path_filename(), Some("config.apo".to_string()));
    assert_eq!(window("/").path_filename(), None);
    assert_eq!(window("/d/..").path_filename(), None);
}

#[test]
fn status_texts() {
    assert_eq!(window("/d/config.txt").status_text(true), "Invalid extension - must be .apo");
    assert_eq!(window("/d/config.apo").status_text(true), "File already exists");
    assert_eq!(window("/d/config.apo").status_text(false), "File doesn't exist yet");
    let mut s = window("/d/config.apo");
    assert!(!s.save_finished(Some("permission denied".to_string())));
    assert_eq!(s.status_text(true), "File save error: permission denied");
}

#[test]
fn successful_save_closes_window() {
    let mut s = window("/d/config.apo");
    s.show_window = true;
    assert!(!s.save_finished(Some("disk full".to_string())));
    assert!(s.show_window);
    assert_eq!(s.error().map(|e| e.as_str()), Some("disk full"));
    assert!(s.save_finished(None));
    assert!(!s.show_window);
    assert_eq!(s.error(), None);
}

#[test]
fn load_error_is_prefixed() {
    let mut s = window("/d/config.apo");
    s.show_window = true;
    assert!(!s.load_finished(Err("bad line 3".to_string())));
    assert!(s.show_window);
    assert_eq!(s.status_text(true), "File save error: unable to parse apo file: bad line 3");
    assert_eq!(s.loaded_conf(), None);
}

#[test]
fn loaded_conf_is_handed_on_once() {
    let mut s = window("/d/config.apo");
    s.show_window = true;
    assert!(s.load_finished(Ok(17)));
    assert!(!s.show_window);
    assert_eq!(s.error(), None);
    assert_eq!(s.loaded_conf(), Some(17));
    assert_eq!(s.loaded_conf(), None);
}

#[test]
fn editing_path_clears_error() {
    let mut s = window("/d/config.apo");
    assert!(!s.load_finished(Err("oops".to_string())));
    assert!(s.error().is_some());
    s.set_path_input("~/eq.apo", Some("/home/u"));
    assert_eq!(s.path(), "/home/u/eq.apo");
    assert_eq!(s.error(), None);
    assert_eq!(s.display_path(Some("/home/u")), "~/eq.apo");
    assert_eq!(s.display_path(None), "/home/u/eq.apo");
}

#[test]
fn extension_rules() {
    assert!(is_apo_extension(Some("apo")));
    assert!(!is_apo_extension(Some("conf")));
    assert!(!is_apo_extension(Some("")));
    assert!(!is_apo_extension(None));
    assert_eq!(format_for_extension(Some("apo")), Some(SaveFormat::Apo));
    assert_eq!(format_for_extension(Some("conf")), Some(SaveFormat::PwParamEq));
    assert_eq!(format_for_extension(Some("txt")), Some(SaveFormat::PwParamEq));
    assert_eq!(format_for_extension(None), None);
}

#[test]
fn join_rules() {
    assert_eq!(join_path("/home/u", "eq"), "/home/u/eq");
    assert_eq!(join_path("/home/u/", "eq"), "/home/u/eq");
    assert_eq!(join_path("", "eq"), "eq");
    assert_eq!(join_path("/home/u", "/etc"), "/etc");
    assert_eq!(join_path("/home/u", ""), "/home/u/");
    assert_eq!(join_path("/", "x"), "/x");
    for (base, rest) in [("/home/u", "eq/a.apo"), ("/home/u/", "a"), ("", "a/b"), ("/a", "/b"), ("a", "")] {
        let expected = std::path::Path::new(base).join(rest);
        assert_eq!(std::path::Path::new(&join_path(base, rest)), expected.as_path());
        assert_eq!(join_path(base, rest), expected.to_str().unwrap());
    }
}

#[test]
fn home_round_trip() {
    let home = Some("/home/u");
    for p in ["/home/u/eq/a.apo", "/home/u/x", "/etc/a.apo", "/home/u/"] {
        assert_eq!(str_to_path(&path_to_string(p, home), home), p);
    }
    assert_eq!(str_to_path(&path_to_string("/home/u", home), home), "/home/u/");
    assert_eq!(str_to_path(&path_to_string("/home/u//x", home), home), "/home/u/x");
}

#[test]
fn successful_load_is_remembered() {
    let mut s = window("/d/config.apo");
    assert!(s.load_finished(Ok(3)));
    let remembered = s.path().clone();
    let restored: SaveLoadWindowState<u32> =
        SaveLoadWindowState::new("/d/default.apo".to_string(), "/d/last".to_string(), Some(remembered), true);
    assert_eq!(restored.path(), "/d/config.apo");
    assert!(restored.can_load(true));
}

#[test]
fn restored_name_falls_back_to_config() {
    assert_eq!(restored_eq_name(Some("mine.apo".to_string())), "mine.apo");
    assert_eq!(restored_eq_name(None), "config");
}
