use pw_eq_imgui::args::{parse_args, Invocation, USAGE, USAGE_EXIT_CODE};
use pw_eq_imgui::text::truncate_string;

fn args(v: &[&str]) -> Vec<String> {
    v.iter().map(|s| s.to_string()).collect()
}

#[test]
fn truncate_short_name_is_unchanged() {
    assert_eq!(truncate_string("flat", 16), "flat");
    assert_eq!(truncate_string("", 0), "");
}

#[test]
fn truncate_exact_length_is_unchanged() {
    assert_eq!(truncate_string("0123456789abcdef", 16), "0123456789abcdef");
}

#[test]
fn truncate_long_name_gets_dots() {
    assert_eq!(truncate_string("Sennheiser HD 600 (oratory1990)", 16), "Sennheiser HD 60...");
    assert_eq!(truncate_string("abc", 0), "...");
}

#[test]
fn truncate_counts_characters_not_bytes() {
    assert_eq!(truncate_string("héllo wörld", 5), "héllo...");
    assert_eq!(truncate_string("ääää", 4), "ääää");
}

#[test]
fn args_empty_runs_shown() {
    assert_eq!(parse_args(&args(&[])), Invocation::Run { hidden: false });
}

#[test]
fn args_hidden_runs_hidden() {
    assert_eq!(parse_args(&args(&["--hidden"])), Invocation::Run { hidden: true });
    assert_eq!(parse_args(&args(&["--hidden", "--hidden"])), Invocation::Run { hidden: true });
}

#[test]
fn args_help_stops() {
    assert_eq!(parse_args(&args(&["-h"])), Invocation::Help);
    assert_eq!(parse_args(&args(&["--hidden", "--help", "--bogus"])), Invocation::Help);
}

#[test]
fn args_unknown_reports_its_index() {
    assert_eq!(parse_args(&args(&["--bogus"])), Invocation::Unknown { index: 0 });
    assert_eq!(parse_args(&args(&["--hidden", "x", "--help"])), Invocation::Unknown { index: 1 });
    assert_eq!(USAGE_EXIT_CODE, 2);
    assert!(USAGE.starts_with("usage: pw-eq-imgui [--hidden]"));
}
