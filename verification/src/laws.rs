use vstd::prelude::*;

use crate::app_state::{
    window_response, Action, AppView, Response, Shortcuts, WindowEventKind, WindowResponse,
    SETTLE_FRAMES,
};
use crate::args::{invocation_from, Invocation};
use crate::filter::{
    bypass_after, hovered_filter, last_set_bypass, requested_bypass, FilterOp, FilterWindowView,
};
use crate::paths::{display_path, expanded_path, joined_path, trim_leading_slashes};
use crate::save_load::{
    format_of, is_apo, load_error_message, restored_name, start_path, status_message,
    SaveFormat, SaveLoadView,
};
use crate::text::truncated;
use crate::tray::{tool_tip_text, window_label, TrayEvent};

verus! {

/// Setting the bypass switch is read back by `bypass`, and the EQ's flag follows it.
pub proof fn law_bypass_read_back(s: FilterWindowView, bypass: bool, eq_bypassed: bool)
    ensures
        s.with_bypass(bypass, eq_bypassed).bypass == bypass,
{
}

/// Setting the bypass to what the EQ already has schedules no update.
pub proof fn law_bypass_unchanged_schedules_nothing(s: FilterWindowView, bypass: bool)
    ensures
        s.with_bypass(bypass, bypass).sync_all == s.sync_all,
{
}

/// Changing the EQ's bypass always schedules a full update.
pub proof fn law_bypass_change_schedules_update(s: FilterWindowView, bypass: bool, eq_bypassed: bool)
    requires
        bypass != eq_bypassed,
    ensures
        s.with_bypass(bypass, eq_bypassed).sync_all,
{
}

/// Over any sequence of calls, the bypass is the one the last `set_bypass` set (toggles
/// flipping it in between), or the starting one when no call set it.
pub proof fn law_bypass_after_calls(s: FilterWindowView, ops: Seq<FilterOp>)
    ensures
        s.run(ops).bypass == bypass_after(s.bypass, ops),
    decreases ops.len(),
{
    if ops.len() > 0 {
        law_bypass_after_calls(s, ops.drop_last());
    }
}

/// Calls that set the bypass only through `set_bypass` leave the argument of the last one.
proof fn lemma_last_set_decides(start: bool, ops: Seq<FilterOp>)
    requires
        forall|i: int| 0 <= i < ops.len() ==> !(ops[i] is ToggleBypass),
    ensures
        bypass_after(start, ops) == match last_set_bypass(ops) {
            Some(b) => b,
            None => start,
        },
    decreases ops.len(),
{
    if ops.len() > 0 {
        assert(!(ops[ops.len() - 1] is ToggleBypass));
        lemma_last_set_decides(start, ops.drop_last());
    }
}

/// A new window's bypass, after any calls that set it only through `set_bypass`, is the
/// argument of the last such call, or off when there was none.
pub proof fn law_bypass_is_last_set(sample_rate: u32, ops: Seq<FilterOp>)
    requires
        forall|i: int| 0 <= i < ops.len() ==> !(ops[i] is ToggleBypass),
    ensures
        FilterWindowView::initial(sample_rate).run(ops).bypass == match last_set_bypass(ops) {
            Some(b) => b,
            None => false,
        },
{
    law_bypass_after_calls(FilterWindowView::initial(sample_rate), ops);
    lemma_last_set_decides(false, ops);
}

/// Two bypass toggles from the tray undo each other, on the switch and on the EQ's flag,
/// and leave the window as it is.
pub proof fn law_bypass_toggle_twice(app: AppView, f: FilterWindowView, eq_bypassed: bool)
    requires
        f.bypass == eq_bypassed,
    ensures
        app.tray_response(TrayEvent::ToggleBypass) == Response::ToggleBypass,
        app.after_response(Response::ToggleBypass) == app,
        f.step(FilterOp::ToggleBypass { eq_bypassed }).bypass == !eq_bypassed,
        f.step(FilterOp::ToggleBypass { eq_bypassed }).step(
            FilterOp::ToggleBypass { eq_bypassed: !eq_bypassed },
        ).bypass == eq_bypassed,
        f.step(FilterOp::ToggleBypass { eq_bypassed }).step(
            FilterOp::ToggleBypass { eq_bypassed: !eq_bypassed },
        ).sync_all,
{
}

/// The module is loaded once per band count: a second check with the same count asks for
/// no load.
pub proof fn law_module_load_once(s: FilterWindowView, bands: usize)
    ensures
        !s.after_module_check(bands).module_load_needed(bands),
{
}

/// A pending update is sent once: after it is taken, none is pending until something
/// changes again.
pub proof fn law_sync_taken_once(s: FilterWindowView)
    ensures
        !s.after_sync_all().sync_all,
        !s.after_sync_preamp().sync_preamp,
        s.after_filters_changed().sync_all,
        s.after_preamp_changed().sync_preamp,
{
}

/// A loaded config is handed on exactly once.
pub proof fn law_loaded_conf_once<C>(s: SaveLoadView<C>, c: C)
    ensures
        s.after_load(Ok(c)).conf_to_load == Some(c),
        s.after_load(Ok(c)).after_take().conf_to_load.is_none(),
{
}

/// A successful save or load closes the window and clears the error; a failed one keeps
/// the window as it was and shows an error.
pub proof fn law_success_closes_window<C>(s: SaveLoadView<C>, c: C, e: Seq<char>)
    ensures
        !s.after_save(None).show_window,
        s.after_save(None).error.is_none(),
        !s.after_load(Ok(c)).show_window,
        s.after_load(Ok(c)).error.is_none(),
        s.after_save(Some(e)).show_window == s.show_window,
        s.after_save(Some(e)).error == Some(e),
        s.after_load(Err(e)).show_window == s.show_window,
        s.after_load(Err(e)).error is Some,
        s.after_load(Err(e)).conf_to_load == s.conf_to_load,
{
}

/// Editing the path clears a shown error.
pub proof fn law_edit_clears_error<C>(s: SaveLoadView<C>, input: Seq<char>, home: Option<Seq<char>>)
    ensures
        s.after_edit(input, home).error.is_none(),
{
}

/// A path outside the home directory that does not start with `~/` is shown as it is and
/// read back as it is.
pub proof fn law_plain_path_round_trip(p: Seq<char>, home: Option<Seq<char>>)
    requires
        !("~/"@.is_prefix_of(p)),
        match home {
            Some(h) => !h.is_prefix_of(p),
            None => true,
        },
    ensures
        display_path(p, home) == p,
        expanded_path(display_path(p, home), home) == p,
{
}

/// `~/` followed by `x` is read back as `x` joined onto the home directory.
proof fn lemma_tilde(x: Seq<char>, home: Option<Seq<char>>)
    ensures
        expanded_path("~/"@ + x, home) == joined_path(
            match home {
                Some(h) => h,
                None => Seq::<char>::empty(),
            },
            x,
        ),
{
    reveal_strlit("~/");
    assert(("~/"@ + x).subrange(0, 2) =~= "~/"@);
    assert(("~/"@ + x).skip(2) =~= x);
}

/// A path under the home directory `h` is shown as `~/` and the rest, and read back as that
/// rest joined onto `h`; the rest's leading separators are dropped on the way, which names
/// the same path.
pub proof fn law_home_path_round_trip(h: Seq<char>, p: Seq<char>)
    requires
        h.is_prefix_of(p),
    ensures
        expanded_path(display_path(p, Some(h)), Some(h)) == joined_path(
            h,
            trim_leading_slashes(p.skip(h.len() as int)),
        ),
{
    lemma_tilde(trim_leading_slashes(p.skip(h.len() as int)), Some(h));
}

/// A path below a non-empty home directory `h`, by path components, with a relative rest
/// `r` after the separator, is shown and read back as itself; the home directory itself is
/// read back with a trailing separator (the same directory).
pub proof fn law_home_component_round_trip(h: Seq<char>, r: Seq<char>)
    requires
        h.len() > 0,
        !(r.len() > 0 && r[0] == '/'),
    ensures
        h.last() != '/' ==> expanded_path(display_path(h + seq!['/'] + r, Some(h)), Some(h))
            == h + seq!['/'] + r,
        h.last() == '/' ==> expanded_path(display_path(h + r, Some(h)), Some(h)) == h + r,
        h.last() != '/' ==> expanded_path(display_path(h, Some(h)), Some(h)) == h + seq!['/'],
        h.last() == '/' ==> expanded_path(display_path(h, Some(h)), Some(h)) == h,
{
    if h.last() != '/' {
        let p = h + seq!['/'] + r;
        assert(h =~= p.subrange(0, h.len() as int));
        assert(p.skip(h.len() as int) =~= seq!['/'] + r);
        assert((seq!['/'] + r).drop_first() =~= r);
        assert(trim_leading_slashes(p.skip(h.len() as int)) == r) by {
            reveal_with_fuel(trim_leading_slashes, 2);
        }
        law_home_path_round_trip(h, p);
        assert(h =~= h.subrange(0, h.len() as int));
        assert(h.skip(h.len() as int) =~= Seq::<char>::empty());
        law_home_path_round_trip(h, h);
        assert(h + Seq::<char>::empty() =~= h);
        assert(h + seq!['/'] + Seq::<char>::empty() =~= h + seq!['/']);
    } else {
        let p = h + r;
        assert(h =~= p.subrange(0, h.len() as int));
        assert(p.skip(h.len() as int) =~= r);
        law_home_path_round_trip(h, p);
        assert(h =~= h.subrange(0, h.len() as int));
        assert(h.skip(h.len() as int) =~= Seq::<char>::empty());
        law_home_path_round_trip(h, h);
        assert(h + Seq::<char>::empty() =~= h);
    }
}

/// A remembered last saved or loaded path that still exists is the one a new window edits.
pub proof fn law_remembered_path_restored(default_path: Seq<char>, p: Seq<char>)
    ensures
        start_path(default_path, Some(p), true) == p,
        start_path(default_path, Some(p), false) == default_path,
        start_path(default_path, None, true) == default_path,
{
}

/// Truncation keeps at most `max_chars` characters of `s` and, when it cuts, marks the cut
/// with three dots.
pub proof fn law_truncation_bound(s: Seq<char>, max_chars: nat)
    ensures
        truncated(s, max_chars).len() == (if s.len() <= max_chars {
            s.len()
        } else {
            max_chars + 3
        }),
        s.len() <= max_chars ==> truncated(s, max_chars) == s,
        s.len() > max_chars ==> s.take(max_chars as int).is_prefix_of(truncated(s, max_chars)),
{
    if s.len() > max_chars {
        assert(s.take(max_chars as int) =~= truncated(s, max_chars).subrange(0, max_chars as int));
    }
}

/// A running application without a window always has a tray icon to bring it back.
pub proof fn law_hidden_window_has_tray(s: AppView)
    requires
        s.wf(),
        s.initialized,
        !s.exiting,
        !s.window_shown,
    ensures
        s.tray_available,
{
}

/// An action hides the window only when there is a tray icon; otherwise it quits.
pub proof fn law_hide_only_with_tray(s: AppView, action: Action)
    ensures
        s.action_response(action) == Response::HideWindow ==> s.tray_available,
        s.action_response(action) != Response::HideWindow ==> s.action_response(action)
            == Response::Quit,
        s.action_response(Action::Quit) == Response::Quit,
{
}

/// Closing the window or pressing Escape hides it to the tray when there is one, and quits
/// otherwise; quitting from the tray quits.
pub proof fn law_close_hides_to_tray(s: AppView)
    ensures
        window_response(WindowEventKind::CloseRequested) == WindowResponse::Act(
            Action::HideWindow,
        ),
        window_response(WindowEventKind::Keyboard { pressed: true, repeat: false, escape: true })
            == WindowResponse::Act(Action::HideWindow),
        s.tray_available ==> s.action_response(Action::HideWindow) == Response::HideWindow,
        !s.tray_available ==> s.action_response(Action::HideWindow) == Response::Quit,
        s.tray_response(TrayEvent::Quit) == Response::Quit,
{
}

/// The tray's toggle hides a shown window, and shows it again after that.
pub proof fn law_toggle_window_twice(s: AppView)
    requires
        s.window_shown,
    ensures
        s.tray_response(TrayEvent::ToggleWindow) == Response::HideWindow,
        s.after_hide().tray_response(TrayEvent::ToggleWindow) == Response::ShowWindow,
{
}

/// The tray is told about a state once: right after, the same state asks for no update.
pub proof fn law_tray_sync_once(s: AppView, bypass: bool, eq_name: Seq<char>)
    ensures
        !s.after_tray_sync(bypass, eq_name).tray_push_needed(bypass, eq_name),
{
}

/// Arguments that are all `--hidden` start the application hidden exactly when there is at
/// least one.
pub proof fn law_hidden_arguments(args: Seq<String>, from: int, hidden: bool)
    requires
        0 <= from <= args.len(),
        forall|i: int| from <= i < args.len() ==> args[i]@ == "--hidden"@,
    ensures
        invocation_from(args, from, hidden) == (Invocation::Run {
            hidden: hidden || from < args.len(),
        }),
    decreases args.len() - from,
{
    if from < args.len() {
        law_hidden_arguments(args, from + 1, true);
    }
}

/// Only Escape hides the window: any other key press, release or repeat just lets the
/// interface settle, and so does an Escape that is a repeat or a release.
pub proof fn law_only_escape_hides(pressed: bool, repeat: bool)
    ensures
        window_response(WindowEventKind::Keyboard { pressed, repeat, escape: false })
            == WindowResponse::Settle,
        window_response(WindowEventKind::Keyboard { pressed, repeat: true, escape: true })
            == WindowResponse::Settle,
        window_response(WindowEventKind::Keyboard { pressed: false, repeat, escape: true })
            == WindowResponse::Settle,
{
}

/// Every window event gets its answer: a resize resizes the surface exactly when both sides
/// are non-zero; a close hides; a redraw request draws; the window's destruction asks
/// nothing; any other event settles. Only closing and Escape act.
pub proof fn law_window_event_answers(width: u32, height: u32, kind: WindowEventKind)
    ensures
        window_response(WindowEventKind::Resized { width, height }) == (WindowResponse::Resize {
            resize_surface: width != 0 && height != 0,
        }),
        window_response(WindowEventKind::CloseRequested) == WindowResponse::Act(
            Action::HideWindow,
        ),
        window_response(WindowEventKind::RedrawRequested) == WindowResponse::Render,
        window_response(WindowEventKind::Destroyed) == WindowResponse::Ignore,
        window_response(WindowEventKind::Other) == WindowResponse::Settle,
        window_response(kind) is Act ==> window_response(kind) == WindowResponse::Act(
            Action::HideWindow,
        ),
        window_response(kind) is Act ==> (kind == WindowEventKind::CloseRequested || kind == (
        WindowEventKind::Keyboard { pressed: true, repeat: false, escape: true })),
{
}

/// The tray's events: the toggle hides a shown window and shows a hidden one, the bypass
/// entry toggles the bypass, quit quits; only quit starts the shutdown, and no tray event
/// changes the window by itself.
pub proof fn law_tray_event_answers(s: AppView, event: TrayEvent)
    ensures
        s.window_shown ==> s.tray_response(TrayEvent::ToggleWindow) == Response::HideWindow,
        !s.window_shown ==> s.tray_response(TrayEvent::ToggleWindow) == Response::ShowWindow,
        s.tray_response(TrayEvent::ToggleBypass) == Response::ToggleBypass,
        s.tray_response(TrayEvent::Quit) == Response::Quit,
        s.after_response(s.tray_response(event)).exiting == (s.exiting || event
            == TrayEvent::Quit),
        s.after_response(s.tray_response(event)).window_shown == s.window_shown,
        s.after_response(s.tray_response(event)).settle_frames == s.settle_frames,
{
}

/// Ctrl+B flips the checkbox's bypass; without Ctrl+B the requested bypass is the
/// checkbox's state (holding Ctrl for another shortcut changes nothing).
pub proof fn law_ctrl_b_flips_bypass(checked: bool, ctrl: bool, key_b: bool)
    ensures
        !(ctrl && key_b) ==> requested_bypass(checked, ctrl, key_b) == checked,
        ctrl && key_b ==> requested_bypass(checked, ctrl, key_b) == !checked,
        requested_bypass(requested_bypass(checked, ctrl, key_b), ctrl, key_b) == checked,
{
}

/// Ctrl+Q asks to quit whether or not there is a tray; Ctrl+H asks to hide only with a tray
/// and when Q is not pressed too; without Ctrl, or without Q and H, nothing is asked and the
/// state stays as it was.
pub proof fn law_shortcuts(s: AppView, keys: Shortcuts)
    ensures
        keys.ctrl && keys.quit ==> s.after_shortcuts(keys).pending_action == Some(Action::Quit),
        keys.ctrl && !keys.quit && keys.hide && s.tray_available ==> s.after_shortcuts(
            keys,
        ).pending_action == Some(Action::HideWindow),
        !keys.ctrl ==> s.after_shortcuts(keys) == s,
        !keys.quit && !(keys.hide && s.tray_available) ==> s.after_shortcuts(keys) == s,
        s.after_shortcuts(keys).pending_action == Some(Action::HideWindow) ==> s.tray_available
            || s.pending_action == Some(Action::HideWindow),
        (AppView { pending_action: s.after_shortcuts(keys).pending_action, ..s }) == s.after_shortcuts(
            keys,
        ),
{
}

/// `-h` or `--help` reached in order asks for the usage, whether or not `--hidden` came
/// before; any argument other than these and `--hidden` is reported, at its own index.
pub proof fn law_help_and_unknown(args: Seq<String>, from: int, hidden: bool)
    requires
        0 <= from < args.len() <= usize::MAX,
    ensures
        args[from]@ == "-h"@ || args[from]@ == "--help"@ ==> invocation_from(args, from, hidden)
            == Invocation::Help,
        args[from]@ != "-h"@ && args[from]@ != "--help"@ && args[from]@ != "--hidden"@
            ==> invocation_from(args, from, hidden) == (Invocation::Unknown {
            index: from as usize,
        }),
        args[from]@ == "--hidden"@ ==> invocation_from(args, from, hidden) == invocation_from(
            args,
            from + 1,
            true,
        ),
        invocation_from(args, args.len() as int, hidden) == (Invocation::Run { hidden }),
{
    reveal_strlit("-h");
    reveal_strlit("--help");
    reveal_strlit("--hidden");
    assert("-h"@ != "--hidden"@) by {
        assert("-h"@.len() != "--hidden"@.len());
    }
    assert("--help"@ != "--hidden"@) by {
        assert("--help"@.len() != "--hidden"@.len());
    }
}

/// Arguments stop at the first help or unknown one: whatever follows it does not matter.
pub proof fn law_first_stop_decides(args: Seq<String>, more: Seq<String>, from: int, hidden: bool)
    requires
        0 <= from <= args.len(),
        !(invocation_from(args, from, hidden) is Run),
    ensures
        invocation_from(args + more, from, hidden) == invocation_from(args, from, hidden),
    decreases args.len() - from,
{
    if from < args.len() {
        assert((args + more)[from] == args[from]);
        if args[from]@ == "--hidden"@ {
            law_first_stop_decides(args, more, from + 1, true);
        }
    }
}

/// A new filter window needs a module load for every band count (the first EQ is always
/// loaded), shows itself, is not bypassed, has the preamp enabled and nothing pending.
pub proof fn law_new_window_loads_module(sample_rate: u32, bands: usize)
    ensures
        FilterWindowView::initial(sample_rate).module_load_needed(bands),
        FilterWindowView::initial(sample_rate).prev_bands.is_none(),
        FilterWindowView::initial(sample_rate).show_window,
        !FilterWindowView::initial(sample_rate).bypass,
        FilterWindowView::initial(sample_rate).preamp_enable,
        !FilterWindowView::initial(sample_rate).sync_all,
        !FilterWindowView::initial(sample_rate).sync_preamp,
        FilterWindowView::initial(sample_rate).sample_rate == sample_rate,
{
}

/// A module load is needed exactly when the band count differs from the one last loaded,
/// and the check changes nothing else.
pub proof fn law_module_load_needed(s: FilterWindowView, bands: usize, other: usize)
    ensures
        s.prev_bands == Some(bands) ==> !s.module_load_needed(bands),
        s.prev_bands != Some(bands) ==> s.module_load_needed(bands),
        other != bands ==> s.after_module_check(bands).module_load_needed(other),
        s.after_module_check(bands).bypass == s.bypass,
        s.after_module_check(bands).sync_all == s.sync_all,
        s.after_module_check(bands).sync_preamp == s.sync_preamp,
{
}

/// A hovered table row names the filter one above it (the header is row 0); the header and
/// no row name none.
pub proof fn law_hovered_row(row: i32)
    ensures
        row > 0 ==> hovered_filter(row) == Some((row - 1) as usize),
        row <= 0 ==> hovered_filter(row).is_none(),
        hovered_filter(row) matches Some(i) ==> i + 1 == row,
{
}

/// A redraw request owes the larger of the two frame counts when there is a window, and
/// nothing otherwise; the window itself does not change.
pub proof fn law_redraw_request(s: AppView, settle: u8)
    ensures
        s.window_shown ==> s.after_redraw_request(settle).settle_frames >= settle,
        s.window_shown ==> s.after_redraw_request(settle).settle_frames >= s.settle_frames,
        s.window_shown ==> (s.after_redraw_request(settle).settle_frames == settle
            || s.after_redraw_request(settle).settle_frames == s.settle_frames),
        !s.window_shown ==> s.after_redraw_request(settle) == s,
        s.after_redraw_request(settle).window_shown == s.window_shown,
        SETTLE_FRAMES == 2,
{
}

/// The tray is told about every change of what it shows, when there is a tray and a set up
/// application, and never without a tray.
pub proof fn law_tray_told_of_changes(s: AppView, bypass: bool, eq_name: Seq<char>)
    ensures
        s.tray_available && s.initialized && s.tray_state != Some(
            (s.window_shown, bypass, eq_name),
        ) ==> s.tray_push_needed(bypass, eq_name),
        !s.tray_available ==> !s.tray_push_needed(bypass, eq_name),
        s.tray_push_needed(bypass, eq_name) ==> s.after_tray_sync(bypass, eq_name).tray_state
            == Some((s.window_shown, bypass, eq_name)),
{
}

/// The tool tip names a loaded EQ, marks a bypassed one, and says when none is loaded; the
/// show/hide entry offers the opposite of the window's state.
pub proof fn law_tray_texts(eq_name: Seq<char>)
    requires
        eq_name.len() > 0,
    ensures
        tool_tip_text(eq_name, false) == eq_name,
        eq_name.is_prefix_of(tool_tip_text(eq_name, true)),
        tool_tip_text(eq_name, true).len() > eq_name.len(),
        tool_tip_text(Seq::<char>::empty(), false) == "No EQ loaded"@,
        tool_tip_text(Seq::<char>::empty(), true) == "No EQ loaded"@,
        window_label(true) == "Hide"@,
        window_label(false) == "Show"@,
{
    reveal_strlit(" (bypassed)");
    assert(eq_name =~= tool_tip_text(eq_name, true).subrange(0, eq_name.len() as int));
}

/// Only `apo` is the APO extension; a save without an extension has no format, with `apo`
/// writes APO, and with any other extension writes the filter-chain format.
pub proof fn law_save_formats(e: Seq<char>)
    ensures
        is_apo(Some(e)) == (e == "apo"@),
        !is_apo(None),
        format_of(None).is_none(),
        e == "apo"@ ==> format_of(Some(e)) == Some(SaveFormat::Apo),
        e != "apo"@ ==> format_of(Some(e)) == Some(SaveFormat::PwParamEq),
        (format_of(Some(e)) == Some(SaveFormat::Apo)) == is_apo(Some(e)),
{
}

/// A restored config is named after its file, or `config` when the path has no file name.
pub proof fn law_restored_name(n: Seq<char>)
    ensures
        restored_name(Some(n)) == n,
        restored_name(None) == "config"@,
{
}

/// A cut name ends in exactly three dots after the kept characters.
pub proof fn law_truncation_marks_cut(s: Seq<char>, max_chars: nat)
    requires
        s.len() > max_chars,
    ensures
        truncated(s, max_chars).skip(max_chars as int) == seq!['.', '.', '.'],
        truncated(s, max_chars).take(max_chars as int) == s.take(max_chars as int),
{
    assert(truncated(s, max_chars).skip(max_chars as int) =~= seq!['.', '.', '.']);
    assert(truncated(s, max_chars).take(max_chars as int) =~= s.take(max_chars as int));
}

/// The status line shows an error whenever there is one, after a fixed prefix; without an
/// error it depends only on the extension and on whether the file exists, and the three
/// situations read differently.
pub proof fn law_status_lines(e: Seq<char>, valid_ext: bool, exists: bool, other_exists: bool)
    ensures
        e.is_suffix_of(status_message(Some(e), valid_ext, exists)),
        status_message(Some(e), valid_ext, exists) == status_message(Some(e), !valid_ext, other_exists),
        !valid_ext ==> status_message(None, false, exists) == status_message(None, false, other_exists),
        status_message(None, true, true) != status_message(None, true, false),
        status_message(None, false, exists) != status_message(None, true, true),
        status_message(None, false, exists) != status_message(None, true, false),
        e.is_suffix_of(load_error_message(e)),
        load_error_message(e).len() > e.len(),
{
    reveal_strlit("File save error: ");
    reveal_strlit("unable to parse apo file: ");
    reveal_strlit("Invalid extension - must be .apo");
    reveal_strlit("File already exists");
    reveal_strlit("File doesn't exist yet");
    let m = status_message(Some(e), valid_ext, exists);
    assert(e =~= m.subrange(m.len() - e.len(), m.len() as int));
    let l = load_error_message(e);
    assert(e =~= l.subrange(l.len() - e.len(), l.len() as int));
    assert("File already exists"@.len() != "File doesn't exist yet"@.len());
    assert("Invalid extension - must be .apo"@.len() != "File already exists"@.len());
    assert("Invalid extension - must be .apo"@.len() != "File doesn't exist yet"@.len());
}

} // verus!
