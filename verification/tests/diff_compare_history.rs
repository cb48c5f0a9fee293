use kyde::diff::{hunk_rows, join_lines_bytes};
use kyde::local_history::{clamp_ms, lh_open_event_kind, parse_tz_offset};
use kyde::model::{Effect, EventKind, FileDiffModel, HunkRange, Kyde, ModalKind, SnapshotLabel};
use kyde::names::path_from_bytes;
use kyde::path::FsPath;

fn p(s: &str) -> FsPath {
    path_from_bytes(&s.as_bytes().to_vec())
}

fn show(x: &FsPath) -> String {
    let parts: Vec<String> = x.parts.iter().map(|b| String::from_utf8(b.clone()).unwrap()).collect();
    let body = parts.join("/");
    if x.absolute {
        format!("/{body}")
    } else {
        body
    }
}

fn lines(v: &[&str]) -> Vec<Vec<u8>> {
    v.iter().map(|s| s.as_bytes().to_vec()).collect()
}

fn hunk(os: usize, oe: usize, ns: usize, ne: usize) -> HunkRange {
    HunkRange { old_start: os, old_end: oe, new_start: ns, new_end: ne }
}

fn sample_diff() -> FileDiffModel {
    // base: a b c d e ; working: a B c d E2 e
    FileDiffModel {
        old: lines(&["a", "b", "c", "d", "e"]),
        new: lines(&["a", "B", "c", "d", "E2", "e"]),
        hunks: vec![hunk(1, 2, 1, 2), hunk(4, 4, 4, 5)],
        row_starts_hunk: vec![false, true, false, false, true, false],
    }
}

#[test]
fn join_lines_puts_newlines_between() {
    assert_eq!(join_lines_bytes(&lines(&["x", "", "y"])), b"x\n\ny".to_vec());
    assert_eq!(join_lines_bytes(&lines(&[])), Vec::<u8>::new());
    assert_eq!(join_lines_bytes(&lines(&["only"])), b"only".to_vec());
}

#[test]
fn reverting_a_hunk_puts_the_base_lines_back() {
    let mut k = Kyde::new();
    k.repo_root = Some(p("/r"));
    k.diff.path = Some(p("f.txt"));
    k.diff.current = Some(sample_diff());
    let (text, eff) = k.diff_revert_hunk(0);
    assert_eq!(text, Some(b"a\nb\nc\nd\nE2\ne".to_vec()));
    assert_eq!(eff, vec![Effect::SaveDiffPane, Effect::Refresh, Effect::RediffPanes]);
    let (text, _) = k.diff_revert_hunk(1);
    assert_eq!(text, Some(b"a\nB\nc\nd\ne".to_vec()));
    let (none, eff) = k.diff_revert_hunk(2);
    assert!(none.is_none() && eff.is_empty());
}

#[test]
fn hunk_rows_and_navigation_wrap() {
    assert_eq!(hunk_rows(&vec![false, true, false, true]), vec![1, 3]);
    let mut k = Kyde::new();
    k.diff.current = Some(sample_diff());
    assert_eq!(k.diff_hunk_rows(), vec![1, 4]);
    // Anchor = top + 3 context rows. From the top (anchor 3) next goes to row 4.
    assert_eq!(k.act_diff_next(0, 3), Some(1));
    // Past the last hunk wraps to the first.
    assert_eq!(k.act_diff_next(2, 3), Some(0));
    // Previous from anchor 3 is row 1; before the first wraps to the last.
    assert_eq!(k.act_diff_prev(0, 3), Some(0));
    assert_eq!(k.act_diff_prev(-3, 3), Some(1));
    let empty = Kyde::new();
    assert_eq!(empty.act_diff_next(0, 3), None);
}

#[test]
fn loading_panes_parks_above_the_first_hunk() {
    let mut k = Kyde::new();
    let scroll = k.load_diff_panes(p("f.txt"), true, sample_diff(), 3);
    assert_eq!(scroll, Some(0));
    assert!(k.diff.readonly);
    assert_eq!(k.diff.path.as_ref().map(show), Some("f.txt".to_string()));
    assert_eq!(k.clear_diff_panes(), vec![Effect::ClearDiffPanes]);
    assert!(k.diff.path.is_none() && k.diff.current.is_none());
}

#[test]
fn autosave_saves_only_with_a_repository() {
    let mut k = Kyde::new();
    assert!(k.diff_autosave().is_empty());
    k.diff.path = Some(p("f.txt"));
    assert_eq!(k.diff_autosave(), vec![Effect::RediffPanes]);
    k.repo_root = Some(p("/r"));
    assert_eq!(k.diff_autosave(), vec![Effect::SaveDiffPane, Effect::Refresh, Effect::RediffPanes]);
}

#[test]
fn menu_show_diff_selects_and_closes_rollback() {
    let mut k = Kyde::new();
    let eff = k.menu_show_diff(0);
    assert!(k.diff_view_open);
    assert_eq!(eff, vec![Effect::CloseModal(ModalKind::Rollback)]);
    k.close_diff_view();
    assert!(!k.diff_view_open);
}

#[test]
fn compare_title_and_apply_masks() {
    let mut k = Kyde::new();
    let (eff, title) = k.open_compare(p("a/left.rs"), p("b/right.rs"));
    assert_eq!(String::from_utf8(title).unwrap(), "Compare: left.rs ↔ right.rs");
    assert_eq!(eff, vec![Effect::ReloadCompareAtFirstHunk, Effect::OpenModal(ModalKind::Compare)]);
    assert!(k.compare_apply_hunk(0, true).is_none());
    assert_eq!(k.compare_loaded(sample_diff(), true, 3), Some(0));
    assert_eq!(k.compare_apply_hunk(1, true), Some(vec![true, false]));
    assert_eq!(k.compare_apply_hunk(1, false), Some(vec![false, true]));
    assert_eq!(k.compare_apply_all(true), Some(vec![false, false]));
    assert_eq!(k.compare_apply_all(false), Some(vec![true, true]));
}

#[test]
fn compare_write_reloads_a_clean_open_editor() {
    let mut k = Kyde::new();
    k.open_compare(p("l.rs"), p("r.rs"));
    k.open_file(p("r.rs"));
    let (target, eff) = k.compare_write_side(true).unwrap();
    assert_eq!(show(&target), "r.rs");
    assert_eq!(eff, vec![Effect::ReloadOpenEditor, Effect::ReloadCompare, Effect::Refresh]);
    k.browse.editor_dirty = true;
    let (_, eff) = k.compare_write_side(true).unwrap();
    assert_eq!(eff, vec![Effect::ReloadCompare, Effect::Refresh]);
}

#[test]
fn timezone_offsets_parse_like_date_output() {
    assert_eq!(parse_tz_offset(&b"+0100".to_vec()), 60);
    assert_eq!(parse_tz_offset(&b"-0930".to_vec()), -570);
    assert_eq!(parse_tz_offset(&b"+0545".to_vec()), 345);
    assert_eq!(parse_tz_offset(&b"0100".to_vec()), 0);
    assert_eq!(parse_tz_offset(&b"+01".to_vec()), 0);
    assert_eq!(parse_tz_offset(&b"+ab00".to_vec()), 0);
    assert_eq!(parse_tz_offset(&b"".to_vec()), 0);
    assert_eq!(parse_tz_offset(&b"+0200\n".to_vec()), 120);
}

#[test]
fn millisecond_clock_readings_are_clamped() {
    assert_eq!(clamp_ms(None), 0);
    assert_eq!(clamp_ms(Some(1234)), 1234);
    assert_eq!(clamp_ms(Some(u128::MAX)), u64::MAX);
    assert!(kyde::local_history::lh_now_ms() > 1_600_000_000_000);
}

#[test]
fn open_events_record_baseline_external_or_nothing() {
    let h = b"abc".to_vec();
    assert_eq!(lh_open_event_kind(&None, &h), Some(EventKind::Change));
    assert_eq!(lh_open_event_kind(&Some(b"xyz".to_vec()), &h), Some(EventKind::External));
    assert_eq!(lh_open_event_kind(&Some(h.clone()), &h), None);
}

fn history_ready() -> Kyde {
    let mut k = Kyde::new();
    k.repo_root = Some(p("/work/repo"));
    k.lh.enabled = true;
    assert_eq!(k.lh_sync_store(), vec![Effect::OpenLocalHistoryStore]);
    k.lh_store_opened(&p("/work/repo"));
    assert!(k.lh.store_open);
    k
}

#[test]
fn saves_are_throttled_into_one_flush() {
    let mut k = history_ready();
    assert_eq!(k.lh_note_save(p("a.rs")), vec![Effect::ScheduleLocalHistoryFlush]);
    assert!(k.lh_note_save(p("b.rs")).is_empty());
    assert!(k.lh_note_save(p("a.rs")).is_empty());
    let pairs = k.lh_flush_due();
    let got: Vec<(String, String)> = pairs.iter().map(|(r, a)| (show(r), show(a))).collect();
    assert_eq!(
        got,
        vec![
            ("a.rs".to_string(), "/work/repo/a.rs".to_string()),
            ("b.rs".to_string(), "/work/repo/b.rs".to_string()),
        ]
    );
    assert!(k.lh.pending.is_empty());
    assert!(!k.lh.flush_scheduled);
}

#[test]
fn disabling_history_drops_the_store_and_pending_saves() {
    let mut k = history_ready();
    k.lh_note_save(p("a.rs"));
    k.lh.enabled = false;
    assert!(k.lh_sync_store().is_empty());
    assert!(!k.lh.store_open && k.lh.pending.is_empty());
    assert!(k.lh_note_save(p("a.rs")).is_empty());
}

#[test]
fn history_window_title_selection_and_restore() {
    let mut k = history_ready();
    let (eff, title) = k.open_local_history(p("src/main.rs"));
    assert_eq!(String::from_utf8(title.unwrap()).unwrap(), "Local History: main.rs");
    assert_eq!(
        eff,
        vec![Effect::FlushLocalHistory, Effect::ReloadLocalHistory, Effect::OpenModal(ModalKind::LocalHistory)]
    );
    k.lh.selected = 7;
    k.lh_reload(vec![b"h1".to_vec(), b"h2".to_vec()]);
    assert_eq!(k.lh.selected, 1);
    assert_eq!(k.lh_selected_content(), Some(b"h2".to_vec()));
    assert!(k.lh_select(5).is_empty());
    assert_eq!(k.lh_select(0), vec![Effect::LoadLocalHistoryDiff]);
    assert_eq!(k.lh_revert_to_selected(), Some(b"h1".to_vec()));
    assert_eq!(k.lh_load_diff(Some(sample_diff()), true, 3), Some(0));
    assert_eq!(k.lh_apply_hunk(0), Some(vec![false, true]));
    let (target, eff) = k.lh_write_current(SnapshotLabel::BeforeHunkRestore).unwrap();
    assert_eq!(show(&target), "src/main.rs");
    assert_eq!(eff, vec![Effect::SnapshotBeforeWrite(SnapshotLabel::BeforeHunkRestore)]);
    let eff = k.lh_written();
    assert_eq!(eff, vec![Effect::ScheduleLocalHistoryFlush, Effect::ReloadLocalHistory, Effect::Refresh]);
}

#[test]
fn history_stays_closed_without_a_store() {
    let mut k = Kyde::new();
    let (eff, title) = k.open_local_history(p("a.rs"));
    assert!(eff.is_empty() && title.is_none());
    assert!(k.lh_abs(&p("a.rs")).is_none());
    assert_eq!(k.lh_abs(&p("/tmp/scratch.md")).as_ref().map(show), Some("/tmp/scratch.md".to_string()));
}

#[test]
fn restoring_writes_are_labelled() {
    assert_eq!(SnapshotLabel::BeforeHunkRestore.text(), b"Before hunk restore".to_vec());
    assert_eq!(SnapshotLabel::BeforeRevert.text(), b"Before revert".to_vec());
    let mut k = history_ready();
    let _ = k.open_local_history(p("src/main.rs"));
    let (_, eff) = k.lh_write_current(SnapshotLabel::BeforeRevert).unwrap();
    assert_eq!(eff, vec![Effect::SnapshotBeforeWrite(SnapshotLabel::BeforeRevert)]);
}
