use kyde::commit::RepoStatus;
use kyde::file_ops::FsOp;
use kyde::find::EditorFlags;
use kyde::model::{
    ChangedFile, ConflictEntry, ConflictSide, Effect, FileStatus, FindTarget, Kyde, MergeCompare, Mode,
    MoveKind, NamePrompt,
};
use kyde::names::path_from_bytes;
use kyde::path::FsPath;

fn p(s: &str) -> FsPath {
    path_from_bytes(&s.as_bytes().to_vec())
}

fn show(x: &FsPath) -> String {
    String::from_utf8(x.display_bytes()).unwrap()
}

fn b(s: &str) -> Vec<u8> {
    s.as_bytes().to_vec()
}

fn file(s: &str, status: FileStatus) -> ChangedFile {
    ChangedFile { path: p(s), status }
}

fn flags() -> EditorFlags {
    EditorFlags { diff_left_focused: false, file_read_only: false, left_read_only: true, right_read_only: false }
}

#[test]
fn find_bar_opens_on_the_right_editor() {
    let mut k = Kyde::new();
    // Nothing open: nothing happens.
    assert!(k.act_find(flags()).is_empty());
    assert!(!k.find.open);
    k.browse.open_path = Some(p("a.rs"));
    assert_eq!(k.act_replace(flags()), vec![Effect::RecomputeFind, Effect::FocusFindQuery]);
    assert!(k.find.open && k.find.replace);
    assert_eq!(k.find_ed(), FindTarget::File);
    assert_eq!(k.close_find(), vec![Effect::ClearFindHighlight, Effect::FocusFindTarget]);
    assert!(!k.find.open);
    // In the diff view with the read-only base pane focused, replace is not offered.
    k.diff_view_open = true;
    let f = EditorFlags { diff_left_focused: true, ..flags() };
    k.act_replace(f);
    assert_eq!(k.find_ed(), FindTarget::DiffLeft);
    assert!(!k.find.replace);
    assert_eq!(k.close_find(), vec![Effect::FocusFindTarget]);
}

#[test]
fn name_prompt_round_trips() {
    let mut k = Kyde::new();
    k.menu_open = true;
    assert_eq!(k.start_new_file(p("src")), vec![Effect::FocusNameInput]);
    assert!(!k.menu_open);
    let (e, op) = k.confirm_name_prompt(b("mod/new.rs"));
    assert_eq!(e, vec![Effect::FocusRoot]);
    match op {
        Some(FsOp::CreateFile(q)) => assert_eq!(show(&q), "src/mod/new.rs"),
        _ => panic!("expected a file to create"),
    }
    assert!(k.name_prompt.is_none());
    k.start_new_folder(p(""));
    match k.confirm_name_prompt(b("  docs \n")).1 {
        Some(FsOp::CreateFolder(q)) => assert_eq!(show(&q), "docs"),
        _ => panic!("expected a folder to create"),
    }
    let (e, cur) = k.start_rename(p("src/old.rs"));
    assert_eq!(e, vec![Effect::FocusNameInput]);
    assert_eq!(cur, b("old.rs"));
    assert!(matches!(k.name_prompt, Some(NamePrompt::Rename(_))));
    match k.confirm_name_prompt(b("new.rs")).1 {
        Some(FsOp::Rename { from, to, kind }) => {
            assert_eq!(kind, MoveKind::Rename);
            assert_eq!(show(&from), "src/old.rs");
            assert_eq!(show(&to), "src/new.rs");
        }
        _ => panic!("expected a rename"),
    }
    // Renaming to the same name, or a blank name, does nothing.
    k.start_rename(p("src/old.rs"));
    assert!(k.confirm_name_prompt(b("old.rs")).1.is_none());
    k.start_new_file(p(""));
    assert!(k.confirm_name_prompt(b("")).1.is_none());
    k.start_new_file(p(""));
    assert!(k.confirm_name_prompt(b("   ")).1.is_none());
    k.start_new_file(p(""));
    assert_eq!(k.cancel_name_prompt(), vec![Effect::FocusRoot]);
    assert!(k.name_prompt.is_none());
    // Without a prompt, confirming does nothing.
    let (e, op) = k.confirm_name_prompt(b("x"));
    assert!(e.is_empty() && op.is_none());
}

#[test]
fn drag_and_drop_moves() {
    let mut k = Kyde::new();
    match k.drop_onto_dir(p("a/f.rs"), p("b")) {
        Some(FsOp::Rename { from, to, kind }) => {
            assert_eq!(kind, MoveKind::Move);
            assert_eq!(show(&from), "a/f.rs");
            assert_eq!(show(&to), "b/f.rs");
        }
        _ => panic!("expected a move"),
    }
    assert_eq!(k.browse.expanded.len(), 1);
    // Onto its own folder, or a folder into itself: no-op.
    assert!(k.drop_onto_dir(p("a/f.rs"), p("a")).is_none());
    assert!(k.drop_onto_dir(p("a"), p("a/sub")).is_none());
}

#[test]
fn tree_clipboard_copy_cut_paste() {
    let mut k = Kyde::new();
    k.browse.selected_path = Some(p("a/f.rs"));
    k.act_copy_files();
    let c = k.browse.clipboard.as_ref().unwrap();
    assert!(!c.cut);
    assert_eq!(c.paths.iter().map(show).collect::<Vec<_>>(), vec!["a/f.rs"]);
    k.browse.multi_selected = vec![p("x.rs"), p(""), p("y.rs")];
    k.act_cut_files();
    let c = k.browse.clipboard.as_ref().unwrap();
    assert!(c.cut);
    assert_eq!(c.paths.iter().map(show).collect::<Vec<_>>(), vec!["x.rs", "y.rs"]);
    assert_eq!(show(&k.act_paste_files(false).unwrap()), "a");
    // Outside Browse nothing happens.
    k.mode = Mode::Commit;
    assert!(k.act_paste_files(false).is_none());
    k.browse.multi_selected = Vec::new();
    k.act_copy_files();
    assert!(k.browse.clipboard.as_ref().unwrap().cut);
}

#[test]
fn delete_key_asks_first() {
    let mut k = Kyde::new();
    k.act_delete_file(false);
    assert!(k.delete_target.is_none());
    k.browse.selected_path = Some(p("a/f.rs"));
    k.act_delete_file(false);
    let t = k.delete_target.as_ref().unwrap();
    assert_eq!(show(&t.path), "a/f.rs");
    assert!(!t.is_dir);
}

#[test]
fn scratch_opens_in_browse() {
    let mut k = Kyde::new();
    k.mode = Mode::Commit;
    let e = k.after_create_scratch(p("/scratch/s1.txt"));
    assert_eq!(k.mode, Mode::Browse);
    assert_eq!(show(k.browse.open_path.as_ref().unwrap()), "/scratch/s1.txt");
    assert_eq!(e.first(), Some(&Effect::Refresh));
    assert_eq!(e.last(), Some(&Effect::FocusEditor));
}

#[test]
fn commit_entry_points() {
    let mut k = Kyde::new();
    assert_eq!(k.act_mode_commit(), vec![Effect::SwitchMode(Mode::Commit)]);
    let status = RepoStatus { files: vec![file("a.rs", FileStatus::Modified)], push_files: Vec::new() };
    k.act_commit(Some(status));
    assert_eq!(k.mode, Mode::Commit);
    assert!(k.commit.focus_msg);
    assert_eq!(k.files.len(), 1);
}

#[test]
fn commit_from_browse_menu() {
    let mut k = Kyde::new();
    k.files = vec![
        file("src/a.rs", FileStatus::Modified),
        file("docs/x.md", FileStatus::Added),
        file("src/b.rs", FileStatus::Untracked),
    ];
    k.menu_open = true;
    assert!(k.menu_commit_path(p("lib")).is_empty());
    assert!(!k.menu_open);
    assert_eq!(k.mode, Mode::Browse);
    assert_eq!(k.menu_commit_path(p("src")), vec![Effect::LoadDiffForSelected]);
    assert_eq!(k.mode, Mode::Commit);
    assert_eq!(k.selected, Some(0));
    let mut checked: Vec<String> = k.commit.checked.iter().map(show).collect();
    checked.sort();
    assert_eq!(checked, vec!["src/a.rs", "src/b.rs"]);
}

#[test]
fn commit_tree_and_rollback_checks() {
    let mut k = Kyde::new();
    k.files = vec![file("src/a.rs", FileStatus::Modified), file("src/b.rs", FileStatus::Deleted)];
    k.toggle_commit_dir(p("src"));
    assert_eq!(k.commit.expanded.len(), 1);
    k.toggle_commit_dir(p("src"));
    assert!(k.commit.expanded.is_empty());
    assert!(!k.rollback_folder_all_checked(&p("src")));
    k.toggle_rollback_check(p("src"), true);
    assert!(k.rollback_folder_all_checked(&p("src")));
    k.toggle_rollback_check(p("src/a.rs"), false);
    assert!(!k.rollback_folder_all_checked(&p("src")));
    // No change lies under an unrelated folder.
    assert!(!k.rollback_folder_all_checked(&p("lib")));
}

fn entry(path: &str) -> ConflictEntry {
    ConflictEntry { path: p(path), ours: ConflictSide::Modified, theirs: ConflictSide::Modified }
}

#[test]
fn merge_back_and_language() {
    let mut k = Kyde::new();
    k.merge.files = vec![entry("a.rs"), entry("b.rs")];
    assert!(k.merge_lang().is_none());
    k.merge.selected = Some(1);
    k.merge.compare = MergeCompare::BaseRight;
    assert_eq!(show(&k.merge_lang().unwrap()), "b.rs");
    k.merge_back_to_list();
    assert_eq!(k.merge.list_sel, Some(1));
    assert!(k.merge.selected.is_none());
    assert_eq!(k.merge.compare, MergeCompare::MergeView3);
}

#[test]
fn snapshots_only_with_history_on() {
    let mut k = Kyde::new();
    k.repo_root = Some(p("/r"));
    assert!(k.lh_snapshot_now(&vec![p("a.rs")]).is_empty());
    k.lh.enabled = true;
    k.lh.store_open = true;
    let pairs = k.lh_snapshot_now(&vec![p("a.rs"), p("/tmp/s.txt")]);
    assert_eq!(pairs.len(), 2);
    assert_eq!(show(&pairs[0].0), "a.rs");
    assert_eq!(show(&pairs[0].1), "/r/a.rs");
    assert_eq!(show(&pairs[1].1), "/tmp/s.txt");
}

#[test]
fn finder_rows_coloured_by_status() {
    let mut k = Kyde::new();
    k.files = vec![file("a.rs", FileStatus::Added)];
    assert_eq!(k.finder_file_status(&p("a.rs")), Some(FileStatus::Added));
    assert_eq!(k.finder_file_status(&p("b.rs")), None);
}

#[test]
fn finished_moves_are_recorded_in_history() {
    assert_eq!(MoveKind::Rename.label(), b("Renamed"));
    assert_eq!(MoveKind::Move.label(), b("Moved here"));
    let mut k = Kyde::new();
    k.browse.selected_path = Some(p("a/f.rs"));
    let e = k.finish_move(&p("a"), &p("b/a"), MoveKind::Move);
    assert_eq!(e, vec![Effect::RecordMove(MoveKind::Move), Effect::Refresh]);
    assert_eq!(show(k.browse.selected_path.as_ref().unwrap()), "b/a/f.rs");
    let e = k.finish_move(&p("x.rs"), &p("y.rs"), MoveKind::Rename);
    assert_eq!(e, vec![Effect::RecordMove(MoveKind::Rename), Effect::Refresh]);
}
