use kyde::commit::RepoStatus;
use kyde::find::{find_all, EditorFlags};
use kyde::model::{ChangedFile, Effect, FileStatus, GitTab, Kyde, Mode, Span};
use kyde::names::path_from_bytes;
use kyde::path::FsPath;

fn p(s: &str) -> FsPath {
    path_from_bytes(&s.as_bytes().to_vec())
}

fn show(x: &FsPath) -> String {
    let parts: Vec<String> = x.parts.iter().map(|b| String::from_utf8(b.clone()).unwrap()).collect();
    parts.join("/")
}

fn change(s: &str) -> ChangedFile {
    ChangedFile { path: p(s), status: FileStatus::Modified }
}

fn checked(k: &Kyde) -> Vec<String> {
    let mut v: Vec<String> = k.commit.checked.iter().map(show).collect();
    v.sort();
    v
}

fn repo_with(files: &[&str]) -> Kyde {
    let mut k = Kyde::new();
    k.repo_root = Some(p("/work/repo"));
    k.files = files.iter().map(|f| change(f)).collect();
    k
}

#[test]
fn changed_under_lists_a_folders_changes_in_order() {
    let k = repo_with(&["src/a.rs", "docs/x.md", "src/b/c.rs"]);
    assert_eq!(k.changed_under(&p("src")), vec![0, 2]);
    assert_eq!(k.changed_under(&p("")), vec![0, 1, 2]);
    assert_eq!(k.changed_under(&p("docs/x.md")), vec![1]);
    assert!(k.has_changes_under(&p("docs")));
    assert!(!k.has_changes_under(&p("tests")));
}

#[test]
fn toggling_a_folder_flips_all_its_changes() {
    let mut k = repo_with(&["src/a.rs", "docs/x.md", "src/b/c.rs"]);
    k.toggle_commit_check(p("src"), true);
    assert_eq!(checked(&k), vec!["src/a.rs", "src/b/c.rs"]);
    assert!(k.folder_all_checked(&p("src")));
    k.toggle_commit_check(p("src"), true);
    assert!(checked(&k).is_empty());
    // A partly checked folder gets fully checked first.
    k.toggle_commit_check(p("src/a.rs"), false);
    k.toggle_commit_check(p("src"), true);
    assert_eq!(checked(&k), vec!["src/a.rs", "src/b/c.rs"]);
}

#[test]
fn entering_commit_checks_everything_and_selects_the_open_file() {
    let mut k = repo_with(&[]);
    k.open_file(p("b.rs"));
    let status = RepoStatus { files: vec![change("a.rs"), change("b.rs")], push_files: vec![] };
    let eff = k.enter_commit(Some(status));
    assert_eq!(k.mode, Mode::Commit);
    assert_eq!(k.git_tab, GitTab::Commit);
    assert_eq!(k.selected, Some(1));
    assert_eq!(eff, vec![Effect::LoadDiffForSelected]);
    assert_eq!(checked(&k), vec!["a.rs", "b.rs"]);
}

#[test]
fn entering_commit_with_only_pushes_shows_the_push_tab() {
    let mut k = repo_with(&[]);
    let status = RepoStatus { files: vec![], push_files: vec![p("x.rs")] };
    assert_eq!(k.enter_commit(Some(status)), vec![Effect::SelectPushFile]);
    assert_eq!(k.git_tab, GitTab::Push);
}

#[test]
fn a_clean_tree_leaves_commit_for_browse() {
    let mut k = repo_with(&["a.rs"]);
    k.mode = Mode::Commit;
    k.exit_commit_if_clean();
    assert_eq!(k.mode, Mode::Commit);
    k.files.clear();
    k.exit_commit_if_clean();
    assert_eq!(k.mode, Mode::Browse);
}

#[test]
fn hunk_exclusions_toggle_per_file() {
    let mut k = repo_with(&["a.rs"]);
    k.diff.path = Some(p("a.rs"));
    k.toggle_hunk_included(2);
    assert_eq!(k.commit.excluded_hunks.len(), 1);
    assert_eq!(k.commit.excluded_hunks[0].hunks, vec![2]);
    k.toggle_hunk_included(2);
    assert!(k.commit.excluded_hunks.iter().all(|e| e.hunks.is_empty()));
}

#[test]
fn rollback_window_checks_the_changes_under_the_path() {
    let mut k = repo_with(&["src/a.rs", "docs/x.md"]);
    let eff = k.open_rollback_path(p("src"));
    assert_eq!(eff, vec![Effect::OpenModal(kyde::model::ModalKind::Rollback)]);
    let v: Vec<String> = k.rollback_checked.iter().map(show).collect();
    assert_eq!(v, vec!["src/a.rs"]);
    assert!(k.open_rollback_path(p("tests")).is_empty());
}

fn spans(v: &[Span]) -> Vec<(usize, usize)> {
    v.iter().map(|s| (s.start, s.end)).collect()
}

#[test]
fn find_all_is_ascii_case_insensitive_and_non_overlapping() {
    let hay = b"Foo foo FOO fooo".to_vec();
    assert_eq!(spans(&find_all(&hay, &b"foo".to_vec())), vec![(0, 3), (4, 7), (8, 11), (12, 15)]);
    assert_eq!(spans(&find_all(&b"aaaa".to_vec(), &b"aa".to_vec())), vec![(0, 2), (2, 4)]);
    assert!(find_all(&hay, &b"".to_vec()).is_empty());
}

#[test]
fn find_next_and_prev_wrap_around() {
    let mut k = Kyde::new();
    k.recompute_find(&b"x".to_vec(), &b"x x x".to_vec());
    assert_eq!(k.find.matches.len(), 3);
    assert_eq!(k.find.idx, 0);
    k.find_prev();
    assert_eq!(k.find.idx, 2);
    k.find_next();
    assert_eq!(k.find.idx, 0);
    k.find_next();
    k.find_prev();
    assert_eq!(k.find.idx, 0);
}

#[test]
fn replace_all_goes_right_to_left() {
    let mut k = Kyde::new();
    k.recompute_find(&b"ab".to_vec(), &b"ab-ab".to_vec());
    assert_eq!(spans(&k.replace_all()), vec![(3, 5), (0, 2)]);
    assert_eq!(k.replace_one().map(|s| (s.start, s.end)), Some((0, 2)));
}

#[test]
fn open_find_offers_replace_only_on_writable_targets() {
    let mut k = Kyde::new();
    k.open_file(p("a.rs"));
    let flags = EditorFlags { diff_left_focused: false, file_read_only: true, left_read_only: true, right_read_only: false };
    let eff = k.open_find(true, flags);
    assert!(k.find.open);
    assert!(!k.find.replace);
    assert_eq!(eff, vec![Effect::RecomputeFind, Effect::FocusFindQuery]);
}
