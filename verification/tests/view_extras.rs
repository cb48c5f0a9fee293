use kyde::browse::{sort_keys_edit, sort_lines_edit, EditorArea, FontPreviewPlan, TreeRow};
use kyde::changelog::{release_heading, release_meta, release_title};
use kyde::file_ops::{image_ext, pasted_image_name, ImageFormat};
use kyde::find::find_highlights;
use kyde::local_history::lh_setting_step;
use kyde::model::{
    ChangedFile, Effect, FileStatus, FindTarget, FinderMode, Kyde, MergeCompare, ModalKind, Span,
    WhitespaceMode, Worktree,
};
use kyde::names::path_from_bytes;
use kyde::path::FsPath;
use kyde::notifications::ShellCmdState;
use kyde::terminal::term_tab_title;

fn p(s: &str) -> FsPath {
    path_from_bytes(&s.as_bytes().to_vec())
}

fn show(x: &FsPath) -> String {
    String::from_utf8(x.display_bytes()).unwrap()
}

fn b(s: &str) -> Vec<u8> {
    s.as_bytes().to_vec()
}

fn row(s: &str, is_dir: bool, depth: usize) -> TreeRow {
    TreeRow { path: p(s), is_dir, depth }
}

fn rows_of(v: &[TreeRow]) -> Vec<(String, bool, usize)> {
    v.iter().map(|r| (show(&r.path), r.is_dir, r.depth)).collect()
}

#[test]
fn merge_ws_change_reselects_open_file() {
    let mut k = Kyde::new();
    k.merge.ws_open = true;
    assert_eq!(k.merge_set_ws(WhitespaceMode::Exact), None);
    assert!(!k.merge.ws_open);
    k.merge.selected = Some(2);
    k.merge.compare = MergeCompare::BaseLeft;
    assert_eq!(k.merge_set_ws(WhitespaceMode::Trim), Some((2, MergeCompare::BaseLeft)));
    assert_eq!(k.merge.ws, WhitespaceMode::Trim);
    // The same mode again changes nothing.
    assert_eq!(k.merge_set_ws(WhitespaceMode::Trim), None);
    k.merge.selected = None;
    assert_eq!(k.merge_set_ws(WhitespaceMode::IgnoreAll), None);
    assert_eq!(k.merge.ws, WhitespaceMode::IgnoreAll);
}

fn worktree_kyde() -> Kyde {
    let mut k = Kyde::new();
    k.repo_root = Some(p("/r"));
    k.current_branch = Some(b("main"));
    k.worktree.list = vec![
        Worktree { path: p("/r"), branch: Some(b("main")), canonical: None, head: Vec::new() },
        Worktree { path: p("/w/feat-tree"), branch: Some(b("feat")), canonical: None, head: Vec::new() },
    ];
    k
}

#[test]
fn branch_rows_mark_current_and_elsewhere() {
    let k = worktree_kyde();
    let cur = k.branch_leaf(&b("main"), &None, true);
    assert!(cur.is_current);
    assert_eq!(cur.elsewhere, None);
    assert!(!cur.disabled);
    let feat = k.branch_leaf(&b("feat"), &None, true);
    assert!(!feat.is_current);
    assert_eq!(feat.elsewhere, Some(b("feat-tree")));
    assert!(!feat.disabled);
    let other = k.branch_leaf(&b("other"), &None, true);
    assert!(other.disabled);
    let free = k.branch_leaf(&b("other"), &None, false);
    assert!(!free.disabled);
}

#[test]
fn create_branch_plan() {
    let mut k = Kyde::new();
    k.new_branch_checkout = true;
    let (e, plan) = k.do_create_branch(b(""));
    assert!(e.is_empty() && plan.is_none());
    let (e, plan) = k.do_create_branch(b("feature-x"));
    assert_eq!(e, vec![Effect::CloseModal(ModalKind::NewBranch)]);
    assert!(plan.is_none());
    k.repo_root = Some(p("/r"));
    let (_, plan) = k.do_create_branch(b("feature-x"));
    let plan = plan.unwrap();
    assert_eq!(show(&plan.root), "/r");
    assert_eq!(plan.name, b("feature-x"));
    assert!(plan.checkout && !plan.overwrite);
    assert_eq!(k.branch_op_done(), vec![Effect::Refresh]);
}

#[test]
fn only_latest_status_refresh_fires() {
    let mut k = Kyde::new();
    let first = k.schedule_status_refresh();
    let second = k.schedule_status_refresh();
    assert_ne!(first, second);
    assert!(k.status_refresh_due(first).is_empty());
    assert_eq!(k.status_refresh_due(second), vec![Effect::Refresh]);
    k.refresh_gen = u64::MAX;
    assert_eq!(k.schedule_status_refresh(), 0);
}

#[test]
fn visible_rows_root_tree_and_scratches() {
    let mut k = Kyde::new();
    let tree = vec![row("src", true, 0), row("src/a.rs", false, 1)];
    let group = p("\u{1}scratches");
    // Root collapsed, no scratches: just the root row.
    assert_eq!(rows_of(&k.browse_visible_rows(&tree, &group)), vec![("".to_string(), true, 0)]);
    k.browse.expanded = vec![p("")];
    k.browse.scratches = vec![p("/s/one.txt")];
    assert_eq!(
        rows_of(&k.browse_visible_rows(&tree, &group)),
        vec![
            ("".to_string(), true, 0),
            ("src".to_string(), true, 1),
            ("src/a.rs".to_string(), false, 2),
            (show(&group), true, 0),
        ]
    );
    k.browse.expanded.push(group.duplicate());
    let rows = k.browse_visible_rows(&tree, &group);
    assert_eq!(rows.len(), 5);
    assert_eq!((show(&rows[4].path), rows[4].is_dir, rows[4].depth), ("/s/one.txt".to_string(), false, 1));
}

#[test]
fn finder_len_follows_mode() {
    let mut k = Kyde::new();
    k.finder.results = vec![p("a"), p("b")];
    k.finder.mode = FinderMode::Files;
    assert_eq!(k.finder_results_len(), 2);
    k.finder.mode = FinderMode::Content;
    assert_eq!(k.finder_results_len(), 0);
    k.finder.mode = FinderMode::Scratch;
    assert_eq!(k.finder_results_len(), 0);
}

#[test]
fn highlights_per_line() {
    let content = b("ab\ncd xcd\nz");
    let m = vec![Span { start: 3, end: 5 }, Span { start: 7, end: 9 }, Span { start: 10, end: 11 }];
    let h = find_highlights(&content, &m);
    let got: Vec<(usize, usize, usize)> = h.iter().map(|s| (s.line, s.start, s.end)).collect();
    assert_eq!(got, vec![(1, 0, 2), (1, 4, 6), (2, 0, 1)]);
    // A match running past its line is cut at the line's end.
    let h = find_highlights(&b("abc\ndef"), &vec![Span { start: 1, end: 6 }]);
    assert_eq!((h[0].line, h[0].start, h[0].end), (0, 1, 3));
}

#[test]
fn highlights_only_in_file_editor() {
    let mut k = Kyde::new();
    k.find.matches = vec![Span { start: 0, end: 1 }];
    k.find.target = FindTarget::File;
    assert_eq!(k.apply_find_highlight(&b("x")).unwrap().len(), 1);
    k.find.target = FindTarget::DiffLeft;
    assert!(k.apply_find_highlight(&b("x")).is_none());
}

#[test]
fn pasted_image_names() {
    assert_eq!(image_ext(ImageFormat::Jpeg), b("jpg"));
    assert_eq!(image_ext(ImageFormat::Tiff), b("tiff"));
    assert_eq!(pasted_image_name(ImageFormat::Png), b("image.png"));
    assert_eq!(pasted_image_name(ImageFormat::Svg), b("image.svg"));
}

#[test]
fn editor_pane_layouts() {
    let mut k = Kyde::new();
    k.find.open = true;
    let l = k.editor_pane_layout(false, false, false, true);
    assert_eq!(l.area, EditorArea::NoFile);
    assert!(!l.find_bar && !l.install_banner && l.conflict.is_none());
    k.browse.open_tabs = vec![p("a.png")];
    k.browse.open_path = Some(p("a.png"));
    k.files = vec![ChangedFile { path: p("a.png"), status: FileStatus::Conflict }];
    let l = k.editor_pane_layout(true, false, false, true);
    assert_eq!(l.area, EditorArea::Image);
    assert!(!l.find_bar && !l.install_banner && l.conflict.is_none());
    let l = k.editor_pane_layout(false, false, true, true);
    assert_eq!(l.area, EditorArea::MarkdownSplit);
    assert!(l.find_bar && l.install_banner);
    assert_eq!(show(&l.conflict.unwrap()), "a.png");
    assert_eq!(k.editor_pane_layout(false, true, true, false).area, EditorArea::Font);
    assert_eq!(k.editor_pane_layout(false, false, false, false).area, EditorArea::Code);
}

#[test]
fn cmd_click_builds_pair_then_toggles() {
    let mut k = Kyde::new();
    k.browse.all_files = vec![p("a.rs"), p("b.rs")];
    k.browse.selected_path = Some(p("a.rs"));
    assert!(k.tree_row_click(p("b.rs"), false, true, 1).is_empty());
    let multi: Vec<String> = k.browse.multi_selected.iter().map(show).collect();
    assert_eq!(multi, vec!["a.rs", "b.rs"]);
    assert_eq!(show(k.browse.selected_path.as_ref().unwrap()), "b.rs");
    k.tree_row_click(p("a.rs"), false, true, 1);
    let multi: Vec<String> = k.browse.multi_selected.iter().map(show).collect();
    assert_eq!(multi, vec!["b.rs"]);
    assert!(k.browse.open_tabs.is_empty());
}

#[test]
fn plain_clicks_preview_open_and_toggle() {
    let mut k = Kyde::new();
    k.browse.multi_selected = vec![p("x")];
    let e = k.tree_row_click(p("a.rs"), false, false, 1);
    assert_eq!(
        e,
        vec![Effect::FocusRoot, Effect::LoadOpenFile, Effect::ScrollTabIntoView, Effect::LoadFontPreview]
    );
    assert!(k.browse.multi_selected.is_empty());
    assert_eq!(show(k.browse.preview_tab.as_ref().unwrap()), "a.rs");
    k.tree_row_click(p("a.rs"), false, false, 2);
    assert!(k.browse.preview_tab.is_none());
    assert_eq!(k.browse.open_tabs.len(), 1);
    assert_eq!(k.tree_row_click(p("src"), true, true, 1), vec![Effect::FocusRoot]);
    assert_eq!(k.browse.expanded.len(), 1);
    k.tree_row_click(p("src"), true, false, 1);
    assert!(k.browse.expanded.is_empty());
}

#[test]
fn terminal_panel_buttons() {
    let mut k = Kyde::new();
    k.term.open = true;
    k.term.tab_count = 3;
    assert_eq!(k.select_terminal_tab(2), vec![Effect::FocusTerminal]);
    assert_eq!(k.term.active, 2);
    assert_eq!(k.toggle_terminal_maximized(), vec![Effect::SaveTerminalMaximized, Effect::FocusTerminal]);
    assert!(k.term.maximized);
    k.minimize_terminal();
    assert!(!k.term.open && !k.term.maximized);
    assert_eq!(k.term.tab_count, 3);
    assert_eq!(term_tab_title(&b("zsh"), true), b("zsh (exited)"));
    assert_eq!(term_tab_title(&b("zsh"), false), b("zsh"));
}

fn hit(path: &str, line: u32) -> kyde::model::ContentHit {
    kyde::model::ContentHit { path: p(path), line, text: b("x") }
}

#[test]
fn content_search_summary() {
    let mut k = Kyde::new();
    assert_eq!(k.content_summary(), b("No matches"));
    k.finder.content_results = vec![hit("a.rs", 1)];
    assert_eq!(k.content_summary(), b("1 match in 1 file"));
    k.finder.content_results = vec![hit("a.rs", 1), hit("b.rs", 4), hit("a.rs", 9)];
    assert_eq!(k.content_summary(), b("3 matches in 2 files"));
    assert_eq!(kyde::panels::hit_file_count(&k.finder.content_results), 2);
}

#[test]
fn history_setting_steps() {
    assert_eq!(lh_setting_step(30, 1), 31);
    assert_eq!(lh_setting_step(30, -1), 29);
    assert_eq!(lh_setting_step(0, -5), 1);
    assert_eq!(lh_setting_step(u32::MAX, 5), 1);
}

#[test]
fn history_switch_follows_store() {
    let mut k = Kyde::new();
    k.repo_root = Some(p("/r"));
    let e = k.toggle_local_history();
    assert!(k.lh.enabled);
    assert_eq!(e, vec![Effect::SaveLocalHistoryConfig, Effect::OpenLocalHistoryStore]);
    assert_eq!(show(k.lh.store_root.as_ref().unwrap()), "/r");
    let e = k.toggle_local_history();
    assert!(!k.lh.enabled);
    assert_eq!(e, vec![Effect::SaveLocalHistoryConfig]);
    assert!(k.lh.store_root.is_none() && !k.lh.store_open);
}

#[test]
fn preview_tab_is_reused() {
    let mut k = Kyde::new();
    k.browse.open_tabs = vec![p("keep.rs")];
    k.browse.open_path = Some(p("keep.rs"));
    k.preview_file(p("a.rs"));
    assert_eq!(k.browse.open_tabs.len(), 2);
    k.preview_file(p("b.rs"));
    let tabs: Vec<String> = k.browse.open_tabs.iter().map(show).collect();
    assert_eq!(tabs, vec!["keep.rs", "b.rs"]);
    assert_eq!(show(k.browse.preview_tab.as_ref().unwrap()), "b.rs");
}

fn diff_with_hunks(n: usize) -> kyde::model::FileDiffModel {
    let hunks = (0..n)
        .map(|i| kyde::model::HunkRange { old_start: i, old_end: i + 1, new_start: i, new_end: i + 1 })
        .collect();
    kyde::model::FileDiffModel {
        old: (0..n).map(|_| b("a")).collect(),
        new: (0..n).map(|_| b("b")).collect(),
        hunks,
        row_starts_hunk: vec![true; n],
    }
}

#[test]
fn diff_change_counter() {
    let mut k = Kyde::new();
    assert_eq!(k.diff_nav_label(), None);
    k.diff.current = Some(diff_with_hunks(1));
    assert_eq!(k.diff_nav_label(), None);
    k.diff.current = Some(diff_with_hunks(3));
    assert_eq!(k.diff_nav_label(), Some(b("3 changes")));
}

#[test]
fn git_tab_pills_with_counts() {
    let mut k = Kyde::new();
    assert!(k.git_tab_pills().is_empty());
    k.files = vec![ChangedFile { path: p("a"), status: FileStatus::Modified }];
    k.sync.push_files = vec![p("x"), p("y")];
    assert_eq!(k.git_tab_pills(), vec![(kyde::model::GitTab::Commit, 1), (kyde::model::GitTab::Push, 2)]);
}

#[test]
fn update_banner_labels() {
    let mut k = Kyde::new();
    assert!(k.update_banner(true).is_none());
    k.update_available = Some(kyde::model::Release {
        version: b("1.2.0"),
        zip_url: b("https://example.invalid/k.zip"),
        sha256_url: b(""),
        page_url: b(""),
    });
    let (msg, action) = k.update_banner(true).unwrap();
    assert_eq!(String::from_utf8(msg).unwrap(), "Update available — v1.2.0");
    assert_eq!(action, b("Update & Relaunch"));
    assert_eq!(k.update_banner(false).unwrap().1, b("Download"));
    k.updating = true;
    assert_eq!(String::from_utf8(k.update_banner(true).unwrap().1).unwrap(), "Updating…");
}

#[test]
fn merge_banner_counts_conflicts() {
    let mut k = Kyde::new();
    k.merge.source = Some(b("feature"));
    k.files = vec![
        ChangedFile { path: p("a"), status: FileStatus::Conflict },
        ChangedFile { path: p("b"), status: FileStatus::Modified },
        ChangedFile { path: p("c"), status: FileStatus::Conflict },
    ];
    let (msg, conflicts) = k.merge_banner();
    assert_eq!(String::from_utf8(msg).unwrap(), "Merging “feature” — 2 conflicted files");
    assert!(conflicts);
    k.files.truncate(1);
    assert_eq!(String::from_utf8(k.merge_banner().0).unwrap(), "Merging “feature” — 1 conflicted file");
    k.files.clear();
    let (msg, conflicts) = k.merge_banner();
    assert_eq!(String::from_utf8(msg).unwrap(), "Merging “feature” — all conflicts resolved");
    assert!(!conflicts);
}

fn strs(v: &[Vec<u8>]) -> Vec<String> {
    v.iter().map(|x| String::from_utf8(x.clone()).unwrap()).collect()
}

#[test]
fn branch_popup_lists_and_labels() {
    let mut k = Kyde::new();
    k.current_branch = Some(b("main"));
    k.branch.list = vec![b("main"), b("Feature-B"), b("fix-a"), b("feature-a"), b("zeta")];
    k.branch.remotes = vec![b("origin/feature-x"), b("origin/main")];
    let all = k.branch_popup(&b(""));
    assert_eq!(strs(&all.recent), vec!["Feature-B", "fix-a", "feature-a", "zeta"]);
    assert_eq!(strs(&all.all), vec!["feature-a", "Feature-B", "fix-a", "main", "zeta"]);
    assert_eq!(strs(&all.remotes), vec!["origin/feature-x", "origin/main"]);
    assert_eq!(all.new_label, b("+ New Branch"));
    assert_eq!(String::from_utf8(all.pull_label).unwrap(), "↓ Pull");
    let found = k.branch_popup(&b("  FEA "));
    assert_eq!(strs(&found.recent), vec!["Feature-B", "feature-a"]);
    assert_eq!(strs(&found.all), vec!["feature-a", "Feature-B"]);
    assert_eq!(strs(&found.remotes), vec!["origin/feature-x"]);
    assert_eq!(String::from_utf8(found.new_label).unwrap(), "+ New Branch  “FEA”");
    k.sync.behind = Some(3);
    assert_eq!(String::from_utf8(k.branch_popup(&b("")).pull_label).unwrap(), "↓ Pull  (3)");
    k.sync.pulling = true;
    assert_eq!(String::from_utf8(k.branch_popup(&b("")).pull_label).unwrap(), "↓ Pulling…");
}

#[test]
fn branch_popup_recent_capped_and_sort_stable() {
    let mut k = Kyde::new();
    k.branch.list = vec![b("b1"), b("ABC"), b("b2"), b("abc"), b("b3"), b("b4"), b("b5")];
    let r = k.branch_popup(&b(""));
    assert_eq!(strs(&r.recent), vec!["b1", "ABC", "b2", "abc", "b3"]);
    assert_eq!(strs(&r.all), vec!["ABC", "abc", "b1", "b2", "b3", "b4", "b5"]);
}

#[test]
fn shown_git_tab_falls_back() {
    let mut k = Kyde::new();
    assert_eq!(k.shown_git_tab(), None);
    k.sync.push_files = vec![p("x")];
    assert_eq!(k.shown_git_tab(), Some(kyde::model::GitTab::Push));
    k.files = vec![ChangedFile { path: p("a"), status: FileStatus::Added }];
    assert_eq!(k.shown_git_tab(), Some(kyde::model::GitTab::Commit));
    k.git_tab = kyde::model::GitTab::Push;
    assert_eq!(k.shown_git_tab(), Some(kyde::model::GitTab::Push));
    k.sync.push_files.clear();
    assert_eq!(k.shown_git_tab(), Some(kyde::model::GitTab::Commit));
}

#[test]
fn changelog_status_message() {
    let mut k = Kyde::new();
    assert!(k.changelog_message().is_none());
    k.changelog.error = Some(b("offline"));
    let (m, retry) = k.changelog_message().unwrap();
    assert_eq!(String::from_utf8(m).unwrap(), "Couldn't load the changelog — offline");
    assert!(retry);
    k.changelog.loading = true;
    let (m, retry) = k.changelog_message().unwrap();
    assert_eq!(String::from_utf8(m).unwrap(), "Loading releases…");
    assert!(!retry);
}

#[test]
fn changelog_release_labels() {
    assert_eq!(release_title(&b("1.4.0")), b("v1.4.0"));
    assert_eq!(release_meta(&b(""), false), b(""));
    assert_eq!(release_meta(&b(""), true), b("pre-release"));
    assert_eq!(release_meta(&b("2025-01-02"), false), b("2025-01-02"));
    assert_eq!(String::from_utf8(release_meta(&b("2025-01-02"), true)).unwrap(), "2025-01-02 · pre-release");
    assert_eq!(release_heading(&b("  \t"), &b("1.4.0")), b("v1.4.0"));
    assert_eq!(release_heading(&b("Big one"), &b("1.4.0")), b("Big one"));
}

#[test]
fn worktree_rows() {
    let mut k = Kyde::new();
    k.repo_root = Some(p("/r"));
    k.worktree.list = vec![
        Worktree { path: p("/r"), branch: Some(b("main")), canonical: None, head: b("0123456789") },
        Worktree { path: p("/w/agent"), branch: None, canonical: None, head: b("abcdef0123") },
        Worktree { path: p("/w/short"), branch: None, canonical: None, head: b("abc") },
    ];
    k.worktree.counts = vec![(p("/w/agent"), 2), (p("/r"), 0), (p("/w/agent"), 5)];
    let r0 = k.worktree_row(0, &None);
    assert!(r0.is_current);
    assert_eq!(r0.name, b("r"));
    assert_eq!(r0.branch, b("main"));
    assert_eq!(r0.changed, Some(0));
    let r1 = k.worktree_row(1, &None);
    assert!(!r1.is_current);
    assert_eq!(r1.name, b("agent"));
    assert_eq!(r1.branch, b("(abcdef0)"));
    assert_eq!(r1.changed, Some(5));
    let r2 = k.worktree_row(2, &None);
    assert_eq!(r2.branch, b("(abc)"));
    assert_eq!(r2.changed, None);
}

#[test]
fn tab_chips() {
    let mut k = Kyde::new();
    k.browse.open_tabs = vec![p("src/a.rs"), p("b.md")];
    k.browse.open_path = Some(p("src/a.rs"));
    k.browse.preview_tab = Some(p("b.md"));
    k.browse.editor_dirty = true;
    k.files = vec![ChangedFile { path: p("b.md"), status: FileStatus::Modified }];
    let a = k.tab_chip(0);
    assert_eq!(a.name, b("a.rs"));
    assert!(a.active && !a.preview && a.unsaved_mark);
    assert_eq!(a.status, None);
    let m = k.tab_chip(1);
    assert!(!m.active && m.preview && !m.unsaved_mark);
    assert_eq!(m.status, Some(FileStatus::Modified));
}

#[test]
fn commit_tree_search() {
    let mut k = Kyde::new();
    k.files = vec![
        ChangedFile { path: p("src/a.rs"), status: FileStatus::Modified },
        ChangedFile { path: p("docs/Readme.md"), status: FileStatus::Added },
    ];
    let tree = vec![row("src", true, 0), row("src/a.rs", false, 1), row("docs", true, 0), row("docs/Readme.md", false, 1)];
    // Root collapsed: only the root row.
    assert_eq!(rows_of(&k.commit_visible_rows(&tree, &b(""))), vec![("".to_string(), true, 0)]);
    k.commit.expanded = vec![p("")];
    assert_eq!(k.commit_visible_rows(&tree, &b("")).len(), 5);
    assert_eq!(
        rows_of(&k.commit_visible_rows(&tree, &b("  README "))),
        vec![("".to_string(), true, 0), ("docs".to_string(), true, 1), ("docs/Readme.md".to_string(), false, 2)]
    );
    assert_eq!(rows_of(&k.commit_visible_rows(&tree, &b("zzz"))), vec![("".to_string(), true, 0)]);
}

#[test]
fn tree_row_names() {
    let mut k = Kyde::new();
    let group = p("\u{1}scratches");
    assert_eq!(k.row_label(&p("")), b("/"));
    k.repo_root = Some(p("/home/me/kyde"));
    assert_eq!(k.row_label(&p("")), b("kyde"));
    assert_eq!(k.row_label(&p("src/main.rs")), b("main.rs"));
    assert_eq!(k.browse_row_label(&group, &group), b("Scratches"));
    assert_eq!(k.browse_row_label(&p("src"), &group), b("src"));
    k.files = vec![ChangedFile { path: p("a"), status: FileStatus::Added }, ChangedFile { path: p("b"), status: FileStatus::Added }];
    assert_eq!(k.rollback_heading(), b("Changes  2 files"));
}

#[test]
fn find_counter_label() {
    let mut k = Kyde::new();
    assert_eq!(k.find_label(), b("No results"));
    k.find.matches = vec![Span { start: 0, end: 1 }, Span { start: 2, end: 3 }];
    k.find.idx = 1;
    assert_eq!(k.find_label(), b("2/2"));
}

fn conflict(path: &str) -> kyde::model::ConflictEntry {
    kyde::model::ConflictEntry {
        path: p(path),
        ours: kyde::model::ConflictSide::Modified,
        theirs: kyde::model::ConflictSide::Modified,
    }
}

#[test]
fn merge_footer_states() {
    let mut k = Kyde::new();
    k.merge.files = vec![conflict("a"), conflict("b")];
    k.merge.resolved = vec![p("a")];
    let f = k.merge_footer(false);
    assert_eq!(f.progress, b("1 of 2 files resolved"));
    assert!(f.apply_label.is_none() && !f.commit);
    k.merge.resolved.push(p("b"));
    assert!(k.merge_footer(false).commit);
    assert_eq!(k.merge_footer(true).apply_label, Some(b("Apply")));
    k.merge.chunks = Some(Vec::new());
    k.merge.undecided = 3;
    assert_eq!(k.merge_footer(true).apply_label, Some(b("Apply (3 pending)")));
    assert!(!k.merge_footer(true).commit);
}

#[test]
fn delete_and_name_prompt_texts() {
    let mut k = Kyde::new();
    assert!(k.delete_modal().is_none() && k.name_prompt_labels().is_none());
    k.open_delete(p("src/old"), true);
    let (t, body) = k.delete_modal().unwrap();
    assert_eq!(t, b("Delete folder?"));
    assert_eq!(
        String::from_utf8(body).unwrap(),
        "“old” will be permanently deleted from disk. This can't be undone."
    );
    k.start_rename(p("src/a.rs"));
    assert_eq!(k.name_prompt_labels(), Some((b("Rename"), b("Rename"))));
    k.start_new_folder(p(""));
    assert_eq!(k.name_prompt_labels(), Some((b("New folder"), b("Create"))));
}

#[test]
fn shell_command_row_and_continue() {
    let mut k = Kyde::new();
    assert!(k.shell_command_row(&ShellCmdState::Unavailable).is_none());
    let row = k.shell_command_row(&ShellCmdState::Installed(b("kyde"))).unwrap();
    assert!(row.checked && !row.enabled);
    assert_eq!(String::from_utf8(row.label).unwrap(), "Shell command installed — run `kyde` in any terminal");
    let free = ShellCmdState::Available(b("ky"));
    let row = k.shell_command_row(&free).unwrap();
    assert!(!row.checked && row.enabled);
    assert_eq!(String::from_utf8(row.label).unwrap(), "Install `ky` command — open Kyde from any terminal");
    k.toggle_install_cmd(&ShellCmdState::Taken);
    assert!(!k.onboarding.install_cmd);
    k.toggle_install_cmd(&free);
    assert!(k.shell_command_row(&free).unwrap().checked);
    let taken = k.shell_command_row(&ShellCmdState::Taken).unwrap();
    assert!(!taken.checked && !taken.enabled);
    k.onboarding.open = true;
    k.onboarding.choice = 1;
    let (install, e) = k.onboarding_continue(&free);
    assert!(install);
    assert_eq!(e, vec![Effect::ApplyKeymap]);
    assert_eq!(k.keymap_preset, 1);
    assert!(!k.onboarding.open);
    let (install, _) = k.onboarding_continue(&ShellCmdState::Taken);
    assert!(!install);
}

#[test]
fn font_preview_plans() {
    let mut k = Kyde::new();
    assert!(matches!(k.font_preview_plan(true, true, &None), FontPreviewPlan::Clear));
    k.browse.open_path = Some(p("fonts/a.ttf"));
    assert!(matches!(k.font_preview_plan(true, false, &None), FontPreviewPlan::Clear));
    assert!(matches!(k.font_preview_plan(false, true, &None), FontPreviewPlan::Clear));
    k.repo_root = Some(p("/r"));
    match k.font_preview_plan(true, true, &None) {
        FontPreviewPlan::Load { abs, rel } => {
            assert_eq!(show(&abs), "/r/fonts/a.ttf");
            assert_eq!(show(&rel), "fonts/a.ttf");
        }
        _ => panic!("expected a load"),
    }
    assert!(matches!(k.font_preview_plan(true, true, &Some(p("fonts/a.ttf"))), FontPreviewPlan::Keep));
}

#[test]
fn git_init_flow() {
    let mut k = Kyde::new();
    assert!(k.do_git_init().is_none());
    k.repo_root = Some(p("/r"));
    assert_eq!(show(&k.do_git_init().unwrap()), "/r");
    assert_eq!(k.git_init_done(true), vec![Effect::Refresh]);
    assert!(k.git_init_done(false).is_empty());
}

#[test]
fn worktree_chip() {
    let mut k = Kyde::new();
    assert_eq!(k.worktree_chip_label(), b("(worktree)"));
    k.repo_root = Some(p("/w/agent-1"));
    assert_eq!(k.worktree_chip_label(), b("agent-1"));
}

#[test]
fn sorting_edits_only_what_changes() {
    let cur = b"b\na\n{\"z\": 1, \"a\": 2}\n".to_vec();
    // Outside an object the line sort decides, and the sorted block stays selected.
    let e = sort_lines_edit(&cur, None, Some((0, 4, b"a\nb\n".to_vec()))).unwrap();
    assert_eq!((e.start, e.end, e.sel_start, e.sel_end), (0, 4, 0, 4));
    assert_eq!(e.text, b"a\nb\n".to_vec());
    // Already sorted: no edit.
    assert!(sort_lines_edit(&cur, None, Some((0, 2, b"b\n".to_vec()))).is_none());
    // Inside an object the key sort wins, even when it changes nothing.
    let obj = (4usize, 20usize, b"{\"a\": 2, \"z\": 1}".to_vec());
    let e = sort_lines_edit(&cur, Some(obj.clone()), Some((0, 4, b"a\nb\n".to_vec()))).unwrap();
    assert_eq!((e.start, e.end, e.sel_start, e.sel_end), (4, 20, 4, 20));
    let same = (4usize, 20usize, b"{\"z\": 1, \"a\": 2}".to_vec());
    assert!(sort_lines_edit(&cur, Some(same.clone()), Some((0, 4, b"a\nb\n".to_vec()))).is_none());
    assert!(sort_keys_edit(&cur, Some(same)).is_none());
    assert!(sort_keys_edit(&cur, Some(obj)).is_some());
    assert!(sort_keys_edit(&cur, None).is_none());
    assert!(sort_lines_edit(&cur, None, None).is_none());
}
