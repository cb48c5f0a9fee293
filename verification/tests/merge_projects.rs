use kyde::branch::remote_only;
use kyde::merge::{conflict_entries_or_paths, AcceptPlan, MergeOutcome, MergeText};
use kyde::model::{
    Chunk, ChunkKind, ConflictEntry, ConflictSide, Effect, Kyde, MergeCompare, ModalKind, Mode, Resolution,
    SideState,
};
use kyde::names::path_from_bytes;
use kyde::path::FsPath;
use kyde::projects::recent_matches;

fn p(s: &str) -> FsPath {
    path_from_bytes(&s.as_bytes().to_vec())
}

fn show(x: &FsPath) -> String {
    let parts: Vec<String> = x.parts.iter().map(|b| String::from_utf8(b.clone()).unwrap()).collect();
    let body = parts.join("/");
    if x.absolute {
        format!("/{body}")
    } else {
        body
    }
}

fn text(v: &[u8]) -> String {
    String::from_utf8(v.to_vec()).unwrap()
}

fn entry(s: &str, ours: ConflictSide, theirs: ConflictSide) -> ConflictEntry {
    ConflictEntry { path: p(s), ours, theirs }
}

fn chunk(kind: ChunkKind, o: usize, t: usize) -> Chunk {
    Chunk { kind, ours_start: 0, ours_len: o, theirs_start: 0, theirs_len: t }
}

const PENDING: Resolution = Resolution { ours: SideState::Pending, theirs: SideState::Pending };

fn merging() -> Kyde {
    let mut k = Kyde::new();
    k.repo_root = Some(p("/r"));
    k.current_branch = Some(b"main".to_vec());
    k.merge.source = Some(b"feature".to_vec());
    k.merge.files = vec![
        entry("a.rs", ConflictSide::Modified, ConflictSide::Modified),
        entry("b.rs", ConflictSide::Deleted, ConflictSide::Modified),
    ];
    k
}

#[test]
fn merge_window_title_and_first_unresolved() {
    let mut k = merging();
    let (eff, title) = k.open_merge_window(None);
    assert_eq!(text(&title.unwrap()), "Merge “feature” into “main”");
    assert_eq!(eff, vec![Effect::OpenModal(ModalKind::Merge)]);
    assert_eq!(k.merge.list_sel, Some(0));
    k.finish_merge_file(p("a.rs"));
    assert_eq!(k.merge.list_sel, Some(1));
    k.finish_merge_file(p("b.rs"));
    assert_eq!(k.merge.list_sel, None);
    assert_eq!(k.first_unresolved(), None);
}

#[test]
fn source_label_falls_back_to_merge_head() {
    let mut k = Kyde::new();
    assert_eq!(text(&k.merge_source_label()), "MERGE_HEAD");
    k.merge.in_progress = Some(b"origin/dev".to_vec());
    assert_eq!(text(&k.merge_source_label()), "origin/dev");
}

#[test]
fn no_conflicts_means_no_window() {
    let mut k = Kyde::new();
    let (eff, title) = k.open_merge_window(Some(vec![]));
    assert!(eff.is_empty() && title.is_none());
}

#[test]
fn clean_apply_takes_pending_clean_sides_only_once() {
    let mut k = merging();
    k.select_merge_file(0, vec![
        chunk(ChunkKind::Stable, 2, 2),
        chunk(ChunkKind::Ours, 1, 0),
        chunk(ChunkKind::Theirs, 0, 3),
        chunk(ChunkKind::Same, 1, 1),
        chunk(ChunkKind::Conflict, 2, 2),
    ]);
    assert!(k.merge.res.iter().all(|r| *r == PENDING));
    k.merge_set_side(1, true, SideState::Ignored);
    k.merge_apply_clean(true, true);
    let once = k.merge.res.clone();
    assert_eq!(once[1].ours, SideState::Ignored);
    assert_eq!(once[2].theirs, SideState::Applied);
    assert_eq!(once[3].ours, SideState::Applied);
    assert_eq!(once[4], PENDING);
    k.merge_apply_clean(true, true);
    assert_eq!(k.merge.res, once);
}

#[test]
fn chunk_rows_span_the_longest_side() {
    let mut k = merging();
    k.select_merge_file(0, vec![
        chunk(ChunkKind::Stable, 2, 2),
        chunk(ChunkKind::Ours, 1, 0),
        chunk(ChunkKind::Conflict, 2, 4),
        chunk(ChunkKind::Stable, 1, 1),
        chunk(ChunkKind::Theirs, 0, 1),
    ]);
    let scroll = k.merge_result_loaded(vec![2, 1, 3, 1, 0], vec![true, true, false, true, false], 2, true, 1);
    assert_eq!(k.merge_chunk_rows(), vec![2, 3, 8]);
    // The first undecided chunk starts on row 3.
    assert_eq!(scroll, Some(2));
    assert_eq!(k.merge_pending(), 2);
    assert!(!k.merge_file_ready());
    assert!(k.merge_apply_file().is_none());
    assert_eq!(k.merge_nav_chunk(true, 0, 3), Some(5));
    assert_eq!(k.merge_nav_chunk(false, 0, 3), Some(0));
}

#[test]
fn apply_file_once_everything_is_decided() {
    let mut k = merging();
    k.select_merge_file(0, vec![chunk(ChunkKind::Ours, 1, 0)]);
    k.merge_result_loaded(vec![1], vec![true], 0, false, 3);
    assert!(k.merge_file_ready());
    assert_eq!(k.merge_apply_file().as_ref().map(show), Some("a.rs".to_string()));
    assert_eq!(k.finish_merge_file(p("a.rs")), vec![Effect::Refresh]);
    assert!(k.merge.selected.is_none() && k.merge.chunks.is_none());
    // A resolved file does not open again.
    assert!(k.select_merge_file(0, vec![]).is_empty());
    assert!(k.merge_file_to_open(0).is_none());
}

#[test]
fn accepting_a_deleted_side_deletes_the_file() {
    let mut k = merging();
    k.merge.list_sel = Some(1);
    let (path, plan) = k.merge_accept_file(true).unwrap();
    assert_eq!(show(&path), "b.rs");
    assert_eq!(plan, AcceptPlan::Delete);
    let (_, plan) = k.merge_accept_file(false).unwrap();
    assert_eq!(plan, AcceptPlan::TakeStage(3));
}

#[test]
fn compare_pairs_and_their_labels() {
    let mut k = merging();
    assert!(k.compare_pair().is_none());
    assert_eq!(k.merge_set_compare(MergeCompare::LeftRight), vec![Effect::LoadMergeComparePanes]);
    let (l, r, ll, rl) = k.compare_pair().unwrap();
    assert_eq!((l, r), (MergeText::Ours, MergeText::Theirs));
    assert_eq!(text(&ll), "Yours — main");
    assert_eq!(text(&rl), "Theirs — feature");
    assert!(k.merge_set_compare(MergeCompare::LeftMiddle).is_empty());
    k.merge_set_compare(MergeCompare::BaseMiddle);
    let (l, r, ll, rl) = k.compare_pair().unwrap();
    assert_eq!((l, r, text(&ll), text(&rl)), (MergeText::Base, MergeText::Result, "Base".to_string(), "Result".to_string()));
}

#[test]
fn branch_merge_outcomes() {
    let mut k = merging();
    k.merge.source = None;
    let (eff, target) = k.menu_merge_branch(b"topic".to_vec());
    assert_eq!(eff, vec![Effect::MergeBranch]);
    assert_eq!(text(&target), "main");
    assert!(k.menu_merge_branch(b"again".to_vec()).0.is_empty());
    let (eff, _) = k.merge_branch_done(&b"topic".to_vec(), &target, MergeOutcome::Merged, None);
    assert_eq!(eff, vec![Effect::Refresh]);
    assert_eq!(text(k.merge.note.as_ref().unwrap()), "Merged “topic” into “main”.");
    k.merge_branch_done(&b"topic".to_vec(), &target, MergeOutcome::UpToDate, None);
    assert_eq!(text(k.merge.note.as_ref().unwrap()), "Already up to date — nothing to merge from “topic”.");
    k.merge.files.clear();
    let (eff, title) =
        k.merge_branch_done(&b"topic".to_vec(), &target, MergeOutcome::Conflicts(vec![p("x.rs")]), Some(vec![]));
    assert_eq!(eff, vec![Effect::OpenModal(ModalKind::Merge), Effect::Refresh]);
    assert!(title.is_some());
    assert_eq!(k.merge.files.len(), 1);
    assert_eq!(k.merge.files[0].ours, ConflictSide::Modified);
}

#[test]
fn commit_and_abort_clear_the_session() {
    let mut k = merging();
    let (eff, note) = k.merge_commit();
    assert_eq!(eff, vec![Effect::CommitMerge]);
    assert_eq!(text(&note), "Merged “feature” into “main”.");
    assert!(k.merge_abort_op().is_empty());
    assert_eq!(k.merge_commit_done(true, note), vec![Effect::CloseModal(ModalKind::Merge), Effect::Refresh]);
    assert!(k.merge.files.is_empty() && k.merge.source.is_none() && !k.merge.busy);
    assert_eq!(k.merge_abort_op(), vec![Effect::AbortMerge]);
    assert_eq!(k.merge_abort_done(false), vec![Effect::Refresh]);
}

#[test]
fn conflict_entries_fall_back_to_modified_pairs() {
    let got = conflict_entries_or_paths(None, vec![p("a"), p("b")]);
    assert_eq!(got.len(), 2);
    assert!(got.iter().all(|e| e.ours == ConflictSide::Modified && e.theirs == ConflictSide::Modified));
    let given = conflict_entries_or_paths(Some(vec![entry("z", ConflictSide::Added, ConflictSide::Deleted)]), vec![p("a")]);
    assert_eq!(given.len(), 1);
    assert_eq!(given[0].theirs, ConflictSide::Deleted);
}

#[test]
fn open_conflicted_file_and_resolve_from_banner() {
    let mut k = merging();
    k.files = vec![kyde::model::ChangedFile { path: p("b.rs"), status: kyde::model::FileStatus::Conflict }];
    k.open_file(p("b.rs"));
    assert_eq!(k.open_file_conflict().as_ref().map(show), Some("b.rs".to_string()));
    let (_, _, idx) = k.resolve_conflict_for(&p("b.rs"), None);
    assert_eq!(idx, Some(1));
}

#[test]
fn remote_branches_offered_once_and_never_local() {
    let remotes = vec![b"origin/main".to_vec(), b"origin/feat/x".to_vec(), b"upstream/feat/x".to_vec(), b"HEAD".to_vec()];
    let local = vec![b"main".to_vec()];
    assert_eq!(remote_only(&remotes, &local), vec![b"feat/x".to_vec()]);
}

fn show_tabs(k: &Kyde) -> Vec<String> {
    k.browse.open_tabs.iter().map(show).collect()
}

#[test]
fn switching_projects_restores_each_session() {
    let mut k = Kyde::new();
    k.open_project(p("/p/one"));
    assert_eq!(k.browse.expanded.len(), 1);
    k.open_file(p("a.rs"));
    k.preview_file(p("b.rs"));
    k.mode = Mode::Commit;
    k.selected = Some(3);
    k.open_project(p("/p/two"));
    assert_eq!(k.mode, Mode::Browse);
    assert!(k.browse.open_tabs.is_empty());
    k.open_file(p("z.rs"));
    k.open_project(p("/p/one"));
    assert_eq!(k.mode, Mode::Commit);
    assert_eq!(show_tabs(&k), vec!["a.rs", "b.rs"]);
    assert_eq!(k.browse.open_path.as_ref().map(show), Some("b.rs".to_string()));
    assert_eq!(k.browse.preview_tab.as_ref().map(show), Some("b.rs".to_string()));
    assert_eq!(k.selected, Some(3));
    assert_eq!(k.open_projects.len(), 2);
    k.open_project(p("/p/two"));
    assert_eq!(show_tabs(&k), vec!["z.rs"]);
}

#[test]
fn closing_the_active_project_moves_to_a_neighbour() {
    let mut k = Kyde::new();
    k.open_project(p("/p/one"));
    k.open_project(p("/p/two"));
    k.open_project(p("/p/three"));
    k.open_project(p("/p/two"));
    k.close_project(&p("/p/two"));
    assert_eq!(k.repo_root.as_ref().map(show), Some("/p/three".to_string()));
    k.close_project(&p("/p/three"));
    assert_eq!(k.repo_root.as_ref().map(show), Some("/p/one".to_string()));
    k.close_project(&p("/p/one"));
    assert!(k.repo_root.is_none());
    assert!(k.close_project(&p("/p/none")).is_empty());
}

#[test]
fn recent_project_paths_parse_and_open() {
    let mut k = Kyde::new();
    let eff = k.open_recent_project(&b"/home/me/code/".to_vec());
    assert_eq!(eff[0], Effect::TouchRecents);
    assert_eq!(k.repo_root.as_ref().map(show), Some("/home/me/code".to_string()));
    assert_eq!(k.act_open_project(), vec![Effect::PickFolder]);
}

fn session_roots(k: &Kyde) -> Vec<String> {
    k.project_sessions.iter().map(|e| show(&e.root)).collect()
}

#[test]
fn switching_keeps_the_left_project_and_its_session() {
    let mut k = Kyde::new();
    k.open_project(p("/p/one"));
    k.open_file(p("a.rs"));
    k.open_project(p("/p/two"));
    assert_eq!(session_roots(&k), vec!["/p/one"]);
    let one = &k.project_sessions[0].session;
    assert_eq!(one.open_tabs.iter().map(show).collect::<Vec<_>>(), vec!["a.rs"]);
    let opened: Vec<String> = k.open_projects.iter().map(show).collect();
    assert_eq!(opened, vec!["/p/one", "/p/two"]);
    // Going back restores /p/one and drops its saved entry; /p/two's is saved now.
    k.open_project(p("/p/one"));
    assert_eq!(session_roots(&k), vec!["/p/two"]);
    let opened: Vec<String> = k.open_projects.iter().map(show).collect();
    assert_eq!(opened, vec!["/p/one", "/p/two"]);
    // Closing a project forgets its saved session.
    k.close_project(&p("/p/two"));
    assert!(k.project_sessions.is_empty());
    assert_eq!(k.repo_root.as_ref().map(show), Some("/p/one".to_string()));
}

#[test]
fn recent_projects_filter_by_name_or_path() {
    let recents = vec![p("/home/me/Kyde"), p("/work/notes"), p("/srv/KYDE-docs/site")];
    let all: Vec<String> = recent_matches(&recents, &b"".to_vec()).iter().map(show).collect();
    assert_eq!(all.len(), 3);
    let by_name: Vec<String> = recent_matches(&recents, &b"KyDe".to_vec()).iter().map(show).collect();
    assert_eq!(by_name, vec!["/home/me/Kyde", "/srv/KYDE-docs/site"]);
    let by_path: Vec<String> = recent_matches(&recents, &b"WORK/".to_vec()).iter().map(show).collect();
    assert_eq!(by_path, vec!["/work/notes"]);
    assert!(recent_matches(&recents, &b"zzz".to_vec()).is_empty());
}
