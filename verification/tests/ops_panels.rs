use kyde::file_ops::PasteStep;
use kyde::finder::{rank_scores, PaletteAction};
use kyde::git_ops::{first_line_bytes, stage_partial_plan, PartialStage, RollbackOp, StageOp};
use kyde::merge::{PadAt, Tint};
use kyde::model::{
    ChangedFile, Chunk, ChunkKind, ContentHit, Effect, EventKind, FileStatus, FinderMode, HunkExclusion, Kyde,
    Mode, ModalKind, Resolution, SideState, TreeClip,
};
use kyde::names::path_from_bytes;
use kyde::panels::{content_hit_location, differences_label, gutter_controls, lh_event_title, merge_status_label};
use kyde::path::FsPath;

fn p(s: &str) -> FsPath {
    path_from_bytes(&s.as_bytes().to_vec())
}

fn show(x: &FsPath) -> String {
    String::from_utf8(x.display_bytes()).unwrap()
}

fn text(v: &[u8]) -> String {
    String::from_utf8(v.to_vec()).unwrap()
}

fn file(s: &str, status: FileStatus) -> ChangedFile {
    ChangedFile { path: p(s), status }
}

#[test]
fn display_joins_components() {
    assert_eq!(show(&p("/a/b/c.rs")), "/a/b/c.rs");
    assert_eq!(show(&p("x/y")), "x/y");
    assert_eq!(show(&p("")), "");
}

#[test]
fn rollback_plan_per_status() {
    let mut k = Kyde::new();
    k.repo_root = Some(p("/r"));
    k.files = vec![
        file("new.txt", FileStatus::Untracked),
        file("added.rs", FileStatus::Added),
        file("mod.rs", FileStatus::Modified),
        file("skip.rs", FileStatus::Modified),
    ];
    k.rollback_checked = vec![p("new.txt"), p("added.rs"), p("mod.rs")];
    let plan: Vec<(String, RollbackOp)> = k.rollback_plan().into_iter().map(|(f, o)| (show(&f), o)).collect();
    assert_eq!(
        plan,
        vec![
            ("new.txt".to_string(), RollbackOp::Nothing),
            ("added.rs".to_string(), RollbackOp::Unstage),
            ("mod.rs".to_string(), RollbackOp::Discard),
        ]
    );
    k.rollback_delete_added = true;
    let ops: Vec<RollbackOp> = k.rollback_plan().into_iter().map(|(_, o)| o).collect();
    assert_eq!(ops, vec![RollbackOp::Delete, RollbackOp::UnstageAndDelete, RollbackOp::Discard]);
    k.repo_root = None;
    assert!(k.rollback_plan().is_empty());
}

#[test]
fn rollback_failures_are_listed() {
    let mut k = Kyde::new();
    k.mode = Mode::Commit;
    let eff = k.rollback_done(&vec![p("a.rs"), p("src/b.rs")]);
    assert_eq!(eff, vec![Effect::CloseModal(ModalKind::Rollback), Effect::Refresh]);
    assert_eq!(text(k.pending_error.as_ref().unwrap()), "Rollback failed for 2 file(s): a.rs, src/b.rs");
    assert_eq!(k.mode, Mode::Browse);
    k.pending_error = None;
    k.rollback_done(&vec![]);
    assert!(k.pending_error.is_none());
}

#[test]
fn commit_plan_stages_checks_and_partial_hunks() {
    let mut k = Kyde::new();
    k.repo_root = Some(p("/r"));
    k.files = vec![file("a.rs", FileStatus::Modified), file("b.rs", FileStatus::Modified), file("c.rs", FileStatus::Added)];
    k.commit.checked = vec![p("a.rs"), p("b.rs")];
    k.commit.excluded_hunks = vec![HunkExclusion { path: p("b.rs"), hunks: vec![1] }];
    assert!(k.commit_now(&b"".to_vec()).is_none());
    assert!(k.commit_now(&b"  \n\t ".to_vec()).is_none());
    let plan = k.commit_now(&b"\n  Fix things\r\nMore detail \n".to_vec()).unwrap();
    assert_eq!(text(&plan.message), "Fix things\r\nMore detail");
    assert!(k.commit.committing);
    assert_eq!(text(&plan.label), "Commit: Fix things");
    assert!(matches!(plan.steps[0].1, StageOp::Stage));
    match &plan.steps[1].1 {
        StageOp::StagePartial(h) => assert_eq!(h, &vec![1]),
        _ => panic!("expected a partial stage"),
    }
    assert!(matches!(plan.steps[2].1, StageOp::Unstage));
    assert_eq!(plan.committed.len(), 2);
    assert!(k.commit_now(&b"again".to_vec()).is_none());
    let eff = k.commit_done(true);
    assert_eq!(eff, vec![Effect::ClearCommitMessage, Effect::SnapshotCommitted, Effect::Refresh, Effect::NormalizeGitTab]);
    assert!(k.commit.excluded_hunks.is_empty() && !k.commit.committing);
}

#[test]
fn partial_staging_masks_the_excluded_hunks() {
    match stage_partial_plan(3, &vec![1]) {
        PartialStage::StageMask(m) => assert_eq!(m, vec![true, false, true]),
        _ => panic!("expected a mask"),
    }
    assert!(matches!(stage_partial_plan(2, &vec![0, 1]), PartialStage::Unstage));
    assert!(matches!(stage_partial_plan(0, &vec![]), PartialStage::Unstage));
}

#[test]
fn first_lines_follow_str_lines() {
    assert_eq!(first_line_bytes(&b"subject\nbody".to_vec()), b"subject".to_vec());
    assert_eq!(first_line_bytes(&b"subject\r\nbody".to_vec()), b"subject".to_vec());
    assert_eq!(first_line_bytes(&b"one line\r".to_vec()), b"one line\r".to_vec());
}

#[test]
fn paste_plans_moves_and_copies() {
    let mut k = Kyde::new();
    k.repo_root = Some(p("/r"));
    k.browse.clipboard = Some(TreeClip { paths: vec![p("a/x.rs"), p("b/y.rs"), p("d")], cut: true });
    let (dest, steps) = k.paste_into(p("b"), false, &vec![]).unwrap();
    assert_eq!(show(&dest), "b");
    let got: Vec<String> = steps
        .iter()
        .map(|s| match s {
            PasteStep::Move { from, to } => format!("mv {} {}", show(from), show(to)),
            PasteStep::Copy { from, to } => format!("cp {} {}", show(from), show(to)),
        })
        .collect();
    // b/y.rs is already there; d is fine to move.
    assert_eq!(got, vec!["mv a/x.rs b/x.rs", "mv d b/d"]);
    assert!(k.browse.clipboard.is_none());
    k.browse.clipboard = Some(TreeClip { paths: vec![p("a/x.rs"), p("c/x.rs")], cut: false });
    let (dest, steps) = k.paste_into(p("b/file.txt"), true, &vec![b"x.rs".to_vec()]).unwrap();
    assert_eq!(show(&dest), "b");
    let got: Vec<String> = steps
        .iter()
        .map(|s| match s {
            PasteStep::Move { from, to } => format!("mv {} {}", show(from), show(to)),
            PasteStep::Copy { from, to } => format!("cp {} {}", show(from), show(to)),
        })
        .collect();
    assert_eq!(got, vec!["cp a/x.rs b/x copy.rs", "cp c/x.rs b/x copy 2.rs"]);
    assert!(k.browse.clipboard.is_some());
    k.browse.clipboard = None;
    assert!(k.paste_into(p("b"), false, &vec![]).is_none());
}

#[test]
fn a_cut_never_moves_into_itself() {
    let mut k = Kyde::new();
    k.browse.clipboard = Some(TreeClip { paths: vec![p("a")], cut: true });
    let (_, steps) = k.paste_into(p("a/inner"), false, &vec![]).unwrap();
    assert!(steps.is_empty());
}

#[test]
fn labels_and_counts() {
    assert_eq!(text(&differences_label(0)), "No differences");
    assert_eq!(text(&differences_label(1)), "1 difference");
    assert_eq!(text(&differences_label(12)), "12 differences");
    assert_eq!(text(&lh_event_title(EventKind::Label, &Some(b"Before revert".to_vec()))), "Before revert");
    assert_eq!(text(&lh_event_title(EventKind::External, &None)), "External change");
    assert_eq!(text(&lh_event_title(EventKind::Label, &None)), "Change");
    assert_eq!(text(&merge_status_label(1, 4)), "1 conflict remaining");
    assert_eq!(text(&merge_status_label(0, 2)), "2 changes pending");
    assert_eq!(text(&merge_status_label(0, 0)), "All changes resolved");
    let hit = ContentHit { path: p("src/lib.rs"), line: 42, text: vec![] };
    assert_eq!(text(&content_hit_location(&hit)), "src/lib.rs:42");
}

#[test]
fn gutter_rows_carry_their_hunks() {
    let starts = vec![false, true, false, true];
    let hunks = vec![None, Some(0), Some(0), Some(1)];
    assert_eq!(gutter_controls(&starts, &hunks, false), vec![(1, 0), (3, 1)]);
    assert!(gutter_controls(&starts, &hunks, true).is_empty());
}

#[test]
fn status_bar_chips() {
    let mut k = Kyde::new();
    let bar = k.status_bar();
    assert_eq!(text(&bar.branch), "(no branch)");
    assert!(bar.crumbs.is_empty() && bar.pull.is_none() && bar.push.is_none());
    assert_eq!(text(&bar.push_tip), "Push to origin");
    k.repo_root = Some(p("/work/kyde"));
    k.current_branch = Some(b"main".to_vec());
    k.open_file(p("src/views/tabs.rs"));
    k.sync.ahead = Some(2);
    k.sync.pulling = true;
    let bar = k.status_bar();
    let crumbs: Vec<String> = bar.crumbs.iter().map(|c| text(c)).collect();
    assert_eq!(crumbs, vec!["kyde", "src", "views", "tabs.rs"]);
    k.browse.selected_path = Some(p("/tmp/notes.md"));
    let crumbs: Vec<String> = k.status_bar().crumbs.iter().map(|c| text(c)).collect();
    assert_eq!(crumbs, vec!["kyde", "/", "tmp", "notes.md"]);
    k.browse.selected_path = None;
    let (pull, behind) = bar.pull.unwrap();
    assert_eq!((text(&pull), behind), ("Pulling…".to_string(), 0));
    let (push, ahead) = bar.push.unwrap();
    assert_eq!((text(&push), ahead), ("Push".to_string(), 2));
    assert!(!bar.worktree_chip);
}

#[test]
fn conflicts_list_rows_and_actions() {
    let mut k = Kyde::new();
    k.current_branch = Some(b"main".to_vec());
    k.merge.source = Some(b"topic".to_vec());
    k.merge.files = vec![
        kyde::model::ConflictEntry { path: p("a"), ours: kyde::model::ConflictSide::Modified, theirs: kyde::model::ConflictSide::Modified },
        kyde::model::ConflictEntry { path: p("b"), ours: kyde::model::ConflictSide::Modified, theirs: kyde::model::ConflictSide::Modified },
    ];
    assert_eq!(text(&k.conflicts_heading()), "Merging branch “topic” into branch “main”");
    k.merge.resolved = vec![p("a")];
    assert!(!k.click_conflict_row(0, 1));
    assert_eq!(k.conflict_rows(), vec![(true, false), (false, false)]);
    assert!(!k.merge_can_act());
    assert!(k.click_conflict_row(1, 2));
    assert_eq!(k.conflict_rows(), vec![(true, false), (false, true)]);
    assert!(k.merge_can_act());
    k.merge.busy = true;
    assert!(!k.merge_can_act());
    k.toggle_merge_compare_select();
    assert!(k.merge.compare_open);
    k.toggle_merge_ws_select();
    assert!(k.merge.ws_open && !k.merge.compare_open);
}

fn chunk(kind: ChunkKind, os: usize, ol: usize, ts: usize, tl: usize) -> Chunk {
    Chunk { kind, ours_start: os, ours_len: ol, theirs_start: ts, theirs_len: tl }
}

#[test]
fn merge_decorations_align_the_panes() {
    let mut k = Kyde::new();
    k.merge.files = vec![kyde::model::ConflictEntry {
        path: p("f"),
        ours: kyde::model::ConflictSide::Modified,
        theirs: kyde::model::ConflictSide::Modified,
    }];
    k.select_merge_file(0, vec![
        chunk(ChunkKind::Stable, 0, 2, 0, 2),
        chunk(ChunkKind::Conflict, 2, 1, 2, 3),
        chunk(ChunkKind::Ours, 3, 2, 5, 0),
    ]);
    k.merge_set_side(2, true, SideState::Applied);
    let d = k.merge_decorations(&vec![(0, 2), (2, 2), (2, 4)], &vec![true, false, true], 5, 4, 5);
    assert_eq!(d[0].ours_tint, None);
    assert_eq!(d[1].ours_tint, Some(Tint::Conflict));
    assert_eq!(d[1].result_tint, Some(Tint::Conflict));
    assert_eq!((d[1].ours_pad.rows, d[1].ours_pad.at), (2, PadAt::Before(3)));
    assert_eq!((d[1].result_pad.rows, d[1].result_pad.at), (3, PadAt::Before(2)));
    assert_eq!(d[1].theirs_pad.rows, 0);
    assert_eq!(d[2].ours_tint, Some(Tint::Modified));
    assert_eq!(d[2].result_tint, Some(Tint::Modified));
    assert_eq!(d[2].theirs_tint, None);
    assert_eq!((d[2].ours_pad.rows, d[2].ours_pad.at), (0, PadAt::End));
    assert_eq!((d[2].theirs_pad.rows, d[2].theirs_pad.at), (2, PadAt::End));
    let _ = Resolution { ours: SideState::Pending, theirs: SideState::Pending };
}

#[test]
fn conflicts_left_counts_unresolved_conflicts() {
    let mut k = Kyde::new();
    k.merge.files = vec![kyde::model::ConflictEntry {
        path: p("f"),
        ours: kyde::model::ConflictSide::Modified,
        theirs: kyde::model::ConflictSide::Modified,
    }];
    k.select_merge_file(0, vec![
        chunk(ChunkKind::Conflict, 0, 1, 0, 1),
        chunk(ChunkKind::Ours, 1, 1, 1, 0),
        chunk(ChunkKind::Conflict, 2, 1, 1, 1),
    ]);
    assert_eq!(k.merge_conflicts_left(&vec![false, false, true]), 1);
}

#[test]
fn ranking_is_best_first_with_ties_in_order() {
    let scores = vec![Some(5), None, Some(9), Some(5), Some(1)];
    assert_eq!(rank_scores(&scores, 10), vec![2, 0, 3, 4]);
    assert_eq!(rank_scores(&scores, 2), vec![2, 0]);
    assert!(rank_scores(&vec![None, None], 3).is_empty());
}

#[test]
fn go_to_file_ranks_fuzzy_matches() {
    let mut k = Kyde::new();
    k.browse.all_files = vec![p("README.md"), p("src/views/tabs.rs"), p("src/main.rs"), p("tests/tabs_test.rs")];
    k.act_go_to_file();
    k.recompute_finder(&b"".to_vec(), &vec![], &vec![], 3);
    let all: Vec<String> = k.finder.results.iter().map(show).collect();
    assert_eq!(all, vec!["README.md", "src/views/tabs.rs", "src/main.rs"]);
    k.recompute_finder(&b"tabs".to_vec(), &vec![], &vec![], 50);
    let got: Vec<String> = k.finder.results.iter().map(show).collect();
    assert_eq!(got.len(), 2);
    assert!(got.contains(&"src/views/tabs.rs".to_string()));
    assert!(got.contains(&"tests/tabs_test.rs".to_string()));
}

#[test]
fn palette_hides_file_actions_without_a_file() {
    let mut k = Kyde::new();
    k.act_actions();
    let palette = vec![
        (b"Go to File".to_vec(), PaletteAction::GoToFile),
        (b"Reveal in Finder".to_vec(), PaletteAction::RevealInFinder),
        (b"Fonts".to_vec(), PaletteAction::Fonts),
    ];
    k.recompute_finder(&b"".to_vec(), &palette, &vec![], 50);
    assert_eq!(k.finder.action_results, vec![0, 2]);
    k.open_file(p("a.rs"));
    k.recompute_finder(&b"".to_vec(), &palette, &vec![], 50);
    assert_eq!(k.finder.action_results, vec![0, 1, 2]);
    k.recompute_finder(&b"font".to_vec(), &palette, &vec![], 50);
    assert_eq!(k.finder.action_results, vec![2]);
    k.finder.mode = FinderMode::Content;
    assert!(k.recompute_finder(&b"".to_vec(), &palette, &vec![], 50).is_empty());
    assert_eq!(k.recompute_finder(&b"x".to_vec(), &palette, &vec![], 50), vec![Effect::SearchContent]);
}
