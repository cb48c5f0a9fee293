use kyde::branch::same_dir;
use kyde::finder::{finder_placeholder, line_range, PaletteAction};
use kyde::model::{ContentHit, Effect, FinderMode, Kyde, ModalKind, Mode, Release, ReleaseNote, Worktree};
use kyde::names::path_from_bytes;
use kyde::notifications::UpdatePlan;
use kyde::path::FsPath;

fn p(s: &str) -> FsPath {
    path_from_bytes(&s.as_bytes().to_vec())
}

fn show(x: &FsPath) -> String {
    let parts: Vec<String> = x.parts.iter().map(|b| String::from_utf8(b.clone()).unwrap()).collect();
    let body = parts.join("/");
    if x.absolute {
        format!("/{body}")
    } else {
        body
    }
}

fn text(v: &[u8]) -> String {
    String::from_utf8(v.to_vec()).unwrap()
}

fn release(zip: &str, page: &str) -> Release {
    Release {
        version: b"1.2.0".to_vec(),
        zip_url: zip.as_bytes().to_vec(),
        sha256_url: b"https://x/sha".to_vec(),
        page_url: page.as_bytes().to_vec(),
    }
}

#[test]
fn update_plans() {
    let mut k = Kyde::new();
    assert!(matches!(k.do_update(true), UpdatePlan::Nothing));
    k.update_available = Some(release("", ""));
    match k.do_update(true) {
        UpdatePlan::OpenPage { url } => assert_eq!(text(&url), "https://github.com/kyle-ssg/kyde/releases/latest"),
        _ => panic!("expected the releases page"),
    }
    k.update_available = Some(release("https://x/app.zip", "https://x/page"));
    match k.do_update(true) {
        UpdatePlan::SwapBundle { zip_url, sha256_url } => {
            assert_eq!(text(&zip_url), "https://x/app.zip");
            assert_eq!(text(&sha256_url), "https://x/sha");
        }
        _ => panic!("expected an in-place swap"),
    }
    assert!(k.updating);
    assert!(matches!(k.do_update(false), UpdatePlan::Nothing));
    assert!(k.update_swapped(Err(b"disk full".to_vec())).is_empty());
    assert_eq!(text(k.op_error.as_ref().unwrap()), "Update failed: disk full");
    assert!(matches!(k.do_update(false), UpdatePlan::DownloadZip { .. }));
    assert!(k.update_downloaded(Err(b"offline".to_vec())).is_none());
    assert_eq!(text(k.op_error.as_ref().unwrap()), "Download failed: offline");
    k.dismiss_op_error();
    assert!(k.op_error.is_none());
    k.dismiss_update();
    assert!(k.update_available.is_none());
}

#[test]
fn crash_banner_reports_then_truncates() {
    let mut k = Kyde::new();
    k.pending_crash = Some(b"panic".to_vec());
    assert_eq!(
        k.report_crash(),
        (vec![Effect::OpenCrashReport, Effect::TruncateCrashLog], Some(b"panic".to_vec()))
    );
    assert!(k.pending_crash.is_none());
    assert_eq!(k.report_crash(), (vec![Effect::TruncateCrashLog], None));
}

#[test]
fn keymap_picker_and_settings() {
    let mut k = Kyde::new();
    k.keymap_preset = 1;
    k.open_keymap();
    assert!(k.onboarding.open);
    assert_eq!(k.onboarding.choice, 1);
    assert_eq!(k.choose_preset(0), vec![Effect::ApplyKeymap]);
    assert!(!k.onboarding.open);
    assert_eq!(k.keymap_preset, 0);
    k.settings_theme_open = true;
    assert_eq!(k.open_settings(), vec![Effect::OpenModal(ModalKind::Settings)]);
    assert!(!k.settings_theme_open);
    assert_eq!(k.theme_select(&vec![false, true, true]), Some(1));
    k.toggle_theme_select();
    assert!(k.settings_theme_open);
    assert!(!k.pick_theme(4, 3));
    assert!(!k.settings_theme_open);
}

#[test]
fn terminal_tabs_open_close_and_hide() {
    let mut k = Kyde::new();
    assert_eq!(
        k.act_toggle_terminal(false),
        vec![Effect::SpawnTerminal, Effect::RestoreTerminalMaximized, Effect::FocusTerminal]
    );
    assert!(k.term.open);
    assert_eq!(k.term.tab_count, 1);
    assert_eq!(k.act_new_terminal_tab(), vec![Effect::SpawnTerminal, Effect::FocusTerminal]);
    assert_eq!(k.term.active, 1);
    assert_eq!(k.act_toggle_terminal(false), vec![Effect::FocusTerminal]);
    assert_eq!(k.act_close_terminal_tab(), vec![Effect::FocusTerminal]);
    assert_eq!(k.term.tab_count, 1);
    assert_eq!(k.term.active, 0);
    assert_eq!(k.act_close_terminal_tab(), vec![Effect::FocusRoot]);
    assert!(!k.term.open);
    assert_eq!(k.term.tab_count, 0);
    assert!(!k.close_terminal_tab(0));
    k.act_toggle_terminal(false);
    k.term.maximized = true;
    assert_eq!(k.act_toggle_terminal(true), vec![Effect::FocusRoot]);
    assert!(!k.term.open && !k.term.maximized);
}

#[test]
fn closing_a_tab_left_of_the_active_keeps_the_same_shell() {
    let mut k = Kyde::new();
    k.term.open = true;
    k.new_terminal_tab();
    k.new_terminal_tab();
    k.new_terminal_tab();
    assert_eq!(k.term.active, 2);
    assert!(k.close_terminal_tab(0));
    assert_eq!(k.term.active, 1);
}

#[test]
fn finder_modes_and_palette() {
    let mut k = Kyde::new();
    assert_eq!(k.act_go_to_file(), vec![Effect::FocusFinderQuery, Effect::RecomputeFinder]);
    assert_eq!(k.finder.mode, FinderMode::Files);
    assert_eq!(text(&finder_placeholder(FinderMode::Content)), "Type to search file contents…");
    k.act_find_in_files();
    assert_eq!(k.finder.mode, FinderMode::Content);
    k.act_actions();
    assert_eq!(k.run_palette(PaletteAction::Fonts), vec![Effect::OpenModal(ModalKind::Fonts)]);
    assert!(!k.finder.open);
    assert_eq!(k.run_palette(PaletteAction::RevealInFinder), vec![Effect::FocusRoot]);
    k.open_file(p("a.rs"));
    assert_eq!(k.run_palette(PaletteAction::RevealInFinder), vec![Effect::FocusRoot, Effect::RevealInOs]);
    k.run_palette(PaletteAction::NewScratch);
    assert!(k.finder.open && k.finder.mode == FinderMode::Scratch);
    k.mode = Mode::Commit;
    assert_eq!(k.run_palette(PaletteAction::BrowseView), vec![Effect::FocusRoot]);
    assert_eq!(k.mode, Mode::Browse);
    assert_eq!(k.finder_close(), vec![Effect::FocusRoot]);
}

#[test]
fn confirming_a_content_hit_jumps_to_its_line() {
    let mut k = Kyde::new();
    k.act_find_in_files();
    k.finder.content_results = vec![ContentHit { path: p("src/x.rs"), line: 3, text: b"let y".to_vec() }];
    let (eff, line, ext) = k.finder_confirm(&vec![], &vec![]);
    assert_eq!(line, Some(2));
    assert!(ext.is_none());
    assert_eq!(eff.last(), Some(&Effect::FocusRoot));
    assert_eq!(k.browse.open_path.as_ref().map(show), Some("src/x.rs".to_string()));
    assert!(!k.finder.open);
}

#[test]
fn confirming_a_scratch_language_returns_its_extension() {
    let mut k = Kyde::new();
    k.repo_root = Some(p("/r"));
    k.act_new_scratch();
    k.finder.action_results = vec![1, 0];
    let exts = vec![b"md".to_vec(), b"json".to_vec()];
    let (eff, _, ext) = k.finder_confirm(&vec![], &exts);
    assert_eq!(eff, vec![Effect::FocusRoot, Effect::CreateScratch]);
    assert_eq!(ext, Some(b"json".to_vec()));
}

#[test]
fn line_ranges_exclude_the_newline() {
    let t = b"one\ntwo\n\nfour".to_vec();
    assert_eq!(line_range(&t, 0), (0, 3));
    assert_eq!(line_range(&t, 1), (4, 7));
    assert_eq!(line_range(&t, 2), (8, 8));
    assert_eq!(line_range(&t, 3), (9, 13));
    assert_eq!(line_range(&t, 9), (13, 13));
}

#[test]
fn content_search_generations() {
    let mut k = Kyde::new();
    k.repo_root = Some(p("/r"));
    k.act_find_in_files();
    assert!(k.schedule_content_search(&b"a".to_vec(), 2).0.is_empty());
    // Surrounding white space does not count toward the length, nor is it searched for.
    let (eff, q) = k.schedule_content_search(&b"  a \n".to_vec(), 2);
    assert!(eff.is_empty() && k.finder.content_results.is_empty());
    assert_eq!(q, b"a".to_vec());
    let (eff, q) = k.schedule_content_search(&b" abc ".to_vec(), 2);
    assert_eq!(eff, vec![Effect::SearchContent]);
    assert_eq!(q, b"abc".to_vec());
    let g = k.finder.search_gen;
    k.schedule_content_search(&b"abcd".to_vec(), 2);
    assert!(!k.content_search_current(g));
    k.content_search_done(g, vec![ContentHit { path: p("x"), line: 1, text: vec![] }]);
    assert!(k.finder.content_results.is_empty());
    k.content_search_done(k.finder.search_gen, vec![ContentHit { path: p("x"), line: 1, text: vec![] }]);
    assert_eq!(k.finder.content_results.len(), 1);
}

#[test]
fn changelog_feed_states() {
    let mut k = Kyde::new();
    assert_eq!(k.act_open_changelog(), vec![Effect::OpenModal(ModalKind::Changelog), Effect::LoadChangelog]);
    assert!(k.changelog.loading);
    assert!(k.load_changelog().is_empty());
    k.set_changelog(Ok(vec![]));
    assert_eq!(text(k.changelog.error.as_ref().unwrap()), "No releases published yet.");
    k.load_changelog();
    let notes = vec![
        ReleaseNote { version: b"2.0".to_vec(), body: b"# New".to_vec() },
        ReleaseNote { version: b"1.0".to_vec(), body: b"# Old".to_vec() },
    ];
    assert_eq!(k.set_changelog(Ok(notes)), vec![Effect::ShowChangelogBody]);
    assert_eq!(k.changelog.body, b"# New".to_vec());
    assert_eq!(k.select_changelog(1), vec![Effect::ShowChangelogBody]);
    assert_eq!(k.changelog.body, b"# Old".to_vec());
    assert!(k.select_changelog(2).is_empty());
    k.set_changelog(Err(b"offline".to_vec()));
    assert_eq!(k.changelog.notes.len(), 2);
    assert_eq!(text(k.changelog.error.as_ref().unwrap()), "offline");
    assert_eq!(k.open_changelog(), vec![Effect::OpenModal(ModalKind::Changelog)]);
}

#[test]
fn branch_popup_lists_and_sync() {
    let mut k = Kyde::new();
    k.repo_root = Some(p("/r"));
    k.worktree.popup_open = true;
    let eff = k.toggle_branch_popup(
        Some(vec![b"main".to_vec()]),
        Some(vec![b"origin/main".to_vec(), b"origin/dev".to_vec()]),
    );
    assert_eq!(eff, vec![Effect::FocusBranchQuery]);
    assert!(!k.worktree.popup_open && k.branch.popup_open);
    assert_eq!(k.branch.remotes, vec![b"dev".to_vec()]);
    assert_eq!(k.branch.expanded, vec![b"sec:recent".to_vec()]);
    k.toggle_branch_node(b"sec:recent".to_vec());
    assert!(k.branch.expanded.is_empty());
    assert_eq!(k.toggle_branch_popup(None, None), vec![Effect::FocusRoot]);
    assert_eq!(k.do_pull(), vec![Effect::Pull]);
    assert!(k.do_pull().is_empty());
    k.pull_done(Some(b"conflict".to_vec()));
    assert_eq!(text(k.pending_error.as_ref().unwrap()), "Pull failed: conflict");
    assert_eq!(k.do_fetch(), vec![Effect::Fetch]);
    k.fetch_done(Some(b"no network".to_vec()));
    assert_eq!(text(k.pending_error.as_ref().unwrap()), "Fetch failed: no network");
    assert_eq!(k.open_new_branch(), vec![Effect::OpenModal(ModalKind::NewBranch)]);
    assert!(k.new_branch_checkout && !k.new_branch_overwrite);
}

#[test]
fn checkout_jumps_to_the_worktree_holding_the_branch() {
    let mut k = Kyde::new();
    k.open_project(p("/r/main"));
    k.worktree.list = vec![
        Worktree { path: p("/r/main"), branch: Some(b"main".to_vec()), canonical: None, head: Vec::new() },
        Worktree { path: p("/r/agent"), branch: Some(b"feature".to_vec()), canonical: None, head: Vec::new() },
    ];
    assert_eq!(k.other_worktree_for_branch(&b"main".to_vec(), &None), None);
    assert_eq!(k.other_worktree_for_branch(&b"feature".to_vec(), &None), Some(1));
    let eff = k.checkout_branch(&b"feature".to_vec(), &None, false);
    assert_eq!(eff[0], Effect::FocusRoot);
    assert_eq!(k.repo_root.as_ref().map(show), Some("/r/agent".to_string()));
    assert!(k.checkout_branch(&b"main2".to_vec(), &None, true).is_empty());
    assert_eq!(k.checkout_branch(&b"main2".to_vec(), &None, false), vec![Effect::FocusRoot, Effect::CheckoutBranch]);
}

#[test]
fn worktree_switching_and_counts() {
    let mut k = Kyde::new();
    k.open_project(p("/r/main"));
    assert!(same_dir(&p("/tmp/x"), &p("/private/tmp/x"), &Some(p("/private/tmp/x")), &Some(p("/private/tmp/x"))));
    assert!(!same_dir(&p("/tmp/x"), &p("/tmp/y"), &None, &None));
    assert!(k.switch_worktree(p("/r/main"), &None, &None).is_empty());
    let eff = k.switch_worktree(p("/r/other"), &None, &None);
    assert_eq!(eff[0], Effect::TouchRecents);
    assert_eq!(k.toggle_worktree_popup(), vec![Effect::GatherWorktreeCounts]);
    let g = k.worktree.counts_gen;
    k.worktree_counts_done(g.wrapping_sub(1), vec![(p("/r/main"), 4)]);
    assert!(k.worktree.counts.is_empty());
    k.worktree_counts_done(g, vec![(p("/r/main"), 4)]);
    assert_eq!(k.worktree.counts.len(), 1);
    assert_eq!(k.toggle_worktree_popup(), vec![Effect::FocusRoot]);
}

#[test]
fn dropped_files_land_in_a_folder() {
    let mut k = Kyde::new();
    assert!(k.drop_external_paths(&vec![], p("src"), false).is_none());
    k.repo_root = Some(p("/r"));
    let dest = k.drop_external_paths(&vec![p("/Users/me/pic.png")], p("src/main.rs"), true).unwrap();
    assert_eq!(show(&dest), "src");
    let to = k.copy_external_into(&p("/Users/me/pic.png"), &dest, &vec![b"pic.png".to_vec()]).unwrap();
    assert_eq!(show(&to), "src/pic copy.png");
    let (src, dst) = k.copy_path(&p("a.txt"), &p("b/a.txt")).unwrap();
    assert_eq!((show(&src), show(&dst)), ("/r/a.txt".to_string(), "/r/b/a.txt".to_string()));
}
