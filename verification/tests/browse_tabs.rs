use kyde::model::{Effect, Kyde, Mode};
use kyde::names::path_from_bytes;
use kyde::path::FsPath;

fn p(s: &str) -> FsPath {
    path_from_bytes(&s.as_bytes().to_vec())
}

fn show(x: &FsPath) -> String {
    let parts: Vec<String> = x.parts.iter().map(|b| String::from_utf8(b.clone()).unwrap()).collect();
    parts.join("/")
}

fn tabs(k: &Kyde) -> Vec<String> {
    k.browse.open_tabs.iter().map(show).collect()
}

fn open_of(k: &Kyde) -> Option<String> {
    k.browse.open_path.as_ref().map(show)
}

const OPENED: [Effect; 3] = [Effect::LoadOpenFile, Effect::ScrollTabIntoView, Effect::LoadFontPreview];

#[test]
fn open_file_appends_a_permanent_tab_once() {
    let mut k = Kyde::new();
    assert_eq!(k.open_file(p("a.rs")), OPENED.to_vec());
    k.open_file(p("b.rs"));
    k.open_file(p("a.rs"));
    assert_eq!(tabs(&k), vec!["a.rs", "b.rs"]);
    assert_eq!(open_of(&k), Some("a.rs".to_string()));
    assert!(k.browse.preview_tab.is_none());
}

#[test]
fn preview_replaces_the_previous_preview_in_place() {
    let mut k = Kyde::new();
    k.open_file(p("a.rs"));
    k.preview_file(p("b.rs"));
    k.open_file(p("c.rs"));
    k.preview_file(p("d.rs"));
    assert_eq!(tabs(&k), vec!["a.rs", "d.rs", "c.rs"]);
    assert_eq!(k.browse.preview_tab.as_ref().map(show), Some("d.rs".to_string()));
    // Opening the preview tab permanently promotes it.
    k.open_file(p("d.rs"));
    assert!(k.browse.preview_tab.is_none());
    assert_eq!(tabs(&k), vec!["a.rs", "d.rs", "c.rs"]);
}

#[test]
fn closing_the_active_tab_activates_its_right_neighbour() {
    let mut k = Kyde::new();
    k.open_file(p("a"));
    k.open_file(p("b"));
    k.open_file(p("c"));
    k.open_file(p("b"));
    let eff = k.close_tab(1);
    assert_eq!(tabs(&k), vec!["a", "c"]);
    assert_eq!(open_of(&k), Some("c".to_string()));
    assert_eq!(eff, OPENED.to_vec());
    // The last tab closes to the left.
    k.close_tab(1);
    assert_eq!(open_of(&k), Some("a".to_string()));
    assert_eq!(k.close_tab(0), vec![Effect::ClearEditor]);
    assert!(k.browse.open_path.is_none());
    assert!(k.browse.open_tabs.is_empty());
}

#[test]
fn closing_a_tab_past_the_end_changes_nothing() {
    let mut k = Kyde::new();
    k.open_file(p("a"));
    assert!(k.close_tab(5).is_empty());
    assert_eq!(tabs(&k), vec!["a"]);
}

#[test]
fn close_others_and_close_right() {
    let mut k = Kyde::new();
    for n in ["a", "b", "c", "d"] {
        k.open_file(p(n));
    }
    k.close_tabs_right(1);
    assert_eq!(tabs(&k), vec!["a", "b"]);
    assert_eq!(open_of(&k), Some("b".to_string()));
    k.open_file(p("e"));
    k.close_other_tabs(0);
    assert_eq!(tabs(&k), vec!["a"]);
    assert_eq!(open_of(&k), Some("a".to_string()));
}

#[test]
fn reveal_in_tree_expands_the_ancestors() {
    let mut k = Kyde::new();
    k.mode = Mode::Commit;
    k.open_file(p("src/views/tabs.rs"));
    let eff = k.reveal_in_tree();
    assert_eq!(eff, vec![Effect::ScrollTreeRow]);
    assert_eq!(k.mode, Mode::Browse);
    let mut exp: Vec<String> = k.browse.expanded.iter().map(show).collect();
    exp.sort();
    assert_eq!(exp, vec!["", "src", "src/views"]);
}

#[test]
fn reveal_without_a_file_does_nothing() {
    let mut k = Kyde::new();
    assert!(k.reveal_in_tree().is_empty());
    assert!(k.browse.expanded.is_empty());
}

#[test]
fn toggle_dir_flips_expansion() {
    let mut k = Kyde::new();
    k.toggle_dir(p("src"));
    assert_eq!(k.browse.expanded.len(), 1);
    k.toggle_dir(p("src"));
    assert!(k.browse.expanded.is_empty());
}

#[test]
fn sorting_needs_an_open_file_in_browse() {
    let mut k = Kyde::new();
    assert!(k.act_sort_lines().is_empty());
    k.open_file(p("a.json"));
    assert_eq!(k.act_sort_lines(), vec![Effect::SortLines]);
    assert_eq!(k.act_sort_keys(), vec![Effect::SortKeys]);
}
