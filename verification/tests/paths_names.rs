use kyde::bytes::{decimal, split_name};
use kyde::names::{path_from_bytes, unique_name};
use kyde::path::{remap_under, toggle_path, FsPath};

fn p(s: &str) -> FsPath {
    path_from_bytes(&s.as_bytes().to_vec())
}

fn show(x: &FsPath) -> String {
    let parts: Vec<String> = x.parts.iter().map(|b| String::from_utf8(b.clone()).unwrap()).collect();
    let body = parts.join("/");
    if x.absolute {
        format!("/{body}")
    } else {
        body
    }
}

fn bytes(s: &str) -> Vec<u8> {
    s.as_bytes().to_vec()
}

#[test]
fn path_parsing_drops_empty_and_dot_components() {
    assert_eq!(show(&p("a//b/./c/")), "a/b/c");
    assert_eq!(show(&p("/usr/lib")), "/usr/lib");
    assert!(p("").is_empty());
}

#[test]
fn join_parent_and_file_name() {
    let base = p("src");
    let joined = base.join(&p("views/tabs.rs"));
    assert_eq!(show(&joined), "src/views/tabs.rs");
    assert_eq!(show(&joined.parent().unwrap()), "src/views");
    assert_eq!(joined.file_name().unwrap(), bytes("tabs.rs"));
    // An absolute right side replaces the base.
    assert_eq!(show(&base.join(&p("/etc"))), "/etc");
    assert!(p("").parent().is_none());
}

#[test]
fn starts_with_is_component_wise() {
    assert!(p("src/views/a.rs").starts_with(&p("src/views")));
    assert!(!p("src/viewsx/a.rs").starts_with(&p("src/views")));
    assert!(p("anything").starts_with(&p("")));
}

#[test]
fn remap_moves_descendants_and_round_trips() {
    let old = p("src/old");
    let new = p("lib/new");
    let moved = remap_under(&p("src/old/x/y.rs"), &old, &new).unwrap();
    assert_eq!(show(&moved), "lib/new/x/y.rs");
    let back = remap_under(&moved, &new, &old).unwrap();
    assert_eq!(show(&back), "src/old/x/y.rs");
    assert_eq!(show(&remap_under(&old, &old, &new).unwrap()), "lib/new");
    assert!(remap_under(&p("src/other.rs"), &old, &new).is_none());
}

#[test]
fn toggling_a_path_twice_restores_the_set() {
    let mut v = vec![p("a"), p("b")];
    toggle_path(&mut v, p("c"));
    assert_eq!(v.len(), 3);
    toggle_path(&mut v, p("c"));
    assert_eq!(v.iter().map(show).collect::<Vec<_>>(), vec!["a", "b"]);
}

#[test]
fn split_name_keeps_dotfiles_whole_and_rejoins() {
    assert_eq!(split_name(&bytes("main.rs")), (bytes("main"), bytes(".rs")));
    assert_eq!(split_name(&bytes(".gitignore")), (bytes(".gitignore"), bytes("")));
    assert_eq!(split_name(&bytes("archive.tar.gz")), (bytes("archive.tar"), bytes(".gz")));
    let (stem, ext) = split_name(&bytes("notes.md"));
    assert_eq!([stem, ext].concat(), bytes("notes.md"));
}

#[test]
fn decimal_digits() {
    assert_eq!(decimal(0), bytes("0"));
    assert_eq!(decimal(407), bytes("407"));
}

#[test]
fn unique_name_counts_copies_finder_style() {
    let taken = vec![bytes("a.txt"), bytes("a copy.txt"), bytes("a copy 2.txt")];
    assert_eq!(unique_name(&bytes("b.txt"), &taken), bytes("b.txt"));
    assert_eq!(unique_name(&bytes("a.txt"), &taken), bytes("a copy 3.txt"));
    assert_eq!(unique_name(&bytes("a.txt"), &vec![bytes("a.txt")]), bytes("a copy.txt"));
}
