//! The editor tab strip's close operations.
use vstd::prelude::*;
use crate::browse::{opt_view, lemma_has_path_contains};
use crate::model::{BrowseState, Effect, FileStatus, Kyde};
use crate::path::{contains_path, file_name_v, position_path, FsPath, PathV};

verus! {

/// The tab that becomes active when the active tab at `idx` closes: its right neighbour
/// (now at `idx`), else its left one, else none.
pub open spec fn close_neighbor(rest: Seq<PathV>, idx: int) -> Option<PathV> {
    if idx < rest.len() {
        Some(rest[idx])
    } else if idx > 0 && idx - 1 < rest.len() {
        Some(rest[idx - 1])
    } else {
        None
    }
}

impl Kyde {
    /// Close the tab at `idx`. If it was active, its right neighbour becomes active (else
    /// the left one, else nothing is open). Closing the preview tab empties the slot.
    #[verifier::rlimit(40)]
    pub fn close_tab(&mut self, idx: usize) -> (effects: Vec<Effect>)
        ensures
            idx >= old(self).browse.open_tabs@.len() ==> *final(self) == *old(self)
                && effects@.len() == 0,
            idx < old(self).browse.open_tabs@.len() ==> {
                let tabs = old(self).browse.tabs_v();
                let closing = tabs[idx as int];
                let rest = tabs.remove(idx as int);
                let prev1 = if opt_view(old(self).browse.preview_tab) == Some(closing) {
                    None
                } else {
                    opt_view(old(self).browse.preview_tab)
                };
                &&& final(self).browse.tabs_v() == rest
                &&& !final(self).menu_open
                &&& if opt_view(old(self).browse.open_path) == Some(closing) {
                    match close_neighbor(rest, idx as int) {
                        Some(n) => {
                            &&& opt_view(final(self).browse.open_path) == Some(n)
                            &&& opt_view(final(self).browse.selected_path) == Some(n)
                            &&& opt_view(final(self).browse.preview_tab) == (if prev1 == Some(n) {
                                None
                            } else {
                                prev1
                            })
                            &&& effects@ == seq![
                                Effect::LoadOpenFile,
                                Effect::ScrollTabIntoView,
                                Effect::LoadFontPreview,
                            ]
                        },
                        None => {
                            &&& final(self).browse.open_path is None
                            &&& opt_view(final(self).browse.preview_tab) == prev1
                            &&& effects@ == seq![Effect::ClearEditor]
                        },
                    }
                } else {
                    &&& opt_view(final(self).browse.open_path) == opt_view(
                        old(self).browse.open_path,
                    )
                    &&& opt_view(final(self).browse.preview_tab) == prev1
                    &&& effects@.len() == 0
                }
            },
            old(self).browse.wf() ==> final(self).browse.wf(),
    {
        if idx >= self.browse.open_tabs.len() {
            return Vec::new();
        }
        let ghost rest = old(self).browse.tabs_v().remove(idx as int);
        let closing = self.remove_tab_at(idx);
        let active = match &self.browse.open_path {
            Some(p) => p.same(&closing),
            None => false,
        };
        let mut effects: Vec<Effect> = Vec::new();
        if active {
            let n = self.browse.open_tabs.len();
            let next: Option<FsPath> = if idx < n {
                Some(self.browse.open_tabs[idx].duplicate())
            } else if idx > 0 && idx - 1 < n {
                Some(self.browse.open_tabs[idx - 1].duplicate())
            } else {
                None
            };
            match next {
                Some(p) => {
                    assert(rest.contains(p@)) by {
                        if idx < n {
                            assert(rest[idx as int] == p@);
                        } else {
                            assert(rest[idx - 1] == p@);
                        }
                    }
                    effects = self.open_file(p);
                },
                None => {
                    self.browse.open_path = None;
                    effects.push(Effect::ClearEditor);
                },
            }
        }
        self.menu_open = false;
        effects
    }

    /// Remove the tab at `idx`, emptying the preview slot if it held that tab.
    fn remove_tab_at(&mut self, idx: usize) -> (closing: FsPath)
        requires
            idx < old(self).browse.open_tabs@.len(),
        ensures
            closing@ == old(self).browse.tabs_v()[idx as int],
            final(self).browse.tabs_v() == old(self).browse.tabs_v().remove(idx as int),
            opt_view(final(self).browse.preview_tab) == if opt_view(old(self).browse.preview_tab)
                == Some(closing@) {
                None
            } else {
                opt_view(old(self).browse.preview_tab)
            },
            final(self).browse.open_path == old(self).browse.open_path,
            final(self).browse.selected_path == old(self).browse.selected_path,
            final(self).menu_open == old(self).menu_open,
            old(self).browse.wf() ==> {
                let rest = final(self).browse.tabs_v();
                &&& forall|i: int, j: int| 0 <= i < j < rest.len() ==> rest[i] != rest[j]
                &&& (opt_view(final(self).browse.preview_tab) matches Some(p) ==> rest.contains(
                    p,
                ))
                &&& (opt_view(final(self).browse.open_path) matches Some(a) ==> (a == closing@
                    || rest.contains(a)))
            },
    {
        let ghost tabs = self.browse.tabs_v();
        let ghost wf0 = self.browse.wf();
        let closing = self.browse.open_tabs.remove(idx);
        assert(self.browse.tabs_v() =~= tabs.remove(idx as int));
        let pv = match &self.browse.preview_tab {
            Some(p) => p.same(&closing),
            None => false,
        };
        if pv {
            self.browse.preview_tab = None;
        }
        let ghost rest = self.browse.tabs_v();
        proof {
            if wf0 {
                assert forall|i: int, j: int| 0 <= i < j < rest.len() implies rest[i]
                    != rest[j] by {
                    let oi = if i < idx { i } else { i + 1 };
                    let oj = if j < idx { j } else { j + 1 };
                    assert(rest[i] == tabs[oi] && rest[j] == tabs[oj]);
                }
                if let Some(p) = opt_view(self.browse.preview_tab) {
                    let w = choose|w: int| 0 <= w < tabs.len() && tabs[w] == p;
                    assert(w != idx);
                    if w < idx {
                        assert(rest[w] == p);
                    } else {
                        assert(rest[w - 1] == p);
                    }
                }
                if let Some(a) = opt_view(self.browse.open_path) {
                    let w = choose|w: int| 0 <= w < tabs.len() && tabs[w] == a;
                    if w < idx {
                        assert(rest[w] == a);
                    } else if w > idx {
                        assert(rest[w - 1] == a);
                    }
                }
            }
        }
        closing
    }

    /// Close every tab except the one at `idx`, and make it the active (permanent) tab.
    pub fn close_other_tabs(&mut self, idx: usize) -> (effects: Vec<Effect>)
        ensures
            idx >= old(self).browse.open_tabs@.len() ==> *final(self) == *old(self)
                && effects@.len() == 0,
            idx < old(self).browse.open_tabs@.len() ==> {
                let keep = old(self).browse.tabs_v()[idx as int];
                &&& final(self).browse.tabs_v() == seq![keep]
                &&& final(self).browse.preview_tab is None
                &&& opt_view(final(self).browse.open_path) == Some(keep)
                &&& opt_view(final(self).browse.selected_path) == Some(keep)
                &&& !final(self).menu_open
                &&& effects@ == seq![
                    Effect::LoadOpenFile,
                    Effect::ScrollTabIntoView,
                    Effect::LoadFontPreview,
                ]
            },
            idx < old(self).browse.open_tabs@.len() ==> final(self).browse.wf(),
    {
        if idx >= self.browse.open_tabs.len() {
            return Vec::new();
        }
        let keep = self.browse.open_tabs[idx].duplicate();
        let mut tabs: Vec<FsPath> = Vec::new();
        tabs.push(keep.duplicate());
        self.browse.open_tabs = tabs;
        assert(self.browse.tabs_v() =~= seq![keep@]);
        let stale = match &self.browse.preview_tab {
            Some(p) => !p.same(&keep),
            None => false,
        };
        if stale {
            self.browse.preview_tab = None;
        }
        assert(self.browse.tabs_v().contains(keep@)) by {
            assert(self.browse.tabs_v()[0] == keep@);
        }
        let effects = self.open_file(keep);
        self.menu_open = false;
        effects
    }

    /// Close every tab right of `idx`. If the active tab was among them, the tab at `idx`
    /// becomes active; a preview slot pointing at a closed tab empties.
    #[verifier::rlimit(60)]
    pub fn close_tabs_right(&mut self, idx: usize) -> (effects: Vec<Effect>)
        ensures
            !final(self).menu_open,
            idx + 1 >= old(self).browse.open_tabs@.len() ==> final(self).browse
                == old(self).browse && effects@.len() == 0,
            idx + 1 < old(self).browse.open_tabs@.len() ==> {
                let tabs = old(self).browse.tabs_v();
                let kept = tabs.subrange(0, idx + 1);
                let prev1 = match opt_view(old(self).browse.preview_tab) {
                    Some(p) => if kept.contains(p) {
                        Some(p)
                    } else {
                        None
                    },
                    None => None,
                };
                let active_removed = match opt_view(old(self).browse.open_path) {
                    Some(a) => tabs.contains(a) && first_index_of(tabs, a) > idx,
                    None => false,
                };
                &&& final(self).browse.tabs_v() == kept
                &&& if active_removed {
                    &&& opt_view(final(self).browse.open_path) == Some(tabs[idx as int])
                    &&& opt_view(final(self).browse.selected_path) == Some(tabs[idx as int])
                    &&& opt_view(final(self).browse.preview_tab) == (if prev1 == Some(
                        tabs[idx as int],
                    ) {
                        None
                    } else {
                        prev1
                    })
                    &&& effects@ == seq![
                        Effect::LoadOpenFile,
                        Effect::ScrollTabIntoView,
                        Effect::LoadFontPreview,
                    ]
                } else {
                    &&& opt_view(final(self).browse.open_path) == opt_view(
                        old(self).browse.open_path,
                    )
                    &&& opt_view(final(self).browse.preview_tab) == prev1
                    &&& effects@.len() == 0
                }
            },
            old(self).browse.wf() ==> final(self).browse.wf(),
            *final(self) == (Kyde { menu_open: final(self).menu_open, browse: final(self).browse, ..*old(self) }),
    {
        let n = self.browse.open_tabs.len();
        if n == 0 || idx >= n - 1 {
            self.menu_open = false;
            return Vec::new();
        }
        let ghost tabs = self.browse.tabs_v();
        let active_removed = self.active_tab_after(idx);
        self.truncate_tabs(idx);
        let ghost kept = self.browse.tabs_v();
        let mut effects: Vec<Effect> = Vec::new();
        if active_removed {
            let p = self.browse.open_tabs[idx].duplicate();
            assert(kept.contains(p@)) by {
                assert(kept[idx as int] == p@);
            }
            assert(kept == tabs.subrange(0, idx + 1));
            assert(kept[idx as int] == tabs[idx as int]);
            assert(p@ == tabs[idx as int]);
            effects = self.open_file(p);
        }
        self.menu_open = false;
        effects
    }

    /// Whether the active tab sits right of `idx`.
    fn active_tab_after(&self, idx: usize) -> (r: bool)
        ensures
            r == match opt_view(self.browse.open_path) {
                Some(a) => self.browse.tabs_v().contains(a) && first_index_of(
                    self.browse.tabs_v(),
                    a,
                ) > idx,
                None => false,
            },
    {
        match &self.browse.open_path {
            Some(a) => {
                proof {
                    lemma_has_path_contains(self.browse.open_tabs@, a@);
                }
                match position_path(&self.browse.open_tabs, a) {
                    Some(pos) => {
                        proof {
                            crate::browse::lemma_first_index(self.browse.tabs_v(), a@, pos as int);
                        }
                        pos > idx
                    },
                    None => false,
                }
            },
            None => false,
        }
    }

    /// Keep the tabs up to `idx`; a preview slot pointing at a dropped tab empties.
    fn truncate_tabs(&mut self, idx: usize)
        requires
            idx + 1 < old(self).browse.open_tabs@.len(),
        ensures
            final(self).browse.tabs_v() == old(self).browse.tabs_v().subrange(0, idx + 1),
            opt_view(final(self).browse.preview_tab) == match opt_view(
                old(self).browse.preview_tab,
            ) {
                Some(p) => if old(self).browse.tabs_v().subrange(0, idx + 1).contains(p) {
                    Some(p)
                } else {
                    None
                },
                None => None,
            },
            final(self).browse.open_path == old(self).browse.open_path,
            final(self).browse.selected_path == old(self).browse.selected_path,
            final(self).menu_open == old(self).menu_open,
            *final(self) == (Kyde {
                browse: BrowseState {
                    open_tabs: final(self).browse.open_tabs,
                    preview_tab: final(self).browse.preview_tab,
                    ..old(self).browse
                },
                ..*old(self)
            }),
            old(self).browse.wf() ==> {
                let kept = final(self).browse.tabs_v();
                let tabs = old(self).browse.tabs_v();
                &&& forall|i: int, j: int| 0 <= i < j < kept.len() ==> kept[i] != kept[j]
                &&& (opt_view(final(self).browse.preview_tab) matches Some(p) ==> kept.contains(
                    p,
                ))
                &&& (opt_view(final(self).browse.open_path) matches Some(a) ==> (first_index_of(
                    tabs,
                    a,
                ) > idx || kept.contains(a)))
            },
    {
        let ghost tabs = self.browse.tabs_v();
        let ghost wf0 = self.browse.wf();
        let n = self.browse.open_tabs.len();
        assert(idx + 1 < n);
        self.browse.open_tabs.truncate(idx + 1);
        let ghost kept = self.browse.tabs_v();
        assert(kept =~= tabs.subrange(0, idx + 1));
        let stale = match &self.browse.preview_tab {
            Some(p) => {
                proof {
                    lemma_has_path_contains(self.browse.open_tabs@, p@);
                }
                !contains_path(&self.browse.open_tabs, p)
            },
            None => false,
        };
        if stale {
            self.browse.preview_tab = None;
        }
        proof {
            if wf0 {
                assert forall|i: int, j: int| 0 <= i < j < kept.len() implies kept[i]
                    != kept[j] by {
                    assert(kept[i] == tabs[i] && kept[j] == tabs[j]);
                }
                if let Some(a) = opt_view(self.browse.open_path) {
                    let z = choose|z: int| 0 <= z < tabs.len() && tabs[z] == a;
                    lemma_first_index_exists(tabs, a, z);
                    let w = first_index_of(tabs, a);
                    if w <= idx {
                        assert(kept[w] == a);
                    }
                }
            }
        }
    }
}

/// The first index of `x` in `s`, which exists when `x` occurs at `z`.
pub open spec fn first_index_of(s: Seq<PathV>, x: PathV) -> int {
    crate::browse::first_index(s, x)
}

pub proof fn lemma_first_index_exists(s: Seq<PathV>, x: PathV, z: int)
    requires
        0 <= z < s.len(),
        s[z] == x,
    ensures
        0 <= first_index_of(s, x) < s.len(),
        s[first_index_of(s, x)] == x,
        forall|j: int| 0 <= j < first_index_of(s, x) ==> s[j] != x,
{
    lemma_exists_first(s, x, z);
}

pub proof fn lemma_exists_first(s: Seq<PathV>, x: PathV, z: int)
    requires
        0 <= z < s.len(),
        s[z] == x,
    ensures
        exists|i: int| 0 <= i < s.len() && s[i] == x && forall|j: int| 0 <= j < i ==> s[j] != x,
    decreases z,
{
    if exists|j: int| 0 <= j < z && s[j] == x {
        let j = choose|j: int| 0 <= j < z && s[j] == x;
        lemma_exists_first(s, x, j);
    } else {
        assert(forall|j: int| 0 <= j < z ==> s[j] != x);
    }
}


/// How one tab of the strip shows.
pub struct TabChip {
    /// The file's name.
    pub name: Vec<u8>,
    pub active: bool,
    /// The temporary preview tab.
    pub preview: bool,
    /// Its git status, which colours the name.
    pub status: Option<FileStatus>,
    /// The active tab with unsaved edits shows a dot where the close button goes.
    pub unsaved_mark: bool,
}

impl Kyde {
    /// Tab `i` of the strip.
    pub fn tab_chip(&self, i: usize) -> (r: TabChip)
        requires
            i < self.browse.open_tabs@.len(),
        ensures
            ({
                let p = self.browse.open_tabs@[i as int]@;
                &&& r.name@ == match file_name_v(p) {
                    Some(n) => n,
                    None => Seq::<u8>::empty(),
                }
                &&& r.active == (opt_view(self.browse.open_path) == Some(p))
                &&& r.preview == (opt_view(self.browse.preview_tab) == Some(p))
                &&& r.unsaved_mark == (r.active && self.browse.editor_dirty)
                &&& match r.status {
                    Some(s) => exists|k: int| 0 <= k < self.files@.len() && (#[trigger] self.files@[k]).path@ == p
                        && self.files@[k].status == s,
                    None => forall|k: int| 0 <= k < self.files@.len() ==> (#[trigger] self.files@[k]).path@ != p,
                }
            }),
    {
        let p = &self.browse.open_tabs[i];
        let name = match p.file_name() {
            Some(n) => n,
            None => Vec::new(),
        };
        let active = match &self.browse.open_path {
            Some(q) => q.same(p),
            None => false,
        };
        let preview = match &self.browse.preview_tab {
            Some(q) => q.same(p),
            None => false,
        };
        let status = self.finder_file_status(p);
        TabChip { name, active, preview, status, unsaved_mark: active && self.browse.editor_dirty }
    }
}

} // verus!
