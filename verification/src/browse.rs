//! Browse view: the open-file / preview-tab bookkeeping, the tree expansion, and the
//! editor tab strip's close operations.
use vstd::prelude::*;
use vstd::string::StrSliceExecFns;
use vstd::string::StringSliceAdditionalSpecFns;
use crate::model::{BrowseState, Effect, FileStatus, Kyde, Mode};
use crate::path::{
    contains_path, has_path, insert_path, is_empty_v, is_strict_ancestor_v, path_set, paths_view,
    position_path, toggle_path, root_v, file_name_v, join_v, FsPath, PathV,
};

verus! {

pub open spec fn opt_view(o: Option<FsPath>) -> Option<PathV> {
    match o {
        Some(p) => Some(p@),
        None => None,
    }
}

/// The first index of `x` in `s` (meaningful when `s.contains(x)`).
pub open spec fn first_index(s: Seq<PathV>, x: PathV) -> int {
    choose|i: int| 0 <= i < s.len() && s[i] == x && forall|j: int| 0 <= j < i ==> s[j] != x
}

pub proof fn lemma_first_index(s: Seq<PathV>, x: PathV, i: int)
    requires
        0 <= i < s.len(),
        s[i] == x,
        forall|j: int| 0 <= j < i ==> s[j] != x,
    ensures
        first_index(s, x) == i,
{
    let k = first_index(s, x);
    assert(0 <= k < s.len() && s[k] == x && forall|j: int| 0 <= j < k ==> s[j] != x);
    if k < i {
        assert(s[k] != x);
    }
    if i < k {
        assert(s[i] != x);
    }
}

/// The preview tab is reused: previewing a file that is not open, then another, leaves
/// the tab strip as long as after the first, with the second in place of the first.
pub proof fn law_preview_tab_reused(tabs: Seq<PathV>, preview: Option<PathV>, a: PathV, b: PathV)
    requires
        !tabs.contains(a),
        !tabs.contains(b),
        a != b,
    ensures
        ({
            let tabs1 = tabs_after_open(tabs, preview, a, true);
            let prev1 = preview_after_open(tabs, preview, a, true);
            let tabs2 = tabs_after_open(tabs1, prev1, b, true);
            &&& prev1 == Some(a)
            &&& preview_after_open(tabs1, prev1, b, true) == Some(b)
            &&& tabs2.len() == tabs1.len()
            &&& tabs2.contains(b)
            &&& !tabs2.contains(a)
        }),
{
    let tabs1 = tabs_after_open(tabs, preview, a, true);
    // `a` stands once in `tabs1`, at `k`.
    let k: int = match preview {
        Some(p) => if tabs.contains(p) {
            first_index(tabs, p)
        } else {
            tabs.len() as int
        },
        None => tabs.len() as int,
    };
    match preview {
        Some(p) => if tabs.contains(p) {
            let w = choose|w: int| 0 <= w < tabs.len() && tabs[w] == p;
            lemma_first_occurrence(tabs, p, w);
            assert(tabs1 =~= tabs.update(k, a));
        } else {
            assert(tabs1 =~= tabs.push(a));
        },
        None => {
            assert(tabs1 =~= tabs.push(a));
        },
    }
    assert(tabs1[k] == a);
    assert forall|j: int| 0 <= j < tabs1.len() && j != k implies tabs1[j] != a by {
        assert(tabs1[j] == tabs[j]);
    }
    assert(!tabs1.contains(b)) by {
        if tabs1.contains(b) {
            let j = choose|j: int| 0 <= j < tabs1.len() && tabs1[j] == b;
            assert(j != k);
            assert(tabs1[j] == tabs[j]);
        }
    }
    lemma_first_index(tabs1, a, k);
    let tabs2 = tabs1.update(k, b);
    assert(tabs2[k] == b);
    assert(!tabs2.contains(a)) by {
        if tabs2.contains(a) {
            let j = choose|j: int| 0 <= j < tabs2.len() && tabs2[j] == a;
            assert(j != k);
            assert(tabs2[j] == tabs1[j]);
        }
    }
}

/// A value in `s` has a first occurrence.
pub proof fn lemma_first_occurrence(s: Seq<PathV>, x: PathV, w: int)
    requires
        0 <= w < s.len(),
        s[w] == x,
    ensures
        exists|j: int| 0 <= j < s.len() && s[j] == x && forall|m: int| 0 <= m < j ==> s[m] != x,
    decreases w,
{
    if exists|m: int| 0 <= m < w && s[m] == x {
        let m = choose|m: int| 0 <= m < w && s[m] == x;
        lemma_first_occurrence(s, x, m);
    } else {
        assert(forall|m: int| 0 <= m < w ==> s[m] != x);
    }
}

pub proof fn lemma_has_path_contains(v: Seq<FsPath>, x: PathV)
    ensures
        has_path(v, x) <==> paths_view(v).contains(x),
{
    if has_path(v, x) {
        let i = choose|i: int| 0 <= i < v.len() && (#[trigger] v[i])@ == x;
        assert(paths_view(v)[i] == x);
    }
    if paths_view(v).contains(x) {
        let i = choose|i: int| 0 <= i < paths_view(v).len() && paths_view(v)[i] == x;
        assert(v[i]@ == x);
    }
}

/// The tab list after opening `rel` (as the preview tab when `as_preview`): an open tab
/// is only activated; a preview open replaces the current preview tab in place (or
/// appends when there is none); a permanent open appends.
pub open spec fn tabs_after_open(
    tabs: Seq<PathV>,
    preview: Option<PathV>,
    rel: PathV,
    as_preview: bool,
) -> Seq<PathV> {
    if tabs.contains(rel) {
        tabs
    } else if as_preview {
        match preview {
            Some(p) => if tabs.contains(p) {
                tabs.update(first_index(tabs, p), rel)
            } else {
                tabs.push(rel)
            },
            None => tabs.push(rel),
        }
    } else {
        tabs.push(rel)
    }
}

/// The preview slot after opening `rel`: a permanent open of the preview tab promotes it
/// (the slot clears); a preview open of a new file takes the slot.
pub open spec fn preview_after_open(
    tabs: Seq<PathV>,
    preview: Option<PathV>,
    rel: PathV,
    as_preview: bool,
) -> Option<PathV> {
    if tabs.contains(rel) {
        if !as_preview && preview == Some(rel) {
            None
        } else {
            preview
        }
    } else if as_preview {
        Some(rel)
    } else {
        preview
    }
}

/// The tab bookkeeping invariant: no tab twice, and the preview and active paths are tabs.
pub open spec fn tabs_wf(tabs: Seq<PathV>, preview: Option<PathV>, active: Option<PathV>) -> bool {
    &&& forall|i: int, j: int| 0 <= i < j < tabs.len() ==> tabs[i] != tabs[j]
    &&& (preview matches Some(p) ==> tabs.contains(p))
    &&& (active matches Some(a) ==> tabs.contains(a))
}

impl BrowseState {
    pub open spec fn tabs_v(&self) -> Seq<PathV> {
        paths_view(self.open_tabs@)
    }

    pub open spec fn wf(&self) -> bool {
        tabs_wf(self.tabs_v(), opt_view(self.preview_tab), opt_view(self.open_path))
    }
}

/// A copy of an optional path.
pub fn opt_duplicate(o: &Option<FsPath>) -> (r: Option<FsPath>)
    ensures
        opt_view(r) == opt_view(*o),
{
    match o {
        Some(p) => Some(p.duplicate()),
        None => None,
    }
}

fn opt_same(o: &Option<FsPath>, p: &FsPath) -> (r: bool)
    ensures
        r == (opt_view(*o) == Some(p@)),
{
    match o {
        Some(q) => q.same(p),
        None => false,
    }
}

impl Kyde {
    /// Open `rel` as a permanent tab (or promote it out of the preview slot) and make it
    /// the active, selected file.
    pub fn open_file(&mut self, rel: FsPath) -> (effects: Vec<Effect>)
        ensures
            final(self).browse.tabs_v() == tabs_after_open(
                old(self).browse.tabs_v(),
                opt_view(old(self).browse.preview_tab),
                rel@,
                false,
            ),
            opt_view(final(self).browse.preview_tab) == preview_after_open(
                old(self).browse.tabs_v(),
                opt_view(old(self).browse.preview_tab),
                rel@,
                false,
            ),
            opt_view(final(self).browse.open_path) == Some(rel@),
            opt_view(final(self).browse.selected_path) == Some(rel@),
            effects@ == seq![Effect::LoadOpenFile, Effect::ScrollTabIntoView, Effect::LoadFontPreview],
            old(self).browse.wf() ==> final(self).browse.wf(),
            final(self).mode == old(self).mode,
            final(self).menu_open == old(self).menu_open,
            final(self).files == old(self).files,
            final(self).repo_root == old(self).repo_root,
            final(self).browse.expanded == old(self).browse.expanded,
            final(self).browse.extra_dirs == old(self).browse.extra_dirs,
            final(self).commit == old(self).commit,
            final(self).selected == old(self).selected,
            final(self).project_sessions == old(self).project_sessions,
            final(self).open_projects == old(self).open_projects,
            final(self).browse.multi_selected == old(self).browse.multi_selected,
            *final(self) == (Kyde {
                browse: BrowseState {
                    open_tabs: final(self).browse.open_tabs,
                    preview_tab: final(self).browse.preview_tab,
                    open_path: final(self).browse.open_path,
                    selected_path: final(self).browse.selected_path,
                    ..old(self).browse
                },
                ..*old(self)
            }),
    {
        self.open_file_inner(rel, false)
    }

    /// Open `rel` in the single preview (temporary) tab: it replaces the current preview
    /// tab in place, and an already-open tab is just activated.
    pub fn preview_file(&mut self, rel: FsPath) -> (effects: Vec<Effect>)
        ensures
            final(self).browse.tabs_v() == tabs_after_open(
                old(self).browse.tabs_v(),
                opt_view(old(self).browse.preview_tab),
                rel@,
                true,
            ),
            opt_view(final(self).browse.preview_tab) == preview_after_open(
                old(self).browse.tabs_v(),
                opt_view(old(self).browse.preview_tab),
                rel@,
                true,
            ),
            opt_view(final(self).browse.open_path) == Some(rel@),
            opt_view(final(self).browse.selected_path) == Some(rel@),
            effects@ == seq![Effect::LoadOpenFile, Effect::ScrollTabIntoView, Effect::LoadFontPreview],
            old(self).browse.wf() ==> final(self).browse.wf(),
            final(self).browse.multi_selected == old(self).browse.multi_selected,
            final(self).browse.expanded == old(self).browse.expanded,
            *final(self) == (Kyde {
                browse: BrowseState {
                    open_tabs: final(self).browse.open_tabs,
                    preview_tab: final(self).browse.preview_tab,
                    open_path: final(self).browse.open_path,
                    selected_path: final(self).browse.selected_path,
                    ..old(self).browse
                },
                ..*old(self)
            }),
    {
        self.open_file_inner(rel, true)
    }

    fn open_file_inner(&mut self, rel: FsPath, as_preview: bool) -> (effects: Vec<Effect>)
        ensures
            final(self).browse.tabs_v() == tabs_after_open(
                old(self).browse.tabs_v(),
                opt_view(old(self).browse.preview_tab),
                rel@,
                as_preview,
            ),
            opt_view(final(self).browse.preview_tab) == preview_after_open(
                old(self).browse.tabs_v(),
                opt_view(old(self).browse.preview_tab),
                rel@,
                as_preview,
            ),
            opt_view(final(self).browse.open_path) == Some(rel@),
            opt_view(final(self).browse.selected_path) == Some(rel@),
            effects@ == seq![Effect::LoadOpenFile, Effect::ScrollTabIntoView, Effect::LoadFontPreview],
            old(self).browse.wf() ==> final(self).browse.wf(),
            final(self).mode == old(self).mode,
            final(self).menu_open == old(self).menu_open,
            final(self).files == old(self).files,
            final(self).repo_root == old(self).repo_root,
            final(self).browse.expanded == old(self).browse.expanded,
            final(self).browse.extra_dirs == old(self).browse.extra_dirs,
            final(self).commit == old(self).commit,
            final(self).selected == old(self).selected,
            final(self).project_sessions == old(self).project_sessions,
            final(self).open_projects == old(self).open_projects,
            final(self).browse.multi_selected == old(self).browse.multi_selected,
            *final(self) == (Kyde {
                browse: BrowseState {
                    open_tabs: final(self).browse.open_tabs,
                    preview_tab: final(self).browse.preview_tab,
                    open_path: final(self).browse.open_path,
                    selected_path: final(self).browse.selected_path,
                    ..old(self).browse
                },
                ..*old(self)
            }),
    {
        open_in_browse(&mut self.browse, rel, as_preview);
        let mut effects: Vec<Effect> = Vec::new();
        effects.push(Effect::LoadOpenFile);
        effects.push(Effect::ScrollTabIntoView);
        effects.push(Effect::LoadFontPreview);
        effects
    }
}

/// `b` with `rel` opened (see [`Kyde::open_file`] and [`Kyde::preview_file`]).
#[verifier::rlimit(40)]
fn open_in_browse(b: &mut BrowseState, rel: FsPath, as_preview: bool)
    ensures
        final(b).tabs_v() == tabs_after_open(old(b).tabs_v(), opt_view(old(b).preview_tab), rel@, as_preview),
        opt_view(final(b).preview_tab) == preview_after_open(old(b).tabs_v(), opt_view(old(b).preview_tab), rel@, as_preview),
        opt_view(final(b).open_path) == Some(rel@),
        opt_view(final(b).selected_path) == Some(rel@),
        old(b).wf() ==> final(b).wf(),
        *final(b) == (BrowseState {
            open_tabs: final(b).open_tabs,
            preview_tab: final(b).preview_tab,
            open_path: final(b).open_path,
            selected_path: final(b).selected_path,
            ..*old(b)
        }),
{
    let ghost tabs0 = b.tabs_v();
    let ghost prev0 = opt_view(b.preview_tab);
    let ghost wf0 = b.wf();
    let ghost rv = rel@;
    b.selected_path = Some(rel.duplicate());
    proof {
        lemma_has_path_contains(b.open_tabs@, rv);
    }
    if contains_path(&b.open_tabs, &rel) {
        if !as_preview && opt_same(&b.preview_tab, &rel) {
            b.preview_tab = None;
        }
    } else if as_preview {
        let prev = b.preview_tab.take();
        let pos = match &prev {
            Some(p) => {
                proof {
                    lemma_has_path_contains(b.open_tabs@, p@);
                }
                position_path(&b.open_tabs, p)
            },
            None => None,
        };
        match pos {
            Some(i) => {
                proof {
                    lemma_first_index(tabs0, prev.unwrap()@, i as int);
                }
                b.open_tabs.set(i, rel.duplicate());
                assert(b.tabs_v() =~= tabs0.update(i as int, rv));
            },
            None => {
                b.open_tabs.push(rel.duplicate());
                assert(b.tabs_v() =~= tabs0.push(rv));
            },
        }
        b.preview_tab = Some(rel.duplicate());
    } else {
        b.open_tabs.push(rel.duplicate());
        assert(b.tabs_v() =~= tabs0.push(rv));
    }
    b.open_path = Some(rel);
    proof {
        let t = b.tabs_v();
        assert(t.contains(rv)) by {
            if tabs0.contains(rv) {
            } else if as_preview && prev0 is Some && tabs0.contains(prev0.unwrap()) {
                assert(t[first_index(tabs0, prev0.unwrap())] == rv);
            } else {
                assert(t[tabs0.len() as int] == rv);
            }
        }
        if wf0 {
            if !tabs0.contains(rv) {
                if as_preview && prev0 is Some && tabs0.contains(prev0.unwrap()) {
                    let k = first_index(tabs0, prev0.unwrap());
                    assert forall|i: int, j: int| 0 <= i < j < t.len() implies t[i]
                        != t[j] by {
                        if i == k {
                            assert(t[j] == tabs0[j]);
                        } else if j == k {
                            assert(t[i] == tabs0[i]);
                        } else {
                            assert(t[i] == tabs0[i] && t[j] == tabs0[j]);
                        }
                    }
                } else {
                    assert forall|i: int, j: int| 0 <= i < j < t.len() implies t[i]
                        != t[j] by {
                        if j == tabs0.len() {
                            assert(t[i] == tabs0[i]);
                        } else {
                            assert(t[i] == tabs0[i] && t[j] == tabs0[j]);
                        }
                    }
                    if !as_preview {
                        if let Some(p) = prev0 {
                            let w = choose|w: int| 0 <= w < tabs0.len() && tabs0[w] == p;
                            assert(t[w] == p);
                        }
                    }
                }
            } else {
            }
        }
    }
}

/// The row of `target` in the Browse tree as rendered: the root row first, then the
/// visible tree rows, then the scratch files.
pub open spec fn tree_row_spec(target: PathV, visible: Seq<PathV>, scratches: Seq<PathV>) -> Option<
    int,
> {
    if is_empty_v(target) {
        Some(0)
    } else if visible.contains(target) {
        Some(1 + first_index(visible, target))
    } else if scratches.contains(target) {
        Some(1 + visible.len() + first_index(scratches, target))
    } else {
        None
    }
}

/// The row index of `target` in the rendered tree (`visible` = the expanded tree's rows
/// below the root, `scratches` = the scratch files listed after them).
pub fn tree_row_index(target: &FsPath, visible: &Vec<FsPath>, scratches: &Vec<FsPath>) -> (r:
    Option<usize>)
    requires
        visible@.len() + scratches@.len() < usize::MAX,
    ensures
        match r {
            Some(i) => tree_row_spec(target@, paths_view(visible@), paths_view(scratches@))
                == Some(i as int),
            None => tree_row_spec(target@, paths_view(visible@), paths_view(scratches@)) is None,
        },
{
    if target.is_empty() {
        return Some(0);
    }
    proof {
        lemma_has_path_contains(visible@, target@);
        lemma_has_path_contains(scratches@, target@);
    }
    match position_path(visible, target) {
        Some(i) => {
            proof {
                lemma_first_index(paths_view(visible@), target@, i as int);
            }
            return Some(1 + i);
        },
        None => {},
    }
    match position_path(scratches, target) {
        Some(j) => {
            proof {
                lemma_first_index(paths_view(scratches@), target@, j as int);
            }
            Some(1 + visible.len() + j)
        },
        None => None,
    }
}

impl Kyde {
    /// Expand or collapse a directory of the Browse tree.
    pub fn toggle_dir(&mut self, dir: FsPath)
        ensures
            path_set(final(self).browse.expanded@) == if path_set(
                old(self).browse.expanded@,
            ).contains(dir@) {
                path_set(old(self).browse.expanded@).remove(dir@)
            } else {
                path_set(old(self).browse.expanded@).insert(dir@)
            },
            final(self).browse.open_tabs == old(self).browse.open_tabs,
            final(self).browse.selected_path == old(self).browse.selected_path,
            final(self).browse.multi_selected == old(self).browse.multi_selected,
            final(self).browse.preview_tab == old(self).browse.preview_tab,
            final(self).browse.open_path == old(self).browse.open_path,
            *final(self) == (Kyde { browse: BrowseState { expanded: final(self).browse.expanded, ..old(self).browse }, ..*old(self) }),
    {
        toggle_path(&mut self.browse.expanded, dir);
    }

    /// "Select Opened File in Tree": switch to Browse, expand every ancestor of the active
    /// file (else the selected row), and select it. The host then scrolls to its row
    /// (see [`tree_row_index`]). Nothing happens when no file is open or selected.
    #[verifier::rlimit(40)]
    pub fn reveal_in_tree(&mut self) -> (effects: Vec<Effect>)
        ensures
            match (if old(self).browse.open_path is Some {
                opt_view(old(self).browse.open_path)
            } else {
                opt_view(old(self).browse.selected_path)
            }) {
                Some(t) => {
                    &&& final(self).mode == Mode::Browse
                    &&& opt_view(final(self).browse.selected_path) == Some(t)
                    &&& path_set(final(self).browse.expanded@) == path_set(
                        old(self).browse.expanded@,
                    ).union(Set::new(|a: PathV| is_strict_ancestor_v(a, t)))
                    &&& effects@ == seq![Effect::ScrollTreeRow]
                },
                None => *final(self) == *old(self) && effects@.len() == 0,
            },
            final(self).browse.open_tabs == old(self).browse.open_tabs,
            final(self).browse.open_path == old(self).browse.open_path,
    {
        let target = match &self.browse.open_path {
            Some(p) => p.duplicate(),
            None => match &self.browse.selected_path {
                Some(p) => p.duplicate(),
                None => {
                    return Vec::new();
                },
            },
        };
        self.mode = Mode::Browse;
        let ancs = target.strict_ancestors();
        let ghost t = target@;
        let ghost base = path_set(self.browse.expanded@);
        let mut k: usize = 0;
        while k < ancs.len()
            invariant
                k <= ancs@.len(),
                ancs@.len() == t.1.len(),
                self.mode == Mode::Browse,
                self.browse.open_tabs == old(self).browse.open_tabs,
                self.browse.open_path == old(self).browse.open_path,
                opt_view(old(self).browse.open_path) is Some ==> opt_view(old(self).browse.open_path) == Some(t),
                opt_view(old(self).browse.open_path) is None ==> opt_view(old(self).browse.selected_path) == Some(t),
                forall|m: int|
                    0 <= m < ancs@.len() ==> (#[trigger] ancs@[m])@ == (t.0, t.1.subrange(
                        0,
                        t.1.len() - 1 - m,
                    )),
                path_set(self.browse.expanded@) == base.union(
                    Set::new(|a: PathV| exists|m: int| 0 <= m < k && (#[trigger] ancs@[m])@ == a),
                ),
            decreases ancs@.len() - k,
        {
            let ghost before = path_set(self.browse.expanded@);
            insert_path(&mut self.browse.expanded, ancs[k].duplicate());
            k = k + 1;
            assert(path_set(self.browse.expanded@) =~= base.union(
                Set::new(|a: PathV| exists|m: int| 0 <= m < k && (#[trigger] ancs@[m])@ == a),
            )) by {
                assert forall|a: PathV| path_set(self.browse.expanded@).contains(a) <==> (
                base.contains(a) || exists|m: int| 0 <= m < k && (#[trigger] ancs@[m])@ == a) by {
                    if exists|m: int| 0 <= m < k && (#[trigger] ancs@[m])@ == a {
                        let m = choose|m: int| 0 <= m < k && (#[trigger] ancs@[m])@ == a;
                        if m < k - 1 {
                            assert(exists|m2: int| 0 <= m2 < k - 1 && (#[trigger] ancs@[m2])@
                                == a);
                        }
                    }
                    if before.contains(a) && !base.contains(a) {
                        let m = choose|m: int| 0 <= m < k - 1 && (#[trigger] ancs@[m])@ == a;
                        assert(0 <= m < k);
                    }
                }
            }
        }
        assert(Set::new(|a: PathV| exists|m: int| 0 <= m < k && (#[trigger] ancs@[m])@ == a)
            =~= Set::new(|a: PathV| is_strict_ancestor_v(a, t))) by {
            assert forall|a: PathV| (exists|m: int| 0 <= m < k && (#[trigger] ancs@[m])@ == a)
                <==> is_strict_ancestor_v(a, t) by {
                if is_strict_ancestor_v(a, t) {
                    let m = t.1.len() - 1 - a.1.len();
                    assert(ancs@[m]@ == a);
                }
            }
        }
        self.browse.selected_path = Some(target);
        let mut effects: Vec<Effect> = Vec::new();
        effects.push(Effect::ScrollTreeRow);
        effects
    }

    /// Sort the Browse editor's selected lines (inside a JSON/JS/TS object, its keys).
    /// Only in Browse mode with a file open; the host then sorts and applies
    /// [`sort_lines_edit`].
    pub fn sort_selected_lines(&self) -> (effects: Vec<Effect>)
        ensures
            effects@ == if self.mode == Mode::Browse && self.browse.open_path is Some {
                seq![Effect::SortLines]
            } else {
                seq![]
            },
    {
        let mut effects: Vec<Effect> = Vec::new();
        if self.mode == Mode::Browse && self.browse.open_path.is_some() {
            effects.push(Effect::SortLines);
        }
        effects
    }

    /// Sort the keys of the object at the Browse editor's caret. Only in Browse mode with
    /// a file open; the host then sorts and applies [`sort_keys_edit`].
    pub fn sort_object_keys_at_caret(&self) -> (effects: Vec<Effect>)
        ensures
            effects@ == if self.mode == Mode::Browse && self.browse.open_path is Some {
                seq![Effect::SortKeys]
            } else {
                seq![]
            },
    {
        let mut effects: Vec<Effect> = Vec::new();
        if self.mode == Mode::Browse && self.browse.open_path.is_some() {
            effects.push(Effect::SortKeys);
        }
        effects
    }

    /// The "Sort Lines" action.
    pub fn act_sort_lines(&self) -> (effects: Vec<Effect>)
        ensures
            effects@ == if self.mode == Mode::Browse && self.browse.open_path is Some {
                seq![Effect::SortLines]
            } else {
                seq![]
            },
    {
        self.sort_selected_lines()
    }

    /// The "Sort Keys" action.
    pub fn act_sort_keys(&self) -> (effects: Vec<Effect>)
        ensures
            effects@ == if self.mode == Mode::Browse && self.browse.open_path is Some {
                seq![Effect::SortKeys]
            } else {
                seq![]
            },
    {
        self.sort_object_keys_at_caret()
    }
}

/// An edit of the Browse editor's text: bytes `start..end` become `text`, and the
/// selection covers `sel_start..sel_end` afterwards.
pub struct SortEdit {
    pub start: usize,
    pub end: usize,
    pub text: Vec<u8>,
    pub sel_start: usize,
    pub sel_end: usize,
}

/// A sort result that the host computed (a byte range of the editor text, and what it
/// reads sorted) fits the text, and the end of the sorted block is a `usize`.
pub open spec fn sort_result_fits(cur: Seq<u8>, res: Option<(usize, usize, Vec<u8>)>) -> bool {
    match res {
        Some(x) => x.0 <= x.1 <= cur.len() && x.0 + x.2@.len() <= usize::MAX,
        None => true,
    }
}

/// The edit that a sort result asks for: none when the range already reads as sorted
/// (the buffer is not dirtied), else the replacement with the sorted block selected.
pub open spec fn sort_edit_is(cur: Seq<u8>, res: (usize, usize, Vec<u8>), r: Option<SortEdit>) -> bool {
    if cur.subrange(res.0 as int, res.1 as int) == res.2@ {
        r is None
    } else {
        r matches Some(e) && e.start == res.0 && e.end == res.1 && e.text@ == res.2@
            && e.sel_start == res.0 && e.sel_end == res.0 + res.2@.len()
    }
}

/// Whether `cur[start..end]` reads `t`.
fn range_reads(cur: &Vec<u8>, start: usize, end: usize, t: &Vec<u8>) -> (r: bool)
    requires
        start <= end <= cur@.len(),
    ensures
        r == (cur@.subrange(start as int, end as int) == t@),
{
    if end - start != t.len() {
        return false;
    }
    let mut i: usize = 0;
    while i < t.len()
        invariant
            i <= t@.len(),
            end - start == t@.len(),
            start <= end <= cur@.len(),
            cur@.subrange(start as int, start + i) == t@.subrange(0, i as int),
        decreases t@.len() - i,
    {
        if cur[start + i] != t[i] {
            assert(cur@.subrange(start as int, end as int)[i as int] != t@[i as int]);
            return false;
        }
        assert(cur@.subrange(start as int, start + i + 1) =~= cur@.subrange(start as int, start + i).push(cur@[start + i]));
        assert(t@.subrange(0, i + 1) =~= t@.subrange(0, i as int).push(t@[i as int]));
        i = i + 1;
    }
    assert(t@.subrange(0, t@.len() as int) =~= t@);
    true
}

/// The edit for one sort result (see [`sort_edit_is`]).
fn edit_for(cur: &Vec<u8>, res: (usize, usize, Vec<u8>)) -> (r: Option<SortEdit>)
    requires
        sort_result_fits(cur@, Some(res)),
    ensures
        sort_edit_is(cur@, res, r),
{
    let (start, end, text) = res;
    if range_reads(cur, start, end, &text) {
        None
    } else {
        let sel_end = start + text.len();
        Some(SortEdit { start, end, text, sel_start: start, sel_end })
    }
}

/// "Sort Lines" on the editor text `cur`, given the host's two sort results: `object`,
/// the key sort of the JSON/JS/TS object at the caret (`None` outside one), and `lines`,
/// the textual sort of the selected lines (`None` under two lines). Inside an object the
/// key sort decides, even when it changes nothing, since a textual sort there would
/// break the syntax; elsewhere the line sort does.
pub fn sort_lines_edit(
    cur: &Vec<u8>,
    object: Option<(usize, usize, Vec<u8>)>,
    lines: Option<(usize, usize, Vec<u8>)>,
) -> (r: Option<SortEdit>)
    requires
        sort_result_fits(cur@, object),
        sort_result_fits(cur@, lines),
    ensures
        match (object, lines) {
            (Some(o), _) => sort_edit_is(cur@, o, r),
            (None, Some(l)) => sort_edit_is(cur@, l, r),
            (None, None) => r is None,
        },
{
    match object {
        Some(o) => edit_for(cur, o),
        None => match lines {
            Some(l) => edit_for(cur, l),
            None => None,
        },
    }
}

/// "Sort Keys" on the editor text `cur`, given the host's key sort of the object at the
/// caret (`None` outside one).
pub fn sort_keys_edit(cur: &Vec<u8>, object: Option<(usize, usize, Vec<u8>)>) -> (r: Option<SortEdit>)
    requires
        sort_result_fits(cur@, object),
    ensures
        match object {
            Some(o) => sort_edit_is(cur@, o, r),
            None => r is None,
        },
{
    match object {
        Some(o) => edit_for(cur, o),
        None => None,
    }
}


/// One row of the Browse tree.
pub struct TreeRow {
    pub path: FsPath,
    pub is_dir: bool,
    pub depth: usize,
}

/// A tree row as values: path, whether a folder, depth.
pub type RowV = (PathV, bool, int);

pub open spec fn rows_view(v: Seq<TreeRow>) -> Seq<RowV> {
    v.map_values(|r: TreeRow| (r.path@, r.is_dir, r.depth as int))
}

/// The rows the Browse tree shows: the repository root; when it is expanded
/// (`root_open`), the expanded tree's rows (`tree`) one level deeper; then, when there
/// are scratch files, the "Scratches" folder (`group`) and, when it is expanded
/// (`group_open`), its files.
pub open spec fn visible_rows_spec(
    tree: Seq<RowV>,
    root_open: bool,
    scratches: Seq<PathV>,
    group: PathV,
    group_open: bool,
) -> Seq<RowV> {
    let tail = if scratches.len() == 0 {
        Seq::<RowV>::empty()
    } else if group_open {
        seq![(group, true, 0int)] + scratches.map_values(|p: PathV| (p, false, 1int))
    } else {
        seq![(group, true, 0int)]
    };
    root_rows_spec(tree, root_open) + tail
}

/// The root row, then, when the root is expanded (`root_open`), the rows of the expanded
/// tree (`tree`) one level deeper.
pub open spec fn root_rows_spec(tree: Seq<RowV>, root_open: bool) -> Seq<RowV> {
    seq![(root_v(), true, 0int)] + if root_open {
        tree.map_values(|r: RowV| (r.0, r.1, r.2 + 1))
    } else {
        Seq::<RowV>::empty()
    }
}

/// See [`root_rows_spec`]; the root is expanded when `expanded` holds it.
pub fn root_rows(expanded: &Vec<FsPath>, tree: &Vec<TreeRow>) -> (r: Vec<TreeRow>)
    requires
        forall|i: int| 0 <= i < tree@.len() ==> #[trigger] tree@[i].depth < usize::MAX,
    ensures
        rows_view(r@) == root_rows_spec(rows_view(tree@), has_path(expanded@, root_v())),
{
    let ghost tv = rows_view(tree@);
    let mut r: Vec<TreeRow> = Vec::new();
    r.push(TreeRow { path: FsPath::root(), is_dir: true, depth: 0 });
    let ghost head = rows_view(r@);
    assert(head =~= seq![(root_v(), true, 0int)]);
    if contains_path(expanded, &FsPath::root()) {
        let mut i: usize = 0;
        while i < tree.len()
            invariant
                i <= tree@.len(),
                tv == rows_view(tree@),
                forall|k: int| 0 <= k < tree@.len() ==> #[trigger] tree@[k].depth < usize::MAX,
                rows_view(r@) == head + tv.subrange(0, i as int).map_values(|x: RowV| (x.0, x.1, x.2 + 1)),
            decreases tree@.len() - i,
        {
            let t = &tree[i];
            let ghost prev = r@;
            r.push(TreeRow { path: t.path.duplicate(), is_dir: t.is_dir, depth: t.depth + 1 });
            proof {
                assert(r@ =~= prev.push(r@[r@.len() - 1]));
                assert(rows_view(r@) =~= rows_view(prev).push((tv[i as int].0, tv[i as int].1, tv[i as int].2 + 1)));
                assert(tv.subrange(0, i + 1) =~= tv.subrange(0, i as int).push(tv[i as int]));
                assert(tv.subrange(0, i + 1).map_values(|x: RowV| (x.0, x.1, x.2 + 1)) =~= tv.subrange(
                    0,
                    i as int,
                ).map_values(|x: RowV| (x.0, x.1, x.2 + 1)).push((tv[i as int].0, tv[i as int].1, tv[i as int].2 + 1)));
            }
            i = i + 1;
        }
        assert(tv.subrange(0, tree@.len() as int) =~= tv);
    } else {
        assert(rows_view(r@) =~= head + Seq::<RowV>::empty());
    }
    r
}

impl Kyde {
    /// The rows of the Browse tree (see [`visible_rows_spec`]), given the rows of the
    /// expanded project tree (`tree`) and the path standing for the "Scratches" folder
    /// (`group`), which no real file can have.
    pub fn browse_visible_rows(&self, tree: &Vec<TreeRow>, group: &FsPath) -> (r: Vec<TreeRow>)
        requires
            forall|i: int| 0 <= i < tree@.len() ==> #[trigger] tree@[i].depth < usize::MAX,
        ensures
            rows_view(r@) == visible_rows_spec(
                rows_view(tree@),
                has_path(self.browse.expanded@, root_v()),
                paths_view(self.browse.scratches@),
                group@,
                has_path(self.browse.expanded@, group@),
            ),
    {
        let ghost sv = paths_view(self.browse.scratches@);
        let mut r = root_rows(&self.browse.expanded, tree);
        let ghost mid = rows_view(r@);
        if self.browse.scratches.len() > 0 {
            r.push(TreeRow { path: group.duplicate(), is_dir: true, depth: 0 });
            let ghost mid2 = rows_view(r@);
            assert(mid2 =~= mid + seq![(group@, true, 0int)]);
            if contains_path(&self.browse.expanded, group) {
                let mut j: usize = 0;
                while j < self.browse.scratches.len()
                    invariant
                        j <= self.browse.scratches@.len(),
                        sv == paths_view(self.browse.scratches@),
                        rows_view(r@) == mid2 + sv.subrange(0, j as int).map_values(
                            |p: PathV| (p, false, 1int),
                        ),
                    decreases self.browse.scratches@.len() - j,
                {
                    let ghost prev = r@;
                    r.push(TreeRow { path: self.browse.scratches[j].duplicate(), is_dir: false, depth: 1 });
                    proof {
                        assert(r@ =~= prev.push(r@[r@.len() - 1]));
                        assert(rows_view(r@) =~= rows_view(prev).push((sv[j as int], false, 1int)));
                        assert(sv.subrange(0, j + 1) =~= sv.subrange(0, j as int).push(sv[j as int]));
                        assert(sv.subrange(0, j + 1).map_values(|p: PathV| (p, false, 1int)) =~= sv.subrange(
                            0,
                            j as int,
                        ).map_values(|p: PathV| (p, false, 1int)).push((sv[j as int], false, 1int)));
                        assert(rows_view(r@) =~= mid2 + sv.subrange(0, j + 1).map_values(
                            |p: PathV| (p, false, 1int),
                        ));
                    }
                    j = j + 1;
                }
                assert(sv.subrange(0, self.browse.scratches@.len() as int) =~= sv);
                assert(rows_view(r@) =~= mid + (seq![(group@, true, 0int)] + sv.map_values(
                    |p: PathV| (p, false, 1int),
                )));
            } else {
                assert(rows_view(r@) =~= mid + seq![(group@, true, 0int)]);
            }
        } else {
            assert(rows_view(r@) =~= mid + Seq::<RowV>::empty());
        }
        r
    }
}


/// What the Browse editor area shows.
#[derive(Clone, Copy, PartialEq, Eq, Structural, Debug)]
pub enum EditorArea {
    /// No tab is open: the shortcuts screen.
    NoFile,
    /// An inline preview of an image file.
    Image,
    /// The font preview.
    Font,
    /// The code editor beside the rendered markdown preview.
    MarkdownSplit,
    /// The code editor alone.
    Code,
}

/// The layout of the Browse right-hand pane.
pub struct EditorPaneLayout {
    pub area: EditorArea,
    /// The unresolved-conflict banner (the open file is conflicted).
    pub conflict: Option<FsPath>,
    /// The banner offering to install the open file's language pack.
    pub install_banner: bool,
    pub find_bar: bool,
}

/// The open file has a conflict in git's status.
pub open spec fn is_conflicted(k: Kyde, p: PathV) -> bool {
    exists|i: int| 0 <= i < k.files@.len() && (#[trigger] k.files@[i]).path@ == p && k.files@[i].status
        == FileStatus::Conflict
}

impl Kyde {
    /// The Browse right-hand pane, given what the host knows of the open file: an image,
    /// a font, markdown with the preview plugin installed (`markdown_preview`), and
    /// whether a language pack waits to be installed for it (`pending_pack`). With a tab
    /// open the tab strip shows; banners and the find bar only above text, never above
    /// an image, the conflict banner first.
    pub fn editor_pane_layout(&self, is_image: bool, is_font: bool, markdown_preview: bool, pending_pack: bool) -> (r: EditorPaneLayout)
        ensures
            r.area == (if self.browse.open_tabs@.len() == 0 {
                EditorArea::NoFile
            } else if self.browse.open_path is Some && is_image {
                EditorArea::Image
            } else if self.browse.open_path is Some && is_font {
                EditorArea::Font
            } else if self.browse.open_path is Some && markdown_preview {
                EditorArea::MarkdownSplit
            } else {
                EditorArea::Code
            }),
            r.install_banner == (pending_pack && r.area != EditorArea::NoFile && r.area != EditorArea::Image),
            r.find_bar == (self.find.open && r.area != EditorArea::NoFile && r.area != EditorArea::Image),
            match r.conflict {
                Some(q) => r.area != EditorArea::NoFile && r.area != EditorArea::Image
                    && (self.browse.open_path matches Some(p) && q@ == p@ && is_conflicted(*self, p@)),
                None => r.area == EditorArea::NoFile || r.area == EditorArea::Image
                    || !(self.browse.open_path matches Some(p) && is_conflicted(*self, p@)),
            },
    {
        let has_path = self.browse.open_path.is_some();
        let area = if self.browse.open_tabs.len() == 0 {
            EditorArea::NoFile
        } else if has_path && is_image {
            EditorArea::Image
        } else if has_path && is_font {
            EditorArea::Font
        } else if has_path && markdown_preview {
            EditorArea::MarkdownSplit
        } else {
            EditorArea::Code
        };
        let text = area != EditorArea::NoFile && area != EditorArea::Image;
        let conflict = if text {
            self.open_file_conflict()
        } else {
            None
        };
        EditorPaneLayout {
            area,
            conflict,
            install_banner: pending_pack && text,
            find_bar: self.find.open && text,
        }
    }
}


/// The multi-selection after a cmd-click on the file `path`: a selected file leaves it;
/// another joins it, and when the selection was empty the previously highlighted file
/// (a different file of the project or a scratch file) joins first, so that two clicks
/// select the natural pair.
pub open spec fn multi_after_click(b: BrowseState, path: PathV) -> Seq<PathV> {
    let multi = paths_view(b.multi_selected@);
    if multi.contains(path) {
        multi.remove(first_index(multi, path))
    } else if multi.len() == 0 && (b.selected_path matches Some(p) && p@ != path && (has_path(
        b.all_files@,
        p@,
    ) || has_path(b.scratches@, p@))) {
        seq![b.selected_path.unwrap()@, path]
    } else {
        multi.push(path)
    }
}

impl Kyde {
    /// A click on a Browse tree row. A cmd-click (`platform`) on a file changes only the
    /// multi-selection (see [`multi_after_click`]) and selects the file. Otherwise the
    /// multi-selection clears, the row is selected, focus returns to the app, and a folder
    /// expands or collapses, a double click opens a file as a permanent tab and a single
    /// click opens it in the preview tab.
    #[verifier::rlimit(60)]
    pub fn tree_row_click(&mut self, path: FsPath, is_dir: bool, platform: bool, click_count: usize) -> (effects: Vec<Effect>)
        ensures
            opt_view(final(self).browse.selected_path) == Some(path@),
            !is_dir && platform ==> {
                &&& paths_view(final(self).browse.multi_selected@) == multi_after_click(old(self).browse, path@)
                &&& effects@.len() == 0
                &&& final(self).browse.open_tabs == old(self).browse.open_tabs
                &&& final(self).browse.open_path == old(self).browse.open_path
                &&& final(self).browse.expanded == old(self).browse.expanded
            },
            is_dir ==> {
                &&& final(self).browse.multi_selected@.len() == 0
                &&& path_set(final(self).browse.expanded@) == if path_set(old(self).browse.expanded@).contains(path@) {
                    path_set(old(self).browse.expanded@).remove(path@)
                } else {
                    path_set(old(self).browse.expanded@).insert(path@)
                }
                &&& final(self).browse.open_tabs == old(self).browse.open_tabs
                &&& final(self).browse.open_path == old(self).browse.open_path
                &&& effects@ == seq![Effect::FocusRoot]
            },
            !is_dir && !platform ==> {
                &&& final(self).browse.multi_selected@.len() == 0
                &&& final(self).browse.tabs_v() == tabs_after_open(
                    old(self).browse.tabs_v(),
                    opt_view(old(self).browse.preview_tab),
                    path@,
                    click_count < 2,
                )
                &&& opt_view(final(self).browse.preview_tab) == preview_after_open(
                    old(self).browse.tabs_v(),
                    opt_view(old(self).browse.preview_tab),
                    path@,
                    click_count < 2,
                )
                &&& opt_view(final(self).browse.open_path) == Some(path@)
                &&& final(self).browse.expanded == old(self).browse.expanded
                &&& effects@ == seq![
                    Effect::FocusRoot,
                    Effect::LoadOpenFile,
                    Effect::ScrollTabIntoView,
                    Effect::LoadFontPreview,
                ]
            },
            old(self).browse.wf() ==> final(self).browse.wf(),
            *final(self) == (Kyde { browse: final(self).browse, ..*old(self) }),
    {
        if !is_dir && platform {
            let ghost multi = paths_view(self.browse.multi_selected@);
            proof {
                lemma_has_path_contains(self.browse.multi_selected@, path@);
            }
            match position_path(&self.browse.multi_selected, &path) {
                Some(i) => {
                    proof {
                        lemma_first_index(multi, path@, i as int);
                    }
                    self.browse.multi_selected.remove(i);
                    assert(paths_view(self.browse.multi_selected@) =~= multi.remove(i as int));
                },
                None => {
                    let mut seeded = false;
                    if self.browse.multi_selected.len() == 0 {
                        let seed = match &self.browse.selected_path {
                            Some(prev) => if !prev.same(&path) && (contains_path(&self.browse.all_files, prev)
                                || contains_path(&self.browse.scratches, prev)) {
                                Some(prev.duplicate())
                            } else {
                                None
                            },
                            None => None,
                        };
                        match seed {
                            Some(d) => {
                                self.browse.multi_selected.push(d);
                                seeded = true;
                            },
                            None => {},
                        }
                    }
                    self.browse.multi_selected.push(path.duplicate());
                    if seeded {
                        assert(paths_view(self.browse.multi_selected@) =~= seq![self.browse.selected_path.unwrap()@, path@]);
                    } else {
                        assert(paths_view(self.browse.multi_selected@) =~= multi.push(path@));
                    }
                },
            }
            self.browse.selected_path = Some(path);
            return Vec::new();
        }
        self.browse.multi_selected = Vec::new();
        self.browse.selected_path = Some(path.duplicate());
        let mut effects: Vec<Effect> = Vec::new();
        effects.push(Effect::FocusRoot);
        if is_dir {
            self.toggle_dir(path);
        } else if click_count >= 2 {
            let mut e = self.open_file(path);
            effects.append(&mut e);
        } else {
            let mut e = self.preview_file(path);
            effects.append(&mut e);
        }
        effects
    }
}


/// The name a tree row shows: the repository's folder name (else "/") for the root row,
/// else the last component of its path.
pub open spec fn row_label_spec(root: Option<PathV>, p: PathV) -> Seq<u8> {
    if is_empty_v(p) {
        match root {
            Some(r) => match file_name_v(r) {
                Some(n) => n,
                None => "/".spec_bytes(),
            },
            None => "/".spec_bytes(),
        }
    } else {
        match file_name_v(p) {
            Some(n) => n,
            None => Seq::empty(),
        }
    }
}

impl Kyde {
    /// The name a row of the Browse, commit or rollback tree shows (see
    /// [`row_label_spec`]).
    pub fn row_label(&self, path: &FsPath) -> (r: Vec<u8>)
        ensures
            r@ == row_label_spec(opt_view(self.repo_root), path@),
    {
        if path.is_empty() {
            let name = match &self.repo_root {
                Some(root) => root.file_name(),
                None => None,
            };
            match name {
                Some(n) => n,
                None => "/".as_bytes_vec(),
            }
        } else {
            match path.file_name() {
                Some(n) => n,
                None => Vec::new(),
            }
        }
    }

    /// The name a Browse tree row shows: "Scratches" for the scratch files' folder
    /// (`group`), else [`Kyde::row_label`].
    pub fn browse_row_label(&self, path: &FsPath, group: &FsPath) -> (r: Vec<u8>)
        ensures
            r@ == if path@ == group@ && !is_empty_v(path@) {
                "Scratches".spec_bytes()
            } else {
                row_label_spec(opt_view(self.repo_root), path@)
            },
    {
        if !path.is_empty() && path.same(group) {
            "Scratches".as_bytes_vec()
        } else {
            self.row_label(path)
        }
    }
}


/// What the font preview does for the active tab.
pub enum FontPreviewPlan {
    /// Drop the preview: the tab is no font, or the font plugin is missing.
    Clear,
    /// The preview already shows this font.
    Keep,
    /// Read the font at this path and show it, registered under `rel`.
    Load { abs: FsPath, rel: FsPath },
}

impl Kyde {
    /// The font preview for the active tab, given whether it is a font file (`is_font`),
    /// whether the font plugin is installed, and which tab the preview shows (`loaded`).
    pub fn font_preview_plan(&self, is_font: bool, plugin: bool, loaded: &Option<FsPath>) -> (r: FontPreviewPlan)
        ensures
            match self.browse.open_path {
                Some(rel) if is_font && plugin => if opt_view(*loaded) == Some(rel@) {
                    r is Keep
                } else {
                    r matches FontPreviewPlan::Load { abs, rel: r2 } && r2@ == rel@ && abs@ == match self.repo_root {
                        Some(root) => join_v(root@, rel@),
                        None => rel@,
                    }
                },
                _ => r is Clear,
            },
    {
        let rel = match &self.browse.open_path {
            Some(p) => p,
            None => {
                return FontPreviewPlan::Clear;
            },
        };
        if !is_font || !plugin {
            return FontPreviewPlan::Clear;
        }
        if opt_same(loaded, rel) {
            return FontPreviewPlan::Keep;
        }
        let abs = match &self.repo_root {
            Some(root) => root.join(rel),
            None => rel.duplicate(),
        };
        FontPreviewPlan::Load { abs, rel: rel.duplicate() }
    }
}

} // verus!
