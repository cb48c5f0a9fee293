//! Open projects and their sessions: each open project is a tab; switching away stores
//! the UI state of the project left (mode, open file, editor tabs, preview tab,
//! selected change, expanded folders) and switching back restores it.
use vstd::prelude::*;
use crate::path::{FsPath, PathV, has_path, root_v, paths_view, insert_path, position_path, copy_paths};
use crate::names::{parse_path_spec, path_from_bytes};
use crate::model::{BrowseState, Kyde, Effect, Mode, ProjectSession, SessionEntry};
use crate::browse::{opt_view, opt_duplicate, tabs_after_open, tabs_wf};
use crate::branch_list::{holds_bytes, holds_sub, lowercase, to_lower};
use crate::compare::{name_or_empty, name_or_empty_bytes};
use crate::path::display_v;

verus! {

/// A session's value: mode, open file, editor tabs, preview tab, selected change and
/// expanded folders.
pub type SessionV = (Mode, Option<PathV>, Seq<PathV>, Option<PathV>, Option<usize>, Seq<PathV>);

pub open spec fn session_v(s: ProjectSession) -> SessionV {
    (
        s.mode,
        opt_view(s.open_path),
        paths_view(s.open_tabs@),
        opt_view(s.preview_tab),
        s.selected,
        paths_view(s.expanded@),
    )
}

/// The part of the editor state that a session keeps.
pub open spec fn state_v(k: Kyde) -> SessionV {
    (
        k.mode,
        opt_view(k.browse.open_path),
        k.browse.tabs_v(),
        opt_view(k.browse.preview_tab),
        k.selected,
        paths_view(k.browse.expanded@),
    )
}

/// The session stored for project `r` (the latest entry for it).
pub open spec fn session_for(v: Seq<SessionEntry>, r: PathV) -> Option<SessionV>
    decreases v.len(),
{
    if v.len() == 0 {
        None
    } else if v.last().root@ == r {
        Some(session_v(v.last().session))
    } else {
        session_for(v.drop_last(), r)
    }
}

/// Whether an entry belongs to a project other than `r`.
pub open spec fn keeps(r: PathV) -> spec_fn(SessionEntry) -> bool {
    |e: SessionEntry| e.root@ != r
}

/// The entries of projects other than `r`.
pub open spec fn without(v: Seq<SessionEntry>, r: PathV) -> Seq<SessionEntry> {
    v.filter(keeps(r))
}

/// The state after restoring session `s`: its open file is reopened as a permanent tab
/// and its preview tab put back.
pub open spec fn restored(s: SessionV) -> SessionV {
    let tabs = match s.1 {
        Some(p) => tabs_after_open(s.2, s.3, p, false),
        None => s.2,
    };
    (s.0, s.1, tabs, s.3, s.4, s.5)
}

/// A project opened without a stored session: Browse mode, nothing open, the root folder
/// expanded.
pub open spec fn fresh_session() -> SessionV {
    (Mode::Browse, None, Seq::empty(), None, None, seq![root_v()])
}

/// The project left when another opens: its root and its state, as its session keeps it.
pub open spec fn left_of(k: Kyde) -> Option<(PathV, SessionV)> {
    match k.repo_root {
        Some(r) => Some((r@, state_v(k))),
        None => None,
    }
}

/// The session that opening `path` restores, given the stored sessions `f` and the
/// project left: the one just stored when `path` is that project, else `path`'s own.
pub open spec fn saved_for(f: spec_fn(PathV) -> Option<SessionV>, left: Option<(PathV, SessionV)>, path: PathV) -> Option<SessionV> {
    match left {
        Some((r, s)) => if r == path {
            Some(s)
        } else {
            f(path)
        },
        None => f(path),
    }
}

/// The stored sessions after opening `path`: the project left keeps its current state,
/// `path` has none (its session is in use), every other project keeps its own.
pub open spec fn sessions_after_open(f: spec_fn(PathV) -> Option<SessionV>, left: Option<(PathV, SessionV)>, path: PathV) -> spec_fn(PathV) -> Option<SessionV> {
    |x: PathV| if x == path {
        None
    } else {
        match left {
            Some((r, s)) => if r == x {
                Some(s)
            } else {
                f(x)
            },
            None => f(x),
        }
    }
}

/// The editor state after opening `path`: its stored session restored, else a fresh one.
pub open spec fn state_after_open(f: spec_fn(PathV) -> Option<SessionV>, left: Option<(PathV, SessionV)>, path: PathV) -> SessionV {
    match saved_for(f, left, path) {
        Some(s) => restored(s),
        None => fresh_session(),
    }
}

/// What loading a project asks of the host: re-read status, and reopen the session's file.
pub open spec fn load_effects(saved: Option<SessionV>) -> Seq<Effect> {
    match saved {
        Some(s) => if s.1 is Some {
            seq![Effect::Refresh, Effect::LoadOpenFile, Effect::ScrollTabIntoView, Effect::LoadFontPreview]
        } else {
            seq![Effect::Refresh]
        },
        None => seq![Effect::Refresh],
    }
}

/// The stored sessions of `k` as a function of the project root.
pub open spec fn sessions_of(k: Kyde) -> spec_fn(PathV) -> Option<SessionV> {
    |x: PathV| session_for(k.project_sessions@, x)
}

/// `after` differs from `before` only in the open projects, the stored sessions, the
/// active root and the state a session keeps; the tree selection follows a reopened file
/// and is otherwise kept.
pub open spec fn only_session_changed(before: Kyde, after: Kyde) -> bool {
    &&& after == (Kyde {
        repo_root: after.repo_root,
        open_projects: after.open_projects,
        project_sessions: after.project_sessions,
        mode: after.mode,
        selected: after.selected,
        browse: BrowseState {
            open_tabs: after.browse.open_tabs,
            preview_tab: after.browse.preview_tab,
            open_path: after.browse.open_path,
            selected_path: after.browse.selected_path,
            expanded: after.browse.expanded,
            ..before.browse
        },
        ..before
    })
    &&& opt_view(after.browse.selected_path) == match opt_view(after.browse.open_path) {
        Some(p) => Some(p),
        None => opt_view(before.browse.selected_path),
    }
}

/// `after` is `before` with project `path` opened (see [`Kyde::open_project`]): `path` is
/// active, its tab appended once at the end (the order kept), the project left stored,
/// `path`'s session taken out and restored, `effects` asked of the host, and nothing else
/// changed (see [`only_session_changed`]).
pub open spec fn opened(before: Kyde, after: Kyde, path: PathV, effects: Seq<Effect>) -> bool {
    &&& opt_view(after.repo_root) == Some(path)
    &&& paths_view(after.open_projects@) == if has_path(before.open_projects@, path) {
        paths_view(before.open_projects@)
    } else {
        paths_view(before.open_projects@).push(path)
    }
    &&& forall|x: PathV| #[trigger] session_for(after.project_sessions@, x) == sessions_after_open(
        sessions_of(before),
        left_of(before),
        path,
    )(x)
    &&& state_v(after) == state_after_open(sessions_of(before), left_of(before), path)
    &&& effects == seq![Effect::TouchRecents] + load_effects(saved_for(sessions_of(before), left_of(before), path))
    &&& only_session_changed(before, after)
}

/// Switching preserves the project you leave: open `path`, then open the project left
/// again, and its state is back as it was (when its tabs hold its open file and preview
/// tab, as the tab bookkeeping keeps them).
pub proof fn law_switch_preserves_left(
    f: spec_fn(PathV) -> Option<SessionV>,
    r: PathV,
    s: SessionV,
    path: PathV,
    s1: SessionV,
)
    requires
        r != path,
        tabs_wf(s.2, s.3, s.1),
    ensures
        state_after_open(sessions_after_open(f, Some((r, s)), path), Some((path, s1)), r) == s,
{
    law_switch_back_restores(s);
}

/// Whether a recent project matches the lower-cased search text `q`: every one does for
/// an empty search, else those whose folder name or path, lower-cased, holds it.
pub open spec fn recent_match(q: Seq<u8>) -> spec_fn(PathV) -> bool {
    |p: PathV| q.len() == 0 || holds_sub(lowercase(name_or_empty(p)), q) || holds_sub(
        lowercase(display_v(p)),
        q,
    )
}

/// The recent projects that the Projects screen lists for the search text `query`
/// (matched without regard to case), in their order.
pub fn recent_matches(paths: &Vec<FsPath>, query: &Vec<u8>) -> (r: Vec<FsPath>)
    ensures
        paths_view(r@) == paths_view(paths@).filter(recent_match(lowercase(query@))),
{
    let q = to_lower(query);
    let ghost pv = paths_view(paths@);
    let ghost f = recent_match(q@);
    let mut r: Vec<FsPath> = Vec::new();
    let mut i: usize = 0;
    assert(pv.subrange(0, 0).filter(f) =~= Seq::<PathV>::empty());
    while i < paths.len()
        invariant
            i <= paths@.len(),
            pv == paths_view(paths@),
            f == recent_match(q@),
            q@ == lowercase(query@),
            paths_view(r@) == pv.subrange(0, i as int).filter(f),
        decreases paths@.len() - i,
    {
        let p = &paths[i];
        let keep = q.len() == 0 || holds_bytes(&to_lower(&name_or_empty_bytes(p)), &q) || holds_bytes(
            &to_lower(&p.display_bytes()),
            &q,
        );
        proof {
            crate::path::lemma_filter_push(pv.subrange(0, i as int), pv[i as int], f);
            assert(pv.subrange(0, i + 1) =~= pv.subrange(0, i as int).push(pv[i as int]));
            assert(f(pv[i as int]) == keep);
        }
        if keep {
            let ghost before = r@;
            r.push(p.duplicate());
            assert(paths_view(r@) =~= paths_view(before).push(p@));
        }
        i = i + 1;
    }
    assert(pv.subrange(0, paths@.len() as int) =~= pv);
    r
}

/// The project tab that becomes active after closing tab `idx` of `before`: the one that
/// shifted into its slot, else the one before it.
pub open spec fn close_neighbor_project(before: Seq<FsPath>, idx: int) -> PathV {
    let after = before.remove(idx);
    after[if idx < after.len() {
        idx
    } else {
        after.len() - 1
    }]@
}

/// Other projects' sessions are unaffected by dropping the entries of `r`.
pub proof fn lemma_session_for_without(v: Seq<SessionEntry>, r: PathV, x: PathV)
    ensures
        session_for(without(v, r), x) == if x == r {
            None
        } else {
            session_for(v, x)
        },
    decreases v.len(),
{
    if v.len() > 0 {
        let w = v.drop_last();
        let e = v.last();
        crate::path::lemma_filter_push(w, e, keeps(r));
        assert(w.push(e) =~= v);
        lemma_session_for_without(w, r, x);
        if e.root@ != r {
            let fw = without(w, r);
            assert(without(v, r) == fw.push(e));
            assert(fw.push(e).last() == e);
            assert(fw.push(e).drop_last() =~= fw);
        } else {
            assert(without(v, r) == without(w, r));
        }
    } else {
        assert(without(v, r) =~= Seq::<SessionEntry>::empty());
    }
}

/// Store `session` for `root`, replacing any earlier one.
pub fn put_session(v: &mut Vec<SessionEntry>, root: FsPath, session: ProjectSession)
    ensures
        final(v)@ == without(old(v)@, root@).push(SessionEntry { root: root, session: session }),
        session_for(final(v)@, root@) == Some(session_v(session)),
        forall|x: PathV| x != root@ ==> #[trigger] session_for(final(v)@, x) == session_for(old(v)@, x),
{
    let ghost key = root@;
    take_session(v, &root);
    let ghost mid = v@;
    v.push(SessionEntry { root: root, session: session });
    assert(v@.drop_last() =~= mid);
    proof {
        assert forall|x: PathV| x != key implies #[trigger] session_for(v@, x) == session_for(old(v)@, x) by {
            lemma_session_for_without(old(v)@, key, x);
        }
    }
}

/// Take out the session stored for `root`, dropping its entries.
pub fn take_session(v: &mut Vec<SessionEntry>, root: &FsPath) -> (r: Option<ProjectSession>)
    ensures
        final(v)@ == without(old(v)@, root@),
        match r {
            Some(s) => session_for(old(v)@, root@) == Some(session_v(s)),
            None => session_for(old(v)@, root@) is None,
        },
{
    let ghost orig = v@;
    let ghost f = keeps(root@);
    let mut src: Vec<SessionEntry> = Vec::new();
    std::mem::swap(&mut src, v);
    let mut found: Option<ProjectSession> = None;
    let mut k: usize = 0;
    let total = src.len();
    assert(orig.subrange(0, 0).filter(f) =~= Seq::<SessionEntry>::empty());
    while src.len() > 0
        invariant
            k + src@.len() == orig.len(),
            orig.len() == total,
            f == keeps(root@),
            src@ == orig.subrange(k as int, orig.len() as int),
            v@ == orig.subrange(0, k as int).filter(f),
            match found {
                Some(s) => session_for(orig.subrange(0, k as int), root@) == Some(session_v(s)),
                None => session_for(orig.subrange(0, k as int), root@) is None,
            },
        decreases src@.len(),
    {
        let e = src.remove(0);
        let ghost pre = orig.subrange(0, k as int);
        let ghost post = orig.subrange(0, k + 1);
        assert(post =~= pre.push(e));
        assert(post.drop_last() =~= pre);
        proof {
            crate::path::lemma_filter_push(pre, e, f);
        }
        let hit = e.root.same(root);
        assert(f(e) == !hit);
        if hit {
            found = Some(e.session);
        } else {
            let ghost before = v@;
            v.push(e);
            assert(v@ == before.push(e));
        }
        k = k + 1;
        assert(src@ =~= orig.subrange(k as int, orig.len() as int));
    }
    assert(orig.subrange(0, k as int) =~= orig);
    found
}

impl Kyde {
    /// Store the active project's UI state as its session (nothing on the landing view).
    pub fn save_active_session(&mut self)
        ensures
            match old(self).repo_root {
                Some(r) => {
                    &&& session_for(final(self).project_sessions@, r@) == Some(state_v(*old(self)))
                    &&& forall|x: PathV| x != r@ ==> #[trigger] session_for(final(self).project_sessions@, x)
                        == session_for(old(self).project_sessions@, x)
                    &&& final(self).project_sessions@.len() == without(old(self).project_sessions@, r@).len() + 1
                },
                None => final(self).project_sessions == old(self).project_sessions,
            },
            state_v(*final(self)) == state_v(*old(self)),
            *final(self) == (Kyde { project_sessions: final(self).project_sessions, ..*old(self) }),
    {
        match &self.repo_root {
            Some(root) => {
                let session = ProjectSession {
                    mode: self.mode,
                    open_path: opt_duplicate(&self.browse.open_path),
                    open_tabs: copy_paths(&self.browse.open_tabs),
                    preview_tab: opt_duplicate(&self.browse.preview_tab),
                    selected: self.selected,
                    expanded: copy_paths(&self.browse.expanded),
                };
                let r = root.duplicate();
                put_session(&mut self.project_sessions, r, session);
            },
            None => {},
        }
    }

    /// Make `path` the active project: restore its stored session (reopening its file and
    /// putting its preview tab back), else start fresh in Browse with the root expanded.
    /// Either way status is re-read.
    #[verifier::rlimit(80)]
    pub fn load_project_state(&mut self, path: FsPath) -> (effects: Vec<Effect>)
        ensures
            opt_view(final(self).repo_root) == Some(path@),
            final(self).project_sessions@ == without(old(self).project_sessions@, path@),
            match session_for(old(self).project_sessions@, path@) {
                Some(s) => {
                    &&& state_v(*final(self)) == restored(s)
                    &&& effects@ == if s.1 is Some {
                        seq![Effect::Refresh, Effect::LoadOpenFile, Effect::ScrollTabIntoView, Effect::LoadFontPreview]
                    } else {
                        seq![Effect::Refresh]
                    }
                },
                None => state_v(*final(self)) == fresh_session() && effects@ == seq![Effect::Refresh],
            },
            final(self).open_projects == old(self).open_projects,
            only_session_changed(*old(self), *final(self)),
    {
        self.repo_root = Some(path.duplicate());
        let mut effects: Vec<Effect> = Vec::new();
        match take_session(&mut self.project_sessions, &path) {
            Some(s) => {
                self.mode = s.mode;
                self.browse.expanded = s.expanded;
                self.browse.open_tabs = s.open_tabs;
                self.browse.preview_tab = s.preview_tab;
                self.selected = s.selected;
                effects.push(Effect::Refresh);
                let preview = opt_duplicate(&self.browse.preview_tab);
                match s.open_path {
                    Some(p) => {
                        let mut opened = self.open_file(p);
                        effects.append(&mut opened);
                    },
                    None => {
                        self.browse.open_path = None;
                    },
                }
                self.browse.preview_tab = preview;
            },
            None => {
                self.mode = Mode::Browse;
                self.browse.open_path = None;
                self.browse.open_tabs = Vec::new();
                self.browse.preview_tab = None;
                self.selected = None;
                let mut expanded: Vec<FsPath> = Vec::new();
                expanded.push(FsPath::root());
                self.browse.expanded = expanded;
                effects.push(Effect::Refresh);
                assert(paths_view(self.browse.expanded@) =~= seq![root_v()]);
                assert(paths_view(self.browse.open_tabs@) =~= Seq::<PathV>::empty());
            },
        }
        effects
    }

    /// Open a folder as the active project, or switch to it when it is open: record it in
    /// recents, store the session of the project left, add its tab, and load its state.
    pub fn open_project(&mut self, path: FsPath) -> (effects: Vec<Effect>)
        ensures
            opened(*old(self), *final(self), path@, effects@),
    {
        let ghost k0 = *self;
        let ghost pv = path@;
        let mut effects: Vec<Effect> = Vec::new();
        effects.push(Effect::TouchRecents);
        self.save_active_session();
        let ghost k1 = *self;
        insert_path(&mut self.open_projects, path.duplicate());
        let mut loaded = self.load_project_state(path);
        effects.append(&mut loaded);
        proof {
            let f = sessions_of(k0);
            let left = left_of(k0);
            assert(saved_for(f, left, pv) == session_for(k1.project_sessions@, pv));
            assert forall|x: PathV| #[trigger] session_for(self.project_sessions@, x) == sessions_after_open(f, left, pv)(x) by {
                lemma_session_for_without(k1.project_sessions@, pv, x);
            }
            assert(paths_view(self.open_projects@) == if has_path(k0.open_projects@, pv) {
                paths_view(k0.open_projects@)
            } else {
                paths_view(k0.open_projects@).push(pv)
            });
            assert(effects@ =~= seq![Effect::TouchRecents] + load_effects(saved_for(f, left, pv)));
        }
        effects
    }

    /// Close project tab `root`. Closing the active project switches to the tab that
    /// shifted into its slot (else the one before); closing the last returns to the
    /// landing view. A project that is not open is ignored.
    pub fn close_project(&mut self, root: &FsPath) -> (effects: Vec<Effect>)
        ensures
            match position_spec(old(self).open_projects@, root@) {
                None => *final(self) == *old(self) && effects@.len() == 0,
                Some(idx) => {
                    &&& final(self).open_projects@ == old(self).open_projects@.remove(idx)
                    &&& session_for(final(self).project_sessions@, root@) is None
                    &&& if opt_view(old(self).repo_root) != Some(root@) {
                        &&& *final(self) == (Kyde {
                            open_projects: final(self).open_projects,
                            project_sessions: final(self).project_sessions,
                            ..*old(self)
                        })
                        &&& final(self).project_sessions@ == without(old(self).project_sessions@, root@)
                        &&& effects@.len() == 0
                    } else if old(self).open_projects@.len() == 1 {
                        &&& final(self).project_sessions@ == without(old(self).project_sessions@, root@)
                        &&& final(self).repo_root is None
                        &&& final(self).browse.open_path is None
                        &&& final(self).browse.open_tabs@.len() == 0
                        &&& final(self).browse.preview_tab is None
                        &&& final(self).selected is None
                        &&& *final(self) == (Kyde {
                            repo_root: final(self).repo_root,
                            open_projects: final(self).open_projects,
                            project_sessions: final(self).project_sessions,
                            selected: final(self).selected,
                            browse: BrowseState {
                                open_path: final(self).browse.open_path,
                                open_tabs: final(self).browse.open_tabs,
                                preview_tab: final(self).browse.preview_tab,
                                ..old(self).browse
                            },
                            ..*old(self)
                        })
                        &&& effects@.len() == 0
                    } else {
                        let next = close_neighbor_project(old(self).open_projects@, idx);
                        &&& opt_view(final(self).repo_root) == Some(next)
                        &&& final(self).project_sessions@ == without(without(old(self).project_sessions@, root@), next)
                        &&& match session_for(without(old(self).project_sessions@, root@), next) {
                            Some(s) => state_v(*final(self)) == restored(s),
                            None => state_v(*final(self)) == fresh_session(),
                        }
                        &&& only_session_changed(*old(self), *final(self))
                    }
                },
            },
    {
        let idx = match position_path(&self.open_projects, root) {
            None => {
                return Vec::new();
            },
            Some(i) => i,
        };
        let was_active = match &self.repo_root {
            Some(r) => r.same(root),
            None => false,
        };
        self.open_projects.remove(idx);
        take_session(&mut self.project_sessions, root);
        proof {
            lemma_session_for_without(old(self).project_sessions@, root@, root@);
        }
        if !was_active {
            return Vec::new();
        }
        if self.open_projects.len() == 0 {
            self.repo_root = None;
            self.browse.open_path = None;
            self.browse.open_tabs = Vec::new();
            self.browse.preview_tab = None;
            self.selected = None;
            return Vec::new();
        }
        let n = self.open_projects.len();
        let j = if idx < n {
            idx
        } else {
            n - 1
        };
        let next = self.open_projects[j].duplicate();
        let ghost mid = self.project_sessions@;
        let effects = self.load_project_state(next);
        proof {
            lemma_session_for_without(mid, self.repo_root.unwrap()@, root@);
        }
        effects
    }

    /// Open a project chosen from the recent-projects menu (its path as text).
    pub fn open_recent_project(&mut self, path: &Vec<u8>) -> (effects: Vec<Effect>)
        ensures
            opened(*old(self), *final(self), parse_path_spec(path@), effects@),
    {
        let p = path_from_bytes(path);
        self.open_project(p)
    }

    /// File → Open…: pick a folder to open as a new project tab.
    pub fn act_open_project(&self) -> (effects: Vec<Effect>)
        ensures
            effects@ == seq![Effect::PickFolder],
    {
        let mut effects: Vec<Effect> = Vec::new();
        effects.push(Effect::PickFolder);
        effects
    }
}

/// The index of the first path equal to `p`.
pub open spec fn position_spec(v: Seq<FsPath>, p: PathV) -> Option<int> {
    if exists|i: int| 0 <= i < v.len() && (#[trigger] v[i])@ == p {
        Some(choose|i: int| 0 <= i < v.len() && (#[trigger] v[i])@ == p && forall|k: int| 0 <= k < i ==> (#[trigger] v[k])@ != p)
    } else {
        None
    }
}

/// Switching away from a project and back restores exactly what was stored: when the
/// stored tabs hold the open file (and the preview tab), reopening it changes nothing.
pub proof fn law_switch_back_restores(s: SessionV)
    requires
        tabs_wf(s.2, s.3, s.1),
    ensures
        restored(s) == s,
{
}

/// Switching preserves the project you leave, stated of the editor: open another
/// project with [`Kyde::open_project`], then open the one left again, and the editor is
/// back in the state it was in (mode, open file, tabs, preview tab, selected change,
/// expanded folders) when its tabs hold its open file and preview tab.
pub proof fn law_open_project_round_trip(k0: Kyde, k1: Kyde, k2: Kyde, path: PathV, e1: Seq<Effect>, e2: Seq<Effect>)
    requires
        k0.repo_root is Some,
        k0.repo_root.unwrap()@ != path,
        tabs_wf(k0.browse.tabs_v(), opt_view(k0.browse.preview_tab), opt_view(k0.browse.open_path)),
        opened(k0, k1, path, e1),
        opened(k1, k2, k0.repo_root.unwrap()@, e2),
    ensures
        state_v(k2) == state_v(k0),
        opt_view(k2.repo_root) == opt_view(k0.repo_root),
{
    let r = k0.repo_root.unwrap()@;
    assert(session_for(k1.project_sessions@, r) == sessions_after_open(sessions_of(k0), left_of(k0), path)(r));
    assert(saved_for(sessions_of(k1), left_of(k1), r) == Some(state_v(k0)));
    law_switch_back_restores(state_v(k0));
}

} // verus!
