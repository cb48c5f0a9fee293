//! The branch switcher and the worktree switcher: which branches the popup offers, pull
//! and fetch bookkeeping, checking out (or jumping to the worktree that holds a branch),
//! and switching worktrees.
use vstd::prelude::*;
use vstd::string::StrSliceExecFns;
use vstd::string::StringSliceAdditionalSpecFns;
use crate::bytes::{bytes_eq, copy_bytes, concat, prefix_bytes};
use crate::path::{FsPath, PathV, display_v, file_name_v};
use crate::merge::opt_bytes;
use crate::names::{name_set, name_taken};
use crate::model::{Kyde, Effect, ModalKind, Worktree, BranchState, WorktreeState, SyncState};
use crate::browse::opt_view;
use crate::projects::opened;

verus! {

/// How the branch popup shows one local branch.
pub struct BranchLeaf {
    pub is_current: bool,
    /// The directory name of the other worktree that has it checked out.
    pub elsewhere: Option<Vec<u8>>,
    pub disabled: bool,
}

/// A branch for the host to create.
pub struct CreateBranchPlan {
    pub root: FsPath,
    pub name: Vec<u8>,
    pub checkout: bool,
    pub overwrite: bool,
}

/// The generation after `g`, wrapping at the top.
pub open spec fn next_gen(g: u64) -> u64 {
    if g == u64::MAX {
        0
    } else {
        (g + 1) as u64
    }
}

/// A background result carries the generation of the request that started it; once a
/// newer request starts, the generation moves on and that older result is dropped: for
/// the debounced status refresh ([`Kyde::status_refresh_due`]) and the worktree counts
/// ([`Kyde::worktree_counts_done`]) alike.
pub proof fn law_newer_request_drops_older(g: u64)
    ensures
        next_gen(g) != g,
{
}

/// The index of the first `'/'` in `s`.
pub open spec fn first_slash(s: Seq<u8>) -> Option<int> {
    if exists|i: int| 0 <= i < s.len() && s[i] == 47u8 {
        Some(choose|i: int| 0 <= i < s.len() && s[i] == 47u8 && forall|k: int| 0 <= k < i ==> s[k] != 47u8)
    } else {
        None
    }
}

/// A remote-tracking branch's short name: what follows the remote's name and the first
/// `'/'` ("origin/feature/x" → "feature/x"); `None` without a `'/'`.
pub open spec fn remote_short(r: Seq<u8>) -> Option<Seq<u8>> {
    match first_slash(r) {
        Some(i) => Some(r.skip(i + 1)),
        None => None,
    }
}

/// The remote branches the popup offers, in order: each short name once, leaving out
/// those that exist locally.
pub open spec fn remote_only_spec(remotes: Seq<Seq<u8>>, local: Set<Seq<u8>>) -> Seq<Seq<u8>>
    decreases remotes.len(),
{
    if remotes.len() == 0 {
        Seq::empty()
    } else {
        let rest = remote_only_spec(remotes.drop_last(), local);
        match remote_short(remotes.last()) {
            Some(s) => if !local.contains(s) && !rest.contains(s) {
                rest.push(s)
            } else {
                rest
            },
            None => rest,
        }
    }
}

/// The byte strings of a list.
pub open spec fn bytes_view(v: Seq<Vec<u8>>) -> Seq<Seq<u8>> {
    v.map_values(|b: Vec<u8>| b@)
}

/// Two worktree roots are the same directory: equal paths, or equal once both are
/// resolved (symlink aliases).
pub open spec fn same_dir_spec(a: PathV, b: PathV, ca: Option<PathV>, cb: Option<PathV>) -> bool {
    a == b || (ca is Some && cb is Some && ca == cb)
}

/// See [`remote_short`].
pub fn remote_short_name(r: &Vec<u8>) -> (s: Option<Vec<u8>>)
    ensures
        match remote_short(r@) {
            Some(x) => s matches Some(v) && v@ == x,
            None => s is None,
        },
{
    let mut i: usize = 0;
    while i < r.len()
        invariant
            i <= r@.len(),
            forall|k: int| 0 <= k < i ==> r@[k] != 47u8,
        decreases r@.len() - i,
    {
        if r[i] == 47u8 {
            proof {
                let j = choose|j: int| 0 <= j < r@.len() && r@[j] == 47u8 && forall|k: int| 0 <= k < j ==> r@[k] != 47u8;
                if j < i {
                    assert(r@[j] != 47u8);
                }
                if j > i {
                    assert(r@[i as int] != 47u8);
                }
            }
            let rest = crate::bytes::suffix_bytes(r, i + 1);
            return Some(rest);
        }
        i = i + 1;
    }
    None
}

/// See [`remote_only_spec`].
pub fn remote_only(remotes: &Vec<Vec<u8>>, local: &Vec<Vec<u8>>) -> (r: Vec<Vec<u8>>)
    ensures
        bytes_view(r@) == remote_only_spec(bytes_view(remotes@), name_set(local@)),
{
    let mut out: Vec<Vec<u8>> = Vec::new();
    let mut i: usize = 0;
    while i < remotes.len()
        invariant
            i <= remotes@.len(),
            bytes_view(out@) == remote_only_spec(bytes_view(remotes@.subrange(0, i as int)), name_set(local@)),
        decreases remotes@.len() - i,
    {
        let ghost sub = bytes_view(remotes@.subrange(0, i + 1));
        assert(sub.drop_last() =~= bytes_view(remotes@.subrange(0, i as int)));
        assert(sub.last() == remotes@[i as int]@);
        match remote_short_name(&remotes[i]) {
            Some(s) => {
                let seen = name_taken(&out, &s);
                proof {
                    let ov = bytes_view(out@);
                    if ov.contains(s@) {
                        let k = choose|k: int| 0 <= k < ov.len() && ov[k] == s@;
                        assert(out@[k]@ == s@);
                    }
                    if name_set(out@).contains(s@) {
                        let k = choose|k: int| 0 <= k < out@.len() && (#[trigger] out@[k])@ == s@;
                        assert(ov[k] == s@);
                    }
                }
                if !name_taken(local, &s) && !seen {
                    let ghost before = out@;
                    out.push(s);
                    assert(bytes_view(out@) =~= bytes_view(before).push(out@.last()@));
                }
            },
            None => {},
        }
        i = i + 1;
    }
    assert(remotes@.subrange(0, remotes@.len() as int) =~= remotes@);
    out
}

/// The remote branches offered never repeat and never shadow a local branch.
pub proof fn law_remote_only_distinct(remotes: Seq<Seq<u8>>, local: Set<Seq<u8>>)
    ensures
        forall|i: int, j: int|
            0 <= i < j < remote_only_spec(remotes, local).len() ==> #[trigger] remote_only_spec(remotes, local)[i]
                != #[trigger] remote_only_spec(remotes, local)[j],
        forall|i: int|
            0 <= i < remote_only_spec(remotes, local).len() ==> !local.contains(
                #[trigger] remote_only_spec(remotes, local)[i],
            ),
    decreases remotes.len(),
{
    if remotes.len() > 0 {
        law_remote_only_distinct(remotes.drop_last(), local);
        let rest = remote_only_spec(remotes.drop_last(), local);
        let all = remote_only_spec(remotes, local);
        match remote_short(remotes.last()) {
            Some(s) => {
                if !local.contains(s) && !rest.contains(s) {
                    assert(all == rest.push(s));
                    assert forall|i: int, j: int| 0 <= i < j < all.len() implies #[trigger] all[i] != #[trigger] all[j] by {
                        if j == all.len() - 1 {
                            assert(all[i] == rest[i]);
                            if all[i] == all[j] {
                                assert(rest.contains(s));
                            }
                        } else {
                            assert(all[i] == rest[i] && all[j] == rest[j]);
                        }
                    }
                    assert forall|i: int| 0 <= i < all.len() implies !local.contains(#[trigger] all[i]) by {
                        if i < rest.len() {
                            assert(all[i] == rest[i]);
                        }
                    }
                } else {
                    assert(all == rest);
                }
            },
            None => {
                assert(all == rest);
            },
        }
    }
}

/// `set.insert(x)` on a list of names: appended when absent.
pub fn insert_name(v: &mut Vec<Vec<u8>>, x: Vec<u8>)
    ensures
        name_set(final(v)@) == name_set(old(v)@).insert(x@),
{
    if !name_taken(v, &x) {
        let ghost xv = x@;
        v.push(x);
        assert forall|y: Seq<u8>| name_set(v@).contains(y) <==> name_set(old(v)@).insert(xv).contains(y) by {
            if name_set(v@).contains(y) {
                let k = choose|k: int| 0 <= k < v@.len() && (#[trigger] v@[k])@ == y;
                if k < old(v)@.len() {
                    assert(old(v)@[k] == v@[k]);
                }
            }
            if name_set(old(v)@).contains(y) {
                let k = choose|k: int| 0 <= k < old(v)@.len() && (#[trigger] old(v)@[k])@ == y;
                assert(v@[k] == old(v)@[k]);
            }
            if y == xv {
                assert(v@[old(v)@.len() as int]@ == y);
            }
        }
        assert(name_set(v@) =~= name_set(old(v)@).insert(xv));
    } else {
        assert(name_set(old(v)@) =~= name_set(old(v)@).insert(x@));
    }
}

/// `set.remove(x)` on a list of names: every copy dropped. Returns whether it was there.
pub fn remove_name(v: &mut Vec<Vec<u8>>, x: &Vec<u8>) -> (r: bool)
    ensures
        r == name_set(old(v)@).contains(x@),
        name_set(final(v)@) == name_set(old(v)@).remove(x@),
{
    let ghost orig = v@;
    let mut out: Vec<Vec<u8>> = Vec::new();
    let mut found = false;
    let mut i: usize = 0;
    while i < v.len()
        invariant
            i <= v@.len(),
            v@ == orig,
            found == name_set(orig.subrange(0, i as int)).contains(x@),
            name_set(out@) == name_set(orig.subrange(0, i as int)).remove(x@),
        decreases v@.len() - i,
    {
        let ghost pre = orig.subrange(0, i as int);
        let ghost post = orig.subrange(0, i + 1);
        assert(post =~= pre.push(orig[i as int]));
        assert forall|y: Seq<u8>| name_set(post).contains(y) <==> (name_set(pre).contains(y) || y == orig[i as int]@) by {
            if name_set(post).contains(y) {
                let k = choose|k: int| 0 <= k < post.len() && (#[trigger] post[k])@ == y;
                if k < pre.len() {
                    assert(pre[k] == post[k]);
                }
            }
            if name_set(pre).contains(y) {
                let k = choose|k: int| 0 <= k < pre.len() && (#[trigger] pre[k])@ == y;
                assert(post[k] == pre[k]);
            }
            if y == orig[i as int]@ {
                assert(post[i as int]@ == y);
            }
        }
        if bytes_eq(&v[i], x) {
            found = true;
            assert(orig[i as int]@ == x@);
            assert forall|y: Seq<u8>| name_set(out@).contains(y) <==> name_set(post).remove(x@).contains(y) by {
                assert(name_set(out@).contains(y) == name_set(pre).remove(x@).contains(y));
                assert(name_set(post).contains(y) <==> (name_set(pre).contains(y) || y == orig[i as int]@));
                if y != x@ {
                    assert(name_set(post).contains(y) <==> name_set(pre).contains(y));
                    assert(name_set(post).remove(x@).contains(y) == name_set(post).contains(y));
                    assert(name_set(pre).remove(x@).contains(y) == name_set(pre).contains(y));
                } else {
                    assert(!name_set(post).remove(x@).contains(y));
                    assert(!name_set(pre).remove(x@).contains(y));
                }
            }
            assert(name_set(out@) =~= name_set(post).remove(x@));
        } else {
            let ghost before = out@;
            out.push(copy_bytes(&v[i]));
            assert forall|y: Seq<u8>| name_set(out@).contains(y) <==> (name_set(before).contains(y) || y == orig[i as int]@) by {
                if name_set(out@).contains(y) {
                    let k = choose|k: int| 0 <= k < out@.len() && (#[trigger] out@[k])@ == y;
                    if k < before.len() {
                        assert(before[k] == out@[k]);
                    }
                }
                if name_set(before).contains(y) {
                    let k = choose|k: int| 0 <= k < before.len() && (#[trigger] before[k])@ == y;
                    assert(out@[k] == before[k]);
                }
                if y == orig[i as int]@ {
                    assert(out@[before.len() as int]@ == y);
                }
            }
            assert(orig[i as int]@ != x@);
            assert forall|y: Seq<u8>| name_set(out@).contains(y) <==> name_set(post).remove(x@).contains(y) by {
                assert(name_set(before).contains(y) == name_set(pre).remove(x@).contains(y));
                assert(name_set(post).contains(y) <==> (name_set(pre).contains(y) || y == orig[i as int]@));
                if y == x@ {
                    assert(!name_set(post).remove(x@).contains(y));
                    assert(!name_set(pre).remove(x@).contains(y));
                } else {
                    assert(name_set(post).remove(x@).contains(y) == name_set(post).contains(y));
                    assert(name_set(pre).remove(x@).contains(y) == name_set(pre).contains(y));
                }
            }
            assert(name_set(out@) =~= name_set(post).remove(x@));
        }
        i = i + 1;
    }
    assert(orig.subrange(0, orig.len() as int) =~= orig);
    *v = out;
    found
}

/// A worktree's display name: its last path component.
pub fn dir_name(p: &FsPath) -> (r: Option<Vec<u8>>)
    ensures
        match file_name_v(p@) {
            Some(n) => r matches Some(v) && v@ == n,
            None => r is None,
        },
{
    p.file_name()
}

/// Whether two worktree roots are the same directory (see [`same_dir_spec`]); `ca` and
/// `cb` are the roots with symlinks resolved, where the host could resolve them.
pub fn same_dir(a: &FsPath, b: &FsPath, ca: &Option<FsPath>, cb: &Option<FsPath>) -> (r: bool)
    ensures
        r == same_dir_spec(a@, b@, opt_view(*ca), opt_view(*cb)),
{
    if a.same(b) {
        return true;
    }
    match (ca, cb) {
        (Some(x), Some(y)) => x.same(y),
        _ => false,
    }
}

/// Whether worktree `w` is the project at `root` (`root_canon`: `root` resolved).
pub open spec fn is_root_worktree(w: Worktree, root: PathV, root_canon: Option<PathV>) -> bool {
    same_dir_spec(w.path@, root, opt_view(w.canonical), root_canon)
}

/// Whether worktree `w` is another project's checkout of `branch`.
pub open spec fn holds_branch_elsewhere(w: Worktree, branch: Seq<u8>, root: PathV, root_canon: Option<PathV>) -> bool {
    !is_root_worktree(w, root, root_canon) && (w.branch matches Some(b) && b@ == branch)
}

impl Kyde {
    /// Open or close the branch popup. Opening closes the worktree popup, lists the local
    /// branches (`local`) and the remote ones without a local branch (`remote`, each
    /// short name once), expands the recent section and focuses a cleared search field.
    /// `None` for either list means git could not read it (it shows empty).
    pub fn toggle_branch_popup(&mut self, local: Option<Vec<Vec<u8>>>, remote: Option<Vec<Vec<u8>>>) -> (effects: Vec<Effect>)
        ensures
            if old(self).branch.popup_open {
                !final(self).branch.popup_open && effects@ == seq![Effect::FocusRoot]
            } else {
                let lv = match local {
                    Some(l) => l@,
                    None => Seq::<Vec<u8>>::empty(),
                };
                let rv = match remote {
                    Some(r) => r@,
                    None => Seq::<Vec<u8>>::empty(),
                };
                &&& final(self).branch.popup_open
                &&& !final(self).worktree.popup_open
                &&& final(self).branch.list@ == lv
                &&& bytes_view(final(self).branch.remotes@) == remote_only_spec(bytes_view(rv), name_set(lv))
                &&& name_set(final(self).branch.expanded@) == name_set(old(self).branch.expanded@).insert(
                    "sec:recent".spec_bytes(),
                )
                &&& effects@ == seq![Effect::FocusBranchQuery]
            },
            *final(self) == (Kyde { branch: final(self).branch, worktree: WorktreeState { popup_open: final(self).worktree.popup_open, ..old(self).worktree }, ..*old(self) }),
    {
        let mut effects: Vec<Effect> = Vec::new();
        if self.branch.popup_open {
            self.branch.popup_open = false;
            effects.push(Effect::FocusRoot);
            return effects;
        }
        self.worktree.popup_open = false;
        let list = match local {
            Some(l) => l,
            None => Vec::new(),
        };
        let rem = match remote {
            Some(r) => r,
            None => Vec::new(),
        };
        self.branch.remotes = remote_only(&rem, &list);
        self.branch.list = list;
        insert_name(&mut self.branch.expanded, "sec:recent".as_bytes_vec());
        self.branch.popup_open = true;
        effects.push(Effect::FocusBranchQuery);
        effects
    }

    /// Pull (fetch, then rebase local commits), unless one is running or no repository is
    /// open. The branch popup and context menu close.
    pub fn do_pull(&mut self) -> (effects: Vec<Effect>)
        ensures
            !final(self).branch.popup_open,
            !final(self).menu_open,
            if old(self).sync.pulling || old(self).repo_root is None {
                final(self).sync == old(self).sync && effects@.len() == 0
            } else {
                &&& final(self).sync.pulling
                &&& final(self).sync.push_msg is None
                &&& effects@ == seq![Effect::Pull]
            },
            *final(self) == (Kyde {
                branch: BranchState { popup_open: false, ..old(self).branch },
                menu_open: false,
                sync: if old(self).sync.pulling || old(self).repo_root is None {
                    old(self).sync
                } else {
                    SyncState { pulling: true, push_msg: None, ..old(self).sync }
                },
                ..*old(self)
            }),
    {
        self.branch.popup_open = false;
        self.menu_open = false;
        let mut effects: Vec<Effect> = Vec::new();
        if self.sync.pulling || self.repo_root.is_none() {
            return effects;
        }
        self.sync.pulling = true;
        self.sync.push_msg = None;
        effects.push(Effect::Pull);
        effects
    }

    /// The pull finished (`err`: why it failed): the failure is kept for the push button
    /// and shown as "Pull failed: …"; status is re-read.
    pub fn pull_done(&mut self, err: Option<Vec<u8>>) -> (effects: Vec<Effect>)
        ensures
            !final(self).sync.pulling,
            final(self).sync.push_msg == err,
            match err {
                Some(m) => final(self).pending_error matches Some(e) && e@ == "Pull failed: ".spec_bytes() + m@,
                None => final(self).pending_error == old(self).pending_error,
            },
            effects@ == seq![Effect::Refresh],
            *final(self) == (Kyde { sync: SyncState { pulling: false, push_msg: err, ..old(self).sync }, pending_error: final(self).pending_error, ..*old(self) }),
    {
        self.sync.pulling = false;
        match &err {
            Some(m) => {
                self.pending_error = Some(concat(&"Pull failed: ".as_bytes_vec(), m));
            },
            None => {},
        }
        self.sync.push_msg = err;
        let mut effects: Vec<Effect> = Vec::new();
        effects.push(Effect::Refresh);
        effects
    }

    /// Fetch the remote-tracking refs, unless a fetch is running or no repository is
    /// open. The context menu and branch popup close.
    pub fn do_fetch(&mut self) -> (effects: Vec<Effect>)
        ensures
            !final(self).branch.popup_open,
            !final(self).menu_open,
            if old(self).sync.fetching || old(self).repo_root is None {
                final(self).sync == old(self).sync && effects@.len() == 0
            } else {
                &&& final(self).sync.fetching
                &&& final(self).sync.push_msg is None
                &&& effects@ == seq![Effect::Fetch]
            },
            *final(self) == (Kyde {
                branch: BranchState { popup_open: false, ..old(self).branch },
                menu_open: false,
                sync: if old(self).sync.fetching || old(self).repo_root is None {
                    old(self).sync
                } else {
                    SyncState { fetching: true, push_msg: None, ..old(self).sync }
                },
                ..*old(self)
            }),
    {
        self.menu_open = false;
        self.branch.popup_open = false;
        let mut effects: Vec<Effect> = Vec::new();
        if self.sync.fetching || self.repo_root.is_none() {
            return effects;
        }
        self.sync.fetching = true;
        self.sync.push_msg = None;
        effects.push(Effect::Fetch);
        effects
    }

    /// The fetch finished (`err`: why it failed, shown as "Fetch failed: …"); status is
    /// re-read.
    pub fn fetch_done(&mut self, err: Option<Vec<u8>>) -> (effects: Vec<Effect>)
        ensures
            !final(self).sync.fetching,
            match err {
                Some(m) => final(self).pending_error matches Some(e) && e@ == "Fetch failed: ".spec_bytes() + m@,
                None => final(self).pending_error == old(self).pending_error,
            },
            final(self).sync.push_msg == old(self).sync.push_msg,
            effects@ == seq![Effect::Refresh],
            *final(self) == (Kyde { sync: SyncState { fetching: false, ..old(self).sync }, pending_error: final(self).pending_error, ..*old(self) }),
    {
        self.sync.fetching = false;
        match &err {
            Some(m) => {
                self.pending_error = Some(concat(&"Fetch failed: ".as_bytes_vec(), m));
            },
            None => {},
        }
        let mut effects: Vec<Effect> = Vec::new();
        effects.push(Effect::Refresh);
        effects
    }

    /// Expand or collapse a node of the branch tree.
    pub fn toggle_branch_node(&mut self, key: Vec<u8>)
        ensures
            name_set(final(self).branch.expanded@) == if name_set(old(self).branch.expanded@).contains(key@) {
                name_set(old(self).branch.expanded@).remove(key@)
            } else {
                name_set(old(self).branch.expanded@).insert(key@)
            },
            *final(self) == (Kyde { branch: BranchState { expanded: final(self).branch.expanded, ..old(self).branch }, ..*old(self) }),
    {
        if !remove_name(&mut self.branch.expanded, &key) {
            insert_name(&mut self.branch.expanded, key);
        }
    }

    /// The worktree, other than the open project, that has `branch` checked out (git
    /// refuses to check it out twice); `root_canon` is the project root resolved.
    pub fn other_worktree_for_branch(&self, branch: &Vec<u8>, root_canon: &Option<FsPath>) -> (r: Option<usize>)
        ensures
            match self.repo_root {
                None => r is None,
                Some(root) => match r {
                    Some(i) => i < self.worktree.list@.len() && holds_branch_elsewhere(
                        self.worktree.list@[i as int],
                        branch@,
                        root@,
                        opt_view(*root_canon),
                    ) && forall|k: int|
                        0 <= k < i ==> !#[trigger] holds_branch_elsewhere(
                            self.worktree.list@[k],
                            branch@,
                            root@,
                            opt_view(*root_canon),
                        ),
                    None => forall|k: int|
                        0 <= k < self.worktree.list@.len() ==> !#[trigger] holds_branch_elsewhere(
                            self.worktree.list@[k],
                            branch@,
                            root@,
                            opt_view(*root_canon),
                        ),
                },
            },
    {
        let root = match &self.repo_root {
            None => {
                return None;
            },
            Some(r) => r,
        };
        let mut i: usize = 0;
        while i < self.worktree.list.len()
            invariant
                i <= self.worktree.list@.len(),
                self.repo_root == Some(*root),
                forall|k: int|
                    0 <= k < i ==> !#[trigger] holds_branch_elsewhere(
                        self.worktree.list@[k],
                        branch@,
                        root@,
                        opt_view(*root_canon),
                    ),
            decreases self.worktree.list@.len() - i,
        {
            let w = &self.worktree.list[i];
            let here = same_dir(&w.path, root, &w.canonical, root_canon);
            let on = match &w.branch {
                Some(b) => bytes_eq(b, branch),
                None => false,
            };
            if !here && on {
                return Some(i);
            }
            i = i + 1;
        }
        None
    }

    /// Check out `name`. When another worktree holds it, switch to that worktree instead;
    /// a linked worktree (`linked`) is pinned to its branch and checks nothing out. The
    /// popup closes and focus returns to the app either way.
    pub fn checkout_branch(&mut self, name: &Vec<u8>, root_canon: &Option<FsPath>, linked: bool) -> (effects: Vec<Effect>)
        ensures
            match old(self).other_worktree_for_branch_spec(name@, opt_view(*root_canon)) {
                Some(i) => {
                    &&& !final(self).branch.popup_open
                    &&& effects@.len() >= 1 && effects@[0] == Effect::FocusRoot
                    &&& opened(
                        Kyde { branch: BranchState { popup_open: false, ..old(self).branch }, ..*old(self) },
                        *final(self),
                        old(self).worktree.list@[i as int].path@,
                        effects@.drop_first(),
                    )
                },
                None => if linked {
                    *final(self) == *old(self) && effects@.len() == 0
                } else {
                    &&& *final(self) == (Kyde { branch: BranchState { popup_open: false, ..old(self).branch }, ..*old(self) })
                    &&& effects@ == if old(self).repo_root is Some {
                        seq![Effect::FocusRoot, Effect::CheckoutBranch]
                    } else {
                        seq![Effect::FocusRoot]
                    }
                },
            },
    {
        let mut effects: Vec<Effect> = Vec::new();
        let found = self.other_worktree_for_branch(name, root_canon);
        proof {
            self.lemma_found_is_spec(name@, opt_view(*root_canon), found);
        }
        match found {
            Some(i) => {
                let path = self.worktree.list[i].path.duplicate();
                self.branch.popup_open = false;
                effects.push(Effect::FocusRoot);
                let mut done = self.open_project(path);
                self.branch.popup_open = false;
                let ghost tail = done@;
                effects.append(&mut done);
                assert(effects@.drop_first() =~= tail);
                effects
            },
            None => {
                if linked {
                    return effects;
                }
                self.branch.popup_open = false;
                effects.push(Effect::FocusRoot);
                if self.repo_root.is_some() {
                    effects.push(Effect::CheckoutBranch);
                }
                effects
            },
        }
    }

    /// The index [`Kyde::other_worktree_for_branch`] finds.
    pub open spec fn other_worktree_for_branch_spec(&self, branch: Seq<u8>, root_canon: Option<PathV>) -> Option<int> {
        match self.repo_root {
            None => None,
            Some(root) => if exists|i: int|
                0 <= i < self.worktree.list@.len() && #[trigger] holds_branch_elsewhere(
                    self.worktree.list@[i],
                    branch,
                    root@,
                    root_canon,
                ) {
                Some(
                    choose|i: int|
                        0 <= i < self.worktree.list@.len() && #[trigger] holds_branch_elsewhere(
                            self.worktree.list@[i],
                            branch,
                            root@,
                            root_canon,
                        ) && forall|k: int|
                            0 <= k < i ==> !#[trigger] holds_branch_elsewhere(
                                self.worktree.list@[k],
                                branch,
                                root@,
                                root_canon,
                            ),
                )
            } else {
                None
            },
        }
    }

    /// What [`Kyde::other_worktree_for_branch`] returns is
    /// [`Kyde::other_worktree_for_branch_spec`].
    proof fn lemma_found_is_spec(&self, branch: Seq<u8>, rc: Option<PathV>, found: Option<usize>)
        requires
            match self.repo_root {
                None => found is None,
                Some(root) => match found {
                    Some(i) => i < self.worktree.list@.len() && holds_branch_elsewhere(
                        self.worktree.list@[i as int],
                        branch,
                        root@,
                        rc,
                    ) && forall|k: int|
                        0 <= k < i ==> !#[trigger] holds_branch_elsewhere(
                            self.worktree.list@[k],
                            branch,
                            root@,
                            rc,
                        ),
                    None => forall|k: int|
                        0 <= k < self.worktree.list@.len() ==> !#[trigger] holds_branch_elsewhere(
                            self.worktree.list@[k],
                            branch,
                            root@,
                            rc,
                        ),
                },
            },
        ensures
            match found {
                Some(i) => self.other_worktree_for_branch_spec(branch, rc) == Some(i as int),
                None => self.other_worktree_for_branch_spec(branch, rc) is None,
            },
    {
        let spec = self.other_worktree_for_branch_spec(branch, rc);
        match self.repo_root {
            Some(root) => {
                match found {
                    Some(i) => {
                        let j = choose|j: int|
                            0 <= j < self.worktree.list@.len() && #[trigger] holds_branch_elsewhere(
                                self.worktree.list@[j],
                                branch,
                                root@,
                                rc,
                            ) && forall|k: int|
                                0 <= k < j ==> !#[trigger] holds_branch_elsewhere(
                                    self.worktree.list@[k],
                                    branch,
                                    root@,
                                    rc,
                                );
                        if j < i {
                            assert(!holds_branch_elsewhere(self.worktree.list@[j], branch, root@, rc));
                        }
                        if j > i {
                            assert(!holds_branch_elsewhere(self.worktree.list@[i as int], branch, root@, rc));
                        }
                        assert(spec == Some(i as int));
                    },
                    None => {
                        assert(spec is None);
                    },
                }
            },
            None => {},
        }
    }

    /// How the branch popup shows the local branch `full`: whether it is the current
    /// branch, the directory name of the other worktree that holds it (a click there jumps
    /// to that worktree), and whether the row is disabled, which it is in a worktree
    /// pinned to its branch (`pinned`) for a plain checkout.
    pub fn branch_leaf(&self, full: &Vec<u8>, root_canon: &Option<FsPath>, pinned: bool) -> (r: BranchLeaf)
        ensures
            r.is_current == (self.current_branch matches Some(c) && c@ == full@),
            match self.other_worktree_for_branch_spec(full@, opt_view(*root_canon)) {
                Some(i) => match file_name_v(self.worktree.list@[i].path@) {
                    Some(n) => r.elsewhere matches Some(e) && e@ == n,
                    None => r.elsewhere is None,
                },
                None => r.elsewhere is None,
            },
            r.disabled == (pinned && r.elsewhere is None && !r.is_current),
    {
        let is_current = match &self.current_branch {
            Some(c) => bytes_eq(c, full),
            None => false,
        };
        let found = self.other_worktree_for_branch(full, root_canon);
        proof {
            self.lemma_found_is_spec(full@, opt_view(*root_canon), found);
        }
        let elsewhere = match found {
            Some(i) => dir_name(&self.worktree.list[i].path),
            None => None,
        };
        let disabled = pinned && elsewhere.is_none() && !is_current;
        BranchLeaf { is_current, elsewhere, disabled }
    }

    /// Create the branch named in the dialog (`name`, already with spaces turned into
    /// hyphens), honoring the Checkout and Overwrite toggles. Nothing happens for an empty
    /// name; otherwise the dialog closes, and with a repository open the host runs the
    /// returned plan and then calls [`Kyde::branch_op_done`].
    pub fn do_create_branch(&self, name: Vec<u8>) -> (r: (Vec<Effect>, Option<CreateBranchPlan>))
        ensures
            name@.len() == 0 ==> r.0@.len() == 0 && r.1 is None,
            name@.len() > 0 ==> r.0@ == seq![Effect::CloseModal(ModalKind::NewBranch)] && match self.repo_root {
                Some(root) => r.1 matches Some(p) && p.root@ == root@ && p.name@ == name@
                    && p.checkout == self.new_branch_checkout && p.overwrite == self.new_branch_overwrite,
                None => r.1 is None,
            },
    {
        let mut effects: Vec<Effect> = Vec::new();
        if name.len() == 0 {
            return (effects, None);
        }
        effects.push(Effect::CloseModal(ModalKind::NewBranch));
        match &self.repo_root {
            Some(root) => {
                let plan = CreateBranchPlan {
                    root: root.duplicate(),
                    name,
                    checkout: self.new_branch_checkout,
                    overwrite: self.new_branch_overwrite,
                };
                (effects, Some(plan))
            },
            None => (effects, None),
        }
    }

    /// A branch operation (create or checkout) finished: status and trees are re-read;
    /// a failure is reported by the host.
    pub fn branch_op_done(&self) -> (effects: Vec<Effect>)
        ensures
            effects@ == seq![Effect::Refresh],
    {
        let mut effects: Vec<Effect> = Vec::new();
        effects.push(Effect::Refresh);
        effects
    }

    /// Start a debounced git-status refresh: a new generation, so that only the latest
    /// request's timer refreshes. Returns the generation its timer carries.
    pub fn schedule_status_refresh(&mut self) -> (generation: u64)
        ensures
            generation == final(self).refresh_gen,
            final(self).refresh_gen == next_gen(old(self).refresh_gen),
            *final(self) == (Kyde { refresh_gen: final(self).refresh_gen, ..*old(self) }),
    {
        self.refresh_gen = if self.refresh_gen == u64::MAX {
            0
        } else {
            self.refresh_gen + 1
        };
        self.refresh_gen
    }

    /// The debounce timer of generation `generation` fired: status is re-read only when no
    /// newer refresh was scheduled since.
    pub fn status_refresh_due(&self, generation: u64) -> (effects: Vec<Effect>)
        ensures
            effects@ == if generation == self.refresh_gen {
                seq![Effect::Refresh]
            } else {
                Seq::<Effect>::empty()
            },
    {
        let mut effects: Vec<Effect> = Vec::new();
        if generation == self.refresh_gen {
            effects.push(Effect::Refresh);
        }
        effects
    }

    /// Open the "Create New Branch" dialog, checking out the new branch by default and not
    /// overwriting an existing one.
    pub fn open_new_branch(&mut self) -> (effects: Vec<Effect>)
        ensures
            !final(self).branch.popup_open,
            final(self).new_branch_checkout,
            !final(self).new_branch_overwrite,
            effects@ == seq![Effect::OpenModal(ModalKind::NewBranch)],
            *final(self) == (Kyde { branch: BranchState { popup_open: false, ..old(self).branch }, new_branch_checkout: true, new_branch_overwrite: false, ..*old(self) }),
    {
        self.branch.popup_open = false;
        self.new_branch_checkout = true;
        self.new_branch_overwrite = false;
        let mut effects: Vec<Effect> = Vec::new();
        effects.push(Effect::OpenModal(ModalKind::NewBranch));
        effects
    }

    /// Open or close the worktree popup. Opening closes the branch popup and starts a new
    /// gather of changed-file counts (older gathers' results are then dropped).
    pub fn toggle_worktree_popup(&mut self) -> (effects: Vec<Effect>)
        ensures
            if old(self).worktree.popup_open {
                !final(self).worktree.popup_open && effects@ == seq![Effect::FocusRoot]
            } else {
                &&& final(self).worktree.popup_open
                &&& !final(self).branch.popup_open
                &&& final(self).worktree.counts@.len() == 0
                &&& final(self).worktree.counts_gen == next_gen(old(self).worktree.counts_gen)
                &&& effects@ == seq![Effect::GatherWorktreeCounts]
            },
            final(self).worktree.list == old(self).worktree.list,
            if old(self).worktree.popup_open {
                *final(self) == (Kyde { worktree: WorktreeState { popup_open: false, ..old(self).worktree }, ..*old(self) })
            } else {
                *final(self) == (Kyde {
                    worktree: WorktreeState {
                        popup_open: true,
                        counts: final(self).worktree.counts,
                        counts_gen: final(self).worktree.counts_gen,
                        ..old(self).worktree
                    },
                    branch: BranchState { popup_open: false, ..old(self).branch },
                    ..*old(self)
                })
            },
    {
        let mut effects: Vec<Effect> = Vec::new();
        if self.worktree.popup_open {
            self.worktree.popup_open = false;
            effects.push(Effect::FocusRoot);
            return effects;
        }
        self.branch.popup_open = false;
        self.worktree.popup_open = true;
        self.worktree.counts = Vec::new();
        self.worktree.counts_gen = if self.worktree.counts_gen == u64::MAX {
            0
        } else {
            self.worktree.counts_gen + 1
        };
        effects.push(Effect::GatherWorktreeCounts);
        effects
    }

    /// Counts gathered for generation `generation` arrive: kept only when no newer gather
    /// started since.
    pub fn worktree_counts_done(&mut self, generation: u64, counts: Vec<(FsPath, usize)>)
        ensures
            final(self).worktree.counts@ == if generation == old(self).worktree.counts_gen {
                old(self).worktree.counts@ + counts@
            } else {
                old(self).worktree.counts@
            },
            final(self).worktree.counts_gen == old(self).worktree.counts_gen,
            *final(self) == (Kyde { worktree: WorktreeState { counts: final(self).worktree.counts, ..old(self).worktree }, ..*old(self) }),
    {
        if generation == self.worktree.counts_gen {
            let mut c = counts;
            self.worktree.counts.append(&mut c);
        }
    }

    /// Switch to the worktree at `path` through [`Kyde::open_project`] (sessions are kept
    /// per worktree); nothing happens for the open one. `path_canon` and `root_canon` are
    /// the paths resolved.
    pub fn switch_worktree(&mut self, path: FsPath, path_canon: &Option<FsPath>, root_canon: &Option<FsPath>) -> (effects: Vec<Effect>)
        ensures
            !final(self).worktree.popup_open,
            match old(self).repo_root {
                Some(r) if same_dir_spec(r@, path@, opt_view(*root_canon), opt_view(*path_canon)) => {
                    &&& *final(self) == (Kyde { worktree: WorktreeState { popup_open: false, ..old(self).worktree }, ..*old(self) })
                    &&& effects@.len() == 0
                },
                _ => opened(
                    Kyde { worktree: WorktreeState { popup_open: false, ..old(self).worktree }, ..*old(self) },
                    *final(self),
                    path@,
                    effects@,
                ),
            },
    {
        self.worktree.popup_open = false;
        let here = match &self.repo_root {
            Some(r) => same_dir(r, &path, root_canon, path_canon),
            None => false,
        };
        if here {
            return Vec::new();
        }
        let effects = self.open_project(path);
        self.worktree.popup_open = false;
        effects
    }
}


/// How the worktree popup shows one worktree.
pub struct WorktreeRow {
    /// The worktree is the open project.
    pub is_current: bool,
    pub name: Vec<u8>,
    /// Its branch, or its commit's short hash in brackets when detached.
    pub branch: Vec<u8>,
    /// Its changed files, once counted.
    pub changed: Option<usize>,
}

/// The last count recorded for `p` (a later count replaces an earlier one).
pub open spec fn count_for_spec(counts: Seq<(FsPath, usize)>, p: PathV) -> Option<usize>
    decreases counts.len(),
{
    if counts.len() == 0 {
        None
    } else if counts.last().0@ == p {
        Some(counts.last().1)
    } else {
        count_for_spec(counts.drop_last(), p)
    }
}

/// The branch label of a worktree: its branch, else the first seven bytes of its hash in
/// brackets.
pub open spec fn worktree_branch_spec(branch: Option<Seq<u8>>, head: Seq<u8>) -> Seq<u8> {
    match branch {
        Some(b) => b,
        None => "(".spec_bytes() + head.take(if head.len() < 7 { head.len() as int } else { 7 }) + ")".spec_bytes(),
    }
}

/// See [`count_for_spec`].
pub fn count_for(counts: &Vec<(FsPath, usize)>, p: &FsPath) -> (r: Option<usize>)
    ensures
        r == count_for_spec(counts@, p@),
{
    let mut i: usize = counts.len();
    assert(counts@.subrange(0, i as int) =~= counts@);
    while i > 0
        invariant
            i <= counts@.len(),
            count_for_spec(counts@, p@) == count_for_spec(counts@.subrange(0, i as int), p@),
        decreases i,
    {
        let ghost pre = counts@.subrange(0, i as int);
        assert(pre.drop_last() =~= counts@.subrange(0, i - 1));
        assert(pre.last() == counts@[i - 1]);
        if counts[i - 1].0.same(p) {
            return Some(counts[i - 1].1);
        }
        i = i - 1;
    }
    None
}

impl Kyde {
    /// Row `i` of the worktree popup; `root_canon` and `canon` are the open project's root
    /// and the worktree's path resolved, where the host could resolve them.
    pub fn worktree_row(&self, i: usize, root_canon: &Option<FsPath>) -> (r: WorktreeRow)
        requires
            i < self.worktree.list@.len(),
        ensures
            ({
                let w = self.worktree.list@[i as int];
                &&& r.is_current == (self.repo_root matches Some(root) && same_dir_spec(
                    root@,
                    w.path@,
                    opt_view(*root_canon),
                    opt_view(w.canonical),
                ))
                &&& r.name@ == match file_name_v(w.path@) {
                    Some(n) => n,
                    None => display_v(w.path@),
                }
                &&& r.branch@ == worktree_branch_spec(opt_bytes(w.branch), w.head@)
                &&& r.changed == count_for_spec(self.worktree.counts@, w.path@)
            }),
    {
        let w = &self.worktree.list[i];
        let is_current = match &self.repo_root {
            Some(root) => same_dir(root, &w.path, root_canon, &w.canonical),
            None => false,
        };
        let name = match dir_name(&w.path) {
            Some(n) => n,
            None => w.path.display_bytes(),
        };
        let branch = match &w.branch {
            Some(b) => copy_bytes(b),
            None => {
                let n = if w.head.len() < 7 {
                    w.head.len()
                } else {
                    7
                };
                let a = concat(&"(".as_bytes_vec(), &prefix_bytes(&w.head, n));
                concat(&a, &")".as_bytes_vec())
            },
        };
        let changed = count_for(&self.worktree.counts, &w.path);
        WorktreeRow { is_current, name, branch, changed }
    }
}


impl Kyde {
    /// The status bar's worktree chip: the open project's folder name, else "(worktree)".
    pub fn worktree_chip_label(&self) -> (r: Vec<u8>)
        ensures
            r@ == match self.repo_root {
                Some(root) => match file_name_v(root@) {
                    Some(n) => n,
                    None => "(worktree)".spec_bytes(),
                },
                None => "(worktree)".spec_bytes(),
            },
    {
        let name = match &self.repo_root {
            Some(root) => dir_name(root),
            None => None,
        };
        match name {
            Some(n) => n,
            None => "(worktree)".as_bytes_vec(),
        }
    }
}

} // verus!
