//! What the panels show, apart from how they are drawn: counts and titles, which rows get
//! a gutter control, the status bar's chips, the conflicts list's rows and actions, and
//! the resolve stage's toolbar.
use vstd::prelude::*;
use vstd::string::StrSliceExecFns;
use vstd::string::StringSliceAdditionalSpecFns;
use crate::bytes::{copy_bytes, concat, decimal, decimal_spec};
use crate::path::{
    FsPath, PathV, contains_path, display_v, file_name_v, has_path, insert_path, path_set,
    paths_view
};
use crate::model::{Kyde, MergeState, ChangedFile, ChunkKind, ConflictEntry, ContentHit, EventKind, FileStatus, GitTab, NamePrompt};
use crate::browse::opt_view;
use crate::merge::{opt_bytes, or_default, branch_or_head, source_label_spec, quoted, quoted_bytes, is_resolved};

verus! {

/// "No differences", "1 difference", "N differences".
pub open spec fn differences_spec(n: usize) -> Seq<u8> {
    if n == 0 {
        "No differences".spec_bytes()
    } else if n == 1 {
        decimal_spec(n as nat) + " difference".spec_bytes()
    } else {
        decimal_spec(n as nat) + " differences".spec_bytes()
    }
}

/// A timeline row's title: a labelled snapshot's label, "External change", else "Change".
pub open spec fn event_title_spec(kind: EventKind, label: Option<Seq<u8>>) -> Seq<u8> {
    match (kind, label) {
        (EventKind::Label, Some(l)) => l,
        (EventKind::External, _) => "External change".spec_bytes(),
        _ => "Change".spec_bytes(),
    }
}

/// The resolve stage's status: conflicts left first, then undecided changes, else done.
pub open spec fn merge_status_spec(conflicts: usize, pending: usize) -> Seq<u8> {
    if conflicts > 0 {
        decimal_spec(conflicts as nat) + (if conflicts == 1 {
            " conflict remaining".spec_bytes()
        } else {
            " conflicts remaining".spec_bytes()
        })
    } else if pending > 0 {
        decimal_spec(pending as nat) + (if pending == 1 {
            " change pending".spec_bytes()
        } else {
            " changes pending".spec_bytes()
        })
    } else {
        "All changes resolved".spec_bytes()
    }
}

/// The rows that carry a hunk's gutter control, with the hunk: each row on which a hunk
/// begins, in order; none in a read-only view.
pub open spec fn gutter_spec(starts: Seq<bool>, hunks: Seq<Option<usize>>, readonly: bool) -> Seq<(usize, usize)>
    decreases starts.len(),
{
    if readonly || starts.len() == 0 {
        Seq::empty()
    } else {
        let n = (starts.len() - 1) as int;
        let rest = gutter_spec(starts.drop_last(), hunks, readonly);
        if starts[n] && n < hunks.len() && hunks[n] is Some {
            rest.push((n as usize, hunks[n]->0))
        } else {
            rest
        }
    }
}

/// See [`differences_spec`].
pub fn differences_label(n: usize) -> (r: Vec<u8>)
    ensures
        r@ == differences_spec(n),
{
    if n == 0 {
        "No differences".as_bytes_vec()
    } else if n == 1 {
        concat(&decimal(n), &" difference".as_bytes_vec())
    } else {
        concat(&decimal(n), &" differences".as_bytes_vec())
    }
}

/// See [`event_title_spec`].
pub fn lh_event_title(kind: EventKind, label: &Option<Vec<u8>>) -> (r: Vec<u8>)
    ensures
        r@ == event_title_spec(kind, opt_bytes(*label)),
{
    match (kind, label) {
        (EventKind::Label, Some(l)) => copy_bytes(l),
        (EventKind::External, _) => "External change".as_bytes_vec(),
        _ => "Change".as_bytes_vec(),
    }
}

/// See [`merge_status_spec`].
pub fn merge_status_label(conflicts: usize, pending: usize) -> (r: Vec<u8>)
    ensures
        r@ == merge_status_spec(conflicts, pending),
{
    if conflicts > 0 {
        let tail = if conflicts == 1 {
            " conflict remaining".as_bytes_vec()
        } else {
            " conflicts remaining".as_bytes_vec()
        };
        concat(&decimal(conflicts), &tail)
    } else if pending > 0 {
        let tail = if pending == 1 {
            " change pending".as_bytes_vec()
        } else {
            " changes pending".as_bytes_vec()
        };
        concat(&decimal(pending), &tail)
    } else {
        "All changes resolved".as_bytes_vec()
    }
}

/// See [`gutter_spec`]: `starts[r]` says whether a hunk begins on row `r`, `hunks[r]`
/// which hunk row `r` belongs to.
pub fn gutter_controls(starts: &Vec<bool>, hunks: &Vec<Option<usize>>, readonly: bool) -> (r: Vec<(usize, usize)>)
    ensures
        r@ == gutter_spec(starts@, hunks@, readonly),
{
    let mut r: Vec<(usize, usize)> = Vec::new();
    if readonly {
        return r;
    }
    let mut i: usize = 0;
    while i < starts.len()
        invariant
            !readonly,
            i <= starts@.len(),
            r@ == gutter_spec(starts@.subrange(0, i as int), hunks@, readonly),
        decreases starts@.len() - i,
    {
        let ghost sub = starts@.subrange(0, i + 1);
        assert(sub.drop_last() =~= starts@.subrange(0, i as int));
        if starts[i] && i < hunks.len() {
            match hunks[i] {
                Some(h) => {
                    r.push((i, h));
                },
                None => {},
            }
        }
        i = i + 1;
    }
    assert(starts@.subrange(0, starts@.len() as int) =~= starts@);
    r
}

/// What the status bar shows.
pub struct StatusBar {
    /// The branch chip's text.
    pub branch: Vec<u8>,
    /// The breadcrumb: the project's name, then each component of the selected path (else
    /// the open file), the root `/` first for an absolute path; empty when neither is set
    /// or the path is empty.
    pub crumbs: Vec<Vec<u8>>,
    /// The pull chip (shown when behind or while pulling): its label and count badge.
    pub pull: Option<(Vec<u8>, usize)>,
    /// The push chip (shown when ahead or while pushing): its label and count badge.
    pub push: Option<(Vec<u8>, usize)>,
    /// The push chip's tooltip: the last push error, else a hint.
    pub push_tip: Vec<u8>,
    /// Whether the worktree chip shows (the repository has linked worktrees).
    pub worktree_chip: bool,
}

/// The breadcrumb of `target` in the project at `root`.
pub open spec fn crumbs_spec(root: Option<PathV>, target: Option<PathV>) -> Seq<Seq<u8>> {
    match target {
        Some(t) => if t.1.len() > 0 || t.0 {
            let repo = match root {
                Some(r) => match file_name_v(r) {
                    Some(n) => n,
                    None => Seq::<u8>::empty(),
                },
                None => Seq::<u8>::empty(),
            };
            let lead = if t.0 {
                seq![repo, "/".spec_bytes()]
            } else {
                seq![repo]
            };
            lead + t.1
        } else {
            Seq::empty()
        },
        None => Seq::empty(),
    }
}

impl Kyde {
    /// What the status bar shows (see [`StatusBar`]).
    pub fn status_bar(&self) -> (r: StatusBar)
        ensures
            r.branch@ == or_default(opt_bytes(self.current_branch), "(no branch)".spec_bytes()),
            r.crumbs@.map_values(|c: Vec<u8>| c@) == crumbs_spec(
                opt_view(self.repo_root),
                if self.browse.selected_path is Some {
                    opt_view(self.browse.selected_path)
                } else {
                    opt_view(self.browse.open_path)
                },
            ),
            ({
                let behind = match self.sync.behind {
                    Some(b) => b,
                    None => 0usize,
                };
                if behind > 0 || self.sync.pulling {
                    r.pull matches Some(x) && x.1 == behind && x.0@ == if self.sync.pulling {
                        "Pulling…".spec_bytes()
                    } else {
                        "Pull".spec_bytes()
                    }
                } else {
                    r.pull is None
                }
            }),
            ({
                let ahead = match self.sync.ahead {
                    Some(a) => a,
                    None => 0usize,
                };
                if ahead > 0 || self.sync.pushing {
                    r.push matches Some(x) && x.1 == ahead && x.0@ == if self.sync.pushing {
                        "Pushing…".spec_bytes()
                    } else {
                        "Push".spec_bytes()
                    }
                } else {
                    r.push is None
                }
            }),
            r.push_tip@ == or_default(opt_bytes(self.sync.push_msg), "Push to origin".spec_bytes()),
            r.worktree_chip == (self.worktree.list@.len() > 1),
    {
        let branch = match &self.current_branch {
            Some(b) => copy_bytes(b),
            None => "(no branch)".as_bytes_vec(),
        };
        let target = if self.browse.selected_path.is_some() {
            &self.browse.selected_path
        } else {
            &self.browse.open_path
        };
        let mut crumbs: Vec<Vec<u8>> = Vec::new();
        match target {
            Some(t) => {
                if t.parts.len() > 0 || t.absolute {
                    let repo = match &self.repo_root {
                        Some(r) => match r.file_name() {
                            Some(n) => n,
                            None => Vec::new(),
                        },
                        None => Vec::new(),
                    };
                    crumbs.push(repo);
                    if t.absolute {
                        crumbs.push("/".as_bytes_vec());
                    }
                    let ghost lead = crumbs@.map_values(|c: Vec<u8>| c@);
                    let mut i: usize = 0;
                    assert(crumbs@.map_values(|c: Vec<u8>| c@) =~= lead + t@.1.subrange(0, 0));
                    while i < t.parts.len()
                        invariant
                            i <= t.parts@.len(),
                            crumbs@.map_values(|c: Vec<u8>| c@) == lead + t@.1.subrange(0, i as int),
                        decreases t.parts@.len() - i,
                    {
                        let ghost before = crumbs@;
                        crumbs.push(copy_bytes(&t.parts[i]));
                        assert(crumbs@.map_values(|c: Vec<u8>| c@) =~= before.map_values(|c: Vec<u8>| c@).push(
                            t.parts@[i as int]@,
                        ));
                        assert(t@.1.subrange(0, i + 1) =~= t@.1.subrange(0, i as int).push(t.parts@[i as int]@));
                        i = i + 1;
                    }
                    assert(t@.1.subrange(0, t.parts@.len() as int) =~= t@.1);
                } else {
                    assert(crumbs@.map_values(|c: Vec<u8>| c@) =~= Seq::<Seq<u8>>::empty());
                }
            },
            None => {
                assert(crumbs@.map_values(|c: Vec<u8>| c@) =~= Seq::<Seq<u8>>::empty());
            },
        }
        let behind = match self.sync.behind {
            Some(b) => b,
            None => 0,
        };
        let pull = if behind > 0 || self.sync.pulling {
            Some(
                (
                    if self.sync.pulling {
                        "Pulling…".as_bytes_vec()
                    } else {
                        "Pull".as_bytes_vec()
                    },
                    behind,
                ),
            )
        } else {
            None
        };
        let ahead = match self.sync.ahead {
            Some(a) => a,
            None => 0,
        };
        let push = if ahead > 0 || self.sync.pushing {
            Some(
                (
                    if self.sync.pushing {
                        "Pushing…".as_bytes_vec()
                    } else {
                        "Push".as_bytes_vec()
                    },
                    ahead,
                ),
            )
        } else {
            None
        };
        let push_tip = match &self.sync.push_msg {
            Some(m) => copy_bytes(m),
            None => "Push to origin".as_bytes_vec(),
        };
        StatusBar { branch, crumbs, pull, push, push_tip, worktree_chip: self.worktree.list.len() > 1 }
    }

    /// The conflicts list's heading: Merging branch “source” into branch “branch”.
    pub fn conflicts_heading(&self) -> (r: Vec<u8>)
        ensures
            r@ == "Merging branch ".spec_bytes() + quoted(
                source_label_spec(opt_bytes(self.merge.source), opt_bytes(self.merge.in_progress)),
            ) + " into branch ".spec_bytes() + quoted(branch_or_head(opt_bytes(self.current_branch))),
    {
        let src = self.merge_source_label();
        let dst = match &self.current_branch {
            Some(b) => copy_bytes(b),
            None => "HEAD".as_bytes_vec(),
        };
        let q1 = concat(&concat(&"“".as_bytes_vec(), &src), &"”".as_bytes_vec());
        let q2 = concat(&concat(&"“".as_bytes_vec(), &dst), &"”".as_bytes_vec());
        let a = concat(&"Merging branch ".as_bytes_vec(), &q1);
        let b = concat(&a, &" into branch ".as_bytes_vec());
        concat(&b, &q2)
    }

    /// Each conflicted file's row state: whether it is resolved, and whether it is the
    /// selected row (only an unresolved one can be).
    pub fn conflict_rows(&self) -> (r: Vec<(bool, bool)>)
        ensures
            r@.len() == self.merge.files@.len(),
            forall|i: int|
                0 <= i < r@.len() ==> (#[trigger] r@[i]).0 == is_resolved(self.merge.files@, self.merge.resolved@, i)
                    && r@[i].1 == (!r@[i].0 && self.merge.list_sel == Some(i as usize)),
    {
        let mut r: Vec<(bool, bool)> = Vec::new();
        let mut i: usize = 0;
        while i < self.merge.files.len()
            invariant
                i <= self.merge.files@.len(),
                r@.len() == i,
                forall|k: int|
                    0 <= k < i ==> (#[trigger] r@[k]).0 == is_resolved(self.merge.files@, self.merge.resolved@, k)
                        && r@[k].1 == (!r@[k].0 && self.merge.list_sel == Some(k as usize)),
            decreases self.merge.files@.len() - i,
        {
            let resolved = crate::path::contains_path(&self.merge.resolved, &self.merge.files[i].path);
            let sel = !resolved && self.merge.list_sel == Some(i);
            r.push((resolved, sel));
            i = i + 1;
        }
        r
    }

    /// Whether the list's actions apply: the selected file is unresolved and no merge
    /// operation runs.
    pub fn merge_can_act(&self) -> (r: bool)
        ensures
            r == (match self.merge.list_sel {
                Some(i) => i < self.merge.files@.len() && !is_resolved(self.merge.files@, self.merge.resolved@, i as int),
                None => false,
            } && !self.merge.busy),
    {
        let ok = match self.merge.list_sel {
            Some(i) => i < self.merge.files.len() && !crate::path::contains_path(
                &self.merge.resolved,
                &self.merge.files[i].path,
            ),
            None => false,
        };
        ok && !self.merge.busy
    }

    /// A click on conflicted file `i` (of an unresolved row) selects it; whether to open
    /// it in the resolve stage is returned (a double click).
    pub fn click_conflict_row(&mut self, i: usize, clicks: usize) -> (open: bool)
        ensures
            final(self).merge.list_sel == Some(i),
            open == (clicks >= 2),
            final(self).merge.files == old(self).merge.files,
            *final(self) == (Kyde { merge: MergeState { list_sel: Some(i), ..old(self).merge }, ..*old(self) }),
    {
        self.merge.list_sel = Some(i);
        clicks >= 2
    }

    /// Conflict chunks of the open file still unresolved (`resolved[i]`: whether chunk
    /// `i`'s decisions resolve it).
    pub fn merge_conflicts_left(&self, resolved: &Vec<bool>) -> (r: usize)
        requires
            self.merge.chunks matches Some(c) ==> resolved@.len() == c@.len(),
        ensures
            match self.merge.chunks {
                None => r == 0,
                Some(c) => r == Set::new(
                    |i: int| 0 <= i < c@.len() && c@[i].kind == ChunkKind::Conflict && !resolved@[i],
                ).len(),
            },
    {
        match &self.merge.chunks {
            None => 0,
            Some(c) => {
                let mut n: usize = 0;
                let mut i: usize = 0;
                let ghost f = |i: int| c@[i].kind == ChunkKind::Conflict && !resolved@[i];
                assert(Set::new(|j: int| 0 <= j < 0 && f(j)) =~= Set::<int>::empty());
                while i < c.len()
                    invariant
                        i <= c@.len(),
                        resolved@.len() == c@.len(),
                        f == (|i: int| c@[i].kind == ChunkKind::Conflict && !resolved@[i]),
                        n == Set::new(|j: int| 0 <= j < i && f(j)).len(),
                        Set::new(|j: int| 0 <= j < i && f(j)).finite(),
                        n <= i,
                    decreases c@.len() - i,
                {
                    let ghost before = Set::new(|j: int| 0 <= j < i && f(j));
                    let ghost after = Set::new(|j: int| 0 <= j < i + 1 && f(j));
                    if c[i].kind == ChunkKind::Conflict && !resolved[i] {
                        assert(after =~= before.insert(i as int));
                        assert(!before.contains(i as int));
                        n = n + 1;
                    } else {
                        assert(after =~= before);
                    }
                    i = i + 1;
                }
                assert(Set::new(|j: int| 0 <= j < c@.len() && f(j)) =~= Set::new(
                    |j: int| 0 <= j < c@.len() && c@[j].kind == ChunkKind::Conflict && !resolved@[j],
                ));
                n
            },
        }
    }

    /// Open or close the Compare Contents dropdown (closing the whitespace one).
    pub fn toggle_merge_compare_select(&mut self)
        ensures
            final(self).merge.compare_open == !old(self).merge.compare_open,
            !final(self).merge.ws_open,
            *final(self) == (Kyde { merge: MergeState { compare_open: !old(self).merge.compare_open, ws_open: false, ..old(self).merge }, ..*old(self) }),
    {
        self.merge.compare_open = !self.merge.compare_open;
        self.merge.ws_open = false;
    }

    /// Open or close the whitespace dropdown (closing the Compare Contents one).
    pub fn toggle_merge_ws_select(&mut self)
        ensures
            final(self).merge.ws_open == !old(self).merge.ws_open,
            !final(self).merge.compare_open,
            *final(self) == (Kyde { merge: MergeState { ws_open: !old(self).merge.ws_open, compare_open: false, ..old(self).merge }, ..*old(self) }),
    {
        self.merge.ws_open = !self.merge.ws_open;
        self.merge.compare_open = false;
    }

    /// The git status of `path` among the changes, which colours its finder row.
    pub fn finder_file_status(&self, path: &FsPath) -> (r: Option<FileStatus>)
        ensures
            match r {
                Some(s) => exists|i: int| 0 <= i < self.files@.len() && (#[trigger] self.files@[i]).path@ == path@
                    && self.files@[i].status == s,
                None => forall|i: int| 0 <= i < self.files@.len() ==> (#[trigger] self.files@[i]).path@ != path@,
            },
    {
        let mut i: usize = 0;
        while i < self.files.len()
            invariant
                i <= self.files@.len(),
                forall|k: int| 0 <= k < i ==> (#[trigger] self.files@[k]).path@ != path@,
            decreases self.files@.len() - i,
        {
            if self.files[i].path.same(path) {
                return Some(self.files[i].status);
            }
            i = i + 1;
        }
        None
    }
}

/// A content hit's location label, "path:line".
pub fn content_hit_location(hit: &ContentHit) -> (r: Vec<u8>)
    ensures
        r@ == display_v(hit.path@) + ":".spec_bytes() + decimal_spec(hit.line as nat),
{
    let a = concat(&hit.path.display_bytes(), &":".as_bytes_vec());
    concat(&a, &decimal(hit.line as usize))
}


/// The files that content hits fall in.
pub open spec fn hit_files(hits: Seq<ContentHit>) -> Set<PathV> {
    Set::new(|x: PathV| exists|i: int| 0 <= i < hits.len() && (#[trigger] hits[i]).path@ == x)
}

/// The finder's summary of a content search: "No matches", else how many matches in how
/// many distinct files ("1 match in 1 file", "3 matches in 2 files").
pub open spec fn content_summary_spec(n: nat, files: nat) -> Seq<u8> {
    if n == 0 {
        "No matches".spec_bytes()
    } else {
        decimal_spec(n) + (if n == 1 {
            " match in ".spec_bytes()
        } else {
            " matches in ".spec_bytes()
        }) + decimal_spec(files) + (if files == 1 {
            " file".spec_bytes()
        } else {
            " files".spec_bytes()
        })
    }
}

/// How many distinct files the hits fall in.
pub fn hit_file_count(hits: &Vec<ContentHit>) -> (r: usize)
    ensures
        hit_files(hits@).finite(),
        r == hit_files(hits@).len(),
{
    let mut seen: Vec<FsPath> = Vec::new();
    let mut i: usize = 0;
    while i < hits.len()
        invariant
            i <= hits@.len(),
            seen@.len() <= i,
            paths_view(seen@).no_duplicates(),
            path_set(seen@) == hit_files(hits@.subrange(0, i as int)),
        decreases hits@.len() - i,
    {
        let ghost before = seen@;
        let ghost pv = hits@[i as int].path@;
        proof {
            assert forall|x: PathV| #[trigger] hit_files(hits@.subrange(0, i + 1)).contains(x) <==> hit_files(
                hits@.subrange(0, i as int),
            ).insert(pv).contains(x) by {
                let pre = hits@.subrange(0, i as int);
                let post = hits@.subrange(0, i + 1);
                if hit_files(post).contains(x) {
                    let k = choose|k: int| 0 <= k < post.len() && (#[trigger] post[k]).path@ == x;
                    if k < i {
                        assert(pre[k] == post[k]);
                    }
                }
                if hit_files(pre).contains(x) {
                    let k = choose|k: int| 0 <= k < pre.len() && (#[trigger] pre[k]).path@ == x;
                    assert(post[k] == pre[k]);
                }
                if x == pv {
                    assert(post[i as int] == hits@[i as int]);
                }
            }
            assert(hit_files(hits@.subrange(0, i + 1)) =~= hit_files(hits@.subrange(0, i as int)).insert(pv));
        }
        insert_path(&mut seen, hits[i].path.duplicate());
        proof {
            if seen@ != before {
                assert(!has_path(before, pv));
                assert(paths_view(seen@) =~= paths_view(before).push(pv));
                assert forall|a: int, b: int|
                    0 <= a < paths_view(seen@).len() && 0 <= b < paths_view(seen@).len() && a != b implies
                    paths_view(seen@)[a] != paths_view(seen@)[b] by {
                    if a == before.len() {
                        assert(before[b]@ == paths_view(seen@)[b]);
                    } else if b == before.len() {
                        assert(before[a]@ == paths_view(seen@)[a]);
                    }
                }
            }
        }
        i = i + 1;
    }
    proof {
        assert(hits@.subrange(0, hits@.len() as int) =~= hits@);
        let sv = paths_view(seen@);
        assert forall|x: PathV| #[trigger] sv.to_set().contains(x) <==> path_set(seen@).contains(x) by {
            if sv.to_set().contains(x) {
                let k = choose|k: int| 0 <= k < sv.len() && sv[k] == x;
                assert(seen@[k]@ == x);
            }
            if has_path(seen@, x) {
                let k = choose|k: int| 0 <= k < seen@.len() && (#[trigger] seen@[k])@ == x;
                assert(sv[k] == x);
            }
        }
        assert(sv.to_set() =~= path_set(seen@));
        sv.unique_seq_to_set();
        assert(sv.len() == seen@.len());
    }
    seen.len()
}

impl Kyde {
    /// The summary line above content-search results (see [`content_summary_spec`]).
    pub fn content_summary(&self) -> (r: Vec<u8>)
        ensures
            r@ == content_summary_spec(
                self.finder.content_results@.len(),
                hit_files(self.finder.content_results@).len(),
            ),
    {
        let n = self.finder.content_results.len();
        if n == 0 {
            return "No matches".as_bytes_vec();
        }
        let files = hit_file_count(&self.finder.content_results);
        let a = concat(
            &decimal(n),
            &(if n == 1 {
                " match in ".as_bytes_vec()
            } else {
                " matches in ".as_bytes_vec()
            }),
        );
        let b = concat(&a, &decimal(files));
        concat(
            &b,
            &(if files == 1 {
                " file".as_bytes_vec()
            } else {
                " files".as_bytes_vec()
            }),
        )
    }
}


/// The diff view's change counter: "N changes", hidden below two changes.
pub open spec fn diff_nav_spec(n: nat) -> Option<Seq<u8>> {
    if n < 2 {
        None
    } else {
        Some(decimal_spec(n) + " changes".spec_bytes())
    }
}

/// The update banner's button: while downloading "Updating…", from an app bundle with a
/// zip to swap in "Update & Relaunch", else "Download".
pub open spec fn update_action_spec(updating: bool, can_swap: bool) -> Seq<u8> {
    if updating {
        "Updating…".spec_bytes()
    } else if can_swap {
        "Update & Relaunch".spec_bytes()
    } else {
        "Download".spec_bytes()
    }
}

/// The changes git reports conflicted.
pub open spec fn conflicted(files: Seq<ChangedFile>) -> Seq<ChangedFile> {
    files.filter(|f: ChangedFile| f.status == FileStatus::Conflict)
}

/// The banner of a merge in progress: how many files are still conflicted, else that all
/// conflicts are resolved.
pub open spec fn merge_banner_spec(source: Seq<u8>, n: nat) -> Seq<u8> {
    if n > 0 {
        "Merging ".spec_bytes() + quoted(source) + " — ".spec_bytes() + decimal_spec(n) + (if n == 1 {
            " conflicted file".spec_bytes()
        } else {
            " conflicted files".spec_bytes()
        })
    } else {
        "Merging ".spec_bytes() + quoted(source) + " — all conflicts resolved".spec_bytes()
    }
}

/// How many changes are conflicted.
pub fn conflicted_count(files: &Vec<ChangedFile>) -> (r: usize)
    ensures
        r == conflicted(files@).len(),
{
    let mut n: usize = 0;
    let mut i: usize = 0;
    while i < files.len()
        invariant
            i <= files@.len(),
            n == conflicted(files@.subrange(0, i as int)).len(),
            n <= i,
        decreases files@.len() - i,
    {
        let ghost pre = files@.subrange(0, i as int);
        proof {
            assert(files@.subrange(0, i + 1) =~= pre.push(files@[i as int]));
            crate::path::lemma_filter_push(pre, files@[i as int], |f: ChangedFile| f.status == FileStatus::Conflict);
        }
        if files[i].status == FileStatus::Conflict {
            n = n + 1;
        }
        i = i + 1;
    }
    assert(files@.subrange(0, files@.len() as int) =~= files@);
    n
}

impl Kyde {
    /// The diff view's change counter (see [`diff_nav_spec`]).
    pub fn diff_nav_label(&self) -> (r: Option<Vec<u8>>)
        ensures
            opt_bytes(r) == diff_nav_spec(
                match self.diff.current {
                    Some(d) => d.hunks@.len(),
                    None => 0,
                },
            ),
    {
        let n = match &self.diff.current {
            Some(d) => d.hunks.len(),
            None => 0,
        };
        if n < 2 {
            None
        } else {
            Some(concat(&decimal(n), &" changes".as_bytes_vec()))
        }
    }

    /// The git view's tab pills with their counts: Commit when files changed, Push when
    /// commits wait to be pushed.
    pub fn git_tab_pills(&self) -> (r: Vec<(GitTab, usize)>)
        ensures
            r@ == (if self.files@.len() > 0 {
                seq![(GitTab::Commit, self.files@.len() as usize)]
            } else {
                Seq::<(GitTab, usize)>::empty()
            }) + (if self.sync.push_files@.len() > 0 {
                seq![(GitTab::Push, self.sync.push_files@.len() as usize)]
            } else {
                Seq::<(GitTab, usize)>::empty()
            }),
    {
        let mut r: Vec<(GitTab, usize)> = Vec::new();
        if self.files.len() > 0 {
            r.push((GitTab::Commit, self.files.len()));
        }
        let ghost first = r@;
        if self.sync.push_files.len() > 0 {
            r.push((GitTab::Push, self.sync.push_files.len()));
            assert(r@ =~= first + seq![(GitTab::Push, self.sync.push_files@.len() as usize)]);
        } else {
            assert(r@ =~= first + Seq::<(GitTab, usize)>::empty());
        }
        r
    }

    /// The update banner's message and button label (see [`update_action_spec`]);
    /// `in_bundle`: running from an app bundle. `None` without an update.
    pub fn update_banner(&self, in_bundle: bool) -> (r: Option<(Vec<u8>, Vec<u8>)>)
        ensures
            match self.update_available {
                None => r is None,
                Some(rel) => r matches Some(x) && x.0@ == "Update available — v".spec_bytes() + rel.version@
                    && x.1@ == update_action_spec(self.updating, in_bundle && rel.zip_url@.len() > 0),
            },
    {
        match &self.update_available {
            None => None,
            Some(rel) => {
                let msg = concat(&"Update available — v".as_bytes_vec(), &rel.version);
                let action = if self.updating {
                    "Updating…".as_bytes_vec()
                } else if in_bundle && rel.zip_url.len() > 0 {
                    "Update & Relaunch".as_bytes_vec()
                } else {
                    "Download".as_bytes_vec()
                };
                Some((msg, action))
            },
        }
    }

    /// The merge-in-progress banner (see [`merge_banner_spec`]) and whether files are
    /// still conflicted, which makes its button "Resolve Conflicts…" rather than
    /// "Commit Merge".
    pub fn merge_banner(&self) -> (r: (Vec<u8>, bool))
        ensures
            r.0@ == merge_banner_spec(
                source_label_spec(opt_bytes(self.merge.source), opt_bytes(self.merge.in_progress)),
                conflicted(self.files@).len(),
            ),
            r.1 == (conflicted(self.files@).len() > 0),
    {
        let src = self.merge_source_label();
        let n = conflicted_count(&self.files);
        let head = concat(&"Merging ".as_bytes_vec(), &quoted_bytes(&src));
        if n > 0 {
            let a = concat(&head, &" — ".as_bytes_vec());
            let b = concat(&a, &decimal(n));
            let tail = if n == 1 {
                " conflicted file".as_bytes_vec()
            } else {
                " conflicted files".as_bytes_vec()
            };
            (concat(&b, &tail), true)
        } else {
            (concat(&head, &" — all conflicts resolved".as_bytes_vec()), false)
        }
    }
}


impl Kyde {
    /// The git view's tab that shows: none when nothing waits to be committed or pushed,
    /// else the chosen tab, or the other one when the chosen one is empty.
    pub fn shown_git_tab(&self) -> (r: Option<GitTab>)
        ensures
            r == (if self.files@.len() == 0 && self.sync.push_files@.len() == 0 {
                None
            } else if self.git_tab == GitTab::Commit && self.files@.len() == 0 {
                Some(GitTab::Push)
            } else if self.git_tab == GitTab::Push && self.sync.push_files@.len() == 0 {
                Some(GitTab::Commit)
            } else {
                Some(self.git_tab)
            }),
    {
        let commit_n = self.files.len();
        let push_n = self.sync.push_files.len();
        if commit_n == 0 && push_n == 0 {
            return None;
        }
        match self.git_tab {
            GitTab::Commit => if commit_n == 0 {
                Some(GitTab::Push)
            } else {
                Some(GitTab::Commit)
            },
            GitTab::Push => if push_n == 0 {
                Some(GitTab::Commit)
            } else {
                Some(GitTab::Push)
            },
        }
    }
}


/// The find bar's counter: "No results", else the current match's 1-based place and the
/// count, "i/n".
pub open spec fn find_label_spec(idx: usize, count: nat) -> Seq<u8> {
    if count == 0 {
        "No results".spec_bytes()
    } else {
        decimal_spec((idx + 1) as nat) + "/".spec_bytes() + decimal_spec(count)
    }
}

/// Every conflicted file of the merge was resolved this session.
pub open spec fn all_resolved(files: Seq<ConflictEntry>, resolved: Seq<FsPath>) -> bool {
    files.len() > 0 && forall|i: int| 0 <= i < files.len() ==> has_path(resolved, (#[trigger] files[i]).path@)
}

/// The merge window's footer.
pub struct MergeFooter {
    /// "R of N files resolved".
    pub progress: Vec<u8>,
    /// In the resolve stage, the Apply button's label: "Apply", or with the count of
    /// undecided changes.
    pub apply_label: Option<Vec<u8>>,
    /// Outside the resolve stage, every file resolved: the Commit Merge button shows.
    pub commit: bool,
}

impl Kyde {
    /// The find bar's counter (see [`find_label_spec`]).
    pub fn find_label(&self) -> (r: Vec<u8>)
        requires
            self.find.idx < usize::MAX,
        ensures
            r@ == find_label_spec(self.find.idx, self.find.matches@.len()),
    {
        let n = self.find.matches.len();
        if n == 0 {
            return "No results".as_bytes_vec();
        }
        let a = concat(&decimal(self.find.idx + 1), &"/".as_bytes_vec());
        concat(&a, &decimal(n))
    }

    /// The merge window's footer; `resolve_stage`: a file is open for resolving.
    pub fn merge_footer(&self, resolve_stage: bool) -> (r: MergeFooter)
        ensures
            r.progress@ == decimal_spec(self.merge.resolved@.len() as nat) + " of ".spec_bytes() + decimal_spec(
                self.merge.files@.len() as nat,
            ) + " files resolved".spec_bytes(),
            resolve_stage ==> (r.apply_label matches Some(l) && l@ == if self.merge.chunks is Some && self.merge.undecided > 0 {
                "Apply (".spec_bytes() + decimal_spec(self.merge.undecided as nat) + " pending)".spec_bytes()
            } else {
                "Apply".spec_bytes()
            }),
            !resolve_stage ==> r.apply_label is None,
            r.commit == (!resolve_stage && all_resolved(self.merge.files@, self.merge.resolved@)),
    {
        let a = concat(&decimal(self.merge.resolved.len()), &" of ".as_bytes_vec());
        let b = concat(&a, &decimal(self.merge.files.len()));
        let progress = concat(&b, &" files resolved".as_bytes_vec());
        if resolve_stage {
            let pending = self.merge_pending();
            let label = if pending == 0 {
                "Apply".as_bytes_vec()
            } else {
                let c = concat(&"Apply (".as_bytes_vec(), &decimal(pending));
                concat(&c, &" pending)".as_bytes_vec())
            };
            return MergeFooter { progress, apply_label: Some(label), commit: false };
        }
        let mut all = self.merge.files.len() > 0;
        let mut i: usize = 0;
        while i < self.merge.files.len()
            invariant
                i <= self.merge.files@.len(),
                all == (self.merge.files@.len() > 0 && forall|k: int|
                    0 <= k < i ==> has_path(self.merge.resolved@, (#[trigger] self.merge.files@[k]).path@)),
            decreases self.merge.files@.len() - i,
        {
            if !contains_path(&self.merge.resolved, &self.merge.files[i].path) {
                all = false;
            }
            i = i + 1;
        }
        MergeFooter { progress, apply_label: None, commit: all }
    }

    /// The delete confirmation's title and message, for the pending deletion.
    pub fn delete_modal(&self) -> (r: Option<(Vec<u8>, Vec<u8>)>)
        ensures
            match self.delete_target {
                None => r is None,
                Some(t) => r matches Some(x) && x.0@ == (if t.is_dir {
                    "Delete folder?".spec_bytes()
                } else {
                    "Delete file?".spec_bytes()
                }) && x.1@ == quoted(
                    match file_name_v(t.path@) {
                        Some(n) => n,
                        None => display_v(t.path@),
                    },
                ) + " will be permanently deleted from disk. This can't be undone.".spec_bytes(),
            },
    {
        match &self.delete_target {
            None => None,
            Some(t) => {
                let title = if t.is_dir {
                    "Delete folder?".as_bytes_vec()
                } else {
                    "Delete file?".as_bytes_vec()
                };
                let name = match t.path.file_name() {
                    Some(n) => n,
                    None => t.path.display_bytes(),
                };
                let body = concat(
                    &quoted_bytes(&name),
                    &" will be permanently deleted from disk. This can't be undone.".as_bytes_vec(),
                );
                Some((title, body))
            },
        }
    }

    /// The name prompt's title and button: "New file"/"New folder" with Create, or
    /// Rename with Rename.
    pub fn name_prompt_labels(&self) -> (r: Option<(Vec<u8>, Vec<u8>)>)
        ensures
            match self.name_prompt {
                None => r is None,
                Some(NamePrompt::NewFile(_)) => r matches Some(x) && x.0@ == "New file".spec_bytes()
                    && x.1@ == "Create".spec_bytes(),
                Some(NamePrompt::NewFolder(_)) => r matches Some(x) && x.0@ == "New folder".spec_bytes()
                    && x.1@ == "Create".spec_bytes(),
                Some(NamePrompt::Rename(_)) => r matches Some(x) && x.0@ == "Rename".spec_bytes()
                    && x.1@ == "Rename".spec_bytes(),
            },
    {
        match &self.name_prompt {
            None => None,
            Some(NamePrompt::NewFile(_)) => Some(("New file".as_bytes_vec(), "Create".as_bytes_vec())),
            Some(NamePrompt::NewFolder(_)) => Some(("New folder".as_bytes_vec(), "Create".as_bytes_vec())),
            Some(NamePrompt::Rename(_)) => Some(("Rename".as_bytes_vec(), "Rename".as_bytes_vec())),
        }
    }
}

} // verus!
