//! The commit view's selection logic: which changes lie under a path, the checkboxes of
//! files and folders, the per-hunk exclusions, and entering the view. The rollback window
//! shares the checkbox logic.
use vstd::prelude::*;
use vstd::string::StrSliceExecFns;
use vstd::string::StringSliceAdditionalSpecFns;
use crate::bytes::{concat, decimal, decimal_spec};
use crate::browse::{opt_duplicate, opt_view, root_rows, root_rows_spec, rows_view, RowV, TreeRow};
use crate::branch_list::{holds_bytes, holds_sub, lowercase, to_lower, trim_bytes, trimmed};
use crate::model::{ChangedFile, CommitState, Effect, GitTab, HunkExclusion, Kyde, ModalKind, Mode};
use crate::path::{
    contains_path, display_v, has_path, insert_path, is_empty_v, is_strict_ancestor_v,
    path_set, remove_path, root_v, starts_with_v, toggle_path, FsPath, PathV
};

verus! {

/// The paths of the changed files.
pub open spec fn file_paths(files: Seq<ChangedFile>) -> Seq<PathV> {
    files.map_values(|f: ChangedFile| f.path@)
}

/// Whether change `i` lies at or under `path` (a file is under itself; every change is
/// under the repo root `""`).
pub open spec fn under(files: Seq<ChangedFile>, i: int, path: PathV) -> bool {
    starts_with_v(files[i].path@, path)
}

/// The paths of the changes at or under `path`.
pub open spec fn changed_set(files: Seq<ChangedFile>, path: PathV) -> Set<PathV> {
    Set::new(
        |x: PathV|
            exists|i: int| 0 <= i < files.len() && files[i].path@ == x && #[trigger] under(files, i, path),
    )
}

/// Every change under `path` is in `set` (and there is at least one).
pub open spec fn all_checked_spec(files: Seq<ChangedFile>, set: Set<PathV>, path: PathV) -> bool {
    (exists|i: int| 0 <= i < files.len() && #[trigger] under(files, i, path)) && forall|i: int|
        0 <= i < files.len() && #[trigger] under(files, i, path) ==> set.contains(files[i].path@)
}

/// The checked set after toggling `path`: a folder's changes all become checked, or all
/// unchecked when every one of them already was; a file flips.
pub open spec fn toggled_checks(
    files: Seq<ChangedFile>,
    set: Set<PathV>,
    path: PathV,
    is_dir: bool,
) -> Set<PathV> {
    if is_dir {
        if all_checked_spec(files, set, path) {
            set.difference(changed_set(files, path))
        } else {
            set.union(changed_set(files, path))
        }
    } else if set.contains(path) {
        set.remove(path)
    } else {
        set.insert(path)
    }
}

/// Indices into `files` of the changes at or under `path`, in order.
pub fn changed_under_in(files: &Vec<ChangedFile>, path: &FsPath) -> (r: Vec<usize>)
    ensures
        forall|k: int| 0 <= k < r@.len() ==> r@[k] < files@.len(),
        forall|k: int, m: int| 0 <= k < m < r@.len() ==> r@[k] < r@[m],
        forall|i: int|
            0 <= i < files@.len() ==> (r@.contains(i as usize) <==> #[trigger] under(
                files@,
                i,
                path@,
            )),
{
    let mut r: Vec<usize> = Vec::new();
    let mut i: usize = 0;
    while i < files.len()
        invariant
            i <= files@.len(),
            forall|k: int| 0 <= k < r@.len() ==> r@[k] < i,
            forall|k: int, m: int| 0 <= k < m < r@.len() ==> r@[k] < r@[m],
            forall|j: int|
                0 <= j < i ==> (r@.contains(j as usize) <==> #[trigger] under(files@, j, path@)),
        decreases files@.len() - i,
    {
        let ghost r0 = r@;
        if files[i].path.starts_with(path) {
            r.push(i);
            assert forall|j: int| 0 <= j < i + 1 implies (r@.contains(j as usize) <==> #[trigger] under(
                files@,
                j,
                path@,
            )) by {
                if j < i {
                    if r0.contains(j as usize) {
                        let k = choose|k: int| 0 <= k < r0.len() && r0[k] == j as usize;
                        assert(r@[k] == j as usize);
                    }
                    if r@.contains(j as usize) {
                        let k = choose|k: int| 0 <= k < r@.len() && r@[k] == j as usize;
                        assert(k < r0.len());
                        assert(r0[k] == j as usize);
                    }
                } else {
                    assert(r@[r0.len() as int] == i);
                }
            }
        } else {
            assert forall|j: int| 0 <= j < i + 1 implies (r@.contains(j as usize) <==> #[trigger] under(
                files@,
                j,
                path@,
            )) by {
                if j == i {
                    if r@.contains(j as usize) {
                        let k = choose|k: int| 0 <= k < r@.len() && r@[k] == j as usize;
                        assert(r@[k] < i);
                    }
                }
            }
        }
        i = i + 1;
    }
    r
}

/// Whether some change lies at or under `path`.
pub fn any_under(files: &Vec<ChangedFile>, path: &FsPath) -> (r: bool)
    ensures
        r == exists|i: int| 0 <= i < files@.len() && #[trigger] under(files@, i, path@),
{
    let mut i: usize = 0;
    while i < files.len()
        invariant
            i <= files@.len(),
            forall|j: int| 0 <= j < i ==> !#[trigger] under(files@, j, path@),
        decreases files@.len() - i,
    {
        if files[i].path.starts_with(path) {
            assert(under(files@, i as int, path@));
            return true;
        }
        i = i + 1;
    }
    false
}

/// Whether every change under `path` is in `checked` (and there is one).
pub fn all_checked_under(files: &Vec<ChangedFile>, checked: &Vec<FsPath>, path: &FsPath) -> (r:
    bool)
    ensures
        r == all_checked_spec(files@, path_set(checked@), path@),
{
    if !any_under(files, path) {
        return false;
    }
    let mut i: usize = 0;
    while i < files.len()
        invariant
            i <= files@.len(),
            exists|j: int| 0 <= j < files@.len() && #[trigger] under(files@, j, path@),
            forall|j: int|
                0 <= j < i && #[trigger] under(files@, j, path@) ==> path_set(checked@).contains(
                    files@[j].path@,
                ),
        decreases files@.len() - i,
    {
        if files[i].path.starts_with(path) {
            if !contains_path(checked, &files[i].path) {
                assert(under(files@, i as int, path@));
                assert(!path_set(checked@).contains(files@[i as int].path@));
                return false;
            }
        }
        i = i + 1;
    }
    true
}

/// Toggle a checkbox of `checked` (see [`toggled_checks`]).
pub fn toggle_check_in(files: &Vec<ChangedFile>, checked: &mut Vec<FsPath>, path: FsPath, is_dir: bool)
    ensures
        path_set(final(checked)@) == toggled_checks(files@, path_set(old(checked)@), path@, is_dir),
{
    if !is_dir {
        toggle_path(checked, path);
        return;
    }
    let want = !all_checked_under(files, checked, &path);
    let ghost base = path_set(checked@);
    let ghost d = changed_set(files@, path@);
    let mut i: usize = 0;
    while i < files.len()
        invariant
            i <= files@.len(),
            path_set(checked@) == if want {
                base.union(Set::new(|x: PathV| exists|j: int| 0 <= j < i && files@[j].path@ == x && #[trigger] under(files@, j, path@)))
            } else {
                base.difference(Set::new(|x: PathV| exists|j: int| 0 <= j < i && files@[j].path@ == x && #[trigger] under(files@, j, path@)))
            },
        decreases files@.len() - i,
    {
        let ghost before = path_set(checked@);
        let ghost si = Set::new(|x: PathV| exists|j: int| 0 <= j < i && files@[j].path@ == x && #[trigger] under(files@, j, path@));
        let ghost si1 = Set::new(|x: PathV| exists|j: int| 0 <= j < i + 1 && files@[j].path@ == x && #[trigger] under(files@, j, path@));
        if files[i].path.starts_with(&path) {
            let ghost fp = files@[i as int].path@;
            assert(si1 =~= si.insert(fp)) by {
                assert(under(files@, i as int, path@));
                assert forall|x: PathV| si1.contains(x) <==> si.insert(fp).contains(x) by {
                    if si1.contains(x) {
                        let j = choose|j: int| 0 <= j < i + 1 && files@[j].path@ == x && #[trigger] under(files@, j, path@);
                        if j < i {
                            assert(si.contains(x));
                        }
                    }
                    if si.contains(x) {
                        let j = choose|j: int| 0 <= j < i && files@[j].path@ == x && #[trigger] under(files@, j, path@);
                        assert(si1.contains(x));
                    }
                }
            }
            if want {
                insert_path(checked, files[i].path.duplicate());
                assert(path_set(checked@) =~= base.union(si1));
            } else {
                remove_path(checked, &files[i].path);
                assert(path_set(checked@) =~= base.difference(si1));
            }
        } else {
            assert(si1 =~= si) by {
                assert forall|x: PathV| si1.contains(x) implies si.contains(x) by {
                    if si1.contains(x) {
                        let j = choose|j: int| 0 <= j < i + 1 && files@[j].path@ == x && #[trigger] under(files@, j, path@);
                        assert(j != i);
                    }
                }
            }
        }
        i = i + 1;
    }
    assert(Set::new(|x: PathV| exists|j: int| 0 <= j < i && files@[j].path@ == x && #[trigger] under(files@, j, path@)) =~= d);
}

/// Toggling a folder that holds changes flips whether all of them are checked.
pub proof fn law_folder_toggle_flips(files: Seq<ChangedFile>, set: Set<PathV>, path: PathV)
    requires
        exists|i: int| 0 <= i < files.len() && #[trigger] under(files, i, path),
    ensures
        all_checked_spec(files, toggled_checks(files, set, path, true), path) == !all_checked_spec(
            files,
            set,
            path,
        ),
{
    let after = toggled_checks(files, set, path, true);
    let i0 = choose|i: int| 0 <= i < files.len() && #[trigger] under(files, i, path);
    assert(changed_set(files, path).contains(files[i0].path@));
    if all_checked_spec(files, set, path) {
        assert(!after.contains(files[i0].path@));
    } else {
        assert forall|i: int| 0 <= i < files.len() && #[trigger] under(files, i, path) implies after.contains(
            files[i].path@,
        ) by {
            assert(changed_set(files, path).contains(files[i].path@));
        }
    }
}

/// The set of changed paths.
pub open spec fn live_set(files: Seq<ChangedFile>) -> Set<PathV> {
    Set::new(|x: PathV| file_paths(files).contains(x))
}

/// Whether `x` is a changed path.
pub fn is_live(files: &Vec<ChangedFile>, x: &FsPath) -> (r: bool)
    ensures
        r == live_set(files@).contains(x@),
{
    let mut i: usize = 0;
    while i < files.len()
        invariant
            i <= files@.len(),
            forall|j: int| 0 <= j < i ==> files@[j].path@ != x@,
        decreases files@.len() - i,
    {
        if files[i].path.same(x) {
            assert(file_paths(files@)[i as int] == x@);
            return true;
        }
        i = i + 1;
    }
    assert(!file_paths(files@).contains(x@)) by {
        if file_paths(files@).contains(x@) {
            let j = choose|j: int| 0 <= j < file_paths(files@).len() && file_paths(files@)[j] == x@;
            assert(files@[j].path@ == x@);
        }
    }
    false
}

/// Keep only the paths of `v` that are still changed.
pub fn retain_live(v: &mut Vec<FsPath>, files: &Vec<ChangedFile>)
    ensures
        path_set(final(v)@) == path_set(old(v)@).intersect(live_set(files@)),
{
    let ghost orig = v@;
    let mut out: Vec<FsPath> = Vec::new();
    let mut i: usize = 0;
    while i < v.len()
        invariant
            i <= v@.len(),
            v@ == orig,
            forall|x: PathV| #[trigger] has_path(out@, x) <==> (has_path(orig.subrange(0, i as int), x) && live_set(files@).contains(x)),
        decreases v@.len() - i,
    {
        let ghost pre = orig.subrange(0, i as int);
        let ghost e = orig[i as int];
        let ghost out0 = out@;
        assert(forall|x: PathV| #[trigger] has_path(out0, x) <==> (has_path(pre, x) && live_set(files@).contains(x)));
        assert(orig.subrange(0, i + 1) =~= pre.push(e));
        assert(v@[i as int] == e);
        if is_live(files, &v[i]) {
            let c = v[i].duplicate();
            out.push(c);
            assert forall|x: PathV| #[trigger] has_path(out@, x) <==> (has_path(pre.push(e), x) && live_set(files@).contains(x)) by {
                crate::path::lemma_has_path_push(pre, e, x);
                crate::path::lemma_has_path_push(out0, c, x);
            }
        } else {
            assert forall|x: PathV| #[trigger] has_path(out@, x) <==> (has_path(pre.push(e), x) && live_set(files@).contains(x)) by {
                crate::path::lemma_has_path_push(pre, e, x);
            }
        }
        i = i + 1;
    }
    assert(orig.subrange(0, i as int) =~= orig);
    *v = out;
    assert(path_set(v@) =~= path_set(orig).intersect(live_set(files@)));
}

/// Whether hunk `h` of the file at `p` is left out of the commit.
pub open spec fn excluded(v: Seq<HunkExclusion>, p: PathV, h: usize) -> bool {
    exists|i: int| 0 <= i < v.len() && v[i].path@ == p && (#[trigger] v[i].hunks@).contains(h)
}

/// The exclusion table holds each file at most once (a map keyed by path).
pub open spec fn hunks_wf(v: Seq<HunkExclusion>) -> bool {
    forall|i: int, j: int| 0 <= i < j < v.len() ==> v[i].path@ != v[j].path@
}

pub proof fn lemma_contains_push<A>(s: Seq<A>, e: A, y: A)
    ensures
        s.push(e).contains(y) == (s.contains(y) || e == y),
{
    if s.push(e).contains(y) {
        let k = choose|k: int| 0 <= k < s.push(e).len() && s.push(e)[k] == y;
        if k < s.len() {
            assert(s[k] == y);
        }
    }
    if s.contains(y) {
        let k = choose|k: int| 0 <= k < s.len() && s[k] == y;
        assert(s.push(e)[k] == y);
    }
    if e == y {
        assert(s.push(e)[s.len() as int] == y);
    }
}

/// Toggle `x` in a list read as a set of integers.
pub fn toggle_usize(v: &mut Vec<usize>, x: usize)
    ensures
        forall|y: usize| #[trigger] final(v)@.contains(y) == if y == x {
            !old(v)@.contains(y)
        } else {
            old(v)@.contains(y)
        },
{
    let mut out: Vec<usize> = Vec::new();
    let mut found = false;
    let mut i: usize = 0;
    while i < v.len()
        invariant
            i <= v@.len(),
            v@ == old(v)@,
            found == v@.subrange(0, i as int).contains(x),
            forall|y: usize| #[trigger] out@.contains(y) == (v@.subrange(0, i as int).contains(y) && y != x),
        decreases v@.len() - i,
    {
        let e = v[i];
        let ghost out0 = out@;
        let ghost pre = v@.subrange(0, i as int);
        assert(v@.subrange(0, i + 1) =~= pre.push(e));
        proof {
            lemma_contains_push(pre, e, x);
        }
        if e == x {
            found = true;
            assert forall|y: usize| #[trigger] out@.contains(y) == (pre.push(e).contains(y) && y != x) by {
                lemma_contains_push(pre, e, y);
            }
        } else {
            out.push(e);
            assert forall|y: usize| #[trigger] out@.contains(y) == (pre.push(e).contains(y) && y != x) by {
                lemma_contains_push(pre, e, y);
                lemma_contains_push(out0, e, y);
            }
        }
        i = i + 1;
    }
    assert(v@.subrange(0, i as int) =~= v@);
    let ghost o = out@;
    if !found {
        out.push(x);
    }
    *v = out;
    assert forall|y: usize| #[trigger] v@.contains(y) == if y == x {
        !old(v)@.contains(y)
    } else {
        old(v)@.contains(y)
    } by {
        if !found {
            lemma_contains_push(o, x, y);
        }
    }
}

/// Toggle hunk `h` of `path` in the exclusion table.
pub fn toggle_excluded(v: &mut Vec<HunkExclusion>, path: &FsPath, h: usize)
    requires
        hunks_wf(old(v)@),
    ensures
        hunks_wf(final(v)@),
        forall|p: PathV, k: usize| #[trigger] excluded(final(v)@, p, k) == if p == path@ && k == h {
            !excluded(old(v)@, p, k)
        } else {
            excluded(old(v)@, p, k)
        },
{
    let mut i: usize = 0;
    while i < v.len()
        invariant
            i <= v@.len(),
            v@ == old(v)@,
            hunks_wf(old(v)@),
            forall|j: int| 0 <= j < i ==> v@[j].path@ != path@,
        decreases v@.len() - i,
    {
        if v[i].path.same(path) {
            let ghost old_entry = v@[i as int];
            let mut entry = v.remove(i);
            toggle_usize(&mut entry.hunks, h);
            let ghost e2 = entry;
            v.insert(i, entry);
            assert(v@ =~= old(v)@.update(i as int, e2));
            assert(e2.path == old_entry.path);
            assert(hunks_wf(v@)) by {
                assert forall|a: int, b: int| 0 <= a < b < v@.len() implies v@[a].path@ != v@[b].path@ by {
                    assert(old(v)@[a].path@ != old(v)@[b].path@);
                }
            }
            assert forall|p: PathV, k: usize| #[trigger] excluded(v@, p, k) == if p == path@ && k == h {
                !excluded(old(v)@, p, k)
            } else {
                excluded(old(v)@, p, k)
            } by {
                if excluded(v@, p, k) {
                    let j = choose|j: int| 0 <= j < v@.len() && v@[j].path@ == p && (#[trigger] v@[j].hunks@).contains(k);
                    if j != i {
                        assert(old(v)@[j] == v@[j]);
                    }
                }
                if excluded(old(v)@, p, k) {
                    let j = choose|j: int| 0 <= j < old(v)@.len() && old(v)@[j].path@ == p && (#[trigger] old(v)@[j].hunks@).contains(k);
                    if j != i {
                        assert(old(v)@[j] == v@[j]);
                    }
                }
                if p == path@ {
                    assert(v@[i as int].hunks@.contains(k) == (if k == h { !old_entry.hunks@.contains(k) } else { old_entry.hunks@.contains(k) }));
                }
            }
            return;
        }
        i = i + 1;
    }
    let mut hunks: Vec<usize> = Vec::new();
    hunks.push(h);
    v.push(HunkExclusion { path: path.duplicate(), hunks });
    assert forall|p: PathV, k: usize| #[trigger] excluded(v@, p, k) == if p == path@ && k == h {
        !excluded(old(v)@, p, k)
    } else {
        excluded(old(v)@, p, k)
    } by {
        if excluded(v@, p, k) {
            let j = choose|j: int| 0 <= j < v@.len() && v@[j].path@ == p && (#[trigger] v@[j].hunks@).contains(k);
            if j < old(v)@.len() {
                assert(old(v)@[j] == v@[j]);
            } else {
                let hk = v@[j].hunks@;
                assert(hk == seq![h]);
                let m = choose|m: int| 0 <= m < hk.len() && hk[m] == k;
                assert(k == h);
            }
        }
        if excluded(old(v)@, p, k) {
            let j = choose|j: int| 0 <= j < old(v)@.len() && old(v)@[j].path@ == p && (#[trigger] old(v)@[j].hunks@).contains(k);
            assert(old(v)@[j] == v@[j]);
        }
        if p == path@ && k == h {
            assert(v@[old(v)@.len() as int].hunks@[0] == h);
            assert(v@[old(v)@.len() as int].hunks@.contains(h));
        }
    }
}

/// Keep only the exclusions of files that are still changed.
pub fn retain_live_exclusions(v: &mut Vec<HunkExclusion>, files: &Vec<ChangedFile>)
    requires
        hunks_wf(old(v)@),
    ensures
        hunks_wf(final(v)@),
        forall|p: PathV, k: usize| #[trigger] excluded(final(v)@, p, k) == (excluded(old(v)@, p, k)
            && live_set(files@).contains(p)),
{
    let ghost orig = v@;
    let mut out: Vec<HunkExclusion> = Vec::new();
    while v.len() > 0
        invariant
            hunks_wf(orig),
            orig.len() >= v@.len(),
            v@ == orig.subrange(orig.len() - v@.len(), orig.len() as int),
            forall|j: int| 0 <= j < out@.len() ==> exists|m: int| 0 <= m < orig.len() - v@.len() && #[trigger] out@[j] == orig[m],
            hunks_wf(out@),
            forall|p: PathV, k: usize| #[trigger] excluded(out@, p, k) == (excluded(orig.subrange(0, orig.len() - v@.len()), p, k)
                && live_set(files@).contains(p)),
        decreases v@.len(),
    {
        let ghost done = orig.len() - v@.len();
        let e = v.remove(0);
        assert(e == orig[done]);
        let ghost pre = orig.subrange(0, done);
        let ghost out0 = out@;
        assert(orig.subrange(0, done + 1) =~= pre.push(e));
        assert forall|p: PathV, k: usize| #[trigger] excluded(pre.push(e), p, k) == (excluded(pre, p, k) || (e.path@ == p && e.hunks@.contains(k))) by {
            if excluded(pre.push(e), p, k) {
                let j = choose|j: int| 0 <= j < pre.push(e).len() && pre.push(e)[j].path@ == p && (#[trigger] pre.push(e)[j].hunks@).contains(k);
                if j < pre.len() {
                    assert(pre[j] == pre.push(e)[j]);
                }
            }
            if excluded(pre, p, k) {
                let j = choose|j: int| 0 <= j < pre.len() && pre[j].path@ == p && (#[trigger] pre[j].hunks@).contains(k);
                assert(pre.push(e)[j] == pre[j]);
            }
            if e.path@ == p && e.hunks@.contains(k) {
                assert(pre.push(e)[pre.len() as int] == e);
            }
        }
        if is_live(files, &e.path) {
            assert forall|j: int| 0 <= j < out0.len() implies out0[j].path@ != e.path@ by {
                let m = choose|m: int| 0 <= m < done && #[trigger] out0[j] == orig[m];
            }
            out.push(e);
            assert forall|p: PathV, k: usize| #[trigger] excluded(out@, p, k) == (excluded(out0, p, k) || (e.path@ == p && e.hunks@.contains(k))) by {
                if excluded(out@, p, k) {
                    let j = choose|j: int| 0 <= j < out@.len() && out@[j].path@ == p && (#[trigger] out@[j].hunks@).contains(k);
                    if j < out0.len() {
                        assert(out0[j] == out@[j]);
                    }
                }
                if excluded(out0, p, k) {
                    let j = choose|j: int| 0 <= j < out0.len() && out0[j].path@ == p && (#[trigger] out0[j].hunks@).contains(k);
                    assert(out@[j] == out0[j]);
                }
                if e.path@ == p && e.hunks@.contains(k) {
                    assert(out@[out0.len() as int] == e);
                }
            }
            assert forall|j: int| 0 <= j < out@.len() implies exists|m: int| 0 <= m < orig.len() - v@.len() && #[trigger] out@[j] == orig[m] by {
                if j < out0.len() {
                    assert(out@[j] == out0[j]);
                } else {
                    assert(out@[j] == orig[done]);
                }
            }
        } else {
            assert forall|j: int| 0 <= j < out@.len() implies exists|m: int| 0 <= m < orig.len() - v@.len() && #[trigger] out@[j] == orig[m] by {
                let m = choose|m: int| 0 <= m < done && #[trigger] out0[j] == orig[m];
            }
        }
        assert(v@ =~= orig.subrange(orig.len() - v@.len(), orig.len() as int));
    }
    assert(orig.subrange(0, orig.len() as int) =~= orig);
    *v = out;
}

impl Kyde {
    /// Indices into `files` of the changes at or under `path`, in order: a file gives
    /// itself, a folder every change beneath it, the repo root `""` all of them.
    pub fn changed_under(&self, path: &FsPath) -> (r: Vec<usize>)
        ensures
            forall|k: int| 0 <= k < r@.len() ==> r@[k] < self.files@.len(),
            forall|k: int, m: int| 0 <= k < m < r@.len() ==> r@[k] < r@[m],
            forall|i: int|
                0 <= i < self.files@.len() ==> (r@.contains(i as usize) <==> #[trigger] under(
                    self.files@,
                    i,
                    path@,
                )),
    {
        changed_under_in(&self.files, path)
    }

    /// Whether anything is committable or revertable under `path`.
    pub fn has_changes_under(&self, path: &FsPath) -> (r: bool)
        ensures
            r == exists|i: int| 0 <= i < self.files@.len() && #[trigger] under(self.files@, i, path@),
    {
        any_under(&self.files, path)
    }

    /// Whether every change under `path` is checked for the commit (and there is one).
    pub fn folder_all_checked(&self, path: &FsPath) -> (r: bool)
        ensures
            r == all_checked_spec(self.files@, path_set(self.commit.checked@), path@),
    {
        all_checked_under(&self.files, &self.commit.checked, path)
    }

    /// Toggle a commit checkbox; a folder sets all its changes at once (unchecking them
    /// all when every one was checked).
    pub fn toggle_commit_check(&mut self, path: FsPath, is_dir: bool)
        ensures
            path_set(final(self).commit.checked@) == toggled_checks(
                old(self).files@,
                path_set(old(self).commit.checked@),
                path@,
                is_dir,
            ),
            final(self).files == old(self).files,
            *final(self) == (Kyde { commit: CommitState { checked: final(self).commit.checked, ..old(self).commit }, ..*old(self) }),
    {
        toggle_check_in(&self.files, &mut self.commit.checked, path, is_dir);
    }

    /// Tick or untick hunk `hi` of the file shown in the diff for the commit. Nothing
    /// happens when the diff shows no file.
    pub fn toggle_hunk_included(&mut self, hi: usize)
        requires
            hunks_wf(old(self).commit.excluded_hunks@),
        ensures
            hunks_wf(final(self).commit.excluded_hunks@),
            match opt_view(old(self).diff.path) {
                Some(dp) => forall|p: PathV, k: usize| #[trigger] excluded(final(self).commit.excluded_hunks@, p, k)
                    == if p == dp && k == hi {
                    !excluded(old(self).commit.excluded_hunks@, p, k)
                } else {
                    excluded(old(self).commit.excluded_hunks@, p, k)
                },
                None => final(self).commit.excluded_hunks == old(self).commit.excluded_hunks,
            },
            *final(self) == (Kyde {
                commit: CommitState { excluded_hunks: final(self).commit.excluded_hunks, ..old(self).commit },
                ..*old(self)
            }),
    {
        match &self.diff.path {
            Some(p) => {
                let path = p.duplicate();
                toggle_excluded(&mut self.commit.excluded_hunks, &path, hi);
            },
            None => {},
        }
    }

    /// Expand or collapse a folder of the commit tree.
    pub fn toggle_commit_dir(&mut self, dir: FsPath)
        ensures
            path_set(final(self).commit.expanded@) == if path_set(old(self).commit.expanded@).contains(dir@) {
                path_set(old(self).commit.expanded@).remove(dir@)
            } else {
                path_set(old(self).commit.expanded@).insert(dir@)
            },
            *final(self) == (Kyde { commit: CommitState { expanded: final(self).commit.expanded, ..old(self).commit }, ..*old(self) }),
    {
        toggle_path(&mut self.commit.expanded, dir);
    }

    /// After a revert leaves nothing changed, the commit view falls back to Browse.
    pub fn exit_commit_if_clean(&mut self)
        ensures
            final(self).mode == if old(self).mode == Mode::Commit && old(self).files@.len() == 0 {
                Mode::Browse
            } else {
                old(self).mode
            },
            *final(self) == (Kyde { mode: final(self).mode, ..*old(self) }),
    {
        if self.mode == Mode::Commit && self.files.len() == 0 {
            self.mode = Mode::Browse;
        }
    }

    /// Select changed file `idx` (dropping any folder-group highlight); the host loads it
    /// into the diff panes when it exists.
    pub fn select_with(&mut self, idx: usize) -> (effects: Vec<Effect>)
        ensures
            final(self).selected == Some(idx),
            final(self).commit.focus@.len() == 0,
            effects@ == if idx < old(self).files@.len() {
                seq![Effect::LoadDiffForSelected]
            } else {
                seq![]
            },
            final(self).files == old(self).files,
            final(self).commit.checked == old(self).commit.checked,
            final(self).commit.excluded_hunks == old(self).commit.excluded_hunks,
            final(self).mode == old(self).mode,
            *final(self) == (Kyde { selected: Some(idx), commit: CommitState { focus: final(self).commit.focus, ..old(self).commit }, ..*old(self) }),
    {
        self.selected = Some(idx);
        self.commit.focus = Vec::new();
        let mut effects: Vec<Effect> = Vec::new();
        if idx < self.files.len() {
            effects.push(Effect::LoadDiffForSelected);
        }
        effects
    }

    /// Select changed file `idx`.
    pub fn select(&mut self, idx: usize) -> (effects: Vec<Effect>)
        ensures
            final(self).selected == Some(idx),
            final(self).commit.focus@.len() == 0,
            effects@ == if idx < old(self).files@.len() {
                seq![Effect::LoadDiffForSelected]
            } else {
                seq![]
            },
            *final(self) == (Kyde { selected: Some(idx), commit: CommitState { focus: final(self).commit.focus, ..old(self).commit }, ..*old(self) }),
    {
        self.select_with(idx)
    }

    /// Rebuild the commit tree's expansion (the root and every folder holding a change)
    /// and its checkboxes: all changes checked when `check_all`, else the checks that are
    /// still changes. Exclusions of files no longer changed are dropped.
    pub fn rebuild_commit_view(&mut self, check_all: bool)
        requires
            hunks_wf(old(self).commit.excluded_hunks@),
        ensures
            rebuilt(old(self).commit, final(self).commit, old(self).files@, check_all),
            final(self).files == old(self).files,
            final(self).mode == old(self).mode,
            final(self).selected == old(self).selected,
            final(self).browse == old(self).browse,
            *final(self) == (Kyde { commit: final(self).commit, ..*old(self) }),
    {
        rebuild_commit_state(&mut self.commit, &self.files, check_all);
    }
}

/// What `git status` and the push range read when the commit view opens.
pub struct RepoStatus {
    pub files: Vec<ChangedFile>,
    pub push_files: Vec<FsPath>,
}

/// The paths of the changes at or under `path`.
pub fn paths_under(files: &Vec<ChangedFile>, path: &FsPath) -> (r: Vec<FsPath>)
    ensures
        path_set(r@) == changed_set(files@, path@),
{
    let mut r: Vec<FsPath> = Vec::new();
    let mut i: usize = 0;
    while i < files.len()
        invariant
            i <= files@.len(),
            forall|x: PathV| #[trigger] has_path(r@, x) <==> exists|j: int| 0 <= j < i && files@[j].path@ == x && #[trigger] under(files@, j, path@),
        decreases files@.len() - i,
    {
        if files[i].path.starts_with(path) {
            let c = files[i].path.duplicate();
            let ghost r0 = r@;
            r.push(c);
            assert forall|x: PathV| #[trigger] has_path(r@, x) <==> exists|j: int| 0 <= j < i + 1 && files@[j].path@ == x && #[trigger] under(files@, j, path@) by {
                crate::path::lemma_has_path_push(r0, c, x);
                if exists|j: int| 0 <= j < i + 1 && files@[j].path@ == x && #[trigger] under(files@, j, path@) {
                    let j = choose|j: int| 0 <= j < i + 1 && files@[j].path@ == x && #[trigger] under(files@, j, path@);
                    if j < i {
                        assert(exists|j2: int| 0 <= j2 < i && files@[j2].path@ == x && #[trigger] under(files@, j2, path@));
                    }
                }
                if has_path(r0, x) {
                    let j = choose|j: int| 0 <= j < i && files@[j].path@ == x && #[trigger] under(files@, j, path@);
                    assert(0 <= j < i + 1);
                }
                if c@ == x {
                    assert(under(files@, i as int, path@));
                }
            }
        } else {
            assert forall|x: PathV| #[trigger] has_path(r@, x) <==> exists|j: int| 0 <= j < i + 1 && files@[j].path@ == x && #[trigger] under(files@, j, path@) by {
                if exists|j: int| 0 <= j < i + 1 && files@[j].path@ == x && #[trigger] under(files@, j, path@) {
                    let j = choose|j: int| 0 <= j < i + 1 && files@[j].path@ == x && #[trigger] under(files@, j, path@);
                    assert(j != i);
                    assert(exists|j2: int| 0 <= j2 < i && files@[j2].path@ == x && #[trigger] under(files@, j2, path@));
                }
                if has_path(r@, x) {
                    let j = choose|j: int| 0 <= j < i && files@[j].path@ == x && #[trigger] under(files@, j, path@);
                    assert(0 <= j < i + 1);
                }
            }
        }
        i = i + 1;
    }
    assert(path_set(r@) =~= changed_set(files@, path@));
    r
}

/// The first change under `path`.
pub open spec fn first_under(files: Seq<ChangedFile>, path: PathV, i: int) -> bool {
    0 <= i < files.len() && under(files, i, path) && forall|j: int| 0 <= j < i ==> !#[trigger] under(files, j, path)
}

/// Which change the commit view opens on: the open file if it changed, else the prior
/// selection while it is in range, else the first change.
pub open spec fn commit_entry_choice(files: Seq<ChangedFile>, open: Option<PathV>, prior: Option<usize>) -> Option<int> {
    if open is Some && file_paths(files).contains(open.unwrap()) {
        Some(crate::browse::first_index(file_paths(files), open.unwrap()))
    } else if prior is Some && prior.unwrap() < files.len() {
        Some(prior.unwrap() as int)
    } else if files.len() > 0 {
        Some(0)
    } else {
        None
    }
}

/// Entering the commit view shows the file open in Browse whenever it has changes,
/// whatever was selected before: the first change at its path. Without it the prior
/// selection stays while it is a change, else the first change is shown, else none.
pub proof fn law_commit_entry_prefers_open_file(files: Seq<ChangedFile>, open: Option<PathV>, prior: Option<usize>)
    ensures
        (open matches Some(p) && exists|j: int| 0 <= j < files.len() && files[j].path@ == p) ==> (commit_entry_choice(
            files,
            open,
            prior,
        ) matches Some(k) && 0 <= k < files.len() && files[k].path@ == open.unwrap() && forall|j: int|
            0 <= j < k ==> files[j].path@ != open.unwrap()),
        !(open matches Some(p) && exists|j: int| 0 <= j < files.len() && files[j].path@ == p) ==> commit_entry_choice(
            files,
            open,
            prior,
        ) == if prior matches Some(i) && i < files.len() {
            Some(prior.unwrap() as int)
        } else if files.len() > 0 {
            Some(0int)
        } else {
            None
        },
{
    let fp = file_paths(files);
    if open matches Some(p) && exists|j: int| 0 <= j < files.len() && files[j].path@ == p {
        let p = open.unwrap();
        let j = choose|j: int| 0 <= j < files.len() && files[j].path@ == p;
        assert(fp[j] == p);
        assert(fp.contains(p));
        crate::browse::lemma_first_occurrence(fp, p, j);
        let k = choose|k: int| 0 <= k < fp.len() && fp[k] == p && forall|m: int| 0 <= m < k ==> fp[m] != p;
        crate::browse::lemma_first_index(fp, p, k);
        assert forall|i: int| 0 <= i < k implies files[i].path@ != p by {
            assert(fp[i] == files[i].path@);
        }
    } else {
        if open is Some && fp.contains(open.unwrap()) {
            let j = choose|j: int| 0 <= j < fp.len() && fp[j] == open.unwrap();
            assert(files[j].path@ == open.unwrap());
        }
    }
}

impl Kyde {
    /// Browse → "Commit": switch to the commit view with every change under `path`
    /// grouped, checked for the commit, and the first of them open in the diff. Without
    /// changes under `path` only the context menu closes.
    pub fn menu_commit_path(&mut self, path: FsPath) -> (effects: Vec<Effect>)
        requires
            hunks_wf(old(self).commit.excluded_hunks@),
        ensures
            !final(self).menu_open,
            final(self).files == old(self).files,
            !(exists|i: int| 0 <= i < old(self).files@.len() && #[trigger] under(old(self).files@, i, path@)) ==> {
                &&& final(self).mode == old(self).mode
                &&& final(self).commit == old(self).commit
                &&& final(self).selected == old(self).selected
                &&& effects@.len() == 0
            },
            (exists|i: int| 0 <= i < old(self).files@.len() && #[trigger] under(old(self).files@, i, path@)) ==> {
                &&& final(self).mode == Mode::Commit
                &&& final(self).selected is Some
                &&& first_under(old(self).files@, path@, final(self).selected.unwrap() as int)
                &&& path_set(final(self).commit.focus@) == changed_set(old(self).files@, path@)
                &&& path_set(final(self).commit.checked@) == changed_set(old(self).files@, path@)
                &&& hunks_wf(final(self).commit.excluded_hunks@)
                &&& effects@ == seq![Effect::LoadDiffForSelected]
            },
            *final(self) == (Kyde { commit: final(self).commit, menu_open: final(self).menu_open, mode: final(self).mode, selected: final(self).selected, ..*old(self) }),
    {
        let idxs = self.changed_under(&path);
        self.menu_open = false;
        if idxs.len() == 0 {
            proof {
                if exists|i: int| 0 <= i < old(self).files@.len() && #[trigger] under(old(self).files@, i, path@) {
                    let i = choose|i: int| 0 <= i < old(self).files@.len() && #[trigger] under(old(self).files@, i, path@);
                    assert(idxs@.contains(i as usize));
                }
            }
            return Vec::new();
        }
        let first = idxs[0];
        proof {
            assert(idxs@.contains(first));
            assert(under(self.files@, first as int, path@));
            assert forall|j: int| 0 <= j < first implies !#[trigger] under(self.files@, j, path@) by {
                if under(self.files@, j, path@) {
                    assert(idxs@.contains(j as usize));
                    let k = choose|k: int| 0 <= k < idxs@.len() && idxs@[k] == j as usize;
                    if k > 0 {
                        assert(idxs@[0] < idxs@[k]);
                    }
                }
            }
        }
        self.mode = Mode::Commit;
        rebuild_commit_state(&mut self.commit, &self.files, false);
        self.selected = Some(first);
        let mut effects: Vec<Effect> = Vec::new();
        effects.push(Effect::LoadDiffForSelected);
        let group = paths_under(&self.files, &path);
        self.commit.focus = group;
        self.commit.checked = paths_under(&self.files, &path);
        effects
    }

    /// ⌘K: open the git view (the commit itself happens from the Commit button).
    pub fn act_commit(&mut self, status: Option<RepoStatus>) -> (effects: Vec<Effect>)
        requires
            hunks_wf(old(self).commit.excluded_hunks@),
        ensures
            final(self).mode == Mode::Commit,
            !final(self).diff_view_open,
            final(self).commit.focus_msg,
            *final(self) == (Kyde { commit: final(self).commit, diff: final(self).diff, diff_view_open: final(self).diff_view_open, files: final(self).files, git_tab: final(self).git_tab, mode: final(self).mode, selected: final(self).selected, sync: final(self).sync, ..*old(self) }),
    {
        self.enter_commit(status)
    }

    /// The "Commit view" action: switch the main view to Commit.
    pub fn act_mode_commit(&self) -> (effects: Vec<Effect>)
        ensures
            effects@ == seq![Effect::SwitchMode(Mode::Commit)],
    {
        let mut effects: Vec<Effect> = Vec::new();
        effects.push(Effect::SwitchMode(Mode::Commit));
        effects
    }

    /// Switch to the commit view with a fresh status (`status` is `None` when there is no
    /// repository). Opens on the Push tab when nothing is changed but commits wait to be
    /// pushed; otherwise on the Commit tab, every change checked, with the open file (else
    /// the prior selection, else the first change) in the diff.
    #[verifier::rlimit(60)]
    pub fn enter_commit(&mut self, status: Option<RepoStatus>) -> (effects: Vec<Effect>)
        requires
            hunks_wf(old(self).commit.excluded_hunks@),
        ensures
            final(self).mode == Mode::Commit,
            !final(self).diff_view_open,
            final(self).commit.focus_msg,
            ({
                let files = match status {
                    Some(st) => st.files@,
                    None => old(self).files@,
                };
                let push = match status {
                    Some(st) => st.push_files@,
                    None => old(self).sync.push_files@,
                };
                &&& final(self).files@ == files
                &&& path_set(final(self).commit.checked@) == live_set(files)
                &&& if files.len() == 0 && push.len() > 0 {
                    &&& final(self).git_tab == GitTab::Push
                    &&& effects@ == seq![Effect::SelectPushFile]
                } else {
                    &&& final(self).git_tab == GitTab::Commit
                    &&& match commit_entry_choice(files, opt_view(old(self).browse.open_path), old(self).selected) {
                        Some(i) => final(self).selected == Some(i as usize)
                            && effects@ == seq![Effect::LoadDiffForSelected],
                        None => final(self).selected is None && final(self).diff.path is None
                            && effects@ == seq![Effect::ClearDiffPanes],
                    }
                }
            }),
            *final(self) == (Kyde { commit: final(self).commit, diff: final(self).diff, diff_view_open: final(self).diff_view_open, files: final(self).files, git_tab: final(self).git_tab, mode: final(self).mode, selected: final(self).selected, sync: final(self).sync, ..*old(self) }),
    {
        self.mode = Mode::Commit;
        self.diff_view_open = false;
        self.commit.focus_msg = true;
        match status {
            Some(st) => {
                self.files = st.files;
                self.sync.push_files = st.push_files;
            },
            None => {},
        }
        let ghost files = self.files@;
        if self.files.len() == 0 && self.sync.push_files.len() > 0 {
            self.git_tab = GitTab::Push;
            rebuild_commit_state(&mut self.commit, &self.files, true);
            let mut effects: Vec<Effect> = Vec::new();
            effects.push(Effect::SelectPushFile);
            return effects;
        }
        self.git_tab = GitTab::Commit;
        rebuild_commit_state(&mut self.commit, &self.files, true);
        let idx = commit_entry_index(&self.files, &self.browse.open_path, self.selected);
        match idx {
            Some(i) => {
                self.selected = Some(i);
                self.commit.focus = Vec::new();
                let mut effects: Vec<Effect> = Vec::new();
                effects.push(Effect::LoadDiffForSelected);
                effects
            },
            None => {
                self.selected = None;
                self.diff.path = None;
                let mut effects: Vec<Effect> = Vec::new();
                effects.push(Effect::ClearDiffPanes);
                effects
            },
        }
    }

    /// Whether every change under `path` is checked for rollback (and there is one).
    pub fn rollback_folder_all_checked(&self, path: &FsPath) -> (r: bool)
        ensures
            r == all_checked_spec(self.files@, path_set(self.rollback_checked@), path@),
    {
        all_checked_under(&self.files, &self.rollback_checked, path)
    }

    /// Toggle a rollback checkbox, like [`Kyde::toggle_commit_check`].
    pub fn toggle_rollback_check(&mut self, path: FsPath, is_dir: bool)
        ensures
            path_set(final(self).rollback_checked@) == toggled_checks(
                old(self).files@,
                path_set(old(self).rollback_checked@),
                path@,
                is_dir,
            ),
            *final(self) == (Kyde { rollback_checked: final(self).rollback_checked, ..*old(self) }),
    {
        toggle_check_in(&self.files, &mut self.rollback_checked, path, is_dir);
    }

    /// Browse → "Rollback": open the rollback window with every change under `path`
    /// checked ("delete local copies" off). Without changes only the menu closes.
    pub fn open_rollback_path(&mut self, path: FsPath) -> (effects: Vec<Effect>)
        ensures
            !final(self).menu_open,
            final(self).files == old(self).files,
            final(self).finder == old(self).finder,
            (exists|i: int| 0 <= i < old(self).files@.len() && #[trigger] under(old(self).files@, i, path@)) ==> {
                &&& path_set(final(self).rollback_checked@) == changed_set(old(self).files@, path@)
                &&& !final(self).rollback_delete_added
                &&& effects@ == seq![Effect::OpenModal(ModalKind::Rollback)]
            },
            !(exists|i: int| 0 <= i < old(self).files@.len() && #[trigger] under(old(self).files@, i, path@)) ==> {
                &&& final(self).rollback_checked == old(self).rollback_checked
                &&& final(self).rollback_delete_added == old(self).rollback_delete_added
                &&& effects@.len() == 0
            },
            *final(self) == (Kyde {
                menu_open: false,
                rollback_checked: final(self).rollback_checked,
                rollback_delete_added: final(self).rollback_delete_added,
                ..*old(self)
            }),
    {
        let checked = paths_under(&self.files, &path);
        self.menu_open = false;
        if checked.len() == 0 {
            proof {
                if exists|i: int| 0 <= i < old(self).files@.len() && #[trigger] under(old(self).files@, i, path@) {
                    let i = choose|i: int| 0 <= i < old(self).files@.len() && #[trigger] under(old(self).files@, i, path@);
                    assert(changed_set(self.files@, path@).contains(self.files@[i].path@));
                    assert(!has_path(checked@, self.files@[i].path@));
                }
            }
            return Vec::new();
        }
        proof {
            assert(has_path(checked@, checked@[0]@));
            assert(changed_set(self.files@, path@).contains(checked@[0]@));
        }
        self.rollback_checked = checked;
        self.rollback_delete_added = false;
        let mut effects: Vec<Effect> = Vec::new();
        effects.push(Effect::OpenModal(ModalKind::Rollback));
        effects
    }

    /// Close the rollback window.
    pub fn close_rollback_window(&self) -> (effects: Vec<Effect>)
        ensures
            effects@ == seq![Effect::CloseModal(ModalKind::Rollback)],
    {
        let mut effects: Vec<Effect> = Vec::new();
        effects.push(Effect::CloseModal(ModalKind::Rollback));
        effects
    }
}

/// The commit state after a rebuild over `files` (see [`Kyde::rebuild_commit_view`]).
pub open spec fn rebuilt(before: CommitState, after: CommitState, files: Seq<ChangedFile>, check_all: bool) -> bool {
    &&& path_set(after.expanded@) == Set::new(|a: PathV| a == root_v() || exists|i: int|
        0 <= i < files.len() && #[trigger] is_strict_ancestor_v(a, files[i].path@))
    &&& path_set(after.checked@) == if check_all {
        live_set(files)
    } else {
        path_set(before.checked@).intersect(live_set(files))
    }
    &&& hunks_wf(after.excluded_hunks@)
    &&& forall|p: PathV, k: usize| #[trigger] excluded(after.excluded_hunks@, p, k) == (excluded(
        before.excluded_hunks@, p, k) && live_set(files).contains(p))
    &&& after.focus == before.focus
    &&& after.committing == before.committing
    &&& after.focus_msg == before.focus_msg
}

/// Rebuild the commit tree's expansion and checkboxes over `files`.
pub fn rebuild_commit_state(commit: &mut CommitState, files_v: &Vec<ChangedFile>, check_all: bool)
    requires
        hunks_wf(old(commit).excluded_hunks@),
    ensures
        rebuilt(*old(commit), *final(commit), files_v@, check_all),
{
        let mut expanded: Vec<FsPath> = Vec::new();
        expanded.push(FsPath::root());
        let ghost files = files_v@;
        assert(path_set(expanded@) =~= set![root_v()]) by {
            assert forall|x: PathV| path_set(expanded@).contains(x) <==> x == root_v() by {
                if x == root_v() {
                    assert(expanded@[0]@ == x);
                }
            }
        }
        let mut i: usize = 0;
        while i < files_v.len()
            invariant
                i <= files.len(),
                files_v@ == files,
                path_set(expanded@) == Set::new(|a: PathV| a == root_v() || exists|j: int|
                    0 <= j < i && #[trigger] is_strict_ancestor_v(a, files[j].path@)),
            decreases files.len() - i,
        {
            let ancs = files_v[i].path.strict_ancestors();
            let ghost fp = files[i as int].path@;
            let ghost s0 = path_set(expanded@);
            let mut k: usize = 0;
            while k < ancs.len()
                invariant
                    k <= ancs@.len(),
                    ancs@.len() == fp.1.len(),
                    forall|m: int| 0 <= m < ancs@.len() ==> (#[trigger] ancs@[m])@ == (fp.0, fp.1.subrange(0, fp.1.len() - 1 - m)),
                    path_set(expanded@) == s0.union(Set::new(|a: PathV| exists|m: int| 0 <= m < k && (#[trigger] ancs@[m])@ == a)),
                decreases ancs@.len() - k,
            {
                let ghost before = path_set(expanded@);
                insert_path(&mut expanded, ancs[k].duplicate());
                k = k + 1;
                assert(path_set(expanded@) =~= s0.union(Set::new(|a: PathV| exists|m: int| 0 <= m < k && (#[trigger] ancs@[m])@ == a))) by {
                    assert forall|a: PathV| path_set(expanded@).contains(a) <==> (s0.contains(a) || exists|m: int| 0 <= m < k && (#[trigger] ancs@[m])@ == a) by {
                        if exists|m: int| 0 <= m < k && (#[trigger] ancs@[m])@ == a {
                            let m = choose|m: int| 0 <= m < k && (#[trigger] ancs@[m])@ == a;
                            if m < k - 1 {
                                assert(exists|m2: int| 0 <= m2 < k - 1 && (#[trigger] ancs@[m2])@ == a);
                            }
                        }
                        if before.contains(a) && !s0.contains(a) {
                            let m = choose|m: int| 0 <= m < k - 1 && (#[trigger] ancs@[m])@ == a;
                            assert(0 <= m < k);
                        }
                    }
                }
            }
            assert(Set::new(|a: PathV| exists|m: int| 0 <= m < k && (#[trigger] ancs@[m])@ == a) =~= Set::new(|a: PathV| is_strict_ancestor_v(a, fp))) by {
                assert forall|a: PathV| (exists|m: int| 0 <= m < k && (#[trigger] ancs@[m])@ == a) <==> is_strict_ancestor_v(a, fp) by {
                    if is_strict_ancestor_v(a, fp) {
                        let m = fp.1.len() - 1 - a.1.len();
                        assert(ancs@[m]@ == a);
                    }
                }
            }
            i = i + 1;
            assert(path_set(expanded@) =~= Set::new(|a: PathV| a == root_v() || exists|j: int|
                0 <= j < i && #[trigger] is_strict_ancestor_v(a, files[j].path@))) by {
                assert forall|a: PathV| path_set(expanded@).contains(a) <==> (a == root_v() || exists|j: int|
                    0 <= j < i && #[trigger] is_strict_ancestor_v(a, files[j].path@)) by {
                    if exists|j: int| 0 <= j < i && #[trigger] is_strict_ancestor_v(a, files[j].path@) {
                        let j = choose|j: int| 0 <= j < i && #[trigger] is_strict_ancestor_v(a, files[j].path@);
                        if j < i - 1 {
                            assert(exists|j2: int| 0 <= j2 < i - 1 && #[trigger] is_strict_ancestor_v(a, files[j2].path@));
                        }
                    }
                }
            }
        }
        commit.expanded = expanded;
        if check_all {
            let mut checked: Vec<FsPath> = Vec::new();
            let mut j: usize = 0;
            while j < files_v.len()
                invariant
                    j <= files.len(),
                    files_v@ == files,
                    forall|x: PathV| #[trigger] has_path(checked@, x) <==> file_paths(files).subrange(0, j as int).contains(x),
                decreases files.len() - j,
            {
                let c = files_v[j].path.duplicate();
                let ghost c0 = checked@;
                checked.push(c);
                assert(file_paths(files).subrange(0, j + 1) =~= file_paths(files).subrange(0, j as int).push(c@));
                assert forall|x: PathV| #[trigger] has_path(checked@, x) <==> file_paths(files).subrange(0, j + 1).contains(x) by {
                    crate::path::lemma_has_path_push(c0, c, x);
                    lemma_contains_push(file_paths(files).subrange(0, j as int), c@, x);
                }
                j = j + 1;
            }
            assert(file_paths(files).subrange(0, j as int) =~= file_paths(files));
            commit.checked = checked;
            assert(path_set(commit.checked@) =~= live_set(files));
        } else {
            retain_live(&mut commit.checked, files_v);
        }
        retain_live_exclusions(&mut commit.excluded_hunks, files_v);
    }

/// The change the commit view opens on (see [`commit_entry_choice`]).
pub fn commit_entry_index(files: &Vec<ChangedFile>, open: &Option<FsPath>, prior: Option<usize>) -> (r: Option<usize>)
    ensures
        match commit_entry_choice(files@, opt_view(*open), prior) {
            Some(i) => r == Some(i as usize),
            None => r is None,
        },
{
    match open {
        Some(p) => {
            let mut k: usize = 0;
            while k < files.len()
                invariant
                    k <= files@.len(),
                    opt_view(*open) == Some(p@),
                    forall|j: int| 0 <= j < k ==> files@[j].path@ != p@,
                decreases files@.len() - k,
            {
                if files[k].path.same(p) {
                    proof {
                        assert(file_paths(files@)[k as int] == p@);
                        assert forall|j: int| 0 <= j < k implies file_paths(files@)[j] != p@ by {
                            assert(file_paths(files@)[j] == files@[j].path@);
                        }
                        crate::browse::lemma_first_index(file_paths(files@), p@, k as int);
                        assert(file_paths(files@).contains(p@));
                        assert(opt_view(*open) == Some(p@));
                        assert(commit_entry_choice(files@, opt_view(*open), prior) == Some(k as int));
                    }
                    return Some(k);
                }
                k = k + 1;
            }
            proof {
                if file_paths(files@).contains(p@) {
                    let j = choose|j: int| 0 <= j < file_paths(files@).len() && file_paths(files@)[j] == p@;
                    assert(files@[j].path@ == p@);
                }
            }
        },
        None => {},
    }
    match prior {
        Some(i) => if i < files.len() {
            Some(i)
        } else if files.len() > 0 {
            Some(0)
        } else {
            None
        },
        None => if files.len() > 0 {
            Some(0)
        } else {
            None
        },
    }
}


/// Change `f`'s path, lower-cased, holds the search `ql`.
pub open spec fn file_hit(f: ChangedFile, ql: Seq<u8>) -> bool {
    holds_sub(lowercase(display_v(f.path@)), ql)
}

/// A commit-tree row stays under the search `ql`: the root always, a file whose path
/// holds the search, a folder holding such a file.
pub open spec fn commit_row_kept(files: Seq<ChangedFile>, ql: Seq<u8>, r: RowV) -> bool {
    ||| is_empty_v(r.0)
    ||| !r.1 && holds_sub(lowercase(display_v(r.0)), ql)
    ||| r.1 && exists|i: int| 0 <= i < files.len() && starts_with_v(files[i].path@, r.0) && #[trigger] file_hit(files[i], ql)
}

/// The commit tree's rows for the search `ql` (trimmed and lower-cased): the root and,
/// when it is expanded, the changes' tree one level deeper (see [`root_rows_spec`]),
/// narrowed by [`commit_row_kept`] once there is a search.
pub open spec fn commit_rows_spec(tree: Seq<RowV>, root_open: bool, files: Seq<ChangedFile>, ql: Seq<u8>) -> Seq<RowV> {
    if ql.len() == 0 {
        root_rows_spec(tree, root_open)
    } else {
        root_rows_spec(tree, root_open).filter(|r: RowV| commit_row_kept(files, ql, r))
    }
}

/// Whether some change under `dir` has a path holding `ql`.
fn any_hit_under(files: &Vec<ChangedFile>, dir: &FsPath, ql: &Vec<u8>) -> (r: bool)
    ensures
        r == exists|i: int| 0 <= i < files@.len() && starts_with_v(files@[i].path@, dir@) && #[trigger] file_hit(files@[i], ql@),
{
    let mut i: usize = 0;
    while i < files.len()
        invariant
            i <= files@.len(),
            forall|k: int| 0 <= k < i ==> !(starts_with_v(files@[k].path@, dir@) && #[trigger] file_hit(files@[k], ql@)),
        decreases files@.len() - i,
    {
        if files[i].path.starts_with(dir) && holds_bytes(&to_lower(&files[i].path.display_bytes()), ql) {
            assert(file_hit(files@[i as int], ql@));
            return true;
        }
        i = i + 1;
    }
    false
}

impl Kyde {
    /// The rows of the commit view's tree of changes (see [`commit_rows_spec`]), given the
    /// rows of the expanded tree (`tree`) and the search box's text (`query`).
    pub fn commit_visible_rows(&self, tree: &Vec<TreeRow>, query: &Vec<u8>) -> (r: Vec<TreeRow>)
        requires
            forall|i: int| 0 <= i < tree@.len() ==> #[trigger] tree@[i].depth < usize::MAX,
        ensures
            rows_view(r@) == commit_rows_spec(
                rows_view(tree@),
                has_path(self.commit.expanded@, root_v()),
                self.files@,
                lowercase(trimmed(query@)),
            ),
    {
        let rows = root_rows(&self.commit.expanded, tree);
        let ql = to_lower(&trim_bytes(query));
        if ql.len() == 0 {
            return rows;
        }
        let ghost rv = rows_view(rows@);
        let ghost keep = |x: RowV| commit_row_kept(self.files@, ql@, x);
        let mut out: Vec<TreeRow> = Vec::new();
        let mut i: usize = 0;
        while i < rows.len()
            invariant
                i <= rows@.len(),
                rv == rows_view(rows@),
                keep == (|x: RowV| commit_row_kept(self.files@, ql@, x)),
                rows_view(out@) == rv.subrange(0, i as int).filter(keep),
            decreases rows@.len() - i,
        {
            let ghost pre = rv.subrange(0, i as int);
            proof {
                assert(rv.subrange(0, i + 1) =~= pre.push(rv[i as int]));
                crate::path::lemma_filter_push(pre, rv[i as int], keep);
            }
            let row = &rows[i];
            let kept = if row.path.is_empty() {
                true
            } else if !row.is_dir {
                holds_bytes(&to_lower(&row.path.display_bytes()), &ql)
            } else {
                any_hit_under(&self.files, &row.path, &ql)
            };
            if kept {
                let ghost before = out@;
                out.push(TreeRow { path: row.path.duplicate(), is_dir: row.is_dir, depth: row.depth });
                assert(rows_view(out@) =~= rows_view(before).push(rv[i as int]));
            }
            i = i + 1;
        }
        assert(rv.subrange(0, rows@.len() as int) =~= rv);
        out
    }
}


impl Kyde {
    /// The rollback window's heading: "Changes  N files".
    pub fn rollback_heading(&self) -> (r: Vec<u8>)
        ensures
            r@ == "Changes  ".spec_bytes() + decimal_spec(self.files@.len() as nat) + " files".spec_bytes(),
    {
        let a = concat(&"Changes  ".as_bytes_vec(), &decimal(self.files.len()));
        concat(&a, &" files".as_bytes_vec())
    }
}


impl Kyde {
    /// "Initialize Git Repository": the folder to run `git init` in, the open project;
    /// `None` without one. When it succeeds the host calls [`Kyde::git_init_done`].
    pub fn do_git_init(&self) -> (r: Option<FsPath>)
        ensures
            opt_view(r) == opt_view(self.repo_root),
    {
        opt_duplicate(&self.repo_root)
    }

    /// `git init` finished (`ok`: it succeeded, else the host reports the failure):
    /// status and trees are re-read so the git views appear.
    pub fn git_init_done(&self, ok: bool) -> (effects: Vec<Effect>)
        ensures
            effects@ == if ok {
                seq![Effect::Refresh]
            } else {
                Seq::<Effect>::empty()
            },
    {
        let mut effects: Vec<Effect> = Vec::new();
        if ok {
            effects.push(Effect::Refresh);
        }
        effects
    }
}


/// What [`Kyde::open_rollback_path`] does for `path`: with changes under it, every one of
/// them checked, "delete local copies" off and the rollback window opening; without, the
/// checks as they were and nothing asked of the host.
pub open spec fn rollback_opened(before: Kyde, after: Kyde, path: PathV, effects: Seq<Effect>) -> bool {
    if exists|i: int| 0 <= i < before.files@.len() && #[trigger] under(before.files@, i, path) {
        &&& path_set(after.rollback_checked@) == changed_set(before.files@, path)
        &&& !after.rollback_delete_added
        &&& effects == seq![Effect::OpenModal(ModalKind::Rollback)]
    } else {
        &&& after.rollback_checked == before.rollback_checked
        &&& after.rollback_delete_added == before.rollback_delete_added
        &&& effects.len() == 0
    }
}

} // verus!
