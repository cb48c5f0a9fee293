//! Running the commit and the rollback: which git operation each file gets, how a file
//! with excluded hunks is staged, and what is shown afterwards.
use vstd::prelude::*;
use vstd::string::StrSliceExecFns;
use vstd::string::StringSliceAdditionalSpecFns;
use crate::bytes::{copy_bytes, concat, decimal, decimal_spec, prefix_bytes};
use crate::path::{FsPath, PathV, has_path, contains_path, paths_view, display_v, copy_paths};
use crate::branch_list::{trim_bytes, trimmed};
use crate::model::{Kyde, Effect, ModalKind, Mode, ChangedFile, FileStatus, HunkExclusion, CommitState};
use crate::commit::{excluded, hunks_wf};

verus! {

/// What the rollback does to one file.
#[derive(Clone, Copy, PartialEq, Eq, Structural, Debug)]
pub enum RollbackOp {
    /// Leave it (an untracked file, when added files are kept).
    Nothing,
    /// Delete it (an untracked file, when added files are deleted).
    Delete,
    /// Unstage it (an added file, kept on disk).
    Unstage,
    /// Unstage it, then delete it.
    UnstageAndDelete,
    /// Discard its working-tree change.
    Discard,
}

/// How one file is prepared for the commit.
pub enum StageOp {
    /// Not checked: take it out of the index.
    Unstage,
    /// Checked: stage it whole.
    Stage,
    /// Checked with some hunks left out (these, by index): stage the rest.
    StagePartial(Vec<usize>),
}

/// How a file with excluded hunks is staged.
pub enum PartialStage {
    /// Every hunk is excluded: take the file out of the index.
    Unstage,
    /// Stage the text that applies exactly the hunks marked `true`.
    StageMask(Vec<bool>),
}

/// What committing does.
pub struct CommitPlan {
    /// Each changed file, in status order, with its preparation.
    pub steps: Vec<(FsPath, StageOp)>,
    /// The commit message.
    pub message: Vec<u8>,
    /// The local-history label stamped on the committed files: "Commit: " and the
    /// message's first line.
    pub label: Vec<u8>,
    /// The checked files, snapshotted under `label` once the commit succeeds.
    pub committed: Vec<FsPath>,
}

/// The rollback of a file with status `s`.
pub open spec fn rollback_op_spec(s: FileStatus, delete_added: bool) -> RollbackOp {
    match s {
        FileStatus::Untracked => if delete_added {
            RollbackOp::Delete
        } else {
            RollbackOp::Nothing
        },
        FileStatus::Added => if delete_added {
            RollbackOp::UnstageAndDelete
        } else {
            RollbackOp::Unstage
        },
        _ => RollbackOp::Discard,
    }
}

/// The rollback of every checked change, in status order.
pub open spec fn rollback_plan_spec(files: Seq<ChangedFile>, checked: Seq<FsPath>, delete_added: bool) -> Seq<(PathV, RollbackOp)>
    decreases files.len(),
{
    if files.len() == 0 {
        Seq::empty()
    } else {
        let rest = rollback_plan_spec(files.drop_last(), checked, delete_added);
        let f = files.last();
        if has_path(checked, f.path@) {
            rest.push((f.path@, rollback_op_spec(f.status, delete_added)))
        } else {
            rest
        }
    }
}

/// Byte strings joined with `", "` between them.
pub open spec fn join_comma(v: Seq<Seq<u8>>) -> Seq<u8>
    decreases v.len(),
{
    if v.len() == 0 {
        Seq::empty()
    } else if v.len() == 1 {
        v[0]
    } else {
        join_comma(v.drop_last()) + ", ".spec_bytes() + v.last()
    }
}

/// The error after a rollback in which some files failed.
pub open spec fn rollback_failed_msg(failed: Seq<PathV>) -> Seq<u8> {
    "Rollback failed for ".spec_bytes() + decimal_spec(failed.len()) + " file(s): ".spec_bytes()
        + join_comma(failed.map_values(|p: PathV| display_v(p)))
}

/// A message's first line, as `str::lines` reads it: up to the first `'\n'`, without a
/// `'\r'` that ends it; the whole message when it has no `'\n'`.
pub open spec fn first_line(m: Seq<u8>) -> Seq<u8> {
    if exists|i: int| 0 <= i < m.len() && m[i] == 10u8 {
        let k = choose|i: int| 0 <= i < m.len() && m[i] == 10u8 && forall|j: int| 0 <= j < i ==> m[j] != 10u8;
        if k > 0 && m[k - 1] == 13u8 {
            m.subrange(0, k - 1)
        } else {
            m.subrange(0, k)
        }
    } else {
        m
    }
}

/// The set of hunks excluded for `p`.
pub open spec fn excluded_set(v: Seq<HunkExclusion>, p: PathV) -> Set<usize> {
    Set::new(|h: usize| excluded(v, p, h))
}

/// See [`rollback_op_spec`].
pub fn rollback_op(s: FileStatus, delete_added: bool) -> (r: RollbackOp)
    ensures
        r == rollback_op_spec(s, delete_added),
{
    match s {
        FileStatus::Untracked => if delete_added {
            RollbackOp::Delete
        } else {
            RollbackOp::Nothing
        },
        FileStatus::Added => if delete_added {
            RollbackOp::UnstageAndDelete
        } else {
            RollbackOp::Unstage
        },
        _ => RollbackOp::Discard,
    }
}

/// Byte strings joined with `", "`.
pub fn join_comma_bytes(v: &Vec<Vec<u8>>) -> (r: Vec<u8>)
    ensures
        r@ == join_comma(v@.map_values(|b: Vec<u8>| b@)),
{
    let mut out: Vec<u8> = Vec::new();
    let mut i: usize = 0;
    assert(v@.subrange(0, 0).map_values(|b: Vec<u8>| b@) =~= Seq::<Seq<u8>>::empty());
    while i < v.len()
        invariant
            i <= v@.len(),
            out@ == join_comma(v@.subrange(0, i as int).map_values(|b: Vec<u8>| b@)),
        decreases v@.len() - i,
    {
        let ghost prev = v@.subrange(0, i as int).map_values(|b: Vec<u8>| b@);
        let ghost next = v@.subrange(0, i + 1).map_values(|b: Vec<u8>| b@);
        assert(next.drop_last() =~= prev);
        assert(next.last() == v@[i as int]@);
        if i > 0 {
            let mut sep = ", ".as_bytes_vec();
            out.append(&mut sep);
        }
        let mut c = copy_bytes(&v[i]);
        out.append(&mut c);
        assert(out@ =~= join_comma(next));
        i = i + 1;
    }
    assert(v@.subrange(0, v@.len() as int) =~= v@);
    out
}

/// See [`first_line`].
pub fn first_line_bytes(m: &Vec<u8>) -> (r: Vec<u8>)
    ensures
        r@ == first_line(m@),
{
    let mut i: usize = 0;
    while i < m.len()
        invariant
            i <= m@.len(),
            forall|j: int| 0 <= j < i ==> m@[j] != 10u8,
        decreases m@.len() - i,
    {
        if m[i] == 10u8 {
            proof {
                let k = choose|k: int| 0 <= k < m@.len() && m@[k] == 10u8 && forall|j: int| 0 <= j < k ==> m@[j] != 10u8;
                if k < i {
                    assert(m@[k] != 10u8);
                }
                if k > i {
                    assert(m@[i as int] != 10u8);
                }
            }
            if i > 0 && m[i - 1] == 13u8 {
                return prefix_bytes(m, i - 1);
            }
            return prefix_bytes(m, i);
        }
        i = i + 1;
    }
    copy_bytes(m)
}

/// How a checked file with `n` hunks and excluded hunks `ex` is staged: unstaged when
/// every hunk is excluded (also when it has none), else staged with the mask of the
/// hunks kept.
pub fn stage_partial_plan(n: usize, ex: &Vec<usize>) -> (r: PartialStage)
    ensures
        match r {
            PartialStage::Unstage => forall|i: usize| i < n ==> ex@.contains(i),
            PartialStage::StageMask(m) => (exists|i: usize| i < n && !ex@.contains(i)) && m@.len() == n
                && forall|i: int| 0 <= i < n ==> #[trigger] m@[i] == !ex@.contains(i as usize),
        },
{
    let mut m: Vec<bool> = Vec::new();
    let mut all = true;
    let mut i: usize = 0;
    while i < n
        invariant
            i <= n,
            m@.len() == i,
            forall|k: int| 0 <= k < i ==> #[trigger] m@[k] == !ex@.contains(k as usize),
            all == forall|k: usize| k < i ==> ex@.contains(k),
        decreases n - i,
    {
        let mut found = false;
        let mut j: usize = 0;
        while j < ex.len()
            invariant
                j <= ex@.len(),
                found == exists|t: int| 0 <= t < j && ex@[t] == i,
            decreases ex@.len() - j,
        {
            if ex[j] == i {
                found = true;
            }
            j = j + 1;
        }
        assert(found == ex@.contains(i));
        if !found {
            all = false;
        }
        m.push(!found);
        i = i + 1;
    }
    if all {
        PartialStage::Unstage
    } else {
        PartialStage::StageMask(m)
    }
}

impl Kyde {
    /// The rollback of every checked change, in status order: an untracked file is
    /// deleted or kept, an added one unstaged (and deleted), any other discarded. Nothing
    /// is done without a repository.
    pub fn rollback_plan(&self) -> (r: Vec<(FsPath, RollbackOp)>)
        ensures
            r@.map_values(|x: (FsPath, RollbackOp)| (x.0@, x.1)) == if self.repo_root is Some {
                rollback_plan_spec(self.files@, self.rollback_checked@, self.rollback_delete_added)
            } else {
                Seq::<(PathV, RollbackOp)>::empty()
            },
    {
        let mut r: Vec<(FsPath, RollbackOp)> = Vec::new();
        if self.repo_root.is_none() {
            assert(r@.map_values(|x: (FsPath, RollbackOp)| (x.0@, x.1)) =~= Seq::<(PathV, RollbackOp)>::empty());
            return r;
        }
        let mut i: usize = 0;
        assert(r@.map_values(|x: (FsPath, RollbackOp)| (x.0@, x.1)) =~= Seq::<(PathV, RollbackOp)>::empty());
        while i < self.files.len()
            invariant
                i <= self.files@.len(),
                r@.map_values(|x: (FsPath, RollbackOp)| (x.0@, x.1)) == rollback_plan_spec(
                    self.files@.subrange(0, i as int),
                    self.rollback_checked@,
                    self.rollback_delete_added,
                ),
            decreases self.files@.len() - i,
        {
            let ghost sub = self.files@.subrange(0, i + 1);
            assert(sub.drop_last() =~= self.files@.subrange(0, i as int));
            assert(sub.last() == self.files@[i as int]);
            if contains_path(&self.rollback_checked, &self.files[i].path) {
                let op = rollback_op(self.files[i].status, self.rollback_delete_added);
                let ghost before = r@;
                r.push((self.files[i].path.duplicate(), op));
                assert(r@.map_values(|x: (FsPath, RollbackOp)| (x.0@, x.1)) =~= before.map_values(
                    |x: (FsPath, RollbackOp)| (x.0@, x.1),
                ).push((self.files@[i as int].path@, op)));
            }
            i = i + 1;
        }
        assert(self.files@.subrange(0, self.files@.len() as int) =~= self.files@);
        r
    }

    /// The rollback ran (`failed`: the files it could not roll back): the window closes,
    /// failures are reported as "Rollback failed for N file(s): a, b", status is re-read,
    /// and a clean tree leaves the commit view.
    pub fn rollback_done(&mut self, failed: &Vec<FsPath>) -> (effects: Vec<Effect>)
        ensures
            effects@ == seq![Effect::CloseModal(ModalKind::Rollback), Effect::Refresh],
            failed@.len() > 0 ==> (final(self).pending_error matches Some(m) && m@ == rollback_failed_msg(
                paths_view(failed@),
            )),
            failed@.len() == 0 ==> final(self).pending_error == old(self).pending_error,
            final(self).mode == if old(self).mode == Mode::Commit && old(self).files@.len() == 0 {
                Mode::Browse
            } else {
                old(self).mode
            },
            *final(self) == (Kyde { mode: final(self).mode, pending_error: final(self).pending_error, ..*old(self) }),
    {
        let mut effects = self.close_rollback_window();
        self.exit_commit_if_clean();
        if failed.len() > 0 {
            let mut shown: Vec<Vec<u8>> = Vec::new();
            let mut i: usize = 0;
            while i < failed.len()
                invariant
                    i <= failed@.len(),
                    shown@.map_values(|b: Vec<u8>| b@) == paths_view(failed@).subrange(0, i as int).map_values(
                        |p: PathV| display_v(p),
                    ),
                decreases failed@.len() - i,
            {
                let ghost before = shown@;
                let d = failed[i].display_bytes();
                shown.push(d);
                assert(shown@.map_values(|b: Vec<u8>| b@) =~= before.map_values(|b: Vec<u8>| b@).push(d@));
                assert(paths_view(failed@).subrange(0, i + 1).map_values(|p: PathV| display_v(p)) =~= paths_view(
                    failed@,
                ).subrange(0, i as int).map_values(|p: PathV| display_v(p)).push(display_v(failed@[i as int]@)));
                i = i + 1;
            }
            assert(paths_view(failed@).subrange(0, failed@.len() as int) =~= paths_view(failed@));
            let list = join_comma_bytes(&shown);
            let a = concat(&"Rollback failed for ".as_bytes_vec(), &decimal(failed.len()));
            let b = concat(&a, &" file(s): ".as_bytes_vec());
            self.pending_error = Some(concat(&b, &list));
        }
        effects.push(Effect::Refresh);
        effects
    }

    /// Commit with the message typed as `msg`, white space cut at both ends: every
    /// changed file is staged whole, staged without its excluded hunks, or unstaged when
    /// unchecked, then committed. `None` while a commit runs, without a message or a
    /// checked file, or without a repository.
    pub fn commit_now(&mut self, msg: &Vec<u8>) -> (r: Option<CommitPlan>)
        requires
            hunks_wf(old(self).commit.excluded_hunks@),
        ensures
            if old(self).commit.committing || trimmed(msg@).len() == 0 || old(self).commit.checked@.len() == 0
                || old(self).repo_root is None {
                r is None && final(self).commit == old(self).commit
            } else {
                &&& final(self).commit.committing
                &&& r matches Some(plan) && {
                    &&& plan.message@ == trimmed(msg@)
                    &&& plan.label@ == "Commit: ".spec_bytes() + first_line(trimmed(msg@))
                    &&& paths_view(plan.committed@) == paths_view(old(self).commit.checked@)
                    &&& plan.steps@.len() == old(self).files@.len()
                    &&& forall|i: int|
                        0 <= i < plan.steps@.len() ==> {
                            let f = old(self).files@[i];
                            let s = #[trigger] plan.steps@[i];
                            &&& s.0@ == f.path@
                            &&& if !has_path(old(self).commit.checked@, f.path@) {
                                s.1 is Unstage
                            } else if excluded_set(old(self).commit.excluded_hunks@, f.path@).is_empty() {
                                s.1 is Stage
                            } else {
                                s.1 matches StageOp::StagePartial(h) && h@.to_set() == excluded_set(
                                    old(self).commit.excluded_hunks@,
                                    f.path@,
                                )
                            }
                        }
                }
            },
            final(self).files == old(self).files,
            *final(self) == (Kyde { commit: CommitState { committing: final(self).commit.committing, ..old(self).commit }, ..*old(self) }),
    {
        let msg = trim_bytes(msg);
        if self.commit.committing || msg.len() == 0 || self.commit.checked.len() == 0 || self.repo_root.is_none() {
            return None;
        }
        let mut steps: Vec<(FsPath, StageOp)> = Vec::new();
        let mut i: usize = 0;
        while i < self.files.len()
            invariant
                i <= self.files@.len(),
                steps@.len() == i,
                hunks_wf(self.commit.excluded_hunks@),
                forall|k: int|
                    0 <= k < i ==> {
                        let f = self.files@[k];
                        let s = #[trigger] steps@[k];
                        &&& s.0@ == f.path@
                        &&& if !has_path(self.commit.checked@, f.path@) {
                            s.1 is Unstage
                        } else if excluded_set(self.commit.excluded_hunks@, f.path@).is_empty() {
                            s.1 is Stage
                        } else {
                            s.1 matches StageOp::StagePartial(h) && h@.to_set() == excluded_set(
                                self.commit.excluded_hunks@,
                                f.path@,
                            )
                        }
                    },
            decreases self.files@.len() - i,
        {
            let p = &self.files[i].path;
            let op = if !contains_path(&self.commit.checked, p) {
                StageOp::Unstage
            } else {
                match exclusions_of(&self.commit.excluded_hunks, p) {
                    Some(h) => StageOp::StagePartial(h),
                    None => StageOp::Stage,
                }
            };
            steps.push((p.duplicate(), op));
            i = i + 1;
        }
        let subject = first_line_bytes(&msg);
        let label = concat(&"Commit: ".as_bytes_vec(), &subject);
        self.commit.committing = true;
        Some(CommitPlan { steps, message: msg, label, committed: copy_paths(&self.commit.checked) })
    }

    /// The commit finished. On success the message box empties, every hunk is included
    /// again (the hunks renumber), the committed files are snapshotted, status is re-read
    /// and the git tab follows the work left; a failure is reported by the host.
    pub fn commit_done(&mut self, ok: bool) -> (effects: Vec<Effect>)
        ensures
            !final(self).commit.committing,
            ok ==> final(self).commit.excluded_hunks@.len() == 0 && effects@ == seq![
                Effect::ClearCommitMessage,
                Effect::SnapshotCommitted,
                Effect::Refresh,
                Effect::NormalizeGitTab,
            ],
            !ok ==> final(self).commit.excluded_hunks == old(self).commit.excluded_hunks && effects@.len() == 0,
            final(self).commit.checked == old(self).commit.checked,
            *final(self) == (Kyde { commit: CommitState { committing: false, excluded_hunks: final(self).commit.excluded_hunks, ..old(self).commit }, ..*old(self) }),
    {
        self.commit.committing = false;
        let mut effects: Vec<Effect> = Vec::new();
        if ok {
            self.commit.excluded_hunks = Vec::new();
            effects.push(Effect::ClearCommitMessage);
            effects.push(Effect::SnapshotCommitted);
            effects.push(Effect::Refresh);
            effects.push(Effect::NormalizeGitTab);
        }
        effects
    }
}

/// The hunks excluded for `p`, when any.
pub fn exclusions_of(v: &Vec<HunkExclusion>, p: &FsPath) -> (r: Option<Vec<usize>>)
    requires
        hunks_wf(v@),
    ensures
        match r {
            None => excluded_set(v@, p@).is_empty(),
            Some(h) => !excluded_set(v@, p@).is_empty() && h@.to_set() == excluded_set(v@, p@),
        },
{
    let mut i: usize = 0;
    while i < v.len()
        invariant
            i <= v@.len(),
            hunks_wf(v@),
            forall|k: int| 0 <= k < i ==> v@[k].path@ != p@,
        decreases v@.len() - i,
    {
        if v[i].path.same(p) {
            let h = &v[i].hunks;
            proof {
                assert forall|x: usize| excluded(v@, p@, x) <==> h@.contains(x) by {
                    if excluded(v@, p@, x) {
                        let j = choose|j: int| 0 <= j < v@.len() && v@[j].path@ == p@ && (#[trigger] v@[j].hunks@).contains(x);
                        if j != i {
                            assert(v@[j].path@ != v@[i as int].path@);
                        }
                    }
                    if h@.contains(x) {
                        assert(v@[i as int].hunks@.contains(x));
                    }
                }
                assert(h@.to_set() =~= excluded_set(v@, p@));
            }
            if h.len() == 0 {
                proof {
                    assert(excluded_set(v@, p@) =~= Set::<usize>::empty());
                }
                return None;
            }
            proof {
                assert(h@.contains(h@[0]));
                assert(excluded_set(v@, p@).contains(h@[0]));
            }
            return Some(h.clone());
        }
        i = i + 1;
    }
    proof {
        assert forall|x: usize| !excluded(v@, p@, x) by {
            if excluded(v@, p@, x) {
                let j = choose|j: int| 0 <= j < v@.len() && v@[j].path@ == p@ && (#[trigger] v@[j].hunks@).contains(x);
                assert(v@[j].path@ != p@);
            }
        }
        assert(excluded_set(v@, p@) =~= Set::<usize>::empty());
    }
    None
}

} // verus!
