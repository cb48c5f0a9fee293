//! Merge resolution bookkeeping: the branch merge and its outcome, the conflicts list
//! (which file is next, which are resolved), the per-chunk decisions of the three-way
//! resolve stage, its row geometry and navigation, and the Compare Contents pairs.
use vstd::prelude::*;
use vstd::string::StrSliceExecFns;
use vstd::string::StringSliceAdditionalSpecFns;
use crate::bytes::{copy_bytes, concat};
use crate::path::{FsPath, has_path, insert_path, path_set};
use crate::model::{
    Kyde, Effect, ModalKind, ConflictEntry, ConflictSide, Chunk, ChunkKind, SideState,
    Resolution, MergeCompare, FileStatus, WhitespaceMode, MergeState, BranchState,
};
use crate::diff::{sat_sub, is_next_target, is_prev_target, next_target, prev_target};

verus! {

/// How a branch merge ended.
pub enum MergeOutcome {
    /// Nothing to merge.
    UpToDate,
    /// Merged without conflicts.
    Merged,
    /// Stopped on conflicts in these files.
    Conflicts(Vec<FsPath>),
    /// The merge failed; the host reports the error.
    Failed,
}

/// One text of the three-way merge.
#[derive(Clone, Copy, PartialEq, Eq, Structural, Debug)]
pub enum MergeText {
    Base,
    Ours,
    Theirs,
    /// The result of the current decisions.
    Result,
}

/// How "Accept Yours"/"Accept Theirs" resolves a whole file.
#[derive(Clone, Copy, PartialEq, Eq, Structural, Debug)]
pub enum AcceptPlan {
    /// That side deleted the file: delete it (when it exists), then stage.
    Delete,
    /// Save that side's index stage (2 = ours, 3 = theirs) as the file, then stage.
    TakeStage(u8),
}

/// A byte string as an optional spec value.
pub open spec fn opt_bytes(o: Option<Vec<u8>>) -> Option<Seq<u8>> {
    match o {
        Some(v) => Some(v@),
        None => None,
    }
}

/// `o`, else `dflt`.
pub open spec fn or_default(o: Option<Seq<u8>>, dflt: Seq<u8>) -> Seq<u8> {
    match o {
        Some(v) => v,
        None => dflt,
    }
}

/// What is being merged in: the branch merged from here, else the one git reports in
/// progress, else "MERGE_HEAD".
pub open spec fn source_label_spec(source: Option<Seq<u8>>, in_progress: Option<Seq<u8>>) -> Seq<u8> {
    match source {
        Some(s) => s,
        None => or_default(in_progress, "MERGE_HEAD".spec_bytes()),
    }
}

/// `“text”`.
pub open spec fn quoted(text: Seq<u8>) -> Seq<u8> {
    "“".spec_bytes() + text + "”".spec_bytes()
}

/// The merge window's title: Merge “source” into “branch”.
pub open spec fn merge_title(source: Seq<u8>, branch: Seq<u8>) -> Seq<u8> {
    "Merge ".spec_bytes() + quoted(source) + " into ".spec_bytes() + quoted(branch)
}

/// The note after a clean merge: Merged “source” into “target”.
pub open spec fn merged_note(source: Seq<u8>, target: Seq<u8>) -> Seq<u8> {
    "Merged ".spec_bytes() + quoted(source) + " into ".spec_bytes() + quoted(target) + ".".spec_bytes()
}

/// The note when there was nothing to merge from `name`.
pub open spec fn up_to_date_note(name: Seq<u8>) -> Seq<u8> {
    "Already up to date — nothing to merge from ".spec_bytes() + quoted(name) + ".".spec_bytes()
}

/// The current branch, or "HEAD" when detached or unknown.
pub open spec fn branch_or_head(b: Option<Seq<u8>>) -> Seq<u8> {
    or_default(b, "HEAD".spec_bytes())
}

/// Whether file `i` of the conflicts list is resolved this session.
pub open spec fn is_resolved(files: Seq<ConflictEntry>, resolved: Seq<FsPath>, i: int) -> bool {
    has_path(resolved, files[i].path@)
}

/// The first file of the list not yet resolved.
pub open spec fn first_unresolved_spec(files: Seq<ConflictEntry>, resolved: Seq<FsPath>) -> Option<usize> {
    if exists|i: int| 0 <= i < files.len() && !#[trigger] is_resolved(files, resolved, i) {
        Some(
            (choose|i: int|
                0 <= i < files.len() && !#[trigger] is_resolved(files, resolved, i) && forall|k: int|
                    0 <= k < i ==> #[trigger] is_resolved(files, resolved, k)) as usize,
        )
    } else {
        None
    }
}

/// A chunk's decisions after "Apply non-conflicting changes" from the left and/or right:
/// a still-pending clean side is applied (a `Same` chunk counts for either button);
/// conflicts and decided sides are left alone.
pub open spec fn clean_applied(c: Chunk, r: Resolution, left: bool, right: bool) -> Resolution {
    match c.kind {
        ChunkKind::Ours => if left && r.ours == SideState::Pending {
            Resolution { ours: SideState::Applied, theirs: r.theirs }
        } else {
            r
        },
        ChunkKind::Theirs => if right && r.theirs == SideState::Pending {
            Resolution { ours: r.ours, theirs: SideState::Applied }
        } else {
            r
        },
        ChunkKind::Same => if (left || right) && r.ours == SideState::Pending {
            Resolution { ours: SideState::Applied, theirs: r.theirs }
        } else {
            r
        },
        _ => r,
    }
}

/// The decisions after a bulk clean apply: chunk `i` per [`clean_applied`], decisions
/// past the model's chunks unchanged.
pub open spec fn all_clean_applied(
    chunks: Seq<Chunk>,
    res: Seq<Resolution>,
    left: bool,
    right: bool,
) -> Seq<Resolution> {
    Seq::new(
        res.len(),
        |i: int|
            if i < chunks.len() {
                clean_applied(chunks[i], res[i], left, right)
            } else {
                res[i]
            },
    )
}

/// The larger of two numbers.
pub open spec fn max_n(a: usize, b: usize) -> usize {
    if a >= b {
        a
    } else {
        b
    }
}

/// Rows chunk `k` spans in the aligned three panes: its longest side, the result
/// included (a result range that is not known counts 0).
pub open spec fn span_at(chunks: Seq<Chunk>, lens: Seq<usize>, k: int) -> usize {
    let c = chunks[k];
    let rl = if k < lens.len() {
        lens[k]
    } else {
        0usize
    };
    max_n(max_n(c.ours_len, c.theirs_len), rl)
}

/// The row on which chunk `n` starts: the spans of the chunks before it.
pub open spec fn row_start(chunks: Seq<Chunk>, lens: Seq<usize>, n: nat) -> nat
    decreases n,
{
    if n == 0 {
        0
    } else {
        row_start(chunks, lens, (n - 1) as nat) + (span_at(chunks, lens, n - 1) as nat)
    }
}

/// The starting rows of the changed (not stable) chunks among the first `n`.
pub open spec fn chunk_rows_spec(chunks: Seq<Chunk>, lens: Seq<usize>, n: nat) -> Seq<usize>
    decreases n,
{
    if n == 0 {
        Seq::empty()
    } else {
        let rest = chunk_rows_spec(chunks, lens, (n - 1) as nat);
        if chunks[n - 1].kind != ChunkKind::Stable {
            rest.push(row_start(chunks, lens, (n - 1) as nat) as usize)
        } else {
            rest
        }
    }
}

/// The row of the first chunk that `decided` marks undecided, if any, among the first `n`.
pub open spec fn first_pending_row(chunks: Seq<Chunk>, lens: Seq<usize>, decided: Seq<bool>, n: nat) -> Option<nat>
    decreases n,
{
    if n == 0 {
        None
    } else {
        match first_pending_row(chunks, lens, decided, (n - 1) as nat) {
            Some(r) => Some(r),
            None => if !decided[n - 1] {
                Some(row_start(chunks, lens, (n - 1) as nat))
            } else {
                None
            },
        }
    }
}

/// Rows never shrink from one chunk to the next.
pub proof fn lemma_row_start_mono(chunks: Seq<Chunk>, lens: Seq<usize>, i: nat, n: nat)
    requires
        i <= n,
    ensures
        row_start(chunks, lens, i) <= row_start(chunks, lens, n),
    decreases n,
{
    if i < n {
        lemma_row_start_mono(chunks, lens, i, (n - 1) as nat);
    }
}

/// See [`source_label_spec`].
fn source_label(source: &Option<Vec<u8>>, in_progress: &Option<Vec<u8>>) -> (r: Vec<u8>)
    ensures
        r@ == source_label_spec(opt_bytes(*source), opt_bytes(*in_progress)),
{
    match source {
        Some(s) => copy_bytes(s),
        None => match in_progress {
            Some(p) => copy_bytes(p),
            None => "MERGE_HEAD".as_bytes_vec(),
        },
    }
}

/// See [`branch_or_head`].
fn branch_or_head_bytes(b: &Option<Vec<u8>>) -> (r: Vec<u8>)
    ensures
        r@ == branch_or_head(opt_bytes(*b)),
{
    match b {
        Some(s) => copy_bytes(s),
        None => "HEAD".as_bytes_vec(),
    }
}

/// See [`quoted`].
pub fn quoted_bytes(text: &Vec<u8>) -> (r: Vec<u8>)
    ensures
        r@ == quoted(text@),
{
    let a = concat(&"“".as_bytes_vec(), text);
    concat(&a, &"”".as_bytes_vec())
}

/// Join three byte strings.
fn concat3(a: &Vec<u8>, b: &Vec<u8>, c: &Vec<u8>) -> (r: Vec<u8>)
    ensures
        r@ == a@ + b@ + c@,
{
    let ab = concat(a, b);
    concat(&ab, c)
}

/// The resolve window's list, opened: a list is taken from `read` when the session holds
/// none (its resolved marks cleared), and the resolve stage is left.
fn load_conflicts(m: &mut MergeState, read: Option<Vec<ConflictEntry>>)
    ensures
        final(m).files == if old(m).files@.len() == 0 {
            match read {
                Some(e) => e,
                None => old(m).files,
            }
        } else {
            old(m).files
        },
        old(m).files@.len() == 0 ==> final(m).resolved@.len() == 0,
        old(m).files@.len() != 0 ==> final(m).resolved == old(m).resolved,
        *final(m) == (MergeState {
            files: final(m).files,
            resolved: final(m).resolved,
            selected: None,
            chunks: None,
            compare: MergeCompare::MergeView3,
            ..*old(m)
        }),
{
    if m.files.len() == 0 {
        match read {
            Some(e) => {
                m.files = e;
            },
            None => {},
        }
        m.resolved = Vec::new();
    }
    m.selected = None;
    m.chunks = None;
    m.compare = MergeCompare::MergeView3;
}

impl Kyde {
    /// What is being merged in, for labels: the branch merged from here, else the one git
    /// reports in progress, else "MERGE_HEAD".
    pub fn merge_source_label(&self) -> (r: Vec<u8>)
        ensures
            r@ == source_label_spec(opt_bytes(self.merge.source), opt_bytes(self.merge.in_progress)),
    {
        source_label(&self.merge.source, &self.merge.in_progress)
    }

    /// Index of the first conflicted file not yet resolved this session.
    pub fn first_unresolved(&self) -> (r: Option<usize>)
        ensures
            r == first_unresolved_spec(self.merge.files@, self.merge.resolved@),
    {
        let mut i: usize = 0;
        while i < self.merge.files.len()
            invariant
                i <= self.merge.files@.len(),
                forall|k: int| 0 <= k < i ==> #[trigger] is_resolved(self.merge.files@, self.merge.resolved@, k),
            decreases self.merge.files@.len() - i,
        {
            if !crate::path::contains_path(&self.merge.resolved, &self.merge.files[i].path) {
                proof {
                    let files = self.merge.files@;
                    let res = self.merge.resolved@;
                    assert(!is_resolved(files, res, i as int));
                    let j = choose|j: int|
                        0 <= j < files.len() && !#[trigger] is_resolved(files, res, j) && forall|k: int|
                            0 <= k < j ==> #[trigger] is_resolved(files, res, k);
                    if j < i {
                        assert(is_resolved(files, res, j));
                    }
                    if j > i {
                        assert(is_resolved(files, res, i as int));
                    }
                }
                return Some(i);
            }
            i = i + 1;
        }
        None
    }

    /// Open the resolve window on its conflicts list. When the session holds no list
    /// (a merge started outside the editor), it is taken from `read`, git's conflicted
    /// files (`None` without a repository), and the resolved marks are cleared. The
    /// list selection lands on the first unresolved file. Returns the window title; the
    /// window stays closed (`None`) when nothing is conflicted.
    pub fn open_merge_window(&mut self, read: Option<Vec<ConflictEntry>>) -> (r: (Vec<Effect>, Option<Vec<u8>>))
        ensures
            final(self).merge.files == if old(self).merge.files@.len() == 0 {
                match read {
                    Some(e) => e,
                    None => old(self).merge.files,
                }
            } else {
                old(self).merge.files
            },
            old(self).merge.files@.len() == 0 ==> final(self).merge.resolved@.len() == 0,
            old(self).merge.files@.len() != 0 ==> final(self).merge.resolved == old(self).merge.resolved,
            final(self).merge.selected is None,
            final(self).merge.chunks is None,
            final(self).merge.compare == MergeCompare::MergeView3,
            if final(self).merge.files@.len() == 0 {
                r.0@.len() == 0 && r.1 is None && final(self).merge.list_sel == old(self).merge.list_sel
            } else {
                &&& final(self).merge.list_sel == first_unresolved_spec(
                    final(self).merge.files@,
                    final(self).merge.resolved@,
                )
                &&& r.0@ == seq![Effect::OpenModal(ModalKind::Merge)]
                &&& r.1 matches Some(t) && t@ == merge_title(
                    source_label_spec(opt_bytes(old(self).merge.source), opt_bytes(old(self).merge.in_progress)),
                    branch_or_head(opt_bytes(old(self).current_branch)),
                )
            },
            final(self).merge.source == old(self).merge.source,
            final(self).merge.in_progress == old(self).merge.in_progress,
            final(self).merge.busy == old(self).merge.busy,
            final(self).merge.note == old(self).merge.note,
            final(self).current_branch == old(self).current_branch,
            *final(self) == (Kyde { merge: MergeState { chunks: final(self).merge.chunks, compare: final(self).merge.compare, files: final(self).merge.files, list_sel: final(self).merge.list_sel, resolved: final(self).merge.resolved, selected: final(self).merge.selected, ..old(self).merge }, ..*old(self) }),
    {
        load_conflicts(&mut self.merge, read);
        let mut effects: Vec<Effect> = Vec::new();
        if self.merge.files.len() == 0 {
            return (effects, None);
        }
        self.merge.list_sel = self.first_unresolved();
        let src = self.merge_source_label();
        let branch = branch_or_head_bytes(&self.current_branch);
        let title = concat3(
            &concat(&"Merge ".as_bytes_vec(), &quoted_bytes(&src)),
            &" into ".as_bytes_vec(),
            &quoted_bytes(&branch),
        );
        effects.push(Effect::OpenModal(ModalKind::Merge));
        (effects, Some(title))
    }

    /// "‹ Back": leave the resolve stage for the list, keeping the open file selected
    /// there; its undecided chunks are discarded.
    pub fn merge_back_to_list(&mut self)
        ensures
            final(self).merge.list_sel == match old(self).merge.selected {
                Some(i) => Some(i),
                None => old(self).merge.list_sel,
            },
            final(self).merge.selected is None,
            final(self).merge.chunks is None,
            final(self).merge.compare == MergeCompare::MergeView3,
            final(self).merge.files == old(self).merge.files,
            final(self).merge.resolved == old(self).merge.resolved,
            *final(self) == (Kyde { merge: MergeState { list_sel: final(self).merge.list_sel, selected: None, chunks: None, compare: MergeCompare::MergeView3, ..old(self).merge }, ..*old(self) }),
    {
        if self.merge.selected.is_some() {
            self.merge.list_sel = self.merge.selected;
        }
        self.merge.selected = None;
        self.merge.chunks = None;
        self.merge.compare = MergeCompare::MergeView3;
    }

    /// One gutter click: set one side of chunk `chunk` (ignored past the decisions) and
    /// rebuild the result pane.
    pub fn merge_set_side(&mut self, chunk: usize, ours_side: bool, state: SideState) -> (effects: Vec<Effect>)
        ensures
            final(self).merge.res@.len() == old(self).merge.res@.len(),
            final(self).merge.res@ == if chunk < old(self).merge.res@.len() {
                let r = old(self).merge.res@[chunk as int];
                old(self).merge.res@.update(
                    chunk as int,
                    if ours_side {
                        Resolution { ours: state, theirs: r.theirs }
                    } else {
                        Resolution { ours: r.ours, theirs: state }
                    },
                )
            } else {
                old(self).merge.res@
            },
            final(self).merge.chunks == old(self).merge.chunks,
            effects@ == seq![Effect::ReloadMergeResult],
            *final(self) == (Kyde { merge: MergeState { res: final(self).merge.res, ..old(self).merge }, ..*old(self) }),
    {
        if chunk < self.merge.res.len() {
            let r = self.merge.res[chunk];
            let n = if ours_side {
                Resolution { ours: state, theirs: r.theirs }
            } else {
                Resolution { ours: r.ours, theirs: state }
            };
            self.merge.res.set(chunk, n);
        }
        let mut effects: Vec<Effect> = Vec::new();
        effects.push(Effect::ReloadMergeResult);
        effects
    }

    /// "Apply non-conflicting changes" from the left and/or right side: every still
    /// pending clean chunk takes that side (see [`clean_applied`]); the result pane is
    /// rebuilt. Without an open file nothing is decided.
    pub fn merge_apply_clean(&mut self, left: bool, right: bool) -> (effects: Vec<Effect>)
        ensures
            final(self).merge.res@ == match old(self).merge.chunks {
                Some(c) => all_clean_applied(c@, old(self).merge.res@, left, right),
                None => old(self).merge.res@,
            },
            final(self).merge.chunks == old(self).merge.chunks,
            effects@ == seq![Effect::ReloadMergeResult],
            *final(self) == (Kyde { merge: MergeState { res: final(self).merge.res, ..old(self).merge }, ..*old(self) }),
    {
        let ghost orig = self.merge.res@;
        match &self.merge.chunks {
            Some(chunks) => {
                let mut i: usize = 0;
                while i < self.merge.res.len()
                    invariant
                        i <= self.merge.res@.len(),
                        self.merge.res@.len() == orig.len(),
                        *self == (Kyde { merge: MergeState { res: self.merge.res, ..old(self).merge }, ..*old(self) }),
                        self.merge.chunks == Some(*chunks),
                        forall|k: int|
                            0 <= k < i ==> #[trigger] self.merge.res@[k] == all_clean_applied(
                                chunks@,
                                orig,
                                left,
                                right,
                            )[k],
                        forall|k: int| i <= k < orig.len() ==> #[trigger] self.merge.res@[k] == orig[k],
                    decreases self.merge.res@.len() - i,
                {
                    if i < chunks.len() {
                        let c = chunks[i];
                        let r = self.merge.res[i];
                        let n = match c.kind {
                            ChunkKind::Ours => if left && r.ours == SideState::Pending {
                                Resolution { ours: SideState::Applied, theirs: r.theirs }
                            } else {
                                r
                            },
                            ChunkKind::Theirs => if right && r.theirs == SideState::Pending {
                                Resolution { ours: r.ours, theirs: SideState::Applied }
                            } else {
                                r
                            },
                            ChunkKind::Same => if (left || right) && r.ours == SideState::Pending {
                                Resolution { ours: SideState::Applied, theirs: r.theirs }
                            } else {
                                r
                            },
                            _ => r,
                        };
                        self.merge.res.set(i, n);
                    }
                    i = i + 1;
                }
                assert(self.merge.res@ =~= all_clean_applied(chunks@, orig, left, right));
            },
            None => {},
        }
        let mut effects: Vec<Effect> = Vec::new();
        effects.push(Effect::ReloadMergeResult);
        effects
    }
}

/// Applying the non-conflicting changes a second time changes nothing.
pub proof fn law_apply_clean_idempotent(chunks: Seq<Chunk>, res: Seq<Resolution>, left: bool, right: bool)
    ensures
        all_clean_applied(chunks, all_clean_applied(chunks, res, left, right), left, right)
            == all_clean_applied(chunks, res, left, right),
{
    let once = all_clean_applied(chunks, res, left, right);
    let twice = all_clean_applied(chunks, once, left, right);
    assert(twice =~= once);
}

/// A bulk clean apply only ever turns a pending side into an applied one: it never
/// touches a conflict chunk, nor a side already decided.
pub proof fn law_apply_clean_respects_decisions(c: Chunk, r: Resolution, left: bool, right: bool)
    ensures
        c.kind == ChunkKind::Conflict || c.kind == ChunkKind::Stable ==> clean_applied(c, r, left, right) == r,
        clean_applied(c, r, left, right).ours != r.ours ==> r.ours == SideState::Pending
            && clean_applied(c, r, left, right).ours == SideState::Applied,
        clean_applied(c, r, left, right).theirs != r.theirs ==> r.theirs == SideState::Pending
            && clean_applied(c, r, left, right).theirs == SideState::Applied,
{
}

/// Each button applies its own side: the left one takes the still-pending changes of our
/// side (`Ours` chunks), the right one those of their side (`Theirs` chunks), and either
/// takes a `Same` chunk. A side's changes are never taken by the other side's button,
/// and what a pressed button takes, it takes in full.
pub proof fn law_apply_clean_takes_its_own_side(chunks: Seq<Chunk>, res: Seq<Resolution>, left: bool, right: bool, k: int)
    requires
        0 <= k < res.len(),
    ensures
        ({
            let out = all_clean_applied(chunks, res, left, right)[k];
            &&& out.theirs != res[k].theirs ==> right && k < chunks.len() && chunks[k].kind == ChunkKind::Theirs
            &&& out.ours != res[k].ours ==> k < chunks.len() && ((left && chunks[k].kind == ChunkKind::Ours) || ((left
                || right) && chunks[k].kind == ChunkKind::Same))
            &&& left && k < chunks.len() && chunks[k].kind == ChunkKind::Ours && res[k].ours == SideState::Pending
                ==> out.ours == SideState::Applied
            &&& right && k < chunks.len() && chunks[k].kind == ChunkKind::Theirs && res[k].theirs == SideState::Pending
                ==> out.theirs == SideState::Applied
            &&& (left || right) && k < chunks.len() && chunks[k].kind == ChunkKind::Same && res[k].ours
                == SideState::Pending ==> out.ours == SideState::Applied
        }),
        all_clean_applied(chunks, res, left, right).len() == res.len(),
        !left && !right ==> all_clean_applied(chunks, res, left, right) == res,
{
    if !left && !right {
        assert(all_clean_applied(chunks, res, left, right) =~= res);
    }
}

/// Every file the conflicts list points at is unresolved, and there is none only when
/// every file is resolved.
pub proof fn law_first_unresolved_is_unresolved(files: Seq<ConflictEntry>, resolved: Seq<FsPath>)
    requires
        files.len() <= usize::MAX,
    ensures
        match first_unresolved_spec(files, resolved) {
            Some(i) => i < files.len() && !is_resolved(files, resolved, i as int) && forall|k: int|
                0 <= k < i ==> #[trigger] is_resolved(files, resolved, k),
            None => forall|k: int| 0 <= k < files.len() ==> #[trigger] is_resolved(files, resolved, k),
        },
{
    if exists|i: int| 0 <= i < files.len() && !#[trigger] is_resolved(files, resolved, i) {
        lemma_first_unresolved_exists(files, resolved);
    }
}

/// When some file is unresolved, a first one exists.
pub proof fn lemma_first_unresolved_exists(files: Seq<ConflictEntry>, resolved: Seq<FsPath>)
    requires
        exists|i: int| 0 <= i < files.len() && !#[trigger] is_resolved(files, resolved, i),
    ensures
        exists|i: int|
            0 <= i < files.len() && !#[trigger] is_resolved(files, resolved, i) && forall|k: int|
                0 <= k < i ==> #[trigger] is_resolved(files, resolved, k),
{
    let z = choose|i: int| 0 <= i < files.len() && !#[trigger] is_resolved(files, resolved, i);
    lemma_first_below(files, resolved, z);
}

proof fn lemma_first_below(files: Seq<ConflictEntry>, resolved: Seq<FsPath>, z: int)
    requires
        0 <= z < files.len(),
        !is_resolved(files, resolved, z),
    ensures
        exists|i: int|
            0 <= i < files.len() && !#[trigger] is_resolved(files, resolved, i) && forall|k: int|
                0 <= k < i ==> #[trigger] is_resolved(files, resolved, k),
    decreases z,
{
    if forall|k: int| 0 <= k < z ==> #[trigger] is_resolved(files, resolved, k) {
        assert(!is_resolved(files, resolved, z));
    } else {
        let w = choose|k: int| 0 <= k < z && !#[trigger] is_resolved(files, resolved, k);
        lemma_first_below(files, resolved, w);
    }
}

/// The starting rows of the changed chunks (see [`chunk_rows_spec`]).
pub fn chunk_rows(chunks: &Vec<Chunk>, lens: &Vec<usize>) -> (r: Vec<usize>)
    requires
        row_start(chunks@, lens@, chunks@.len()) <= usize::MAX,
    ensures
        r@ == chunk_rows_spec(chunks@, lens@, chunks@.len()),
{
    let mut rows: Vec<usize> = Vec::new();
    let mut row: usize = 0;
    let mut i: usize = 0;
    while i < chunks.len()
        invariant
            i <= chunks@.len(),
            row == row_start(chunks@, lens@, i as nat),
            rows@ == chunk_rows_spec(chunks@, lens@, i as nat),
            row_start(chunks@, lens@, chunks@.len()) <= usize::MAX,
        decreases chunks@.len() - i,
    {
        proof {
            lemma_row_start_mono(chunks@, lens@, (i + 1) as nat, chunks@.len());
        }
        let c = chunks[i];
        if c.kind != ChunkKind::Stable {
            rows.push(row);
        }
        let rl = if i < lens.len() {
            lens[i]
        } else {
            0
        };
        let a = if c.ours_len >= c.theirs_len {
            c.ours_len
        } else {
            c.theirs_len
        };
        let span = if a >= rl {
            a
        } else {
            rl
        };
        row = row + span;
        i = i + 1;
    }
    rows
}

/// The row of the first undecided chunk (see [`first_pending_row`]).
fn pending_row(chunks: &Vec<Chunk>, lens: &Vec<usize>, decided: &Vec<bool>) -> (r: Option<usize>)
    requires
        decided@.len() == chunks@.len(),
        row_start(chunks@, lens@, chunks@.len()) <= usize::MAX,
    ensures
        match first_pending_row(chunks@, lens@, decided@, chunks@.len()) {
            Some(x) => r == Some(x as usize),
            None => r is None,
        },
{
    let mut row: usize = 0;
    let mut i: usize = 0;
    while i < chunks.len()
        invariant
            i <= chunks@.len(),
            decided@.len() == chunks@.len(),
            row == row_start(chunks@, lens@, i as nat),
            first_pending_row(chunks@, lens@, decided@, i as nat) is None,
            row_start(chunks@, lens@, chunks@.len()) <= usize::MAX,
        decreases chunks@.len() - i,
    {
        proof {
            lemma_row_start_mono(chunks@, lens@, (i + 1) as nat, chunks@.len());
            lemma_first_pending_settled(chunks@, lens@, decided@, (i + 1) as nat, chunks@.len());
        }
        if !decided[i] {
            return Some(row);
        }
        let c = chunks[i];
        let rl = if i < lens.len() {
            lens[i]
        } else {
            0
        };
        let a = if c.ours_len >= c.theirs_len {
            c.ours_len
        } else {
            c.theirs_len
        };
        let span = if a >= rl {
            a
        } else {
            rl
        };
        row = row + span;
        i = i + 1;
    }
    None
}

/// Once a pending row is found among the first `i` chunks, later chunks keep it.
proof fn lemma_first_pending_settled(chunks: Seq<Chunk>, lens: Seq<usize>, decided: Seq<bool>, i: nat, n: nat)
    requires
        i <= n,
    ensures
        first_pending_row(chunks, lens, decided, i) is Some ==> first_pending_row(chunks, lens, decided, n)
            == first_pending_row(chunks, lens, decided, i),
    decreases n,
{
    if i < n {
        lemma_first_pending_settled(chunks, lens, decided, i, (n - 1) as nat);
    }
}

/// The conflicts list: git's per-side entries when it gave some, else every conflicted
/// path as modified on both sides.
pub fn conflict_entries_or_paths(read: Option<Vec<ConflictEntry>>, paths: Vec<FsPath>) -> (r: Vec<ConflictEntry>)
    ensures
        match read {
            Some(e) if e@.len() > 0 => r == e,
            _ => r@.len() == paths@.len() && forall|k: int|
                0 <= k < paths@.len() ==> (#[trigger] r@[k]).path@ == paths@[k]@ && r@[k].ours
                    == ConflictSide::Modified && r@[k].theirs == ConflictSide::Modified,
        },
{
    match read {
        Some(e) => {
            if e.len() > 0 {
                return e;
            }
        },
        None => {},
    }
    let mut r: Vec<ConflictEntry> = Vec::new();
    let mut i: usize = 0;
    while i < paths.len()
        invariant
            i <= paths@.len(),
            r@.len() == i,
            forall|k: int|
                0 <= k < i ==> (#[trigger] r@[k]).path@ == paths@[k]@ && r@[k].ours
                    == ConflictSide::Modified && r@[k].theirs == ConflictSide::Modified,
        decreases paths@.len() - i,
    {
        r.push(
            ConflictEntry {
                path: paths[i].duplicate(),
                ours: ConflictSide::Modified,
                theirs: ConflictSide::Modified,
            },
        );
        i = i + 1;
    }
    r
}

/// The rows of the changed chunks of the open file (none without one).
pub open spec fn merge_rows_of(chunks: Option<Vec<Chunk>>, lens: Seq<usize>) -> Seq<usize> {
    match chunks {
        Some(c) => chunk_rows_spec(c@, lens, c@.len()),
        None => Seq::empty(),
    }
}

/// The total rows of the open file's aligned panes fit a `usize`.
pub open spec fn rows_fit(chunks: Option<Vec<Chunk>>, lens: Seq<usize>) -> bool {
    chunks matches Some(c) ==> row_start(c@, lens, c@.len()) <= usize::MAX
}

impl Kyde {
    /// Starting rows of the changed (not stable) chunks in the aligned three panes, each
    /// chunk spanning its longest side.
    pub fn merge_chunk_rows(&self) -> (r: Vec<usize>)
        requires
            rows_fit(self.merge.chunks, self.merge.res_lens@),
        ensures
            r@ == merge_rows_of(self.merge.chunks, self.merge.res_lens@),
    {
        match &self.merge.chunks {
            None => Vec::new(),
            Some(c) => chunk_rows(c, &self.merge.res_lens),
        }
    }

    /// Toolbar ↑/↓: scroll to the next or previous changed chunk, wrapping around, from
    /// the row `context_rows` below the top row `top`. Returns the row to scroll to (the
    /// target less the context rows), `None` when nothing changed.
    pub fn merge_nav_chunk(&self, next: bool, top: i64, context_rows: usize) -> (scroll: Option<usize>)
        requires
            rows_fit(self.merge.chunks, self.merge.res_lens@),
            context_rows <= i64::MAX,
            top + context_rows <= i64::MAX,
        ensures
            ({
                let rows = merge_rows_of(self.merge.chunks, self.merge.res_lens@);
                let anchor = top + context_rows;
                if rows.len() == 0 {
                    scroll is None
                } else {
                    exists|t: usize|
                        #![trigger sat_sub(t, context_rows)]
                        scroll == Some(sat_sub(t, context_rows)) && if next {
                            is_next_target(rows, anchor, t)
                        } else {
                            is_prev_target(rows, anchor, t)
                        }
                }
            }),
    {
        let rows = self.merge_chunk_rows();
        if rows.len() == 0 {
            return None;
        }
        let anchor: i64 = top + context_rows as i64;
        let t = if next {
            next_target(&rows, anchor)
        } else {
            prev_target(&rows, anchor)
        };
        let row = if t >= context_rows {
            t - context_rows
        } else {
            0
        };
        assert(Some(row) == Some(sat_sub(t, context_rows)));
        Some(row)
    }

    /// The path of conflicted file `idx` to load into the resolve stage: not when it is
    /// past the list, already resolved (its index stages are gone), or without a
    /// repository to read the stages from.
    pub fn merge_file_to_open(&self, idx: usize) -> (r: Option<FsPath>)
        ensures
            if idx < self.merge.files@.len() && !is_resolved(self.merge.files@, self.merge.resolved@, idx as int)
                && self.repo_root is Some {
                r matches Some(p) && p@ == self.merge.files@[idx as int].path@
            } else {
                r is None
            },
    {
        if idx >= self.merge.files.len() || self.repo_root.is_none() {
            return None;
        }
        if crate::path::contains_path(&self.merge.resolved, &self.merge.files[idx].path) {
            return None;
        }
        Some(self.merge.files[idx].path.duplicate())
    }

    /// "Merge…": file `idx` was loaded as the three-way model `chunks`; every chunk starts
    /// undecided and the resolve stage shows the three panes. A file past the list or
    /// already resolved stays closed.
    #[verifier::rlimit(60)]
    pub fn select_merge_file(&mut self, idx: usize, chunks: Vec<Chunk>) -> (effects: Vec<Effect>)
        ensures
            if idx < old(self).merge.files@.len() && !is_resolved(
                old(self).merge.files@,
                old(self).merge.resolved@,
                idx as int,
            ) {
                &&& final(self).merge.selected == Some(idx)
                &&& final(self).merge.list_sel == Some(idx)
                &&& final(self).merge.chunks == Some(chunks)
                &&& final(self).merge.res@.len() == chunks@.len()
                &&& forall|k: int| 0 <= k < chunks@.len() ==> #[trigger] final(self).merge.res@[k]
                    == (Resolution { ours: SideState::Pending, theirs: SideState::Pending })
                &&& final(self).merge.compare == MergeCompare::MergeView3
                &&& !final(self).merge.compare_open
                &&& !final(self).merge.ws_open
                &&& effects@ == seq![Effect::ReloadMergeResult]
            } else {
                final(self).merge == old(self).merge && effects@.len() == 0
            },
            final(self).merge.files == old(self).merge.files,
            final(self).merge.resolved == old(self).merge.resolved,
            *final(self) == (Kyde { merge: MergeState { chunks: final(self).merge.chunks, compare: final(self).merge.compare, compare_open: final(self).merge.compare_open, list_sel: final(self).merge.list_sel, res: final(self).merge.res, selected: final(self).merge.selected, ws_open: final(self).merge.ws_open, ..old(self).merge }, ..*old(self) }),
    {
        let mut effects: Vec<Effect> = Vec::new();
        if idx >= self.merge.files.len() {
            return effects;
        }
        if crate::path::contains_path(&self.merge.resolved, &self.merge.files[idx].path) {
            return effects;
        }
        let mut res: Vec<Resolution> = Vec::new();
        let mut k: usize = 0;
        while k < chunks.len()
            invariant
                k <= chunks@.len(),
                res@.len() == k,
                forall|j: int| 0 <= j < k ==> #[trigger] res@[j] == (Resolution {
                    ours: SideState::Pending,
                    theirs: SideState::Pending,
                }),
            decreases chunks@.len() - k,
        {
            res.push(Resolution { ours: SideState::Pending, theirs: SideState::Pending });
            k = k + 1;
        }
        self.merge.res = res;
        self.merge.selected = Some(idx);
        self.merge.list_sel = Some(idx);
        self.merge.compare = MergeCompare::MergeView3;
        self.merge.compare_open = false;
        self.merge.ws_open = false;
        self.merge.chunks = Some(chunks);
        effects.push(Effect::ReloadMergeResult);
        effects
    }

    /// The result pane was rebuilt: keep each chunk's result line count and the count of
    /// undecided chunks. With `reset_scroll`, returns the row to park at: the first chunk
    /// that `decided` marks undecided (row 0 when all are decided) less `context_rows`.
    /// Nothing changes without an open file.
    pub fn merge_result_loaded(
        &mut self,
        res_lens: Vec<usize>,
        decided: Vec<bool>,
        undecided: usize,
        reset_scroll: bool,
        context_rows: usize,
    ) -> (scroll: Option<usize>)
        requires
            old(self).merge.chunks matches Some(c) ==> decided@.len() == c@.len() && row_start(
                c@,
                res_lens@,
                c@.len(),
            ) <= usize::MAX,
        ensures
            match old(self).merge.chunks {
                None => final(self).merge == old(self).merge && scroll is None,
                Some(c) => {
                    &&& final(self).merge.res_lens == res_lens
                    &&& final(self).merge.undecided == undecided
                    &&& final(self).merge.chunks == old(self).merge.chunks
                    &&& final(self).merge.res == old(self).merge.res
                    &&& scroll == if reset_scroll {
                        Some(
                            sat_sub(
                                match first_pending_row(c@, res_lens@, decided@, c@.len()) {
                                    Some(x) => x as usize,
                                    None => 0usize,
                                },
                                context_rows,
                            ),
                        )
                    } else {
                        None::<usize>
                    }
                },
            },
    {
        let first = match &self.merge.chunks {
            None => {
                return None;
            },
            Some(c) => pending_row(c, &res_lens, &decided),
        };
        self.merge.res_lens = res_lens;
        self.merge.undecided = undecided;
        if reset_scroll {
            let f = match first {
                Some(x) => x,
                None => 0,
            };
            Some(
                if f >= context_rows {
                    f - context_rows
                } else {
                    0
                },
            )
        } else {
            None
        }
    }

    /// The file whose language the resolve stage highlights with: the open file (`None`
    /// means plain text).
    pub fn merge_lang(&self) -> (r: Option<FsPath>)
        ensures
            match self.merge.selected {
                Some(i) if i < self.merge.files@.len() => r matches Some(p) && p@ == self.merge.files@[i as int].path@,
                _ => r is None,
            },
    {
        match self.merge.selected {
            Some(i) => {
                if i < self.merge.files.len() {
                    Some(self.merge.files[i].path.duplicate())
                } else {
                    None
                }
            },
            None => None,
        }
    }

    /// The two texts and pane labels of a read-only Compare Contents pair (the base
    /// pairs, and left with right). `None` for the merge view and the interactive middle
    /// pairs, which show the live merge panes.
    pub fn compare_pair(&self) -> (r: Option<(MergeText, MergeText, Vec<u8>, Vec<u8>)>)
        ensures
            ({
                let yours = "Yours — ".spec_bytes() + branch_or_head(opt_bytes(self.current_branch));
                let theirs = "Theirs — ".spec_bytes() + source_label_spec(
                    opt_bytes(self.merge.source),
                    opt_bytes(self.merge.in_progress),
                );
                match self.merge.compare {
                    MergeCompare::LeftRight => r matches Some(x) && x.0 == MergeText::Ours && x.1
                        == MergeText::Theirs && x.2@ == yours && x.3@ == theirs,
                    MergeCompare::BaseLeft => r matches Some(x) && x.0 == MergeText::Base && x.1
                        == MergeText::Ours && x.2@ == "Base".spec_bytes() && x.3@ == yours,
                    MergeCompare::BaseMiddle => r matches Some(x) && x.0 == MergeText::Base && x.1
                        == MergeText::Result && x.2@ == "Base".spec_bytes() && x.3@ == "Result".spec_bytes(),
                    MergeCompare::BaseRight => r matches Some(x) && x.0 == MergeText::Base && x.1
                        == MergeText::Theirs && x.2@ == "Base".spec_bytes() && x.3@ == theirs,
                    _ => r is None,
                }
            }),
    {
        let yours = concat(&"Yours — ".as_bytes_vec(), &branch_or_head_bytes(&self.current_branch));
        let theirs = concat(&"Theirs — ".as_bytes_vec(), &self.merge_source_label());
        match self.merge.compare {
            MergeCompare::LeftRight => Some((MergeText::Ours, MergeText::Theirs, yours, theirs)),
            MergeCompare::BaseLeft => Some((MergeText::Base, MergeText::Ours, "Base".as_bytes_vec(), yours)),
            MergeCompare::BaseMiddle => Some(
                (MergeText::Base, MergeText::Result, "Base".as_bytes_vec(), "Result".as_bytes_vec()),
            ),
            MergeCompare::BaseRight => Some((MergeText::Base, MergeText::Theirs, "Base".as_bytes_vec(), theirs)),
            _ => None,
        }
    }

    /// Switch what the resolve stage shows; a read-only pair loads its two panes.
    pub fn merge_set_compare(&mut self, mode: MergeCompare) -> (effects: Vec<Effect>)
        ensures
            !final(self).merge.compare_open,
            final(self).merge.compare == mode,
            effects@ == match mode {
                MergeCompare::LeftRight | MergeCompare::BaseLeft | MergeCompare::BaseMiddle
                | MergeCompare::BaseRight => seq![Effect::LoadMergeComparePanes],
                _ => Seq::<Effect>::empty(),
            },
            final(self).merge.res == old(self).merge.res,
            final(self).merge.chunks == old(self).merge.chunks,
            *final(self) == (Kyde { merge: MergeState { compare_open: false, compare: mode, ..old(self).merge }, ..*old(self) }),
    {
        self.merge.compare_open = false;
        self.merge.compare = mode;
        let mut effects: Vec<Effect> = Vec::new();
        if self.compare_pair().is_some() {
            effects.push(Effect::LoadMergeComparePanes);
        }
        effects
    }

    /// Switch the whitespace mode of the merge comparison; its popup closes. A new mode
    /// with a file open returns that file and the current comparison: the host rebuilds
    /// the file's model under the new mode ([`Kyde::select_merge_file`], whose chunk
    /// decisions start over) and then restores the comparison ([`Kyde::merge_set_compare`]).
    pub fn merge_set_ws(&mut self, ws: WhitespaceMode) -> (r: Option<(usize, MergeCompare)>)
        ensures
            !final(self).merge.ws_open,
            final(self).merge.ws == ws,
            r == (if old(self).merge.ws == ws {
                None
            } else {
                match old(self).merge.selected {
                    Some(i) => Some((i, old(self).merge.compare)),
                    None => None,
                }
            }),
            final(self).merge.selected == old(self).merge.selected,
            final(self).merge.compare == old(self).merge.compare,
            final(self).merge.files == old(self).merge.files,
            final(self).merge.res == old(self).merge.res,
            final(self).merge.chunks == old(self).merge.chunks,
            *final(self) == (Kyde { merge: MergeState { ws_open: false, ws: ws, ..old(self).merge }, ..*old(self) }),
    {
        self.merge.ws_open = false;
        if self.merge.ws == ws {
            return None;
        }
        self.merge.ws = ws;
        match self.merge.selected {
            Some(i) => Some((i, self.merge.compare)),
            None => None,
        }
    }

    /// "Accept Yours"/"Accept Theirs" on the resolve-stage file, else the list
    /// selection: the file and how that side resolves it (a side that deleted the file
    /// deletes it). `None` when no file applies, it is resolved already, or without a
    /// repository. On success the host calls [`Kyde::finish_merge_file`].
    pub fn merge_accept_file(&self, take_ours: bool) -> (r: Option<(FsPath, AcceptPlan)>)
        ensures
            ({
                let idx = match self.merge.selected {
                    Some(i) => Some(i),
                    None => self.merge.list_sel,
                };
                match idx {
                    Some(i) if i < self.merge.files@.len() && !is_resolved(
                        self.merge.files@,
                        self.merge.resolved@,
                        i as int,
                    ) && self.repo_root is Some => {
                        let e = self.merge.files@[i as int];
                        let side = if take_ours {
                            e.ours
                        } else {
                            e.theirs
                        };
                        r matches Some(x) && x.0@ == e.path@ && x.1 == if side == ConflictSide::Deleted {
                            AcceptPlan::Delete
                        } else {
                            AcceptPlan::TakeStage(
                                if take_ours {
                                    2u8
                                } else {
                                    3u8
                                },
                            )
                        }
                    },
                    _ => r is None,
                }
            }),
    {
        let idx = match self.merge.selected {
            Some(i) => i,
            None => match self.merge.list_sel {
                Some(i) => i,
                None => {
                    return None;
                },
            },
        };
        if idx >= self.merge.files.len() {
            return None;
        }
        if crate::path::contains_path(&self.merge.resolved, &self.merge.files[idx].path) {
            return None;
        }
        if self.repo_root.is_none() {
            return None;
        }
        let e = &self.merge.files[idx];
        let side = if take_ours {
            e.ours
        } else {
            e.theirs
        };
        let plan = if side == ConflictSide::Deleted {
            AcceptPlan::Delete
        } else {
            AcceptPlan::TakeStage(
                if take_ours {
                    2u8
                } else {
                    3u8
                },
            )
        };
        Some((e.path.duplicate(), plan))
    }

    /// Chunks of the open file still awaiting a decision (0 without an open file).
    pub fn merge_pending(&self) -> (r: usize)
        ensures
            r == if self.merge.chunks is Some {
                self.merge.undecided
            } else {
                0
            },
    {
        if self.merge.chunks.is_some() {
            self.merge.undecided
        } else {
            0
        }
    }

    /// Whether every chunk of the open file is decided.
    pub fn merge_file_ready(&self) -> (r: bool)
        ensures
            r == (self.merge.chunks is None || self.merge.undecided == 0),
    {
        self.merge_pending() == 0
    }

    /// "Apply": the open file to write the merged result to (then stage), once every
    /// chunk is decided; `None` before that, without an open file or a repository. On
    /// success the host calls [`Kyde::finish_merge_file`].
    pub fn merge_apply_file(&self) -> (r: Option<FsPath>)
        ensures
            match (self.merge.chunks, self.merge.selected) {
                (Some(_), Some(i)) if self.merge.undecided == 0 && i < self.merge.files@.len()
                    && self.repo_root is Some => r matches Some(p) && p@ == self.merge.files@[i as int].path@,
                _ => r is None,
            },
    {
        if !self.merge_file_ready() {
            return None;
        }
        if self.merge.chunks.is_none() {
            return None;
        }
        let idx = match self.merge.selected {
            Some(i) => i,
            None => {
                return None;
            },
        };
        if idx >= self.merge.files.len() || self.repo_root.is_none() {
            return None;
        }
        Some(self.merge.files[idx].path.duplicate())
    }

    /// Mark `path` resolved and return to the list, its selection on the next unresolved
    /// file.
    pub fn finish_merge_file(&mut self, path: FsPath) -> (effects: Vec<Effect>)
        ensures
            path_set(final(self).merge.resolved@) == path_set(old(self).merge.resolved@).insert(path@),
            final(self).merge.selected is None,
            final(self).merge.chunks is None,
            final(self).merge.compare == MergeCompare::MergeView3,
            final(self).merge.files == old(self).merge.files,
            final(self).merge.list_sel == first_unresolved_spec(final(self).merge.files@, final(self).merge.resolved@),
            effects@ == seq![Effect::Refresh],
            *final(self) == (Kyde { merge: MergeState { resolved: final(self).merge.resolved, list_sel: final(self).merge.list_sel, selected: None, chunks: None, compare: MergeCompare::MergeView3, ..old(self).merge }, ..*old(self) }),
    {
        insert_path(&mut self.merge.resolved, path);
        self.merge.selected = None;
        self.merge.chunks = None;
        self.merge.compare = MergeCompare::MergeView3;
        self.merge.list_sel = self.first_unresolved();
        let mut effects: Vec<Effect> = Vec::new();
        effects.push(Effect::Refresh);
        effects
    }

    /// Drop the per-merge session state (after a commit or an abort).
    pub fn clear_merge_state(&mut self)
        ensures
            final(self).merge.source is None,
            final(self).merge.files@.len() == 0,
            final(self).merge.resolved@.len() == 0,
            final(self).merge.list_sel is None,
            final(self).merge.selected is None,
            final(self).merge.chunks is None,
            final(self).merge.res@.len() == 0,
            final(self).merge.res_lens@.len() == 0,
            final(self).merge.compare == MergeCompare::MergeView3,
            *final(self) == (Kyde {
                merge: MergeState {
                    source: None,
                    files: final(self).merge.files,
                    resolved: final(self).merge.resolved,
                    list_sel: None,
                    selected: None,
                    chunks: None,
                    res: final(self).merge.res,
                    res_lens: final(self).merge.res_lens,
                    compare: MergeCompare::MergeView3,
                    ..old(self).merge
                },
                ..*old(self)
            }),
    {
        self.merge.source = None;
        self.merge.files = Vec::new();
        self.merge.resolved = Vec::new();
        self.merge.list_sel = None;
        self.merge.selected = None;
        self.merge.chunks = None;
        self.merge.res = Vec::new();
        self.merge.res_lens = Vec::new();
        self.merge.compare = MergeCompare::MergeView3;
    }

    /// Conclude the merge, unless a merge operation is running or no repository is open.
    /// Returns the note to show once it succeeds (computed now, before the state is
    /// cleared): Merged “source” into “branch”.
    pub fn merge_commit(&mut self) -> (r: (Vec<Effect>, Vec<u8>))
        ensures
            if old(self).merge.busy || old(self).repo_root is None {
                final(self).merge == old(self).merge && r.0@.len() == 0
            } else {
                &&& final(self).merge.busy
                &&& r.0@ == seq![Effect::CommitMerge]
                &&& r.1@ == merged_note(
                    source_label_spec(opt_bytes(old(self).merge.source), opt_bytes(old(self).merge.in_progress)),
                    branch_or_head(opt_bytes(old(self).current_branch)),
                )
            },
            *final(self) == (Kyde { merge: MergeState { busy: final(self).merge.busy, ..old(self).merge }, ..*old(self) }),
    {
        let mut effects: Vec<Effect> = Vec::new();
        if self.merge.busy || self.repo_root.is_none() {
            return (effects, Vec::new());
        }
        self.merge.busy = true;
        let src = self.merge_source_label();
        let dst = branch_or_head_bytes(&self.current_branch);
        let note = concat3(
            &concat(&"Merged ".as_bytes_vec(), &quoted_bytes(&src)),
            &" into ".as_bytes_vec(),
            &concat(&quoted_bytes(&dst), &".".as_bytes_vec()),
        );
        effects.push(Effect::CommitMerge);
        (effects, note)
    }

    /// The merge commit finished: on success the session is cleared, `note` shown and
    /// the window closed (a failure is reported by the host); status is re-read.
    pub fn merge_commit_done(&mut self, ok: bool, note: Vec<u8>) -> (effects: Vec<Effect>)
        ensures
            !final(self).merge.busy,
            ok ==> final(self).merge.note == Some(note) && final(self).merge.files@.len() == 0
                && final(self).merge.source is None && effects@ == seq![
                Effect::CloseModal(ModalKind::Merge),
                Effect::Refresh,
            ],
            !ok ==> final(self).merge.files == old(self).merge.files && effects@ == seq![Effect::Refresh],
            *final(self) == (Kyde { merge: final(self).merge, ..*old(self) }),
    {
        self.merge.busy = false;
        let mut effects: Vec<Effect> = Vec::new();
        if ok {
            self.clear_merge_state();
            self.merge.note = Some(note);
            effects.push(Effect::CloseModal(ModalKind::Merge));
        }
        effects.push(Effect::Refresh);
        effects
    }

    /// Abort the in-progress merge, unless a merge operation is running or no repository
    /// is open.
    pub fn merge_abort_op(&mut self) -> (effects: Vec<Effect>)
        ensures
            if old(self).merge.busy || old(self).repo_root is None {
                final(self).merge == old(self).merge && effects@.len() == 0
            } else {
                final(self).merge.busy && effects@ == seq![Effect::AbortMerge]
            },
            *final(self) == (Kyde { merge: MergeState { busy: final(self).merge.busy, ..old(self).merge }, ..*old(self) }),
    {
        let mut effects: Vec<Effect> = Vec::new();
        if self.merge.busy || self.repo_root.is_none() {
            return effects;
        }
        self.merge.busy = true;
        effects.push(Effect::AbortMerge);
        effects
    }

    /// The abort finished: on success the session is cleared and the window closed (a
    /// failure is reported by the host); status is re-read.
    pub fn merge_abort_done(&mut self, ok: bool) -> (effects: Vec<Effect>)
        ensures
            !final(self).merge.busy,
            ok ==> final(self).merge.files@.len() == 0 && final(self).merge.source is None
                && final(self).merge.note == old(self).merge.note && effects@ == seq![
                Effect::CloseModal(ModalKind::Merge),
                Effect::Refresh,
            ],
            !ok ==> final(self).merge.files == old(self).merge.files && effects@ == seq![Effect::Refresh],
            *final(self) == (Kyde { merge: final(self).merge, ..*old(self) }),
    {
        self.merge.busy = false;
        let mut effects: Vec<Effect> = Vec::new();
        if ok {
            self.clear_merge_state();
            effects.push(Effect::CloseModal(ModalKind::Merge));
        }
        effects.push(Effect::Refresh);
        effects
    }

    /// Branch popup → merge `name` into the current branch, unless a merge operation is
    /// running or no repository is open. Returns the branch merged into, for the note.
    pub fn menu_merge_branch(&mut self, name: Vec<u8>) -> (r: (Vec<Effect>, Vec<u8>))
        ensures
            !final(self).menu_open,
            !final(self).branch.popup_open,
            r.1@ == branch_or_head(opt_bytes(old(self).current_branch)),
            if old(self).merge.busy || old(self).repo_root is None {
                final(self).merge == old(self).merge && r.0@.len() == 0
            } else {
                &&& final(self).merge.busy
                &&& final(self).merge.source == Some(name)
                &&& final(self).merge.note is None
                &&& r.0@ == seq![Effect::MergeBranch]
            },
            *final(self) == (Kyde { menu_open: final(self).menu_open, branch: BranchState { popup_open: final(self).branch.popup_open, ..old(self).branch }, merge: MergeState { busy: final(self).merge.busy, note: final(self).merge.note, source: final(self).merge.source, ..old(self).merge }, ..*old(self) }),
    {
        self.menu_open = false;
        self.branch.popup_open = false;
        let target = branch_or_head_bytes(&self.current_branch);
        let mut effects: Vec<Effect> = Vec::new();
        if self.merge.busy || self.repo_root.is_none() {
            return (effects, target);
        }
        self.merge.busy = true;
        self.merge.source = Some(name);
        self.merge.note = None;
        effects.push(Effect::MergeBranch);
        (effects, target)
    }

    /// The merge of `name` into `target` finished. Nothing to merge or a clean merge
    /// shows a note; conflicts fill the list (git's per-side entries `read`, else every
    /// conflicted path as modified on both sides) and open the resolve window, whose
    /// title is returned; a failure is reported by the host. Status is re-read.
    pub fn merge_branch_done(
        &mut self,
        name: &Vec<u8>,
        target: &Vec<u8>,
        outcome: MergeOutcome,
        read: Option<Vec<ConflictEntry>>,
    ) -> (r: (Vec<Effect>, Option<Vec<u8>>))
        ensures
            !final(self).merge.busy,
            match outcome {
                MergeOutcome::UpToDate => {
                    &&& final(self).merge.source is None
                    &&& final(self).merge.note matches Some(n) && n@ == up_to_date_note(name@)
                    &&& r.0@ == seq![Effect::Refresh] && r.1 is None
                },
                MergeOutcome::Merged => {
                    &&& final(self).merge.source is None
                    &&& final(self).merge.note matches Some(n) && n@ == merged_note(name@, target@)
                    &&& r.0@ == seq![Effect::Refresh] && r.1 is None
                },
                MergeOutcome::Conflicts(paths) => {
                    &&& final(self).merge.resolved@.len() == 0
                    &&& final(self).merge.selected is None
                    &&& (match read {
                        Some(e) if e@.len() > 0 => final(self).merge.files == e,
                        _ => final(self).merge.files@.len() == paths@.len(),
                    })
                    &&& if final(self).merge.files@.len() > 0 {
                        &&& r.0@ == seq![Effect::OpenModal(ModalKind::Merge), Effect::Refresh]
                        &&& r.1 is Some
                        &&& final(self).merge.list_sel == first_unresolved_spec(
                            final(self).merge.files@,
                            final(self).merge.resolved@,
                        )
                    } else {
                        r.0@ == seq![Effect::Refresh] && r.1 is None
                    }
                },
                MergeOutcome::Failed => {
                    &&& final(self).merge.source is None
                    &&& final(self).merge.note == old(self).merge.note
                    &&& r.0@ == seq![Effect::Refresh] && r.1 is None
                },
            },
    {
        self.merge.busy = false;
        let mut effects: Vec<Effect> = Vec::new();
        let mut title: Option<Vec<u8>> = None;
        match outcome {
            MergeOutcome::UpToDate => {
                self.merge.source = None;
                let n = concat(
                    &concat(&"Already up to date — nothing to merge from ".as_bytes_vec(), &quoted_bytes(name)),
                    &".".as_bytes_vec(),
                );
                self.merge.note = Some(n);
            },
            MergeOutcome::Merged => {
                self.merge.source = None;
                let n = concat3(
                    &concat(&"Merged ".as_bytes_vec(), &quoted_bytes(name)),
                    &" into ".as_bytes_vec(),
                    &concat(&quoted_bytes(target), &".".as_bytes_vec()),
                );
                self.merge.note = Some(n);
            },
            MergeOutcome::Conflicts(paths) => {
                let entries = conflict_entries_or_paths(read, paths);
                self.merge.files = entries;
                self.merge.resolved = Vec::new();
                let (mut opened, t) = self.open_merge_window(None);
                effects.append(&mut opened);
                title = t;
            },
            MergeOutcome::Failed => {
                self.merge.source = None;
            },
        }
        effects.push(Effect::Refresh);
        (effects, title)
    }

    /// The open Browse file, when git reports it conflicted.
    pub fn open_file_conflict(&self) -> (r: Option<FsPath>)
        ensures
            match self.browse.open_path {
                None => r is None,
                Some(p) => if exists|i: int|
                    0 <= i < self.files@.len() && (#[trigger] self.files@[i]).path@ == p@ && self.files@[i].status
                        == FileStatus::Conflict {
                    r matches Some(q) && q@ == p@
                } else {
                    r is None
                },
            },
    {
        let p = match &self.browse.open_path {
            None => {
                return None;
            },
            Some(p) => p,
        };
        let mut i: usize = 0;
        while i < self.files.len()
            invariant
                i <= self.files@.len(),
                self.browse.open_path == Some(*p),
                forall|k: int|
                    0 <= k < i ==> !((#[trigger] self.files@[k]).path@ == p@ && self.files@[k].status
                        == FileStatus::Conflict),
            decreases self.files@.len() - i,
        {
            if self.files[i].status == FileStatus::Conflict && self.files[i].path.same(p) {
                return Some(self.files[i].path.duplicate());
            }
            i = i + 1;
        }
        None
    }

    /// "Resolve conflicts…" from a file's banner: open the merge window (see
    /// [`Kyde::open_merge_window`]) and return the index of `path` in its list, for the
    /// host to load into the resolve stage.
    pub fn resolve_conflict_for(&mut self, path: &FsPath, read: Option<Vec<ConflictEntry>>) -> (r: (
        Vec<Effect>,
        Option<Vec<u8>>,
        Option<usize>,
    ))
        ensures
            final(self).merge.selected is None,
            match r.2 {
                Some(i) => i < final(self).merge.files@.len() && final(self).merge.files@[i as int].path@
                    == path@ && forall|k: int| 0 <= k < i ==> (#[trigger] final(self).merge.files@[k]).path@ != path@,
                None => forall|k: int|
                    0 <= k < final(self).merge.files@.len() ==> (#[trigger] final(self).merge.files@[k]).path@
                        != path@,
            },
            *final(self) == (Kyde { merge: final(self).merge, ..*old(self) }),
    {
        let (effects, title) = self.open_merge_window(read);
        let ghost mid = *self;
        let mut i: usize = 0;
        while i < self.merge.files.len()
            invariant
                i <= self.merge.files@.len(),
                *self == mid,
                mid == (Kyde { merge: mid.merge, ..*old(self) }),
                self.merge.selected is None,
                forall|k: int| 0 <= k < i ==> (#[trigger] self.merge.files@[k]).path@ != path@,
            decreases self.merge.files@.len() - i,
        {
            if self.merge.files[i].path.same(path) {
                return (effects, title, Some(i));
            }
            i = i + 1;
        }
        (effects, title, None)
    }
}


/// How a pane line is tinted.
#[derive(Clone, Copy, PartialEq, Eq, Structural, Debug)]
pub enum Tint {
    /// A change that is pending or applied.
    Modified,
    /// A change being discarded (ignored).
    Deleted,
    /// An unresolved conflict.
    Conflict,
}

/// Where a pane's alignment filler rows go: before a line, or after the last one.
#[derive(Clone, Copy, PartialEq, Eq, Structural, Debug)]
pub enum PadAt {
    Before(usize),
    End,
}

/// Filler rows in a pane: how many, and where.
#[derive(Clone, Copy, PartialEq, Eq, Structural, Debug)]
pub struct Pad {
    pub rows: usize,
    pub at: PadAt,
}

/// How one chunk is drawn in the three aligned panes: the tint of its lines in each pane
/// (none: untinted), and the filler rows after it in each pane (so that every pane gives
/// it the same number of rows).
#[derive(Clone, Copy, PartialEq, Eq, Structural, Debug)]
pub struct ChunkDecor {
    pub ours_tint: Option<Tint>,
    pub result_tint: Option<Tint>,
    pub theirs_tint: Option<Tint>,
    pub ours_pad: Pad,
    pub result_pad: Pad,
    pub theirs_pad: Pad,
}

/// A clean side's tint: an ignored side is being discarded; pending or applied, it is a
/// change.
pub open spec fn side_tint(s: SideState) -> Tint {
    if s == SideState::Ignored {
        Tint::Deleted
    } else {
        Tint::Modified
    }
}

/// Filler of `n` rows after a range ending at `end` in a pane of `total` lines.
pub open spec fn pad_spec(n: int, end: int, total: int) -> Pad {
    Pad {
        rows: n as usize,
        at: if end >= total {
            PadAt::End
        } else {
            PadAt::Before(end as usize)
        },
    }
}

/// How chunk `c` is drawn under decisions `st` (`resolved`: whether they resolve a
/// conflict), its result lines `rs..re`, in panes of `ot`, `rt` and `tt` lines.
pub open spec fn decor_spec(
    c: Chunk,
    st: Resolution,
    resolved: bool,
    rs: usize,
    re: usize,
    ot: usize,
    rt: usize,
    tt: usize,
) -> ChunkDecor {
    let rl = (re - rs) as usize;
    let rows = max_n(max_n(c.ours_len, c.theirs_len), rl);
    let applied = |s: SideState| s == SideState::Applied;
    let (o, r, t) = match c.kind {
        ChunkKind::Stable => (None, None, None),
        ChunkKind::Ours => (Some(side_tint(st.ours)), if applied(st.ours) {
            Some(Tint::Modified)
        } else {
            None
        }, None),
        ChunkKind::Theirs => (None, if applied(st.theirs) {
            Some(Tint::Modified)
        } else {
            None
        }, Some(side_tint(st.theirs))),
        ChunkKind::Same => (Some(side_tint(st.ours)), if applied(st.ours) {
            Some(Tint::Modified)
        } else {
            None
        }, Some(side_tint(st.ours))),
        ChunkKind::Conflict => if resolved {
            (Some(side_tint(st.ours)), if applied(st.ours) || applied(st.theirs) {
                Some(Tint::Modified)
            } else {
                None
            }, Some(side_tint(st.theirs)))
        } else {
            (Some(Tint::Conflict), Some(Tint::Conflict), Some(Tint::Conflict))
        },
    };
    ChunkDecor {
        ours_tint: o,
        result_tint: r,
        theirs_tint: t,
        ours_pad: pad_spec(rows - c.ours_len, c.ours_start + c.ours_len, ot as int),
        result_pad: pad_spec(rows - rl, re as int, rt as int),
        theirs_pad: pad_spec(rows - c.theirs_len, c.theirs_start + c.theirs_len, tt as int),
    }
}

/// The decisions of chunk `i`: undecided past the recorded ones.
pub open spec fn res_at(res: Seq<Resolution>, i: int) -> Resolution {
    if 0 <= i < res.len() {
        res[i]
    } else {
        Resolution { ours: SideState::Pending, theirs: SideState::Pending }
    }
}

fn decor_of(c: Chunk, st: Resolution, resolved: bool, rs: usize, re: usize, ot: usize, rt: usize, tt: usize) -> (d: ChunkDecor)
    requires
        rs <= re,
        c.ours_start + c.ours_len <= usize::MAX,
        c.theirs_start + c.theirs_len <= usize::MAX,
    ensures
        d == decor_spec(c, st, resolved, rs, re, ot, rt, tt),
{
    let rl = re - rs;
    let a = if c.ours_len >= c.theirs_len {
        c.ours_len
    } else {
        c.theirs_len
    };
    let rows = if a >= rl {
        a
    } else {
        rl
    };
    let oi = if st.ours == SideState::Ignored {
        Tint::Deleted
    } else {
        Tint::Modified
    };
    let ti = if st.theirs == SideState::Ignored {
        Tint::Deleted
    } else {
        Tint::Modified
    };
    let (o, r, t) = match c.kind {
        ChunkKind::Stable => (None, None, None),
        ChunkKind::Ours => (Some(oi), if st.ours == SideState::Applied {
            Some(Tint::Modified)
        } else {
            None
        }, None),
        ChunkKind::Theirs => (None, if st.theirs == SideState::Applied {
            Some(Tint::Modified)
        } else {
            None
        }, Some(ti)),
        ChunkKind::Same => (Some(oi), if st.ours == SideState::Applied {
            Some(Tint::Modified)
        } else {
            None
        }, Some(oi)),
        ChunkKind::Conflict => if resolved {
            (Some(oi), if st.ours == SideState::Applied || st.theirs == SideState::Applied {
                Some(Tint::Modified)
            } else {
                None
            }, Some(ti))
        } else {
            (Some(Tint::Conflict), Some(Tint::Conflict), Some(Tint::Conflict))
        },
    };
    let oe = c.ours_start + c.ours_len;
    let te = c.theirs_start + c.theirs_len;
    ChunkDecor {
        ours_tint: o,
        result_tint: r,
        theirs_tint: t,
        ours_pad: Pad {
            rows: rows - c.ours_len,
            at: if oe >= ot {
                PadAt::End
            } else {
                PadAt::Before(oe)
            },
        },
        result_pad: Pad {
            rows: rows - rl,
            at: if re >= rt {
                PadAt::End
            } else {
                PadAt::Before(re)
            },
        },
        theirs_pad: Pad {
            rows: rows - c.theirs_len,
            at: if te >= tt {
                PadAt::End
            } else {
                PadAt::Before(te)
            },
        },
    }
}

impl Kyde {
    /// How each chunk of the open file is drawn (see [`decor_spec`]): `ranges[i]` is chunk
    /// `i`'s lines in the result, `resolved[i]` whether its decisions resolve a conflict,
    /// and the panes hold `ours_total`, `result_total` and `theirs_total` lines. Empty
    /// without an open file.
    pub fn merge_decorations(
        &self,
        ranges: &Vec<(usize, usize)>,
        resolved: &Vec<bool>,
        ours_total: usize,
        result_total: usize,
        theirs_total: usize,
    ) -> (r: Vec<ChunkDecor>)
        requires
            self.merge.chunks matches Some(c) ==> {
                &&& ranges@.len() == c@.len()
                &&& resolved@.len() == c@.len()
                &&& forall|i: int| 0 <= i < c@.len() ==> (#[trigger] ranges@[i]).0 <= ranges@[i].1
                &&& forall|i: int|
                    0 <= i < c@.len() ==> (#[trigger] c@[i]).ours_start + c@[i].ours_len <= usize::MAX
                        && c@[i].theirs_start + c@[i].theirs_len <= usize::MAX
            },
        ensures
            match self.merge.chunks {
                None => r@.len() == 0,
                Some(c) => r@.len() == c@.len() && forall|i: int|
                    0 <= i < c@.len() ==> #[trigger] r@[i] == decor_spec(
                        c@[i],
                        res_at(self.merge.res@, i),
                        resolved@[i],
                        ranges@[i].0,
                        ranges@[i].1,
                        ours_total,
                        result_total,
                        theirs_total,
                    ),
            },
    {
        let mut r: Vec<ChunkDecor> = Vec::new();
        match &self.merge.chunks {
            None => r,
            Some(c) => {
                let mut i: usize = 0;
                while i < c.len()
                    invariant
                        i <= c@.len(),
                        r@.len() == i,
                        self.merge.chunks == Some(*c),
                        ranges@.len() == c@.len(),
                        resolved@.len() == c@.len(),
                        forall|k: int| 0 <= k < c@.len() ==> (#[trigger] ranges@[k]).0 <= ranges@[k].1,
                        forall|k: int|
                            0 <= k < c@.len() ==> (#[trigger] c@[k]).ours_start + c@[k].ours_len <= usize::MAX
                                && c@[k].theirs_start + c@[k].theirs_len <= usize::MAX,
                        forall|k: int|
                            0 <= k < i ==> #[trigger] r@[k] == decor_spec(
                                c@[k],
                                res_at(self.merge.res@, k),
                                resolved@[k],
                                ranges@[k].0,
                                ranges@[k].1,
                                ours_total,
                                result_total,
                                theirs_total,
                            ),
                    decreases c@.len() - i,
                {
                    let st = if i < self.merge.res.len() {
                        self.merge.res[i]
                    } else {
                        Resolution { ours: SideState::Pending, theirs: SideState::Pending }
                    };
                    let (rs, re) = ranges[i];
                    let ch = c[i];
                    assert(ranges@[i as int].0 <= ranges@[i as int].1);
                    let d = decor_of(ch, st, resolved[i], rs, re, ours_total, result_total, theirs_total);
                    r.push(d);
                    i = i + 1;
                }
                r
            },
        }
    }
}


/// The three panes stay aligned: each gives a chunk its lines plus filler rows, the same
/// number in every pane (the chunk's longest side). An unresolved conflict is tinted as
/// such in all three panes.
pub proof fn law_decor_aligns(
    c: Chunk,
    st: Resolution,
    resolved: bool,
    rs: usize,
    re: usize,
    ot: usize,
    rt: usize,
    tt: usize,
)
    requires
        rs <= re,
    ensures
        ({
            let d = decor_spec(c, st, resolved, rs, re, ot, rt, tt);
            let rows = max_n(max_n(c.ours_len, c.theirs_len), (re - rs) as usize);
            &&& c.ours_len + d.ours_pad.rows == rows
            &&& (re - rs) + d.result_pad.rows == rows
            &&& c.theirs_len + d.theirs_pad.rows == rows
            &&& (c.kind == ChunkKind::Conflict && !resolved) ==> d.ours_tint == Some(Tint::Conflict)
                && d.result_tint == Some(Tint::Conflict) && d.theirs_tint == Some(Tint::Conflict)
        }),
{
}

} // verus!
