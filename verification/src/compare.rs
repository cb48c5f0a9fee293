//! Compare two files: which hunks an apply takes from which side, which file it writes,
//! and what is reloaded afterwards.
use vstd::prelude::*;
use vstd::string::StrSliceExecFns;
use vstd::string::StringSliceAdditionalSpecFns;
use crate::bytes::concat;
use crate::path::{FsPath, PathV, file_name_v};
use crate::model::{Kyde, Effect, ModalKind, FileDiffModel, CompareState};
use crate::browse::opt_view;
use crate::diff::sat_sub;

verus! {

/// A path's final component, or nothing.
pub open spec fn name_or_empty(p: PathV) -> Seq<u8> {
    match file_name_v(p) {
        Some(n) => n,
        None => Seq::empty(),
    }
}

/// The compare window's title: "Compare: left ↔ right" over the file names.
pub open spec fn compare_title(left: PathV, right: PathV) -> Seq<u8> {
    "Compare: ".spec_bytes() + name_or_empty(left) + " ↔ ".spec_bytes() + name_or_empty(right)
}

/// The hunk mask `keep` over `n` hunks: hunk `j` takes the working side's lines when
/// `keep[j]`, else the base side's.
pub open spec fn mask_is(m: Seq<bool>, n: int, f: spec_fn(int) -> bool) -> bool {
    m.len() == n && forall|j: int| 0 <= j < n ==> #[trigger] m[j] == f(j)
}

/// A path's final component, or nothing.
pub fn name_or_empty_bytes(p: &FsPath) -> (r: Vec<u8>)
    ensures
        r@ == name_or_empty(p@),
{
    match p.file_name() {
        Some(n) => n,
        None => Vec::new(),
    }
}

/// The mask over `n` hunks that keeps every hunk but `hi` (`all_but`) or only `hi`.
pub fn hunk_mask(n: usize, hi: usize, all_but: bool) -> (m: Vec<bool>)
    ensures
        mask_is(m@, n as int, |j: int| if all_but { j != hi } else { j == hi }),
{
    let mut m: Vec<bool> = Vec::new();
    let mut j: usize = 0;
    while j < n
        invariant
            j <= n,
            m@.len() == j,
            forall|k: int| 0 <= k < j ==> #[trigger] m@[k] == if all_but { k != hi } else { k == hi },
        decreases n - j,
    {
        if all_but {
            m.push(j != hi);
        } else {
            m.push(j == hi);
        }
        j = j + 1;
    }
    m
}

/// The mask over `n` hunks that is `v` everywhere.
pub fn uniform_mask(n: usize, v: bool) -> (m: Vec<bool>)
    ensures
        mask_is(m@, n as int, |j: int| v),
{
    let mut m: Vec<bool> = Vec::new();
    let mut j: usize = 0;
    while j < n
        invariant
            j <= n,
            m@.len() == j,
            forall|k: int| 0 <= k < j ==> #[trigger] m@[k] == v,
        decreases n - j,
    {
        m.push(v);
        j = j + 1;
    }
    m
}

impl Kyde {
    /// Open the Compare window for `left` ↔ `right`: remember both paths, load them
    /// scrolled to the first hunk, and open the window under the returned title.
    pub fn open_compare(&mut self, left: FsPath, right: FsPath) -> (r: (Vec<Effect>, Vec<u8>))
        ensures
            opt_view(final(self).compare.left_path) == Some(left@),
            opt_view(final(self).compare.right_path) == Some(right@),
            r.0@ == seq![Effect::ReloadCompareAtFirstHunk, Effect::OpenModal(ModalKind::Compare)],
            r.1@ == compare_title(left@, right@),
            *final(self) == (Kyde { compare: CompareState { left_path: final(self).compare.left_path, right_path: final(self).compare.right_path, ..old(self).compare }, ..*old(self) }),
    {
        let pre = "Compare: ".as_bytes_vec();
        let mid = " ↔ ".as_bytes_vec();
        let ln = name_or_empty_bytes(&left);
        let rn = name_or_empty_bytes(&right);
        let a = concat(&pre, &ln);
        let b = concat(&a, &mid);
        let title = concat(&b, &rn);
        self.compare.left_path = Some(left);
        self.compare.right_path = Some(right);
        let mut effects: Vec<Effect> = Vec::new();
        effects.push(Effect::ReloadCompareAtFirstHunk);
        effects.push(Effect::OpenModal(ModalKind::Compare));
        (effects, title)
    }

    /// Store the freshly loaded diff of the two sides (left as base). With `park`,
    /// returns the row to scroll to: the first hunk's first line (0 without hunks) less
    /// `context_rows`. Nothing changes while a side is unset.
    pub fn compare_loaded(&mut self, d: FileDiffModel, park: bool, context_rows: usize) -> (scroll: Option<usize>)
        requires
            d.wf(),
        ensures
            if old(self).compare.left_path is Some && old(self).compare.right_path is Some {
                &&& final(self).compare.diff == Some(d)
                &&& scroll == if park {
                    Some(
                        if d.hunks@.len() > 0 {
                            sat_sub(d.hunks@[0].old_start, context_rows)
                        } else {
                            0
                        },
                    )
                } else {
                    None::<usize>
                }
            } else {
                final(self).compare.diff == old(self).compare.diff && scroll is None
            },
            final(self).compare.left_path == old(self).compare.left_path,
            final(self).compare.right_path == old(self).compare.right_path,
            *final(self) == (Kyde { compare: CompareState { diff: final(self).compare.diff, ..old(self).compare }, ..*old(self) }),
    {
        if self.compare.left_path.is_none() || self.compare.right_path.is_none() {
            return None;
        }
        let first = if d.hunks.len() > 0 {
            d.hunks[0].old_start
        } else {
            0
        };
        self.compare.diff = Some(d);
        if park {
            Some(
                if first >= context_rows {
                    first - context_rows
                } else {
                    0
                },
            )
        } else {
            None
        }
    }

    /// Copy hunk `hi` across. Both directions come from applying a subset of the
    /// left→right hunks to the left text: for the right file (`to_right`) every hunk but
    /// `hi`, for the left file only `hi`. Returns that mask; `None` without a diff.
    pub fn compare_apply_hunk(&self, hi: usize, to_right: bool) -> (m: Option<Vec<bool>>)
        ensures
            match self.compare.diff {
                None => m is None,
                Some(d) => m matches Some(v) && mask_is(
                    v@,
                    d.hunks@.len() as int,
                    |j: int| if to_right { j != hi } else { j == hi },
                ),
            },
    {
        match &self.compare.diff {
            None => None,
            Some(d) => Some(hunk_mask(d.hunks.len(), hi, to_right)),
        }
    }

    /// Make one whole side match the other: the right file takes the left text (no hunk
    /// applied), the left file the right text (every hunk applied). `None` without a diff
    /// or when the sides do not differ.
    pub fn compare_apply_all(&self, to_right: bool) -> (m: Option<Vec<bool>>)
        ensures
            match self.compare.diff {
                None => m is None,
                Some(d) => if d.hunks@.len() == 0 {
                    m is None
                } else {
                    m matches Some(v) && mask_is(v@, d.hunks@.len() as int, |j: int| !to_right)
                },
            },
    {
        match &self.compare.diff {
            None => None,
            Some(d) => {
                if d.hunks.len() == 0 {
                    None
                } else {
                    Some(uniform_mask(d.hunks.len(), !to_right))
                }
            },
        }
    }

    /// The file an apply writes (the right one when `to_right`), with what follows a
    /// successful write: reload the Browse editor when it shows that file without
    /// unsaved edits, reload the compare panes, re-read git status. `None` when that side
    /// is unset.
    pub fn compare_write_side(&self, to_right: bool) -> (r: Option<(FsPath, Vec<Effect>)>)
        ensures
            ({
                let target = if to_right {
                    self.compare.right_path
                } else {
                    self.compare.left_path
                };
                match target {
                    None => r is None,
                    Some(t) => r matches Some(x) && x.0@ == t@ && x.1@ == if opt_view(
                        self.browse.open_path,
                    ) == Some(t@) && !self.browse.editor_dirty {
                        seq![Effect::ReloadOpenEditor, Effect::ReloadCompare, Effect::Refresh]
                    } else {
                        seq![Effect::ReloadCompare, Effect::Refresh]
                    },
                }
            }),
    {
        let target = if to_right {
            &self.compare.right_path
        } else {
            &self.compare.left_path
        };
        match target {
            None => None,
            Some(t) => {
                let mut effects: Vec<Effect> = Vec::new();
                let shows = match &self.browse.open_path {
                    Some(o) => o.same(t),
                    None => false,
                };
                if shows && !self.browse.editor_dirty {
                    effects.push(Effect::ReloadOpenEditor);
                }
                effects.push(Effect::ReloadCompare);
                effects.push(Effect::Refresh);
                Some((t.duplicate(), effects))
            },
        }
    }
}

} // verus!
