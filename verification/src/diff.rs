//! The side-by-side diff: reverting one hunk of the working text to the base, the rows
//! on which hunks begin, change navigation, and the diff panes' bookkeeping.
use vstd::prelude::*;
use crate::bytes::copy_bytes;
use crate::path::{FsPath, parts_view};
use crate::model::{Kyde, Effect, ModalKind, FileDiffModel, HunkRange, DiffState, CommitState};
use crate::commit::{hunks_wf, rebuilt};
use crate::browse::opt_view;

verus! {

/// Lines joined with `'\n'` between them (no trailing newline).
pub open spec fn join_lines(lines: Seq<Seq<u8>>) -> Seq<u8>
    decreases lines.len(),
{
    if lines.len() == 0 {
        Seq::empty()
    } else if lines.len() == 1 {
        lines[0]
    } else {
        join_lines(lines.drop_last()) + seq![10u8] + lines.last()
    }
}

/// The working lines `new` with hunk `h` reverted: its new lines replaced by the base
/// lines `old` that it covers.
pub open spec fn reverted_lines(old: Seq<Seq<u8>>, new: Seq<Seq<u8>>, h: HunkRange) -> Seq<Seq<u8>> {
    new.subrange(0, h.new_start as int) + old.subrange(h.old_start as int, h.old_end as int)
        + new.subrange(h.new_end as int, new.len() as int)
}

/// The rows whose flag is set, in order.
pub open spec fn hunk_rows_spec(flags: Seq<bool>) -> Seq<usize>
    decreases flags.len(),
{
    if flags.len() == 0 {
        Seq::empty()
    } else {
        let rest = hunk_rows_spec(flags.drop_last());
        if flags.last() {
            rest.push((flags.len() - 1) as usize)
        } else {
            rest
        }
    }
}

/// The row that "next change" jumps to from `anchor`: the first row below it, wrapping
/// to the first row.
pub open spec fn is_next_target(rows: Seq<usize>, anchor: int, t: usize) -> bool {
    ||| exists|j: int|
        0 <= j < rows.len() && rows[j] == t && t > anchor && forall|k: int|
            0 <= k < j ==> #[trigger] rows[k] <= anchor
    ||| (forall|k: int| 0 <= k < rows.len() ==> #[trigger] rows[k] <= anchor) && t == rows[0]
}

/// The row that "previous change" jumps to from `anchor`: the last row above it,
/// wrapping to the last row.
pub open spec fn is_prev_target(rows: Seq<usize>, anchor: int, t: usize) -> bool {
    ||| exists|j: int|
        0 <= j < rows.len() && rows[j] == t && t < anchor && forall|k: int|
            j < k < rows.len() ==> #[trigger] rows[k] >= anchor
    ||| (forall|k: int| 0 <= k < rows.len() ==> #[trigger] rows[k] >= anchor) && t == rows.last()
}

/// `n - m`, or 0 when `m` exceeds `n`.
pub open spec fn sat_sub(n: usize, m: usize) -> usize {
    if n >= m {
        (n - m) as usize
    } else {
        0
    }
}

/// The lines `v[from..to]` appended to `out`.
pub fn push_lines(out: &mut Vec<Vec<u8>>, v: &Vec<Vec<u8>>, from: usize, to: usize)
    requires
        from <= to <= v@.len(),
    ensures
        parts_view(final(out)@) == parts_view(old(out)@) + parts_view(v@).subrange(
            from as int,
            to as int,
        ),
{
    let ghost start = parts_view(out@);
    let mut i = from;
    while i < to
        invariant
            from <= i <= to <= v@.len(),
            parts_view(out@) == start + parts_view(v@).subrange(from as int, i as int),
        decreases to - i,
    {
        let line = copy_bytes(&v[i]);
        let ghost before = out@;
        out.push(line);
        assert(parts_view(out@) =~= parts_view(before).push(line@));
        assert(parts_view(v@).subrange(from as int, i + 1) =~= parts_view(v@).subrange(
            from as int,
            i as int,
        ).push(v@[i as int]@));
        i = i + 1;
    }
}

/// `lines` joined with `'\n'` between them.
pub fn join_lines_bytes(lines: &Vec<Vec<u8>>) -> (r: Vec<u8>)
    ensures
        r@ == join_lines(parts_view(lines@)),
{
    let mut out: Vec<u8> = Vec::new();
    let mut i: usize = 0;
    assert(parts_view(lines@.subrange(0, 0)) =~= Seq::<Seq<u8>>::empty());
    while i < lines.len()
        invariant
            i <= lines@.len(),
            out@ == join_lines(parts_view(lines@.subrange(0, i as int))),
        decreases lines@.len() - i,
    {
        let ghost prev = parts_view(lines@.subrange(0, i as int));
        let ghost next = parts_view(lines@.subrange(0, i + 1));
        assert(next.drop_last() =~= prev);
        assert(next.last() == lines@[i as int]@);
        if i > 0 {
            out.push(10u8);
        }
        let mut line = copy_bytes(&lines[i]);
        out.append(&mut line);
        assert(out@ =~= join_lines(next));
        i = i + 1;
    }
    assert(lines@.subrange(0, lines@.len() as int) =~= lines@);
    out
}

/// The rows flagged as the start of a hunk.
pub fn hunk_rows(flags: &Vec<bool>) -> (r: Vec<usize>)
    ensures
        r@ == hunk_rows_spec(flags@),
{
    let mut r: Vec<usize> = Vec::new();
    let mut i: usize = 0;
    while i < flags.len()
        invariant
            i <= flags@.len(),
            r@ == hunk_rows_spec(flags@.subrange(0, i as int)),
        decreases flags@.len() - i,
    {
        let ghost sub = flags@.subrange(0, i + 1);
        assert(sub.drop_last() =~= flags@.subrange(0, i as int));
        if flags[i] {
            r.push(i);
        }
        i = i + 1;
    }
    assert(flags@.subrange(0, flags@.len() as int) =~= flags@);
    r
}

/// The rows listed by [`hunk_rows_spec`] are exactly the flagged rows, in increasing order.
pub proof fn lemma_hunk_rows(flags: Seq<bool>)
    requires
        flags.len() <= usize::MAX,
    ensures
        forall|k: int|
            0 <= k < hunk_rows_spec(flags).len() ==> #[trigger] hunk_rows_spec(flags)[k]
                < flags.len() && flags[hunk_rows_spec(flags)[k] as int],
        forall|k: int, m: int|
            0 <= k < m < hunk_rows_spec(flags).len() ==> #[trigger] hunk_rows_spec(flags)[k]
                < #[trigger] hunk_rows_spec(flags)[m],
        forall|i: int|
            0 <= i < flags.len() && #[trigger] flags[i] ==> hunk_rows_spec(flags).contains(
                i as usize,
            ),
    decreases flags.len(),
{
    if flags.len() > 0 {
        let rest = flags.drop_last();
        lemma_hunk_rows(rest);
        let s = hunk_rows_spec(flags);
        let sr = hunk_rows_spec(rest);
        assert(forall|i: int| 0 <= i < rest.len() ==> #[trigger] rest[i] == flags[i]);
        if flags.last() {
            assert(s == sr.push((flags.len() - 1) as usize));
        } else {
            assert(s == sr);
        }
        assert forall|k: int| 0 <= k < s.len() implies #[trigger] s[k] < flags.len() && flags[
            s[k] as int] by {
            if k < sr.len() {
                assert(s[k] == sr[k]);
                assert(sr[k] < rest.len());
                assert(rest[sr[k] as int]);
            }
        }
        assert forall|i: int| 0 <= i < flags.len() && #[trigger] flags[i] implies s.contains(
            i as usize,
        ) by {
            if i < flags.len() - 1 {
                assert(rest[i]);
                assert(sr.contains(i as usize));
                let w = choose|w: int| 0 <= w < sr.len() && sr[w] == i as usize;
                assert(s[w] == i as usize);
            } else {
                assert(s.last() == i as usize);
            }
        }
        assert forall|k: int, m: int| 0 <= k < m < s.len() implies #[trigger] s[k] < #[trigger] s[m] by {
            if m < sr.len() {
                assert(s[k] == sr[k] && s[m] == sr[m]);
            } else {
                assert(s[k] == sr[k]);
                assert(sr[k] < rest.len());
            }
        }
    }
}

/// The target of a "next change" jump: the first row after `anchor`, wrapping to the
/// first row.
pub fn next_target(rows: &Vec<usize>, anchor: i64) -> (t: usize)
    requires
        rows@.len() > 0,
    ensures
        is_next_target(rows@, anchor as int, t),
{
    let mut j: usize = 0;
    while j < rows.len()
        invariant
            j <= rows@.len(),
            forall|k: int| 0 <= k < j ==> #[trigger] rows@[k] <= anchor,
        decreases rows@.len() - j,
    {
        let r = rows[j];
        let above = r as i128 > anchor as i128;
        if above {
            assert(rows@[j as int] == r && r > anchor);
            return r;
        }
        j = j + 1;
    }
    rows[0]
}

/// The target of a "previous change" jump: the last row before `anchor`, wrapping to
/// the last row.
pub fn prev_target(rows: &Vec<usize>, anchor: i64) -> (t: usize)
    requires
        rows@.len() > 0,
    ensures
        is_prev_target(rows@, anchor as int, t),
{
    let mut j: usize = rows.len();
    while j > 0
        invariant
            j <= rows@.len(),
            forall|k: int| j <= k < rows@.len() ==> #[trigger] rows@[k] >= anchor,
        decreases j,
    {
        let r = rows[j - 1];
        let below = (r as i128) < anchor as i128;
        if below {
            assert(rows@[j - 1] == r && r < anchor);
            return r;
        }
        j = j - 1;
    }
    rows[rows.len() - 1]
}

impl Kyde {
    /// The `»` gutter action: the working text with hunk `hi` reverted (its new lines
    /// replaced by the base lines), joined with `'\n'`. The host puts it in the editable
    /// pane and performs the returned effects: save and re-read status when a repository
    /// is open, then re-diff. Nothing happens (`None`, no effects) without a diff or a
    /// hunk `hi`.
    pub fn diff_revert_hunk(&self, hi: usize) -> (r: (Option<Vec<u8>>, Vec<Effect>))
        requires
            self.diff.current matches Some(d) ==> d.wf(),
        ensures
            match self.diff.current {
                Some(d) => if hi < d.hunks@.len() {
                    &&& r.0 matches Some(t) && t@ == join_lines(
                        reverted_lines(parts_view(d.old@), parts_view(d.new@), d.hunks@[hi as int]),
                    )
                    &&& r.1@ == if self.diff.path is Some && self.repo_root is Some {
                        seq![Effect::SaveDiffPane, Effect::Refresh, Effect::RediffPanes]
                    } else {
                        seq![Effect::RediffPanes]
                    }
                } else {
                    r.0 is None && r.1@.len() == 0
                },
                None => r.0 is None && r.1@.len() == 0,
            },
    {
        let mut effects: Vec<Effect> = Vec::new();
        match &self.diff.current {
            None => (None, effects),
            Some(d) => {
                if hi >= d.hunks.len() {
                    return (None, effects);
                }
                let h = d.hunks[hi];
                assert(crate::model::hunk_fits(h, d.old@.len() as int, d.new@.len() as int));
                let mut lines: Vec<Vec<u8>> = Vec::new();
                assert(parts_view(lines@) =~= Seq::<Seq<u8>>::empty());
                push_lines(&mut lines, &d.new, 0, h.new_start);
                push_lines(&mut lines, &d.old, h.old_start, h.old_end);
                push_lines(&mut lines, &d.new, h.new_end, d.new.len());
                proof {
                    let ov = parts_view(d.old@);
                    let nv = parts_view(d.new@);
                    assert(parts_view(lines@) =~= reverted_lines(ov, nv, h));
                }
                let content = join_lines_bytes(&lines);
                if self.diff.path.is_some() && self.repo_root.is_some() {
                    effects.push(Effect::SaveDiffPane);
                    effects.push(Effect::Refresh);
                }
                effects.push(Effect::RediffPanes);
                (Some(content), effects)
            },
        }
    }

    /// Live save of the editable pane: save it and re-read status when a repository is
    /// open, then re-diff. Nothing happens when the panes show no file.
    pub fn diff_autosave(&self) -> (effects: Vec<Effect>)
        ensures
            effects@ == if self.diff.path is None {
                Seq::<Effect>::empty()
            } else if self.repo_root is Some {
                seq![Effect::SaveDiffPane, Effect::Refresh, Effect::RediffPanes]
            } else {
                seq![Effect::RediffPanes]
            },
    {
        let mut effects: Vec<Effect> = Vec::new();
        if self.diff.path.is_none() {
            return effects;
        }
        if self.repo_root.is_some() {
            effects.push(Effect::SaveDiffPane);
            effects.push(Effect::Refresh);
        }
        effects.push(Effect::RediffPanes);
        effects
    }

    /// Store the re-computed diff of the working text and rebuild the commit view's
    /// selection (keeping the checks that are still changes).
    pub fn recompute_diff(&mut self, d: FileDiffModel)
        requires
            d.wf(),
            hunks_wf(old(self).commit.excluded_hunks@),
        ensures
            final(self).diff.current == Some(d),
            final(self).diff.path == old(self).diff.path,
            rebuilt(old(self).commit, final(self).commit, old(self).files@, false),
            final(self).files == old(self).files,
            final(self).mode == old(self).mode,
            final(self).selected == old(self).selected,
            *final(self) == (Kyde { diff: DiffState { current: final(self).diff.current, ..old(self).diff }, commit: final(self).commit, ..*old(self) }),
    {
        self.diff.current = Some(d);
        crate::commit::rebuild_commit_state(&mut self.commit, &self.files, false);
    }

    /// Show a freshly computed diff of `path` in the panes (`readonly` locks the working
    /// side). Returns the row to scroll to: the first hunk's first base line, less
    /// `context_rows` rows of context; `None` when nothing differs.
    pub fn load_diff_panes(
        &mut self,
        path: FsPath,
        readonly: bool,
        d: FileDiffModel,
        context_rows: usize,
    ) -> (scroll: Option<usize>)
        requires
            d.wf(),
        ensures
            opt_view(final(self).diff.path) == Some(path@),
            final(self).diff.readonly == readonly,
            final(self).diff.current == Some(d),
            scroll == if d.hunks@.len() > 0 {
                Some(sat_sub(d.hunks@[0].old_start, context_rows))
            } else {
                None::<usize>
            },
            final(self).files == old(self).files,
            final(self).commit == old(self).commit,
    {
        let scroll = if d.hunks.len() > 0 {
            let start = d.hunks[0].old_start;
            Some(if start >= context_rows {
                start - context_rows
            } else {
                0
            })
        } else {
            None
        };
        self.diff.path = Some(path);
        self.diff.readonly = readonly;
        self.diff.current = Some(d);
        scroll
    }

    /// The rows of the aligned layout on which each hunk begins (none without a diff).
    pub fn diff_hunk_rows(&self) -> (r: Vec<usize>)
        ensures
            r@ == match self.diff.current {
                Some(d) => hunk_rows_spec(d.row_starts_hunk@),
                None => Seq::<usize>::empty(),
            },
    {
        match &self.diff.current {
            Some(d) => hunk_rows(&d.row_starts_hunk),
            None => Vec::new(),
        }
    }

    /// Jump to the next (`next`) or previous change, wrapping around. `top` is the row at
    /// the top of the viewport; the anchor is `context_rows` below it, where a jump parks
    /// its hunk. Returns the row to scroll to (the target less the context rows), or
    /// `None` when the diff has no change.
    pub fn diff_nav_hunk(&self, next: bool, top: i64, context_rows: usize) -> (scroll: Option<usize>)
        requires
            context_rows <= i64::MAX,
            top + context_rows <= i64::MAX,
        ensures
            ({
                let rows = match self.diff.current {
                    Some(d) => hunk_rows_spec(d.row_starts_hunk@),
                    None => Seq::<usize>::empty(),
                };
                let anchor = top + context_rows;
                if rows.len() == 0 {
                    scroll is None
                } else {
                    exists|t: usize|
                        #![trigger sat_sub(t, context_rows)]
                        scroll == Some(sat_sub(t, context_rows)) && if next {
                            is_next_target(rows, anchor, t)
                        } else {
                            is_prev_target(rows, anchor, t)
                        }
                }
            }),
    {
        let rows = self.diff_hunk_rows();
        if rows.len() == 0 {
            return None;
        }
        let anchor: i64 = top + context_rows as i64;
        let t = if next {
            next_target(&rows, anchor)
        } else {
            prev_target(&rows, anchor)
        };
        let row = if t >= context_rows {
            t - context_rows
        } else {
            0
        };
        assert(Some(row) == Some(sat_sub(t, context_rows)));
        Some(row)
    }

    /// Alt+↓: jump to the next change.
    pub fn act_diff_next(&self, top: i64, context_rows: usize) -> (scroll: Option<usize>)
        requires
            context_rows <= i64::MAX,
            top + context_rows <= i64::MAX,
        ensures
            ({
                let rows = match self.diff.current {
                    Some(d) => hunk_rows_spec(d.row_starts_hunk@),
                    None => Seq::<usize>::empty(),
                };
                if rows.len() == 0 {
                    scroll is None
                } else {
                    exists|t: usize|
                        #![trigger sat_sub(t, context_rows)]
                        scroll == Some(sat_sub(t, context_rows)) && is_next_target(
                            rows,
                            top + context_rows,
                            t,
                        )
                }
            }),
    {
        self.diff_nav_hunk(true, top, context_rows)
    }

    /// Alt+↑: jump to the previous change.
    pub fn act_diff_prev(&self, top: i64, context_rows: usize) -> (scroll: Option<usize>)
        requires
            context_rows <= i64::MAX,
            top + context_rows <= i64::MAX,
        ensures
            ({
                let rows = match self.diff.current {
                    Some(d) => hunk_rows_spec(d.row_starts_hunk@),
                    None => Seq::<usize>::empty(),
                };
                if rows.len() == 0 {
                    scroll is None
                } else {
                    exists|t: usize|
                        #![trigger sat_sub(t, context_rows)]
                        scroll == Some(sat_sub(t, context_rows)) && is_prev_target(
                            rows,
                            top + context_rows,
                            t,
                        )
                }
            }),
    {
        self.diff_nav_hunk(false, top, context_rows)
    }

    /// Empty both diff panes and forget the shown file and its diff.
    pub fn clear_diff_panes(&mut self) -> (effects: Vec<Effect>)
        ensures
            final(self).diff.path is None,
            final(self).diff.current is None,
            final(self).diff.readonly == old(self).diff.readonly,
            effects@ == seq![Effect::ClearDiffPanes],
            *final(self) == (Kyde { diff: DiffState { path: None, current: None, ..old(self).diff }, ..*old(self) }),
    {
        self.diff.path = None;
        self.diff.current = None;
        let mut effects: Vec<Effect> = Vec::new();
        effects.push(Effect::ClearDiffPanes);
        effects
    }

    /// Leave the full-screen diff view.
    pub fn close_diff_view(&mut self)
        ensures
            *final(self) == (Kyde { diff_view_open: false, ..*old(self) }),
    {
        self.diff_view_open = false;
    }

    /// Commit → "Show Diff": select changed file `idx` (loading its diff), show the diff
    /// full-screen in the main window and close the rollback window.
    pub fn menu_show_diff(&mut self, idx: usize) -> (effects: Vec<Effect>)
        ensures
            final(self).selected == Some(idx),
            final(self).commit.focus@.len() == 0,
            final(self).diff_view_open,
            !final(self).menu_open,
            effects@ == if idx < old(self).files@.len() {
                seq![Effect::LoadDiffForSelected, Effect::CloseModal(ModalKind::Rollback)]
            } else {
                seq![Effect::CloseModal(ModalKind::Rollback)]
            },
            *final(self) == (Kyde { selected: Some(idx), menu_open: false, diff_view_open: true, commit: CommitState { focus: final(self).commit.focus, ..old(self).commit }, ..*old(self) }),
    {
        let mut effects = self.select_with(idx);
        self.menu_open = false;
        self.diff_view_open = true;
        effects.push(Effect::CloseModal(ModalKind::Rollback));
        effects
    }
}

} // verus!
