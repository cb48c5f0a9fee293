//! The in-editor find / replace bar: ASCII case-insensitive search for every
//! non-overlapping occurrence, cycling through the matches, and the replacements.
use vstd::prelude::*;
use crate::model::{Effect, FindState, FindTarget, Kyde, Mode, Span};
use crate::finder::{next_newline, find_newline};

verus! {

/// ASCII lower-casing of one byte.
pub open spec fn lower(b: u8) -> u8 {
    if 65 <= b <= 90 {
        (b + 32) as u8
    } else {
        b
    }
}

fn lower_byte(b: u8) -> (r: u8)
    ensures
        r == lower(b),
{
    if 65 <= b && b <= 90 {
        b + 32
    } else {
        b
    }
}

/// `needle` occurs (ignoring ASCII case) in `hay` at byte `i`.
#[verifier::opaque]
pub open spec fn match_at(hay: Seq<u8>, needle: Seq<u8>, i: int) -> bool {
    0 <= i && i + needle.len() <= hay.len() && forall|k: int|
        0 <= k < needle.len() ==> lower(#[trigger] hay[i + k]) == lower(needle[k])
}

/// The first occurrence at or after `from`.
#[verifier::opaque]
pub open spec fn next_match(hay: Seq<u8>, needle: Seq<u8>, from: int) -> Option<int> {
    if exists|i: int| from <= i && #[trigger] match_at(hay, needle, i) {
        Some(choose|i: int| from <= i && #[trigger] match_at(hay, needle, i) && forall|j: int| from <= j < i ==> !match_at(hay, needle, j))
    } else {
        None
    }
}

/// Every occurrence from `from` on, left to right, each search resuming after the
/// previous match (so matches never overlap).
pub open spec fn all_matches(hay: Seq<u8>, needle: Seq<u8>, from: int) -> Seq<(int, int)>
    decreases hay.len() - from,
{
    if needle.len() == 0 || from > hay.len() {
        Seq::empty()
    } else {
        match next_match(hay, needle, from) {
            Some(i) => if i >= from && i + needle.len() <= hay.len() {
                seq![(i, i + needle.len())] + all_matches(hay, needle, i + needle.len())
            } else {
                Seq::empty()
            },
            None => Seq::empty(),
        }
    }
}

/// The spans of the matches as `(start, end)` pairs.
pub open spec fn spans_view(v: Seq<Span>) -> Seq<(int, int)> {
    v.map_values(|s: Span| (s.start as int, s.end as int))
}

/// Whether `needle` occurs (ignoring ASCII case) at byte `i` of `hay`.
pub fn matches_at(hay: &Vec<u8>, needle: &Vec<u8>, i: usize) -> (r: bool)
    requires
        i + needle@.len() <= hay@.len(),
    ensures
        r == match_at(hay@, needle@, i as int),
{
    reveal(match_at);
    let mut k: usize = 0;
    assert(hay@.len() == hay.len());
    while k < needle.len()
        invariant
            k <= needle@.len(),
            i + needle@.len() <= hay@.len(),
            hay@.len() <= usize::MAX,
            forall|m: int| 0 <= m < k ==> lower(#[trigger] hay@[i + m]) == lower(needle@[m]),
        decreases needle@.len() - k,
    {
        if lower_byte(hay[i + k]) != lower_byte(needle[k]) {
            proof {
                reveal(match_at);
                assert(lower(hay@[i + k]) != lower(needle@[k as int]));
            }
            return false;
        }
        k = k + 1;
    }
    true
}

/// The first occurrence at or after `from` (see [`next_match`]).
pub fn find_from(hay: &Vec<u8>, needle: &Vec<u8>, from: usize) -> (r: Option<usize>)
    requires
        from <= hay@.len(),
    ensures
        match r {
            Some(i) => next_match(hay@, needle@, from as int) == Some(i as int),
            None => next_match(hay@, needle@, from as int) is None,
        },
{
    if needle.len() > hay.len() {
        assert forall|i: int| from <= i implies !#[trigger] match_at(hay@, needle@, i) by {
            reveal(match_at);
        }
        proof {
            reveal(next_match);
        }
        return None;
    }
    let last = hay.len() - needle.len();
    let mut i: usize = from;
    while i <= last
        invariant
            from <= i,
            i <= last || i == from,
            last + needle@.len() == hay@.len(),
            forall|j: int| from <= j < i ==> !#[trigger] match_at(hay@, needle@, j),
        decreases last - i,
    {
        if matches_at(hay, needle, i) {
            proof {
                reveal(next_match);
                lemma_first_match_exists(hay@, needle@, from as int, i as int);
                let w = choose|w: int| from <= w && #[trigger] match_at(hay@, needle@, w) && forall|j: int| from <= j < w ==> !match_at(hay@, needle@, j);
                if w < i {
                    assert(!match_at(hay@, needle@, w));
                }
                if w > i {
                    assert(!match_at(hay@, needle@, i as int));
                }
            }
            return Some(i);
        }
        if i == last {
            assert forall|j: int| from <= j implies !#[trigger] match_at(hay@, needle@, j) by {
                reveal(match_at);
                if j > last {
                    assert(j + needle@.len() > hay@.len());
                }
            }
            proof {
                reveal(next_match);
            }
            return None;
        }
        i = i + 1;
    }
    assert forall|j: int| from <= j implies !#[trigger] match_at(hay@, needle@, j) by {
        reveal(match_at);
        if j > last {
            assert(j + needle@.len() > hay@.len());
        }
    }
    proof {
        reveal(next_match);
    }
    None
}

pub proof fn lemma_first_match_exists(hay: Seq<u8>, needle: Seq<u8>, from: int, z: int)
    requires
        from <= z,
        match_at(hay, needle, z),
    ensures
        exists|i: int| from <= i && #[trigger] match_at(hay, needle, i) && forall|j: int| from <= j < i ==> !match_at(hay, needle, j),
    decreases z - from,
{
    if exists|j: int| from <= j < z && match_at(hay, needle, j) {
        let j = choose|j: int| from <= j < z && match_at(hay, needle, j);
        lemma_first_match_exists(hay, needle, from, j);
    } else {
        assert(forall|j: int| from <= j < z ==> !match_at(hay, needle, j));
    }
}

pub proof fn lemma_next_match_props(hay: Seq<u8>, needle: Seq<u8>, from: int)
    ensures
        next_match(hay, needle, from) matches Some(i) ==> from <= i && match_at(hay, needle, i) && i + needle.len() <= hay.len(),
{
    reveal(match_at);
    reveal(next_match);
    if exists|i: int| from <= i && #[trigger] match_at(hay, needle, i) {
        let z = choose|i: int| from <= i && #[trigger] match_at(hay, needle, i);
        lemma_first_match_exists(hay, needle, from, z);
    }
}

pub proof fn lemma_all_matches_step(hay: Seq<u8>, needle: Seq<u8>, from: int)
    requires
        needle.len() > 0,
        0 <= from <= hay.len(),
    ensures
        next_match(hay, needle, from) matches Some(s) ==> all_matches(hay, needle, from) == seq![(s, s + needle.len())] + all_matches(hay, needle, s + needle.len()),
        next_match(hay, needle, from) is None ==> all_matches(hay, needle, from) == Seq::<(int, int)>::empty(),
{
    lemma_next_match_props(hay, needle, from);
}

/// Every occurrence of `needle` in `hay` (see [`all_matches`]).
pub fn find_all(hay: &Vec<u8>, needle: &Vec<u8>) -> (r: Vec<Span>)
    ensures
        spans_view(r@) == all_matches(hay@, needle@, 0),
{
    let mut r: Vec<Span> = Vec::new();
    if needle.len() == 0 {
        assert(spans_view(r@) =~= Seq::<(int, int)>::empty());
        return r;
    }
    let mut from: usize = 0;
    while from <= hay.len()
        invariant
            needle@.len() > 0,
            from <= hay@.len() + needle@.len(),
            spans_view(r@) + all_matches(hay@, needle@, from as int) == all_matches(hay@, needle@, 0),
        decreases hay@.len() + 1 - from,
    {
        proof {
            lemma_all_matches_step(hay@, needle@, from as int);
            lemma_next_match_props(hay@, needle@, from as int);
        }
        match find_from(hay, needle, from) {
            Some(s) => {
                let e = s + needle.len();
                let ghost r0 = spans_view(r@);
                let ghost rest = all_matches(hay@, needle@, e as int);
                r.push(Span { start: s, end: e });
                assert(spans_view(r@) =~= r0.push((s as int, e as int)));
                assert(r0.push((s as int, e as int)) + rest =~= r0 + (seq![(s as int, e as int)] + rest));
                from = e;
            },
            None => {
                assert(spans_view(r@) + Seq::<(int, int)>::empty() =~= spans_view(r@));
                return r;
            },
        }
    }
    assert(all_matches(hay@, needle@, from as int) =~= Seq::<(int, int)>::empty());
    assert(spans_view(r@) + Seq::<(int, int)>::empty() =~= spans_view(r@));
    r
}

/// How many `'\n'` the first `n` bytes of `t` hold: the 0-based line of byte `n`.
pub open spec fn nl_count(t: Seq<u8>, n: int) -> nat
    decreases n,
{
    if n <= 0 {
        0
    } else {
        nl_count(t, n - 1) + if t[n - 1] == 10u8 {
            1nat
        } else {
            0nat
        }
    }
}

/// Where the line holding byte `n` of `t` starts: just past the last `'\n'` before `n`.
pub open spec fn line_start_at(t: Seq<u8>, n: int) -> int
    decreases n,
{
    if n <= 0 {
        0
    } else if t[n - 1] == 10u8 {
        n
    } else {
        line_start_at(t, n - 1)
    }
}

/// A match as the editor paints it: its line and its columns within that line.
pub struct LineSpan {
    pub line: usize,
    pub start: usize,
    pub end: usize,
}

/// The line of match `m` of `t` and its byte columns in that line; a match running past
/// the line's end is cut there.
pub open spec fn line_span_spec(t: Seq<u8>, m: (int, int)) -> (int, int, int) {
    let ls = line_start_at(t, m.0);
    let le = match next_newline(t, ls) {
        Some(k) => k,
        None => t.len() as int,
    };
    (nl_count(t, m.0) as int, m.0 - ls, (if m.1 < le { m.1 } else { le }) - ls)
}

/// Each match of `content` (in order) as a line and the columns to paint in it.
pub fn find_highlights(content: &Vec<u8>, matches: &Vec<Span>) -> (r: Vec<LineSpan>)
    requires
        forall|i: int|
            0 <= i < matches@.len() ==> #[trigger] matches@[i].start <= matches@[i].end <= content@.len(),
    ensures
        r@.len() == matches@.len(),
        forall|i: int|
            0 <= i < r@.len() ==> ((#[trigger] r@[i]).line as int, r@[i].start as int, r@[i].end as int)
                == line_span_spec(content@, (matches@[i].start as int, matches@[i].end as int)),
{
    let mut r: Vec<LineSpan> = Vec::new();
    let cl: usize = content.len();
    let mut j: usize = 0;
    while j < matches.len()
        invariant
            cl == content@.len(),
            j <= matches@.len(),
            r@.len() == j,
            forall|i: int|
                0 <= i < matches@.len() ==> #[trigger] matches@[i].start <= matches@[i].end <= content@.len(),
            forall|i: int|
                0 <= i < j ==> ((#[trigger] r@[i]).line as int, r@[i].start as int, r@[i].end as int)
                    == line_span_spec(content@, (matches@[i].start as int, matches@[i].end as int)),
        decreases matches@.len() - j,
    {
        let m = &matches[j];
        assert(matches@[j as int].start <= matches@[j as int].end <= content@.len());
        let mut line: usize = 0;
        let mut ls: usize = 0;
        let mut k: usize = 0;
        while k < m.start
            invariant
                m.start <= m.end <= content@.len(),
                k <= m.start,
                line == nl_count(content@, k as int),
                ls == line_start_at(content@, k as int),
                line <= k,
                ls <= k,
            decreases m.start - k,
        {
            if content[k] == 10u8 {
                line = line + 1;
                ls = k + 1;
            }
            k = k + 1;
        }
        let found = find_newline(content, ls);
        let ghost nx = next_newline(content@, ls as int);
        let le = match found {
            Some(x) => {
                assert(nx is Some);
                assert(x as int == nx->0);
                x
            },
            None => {
                assert(nx is None);
                cl
            },
        };
        let stop = if m.end < le {
            m.end
        } else {
            le
        };
        r.push(LineSpan { line, start: m.start - ls, end: stop - ls });
        j = j + 1;
    }
    r
}

impl Kyde {
    /// The match highlights to paint, given the target editor's `content`: only the file
    /// editor shows them (the diff panes already use that layer for the word diff); the
    /// current match is selected in every target.
    pub fn apply_find_highlight(&self, content: &Vec<u8>) -> (r: Option<Vec<LineSpan>>)
        requires
            forall|i: int|
                0 <= i < self.find.matches@.len() ==> #[trigger] self.find.matches@[i].start
                    <= self.find.matches@[i].end <= content@.len(),
        ensures
            self.find.target == FindTarget::File <==> r is Some,
            r matches Some(v) ==> v@.len() == self.find.matches@.len() && forall|i: int|
                0 <= i < v@.len() ==> ((#[trigger] v@[i]).line as int, v@[i].start as int, v@[i].end as int)
                    == line_span_spec(content@, (self.find.matches@[i].start as int, self.find.matches@[i].end as int)),
    {
        if self.find.target == FindTarget::File {
            Some(find_highlights(content, &self.find.matches))
        } else {
            None
        }
    }
}

/// The editors' read-only state, which decides whether replace is offered.
pub struct EditorFlags {
    pub diff_left_focused: bool,
    pub file_read_only: bool,
    pub left_read_only: bool,
    pub right_read_only: bool,
}

pub open spec fn target_read_only(flags: EditorFlags, t: FindTarget) -> bool {
    match t {
        FindTarget::File => flags.file_read_only,
        FindTarget::DiffLeft => flags.left_read_only,
        FindTarget::DiffRight => flags.right_read_only,
    }
}

/// The next match index, wrapping around.
pub open spec fn next_index(idx: usize, len: usize) -> int {
    (idx + 1) % (len as int)
}

/// The previous match index, wrapping around.
pub open spec fn prev_index(idx: usize, len: usize) -> int {
    (idx + len - 1) % (len as int)
}

impl Kyde {
    /// ⌘F: open the find bar.
    pub fn act_find(&mut self, flags: EditorFlags) -> (effects: Vec<Effect>)
        ensures
            (old(self).diff_view_open || (old(self).mode == Mode::Browse && old(self).browse.open_path is Some)) ==> final(self).find.open && !final(self).find.replace,
            *final(self) == (Kyde { find: final(self).find, ..*old(self) }),
    {
        self.open_find(false, flags)
    }

    /// ⌘R: open the find bar with replace (when the target is editable).
    pub fn act_replace(&mut self, flags: EditorFlags) -> (effects: Vec<Effect>)
        ensures
            (old(self).diff_view_open || (old(self).mode == Mode::Browse && old(self).browse.open_path is Some)) ==> final(self).find.open
                && final(self).find.replace == !target_read_only(flags, final(self).find.target),
            *final(self) == (Kyde { find: final(self).find, ..*old(self) }),
    {
        self.open_find(true, flags)
    }

    /// The editor the find bar acts on.
    pub fn find_ed(&self) -> (r: FindTarget)
        ensures
            r == self.find.target,
    {
        self.find.target
    }

    /// Open the find bar on the Show-Diff view's focused pane (the working pane unless the
    /// base pane has focus) or on the Browse editor with a file open; elsewhere nothing
    /// happens. Replace is offered only on an editable target.
    pub fn open_find(&mut self, replace: bool, flags: EditorFlags) -> (effects: Vec<Effect>)
        ensures
            old(self).diff_view_open ==> final(self).find.target == if flags.diff_left_focused {
                FindTarget::DiffLeft
            } else {
                FindTarget::DiffRight
            },
            !old(self).diff_view_open && old(self).mode == Mode::Browse && old(self).browse.open_path is Some ==> final(self).find.target == FindTarget::File,
            (old(self).diff_view_open || (old(self).mode == Mode::Browse && old(self).browse.open_path is Some)) ==> {
                &&& final(self).find.open
                &&& final(self).find.replace == (replace && !target_read_only(flags, final(self).find.target))
                &&& effects@ == seq![Effect::RecomputeFind, Effect::FocusFindQuery]
            },
            !(old(self).diff_view_open || (old(self).mode == Mode::Browse && old(self).browse.open_path is Some)) ==> *final(self) == *old(self) && effects@.len() == 0,
            *final(self) == (Kyde { find: final(self).find, ..*old(self) }),
    {
        let target = if self.diff_view_open {
            if flags.diff_left_focused {
                FindTarget::DiffLeft
            } else {
                FindTarget::DiffRight
            }
        } else if self.mode == Mode::Browse && self.browse.open_path.is_some() {
            FindTarget::File
        } else {
            return Vec::new();
        };
        self.find.target = target;
        self.find.open = true;
        let ro = match target {
            FindTarget::File => flags.file_read_only,
            FindTarget::DiffLeft => flags.left_read_only,
            FindTarget::DiffRight => flags.right_read_only,
        };
        self.find.replace = replace && !ro;
        let mut effects: Vec<Effect> = Vec::new();
        effects.push(Effect::RecomputeFind);
        effects.push(Effect::FocusFindQuery);
        effects
    }

    /// Close the find bar and drop its matches; the file editor's highlights clear (the
    /// diff panes keep theirs, which are the word-level diff marks).
    pub fn close_find(&mut self) -> (effects: Vec<Effect>)
        ensures
            !final(self).find.open,
            final(self).find.matches@.len() == 0,
            effects@ == if old(self).find.target == FindTarget::File {
                seq![Effect::ClearFindHighlight, Effect::FocusFindTarget]
            } else {
                seq![Effect::FocusFindTarget]
            },
            *final(self) == (Kyde { find: FindState { open: false, matches: final(self).find.matches, ..old(self).find }, ..*old(self) }),
    {
        self.find.open = false;
        self.find.matches = Vec::new();
        let mut effects: Vec<Effect> = Vec::new();
        if self.find.target == FindTarget::File {
            effects.push(Effect::ClearFindHighlight);
        }
        effects.push(Effect::FocusFindTarget);
        effects
    }

    /// Recompute the matches of `query` in the target's `content`: every non-overlapping
    /// ASCII case-insensitive occurrence (none for an empty query or one longer than the
    /// text). The current match resets to the first when out of range.
    pub fn recompute_find(&mut self, query: &Vec<u8>, content: &Vec<u8>) -> (effects: Vec<Effect>)
        ensures
            spans_view(final(self).find.matches@) == if query@.len() > 0 && query@.len() <= content@.len() {
                all_matches(content@, query@, 0)
            } else {
                Seq::<(int, int)>::empty()
            },
            final(self).find.idx == if old(self).find.idx >= final(self).find.matches@.len() {
                0
            } else {
                old(self).find.idx
            },
            effects@ == seq![Effect::SelectFindMatch],
            *final(self) == (Kyde { find: FindState { idx: final(self).find.idx, matches: final(self).find.matches, ..old(self).find }, ..*old(self) }),
    {
        if query.len() > 0 && query.len() <= content.len() {
            self.find.matches = find_all(content, query);
        } else {
            self.find.matches = Vec::new();
            assert(spans_view(self.find.matches@) =~= Seq::<(int, int)>::empty());
        }
        if self.find.idx >= self.find.matches.len() {
            self.find.idx = 0;
        }
        let mut effects: Vec<Effect> = Vec::new();
        effects.push(Effect::SelectFindMatch);
        effects
    }

    /// Move to the next match, wrapping around.
    pub fn find_next(&mut self) -> (effects: Vec<Effect>)
        ensures
            old(self).find.matches@.len() == 0 ==> *final(self) == *old(self) && effects@.len() == 0,
            old(self).find.matches@.len() > 0 ==> final(self).find.idx == next_index(old(self).find.idx, old(self).find.matches@.len() as usize)
                && effects@ == seq![Effect::SelectFindMatch],
            final(self).find.matches == old(self).find.matches,
    {
        let n = self.find.matches.len();
        if n == 0 {
            return Vec::new();
        }
        self.find.idx = ((self.find.idx % n) + 1) % n;
        proof {
            let i = old(self).find.idx as int;
            let m = n as int;
            assert(((i % m) + 1) % m == (i + 1) % m) by (nonlinear_arith)
                requires m > 0;
        }
        let mut effects: Vec<Effect> = Vec::new();
        effects.push(Effect::SelectFindMatch);
        effects
    }

    /// Move to the previous match, wrapping around.
    pub fn find_prev(&mut self) -> (effects: Vec<Effect>)
        ensures
            old(self).find.matches@.len() == 0 ==> *final(self) == *old(self) && effects@.len() == 0,
            old(self).find.matches@.len() > 0 ==> final(self).find.idx == prev_index(old(self).find.idx, old(self).find.matches@.len() as usize)
                && effects@ == seq![Effect::SelectFindMatch],
            final(self).find.matches == old(self).find.matches,
    {
        let n = self.find.matches.len();
        if n == 0 {
            return Vec::new();
        }
        let r = self.find.idx % n;
        self.find.idx = if r == 0 { n - 1 } else { r - 1 };
        proof {
            let i = old(self).find.idx as int;
            let m = n as int;
            let rr = i % m;
            assert(0 <= rr < m) by (nonlinear_arith)
                requires m > 0, rr == i % m, i >= 0;
            assert((i + m - 1) % m == (rr + m - 1) % m) by (nonlinear_arith)
                requires m > 0, rr == i % m, i >= 0;
            if rr == 0 {
                assert((m - 1) % m == m - 1) by (nonlinear_arith)
                    requires m > 0;
            } else {
                assert((rr + m - 1) % m == rr - 1) by (nonlinear_arith)
                    requires m > 0, 0 < rr < m;
            }
        }
        let mut effects: Vec<Effect> = Vec::new();
        effects.push(Effect::SelectFindMatch);
        effects
    }

    /// Replace the current match with the replacement text: the range the host replaces
    /// (then the matches are recomputed); `None` when there is no current match.
    pub fn replace_one(&self) -> (r: Option<Span>)
        ensures
            self.find.idx < self.find.matches@.len() ==> r == Some(self.find.matches@[self.find.idx as int]),
            self.find.idx >= self.find.matches@.len() ==> r is None,
    {
        if self.find.idx < self.find.matches.len() {
            Some(self.find.matches[self.find.idx])
        } else {
            None
        }
    }

    /// Replace every match: the ranges in the order the host replaces them, right to left
    /// so the earlier ranges stay valid.
    pub fn replace_all(&self) -> (r: Vec<Span>)
        ensures
            r@ == self.find.matches@.reverse(),
    {
        let mut r: Vec<Span> = Vec::new();
        let n = self.find.matches.len();
        let mut k: usize = 0;
        while k < n
            invariant
                k <= n,
                n == self.find.matches@.len(),
                r@ == self.find.matches@.reverse().subrange(0, k as int),
            decreases n - k,
        {
            r.push(self.find.matches[n - 1 - k]);
            k = k + 1;
            assert(r@ =~= self.find.matches@.reverse().subrange(0, k as int));
        }
        assert(r@ =~= self.find.matches@.reverse());
        r
    }
}

/// Stepping forward then back returns to the same match.
pub proof fn law_find_next_prev(idx: usize, len: usize)
    requires
        len > 0,
        idx < len,
    ensures
        prev_index(next_index(idx, len) as usize, len) == idx,
{
    let i = idx as int;
    let m = len as int;
    let n = (i + 1) % m;
    assert(0 <= n < m) by (nonlinear_arith)
        requires m > 0, n == (i + 1) % m, i >= 0;
    if i + 1 < m {
        assert(n == i + 1) by (nonlinear_arith)
            requires n == (i + 1) % m, 0 <= i + 1 < m;
        assert((n + m - 1) % m == i) by (nonlinear_arith)
            requires n == i + 1, 0 <= i < m, m > 0;
    } else {
        assert(n == 0) by (nonlinear_arith)
            requires n == (i + 1) % m, i + 1 == m, m > 0;
        assert((n + m - 1) % m == m - 1) by (nonlinear_arith)
            requires n == 0, m > 0;
    }
}

/// Every match found is an occurrence, and the matches are ordered and never overlap.
pub proof fn law_matches_are_occurrences(hay: Seq<u8>, needle: Seq<u8>, from: int)
    requires
        0 <= from,
    ensures
        forall|k: int| 0 <= k < all_matches(hay, needle, from).len() ==> {
            let m = #[trigger] all_matches(hay, needle, from)[k];
            &&& match_at(hay, needle, m.0)
            &&& m.1 == m.0 + needle.len()
            &&& from <= m.0
        },
        forall|k: int| 0 <= k < all_matches(hay, needle, from).len() - 1 ==> all_matches(hay, needle, from)[k].1 <= all_matches(hay, needle, from)[k + 1].0,
    decreases hay.len() - from,
{
    if needle.len() == 0 || from > hay.len() {
    } else {
        match next_match(hay, needle, from) {
            Some(i) => if i >= from && i + needle.len() <= hay.len() {
                lemma_next_match_props(hay, needle, from);
                lemma_all_matches_step(hay, needle, from);
                law_matches_are_occurrences(hay, needle, i + needle.len());
                let rest = all_matches(hay, needle, i + needle.len());
                let all = all_matches(hay, needle, from);
                assert(all == seq![(i, i + needle.len())] + rest);
                assert forall|k: int| 0 <= k < all.len() implies {
                    let m = #[trigger] all[k];
                    &&& match_at(hay, needle, m.0)
                    &&& m.1 == m.0 + needle.len()
                    &&& from <= m.0
                } by {
                    if k > 0 {
                        assert(all[k] == rest[k - 1]);
                    }
                }
                assert forall|k: int| 0 <= k < all.len() - 1 implies all[k].1 <= all[k + 1].0 by {
                    if k == 0 {
                        if rest.len() > 0 {
                            assert(all[1] == rest[0]);
                        }
                    } else {
                        assert(all[k] == rest[k - 1]);
                        assert(all[k + 1] == rest[k]);
                    }
                }
            } else {
            },
            None => {},
        }
    }
}

} // verus!
