//! The finder overlay: go to file, find in files, the command palette and the scratch
//! language picker — opening it per mode, confirming a row, running a palette action,
//! and jumping to a matched line.
use vstd::prelude::*;
use vstd::string::StrSliceExecFns;
use vstd::string::StringSliceAdditionalSpecFns;
use crate::bytes::copy_bytes;
use crate::path::{FsPath, paths_view, root_v};
use crate::branch_list::{trim_bytes, trimmed};
use crate::model::{Kyde, Effect, ModalKind, Mode, FinderMode, FinderState, ContentHit, BrowseState};
use crate::browse::opt_view;
use crate::path::display_v;
use crate::commit::rollback_opened;
use fuzzy_matcher::FuzzyMatcher;

verus! {

/// The command palette's actions.
#[derive(Clone, Copy, PartialEq, Eq, Structural, Debug)]
pub enum PaletteAction {
    GoToFile,
    FindInFiles,
    NewScratch,
    CommitView,
    BrowseView,
    SelectInTree,
    Rollback,
    Settings,
    RevealInFinder,
    RevealInTerminal,
    Plugins,
    Fonts,
    SortLines,
    SortKeys,
    NavBack,
    NavForward,
}

/// The finder input's placeholder per mode.
pub open spec fn placeholder_spec(mode: FinderMode) -> Seq<u8> {
    match mode {
        FinderMode::Files => "Type to search files…".spec_bytes(),
        FinderMode::Content => "Type to search file contents…".spec_bytes(),
        FinderMode::Actions => "Type to search actions…".spec_bytes(),
        FinderMode::Scratch => "Pick a language…".spec_bytes(),
    }
}

/// See [`placeholder_spec`].
pub fn finder_placeholder(mode: FinderMode) -> (r: Vec<u8>)
    ensures
        r@ == placeholder_spec(mode),
{
    match mode {
        FinderMode::Files => "Type to search files…".as_bytes_vec(),
        FinderMode::Content => "Type to search file contents…".as_bytes_vec(),
        FinderMode::Actions => "Type to search actions…".as_bytes_vec(),
        FinderMode::Scratch => "Pick a language…".as_bytes_vec(),
    }
}

/// The first `'\n'` of `t` at or after `from`.
#[verifier::opaque]
pub open spec fn next_newline(t: Seq<u8>, from: int) -> Option<int> {
    if exists|i: int| from <= i < t.len() && t[i] == 10u8 {
        Some(choose|i: int| from <= i < t.len() && t[i] == 10u8 && forall|k: int| from <= k < i ==> t[k] != 10u8)
    } else {
        None
    }
}

/// Where line `n` (0-based) of `t` starts: just past the `n`-th `'\n'`, or the end of
/// the text when it has fewer lines.
pub open spec fn line_start(t: Seq<u8>, n: nat) -> int
    decreases n,
{
    if n == 0 {
        0
    } else {
        let prev = line_start(t, (n - 1) as nat);
        match next_newline(t, prev) {
            Some(k) => k + 1,
            None => t.len() as int,
        }
    }
}

/// The byte range of line `n` of `t`, without its `'\n'`.
pub open spec fn line_range_spec(t: Seq<u8>, n: nat) -> (int, int) {
    let s = line_start(t, n);
    match next_newline(t, s) {
        Some(k) => (s, k),
        None => (s, t.len() as int),
    }
}

/// Every line starts within the text.
pub proof fn lemma_line_start_bounds(t: Seq<u8>, n: nat)
    ensures
        0 <= line_start(t, n) <= t.len(),
    decreases n,
{
    if n > 0 {
        lemma_line_start_bounds(t, (n - 1) as nat);
        let prev = line_start(t, (n - 1) as nat);
        reveal(next_newline);
        if exists|i: int| prev <= i < t.len() && t[i] == 10u8 {
            lemma_first_newline(t, prev);
        }
    }
}

/// When a newline follows `from`, a first one does.
pub proof fn lemma_first_newline(t: Seq<u8>, from: int)
    requires
        exists|i: int| from <= i < t.len() && t[i] == 10u8,
    ensures
        exists|i: int| from <= i < t.len() && t[i] == 10u8 && forall|k: int| from <= k < i ==> t[k] != 10u8,
{
    let z = choose|i: int| from <= i < t.len() && t[i] == 10u8;
    lemma_first_newline_below(t, from, z);
}

proof fn lemma_first_newline_below(t: Seq<u8>, from: int, z: int)
    requires
        from <= z < t.len(),
        t[z] == 10u8,
    ensures
        exists|i: int| from <= i < t.len() && t[i] == 10u8 && forall|k: int| from <= k < i ==> t[k] != 10u8,
    decreases z - from,
{
    if forall|k: int| from <= k < z ==> t[k] != 10u8 {
    } else {
        let w = choose|k: int| from <= k < z && t[k] == 10u8;
        lemma_first_newline_below(t, from, w);
    }
}

/// The first `'\n'` at or after `from` (see [`next_newline`]).
pub fn find_newline(t: &Vec<u8>, from: usize) -> (r: Option<usize>)
    requires
        from <= t@.len(),
    ensures
        match next_newline(t@, from as int) {
            Some(k) => from <= k < t@.len() && r == Some(k as usize),
            None => r is None,
        },
{
    let mut i = from;
    while i < t.len()
        invariant
            from <= i <= t@.len(),
            forall|k: int| from <= k < i ==> t@[k] != 10u8,
        decreases t@.len() - i,
    {
        if t[i] == 10u8 {
            proof {
                reveal(next_newline);
                lemma_first_newline(t@, from as int);
                let j = choose|j: int| from <= j < t@.len() && t@[j] == 10u8 && forall|k: int| from <= k < j ==> t@[k] != 10u8;
                if j < i {
                    assert(t@[j] != 10u8);
                }
                if j > i {
                    assert(t@[i as int] != 10u8);
                }
            }
            return Some(i);
        }
        i = i + 1;
    }
    proof {
        reveal(next_newline);
    }
    None
}

/// The byte range `(start, end)` of line `line0` (0-based) of `text`, without its
/// `'\n'`; past the last line it is the empty range at the end.
pub fn line_range(text: &Vec<u8>, line0: usize) -> (r: (usize, usize))
    ensures
        r.0 as int == line_range_spec(text@, line0 as nat).0,
        r.1 as int == line_range_spec(text@, line0 as nat).1,
{
    let tl = text.len();
    let mut start: usize = 0;
    let mut n: usize = 0;
    while n < line0
        invariant
            n <= line0,
            tl == text@.len(),
            start as int == line_start(text@, n as nat),
            start <= text@.len(),
        decreases line0 - n,
    {
        let found = find_newline(text, start);
        let ghost nx = next_newline(text@, start as int);
        assert(line_start(text@, (n + 1) as nat) == match nx {
            Some(k) => k + 1,
            None => text@.len() as int,
        });
        match found {
            Some(k) => {
                assert(nx is Some);
                start = k + 1;
            },
            None => {
                assert(nx is None);
                start = tl;
            },
        }
        n = n + 1;
    }
    let found = find_newline(text, start);
    let ghost nx = next_newline(text@, start as int);
    assert(line_range_spec(text@, line0 as nat) == match nx {
        Some(k) => (start as int, k),
        None => (start as int, text@.len() as int),
    });
    match found {
        Some(k) => {
            assert(nx is Some);
            (start, k)
        },
        None => {
            assert(nx is None);
            (start, tl)
        },
    }
}

impl Kyde {
    /// Open the finder in `mode` with a cleared query (the host clears the input and shows
    /// the mode's placeholder) and compute its results: the host answers
    /// [`Effect::RecomputeFinder`] with [`Kyde::recompute_finder`] on the empty query,
    /// which lists every candidate in order.
    pub fn open_finder(&mut self, mode: FinderMode) -> (effects: Vec<Effect>)
        ensures
            final(self).finder.mode == mode,
            final(self).finder.open,
            final(self).finder.selected == 0,
            effects@ == seq![Effect::FocusFinderQuery, Effect::RecomputeFinder],
            *final(self) == (Kyde {
                finder: FinderState { mode: mode, open: true, selected: 0, ..old(self).finder },
                ..*old(self)
            }),
    {
        self.finder.mode = mode;
        self.finder.open = true;
        self.finder.selected = 0;
        let mut effects: Vec<Effect> = Vec::new();
        effects.push(Effect::FocusFinderQuery);
        effects.push(Effect::RecomputeFinder);
        effects
    }

    /// ⌘P: go to file.
    pub fn act_go_to_file(&mut self) -> (effects: Vec<Effect>)
        ensures
            final(self).finder.mode == FinderMode::Files && final(self).finder.open,
            effects@ == seq![Effect::FocusFinderQuery, Effect::RecomputeFinder],
            *final(self) == (Kyde { finder: FinderState { mode: FinderMode::Files, open: true, selected: 0, ..old(self).finder }, ..*old(self) }),
    {
        self.open_finder(FinderMode::Files)
    }

    /// ⌘⇧F: find in files.
    pub fn act_find_in_files(&mut self) -> (effects: Vec<Effect>)
        ensures
            final(self).finder.mode == FinderMode::Content && final(self).finder.open,
            effects@ == seq![Effect::FocusFinderQuery, Effect::RecomputeFinder],
            *final(self) == (Kyde { finder: FinderState { mode: FinderMode::Content, open: true, selected: 0, ..old(self).finder }, ..*old(self) }),
    {
        self.open_finder(FinderMode::Content)
    }

    /// ⌘⇧A: the command palette.
    pub fn act_actions(&mut self) -> (effects: Vec<Effect>)
        ensures
            final(self).finder.mode == FinderMode::Actions && final(self).finder.open,
            effects@ == seq![Effect::FocusFinderQuery, Effect::RecomputeFinder],
            *final(self) == (Kyde { finder: FinderState { mode: FinderMode::Actions, open: true, selected: 0, ..old(self).finder }, ..*old(self) }),
    {
        self.open_finder(FinderMode::Actions)
    }

    /// New scratch file: pick its language in the finder.
    pub fn act_new_scratch(&mut self) -> (effects: Vec<Effect>)
        ensures
            final(self).finder.mode == FinderMode::Scratch && final(self).finder.open,
            effects@ == seq![Effect::FocusFinderQuery, Effect::RecomputeFinder],
            *final(self) == (Kyde { finder: FinderState { mode: FinderMode::Scratch, open: true, selected: 0, ..old(self).finder }, ..*old(self) }),
    {
        self.open_finder(FinderMode::Scratch)
    }

    /// How many rows the finder lists in its current mode: the bound that moving the
    /// selection down stays within.
    pub fn finder_results_len(&self) -> (n: usize)
        ensures
            n == match self.finder.mode {
                FinderMode::Files => self.finder.results@.len(),
                FinderMode::Content => self.finder.content_results@.len(),
                FinderMode::Actions | FinderMode::Scratch => self.finder.action_results@.len(),
            },
    {
        match self.finder.mode {
            FinderMode::Files => self.finder.results.len(),
            FinderMode::Content => self.finder.content_results.len(),
            FinderMode::Actions | FinderMode::Scratch => self.finder.action_results.len(),
        }
    }

    /// Escape: close the finder.
    pub fn finder_close(&mut self) -> (effects: Vec<Effect>)
        ensures
            !final(self).finder.open,
            final(self).finder.mode == old(self).finder.mode,
            effects@ == seq![Effect::FocusRoot],
            *final(self) == (Kyde { finder: FinderState { open: false, ..old(self).finder }, ..*old(self) }),
    {
        self.finder.open = false;
        let mut effects: Vec<Effect> = Vec::new();
        effects.push(Effect::FocusRoot);
        effects
    }

    /// Run a palette action (the finder closes, unless the action reopens it in another
    /// mode).
    #[verifier::rlimit(100)]
    pub fn run_palette(&mut self, a: PaletteAction) -> (effects: Vec<Effect>)
        ensures
            match a {
                PaletteAction::GoToFile => final(self).finder.open && final(self).finder.mode == FinderMode::Files
                    && effects@ == seq![Effect::FocusFinderQuery, Effect::RecomputeFinder],
                PaletteAction::FindInFiles => final(self).finder.open && final(self).finder.mode
                    == FinderMode::Content && effects@ == seq![Effect::FocusFinderQuery, Effect::RecomputeFinder],
                PaletteAction::NewScratch => final(self).finder.open && final(self).finder.mode
                    == FinderMode::Scratch && effects@ == seq![Effect::FocusFinderQuery, Effect::RecomputeFinder],
                PaletteAction::CommitView => !final(self).finder.open && effects@ == seq![Effect::EnterCommit],
                PaletteAction::BrowseView => !final(self).finder.open && final(self).mode == Mode::Browse
                    && effects@ == seq![Effect::FocusRoot],
                PaletteAction::SelectInTree => !final(self).finder.open && effects@ == seq![Effect::FocusRoot]
                    + if old(self).browse.open_path is Some || old(self).browse.selected_path is Some {
                    seq![Effect::ScrollTreeRow]
                } else {
                    Seq::<Effect>::empty()
                },
                PaletteAction::Rollback => !final(self).finder.open && effects@.len() >= 1 && effects@[0]
                    == Effect::FocusRoot && rollback_opened(*old(self), *final(self), root_v(), effects@.drop_first())
                    && final(self).files == old(self).files,
                PaletteAction::Settings => !final(self).finder.open && final(self).onboarding.open
                    && final(self).onboarding.choice == old(self).keymap_preset && effects@ == seq![Effect::FocusRoot],
                PaletteAction::RevealInFinder => !final(self).finder.open && effects@ == seq![Effect::FocusRoot]
                    + if old(self).browse.open_path is Some || old(self).browse.selected_path is Some {
                    seq![Effect::RevealInOs]
                } else {
                    Seq::<Effect>::empty()
                },
                PaletteAction::RevealInTerminal => !final(self).finder.open && effects@ == seq![Effect::FocusRoot]
                    + if old(self).browse.open_path is Some || old(self).browse.selected_path is Some {
                    seq![Effect::RevealInTerminal]
                } else {
                    Seq::<Effect>::empty()
                },
                PaletteAction::Plugins => !final(self).finder.open && effects@ == seq![
                    Effect::OpenModal(ModalKind::Plugins),
                ],
                PaletteAction::Fonts => !final(self).finder.open && effects@ == seq![
                    Effect::OpenModal(ModalKind::Fonts),
                ],
                PaletteAction::SortLines => !final(self).finder.open && effects@ == seq![Effect::FocusRoot]
                    + if old(self).mode == Mode::Browse && old(self).browse.open_path is Some {
                    seq![Effect::SortLines]
                } else {
                    Seq::<Effect>::empty()
                },
                PaletteAction::SortKeys => !final(self).finder.open && effects@ == seq![Effect::FocusRoot]
                    + if old(self).mode == Mode::Browse && old(self).browse.open_path is Some {
                    seq![Effect::SortKeys]
                } else {
                    Seq::<Effect>::empty()
                },
                PaletteAction::NavBack => !final(self).finder.open && effects@ == seq![
                    Effect::FocusRoot,
                    Effect::NavBack,
                ],
                PaletteAction::NavForward => !final(self).finder.open && effects@ == seq![
                    Effect::FocusRoot,
                    Effect::NavForward,
                ],
            },
    {
        self.finder.open = false;
        let mut effects: Vec<Effect> = Vec::new();
        match a {
            PaletteAction::GoToFile => {
                return self.open_finder(FinderMode::Files);
            },
            PaletteAction::FindInFiles => {
                return self.open_finder(FinderMode::Content);
            },
            PaletteAction::NewScratch => {
                return self.open_finder(FinderMode::Scratch);
            },
            PaletteAction::CommitView => {
                effects.push(Effect::EnterCommit);
            },
            PaletteAction::BrowseView => {
                self.mode = Mode::Browse;
                effects.push(Effect::FocusRoot);
            },
            PaletteAction::SelectInTree => {
                return self.palette_select_in_tree();
            },
            PaletteAction::Rollback => {
                return self.palette_rollback();
            },
            PaletteAction::Settings => {
                self.onboarding.choice = self.keymap_preset;
                self.onboarding.open = true;
                effects.push(Effect::FocusRoot);
            },
            PaletteAction::RevealInFinder => {
                effects.push(Effect::FocusRoot);
                if self.browse.open_path.is_some() || self.browse.selected_path.is_some() {
                    effects.push(Effect::RevealInOs);
                }
            },
            PaletteAction::RevealInTerminal => {
                effects.push(Effect::FocusRoot);
                if self.browse.open_path.is_some() || self.browse.selected_path.is_some() {
                    effects.push(Effect::RevealInTerminal);
                }
            },
            PaletteAction::Plugins => {
                effects.push(Effect::OpenModal(ModalKind::Plugins));
            },
            PaletteAction::Fonts => {
                effects.push(Effect::OpenModal(ModalKind::Fonts));
            },
            PaletteAction::SortLines => {
                effects.push(Effect::FocusRoot);
                if self.mode == Mode::Browse && self.browse.open_path.is_some() {
                    effects.push(Effect::SortLines);
                }
            },
            PaletteAction::SortKeys => {
                effects.push(Effect::FocusRoot);
                if self.mode == Mode::Browse && self.browse.open_path.is_some() {
                    effects.push(Effect::SortKeys);
                }
            },
            PaletteAction::NavBack => {
                effects.push(Effect::FocusRoot);
                effects.push(Effect::NavBack);
            },
            PaletteAction::NavForward => {
                effects.push(Effect::FocusRoot);
                effects.push(Effect::NavForward);
            },
        }
        self.finder.open = false;
        effects
    }

    /// The palette's "Select Opened File in Tree".
    fn palette_select_in_tree(&mut self) -> (effects: Vec<Effect>)
        ensures
            !final(self).finder.open,
            effects@ == seq![Effect::FocusRoot] + if old(self).browse.open_path is Some
                || old(self).browse.selected_path is Some {
                seq![Effect::ScrollTreeRow]
            } else {
                Seq::<Effect>::empty()
            },
    {
        let mut effects: Vec<Effect> = Vec::new();
        effects.push(Effect::FocusRoot);
        let mut r = self.reveal_in_tree();
        effects.append(&mut r);
        self.finder.open = false;
        effects
    }

    /// The palette's "Rollback": the rollback window over every change.
    fn palette_rollback(&mut self) -> (effects: Vec<Effect>)
        ensures
            !final(self).finder.open,
            effects@.len() >= 1 && effects@[0] == Effect::FocusRoot,
            rollback_opened(*old(self), *final(self), root_v(), effects@.drop_first()),
            final(self).files == old(self).files,
    {
        let mut effects: Vec<Effect> = Vec::new();
        effects.push(Effect::FocusRoot);
        let mut r = self.open_rollback_path(FsPath::root());
        let ghost tail = r@;
        effects.append(&mut r);
        assert(effects@.drop_first() =~= tail);
        self.finder.open = false;
        effects
    }

    /// Open `rel` in Browse to select line `line` (1-based) there. Returns the 0-based
    /// line; the host selects its range (see [`line_range`]) once the file is loaded and
    /// scrolls it near the top.
    pub fn open_file_at_line(&mut self, rel: FsPath, line: u32) -> (r: (Vec<Effect>, usize))
        ensures
            final(self).mode == Mode::Browse,
            opt_view(final(self).browse.open_path) == Some(rel@),
            r.0@ == seq![Effect::LoadOpenFile, Effect::ScrollTabIntoView, Effect::LoadFontPreview, Effect::FocusRoot],
            r.1 == if line == 0 {
                0
            } else {
                line - 1
            },
            *final(self) == (Kyde { mode: final(self).mode, browse: BrowseState { open_tabs: final(self).browse.open_tabs, preview_tab: final(self).browse.preview_tab, open_path: final(self).browse.open_path, selected_path: final(self).browse.selected_path, ..old(self).browse }, ..*old(self) }),
    {
        let mut effects = self.open_file(rel);
        self.mode = Mode::Browse;
        effects.push(Effect::FocusRoot);
        let line0: u32 = if line == 0 {
            0
        } else {
            line - 1
        };
        (effects, line0 as usize)
    }

    /// Enter in the finder: open the selected file (files mode), jump to the selected
    /// match (content mode, returning its 0-based line), run the selected palette action
    /// (`palette[i]` is the action of palette row `i`), or create a scratch file of the
    /// selected language (`exts[i]` is language `i`'s extension, returned). Without a
    /// selection the finder just closes.
    #[verifier::rlimit(40)]
    pub fn finder_confirm(&mut self, palette: &Vec<PaletteAction>, exts: &Vec<Vec<u8>>) -> (r: (
        Vec<Effect>,
        Option<usize>,
        Option<Vec<u8>>,
    ))
        requires
            old(self).finder.mode == FinderMode::Actions ==> forall|k: int|
                0 <= k < old(self).finder.action_results@.len() ==> #[trigger] old(self).finder.action_results@[k]
                    < palette@.len(),
            old(self).finder.mode == FinderMode::Scratch ==> forall|k: int|
                0 <= k < old(self).finder.action_results@.len() ==> #[trigger] old(self).finder.action_results@[k]
                    < exts@.len(),
        ensures
            ({
                let sel = old(self).finder.selected;
                match old(self).finder.mode {
                    FinderMode::Files => {
                        &&& !final(self).finder.open
                        &&& if sel < old(self).finder.results@.len() {
                            &&& final(self).mode == Mode::Browse
                            &&& opt_view(final(self).browse.open_path) == Some(old(self).finder.results@[sel as int]@)
                            &&& r.0@ == seq![
                                Effect::LoadOpenFile,
                                Effect::ScrollTabIntoView,
                                Effect::LoadFontPreview,
                                Effect::FocusRoot,
                            ]
                        } else {
                            r.0@ == seq![Effect::FocusRoot]
                        }
                        &&& r.1 is None && r.2 is None
                    },
                    FinderMode::Content => {
                        &&& !final(self).finder.open
                        &&& if sel < old(self).finder.content_results@.len() {
                            let hit = old(self).finder.content_results@[sel as int];
                            &&& final(self).mode == Mode::Browse
                            &&& opt_view(final(self).browse.open_path) == Some(hit.path@)
                            &&& r.1 == Some(
                                if hit.line == 0 {
                                    0usize
                                } else {
                                    (hit.line - 1) as usize
                                },
                            )
                        } else {
                            r.0@ == seq![Effect::FocusRoot] && r.1 is None
                        }
                        &&& r.2 is None
                    },
                    FinderMode::Actions => if sel < old(self).finder.action_results@.len() {
                        r.1 is None && r.2 is None
                    } else {
                        !final(self).finder.open && r.0@ == seq![Effect::FocusRoot] && r.1 is None && r.2 is None
                    },
                    FinderMode::Scratch => {
                        &&& !final(self).finder.open
                        &&& r.1 is None
                        &&& if sel < old(self).finder.action_results@.len() && old(self).repo_root is Some {
                            &&& r.0@ == seq![Effect::FocusRoot, Effect::CreateScratch]
                            &&& r.2 matches Some(e) && e@ == exts@[old(self).finder.action_results@[sel as int] as int]@
                        } else {
                            r.0@ == seq![Effect::FocusRoot] && r.2 is None
                        }
                    },
                }
            }),
    {
        let sel = self.finder.selected;
        match self.finder.mode {
            FinderMode::Files => {
                let mut effects: Vec<Effect> = Vec::new();
                if sel < self.finder.results.len() {
                    let p = self.finder.results[sel].duplicate();
                    effects = self.open_file(p);
                    self.mode = Mode::Browse;
                }
                self.finder.open = false;
                effects.push(Effect::FocusRoot);
                (effects, None, None)
            },
            FinderMode::Content => {
                if sel < self.finder.content_results.len() {
                    let p = self.finder.content_results[sel].path.duplicate();
                    let line = self.finder.content_results[sel].line;
                    self.finder.open = false;
                    let (effects, line0) = self.open_file_at_line(p, line);
                    self.finder.open = false;
                    (effects, Some(line0), None)
                } else {
                    self.finder.open = false;
                    let mut effects: Vec<Effect> = Vec::new();
                    effects.push(Effect::FocusRoot);
                    (effects, None, None)
                }
            },
            FinderMode::Actions => {
                if sel < self.finder.action_results.len() {
                    let i = self.finder.action_results[sel];
                    let a = palette[i];
                    let effects = self.run_palette(a);
                    (effects, None, None)
                } else {
                    self.finder.open = false;
                    let mut effects: Vec<Effect> = Vec::new();
                    effects.push(Effect::FocusRoot);
                    (effects, None, None)
                }
            },
            FinderMode::Scratch => {
                let ext = if sel < self.finder.action_results.len() {
                    let i = self.finder.action_results[sel];
                    Some(copy_bytes(&exts[i]))
                } else {
                    None
                };
                self.finder.open = false;
                let mut effects: Vec<Effect> = Vec::new();
                effects.push(Effect::FocusRoot);
                match ext {
                    Some(e) => {
                        if self.repo_root.is_some() {
                            effects.push(Effect::CreateScratch);
                            (effects, None, Some(e))
                        } else {
                            (effects, None, None)
                        }
                    },
                    None => (effects, None, None),
                }
            },
        }
    }

    /// A keystroke in find-in-files (`query`: the typed text): start a new search
    /// generation, reset the selection, and clear the hits at once when the query (white
    /// space cut at both ends) is shorter than `min_len` (it would match nearly every
    /// line); otherwise search for it in the background, when a project is open. Returns
    /// the effects and the query to search for.
    pub fn schedule_content_search(&mut self, query: &Vec<u8>, min_len: usize) -> (r: (Vec<Effect>, Vec<u8>))
        ensures
            r.1@ == trimmed(query@),
            final(self).finder.search_gen == (if old(self).finder.search_gen == u64::MAX {
                0
            } else {
                old(self).finder.search_gen + 1
            }),
            final(self).finder.selected == 0,
            if trimmed(query@).len() < min_len {
                final(self).finder.content_results@.len() == 0 && r.0@.len() == 0
            } else {
                &&& final(self).finder.content_results == old(self).finder.content_results
                &&& r.0@ == if old(self).repo_root is Some {
                    seq![Effect::SearchContent]
                } else {
                    Seq::<Effect>::empty()
                }
            },
            *final(self) == (Kyde { finder: FinderState { content_results: final(self).finder.content_results, search_gen: final(self).finder.search_gen, selected: final(self).finder.selected, ..old(self).finder }, ..*old(self) }),
    {
        let q = trim_bytes(query);
        self.finder.search_gen = if self.finder.search_gen == u64::MAX {
            0
        } else {
            self.finder.search_gen + 1
        };
        self.finder.selected = 0;
        let mut effects: Vec<Effect> = Vec::new();
        if q.len() < min_len {
            self.finder.content_results = Vec::new();
            return (effects, q);
        }
        if self.repo_root.is_some() {
            effects.push(Effect::SearchContent);
        }
        (effects, q)
    }

    /// Whether the search of generation `generation` is still the latest (a newer
    /// keystroke supersedes it, and it is skipped).
    pub fn content_search_current(&self, generation: u64) -> (r: bool)
        ensures
            r == (generation == self.finder.search_gen),
    {
        generation == self.finder.search_gen
    }

    /// Hits of search `generation` arrive: shown only when it is still the latest search
    /// and the finder is still open on find-in-files.
    pub fn content_search_done(&mut self, generation: u64, hits: Vec<ContentHit>)
        ensures
            if generation == old(self).finder.search_gen && old(self).finder.open && old(self).finder.mode
                == FinderMode::Content {
                final(self).finder.content_results == hits
            } else {
                final(self).finder.content_results == old(self).finder.content_results
            },
            final(self).finder.search_gen == old(self).finder.search_gen,
            *final(self) == (Kyde { finder: FinderState { content_results: final(self).finder.content_results, ..old(self).finder }, ..*old(self) }),
    {
        if generation == self.finder.search_gen && self.finder.open && self.finder.mode == FinderMode::Content {
            self.finder.content_results = hits;
        }
    }
}


/// The score that `fuzzy_matcher::skim::SkimMatcherV2::default()` gives `choice` for
/// `pattern` (both read as UTF-8): `None` when it does not match.
pub uninterp spec fn skim_score(choice: Seq<u8>, pattern: Seq<u8>) -> Option<i64>;

/// `SkimMatcherV2::default().fuzzy_match(choice, pattern)`, both read as UTF-8 (invalid
/// sequences replaced). The contract names its result and states what the crate's source
/// shows plainly: an empty pattern matches everything with score 0. How the score is
/// computed (a smart-case, gap-penalised alignment) is not stated.
#[verifier::external_body]
fn fuzzy_score(choice: &Vec<u8>, pattern: &Vec<u8>) -> (r: Option<i64>)
    ensures
        r == skim_score(choice@, pattern@),
        pattern@.len() == 0 ==> r == Some(0i64),
{
    let matcher = fuzzy_matcher::skim::SkimMatcherV2::default();
    matcher.fuzzy_match(&String::from_utf8_lossy(choice), &String::from_utf8_lossy(pattern))
}

/// Whether candidate `i` ranks before candidate `j` (both scored): a higher score first,
/// equal scores in list order.
pub open spec fn precedes(s: Seq<Option<i64>>, i: int, j: int) -> bool {
    s[i]->0 > s[j]->0 || (s[i]->0 == s[j]->0 && i < j)
}

/// `r` lists the best `cap` scored candidates of `s` (`None`: not a match), best first:
/// only scored candidates, in ranking order, no more than `cap`, every candidate left out
/// ranking after all of them, and all of them when fewer than `cap` are listed.
pub open spec fn is_ranking(s: Seq<Option<i64>>, cap: usize, r: Seq<usize>) -> bool {
    &&& forall|k: int| 0 <= k < r.len() ==> #[trigger] r[k] < s.len() && s[r[k] as int] is Some
    &&& forall|k: int, m: int| 0 <= k < m < r.len() ==> precedes(s, #[trigger] r[k] as int, #[trigger] r[m] as int)
    &&& r.len() <= cap
    &&& forall|i: int|
        0 <= i < s.len() && #[trigger] s[i] is Some && !r.contains(i as usize) ==> forall|k: int|
            0 <= k < r.len() ==> precedes(s, #[trigger] r[k] as int, i)
    &&& r.len() < cap ==> forall|i: int| 0 <= i < s.len() && #[trigger] s[i] is Some ==> r.contains(i as usize)
}

/// The best `cap` scored candidates, best first, equal scores in list order (see
/// [`is_ranking`]).
pub fn rank_scores(scores: &Vec<Option<i64>>, cap: usize) -> (r: Vec<usize>)
    ensures
        is_ranking(scores@, cap, r@),
{
    let n = scores.len();
    let mut taken: Vec<bool> = Vec::new();
    let mut t: usize = 0;
    while t < n
        invariant
            t <= n,
            n == scores@.len(),
            taken@.len() == t,
            forall|k: int| 0 <= k < t ==> !#[trigger] taken@[k],
        decreases n - t,
    {
        taken.push(false);
        t = t + 1;
    }
    let ghost s = scores@;
    let mut r: Vec<usize> = Vec::new();
    let mut done = false;
    while r.len() < cap && !done
        invariant
            n == s.len(),
            s == scores@,
            taken@.len() == n,
            forall|i: int| 0 <= i < n ==> (#[trigger] taken@[i] <==> r@.contains(i as usize)),
            forall|k: int| 0 <= k < r@.len() ==> #[trigger] r@[k] < s.len() && s[r@[k] as int] is Some,
            forall|k: int, m: int| 0 <= k < m < r@.len() ==> precedes(s, #[trigger] r@[k] as int, #[trigger] r@[m] as int),
            r@.len() <= cap,
            forall|i: int|
                0 <= i < s.len() && #[trigger] s[i] is Some && !r@.contains(i as usize) ==> forall|k: int|
                    0 <= k < r@.len() ==> precedes(s, #[trigger] r@[k] as int, i),
            done ==> forall|i: int| 0 <= i < s.len() && #[trigger] s[i] is Some ==> r@.contains(i as usize),
        decreases n - r@.len(), if done { 0int } else { 1int },
    {
        let mut best: Option<usize> = None;
        let mut i: usize = 0;
        while i < n
            invariant
                i <= n,
                n == s.len(),
                s == scores@,
                taken@.len() == n,
                match best {
                    Some(b) => b < i && !taken@[b as int] && s[b as int] is Some && forall|k: int|
                        0 <= k < i && !taken@[k] && #[trigger] s[k] is Some ==> k == b || precedes(s, b as int, k),
                    None => forall|k: int| 0 <= k < i ==> taken@[k] || #[trigger] s[k] is None,
                },
            decreases n - i,
        {
            if !taken[i] {
                match scores[i] {
                    Some(v) => {
                        match best {
                            None => {
                                best = Some(i);
                            },
                            Some(b) => {
                                let bv = match scores[b] {
                                    Some(x) => x,
                                    None => 0,
                                };
                                if v > bv {
                                    best = Some(i);
                                }
                            },
                        }
                    },
                    None => {},
                }
            }
            i = i + 1;
        }
        match best {
            None => {
                done = true;
                proof {
                    assert forall|j: int| 0 <= j < s.len() && #[trigger] s[j] is Some implies r@.contains(j as usize) by {
                        assert(taken@[j]);
                    }
                }
            },
            Some(b) => {
                proof {
                    // The remaining candidates are not all taken, so fewer than n are listed.
                    assert(!r@.contains(b));
                    lemma_listed_fewer(s, r@, b as int);
                }
                let ghost old_r = r@;
                r.push(b);
                taken.set(b, true);
                proof {
                    assert forall|i: int| 0 <= i < n implies (#[trigger] taken@[i] <==> r@.contains(i as usize)) by {
                        if i == b {
                            assert(r@[old_r.len() as int] == b);
                        } else {
                            if old_r.contains(i as usize) {
                                let k = choose|k: int| 0 <= k < old_r.len() && old_r[k] == i as usize;
                                assert(r@[k] == i as usize);
                            }
                            if r@.contains(i as usize) {
                                let k = choose|k: int| 0 <= k < r@.len() && r@[k] == i as usize;
                                assert(k < old_r.len());
                                assert(old_r[k] == i as usize);
                            }
                        }
                    }
                    assert forall|k: int, m: int| 0 <= k < m < r@.len() implies precedes(s, #[trigger] r@[k] as int, #[trigger] r@[m] as int) by {
                        if m == old_r.len() {
                            assert(r@[k] == old_r[k]);
                            assert(s[b as int] is Some && !old_r.contains(b));
                        } else {
                            assert(r@[k] == old_r[k] && r@[m] == old_r[m]);
                        }
                    }
                    assert forall|i: int|
                        0 <= i < s.len() && #[trigger] s[i] is Some && !r@.contains(i as usize) implies forall|k: int|
                            0 <= k < r@.len() ==> precedes(s, #[trigger] r@[k] as int, i) by {
                        assert(!old_r.contains(i as usize)) by {
                            if old_r.contains(i as usize) {
                                let k = choose|k: int| 0 <= k < old_r.len() && old_r[k] == i as usize;
                                assert(r@[k] == i as usize);
                            }
                        }
                        assert(i != b as int) by {
                            assert(r@[old_r.len() as int] == b);
                        }
                        assert(!taken@[i] || i == b as int);
                        assert forall|k: int| 0 <= k < r@.len() implies precedes(s, #[trigger] r@[k] as int, i) by {
                            if k < old_r.len() {
                                assert(r@[k] == old_r[k]);
                            } else {
                                assert(r@[k] == b);
                            }
                        }
                    }
                    assert forall|k: int| 0 <= k < r@.len() implies #[trigger] r@[k] < s.len() && s[r@[k] as int] is Some by {
                        if k < old_r.len() {
                            assert(r@[k] == old_r[k]);
                        }
                    }
                }
            },
        }
    }
    r
}

/// Distinct candidates that leave one out are fewer than all the candidates.
proof fn lemma_listed_fewer(s: Seq<Option<i64>>, r: Seq<usize>, b: int)
    requires
        0 <= b < s.len(),
        s.len() <= usize::MAX,
        !r.contains(b as usize),
        forall|k: int| 0 <= k < r.len() ==> #[trigger] r[k] < s.len(),
        forall|k: int, m: int| 0 <= k < m < r.len() ==> precedes(s, #[trigger] r[k] as int, #[trigger] r[m] as int),
        forall|k: int| 0 <= k < r.len() ==> s[#[trigger] r[k] as int] is Some,
    ensures
        r.len() < s.len(),
{
    let f = |k: int| r[k] as int;
    assert forall|k: int, m: int| 0 <= k < r.len() && 0 <= m < r.len() && k != m implies r[k] != r[m] by {
        if k < m {
            assert(precedes(s, r[k] as int, r[m] as int));
        } else {
            assert(precedes(s, r[m] as int, r[k] as int));
        }
    }
    let set = r.to_set();
    r.unique_seq_to_set();
    let bound = Set::new(|x: usize| x < s.len() && x != b as usize);
    assert(set.subset_of(bound)) by {
        assert forall|x: usize| set.contains(x) implies bound.contains(x) by {
            let k = choose|k: int| 0 <= k < r.len() && r[k] == x;
            assert(r[k] < s.len());
        }
    }
    lemma_bound_len(s.len(), b as usize);
    vstd::set_lib::lemma_len_subset(set, bound);
}

/// The numbers below `n` other than `b` number `n - 1`.
proof fn lemma_bound_len(n: nat, b: usize)
    requires
        b < n,
        n <= usize::MAX + 1,
    ensures
        Set::new(|x: usize| x < n && x != b).finite(),
        Set::new(|x: usize| x < n && x != b).len() == n - 1,
{
    let full = Set::new(|x: usize| x < n);
    assert(full =~= Set::new(|x: int| 0 <= x < n).map(|x: int| x as usize)) by {
        assert forall|x: usize| full.contains(x) implies Set::new(|x: int| 0 <= x < n).map(|x: int| x as usize).contains(x) by {
            assert(Set::new(|x: int| 0 <= x < n).contains(x as int));
        }
    }
    lemma_usize_range(n);
    assert(Set::new(|x: usize| x < n && x != b) =~= full.remove(b));
}

/// The numbers below `n` (as `usize`) are finite and number `n`.
proof fn lemma_usize_range(n: nat)
    requires
        n <= usize::MAX + 1,
    ensures
        Set::new(|x: usize| x < n).finite(),
        Set::new(|x: usize| x < n).len() == n,
    decreases n,
{
    if n == 0 {
        assert(Set::new(|x: usize| x < n) =~= Set::<usize>::empty());
    } else {
        lemma_usize_range((n - 1) as nat);
        assert(Set::new(|x: usize| x < n) =~= Set::new(|x: usize| x < (n - 1) as nat).insert((n - 1) as usize));
    }
}


/// The score of a candidate text for query `q`: every candidate scores 0 for an empty
/// query.
pub open spec fn score_for(text: Seq<u8>, q: Seq<u8>) -> Option<i64> {
    if q.len() == 0 {
        Some(0i64)
    } else {
        skim_score(text, q)
    }
}

/// Whether a palette action needs a file (the open or the selected one).
pub open spec fn needs_file(a: PaletteAction) -> bool {
    a == PaletteAction::RevealInFinder || a == PaletteAction::RevealInTerminal
}

/// The scores of the project's files for `q`.
pub open spec fn file_scores(files: Seq<FsPath>, q: Seq<u8>) -> Seq<Option<i64>> {
    Seq::new(files.len(), |i: int| score_for(display_v(files[i]@), q))
}

/// The scores of the palette's actions for `q`; without a file, the actions that need one
/// are left out.
pub open spec fn action_scores(palette: Seq<(Vec<u8>, PaletteAction)>, have_file: bool, q: Seq<u8>) -> Seq<Option<i64>> {
    Seq::new(
        palette.len(),
        |i: int|
            if !have_file && needs_file(palette[i].1) {
                None
            } else {
                score_for(palette[i].0@, q)
            },
    )
}

/// The scores of labels for `q`.
pub open spec fn label_scores(labels: Seq<Vec<u8>>, q: Seq<u8>) -> Seq<Option<i64>> {
    Seq::new(labels.len(), |i: int| score_for(labels[i]@, q))
}

/// See [`score_for`].
fn score_text(text: &Vec<u8>, q: &Vec<u8>) -> (r: Option<i64>)
    ensures
        r == score_for(text@, q@),
{
    if q.len() == 0 {
        Some(0)
    } else {
        fuzzy_score(text, q)
    }
}


/// The first `min(cap, n)` positions, in order.
pub open spec fn first_positions(n: nat, cap: usize) -> Seq<usize> {
    Seq::new(if n < cap { n } else { cap as nat }, |k: int| k as usize)
}

/// When every candidate scores the same, the ranking is the candidates in list order, the
/// first `cap` of them.
pub proof fn lemma_equal_scores_rank_in_order(s: Seq<Option<i64>>, cap: usize, r: Seq<usize>, c: i64)
    requires
        s.len() <= usize::MAX,
        forall|i: int| 0 <= i < s.len() ==> #[trigger] s[i] == Some(c),
        is_ranking(s, cap, r),
    ensures
        r == first_positions(s.len(), cap),
{
    let t = first_positions(s.len(), cap);
    let m = t.len();
    assert forall|k: int| 0 <= k < t.len() implies #[trigger] t[k] < s.len() && s[t[k] as int] is Some by {
        assert(t[k] == k as usize);
    }
    assert forall|k: int, j: int| 0 <= k < j < t.len() implies precedes(s, #[trigger] t[k] as int, #[trigger] t[j] as int) by {
        assert(t[k] == k as usize && t[j] == j as usize);
    }
    assert forall|i: int|
        0 <= i < s.len() && #[trigger] s[i] is Some && !t.contains(i as usize) implies forall|k: int|
            0 <= k < t.len() ==> precedes(s, #[trigger] t[k] as int, i) by {
        if i < m {
            assert(t[i] == i as usize);
        }
        assert forall|k: int| 0 <= k < t.len() implies precedes(s, #[trigger] t[k] as int, i) by {
            assert(t[k] == k as usize);
        }
    }
    assert forall|i: int| t.len() < cap && 0 <= i < s.len() && #[trigger] s[i] is Some implies t.contains(i as usize) by {
        assert(t[i] == i as usize);
    }
    law_ranking_unique(s, cap, r, t);
}

impl Kyde {
    /// Recompute the finder's results for `query`, the selection back on the first row:
    /// the project's files ranked by how well their paths match (the best `cap`), the
    /// palette actions (`palette`: each action's label) or scratch languages (`labels`)
    /// ranked by their labels, every candidate in list order for an empty query. In
    /// find-in-files an empty query clears the hits, else the host searches.
    pub fn recompute_finder(
        &mut self,
        query: &Vec<u8>,
        palette: &Vec<(Vec<u8>, PaletteAction)>,
        labels: &Vec<Vec<u8>>,
        cap: usize,
    ) -> (effects: Vec<Effect>)
        ensures
            final(self).finder.selected == 0,
            final(self).finder.mode == old(self).finder.mode,
            match old(self).finder.mode {
                FinderMode::Files => {
                    &&& effects@.len() == 0
                    &&& exists|r: Seq<usize>|
                        is_ranking(file_scores(old(self).browse.all_files@, query@), cap, r) && final(self).finder.results@.len()
                            == r.len() && forall|k: int|
                            0 <= k < r.len() ==> (#[trigger] final(self).finder.results@[k])@ == old(self).browse.all_files@[r[k] as int]@
                    &&& query@.len() == 0 ==> paths_view(final(self).finder.results@) == paths_view(old(self).browse.all_files@).take(
                        if old(self).browse.all_files@.len() < cap { old(self).browse.all_files@.len() as int } else { cap as int },
                    )
                },
                FinderMode::Actions => effects@.len() == 0 && is_ranking(
                    action_scores(
                        palette@,
                        old(self).browse.open_path is Some || old(self).browse.selected_path is Some,
                        query@,
                    ),
                    palette@.len() as usize,
                    final(self).finder.action_results@,
                ),
                FinderMode::Scratch => effects@.len() == 0 && is_ranking(
                    label_scores(labels@, query@),
                    labels@.len() as usize,
                    final(self).finder.action_results@,
                ),
                FinderMode::Content => if query@.len() == 0 {
                    final(self).finder.content_results@.len() == 0 && effects@.len() == 0
                } else {
                    effects@ == seq![Effect::SearchContent]
                },
            },
    {
        self.finder.selected = 0;
        let mut effects: Vec<Effect> = Vec::new();
        match self.finder.mode {
            FinderMode::Files => {
                let mut scores: Vec<Option<i64>> = Vec::new();
                let mut i: usize = 0;
                while i < self.browse.all_files.len()
                    invariant
                        i <= self.browse.all_files@.len(),
                        scores@ == file_scores(self.browse.all_files@, query@).subrange(0, i as int),
                    decreases self.browse.all_files@.len() - i,
                {
                    let d = self.browse.all_files[i].display_bytes();
                    scores.push(score_text(&d, query));
                    i = i + 1;
                    assert(scores@ =~= file_scores(self.browse.all_files@, query@).subrange(0, i as int));
                }
                assert(scores@ =~= file_scores(self.browse.all_files@, query@));
                let r = rank_scores(&scores, cap);
                let mut results: Vec<FsPath> = Vec::new();
                let mut k: usize = 0;
                while k < r.len()
                    invariant
                        k <= r@.len(),
                        results@.len() == k,
                        is_ranking(file_scores(self.browse.all_files@, query@), cap, r@),
                        forall|j: int| 0 <= j < k ==> (#[trigger] results@[j])@ == self.browse.all_files@[r@[j] as int]@,
                    decreases r@.len() - k,
                {
                    assert(r@[k as int] < file_scores(self.browse.all_files@, query@).len());
                    results.push(self.browse.all_files[r[k]].duplicate());
                    k = k + 1;
                }
                proof {
                    if query@.len() == 0 {
                        let sc = file_scores(self.browse.all_files@, query@);
                        lemma_equal_scores_rank_in_order(sc, cap, r@, 0i64);
                        let n = self.browse.all_files@.len();
                        let m = if n < cap { n as int } else { cap as int };
                        assert(paths_view(results@) =~= paths_view(self.browse.all_files@).take(m)) by {
                            assert forall|j: int| 0 <= j < m implies paths_view(results@)[j] == paths_view(
                                self.browse.all_files@,
                            ).take(m)[j] by {
                                assert(r@[j] == first_positions(n, cap)[j]);
                                assert(results@[j]@ == self.browse.all_files@[r@[j] as int]@);
                            }
                        }
                    }
                }
                self.finder.results = results;
            },
            FinderMode::Actions => {
                let have_file = self.browse.open_path.is_some() || self.browse.selected_path.is_some();
                let ghost hf = have_file;
                let mut scores: Vec<Option<i64>> = Vec::new();
                let mut i: usize = 0;
                while i < palette.len()
                    invariant
                        i <= palette@.len(),
                        have_file == hf,
                        scores@ == action_scores(palette@, hf, query@).subrange(0, i as int),
                    decreases palette@.len() - i,
                {
                    let a = palette[i].1;
                    let skip = !have_file && (a == PaletteAction::RevealInFinder || a == PaletteAction::RevealInTerminal);
                    if skip {
                        scores.push(None);
                    } else {
                        scores.push(score_text(&palette[i].0, query));
                    }
                    i = i + 1;
                    assert(scores@ =~= action_scores(palette@, hf, query@).subrange(0, i as int));
                }
                assert(scores@ =~= action_scores(palette@, hf, query@));
                self.finder.action_results = rank_scores(&scores, palette.len());
            },
            FinderMode::Scratch => {
                let mut scores: Vec<Option<i64>> = Vec::new();
                let mut i: usize = 0;
                while i < labels.len()
                    invariant
                        i <= labels@.len(),
                        scores@ == label_scores(labels@, query@).subrange(0, i as int),
                    decreases labels@.len() - i,
                {
                    scores.push(score_text(&labels[i], query));
                    i = i + 1;
                    assert(scores@ =~= label_scores(labels@, query@).subrange(0, i as int));
                }
                assert(scores@ =~= label_scores(labels@, query@));
                self.finder.action_results = rank_scores(&scores, labels.len());
            },
            FinderMode::Content => {
                if query.len() == 0 {
                    self.finder.content_results = Vec::new();
                } else {
                    effects.push(Effect::SearchContent);
                }
            },
        }
        effects
    }
}


/// The ranking is determined by the scores: two lists that both rank the best `cap`
/// candidates of `s` are the same list.
pub proof fn law_ranking_unique(s: Seq<Option<i64>>, cap: usize, r1: Seq<usize>, r2: Seq<usize>)
    requires
        is_ranking(s, cap, r1),
        is_ranking(s, cap, r2),
    ensures
        r1 == r2,
{
    let n = if r1.len() < r2.len() {
        r1.len()
    } else {
        r2.len()
    };
    assert forall|k: int| 0 <= k < n implies r1[k] == r2[k] by {
        lemma_same_prefix(s, cap, r1, r2, k);
    }
    lemma_not_shorter(s, cap, r1, r2);
    assert forall|k: int| 0 <= k < r2.len() && k < r1.len() implies r2[k] == r1[k] by {
        lemma_same_prefix(s, cap, r1, r2, k);
    }
    lemma_not_shorter(s, cap, r2, r1);
    assert(r1 =~= r2);
}

/// Two rankings agree at every position both have.
proof fn lemma_same_prefix(s: Seq<Option<i64>>, cap: usize, r1: Seq<usize>, r2: Seq<usize>, k: int)
    requires
        is_ranking(s, cap, r1),
        is_ranking(s, cap, r2),
        0 <= k < r1.len(),
        k < r2.len(),
    ensures
        r1[k] == r2[k],
    decreases k,
{
    if k > 0 {
        lemma_same_prefix(s, cap, r1, r2, k - 1);
    }
    assert forall|j: int| 0 <= j < k implies r1[j] == r2[j] by {
        lemma_same_prefix(s, cap, r1, r2, j);
    }
    let a = r1[k];
    let b = r2[k];
    if a != b {
        assert(s[a as int] is Some && s[b as int] is Some);
        if precedes(s, a as int, b as int) {
            lemma_absent_from(s, cap, r1, r2, k);
            assert(!r2.contains(a));
            assert(precedes(s, r2[k] as int, a as int));
        } else {
            lemma_absent_from(s, cap, r2, r1, k);
            assert(!r1.contains(b));
            assert(precedes(s, r1[k] as int, b as int));
        }
    }
}

/// When two rankings agree before position `k` and `r1[k]` ranks before `r2[k]`, then
/// `r1[k]` is not in `r2`.
proof fn lemma_absent_from(s: Seq<Option<i64>>, cap: usize, r1: Seq<usize>, r2: Seq<usize>, k: int)
    requires
        is_ranking(s, cap, r1),
        is_ranking(s, cap, r2),
        0 <= k < r1.len(),
        k < r2.len(),
        forall|j: int| 0 <= j < k ==> r1[j] == r2[j],
        r1[k] != r2[k],
        precedes(s, r1[k] as int, r2[k] as int),
    ensures
        !r2.contains(r1[k]),
{
    let a = r1[k];
    if r2.contains(a) {
        let m = choose|m: int| 0 <= m < r2.len() && r2[m] == a;
        if m < k {
            assert(r1[m] == a);
            assert(precedes(s, r1[m] as int, r1[k] as int));
        } else if m > k {
            assert(precedes(s, r2[k] as int, r2[m] as int));
        }
    }
}

/// A ranking is not shorter than another one that agrees with it where both are
/// defined.
proof fn lemma_not_shorter(s: Seq<Option<i64>>, cap: usize, r1: Seq<usize>, r2: Seq<usize>)
    requires
        is_ranking(s, cap, r1),
        is_ranking(s, cap, r2),
        forall|k: int| 0 <= k < r1.len() && k < r2.len() ==> r1[k] == r2[k],
    ensures
        r1.len() >= r2.len(),
{
    if r1.len() < r2.len() {
        let x = r2[r1.len() as int];
        assert(s[x as int] is Some);
        assert(r1.len() < cap);
        assert(r1.contains(x));
        let m = choose|m: int| 0 <= m < r1.len() && r1[m] == x;
        assert(r2[m] == x);
        assert(precedes(s, r2[m] as int, r2[r1.len() as int] as int));
    }
}

} // verus!
