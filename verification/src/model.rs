//! The editor's view state as plain values, and the effects that the host performs.
//!
//! Every field here is something a view decision reads or writes. Editor buffers,
//! windows, focus handles and the git repository live in the host; the decisions
//! below return [`Effect`]s telling the host what to do with them.
use vstd::prelude::*;
use vstd::string::StrSliceExecFns;
use vstd::string::StringSliceAdditionalSpecFns;
use crate::path::FsPath;

verus! {

/// Which main view is showing.
#[derive(Clone, Copy, PartialEq, Eq, Structural, Debug)]
pub enum Mode {
    Browse,
    Commit,
}

/// A changed file's git status.
#[derive(Clone, Copy, PartialEq, Eq, Structural, Debug)]
pub enum FileStatus {
    Modified,
    Added,
    Deleted,
    Untracked,
    Renamed,
    Conflict,
}

/// One entry of `git status`.
pub struct ChangedFile {
    pub path: FsPath,
    pub status: FileStatus,
}

/// The label under which a local-history snapshot is taken before a restoring write.
#[derive(Clone, Copy, PartialEq, Eq, Structural, Debug)]
pub enum SnapshotLabel {
    /// One hunk of the file is given back its snapshot lines.
    BeforeHunkRestore,
    /// The whole file becomes the selected snapshot.
    BeforeRevert,
}

/// The text of a snapshot label, as the timeline shows it.
pub open spec fn snapshot_label_text(l: SnapshotLabel) -> Seq<u8> {
    match l {
        SnapshotLabel::BeforeHunkRestore => "Before hunk restore".spec_bytes(),
        SnapshotLabel::BeforeRevert => "Before revert".spec_bytes(),
    }
}

impl SnapshotLabel {
    /// The label's text, as the host records it with the snapshot.
    pub fn text(&self) -> (r: Vec<u8>)
        ensures
            r@ == snapshot_label_text(*self),
    {
        match self {
            SnapshotLabel::BeforeHunkRestore => "Before hunk restore".as_bytes_vec(),
            SnapshotLabel::BeforeRevert => "Before revert".as_bytes_vec(),
        }
    }
}

/// How a path came to its new place: renamed within its folder, or moved into another.
#[derive(Clone, Copy, PartialEq, Eq, Structural, Debug)]
pub enum MoveKind {
    Rename,
    Move,
}

/// The local-history label of the moved path at its new place.
pub open spec fn move_label_text(k: MoveKind) -> Seq<u8> {
    match k {
        MoveKind::Rename => "Renamed".spec_bytes(),
        MoveKind::Move => "Moved here".spec_bytes(),
    }
}

impl MoveKind {
    /// The label's text, as the host records it in local history.
    pub fn label(&self) -> (r: Vec<u8>)
        ensures
            r@ == move_label_text(*self),
    {
        match self {
            MoveKind::Rename => "Renamed".as_bytes_vec(),
            MoveKind::Move => "Moved here".as_bytes_vec(),
        }
    }
}

/// Something the host must do after a decision: touch the UI, the disk or git.
#[derive(Clone, Copy, PartialEq, Eq, Structural, Debug)]
pub enum Effect {
    /// Load the active tab's file (`browse.open_path`) into the editor.
    LoadOpenFile,
    /// Empty the editor: no tab is open any more.
    ClearEditor,
    /// Refresh the font preview for the active tab.
    LoadFontPreview,
    /// Scroll the tab strip to the active tab.
    ScrollTabIntoView,
    /// Scroll the Browse tree to a row (the row index is in `browse.reveal_row`).
    ScrollTreeRow,
    /// Move keyboard focus to the app root.
    FocusRoot,
    /// Move keyboard focus to the name prompt's input (and clear or prefill it).
    FocusNameInput,
    /// Move keyboard focus to the find bar's query input.
    FocusFindQuery,
    /// Move keyboard focus to the editor the find bar acts on.
    FocusFindTarget,
    /// Move keyboard focus to the finder's query input (its content is cleared).
    FocusFinderQuery,
    /// Move keyboard focus to the Browse editor.
    FocusEditor,
    /// Move keyboard focus to the active terminal tab.
    FocusTerminal,
    /// Move keyboard focus to the branch popup's search input (cleared).
    FocusBranchQuery,
    /// Re-read git status and the trees.
    Refresh,
    /// Load the selected changed file (`selected`) into the diff panes.
    LoadDiffForSelected,
    /// Empty both diff panes.
    ClearDiffPanes,
    /// Re-run the finder query for the current mode.
    RecomputeFinder,
    /// Re-scan the find target for the query and repaint the matches.
    RecomputeFind,
    /// Select the current find match in the target editor.
    SelectFindMatch,
    /// Clear the find highlights of the file editor.
    ClearFindHighlight,
    /// Sort the selected lines (or the object's keys) of the Browse editor.
    SortLines,
    /// Sort the keys of the object at the Browse editor's caret.
    SortKeys,
    /// Open a native modal window of the given kind.
    OpenModal(ModalKind),
    /// Close a native modal window of the given kind.
    CloseModal(ModalKind),
    /// Fetch the release notes in the background.
    LoadChangelog,
    /// Push `changelog.body` into the notes preview.
    ShowChangelogBody,
    /// Read the local-history timeline of `lh.path` and load its diff.
    ReloadLocalHistory,
    /// Save the local-history settings.
    SaveLocalHistoryConfig,
    /// Flush pending local-history snapshots.
    FlushLocalHistory,
    /// Re-diff the local-history panes for the selected snapshot.
    LoadLocalHistoryDiff,
    /// Reload the compare panes from disk and re-diff.
    ReloadCompare,
    /// Reload the Browse editor from the text that was just written.
    ReloadOpenEditor,
    /// Spawn a new terminal tab.
    SpawnTerminal,
    /// Restore the terminal's maximized preference.
    RestoreTerminalMaximized,
    /// Save the terminal's maximized preference (`term.maximized`).
    SaveTerminalMaximized,
    /// Reveal a path in the OS file manager.
    RevealInOs,
    /// Open a terminal at a path.
    RevealInTerminal,
    /// Persist and apply the chosen keymap preset.
    ApplyKeymap,
    /// Record the project in recents and update the menus.
    TouchRecents,
    /// Open the GitHub issue for the crash text that came with it.
    OpenCrashReport,
    /// Truncate the crash log.
    TruncateCrashLog,
    /// Open the folder picker.
    PickFolder,
    /// Rebuild the merge result pane from the chunk decisions.
    ReloadMergeResult,
    /// Load the read-only Compare Contents pair of the merge window.
    LoadMergeComparePanes,
    /// Create a scratch file with the extension that the finder returned.
    CreateScratch,
    /// Navigate back / forward in the editor history.
    NavBack,
    NavForward,
    /// Enter the commit view (status re-read and diff load).
    EnterCommit,
    /// Switch the main view (with its own loading).
    SwitchMode(Mode),
    /// Select the first file of the Push tab.
    SelectPushFile,
    /// Re-diff the diff panes against their base and repaint the decorations.
    RediffPanes,
    /// Arm the local-history throttle timer (it flushes the pending paths).
    ScheduleLocalHistoryFlush,
    /// Snapshot the local-history path's current content, under this label, before it
    /// is overwritten.
    SnapshotBeforeWrite(SnapshotLabel),
    /// Record a move in local history: the old path tombstoned, the new one labelled
    /// with this kind's label.
    RecordMove(MoveKind),
    /// Save the editable diff pane's text to `diff.path`.
    SaveDiffPane,
    /// Reload the compare panes from disk and re-diff, scrolled to the first hunk.
    ReloadCompareAtFirstHunk,
    /// Open (and prune) the local-history store of `lh.store_root` in the background.
    OpenLocalHistoryStore,
    /// Merge the branch in `merge.source` into the current branch in the background.
    MergeBranch,
    /// Conclude the merge with git's prepared message in the background.
    CommitMerge,
    /// Abort the in-progress merge in the background.
    AbortMerge,
    /// Pull (fetch and rebase) in the background.
    Pull,
    /// Fetch the remote-tracking refs in the background.
    Fetch,
    /// Check out the chosen branch in the background.
    CheckoutBranch,
    /// Count each worktree's changed files in the background.
    GatherWorktreeCounts,
    /// Relaunch the swapped-in app bundle and quit.
    RelaunchAndQuit,
    /// Run the content search for the finder's query.
    SearchContent,
    /// Empty the commit message box.
    ClearCommitMessage,
    /// Snapshot the committed files into local history under the commit's label.
    SnapshotCommitted,
    /// Switch to the Push tab when the Commit tab has no work left but a push has.
    NormalizeGitTab,
}

/// The native modal windows.
#[derive(Clone, Copy, PartialEq, Eq, Structural, Debug)]
pub enum ModalKind {
    NewBranch,
    Changelog,
    Compare,
    Rollback,
    LocalHistory,
    Merge,
    Settings,
    Plugins,
    Fonts,
}

/// A cut or copy on the Browse tree.
pub struct TreeClip {
    pub paths: Vec<FsPath>,
    pub cut: bool,
}

/// The Browse (code) view state.
pub struct BrowseState {
    pub open_tabs: Vec<FsPath>,
    pub preview_tab: Option<FsPath>,
    pub open_path: Option<FsPath>,
    pub selected_path: Option<FsPath>,
    pub expanded: Vec<FsPath>,
    pub extra_dirs: Vec<FsPath>,
    pub multi_selected: Vec<FsPath>,
    pub clipboard: Option<TreeClip>,
    pub scratches: Vec<FsPath>,
    pub editor_dirty: bool,
    pub reveal_row: Option<usize>,
    /// Every file of the project, for go-to-file.
    pub all_files: Vec<FsPath>,
}

/// Hunks of one file left out of the next commit.
pub struct HunkExclusion {
    pub path: FsPath,
    pub hunks: Vec<usize>,
}

/// Which git tab the commit view shows.
#[derive(Clone, Copy, PartialEq, Eq, Structural, Debug)]
pub enum GitTab {
    Commit,
    Push,
}

/// The commit view's selection state.
pub struct CommitState {
    pub checked: Vec<FsPath>,
    pub expanded: Vec<FsPath>,
    pub focus: Vec<FsPath>,
    pub excluded_hunks: Vec<HunkExclusion>,
    pub committing: bool,
    pub focus_msg: bool,
}

/// One hunk of a line diff: lines `old_start..old_end` of the base became lines
/// `new_start..new_end` of the working text.
#[derive(Clone, Copy, PartialEq, Eq, Structural, Debug)]
pub struct HunkRange {
    pub old_start: usize,
    pub old_end: usize,
    pub new_start: usize,
    pub new_end: usize,
}

/// A line diff of a base text against a working text: both sides' lines, the hunks, and
/// for each row of the aligned two-pane layout whether a hunk begins on it.
pub struct FileDiffModel {
    pub old: Vec<Vec<u8>>,
    pub new: Vec<Vec<u8>>,
    pub hunks: Vec<HunkRange>,
    pub row_starts_hunk: Vec<bool>,
}

/// Whether a hunk's ranges lie within sides of `old_len` and `new_len` lines.
pub open spec fn hunk_fits(h: HunkRange, old_len: int, new_len: int) -> bool {
    &&& h.old_start <= h.old_end <= old_len
    &&& h.new_start <= h.new_end <= new_len
}

impl FileDiffModel {
    /// Every hunk's ranges lie within its sides.
    pub open spec fn wf(&self) -> bool {
        forall|i: int|
            0 <= i < self.hunks@.len() ==> #[trigger] hunk_fits(
                self.hunks@[i],
                self.old@.len() as int,
                self.new@.len() as int,
            )
    }
}

/// The diff panes' bookkeeping.
pub struct DiffState {
    pub path: Option<FsPath>,
    pub readonly: bool,
    pub current: Option<FileDiffModel>,
}

/// The pending new-file / new-folder / rename prompt.
pub enum NamePrompt {
    NewFile(FsPath),
    NewFolder(FsPath),
    Rename(FsPath),
}

/// The file or folder awaiting delete confirmation.
pub struct DeleteTarget {
    pub path: FsPath,
    pub is_dir: bool,
}

/// The branch switcher.
pub struct BranchState {
    pub popup_open: bool,
    pub list: Vec<Vec<u8>>,
    pub remotes: Vec<Vec<u8>>,
    pub expanded: Vec<Vec<u8>>,
}

/// One worktree of the repository.
pub struct Worktree {
    pub path: FsPath,
    pub branch: Option<Vec<u8>>,
    /// The path with symlinks resolved, when the host could resolve it.
    pub canonical: Option<FsPath>,
    /// The commit checked out (its hash).
    pub head: Vec<u8>,
}

/// The worktree switcher.
pub struct WorktreeState {
    pub popup_open: bool,
    pub list: Vec<Worktree>,
    /// Changed-file counts per worktree, filled in by the background gather.
    pub counts: Vec<(FsPath, usize)>,
    /// Generation of the latest gather; an older one's counts are dropped.
    pub counts_gen: u64,
}

/// Push / pull / fetch state.
pub struct SyncState {
    pub pulling: bool,
    pub fetching: bool,
    pub pushing: bool,
    pub push_msg: Option<Vec<u8>>,
    pub push_files: Vec<FsPath>,
    /// Commits ahead of the upstream, when known.
    pub ahead: Option<usize>,
    /// Commits behind the upstream, when known.
    pub behind: Option<usize>,
}

/// The editor the find bar acts on.
#[derive(Clone, Copy, PartialEq, Eq, Structural, Debug)]
pub enum FindTarget {
    File,
    DiffLeft,
    DiffRight,
}

/// A match of the find bar: byte offsets `start..end` in the target's text.
#[derive(Clone, Copy, PartialEq, Eq, Structural, Debug)]
pub struct Span {
    pub start: usize,
    pub end: usize,
}

/// The find / replace bar.
pub struct FindState {
    pub open: bool,
    pub replace: bool,
    pub target: FindTarget,
    pub matches: Vec<Span>,
    pub idx: usize,
}

/// What the finder overlay searches.
#[derive(Clone, Copy, PartialEq, Eq, Structural, Debug)]
pub enum FinderMode {
    Files,
    Content,
    Actions,
    Scratch,
}

/// The finder overlay.
pub struct FinderState {
    pub open: bool,
    pub mode: FinderMode,
    pub selected: usize,
    /// Files mode: the matching files, best first.
    pub results: Vec<FsPath>,
    /// Content mode: the matching lines.
    pub content_results: Vec<ContentHit>,
    /// Actions and scratch modes: indices into the palette or the scratch languages.
    pub action_results: Vec<usize>,
    /// Generation of the latest content search; an older one's hits are dropped.
    pub search_gen: u64,
}

/// A line of a file that matched a content search.
pub struct ContentHit {
    pub path: FsPath,
    /// 1-based line number.
    pub line: u32,
    pub text: Vec<u8>,
}

/// One published release.
pub struct ReleaseNote {
    pub version: Vec<u8>,
    pub body: Vec<u8>,
}

/// The changelog window.
pub struct ChangelogState {
    pub notes: Vec<ReleaseNote>,
    pub selected: usize,
    pub loading: bool,
    pub error: Option<Vec<u8>>,
    pub body: Vec<u8>,
}

/// The local-history window and recorder.
pub struct LocalHistoryState {
    pub enabled: bool,
    pub store_open: bool,
    pub path: Option<FsPath>,
    pub selected: usize,
    pub event_hashes: Vec<Vec<u8>>,
    pub pending: Vec<FsPath>,
    pub flush_scheduled: bool,
    /// The project whose store is open or opening.
    pub store_root: Option<FsPath>,
    /// The selected snapshot diffed against the current file; `None` when none is loaded.
    pub diff: Option<FileDiffModel>,
}

/// What a local-history snapshot records.
#[derive(Clone, Copy, PartialEq, Eq, Structural, Debug)]
pub enum EventKind {
    /// A save, or the baseline on a file's first appearance.
    Change,
    /// The file changed on disk outside the editor.
    External,
    /// A labelled snapshot taken before a destructive operation.
    Label,
}

/// The compare-two-files window.
pub struct CompareState {
    pub left_path: Option<FsPath>,
    pub right_path: Option<FsPath>,
    /// The left file diffed against the right; `None` before a diff is loaded.
    pub diff: Option<FileDiffModel>,
}

/// What each side of a conflicted file did.
#[derive(Clone, Copy, PartialEq, Eq, Structural, Debug)]
pub enum ConflictSide {
    Modified,
    Added,
    Deleted,
}

/// A conflicted file of an in-progress merge.
pub struct ConflictEntry {
    pub path: FsPath,
    pub ours: ConflictSide,
    pub theirs: ConflictSide,
}

/// How a chunk of the three-way merge differs between the sides.
#[derive(Clone, Copy, PartialEq, Eq, Structural, Debug)]
pub enum ChunkKind {
    Stable,
    Ours,
    Theirs,
    Same,
    Conflict,
}

/// The decision for one side of a chunk.
#[derive(Clone, Copy, PartialEq, Eq, Structural, Debug)]
pub enum SideState {
    Pending,
    Applied,
    Ignored,
}

/// The decisions for both sides of a chunk.
#[derive(Clone, Copy, PartialEq, Eq, Structural, Debug)]
pub struct Resolution {
    pub ours: SideState,
    pub theirs: SideState,
}

/// A chunk of the three-way merge: its kind and how many lines each side spans.
#[derive(Clone, Copy, PartialEq, Eq, Structural, Debug)]
pub struct Chunk {
    pub kind: ChunkKind,
    /// First line of the chunk in our side.
    pub ours_start: usize,
    pub ours_len: usize,
    /// First line of the chunk in their side.
    pub theirs_start: usize,
    pub theirs_len: usize,
}

/// What the merge window's resolve stage shows.
#[derive(Clone, Copy, PartialEq, Eq, Structural, Debug)]
pub enum MergeCompare {
    MergeView3,
    LeftMiddle,
    RightMiddle,
    LeftRight,
    BaseLeft,
    BaseMiddle,
    BaseRight,
}

/// The merge window and the in-progress merge.
pub struct MergeState {
    pub busy: bool,
    pub source: Option<Vec<u8>>,
    pub in_progress: Option<Vec<u8>>,
    pub note: Option<Vec<u8>>,
    pub files: Vec<ConflictEntry>,
    pub resolved: Vec<FsPath>,
    pub list_sel: Option<usize>,
    pub selected: Option<usize>,
    /// The three-way model of the selected file, as its chunks; `None` when no file is open.
    pub chunks: Option<Vec<Chunk>>,
    pub res: Vec<Resolution>,
    /// Line counts of each chunk in the result pane.
    pub res_lens: Vec<usize>,
    /// Chunks of the open file still awaiting a decision, as the merge model counts them.
    pub undecided: usize,
    pub compare: MergeCompare,
    pub compare_open: bool,
    pub ws_open: bool,
    /// How whitespace counts when the merge model compares lines.
    pub ws: WhitespaceMode,
}

/// How whitespace counts when two lines are compared.
#[derive(Clone, Copy, PartialEq, Eq, Structural, Debug)]
pub enum WhitespaceMode {
    /// Every whitespace character counts.
    Exact,
    /// Leading and trailing whitespace is ignored.
    Trim,
    /// All whitespace is ignored.
    IgnoreAll,
}

/// An available update.
pub struct Release {
    pub version: Vec<u8>,
    pub zip_url: Vec<u8>,
    pub sha256_url: Vec<u8>,
    pub page_url: Vec<u8>,
}

/// The saved UI state of a project that is open in a background tab.
pub struct ProjectSession {
    pub mode: Mode,
    pub open_path: Option<FsPath>,
    pub open_tabs: Vec<FsPath>,
    pub preview_tab: Option<FsPath>,
    pub selected: Option<usize>,
    pub expanded: Vec<FsPath>,
}

/// A project root with its saved session.
pub struct SessionEntry {
    pub root: FsPath,
    pub session: ProjectSession,
}

/// The bottom terminal panel.
pub struct TermState {
    pub open: bool,
    pub maximized: bool,
    pub active: usize,
    pub tab_count: usize,
}

/// The welcome picker (keymap preset and shell command).
pub struct OnboardingState {
    pub open: bool,
    /// Shown on first launch: it cannot be dismissed without choosing.
    pub forced: bool,
    /// The highlighted preset.
    pub choice: u8,
    /// The "install the shell command" checkbox.
    pub install_cmd: bool,
}

/// The whole view state of one editor window.
pub struct Kyde {
    pub mode: Mode,
    pub menu_open: bool,
    pub repo_root: Option<FsPath>,
    pub current_branch: Option<Vec<u8>>,
    pub files: Vec<ChangedFile>,
    pub selected: Option<usize>,
    pub diff_view_open: bool,
    pub op_error: Option<Vec<u8>>,
    pub pending_error: Option<Vec<u8>>,
    pub browse: BrowseState,
    pub commit: CommitState,
    pub git_tab: GitTab,
    pub diff: DiffState,
    pub name_prompt: Option<NamePrompt>,
    pub delete_target: Option<DeleteTarget>,
    pub branch: BranchState,
    pub new_branch_checkout: bool,
    pub new_branch_overwrite: bool,
    pub worktree: WorktreeState,
    pub sync: SyncState,
    pub find: FindState,
    pub finder: FinderState,
    pub changelog: ChangelogState,
    pub lh: LocalHistoryState,
    pub compare: CompareState,
    pub merge: MergeState,
    pub rollback_checked: Vec<FsPath>,
    pub rollback_delete_added: bool,
    pub update_available: Option<Release>,
    pub updating: bool,
    pub pending_crash: Option<Vec<u8>>,
    pub onboarding: OnboardingState,
    pub keymap_preset: u8,
    pub open_projects: Vec<FsPath>,
    pub project_sessions: Vec<SessionEntry>,
    pub term: TermState,
    pub settings_theme_open: bool,
    /// Generation of the latest debounced git-status refresh; an older timer does nothing.
    pub refresh_gen: u64,
}

impl Kyde {
    /// A window with no project open: Browse mode, nothing selected, every panel closed.
    pub fn new() -> (k: Kyde)
        ensures
            k.mode == Mode::Browse,
            k.repo_root is None,
            k.files@.len() == 0,
            k.browse.open_tabs@.len() == 0,
            k.browse.open_path is None,
            k.browse.preview_tab is None,
    {
        Kyde {
            mode: Mode::Browse,
            menu_open: false,
            repo_root: None,
            current_branch: None,
            files: Vec::new(),
            selected: None,
            diff_view_open: false,
            op_error: None,
            pending_error: None,
            browse: BrowseState {
                open_tabs: Vec::new(),
                preview_tab: None,
                open_path: None,
                selected_path: None,
                expanded: Vec::new(),
                extra_dirs: Vec::new(),
                multi_selected: Vec::new(),
                clipboard: None,
                scratches: Vec::new(),
                editor_dirty: false,
                reveal_row: None,
                all_files: Vec::new(),
            },
            commit: CommitState {
                checked: Vec::new(),
                expanded: Vec::new(),
                focus: Vec::new(),
                excluded_hunks: Vec::new(),
                committing: false,
                focus_msg: false,
            },
            git_tab: GitTab::Commit,
            diff: DiffState { path: None, readonly: false, current: None },
            name_prompt: None,
            delete_target: None,
            branch: BranchState {
                popup_open: false,
                list: Vec::new(),
                remotes: Vec::new(),
                expanded: Vec::new(),
            },
            new_branch_checkout: false,
            new_branch_overwrite: false,
            worktree: WorktreeState { popup_open: false, list: Vec::new(), counts: Vec::new(), counts_gen: 0 },
            sync: SyncState {
                pulling: false,
                fetching: false,
                pushing: false,
                push_msg: None,
                push_files: Vec::new(),
                ahead: None,
                behind: None,
            },
            find: FindState {
                open: false,
                replace: false,
                target: FindTarget::File,
                matches: Vec::new(),
                idx: 0,
            },
            finder: FinderState {
                open: false,
                mode: FinderMode::Files,
                selected: 0,
                results: Vec::new(),
                content_results: Vec::new(),
                action_results: Vec::new(),
                search_gen: 0,
            },
            changelog: ChangelogState {
                notes: Vec::new(),
                selected: 0,
                loading: false,
                error: None,
                body: Vec::new(),
            },
            lh: LocalHistoryState {
                enabled: false,
                store_open: false,
                path: None,
                selected: 0,
                event_hashes: Vec::new(),
                pending: Vec::new(),
                flush_scheduled: false,
                store_root: None,
                diff: None,
            },
            compare: CompareState { left_path: None, right_path: None, diff: None },
            merge: MergeState {
                busy: false,
                source: None,
                in_progress: None,
                note: None,
                files: Vec::new(),
                resolved: Vec::new(),
                list_sel: None,
                selected: None,
                chunks: None,
                res: Vec::new(),
                res_lens: Vec::new(),
                undecided: 0,
                compare: MergeCompare::MergeView3,
                compare_open: false,
                ws_open: false,
                ws: WhitespaceMode::Exact,
            },
            rollback_checked: Vec::new(),
            rollback_delete_added: false,
            update_available: None,
            updating: false,
            pending_crash: None,
            onboarding: OnboardingState { open: false, forced: false, choice: 0, install_cmd: false },
            keymap_preset: 0,
            open_projects: Vec::new(),
            project_sessions: Vec::new(),
            term: TermState { open: false, maximized: false, active: 0, tab_count: 0 },
            settings_theme_open: false,
            refresh_gen: 0,
        }
    }
}

} // verus!
