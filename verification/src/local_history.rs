//! Local history: per-file snapshots independent of git. This module decides when a
//! snapshot is recorded and of which files, keeps the store in step with the open
//! project, and drives the Local History window (timeline selection, restoring one hunk
//! or a whole snapshot). The store itself lives in the host.
use vstd::prelude::*;
use vstd::string::StrSliceExecFns;
use vstd::string::StringSliceAdditionalSpecFns;
use crate::bytes::{bytes_eq, concat};
use crate::path::{FsPath, PathV, join_v, insert_path, path_set, paths_view};
use crate::branch_list::{trim_bytes, trimmed};
use crate::model::{Kyde, Effect, ModalKind, FileDiffModel, EventKind, LocalHistoryState, SnapshotLabel};
use crate::browse::opt_view;
use crate::diff::sat_sub;
use crate::compare::{name_or_empty, name_or_empty_bytes, mask_is, hunk_mask};

verus! {

/// std's `std::time::SystemTime`, declared so a clock reading can be carried from
/// [`system_now`] to [`since_epoch`]; nothing is claimed of what it holds.
#[verifier::external_type_specification]
#[verifier::external_body]
pub struct ExSystemTime(std::time::SystemTime);

/// `std::time::SystemTime::now`: a reading of the system clock. Nothing is promised of
/// it: it depends on the machine and the moment.
#[verifier::external_body]
fn system_now() -> std::time::SystemTime {
    std::time::SystemTime::now()
}

/// `SystemTime::duration_since(UNIX_EPOCH)`: the time since 1970, `None` when the
/// clock reads earlier. Nothing is promised of which it is.
#[verifier::external_body]
fn since_epoch(t: &std::time::SystemTime) -> Option<std::time::Duration> {
    t.duration_since(std::time::UNIX_EPOCH).ok()
}

/// `Duration::as_millis`: the whole milliseconds of a duration. The duration is opaque
/// here, so nothing is stated of the number.
#[verifier::external_body]
fn duration_millis(d: &std::time::Duration) -> u128 {
    d.as_millis()
}

/// A millisecond count as a `u64`: 0 when there is none (a clock before 1970), capped
/// at `u64::MAX`.
pub open spec fn clamp_ms_spec(ms: Option<u128>) -> u64 {
    match ms {
        None => 0,
        Some(m) => if m > u64::MAX {
            u64::MAX
        } else {
            m as u64
        },
    }
}

/// See [`clamp_ms_spec`].
pub fn clamp_ms(ms: Option<u128>) -> (r: u64)
    ensures
        r == clamp_ms_spec(ms),
{
    match ms {
        None => 0,
        Some(m) => if m > 0xffff_ffff_ffff_ffffu128 {
            u64::MAX
        } else {
            m as u64
        },
    }
}

/// Milliseconds since the Unix epoch, best effort: a clock before 1970 reads 0. What the
/// clock says is not known here; [`clamp_ms`] states what is made of it.
pub fn lh_now_ms() -> (r: u64) {
    let now = system_now();
    let ms = match since_epoch(&now) {
        Some(d) => Some(duration_millis(&d)),
        None => None,
    };
    clamp_ms(ms)
}

/// The value of a two-character field as `str::parse::<i32>` reads it: two digits, or
/// a sign and one digit.
pub open spec fn two_char_i32(a: u8, b: u8) -> Option<int> {
    let is_digit = |c: u8| 48 <= c <= 57;
    if !is_digit(b) {
        None
    } else if is_digit(a) {
        Some((a - 48) * 10 + (b - 48))
    } else if a == 43 {
        Some(b - 48)
    } else if a == 45 {
        Some(-(b - 48))
    } else {
        None
    }
}

/// Minutes east of UTC from trimmed `date +%z` output, such as "+0100" or
/// "-0930": a sign, then hours in the next two characters and minutes in the two after.
/// Anything else reads as UTC (0).
pub open spec fn tz_offset_spec(s: Seq<u8>) -> int {
    if s.len() < 1 || (s[0] != 43 && s[0] != 45) {
        0
    } else {
        let d = s.skip(1);
        if d.len() < 4 {
            0
        } else {
            match (two_char_i32(d[0], d[1]), two_char_i32(d[2], d[3])) {
                (Some(h), Some(m)) => if s[0] == 43 {
                    h * 60 + m
                } else {
                    -(h * 60 + m)
                },
                _ => 0,
            }
        }
    }
}

fn two_char(a: u8, b: u8) -> (r: Option<i32>)
    ensures
        match two_char_i32(a, b) {
            Some(v) => r == Some(v as i32),
            None => r is None,
        },
{
    if b < 48 || b > 57 {
        None
    } else if 48 <= a && a <= 57 {
        Some(((a - 48) as i32) * 10 + ((b - 48) as i32))
    } else if a == 43 {
        Some((b - 48) as i32)
    } else if a == 45 {
        Some(-((b - 48) as i32))
    } else {
        None
    }
}

/// The offset that `date +%z` printed as `out` (white space cut at both ends first; see
/// [`tz_offset_spec`]).
pub fn parse_tz_offset(out: &Vec<u8>) -> (r: i32)
    ensures
        r == tz_offset_spec(trimmed(out@)),
{
    let s = trim_bytes(out);
    if s.len() < 1 || (s[0] != 43u8 && s[0] != 45u8) {
        return 0;
    }
    if s.len() < 5 {
        return 0;
    }
    let h = two_char(s[1], s[2]);
    let m = two_char(s[3], s[4]);
    let ghost d = s@.skip(1);
    assert(d[0] == s@[1] && d[1] == s@[2] && d[2] == s@[3] && d[3] == s@[4]);
    match (h, m) {
        (Some(h), Some(m)) => {
            if s[0] == 43u8 {
                h * 60 + m
            } else {
                -(h * 60 + m)
            }
        },
        _ => 0,
    }
}

/// Where the store reads `rel`: an absolute path as it is, else under the project root
/// (nowhere without one).
pub open spec fn lh_abs_spec(rel: PathV, root: Option<PathV>) -> Option<PathV> {
    if rel.0 {
        Some(rel)
    } else {
        match root {
            Some(r) => Some(join_v(r, rel)),
            None => None,
        }
    }
}

/// Each path with where it is read, for the paths that resolve, in order.
pub open spec fn abs_pairs(paths: Seq<PathV>, root: Option<PathV>) -> Seq<(PathV, PathV)>
    decreases paths.len(),
{
    if paths.len() == 0 {
        Seq::empty()
    } else {
        let rest = abs_pairs(paths.drop_last(), root);
        match lh_abs_spec(paths.last(), root) {
            Some(a) => rest.push((paths.last(), a)),
            None => rest,
        }
    }
}

/// Throttling delays a snapshot but never drops it: a saved path waiting in the pending
/// list is among what the next flush hands out, with where it is read.
pub proof fn law_pending_save_is_flushed(pending: Seq<PathV>, root: Option<PathV>, rel: PathV)
    requires
        pending.contains(rel),
        lh_abs_spec(rel, root) is Some,
    ensures
        abs_pairs(pending, root).contains((rel, lh_abs_spec(rel, root).unwrap())),
    decreases pending.len(),
{
    let pre = pending.drop_last();
    if pending.last() == rel {
        assert(abs_pairs(pending, root) == abs_pairs(pre, root).push((rel, lh_abs_spec(rel, root).unwrap())));
        assert(abs_pairs(pending, root)[abs_pairs(pre, root).len() as int] == (rel, lh_abs_spec(rel, root).unwrap()));
    } else {
        let k = choose|k: int| 0 <= k < pending.len() && pending[k] == rel;
        assert(pre[k] == rel);
        law_pending_save_is_flushed(pre, root, rel);
        let w = choose|w: int| 0 <= w < abs_pairs(pre, root).len() && abs_pairs(pre, root)[w] == (rel, lh_abs_spec(rel, root).unwrap());
        match lh_abs_spec(pending.last(), root) {
            Some(a) => {
                assert(abs_pairs(pending, root) == abs_pairs(pre, root).push((pending.last(), a)));
                assert(abs_pairs(pending, root)[w] == abs_pairs(pre, root)[w]);
            },
            None => {
                assert(abs_pairs(pending, root) == abs_pairs(pre, root));
            },
        }
    }
}

/// The values of a list of path pairs.
pub open spec fn pairs_view(v: Seq<(FsPath, FsPath)>) -> Seq<(PathV, PathV)> {
    v.map_values(|x: (FsPath, FsPath)| (x.0@, x.1@))
}

/// The Local History window's title: "Local History: name".
pub open spec fn lh_title(rel: PathV) -> Seq<u8> {
    "Local History: ".spec_bytes() + name_or_empty(rel)
}

/// What opening a file records: the baseline on its first appearance, an external
/// change when the disk differs from the last snapshot, nothing when it matches.
pub open spec fn open_event_spec(last: Option<Seq<u8>>, content: Seq<u8>) -> Option<EventKind> {
    match last {
        None => Some(EventKind::Change),
        Some(h) => if h != content {
            Some(EventKind::External)
        } else {
            None
        },
    }
}

/// See [`open_event_spec`]: `last` is the hash of the file's last snapshot, `content`
/// the hash of what was just read from disk.
pub fn lh_open_event_kind(last: &Option<Vec<u8>>, content: &Vec<u8>) -> (r: Option<EventKind>)
    ensures
        r == open_event_spec(
            match last {
                Some(h) => Some(h@),
                None => None,
            },
            content@,
        ),
{
    match last {
        None => Some(EventKind::Change),
        Some(h) => if !bytes_eq(h, content) {
            Some(EventKind::External)
        } else {
            None
        },
    }
}

/// `lh_abs` for a root held apart from the editor state.
fn abs_of(rel: &FsPath, root: &Option<FsPath>) -> (r: Option<FsPath>)
    ensures
        opt_view(r) == lh_abs_spec(rel@, opt_view(*root)),
{
    if rel.absolute {
        return Some(rel.duplicate());
    }
    match root {
        Some(r) => Some(r.join(rel)),
        None => None,
    }
}

/// Each of `paths` with where it is read (see [`abs_pairs`]).
pub fn resolve_pairs(paths: &Vec<FsPath>, root: &Option<FsPath>) -> (r: Vec<(FsPath, FsPath)>)
    ensures
        pairs_view(r@) == abs_pairs(paths_view(paths@), opt_view(*root)),
{
    let mut r: Vec<(FsPath, FsPath)> = Vec::new();
    let mut i: usize = 0;
    while i < paths.len()
        invariant
            i <= paths@.len(),
            pairs_view(r@) == abs_pairs(paths_view(paths@.subrange(0, i as int)), opt_view(*root)),
        decreases paths@.len() - i,
    {
        let ghost sub = paths_view(paths@.subrange(0, i + 1));
        assert(sub.drop_last() =~= paths_view(paths@.subrange(0, i as int)));
        assert(sub.last() == paths@[i as int]@);
        match abs_of(&paths[i], root) {
            Some(a) => {
                let ghost before = r@;
                r.push((paths[i].duplicate(), a));
                assert(pairs_view(r@) =~= pairs_view(before).push((paths@[i as int]@, r@.last().1@)));
            },
            None => {},
        }
        i = i + 1;
    }
    assert(paths@.subrange(0, paths@.len() as int) =~= paths@);
    r
}

impl Kyde {
    /// Where the store reads `rel`: as it is when absolute (a scratch file), else under
    /// the project root; `None` without a project.
    pub fn lh_abs(&self, rel: &FsPath) -> (r: Option<FsPath>)
        ensures
            opt_view(r) == lh_abs_spec(rel@, opt_view(self.repo_root)),
    {
        abs_of(rel, &self.repo_root)
    }

    /// Keep the store in step with the open project and the master switch: drop it (and
    /// the pending saves) when history is off or no project is open; open the project's
    /// store when the project changed; otherwise nothing.
    pub fn lh_sync_store(&mut self) -> (effects: Vec<Effect>)
        ensures
            if !old(self).lh.enabled || old(self).repo_root is None {
                &&& !final(self).lh.store_open
                &&& final(self).lh.store_root is None
                &&& final(self).lh.pending@.len() == 0
                &&& effects@.len() == 0
            } else if opt_view(old(self).lh.store_root) == opt_view(old(self).repo_root) {
                &&& final(self).lh == old(self).lh
                &&& effects@.len() == 0
            } else {
                &&& !final(self).lh.store_open
                &&& opt_view(final(self).lh.store_root) == opt_view(old(self).repo_root)
                &&& final(self).lh.pending == old(self).lh.pending
                &&& effects@ == seq![Effect::OpenLocalHistoryStore]
            },
            final(self).repo_root == old(self).repo_root,
            final(self).lh.enabled == old(self).lh.enabled,
            *final(self) == (Kyde { lh: LocalHistoryState { pending: final(self).lh.pending, store_open: final(self).lh.store_open, store_root: final(self).lh.store_root, ..old(self).lh }, ..*old(self) }),
    {
        let mut effects: Vec<Effect> = Vec::new();
        if !self.lh.enabled || self.repo_root.is_none() {
            self.lh.store_open = false;
            self.lh.store_root = None;
            self.lh.pending = Vec::new();
            return effects;
        }
        let same = match (&self.lh.store_root, &self.repo_root) {
            (Some(a), Some(b)) => a.same(b),
            (None, None) => true,
            _ => false,
        };
        if same {
            return effects;
        }
        self.lh.store_open = false;
        self.lh.store_root = match &self.repo_root {
            Some(r) => Some(r.duplicate()),
            None => None,
        };
        effects.push(Effect::OpenLocalHistoryStore);
        effects
    }

    /// The store of `root` finished opening: it is used only when that project is still
    /// the one the store follows.
    pub fn lh_store_opened(&mut self, root: &FsPath)
        ensures
            final(self).lh.store_open == (old(self).lh.store_open || opt_view(old(self).lh.store_root)
                == Some(root@)),
            final(self).lh.store_root == old(self).lh.store_root,
            final(self).lh.pending == old(self).lh.pending,
            *final(self) == (Kyde { lh: LocalHistoryState { store_open: final(self).lh.store_open, ..old(self).lh }, ..*old(self) }),
    {
        let follows = match &self.lh.store_root {
            Some(r) => r.same(root),
            None => false,
        };
        if follows {
            self.lh.store_open = true;
        }
    }

    /// A save landed for `rel`: mark it pending and arm the throttle timer unless one is
    /// armed already. Nothing is recorded while history is off or has no store.
    pub fn lh_note_save(&mut self, rel: FsPath) -> (effects: Vec<Effect>)
        ensures
            if !old(self).lh.enabled || !old(self).lh.store_open {
                final(self).lh == old(self).lh && effects@.len() == 0
            } else {
                &&& path_set(final(self).lh.pending@) == path_set(old(self).lh.pending@).insert(rel@)
                &&& final(self).lh.flush_scheduled
                &&& effects@ == if old(self).lh.flush_scheduled {
                    Seq::<Effect>::empty()
                } else {
                    seq![Effect::ScheduleLocalHistoryFlush]
                }
                &&& final(self).lh.store_open == old(self).lh.store_open
                &&& final(self).lh.enabled == old(self).lh.enabled
                &&& final(self).lh.path == old(self).lh.path
            },
            *final(self) == (Kyde { lh: LocalHistoryState { flush_scheduled: final(self).lh.flush_scheduled, pending: final(self).lh.pending, ..old(self).lh }, ..*old(self) }),
    {
        let mut effects: Vec<Effect> = Vec::new();
        if !self.lh.enabled || !self.lh.store_open {
            return effects;
        }
        insert_path(&mut self.lh.pending, rel);
        if self.lh.flush_scheduled {
            return effects;
        }
        self.lh.flush_scheduled = true;
        effects.push(Effect::ScheduleLocalHistoryFlush);
        effects
    }

    /// Take the pending paths (leaving none) and return each with where it is read, for
    /// the host to snapshot its on-disk content. Nothing is returned without a store.
    pub fn lh_flush(&mut self) -> (r: Vec<(FsPath, FsPath)>)
        ensures
            final(self).lh.pending@.len() == 0,
            pairs_view(r@) == if old(self).lh.store_open {
                abs_pairs(paths_view(old(self).lh.pending@), opt_view(old(self).repo_root))
            } else {
                Seq::<(PathV, PathV)>::empty()
            },
            final(self).lh.store_open == old(self).lh.store_open,
            final(self).lh.flush_scheduled == old(self).lh.flush_scheduled,
            *final(self) == (Kyde { lh: LocalHistoryState { pending: final(self).lh.pending, ..old(self).lh }, ..*old(self) }),
    {
        if self.lh.pending.len() == 0 {
            return Vec::new();
        }
        let mut paths: Vec<FsPath> = Vec::new();
        std::mem::swap(&mut paths, &mut self.lh.pending);
        if !self.lh.store_open {
            return Vec::new();
        }
        resolve_pairs(&paths, &self.repo_root)
    }

    /// The throttle timer fired: disarm it and flush.
    pub fn lh_flush_due(&mut self) -> (r: Vec<(FsPath, FsPath)>)
        ensures
            !final(self).lh.flush_scheduled,
            final(self).lh.pending@.len() == 0,
            pairs_view(r@) == if old(self).lh.store_open {
                abs_pairs(paths_view(old(self).lh.pending@), opt_view(old(self).repo_root))
            } else {
                Seq::<(PathV, PathV)>::empty()
            },
            *final(self) == (Kyde { lh: LocalHistoryState { pending: final(self).lh.pending, flush_scheduled: false, ..old(self).lh }, ..*old(self) }),
    {
        self.lh.flush_scheduled = false;
        self.lh_flush()
    }

    /// Before a destructive operation: each of `paths` with where it is read, for the
    /// host to snapshot under the operation's label. Nothing while history is off or
    /// has no store.
    pub fn lh_snapshot_now(&self, paths: &Vec<FsPath>) -> (r: Vec<(FsPath, FsPath)>)
        ensures
            pairs_view(r@) == if self.lh.enabled && self.lh.store_open {
                abs_pairs(paths_view(paths@), opt_view(self.repo_root))
            } else {
                Seq::<(PathV, PathV)>::empty()
            },
    {
        if !self.lh.enabled || !self.lh.store_open || paths.len() == 0 {
            proof {
                if paths@.len() == 0 {
                    assert(paths_view(paths@) =~= Seq::<PathV>::empty());
                }
            }
            return Vec::new();
        }
        resolve_pairs(paths, &self.repo_root)
    }

    /// Open the Local History window for `rel`: flush pending saves first, show its
    /// timeline from the newest snapshot, and open the window under the returned title.
    /// Nothing opens without a store.
    pub fn open_local_history(&mut self, rel: FsPath) -> (r: (Vec<Effect>, Option<Vec<u8>>))
        ensures
            !final(self).menu_open,
            if old(self).lh.store_open {
                &&& opt_view(final(self).lh.path) == Some(rel@)
                &&& final(self).lh.selected == 0
                &&& r.0@ == seq![
                    Effect::FlushLocalHistory,
                    Effect::ReloadLocalHistory,
                    Effect::OpenModal(ModalKind::LocalHistory),
                ]
                &&& r.1 matches Some(t) && t@ == lh_title(rel@)
            } else {
                final(self).lh == old(self).lh && r.0@.len() == 0 && r.1 is None
            },
            *final(self) == (Kyde { menu_open: final(self).menu_open, lh: LocalHistoryState { path: final(self).lh.path, selected: final(self).lh.selected, ..old(self).lh }, ..*old(self) }),
    {
        self.menu_open = false;
        let mut effects: Vec<Effect> = Vec::new();
        if !self.lh.store_open {
            return (effects, None);
        }
        let pre = "Local History: ".as_bytes_vec();
        let name = name_or_empty_bytes(&rel);
        let title = concat(&pre, &name);
        self.lh.path = Some(rel);
        self.lh.selected = 0;
        effects.push(Effect::FlushLocalHistory);
        effects.push(Effect::ReloadLocalHistory);
        effects.push(Effect::OpenModal(ModalKind::LocalHistory));
        (effects, Some(title))
    }

    /// The timeline of the open path was re-read (`events`: each snapshot's content
    /// hash, newest first): keep the selection within it and reload the diff. Nothing
    /// happens without an open path or a store.
    #[verifier::rlimit(60)]
    pub fn lh_reload(&mut self, events: Vec<Vec<u8>>) -> (effects: Vec<Effect>)
        ensures
            if old(self).lh.path is Some && old(self).lh.store_open {
                &&& final(self).lh.event_hashes == events
                &&& final(self).lh.selected == if events@.len() == 0 {
                    0
                } else if old(self).lh.selected < events@.len() {
                    old(self).lh.selected as int
                } else {
                    events@.len() - 1
                }
                &&& effects@ == seq![Effect::LoadLocalHistoryDiff]
                &&& final(self).lh.path == old(self).lh.path
            } else {
                final(self).lh == old(self).lh && effects@.len() == 0
            },
            *final(self) == (Kyde { lh: LocalHistoryState { event_hashes: final(self).lh.event_hashes, selected: final(self).lh.selected, ..old(self).lh }, ..*old(self) }),
    {
        let mut effects: Vec<Effect> = Vec::new();
        if self.lh.path.is_none() || !self.lh.store_open {
            return effects;
        }
        let n = events.len();
        let last = if n == 0 {
            0
        } else {
            n - 1
        };
        if self.lh.selected > last {
            self.lh.selected = last;
        }
        self.lh.event_hashes = events;
        effects.push(Effect::LoadLocalHistoryDiff);
        effects
    }

    /// Select timeline row `i` and re-diff; rows past the end are ignored.
    pub fn lh_select(&mut self, i: usize) -> (effects: Vec<Effect>)
        ensures
            if i < old(self).lh.event_hashes@.len() {
                &&& *final(self) == (Kyde { lh: LocalHistoryState { selected: i, ..old(self).lh }, ..*old(self) })
                &&& effects@ == seq![Effect::LoadLocalHistoryDiff]
            } else {
                *final(self) == *old(self) && effects@.len() == 0
            },
    {
        let mut effects: Vec<Effect> = Vec::new();
        if i < self.lh.event_hashes.len() {
            self.lh.selected = i;
            effects.push(Effect::LoadLocalHistoryDiff);
        }
        effects
    }

    /// The content hash of the selected snapshot, for the host to read from the store;
    /// `None` without a selection or a store.
    pub fn lh_selected_content(&self) -> (r: Option<Vec<u8>>)
        ensures
            if self.lh.store_open && self.lh.selected < self.lh.event_hashes@.len() {
                r matches Some(h) && h@ == self.lh.event_hashes@[self.lh.selected as int]@
            } else {
                r is None
            },
    {
        if !self.lh.store_open || self.lh.selected >= self.lh.event_hashes.len() {
            return None;
        }
        Some(crate::bytes::copy_bytes(&self.lh.event_hashes[self.lh.selected]))
    }

    /// The selected snapshot diffed against the current file was loaded (`None` when the
    /// snapshot could not be read). With `park`, returns the row to scroll to: the first
    /// hunk's first line (0 without hunks) less `context_rows`. Nothing changes without an
    /// open path.
    pub fn lh_load_diff(&mut self, d: Option<FileDiffModel>, park: bool, context_rows: usize) -> (scroll: Option<usize>)
        requires
            d matches Some(x) ==> x.wf(),
        ensures
            if old(self).lh.path is None {
                final(self).lh == old(self).lh && scroll is None
            } else {
                &&& final(self).lh.diff == d
                &&& scroll == match d {
                    Some(x) => if park {
                        Some(
                            if x.hunks@.len() > 0 {
                                sat_sub(x.hunks@[0].old_start, context_rows)
                            } else {
                                0
                            },
                        )
                    } else {
                        None::<usize>
                    },
                    None => None::<usize>,
                }
                &&& final(self).lh.path == old(self).lh.path
                &&& final(self).lh.selected == old(self).lh.selected
            },
            *final(self) == (Kyde { lh: LocalHistoryState { diff: final(self).lh.diff, ..old(self).lh }, ..*old(self) }),
    {
        if self.lh.path.is_none() {
            return None;
        }
        match d {
            None => {
                self.lh.diff = None;
                None
            },
            Some(x) => {
                let first = if x.hunks.len() > 0 {
                    x.hunks[0].old_start
                } else {
                    0
                };
                self.lh.diff = Some(x);
                if park {
                    Some(
                        if first >= context_rows {
                            first - context_rows
                        } else {
                            0
                        },
                    )
                } else {
                    None
                }
            },
        }
    }

    /// `»` on hunk `hi`: restore that hunk of the snapshot into the file, keeping every
    /// other difference. The diff runs snapshot → current, so the new text applies every
    /// hunk but `hi`; returns that mask, `None` without a diff.
    pub fn lh_apply_hunk(&self, hi: usize) -> (m: Option<Vec<bool>>)
        ensures
            match self.lh.diff {
                None => m is None,
                Some(d) => m matches Some(v) && mask_is(v@, d.hunks@.len() as int, |j: int| j != hi),
            },
    {
        match &self.lh.diff {
            None => None,
            Some(d) => Some(hunk_mask(d.hunks.len(), hi, true)),
        }
    }

    /// Header Revert: the file becomes exactly the selected snapshot, whose content hash
    /// is returned for the host to read (see [`Kyde::lh_selected_content`]).
    pub fn lh_revert_to_selected(&self) -> (r: Option<Vec<u8>>)
        ensures
            if self.lh.store_open && self.lh.selected < self.lh.event_hashes@.len() {
                r matches Some(h) && h@ == self.lh.event_hashes@[self.lh.selected as int]@
            } else {
                r is None
            },
    {
        self.lh_selected_content()
    }

    /// Writing restored text into the open history path: the file to write, preceded by
    /// a snapshot of its current state under `label` when history records
    /// ([`SnapshotLabel::BeforeHunkRestore`] after [`Kyde::lh_apply_hunk`],
    /// [`SnapshotLabel::BeforeRevert`] after [`Kyde::lh_revert_to_selected`]). `None`
    /// without an open path.
    pub fn lh_write_current(&self, label: SnapshotLabel) -> (r: Option<(FsPath, Vec<Effect>)>)
        ensures
            match self.lh.path {
                None => r is None,
                Some(p) => r matches Some(x) && x.0@ == p@ && x.1@ == if self.lh.enabled
                    && self.lh.store_open {
                    seq![Effect::SnapshotBeforeWrite(label)]
                } else {
                    Seq::<Effect>::empty()
                },
            },
    {
        match &self.lh.path {
            None => None,
            Some(p) => {
                let mut effects: Vec<Effect> = Vec::new();
                if self.lh.enabled && self.lh.store_open {
                    effects.push(Effect::SnapshotBeforeWrite(label));
                }
                Some((p.duplicate(), effects))
            },
        }
    }

    /// The restored text was written: reload the Browse editor when it shows the file
    /// without unsaved edits, note the write as a save, reload the timeline and git
    /// status.
    pub fn lh_written(&mut self) -> (effects: Vec<Effect>)
        ensures
            match old(self).lh.path {
                None => effects@.len() == 0 && final(self).lh == old(self).lh,
                Some(p) => {
                    let reload = if opt_view(old(self).browse.open_path) == Some(p@)
                        && !old(self).browse.editor_dirty {
                        seq![Effect::ReloadOpenEditor]
                    } else {
                        Seq::<Effect>::empty()
                    };
                    let note = if old(self).lh.enabled && old(self).lh.store_open
                        && !old(self).lh.flush_scheduled {
                        seq![Effect::ScheduleLocalHistoryFlush]
                    } else {
                        Seq::<Effect>::empty()
                    };
                    &&& effects@ == reload + note + seq![Effect::ReloadLocalHistory, Effect::Refresh]
                    &&& if old(self).lh.enabled && old(self).lh.store_open {
                        &&& path_set(final(self).lh.pending@) == path_set(old(self).lh.pending@).insert(p@)
                        &&& final(self).lh.flush_scheduled
                    } else {
                        final(self).lh == old(self).lh
                    }
                },
            },
            *final(self) == (Kyde { lh: LocalHistoryState { flush_scheduled: final(self).lh.flush_scheduled, pending: final(self).lh.pending, ..old(self).lh }, ..*old(self) }),
    {
        let path = match &self.lh.path {
            None => {
                return Vec::new();
            },
            Some(p) => p.duplicate(),
        };
        let mut effects: Vec<Effect> = Vec::new();
        let shows = match &self.browse.open_path {
            Some(o) => o.same(&path),
            None => false,
        };
        if shows && !self.browse.editor_dirty {
            effects.push(Effect::ReloadOpenEditor);
        }
        let mut note = self.lh_note_save(path);
        effects.append(&mut note);
        effects.push(Effect::ReloadLocalHistory);
        effects.push(Effect::Refresh);
        effects
    }
}


/// A settings stepper's value after one step of `delta`, before the settings clamp it to
/// their range: `value + delta`, or 1 when that leaves the range of `u32`.
pub open spec fn setting_step_spec(value: u32, delta: i64) -> u32 {
    let v = value + delta;
    if 0 <= v && v <= u32::MAX {
        v as u32
    } else {
        1
    }
}

/// See [`setting_step_spec`].
pub fn lh_setting_step(value: u32, delta: i64) -> (r: u32)
    ensures
        r == setting_step_spec(value, delta),
{
    let v: i128 = value as i128 + delta as i128;
    if 0 <= v && v <= 0xffff_ffffi128 {
        v as u32
    } else {
        1
    }
}

impl Kyde {
    /// The "Enable local history" checkbox: flip the switch, save the settings, and bring
    /// the store in step with it ([`Kyde::lh_sync_store`]).
    pub fn toggle_local_history(&mut self) -> (effects: Vec<Effect>)
        ensures
            final(self).lh.enabled == !old(self).lh.enabled,
            effects@.len() >= 1 && effects@[0] == Effect::SaveLocalHistoryConfig,
            if old(self).lh.enabled || old(self).repo_root is None {
                &&& !final(self).lh.store_open
                &&& final(self).lh.store_root is None
                &&& final(self).lh.pending@.len() == 0
                &&& effects@.len() == 1
            } else if opt_view(old(self).lh.store_root) == opt_view(old(self).repo_root) {
                &&& final(self).lh == (LocalHistoryState { enabled: true, ..old(self).lh })
                &&& effects@.len() == 1
            } else {
                &&& !final(self).lh.store_open
                &&& opt_view(final(self).lh.store_root) == opt_view(old(self).repo_root)
                &&& final(self).lh.pending == old(self).lh.pending
                &&& effects@ == seq![Effect::SaveLocalHistoryConfig, Effect::OpenLocalHistoryStore]
            },
            *final(self) == (Kyde { lh: LocalHistoryState { enabled: final(self).lh.enabled, pending: final(self).lh.pending, store_open: final(self).lh.store_open, store_root: final(self).lh.store_root, ..old(self).lh }, ..*old(self) }),
    {
        self.lh.enabled = !self.lh.enabled;
        let mut effects: Vec<Effect> = Vec::new();
        effects.push(Effect::SaveLocalHistoryConfig);
        let mut sync = self.lh_sync_store();
        effects.append(&mut sync);
        effects
    }
}

} // verus!
