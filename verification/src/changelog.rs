//! The "What's New" window: the published releases, the selected one's notes, and the
//! loading and error states of the feed.
use vstd::prelude::*;
use vstd::string::StrSliceExecFns;
use vstd::string::StringSliceAdditionalSpecFns;
use crate::bytes::{concat, copy_bytes};
use crate::branch_list::{trim_bytes, trimmed};
use crate::model::{Kyde, Effect, ModalKind, ReleaseNote, ChangelogState};

verus! {

/// The notes shown for the selected release: its body, or nothing when the selection is
/// past the list.
pub open spec fn selected_body(c: ChangelogState) -> Seq<u8> {
    if c.selected < c.notes@.len() {
        c.notes@[c.selected as int].body@
    } else {
        Seq::empty()
    }
}

/// The error shown when the feed holds no release.
pub open spec fn no_releases_msg() -> Seq<u8> {
    "No releases published yet.".spec_bytes()
}

impl Kyde {
    /// "What's New…": open the changelog window, fetching the feed when no release is
    /// known yet.
    pub fn open_changelog(&mut self) -> (effects: Vec<Effect>)
        ensures
            if old(self).changelog.notes@.len() == 0 && !old(self).changelog.loading {
                &&& effects@ == seq![Effect::OpenModal(ModalKind::Changelog), Effect::LoadChangelog]
                &&& final(self).changelog.loading
                &&& final(self).changelog.error is None
            } else {
                &&& effects@ == seq![Effect::OpenModal(ModalKind::Changelog)]
                &&& final(self).changelog == old(self).changelog
            },
            *final(self) == (Kyde { changelog: final(self).changelog, ..*old(self) }),
    {
        let mut effects: Vec<Effect> = Vec::new();
        effects.push(Effect::OpenModal(ModalKind::Changelog));
        if self.changelog.notes.len() == 0 {
            let mut more = self.load_changelog();
            effects.append(&mut more);
        }
        effects
    }

    /// The menu action for [`Kyde::open_changelog`].
    pub fn act_open_changelog(&mut self) -> (effects: Vec<Effect>)
        ensures
            if old(self).changelog.notes@.len() == 0 && !old(self).changelog.loading {
                &&& effects@ == seq![Effect::OpenModal(ModalKind::Changelog), Effect::LoadChangelog]
                &&& final(self).changelog.loading
                &&& final(self).changelog.error is None
            } else {
                &&& effects@ == seq![Effect::OpenModal(ModalKind::Changelog)]
                &&& final(self).changelog == old(self).changelog
            },
            *final(self) == (Kyde { changelog: final(self).changelog, ..*old(self) }),
    {
        self.open_changelog()
    }

    /// Start fetching the release feed, unless a fetch is under way.
    pub fn load_changelog(&mut self) -> (effects: Vec<Effect>)
        ensures
            if old(self).changelog.loading {
                effects@.len() == 0 && final(self).changelog == old(self).changelog
            } else {
                &&& effects@ == seq![Effect::LoadChangelog]
                &&& final(self).changelog.loading
                &&& final(self).changelog.error is None
                &&& final(self).changelog.notes == old(self).changelog.notes
                &&& final(self).changelog.selected == old(self).changelog.selected
            },
            *final(self) == (Kyde { changelog: final(self).changelog, ..*old(self) }),
    {
        let mut effects: Vec<Effect> = Vec::new();
        if self.changelog.loading {
            return effects;
        }
        self.changelog.loading = true;
        self.changelog.error = None;
        effects.push(Effect::LoadChangelog);
        effects
    }

    /// Apply a fetch result: keep the releases and select the newest; an empty feed or a
    /// failure shows its message (a failure keeps the releases known before). The
    /// selected release's notes are pushed into the preview.
    pub fn set_changelog(&mut self, fetched: Result<Vec<ReleaseNote>, Vec<u8>>) -> (effects: Vec<Effect>)
        ensures
            !final(self).changelog.loading,
            match fetched {
                Ok(notes) => {
                    &&& final(self).changelog.notes == notes
                    &&& if notes@.len() == 0 {
                        &&& final(self).changelog.error matches Some(e) && e@ == no_releases_msg()
                        &&& final(self).changelog.selected == old(self).changelog.selected
                    } else {
                        final(self).changelog.error is None && final(self).changelog.selected == 0
                    }
                },
                Err(e) => {
                    &&& final(self).changelog.error == Some(e)
                    &&& final(self).changelog.notes == old(self).changelog.notes
                    &&& final(self).changelog.selected == old(self).changelog.selected
                },
            },
            final(self).changelog.body@ == selected_body(final(self).changelog),
            effects@ == seq![Effect::ShowChangelogBody],
            *final(self) == (Kyde { changelog: final(self).changelog, ..*old(self) }),
    {
        self.changelog.loading = false;
        match fetched {
            Ok(notes) => {
                if notes.len() == 0 {
                    self.changelog.notes = notes;
                    self.changelog.error = Some("No releases published yet.".as_bytes_vec());
                } else {
                    self.changelog.notes = notes;
                    self.changelog.error = None;
                    self.changelog.selected = 0;
                }
            },
            Err(e) => {
                self.changelog.error = Some(e);
            },
        }
        self.sync_changelog_body()
    }

    /// Show release `i`'s notes; an index past the list is ignored.
    pub fn select_changelog(&mut self, i: usize) -> (effects: Vec<Effect>)
        ensures
            if i < old(self).changelog.notes@.len() {
                &&& final(self).changelog.selected == i
                &&& final(self).changelog.body@ == old(self).changelog.notes@[i as int].body@
                &&& effects@ == seq![Effect::ShowChangelogBody]
            } else {
                final(self).changelog == old(self).changelog && effects@.len() == 0
            },
            final(self).changelog.notes == old(self).changelog.notes,
            *final(self) == (Kyde { changelog: final(self).changelog, ..*old(self) }),
    {
        if i >= self.changelog.notes.len() {
            return Vec::new();
        }
        self.changelog.selected = i;
        self.sync_changelog_body()
    }

    /// Put the selected release's notes (nothing when the selection is past the list)
    /// into the preview.
    pub fn sync_changelog_body(&mut self) -> (effects: Vec<Effect>)
        ensures
            final(self).changelog.body@ == selected_body(old(self).changelog),
            final(self).changelog.notes == old(self).changelog.notes,
            final(self).changelog.selected == old(self).changelog.selected,
            final(self).changelog.error == old(self).changelog.error,
            final(self).changelog.loading == old(self).changelog.loading,
            effects@ == seq![Effect::ShowChangelogBody],
            *final(self) == (Kyde { changelog: ChangelogState { body: final(self).changelog.body, ..old(self).changelog }, ..*old(self) }),
    {
        let md = if self.changelog.selected < self.changelog.notes.len() {
            copy_bytes(&self.changelog.notes[self.changelog.selected].body)
        } else {
            Vec::new()
        };
        self.changelog.body = md;
        let mut effects: Vec<Effect> = Vec::new();
        effects.push(Effect::ShowChangelogBody);
        effects
    }
}


/// A release row's title: "v" and the version.
pub open spec fn release_title_spec(version: Seq<u8>) -> Seq<u8> {
    "v".spec_bytes() + version
}

/// A release row's second line: its date, marked when it is a pre-release.
pub open spec fn release_meta_spec(date: Seq<u8>, prerelease: bool) -> Seq<u8> {
    if date.len() == 0 {
        if prerelease {
            "pre-release".spec_bytes()
        } else {
            Seq::empty()
        }
    } else if prerelease {
        date + " · pre-release".spec_bytes()
    } else {
        date
    }
}

/// The notes pane's heading: the release's title, or its version when the title is blank.
pub open spec fn release_heading_spec(title: Seq<u8>, version: Seq<u8>) -> Seq<u8> {
    if trimmed(title).len() == 0 {
        release_title_spec(version)
    } else {
        title
    }
}

/// See [`release_title_spec`].
pub fn release_title(version: &Vec<u8>) -> (r: Vec<u8>)
    ensures
        r@ == release_title_spec(version@),
{
    concat(&"v".as_bytes_vec(), version)
}

/// See [`release_meta_spec`].
pub fn release_meta(date: &Vec<u8>, prerelease: bool) -> (r: Vec<u8>)
    ensures
        r@ == release_meta_spec(date@, prerelease),
{
    if date.len() == 0 {
        if prerelease {
            "pre-release".as_bytes_vec()
        } else {
            Vec::new()
        }
    } else if prerelease {
        concat(date, &" · pre-release".as_bytes_vec())
    } else {
        copy_bytes(date)
    }
}

/// See [`release_heading_spec`].
pub fn release_heading(title: &Vec<u8>, version: &Vec<u8>) -> (r: Vec<u8>)
    ensures
        r@ == release_heading_spec(title@, version@),
{
    if trim_bytes(title).len() == 0 {
        release_title(version)
    } else {
        copy_bytes(title)
    }
}

impl Kyde {
    /// The centred status of the notes pane instead of the notes, and whether it offers
    /// Retry (and a link to the releases page): "Loading releases…" while fetching, the
    /// failure with Retry after an error; `None` shows the notes.
    pub fn changelog_message(&self) -> (r: Option<(Vec<u8>, bool)>)
        ensures
            self.changelog.loading ==> (r matches Some(m) && m.0@ == "Loading releases…".spec_bytes() && !m.1),
            !self.changelog.loading ==> match self.changelog.error {
                Some(e) => r matches Some(m) && m.0@ == "Couldn't load the changelog — ".spec_bytes() + e@ && m.1,
                None => r is None,
            },
    {
        if self.changelog.loading {
            return Some(("Loading releases…".as_bytes_vec(), false));
        }
        match &self.changelog.error {
            Some(e) => Some((concat(&"Couldn't load the changelog — ".as_bytes_vec(), e), true)),
            None => None,
        }
    }
}

} // verus!
