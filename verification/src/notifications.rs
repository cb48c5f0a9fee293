//! Banners and small settings: the update banner and how an update is applied, the crash
//! and error banners, the keymap picker and the settings window.
use vstd::prelude::*;
use vstd::string::StrSliceExecFns;
use vstd::string::StringSliceAdditionalSpecFns;
use crate::bytes::{copy_bytes, concat};
use crate::path::FsPath;
use crate::model::{Kyde, Effect, ModalKind, OnboardingState};

verus! {

/// How the update banner's action proceeds.
pub enum UpdatePlan {
    /// Nothing to do (no update, or one is already being applied).
    Nothing,
    /// Download the release zip (checked against the SHA-256 file) and swap it into the
    /// running app bundle.
    SwapBundle { zip_url: Vec<u8>, sha256_url: Vec<u8> },
    /// Download the release zip into the Downloads folder and reveal it.
    DownloadZip { zip_url: Vec<u8> },
    /// Open a release page in the browser.
    OpenPage { url: Vec<u8> },
}

/// The releases page opened when a release names none.
pub open spec fn latest_release_url() -> Seq<u8> {
    "https://github.com/kyle-ssg/kyde/releases/latest".spec_bytes()
}

impl Kyde {
    /// Act on the update banner. From an app bundle, with a zip to download, the update
    /// is swapped in place; otherwise the zip is downloaded for the user to install, or,
    /// when the release has no zip, its page is opened. A download already under way
    /// blocks another.
    pub fn do_update(&mut self, in_bundle: bool) -> (plan: UpdatePlan)
        ensures
            match old(self).update_available {
                None => plan is Nothing && final(self).updating == old(self).updating,
                Some(rel) => if rel.zip_url@.len() == 0 {
                    &&& plan matches UpdatePlan::OpenPage { url } && url@ == if rel.page_url@.len() == 0 {
                        latest_release_url()
                    } else {
                        rel.page_url@
                    }
                    &&& final(self).updating == old(self).updating
                } else if old(self).updating {
                    plan is Nothing && final(self).updating
                } else if in_bundle {
                    &&& plan matches UpdatePlan::SwapBundle { zip_url, sha256_url } && zip_url@ == rel.zip_url@
                        && sha256_url@ == rel.sha256_url@
                    &&& final(self).updating
                } else {
                    &&& plan matches UpdatePlan::DownloadZip { zip_url } && zip_url@ == rel.zip_url@
                    &&& final(self).updating
                },
            },
            final(self).update_available == old(self).update_available,
            *final(self) == (Kyde { updating: final(self).updating, ..*old(self) }),
    {
        let (zip, sha, page) = match &self.update_available {
            None => {
                return UpdatePlan::Nothing;
            },
            Some(rel) => (copy_bytes(&rel.zip_url), copy_bytes(&rel.sha256_url), copy_bytes(&rel.page_url)),
        };
        if zip.len() == 0 {
            let url = if page.len() == 0 {
                "https://github.com/kyle-ssg/kyde/releases/latest".as_bytes_vec()
            } else {
                page
            };
            return UpdatePlan::OpenPage { url };
        }
        if self.updating {
            return UpdatePlan::Nothing;
        }
        self.updating = true;
        if in_bundle {
            UpdatePlan::SwapBundle { zip_url: zip, sha256_url: sha }
        } else {
            UpdatePlan::DownloadZip { zip_url: zip }
        }
    }

    /// The in-place update finished: relaunch on success, else show why it failed.
    pub fn update_swapped(&mut self, result: Result<(), Vec<u8>>) -> (effects: Vec<Effect>)
        ensures
            !final(self).updating,
            match result {
                Ok(()) => effects@ == seq![Effect::RelaunchAndQuit] && final(self).op_error == old(self).op_error,
                Err(e) => effects@.len() == 0 && (final(self).op_error matches Some(m) && m@
                    == "Update failed: ".spec_bytes() + e@),
            },
            *final(self) == (Kyde { updating: false, op_error: final(self).op_error, ..*old(self) }),
    {
        self.updating = false;
        let mut effects: Vec<Effect> = Vec::new();
        match result {
            Ok(()) => {
                effects.push(Effect::RelaunchAndQuit);
            },
            Err(e) => {
                self.op_error = Some(concat(&"Update failed: ".as_bytes_vec(), &e));
            },
        }
        effects
    }

    /// The zip download finished: the downloaded file to reveal, else the failure shown.
    pub fn update_downloaded(&mut self, result: Result<FsPath, Vec<u8>>) -> (shown: Option<FsPath>)
        ensures
            !final(self).updating,
            match result {
                Ok(p) => shown == Some(p) && final(self).op_error == old(self).op_error,
                Err(e) => shown is None && (final(self).op_error matches Some(m) && m@
                    == "Download failed: ".spec_bytes() + e@),
            },
            *final(self) == (Kyde { updating: false, op_error: final(self).op_error, ..*old(self) }),
    {
        self.updating = false;
        match result {
            Ok(p) => Some(p),
            Err(e) => {
                self.op_error = Some(concat(&"Download failed: ".as_bytes_vec(), &e));
                None
            },
        }
    }

    /// Hide the update banner for this session.
    pub fn dismiss_update(&mut self)
        ensures
            final(self).update_available is None,
            final(self).updating == old(self).updating,
            *final(self) == (Kyde { update_available: None, ..*old(self) }),
    {
        self.update_available = None;
    }

    /// Report the previous crash on GitHub (when there is one), then dismiss its banner.
    /// Returns the crash text the report is opened for (the host builds the issue link
    /// from it).
    pub fn report_crash(&mut self) -> (r: (Vec<Effect>, Option<Vec<u8>>))
        ensures
            *final(self) == (Kyde { pending_crash: None, ..*old(self) }),
            r.1 == old(self).pending_crash,
            r.0@ == if old(self).pending_crash is Some {
                seq![Effect::OpenCrashReport, Effect::TruncateCrashLog]
            } else {
                seq![Effect::TruncateCrashLog]
            },
    {
        let mut effects: Vec<Effect> = Vec::new();
        let crash = self.pending_crash.take();
        if crash.is_some() {
            effects.push(Effect::OpenCrashReport);
        }
        let mut rest = self.dismiss_crash();
        effects.append(&mut rest);
        (effects, crash)
    }

    /// Clear the crash banner and empty the crash log so it does not come back.
    pub fn dismiss_crash(&mut self) -> (effects: Vec<Effect>)
        ensures
            *final(self) == (Kyde { pending_crash: None, ..*old(self) }),
            effects@ == seq![Effect::TruncateCrashLog],
    {
        self.pending_crash = None;
        let mut effects: Vec<Effect> = Vec::new();
        effects.push(Effect::TruncateCrashLog);
        effects
    }

    /// Dismiss the git-operation error banner.
    pub fn dismiss_op_error(&mut self)
        ensures
            final(self).op_error is None,
            final(self).pending_error == old(self).pending_error,
            *final(self) == (Kyde { op_error: None, ..*old(self) }),
    {
        self.op_error = None;
    }

    /// Open the keymap picker on the current preset.
    pub fn open_keymap(&mut self)
        ensures
            final(self).onboarding.choice == old(self).keymap_preset,
            final(self).onboarding.open,
            final(self).keymap_preset == old(self).keymap_preset,
            *final(self) == (Kyde { onboarding: OnboardingState { choice: old(self).keymap_preset, open: true, ..old(self).onboarding }, ..*old(self) }),
    {
        self.onboarding.choice = self.keymap_preset;
        self.onboarding.open = true;
    }

    /// Choose a keymap preset: it is saved and applied, and the picker closes.
    pub fn choose_preset(&mut self, preset: u8) -> (effects: Vec<Effect>)
        ensures
            final(self).keymap_preset == preset,
            !final(self).onboarding.open,
            !final(self).onboarding.forced,
            effects@ == seq![Effect::ApplyKeymap],
            *final(self) == (Kyde { keymap_preset: preset, onboarding: OnboardingState { open: false, forced: false, ..old(self).onboarding }, ..*old(self) }),
    {
        self.keymap_preset = preset;
        self.onboarding.open = false;
        self.onboarding.forced = false;
        let mut effects: Vec<Effect> = Vec::new();
        effects.push(Effect::ApplyKeymap);
        effects
    }

    /// Open the settings window with the theme dropdown closed.
    pub fn open_settings(&mut self) -> (effects: Vec<Effect>)
        ensures
            !final(self).settings_theme_open,
            effects@ == seq![Effect::OpenModal(ModalKind::Settings)],
            *final(self) == (Kyde { settings_theme_open: false, ..*old(self) }),
    {
        self.settings_theme_open = false;
        let mut effects: Vec<Effect> = Vec::new();
        effects.push(Effect::OpenModal(ModalKind::Settings));
        effects
    }

    /// The theme dropdown's selected row: the first palette that the current theme
    /// matches (`same_palette[i]` says whether it matches palette `i`).
    pub fn theme_select(&self, same_palette: &Vec<bool>) -> (r: Option<usize>)
        ensures
            match r {
                Some(i) => i < same_palette@.len() && same_palette@[i as int] && forall|k: int|
                    0 <= k < i ==> !#[trigger] same_palette@[k],
                None => forall|k: int| 0 <= k < same_palette@.len() ==> !#[trigger] same_palette@[k],
            },
    {
        let mut i: usize = 0;
        while i < same_palette.len()
            invariant
                i <= same_palette@.len(),
                forall|k: int| 0 <= k < i ==> !#[trigger] same_palette@[k],
            decreases same_palette@.len() - i,
        {
            if same_palette[i] {
                return Some(i);
            }
            i = i + 1;
        }
        None
    }

    /// Open or close the theme dropdown.
    pub fn toggle_theme_select(&mut self)
        ensures
            final(self).settings_theme_open == !old(self).settings_theme_open,
            *final(self) == (Kyde { settings_theme_open: !old(self).settings_theme_open, ..*old(self) }),
    {
        self.settings_theme_open = !self.settings_theme_open;
    }

    /// Pick palette `i` of `n` in the theme dropdown: it closes, and whether the palette
    /// exists (and is applied) is returned.
    pub fn pick_theme(&mut self, i: usize, n: usize) -> (apply: bool)
        ensures
            !final(self).settings_theme_open,
            apply == (i < n),
            *final(self) == (Kyde { settings_theme_open: false, ..*old(self) }),
    {
        self.settings_theme_open = false;
        i < n
    }
}


/// Whether the shell command (which opens Kyde from a terminal) can be installed.
pub enum ShellCmdState {
    /// Not offered on this system.
    Unavailable,
    /// Installed under this name.
    Installed(Vec<u8>),
    /// Free to install under this name.
    Available(Vec<u8>),
    /// Every name it could take is taken on the PATH.
    Taken,
}

/// The welcome picker's shell-command row.
pub struct ShellCmdRow {
    pub checked: bool,
    /// The checkbox can be toggled.
    pub enabled: bool,
    pub label: Vec<u8>,
}

impl Kyde {
    /// The shell-command row of the welcome picker, hidden where the command is not
    /// offered: installed shows ticked and locked, a free name follows the checkbox, and
    /// taken names show unticked and locked.
    pub fn shell_command_row(&self, st: &ShellCmdState) -> (r: Option<ShellCmdRow>)
        ensures
            match st {
                ShellCmdState::Unavailable => r is None,
                ShellCmdState::Installed(n) => r matches Some(row) && row.checked && !row.enabled
                    && row.label@ == "Shell command installed — run `".spec_bytes() + n@
                    + "` in any terminal".spec_bytes(),
                ShellCmdState::Available(n) => r matches Some(row) && row.checked == self.onboarding.install_cmd
                    && row.enabled && row.label@ == "Install `".spec_bytes() + n@
                    + "` command — open Kyde from any terminal".spec_bytes(),
                ShellCmdState::Taken => r matches Some(row) && !row.checked && !row.enabled
                    && row.label@ == "`ky` and `kyde` are already taken on your PATH — skipped".spec_bytes(),
            },
    {
        match st {
            ShellCmdState::Unavailable => None,
            ShellCmdState::Installed(n) => {
                let a = concat(&"Shell command installed — run `".as_bytes_vec(), n);
                Some(ShellCmdRow { checked: true, enabled: false, label: concat(&a, &"` in any terminal".as_bytes_vec()) })
            },
            ShellCmdState::Available(n) => {
                let a = concat(&"Install `".as_bytes_vec(), n);
                Some(ShellCmdRow {
                    checked: self.onboarding.install_cmd,
                    enabled: true,
                    label: concat(&a, &"` command — open Kyde from any terminal".as_bytes_vec()),
                })
            },
            ShellCmdState::Taken => Some(ShellCmdRow {
                checked: false,
                enabled: false,
                label: "`ky` and `kyde` are already taken on your PATH — skipped".as_bytes_vec(),
            }),
        }
    }

    /// A click on the shell-command row: the checkbox flips when a name is free.
    pub fn toggle_install_cmd(&mut self, st: &ShellCmdState)
        ensures
            final(self).onboarding.install_cmd == if st is Available {
                !old(self).onboarding.install_cmd
            } else {
                old(self).onboarding.install_cmd
            },
            *final(self) == (Kyde { onboarding: OnboardingState { install_cmd: final(self).onboarding.install_cmd, ..old(self).onboarding }, ..*old(self) }),
    {
        if let ShellCmdState::Available(_) = st {
            self.onboarding.install_cmd = !self.onboarding.install_cmd;
        }
    }

    /// "Continue" on the welcome picker: whether to install the shell command (ticked,
    /// and a name is free), then the highlighted preset is chosen
    /// ([`Kyde::choose_preset`]).
    pub fn onboarding_continue(&mut self, st: &ShellCmdState) -> (r: (bool, Vec<Effect>))
        ensures
            r.0 == (old(self).onboarding.install_cmd && st is Available),
            final(self).keymap_preset == old(self).onboarding.choice,
            !final(self).onboarding.open,
            !final(self).onboarding.forced,
            r.1@ == seq![Effect::ApplyKeymap],
            *final(self) == (Kyde { keymap_preset: old(self).onboarding.choice, onboarding: OnboardingState { open: false, forced: false, ..old(self).onboarding }, ..*old(self) }),
    {
        let install = self.onboarding.install_cmd && match st {
            ShellCmdState::Available(_) => true,
            _ => false,
        };
        let choice = self.onboarding.choice;
        (install, self.choose_preset(choice))
    }
}

} // verus!
