//! The bottom terminal panel: showing and hiding it, its tabs and which one is active.
//! The shells themselves run in the host.
use vstd::prelude::*;
use vstd::string::StrSliceExecFns;
use vstd::string::StringSliceAdditionalSpecFns;
use crate::bytes::{concat, copy_bytes};
use crate::model::{Kyde, Effect, TermState};

verus! {

/// What toggling the panel does.
#[derive(Clone, Copy, PartialEq, Eq, Structural, Debug)]
pub enum ToggleAction {
    /// Show the hidden panel, spawning a first shell when there is none.
    Open { spawn: bool },
    /// Hide the visible, focused panel.
    Hide,
    /// Focus the visible panel that lacks focus.
    FocusTerminal,
}

impl TermState {
    /// The active tab is a tab (0 when there is none).
    pub open spec fn wf(&self) -> bool {
        if self.tab_count == 0 {
            self.active == 0
        } else {
            self.active < self.tab_count
        }
    }

    /// The active tab after closing tab `idx` of `tab_count`: the same shell when it stays,
    /// else its right neighbour (the left one at the end).
    pub open spec fn active_after_close(&self, idx: usize) -> usize {
        let n = (self.tab_count - 1) as usize;
        if n == 0 {
            0
        } else if self.active > idx {
            (self.active - 1) as usize
        } else if self.active >= n {
            (n - 1) as usize
        } else {
            self.active
        }
    }
}

/// Closing a tab never switches shells behind the user's back: with the tabs' shells
/// `shells` in order, after tab `idx` closes the active tab still shows the shell it
/// showed, unless that shell was the one closed; then a neighbour of it is active.
pub proof fn law_close_keeps_active_shell<A>(t: TermState, idx: usize, shells: Seq<A>)
    requires
        t.wf(),
        idx < t.tab_count,
        shells.len() == t.tab_count,
    ensures
        t.active != idx ==> shells.remove(idx as int)[t.active_after_close(idx) as int] == shells[t.active as int],
        t.active < idx ==> t.active_after_close(idx) == t.active,
        t.active > idx ==> t.active_after_close(idx) == t.active - 1,
        t.active == idx && t.tab_count > 1 ==> (shells.remove(idx as int)[t.active_after_close(idx) as int]
            == shells[if idx + 1 < t.tab_count { idx + 1 } else { idx - 1 }]),
        t.tab_count > 1 ==> t.active_after_close(idx) < t.tab_count - 1,
{
}

impl TermState {
    /// Drop tab `idx`, keeping the active tab on the same shell where it stays.
    pub fn on_tab_closed(&mut self, idx: usize) -> (closed: bool)
        requires
            old(self).wf(),
        ensures
            final(self).wf(),
            closed == (idx < old(self).tab_count),
            if closed {
                &&& final(self).tab_count == old(self).tab_count - 1
                &&& final(self).active == old(self).active_after_close(idx)
                &&& old(self).active < idx ==> final(self).active == old(self).active
                &&& old(self).active > idx ==> final(self).active == old(self).active - 1
                &&& final(self).open == (old(self).open && old(self).tab_count > 1)
                &&& final(self).maximized == old(self).maximized
            } else {
                *final(self) == *old(self)
            },
    {
        let len = self.tab_count;
        if idx >= len {
            return false;
        }
        let n = len - 1;
        self.tab_count = n;
        if n == 0 {
            self.open = false;
            self.active = 0;
        } else if self.active > idx {
            self.active = self.active - 1;
        } else if self.active >= n {
            self.active = n - 1;
        }
        true
    }
}

/// The toggle's action: a hidden panel opens (spawning when it has no tab), a visible
/// focused one hides, a visible unfocused one takes focus.
pub open spec fn toggle_spec(open: bool, focused: bool, has_tabs: bool) -> ToggleAction {
    if !open {
        ToggleAction::Open { spawn: !has_tabs }
    } else if focused {
        ToggleAction::Hide
    } else {
        ToggleAction::FocusTerminal
    }
}

/// See [`toggle_spec`].
pub fn toggle_action(open: bool, focused: bool, has_tabs: bool) -> (r: ToggleAction)
    ensures
        r == toggle_spec(open, focused, has_tabs),
{
    if !open {
        ToggleAction::Open { spawn: !has_tabs }
    } else if focused {
        ToggleAction::Hide
    } else {
        ToggleAction::FocusTerminal
    }
}

impl Kyde {
    /// ⌃`: toggle the panel (`focused`: whether the active shell has keyboard focus). On
    /// (re)open the maximized preference is restored and the active shell focused.
    pub fn act_toggle_terminal(&mut self, focused: bool) -> (effects: Vec<Effect>)
        requires
            old(self).term.wf(),
            old(self).term.tab_count < usize::MAX,
        ensures
            final(self).term.wf(),
            match toggle_spec(old(self).term.open, focused, old(self).term.tab_count > 0) {
                ToggleAction::Open { spawn } => {
                    &&& final(self).term.open
                    &&& if spawn {
                        &&& final(self).term.tab_count == old(self).term.tab_count + 1
                        &&& final(self).term.active == old(self).term.tab_count
                        &&& effects@ == seq![
                            Effect::SpawnTerminal,
                            Effect::RestoreTerminalMaximized,
                            Effect::FocusTerminal,
                        ]
                    } else {
                        &&& final(self).term.tab_count == old(self).term.tab_count
                        &&& final(self).term.active == old(self).term.active
                        &&& effects@ == seq![Effect::RestoreTerminalMaximized, Effect::FocusTerminal]
                    }
                },
                ToggleAction::Hide => {
                    &&& !final(self).term.open
                    &&& !final(self).term.maximized
                    &&& final(self).term.tab_count == old(self).term.tab_count
                    &&& effects@ == seq![Effect::FocusRoot]
                },
                ToggleAction::FocusTerminal => {
                    &&& final(self).term == old(self).term
                    &&& effects@ == if old(self).term.tab_count > 0 {
                        seq![Effect::FocusTerminal]
                    } else {
                        Seq::<Effect>::empty()
                    }
                },
            },
            *final(self) == (Kyde { term: final(self).term, ..*old(self) }),
    {
        let mut effects: Vec<Effect> = Vec::new();
        match toggle_action(self.term.open, focused, self.term.tab_count > 0) {
            ToggleAction::Open { spawn } => {
                self.term.open = true;
                if spawn {
                    let mut s = self.new_terminal_tab();
                    effects.append(&mut s);
                }
                effects.push(Effect::RestoreTerminalMaximized);
                effects.push(Effect::FocusTerminal);
            },
            ToggleAction::Hide => {
                self.term.open = false;
                self.term.maximized = false;
                effects.push(Effect::FocusRoot);
            },
            ToggleAction::FocusTerminal => {
                let mut f = self.focus_active_terminal();
                effects.append(&mut f);
            },
        }
        effects
    }

    /// ⌘W in the terminal: close the active tab, then focus the next active shell, or the
    /// app root when the panel hid itself. Nothing while hidden or without tabs.
    pub fn act_close_terminal_tab(&mut self) -> (effects: Vec<Effect>)
        requires
            old(self).term.wf(),
        ensures
            final(self).term.wf(),
            if old(self).term.open && old(self).term.tab_count > 0 {
                &&& final(self).term.tab_count == old(self).term.tab_count - 1
                &&& final(self).term.active == old(self).term.active_after_close(old(self).term.active)
                &&& final(self).term.open == (old(self).term.tab_count > 1)
                &&& effects@ == if old(self).term.tab_count > 1 {
                    seq![Effect::FocusTerminal]
                } else {
                    seq![Effect::FocusRoot]
                }
            } else {
                final(self).term == old(self).term && effects@.len() == 0
            },
            *final(self) == (Kyde { term: final(self).term, ..*old(self) }),
    {
        let mut effects: Vec<Effect> = Vec::new();
        if self.term.open && self.term.tab_count > 0 {
            let active = self.term.active;
            self.close_terminal_tab(active);
            if self.term.open {
                let mut f = self.focus_active_terminal();
                effects.append(&mut f);
            } else {
                effects.push(Effect::FocusRoot);
            }
        }
        effects
    }

    /// ⌘T in the terminal: open a new shell (showing the panel) and focus it.
    pub fn act_new_terminal_tab(&mut self) -> (effects: Vec<Effect>)
        requires
            old(self).term.wf(),
            old(self).term.tab_count < usize::MAX,
        ensures
            final(self).term.wf(),
            final(self).term.open,
            final(self).term.tab_count == old(self).term.tab_count + 1,
            final(self).term.active == old(self).term.tab_count,
            effects@ == seq![Effect::SpawnTerminal, Effect::FocusTerminal],
            *final(self) == (Kyde { term: final(self).term, ..*old(self) }),
    {
        self.term.open = true;
        let mut effects = self.new_terminal_tab();
        let mut f = self.focus_active_terminal();
        effects.append(&mut f);
        effects
    }

    /// Spawn a shell in the open project (or the home folder) as a new, active tab.
    pub fn new_terminal_tab(&mut self) -> (effects: Vec<Effect>)
        requires
            old(self).term.tab_count < usize::MAX,
        ensures
            final(self).term.tab_count == old(self).term.tab_count + 1,
            final(self).term.active == old(self).term.tab_count,
            final(self).term.open == old(self).term.open,
            final(self).term.maximized == old(self).term.maximized,
            final(self).term.wf(),
            effects@ == seq![Effect::SpawnTerminal],
            *final(self) == (Kyde { term: final(self).term, ..*old(self) }),
    {
        self.term.tab_count = self.term.tab_count + 1;
        self.term.active = self.term.tab_count - 1;
        let mut effects: Vec<Effect> = Vec::new();
        effects.push(Effect::SpawnTerminal);
        effects
    }

    /// Close tab `idx` (the host drops its shell when this returns `true`); closing the
    /// last hides the panel. An index past the tabs is ignored.
    pub fn close_terminal_tab(&mut self, idx: usize) -> (closed: bool)
        requires
            old(self).term.wf(),
        ensures
            final(self).term.wf(),
            closed == (idx < old(self).term.tab_count),
            if closed {
                &&& final(self).term.tab_count == old(self).term.tab_count - 1
                &&& final(self).term.active == old(self).term.active_after_close(idx)
                &&& old(self).term.active < idx ==> final(self).term.active == old(self).term.active
                &&& old(self).term.active > idx ==> final(self).term.active == old(self).term.active - 1
                &&& final(self).term.open == (old(self).term.open && old(self).term.tab_count > 1)
                &&& final(self).term.maximized == old(self).term.maximized
            } else {
                final(self).term == old(self).term
            },
            *final(self) == (Kyde { term: final(self).term, ..*old(self) }),
    {
        self.term.on_tab_closed(idx)
    }

    /// Focus the active shell, when there is one.
    pub fn focus_active_terminal(&self) -> (effects: Vec<Effect>)
        ensures
            effects@ == if self.term.active < self.term.tab_count {
                seq![Effect::FocusTerminal]
            } else {
                Seq::<Effect>::empty()
            },
    {
        let mut effects: Vec<Effect> = Vec::new();
        if self.term.active < self.term.tab_count {
            effects.push(Effect::FocusTerminal);
        }
        effects
    }

    /// A click on terminal tab `i` (one of the tabs): it becomes active and takes focus.
    pub fn select_terminal_tab(&mut self, i: usize) -> (effects: Vec<Effect>)
        requires
            i < old(self).term.tab_count,
        ensures
            final(self).term == (TermState { active: i, ..old(self).term }),
            final(self).term.wf(),
            effects@ == seq![Effect::FocusTerminal],
            *final(self) == (Kyde { term: final(self).term, ..*old(self) }),
    {
        self.term.active = i;
        self.focus_active_terminal()
    }

    /// The panel's minimize button: the panel hides and is no longer maximized.
    pub fn minimize_terminal(&mut self)
        ensures
            final(self).term == (TermState { open: false, maximized: false, ..old(self).term }),
            *final(self) == (Kyde { term: final(self).term, ..*old(self) }),
    {
        self.term.open = false;
        self.term.maximized = false;
    }

    /// The maximize / restore button: the panel flips between maximized and its normal
    /// height, the preference is saved for the next launch, and the active shell is
    /// focused.
    pub fn toggle_terminal_maximized(&mut self) -> (effects: Vec<Effect>)
        ensures
            final(self).term == (TermState { maximized: !old(self).term.maximized, ..old(self).term }),
            effects@ == seq![Effect::SaveTerminalMaximized] + if old(self).term.active < old(self).term.tab_count {
                seq![Effect::FocusTerminal]
            } else {
                Seq::<Effect>::empty()
            },
            *final(self) == (Kyde { term: final(self).term, ..*old(self) }),
    {
        self.term.maximized = !self.term.maximized;
        let mut effects: Vec<Effect> = Vec::new();
        effects.push(Effect::SaveTerminalMaximized);
        let mut f = self.focus_active_terminal();
        effects.append(&mut f);
        effects
    }
}

/// The tab strip's title of a shell: its title, marked " (exited)" once its process ended.
pub fn term_tab_title(title: &Vec<u8>, exited: bool) -> (r: Vec<u8>)
    ensures
        r@ == if exited {
            title@ + " (exited)".spec_bytes()
        } else {
            title@
        },
{
    if exited {
        concat(title, &" (exited)".as_bytes_vec())
    } else {
        copy_bytes(title)
    }
}

} // verus!
