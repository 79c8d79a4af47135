use crate::alert::{focus_at, focus_index, focus_stops, DialogFormFocus};
use crate::elements::AlertResult;
use crate::keys::KeyCode;
use vstd::prelude::*;

verus! {

/// A yes/no alert: whether it is shown and which of its two buttons is chosen.
#[derive(Debug, Clone, Copy, PartialEq, Eq, Structural)]
pub struct Choice {
    pub visible: bool,
    pub choice: AlertResult,
}

/// Tab switches a yes/no alert between `Default` and its other answer.
pub open spec fn toggle_choice(c: AlertResult, other: AlertResult) -> AlertResult {
    if c == AlertResult::Default { other } else { AlertResult::Default }
}

/// A key on a yes/no alert whose other answer is `other`: Tab switches the answer; Enter closes
/// it and reports whether `other` was chosen; Esc closes it. Hidden, it takes no key.
pub open spec fn choice_key_spec(d: Choice, key: KeyCode, other: AlertResult) -> (Choice, bool, bool) {
    if !d.visible {
        (d, false, false)
    } else if key == KeyCode::Tab {
        (Choice { choice: toggle_choice(d.choice, other), ..d }, true, false)
    } else if key == KeyCode::Enter {
        (Choice { visible: false, ..d }, true, d.choice == other)
    } else if key == KeyCode::Esc {
        (Choice { visible: false, ..d }, true, false)
    } else {
        (d, true, false)
    }
}

impl Choice {
    /// A key on the alert, see `choice_key_spec`; returns whether the key was taken and whether
    /// `other` was confirmed.
    pub fn handle_key(&mut self, key: KeyCode, other: AlertResult) -> (r: (bool, bool))
        ensures
            (*final(self), r.0, r.1) == choice_key_spec(*old(self), key, other),
    {
        if !self.visible {
            return (false, false);
        }
        if key == KeyCode::Tab {
            self.choice = if self.choice == AlertResult::Default { other } else { AlertResult::Default };
            (true, false)
        } else if key == KeyCode::Enter {
            self.visible = false;
            (true, self.choice == other)
        } else if key == KeyCode::Esc {
            self.visible = false;
            (true, false)
        } else {
            (true, false)
        }
    }
}

/// Law: Tab twice on a yes/no alert comes back to the same answer.
pub proof fn law_choice_toggle_twice(c: AlertResult, other: AlertResult)
    requires
        c == AlertResult::Default || c == other,
        other != AlertResult::Default,
    ensures
        toggle_choice(toggle_choice(c, other), other) == c,
{
}

/// The exit alert: Enter on Quit quits; Enter on the other button, or Esc, closes it.
pub open spec fn exit_key_spec(d: Choice, key: KeyCode) -> (Choice, bool, bool) {
    if d.visible && key == KeyCode::Enter && d.choice == AlertResult::Quit {
        (d, true, true)
    } else {
        choice_key_spec(d, key, AlertResult::Quit)
    }
}

/// A key on the exit alert, see `exit_key_spec`; returns whether it was taken and whether to quit.
pub fn exit_alert_key(d: &mut Choice, key: KeyCode) -> (r: (bool, bool))
    ensures
        (*final(d), r.0, r.1) == exit_key_spec(*old(d), key),
{
    if d.visible && key == KeyCode::Enter && d.choice == AlertResult::Quit {
        return (true, true);
    }
    d.handle_key(key, AlertResult::Quit)
}

/// The confirmation of a master operation (1 start, 2 restart, 3 stop).
#[derive(Debug, Clone, Copy, PartialEq, Eq, Structural)]
pub struct MasterConfirm {
    pub visible: bool,
    pub choice: AlertResult,
    pub action: u8,
}

/// A key on the master confirmation: Tab switches the answer; Esc closes it and forgets the
/// operation; Enter closes it, forgets the operation and runs it when confirmed (`Quit`).
pub open spec fn master_confirm_spec(d: MasterConfirm, key: KeyCode) -> (MasterConfirm, bool, Option<u8>) {
    if !d.visible {
        (d, false, None)
    } else if key == KeyCode::Tab {
        (MasterConfirm { choice: toggle_choice(d.choice, AlertResult::Quit), ..d }, true, None)
    } else if key == KeyCode::Esc {
        (MasterConfirm { visible: false, action: 0, ..d }, true, None)
    } else if key == KeyCode::Enter {
        (
            MasterConfirm { visible: false, action: 0, ..d },
            true,
            if d.choice == AlertResult::Quit && 1 <= d.action <= 3 { Some(d.action) } else { None },
        )
    } else {
        (d, true, None)
    }
}

impl MasterConfirm {
    /// A key on the confirmation, see `master_confirm_spec`; returns whether it was taken and the
    /// operation to run.
    pub fn handle_key(&mut self, key: KeyCode) -> (r: (bool, Option<u8>))
        ensures
            (*final(self), r.0, r.1) == master_confirm_spec(*old(self), key),
    {
        if !self.visible {
            return (false, None);
        }
        if key == KeyCode::Tab {
            self.choice = if self.choice == AlertResult::Default { AlertResult::Quit } else { AlertResult::Default };
            (true, None)
        } else if key == KeyCode::Esc {
            self.visible = false;
            self.action = 0;
            (true, None)
        } else if key == KeyCode::Enter {
            self.visible = false;
            let action = self.action;
            self.action = 0;
            if self.choice == AlertResult::Quit && 1 <= action && action <= 3 {
                (true, Some(action))
            } else {
                (true, None)
            }
        } else {
            (true, None)
        }
    }
}

/// The confirmation of a cluster operation (1 shutdown all, 2 reconnect all, 3 delete the
/// minion, 4 the fourth cluster operation); deleting has a force switch and focus stops.
#[derive(Debug, Clone, Copy, PartialEq, Eq, Structural)]
pub struct ClusterConfirm {
    pub visible: bool,
    pub choice: AlertResult,
    pub pending_action: u8,
    pub force_remove: bool,
    pub focus: DialogFormFocus,
}

/// What a confirmed cluster operation is: the operation and, for a deletion, the force switch.
#[derive(Debug, Clone, Copy, PartialEq, Eq, Structural)]
pub struct ClusterRun {
    pub action: u8,
    pub force: bool,
}

/// The confirmation closed: nothing pending, the switch off, the focus on the left button.
pub open spec fn cluster_closed(d: ClusterConfirm) -> ClusterConfirm {
    ClusterConfirm {
        visible: false,
        pending_action: 0,
        force_remove: false,
        focus: DialogFormFocus::LeftButton,
        ..d
    }
}

/// The focus stops of the delete confirmation: the force switch, then the two buttons.
pub open spec fn delete_focus_next(f: DialogFormFocus) -> DialogFormFocus {
    focus_at(((focus_index(f, 1, true) + 1) % focus_stops(1, true)) as nat, 1, true)
}

pub open spec fn delete_focus_prev(f: DialogFormFocus) -> DialogFormFocus {
    focus_at(((focus_index(f, 1, true) + focus_stops(1, true) - 1) % (focus_stops(1, true) as int)) as nat, 1, true)
}

/// A key on the cluster confirmation. Deleting a minion: Tab and Shift+Tab move through the
/// force switch and the buttons, Space or Enter on the switch flips it, Enter on the left
/// button runs the deletion (with the switch), on the right one cancels, Esc cancels. Any
/// other operation: Tab switches the answer, Enter closes it and runs the operation when
/// confirmed, Esc cancels.
pub open spec fn cluster_confirm_spec(d: ClusterConfirm, key: KeyCode) -> (ClusterConfirm, bool, Option<ClusterRun>) {
    if !d.visible {
        (d, false, None)
    } else if d.pending_action == 3 {
        if key == KeyCode::Tab {
            (ClusterConfirm { focus: delete_focus_next(d.focus), ..d }, true, None)
        } else if key == KeyCode::BackTab {
            (ClusterConfirm { focus: delete_focus_prev(d.focus), ..d }, true, None)
        } else if (key == KeyCode::Char(' ') || key == KeyCode::Enter) && d.focus == DialogFormFocus::Widget(0) {
            (ClusterConfirm { force_remove: !d.force_remove, ..d }, true, None)
        } else if key == KeyCode::Enter && d.focus == DialogFormFocus::LeftButton {
            (cluster_closed(d), true, Some(ClusterRun { action: 3, force: d.force_remove }))
        } else if (key == KeyCode::Enter && d.focus == DialogFormFocus::RightButton) || key == KeyCode::Esc {
            (cluster_closed(d), true, None)
        } else {
            (d, true, None)
        }
    } else if key == KeyCode::Tab {
        (ClusterConfirm { choice: toggle_choice(d.choice, AlertResult::ClusterConfirm), ..d }, true, None)
    } else if key == KeyCode::Enter {
        (
            cluster_closed(d),
            true,
            if d.choice == AlertResult::ClusterConfirm && 1 <= d.pending_action <= 4 {
                Some(ClusterRun { action: d.pending_action, force: d.force_remove })
            } else {
                None
            },
        )
    } else if key == KeyCode::Esc {
        (cluster_closed(d), true, None)
    } else {
        (d, true, None)
    }
}

impl ClusterConfirm {
    /// Opens the confirmation for an operation; a deletion starts on the right (cancel) button.
    pub fn open(&mut self, action: u8)
        ensures
            *final(self) == (ClusterConfirm {
                visible: true,
                choice: AlertResult::ClusterConfirm,
                pending_action: action,
                focus: if action == 3 { DialogFormFocus::RightButton } else { DialogFormFocus::LeftButton },
                ..*old(self)
            }),
    {
        self.visible = true;
        self.choice = AlertResult::ClusterConfirm;
        self.pending_action = action;
        self.focus = if action == 3 { DialogFormFocus::RightButton } else { DialogFormFocus::LeftButton };
    }

    /// A key on the confirmation, see `cluster_confirm_spec`; returns whether it was taken and
    /// the operation to run.
    pub fn handle_key(&mut self, key: KeyCode) -> (r: (bool, Option<ClusterRun>))
        ensures
            (*final(self), r.0, r.1) == cluster_confirm_spec(*old(self), key),
    {
        if !self.visible {
            return (false, None);
        }
        let ghost o = *self;
        if self.pending_action == 3 {
            if key == KeyCode::Tab {
                self.focus = self.focus.next(1, true);
                return (true, None);
            } else if key == KeyCode::BackTab {
                self.focus = self.focus.prev(1, true);
                return (true, None);
            } else if (key == KeyCode::Char(' ') || key == KeyCode::Enter) && self.focus == DialogFormFocus::Widget(0) {
                self.force_remove = !self.force_remove;
                return (true, None);
            } else if key == KeyCode::Enter && self.focus == DialogFormFocus::LeftButton {
                let force = self.force_remove;
                self.close();
                return (true, Some(ClusterRun { action: 3, force }));
            } else if (key == KeyCode::Enter && self.focus == DialogFormFocus::RightButton) || key == KeyCode::Esc {
                self.close();
                return (true, None);
            }
            return (true, None);
        }
        if key == KeyCode::Tab {
            self.choice = if self.choice == AlertResult::Default { AlertResult::ClusterConfirm } else { AlertResult::Default };
            (true, None)
        } else if key == KeyCode::Enter {
            let run = if self.choice == AlertResult::ClusterConfirm && 1 <= self.pending_action && self.pending_action <= 4 {
                Some(ClusterRun { action: self.pending_action, force: self.force_remove })
            } else {
                None
            };
            self.close();
            (true, run)
        } else if key == KeyCode::Esc {
            self.close();
            (true, None)
        } else {
            (true, None)
        }
    }

    /// Closes the confirmation, see `cluster_closed`.
    pub fn close(&mut self)
        ensures
            *final(self) == cluster_closed(*old(self)),
    {
        self.visible = false;
        self.pending_action = 0;
        self.force_remove = false;
        self.focus = DialogFormFocus::LeftButton;
    }
}

/// The help popup: Enter and Esc close it (scrolled back to the top); the navigation keys scroll.
pub open spec fn help_key_spec(visible: bool, scroll: usize, key: KeyCode) -> (bool, usize, bool) {
    if !visible {
        (visible, scroll, false)
    } else if key == KeyCode::Enter || key == KeyCode::Esc {
        (false, 0, true)
    } else if key == KeyCode::Up || key == KeyCode::PageUp {
        let step: int = if key == KeyCode::Up { 1 } else { 10 };
        (true, (if scroll > step { scroll - step } else { 0 }) as usize, true)
    } else if key == KeyCode::Down || key == KeyCode::PageDown {
        let step: int = if key == KeyCode::Down { 1 } else { 10 };
        (true, (if scroll + step <= usize::MAX { scroll + step } else { usize::MAX as int }) as usize, true)
    } else {
        (true, scroll, true)
    }
}

/// A key on the help popup, see `help_key_spec`: the visibility and scroll after it, and
/// whether it was taken.
pub fn help_popup_key(visible: bool, scroll: usize, key: KeyCode) -> (r: (bool, usize, bool))
    ensures
        r == help_key_spec(visible, scroll, key),
{
    if !visible {
        return (visible, scroll, false);
    }
    if key == KeyCode::Enter || key == KeyCode::Esc {
        (false, 0, true)
    } else if key == KeyCode::Up || key == KeyCode::PageUp {
        let step: usize = if key == KeyCode::Up { 1 } else { 10 };
        (true, scroll.saturating_sub(step), true)
    } else if key == KeyCode::Down || key == KeyCode::PageDown {
        let step: usize = if key == KeyCode::Down { 1 } else { 10 };
        (true, scroll.saturating_add(step), true)
    } else {
        (true, scroll, true)
    }
}

/// The help popup's scroll position as it is drawn (and kept): no further than the last page
/// of its `total` lines, the popup showing eight rows less than the screen's `height`.
pub fn help_scroll_clamp(scroll: usize, total: usize, height: u16) -> (r: usize)
    ensures
        r == ({
            let rows: int = if height > 8 { height - 8 } else { 0 };
            let max_scroll: int = if total > rows { total - rows } else { 0 };
            if scroll < max_scroll { scroll as int } else { max_scroll }
        }),
{
    let rows: usize = if height > 8 { (height - 8) as usize } else { 0 };
    let max_scroll: usize = if total > rows { total - rows } else { 0 };
    if scroll < max_scroll { scroll } else { max_scroll }
}

/// A message alert (error or information): Enter or Esc closes it. Returns whether it is still
/// shown and whether the key was taken.
pub fn message_alert_key(visible: bool, key: KeyCode) -> (r: (bool, bool))
    ensures
        !visible ==> r == (false, false),
        visible ==> r == (!(key == KeyCode::Enter || key == KeyCode::Esc), true),
{
    if !visible {
        return (false, false);
    }
    (!(key == KeyCode::Enter || key == KeyCode::Esc), true)
}

} // verus!
