use crate::chars::{filter_hit, filter_hit_exec};
use crate::keys::KeyCode;
use crate::online::{online_host, online_host_spec};
use crate::textinput::{edit_input, input_room, input_cursor, input_limit, input_text, input_value, key_edit};
use vstd::prelude::*;

verus! {

/// A minion of the cluster, as the minion browser reads it.
pub struct MinionRow {
    pub minion_id: String,
    pub fqdn: String,
    pub hostname: String,
    pub alive: bool,
}

/// The minions of one liveness (`alive`) whose host label passes the filter, in order.
pub open spec fn pane_rows(rows: Seq<MinionRow>, alive: bool, filter: Seq<char>) -> Seq<MinionRow>
    decreases rows.len(),
{
    if rows.len() == 0 {
        rows
    } else {
        let r = pane_rows(rows.drop_last(), alive, filter);
        let m = rows.last();
        if m.alive == alive && filter_hit(online_host_spec(m.fqdn@, m.hostname@), filter) { r.push(m) } else { r }
    }
}

/// Number of minions in the online (`alive`) or offline pane for a filter, see `pane_rows`.
pub fn pane_count(rows: &Vec<MinionRow>, alive: bool, filter: &str) -> (r: usize)
    ensures
        r == pane_rows(rows@, alive, filter@).len(),
{
    let mut n: usize = 0;
    let mut i: usize = 0;
    while i < rows.len()
        invariant
            i <= rows.len(),
            n == pane_rows(rows@.take(i as int), alive, filter@).len(),
            n <= i,
        decreases rows.len() - i,
    {
        proof {
            assert(rows@.take(i as int + 1).drop_last() =~= rows@.take(i as int));
        }
        let m = &rows[i];
        if m.alive == alive && filter_hit_exec(online_host(m.fqdn.as_str(), m.hostname.as_str()).as_str(), filter) {
            n = n + 1;
        }
        i = i + 1;
    }
    assert(rows@.take(rows.len() as int) =~= rows@);
    n
}

/// The minion browser: the filter (focus 0) and the online (1) and offline (2) panes.
pub struct MinionsBrowser {
    pub visible: bool,
    pub focus: u8,
    pub online_sel: usize,
    pub offline_sel: usize,
    pub traits_modified: bool,
    pub filter: ratatui_cheese::input::InputState,
    pub menu_visible: bool,
    pub menu_sel: usize,
}

/// What a key on the panes asks of the application besides the browser's own state.
#[derive(Debug, Clone, Copy, PartialEq, Eq, Structural)]
pub enum PanesOutcome {
    Nothing,
    /// The browser was closed.
    Closed,
    /// The actions menu was opened.
    MenuOpened,
    /// Open the tag dialog for the selected online minion.
    StartTag,
    /// Tagging was asked for on the offline pane.
    OfflineTagRefused,
    /// Tagging was asked for with no online minion selected.
    NoOnlineSelected,
}

pub open spec fn last_index(n: usize) -> int {
    if n > 0 { n - 1 } else { 0 }
}

pub open spec fn clamp_add(a: usize, step: int, n: usize) -> usize {
    (if a + step < last_index(n) { a + step } else { last_index(n) }) as usize
}

/// A key on the panes with `n_online` and `n_offline` minions listed: `t` asks to tag the
/// selected online minion; Esc closes the browser; Tab and Shift+Tab cycle the focus through
/// filter, online and offline; left and right pick a pane; the navigation keys move the
/// focused pane's selection (page keys by ten, stopping at the ends) and clear the
/// modified-traits mark; Enter opens the actions menu; editing keys go back to the filter, a
/// character being typed into it.
pub open spec fn panes_key(o: MinionsBrowser, key: KeyCode, n_online: usize, n_offline: usize, n: MinionsBrowser, out: PanesOutcome) -> bool {
    if key == KeyCode::Char('t') {
        &&& n == o
        &&& out == (if o.focus != 1 {
            PanesOutcome::OfflineTagRefused
        } else if n_online == 0 || n_online <= o.online_sel {
            PanesOutcome::NoOnlineSelected
        } else {
            PanesOutcome::StartTag
        })
    } else if key == KeyCode::Esc {
        out == PanesOutcome::Closed && n == (MinionsBrowser { visible: false, ..o })
    } else if key == KeyCode::Tab {
        out == PanesOutcome::Nothing && n == (MinionsBrowser { focus: ((o.focus + 1) % 3) as u8, ..o })
    } else if key == KeyCode::BackTab {
        out == PanesOutcome::Nothing && n == (MinionsBrowser { focus: ((o.focus + 2) % 3) as u8, ..o })
    } else if key == KeyCode::Left {
        out == PanesOutcome::Nothing && n == (MinionsBrowser { focus: 1, ..o })
    } else if key == KeyCode::Right {
        out == PanesOutcome::Nothing && n == (MinionsBrowser { focus: 2, ..o })
    } else if key == KeyCode::Up || key == KeyCode::PageUp || key == KeyCode::Down || key == KeyCode::PageDown {
        let step: int = if key == KeyCode::Up || key == KeyCode::Down { 1 } else { 10 };
        let up = key == KeyCode::Up || key == KeyCode::PageUp;
        &&& out == PanesOutcome::Nothing
        &&& n == (if o.focus == 1 {
            MinionsBrowser {
                online_sel: if up { (if o.online_sel > step { o.online_sel - step } else { 0 }) as usize } else { clamp_add(o.online_sel, step, n_online) },
                traits_modified: false,
                ..o
            }
        } else if o.focus == 2 {
            MinionsBrowser {
                offline_sel: if up { (if o.offline_sel > step { o.offline_sel - step } else { 0 }) as usize } else { clamp_add(o.offline_sel, step, n_offline) },
                traits_modified: false,
                ..o
            }
        } else {
            o
        })
    } else if key == KeyCode::Enter {
        out == PanesOutcome::MenuOpened && n == (MinionsBrowser { menu_visible: true, menu_sel: 0, ..o })
    } else if key == KeyCode::Backspace || key == KeyCode::Delete || key == KeyCode::Home || key == KeyCode::End {
        out == PanesOutcome::Nothing && n == (MinionsBrowser { focus: 0, ..o })
    } else if key is Char {
        let e = key_edit(input_text(o.filter), input_cursor(o.filter), input_limit(o.filter), key);
        &&& out == PanesOutcome::Nothing
        &&& input_text(n.filter) == (e->0).0
        &&& input_cursor(n.filter) == (e->0).1
        &&& input_limit(n.filter) == input_limit(o.filter)
        &&& n == (MinionsBrowser { focus: 0, filter: n.filter, ..o })
    } else {
        out == PanesOutcome::Nothing && n == o
    }
}

/// A key on the filter: Esc closes the browser (`true`); Tab, the down and up keys and Enter
/// go to the online pane, Shift+Tab to the offline one; editing keys edit the filter.
pub open spec fn filter_key(o: MinionsBrowser, key: KeyCode, n: MinionsBrowser, closed: bool) -> bool {
    if key == KeyCode::Esc {
        closed && n == (MinionsBrowser { visible: false, ..o })
    } else if key == KeyCode::Tab || key == KeyCode::Up || key == KeyCode::Down || key == KeyCode::Enter {
        !closed && n == (MinionsBrowser { focus: 1, ..o })
    } else if key == KeyCode::BackTab {
        !closed && n == (MinionsBrowser { focus: 2, ..o })
    } else if key is Char || key == KeyCode::Backspace || key == KeyCode::Delete || key == KeyCode::Left || key
        == KeyCode::Right || key == KeyCode::Home || key == KeyCode::End {
        let e = key_edit(input_text(o.filter), input_cursor(o.filter), input_limit(o.filter), key);
        &&& !closed
        &&& input_text(n.filter) == (e->0).0
        &&& input_cursor(n.filter) == (e->0).1
        &&& input_limit(n.filter) == input_limit(o.filter)
        &&& n == (MinionsBrowser { filter: n.filter, ..o })
    } else {
        !closed && n == o
    }
}

fn step_down(sel: usize, step: usize, n: usize) -> (r: usize)
    ensures
        r == clamp_add(sel, step as int, n),
{
    let last = n.saturating_sub(1);
    let c = sel.saturating_add(step);
    if c < last { c } else { last }
}

impl MinionsBrowser {
    /// A key on the panes, see `panes_key`.
    pub fn handle_panes_key(&mut self, key: KeyCode, n_online: usize, n_offline: usize) -> (r: PanesOutcome)
        requires
            input_room(old(self).filter),
            old(self).focus < 3,
        ensures
            panes_key(*old(self), key, n_online, n_offline, *final(self), r),
    {
        if key == KeyCode::Char('t') {
            if self.focus != 1 {
                return PanesOutcome::OfflineTagRefused;
            }
            if n_online == 0 || n_online <= self.online_sel {
                return PanesOutcome::NoOnlineSelected;
            }
            return PanesOutcome::StartTag;
        }
        if key == KeyCode::Esc {
            self.visible = false;
            PanesOutcome::Closed
        } else if key == KeyCode::Tab {
            self.focus = (self.focus + 1) % 3;
            PanesOutcome::Nothing
        } else if key == KeyCode::BackTab {
            self.focus = (self.focus + 2) % 3;
            PanesOutcome::Nothing
        } else if key == KeyCode::Left {
            self.focus = 1;
            PanesOutcome::Nothing
        } else if key == KeyCode::Right {
            self.focus = 2;
            PanesOutcome::Nothing
        } else if key == KeyCode::Up || key == KeyCode::PageUp || key == KeyCode::Down || key == KeyCode::PageDown {
            let step: usize = if key == KeyCode::Up || key == KeyCode::Down { 1 } else { 10 };
            let up = key == KeyCode::Up || key == KeyCode::PageUp;
            if self.focus == 1 {
                self.online_sel = if up { self.online_sel.saturating_sub(step) } else { step_down(self.online_sel, step, n_online) };
                self.traits_modified = false;
            } else if self.focus == 2 {
                self.offline_sel = if up { self.offline_sel.saturating_sub(step) } else { step_down(self.offline_sel, step, n_offline) };
                self.traits_modified = false;
            }
            PanesOutcome::Nothing
        } else if key == KeyCode::Enter {
            self.menu_visible = true;
            self.menu_sel = 0;
            PanesOutcome::MenuOpened
        } else if key == KeyCode::Backspace || key == KeyCode::Delete || key == KeyCode::Home || key == KeyCode::End {
            self.focus = 0;
            PanesOutcome::Nothing
        } else {
            match key {
                KeyCode::Char(_) => {
                    edit_input(key, &mut self.filter);
                    self.focus = 0;
                },
                _ => {},
            }
            PanesOutcome::Nothing
        }
    }

    /// A key on the filter, see `filter_key`; returns whether the browser was closed.
    pub fn handle_filter_key(&mut self, key: KeyCode) -> (closed: bool)
        requires
            input_room(old(self).filter),
        ensures
            filter_key(*old(self), key, *final(self), closed),
    {
        if key == KeyCode::Esc {
            self.visible = false;
            true
        } else if key == KeyCode::Tab || key == KeyCode::Up || key == KeyCode::Down || key == KeyCode::Enter {
            self.focus = 1;
            false
        } else if key == KeyCode::BackTab {
            self.focus = 2;
            false
        } else {
            match key {
                KeyCode::Char(_) | KeyCode::Backspace | KeyCode::Delete | KeyCode::Left | KeyCode::Right | KeyCode::Home
                | KeyCode::End => {
                    edit_input(key, &mut self.filter);
                },
                _ => {},
            }
            false
        }
    }
}

/// Law: Tab then Shift+Tab (and the reverse) on the minion browser returns the focus to where it was.
pub proof fn law_minions_focus_round_trip(f: u8)
    requires
        f < 3,
    ensures
        (((f + 1) % 3) as u8 + 2) % 3 == f,
        (((f + 2) % 3) as u8 + 1) % 3 == f,
{
}

} // verus!
