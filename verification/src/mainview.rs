use crate::chars::{append_str, chars_of, is_ws, push_decimal, dec_text, push_spaces, spaces, string_from, string_of, utf8_len, utf8_len_wide};
use crate::elements::ActiveBox;
use crate::keys::KeyCode;
use crate::minreg::{trim, trim_exec};
use crate::setup::{join_strings, join_with};
use vstd::prelude::*;

verus! {

/// Rows each main table shows, measured when it was last drawn; page keys move by these.
#[derive(Debug, Clone, Copy, PartialEq, Eq, Structural)]
pub struct UISizes {
    pub table_cycles: usize,
    pub table_minions: usize,
    pub table_events: usize,
    pub table_info: usize,
}

impl UISizes {
    /// Sizes before anything was drawn: all zero.
    pub fn new() -> (r: UISizes)
        ensures
            r == (UISizes { table_cycles: 0, table_minions: 0, table_events: 0, table_info: 0 }),
    {
        UISizes { table_cycles: 0, table_minions: 0, table_events: 0, table_info: 0 }
    }
}

/// The focus and the cursors of the four main panes.
#[derive(Debug, Clone, Copy, PartialEq, Eq, Structural)]
pub struct Panes {
    pub active_box: ActiveBox,
    pub saved_active_box: Option<ActiveBox>,
    pub no_focus: bool,
    pub selected_cycle: usize,
    pub selected_minion: usize,
    pub selected_event: usize,
    pub info_offset: usize,
}

/// How many rows each main pane holds.
#[derive(Debug, Clone, Copy, PartialEq, Eq, Structural)]
pub struct PaneLens {
    pub cycles: usize,
    pub minions: usize,
    pub events: usize,
    pub info_rows: usize,
}

/// What the application has to do after a key on the main panes.
#[derive(Debug, Clone, Copy, PartialEq, Eq, Structural)]
pub enum PaneEffect {
    Nothing,
    /// Show the status line of a pane.
    Status(ActiveBox),
    /// Reload the cycles and step the cycle cursor down (`true`) or up.
    UpdateCycles(bool),
    /// Drop the minion and event lists and load the minions of the selected cycle.
    ReloadMinions,
    /// Load the events of the selected minion.
    RefreshEvents,
    /// Show the data of the selected event.
    ShowEvent,
    /// Show the data of the selected event and the status line of the event pane.
    ShowEventWithStatus,
    /// Reload the cycles, load the minions of the selected one, and move to the next pane.
    OpenCycle,
    /// Load the events of the selected minion and move to the next pane.
    OpenMinion,
}

/// The pane after Right (or Enter) moves on: cycles to minions when there are minions,
/// minions to events when there are events, events and details back to cycles; nothing while
/// an overlay holds the focus.
pub open spec fn shift_next_spec(p: Panes, has_minions: bool, has_events: bool) -> Panes {
    if p.no_focus {
        p
    } else {
        match p.active_box {
            ActiveBox::Cycles => if has_minions { Panes { active_box: ActiveBox::Minions, ..p } } else { p },
            ActiveBox::Minions => if has_events { Panes { active_box: ActiveBox::Events, ..p } } else { p },
            _ => Panes { active_box: ActiveBox::Cycles, ..p },
        }
    }
}

/// The pane after Left moves back: cycles to events when there are minions, minions to cycles,
/// events and details to minions; nothing while an overlay holds the focus.
pub open spec fn shift_prev_spec(p: Panes, has_minions: bool) -> Panes {
    if p.no_focus {
        p
    } else {
        match p.active_box {
            ActiveBox::Cycles => if has_minions { Panes { active_box: ActiveBox::Events, ..p } } else { p },
            ActiveBox::Minions => Panes { active_box: ActiveBox::Cycles, ..p },
            _ => Panes { active_box: ActiveBox::Minions, ..p },
        }
    }
}

/// The focus as overlays open and close: the first overlay saves the pane and takes the focus,
/// closing the last one gives the saved pane back (the cycles when none was saved).
pub open spec fn sync_focus_spec(p: Panes, overlay_visible: bool) -> Panes {
    if overlay_visible && !p.no_focus {
        Panes { saved_active_box: Some(p.active_box), no_focus: true, ..p }
    } else if !overlay_visible && p.no_focus {
        Panes {
            active_box: match p.saved_active_box {
                Some(b) => b,
                None => ActiveBox::Cycles,
            },
            saved_active_box: None,
            no_focus: false,
            ..p
        }
    } else {
        p
    }
}

pub open spec fn ssub(a: usize, b: usize) -> usize {
    if a > b { (a - b) as usize } else { 0 }
}

pub open spec fn min_last(a: int, len: usize) -> usize {
    let last: int = if len > 0 { len - 1 } else { 0 };
    (if a < last { a } else { last }) as usize
}

/// A key on the main panes, see the cases below: page keys move the focused pane's cursor by
/// a page; up and down by one (the cycles pane reloads, the events pane hands over to the
/// details pane past its last row and back); left and right switch panes; Enter opens the
/// focused row.
pub open spec fn pane_key_spec(p: Panes, key: KeyCode, lens: PaneLens, sizes: UISizes) -> (Panes, PaneEffect) {
    match key {
        KeyCode::PageUp => match p.active_box {
            ActiveBox::Cycles => (
                Panes { selected_event: 0, selected_cycle: ssub(p.selected_cycle, sizes.table_cycles), ..p },
                PaneEffect::ReloadMinions,
            ),
            ActiveBox::Minions => (Panes { selected_minion: ssub(p.selected_minion, sizes.table_minions), ..p }, PaneEffect::RefreshEvents),
            ActiveBox::Events => (Panes { selected_event: ssub(p.selected_event, sizes.table_events), ..p }, PaneEffect::Nothing),
            ActiveBox::Info => (Panes { info_offset: ssub(p.info_offset, sizes.table_info), ..p }, PaneEffect::Nothing),
        },
        KeyCode::PageDown => match p.active_box {
            ActiveBox::Cycles => (
                Panes { selected_event: 0, selected_cycle: min_last(p.selected_cycle + sizes.table_cycles, lens.cycles), ..p },
                PaneEffect::ReloadMinions,
            ),
            ActiveBox::Minions => (
                Panes { selected_minion: min_last(p.selected_minion + sizes.table_minions, lens.minions), ..p },
                PaneEffect::RefreshEvents,
            ),
            ActiveBox::Events => (
                if lens.events > 0 {
                    Panes { selected_event: min_last(p.selected_event + sizes.table_events, lens.events), ..p }
                } else {
                    p
                },
                PaneEffect::Nothing,
            ),
            ActiveBox::Info => (Panes { info_offset: min_last(p.info_offset + sizes.table_info, lens.info_rows), ..p }, PaneEffect::Nothing),
        },
        KeyCode::Up => match p.active_box {
            ActiveBox::Cycles => (p, PaneEffect::UpdateCycles(false)),
            ActiveBox::Minions => (Panes { selected_minion: ssub(p.selected_minion, 1), ..p }, PaneEffect::RefreshEvents),
            ActiveBox::Events => (Panes { selected_event: ssub(p.selected_event, 1), ..p }, PaneEffect::ShowEvent),
            ActiveBox::Info => if p.info_offset > 0 {
                (Panes { info_offset: (p.info_offset - 1) as usize, ..p }, PaneEffect::Nothing)
            } else if lens.events > 0 {
                (Panes { active_box: ActiveBox::Events, selected_event: (lens.events - 1) as usize, ..p }, PaneEffect::ShowEventWithStatus)
            } else {
                (Panes { active_box: ActiveBox::Events, ..p }, PaneEffect::Status(ActiveBox::Events))
            },
        },
        KeyCode::Down => match p.active_box {
            ActiveBox::Cycles => (p, PaneEffect::UpdateCycles(true)),
            ActiveBox::Minions => (
                Panes { selected_minion: (if p.selected_minion < ssub(lens.minions, 1) { p.selected_minion + 1 } else { p.selected_minion as int }) as usize, ..p },
                PaneEffect::RefreshEvents,
            ),
            ActiveBox::Events => if p.selected_event < ssub(lens.events, 1) {
                (Panes { selected_event: (p.selected_event + 1) as usize, ..p }, PaneEffect::ShowEvent)
            } else if lens.info_rows > 0 {
                (Panes { active_box: ActiveBox::Info, info_offset: 0, ..p }, PaneEffect::Status(ActiveBox::Info))
            } else {
                (p, PaneEffect::ShowEvent)
            },
            ActiveBox::Info => (
                Panes { info_offset: (if p.info_offset < ssub(lens.info_rows, 1) { p.info_offset + 1 } else { p.info_offset as int }) as usize, ..p },
                PaneEffect::Nothing,
            ),
        },
        KeyCode::Right => {
            let n = shift_next_spec(p, lens.minions > 0, lens.events > 0);
            (n, if n != p { PaneEffect::Status(n.active_box) } else { PaneEffect::Nothing })
        },
        KeyCode::Left => {
            let n = shift_prev_spec(p, lens.minions > 0);
            (n, if n != p { PaneEffect::Status(n.active_box) } else { PaneEffect::Nothing })
        },
        KeyCode::Enter => match p.active_box {
            ActiveBox::Cycles => (p, PaneEffect::OpenCycle),
            ActiveBox::Minions => (p, PaneEffect::OpenMinion),
            ActiveBox::Events => if lens.events > 0 && p.selected_event < lens.events {
                (Panes { active_box: ActiveBox::Info, ..p }, PaneEffect::ShowEventWithStatus)
            } else {
                (p, PaneEffect::Nothing)
            },
            ActiveBox::Info => (p, PaneEffect::Nothing),
        },
        _ => (p, PaneEffect::Nothing),
    }
}

fn sat(a: usize, b: usize) -> (r: usize)
    ensures
        r == ssub(a, b),
{
    a.saturating_sub(b)
}

fn to_last(a: usize, b: usize, len: usize) -> (r: usize)
    ensures
        r == min_last(a + b, len),
{
    let last = len.saturating_sub(1);
    let c = a.saturating_add(b);
    if c < last { c } else { last }
}

impl Panes {
    /// Start-up focus: the cycles pane, every cursor at the top.
    pub fn new() -> (r: Panes)
        ensures
            r == (Panes {
                active_box: ActiveBox::Cycles,
                saved_active_box: None,
                no_focus: false,
                selected_cycle: 0,
                selected_minion: 0,
                selected_event: 0,
                info_offset: 0,
            }),
    {
        Panes {
            active_box: ActiveBox::Cycles,
            saved_active_box: None,
            no_focus: false,
            selected_cycle: 0,
            selected_minion: 0,
            selected_event: 0,
            info_offset: 0,
        }
    }

    /// Moves to the next pane, see `shift_next_spec`; returns whether the pane changed.
    pub fn shift_next(&mut self, has_minions: bool, has_events: bool) -> (moved: bool)
        ensures
            *final(self) == shift_next_spec(*old(self), has_minions, has_events),
            moved == (*final(self) != *old(self)),
    {
        if self.no_focus {
            return false;
        }
        match self.active_box {
            ActiveBox::Cycles => {
                if !has_minions {
                    return false;
                }
                self.active_box = ActiveBox::Minions;
            },
            ActiveBox::Minions => {
                if !has_events {
                    return false;
                }
                self.active_box = ActiveBox::Events;
            },
            _ => {
                self.active_box = ActiveBox::Cycles;
            },
        }
        true
    }

    /// Moves to the previous pane, see `shift_prev_spec`; returns whether the pane changed.
    pub fn shift_prev(&mut self, has_minions: bool) -> (moved: bool)
        ensures
            *final(self) == shift_prev_spec(*old(self), has_minions),
            moved == (*final(self) != *old(self)),
    {
        if self.no_focus {
            return false;
        }
        match self.active_box {
            ActiveBox::Cycles => {
                if !has_minions {
                    return false;
                }
                self.active_box = ActiveBox::Events;
            },
            ActiveBox::Minions => {
                self.active_box = ActiveBox::Cycles;
            },
            _ => {
                self.active_box = ActiveBox::Minions;
            },
        }
        true
    }

    /// Hands the focus to overlays and back, see `sync_focus_spec`.
    pub fn sync_main_focus_for_overlays(&mut self, overlay_visible: bool)
        ensures
            *final(self) == sync_focus_spec(*old(self), overlay_visible),
    {
        if overlay_visible && !self.no_focus {
            self.saved_active_box = Some(self.active_box);
            self.no_focus = true;
        } else if !overlay_visible && self.no_focus {
            self.active_box = match self.saved_active_box {
                Some(b) => b,
                None => ActiveBox::Cycles,
            };
            self.saved_active_box = None;
            self.no_focus = false;
        }
    }

    /// Whether a pane is the focused one (no pane is while an overlay is open).
    pub fn main_box_active(&self, hl: ActiveBox) -> (r: bool)
        ensures
            r == (!self.no_focus && self.active_box == hl),
    {
        !self.no_focus && self.active_box == hl
    }

    /// A key on the main panes, see `pane_key_spec`.
    pub fn handle_key(&mut self, key: KeyCode, lens: PaneLens, sizes: UISizes) -> (r: PaneEffect)
        ensures
            (*final(self), r) == pane_key_spec(*old(self), key, lens, sizes),
    {
        match key {
            KeyCode::PageUp => match self.active_box {
                ActiveBox::Cycles => {
                    self.selected_event = 0;
                    self.selected_cycle = sat(self.selected_cycle, sizes.table_cycles);
                    PaneEffect::ReloadMinions
                },
                ActiveBox::Minions => {
                    self.selected_minion = sat(self.selected_minion, sizes.table_minions);
                    PaneEffect::RefreshEvents
                },
                ActiveBox::Events => {
                    self.selected_event = sat(self.selected_event, sizes.table_events);
                    PaneEffect::Nothing
                },
                ActiveBox::Info => {
                    self.info_offset = sat(self.info_offset, sizes.table_info);
                    PaneEffect::Nothing
                },
            },
            KeyCode::PageDown => match self.active_box {
                ActiveBox::Cycles => {
                    self.selected_event = 0;
                    self.selected_cycle = to_last(self.selected_cycle, sizes.table_cycles, lens.cycles);
                    PaneEffect::ReloadMinions
                },
                ActiveBox::Minions => {
                    self.selected_minion = to_last(self.selected_minion, sizes.table_minions, lens.minions);
                    PaneEffect::RefreshEvents
                },
                ActiveBox::Events => {
                    if lens.events > 0 {
                        self.selected_event = to_last(self.selected_event, sizes.table_events, lens.events);
                    }
                    PaneEffect::Nothing
                },
                ActiveBox::Info => {
                    self.info_offset = to_last(self.info_offset, sizes.table_info, lens.info_rows);
                    PaneEffect::Nothing
                },
            },
            KeyCode::Up => match self.active_box {
                ActiveBox::Cycles => PaneEffect::UpdateCycles(false),
                ActiveBox::Minions => {
                    self.selected_minion = sat(self.selected_minion, 1);
                    PaneEffect::RefreshEvents
                },
                ActiveBox::Events => {
                    self.selected_event = sat(self.selected_event, 1);
                    PaneEffect::ShowEvent
                },
                ActiveBox::Info => {
                    if self.info_offset > 0 {
                        self.info_offset = self.info_offset - 1;
                        PaneEffect::Nothing
                    } else if lens.events > 0 {
                        self.active_box = ActiveBox::Events;
                        self.selected_event = lens.events - 1;
                        PaneEffect::ShowEventWithStatus
                    } else {
                        self.active_box = ActiveBox::Events;
                        PaneEffect::Status(ActiveBox::Events)
                    }
                },
            },
            KeyCode::Down => match self.active_box {
                ActiveBox::Cycles => PaneEffect::UpdateCycles(true),
                ActiveBox::Minions => {
                    if self.selected_minion < sat(lens.minions, 1) {
                        self.selected_minion = self.selected_minion + 1;
                    }
                    PaneEffect::RefreshEvents
                },
                ActiveBox::Events => {
                    if self.selected_event < sat(lens.events, 1) {
                        self.selected_event = self.selected_event + 1;
                        PaneEffect::ShowEvent
                    } else if lens.info_rows > 0 {
                        self.active_box = ActiveBox::Info;
                        self.info_offset = 0;
                        PaneEffect::Status(ActiveBox::Info)
                    } else {
                        PaneEffect::ShowEvent
                    }
                },
                ActiveBox::Info => {
                    if self.info_offset < sat(lens.info_rows, 1) {
                        self.info_offset = self.info_offset + 1;
                    }
                    PaneEffect::Nothing
                },
            },
            KeyCode::Right => {
                if self.shift_next(lens.minions > 0, lens.events > 0) {
                    PaneEffect::Status(self.active_box)
                } else {
                    PaneEffect::Nothing
                }
            },
            KeyCode::Left => {
                if self.shift_prev(lens.minions > 0) {
                    PaneEffect::Status(self.active_box)
                } else {
                    PaneEffect::Nothing
                }
            },
            KeyCode::Enter => match self.active_box {
                ActiveBox::Cycles => PaneEffect::OpenCycle,
                ActiveBox::Minions => PaneEffect::OpenMinion,
                ActiveBox::Events => {
                    if lens.events > 0 && self.selected_event < lens.events {
                        self.active_box = ActiveBox::Info;
                        PaneEffect::ShowEventWithStatus
                    } else {
                        PaneEffect::Nothing
                    }
                },
                ActiveBox::Info => PaneEffect::Nothing,
            },
            _ => PaneEffect::Nothing,
        }
    }
}

/// Law: while no overlay had the focus, opening an overlay and closing it again gives the
/// focus back to the pane that had it.
pub proof fn law_overlay_restores_focus(p: Panes)
    requires
        !p.no_focus,
    ensures
        sync_focus_spec(sync_focus_spec(p, true), false).active_box == p.active_box,
        !sync_focus_spec(sync_focus_spec(p, true), false).no_focus,
{
}

/// Law: with minions and events to show and the focus on the panes, Right then Left (and Left
/// then Right) comes back to the same pane, for the cycles, minions and events panes.
pub proof fn law_shift_round_trip(p: Panes)
    requires
        !p.no_focus,
        p.active_box != ActiveBox::Info,
    ensures
        shift_prev_spec(shift_next_spec(p, true, true), true).active_box == p.active_box,
        shift_next_spec(shift_prev_spec(p, true), true, true).active_box == p.active_box,
{
}

/// The cycle cursor after the cycles were reloaded with `len` rows: one step down (`down`) or
/// up, staying within the list.
pub open spec fn step_cycle_spec(selected: usize, len: usize, down: bool) -> usize {
    if down {
        if selected < ssub(len, 1) { (selected + 1) as usize } else { selected }
    } else if selected > 0 {
        (selected - 1) as usize
    } else {
        selected
    }
}

pub fn step_cycle(selected: usize, len: usize, down: bool) -> (r: usize)
    ensures
        r == step_cycle_spec(selected, len, down),
{
    if down {
        if selected < sat(len, 1) { selected + 1 } else { selected }
    } else if selected > 0 {
        selected - 1
    } else {
        selected
    }
}

/// Where the cycle cursor goes after the cycles were refreshed: onto the cycle it was on, when
/// that cycle is still listed (its first occurrence); else it stays, pulled back onto the list.
pub open spec fn preserved_index(selected_sid: Option<Seq<char>>, sids: Seq<Seq<char>>, selected: usize) -> usize {
    match selected_sid {
        Some(s) => if first_index(sids, s) >= 0 {
            first_index(sids, s) as usize
        } else {
            fallback_index(sids.len(), selected)
        },
        None => fallback_index(sids.len(), selected),
    }
}

/// Index of the first occurrence of `x`, -1 when there is none.
pub open spec fn first_index(s: Seq<Seq<char>>, x: Seq<char>) -> int
    decreases s.len(),
{
    if s.len() == 0 {
        -1
    } else if s[0] == x {
        0
    } else {
        let r = first_index(s.drop_first(), x);
        if r < 0 { -1 } else { r + 1 }
    }
}

proof fn lemma_first_index(s: Seq<Seq<char>>, x: Seq<char>, i: int)
    requires
        0 <= i <= s.len(),
        forall|j: int| 0 <= j < i ==> s[j] != x,
    ensures
        i < s.len() && s[i] == x ==> first_index(s, x) == i,
        i == s.len() ==> first_index(s, x) == -1,
    decreases i,
{
    if i > 0 {
        assert forall|j: int| 0 <= j < i - 1 implies s.drop_first()[j] != x by {
            assert(s.drop_first()[j] == s[j + 1]);
        }
        lemma_first_index(s.drop_first(), x, i - 1);
        if i < s.len() {
            assert(s.drop_first()[i - 1] == s[i]);
        }
    }
}

pub open spec fn fallback_index(len: nat, selected: usize) -> usize {
    if selected >= len { (if len > 0 { len - 1 } else { 0 }) as usize } else { selected }
}

/// The cycle cursor after a refresh, see `preserved_index`.
pub fn preserve_selection(selected_sid: Option<&str>, sids: &Vec<String>, selected: usize) -> (r: usize)
    ensures
        r == preserved_index(opt_str(selected_sid), sids.deep_view(), selected),
{
    match selected_sid {
        Some(s) => {
            let sc = chars_of(s);
            let mut i: usize = 0;
            while i < sids.len()
                invariant
                    i <= sids.len(),
                    sc@ == s@,
                    selected_sid == Some(s),
                    forall|j: int| 0 <= j < i ==> sids.deep_view()[j] != s@,
                decreases sids.len() - i,
            {
                let c = chars_of(sids[i].as_str());
                if crate::chars::chars_eq(&c, &sc) {
                    proof {
                        assert(sids.deep_view()[i as int] == s@);
                        assert((i as int) < sids.deep_view().len());
                        lemma_first_index(sids.deep_view(), s@, i as int);
                        assert(first_index(sids.deep_view(), s@) == i as int);
                        assert(selected_sid == Some(s));
                        assert(opt_str(selected_sid) == Some(s@));
                    }
                    return i;
                }
                i = i + 1;
            }
            proof {
                lemma_first_index(sids.deep_view(), s@, sids.len() as int);
            }
        },
        None => {},
    }
    if selected >= sids.len() {
        sids.len().saturating_sub(1)
    } else {
        selected
    }
}

/// A machine id as shown: trimmed, cut to eight characters and `...` when longer.
pub open spec fn short_machine_id_spec(mid: Seq<char>) -> Seq<char> {
    let t = trim(mid);
    if t.len() <= 8 { t } else { t.take(8) + "..."@ }
}

pub fn short_machine_id(mid: &str) -> (r: String)
    ensures
        r@ == short_machine_id_spec(mid@),
{
    let v = chars_of(mid);
    let t = trim_exec(&v);
    if t.len() <= 8 {
        string_of(&t)
    } else {
        let mut out = crate::chars::slice_chars(&t, 0, 8);
        append_str(&mut out, "...");
        string_of(&out)
    }
}

/// A value that counts as given: one that is not blank.
pub open spec fn given(v: Option<Seq<char>>) -> bool {
    v is Some && trim(v->0).len() > 0
}

/// The labelled rows of a result message: the action with its value (or `OK`), the platform and
/// the short machine id, each when given.
pub open spec fn machine_rows(action: Seq<char>, primary: Option<Seq<char>>, platform: Option<Seq<char>>, minion_id: Option<Seq<char>>) -> Seq<(Seq<char>, Seq<char>)> {
    let first = (action + ":"@, if given(primary) { trim(primary->0) } else { "OK"@ });
    let p = if given(platform) { seq![("Platform:"@, trim(platform->0))] } else { Seq::empty() };
    let m = if given(minion_id) { seq![("Machine ID:"@, short_machine_id_spec(minion_id->0))] } else { Seq::empty() };
    seq![first] + p + m
}

/// The widest label, in bytes.
pub open spec fn label_width(rows: Seq<(Seq<char>, Seq<char>)>) -> nat
    decreases rows.len(),
{
    if rows.len() == 0 {
        0
    } else {
        let w = label_width(rows.drop_last());
        let l = utf8_len(rows.last().0);
        if l > w { l } else { w }
    }
}

/// A label padded to `w` characters.
pub open spec fn pad_right(s: Seq<char>, w: nat) -> Seq<char> {
    if s.len() >= w { s } else { s + spaces((w - s.len()) as nat) }
}

/// A result message: one line per row, label padded to the widest, two spaces, value.
pub open spec fn machine_message_spec(action: Seq<char>, primary: Option<Seq<char>>, platform: Option<Seq<char>>, minion_id: Option<Seq<char>>) -> Seq<char> {
    let rows = machine_rows(action, primary, platform, minion_id);
    let w = label_width(rows);
    join_with(rows.map_values(|r: (Seq<char>, Seq<char>)| pad_right(r.0, w) + "  "@ + r.1), "\n"@)
}

pub open spec fn opt_str(o: Option<&str>) -> Option<Seq<char>> {
    match o {
        Some(s) => Some(s@),
        None => None,
    }
}

fn given_exec(v: Option<&str>) -> (r: Option<Vec<char>>)
    ensures
        r is Some <==> given(opt_str(v)),
        r is Some ==> r->0@ == trim(opt_str(v)->0),
{
    match v {
        Some(s) => {
            let t = trim_exec(&chars_of(s));
            if t.len() > 0 { Some(t) } else { None }
        },
        None => None,
    }
}

/// A result message, see `machine_message_spec`.
pub fn format_machine_message(action: &str, primary_value: Option<&str>, platform: Option<&str>, minion_id: Option<&str>) -> (r: String)
    ensures
        r@ == machine_message_spec(action@, opt_str(primary_value), opt_str(platform), opt_str(minion_id)),
{
    let ghost rows_spec = machine_rows(action@, opt_str(primary_value), opt_str(platform), opt_str(minion_id));
    let mut labels: Vec<Vec<char>> = Vec::new();
    let mut values: Vec<Vec<char>> = Vec::new();
    let mut a = chars_of(action);
    a.push(':');
    labels.push(a);
    values.push(
        match given_exec(primary_value) {
            Some(t) => t,
            None => chars_of("OK"),
        },
    );
    match given_exec(platform) {
        Some(t) => {
            labels.push(chars_of("Platform:"));
            values.push(t);
        },
        None => {},
    }
    match given_exec(minion_id) {
        Some(_) => {
            labels.push(chars_of("Machine ID:"));
            values.push(chars_of(short_machine_id(minion_id.unwrap()).as_str()));
        },
        None => {},
    }
    proof {
        reveal_strlit(":");
        assert(labels@.len() == rows_spec.len());
        assert forall|i: int| 0 <= i < rows_spec.len() implies labels@[i]@ == rows_spec[i].0 && values@[i]@ == rows_spec[i].1 by {}
    }
    let mut w: u128 = 0;
    let mut i: usize = 0;
    while i < labels.len()
        invariant
            i <= labels.len(),
            labels@.len() == rows_spec.len(),
            forall|k: int| 0 <= k < rows_spec.len() ==> labels@[k]@ == rows_spec[k].0,
            w == label_width(rows_spec.take(i as int)),
        decreases labels.len() - i,
    {
        proof {
            assert(rows_spec.take(i as int + 1).drop_last() =~= rows_spec.take(i as int));
        }
        let l = utf8_len_wide(&labels[i]);
        if l > w {
            w = l;
        }
        i = i + 1;
    }
    assert(rows_spec.take(rows_spec.len() as int) =~= rows_spec);
    let ghost lines_spec = rows_spec.map_values(|r: (Seq<char>, Seq<char>)| pad_right(r.0, w as nat) + "  "@ + r.1);
    let mut lines: Vec<String> = Vec::new();
    let mut j: usize = 0;
    while j < labels.len()
        invariant
            j <= labels.len(),
            labels@.len() == rows_spec.len(),
            values@.len() == rows_spec.len(),
            forall|k: int| 0 <= k < rows_spec.len() ==> labels@[k]@ == rows_spec[k].0 && values@[k]@ == rows_spec[k].1,
            w == label_width(rows_spec),
            lines_spec == rows_spec.map_values(|r: (Seq<char>, Seq<char>)| pad_right(r.0, w as nat) + "  "@ + r.1),
            lines.deep_view() == lines_spec.take(j as int),
        decreases labels.len() - j,
    {
        let mut v: Vec<char> = Vec::new();
        crate::chars::append_chars(&mut v, &labels[j]);
        if (labels[j].len() as u128) < w {
            let mut k: u128 = labels[j].len() as u128;
            while k < w
                invariant
                    labels[j as int].len() <= k <= w,
                    v@ == labels@[j as int]@ + spaces((k - labels[j as int].len()) as nat),
                decreases w - k,
            {
                let ghost v0 = v@;
                v.push(' ');
                assert(spaces((k + 1 - labels[j as int].len()) as nat) =~= spaces((k - labels[j as int].len()) as nat).push(' '));
                assert(v@ =~= labels@[j as int]@ + spaces((k + 1 - labels[j as int].len()) as nat));
                k = k + 1;
            }
        } else {
            assert(v@ =~= labels@[j as int]@);
        }
        append_str(&mut v, "  ");
        crate::chars::append_chars(&mut v, &values[j]);
        let ghost d = lines.deep_view();
        assert(v@ =~= lines_spec[j as int]);
        lines.push(string_of(&v));
        assert(lines.deep_view() =~= d.push(lines_spec[j as int]));
        assert(lines_spec.take(j as int + 1) =~= lines_spec.take(j as int).push(lines_spec[j as int]));
        j = j + 1;
    }
    assert(lines_spec.take(lines_spec.len() as int) =~= lines_spec);
    join_strings(&lines, "\n")
}

/// The enabled model ids after enabling (adding) or disabling (removing) one: sorted, each once.
pub open spec fn enabled_ids_spec(ids: Seq<Seq<char>>, model_id: Seq<char>, enabled: bool) -> Seq<Seq<char>> {
    let changed = if enabled {
        if ids.contains(model_id) { ids } else { ids.push(model_id) }
    } else {
        ids.filter(|x: Seq<char>| x != model_id)
    };
    crate::sortutil::sorted_set(changed)
}

/// The enabled model ids with one switched, see `enabled_ids_spec`.
pub fn enabled_model_ids_with(ids: &Vec<String>, model_id: &str, enabled: bool) -> (r: Vec<String>)
    ensures
        r.deep_view() == enabled_ids_spec(ids.deep_view(), model_id@, enabled),
{
    let m = chars_of(model_id);
    let mut changed: Vec<String> = Vec::new();
    let mut found = false;
    let mut i: usize = 0;
    while i < ids.len()
        invariant
            i <= ids.len(),
            m@ == model_id@,
            found == ids.deep_view().take(i as int).contains(model_id@),
            enabled ==> changed.deep_view() == ids.deep_view().take(i as int),
            !enabled ==> changed.deep_view() == ids.deep_view().take(i as int).filter(|x: Seq<char>| x != model_id@),
        decreases ids.len() - i,
    {
        let c = chars_of(ids[i].as_str());
        let same = crate::chars::chars_eq(&c, &m);
        let ghost d = changed.deep_view();
        let ghost t = ids.deep_view().take(i as int + 1);
        proof {
            assert(t.drop_last() =~= ids.deep_view().take(i as int));
            assert(t.last() == ids@[i as int]@);
            if ids.deep_view().take(i as int).contains(model_id@) {
                let k = choose|k: int| 0 <= k < i && ids.deep_view().take(i as int)[k] == model_id@;
                assert(t[k] == model_id@);
            }
            if same {
                assert(t[i as int] == model_id@);
            }
        }
        if same {
            found = true;
        }
        if enabled || !same {
            changed.push(string_from(ids[i].as_str()));
            assert(changed.deep_view() =~= d.push(ids@[i as int]@));
        }
        proof {
            reveal(Seq::filter);
            if !found {
                assert forall|k: int| 0 <= k < t.len() implies t[k] != model_id@ by {
                    if k < i {
                        assert(ids.deep_view().take(i as int)[k] == t[k]);
                    }
                }
            }
        }
        i = i + 1;
    }
    assert(ids.deep_view().take(ids.len() as int) =~= ids.deep_view());
    if enabled && !found {
        let ghost d = changed.deep_view();
        changed.push(string_from(model_id));
        assert(changed.deep_view() =~= d.push(model_id@));
    }
    crate::sortutil::sort_dedup(&changed)
}


/// The ids of the enabled models, in order.
pub open spec fn enabled_ids_of(rows: Seq<crate::dslbrowser::ModelRow>) -> Seq<Seq<char>>
    decreases rows.len(),
{
    if rows.len() == 0 {
        Seq::empty()
    } else {
        let r = enabled_ids_of(rows.drop_last());
        if rows.last().enabled { r.push(rows.last().id@) } else { r }
    }
}

/// The ids of the enabled models, sorted, each once.
pub fn enabled_model_ids(rows: &Vec<crate::dslbrowser::ModelRow>) -> (r: Vec<String>)
    ensures
        r.deep_view() == crate::sortutil::sorted_set(enabled_ids_of(rows@)),
{
    let mut ids: Vec<String> = Vec::new();
    let mut i: usize = 0;
    while i < rows.len()
        invariant
            i <= rows@.len(),
            ids.deep_view() == enabled_ids_of(rows@.take(i as int)),
        decreases rows@.len() - i,
    {
        proof {
            assert(rows@.take(i as int + 1).drop_last() =~= rows@.take(i as int));
        }
        if rows[i].enabled {
            let ghost d = ids.deep_view();
            ids.push(crate::chars::string_from(rows[i].id.as_str()));
            assert(ids.deep_view() =~= d.push(rows@[i as int].id@));
        }
        i = i + 1;
    }
    assert(rows@.take(rows@.len() as int) =~= rows@);
    crate::sortutil::sort_dedup(&ids)
}

} // verus!
