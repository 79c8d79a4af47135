use crate::keys::KeyCode;
use crate::logview::{filtered_lines, filtered_rendered_log_lines, rendered_rows, row_views};
use crate::textinput::{edit_input, input_room, input_cursor, input_limit, input_text, key_edit};
use vstd::prelude::*;

verus! {

/// The scroll position of a log view that follows the newest lines: the view keeps showing the
/// last page as lines arrive.
pub open spec fn follows_tail(scroll: usize) -> bool {
    scroll == usize::MAX
}

/// The first row of the last page of a log with `total` rows shown `page` rows at a time.
pub open spec fn last_page_top(total: nat, page: nat) -> nat {
    if total > page { (total - page) as nat } else { 0 }
}

/// Scroll position after a navigation key: Up and PageUp leave the tail (starting from the last
/// page) and move up by one row or a page, stopping at the top; Down and PageDown move down by
/// one row or a page and start following the tail once they reach the last page; while
/// following the tail they change nothing. Other keys keep the position.
pub open spec fn log_scroll_key(scroll: usize, key: KeyCode, page: nat, max_top: nat) -> usize {
    let from: nat = if follows_tail(scroll) { max_top } else { scroll as nat };
    let down = |step: nat| {
        if follows_tail(scroll) {
            scroll
        } else {
            let n: nat = if (scroll as nat) + step < max_top { (scroll as nat) + step } else { max_top };
            if n >= max_top { usize::MAX } else { n as usize }
        }
    };
    match key {
        KeyCode::Up => (if from >= 1 { (from - 1) as nat } else { 0 }) as usize,
        KeyCode::PageUp => (if from >= page { (from - page) as nat } else { 0 }) as usize,
        KeyCode::Down => down(1),
        KeyCode::PageDown => down(page),
        _ => scroll,
    }
}

/// Moves the scroll position of a log view, see `log_scroll_key`.
pub fn log_scroll_step(scroll: usize, key: KeyCode, page: usize, max_top: usize) -> (r: usize)
    requires
        follows_tail(scroll) || key != KeyCode::PageDown || scroll + page <= usize::MAX,
    ensures
        r == log_scroll_key(scroll, key, page as nat, max_top as nat),
{
    let from = if scroll == usize::MAX { max_top } else { scroll };
    match key {
        KeyCode::Up => if from >= 1 { from - 1 } else { 0 },
        KeyCode::PageUp => if from >= page { from - page } else { 0 },
        KeyCode::Down | KeyCode::PageDown => {
            if scroll == usize::MAX {
                return scroll;
            }
            let step: usize = if key == KeyCode::Down { 1 } else { page };
            let n = if scroll + step < max_top { scroll + step } else { max_top };
            if n >= max_top { usize::MAX } else { n }
        },
        _ => scroll,
    }
}

/// Law: a scroll position that follows the tail or lies within the log stays so after any key.
pub proof fn law_log_scroll_in_range(scroll: usize, key: KeyCode, page: nat, max_top: nat)
    requires
        follows_tail(scroll) || scroll <= max_top,
        max_top < usize::MAX,
    ensures
        follows_tail(log_scroll_key(scroll, key, page, max_top)) || log_scroll_key(scroll, key, page, max_top) <= max_top,
{
}

/// Law: a view that follows the tail keeps following it on Down and PageDown, and moving up by
/// a row from the tail and back down by a row returns to following the tail.
pub proof fn law_log_scroll_tail(key: KeyCode, page: nat, max_top: nat)
    requires
        max_top < usize::MAX,
    ensures
        (key == KeyCode::Down || key == KeyCode::PageDown) ==> follows_tail(log_scroll_key(usize::MAX, key, page, max_top)),
        max_top >= 1 ==> follows_tail(log_scroll_key(log_scroll_key(usize::MAX, KeyCode::Up, page, max_top), KeyCode::Down, page, max_top)),
{
}

/// What a key on a log popup asks of the application besides the popup's own state.
#[derive(Debug, Clone, Copy, PartialEq, Eq, Structural)]
pub enum LogsAction {
    Nothing,
    /// The popup was closed.
    Closed,
    /// Fetch the log again.
    Reload,
    /// Live polling was switched on or off.
    PollingToggled,
}

/// A key on the filter field of a log popup: Esc and Tab leave the field, editing keys edit it.
pub open spec fn filter_field_key(
    key: KeyCode,
    before: ratatui_cheese::input::InputState,
    after: ratatui_cheese::input::InputState,
) -> bool {
    let e = key_edit(input_text(before), input_cursor(before), input_limit(before), key);
    if e is Some {
        (input_text(after), input_cursor(after)) == e->0
    } else {
        input_text(after) == input_text(before) && input_cursor(after) == input_cursor(before)
    }
}

/// The log popup of a minion: its lines, the filter, whether the filter has the keyboard, the
/// scroll position (see `follows_tail`) and whether the log is polled.
pub struct MinionLogs {
    pub visible: bool,
    pub lines: Vec<String>,
    pub filter: ratatui_cheese::input::InputState,
    pub filter_focus: bool,
    pub scroll: usize,
    pub polling: bool,
}

/// Number of rows that the popup shows for its lines and filter.
pub open spec fn minion_log_rows(lines: Seq<Seq<char>>, filter: Seq<char>) -> nat {
    rendered_rows(filtered_lines(lines, filter)).len()
}

impl MinionLogs {
    /// A key on the popup, with `viewport_rows` rows of log on screen. A hidden popup uses no
    /// key (`None`). With the filter focused: Esc and Tab leave the filter, editing keys edit
    /// it. Otherwise: Esc closes the popup, Tab and `/` focus the filter, the cursor and page
    /// keys scroll (see `log_scroll_key`, a page being the viewport and at least one row),
    /// `r` asks for a reload and `p` switches polling.
    pub fn handle_key(&mut self, key: KeyCode, viewport_rows: usize) -> (r: Option<LogsAction>)
        requires
            input_room(old(self).filter),
            follows_tail(old(self).scroll) || key != KeyCode::PageDown || old(self).scroll + (if viewport_rows >= 1 {
                viewport_rows
            } else {
                1
            }) <= usize::MAX,
        ensures
            r is None <==> !old(self).visible,
            !old(self).visible ==> *final(self) == *old(self),
            final(self).lines == old(self).lines,
            old(self).visible && old(self).filter_focus ==> {
                &&& r == Some(LogsAction::Nothing)
                &&& final(self).filter_focus == !(key == KeyCode::Esc || key == KeyCode::Tab)
                &&& filter_field_key(key, old(self).filter, final(self).filter)
                &&& final(self).visible && final(self).scroll == old(self).scroll && final(self).polling == old(self).polling
            },
            old(self).visible && !old(self).filter_focus ==> {
                let page: nat = if viewport_rows >= 1 { viewport_rows as nat } else { 1 };
                let total = minion_log_rows(old(self).lines.deep_view(), input_text(old(self).filter));
                &&& r == Some(
                    if key == KeyCode::Esc {
                        LogsAction::Closed
                    } else if key == KeyCode::Char('r') || key == KeyCode::Char('R') {
                        LogsAction::Reload
                    } else if key == KeyCode::Char('p') || key == KeyCode::Char('P') {
                        LogsAction::PollingToggled
                    } else {
                        LogsAction::Nothing
                    },
                )
                &&& final(self).visible == (key != KeyCode::Esc)
                &&& final(self).filter_focus == (key == KeyCode::Tab || key == KeyCode::Char('/'))
                &&& final(self).polling == (old(self).polling != (key == KeyCode::Char('p') || key == KeyCode::Char('P')))
                &&& final(self).scroll == log_scroll_key(old(self).scroll, key, page, last_page_top(total, page))
                &&& input_text(final(self).filter) == input_text(old(self).filter)
                &&& input_cursor(final(self).filter) == input_cursor(old(self).filter)
            },
    {
        if !self.visible {
            return None;
        }
        let page: usize = if viewport_rows >= 1 { viewport_rows } else { 1 };
        if self.filter_focus {
            match key {
                KeyCode::Esc | KeyCode::Tab => {
                    self.filter_focus = false;
                },
                _ => {
                    edit_input(key, &mut self.filter);
                },
            }
            return Some(LogsAction::Nothing);
        }
        let rows = filtered_rendered_log_lines(&self.lines, crate::textinput::input_value(&self.filter));
        let total = rows.len();
        proof {
            assert(total == minion_log_rows(self.lines.deep_view(), input_text(self.filter)));
        }
        let max_top: usize = if total > page { total - page } else { 0 };
        match key {
            KeyCode::Esc => {
                self.visible = false;
                Some(LogsAction::Closed)
            },
            KeyCode::Tab | KeyCode::Char('/') => {
                self.filter_focus = true;
                Some(LogsAction::Nothing)
            },
            KeyCode::Char('r') | KeyCode::Char('R') => Some(LogsAction::Reload),
            KeyCode::Char('p') | KeyCode::Char('P') => {
                self.polling = !self.polling;
                Some(LogsAction::PollingToggled)
            },
            _ => {
                self.scroll = log_scroll_step(self.scroll, key, page, max_top);
                Some(LogsAction::Nothing)
            },
        }
    }
}

/// The master's log popup: one scroll position per log section (tab), the selected tab, the
/// filter, and whether the logs are polled.
pub struct MasterLogs {
    pub visible: bool,
    pub tab: usize,
    pub scrolls: Vec<usize>,
    pub filter: ratatui_cheese::input::InputState,
    pub filter_focus: bool,
    pub polling: bool,
}

impl MasterLogs {
    /// A key on the popup, with `viewport_rows` rows on screen and `total_rows` rows in the
    /// selected section under the current filter. A hidden popup uses no key (`None`); while
    /// the selected tab names no section every key is swallowed. With the filter focused: Esc
    /// and Tab leave the filter, editing keys edit it. Otherwise: Esc closes the popup, Left and
    /// Right switch tabs (stopping at the first and last), Tab and `/` focus the filter, the
    /// cursor and page keys scroll the selected section, `r` asks for a reload and `p` switches
    /// polling.
    pub fn handle_key(&mut self, key: KeyCode, viewport_rows: usize, total_rows: usize) -> (r: Option<LogsAction>)
        requires
            input_room(old(self).filter),
            old(self).tab < old(self).scrolls.len() ==> follows_tail(old(self).scrolls@[old(self).tab as int]) || key
                != KeyCode::PageDown || old(self).scrolls@[old(self).tab as int] + (if viewport_rows >= 1 {
                viewport_rows
            } else {
                1
            }) <= usize::MAX,
        ensures
            r is None <==> !old(self).visible,
            !old(self).visible || old(self).tab >= old(self).scrolls.len() ==> *final(self) == *old(self),
            old(self).visible && old(self).tab >= old(self).scrolls.len() ==> r == Some(LogsAction::Nothing),
            final(self).scrolls@.len() == old(self).scrolls@.len(),
            old(self).tab < old(self).scrolls.len() ==> final(self).tab < final(self).scrolls.len(),
            old(self).visible && old(self).tab < old(self).scrolls.len() && old(self).filter_focus ==> {
                &&& r == Some(LogsAction::Nothing)
                &&& final(self).filter_focus == !(key == KeyCode::Esc || key == KeyCode::Tab)
                &&& filter_field_key(key, old(self).filter, final(self).filter)
                &&& final(self).visible && final(self).tab == old(self).tab && final(self).scrolls == old(self).scrolls
                &&& final(self).polling == old(self).polling
            },
            old(self).visible && old(self).tab < old(self).scrolls.len() && !old(self).filter_focus ==> {
                let page: nat = if viewport_rows >= 1 { viewport_rows as nat } else { 1 };
                let t = old(self).tab as int;
                &&& r == Some(
                    if key == KeyCode::Esc {
                        LogsAction::Closed
                    } else if key == KeyCode::Char('r') || key == KeyCode::Char('R') {
                        LogsAction::Reload
                    } else if key == KeyCode::Char('p') || key == KeyCode::Char('P') {
                        LogsAction::PollingToggled
                    } else {
                        LogsAction::Nothing
                    },
                )
                &&& final(self).visible == (key != KeyCode::Esc)
                &&& final(self).filter_focus == (key == KeyCode::Tab || key == KeyCode::Char('/'))
                &&& final(self).polling == (old(self).polling != (key == KeyCode::Char('p') || key == KeyCode::Char('P')))
                &&& final(self).tab == if key == KeyCode::Left {
                    if old(self).tab > 0 { (old(self).tab - 1) as usize } else { 0 }
                } else if key == KeyCode::Right && old(self).tab + 1 < old(self).scrolls.len() {
                    (old(self).tab + 1) as usize
                } else {
                    old(self).tab
                }
                &&& final(self).scrolls@ == old(self).scrolls@.update(
                    t,
                    log_scroll_key(old(self).scrolls@[t], key, page, last_page_top(total_rows as nat, page)),
                )
                &&& input_text(final(self).filter) == input_text(old(self).filter)
                &&& input_cursor(final(self).filter) == input_cursor(old(self).filter)
            },
    {
        if !self.visible {
            return None;
        }
        if self.tab >= self.scrolls.len() {
            return Some(LogsAction::Nothing);
        }
        let page: usize = if viewport_rows >= 1 { viewport_rows } else { 1 };
        let max_top: usize = if total_rows > page { total_rows - page } else { 0 };
        if self.filter_focus {
            match key {
                KeyCode::Esc | KeyCode::Tab => {
                    self.filter_focus = false;
                },
                _ => {
                    edit_input(key, &mut self.filter);
                },
            }
            return Some(LogsAction::Nothing);
        }
        match key {
            KeyCode::Esc => {
                self.visible = false;
                Some(LogsAction::Closed)
            },
            KeyCode::Left => {
                self.tab = if self.tab > 0 { self.tab - 1 } else { 0 };
                Some(LogsAction::Nothing)
            },
            KeyCode::Right => {
                if self.tab + 1 < self.scrolls.len() {
                    self.tab = self.tab + 1;
                }
                Some(LogsAction::Nothing)
            },
            KeyCode::Tab | KeyCode::Char('/') => {
                self.filter_focus = true;
                Some(LogsAction::Nothing)
            },
            KeyCode::Char('r') | KeyCode::Char('R') => Some(LogsAction::Reload),
            KeyCode::Char('p') | KeyCode::Char('P') => {
                self.polling = !self.polling;
                Some(LogsAction::PollingToggled)
            },
            _ => {
                let t = self.tab;
                let s = log_scroll_step(self.scrolls[t], key, page, max_top);
                self.scrolls.set(t, s);
                Some(LogsAction::Nothing)
            },
        }
    }
}

} // verus!
