use crate::keys::{KeyCode, KeyEvent};
use vstd::prelude::*;

verus! {

/// How the system view draws its charts.
#[derive(Debug, Clone, Copy, PartialEq, Eq, Structural)]
pub enum ChartMode {
    Blocks,
    Line,
}

/// What the system view's keys read of it: whether it is open, whether the dialog that signals
/// the selected process is open (and which of its three signals is selected), whether the
/// process filter is being edited, and whether a snapshot has come in.
#[derive(Debug, Clone, Copy, PartialEq, Eq, Structural)]
pub struct SystopKeys {
    pub visible: bool,
    pub shootout_visible: bool,
    pub shootout_sel: usize,
    pub filter_active: bool,
    pub has_snapshot: bool,
}

/// What a key asks of the system view.
#[derive(Debug, Clone, Copy, PartialEq, Eq, Structural)]
pub enum SystopCommand {
    Nothing,
    /// Close the signal dialog.
    CloseShootout,
    /// Send the selected signal to the selected process (then close the signal dialog).
    SignalSelected,
    /// Clear the process filter.
    ClearFilter,
    /// Save the view's preferences and close it.
    Close,
    /// Move the process selection by this many rows (0: keep it on a visible row).
    MoveSelection(i8),
    /// Move the process selection by a page, down (`true`) or up.
    PageSelection(bool),
    /// Edit the process filter with the key, then keep the selection on a visible row when
    /// `reselect`.
    EditFilter(KeyCode, bool),
    /// Switch the charts to this mode and save the preferences.
    Chart(ChartMode),
    /// Move the focus in the filter, forward (`true`) or back.
    FilterFocus(bool),
    /// Show the next (`true`) or previous network interface.
    Interface(bool),
    /// Open the signal dialog on the selected process.
    OpenShootout,
    /// Select the first process.
    SelectFirst,
    /// Select the last process that passes the filter.
    SelectLast,
    /// Sort the processes by CPU (`c`), memory (`m`), process id (`p`) or name (`n`), and save the
    /// preferences.
    Sort(char),
    /// Start editing the process filter.
    ActivateFilter,
}

/// The sort key of a letter, in either case.
pub open spec fn sort_letter(c: char) -> Option<char> {
    if c == 'c' || c == 'C' {
        Some('c')
    } else if c == 'm' || c == 'M' {
        Some('m')
    } else if c == 'p' || c == 'P' {
        Some('p')
    } else if c == 'n' || c == 'N' {
        Some('n')
    } else {
        None
    }
}

/// A key on the system view; a closed view takes no key (`None`). With the signal dialog open:
/// Esc closes it, up and down move over its three signals, Enter sends the selected one; every
/// other key is swallowed. Otherwise: Esc clears the process filter while it is being edited,
/// else closes the view; the cursor and page keys move the process selection; left and right
/// edit the filter, or switch the charts to blocks or to lines; Tab and Shift+Tab move in the
/// filter, or switch the network interface; Enter opens the signal dialog once a snapshot came
/// in; Home and End edit the filter, or select the first or the last process; the sort letters
/// edit the filter, or sort; `/` starts editing the filter; while editing it, Backspace, Delete
/// and the other characters edit it.
pub open spec fn systop_key_spec(s: SystopKeys, key: KeyEvent) -> (SystopKeys, Option<SystopCommand>) {
    let k = key.code;
    if !s.visible {
        (s, None)
    } else if s.shootout_visible {
        match k {
            KeyCode::Esc => (s, Some(SystopCommand::CloseShootout)),
            KeyCode::Up => (
                SystopKeys { shootout_sel: (if s.shootout_sel > 0 { s.shootout_sel - 1 } else { 0 }) as usize, ..s },
                Some(SystopCommand::Nothing),
            ),
            KeyCode::Down => (
                SystopKeys { shootout_sel: (if s.shootout_sel + 1 < 2 { s.shootout_sel + 1 } else { 2 }) as usize, ..s },
                Some(SystopCommand::Nothing),
            ),
            KeyCode::Enter => (s, Some(SystopCommand::SignalSelected)),
            _ => (s, Some(SystopCommand::Nothing)),
        }
    } else {
        let f = s.filter_active;
        (
            s,
            Some(
                match k {
                    KeyCode::Esc => if f { SystopCommand::ClearFilter } else { SystopCommand::Close },
                    KeyCode::Up => SystopCommand::MoveSelection(-1i8),
                    KeyCode::Down => SystopCommand::MoveSelection(1i8),
                    KeyCode::PageUp => SystopCommand::PageSelection(false),
                    KeyCode::PageDown => SystopCommand::PageSelection(true),
                    KeyCode::Left => if f { SystopCommand::EditFilter(k, false) } else { SystopCommand::Chart(ChartMode::Blocks) },
                    KeyCode::Right => if f { SystopCommand::EditFilter(k, false) } else { SystopCommand::Chart(ChartMode::Line) },
                    KeyCode::Tab => if f { SystopCommand::FilterFocus(true) } else { SystopCommand::Interface(true) },
                    KeyCode::BackTab => if f { SystopCommand::FilterFocus(false) } else { SystopCommand::Interface(false) },
                    KeyCode::Enter => if s.has_snapshot { SystopCommand::OpenShootout } else { SystopCommand::Nothing },
                    KeyCode::Backspace | KeyCode::Delete => if f { SystopCommand::EditFilter(k, true) } else { SystopCommand::Nothing },
                    KeyCode::Home => if f { SystopCommand::EditFilter(k, false) } else { SystopCommand::SelectFirst },
                    KeyCode::End => if f {
                        SystopCommand::EditFilter(k, false)
                    } else if s.has_snapshot {
                        SystopCommand::SelectLast
                    } else {
                        SystopCommand::Nothing
                    },
                    KeyCode::Char(c) => if sort_letter(c) is Some {
                        if f {
                            SystopCommand::EditFilter(KeyCode::Char(sort_letter(c)->0), true)
                        } else {
                            SystopCommand::Sort(sort_letter(c)->0)
                        }
                    } else if c == '/' && !key.control {
                        SystopCommand::ActivateFilter
                    } else if f {
                        SystopCommand::EditFilter(k, true)
                    } else {
                        SystopCommand::Nothing
                    },
                    _ => SystopCommand::Nothing,
                },
            ),
        )
    }
}

fn sort_letter_exec(c: char) -> (r: Option<char>)
    ensures
        r == sort_letter(c),
{
    if c == 'c' || c == 'C' {
        Some('c')
    } else if c == 'm' || c == 'M' {
        Some('m')
    } else if c == 'p' || c == 'P' {
        Some('p')
    } else if c == 'n' || c == 'N' {
        Some('n')
    } else {
        None
    }
}

fn main_command(s: &SystopKeys, key: KeyEvent) -> (r: SystopCommand)
    requires
        s.visible && !s.shootout_visible,
    ensures
        Some(r) == systop_key_spec(*s, key).1,
{
    let k = key.code;
    let f = s.filter_active;
    match k {
        KeyCode::Esc => if f { SystopCommand::ClearFilter } else { SystopCommand::Close },
        KeyCode::Up => SystopCommand::MoveSelection(-1i8),
        KeyCode::Down => SystopCommand::MoveSelection(1i8),
        KeyCode::PageUp => SystopCommand::PageSelection(false),
        KeyCode::PageDown => SystopCommand::PageSelection(true),
        KeyCode::Left => if f { SystopCommand::EditFilter(k, false) } else { SystopCommand::Chart(ChartMode::Blocks) },
        KeyCode::Right => if f { SystopCommand::EditFilter(k, false) } else { SystopCommand::Chart(ChartMode::Line) },
        KeyCode::Tab => if f { SystopCommand::FilterFocus(true) } else { SystopCommand::Interface(true) },
        KeyCode::BackTab => if f { SystopCommand::FilterFocus(false) } else { SystopCommand::Interface(false) },
        KeyCode::Enter => if s.has_snapshot { SystopCommand::OpenShootout } else { SystopCommand::Nothing },
        KeyCode::Backspace | KeyCode::Delete => if f { SystopCommand::EditFilter(k, true) } else { SystopCommand::Nothing },
        KeyCode::Home => if f { SystopCommand::EditFilter(k, false) } else { SystopCommand::SelectFirst },
        KeyCode::End => if f {
            SystopCommand::EditFilter(k, false)
        } else if s.has_snapshot {
            SystopCommand::SelectLast
        } else {
            SystopCommand::Nothing
        },
        KeyCode::Char(c) => match sort_letter_exec(c) {
            Some(l) => if f { SystopCommand::EditFilter(KeyCode::Char(l), true) } else { SystopCommand::Sort(l) },
            None => if c == '/' && !key.control {
                SystopCommand::ActivateFilter
            } else if f {
                SystopCommand::EditFilter(k, true)
            } else {
                SystopCommand::Nothing
            },
        },
        _ => SystopCommand::Nothing,
    }
}

/// A key on the system view, see `systop_key_spec`: the selection of the signal dialog moves
/// here; the result is what the view has to do (`None`: the view is closed and takes no key).
pub fn systop_key(s: &mut SystopKeys, key: KeyEvent) -> (r: Option<SystopCommand>)
    ensures
        (*final(s), r) == systop_key_spec(*old(s), key),
{
    if !s.visible {
        return None;
    }
    if s.shootout_visible {
        return match key.code {
            KeyCode::Esc => Some(SystopCommand::CloseShootout),
            KeyCode::Up => {
                s.shootout_sel = if s.shootout_sel > 0 { s.shootout_sel - 1 } else { 0 };
                Some(SystopCommand::Nothing)
            },
            KeyCode::Down => {
                s.shootout_sel = if s.shootout_sel < 1 { s.shootout_sel + 1 } else { 2 };
                Some(SystopCommand::Nothing)
            },
            KeyCode::Enter => Some(SystopCommand::SignalSelected),
            _ => Some(SystopCommand::Nothing),
        };
    }
    Some(main_command(s, key))
}

} // verus!
