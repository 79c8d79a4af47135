use crate::keys::KeyCode;
use vstd::prelude::*;

verus! {

/// The cursor of a list after a navigation key: up and down move by one, page keys by
/// `page`, never before the first row nor past the last of `total` rows; `None` for any
/// other key.
pub open spec fn list_move(cursor: nat, key: KeyCode, total: nat, page: nat) -> Option<nat> {
    let max: nat = if total > 0 { (total - 1) as nat } else { 0 };
    let min_max = |x: nat| if x < max { x } else { max };
    match key {
        KeyCode::Up => Some(if cursor > 0 { (cursor - 1) as nat } else { 0 }),
        KeyCode::Down => Some(min_max(cursor + 1)),
        KeyCode::PageUp => Some(if cursor > page { (cursor - page) as nat } else { 0 }),
        KeyCode::PageDown => Some(min_max(cursor + page)),
        _ => None,
    }
}

/// Moves a list cursor, see `list_move`.
pub fn list_move_exec(cursor: usize, key: KeyCode, total: usize, page: usize) -> (r: Option<usize>)
    requires
        cursor + page <= usize::MAX,
        page >= 1,
    ensures
        r is Some == list_move(cursor as nat, key, total as nat, page as nat) is Some,
        r is Some ==> r->0 as nat == list_move(cursor as nat, key, total as nat, page as nat)->0,
{
    let max = if total > 0 { total - 1 } else { 0 };
    match key {
        KeyCode::Up => Some(if cursor > 0 { cursor - 1 } else { 0 }),
        KeyCode::Down => Some(if cursor + 1 < max { cursor + 1 } else { max }),
        KeyCode::PageUp => Some(if cursor > page { cursor - page } else { 0 }),
        KeyCode::PageDown => Some(if cursor + page < max { cursor + page } else { max }),
        _ => None,
    }
}

/// Law: a cursor moved by a navigation key stays on a row of a non-empty list.
pub proof fn law_list_move_in_range(cursor: nat, key: KeyCode, total: nat, page: nat)
    requires
        total > 0,
        list_move(cursor, key, total, page) is Some,
        cursor < total,
    ensures
        list_move(cursor, key, total, page)->0 < total,
{
}

/// The first visible row of a list so that `cursor` is visible in `view_h` rows, moving
/// `scroll` as little as possible and never past the last full page.
pub open spec fn follow_scroll(scroll: nat, cursor: nat, total: nat, view_h: nat) -> nat {
    let cur = if cursor < total { cursor } else if total > 0 { (total - 1) as nat } else { 0 };
    let s1 = if cur < scroll { cur } else { scroll };
    let s2 = if cur >= s1 + view_h { if view_h > 0 { (cur - (view_h - 1)) as nat } else { cur } } else { s1 };
    let max_scroll: nat = if total > view_h { (total - view_h) as nat } else { 0 };
    if s2 < max_scroll { s2 } else { max_scroll }
}

/// Scroll offset that keeps the cursor row visible, see `follow_scroll`.
pub fn follow_scroll_exec(scroll: usize, cursor: usize, total: usize, view_h: usize) -> (r: usize)
    requires
        scroll + view_h <= usize::MAX,
    ensures
        r as nat == follow_scroll(scroll as nat, cursor as nat, total as nat, view_h as nat),
{
    let cur = if cursor < total { cursor } else if total > 0 { total - 1 } else { 0 };
    let s1 = if cur < scroll { cur } else { scroll };
    let s2 = if cur >= s1 + view_h { if view_h > 0 { cur - (view_h - 1) } else { cur } } else { s1 };
    let max_scroll = if total > view_h { total - view_h } else { 0 };
    if s2 < max_scroll { s2 } else { max_scroll }
}

/// Law: with a non-empty list and a view of at least one row, the cursor row (clamped to the
/// list) lies in the visible window.
pub proof fn law_follow_scroll_shows_cursor(scroll: nat, cursor: nat, total: nat, view_h: nat)
    requires
        total > 0,
        view_h > 0,
        cursor < total,
    ensures
        follow_scroll(scroll, cursor, total, view_h) <= cursor < follow_scroll(scroll, cursor, total, view_h) + view_h,
{
}

} // verus!
