use crate::keys::KeyCode;
use vstd::prelude::*;

verus! {

/// The single-line text field of `ratatui_cheese`, held as it is: its text, its cursor
/// (a character index) and an optional limit on the number of characters.
#[verifier::external_type_specification]
#[verifier::external_body]
pub struct ExInputState(ratatui_cheese::input::InputState);

/// The text that an `InputState` holds.
pub uninterp spec fn input_text(s: ratatui_cheese::input::InputState) -> Seq<char>;

/// The cursor of an `InputState`, as a character index.
pub uninterp spec fn input_cursor(s: ratatui_cheese::input::InputState) -> nat;

/// The character limit that an `InputState` was made with, if any.
pub uninterp spec fn input_limit(s: ratatui_cheese::input::InputState) -> Option<nat>;

/// Text and cursor after `insert_char`: the character goes in at the cursor (at the end when
/// the cursor lies past it) and the cursor moves one on; nothing changes when the limit is reached.
pub open spec fn op_insert(t: Seq<char>, c: nat, lim: Option<nat>, ch: char) -> (Seq<char>, nat) {
    if lim is Some && t.len() >= lim->0 {
        (t, c)
    } else {
        (t.insert(if c <= t.len() { c as int } else { t.len() as int }, ch), c + 1)
    }
}

/// Text and cursor after `delete_before` (backspace).
pub open spec fn op_backspace(t: Seq<char>, c: nat) -> (Seq<char>, nat) {
    if c == 0 {
        (t, c)
    } else if c <= t.len() {
        (t.remove(c - 1), (c - 1) as nat)
    } else {
        (t, (c - 1) as nat)
    }
}

/// Text and cursor after `delete_at` (delete key).
pub open spec fn op_delete(t: Seq<char>, c: nat) -> (Seq<char>, nat) {
    if c >= t.len() {
        (t, c)
    } else {
        (t.remove(c as int), c)
    }
}

/// Text and cursor after an editing key; `None` for a key that does not edit the field.
pub open spec fn key_edit(t: Seq<char>, c: nat, lim: Option<nat>, key: KeyCode) -> Option<(Seq<char>, nat)> {
    match key {
        KeyCode::Char(ch) => Some(op_insert(t, c, lim, ch)),
        KeyCode::Backspace => Some(op_backspace(t, c)),
        KeyCode::Delete => Some(op_delete(t, c)),
        KeyCode::Left => Some((t, if c > 0 { (c - 1) as nat } else { 0 })),
        KeyCode::Right => Some((t, if c < t.len() { c + 1 } else { c })),
        KeyCode::Home => Some((t, 0)),
        KeyCode::End => Some((t, t.len())),
        _ => None,
    }
}

/// A field whose cursor lies within its text, which every operation of the field keeps.
pub open spec fn input_wf(s: ratatui_cheese::input::InputState) -> bool {
    input_cursor(s) <= input_text(s).len()
}

/// `InputState::new`: an empty field, cursor at the start, no limit.
#[verifier::external_body]
pub(crate) fn input_new() -> (r: ratatui_cheese::input::InputState)
    ensures
        input_text(r) == Seq::<char>::empty(),
        input_cursor(r) == 0,
        input_limit(r) is None,
{
    ratatui_cheese::input::InputState::new()
}

/// `InputState::value`: the text of the field.
#[verifier::external_body]
pub(crate) fn input_value(s: &ratatui_cheese::input::InputState) -> (r: &str)
    ensures
        r@ == input_text(*s),
{
    s.value()
}

/// `InputState::cursor_pos`: the cursor, as a character index.
#[verifier::external_body]
pub(crate) fn input_cursor_pos(s: &ratatui_cheese::input::InputState) -> (r: usize)
    ensures
        r == input_cursor(*s),
{
    s.cursor_pos()
}

/// `InputState::set_value`: replaces the text and clamps the cursor to its length.
#[verifier::external_body]
pub(crate) fn input_set_value(s: &mut ratatui_cheese::input::InputState, v: String)
    ensures
        input_text(*final(s)) == v@,
        input_cursor(*final(s)) == if input_cursor(*old(s)) <= v@.len() { input_cursor(*old(s)) } else { v@.len() },
        input_limit(*final(s)) == input_limit(*old(s)),
{
    s.set_value(v)
}

/// `InputState::set_focused`: sets the focus flag; text, cursor and limit stay.
#[verifier::external_body]
pub(crate) fn input_set_focused(s: &mut ratatui_cheese::input::InputState, focused: bool)
    ensures
        input_text(*final(s)) == input_text(*old(s)),
        input_cursor(*final(s)) == input_cursor(*old(s)),
        input_limit(*final(s)) == input_limit(*old(s)),
{
    s.set_focused(focused)
}

/// A field whose cursor can still move one on: `InputState::insert_char` adds one to the
/// cursor unconditionally, which overflows for a cursor at the largest `usize` (a cursor that
/// stays within its text never gets there).
pub open spec fn input_room(s: ratatui_cheese::input::InputState) -> bool {
    input_cursor(s) < usize::MAX
}

/// `InputState::insert_char`: see `op_insert`.
#[verifier::external_body]
pub(crate) fn input_insert_char(s: &mut ratatui_cheese::input::InputState, ch: char)
    requires
        input_room(*old(s)),
    ensures
        (input_text(*final(s)), input_cursor(*final(s))) == op_insert(
            input_text(*old(s)),
            input_cursor(*old(s)),
            input_limit(*old(s)),
            ch,
        ),
        input_limit(*final(s)) == input_limit(*old(s)),
{
    s.insert_char(ch)
}

/// `InputState::delete_before`: see `op_backspace`.
#[verifier::external_body]
pub(crate) fn input_delete_before(s: &mut ratatui_cheese::input::InputState)
    ensures
        (input_text(*final(s)), input_cursor(*final(s))) == op_backspace(input_text(*old(s)), input_cursor(*old(s))),
        input_limit(*final(s)) == input_limit(*old(s)),
{
    s.delete_before()
}

/// `InputState::delete_at`: see `op_delete`.
#[verifier::external_body]
pub(crate) fn input_delete_at(s: &mut ratatui_cheese::input::InputState)
    ensures
        (input_text(*final(s)), input_cursor(*final(s))) == op_delete(input_text(*old(s)), input_cursor(*old(s))),
        input_limit(*final(s)) == input_limit(*old(s)),
{
    s.delete_at()
}

/// `InputState::move_left`: the cursor moves one back, stopping at the start.
#[verifier::external_body]
pub(crate) fn input_move_left(s: &mut ratatui_cheese::input::InputState)
    ensures
        input_text(*final(s)) == input_text(*old(s)),
        input_cursor(*final(s)) == if input_cursor(*old(s)) > 0 { (input_cursor(*old(s)) - 1) as nat } else { 0 },
        input_limit(*final(s)) == input_limit(*old(s)),
{
    s.move_left()
}

/// `InputState::move_right`: the cursor moves one on while it is before the end of the text.
#[verifier::external_body]
pub(crate) fn input_move_right(s: &mut ratatui_cheese::input::InputState)
    ensures
        input_text(*final(s)) == input_text(*old(s)),
        input_cursor(*final(s)) == if input_cursor(*old(s)) < input_text(*old(s)).len() {
            input_cursor(*old(s)) + 1
        } else {
            input_cursor(*old(s))
        },
        input_limit(*final(s)) == input_limit(*old(s)),
{
    s.move_right()
}

/// `InputState::home`: the cursor goes to the start.
#[verifier::external_body]
pub(crate) fn input_home(s: &mut ratatui_cheese::input::InputState)
    ensures
        input_text(*final(s)) == input_text(*old(s)),
        input_cursor(*final(s)) == 0,
        input_limit(*final(s)) == input_limit(*old(s)),
{
    s.home()
}

/// `InputState::end`: the cursor goes to the end of the text.
#[verifier::external_body]
pub(crate) fn input_end(s: &mut ratatui_cheese::input::InputState)
    ensures
        input_text(*final(s)) == input_text(*old(s)),
        input_cursor(*final(s)) == input_text(*old(s)).len(),
        input_limit(*final(s)) == input_limit(*old(s)),
{
    s.end()
}

/// A field holding the given text, cursor at the start.
pub fn input_with(v: String) -> (r: ratatui_cheese::input::InputState)
    ensures
        input_text(r) == v@,
        input_cursor(r) == 0,
        input_limit(r) is None,
{
    let mut s = input_new();
    input_set_value(&mut s, v);
    s
}

/// Applies an editing key to a text field (characters, backspace, delete, cursor keys,
/// home, end); returns whether the key was one of them.
pub fn edit_input(key: KeyCode, s: &mut ratatui_cheese::input::InputState) -> (handled: bool)
    requires
        input_room(*old(s)),
    ensures
        handled == key_edit(input_text(*old(s)), input_cursor(*old(s)), input_limit(*old(s)), key) is Some,
        handled ==> (input_text(*final(s)), input_cursor(*final(s))) == key_edit(
            input_text(*old(s)),
            input_cursor(*old(s)),
            input_limit(*old(s)),
            key,
        )->0,
        !handled ==> input_text(*final(s)) == input_text(*old(s)) && input_cursor(*final(s)) == input_cursor(*old(s)),
        input_limit(*final(s)) == input_limit(*old(s)),
{
    match key {
        KeyCode::Char(c) => {
            input_insert_char(s, c);
            true
        },
        KeyCode::Backspace => {
            input_delete_before(s);
            true
        },
        KeyCode::Delete => {
            input_delete_at(s);
            true
        },
        KeyCode::Left => {
            input_move_left(s);
            true
        },
        KeyCode::Right => {
            input_move_right(s);
            true
        },
        KeyCode::Home => {
            input_home(s);
            true
        },
        KeyCode::End => {
            input_end(s);
            true
        },
        _ => false,
    }
}

/// Every editing key keeps the cursor within the text.
pub proof fn lemma_key_edit_keeps_wf(t: Seq<char>, c: nat, lim: Option<nat>, key: KeyCode)
    requires
        c <= t.len(),
        key_edit(t, c, lim, key) is Some,
    ensures
        (key_edit(t, c, lim, key)->0).1 <= (key_edit(t, c, lim, key)->0).0.len(),
{
}


/// A copy of a field, with the given focus flag: the same text, the cursor moved to the same
/// place, no limit.
pub fn copy_input_state(src: &ratatui_cheese::input::InputState, focused: bool) -> (r: ratatui_cheese::input::InputState)
    requires
        input_wf(*src),
    ensures
        input_text(r) == input_text(*src),
        input_cursor(r) == input_cursor(*src),
        input_limit(r) is None,
{
    let mut is = input_new();
    input_set_value(&mut is, crate::chars::string_from(input_value(src)));
    input_set_focused(&mut is, focused);
    let fc = input_cursor_pos(src);
    while input_cursor_pos(&is) < fc
        invariant
            input_text(is) == input_text(*src),
            input_cursor(is) <= fc,
            fc == input_cursor(*src),
            fc <= input_text(*src).len(),
            input_limit(is) is None,
        decreases fc - input_cursor(is),
    {
        input_move_right(&mut is);
    }
    is
}

} // verus!
