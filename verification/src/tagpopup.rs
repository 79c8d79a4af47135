use crate::chars::{char_utf8_len, char_utf8_len_exec, chars_of, string_from, string_of, utf8_len};
use crate::infotree::InfoRow;
use crate::keys::KeyCode;
use crate::online::InfoValue;
use crate::traitspopup::first_with_key;
use vstd::prelude::*;

verus! {

/// The byte offset, in UTF-8, of the character at index `k` of a text.
pub open spec fn byte_at(s: Seq<char>, k: int) -> nat {
    utf8_len(s.take(k))
}

proof fn lemma_byte_at_step(s: Seq<char>, k: int)
    requires
        0 <= k < s.len(),
    ensures
        byte_at(s, k + 1) == byte_at(s, k) + char_utf8_len(s[k]),
        char_utf8_len(s[k]) >= 1,
        char_utf8_len(s[k]) <= 4,
{
    assert(s.take(k + 1).drop_last() =~= s.take(k));
}

/// Offsets grow with the index, strictly.
proof fn lemma_byte_at_mono(s: Seq<char>, a: int, b: int)
    requires
        0 <= a <= b <= s.len(),
    ensures
        byte_at(s, a) + (b - a) <= byte_at(s, b),
    decreases b - a,
{
    if a < b {
        lemma_byte_at_mono(s, a, b - 1);
        lemma_byte_at_step(s, b - 1);
    }
}

proof fn lemma_byte_at_end(s: Seq<char>)
    ensures
        byte_at(s, s.len() as int) == utf8_len(s),
        byte_at(s, 0) == 0,
{
    assert(s.take(s.len() as int) =~= s);
    assert(s.take(0) =~= Seq::<char>::empty());
}

/// The first character index from `k` on whose offset is at least `t` (the length when there
/// is none).
pub open spec fn index_from(s: Seq<char>, t: nat, k: nat) -> nat
    decreases s.len() - k,
{
    if k >= s.len() || byte_at(s, k as int) >= t {
        k
    } else {
        index_from(s, t, k + 1)
    }
}

proof fn lemma_index_from(s: Seq<char>, t: nat, k: nat)
    requires
        k <= s.len(),
    ensures
        k <= index_from(s, t, k) <= s.len(),
        index_from(s, t, k) < s.len() ==> byte_at(s, index_from(s, t, k) as int) >= t,
        forall|j: int| k <= j < index_from(s, t, k) ==> byte_at(s, j) < t,
    decreases s.len() - k,
{
    if k < s.len() && byte_at(s, k as int) < t {
        lemma_index_from(s, t, k + 1);
    }
}

/// The index of the character that starts at the next character boundary after byte `pos`
/// (the end of the text when there is none): where the cursor snaps to, and where Right moves it.
pub open spec fn next_boundary_index(s: Seq<char>, pos: nat) -> nat {
    index_from(s, pos + 1, 0)
}

/// The index of the character that starts at the last character boundary before byte `pos`
/// (at the start for `pos` 0): where Left moves the cursor.
pub open spec fn prev_boundary_index(s: Seq<char>, pos: nat) -> nat {
    let t: nat = if pos >= 1 { (pos - 1) as nat } else { 0 };
    let f = index_from(s, t + 1, 0);
    if byte_at(s, f as int) > t {
        (f - 1) as nat
    } else {
        f
    }
}

/// A text and a byte cursor after an editing key of the tag popup, `None` for other keys.
/// The cursor first snaps to the next character boundary after it for Backspace and typed
/// characters: Backspace then removes the character before that boundary, a typed character
/// goes in at it. Delete removes the character that starts at the cursor, if one does.
pub open spec fn tag_edit(s: Seq<char>, pos: nat, key: KeyCode) -> Option<(Seq<char>, nat)> {
    match key {
        KeyCode::Backspace => {
            let i = next_boundary_index(s, pos);
            Some(if i > 0 { (s.remove(i - 1), byte_at(s, i - 1)) } else { (s, 0nat) })
        },
        KeyCode::Delete => {
            let k = index_from(s, pos, 0);
            Some(if k < s.len() && byte_at(s, k as int) == pos { (s.remove(k as int), pos) } else { (s, pos) })
        },
        KeyCode::Left => Some((s, byte_at(s, prev_boundary_index(s, pos) as int))),
        KeyCode::Right => Some((s, byte_at(s, next_boundary_index(s, pos) as int))),
        KeyCode::Home => Some((s, 0nat)),
        KeyCode::End => Some((s, utf8_len(s))),
        KeyCode::Char(c) => {
            let i = next_boundary_index(s, pos);
            Some((s.insert(i as int, c), byte_at(s, i as int) + char_utf8_len(c)))
        },
        _ => None,
    }
}

/// A text whose UTF-8 form, with room for one more character, fits the machine's lengths.
pub open spec fn fits(s: Seq<char>) -> bool {
    utf8_len(s) + 4 <= usize::MAX
}

/// The first character index whose offset is at least `t`, and that offset.
fn index_from_exec(v: &Vec<char>, t: u128) -> (r: (usize, u128))
    ensures
        r.0 == index_from(v@, t as nat, 0),
        r.1 == byte_at(v@, r.0 as int),
{
    proof {
        lemma_byte_at_end(v@);
    }
    let mut k: usize = 0;
    let mut b: u128 = 0;
    while k < v.len() && b < t
        invariant
            k <= v@.len(),
            b == byte_at(v@, k as int),
            b <= 4 * k,
            index_from(v@, t as nat, 0) == index_from(v@, t as nat, k as nat),
        decreases v@.len() - k,
    {
        proof {
            lemma_byte_at_step(v@, k as int);
        }
        b = b + char_utf8_len_exec(v[k]) as u128;
        k = k + 1;
    }
    (k, b)
}

/// Applies an editing key of the tag popup to a text and a byte cursor, see `tag_edit`.
fn tag_edit_exec(buf: &String, pos: usize, key: KeyCode) -> (r: Option<(String, usize)>)
    requires
        fits(buf@),
    ensures
        r is Some == tag_edit(buf@, pos as nat, key) is Some,
        r matches Some(p) ==> (p.0@, p.1 as nat) == tag_edit(buf@, pos as nat, key)->0,
{
    let v = chars_of(buf.as_str());
    proof {
        lemma_byte_at_end(v@);
    }
    match key {
        KeyCode::Backspace => {
            let (i, _) = index_from_exec(&v, pos as u128 + 1);
            proof {
                lemma_index_from(v@, (pos + 1) as nat, 0);
            }
            if i > 0 {
                let mut w = v;
                let off = byte_offset(&w, i - 1);
                w.remove(i - 1);
                Some((string_of(&w), off))
            } else {
                Some((string_from(buf.as_str()), 0))
            }
        },
        KeyCode::Delete => {
            let (k, b) = index_from_exec(&v, pos as u128);
            proof {
                lemma_index_from(v@, pos as nat, 0);
            }
            if k < v.len() && b == pos as u128 {
                let mut w = v;
                w.remove(k);
                Some((string_of(&w), pos))
            } else {
                Some((string_from(buf.as_str()), pos))
            }
        },
        KeyCode::Left => {
            let t: u128 = if pos >= 1 { (pos - 1) as u128 } else { 0 };
            let (f, bf) = index_from_exec(&v, t + 1);
            let j = if bf > t { f - 1 } else { f };
            proof {
                lemma_index_from(v@, (t + 1) as nat, 0);
                if bf > t {
                    assert(f > 0);
                }
                lemma_byte_at_mono(v@, j as int, v@.len() as int);
            }
            let off = byte_offset(&v, j);
            Some((string_from(buf.as_str()), off))
        },
        KeyCode::Right => {
            let (i, b) = index_from_exec(&v, pos as u128 + 1);
            proof {
                lemma_index_from(v@, (pos + 1) as nat, 0);
                lemma_byte_at_mono(v@, i as int, v@.len() as int);
            }
            Some((string_from(buf.as_str()), b as usize))
        },
        KeyCode::Home => Some((string_from(buf.as_str()), 0)),
        KeyCode::End => {
            let off = byte_offset(&v, v.len());
            Some((string_from(buf.as_str()), off))
        },
        KeyCode::Char(c) => {
            let (i, b) = index_from_exec(&v, pos as u128 + 1);
            proof {
                lemma_index_from(v@, (pos + 1) as nat, 0);
                lemma_byte_at_mono(v@, i as int, v@.len() as int);
            }
            let mut w = v;
            w.insert(i, c);
            Some((string_of(&w), b as usize + char_utf8_len_exec(c)))
        },
        _ => None,
    }
}

/// The byte offset of the character at index `k`.
fn byte_offset(v: &Vec<char>, k: usize) -> (r: usize)
    requires
        k <= v@.len(),
        fits(v@),
    ensures
        r == byte_at(v@, k as int),
{
    proof {
        lemma_byte_at_end(v@);
        lemma_byte_at_mono(v@, k as int, v@.len() as int);
    }
    let mut i: usize = 0;
    let mut b: usize = 0;
    while i < k
        invariant
            i <= k <= v@.len(),
            fits(v@),
            b == byte_at(v@, i as int),
            byte_at(v@, k as int) <= utf8_len(v@),
        decreases k - i,
    {
        proof {
            lemma_byte_at_step(v@, i as int);
            lemma_byte_at_mono(v@, i as int + 1, k as int);
        }
        b = b + char_utf8_len_exec(v[i]);
        i = i + 1;
    }
    b
}

/// What a key on the tag popup asks of the application.
#[derive(Debug, Clone, Copy, PartialEq, Eq, Structural)]
pub enum TagOutcome {
    Nothing,
    /// The popup was closed without a change.
    Closed,
    /// The popup was closed to set the trait named by the key field to the value field (to
    /// unset it when the value is empty).
    Commit,
}

/// The popup that sets a trait on a minion: the key and value fields, the focus (0 key,
/// 1 value, 2 Set, 3 Cancel) and the cursor as a byte offset into the focused field (the value
/// field when a button has the focus).
pub struct TagPopup {
    pub visible: bool,
    pub focus: usize,
    pub key_buf: String,
    pub val_buf: String,
    pub pos: usize,
}

/// The text a trait value gives the value field: the string itself, nothing for other values.
pub open spec fn value_field_text(v: InfoValue) -> Seq<char> {
    match v {
        InfoValue::Str(s) => s@,
        _ => Seq::empty(),
    }
}

/// The value field after moving from the key field to it: the value of the first trait with
/// that key, when the key is not empty and such a trait exists.
pub open spec fn prefill(rows: Seq<InfoRow>, key: Seq<char>) -> Option<Seq<char>> {
    let j = first_with_key(rows, key);
    if key.len() > 0 && j >= 0 {
        Some(value_field_text(rows[j].value))
    } else {
        None
    }
}

impl TagPopup {
    /// A visible popup with empty fields and the key field focused.
    pub fn open() -> (r: TagPopup)
        ensures
            r.visible,
            r.focus == 0,
            r.key_buf@.len() == 0,
            r.val_buf@.len() == 0,
            r.pos == 0,
    {
        TagPopup { visible: true, focus: 0, key_buf: String::new(), val_buf: String::new(), pos: 0 }
    }

    /// A key on the popup (`None` when it is hidden). Esc closes it; Tab and Shift+Tab move the
    /// focus round the four stops and put the cursor at the start, except that moving from the
    /// key field to the value field fills the value from the traits (see `prefill`) and puts
    /// the cursor at its end; Enter on Set closes the popup and commits a non-empty key, Enter
    /// on Cancel closes it, Enter elsewhere moves the focus on; editing keys edit the key field
    /// when it has the focus and the value field otherwise (see `tag_edit`).
    pub fn handle_key(&mut self, key: KeyCode, rows: &Vec<InfoRow>) -> (r: Option<TagOutcome>)
        requires
            old(self).focus < 4,
            fits(old(self).key_buf@),
            fits(old(self).val_buf@),
            forall|j: int| 0 <= j < rows@.len() ==> fits(#[trigger] value_field_text(rows@[j].value)),
        ensures
            r is None <==> !old(self).visible,
            !old(self).visible ==> *final(self) == *old(self),
            final(self).focus < 4,
            old(self).visible ==> {
                let f = old(self).focus;
                let e = tag_edit(if f == 0 { old(self).key_buf@ } else { old(self).val_buf@ }, old(self).pos as nat, key);
                &&& r == Some(
                    if key == KeyCode::Esc || (key == KeyCode::Enter && (f == 3 || (f == 2 && old(self).key_buf@.len() == 0))) {
                        TagOutcome::Closed
                    } else if key == KeyCode::Enter && f == 2 {
                        TagOutcome::Commit
                    } else {
                        TagOutcome::Nothing
                    },
                )
                &&& final(self).visible == !(key == KeyCode::Esc || (key == KeyCode::Enter && f >= 2))
                &&& final(self).focus == if key == KeyCode::Tab || (key == KeyCode::Enter && f < 2) {
                    ((f + 1) % 4) as usize
                } else if key == KeyCode::BackTab {
                    ((f + 3) % 4) as usize
                } else {
                    f
                }
                &&& final(self).key_buf@ == if f == 0 && e is Some { (e->0).0 } else { old(self).key_buf@ }
                &&& final(self).val_buf@ == if f != 0 && e is Some {
                    (e->0).0
                } else if key == KeyCode::Tab && f == 0 && prefill(rows@, old(self).key_buf@) is Some {
                    prefill(rows@, old(self).key_buf@)->0
                } else {
                    old(self).val_buf@
                }
                &&& final(self).pos == if e is Some {
                    (e->0).1
                } else if key == KeyCode::Tab && f == 0 && prefill(rows@, old(self).key_buf@) is Some {
                    utf8_len(prefill(rows@, old(self).key_buf@)->0)
                } else if key == KeyCode::Tab || key == KeyCode::BackTab {
                    0
                } else {
                    old(self).pos as nat
                }
            },
    {
        if !self.visible {
            return None;
        }
        match key {
            KeyCode::Esc => {
                self.visible = false;
                Some(TagOutcome::Closed)
            },
            KeyCode::Tab => {
                let prev = self.focus;
                self.focus = (self.focus + 1) % 4;
                self.pos = 0;
                if prev == 0 && !self.key_buf.as_str().is_empty() {
                    let kc = chars_of(self.key_buf.as_str());
                    let mut j: usize = 0;
                    let mut found = false;
                    proof {
                        crate::traitspopup::lemma_first_with_key(rows@, kc@);
                    }
                    while !found && j < rows.len()
                        invariant
                            j <= rows@.len(),
                            found ==> j < rows@.len() && rows@[j as int].key@ == kc@,
                            forall|m: int| 0 <= m < j ==> rows@[m].key@ != kc@,
                        decreases rows@.len() - j, if found { 0int } else { 1int },
                    {
                        let rk = chars_of(rows[j].key.as_str());
                        if crate::chars::chars_eq(&rk, &kc) {
                            found = true;
                        } else {
                            j = j + 1;
                        }
                    }
                    proof {
                        let f = first_with_key(rows@, kc@);
                        if found {
                            if f < 0 || f > j {
                                assert(rows@[j as int].key@ != kc@);
                            } else if f < j {
                                assert(rows@[f].key@ != kc@);
                            }
                        } else if f >= 0 {
                            assert(rows@[f].key@ != kc@);
                        }
                    }
                    if found {
                        let text = match &rows[j].value {
                            InfoValue::Str(s) => string_from(s.as_str()),
                            _ => String::new(),
                        };
                        assert(text@ == value_field_text(rows@[j as int].value));
                        let tv = chars_of(text.as_str());
                        let len = byte_offset(&tv, tv.len());
                        proof {
                            lemma_byte_at_end(tv@);
                        }
                        self.val_buf = text;
                        self.pos = len;
                    }
                }
                Some(TagOutcome::Nothing)
            },
            KeyCode::BackTab => {
                self.focus = (self.focus + 3) % 4;
                self.pos = 0;
                Some(TagOutcome::Nothing)
            },
            KeyCode::Enter => {
                if self.focus == 2 {
                    self.visible = false;
                    if self.key_buf.as_str().is_empty() {
                        Some(TagOutcome::Closed)
                    } else {
                        Some(TagOutcome::Commit)
                    }
                } else if self.focus == 3 {
                    self.visible = false;
                    Some(TagOutcome::Closed)
                } else {
                    self.focus = (self.focus + 1) % 4;
                    Some(TagOutcome::Nothing)
                }
            },
            _ => {
                if self.focus == 0 {
                    match tag_edit_exec(&self.key_buf, self.pos, key) {
                        Some((s, p)) => {
                            self.key_buf = s;
                            self.pos = p;
                        },
                        None => {},
                    }
                } else {
                    match tag_edit_exec(&self.val_buf, self.pos, key) {
                        Some((s, p)) => {
                            self.val_buf = s;
                            self.pos = p;
                        },
                        None => {},
                    }
                }
                Some(TagOutcome::Nothing)
            },
        }
    }
}


proof fn lemma_index_from_none(s: Seq<char>, t: nat)
    requires
        forall|k: int| 0 <= k < s.len() ==> byte_at(s, k) < t,
    ensures
        index_from(s, t, 0) == s.len(),
{
    lemma_index_from(s, t, 0);
}

/// Law: with the cursor at (or past) the end of a field, typing a character and then pressing
/// Backspace gives back the field's text, with the cursor at its end.
pub proof fn law_type_then_backspace_at_end(s: Seq<char>, pos: nat, c: char)
    requires
        pos >= utf8_len(s),
    ensures
        ({
            let typed = tag_edit(s, pos, KeyCode::Char(c))->0;
            tag_edit(typed.0, typed.1, KeyCode::Backspace) == Some((s, utf8_len(s)))
        }),
{
    lemma_byte_at_end(s);
    assert forall|k: int| 0 <= k < s.len() implies byte_at(s, k) < pos + 1 by {
        lemma_byte_at_mono(s, k, s.len() as int);
    }
    lemma_index_from_none(s, pos + 1);
    let i = s.len();
    assert(next_boundary_index(s, pos) == i);
    let t = s.insert(i as int, c);
    assert(t =~= s.push(c));
    let p1 = byte_at(s, i as int) + char_utf8_len(c);
    assert(t.take(t.len() as int) =~= t);
    assert(t.drop_last() =~= s);
    assert(utf8_len(t) == utf8_len(s) + char_utf8_len(c));
    lemma_byte_at_end(t);
    assert(p1 == utf8_len(t));
    assert forall|k: int| 0 <= k < t.len() implies byte_at(t, k) < p1 + 1 by {
        lemma_byte_at_mono(t, k, t.len() as int);
    }
    lemma_index_from_none(t, p1 + 1);
    assert(next_boundary_index(t, p1) == t.len());
    assert(t.remove(t.len() - 1) =~= s);
    assert(t.take(t.len() - 1) =~= s);
}

} // verus!
