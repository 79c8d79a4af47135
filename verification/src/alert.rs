use crate::chars::{split_char, lemma_split_char_nonempty, append_chars, chars_views, push_spaces, spaces, chars_eq, chars_of, is_ws, is_ws_char, slice_chars, string_of, utf8_len, utf8_len_wide};
use vstd::prelude::*;

verus! {

/// Focus inside a dialog with a row of form widgets followed by one or two buttons.
#[derive(Debug, Clone, Copy, PartialEq, Eq, Structural)]
pub enum DialogFormFocus {
    Widget(usize),
    LeftButton,
    RightButton,
}

/// Number of focus stops: the widgets, the left button, and the right one when present.
pub open spec fn focus_stops(widgets_len: nat, has_right_button: bool) -> nat {
    widgets_len + 1 + if has_right_button { 1nat } else { 0nat }
}

/// Position of a focus in the tab order; a widget index past the last widget counts as the last one.
pub open spec fn focus_index(f: DialogFormFocus, widgets_len: nat, has_right_button: bool) -> nat {
    match f {
        DialogFormFocus::Widget(idx) => if idx < widgets_len { idx as nat } else if widgets_len > 0 { (widgets_len - 1) as nat } else { 0 },
        DialogFormFocus::LeftButton => widgets_len,
        DialogFormFocus::RightButton => widgets_len + if has_right_button { 1nat } else { 0nat },
    }
}

/// The focus at a position of the tab order; positions past the end give the left button.
pub open spec fn focus_at(index: nat, widgets_len: nat, has_right_button: bool) -> DialogFormFocus {
    if index < widgets_len {
        DialogFormFocus::Widget(index as usize)
    } else if has_right_button && index == widgets_len + 1 {
        DialogFormFocus::RightButton
    } else {
        DialogFormFocus::LeftButton
    }
}

/// A focus that names an existing stop: a widget that exists, the left button, or the right
/// button of a dialog that has one.
pub open spec fn focus_valid(f: DialogFormFocus, widgets_len: nat, has_right_button: bool) -> bool {
    match f {
        DialogFormFocus::Widget(idx) => idx < widgets_len,
        DialogFormFocus::LeftButton => true,
        DialogFormFocus::RightButton => has_right_button,
    }
}

/// The next focus stop after `f`, wrapping around after the last one.
pub open spec fn focus_next_spec(f: DialogFormFocus, widgets_len: nat, has_right_button: bool) -> DialogFormFocus {
    focus_at(
        ((focus_index(f, widgets_len, has_right_button) + 1) % focus_stops(widgets_len, has_right_button)) as nat,
        widgets_len,
        has_right_button,
    )
}

/// The focus stop before `f`, wrapping around before the first one.
pub open spec fn focus_prev_spec(f: DialogFormFocus, widgets_len: nat, has_right_button: bool) -> DialogFormFocus {
    focus_at(
        ((focus_index(f, widgets_len, has_right_button) + focus_stops(widgets_len, has_right_button) - 1) % (focus_stops(
            widgets_len,
            has_right_button,
        ) as int)) as nat,
        widgets_len,
        has_right_button,
    )
}

impl DialogFormFocus {
    pub fn index(self, widgets_len: usize, has_right_button: bool) -> (r: usize)
        requires
            widgets_len + 1 <= usize::MAX,
        ensures
            r == focus_index(self, widgets_len as nat, has_right_button),
    {
        match self {
            DialogFormFocus::Widget(idx) => {
                if idx < widgets_len {
                    idx
                } else if widgets_len > 0 {
                    widgets_len - 1
                } else {
                    0
                }
            },
            DialogFormFocus::LeftButton => widgets_len,
            DialogFormFocus::RightButton => widgets_len + if has_right_button { 1 } else { 0 },
        }
    }

    pub fn from_index(index: usize, widgets_len: usize, has_right_button: bool) -> (r: DialogFormFocus)
        requires
            widgets_len + 1 <= usize::MAX,
        ensures
            r == focus_at(index as nat, widgets_len as nat, has_right_button),
    {
        if index < widgets_len {
            DialogFormFocus::Widget(index)
        } else if has_right_button && index == widgets_len + 1 {
            DialogFormFocus::RightButton
        } else {
            DialogFormFocus::LeftButton
        }
    }

    /// The next focus stop, wrapping around after the last one.
    pub fn next(self, widgets_len: usize, has_right_button: bool) -> (r: DialogFormFocus)
        requires
            widgets_len + 2 <= usize::MAX,
        ensures
            r == focus_next_spec(self, widgets_len as nat, has_right_button),
    {
        let total = widgets_len + 1 + if has_right_button { 1 } else { 0 };
        Self::from_index((self.index(widgets_len, has_right_button) + 1) % total, widgets_len, has_right_button)
    }

    /// The previous focus stop, wrapping around before the first one.
    pub fn prev(self, widgets_len: usize, has_right_button: bool) -> (r: DialogFormFocus)
        requires
            2 * (widgets_len + 2) <= usize::MAX,
        ensures
            r == focus_prev_spec(self, widgets_len as nat, has_right_button),
    {
        let total = widgets_len + 1 + if has_right_button { 1 } else { 0 };
        Self::from_index((self.index(widgets_len, has_right_button) + total - 1) % total, widgets_len, has_right_button)
    }
}

/// Law: on a valid focus, stepping forward then back (or back then forward) returns to it,
/// and both steps land on valid focus stops.
pub proof fn law_dialog_focus_round_trip(f: DialogFormFocus, wl: usize, has_right_button: bool)
    requires
        focus_valid(f, wl as nat, has_right_button),
    ensures
        ({
            let widgets_len = wl as nat;
            let n = focus_stops(widgets_len, has_right_button);
            let i = focus_index(f, widgets_len, has_right_button);
            let fwd = focus_at(((i + 1) % n) as nat, widgets_len, has_right_button);
            let back = focus_at(((i + n - 1) % (n as int)) as nat, widgets_len, has_right_button);
            &&& focus_valid(fwd, widgets_len, has_right_button)
            &&& focus_valid(back, widgets_len, has_right_button)
            &&& focus_at(
                ((focus_index(fwd, widgets_len, has_right_button) + n - 1) % (n as int)) as nat,
                widgets_len,
                has_right_button,
            ) == f
            &&& focus_at(((focus_index(back, widgets_len, has_right_button) + 1) % n) as nat, widgets_len, has_right_button)
                == f
        }),
        focus_prev_spec(focus_next_spec(f, wl as nat, has_right_button), wl as nat, has_right_button) == f,
        focus_next_spec(focus_prev_spec(f, wl as nat, has_right_button), wl as nat, has_right_button) == f,
{
    let widgets_len = wl as nat;
    let n = focus_stops(widgets_len, has_right_button);
    let i = focus_index(f, widgets_len, has_right_button);
    assert(i < n);
    assert(focus_at(i, widgets_len, has_right_button) == f);
    let j = ((i + 1) % n) as nat;
    let k = ((i + n - 1) % (n as int)) as nat;
    assert(j < n);
    assert(k < n);
    if j < widgets_len {
        assert((j as usize) as nat == j);
    }
    if k < widgets_len {
        assert((k as usize) as nat == k);
    }
    assert(focus_index(focus_at(j, widgets_len, has_right_button), widgets_len, has_right_button) == j);
    assert(focus_index(focus_at(k, widgets_len, has_right_button), widgets_len, has_right_button) == k);
    if i + 1 < n {
        assert((i + 1) % n == i + 1) by (nonlinear_arith)
            requires i + 1 < n;
        assert((j + n - 1) % (n as int) == i) by (nonlinear_arith)
            requires j == i + 1, i + 1 < n;
    } else {
        assert((i + 1) % n == 0) by (nonlinear_arith)
            requires i + 1 == n;
        assert((j + n - 1) % (n as int) == i) by (nonlinear_arith)
            requires j == 0, i + 1 == n;
    }
    if i >= 1 {
        assert((i + n - 1) % (n as int) == i - 1) by (nonlinear_arith)
            requires i >= 1, i < n;
        assert((k + 1) % n == i) by (nonlinear_arith)
            requires k == i - 1, i < n, i >= 1;
    } else {
        assert((i + n - 1) % (n as int) == n - 1) by (nonlinear_arith)
            requires i == 0, n >= 1;
        assert((k + 1) % n == i) by (nonlinear_arith)
            requires k == n - 1, i == 0, n >= 1;
    }
}


/// The maximal runs of non-white-space characters of `s` (what `str::split_whitespace` gives).
pub open spec fn words(s: Seq<char>) -> Seq<Seq<char>>
    decreases s.len(),
{
    if s.len() == 0 {
        Seq::<Seq<char>>::empty()
    } else {
        let w = words(s.drop_last());
        let c = s.last();
        if is_ws(c) {
            w
        } else if s.len() >= 2 && !is_ws(s[s.len() - 2]) {
            w.update(w.len() - 1, w.last().push(c))
        } else {
            w.push(seq![c])
        }
    }
}

/// Number of white-space characters at the start of `s`.
pub open spec fn lead_len(s: Seq<char>) -> nat
    decreases s.len(),
{
    if s.len() == 0 {
        0
    } else {
        let l = lead_len(s.drop_last());
        if l == s.len() - 1 && is_ws(s.last()) {
            l + 1
        } else {
            l
        }
    }
}

pub proof fn lemma_lead_len_le(s: Seq<char>)
    ensures
        lead_len(s) <= s.len(),
    decreases s.len(),
{
    if s.len() > 0 {
        lemma_lead_len_le(s.drop_last());
    }
}

/// One step of greedy wrapping: a word that would push the current line past `max` bytes
/// (counting the joining space) closes the line and starts a new one at the paragraph's
/// indentation; words on one line are joined by a single space.
pub open spec fn wrap_step(st: (Seq<Seq<char>>, Seq<char>), lead: Seq<char>, word: Seq<char>, max: nat) -> (Seq<Seq<char>>, Seq<char>) {
    let lines = st.0;
    let cur = st.1;
    let broke = utf8_len(cur) + 1 + utf8_len(word) > max;
    let lines1 = if broke { lines.push(cur) } else { lines };
    let cur1 = if broke { lead } else { cur };
    let cur2 = if cur1.len() > 0 && cur1 != lead { cur1.push(' ') } else { cur1 };
    (lines1, cur2 + word)
}

/// Greedy wrapping of a word sequence: closed lines and the line still open.
pub open spec fn wrap_words(lead: Seq<char>, ws: Seq<Seq<char>>, max: nat) -> (Seq<Seq<char>>, Seq<char>)
    decreases ws.len(),
{
    if ws.len() == 0 {
        (Seq::<Seq<char>>::empty(), lead)
    } else {
        wrap_step(wrap_words(lead, ws.drop_last(), max), lead, ws.last(), max)
    }
}

/// The lines of one paragraph: a blank paragraph gives one empty line; otherwise its words
/// are wrapped greedily, each line starting with the paragraph's leading white space.
pub open spec fn wrap_paragraph(p: Seq<char>, max: nat) -> Seq<Seq<char>> {
    if lead_len(p) == p.len() {
        seq![Seq::<char>::empty()]
    } else {
        let st = wrap_words(p.take(lead_len(p) as int), words(p), max);
        if st.1.len() > 0 {
            st.0.push(st.1)
        } else {
            st.0
        }
    }
}

pub open spec fn wrap_paragraphs(ps: Seq<Seq<char>>, max: nat) -> Seq<Seq<char>>
    decreases ps.len(),
{
    if ps.len() == 0 {
        Seq::<Seq<char>>::empty()
    } else {
        wrap_paragraphs(ps.drop_last(), max) + wrap_paragraph(ps.last(), max)
    }
}

/// Word wrapping of a text to `max` bytes per line, paragraph by paragraph (split at
/// line breaks); an empty text, or a width under 4, gives no lines.
pub open spec fn wrap_text_spec(text: Seq<char>, max: nat) -> Seq<Seq<char>> {
    if text.len() == 0 || max < 4 {
        Seq::<Seq<char>>::empty()
    } else {
        wrap_paragraphs(split_char(text, '\n'), max)
    }
}

/// The words of a paragraph.
fn words_exec(p: &Vec<char>) -> (r: Vec<Vec<char>>)
    ensures
        chars_views(r@) == words(p@),
{
    let mut done: Vec<Vec<char>> = Vec::new();
    let mut cur: Vec<char> = Vec::new();
    let mut i: usize = 0;
    while i < p.len()
        invariant
            i <= p.len(),
            cur@.len() > 0 <==> (i > 0 && !is_ws(p@[i - 1])),
            words(p@.take(i as int)) == if cur@.len() > 0 { chars_views(done@).push(cur@) } else { chars_views(done@) },
        decreases p.len() - i,
    {
        let c = p[i];
        let ghost pre = p@.take(i as int);
        proof {
            assert(p@.take(i as int + 1).drop_last() == pre);
            assert(p@.take(i as int + 1).last() == c);
        }
        if is_ws_char(c) {
            if cur.len() > 0 {
                let ghost dv = chars_views(done@);
                let ghost cw = cur@;
                let w = cur;
                done.push(w);
                cur = Vec::new();
                proof {
                    assert(chars_views(done@) =~= dv.push(cw));
                }
            }
        } else {
            let ghost dv = chars_views(done@);
            let ghost oc = cur@;
            cur.push(c);
            proof {
                if i >= 1 {
                    assert(p@.take(i as int + 1)[i - 1] == p@[i - 1]);
                }
                if oc.len() > 0 {
                    assert(words(p@.take(i as int)) == dv.push(oc));
                    assert(words(p@.take(i as int + 1)) =~= dv.push(oc).update(dv.len() as int, oc.push(c)));
                    assert(dv.push(oc).update(dv.len() as int, oc.push(c)) =~= dv.push(cur@));
                } else {
                    assert(words(p@.take(i as int + 1)) =~= dv.push(seq![c]));
                    assert(cur@ =~= seq![c]);
                }
            }
        }
        i = i + 1;
    }
    proof {
        assert(p@.take(p.len() as int) == p@);
    }
    if cur.len() > 0 {
        let ghost dv = chars_views(done@);
        let ghost cw = cur@;
        done.push(cur);
        assert(chars_views(done@) =~= dv.push(cw));
    }
    done
}


/// Number of leading white-space characters.
pub fn lead_len_exec(p: &Vec<char>) -> (r: usize)
    ensures
        r == lead_len(p@),
        r <= p.len(),
{
    let mut l: usize = 0;
    let mut i: usize = 0;
    while i < p.len()
        invariant
            i <= p.len(),
            l <= i,
            l == lead_len(p@.take(i as int)),
        decreases p.len() - i,
    {
        proof {
            assert(p@.take(i as int + 1).drop_last() == p@.take(i as int));
        }
        if l == i && is_ws_char(p[i]) {
            l = l + 1;
        }
        i = i + 1;
    }
    proof {
        assert(p@.take(p.len() as int) == p@);
    }
    l
}

/// The lines of one paragraph, see `wrap_paragraph`.
fn wrap_paragraph_exec(p: &Vec<char>, max: usize) -> (r: Vec<String>)
    ensures
        r.deep_view() == wrap_paragraph(p@, max as nat),
{
    let l = lead_len_exec(p);
    if l == p.len() {
        let mut r: Vec<String> = Vec::new();
        r.push(String::new());
        assert(r.deep_view() =~= seq![Seq::<char>::empty()]);
        return r;
    }
    let lead = slice_chars(p, 0, l);
    assert(lead@ == p@.take(l as int));
    let ws = words_exec(p);
    let mut lines: Vec<String> = Vec::new();
    let mut cur: Vec<char> = slice_chars(p, 0, l);
    let mut k: usize = 0;
    while k < ws.len()
        invariant
            k <= ws.len(),
            chars_views(ws@) == words(p@),
            lead@ == p@.take(l as int),
            (lines.deep_view(), cur@) == wrap_words(lead@, chars_views(ws@).take(k as int), max as nat),
        decreases ws.len() - k,
    {
        let ghost st = (lines.deep_view(), cur@);
        let ghost wd = chars_views(ws@);
        proof {
            assert(wd.take(k as int + 1).drop_last() == wd.take(k as int));
            assert(wd.take(k as int + 1).last() == ws@[k as int]@);
        }
        let word = &ws[k];
        let cl = utf8_len_wide(&cur);
        let wl = utf8_len_wide(word);
        let broke = cl + 1 + wl > max as u128;
        if broke {
            let line = string_of(&cur);
            let ghost ld = lines.deep_view();
            lines.push(line);
            assert(lines.deep_view() =~= ld.push(st.1));
            cur = slice_chars(&lead, 0, lead.len());
            assert(cur@ =~= lead@);
        }
        if cur.len() > 0 && !chars_eq(&cur, &lead) {
            cur.push(' ');
        }
        append_chars(&mut cur, word);
        k = k + 1;
    }
    proof {
        assert(chars_views(ws@).take(ws.len() as int) == chars_views(ws@));
    }
    if cur.len() > 0 {
        let line = string_of(&cur);
        let ghost ld = lines.deep_view();
        lines.push(line);
        assert(lines.deep_view() =~= ld.push(cur@));
    }
    lines
}

/// Appends every string of `w` to `v`.
pub fn append_strings(v: &mut Vec<String>, w: Vec<String>)
    ensures
        final(v).deep_view() == old(v).deep_view() + w.deep_view(),
{
    let mut i: usize = 0;
    while i < w.len()
        invariant
            i <= w.len(),
            v.deep_view() == old(v).deep_view() + w.deep_view().take(i as int),
        decreases w.len() - i,
    {
        let ghost vd = v.deep_view();
        let s = w[i].clone();
        v.push(s);
        assert(v.deep_view() =~= vd.push(w@[i as int]@));
        assert(w.deep_view().take(i as int + 1) =~= w.deep_view().take(i as int).push(w@[i as int]@));
        i = i + 1;
    }
    assert(w.deep_view().take(w.len() as int) =~= w.deep_view());
}

/// Wraps `text` to at most `max_width` bytes per line where words allow it, paragraph by
/// paragraph, keeping each paragraph's leading white space on each of its lines.
pub fn wrap_text(text: &str, max_width: usize) -> (r: Vec<String>)
    ensures
        r.deep_view() == wrap_text_spec(text@, max_width as nat),
{
    let t = chars_of(text);
    if t.len() == 0 || max_width < 4 {
        let r: Vec<String> = Vec::new();
        assert(r.deep_view() =~= Seq::<Seq<char>>::empty());
        return r;
    }
    let mut out: Vec<String> = Vec::new();
    let mut start: usize = 0;
    let mut i: usize = 0;
    proof {
        lemma_split_char_nonempty(t@.take(0), '\n');
        assert(split_char(t@.take(0), '\n') =~= seq![Seq::<char>::empty()]);
        assert(split_char(t@.take(0), '\n').drop_last() =~= Seq::<Seq<char>>::empty());
    }
    while i < t.len()
        invariant
            start <= i <= t.len(),
            split_char(t@.take(i as int), '\n').len() >= 1,
            split_char(t@.take(i as int), '\n').last() == t@.subrange(start as int, i as int),
            out.deep_view() == wrap_paragraphs(split_char(t@.take(i as int), '\n').drop_last(), max_width as nat),
        decreases t.len() - i,
    {
        let ghost sp = split_char(t@.take(i as int), '\n');
        proof {
            assert(t@.take(i as int + 1).drop_last() == t@.take(i as int));
            assert(t@.take(i as int + 1).last() == t@[i as int]);
        }
        if t[i] == '\n' {
            let para = slice_chars(&t, start, i);
            let lines = wrap_paragraph_exec(&para, max_width);
            append_strings(&mut out, lines);
            proof {
                let sp2 = split_char(t@.take(i as int + 1), '\n');
                assert(sp2 == sp.push(Seq::<char>::empty()));
                assert(sp2.drop_last() =~= sp);
                assert(sp.drop_last().push(sp.last()) =~= sp);
                assert(wrap_paragraphs(sp, max_width as nat) == wrap_paragraphs(sp.drop_last(), max_width as nat)
                    + wrap_paragraph(sp.last(), max_width as nat));
                assert(t@.subrange(i as int + 1, i as int + 1) =~= Seq::<char>::empty());
            }
            start = i + 1;
        } else {
            proof {
                let sp2 = split_char(t@.take(i as int + 1), '\n');
                assert(sp2 == sp.update(sp.len() - 1, sp.last().push(t@[i as int])));
                assert(sp2.drop_last() =~= sp.drop_last());
                assert(t@.subrange(start as int, i as int + 1) =~= t@.subrange(start as int, i as int).push(t@[i as int]));
            }
        }
        i = i + 1;
    }
    let para = slice_chars(&t, start, t.len());
    let lines = wrap_paragraph_exec(&para, max_width);
    append_strings(&mut out, lines);
    proof {
        assert(t@.take(t.len() as int) == t@);
        let sp = split_char(t@, '\n');
        assert(sp.drop_last().push(sp.last()) =~= sp);
        assert(wrap_paragraphs(sp, max_width as nat) == wrap_paragraphs(sp.drop_last(), max_width as nat)
            + wrap_paragraph(sp.last(), max_width as nat));
    }
    out
}


/// A button label `[ ... ]`: at most ten characters of `label`, centred in `inner` columns
/// (the extra column, if any, goes to the right).
pub open spec fn button_text(label: Seq<char>, inner: nat) -> Seq<char> {
    let t = if label.len() > 10 { label.take(10) } else { label };
    let pad = (inner - t.len()) as nat;
    let left = pad / 2;
    seq!['['] + spaces(left) + t + spaces((pad - left) as nat) + seq![']']
}

/// Builds a centred button label `[ ... ]` of `inner` inner columns.
pub fn button_text_exec(label: &str, inner: usize) -> (r: String)
    requires
        inner >= 10,
    ensures
        r@ == button_text(label@, inner as nat),
{
    let all = chars_of(label);
    let t = if all.len() > 10 { slice_chars(&all, 0, 10) } else { all };
    let pad = inner - t.len();
    let left = pad / 2;
    let mut out: Vec<char> = Vec::new();
    out.push('[');
    push_spaces(&mut out, left);
    append_chars(&mut out, &t);
    push_spaces(&mut out, pad - left);
    out.push(']');
    proof {
        assert(out@ =~= button_text(label@, inner as nat));
    }
    string_of(&out)
}

/// An MS-DOS style button: at most ten characters of `label`, centred in ten columns.
pub fn format_button(label: &str) -> (r: String)
    ensures
        r@ == button_text(label@, 10),
{
    button_text_exec(label, 10)
}

} // verus!



