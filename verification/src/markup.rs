use crate::chars::{chars_of, find_char, find_char_exec, lemma_find_char, slice_chars, string_of};
use vstd::prelude::*;

verus! {

/// Text attributes of the manual-page markup, as bits: bold, dim, underlined, reversed and
/// crossed out.
pub const ATTR_BOLD: u8 = 1;
pub const ATTR_DIM: u8 = 2;
pub const ATTR_UNDERLINED: u8 = 4;
pub const ATTR_REVERSED: u8 = 8;
pub const ATTR_CROSSED_OUT: u8 = 16;

/// The style of a run of text: foreground and background colour letters, and attribute bits.
#[derive(Debug, Clone, Copy, PartialEq, Eq, Structural)]
pub struct MarkupStyle {
    pub fg: Option<char>,
    pub bg: Option<char>,
    pub attrs: u8,
}

/// A run of text in one style.
pub struct MarkupSpan {
    pub text: String,
    pub style: MarkupStyle,
}

pub open spec fn plain_style() -> MarkupStyle {
    MarkupStyle { fg: None, bg: None, attrs: 0 }
}

/// The letters that name a foreground colour (lower case plain, upper case bright).
pub open spec fn fg_letter(c: char) -> bool {
    c == 'k' || c == 'r' || c == 'g' || c == 'y' || c == 'b' || c == 'm' || c == 'c' || c == 'w' || c == 'K' || c == 'R'
        || c == 'G' || c == 'Y' || c == 'B' || c == 'M' || c == 'C' || c == 'W'
}

/// The letters that name a background colour.
pub open spec fn bg_letter(c: char) -> bool {
    c == 'k' || c == 'r' || c == 'g' || c == 'y' || c == 'b' || c == 'm' || c == 'c' || c == 'w'
}

/// The attribute bit of an attribute letter: `b`old, `d`im, `u`nderlined, `i` (reversed),
/// `s`trike-through; 0 for any other character.
pub open spec fn attr_bit(c: char) -> u8 {
    if c == 'b' {
        ATTR_BOLD
    } else if c == 'd' {
        ATTR_DIM
    } else if c == 'u' {
        ATTR_UNDERLINED
    } else if c == 'i' {
        ATTR_REVERSED
    } else if c == 's' {
        ATTR_CROSSED_OUT
    } else {
        0
    }
}

/// The attribute bits of a run of attribute letters.
pub open spec fn attr_bits(s: Seq<char>) -> u8
    decreases s.len(),
{
    if s.len() == 0 {
        0
    } else {
        attr_bits(s.drop_last()) | attr_bit(s.last())
    }
}

proof fn lemma_or_bit(a: u8, b: u8, k: u8)
    requires
        k == 1 || k == 2 || k == 4 || k == 8 || k == 16,
    ensures
        ((a | b) & k != 0) <==> (a & k != 0 || b & k != 0),
{
    assert(((a | b) & k != 0) <==> (a & k != 0 || b & k != 0)) by (bit_vector);
}

/// Law: the attribute letters of a tag set one bit each, and each its own: the attributes of a
/// run of letters hold the bold bit exactly when it has a `b`, dim when it has a `d`,
/// underlined when it has a `u`, reversed when it has an `i`, crossed out when it has an `s`,
/// and no other bit.
pub proof fn law_attr_letters(s: Seq<char>)
    ensures
        (attr_bits(s) & 1u8 != 0) <==> s.contains('b'),
        (attr_bits(s) & 2u8 != 0) <==> s.contains('d'),
        (attr_bits(s) & 4u8 != 0) <==> s.contains('u'),
        (attr_bits(s) & 8u8 != 0) <==> s.contains('i'),
        (attr_bits(s) & 16u8 != 0) <==> s.contains('s'),
        attr_bits(s) < 32,
        ATTR_BOLD == 1 && ATTR_DIM == 2 && ATTR_UNDERLINED == 4 && ATTR_REVERSED == 8 && ATTR_CROSSED_OUT == 16,
    decreases s.len(),
{
    if s.len() == 0 {
        assert(attr_bits(s) == 0);
        assert(0u8 & 1u8 == 0 && 0u8 & 2u8 == 0 && 0u8 & 4u8 == 0 && 0u8 & 8u8 == 0 && 0u8 & 16u8 == 0) by (bit_vector);
    } else {
        let d = s.drop_last();
        let c = s.last();
        law_attr_letters(d);
        let a = attr_bits(d);
        let b = attr_bit(c);
        assert(attr_bits(s) == a | b);
        assert(b == 0 || b == 1 || b == 2 || b == 4 || b == 8 || b == 16);
        assert(b & 1u8 != 0 <==> b == 1) by (bit_vector)
            requires b == 0 || b == 1 || b == 2 || b == 4 || b == 8 || b == 16;
        assert(b & 2u8 != 0 <==> b == 2) by (bit_vector)
            requires b == 0 || b == 1 || b == 2 || b == 4 || b == 8 || b == 16;
        assert(b & 4u8 != 0 <==> b == 4) by (bit_vector)
            requires b == 0 || b == 1 || b == 2 || b == 4 || b == 8 || b == 16;
        assert(b & 8u8 != 0 <==> b == 8) by (bit_vector)
            requires b == 0 || b == 1 || b == 2 || b == 4 || b == 8 || b == 16;
        assert(b & 16u8 != 0 <==> b == 16) by (bit_vector)
            requires b == 0 || b == 1 || b == 2 || b == 4 || b == 8 || b == 16;
        lemma_or_bit(a, b, 1);
        lemma_or_bit(a, b, 2);
        lemma_or_bit(a, b, 4);
        lemma_or_bit(a, b, 8);
        lemma_or_bit(a, b, 16);
        assert((a | b) < 32) by (bit_vector)
            requires a < 32, b < 32;
        assert forall|l: char| s.contains(l) <==> (d.contains(l) || c == l) by {
            if s.contains(l) {
                let k = choose|k: int| 0 <= k < s.len() && s[k] == l;
                if k < s.len() - 1 {
                    assert(d[k] == l);
                }
            }
            if d.contains(l) {
                let k = choose|k: int| 0 <= k < d.len() && d[k] == l;
                assert(s[k] == l);
            }
            if c == l {
                assert(s[s.len() - 1] == l);
            }
        }
    }
}

/// The style after a tag `fg:bg:attrs` (the last part may hold further `:`): a known colour
/// letter at the start of the first or second part sets that colour; the attributes are added.
pub open spec fn apply_tag(st: MarkupStyle, tag: Seq<char>) -> MarkupStyle {
    let i1 = find_char(tag, ':');
    let fg = if i1 < 0 { tag } else { tag.take(i1) };
    let r1 = if i1 < 0 { Seq::<char>::empty() } else { tag.skip(i1 + 1) };
    let i2 = find_char(r1, ':');
    let bg = if i2 < 0 { r1 } else { r1.take(i2) };
    let at = if i2 < 0 { Seq::<char>::empty() } else { r1.skip(i2 + 1) };
    MarkupStyle {
        fg: if fg.len() > 0 && fg_letter(fg[0]) { Some(fg[0]) } else { st.fg },
        bg: if bg.len() > 0 && bg_letter(bg[0]) { Some(bg[0]) } else { st.bg },
        attrs: st.attrs | attr_bits(at),
    }
}

/// The spans with the pending text closed off, when there is any.
pub open spec fn flush(out: Seq<(Seq<char>, MarkupStyle)>, cur: Seq<char>, st: MarkupStyle) -> Seq<(Seq<char>, MarkupStyle)> {
    if cur.len() > 0 { out.push((cur, st)) } else { out }
}

/// The rest of a line after the opening `[` of a tag: the tag (up to the next `]`, or to the
/// end), and what follows the `]`.
pub open spec fn tag_split(rest: Seq<char>) -> (Seq<char>, Seq<char>) {
    let k = find_char(rest, ']');
    if k < 0 { (rest, Seq::<char>::empty()) } else { (rest.take(k), rest.skip(k + 1)) }
}

/// Reading the rest `s` of a line of manual-page markup, with pending text `cur` in style `st`
/// after the spans `out`. Text outside tags is kept; `[N]` ends the pending text and returns to
/// the plain style; a tag with a `:` ends the pending text and changes the style (see
/// `apply_tag`); any other bracketed text is kept as written, closed by `]`. At the end the
/// pending text is closed off, and a line with no text gives one empty plain span.
pub open spec fn markup_from(s: Seq<char>, cur: Seq<char>, st: MarkupStyle, out: Seq<(Seq<char>, MarkupStyle)>) -> Seq<
    (Seq<char>, MarkupStyle),
>
    decreases s.len(),
{
    if s.len() == 0 {
        let o = flush(out, cur, st);
        if o.len() == 0 { seq![(Seq::<char>::empty(), plain_style())] } else { o }
    } else if s[0] != '[' {
        markup_from(s.drop_first(), cur.push(s[0]), st, out)
    } else {
        let rest = s.drop_first();
        let (tag, after) = tag_split(rest);
        if after.len() < s.len() {
            if tag == seq!['N'] {
                markup_from(after, Seq::<char>::empty(), plain_style(), flush(out, cur, st))
            } else if find_char(tag, ':') < 0 {
                markup_from(after, cur + seq!['['] + tag + seq![']'], st, out)
            } else {
                markup_from(after, Seq::<char>::empty(), apply_tag(st, tag), flush(out, cur, st))
            }
        } else {
            out
        }
    }
}

/// The styled spans of a line of manual-page markup, see `markup_from`.
pub open spec fn markup_spans(line: Seq<char>) -> Seq<(Seq<char>, MarkupStyle)> {
    markup_from(line, Seq::<char>::empty(), plain_style(), Seq::empty())
}

pub open spec fn span_views(v: Seq<MarkupSpan>) -> Seq<(Seq<char>, MarkupStyle)> {
    v.map_values(|s: MarkupSpan| (s.text@, s.style))
}

proof fn lemma_tag_split(rest: Seq<char>)
    ensures
        tag_split(rest).1.len() <= rest.len(),
        find_char(rest, ']') < 0 ==> tag_split(rest).0 == rest,
        find_char(rest, ']') >= 0 ==> tag_split(rest).0 == rest.take(find_char(rest, ']')) && tag_split(rest).1 == rest.skip(
            find_char(rest, ']') + 1,
        ),
{
    lemma_find_char(rest, ']');
}

fn attr_bits_exec(v: &Vec<char>) -> (r: u8)
    ensures
        r == attr_bits(v@),
{
    let mut m: u8 = 0;
    let mut i: usize = 0;
    while i < v.len()
        invariant
            i <= v.len(),
            m == attr_bits(v@.take(i as int)),
        decreases v.len() - i,
    {
        proof {
            assert(v@.take(i as int + 1).drop_last() =~= v@.take(i as int));
        }
        let c = v[i];
        let b: u8 = if c == 'b' {
            ATTR_BOLD
        } else if c == 'd' {
            ATTR_DIM
        } else if c == 'u' {
            ATTR_UNDERLINED
        } else if c == 'i' {
            ATTR_REVERSED
        } else if c == 's' {
            ATTR_CROSSED_OUT
        } else {
            0
        };
        m = m | b;
        i = i + 1;
    }
    assert(v@.take(v.len() as int) =~= v@);
    m
}

fn is_fg_letter(c: char) -> (r: bool)
    ensures
        r == fg_letter(c),
{
    c == 'k' || c == 'r' || c == 'g' || c == 'y' || c == 'b' || c == 'm' || c == 'c' || c == 'w' || c == 'K' || c == 'R'
        || c == 'G' || c == 'Y' || c == 'B' || c == 'M' || c == 'C' || c == 'W'
}

fn is_bg_letter(c: char) -> (r: bool)
    ensures
        r == bg_letter(c),
{
    c == 'k' || c == 'r' || c == 'g' || c == 'y' || c == 'b' || c == 'm' || c == 'c' || c == 'w'
}

fn apply_tag_exec(st: MarkupStyle, tag: &Vec<char>) -> (r: MarkupStyle)
    ensures
        r == apply_tag(st, tag@),
{
    proof {
        lemma_find_char(tag@, ':');
    }
    let (fg, r1) = match find_char_exec(tag, ':') {
        Some(i) => (slice_chars(tag, 0, i), slice_chars(tag, i + 1, tag.len())),
        None => (slice_chars(tag, 0, tag.len()), Vec::new()),
    };
    proof {
        lemma_find_char(r1@, ':');
        assert(tag@.subrange(0, tag.len() as int) =~= tag@);
    }
    let (bg, at) = match find_char_exec(&r1, ':') {
        Some(i) => (slice_chars(&r1, 0, i), slice_chars(&r1, i + 1, r1.len())),
        None => (slice_chars(&r1, 0, r1.len()), Vec::new()),
    };
    assert(r1@.subrange(0, r1.len() as int) =~= r1@);
    let f = if fg.len() > 0 && is_fg_letter(fg[0]) { Some(fg[0]) } else { st.fg };
    let b = if bg.len() > 0 && is_bg_letter(bg[0]) { Some(bg[0]) } else { st.bg };
    let a = attr_bits_exec(&at);
    let r = MarkupStyle { fg: f, bg: b, attrs: st.attrs | a };
    assert(fg@ =~= (if find_char(tag@, ':') < 0 { tag@ } else { tag@.take(find_char(tag@, ':')) }));
    assert(r1@ =~= (if find_char(tag@, ':') < 0 { Seq::<char>::empty() } else { tag@.skip(find_char(tag@, ':') + 1) }));
    assert(bg@ =~= (if find_char(r1@, ':') < 0 { r1@ } else { r1@.take(find_char(r1@, ':')) }));
    assert(at@ =~= (if find_char(r1@, ':') < 0 { Seq::<char>::empty() } else { r1@.skip(find_char(r1@, ':') + 1) }));
    r
}

fn flush_exec(out: &mut Vec<MarkupSpan>, cur: &Vec<char>, st: MarkupStyle)
    ensures
        span_views(final(out)@) == flush(span_views(old(out)@), cur@, st),
{
    if cur.len() > 0 {
        let ghost o = span_views(out@);
        out.push(MarkupSpan { text: string_of(cur), style: st });
        assert(span_views(out@) =~= o.push((cur@, st)));
    }
}

/// Splits a line of manual-page markup into styled spans, see `markup_spans`.
pub fn render_markup_spans(input: &str) -> (r: Vec<MarkupSpan>)
    ensures
        span_views(r@) == markup_spans(input@),
{
    let v = chars_of(input);
    let mut out: Vec<MarkupSpan> = Vec::new();
    let mut cur: Vec<char> = Vec::new();
    let mut st = MarkupStyle { fg: None, bg: None, attrs: 0 };
    let mut i: usize = 0;
    assert(v@.skip(0) =~= v@);
    assert(span_views(out@) =~= Seq::<(Seq<char>, MarkupStyle)>::empty());
    while i < v.len()
        invariant
            i <= v.len(),
            v@ == input@,
            markup_from(v@.skip(i as int), cur@, st, span_views(out@)) == markup_spans(input@),
        decreases v.len() - i,
    {
        let ghost s = v@.skip(i as int);
        assert(s[0] == v@[i as int]);
        if v[i] != '[' {
            assert(s.drop_first() =~= v@.skip(i as int + 1));
            cur.push(v[i]);
            i = i + 1;
        } else {
            let rest = slice_chars(&v, i + 1, v.len());
            assert(rest@ =~= s.drop_first());
            proof {
                lemma_tag_split(rest@);
                lemma_find_char(rest@, ']');
            }
            let (tag, next) = match find_char_exec(&rest, ']') {
                Some(k) => (slice_chars(&rest, 0, k), i + 1 + k + 1),
                None => (slice_chars(&rest, 0, rest.len()), v.len()),
            };
            proof {
                assert(rest@.subrange(0, rest.len() as int) =~= rest@);
                assert(tag@ == tag_split(rest@).0);
                assert(v@.skip(next as int) =~= tag_split(rest@).1);
            }
            let ghost cur0 = cur@;
            let ghost st0 = st;
            let ghost out0 = span_views(out@);
            assert(markup_from(s, cur0, st0, out0) == if tag@ == seq!['N'] {
                markup_from(v@.skip(next as int), Seq::<char>::empty(), plain_style(), flush(out0, cur0, st0))
            } else if find_char(tag@, ':') < 0 {
                markup_from(v@.skip(next as int), cur0 + seq!['['] + tag@ + seq![']'], st0, out0)
            } else {
                markup_from(v@.skip(next as int), Seq::<char>::empty(), apply_tag(st0, tag@), flush(out0, cur0, st0))
            });
            if tag.len() == 1 && tag[0] == 'N' {
                assert(tag@ =~= seq!['N']);
                flush_exec(&mut out, &cur, st);
                cur = Vec::new();
                st = MarkupStyle { fg: None, bg: None, attrs: 0 };
            } else {
                assert(tag@ != seq!['N']);
                proof {
                    lemma_find_char(tag@, ':');
                }
                match find_char_exec(&tag, ':') {
                    None => {
                        cur.push('[');
                        let mut k: usize = 0;
                        let ghost c0 = cur@;
                        while k < tag.len()
                            invariant
                                k <= tag.len(),
                                cur@ == c0 + tag@.take(k as int),
                            decreases tag.len() - k,
                        {
                            cur.push(tag[k]);
                            assert(tag@.take(k as int + 1) =~= tag@.take(k as int).push(tag@[k as int]));
                            k = k + 1;
                        }
                        cur.push(']');
                        assert(tag@.take(tag.len() as int) =~= tag@);
                        assert(cur@ =~= cur0 + seq!['['] + tag@ + seq![']']);
                    },
                    Some(_) => {
                        flush_exec(&mut out, &cur, st);
                        cur = Vec::new();
                        st = apply_tag_exec(st, &tag);
                    },
                }
            }
            i = next;
        }
    }
    assert(v@.skip(i as int) =~= Seq::<char>::empty());
    flush_exec(&mut out, &cur, st);
    if out.len() == 0 {
        out.push(MarkupSpan { text: String::new(), style: MarkupStyle { fg: None, bg: None, attrs: 0 } });
        assert(span_views(out@) =~= seq![(Seq::<char>::empty(), plain_style())]);
    }
    out
}

} // verus!
