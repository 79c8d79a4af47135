use crate::alert::{lead_len, lead_len_exec, wrap_text, wrap_text_spec};
use crate::chars::{
    append_chars, chars_of, chars_views, contains_chars, find_sub, find_sub_exec, has_sub, slice_chars, split_char, split_exec,
    string_of, utf8_len, utf8_len_wide,
};
use crate::elements::lemma_find_sub_bound;
use vstd::prelude::*;

verus! {

/// `s` begins with `p`.
pub open spec fn starts(s: Seq<char>, p: Seq<char>) -> bool {
    p.len() <= s.len() && s.take(p.len() as int) == p
}

/// At least one row.
pub open spec fn at_least_one(n: nat) -> nat {
    if n == 0 { 1 } else { n }
}

/// `a - b`, or 0.
pub open spec fn sat_sub(a: nat, b: nat) -> nat {
    if a > b { (a - b) as nat } else { 0 }
}

/// A line of the description that takes one row: a model, target or context header, or an
/// empty line.
pub open spec fn desc_header(line: Seq<char>) -> bool {
    starts(line, "Model: "@) || starts(line, "Target \""@) || starts(line, "Context:"@) || line.len() == 0
}

/// A context field line: `key  required  description` or `key  optional  description`.
pub open spec fn desc_field(line: Seq<char>) -> bool {
    has_sub(line, "  required"@) || has_sub(line, "  optional"@)
}

/// Where the tag of a field line starts (the first `  required`, else the first `  optional`).
pub open spec fn field_tag_at(line: Seq<char>) -> int {
    if has_sub(line, "  required"@) { find_sub(line, "  required"@) } else { find_sub(line, "  optional"@) }
}

/// The column (on the screen, 16 bits) where a field's description starts: four columns of
/// indent, the key's bytes, two spaces, the eight letters of the tag and two spaces.
pub open spec fn field_desc_col(line: Seq<char>) -> nat {
    (((4 + utf8_len(line.take(field_tag_at(line)))) % 65536) + 12) as nat
}

/// A field's description: what follows its tag, without leading white space.
pub open spec fn field_desc(line: Seq<char>) -> Seq<char> {
    let rest = line.skip(field_tag_at(line) + 10);
    rest.skip(lead_len(rest) as int)
}

/// A list item: `- ` first, or a digit first and `. ` in it.
pub open spec fn desc_list_item(line: Seq<char>) -> bool {
    starts(line, "- "@) || (line.len() > 0 && '0' <= line[0] <= '9' && has_sub(line, ". "@))
}

/// The rows a line of the description takes in `text_w` columns: one for a header or an empty
/// line; a field's description wrapped after its key and tag (in at least ten columns); any
/// other line indented (six columns for a list item, else four) and wrapped in the width less
/// three; every line at least one row.
pub open spec fn desc_line_rows(line: Seq<char>, text_w: nat) -> nat {
    if desc_header(line) {
        1
    } else if desc_field(line) {
        let width = sat_sub(text_w, field_desc_col(line));
        let width = if width > 10 { width } else { 10 };
        if field_desc(line).len() == 0 {
            1
        } else {
            at_least_one(wrap_text_spec(field_desc(line), width).len())
        }
    } else {
        let indent = if desc_list_item(line) { "      "@ } else { "    "@ };
        at_least_one(wrap_text_spec(indent + line, sat_sub(text_w, 3)).len())
    }
}

/// The rows all the lines take.
pub open spec fn desc_rows(lines: Seq<Seq<char>>, text_w: nat) -> nat
    decreases lines.len(),
{
    if lines.len() == 0 {
        0
    } else {
        desc_rows(lines.drop_last(), text_w) + desc_line_rows(lines.last(), text_w)
    }
}

/// The column where a field's description starts fits in 16 bits for every field line.
pub open spec fn desc_cols_fit(lines: Seq<Seq<char>>) -> bool {
    forall|i: int| 0 <= i < lines.len() && !desc_header(#[trigger] lines[i]) && desc_field(lines[i]) ==> field_desc_col(lines[i]) <= 65535
}

/// The scroll position shown: the asked one, but no further than the last full page.
pub open spec fn desc_offset_spec(scroll: nat, total: nat, height: nat) -> nat {
    let max_off = sat_sub(total, height);
    if scroll < max_off { scroll } else { max_off }
}

pub proof fn lemma_has_sub_found(s: Seq<char>, pat: Seq<char>)
    requires
        has_sub(s, pat),
    ensures
        find_sub(s, pat) >= 0,
    decreases s.len(),
{
    let i = choose|i: int| 0 <= i && i + pat.len() <= s.len() && #[trigger] s.subrange(i, i + pat.len()) == pat;
    if s.take(pat.len() as int) == pat {
    } else {
        if i == 0 {
            assert(s.take(pat.len() as int) =~= s.subrange(0, pat.len() as int));
        }
        assert(i > 0);
        let t = s.drop_first();
        assert(t.subrange(i - 1, i - 1 + pat.len()) =~= s.subrange(i, i + pat.len()));
        lemma_has_sub_found(t, pat);
    }
}

proof fn lemma_desc_rows_prefix(lines: Seq<Seq<char>>, k: int, w: nat)
    requires
        0 <= k <= lines.len(),
    ensures
        desc_rows(lines.take(k), w) <= desc_rows(lines, w),
    decreases lines.len() - k,
{
    if k < lines.len() {
        lemma_desc_rows_prefix(lines, k + 1, w);
        assert(lines.take(k + 1).drop_last() =~= lines.take(k));
    } else {
        assert(lines.take(k) =~= lines);
    }
}

fn starts_exec(v: &Vec<char>, p: &str) -> (r: bool)
    ensures
        r == starts(v@, p@),
{
    let pv = chars_of(p);
    if pv.len() > v.len() {
        return false;
    }
    let mut i: usize = 0;
    while i < pv.len()
        invariant
            i <= pv.len() <= v.len(),
            pv@ == p@,
            forall|k: int| 0 <= k < i ==> v@[k] == pv@[k],
        decreases pv.len() - i,
    {
        if v[i] != pv[i] {
            assert(v@.take(pv.len() as int)[i as int] != pv@[i as int]);
            return false;
        }
        i = i + 1;
    }
    assert(v@.take(pv.len() as int) =~= pv@);
    true
}

fn has_sub_str(v: &Vec<char>, p: &str) -> (r: bool)
    ensures
        r == has_sub(v@, p@),
{
    let pv = chars_of(p);
    contains_chars(v, &pv)
}

fn at_least_one_exec(n: usize) -> (r: usize)
    ensures
        r == at_least_one(n as nat),
{
    if n == 0 { 1 } else { n }
}

/// The rows a field line takes, see `desc_line_rows`.
fn field_rows(line: &Vec<char>, text_w: u16) -> (r: usize)
    requires
        !desc_header(line@),
        desc_field(line@),
        field_desc_col(line@) <= 65535,
    ensures
        r == desc_line_rows(line@, text_w as nat),
{
    let req = has_sub_str(line, "  required");
    let pat = if req { chars_of("  required") } else { chars_of("  optional") };
    proof {
        reveal_strlit("  required");
        reveal_strlit("  optional");
        lemma_has_sub_found(line@, pat@);
        lemma_find_sub_bound(line@, pat@);
    }
    let pos = match find_sub_exec(line, &pat) {
        Some(p) => p,
        None => {
            assert(false);
            0
        },
    };
    assert(pos as int == field_tag_at(line@));
    assert(pat@.len() == 10);
    assert(pos + 10 <= line@.len());
    let n = line.len();
    assert(n == line@.len());
    let start: usize = pos + 10;
    let key = slice_chars(line, 0, pos);
    assert(key@ =~= line@.take(pos as int));
    let kb = utf8_len_wide(&key);
    let after_key: u128 = (4 + kb) % 65536;
    let col: u128 = after_key + 12;
    assert(col == field_desc_col(line@));
    let col16: u16 = col as u16;
    let width0: u16 = if text_w > col16 { text_w - col16 } else { 0 };
    let width: usize = if width0 > 10 { width0 as usize } else { 10 };
    let rest = slice_chars(line, start, n);
    let l = lead_len_exec(&rest);
    let desc = slice_chars(&rest, l, rest.len());
    assert(desc@ =~= field_desc(line@));
    if desc.len() == 0 {
        1
    } else {
        let wrapped = wrap_text(string_of(&desc).as_str(), width);
        at_least_one_exec(wrapped.len())
    }
}

/// The rows a line other than a header or a field takes, see `desc_line_rows`.
fn text_rows(line: &Vec<char>, text_w: u16) -> (r: usize)
    requires
        !desc_header(line@),
        !desc_field(line@),
    ensures
        r == desc_line_rows(line@, text_w as nat),
{
    let digit_first = line.len() > 0 && '0' <= line[0] && line[0] <= '9';
    let list = starts_exec(line, "- ") || (digit_first && has_sub_str(line, ". "));
    let mut s = if list { chars_of("      ") } else { chars_of("    ") };
    append_chars(&mut s, line);
    let w: usize = if text_w > 3 { (text_w - 3) as usize } else { 0 };
    let wrapped = wrap_text(string_of(&s).as_str(), w);
    at_least_one_exec(wrapped.len())
}

fn header_exec(line: &Vec<char>) -> (r: bool)
    ensures
        r == desc_header(line@),
{
    starts_exec(line, "Model: ") || starts_exec(line, "Target \"") || starts_exec(line, "Context:") || line.len() == 0
}

/// The rows that the description popup's text takes in `text_w` columns (see
/// `desc_line_rows`), line by line.
pub fn desc_total_rows(text: &str, text_w: u16) -> (r: usize)
    requires
        desc_cols_fit(split_char(text@, '\n')),
        desc_rows(split_char(text@, '\n'), text_w as nat) <= usize::MAX,
    ensures
        r == desc_rows(split_char(text@, '\n'), text_w as nat),
{
    let v = chars_of(text);
    let lines = split_exec(&v, '\n');
    let ghost ls = chars_views(lines@);
    assert(ls == split_char(text@, '\n'));
    let mut total: usize = 0;
    let mut i: usize = 0;
    while i < lines.len()
        invariant
            i <= lines.len(),
            ls == chars_views(lines@),
            ls == split_char(text@, '\n'),
            desc_cols_fit(ls),
            desc_rows(ls, text_w as nat) <= usize::MAX,
            total == desc_rows(ls.take(i as int), text_w as nat),
        decreases lines.len() - i,
    {
        let line = &lines[i];
        assert(ls[i as int] == line@);
        let rows = if header_exec(line) {
            1
        } else if has_sub_str(line, "  required") || has_sub_str(line, "  optional") {
            field_rows(line, text_w)
        } else {
            text_rows(line, text_w)
        };
        proof {
            assert(ls.take(i as int + 1).drop_last() =~= ls.take(i as int));
            assert(ls.take(i as int + 1).last() == ls[i as int]);
            lemma_desc_rows_prefix(ls, i as int + 1, text_w as nat);
        }
        total = total + rows;
        i = i + 1;
    }
    assert(ls.take(lines.len() as int) =~= ls);
    total
}

/// The scroll position that the description popup shows, see `desc_offset_spec`.
pub fn desc_offset(scroll: usize, total: usize, height: u16) -> (r: usize)
    ensures
        r == desc_offset_spec(scroll as nat, total as nat, height as nat),
{
    let h = height as usize;
    let max_off: usize = if total > h { total - h } else { 0 };
    if scroll < max_off { scroll } else { max_off }
}

} // verus!
