use crate::chars::{
    append_chars, append_str, chars_of, push_decimal, slice_chars, spaces, split_char, split_exec, chars_views, string_from, string_of,
    utf8_len, utf8_len_wide,
};
use crate::minreg::{trim, trim_exec};
use crate::setup::{join_strings, join_with};
use crate::sortutil::{text_less, text_lt};
use vstd::prelude::*;

verus! {

/// `value` when it is at most `2 * edge + 3` characters long; otherwise its first and last
/// `edge` characters around `...`.
pub open spec fn shorten_mid_spec(value: Seq<char>, edge: nat) -> Seq<char> {
    if value.len() <= edge * 2 + 3 { value } else { value.take(edge as int) + "..."@ + value.skip(value.len() - edge) }
}

pub fn shorten_mid(value: &str, edge: usize) -> (r: String)
    ensures
        r@ == shorten_mid_spec(value@, edge as nat),
{
    let v = chars_of(value);
    if (v.len() as u128) <= (edge as u128) * 2 + 3 {
        return string_of(&v);
    }
    let mut out = slice_chars(&v, 0, edge);
    append_str(&mut out, "...");
    let tail = slice_chars(&v, v.len() - edge, v.len());
    append_chars(&mut out, &tail);
    assert(out@ =~= shorten_mid_spec(value@, edge as nat));
    string_of(&out)
}

/// The host label of a minion: its FQDN, else its host name, when not blank; else `unknown`.
pub open spec fn online_host_spec(fqdn: Seq<char>, hostname: Seq<char>) -> Seq<char> {
    if trim(fqdn).len() > 0 {
        fqdn
    } else if trim(hostname).len() > 0 {
        hostname
    } else {
        "unknown"@
    }
}

pub fn online_host(fqdn: &str, hostname: &str) -> (r: String)
    ensures
        r@ == online_host_spec(fqdn@, hostname@),
{
    if trim_exec(&chars_of(fqdn)).len() > 0 {
        string_from(fqdn)
    } else if trim_exec(&chars_of(hostname)).len() > 0 {
        string_from(hostname)
    } else {
        string_from("unknown")
    }
}

/// The name under which the query composer lists a minion: its FQDN, else its host name.
pub fn composer_minion_name(fqdn: &str, hostname: &str) -> (r: String)
    ensures
        r@ == (if fqdn@.len() > 0 { fqdn@ } else { hostname@ }),
{
    if chars_of(fqdn).len() > 0 { string_from(fqdn) } else { string_from(hostname) }
}

/// An address as the minion table shows it: `unknown` when empty, cut to fifteen characters
/// with an ellipsis when longer than fifteen bytes.
pub open spec fn fmt_ip_spec(ip: Seq<char>) -> Seq<char> {
    if ip.len() == 0 {
        "unknown"@
    } else if utf8_len(ip) > 15 {
        ip.take(if ip.len() < 15 { ip.len() as int } else { 15 }) + "\u{2026}"@
    } else {
        ip
    }
}

pub fn fmt_ip(ip: &str) -> (r: String)
    ensures
        r@ == fmt_ip_spec(ip@),
{
    let v = chars_of(ip);
    if v.len() == 0 {
        return string_from("unknown");
    }
    if utf8_len_wide(&v) > 15 {
        proof {
            crate::chars::lemma_utf8_len_bounds(v@);
        }
        let n: usize = if v.len() < 15 { v.len() } else { 15 };
        let mut out = slice_chars(&v, 0, n);
        append_str(&mut out, "\u{2026}");
        assert(out@ =~= fmt_ip_spec(ip@));
        return string_of(&out);
    }
    string_of(&v)
}

/// The version column: `version -> target` for an outdated minion with both known, `-`
/// without a version, else the version.
pub open spec fn fmt_version_spec(outdated: bool, version: Seq<char>, target: Seq<char>) -> Seq<char> {
    if outdated && version.len() > 0 && target.len() > 0 {
        version + " -> "@ + target
    } else if version.len() == 0 {
        "-"@
    } else {
        version
    }
}

pub fn fmt_version(outdated: bool, version: &str, target_version: &str) -> (r: String)
    ensures
        r@ == fmt_version_spec(outdated, version@, target_version@),
{
    let v = chars_of(version);
    let t = chars_of(target_version);
    if outdated && v.len() > 0 && t.len() > 0 {
        let mut out = v;
        append_str(&mut out, " -> ");
        append_chars(&mut out, &t);
        string_of(&out)
    } else if v.len() == 0 {
        string_from("-")
    } else {
        string_of(&v)
    }
}

/// `s` when at most `max` characters long, else its first `max - 1` characters and an ellipsis.
pub open spec fn trunc_ellipsis_spec(s: Seq<char>, max: nat) -> Seq<char> {
    if s.len() <= max { s } else { s.take(if max > 0 { max - 1 } else { 0 }) + "\u{2026}"@ }
}

pub fn trunc_ellipsis(s: &str, max: usize) -> (r: String)
    ensures
        r@ == trunc_ellipsis_spec(s@, max as nat),
{
    let v = chars_of(s);
    if v.len() <= max {
        return string_of(&v);
    }
    let n: usize = if max > 0 { max - 1 } else { 0 };
    let mut out = slice_chars(&v, 0, n);
    append_str(&mut out, "\u{2026}");
    assert(out@ =~= trunc_ellipsis_spec(s@, max as nat));
    string_of(&out)
}

/// The rows a table of `len` rows shows in `vis_rows` rows so that `selected` is the last one
/// shown once it no longer fits: from `start` up to, not including, `end`.
pub open spec fn table_window_spec(selected: nat, vis_rows: nat, len: nat) -> (nat, nat) {
    let start: nat = if selected < vis_rows { 0 } else { (selected + 1 - vis_rows) as nat };
    (start, if start + vis_rows < len { start + vis_rows } else { len })
}

pub fn table_window(selected: usize, vis_rows: usize, len: usize) -> (r: (usize, usize))
    requires
        selected < usize::MAX,
    ensures
        (r.0 as nat, r.1 as nat) == table_window_spec(selected as nat, vis_rows as nat, len as nat),
{
    let start: usize = if selected < vis_rows { 0 } else { selected + 1 - vis_rows };
    let end: usize = if (start as u128) + (vis_rows as u128) < len as u128 { start + vis_rows } else { len };
    (start, end)
}

/// Where a trait of a minion comes from.
#[derive(Debug, Clone, Copy, PartialEq, Eq, Structural)]
pub enum TraitSource {
    Preset,
    Static,
    Function,
}

/// A trait value as the minion information shows it.
pub enum InfoValue {
    Null,
    Bool(bool),
    /// A number, in its JSON text.
    Number(String),
    Str(String),
    Array(Vec<InfoValue>),
    /// An object, in its JSON text.
    Object(String),
}

/// The text of a trait value: `null`, `yes`/`no`, the number or string itself, the items joined
/// by `, ` (`[]` when there are none), or the object's JSON.
pub open spec fn info_value_text(v: InfoValue) -> Seq<char>
    decreases v,
{
    match v {
        InfoValue::Null => "null"@,
        InfoValue::Bool(b) => if b { "yes"@ } else { "no"@ },
        InfoValue::Number(n) => n@,
        InfoValue::Str(s) => s@,
        InfoValue::Array(items) => if items@.len() == 0 { "[]"@ } else { join_with(info_texts(items@), ", "@) },
        InfoValue::Object(o) => o@,
    }
}

/// The texts of trait values, in order.
pub open spec fn info_texts(items: Seq<InfoValue>) -> Seq<Seq<char>>
    decreases items,
{
    if items.len() == 0 {
        Seq::empty()
    } else {
        info_texts(items.drop_last()).push(info_value_text(items.last()))
    }
}

/// The text of a trait value, see `info_value_text`.
pub fn info_value_str(v: &InfoValue) -> (r: String)
    ensures
        r@ == info_value_text(*v),
    decreases v,
{
    match v {
        InfoValue::Null => string_from("null"),
        InfoValue::Bool(b) => if *b { string_from("yes") } else { string_from("no") },
        InfoValue::Number(n) => string_from(n.as_str()),
        InfoValue::Str(s) => string_from(s.as_str()),
        InfoValue::Array(items) => {
            if items.len() == 0 {
                return string_from("[]");
            }
            let mut parts: Vec<String> = Vec::new();
            let mut i: usize = 0;
            while i < items.len()
                invariant
                    i <= items.len(),
                    *v == InfoValue::Array(*items),
                    parts.deep_view() == info_texts(items@.take(i as int)),
                decreases items.len() - i,
            {
                proof {
                    assert(items@.take(i as int + 1).drop_last() =~= items@.take(i as int));
                    assert(decreases_to!(*v => v->Array_0));
                    assert(decreases_to!(v->Array_0 => v->Array_0@));
                    assert(decreases_to!(v->Array_0@ => v->Array_0@[i as int]));
                    assert(decreases_to!(*v => items@[i as int]));
                }
                let t = info_value_str(&items[i]);
                let ghost d = parts.deep_view();
                parts.push(t);
                assert(parts.deep_view() =~= d.push(info_value_text(items@[i as int])));
                i = i + 1;
            }
            assert(items@.take(items.len() as int) =~= items@);
            join_strings(&parts, ", ")
        },
        InfoValue::Object(o) => string_from(o.as_str()),
    }
}

} // verus!
