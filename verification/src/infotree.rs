use crate::chars::{
    append_chars, append_str, chars_eq, chars_of, filter_hit, filter_hit_exec, unicode_lowercase, find_char, find_char_exec, lemma_find_char, push_spaces, slice_chars, spaces,
    string_from, string_of,
};
use crate::online::{info_value_str, info_value_text, InfoValue, TraitSource};
use crate::sortutil::{lemma_sorted_set_exists, sort_dedup, sorted_set, strictly_sorted, text_less, text_lt};
use vstd::prelude::*;

verus! {

/// A trait of a minion as its information lists it.
pub struct InfoRow {
    pub key: String,
    pub value: InfoValue,
    pub source: TraitSource,
}

/// A row of a group: the key column (the key, padded, and `: `) and the value text.
pub struct InfoItem {
    pub icon: String,
    pub text: String,
}

/// A group of trait rows under a header.
pub struct InfoGroup {
    pub header: String,
    pub children: Vec<InfoItem>,
}

/// What `char::to_uppercase` of std gives for a character: its Unicode uppercase form, which
/// may be more than one character.
pub uninterp spec fn unicode_uppercase(c: char) -> Seq<char>;

/// Calls `char::to_uppercase` and collects the characters it yields.
#[verifier::external_body]
fn upper_char(c: char) -> (r: String)
    ensures
        r@ == unicode_uppercase(c),
{
    c.to_uppercase().collect()
}

/// A text with its first character in uppercase.
pub open spec fn capitalized(s: Seq<char>) -> Seq<char> {
    if s.len() == 0 {
        s
    } else {
        unicode_uppercase(s[0]) + s.skip(1)
    }
}

/// The part of a key before its first dot (the whole key when it has none).
pub open spec fn first_segment(key: Seq<char>) -> Seq<char> {
    let i = find_char(key, '.');
    if i >= 0 {
        key.take(i)
    } else {
        key
    }
}

/// The group of a trait: `Static` for static traits, `Scripts` for traits computed by
/// functions, and for preset traits the first dot-separated segment of the key, capitalized.
pub open spec fn trait_group(key: Seq<char>, source: TraitSource) -> Seq<char> {
    match source {
        TraitSource::Static => "Static"@,
        TraitSource::Function => "Scripts"@,
        TraitSource::Preset => capitalized(first_segment(key)),
    }
}

/// The group of a trait, see `trait_group`.
pub fn trait_group_exec(key: &str, source: TraitSource) -> (r: String)
    ensures
        r@ == trait_group(key@, source),
{
    match source {
        TraitSource::Static => string_from("Static"),
        TraitSource::Function => string_from("Scripts"),
        TraitSource::Preset => {
            let k = chars_of(key);
            proof {
                lemma_find_char(k@, '.');
            }
            let seg = match find_char_exec(&k, '.') {
                Some(i) => slice_chars(&k, 0, i),
                None => k,
            };
            assert(seg@ == first_segment(key@));
            if seg.len() == 0 {
                string_of(&seg)
            } else {
                let up = upper_char(seg[0]);
                let mut v = chars_of(up.as_str());
                let rest = slice_chars(&seg, 1, seg.len());
                append_chars(&mut v, &rest);
                assert(rest@ == seg@.skip(1));
                string_of(&v)
            }
        },
    }
}

/// A row as plain values: key, value text, group.
pub open spec fn row_entry(r: InfoRow) -> (Seq<char>, Seq<char>, Seq<char>) {
    (r.key@, info_value_text(r.value), trait_group(r.key@, r.source))
}

pub open spec fn row_entries(rows: Seq<InfoRow>) -> Seq<(Seq<char>, Seq<char>, Seq<char>)> {
    rows.map_values(|r: InfoRow| row_entry(r))
}

/// The key and value text of the rows in group `g`, in their order.
pub open spec fn members(es: Seq<(Seq<char>, Seq<char>, Seq<char>)>, g: Seq<char>) -> Seq<(Seq<char>, Seq<char>)>
    decreases es.len(),
{
    if es.len() == 0 {
        Seq::empty()
    } else {
        let m = members(es.drop_last(), g);
        if es.last().2 == g {
            m.push((es.last().0, es.last().1))
        } else {
            m
        }
    }
}

/// `x` inserted into `s` behind every member whose key is not greater.
pub open spec fn insert_by_key(s: Seq<(Seq<char>, Seq<char>)>, x: (Seq<char>, Seq<char>)) -> Seq<(Seq<char>, Seq<char>)>
    decreases s.len(),
{
    if s.len() == 0 {
        seq![x]
    } else if text_lt(x.0, s.last().0) {
        insert_by_key(s.drop_last(), x).push(s.last())
    } else {
        s.push(x)
    }
}

/// Members sorted by key, members with equal keys in the order they came (a stable sort).
pub open spec fn sorted_by_key(s: Seq<(Seq<char>, Seq<char>)>) -> Seq<(Seq<char>, Seq<char>)>
    decreases s.len(),
{
    if s.len() == 0 {
        s
    } else {
        insert_by_key(sorted_by_key(s.drop_last()), s.last())
    }
}

/// The byte length that `str::len` reports for a text.
pub open spec fn str_len(k: Seq<char>) -> usize {
    vstd::utf8::encode_utf8(k).len() as usize
}

/// The largest byte length of the members' keys (0 without members).
pub open spec fn max_key_len(s: Seq<(Seq<char>, Seq<char>)>) -> usize
    decreases s.len(),
{
    if s.len() == 0 {
        0
    } else {
        let a = max_key_len(s.drop_last());
        let b = str_len(s.last().0);
        if b > a {
            b
        } else {
            a
        }
    }
}

/// A key left-aligned in a column of `w` characters, followed by `: `.
pub open spec fn padded_key(k: Seq<char>, w: usize) -> Seq<char> {
    k + spaces(if w > k.len() { (w - k.len()) as nat } else { 0 }) + ": "@
}

/// The rows of a group: each member's padded key and value text.
pub open spec fn group_items(s: Seq<(Seq<char>, Seq<char>)>) -> Seq<(Seq<char>, Seq<char>)> {
    let w = max_key_len(s);
    s.map_values(|m: (Seq<char>, Seq<char>)| (padded_key(m.0, w), m.1))
}

/// The information tree of a minion's traits (given as key, value text and group name): one
/// group per distinct group name, in increasing order of name; in each, the group's traits ordered by key (equal keys in their order), each
/// shown with its key padded to the longest key of the group (counted in bytes).
pub open spec fn info_tree(es: Seq<(Seq<char>, Seq<char>, Seq<char>)>) -> Seq<(Seq<char>, Seq<(Seq<char>, Seq<char>)>)> {
    sorted_set(es.map_values(|e: (Seq<char>, Seq<char>, Seq<char>)| e.2)).map_values(
        |g: Seq<char>| (g, group_items(sorted_by_key(members(es, g)))),
    )
}

pub open spec fn item_views(v: Seq<InfoItem>) -> Seq<(Seq<char>, Seq<char>)> {
    v.map_values(|c: InfoItem| (c.icon@, c.text@))
}

pub open spec fn group_views(v: Seq<InfoGroup>) -> Seq<(Seq<char>, Seq<(Seq<char>, Seq<char>)>)> {
    v.map_values(|g: InfoGroup| (g.header@, item_views(g.children@)))
}

/// A key and value text of a row.
struct Member {
    key: String,
    text: String,
}

spec fn member_views(v: Seq<Member>) -> Seq<(Seq<char>, Seq<char>)> {
    v.map_values(|m: Member| (m.key@, m.text@))
}

/// Entries given as three parallel vectors: keys, value texts, group names.
spec fn entries_of(keys: Seq<String>, texts: Seq<String>, groups: Seq<String>) -> Seq<(Seq<char>, Seq<char>, Seq<char>)> {
    Seq::new(keys.len(), |j: int| (keys[j]@, texts[j]@, groups[j]@))
}

/// The key and value text of the entries in group `g`.
fn group_members(keys: &Vec<String>, texts: &Vec<String>, groups: &Vec<String>, g: &Vec<char>) -> (r: Vec<Member>)
    requires
        texts@.len() == keys@.len(),
        groups@.len() == keys@.len(),
    ensures
        member_views(r@) == members(entries_of(keys@, texts@, groups@), g@),
{
    let ghost es = entries_of(keys@, texts@, groups@);
    let mut out: Vec<Member> = Vec::new();
    let mut i: usize = 0;
    while i < keys.len()
        invariant
            i <= keys@.len(),
            texts@.len() == keys@.len(),
            groups@.len() == keys@.len(),
            es == entries_of(keys@, texts@, groups@),
            member_views(out@) == members(es.take(i as int), g@),
        decreases keys@.len() - i,
    {
        proof {
            assert(es.take(i as int + 1).drop_last() =~= es.take(i as int));
            assert(es.take(i as int + 1).last() == (keys@[i as int]@, texts@[i as int]@, groups@[i as int]@));
        }
        let gv = chars_of(groups[i].as_str());
        if chars_eq(&gv, g) {
            let m = Member { key: string_from(keys[i].as_str()), text: string_from(texts[i].as_str()) };
            let ghost o = member_views(out@);
            out.push(m);
            assert(member_views(out@) =~= o.push((keys@[i as int]@, texts@[i as int]@)));
        }
        i = i + 1;
    }
    assert(es.take(keys@.len() as int) =~= es);
    out
}

proof fn lemma_insert_at(s: Seq<(Seq<char>, Seq<char>)>, x: (Seq<char>, Seq<char>), p: int)
    requires
        0 <= p <= s.len(),
        forall|j: int| p <= j < s.len() ==> text_lt(x.0, (#[trigger] s[j]).0),
        p == 0 || !text_lt(x.0, s[p - 1].0),
    ensures
        insert_by_key(s, x) == s.take(p) + seq![x] + s.skip(p),
    decreases s.len(),
{
    if s.len() == 0 {
        assert(s.take(p) + seq![x] + s.skip(p) =~= seq![x]);
    } else if p == s.len() {
        assert(s.take(p) + seq![x] + s.skip(p) =~= s.push(x));
    } else {
        assert(text_lt(x.0, s[s.len() - 1].0));
        let t = s.drop_last();
        assert forall|j: int| p <= j < t.len() implies text_lt(x.0, (#[trigger] t[j]).0) by {
            assert(t[j] == s[j]);
        }
        if p > 0 {
            assert(t[p - 1] == s[p - 1]);
        }
        lemma_insert_at(t, x, p);
        assert((t.take(p) + seq![x] + t.skip(p)).push(s.last()) =~= s.take(p) + seq![x] + s.skip(p));
    }
}

/// Sorts members by key, stably, see `sorted_by_key`.
fn sort_members(v: Vec<Member>) -> (r: Vec<Member>)
    ensures
        member_views(r@) == sorted_by_key(member_views(v@)),
{
    let ghost orig = member_views(v@);
    let mut v = v;
    let mut out: Vec<Member> = Vec::new();
    let ghost mut k: int = 0;
    while v.len() > 0
        invariant
            0 <= k,
            k + v@.len() == orig.len(),
            member_views(v@) == orig.skip(k),
            member_views(out@) == sorted_by_key(orig.take(k)),
        decreases v@.len(),
    {
        proof {
            assert(orig.take(k + 1).drop_last() =~= orig.take(k));
            assert(orig.take(k + 1).last() == orig[k]);
            assert(member_views(v@)[0] == orig[k]);
        }
        let ghost vv = v@;
        let x = v.remove(0);
        proof {
            assert forall|i: int| 0 <= i < v@.len() implies member_views(v@)[i] == orig.skip(k + 1)[i] by {
                assert(v@[i] == vv[i + 1]);
                assert(member_views(vv)[i + 1] == orig.skip(k)[i + 1]);
            }
        }
        let xk = chars_of(x.key.as_str());
        let ghost ov = member_views(out@);
        let ghost xv = (x.key@, x.text@);
        let mut p = out.len();
        while p > 0 && text_less(&xk, &chars_of(out[p - 1].key.as_str()))
            invariant
                p <= out.len(),
                xk@ == xv.0,
                ov == member_views(out@),
                forall|j: int| p <= j < ov.len() ==> text_lt(xv.0, (#[trigger] ov[j]).0),
            decreases p,
        {
            p = p - 1;
        }
        proof {
            lemma_insert_at(ov, xv, p as int);
        }
        out.insert(p, x);
        proof {
            assert(member_views(out@) =~= ov.take(p as int) + seq![xv] + ov.skip(p as int));
            assert(member_views(v@) =~= orig.skip(k + 1));
            k = k + 1;
        }
    }
    assert(orig.take(k) =~= orig);
    out
}

/// The largest byte length of the members' keys, see `max_key_len`.
fn max_key(ms: &Vec<Member>) -> (r: usize)
    ensures
        r == max_key_len(member_views(ms@)),
{
    let ghost s = member_views(ms@);
    let mut w: usize = 0;
    let mut i: usize = 0;
    while i < ms.len()
        invariant
            i <= ms@.len(),
            s == member_views(ms@),
            w == max_key_len(s.take(i as int)),
        decreases ms@.len() - i,
    {
        proof {
            assert(s.take(i as int + 1).drop_last() =~= s.take(i as int));
            assert(s.take(i as int + 1).last() == s[i as int]);
        }
        let b = ms[i].key.as_str().len();
        if b > w {
            w = b;
        }
        i = i + 1;
    }
    assert(s.take(ms@.len() as int) =~= s);
    w
}

/// The rows of a group with keys padded to `w`.
fn items_of(ms: &Vec<Member>, w: usize) -> (r: Vec<InfoItem>)
    ensures
        item_views(r@) == member_views(ms@).map_values(|m: (Seq<char>, Seq<char>)| (padded_key(m.0, w), m.1)),
{
    let mut out: Vec<InfoItem> = Vec::new();
    let mut i: usize = 0;
    while i < ms.len()
        invariant
            i <= ms@.len(),
            item_views(out@) == member_views(ms@).take(i as int).map_values(
                |m: (Seq<char>, Seq<char>)| (padded_key(m.0, w), m.1),
            ),
        decreases ms@.len() - i,
    {
        let k = chars_of(ms[i].key.as_str());
        let n = k.len();
        let pad: usize = if w > n { w - n } else { 0 };
        let mut v = k;
        push_spaces(&mut v, pad);
        append_str(&mut v, ": ");
        let item = InfoItem { icon: string_of(&v), text: string_from(ms[i].text.as_str()) };
        let ghost o = item_views(out@);
        out.push(item);
        proof {
            assert(v@ == padded_key(ms@[i as int].key@, w));
            assert(item_views(out@) =~= o.push((padded_key(ms@[i as int].key@, w), ms@[i as int].text@)));
            assert(member_views(ms@).take(i as int + 1).map_values(|m: (Seq<char>, Seq<char>)| (padded_key(m.0, w), m.1))
                =~= member_views(ms@).take(i as int).map_values(|m: (Seq<char>, Seq<char>)| (padded_key(m.0, w), m.1)).push(
                (padded_key(ms@[i as int].key@, w), ms@[i as int].text@),
            ));
        }
        i = i + 1;
    }
    assert(member_views(ms@).take(ms@.len() as int) =~= member_views(ms@));
    out
}

/// The information tree of entries given as parallel vectors, see `info_tree`.
fn tree_of_entries(keys: &Vec<String>, texts: &Vec<String>, groups: &Vec<String>) -> (r: Vec<InfoGroup>)
    requires
        texts@.len() == keys@.len(),
        groups@.len() == keys@.len(),
    ensures
        group_views(r@) == info_tree(entries_of(keys@, texts@, groups@)),
{
    let ghost es = entries_of(keys@, texts@, groups@);
    assert(groups.deep_view() =~= es.map_values(|e: (Seq<char>, Seq<char>, Seq<char>)| e.2));
    let headers = sort_dedup(groups);
    let ghost hv = headers.deep_view();
    let mut out: Vec<InfoGroup> = Vec::new();
    let mut h: usize = 0;
    while h < headers.len()
        invariant
            h <= headers@.len(),
            hv == headers.deep_view(),
            hv == sorted_set(es.map_values(|e: (Seq<char>, Seq<char>, Seq<char>)| e.2)),
            es == entries_of(keys@, texts@, groups@),
            texts@.len() == keys@.len(),
            groups@.len() == keys@.len(),
            group_views(out@) == hv.take(h as int).map_values(|g: Seq<char>| (g, group_items(sorted_by_key(members(es, g))))),
        decreases headers@.len() - h,
    {
        let hc = chars_of(headers[h].as_str());
        assert(hc@ == hv[h as int]);
        let ms = group_members(keys, texts, groups, &hc);
        let sorted = sort_members(ms);
        let w = max_key(&sorted);
        let children = items_of(&sorted, w);
        let grp = InfoGroup { header: string_from(headers[h].as_str()), children };
        let ghost o = group_views(out@);
        let ghost gv = (grp.header@, item_views(grp.children@));
        out.push(grp);
        proof {
            assert(gv.1 == group_items(sorted_by_key(members(es, hv[h as int]))));
            assert(group_views(out@) =~= o.push((hv[h as int], group_items(sorted_by_key(members(es, hv[h as int]))))));
            assert(hv.take(h as int + 1).map_values(|g: Seq<char>| (g, group_items(sorted_by_key(members(es, g)))))
                =~= hv.take(h as int).map_values(|g: Seq<char>| (g, group_items(sorted_by_key(members(es, g))))).push(
                (hv[h as int], group_items(sorted_by_key(members(es, hv[h as int])))),
            ));
        }
        h = h + 1;
    }
    assert(hv.take(headers@.len() as int) =~= hv);
    out
}

/// The entries of the rows whose value text passes the filter, in order.
pub open spec fn kept_entries(es: Seq<(Seq<char>, Seq<char>, Seq<char>)>, filter: Seq<char>) -> Seq<(Seq<char>, Seq<char>, Seq<char>)>
    decreases es.len(),
{
    if es.len() == 0 {
        es
    } else {
        let k = kept_entries(es.drop_last(), filter);
        if filter_hit(es.last().1, filter) { k.push(es.last()) } else { k }
    }
}

/// Groups a minion's traits whose value passes the filter (case-insensitive; an empty filter
/// keeps every trait) for the information tree, see `info_tree`.
pub fn build_filtered_info_tree(rows: &Vec<InfoRow>, filter: &str) -> (r: Vec<InfoGroup>)
    ensures
        group_views(r@) == info_tree(kept_entries(row_entries(rows@), filter@)),
{
    let ghost es = row_entries(rows@);
    let mut keys: Vec<String> = Vec::new();
    let mut texts: Vec<String> = Vec::new();
    let mut groups: Vec<String> = Vec::new();
    let mut i: usize = 0;
    while i < rows.len()
        invariant
            i <= rows@.len(),
            es == row_entries(rows@),
            texts@.len() == keys@.len(),
            groups@.len() == keys@.len(),
            entries_of(keys@, texts@, groups@) == kept_entries(es.take(i as int), filter@),
        decreases rows@.len() - i,
    {
        proof {
            assert(es.take(i as int + 1).drop_last() =~= es.take(i as int));
            assert(es.take(i as int + 1).last() == row_entry(rows@[i as int]));
        }
        let t = info_value_str(&rows[i].value);
        if filter_hit_exec(t.as_str(), filter) {
            let ghost before = entries_of(keys@, texts@, groups@);
            keys.push(string_from(rows[i].key.as_str()));
            texts.push(t);
            groups.push(trait_group_exec(rows[i].key.as_str(), rows[i].source));
            assert(entries_of(keys@, texts@, groups@) =~= before.push(row_entry(rows@[i as int])));
        }
        i = i + 1;
    }
    assert(es.take(rows@.len() as int) =~= es);
    tree_of_entries(&keys, &texts, &groups)
}

/// Law: an empty filter keeps every trait.
pub proof fn law_empty_filter_keeps_all(es: Seq<(Seq<char>, Seq<char>, Seq<char>)>, filter: Seq<char>)
    requires
        unicode_lowercase(filter).len() == 0,
    ensures
        kept_entries(es, filter) == es,
    decreases es.len(),
{
    if es.len() > 0 {
        law_empty_filter_keeps_all(es.drop_last(), filter);
        assert(es.drop_last().push(es.last()) =~= es);
    }
}

/// Groups a minion's traits for the information tree, see `info_tree`.
pub fn build_info_tree(rows: &Vec<InfoRow>) -> (r: Vec<InfoGroup>)
    ensures
        group_views(r@) == info_tree(row_entries(rows@)),
{
    let ghost es = row_entries(rows@);
    let mut keys: Vec<String> = Vec::new();
    let mut texts: Vec<String> = Vec::new();
    let mut groups: Vec<String> = Vec::new();
    let mut i: usize = 0;
    while i < rows.len()
        invariant
            i <= rows@.len(),
            es == row_entries(rows@),
            keys@.len() == i,
            texts@.len() == keys@.len(),
            groups@.len() == keys@.len(),
            entries_of(keys@, texts@, groups@) == es.take(i as int),
        decreases rows@.len() - i,
    {
        let ghost before = entries_of(keys@, texts@, groups@);
        keys.push(string_from(rows[i].key.as_str()));
        texts.push(info_value_str(&rows[i].value));
        groups.push(trait_group_exec(rows[i].key.as_str(), rows[i].source));
        assert(entries_of(keys@, texts@, groups@) =~= before.push(row_entry(rows@[i as int])));
        assert(es.take(i as int + 1) =~= es.take(i as int).push(es[i as int]));
        i = i + 1;
    }
    assert(es.take(rows@.len() as int) =~= es);
    tree_of_entries(&keys, &texts, &groups)
}


/// Members in key order: no member's key is smaller than that of a member before it.
pub open spec fn in_key_order(s: Seq<(Seq<char>, Seq<char>)>) -> bool {
    forall|a: int, b: int| 0 <= a < b < s.len() ==> !text_lt((#[trigger] s[b]).0, (#[trigger] s[a]).0)
}

proof fn lemma_insert_in_order(s: Seq<(Seq<char>, Seq<char>)>, x: (Seq<char>, Seq<char>))
    requires
        in_key_order(s),
    ensures
        in_key_order(insert_by_key(s, x)),
        insert_by_key(s, x).len() == s.len() + 1,
        forall|i: int| 0 <= i < insert_by_key(s, x).len() ==> #[trigger] insert_by_key(s, x)[i] == x || s.contains(
            insert_by_key(s, x)[i],
        ),
    decreases s.len(),
{
    let r = insert_by_key(s, x);
    if s.len() == 0 {
    } else if text_lt(x.0, s.last().0) {
        let t = s.drop_last();
        assert(in_key_order(t)) by {
            assert forall|a: int, b: int| 0 <= a < b < t.len() implies !text_lt((#[trigger] t[b]).0, (#[trigger] t[a]).0) by {
                assert(t[a] == s[a] && t[b] == s[b]);
            }
        }
        lemma_insert_in_order(t, x);
        let r1 = insert_by_key(t, x);
        assert forall|i: int| 0 <= i < r1.len() implies !text_lt(s.last().0, (#[trigger] r1[i]).0) by {
            if r1[i] == x {
                crate::sortutil::lemma_text_lt_asym(x.0, s.last().0);
            } else {
                assert(t.contains(r1[i]));
                let j = choose|j: int| 0 <= j < t.len() && t[j] == r1[i];
                assert(s[j] == t[j]);
                assert(!text_lt(s[s.len() - 1].0, s[j].0));
            }
        }
        assert forall|i: int| 0 <= i < r.len() implies #[trigger] r[i] == x || s.contains(r[i]) by {
            if i < r1.len() {
                assert(r[i] == r1[i]);
                if r1[i] != x {
                    let j = choose|j: int| 0 <= j < t.len() && t[j] == r1[i];
                    assert(s[j] == t[j]);
                }
            } else {
                assert(r[i] == s.last());
                assert(s[s.len() - 1] == s.last());
            }
        }
    } else {
        assert forall|a: int, b: int| 0 <= a < b < r.len() implies !text_lt((#[trigger] r[b]).0, (#[trigger] r[a]).0) by {
            if b == s.len() {
                let l = s.last();
                crate::sortutil::lemma_text_lt_total(l.0, x.0);
                if a < s.len() - 1 {
                    assert(!text_lt(s[s.len() - 1].0, s[a].0));
                }
                if text_lt(x.0, r[a].0) {
                    if l.0 == x.0 {
                    } else if text_lt(l.0, x.0) {
                        crate::sortutil::lemma_text_lt_trans(l.0, x.0, r[a].0);
                    }
                    if a == s.len() - 1 {
                        assert(r[a] == l);
                        crate::sortutil::lemma_text_lt_irrefl(x.0);
                    }
                }
            }
        }
        assert forall|i: int| 0 <= i < r.len() implies #[trigger] r[i] == x || s.contains(r[i]) by {
            if i < s.len() {
                assert(r[i] == s[i]);
            }
        }
    }
}

/// Law: the rows of every group come in key order.
pub proof fn law_group_rows_in_key_order(s: Seq<(Seq<char>, Seq<char>)>)
    ensures
        in_key_order(sorted_by_key(s)),
        sorted_by_key(s).len() == s.len(),
    decreases s.len(),
{
    if s.len() > 0 {
        law_group_rows_in_key_order(s.drop_last());
        lemma_insert_in_order(sorted_by_key(s.drop_last()), s.last());
    }
}

/// The names of the groups of an information tree, in order.
pub open spec fn tree_headers(es: Seq<(Seq<char>, Seq<char>, Seq<char>)>) -> Seq<Seq<char>> {
    info_tree(es).map_values(|g: (Seq<char>, Seq<(Seq<char>, Seq<char>)>)| g.0)
}

/// The group of every trait, in order.
pub open spec fn group_names(es: Seq<(Seq<char>, Seq<char>, Seq<char>)>) -> Seq<Seq<char>> {
    es.map_values(|e: (Seq<char>, Seq<char>, Seq<char>)| e.2)
}

/// Law: the groups of the information tree are named in increasing order, each name once, and
/// their names are exactly the groups of the traits.
pub proof fn law_info_tree_groups(es: Seq<(Seq<char>, Seq<char>, Seq<char>)>)
    ensures
        strictly_sorted(tree_headers(es)),
        forall|g: Seq<char>| #[trigger] tree_headers(es).contains(g) <==> group_names(es).contains(g),
{
    lemma_sorted_set_exists(group_names(es));
    assert(tree_headers(es) =~= sorted_set(group_names(es)));
}

} // verus!
