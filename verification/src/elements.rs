use crate::chars::{
    append_chars, append_str, chars_of, chars_views, find_char, find_char_exec, find_sub, find_sub_exec, int_text, lemma_find_char,
    push_int, push_spaces, replace_all, replace_all_exec, slice_chars, spaces, split_char, split_exec, string_of, utf8_len,
    utf8_len_wide,
};
use vstd::prelude::*;

verus! {

/// Which of the main panes holds the focus.
#[derive(Debug, PartialEq, Eq, Clone, Copy, Structural)]
pub enum ActiveBox {
    Cycles,
    Minions,
    Events,
    Info,
}

impl ActiveBox {
    /// The pane focused at start-up.
    pub fn default_box() -> (r: ActiveBox)
        ensures
            r == ActiveBox::Cycles,
    {
        ActiveBox::Cycles
    }
}

/// The button that a dialog reports as chosen.
#[derive(Debug, PartialEq, Eq, Clone, Copy, Structural)]
pub enum AlertResult {
    Default,
    Purge,
    Quit,
    Close,
    ClusterConfirm,
}

impl AlertResult {
    pub fn default_result() -> (r: AlertResult)
        ensures
            r == AlertResult::Default,
    {
        AlertResult::Default
    }
}

/// Address and name under which a minion is shown.
pub struct HostInfo {
    pub hostname: String,
    pub ipaddr: String,
}

/// A query as it is displayed: a trailing `/$` (the default state) is dropped.
pub open spec fn display_query(q: Seq<char>) -> Seq<char> {
    if q.len() >= 2 && q[q.len() - 2] == '/' && q[q.len() - 1] == '$' {
        q.take(q.len() - 2)
    } else {
        q
    }
}

pub fn display_query_exec(q: &str) -> (r: Vec<char>)
    ensures
        r@ == display_query(q@),
{
    let v = chars_of(q);
    let n = v.len();
    if n >= 2 && v[n - 2] == '/' && v[n - 1] == '$' {
        slice_chars(&v, 0, n - 2)
    } else {
        v
    }
}

/// The role of a piece of a displayed query, which decides its colour.
#[derive(Debug, PartialEq, Eq, Clone, Copy, Structural)]
pub enum SegKind {
    Plain,
    Model,
    Separator,
    Label,
    Target,
    State,
}

/// A piece of a displayed query.
pub struct Segment {
    pub text: String,
    pub kind: SegKind,
}

pub open spec fn seg_views(v: Seq<Segment>) -> Seq<(Seq<char>, SegKind)> {
    v.map_values(|s: Segment| (s.text@, s.kind))
}

/// The pieces of a query line: `model:label` for a checkbook call, `model/target` or
/// `model/target/state` for an entity call, the whole query otherwise or when `dimmed`.
pub open spec fn query_segments(query: Seq<char>, dimmed: bool) -> Seq<(Seq<char>, SegKind)> {
    let d = display_query(query);
    let colon = find_char(d, ':');
    let parts = split_char(d, '/');
    if dimmed {
        seq![(d, SegKind::Plain)]
    } else if colon >= 0 {
        seq![(d.take(colon), SegKind::Model), (seq![':'], SegKind::Separator), (d.skip(colon + 1), SegKind::Label)]
    } else if parts.len() == 2 {
        seq![(parts[0], SegKind::Model), (seq!['/'], SegKind::Separator), (parts[1], SegKind::Target)]
    } else if parts.len() == 3 {
        seq![
            (parts[0], SegKind::Model),
            (seq!['/'], SegKind::Separator),
            (parts[1], SegKind::Target),
            (seq!['/'], SegKind::Separator),
            (parts[2], SegKind::State),
        ]
    } else {
        seq![(d, SegKind::Plain)]
    }
}

fn seg(v: &Vec<char>, kind: SegKind) -> (r: Segment)
    ensures
        r.text@ == v@,
        r.kind == kind,
{
    Segment { text: string_of(v), kind }
}

fn seg_str(s: &str, kind: SegKind) -> (r: Segment)
    ensures
        r.text@ == s@,
        r.kind == kind,
{
    let v = chars_of(s);
    seg(&v, kind)
}

/// Splits a query line into coloured pieces, see `query_segments`.
pub fn query_spans(query: &str, dimmed: bool) -> (r: Vec<Segment>)
    ensures
        seg_views(r@) == query_segments(query@, dimmed),
{
    let d = display_query_exec(query);
    let mut r: Vec<Segment> = Vec::new();
    if dimmed {
        r.push(seg(&d, SegKind::Plain));
        assert(seg_views(r@) =~= query_segments(query@, dimmed));
        return r;
    }
    proof {
        lemma_find_char(d@, ':');
    }
    match find_char_exec(&d, ':') {
        Some(i) => {
            let a = slice_chars(&d, 0, i);
            let b = slice_chars(&d, i + 1, d.len());
            r.push(seg(&a, SegKind::Model));
            r.push(seg_str(":", SegKind::Separator));
            r.push(seg(&b, SegKind::Label));
            proof {
                reveal_strlit(":");
                assert(":"@ =~= seq![':']);
                assert(seg_views(r@) =~~= query_segments(query@, dimmed));
            }
            return r;
        },
        None => {},
    }
    let parts = split_exec(&d, '/');
    proof {
        assert(chars_views(parts@).len() == parts.len());
    }
    if parts.len() == 2 {
        r.push(seg(&parts[0], SegKind::Model));
        r.push(seg_str("/", SegKind::Separator));
        r.push(seg(&parts[1], SegKind::Target));
        proof {
            reveal_strlit("/");
            assert("/"@ =~= seq!['/']);
            assert(chars_views(parts@)[0] == parts@[0]@);
            assert(chars_views(parts@)[1] == parts@[1]@);
            assert(seg_views(r@) =~~= query_segments(query@, dimmed));
        }
    } else if parts.len() == 3 {
        r.push(seg(&parts[0], SegKind::Model));
        r.push(seg_str("/", SegKind::Separator));
        r.push(seg(&parts[1], SegKind::Target));
        r.push(seg_str("/", SegKind::Separator));
        r.push(seg(&parts[2], SegKind::State));
        proof {
            reveal_strlit("/");
            assert("/"@ =~= seq!['/']);
            assert(chars_views(parts@)[0] == parts@[0]@);
            assert(chars_views(parts@)[1] == parts@[1]@);
            assert(chars_views(parts@)[2] == parts@[2]@);
            assert(seg_views(r@) =~~= query_segments(query@, dimmed));
        }
    } else {
        r.push(seg(&d, SegKind::Plain));
        assert(seg_views(r@) =~= query_segments(query@, dimmed));
    }
    r
}

/// The title of a cycle entry: its displayed query, a space, then its label.
pub open spec fn cycle_title_spec(query: Seq<char>, title: Seq<char>) -> Seq<char> {
    display_query(query) + seq![' '] + title
}

pub fn cycle_title(query: &str, title: &str) -> (r: String)
    ensures
        r@ == cycle_title_spec(query@, title@),
{
    let mut v = display_query_exec(query);
    v.push(' ');
    let t = chars_of(title);
    append_chars(&mut v, &t);
    string_of(&v)
}

/// `s` right-aligned in `width` columns (characters), unchanged when it is already as wide.
pub open spec fn right_align_spec(s: Seq<char>, width: nat) -> Seq<char> {
    if s.len() >= width { s } else { spaces((width - s.len()) as nat) + s }
}

pub fn right_align(s: &str, width: usize) -> (r: String)
    ensures
        r@ == right_align_spec(s@, width as nat),
{
    let v = chars_of(s);
    if v.len() >= width {
        return string_of(&v);
    }
    let mut out: Vec<char> = Vec::new();
    push_spaces(&mut out, width - v.len());
    append_chars(&mut out, &v);
    string_of(&out)
}

/// `s` left-aligned in `width` columns (characters), unchanged when it is already as wide.
pub open spec fn right_pad_spec(s: Seq<char>, width: nat) -> Seq<char> {
    if s.len() >= width { s } else { s + spaces((width - s.len()) as nat) }
}

pub fn right_pad_chars(v: &Vec<char>, width: usize) -> (r: Vec<char>)
    ensures
        r@ == right_pad_spec(v@, width as nat),
{
    let mut out = slice_chars(v, 0, v.len());
    assert(out@ =~= v@);
    if v.len() < width {
        push_spaces(&mut out, width - v.len());
    }
    out
}

pub fn right_pad(s: &str, width: usize) -> (r: String)
    ensures
        r@ == right_pad_spec(s@, width as nat),
{
    let v = chars_of(s);
    let out = right_pad_chars(&v, width);
    string_of(&out)
}

/// An IPv4 address with each of its four parts right-aligned to three columns; any other
/// text right-aligned to fifteen.
pub open spec fn ip_octets_spec(ip: Seq<char>) -> Seq<char> {
    let parts = split_char(ip, '.');
    if parts.len() == 4 {
        right_align_spec(parts[0], 3) + seq!['.'] + right_align_spec(parts[1], 3) + seq!['.'] + right_align_spec(parts[2], 3)
            + seq!['.'] + right_align_spec(parts[3], 3)
    } else {
        right_align_spec(ip, 15)
    }
}

fn right_align_chars(v: &Vec<char>, width: usize) -> (r: Vec<char>)
    ensures
        r@ == right_align_spec(v@, width as nat),
{
    let mut out: Vec<char> = Vec::new();
    if v.len() < width {
        push_spaces(&mut out, width - v.len());
    }
    append_chars(&mut out, v);
    assert(out@ =~= right_align_spec(v@, width as nat));
    out
}

pub fn format_ip_octets(ip: &str) -> (r: String)
    ensures
        r@ == ip_octets_spec(ip@),
{
    let v = chars_of(ip);
    let parts = split_exec(&v, '.');
    if parts.len() == 4 {
        let mut out = right_align_chars(&parts[0], 3);
        out.push('.');
        let b = right_align_chars(&parts[1], 3);
        append_chars(&mut out, &b);
        out.push('.');
        let c = right_align_chars(&parts[2], 3);
        append_chars(&mut out, &c);
        out.push('.');
        let d = right_align_chars(&parts[3], 3);
        append_chars(&mut out, &d);
        proof {
            assert(chars_views(parts@)[0] == parts@[0]@);
            assert(chars_views(parts@)[1] == parts@[1]@);
            assert(chars_views(parts@)[2] == parts@[2]@);
            assert(chars_views(parts@)[3] == parts@[3]@);
            assert(out@ =~= ip_octets_spec(ip@));
        }
        string_of(&out)
    } else {
        let out = right_align_chars(&v, 15);
        string_of(&out)
    }
}

/// The arrow that stands for " with " in an event title.
pub open spec fn event_arrow() -> Seq<char> {
    seq![' ', '\u{27A4}', ' ', ' ']
}

pub open spec fn with_word() -> Seq<char> {
    seq![' ', 'w', 'i', 't', 'h', ' ']
}

/// An event title with " with " shown as the arrow.
pub open spec fn arrow_title(title: Seq<char>) -> Seq<char> {
    replace_all(title, with_word(), event_arrow())
}

/// The two sides of an arrowed event title around its first arrow, if it has one.
pub open spec fn event_title_split(title: Seq<char>) -> Option<(Seq<char>, Seq<char>)> {
    let t = arrow_title(title);
    let pos = find_sub(t, event_arrow());
    if pos >= 0 {
        Some((t.take(pos), t.skip(pos + 4)))
    } else {
        None
    }
}

/// The byte offset of the first arrow in an arrowed event title, 0 when there is none.
pub open spec fn event_left_width(title: Seq<char>) -> nat {
    let t = arrow_title(title);
    let pos = find_sub(t, event_arrow());
    if pos >= 0 { utf8_len(t.take(pos)) } else { 0 }
}

fn arrow_chars() -> (r: Vec<char>)
    ensures
        r@ == event_arrow(),
{
    let mut r: Vec<char> = Vec::new();
    r.push(' ');
    r.push('\u{27A4}');
    r.push(' ');
    r.push(' ');
    assert(r@ =~= event_arrow());
    r
}

fn with_chars() -> (r: Vec<char>)
    ensures
        r@ == with_word(),
{
    let mut r: Vec<char> = Vec::new();
    r.push(' ');
    r.push('w');
    r.push('i');
    r.push('t');
    r.push('h');
    r.push(' ');
    assert(r@ =~= with_word());
    r
}

fn arrowed(title: &str) -> (r: (Vec<char>, Option<usize>))
    ensures
        r.0@ == arrow_title(title@),
        r.1 is Some ==> find_sub(r.0@, event_arrow()) == r.1->0 as int,
        r.1 is None ==> find_sub(r.0@, event_arrow()) == -1,
{
    let v = chars_of(title);
    let w = with_chars();
    let a = arrow_chars();
    let t = replace_all_exec(&v, &w, &a);
    let pos = find_sub_exec(&t, &a);
    (t, pos)
}

pub proof fn lemma_find_sub_bound(s: Seq<char>, pat: Seq<char>)
    ensures
        find_sub(s, pat) >= 0 ==> find_sub(s, pat) + pat.len() <= s.len(),
    decreases s.len(),
{
    if s.len() >= pat.len() && s.take(pat.len() as int) != pat && s.len() > 0 {
        lemma_find_sub_bound(s.drop_first(), pat);
    }
}

/// Splits an event title at its first arrow, the left side padded to `left_pad` columns.
pub fn event_title_parts(title: &str, left_pad: usize) -> (r: Option<(String, String)>)
    ensures
        r is None <==> event_title_split(title@) is None,
        r matches Some(p) ==> p.0@ == right_pad_spec((event_title_split(title@)->0).0, left_pad as nat)
            && p.1@ == (event_title_split(title@)->0).1,
{
    let (t, pos) = arrowed(title);
    match pos {
        Some(p) => {
            proof {
                lemma_find_sub_bound(t@, event_arrow());
                assert(event_arrow().len() == 4);
                assert(find_sub(t@, event_arrow()) == p as int);
                assert(p + 4 <= t@.len());
            }
            assert(p + 4 <= t.len());
            let left = slice_chars(&t, 0, p);
            let after = slice_chars(&t, p + 4, t.len());
            let lp = right_pad_chars(&left, left_pad);
            Some((string_of(&lp), string_of(&after)))
        },
        None => None,
    }
}

/// The left width of an event title, see `event_left_width`.
pub fn left_width(title: &str) -> (r: u128)
    ensures
        r == event_left_width(title@),
{
    let (t, pos) = arrowed(title);
    match pos {
        Some(p) => {
            proof {
                lemma_find_sub_bound(t@, event_arrow());
            }
            let left = slice_chars(&t, 0, p);
            utf8_len_wide(&left)
        },
        None => 0,
    }
}

/// How a minion is shown: its address (the loopback address when it reported none) and its
/// fully qualified name, or its short name when it reported no qualified one.
pub fn host_info(ipaddr: &str, fqdn: &str, hostname: &str) -> (r: HostInfo)
    ensures
        r.ipaddr@ == if ipaddr@.len() > 0 { ipaddr@ } else { "127.0.0.1"@ },
        r.hostname@ == if fqdn@.len() > 0 { fqdn@ } else { hostname@ },
{
    let ip = if ipaddr.is_empty() { chars_of("127.0.0.1") } else { chars_of(ipaddr) };
    let host = if fqdn.is_empty() { chars_of(hostname) } else { chars_of(fqdn) };
    HostInfo { ipaddr: string_of(&ip), hostname: string_of(&host) }
}

/// The title of a minion entry: `address (name)`.
pub fn minion_title(info: &HostInfo) -> (r: String)
    ensures
        r@ == info.ipaddr@ + seq![' ', '('] + info.hostname@ + seq![')'],
{
    let mut v = chars_of(info.ipaddr.as_str());
    v.push(' ');
    v.push('(');
    append_str(&mut v, info.hostname.as_str());
    v.push(')');
    assert(v@ =~= info.ipaddr@ + seq![' ', '('] + info.hostname@ + seq![')']);
    string_of(&v)
}

/// The return-code cell of an event: "Success" for 0, "Error - <code>" otherwise.
pub fn retcode_label(code: i64) -> (r: String)
    ensures
        r@ == if code == 0 { "Success"@ } else { "Error - "@ + int_text(code as int) },
{
    if code == 0 {
        return string_of(&chars_of("Success"));
    }
    let mut v = chars_of("Error - ");
    push_int(&mut v, code);
    string_of(&v)
}

/// The scope cell of an event: "Global" for the default state `$`, the state otherwise.
pub fn scope_label(status_id: &str) -> (r: String)
    ensures
        r@ == if status_id@ == "$"@ { "Global"@ } else { status_id@ },
{
    let v = chars_of(status_id);
    let d = chars_of("$");
    if crate::chars::chars_eq(&v, &d) {
        string_of(&chars_of("Global"))
    } else {
        string_of(&v)
    }
}

} // verus!
