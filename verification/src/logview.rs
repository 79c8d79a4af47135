use crate::alert::{lead_len, lead_len_exec};
use crate::chars::{
    append_chars, append_str, chars_eq, chars_of, filter_hit, filter_hit_exec, find_char, find_char_exec, find_sub, find_sub_exec,
    lemma_find_char, slice_chars, split_char, split_exec, chars_views, string_from, string_of,
};
use crate::elements::lemma_find_sub_bound;
use crate::minreg::{trim, trim_exec};
use vstd::prelude::*;

verus! {

/// The level of a log line, as its level field names it.
#[derive(Debug, Clone, Copy, PartialEq, Eq, Structural)]
pub enum LogLevel {
    Error,
    Warn,
    Info,
    Debug,
    Trace,
    Other,
}

/// How a piece of a log line is shown.
#[derive(Debug, Clone, Copy, PartialEq, Eq, Structural)]
pub enum LogRole {
    /// The whole line, when it has no timestamp.
    Line,
    Timestamp,
    /// The ` - ` and `: ` separators.
    Separator,
    Level(LogLevel),
    /// A bracketed tag at the start of the message.
    Tag,
    /// The space between the tag and the message.
    Space,
    Message,
    /// A continuation line of a multi-line entry.
    Continuation,
}

/// A piece of a log line in one role.
pub struct LogSpan {
    pub text: String,
    pub role: LogRole,
}

pub open spec fn log_span_views(v: Seq<LogSpan>) -> Seq<(Seq<char>, LogRole)> {
    v.map_values(|s: LogSpan| (s.text@, s.role))
}

/// `s` without leading white space (what `str::trim_start` gives).
pub open spec fn trim_start(s: Seq<char>) -> Seq<char> {
    s.skip(lead_len(s) as int)
}

fn trim_start_exec(v: &Vec<char>) -> (r: Vec<char>)
    ensures
        r@ == trim_start(v@),
{
    let l = lead_len_exec(v);
    let r = slice_chars(v, l, v.len());
    assert(r@ =~= v@.skip(l as int));
    r
}

/// The level a level field names.
pub open spec fn level_of(s: Seq<char>) -> LogLevel {
    if s == "ERROR"@ {
        LogLevel::Error
    } else if s == "WARN"@ || s == "WARNING"@ {
        LogLevel::Warn
    } else if s == "INFO"@ {
        LogLevel::Info
    } else if s == "DEBUG"@ {
        LogLevel::Debug
    } else if s == "TRACE"@ {
        LogLevel::Trace
    } else {
        LogLevel::Other
    }
}

/// Law: the level field of a log line is classified by its exact text, as the viewer colours
/// it: `ERROR` as an error; `WARN` and `WARNING` as a warning; `INFO`, `DEBUG` and `TRACE` as
/// themselves; any other text as unclassified.
pub proof fn law_log_level_names(s: Seq<char>)
    ensures
        (level_of(s) == LogLevel::Error) <==> s == seq!['E', 'R', 'R', 'O', 'R'],
        (level_of(s) == LogLevel::Warn) <==> (s == seq!['W', 'A', 'R', 'N'] || s == seq!['W', 'A', 'R', 'N', 'I', 'N', 'G']),
        (level_of(s) == LogLevel::Info) <==> s == seq!['I', 'N', 'F', 'O'],
        (level_of(s) == LogLevel::Debug) <==> s == seq!['D', 'E', 'B', 'U', 'G'],
        (level_of(s) == LogLevel::Trace) <==> s == seq!['T', 'R', 'A', 'C', 'E'],
        (level_of(s) == LogLevel::Other) <==> !(s == seq!['E', 'R', 'R', 'O', 'R'] || s == seq!['W', 'A', 'R', 'N'] || s == seq![
            'W',
            'A',
            'R',
            'N',
            'I',
            'N',
            'G',
        ] || s == seq!['I', 'N', 'F', 'O'] || s == seq!['D', 'E', 'B', 'U', 'G'] || s == seq!['T', 'R', 'A', 'C', 'E']),
{
    reveal_strlit("ERROR");
    reveal_strlit("WARN");
    reveal_strlit("WARNING");
    reveal_strlit("INFO");
    reveal_strlit("DEBUG");
    reveal_strlit("TRACE");
    assert("ERROR"@ =~= seq!['E', 'R', 'R', 'O', 'R']);
    assert("WARN"@ =~= seq!['W', 'A', 'R', 'N']);
    assert("WARNING"@ =~= seq!['W', 'A', 'R', 'N', 'I', 'N', 'G']);
    assert("INFO"@ =~= seq!['I', 'N', 'F', 'O']);
    assert("DEBUG"@ =~= seq!['D', 'E', 'B', 'U', 'G']);
    assert("TRACE"@ =~= seq!['T', 'R', 'A', 'C', 'E']);
}

proof fn lemma_find_sub_prefix(a: Seq<char>, b: Seq<char>, pat: Seq<char>)
    requires
        find_sub(a, pat) >= 0,
    ensures
        find_sub(a + b, pat) == find_sub(a, pat),
    decreases a.len(),
{
    lemma_find_sub_bound(a, pat);
    let ab = a + b;
    assert(ab.take(pat.len() as int) =~= a.take(pat.len() as int));
    if a.take(pat.len() as int) == pat {
    } else {
        assert(a.len() > 0);
        assert(ab.drop_first() =~= a.drop_first() + b);
        lemma_find_sub_prefix(a.drop_first(), b, pat);
    }
}

proof fn lemma_find_char_first(a: Seq<char>, b: Seq<char>, c: char)
    requires
        !a.contains(c),
        b.len() > 0,
        b[0] == c,
    ensures
        find_char(a + b, c) == a.len(),
    decreases a.len(),
{
    let ab = a + b;
    if a.len() == 0 {
        assert(ab[0] == b[0]);
    } else {
        assert(ab[0] == a[0]);
        assert(a[0] != c);
        assert(ab.drop_first() =~= a.drop_first() + b);
        assert forall|k: int| 0 <= k < a.drop_first().len() implies a.drop_first()[k] != c by {
            assert(a.drop_first()[k] == a[k + 1]);
        }
        lemma_find_char_first(a.drop_first(), b, c);
    }
}

/// Law: in a line `timestamp - LEVEL: message` (no ` - ` in the timestamp, no `:` in the
/// level), the third piece is the level field, and a level field `WARN` or `WARNING` is shown
/// as a warning.
pub proof fn law_log_line_level(ts: Seq<char>, level: Seq<char>, msg: Seq<char>)
    requires
        find_sub(ts + " - "@, " - "@) == ts.len(),
        !level.contains(':'),
        level == trim(level),
    ensures
        log_spans(ts + " - "@ + level + ":"@ + msg)[2] == (level, LogRole::Level(level_of(level))),
        (level == seq!['W', 'A', 'R', 'N'] || level == seq!['W', 'A', 'R', 'N', 'I', 'N', 'G']) ==> log_spans(
            ts + " - "@ + level + ":"@ + msg,
        )[2] == (level, LogRole::Level(LogLevel::Warn)),
{
    let line = ts + " - "@ + level + ":"@ + msg;
    reveal_strlit(" - ");
    reveal_strlit(":");
    lemma_find_sub_prefix(ts + " - "@, level + ":"@ + msg, " - "@);
    assert(line =~= (ts + " - "@) + (level + ":"@ + msg));
    let rest = line.skip(ts.len() as int + 3);
    assert(rest =~= level + (":"@ + msg));
    lemma_find_char_first(level, ":"@ + msg, ':');
    assert(find_sub(line, " - "@) == ts.len());
    assert(find_char(rest, ':') == level.len());
    assert(rest.take(level.len() as int) =~= level);
    let spans = log_spans(line);
    let head = seq![
        (line.take(ts.len() as int), LogRole::Timestamp),
        (" - "@, LogRole::Separator),
        (level, LogRole::Level(level_of(level))),
        (": "@, LogRole::Separator),
    ];
    assert(spans == head + message_spans(rest.skip(level.len() as int + 1)));
    assert(spans[2] == head[2]);
    law_log_level_names(level);
}

/// The pieces of the message part of a log line: a leading `[tag]` stands out, followed by the
/// rest (after a space) when there is any.
pub open spec fn message_spans(msg: Seq<char>) -> Seq<(Seq<char>, LogRole)> {
    let m = trim_start(msg);
    if m.len() > 0 && m[0] == '[' && find_char(m.drop_first(), ']') >= 0 {
        let rest = m.drop_first();
        let k = find_char(rest, ']');
        let tail = trim_start(rest.skip(k + 1));
        let tag = seq![("["@ + rest.take(k) + "]"@, LogRole::Tag)];
        if tail.len() > 0 { tag + seq![(" "@, LogRole::Space), (tail, LogRole::Message)] } else { tag }
    } else {
        seq![(m, LogRole::Message)]
    }
}

/// The pieces of a log line `timestamp - LEVEL: message`: the whole line when it has no ` - `;
/// timestamp and the rest when the rest has no `:`; otherwise timestamp, trimmed level and the
/// message (see `message_spans`).
pub open spec fn log_spans(line: Seq<char>) -> Seq<(Seq<char>, LogRole)> {
    let i = find_sub(line, " - "@);
    if i < 0 {
        seq![(line, LogRole::Line)]
    } else {
        let ts = line.take(i);
        let rest = line.skip(i + 3);
        let k = find_char(rest, ':');
        if k < 0 {
            seq![(ts, LogRole::Timestamp), (" - "@, LogRole::Separator), (rest, LogRole::Message)]
        } else {
            let level = trim(rest.take(k));
            seq![(ts, LogRole::Timestamp), (" - "@, LogRole::Separator), (level, LogRole::Level(level_of(level))), (": "@, LogRole::Separator)]
                + message_spans(rest.skip(k + 1))
        }
    }
}

fn level_exec(s: &Vec<char>) -> (r: LogLevel)
    ensures
        r == level_of(s@),
{
    if chars_eq(s, &chars_of("ERROR")) {
        LogLevel::Error
    } else if chars_eq(s, &chars_of("WARN")) || chars_eq(s, &chars_of("WARNING")) {
        LogLevel::Warn
    } else if chars_eq(s, &chars_of("INFO")) {
        LogLevel::Info
    } else if chars_eq(s, &chars_of("DEBUG")) {
        LogLevel::Debug
    } else if chars_eq(s, &chars_of("TRACE")) {
        LogLevel::Trace
    } else {
        LogLevel::Other
    }
}

fn push_span(out: &mut Vec<LogSpan>, text: &Vec<char>, role: LogRole)
    ensures
        log_span_views(final(out)@) == log_span_views(old(out)@).push((text@, role)),
{
    let ghost o = log_span_views(out@);
    out.push(LogSpan { text: string_of(text), role });
    assert(log_span_views(out@) =~= o.push((text@, role)));
}

/// Splits a log line into its pieces, see `log_spans`.
pub fn colorize_log_line(line: &str) -> (r: Vec<LogSpan>)
    ensures
        log_span_views(r@) == log_spans(line@),
{
    let v = chars_of(line);
    let mut out: Vec<LogSpan> = Vec::new();
    let sep = chars_of(" - ");
    proof {
        reveal_strlit(" - ");
        lemma_find_sub_bound(v@, sep@);
    }
    let i = match find_sub_exec(&v, &sep) {
        Some(i) => i,
        None => {
            push_span(&mut out, &v, LogRole::Line);
            assert(log_span_views(out@) =~= log_spans(line@));
            return out;
        },
    };
    let ts = slice_chars(&v, 0, i);
    let rest = slice_chars(&v, i + 3, v.len());
    assert(ts@ =~= v@.take(i as int));
    assert(rest@ =~= v@.skip(i as int + 3));
    push_span(&mut out, &ts, LogRole::Timestamp);
    push_span(&mut out, &sep, LogRole::Separator);
    proof {
        lemma_find_char(rest@, ':');
    }
    let k = match find_char_exec(&rest, ':') {
        Some(k) => k,
        None => {
            push_span(&mut out, &rest, LogRole::Message);
            assert(log_span_views(out@) =~= log_spans(line@));
            return out;
        },
    };
    let level_raw = slice_chars(&rest, 0, k);
    assert(level_raw@ =~= rest@.take(k as int));
    let level = trim_exec(&level_raw);
    let lv = level_exec(&level);
    push_span(&mut out, &level, LogRole::Level(lv));
    push_span(&mut out, &chars_of(": "), LogRole::Separator);
    let ghost head = log_span_views(out@);
    let msg = slice_chars(&rest, k + 1, rest.len());
    assert(msg@ =~= rest@.skip(k as int + 1));
    let m = trim_start_exec(&msg);
    if m.len() > 0 && m[0] == '[' {
        let after = slice_chars(&m, 1, m.len());
        assert(after@ =~= m@.drop_first());
        proof {
            lemma_find_char(after@, ']');
        }
        match find_char_exec(&after, ']') {
            Some(j) => {
                let inner = slice_chars(&after, 0, j);
                let mut tag: Vec<char> = Vec::new();
                tag.push('[');
                append_chars(&mut tag, &inner);
                tag.push(']');
                proof {
                    reveal_strlit("]");
                    assert(inner@ =~= after@.take(j as int));
                }
                assert(tag@ =~= "["@ + after@.take(j as int) + "]"@) by {
                    reveal_strlit("[");
                }
                push_span(&mut out, &tag, LogRole::Tag);
                let tail_raw = slice_chars(&after, j + 1, after.len());
                assert(tail_raw@ =~= after@.skip(j as int + 1));
                let tail = trim_start_exec(&tail_raw);
                if tail.len() > 0 {
                    push_span(&mut out, &chars_of(" "), LogRole::Space);
                    push_span(&mut out, &tail, LogRole::Message);
                }
                assert(log_span_views(out@) =~= head + message_spans(msg@));
                assert(log_span_views(out@) =~= log_spans(line@));
                return out;
            },
            None => {},
        }
    }
    push_span(&mut out, &m, LogRole::Message);
    assert(log_span_views(out@) =~= head + message_spans(msg@));
    assert(log_span_views(out@) =~= log_spans(line@));
    out
}

/// The rows of a log entry: its first line in pieces, each further line as a continuation.
pub open spec fn log_entry_rows(entry: Seq<char>) -> Seq<Seq<(Seq<char>, LogRole)>> {
    let parts = split_char(entry, '\n');
    seq![log_spans(parts[0])] + parts.drop_first().map_values(|p: Seq<char>| seq![(p, LogRole::Continuation)])
}

pub open spec fn row_views(v: Seq<Vec<LogSpan>>) -> Seq<Seq<(Seq<char>, LogRole)>> {
    v.map_values(|r: Vec<LogSpan>| log_span_views(r@))
}

/// The rows of a log entry, see `log_entry_rows`.
pub fn render_log_line(line: &str) -> (r: Vec<Vec<LogSpan>>)
    ensures
        row_views(r@) == log_entry_rows(line@),
{
    let v = chars_of(line);
    let parts = split_exec(&v, '\n');
    proof {
        crate::chars::lemma_split_char_nonempty(v@, '\n');
    }
    let ghost pv = chars_views(parts@);
    let mut out: Vec<Vec<LogSpan>> = Vec::new();
    out.push(colorize_log_line(string_of(&parts[0]).as_str()));
    let mut i: usize = 1;
    while i < parts.len()
        invariant
            1 <= i <= parts.len(),
            pv == chars_views(parts@),
            pv == split_char(v@, '\n'),
            v@ == line@,
            row_views(out@) == log_entry_rows(line@).take(i as int),
        decreases parts.len() - i,
    {
        let mut row: Vec<LogSpan> = Vec::new();
        assert(log_span_views(row@) =~= Seq::<(Seq<char>, LogRole)>::empty());
        push_span(&mut row, &parts[i], LogRole::Continuation);
        assert(log_span_views(row@) =~= seq![(pv[i as int], LogRole::Continuation)]);
        let ghost o = row_views(out@);
        out.push(row);
        assert(row_views(out@) =~= o.push(seq![(pv[i as int], LogRole::Continuation)]));
        assert(log_entry_rows(line@).take(i as int + 1) =~= log_entry_rows(line@).take(i as int).push(
            seq![(pv[i as int], LogRole::Continuation)],
        ));
        i = i + 1;
    }
    assert(log_entry_rows(line@).take(parts.len() as int) =~= log_entry_rows(line@));
    out
}

/// The log lines that pass a case-insensitive substring filter (all of them with an empty filter).
pub open spec fn filtered_lines(lines: Seq<Seq<char>>, filter: Seq<char>) -> Seq<Seq<char>>
    decreases lines.len(),
{
    if lines.len() == 0 {
        lines
    } else {
        let r = filtered_lines(lines.drop_last(), filter);
        if filter_hit(lines.last(), filter) { r.push(lines.last()) } else { r }
    }
}

/// The rows of every log entry that passes the filter, in order.
pub open spec fn rendered_rows(lines: Seq<Seq<char>>) -> Seq<Seq<(Seq<char>, LogRole)>>
    decreases lines.len(),
{
    if lines.len() == 0 {
        Seq::empty()
    } else {
        rendered_rows(lines.drop_last()) + log_entry_rows(lines.last())
    }
}

/// The rows of the log popup for a filter, see `filtered_lines` and `rendered_rows`.
pub fn filtered_rendered_log_lines(lines: &Vec<String>, filter: &str) -> (r: Vec<Vec<LogSpan>>)
    ensures
        row_views(r@) == rendered_rows(filtered_lines(lines.deep_view(), filter@)),
{
    let mut out: Vec<Vec<LogSpan>> = Vec::new();
    let mut i: usize = 0;
    while i < lines.len()
        invariant
            i <= lines.len(),
            row_views(out@) == rendered_rows(filtered_lines(lines.deep_view().take(i as int), filter@)),
        decreases lines.len() - i,
    {
        proof {
            assert(lines.deep_view().take(i as int + 1).drop_last() =~= lines.deep_view().take(i as int));
            assert(lines.deep_view().take(i as int + 1).last() == lines@[i as int]@);
        }
        if filter_hit_exec(lines[i].as_str(), filter) {
            let rows = render_log_line(lines[i].as_str());
            let ghost before = filtered_lines(lines.deep_view().take(i as int), filter@);
            let ghost o = row_views(out@);
            let mut rows = rows;
            let ghost rv = row_views(rows@);
            out.append(&mut rows);
            assert(row_views(out@) =~= o + rv);
            assert(before.push(lines@[i as int]@).drop_last() =~= before);
        }
        i = i + 1;
    }
    assert(lines.deep_view().take(lines.len() as int) =~= lines.deep_view());
    out
}

} // verus!
