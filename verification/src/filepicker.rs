use crate::chars::{
    chars_eq, chars_of, contains_chars, filter_hit, filter_hit_exec, has_sub, string_from, string_of, to_lower,
    unicode_lowercase,
};
use crate::keys::{KeyCode, KeyEvent};
use crate::sortutil::{text_less, text_lt};
use crate::textinput::{edit_input, input_room, input_cursor, input_limit, input_new, input_text, input_value, key_edit};
use crate::width::{char_width, unicode_char_width};
use vstd::prelude::*;

verus! {

/// What the picker lets the user choose.
#[derive(Debug, Clone, Copy, PartialEq, Eq, Structural)]
pub enum PickerMode {
    DirectoryPicker,
    FilePicker,
    Any,
}

/// Which of the two lists has the focus.
#[derive(Debug, Clone, Copy, PartialEq, Eq, Structural)]
pub enum PickerFocus {
    Dirs,
    Files,
}

/// A row of the picker: a directory (the parent `..` among them) or a file.
pub struct PickerEntry {
    pub name: String,
    pub path: String,
    pub is_dir: bool,
    pub is_parent: bool,
    pub icon: String,
}

/// A directory entry as read from disk.
pub struct ListedEntry {
    pub name: String,
    pub path: String,
    pub is_dir: bool,
    pub executable: bool,
}

/// Name, path, directory flag, parent flag and icon of a row.
pub type EntryView = (Seq<char>, Seq<char>, bool, bool, Seq<char>);

pub open spec fn entry_view(e: PickerEntry) -> EntryView {
    (e.name@, e.path@, e.is_dir, e.is_parent, e.icon@)
}

pub open spec fn entry_views(v: Seq<PickerEntry>) -> Seq<EntryView> {
    v.map_values(|e: PickerEntry| entry_view(e))
}

/// The file and directory browser.
pub struct FilePicker {
    pub visible: bool,
    pub mode: PickerMode,
    pub current_path: String,
    pub selected: Option<String>,
    pub entries: Vec<PickerEntry>,
    pub dirs_end: usize,
    pub dir_cursor: usize,
    pub file_cursor: usize,
    pub dir_scroll: usize,
    pub file_scroll: usize,
    pub focus: PickerFocus,
    pub filter_input: ratatui_cheese::input::InputState,
    pub filter_focus: bool,
}

/// What `std::path::Path::parent` gives for a path: the path without its last component,
/// `None` for a root or an empty path.
pub uninterp spec fn path_parent(path: Seq<char>) -> Option<Seq<char>>;

/// Calls `Path::parent` of std; the contract names its result, a function of the path alone.
#[verifier::external_body]
pub(crate) fn parent_of(path: &str) -> (r: Option<String>)
    ensures
        r is Some <==> path_parent(path@) is Some,
        r is Some ==> r->0@ == path_parent(path@)->0,
{
    std::path::Path::new(path).parent().map(|p| p.to_string_lossy().to_string())
}

/// What `std::path::Path::file_name` gives for a path: its last component, `None` when the
/// path ends in `..` or is a root or empty.
pub uninterp spec fn path_file_name(path: Seq<char>) -> Option<Seq<char>>;

/// Calls `Path::file_name` of std; the contract names its result, a function of the path
/// alone. A path built from a `&str` has a file name that is valid UTF-8, so the conversion
/// back to a string keeps it unchanged.
#[verifier::external_body]
pub(crate) fn file_name_of(path: &str) -> (r: Option<String>)
    ensures
        r is Some <==> path_file_name(path@) is Some,
        r is Some ==> r->0@ == path_file_name(path@)->0,
{
    std::path::Path::new(path).file_name().map(|n| n.to_string_lossy().to_string())
}

/// Index of the last `.` of a name, -1 without one.
pub open spec fn last_dot(name: Seq<char>) -> int
    decreases name.len(),
{
    if name.len() == 0 {
        -1
    } else if name.last() == '.' {
        name.len() - 1
    } else {
        last_dot(name.drop_last())
    }
}

/// The extension of a file name as `Path::extension` reads it: what follows the last `.`;
/// none when there is no `.`, when the only one starts the name, or for `..`.
pub open spec fn name_extension(name: Seq<char>) -> Option<Seq<char>> {
    let i = last_dot(name);
    if name == ".."@ || i <= 0 { None } else { Some(name.skip(i + 1)) }
}

proof fn lemma_last_dot_range(name: Seq<char>)
    ensures
        -1 <= last_dot(name) < name.len(),
        last_dot(name) >= 0 ==> name[last_dot(name)] == '.',
    decreases name.len(),
{
    if name.len() > 0 && name.last() != '.' {
        lemma_last_dot_range(name.drop_last());
    }
}

fn extension_of(name: &Vec<char>) -> (r: Option<Vec<char>>)
    ensures
        r is Some <==> name_extension(name@) is Some,
        r is Some ==> r->0@ == name_extension(name@)->0,
{
    let dd = chars_of("..");
    if chars_eq(name, &dd) {
        return None;
    }
    let mut n = name.len();
    proof {
        assert(name@.take(n as int) =~= name@);
    }
    while n > 0 && name[n - 1] != '.'
        invariant
            n <= name.len(),
            last_dot(name@) == last_dot(name@.take(n as int)),
        decreases n,
    {
        proof {
            assert(name@.take(n as int).drop_last() =~= name@.take(n - 1));
        }
        n = n - 1;
    }
    proof {
        if n > 0 {
            assert(name@.take(n as int).last() == name@[n - 1]);
        }
    }
    if n <= 1 {
        return None;
    }
    let mut r: Vec<char> = Vec::new();
    let mut i = n;
    while i < name.len()
        invariant
            n <= i <= name.len(),
            r@ == name@.subrange(n as int, i as int),
        decreases name.len() - i,
    {
        r.push(name[i]);
        assert(name@.subrange(n as int, i as int + 1) =~= name@.subrange(n as int, i as int).push(name@[i as int]));
        i = i + 1;
    }
    assert(name@.skip(n as int) =~= name@.subrange(n as int, name.len() as int));
    Some(r)
}

/// The icon of a row: a folder for a directory, a burst for an executable file, otherwise by
/// the lowercased extension (text, image, disc image, archive, or a scroll for the rest).
pub open spec fn icon_for(name: Seq<char>, is_dir: bool, executable: bool) -> Seq<char> {
    if is_dir {
        "\u{1F4C1}"@
    } else if executable {
        "\u{1F4A5}"@
    } else {
        let ext = match name_extension(name) {
            Some(e) => unicode_lowercase(e),
            None => unicode_lowercase(Seq::<char>::empty()),
        };
        if ext == "txt"@ || ext == "log"@ || ext == "md"@ || ext == "rs"@ || ext == "py"@ || ext == "sh"@ || ext == "toml"@
            || ext == "yaml"@ || ext == "yml"@ || ext == "conf"@ || ext == "json"@ || ext == "ini"@ || ext == "cfg"@ || ext
            == "csv"@ {
            "\u{1F4C4}"@
        } else if ext == "png"@ || ext == "jpg"@ || ext == "jpeg"@ || ext == "gif"@ || ext == "bmp"@ || ext == "svg"@ || ext
            == "webp"@ {
            "\u{1F5BC}"@
        } else if ext == "iso"@ || ext == "img"@ || ext == "dmg"@ {
            "\u{1F4BF}"@
        } else if ext == "zip"@ || ext == "tar"@ || ext == "gz"@ || ext == "xz"@ || ext == "bz2"@ || ext == "7z"@ || ext
            == "rar"@ {
            "\u{1F4E6}"@
        } else {
            "\u{1F4DC}"@
        }
    }
}

fn eq_str(v: &Vec<char>, s: &str) -> (r: bool)
    ensures
        r == (v@ == s@),
{
    let w = chars_of(s);
    chars_eq(v, &w)
}

/// The icon of a row, see `icon_for`.
pub fn file_icon(name: &str, is_dir: bool, executable: bool) -> (r: String)
    ensures
        r@ == icon_for(name@, is_dir, executable),
{
    if is_dir {
        return string_from("\u{1F4C1}");
    }
    if executable {
        return string_from("\u{1F4A5}");
    }
    let nv = chars_of(name);
    proof {
        reveal_strlit("");
        assert(""@ =~= Seq::<char>::empty());
    }
    let ext = match extension_of(&nv) {
        Some(e) => chars_of(to_lower(string_of(&e).as_str()).as_str()),
        None => chars_of(to_lower("").as_str()),
    };
    assert(ext@ == (match name_extension(name@) {
        Some(x) => unicode_lowercase(x),
        None => unicode_lowercase(Seq::<char>::empty()),
    }));
    let e = &ext;
    let t = eq_str(e, "txt") || eq_str(e, "log") || eq_str(e, "md") || eq_str(e, "rs") || eq_str(e, "py") || eq_str(e, "sh")
        || eq_str(e, "toml") || eq_str(e, "yaml") || eq_str(e, "yml") || eq_str(e, "conf") || eq_str(e, "json") || eq_str(
        e,
        "ini",
    ) || eq_str(e, "cfg") || eq_str(e, "csv");
    let im = eq_str(e, "png") || eq_str(e, "jpg") || eq_str(e, "jpeg") || eq_str(e, "gif") || eq_str(e, "bmp") || eq_str(
        e,
        "svg",
    ) || eq_str(e, "webp");
    let d = eq_str(e, "iso") || eq_str(e, "img") || eq_str(e, "dmg");
    let a = eq_str(e, "zip") || eq_str(e, "tar") || eq_str(e, "gz") || eq_str(e, "xz") || eq_str(e, "bz2") || eq_str(e, "7z")
        || eq_str(e, "rar");
    if t {
        string_from("\u{1F4C4}")
    } else if im {
        string_from("\u{1F5BC}")
    } else if d {
        string_from("\u{1F4BF}")
    } else if a {
        string_from("\u{1F4E6}")
    } else {
        string_from("\u{1F4DC}")
    }
}


/// The sort key of a row: its name, lowercased.
pub open spec fn entry_key(e: EntryView) -> Seq<char> {
    unicode_lowercase(e.0)
}

/// `x` inserted into `s` behind every row whose key is not greater.
pub open spec fn insert_by_key(s: Seq<EntryView>, x: EntryView) -> Seq<EntryView>
    decreases s.len(),
{
    if s.len() == 0 {
        seq![x]
    } else if text_lt(entry_key(x), entry_key(s.last())) {
        insert_by_key(s.drop_last(), x).push(s.last())
    } else {
        s.push(x)
    }
}

/// Rows sorted by key, rows with equal keys in the order they came (a stable sort).
pub open spec fn sorted_by_key(s: Seq<EntryView>) -> Seq<EntryView>
    decreases s.len(),
{
    if s.len() == 0 {
        s
    } else {
        insert_by_key(sorted_by_key(s.drop_last()), s.last())
    }
}

proof fn lemma_insert_at(s: Seq<EntryView>, x: EntryView, p: int)
    requires
        0 <= p <= s.len(),
        forall|j: int| p <= j < s.len() ==> text_lt(entry_key(x), entry_key(#[trigger] s[j])),
        p == 0 || !text_lt(entry_key(x), entry_key(s[p - 1])),
    ensures
        insert_by_key(s, x) == s.take(p) + seq![x] + s.skip(p),
    decreases s.len(),
{
    if s.len() == 0 {
        assert(s.take(p) + seq![x] + s.skip(p) =~= seq![x]);
    } else if p == s.len() {
        assert(s.take(p) + seq![x] + s.skip(p) =~= s.push(x));
    } else {
        assert(text_lt(entry_key(x), entry_key(s[s.len() - 1])));
        let t = s.drop_last();
        assert forall|j: int| p <= j < t.len() implies text_lt(entry_key(x), entry_key(#[trigger] t[j])) by {
            assert(t[j] == s[j]);
        }
        if p > 0 {
            assert(t[p - 1] == s[p - 1]);
        }
        lemma_insert_at(t, x, p);
        assert((t.take(p) + seq![x] + t.skip(p)).push(s.last()) =~= s.take(p) + seq![x] + s.skip(p));
    }
}

/// The lowercased name of a row.
fn key_of(e: &PickerEntry) -> (r: Vec<char>)
    ensures
        r@ == entry_key(entry_view(*e)),
{
    chars_of(to_lower(e.name.as_str()).as_str())
}

/// Sorts rows by lowercased name, stably, see `sorted_by_key`.
fn sort_entries(v: Vec<PickerEntry>) -> (r: Vec<PickerEntry>)
    ensures
        entry_views(r@) == sorted_by_key(entry_views(v@)),
{
    let ghost orig = entry_views(v@);
    let mut v = v;
    let mut out: Vec<PickerEntry> = Vec::new();
    let ghost mut k: int = 0;
    while v.len() > 0
        invariant
            0 <= k,
            k + v@.len() == orig.len(),
            entry_views(v@) == orig.skip(k),
            entry_views(out@) == sorted_by_key(orig.take(k)),
        decreases v@.len(),
    {
        proof {
            assert(orig.take(k + 1).drop_last() =~= orig.take(k));
            assert(orig.take(k + 1).last() == orig[k]);
            assert(entry_views(v@)[0] == orig[k]);
        }
        let ghost vv = v@;
        let x = v.remove(0);
        proof {
            assert forall|i: int| 0 <= i < v@.len() implies entry_views(v@)[i] == orig.skip(k + 1)[i] by {
                assert(v@[i] == vv[i + 1]);
                assert(entry_views(vv)[i + 1] == orig.skip(k)[i + 1]);
            }
        }
        let xk = key_of(&x);
        let ghost ov = entry_views(out@);
        let mut p = out.len();
        while p > 0 && text_less(&xk, &key_of(&out[p - 1]))
            invariant
                p <= out.len(),
                xk@ == entry_key(entry_view(x)),
                ov == entry_views(out@),
                forall|j: int| p <= j < ov.len() ==> text_lt(entry_key(entry_view(x)), entry_key(#[trigger] ov[j])),
            decreases p,
        {
            p = p - 1;
        }
        proof {
            lemma_insert_at(ov, entry_view(x), p as int);
        }
        out.insert(p, x);
        proof {
            assert(entry_views(out@) =~= ov.take(p as int) + seq![entry_view(x)] + ov.skip(p as int));
            assert(entry_views(v@) =~= orig.skip(k + 1));
            k = k + 1;
        }
    }
    assert(orig.take(k) =~= orig);
    out
}


/// The parent row, when the path has a parent.
pub open spec fn parent_rows(path: Seq<char>) -> Seq<EntryView> {
    match path_parent(path) {
        Some(p) => seq![(".."@, p, true, true, "\u{2191}"@)],
        None => Seq::<EntryView>::empty(),
    }
}

/// A listed entry as a row.
pub open spec fn listed_view(e: ListedEntry) -> EntryView {
    (e.name@, e.path@, e.is_dir, false, icon_for(e.name@, e.is_dir, e.executable))
}

/// The listed directories (`dirs`) or files that pass the filter, in listing order.
pub open spec fn kept_rows(listing: Seq<ListedEntry>, filter: Seq<char>, dirs: bool) -> Seq<EntryView>
    decreases listing.len(),
{
    if listing.len() == 0 {
        Seq::<EntryView>::empty()
    } else {
        let r = kept_rows(listing.drop_last(), filter, dirs);
        let e = listing.last();
        if e.is_dir == dirs && filter_hit(e.name@, filter) { r.push(listed_view(e)) } else { r }
    }
}

/// The rows of the picker for a path and a listing of it (`None` when it could not be read):
/// the parent row, then the directories and then the files that pass the filter, each sorted by
/// lowercased name; and where the directories end (0 when nothing was listed).
pub open spec fn picker_rows(path: Seq<char>, listing: Option<Seq<ListedEntry>>, filter: Seq<char>) -> (Seq<EntryView>, nat) {
    match listing {
        Some(l) => {
            let d = parent_rows(path) + sorted_by_key(kept_rows(l, filter, true));
            (d + sorted_by_key(kept_rows(l, filter, false)), d.len())
        },
        None => (parent_rows(path), 0),
    }
}

/// Saturating subtraction.
pub open spec fn sat_sub(a: int, b: int) -> int {
    if a > b { a - b } else { 0 }
}

pub open spec fn imin(a: int, b: int) -> int {
    if a < b { a } else { b }
}

/// The last index of the directory list (0 when empty).
pub open spec fn dir_max(p: FilePicker) -> int {
    sat_sub(p.dirs_end as int, 1)
}

/// The last index of the file list (0 when empty).
pub open spec fn file_max(p: FilePicker) -> int {
    sat_sub(sat_sub(p.entries@.len() as int, p.dirs_end as int), 1)
}

fn dir_max_exec(p: &FilePicker) -> (r: usize)
    ensures
        r == dir_max(*p),
{
    p.dirs_end.saturating_sub(1)
}

fn file_max_exec(p: &FilePicker) -> (r: usize)
    ensures
        r == file_max(*p),
{
    p.entries.len().saturating_sub(p.dirs_end).saturating_sub(1)
}

/// An empty filter field, cursor at the start, no limit.
pub open spec fn fresh_input(s: ratatui_cheese::input::InputState) -> bool {
    input_text(s) == Seq::<char>::empty() && input_cursor(s) == 0 && input_limit(s) is None
}

/// The field `b` is `a` after an editing key.
pub open spec fn edited(a: ratatui_cheese::input::InputState, b: ratatui_cheese::input::InputState, key: KeyCode) -> bool {
    let e = key_edit(input_text(a), input_cursor(a), input_limit(a), key);
    &&& e is Some
    &&& input_text(b) == (e->0).0
    &&& input_cursor(b) == (e->0).1
    &&& input_limit(b) == input_limit(a)
}

impl FilePicker {
    /// A hidden file picker on `.`, nothing listed.
    pub fn new() -> (r: FilePicker)
        ensures
            !r.visible,
            r.mode == PickerMode::FilePicker,
            r.current_path@ == "."@,
            r.selected is None,
            r.entries@.len() == 0,
            r.dirs_end == 0 && r.dir_cursor == 0 && r.file_cursor == 0,
            r.dir_scroll == 0 && r.file_scroll == 0,
            r.focus == PickerFocus::Dirs,
            fresh_input(r.filter_input),
            !r.filter_focus,
    {
        FilePicker {
            visible: false,
            mode: PickerMode::FilePicker,
            current_path: string_from("."),
            selected: None,
            entries: Vec::new(),
            dirs_end: 0,
            dir_cursor: 0,
            file_cursor: 0,
            dir_scroll: 0,
            file_scroll: 0,
            focus: PickerFocus::Dirs,
            filter_input: input_new(),
            filter_focus: false,
        }
    }

    /// Shows the picker on `path` in the given mode, with nothing chosen, the cursors at the top
    /// and the filter empty; the listing of `path` is then loaded with `refresh_entries`.
    pub fn open(&mut self, path: String, mode: PickerMode)
        ensures
            fresh_input(final(self).filter_input),
            *final(self) == (FilePicker {
                visible: true,
                mode,
                current_path: path,
                selected: None,
                dir_cursor: 0,
                file_cursor: 0,
                dir_scroll: 0,
                file_scroll: 0,
                focus: PickerFocus::Dirs,
                filter_input: final(self).filter_input,
                filter_focus: false,
                ..*old(self)
            }),
    {
        self.visible = true;
        self.mode = mode;
        self.current_path = path;
        self.selected = None;
        self.dir_cursor = 0;
        self.file_cursor = 0;
        self.dir_scroll = 0;
        self.file_scroll = 0;
        self.focus = PickerFocus::Dirs;
        self.filter_input = input_new();
        self.filter_focus = false;
    }

    /// Rebuilds the rows from a listing of the current path (`None` when it could not be read),
    /// see `picker_rows`, and pulls each cursor back into its list.
    pub fn refresh_entries(&mut self, listing: Option<Vec<ListedEntry>>)
        ensures
            ({
                let (rows, dend) = picker_rows(
                    old(self).current_path@,
                    match listing {
                        Some(l) => Some(l@),
                        None => None,
                    },
                    input_text(old(self).filter_input),
                );
                &&& entry_views(final(self).entries@) == rows
                &&& final(self).dirs_end == dend
            }),
            final(self).dirs_end <= final(self).entries@.len(),
            final(self).dir_cursor == imin(old(self).dir_cursor as int, dir_max(*final(self))),
            final(self).file_cursor == imin(old(self).file_cursor as int, file_max(*final(self))),
            *final(self) == (FilePicker {
                entries: final(self).entries,
                dirs_end: final(self).dirs_end,
                dir_cursor: final(self).dir_cursor,
                file_cursor: final(self).file_cursor,
                ..*old(self)
            }),
    {
        let mut entries: Vec<PickerEntry> = Vec::new();
        match parent_of(self.current_path.as_str()) {
            Some(p) => {
                entries.push(
                    PickerEntry {
                        name: string_from(".."),
                        path: p,
                        is_dir: true,
                        is_parent: true,
                        icon: string_from("\u{2191}"),
                    },
                );
                assert(entry_views(entries@) =~= parent_rows(self.current_path@));
            },
            None => {
                assert(entry_views(entries@) =~= parent_rows(self.current_path@));
            },
        }
        let mut dirs_end: usize = 0;
        let filter = input_value(&self.filter_input);
        match listing {
            Some(l) => {
                let mut dirs: Vec<PickerEntry> = Vec::new();
                let mut files: Vec<PickerEntry> = Vec::new();
                let mut i: usize = 0;
                while i < l.len()
                    invariant
                        i <= l.len(),
                        filter@ == input_text(self.filter_input),
                        entry_views(dirs@) == kept_rows(l@.take(i as int), filter@, true),
                        entry_views(files@) == kept_rows(l@.take(i as int), filter@, false),
                    decreases l.len() - i,
                {
                    proof {
                        assert(l@.take(i as int + 1).drop_last() =~= l@.take(i as int));
                        assert(l@.take(i as int + 1).last() == l@[i as int]);
                    }
                    let e = &l[i];
                    if filter_hit_exec(e.name.as_str(), filter) {
                        let row = PickerEntry {
                            name: string_from(e.name.as_str()),
                            path: string_from(e.path.as_str()),
                            is_dir: e.is_dir,
                            is_parent: false,
                            icon: file_icon(e.name.as_str(), e.is_dir, e.executable),
                        };
                        if e.is_dir {
                            let ghost d = entry_views(dirs@);
                            dirs.push(row);
                            assert(entry_views(dirs@) =~= d.push(listed_view(l@[i as int])));
                        } else {
                            let ghost d = entry_views(files@);
                            files.push(row);
                            assert(entry_views(files@) =~= d.push(listed_view(l@[i as int])));
                        }
                    }
                    i = i + 1;
                }
                assert(l@.take(l.len() as int) =~= l@);
                let mut sd = sort_entries(dirs);
                let mut sf = sort_entries(files);
                let ghost e0 = entry_views(entries@);
                let ghost vd = entry_views(sd@);
                let ghost vf = entry_views(sf@);
                entries.append(&mut sd);
                assert(entry_views(entries@) =~= e0 + vd);
                dirs_end = entries.len();
                entries.append(&mut sf);
                assert(entry_views(entries@) =~= e0 + vd + vf);
            },
            None => {},
        }
        self.entries = entries;
        self.dirs_end = dirs_end;
        let n_dirs = if self.dirs_end > 1 { self.dirs_end - 1 } else { 0 };
        let n_files = self.entries.len().saturating_sub(self.dirs_end);
        if self.dir_cursor > n_dirs {
            self.dir_cursor = n_dirs;
        }
        let fmax = n_files.saturating_sub(1);
        if self.file_cursor > fmax {
            self.file_cursor = fmax;
        }
    }
}


/// The other list.
pub open spec fn toggled(f: PickerFocus) -> PickerFocus {
    match f {
        PickerFocus::Dirs => PickerFocus::Files,
        PickerFocus::Files => PickerFocus::Dirs,
    }
}

/// Index into the rows of the row under the focused cursor.
pub open spec fn chosen_index(p: FilePicker) -> int {
    match p.focus {
        PickerFocus::Dirs => p.dir_cursor as int,
        PickerFocus::Files => p.dirs_end + p.file_cursor,
    }
}

/// The row under the focused cursor, if there is one.
pub open spec fn chosen_entry(p: FilePicker) -> Option<PickerEntry> {
    let i = chosen_index(p);
    if 0 <= i < p.entries@.len() { Some(p.entries@[i]) } else { None }
}

/// Whether a row can be picked in a mode: never the parent row, and a directory only in `Any`.
pub open spec fn selectable(mode: PickerMode, e: PickerEntry) -> bool {
    if mode == PickerMode::Any { !e.is_parent } else { !e.is_parent && !e.is_dir }
}

/// The focused cursor moved by a navigation key: up and page up stop at the top, down and page
/// down at the last row of the list (ten rows a page); `None` for any other key.
pub open spec fn picker_nav(o: FilePicker, key: KeyCode) -> Option<FilePicker> {
    let step: int = if key is Up || key is Down { 1 } else { 10 };
    if key is Up || key is PageUp {
        Some(
            match o.focus {
                PickerFocus::Dirs => FilePicker { dir_cursor: sat_sub(o.dir_cursor as int, step) as usize, ..o },
                PickerFocus::Files => FilePicker { file_cursor: sat_sub(o.file_cursor as int, step) as usize, ..o },
            },
        )
    } else if key is Down || key is PageDown {
        Some(
            match o.focus {
                PickerFocus::Dirs => FilePicker { dir_cursor: imin(o.dir_cursor + step, dir_max(o)) as usize, ..o },
                PickerFocus::Files => FilePicker { file_cursor: imin(o.file_cursor + step, file_max(o)) as usize, ..o },
            },
        )
    } else {
        None
    }
}

/// A key while the filter has the focus: Esc, Tab, Shift+Tab and Enter leave the filter (Esc
/// also puts the focus on the directories); editing keys edit it; every change of the filter
/// text, and leaving it, asks for the rows to be listed again (`reload`).
pub open spec fn picker_filter_key(o: FilePicker, key: KeyCode, n: FilePicker, reload: bool) -> bool {
    if key == KeyCode::Esc {
        reload && n == (FilePicker { filter_focus: false, focus: PickerFocus::Dirs, ..o })
    } else if key == KeyCode::Tab || key == KeyCode::BackTab || key == KeyCode::Enter {
        reload && n == (FilePicker { filter_focus: false, ..o })
    } else if key is Char || key == KeyCode::Backspace || key == KeyCode::Delete {
        reload && edited(o.filter_input, n.filter_input, key) && n == (FilePicker { filter_input: n.filter_input, ..o })
    } else if key == KeyCode::Left || key == KeyCode::Right || key == KeyCode::Home || key == KeyCode::End {
        !reload && edited(o.filter_input, n.filter_input, key) && n == (FilePicker { filter_input: n.filter_input, ..o })
    } else {
        !reload && n == o
    }
}

/// A key on the lists: Esc hides the picker; Tab and Shift+Tab switch lists (Tab only when there
/// are files); navigation keys move the cursor (see `picker_nav`); Enter opens the directory
/// under the cursor (clearing the filter, cursors to the top, and asking for a new listing);
/// Space picks the current directory in a directory picker, else the row under the cursor when
/// it is selectable (see `selectable`), and hides the picker; `/` (without Control) focuses
/// an emptied filter.
pub open spec fn picker_main_key(o: FilePicker, ev: KeyEvent, n: FilePicker, reload: bool) -> bool {
    let key = ev.code;
    if key == KeyCode::Esc {
        !reload && n == (FilePicker { visible: false, ..o })
    } else if key == KeyCode::Tab {
        !reload && n == (if o.mode == PickerMode::FilePicker && o.entries@.len() > o.dirs_end {
            FilePicker { focus: toggled(o.focus), ..o }
        } else {
            o
        })
    } else if key == KeyCode::BackTab {
        !reload && n == (if o.mode == PickerMode::FilePicker { FilePicker { focus: toggled(o.focus), ..o } } else { o })
    } else if picker_nav(o, key) is Some {
        !reload && n == picker_nav(o, key)->0
    } else if key == KeyCode::Enter {
        match chosen_entry(o) {
            Some(e) => if e.is_parent || e.is_dir {
                &&& reload
                &&& n.current_path@ == e.path@
                &&& fresh_input(n.filter_input)
                &&& n == (FilePicker {
                    current_path: n.current_path,
                    filter_input: n.filter_input,
                    dir_cursor: 0,
                    file_cursor: 0,
                    ..o
                })
            } else {
                !reload && n == o
            },
            None => !reload && n == o,
        }
    } else if key == KeyCode::Char(' ') {
        &&& !reload
        &&& if o.mode == PickerMode::DirectoryPicker {
            &&& n.selected is Some && n.selected->0@ == o.current_path@
            &&& n == (FilePicker { selected: n.selected, visible: false, ..o })
        } else {
            match chosen_entry(o) {
                Some(e) => if selectable(o.mode, e) {
                    &&& n.selected is Some && n.selected->0@ == e.path@
                    &&& fresh_input(n.filter_input)
                    &&& n == (FilePicker { selected: n.selected, filter_input: n.filter_input, visible: false, ..o })
                } else {
                    n == o
                },
                None => n == o,
            }
        }
    } else if key == KeyCode::Char('/') && !ev.control {
        !reload && fresh_input(n.filter_input) && n == (FilePicker { filter_focus: true, filter_input: n.filter_input, ..o })
    } else {
        !reload && n == o
    }
}

impl FilePicker {
    fn chosen(&self) -> (r: Option<usize>)
        ensures
            r is Some <==> chosen_entry(*self) is Some,
            r is Some ==> r->0 < self.entries@.len() && r->0 as int == chosen_index(*self),
    {
        match self.focus {
            PickerFocus::Dirs => if self.dir_cursor < self.entries.len() { Some(self.dir_cursor) } else { None },
            PickerFocus::Files => if self.dirs_end < self.entries.len() && self.file_cursor < self.entries.len() - self.dirs_end {
                Some(self.dirs_end + self.file_cursor)
            } else {
                None
            },
        }
    }

    /// A key on the picker: nothing while it is hidden (the key is not used); while the filter
    /// has the focus see `picker_filter_key`, otherwise `picker_main_key`. Returns whether the
    /// key was used and whether the rows must be listed again (`refresh_entries`).
    pub fn handle_key(&mut self, key: KeyEvent) -> (r: (bool, bool))
        requires
            input_room(old(self).filter_input),
        ensures
            !old(self).visible ==> !r.0 && !r.1 && *final(self) == *old(self),
            old(self).visible && old(self).filter_focus ==> r.0 && picker_filter_key(*old(self), key.code, *final(self), r.1),
            old(self).visible && !old(self).filter_focus ==> r.0 && picker_main_key(*old(self), key, *final(self), r.1),
    {
        if !self.visible {
            return (false, false);
        }
        if self.filter_focus {
            let reload = match key.code {
                KeyCode::Esc => {
                    self.filter_focus = false;
                    self.focus = PickerFocus::Dirs;
                    true
                },
                KeyCode::Tab | KeyCode::BackTab | KeyCode::Enter => {
                    self.filter_focus = false;
                    true
                },
                KeyCode::Char(_) | KeyCode::Backspace | KeyCode::Delete => {
                    edit_input(key.code, &mut self.filter_input);
                    true
                },
                KeyCode::Left | KeyCode::Right | KeyCode::Home | KeyCode::End => {
                    edit_input(key.code, &mut self.filter_input);
                    false
                },
                _ => false,
            };
            return (true, reload);
        }
        let mut reload = false;
        match key.code {
            KeyCode::Esc => {
                self.visible = false;
            },
            KeyCode::Tab => {
                if self.mode == PickerMode::FilePicker && self.entries.len() > self.dirs_end {
                    self.focus = match self.focus {
                        PickerFocus::Dirs => PickerFocus::Files,
                        PickerFocus::Files => PickerFocus::Dirs,
                    };
                }
            },
            KeyCode::BackTab => {
                if self.mode == PickerMode::FilePicker {
                    self.focus = match self.focus {
                        PickerFocus::Files => PickerFocus::Dirs,
                        PickerFocus::Dirs => PickerFocus::Files,
                    };
                }
            },
            KeyCode::Up | KeyCode::PageUp => {
                let step: usize = if key.code == KeyCode::Up { 1 } else { 10 };
                match self.focus {
                    PickerFocus::Dirs => {
                        self.dir_cursor = self.dir_cursor.saturating_sub(step);
                    },
                    PickerFocus::Files => {
                        self.file_cursor = self.file_cursor.saturating_sub(step);
                    },
                }
            },
            KeyCode::Down | KeyCode::PageDown => {
                let step: usize = if key.code == KeyCode::Down { 1 } else { 10 };
                match self.focus {
                    PickerFocus::Dirs => {
                        let max = dir_max_exec(self);
                        let c = self.dir_cursor.saturating_add(step);
                        self.dir_cursor = if c < max { c } else { max };
                    },
                    PickerFocus::Files => {
                        let max = file_max_exec(self);
                        let c = self.file_cursor.saturating_add(step);
                        self.file_cursor = if c < max { c } else { max };
                    },
                }
            },
            KeyCode::Enter => {
                match self.chosen() {
                    Some(i) => {
                        if self.entries[i].is_parent || self.entries[i].is_dir {
                            self.current_path = string_from(self.entries[i].path.as_str());
                            self.filter_input = input_new();
                            self.dir_cursor = 0;
                            self.file_cursor = 0;
                            reload = true;
                        }
                    },
                    None => {},
                }
            },
            KeyCode::Char(' ') => {
                if self.mode == PickerMode::DirectoryPicker {
                    self.selected = Some(string_from(self.current_path.as_str()));
                    self.visible = false;
                } else {
                    match self.chosen() {
                        Some(i) => {
                            let e = &self.entries[i];
                            let ok = if self.mode == PickerMode::Any { !e.is_parent } else { !e.is_parent && !e.is_dir };
                            if ok {
                                self.selected = Some(string_from(self.entries[i].path.as_str()));
                                self.filter_input = input_new();
                                self.visible = false;
                            }
                        },
                        None => {},
                    }
                }
            },
            KeyCode::Char('/') => {
                if !key.control {
                    self.filter_focus = true;
                    self.filter_input = input_new();
                }
            },
            _ => {},
        }
        (true, reload)
    }
}

/// One character of a permission string: `c` when the bit is set, `-` otherwise.
pub open spec fn mode_char(mode: u32, bit: u32, c: char) -> char {
    if mode & bit != 0 { c } else { '-' }
}

/// The `ls -l` permission string of a Unix mode: directory flag, then read, write and execute
/// for owner, group and others.
pub open spec fn mode_string(mode: u32) -> Seq<char> {
    seq![
        mode_char(mode, 0o040000, 'd'),
        mode_char(mode, 0o00400, 'r'),
        mode_char(mode, 0o00200, 'w'),
        mode_char(mode, 0o00100, 'x'),
        mode_char(mode, 0o00040, 'r'),
        mode_char(mode, 0o00020, 'w'),
        mode_char(mode, 0o00010, 'x'),
        mode_char(mode, 0o00004, 'r'),
        mode_char(mode, 0o00002, 'w'),
        mode_char(mode, 0o00001, 'x'),
    ]
}

pub fn unix_mode_to_string(mode: u32) -> (r: String)
    ensures
        r@ == mode_string(mode),
{
    let mut v: Vec<char> = Vec::new();
    v.push(if mode & 0o040000 != 0 { 'd' } else { '-' });
    v.push(if mode & 0o00400 != 0 { 'r' } else { '-' });
    v.push(if mode & 0o00200 != 0 { 'w' } else { '-' });
    v.push(if mode & 0o00100 != 0 { 'x' } else { '-' });
    v.push(if mode & 0o00040 != 0 { 'r' } else { '-' });
    v.push(if mode & 0o00020 != 0 { 'w' } else { '-' });
    v.push(if mode & 0o00010 != 0 { 'x' } else { '-' });
    v.push(if mode & 0o00004 != 0 { 'r' } else { '-' });
    v.push(if mode & 0o00002 != 0 { 'w' } else { '-' });
    v.push(if mode & 0o00001 != 0 { 'x' } else { '-' });
    assert(v@ =~= mode_string(mode));
    string_of(&v)
}

/// A column count kept in 16 bits, wrapping.
pub open spec fn wrap16(n: int) -> u16 {
    (n % 65536) as u16
}

/// The leading characters of `s` whose running width (counted from `acc` in 16 bits, a
/// character without a width counting 0) stays within `max_w`.
pub open spec fn fit_width(s: Seq<char>, acc: u16, max_w: u16) -> Seq<char>
    decreases s.len(),
{
    if s.len() == 0 {
        s
    } else {
        let cw: int = match unicode_char_width(s[0]) {
            Some(w) => wrap16(w as int) as int,
            None => 0,
        };
        let w = wrap16(acc + cw);
        if w <= max_w { seq![s[0]] + fit_width(s.drop_first(), w, max_w) } else { Seq::<char>::empty() }
    }
}

/// The leading characters of `s` that fit in `max_w` columns, see `fit_width`.
pub fn truncate_to_width(s: &str, max_w: u16) -> (r: String)
    ensures
        r@ == fit_width(s@, 0, max_w),
{
    let v = chars_of(s);
    let mut out: Vec<char> = Vec::new();
    let mut w: u16 = 0;
    let mut i: usize = 0;
    assert(v@.skip(0) =~= v@);
    while i < v.len()
        invariant
            i <= v.len(),
            v@ == s@,
            out@ + fit_width(v@.skip(i as int), w, max_w) == fit_width(s@, 0, max_w),
        decreases v.len() - i,
    {
        let ghost rest = v@.skip(i as int);
        assert(rest[0] == v@[i as int]);
        assert(rest.drop_first() =~= v@.skip(i as int + 1));
        let cw: u16 = match char_width(v[i]) {
            Some(x) => (x % 65536) as u16,
            None => 0,
        };
        let nw: u16 = ((w as u32 + cw as u32) % 65536) as u16;
        if nw > max_w {
            assert(fit_width(rest, w, max_w) =~= Seq::<char>::empty());
            assert(out@ + Seq::<char>::empty() =~= out@);
            return string_of(&out);
        }
        let ghost o = out@;
        out.push(v[i]);
        assert(out@ + fit_width(v@.skip(i as int + 1), nw, max_w) =~= o + fit_width(rest, w, max_w));
        w = nw;
        i = i + 1;
    }
    assert(v@.skip(v.len() as int) =~= Seq::<char>::empty());
    assert(out@ + Seq::<char>::empty() =~= out@);
    string_of(&out)
}

} // verus!
