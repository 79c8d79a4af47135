use crate::chars::{
    append_chars, append_str, chars_of, chars_views, is_ws, is_ws_char, slice_chars, split_char, split_exec, string_from,
    string_of,
};
use crate::keys::{KeyCode, KeyEvent};
use crate::textinput::{edit_input, input_room, input_cursor, input_limit, input_new, input_set_focused, input_set_value, input_text, key_edit};
use crate::width::{str_width, unicode_str_width};
use vstd::prelude::*;

verus! {

/// The remote directory proposed for a new minion.
pub open spec fn default_path() -> Seq<char> {
    "~/sysinspect"@
}

/// Focus inside the registration form.
#[derive(Clone, Copy, PartialEq, Eq, Debug, Structural)]
pub enum FormFocus {
    Hostname,
    User,
    Path,
    SudoCheck,
    OkBtn,
    Cancel,
}

pub open spec fn form_next(f: FormFocus) -> FormFocus {
    match f {
        FormFocus::Hostname => FormFocus::User,
        FormFocus::User => FormFocus::Path,
        FormFocus::Path => FormFocus::SudoCheck,
        FormFocus::SudoCheck => FormFocus::OkBtn,
        FormFocus::OkBtn => FormFocus::Cancel,
        FormFocus::Cancel => FormFocus::Hostname,
    }
}

/// One step back; note that going back from Ok lands on the path field, not on the sudo box.
pub open spec fn form_prev(f: FormFocus) -> FormFocus {
    match f {
        FormFocus::Hostname => FormFocus::Cancel,
        FormFocus::User => FormFocus::Hostname,
        FormFocus::Path => FormFocus::User,
        FormFocus::SudoCheck => FormFocus::Path,
        FormFocus::OkBtn => FormFocus::Path,
        FormFocus::Cancel => FormFocus::OkBtn,
    }
}

impl FormFocus {
    pub fn next(self) -> (r: FormFocus)
        ensures
            r == form_next(self),
    {
        match self {
            FormFocus::Hostname => FormFocus::User,
            FormFocus::User => FormFocus::Path,
            FormFocus::Path => FormFocus::SudoCheck,
            FormFocus::SudoCheck => FormFocus::OkBtn,
            FormFocus::OkBtn => FormFocus::Cancel,
            FormFocus::Cancel => FormFocus::Hostname,
        }
    }

    pub fn prev(self) -> (r: FormFocus)
        ensures
            r == form_prev(self),
    {
        match self {
            FormFocus::Hostname => FormFocus::Cancel,
            FormFocus::User => FormFocus::Hostname,
            FormFocus::Path => FormFocus::User,
            FormFocus::SudoCheck => FormFocus::Path,
            FormFocus::OkBtn => FormFocus::Path,
            FormFocus::Cancel => FormFocus::OkBtn,
        }
    }
}

/// Law: Tab then Shift+Tab returns to the starting field, except from the sudo box (Shift+Tab
/// from Ok skips it); Shift+Tab then Tab returns, except from Ok.
pub proof fn law_form_focus_round_trip(f: FormFocus)
    ensures
        f != FormFocus::SudoCheck ==> form_prev(form_next(f)) == f,
        f != FormFocus::OkBtn ==> form_next(form_prev(f)) == f,
{
}

/// The pre-flight form shown before a minion is provisioned.
pub struct RegistrationForm {
    pub visible: bool,
    pub hostname: ratatui_cheese::input::InputState,
    pub user: ratatui_cheese::input::InputState,
    pub path: ratatui_cheese::input::InputState,
    pub use_sudo: bool,
    pub focus: FormFocus,
    pub ok_pressed: bool,
}

/// The text field that has the focus, if the focus is on one: 0 host, 1 user, 2 path.
pub open spec fn form_field(f: FormFocus) -> Option<int> {
    match f {
        FormFocus::Hostname => Some(0),
        FormFocus::User => Some(1),
        FormFocus::Path => Some(2),
        _ => None,
    }
}

/// Whether `after` is `before` edited by `key` (unchanged when the key does not edit).
pub open spec fn edited_by(
    before: ratatui_cheese::input::InputState,
    after: ratatui_cheese::input::InputState,
    key: KeyCode,
) -> bool {
    let e = key_edit(input_text(before), input_cursor(before), input_limit(before), key);
    if e is Some {
        (input_text(after), input_cursor(after)) == e->0
    } else {
        input_text(after) == input_text(before) && input_cursor(after) == input_cursor(before)
    }
}

pub open spec fn same_field(a: ratatui_cheese::input::InputState, b: ratatui_cheese::input::InputState) -> bool {
    input_text(a) == input_text(b) && input_cursor(a) == input_cursor(b)
}

/// Whether a key edits the text fields (the other keys have a meaning of their own in the form).
pub open spec fn form_edit_key(k: KeyCode) -> bool {
    match k {
        KeyCode::Backspace | KeyCode::Delete | KeyCode::Left | KeyCode::Right | KeyCode::Home | KeyCode::End => true,
        KeyCode::Char(c) => c != ' ',
        _ => false,
    }
}

impl RegistrationForm {
    /// A hidden form: empty host (focused), the given login name, the default path, no sudo.
    pub fn new(current_user: Option<String>) -> (r: RegistrationForm)
        ensures
            !r.visible,
            input_text(r.hostname).len() == 0,
            input_text(r.user) == match current_user {
                Some(u) => u@,
                None => Seq::<char>::empty(),
            },
            input_text(r.path) == default_path(),
            !r.use_sudo,
            r.focus == FormFocus::Hostname,
            !r.ok_pressed,
    {
        let mut hostname = input_new();
        input_set_focused(&mut hostname, true);
        let mut user = input_new();
        match current_user {
            Some(u) => input_set_value(&mut user, u),
            None => {},
        }
        let mut path = input_new();
        input_set_value(&mut path, string_from("~/sysinspect"));
        RegistrationForm { visible: false, hostname, user, path, use_sudo: false, focus: FormFocus::Hostname, ok_pressed: false }
    }

    /// A key on the form: Tab and Shift+Tab move the focus; Esc hides the form; Space toggles
    /// sudo on the sudo box; Enter presses Ok, closes on Cancel, toggles sudo on the sudo box;
    /// editing keys edit the focused field. A hidden form uses no key.
    pub fn handle_key(&mut self, key: KeyEvent) -> (used: bool)
        requires
            input_room(old(self).hostname),
            input_room(old(self).user),
            input_room(old(self).path),
        ensures
            used == old(self).visible,
            !old(self).visible ==> *final(self) == *old(self),
            old(self).visible ==> {
                let k = key.code;
                let f = old(self).focus;
                &&& final(self).focus == if k == KeyCode::Tab {
                    if key.shift { form_prev(f) } else { form_next(f) }
                } else if k == KeyCode::BackTab {
                    form_prev(f)
                } else {
                    f
                }
                &&& final(self).visible == !(k == KeyCode::Esc || (k == KeyCode::Enter && f == FormFocus::Cancel))
                &&& final(self).use_sudo == (old(self).use_sudo != (f == FormFocus::SudoCheck && (k == KeyCode::Char(' ')
                    || k == KeyCode::Enter)))
                &&& final(self).ok_pressed == (old(self).ok_pressed || (k == KeyCode::Enter && f == FormFocus::OkBtn))
                &&& if form_edit_key(k) && form_field(f) == Some(0int) { edited_by(old(self).hostname, final(self).hostname, k) } else { same_field(old(self).hostname, final(self).hostname) }
                &&& if form_edit_key(k) && form_field(f) == Some(1int) { edited_by(old(self).user, final(self).user, k) } else { same_field(old(self).user, final(self).user) }
                &&& if form_edit_key(k) && form_field(f) == Some(2int) { edited_by(old(self).path, final(self).path, k) } else { same_field(old(self).path, final(self).path) }
            },
    {
        if !self.visible {
            return false;
        }
        match key.code {
            KeyCode::Tab => {
                self.focus = if key.shift { self.focus.prev() } else { self.focus.next() };
            },
            KeyCode::BackTab => {
                self.focus = self.focus.prev();
            },
            KeyCode::Esc => {
                self.visible = false;
            },
            KeyCode::Char(' ') => {
                if self.focus == FormFocus::SudoCheck {
                    self.use_sudo = !self.use_sudo;
                }
            },
            KeyCode::Enter => match self.focus {
                FormFocus::OkBtn => {
                    self.ok_pressed = true;
                },
                FormFocus::Cancel => {
                    self.visible = false;
                },
                FormFocus::SudoCheck => {
                    self.use_sudo = !self.use_sudo;
                },
                _ => {},
            },
            _ => {
                match self.focus {
                    FormFocus::Hostname => {
                        edit_input(key.code, &mut self.hostname);
                    },
                    FormFocus::User => {
                        edit_input(key.code, &mut self.user);
                    },
                    FormFocus::Path => {
                        edit_input(key.code, &mut self.path);
                    },
                    _ => {},
                }
            },
        }
        true
    }
}

/// Number of steps of a provisioning run, as its progress bar counts them.
pub const STEP_COUNT: usize = 15;

/// The label of each provisioning step, in order.
pub open spec fn step_label_spec(i: nat) -> Seq<char> {
    if i == 0 {
        "Probing platform..."@
    } else if i == 1 {
        "Selecting sysminion artefact..."@
    } else if i == 2 {
        "Uploading binary..."@
    } else if i == 3 {
        "Setting permissions..."@
    } else if i == 4 {
        "Verifying binary..."@
    } else if i == 5 {
        "Running setup..."@
    } else if i == 6 {
        "Reading minion ID..."@
    } else if i == 7 {
        "Preparing runtime..."@
    } else if i == 8 {
        "Writing onboarding traits..."@
    } else if i == 9 {
        "Registering with master..."@
    } else if i == 10 {
        "Starting daemon..."@
    } else if i == 11 {
        "Waiting for runtime..."@
    } else if i == 12 {
        "Waiting for bootstrap..."@
    } else if i == 13 {
        "Waiting for readiness..."@
    } else {
        "Syncing CMDB..."@
    }
}

/// The label shown for each provisioning step, see `step_label_spec`.
pub fn step_label(i: usize) -> (r: &'static str)
    requires
        i < STEP_COUNT,
    ensures
        r@ == step_label_spec(i as nat),
{
    if i == 0 {
        "Probing platform..."
    } else if i == 1 {
        "Selecting sysminion artefact..."
    } else if i == 2 {
        "Uploading binary..."
    } else if i == 3 {
        "Setting permissions..."
    } else if i == 4 {
        "Verifying binary..."
    } else if i == 5 {
        "Running setup..."
    } else if i == 6 {
        "Reading minion ID..."
    } else if i == 7 {
        "Preparing runtime..."
    } else if i == 8 {
        "Writing onboarding traits..."
    } else if i == 9 {
        "Registering with master..."
    } else if i == 10 {
        "Starting daemon..."
    } else if i == 11 {
        "Waiting for runtime..."
    } else if i == 12 {
        "Waiting for bootstrap..."
    } else if i == 13 {
        "Waiting for readiness..."
    } else {
        "Syncing CMDB..."
    }
}

/// Progress of a provisioning run, shared between the interface and the task doing the work.
pub struct RegistrationProgress {
    pub visible: bool,
    pub step: usize,
    pub total: usize,
    pub message: String,
    pub host: String,
    pub platform: String,
    pub minion_id: Option<String>,
    pub done: bool,
    pub error: Option<String>,
    pub error_scroll: usize,
    pub cancelled: bool,
}

impl RegistrationProgress {
    /// Progress of a run that starts now for `host`.
    pub fn new(host: String) -> (r: RegistrationProgress)
        ensures
            r.visible,
            r.step == 0,
            r.total == STEP_COUNT,
            r.message@ == "Connecting..."@,
            r.host == host,
            r.platform@.len() == 0,
            r.minion_id is None,
            !r.done,
            r.error is None,
            r.error_scroll == 0,
            !r.cancelled,
    {
        RegistrationProgress {
            visible: true,
            step: 0,
            total: STEP_COUNT,
            message: string_from("Connecting..."),
            host,
            platform: String::new(),
            minion_id: None,
            done: false,
            error: None,
            error_scroll: 0,
            cancelled: false,
        }
    }

    /// Progress when no run is going on.
    pub fn placeholder() -> (r: RegistrationProgress)
        ensures
            !r.visible,
            r.step == 0,
            r.total == STEP_COUNT,
            r.message@.len() == 0,
            r.host@.len() == 0,
            r.platform@.len() == 0,
            r.minion_id is None,
            !r.done,
            r.error is None,
            r.error_scroll == 0,
            !r.cancelled,
    {
        RegistrationProgress {
            visible: false,
            step: 0,
            total: STEP_COUNT,
            message: String::new(),
            host: String::new(),
            platform: String::new(),
            minion_id: None,
            done: false,
            error: None,
            error_scroll: 0,
            cancelled: false,
        }
    }

    /// Records how the run ended: the minion id and "Complete", or the error; the run is done.
    pub fn finish(&mut self, result: Result<Option<String>, String>)
        ensures
            final(self).done,
            match result {
                Ok(mid) => final(self).minion_id == mid && final(self).message@ == "Complete"@ && final(self).error == old(self).error,
                Err(e) => final(self).error == Some(e) && final(self).minion_id == old(self).minion_id && final(self).message
                    == old(self).message,
            },
            final(self).visible == old(self).visible,
            final(self).step == old(self).step,
            final(self).total == old(self).total,
            final(self).host == old(self).host,
            final(self).cancelled == old(self).cancelled,
    {
        match result {
            Ok(mid) => {
                self.minion_id = mid;
                self.message = string_from("Complete");
            },
            Err(err) => {
                self.error = Some(err);
            },
        }
        self.done = true;
    }
}

/// A key on the progress popup. When hidden or finished: Esc, Enter and Space close it
/// (`true`). When the run failed: cursor and page keys scroll the error (by 1 and 5), Esc,
/// Enter and Space close it. While running: Esc asks the run to stop and closes it.
pub fn handle_progress_key(key: KeyCode, progress: &mut RegistrationProgress) -> (close: bool)
    requires
        old(progress).visible && !old(progress).done && old(progress).error is Some ==> {
            &&& key == KeyCode::Down ==> old(progress).error_scroll + 1 <= usize::MAX
            &&& key == KeyCode::PageDown ==> old(progress).error_scroll + 5 <= usize::MAX
        },
    ensures
        ({
            let p = *old(progress);
            let closing = key == KeyCode::Esc || key == KeyCode::Enter || key == KeyCode::Char(' ');
            if !p.visible || p.done {
                close == closing && *final(progress) == p
            } else if p.error is Some {
                &&& close == closing
                &&& *final(progress) == RegistrationProgress {
                    error_scroll: match key {
                        KeyCode::Up => if p.error_scroll > 0 { (p.error_scroll - 1) as usize } else { 0 },
                        KeyCode::Down => (p.error_scroll + 1) as usize,
                        KeyCode::PageUp => if p.error_scroll > 5 { (p.error_scroll - 5) as usize } else { 0 },
                        KeyCode::PageDown => (p.error_scroll + 5) as usize,
                        _ => p.error_scroll,
                    },
                    ..p
                }
            } else {
                &&& close == (key == KeyCode::Esc)
                &&& *final(progress) == RegistrationProgress { cancelled: p.cancelled || key == KeyCode::Esc, ..p }
            }
        }),
        final(progress).visible == old(progress).visible,
        final(progress).done == old(progress).done,
        final(progress).error == old(progress).error,
        final(progress).step == old(progress).step,
{
    let closing = key == KeyCode::Esc || key == KeyCode::Enter || key == KeyCode::Char(' ');
    if !progress.visible || progress.done {
        return closing;
    }
    if progress.error.is_some() {
        match key {
            KeyCode::Up => {
                progress.error_scroll = if progress.error_scroll > 0 { progress.error_scroll - 1 } else { 0 };
                return false;
            },
            KeyCode::Down => {
                progress.error_scroll = progress.error_scroll + 1;
                return false;
            },
            KeyCode::PageUp => {
                progress.error_scroll = if progress.error_scroll > 5 { progress.error_scroll - 5 } else { 0 };
                return false;
            },
            KeyCode::PageDown => {
                progress.error_scroll = progress.error_scroll + 5;
                return false;
            },
            _ => {},
        }
        return closing;
    }
    if key == KeyCode::Esc {
        progress.cancelled = true;
        return true;
    }
    false
}

/// `user@host:path`, the target shown while provisioning.
pub open spec fn host_display_spec(user: Seq<char>, hostname: Seq<char>, path: Seq<char>) -> Seq<char> {
    user + seq!['@'] + hostname + seq![':'] + path
}

/// The host entry handed to the parser: `user@host`, with `:path` added unless the path is the default one.
pub open spec fn host_entry_spec(user: Seq<char>, hostname: Seq<char>, path: Seq<char>) -> Seq<char> {
    if path == default_path() {
        user + seq!['@'] + hostname
    } else {
        host_display_spec(user, hostname, path)
    }
}

pub fn host_display(user: &str, hostname: &str, path: &str) -> (r: String)
    ensures
        r@ == host_display_spec(user@, hostname@, path@),
{
    let mut v = chars_of(user);
    v.push('@');
    append_str(&mut v, hostname);
    v.push(':');
    append_str(&mut v, path);
    assert(v@ =~= host_display_spec(user@, hostname@, path@));
    string_of(&v)
}

pub fn host_entry(user: &str, hostname: &str, path: &str) -> (r: String)
    ensures
        r@ == host_entry_spec(user@, hostname@, path@),
{
    let p = chars_of(path);
    let d = chars_of("~/sysinspect");
    if crate::chars::chars_eq(&p, &d) {
        let mut v = chars_of(user);
        v.push('@');
        append_str(&mut v, hostname);
        assert(v@ =~= user@ + seq!['@'] + hostname@);
        string_of(&v)
    } else {
        host_display(user, hostname, path)
    }
}


/// A line without its trailing carriage return, if it has one.
pub open spec fn strip_cr(p: Seq<char>) -> Seq<char> {
    if p.len() > 0 && p.last() == '\r' { p.drop_last() } else { p }
}

/// The lines of a text as `str::lines` gives them: split at `\n`, a `\r` before the `\n`
/// dropped, no line after a final line break.
pub open spec fn all_strip_cr(ps: Seq<Seq<char>>) -> Seq<Seq<char>>
    decreases ps.len(),
{
    if ps.len() == 0 {
        ps
    } else {
        all_strip_cr(ps.drop_last()).push(strip_cr(ps.last()))
    }
}

pub open spec fn all_plus_space(ps: Seq<Seq<char>>) -> Seq<Seq<char>>
    decreases ps.len(),
{
    if ps.len() == 0 {
        ps
    } else {
        all_plus_space(ps.drop_last()).push(ps.last().push(' '))
    }
}

pub open spec fn text_lines(s: Seq<char>) -> Seq<Seq<char>> {
    let parts = split_char(s, '\n');
    let body = all_strip_cr(parts.take(parts.len() - 1));
    if parts.last().len() == 0 { body } else { body.push(parts.last()) }
}

/// The pieces of a line as `split_inclusive(' ')` gives them: each piece keeps the space that
/// ends it; no empty last piece.
pub open spec fn space_pieces(line: Seq<char>) -> Seq<Seq<char>> {
    let parts = split_char(line, ' ');
    let body = all_plus_space(parts.take(parts.len() - 1));
    if parts.last().len() == 0 { body } else { body.push(parts.last()) }
}

/// Number of white-space characters at the end of `s`.
pub open spec fn trail_len(s: Seq<char>) -> nat
    decreases s.len(),
{
    if s.len() > 0 && is_ws(s.last()) { 1 + trail_len(s.drop_last()) } else { 0 }
}

/// `s` without trailing white space (what `str::trim_end` gives).
pub open spec fn trim_end(s: Seq<char>) -> Seq<char> {
    s.take(s.len() - trail_len(s))
}

/// `s` without leading and trailing white space (what `str::trim` gives).
pub open spec fn trim(s: Seq<char>) -> Seq<char> {
    trim_end(s.skip(crate::alert::lead_len(s) as int))
}

/// A column count as the form keeps it: 16 bits, wrapping.
pub open spec fn w16(n: nat) -> u16 {
    (n % 65536) as u16
}

/// One piece of greedy wrapping by display width: a piece that makes the line wider than
/// `max` closes a non-empty line (without its trailing white space) and starts the next.
pub open spec fn wrap_w_step(st: (Seq<Seq<char>>, Seq<char>, u16), piece: Seq<char>, max: u16) -> (Seq<Seq<char>>, Seq<char>, u16) {
    let w = w16(unicode_str_width(piece) as nat);
    let sum = w16((st.2 + w) as nat);
    if sum > max && st.2 > 0 {
        (st.0.push(trim_end(st.1)), piece, w)
    } else {
        (st.0, st.1 + piece, sum)
    }
}

pub open spec fn wrap_w_pieces(ps: Seq<Seq<char>>, max: u16) -> (Seq<Seq<char>>, Seq<char>, u16)
    decreases ps.len(),
{
    if ps.len() == 0 {
        (Seq::<Seq<char>>::empty(), Seq::<char>::empty(), 0u16)
    } else {
        wrap_w_step(wrap_w_pieces(ps.drop_last(), max), ps.last(), max)
    }
}

/// The wrapped lines of one line of text: an empty line stays one empty line.
pub open spec fn wrap_w_line(line: Seq<char>, max: u16) -> Seq<Seq<char>> {
    if line.len() == 0 {
        seq![Seq::<char>::empty()]
    } else {
        let st = wrap_w_pieces(space_pieces(line), max);
        if st.1.len() > 0 { st.0.push(trim_end(st.1)) } else { st.0 }
    }
}

pub open spec fn wrap_w_lines(ls: Seq<Seq<char>>, max: u16) -> Seq<Seq<char>>
    decreases ls.len(),
{
    if ls.len() == 0 {
        Seq::<Seq<char>>::empty()
    } else {
        wrap_w_lines(ls.drop_last(), max) + wrap_w_line(ls.last(), max)
    }
}

fn trim_end_exec(v: &Vec<char>) -> (r: Vec<char>)
    ensures
        r@ == trim_end(v@),
{
    let mut n = v.len();
    assert(v@.take(n as int) == v@);
    while n > 0 && is_ws_char(v[n - 1])
        invariant
            n <= v.len(),
            trail_len(v@) == trail_len(v@.take(n as int)) + (v.len() - n),
        decreases n,
    {
        proof {
            assert(v@.take(n as int).drop_last() == v@.take(n - 1));
        }
        n = n - 1;
    }
    proof {
        if n > 0 {
            assert(v@.take(n as int).last() == v@[n - 1]);
        }
        assert(trail_len(v@.take(n as int)) == 0);
    }
    slice_chars(v, 0, n)
}

/// `v` without leading and trailing white space, see `trim`.
pub fn trim_exec(v: &Vec<char>) -> (r: Vec<char>)
    ensures
        r@ == trim(v@),
{
    let l = crate::alert::lead_len_exec(v);
    let rest = slice_chars(v, l, v.len());
    assert(rest@ == v@.skip(l as int));
    trim_end_exec(&rest)
}

fn space_pieces_exec(line: &Vec<char>) -> (r: Vec<Vec<char>>)
    ensures
        chars_views(r@) == space_pieces(line@),
{
    let parts = split_exec(line, ' ');
    let ghost pv = chars_views(parts@);
    let mut out: Vec<Vec<char>> = Vec::new();
    let mut i: usize = 0;
    while i + 1 < parts.len()
        invariant
            i + 1 <= parts.len(),
            pv == chars_views(parts@),
            pv == split_char(line@, ' '),
            chars_views(out@) == all_plus_space(pv.take(i as int)),
        decreases parts.len() - i,
    {
        let ghost ov = chars_views(out@);
        let mut p = slice_chars(&parts[i], 0, parts[i].len());
        assert(p@ =~= parts@[i as int]@);
        p.push(' ');
        let ghost pp = p@;
        out.push(p);
        proof {
            assert(chars_views(out@) =~= ov.push(pp));
            assert(pv[i as int] == parts@[i as int]@);
            assert(pv.take(i as int + 1).drop_last() =~= pv.take(i as int));
            assert(pv.take(i as int + 1).last() == pv[i as int]);
            assert(all_plus_space(pv.take(i as int + 1)) == all_plus_space(pv.take(i as int)).push(pv[i as int].push(' ')));
        }
        i = i + 1;
    }
    let last_i = parts.len() - 1;
    assert(pv.last() == parts@[last_i as int]@);
    assert(pv.take(pv.len() - 1) == pv.take(i as int));
    if parts[last_i].len() > 0 {
        let ghost ov = chars_views(out@);
        let p = slice_chars(&parts[last_i], 0, parts[last_i].len());
        assert(p@ =~= parts@[last_i as int]@);
        let ghost pp = p@;
        out.push(p);
        assert(chars_views(out@) =~= ov.push(pp));
    }
    out
}

fn wrap_w_line_exec(line: &Vec<char>, max: u16) -> (r: Vec<String>)
    ensures
        r.deep_view() == wrap_w_line(line@, max),
{
    let mut lines: Vec<String> = Vec::new();
    if line.len() == 0 {
        lines.push(String::new());
        assert(lines.deep_view() =~= seq![Seq::<char>::empty()]);
        return lines;
    }
    let ps = space_pieces_exec(line);
    let mut cur: Vec<char> = Vec::new();
    let mut cw: u16 = 0;
    let mut k: usize = 0;
    while k < ps.len()
        invariant
            k <= ps.len(),
            chars_views(ps@) == space_pieces(line@),
            (lines.deep_view(), cur@, cw) == wrap_w_pieces(chars_views(ps@).take(k as int), max),
        decreases ps.len() - k,
    {
        let ghost pv = chars_views(ps@);
        proof {
            assert(pv.take(k as int + 1).drop_last() == pv.take(k as int));
            assert(pv.take(k as int + 1).last() == ps@[k as int]@);
        }
        let piece_s = string_of(&ps[k]);
        let w: u16 = (str_width(piece_s.as_str()) % 65536) as u16;
        let sum: u16 = ((cw as u32 + w as u32) % 65536) as u16;
        if sum > max && cw > 0 {
            let t = trim_end_exec(&cur);
            let ghost ld = lines.deep_view();
            lines.push(string_of(&t));
            assert(lines.deep_view() =~= ld.push(t@));
            cur = slice_chars(&ps[k], 0, ps[k].len());
            cw = w;
        } else {
            append_chars(&mut cur, &ps[k]);
            cw = sum;
        }
        k = k + 1;
    }
    proof {
        assert(chars_views(ps@).take(ps.len() as int) == chars_views(ps@));
    }
    if cur.len() > 0 {
        let t = trim_end_exec(&cur);
        let ghost ld = lines.deep_view();
        lines.push(string_of(&t));
        assert(lines.deep_view() =~= ld.push(t@));
    }
    lines
}

/// Word-wraps a message to `max_w` display columns, line by line; pieces are cut after
/// spaces and measured with `unicode-width` (column counts kept in 16 bits, wrapping).
pub fn wrap_text(text: &str, max_w: u16) -> (r: Vec<String>)
    ensures
        r.deep_view() == wrap_w_lines(text_lines(text@), max_w),
{
    let t = chars_of(text);
    let parts = split_exec(&t, '\n');
    let ghost pv = chars_views(parts@);
    let mut out: Vec<String> = Vec::new();
    let mut i: usize = 0;
    while i + 1 < parts.len()
        invariant
            i + 1 <= parts.len(),
            pv == chars_views(parts@),
            pv == split_char(t@, '\n'),
            out.deep_view() == wrap_w_lines(all_strip_cr(pv.take(i as int)), max_w),
        decreases parts.len() - i,
    {
        let p = &parts[i];
        let line = if p.len() > 0 && p[p.len() - 1] == '\r' { slice_chars(p, 0, p.len() - 1) } else { slice_chars(p, 0, p.len()) };
        let ls = wrap_w_line_exec(&line, max_w);
        crate::alert::append_strings(&mut out, ls);
        proof {
            assert(pv[i as int] == parts@[i as int]@);
            if p@.len() > 0 && p@.last() == '\r' {
                assert(p@.take(p.len() - 1) == p@.drop_last());
            } else {
                assert(p@.subrange(0, p.len() as int) == p@);
            }
            assert(pv.take(i as int + 1).drop_last() =~= pv.take(i as int));
            let m = all_strip_cr(pv.take(i as int + 1));
            assert(m.drop_last() =~= all_strip_cr(pv.take(i as int)));
        }
        i = i + 1;
    }
    let last_i = parts.len() - 1;
    proof {
        assert(pv.last() == parts@[last_i as int]@);
        assert(pv.take(pv.len() - 1) == pv.take(i as int));
    }
    if parts[last_i].len() > 0 {
        let line = slice_chars(&parts[last_i], 0, parts[last_i].len());
        assert(line@ =~= parts@[last_i as int]@);
        let ls = wrap_w_line_exec(&line, max_w);
        crate::alert::append_strings(&mut out, ls);
        proof {
            let b = all_strip_cr(pv.take(i as int));
            assert(b.push(pv.last()).drop_last() =~= b);
            assert(b.push(pv.last()).last() == pv.last());
            assert(wrap_w_lines(b.push(pv.last()), max_w) == wrap_w_lines(b, max_w) + wrap_w_line(pv.last(), max_w));
        }
    }
    out
}

/// Characters of `s` that fit in `lim` columns counted from `cur` (each measured as a
/// one-character text); the first that does not fit is replaced by an ellipsis and ends it.
pub open spec fn fit_prefix(s: Seq<char>, cur: nat, lim: nat) -> Seq<char>
    decreases s.len(),
{
    if s.len() == 0 {
        Seq::<char>::empty()
    } else {
        let cw = unicode_str_width(seq![s[0]]) as nat;
        if cur + cw > lim {
            seq!['…']
        } else {
            seq![s[0]] + fit_prefix(s.drop_first(), cur + cw, lim)
        }
    }
}

/// `s` when it is at most `max_w` columns wide; otherwise its leading characters that fit in
/// `max_w - 1` columns followed by an ellipsis.
pub open spec fn truncate_w(s: Seq<char>, max_w: nat) -> Seq<char> {
    if unicode_str_width(s) <= max_w {
        s
    } else {
        fit_prefix(s, 0, if max_w > 0 { (max_w - 1) as nat } else { 0 })
    }
}

/// Truncates a text to `max_w` display columns, see `truncate_w`.
pub fn truncate_str(s: &str, max_w: usize) -> (r: String)
    ensures
        r@ == truncate_w(s@, max_w as nat),
{
    if str_width(s) <= max_w {
        return string_of(&chars_of(s));
    }
    let v = chars_of(s);
    let lim: usize = if max_w > 0 { max_w - 1 } else { 0 };
    let mut out: Vec<char> = Vec::new();
    let mut cur: usize = 0;
    let mut i: usize = 0;
    assert(v@.skip(0) == v@);
    while i < v.len()
        invariant
            i <= v.len(),
            cur <= lim,
            v@ == s@,
            unicode_str_width(s@) > max_w,
            lim == if max_w > 0 { max_w - 1 } else { 0 },
            out@ + fit_prefix(v@.skip(i as int), cur as nat, lim as nat) == fit_prefix(v@, 0, lim as nat),
        decreases v.len() - i,
    {
        let ghost rest = v@.skip(i as int);
        let mut one: Vec<char> = Vec::new();
        one.push(v[i]);
        let cw = str_width(string_of(&one).as_str());
        proof {
            assert(rest[0] == v@[i as int]);
            assert(one@ =~= seq![rest[0]]);
            assert(rest.drop_first() =~= v@.skip(i as int + 1));
        }
        if cur as u128 + cw as u128 > lim as u128 {
            let ghost out0 = out@;
            out.push('…');
            proof {
                assert(fit_prefix(rest, cur as nat, lim as nat) == seq!['…']);
                assert(out@ =~= out0 + seq!['…']);
                assert(out@ == fit_prefix(v@, 0, lim as nat));
                assert(unicode_str_width(s@) > max_w);
                assert(out@ == truncate_w(s@, max_w as nat));
            }
            return string_of(&out);
        }
        let ghost out0 = out@;
        out.push(v[i]);
        proof {
            assert(fit_prefix(rest, cur as nat, lim as nat) == seq![rest[0]] + fit_prefix(rest.drop_first(), (cur + cw) as nat, lim as nat));
            assert(out@ + fit_prefix(v@.skip(i as int + 1), (cur + cw) as nat, lim as nat) =~= out0 + fit_prefix(rest, cur as nat, lim as nat));
        }
        cur = cur + cw;
        i = i + 1;
    }
    proof {
        assert(v@.skip(v.len() as int) =~= Seq::<char>::empty());
        assert(out@ + Seq::<char>::empty() =~= out@);
    }
    string_of(&out)
}

} // verus!

