use crate::chars::{filter_hit, filter_hit_exec};
use crate::keys::KeyCode;
use crate::listnav::{list_move, list_move_exec};
use crate::textinput::{edit_input, input_room, input_cursor, input_limit, input_new, input_text, key_edit};
use vstd::prelude::*;

verus! {

/// Focus inside the profile detail overlay.
#[derive(Clone, Copy, Debug, PartialEq, Eq, Structural)]
pub enum ProfDetailFocus {
    Modules,
    Libraries,
    AddModuleBtn,
    AddLibraryBtn,
    CloseBtn,
}

/// The focus order, one step forward (wrapping), before any stop is skipped.
pub open spec fn detail_succ(f: ProfDetailFocus) -> ProfDetailFocus {
    match f {
        ProfDetailFocus::Modules => ProfDetailFocus::Libraries,
        ProfDetailFocus::Libraries => ProfDetailFocus::AddModuleBtn,
        ProfDetailFocus::AddModuleBtn => ProfDetailFocus::AddLibraryBtn,
        ProfDetailFocus::AddLibraryBtn => ProfDetailFocus::CloseBtn,
        ProfDetailFocus::CloseBtn => ProfDetailFocus::Modules,
    }
}

/// The focus order, one step back (wrapping), before any stop is skipped.
pub open spec fn detail_pred(f: ProfDetailFocus) -> ProfDetailFocus {
    match f {
        ProfDetailFocus::Modules => ProfDetailFocus::CloseBtn,
        ProfDetailFocus::Libraries => ProfDetailFocus::Modules,
        ProfDetailFocus::AddModuleBtn => ProfDetailFocus::Libraries,
        ProfDetailFocus::AddLibraryBtn => ProfDetailFocus::AddModuleBtn,
        ProfDetailFocus::CloseBtn => ProfDetailFocus::AddLibraryBtn,
    }
}

/// A stop the focus may rest on: the module list only when there are modules, the library
/// list only when there are libraries; the buttons always.
pub open spec fn detail_stop(f: ProfDetailFocus, has_modules: bool, has_libraries: bool) -> bool {
    match f {
        ProfDetailFocus::Modules => has_modules,
        ProfDetailFocus::Libraries => has_libraries,
        _ => true,
    }
}

/// The next stop after `f`.
pub open spec fn detail_next(f: ProfDetailFocus, hm: bool, hl: bool) -> ProfDetailFocus {
    let a = detail_succ(f);
    if detail_stop(a, hm, hl) {
        a
    } else {
        let b = detail_succ(a);
        if detail_stop(b, hm, hl) { b } else { detail_succ(b) }
    }
}

/// The stop before `f`.
pub open spec fn detail_prev(f: ProfDetailFocus, hm: bool, hl: bool) -> ProfDetailFocus {
    let a = detail_pred(f);
    if detail_stop(a, hm, hl) {
        a
    } else {
        let b = detail_pred(a);
        if detail_stop(b, hm, hl) { b } else { detail_pred(b) }
    }
}

impl ProfDetailFocus {
    /// The next focus stop, skipping the lists that are empty.
    pub fn next(self, has_modules: bool, has_libraries: bool) -> (r: ProfDetailFocus)
        ensures
            r == detail_next(self, has_modules, has_libraries),
            detail_stop(r, has_modules, has_libraries),
    {
        let mut cur = self;
        let mut steps: usize = 0;
        loop
            invariant
                steps <= 2,
                steps == 0 ==> cur == self,
                steps == 1 ==> cur == detail_succ(self) && !detail_stop(cur, has_modules, has_libraries),
                steps == 2 ==> cur == detail_succ(detail_succ(self)) && !detail_stop(cur, has_modules, has_libraries)
                    && !detail_stop(detail_succ(self), has_modules, has_libraries),
            decreases 3 - steps,
        {
            cur = match cur {
                ProfDetailFocus::Modules => ProfDetailFocus::Libraries,
                ProfDetailFocus::Libraries => ProfDetailFocus::AddModuleBtn,
                ProfDetailFocus::AddModuleBtn => ProfDetailFocus::AddLibraryBtn,
                ProfDetailFocus::AddLibraryBtn => ProfDetailFocus::CloseBtn,
                ProfDetailFocus::CloseBtn => ProfDetailFocus::Modules,
            };
            match cur {
                ProfDetailFocus::Modules if !has_modules => {},
                ProfDetailFocus::Libraries if !has_libraries => {},
                _ => return cur,
            }
            if steps == 2 {
                // two lists skipped in a row: the next stop is a button
                assert(false);
            }
            steps = steps + 1;
        }
    }

    /// The previous focus stop, skipping the lists that are empty.
    pub fn prev(self, has_modules: bool, has_libraries: bool) -> (r: ProfDetailFocus)
        ensures
            r == detail_prev(self, has_modules, has_libraries),
            detail_stop(r, has_modules, has_libraries),
    {
        let mut cur = self;
        let mut steps: usize = 0;
        loop
            invariant
                steps <= 2,
                steps == 0 ==> cur == self,
                steps == 1 ==> cur == detail_pred(self) && !detail_stop(cur, has_modules, has_libraries),
                steps == 2 ==> cur == detail_pred(detail_pred(self)) && !detail_stop(cur, has_modules, has_libraries)
                    && !detail_stop(detail_pred(self), has_modules, has_libraries),
            decreases 3 - steps,
        {
            cur = match cur {
                ProfDetailFocus::Modules => ProfDetailFocus::CloseBtn,
                ProfDetailFocus::Libraries => ProfDetailFocus::Modules,
                ProfDetailFocus::AddModuleBtn => ProfDetailFocus::Libraries,
                ProfDetailFocus::AddLibraryBtn => ProfDetailFocus::AddModuleBtn,
                ProfDetailFocus::CloseBtn => ProfDetailFocus::AddLibraryBtn,
            };
            match cur {
                ProfDetailFocus::Modules if !has_modules => {},
                ProfDetailFocus::Libraries if !has_libraries => {},
                _ => return cur,
            }
            if steps == 2 {
                assert(false);
            }
            steps = steps + 1;
        }
    }
}

/// Law: on a stop that may hold the focus, Tab then Shift+Tab (and Shift+Tab then Tab)
/// return to it.
pub proof fn law_detail_focus_round_trip(f: ProfDetailFocus, hm: bool, hl: bool)
    requires
        detail_stop(f, hm, hl),
    ensures
        detail_prev(detail_next(f, hm, hl), hm, hl) == f,
        detail_next(detail_prev(f, hm, hl), hm, hl) == f,
{
}

/// Focus inside the create-profile overlay.
#[derive(Clone, Copy, Debug, PartialEq, Eq, Structural)]
pub enum ProfCreateFocus {
    Input,
    CreateBtn,
    CancelBtn,
}

/// Focus inside the delete-profile overlay.
#[derive(Clone, Copy, Debug, PartialEq, Eq, Structural)]
pub enum ProfDeleteFocus {
    YesBtn,
    NoBtn,
}

/// A module of a profile, as the repository resolves it.
#[derive(Debug)]
pub struct ResolvedModule {
    pub name: String,
    pub version: String,
    pub descr: String,
    pub selector: String,
}

/// A library of a profile, as the repository resolves it.
#[derive(Debug)]
pub struct ResolvedLibrary {
    pub name: String,
    pub kind: String,
    pub checksum: String,
    pub selector: String,
}

/// The profiles tab of the repository manager: the list, and its detail, create and delete
/// overlays.
pub struct ProfilesManager {
    pub profiles: Vec<String>,
    pub cursor: usize,
    pub scroll: usize,
    pub detail_visible: bool,
    pub detail_name: String,
    pub detail_modules: Vec<ResolvedModule>,
    pub detail_libraries: Vec<ResolvedLibrary>,
    pub detail_focus: ProfDetailFocus,
    pub detail_moffset: usize,
    pub detail_loffset: usize,
    pub create_visible: bool,
    pub create_input: ratatui_cheese::input::InputState,
    pub create_focus: ProfCreateFocus,
    pub delete_visible: bool,
    pub delete_name: String,
    pub delete_focus: ProfDeleteFocus,
}

/// Number of names that pass the filter.
pub open spec fn count_hits(names: Seq<String>, filter: Seq<char>) -> nat
    decreases names.len(),
{
    if names.len() == 0 {
        0
    } else {
        count_hits(names.drop_last(), filter) + if filter_hit(names.last()@, filter) { 1nat } else { 0nat }
    }
}

/// Counts the names that pass the filter.
pub fn count_hits_exec(names: &Vec<String>, filter: &str) -> (r: usize)
    ensures
        r == count_hits(names@, filter@),
{
    let mut n: usize = 0;
    let mut i: usize = 0;
    while i < names.len()
        invariant
            i <= names.len(),
            n <= i,
            n == count_hits(names@.take(i as int), filter@),
        decreases names.len() - i,
    {
        proof {
            assert(names@.take(i as int + 1).drop_last() == names@.take(i as int));
        }
        if filter_hit_exec(names[i].as_str(), filter) {
            n = n + 1;
        }
        i = i + 1;
    }
    assert(names@.take(names.len() as int) == names@);
    n
}

/// Scroll offset of a detail list after a key, with the list shown ten rows at a time.
pub open spec fn detail_scroll(offset: nat, key: KeyCode, len: nat) -> nat {
    let max: nat = if len > 10 { (len - 10) as nat } else { 0 };
    match key {
        KeyCode::Up => if offset > 0 { (offset - 1) as nat } else { 0 },
        KeyCode::Down => if offset + 1 < max { offset + 1 } else { max },
        KeyCode::PageUp => if offset > 10 { (offset - 10) as nat } else { 0 },
        KeyCode::PageDown => if offset + 10 < max { offset + 10 } else { max },
        _ => offset,
    }
}

fn detail_scroll_exec(offset: usize, key: KeyCode, len: usize) -> (r: usize)
    requires
        offset + 10 <= usize::MAX,
    ensures
        r as nat == detail_scroll(offset as nat, key, len as nat),
{
    let max = if len > 10 { len - 10 } else { 0 };
    match key {
        KeyCode::Up => if offset > 0 { offset - 1 } else { 0 },
        KeyCode::Down => if offset + 1 < max { offset + 1 } else { max },
        KeyCode::PageUp => if offset > 10 { offset - 10 } else { 0 },
        KeyCode::PageDown => if offset + 10 < max { offset + 10 } else { max },
        _ => offset,
    }
}

impl ProfilesManager {
    /// An empty manager with every overlay closed.
    pub fn new() -> (r: ProfilesManager)
        ensures
            r.profiles@.len() == 0,
            r.cursor == 0,
            r.scroll == 0,
            !r.detail_visible && !r.create_visible && !r.delete_visible,
            r.detail_name@.len() == 0,
            r.detail_modules@.len() == 0,
            r.detail_libraries@.len() == 0,
            r.detail_focus == ProfDetailFocus::Modules,
            r.detail_moffset == 0 && r.detail_loffset == 0,
            input_text(r.create_input).len() == 0,
            input_cursor(r.create_input) == 0,
            r.create_focus == ProfCreateFocus::Input,
            r.delete_name@.len() == 0,
            r.delete_focus == ProfDeleteFocus::YesBtn,
    {
        ProfilesManager {
            profiles: Vec::new(),
            cursor: 0,
            scroll: 0,
            detail_visible: false,
            detail_name: String::new(),
            detail_modules: Vec::new(),
            detail_libraries: Vec::new(),
            detail_focus: ProfDetailFocus::Modules,
            detail_moffset: 0,
            detail_loffset: 0,
            create_visible: false,
            create_input: input_new(),
            create_focus: ProfCreateFocus::Input,
            delete_visible: false,
            delete_name: String::new(),
            delete_focus: ProfDeleteFocus::YesBtn,
        }
    }

    /// Number of profiles whose name passes the filter.
    pub fn filtered_count(&self, filter_value: &str) -> (r: usize)
        ensures
            r == count_hits(self.profiles@, filter_value@),
    {
        count_hits_exec(&self.profiles, filter_value)
    }

    /// A key on the profile list: cursor keys move over the filtered rows (ten at a time with
    /// the page keys); Tab and `/` move the focus to the filter. Returns whether the key was used.
    pub fn handle_list_key(&mut self, key: KeyCode, filter_focus: &mut bool, filter_value: &str) -> (used: bool)
        requires
            old(self).cursor + 10 <= usize::MAX,
        ensures
            used == (list_move(old(self).cursor as nat, key, count_hits(old(self).profiles@, filter_value@), 10) is Some
                || key == KeyCode::Tab || key == KeyCode::Char('/')),
            list_move(old(self).cursor as nat, key, count_hits(old(self).profiles@, filter_value@), 10) is Some ==> final(self).cursor
                == list_move(old(self).cursor as nat, key, count_hits(old(self).profiles@, filter_value@), 10)->0,
            list_move(old(self).cursor as nat, key, count_hits(old(self).profiles@, filter_value@), 10) is None ==> final(self).cursor
                == old(self).cursor,
            *final(filter_focus) == (*old(filter_focus) || key == KeyCode::Tab || key == KeyCode::Char('/')),
            final(self).profiles == old(self).profiles,
            final(self).detail_visible == old(self).detail_visible,
            final(self).create_visible == old(self).create_visible,
            final(self).delete_visible == old(self).delete_visible,
    {
        let total = self.filtered_count(filter_value);
        match list_move_exec(self.cursor, key, total, 10) {
            Some(c) => {
                self.cursor = c;
                true
            },
            None => {
                if key == KeyCode::Tab || key == KeyCode::Char('/') {
                    *filter_focus = true;
                    true
                } else {
                    false
                }
            },
        }
    }

    /// A key on the detail overlay: Esc closes it, Tab and Shift+Tab move the focus (skipping
    /// empty lists), the cursor and page keys scroll the focused list; Enter is left to the
    /// caller (returns `false`), every other key is swallowed.
    pub fn handle_detail_key(&mut self, key: KeyCode) -> (used: bool)
        requires
            old(self).detail_moffset + 10 <= usize::MAX,
            old(self).detail_loffset + 10 <= usize::MAX,
        ensures
            used == (key != KeyCode::Enter),
            final(self).detail_visible == (old(self).detail_visible && key != KeyCode::Esc),
            final(self).detail_focus == match key {
                KeyCode::Tab => detail_next(
                    old(self).detail_focus,
                    old(self).detail_modules@.len() > 0,
                    old(self).detail_libraries@.len() > 0,
                ),
                KeyCode::BackTab => detail_prev(
                    old(self).detail_focus,
                    old(self).detail_modules@.len() > 0,
                    old(self).detail_libraries@.len() > 0,
                ),
                _ => old(self).detail_focus,
            },
            final(self).detail_moffset == if old(self).detail_focus == ProfDetailFocus::Modules {
                detail_scroll(old(self).detail_moffset as nat, key, old(self).detail_modules@.len())
            } else {
                old(self).detail_moffset as nat
            },
            final(self).detail_loffset == if old(self).detail_focus == ProfDetailFocus::Libraries {
                detail_scroll(old(self).detail_loffset as nat, key, old(self).detail_libraries@.len())
            } else {
                old(self).detail_loffset as nat
            },
            final(self).profiles == old(self).profiles,
            final(self).cursor == old(self).cursor,
            final(self).detail_modules == old(self).detail_modules,
            final(self).detail_libraries == old(self).detail_libraries,
            final(self).create_visible == old(self).create_visible,
            final(self).delete_visible == old(self).delete_visible,
    {
        match key {
            KeyCode::Esc => {
                self.detail_visible = false;
            },
            KeyCode::Tab => {
                let hm = self.detail_modules.len() > 0;
                let hl = self.detail_libraries.len() > 0;
                self.detail_focus = self.detail_focus.next(hm, hl);
            },
            KeyCode::BackTab => {
                let hm = self.detail_modules.len() > 0;
                let hl = self.detail_libraries.len() > 0;
                self.detail_focus = self.detail_focus.prev(hm, hl);
            },
            KeyCode::Enter => {
                return false;
            },
            _ => {
                if self.detail_focus == ProfDetailFocus::Modules {
                    self.detail_moffset = detail_scroll_exec(self.detail_moffset, key, self.detail_modules.len());
                } else if self.detail_focus == ProfDetailFocus::Libraries {
                    self.detail_loffset = detail_scroll_exec(self.detail_loffset, key, self.detail_libraries.len());
                }
            },
        }
        true
    }

    /// A key on the create overlay: Esc closes it, Tab and Shift+Tab cycle input, Create and
    /// Cancel, editing keys edit the name while the input has the focus; Enter is left to the
    /// caller (returns `false`).
    pub fn handle_create_key(&mut self, key: KeyCode) -> (used: bool)
        requires
            input_room(old(self).create_input),
        ensures
            used == (key != KeyCode::Enter),
            final(self).create_visible == (old(self).create_visible && key != KeyCode::Esc),
            final(self).create_focus == match key {
                KeyCode::Tab => match old(self).create_focus {
                    ProfCreateFocus::Input => ProfCreateFocus::CreateBtn,
                    ProfCreateFocus::CreateBtn => ProfCreateFocus::CancelBtn,
                    ProfCreateFocus::CancelBtn => ProfCreateFocus::Input,
                },
                KeyCode::BackTab => match old(self).create_focus {
                    ProfCreateFocus::Input => ProfCreateFocus::CancelBtn,
                    ProfCreateFocus::CreateBtn => ProfCreateFocus::Input,
                    ProfCreateFocus::CancelBtn => ProfCreateFocus::CreateBtn,
                },
                _ => old(self).create_focus,
            },
            ({
                let e = key_edit(
                    input_text(old(self).create_input),
                    input_cursor(old(self).create_input),
                    input_limit(old(self).create_input),
                    key,
                );
                if old(self).create_focus == ProfCreateFocus::Input && e is Some {
                    (input_text(final(self).create_input), input_cursor(final(self).create_input)) == e->0
                } else {
                    input_text(final(self).create_input) == input_text(old(self).create_input)
                        && input_cursor(final(self).create_input) == input_cursor(old(self).create_input)
                }
            }),
            final(self).profiles == old(self).profiles,
            final(self).cursor == old(self).cursor,
            final(self).detail_visible == old(self).detail_visible,
            final(self).delete_visible == old(self).delete_visible,
    {
        match key {
            KeyCode::Esc => {
                self.create_visible = false;
            },
            KeyCode::Tab => {
                self.create_focus = match self.create_focus {
                    ProfCreateFocus::Input => ProfCreateFocus::CreateBtn,
                    ProfCreateFocus::CreateBtn => ProfCreateFocus::CancelBtn,
                    ProfCreateFocus::CancelBtn => ProfCreateFocus::Input,
                };
            },
            KeyCode::BackTab => {
                self.create_focus = match self.create_focus {
                    ProfCreateFocus::Input => ProfCreateFocus::CancelBtn,
                    ProfCreateFocus::CreateBtn => ProfCreateFocus::Input,
                    ProfCreateFocus::CancelBtn => ProfCreateFocus::CreateBtn,
                };
            },
            KeyCode::Enter => {
                return false;
            },
            _ => {
                if self.create_focus == ProfCreateFocus::Input {
                    edit_input(key, &mut self.create_input);
                }
            },
        }
        true
    }

    /// A key on the delete overlay: Esc closes it, Tab and Shift+Tab toggle Yes and No; Enter
    /// is left to the caller (returns `false`).
    pub fn handle_delete_key(&mut self, key: KeyCode) -> (used: bool)
        ensures
            used == (key != KeyCode::Enter),
            final(self).delete_visible == (old(self).delete_visible && key != KeyCode::Esc),
            final(self).delete_focus == if key == KeyCode::Tab || key == KeyCode::BackTab {
                if old(self).delete_focus == ProfDeleteFocus::YesBtn { ProfDeleteFocus::NoBtn } else { ProfDeleteFocus::YesBtn }
            } else {
                old(self).delete_focus
            },
            final(self).delete_name == old(self).delete_name,
            final(self).profiles == old(self).profiles,
            final(self).cursor == old(self).cursor,
            final(self).detail_visible == old(self).detail_visible,
            final(self).create_visible == old(self).create_visible,
    {
        match key {
            KeyCode::Esc => {
                self.delete_visible = false;
            },
            KeyCode::Tab | KeyCode::BackTab => {
                self.delete_focus = match self.delete_focus {
                    ProfDeleteFocus::YesBtn => ProfDeleteFocus::NoBtn,
                    ProfDeleteFocus::NoBtn => ProfDeleteFocus::YesBtn,
                };
            },
            KeyCode::Enter => {
                return false;
            },
            _ => {},
        }
        true
    }

    /// Opens the detail overlay on a profile; the focus goes to the first non-empty list, or
    /// to the Add Module button when both are empty.
    pub fn enter_detail(&mut self, name: String, modules: Vec<ResolvedModule>, libraries: Vec<ResolvedLibrary>)
        ensures
            final(self).detail_name == name,
            final(self).detail_modules == modules,
            final(self).detail_libraries == libraries,
            final(self).detail_focus == if modules@.len() > 0 {
                ProfDetailFocus::Modules
            } else if libraries@.len() > 0 {
                ProfDetailFocus::Libraries
            } else {
                ProfDetailFocus::AddModuleBtn
            },
            final(self).detail_moffset == 0,
            final(self).detail_loffset == 0,
            final(self).detail_visible,
            final(self).profiles == old(self).profiles,
            final(self).cursor == old(self).cursor,
            final(self).create_visible == old(self).create_visible,
            final(self).delete_visible == old(self).delete_visible,
    {
        self.detail_name = name;
        self.detail_modules = modules;
        self.detail_libraries = libraries;
        self.detail_focus = if self.detail_modules.len() > 0 {
            ProfDetailFocus::Modules
        } else if self.detail_libraries.len() > 0 {
            ProfDetailFocus::Libraries
        } else {
            ProfDetailFocus::AddModuleBtn
        };
        self.detail_moffset = 0;
        self.detail_loffset = 0;
        self.detail_visible = true;
    }

    /// Opens the create overlay with an empty name field focused.
    pub fn open_create(&mut self)
        ensures
            input_text(final(self).create_input).len() == 0,
            input_cursor(final(self).create_input) == 0,
            final(self).create_focus == ProfCreateFocus::Input,
            final(self).create_visible,
            final(self).profiles == old(self).profiles,
            final(self).cursor == old(self).cursor,
            final(self).detail_visible == old(self).detail_visible,
            final(self).delete_visible == old(self).delete_visible,
    {
        self.create_input = input_new();
        self.create_focus = ProfCreateFocus::Input;
        self.create_visible = true;
    }

    /// Opens the delete overlay for a profile, with Yes focused.
    pub fn open_delete(&mut self, name: String)
        ensures
            final(self).delete_name == name,
            final(self).delete_focus == ProfDeleteFocus::YesBtn,
            final(self).delete_visible,
            final(self).profiles == old(self).profiles,
            final(self).cursor == old(self).cursor,
            final(self).detail_visible == old(self).detail_visible,
            final(self).create_visible == old(self).create_visible,
            *final(self) == (ProfilesManager {
                delete_name: name,
                delete_focus: ProfDeleteFocus::YesBtn,
                delete_visible: true,
                ..*old(self)
            }),
    {
        self.delete_name = name;
        self.delete_focus = ProfDeleteFocus::YesBtn;
        self.delete_visible = true;
    }

    /// The profile under the cursor, if the cursor is on one.
    pub fn selected_profile_name(&self) -> (r: Option<&String>)
        ensures
            r is Some <==> self.cursor < self.profiles@.len(),
            r is Some ==> r->0 == self.profiles@[self.cursor as int],
    {
        if self.cursor < self.profiles.len() {
            Some(&self.profiles[self.cursor])
        } else {
            None
        }
    }
}

} // verus!
