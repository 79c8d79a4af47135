use crate::chars::{char_utf8_len_exec, chars_eq, chars_of, filter_hit, filter_hit_exec, slice_chars, string_from, string_of, utf8_len, utf8_len_wide};
use crate::sortutil::{text_less, text_lt};
use crate::keys::{KeyCode, KeyEvent};
use crate::platforms::PlatformsManager;
use crate::profiles::ProfilesManager;
use crate::textinput::{edit_input, input_room, input_cursor, input_limit, input_new, input_text, input_value, key_edit};
use vstd::prelude::*;

verus! {

/// An argument or option of a module, as its documentation lists it.
pub struct ModuleArg {
    pub name: String,
    pub description: String,
    pub required: Option<bool>,
    pub default: Option<String>,
}

/// A module of the repository index.
pub struct ModuleRow {
    pub name: String,
    pub version: Option<String>,
    pub descr: String,
    pub platform: String,
    pub arch: String,
    pub manpage: Option<String>,
    pub args: Option<Vec<ModuleArg>>,
    pub opts: Option<Vec<ModuleArg>>,
}

/// A library of the repository index.
pub struct LibraryRow {
    pub name: String,
    pub kind: String,
    pub checksum: String,
}

/// A row of the staging list: something to add or delete, and whether it is checked.
pub struct StagedModule {
    pub name: String,
    pub version: Option<String>,
    pub descr: String,
    pub path: String,
    pub checked: bool,
    pub platform: Option<String>,
    pub arch: Option<String>,
}

/// Focus in the staging dialog.
#[derive(Debug, Clone, Copy, PartialEq, Eq, Structural)]
pub enum StagingFocus {
    List,
    AddSelected,
    Cancel,
    CrossPlatformDelete,
}

/// What the staging dialog was opened for.
#[derive(Debug, Clone, Copy, PartialEq, Eq, Structural)]
pub enum StagingMode {
    ModuleAdd,
    ModuleDelete,
    ProfileModuleAdd,
    ProfileLibraryAdd,
    LibraryDelete,
}

#[verifier::external_type_specification]
#[verifier::external_body]
#[verifier::reject_recursive_types(K)]
#[verifier::reject_recursive_types(V)]
#[verifier::reject_recursive_types(S)]
pub struct ExIndexMap<K, V, S>(indexmap::IndexMap<K, V, S>);

/// What the module groups hold, in their order: each group's name and its modules.
pub uninterp spec fn group_entries(m: indexmap::IndexMap<String, Vec<ModuleRow>>) -> Seq<(Seq<char>, Seq<ModuleRow>)>;

/// `IndexMap::new`: no groups.
#[verifier::external_body]
fn groups_new() -> (r: indexmap::IndexMap<String, Vec<ModuleRow>>)
    ensures
        group_entries(r) == Seq::<(Seq<char>, Seq<ModuleRow>)>::empty(),
        distinct_names(group_entries(r)),
{
    indexmap::IndexMap::new()
}

/// `IndexMap::len`: the number of groups.
#[verifier::external_body]
pub(crate) fn groups_len(m: &indexmap::IndexMap<String, Vec<ModuleRow>>) -> (r: usize)
    ensures
        r == group_entries(*m).len(),
{
    m.len()
}

/// `IndexMap::get_index`: the group at a position of the order.
#[verifier::external_body]
pub(crate) fn groups_get_index(m: &indexmap::IndexMap<String, Vec<ModuleRow>>, i: usize) -> (r: Option<(&String, &Vec<ModuleRow>)>)
    ensures
        r is Some <==> i < group_entries(*m).len(),
        r is Some ==> (r->0).0@ == group_entries(*m)[i as int].0 && (r->0).1@ == group_entries(*m)[i as int].1,
{
    m.get_index(i)
}

/// `IndexMap::insert`: a new name goes last in the order; a name already there keeps its place
/// and gets the new modules. The map holds each key once, so distinct names stay distinct.
#[verifier::external_body]
fn groups_insert(m: &mut indexmap::IndexMap<String, Vec<ModuleRow>>, key: String, rows: Vec<ModuleRow>)
    ensures
        (exists|i: int| 0 <= i < group_entries(*old(m)).len() && group_entries(*old(m))[i].0 == key@) ==> (exists|
            i: int,
        |
            0 <= i < group_entries(*old(m)).len() && group_entries(*old(m))[i].0 == key@ && group_entries(*final(m))
                == group_entries(*old(m)).update(i, (key@, rows@))),
        !(exists|i: int| 0 <= i < group_entries(*old(m)).len() && group_entries(*old(m))[i].0 == key@) ==> group_entries(
            *final(m),
        ) == group_entries(*old(m)).push((key@, rows@)),
        distinct_names(group_entries(*old(m))) ==> distinct_names(group_entries(*final(m))),
{
    m.insert(key, rows);
}


/// The manager of the repository: module groups, libraries, profiles and platforms, the
/// staging dialog and the module information popup.
pub struct RepoManager {
    pub visible: bool,
    pub module_groups: indexmap::IndexMap<String, Vec<ModuleRow>>,
    pub group_order: Vec<String>,
    pub group_cursor: usize,
    pub group_cursor_row: usize,
    pub group_expanded: Vec<bool>,
    pub staging: bool,
    pub staged: Vec<StagedModule>,
    pub staging_cursor: usize,
    pub staging_scroll: usize,
    pub staging_focus: StagingFocus,
    pub staging_mode: StagingMode,
    pub delete_mode: bool,
    pub cross_platform_delete: bool,
    pub bulk_add_triggered: bool,
    pub bulk_delete_triggered: bool,
    pub needs_reload: bool,
    pub filter: ratatui_cheese::input::InputState,
    pub filter_focus: bool,
    pub info_visible: bool,
    pub info_row: usize,
    pub info_tab: u8,
    pub info_scroll: usize,
    pub info_active_tab: u8,
    pub active_tab: u8,
    pub lib_rows: Vec<LibraryRow>,
    pub lib_cursor: usize,
    pub lib_scroll: usize,
    pub profiles: ProfilesManager,
    pub platforms: PlatformsManager,
}

/// Every module of the groups, group after group, in order.
pub open spec fn all_modules(es: Seq<(Seq<char>, Seq<ModuleRow>)>) -> Seq<ModuleRow>
    decreases es.len(),
{
    if es.len() == 0 {
        Seq::<ModuleRow>::empty()
    } else {
        all_modules(es.drop_last()) + es.last().1
    }
}

/// A module passes the filter when its name or its description does.
pub open spec fn module_hit(r: ModuleRow, filter: Seq<char>) -> bool {
    filter_hit(r.name@, filter) || filter_hit(r.descr@, filter)
}

/// Number of modules that pass the filter.
pub open spec fn count_module_hits(rows: Seq<ModuleRow>, filter: Seq<char>) -> nat
    decreases rows.len(),
{
    if rows.len() == 0 {
        0
    } else {
        count_module_hits(rows.drop_last(), filter) + if module_hit(rows.last(), filter) { 1nat } else { 0nat }
    }
}

proof fn lemma_all_modules_prefix(es: Seq<(Seq<char>, Seq<ModuleRow>)>, k: int)
    requires
        0 <= k <= es.len(),
    ensures
        all_modules(es.take(k)).len() <= all_modules(es).len(),
    decreases es.len() - k,
{
    if k < es.len() {
        lemma_all_modules_prefix(es, k + 1);
        assert(es.take(k + 1).drop_last() =~= es.take(k));
    } else {
        assert(es.take(k) =~= es);
    }
}

pub open spec fn opt_view(o: Option<String>) -> Option<Seq<char>> {
    match o {
        Some(s) => Some(s@),
        None => None,
    }
}

/// Name, version, description, path, checked flag, platform and architecture of a staged row.
pub type StagedView = (Seq<char>, Option<Seq<char>>, Seq<char>, Seq<char>, bool, Option<Seq<char>>, Option<Seq<char>>);

pub open spec fn staged_view(s: StagedModule) -> StagedView {
    (s.name@, opt_view(s.version), s.descr@, s.path@, s.checked, opt_view(s.platform), opt_view(s.arch))
}

pub open spec fn staged_views(v: Seq<StagedModule>) -> Seq<StagedView> {
    v.map_values(|s: StagedModule| staged_view(s))
}

/// A module offered for adding to a profile: unchecked, with its platform and architecture.
pub open spec fn staged_from_module(r: ModuleRow) -> StagedView {
    (r.name@, opt_view(r.version), r.descr@, Seq::<char>::empty(), false, Some(r.platform@), Some(r.arch@))
}

/// A library offered for adding to a profile: its kind as the version, its checksum as the
/// description.
pub open spec fn staged_from_library(r: LibraryRow) -> StagedView {
    (r.name@, Some(r.kind@), r.checksum@, Seq::<char>::empty(), false, None, None)
}

fn copy_opt(o: &Option<String>) -> (r: Option<String>)
    ensures
        opt_view(r) == opt_view(*o),
{
    match o {
        Some(s) => Some(string_from(s.as_str())),
        None => None,
    }
}

impl StagedModule {
    pub fn copy(&self) -> (r: StagedModule)
        ensures
            staged_view(r) == staged_view(*self),
    {
        StagedModule {
            name: string_from(self.name.as_str()),
            version: copy_opt(&self.version),
            descr: string_from(self.descr.as_str()),
            path: string_from(self.path.as_str()),
            checked: self.checked,
            platform: copy_opt(&self.platform),
            arch: copy_opt(&self.arch),
        }
    }
}

/// The name of the group under the cursor, if the cursor is on one.
pub open spec fn focused_name(m: RepoManager) -> Option<Seq<char>> {
    if m.group_cursor < m.group_order@.len() { Some(m.group_order@[m.group_cursor as int]@) } else { None }
}

/// The modules of a group with the given name, if the groups hold one.
pub open spec fn group_named(es: Seq<(Seq<char>, Seq<ModuleRow>)>, name: Seq<char>, rows: Seq<ModuleRow>) -> bool {
    exists|i: int| 0 <= i < es.len() && es[i].0 == name && es[i].1 == rows
}

pub open spec fn has_group(es: Seq<(Seq<char>, Seq<ModuleRow>)>, name: Seq<char>) -> bool {
    exists|i: int| 0 <= i < es.len() && es[i].0 == name
}

/// No two groups share a name.
pub open spec fn distinct_names(es: Seq<(Seq<char>, Seq<ModuleRow>)>) -> bool {
    forall|i: int, j: int| 0 <= i < es.len() && 0 <= j < es.len() && i != j ==> es[i].0 != es[j].0
}

/// Index of the first group, from `i` on, with the given name (the length when none has it).
pub open spec fn first_named_from(es: Seq<(Seq<char>, Seq<ModuleRow>)>, name: Seq<char>, i: int) -> int
    decreases es.len() - i,
{
    if i >= es.len() || i < 0 {
        es.len() as int
    } else if es[i].0 == name {
        i
    } else {
        first_named_from(es, name, i + 1)
    }
}

/// The modules of the group with the given name: an `IndexMap` holds one entry per key, so
/// this is the first (and only) entry with that name.
pub open spec fn rows_named(es: Seq<(Seq<char>, Seq<ModuleRow>)>, name: Seq<char>) -> Seq<ModuleRow> {
    es[first_named_from(es, name, 0)].1
}

/// `IndexMap::get`: the modules of the group with the given name. The map's keys are
/// distinct, so the entry that `get` finds is the first entry with that name.
#[verifier::external_body]
fn groups_get<'a>(m: &'a indexmap::IndexMap<String, Vec<ModuleRow>>, key: &str) -> (r: Option<&'a Vec<ModuleRow>>)
    ensures
        r is Some <==> has_group(group_entries(*m), key@),
        r is Some ==> group_named(group_entries(*m), key@, r->0@),
        r is Some ==> r->0@ == rows_named(group_entries(*m), key@),
{
    m.get(key)
}

/// Row `row` of the focused group (1-based; row 0 is the group header): `None` on the header,
/// without a focused group, or past the group's last module.
pub open spec fn focused_row_module(m: RepoManager, row: int) -> Option<ModuleRow> {
    match focused_name(m) {
        Some(name) => if row > 0 && has_group(group_entries(m.module_groups), name) && row - 1 < rows_named(
            group_entries(m.module_groups),
            name,
        ).len() {
            Some(rows_named(group_entries(m.module_groups), name)[row - 1])
        } else {
            None
        },
        None => None,
    }
}

impl RepoManager {
    /// A hidden manager with nothing loaded, on the first tab.
    pub fn new() -> (r: RepoManager)
        ensures
            !r.visible,
            group_entries(r.module_groups).len() == 0,
            r.group_order@.len() == 0 && r.group_expanded@.len() == 0,
            r.group_cursor == 0 && r.group_cursor_row == 0,
            !r.staging && r.staged@.len() == 0 && r.staging_cursor == 0 && r.staging_scroll == 0,
            r.staging_focus == StagingFocus::List && r.staging_mode == StagingMode::ModuleAdd,
            !r.delete_mode && !r.cross_platform_delete,
            !r.bulk_add_triggered && !r.bulk_delete_triggered && !r.needs_reload,
            input_text(r.filter).len() == 0 && !r.filter_focus,
            !r.info_visible && r.info_row == 0 && r.info_tab == 0 && r.info_scroll == 0 && r.info_active_tab == 0,
            r.active_tab == 0 && r.lib_rows@.len() == 0 && r.lib_cursor == 0 && r.lib_scroll == 0,
    {
        RepoManager {
            visible: false,
            module_groups: groups_new(),
            group_order: Vec::new(),
            group_cursor: 0,
            group_cursor_row: 0,
            group_expanded: Vec::new(),
            staging: false,
            staged: Vec::new(),
            staging_cursor: 0,
            staging_scroll: 0,
            staging_focus: StagingFocus::List,
            staging_mode: StagingMode::ModuleAdd,
            delete_mode: false,
            cross_platform_delete: false,
            bulk_add_triggered: false,
            bulk_delete_triggered: false,
            needs_reload: false,
            filter: input_new(),
            filter_focus: false,
            info_visible: false,
            info_row: 0,
            info_tab: 0,
            info_scroll: 0,
            info_active_tab: 0,
            active_tab: 0,
            lib_rows: Vec::new(),
            lib_cursor: 0,
            lib_scroll: 0,
            profiles: ProfilesManager::new(),
            platforms: PlatformsManager::new(),
        }
    }

    /// Opens the staging dialog on the given rows, cursor at the top of the list.
    pub fn enter_staging(&mut self, modules: Vec<StagedModule>)
        ensures
            *final(self) == (RepoManager {
                staged: modules,
                staging_cursor: 0,
                staging_scroll: 0,
                staging_focus: StagingFocus::List,
                staging: true,
                ..*old(self)
            }),
    {
        self.staged = modules;
        self.staging_cursor = 0;
        self.staging_scroll = 0;
        self.staging_focus = StagingFocus::List;
        self.staging = true;
    }

    /// Closes the staging dialog, dropping its rows and the delete settings.
    pub fn exit_staging(&mut self)
        ensures
            final(self).staged@.len() == 0,
            *final(self) == (RepoManager {
                staging: false,
                delete_mode: false,
                cross_platform_delete: false,
                staged: final(self).staged,
                ..*old(self)
            }),
    {
        self.staging = false;
        self.delete_mode = false;
        self.cross_platform_delete = false;
        self.staged = Vec::new();
    }

    /// The name of the group under the cursor.
    pub fn focused_group_name(&self) -> (r: Option<&String>)
        ensures
            r is Some <==> focused_name(*self) is Some,
            r is Some ==> r->0@ == focused_name(*self)->0,
    {
        if self.group_cursor < self.group_order.len() {
            Some(&self.group_order[self.group_cursor])
        } else {
            None
        }
    }

    /// The modules of the group under the cursor.
    pub fn focused_group_modules(&self) -> (r: Option<&Vec<ModuleRow>>)
        ensures
            r is Some <==> (focused_name(*self) is Some && has_group(group_entries(self.module_groups), focused_name(*self)->0)),
            r is Some ==> group_named(group_entries(self.module_groups), focused_name(*self)->0, r->0@),
            r is Some ==> r->0@ == rows_named(group_entries(self.module_groups), focused_name(*self)->0),
    {
        match self.focused_group_name() {
            Some(k) => groups_get(&self.module_groups, k.as_str()),
            None => None,
        }
    }

    /// The module on row `row` (1-based; row 0 is the group header) of the focused group.
    fn module_at_row(&self, row: usize) -> (r: Option<&ModuleRow>)
        ensures
            r is Some <==> focused_row_module(*self, row as int) is Some,
            r is Some ==> *r->0 == focused_row_module(*self, row as int)->0,
            r is Some ==> row > 0 && focused_name(*self) is Some && exists|rows: Seq<ModuleRow>|
                group_named(group_entries(self.module_groups), focused_name(*self)->0, rows) && row - 1 < rows.len()
                    && r->0 == rows[row - 1],
            r is None ==> row == 0 || focused_name(*self) is None || !has_group(
                group_entries(self.module_groups),
                focused_name(*self)->0,
            ) || exists|rows: Seq<ModuleRow>|
                group_named(group_entries(self.module_groups), focused_name(*self)->0, rows) && row - 1 >= rows.len(),
    {
        if row == 0 {
            return None;
        }
        match self.focused_group_modules() {
            Some(rows) => {
                if row - 1 < rows.len() {
                    Some(&rows[row - 1])
                } else {
                    None
                }
            },
            None => None,
        }
    }

    /// The module under the cursor (`None` on a group header).
    pub fn focused_module(&self) -> (r: Option<&ModuleRow>)
        ensures
            r is Some <==> focused_row_module(*self, self.group_cursor_row as int) is Some,
            r is Some ==> *r->0 == focused_row_module(*self, self.group_cursor_row as int)->0,
            r is Some ==> self.group_cursor_row > 0 && focused_name(*self) is Some && exists|rows: Seq<ModuleRow>|
                group_named(group_entries(self.module_groups), focused_name(*self)->0, rows) && self.group_cursor_row
                    - 1 < rows.len() && r->0 == rows[self.group_cursor_row - 1],
            r is None ==> self.group_cursor_row == 0 || focused_name(*self) is None || !has_group(
                group_entries(self.module_groups),
                focused_name(*self)->0,
            ) || exists|rows: Seq<ModuleRow>|
                group_named(group_entries(self.module_groups), focused_name(*self)->0, rows) && self.group_cursor_row
                    - 1 >= rows.len(),
    {
        self.module_at_row(self.group_cursor_row)
    }

    /// The module the information popup shows: row `info_row` of the focused group.
    pub fn focused_module_for_info(&self) -> (r: Option<&ModuleRow>)
        ensures
            r is Some <==> focused_row_module(*self, self.info_row as int) is Some,
            r is Some ==> *r->0 == focused_row_module(*self, self.info_row as int)->0,
            r is Some ==> self.info_row > 0 && focused_name(*self) is Some && exists|rows: Seq<ModuleRow>|
                group_named(group_entries(self.module_groups), focused_name(*self)->0, rows) && self.info_row - 1
                    < rows.len() && r->0 == rows[self.info_row - 1],
            r is None ==> self.info_row == 0 || focused_name(*self) is None || !has_group(
                group_entries(self.module_groups),
                focused_name(*self)->0,
            ) || exists|rows: Seq<ModuleRow>|
                group_named(group_entries(self.module_groups), focused_name(*self)->0, rows) && self.info_row - 1
                    >= rows.len(),
    {
        self.module_at_row(self.info_row)
    }
}

/// With distinct group names a name picks out one group.
pub proof fn lemma_group_named_unique(es: Seq<(Seq<char>, Seq<ModuleRow>)>, name: Seq<char>, a: Seq<ModuleRow>, b: Seq<ModuleRow>)
    requires
        distinct_names(es),
        group_named(es, name, a),
        group_named(es, name, b),
    ensures
        a == b,
{
}


/// Tab in the staging dialog: list, add, (cross-platform switch when deleting), cancel.
pub open spec fn staging_tab(f: StagingFocus, delete_mode: bool) -> StagingFocus {
    match f {
        StagingFocus::List => StagingFocus::AddSelected,
        StagingFocus::AddSelected => if delete_mode { StagingFocus::CrossPlatformDelete } else { StagingFocus::Cancel },
        StagingFocus::CrossPlatformDelete => StagingFocus::Cancel,
        StagingFocus::Cancel => StagingFocus::List,
    }
}

/// Shift+Tab in the staging dialog, the reverse of `staging_tab`.
pub open spec fn staging_backtab(f: StagingFocus, delete_mode: bool) -> StagingFocus {
    match f {
        StagingFocus::List => StagingFocus::Cancel,
        StagingFocus::AddSelected => StagingFocus::List,
        StagingFocus::Cancel => if delete_mode { StagingFocus::CrossPlatformDelete } else { StagingFocus::AddSelected },
        StagingFocus::CrossPlatformDelete => StagingFocus::AddSelected,
    }
}

/// A stop of the staging dialog's focus order: the cross-platform switch only when deleting.
pub open spec fn staging_stop(f: StagingFocus, delete_mode: bool) -> bool {
    f != StagingFocus::CrossPlatformDelete || delete_mode
}

/// Law: on a stop of the staging dialog, Tab then Shift+Tab (and the reverse) return to it.
pub proof fn law_staging_focus_round_trip(f: StagingFocus, delete_mode: bool)
    requires
        staging_stop(f, delete_mode),
    ensures
        staging_backtab(staging_tab(f, delete_mode), delete_mode) == f,
        staging_tab(staging_backtab(f, delete_mode), delete_mode) == f,
{
}

/// The staging dialog after a key: Esc closes it (see `exit_staging`); Tab and Shift+Tab move
/// the focus; Space toggles the cross-platform switch or the row under the cursor; up and down
/// move the cursor in the list; Enter on the add button asks for the checked rows to be added
/// (or deleted, when deleting), and on cancel closes the dialog.
pub open spec fn staging_key(o: RepoManager, key: KeyCode, n: RepoManager) -> bool {
    let closed = RepoManager { staging: false, delete_mode: false, cross_platform_delete: false, staged: n.staged, ..o };
    if key == KeyCode::Esc {
        n.staged@.len() == 0 && n == closed
    } else if key == KeyCode::Tab {
        n == (RepoManager { staging_focus: staging_tab(o.staging_focus, o.delete_mode), ..o })
    } else if key == KeyCode::BackTab {
        n == (RepoManager { staging_focus: staging_backtab(o.staging_focus, o.delete_mode), ..o })
    } else if key == KeyCode::Char(' ') && o.staging_focus == StagingFocus::CrossPlatformDelete {
        n == (RepoManager { cross_platform_delete: !o.cross_platform_delete, ..o })
    } else if key == KeyCode::Up && o.staging_focus == StagingFocus::List {
        n == (RepoManager { staging_cursor: (if o.staging_cursor > 0 { o.staging_cursor - 1 } else { 0 }) as usize, ..o })
    } else if key == KeyCode::Down && o.staging_focus == StagingFocus::List {
        let max: int = if o.staged@.len() > 0 { o.staged@.len() - 1 } else { 0 };
        n == (RepoManager {
            staging_cursor: (if o.staging_cursor + 1 < max { o.staging_cursor + 1 } else { max }) as usize,
            ..o
        })
    } else if key == KeyCode::Char(' ') && o.staging_focus == StagingFocus::List {
        if o.staging_cursor < o.staged@.len() {
            let c = o.staging_cursor as int;
            &&& n.staged@ == o.staged@.update(c, StagedModule { checked: !o.staged@[c].checked, ..o.staged@[c] })
            &&& n == (RepoManager { staged: n.staged, ..o })
        } else {
            n == o
        }
    } else if key == KeyCode::Enter && o.staging_focus == StagingFocus::AddSelected {
        n == (if o.delete_mode {
            RepoManager { bulk_delete_triggered: true, ..o }
        } else {
            RepoManager { bulk_add_triggered: true, ..o }
        })
    } else if key == KeyCode::Enter && o.staging_focus == StagingFocus::Cancel {
        n.staged@.len() == 0 && n == closed
    } else {
        n == o
    }
}

/// The information popup after a key: Esc and Enter close it; left and right switch its tab
/// (four tabs, on modules only) and scroll back to the top; the other navigation keys scroll.
pub open spec fn info_key(o: RepoManager, key: KeyCode) -> RepoManager {
    if key == KeyCode::Esc || key == KeyCode::Enter {
        RepoManager { info_visible: false, ..o }
    } else if key == KeyCode::Left && o.info_active_tab == 0 {
        RepoManager { info_tab: (if o.info_tab > 0 { o.info_tab - 1 } else { 0 }) as u8, info_scroll: 0, ..o }
    } else if key == KeyCode::Right && o.info_active_tab == 0 {
        RepoManager { info_tab: (if o.info_tab + 1 < 3 { o.info_tab + 1 } else { 3 }) as u8, info_scroll: 0, ..o }
    } else if key == KeyCode::Up || key == KeyCode::PageUp {
        let step: int = if key == KeyCode::Up { 1 } else { 10 };
        RepoManager { info_scroll: (if o.info_scroll > step { o.info_scroll - step } else { 0 }) as usize, ..o }
    } else if key == KeyCode::Down || key == KeyCode::PageDown {
        let step: int = if key == KeyCode::Down { 1 } else { 10 };
        RepoManager {
            info_scroll: (if o.info_scroll + step <= usize::MAX { o.info_scroll + step } else { usize::MAX as int }) as usize,
            ..o
        }
    } else {
        o
    }
}

/// The repository filter after a key while it has the focus: Esc, down, Tab and Shift+Tab
/// leave it (back to the group header); editing keys edit it.
pub open spec fn repo_filter_key(o: RepoManager, key: KeyCode, n: RepoManager) -> bool {
    if key == KeyCode::Esc || key == KeyCode::Down || key == KeyCode::Tab || key == KeyCode::BackTab {
        n == (RepoManager { filter_focus: false, group_cursor_row: 0, ..o })
    } else if key is Char || key == KeyCode::Backspace || key == KeyCode::Delete || key == KeyCode::Left || key
        == KeyCode::Right || key == KeyCode::Home || key == KeyCode::End {
        let e = key_edit(input_text(o.filter), input_cursor(o.filter), input_limit(o.filter), key);
        &&& e is Some
        &&& input_text(n.filter) == (e->0).0
        &&& input_cursor(n.filter) == (e->0).1
        &&& input_limit(n.filter) == input_limit(o.filter)
        &&& n == (RepoManager { filter: n.filter, ..o })
    } else {
        n == o
    }
}

impl RepoManager {
    /// Number of modules, over all groups, that pass the filter.
    pub fn filtered_module_count(&self, filter_value: &str) -> (r: usize)
        requires
            all_modules(group_entries(self.module_groups)).len() <= usize::MAX,
        ensures
            r == count_module_hits(all_modules(group_entries(self.module_groups)), filter_value@),
    {
        let ghost es = group_entries(self.module_groups);
        let n = groups_len(&self.module_groups);
        let mut count: usize = 0;
        let mut i: usize = 0;
        while i < n
            invariant
                i <= n,
                n == es.len(),
                es == group_entries(self.module_groups),
                count == count_module_hits(all_modules(es.take(i as int)), filter_value@),
                count <= all_modules(es.take(i as int)).len(),
                all_modules(es).len() <= usize::MAX,
            decreases n - i,
        {
            let (_, rows) = groups_get_index(&self.module_groups, i).unwrap();
            let ghost before = all_modules(es.take(i as int));
            proof {
                assert(es.take(i as int + 1).drop_last() =~= es.take(i as int));
                assert(es.take(i as int + 1).last() == es[i as int]);
                lemma_all_modules_prefix(es, i as int + 1);
            }
            let mut j: usize = 0;
            while j < rows.len()
                invariant
                    j <= rows.len(),
                    rows@ == es[i as int].1,
                    all_modules(es.take(i as int + 1)).len() <= all_modules(es).len(),
                    count == count_module_hits(before + rows@.take(j as int), filter_value@),
                    count <= before.len() + j,
                    before == all_modules(es.take(i as int)),
                    all_modules(es.take(i as int + 1)) == before + rows@,
                    all_modules(es).len() <= usize::MAX,
                decreases rows.len() - j,
            {
                proof {
                    assert((before + rows@.take(j as int + 1)).drop_last() =~= before + rows@.take(j as int));
                    assert((before + rows@.take(j as int + 1)).last() == rows@[j as int]);
                }
                if filter_hit_exec(rows[j].name.as_str(), filter_value) || filter_hit_exec(rows[j].descr.as_str(), filter_value) {
                    count = count + 1;
                }
                j = j + 1;
            }
            assert(rows@.take(rows.len() as int) =~= rows@);
            i = i + 1;
        }
        assert(es.take(n as int) =~= es);
        count
    }

    /// Number of modules over all groups, or `None` when it does not fit in a `usize`.
    pub fn module_total(&self) -> (r: Option<usize>)
        ensures
            r is Some <==> all_modules(group_entries(self.module_groups)).len() <= usize::MAX,
            r is Some ==> r->0 == all_modules(group_entries(self.module_groups)).len(),
    {
        let ghost es = group_entries(self.module_groups);
        let n = groups_len(&self.module_groups);
        let mut total: usize = 0;
        let mut i: usize = 0;
        while i < n
            invariant
                i <= n,
                n == es.len(),
                es == group_entries(self.module_groups),
                total == all_modules(es.take(i as int)).len(),
            decreases n - i,
        {
            let (_, rows) = groups_get_index(&self.module_groups, i).unwrap();
            proof {
                assert(es.take(i as int + 1).drop_last() =~= es.take(i as int));
                assert(es.take(i as int + 1).last() == es[i as int]);
                lemma_all_modules_prefix(es, i as int + 1);
            }
            match total.checked_add(rows.len()) {
                Some(t) => {
                    total = t;
                },
                None => {
                    proof {
                        lemma_all_modules_prefix(es, i as int + 1);
                    }
                    return None;
                },
            }
            i = i + 1;
        }
        assert(es.take(n as int) =~= es);
        Some(total)
    }

    /// Number of modules, over all groups, that pass the filter; `None` when the number of
    /// modules does not fit in a `usize` (where counting them would overflow).
    pub fn checked_filtered_module_count(&self, filter_value: &str) -> (r: Option<usize>)
        ensures
            r is Some <==> all_modules(group_entries(self.module_groups)).len() <= usize::MAX,
            r is Some ==> r->0 == count_module_hits(all_modules(group_entries(self.module_groups)), filter_value@),
    {
        match self.module_total() {
            Some(_) => Some(self.filtered_module_count(filter_value)),
            None => None,
        }
    }

    /// Opens the staging dialog to add modules to the profile being edited: every module of
    /// every group, unchecked (see `staged_from_module`); the profile details close.
    pub fn enter_profile_module_staging(&mut self)
        ensures
            staged_views(final(self).staged@) == all_modules(group_entries(old(self).module_groups)).map_values(
                |r: ModuleRow| staged_from_module(r),
            ),
            final(self).profiles == (ProfilesManager { detail_visible: false, ..old(self).profiles }),
            *final(self) == (RepoManager {
                staged: final(self).staged,
                staging_cursor: 0,
                staging_scroll: 0,
                staging_focus: StagingFocus::List,
                staging_mode: StagingMode::ProfileModuleAdd,
                profiles: final(self).profiles,
                staging: true,
                delete_mode: false,
                ..*old(self)
            }),
    {
        let ghost es = group_entries(self.module_groups);
        let n = groups_len(&self.module_groups);
        let mut staged: Vec<StagedModule> = Vec::new();
        let mut i: usize = 0;
        while i < n
            invariant
                i <= n,
                n == es.len(),
                es == group_entries(self.module_groups),
                staged_views(staged@) == all_modules(es.take(i as int)).map_values(|r: ModuleRow| staged_from_module(r)),
            decreases n - i,
        {
            let (_, rows) = groups_get_index(&self.module_groups, i).unwrap();
            let ghost before = all_modules(es.take(i as int));
            proof {
                assert(es.take(i as int + 1).drop_last() =~= es.take(i as int));
                assert(es.take(i as int + 1).last() == es[i as int]);
            }
            let mut j: usize = 0;
            while j < rows.len()
                invariant
                    j <= rows.len(),
                    rows@ == es[i as int].1,
                    staged_views(staged@) == (before + rows@.take(j as int)).map_values(|r: ModuleRow| staged_from_module(r)),
                decreases rows.len() - j,
            {
                let r = &rows[j];
                let s = StagedModule {
                    name: string_from(r.name.as_str()),
                    version: copy_opt(&r.version),
                    descr: string_from(r.descr.as_str()),
                    path: String::new(),
                    checked: false,
                    platform: Some(string_from(r.platform.as_str())),
                    arch: Some(string_from(r.arch.as_str())),
                };
                let ghost sv = staged_views(staged@);
                staged.push(s);
                proof {
                    assert(staged_views(staged@) =~= sv.push(staged_from_module(rows@[j as int])));
                    assert((before + rows@.take(j as int + 1)).map_values(|r: ModuleRow| staged_from_module(r)) =~= (before
                        + rows@.take(j as int)).map_values(|r: ModuleRow| staged_from_module(r)).push(
                        staged_from_module(rows@[j as int]),
                    ));
                }
                j = j + 1;
            }
            assert(rows@.take(rows.len() as int) =~= rows@);
            i = i + 1;
        }
        assert(es.take(n as int) =~= es);
        self.staged = staged;
        self.staging_cursor = 0;
        self.staging_scroll = 0;
        self.staging_focus = StagingFocus::List;
        self.staging_mode = StagingMode::ProfileModuleAdd;
        self.profiles.detail_visible = false;
        self.staging = true;
        self.delete_mode = false;
    }

    /// Opens the staging dialog to add libraries to the profile being edited: every library,
    /// unchecked (see `staged_from_library`); the profile details close.
    pub fn enter_profile_library_staging(&mut self)
        ensures
            staged_views(final(self).staged@) == old(self).lib_rows@.map_values(|r: LibraryRow| staged_from_library(r)),
            final(self).profiles == (ProfilesManager { detail_visible: false, ..old(self).profiles }),
            *final(self) == (RepoManager {
                staged: final(self).staged,
                staging_cursor: 0,
                staging_scroll: 0,
                staging_focus: StagingFocus::List,
                staging_mode: StagingMode::ProfileLibraryAdd,
                profiles: final(self).profiles,
                staging: true,
                delete_mode: false,
                ..*old(self)
            }),
    {
        let mut staged: Vec<StagedModule> = Vec::new();
        let mut j: usize = 0;
        while j < self.lib_rows.len()
            invariant
                j <= self.lib_rows.len(),
                staged_views(staged@) == self.lib_rows@.take(j as int).map_values(|r: LibraryRow| staged_from_library(r)),
            decreases self.lib_rows.len() - j,
        {
            let r = &self.lib_rows[j];
            let s = StagedModule {
                name: string_from(r.name.as_str()),
                version: Some(string_from(r.kind.as_str())),
                descr: string_from(r.checksum.as_str()),
                path: String::new(),
                checked: false,
                platform: None,
                arch: None,
            };
            let ghost sv = staged_views(staged@);
            staged.push(s);
            proof {
                assert(staged_views(staged@) =~= sv.push(staged_from_library(self.lib_rows@[j as int])));
                assert(self.lib_rows@.take(j as int + 1).map_values(|r: LibraryRow| staged_from_library(r)) =~= self.lib_rows@.take(
                    j as int,
                ).map_values(|r: LibraryRow| staged_from_library(r)).push(staged_from_library(self.lib_rows@[j as int])));
            }
            j = j + 1;
        }
        assert(self.lib_rows@.take(self.lib_rows.len() as int) =~= self.lib_rows@);
        self.staged = staged;
        self.staging_cursor = 0;
        self.staging_scroll = 0;
        self.staging_focus = StagingFocus::List;
        self.staging_mode = StagingMode::ProfileLibraryAdd;
        self.profiles.detail_visible = false;
        self.staging = true;
        self.delete_mode = false;
    }

    /// A key on the staging dialog, see `staging_key`; not used while the dialog is closed.
    pub fn handle_staging_key(&mut self, key: KeyEvent) -> (used: bool)
        ensures
            used == old(self).staging,
            !used ==> *final(self) == *old(self),
            used ==> staging_key(*old(self), key.code, *final(self)),
    {
        if !self.staging {
            return false;
        }
        let code = key.code;
        if code == KeyCode::Esc {
            self.exit_staging();
        } else if code == KeyCode::Tab {
            self.staging_focus = match self.staging_focus {
                StagingFocus::List => StagingFocus::AddSelected,
                StagingFocus::AddSelected => if self.delete_mode { StagingFocus::CrossPlatformDelete } else { StagingFocus::Cancel },
                StagingFocus::CrossPlatformDelete => StagingFocus::Cancel,
                StagingFocus::Cancel => StagingFocus::List,
            };
        } else if code == KeyCode::BackTab {
            self.staging_focus = match self.staging_focus {
                StagingFocus::List => StagingFocus::Cancel,
                StagingFocus::AddSelected => StagingFocus::List,
                StagingFocus::Cancel => if self.delete_mode { StagingFocus::CrossPlatformDelete } else { StagingFocus::AddSelected },
                StagingFocus::CrossPlatformDelete => StagingFocus::AddSelected,
            };
        } else if code == KeyCode::Char(' ') && self.staging_focus == StagingFocus::CrossPlatformDelete {
            self.cross_platform_delete = !self.cross_platform_delete;
        } else if code == KeyCode::Up && self.staging_focus == StagingFocus::List {
            self.staging_cursor = self.staging_cursor.saturating_sub(1);
        } else if code == KeyCode::Down && self.staging_focus == StagingFocus::List {
            let max = self.staged.len().saturating_sub(1);
            let c = self.staging_cursor.saturating_add(1);
            self.staging_cursor = if c < max { c } else { max };
        } else if code == KeyCode::Char(' ') && self.staging_focus == StagingFocus::List {
            let c = self.staging_cursor;
            if c < self.staged.len() {
                let ghost s0 = self.staged@;
                let mut m = self.staged.remove(c);
                m.checked = !m.checked;
                self.staged.insert(c, m);
                assert(self.staged@ =~= s0.update(c as int, StagedModule { checked: !s0[c as int].checked, ..s0[c as int] }));
            }
        } else if code == KeyCode::Enter && self.staging_focus == StagingFocus::AddSelected {
            if self.delete_mode {
                self.bulk_delete_triggered = true;
            } else {
                self.bulk_add_triggered = true;
            }
        } else if code == KeyCode::Enter && self.staging_focus == StagingFocus::Cancel {
            self.exit_staging();
        }
        true
    }

    /// A key on the information popup, see `info_key`; not used while the popup is closed.
    pub fn handle_info_key(&mut self, key: KeyEvent) -> (used: bool)
        ensures
            used == old(self).info_visible,
            !used ==> *final(self) == *old(self),
            used ==> *final(self) == info_key(*old(self), key.code),
    {
        if !self.info_visible {
            return false;
        }
        let code = key.code;
        if code == KeyCode::Esc || code == KeyCode::Enter {
            self.info_visible = false;
        } else if code == KeyCode::Left && self.info_active_tab == 0 {
            self.info_tab = self.info_tab.saturating_sub(1);
            self.info_scroll = 0;
        } else if code == KeyCode::Right && self.info_active_tab == 0 {
            self.info_tab = if self.info_tab < 2 { self.info_tab + 1 } else { 3 };
            self.info_scroll = 0;
        } else if code == KeyCode::Up || code == KeyCode::PageUp {
            let step: usize = if code == KeyCode::Up { 1 } else { 10 };
            self.info_scroll = self.info_scroll.saturating_sub(step);
        } else if code == KeyCode::Down || code == KeyCode::PageDown {
            let step: usize = if code == KeyCode::Down { 1 } else { 10 };
            self.info_scroll = self.info_scroll.saturating_add(step);
        }
        true
    }

    /// A key on the repository filter while it has the focus, see `repo_filter_key`.
    pub fn handle_filter_key(&mut self, key: KeyCode)
        requires
            input_room(old(self).filter),
        ensures
            repo_filter_key(*old(self), key, *final(self)),
    {
        if key == KeyCode::Esc || key == KeyCode::Down || key == KeyCode::Tab || key == KeyCode::BackTab {
            self.filter_focus = false;
            self.group_cursor_row = 0;
        } else {
            match key {
                KeyCode::Char(_) | KeyCode::Backspace | KeyCode::Delete | KeyCode::Left | KeyCode::Right | KeyCode::Home
                | KeyCode::End => {
                    edit_input(key, &mut self.filter);
                },
                _ => {},
            }
        }
    }
}


/// What the staging dialog asked for once a button was pressed.
pub enum StagingRequest {
    /// Add was pressed with no row checked.
    NothingSelected,
    /// Add the checked rows, in the dialog's mode.
    Add { mode: StagingMode, items: Vec<StagedModule> },
    /// Delete the checked rows, in the dialog's mode, on every platform or only on theirs.
    Delete { mode: StagingMode, cross_platform: bool, items: Vec<StagedModule> },
}

/// The checked rows, in order.
pub open spec fn checked_rows(v: Seq<StagedModule>) -> Seq<StagedView>
    decreases v.len(),
{
    if v.len() == 0 {
        Seq::<StagedView>::empty()
    } else {
        let r = checked_rows(v.drop_last());
        if v.last().checked { r.push(staged_view(v.last())) } else { r }
    }
}

fn checked_exec(v: &Vec<StagedModule>) -> (r: Vec<StagedModule>)
    ensures
        staged_views(r@) == checked_rows(v@),
{
    let mut r: Vec<StagedModule> = Vec::new();
    let mut i: usize = 0;
    while i < v.len()
        invariant
            i <= v.len(),
            staged_views(r@) == checked_rows(v@.take(i as int)),
        decreases v.len() - i,
    {
        proof {
            assert(v@.take(i as int + 1).drop_last() =~= v@.take(i as int));
        }
        if v[i].checked {
            let ghost rv = staged_views(r@);
            r.push(v[i].copy());
            assert(staged_views(r@) =~= rv.push(staged_view(v@[i as int])));
        }
        i = i + 1;
    }
    assert(v@.take(v.len() as int) =~= v@);
    r
}

/// The group cursor after moving up one row in the module tree: within a group up to its
/// header; from a header to the previous group (wrapping), on its last module when it is
/// expanded, else on its header.
pub open spec fn module_up(m: RepoManager) -> Option<(int, int)> {
    let n = m.group_order@.len();
    if m.group_cursor_row > 0 {
        Some((m.group_cursor as int, m.group_cursor_row - 1))
    } else if n == 0 {
        None
    } else {
        let gc = (m.group_cursor + n - 1) % (n as int);
        Some((gc, 0))
    }
}

/// The module tree after moving up one row, see `module_up`.
pub open spec fn module_up_result(o: RepoManager, n: RepoManager) -> bool {
    &&& (module_up(o) is None ==> n == o)
    &&& (module_up(o) matches Some((gc, row)) ==> {
                &&& n.group_cursor == gc
                &&& (o.group_cursor_row > 0 ==> n.group_cursor_row == row)
                &&& (o.group_cursor_row == 0 ==> {
                    let expanded = gc < o.group_expanded@.len() && o.group_expanded@[gc];
                    let name = o.group_order@[gc]@;
                    if expanded && has_group(group_entries(o.module_groups), name) {
                        exists|rows: Seq<ModuleRow>|
                            group_named(group_entries(o.module_groups), name, rows) && n.group_cursor_row
                                == rows.len()
                    } else {
                        n.group_cursor_row == 0
                    }
                })
                &&& n == (RepoManager {
                    group_cursor: n.group_cursor,
                    group_cursor_row: n.group_cursor_row,
                    ..o
                })
            })
}

/// The module tree after moving down one row: into and through the focused group's modules
/// while it is expanded, else to the next group's header, wrapping.
pub open spec fn module_down_result(o: RepoManager, n: RepoManager) -> bool {
    &&& (o.group_order@.len() == 0 ==> n == o)
    &&& (o.group_order@.len() > 0 ==> {
                let cnt = o.group_order@.len();
                let gc = (o.group_cursor as int) % (cnt as int);
                let expanded = gc < o.group_expanded@.len() && o.group_expanded@[gc];
                let stays = expanded && focused_name(o) is Some && exists|rows: Seq<ModuleRow>|
                    group_named(group_entries(o.module_groups), focused_name(o)->0, rows)
                        && o.group_cursor_row < rows.len();
                let leaves = !expanded || focused_name(o) is None || !has_group(
                    group_entries(o.module_groups),
                    focused_name(o)->0,
                ) || exists|rows: Seq<ModuleRow>|
                    group_named(group_entries(o.module_groups), focused_name(o)->0, rows)
                        && o.group_cursor_row >= rows.len();
                &&& (stays || leaves)
                &&& (n == (RepoManager { group_cursor_row: (o.group_cursor_row + 1) as usize, ..o })
                    && stays) || (n == (RepoManager {
                    group_cursor: ((o.group_cursor + 1) % (cnt as int)) as usize,
                    group_cursor_row: 0,
                    ..o
                }) && leaves)
            })
}

impl RepoManager {
    /// Takes what the staging dialog asked for: for add, then for delete, the checked rows (or
    /// that none is checked); a request with rows closes the dialog. The triggers are reset.
    pub fn take_staging_requests(&mut self) -> (r: Vec<StagingRequest>)
        ensures
            !final(self).bulk_add_triggered && !final(self).bulk_delete_triggered,
            r@.len() == (if old(self).bulk_add_triggered { 1int } else { 0 }) + (if old(self).bulk_delete_triggered { 1int } else { 0 }),
            old(self).bulk_add_triggered ==> (if checked_rows(old(self).staged@).len() == 0 {
                r@[0] is NothingSelected
            } else {
                r@[0] matches StagingRequest::Add { mode, items } && mode == old(self).staging_mode && staged_views(items@)
                    == checked_rows(old(self).staged@)
            }),
            old(self).bulk_add_triggered && checked_rows(old(self).staged@).len() > 0 && old(self).bulk_delete_triggered ==> r@[1] is NothingSelected,
            old(self).bulk_delete_triggered && !(old(self).bulk_add_triggered && checked_rows(old(self).staged@).len() > 0) ==> ({
                let k = if old(self).bulk_add_triggered { 1int } else { 0 };
                if checked_rows(old(self).staged@).len() == 0 {
                    r@[k] is NothingSelected
                } else {
                    r@[k] matches StagingRequest::Delete { mode, cross_platform, items } && mode == old(self).staging_mode
                        && cross_platform == old(self).cross_platform_delete && staged_views(items@) == checked_rows(old(self).staged@)
                }
            }),
            ({
                let any = (old(self).bulk_add_triggered || old(self).bulk_delete_triggered) && checked_rows(old(self).staged@).len() > 0;
                if any {
                    &&& final(self).staged@.len() == 0
                    &&& *final(self) == (RepoManager {
                        bulk_add_triggered: false,
                        bulk_delete_triggered: false,
                        staging: false,
                        delete_mode: false,
                        cross_platform_delete: false,
                        staged: final(self).staged,
                        ..*old(self)
                    })
                } else {
                    *final(self) == (RepoManager { bulk_add_triggered: false, bulk_delete_triggered: false, ..*old(self) })
                }
            }),
    {
        let mut out: Vec<StagingRequest> = Vec::new();
        let ghost o = *self;
        if self.bulk_add_triggered {
            self.bulk_add_triggered = false;
            let checked = checked_exec(&self.staged);
            if checked.len() == 0 {
                out.push(StagingRequest::NothingSelected);
            } else {
                self.exit_staging();
                out.push(StagingRequest::Add { mode: self.staging_mode, items: checked });
            }
        }
        if self.bulk_delete_triggered {
            self.bulk_delete_triggered = false;
            let checked = checked_exec(&self.staged);
            if checked.len() == 0 {
                out.push(StagingRequest::NothingSelected);
            } else {
                let mode = self.staging_mode;
                let cross = self.cross_platform_delete;
                self.exit_staging();
                out.push(StagingRequest::Delete { mode, cross_platform: cross, items: checked });
            }
        }
        proof {
            if o.bulk_add_triggered && checked_rows(o.staged@).len() > 0 && o.bulk_delete_triggered {
                assert(checked_rows(Seq::<StagedModule>::empty()) =~= Seq::<StagedView>::empty());
            }
        }
        out
    }

    /// Moves up one row in the module tree, see `module_up`.
    #[verifier::spinoff_prover]
    #[verifier::rlimit(40)]
    pub fn move_module_up(&mut self)
        ensures
            module_up_result(*old(self), *final(self)),
    {
        if self.group_cursor_row > 0 {
            self.group_cursor_row = self.group_cursor_row - 1;
            return;
        }
        let n = self.group_order.len();
        if n == 0 {
            return;
        }
        let gc = wrap_prev(self.group_cursor, n);
        self.group_cursor = gc;
        let expanded = gc < self.group_expanded.len() && self.group_expanded[gc];
        if expanded {
            match self.focused_group_modules() {
                Some(rows) => {
                    self.group_cursor_row = rows.len();
                },
                None => {
                    self.group_cursor_row = 0;
                },
            }
        } else {
            self.group_cursor_row = 0;
        }
    }

    /// Moves down one row in the module tree: into and through the focused group's modules while
    /// it is expanded (see `module_down_stays`), else to the next group's header, wrapping.
    #[verifier::spinoff_prover]
    #[verifier::rlimit(40)]
    pub fn move_module_down(&mut self)
        ensures
            module_down_result(*old(self), *final(self)),
    {
        let n = self.group_order.len();
        if n == 0 {
            return;
        }
        let gc = self.group_cursor % n;
        let expanded = gc < self.group_expanded.len() && self.group_expanded[gc];
        let rows_len: Option<usize> = match self.focused_group_modules() {
            Some(rows) => Some(rows.len()),
            None => None,
        };
        let stay = match rows_len {
            Some(l) => expanded && self.group_cursor_row < l,
            None => false,
        };
        if stay {
            self.group_cursor_row = self.group_cursor_row + 1;
        } else {
            self.group_cursor = wrap_next(self.group_cursor, n);
            self.group_cursor_row = 0;
        }
    }
}


/// Index of the group named `key`, -1 when there is none.
pub open spec fn find_group(gs: Seq<(Seq<char>, Seq<ModuleRow>)>, key: Seq<char>) -> int
    decreases gs.len(),
{
    if gs.len() == 0 {
        -1
    } else if gs.last().0 == key {
        gs.len() - 1
    } else {
        find_group(gs.drop_last(), key)
    }
}

proof fn lemma_find_group(gs: Seq<(Seq<char>, Seq<ModuleRow>)>, key: Seq<char>)
    ensures
        -1 <= find_group(gs, key) < gs.len(),
        find_group(gs, key) >= 0 ==> gs[find_group(gs, key)].0 == key,
        find_group(gs, key) < 0 ==> forall|i: int| 0 <= i < gs.len() ==> gs[i].0 != key,
    decreases gs.len(),
{
    if gs.len() > 0 && gs.last().0 != key {
        lemma_find_group(gs.drop_last(), key);
        assert forall|i: int| 0 <= i < gs.len() - 1 implies gs[i] == gs.drop_last()[i] by {}
    }
}

/// The groups after a module (or, with `None`, just a group name) comes in under `key`: into
/// the group of that name, or a new group at the end.
pub open spec fn group_add(gs: Seq<(Seq<char>, Seq<ModuleRow>)>, key: Seq<char>, row: Option<ModuleRow>) -> Seq<(Seq<char>, Seq<ModuleRow>)> {
    let i = find_group(gs, key);
    if i >= 0 {
        match row {
            Some(r) => gs.update(i, (key, gs[i].1.push(r))),
            None => gs,
        }
    } else {
        gs.push((key, match row {
            Some(r) => seq![r],
            None => Seq::<ModuleRow>::empty(),
        }))
    }
}

/// The modules grouped by their keys, groups in the order their keys first come.
pub open spec fn grouped_rows(pairs: Seq<(String, ModuleRow)>) -> Seq<(Seq<char>, Seq<ModuleRow>)>
    decreases pairs.len(),
{
    if pairs.len() == 0 {
        Seq::empty()
    } else {
        group_add(grouped_rows(pairs.drop_last()), pairs.last().0@, Some(pairs.last().1))
    }
}

/// The groups with an empty group added for each extra name not yet there.
pub open spec fn with_extra_groups(gs: Seq<(Seq<char>, Seq<ModuleRow>)>, keys: Seq<Seq<char>>) -> Seq<(Seq<char>, Seq<ModuleRow>)>
    decreases keys.len(),
{
    if keys.len() == 0 {
        gs
    } else {
        group_add(with_extra_groups(gs, keys.drop_last()), keys.last(), None)
    }
}

/// `x` inserted behind every module whose name is not greater.
pub open spec fn insert_by_name(s: Seq<ModuleRow>, x: ModuleRow) -> Seq<ModuleRow>
    decreases s.len(),
{
    if s.len() == 0 {
        seq![x]
    } else if text_lt(x.name@, s.last().name@) {
        insert_by_name(s.drop_last(), x).push(s.last())
    } else {
        s.push(x)
    }
}

/// Modules sorted by name, equal names in the order they came (a stable sort).
pub open spec fn sorted_by_name(s: Seq<ModuleRow>) -> Seq<ModuleRow>
    decreases s.len(),
{
    if s.len() == 0 {
        s
    } else {
        insert_by_name(sorted_by_name(s.drop_last()), s.last())
    }
}

/// The groups with each group's modules sorted by name.
pub open spec fn sorted_groups(gs: Seq<(Seq<char>, Seq<ModuleRow>)>) -> Seq<(Seq<char>, Seq<ModuleRow>)> {
    gs.map_values(|g: (Seq<char>, Seq<ModuleRow>)| (g.0, sorted_by_name(g.1)))
}

pub open spec fn group_names(gs: Seq<(Seq<char>, Seq<ModuleRow>)>) -> Seq<Seq<char>> {
    gs.map_values(|g: (Seq<char>, Seq<ModuleRow>)| g.0)
}

proof fn lemma_group_add_distinct(gs: Seq<(Seq<char>, Seq<ModuleRow>)>, key: Seq<char>, row: Option<ModuleRow>)
    requires
        distinct_names(gs),
    ensures
        distinct_names(group_add(gs, key, row)),
        group_names(group_add(gs, key, row)) == (if find_group(gs, key) >= 0 { group_names(gs) } else { group_names(gs).push(key) }),
{
    lemma_find_group(gs, key);
    let r = group_add(gs, key, row);
    assert(group_names(r) =~= (if find_group(gs, key) >= 0 { group_names(gs) } else { group_names(gs).push(key) }));
}

proof fn lemma_name_insert_at(s: Seq<ModuleRow>, x: ModuleRow, p: int)
    requires
        0 <= p <= s.len(),
        forall|j: int| p <= j < s.len() ==> text_lt(x.name@, #[trigger] s[j].name@),
        p == 0 || !text_lt(x.name@, s[p - 1].name@),
    ensures
        insert_by_name(s, x) == s.take(p) + seq![x] + s.skip(p),
    decreases s.len(),
{
    if s.len() == 0 {
        assert(s.take(p) + seq![x] + s.skip(p) =~= seq![x]);
    } else if p == s.len() {
        assert(s.take(p) + seq![x] + s.skip(p) =~= s.push(x));
    } else {
        assert(text_lt(x.name@, s[s.len() - 1].name@));
        let t = s.drop_last();
        assert forall|j: int| p <= j < t.len() implies text_lt(x.name@, #[trigger] t[j].name@) by {
            assert(t[j] == s[j]);
        }
        if p > 0 {
            assert(t[p - 1] == s[p - 1]);
        }
        lemma_name_insert_at(t, x, p);
        assert((t.take(p) + seq![x] + t.skip(p)).push(s.last()) =~= s.take(p) + seq![x] + s.skip(p));
    }
}

/// Sorts modules by name, stably, see `sorted_by_name`.
fn sort_rows_by_name(v: Vec<ModuleRow>) -> (r: Vec<ModuleRow>)
    ensures
        r@ == sorted_by_name(v@),
{
    let ghost orig = v@;
    let mut v = v;
    let mut out: Vec<ModuleRow> = Vec::new();
    let ghost mut k: int = 0;
    while v.len() > 0
        invariant
            0 <= k,
            k + v@.len() == orig.len(),
            v@ == orig.skip(k),
            out@ == sorted_by_name(orig.take(k)),
        decreases v@.len(),
    {
        proof {
            assert(orig.take(k + 1).drop_last() =~= orig.take(k));
            assert(orig.take(k + 1).last() == orig[k]);
        }
        let x = v.remove(0);
        let xk = chars_of(x.name.as_str());
        let ghost ov = out@;
        let mut p = out.len();
        while p > 0 && text_less(&xk, &chars_of(out[p - 1].name.as_str()))
            invariant
                p <= out.len(),
                xk@ == x.name@,
                ov == out@,
                forall|j: int| p <= j < ov.len() ==> text_lt(x.name@, #[trigger] ov[j].name@),
            decreases p,
        {
            p = p - 1;
        }
        proof {
            lemma_name_insert_at(ov, x, p as int);
        }
        out.insert(p, x);
        proof {
            assert(out@ =~= ov.take(p as int) + seq![x] + ov.skip(p as int));
            assert(v@ =~= orig.skip(k + 1));
            k = k + 1;
        }
    }
    assert(orig.take(k) =~= orig);
    out
}

/// Where the group named `key` is in a list of groups being built, if it is there.
fn find_group_exec(gs: &Vec<(String, Vec<ModuleRow>)>, key: &Vec<char>) -> (r: Option<usize>)
    ensures
        r is Some ==> r->0 < gs@.len() && find_group(group_views(gs@), key@) == r->0,
        r is None ==> find_group(group_views(gs@), key@) == -1,
{
    let mut i = gs.len();
    assert(group_views(gs@).take(i as int) =~= group_views(gs@));
    while i > 0
        invariant
            i <= gs.len(),
            find_group(group_views(gs@), key@) == find_group(group_views(gs@).take(i as int), key@),
        decreases i,
    {
        let ghost t = group_views(gs@).take(i as int);
        assert(t.drop_last() =~= group_views(gs@).take(i - 1));
        let k = chars_of(gs[i - 1].0.as_str());
        if chars_eq(&k, key) {
            return Some(i - 1);
        }
        i = i - 1;
    }
    None
}

/// Group names and module sequences of the groups being built.
pub open spec fn group_views(gs: Seq<(String, Vec<ModuleRow>)>) -> Seq<(Seq<char>, Seq<ModuleRow>)> {
    gs.map_values(|g: (String, Vec<ModuleRow>)| (g.0@, g.1@))
}

fn group_add_exec(gs: &mut Vec<(String, Vec<ModuleRow>)>, key: String, row: Option<ModuleRow>)
    ensures
        group_views(final(gs)@) == group_add(group_views(old(gs)@), key@, row),
{
    let kc = chars_of(key.as_str());
    let ghost g0 = group_views(gs@);
    proof {
        lemma_find_group(g0, key@);
    }
    match find_group_exec(gs, &kc) {
        Some(i) => match row {
            Some(r) => {
                let (k, mut rows) = gs.remove(i);
                rows.push(r);
                gs.insert(i, (key, rows));
                assert(group_views(gs@) =~= g0.update(i as int, (key@, g0[i as int].1.push(r))));
            },
            None => {},
        },
        None => {
            let mut rows: Vec<ModuleRow> = Vec::new();
            match row {
                Some(r) => rows.push(r),
                None => {},
            }
            gs.push((key, rows));
            assert(group_views(gs@) =~= group_add(g0, key@, row));
        },
    }
}

impl RepoManager {
    /// Loads the module index: modules grouped by their keys (groups in the order their keys
    /// first come, then an empty group for each extra key not yet there), no two groups sharing
    /// a name, each group's modules sorted by name; the group order is the sorted names; the
    /// cursor goes to the first group's header and every group is collapsed.
    pub fn set_module_index(&mut self, rows: Vec<(String, ModuleRow)>, extra_keys: Vec<String>)
        ensures
            group_entries(final(self).module_groups) == sorted_groups(with_extra_groups(grouped_rows(rows@), extra_keys.deep_view())),
            distinct_names(group_entries(final(self).module_groups)),
            final(self).group_order.deep_view() == crate::sortutil::sorted_set(group_names(with_extra_groups(grouped_rows(rows@), extra_keys.deep_view()))),
            final(self).group_expanded@ == Seq::new(group_entries(final(self).module_groups).len(), |i: int| false),
            *final(self) == (RepoManager {
                module_groups: final(self).module_groups,
                group_order: final(self).group_order,
                group_cursor: 0,
                group_cursor_row: 0,
                group_expanded: final(self).group_expanded,
                ..*old(self)
            }),
    {
        let ghost orig = rows@;
        let mut rows = rows;
        let mut gs: Vec<(String, Vec<ModuleRow>)> = Vec::new();
        let ghost mut k: int = 0;
        while rows.len() > 0
            invariant
                0 <= k,
                k + rows@.len() == orig.len(),
                rows@ == orig.skip(k),
                group_views(gs@) == grouped_rows(orig.take(k)),
                distinct_names(group_views(gs@)),
            decreases rows@.len(),
        {
            proof {
                assert(orig.take(k + 1).drop_last() =~= orig.take(k));
                assert(orig.take(k + 1).last() == orig[k]);
                lemma_group_add_distinct(group_views(gs@), orig[k].0@, Some(orig[k].1));
            }
            let (key, r) = rows.remove(0);
            group_add_exec(&mut gs, key, Some(r));
            proof {
                assert(rows@ =~= orig.skip(k + 1));
                k = k + 1;
            }
        }
        assert(orig.take(k) =~= orig);
        let ghost base = group_views(gs@);
        let mut j: usize = 0;
        while j < extra_keys.len()
            invariant
                j <= extra_keys.len(),
                group_views(gs@) == with_extra_groups(base, extra_keys.deep_view().take(j as int)),
                distinct_names(group_views(gs@)),
            decreases extra_keys.len() - j,
        {
            proof {
                assert(extra_keys.deep_view().take(j as int + 1).drop_last() =~= extra_keys.deep_view().take(j as int));
                lemma_group_add_distinct(group_views(gs@), extra_keys@[j as int]@, None);
            }
            group_add_exec(&mut gs, string_from(extra_keys[j].as_str()), None);
            j = j + 1;
        }
        assert(extra_keys.deep_view().take(extra_keys.len() as int) =~= extra_keys.deep_view());
        let ghost all = group_views(gs@);
        let mut names: Vec<String> = Vec::new();
        let mut map = groups_new();
        let n = gs.len();
        let mut t: usize = 0;
        while gs.len() > 0
            invariant
                t + gs@.len() == n,
                n == all.len(),
                distinct_names(all),
                group_views(gs@) == all.skip(t as int),
                group_entries(map) == sorted_groups(all.take(t as int)),
                names.deep_view() == group_names(all.take(t as int)),
            decreases gs@.len(),
        {
            let ghost g = all[t as int];
            assert(group_views(gs@)[0] == g);
            let ghost gv = gs@;
            let (key, rs) = gs.remove(0);
            assert(group_views(gs@) =~= all.skip(t as int + 1)) by {
                assert forall|i: int| 0 <= i < gs@.len() implies group_views(gs@)[i] == all.skip(t as int + 1)[i] by {
                    assert(gs@[i] == gv[i + 1]);
                    assert(group_views(gv)[i + 1] == all.skip(t as int)[i + 1]);
                }
            }
            let sorted = sort_rows_by_name(rs);
            let ghost e0 = group_entries(map);
            proof {
                assert forall|i: int| 0 <= i < e0.len() implies e0[i].0 != key@ by {
                    assert(e0[i].0 == all[i].0);
                }
            }
            assert(key@ == g.0 && rs@ == g.1);
            assert(!(exists|i: int| 0 <= i < e0.len() && e0[i].0 == key@));
            let ghost nd = names.deep_view();
            names.push(string_from(key.as_str()));
            assert(names.deep_view() =~= nd.push(key@));
            groups_insert(&mut map, key, sorted);
            assert(group_entries(map) == e0.push((g.0, sorted_by_name(g.1))));
            proof {
                assert(all.take(t as int + 1).drop_last() =~= all.take(t as int));
                assert forall|i: int| 0 <= i < t + 1 implies #[trigger] sorted_groups(all.take(t as int + 1))[i] == group_entries(map)[i] by {
                    if i < t {
                        assert(all.take(t as int + 1)[i] == all.take(t as int)[i]);
                        assert(e0[i] == sorted_groups(all.take(t as int))[i]);
                    }
                }
                assert(group_entries(map) =~= sorted_groups(all.take(t as int + 1)));
                assert(names.deep_view() =~= group_names(all.take(t as int + 1)));
            }
            t = t + 1;
        }
        assert(all.take(n as int) =~= all);
        let order = crate::sortutil::sort_dedup(&names);
        let mut expanded: Vec<bool> = Vec::new();
        let mut e: usize = 0;
        while e < n
            invariant
                e <= n,
                expanded@ == Seq::new(e as nat, |i: int| false),
            decreases n - e,
        {
            expanded.push(false);
            assert(expanded@ =~= Seq::new((e + 1) as nat, |i: int| false));
            e = e + 1;
        }
        proof {
            assert forall|i: int, j: int|
                0 <= i < group_entries(map).len() && 0 <= j < group_entries(map).len() && i != j implies group_entries(map)[i].0
                != group_entries(map)[j].0 by {
                assert(group_entries(map)[i].0 == all[i].0);
                assert(group_entries(map)[j].0 == all[j].0);
            }
        }
        self.module_groups = map;
        self.group_order = order;
        self.group_cursor = 0;
        self.group_cursor_row = 0;
        self.group_expanded = expanded;
    }
}


/// The position before `a` among `n`, wrapping.
pub fn wrap_prev(a: usize, n: usize) -> (r: usize)
    requires
        n > 0,
    ensures
        r as int == (a + n - 1) % (n as int),
{
    let rem = a % n;
    let r = if rem == 0 { n - 1 } else { rem - 1 };
    proof {
        let ai = a as int;
        let ni = n as int;
        assert(ai == (ai / ni) * ni + ai % ni) by (nonlinear_arith)
            requires
                ni > 0,
        ;
        let q = ai / ni;
        assert((q + 1) * ni == q * ni + ni) by (nonlinear_arith);
        vstd::arithmetic::div_mod::lemma_fundamental_div_mod_converse(ai + ni - 1, ni, q + (if rem == 0 { 0int } else { 1 }), r as int);
    }
    r
}

/// The position after `a` among `n`, wrapping.
pub fn wrap_next(a: usize, n: usize) -> (r: usize)
    requires
        n > 0,
    ensures
        r as int == (a + 1) % (n as int),
{
    let rem = a % n;
    let r = if rem + 1 < n { rem + 1 } else { 0 };
    proof {
        let ai = a as int;
        let ni = n as int;
        assert(ai == (ai / ni) * ni + ai % ni) by (nonlinear_arith)
            requires
                ni > 0,
        ;
        let q = ai / ni;
        assert((q + 1) * ni == q * ni + ni) by (nonlinear_arith);
        vstd::arithmetic::div_mod::lemma_fundamental_div_mod_converse(ai + 1, ni, q + (if rem + 1 < n { 0int } else { 1 }), r as int);
    }
    r
}

impl RepoManager {
    /// Page up on the module tree: the previous group's header, wrapping.
    pub fn group_page_up(&mut self)
        ensures
            old(self).group_order@.len() == 0 ==> *final(self) == *old(self),
            old(self).group_order@.len() > 0 ==> *final(self) == (RepoManager {
                group_cursor: ((old(self).group_cursor + old(self).group_order@.len() - 1) % (old(self).group_order@.len() as int)) as usize,
                group_cursor_row: 0,
                ..*old(self)
            }),
    {
        let n = self.group_order.len();
        if n > 0 {
            self.group_cursor = wrap_prev(self.group_cursor, n);
            self.group_cursor_row = 0;
        }
    }

    /// Page down on the module tree: the next group's header, wrapping.
    pub fn group_page_down(&mut self)
        ensures
            old(self).group_order@.len() == 0 ==> *final(self) == *old(self),
            old(self).group_order@.len() > 0 ==> *final(self) == (RepoManager {
                group_cursor: ((old(self).group_cursor + 1) % (old(self).group_order@.len() as int)) as usize,
                group_cursor_row: 0,
                ..*old(self)
            }),
    {
        let n = self.group_order.len();
        if n > 0 {
            self.group_cursor = wrap_next(self.group_cursor, n);
            self.group_cursor_row = 0;
        }
    }

    /// Expands or collapses group `idx`, if there is one.
    pub fn toggle_group(&mut self, idx: usize)
        ensures
            idx < old(self).group_expanded@.len() ==> final(self).group_expanded@ == old(self).group_expanded@.update(
                idx as int,
                !old(self).group_expanded@[idx as int],
            ),
            idx >= old(self).group_expanded@.len() ==> final(self).group_expanded == old(self).group_expanded,
            *final(self) == (RepoManager { group_expanded: final(self).group_expanded, ..*old(self) }),
    {
        if idx < self.group_expanded.len() {
            let v = !self.group_expanded[idx];
            self.group_expanded.set(idx, v);
        }
    }
}


/// Bytes kept of a text too long for `max_w`: one less, for the ellipsis.
pub open spec fn cut_len(max_w: usize) -> nat {
    if max_w > 0 { (max_w - 1) as nat } else { 0 }
}

/// A character prefix of `s` that is exactly `n` bytes long.
pub open spec fn byte_prefix(s: Seq<char>, n: nat, k: int) -> bool {
    0 <= k <= s.len() && utf8_len(s.take(k)) == n
}

/// Truncates `s` to `max_w` bytes: unchanged when it fits, else its first `max_w - 1` bytes and
/// an ellipsis; the cut has to fall between two characters.
pub fn truncate_str(s: &str, max_w: usize) -> (r: String)
    requires
        utf8_len(s@) > max_w ==> exists|k: int| #[trigger] byte_prefix(s@, cut_len(max_w), k),
    ensures
        utf8_len(s@) <= max_w ==> r@ == s@,
        utf8_len(s@) > max_w ==> exists|k: int|
            #[trigger] byte_prefix(s@, cut_len(max_w), k) && r@ == s@.take(k).push('\u{2026}'),
{
    let v = chars_of(s);
    let total = utf8_len_wide(&v);
    if total <= max_w as u128 {
        return string_of(&v);
    }
    let m: u128 = if max_w > 0 { (max_w - 1) as u128 } else { 0 };
    let mut acc: u128 = 0;
    let mut i: usize = 0;
    let ghost kk = choose|k: int| byte_prefix(s@, m as nat, k);
    proof {
        lemma_utf8_prefix_mono(s@, kk);
    }
    while acc < m
        invariant
            i <= v.len(),
            v@ == s@,
            acc == utf8_len(v@.take(i as int)),
            byte_prefix(s@, m as nat, kk),
            acc < m ==> i < kk,
            i <= kk,
            forall|j: int| 0 <= j < kk ==> utf8_len(#[trigger] s@.take(j)) < m,
        decreases v.len() - i,
    {
        proof {
            assert(v@.take(i as int + 1).drop_last() =~= v@.take(i as int));
        }
        acc = acc + char_utf8_len_exec(v[i]) as u128;
        i = i + 1;
    }
    proof {
        if (i as int) < kk {
            assert(utf8_len(s@.take(i as int)) < m);
        }
        assert(i as int == kk);
    }
    let mut out = slice_chars(&v, 0, i);
    out.push('\u{2026}');
    assert(out@ =~= s@.take(kk).push('\u{2026}'));
    string_of(&out)
}

/// Byte lengths of character prefixes grow with the prefix.
proof fn lemma_utf8_prefix_mono(s: Seq<char>, k: int)
    requires
        0 <= k <= s.len(),
    ensures
        forall|j: int| 0 <= j < k ==> utf8_len(#[trigger] s.take(j)) < utf8_len(s.take(k)),
    decreases k,
{
    if k > 0 {
        lemma_utf8_prefix_mono(s, k - 1);
        assert(s.take(k).drop_last() =~= s.take(k - 1));
    }
}

} // verus!
