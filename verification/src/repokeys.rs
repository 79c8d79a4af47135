use crate::chars::{filter_hit, filter_hit_exec, string_from};
use crate::keys::{KeyCode, KeyEvent};
use crate::listnav::list_move;
use crate::platforms::{DeleteFocus, PlatformsManager};
use crate::profiles::{count_hits, ProfCreateFocus, ProfDeleteFocus, ProfDetailFocus, ProfilesManager};
use crate::repomanager::{
    all_modules,
    focused_row_module, group_entries, info_key, module_down_result, module_up_result, opt_view, repo_filter_key,
    staged_from_library, staged_from_module, staged_views, staging_key, rows_named, has_group, focused_name, LibraryRow,
    ModuleRow, RepoManager, StagedModule, StagingFocus, StagingMode,
};
use crate::textinput::{input_room, input_text, input_value};
use vstd::prelude::*;

verus! {

/// What the application has to do after a key on the repository manager.
pub enum RepoAction {
    /// The manager is hidden and did not take the key.
    Ignored,
    Nothing,
    /// A button of the staging dialog asked for adding or deleting: take the requests
    /// (`take_staging_requests`), run them, then call `after_staging`.
    StagingRequested,
    /// The manager was closed.
    Closed,
    /// The tab switched to needs its rows loaded (1 libraries, 2 profiles, 3 platforms).
    LoadTab(u8),
    /// Load the details of this profile and show them (`ProfilesManager::enter_detail`).
    OpenProfile(String),
    /// Create a profile with this name.
    CreateProfile(String),
    /// Delete this profile.
    DeleteProfile(String),
    /// Remove this platform (`platform/arch`).
    RemovePlatform(String),
    /// Open the file picker to add artefacts to this tab.
    AddArtefacts(u8),
    /// The key asks for something not available on this tab: the error alert says so.
    NotImplemented,
}

/// Which part of the manager takes a key: the first of these that is open.
#[derive(Debug, Clone, Copy, PartialEq, Eq, Structural)]
pub enum RepoRoute {
    Hidden,
    Staging,
    Info,
    Filter,
    ProfileDelete,
    ProfileCreate,
    ProfileDetail,
    PlatformDelete,
    List,
}

/// The part of the manager that takes a key: the staging dialog, the information popup, the
/// filter, then (on the profiles tab) the profile delete, create and detail overlays, then (on
/// the platforms tab) the platform delete overlay, and else the list of the tab.
pub open spec fn repo_route(o: RepoManager) -> RepoRoute {
    if !o.visible {
        RepoRoute::Hidden
    } else if o.staging {
        RepoRoute::Staging
    } else if o.info_visible {
        RepoRoute::Info
    } else if o.filter_focus {
        RepoRoute::Filter
    } else if o.active_tab == 2 && o.profiles.delete_visible {
        RepoRoute::ProfileDelete
    } else if o.active_tab == 2 && o.profiles.create_visible {
        RepoRoute::ProfileCreate
    } else if o.active_tab == 2 && o.profiles.detail_visible {
        RepoRoute::ProfileDetail
    } else if o.active_tab == 3 && o.platforms.delete_visible {
        RepoRoute::PlatformDelete
    } else {
        RepoRoute::List
    }
}

/// A library passes the filter when its name or its kind does.
pub open spec fn library_hit(r: LibraryRow, filter: Seq<char>) -> bool {
    filter_hit(r.name@, filter) || filter_hit(r.kind@, filter)
}

/// Number of libraries that pass the filter.
pub open spec fn count_library_hits(rows: Seq<LibraryRow>, filter: Seq<char>) -> nat
    decreases rows.len(),
{
    if rows.len() == 0 {
        0
    } else {
        count_library_hits(rows.drop_last(), filter) + if library_hit(rows.last(), filter) { 1nat } else { 0nat }
    }
}

/// A tab switched to: every cursor back to the top.
pub open spec fn tab_switched(o: RepoManager, t: u8) -> RepoManager {
    RepoManager {
        active_tab: t,
        group_cursor: 0,
        group_cursor_row: 0,
        lib_cursor: 0,
        profiles: ProfilesManager { cursor: 0, ..o.profiles },
        platforms: PlatformsManager { cursor: 0, ..o.platforms },
        ..o
    }
}

/// The tabs whose rows are loaded when switched to: libraries, profiles and platforms.
pub open spec fn tab_load(t: u8) -> RepoAction {
    if 1 <= t <= 3 {
        RepoAction::LoadTab(t)
    } else {
        RepoAction::Nothing
    }
}

/// The library cursor after a cursor key on the libraries tab (ten rows a page), kept on the
/// libraries that pass the filter.
pub open spec fn lib_cursor_after(c: usize, key: KeyCode, hits: nat) -> usize {
    let max: int = if hits > 0 { hits - 1 } else { 0 };
    let up = |step: int| (if c > step { c - step } else { 0 }) as usize;
    let down = |step: int| (if c + step < max { c + step } else { max }) as usize;
    match key {
        KeyCode::Up => up(1),
        KeyCode::PageUp => up(10),
        KeyCode::Down => down(1),
        KeyCode::PageDown => down(10),
        _ => c,
    }
}

/// The information popup opened on row `row` of tab `tab`, on its first page.
pub open spec fn info_opened(o: RepoManager, row: usize, tab: u8) -> RepoManager {
    RepoManager { info_visible: true, info_row: row, info_tab: 0, info_scroll: 0, info_active_tab: tab, ..o }
}

/// The staging dialog opened to delete `staged` in `mode`, on the first row of its list.
pub open spec fn delete_staging(o: RepoManager, n: RepoManager, mode: StagingMode) -> bool {
    n == (RepoManager {
        staged: n.staged,
        delete_mode: true,
        cross_platform_delete: false,
        staging_mode: mode,
        staging: true,
        staging_cursor: 0,
        staging_focus: StagingFocus::List,
        ..o
    })
}

/// The profile overlays that take a key other than Enter change only the profiles.
pub open spec fn only_profiles(o: RepoManager, n: RepoManager) -> bool {
    n == (RepoManager { profiles: n.profiles, ..o })
}

/// The module tree after a cursor or page key: one row up or down (see `module_up_result` and
/// `module_down_result`), or a page to the previous or next group's header, wrapping.
pub open spec fn tree_move(o: RepoManager, k: KeyCode, n: RepoManager) -> bool {
    let cnt = o.group_order@.len();
    if k == KeyCode::Up {
        module_up_result(o, n)
    } else if k == KeyCode::Down {
        module_down_result(o, n)
    } else if cnt == 0 {
        n == o
    } else if k == KeyCode::PageUp {
        n == (RepoManager { group_cursor: ((o.group_cursor + cnt - 1) % (cnt as int)) as usize, group_cursor_row: 0, ..o })
    } else {
        n == (RepoManager { group_cursor: ((o.group_cursor + 1) % (cnt as int)) as usize, group_cursor_row: 0, ..o })
    }
}

/// The profiles after a cursor or page key: the cursor moves over the profiles that pass the
/// filter, ten a page.
pub open spec fn profiles_move(o: RepoManager, k: KeyCode, n: RepoManager) -> bool {
    let m = list_move(o.profiles.cursor as nat, k, count_hits(o.profiles.profiles@, input_text(o.filter)), 10);
    &&& only_profiles(o, n)
    &&& n.profiles.cursor == (if m is Some { m->0 } else { o.profiles.cursor as nat })
    &&& n.profiles.profiles == o.profiles.profiles
    &&& n.profiles.detail_visible == o.profiles.detail_visible
    &&& n.profiles.create_visible == o.profiles.create_visible
    &&& n.profiles.delete_visible == o.profiles.delete_visible
}

/// The platforms after a cursor or page key: the cursor moves over all rows, ten a page.
pub open spec fn platforms_move(o: RepoManager, k: KeyCode, n: RepoManager) -> bool {
    let m = list_move(o.platforms.cursor as nat, k, o.platforms.rows@.len(), 10);
    &&& n == (RepoManager { platforms: n.platforms, ..o })
    &&& n.platforms.cursor == (if m is Some { m->0 } else { o.platforms.cursor as nat })
    &&& n.platforms.rows == o.platforms.rows
    &&& n.platforms.delete_visible == o.platforms.delete_visible
}

/// A cursor or page key on the list of the current tab.
#[verifier::opaque]
pub open spec fn list_move_spec(o: RepoManager, k: KeyCode, n: RepoManager) -> bool {
    let tab = o.active_tab;
    if tab == 0 {
        tree_move(o, k, n)
    } else if tab == 1 {
        n == (RepoManager {
            lib_cursor: lib_cursor_after(o.lib_cursor, k, count_library_hits(o.lib_rows@, input_text(o.filter))),
            ..o
        })
    } else if tab == 2 {
        profiles_move(o, k, n)
    } else if tab == 3 {
        platforms_move(o, k, n)
    } else {
        n == o
    }
}

/// Enter on the list: on the modules tab a group header expands or collapses and a module opens
/// the information popup; on the libraries tab a library opens it; on the profiles tab the
/// profile under the cursor is to be opened.
#[verifier::opaque]
pub open spec fn list_enter_spec(o: RepoManager, n: RepoManager, r: RepoAction) -> bool {
    let tab = o.active_tab;
    if tab == 2 {
        &&& n == o
        &&& if o.profiles.cursor < o.profiles.profiles@.len() {
            r matches RepoAction::OpenProfile(name) && name@ == o.profiles.profiles@[o.profiles.cursor as int]@
        } else {
            r == RepoAction::Nothing
        }
    } else if tab == 0 {
        &&& r == RepoAction::Nothing
        &&& if o.group_cursor_row == 0 {
            n == (RepoManager { group_expanded: n.group_expanded, ..o }) && (if o.group_cursor < o.group_expanded@.len() {
                n.group_expanded@ == o.group_expanded@.update(o.group_cursor as int, !o.group_expanded@[o.group_cursor as int])
            } else {
                n.group_expanded == o.group_expanded
            })
        } else if focused_row_module(o, o.group_cursor_row as int) is Some {
            n == info_opened(o, o.group_cursor_row, 0)
        } else {
            n == o
        }
    } else if tab == 1 && o.lib_rows@.len() > 0 {
        n == info_opened(o, o.lib_cursor, 1) && r == RepoAction::Nothing
    } else {
        n == o && r == RepoAction::Nothing
    }
}

/// Delete on the list: the delete overlay of the platform or the profile under the cursor, or
/// the staging dialog to delete the libraries or the focused group's modules.
#[verifier::opaque]
pub open spec fn list_delete_spec(o: RepoManager, n: RepoManager) -> bool {
    let tab = o.active_tab;
    if tab == 3 {
        if o.platforms.cursor < o.platforms.rows@.len() {
            let row = o.platforms.rows@[o.platforms.cursor as int];
            n == (RepoManager {
                platforms: PlatformsManager {
                    delete_visible: true,
                    delete_focus: DeleteFocus::YesBtn,
                    delete_name: n.platforms.delete_name,
                    ..o.platforms
                },
                ..o
            }) && n.platforms.delete_name@ == row.platform@ + seq!['/'] + row.arch@
        } else {
            n == o
        }
    } else if tab == 2 {
        if o.profiles.cursor < o.profiles.profiles@.len() {
            n == (RepoManager {
                profiles: ProfilesManager {
                    delete_visible: true,
                    delete_focus: ProfDeleteFocus::YesBtn,
                    delete_name: n.profiles.delete_name,
                    ..o.profiles
                },
                ..o
            }) && n.profiles.delete_name@ == o.profiles.profiles@[o.profiles.cursor as int]@
        } else {
            n == o
        }
    } else if tab == 1 && o.lib_rows@.len() > 0 {
        delete_staging(o, n, StagingMode::LibraryDelete) && staged_views(n.staged@) == o.lib_rows@.map_values(
            |l: LibraryRow| staged_from_library(l),
        )
    } else if tab == 0 && focused_name(o) is Some && has_group(group_entries(o.module_groups), focused_name(o)->0) {
        delete_staging(o, n, StagingMode::ModuleDelete) && staged_views(n.staged@) == rows_named(
            group_entries(o.module_groups),
            focused_name(o)->0,
        ).map_values(|m: ModuleRow| staged_from_module(m))
    } else {
        n == o
    }
}

/// The create overlay of the profiles opened empty, on its input.
pub open spec fn create_opened(o: RepoManager, n: RepoManager) -> bool {
    &&& only_profiles(o, n)
    &&& input_text(n.profiles.create_input).len() == 0
    &&& n.profiles.create_focus == ProfCreateFocus::Input
    &&& n.profiles.create_visible
}

/// The other keys on the list: Insert and `i` add to the tab (on profiles: create one); `l`
/// creates a profile (elsewhere it is not available); Tab expands or collapses the focused
/// group on the modules tab and focuses the filter elsewhere; `/` focuses the filter.
#[verifier::opaque]
pub open spec fn list_other_spec(o: RepoManager, key: KeyEvent, n: RepoManager, r: RepoAction) -> bool {
    let tab = o.active_tab;
    let k = key.code;
    if (k == KeyCode::Insert || k == KeyCode::Char('i')) && !key.control {
        if tab == 2 {
            create_opened(o, n) && r == RepoAction::Nothing
        } else {
            n == o && r == RepoAction::AddArtefacts(tab)
        }
    } else if k == KeyCode::Char('l') && !key.control {
        if tab == 2 {
            create_opened(o, n) && r == RepoAction::Nothing
        } else {
            n == o && r == RepoAction::NotImplemented
        }
    } else if k == KeyCode::Tab {
        &&& r == RepoAction::Nothing
        &&& if tab == 0 {
            let cnt: int = if o.group_order@.len() > 0 { o.group_order@.len() as int } else { 1 };
            let gc = o.group_cursor as int % cnt;
            n == (RepoManager { group_expanded: n.group_expanded, ..o }) && (if gc < o.group_expanded@.len() {
                n.group_expanded@ == o.group_expanded@.update(gc, !o.group_expanded@[gc])
            } else {
                n.group_expanded == o.group_expanded
            })
        } else {
            n == (RepoManager { filter_focus: true, ..o })
        }
    } else if k == KeyCode::Char('/') && !key.control {
        n == (RepoManager { filter_focus: true, ..o }) && r == RepoAction::Nothing
    } else {
        n == o && r == RepoAction::Nothing
    }
}

/// A key on the list of the current tab. Esc closes the manager (and the staging dialog); left
/// and right switch tabs (stopping at the first and the fourth), every cursor back to the top;
/// the cursor and page keys move (see `list_move_spec`); Enter, Delete and the other keys act
/// as `list_enter_spec`, `list_delete_spec` and `list_other_spec` say.
pub open spec fn list_key(o: RepoManager, key: KeyEvent, n: RepoManager, r: RepoAction) -> bool {
    let tab = o.active_tab;
    let k = key.code;
    if k == KeyCode::Esc {
        &&& n.staged@.len() == 0
        &&& n == (RepoManager { visible: false, staging: false, delete_mode: false, cross_platform_delete: false, staged: n.staged, ..o })
        &&& r == RepoAction::Closed
    } else if k == KeyCode::Left {
        let t = (if tab > 0 { tab - 1 } else { 0 }) as u8;
        n == tab_switched(o, t) && r == tab_load(t)
    } else if k == KeyCode::Right {
        let t = (if tab < 3 { tab + 1 } else { 3 }) as u8;
        n == tab_switched(o, t) && r == tab_load(t)
    } else if k == KeyCode::Up || k == KeyCode::Down || k == KeyCode::PageUp || k == KeyCode::PageDown {
        r == RepoAction::Nothing && list_move_spec(o, k, n)
    } else if k == KeyCode::Enter {
        list_enter_spec(o, n, r)
    } else if k == KeyCode::Delete {
        r == RepoAction::Nothing && list_delete_spec(o, n)
    } else {
        list_other_spec(o, key, n, r)
    }
}

/// The staging dialog takes the key (see `staging_key`); when it closes while adding to a
/// profile, the profile's details show again. Enter on the add (or delete) button asks the
/// application for the staging requests.
#[verifier::opaque]
pub open spec fn staging_route(o: RepoManager, key: KeyEvent, n: RepoManager, r: RepoAction) -> bool {
    let mid = RepoManager { profiles: ProfilesManager { detail_visible: o.profiles.detail_visible, ..n.profiles }, ..n };
    &&& staging_key(o, key.code, mid)
    &&& n.profiles.detail_visible == (o.profiles.detail_visible || (!n.staging && o.active_tab == 2 && (o.staging_mode
        == StagingMode::ProfileModuleAdd || o.staging_mode == StagingMode::ProfileLibraryAdd)))
    &&& r == (if key.code == KeyCode::Enter && o.staging_focus == StagingFocus::AddSelected {
        RepoAction::StagingRequested
    } else {
        RepoAction::Nothing
    })
}

/// The delete overlay of a profile: Enter closes it and, on Yes, asks to delete the profile;
/// Esc closes it; Tab and Shift+Tab switch Yes and No.
#[verifier::opaque]
pub open spec fn profile_delete_route(o: RepoManager, k: KeyCode, n: RepoManager, r: RepoAction) -> bool {
    if k == KeyCode::Enter {
        &&& n == (RepoManager { profiles: ProfilesManager { delete_visible: false, ..o.profiles }, ..o })
        &&& if o.profiles.delete_focus == ProfDeleteFocus::YesBtn {
            r matches RepoAction::DeleteProfile(name) && name@ == o.profiles.delete_name@
        } else {
            r == RepoAction::Nothing
        }
    } else {
        &&& only_profiles(o, n)
        &&& n.profiles.delete_visible == (k != KeyCode::Esc)
        &&& n.profiles.delete_focus == if k == KeyCode::Tab || k == KeyCode::BackTab {
            if o.profiles.delete_focus == ProfDeleteFocus::YesBtn { ProfDeleteFocus::NoBtn } else { ProfDeleteFocus::YesBtn }
        } else {
            o.profiles.delete_focus
        }
        &&& n.profiles.delete_name == o.profiles.delete_name
        &&& r == RepoAction::Nothing
    }
}

/// The create overlay of a profile: Enter on Create closes it and asks to create a profile
/// named by the input (when it is not empty), on Cancel closes it; the other keys go to the
/// overlay (Esc closes it, Tab and Shift+Tab move the focus, editing keys edit the input).
#[verifier::opaque]
pub open spec fn profile_create_route(o: RepoManager, k: KeyCode, n: RepoManager, r: RepoAction) -> bool {
    let closed = RepoManager { profiles: ProfilesManager { create_visible: false, ..o.profiles }, ..o };
    if k == KeyCode::Enter {
        if o.profiles.create_focus == ProfCreateFocus::CreateBtn {
            &&& n == closed
            &&& if input_text(o.profiles.create_input).len() > 0 {
                r matches RepoAction::CreateProfile(name) && name@ == input_text(o.profiles.create_input)
            } else {
                r == RepoAction::Nothing
            }
        } else if o.profiles.create_focus == ProfCreateFocus::CancelBtn {
            n == closed && r == RepoAction::Nothing
        } else {
            n == o && r == RepoAction::Nothing
        }
    } else {
        &&& only_profiles(o, n)
        &&& n.profiles.create_visible == (k != KeyCode::Esc)
        &&& n.profiles.create_focus == match k {
            KeyCode::Tab => match o.profiles.create_focus {
                ProfCreateFocus::Input => ProfCreateFocus::CreateBtn,
                ProfCreateFocus::CreateBtn => ProfCreateFocus::CancelBtn,
                ProfCreateFocus::CancelBtn => ProfCreateFocus::Input,
            },
            KeyCode::BackTab => match o.profiles.create_focus {
                ProfCreateFocus::Input => ProfCreateFocus::CancelBtn,
                ProfCreateFocus::CreateBtn => ProfCreateFocus::Input,
                ProfCreateFocus::CancelBtn => ProfCreateFocus::CreateBtn,
            },
            _ => o.profiles.create_focus,
        }
        &&& r == RepoAction::Nothing
    }
}

/// The details of a profile: Enter on the add buttons opens the staging dialog to add modules
/// or libraries to the profile, on Close closes the details (staging goes back to adding
/// modules); the other keys go to the details (Esc closes them).
#[verifier::opaque]
pub open spec fn profile_detail_route(o: RepoManager, k: KeyCode, n: RepoManager, r: RepoAction) -> bool {
    &&& r == RepoAction::Nothing
    &&& if k == KeyCode::Enter {
        if o.profiles.detail_focus == ProfDetailFocus::AddModuleBtn {
            &&& staged_views(n.staged@) == all_modules(group_entries(o.module_groups)).map_values(
                |m: ModuleRow| staged_from_module(m),
            )
            &&& n == (RepoManager {
                staged: n.staged,
                staging_cursor: 0,
                staging_scroll: 0,
                staging_focus: StagingFocus::List,
                staging_mode: StagingMode::ProfileModuleAdd,
                profiles: ProfilesManager { detail_visible: false, ..o.profiles },
                staging: true,
                delete_mode: false,
                ..o
            })
        } else if o.profiles.detail_focus == ProfDetailFocus::AddLibraryBtn {
            &&& staged_views(n.staged@) == o.lib_rows@.map_values(|l: LibraryRow| staged_from_library(l))
            &&& n == (RepoManager {
                staged: n.staged,
                staging_cursor: 0,
                staging_scroll: 0,
                staging_focus: StagingFocus::List,
                staging_mode: StagingMode::ProfileLibraryAdd,
                profiles: ProfilesManager { detail_visible: false, ..o.profiles },
                staging: true,
                delete_mode: false,
                ..o
            })
        } else if o.profiles.detail_focus == ProfDetailFocus::CloseBtn {
            n == (RepoManager {
                profiles: ProfilesManager { detail_visible: false, ..o.profiles },
                staging_mode: StagingMode::ModuleAdd,
                ..o
            })
        } else {
            n == o
        }
    } else {
        &&& only_profiles(o, n)
        &&& n.profiles.detail_visible == (k != KeyCode::Esc)
        &&& n.profiles.profiles == o.profiles.profiles
        &&& n.profiles.detail_modules == o.profiles.detail_modules
        &&& n.profiles.detail_libraries == o.profiles.detail_libraries
    }
}

/// The delete overlay of a platform: Enter closes it and, on Yes, asks to remove the platform;
/// Esc closes it; Tab and Shift+Tab switch Yes and No.
#[verifier::opaque]
pub open spec fn platform_delete_route(o: RepoManager, k: KeyCode, n: RepoManager, r: RepoAction) -> bool {
    if k == KeyCode::Enter {
        &&& n == (RepoManager { platforms: PlatformsManager { delete_visible: false, ..o.platforms }, ..o })
        &&& if o.platforms.delete_focus == DeleteFocus::YesBtn {
            r matches RepoAction::RemovePlatform(name) && name@ == o.platforms.delete_name@
        } else {
            r == RepoAction::Nothing
        }
    } else {
        &&& n == (RepoManager { platforms: n.platforms, ..o })
        &&& n.platforms.delete_visible == (k != KeyCode::Esc)
        &&& n.platforms.delete_focus == if k == KeyCode::Tab || k == KeyCode::BackTab {
            if o.platforms.delete_focus == DeleteFocus::YesBtn { DeleteFocus::NoBtn } else { DeleteFocus::YesBtn }
        } else {
            o.platforms.delete_focus
        }
        &&& n.platforms.rows == o.platforms.rows
        &&& n.platforms.cursor == o.platforms.cursor
        &&& r == RepoAction::Nothing
    }
}

/// A key on the repository manager: the part that `repo_route` names takes it. A hidden manager
/// takes no key.
pub open spec fn repo_step(o: RepoManager, key: KeyEvent, n: RepoManager, r: RepoAction) -> bool {
    match repo_route(o) {
        RepoRoute::Hidden => n == o && r == RepoAction::Ignored,
        RepoRoute::Staging => staging_route(o, key, n, r),
        RepoRoute::Info => n == info_key(o, key.code) && r == RepoAction::Nothing,
        RepoRoute::Filter => repo_filter_key(o, key.code, n) && r == RepoAction::Nothing,
        RepoRoute::ProfileDelete => profile_delete_route(o, key.code, n, r),
        RepoRoute::ProfileCreate => profile_create_route(o, key.code, n, r),
        RepoRoute::ProfileDetail => profile_detail_route(o, key.code, n, r),
        RepoRoute::PlatformDelete => platform_delete_route(o, key.code, n, r),
        RepoRoute::List => list_key(o, key, n, r),
    }
}

/// What the manager needs for a key: room in the text fields that the key may edit, and room
/// for a page step of the cursors it may move.
pub open spec fn repo_key_room(o: RepoManager, key: KeyEvent) -> bool {
    let route = repo_route(o);
    &&& route == RepoRoute::Filter ==> input_room(o.filter)
    &&& route == RepoRoute::ProfileCreate && key.code != KeyCode::Enter ==> input_room(o.profiles.create_input)
    &&& route == RepoRoute::ProfileDetail && key.code != KeyCode::Enter ==> o.profiles.detail_moffset + 10 <= usize::MAX
        && o.profiles.detail_loffset + 10 <= usize::MAX
    &&& route == RepoRoute::List ==> o.lib_cursor + 10 <= usize::MAX && o.profiles.cursor + 10 <= usize::MAX
        && o.platforms.cursor + 10 <= usize::MAX
}

fn copy_opt(o: &Option<String>) -> (r: Option<String>)
    ensures
        opt_view(r) == opt_view(*o),
{
    match o {
        Some(s) => Some(string_from(s.as_str())),
        None => None,
    }
}

/// The rows of a group as staging rows, unchecked (see `staged_from_module`).
fn staged_of_modules(rows: &Vec<ModuleRow>) -> (r: Vec<StagedModule>)
    ensures
        staged_views(r@) == rows@.map_values(|m: ModuleRow| staged_from_module(m)),
{
    let mut staged: Vec<StagedModule> = Vec::new();
    let mut j: usize = 0;
    while j < rows.len()
        invariant
            j <= rows.len(),
            staged_views(staged@) == rows@.take(j as int).map_values(|m: ModuleRow| staged_from_module(m)),
        decreases rows.len() - j,
    {
        let r = &rows[j];
        let s = StagedModule {
            name: string_from(r.name.as_str()),
            version: copy_opt(&r.version),
            descr: string_from(r.descr.as_str()),
            path: String::new(),
            checked: false,
            platform: Some(string_from(r.platform.as_str())),
            arch: Some(string_from(r.arch.as_str())),
        };
        let ghost sv = staged_views(staged@);
        staged.push(s);
        proof {
            assert(staged_views(staged@) =~= sv.push(staged_from_module(rows@[j as int])));
            assert(rows@.take(j as int + 1).map_values(|m: ModuleRow| staged_from_module(m)) =~= rows@.take(j as int).map_values(
                |m: ModuleRow| staged_from_module(m),
            ).push(staged_from_module(rows@[j as int])));
        }
        j = j + 1;
    }
    assert(rows@.take(rows.len() as int) =~= rows@);
    staged
}

/// The libraries as staging rows, unchecked (see `staged_from_library`).
fn staged_of_libraries(rows: &Vec<LibraryRow>) -> (r: Vec<StagedModule>)
    ensures
        staged_views(r@) == rows@.map_values(|l: LibraryRow| staged_from_library(l)),
{
    let mut staged: Vec<StagedModule> = Vec::new();
    let mut j: usize = 0;
    while j < rows.len()
        invariant
            j <= rows.len(),
            staged_views(staged@) == rows@.take(j as int).map_values(|l: LibraryRow| staged_from_library(l)),
        decreases rows.len() - j,
    {
        let r = &rows[j];
        let s = StagedModule {
            name: string_from(r.name.as_str()),
            version: Some(string_from(r.kind.as_str())),
            descr: string_from(r.checksum.as_str()),
            path: String::new(),
            checked: false,
            platform: None,
            arch: None,
        };
        let ghost sv = staged_views(staged@);
        staged.push(s);
        proof {
            assert(staged_views(staged@) =~= sv.push(staged_from_library(rows@[j as int])));
            assert(rows@.take(j as int + 1).map_values(|l: LibraryRow| staged_from_library(l)) =~= rows@.take(j as int).map_values(
                |l: LibraryRow| staged_from_library(l),
            ).push(staged_from_library(rows@[j as int])));
        }
        j = j + 1;
    }
    assert(rows@.take(rows.len() as int) =~= rows@);
    staged
}

/// Number of libraries that pass the filter.
pub fn filtered_library_count(rows: &Vec<LibraryRow>, filter_value: &str) -> (r: usize)
    ensures
        r == count_library_hits(rows@, filter_value@),
{
    let mut count: usize = 0;
    let mut j: usize = 0;
    while j < rows.len()
        invariant
            j <= rows.len(),
            count == count_library_hits(rows@.take(j as int), filter_value@),
            count <= j,
        decreases rows.len() - j,
    {
        proof {
            assert(rows@.take(j as int + 1).drop_last() =~= rows@.take(j as int));
        }
        if filter_hit_exec(rows[j].name.as_str(), filter_value) || filter_hit_exec(rows[j].kind.as_str(), filter_value) {
            count = count + 1;
        }
        j = j + 1;
    }
    assert(rows@.take(rows.len() as int) =~= rows@);
    count
}

impl RepoManager {
    /// After the staging requests were run: back on the profiles tab, when the closed staging
    /// dialog was adding to a profile, the profile's details show again.
    pub fn after_staging(&mut self)
        ensures
            *final(self) == (if !old(self).staging && old(self).active_tab == 2 && (old(self).staging_mode
                == StagingMode::ProfileModuleAdd || old(self).staging_mode == StagingMode::ProfileLibraryAdd) {
                RepoManager { profiles: ProfilesManager { detail_visible: true, ..old(self).profiles }, ..*old(self) }
            } else {
                *old(self)
            }),
    {
        if !self.staging && self.active_tab == 2 && (self.staging_mode == StagingMode::ProfileModuleAdd || self.staging_mode
            == StagingMode::ProfileLibraryAdd) {
            self.profiles.detail_visible = true;
        }
    }

    fn list_tab_switch(&mut self, t: u8) -> (r: RepoAction)
        ensures
            *final(self) == tab_switched(*old(self), t),
            r == tab_load(t),
    {
        self.active_tab = t;
        self.group_cursor = 0;
        self.group_cursor_row = 0;
        self.lib_cursor = 0;
        self.profiles.cursor = 0;
        self.platforms.cursor = 0;
        if 1 <= t && t <= 3 {
            RepoAction::LoadTab(t)
        } else {
            RepoAction::Nothing
        }
    }

    fn tree_move_key(&mut self, k: KeyCode)
        requires
            k == KeyCode::Up || k == KeyCode::Down || k == KeyCode::PageUp || k == KeyCode::PageDown,
        ensures
            tree_move(*old(self), k, *final(self)),
    {
        if k == KeyCode::Up {
            self.move_module_up();
        } else if k == KeyCode::Down {
            self.move_module_down();
        } else if k == KeyCode::PageUp {
            self.group_page_up();
        } else {
            self.group_page_down();
        }
    }

    fn lib_move_key(&mut self, k: KeyCode)
        requires
            old(self).lib_cursor + 10 <= usize::MAX,
            k == KeyCode::Up || k == KeyCode::Down || k == KeyCode::PageUp || k == KeyCode::PageDown,
        ensures
            *final(self) == (RepoManager {
                lib_cursor: lib_cursor_after(old(self).lib_cursor, k, count_library_hits(old(self).lib_rows@, input_text(old(self).filter))),
                ..*old(self)
            }),
    {
        let hits = filtered_library_count(&self.lib_rows, input_value(&self.filter));
        let max: usize = if hits > 0 { hits - 1 } else { 0 };
        let c = self.lib_cursor;
        self.lib_cursor = if k == KeyCode::Up {
            if c > 1 { c - 1 } else { 0 }
        } else if k == KeyCode::PageUp {
            if c > 10 { c - 10 } else { 0 }
        } else if k == KeyCode::Down {
            if c + 1 < max { c + 1 } else { max }
        } else {
            if c + 10 < max { c + 10 } else { max }
        };
    }

    fn profiles_move_key(&mut self, k: KeyCode)
        requires
            old(self).profiles.cursor + 10 <= usize::MAX,
            k == KeyCode::Up || k == KeyCode::Down || k == KeyCode::PageUp || k == KeyCode::PageDown,
        ensures
            profiles_move(*old(self), k, *final(self)),
    {
        let fv = string_from(input_value(&self.filter));
        let mut ff = self.filter_focus;
        self.profiles.handle_list_key(k, &mut ff, fv.as_str());
        self.filter_focus = ff;
    }

    fn list_move_key(&mut self, key: KeyEvent)
        requires
            old(self).lib_cursor + 10 <= usize::MAX,
            old(self).profiles.cursor + 10 <= usize::MAX,
            old(self).platforms.cursor + 10 <= usize::MAX,
            key.code == KeyCode::Up || key.code == KeyCode::Down || key.code == KeyCode::PageUp || key.code == KeyCode::PageDown,
        ensures
            list_move_spec(*old(self), key.code, *final(self)),
    {
        proof {
            reveal(list_move_spec);
        }
        let k = key.code;
        let tab = self.active_tab;
        if tab == 0 {
            self.tree_move_key(k);
        } else if tab == 1 {
            self.lib_move_key(k);
        } else if tab == 2 {
            self.profiles_move_key(k);
        } else if tab == 3 {
            self.platforms.handle_list_key(k);
        }
    }

    fn list_enter_key(&mut self, key: KeyEvent) -> (r: RepoAction)
        requires
            key.code == KeyCode::Enter,
        ensures
            list_enter_spec(*old(self), *final(self), r),
    {
        proof {
            reveal(list_enter_spec);
        }
        let tab = self.active_tab;
        if tab == 2 {
            match self.profiles.selected_profile_name() {
                Some(name) => RepoAction::OpenProfile(string_from(name.as_str())),
                None => RepoAction::Nothing,
            }
        } else if tab == 0 {
            if self.group_cursor_row == 0 {
                let gc = self.group_cursor;
                self.toggle_group(gc);
            } else if self.focused_module().is_some() {
                self.info_visible = true;
                self.info_row = self.group_cursor_row;
                self.info_tab = 0;
                self.info_scroll = 0;
                self.info_active_tab = 0;
            }
            RepoAction::Nothing
        } else if tab == 1 && self.lib_rows.len() > 0 {
            self.info_visible = true;
            self.info_row = self.lib_cursor;
            self.info_tab = 0;
            self.info_scroll = 0;
            self.info_active_tab = 1;
            RepoAction::Nothing
        } else {
            RepoAction::Nothing
        }
    }

    #[verifier::spinoff_prover]
    #[verifier::rlimit(60)]
    fn list_delete_key(&mut self, key: KeyEvent)
        requires
            key.code == KeyCode::Delete,
        ensures
            list_delete_spec(*old(self), *final(self)),
    {
        proof {
            reveal(list_delete_spec);
        }
        let tab = self.active_tab;
        if tab == 3 {
            match self.platforms.selected_name() {
                Some(name) => {
                    self.platforms.open_delete(name);
                },
                None => {},
            }
        } else if tab == 2 {
            match self.profiles.selected_profile_name() {
                Some(name) => {
                    let n = string_from(name.as_str());
                    self.profiles.open_delete(n);
                },
                None => {},
            }
        } else if tab == 1 && self.lib_rows.len() > 0 {
            let staged = staged_of_libraries(&self.lib_rows);
            self.delete_mode = true;
            self.cross_platform_delete = false;
            self.staged = staged;
            self.staging_mode = StagingMode::LibraryDelete;
            self.staging = true;
            self.staging_cursor = 0;
            self.staging_focus = StagingFocus::List;
        } else if tab == 0 {
            let staged = match self.focused_group_modules() {
                Some(rows) => Some(staged_of_modules(rows)),
                None => None,
            };
            match staged {
                Some(st) => {
                    self.delete_mode = true;
                    self.cross_platform_delete = false;
                    self.staged = st;
                    self.staging_mode = StagingMode::ModuleDelete;
                    self.staging = true;
                    self.staging_cursor = 0;
                    self.staging_focus = StagingFocus::List;
                },
                None => {},
            }
        }
    }

    fn list_other_key(&mut self, key: KeyEvent) -> (r: RepoAction)
        requires
            !(key.code == KeyCode::Esc || key.code == KeyCode::Left || key.code == KeyCode::Right || key.code == KeyCode::Up
                || key.code == KeyCode::Down || key.code == KeyCode::PageUp || key.code == KeyCode::PageDown || key.code
                == KeyCode::Enter || key.code == KeyCode::Delete),
        ensures
            list_other_spec(*old(self), key, *final(self), r),
    {
        proof {
            reveal(list_other_spec);
        }
        let k = key.code;
        let tab = self.active_tab;
        if (k == KeyCode::Insert || k == KeyCode::Char('i')) && !key.control {
            if tab == 2 {
                self.profiles.open_create();
                RepoAction::Nothing
            } else {
                RepoAction::AddArtefacts(tab)
            }
        } else if k == KeyCode::Char('l') && !key.control {
            if tab == 2 {
                self.profiles.open_create();
                RepoAction::Nothing
            } else {
                RepoAction::NotImplemented
            }
        } else if k == KeyCode::Tab {
            if tab == 0 {
                let cnt: usize = if self.group_order.len() > 0 { self.group_order.len() } else { 1 };
                let gc = self.group_cursor % cnt;
                self.toggle_group(gc);
            } else {
                self.filter_focus = true;
            }
            RepoAction::Nothing
        } else if k == KeyCode::Char('/') && !key.control {
            self.filter_focus = true;
            RepoAction::Nothing
        } else {
            RepoAction::Nothing
        }
    }

    #[verifier::spinoff_prover]
    #[verifier::rlimit(80)]
    fn list_key_exec(&mut self, key: KeyEvent) -> (r: RepoAction)
        requires
            old(self).lib_cursor + 10 <= usize::MAX,
            old(self).profiles.cursor + 10 <= usize::MAX,
            old(self).platforms.cursor + 10 <= usize::MAX,
        ensures
            list_key(*old(self), key, *final(self), r),
    {
        let k = key.code;
        if k == KeyCode::Esc {
            self.exit_staging();
            self.visible = false;
            RepoAction::Closed
        } else if k == KeyCode::Left {
            let t: u8 = if self.active_tab > 0 { self.active_tab - 1 } else { 0 };
            self.list_tab_switch(t)
        } else if k == KeyCode::Right {
            let t: u8 = if self.active_tab < 3 { self.active_tab + 1 } else { 3 };
            self.list_tab_switch(t)
        } else if k == KeyCode::Up || k == KeyCode::Down || k == KeyCode::PageUp || k == KeyCode::PageDown {
            self.list_move_key(key);
            RepoAction::Nothing
        } else if k == KeyCode::Enter {
            self.list_enter_key(key)
        } else if k == KeyCode::Delete {
            self.list_delete_key(key);
            RepoAction::Nothing
        } else {
            self.list_other_key(key)
        }
    }

    fn staging_route_key(&mut self, key: KeyEvent) -> (r: RepoAction)
        requires
            old(self).staging,
        ensures
            staging_route(*old(self), key, *final(self), r),
    {
        proof {
            reveal(staging_route);
        }
        let requested = key.code == KeyCode::Enter && self.staging_focus == StagingFocus::AddSelected;
        self.handle_staging_key(key);
        self.after_staging();
        if requested {
            RepoAction::StagingRequested
        } else {
            RepoAction::Nothing
        }
    }

    fn profile_delete_key(&mut self, k: KeyCode) -> (r: RepoAction)
        requires
            old(self).profiles.delete_visible,
        ensures
            profile_delete_route(*old(self), k, *final(self), r),
    {
        proof {
            reveal(profile_delete_route);
        }
        if k == KeyCode::Enter {
            let yes = self.profiles.delete_focus == ProfDeleteFocus::YesBtn;
            let name = string_from(self.profiles.delete_name.as_str());
            self.profiles.delete_visible = false;
            if yes {
                RepoAction::DeleteProfile(name)
            } else {
                RepoAction::Nothing
            }
        } else {
            self.profiles.handle_delete_key(k);
            RepoAction::Nothing
        }
    }

    fn profile_create_key(&mut self, k: KeyCode) -> (r: RepoAction)
        requires
            old(self).profiles.create_visible,
            k != KeyCode::Enter ==> input_room(old(self).profiles.create_input),
        ensures
            profile_create_route(*old(self), k, *final(self), r),
    {
        proof {
            reveal(profile_create_route);
        }
        if k == KeyCode::Enter {
            if self.profiles.create_focus == ProfCreateFocus::CreateBtn {
                let name = string_from(input_value(&self.profiles.create_input));
                self.profiles.create_visible = false;
                if name.as_str().is_empty() {
                    RepoAction::Nothing
                } else {
                    RepoAction::CreateProfile(name)
                }
            } else if self.profiles.create_focus == ProfCreateFocus::CancelBtn {
                self.profiles.create_visible = false;
                RepoAction::Nothing
            } else {
                RepoAction::Nothing
            }
        } else {
            self.profiles.handle_create_key(k);
            RepoAction::Nothing
        }
    }

    fn profile_detail_key(&mut self, k: KeyCode) -> (r: RepoAction)
        requires
            old(self).profiles.detail_visible,
            k != KeyCode::Enter ==> old(self).profiles.detail_moffset + 10 <= usize::MAX && old(
                self,
            ).profiles.detail_loffset + 10 <= usize::MAX,
        ensures
            profile_detail_route(*old(self), k, *final(self), r),
    {
        proof {
            reveal(profile_detail_route);
        }
        if k == KeyCode::Enter {
            if self.profiles.detail_focus == ProfDetailFocus::AddModuleBtn {
                self.enter_profile_module_staging();
            } else if self.profiles.detail_focus == ProfDetailFocus::AddLibraryBtn {
                self.enter_profile_library_staging();
            } else if self.profiles.detail_focus == ProfDetailFocus::CloseBtn {
                self.profiles.detail_visible = false;
                self.staging_mode = StagingMode::ModuleAdd;
            }
        } else {
            self.profiles.handle_detail_key(k);
        }
        RepoAction::Nothing
    }

    fn platform_delete_key(&mut self, k: KeyCode) -> (r: RepoAction)
        requires
            old(self).platforms.delete_visible,
        ensures
            platform_delete_route(*old(self), k, *final(self), r),
    {
        proof {
            reveal(platform_delete_route);
        }
        if k == KeyCode::Enter {
            let yes = self.platforms.delete_focus == DeleteFocus::YesBtn;
            let name = string_from(self.platforms.delete_name.as_str());
            self.platforms.delete_visible = false;
            if yes {
                RepoAction::RemovePlatform(name)
            } else {
                RepoAction::Nothing
            }
        } else {
            self.platforms.handle_delete_key(k);
            RepoAction::Nothing
        }
    }

    /// A key on the repository manager, see `repo_step`: the staging dialog, the information
    /// popup, the filter, the overlays of the profiles and platforms tabs, or the tab's list
    /// takes it; the result says what the application has to do.
    pub fn handle_key(&mut self, key: KeyEvent) -> (r: RepoAction)
        requires
            repo_key_room(*old(self), key),
        ensures
            repo_step(*old(self), key, *final(self), r),
    {
        let k = key.code;
        if !self.visible {
            RepoAction::Ignored
        } else if self.staging {
            self.staging_route_key(key)
        } else if self.info_visible {
            self.handle_info_key(key);
            RepoAction::Nothing
        } else if self.filter_focus {
            self.handle_filter_key(k);
            RepoAction::Nothing
        } else if self.active_tab == 2 && self.profiles.delete_visible {
            self.profile_delete_key(k)
        } else if self.active_tab == 2 && self.profiles.create_visible {
            self.profile_create_key(k)
        } else if self.active_tab == 2 && self.profiles.detail_visible {
            self.profile_detail_key(k)
        } else if self.active_tab == 3 && self.platforms.delete_visible {
            self.platform_delete_key(k)
        } else {
            self.list_key_exec(key)
        }
    }
}

} // verus!
