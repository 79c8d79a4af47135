use ratatui_cheese::input::InputState;
use sysinspect_ui::descpopup::{desc_offset, desc_total_rows};
use sysinspect_ui::logpopup::MasterLogs;
use sysinspect_ui::minreg::{handle_progress_key, RegistrationProgress};
use sysinspect_ui::alert::DialogFormFocus;
use sysinspect_ui::console::{console_key, ConsoleAction, ConsoleState, Overlay};
use sysinspect_ui::dialogs::{help_scroll_clamp, Choice, ClusterConfirm, MasterConfirm};
use sysinspect_ui::elements::{ActiveBox, AlertResult};
use sysinspect_ui::events::{loop_step, pick_target, poll_ms, repo_reload_step, spinner_due, LoopState, LoopStep, PickTarget, TermEvent};
use sysinspect_ui::keys::{KeyCode, KeyEvent};
use sysinspect_ui::macts::MasterAction;
use sysinspect_ui::mainview::{PaneEffect, PaneLens, Panes, UISizes};
use sysinspect_ui::platforms::{DeleteFocus, PlatformRow};
use sysinspect_ui::profiles::ProfDeleteFocus;
use sysinspect_ui::repokeys::{filtered_library_count, RepoAction};
use sysinspect_ui::repomanager::{LibraryRow, ModuleRow, RepoManager, StagingMode};
use sysinspect_ui::setup::{dist_platform_arch, dist_root_of, install_layout, InstallationMode};
use sysinspect_ui::systopkeys::{systop_key, ChartMode, SystopCommand, SystopKeys};

fn plain(code: KeyCode) -> KeyEvent {
    KeyEvent::plain(code)
}

fn ctrl(c: char) -> KeyEvent {
    KeyEvent { code: KeyCode::Char(c), shift: false, control: true }
}

fn console() -> ConsoleState {
    ConsoleState {
        error_alert: false,
        info_alert: false,
        pending_exit: false,
        busy: false,
        master_menu: false,
        master_menu_sel: 0,
        exit_alert: Choice { visible: false, choice: AlertResult::Default },
        setup_wizard: false,
        registration_form: false,
        registration_progress: false,
        file_picker: false,
        repo_manager: false,
        dsl_browser: false,
        help: false,
        help_scroll: 0,
        purge_alert: Choice { visible: false, choice: AlertResult::Default },
        cluster_confirm: ClusterConfirm {
            visible: false,
            choice: AlertResult::Default,
            pending_action: 0,
            force_remove: false,
            focus: DialogFormFocus::LeftButton,
        },
        master_confirm: MasterConfirm { visible: false, choice: AlertResult::Default, action: 0 },
        tag_popup: false,
        master_logs: false,
        minions_popup: false,
        master_running: true,
        panes: Panes::new(),
    }
}

fn lens() -> PaneLens {
    PaneLens { cycles: 5, minions: 3, events: 2, info_rows: 4 }
}

#[test]
fn console_error_alert_takes_keys_first() {
    let mut s = console();
    s.error_alert = true;
    s.exit_alert.visible = true;
    assert_eq!(console_key(&mut s, plain(KeyCode::Tab), lens(), UISizes::new()), ConsoleAction::Nothing);
    assert!(s.error_alert);
    assert_eq!(console_key(&mut s, plain(KeyCode::Esc), lens(), UISizes::new()), ConsoleAction::Nothing);
    assert!(!s.error_alert);
    // The exit alert comes next.
    assert_eq!(console_key(&mut s, plain(KeyCode::Tab), lens(), UISizes::new()), ConsoleAction::Nothing);
    assert_eq!(s.exit_alert.choice, AlertResult::Quit);
    assert_eq!(console_key(&mut s, plain(KeyCode::Enter), lens(), UISizes::new()), ConsoleAction::Quit);
}

#[test]
fn console_info_alert_with_pending_exit_quits() {
    let mut s = console();
    s.info_alert = true;
    s.pending_exit = true;
    assert_eq!(console_key(&mut s, plain(KeyCode::Enter), lens(), UISizes::new()), ConsoleAction::Quit);
    assert!(!s.info_alert && !s.pending_exit);
}

#[test]
fn console_busy_ignores_keys() {
    let mut s = console();
    s.busy = true;
    assert_eq!(console_key(&mut s, plain(KeyCode::Char('q')), lens(), UISizes::new()), ConsoleAction::Nothing);
    assert!(!s.exit_alert.visible);
}

#[test]
fn console_forwards_to_open_dialogs_in_order() {
    let mut s = console();
    s.setup_wizard = true;
    s.file_picker = true;
    s.repo_manager = true;
    // The file picker opened over the wizard takes the key.
    assert_eq!(console_key(&mut s, plain(KeyCode::Down), lens(), UISizes::new()), ConsoleAction::Forward(Overlay::FilePicker));
    s.file_picker = false;
    assert_eq!(console_key(&mut s, plain(KeyCode::Down), lens(), UISizes::new()), ConsoleAction::Forward(Overlay::SetupWizard));
    s.setup_wizard = false;
    assert_eq!(console_key(&mut s, plain(KeyCode::Down), lens(), UISizes::new()), ConsoleAction::Forward(Overlay::RepoManager));
}

#[test]
fn console_global_shortcuts() {
    let mut s = console();
    assert_eq!(console_key(&mut s, plain(KeyCode::Char('q')), lens(), UISizes::new()), ConsoleAction::Nothing);
    assert_eq!(s.exit_alert, Choice { visible: true, choice: AlertResult::Quit });

    let mut s = console();
    console_key(&mut s, plain(KeyCode::Char('p')), lens(), UISizes::new());
    assert_eq!(s.purge_alert, Choice { visible: true, choice: AlertResult::Default });
    assert_eq!(console_key(&mut s, plain(KeyCode::Tab), lens(), UISizes::new()), ConsoleAction::Nothing);
    assert_eq!(console_key(&mut s, plain(KeyCode::Enter), lens(), UISizes::new()), ConsoleAction::Purge);

    let mut s = console();
    assert_eq!(console_key(&mut s, plain(KeyCode::Char('c')), lens(), UISizes::new()), ConsoleAction::LoadModels);
    assert_eq!(console_key(&mut s, plain(KeyCode::Char('o')), lens(), UISizes::new()), ConsoleAction::OpenMinions);
    assert_eq!(console_key(&mut s, ctrl('a'), lens(), UISizes::new()), ConsoleAction::Master(MasterAction::OpenRepoManager));
    assert_eq!(console_key(&mut s, ctrl('u'), lens(), UISizes::new()), ConsoleAction::Master(MasterAction::ClusterUpgrade));
    assert_eq!(console_key(&mut s, ctrl('r'), lens(), UISizes::new()), ConsoleAction::Nothing);
    assert!(s.registration_form);

    let mut s = console();
    console_key(&mut s, ctrl('s'), lens(), UISizes::new());
    assert_eq!(s.master_confirm, MasterConfirm { visible: true, choice: AlertResult::Default, action: 3 });
    console_key(&mut s, plain(KeyCode::Tab), lens(), UISizes::new());
    assert_eq!(console_key(&mut s, plain(KeyCode::Enter), lens(), UISizes::new()), ConsoleAction::RunMaster(3));

    let mut s = console();
    s.master_running = false;
    assert_eq!(console_key(&mut s, ctrl('o'), lens(), UISizes::new()), ConsoleAction::MasterNotRunning);
    assert!(s.error_alert);
}

#[test]
fn console_master_menu_and_help() {
    let mut s = console();
    console_key(&mut s, plain(KeyCode::Char('m')), lens(), UISizes::new());
    assert!(s.master_menu && s.master_menu_sel == 0);
    console_key(&mut s, plain(KeyCode::Up), lens(), UISizes::new());
    assert_eq!(s.master_menu_sel, 6);
    console_key(&mut s, plain(KeyCode::Down), lens(), UISizes::new());
    console_key(&mut s, plain(KeyCode::Down), lens(), UISizes::new());
    assert_eq!(s.master_menu_sel, 1);
    assert_eq!(console_key(&mut s, plain(KeyCode::Enter), lens(), UISizes::new()), ConsoleAction::Master(MasterAction::OpenLocalLogs));
    assert!(!s.master_menu);

    let mut s = console();
    console_key(&mut s, plain(KeyCode::Char('h')), lens(), UISizes::new());
    assert!(s.help);
    console_key(&mut s, plain(KeyCode::PageDown), lens(), UISizes::new());
    assert_eq!(s.help_scroll, 10);
    console_key(&mut s, plain(KeyCode::Esc), lens(), UISizes::new());
    assert!(!s.help && s.help_scroll == 0);
}

#[test]
fn console_panes_and_tab_between_events_and_details() {
    let mut s = console();
    assert_eq!(console_key(&mut s, plain(KeyCode::Right), lens(), UISizes::new()), ConsoleAction::Pane(PaneEffect::Status(ActiveBox::Minions)));
    assert_eq!(console_key(&mut s, plain(KeyCode::Right), lens(), UISizes::new()), ConsoleAction::Pane(PaneEffect::Status(ActiveBox::Events)));
    assert_eq!(console_key(&mut s, plain(KeyCode::Tab), lens(), UISizes::new()), ConsoleAction::Pane(PaneEffect::ShowEventWithStatus));
    assert_eq!(s.panes.active_box, ActiveBox::Info);
    assert_eq!(console_key(&mut s, plain(KeyCode::BackTab), lens(), UISizes::new()), ConsoleAction::Pane(PaneEffect::Status(ActiveBox::Events)));
    assert_eq!(s.panes.active_box, ActiveBox::Events);
}

#[test]
fn console_cluster_confirmation_runs() {
    let mut s = console();
    s.cluster_confirm.open(1);
    match console_key(&mut s, plain(KeyCode::Enter), lens(), UISizes::new()) {
        ConsoleAction::RunCluster(run) => assert_eq!(run.action, 1),
        other => panic!("unexpected {other:?}"),
    }
    assert!(!s.cluster_confirm.visible);
}

fn module(name: &str) -> ModuleRow {
    ModuleRow {
        name: name.to_string(),
        version: None,
        descr: String::new(),
        platform: "linux".to_string(),
        arch: "x86_64".to_string(),
        manpage: None,
        args: None,
        opts: None,
    }
}

fn repo() -> RepoManager {
    let mut m = RepoManager::new();
    m.set_module_index(
        vec![("Linux".to_string(), module("sys.proc")), ("Linux".to_string(), module("fs.file"))],
        vec![],
    );
    m.visible = true;
    m.lib_rows = vec![
        LibraryRow { name: "lib/a.py".to_string(), kind: "python".to_string(), checksum: "x".to_string() },
        LibraryRow { name: "lib/b.lua".to_string(), kind: "lua".to_string(), checksum: "y".to_string() },
    ];
    m
}

#[test]
fn repo_hidden_takes_no_key() {
    let mut m = RepoManager::new();
    assert!(matches!(m.handle_key(plain(KeyCode::Esc)), RepoAction::Ignored));
}

#[test]
fn repo_tabs_switch_and_reset_cursors() {
    let mut m = repo();
    m.lib_cursor = 1;
    m.group_cursor_row = 2;
    assert!(matches!(m.handle_key(plain(KeyCode::Right)), RepoAction::LoadTab(1)));
    assert_eq!((m.active_tab, m.lib_cursor, m.group_cursor_row), (1, 0, 0));
    m.handle_key(plain(KeyCode::Right));
    m.handle_key(plain(KeyCode::Right));
    assert!(matches!(m.handle_key(plain(KeyCode::Right)), RepoAction::LoadTab(3)));
    assert_eq!(m.active_tab, 3);
    m.handle_key(plain(KeyCode::Left));
    m.handle_key(plain(KeyCode::Left));
    m.handle_key(plain(KeyCode::Left));
    assert!(matches!(m.handle_key(plain(KeyCode::Left)), RepoAction::Nothing));
    assert_eq!(m.active_tab, 0);
}

#[test]
fn repo_library_cursor_pages_over_filtered_rows() {
    let mut m = repo();
    m.active_tab = 1;
    m.handle_key(plain(KeyCode::PageDown));
    assert_eq!(m.lib_cursor, 1);
    m.handle_key(plain(KeyCode::Up));
    assert_eq!(m.lib_cursor, 0);
    assert_eq!(filtered_library_count(&m.lib_rows, "LUA"), 1);
    assert_eq!(filtered_library_count(&m.lib_rows, ""), 2);
    // Delete offers every library for deletion.
    m.handle_key(plain(KeyCode::Delete));
    assert!(m.staging && m.delete_mode);
    assert_eq!(m.staging_mode, StagingMode::LibraryDelete);
    assert_eq!(m.staged.len(), 2);
    assert_eq!(m.staged[1].version.as_deref(), Some("lua"));
}

#[test]
fn repo_enter_on_header_toggles_and_on_module_opens_info() {
    let mut m = repo();
    m.handle_key(plain(KeyCode::Enter));
    assert_eq!(m.group_expanded, vec![true]);
    m.group_cursor_row = 2;
    m.handle_key(plain(KeyCode::Enter));
    assert!(m.info_visible);
    assert_eq!(m.info_row, 2);
    assert_eq!(m.focused_module_for_info().map(|r| r.name.as_str()), Some("sys.proc"));
    // Esc closes the information popup, then the manager.
    m.handle_key(plain(KeyCode::Esc));
    assert!(!m.info_visible);
    assert!(matches!(m.handle_key(plain(KeyCode::Esc)), RepoAction::Closed));
    assert!(!m.visible);
}

#[test]
fn repo_module_delete_stages_the_focused_group() {
    let mut m = repo();
    m.handle_key(plain(KeyCode::Delete));
    assert!(m.staging && m.delete_mode);
    assert_eq!(m.staging_mode, StagingMode::ModuleDelete);
    let names: Vec<&str> = m.staged.iter().map(|s| s.name.as_str()).collect();
    assert_eq!(names, vec!["fs.file", "sys.proc"]);
    // The staging dialog takes the keys now; Tab then Enter on the add button asks for the requests.
    m.handle_key(plain(KeyCode::Tab));
    assert!(matches!(m.handle_key(plain(KeyCode::Enter)), RepoAction::StagingRequested));
    assert!(m.bulk_delete_triggered);
}

#[test]
fn repo_platform_delete_overlay() {
    let mut m = repo();
    m.active_tab = 3;
    m.platforms.rows = vec![PlatformRow {
        platform: "linux".to_string(),
        arch: "x86_64".to_string(),
        version: "1".to_string(),
        size: "1M".to_string(),
        checksum: "c".to_string(),
    }];
    m.platforms.scroll = 4;
    m.handle_key(plain(KeyCode::Delete));
    assert!(m.platforms.delete_visible);
    assert_eq!(m.platforms.delete_name, "linux/x86_64");
    assert_eq!(m.platforms.scroll, 4);
    match m.handle_key(plain(KeyCode::Enter)) {
        RepoAction::RemovePlatform(name) => assert_eq!(name, "linux/x86_64"),
        _ => panic!("expected a removal"),
    }
    assert!(!m.platforms.delete_visible);
    m.platforms.open_delete("linux/x86_64".to_string());
    m.handle_key(plain(KeyCode::Tab));
    assert_eq!(m.platforms.delete_focus, DeleteFocus::NoBtn);
    assert!(matches!(m.handle_key(plain(KeyCode::Enter)), RepoAction::Nothing));
}

#[test]
fn repo_profile_overlays() {
    let mut m = repo();
    m.active_tab = 2;
    m.profiles.profiles = vec!["base".to_string()];
    match m.handle_key(plain(KeyCode::Enter)) {
        RepoAction::OpenProfile(name) => assert_eq!(name, "base"),
        _ => panic!("expected a profile to open"),
    }
    m.handle_key(plain(KeyCode::Delete));
    assert!(m.profiles.delete_visible && m.profiles.delete_focus == ProfDeleteFocus::YesBtn);
    match m.handle_key(plain(KeyCode::Enter)) {
        RepoAction::DeleteProfile(name) => assert_eq!(name, "base"),
        _ => panic!("expected a deletion"),
    }
    m.handle_key(plain(KeyCode::Char('l')));
    assert!(m.profiles.create_visible);
    m.handle_key(plain(KeyCode::Char('x')));
    m.handle_key(plain(KeyCode::Tab));
    match m.handle_key(plain(KeyCode::Enter)) {
        RepoAction::CreateProfile(name) => assert_eq!(name, "x"),
        _ => panic!("expected a creation"),
    }
    assert!(!m.profiles.create_visible);
    m.active_tab = 1;
    assert!(matches!(m.handle_key(plain(KeyCode::Char('l'))), RepoAction::NotImplemented));
    assert!(matches!(m.handle_key(plain(KeyCode::Char('i'))), RepoAction::AddArtefacts(1)));
}

#[test]
fn repo_checked_module_count() {
    let m = repo();
    assert_eq!(m.module_total(), Some(2));
    assert_eq!(m.checked_filtered_module_count("PROC"), Some(1));
}

fn loop_state() -> LoopState {
    LoopState {
        repo_progress: false,
        task_progress: false,
        offline: false,
        minions_visible: true,
        minion_logs_visible: true,
        minion_logs_polling: true,
        minion_logs_age_ms: 2999,
        systop_visible: true,
        systop_age_ms: None,
        master_logs_visible: true,
        master_logs_polling: false,
        master_logs_age_ms: 5000,
    }
}

#[test]
fn event_loop_polls_fast_while_busy() {
    let mut s = loop_state();
    assert_eq!(poll_ms(&s), 1000);
    s.task_progress = true;
    assert_eq!(poll_ms(&s), 50);
}

#[test]
fn event_loop_routes_events_and_plans_refreshes() {
    let s = loop_state();
    assert_eq!(loop_step(&s, TermEvent::KeyPress(plain(KeyCode::Up))), LoopStep::Key(plain(KeyCode::Up)));
    assert_eq!(loop_step(&s, TermEvent::KeyOther), LoopStep::Ignore);
    assert_eq!(loop_step(&s, TermEvent::MouseLeftDown(3, 4)), LoopStep::Click(3, 4));
    assert_eq!(loop_step(&s, TermEvent::MouseMove(5, 6)), LoopStep::Hover(5, 6));
    match loop_step(&s, TermEvent::Timeout) {
        LoopStep::Idle(p) => {
            assert!(p.refresh_cycles && p.refresh_minions && p.refresh_systop);
            assert!(!p.reload_minion_logs);
            assert!(!p.reload_master_logs);
        },
        other => panic!("unexpected {other:?}"),
    }
    assert_eq!(pick_target(0), Some(PickTarget::Module));
    assert_eq!(pick_target(2), None);
    assert_eq!(pick_target(3), Some(PickTarget::Platform));
    assert_eq!(repo_reload_step(true, true, false), (true, false));
    assert_eq!(repo_reload_step(true, false, true), (false, true));
    assert!(spinner_due(true, 80, 80));
    assert!(!spinner_due(true, 79, 80));
}

#[test]
fn systop_keys() {
    let mut s = SystopKeys { visible: true, shootout_visible: false, shootout_sel: 0, filter_active: false, has_snapshot: true };
    assert_eq!(systop_key(&mut s, plain(KeyCode::Char('M'))), Some(SystopCommand::Sort('m')));
    assert_eq!(systop_key(&mut s, plain(KeyCode::Left)), Some(SystopCommand::Chart(ChartMode::Blocks)));
    assert_eq!(systop_key(&mut s, plain(KeyCode::Esc)), Some(SystopCommand::Close));
    s.filter_active = true;
    assert_eq!(systop_key(&mut s, plain(KeyCode::Esc)), Some(SystopCommand::ClearFilter));
    assert_eq!(systop_key(&mut s, plain(KeyCode::Char('m'))), Some(SystopCommand::EditFilter(KeyCode::Char('m'), true)));
    s.shootout_visible = true;
    systop_key(&mut s, plain(KeyCode::Down));
    systop_key(&mut s, plain(KeyCode::Down));
    systop_key(&mut s, plain(KeyCode::Down));
    assert_eq!(s.shootout_sel, 2);
    assert_eq!(systop_key(&mut s, plain(KeyCode::Enter)), Some(SystopCommand::SignalSelected));
    s.visible = false;
    assert_eq!(systop_key(&mut s, plain(KeyCode::Esc)), None);
}

#[test]
fn distribution_platform_and_architecture() {
    assert_eq!(dist_root_of("/opt/dist/linux/sysinspect-x86_64-0.4/bin/sysinspect"), Ok("/opt/dist/linux/sysinspect-x86_64-0.4".to_string()));
    assert_eq!(
        dist_platform_arch("/opt/dist/linux/sysinspect-x86_64-0.4"),
        Ok(("linux".to_string(), "x86_64".to_string()))
    );
    assert_eq!(dist_platform_arch("/"), Err("Cannot resolve platform from /".to_string()));
    assert!(dist_platform_arch("/opt/dist/linux/sysinspect").is_err());
    assert!(!install_layout(InstallationMode::SystemWide).config_in_etc);
    assert!(install_layout(InstallationMode::Custom).config_in_etc && install_layout(InstallationMode::Custom).copy_dist);
}

#[test]
fn description_popup_rows_and_offset() {
    assert_eq!(desc_offset(5, 10, 8), 2);
    assert_eq!(desc_offset(1, 10, 8), 1);
    assert_eq!(desc_offset(3, 4, 8), 0);
    assert_eq!(desc_total_rows("Model: m\n\nkey  required  the key", 60), 3);
    assert_eq!(desc_total_rows("- item\n1. first", 60), 2);
    // A long field description wraps in the columns left after its key and tag.
    assert_eq!(desc_total_rows("k  optional  alpha beta gamma delta", 30), 2);
}

#[test]
fn registration_progress_keeps_its_fields_while_running() {
    let mut p = RegistrationProgress::new("host".to_string());
    p.step = 2;
    p.platform = "linux".to_string();
    let before = (p.step, p.total, p.message.clone(), p.host.clone(), p.platform.clone(), p.minion_id.clone());
    assert!(!handle_progress_key(KeyCode::Down, &mut p));
    assert!(handle_progress_key(KeyCode::Esc, &mut p));
    assert!(p.cancelled);
    assert_eq!((p.step, p.total, p.message.clone(), p.host.clone(), p.platform.clone(), p.minion_id.clone()), before);
}

#[test]
fn master_logs_tab_stays_on_a_section() {
    let mut m = MasterLogs { visible: true, tab: 1, scrolls: vec![0, 0], filter: InputState::new(), filter_focus: false, polling: false };
    m.handle_key(KeyCode::Right, 10, 3);
    assert_eq!(m.tab, 1);
    m.handle_key(KeyCode::Left, 10, 3);
    m.handle_key(KeyCode::Left, 10, 3);
    assert_eq!(m.tab, 0);
}

#[test]
fn console_starts_with_nothing_open() {
    let s = ConsoleState::new();
    let mut expected = console();
    expected.master_running = false;
    assert_eq!(s, expected);
    assert_eq!(s.panes.active_box, ActiveBox::Cycles);
}

#[test]
fn help_scroll_stops_at_the_last_page() {
    assert_eq!(help_scroll_clamp(50, 40, 30), 18);
    assert_eq!(help_scroll_clamp(5, 40, 30), 5);
    assert_eq!(help_scroll_clamp(5, 10, 30), 0);
    assert_eq!(help_scroll_clamp(5, 10, 4), 5);
}
