use sysinspect_ui::dialogs::{exit_alert_key, help_popup_key, message_alert_key, Choice, ClusterConfirm, ClusterRun, MasterConfirm};
use sysinspect_ui::alert::DialogFormFocus;
use sysinspect_ui::elements::{ActiveBox, AlertResult};
use sysinspect_ui::keys::{KeyCode, KeyEvent};
use sysinspect_ui::logview::{colorize_log_line, filtered_rendered_log_lines, render_log_line, LogLevel, LogRole};
use sysinspect_ui::macts::{
    master_menu_key, menu_line, minion_menu_key, minion_shortcut, total_master_menu_items, total_menu_items, MasterAction, MinionAction,
};
use sysinspect_ui::mainview::{
    enabled_model_ids_with, format_machine_message, preserve_selection, short_machine_id, step_cycle, PaneEffect, PaneLens, Panes, UISizes,
};
use sysinspect_ui::minionsview::{pane_count, MinionRow, MinionsBrowser, PanesOutcome};
use sysinspect_ui::online::{
    composer_minion_name, fmt_ip, fmt_version, info_value_str, online_host, shorten_mid, table_window, trunc_ellipsis, InfoValue,
};
use ratatui_cheese::input::InputState;

fn ctrl(c: char) -> KeyEvent {
    KeyEvent { code: KeyCode::Char(c), shift: false, control: true }
}

fn key(code: KeyCode) -> KeyEvent {
    KeyEvent::plain(code)
}

#[test]
fn menu_sizes() {
    assert_eq!(total_menu_items(), 9);
    assert_eq!(total_master_menu_items(), 7);
}

#[test]
fn menu_line_pads_between_label_and_hint() {
    assert_eq!(menu_line("Start", "^T", 12), " Start  ^T ");
    assert_eq!(menu_line("Start", "^T", 4), " Start^T ");
}

#[test]
fn master_menu_keys() {
    let step = master_menu_key(0, key(KeyCode::Up), 7);
    assert_eq!((step.sel, step.close, step.action), (6, false, None));
    let step = master_menu_key(6, key(KeyCode::Down), 7);
    assert_eq!(step.sel, 0);
    let step = master_menu_key(3, key(KeyCode::Enter), 7);
    assert_eq!((step.close, step.action), (true, Some(MasterAction::OpenRepoManager)));
    let step = master_menu_key(0, ctrl('s'), 7);
    assert_eq!((step.close, step.action), (true, Some(MasterAction::Confirm(3))));
    let step = master_menu_key(0, key(KeyCode::Char('s')), 7);
    assert_eq!((step.close, step.action), (false, None));
    let step = master_menu_key(2, key(KeyCode::Esc), 7);
    assert_eq!((step.sel, step.close, step.action), (2, true, None));
}

#[test]
fn master_menu_up_then_down_returns() {
    for sel in 0..7 {
        let up = master_menu_key(sel, key(KeyCode::Up), 7);
        let back = master_menu_key(up.sel, key(KeyCode::Down), 7);
        assert_eq!(back.sel, sel);
    }
}

#[test]
fn minion_menu_keys() {
    let step = minion_menu_key(9, key(KeyCode::PageDown), 11);
    assert_eq!(step.sel, 10);
    let step = minion_menu_key(2, key(KeyCode::PageUp), 11);
    assert_eq!(step.sel, 0);
    let step = minion_menu_key(10, key(KeyCode::Down), 11);
    assert_eq!(step.sel, 0);
    let step = minion_menu_key(6, key(KeyCode::Enter), 11);
    assert_eq!(step.action, Some(MinionAction::ClusterConfirm(3)));
    let step = minion_menu_key(0, ctrl('x'), 11);
    assert_eq!((step.close, step.action), (true, Some(MinionAction::ClusterConfirm(1))));
    let step = minion_menu_key(0, key(KeyCode::Char('q')), 11);
    assert_eq!((step.close, step.action), (false, None));
    assert_eq!(minion_shortcut(key(KeyCode::Insert)), Some(MinionAction::RegisterMinion));
}

#[test]
fn panes_move_focus_and_cursors() {
    let mut p = Panes::new();
    let lens = PaneLens { cycles: 5, minions: 3, events: 2, info_rows: 4 };
    let sizes = UISizes { table_cycles: 2, table_minions: 2, table_events: 2, table_info: 2 };
    assert_eq!(p.handle_key(KeyCode::PageDown, lens, sizes), PaneEffect::ReloadMinions);
    assert_eq!(p.selected_cycle, 2);
    assert_eq!(p.handle_key(KeyCode::Right, lens, sizes), PaneEffect::Status(ActiveBox::Minions));
    assert_eq!(p.handle_key(KeyCode::Down, lens, sizes), PaneEffect::RefreshEvents);
    assert_eq!(p.selected_minion, 1);
    p.handle_key(KeyCode::Right, lens, sizes);
    assert_eq!(p.active_box, ActiveBox::Events);
    assert_eq!(p.handle_key(KeyCode::Down, lens, sizes), PaneEffect::ShowEvent);
    assert_eq!(p.handle_key(KeyCode::Down, lens, sizes), PaneEffect::Status(ActiveBox::Info));
    assert_eq!(p.active_box, ActiveBox::Info);
    assert_eq!(p.handle_key(KeyCode::Up, lens, sizes), PaneEffect::ShowEventWithStatus);
    assert_eq!((p.active_box, p.selected_event), (ActiveBox::Events, 1));
    assert_eq!(p.handle_key(KeyCode::Enter, lens, sizes), PaneEffect::ShowEventWithStatus);
    assert_eq!(p.active_box, ActiveBox::Info);
    p.handle_key(KeyCode::Right, lens, sizes);
    assert_eq!(p.active_box, ActiveBox::Cycles);
    assert_eq!(p.handle_key(KeyCode::Up, lens, sizes), PaneEffect::UpdateCycles(false));
}

#[test]
fn overlay_focus_is_given_back() {
    let mut p = Panes::new();
    p.active_box = ActiveBox::Events;
    p.sync_main_focus_for_overlays(true);
    assert!(p.no_focus);
    assert!(!p.main_box_active(ActiveBox::Events));
    let lens = PaneLens { cycles: 1, minions: 1, events: 1, info_rows: 0 };
    assert_eq!(p.handle_key(KeyCode::Right, lens, UISizes::new()), PaneEffect::Nothing);
    p.sync_main_focus_for_overlays(false);
    assert!(!p.no_focus);
    assert_eq!(p.active_box, ActiveBox::Events);
}

#[test]
fn shifting_without_rows_stays() {
    let mut p = Panes::new();
    assert!(!p.shift_next(false, false));
    assert!(!p.shift_prev(false));
    assert!(p.shift_prev(true));
    assert_eq!(p.active_box, ActiveBox::Events);
    assert!(p.shift_next(true, true));
    assert_eq!(p.active_box, ActiveBox::Cycles);
}

#[test]
fn cycle_cursor_helpers() {
    assert_eq!(step_cycle(0, 3, true), 1);
    assert_eq!(step_cycle(2, 3, true), 2);
    assert_eq!(step_cycle(0, 3, false), 0);
    let sids = vec!["a".to_string(), "b".to_string(), "b".to_string()];
    assert_eq!(preserve_selection(Some("b"), &sids, 0), 1);
    assert_eq!(preserve_selection(Some("z"), &sids, 7), 2);
    assert_eq!(preserve_selection(None, &sids, 1), 1);
    assert_eq!(preserve_selection(None, &vec![], 4), 0);
}

#[test]
fn machine_messages() {
    assert_eq!(short_machine_id("  0123456789abcdef "), "01234567...");
    assert_eq!(short_machine_id("abc"), "abc");
    assert_eq!(
        format_machine_message("Minion registered", Some(" web1 "), Some("linux"), Some("0123456789")),
        "Minion registered:  web1\nPlatform:           linux\nMachine ID:         01234567..."
    );
    assert_eq!(format_machine_message("Minion deleted", None, Some("  "), None), "Minion deleted:  OK");
}

#[test]
fn enabled_model_ids() {
    let ids = vec!["b".to_string(), "a".to_string()];
    assert_eq!(enabled_model_ids_with(&ids, "c", true), vec!["a", "b", "c"]);
    assert_eq!(enabled_model_ids_with(&ids, "a", true), vec!["a", "b"]);
    assert_eq!(enabled_model_ids_with(&ids, "a", false), vec!["b"]);
}

#[test]
fn log_lines_split_into_roles() {
    let spans: Vec<(String, LogRole)> = colorize_log_line("12:00 - ERROR: [net] down").into_iter().map(|s| (s.text, s.role)).collect();
    assert_eq!(
        spans,
        vec![
            ("12:00".to_string(), LogRole::Timestamp),
            (" - ".to_string(), LogRole::Separator),
            ("ERROR".to_string(), LogRole::Level(LogLevel::Error)),
            (": ".to_string(), LogRole::Separator),
            ("[net]".to_string(), LogRole::Tag),
            (" ".to_string(), LogRole::Space),
            ("down".to_string(), LogRole::Message),
        ]
    );
    let plain: Vec<(String, LogRole)> = colorize_log_line("no stamp").into_iter().map(|s| (s.text, s.role)).collect();
    assert_eq!(plain, vec![("no stamp".to_string(), LogRole::Line)]);
    let nolevel: Vec<String> = colorize_log_line("t - rest").into_iter().map(|s| s.text).collect();
    assert_eq!(nolevel, vec!["t", " - ", "rest"]);
    let warn: Vec<(String, LogRole)> = colorize_log_line("t -  WARNING :  msg").into_iter().map(|s| (s.text, s.role)).collect();
    assert_eq!(warn[2], ("WARNING".to_string(), LogRole::Level(LogLevel::Warn)));
    assert_eq!(warn[4], ("msg".to_string(), LogRole::Message));
}

#[test]
fn log_entries_and_filter() {
    let rows = render_log_line("t - INFO: a\nmore");
    assert_eq!(rows.len(), 2);
    assert_eq!(rows[1][0].text, "more");
    assert_eq!(rows[1][0].role, LogRole::Continuation);
    let lines = vec!["x - INFO: up".to_string(), "y - ERROR: Down".to_string()];
    let shown = filtered_rendered_log_lines(&lines, "down");
    assert_eq!(shown.len(), 1);
    assert_eq!(shown[0][0].text, "y");
    assert_eq!(filtered_rendered_log_lines(&lines, "").len(), 2);
}

#[test]
fn online_formatting() {
    assert_eq!(shorten_mid("abcdefghijkl", 3), "abc...jkl");
    assert_eq!(shorten_mid("abcdefghi", 3), "abcdefghi");
    assert_eq!(online_host(" ", "host"), "host");
    assert_eq!(online_host("", " "), "unknown");
    assert_eq!(online_host("a.b", "host"), "a.b");
    assert_eq!(composer_minion_name("", "h"), "h");
    assert_eq!(fmt_ip(""), "unknown");
    assert_eq!(fmt_ip("10.0.0.1"), "10.0.0.1");
    assert_eq!(fmt_ip("fe80::1234:5678:9abc"), "fe80::1234:5678\u{2026}");
    assert_eq!(fmt_version(true, "1.0", "1.1"), "1.0 -> 1.1");
    assert_eq!(fmt_version(false, "", "1.1"), "-");
    assert_eq!(fmt_version(true, "1.0", ""), "1.0");
    assert_eq!(trunc_ellipsis("abcdef", 4), "abc\u{2026}");
    assert_eq!(trunc_ellipsis("abc", 4), "abc");
    assert_eq!(table_window(2, 5, 10), (0, 5));
    assert_eq!(table_window(7, 5, 10), (3, 8));
    assert_eq!(table_window(9, 5, 10), (5, 10));
}

#[test]
fn info_values() {
    assert_eq!(info_value_str(&InfoValue::Null), "null");
    assert_eq!(info_value_str(&InfoValue::Bool(true)), "yes");
    assert_eq!(info_value_str(&InfoValue::Array(vec![])), "[]");
    assert_eq!(
        info_value_str(&InfoValue::Array(vec![InfoValue::Number("1".into()), InfoValue::Str("x".into()), InfoValue::Bool(false)])),
        "1, x, no"
    );
}

#[test]
fn yes_no_alerts() {
    let mut purge = Choice { visible: true, choice: AlertResult::Default };
    assert_eq!(purge.handle_key(KeyCode::Tab, AlertResult::Purge), (true, false));
    assert_eq!(purge.choice, AlertResult::Purge);
    assert_eq!(purge.handle_key(KeyCode::Enter, AlertResult::Purge), (true, true));
    assert!(!purge.visible);
    assert_eq!(purge.handle_key(KeyCode::Enter, AlertResult::Purge), (false, false));
    let mut exit = Choice { visible: true, choice: AlertResult::Quit };
    assert_eq!(exit_alert_key(&mut exit, KeyCode::Enter), (true, true));
    let mut exit = Choice { visible: true, choice: AlertResult::Default };
    assert_eq!(exit_alert_key(&mut exit, KeyCode::Enter), (true, false));
    assert!(!exit.visible);
}

#[test]
fn master_confirmation_runs_once() {
    let mut c = MasterConfirm { visible: true, choice: AlertResult::Default, action: 2 };
    c.handle_key(KeyCode::Tab);
    assert_eq!(c.handle_key(KeyCode::Enter), (true, Some(2)));
    assert_eq!(c.action, 0);
    assert!(!c.visible);
    let mut c = MasterConfirm { visible: true, choice: AlertResult::Quit, action: 1 };
    assert_eq!(c.handle_key(KeyCode::Esc), (true, None));
}

#[test]
fn cluster_delete_confirmation() {
    let mut c = ClusterConfirm {
        visible: false,
        choice: AlertResult::Default,
        pending_action: 0,
        force_remove: false,
        focus: DialogFormFocus::LeftButton,
    };
    c.open(3);
    assert_eq!(c.focus, DialogFormFocus::RightButton);
    c.handle_key(KeyCode::Tab);
    assert_eq!(c.focus, DialogFormFocus::Widget(0));
    c.handle_key(KeyCode::Char(' '));
    assert!(c.force_remove);
    c.handle_key(KeyCode::Tab);
    assert_eq!(c.focus, DialogFormFocus::LeftButton);
    assert_eq!(c.handle_key(KeyCode::Enter), (true, Some(ClusterRun { action: 3, force: true })));
    assert!(!c.visible && !c.force_remove && c.pending_action == 0);
    c.open(1);
    assert_eq!(c.handle_key(KeyCode::Enter), (true, Some(ClusterRun { action: 1, force: false })));
    c.open(2);
    c.handle_key(KeyCode::Tab);
    assert_eq!(c.handle_key(KeyCode::Enter), (true, None));
}

#[test]
fn help_and_message_alerts() {
    assert_eq!(help_popup_key(true, 0, KeyCode::PageDown), (true, 10, true));
    assert_eq!(help_popup_key(true, 3, KeyCode::PageUp), (true, 0, true));
    assert_eq!(help_popup_key(true, 3, KeyCode::Esc), (false, 0, true));
    assert_eq!(help_popup_key(false, 3, KeyCode::Esc), (false, 3, false));
    assert_eq!(message_alert_key(true, KeyCode::Enter), (false, true));
    assert_eq!(message_alert_key(true, KeyCode::Up), (true, true));
    assert_eq!(message_alert_key(false, KeyCode::Enter), (false, false));
}

fn minion(id: &str, fqdn: &str, alive: bool) -> MinionRow {
    MinionRow { minion_id: id.into(), fqdn: fqdn.into(), hostname: id.into(), alive }
}

#[test]
fn minion_browser_keys() {
    let rows = vec![minion("a", "web.example", true), minion("b", "", true), minion("c", "db", false)];
    assert_eq!(pane_count(&rows, true, ""), 2);
    assert_eq!(pane_count(&rows, true, "WEB"), 1);
    assert_eq!(pane_count(&rows, false, ""), 1);
    let mut m = MinionsBrowser {
        visible: true,
        focus: 1,
        online_sel: 0,
        offline_sel: 0,
        traits_modified: true,
        filter: InputState::new(),
        menu_visible: false,
        menu_sel: 3,
    };
    assert_eq!(m.handle_panes_key(KeyCode::PageDown, 2, 1), PanesOutcome::Nothing);
    assert_eq!(m.online_sel, 1);
    assert!(!m.traits_modified);
    assert_eq!(m.handle_panes_key(KeyCode::Char('t'), 2, 1), PanesOutcome::StartTag);
    assert_eq!(m.handle_panes_key(KeyCode::Char('t'), 1, 1), PanesOutcome::NoOnlineSelected);
    m.handle_panes_key(KeyCode::Right, 2, 1);
    assert_eq!(m.handle_panes_key(KeyCode::Char('t'), 2, 1), PanesOutcome::OfflineTagRefused);
    m.handle_panes_key(KeyCode::Tab, 2, 1);
    assert_eq!(m.focus, 0);
    m.handle_panes_key(KeyCode::BackTab, 2, 1);
    assert_eq!(m.focus, 2);
    assert_eq!(m.handle_panes_key(KeyCode::Enter, 2, 1), PanesOutcome::MenuOpened);
    assert_eq!((m.menu_visible, m.menu_sel), (true, 0));
    m.handle_panes_key(KeyCode::Char('x'), 2, 1);
    assert_eq!(m.focus, 0);
    assert!(!m.handle_filter_key(KeyCode::Enter));
    assert_eq!(m.focus, 1);
    assert!(m.handle_filter_key(KeyCode::Esc));
    assert!(!m.visible);
}
