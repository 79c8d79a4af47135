use sysinspect_ui::keys::{KeyCode, KeyEvent};
use sysinspect_ui::markup::{render_markup_spans, MarkupStyle, ATTR_BOLD, ATTR_UNDERLINED};
use sysinspect_ui::repomanager::{
    truncate_str, wrap_next, wrap_prev, LibraryRow, ModuleRow, RepoManager, StagedModule, StagingFocus, StagingMode, StagingRequest,
};

fn row(name: &str, platform: &str) -> ModuleRow {
    ModuleRow {
        name: name.to_string(),
        version: Some("1.0".to_string()),
        descr: format!("{name} module"),
        platform: platform.to_string(),
        arch: "x86_64".to_string(),
        manpage: None,
        args: None,
        opts: None,
    }
}

fn staged(name: &str, checked: bool) -> StagedModule {
    StagedModule { name: name.to_string(), version: None, descr: String::new(), path: String::new(), checked, platform: None, arch: None }
}

fn key(code: KeyCode) -> KeyEvent {
    KeyEvent::plain(code)
}

fn indexed() -> RepoManager {
    let mut m = RepoManager::new();
    m.set_module_index(
        vec![
            ("Linux x86_64".to_string(), row("sys.proc", "linux")),
            ("FreeBSD x86_64".to_string(), row("net.ping", "freebsd")),
            ("Linux x86_64".to_string(), row("fs.file", "linux")),
        ],
        vec!["NetBSD x86_64".to_string(), "Linux x86_64".to_string()],
    );
    m
}

#[test]
fn module_index_groups_and_sorts() {
    let m = indexed();
    assert_eq!(m.group_order, vec!["FreeBSD x86_64", "Linux x86_64", "NetBSD x86_64"]);
    assert_eq!(m.group_expanded, vec![false, false, false]);
    assert_eq!(m.focused_group_name().map(|s| s.as_str()), Some("FreeBSD x86_64"));
    let linux = {
        let mut mm = indexed();
        mm.group_cursor = 1;
        mm.focused_group_modules().map(|v| v.iter().map(|r| r.name.clone()).collect::<Vec<_>>())
    };
    assert_eq!(linux, Some(vec!["fs.file".to_string(), "sys.proc".to_string()]));
    assert_eq!(m.filtered_module_count(""), 3);
    assert_eq!(m.filtered_module_count("PROC"), 1);
    assert_eq!(m.filtered_module_count("module"), 3);
}

#[test]
fn module_tree_navigation() {
    let mut m = indexed();
    m.move_module_down();
    assert_eq!((m.group_cursor, m.group_cursor_row), (1, 0));
    m.toggle_group(1);
    m.move_module_down();
    m.move_module_down();
    assert_eq!((m.group_cursor, m.group_cursor_row), (1, 2));
    assert_eq!(m.focused_module().map(|r| r.name.clone()), Some("sys.proc".to_string()));
    m.move_module_down();
    assert_eq!((m.group_cursor, m.group_cursor_row), (2, 0));
    m.move_module_up();
    assert_eq!((m.group_cursor, m.group_cursor_row), (1, 2));
    m.group_page_down();
    m.group_page_down();
    assert_eq!((m.group_cursor, m.group_cursor_row), (0, 0));
    m.group_page_up();
    assert_eq!(m.group_cursor, 2);
}

#[test]
fn profile_module_staging_lists_every_module() {
    let mut m = indexed();
    m.enter_profile_module_staging();
    assert!(m.staging);
    assert_eq!(m.staging_mode, StagingMode::ProfileModuleAdd);
    let names: Vec<String> = m.staged.iter().map(|s| s.name.clone()).collect();
    assert_eq!(names.len(), 3);
    assert!(m.staged.iter().all(|s| !s.checked && s.arch.as_deref() == Some("x86_64")));
}

#[test]
fn library_staging_uses_kind_and_checksum() {
    let mut m = RepoManager::new();
    m.lib_rows = vec![LibraryRow { name: "libfoo".into(), kind: "python".into(), checksum: "abc".into() }];
    m.enter_profile_library_staging();
    assert_eq!(m.staged[0].version.as_deref(), Some("python"));
    assert_eq!(m.staged[0].descr, "abc");
    assert_eq!(m.staging_mode, StagingMode::ProfileLibraryAdd);
}

#[test]
fn staging_keys_and_requests() {
    let mut m = RepoManager::new();
    m.enter_staging(vec![staged("a", false), staged("b", false)]);
    assert!(m.handle_staging_key(key(KeyCode::Down)));
    m.handle_staging_key(key(KeyCode::Char(' ')));
    assert!(m.staged[1].checked);
    m.handle_staging_key(key(KeyCode::Tab));
    assert_eq!(m.staging_focus, StagingFocus::AddSelected);
    m.handle_staging_key(key(KeyCode::Enter));
    assert!(m.bulk_add_triggered);
    let reqs = m.take_staging_requests();
    assert_eq!(reqs.len(), 1);
    match &reqs[0] {
        StagingRequest::Add { mode, items } => {
            assert_eq!(*mode, StagingMode::ModuleAdd);
            assert_eq!(items.len(), 1);
            assert_eq!(items[0].name, "b");
        }
        _ => panic!("expected an add request"),
    }
    assert!(!m.staging);
    assert!(m.staged.is_empty());
}

#[test]
fn nothing_checked_is_reported() {
    let mut m = RepoManager::new();
    m.enter_staging(vec![staged("a", false)]);
    m.bulk_add_triggered = true;
    let reqs = m.take_staging_requests();
    assert!(matches!(reqs[0], StagingRequest::NothingSelected));
    assert!(m.staging);
}

#[test]
fn delete_mode_focus_includes_the_cross_platform_switch() {
    let mut m = RepoManager::new();
    m.enter_staging(vec![staged("a", true)]);
    m.delete_mode = true;
    m.handle_staging_key(key(KeyCode::Tab));
    m.handle_staging_key(key(KeyCode::Tab));
    assert_eq!(m.staging_focus, StagingFocus::CrossPlatformDelete);
    m.handle_staging_key(key(KeyCode::Char(' ')));
    assert!(m.cross_platform_delete);
    m.handle_staging_key(key(KeyCode::BackTab));
    m.handle_staging_key(key(KeyCode::Enter));
    assert!(m.bulk_delete_triggered);
    let reqs = m.take_staging_requests();
    match &reqs[0] {
        StagingRequest::Delete { cross_platform, items, .. } => {
            assert!(*cross_platform);
            assert_eq!(items.len(), 1);
        }
        _ => panic!("expected a delete request"),
    }
    m.enter_staging(vec![]);
    m.handle_staging_key(key(KeyCode::Esc));
    assert!(!m.staging && !m.delete_mode);
    assert!(!m.handle_staging_key(key(KeyCode::Esc)));
}

#[test]
fn info_popup_keys() {
    let mut m = RepoManager::new();
    assert!(!m.handle_info_key(key(KeyCode::Esc)));
    m.info_visible = true;
    for _ in 0..5 {
        m.handle_info_key(key(KeyCode::Right));
    }
    assert_eq!(m.info_tab, 3);
    m.handle_info_key(key(KeyCode::PageDown));
    assert_eq!(m.info_scroll, 10);
    m.handle_info_key(key(KeyCode::Left));
    assert_eq!((m.info_tab, m.info_scroll), (2, 0));
    m.handle_info_key(key(KeyCode::Enter));
    assert!(!m.info_visible);
}

#[test]
fn filter_keys_edit_and_leave() {
    let mut m = RepoManager::new();
    m.filter_focus = true;
    m.group_cursor_row = 4;
    m.handle_filter_key(KeyCode::Char('x'));
    assert!(m.filter_focus);
    m.handle_filter_key(KeyCode::Down);
    assert!(!m.filter_focus);
    assert_eq!(m.group_cursor_row, 0);
}

#[test]
fn byte_truncation() {
    assert_eq!(truncate_str("abcdef", 10), "abcdef");
    assert_eq!(truncate_str("abcdef", 4), "abc\u{2026}");
    assert_eq!(truncate_str("abc", 0), "\u{2026}");
}

#[test]
fn wrapping_positions() {
    assert_eq!(wrap_prev(0, 3), 2);
    assert_eq!(wrap_prev(7, 3), 0);
    assert_eq!(wrap_next(2, 3), 0);
    assert_eq!(wrap_next(usize::MAX, 4), 0);
}

fn spans(s: &str) -> Vec<(String, MarkupStyle)> {
    render_markup_spans(s).into_iter().map(|sp| (sp.text, sp.style)).collect()
}

#[test]
fn markup_styles_runs_of_text() {
    let plain = MarkupStyle { fg: None, bg: None, attrs: 0 };
    assert_eq!(spans(""), vec![(String::new(), plain)]);
    assert_eq!(spans("hello"), vec![("hello".to_string(), plain)]);
    let red_bold = MarkupStyle { fg: Some('r'), bg: None, attrs: ATTR_BOLD };
    assert_eq!(spans("a[r::b]b[N]c"), vec![("a".to_string(), plain), ("b".to_string(), red_bold), ("c".to_string(), plain)]);
    assert_eq!(spans("[x]y"), vec![("[x]y".to_string(), plain)]);
    assert_eq!(spans("[G:b:u]t"), vec![("t".to_string(), MarkupStyle { fg: Some('G'), bg: Some('b'), attrs: ATTR_UNDERLINED })]);
    assert_eq!(spans("[z:Q:]t"), vec![("t".to_string(), plain)]);
    assert_eq!(spans("a[open"), vec![("a[open]".to_string(), plain)]);
}

#[test]
fn loaded_groups_have_distinct_names() {
    let m = indexed();
    let mut names: Vec<String> = m.module_groups.keys().cloned().collect();
    let n = names.len();
    assert_eq!(n, 3);
    names.sort();
    names.dedup();
    assert_eq!(names.len(), n);
}
