use ratatui_cheese::input::InputState;
use ratatui_cheese::tree::TreeState;
use sysinspect_ui::infotree::{build_filtered_info_tree, build_info_tree, trait_group_exec, InfoGroup, InfoRow};
use sysinspect_ui::keys::KeyCode;
use sysinspect_ui::logpopup::{log_scroll_step, LogsAction, MasterLogs, MinionLogs};
use sysinspect_ui::online::{InfoValue, TraitSource};
use sysinspect_ui::tagpopup::{TagOutcome, TagPopup};
use sysinspect_ui::traitspopup::TraitsPopup;

const TAIL: usize = usize::MAX;

#[test]
fn log_scroll_steps() {
    assert_eq!(log_scroll_step(TAIL, KeyCode::Up, 10, 40), 39);
    assert_eq!(log_scroll_step(TAIL, KeyCode::PageUp, 10, 40), 30);
    assert_eq!(log_scroll_step(3, KeyCode::PageUp, 10, 40), 0);
    assert_eq!(log_scroll_step(0, KeyCode::Up, 10, 40), 0);
    assert_eq!(log_scroll_step(5, KeyCode::Down, 10, 40), 6);
    assert_eq!(log_scroll_step(39, KeyCode::Down, 10, 40), TAIL);
    assert_eq!(log_scroll_step(TAIL, KeyCode::Down, 10, 40), TAIL);
    assert_eq!(log_scroll_step(TAIL, KeyCode::PageDown, 10, 40), TAIL);
    assert_eq!(log_scroll_step(5, KeyCode::PageDown, 10, 40), 15);
    assert_eq!(log_scroll_step(35, KeyCode::PageDown, 10, 40), TAIL);
    assert_eq!(log_scroll_step(0, KeyCode::Down, 10, 0), TAIL);
    assert_eq!(log_scroll_step(7, KeyCode::Enter, 10, 40), 7);
}

#[test]
fn log_scroll_tail_law() {
    for max_top in 1..30usize {
        let up = log_scroll_step(TAIL, KeyCode::Up, 10, max_top);
        assert_eq!(log_scroll_step(up, KeyCode::Down, 10, max_top), TAIL);
        for s in 0..=max_top {
            for k in [KeyCode::Up, KeyCode::Down, KeyCode::PageUp, KeyCode::PageDown] {
                let r = log_scroll_step(s, k, 7, max_top);
                assert!(r == TAIL || r <= max_top);
            }
        }
    }
}

fn minion_logs() -> MinionLogs {
    MinionLogs {
        visible: true,
        lines: (0..30).map(|i| format!("line {i}")).collect(),
        filter: InputState::new(),
        filter_focus: false,
        scroll: TAIL,
        polling: false,
    }
}

#[test]
fn minion_logs_keys() {
    let mut m = minion_logs();
    assert_eq!(m.handle_key(KeyCode::Up, 10), Some(LogsAction::Nothing));
    assert_eq!(m.scroll, 19);
    m.handle_key(KeyCode::PageUp, 10);
    assert_eq!(m.scroll, 9);
    m.handle_key(KeyCode::Down, 10);
    assert_eq!(m.scroll, 10);
    m.handle_key(KeyCode::PageDown, 10);
    assert_eq!(m.scroll, TAIL);
    assert_eq!(m.handle_key(KeyCode::Char('r'), 10), Some(LogsAction::Reload));
    assert_eq!(m.handle_key(KeyCode::Char('p'), 10), Some(LogsAction::PollingToggled));
    assert!(m.polling);
    assert_eq!(m.handle_key(KeyCode::Char('/'), 10), Some(LogsAction::Nothing));
    assert!(m.filter_focus);
    for c in "LINE 1".chars() {
        m.handle_key(KeyCode::Char(c), 10);
    }
    assert_eq!(m.filter.value(), "LINE 1");
    assert_eq!(m.scroll, TAIL);
    m.handle_key(KeyCode::Esc, 10);
    assert!(!m.filter_focus);
    assert!(m.visible);
    // "line 1" and "line 10" to "line 19": eleven rows, so the last page starts at row 1.
    m.handle_key(KeyCode::Up, 10);
    assert_eq!(m.scroll, 0);
    m.handle_key(KeyCode::Down, 10);
    assert_eq!(m.scroll, TAIL);
    assert_eq!(m.handle_key(KeyCode::Esc, 10), Some(LogsAction::Closed));
    assert!(!m.visible);
    assert_eq!(m.handle_key(KeyCode::Up, 10), None);
}

#[test]
fn multi_line_log_entries_count_every_row() {
    let mut m = minion_logs();
    m.lines = vec!["a\nb\nc".to_string(), "d".to_string()];
    m.handle_key(KeyCode::Up, 1);
    assert_eq!(m.scroll, 2);
}

#[test]
fn master_logs_tabs_and_scrolls() {
    let mut m = MasterLogs { visible: true, tab: 0, scrolls: vec![TAIL, 0], filter: InputState::new(), filter_focus: false, polling: true };
    m.handle_key(KeyCode::Up, 10, 25);
    assert_eq!(m.scrolls, vec![14, 0]);
    m.handle_key(KeyCode::Right, 10, 25);
    assert_eq!(m.tab, 1);
    m.handle_key(KeyCode::Right, 10, 25);
    assert_eq!(m.tab, 1);
    m.handle_key(KeyCode::PageDown, 10, 25);
    assert_eq!(m.scrolls, vec![14, 10]);
    m.handle_key(KeyCode::PageDown, 10, 25);
    assert_eq!(m.scrolls, vec![14, TAIL]);
    m.handle_key(KeyCode::Left, 10, 25);
    m.handle_key(KeyCode::Left, 10, 25);
    assert_eq!(m.tab, 0);
    assert_eq!(m.handle_key(KeyCode::Char('P'), 10, 25), Some(LogsAction::PollingToggled));
    assert!(!m.polling);
    m.handle_key(KeyCode::Tab, 10, 25);
    assert!(m.filter_focus);
    m.handle_key(KeyCode::Char('e'), 10, 25);
    assert_eq!(m.filter.value(), "e");
    m.handle_key(KeyCode::Tab, 10, 25);
    assert!(!m.filter_focus);
    assert_eq!(m.handle_key(KeyCode::Esc, 10, 25), Some(LogsAction::Closed));
    assert!(!m.visible);

    let mut m = MasterLogs { visible: true, tab: 5, scrolls: vec![0], filter: InputState::new(), filter_focus: false, polling: false };
    assert_eq!(m.handle_key(KeyCode::Esc, 10, 25), Some(LogsAction::Nothing));
    assert!(m.visible);
}

fn row(key: &str, value: InfoValue, source: TraitSource) -> InfoRow {
    InfoRow { key: key.to_string(), value, source }
}

fn sample_rows() -> Vec<InfoRow> {
    vec![
        row("os.name", InfoValue::Str("Linux".into()), TraitSource::Preset),
        row("os.arch", InfoValue::Str("x86_64".into()), TraitSource::Preset),
        row("hostname", InfoValue::Str("h1".into()), TraitSource::Preset),
        row("custom", InfoValue::Number("5".into()), TraitSource::Static),
        row("mem.total", InfoValue::Bool(true), TraitSource::Preset),
        row("check", InfoValue::Null, TraitSource::Function),
    ]
}

fn flat(groups: &[InfoGroup]) -> Vec<(String, Vec<(String, String)>)> {
    groups.iter().map(|g| (g.header.clone(), g.children.iter().map(|c| (c.icon.clone(), c.text.clone())).collect())).collect()
}

fn pairs(v: &[(&str, &str)]) -> Vec<(String, String)> {
    v.iter().map(|(a, b)| (a.to_string(), b.to_string())).collect()
}

#[test]
fn info_tree_groups_and_orders_traits() {
    let t = flat(&build_info_tree(&sample_rows()));
    assert_eq!(
        t,
        vec![
            ("Hostname".to_string(), pairs(&[("hostname: ", "h1")])),
            ("Mem".to_string(), pairs(&[("mem.total: ", "yes")])),
            ("Os".to_string(), pairs(&[("os.arch: ", "x86_64"), ("os.name: ", "Linux")])),
            ("Scripts".to_string(), pairs(&[("check: ", "null")])),
            ("Static".to_string(), pairs(&[("custom: ", "5")])),
        ]
    );
}

#[test]
fn info_tree_pads_keys_by_bytes() {
    let rows = vec![
        row("abc", InfoValue::Str("1".into()), TraitSource::Static),
        row("a", InfoValue::Array(vec![InfoValue::Bool(false), InfoValue::Str("x".into())]), TraitSource::Static),
        row("\u{e9}", InfoValue::Array(vec![]), TraitSource::Function),
        row("ab", InfoValue::Object("{}".into()), TraitSource::Function),
    ];
    let t = flat(&build_info_tree(&rows));
    assert_eq!(
        t,
        vec![
            ("Scripts".to_string(), pairs(&[("ab: ", "{}"), ("\u{e9} : ", "[]")])),
            ("Static".to_string(), pairs(&[("a  : ", "no, x"), ("abc: ", "1")])),
        ]
    );
}

#[test]
fn info_tree_uppercases_group_names() {
    assert_eq!(trait_group_exec("\u{e9}t\u{e9}.x", TraitSource::Preset), "\u{c9}t\u{e9}");
    assert_eq!(trait_group_exec("\u{df}ys", TraitSource::Preset), "SSys");
    assert_eq!(trait_group_exec("net", TraitSource::Preset), "Net");
    assert_eq!(trait_group_exec(".x", TraitSource::Preset), "");
    assert_eq!(trait_group_exec("x.y", TraitSource::Static), "Static");
    assert_eq!(trait_group_exec("x.y", TraitSource::Function), "Scripts");
}

#[test]
fn info_tree_filters_on_values() {
    let t = flat(&build_filtered_info_tree(&sample_rows(), "LIN"));
    assert_eq!(t, vec![("Os".to_string(), pairs(&[("os.name: ", "Linux")]))]);
    assert_eq!(build_filtered_info_tree(&sample_rows(), "").len(), 5);
    assert!(build_filtered_info_tree(&sample_rows(), "zzz").is_empty());
}

fn traits_popup() -> TraitsPopup {
    TraitsPopup { visible: true, rows: sample_rows(), filter: InputState::new(), filter_focus: false, tree: None, modified: false }
}

#[test]
fn traits_popup_tree_keys() {
    let mut p = traits_popup();
    assert!(!p.handle_key(KeyCode::Down));
    let ts = p.tree.clone().unwrap();
    assert_eq!(ts.selected(), (0, Some(0)));
    assert!((0..5).all(|i| ts.is_expanded(i)));
    p.handle_key(KeyCode::Left);
    let ts = p.tree.clone().unwrap();
    assert_eq!(ts.selected(), (0, None));
    assert!(!ts.is_expanded(0));
    p.handle_key(KeyCode::Enter);
    assert!(p.tree.clone().unwrap().is_expanded(0));
    p.handle_key(KeyCode::PageDown);
    assert_eq!(p.tree.clone().unwrap().selected(), (4, Some(0)));
    p.handle_key(KeyCode::Char('-'));
    let ts = p.tree.clone().unwrap();
    assert!((0..5).all(|i| !ts.is_expanded(i)));
    assert_eq!(ts.selected(), (4, None));
    p.handle_key(KeyCode::Up);
    assert_eq!(p.tree.clone().unwrap().selected(), (3, None));
    p.handle_key(KeyCode::Char('+'));
    assert!((0..5).all(|i| p.tree.clone().unwrap().is_expanded(i)));
    assert!(!p.handle_key(KeyCode::Char('x')));
    assert!(p.handle_key(KeyCode::Esc));
    assert!(!p.visible);
}

#[test]
fn traits_popup_filter_resets_tree() {
    let mut p = traits_popup();
    p.handle_key(KeyCode::Down);
    assert!(p.tree.is_some());
    p.handle_key(KeyCode::Tab);
    assert!(p.filter_focus);
    p.handle_key(KeyCode::Char('z'));
    assert!(p.tree.is_none());
    assert_eq!(p.filter.value(), "z");
    p.handle_key(KeyCode::Tab);
    assert!(p.filter_focus);
    assert!(p.tree.is_none());
    p.handle_key(KeyCode::Backspace);
    p.handle_key(KeyCode::Char('l'));
    p.handle_key(KeyCode::Tab);
    assert!(!p.filter_focus);
    let ts = p.tree.clone().unwrap();
    assert!(ts.is_expanded(0));
    assert_eq!(ts.selected(), (0, None));
    p.handle_key(KeyCode::Tab);
    p.handle_key(KeyCode::Esc);
    assert!(!p.filter_focus);
    assert!(p.visible);
}

#[test]
fn trait_edits_keep_expanded_groups() {
    let mut p = traits_popup();
    let mut ts = TreeState::new(5);
    ts.expand(2);
    p.tree = Some(ts);
    p.apply_trait_edit("zeta".into(), "v".into());
    assert!(p.modified);
    assert_eq!(p.rows.len(), 7);
    assert_eq!(p.rows[6].key, "zeta");
    assert!(matches!(&p.rows[6].value, InfoValue::Str(s) if s == "v"));
    assert_eq!(p.rows[6].source, TraitSource::Static);
    let ts = p.tree.clone().unwrap();
    assert!(ts.is_expanded(2));
    assert!(!ts.is_expanded(0) && !ts.is_expanded(1) && !ts.is_expanded(3) && !ts.is_expanded(4));

    p.apply_trait_edit("hostname".into(), "h2".into());
    assert_eq!(p.rows.len(), 7);
    assert!(matches!(&p.rows[2].value, InfoValue::Str(s) if s == "h2"));
    assert_eq!(p.rows[2].source, TraitSource::Preset);

    p.apply_trait_edit("hostname".into(), "".into());
    assert_eq!(p.rows.len(), 6);
    assert!(p.rows.iter().all(|r| r.key != "hostname"));
    // "Hostname" is gone: "Os" is now the second group and stays expanded.
    let ts = p.tree.clone().unwrap();
    assert!(ts.is_expanded(1));
    assert!(!ts.is_expanded(0));

    let mut p = traits_popup();
    p.apply_trait_edit("os.name".into(), "".into());
    assert!(p.tree.clone().unwrap().selected() == (0, None));
    assert!((0..5).all(|i| !p.tree.clone().unwrap().is_expanded(i)));
}

#[test]
fn tag_popup_editing_by_bytes() {
    let rows = sample_rows();
    let mut t = TagPopup::open();
    t.handle_key(KeyCode::Char('a'), &rows);
    t.handle_key(KeyCode::Char('b'), &rows);
    assert_eq!((t.key_buf.as_str(), t.pos), ("ab", 2));
    t.handle_key(KeyCode::Left, &rows);
    assert_eq!(t.pos, 1);
    // A typed character goes in at the next boundary after the cursor.
    t.handle_key(KeyCode::Char('x'), &rows);
    assert_eq!((t.key_buf.as_str(), t.pos), ("abx", 3));
    t.handle_key(KeyCode::Home, &rows);
    t.handle_key(KeyCode::Backspace, &rows);
    assert_eq!((t.key_buf.as_str(), t.pos), ("bx", 0));
    t.handle_key(KeyCode::Delete, &rows);
    assert_eq!((t.key_buf.as_str(), t.pos), ("x", 0));
    t.handle_key(KeyCode::End, &rows);
    assert_eq!(t.pos, 1);
    t.handle_key(KeyCode::Char('\u{e9}'), &rows);
    assert_eq!((t.key_buf.as_str(), t.pos), ("x\u{e9}", 3));
    t.handle_key(KeyCode::Left, &rows);
    assert_eq!(t.pos, 1);
    t.handle_key(KeyCode::Right, &rows);
    assert_eq!(t.pos, 3);
    t.handle_key(KeyCode::Backspace, &rows);
    assert_eq!((t.key_buf.as_str(), t.pos), ("x", 1));
}

#[test]
fn tag_popup_focus_and_prefill() {
    let rows = sample_rows();
    let mut t = TagPopup::open();
    for c in "hostname".chars() {
        t.handle_key(KeyCode::Char(c), &rows);
    }
    assert_eq!(t.handle_key(KeyCode::Tab, &rows), Some(TagOutcome::Nothing));
    assert_eq!((t.focus, t.val_buf.as_str(), t.pos), (1, "h1", 2));
    t.handle_key(KeyCode::Char('!'), &rows);
    assert_eq!(t.val_buf, "h1!");
    t.handle_key(KeyCode::BackTab, &rows);
    assert_eq!((t.focus, t.pos), (0, 0));
    t.handle_key(KeyCode::Enter, &rows);
    assert_eq!(t.focus, 1);
    assert_eq!(t.handle_key(KeyCode::Enter, &rows), Some(TagOutcome::Nothing));
    assert_eq!(t.focus, 2);
    assert_eq!(t.handle_key(KeyCode::Enter, &rows), Some(TagOutcome::Commit));
    assert!(!t.visible);
    assert_eq!(t.handle_key(KeyCode::Enter, &rows), None);

    let mut t = TagPopup::open();
    t.handle_key(KeyCode::Char('k'), &rows);
    t.handle_key(KeyCode::Tab, &rows);
    assert_eq!((t.focus, t.val_buf.as_str(), t.pos), (1, "", 0));
    t.handle_key(KeyCode::Tab, &rows);
    t.handle_key(KeyCode::Tab, &rows);
    assert_eq!(t.focus, 3);
    assert_eq!(t.handle_key(KeyCode::Enter, &rows), Some(TagOutcome::Closed));

    let mut t = TagPopup::open();
    t.handle_key(KeyCode::BackTab, &rows);
    t.handle_key(KeyCode::BackTab, &rows);
    assert_eq!(t.focus, 2);
    assert_eq!(t.handle_key(KeyCode::Enter, &rows), Some(TagOutcome::Closed));
    let mut t = TagPopup::open();
    assert_eq!(t.handle_key(KeyCode::Esc, &rows), Some(TagOutcome::Closed));
    assert!(!t.visible);
}

#[test]
fn typing_then_backspace_at_the_end_restores_the_field() {
    let rows = sample_rows();
    for text in ["", "ab", "x\u{e9}", "\u{65e5}\u{672c}"] {
        for c in ['z', '\u{e9}', '\u{1F600}'] {
            let mut t = TagPopup::open();
            t.key_buf = text.to_string();
            t.handle_key(KeyCode::End, &rows);
            let end = t.pos;
            t.handle_key(KeyCode::Char(c), &rows);
            t.handle_key(KeyCode::Backspace, &rows);
            assert_eq!((t.key_buf.as_str(), t.pos), (text, end));
        }
    }
}

#[test]
fn empty_filter_gives_the_whole_tree() {
    assert_eq!(flat(&build_filtered_info_tree(&sample_rows(), "")), flat(&build_info_tree(&sample_rows())));
}

#[test]
fn tree_groups_are_sorted_and_rows_in_key_order() {
    let mut rows = sample_rows();
    rows.push(row("os.kernel", InfoValue::Str("6.1".into()), TraitSource::Preset));
    rows.push(row("zz", InfoValue::Null, TraitSource::Static));
    rows.push(row("aa", InfoValue::Null, TraitSource::Static));
    let t = build_info_tree(&rows);
    for w in t.windows(2) {
        assert!(w[0].header < w[1].header);
    }
    let os = t.iter().find(|g| g.header == "Os").unwrap();
    let keys: Vec<&str> = os.children.iter().map(|c| c.icon.trim_end_matches(": ").trim_end()).collect();
    assert_eq!(keys, vec!["os.arch", "os.kernel", "os.name"]);
}
