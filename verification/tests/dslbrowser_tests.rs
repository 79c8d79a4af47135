use sysinspect_ui::dslbrowser::{
    column_widths, composer_button, dash_rule, handle_list_nav, ActionDef, DslBrowser, DslCall, DslFocus, ListBox, ModelRow,
    TargetActions,
};
use sysinspect_ui::keys::KeyCode;
use sysinspect_ui::sortutil::CtxVar;

fn s(x: &str) -> String {
    x.to_string()
}

fn ctx(key: &str, desc: &str, required: bool) -> CtxVar {
    CtxVar { key: s(key), desc: s(desc), required }
}

fn model(id: &str, enabled: bool) -> ModelRow {
    ModelRow {
        id: s(id),
        enabled,
        name: s(id),
        version: s("0.1"),
        description: format!("{id} description"),
        entrypoints: vec![s("cb-main"), s("disk"), s("net")],
        entrypoint_kinds: vec![s("checkbook"), s("entity")],
        modules: vec![],
        states: vec![s("$"), s("online")],
        target_actions: vec![TargetActions {
            target: s("disk"),
            actions: vec![
                ActionDef { description: s("Check disk space"), states: vec![s("$"), s("online")], context: vec![ctx("path", "mount point", true)] },
                ActionDef { description: s("Check inodes"), states: vec![s("online")], context: vec![ctx("limit", "", false), ctx("path", "other", false)] },
            ],
        }],
    }
}

fn items(lb: &ListBox) -> Vec<String> {
    lb.items.clone()
}

#[test]
fn new_composer_lists_sample_minions() {
    let b = DslBrowser::new();
    assert!(!b.visible);
    assert_eq!(b.query, "*");
    assert_eq!(b.minions.items.len(), 100);
    assert_eq!(b.minions.items[0], "minion-001.example.net");
    assert_eq!(b.minions.items[99], "minion-100.example.net");
    assert_eq!(items(&b.models), vec![s("(press 'c' to load)")]);
    assert_eq!(b.focus, DslFocus::Query);
}

#[test]
fn set_minions_filters_by_glob() {
    let mut b = DslBrowser::new();
    b.query = s(" web* ");
    b.set_minions(vec![s("web1"), s("db1"), s("web2")]);
    assert_eq!(items(&b.minions), vec![s("web1"), s("web2")]);
    b.query = s("zzz");
    b.set_minions(vec![s("web1")]);
    assert_eq!(items(&b.minions), vec![s("(no matches)")]);
    b.set_minions(vec![]);
    assert_eq!(items(&b.minions), vec![s("(no minions)")]);
    b.query = s("   ");
    b.set_minions(vec![s("a"), s("b")]);
    assert_eq!(items(&b.minions), vec![s("a"), s("b")]);
}

#[test]
fn invalid_glob_lists_every_minion() {
    let mut b = DslBrowser::new();
    b.query = s("[");
    b.set_minions(vec![s("a"), s("b")]);
    assert_eq!(items(&b.minions), vec![s("a"), s("b")]);
}

#[test]
fn load_models_keeps_enabled_ones() {
    let mut b = DslBrowser::new();
    b.load_models(vec![model("m1", true), model("m2", false), model("m3", true)], vec![s("broken")]);
    assert!(b.visible);
    assert_eq!(items(&b.models), vec![s("(select)"), s("m1"), s("m3")]);
    assert_eq!(b.model_data.len(), 2);
    assert_eq!(items(&b.checkbook_labels), vec![s("—")]);
    assert_eq!(items(&b.target_entities), vec![s("—")]);
    assert_eq!(items(&b.states), vec![s("$")]);
    assert_eq!(b.catalog_diagnostics, vec![s("broken")]);
    assert_eq!(b.build_query(), None);
    let mut empty = DslBrowser::new();
    empty.load_models(vec![model("m2", false)], vec![]);
    assert_eq!(items(&empty.models), vec![s("(no models found)")]);
}

fn loaded() -> DslBrowser {
    let mut b = DslBrowser::new();
    b.load_models(vec![model("m1", true)], vec![]);
    b
}

#[test]
fn choosing_a_model_fills_the_entry_lists() {
    let mut b = loaded();
    b.focus = DslFocus::Models;
    assert!(b.handle_key(KeyCode::Down));
    assert_eq!(b.model_data_index(), Some(0));
    assert_eq!(items(&b.checkbook_labels), vec![s("(select)"), s("cb-main")]);
    assert_eq!(items(&b.target_entities), vec![s("(select)"), s("disk"), s("net")]);
    assert_eq!(items(&b.states), vec![s("(default)"), s("online")]);
    assert!(!b.context_active);
    assert_eq!(b.build_query(), None);
}

#[test]
fn choosing_a_target_lists_its_states_and_context() {
    let mut b = loaded();
    b.focus = DslFocus::Models;
    b.handle_key(KeyCode::Down);
    b.focus = DslFocus::Target;
    b.handle_key(KeyCode::Down);
    assert_eq!(items(&b.states), vec![s("(default)"), s("online")]);
    assert!(b.context_active);
    let keys: Vec<String> = b.context_fields.iter().map(|f| f.key.clone()).collect();
    assert_eq!(keys, vec![s("path")]);
    assert_eq!(b.build_query(), Some(s("m1/disk/$")));
    assert_eq!(b.build_target_description_unchecked(), Some(s("Check disk space")));
    b.focus = DslFocus::State;
    b.handle_key(KeyCode::Down);
    let keys: Vec<String> = b.context_fields.iter().map(|f| f.key.clone()).collect();
    assert_eq!(keys, vec![s("limit"), s("path")]);
    assert_eq!(b.context_fields[1].desc, "mount point");
    assert!(b.context_fields.iter().all(|f| f.value.is_empty() && f.state.value().is_empty() && f.state.cursor_pos() == 0));
    assert_eq!(b.build_query(), Some(s("m1/disk/online")));
    assert_eq!(b.build_target_description_unchecked(), Some(s("1. Check disk space\n2. Check inodes")));
}

#[test]
fn checkbook_selection_builds_a_checkbook_query() {
    let mut b = loaded();
    b.focus = DslFocus::Models;
    b.handle_key(KeyCode::Down);
    b.focus = DslFocus::Checkbook;
    b.handle_key(KeyCode::Down);
    assert_eq!(b.build_query(), Some(s("m1:cb-main")));
}

#[test]
fn call_with_missing_required_context_is_refused() {
    let mut b = loaded();
    b.focus = DslFocus::Models;
    b.handle_key(KeyCode::Down);
    b.focus = DslFocus::Target;
    b.handle_key(KeyCode::Down);
    b.focus = DslFocus::Call;
    assert!(b.handle_key(KeyCode::Enter));
    assert!(b.call_requested);
    assert_eq!(b.error_required_key, vec![s("path")]);
    match b.take_call() {
        Some(DslCall::Refused(msg)) => assert_eq!(msg, "Required context fields are missing:\n  - path"),
        _ => panic!("expected a refusal"),
    }
    assert!(!b.call_requested);
    assert!(b.take_call().is_none());
}

#[test]
fn call_with_context_hands_out_the_query() {
    let mut b = loaded();
    b.focus = DslFocus::Models;
    b.handle_key(KeyCode::Down);
    b.focus = DslFocus::Target;
    b.handle_key(KeyCode::Down);
    b.focus = DslFocus::ContextField(0);
    for c in "/var".chars() {
        b.handle_key(KeyCode::Char(c));
    }
    assert_eq!(b.context_fields[0].value, "/var");
    assert_eq!(b.build_context_json(), Some(s("path:/var")));
    b.focus = DslFocus::Call;
    b.handle_key(KeyCode::Enter);
    assert!(!b.visible);
    match b.take_call() {
        Some(DslCall::Send { query, minion_query, context }) => {
            assert_eq!(query, "m1/disk/$");
            assert_eq!(minion_query, "*");
            assert_eq!(context, Some(s("path:/var")));
        }
        _ => panic!("expected a call"),
    }
}

#[test]
fn call_without_model_names_the_missing_choice() {
    let mut b = loaded();
    b.focus = DslFocus::Call;
    b.handle_key(KeyCode::Enter);
    match b.take_call() {
        Some(DslCall::Refused(msg)) => assert_eq!(msg, "Select Model first!"),
        _ => panic!("expected a refusal"),
    }
    let mut b = loaded();
    b.focus = DslFocus::Models;
    b.handle_key(KeyCode::Down);
    b.focus = DslFocus::Call;
    b.handle_key(KeyCode::Enter);
    match b.take_call() {
        Some(DslCall::Refused(msg)) => assert_eq!(msg, "Select Target first!"),
        _ => panic!("expected a refusal"),
    }
}

#[test]
fn tab_skips_the_context_without_fields() {
    let mut b = loaded();
    b.focus = DslFocus::State;
    b.handle_key(KeyCode::Tab);
    assert_eq!(b.focus, DslFocus::Call);
    b.handle_key(KeyCode::BackTab);
    assert_eq!(b.focus, DslFocus::State);
    b.focus = DslFocus::Checkbook;
    b.handle_key(KeyCode::BackTab);
    assert_eq!(b.focus, DslFocus::Models);
}

#[test]
fn focus_tab_order_round_trips() {
    let stops = [
        DslFocus::Query,
        DslFocus::Minions,
        DslFocus::Models,
        DslFocus::Checkbook,
        DslFocus::Target,
        DslFocus::State,
        DslFocus::ContextField(0),
        DslFocus::Call,
        DslFocus::Close,
    ];
    for f in stops {
        assert_eq!(f.next().prev(), f);
        assert_eq!(f.prev().next(), f);
    }
    assert_eq!(DslFocus::Close.next(), DslFocus::Query);
}

#[test]
fn details_popup_opens_and_scrolls() {
    let mut b = loaded();
    b.focus = DslFocus::Models;
    b.handle_key(KeyCode::Down);
    b.handle_key(KeyCode::Char('d'));
    assert!(b.desc_popup_visible);
    assert_eq!(b.desc_popup_text, "Model: m1\nm1 description");
    b.handle_key(KeyCode::Down);
    b.handle_key(KeyCode::Down);
    b.handle_key(KeyCode::Up);
    assert_eq!(b.desc_popup_scroll, 1);
    b.handle_key(KeyCode::Esc);
    assert!(!b.desc_popup_visible);
    assert!(b.visible);
    b.handle_key(KeyCode::Esc);
    assert!(!b.visible);
}

#[test]
fn full_description_lists_target_and_context() {
    let mut b = loaded();
    b.focus = DslFocus::Models;
    b.handle_key(KeyCode::Down);
    b.focus = DslFocus::Target;
    b.handle_key(KeyCode::Down);
    b.focus = DslFocus::State;
    b.handle_key(KeyCode::Down);
    let text = b.build_full_description();
    assert_eq!(
        text,
        "Model: m1\nm1 description\n\nTarget \"disk\":\n1. Check disk space\n2. Check inodes\n\nContext:\nlimit  optional  Unknown field\n path  required  mount point"
    );
}

#[test]
fn list_navigation_pages_by_ten() {
    let mut lb = ListBox::new((0..30).map(|i| i.to_string()).collect(), 0);
    assert!(handle_list_nav(KeyCode::PageDown, &mut lb));
    assert_eq!(lb.selected, Some(10));
    assert!(handle_list_nav(KeyCode::PageUp, &mut lb));
    assert_eq!(lb.selected, Some(0));
    assert!(!handle_list_nav(KeyCode::Enter, &mut lb));
    let mut short = ListBox::new(vec![s("a"), s("b")], 1);
    handle_list_nav(KeyCode::Down, &mut short);
    assert_eq!(short.selected, Some(1));
}

#[test]
fn layout_helpers() {
    assert_eq!(column_widths(100), (14, 30));
    assert_eq!(column_widths(40), (12, 0));
    assert_eq!(dash_rule(5, false), None);
    assert_eq!(dash_rule(16, false), Some(s("─ Description ─")));
    assert_eq!(dash_rule(30, true), Some(s("─ Description ('d' for more) ─")));
    assert_eq!(composer_button("Call"), "[     Call     ]");
}

#[test]
fn enabled_model_ids_are_sorted_and_unique() {
    let rows = vec![model("zeta", true), model("alpha", false), model("beta", true), model("zeta", true)];
    assert_eq!(sysinspect_ui::mainview::enabled_model_ids(&rows), vec![s("beta"), s("zeta")]);
    assert!(sysinspect_ui::mainview::enabled_model_ids(&vec![model("a", false)]).is_empty());
}

#[test]
fn tab_order_matches_next_and_prev() {
    let o = DslFocus::tab_order();
    assert_eq!(o.len(), 9);
    assert_eq!(o[0], DslFocus::Query);
    assert_eq!(o[6], DslFocus::ContextField(0));
    assert_eq!(o[8], DslFocus::Close);
    for i in 0..9 {
        assert_eq!(o[i].next(), o[(i + 1) % 9]);
        assert_eq!(o[i].prev(), o[(i + 8) % 9]);
    }
}
