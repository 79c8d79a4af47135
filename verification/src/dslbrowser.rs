use crate::chars::{
    append_chars, append_str, chars_eq, chars_of, digit_char, digit_exec, is_ws, is_ws_char, push_decimal, dec_text, slice_chars,
    string_from, string_of,
};
use crate::globmatch::CompiledGlob;
use crate::minreg::{trim, trim_exec};
use crate::chars::{spaces, utf8_len, utf8_len_wide};
use crate::elements::right_align_spec;
use crate::setup::{join_strings, join_with};
use crate::globmatch::{compile_glob, glob_match, glob_matches, glob_valid};
use crate::keys::KeyCode;
use crate::sortutil::{CtxVar, ctx_views, dedup_by_key_sorted, first_per_key, first_per_key_sorted, sort_dedup, strictly_sorted};
use crate::textinput::{edit_input, input_room, input_cursor, input_insert_char, input_limit, input_new, input_text, input_value, key_edit};
use vstd::prelude::*;

verus! {

/// Focus inside the query composer.
#[derive(Debug, Clone, Copy, PartialEq, Eq, Structural)]
pub enum DslFocus {
    Query,
    Minions,
    Models,
    Checkbook,
    Target,
    State,
    ContextField(usize),
    Call,
    Close,
}

/// Position in the tab order; a context field other than the first is not in the order and
/// counts as the first stop.
pub open spec fn dsl_pos(f: DslFocus) -> nat {
    match f {
        DslFocus::Query => 0,
        DslFocus::Minions => 1,
        DslFocus::Models => 2,
        DslFocus::Checkbook => 3,
        DslFocus::Target => 4,
        DslFocus::State => 5,
        DslFocus::ContextField(i) => if i == 0 { 6 } else { 0 },
        DslFocus::Call => 7,
        DslFocus::Close => 8,
    }
}

/// The stop at a position of the tab order.
pub open spec fn dsl_at(i: nat) -> DslFocus {
    if i == 0 {
        DslFocus::Query
    } else if i == 1 {
        DslFocus::Minions
    } else if i == 2 {
        DslFocus::Models
    } else if i == 3 {
        DslFocus::Checkbook
    } else if i == 4 {
        DslFocus::Target
    } else if i == 5 {
        DslFocus::State
    } else if i == 6 {
        DslFocus::ContextField(0)
    } else if i == 7 {
        DslFocus::Call
    } else {
        DslFocus::Close
    }
}

pub open spec fn dsl_next(f: DslFocus) -> DslFocus {
    dsl_at((dsl_pos(f) + 1) % 9)
}

pub open spec fn dsl_prev(f: DslFocus) -> DslFocus {
    dsl_at((dsl_pos(f) + 8) % 9)
}

impl DslFocus {
    /// The focus stops in tab order.
    pub fn tab_order() -> (r: Vec<DslFocus>)
        ensures
            r@.len() == 9,
            forall|i: int| 0 <= i < 9 ==> #[trigger] r@[i] == dsl_at(i as nat),
    {
        let mut v: Vec<DslFocus> = Vec::new();
        v.push(DslFocus::Query);
        v.push(DslFocus::Minions);
        v.push(DslFocus::Models);
        v.push(DslFocus::Checkbook);
        v.push(DslFocus::Target);
        v.push(DslFocus::State);
        v.push(DslFocus::ContextField(0));
        v.push(DslFocus::Call);
        v.push(DslFocus::Close);
        v
    }

    fn pos(self) -> (r: usize)
        ensures
            r == dsl_pos(self),
    {
        match self {
            DslFocus::Query => 0,
            DslFocus::Minions => 1,
            DslFocus::Models => 2,
            DslFocus::Checkbook => 3,
            DslFocus::Target => 4,
            DslFocus::State => 5,
            DslFocus::ContextField(i) => if i == 0 { 6 } else { 0 },
            DslFocus::Call => 7,
            DslFocus::Close => 8,
        }
    }

    fn at(i: usize) -> (r: DslFocus)
        ensures
            r == dsl_at(i as nat),
    {
        if i == 0 {
            DslFocus::Query
        } else if i == 1 {
            DslFocus::Minions
        } else if i == 2 {
            DslFocus::Models
        } else if i == 3 {
            DslFocus::Checkbook
        } else if i == 4 {
            DslFocus::Target
        } else if i == 5 {
            DslFocus::State
        } else if i == 6 {
            DslFocus::ContextField(0)
        } else if i == 7 {
            DslFocus::Call
        } else {
            DslFocus::Close
        }
    }

    /// The next stop of the tab order, wrapping around.
    pub fn next(self) -> (r: DslFocus)
        ensures
            r == dsl_next(self),
    {
        Self::at((self.pos() + 1) % 9)
    }

    /// The previous stop of the tab order, wrapping around.
    pub fn prev(self) -> (r: DslFocus)
        ensures
            r == dsl_prev(self),
    {
        Self::at((self.pos() + 8) % 9)
    }
}

/// The stops of the tab order: every focus but a context field past the first.
pub open spec fn dsl_in_order(f: DslFocus) -> bool {
    match f {
        DslFocus::ContextField(i) => i == 0,
        _ => true,
    }
}

/// Law: on a stop of the tab order, Tab then Shift+Tab (and the reverse) return to it.
pub proof fn law_dsl_focus_round_trip(f: DslFocus)
    requires
        dsl_in_order(f),
    ensures
        dsl_prev(dsl_next(f)) == f,
        dsl_next(dsl_prev(f)) == f,
{
}

/// A list with a selected row and a scroll offset.
pub struct ListBox {
    pub items: Vec<String>,
    pub selected: Option<usize>,
    pub scroll: usize,
}

/// Selection and scroll after one step up: the selection moves up unless on the first row,
/// and the view follows it.
pub open spec fn lb_up(sel: Option<usize>, scroll: usize) -> (Option<usize>, usize) {
    match sel {
        Some(cur) => if cur > 0 {
            (Some((cur - 1) as usize), if cur - 1 < scroll { (scroll - 1) as usize } else { scroll })
        } else {
            (sel, scroll)
        },
        None => (sel, scroll),
    }
}

/// Selection after one step down: the selection moves down unless on the last row.
pub open spec fn lb_down(sel: Option<usize>, len: nat) -> Option<usize> {
    match sel {
        Some(cur) => if cur + 1 < len { Some((cur + 1) as usize) } else { sel },
        None => sel,
    }
}

pub open spec fn lb_up_n(sel: Option<usize>, scroll: usize, n: nat) -> (Option<usize>, usize)
    decreases n,
{
    if n == 0 {
        (sel, scroll)
    } else {
        let s = lb_up_n(sel, scroll, (n - 1) as nat);
        lb_up(s.0, s.1)
    }
}

pub open spec fn lb_down_n(sel: Option<usize>, len: nat, n: nat) -> Option<usize>
    decreases n,
{
    if n == 0 {
        sel
    } else {
        lb_down(lb_down_n(sel, len, (n - 1) as nat), len)
    }
}

/// Selection and scroll after a navigation key: up and down move by one, page keys by ten;
/// `None` for any other key.
pub open spec fn lb_nav(sel: Option<usize>, scroll: usize, len: nat, key: KeyCode) -> Option<(Option<usize>, usize)> {
    match key {
        KeyCode::Up => Some(lb_up(sel, scroll)),
        KeyCode::Down => Some((lb_down(sel, len), scroll)),
        KeyCode::PageUp => Some(lb_up_n(sel, scroll, 10)),
        KeyCode::PageDown => Some((lb_down_n(sel, len, 10), scroll)),
        _ => None,
    }
}

impl ListBox {
    /// A list with the given rows and `selected` selected, scrolled to the top.
    pub fn new(items: Vec<String>, selected: usize) -> (r: ListBox)
        ensures
            r.items == items,
            r.selected == Some(selected),
            r.scroll == 0,
    {
        ListBox { items, selected: Some(selected), scroll: 0 }
    }

    /// A list of one row, selected.
    pub fn single(item: &str) -> (r: ListBox)
        ensures
            r.items@.len() == 1,
            r.items@[0]@ == item@,
            r.selected == Some(0usize),
            r.scroll == 0,
    {
        let mut v: Vec<String> = Vec::new();
        v.push(string_from(item));
        ListBox::new(v, 0)
    }

    pub fn selected(&self) -> (r: Option<usize>)
        ensures
            r == self.selected,
    {
        self.selected
    }

    /// The selected row, or the first one when nothing is selected, if the list has it.
    pub open spec fn current(&self) -> Option<Seq<char>> {
        let i = match self.selected {
            Some(s) => s as int,
            None => 0,
        };
        if 0 <= i < self.items@.len() { Some(self.items@[i]@) } else { None }
    }

    pub fn current_exec(&self) -> (r: Option<&String>)
        ensures
            r is Some <==> self.current() is Some,
            r is Some ==> r->0@ == self.current()->0,
    {
        let i = match self.selected {
            Some(s) => s,
            None => 0,
        };
        if i < self.items.len() {
            Some(&self.items[i])
        } else {
            None
        }
    }

    pub fn up(&mut self)
        ensures
            (final(self).selected, final(self).scroll) == lb_up(old(self).selected, old(self).scroll),
            final(self).items == old(self).items,
    {
        match self.selected {
            Some(cur) => {
                if cur > 0 {
                    self.selected = Some(cur - 1);
                    if cur - 1 < self.scroll {
                        self.scroll = self.scroll - 1;
                    }
                }
            },
            None => {},
        }
    }

    pub fn down(&mut self)
        ensures
            final(self).selected == lb_down(old(self).selected, old(self).items@.len()),
            final(self).scroll == old(self).scroll,
            final(self).items == old(self).items,
    {
        match self.selected {
            Some(cur) => {
                if cur < self.items.len() && self.items.len() - cur > 1 {
                    self.selected = Some(cur + 1);
                }
            },
            None => {},
        }
    }
}

/// A navigation key on a list (see `lb_nav`); returns whether the key was one.
pub fn handle_list_nav(code: KeyCode, lb: &mut ListBox) -> (used: bool)
    ensures
        used == lb_nav(old(lb).selected, old(lb).scroll, old(lb).items@.len(), code) is Some,
        used ==> (final(lb).selected, final(lb).scroll) == lb_nav(old(lb).selected, old(lb).scroll, old(lb).items@.len(), code)->0,
        !used ==> final(lb).selected == old(lb).selected && final(lb).scroll == old(lb).scroll,
        final(lb).items == old(lb).items,
{
    match code {
        KeyCode::Up => {
            lb.up();
            true
        },
        KeyCode::Down => {
            lb.down();
            true
        },
        KeyCode::PageUp => {
            let mut k: usize = 0;
            while k < 10
                invariant
                    k <= 10,
                    lb.items == old(lb).items,
                    (lb.selected, lb.scroll) == lb_up_n(old(lb).selected, old(lb).scroll, k as nat),
                decreases 10 - k,
            {
                lb.up();
                k = k + 1;
            }
            true
        },
        KeyCode::PageDown => {
            let mut k: usize = 0;
            while k < 10
                invariant
                    k <= 10,
                    lb.items == old(lb).items,
                    lb.scroll == old(lb).scroll,
                    lb.selected == lb_down_n(old(lb).selected, old(lb).items@.len(), k as nat),
                decreases 10 - k,
            {
                lb.down();
                k = k + 1;
            }
            true
        },
        _ => false,
    }
}


/// An action that a model offers on a target: its description, the states it applies to, and the
/// context variables it accepts.
pub struct ActionDef {
    pub description: String,
    pub states: Vec<String>,
    pub context: Vec<CtxVar>,
}

/// The actions of a model on one target entity.
pub struct TargetActions {
    pub target: String,
    pub actions: Vec<ActionDef>,
}

/// A model of the master's catalogue, as the composer reads it.
pub struct ModelRow {
    pub id: String,
    pub enabled: bool,
    pub name: String,
    pub version: String,
    pub description: String,
    pub entrypoints: Vec<String>,
    pub entrypoint_kinds: Vec<String>,
    pub modules: Vec<String>,
    pub states: Vec<String>,
    pub target_actions: Vec<TargetActions>,
}

/// A context variable being filled in the composer.
pub struct ContextField {
    pub key: String,
    pub value: String,
    pub desc: String,
    pub required: bool,
    pub state: ratatui_cheese::input::InputState,
}

/// Key, description and required flag of each field.
pub open spec fn fields_view(f: Seq<ContextField>) -> Seq<(Seq<char>, Seq<char>, bool)> {
    f.map_values(|c: ContextField| (c.key@, c.desc@, c.required))
}

/// The rows of a list.
pub open spec fn items_of(lb: ListBox) -> Seq<Seq<char>> {
    lb.items.deep_view()
}

/// The entry points of a model of the given kind (`checkbook`, or anything else), in order; an
/// entry point without a kind counts as an entity.
pub open spec fn entries_of(row: ModelRow, n: nat, checkbook: bool) -> Seq<Seq<char>>
    decreases n,
{
    if n == 0 {
        Seq::<Seq<char>>::empty()
    } else {
        let i = (n - 1) as int;
        let kind = if i < row.entrypoint_kinds@.len() { row.entrypoint_kinds@[i]@ } else { "entity"@ };
        let rest = entries_of(row, (n - 1) as nat, checkbook);
        if (kind == "checkbook"@) == checkbook { rest.push(row.entrypoints@[i]@) } else { rest }
    }
}

/// A list of choices with its header: `(select)` first, or `(none)` alone when empty.
pub open spec fn labeled(list: Seq<Seq<char>>) -> Seq<Seq<char>> {
    if list.len() == 0 { seq!["(none)"@] } else { seq!["(select)"@] + list }
}

/// Index into the model data of the selected model (the first row of the model list is a
/// header); -1 when the header is selected.
pub open spec fn model_index(models: ListBox) -> int {
    let sel = match models.selected {
        Some(s) => s as int,
        None => 0,
    };
    sel - 1
}

/// Index of the first target entry for `tid`, or -1.
pub open spec fn find_target(tas: Seq<TargetActions>, tid: Seq<char>) -> int
    decreases tas.len(),
{
    if tas.len() == 0 {
        -1
    } else if tas[0].target@ == tid {
        0
    } else {
        let r = find_target(tas.drop_first(), tid);
        if r < 0 { -1 } else { r + 1 }
    }
}

/// Every state named by the actions, in order, repetitions included.
pub open spec fn all_states(actions: Seq<ActionDef>) -> Seq<Seq<char>>
    decreases actions.len(),
{
    if actions.len() == 0 {
        Seq::<Seq<char>>::empty()
    } else {
        all_states(actions.drop_last()) + actions.last().states.deep_view()
    }
}

/// A state as listed: the default state `$` is shown as `(default)`.
pub open spec fn display_state(s: Seq<char>) -> Seq<char> {
    if s == "$"@ { "(default)"@ } else { s }
}

pub open spec fn display_states(s: Seq<Seq<char>>) -> Seq<Seq<char>> {
    s.map_values(|x: Seq<char>| display_state(x))
}

/// A listed state back as the state it names.
pub open spec fn real_state(d: Seq<char>) -> Seq<char> {
    if d == "(default)"@ { "$"@ } else { d }
}

/// The context variables of the actions that apply to `state`, in order.
pub open spec fn ctx_candidates(actions: Seq<ActionDef>, state: Seq<char>) -> Seq<(Seq<char>, Seq<char>, bool)>
    decreases actions.len(),
{
    if actions.len() == 0 {
        Seq::<(Seq<char>, Seq<char>, bool)>::empty()
    } else {
        let a = actions.last();
        ctx_candidates(actions.drop_last(), state) + if a.states.deep_view().contains(state) {
            ctx_views(a.context@)
        } else {
            Seq::<(Seq<char>, Seq<char>, bool)>::empty()
        }
    }
}

fn copy_strings(v: &Vec<String>) -> (r: Vec<String>)
    ensures
        r.deep_view() == v.deep_view(),
{
    let mut r: Vec<String> = Vec::new();
    let mut i: usize = 0;
    while i < v.len()
        invariant
            i <= v.len(),
            r.deep_view() == v.deep_view().take(i as int),
        decreases v.len() - i,
    {
        let ghost rd = r.deep_view();
        r.push(string_from(v[i].as_str()));
        assert(r.deep_view() =~= rd.push(v@[i as int]@));
        assert(v.deep_view().take(i as int + 1) =~= v.deep_view().take(i as int).push(v@[i as int]@));
        i = i + 1;
    }
    assert(v.deep_view().take(v.len() as int) =~= v.deep_view());
    r
}

fn push_str_item(v: &mut Vec<String>, s: &str)
    ensures
        final(v).deep_view() == old(v).deep_view().push(s@),
{
    let ghost d = v.deep_view();
    v.push(string_from(s));
    assert(v.deep_view() =~= d.push(s@));
}

/// Adds the header to a list of choices, see `labeled`.
fn labeled_exec(list: Vec<String>) -> (r: Vec<String>)
    ensures
        r.deep_view() == labeled(list.deep_view()),
{
    if list.len() == 0 {
        let mut r: Vec<String> = Vec::new();
        push_str_item(&mut r, "(none)");
        assert(r.deep_view() =~= labeled(list.deep_view()));
        r
    } else {
        let mut r: Vec<String> = Vec::new();
        push_str_item(&mut r, "(select)");
        crate::alert::append_strings(&mut r, list);
        assert(r.deep_view() =~= labeled(list.deep_view()));
        r
    }
}

fn display_states_exec(v: &Vec<String>) -> (r: Vec<String>)
    ensures
        r.deep_view() == display_states(v.deep_view()),
{
    let mut r: Vec<String> = Vec::new();
    let mut i: usize = 0;
    let dollar = chars_of("$");
    while i < v.len()
        invariant
            i <= v.len(),
            dollar@ == "$"@,
            r.deep_view() == display_states(v.deep_view().take(i as int)),
        decreases v.len() - i,
    {
        let ghost rd = r.deep_view();
        let c = chars_of(v[i].as_str());
        if chars_eq(&c, &dollar) {
            r.push(string_from("(default)"));
        } else {
            r.push(string_of(&c));
        }
        assert(r.deep_view() =~= rd.push(display_state(v@[i as int]@)));
        assert(display_states(v.deep_view().take(i as int + 1)) =~= display_states(v.deep_view().take(i as int)).push(
            display_state(v@[i as int]@),
        ));
        i = i + 1;
    }
    assert(v.deep_view().take(v.len() as int) =~= v.deep_view());
    r
}


/// The query composer: minion query, model, target or checkbook entry, state and context.
pub struct DslBrowser {
    pub visible: bool,
    pub query: String,
    pub query_state: ratatui_cheese::input::InputState,
    pub models: ListBox,
    pub states: ListBox,
    pub minions: ListBox,
    pub context_fields: Vec<ContextField>,
    pub focus: DslFocus,
    pub query_to_execute: Option<String>,
    pub call_requested: bool,
    pub desc_popup_visible: bool,
    pub desc_popup_text: String,
    pub desc_popup_scroll: usize,
    pub context_active: bool,
    pub error_required_key: Vec<String>,
    pub catalog_diagnostics: Vec<String>,
    pub model_data: Vec<ModelRow>,
    pub all_minions: Vec<String>,
    pub checkbook_labels: ListBox,
    pub target_entities: ListBox,
}

/// The model selected in the model list, if it is one of the loaded models.
pub open spec fn resolved(b: DslBrowser) -> Option<ModelRow> {
    let i = model_index(b.models);
    if 0 <= i < b.model_data@.len() { Some(b.model_data@[i]) } else { None }
}

/// The actions that a model offers on a target, if it has an entry for that target.
pub open spec fn target_actions_in(row: Option<ModelRow>, target: Option<Seq<char>>) -> Option<Seq<ActionDef>> {
    match row {
        Some(r) => match target {
            Some(t) => {
                let k = find_target(r.target_actions@, t);
                if k >= 0 { Some(r.target_actions@[k].actions@) } else { None }
            },
            None => None,
        },
        None => None,
    }
}

/// The actions that the selected model offers on the selected target.
pub open spec fn target_actions_for(b: DslBrowser) -> Option<Seq<ActionDef>> {
    target_actions_in(resolved(b), b.target_entities.current())
}

/// The listed state that applies: the selected state, or `$` when the list has none.
pub open spec fn current_state(states: ListBox) -> Seq<char> {
    match states.current() {
        Some(d) => real_state(d),
        None => "$"@,
    }
}

/// An input field as `InputState::new` makes it: empty, the cursor at the start, no limit.
pub open spec fn fresh_input(s: ratatui_cheese::input::InputState) -> bool {
    input_text(s).len() == 0 && input_cursor(s) == 0 && input_limit(s) is None
}

/// The context fields for `actions` in the given state: one per key, first occurrence, by key,
/// each with an empty value and a fresh input field.
pub open spec fn ctx_applied(states: ListBox, actions: Seq<ActionDef>, active: bool, fields: Seq<ContextField>) -> bool {
    let c = first_per_key(ctx_candidates(actions, current_state(states)));
    if c.len() > 0 {
        &&& active
        &&& fields_view(fields) == c
        &&& forall|j: int| 0 <= j < fields.len() ==> (#[trigger] fields[j]).value@.len() == 0 && fresh_input(fields[j].state)
    } else {
        !active && fields.len() == 0
    }
}

/// Everything but the state list and the context stays.
pub open spec fn same_but_states_ctx(a: DslBrowser, b: DslBrowser) -> bool {
    &&& a.visible == b.visible
    &&& a.query == b.query
    &&& a.query_state == b.query_state
    &&& a.models == b.models
    &&& a.minions == b.minions
    &&& a.focus == b.focus
    &&& a.query_to_execute == b.query_to_execute
    &&& a.call_requested == b.call_requested
    &&& a.desc_popup_visible == b.desc_popup_visible
    &&& a.desc_popup_text == b.desc_popup_text
    &&& a.desc_popup_scroll == b.desc_popup_scroll
    &&& a.error_required_key == b.error_required_key
    &&& a.catalog_diagnostics == b.catalog_diagnostics
    &&& a.model_data == b.model_data
    &&& a.all_minions == b.all_minions
    &&& a.checkbook_labels == b.checkbook_labels
    &&& a.target_entities == b.target_entities
}

/// What choosing a target does to the state list and the context: the states of its actions
/// (sorted, once each) when it has any, with the context of the first; otherwise the model's
/// own states (or `$`) and no context.
pub open spec fn states_for_target(old: DslBrowser, new: DslBrowser) -> bool {
    states_for(resolved(old), old.target_entities.current(), old.states, new)
}

/// The state list and context for a model and target, see `states_for_target`.
pub open spec fn states_for(row: Option<ModelRow>, target: Option<Seq<char>>, old_states: ListBox, new: DslBrowser) -> bool {
    let e = target_actions_in(row, target);
    if e is Some && e->0.len() > 0 && crate::sortutil::sorted_set(all_states(e->0)).len() > 0 {
        &&& items_of(new.states) == display_states(crate::sortutil::sorted_set(all_states(e->0)))
        &&& new.states.selected == Some(0usize)
        &&& new.states.scroll == 0
        &&& ctx_applied(new.states, e->0, new.context_active, new.context_fields@)
    } else {
        &&& !new.context_active
        &&& new.context_fields@.len() == 0
        &&& match row {
            Some(r) => {
                &&& items_of(new.states) == if r.states@.len() == 0 { seq!["$"@] } else { display_states(r.states.deep_view()) }
                &&& new.states.selected == Some(0usize)
                &&& new.states.scroll == 0
            },
            None => new.states == old_states,
        }
    }
}

pub proof fn lemma_find_target_range(tas: Seq<TargetActions>, tid: Seq<char>)
    ensures
        -1 <= find_target(tas, tid) < tas.len(),
    decreases tas.len(),
{
    if tas.len() > 0 && tas[0].target@ != tid {
        lemma_find_target_range(tas.drop_first(), tid);
    }
}

fn find_target_exec(tas: &Vec<TargetActions>, tid: &Vec<char>) -> (r: Option<usize>)
    ensures
        r is Some ==> find_target(tas@, tid@) == r->0 as int && r->0 < tas.len(),
        r is None ==> find_target(tas@, tid@) == -1,
{
    let mut i: usize = 0;
    assert(tas@.skip(0) =~= tas@);
    proof {
        lemma_find_target_range(tas@, tid@);
    }
    while i < tas.len()
        invariant
            i <= tas.len(),
            find_target(tas@, tid@) == if find_target(tas@.skip(i as int), tid@) < 0 { -1 } else { find_target(tas@.skip(i as int), tid@) + i },
        decreases tas.len() - i,
    {
        proof {
            assert(tas@.skip(i as int)[0] == tas@[i as int]);
            assert(tas@.skip(i as int).drop_first() =~= tas@.skip(i as int + 1));
        }
        let t = chars_of(tas[i].target.as_str());
        if chars_eq(&t, tid) {
            return Some(i);
        }
        i = i + 1;
    }
    proof {
        assert(tas@.skip(i as int).len() == 0);
    }
    None
}

fn all_states_exec(actions: &Vec<ActionDef>) -> (r: Vec<String>)
    ensures
        r.deep_view() == all_states(actions@),
{
    let mut r: Vec<String> = Vec::new();
    let mut i: usize = 0;
    while i < actions.len()
        invariant
            i <= actions.len(),
            r.deep_view() == all_states(actions@.take(i as int)),
        decreases actions.len() - i,
    {
        let st = copy_strings(&actions[i].states);
        crate::alert::append_strings(&mut r, st);
        proof {
            assert(actions@.take(i as int + 1).drop_last() =~= actions@.take(i as int));
            assert(actions@.take(i as int + 1).last() == actions@[i as int]);
        }
        i = i + 1;
    }
    assert(actions@.take(actions.len() as int) =~= actions@);
    r
}

fn contains_str(v: &Vec<String>, x: &Vec<char>) -> (r: bool)
    ensures
        r == v.deep_view().contains(x@),
{
    let mut i: usize = 0;
    while i < v.len()
        invariant
            i <= v.len(),
            forall|j: int| 0 <= j < i ==> v.deep_view()[j] != x@,
        decreases v.len() - i,
    {
        let c = chars_of(v[i].as_str());
        if chars_eq(&c, x) {
            assert(v.deep_view()[i as int] == x@);
            return true;
        }
        i = i + 1;
    }
    false
}

fn copy_ctx_vars(v: &Vec<CtxVar>, out: &mut Vec<CtxVar>)
    ensures
        ctx_views(final(out)@) == ctx_views(old(out)@) + ctx_views(v@),
{
    let mut i: usize = 0;
    while i < v.len()
        invariant
            i <= v.len(),
            ctx_views(out@) == ctx_views(old(out)@) + ctx_views(v@.take(i as int)),
        decreases v.len() - i,
    {
        let ghost od = ctx_views(out@);
        out.push(v[i].copy());
        assert(ctx_views(out@) =~= od.push(crate::sortutil::ctx_view(v@[i as int])));
        assert(ctx_views(v@.take(i as int + 1)) =~= ctx_views(v@.take(i as int)).push(crate::sortutil::ctx_view(v@[i as int])));
        i = i + 1;
    }
    assert(v@.take(v.len() as int) =~= v@);
}

fn ctx_candidates_exec(actions: &Vec<ActionDef>, state: &Vec<char>) -> (r: Vec<CtxVar>)
    ensures
        ctx_views(r@) == ctx_candidates(actions@, state@),
{
    let mut r: Vec<CtxVar> = Vec::new();
    let mut i: usize = 0;
    while i < actions.len()
        invariant
            i <= actions.len(),
            ctx_views(r@) == ctx_candidates(actions@.take(i as int), state@),
        decreases actions.len() - i,
    {
        proof {
            assert(actions@.take(i as int + 1).drop_last() =~= actions@.take(i as int));
            assert(actions@.take(i as int + 1).last() == actions@[i as int]);
        }
        if contains_str(&actions[i].states, state) {
            copy_ctx_vars(&actions[i].context, &mut r);
        } else {
            assert(ctx_views(r@) + Seq::<(Seq<char>, Seq<char>, bool)>::empty() =~= ctx_views(r@));
        }
        i = i + 1;
    }
    assert(actions@.take(actions.len() as int) =~= actions@);
    r
}

fn entries_exec(row: &ModelRow, checkbook: bool) -> (r: Vec<String>)
    ensures
        r.deep_view() == entries_of(*row, row.entrypoints@.len(), checkbook),
{
    let mut r: Vec<String> = Vec::new();
    let mut i: usize = 0;
    let cb = chars_of("checkbook");
    while i < row.entrypoints.len()
        invariant
            i <= row.entrypoints.len(),
            cb@ == "checkbook"@,
            r.deep_view() == entries_of(*row, i as nat, checkbook),
        decreases row.entrypoints.len() - i,
    {
        let kind = if i < row.entrypoint_kinds.len() { chars_of(row.entrypoint_kinds[i].as_str()) } else { chars_of("entity") };
        if chars_eq(&kind, &cb) == checkbook {
            let ghost rd = r.deep_view();
            r.push(string_from(row.entrypoints[i].as_str()));
            assert(r.deep_view() =~= rd.push(row.entrypoints@[i as int]@));
        }
        i = i + 1;
    }
    r
}

fn new_context_fields(c: &Vec<CtxVar>) -> (r: Vec<ContextField>)
    ensures
        fields_view(r@) == ctx_views(c@),
        forall|j: int| 0 <= j < r@.len() ==> (#[trigger] r@[j]).value@.len() == 0 && fresh_input(r@[j].state),
{
    let mut r: Vec<ContextField> = Vec::new();
    let mut i: usize = 0;
    while i < c.len()
        invariant
            i <= c.len(),
            fields_view(r@) == ctx_views(c@.take(i as int)),
            forall|j: int| 0 <= j < r@.len() ==> (#[trigger] r@[j]).value@.len() == 0 && fresh_input(r@[j].state),
        decreases c.len() - i,
    {
        let ghost rd = fields_view(r@);
        let f = ContextField {
            key: string_from(c[i].key.as_str()),
            value: String::new(),
            desc: string_from(c[i].desc.as_str()),
            required: c[i].required,
            state: input_new(),
        };
        r.push(f);
        assert(fields_view(r@) =~= rd.push(crate::sortutil::ctx_view(c@[i as int])));
        assert(ctx_views(c@.take(i as int + 1)) =~= ctx_views(c@.take(i as int)).push(crate::sortutil::ctx_view(c@[i as int])));
        i = i + 1;
    }
    assert(c@.take(c.len() as int) =~= c@);
    r
}

impl DslBrowser {
    fn resolved_index(&self) -> (r: Option<usize>)
        ensures
            r is Some <==> resolved(*self) is Some,
            r is Some ==> r->0 < self.model_data@.len() && resolved(*self) == Some(self.model_data@[r->0 as int]),
    {
        let sel = match self.models.selected {
            Some(s) => s,
            None => 0,
        };
        if sel == 0 {
            None
        } else if sel - 1 < self.model_data.len() {
            Some(sel - 1)
        } else {
            None
        }
    }

    /// The context fields for `actions` in the current state.
    fn update_context_fields(&mut self, actions: &Vec<ActionDef>)
        ensures
            ctx_applied(old(self).states, actions@, final(self).context_active, final(self).context_fields@),
            final(self).states == old(self).states,
            same_but_states_ctx(*old(self), *final(self)),
    {
        let d = match self.states.current_exec() {
            Some(x) => chars_of(x.as_str()),
            None => chars_of("$"),
        };
        let def = chars_of("(default)");
        let st = if chars_eq(&d, &def) { chars_of("$") } else { d };
        let cands = ctx_candidates_exec(actions, &st);
        let c = dedup_by_key_sorted(&cands);
        if c.len() > 0 {
            self.context_active = true;
            self.context_fields = new_context_fields(&c);
        } else {
            self.context_active = false;
            self.context_fields = Vec::new();
        }
    }

    /// Lists the states for the selected target, see `states_for_target`.
    fn update_states_for_target(&mut self)
        ensures
            states_for_target(*old(self), *final(self)),
            same_but_states_ctx(*old(self), *final(self)),
    {
        let ri = self.resolved_index();
        let entry: Option<(usize, usize)> = match ri {
            Some(mi) => match self.target_entities.current_exec() {
                Some(t) => {
                    let tc = chars_of(t.as_str());
                    match find_target_exec(&self.model_data[mi].target_actions, &tc) {
                        Some(k) => Some((mi, k)),
                        None => None,
                    }
                },
                None => None,
            },
            None => None,
        };
        match entry {
            Some((mi, k)) => {
                if self.model_data[mi].target_actions[k].actions.len() > 0 {
                    let all = all_states_exec(&self.model_data[mi].target_actions[k].actions);
                    let st = sort_dedup(&all);
                    if st.len() > 0 {
                        let disp = display_states_exec(&st);
                        self.states = ListBox::new(disp, 0);
                        let ghost mid = *self;
                        let actions = &self.model_data[mi].target_actions[k].actions;
                        let cands_state = {
                            let d = match self.states.current_exec() {
                                Some(x) => chars_of(x.as_str()),
                                None => chars_of("$"),
                            };
                            let def = chars_of("(default)");
                            if chars_eq(&d, &def) { chars_of("$") } else { d }
                        };
                        let cands = ctx_candidates_exec(actions, &cands_state);
                        let c = dedup_by_key_sorted(&cands);
                        if c.len() > 0 {
                            self.context_active = true;
                            self.context_fields = new_context_fields(&c);
                        } else {
                            self.context_active = false;
                            self.context_fields = Vec::new();
                        }
                        return;
                    }
                }
            },
            None => {},
        }
        self.context_active = false;
        self.context_fields = Vec::new();
        match ri {
            Some(mi) => {
                if self.model_data[mi].states.len() == 0 {
                    self.states = ListBox::single("$");
                    assert(items_of(self.states) =~= seq!["$"@]);
                } else {
                    let disp = display_states_exec(&self.model_data[mi].states);
                    self.states = ListBox::new(disp, 0);
                }
            },
            None => {},
        }
    }
}


/// Everything but the entry lists, the state list and the context stays.
pub open spec fn same_but_lists_ctx(a: DslBrowser, b: DslBrowser) -> bool {
    &&& a.visible == b.visible
    &&& a.query == b.query
    &&& a.query_state == b.query_state
    &&& a.models == b.models
    &&& a.minions == b.minions
    &&& a.focus == b.focus
    &&& a.query_to_execute == b.query_to_execute
    &&& a.call_requested == b.call_requested
    &&& a.desc_popup_visible == b.desc_popup_visible
    &&& a.desc_popup_text == b.desc_popup_text
    &&& a.desc_popup_scroll == b.desc_popup_scroll
    &&& a.error_required_key == b.error_required_key
    &&& a.catalog_diagnostics == b.catalog_diagnostics
    &&& a.model_data == b.model_data
    &&& a.all_minions == b.all_minions
}

/// What choosing a model does: its checkbook and entity entry points become the two entry
/// lists (each with its header), and the states follow the first entry of the entity list; with
/// no model chosen the lists show `—` and the state list `$`.
pub open spec fn lists_for_model(old: DslBrowser, new: DslBrowser) -> bool {
    match resolved(old) {
        Some(row) => {
            let cb = labeled(entries_of(row, row.entrypoints@.len(), true));
            let en = labeled(entries_of(row, row.entrypoints@.len(), false));
            &&& items_of(new.checkbook_labels) == cb
            &&& new.checkbook_labels.selected == Some(0usize)
            &&& new.checkbook_labels.scroll == 0
            &&& items_of(new.target_entities) == en
            &&& new.target_entities.selected == Some(0usize)
            &&& new.target_entities.scroll == 0
            &&& states_for(Some(row), Some(en[0]), old.states, new)
        },
        None => {
            &&& items_of(new.checkbook_labels) == seq!["—"@]
            &&& new.checkbook_labels.selected == Some(0usize)
            &&& items_of(new.target_entities) == seq!["—"@]
            &&& new.target_entities.selected == Some(0usize)
            &&& items_of(new.states) == seq!["$"@]
            &&& new.states.selected == Some(0usize)
            &&& !new.context_active
            &&& new.context_fields == old.context_fields
        },
    }
}

impl DslBrowser {
    /// Refills the entry lists and the states after the model choice changed, see `lists_for_model`.
    fn update_targets_and_states(&mut self)
        ensures
            lists_for_model(*old(self), *final(self)),
            same_but_lists_ctx(*old(self), *final(self)),
    {
        self.context_active = false;
        match self.resolved_index() {
            Some(mi) => {
                let cb = entries_exec(&self.model_data[mi], true);
                let en = entries_exec(&self.model_data[mi], false);
                self.checkbook_labels = ListBox::new(labeled_exec(cb), 0);
                self.target_entities = ListBox::new(labeled_exec(en), 0);
                proof {
                    assert(items_of(self.target_entities).len() >= 1);
                    assert(self.target_entities.items@.len() >= 1);
                    assert(items_of(self.target_entities)[0] == self.target_entities.items@[0]@);
                    assert(self.target_entities.current() == Some(items_of(self.target_entities)[0]));
                }
                self.update_states_for_target();
            },
            None => {
                self.checkbook_labels = ListBox::single("—");
                self.target_entities = ListBox::single("—");
                self.states = ListBox::single("$");
                proof {
                    assert(items_of(self.checkbook_labels) =~= seq!["—"@]);
                    assert(items_of(self.target_entities) =~= seq!["—"@]);
                    assert(items_of(self.states) =~= seq!["$"@]);
                }
            },
        }
    }

    /// Recomputes the context fields after the state choice changed: those of the selected
    /// target's actions in the selected state, or none when the target has no entry.
    fn ctxfields_update(&mut self)
        ensures
            match target_actions_for(*old(self)) {
                Some(actions) => ctx_applied(old(self).states, actions, final(self).context_active, final(self).context_fields@),
                None => !final(self).context_active && final(self).context_fields@.len() == 0,
            },
            final(self).states == old(self).states,
            same_but_states_ctx(*old(self), *final(self)),
    {
        let ri = self.resolved_index();
        match ri {
            Some(mi) => match self.target_entities.current_exec() {
                Some(t) => {
                    let tc = chars_of(t.as_str());
                    match find_target_exec(&self.model_data[mi].target_actions, &tc) {
                        Some(k) => {
                            let d = match self.states.current_exec() {
                                Some(x) => chars_of(x.as_str()),
                                None => chars_of("$"),
                            };
                            let def = chars_of("(default)");
                            let st = if chars_eq(&d, &def) { chars_of("$") } else { d };
                            let cands = ctx_candidates_exec(&self.model_data[mi].target_actions[k].actions, &st);
                            let c = dedup_by_key_sorted(&cands);
                            if c.len() > 0 {
                                self.context_active = true;
                                self.context_fields = new_context_fields(&c);
                            } else {
                                self.context_active = false;
                                self.context_fields = Vec::new();
                            }
                            return;
                        },
                        None => {},
                    }
                },
                None => {},
            },
            None => {},
        }
        self.context_active = false;
        self.context_fields = Vec::new();
    }
}


/// Three decimal digits of `n` (below 1000), zero-padded.
pub open spec fn pad3(n: nat) -> Seq<char> {
    seq![digit_char(n / 100 % 10), digit_char(n / 10 % 10), digit_char(n % 10)]
}

/// The sample minion names the composer shows before any are loaded.
pub open spec fn sample_minion(n: nat) -> Seq<char> {
    "minion-"@ + pad3(n) + ".example.net"@
}

fn sample_minions() -> (r: Vec<String>)
    ensures
        r.deep_view().len() == 100,
        forall|i: int| 0 <= i < 100 ==> #[trigger] r.deep_view()[i] == sample_minion((i + 1) as nat),
{
    let mut r: Vec<String> = Vec::new();
    let mut n: u64 = 1;
    while n <= 100
        invariant
            1 <= n <= 101,
            r.deep_view().len() == n - 1,
            forall|i: int| 0 <= i < n - 1 ==> #[trigger] r.deep_view()[i] == sample_minion((i + 1) as nat),
        decreases 101 - n,
    {
        let ghost rd = r.deep_view();
        let mut v = chars_of("minion-");
        v.push(digit_exec(n / 100 % 10));
        v.push(digit_exec(n / 10 % 10));
        v.push(digit_exec(n % 10));
        append_str(&mut v, ".example.net");
        assert(v@ =~= sample_minion(n as nat));
        r.push(string_of(&v));
        assert(r.deep_view() =~= rd.push(sample_minion(n as nat)));
        n = n + 1;
    }
    r
}

/// The minions whose names match the pattern, in order.
pub open spec fn glob_hits(all: Seq<Seq<char>>, pattern: Seq<char>) -> Seq<Seq<char>>
    decreases all.len(),
{
    if all.len() == 0 {
        Seq::<Seq<char>>::empty()
    } else {
        let rest = glob_hits(all.drop_last(), pattern);
        if glob_matches(pattern, all.last()) { rest.push(all.last()) } else { rest }
    }
}

/// The pattern the minion list is filtered by: the trimmed query, or `*` when it is blank.
pub open spec fn minion_pattern(query: Seq<char>) -> Seq<char> {
    if trim(query).len() == 0 { "*"@ } else { trim(query) }
}

/// The minions the composer lists for a query: those the pattern matches (all of them when
/// the pattern is not a valid glob), or a placeholder row when none is left.
pub open spec fn minion_rows(all: Seq<Seq<char>>, query: Seq<char>) -> Seq<Seq<char>> {
    let p = minion_pattern(query);
    let hits = if glob_valid(p) { glob_hits(all, p) } else { all };
    if hits.len() > 0 {
        hits
    } else if all.len() > 0 {
        seq!["(no matches)"@]
    } else {
        seq!["(no minions)"@]
    }
}

fn glob_hits_exec(all: &Vec<String>, g: &CompiledGlob) -> (r: Vec<String>)
    ensures
        r.deep_view() == glob_hits(all.deep_view(), g.source()),
{
    let mut r: Vec<String> = Vec::new();
    let mut i: usize = 0;
    while i < all.len()
        invariant
            i <= all.len(),
            r.deep_view() == glob_hits(all.deep_view().take(i as int), g.source()),
        decreases all.len() - i,
    {
        proof {
            assert(all.deep_view().take(i as int + 1).drop_last() =~= all.deep_view().take(i as int));
            assert(all.deep_view().take(i as int + 1).last() == all@[i as int]@);
        }
        if glob_match(g, all[i].as_str()) {
            let ghost rd = r.deep_view();
            r.push(string_from(all[i].as_str()));
            assert(r.deep_view() =~= rd.push(all@[i as int]@));
        }
        i = i + 1;
    }
    assert(all.deep_view().take(all.len() as int) =~= all.deep_view());
    r
}

impl DslBrowser {
    /// A hidden composer: query `*`, nothing loaded, sample minion names.
    pub fn new() -> (r: DslBrowser)
        ensures
            !r.visible,
            r.query@ == "*"@,
            input_text(r.query_state) == "*"@,
            input_cursor(r.query_state) == 1,
            items_of(r.models) == seq!["(press 'c' to load)"@],
            items_of(r.states) == seq!["$"@],
            items_of(r.minions).len() == 100,
            forall|i: int| 0 <= i < 100 ==> #[trigger] items_of(r.minions)[i] == sample_minion((i + 1) as nat),
            r.models.selected == Some(0usize) && r.states.selected == Some(0usize) && r.minions.selected == Some(0usize),
            r.context_fields@.len() == 0,
            r.focus == DslFocus::Query,
            r.query_to_execute is None,
            !r.call_requested,
            !r.desc_popup_visible,
            r.desc_popup_text@.len() == 0,
            r.desc_popup_scroll == 0,
            !r.context_active,
            r.error_required_key@.len() == 0,
            r.catalog_diagnostics@.len() == 0,
            r.model_data@.len() == 0,
            r.all_minions@.len() == 0,
            items_of(r.checkbook_labels) == seq!["—"@],
            items_of(r.target_entities) == seq!["—"@],
            r.checkbook_labels.selected == Some(0usize) && r.target_entities.selected == Some(0usize),
    {
        let mut qs = input_new();
        input_insert_char(&mut qs, '*');
        let r = DslBrowser {
            visible: false,
            query: string_from("*"),
            query_state: qs,
            models: ListBox::single("(press 'c' to load)"),
            states: ListBox::single("$"),
            minions: ListBox::new(sample_minions(), 0),
            context_fields: Vec::new(),
            focus: DslFocus::Query,
            query_to_execute: None,
            call_requested: false,
            desc_popup_visible: false,
            desc_popup_text: String::new(),
            desc_popup_scroll: 0,
            context_active: false,
            error_required_key: Vec::new(),
            catalog_diagnostics: Vec::new(),
            model_data: Vec::new(),
            all_minions: Vec::new(),
            checkbook_labels: ListBox::single("—"),
            target_entities: ListBox::single("—"),
        };
        assert(items_of(r.models) =~= seq!["(press 'c' to load)"@]);
        assert(items_of(r.states) =~= seq!["$"@]);
        assert(items_of(r.checkbook_labels) =~= seq!["—"@]);
        assert(items_of(r.target_entities) =~= seq!["—"@]);
        assert(seq!['*'] =~= "*"@) by {
            reveal_strlit("*");
        }
        r
    }

    /// Lists the minions that the query matches, see `minion_rows`.
    fn filter_minions(&mut self)
        ensures
            items_of(final(self).minions) == minion_rows(old(self).all_minions.deep_view(), old(self).query@),
            final(self).minions.selected == Some(0usize),
            final(self).minions.scroll == 0,
            *final(self) == (DslBrowser { minions: final(self).minions, ..*old(self) }),
    {
        let qv = chars_of(self.query.as_str());
        let t = trim_exec(&qv);
        let p = if t.len() == 0 { string_from("*") } else { string_of(&t) };
        assert(p@ == minion_pattern(self.query@));
        let hits = match compile_glob(p.as_str()) {
            Some(g) => glob_hits_exec(&self.all_minions, &g),
            None => copy_strings(&self.all_minions),
        };
        if hits.len() > 0 {
            self.minions = ListBox::new(hits, 0);
        } else if self.all_minions.len() > 0 {
            self.minions = ListBox::single("(no matches)");
            assert(items_of(self.minions) =~= seq!["(no matches)"@]);
        } else {
            self.minions = ListBox::single("(no minions)");
            assert(items_of(self.minions) =~= seq!["(no minions)"@]);
        }
    }

    /// Replaces the known minion names and lists those that the query matches.
    pub fn set_minions(&mut self, rows: Vec<String>)
        ensures
            final(self).all_minions == rows,
            items_of(final(self).minions) == minion_rows(rows.deep_view(), old(self).query@),
            final(self).minions.selected == Some(0usize),
            final(self).minions.scroll == 0,
            *final(self) == (DslBrowser { minions: final(self).minions, all_minions: rows, ..*old(self) }),
    {
        self.all_minions = rows;
        self.filter_minions();
    }
}


/// The enabled models, in order.
pub open spec fn enabled_rows(rows: Seq<ModelRow>) -> Seq<ModelRow>
    decreases rows.len(),
{
    if rows.len() == 0 {
        Seq::<ModelRow>::empty()
    } else {
        let r = enabled_rows(rows.drop_last());
        if rows.last().enabled { r.push(rows.last()) } else { r }
    }
}

/// The ids of the models, in order.
pub open spec fn model_ids(rows: Seq<ModelRow>) -> Seq<Seq<char>> {
    rows.map_values(|r: ModelRow| r.id@)
}

/// The model list: `(select)` then the ids, or `(no models found)` alone.
pub open spec fn model_list(rows: Seq<ModelRow>) -> Seq<Seq<char>> {
    if rows.len() == 0 { seq!["(no models found)"@] } else { seq!["(select)"@] + model_ids(rows) }
}

/// A header or filler row of a choice list, which names nothing.
pub open spec fn placeholder(s: Seq<char>) -> bool {
    s == "(select)"@ || s == "(none)"@ || s == "—"@
}

fn is_placeholder(v: &Vec<char>) -> (r: bool)
    ensures
        r == placeholder(v@),
{
    let a = chars_of("(select)");
    let b = chars_of("(none)");
    let c = chars_of("—");
    chars_eq(v, &a) || chars_eq(v, &b) || chars_eq(v, &c)
}

/// The query the composer would call: `model:checkbook` when a checkbook entry is chosen,
/// else `model/target/state`; `None` while the model, or the entry, is not chosen.
pub open spec fn query_of(b: DslBrowser) -> Option<Seq<char>> {
    match b.models.current() {
        None => None,
        Some(m) => if m == "(select)"@ || m == "(no models found)"@ {
            None
        } else if b.checkbook_labels.selected is Some && b.checkbook_labels.selected->0 > 0 {
            let cb = b.checkbook_labels.selected->0 as int;
            if cb < b.checkbook_labels.items@.len() && !placeholder(b.checkbook_labels.items@[cb]@) {
                Some(m + ":"@ + b.checkbook_labels.items@[cb]@)
            } else {
                None
            }
        } else {
            match b.target_entities.current() {
                None => None,
                Some(t) => if placeholder(t) { None } else { Some(m + "/"@ + t + "/"@ + current_state(b.states)) },
            }
        },
    }
}

/// `key:value` for each context field that has a value, in order.
pub open spec fn filled_pairs(fs: Seq<ContextField>) -> Seq<Seq<char>>
    decreases fs.len(),
{
    if fs.len() == 0 {
        Seq::<Seq<char>>::empty()
    } else {
        let r = filled_pairs(fs.drop_last());
        let f = fs.last();
        if f.value@.len() > 0 { r.push(f.key@ + ":"@ + f.value@) } else { r }
    }
}

/// The context fields that have a value.
pub open spec fn filled_fields(fs: Seq<ContextField>) -> Seq<ContextField> {
    fs.filter(|f: ContextField| f.value@.len() > 0)
}

/// Law: the context sent with a call has one `key:value` pair for each field that has a value
/// (and none for an empty one), in the order of the fields: the pairs are the filled fields,
/// each written `key:value`, so there are as many pairs as filled fields.
pub proof fn law_context_pairs(fs: Seq<ContextField>)
    ensures
        filled_pairs(fs) == filled_fields(fs).map_values(|f: ContextField| f.key@ + seq![':'] + f.value@),
        filled_pairs(fs).len() == filled_fields(fs).len(),
        forall|i: int|
            0 <= i < filled_pairs(fs).len() ==> #[trigger] filled_pairs(fs)[i] == filled_fields(fs)[i].key@ + seq![':']
                + filled_fields(fs)[i].value@,
    decreases fs.len(),
{
    reveal(Seq::filter);
    reveal_strlit(":");
    assert(":"@ =~= seq![':']);
    if fs.len() > 0 {
        law_context_pairs(fs.drop_last());
        let f = fs.last();
        let kv = |g: ContextField| g.key@ + seq![':'] + g.value@;
        let prev = filled_fields(fs.drop_last());
        if f.value@.len() > 0 {
            assert(filled_fields(fs) == prev.push(f));
            assert(prev.push(f).map_values(kv) =~= prev.map_values(kv).push(kv(f)));
        } else {
            assert(filled_fields(fs) == prev);
        }
    }
}

/// Law: with context on and at least one field filled, the text sent is the filled fields'
/// `key:value` pairs, in order, joined by commas; with context off or no field filled nothing
/// is sent.
pub proof fn law_context_text(b: DslBrowser)
    ensures
        context_text(b) == (if b.context_active && filled_fields(b.context_fields@).len() > 0 {
            Some(join_with(filled_fields(b.context_fields@).map_values(|f: ContextField| f.key@ + seq![':'] + f.value@), seq![',']))
        } else {
            None
        }),
{
    law_context_pairs(b.context_fields@);
    reveal_strlit(",");
    assert(","@ =~= seq![',']);
}

/// The context handed along with a call: the filled fields as `key:value` joined by commas;
/// `None` without context or when no field is filled.
pub open spec fn context_text(b: DslBrowser) -> Option<Seq<char>> {
    if !b.context_active || filled_pairs(b.context_fields@).len() == 0 {
        None
    } else {
        Some(join_with(filled_pairs(b.context_fields@), ","@))
    }
}

/// The descriptions of the actions that apply to `state`, in order.
pub open spec fn action_descs(actions: Seq<ActionDef>, state: Seq<char>) -> Seq<Seq<char>>
    decreases actions.len(),
{
    if actions.len() == 0 {
        Seq::<Seq<char>>::empty()
    } else {
        let r = action_descs(actions.drop_last(), state);
        let a = actions.last();
        if a.states.deep_view().contains(state) { r.push(a.description@) } else { r }
    }
}

/// `1. first`, `2. second`, ...
pub open spec fn numbered(ds: Seq<Seq<char>>) -> Seq<Seq<char>> {
    Seq::new(ds.len(), |i: int| dec_text((i + 1) as nat) + ". "@ + ds[i])
}

/// What the selected target does in the selected state: the one description, or the
/// descriptions numbered one per line; `None` when no action applies.
pub open spec fn target_description(b: DslBrowser) -> Option<Seq<char>> {
    match target_actions_for(b) {
        None => None,
        Some(actions) => {
            let ds = action_descs(actions, current_state(b.states));
            if ds.len() == 0 {
                None
            } else if ds.len() == 1 {
                Some(ds[0])
            } else {
                Some(join_with(numbered(ds), "\n"@))
            }
        },
    }
}

/// The description under the lists: the target's while the target or the state list has
/// the focus and it has one, else the model's (empty without a model).
pub open spec fn shown_description(b: DslBrowser) -> Seq<char> {
    if (b.focus is Target || b.focus is State) && target_description(b) is Some {
        target_description(b)->0
    } else {
        match resolved(b) {
            Some(r) => r.description@,
            None => Seq::<char>::empty(),
        }
    }
}

/// The widest key in bytes, 0 without fields.
pub open spec fn max_key_len(fs: Seq<ContextField>) -> nat
    decreases fs.len(),
{
    if fs.len() == 0 {
        0
    } else {
        let m = max_key_len(fs.drop_last());
        let l = utf8_len(fs.last().key@);
        if l > m { l } else { m }
    }
}

/// The column the keys are right-aligned in: the widest key, 4 without fields.
pub open spec fn key_width(fs: Seq<ContextField>) -> nat {
    if fs.len() == 0 { 4 } else { max_key_len(fs) }
}

/// One line of the context part of the details: key, required or optional, description.
pub open spec fn ctx_line(f: ContextField, w: nat) -> Seq<char> {
    right_align_spec(f.key@, w) + "  "@ + (if f.required { "required"@ } else { "optional"@ }) + "  "@
        + (if f.desc@.len() == 0 { "Unknown field"@ } else { f.desc@ })
}

pub open spec fn ctx_lines(fs: Seq<ContextField>, w: nat) -> Seq<Seq<char>> {
    fs.map_values(|f: ContextField| ctx_line(f, w))
}

/// The parts of the details: the model, the target, the context, each when there is one.
pub open spec fn detail_parts(b: DslBrowser) -> Seq<Seq<char>> {
    let t = match b.target_entities.current() {
        Some(t) => t,
        None => Seq::<char>::empty(),
    };
    let model = match resolved(b) {
        Some(r) => seq!["Model: "@ + r.id@ + "\n"@ + r.description@],
        None => Seq::<Seq<char>>::empty(),
    };
    let target = if !placeholder(t) && t.len() > 0 && target_description(b) is Some {
        seq!["Target \""@ + t + "\":\n"@ + target_description(b)->0]
    } else {
        Seq::<Seq<char>>::empty()
    };
    let context = if b.context_active {
        seq!["Context:\n"@ + join_with(ctx_lines(b.context_fields@, key_width(b.context_fields@)), "\n"@)]
    } else {
        Seq::<Seq<char>>::empty()
    };
    model + target + context
}

/// The text of the details popup: its parts separated by blank lines.
pub open spec fn full_description(b: DslBrowser) -> Seq<char> {
    join_with(detail_parts(b), "\n\n"@)
}

fn right_align_wide(v: &Vec<char>, width: u128) -> (r: Vec<char>)
    ensures
        r@ == right_align_spec(v@, width as nat),
{
    if v.len() as u128 >= width {
        return slice_chars(v, 0, v.len());
    }
    let pad: u128 = width - v.len() as u128;
    let mut out: Vec<char> = Vec::new();
    let mut k: u128 = 0;
    while k < pad
        invariant
            k <= pad,
            out@ == spaces(k as nat),
        decreases pad - k,
    {
        out.push(' ');
        assert(spaces(k as nat + 1) =~= spaces(k as nat).push(' '));
        k = k + 1;
    }
    append_chars(&mut out, v);
    out
}

impl DslBrowser {
    /// Index into the model data of the selected model; `None` on the header row.
    pub fn model_data_index(&self) -> (r: Option<usize>)
        ensures
            r == (if model_index(self.models) < 0 { None } else { Some(model_index(self.models) as usize) }),
    {
        let sel = match self.models.selected {
            Some(s) => s,
            None => 0,
        };
        if sel == 0 { None } else { Some(sel - 1) }
    }

    /// Loads the model catalogue: the enabled models become the model list (behind a header),
    /// the failures are kept, the context is cleared and the composer opens on the query.
    pub fn load_models(&mut self, rows: Vec<ModelRow>, failures: Vec<String>)
        ensures
            final(self).model_data@ == enabled_rows(rows@),
            items_of(final(self).models) == model_list(enabled_rows(rows@)),
            final(self).models.selected == Some(0usize),
            final(self).models.scroll == 0,
            !final(self).context_active,
            final(self).context_fields@.len() == 0,
            items_of(final(self).checkbook_labels) == seq!["—"@],
            items_of(final(self).target_entities) == seq!["—"@],
            items_of(final(self).states) == seq!["$"@],
            final(self).checkbook_labels.selected == Some(0usize),
            final(self).target_entities.selected == Some(0usize),
            final(self).states.selected == Some(0usize),
            *final(self) == (DslBrowser {
                visible: true,
                focus: DslFocus::Query,
                catalog_diagnostics: failures,
                context_active: false,
                models: final(self).models,
                model_data: final(self).model_data,
                context_fields: final(self).context_fields,
                checkbook_labels: final(self).checkbook_labels,
                target_entities: final(self).target_entities,
                states: final(self).states,
                ..*old(self)
            }),
    {
        let ghost orig = rows@;
        let mut rows = rows;
        let mut kept: Vec<ModelRow> = Vec::new();
        let ghost mut k: int = 0;
        while rows.len() > 0
            invariant
                0 <= k,
                k + rows@.len() == orig.len(),
                rows@ == orig.skip(k as int),
                kept@ == enabled_rows(orig.take(k as int)),
            decreases rows@.len(),
        {
            proof {
                assert(orig.take(k as int + 1).drop_last() =~= orig.take(k as int));
                assert(orig.take(k as int + 1).last() == orig[k as int]);
                assert(rows@[0] == orig[k as int]);
            }
            let r = rows.remove(0);
            if r.enabled {
                kept.push(r);
            }
            assert(rows@ =~= orig.skip(k as int + 1));
            proof {
                k = k + 1;
            }
        }
        assert(orig.take(k as int) =~= orig);
        let mut ids: Vec<String> = Vec::new();
        if kept.len() == 0 {
            push_str_item(&mut ids, "(no models found)");
            assert(ids.deep_view() =~= model_list(kept@));
        } else {
            push_str_item(&mut ids, "(select)");
            let mut i: usize = 0;
            while i < kept.len()
                invariant
                    i <= kept.len(),
                    ids.deep_view() == seq!["(select)"@] + model_ids(kept@.take(i as int)),
                decreases kept.len() - i,
            {
                let ghost d = ids.deep_view();
                ids.push(string_from(kept[i].id.as_str()));
                assert(ids.deep_view() =~= d.push(kept@[i as int].id@));
                assert(model_ids(kept@.take(i as int + 1)) =~= model_ids(kept@.take(i as int)).push(kept@[i as int].id@));
                i = i + 1;
            }
            assert(kept@.take(kept.len() as int) =~= kept@);
        }
        self.models = ListBox::new(ids, 0);
        self.model_data = kept;
        self.catalog_diagnostics = failures;
        self.context_active = false;
        self.context_fields = Vec::new();
        self.update_targets_and_states();
        self.visible = true;
        self.focus = DslFocus::Query;
    }

    /// The query the composer would call, see `query_of`.
    pub fn build_query(&self) -> (r: Option<String>)
        ensures
            r is Some <==> query_of(*self) is Some,
            r is Some ==> r->0@ == query_of(*self)->0,
    {
        let m = match self.models.current_exec() {
            Some(m) => chars_of(m.as_str()),
            None => return None,
        };
        let sel_hdr = chars_of("(select)");
        let none_hdr = chars_of("(no models found)");
        if chars_eq(&m, &sel_hdr) || chars_eq(&m, &none_hdr) {
            return None;
        }
        match self.checkbook_labels.selected {
            Some(cb) => {
                if cb > 0 {
                    if cb >= self.checkbook_labels.items.len() {
                        return None;
                    }
                    let l = chars_of(self.checkbook_labels.items[cb].as_str());
                    if is_placeholder(&l) {
                        return None;
                    }
                    let mut out = m;
                    proof {
                        reveal_strlit(":");
                    }
                    out.push(':');
                    append_chars(&mut out, &l);
                    return Some(string_of(&out));
                }
            },
            None => {},
        }
        let t = match self.target_entities.current_exec() {
            Some(t) => chars_of(t.as_str()),
            None => return None,
        };
        if is_placeholder(&t) {
            return None;
        }
        let st = match self.states.current_exec() {
            Some(x) => chars_of(x.as_str()),
            None => chars_of("$"),
        };
        let def = chars_of("(default)");
        let st = if chars_eq(&st, &def) { chars_of("$") } else { st };
        let mut out = m;
        proof {
            reveal_strlit("/");
        }
        out.push('/');
        append_chars(&mut out, &t);
        out.push('/');
        append_chars(&mut out, &st);
        assert(out@ =~= query_of(*self)->0);
        Some(string_of(&out))
    }

    /// The context handed along with a call, see `context_text`.
    pub fn build_context_json(&self) -> (r: Option<String>)
        ensures
            r is Some <==> context_text(*self) is Some,
            r is Some ==> r->0@ == context_text(*self)->0,
    {
        if !self.context_active {
            return None;
        }
        let mut pairs: Vec<String> = Vec::new();
        let mut i: usize = 0;
        while i < self.context_fields.len()
            invariant
                i <= self.context_fields.len(),
                pairs.deep_view() == filled_pairs(self.context_fields@.take(i as int)),
            decreases self.context_fields.len() - i,
        {
            proof {
                assert(self.context_fields@.take(i as int + 1).drop_last() =~= self.context_fields@.take(i as int));
            }
            let f = &self.context_fields[i];
            let v = chars_of(f.value.as_str());
            if v.len() > 0 {
                let mut kv = chars_of(f.key.as_str());
                proof {
                    reveal_strlit(":");
                }
                kv.push(':');
                append_chars(&mut kv, &v);
                let ghost d = pairs.deep_view();
                assert(kv@ =~= f.key@ + ":"@ + f.value@);
                pairs.push(string_of(&kv));
                assert(pairs.deep_view() =~= d.push(f.key@ + ":"@ + f.value@));
            }
            i = i + 1;
        }
        assert(self.context_fields@.take(self.context_fields.len() as int) =~= self.context_fields@);
        if pairs.len() == 0 {
            return None;
        }
        Some(join_strings(&pairs, ","))
    }

    /// What the selected target does in the selected state, see `target_description`.
    pub fn build_target_description_unchecked(&self) -> (r: Option<String>)
        ensures
            r is Some <==> target_description(*self) is Some,
            r is Some ==> r->0@ == target_description(*self)->0,
    {
        let mi = match self.resolved_index() {
            Some(mi) => mi,
            None => return None,
        };
        let t = match self.target_entities.current_exec() {
            Some(t) => chars_of(t.as_str()),
            None => return None,
        };
        let k = match find_target_exec(&self.model_data[mi].target_actions, &t) {
            Some(k) => k,
            None => return None,
        };
        let st = match self.states.current_exec() {
            Some(x) => chars_of(x.as_str()),
            None => chars_of("$"),
        };
        let def = chars_of("(default)");
        let st = if chars_eq(&st, &def) { chars_of("$") } else { st };
        let actions = &self.model_data[mi].target_actions[k].actions;
        let mut ds: Vec<String> = Vec::new();
        let mut i: usize = 0;
        while i < actions.len()
            invariant
                i <= actions.len(),
                ds.deep_view() == action_descs(actions@.take(i as int), st@),
            decreases actions.len() - i,
        {
            proof {
                assert(actions@.take(i as int + 1).drop_last() =~= actions@.take(i as int));
                assert(actions@.take(i as int + 1).last() == actions@[i as int]);
            }
            if contains_str(&actions[i].states, &st) {
                let ghost d = ds.deep_view();
                ds.push(string_from(actions[i].description.as_str()));
                assert(ds.deep_view() =~= d.push(actions@[i as int].description@));
            }
            i = i + 1;
        }
        assert(actions@.take(actions.len() as int) =~= actions@);
        if ds.len() == 0 {
            return None;
        }
        if ds.len() == 1 {
            return Some(string_from(ds[0].as_str()));
        }
        let mut lines: Vec<String> = Vec::new();
        let mut j: usize = 0;
        while j < ds.len()
            invariant
                j <= ds.len(),
                lines.deep_view() == numbered(ds.deep_view()).take(j as int),
            decreases ds.len() - j,
        {
            let mut v: Vec<char> = Vec::new();
            push_decimal(&mut v, (j + 1) as u64);
            append_str(&mut v, ". ");
            append_str(&mut v, ds[j].as_str());
            let ghost d = lines.deep_view();
            lines.push(string_of(&v));
            assert(lines.deep_view() =~= d.push(numbered(ds.deep_view())[j as int]));
            assert(numbered(ds.deep_view()).take(j as int + 1) =~= numbered(ds.deep_view()).take(j as int).push(
                numbered(ds.deep_view())[j as int],
            ));
            j = j + 1;
        }
        assert(numbered(ds.deep_view()).take(ds.len() as int) =~= numbered(ds.deep_view()));
        Some(join_strings(&lines, "\n"))
    }

    /// The description under the lists, see `shown_description`.
    pub fn build_target_description(&self) -> (r: String)
        ensures
            r@ == shown_description(*self),
    {
        match self.focus {
            DslFocus::Target | DslFocus::State => {
                match self.build_target_description_unchecked() {
                    Some(d) => return d,
                    None => {},
                }
            },
            _ => {},
        }
        match self.resolved_index() {
            Some(mi) => string_from(self.model_data[mi].description.as_str()),
            None => String::new(),
        }
    }

    /// The text of the details popup, see `full_description`.
    pub fn build_full_description(&self) -> (r: String)
        ensures
            r@ == full_description(*self),
    {
        let mut parts: Vec<String> = Vec::new();
        match self.resolved_index() {
            Some(mi) => {
                let mut v = chars_of("Model: ");
                append_str(&mut v, self.model_data[mi].id.as_str());
                append_str(&mut v, "\n");
                append_str(&mut v, self.model_data[mi].description.as_str());
                parts.push(string_of(&v));
            },
            None => {},
        }
        let ghost p1 = parts.deep_view();
        let t = match self.target_entities.current_exec() {
            Some(t) => chars_of(t.as_str()),
            None => Vec::new(),
        };
        if !is_placeholder(&t) && t.len() > 0 {
            match self.build_target_description_unchecked() {
                Some(d) => {
                    let mut v = chars_of("Target \"");
                    append_chars(&mut v, &t);
                    append_str(&mut v, "\":\n");
                    append_str(&mut v, d.as_str());
                    let ghost pd = parts.deep_view();
                    parts.push(string_of(&v));
                    assert(parts.deep_view() =~= pd.push(v@));
                },
                None => {},
            }
        }
        let ghost p2 = parts.deep_view();
        if self.context_active {
            let fs = &self.context_fields;
            let mut w: u128 = 0;
            let mut i: usize = 0;
            while i < fs.len()
                invariant
                    i <= fs.len(),
                    w == max_key_len(fs@.take(i as int)),
                decreases fs.len() - i,
            {
                proof {
                    assert(fs@.take(i as int + 1).drop_last() =~= fs@.take(i as int));
                }
                let kc = chars_of(fs[i].key.as_str());
                let l = utf8_len_wide(&kc);
                if l > w {
                    w = l;
                }
                i = i + 1;
            }
            assert(fs@.take(fs.len() as int) =~= fs@);
            if fs.len() == 0 {
                w = 4;
            }
            let mut lines: Vec<String> = Vec::new();
            let mut j: usize = 0;
            while j < fs.len()
                invariant
                    j <= fs.len(),
                    w == key_width(fs@),
                    lines.deep_view() == ctx_lines(fs@.take(j as int), w as nat),
                decreases fs.len() - j,
            {
                let f = &fs[j];
                let kc = chars_of(f.key.as_str());
                let mut v = right_align_wide(&kc, w);
                append_str(&mut v, "  ");
                if f.required {
                    append_str(&mut v, "required");
                } else {
                    append_str(&mut v, "optional");
                }
                append_str(&mut v, "  ");
                let dc = chars_of(f.desc.as_str());
                if dc.len() == 0 {
                    append_str(&mut v, "Unknown field");
                } else {
                    append_chars(&mut v, &dc);
                }
                let ghost d = lines.deep_view();
                lines.push(string_of(&v));
                assert(lines.deep_view() =~= d.push(ctx_line(fs@[j as int], w as nat)));
                assert(ctx_lines(fs@.take(j as int + 1), w as nat) =~= ctx_lines(fs@.take(j as int), w as nat).push(
                    ctx_line(fs@[j as int], w as nat),
                ));
                j = j + 1;
            }
            assert(fs@.take(fs.len() as int) =~= fs@);
            let body = join_strings(&lines, "\n");
            let mut v = chars_of("Context:\n");
            append_str(&mut v, body.as_str());
            let ghost pd = parts.deep_view();
            parts.push(string_of(&v));
            assert(parts.deep_view() =~= pd.push(v@));
        }
        assert(parts.deep_view() =~= detail_parts(*self));
        join_strings(&parts, "\n\n")
    }

    /// Hands out the query to call, once.
    pub fn take_query(&mut self) -> (r: Option<String>)
        ensures
            r == old(self).query_to_execute,
            *final(self) == (DslBrowser { query_to_execute: None, ..*old(self) }),
    {
        let q = self.query_to_execute.take();
        q
    }
}


/// The focus after a navigation key inside the context fields; `None` for a key that edits.
pub open spec fn ctx_nav_focus(key: KeyCode, idx: nat, total: nat, focus: DslFocus) -> Option<DslFocus> {
    match key {
        KeyCode::Up => Some(if idx > 0 { DslFocus::ContextField((idx - 1) as usize) } else { focus }),
        KeyCode::Down => Some(if idx + 1 < total { DslFocus::ContextField((idx + 1) as usize) } else { focus }),
        KeyCode::Tab => Some(if idx + 1 < total { DslFocus::ContextField((idx + 1) as usize) } else { DslFocus::Minions }),
        KeyCode::BackTab => Some(if idx > 0 { DslFocus::ContextField((idx - 1) as usize) } else { DslFocus::State }),
        _ => None,
    }
}

/// A key on context field `idx` of `total`: navigation moves the focus (see `ctx_nav_focus`);
/// an editing key edits the field, whose value follows its text after a change of text; any
/// other key does nothing and is not used.
pub open spec fn ctx_edit_rel(
    key: KeyCode,
    idx: nat,
    total: nat,
    focus0: DslFocus,
    f0: ContextField,
    f1: ContextField,
    focus1: DslFocus,
    used: bool,
) -> bool {
    match ctx_nav_focus(key, idx, total, focus0) {
        Some(nf) => used && focus1 == nf && f1 == f0,
        None => {
            let e = key_edit(input_text(f0.state), input_cursor(f0.state), input_limit(f0.state), key);
            &&& focus1 == focus0
            &&& used == e is Some
            &&& f1.key == f0.key && f1.desc == f0.desc && f1.required == f0.required
            &&& input_limit(f1.state) == input_limit(f0.state)
            &&& if e is Some {
                &&& input_text(f1.state) == (e->0).0
                &&& input_cursor(f1.state) == (e->0).1
                &&& if key is Char || key is Backspace || key is Delete {
                    f1.value@ == input_text(f1.state)
                } else {
                    f1.value == f0.value
                }
            } else {
                input_text(f1.state) == input_text(f0.state) && input_cursor(f1.state) == input_cursor(f0.state)
                    && f1.value == f0.value
            }
        },
    }
}

/// A key on context field `idx` of `total`, see `ctx_edit_rel`.
pub fn handle_ctx_edit(code: KeyCode, f: &mut ContextField, idx: usize, total: usize, focus: &mut DslFocus) -> (used: bool)
    requires
        input_room(old(f).state),
        idx < total,
    ensures
        ctx_edit_rel(code, idx as nat, total as nat, *old(focus), *old(f), *final(f), *final(focus), used),
{
    match code {
        KeyCode::Up => {
            if idx > 0 {
                *focus = DslFocus::ContextField(idx - 1);
            }
            true
        },
        KeyCode::Down => {
            if idx + 1 < total {
                *focus = DslFocus::ContextField(idx + 1);
            }
            true
        },
        KeyCode::Tab => {
            *focus = if idx + 1 < total { DslFocus::ContextField(idx + 1) } else { DslFocus::Minions };
            true
        },
        KeyCode::BackTab => {
            *focus = if idx > 0 { DslFocus::ContextField(idx - 1) } else { DslFocus::State };
            true
        },
        KeyCode::Char(_) | KeyCode::Backspace | KeyCode::Delete => {
            edit_input(code, &mut f.state);
            f.value = string_from(input_value(&f.state));
            true
        },
        _ => edit_input(code, &mut f.state),
    }
}

/// A list after a navigation key, see `lb_nav`; unchanged for any other key.
pub open spec fn with_nav(lb: ListBox, key: KeyCode) -> ListBox {
    match lb_nav(lb.selected, lb.scroll, lb.items@.len(), key) {
        Some(p) => ListBox { items: lb.items, selected: p.0, scroll: p.1 },
        None => lb,
    }
}

/// The keys of the required fields that are still empty, in order.
pub open spec fn missing_keys(fs: Seq<ContextField>) -> Seq<Seq<char>>
    decreases fs.len(),
{
    if fs.len() == 0 {
        Seq::<Seq<char>>::empty()
    } else {
        let r = missing_keys(fs.drop_last());
        let f = fs.last();
        if f.required && f.value@.len() == 0 { r.push(f.key@) } else { r }
    }
}

/// Tab: the next stop, skipping the context while there is none.
pub open spec fn tab_stop(f: DslFocus, context_active: bool) -> DslFocus {
    if dsl_next(f) is ContextField && !context_active { DslFocus::Call } else { dsl_next(f) }
}

/// Shift+Tab: the previous stop, skipping the context while there is none.
pub open spec fn backtab_stop(f: DslFocus, context_active: bool) -> DslFocus {
    if dsl_prev(f) is ContextField && !context_active { DslFocus::State } else { dsl_prev(f) }
}

/// Whether `d` opens the details: outside the text fields, with a model chosen.
pub open spec fn opens_details(o: DslBrowser, key: KeyCode) -> bool {
    key == KeyCode::Char('d') && !(o.focus is Query || o.focus is ContextField) && resolved(o) is Some
}

/// A key while the details popup is open: up and down scroll it, Enter closes it.
pub open spec fn popup_key(o: DslBrowser, key: KeyCode) -> DslBrowser {
    match key {
        KeyCode::Up => DslBrowser {
            desc_popup_scroll: if o.desc_popup_scroll > 0 { (o.desc_popup_scroll - 1) as usize } else { 0 },
            ..o
        },
        KeyCode::Down => DslBrowser {
            desc_popup_scroll: if o.desc_popup_scroll < usize::MAX { (o.desc_popup_scroll + 1) as usize } else { o.desc_popup_scroll },
            ..o
        },
        KeyCode::Enter => DslBrowser { desc_popup_visible: false, ..o },
        _ => o,
    }
}

/// Enter on the call button: with a query and every required field filled the query is
/// handed out and the composer closes; otherwise the call is refused, noting the missing
/// required keys when the query was there.
pub open spec fn call_result(o: DslBrowser, n: DslBrowser) -> bool {
    match query_of(o) {
        Some(q) => if missing_keys(o.context_fields@).len() > 0 {
            &&& n.error_required_key.deep_view() == missing_keys(o.context_fields@)
            &&& n == (DslBrowser { call_requested: true, query_to_execute: None, error_required_key: n.error_required_key, ..o })
        } else {
            &&& n.query_to_execute is Some
            &&& n.query_to_execute->0@ == q
            &&& n == (DslBrowser { query_to_execute: n.query_to_execute, call_requested: true, visible: false, ..o })
        },
        None => n == (DslBrowser { call_requested: true, query_to_execute: None, ..o }),
    }
}

/// A key handled by the focused part of the composer.
pub open spec fn focus_key(o: DslBrowser, key: KeyCode, n: DslBrowser, used: bool) -> bool {
    match o.focus {
        DslFocus::Query => {
            let e = key_edit(input_text(o.query_state), input_cursor(o.query_state), input_limit(o.query_state), key);
            &&& used
            &&& input_text(n.query_state) == (if e is Some { (e->0).0 } else { input_text(o.query_state) })
            &&& input_cursor(n.query_state) == (if e is Some { (e->0).1 } else { input_cursor(o.query_state) })
            &&& input_limit(n.query_state) == input_limit(o.query_state)
            &&& n.query@ == input_text(n.query_state)
            &&& items_of(n.minions) == minion_rows(o.all_minions.deep_view(), n.query@)
            &&& n.minions.selected == Some(0usize)
            &&& n.minions.scroll == 0
            &&& n == (DslBrowser { query: n.query, query_state: n.query_state, minions: n.minions, ..o })
        },
        DslFocus::Models => {
            let m = DslBrowser { models: with_nav(o.models, key), ..o };
            used && lists_for_model(m, n) && same_but_lists_ctx(m, n)
        },
        DslFocus::Checkbook => used && n == (DslBrowser { checkbook_labels: with_nav(o.checkbook_labels, key), ..o }),
        DslFocus::Target => {
            let m = DslBrowser { target_entities: with_nav(o.target_entities, key), ..o };
            used && states_for_target(m, n) && same_but_states_ctx(m, n)
        },
        DslFocus::State => {
            let m = DslBrowser { states: with_nav(o.states, key), ..o };
            &&& used
            &&& match target_actions_for(m) {
                Some(actions) => ctx_applied(m.states, actions, n.context_active, n.context_fields@),
                None => !n.context_active && n.context_fields@.len() == 0,
            }
            &&& n.states == m.states
            &&& same_but_states_ctx(m, n)
        },
        DslFocus::Minions => used && n == (DslBrowser { minions: with_nav(o.minions, key), ..o }),
        DslFocus::ContextField(idx) => {
            &&& used
            &&& if idx < o.context_fields@.len() {
                &&& n.context_fields@ == o.context_fields@.update(idx as int, n.context_fields@[idx as int])
                &&& ctx_edit_rel(
                    key,
                    idx as nat,
                    o.context_fields@.len(),
                    o.focus,
                    o.context_fields@[idx as int],
                    n.context_fields@[idx as int],
                    n.focus,
                    ctx_nav_focus(key, idx as nat, o.context_fields@.len(), o.focus) is Some
                        || key_edit(
                        input_text(o.context_fields@[idx as int].state),
                        input_cursor(o.context_fields@[idx as int].state),
                        input_limit(o.context_fields@[idx as int].state),
                        key,
                    ) is Some,
                )
                &&& n == (DslBrowser { context_fields: n.context_fields, focus: n.focus, ..o })
            } else {
                n == o
            }
        },
        DslFocus::Call => if key == KeyCode::Enter { used && call_result(o, n) } else { !used && n == o },
        DslFocus::Close => if key == KeyCode::Enter {
            used && n == (DslBrowser { visible: false, ..o })
        } else {
            !used && n == o
        },
    }
}

/// What a key does to the composer. Esc closes the details popup, or else the composer; Tab
/// and Shift+Tab move the focus (see `tab_stop`); `d` opens the details (see
/// `opens_details`); while the details are open, the key goes to them (see `popup_key`);
/// otherwise it goes to the focused part (see `focus_key`).
pub open spec fn dsl_key(o: DslBrowser, key: KeyCode, n: DslBrowser, used: bool) -> bool {
    if key == KeyCode::Esc {
        used && n == (if o.desc_popup_visible {
            DslBrowser { desc_popup_visible: false, ..o }
        } else {
            DslBrowser { visible: false, ..o }
        })
    } else if key == KeyCode::Tab {
        used && n == (DslBrowser { focus: tab_stop(o.focus, o.context_active), ..o })
    } else if key == KeyCode::BackTab {
        used && n == (DslBrowser { focus: backtab_stop(o.focus, o.context_active), ..o })
    } else if opens_details(o, key) {
        &&& used
        &&& n.desc_popup_text@ == full_description(o)
        &&& n == (DslBrowser { desc_popup_text: n.desc_popup_text, desc_popup_scroll: 0, desc_popup_visible: true, ..o })
    } else if o.desc_popup_visible {
        used && n == popup_key(o, key)
    } else {
        focus_key(o, key, n, used)
    }
}

proof fn lemma_nav_list(old_lb: ListBox, new_lb: ListBox, key: KeyCode, used: bool)
    requires
        used == lb_nav(old_lb.selected, old_lb.scroll, old_lb.items@.len(), key) is Some,
        used ==> (new_lb.selected, new_lb.scroll) == lb_nav(old_lb.selected, old_lb.scroll, old_lb.items@.len(), key)->0,
        !used ==> new_lb.selected == old_lb.selected && new_lb.scroll == old_lb.scroll,
        new_lb.items == old_lb.items,
    ensures
        new_lb == with_nav(old_lb, key),
{
}

impl DslBrowser {
    /// A key on the focused part, see `focus_key`.
    fn handle_focus_key(&mut self, code: KeyCode) -> (used: bool)
        requires
            input_room(old(self).query_state),
            forall|i: int| 0 <= i < old(self).context_fields@.len() ==> input_room(#[trigger] old(self).context_fields@[i].state),
        ensures
            focus_key(*old(self), code, *final(self), used),
    {
        match self.focus {
            DslFocus::Query => {
                edit_input(code, &mut self.query_state);
                self.query = string_from(input_value(&self.query_state));
                self.filter_minions();
                true
            },
            DslFocus::Models => {
                let u = handle_list_nav(code, &mut self.models);
                proof {
                    lemma_nav_list(old(self).models, self.models, code, u);
                }
                self.update_targets_and_states();
                true
            },
            DslFocus::Checkbook => {
                let u = handle_list_nav(code, &mut self.checkbook_labels);
                proof {
                    lemma_nav_list(old(self).checkbook_labels, self.checkbook_labels, code, u);
                }
                true
            },
            DslFocus::Target => {
                let u = handle_list_nav(code, &mut self.target_entities);
                proof {
                    lemma_nav_list(old(self).target_entities, self.target_entities, code, u);
                }
                self.update_states_for_target();
                true
            },
            DslFocus::State => {
                let u = handle_list_nav(code, &mut self.states);
                proof {
                    lemma_nav_list(old(self).states, self.states, code, u);
                }
                self.ctxfields_update();
                true
            },
            DslFocus::Minions => {
                let u = handle_list_nav(code, &mut self.minions);
                proof {
                    lemma_nav_list(old(self).minions, self.minions, code, u);
                }
                true
            },
            DslFocus::ContextField(idx) => {
                let n = self.context_fields.len();
                if idx < n {
                    let ghost fs0 = self.context_fields@;
                    assert(input_room(fs0[idx as int].state));
                    let mut f = self.context_fields.remove(idx);
                    let mut focus = self.focus;
                    let _ = handle_ctx_edit(code, &mut f, idx, n, &mut focus);
                    self.context_fields.insert(idx, f);
                    self.focus = focus;
                    assert(self.context_fields@ =~= fs0.update(idx as int, self.context_fields@[idx as int]));
                }
                true
            },
            DslFocus::Call => {
                if code == KeyCode::Enter {
                    let query = self.build_query();
                    match query {
                        Some(q) => {
                            let mut missing: Vec<String> = Vec::new();
                            let mut i: usize = 0;
                            while i < self.context_fields.len()
                                invariant
                                    i <= self.context_fields.len(),
                                    missing.deep_view() == missing_keys(self.context_fields@.take(i as int)),
                                decreases self.context_fields.len() - i,
                            {
                                proof {
                                    assert(self.context_fields@.take(i as int + 1).drop_last() =~= self.context_fields@.take(
                                        i as int,
                                    ));
                                }
                                if self.context_fields[i].required && self.context_fields[i].value.as_str().unicode_len() == 0 {
                                    push_str_item(&mut missing, self.context_fields[i].key.as_str());
                                }
                                i = i + 1;
                            }
                            assert(self.context_fields@.take(self.context_fields.len() as int) =~= self.context_fields@);
                            if missing.len() > 0 {
                                self.call_requested = true;
                                self.query_to_execute = None;
                                self.error_required_key = missing;
                                return true;
                            }
                            self.query_to_execute = Some(q);
                            self.call_requested = true;
                            self.visible = false;
                        },
                        None => {
                            self.call_requested = true;
                            self.query_to_execute = None;
                        },
                    }
                    true
                } else {
                    false
                }
            },
            DslFocus::Close => {
                if code == KeyCode::Enter {
                    self.visible = false;
                    true
                } else {
                    false
                }
            },
        }
    }

    /// A key on the composer, see `dsl_key`.
    pub fn handle_key(&mut self, code: KeyCode) -> (used: bool)
        requires
            input_room(old(self).query_state),
            forall|i: int| 0 <= i < old(self).context_fields@.len() ==> input_room(#[trigger] old(self).context_fields@[i].state),
        ensures
            dsl_key(*old(self), code, *final(self), used),
    {
        match code {
            KeyCode::Esc => {
                if self.desc_popup_visible {
                    self.desc_popup_visible = false;
                    return true;
                }
                self.visible = false;
                return true;
            },
            KeyCode::Tab => {
                let next = self.focus.next();
                self.focus = match next {
                    DslFocus::ContextField(_) => if !self.context_active { DslFocus::Call } else { next },
                    _ => next,
                };
                return true;
            },
            KeyCode::BackTab => {
                let prev = self.focus.prev();
                self.focus = match prev {
                    DslFocus::ContextField(_) => if !self.context_active { DslFocus::State } else { prev },
                    _ => prev,
                };
                return true;
            },
            KeyCode::Char('d') => {
                let text_focus = match self.focus {
                    DslFocus::Query | DslFocus::ContextField(_) => true,
                    _ => false,
                };
                if !text_focus && self.resolved_index().is_some() {
                    self.desc_popup_text = self.build_full_description();
                    self.desc_popup_scroll = 0;
                    self.desc_popup_visible = true;
                    return true;
                }
            },
            _ => {},
        }
        if self.desc_popup_visible {
            match code {
                KeyCode::Up => {
                    self.desc_popup_scroll = self.desc_popup_scroll.saturating_sub(1);
                },
                KeyCode::Down => {
                    self.desc_popup_scroll = self.desc_popup_scroll.saturating_add(1);
                },
                KeyCode::Enter => {
                    self.desc_popup_visible = false;
                },
                _ => {},
            }
            return true;
        }
        self.handle_focus_key(code)
    }
}


/// What a call from the composer comes to: a query to send, or the reason it was refused.
pub enum DslCall {
    Send { query: String, minion_query: String, context: Option<String> },
    Refused(String),
}

/// The minions a call goes to: the query, or `*` when it is empty.
pub open spec fn call_minions(q: Seq<char>) -> Seq<char> {
    if q.len() == 0 || q == "*"@ { "*"@ } else { q }
}

/// `  - key` for each key.
pub open spec fn bullet_lines(keys: Seq<Seq<char>>) -> Seq<Seq<char>> {
    keys.map_values(|k: Seq<char>| "  - "@ + k)
}

/// Why a call was refused: the missing required keys when there are any, else the choice
/// that is missing (the model while the model list is on its header, else the target).
pub open spec fn refusal_text(missing: Seq<Seq<char>>, model: Seq<char>) -> Seq<char> {
    if missing.len() > 0 {
        "Required context fields are missing:\n"@ + join_with(bullet_lines(missing), "\n"@)
    } else if model == "(select)"@ || model == "(no models found)"@ {
        "Select Model first!"@
    } else {
        "Select Target first!"@
    }
}

/// The selected model row as shown, empty when the list has none.
pub open spec fn shown_model(b: DslBrowser) -> Seq<char> {
    match b.models.current() {
        Some(m) => m,
        None => Seq::<char>::empty(),
    }
}

impl DslBrowser {
    /// Takes the call that a key asked for, if any: the query with its minions and context,
    /// or the refusal; the request, the query and the missing keys are consumed.
    pub fn take_call(&mut self) -> (r: Option<DslCall>)
        ensures
            !old(self).call_requested ==> r is None && *final(self) == *old(self),
            old(self).call_requested ==> match old(self).query_to_execute {
                Some(q) => {
                    &&& r matches Some(DslCall::Send { query, minion_query, context }) && query@ == q@ && minion_query@
                        == call_minions(old(self).query@) && (context is Some <==> context_text(*old(self)) is Some) && (
                    context is Some ==> context->0@ == context_text(*old(self))->0)
                    &&& *final(self) == (DslBrowser { call_requested: false, query_to_execute: None, ..*old(self) })
                },
                None => {
                    &&& r matches Some(DslCall::Refused(msg)) && msg@ == refusal_text(
                        old(self).error_required_key.deep_view(),
                        shown_model(*old(self)),
                    )
                    &&& final(self).error_required_key@.len() == 0
                    &&& *final(self) == (DslBrowser {
                        call_requested: false,
                        error_required_key: final(self).error_required_key,
                        ..*old(self)
                    })
                },
            },
    {
        if !self.call_requested {
            return None;
        }
        self.call_requested = false;
        match self.query_to_execute.take() {
            Some(q) => {
                let qc = chars_of(self.query.as_str());
                let star = chars_of("*");
                let minion_query = if qc.len() == 0 || chars_eq(&qc, &star) { string_from("*") } else { string_of(&qc) };
                let context = self.build_context_json();
                Some(DslCall::Send { query: q, minion_query, context })
            },
            None => {
                let mut missing: Vec<String> = Vec::new();
                std::mem::swap(&mut missing, &mut self.error_required_key);
                let msg = if missing.len() > 0 {
                    let mut lines: Vec<String> = Vec::new();
                    let mut i: usize = 0;
                    while i < missing.len()
                        invariant
                            i <= missing.len(),
                            lines.deep_view() == bullet_lines(missing.deep_view().take(i as int)),
                        decreases missing.len() - i,
                    {
                        let mut v = chars_of("  - ");
                        append_str(&mut v, missing[i].as_str());
                        let ghost d = lines.deep_view();
                        lines.push(string_of(&v));
                        assert(lines.deep_view() =~= d.push("  - "@ + missing@[i as int]@));
                        assert(bullet_lines(missing.deep_view().take(i as int + 1)) =~= bullet_lines(
                            missing.deep_view().take(i as int),
                        ).push("  - "@ + missing@[i as int]@));
                        i = i + 1;
                    }
                    assert(missing.deep_view().take(missing.len() as int) =~= missing.deep_view());
                    let mut v = chars_of("Required context fields are missing:\n");
                    let body = join_strings(&lines, "\n");
                    append_str(&mut v, body.as_str());
                    string_of(&v)
                } else {
                    let m = match self.models.current_exec() {
                        Some(m) => chars_of(m.as_str()),
                        None => Vec::new(),
                    };
                    let a = chars_of("(select)");
                    let b = chars_of("(no models found)");
                    if chars_eq(&m, &a) || chars_eq(&m, &b) {
                        string_from("Select Model first!")
                    } else {
                        string_from("Select Target first!")
                    }
                };
                Some(DslCall::Refused(msg))
            },
        }
    }
}

/// Widths of the five list columns and of the context column in `width` columns: the lists
/// share what the context's 28 columns leave, at least 12 each, and the context gets the rest.
pub open spec fn column_widths_spec(width: u16) -> (u16, u16) {
    let remaining: int = if width >= 28 { width - 28 } else { 0 };
    let box_w: int = if remaining / 5 > 12 { remaining / 5 } else { 12 };
    (box_w as u16, if width >= 5 * box_w { (width - 5 * box_w) as u16 } else { 0u16 })
}

pub fn column_widths(width: u16) -> (r: (u16, u16))
    ensures
        r == column_widths_spec(width),
{
    let remaining = width.saturating_sub(28);
    let q = remaining / 5;
    let box_w: u16 = if q > 12 { q } else { 12 };
    (box_w, width.saturating_sub(box_w * 5))
}

/// The rule above the description: ` Description ` (with a hint when more text is hidden)
/// between two runs of `─`, each half of what the label leaves of `width` columns; nothing
/// below six columns.
pub open spec fn dash_rule_spec(width: nat, has_more: bool) -> Option<Seq<char>> {
    if width < 6 {
        None
    } else {
        let label = " Description"@ + (if has_more { " ('d' for more)"@ } else { Seq::<char>::empty() }) + " "@;
        let fill_w: nat = if width >= label.len() { ((width - label.len()) / 2) as nat } else { 0 };
        let fill = Seq::new(fill_w, |i: int| '\u{2500}');
        Some(fill + label + fill)
    }
}

pub fn dash_rule(width: usize, has_more: bool) -> (r: Option<String>)
    ensures
        r is Some <==> dash_rule_spec(width as nat, has_more) is Some,
        r is Some ==> r->0@ == dash_rule_spec(width as nat, has_more)->0,
{
    if width < 6 {
        return None;
    }
    let mut label = chars_of(" Description");
    if has_more {
        append_str(&mut label, " ('d' for more)");
    }
    append_str(&mut label, " ");
    let fill_w: usize = if width >= label.len() { (width - label.len()) / 2 } else { 0 };
    let mut fill: Vec<char> = Vec::new();
    let mut k: usize = 0;
    while k < fill_w
        invariant
            k <= fill_w,
            fill@ == Seq::new(k as nat, |i: int| '\u{2500}'),
        decreases fill_w - k,
    {
        fill.push('\u{2500}');
        assert(fill@ =~= Seq::new((k + 1) as nat, |i: int| '\u{2500}'));
        k = k + 1;
    }
    let mut out = fill.clone();
    append_chars(&mut out, &label);
    append_chars(&mut out, &fill);
    proof {
        reveal_strlit(" Description");
        reveal_strlit(" ('d' for more)");
        reveal_strlit(" ");
    }
    assert(out@ =~= dash_rule_spec(width as nat, has_more)->0);
    Some(string_of(&out))
}

/// A composer button: the label centred in fourteen columns between brackets.
pub fn composer_button(label: &str) -> (r: String)
    ensures
        r@ == crate::alert::button_text(label@, 14),
{
    crate::alert::button_text_exec(label, 14)
}

} // verus!
