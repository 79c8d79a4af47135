use crate::chars::{chars_eq, chars_of};
use crate::infotree::{build_filtered_info_tree, build_info_tree, group_views, info_tree, kept_entries, row_entries, InfoGroup, InfoRow};
use crate::keys::KeyCode;
use crate::online::{InfoValue, TraitSource};
use crate::sortutil::lemma_push_contains;
use crate::logpopup::filter_field_key;
use crate::textinput::{edit_input, input_room, input_cursor, input_text, input_value};
use crate::tree::{
    child_counts, tree_collapse, tree_expand, tree_expanded, tree_is_expanded, tree_new, tree_next_selection, tree_prev_selection,
    tree_select_next, tree_select_prev, tree_selected, tree_selection,
};
use vstd::prelude::*;

verus! {

/// What a tree state shows: its expanded flags and its selected row.
pub open spec fn tree_view(t: Option<ratatui_cheese::tree::TreeState>) -> Option<(Seq<bool>, (usize, Option<usize>))> {
    match t {
        Some(s) => Some((tree_expanded(s), tree_selected(s))),
        None => None,
    }
}

/// The tree state in use: the existing one, or a fresh one for `n` groups, all expanded, with
/// the first header selected.
pub open spec fn ensured_view(t: Option<ratatui_cheese::tree::TreeState>, n: nat) -> (Seq<bool>, (usize, Option<usize>)) {
    match tree_view(t) {
        Some(v) => v,
        None => (Seq::new(n, |i: int| true), (0usize, None::<usize>)),
    }
}

/// A tree view with group `i` expanded (when the view knows it).
pub open spec fn view_expand(v: (Seq<bool>, (usize, Option<usize>)), i: usize) -> (Seq<bool>, (usize, Option<usize>)) {
    (if i < v.0.len() { v.0.update(i as int, true) } else { v.0 }, v.1)
}

/// A tree view with group `i` collapsed; a selected child of it gives the selection to its header.
pub open spec fn view_collapse(v: (Seq<bool>, (usize, Option<usize>)), i: usize) -> (Seq<bool>, (usize, Option<usize>)) {
    (
        if i < v.0.len() { v.0.update(i as int, false) } else { v.0 },
        if v.1.0 == i && v.1.1 is Some { (i, None::<usize>) } else { v.1 },
    )
}

/// A tree view after `k` moves down.
pub open spec fn view_next(v: (Seq<bool>, (usize, Option<usize>)), counts: Seq<nat>, k: nat) -> (Seq<bool>, (usize, Option<usize>))
    decreases k,
{
    if k == 0 {
        v
    } else {
        let w = view_next(v, counts, (k - 1) as nat);
        (w.0, tree_next_selection(w.0, w.1, counts))
    }
}

/// A tree view after `k` moves up.
pub open spec fn view_prev(v: (Seq<bool>, (usize, Option<usize>)), counts: Seq<nat>, k: nat) -> (Seq<bool>, (usize, Option<usize>))
    decreases k,
{
    if k == 0 {
        v
    } else {
        let w = view_prev(v, counts, (k - 1) as nat);
        (w.0, tree_prev_selection(w.0, w.1, counts))
    }
}

/// A tree view with the first `n` groups expanded.
pub open spec fn view_expand_all(v: (Seq<bool>, (usize, Option<usize>)), n: nat) -> (Seq<bool>, (usize, Option<usize>)) {
    (Seq::new(v.0.len(), |j: int| if j < n { true } else { v.0[j] }), v.1)
}

/// A tree view with the first `n` groups collapsed; a selected child of one of them gives the
/// selection to its header.
pub open spec fn view_collapse_all(v: (Seq<bool>, (usize, Option<usize>)), n: nat) -> (Seq<bool>, (usize, Option<usize>)) {
    (
        Seq::new(v.0.len(), |j: int| if j < n { false } else { v.0[j] }),
        if v.1.0 < n && v.1.1 is Some { (v.1.0, None::<usize>) } else { v.1 },
    )
}

/// The keys that act on the tree of the traits popup.
pub open spec fn tree_key(key: KeyCode) -> bool {
    match key {
        KeyCode::Enter | KeyCode::Up | KeyCode::Down | KeyCode::PageUp | KeyCode::PageDown | KeyCode::Left | KeyCode::Right => true,
        KeyCode::Char(c) => c == '+' || c == '=' || c == '-',
        _ => false,
    }
}

/// A tree key on a tree view with groups of `counts` children: Enter toggles the selected
/// group, Up and Down move the selection by one row, the page keys by ten, Left collapses and
/// Right expands the selected group, `+` (or `=`) expands and `-` collapses every group.
pub open spec fn tree_key_view(v: (Seq<bool>, (usize, Option<usize>)), key: KeyCode, counts: Seq<nat>) -> (Seq<bool>, (usize, Option<usize>)) {
    let g = v.1.0;
    match key {
        KeyCode::Enter => if g < v.0.len() && v.0[g as int] { view_collapse(v, g) } else { view_expand(v, g) },
        KeyCode::Up => view_prev(v, counts, 1),
        KeyCode::Down => view_next(v, counts, 1),
        KeyCode::PageUp => view_prev(v, counts, 10),
        KeyCode::PageDown => view_next(v, counts, 10),
        KeyCode::Left => view_collapse(v, g),
        KeyCode::Right => view_expand(v, g),
        KeyCode::Char('-') => view_collapse_all(v, counts.len()),
        _ => view_expand_all(v, counts.len()),
    }
}

/// The minion traits popup: the traits, the value filter, whether the filter has the keyboard,
/// the tree state (none until the tree is first used or after the filter changed), and whether
/// a trait was edited.
pub struct TraitsPopup {
    pub visible: bool,
    pub rows: Vec<InfoRow>,
    pub filter: ratatui_cheese::input::InputState,
    pub filter_focus: bool,
    pub tree: Option<ratatui_cheese::tree::TreeState>,
    pub modified: bool,
}

/// The groups that the popup shows for its traits and filter.
pub open spec fn popup_groups(rows: Seq<InfoRow>, filter: ratatui_cheese::input::InputState) -> Seq<(Seq<char>, Seq<(Seq<char>, Seq<char>)>)> {
    info_tree(kept_entries(row_entries(rows), input_text(filter)))
}

/// The number of rows in each shown group.
pub open spec fn popup_counts(rows: Seq<InfoRow>, filter: ratatui_cheese::input::InputState) -> Seq<nat> {
    popup_groups(rows, filter).map_values(|g: (Seq<char>, Seq<(Seq<char>, Seq<char>)>)| g.1.len())
}

/// A fresh tree state for `n` groups, all expanded.
fn expanded_tree(n: usize) -> (r: ratatui_cheese::tree::TreeState)
    ensures
        tree_expanded(r) == Seq::new(n as nat, |i: int| true),
        tree_selected(r) == (0usize, None::<usize>),
{
    let mut ts = tree_new(n);
    let mut i: usize = 0;
    while i < n
        invariant
            i <= n,
            tree_expanded(ts) == Seq::new(n as nat, |j: int| j < i),
            tree_selected(ts) == (0usize, None::<usize>),
        decreases n - i,
    {
        tree_expand(&mut ts, i);
        assert(tree_expanded(ts) =~= Seq::new(n as nat, |j: int| j < i + 1));
        i = i + 1;
    }
    assert(tree_expanded(ts) =~= Seq::new(n as nat, |i: int| true));
    ts
}

/// Moves the selection `k` rows down.
fn select_next_times(ts: &mut ratatui_cheese::tree::TreeState, groups: &Vec<InfoGroup>, k: usize)
    ensures
        (tree_expanded(*final(ts)), tree_selected(*final(ts))) == view_next(
            (tree_expanded(*old(ts)), tree_selected(*old(ts))),
            child_counts(groups@),
            k as nat,
        ),
{
    let ghost v0 = (tree_expanded(*ts), tree_selected(*ts));
    let mut i: usize = 0;
    while i < k
        invariant
            i <= k,
            (tree_expanded(*ts), tree_selected(*ts)) == view_next(v0, child_counts(groups@), i as nat),
        decreases k - i,
    {
        tree_select_next(ts, groups);
        i = i + 1;
    }
}

/// Moves the selection `k` rows up.
fn select_prev_times(ts: &mut ratatui_cheese::tree::TreeState, groups: &Vec<InfoGroup>, k: usize)
    ensures
        (tree_expanded(*final(ts)), tree_selected(*final(ts))) == view_prev(
            (tree_expanded(*old(ts)), tree_selected(*old(ts))),
            child_counts(groups@),
            k as nat,
        ),
{
    let ghost v0 = (tree_expanded(*ts), tree_selected(*ts));
    let mut i: usize = 0;
    while i < k
        invariant
            i <= k,
            (tree_expanded(*ts), tree_selected(*ts)) == view_prev(v0, child_counts(groups@), i as nat),
        decreases k - i,
    {
        tree_select_prev(ts, groups);
        i = i + 1;
    }
}

impl TraitsPopup {
    /// The groups shown for the current traits and filter.
    pub fn groups_filtered(&self) -> (r: Vec<InfoGroup>)
        ensures
            group_views(r@) == popup_groups(self.rows@, self.filter),
            child_counts(r@) == popup_counts(self.rows@, self.filter),
    {
        let r = build_filtered_info_tree(&self.rows, input_value(&self.filter));
        proof {
            let gv = group_views(r@);
            assert(child_counts(r@) =~= gv.map_values(|g: (Seq<char>, Seq<(Seq<char>, Seq<char>)>)| g.1.len()));
        }
        r
    }

    /// A key on the popup; returns whether it closed the popup. With the filter focused: Esc
    /// leaves the filter, Tab leaves it too when some group is shown (creating the tree state if
    /// there is none), editing keys edit the filter and a changed text (characters, backspace,
    /// delete) drops the tree state. Otherwise: Esc closes the popup, Tab focuses the filter,
    /// and the tree keys act on the tree (see `tree_key_view`), creating its state first if
    /// there is none.
    pub fn handle_key(&mut self, key: KeyCode) -> (closed: bool)
        requires
            input_room(old(self).filter),
        ensures
            final(self).rows == old(self).rows,
            final(self).modified == old(self).modified,
            old(self).filter_focus ==> {
                let n = popup_groups(old(self).rows@, old(self).filter).len();
                &&& !closed
                &&& final(self).visible == old(self).visible
                &&& filter_field_key(key, old(self).filter, final(self).filter)
                &&& final(self).filter_focus == !(key == KeyCode::Esc || (key == KeyCode::Tab && n > 0))
                &&& tree_view(final(self).tree) == if key == KeyCode::Backspace || key == KeyCode::Delete || key is Char {
                    None
                } else if key == KeyCode::Tab && n > 0 {
                    Some(ensured_view(old(self).tree, n))
                } else {
                    tree_view(old(self).tree)
                }
            },
            !old(self).filter_focus ==> {
                let counts = popup_counts(old(self).rows@, old(self).filter);
                &&& closed == (key == KeyCode::Esc)
                &&& final(self).visible == (old(self).visible && key != KeyCode::Esc)
                &&& final(self).filter_focus == (key == KeyCode::Tab)
                &&& input_text(final(self).filter) == input_text(old(self).filter)
                &&& input_cursor(final(self).filter) == input_cursor(old(self).filter)
                &&& tree_view(final(self).tree) == if tree_key(key) {
                    Some(tree_key_view(ensured_view(old(self).tree, counts.len()), key, counts))
                } else {
                    tree_view(old(self).tree)
                }
            },
    {
        if self.filter_focus {
            match key {
                KeyCode::Esc => {
                    self.filter_focus = false;
                },
                KeyCode::Tab => {
                    let groups = self.groups_filtered();
                    if groups.len() > 0 {
                        self.filter_focus = false;
                        if self.tree.is_none() {
                            self.tree = Some(expanded_tree(groups.len()));
                        }
                    }
                },
                KeyCode::Backspace | KeyCode::Delete | KeyCode::Char(_) => {
                    edit_input(key, &mut self.filter);
                    self.tree = None;
                },
                _ => {
                    edit_input(key, &mut self.filter);
                },
            }
            return false;
        }
        match key {
            KeyCode::Esc => {
                self.visible = false;
                return true;
            },
            KeyCode::Tab => {
                self.filter_focus = true;
                return false;
            },
            _ => {},
        }
        let is_tree_key = match key {
            KeyCode::Enter | KeyCode::Up | KeyCode::Down | KeyCode::PageUp | KeyCode::PageDown | KeyCode::Left | KeyCode::Right => true,
            KeyCode::Char(c) => c == '+' || c == '=' || c == '-',
            _ => false,
        };
        if !is_tree_key {
            return false;
        }
        let groups = self.groups_filtered();
        let ghost counts = child_counts(groups@);
        let mut t: Option<ratatui_cheese::tree::TreeState> = None;
        std::mem::swap(&mut t, &mut self.tree);
        let mut ts = match t {
            Some(s) => s,
            None => expanded_tree(groups.len()),
        };
        let ghost v = (tree_expanded(ts), tree_selected(ts));
        let (g, _) = tree_selection(&ts);
        match key {
            KeyCode::Enter => {
                if tree_is_expanded(&ts, g) {
                    tree_collapse(&mut ts, g);
                } else {
                    tree_expand(&mut ts, g);
                }
            },
            KeyCode::Up => select_prev_times(&mut ts, &groups, 1),
            KeyCode::Down => select_next_times(&mut ts, &groups, 1),
            KeyCode::PageUp => select_prev_times(&mut ts, &groups, 10),
            KeyCode::PageDown => select_next_times(&mut ts, &groups, 10),
            KeyCode::Left => tree_collapse(&mut ts, g),
            KeyCode::Right => tree_expand(&mut ts, g),
            KeyCode::Char('-') => {
                let n = groups.len();
                let mut i: usize = 0;
                assert(view_collapse_all(v, 0).0 =~= v.0);
                while i < n
                    invariant
                        i <= n,
                        n == counts.len(),
                        tree_expanded(ts).len() == v.0.len(),
                        (tree_expanded(ts), tree_selected(ts)) == view_collapse_all(v, i as nat),
                    decreases n - i,
                {
                    tree_collapse(&mut ts, i);
                    proof {
                        assert(tree_expanded(ts) =~= view_collapse_all(v, (i + 1) as nat).0);
                    }
                    i = i + 1;
                }
            },
            _ => {
                let n = groups.len();
                let mut i: usize = 0;
                assert(view_expand_all(v, 0).0 =~= v.0);
                while i < n
                    invariant
                        i <= n,
                        n == counts.len(),
                        tree_expanded(ts).len() == v.0.len(),
                        (tree_expanded(ts), tree_selected(ts)) == view_expand_all(v, i as nat),
                    decreases n - i,
                {
                    tree_expand(&mut ts, i);
                    proof {
                        assert(tree_expanded(ts) =~= view_expand_all(v, (i + 1) as nat).0);
                    }
                    i = i + 1;
                }
            },
        }
        self.tree = Some(ts);
        false
    }
}


/// The headers of the groups that a tree view shows expanded, in order.
pub open spec fn expanded_headers(e: Seq<bool>, groups: Seq<(Seq<char>, Seq<(Seq<char>, Seq<char>)>)>) -> Seq<Seq<char>>
    decreases groups.len(),
{
    if groups.len() == 0 {
        Seq::empty()
    } else {
        let r = expanded_headers(e, groups.drop_last());
        let i = groups.len() - 1;
        if i < e.len() && e[i] { r.push(groups.last().0) } else { r }
    }
}

/// The traits without those whose key is `key`.
pub open spec fn rows_without(rows: Seq<InfoRow>, key: Seq<char>) -> Seq<InfoRow>
    decreases rows.len(),
{
    if rows.len() == 0 {
        rows
    } else {
        let r = rows_without(rows.drop_last(), key);
        if rows.last().key@ == key { r } else { r.push(rows.last()) }
    }
}

/// Index of the first trait whose key is `key`, or -1.
pub open spec fn first_with_key(rows: Seq<InfoRow>, key: Seq<char>) -> int
    decreases rows.len(),
{
    if rows.len() == 0 {
        -1
    } else {
        let r = first_with_key(rows.drop_last(), key);
        if r >= 0 {
            r
        } else if rows.last().key@ == key {
            rows.len() - 1
        } else {
            -1
        }
    }
}

pub proof fn lemma_first_with_key(rows: Seq<InfoRow>, key: Seq<char>)
    ensures
        -1 <= first_with_key(rows, key) < rows.len(),
        first_with_key(rows, key) >= 0 ==> rows[first_with_key(rows, key)].key@ == key,
        forall|j: int| 0 <= j < rows.len() && (first_with_key(rows, key) < 0 || j < first_with_key(rows, key)) ==> rows[j].key@ != key,
    decreases rows.len(),
{
    if rows.len() > 0 {
        lemma_first_with_key(rows.drop_last(), key);
        assert forall|j: int| 0 <= j < rows.len() && (first_with_key(rows, key) < 0 || j < first_with_key(rows, key)) implies rows[j].key@ != key by {
            if j < rows.len() - 1 {
                assert(rows[j] == rows.drop_last()[j]);
            }
        }
    }
}

impl TraitsPopup {
    /// Records an edit made in the tag popup (the change itself is sent to the master by the
    /// caller): an empty value removes every trait with that key, otherwise the first trait with
    /// that key gets the value as text, or a static trait is added. The tree state is rebuilt for
    /// the new traits (all of them, unfiltered) with every group expanded whose header was
    /// expanded before, and the popup is marked modified.
    pub fn apply_trait_edit(&mut self, key: String, val: String)
        ensures
            final(self).rows@ == if val@.len() == 0 {
                rows_without(old(self).rows@, key@)
            } else if first_with_key(old(self).rows@, key@) >= 0 {
                let j = first_with_key(old(self).rows@, key@);
                old(self).rows@.update(
                    j,
                    InfoRow { key: old(self).rows@[j].key, value: InfoValue::Str(val), source: old(self).rows@[j].source },
                )
            } else {
                old(self).rows@.push(InfoRow { key: key, value: InfoValue::Str(val), source: TraitSource::Static })
            },
            ({
                let before = match tree_view(old(self).tree) {
                    Some(v) => expanded_headers(v.0, info_tree(row_entries(old(self).rows@))),
                    None => Seq::<Seq<char>>::empty(),
                };
                let after = info_tree(row_entries(final(self).rows@));
                tree_view(final(self).tree) == Some(
                    (Seq::new(after.len(), |i: int| before.contains(after[i].0)), (0usize, None::<usize>)),
                )
            }),
            final(self).modified,
            final(self).visible == old(self).visible,
            final(self).filter_focus == old(self).filter_focus,
            final(self).filter == old(self).filter,
    {
        let mut before: Vec<Vec<char>> = Vec::new();
        let ghost bv = Seq::<Seq<char>>::empty();
        match &self.tree {
            Some(ts) => {
                let old_groups = build_info_tree(&self.rows);
                let ghost gv = group_views(old_groups@);
                let mut i: usize = 0;
                while i < old_groups.len()
                    invariant
                        i <= old_groups@.len(),
                        gv == group_views(old_groups@),
                        before@.map_values(|w: Vec<char>| w@) == expanded_headers(tree_expanded(*ts), gv.take(i as int)),
                    decreases old_groups@.len() - i,
                {
                    proof {
                        assert(gv.take(i as int + 1).drop_last() =~= gv.take(i as int));
                    }
                    if tree_is_expanded(ts, i) {
                        let ghost b = before@.map_values(|w: Vec<char>| w@);
                        before.push(chars_of(old_groups[i].header.as_str()));
                        assert(before@.map_values(|w: Vec<char>| w@) =~= b.push(gv[i as int].0));
                    }
                    i = i + 1;
                }
                assert(gv.take(old_groups@.len() as int) =~= gv);
            },
            None => {
                assert(before@.map_values(|w: Vec<char>| w@) =~= Seq::<Seq<char>>::empty());
            },
        }
        let ghost names = before@.map_values(|w: Vec<char>| w@);
        let ghost old_rows = self.rows@;
        if val.as_str().is_empty() {
            let mut rest: Vec<InfoRow> = Vec::new();
            std::mem::swap(&mut rest, &mut self.rows);
            let kc = chars_of(key.as_str());
            let ghost k: int = 0;
            while rest.len() > 0
                invariant
                    0 <= k <= old_rows.len(),
                    rest@ == old_rows.skip(k),
                    self.rows@ == rows_without(old_rows.take(k), key@),
                    kc@ == key@,
                    self.visible == old(self).visible,
                    self.filter == old(self).filter,
                    self.filter_focus == old(self).filter_focus,
                decreases rest@.len(),
            {
                let r = rest.remove(0);
                proof {
                    assert(old_rows.take(k + 1).drop_last() =~= old_rows.take(k));
                    assert(old_rows.take(k + 1).last() == r);
                }
                let rk = chars_of(r.key.as_str());
                if !chars_eq(&rk, &kc) {
                    self.rows.push(r);
                }
                proof {
                    assert(rest@ =~= old_rows.skip(k + 1));
                    k = k + 1;
                }
            }
            assert(old_rows.take(k) =~= old_rows);
        } else {
            proof {
                lemma_first_with_key(old_rows, key@);
            }
            let kc = chars_of(key.as_str());
            let mut j: usize = 0;
            let mut found = false;
            while !found && j < self.rows.len()
                invariant
                    j <= self.rows@.len(),
                    self.rows@ == old_rows,
                    kc@ == key@,
                    found ==> j < old_rows.len() && old_rows[j as int].key@ == key@,
                    forall|m: int| 0 <= m < j ==> old_rows[m].key@ != key@,
                decreases self.rows@.len() - j, if found { 0int } else { 1int },
            {
                let rk = chars_of(self.rows[j].key.as_str());
                if chars_eq(&rk, &kc) {
                    found = true;
                } else {
                    j = j + 1;
                }
            }
            if found {
                proof {
                    let f = first_with_key(old_rows, key@);
                    if f < 0 {
                        assert(old_rows[j as int].key@ != key@);
                    } else if f < j {
                        assert(old_rows[f].key@ != key@);
                    } else if f > j {
                        assert(old_rows[j as int].key@ != key@);
                    }
                }
                assert(first_with_key(old_rows, key@) == j as int);
                let mut r = self.rows.remove(j);
                r.value = InfoValue::Str(val);
                self.rows.insert(j, r);
            } else {
                proof {
                    let f = first_with_key(old_rows, key@);
                    if f >= 0 {
                        assert(old_rows[f].key@ != key@);
                    }
                }
                assert(first_with_key(old_rows, key@) < 0);
                self.rows.push(InfoRow { key, value: InfoValue::Str(val), source: TraitSource::Static });
            }
        }
        let new_groups = build_info_tree(&self.rows);
        let ghost av = group_views(new_groups@);
        let n = new_groups.len();
        let mut ts = tree_new(n);
        let mut i: usize = 0;
        while i < n
            invariant
                i <= n,
                n == av.len(),
                av == group_views(new_groups@),
                names == before@.map_values(|w: Vec<char>| w@),
                tree_expanded(ts) == Seq::new(n as nat, |m: int| m < i && names.contains(av[m].0)),
                tree_selected(ts) == (0usize, None::<usize>),
            decreases n - i,
        {
            let hc = chars_of(new_groups[i].header.as_str());
            let mut hit = false;
            let mut q: usize = 0;
            while q < before.len()
                invariant
                    q <= before@.len(),
                    i < n,
                    n == av.len(),
                    hc@ == av[i as int].0,
                    names == before@.map_values(|w: Vec<char>| w@),
                    hit <==> names.take(q as int).contains(hc@),
                decreases before@.len() - q,
            {
                proof {
                    assert(names.take(q as int + 1) =~= names.take(q as int).push(names[q as int]));
                    lemma_push_contains(names.take(q as int), names[q as int], hc@);
                }
                if chars_eq(&before[q], &hc) {
                    hit = true;
                }
                q = q + 1;
            }
            assert(names.take(before@.len() as int) =~= names);
            if hit {
                tree_expand(&mut ts, i);
            }
            assert(tree_expanded(ts) =~= Seq::new(n as nat, |m: int| m < i + 1 && names.contains(av[m].0)));
            i = i + 1;
        }
        assert(tree_expanded(ts) =~= Seq::new(n as nat, |m: int| names.contains(av[m].0)));
        self.tree = Some(ts);
        self.modified = true;
    }
}

} // verus!
