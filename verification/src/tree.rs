use crate::infotree::InfoGroup;
use ratatui_cheese::tree::{TreeGroup, TreeItem};
use vstd::prelude::*;

verus! {

/// The selection state of the collapsible tree of `ratatui_cheese`, held as it is: one
/// expanded flag per group, and the selected row (group index, child index for a child row).
#[verifier::external_type_specification]
#[verifier::external_body]
pub struct ExTreeState(ratatui_cheese::tree::TreeState);

/// The expanded flags that a `TreeState` holds, one per group it was made for.
pub uninterp spec fn tree_expanded(s: ratatui_cheese::tree::TreeState) -> Seq<bool>;

/// The row that a `TreeState` has selected: group index, and child index for a child row.
pub uninterp spec fn tree_selected(s: ratatui_cheese::tree::TreeState) -> (usize, Option<usize>);

/// The row that `TreeState::select_next` selects, given the expanded flags, the selected row
/// and the number of children of each group.
pub uninterp spec fn tree_next_selection(expanded: Seq<bool>, selected: (usize, Option<usize>), child_counts: Seq<nat>) -> (
    usize,
    Option<usize>,
);

/// The row that `TreeState::select_prev` selects, given the same.
pub uninterp spec fn tree_prev_selection(expanded: Seq<bool>, selected: (usize, Option<usize>), child_counts: Seq<nat>) -> (
    usize,
    Option<usize>,
);

/// The number of children of each group.
pub open spec fn child_counts(groups: Seq<InfoGroup>) -> Seq<nat> {
    groups.map_values(|g: InfoGroup| g.children@.len())
}

/// Calls `TreeState::new`: every group collapsed, the first group's header selected.
#[verifier::external_body]
pub(crate) fn tree_new(n: usize) -> (r: ratatui_cheese::tree::TreeState)
    ensures
        tree_expanded(r) == Seq::new(n as nat, |i: int| false),
        tree_selected(r) == (0usize, None::<usize>),
{
    ratatui_cheese::tree::TreeState::new(n)
}

/// Calls `TreeState::expand`: the group's flag is set when the group exists.
#[verifier::external_body]
pub(crate) fn tree_expand(s: &mut ratatui_cheese::tree::TreeState, i: usize)
    ensures
        tree_expanded(*final(s)) == if i < tree_expanded(*old(s)).len() {
            tree_expanded(*old(s)).update(i as int, true)
        } else {
            tree_expanded(*old(s))
        },
        tree_selected(*final(s)) == tree_selected(*old(s)),
{
    s.expand(i)
}

/// Calls `TreeState::collapse`: the group's flag is cleared when the group exists, and a
/// selected child of that group gives the selection to the group's header.
#[verifier::external_body]
pub(crate) fn tree_collapse(s: &mut ratatui_cheese::tree::TreeState, i: usize)
    ensures
        tree_expanded(*final(s)) == if i < tree_expanded(*old(s)).len() {
            tree_expanded(*old(s)).update(i as int, false)
        } else {
            tree_expanded(*old(s))
        },
        tree_selected(*final(s)) == if tree_selected(*old(s)).0 == i && tree_selected(*old(s)).1 is Some {
            (i, None::<usize>)
        } else {
            tree_selected(*old(s))
        },
{
    s.collapse(i)
}

/// Calls `TreeState::is_expanded`: `false` for a group it does not know.
#[verifier::external_body]
pub(crate) fn tree_is_expanded(s: &ratatui_cheese::tree::TreeState, i: usize) -> (r: bool)
    ensures
        r == (i < tree_expanded(*s).len() && tree_expanded(*s)[i as int]),
{
    s.is_expanded(i)
}

/// Calls `TreeState::selected`.
#[verifier::external_body]
pub(crate) fn tree_selection(s: &ratatui_cheese::tree::TreeState) -> (r: (usize, Option<usize>))
    ensures
        r == tree_selected(*s),
{
    s.selected()
}

/// Calls `TreeState::select_next` on the groups, each turned into a tree group whose children
/// are its rows.
#[verifier::external_body]
pub(crate) fn tree_select_next(s: &mut ratatui_cheese::tree::TreeState, groups: &Vec<InfoGroup>)
    ensures
        tree_expanded(*final(s)) == tree_expanded(*old(s)),
        tree_selected(*final(s)) == tree_next_selection(tree_expanded(*old(s)), tree_selected(*old(s)), child_counts(groups@)),
{
    let gs: Vec<TreeGroup> = groups
        .iter()
        .map(|g| {
            let items: Vec<TreeItem> = g.children.iter().map(|c| TreeItem::new(c.text.clone()).icon(c.icon.clone())).collect();
            TreeGroup::new(TreeItem::new(g.header.clone())).children(items)
        })
        .collect();
    s.select_next(&gs)
}

/// Calls `TreeState::select_prev` on the groups, each turned into a tree group whose children
/// are its rows.
#[verifier::external_body]
pub(crate) fn tree_select_prev(s: &mut ratatui_cheese::tree::TreeState, groups: &Vec<InfoGroup>)
    ensures
        tree_expanded(*final(s)) == tree_expanded(*old(s)),
        tree_selected(*final(s)) == tree_prev_selection(tree_expanded(*old(s)), tree_selected(*old(s)), child_counts(groups@)),
{
    let gs: Vec<TreeGroup> = groups
        .iter()
        .map(|g| {
            let items: Vec<TreeItem> = g.children.iter().map(|c| TreeItem::new(c.text.clone()).icon(c.icon.clone())).collect();
            TreeGroup::new(TreeItem::new(g.header.clone())).children(items)
        })
        .collect();
    s.select_prev(&gs)
}

} // verus!
