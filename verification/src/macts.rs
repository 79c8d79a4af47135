use crate::chars::{append_str, chars_of, push_spaces, spaces, string_of};
use crate::keys::{KeyCode, KeyEvent};
use crate::width::{str_width, unicode_str_width};
use vstd::prelude::*;

verus! {

/// A titled section of an actions menu: its items as (label, key hint).
pub struct MenuSection {
    pub title: &'static str,
    pub items: Vec<(&'static str, &'static str)>,
}

/// Number of items of each section, in order.
pub open spec fn section_sizes(v: Seq<MenuSection>) -> Seq<nat> {
    v.map_values(|s: MenuSection| s.items@.len())
}

pub open spec fn sum_sizes(s: Seq<nat>) -> nat
    decreases s.len(),
{
    if s.len() == 0 {
        0
    } else {
        sum_sizes(s.drop_last()) + s.last()
    }
}

fn section(title: &'static str, items: Vec<(&'static str, &'static str)>) -> (r: MenuSection)
    ensures
        r.title == title,
        r.items == items,
{
    MenuSection { title, items }
}

/// The actions menu of a minion: tools, minion operations and cluster operations.
pub fn menu_sections() -> (r: Vec<MenuSection>)
    ensures
        section_sizes(r@) == seq![2nat, 4, 3],
{
    let mut v: Vec<MenuSection> = Vec::new();
    v.push(section("Tools", vec![("System logs", "^L"), ("Defined traits", "^T")]));
    v.push(
        section(
            "Minion Operations",
            vec![("Remote start", "^S"), ("Shutdown minion", "^D"), ("Force re-connect", "^F"), ("Delete minion", "DEL")],
        ),
    );
    v.push(
        section(
            "Cluster Operations",
            vec![("Shutdown everything", "^X"), ("Reconnect all minions", "^A"), ("Register a new minion", "INS")],
        ),
    );
    assert(section_sizes(v@) =~= seq![2nat, 4, 3]);
    v
}

/// The actions menu of the master: operations and system.
pub fn master_menu_sections() -> (r: Vec<MenuSection>)
    ensures
        section_sizes(r@) == seq![4nat, 3],
{
    let mut v: Vec<MenuSection> = Vec::new();
    v.push(
        section(
            "Operations",
            vec![
                ("View master logs online", "^O"),
                ("View local logs", "^L"),
                ("Register a minion", "^R"),
                ("Repository manager", "^G"),
            ],
        ),
    );
    v.push(section("System", vec![("Start", "^T"), ("Stop", "^S"), ("Restart", "^E")]));
    assert(section_sizes(v@) =~= seq![4nat, 3]);
    v
}

fn count_items(v: &Vec<MenuSection>) -> (r: usize)
    requires
        sum_sizes(section_sizes(v@)) <= usize::MAX,
    ensures
        r == sum_sizes(section_sizes(v@)),
{
    let mut n: usize = 0;
    let mut i: usize = 0;
    while i < v.len()
        invariant
            i <= v.len(),
            n == sum_sizes(section_sizes(v@.take(i as int))),
            sum_sizes(section_sizes(v@)) <= usize::MAX,
            sum_sizes(section_sizes(v@.take(i as int))) <= sum_sizes(section_sizes(v@)),
        decreases v.len() - i,
    {
        proof {
            assert(section_sizes(v@.take(i as int + 1)).drop_last() =~= section_sizes(v@.take(i as int)));
            lemma_sum_prefix(section_sizes(v@), i as int + 1);
            assert(section_sizes(v@.take(i as int + 1)) =~= section_sizes(v@).take(i as int + 1));
        }
        n = n + v[i].items.len();
        i = i + 1;
    }
    assert(v@.take(v.len() as int) =~= v@);
    n
}

proof fn lemma_sum_push(s: Seq<nat>, x: nat)
    ensures
        sum_sizes(s.push(x)) == sum_sizes(s) + x,
{
    assert(s.push(x).drop_last() =~= s);
}

proof fn lemma_sum_prefix(s: Seq<nat>, k: int)
    requires
        0 <= k <= s.len(),
    ensures
        sum_sizes(s.take(k)) <= sum_sizes(s),
    decreases s.len() - k,
{
    if k < s.len() {
        lemma_sum_prefix(s, k + 1);
        assert(s.take(k + 1).drop_last() =~= s.take(k));
    } else {
        assert(s.take(k) =~= s);
    }
}

/// Number of items of the minion actions menu.
pub fn total_menu_items() -> (r: usize)
    ensures
        r == 9,
{
    let v = menu_sections();
    proof {
        let e = Seq::<nat>::empty();
        lemma_sum_push(e, 2);
        lemma_sum_push(e.push(2), 4);
        lemma_sum_push(e.push(2).push(4), 3);
        assert(seq![2nat, 4, 3] =~= e.push(2).push(4).push(3));
    }
    count_items(&v)
}

/// Number of items of the master actions menu.
pub fn total_master_menu_items() -> (r: usize)
    ensures
        r == 7,
{
    let v = master_menu_sections();
    proof {
        let e = Seq::<nat>::empty();
        lemma_sum_push(e, 4);
        lemma_sum_push(e.push(4), 3);
        assert(seq![4nat, 3] =~= e.push(4).push(3));
    }
    count_items(&v)
}

/// A menu row: ` label`, spaces, `hint ` filling `inner_w` columns (the spaces are left out
/// when the row is already as wide).
pub open spec fn menu_line_spec(label: Seq<char>, hint: Seq<char>, inner_w: nat) -> Seq<char> {
    let used = unicode_str_width(label) + 1 + unicode_str_width(hint);
    let pad: nat = if inner_w > used + 2 { (inner_w - used - 2) as nat } else { 0 };
    seq![' '] + label + spaces(pad) + hint + seq![' ']
}

pub fn menu_line(label: &str, hint: &str, inner_w: usize) -> (r: String)
    ensures
        r@ == menu_line_spec(label@, hint@, inner_w as nat),
{
    let used: u128 = str_width(label) as u128 + 1 + str_width(hint) as u128;
    let pad: usize = if (inner_w as u128) > used + 2 { (inner_w as u128 - used - 2) as usize } else { 0 };
    let mut v: Vec<char> = Vec::new();
    v.push(' ');
    append_str(&mut v, label);
    push_spaces(&mut v, pad);
    append_str(&mut v, hint);
    v.push(' ');
    assert(v@ =~= menu_line_spec(label@, hint@, inner_w as nat));
    string_of(&v)
}

/// What the master menu asks the application to do.
#[derive(Debug, Clone, Copy, PartialEq, Eq, Structural)]
pub enum MasterAction {
    OpenMasterLogs,
    OpenLocalLogs,
    RegisterMinion,
    OpenRepoManager,
    ClusterUpgrade,
    /// Ask to confirm a master operation (1 start, 2 restart, 3 stop).
    Confirm(u8),
}

/// What a key did to a menu: the selection after it, whether the menu closes, and the action
/// to perform, if any.
pub struct MenuStep<A> {
    pub sel: usize,
    pub close: bool,
    pub action: Option<A>,
}

/// The master menu action of an item.
pub open spec fn master_item_action(sel: nat) -> Option<MasterAction> {
    if sel == 0 {
        Some(MasterAction::OpenMasterLogs)
    } else if sel == 1 {
        Some(MasterAction::OpenLocalLogs)
    } else if sel == 2 {
        Some(MasterAction::RegisterMinion)
    } else if sel == 3 {
        Some(MasterAction::OpenRepoManager)
    } else if sel == 4 {
        Some(MasterAction::ClusterUpgrade)
    } else if sel == 5 {
        Some(MasterAction::Confirm(1))
    } else if sel == 6 {
        Some(MasterAction::Confirm(3))
    } else if sel == 7 {
        Some(MasterAction::Confirm(2))
    } else {
        None
    }
}

/// The master menu action of a Control shortcut.
pub open spec fn master_shortcut(c: char) -> Option<MasterAction> {
    if c == 'o' {
        Some(MasterAction::OpenMasterLogs)
    } else if c == 'l' {
        Some(MasterAction::OpenLocalLogs)
    } else if c == 'r' {
        Some(MasterAction::RegisterMinion)
    } else if c == 'a' {
        Some(MasterAction::OpenRepoManager)
    } else if c == 'u' {
        Some(MasterAction::ClusterUpgrade)
    } else if c == 't' {
        Some(MasterAction::Confirm(1))
    } else if c == 's' {
        Some(MasterAction::Confirm(3))
    } else if c == 'e' {
        Some(MasterAction::Confirm(2))
    } else {
        None
    }
}

/// A key on the master menu with `total` items: Esc closes it; a Control shortcut closes it
/// with its action; up and down (and the page keys) move the selection round the items; Enter
/// closes it with the selected item's action.
pub open spec fn master_menu_spec(sel: usize, key: KeyEvent, total: usize) -> (usize, bool, Option<MasterAction>) {
    match key.code {
        KeyCode::Esc => (sel, true, None),
        KeyCode::Char(c) => if key.control && master_shortcut(c) is Some {
            (sel, true, master_shortcut(c))
        } else {
            (sel, false, None)
        },
        KeyCode::Up | KeyCode::PageUp => (if total > 0 { if sel == 0 { (total - 1) as usize } else { (sel - 1) as usize } } else { sel }, false, None),
        KeyCode::Down | KeyCode::PageDown => (if total > 0 { ((sel + 1) % (total as int)) as usize } else { sel }, false, None),
        KeyCode::Enter => (sel, true, master_item_action(sel as nat)),
        _ => (sel, false, None),
    }
}

fn master_shortcut_exec(c: char) -> (r: Option<MasterAction>)
    ensures
        r == master_shortcut(c),
{
    if c == 'o' {
        Some(MasterAction::OpenMasterLogs)
    } else if c == 'l' {
        Some(MasterAction::OpenLocalLogs)
    } else if c == 'r' {
        Some(MasterAction::RegisterMinion)
    } else if c == 'a' {
        Some(MasterAction::OpenRepoManager)
    } else if c == 'u' {
        Some(MasterAction::ClusterUpgrade)
    } else if c == 't' {
        Some(MasterAction::Confirm(1))
    } else if c == 's' {
        Some(MasterAction::Confirm(3))
    } else if c == 'e' {
        Some(MasterAction::Confirm(2))
    } else {
        None
    }
}

/// A key on the master menu, see `master_menu_spec`.
pub fn master_menu_key(sel: usize, key: KeyEvent, total: usize) -> (r: MenuStep<MasterAction>)
    ensures
        (r.sel, r.close, r.action) == master_menu_spec(sel, key, total),
{
    match key.code {
        KeyCode::Esc => MenuStep { sel, close: true, action: None },
        KeyCode::Char(c) => {
            let a = master_shortcut_exec(c);
            if key.control && a.is_some() {
                MenuStep { sel, close: true, action: a }
            } else {
                MenuStep { sel, close: false, action: None }
            }
        },
        KeyCode::Up | KeyCode::PageUp => {
            let s = if total > 0 {
                if sel == 0 { total - 1 } else { sel - 1 }
            } else {
                sel
            };
            MenuStep { sel: s, close: false, action: None }
        },
        KeyCode::Down | KeyCode::PageDown => {
            let s = if total > 0 { crate::repomanager::wrap_next(sel, total) } else { sel };
            MenuStep { sel: s, close: false, action: None }
        },
        KeyCode::Enter => {
            let a = if sel == 0 {
                Some(MasterAction::OpenMasterLogs)
            } else if sel == 1 {
                Some(MasterAction::OpenLocalLogs)
            } else if sel == 2 {
                Some(MasterAction::RegisterMinion)
            } else if sel == 3 {
                Some(MasterAction::OpenRepoManager)
            } else if sel == 4 {
                Some(MasterAction::ClusterUpgrade)
            } else if sel == 5 {
                Some(MasterAction::Confirm(1))
            } else if sel == 6 {
                Some(MasterAction::Confirm(3))
            } else if sel == 7 {
                Some(MasterAction::Confirm(2))
            } else {
                None
            };
            MenuStep { sel, close: true, action: a }
        },
        _ => MenuStep { sel, close: false, action: None },
    }
}

/// What the minion menu (and its shortcuts) asks the application to do.
#[derive(Debug, Clone, Copy, PartialEq, Eq, Structural)]
pub enum MinionAction {
    OpenLogs,
    OpenTraits,
    OpenSystop,
    Start,
    Shutdown,
    Reconnect,
    /// Ask to confirm a cluster operation (1 shutdown all, 2 reconnect all, 3 delete minion,
    /// 4 the fourth cluster operation).
    ClusterConfirm(u8),
    RegisterMinion,
}

/// The minion menu action of an item.
pub open spec fn minion_item_action(sel: nat) -> Option<MinionAction> {
    if sel == 0 {
        Some(MinionAction::OpenLogs)
    } else if sel == 1 {
        Some(MinionAction::OpenTraits)
    } else if sel == 2 {
        Some(MinionAction::OpenSystop)
    } else if sel == 3 {
        Some(MinionAction::Start)
    } else if sel == 4 {
        Some(MinionAction::Shutdown)
    } else if sel == 5 {
        Some(MinionAction::Reconnect)
    } else if sel == 6 {
        Some(MinionAction::ClusterConfirm(3))
    } else if sel == 7 {
        Some(MinionAction::ClusterConfirm(4))
    } else if sel == 8 {
        Some(MinionAction::ClusterConfirm(1))
    } else if sel == 9 {
        Some(MinionAction::ClusterConfirm(2))
    } else if sel == 10 {
        Some(MinionAction::RegisterMinion)
    } else {
        None
    }
}

/// The minion action of a shortcut key: Control with a letter, Insert or Delete.
pub open spec fn minion_shortcut_spec(key: KeyEvent) -> Option<MinionAction> {
    match key.code {
        KeyCode::Char(c) => if !key.control {
            None
        } else if c == 'l' {
            Some(MinionAction::OpenLogs)
        } else if c == 't' {
            Some(MinionAction::OpenTraits)
        } else if c == 'p' {
            Some(MinionAction::OpenSystop)
        } else if c == 's' {
            Some(MinionAction::Start)
        } else if c == 'd' {
            Some(MinionAction::Shutdown)
        } else if c == 'f' {
            Some(MinionAction::Reconnect)
        } else if c == 'x' {
            Some(MinionAction::ClusterConfirm(1))
        } else if c == 'h' {
            Some(MinionAction::ClusterConfirm(4))
        } else if c == 'a' {
            Some(MinionAction::ClusterConfirm(2))
        } else {
            None
        },
        KeyCode::Insert => Some(MinionAction::RegisterMinion),
        KeyCode::Delete => Some(MinionAction::ClusterConfirm(3)),
        _ => None,
    }
}

/// The minion action of a shortcut key, see `minion_shortcut_spec`.
pub fn minion_shortcut(key: KeyEvent) -> (r: Option<MinionAction>)
    ensures
        r == minion_shortcut_spec(key),
{
    match key.code {
        KeyCode::Char(c) => {
            if !key.control {
                None
            } else if c == 'l' {
                Some(MinionAction::OpenLogs)
            } else if c == 't' {
                Some(MinionAction::OpenTraits)
            } else if c == 'p' {
                Some(MinionAction::OpenSystop)
            } else if c == 's' {
                Some(MinionAction::Start)
            } else if c == 'd' {
                Some(MinionAction::Shutdown)
            } else if c == 'f' {
                Some(MinionAction::Reconnect)
            } else if c == 'x' {
                Some(MinionAction::ClusterConfirm(1))
            } else if c == 'h' {
                Some(MinionAction::ClusterConfirm(4))
            } else if c == 'a' {
                Some(MinionAction::ClusterConfirm(2))
            } else {
                None
            }
        },
        KeyCode::Insert => Some(MinionAction::RegisterMinion),
        KeyCode::Delete => Some(MinionAction::ClusterConfirm(3)),
        _ => None,
    }
}

/// A key on the minion menu with `len` items: Esc closes it; up and down move the selection
/// round the items; page up and page down move it by three, stopping at the ends; Enter closes
/// it with the selected item's action; any other key closes it with its shortcut action, when
/// it is a shortcut.
pub open spec fn minion_menu_spec(sel: usize, key: KeyEvent, len: usize) -> (usize, bool, Option<MinionAction>) {
    match key.code {
        KeyCode::Esc => (sel, true, None),
        KeyCode::Up => (if len > 0 { if sel == 0 { (len - 1) as usize } else { (sel - 1) as usize } } else { sel }, false, None),
        KeyCode::Down => (if len > 0 { if sel >= len - 1 { 0usize } else { (sel + 1) as usize } } else { sel }, false, None),
        KeyCode::PageUp => ((if sel >= 3 { sel - 3 } else { 0 }) as usize, false, None),
        KeyCode::PageDown => (if len > 0 { (if sel + 3 < len - 1 { sel + 3 } else { len - 1 }) as usize } else { sel }, false, None),
        KeyCode::Enter => (sel, true, minion_item_action(sel as nat)),
        _ => (sel, minion_shortcut_spec(key) is Some, minion_shortcut_spec(key)),
    }
}

/// A key on the minion menu, see `minion_menu_spec`.
pub fn minion_menu_key(sel: usize, key: KeyEvent, len: usize) -> (r: MenuStep<MinionAction>)
    ensures
        (r.sel, r.close, r.action) == minion_menu_spec(sel, key, len),
{
    match key.code {
        KeyCode::Esc => MenuStep { sel, close: true, action: None },
        KeyCode::Up => {
            let s = if len > 0 {
                if sel == 0 { len - 1 } else { sel - 1 }
            } else {
                sel
            };
            MenuStep { sel: s, close: false, action: None }
        },
        KeyCode::Down => {
            let s = if len > 0 {
                if sel >= len - 1 { 0 } else { sel + 1 }
            } else {
                sel
            };
            MenuStep { sel: s, close: false, action: None }
        },
        KeyCode::PageUp => MenuStep { sel: sel.saturating_sub(3), close: false, action: None },
        KeyCode::PageDown => {
            let s = if len > 0 {
                let c = sel.saturating_add(3);
                if c < len - 1 { c } else { len - 1 }
            } else {
                sel
            };
            MenuStep { sel: s, close: false, action: None }
        },
        KeyCode::Enter => {
            let a = if sel == 0 {
                Some(MinionAction::OpenLogs)
            } else if sel == 1 {
                Some(MinionAction::OpenTraits)
            } else if sel == 2 {
                Some(MinionAction::OpenSystop)
            } else if sel == 3 {
                Some(MinionAction::Start)
            } else if sel == 4 {
                Some(MinionAction::Shutdown)
            } else if sel == 5 {
                Some(MinionAction::Reconnect)
            } else if sel == 6 {
                Some(MinionAction::ClusterConfirm(3))
            } else if sel == 7 {
                Some(MinionAction::ClusterConfirm(4))
            } else if sel == 8 {
                Some(MinionAction::ClusterConfirm(1))
            } else if sel == 9 {
                Some(MinionAction::ClusterConfirm(2))
            } else if sel == 10 {
                Some(MinionAction::RegisterMinion)
            } else {
                None
            };
            MenuStep { sel, close: true, action: a }
        },
        _ => {
            let a = minion_shortcut(key);
            MenuStep { sel, close: a.is_some(), action: a }
        },
    }
}

/// Law: moving the selection up and then down (or down and then up) in a menu of `total`
/// items returns to the item it was on.
pub proof fn law_master_menu_round_trip(sel: usize, total: usize)
    requires
        sel < total,
    ensures
        master_menu_spec(master_menu_spec(sel, KeyEvent { code: KeyCode::Up, shift: false, control: false }, total).0, KeyEvent { code: KeyCode::Down, shift: false, control: false }, total).0 == sel,
        master_menu_spec(master_menu_spec(sel, KeyEvent { code: KeyCode::Down, shift: false, control: false }, total).0, KeyEvent { code: KeyCode::Up, shift: false, control: false }, total).0 == sel,
{
    let t = total as int;
    if sel == 0 {
        assert((t - 1 + 1) % t == 0) by (nonlinear_arith)
            requires
                t > 0,
        ;
    } else {
        assert(((sel - 1) + 1) % t == sel) by (nonlinear_arith)
            requires
                0 < sel < t,
        ;
    }
    if sel + 1 < t {
        assert((sel + 1) % t == sel + 1) by (nonlinear_arith)
            requires
                0 <= sel + 1 < t,
        ;
    } else {
        assert((sel + 1) % t == 0) by (nonlinear_arith)
            requires
                sel + 1 == t,
                t > 0,
        ;
    }
}

} // verus!
