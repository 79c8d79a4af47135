use crate::chars::{append_str, chars_of, filter_hit, filter_hit_exec, string_of};
use crate::keys::KeyCode;
use crate::listnav::{list_move, list_move_exec};
use vstd::prelude::*;

verus! {

/// A platform payload held by the repository.
#[derive(Debug)]
pub struct PlatformRow {
    pub platform: String,
    pub arch: String,
    pub version: String,
    pub size: String,
    pub checksum: String,
}

/// Focus inside the delete-platform overlay.
#[derive(Clone, Copy, Debug, PartialEq, Eq, Structural)]
pub enum DeleteFocus {
    YesBtn,
    NoBtn,
}

/// The platforms tab of the repository manager.
pub struct PlatformsManager {
    pub rows: Vec<PlatformRow>,
    pub cursor: usize,
    pub scroll: usize,
    pub delete_visible: bool,
    pub delete_name: String,
    pub delete_focus: DeleteFocus,
}

/// A platform row passes the filter when its platform, architecture or version does.
pub open spec fn platform_hit(r: PlatformRow, filter: Seq<char>) -> bool {
    filter_hit(r.platform@, filter) || filter_hit(r.arch@, filter) || filter_hit(r.version@, filter)
}

/// Number of rows that pass the filter.
pub open spec fn count_platform_hits(rows: Seq<PlatformRow>, filter: Seq<char>) -> nat
    decreases rows.len(),
{
    if rows.len() == 0 {
        0
    } else {
        count_platform_hits(rows.drop_last(), filter) + if platform_hit(rows.last(), filter) { 1nat } else { 0nat }
    }
}

impl PlatformsManager {
    /// An empty manager with the delete overlay closed.
    pub fn new() -> (r: PlatformsManager)
        ensures
            r.rows@.len() == 0,
            r.cursor == 0,
            r.scroll == 0,
            !r.delete_visible,
            r.delete_name@.len() == 0,
            r.delete_focus == DeleteFocus::YesBtn,
    {
        PlatformsManager { rows: Vec::new(), cursor: 0, scroll: 0, delete_visible: false, delete_name: String::new(), delete_focus: DeleteFocus::YesBtn }
    }

    /// Cursor keys move over all rows (ten at a time with the page keys); returns whether the
    /// key was one of them.
    pub fn handle_list_key(&mut self, key: KeyCode) -> (used: bool)
        requires
            old(self).cursor + 10 <= usize::MAX,
        ensures
            used == list_move(old(self).cursor as nat, key, old(self).rows@.len(), 10) is Some,
            used ==> final(self).cursor == list_move(old(self).cursor as nat, key, old(self).rows@.len(), 10)->0,
            !used ==> final(self).cursor == old(self).cursor,
            final(self).rows == old(self).rows,
            final(self).delete_visible == old(self).delete_visible,
    {
        match list_move_exec(self.cursor, key, self.rows.len(), 10) {
            Some(c) => {
                self.cursor = c;
                true
            },
            None => false,
        }
    }

    /// Number of rows whose platform, architecture or version passes the filter.
    pub fn filtered_count(&self, filter_value: &str) -> (r: usize)
        ensures
            r == count_platform_hits(self.rows@, filter_value@),
    {
        let mut n: usize = 0;
        let mut i: usize = 0;
        while i < self.rows.len()
            invariant
                i <= self.rows.len(),
                n <= i,
                n == count_platform_hits(self.rows@.take(i as int), filter_value@),
            decreases self.rows.len() - i,
        {
            proof {
                assert(self.rows@.take(i as int + 1).drop_last() == self.rows@.take(i as int));
            }
            let r = &self.rows[i];
            if filter_hit_exec(r.platform.as_str(), filter_value) || filter_hit_exec(r.arch.as_str(), filter_value) || filter_hit_exec(
                r.version.as_str(),
                filter_value,
            ) {
                n = n + 1;
            }
            i = i + 1;
        }
        assert(self.rows@.take(self.rows.len() as int) == self.rows@);
        n
    }

    /// `platform/arch` of the row under the cursor, if the cursor is on one.
    pub fn selected_name(&self) -> (r: Option<String>)
        ensures
            r is Some <==> self.cursor < self.rows@.len(),
            r is Some ==> r->0@ == self.rows@[self.cursor as int].platform@ + seq!['/'] + self.rows@[self.cursor as int].arch@,
    {
        if self.cursor < self.rows.len() {
            let r = &self.rows[self.cursor];
            let mut v = chars_of(r.platform.as_str());
            v.push('/');
            append_str(&mut v, r.arch.as_str());
            Some(string_of(&v))
        } else {
            None
        }
    }

    /// Opens the delete overlay for a platform, with Yes focused.
    pub fn open_delete(&mut self, name: String)
        ensures
            final(self).delete_name == name,
            final(self).delete_focus == DeleteFocus::YesBtn,
            final(self).delete_visible,
            final(self).rows == old(self).rows,
            final(self).cursor == old(self).cursor,
            final(self).scroll == old(self).scroll,
    {
        self.delete_name = name;
        self.delete_focus = DeleteFocus::YesBtn;
        self.delete_visible = true;
    }

    /// A key on the delete overlay: Esc closes it, Tab and Shift+Tab toggle Yes and No; Enter
    /// is left to the caller (returns `false`).
    pub fn handle_delete_key(&mut self, key: KeyCode) -> (used: bool)
        ensures
            used == (key != KeyCode::Enter),
            final(self).delete_visible == (old(self).delete_visible && key != KeyCode::Esc),
            final(self).delete_focus == if key == KeyCode::Tab || key == KeyCode::BackTab {
                if old(self).delete_focus == DeleteFocus::YesBtn { DeleteFocus::NoBtn } else { DeleteFocus::YesBtn }
            } else {
                old(self).delete_focus
            },
            final(self).delete_name == old(self).delete_name,
            final(self).rows == old(self).rows,
            final(self).cursor == old(self).cursor,
    {
        match key {
            KeyCode::Esc => {
                self.delete_visible = false;
            },
            KeyCode::Tab | KeyCode::BackTab => {
                self.delete_focus = match self.delete_focus {
                    DeleteFocus::YesBtn => DeleteFocus::NoBtn,
                    DeleteFocus::NoBtn => DeleteFocus::YesBtn,
                };
            },
            KeyCode::Enter => {
                return false;
            },
            _ => {},
        }
        true
    }
}

} // verus!
