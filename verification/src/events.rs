use crate::keys::KeyEvent;
use vstd::prelude::*;

verus! {

/// What the terminal reported in one turn of the console's loop, or that nothing came before
/// the poll timed out.
#[derive(Debug, Clone, Copy, PartialEq, Eq, Structural)]
pub enum TermEvent {
    /// A key was pressed.
    KeyPress(KeyEvent),
    /// A key was released or repeated.
    KeyOther,
    /// The left mouse button went down at a column and a row.
    MouseLeftDown(u16, u16),
    /// The mouse moved to a column and a row.
    MouseMove(u16, u16),
    /// Any other mouse event.
    MouseOther,
    /// Any other terminal event (resize, focus, paste).
    Other,
    /// Nothing came before the poll timed out.
    Timeout,
}

/// What the loop needs to know of the console for one turn: whether work runs in the
/// background, whether the master is reachable, and which of the polled views are open, with
/// how long ago (in milliseconds) each last fetched.
#[derive(Debug, Clone, Copy, PartialEq, Eq, Structural)]
pub struct LoopState {
    /// The repository manager is adding or removing artefacts.
    pub repo_progress: bool,
    /// A registration, a deletion, a cluster upgrade or a cluster start is shown running.
    pub task_progress: bool,
    pub offline: bool,
    pub minions_visible: bool,
    pub minion_logs_visible: bool,
    pub minion_logs_polling: bool,
    pub minion_logs_age_ms: u64,
    pub systop_visible: bool,
    /// `None` when the system view has not fetched yet.
    pub systop_age_ms: Option<u64>,
    pub master_logs_visible: bool,
    pub master_logs_polling: bool,
    pub master_logs_age_ms: u64,
}

/// What to refresh when the poll timed out: the cycles, unless the console is offline; and,
/// when the cycles came in (the console stayed online), the cluster upgrade status, the minions
/// (when their browser is open), the contents of the selected cycle, the minion's logs (polled
/// every three seconds), the system view (every second, or at once when it never fetched) and
/// the master's logs (polled every three seconds).
#[derive(Debug, Clone, Copy, PartialEq, Eq, Structural)]
pub struct IdlePlan {
    pub refresh_cycles: bool,
    pub refresh_minions: bool,
    pub reload_minion_logs: bool,
    pub refresh_systop: bool,
    pub reload_master_logs: bool,
}

/// What one turn of the loop does with what the terminal reported.
#[derive(Debug, Clone, Copy, PartialEq, Eq, Structural)]
pub enum LoopStep {
    /// Hand the key to the console (`console_key`).
    Key(KeyEvent),
    /// A left click at a column and a row (`click_effect`).
    Click(u16, u16),
    /// The mouse hovers at a column and a row (`hover_effect`).
    Hover(u16, u16),
    /// Nothing to do for this event.
    Ignore,
    /// The poll timed out: refresh what the plan says.
    Idle(IdlePlan),
}

/// How long to wait for terminal events: 50 ms while work runs in the background (so that its
/// progress shows), one second otherwise.
pub open spec fn poll_ms_spec(s: LoopState) -> u64 {
    if s.repo_progress || s.task_progress { 50 } else { 1000 }
}

pub open spec fn idle_plan_spec(s: LoopState) -> IdlePlan {
    IdlePlan {
        refresh_cycles: !s.offline,
        refresh_minions: s.minions_visible,
        reload_minion_logs: s.minion_logs_visible && s.minion_logs_polling && s.minion_logs_age_ms >= 3000,
        refresh_systop: s.systop_visible && match s.systop_age_ms {
            None => true,
            Some(age) => age >= 1000,
        },
        reload_master_logs: s.master_logs_visible && s.master_logs_polling && s.master_logs_age_ms >= 3000,
    }
}

/// One turn of the loop: a key press goes to the console, a left click and a mouse move to the
/// mouse handling, a time-out refreshes (see `idle_plan_spec`); everything else is ignored.
pub open spec fn loop_step_spec(s: LoopState, ev: TermEvent) -> LoopStep {
    match ev {
        TermEvent::KeyPress(k) => LoopStep::Key(k),
        TermEvent::MouseLeftDown(c, r) => LoopStep::Click(c, r),
        TermEvent::MouseMove(c, r) => LoopStep::Hover(c, r),
        TermEvent::Timeout => LoopStep::Idle(idle_plan_spec(s)),
        _ => LoopStep::Ignore,
    }
}

/// How long to wait for terminal events, in milliseconds, see `poll_ms_spec`.
pub fn poll_ms(s: &LoopState) -> (r: u64)
    ensures
        r == poll_ms_spec(*s),
{
    if s.repo_progress || s.task_progress {
        50
    } else {
        1000
    }
}

/// One turn of the loop, see `loop_step_spec`.
pub fn loop_step(s: &LoopState, ev: TermEvent) -> (r: LoopStep)
    ensures
        r == loop_step_spec(*s, ev),
{
    match ev {
        TermEvent::KeyPress(k) => LoopStep::Key(k),
        TermEvent::MouseLeftDown(c, r) => LoopStep::Click(c, r),
        TermEvent::MouseMove(c, r) => LoopStep::Hover(c, r),
        TermEvent::Timeout => {
            let systop = s.systop_visible && match s.systop_age_ms {
                None => true,
                Some(age) => age >= 1000,
            };
            LoopStep::Idle(
                IdlePlan {
                    refresh_cycles: !s.offline,
                    refresh_minions: s.minions_visible,
                    reload_minion_logs: s.minion_logs_visible && s.minion_logs_polling && s.minion_logs_age_ms >= 3000,
                    refresh_systop: systop,
                    reload_master_logs: s.master_logs_visible && s.master_logs_polling && s.master_logs_age_ms >= 3000,
                },
            )
        },
        _ => LoopStep::Ignore,
    }
}

/// Where an artefact picked in the file picker goes, by the repository manager's tab.
#[derive(Debug, Clone, Copy, PartialEq, Eq, Structural)]
pub enum PickTarget {
    Module,
    Library,
    Platform,
}

/// An artefact picked while the repository manager is open is added to the tab it shows:
/// modules, libraries or platforms; the profiles tab takes none.
pub fn pick_target(tab: u8) -> (r: Option<PickTarget>)
    ensures
        r == (if tab == 0 {
            Some(PickTarget::Module)
        } else if tab == 1 {
            Some(PickTarget::Library)
        } else if tab == 3 {
            Some(PickTarget::Platform)
        } else {
            None
        }),
{
    if tab == 0 {
        Some(PickTarget::Module)
    } else if tab == 1 {
        Some(PickTarget::Library)
    } else if tab == 3 {
        Some(PickTarget::Platform)
    } else {
        None
    }
}

/// The repository manager's reload after background work, once per turn while it is open: while
/// work runs a reload is due; when no work runs and one is due, it happens now (and is no
/// longer due). Returns whether a reload is due after the turn and whether to reload now.
pub fn repo_reload_step(visible: bool, working: bool, needs_reload: bool) -> (r: (bool, bool))
    ensures
        r == (if !visible {
            (needs_reload, false)
        } else if working {
            (true, false)
        } else if needs_reload {
            (false, true)
        } else {
            (false, false)
        }),
{
    if !visible {
        (needs_reload, false)
    } else if working {
        (true, false)
    } else if needs_reload {
        (false, true)
    } else {
        (false, false)
    }
}

/// Whether a spinner moves on: when at least one frame time has passed since its last tick.
pub fn spinner_due(visible: bool, since_tick_ms: u64, frame_ms: u64) -> (r: bool)
    ensures
        r == (visible && since_tick_ms >= frame_ms),
{
    visible && since_tick_ms >= frame_ms
}

} // verus!
