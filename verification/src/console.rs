use crate::dialogs::{
    choice_key_spec, cluster_confirm_spec, exit_alert_key, exit_key_spec, help_key_spec, help_popup_key, master_confirm_spec,
    message_alert_key, Choice, ClusterConfirm, ClusterRun, MasterConfirm,
};
use crate::alert::DialogFormFocus;
use crate::elements::{ActiveBox, AlertResult};
use crate::keys::{KeyCode, KeyEvent};
use crate::macts::{master_menu_key, master_menu_spec, master_shortcut, total_master_menu_items, MasterAction};
use crate::mainview::{pane_key_spec, PaneEffect, PaneLens, Panes, UISizes};
use vstd::prelude::*;

verus! {

/// A dialog of the console that handles its keys itself, with its own handler.
#[derive(Debug, Clone, Copy, PartialEq, Eq, Structural)]
pub enum Overlay {
    SetupWizard,
    RegistrationForm,
    RegistrationProgress,
    FilePicker,
    RepoManager,
    DslBrowser,
    TagPopup,
    MasterLogs,
    MinionsPopup,
}

/// What the console shows: which dialogs are open, the state of the small ones (alerts,
/// menus, confirmations, help), and the focus and cursors of the main panes.
#[derive(Debug, Clone, Copy, PartialEq, Eq, Structural)]
pub struct ConsoleState {
    pub error_alert: bool,
    pub info_alert: bool,
    /// Closing the information alert leaves the console.
    pub pending_exit: bool,
    /// A deletion, a cluster upgrade or a cluster start is in progress; keys are ignored.
    pub busy: bool,
    pub master_menu: bool,
    pub master_menu_sel: usize,
    pub exit_alert: Choice,
    pub setup_wizard: bool,
    pub registration_form: bool,
    pub registration_progress: bool,
    pub file_picker: bool,
    pub repo_manager: bool,
    pub dsl_browser: bool,
    pub help: bool,
    pub help_scroll: usize,
    pub purge_alert: Choice,
    pub cluster_confirm: ClusterConfirm,
    pub master_confirm: MasterConfirm,
    pub tag_popup: bool,
    pub master_logs: bool,
    pub minions_popup: bool,
    /// The master is running (its event channel is connected).
    pub master_running: bool,
    pub panes: Panes,
}

/// What the application has to do after a key on the console.
#[derive(Debug, Clone, Copy, PartialEq, Eq, Structural)]
pub enum ConsoleAction {
    Nothing,
    /// Leave the console.
    Quit,
    /// Hand the key to the handler of this dialog.
    Forward(Overlay),
    /// Purge the database.
    Purge,
    /// Open the master's logs, load the local logs, open the repository manager, or start a
    /// cluster upgrade.
    Master(MasterAction),
    /// The master's logs were asked for while the master is not running: the error alert is
    /// shown with that message.
    MasterNotRunning,
    /// Run the confirmed master operation (1 start, 2 restart, 3 stop).
    RunMaster(u8),
    /// Run the confirmed cluster operation.
    RunCluster(ClusterRun),
    /// What a key on the main panes asks for.
    Pane(PaneEffect),
    /// Load the models into the query composer.
    LoadModels,
    /// Open the minion browser.
    OpenMinions,
}

/// The console after the master menu (or a shortcut) chose `action`: registering a minion and
/// confirming a master operation open their dialogs here; the master's logs need a running
/// master; the other actions are left to the application.
pub open spec fn master_action_step(s: ConsoleState, action: Option<MasterAction>) -> (ConsoleState, ConsoleAction) {
    match action {
        None => (s, ConsoleAction::Nothing),
        Some(MasterAction::OpenMasterLogs) => if s.master_running {
            (s, ConsoleAction::Master(MasterAction::OpenMasterLogs))
        } else {
            (ConsoleState { error_alert: true, ..s }, ConsoleAction::MasterNotRunning)
        },
        Some(MasterAction::RegisterMinion) => (ConsoleState { registration_form: true, ..s }, ConsoleAction::Nothing),
        Some(MasterAction::Confirm(n)) => (
            ConsoleState { master_confirm: MasterConfirm { visible: true, choice: AlertResult::Default, action: n }, ..s },
            ConsoleAction::Nothing,
        ),
        Some(a) => (s, ConsoleAction::Master(a)),
    }
}

/// A pane key on the main view: the panes move as `pane_key_spec` says, and the application
/// is told what the panes ask for.
#[verifier::opaque]
pub open spec fn pane_step(s: ConsoleState, k: KeyCode, lens: PaneLens, sizes: UISizes) -> (ConsoleState, ConsoleAction) {
    let (p, e) = pane_key_spec(s.panes, k, lens, sizes);
    (ConsoleState { panes: p, ..s }, ConsoleAction::Pane(e))
}

/// A character key on the main view, see `main_view_step`.
pub open spec fn char_step(s: ConsoleState, c: char, control: bool) -> (ConsoleState, ConsoleAction) {
    if c == 'q' {
        (ConsoleState { exit_alert: Choice { visible: true, choice: AlertResult::Quit }, ..s }, ConsoleAction::Nothing)
    } else if c == 'p' {
        (ConsoleState { purge_alert: Choice { visible: true, choice: AlertResult::Default }, ..s }, ConsoleAction::Nothing)
    } else if c == 'h' {
        (ConsoleState { help: true, ..s }, ConsoleAction::Nothing)
    } else if c == 'c' {
        (s, ConsoleAction::LoadModels)
    } else if control && master_shortcut(c) is Some {
        master_action_step(s, master_shortcut(c))
    } else if !control && c == 'm' {
        (ConsoleState { master_menu: true, master_menu_sel: 0, ..s }, ConsoleAction::Nothing)
    } else if !control && c == 'o' {
        (s, ConsoleAction::OpenMinions)
    } else {
        (s, ConsoleAction::Nothing)
    }
}

/// A key on the main view, with no dialog open: the pane keys move the panes (see
/// `pane_key_spec`); `q` and Esc ask whether to quit; `p` asks whether to purge; `h` opens the
/// help; `c` opens the query composer; the Control shortcuts of the master menu act as in
/// the menu; `m` opens the master menu; `o` the minion browser;
/// Shift+Tab on the details returns to the events and Tab on the events goes to the details.
pub open spec fn main_view_step(s: ConsoleState, key: KeyEvent, lens: PaneLens, sizes: UISizes) -> (ConsoleState, ConsoleAction) {
    match key.code {
        KeyCode::PageUp | KeyCode::PageDown | KeyCode::Up | KeyCode::Down | KeyCode::Right | KeyCode::Left
        | KeyCode::Enter => pane_step(s, key.code, lens, sizes),
        KeyCode::Esc => (ConsoleState { exit_alert: Choice { visible: true, choice: AlertResult::Quit }, ..s }, ConsoleAction::Nothing),
        KeyCode::Char(c) => char_step(s, c, key.control),
        KeyCode::BackTab => if s.panes.active_box == ActiveBox::Info {
            (
                ConsoleState { panes: Panes { active_box: ActiveBox::Events, ..s.panes }, ..s },
                ConsoleAction::Pane(PaneEffect::Status(ActiveBox::Events)),
            )
        } else {
            (s, ConsoleAction::Nothing)
        },
        KeyCode::Tab => if s.panes.active_box == ActiveBox::Events {
            (
                ConsoleState { panes: Panes { active_box: ActiveBox::Info, ..s.panes }, ..s },
                ConsoleAction::Pane(PaneEffect::ShowEventWithStatus),
            )
        } else {
            (s, ConsoleAction::Nothing)
        },
        _ => (s, ConsoleAction::Nothing),
    }
}

/// A key on the console. The open dialog that comes first in this order takes it: the error
/// alert, the information alert (closing it leaves the console when an exit is pending), a
/// running operation (which ignores keys), the master menu, the exit alert, the setup wizard
/// (unless the file picker is open over it), the registration form and its progress, the file
/// picker, the repository manager, the query composer, the help, the purge alert, the cluster
/// and master confirmations, the tag editor, the master's logs and the minion browser. With
/// none open the key goes to the main view (see `main_view_step`).
pub open spec fn console_step(s: ConsoleState, key: KeyEvent, lens: PaneLens, sizes: UISizes) -> (ConsoleState, ConsoleAction) {
    let k = key.code;
    let closes = k == KeyCode::Enter || k == KeyCode::Esc;
    if s.error_alert {
        (ConsoleState { error_alert: !closes, ..s }, ConsoleAction::Nothing)
    } else if s.info_alert {
        if closes && s.pending_exit {
            (ConsoleState { info_alert: false, pending_exit: false, ..s }, ConsoleAction::Quit)
        } else {
            (ConsoleState { info_alert: !closes, ..s }, ConsoleAction::Nothing)
        }
    } else if s.busy {
        (s, ConsoleAction::Nothing)
    } else if s.master_menu {
        let (sel, close, action) = master_menu_spec(s.master_menu_sel, key, 7);
        if close {
            master_action_step(ConsoleState { master_menu: false, master_menu_sel: sel, ..s }, action)
        } else {
            (ConsoleState { master_menu_sel: sel, ..s }, ConsoleAction::Nothing)
        }
    } else if s.exit_alert.visible {
        let (d, _, quit) = exit_key_spec(s.exit_alert, k);
        (ConsoleState { exit_alert: d, ..s }, if quit { ConsoleAction::Quit } else { ConsoleAction::Nothing })
    } else if s.setup_wizard && !s.file_picker {
        (s, ConsoleAction::Forward(Overlay::SetupWizard))
    } else if s.registration_form {
        (s, ConsoleAction::Forward(Overlay::RegistrationForm))
    } else if s.registration_progress {
        (s, ConsoleAction::Forward(Overlay::RegistrationProgress))
    } else if s.file_picker {
        (s, ConsoleAction::Forward(Overlay::FilePicker))
    } else if s.repo_manager {
        (s, ConsoleAction::Forward(Overlay::RepoManager))
    } else if s.dsl_browser {
        (s, ConsoleAction::Forward(Overlay::DslBrowser))
    } else if s.help {
        let (v, scroll, _) = help_key_spec(s.help, s.help_scroll, k);
        (ConsoleState { help: v, help_scroll: scroll, ..s }, ConsoleAction::Nothing)
    } else if s.purge_alert.visible {
        let (d, _, purge) = choice_key_spec(s.purge_alert, k, AlertResult::Purge);
        (ConsoleState { purge_alert: d, ..s }, if purge { ConsoleAction::Purge } else { ConsoleAction::Nothing })
    } else if s.cluster_confirm.visible {
        let (d, _, run) = cluster_confirm_spec(s.cluster_confirm, k);
        (
            ConsoleState { cluster_confirm: d, ..s },
            match run {
                Some(r) => ConsoleAction::RunCluster(r),
                None => ConsoleAction::Nothing,
            },
        )
    } else if s.master_confirm.visible {
        let (d, _, run) = master_confirm_spec(s.master_confirm, k);
        (
            ConsoleState { master_confirm: d, ..s },
            match run {
                Some(a) => ConsoleAction::RunMaster(a),
                None => ConsoleAction::Nothing,
            },
        )
    } else if s.tag_popup {
        (s, ConsoleAction::Forward(Overlay::TagPopup))
    } else if s.master_logs {
        (s, ConsoleAction::Forward(Overlay::MasterLogs))
    } else if s.minions_popup {
        (s, ConsoleAction::Forward(Overlay::MinionsPopup))
    } else {
        main_view_step(s, key, lens, sizes)
    }
}

impl ConsoleState {
    /// The console at start-up: no dialog open, nothing running, the master not connected yet,
    /// the panes as `Panes::new` gives them.
    pub fn new() -> (r: ConsoleState)
        ensures
            r == (ConsoleState {
                error_alert: false,
                info_alert: false,
                pending_exit: false,
                busy: false,
                master_menu: false,
                master_menu_sel: 0,
                exit_alert: Choice { visible: false, choice: AlertResult::Default },
                setup_wizard: false,
                registration_form: false,
                registration_progress: false,
                file_picker: false,
                repo_manager: false,
                dsl_browser: false,
                help: false,
                help_scroll: 0,
                purge_alert: Choice { visible: false, choice: AlertResult::Default },
                cluster_confirm: ClusterConfirm {
                    visible: false,
                    choice: AlertResult::Default,
                    pending_action: 0,
                    force_remove: false,
                    focus: DialogFormFocus::LeftButton,
                },
                master_confirm: MasterConfirm { visible: false, choice: AlertResult::Default, action: 0 },
                tag_popup: false,
                master_logs: false,
                minions_popup: false,
                master_running: false,
                panes: Panes {
                    active_box: ActiveBox::Cycles,
                    saved_active_box: None,
                    no_focus: false,
                    selected_cycle: 0,
                    selected_minion: 0,
                    selected_event: 0,
                    info_offset: 0,
                },
            }),
    {
        ConsoleState {
            error_alert: false,
            info_alert: false,
            pending_exit: false,
            busy: false,
            master_menu: false,
            master_menu_sel: 0,
            exit_alert: Choice { visible: false, choice: AlertResult::Default },
            setup_wizard: false,
            registration_form: false,
            registration_progress: false,
            file_picker: false,
            repo_manager: false,
            dsl_browser: false,
            help: false,
            help_scroll: 0,
            purge_alert: Choice { visible: false, choice: AlertResult::Default },
            cluster_confirm: ClusterConfirm {
                visible: false,
                choice: AlertResult::Default,
                pending_action: 0,
                force_remove: false,
                focus: DialogFormFocus::LeftButton,
            },
            master_confirm: MasterConfirm { visible: false, choice: AlertResult::Default, action: 0 },
            tag_popup: false,
            master_logs: false,
            minions_popup: false,
            master_running: false,
            panes: Panes::new(),
        }
    }
}

fn master_action(s: ConsoleState, action: Option<MasterAction>) -> (r: (ConsoleState, ConsoleAction))
    ensures
        r == master_action_step(s, action),
{
    match action {
        None => (s, ConsoleAction::Nothing),
        Some(MasterAction::OpenMasterLogs) => {
            if s.master_running {
                (s, ConsoleAction::Master(MasterAction::OpenMasterLogs))
            } else {
                (ConsoleState { error_alert: true, ..s }, ConsoleAction::MasterNotRunning)
            }
        },
        Some(MasterAction::RegisterMinion) => (ConsoleState { registration_form: true, ..s }, ConsoleAction::Nothing),
        Some(MasterAction::Confirm(n)) => (
            ConsoleState { master_confirm: MasterConfirm { visible: true, choice: AlertResult::Default, action: n }, ..s },
            ConsoleAction::Nothing,
        ),
        Some(a) => (s, ConsoleAction::Master(a)),
    }
}

fn shortcut_of(c: char) -> (r: Option<MasterAction>)
    ensures
        r == master_shortcut(c),
{
    if c == 'o' {
        Some(MasterAction::OpenMasterLogs)
    } else if c == 'l' {
        Some(MasterAction::OpenLocalLogs)
    } else if c == 'r' {
        Some(MasterAction::RegisterMinion)
    } else if c == 'a' {
        Some(MasterAction::OpenRepoManager)
    } else if c == 'u' {
        Some(MasterAction::ClusterUpgrade)
    } else if c == 't' {
        Some(MasterAction::Confirm(1))
    } else if c == 's' {
        Some(MasterAction::Confirm(3))
    } else if c == 'e' {
        Some(MasterAction::Confirm(2))
    } else {
        None
    }
}

fn pane_key(s: ConsoleState, k: KeyCode, lens: PaneLens, sizes: UISizes) -> (r: (ConsoleState, ConsoleAction))
    ensures
        r == pane_step(s, k, lens, sizes),
{
    let mut p = s.panes;
    let e = p.handle_key(k, lens, sizes);
    proof {
        reveal(pane_step);
    }
    (ConsoleState { panes: p, ..s }, ConsoleAction::Pane(e))
}

fn char_key(s: ConsoleState, c: char, control: bool) -> (r: (ConsoleState, ConsoleAction))
    ensures
        r == char_step(s, c, control),
{
    if c == 'q' {
        (ConsoleState { exit_alert: Choice { visible: true, choice: AlertResult::Quit }, ..s }, ConsoleAction::Nothing)
    } else if c == 'p' {
        (ConsoleState { purge_alert: Choice { visible: true, choice: AlertResult::Default }, ..s }, ConsoleAction::Nothing)
    } else if c == 'h' {
        (ConsoleState { help: true, ..s }, ConsoleAction::Nothing)
    } else if c == 'c' {
        (s, ConsoleAction::LoadModels)
    } else {
        let a = shortcut_of(c);
        if control && a.is_some() {
            master_action(s, a)
        } else if !control && c == 'm' {
            (ConsoleState { master_menu: true, master_menu_sel: 0, ..s }, ConsoleAction::Nothing)
        } else if !control && c == 'o' {
            (s, ConsoleAction::OpenMinions)
        } else {
            (s, ConsoleAction::Nothing)
        }
    }
}

fn main_view_key(s: ConsoleState, key: KeyEvent, lens: PaneLens, sizes: UISizes) -> (r: (ConsoleState, ConsoleAction))
    ensures
        r == main_view_step(s, key, lens, sizes),
{
    match key.code {
        KeyCode::PageUp | KeyCode::PageDown | KeyCode::Up | KeyCode::Down | KeyCode::Right | KeyCode::Left
        | KeyCode::Enter => pane_key(s, key.code, lens, sizes),
        KeyCode::Esc => (ConsoleState { exit_alert: Choice { visible: true, choice: AlertResult::Quit }, ..s }, ConsoleAction::Nothing),
        KeyCode::Char(c) => char_key(s, c, key.control),
        KeyCode::BackTab => {
            if s.panes.active_box == ActiveBox::Info {
                (
                    ConsoleState { panes: Panes { active_box: ActiveBox::Events, ..s.panes }, ..s },
                    ConsoleAction::Pane(PaneEffect::Status(ActiveBox::Events)),
                )
            } else {
                (s, ConsoleAction::Nothing)
            }
        },
        KeyCode::Tab => {
            if s.panes.active_box == ActiveBox::Events {
                (
                    ConsoleState { panes: Panes { active_box: ActiveBox::Info, ..s.panes }, ..s },
                    ConsoleAction::Pane(PaneEffect::ShowEventWithStatus),
                )
            } else {
                (s, ConsoleAction::Nothing)
            }
        },
        _ => (s, ConsoleAction::Nothing),
    }
}

#[verifier::spinoff_prover]
#[verifier::rlimit(100)]
fn console_next(s: ConsoleState, key: KeyEvent, lens: PaneLens, sizes: UISizes) -> (r: (ConsoleState, ConsoleAction))
    ensures
        r == console_step(s, key, lens, sizes),
{
    let k = key.code;
    let closes = k == KeyCode::Enter || k == KeyCode::Esc;
    if s.error_alert {
        let (still, _) = message_alert_key(true, k);
        return (ConsoleState { error_alert: still, ..s }, ConsoleAction::Nothing);
    }
    if s.info_alert {
        if closes && s.pending_exit {
            return (ConsoleState { info_alert: false, pending_exit: false, ..s }, ConsoleAction::Quit);
        }
        return (ConsoleState { info_alert: !closes, ..s }, ConsoleAction::Nothing);
    }
    if s.busy {
        return (s, ConsoleAction::Nothing);
    }
    if s.master_menu {
        let total = total_master_menu_items();
        let step = master_menu_key(s.master_menu_sel, key, total);
        if step.close {
            return master_action(ConsoleState { master_menu: false, master_menu_sel: step.sel, ..s }, step.action);
        }
        return (ConsoleState { master_menu_sel: step.sel, ..s }, ConsoleAction::Nothing);
    }
    if s.exit_alert.visible {
        let mut d = s.exit_alert;
        let (_, quit) = exit_alert_key(&mut d, k);
        return (ConsoleState { exit_alert: d, ..s }, if quit { ConsoleAction::Quit } else { ConsoleAction::Nothing });
    }
    if s.setup_wizard && !s.file_picker {
        return (s, ConsoleAction::Forward(Overlay::SetupWizard));
    }
    if s.registration_form {
        return (s, ConsoleAction::Forward(Overlay::RegistrationForm));
    }
    if s.registration_progress {
        return (s, ConsoleAction::Forward(Overlay::RegistrationProgress));
    }
    if s.file_picker {
        return (s, ConsoleAction::Forward(Overlay::FilePicker));
    }
    if s.repo_manager {
        return (s, ConsoleAction::Forward(Overlay::RepoManager));
    }
    if s.dsl_browser {
        return (s, ConsoleAction::Forward(Overlay::DslBrowser));
    }
    if s.help {
        let (v, scroll, _) = help_popup_key(true, s.help_scroll, k);
        return (ConsoleState { help: v, help_scroll: scroll, ..s }, ConsoleAction::Nothing);
    }
    if s.purge_alert.visible {
        let mut d = s.purge_alert;
        let (_, purge) = d.handle_key(k, AlertResult::Purge);
        return (ConsoleState { purge_alert: d, ..s }, if purge { ConsoleAction::Purge } else { ConsoleAction::Nothing });
    }
    if s.cluster_confirm.visible {
        let mut d = s.cluster_confirm;
        let (_, run) = d.handle_key(k);
        let a = match run {
            Some(r) => ConsoleAction::RunCluster(r),
            None => ConsoleAction::Nothing,
        };
        return (ConsoleState { cluster_confirm: d, ..s }, a);
    }
    if s.master_confirm.visible {
        let mut d = s.master_confirm;
        let (_, run) = d.handle_key(k);
        let a = match run {
            Some(x) => ConsoleAction::RunMaster(x),
            None => ConsoleAction::Nothing,
        };
        return (ConsoleState { master_confirm: d, ..s }, a);
    }
    if s.tag_popup {
        return (s, ConsoleAction::Forward(Overlay::TagPopup));
    }
    if s.master_logs {
        return (s, ConsoleAction::Forward(Overlay::MasterLogs));
    }
    if s.minions_popup {
        return (s, ConsoleAction::Forward(Overlay::MinionsPopup));
    }
    main_view_key(s, key, lens, sizes)
}

/// A key on the console, see `console_step`: updates what the console shows and returns what
/// the application has to do.
pub fn console_key(s: &mut ConsoleState, key: KeyEvent, lens: PaneLens, sizes: UISizes) -> (r: ConsoleAction)
    ensures
        (*final(s), r) == console_step(*old(s), key, lens, sizes),
{
    let (n, a) = console_next(*s, key, lens, sizes);
    *s = n;
    a
}

} // verus!
