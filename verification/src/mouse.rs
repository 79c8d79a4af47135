use crate::alert::DialogFormFocus;
use crate::elements::AlertResult;
use vstd::prelude::*;

verus! {

/// A one-row button on screen: its row, its first column and its width.
#[derive(Debug, Clone, Copy, PartialEq, Eq, Structural)]
pub struct ButtonRect {
    pub x: u16,
    pub y: u16,
    pub width: u16,
}

/// The buttons of the dialog on screen: an optional left button and the right one.
#[derive(Debug, Clone, Copy, PartialEq, Eq, Structural)]
pub struct ButtonRects {
    pub left: Option<ButtonRect>,
    pub right: ButtonRect,
}

/// Whether a cell lies on a button: on its row, from its first column up to, not including,
/// its first column plus its width (the sum saturating at the last column).
pub open spec fn on_button(r: ButtonRect, cx: u16, cy: u16) -> bool {
    let end: int = if r.x + r.width > u16::MAX { u16::MAX as int } else { r.x + r.width };
    cx >= r.x && cx < end && cy == r.y
}

pub fn button_hit(r: ButtonRect, cx: u16, cy: u16) -> (b: bool)
    ensures
        b == on_button(r, cx, cy),
{
    let end: u16 = if (r.x as u32) + (r.width as u32) > 65535 { 65535 } else { r.x + r.width };
    cx >= r.x && cx < end && cy == r.y
}

/// The dialogs that are open, in the order in which they take the mouse.
#[derive(Debug, Clone, Copy, PartialEq, Eq, Structural)]
pub struct OpenDialogs {
    pub error: bool,
    pub info: bool,
    pub help: bool,
    pub exit: bool,
    pub purge: bool,
    pub cluster: bool,
    /// The cluster dialog asks to confirm deleting a minion.
    pub cluster_delete: bool,
    pub master: bool,
}

/// What a click asks for.
#[derive(Debug, Clone, Copy, PartialEq, Eq, Structural)]
pub enum ClickEffect {
    Nothing,
    CloseError,
    CloseInfo,
    CloseHelp,
    /// The exit alert closes; quit when Quit was clicked.
    Exit(AlertResult),
    /// The purge alert closes; purge the database first when confirmed.
    Purge(bool),
    /// Delete the minion (its dialog closes first).
    DeleteMinion,
    CloseCluster,
    /// Run the confirmed cluster operation (its dialog closes first).
    ClusterConfirm,
    /// Run the confirmed master operation (its dialog closes first).
    MasterConfirm,
    CloseMaster,
}

/// A click at a cell: without buttons on screen nothing happens; an error, information or
/// help popup is dismissed by any click; the other dialogs react to their buttons only.
pub open spec fn click_effect_spec(d: OpenDialogs, rects: Option<ButtonRects>, cx: u16, cy: u16) -> ClickEffect {
    match rects {
        None => ClickEffect::Nothing,
        Some(rs) => {
            let on_left = rs.left is Some && on_button(rs.left->0, cx, cy);
            let on_right = on_button(rs.right, cx, cy);
            if d.error {
                ClickEffect::CloseError
            } else if d.info {
                ClickEffect::CloseInfo
            } else if d.help {
                ClickEffect::CloseHelp
            } else if d.exit {
                if on_left {
                    ClickEffect::Exit(AlertResult::Quit)
                } else if on_right {
                    ClickEffect::Exit(AlertResult::Default)
                } else {
                    ClickEffect::Nothing
                }
            } else if d.purge {
                if on_left || on_right { ClickEffect::Purge(on_left) } else { ClickEffect::Nothing }
            } else if d.cluster {
                if d.cluster_delete && on_left {
                    ClickEffect::DeleteMinion
                } else if on_left {
                    ClickEffect::ClusterConfirm
                } else if on_right {
                    ClickEffect::CloseCluster
                } else {
                    ClickEffect::Nothing
                }
            } else if d.master {
                if on_left {
                    ClickEffect::MasterConfirm
                } else if on_right {
                    ClickEffect::CloseMaster
                } else {
                    ClickEffect::Nothing
                }
            } else {
                ClickEffect::Nothing
            }
        },
    }
}

/// What a click at a cell asks for, see `click_effect_spec`.
pub fn click_effect(d: OpenDialogs, rects: Option<ButtonRects>, cx: u16, cy: u16) -> (r: ClickEffect)
    ensures
        r == click_effect_spec(d, rects, cx, cy),
{
    let rs = match rects {
        None => return ClickEffect::Nothing,
        Some(rs) => rs,
    };
    let on_left = match rs.left {
        Some(l) => button_hit(l, cx, cy),
        None => false,
    };
    let on_right = button_hit(rs.right, cx, cy);
    if d.error {
        ClickEffect::CloseError
    } else if d.info {
        ClickEffect::CloseInfo
    } else if d.help {
        ClickEffect::CloseHelp
    } else if d.exit {
        if on_left {
            ClickEffect::Exit(AlertResult::Quit)
        } else if on_right {
            ClickEffect::Exit(AlertResult::Default)
        } else {
            ClickEffect::Nothing
        }
    } else if d.purge {
        if on_left || on_right { ClickEffect::Purge(on_left) } else { ClickEffect::Nothing }
    } else if d.cluster {
        if d.cluster_delete && on_left {
            ClickEffect::DeleteMinion
        } else if on_left {
            ClickEffect::ClusterConfirm
        } else if on_right {
            ClickEffect::CloseCluster
        } else {
            ClickEffect::Nothing
        }
    } else if d.master {
        if on_left {
            ClickEffect::MasterConfirm
        } else if on_right {
            ClickEffect::CloseMaster
        } else {
            ClickEffect::Nothing
        }
    } else {
        ClickEffect::Nothing
    }
}

/// What moving the mouse over a button selects.
#[derive(Debug, Clone, Copy, PartialEq, Eq, Structural)]
pub enum HoverEffect {
    Nothing,
    ExitChoice(AlertResult),
    PurgeChoice(AlertResult),
    ClusterChoice(AlertResult),
    /// The focus of the minion deletion dialog.
    DeleteFocus(DialogFormFocus),
    MasterChoice(AlertResult),
}

/// The mouse over a cell: without buttons on screen, or under an error, information or help
/// popup, nothing happens; over the left button of a dialog its confirming answer is selected,
/// over the right button its default answer (the buttons themselves for the deletion dialog).
pub open spec fn hover_effect_spec(d: OpenDialogs, rects: Option<ButtonRects>, cx: u16, cy: u16) -> HoverEffect {
    match rects {
        None => HoverEffect::Nothing,
        Some(rs) => {
            let on_left = rs.left is Some && on_button(rs.left->0, cx, cy);
            let on_right = on_button(rs.right, cx, cy);
            if d.error || d.info || d.help || !(on_left || on_right) {
                HoverEffect::Nothing
            } else if d.exit {
                HoverEffect::ExitChoice(if on_left { AlertResult::Quit } else { AlertResult::Default })
            } else if d.purge {
                HoverEffect::PurgeChoice(if on_left { AlertResult::Purge } else { AlertResult::Default })
            } else if d.cluster && d.cluster_delete {
                HoverEffect::DeleteFocus(if on_left { DialogFormFocus::LeftButton } else { DialogFormFocus::RightButton })
            } else if d.cluster {
                HoverEffect::ClusterChoice(if on_left { AlertResult::ClusterConfirm } else { AlertResult::Default })
            } else if d.master {
                HoverEffect::MasterChoice(if on_left { AlertResult::Quit } else { AlertResult::Default })
            } else {
                HoverEffect::Nothing
            }
        },
    }
}

/// What the mouse over a cell selects, see `hover_effect_spec`.
pub fn hover_effect(d: OpenDialogs, rects: Option<ButtonRects>, cx: u16, cy: u16) -> (r: HoverEffect)
    ensures
        r == hover_effect_spec(d, rects, cx, cy),
{
    let rs = match rects {
        None => return HoverEffect::Nothing,
        Some(rs) => rs,
    };
    let on_left = match rs.left {
        Some(l) => button_hit(l, cx, cy),
        None => false,
    };
    let on_right = button_hit(rs.right, cx, cy);
    if d.error || d.info || d.help || !(on_left || on_right) {
        HoverEffect::Nothing
    } else if d.exit {
        HoverEffect::ExitChoice(if on_left { AlertResult::Quit } else { AlertResult::Default })
    } else if d.purge {
        HoverEffect::PurgeChoice(if on_left { AlertResult::Purge } else { AlertResult::Default })
    } else if d.cluster && d.cluster_delete {
        HoverEffect::DeleteFocus(if on_left { DialogFormFocus::LeftButton } else { DialogFormFocus::RightButton })
    } else if d.cluster {
        HoverEffect::ClusterChoice(if on_left { AlertResult::ClusterConfirm } else { AlertResult::Default })
    } else if d.master {
        HoverEffect::MasterChoice(if on_left { AlertResult::Quit } else { AlertResult::Default })
    } else {
        HoverEffect::Nothing
    }
}

/// Law: hovering over a button and then clicking it agree: the answer that hovering the exit
/// alert's button selects is the one that clicking it reports.
pub proof fn law_hover_then_click_exit(d: OpenDialogs, rects: Option<ButtonRects>, cx: u16, cy: u16)
    requires
        d.exit && !d.error && !d.info && !d.help,
        hover_effect_spec(d, rects, cx, cy) != HoverEffect::Nothing,
    ensures
        hover_effect_spec(d, rects, cx, cy) matches HoverEffect::ExitChoice(c) && click_effect_spec(d, rects, cx, cy)
            == ClickEffect::Exit(c),
{
}

} // verus!
