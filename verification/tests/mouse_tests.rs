use sysinspect_ui::alert::DialogFormFocus;
use sysinspect_ui::elements::AlertResult;
use sysinspect_ui::mouse::{button_hit, click_effect, hover_effect, ButtonRect, ButtonRects, ClickEffect, HoverEffect, OpenDialogs};

fn none_open() -> OpenDialogs {
    OpenDialogs { error: false, info: false, help: false, exit: false, purge: false, cluster: false, cluster_delete: false, master: false }
}

fn rects() -> Option<ButtonRects> {
    Some(ButtonRects { left: Some(ButtonRect { x: 10, y: 5, width: 12 }), right: ButtonRect { x: 30, y: 5, width: 12 } })
}

#[test]
fn buttons_are_hit_on_their_row_and_width() {
    let b = ButtonRect { x: 10, y: 5, width: 12 };
    assert!(button_hit(b, 10, 5));
    assert!(button_hit(b, 21, 5));
    assert!(!button_hit(b, 22, 5));
    assert!(!button_hit(b, 9, 5));
    assert!(!button_hit(b, 15, 6));
    let edge = ButtonRect { x: 65530, y: 0, width: 20 };
    assert!(button_hit(edge, 65534, 0));
    assert!(!button_hit(edge, 65535, 0));
}

#[test]
fn clicks_follow_the_dialog_on_top() {
    assert_eq!(click_effect(OpenDialogs { error: true, exit: true, ..none_open() }, rects(), 0, 0), ClickEffect::CloseError);
    assert_eq!(click_effect(OpenDialogs { error: true, ..none_open() }, None, 0, 0), ClickEffect::Nothing);
    assert_eq!(click_effect(OpenDialogs { help: true, ..none_open() }, rects(), 0, 0), ClickEffect::CloseHelp);
    let exit = OpenDialogs { exit: true, ..none_open() };
    assert_eq!(click_effect(exit, rects(), 12, 5), ClickEffect::Exit(AlertResult::Quit));
    assert_eq!(click_effect(exit, rects(), 31, 5), ClickEffect::Exit(AlertResult::Default));
    assert_eq!(click_effect(exit, rects(), 25, 5), ClickEffect::Nothing);
    let purge = OpenDialogs { purge: true, ..none_open() };
    assert_eq!(click_effect(purge, rects(), 12, 5), ClickEffect::Purge(true));
    assert_eq!(click_effect(purge, rects(), 31, 5), ClickEffect::Purge(false));
    let del = OpenDialogs { cluster: true, cluster_delete: true, ..none_open() };
    assert_eq!(click_effect(del, rects(), 12, 5), ClickEffect::DeleteMinion);
    assert_eq!(click_effect(del, rects(), 31, 5), ClickEffect::CloseCluster);
    let cl = OpenDialogs { cluster: true, ..none_open() };
    assert_eq!(click_effect(cl, rects(), 12, 5), ClickEffect::ClusterConfirm);
    let m = OpenDialogs { master: true, ..none_open() };
    assert_eq!(click_effect(m, rects(), 12, 5), ClickEffect::MasterConfirm);
    assert_eq!(click_effect(m, rects(), 31, 5), ClickEffect::CloseMaster);
    let no_left = Some(ButtonRects { left: None, right: ButtonRect { x: 30, y: 5, width: 12 } });
    assert_eq!(click_effect(m, no_left, 12, 5), ClickEffect::Nothing);
    assert_eq!(click_effect(none_open(), rects(), 12, 5), ClickEffect::Nothing);
}

#[test]
fn hovering_selects_answers() {
    let exit = OpenDialogs { exit: true, ..none_open() };
    assert_eq!(hover_effect(exit, rects(), 12, 5), HoverEffect::ExitChoice(AlertResult::Quit));
    assert_eq!(hover_effect(exit, rects(), 35, 5), HoverEffect::ExitChoice(AlertResult::Default));
    assert_eq!(hover_effect(exit, rects(), 25, 5), HoverEffect::Nothing);
    assert_eq!(hover_effect(OpenDialogs { info: true, exit: true, ..none_open() }, rects(), 12, 5), HoverEffect::Nothing);
    assert_eq!(hover_effect(OpenDialogs { purge: true, ..none_open() }, rects(), 12, 5), HoverEffect::PurgeChoice(AlertResult::Purge));
    assert_eq!(
        hover_effect(OpenDialogs { cluster: true, cluster_delete: true, ..none_open() }, rects(), 35, 5),
        HoverEffect::DeleteFocus(DialogFormFocus::RightButton)
    );
    assert_eq!(
        hover_effect(OpenDialogs { cluster: true, ..none_open() }, rects(), 12, 5),
        HoverEffect::ClusterChoice(AlertResult::ClusterConfirm)
    );
    assert_eq!(hover_effect(OpenDialogs { master: true, ..none_open() }, rects(), 35, 5), HoverEffect::MasterChoice(AlertResult::Default));
}

#[test]
fn hover_then_click_agree_on_exit() {
    let exit = OpenDialogs { exit: true, ..none_open() };
    for cx in 0..50u16 {
        match hover_effect(exit, rects(), cx, 5) {
            HoverEffect::ExitChoice(c) => assert_eq!(click_effect(exit, rects(), cx, 5), ClickEffect::Exit(c)),
            HoverEffect::Nothing => assert_eq!(click_effect(exit, rects(), cx, 5), ClickEffect::Nothing),
            other => panic!("unexpected {other:?}"),
        }
    }
}
