use sysinspect_ui::alert::{format_button, wrap_text, DialogFormFocus};
use sysinspect_ui::chars::{chars_of, filter_hit_exec, find_sub_exec, replace_all_exec, split_exec, string_of};
use sysinspect_ui::elements::{
    cycle_title, display_query_exec, event_title_parts, format_ip_octets, host_info, left_width, minion_title, query_spans, retcode_label,
    right_align, right_pad, scope_label, SegKind,
};
use sysinspect_ui::keys::KeyCode;
use sysinspect_ui::listnav::{follow_scroll_exec, list_move_exec};
use sysinspect_ui::minreg::{trim_exec, truncate_str, wrap_text as wrap_words};

fn s(v: &[&str]) -> Vec<String> {
    v.iter().map(|x| x.to_string()).collect()
}

#[test]
fn filter_is_case_insensitive_substring() {
    assert!(filter_hit_exec("Hello", "ell"));
    assert!(filter_hit_exec("Hello", "ELL"));
    assert!(filter_hit_exec("HELLO", "hell"));
    assert!(filter_hit_exec("Hello", ""));
    assert!(!filter_hit_exec("Hello", "xyz"));
}

#[test]
fn char_helpers() {
    let v = chars_of("a,b,,c");
    let parts: Vec<String> = split_exec(&v, ',').iter().map(string_of).collect();
    assert_eq!(parts, s(&["a", "b", "", "c"]));
    assert_eq!(find_sub_exec(&chars_of("abcabc"), &chars_of("ca")), Some(2));
    assert_eq!(find_sub_exec(&chars_of("abc"), &chars_of("x")), None);
    let r = replace_all_exec(&chars_of("a with b with c"), &chars_of(" with "), &chars_of("+"));
    assert_eq!(string_of(&r), "a+b+c");
}

#[test]
fn alert_wrap_text_words_and_paragraphs() {
    assert_eq!(wrap_text("hello world foo", 11), s(&["hello world", "foo"]));
    assert_eq!(wrap_text("a\n\nb", 10), s(&["a", "", "b"]));
    assert_eq!(wrap_text("", 10), Vec::<String>::new());
    assert_eq!(wrap_text("abc", 3), Vec::<String>::new());
    assert_eq!(wrap_text("  indented text", 10), s(&["  ", "  indented", "  text"]));
}

#[test]
fn alert_button_is_centred_in_ten_columns() {
    assert_eq!(format_button("OK"), "[    OK    ]");
    assert_eq!(format_button("Cancel"), "[  Cancel  ]");
    assert_eq!(format_button("ABCDEFGHIJKL"), "[ABCDEFGHIJ]");
}

#[test]
fn dialog_focus_cycles_through_widgets_and_buttons() {
    let f = DialogFormFocus::Widget(0);
    assert_eq!(f.next(2, true), DialogFormFocus::Widget(1));
    assert_eq!(DialogFormFocus::Widget(1).next(2, true), DialogFormFocus::LeftButton);
    assert_eq!(DialogFormFocus::LeftButton.next(2, true), DialogFormFocus::RightButton);
    assert_eq!(DialogFormFocus::RightButton.next(2, true), DialogFormFocus::Widget(0));
    assert_eq!(DialogFormFocus::LeftButton.next(2, false), DialogFormFocus::Widget(0));
    assert_eq!(DialogFormFocus::Widget(0).prev(2, false), DialogFormFocus::LeftButton);
    assert_eq!(DialogFormFocus::LeftButton.prev(2, true), DialogFormFocus::Widget(1));
    assert_eq!(DialogFormFocus::Widget(5).index(2, true), 1);
    assert_eq!(DialogFormFocus::from_index(3, 2, true), DialogFormFocus::RightButton);
    assert_eq!(DialogFormFocus::from_index(3, 2, false), DialogFormFocus::LeftButton);
}

#[test]
fn dialog_focus_round_trip_law() {
    for wl in 0..4usize {
        for right in [false, true] {
            let mut stops = vec![DialogFormFocus::LeftButton];
            if right {
                stops.push(DialogFormFocus::RightButton);
            }
            for i in 0..wl {
                stops.push(DialogFormFocus::Widget(i));
            }
            for f in stops {
                assert_eq!(f.next(wl, right).prev(wl, right), f);
                assert_eq!(f.prev(wl, right).next(wl, right), f);
            }
        }
    }
}

#[test]
fn query_display_and_spans() {
    assert_eq!(string_of(&display_query_exec("model/entity/$")), "model/entity");
    assert_eq!(string_of(&display_query_exec("model/entity/on")), "model/entity/on");

    let sp = query_spans("model:label", false);
    let got: Vec<(String, SegKind)> = sp.into_iter().map(|x| (x.text, x.kind)).collect();
    assert_eq!(
        got,
        vec![("model".to_string(), SegKind::Model), (":".to_string(), SegKind::Separator), ("label".to_string(), SegKind::Label)]
    );

    let sp = query_spans("m/t/$", false);
    let got: Vec<(String, SegKind)> = sp.into_iter().map(|x| (x.text, x.kind)).collect();
    assert_eq!(got, vec![("m".to_string(), SegKind::Model), ("/".to_string(), SegKind::Separator), ("t".to_string(), SegKind::Target)]);

    let sp = query_spans("m/t/s", false);
    let kinds: Vec<SegKind> = sp.iter().map(|x| x.kind).collect();
    assert_eq!(kinds, vec![SegKind::Model, SegKind::Separator, SegKind::Target, SegKind::Separator, SegKind::State]);

    let sp = query_spans("m/t/s", true);
    assert_eq!(sp.len(), 1);
    assert_eq!(sp[0].text, "m/t/s");
    assert_eq!(sp[0].kind, SegKind::Plain);

    let sp = query_spans("a/b/c/d", false);
    assert_eq!(sp.len(), 1);
    assert_eq!(sp[0].kind, SegKind::Plain);
}

#[test]
fn titles_and_alignment() {
    assert_eq!(cycle_title("m/t/$", "Title"), "m/t Title");
    assert_eq!(right_align("ab", 5), "   ab");
    assert_eq!(right_align("abcdef", 3), "abcdef");
    assert_eq!(right_pad("ab", 4), "ab  ");
    assert_eq!(right_pad("abcd", 2), "abcd");
    assert_eq!(format_ip_octets("10.0.0.1"), " 10.  0.  0.  1");
    assert_eq!(format_ip_octets("::1"), "            ::1");
}

#[test]
fn event_titles_split_on_with() {
    let (l, r) = event_title_parts("a with b", 4).unwrap();
    assert_eq!(l, "a   ");
    assert_eq!(r, "b");
    assert!(event_title_parts("plain", 3).is_none());
    assert_eq!(left_width("abc with d"), 3);
    assert_eq!(left_width("none"), 0);
}

#[test]
fn host_labels() {
    let h = host_info("", "fq.dn", "h");
    assert_eq!(h.ipaddr, "127.0.0.1");
    assert_eq!(h.hostname, "fq.dn");
    assert_eq!(minion_title(&h), "127.0.0.1 (fq.dn)");
    let h = host_info("10.1.1.1", "", "short");
    assert_eq!(minion_title(&h), "10.1.1.1 (short)");
    assert_eq!(retcode_label(0), "Success");
    assert_eq!(retcode_label(-2), "Error - -2");
    assert_eq!(retcode_label(17), "Error - 17");
    assert_eq!(scope_label("$"), "Global");
    assert_eq!(scope_label("net"), "net");
}

#[test]
fn list_navigation_moves_and_clamps() {
    assert_eq!(list_move_exec(0, KeyCode::Up, 5, 10), Some(0));
    assert_eq!(list_move_exec(4, KeyCode::Down, 5, 10), Some(4));
    assert_eq!(list_move_exec(2, KeyCode::Down, 5, 10), Some(3));
    assert_eq!(list_move_exec(2, KeyCode::PageDown, 30, 10), Some(12));
    assert_eq!(list_move_exec(25, KeyCode::PageDown, 30, 10), Some(29));
    assert_eq!(list_move_exec(2, KeyCode::PageUp, 30, 10), Some(0));
    assert_eq!(list_move_exec(0, KeyCode::Down, 0, 10), Some(0));
    assert_eq!(list_move_exec(2, KeyCode::Enter, 5, 10), None);
}

#[test]
fn list_move_stays_in_range_law() {
    let keys = [KeyCode::Up, KeyCode::Down, KeyCode::PageUp, KeyCode::PageDown];
    for total in 1..8usize {
        for cursor in 0..total {
            for k in keys {
                let c = list_move_exec(cursor, k, total, 3).unwrap();
                assert!(c < total);
            }
        }
    }
}

#[test]
fn follow_scroll_keeps_cursor_visible() {
    assert_eq!(follow_scroll_exec(0, 12, 20, 10), 3);
    assert_eq!(follow_scroll_exec(5, 2, 20, 10), 2);
    assert_eq!(follow_scroll_exec(15, 18, 20, 10), 10);
    for total in 1..12usize {
        for view in 1..5usize {
            for cursor in 0..total {
                for scroll in 0..12usize {
                    let s = follow_scroll_exec(scroll, cursor, total, view);
                    assert!(s <= cursor && cursor < s + view);
                }
            }
        }
    }
}

#[test]
fn truncate_by_display_width() {
    assert_eq!(truncate_str("hello world", 5), "hell\u{2026}");
    assert_eq!(truncate_str("hi", 5), "hi");
    assert_eq!(truncate_str("\u{65e5}\u{672c}\u{8a9e}", 4), "\u{65e5}\u{2026}");
}

#[test]
fn word_wrap_by_display_width() {
    assert_eq!(wrap_words("aaa bbb ccc", 7), s(&["aaa", "bbb ccc"]));
    assert_eq!(wrap_words("x\n\ny", 5), s(&["x", "", "y"]));
    assert_eq!(wrap_words("a\r\nb", 5), s(&["a", "b"]));
    assert_eq!(wrap_words("", 5), Vec::<String>::new());
}

#[test]
fn trim_both_ends() {
    assert_eq!(string_of(&trim_exec(&chars_of("  a b \t"))), "a b");
    assert_eq!(string_of(&trim_exec(&chars_of("   "))), "");
}
