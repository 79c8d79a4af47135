use sysinspect_ui::filepicker::{file_icon, truncate_to_width, unix_mode_to_string, FilePicker, ListedEntry, PickerFocus, PickerMode};
use sysinspect_ui::keys::{KeyCode, KeyEvent};

fn entry(name: &str, is_dir: bool) -> ListedEntry {
    ListedEntry { name: name.to_string(), path: format!("/data/{name}"), is_dir, executable: false }
}

fn key(code: KeyCode) -> KeyEvent {
    KeyEvent::plain(code)
}

fn names(p: &FilePicker) -> Vec<String> {
    p.entries.iter().map(|e| e.name.clone()).collect()
}

fn opened() -> FilePicker {
    let mut p = FilePicker::new();
    p.open("/data".to_string(), PickerMode::FilePicker);
    p.refresh_entries(Some(vec![entry("zeta.txt", false), entry("Beta", true), entry("alpha", true), entry("Alpha.png", false)]));
    p
}

#[test]
fn refresh_lists_parent_then_sorted_dirs_then_files() {
    let p = opened();
    assert_eq!(names(&p), vec!["..", "alpha", "Beta", "Alpha.png", "zeta.txt"]);
    assert_eq!(p.dirs_end, 3);
    assert_eq!(p.entries[0].path, "/");
    assert!(p.entries[0].is_parent);
    assert_eq!(p.entries[3].icon, "\u{1F5BC}");
    assert_eq!(p.entries[4].icon, "\u{1F4C4}");
}

#[test]
fn unreadable_directory_keeps_only_the_parent() {
    let mut p = FilePicker::new();
    p.open("/data/x".to_string(), PickerMode::Any);
    p.refresh_entries(None);
    assert_eq!(names(&p), vec![".."]);
    assert_eq!(p.dirs_end, 0);
    assert_eq!(p.entries[0].path, "/data");
}

#[test]
fn cursors_move_within_their_lists() {
    let mut p = opened();
    for _ in 0..5 {
        p.handle_key(key(KeyCode::Down));
    }
    assert_eq!(p.dir_cursor, 2);
    p.handle_key(key(KeyCode::Tab));
    assert_eq!(p.focus, PickerFocus::Files);
    p.handle_key(key(KeyCode::PageDown));
    assert_eq!(p.file_cursor, 1);
    p.handle_key(key(KeyCode::PageUp));
    assert_eq!(p.file_cursor, 0);
    p.handle_key(key(KeyCode::BackTab));
    assert_eq!(p.focus, PickerFocus::Dirs);
}

#[test]
fn enter_opens_a_directory_and_asks_for_a_listing() {
    let mut p = opened();
    p.handle_key(key(KeyCode::Down));
    let (used, reload) = p.handle_key(key(KeyCode::Enter));
    assert!(used && reload);
    assert_eq!(p.current_path, "/data/alpha");
    assert_eq!(p.dir_cursor, 0);
}

#[test]
fn space_selects_a_file_but_not_a_directory() {
    let mut p = opened();
    p.handle_key(key(KeyCode::Char(' ')));
    assert!(p.visible);
    assert_eq!(p.selected, None);
    p.handle_key(key(KeyCode::Tab));
    p.handle_key(key(KeyCode::Down));
    p.handle_key(key(KeyCode::Char(' ')));
    assert!(!p.visible);
    assert_eq!(p.selected, Some("/data/zeta.txt".to_string()));
}

#[test]
fn directory_picker_selects_the_current_path() {
    let mut p = FilePicker::new();
    p.open("/srv".to_string(), PickerMode::DirectoryPicker);
    p.handle_key(key(KeyCode::Char(' ')));
    assert_eq!(p.selected, Some("/srv".to_string()));
    assert!(!p.visible);
}

#[test]
fn filter_narrows_the_listing() {
    let mut p = opened();
    p.handle_key(key(KeyCode::Char('/')));
    assert!(p.filter_focus);
    let (_, reload) = p.handle_key(key(KeyCode::Char('A')));
    assert!(reload);
    p.refresh_entries(Some(vec![entry("zeta.txt", false), entry("Beta", true), entry("alpha", true), entry("Alpha.png", false)]));
    assert_eq!(names(&p), vec!["..", "alpha", "Beta", "Alpha.png", "zeta.txt"]);
    p.handle_key(key(KeyCode::Char('l')));
    p.refresh_entries(Some(vec![entry("zeta.txt", false), entry("Beta", true), entry("alpha", true), entry("Alpha.png", false)]));
    assert_eq!(names(&p), vec!["..", "alpha", "Alpha.png"]);
    let (_, reload) = p.handle_key(key(KeyCode::Left));
    assert!(!reload);
    let (_, reload) = p.handle_key(key(KeyCode::Esc));
    assert!(reload);
    assert!(!p.filter_focus);
    assert_eq!(p.focus, PickerFocus::Dirs);
}

#[test]
fn hidden_picker_takes_no_key() {
    let mut p = FilePicker::new();
    assert_eq!(p.handle_key(key(KeyCode::Esc)), (false, false));
}

#[test]
fn icons_follow_kind_and_extension() {
    assert_eq!(file_icon("x", true, false), "\u{1F4C1}");
    assert_eq!(file_icon("run.sh", false, true), "\u{1F4A5}");
    assert_eq!(file_icon("notes.MD", false, false), "\u{1F4C4}");
    assert_eq!(file_icon("disk.iso", false, false), "\u{1F4BF}");
    assert_eq!(file_icon("pack.tar", false, false), "\u{1F4E6}");
    assert_eq!(file_icon(".bashrc", false, false), "\u{1F4DC}");
    assert_eq!(file_icon("README", false, false), "\u{1F4DC}");
}

#[test]
fn permission_strings() {
    assert_eq!(unix_mode_to_string(0o040755), "drwxr-xr-x");
    assert_eq!(unix_mode_to_string(0o100644), "-rw-r--r--");
    assert_eq!(unix_mode_to_string(0), "----------");
}

#[test]
fn truncation_by_width() {
    assert_eq!(truncate_to_width("hello", 3), "hel");
    assert_eq!(truncate_to_width("hello", 10), "hello");
    assert_eq!(truncate_to_width("日本語", 4), "日本");
}
