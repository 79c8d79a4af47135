use sysinspect_ui::keys::{KeyCode, KeyEvent};
use sysinspect_ui::minreg::{
    handle_progress_key, host_display, host_entry, step_label, FormFocus, RegistrationForm, RegistrationProgress, STEP_COUNT,
};
use sysinspect_ui::platforms::{DeleteFocus, PlatformRow, PlatformsManager};
use sysinspect_ui::profiles::{ProfCreateFocus, ProfDeleteFocus, ProfDetailFocus, ProfilesManager, ResolvedLibrary, ResolvedModule};
use sysinspect_ui::setup::{
    arch_from_label, config_yaml, copy_message, join_rel_exec, join_strings, parse_u32, truncate_chars, InstallationMode, MasterSetupWizard,
    SetupFocus, SetupRequest,
};
use sysinspect_ui::sortutil::{dedup_by_key_sorted, sort_dedup, CtxVar};

fn key(code: KeyCode) -> KeyEvent {
    KeyEvent::plain(code)
}

fn s(v: &[&str]) -> Vec<String> {
    v.iter().map(|x| x.to_string()).collect()
}

#[test]
fn registration_form_focus_order() {
    assert_eq!(FormFocus::Hostname.next(), FormFocus::User);
    assert_eq!(FormFocus::Cancel.next(), FormFocus::Hostname);
    assert_eq!(FormFocus::Hostname.prev(), FormFocus::Cancel);
    assert_eq!(FormFocus::OkBtn.prev(), FormFocus::Path);
    for f in [FormFocus::Hostname, FormFocus::User, FormFocus::Path, FormFocus::OkBtn, FormFocus::Cancel] {
        assert_eq!(f.next().prev(), f);
    }
    for f in [FormFocus::Hostname, FormFocus::User, FormFocus::Path, FormFocus::SudoCheck, FormFocus::Cancel] {
        assert_eq!(f.prev().next(), f);
    }
}

#[test]
fn registration_form_keys() {
    let mut form = RegistrationForm::new(Some("root".to_string()));
    assert_eq!(form.user.value(), "root");
    assert_eq!(form.path.value(), "~/sysinspect");
    assert_eq!(form.hostname.value(), "");
    assert!(!form.handle_key(key(KeyCode::Char('x'))));
    assert_eq!(form.hostname.value(), "");

    form.visible = true;
    assert!(form.handle_key(key(KeyCode::Char('h'))));
    assert!(form.handle_key(key(KeyCode::Char('1'))));
    assert_eq!(form.hostname.value(), "h1");
    form.handle_key(key(KeyCode::Backspace));
    assert_eq!(form.hostname.value(), "h");
    form.handle_key(key(KeyCode::Tab));
    assert_eq!(form.focus, FormFocus::User);
    form.handle_key(KeyEvent { code: KeyCode::Tab, shift: true, control: false });
    assert_eq!(form.focus, FormFocus::Hostname);
    form.handle_key(key(KeyCode::BackTab));
    assert_eq!(form.focus, FormFocus::Cancel);
    form.handle_key(key(KeyCode::BackTab));
    form.handle_key(key(KeyCode::BackTab));
    assert_eq!(form.focus, FormFocus::Path);
    form.handle_key(key(KeyCode::Tab));
    assert_eq!(form.focus, FormFocus::SudoCheck);
    form.handle_key(key(KeyCode::Char(' ')));
    assert!(form.use_sudo);
    form.handle_key(key(KeyCode::Enter));
    assert!(!form.use_sudo);
    form.handle_key(key(KeyCode::Tab));
    form.handle_key(key(KeyCode::Enter));
    assert!(form.ok_pressed);
    assert!(form.visible);
    form.handle_key(key(KeyCode::Esc));
    assert!(!form.visible);

    let form = RegistrationForm::new(None);
    assert_eq!(form.user.value(), "");
}

#[test]
fn registration_steps_and_targets() {
    assert_eq!(STEP_COUNT, 15);
    assert_eq!(step_label(0), "Probing platform...");
    assert_eq!(step_label(9), "Registering with master...");
    assert_eq!(step_label(14), "Syncing CMDB...");
    assert_eq!(host_display("u", "h", "/p"), "u@h:/p");
    assert_eq!(host_entry("u", "h", "~/sysinspect"), "u@h");
    assert_eq!(host_entry("u", "h", "/opt"), "u@h:/opt");
}

#[test]
fn registration_progress_lifecycle() {
    let p = RegistrationProgress::new("h".to_string());
    assert!(p.visible && !p.done && !p.cancelled);
    assert_eq!(p.message, "Connecting...");
    assert_eq!(p.total, STEP_COUNT);

    let mut p = RegistrationProgress::new("h".to_string());
    assert!(!handle_progress_key(KeyCode::Enter, &mut p));
    assert!(handle_progress_key(KeyCode::Esc, &mut p));
    assert!(p.cancelled);

    let mut p = RegistrationProgress::new("h".to_string());
    p.finish(Ok(Some("mid".to_string())));
    assert!(p.done);
    assert_eq!(p.minion_id.as_deref(), Some("mid"));
    assert_eq!(p.message, "Complete");
    assert!(handle_progress_key(KeyCode::Char(' '), &mut p));
    assert!(!handle_progress_key(KeyCode::Up, &mut p));

    let mut p = RegistrationProgress::new("h".to_string());
    p.done = false;
    p.error = Some("boom".to_string());
    assert!(!handle_progress_key(KeyCode::Down, &mut p));
    assert!(!handle_progress_key(KeyCode::PageDown, &mut p));
    assert_eq!(p.error_scroll, 6);
    handle_progress_key(KeyCode::PageUp, &mut p);
    assert_eq!(p.error_scroll, 1);
    handle_progress_key(KeyCode::PageUp, &mut p);
    assert_eq!(p.error_scroll, 0);
    assert!(handle_progress_key(KeyCode::Enter, &mut p));
    assert!(!p.cancelled);

    let mut p = RegistrationProgress::new("h".to_string());
    p.finish(Err("boom".to_string()));
    assert!(p.done);
    assert_eq!(p.error.as_deref(), Some("boom"));
    assert_eq!(p.message, "Connecting...");

    let mut p = RegistrationProgress::placeholder();
    assert!(!p.visible);
    assert!(handle_progress_key(KeyCode::Esc, &mut p));
    assert!(!p.cancelled);
}

#[test]
fn port_numbers_parse_as_u32() {
    assert_eq!(parse_u32("4200"), Some(4200));
    assert_eq!(parse_u32("+7"), Some(7));
    assert_eq!(parse_u32("0"), Some(0));
    assert_eq!(parse_u32("4294967295"), Some(u32::MAX));
    assert_eq!(parse_u32("4294967296"), None);
    assert_eq!(parse_u32(""), None);
    assert_eq!(parse_u32("+"), None);
    assert_eq!(parse_u32("12a"), None);
    assert_eq!(parse_u32("-1"), None);
    assert_eq!(parse_u32(" 1"), None);
}

#[test]
fn setup_focus_order_and_round_trip() {
    assert_eq!(SetupFocus::CustomRadio.next(InstallationMode::SystemWide), SetupFocus::BindAddr);
    assert_eq!(SetupFocus::CustomRadio.next(InstallationMode::Custom), SetupFocus::CustomDest);
    assert_eq!(SetupFocus::BindAddr.prev(InstallationMode::SystemWide), SetupFocus::CustomRadio);
    assert_eq!(SetupFocus::BindAddr.prev(InstallationMode::Custom), SetupFocus::CustomDest);
    let all = [
        SetupFocus::SysMasterPath,
        SetupFocus::SystemRadio,
        SetupFocus::CustomRadio,
        SetupFocus::CustomDest,
        SetupFocus::BindAddr,
        SetupFocus::BindPort,
        SetupFocus::FsPort,
        SetupFocus::ApiCheck,
        SetupFocus::OkBtn,
        SetupFocus::Cancel,
    ];
    for m in [InstallationMode::SystemWide, InstallationMode::Custom] {
        for f in all {
            if f == SetupFocus::CustomDest && m == InstallationMode::SystemWide {
                continue;
            }
            assert_eq!(f.next(m).prev(m), f);
            assert_eq!(f.prev(m).next(m), f);
        }
    }
}

#[test]
fn setup_wizard_defaults_and_keys() {
    let mut w = MasterSetupWizard::new("/cwd".to_string(), None);
    assert_eq!(w.bind_addr.value(), "0.0.0.0");
    assert_eq!(w.bind_port.value(), "4200");
    assert_eq!(w.fs_port.value(), "4201");
    assert_eq!(w.custom_destination.value(), "/cwd");
    assert_eq!(w.sysmaster_path.value(), "");
    assert!(w.api_enabled);
    assert!(!w.handle_key(key(KeyCode::Enter)));
    assert!(!w.launch_file_picker);

    w.visible = true;
    assert!(w.handle_key(key(KeyCode::Enter)));
    assert!(w.launch_file_picker);
    w.handle_key(key(KeyCode::Tab));
    w.handle_key(key(KeyCode::Tab));
    assert!(w.is_focused(SetupFocus::CustomRadio));
    w.handle_key(key(KeyCode::Enter));
    assert_eq!(w.installation_mode, InstallationMode::Custom);
    w.handle_key(key(KeyCode::Tab));
    assert!(w.is_focused(SetupFocus::CustomDest));
    w.handle_key(key(KeyCode::Enter));
    assert!(w.launch_dir_picker);
    w.handle_key(key(KeyCode::Tab));
    w.handle_key(key(KeyCode::Tab));
    w.handle_key(key(KeyCode::End));
    w.handle_key(key(KeyCode::Char('1')));
    assert_eq!(w.bind_port.value(), "42001");
    w.handle_key(key(KeyCode::Tab));
    w.handle_key(key(KeyCode::Tab));
    w.handle_key(key(KeyCode::Char(' ')));
    assert!(!w.api_enabled);
    w.handle_key(key(KeyCode::Tab));
    w.handle_key(key(KeyCode::Enter));
    assert!(w.ok_pressed);
    assert!(!w.quit_requested);
    w.handle_key(key(KeyCode::Esc));
    assert!(w.quit_requested);

    let r = w.to_request();
    assert_eq!(r.bind_port, "42001");
    assert_eq!(r.custom_destination, "/cwd");
    assert!(!r.api_enabled);
}

#[test]
fn setup_wizard_from_existing_config() {
    let w = MasterSetupWizard::from_config(false, "/opt/si", "127.0.0.1:9000", "0.0.0.0", true, "/cwd".to_string(), Some("/bin/sm".into()));
    assert_eq!(w.installation_mode, InstallationMode::Custom);
    assert_eq!(w.bind_addr.value(), "127.0.0.1");
    assert_eq!(w.bind_port.value(), "9000");
    assert_eq!(w.fs_port.value(), "4201");
    assert_eq!(w.custom_destination.value(), "/opt/si");
    assert_eq!(w.sysmaster_path.value(), "/bin/sm");
    let w = MasterSetupWizard::from_config(true, "/etc/sysinspect", "10.0.0.1", "0.0.0.0:5000", false, "/cwd".to_string(), None);
    assert_eq!(w.installation_mode, InstallationMode::SystemWide);
    assert_eq!(w.bind_port.value(), "4200");
    assert_eq!(w.fs_port.value(), "5000");
    assert_eq!(w.custom_destination.value(), "/cwd");
    assert!(!w.api_enabled);
}

fn request(mode: InstallationMode, dest: &str, bp: &str, fp: &str) -> SetupRequest {
    SetupRequest {
        installation_mode: mode,
        sysmaster_path: "/bin/sysmaster".to_string(),
        custom_destination: dest.to_string(),
        bind_addr: "0.0.0.0".to_string(),
        bind_port: bp.to_string(),
        fs_port: fp.to_string(),
        api_enabled: true,
    }
}

#[test]
fn setup_request_paths_and_messages() {
    let r = request(InstallationMode::Custom, "/opt/si", "4200", "4201");
    assert_eq!(r.root_dir(), "/opt/si");
    assert_eq!(r.installed_sysinspect_path(), "/opt/si/bin/sysinspect");
    assert_eq!(r.ui_command(), "/opt/si/bin/sysinspect --ui");
    let r = request(InstallationMode::Custom, "/opt/si/", "4200", "4201");
    assert_eq!(r.installed_sysinspect_path(), "/opt/si/bin/sysinspect");
    let r = request(InstallationMode::SystemWide, "/ignored", "4200", "4201");
    assert_eq!(r.root_dir(), "/etc/sysinspect");
    assert_eq!(r.ui_command(), "sysinspect --ui");
    assert_eq!(
        r.completion_message(),
        "Master installation files were written successfully. Now please quit\nthis UI.\n\nThen run the following command:\n\n    sysinspect --ui\n\nThat new instance will then ask whether to start master in daemon mode."
    );
    let r = request(InstallationMode::Custom, "/opt/si", "4200", "4201");
    assert_eq!(
        r.completion_message(),
        "Master installation files were written successfully. Now please quit\nthis UI and go  to the installation target at:\n\n    /opt/si\n\nThen run the following command:\n\n    /opt/si/bin/sysinspect --ui\n\nThat new instance will then ask whether to start master in daemon mode."
    );
    assert_eq!(SetupRequest::total_progress_steps(3), 4);
    assert_eq!(join_rel_exec("/a/", "b"), "/a/b");
    assert_eq!(join_rel_exec("/a", "b"), "/a/b");
    assert_eq!(join_rel_exec("", "b"), "b");
}

#[test]
fn setup_ports_errors() {
    let r = request(InstallationMode::SystemWide, "", "abc", "4201");
    assert_eq!(r.ports(), Err("Invalid bind port".to_string()));
    assert_eq!(r.config_text(), Err("Invalid bind port".to_string()));
    let r = request(InstallationMode::SystemWide, "", "abc", "x");
    assert_eq!(r.ports(), Err("Invalid bind port".to_string()));
    let r = request(InstallationMode::SystemWide, "", "4200", "x");
    assert_eq!(r.ports(), Err("Invalid fileserver port".to_string()));
    assert_eq!(r.config_text(), Err("Invalid fileserver port".to_string()));
    let r = request(InstallationMode::SystemWide, "", "4200", "4201");
    assert_eq!(r.ports(), Ok((4200, 4201)));
}

#[test]
fn setup_config_text() {
    let expected = "root: \"/r\"\nbind.ip: \"0.0.0.0\"\nbind.port: 4200\nfileserver.bind.ip: \"0.0.0.0\"\nfileserver.bind.port: 4201\nfileserver.models: []\napi.enabled: true\nlog.stream: \"/r/log/sysmaster.standard.log\"\nlog.errors: \"/r/log/sysmaster.errors.log\"\n";
    assert_eq!(config_yaml("/r", "0.0.0.0", 4200, 4201, true), expected);
    let r = request(InstallationMode::Custom, "/r", "4200", "4201");
    assert_eq!(r.config_text(), Ok(expected.to_string()));
    let off = config_yaml("/r", "1.2.3.4", 1, 2, false);
    assert!(off.contains("api.enabled: false\n"));
    assert!(off.contains("bind.port: 1\n"));
}

#[test]
fn setup_labels_and_joins() {
    assert_eq!(join_strings(&s(&["a", "b", "c"]), ", "), "a, b, c");
    assert_eq!(join_strings(&s(&[]), ", "), "");
    assert_eq!(arch_from_label("sysminion-x86_64-0.4.0"), Ok("x86_64".to_string()));
    assert_eq!(arch_from_label("sysminion-aarch64-linux-1.0"), Ok("aarch64-linux".to_string()));
    assert_eq!(arch_from_label("bad"), Err("Cannot resolve architecture from dist label bad".to_string()));
    assert_eq!(arch_from_label("a--b"), Err("Cannot resolve architecture from dist label a--b".to_string()));
    assert_eq!(copy_message(&s(&["f1", "f2"]), 1), "Copying f2...");
    assert_eq!(copy_message(&s(&["f1"]), 1), "Writing sysinspect.conf...");
}

#[test]
fn sorting_and_dedup() {
    assert_eq!(sort_dedup(&s(&["b", "a", "b", "B"])), s(&["B", "a", "b"]));
    assert_eq!(sort_dedup(&s(&[])), Vec::<String>::new());
    let v = vec![
        CtxVar { key: "b".into(), desc: "1".into(), required: false },
        CtxVar { key: "a".into(), desc: "2".into(), required: true },
        CtxVar { key: "b".into(), desc: "3".into(), required: true },
    ];
    let r = dedup_by_key_sorted(&v);
    let got: Vec<(String, String, bool)> = r.iter().map(|c| (c.key.clone(), c.desc.clone(), c.required)).collect();
    assert_eq!(got, vec![("a".to_string(), "2".to_string(), true), ("b".to_string(), "1".to_string(), false)]);
}

fn module(name: &str) -> ResolvedModule {
    ResolvedModule { name: name.into(), version: "1".into(), descr: "d".into(), selector: name.into() }
}

fn library(name: &str) -> ResolvedLibrary {
    ResolvedLibrary { name: name.into(), kind: "lua".into(), checksum: "c".into(), selector: name.into() }
}

#[test]
fn profiles_list_and_filter() {
    let mut m = ProfilesManager::new();
    m.profiles = s(&["alpha", "beta", "Alphabet"]);
    assert_eq!(m.filtered_count("alp"), 2);
    assert_eq!(m.filtered_count("ALP"), 2);
    assert_eq!(m.filtered_count(""), 3);
    let mut ff = false;
    assert!(m.handle_list_key(KeyCode::Down, &mut ff, ""));
    assert_eq!(m.cursor, 1);
    assert_eq!(m.selected_profile_name().map(|x| x.as_str()), Some("beta"));
    assert!(m.handle_list_key(KeyCode::PageDown, &mut ff, ""));
    assert_eq!(m.cursor, 2);
    assert!(m.handle_list_key(KeyCode::Down, &mut ff, "alp"));
    assert_eq!(m.cursor, 1);
    assert!(!ff);
    assert!(m.handle_list_key(KeyCode::Char('/'), &mut ff, ""));
    assert!(ff);
    assert!(!m.handle_list_key(KeyCode::Char('x'), &mut ff, ""));
    m.cursor = 7;
    assert!(m.selected_profile_name().is_none());
}

#[test]
fn profile_detail_focus_skips_empty_lists() {
    assert_eq!(ProfDetailFocus::Modules.next(true, true), ProfDetailFocus::Libraries);
    assert_eq!(ProfDetailFocus::Modules.next(true, false), ProfDetailFocus::AddModuleBtn);
    assert_eq!(ProfDetailFocus::CloseBtn.next(false, false), ProfDetailFocus::AddModuleBtn);
    assert_eq!(ProfDetailFocus::AddModuleBtn.prev(false, false), ProfDetailFocus::CloseBtn);
    assert_eq!(ProfDetailFocus::AddModuleBtn.prev(false, true), ProfDetailFocus::Libraries);
    let all = [
        ProfDetailFocus::Modules,
        ProfDetailFocus::Libraries,
        ProfDetailFocus::AddModuleBtn,
        ProfDetailFocus::AddLibraryBtn,
        ProfDetailFocus::CloseBtn,
    ];
    for hm in [false, true] {
        for hl in [false, true] {
            for f in all {
                if (f == ProfDetailFocus::Modules && !hm) || (f == ProfDetailFocus::Libraries && !hl) {
                    continue;
                }
                assert_eq!(f.next(hm, hl).prev(hm, hl), f);
                assert_eq!(f.prev(hm, hl).next(hm, hl), f);
            }
        }
    }
}

#[test]
fn profile_overlays() {
    let mut m = ProfilesManager::new();
    m.profiles = s(&["p"]);
    m.enter_detail("p".into(), vec![], vec![library("l1")]);
    assert!(m.detail_visible);
    assert_eq!(m.detail_focus, ProfDetailFocus::Libraries);
    m.enter_detail("p".into(), vec![], vec![]);
    assert_eq!(m.detail_focus, ProfDetailFocus::AddModuleBtn);
    let mods: Vec<ResolvedModule> = (0..15).map(|i| module(&format!("m{i}"))).collect();
    m.enter_detail("p".into(), mods, vec![]);
    assert_eq!(m.detail_focus, ProfDetailFocus::Modules);
    assert!(m.handle_detail_key(KeyCode::PageDown));
    assert_eq!(m.detail_moffset, 5);
    assert!(m.handle_detail_key(KeyCode::Up));
    assert_eq!(m.detail_moffset, 4);
    assert!(!m.handle_detail_key(KeyCode::Enter));
    assert!(m.handle_detail_key(KeyCode::Tab));
    assert_eq!(m.detail_focus, ProfDetailFocus::AddModuleBtn);
    assert!(m.handle_detail_key(KeyCode::Esc));
    assert!(!m.detail_visible);

    m.open_create();
    assert!(m.create_visible);
    assert!(m.handle_create_key(KeyCode::Char('n')));
    assert!(m.handle_create_key(KeyCode::Char('e')));
    assert_eq!(m.create_input.value(), "ne");
    assert!(m.handle_create_key(KeyCode::Tab));
    assert_eq!(m.create_focus, ProfCreateFocus::CreateBtn);
    assert!(m.handle_create_key(KeyCode::Char('x')));
    assert_eq!(m.create_input.value(), "ne");
    assert!(!m.handle_create_key(KeyCode::Enter));
    assert!(m.handle_create_key(KeyCode::BackTab));
    assert_eq!(m.create_focus, ProfCreateFocus::Input);
    assert!(m.handle_create_key(KeyCode::Esc));
    assert!(!m.create_visible);

    m.open_delete("p".into());
    assert_eq!(m.delete_focus, ProfDeleteFocus::YesBtn);
    assert!(m.handle_delete_key(KeyCode::Tab));
    assert_eq!(m.delete_focus, ProfDeleteFocus::NoBtn);
    assert!(!m.handle_delete_key(KeyCode::Enter));
    assert!(m.handle_delete_key(KeyCode::Esc));
    assert!(!m.delete_visible);
    assert_eq!(m.delete_name, "p");
}

fn platform(p: &str, a: &str, v: &str) -> PlatformRow {
    PlatformRow { platform: p.into(), arch: a.into(), version: v.into(), size: "1 MB".into(), checksum: "x".into() }
}

#[test]
fn platforms_list_filter_and_delete() {
    let mut m = PlatformsManager::new();
    m.rows = vec![platform("linux", "x86_64", "0.4.0"), platform("freebsd", "amd64", "0.4.1"), platform("linux", "aarch64", "0.3.9")];
    assert_eq!(m.filtered_count("linux"), 2);
    assert_eq!(m.filtered_count("AMD"), 1);
    assert_eq!(m.filtered_count("0.4"), 2);
    assert_eq!(m.filtered_count(""), 3);
    assert_eq!(m.selected_name(), Some("linux/x86_64".to_string()));
    assert!(m.handle_list_key(KeyCode::PageDown));
    assert_eq!(m.cursor, 2);
    assert_eq!(m.selected_name(), Some("linux/aarch64".to_string()));
    assert!(!m.handle_list_key(KeyCode::Enter));
    m.open_delete("linux/aarch64".into());
    assert!(m.delete_visible);
    assert!(m.handle_delete_key(KeyCode::BackTab));
    assert_eq!(m.delete_focus, DeleteFocus::NoBtn);
    assert!(m.handle_delete_key(KeyCode::Char('q')));
    assert!(m.delete_visible);
    assert!(m.handle_delete_key(KeyCode::Esc));
    assert!(!m.delete_visible);
}

#[test]
fn setup_truncates_by_characters() {
    assert_eq!(truncate_chars("abc", 3), "abc");
    assert_eq!(truncate_chars("abcdef", 4), "abc\u{2026}");
    assert_eq!(truncate_chars("abcdef", 1), "\u{2026}");
    assert_eq!(truncate_chars("abcdef", 0), "\u{2026}");
    assert_eq!(truncate_chars("\u{e9}\u{e9}\u{e9}", 2), "\u{e9}\u{2026}");
}

#[test]
fn setup_submit_needs_a_sysmaster_binary() {
    let mut w = MasterSetupWizard::new("/cwd".to_string(), None);
    assert!(w.take_submit().is_none());
    w.visible = true;
    w.ok_pressed = true;
    w.focus = SetupFocus::OkBtn;
    match w.take_submit() {
        Some(Err(m)) => assert_eq!(m, "Sys Master binary must be selected."),
        _ => panic!("expected an error"),
    }
    assert!(!w.ok_pressed);
    assert_eq!(w.focus, SetupFocus::SysMasterPath);
    assert!(w.visible);

    let mut w = MasterSetupWizard::new("/cwd".to_string(), Some("/usr/bin/sysmaster".to_string()));
    w.visible = true;
    w.ok_pressed = true;
    match w.take_submit() {
        Some(Ok(r)) => {
            assert_eq!(r.sysmaster_path, "/usr/bin/sysmaster");
            assert_eq!(r.bind_port, "4200");
        },
        _ => panic!("expected a request"),
    }
    assert!(!w.visible);
    assert!(!w.ok_pressed);
}

#[test]
fn input_copies_keep_text_and_cursor() {
    use_copy();
}

fn use_copy() {
    let mut src = ratatui_cheese::input::InputState::new();
    src.set_value("hello".to_string());
    for _ in 0..3 {
        src.move_right();
    }
    let c = sysinspect_ui::textinput::copy_input_state(&src, true);
    assert_eq!(c.value(), "hello");
    assert_eq!(c.cursor_pos(), 3);
    let e = sysinspect_ui::textinput::copy_input_state(&ratatui_cheese::input::InputState::new(), false);
    assert_eq!((e.value(), e.cursor_pos()), ("", 0));
}
