use sysinspect_ui::profileres::profile_selectors;
use sysinspect_ui::repomanager::{LibraryRow, ModuleRow, RepoManager, StagedModule};

fn row(name: &str, platform: &str) -> ModuleRow {
    ModuleRow {
        name: name.to_string(),
        version: Some("1.0".to_string()),
        descr: format!("{name} module"),
        platform: platform.to_string(),
        arch: "x86_64".to_string(),
        manpage: None,
        args: None,
        opts: None,
    }
}

fn staged(name: &str, version: Option<&str>) -> StagedModule {
    StagedModule {
        name: name.to_string(),
        version: version.map(|v| v.to_string()),
        descr: String::new(),
        path: format!("/tmp/{name}"),
        checked: true,
        platform: None,
        arch: None,
    }
}

/// Groups keep the order in which their names first come (Linux, then FreeBSD), their modules
/// sorted by name.
fn indexed() -> RepoManager {
    let mut m = RepoManager::new();
    m.set_module_index(
        vec![
            ("Linux x86_64".to_string(), row("sys.proc", "linux")),
            ("FreeBSD x86_64".to_string(), row("net.ping", "freebsd")),
            ("Linux x86_64".to_string(), row("fs.file", "linux")),
        ],
        vec![],
    );
    m.lib_rows = vec![
        LibraryRow { name: "lua/a.lua".into(), kind: "lua".into(), checksum: "c1".into() },
        LibraryRow { name: "py/b.py".into(), kind: "python".into(), checksum: "c2".into() },
    ];
    m
}

fn s(v: &[&str]) -> Vec<String> {
    v.iter().map(|x| x.to_string()).collect()
}

#[test]
fn selectors_follow_the_first_colon_space() {
    assert_eq!(profile_selectors(&s(&["module: sys.*", "bad line", "module: net.ping: x", "lib: "])), s(&["sys.*", "net.ping: x", ""]));
}

#[test]
fn profile_modules_resolve_by_glob() {
    let m = indexed();
    let r = m.resolve_profile_modules(&s(&["module: *"]));
    let got: Vec<(String, String, String, String)> =
        r.iter().map(|x| (x.name.clone(), x.version.clone(), x.descr.clone(), x.selector.clone())).collect();
    assert_eq!(
        got,
        vec![
            ("fs.file".to_string(), "1.0".to_string(), "fs.file module".to_string(), "*".to_string()),
            ("sys.proc".to_string(), "1.0".to_string(), "sys.proc module".to_string(), "*".to_string()),
            ("net.ping".to_string(), "1.0".to_string(), "net.ping module".to_string(), "*".to_string()),
        ]
    );
    let r = m.resolve_profile_modules(&s(&["module: sys.*", "module: [", "module: *.p*", "junk"]));
    let got: Vec<(String, String)> = r.iter().map(|x| (x.name.clone(), x.selector.clone())).collect();
    assert_eq!(
        got,
        vec![
            ("sys.proc".to_string(), "sys.*".to_string()),
            ("sys.proc".to_string(), "*.p*".to_string()),
            ("net.ping".to_string(), "*.p*".to_string()),
        ]
    );
    assert!(m.resolve_profile_modules(&s(&["module: nothing"])).is_empty());
}

#[test]
fn profile_libraries_resolve_by_glob() {
    let m = indexed();
    let r = m.resolve_profile_libraries(&s(&["library: lua/*", "library: *"]));
    let got: Vec<(String, String, String, String)> =
        r.iter().map(|x| (x.name.clone(), x.kind.clone(), x.checksum.clone(), x.selector.clone())).collect();
    assert_eq!(
        got,
        vec![
            ("lua/a.lua".to_string(), "lua".to_string(), "c1".to_string(), "lua/*".to_string()),
            ("lua/a.lua".to_string(), "lua".to_string(), "c1".to_string(), "*".to_string()),
            ("py/b.py".to_string(), "python".to_string(), "c2".to_string(), "*".to_string()),
        ]
    );
}

#[test]
fn staged_modules_already_indexed_are_dropped() {
    let m = indexed();
    let mut v = vec![staged("fs.file", Some("1.0")), staged("fs.file", Some("2.0")), staged("new.mod", None), staged("sys.proc", None)];
    m.dedup_staged_modules(&mut v);
    let got: Vec<(String, Option<String>)> = v.iter().map(|x| (x.name.clone(), x.version.clone())).collect();
    assert_eq!(
        got,
        vec![("fs.file".to_string(), Some("2.0".to_string())), ("new.mod".to_string(), None), ("sys.proc".to_string(), None)]
    );
}

#[test]
fn staging_scanned_modules() {
    let mut m = indexed();
    assert_eq!(m.stage_scanned_modules(vec![]), Err("No .spec files found in the selected directory".to_string()));
    assert!(!m.staging);
    assert_eq!(
        m.stage_scanned_modules(vec![staged("fs.file", Some("1.0")), staged("sys.proc", Some("1.0"))]),
        Err("No new modules found, 2 skipped".to_string())
    );
    assert!(!m.staging);
    assert_eq!(m.stage_scanned_modules(vec![staged("fs.file", Some("1.0")), staged("x.y", Some("0.1"))]), Ok(()));
    assert!(m.staging);
    assert_eq!(m.staged.len(), 1);
    assert_eq!(m.staged[0].name, "x.y");
    assert_eq!(m.staging_cursor, 0);
}
