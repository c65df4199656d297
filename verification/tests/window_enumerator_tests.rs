use rustframe::platform::window_enumerator::macos::{ignored_bundle_ids, MacWindowSource};
use rustframe::platform::window_enumerator::{
    collect_process_windows, enumerate_windows, filter_cg_windows, group_windows_by_app, linux_impl, macos,
    windows_impl, CgWindowEntry, RunningApp,
    Win32WindowEntry, WindowEnumerator,
};
use rustframe::window_enumeration::get_available_windows;
use rustframe::platform_info::OsKind;

fn cg(id: i64, layer: Option<i64>, name: Option<&str>, pid: i64, sharing: Option<i64>) -> CgWindowEntry {
    CgWindowEntry {
        window_number: Some(id),
        layer,
        name: name.map(|s| s.to_string()),
        owner_pid: Some(pid),
        sharing_state: sharing,
    }
}

fn app(bundle: Option<&str>, name: Option<&str>, pid: i32) -> RunningApp {
    RunningApp { bundle_id: bundle.map(|s| s.to_string()), localized_name: name.map(|s| s.to_string()), pid }
}

#[test]
fn window_server_entries_are_filtered() {
    let entries = vec![
        cg(1, Some(0), Some("Doc"), 10, None),
        cg(0, Some(0), Some("zero id"), 10, None),
        cg(2, Some(25), Some("Menu"), 10, None),
        cg(3, None, Some(""), 10, None),
        cg(4, None, Some("No pid"), 0, None),
        cg(5, None, Some("Private"), 11, Some(0)),
        cg(6, None, None, 11, Some(1)),
        cg(1 << 32 | 7, None, Some("Wide id"), 11, Some(2)),
    ];
    let strict: Vec<u32> = filter_cg_windows(&entries, true).iter().map(|w| w.window_id).collect();
    assert_eq!(strict, vec![1, 7]);
    let lenient: Vec<u32> = filter_cg_windows(&entries, false).iter().map(|w| w.window_id).collect();
    assert_eq!(lenient, vec![1, 2, 5, 7]);
}

#[test]
fn windows_grouped_under_running_apps() {
    let ws = filter_cg_windows(
        &vec![
            cg(1, None, Some("A1"), 10, None),
            cg(2, None, Some("B1"), 20, None),
            cg(3, None, Some("A2"), 10, None),
            cg(4, None, Some("Dock"), 30, None),
        ],
        true,
    );
    let apps = vec![
        app(Some("com.b"), None, 20),
        app(None, Some("Nameless"), 10),
        app(Some("com.apple.dock"), Some("Dock"), 30),
        app(Some("com.a"), Some("App A"), 10),
        app(Some("com.a2"), Some("Same pid"), 10),
        app(Some("com.none"), Some("No windows"), 99),
    ];
    let out = group_windows_by_app(&ws, &apps, &ignored_bundle_ids());
    assert_eq!(out.len(), 2);
    assert_eq!((out[0].bundle_id.as_str(), out[0].app_name.as_str()), ("com.b", "com.b"));
    assert_eq!((out[1].bundle_id.as_str(), out[1].app_name.as_str()), ("com.a", "App A"));
    let titles: Vec<&str> = out[1].windows.iter().map(|w| w.title.as_str()).collect();
    assert_eq!(titles, vec!["A1", "A2"]);
}

#[test]
fn macos_enumerator_and_older_listing() {
    let source = MacWindowSource {
        windows: vec![cg(1, None, Some("Dock"), 30, None), cg(2, Some(3), Some("Float"), 31, None)],
        running_apps: Some(vec![app(Some("com.apple.dock"), None, 30), app(Some("com.x"), None, 31)]),
    };
    let apps = enumerate_windows::<macos::PlatformWindowEnumerator>(source).unwrap();
    assert!(apps.is_empty());
    assert!(macos::PlatformWindowEnumerator::supports_sharing_state());
    let older = get_available_windows(
        OsKind::MacOs,
        &vec![cg(1, None, Some("Dock"), 30, None), cg(2, Some(3), Some("Float"), 31, None)],
        Some(vec![app(Some("com.apple.dock"), None, 30), app(Some("com.x"), None, 31)]),
    )
    .unwrap();
    assert_eq!(older.len(), 2);
    assert_eq!(older[1].windows[0].title, "Float");
    assert!(get_available_windows(OsKind::Windows, &vec![], None).unwrap().is_empty());
    let none = MacWindowSource { windows: vec![cg(1, None, Some("x"), 1, None)], running_apps: None };
    assert!(macos::PlatformWindowEnumerator::enumerate_windows(none).unwrap().is_empty());
}

fn win(hwnd: isize, title: Option<&str>, pid: u32) -> Win32WindowEntry {
    Win32WindowEntry {
        hwnd,
        visible: true,
        ex_style: 0,
        cloaked: 0,
        text_length: title.map(|t| t.len() as i32).unwrap_or(0),
        title: title.map(|t| t.to_string()),
        pid,
    }
}

#[test]
fn top_level_windows_grouped_by_process() {
    let mut tool = win(5, Some("Tool"), 1);
    tool.ex_style = 0x80;
    let mut hidden = win(6, Some("Hidden"), 1);
    hidden.visible = false;
    let mut cloaked = win(7, Some("Cloaked"), 1);
    cloaked.cloaked = 2;
    let entries = vec![
        win(1, Some("Editor"), 42),
        win(2, Some("  \t"), 42),
        win(3, Some("Browser"), 7),
        tool,
        hidden,
        cloaked,
        win(8, Some("Editor 2"), 42),
        win(9, Some("No pid"), 0),
        win(10, None, 7),
    ];
    let groups = collect_process_windows(&entries);
    assert_eq!(groups.len(), 2);
    assert_eq!(groups[0].pid, 42);
    let ids: Vec<u32> = groups[0].windows.iter().map(|w| w.id).collect();
    assert_eq!(ids, vec![1, 8]);
    assert_eq!(groups[1].pid, 7);
    assert_eq!(groups[1].windows[0].title, "Browser");
}

#[test]
fn processes_named_by_executable_or_pid() {
    let source = windows_impl::Win32WindowSource {
        windows: vec![win(1, Some("Editor"), 42), win(2, Some("Thing"), 1234), win(3, Some("  "), 9), win(4, Some("Second"), 42)],
        identities: vec![(9, "empty".to_string()), (42, "code".to_string()), (42, "other".to_string())],
    };
    let apps = windows_impl::PlatformWindowEnumerator::enumerate_windows(source).unwrap();
    assert_eq!(apps.len(), 2);
    assert_eq!((apps[0].bundle_id.as_str(), apps[0].app_name.as_str()), ("code", "code"));
    assert_eq!(apps[0].windows.iter().map(|w| w.id).collect::<Vec<_>>(), vec![1, 4]);
    assert_eq!((apps[1].bundle_id.as_str(), apps[1].app_name.as_str()), ("pid:1234", "Process 1234"));
    assert_eq!(apps[1].windows[0].title, "Thing");
    assert!(!windows_impl::PlatformWindowEnumerator::supports_sharing_state());
    assert!(linux_impl::PlatformWindowEnumerator::enumerate_windows(()).unwrap().is_empty());
}

#[test]
fn every_listed_app_has_titled_windows() {
    let source = MacWindowSource {
        windows: vec![
            cg(1, Some(0), Some("Doc"), 10, None),
            cg(2, Some(0), Some(""), 10, None),
            cg(3, Some(0), None, 20, None),
            cg(4, Some(0), Some("Chat"), 30, Some(1)),
        ],
        running_apps: Some(vec![
            app(Some("com.example.editor"), Some("Editor"), 10),
            app(Some("com.example.silent"), None, 20),
            app(Some("com.example.chat"), None, 30),
        ]),
    };
    let apps = <macos::PlatformWindowEnumerator as WindowEnumerator>::enumerate_windows(source).unwrap();
    assert_eq!(apps.len(), 2);
    for a in &apps {
        assert!(!a.windows.is_empty());
        assert!(a.windows.iter().all(|w| !w.title.is_empty()));
    }
    let entries = vec![win(1, Some("Main"), 7), win(2, Some("   "), 8), win(3, None, 9), win(4, Some("Other"), 7)];
    let procs = collect_process_windows(&entries);
    assert_eq!(procs.len(), 1);
    assert_eq!(procs[0].windows.len(), 2);
    assert!(procs.iter().all(|p| !p.windows.is_empty() && p.windows.iter().all(|w| !w.title.trim().is_empty())));
}
