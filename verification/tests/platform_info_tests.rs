use rustframe::platform_info::{
    get_all_platforms_capture_methods, get_available_capture_methods, get_os_name, get_os_type,
    get_os_version, get_platform_capabilities, pretty_name_from_os_release, OsKind, PlatformInfo,
};

#[test]
fn os_names_and_types() {
    assert_eq!(get_os_name(OsKind::Windows), "Windows");
    assert_eq!(get_os_name(OsKind::MacOs), "macOS");
    assert_eq!(get_os_name(OsKind::Linux), "Linux");
    assert_eq!(get_os_type(OsKind::MacOs), "macos");
}

#[test]
fn pretty_name_is_read_from_os_release() {
    let text = "NAME=\"Ubuntu\"\nVERSION_ID=\"24.04\"\nPRETTY_NAME=\"Ubuntu 24.04 LTS\"\nID=ubuntu\n";
    assert_eq!(pretty_name_from_os_release(text), Some("Ubuntu 24.04 LTS".to_string()));
}

#[test]
fn pretty_name_edge_cases() {
    assert_eq!(pretty_name_from_os_release(""), None);
    assert_eq!(pretty_name_from_os_release("NAME=Fedora\n"), None);
    assert_eq!(pretty_name_from_os_release("PRETTY_NAME=Arch Linux\r\nX=1"), Some("Arch Linux".to_string()));
    assert_eq!(pretty_name_from_os_release("PRETTY_NAME=PRETTY_NAME=\"\"x\"\""), Some("x".to_string()));
    assert_eq!(pretty_name_from_os_release("  PRETTY_NAME=a\nPRETTY_NAME=b"), Some("b".to_string()));
    assert_eq!(pretty_name_from_os_release("PRETTY_NAME=\"\"\"\""), Some(String::new()));
}

fn std_pretty_name(contents: &str) -> Option<String> {
    for line in contents.lines() {
        if line.starts_with("PRETTY_NAME=") {
            return Some(line.trim_start_matches("PRETTY_NAME=").trim_matches('"').to_string());
        }
    }
    None
}

#[test]
fn pretty_name_agrees_with_std_lines() {
    for t in [
        "PRETTY_NAME=a\r",
        "PRETTY_NAME=a\r\n",
        "\r\nPRETTY_NAME=\"b\"\r\n",
        "\n\nPRETTY_NAME=c\n",
        "PRETTY_NAME",
        "PRETTY_NAME=",
        "x\rPRETTY_NAME=y",
        "PRETTY_NAME=\"q\"\"\r",
    ] {
        assert_eq!(pretty_name_from_os_release(t), std_pretty_name(t), "{t:?}");
    }
}

#[test]
fn os_version_per_platform() {
    assert_eq!(get_os_version(OsKind::Windows, None), "Windows");
    assert_eq!(get_os_version(OsKind::MacOs, Some("PRETTY_NAME=x")), "Unknown");
    assert_eq!(get_os_version(OsKind::Linux, None), "Unknown");
    assert_eq!(get_os_version(OsKind::Linux, Some("ID=x")), "Unknown");
    assert_eq!(get_os_version(OsKind::Linux, Some("PRETTY_NAME=\"Debian\"")), "Debian");
}

#[test]
fn capture_methods_per_platform() {
    let win = get_available_capture_methods(OsKind::Windows);
    assert_eq!(win.len(), 2);
    assert_eq!(win[0].id, "Wgc");
    assert!(win[0].recommended && win[0].hardware_accelerated);
    assert_eq!(win[1].id, "GdiCopy");
    assert_eq!(win[1].name, "GDI BitBlt");
    assert!(!win[1].recommended);
    let mac = get_available_capture_methods(OsKind::MacOs);
    assert_eq!(mac.len(), 1);
    assert_eq!(mac[0].name, "ScreenCaptureKit");
    let linux = get_available_capture_methods(OsKind::Linux);
    assert_eq!(linux[0].name, "PipeWire / X11");
    assert!(!linux[0].hardware_accelerated);
}

#[test]
fn all_platform_methods_listed_in_order() {
    let all = get_all_platforms_capture_methods();
    let names: Vec<(&str, &str)> = all.iter().map(|m| (m.platform_type.as_str(), m.id.as_str())).collect();
    assert_eq!(
        names,
        vec![("windows", "Wgc"), ("windows", "GdiCopy"), ("macos", "CoreGraphics"), ("linux", "CoreGraphics")]
    );
    assert_eq!(all[2].platform_name, "macOS");
}

#[test]
fn capabilities_and_detect() {
    let w = get_platform_capabilities(OsKind::Windows);
    assert!(w.has_winapi_options && w.supports_hardware_acceleration);
    let l = get_platform_capabilities(OsKind::Linux);
    assert!(!l.has_winapi_options && !l.supports_hardware_acceleration && l.supports_transparency);
    let m = get_platform_capabilities(OsKind::MacOs);
    assert!(!m.has_winapi_options && m.supports_hardware_acceleration);
    let info = PlatformInfo::detect(OsKind::Linux, Some("PRETTY_NAME=\"Mint 22\""));
    assert_eq!(info.os_name, "Linux");
    assert_eq!(info.os_type, "linux");
    assert_eq!(info.os_version, "Mint 22");
    assert_eq!(info.available_capture_methods.len(), 1);
    assert_eq!(info.all_platforms_capture_methods.len(), 4);
}
