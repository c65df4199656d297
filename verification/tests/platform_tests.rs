use rustframe::geometry::CaptureRect;
use rustframe::hit_test::CursorShape;
use rustframe::platform::get_primary_monitor_rect;
use rustframe::platform::input::{ClickCaptureState, ClickEvent, ClickStore, MouseButton};
use rustframe::platform::window::{set_window_visible, SW_HIDE, SW_SHOW};
use rustframe::platform::windows::{
    click_through_style, get_monitor_refresh_rate, layered_style, set_cursor_for_direction,
    update_border_window_region, MouseHookState, ResizeDirection, WS_EX_LAYERED, WS_EX_TRANSPARENT,
};
use rustframe::platform_info::OsKind;

fn click(x: i32, y: i32, t: u64) -> ClickEvent {
    ClickEvent { x, y, timestamp_ms: t, button: MouseButton::Left }
}

#[test]
fn hook_keeps_last_hundred_clicks() {
    let mut store = ClickStore::new();
    for i in 0..150 {
        store.record_hook_click(click(i, 0, i as u64));
    }
    let all = store.get_recent_clicks(i32::MIN / 2, -10, u32::MAX / 2, 20, u64::MAX, 1000);
    assert_eq!(all.len(), 100);
    assert_eq!(all[0].x, 50);
    assert_eq!(all[99].x, 149);
}

#[test]
fn recent_clicks_filter_region_and_age() {
    let mut store = ClickStore::new();
    store.record_hook_click(click(10, 10, 1000));
    store.record_hook_click(click(200, 10, 1900));
    store.record_hook_click(click(15, 15, 1950));
    store.record_hook_click(click(100, 10, 1990));
    let r = store.get_recent_clicks(0, 0, 100, 100, 500, 2000);
    assert_eq!(r.iter().map(|c| c.x).collect::<Vec<_>>(), vec![15]);
    let r = store.get_recent_clicks(0, 0, 101, 100, 1000, 2000);
    assert_eq!(r.iter().map(|c| c.x).collect::<Vec<_>>(), vec![10, 15, 100]);
    store.clear_clicks();
    assert!(store.get_recent_clicks(0, 0, 1000, 1000, 1000, 2000).is_empty());
}

#[test]
fn tap_prunes_every_hundredth_click() {
    let mut store = ClickStore::new();
    store.log_click(1, 1, MouseButton::Right, 100);
    store.log_click(2, 2, MouseButton::Middle, 6000);
    // The second click is not a pruning one, so the old click stays.
    assert_eq!(store.get_recent_clicks(0, 0, 10, 10, u64::MAX, 6000).len(), 2);
    for k in 2..100 {
        store.log_click(3, 3, MouseButton::Left, 6000 + k);
    }
    // The hundred-and-first click prunes what is older than five seconds.
    store.log_click(4, 4, MouseButton::Left, 10_000);
    let kept = store.get_recent_clicks(0, 0, 10, 10, u64::MAX, 10_000);
    assert_eq!(kept.len(), 100);
    assert!(kept.iter().all(|c| c.timestamp_ms >= 5000));
    assert_eq!(kept.last().unwrap().x, 4);
}

#[test]
fn click_capture_start_and_stop() {
    let mut s = ClickCaptureState::new();
    assert_eq!(s.stop_click_capture(), None);
    assert!(s.start_click_capture());
    assert!(!s.start_click_capture());
    s.set_thread(77);
    assert_eq!(s.stop_click_capture(), Some(77));
    assert!(!s.installed);
    assert_eq!(s.thread_id, 0);
    assert!(s.start_click_capture());
    assert_eq!(s.stop_click_capture(), None);
    s.start_click_capture();
    s.thread_exited();
    assert!(!s.installed);
}

#[test]
fn show_window_commands() {
    assert_eq!(set_window_visible(true), SW_SHOW);
    assert_eq!(set_window_visible(false), SW_HIDE);
    assert_eq!((SW_SHOW, SW_HIDE), (5, 0));
}

#[test]
fn mouse_hook_records_presses_for_two_seconds() {
    let mut hook = MouseHookState::new();
    hook.hook_event(0, 0x0201, 1, 1, 100);
    assert!(hook.get_mouse_clicks().is_empty());
    assert!(hook.install_mouse_hook(true));
    assert!(hook.is_mouse_hook_active());
    assert!(hook.install_mouse_hook(false));
    hook.hook_event(0, 0x0201, 1, 1, 1000);
    hook.hook_event(0, 0x0204, 2, 2, 2500);
    hook.hook_event(0, 0x0207, 3, 3, 2600);
    hook.hook_event(-1, 0x0201, 4, 4, 2700);
    let clicks = hook.get_mouse_clicks();
    assert_eq!(clicks.len(), 2);
    assert!(clicks[0].is_left && !clicks[1].is_left);
    assert!(hook.get_mouse_clicks().is_empty());
    hook.hook_event(0, 0x0201, 5, 5, 3000);
    let clicks = hook.get_mouse_clicks();
    assert_eq!(clicks.iter().map(|c| c.x).collect::<Vec<_>>(), vec![5]);
    assert!(hook.get_mouse_clicks().is_empty());
    assert!(hook.is_mouse_hook_active());
    assert!(hook.uninstall_mouse_hook());
    assert!(!hook.is_mouse_hook_active());
    assert!(hook.get_mouse_clicks().is_empty());
    assert!(!hook.uninstall_mouse_hook());
    let mut failed = MouseHookState::new();
    assert!(!failed.install_mouse_hook(false));
    assert!(!failed.is_mouse_hook_active());
}

#[test]
fn cursors_for_directions() {
    assert_eq!(set_cursor_for_direction(ResizeDirection::TopLeft), CursorShape::SizeNwse);
    assert_eq!(set_cursor_for_direction(ResizeDirection::BottomLeft), CursorShape::SizeNesw);
    assert_eq!(set_cursor_for_direction(ResizeDirection::Bottom), CursorShape::SizeNs);
    assert_eq!(set_cursor_for_direction(ResizeDirection::Right), CursorShape::SizeWe);
    assert_eq!(set_cursor_for_direction(ResizeDirection::Move), CursorShape::SizeAll);
    assert_eq!(set_cursor_for_direction(ResizeDirection::Idle), CursorShape::Arrow);
}

#[test]
fn refresh_rate_fallbacks() {
    assert_eq!(get_monitor_refresh_rate(Some(144)), 144);
    assert_eq!(get_monitor_refresh_rate(Some(500)), 500);
    assert_eq!(get_monitor_refresh_rate(Some(501)), 60);
    assert_eq!(get_monitor_refresh_rate(Some(0)), 60);
    assert_eq!(get_monitor_refresh_rate(None), 60);
}

#[test]
fn primary_monitor_rects() {
    let work = CaptureRect { x: 0, y: 0, width: 2560, height: 1400 };
    assert_eq!(get_primary_monitor_rect(OsKind::Windows, work), work);
    assert_eq!(
        get_primary_monitor_rect(OsKind::Linux, work),
        CaptureRect { x: 0, y: 0, width: 1920, height: 1080 }
    );
    assert_eq!(
        rustframe::platform::windows::get_primary_monitor_rect(Some((-1920, 0, 0, 1040)), 5, 6),
        CaptureRect { x: -1920, y: 0, width: 1920, height: 1040 }
    );
    assert_eq!(
        rustframe::platform::windows::get_primary_monitor_rect(None, 1366, 768),
        CaptureRect { x: 0, y: 0, width: 1366, height: 768 }
    );
    assert_eq!(rustframe::platform::macos::get_primary_monitor_rect().width, 1920);
}

#[test]
fn border_region_and_styles() {
    assert_eq!(update_border_window_region(300, 200, 4), ((0, 0, 300, 200), (4, 4, 296, 196)));
    let s = click_through_style(0x100, true);
    assert_eq!(s, 0x100 | WS_EX_LAYERED | WS_EX_TRANSPARENT);
    let s = click_through_style(0x100 | WS_EX_TRANSPARENT, false);
    assert_eq!(s, 0x100 | WS_EX_LAYERED);
    assert_eq!(layered_style(0), Some(WS_EX_LAYERED));
    assert_eq!(layered_style(WS_EX_LAYERED | 1), None);
}
