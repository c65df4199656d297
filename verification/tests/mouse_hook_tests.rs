use rustframe::mouse_hook::{button_for_message, ClickEvent, ClickLog, MouseButton, MAX_CLICKS};

#[test]
fn click_log_keeps_twenty_and_recent() {
    let mut log = ClickLog::new();
    for i in 0..25u64 {
        log.record_click(ClickEvent { x: i as i32, y: 0, timestamp_ms: i * 100, button: MouseButton::Left });
    }
    let all = log.clicks();
    assert_eq!(all.len(), MAX_CLICKS);
    assert_eq!(all[0].x, 5);
    let recent = log.get_recent_clicks(2400, 500);
    assert_eq!(recent.iter().map(|c| c.x).collect::<Vec<_>>(), vec![20, 21, 22, 23, 24]);
    assert_eq!(log.clicks().len(), 5);
    log.clear();
    assert!(log.clicks().is_empty());
}

#[test]
fn hook_messages() {
    assert_eq!(button_for_message(0x0201), Some(MouseButton::Left));
    assert_eq!(button_for_message(0x0204), Some(MouseButton::Right));
    assert_eq!(button_for_message(0x0207), Some(MouseButton::Middle));
    assert_eq!(button_for_message(0x0200), None);
}
