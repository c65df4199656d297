use rustframe::geometry::CaptureRect;
use rustframe::session::{capture_region, command_action, AppMode, CaptureCommand, SessionAction, SessionState};
use rustframe::utils::wide_string;

#[test]
fn commands_by_mode() {
    assert_eq!(command_action(AppMode::Setup, CaptureCommand::Start), Some(SessionAction::BeginCapture));
    assert_eq!(command_action(AppMode::Setup, CaptureCommand::Toggle), Some(SessionAction::BeginCapture));
    assert_eq!(command_action(AppMode::Setup, CaptureCommand::Stop), None);
    assert_eq!(command_action(AppMode::Capturing, CaptureCommand::Toggle), Some(SessionAction::EndCapture));
    assert_eq!(command_action(AppMode::Capturing, CaptureCommand::Start), None);
}

#[test]
fn session_status_lines() {
    let mut s = SessionState::new();
    s.border_failed();
    assert_eq!(s.status_message, "Error: Could not create capture border");
    s.capture_failed("no device");
    assert_eq!(s.status_message, "Error: no device");
    assert_eq!(s.mode, AppMode::Setup);
    s.capture_started();
    assert_eq!((s.mode, s.frame_count, s.status_message.as_str()), (AppMode::Capturing, 0, "Capturing..."));
    s.frame_received();
    s.frame_received();
    assert_eq!(s.frame_count, 2);
    s.rate_measured(58);
    assert_eq!((s.current_fps, s.frame_count), (58, 0));
    s.capture_stopped();
    assert_eq!((s.mode, s.current_fps, s.status_message.as_str()), (AppMode::Setup, 0, "Capture stopped"));
    s.engine_unavailable();
    assert_eq!(s.status_message, "Capture engine not available");
    s.settings_applied(Ok(()));
    assert_eq!(s.status_message, "Settings saved");
    s.settings_applied(Err("disk full".to_string()));
    assert_eq!(s.status_message, "Settings applied but failed to save: disk full");
}

#[test]
fn capture_region_inside_border() {
    assert_eq!(capture_region(100, 50, 800, 600, 4), CaptureRect { x: 104, y: 54, width: 792, height: 592 });
    assert_eq!(capture_region(0, 0, 5, 5, 4), CaptureRect { x: 4, y: 4, width: 0, height: 0 });
}

#[test]
fn wide_strings_end_with_zero() {
    for t in ["", "RustFrame", "Segoe UI", "é😀x"] {
        let mut expected: Vec<u16> = t.encode_utf16().collect();
        expected.push(0);
        assert_eq!(wide_string(t), expected, "{t:?}");
    }
}
