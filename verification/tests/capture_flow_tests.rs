use rustframe::geometry::ResizeCorner;
use rustframe::mouse_hook::{ClickEvent, MouseButton, MouseCapture};
use rustframe::session::{AppMode, SessionState};
use rustframe::ui::border_frame::{frame_events, DragRequest, FrameEvent, FramePart};

fn click(x: i32, t: u64) -> ClickEvent {
    ClickEvent { x, y: 0, timestamp_ms: t, button: MouseButton::Left }
}

#[test]
fn new_session_is_ready_to_capture() {
    let s = SessionState::new();
    assert_eq!(s.status_message, "Ready to capture");
    assert_eq!(s.mode, AppMode::Setup);
}

#[test]
fn stopping_forgets_recorded_clicks() {
    let mut hook = MouseCapture::new();
    hook.hook_click(click(1, 10));
    assert!(hook.get_recent_clicks(20, 1000).is_empty());
    assert!(!hook.start_capture(false));
    assert!(hook.start_capture(true));
    assert!(hook.start_capture(false));
    hook.hook_click(click(2, 100));
    hook.hook_click(click(3, 200));
    assert_eq!(hook.get_recent_clicks(1150, 1000).iter().map(|c| c.x).collect::<Vec<_>>(), vec![3]);
    let mut s = SessionState::new();
    s.capture_started();
    s.stop_capture(&mut hook);
    assert_eq!((s.mode, s.current_fps, s.status_message.as_str()), (AppMode::Setup, 0, "Capture stopped"));
    assert!(!hook.is_capture_active());
    assert!(hook.get_recent_clicks(1050, 1000).is_empty());
    hook.hook_click(click(4, 1060));
    assert!(hook.get_recent_clicks(1070, 1000).is_empty());
}

#[test]
fn frame_interaction_events() {
    let tl = Some(FramePart::TopLeft);
    assert_eq!(frame_events(None, true, true, true, true), vec![]);
    assert_eq!(frame_events(tl, true, true, true, false), vec![]);
    assert_eq!(
        frame_events(tl, true, true, false, true),
        vec![FrameEvent::Drag(DragRequest::Resize(ResizeCorner::TopLeft))]
    );
    assert_eq!(
        frame_events(Some(FramePart::TopEdge), true, true, true, true),
        vec![FrameEvent::Drag(DragRequest::Move), FrameEvent::DragEnded]
    );
    assert_eq!(frame_events(tl, true, false, true, true), vec![FrameEvent::DragEnded]);
    assert_eq!(frame_events(tl, false, true, false, true), vec![]);
    assert_eq!(frame_events(Some(FramePart::Inside), true, true, true, true), vec![FrameEvent::DragEnded]);
}
