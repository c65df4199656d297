//! The capture session of the main window: whether it is being set up or
//! capturing, what a start, stop or toggle request does, and the status
//! line shown to the user.
//!
//! The application performs each step (creating the border window,
//! starting the capture engine) and reports its outcome here.
use vstd::prelude::*;
use crate::geometry::{capture_rect_inner, sat_sub, CaptureRect};
use crate::mouse_hook::{ClickEvent, MouseCapture};

verus! {

/// Whether the region is being set up or captured.
#[derive(Debug, Clone, Copy, PartialEq, Eq, Structural)]
pub enum AppMode {
    Setup,
    Capturing,
}

/// A request from the user (button, tray menu or shortcut).
#[derive(Debug, Clone, Copy, PartialEq, Eq, Structural)]
pub enum CaptureCommand {
    Start,
    Stop,
    Toggle,
}

/// What a request asks the application to do.
#[derive(Debug, Clone, Copy, PartialEq, Eq, Structural)]
pub enum SessionAction {
    /// Create the border window and start the capture engine.
    BeginCapture,
    /// Stop the engine and close the capture windows.
    EndCapture,
}

/// What a request does in a mode: starting (or toggling) while setting up
/// begins a capture, stopping (or toggling) while capturing ends it; other
/// requests do nothing.
pub open spec fn command_spec(mode: AppMode, cmd: CaptureCommand) -> Option<SessionAction> {
    match (mode, cmd) {
        (AppMode::Setup, CaptureCommand::Start) | (AppMode::Setup, CaptureCommand::Toggle) => Some(
            SessionAction::BeginCapture,
        ),
        (AppMode::Capturing, CaptureCommand::Stop) | (AppMode::Capturing, CaptureCommand::Toggle) => Some(
            SessionAction::EndCapture,
        ),
        _ => None,
    }
}

/// What a request does in a mode.
pub fn command_action(mode: AppMode, cmd: CaptureCommand) -> (r: Option<SessionAction>)
    ensures
        r == command_spec(mode, cmd),
{
    match (mode, cmd) {
        (AppMode::Setup, CaptureCommand::Start) | (AppMode::Setup, CaptureCommand::Toggle) => Some(
            SessionAction::BeginCapture,
        ),
        (AppMode::Capturing, CaptureCommand::Stop) | (AppMode::Capturing, CaptureCommand::Toggle) => Some(
            SessionAction::EndCapture,
        ),
        _ => None,
    }
}

/// The region captured for a main window at (`x`, `y`) of the given size:
/// the inside of its border.
pub fn capture_region(x: i32, y: i32, width: u32, height: u32, border_width: u32) -> (r: CaptureRect)
    requires
        2 * border_width <= u32::MAX,
        i32::MIN <= x + border_width <= i32::MAX,
        i32::MIN <= y + border_width <= i32::MAX,
    ensures
        r.x == x + border_width,
        r.y == y + border_width,
        r.width == sat_sub(width as int, 2 * border_width),
        r.height == sat_sub(height as int, 2 * border_width),
{
    capture_rect_inner(x, y, width, height, border_width)
}

/// The session: its mode, frames counted since the last rate update, the
/// last measured frame rate, and the status line.
pub struct SessionState {
    pub mode: AppMode,
    pub frame_count: u64,
    pub current_fps: u32,
    pub status_message: String,
}

impl SessionState {
    /// Setting up, nothing counted, "Ready to capture" on the status line.
    pub fn new() -> (r: Self)
        ensures
            r.mode == AppMode::Setup,
            r.frame_count == 0,
            r.current_fps == 0,
            r.status_message@ == "Ready to capture"@,
    {
        SessionState {
            mode: AppMode::Setup,
            frame_count: 0,
            current_fps: 0,
            status_message: "Ready to capture".to_owned(),
        }
    }

    /// The border window could not be created.
    pub fn border_failed(&mut self)
        ensures
            final(self).mode == old(self).mode,
            final(self).status_message@ == "Error: Could not create capture border"@,
            final(self).frame_count == old(self).frame_count,
            final(self).current_fps == old(self).current_fps,
    {
        self.status_message = "Error: Could not create capture border".to_owned();
    }

    /// The capture engine started.
    pub fn capture_started(&mut self)
        ensures
            final(self).mode == AppMode::Capturing,
            final(self).frame_count == 0,
            final(self).current_fps == old(self).current_fps,
            final(self).status_message@ == "Capturing..."@,
    {
        self.mode = AppMode::Capturing;
        self.frame_count = 0;
        self.status_message = "Capturing...".to_owned();
    }

    /// The capture engine refused to start, with this error.
    pub fn capture_failed(&mut self, error: &str)
        ensures
            final(self).mode == old(self).mode,
            final(self).status_message@ == "Error: "@ + error@,
            final(self).frame_count == old(self).frame_count,
            final(self).current_fps == old(self).current_fps,
    {
        let mut m = "Error: ".to_owned();
        m.append(error);
        self.status_message = m;
    }

    /// There is no capture engine.
    pub fn engine_unavailable(&mut self)
        ensures
            final(self).mode == old(self).mode,
            final(self).status_message@ == "Capture engine not available"@,
            final(self).frame_count == old(self).frame_count,
            final(self).current_fps == old(self).current_fps,
    {
        self.status_message = "Capture engine not available".to_owned();
    }

    /// The capture was stopped.
    pub fn capture_stopped(&mut self)
        ensures
            final(self).mode == AppMode::Setup,
            final(self).current_fps == 0,
            final(self).frame_count == old(self).frame_count,
            final(self).status_message@ == "Capture stopped"@,
    {
        self.mode = AppMode::Setup;
        self.current_fps = 0;
        self.status_message = "Capture stopped".to_owned();
    }

    /// Stop capturing: the click hook is removed and every click it
    /// recorded is forgotten, and the session is back to setting up with
    /// "Capture stopped" on the status line.
    pub fn stop_capture(&mut self, hook: &mut MouseCapture)
        requires
            old(hook).wf(),
        ensures
            final(self).mode == AppMode::Setup,
            final(self).current_fps == 0,
            final(self).frame_count == old(self).frame_count,
            final(self).status_message@ == "Capture stopped"@,
            !final(hook).is_active(),
            final(hook)@ == Seq::<ClickEvent>::empty(),
            final(hook).wf(),
    {
        hook.stop_capture();
        self.capture_stopped();
    }

    /// A captured frame arrived.
    pub fn frame_received(&mut self)
        requires
            old(self).frame_count < u64::MAX,
        ensures
            final(self).frame_count == old(self).frame_count + 1,
            final(self).mode == old(self).mode,
            final(self).current_fps == old(self).current_fps,
            final(self).status_message@ == old(self).status_message@,
    {
        self.frame_count = self.frame_count + 1;
    }

    /// A new frame rate was measured over the frames counted; counting
    /// starts again.
    pub fn rate_measured(&mut self, fps: u32)
        ensures
            final(self).current_fps == fps,
            final(self).frame_count == 0,
            final(self).mode == old(self).mode,
            final(self).status_message@ == old(self).status_message@,
    {
        self.current_fps = fps;
        self.frame_count = 0;
    }

    /// The settings were applied; `saved` tells whether writing them
    /// succeeded.
    pub fn settings_applied(&mut self, saved: Result<(), String>)
        ensures
            final(self).mode == old(self).mode,
            final(self).frame_count == old(self).frame_count,
            final(self).current_fps == old(self).current_fps,
            match saved {
                Ok(()) => final(self).status_message@ == "Settings saved"@,
                Err(e) => final(self).status_message@ == "Settings applied but failed to save: "@ + e@,
            },
    {
        match saved {
            Ok(()) => {
                self.status_message = "Settings saved".to_owned();
            },
            Err(e) => {
                let mut m = "Settings applied but failed to save: ".to_owned();
                m.append(e.as_str());
                self.status_message = m;
            },
        }
    }
}

/// The mode after a request, where every capture that is begun starts.
pub open spec fn mode_after(mode: AppMode, cmd: CaptureCommand) -> AppMode {
    match command_spec(mode, cmd) {
        Some(SessionAction::BeginCapture) => AppMode::Capturing,
        Some(SessionAction::EndCapture) => AppMode::Setup,
        None => mode,
    }
}

/// Toggling always switches between setting up and capturing, so toggling
/// twice comes back; a start while capturing and a stop while setting up
/// change nothing.
pub proof fn lemma_toggle_alternates(mode: AppMode)
    ensures
        mode_after(mode, CaptureCommand::Toggle) != mode,
        mode_after(mode_after(mode, CaptureCommand::Toggle), CaptureCommand::Toggle) == mode,
        mode_after(AppMode::Capturing, CaptureCommand::Start) == AppMode::Capturing,
        mode_after(AppMode::Setup, CaptureCommand::Stop) == AppMode::Setup,
        mode_after(mode, CaptureCommand::Start) == AppMode::Capturing,
        mode_after(mode, CaptureCommand::Stop) == AppMode::Setup,
{
}

} // verus!
