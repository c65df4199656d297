//! Platform abstraction: what every platform back end provides, and the
//! platform-independent parts of their behaviour.
use vstd::prelude::*;
use crate::geometry::CaptureRect;
use crate::platform_info::OsKind;

pub mod input;
pub mod window;
pub mod linux;
pub mod macos;
pub mod window_enumerator;
pub mod windows;

verus! {

/// A captured frame of BGRA pixels.
#[derive(Debug)]
pub struct CaptureFrame {
    /// BGRA pixel data.
    pub data: Vec<u8>,
    pub width: u32,
    pub height: u32,
    /// Bytes per row, padding included.
    pub stride: u32,
}

/// A platform's screen capture engine.
pub trait PlatformCapture {
    /// Start capturing a region.
    fn start(&mut self, region: CaptureRect) -> Result<(), String>;

    /// Stop capturing.
    fn stop(&mut self);

    /// The latest captured frame, if a new one is ready.
    fn get_frame(&mut self) -> Option<CaptureFrame>;

    /// Whether the mouse cursor is drawn into the capture.
    fn set_cursor_visible(&mut self, visible: bool);

    /// Whether a new frame is ready.
    fn has_new_frame(&self) -> bool;
}

/// The work area of the primary monitor: on Windows the area the system
/// reports (`reported`); on macOS and Linux a fixed 1920x1080 screen.
pub fn get_primary_monitor_rect(os: OsKind, reported: CaptureRect) -> (r: CaptureRect)
    ensures
        os == OsKind::Windows ==> r == reported,
        os != OsKind::Windows ==> r == (CaptureRect { x: 0, y: 0, width: 1920, height: 1080 }),
{
    match os {
        OsKind::Windows => reported,
        OsKind::MacOs => macos::get_primary_monitor_rect(),
        OsKind::Linux => linux::get_primary_monitor_rect(),
    }
}

} // verus!
