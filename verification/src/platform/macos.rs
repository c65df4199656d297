//! macOS back end.
use vstd::prelude::*;
use crate::geometry::CaptureRect;

verus! {

/// The primary monitor's work area; macOS reports no real size yet, so a
/// 1920x1080 screen at the origin is assumed.
pub fn get_primary_monitor_rect() -> (r: CaptureRect)
    ensures
        r == (CaptureRect { x: 0, y: 0, width: 1920, height: 1080 }),
{
    CaptureRect { x: 0, y: 0, width: 1920, height: 1080 }
}

} // verus!
