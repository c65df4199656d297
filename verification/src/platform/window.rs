//! Showing and hiding native windows.
use vstd::prelude::*;

verus! {

/// `ShowWindow`'s command that shows a window.
pub const SW_SHOW: i32 = 5;

/// `ShowWindow`'s command that hides a window.
pub const SW_HIDE: i32 = 0;

/// The `ShowWindow` command that shows (`visible`) or hides a window; the
/// application sends it on Windows, where native windows are shown this way.
pub fn set_window_visible(visible: bool) -> (r: i32)
    ensures
        r == (if visible { SW_SHOW } else { SW_HIDE }),
{
    if visible {
        SW_SHOW
    } else {
        SW_HIDE
    }
}

} // verus!
