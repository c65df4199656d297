//! The application's colour palette, as RGBA bytes (alpha premultiplied, as
//! the GUI toolkit stores colours).
use vstd::prelude::*;

verus! {

/// The colour palette.
pub struct RustFrameColors;

impl RustFrameColors {
    pub const BLUE: [u8; 4] = [0, 168, 255, 255];
    pub const BLUE_LIGHT: [u8; 4] = [0, 212, 255, 255];
    pub const ORANGE: [u8; 4] = [255, 154, 60, 255];
    pub const ORANGE_LIGHT: [u8; 4] = [255, 183, 102, 255];
    pub const BG_DARK: [u8; 4] = [24, 24, 24, 255];
    pub const BG_PANEL: [u8; 4] = [30, 30, 30, 240];
    pub const BG_TRANSPARENT: [u8; 4] = [0, 0, 0, 16];
    pub const TEXT_WHITE: [u8; 4] = [255, 255, 255, 255];
    pub const TEXT_GRAY: [u8; 4] = [176, 176, 176, 255];
    pub const TEXT_GREEN: [u8; 4] = [0, 221, 0, 255];
    pub const TEXT_RED: [u8; 4] = [255, 68, 68, 255];
    pub const TEXT_YELLOW: [u8; 4] = [255, 204, 0, 255];
    pub const PLAY_GREEN: [u8; 4] = [0, 255, 122, 255];
    pub const STOP_RED: [u8; 4] = [255, 80, 80, 255];
    pub const BORDER: [u8; 4] = [0, 168, 255, 255];
    pub const BORDER_ACTIVE: [u8; 4] = [255, 154, 60, 255];
}

/// The theme's colour choices that depend on the capture state.
pub struct RustFrameTheme;

impl RustFrameTheme {
    /// The border colour: orange while capturing, blue otherwise.
    pub fn border_color(is_capturing: bool) -> (r: [u8; 4])
        ensures
            r == (if is_capturing { RustFrameColors::BORDER_ACTIVE } else { RustFrameColors::BORDER }),
    {
        if is_capturing {
            RustFrameColors::BORDER_ACTIVE
        } else {
            RustFrameColors::BORDER
        }
    }

    /// The play/stop button's colour: red while capturing (stop), green
    /// otherwise (play).
    pub fn action_button_color(is_capturing: bool) -> (r: [u8; 4])
        ensures
            r == (if is_capturing { RustFrameColors::STOP_RED } else { RustFrameColors::PLAY_GREEN }),
    {
        if is_capturing {
            RustFrameColors::STOP_RED
        } else {
            RustFrameColors::PLAY_GREEN
        }
    }

    /// The colour of a status dot: green when enabled, red otherwise.
    pub fn status_color(enabled: bool) -> (r: [u8; 4])
        ensures
            r == (if enabled { RustFrameColors::TEXT_GREEN } else { RustFrameColors::TEXT_RED }),
    {
        if enabled {
            RustFrameColors::TEXT_GREEN
        } else {
            RustFrameColors::TEXT_RED
        }
    }
}

} // verus!
