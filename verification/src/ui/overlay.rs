//! The selection overlay's decisions: what it draws in which state, and
//! what the user asked for.
use vstd::prelude::*;
use crate::ui::theme::{RustFrameColors, RustFrameTheme};

verus! {

/// The selection overlay (it keeps no state of its own).
pub struct OverlayUi;

impl OverlayUi {
    pub fn new() -> (r: Self) {
        OverlayUi
    }
}

impl Default for OverlayUi {
    fn default() -> (r: Self) {
        OverlayUi::new()
    }
}

/// What the user asked for in the overlay during a frame.
pub struct OverlayResponse {
    /// Start capturing.
    pub start_capture: bool,
    /// Cancel or exit.
    pub cancel: bool,
    /// Open the settings dialog.
    pub open_settings: bool,
}

impl Default for OverlayResponse {
    fn default() -> (r: Self)
        ensures
            !r.start_capture,
            !r.cancel,
            !r.open_settings,
    {
        OverlayResponse { start_capture: false, cancel: false, open_settings: false }
    }
}

/// The overlay's response to a frame: the play button starts capturing and
/// the settings button opens the dialog; while capturing only the hollow
/// frame is drawn, so nothing can be asked.
pub fn overlay_response(is_capturing: bool, play_clicked: bool, settings_clicked: bool) -> (r: OverlayResponse)
    ensures
        r.start_capture == (!is_capturing && play_clicked),
        r.open_settings == (!is_capturing && settings_clicked),
        !r.cancel,
{
    let mut response = OverlayResponse::default();
    if is_capturing {
        return response;
    }
    if play_clicked {
        response.start_capture = true;
    }
    if settings_clicked {
        response.open_settings = true;
    }
    response
}

/// A status pill at the top-left of the overlay.
pub struct StatusPill {
    pub icon: &'static str,
    pub label: &'static str,
    pub enabled: bool,
}

/// Abstract value of a status pill: (icon, label, enabled).
pub open spec fn pill_view(p: StatusPill) -> (Seq<char>, Seq<char>, bool) {
    (p.icon@, p.label@, p.enabled)
}

/// The status pills shown: the cursor and the border with their states,
/// and the click highlight when it is on.
pub open spec fn status_pills_spec(show_cursor: bool, show_border: bool, highlight_clicks: bool) -> Seq<(Seq<char>, Seq<char>, bool)> {
    let base = seq![("👆"@, "Cursor"@, show_cursor), ("🔲"@, "Border"@, show_border)];
    if highlight_clicks {
        base.push(("🖱"@, "Clicks"@, true))
    } else {
        base
    }
}

/// The status pills shown.
pub fn status_pills(show_cursor: bool, show_border: bool, highlight_clicks: bool) -> (r: Vec<StatusPill>)
    ensures
        r@.map_values(|p: StatusPill| pill_view(p)) == status_pills_spec(show_cursor, show_border, highlight_clicks),
{
    let mut pills: Vec<StatusPill> = Vec::new();
    pills.push(StatusPill { icon: "👆", label: "Cursor", enabled: show_cursor });
    pills.push(StatusPill { icon: "🔲", label: "Border", enabled: show_border });
    if highlight_clicks {
        pills.push(StatusPill { icon: "🖱", label: "Clicks", enabled: true });
    }
    assert(pills@.map_values(|p: StatusPill| pill_view(p)) =~= status_pills_spec(
        show_cursor,
        show_border,
        highlight_clicks,
    ));
    pills
}

/// The colours of a status pill (RGBA, not premultiplied): background, text
/// and icon; green and white when enabled, greys otherwise.
pub fn pill_colors(enabled: bool) -> (r: ([u8; 4], [u8; 4], [u8; 4]))
    ensures
        r == (if enabled {
            ([40u8, 167, 69, 200], [255u8, 255, 255, 255], [255u8, 255, 255, 255])
        } else {
            ([60u8, 60, 60, 180], [150u8, 150, 150, 255], [120u8, 120, 120, 255])
        }),
{
    if enabled {
        ([40, 167, 69, 200], [255, 255, 255, 255], [255, 255, 255, 255])
    } else {
        ([60, 60, 60, 180], [150, 150, 150, 255], [120, 120, 120, 255])
    }
}

/// The colours of the selection frame: the border and the corner markers.
pub fn frame_colors(is_capturing: bool) -> (r: ([u8; 4], [u8; 4]))
    ensures
        r.0 == (if is_capturing { RustFrameColors::BORDER_ACTIVE } else { RustFrameColors::BORDER }),
        r.1 == (if is_capturing { RustFrameColors::ORANGE_LIGHT } else { RustFrameColors::BLUE_LIGHT }),
{
    let border = RustFrameTheme::border_color(is_capturing);
    let corner = if is_capturing {
        RustFrameColors::ORANGE_LIGHT
    } else {
        RustFrameColors::BLUE_LIGHT
    };
    (border, corner)
}

} // verus!
