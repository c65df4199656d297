//! What every platform's windows offer, so that each platform provides the
//! same operations.
use vstd::prelude::*;

verus! {

/// The hollow border window that shows the capture region and can be
/// resized and moved by its border.
pub trait BorderWindow: Send + Sync {
    /// A border window at the given place, with the given border.
    fn new(x: i32, y: i32, width: i32, height: i32, border_width: i32, border_color: u32) -> Option<Self> where
        Self: Sized;

    /// The window's rectangle (x, y, width, height).
    fn get_rect(&self) -> (i32, i32, i32, i32);

    /// The capture area inside the border (x, y, width, height).
    fn get_inner_rect(&self) -> (i32, i32, i32, i32);

    /// Move and resize the window.
    fn update_rect(&self, x: i32, y: i32, width: i32, height: i32);

    /// Change the border colour.
    fn update_color(&self, color: u32);

    /// Change the border width and colour.
    fn update_style(&self, width: i32, color: u32);

    /// Hide the window.
    fn hide_border(&self);

    /// Show the window.
    fn show(&self);

    /// The platform's window handle.
    fn hwnd_value(&self) -> isize;

    /// Capture mode: the inside lets clicks through, only the border takes
    /// them.
    fn set_capture_mode(&mut self);

    /// Preview mode: the inside can be dragged.
    fn set_preview_mode(&mut self);

    /// Clean up before the window is dropped.
    fn stop(&mut self);
}

/// The "● REC" indicator overlay.
pub trait RecordingIndicator: Send + Sync {
    /// A new indicator, where one can be made.
    fn new() -> Option<Self> where Self: Sized;

    /// Show the indicator left of (`x`, `y`), inside a border of
    /// `border_width`.
    fn show(&self, x: i32, y: i32, border_width: i32);

    /// Hide the indicator.
    fn hide_indicator(&self);

    /// Place the indicator in the top-right corner of a capture region.
    fn update_position(&self, region_x: i32, region_y: i32, region_width: i32, border_width: i32);

    /// Set the indicator's size ("small", "medium", "large").
    fn set_size(&self, size: &str);
}

/// The destination window, which shows the captured frames for sharing.
pub trait PreviewWindow: Send + Sync {
    /// What a window is created with.
    type Config;

    /// A destination window at the given place and size.
    fn new(x: i32, y: i32, width: u32, height: u32, config: Self::Config) -> Option<Self> where
        Self: Sized;

    /// The platform's window handle.
    fn hwnd_value(&self) -> isize;

    /// Show a new frame (RGBA).
    fn update_frame(&self, data: Vec<u8>, width: u32, height: u32);

    /// Draw pixels (RGBA) into the window.
    fn render(&mut self, pixels: &[u8], width: u32, height: u32);

    /// Resize the window.
    fn resize(&mut self, width: u32, height: u32);

    /// Move the window.
    fn set_pos(&mut self, x: i32, y: i32);

    /// Put the window at the bottom of the z-order, still visible.
    fn send_to_back(&self);

    /// Bring the window to the front.
    fn bring_to_front(&self);

    /// Keep the window out of screen captures.
    fn exclude_from_capture(&self);
}

} // verus!
