//! The "● REC" indicator shown in the top-right corner of the capture
//! region: its size, where it goes, and how it is painted.
//!
//! The indicator window itself is created and moved by the application,
//! with the positions decided here.
use vstd::prelude::*;
use crate::platform_info::OsKind;
use crate::settings::div_trunc;
use crate::text::{
    ascii_lower, chars_of, same_chars, str_eq, to_ascii_lower, trim_chars, trim_spec,
};

verus! {

/// Width and height of the indicator for a size name ("small", "large", or
/// anything else for medium).
pub open spec fn dims_spec(size: Seq<char>) -> (i32, i32) {
    if size == "small"@ {
        (50, 18)
    } else if size == "large"@ {
        (90, 30)
    } else {
        (70, 24)
    }
}

/// Font height of the indicator's text for a size name.
pub open spec fn font_spec(size: Seq<char>) -> i32 {
    if size == "small"@ {
        12
    } else if size == "large"@ {
        20
    } else {
        16
    }
}

/// The words that switch the indicator off, in lower case.
pub open spec fn is_off_word(w: Seq<char>) -> bool {
    w == "1"@ || w == "true"@ || w == "yes"@ || w == "on"@
}

/// Whether the indicator is switched off by the value of
/// `RUSTFRAME_DISABLE_REC_INDICATOR` (`None` where it is not set): the
/// value, trimmed and in lower case, is "1", "true", "yes" or "on".
pub open spec fn disabled_by_env_spec(value: Option<Seq<char>>) -> bool {
    match value {
        Some(v) => is_off_word(trim_spec(v).map_values(|c: char| ascii_lower(c))),
        None => false,
    }
}

/// Whether the indicator is switched off by the value of
/// `RUSTFRAME_DISABLE_REC_INDICATOR`.
pub fn rec_indicator_disabled_by_env(value: Option<&str>) -> (r: bool)
    ensures
        r == disabled_by_env_spec(match value {
            Some(v) => Some(v@),
            None => None,
        }),
{
    match value {
        None => false,
        Some(v) => {
            let chars = chars_of(v);
            let trimmed = trim_chars(&chars);
            let lower = to_ascii_lower(&trimmed);
            let one = chars_of("1");
            let yes_true = chars_of("true");
            let yes = chars_of("yes");
            let on = chars_of("on");
            same_chars(&lower, &one) || same_chars(&lower, &yes_true) || same_chars(&lower, &yes)
                || same_chars(&lower, &on)
        },
    }
}

/// Whether an indicator window is created: on Windows and macOS, unless the
/// environment switches it off; never on Linux.
pub fn should_create_indicator(os: OsKind, env_value: Option<&str>) -> (r: bool)
    ensures
        r == (os != OsKind::Linux && !disabled_by_env_spec(match env_value {
            Some(v) => Some(v@),
            None => None,
        })),
{
    match os {
        OsKind::Linux => false,
        _ => !rec_indicator_disabled_by_env(env_value),
    }
}

/// Where the indicator window goes and how large it is.
#[derive(Debug, Clone, Copy, PartialEq, Eq, Structural)]
pub struct RecPlacement {
    pub x: i32,
    pub y: i32,
    pub width: i32,
    pub height: i32,
}

/// The indicator's state: whether it is shown, its size name, and its last
/// position.
pub struct RecIndicatorState {
    pub visible: bool,
    pub size: String,
    pub position: (i32, i32),
}

/// Width and height of the indicator for a size name.
pub fn indicator_dimensions(size: &str) -> (r: (i32, i32))
    ensures
        r == dims_spec(size@),
{
    if str_eq(size, "small") {
        (50, 18)
    } else if str_eq(size, "large") {
        (90, 30)
    } else {
        (70, 24)
    }
}

/// Font height for a size name.
pub fn font_size(size: &str) -> (r: i32)
    ensures
        r == font_spec(size@),
{
    if str_eq(size, "small") {
        12
    } else if str_eq(size, "large") {
        20
    } else {
        16
    }
}

/// Whether showing an indicator of width `w` at (`x`, `y`) with a border
/// of `border_width` keeps every step of the position arithmetic within 32
/// bits.
pub open spec fn show_fits(x: i32, y: i32, border_width: i32, w: i32) -> bool {
    &&& i32::MIN <= x - w <= i32::MAX
    &&& i32::MIN <= x - w - border_width <= i32::MAX
    &&& i32::MIN <= x - w - border_width - 5
    &&& i32::MIN <= y + border_width <= i32::MAX
    &&& y + border_width + 5 <= i32::MAX
}

/// Whether placing an indicator of width `w` on a region keeps every step
/// of the position arithmetic within 32 bits.
pub open spec fn update_fits(region_x: i32, region_y: i32, region_width: i32, border_width: i32, w: i32) -> bool {
    &&& i32::MIN <= region_x + region_width <= i32::MAX
    &&& show_fits((region_x + region_width) as i32, region_y, border_width, w)
}

impl RecIndicatorState {
    /// Hidden, medium, at the origin.
    pub fn new() -> (r: Self)
        ensures
            !r.visible,
            r.size@ == "medium"@,
            r.position == (0i32, 0i32),
    {
        RecIndicatorState { visible: false, size: "medium".to_owned(), position: (0, 0) }
    }

    /// Width and height of the indicator at its current size.
    pub fn get_indicator_dimensions(&self) -> (r: (i32, i32))
        ensures
            r == dims_spec(self.size@),
    {
        indicator_dimensions(self.size.as_str())
    }

    /// Font height of the indicator at its current size.
    pub fn get_font_size(&self) -> (r: i32)
        ensures
            r == font_spec(self.size@),
    {
        font_size(self.size.as_str())
    }

    /// Show the indicator left of (`x`, `y`), inside a border of
    /// `border_width`, 5 pixels from it.
    pub fn show(&mut self, x: i32, y: i32, border_width: i32) -> (r: RecPlacement)
        requires
            show_fits(x, y, border_width, dims_spec(old(self).size@).0),
        ensures
            r.width == dims_spec(old(self).size@).0,
            r.height == dims_spec(old(self).size@).1,
            r.x == x - r.width - border_width - 5,
            r.y == y + border_width + 5,
            final(self).position == (r.x, r.y),
            final(self).visible,
            final(self).size@ == old(self).size@,
    {
        let (width, height) = self.get_indicator_dimensions();
        let pos_x = x - width - border_width - 5;
        let pos_y = y + border_width + 5;
        self.position = (pos_x, pos_y);
        self.visible = true;
        RecPlacement { x: pos_x, y: pos_y, width, height }
    }

    /// Hide the indicator.
    pub fn hide_indicator(&mut self)
        ensures
            !final(self).visible,
            final(self).position == old(self).position,
            final(self).size@ == old(self).size@,
    {
        self.visible = false;
    }

    /// Place the indicator in the top-right corner of a capture region,
    /// inside its border, 5 pixels from it, and mark it shown.
    pub fn update_position(&mut self, region_x: i32, region_y: i32, region_width: i32, border_width: i32) -> (r:
        RecPlacement)
        requires
            update_fits(region_x, region_y, region_width, border_width, dims_spec(old(self).size@).0),
        ensures
            r.width == dims_spec(old(self).size@).0,
            r.height == dims_spec(old(self).size@).1,
            r.x == region_x + region_width - r.width - border_width - 5,
            r.y == region_y + border_width + 5,
            final(self).position == (r.x, r.y),
            final(self).visible,
            final(self).size@ == old(self).size@,
    {
        let (width, height) = self.get_indicator_dimensions();
        let pos_x = region_x + region_width - width - border_width - 5;
        let pos_y = region_y + border_width + 5;
        self.position = (pos_x, pos_y);
        self.visible = true;
        RecPlacement { x: pos_x, y: pos_y, width, height }
    }

    /// Change the size name; returns whether the indicator is shown and so
    /// must be repainted.
    pub fn set_size(&mut self, size: &str) -> (r: bool)
        ensures
            final(self).size@ == size@,
            final(self).visible == old(self).visible,
            final(self).position == old(self).position,
            r == old(self).visible,
    {
        self.size = size.to_owned();
        self.visible
    }
}

/// How the indicator's window is painted: the dark inner rectangle, the red
/// dot and the text's top-left corner.
#[derive(Debug, Clone, Copy)]
pub struct RecPaintLayout {
    /// Inner rectangle (left, top, right, bottom).
    pub inner: (i32, i32, i32, i32),
    /// The red dot (left, top, right, bottom).
    pub dot: (i32, i32, i32, i32),
    pub text_x: i32,
    pub text_y: i32,
}

/// Whether every step of the paint layout stays within 32 bits.
pub open spec fn rec_layout_fits(font: int, right: int, bottom: int) -> bool {
    let dot = font - 4;
    &&& i32::MIN <= dot
    &&& i32::MIN <= right - 2
    &&& i32::MIN <= bottom - 2
    &&& i32::MIN <= bottom - dot <= i32::MAX
    &&& 6 + dot + 4 <= i32::MAX
    &&& i32::MIN <= div_trunc(bottom - dot, 2) + dot <= i32::MAX
    &&& i32::MIN <= bottom - font <= i32::MAX
}

/// The paint layout of an indicator window whose client area ends at
/// (`right`, `bottom`), with text of height `font`: a 2-pixel margin, a dot
/// 4 pixels smaller than the font 6 pixels from the left and centred
/// vertically, and the text 4 pixels after the dot, centred vertically.
pub fn rec_paint_layout(font: i32, right: i32, bottom: i32) -> (r: RecPaintLayout)
    requires
        rec_layout_fits(font as int, right as int, bottom as int),
    ensures
        r.inner == (2i32, 2i32, (right - 2) as i32, (bottom - 2) as i32),
        r.dot == (
            6i32,
            div_trunc(bottom - (font - 4), 2) as i32,
            (6 + (font - 4)) as i32,
            (div_trunc(bottom - (font - 4), 2) + (font - 4)) as i32,
        ),
        r.text_x == 6 + (font - 4) + 4,
        r.text_y == div_trunc(bottom - font, 2),
{
    let dot_size = font - 4;
    let dot_x: i32 = 6;
    let dot_y = (bottom - dot_size) / 2;
    let text_x = dot_x + dot_size + 4;
    let text_y = (bottom - font) / 2;
    RecPaintLayout {
        inner: (2, 2, right - 2, bottom - 2),
        dot: (dot_x, dot_y, dot_x + dot_size, dot_y + dot_size),
        text_x,
        text_y,
    }
}

} // verus!
