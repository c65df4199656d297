//! Colour and rectangle helpers shared by every platform back end.
use vstd::prelude::*;
use crate::text::{dec_text, push_decimal_i64};

verus! {

/// Smallest hit-test thickness of a resize corner, in pixels.
pub const MIN_CORNER_THICKNESS: i32 = 8;

/// Convert a Windows BGR colour (0x00BBGGRR) to `[R, G, B, A]` with full alpha.
pub fn bgr_to_rgba(bgr: u32) -> (r: [u8; 4])
    ensures
        r[0] == bgr % 256,
        r[1] == (bgr / 256) % 256,
        r[2] == (bgr / 65536) % 256,
        r[3] == 255,
{
    let red = (bgr & 0xFF) as u8;
    let green = ((bgr >> 8) & 0xFF) as u8;
    let blue = ((bgr >> 16) & 0xFF) as u8;
    assert(bgr & 0xFF == bgr % 256) by (bit_vector);
    assert((bgr >> 8) & 0xFF == (bgr / 256) % 256) by (bit_vector);
    assert((bgr >> 16) & 0xFF == (bgr / 65536) % 256) by (bit_vector);
    [red, green, blue, 255]
}

/// Convert `[R, G, B, A]` to a Windows BGR colour (0x00BBGGRR); alpha is dropped.
pub fn rgba_to_bgr(rgba: [u8; 4]) -> (r: u32)
    ensures
        r == rgba[0] + 256 * rgba[1] + 65536 * rgba[2],
{
    let red = rgba[0] as u32;
    let green = rgba[1] as u32;
    let blue = rgba[2] as u32;
    assert((blue << 16) | (green << 8) | red == red + 256 * green + 65536 * blue) by (bit_vector)
        requires
            red < 256,
            green < 256,
            blue < 256,
    ;
    (blue << 16) | (green << 8) | red
}

/// The larger of an integer and zero.
pub open spec fn non_negative(v: int) -> int {
    if v > 0 {
        v
    } else {
        0
    }
}

/// The rectangle inside a border of the given width, as (x, y, width,
/// height); a border wider than half the rectangle leaves a size of zero.
pub fn calculate_inner_rect(x: i32, y: i32, width: i32, height: i32, border_width: i32) -> (r: (
    i32,
    i32,
    i32,
    i32,
))
    requires
        i32::MIN <= x + border_width <= i32::MAX,
        i32::MIN <= y + border_width <= i32::MAX,
        i32::MIN <= 2 * border_width <= i32::MAX,
        i32::MIN <= width - 2 * border_width <= i32::MAX,
        i32::MIN <= height - 2 * border_width <= i32::MAX,
    ensures
        r.0 == x + border_width,
        r.1 == y + border_width,
        r.2 == non_negative(width - 2 * border_width),
        r.3 == non_negative(height - 2 * border_width),
{
    let inner_w = width - 2 * border_width;
    let inner_h = height - 2 * border_width;
    (
        x + border_width,
        y + border_width,
        if inner_w > 0 { inner_w } else { 0 },
        if inner_h > 0 { inner_h } else { 0 },
    )
}

/// The message for a window below the minimum size.
pub open spec fn too_small_message(width: int, height: int) -> Seq<char> {
    "Window too small: "@ + dec_text(width) + "x"@ + dec_text(height) + " (minimum 50x50)"@
}

/// The message for a window above the maximum size.
pub open spec fn too_large_message(width: int, height: int) -> Seq<char> {
    "Window too large: "@ + dec_text(width) + "x"@ + dec_text(height) + " (maximum 7680x4320)"@
}

/// Accept a window size between 50x50 and 7680x4320 (inclusive); otherwise
/// say which bound is broken, the lower one first.
pub fn validate_window_size(width: i32, height: i32) -> (r: Result<(), String>)
    ensures
        r is Ok <==> (50 <= width <= 7680 && 50 <= height <= 4320),
        (width < 50 || height < 50) ==> (r matches Err(e) && e@ == too_small_message(
            width as int,
            height as int,
        )),
        (width >= 50 && height >= 50 && (width > 7680 || height > 4320)) ==> (r matches Err(e)
            && e@ == too_large_message(width as int, height as int)),
{
    if width < 50 || height < 50 {
        let mut m = "Window too small: ".to_owned();
        push_decimal_i64(&mut m, width as i64);
        m.append("x");
        push_decimal_i64(&mut m, height as i64);
        m.append(" (minimum 50x50)");
        assert(m@ =~= too_small_message(width as int, height as int));
        return Err(m);
    }
    if width > 7680 || height > 4320 {
        let mut m = "Window too large: ".to_owned();
        push_decimal_i64(&mut m, width as i64);
        m.append("x");
        push_decimal_i64(&mut m, height as i64);
        m.append(" (maximum 7680x4320)");
        assert(m@ =~= too_large_message(width as int, height as int));
        return Err(m);
    }
    Ok(())
}

/// Corners are easier to grab than edges: twice the border width, but never
/// thinner than `MIN_CORNER_THICKNESS`.
pub fn calculate_corner_thickness(border_width: i32) -> (r: i32)
    requires
        i32::MIN <= 2 * border_width <= i32::MAX,
    ensures
        r == if 2 * border_width >= MIN_CORNER_THICKNESS {
            2 * border_width
        } else {
            MIN_CORNER_THICKNESS as int
        },
        r >= MIN_CORNER_THICKNESS,
{
    let doubled = border_width * 2;
    if doubled >= MIN_CORNER_THICKNESS {
        doubled
    } else {
        MIN_CORNER_THICKNESS
    }
}

/// Converting a colour to BGR and back gives the same red, green and blue,
/// with full alpha.
pub proof fn lemma_color_round_trip(rgba: [u8; 4], bgr: u32, back: [u8; 4])
    requires
        bgr == rgba[0] + 256 * rgba[1] + 65536 * rgba[2],
        back[0] == bgr % 256,
        back[1] == (bgr / 256) % 256,
        back[2] == (bgr / 65536) % 256,
        back[3] == 255,
    ensures
        back[0] == rgba[0],
        back[1] == rgba[1],
        back[2] == rgba[2],
{
    let r = rgba[0] as int;
    let g = rgba[1] as int;
    let b = rgba[2] as int;
    assert((r + 256 * g + 65536 * b) % 256 == r) by (nonlinear_arith)
        requires 0 <= r < 256, 0 <= g < 256, 0 <= b < 256;
    assert(((r + 256 * g + 65536 * b) / 256) % 256 == g) by (nonlinear_arith)
        requires 0 <= r < 256, 0 <= g < 256, 0 <= b < 256;
    assert(((r + 256 * g + 65536 * b) / 65536) % 256 == b) by (nonlinear_arith)
        requires 0 <= r < 256, 0 <= g < 256, 0 <= b < 256;
}

/// The inner rectangle of a border never has a negative size, and it is
/// centred: the border taken off one side is taken off the other too.
pub proof fn lemma_inner_rect_centred(x: int, y: int, width: int, height: int, bw: int)
    requires
        width >= 2 * bw,
        height >= 2 * bw,
    ensures
        (x + bw) - x == (x + width) - ((x + bw) + non_negative(width - 2 * bw)),
        (y + bw) - y == (y + height) - ((y + bw) + non_negative(height - 2 * bw)),
        non_negative(width - 2 * bw) >= 0,
{
}

} // verus!
