//! The capture border: a transparent window whose only visible pixels are a
//! coloured frame, L-shaped corner markers and a "REC" badge. This module
//! computes its pixels; drawing them on screen is the platform's job.
use vstd::prelude::*;

verus! {

/// Visual style of the capture border.
#[derive(Debug, Clone, Copy)]
pub struct BorderStyle {
    /// Border width in pixels.
    pub border_width: i32,
    /// Length of each arm of a corner marker.
    pub corner_size: i32,
    /// Thickness of a corner marker.
    pub corner_thickness: i32,
    /// Whether the "REC" badge is drawn.
    pub show_rec_indicator: bool,
    /// Size of the badge (1 small, 2 medium, 3 large).
    pub rec_indicator_size: u32,
}

impl Default for BorderStyle {
    fn default() -> (r: Self)
        ensures
            r.border_width == 5,
            r.corner_size == 30,
            r.corner_thickness == 8,
            r.show_rec_indicator,
            r.rec_indicator_size == 2,
    {
        BorderStyle {
            border_width: 5,
            corner_size: 30,
            corner_thickness: 8,
            show_rec_indicator: true,
            rec_indicator_size: 2,
        }
    }
}

/// Colours of the capture border, as 32-bit ARGB pixels (0xAARRGGBB).
#[derive(Debug, Clone, Copy)]
pub struct BorderColors {
    pub border: u32,
    pub corner: u32,
    pub transparent: u32,
    pub rec_red: u32,
    pub rec_bg: u32,
    pub rec_text: u32,
}

impl Default for BorderColors {
    fn default() -> (r: Self)
        ensures
            r.border == 0xE0FF9A3Cu32,
            r.corner == 0xFFFFFFFFu32,
            r.transparent == 0u32,
            r.rec_red == 0xB0FF4040u32,
            r.rec_bg == 0x80181818u32,
            r.rec_text == 0xD0FFFFFFu32,
    {
        BorderColors {
            border: 0xE0FF9A3C,
            corner: 0xFFFFFFFF,
            transparent: 0x00000000,
            rec_red: 0xB0FF4040,
            rec_bg: 0x80181818,
            rec_text: 0xD0FFFFFF,
        }
    }
}

impl BorderColors {
    /// Colours for a border of the given RGBA colour; the border pixel is
    /// ARGB (0xAARRGGBB) like the other colours, which are the defaults.
    pub fn from_settings(border_color: [u8; 4]) -> (r: Self)
        ensures
            r.border == 16777216 * border_color[3] + 65536 * border_color[0] + 256 * border_color[1]
                + border_color[2],
            r.corner == 0xFFFFFFFFu32,
            r.transparent == 0u32,
            r.rec_red == 0xB0FF4040u32,
            r.rec_bg == 0x80181818u32,
            r.rec_text == 0xD0FFFFFFu32,
    {
        let r = border_color[0] as u32;
        let g = border_color[1] as u32;
        let b = border_color[2] as u32;
        let a = border_color[3] as u32;
        assert((a << 24) | (r << 16) | (g << 8) | b == b + 256 * g + 65536 * r + 16777216 * a)
            by (bit_vector)
            requires
                r < 256,
                g < 256,
                b < 256,
                a < 256,
        ;
        BorderColors {
            border: (a << 24) | (r << 16) | (g << 8) | b,
            corner: 0xFFFFFFFF,
            transparent: 0x00000000,
            rec_red: 0xB0FF4040,
            rec_bg: 0x80181818,
            rec_text: 0xD0FFFFFF,
        }
    }
}

/// Whether (x, y) lies in the rectangle at (rx, ry) of size rw x rh whose
/// four corners are rounded with the given radius.
pub open spec fn rounded_rect_spec(x: int, y: int, rx: int, ry: int, rw: int, rh: int, radius: int) -> bool {
    if x < rx || x >= rx + rw || y < ry || y >= ry + rh {
        false
    } else {
        let in_disc = |cx: int, cy: int| (x - cx) * (x - cx) + (y - cy) * (y - cy) <= radius * radius;
        if x < rx + radius && y < ry + radius {
            in_disc(rx + radius, ry + radius)
        } else if x >= rx + rw - radius && y < ry + radius {
            in_disc(rx + rw - radius, ry + radius)
        } else if x < rx + radius && y >= ry + rh - radius {
            in_disc(rx + radius, ry + rh - radius)
        } else if x >= rx + rw - radius && y >= ry + rh - radius {
            in_disc(rx + rw - radius, ry + rh - radius)
        } else {
            true
        }
    }
}

/// Where (x, y) falls in one of the rounded corners of the rectangle, its
/// offset from that corner's centre.
pub open spec fn disc_offset(x: int, y: int, rx: int, ry: int, rw: int, rh: int, radius: int) -> Option<(int, int)> {
    if x < rx || x >= rx + rw || y < ry || y >= ry + rh {
        None
    } else if x < rx + radius && y < ry + radius {
        Some((x - (rx + radius), y - (ry + radius)))
    } else if x >= rx + rw - radius && y < ry + radius {
        Some((x - (rx + rw - radius), y - (ry + radius)))
    } else if x < rx + radius && y >= ry + rh - radius {
        Some((x - (rx + radius), y - (ry + rh - radius)))
    } else if x >= rx + rw - radius && y >= ry + rh - radius {
        Some((x - (rx + rw - radius), y - (ry + rh - radius)))
    } else {
        None
    }
}

/// Whether the test of (x, y) keeps its arithmetic within 32 bits: the
/// rectangle's edges and corner centres fit, and where the point falls in a
/// corner, the squared radius and the squared distance fit too.
pub open spec fn rounded_rect_fits(x: int, y: int, rx: int, ry: int, rw: int, rh: int, radius: int) -> bool {
    &&& i32::MIN <= rx + rw <= i32::MAX
    &&& i32::MIN <= ry + rh <= i32::MAX
    &&& i32::MIN <= rx + radius <= i32::MAX
    &&& i32::MIN <= ry + radius <= i32::MAX
    &&& i32::MIN <= rx + rw - radius <= i32::MAX
    &&& i32::MIN <= ry + rh - radius <= i32::MAX
    &&& match disc_offset(x, y, rx, ry, rw, rh, radius) {
        Some((dx, dy)) => radius * radius <= i32::MAX && dx * dx + dy * dy <= i32::MAX,
        None => true,
    }
}

/// The largest radius for which every squared distance in a corner stays
/// within 32 bits.
pub const MAX_DISC_OFFSET: i32 = 32767;

proof fn lemma_sq_le(a: int, r: int)
    requires
        -r <= a <= r,
    ensures
        a * a <= r * r,
        0 <= a * a,
{
    assert(a * a <= r * r) by (nonlinear_arith)
        requires
            -r <= a <= r,
    ;
    assert(0 <= a * a) by (nonlinear_arith);
}

proof fn lemma_sum_sq_bounded(dx: int, dy: int, r: int)
    requires
        -r <= dx <= r,
        -r <= dy <= r,
        0 <= r <= MAX_DISC_OFFSET,
    ensures
        dx * dx + dy * dy <= i32::MAX,
        0 <= dx * dx,
        dx * dx <= i32::MAX,
        0 <= dy * dy,
        dy * dy <= i32::MAX,
{
    lemma_sq_le(dx, r);
    lemma_sq_le(dy, r);
    lemma_sq_le(r, MAX_DISC_OFFSET as int);
}

/// A radius of at most 32767 keeps every corner test within 32 bits.
proof fn lemma_small_radius_fits(x: int, y: int, rx: int, ry: int, rw: int, rh: int, radius: int)
    requires
        0 <= radius <= MAX_DISC_OFFSET,
    ensures
        match disc_offset(x, y, rx, ry, rw, rh, radius) {
            Some((dx, dy)) => radius * radius <= i32::MAX && dx * dx + dy * dy <= i32::MAX,
            None => true,
        },
{
    lemma_sq_le(radius, MAX_DISC_OFFSET as int);
    match disc_offset(x, y, rx, ry, rw, rh, radius) {
        Some((dx, dy)) => {
            lemma_sum_sq_bounded(dx, dy, radius);
        },
        None => {},
    }
}

/// Whether (x, y) lies in a rounded rectangle.
pub fn is_in_rounded_rect(x: i32, y: i32, rx: i32, ry: i32, rw: i32, rh: i32, radius: i32) -> (r: bool)
    requires
        rounded_rect_fits(x as int, y as int, rx as int, ry as int, rw as int, rh as int, radius as int),
    ensures
        r == rounded_rect_spec(x as int, y as int, rx as int, ry as int, rw as int, rh as int, radius as int),
{
    if x < rx || x >= rx + rw || y < ry || y >= ry + rh {
        return false;
    }
    if x < rx + radius && y < ry + radius {
        let dx = x - (rx + radius);
        let dy = y - (ry + radius);
        assert(0 <= dx * dx && 0 <= dy * dy) by (nonlinear_arith);
        return dx * dx + dy * dy <= radius * radius;
    }
    if x >= rx + rw - radius && y < ry + radius {
        let dx = x - (rx + rw - radius);
        let dy = y - (ry + radius);
        assert(0 <= dx * dx && 0 <= dy * dy) by (nonlinear_arith);
        return dx * dx + dy * dy <= radius * radius;
    }
    if x < rx + radius && y >= ry + rh - radius {
        let dx = x - (rx + radius);
        let dy = y - (ry + rh - radius);
        assert(0 <= dx * dx && 0 <= dy * dy) by (nonlinear_arith);
        return dx * dx + dy * dy <= radius * radius;
    }
    if x >= rx + rw - radius && y >= ry + rh - radius {
        let dx = x - (rx + rw - radius);
        let dy = y - (ry + rh - radius);
        assert(0 <= dx * dx && 0 <= dy * dy) by (nonlinear_arith);
        return dx * dx + dy * dy <= radius * radius;
    }
    true
}

/// Row `row` (0..7) of the 5x7 glyph "R", leftmost pixel as the highest of
/// five bits.
pub open spec fn glyph_r_row(row: int) -> nat {
    if row == 0 {
        30
    } else if row == 3 {
        30
    } else if row == 4 {
        20
    } else if row == 5 {
        18
    } else {
        17
    }
}

/// Row `row` (0..7) of the glyph "E".
pub open spec fn glyph_e_row(row: int) -> nat {
    if row == 0 || row == 6 {
        31
    } else if row == 3 {
        30
    } else {
        16
    }
}

/// Row `row` (0..7) of the glyph "C".
pub open spec fn glyph_c_row(row: int) -> nat {
    if row == 0 || row == 6 {
        15
    } else {
        16
    }
}

/// Whether column `col` (0..5, from the left) of a glyph row is set.
pub open spec fn glyph_bit(row_bits: nat, col: int) -> bool {
    (row_bits / pow2_of(4 - col)) % 2 == 1
}

/// Two to the power `k` for small `k`.
pub open spec fn pow2_of(k: int) -> nat {
    if k <= 0 {
        1
    } else if k == 1 {
        2
    } else if k == 2 {
        4
    } else if k == 3 {
        8
    } else {
        16
    }
}

/// Whether pixel (x, y) belongs to the text "REC" drawn in 5x7 glyphs with
/// two blank columns between letters (19 by 7 pixels in all).
pub open spec fn rec_text_spec(x: int, y: int) -> bool {
    if y < 0 || y >= 7 || x < 0 {
        false
    } else if x < 5 {
        glyph_bit(glyph_r_row(y), x)
    } else if x < 7 {
        false
    } else if x < 12 {
        glyph_bit(glyph_e_row(y), x - 7)
    } else if x < 14 {
        false
    } else if x < 19 {
        glyph_bit(glyph_c_row(y), x - 14)
    } else {
        false
    }
}

fn glyph_row(letter: u8, row: i32) -> (r: u32)
    requires
        0 <= row < 7,
    ensures
        letter == 0 ==> r == glyph_r_row(row as int),
        letter == 1 ==> r == glyph_e_row(row as int),
        letter != 0 && letter != 1 ==> r == glyph_c_row(row as int),
{
    if letter == 0 {
        if row == 0 || row == 3 {
            30
        } else if row == 4 {
            20
        } else if row == 5 {
            18
        } else {
            17
        }
    } else if letter == 1 {
        if row == 0 || row == 6 {
            31
        } else if row == 3 {
            30
        } else {
            16
        }
    } else {
        if row == 0 || row == 6 {
            15
        } else {
            16
        }
    }
}

fn glyph_bit_exec(bits: u32, col: i32) -> (r: bool)
    requires
        0 <= col < 5,
    ensures
        r == glyph_bit(bits as nat, col as int),
{
    let p: u32 = if col == 4 {
        1
    } else if col == 3 {
        2
    } else if col == 2 {
        4
    } else if col == 1 {
        8
    } else {
        16
    };
    (bits / p) % 2 == 1
}

/// Whether pixel (x, y) belongs to the "REC" text at scale one.
pub fn is_rec_text_pixel(x: i32, y: i32) -> (r: bool)
    ensures
        r == rec_text_spec(x as int, y as int),
{
    if y < 0 || y >= 7 || x < 0 {
        return false;
    }
    if x < 5 {
        return glyph_bit_exec(glyph_row(0, y), x);
    }
    if x < 7 {
        return false;
    }
    if x < 12 {
        return glyph_bit_exec(glyph_row(1, y), x - 7);
    }
    if x < 14 {
        return false;
    }
    if x < 19 {
        return glyph_bit_exec(glyph_row(2, y), x - 14);
    }
    false
}

/// Whether pixel (x, y) belongs to the "REC" text drawn at an integer scale:
/// each glyph pixel becomes a `scale` x `scale` square, from the origin on.
pub fn is_rec_text_pixel_scaled(x: i32, y: i32, scale: i32) -> (r: bool)
    requires
        scale > 0,
    ensures
        r == (x >= 0 && y >= 0 && rec_text_spec(x / scale, y / scale)),
{
    x >= 0 && y >= 0 && is_rec_text_pixel(x / scale, y / scale)
}

/// Size and place of the "REC" badge in a border window of the given width:
/// a 72x26 pill 15 pixels from the right edge and 12 from the top, with a
/// red dot of radius 8 and the text at twice its size.
pub open spec fn rec_bg_x(width: int) -> int {
    width - 72 - 15
}

pub open spec fn rec_circle_x(width: int) -> int {
    rec_bg_x(width) + 15
}

pub open spec fn rec_circle_y() -> int {
    25int
}

pub open spec fn rec_text_x(width: int) -> int {
    rec_circle_x(width) + 8 + 8
}

pub open spec fn rec_text_y() -> int {
    rec_circle_y() - 7
}

/// The colour of pixel (x, y) of a border window of the given size: the red
/// dot, the badge text, the badge, a corner marker, the border, or
/// transparent, in that order of precedence.
pub open spec fn border_pixel_spec(s: BorderStyle, c: BorderColors, width: int, height: int, x: int, y: int) -> u32 {
    let bw = s.border_width as int;
    let cs = s.corner_size as int;
    let ct = s.corner_thickness as int;
    let on_border = x < bw || x >= width - bw || y < bw || y >= height - bw;
    let in_top_left = (x < cs && y < ct) || (y < cs && x < ct);
    let in_top_right = (x >= width - cs && y < ct) || (y < cs && x >= width - ct);
    let in_bottom_left = (x < cs && y >= height - ct) || (y >= height - cs && x < ct);
    let in_bottom_right = (x >= width - cs && y >= height - ct) || (y >= height - cs && x >= width - ct);
    let in_corner = in_top_left || in_top_right || in_bottom_left || in_bottom_right;
    let show_rec = s.show_rec_indicator && width > 150 && height > 80;
    let in_bg = show_rec && rounded_rect_spec(x, y, rec_bg_x(width), 12, 72, 26, 13);
    let dx = x - rec_circle_x(width);
    let dy = y - rec_circle_y();
    let in_circle = show_rec && dx * dx + dy * dy <= 64;
    let tx = x - rec_text_x(width);
    let ty = y - rec_text_y();
    let in_text = show_rec && tx >= 0 && ty >= 0 && rec_text_spec(tx / 2, ty / 2);
    if in_circle {
        c.rec_red
    } else if in_text && in_bg {
        c.rec_text
    } else if in_bg {
        c.rec_bg
    } else if in_corner {
        c.corner
    } else if on_border {
        c.border
    } else {
        c.transparent
    }
}

/// Sizes for which rendering the border stays within 32-bit arithmetic.
pub open spec fn render_inputs_ok(s: BorderStyle, width: int, height: int) -> bool {
    &&& width >= 0 && height >= 0
    &&& width * height <= i32::MAX
    &&& i32::MIN <= width - s.border_width <= i32::MAX
    &&& i32::MIN <= height - s.border_width <= i32::MAX
    &&& i32::MIN <= width - s.corner_size <= i32::MAX
    &&& i32::MIN <= height - s.corner_size <= i32::MAX
    &&& i32::MIN <= width - s.corner_thickness <= i32::MAX
    &&& i32::MIN <= height - s.corner_thickness <= i32::MAX
    &&& (s.show_rec_indicator && width > 150 && height > 80) ==> (width - 72) * (width - 72) + (height
        - 26) * (height - 26) <= i32::MAX
}

/// The colour of one pixel of the border window.
pub fn border_pixel(s: &BorderStyle, c: &BorderColors, width: i32, height: i32, x: i32, y: i32) -> (r: u32)
    requires
        render_inputs_ok(*s, width as int, height as int),
        0 <= x < width,
        0 <= y < height,
    ensures
        r == border_pixel_spec(*s, *c, width as int, height as int, x as int, y as int),
{
    let border_width = s.border_width;
    let corner_size = s.corner_size;
    let corner_thickness = s.corner_thickness;
    let rec_circle_radius: i32 = 8;
    let rec_bg_height: i32 = 26;
    let rec_bg_width: i32 = 72;
    let show_rec = s.show_rec_indicator && width > 150 && height > 80;
    let on_border = x < border_width || x >= width - border_width || y < border_width || y >= height
        - border_width;
    let in_top_left = (x < corner_size && y < corner_thickness) || (y < corner_size && x
        < corner_thickness);
    let in_top_right = (x >= width - corner_size && y < corner_thickness) || (y < corner_size && x
        >= width - corner_thickness);
    let in_bottom_left = (x < corner_size && y >= height - corner_thickness) || (y >= height
        - corner_size && x < corner_thickness);
    let in_bottom_right = (x >= width - corner_size && y >= height - corner_thickness) || (y
        >= height - corner_size && x >= width - corner_thickness);
    let in_corner = in_top_left || in_top_right || in_bottom_left || in_bottom_right;
    let mut in_bg = false;
    let mut in_circle = false;
    let mut in_text = false;
    if show_rec {
        let rec_bg_x = width - rec_bg_width - 15;
        let rec_bg_y: i32 = 12;
        let rec_bg_radius = rec_bg_height / 2;
        let rec_circle_x = rec_bg_x + 15;
        let rec_circle_y = rec_bg_y + rec_bg_height / 2;
        let text_scale: i32 = 2;
        let text_x = rec_circle_x + rec_circle_radius + 8;
        let text_y = rec_circle_y - (7 * text_scale) / 2;
        proof {
            lemma_small_radius_fits(x as int, y as int, rec_bg_x as int, rec_bg_y as int, 72, 26, 13);
        }
        in_bg = is_in_rounded_rect(x, y, rec_bg_x, rec_bg_y, rec_bg_width, rec_bg_height, rec_bg_radius);
        let dx = x - rec_circle_x;
        let dy = y - rec_circle_y;
        proof {
            lemma_sq_le(dx as int, width - 72);
            lemma_sq_le(dy as int, height - 26);
        }
        in_circle = dx * dx + dy * dy <= rec_circle_radius * rec_circle_radius;
        in_text = is_rec_text_pixel_scaled(x - text_x, y - text_y, text_scale);
    }
    if in_circle {
        c.rec_red
    } else if in_text && in_bg {
        c.rec_text
    } else if in_bg {
        c.rec_bg
    } else if in_corner {
        c.corner
    } else if on_border {
        c.border
    } else {
        c.transparent
    }
}

/// Fill a top-down pixel buffer of `width` x `height` pixels (row after row)
/// with the border window's pixels; pixels past the image are left alone.
pub fn render_border_pixels(
    pixels: &mut Vec<u32>,
    width: i32,
    height: i32,
    style: &BorderStyle,
    colors: &BorderColors,
)
    requires
        render_inputs_ok(*style, width as int, height as int),
        old(pixels)@.len() >= width * height,
    ensures
        final(pixels)@.len() == old(pixels)@.len(),
        forall|k: int|
            0 <= k < width * height ==> #[trigger] final(pixels)@[k] == border_pixel_spec(
                *style,
                *colors,
                width as int,
                height as int,
                k % (width as int),
                k / (width as int),
            ),
        forall|k: int| width * height <= k < old(pixels)@.len() ==> #[trigger] final(pixels)@[k] == old(
            pixels,
        )@[k],
{
    let ghost w = width as int;
    let ghost h = height as int;
    let mut y: i32 = 0;
    while y < height
        invariant
            0 <= y <= height,
            w == width,
            h == height,
            render_inputs_ok(*style, w, h),
            pixels@.len() == old(pixels)@.len(),
            old(pixels)@.len() >= w * h,
            forall|k: int| 0 <= k < y * w ==> #[trigger] pixels@[k] == border_pixel_spec(
                *style,
                *colors,
                w,
                h,
                k % w,
                k / w,
            ),
            forall|k: int| y * w <= k < pixels@.len() ==> #[trigger] pixels@[k] == old(pixels)@[k],
        decreases height - y,
    {
        let mut x: i32 = 0;
        proof {
            assert(y * w + w <= h * w) by (nonlinear_arith)
                requires
                    y < h,
                    w >= 0,
            ;
            assert(h * w == w * h) by (nonlinear_arith);
        }
        while x < width
            invariant
                0 <= x <= width,
                0 <= y < height,
                w == width,
                h == height,
                render_inputs_ok(*style, w, h),
                pixels@.len() == old(pixels)@.len(),
                y * w + w <= w * h,
                old(pixels)@.len() >= w * h,
                forall|k: int| 0 <= k < y * w + x ==> #[trigger] pixels@[k] == border_pixel_spec(
                    *style,
                    *colors,
                    w,
                    h,
                    k % w,
                    k / w,
                ),
                forall|k: int| y * w + x <= k < pixels@.len() ==> #[trigger] pixels@[k] == old(pixels)@[k],
            decreases width - x,
        {
            let idx = (y * width + x) as usize;
            let v = border_pixel(style, colors, width, height, x, y);
            proof {
                vstd::arithmetic::div_mod::lemma_fundamental_div_mod_converse(
                    y * w + x,
                    w,
                    y as int,
                    x as int,
                );
            }
            pixels.set(idx, v);
            x = x + 1;
        }
        y = y + 1;
        proof {
            assert((y - 1) * w + w == y * w) by (nonlinear_arith);
        }
    }
    proof {
        assert(y * w == w * h) by (nonlinear_arith)
            requires
                y == h,
        ;
    }
}

/// The middle of the border window is fully transparent: a pixel inside
/// the border and the corner markers, away from the "REC" badge, shows the
/// transparent colour, so only the frame is visible.
pub proof fn lemma_center_transparent(s: BorderStyle, c: BorderColors, w: int, h: int, x: int, y: int)
    requires
        s.border_width <= x < w - s.border_width,
        s.border_width <= y < h - s.border_width,
        s.corner_thickness <= x < w - s.corner_thickness,
        s.corner_thickness <= y < h - s.corner_thickness,
        !s.show_rec_indicator || x < rec_bg_x(w) || w <= 150 || h <= 80,
    ensures
        border_pixel_spec(s, c, w, h, x, y) == c.transparent,
{
    let dx = x - rec_circle_x(w);
    if s.show_rec_indicator && w > 150 && h > 80 {
        assert(dx < -15);
        assert(dx * dx > 64) by (nonlinear_arith)
            requires
                dx < -15,
        ;
        let dy = y - rec_circle_y();
        assert(dy * dy >= 0) by (nonlinear_arith);
    }
}

/// A pixel of the left border band between the corner markers, away from
/// the badge, shows the border colour.
pub proof fn lemma_border_band_colour(s: BorderStyle, c: BorderColors, w: int, h: int, x: int, y: int)
    requires
        0 <= x < s.border_width,
        s.corner_thickness <= x,
        s.corner_size <= y < h - s.corner_size,
        s.corner_thickness <= y < h - s.corner_thickness,
        !s.show_rec_indicator || w <= 150 || h <= 80 || x < rec_bg_x(w),
    ensures
        border_pixel_spec(s, c, w, h, x, y) == c.border,
{
    let dx = x - rec_circle_x(w);
    if s.show_rec_indicator && w > 150 && h > 80 {
        assert(dx * dx > 64) by (nonlinear_arith)
            requires
                dx < -15,
        ;
        let dy = y - rec_circle_y();
        assert(dy * dy >= 0) by (nonlinear_arith);
    }
}

/// Each of the four corner markers is drawn in the corner colour. A marker
/// is an L of two bars, `corner_size` long and `corner_thickness` thick,
/// along the two edges of its corner; with `dh` the pixel's distance to the
/// nearer side edge and `dv` to the nearer top or bottom edge, a pixel is in
/// a marker when `dh < corner_size && dv < corner_thickness` or
/// `dv < corner_size && dh < corner_thickness`. This holds wherever the pixel
/// lies outside the REC badge's 72x26 box, 15 pixels from the right edge and
/// 12 from the top.
pub proof fn lemma_corner_markers(s: BorderStyle, c: BorderColors, w: int, h: int, x: int, y: int)
    requires
        0 <= x < w,
        0 <= y < h,
        ({
            let dh = if x < w - 1 - x { x } else { w - 1 - x };
            let dv = if y < h - 1 - y { y } else { h - 1 - y };
            (dh < s.corner_size && dv < s.corner_thickness) || (dv < s.corner_size && dh < s.corner_thickness)
        }),
        !s.show_rec_indicator || w <= 150 || h <= 80 || x < rec_bg_x(w) || x >= rec_bg_x(w) + 72 || y < 12
            || y >= 38,
    ensures
        border_pixel_spec(s, c, w, h, x, y) == c.corner,
{
    if s.show_rec_indicator && w > 150 && h > 80 {
        let dx = x - rec_circle_x(w);
        let dy = y - rec_circle_y();
        assert(dx * dx >= 0 && dy * dy >= 0) by (nonlinear_arith);
        if dx < -8 || dx > 8 {
            assert(dx * dx > 64) by (nonlinear_arith)
                requires
                    dx < -8 || dx > 8,
            ;
        } else {
            assert(dy * dy > 64) by (nonlinear_arith)
                requires
                    dy < -8 || dy > 8,
            ;
        }
    }
}

/// The border band is drawn along all four edges: a pixel closer than
/// `border_width` to an edge of the window, outside the corner markers and
/// the REC badge's box, has the border colour, and a pixel at least
/// `border_width` from every edge, outside them, is transparent (with `dh`
/// and `dv` as for the corner markers).
pub proof fn lemma_border_bands(s: BorderStyle, c: BorderColors, w: int, h: int, x: int, y: int)
    requires
        0 <= x < w,
        0 <= y < h,
        ({
            let dh = if x < w - 1 - x { x } else { w - 1 - x };
            let dv = if y < h - 1 - y { y } else { h - 1 - y };
            !((dh < s.corner_size && dv < s.corner_thickness) || (dv < s.corner_size && dh < s.corner_thickness))
        }),
        !s.show_rec_indicator || w <= 150 || h <= 80 || x < rec_bg_x(w) || x >= rec_bg_x(w) + 72 || y < 12
            || y >= 38,
    ensures
        ({
            let dh = if x < w - 1 - x { x } else { w - 1 - x };
            let dv = if y < h - 1 - y { y } else { h - 1 - y };
            &&& (dh < s.border_width || dv < s.border_width) ==> border_pixel_spec(s, c, w, h, x, y) == c.border
            &&& (dh >= s.border_width && dv >= s.border_width) ==> border_pixel_spec(s, c, w, h, x, y)
                == c.transparent
        }),
{
    if s.show_rec_indicator && w > 150 && h > 80 {
        let dx = x - rec_circle_x(w);
        let dy = y - rec_circle_y();
        assert(dx * dx >= 0 && dy * dy >= 0) by (nonlinear_arith);
        if dx < -8 || dx > 8 {
            assert(dx * dx > 64) by (nonlinear_arith)
                requires
                    dx < -8 || dx > 8,
            ;
        } else {
            assert(dy * dy > 64) by (nonlinear_arith)
                requires
                    dy < -8 || dy > 8,
            ;
        }
    }
}

/// The text drawn at a scale lies within the scaled 19x7 box from the
/// origin: nothing left of or above it, nothing past it.
pub proof fn lemma_scaled_text_extent(x: int, y: int, scale: int)
    requires
        scale > 0,
    ensures
        (x >= 0 && y >= 0 && rec_text_spec(x / scale, y / scale)) ==> 0 <= x < 19 * scale && 0 <= y < 7
            * scale,
{
    if x >= 0 && y >= 0 && rec_text_spec(x / scale, y / scale) {
        assert(x / scale < 19 && y / scale < 7);
        assert(x < 19 * scale) by (nonlinear_arith)
            requires
                x >= 0,
                scale > 0,
                x / scale < 19,
        ;
        assert(y < 7 * scale) by (nonlinear_arith)
            requires
                y >= 0,
                scale > 0,
                y / scale < 7,
        ;
    }
}

/// The badge text spells R, E and C side by side: its three 5-pixel glyphs
/// start at columns 0, 7 and 14, and nothing is drawn outside 19x7 pixels.
pub proof fn lemma_rec_text_extent(x: int, y: int)
    ensures
        rec_text_spec(x, y) ==> 0 <= x < 19 && 0 <= y < 7,
        rec_text_spec(x, y) ==> !(5 <= x < 7) && !(12 <= x < 14),
        rec_text_spec(0, 0) && rec_text_spec(7, 0) && rec_text_spec(15, 0),
        !rec_text_spec(4, 0) && rec_text_spec(4, 1) && !rec_text_spec(14, 0),
{
}

} // verus!
