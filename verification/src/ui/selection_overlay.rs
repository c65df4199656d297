//! The pixels of the selection overlay window: a frame with corner markers
//! and a centred text box on a translucent fill.
use vstd::prelude::*;
use crate::settings::div_trunc;

verus! {

/// Sizes of the selection overlay's drawing.
#[derive(Debug, Clone, Copy)]
pub struct OverlayStyle {
    /// Width of the frame.
    pub border_width: i32,
    /// Length of the corner markers' arms.
    pub corner_size: i32,
    /// Size of the text box, before it is fitted to the window.
    pub text_box_width: i32,
    pub text_box_height: i32,
    /// Width of the text box's frame.
    pub text_box_border: i32,
}

/// Colours of the selection overlay, as 32-bit pixels.
#[derive(Debug, Clone, Copy)]
pub struct OverlayColors {
    pub corner: u32,
    pub border: u32,
    pub text_border: u32,
    pub text_bg: u32,
    pub fill: u32,
}

/// The text box (left, top, right, bottom): its size fitted 10 pixels
/// inside each side of the window, centred.
pub open spec fn text_box_spec(s: OverlayStyle, width: int, height: int) -> (int, int, int, int) {
    let w = if s.text_box_width < width - 20 { s.text_box_width as int } else { width - 20 };
    let h = if s.text_box_height < height - 20 { s.text_box_height as int } else { height - 20 };
    let left = div_trunc(width - w, 2);
    let top = div_trunc(height - h, 2);
    (left, top, left + w, top + h)
}

/// The colour of pixel (x, y) of an overlay of the given size: a corner
/// marker (arms `corner_size` long and twice the frame's width thick), the
/// frame, the text box's frame, the text box, or the fill, in that order of
/// precedence.
pub open spec fn overlay_pixel_spec(s: OverlayStyle, c: OverlayColors, width: int, height: int, x: int, y: int) -> u32 {
    let bw = s.border_width as int;
    let cs = s.corner_size as int;
    let on_border = x < bw || x >= width - bw || y < bw || y >= height - bw;
    let in_top_left = (x < cs && y < 2 * bw) || (y < cs && x < 2 * bw);
    let in_top_right = (x >= width - cs && y < 2 * bw) || (y < cs && x >= width - 2 * bw);
    let in_bottom_left = (x < cs && y >= height - 2 * bw) || (y >= height - cs && x < 2 * bw);
    let in_bottom_right = (x >= width - cs && y >= height - 2 * bw) || (y >= height - cs && x >= width - 2
        * bw);
    let in_corner = in_top_left || in_top_right || in_bottom_left || in_bottom_right;
    let (l, t, r, b) = text_box_spec(s, width, height);
    let tb = s.text_box_border as int;
    let in_text_box = l <= x < r && t <= y < b;
    let on_text_box_border = in_text_box && (x < l + tb || x >= r - tb || y < t + tb || y >= b - tb);
    if in_corner {
        c.corner
    } else if on_border {
        c.border
    } else if on_text_box_border {
        c.text_border
    } else if in_text_box {
        c.text_bg
    } else {
        c.fill
    }
}

/// Whether a value fits in 32 bits.
pub open spec fn fits_i32(v: int) -> bool {
    i32::MIN <= v <= i32::MAX
}

/// Sizes for which every step of the drawing stays within 32 bits: the
/// pixel index of the image, and the frame's and text box's edges.
pub open spec fn overlay_inputs_ok(s: OverlayStyle, width: int, height: int) -> bool {
    let bw = s.border_width as int;
    let cs = s.corner_size as int;
    let tb = s.text_box_border as int;
    let w = if s.text_box_width < width - 20 { s.text_box_width as int } else { width - 20 };
    let h = if s.text_box_height < height - 20 { s.text_box_height as int } else { height - 20 };
    let (l, t, r, b) = text_box_spec(s, width, height);
    &&& 0 <= width && 0 <= height
    &&& width * height <= i32::MAX
    &&& fits_i32(width - w) && fits_i32(height - h)
    &&& fits_i32(r) && fits_i32(b)
    &&& fits_i32(l + tb) && fits_i32(r - tb) && fits_i32(t + tb) && fits_i32(b - tb)
    &&& fits_i32(2 * bw)
    &&& fits_i32(width - bw) && fits_i32(height - bw)
    &&& fits_i32(width - cs) && fits_i32(height - cs)
    &&& fits_i32(width - 2 * bw) && fits_i32(height - 2 * bw)
}

/// The colour of one pixel of the overlay.
pub fn overlay_pixel(s: &OverlayStyle, c: &OverlayColors, width: i32, height: i32, x: i32, y: i32) -> (r: u32)
    requires
        overlay_inputs_ok(*s, width as int, height as int),
        0 <= x < width,
        0 <= y < height,
    ensures
        r == overlay_pixel_spec(*s, *c, width as int, height as int, x as int, y as int),
{
    let border_width = s.border_width;
    let corner_size = s.corner_size;
    let tb_width = if s.text_box_width < width - 20 {
        s.text_box_width
    } else {
        width - 20
    };
    let tb_height = if s.text_box_height < height - 20 {
        s.text_box_height
    } else {
        height - 20
    };
    let tb_left = (width - tb_width) / 2;
    let tb_top = (height - tb_height) / 2;
    let tb_right = tb_left + tb_width;
    let tb_bottom = tb_top + tb_height;
    let tb_border = s.text_box_border;
    let on_border = x < border_width || x >= width - border_width || y < border_width || y >= height
        - border_width;
    let in_top_left = (x < corner_size && y < border_width * 2) || (y < corner_size && x < border_width
        * 2);
    let in_top_right = (x >= width - corner_size && y < border_width * 2) || (y < corner_size && x >= width
        - border_width * 2);
    let in_bottom_left = (x < corner_size && y >= height - border_width * 2) || (y >= height - corner_size
        && x < border_width * 2);
    let in_bottom_right = (x >= width - corner_size && y >= height - border_width * 2) || (y >= height
        - corner_size && x >= width - border_width * 2);
    let in_corner = in_top_left || in_top_right || in_bottom_left || in_bottom_right;
    let in_text_box = x >= tb_left && x < tb_right && y >= tb_top && y < tb_bottom;
    let on_text_box_border = in_text_box && (x < tb_left + tb_border || x >= tb_right - tb_border || y
        < tb_top + tb_border || y >= tb_bottom - tb_border);
    if in_corner {
        c.corner
    } else if on_border {
        c.border
    } else if on_text_box_border {
        c.text_border
    } else if in_text_box {
        c.text_bg
    } else {
        c.fill
    }
}

/// Fill a top-down pixel buffer of `width` x `height` pixels (row after row)
/// with the overlay's pixels; pixels past the image are left alone. The help
/// text is drawn over them afterwards.
pub fn render_overlay_pixels(
    pixels: &mut Vec<u32>,
    width: i32,
    height: i32,
    style: &OverlayStyle,
    colors: &OverlayColors,
)
    requires
        overlay_inputs_ok(*style, width as int, height as int),
        old(pixels)@.len() >= width * height,
    ensures
        final(pixels)@.len() == old(pixels)@.len(),
        forall|k: int|
            0 <= k < width * height ==> #[trigger] final(pixels)@[k] == overlay_pixel_spec(
                *style,
                *colors,
                width as int,
                height as int,
                k % (width as int),
                k / (width as int),
            ),
        forall|k: int| width * height <= k < old(pixels)@.len() ==> #[trigger] final(pixels)@[k] == old(
            pixels,
        )@[k],
{
    let ghost w = width as int;
    let ghost h = height as int;
    let mut y: i32 = 0;
    while y < height
        invariant
            0 <= y <= height,
            w == width,
            h == height,
            overlay_inputs_ok(*style, w, h),
            pixels@.len() == old(pixels)@.len(),
            old(pixels)@.len() >= w * h,
            forall|k: int| 0 <= k < y * w ==> #[trigger] pixels@[k] == overlay_pixel_spec(
                *style,
                *colors,
                w,
                h,
                k % w,
                k / w,
            ),
            forall|k: int| y * w <= k < pixels@.len() ==> #[trigger] pixels@[k] == old(pixels)@[k],
        decreases height - y,
    {
        let mut x: i32 = 0;
        proof {
            assert(y * w + w <= h * w) by (nonlinear_arith)
                requires
                    y < h,
                    w >= 0,
            ;
            assert(h * w == w * h) by (nonlinear_arith);
        }
        while x < width
            invariant
                0 <= x <= width,
                0 <= y < height,
                w == width,
                h == height,
                overlay_inputs_ok(*style, w, h),
                pixels@.len() == old(pixels)@.len(),
                y * w + w <= w * h,
                old(pixels)@.len() >= w * h,
                forall|k: int| 0 <= k < y * w + x ==> #[trigger] pixels@[k] == overlay_pixel_spec(
                    *style,
                    *colors,
                    w,
                    h,
                    k % w,
                    k / w,
                ),
                forall|k: int| y * w + x <= k < pixels@.len() ==> #[trigger] pixels@[k] == old(pixels)@[k],
            decreases width - x,
        {
            let idx = (y * width + x) as usize;
            let v = overlay_pixel(style, colors, width, height, x, y);
            proof {
                vstd::arithmetic::div_mod::lemma_fundamental_div_mod_converse(y * w + x, w, y as int, x as int);
            }
            pixels.set(idx, v);
            x = x + 1;
        }
        y = y + 1;
        proof {
            assert((y - 1) * w + w == y * w) by (nonlinear_arith);
        }
    }
    proof {
        assert(y * w == w * h) by (nonlinear_arith)
            requires
                y == h,
        ;
    }
}

/// The frame is drawn all round: every pixel within the frame's width of
/// an edge shows the frame or a corner marker, never the fill or the text
/// box.
pub proof fn lemma_frame_drawn(s: OverlayStyle, c: OverlayColors, width: int, height: int, x: int, y: int)
    requires
        overlay_inputs_ok(s, width, height),
        0 <= x < width,
        0 <= y < height,
        x < s.border_width || y < s.border_width || x >= width - s.border_width || y >= height
            - s.border_width,
    ensures
        overlay_pixel_spec(s, c, width, height, x, y) == c.corner || overlay_pixel_spec(s, c, width, height, x, y)
            == c.border,
{
}

} // verus!
