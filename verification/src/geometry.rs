//! Rectangles of the capture region, its border window and the windows
//! placed around it.
use vstd::prelude::*;

verus! {

/// A screen rectangle: top-left corner and size in physical pixels.
#[derive(Debug, Clone, Copy, PartialEq, Eq, Structural)]
pub struct CaptureRect {
    pub x: i32,
    pub y: i32,
    pub width: u32,
    pub height: u32,
}

impl CaptureRect {
    pub fn new(x: i32, y: i32, width: u32, height: u32) -> (r: Self)
        ensures
            r == (CaptureRect { x, y, width, height }),
    {
        CaptureRect { x, y, width, height }
    }
}

/// Subtraction that stops at zero, as `u32::saturating_sub`.
pub open spec fn sat_sub(a: int, b: int) -> int {
    if a > b {
        a - b
    } else {
        0
    }
}

/// The part of a window inside a border of the given width: the position
/// moves in by the border, the size shrinks by twice the border (not below
/// zero).
pub fn capture_rect_inner(x: i32, y: i32, width: u32, height: u32, border_width: u32) -> (r:
    CaptureRect)
    requires
        2 * border_width <= u32::MAX,
        i32::MIN <= x + border_width <= i32::MAX,
        i32::MIN <= y + border_width <= i32::MAX,
    ensures
        r.x == x + border_width,
        r.y == y + border_width,
        r.width == sat_sub(width as int, 2 * border_width),
        r.height == sat_sub(height as int, 2 * border_width),
{
    let border = border_width as i32;
    let twice = border_width * 2;
    CaptureRect {
        x: x + border,
        y: y + border,
        width: width.saturating_sub(twice),
        height: height.saturating_sub(twice),
    }
}

/// Size of the content inside a border: the outer size less twice the
/// border, at least one pixel.
pub fn content_size(outer: i32, border_width: i32) -> (r: u32)
    requires
        i32::MIN <= 2 * border_width <= i32::MAX,
        i32::MIN <= outer - 2 * border_width <= i32::MAX,
    ensures
        r == if outer - 2 * border_width > 1 {
            outer - 2 * border_width
        } else {
            1
        },
{
    let inner = outer - border_width * 2;
    if inner > 1 {
        inner as u32
    } else {
        1
    }
}

/// The size inside a fixed border offset, when both sides stay positive.
pub fn inner_size_with_offset(width: u32, height: u32, offset: u32) -> (r: Option<(u32, u32)>)
    requires
        2 * offset <= u32::MAX,
    ensures
        r == (if sat_sub(width as int, 2 * offset) > 0 && sat_sub(height as int, 2 * offset) > 0 {
            Some((sat_sub(width as int, 2 * offset) as u32, sat_sub(height as int, 2 * offset) as u32))
        } else {
            None
        }),
{
    let inner_width = width.saturating_sub(offset * 2);
    let inner_height = height.saturating_sub(offset * 2);
    if inner_width > 0 && inner_height > 0 {
        Some((inner_width, inner_height))
    } else {
        None
    }
}

/// Where the preview window goes in development mode: 20 pixels to the
/// right of a region of the given width, at the same height.
pub fn position_beside_overlay(overlay_x: i32, overlay_y: i32, width: u32) -> (r: (i32, i32))
    requires
        width <= i32::MAX,
        overlay_x + width + 20 <= i32::MAX,
    ensures
        r.0 == overlay_x + width + 20,
        r.1 == overlay_y,
{
    (overlay_x + width as i32 + 20, overlay_y)
}

/// Where the preview window goes in production mode: far off the left edge
/// of the screen, where the user does not see it but a meeting app can
/// still share it.
pub fn offscreen_position() -> (r: (i32, i32))
    ensures
        r == (-9999i32, 100i32),
{
    (-9999, 100)
}

/// The smallest region size in which the settings dialog fits.
pub const SETTINGS_MIN_WIDTH: u32 = 560;

/// The smallest region height in which the settings dialog fits.
pub const SETTINGS_MIN_HEIGHT: u32 = 550;

/// The region size to open the settings dialog in: grown to the dialog's
/// minimum on each side that is smaller.
pub fn settings_window_size(width: u32, height: u32) -> (r: (u32, u32))
    ensures
        r.0 == if width > SETTINGS_MIN_WIDTH { width } else { SETTINGS_MIN_WIDTH },
        r.1 == if height > SETTINGS_MIN_HEIGHT { height } else { SETTINGS_MIN_HEIGHT },
{
    (
        if width > SETTINGS_MIN_WIDTH { width } else { SETTINGS_MIN_WIDTH },
        if height > SETTINGS_MIN_HEIGHT { height } else { SETTINGS_MIN_HEIGHT },
    )
}

/// The edge or corner by which the border window is being resized.
#[derive(Debug, Clone, Copy, PartialEq, Eq, Structural)]
pub enum ResizeCorner {
    TopLeft,
    TopRight,
    BottomLeft,
    BottomRight,
    TopEdge,
    BottomEdge,
    LeftEdge,
    RightEdge,
}

/// Smallest width and height the border window may be resized to.
pub const MIN_BORDER_SIDE: i32 = 100;

/// Whether a resize moves the left edge.
pub open spec fn moves_left(c: ResizeCorner) -> bool {
    c == ResizeCorner::TopLeft || c == ResizeCorner::BottomLeft || c == ResizeCorner::LeftEdge
}

/// Whether a resize moves the right edge.
pub open spec fn moves_right(c: ResizeCorner) -> bool {
    c == ResizeCorner::TopRight || c == ResizeCorner::BottomRight || c == ResizeCorner::RightEdge
}

/// Whether a resize moves the top edge.
pub open spec fn moves_top(c: ResizeCorner) -> bool {
    c == ResizeCorner::TopLeft || c == ResizeCorner::TopRight || c == ResizeCorner::TopEdge
}

/// Whether a resize moves the bottom edge.
pub open spec fn moves_bottom(c: ResizeCorner) -> bool {
    c == ResizeCorner::BottomLeft || c == ResizeCorner::BottomRight || c == ResizeCorner::BottomEdge
}

/// The rectangle (x, y, width, height) after dragging an edge or corner by
/// (dx, dy), before the minimum size is enforced.
pub open spec fn dragged_rect(x: int, y: int, w: int, h: int, dx: int, dy: int, c: ResizeCorner) -> (
    int,
    int,
    int,
    int,
) {
    let nx = if moves_left(c) { x + dx } else { x };
    let nw = if moves_left(c) { w - dx } else if moves_right(c) { w + dx } else { w };
    let ny = if moves_top(c) { y + dy } else { y };
    let nh = if moves_top(c) { h - dy } else if moves_bottom(c) { h + dy } else { h };
    (nx, ny, nw, nh)
}

/// The rectangle after a resize drag: the dragged edges follow the pointer,
/// the others stay, and a side that would shrink below 100 pixels is held
/// at 100 with the dragged edge stopped so that the opposite edge stays put.
pub open spec fn resize_spec(x: int, y: int, w: int, h: int, dx: int, dy: int, c: ResizeCorner) -> (
    int,
    int,
    int,
    int,
) {
    let d = dragged_rect(x, y, w, h, dx, dy, c);
    let m = MIN_BORDER_SIDE as int;
    let (fx, fw) = if d.2 < m {
        (if moves_left(c) { d.0 - (m - d.2) } else { d.0 }, m)
    } else {
        (d.0, d.2)
    };
    let (fy, fh) = if d.3 < m {
        (if moves_top(c) { d.1 - (m - d.3) } else { d.1 }, m)
    } else {
        (d.1, d.3)
    };
    (fx, fy, fw, fh)
}

/// Inputs for which the resize from corner `c` keeps within 32 bits: the
/// sums of the dragged edges, and, where the minimum size stops a left or
/// top drag, the shift of the dragged edge back.
pub open spec fn resize_inputs_ok(x: int, y: int, w: int, h: int, dx: int, dy: int, c: ResizeCorner) -> bool {
    let d = dragged_rect(x, y, w, h, dx, dy, c);
    let m = MIN_BORDER_SIDE as int;
    &&& moves_left(c) ==> i32::MIN <= x + dx <= i32::MAX && i32::MIN <= w - dx <= i32::MAX
    &&& moves_right(c) ==> i32::MIN <= w + dx <= i32::MAX
    &&& moves_top(c) ==> i32::MIN <= y + dy <= i32::MAX && i32::MIN <= h - dy <= i32::MAX
    &&& moves_bottom(c) ==> i32::MIN <= h + dy <= i32::MAX
    &&& (moves_left(c) && d.2 < m) ==> m - d.2 <= i32::MAX && i32::MIN <= d.0 - (m - d.2)
    &&& (moves_top(c) && d.3 < m) ==> m - d.3 <= i32::MAX && i32::MIN <= d.1 - (m - d.3)
}

/// Resize the border window's rectangle (x, y, width, height) by dragging
/// the given edge or corner by (dx, dy) physical pixels.
pub fn resize_border_rect(
    x: i32,
    y: i32,
    width: i32,
    height: i32,
    dx: i32,
    dy: i32,
    from_corner: ResizeCorner,
) -> (r: (i32, i32, i32, i32))
    requires
        resize_inputs_ok(x as int, y as int, width as int, height as int, dx as int, dy as int, from_corner),
    ensures
        (r.0 as int, r.1 as int, r.2 as int, r.3 as int) == resize_spec(
            x as int,
            y as int,
            width as int,
            height as int,
            dx as int,
            dy as int,
            from_corner,
        ),
{
    let mut new_x = x;
    let mut new_y = y;
    let mut new_width = width;
    let mut new_height = height;
    match from_corner {
        ResizeCorner::TopLeft => {
            new_x = new_x + dx;
            new_y = new_y + dy;
            new_width = new_width - dx;
            new_height = new_height - dy;
        },
        ResizeCorner::TopRight => {
            new_y = new_y + dy;
            new_width = new_width + dx;
            new_height = new_height - dy;
        },
        ResizeCorner::BottomLeft => {
            new_x = new_x + dx;
            new_width = new_width - dx;
            new_height = new_height + dy;
        },
        ResizeCorner::BottomRight => {
            new_width = new_width + dx;
            new_height = new_height + dy;
        },
        ResizeCorner::TopEdge => {
            new_y = new_y + dy;
            new_height = new_height - dy;
        },
        ResizeCorner::BottomEdge => {
            new_height = new_height + dy;
        },
        ResizeCorner::LeftEdge => {
            new_x = new_x + dx;
            new_width = new_width - dx;
        },
        ResizeCorner::RightEdge => {
            new_width = new_width + dx;
        },
    }
    if new_width < MIN_BORDER_SIDE {
        match from_corner {
            ResizeCorner::TopLeft | ResizeCorner::BottomLeft | ResizeCorner::LeftEdge => {
                new_x = new_x - (MIN_BORDER_SIDE - new_width);
            },
            _ => {},
        }
        new_width = MIN_BORDER_SIDE;
    }
    if new_height < MIN_BORDER_SIDE {
        match from_corner {
            ResizeCorner::TopLeft | ResizeCorner::TopRight | ResizeCorner::TopEdge => {
                new_y = new_y - (MIN_BORDER_SIDE - new_height);
            },
            _ => {},
        }
        new_height = MIN_BORDER_SIDE;
    }
    (new_x, new_y, new_width, new_height)
}

/// Moving the border window by a drag delta.
pub fn move_border_rect(x: i32, y: i32, dx: i32, dy: i32) -> (r: (i32, i32))
    requires
        i32::MIN <= x + dx <= i32::MAX,
        i32::MIN <= y + dy <= i32::MAX,
    ensures
        r.0 == x + dx,
        r.1 == y + dy,
{
    (x + dx, y + dy)
}

/// A resize never leaves the border window smaller than 100x100, and the
/// edges that are not dragged stay where they were, even when the minimum
/// size stops the drag.
pub proof fn lemma_resize_keeps_opposite_edges(
    x: int,
    y: int,
    w: int,
    h: int,
    dx: int,
    dy: int,
    c: ResizeCorner,
)
    ensures
        ({
            let r = resize_spec(x, y, w, h, dx, dy, c);
            &&& r.2 >= MIN_BORDER_SIDE && r.3 >= MIN_BORDER_SIDE
            &&& !moves_left(c) ==> r.0 == x
            &&& moves_left(c) ==> r.0 + r.2 == x + w
            &&& !moves_top(c) ==> r.1 == y
            &&& moves_top(c) ==> r.1 + r.3 == y + h
            &&& (!moves_left(c) && !moves_right(c)) ==> r.2 == (if w < MIN_BORDER_SIDE { MIN_BORDER_SIDE as int } else { w })
            &&& (!moves_top(c) && !moves_bottom(c)) ==> r.3 == (if h < MIN_BORDER_SIDE { MIN_BORDER_SIDE as int } else { h })
        }),
{
}

/// A drag that keeps both sides at least 100 pixels moves the dragged edges
/// by exactly the drag delta.
pub proof fn lemma_resize_follows_pointer(
    x: int,
    y: int,
    w: int,
    h: int,
    dx: int,
    dy: int,
    c: ResizeCorner,
)
    requires
        dragged_rect(x, y, w, h, dx, dy, c).2 >= MIN_BORDER_SIDE,
        dragged_rect(x, y, w, h, dx, dy, c).3 >= MIN_BORDER_SIDE,
    ensures
        resize_spec(x, y, w, h, dx, dy, c) == dragged_rect(x, y, w, h, dx, dy, c),
        moves_left(c) ==> resize_spec(x, y, w, h, dx, dy, c).0 == x + dx,
        moves_right(c) ==> resize_spec(x, y, w, h, dx, dy, c).0 + resize_spec(x, y, w, h, dx, dy, c).2
            == x + w + dx,
        moves_top(c) ==> resize_spec(x, y, w, h, dx, dy, c).1 == y + dy,
        moves_bottom(c) ==> resize_spec(x, y, w, h, dx, dy, c).1 + resize_spec(x, y, w, h, dx, dy, c).3
            == y + h + dy,
{
}

/// The window region of a border window: the whole window, with the inside
/// of the border cut out. Rectangles are (left, top, right, bottom).
pub fn border_window_region(width: i32, height: i32, border_width: i32) -> (r: (
    (i32, i32, i32, i32),
    (i32, i32, i32, i32),
))
    requires
        i32::MIN <= width - border_width <= i32::MAX,
        i32::MIN <= height - border_width <= i32::MAX,
    ensures
        r.0 == (0i32, 0i32, width, height),
        r.1 == (border_width, border_width, (width - border_width) as i32, (height - border_width) as i32),
{
    ((0, 0, width, height), (border_width, border_width, width - border_width, height - border_width))
}

/// Extra margin around a hollow frame that still takes resize drags.
pub const HOLLOW_RESIZE_MARGIN: i32 = 8;

/// The window region of the hollow selection frame: the window grown by the
/// resize margin on every side, with the inside of the border cut out.
pub fn hollow_frame_region(width: i32, height: i32, border_width: i32) -> (r: (
    (i32, i32, i32, i32),
    (i32, i32, i32, i32),
))
    requires
        width + HOLLOW_RESIZE_MARGIN <= i32::MAX,
        height + HOLLOW_RESIZE_MARGIN <= i32::MAX,
        i32::MIN <= width - border_width <= i32::MAX,
        i32::MIN <= height - border_width <= i32::MAX,
    ensures
        r.0 == (-8i32, -8i32, (width + 8) as i32, (height + 8) as i32),
        r.1 == (border_width, border_width, (width - border_width) as i32, (height - border_width) as i32),
{
    let m = HOLLOW_RESIZE_MARGIN;
    ((-m, -m, width + m, height + m), (border_width, border_width, width - border_width, height - border_width))
}

/// A window rectangle given by its edges, as position and size; the size is
/// the edge difference taken as an unsigned number.
pub fn rect_from_edges(left: i32, top: i32, right: i32, bottom: i32) -> (r: CaptureRect)
    requires
        i32::MIN <= right - left <= i32::MAX,
        i32::MIN <= bottom - top <= i32::MAX,
    ensures
        r.x == left,
        r.y == top,
        r.width == (right - left) as u32,
        r.height == (bottom - top) as u32,
{
    CaptureRect { x: left, y: top, width: (right - left) as u32, height: (bottom - top) as u32 }
}

} // verus!
