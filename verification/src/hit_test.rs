//! Hit testing of frameless windows: which part of a window a screen point
//! falls on (a resize edge or corner, the caption, the client area, or a
//! transparent hole), and which cursor each part shows.
use vstd::prelude::*;
use crate::settings::div_trunc;

verus! {

/// The part of a window under a point, as Windows' `WM_NCHITTEST` names it.
#[derive(Debug, Clone, Copy, PartialEq, Eq, Structural)]
pub enum HitTest {
    Client,
    Caption,
    Left,
    Right,
    Top,
    Bottom,
    TopLeft,
    TopRight,
    BottomLeft,
    BottomRight,
    Transparent,
}

/// Cursor shapes shown over the parts of a window.
#[derive(Debug, Clone, Copy, PartialEq, Eq, Structural)]
pub enum CursorShape {
    Arrow,
    SizeAll,
    SizeNwse,
    SizeNesw,
    SizeWe,
    SizeNs,
}

/// A window's edges in screen coordinates.
#[derive(Debug, Clone, Copy, PartialEq, Eq, Structural)]
pub struct WindowEdges {
    pub left: i32,
    pub top: i32,
    pub right: i32,
    pub bottom: i32,
}

/// Edges far enough from the ends of the 32-bit range that moving them
/// inward or outward by `m` pixels does not overflow.
pub open spec fn edges_ok(e: WindowEdges, m: int) -> bool {
    &&& e.left + m <= i32::MAX
    &&& e.top + m <= i32::MAX
    &&& e.right - m >= i32::MIN
    &&& e.bottom - m >= i32::MIN
    &&& e.left - m >= i32::MIN
    &&& e.top - m >= i32::MIN
    &&& e.right + m <= i32::MAX
    &&& e.bottom + m <= i32::MAX
}

/// Whether `v` lies in the half-open band [lo, hi).
pub open spec fn in_band(v: int, lo: int, hi: int) -> bool {
    lo <= v < hi
}

/// Resize band of the main window's edges.
pub const MAIN_RESIZE_BORDER: i32 = 8;

/// Height of the main window's title bar, which drags the window.
pub const TITLE_BAR_HEIGHT: i32 = 48;

/// Width of the main window's title-bar buttons, which stay clickable.
pub const TITLE_BAR_BUTTONS_WIDTH: i32 = 140;

/// The part of the main window under (x, y): corners first (16-pixel
/// squares), then the 8-pixel edges, then the title bar (a caption, except
/// for the buttons at its right end), else the client area.
pub open spec fn main_window_hit_spec(x: int, y: int, e: WindowEdges) -> HitTest {
    let corner = 2 * MAIN_RESIZE_BORDER;
    let border = MAIN_RESIZE_BORDER as int;
    let on_left = in_band(x, e.left as int, e.left + corner);
    let on_right = in_band(x, e.right - corner, e.right as int);
    let on_top = in_band(y, e.top as int, e.top + corner);
    let on_bottom = in_band(y, e.bottom - corner, e.bottom as int);
    if on_top && on_left {
        HitTest::TopLeft
    } else if on_top && on_right {
        HitTest::TopRight
    } else if on_bottom && on_left {
        HitTest::BottomLeft
    } else if on_bottom && on_right {
        HitTest::BottomRight
    } else if in_band(x, e.left as int, e.left + border) {
        HitTest::Left
    } else if in_band(x, e.right - border, e.right as int) {
        HitTest::Right
    } else if in_band(y, e.top as int, e.top + border) {
        HitTest::Top
    } else if in_band(y, e.bottom - border, e.bottom as int) {
        HitTest::Bottom
    } else if in_band(y, e.top + border, e.top + TITLE_BAR_HEIGHT) {
        if x < e.right - TITLE_BAR_BUTTONS_WIDTH {
            HitTest::Caption
        } else {
            HitTest::Client
        }
    } else {
        HitTest::Client
    }
}

/// Hit test of the main window.
pub fn main_window_hit_test(x: i32, y: i32, e: WindowEdges) -> (r: HitTest)
    requires
        edges_ok(e, TITLE_BAR_BUTTONS_WIDTH as int),
    ensures
        r == main_window_hit_spec(x as int, y as int, e),
{
    let border = MAIN_RESIZE_BORDER;
    let corner = border * 2;
    let on_left = x >= e.left && x < e.left + corner;
    let on_right = x >= e.right - corner && x < e.right;
    let on_top = y >= e.top && y < e.top + corner;
    let on_bottom = y >= e.bottom - corner && y < e.bottom;
    if on_top && on_left {
        return HitTest::TopLeft;
    }
    if on_top && on_right {
        return HitTest::TopRight;
    }
    if on_bottom && on_left {
        return HitTest::BottomLeft;
    }
    if on_bottom && on_right {
        return HitTest::BottomRight;
    }
    if x >= e.left && x < e.left + border {
        return HitTest::Left;
    }
    if x >= e.right - border && x < e.right {
        return HitTest::Right;
    }
    if y >= e.top && y < e.top + border {
        return HitTest::Top;
    }
    if y >= e.bottom - border && y < e.bottom {
        return HitTest::Bottom;
    }
    if y >= e.top + border && y < e.top + TITLE_BAR_HEIGHT {
        if x < e.right - TITLE_BAR_BUTTONS_WIDTH {
            return HitTest::Caption;
        }
        return HitTest::Client;
    }
    HitTest::Client
}

/// Resize band of frameless windows with plain 8-pixel edges.
pub const FRAME_RESIZE_BORDER: i32 = 8;

/// The part of a plain frameless window under (x, y): corners, then edges
/// (8 pixels each); `inside` is what the rest of the window is.
pub open spec fn edge_hit_spec(x: int, y: int, e: WindowEdges, top_edge: HitTest, inside: HitTest) -> HitTest {
    let b = FRAME_RESIZE_BORDER as int;
    let on_left = in_band(x, e.left as int, e.left + b);
    let on_right = in_band(x, e.right - b, e.right as int);
    let on_top = in_band(y, e.top as int, e.top + b);
    let on_bottom = in_band(y, e.bottom - b, e.bottom as int);
    if on_top && on_left {
        HitTest::TopLeft
    } else if on_top && on_right {
        HitTest::TopRight
    } else if on_bottom && on_left {
        HitTest::BottomLeft
    } else if on_bottom && on_right {
        HitTest::BottomRight
    } else if on_left {
        HitTest::Left
    } else if on_right {
        HitTest::Right
    } else if on_top {
        top_edge
    } else if on_bottom {
        HitTest::Bottom
    } else {
        inside
    }
}

fn edge_hit_test(x: i32, y: i32, e: WindowEdges, top_edge: HitTest, inside: HitTest) -> (r: HitTest)
    requires
        edges_ok(e, FRAME_RESIZE_BORDER as int),
    ensures
        r == edge_hit_spec(x as int, y as int, e, top_edge, inside),
{
    let border = FRAME_RESIZE_BORDER;
    let on_left = x >= e.left && x < e.left + border;
    let on_right = x >= e.right - border && x < e.right;
    let on_top = y >= e.top && y < e.top + border;
    let on_bottom = y >= e.bottom - border && y < e.bottom;
    if on_top && on_left {
        HitTest::TopLeft
    } else if on_top && on_right {
        HitTest::TopRight
    } else if on_bottom && on_left {
        HitTest::BottomLeft
    } else if on_bottom && on_right {
        HitTest::BottomRight
    } else if on_left {
        HitTest::Left
    } else if on_right {
        HitTest::Right
    } else if on_top {
        top_edge
    } else if on_bottom {
        HitTest::Bottom
    } else {
        inside
    }
}

/// Hit test of the selection overlay: 8-pixel edges resize it, the rest
/// of the window drags it.
pub fn selection_hit_test(x: i32, y: i32, e: WindowEdges) -> (r: HitTest)
    requires
        edges_ok(e, FRAME_RESIZE_BORDER as int),
    ensures
        r == edge_hit_spec(x as int, y as int, e, HitTest::Top, HitTest::Caption),
{
    edge_hit_test(x, y, e, HitTest::Top, HitTest::Caption)
}

/// Hit test of the capture border window: 8-pixel edges resize it, except
/// the top edge, which drags it; the inside lets the mouse through.
pub fn capture_border_hit_test(x: i32, y: i32, e: WindowEdges) -> (r: HitTest)
    requires
        edges_ok(e, FRAME_RESIZE_BORDER as int),
    ensures
        r == edge_hit_spec(x as int, y as int, e, HitTest::Caption, HitTest::Transparent),
{
    edge_hit_test(x, y, e, HitTest::Caption, HitTest::Transparent)
}

/// The part of the hollow capture frame under (x, y). The resize bands are
/// `max(border, 8)` pixels deep inside the window and reach 4 pixels
/// outside it; the middle third of the top band drags the frame; the rest of
/// the border drags it too; the inside lets the mouse through.
pub open spec fn hollow_frame_hit_spec(x: int, y: int, e: WindowEdges, border: int) -> HitTest {
    let margin = if border > 8 { border } else { 8 };
    let on_left = in_band(x, e.left - 4, e.left + margin);
    let on_right = in_band(x, e.right - margin, e.right + 4);
    let on_top = in_band(y, e.top - 4, e.top + margin);
    let on_bottom = in_band(y, e.bottom - margin, e.bottom + 4);
    let third = div_trunc(e.right - e.left, 3);
    if on_top && on_left {
        HitTest::TopLeft
    } else if on_top && on_right {
        HitTest::TopRight
    } else if on_bottom && on_left {
        HitTest::BottomLeft
    } else if on_bottom && on_right {
        HitTest::BottomRight
    } else if on_left {
        HitTest::Left
    } else if on_right {
        HitTest::Right
    } else if on_top {
        if e.left + third <= x <= e.right - third {
            HitTest::Caption
        } else {
            HitTest::Top
        }
    } else if on_bottom {
        HitTest::Bottom
    } else if in_band(x, e.left as int, e.left + border) || in_band(x, e.right - border, e.right as int)
        || in_band(y, e.top as int, e.top + border) || in_band(y, e.bottom - border, e.bottom as int) {
        HitTest::Caption
    } else {
        HitTest::Transparent
    }
}

/// Hit test of the hollow capture frame with the given border width.
pub fn hollow_frame_hit_test(x: i32, y: i32, e: WindowEdges, border: i32) -> (r: HitTest)
    requires
        0 <= border,
        edges_ok(e, if border > 8 { border as int } else { 8 }),
        i32::MIN <= e.right - e.left <= i32::MAX,
    ensures
        r == hollow_frame_hit_spec(x as int, y as int, e, border as int),
{
    let margin = if border > 8 {
        border
    } else {
        8
    };
    let on_left = x >= e.left - 4 && x < e.left + margin;
    let on_right = x >= e.right - margin && x < e.right + 4;
    let on_top = y >= e.top - 4 && y < e.top + margin;
    let on_bottom = y >= e.bottom - margin && y < e.bottom + 4;
    if on_top && on_left {
        HitTest::TopLeft
    } else if on_top && on_right {
        HitTest::TopRight
    } else if on_bottom && on_left {
        HitTest::BottomLeft
    } else if on_bottom && on_right {
        HitTest::BottomRight
    } else if on_left {
        HitTest::Left
    } else if on_right {
        HitTest::Right
    } else if on_top {
        let width = e.right - e.left;
        let center_start = e.left + width / 3;
        let center_end = e.right - width / 3;
        if x >= center_start && x <= center_end {
            HitTest::Caption
        } else {
            HitTest::Top
        }
    } else if on_bottom {
        HitTest::Bottom
    } else {
        let in_border = (x >= e.left && x < e.left + border) || (x >= e.right - border && x < e.right)
            || (y >= e.top && y < e.top + border) || (y >= e.bottom - border && y < e.bottom);
        if in_border {
            HitTest::Caption
        } else {
            HitTest::Transparent
        }
    }
}

/// The cursor over a part of a frameless window, or `None` where the
/// system's own cursor stays.
pub open spec fn cursor_spec(h: HitTest) -> Option<CursorShape> {
    match h {
        HitTest::Caption => Some(CursorShape::SizeAll),
        HitTest::TopLeft | HitTest::BottomRight => Some(CursorShape::SizeNwse),
        HitTest::TopRight | HitTest::BottomLeft => Some(CursorShape::SizeNesw),
        HitTest::Left | HitTest::Right => Some(CursorShape::SizeWe),
        HitTest::Top | HitTest::Bottom => Some(CursorShape::SizeNs),
        _ => None,
    }
}

/// The cursor shown over a part of the selection overlay or hollow frame.
pub fn cursor_for_hit(h: HitTest) -> (r: Option<CursorShape>)
    ensures
        r == cursor_spec(h),
{
    match h {
        HitTest::Caption => Some(CursorShape::SizeAll),
        HitTest::TopLeft | HitTest::BottomRight => Some(CursorShape::SizeNwse),
        HitTest::TopRight | HitTest::BottomLeft => Some(CursorShape::SizeNesw),
        HitTest::Left | HitTest::Right => Some(CursorShape::SizeWe),
        HitTest::Top | HitTest::Bottom => Some(CursorShape::SizeNs),
        _ => None,
    }
}

/// The cursor shown over a part of the capture border window: as elsewhere,
/// and an arrow over every other part.
pub fn border_cursor_for_hit(h: HitTest) -> (r: CursorShape)
    ensures
        r == match cursor_spec(h) {
            Some(c) => c,
            None => CursorShape::Arrow,
        },
{
    match cursor_for_hit(h) {
        Some(c) => c,
        None => CursorShape::Arrow,
    }
}

/// Every corner of a frameless window resizes it diagonally: a point in the
/// 8x8 corner square of the window is a corner hit, whatever the window's
/// inside is.
pub proof fn lemma_corner_squares(e: WindowEdges, top_edge: HitTest, inside: HitTest, x: int, y: int)
    requires
        e.left + 16 <= e.right,
        e.top + 16 <= e.bottom,
    ensures
        in_band(x, e.left as int, e.left + 8) && in_band(y, e.top as int, e.top + 8) ==> edge_hit_spec(
            x,
            y,
            e,
            top_edge,
            inside,
        ) == HitTest::TopLeft,
        in_band(x, e.right - 8, e.right as int) && in_band(y, e.bottom - 8, e.bottom as int)
            ==> edge_hit_spec(x, y, e, top_edge, inside) == HitTest::BottomRight,
        in_band(x, e.right - 8, e.right as int) && in_band(y, e.top as int, e.top + 8)
            ==> edge_hit_spec(x, y, e, top_edge, inside) == HitTest::TopRight,
        in_band(x, e.left as int, e.left + 8) && in_band(y, e.bottom - 8, e.bottom as int)
            ==> edge_hit_spec(x, y, e, top_edge, inside) == HitTest::BottomLeft,
{
}

/// The inside of the capture border lets every click through to the
/// windows underneath, and only the border's own bands take the mouse.
pub proof fn lemma_capture_border_inside_click_through(e: WindowEdges, x: int, y: int)
    requires
        e.left + 8 <= x < e.right - 8,
        e.top + 8 <= y < e.bottom - 8,
    ensures
        edge_hit_spec(x, y, e, HitTest::Caption, HitTest::Transparent) == HitTest::Transparent,
        cursor_spec(HitTest::Transparent) is None,
{
}

/// Every resize part of a window shows a resize cursor along the direction
/// in which it resizes, and the caption shows the move cursor.
pub proof fn lemma_cursor_matches_part(h: HitTest)
    ensures
        (h == HitTest::Left || h == HitTest::Right) <==> cursor_spec(h) == Some(CursorShape::SizeWe),
        (h == HitTest::Top || h == HitTest::Bottom) <==> cursor_spec(h) == Some(CursorShape::SizeNs),
        h == HitTest::Caption <==> cursor_spec(h) == Some(CursorShape::SizeAll),
        (h == HitTest::Client || h == HitTest::Transparent) <==> cursor_spec(h) is None,
{
}

/// Each side of a frameless window resizes from that side: a point in the
/// 8-pixel band along one edge, clear of the bands of the two edges across
/// it, is a hit on that edge (the top edge gives the window's own top part);
/// a point in no band is the inside.
pub proof fn lemma_edge_bands(e: WindowEdges, top_edge: HitTest, inside: HitTest, x: int, y: int)
    requires
        e.left + 16 <= e.right,
        e.top + 16 <= e.bottom,
    ensures
        ({
            let left = in_band(x, e.left as int, e.left + 8);
            let right = in_band(x, e.right - 8, e.right as int);
            let top = in_band(y, e.top as int, e.top + 8);
            let bottom = in_band(y, e.bottom - 8, e.bottom as int);
            let r = edge_hit_spec(x, y, e, top_edge, inside);
            &&& left && !top && !bottom ==> r == HitTest::Left
            &&& right && !top && !bottom ==> r == HitTest::Right
            &&& top && !left && !right ==> r == top_edge
            &&& bottom && !left && !right ==> r == HitTest::Bottom
            &&& !left && !right && !top && !bottom ==> r == inside
        }),
{
}

/// The same for the main window, whose corners are 16-pixel squares and
/// whose edges are 8 pixels deep: a point in the band along one edge, clear
/// of the corner squares, is a hit on that edge.
pub proof fn lemma_main_window_edge_bands(e: WindowEdges, x: int, y: int)
    requires
        e.left + 32 <= e.right,
        e.top + 32 <= e.bottom,
    ensures
        ({
            let r = main_window_hit_spec(x, y, e);
            let clear_v = in_band(y, e.top + 16, e.bottom - 16);
            let clear_h = in_band(x, e.left + 16, e.right - 16);
            &&& in_band(x, e.left as int, e.left + 8) && clear_v ==> r == HitTest::Left
            &&& in_band(x, e.right - 8, e.right as int) && clear_v ==> r == HitTest::Right
            &&& in_band(y, e.top as int, e.top + 8) && clear_h ==> r == HitTest::Top
            &&& in_band(y, e.bottom - 8, e.bottom as int) && clear_h ==> r == HitTest::Bottom
            &&& in_band(x, e.left as int, e.left + 16) && in_band(y, e.top as int, e.top + 16) ==> r == HitTest::TopLeft
            &&& in_band(x, e.right - 16, e.right as int) && in_band(y, e.top as int, e.top + 16) ==> r
                == HitTest::TopRight
            &&& in_band(x, e.left as int, e.left + 16) && in_band(y, e.bottom - 16, e.bottom as int) ==> r
                == HitTest::BottomLeft
            &&& in_band(x, e.right - 16, e.right as int) && in_band(y, e.bottom - 16, e.bottom as int) ==> r
                == HitTest::BottomRight
            &&& in_band(y, e.top + 16, e.top + 48) && y < e.bottom - 16 && in_band(x, e.left + 8, e.right - 140)
                ==> r == HitTest::Caption
            &&& in_band(y, e.top + 16, e.top + 48) && y < e.bottom - 16 && in_band(x, e.right - 140, e.right - 8)
                && x >= e.left + 8 ==> r == HitTest::Client
            &&& in_band(y, e.top + 48, e.bottom - 16) && in_band(x, e.left + 8, e.right - 8) ==> r
                == HitTest::Client
        }),
{
}

/// The same for the hollow frame, whose grab bands are `max(border, 8)`
/// deep inside it and reach 4 pixels outside: a point in the band of one
/// edge, clear of the bands across it, resizes from that edge (the top band
/// drags the frame in its middle third), and each corner where two bands
/// meet resizes diagonally.
pub proof fn lemma_hollow_frame_edge_bands(e: WindowEdges, border: int, x: int, y: int)
    requires
        0 <= border,
        e.left + 2 * (if border > 8 { border } else { 8 }) <= e.right,
        e.top + 2 * (if border > 8 { border } else { 8 }) <= e.bottom,
    ensures
        ({
            let m = if border > 8 { border } else { 8 };
            let left = in_band(x, e.left - 4, e.left + m);
            let right = in_band(x, e.right - m, e.right + 4);
            let top = in_band(y, e.top - 4, e.top + m);
            let bottom = in_band(y, e.bottom - m, e.bottom + 4);
            let r = hollow_frame_hit_spec(x, y, e, border);
            &&& left && top ==> r == HitTest::TopLeft
            &&& right && top ==> r == HitTest::TopRight
            &&& left && bottom ==> r == HitTest::BottomLeft
            &&& right && bottom ==> r == HitTest::BottomRight
            &&& left && !top && !bottom ==> r == HitTest::Left
            &&& right && !top && !bottom ==> r == HitTest::Right
            &&& bottom && !left && !right ==> r == HitTest::Bottom
            &&& top && !left && !right ==> (r == HitTest::Top || r == HitTest::Caption)
        }),
{
}

} // verus!
