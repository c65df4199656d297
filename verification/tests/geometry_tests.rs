use rustframe::geometry::{
    capture_rect_inner, content_size, hollow_frame_region, inner_size_with_offset, move_border_rect,
    offscreen_position, position_beside_overlay, rect_from_edges, resize_border_rect, settings_window_size,
    CaptureRect, ResizeCorner,
};
use rustframe::hit_test::{
    border_cursor_for_hit, capture_border_hit_test, cursor_for_hit, hollow_frame_hit_test, main_window_hit_test,
    selection_hit_test, CursorShape, HitTest, WindowEdges,
};

#[test]
fn inner_rects_and_sizes() {
    assert_eq!(capture_rect_inner(10, 20, 300, 200, 5), CaptureRect { x: 15, y: 25, width: 290, height: 190 });
    assert_eq!(capture_rect_inner(0, 0, 6, 6, 5), CaptureRect { x: 5, y: 5, width: 0, height: 0 });
    assert_eq!(content_size(100, 10), 80);
    assert_eq!(content_size(10, 10), 1);
    assert_eq!(inner_size_with_offset(100, 50, 10), Some((80, 30)));
    assert_eq!(inner_size_with_offset(100, 20, 10), None);
}

#[test]
fn window_placement() {
    assert_eq!(position_beside_overlay(100, 50, 800), (920, 50));
    assert_eq!(offscreen_position(), (-9999, 100));
    assert_eq!(settings_window_size(400, 700), (560, 700));
    assert_eq!(rect_from_edges(10, 20, 110, 70), CaptureRect { x: 10, y: 20, width: 100, height: 50 });
    assert_eq!(hollow_frame_region(200, 100, 3), ((-8, -8, 208, 108), (3, 3, 197, 97)));
}

#[test]
fn resizing_follows_pointer_and_keeps_minimum() {
    assert_eq!(resize_border_rect(100, 100, 400, 300, 10, 20, ResizeCorner::BottomRight), (100, 100, 410, 320));
    assert_eq!(resize_border_rect(100, 100, 400, 300, 10, 20, ResizeCorner::TopLeft), (110, 120, 390, 280));
    // Shrinking below 100 pixels stops the dragged edge; the opposite edge stays.
    let (x, y, w, h) = resize_border_rect(100, 100, 150, 150, 100, 100, ResizeCorner::TopLeft);
    assert_eq!((w, h), (100, 100));
    assert_eq!((x + w, y + h), (250, 250));
    assert_eq!(resize_border_rect(0, 0, 150, 150, -80, 0, ResizeCorner::RightEdge), (0, 0, 100, 150));
    assert_eq!(resize_border_rect(0, 0, 150, 150, 5, 5, ResizeCorner::TopEdge), (0, 5, 150, 145));
    assert_eq!(move_border_rect(-5, 7, 10, -10), (5, -3));
}

#[test]
fn frame_hit_tests() {
    let e = WindowEdges { left: 0, top: 0, right: 300, bottom: 200 };
    assert_eq!(selection_hit_test(2, 2, e), HitTest::TopLeft);
    assert_eq!(selection_hit_test(150, 3, e), HitTest::Top);
    assert_eq!(selection_hit_test(150, 100, e), HitTest::Caption);
    assert_eq!(capture_border_hit_test(150, 3, e), HitTest::Caption);
    assert_eq!(capture_border_hit_test(150, 100, e), HitTest::Transparent);
    assert_eq!(capture_border_hit_test(299, 199, e), HitTest::BottomRight);
    assert_eq!(main_window_hit_test(15, 15, e), HitTest::TopLeft);
    assert_eq!(main_window_hit_test(100, 30, e), HitTest::Caption);
    assert_eq!(main_window_hit_test(250, 30, e), HitTest::Client);
    assert_eq!(main_window_hit_test(100, 100, e), HitTest::Client);
    assert_eq!(hollow_frame_hit_test(-2, 100, e, 3), HitTest::Left);
    assert_eq!(hollow_frame_hit_test(150, 0, e, 3), HitTest::Caption);
    assert_eq!(hollow_frame_hit_test(30, 0, e, 3), HitTest::Top);
    assert_eq!(hollow_frame_hit_test(150, 100, e, 3), HitTest::Transparent);
}

#[test]
fn cursors_match_parts() {
    assert_eq!(cursor_for_hit(HitTest::Caption), Some(CursorShape::SizeAll));
    assert_eq!(cursor_for_hit(HitTest::TopRight), Some(CursorShape::SizeNesw));
    assert_eq!(cursor_for_hit(HitTest::Client), None);
    assert_eq!(border_cursor_for_hit(HitTest::Transparent), CursorShape::Arrow);
    assert_eq!(border_cursor_for_hit(HitTest::Left), CursorShape::SizeWe);
}
