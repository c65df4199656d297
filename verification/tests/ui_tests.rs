use rustframe::ui::selection_overlay::{overlay_pixel, render_overlay_pixels, OverlayColors, OverlayStyle};
use rustframe::ui::border_frame::{direction_for_part, drag_request, frame_part, DragRequest, EdgeProximity, FramePart};
use rustframe::ui::capture_border::{border_pixel, render_border_pixels, BorderColors, BorderStyle};
use rustframe::ui::destination::{bgra_to_rgba, test_pattern_pixels, DestinationState, ShownContent};
use rustframe::ui::overlay::{frame_colors, overlay_response, pill_colors, status_pills, OverlayResponse, OverlayUi};
use rustframe::ui::settings::{CustomGeometry, SettingsDialog, SettingsResponse, SettingsTab};
use rustframe::ui::theme::{RustFrameColors, RustFrameTheme};
use rustframe::geometry::ResizeCorner;
use rustframe::platform::windows::ResizeDirection;

#[test]
fn destination_capture_controls() {
    let mut d = DestinationState::new();
    d.request_stop();
    assert!(!d.take_stop_request());
    d.set_capturing(true);
    d.request_stop();
    assert!(d.take_stop_request());
    assert!(!d.take_stop_request());
    assert_eq!(d.begin_show(), ShownContent::TestPattern);
    assert_eq!(d.frame_size, (320, 240));
    assert_eq!(d.frame_count, 1);
    let rgba = d.update_frame(&vec![1, 2, 3, 4, 5, 6, 7, 8, 9], 2, 1);
    assert_eq!(rgba, vec![3, 2, 1, 4, 7, 6, 5, 8]);
    assert_eq!(d.frame_count, 2);
    assert_eq!(d.begin_show(), ShownContent::Frame);
    assert_eq!(d.frame_count, 2);
    d.clear_frame();
    d.set_capturing(false);
    assert_eq!(d.begin_show(), ShownContent::Placeholder);
    d.toggle_debug();
    assert!(d.show_debug);
}

#[test]
fn destination_click_highlights() {
    let mut d = DestinationState::new();
    d.add_click_highlights(vec![(10, 10, 1000, true), (500, 10, 1200, false), (60, 70, 1400, true)], [1, 2, 3, 4]);
    assert!(d.visible_highlights().is_empty());
    d.set_capture_region(0, 0, 100, 100);
    assert!(d.highlight_offsets_fit());
    let shown = d.visible_highlights();
    assert_eq!(shown.iter().map(|(_, o)| *o).collect::<Vec<_>>(), vec![(10, 10), (60, 70)]);
    assert_eq!(shown[0].0.color, [1, 2, 3, 4]);
    d.update_click_highlights(1600);
    assert_eq!(d.click_highlights.iter().map(|h| h.x).collect::<Vec<_>>(), vec![500, 60]);
    d.update_click_highlights(1700);
    assert_eq!(d.click_highlights.iter().map(|h| h.x).collect::<Vec<_>>(), vec![60]);
    d.set_click_highlight_duration(2000);
    d.update_click_highlights(3000);
    assert_eq!(d.click_highlights.len(), 1);
    d.clear_click_highlights();
    assert!(d.click_highlights.is_empty());
    let mut far = DestinationState::new();
    far.add_click_highlights(vec![(i32::MAX, 0, 0, true)], [0; 4]);
    far.set_capture_region(-1, 0, 10, 10);
    assert!(!far.highlight_offsets_fit());
}

#[test]
fn pixel_conversion_and_test_pattern() {
    assert_eq!(bgra_to_rgba(&vec![10, 20, 30, 40, 50]), vec![30, 20, 10, 40]);
    let twice = bgra_to_rgba(&bgra_to_rgba(&vec![1, 2, 3, 4, 5, 6, 7, 8]));
    assert_eq!(twice, vec![1, 2, 3, 4, 5, 6, 7, 8]);
    let mut waves = vec![0i32; 320];
    waves[0] = -20;
    waves[45] = 7;
    waves[300] = 20;
    let p = test_pattern_pixels(&waves);
    assert_eq!(p.len(), 320 * 240 * 4);
    assert_eq!(&p[0..4], &[235, 255, 255, 255]);
    assert_eq!(&p[45 * 4..45 * 4 + 4], &[255, 255, 0, 255]);
    assert_eq!(&p[100 * 4..100 * 4 + 4], &[0, 255, 255, 255]);
    assert_eq!(&p[300 * 4..300 * 4 + 4], &[20, 0, 0, 255]);
    let row5 = 5 * 320 * 4;
    assert_eq!(&p[row5 + 160 * 4..row5 + 160 * 4 + 4], &[255, 0, 255, 255]);
}

#[test]
fn settings_dialog_tabs_and_validation() {
    assert_eq!(SettingsTab::all().len(), 4);
    assert_eq!(SettingsTab::Window.name(), "Window");
    assert_eq!(SettingsTab::Capture.icon(), "🎥");
    let r = SettingsResponse::default();
    assert!(!r.applied && !r.cancelled);
    let g = CustomGeometry {
        size_is_custom: true,
        position_is_custom: true,
        custom_width: 800,
        custom_height: 600,
        custom_x: 100,
        custom_y: -100,
    };
    let mut d = SettingsDialog::new(g, 60);
    assert_eq!(d.custom_width_str, "800");
    d.open(g);
    assert!(d.is_open);
    assert_eq!(d.custom_y_str, "-100");
    assert!(d.validate_and_apply());
    assert_eq!(d.temp, g);
    d.custom_width_str = "1024".to_string();
    d.custom_height_str = "99".to_string();
    assert!(!d.validate_and_apply());
    assert_eq!(d.validation_error.as_deref(), Some("Height must be between 100 and 4320"));
    assert_eq!(d.temp.custom_width, 1024);
    d.custom_height_str = "4320".to_string();
    d.custom_x_str = "-10001".to_string();
    assert!(!d.validate_and_apply());
    assert_eq!(d.validation_error.as_deref(), Some("X must be between -10000 and 10000"));
    d.custom_x_str = "+5".to_string();
    d.custom_y_str = "y".to_string();
    assert!(!d.validate_and_apply());
    assert_eq!(d.validation_error.as_deref(), Some("Y must be between -10000 and 10000"));
    assert_eq!(d.temp.custom_x, 5);
    d.custom_width_str = "7681".to_string();
    assert!(!d.validate_and_apply());
    assert_eq!(d.validation_error.as_deref(), Some("Width must be between 100 and 7680"));
    d.temp.size_is_custom = false;
    d.temp.position_is_custom = false;
    assert!(d.validate_and_apply());
    assert_eq!(d.validation_error, None);
    d.sync_from_temp_settings();
    assert_eq!(d.custom_width_str, "1024");
    d.close();
    assert!(!d.is_open);
}

#[test]
fn overlay_and_theme() {
    let _ = OverlayUi::new();
    let r = OverlayResponse::default();
    assert!(!r.start_capture && !r.cancel && !r.open_settings);
    let r = overlay_response(false, true, true);
    assert!(r.start_capture && r.open_settings);
    let r = overlay_response(true, true, true);
    assert!(!r.start_capture && !r.open_settings);
    let pills = status_pills(true, false, true);
    assert_eq!(pills.iter().map(|p| (p.label, p.enabled)).collect::<Vec<_>>(), vec![
        ("Cursor", true),
        ("Border", false),
        ("Clicks", true)
    ]);
    assert_eq!(status_pills(false, false, false).len(), 2);
    assert_eq!(pill_colors(true).0, [40, 167, 69, 200]);
    assert_eq!(pill_colors(false).1, [150, 150, 150, 255]);
    assert_eq!(frame_colors(false), (RustFrameColors::BORDER, RustFrameColors::BLUE_LIGHT));
    assert_eq!(RustFrameTheme::border_color(true), [255, 154, 60, 255]);
    assert_eq!(RustFrameTheme::action_button_color(true), RustFrameColors::STOP_RED);
    assert_eq!(RustFrameTheme::action_button_color(false), [0, 255, 122, 255]);
    assert_eq!(RustFrameTheme::status_color(false), RustFrameColors::TEXT_RED);
}

fn prox(l: bool, r: bool, t: bool, b: bool, le: bool, re: bool, te: bool, be: bool) -> EdgeProximity {
    EdgeProximity { left_c: l, right_c: r, top_c: t, bottom_c: b, left_e: le, right_e: re, top_e: te, bottom_e: be }
}

#[test]
fn border_frame_parts_and_drags() {
    assert_eq!(frame_part(prox(true, false, true, false, true, false, true, false)), FramePart::TopLeft);
    assert_eq!(frame_part(prox(false, true, false, true, false, true, false, true)), FramePart::BottomRight);
    assert_eq!(frame_part(prox(true, false, false, false, true, false, true, false)), FramePart::TopEdge);
    assert_eq!(frame_part(prox(false, false, false, false, true, false, false, false)), FramePart::LeftEdge);
    assert_eq!(frame_part(prox(false, false, false, false, false, false, false, false)), FramePart::Inside);
    assert_eq!(direction_for_part(FramePart::TopEdge), ResizeDirection::Move);
    assert_eq!(direction_for_part(FramePart::Inside), ResizeDirection::Idle);
    assert_eq!(drag_request(FramePart::TopEdge, true), Some(DragRequest::Move));
    assert_eq!(drag_request(FramePart::LeftEdge, true), Some(DragRequest::Resize(ResizeCorner::LeftEdge)));
    assert_eq!(drag_request(FramePart::BottomLeft, false), None);
    assert_eq!(drag_request(FramePart::Inside, true), None);
}

#[test]
fn capture_border_pixels() {
    let style = BorderStyle::default();
    let colors = BorderColors::default();
    assert_eq!(border_pixel(&style, &colors, 400, 300, 200, 150), colors.transparent);
    assert_eq!(border_pixel(&style, &colors, 400, 300, 200, 2), colors.border);
    assert_eq!(border_pixel(&style, &colors, 400, 300, 1, 1), colors.corner);
    let from = BorderColors::from_settings([0x11, 0x22, 0x33, 0x44]);
    assert_eq!(from.border, 0x44112233);
    assert_eq!(BorderColors::from_settings([255, 0, 0, 255]).border, 0xFFFF0000);
    let mut pixels = vec![7u32; 50 * 40 + 3];
    render_border_pixels(&mut pixels, 50, 40, &style, &colors);
    assert_eq!(pixels[20 * 50 + 25], colors.transparent);
    assert_eq!(pixels[0], colors.corner);
    assert_eq!(pixels[50 * 40], 7);
}

#[test]
fn selection_overlay_pixels() {
    let s = OverlayStyle { border_width: 3, corner_size: 20, text_box_width: 100, text_box_height: 40, text_box_border: 2 };
    let c = OverlayColors { corner: 1, border: 2, text_border: 3, text_bg: 4, fill: 5 };
    // A 200 x 100 window: the text box spans x 50..150, y 30..70.
    assert_eq!(overlay_pixel(&s, &c, 200, 100, 0, 0), 1);
    assert_eq!(overlay_pixel(&s, &c, 200, 100, 5, 1), 1);
    assert_eq!(overlay_pixel(&s, &c, 200, 100, 100, 1), 2);
    assert_eq!(overlay_pixel(&s, &c, 200, 100, 50, 50), 3);
    assert_eq!(overlay_pixel(&s, &c, 200, 100, 100, 50), 4);
    assert_eq!(overlay_pixel(&s, &c, 200, 100, 20, 50), 5);
    // A small window fits the text box 10 pixels inside.
    assert_eq!(overlay_pixel(&s, &c, 60, 40, 30, 20), 4);
    assert_eq!(overlay_pixel(&s, &c, 60, 40, 10, 20), 3);
    let mut px = vec![0u32; 60 * 40 + 1];
    render_overlay_pixels(&mut px, 60, 40, &s, &c);
    assert_eq!(px[20 * 60 + 30], 4);
    assert_eq!(px[60 * 40], 0);
}
