use rustframe::geometry::{resize_border_rect, ResizeCorner};
use rustframe::settings::{click_color_from_hex, Settings, SettingsMessage, SettingsTab as WindowTab};
use rustframe::settings_dialog::{dialog_result, show_settings_dialog, DialogSettings};
use rustframe::settings_session::{SettingsEvent, SettingsSession};
use rustframe::ui::capture_border::{is_rec_text_pixel, is_rec_text_pixel_scaled};
use rustframe::ui::settings::{CustomGeometry, DialogEvent, SettingsDialog, SettingsTab};

#[test]
fn hex_colour_needs_two_digits_per_byte() {
    let mut s = Settings::new_default(60);
    let before = s.border_color;
    assert!(!s.set_border_color_from_hex("+5+5+5"));
    assert_eq!(s.border_color, before);
    assert!(s.set_border_color_from_hex("#5082FF"));
    assert_eq!(s.border_color, [0x50, 0x82, 0xFF]);
    assert!(s.set_border_color_from_hex("0a0B0c"));
    assert_eq!(s.border_color, [10, 11, 12]);
    assert!(!s.set_border_color_from_hex("#12345"));
    assert!(!s.set_border_color_from_hex("#1234567"));
    assert_eq!(click_color_from_hex("+1+2+3+4", [1, 2, 3, 4]), [1, 2, 3, 4]);
    assert_eq!(click_color_from_hex("#FF000080", [1, 2, 3, 4]), [255, 0, 0, 128]);
}

#[test]
fn scaled_rec_text_lies_at_non_negative_pixels() {
    assert!(!is_rec_text_pixel_scaled(-1, 0, 2));
    assert!(!is_rec_text_pixel_scaled(0, -1, 2));
    for y in 0..7 {
        for x in 0..19 {
            assert_eq!(is_rec_text_pixel_scaled(2 * x, 2 * y, 2), is_rec_text_pixel(x, y));
            assert_eq!(is_rec_text_pixel_scaled(2 * x + 1, 2 * y + 1, 2), is_rec_text_pixel(x, y));
        }
    }
    assert!((0..19).any(|x| is_rec_text_pixel(x, 0)));
}

#[test]
fn resize_only_needs_the_dragged_edges_to_fit() {
    assert_eq!(
        resize_border_rect(i32::MAX, 0, 400, 300, 10, 20, ResizeCorner::BottomRight),
        (i32::MAX, 0, 410, 320)
    );
    assert_eq!(
        resize_border_rect(0, i32::MAX, 400, 300, -500, 5, ResizeCorner::RightEdge),
        (0, i32::MAX, 100, 300)
    );
}

fn dialog_settings() -> DialogSettings {
    DialogSettings { show_cursor: true, show_border: true, exclude_from_capture: true, border_width: 4 }
}

#[test]
fn dialog_save_reads_controls_and_clamps_width() {
    let cur = dialog_settings();
    let r = dialog_result(cur, Some(false), Some(false), false, Some(false), Some("25"), 1, 20);
    assert_eq!(
        r,
        DialogSettings { show_cursor: false, show_border: false, exclude_from_capture: true, border_width: 20 }
    );
    let r = dialog_result(cur, None, None, true, Some(false), Some("0"), 1, 20);
    assert_eq!(r.exclude_from_capture, false);
    assert_eq!(r.border_width, 1);
    assert_eq!(dialog_result(cur, None, None, true, None, Some("7"), 1, 20).border_width, 7);
    assert_eq!(dialog_result(cur, None, None, true, None, Some(""), 1, 20).border_width, 4);
    assert_eq!(dialog_result(cur, None, None, true, None, Some("wide"), 1, 20).border_width, 4);
    assert_eq!(dialog_result(cur, None, None, true, None, None, 1, 20), cur);
    assert_eq!(show_settings_dialog(&cur, true), None);
}

fn geometry() -> CustomGeometry {
    CustomGeometry {
        size_is_custom: true,
        position_is_custom: false,
        custom_width: 800,
        custom_height: 600,
        custom_x: 100,
        custom_y: 100,
    }
}

#[test]
fn dialog_events_apply_only_valid_saves() {
    let g = geometry();
    let mut applied = g;
    let mut d = SettingsDialog::new(g, 60);
    let r = d.handle_event(DialogEvent::Save, &mut applied);
    assert!(!r.applied && !r.cancelled && !d.is_open);
    d.open(g);
    d.handle_event(DialogEvent::SelectTab(SettingsTab::Capture), &mut applied);
    assert_eq!(d.current_tab, SettingsTab::Capture);
    d.custom_width_str = "50".to_string();
    let r = d.handle_event(DialogEvent::Save, &mut applied);
    assert!(!r.applied && d.is_open && d.validation_error.is_some());
    assert_eq!(applied, g);
    d.custom_width_str = "1024".to_string();
    let r = d.handle_event(DialogEvent::Save, &mut applied);
    assert!(r.applied && !d.is_open);
    assert_eq!(applied.custom_width, 1024);
    d.open(applied);
    let r = d.handle_event(DialogEvent::Escape, &mut applied);
    assert!(r.cancelled && !d.is_open);
    d.open(applied);
    let mut reset = g;
    reset.custom_width = 640;
    d.handle_event(DialogEvent::ResetToDefaults(reset), &mut applied);
    assert_eq!(d.custom_width_str, "640");
    let r = d.handle_event(DialogEvent::Cancel, &mut applied);
    assert!(r.cancelled && !d.is_open);
    assert_eq!(applied.custom_width, 1024);
}

#[test]
fn settings_session_edits_pending_until_apply() {
    let base = Settings::new_default(60);
    let mut s = SettingsSession::new(base);
    s.handle(&SettingsEvent::Edit(SettingsMessage::SetCustomWidth("1000".to_string())), 60, 1920, 1080);
    assert_eq!(s.temp_settings.custom_width, 1000);
    assert_eq!(s.settings.custom_width, base.custom_width);
    s.handle(&SettingsEvent::SwitchTab(WindowTab::Advanced), 60, 1920, 1080);
    assert_eq!(s.current_tab, WindowTab::Advanced);
    s.handle(&SettingsEvent::ToggleBorderColorPicker, 60, 1920, 1080);
    assert!(s.show_border_color_picker && !s.show_click_color_picker);
    s.handle(&SettingsEvent::ToggleClickColorPicker, 60, 1920, 1080);
    assert!(!s.show_border_color_picker && s.show_click_color_picker);
    s.handle(&SettingsEvent::ClickColorPickerSubmit([9, 8, 7, 6]), 60, 1920, 1080);
    assert!(!s.show_click_color_picker);
    assert_eq!(s.temp_settings.click_highlight_color, [9, 8, 7, 6]);
    s.handle(&SettingsEvent::BorderColorPickerSubmit([1, 2, 3]), 60, 1920, 1080);
    assert_eq!(s.temp_settings.border_color, [1, 2, 3]);
    assert_eq!(s.settings.border_color, base.border_color);
    s.handle(&SettingsEvent::Apply, 60, 1920, 1080);
    assert_eq!(s.settings.custom_width, 1000);
    assert_eq!(s.settings.border_color, [1, 2, 3]);
    s.handle(&SettingsEvent::Edit(SettingsMessage::SetCustomWidth("1200".to_string())), 60, 1920, 1080);
    s.handle(&SettingsEvent::Open(144), 60, 1920, 1080);
    assert_eq!(s.temp_settings.custom_width, 1000);
    assert_eq!(s.temp_settings.monitor_hz, 144);
    assert_eq!(s.settings.monitor_hz, base.monitor_hz);
    assert_eq!(s.current_tab, WindowTab::General);
}
