use rustframe::settings::{
    apply_settings_message, get_monitor_refresh_rate, match_standard_refresh_rate, shows_monitor_preset,
    PositionPreset, Settings, SettingsMessage, SizePreset,
};
use rustframe::single_instance::{lock_file_text, read_existing_pid};

#[test]
fn refresh_rates_snap_to_standard() {
    assert_eq!(match_standard_refresh_rate(59), 60);
    assert_eq!(match_standard_refresh_rate(57), 60);
    assert_eq!(match_standard_refresh_rate(56), 56);
    assert_eq!(match_standard_refresh_rate(143), 144);
    assert_eq!(match_standard_refresh_rate(136), 144);
    assert_eq!(match_standard_refresh_rate(135), 135);
    assert_eq!(match_standard_refresh_rate(29), 30);
    assert_eq!(match_standard_refresh_rate(10), 30);
    assert_eq!(match_standard_refresh_rate(1000), 1000);
    assert_eq!(get_monitor_refresh_rate(None), 60);
    assert_eq!(get_monitor_refresh_rate(Some(239)), 240);
    assert!(!shows_monitor_preset(144));
    assert!(shows_monitor_preset(165));
}

#[test]
fn settings_messages() {
    let mut s = Settings::new_default(144);
    apply_settings_message(&mut s, &SettingsMessage::SetCustomWidth("100".to_string()), 144, 1920, 1080);
    assert_eq!(s.custom_width, 320);
    apply_settings_message(&mut s, &SettingsMessage::SetCustomWidth("x".to_string()), 144, 1920, 1080);
    assert_eq!(s.custom_width, 320);
    apply_settings_message(&mut s, &SettingsMessage::SetTargetFps(500), 144, 1920, 1080);
    assert_eq!(s.target_fps, 144);
    apply_settings_message(&mut s, &SettingsMessage::SetSizePreset(SizePreset::W720p), 144, 1920, 1080);
    assert_eq!((s.custom_width, s.custom_height), (1280, 720));
    apply_settings_message(&mut s, &SettingsMessage::SetPositionPreset(PositionPreset::Center), 144, 1920, 1080);
    assert_eq!((s.custom_x, s.custom_y), (320, 180));
    apply_settings_message(&mut s, &SettingsMessage::SetPositionPreset(PositionPreset::BottomRight), 144, 1920, 1080);
    assert_eq!((s.custom_x, s.custom_y), (1920 - 1280 - 50, 1080 - 720 - 50));
    apply_settings_message(&mut s, &SettingsMessage::SetCustomX("-7".to_string()), 144, 1920, 1080);
    assert_eq!((s.custom_x, s.position_preset), (-7, PositionPreset::Custom));
    apply_settings_message(&mut s, &SettingsMessage::SetBorderColorHex("#0A0b0C".to_string()), 144, 1920, 1080);
    assert_eq!(s.border_color, [10, 11, 12]);
    assert_eq!(s.border_color_hex(), "#0A0B0C");
    apply_settings_message(&mut s, &SettingsMessage::SetClickHighlightHex("##11223344".to_string()), 144, 1920, 1080);
    assert_eq!(s.click_highlight_color, [0x11, 0x22, 0x33, 0x44]);
}

#[test]
fn lock_file_round_trip() {
    for pid in [0u32, 1, 4321, u32::MAX] {
        assert_eq!(read_existing_pid(&lock_file_text(pid)), Some(pid));
    }
    assert_eq!(read_existing_pid(" 12\n"), Some(12));
    assert_eq!(read_existing_pid("12 13"), None);
    assert_eq!(read_existing_pid(""), None);
}
