use rustframe::platform_utils::{
    bgr_to_rgba, calculate_corner_thickness, calculate_inner_rect, rgba_to_bgr, validate_window_size,
    MIN_CORNER_THICKNESS,
};

#[test]
fn test_color_conversion() {
    let rgba = [255, 128, 64, 200];
    let bgr = rgba_to_bgr(rgba);
    assert_eq!(bgr, 0x4080FF);

    let converted = bgr_to_rgba(bgr);
    assert_eq!(rgba[0], converted[0]);
    assert_eq!(rgba[1], converted[1]);
    assert_eq!(rgba[2], converted[2]);
    assert_eq!(255, converted[3]);
}

#[test]
fn test_inner_rect() {
    let (ix, iy, iw, ih) = calculate_inner_rect(100, 100, 200, 150, 4);
    assert_eq!(ix, 104);
    assert_eq!(iy, 104);
    assert_eq!(iw, 192);
    assert_eq!(ih, 142);
}

#[test]
fn test_inner_rect_minimum() {
    let (_, _, iw, ih) = calculate_inner_rect(0, 0, 10, 10, 20);
    assert_eq!(iw, 0);
    assert_eq!(ih, 0);
}

#[test]
fn test_window_size_validation() {
    assert!(validate_window_size(100, 100).is_ok());
    assert!(validate_window_size(7680, 4320).is_ok());
    assert!(validate_window_size(49, 100).is_err());
    assert!(validate_window_size(100, 49).is_err());
    assert!(validate_window_size(7681, 100).is_err());
    assert!(validate_window_size(100, 4321).is_err());
}

#[test]
fn test_corner_thickness() {
    assert_eq!(calculate_corner_thickness(2), MIN_CORNER_THICKNESS);
    assert_eq!(calculate_corner_thickness(4), 8);
    assert_eq!(calculate_corner_thickness(10), 20);
}

#[test]
fn validation_messages_name_the_size() {
    assert_eq!(
        validate_window_size(49, 100),
        Err("Window too small: 49x100 (minimum 50x50)".to_string())
    );
    assert_eq!(
        validate_window_size(-3, 7000),
        Err("Window too small: -3x7000 (minimum 50x50)".to_string())
    );
    assert_eq!(
        validate_window_size(7681, 100),
        Err("Window too large: 7681x100 (maximum 7680x4320)".to_string())
    );
    assert_eq!(validate_window_size(50, 50), Ok(()));
}

#[test]
fn bgr_round_trip_keeps_channels() {
    for &c in &[[0u8, 0, 0, 0], [1, 2, 3, 4], [255, 255, 255, 255], [18, 52, 86, 120]] {
        let back = bgr_to_rgba(rgba_to_bgr(c));
        assert_eq!([back[0], back[1], back[2]], [c[0], c[1], c[2]]);
        assert_eq!(back[3], 255);
    }
    assert_eq!(bgr_to_rgba(0x00FF8040), [0x40, 0x80, 0xFF, 255]);
}

#[test]
fn inner_rect_centred_and_corner_minimum() {
    assert_eq!(calculate_inner_rect(-10, 5, 30, 31, 3), (-7, 8, 24, 25));
    assert_eq!(calculate_corner_thickness(0), 8);
    assert_eq!(calculate_corner_thickness(-5), 8);
    assert_eq!(calculate_corner_thickness(5), 10);
}
