use rustframe::platform_info::OsKind;
use rustframe::rec_indicator::{
    font_size, indicator_dimensions, rec_indicator_disabled_by_env, rec_paint_layout, should_create_indicator,
    RecIndicatorState,
};

#[test]
fn sizes_by_name() {
    assert_eq!(indicator_dimensions("small"), (50, 18));
    assert_eq!(indicator_dimensions("large"), (90, 30));
    assert_eq!(indicator_dimensions("medium"), (70, 24));
    assert_eq!(indicator_dimensions("Small"), (70, 24));
    assert_eq!(font_size("small"), 12);
    assert_eq!(font_size("large"), 20);
    assert_eq!(font_size("huge"), 16);
}

#[test]
fn environment_switch() {
    assert!(!rec_indicator_disabled_by_env(None));
    for v in ["1", "true", " TRUE ", "Yes", "on\n"] {
        assert!(rec_indicator_disabled_by_env(Some(v)), "{v:?}");
    }
    for v in ["", "0", "off", "no", "tru e"] {
        assert!(!rec_indicator_disabled_by_env(Some(v)), "{v:?}");
    }
    assert!(should_create_indicator(OsKind::Windows, None));
    assert!(!should_create_indicator(OsKind::MacOs, Some("yes")));
    assert!(!should_create_indicator(OsKind::Linux, None));
}

#[test]
fn placement_in_top_right_corner() {
    let mut state = RecIndicatorState::new();
    assert!(!state.visible);
    let p = state.update_position(100, 200, 800, 4);
    assert_eq!((p.x, p.y, p.width, p.height), (100 + 800 - 70 - 4 - 5, 209, 70, 24));
    assert!(state.visible);
    assert_eq!(state.position, (821, 209));
    state.hide_indicator();
    assert!(!state.visible);
    assert!(!state.set_size("large"));
    let p = state.show(900, 200, 4);
    assert_eq!((p.x, p.y, p.width, p.height), (900 - 90 - 4 - 5, 209, 90, 30));
    assert!(state.set_size("small"));
    assert_eq!(state.get_indicator_dimensions(), (50, 18));
    assert_eq!(state.get_font_size(), 12);
}

#[test]
fn paint_layout() {
    let l = rec_paint_layout(16, 70, 24);
    assert_eq!(l.inner, (2, 2, 68, 22));
    assert_eq!(l.dot, (6, 6, 18, 18));
    assert_eq!((l.text_x, l.text_y), (22, 4));
    let l = rec_paint_layout(20, 90, 17);
    assert_eq!(l.dot.1, 0);
    assert_eq!(l.text_y, -1);
}
