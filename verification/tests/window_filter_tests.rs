use rustframe::window_filter::{WindowFilterMode, WindowFilterSettings, WindowIdentifier};

#[test]
fn test_preview_window_marker() {
    let preview = WindowIdentifier::preview_window();
    assert!(preview.is_preview_window());

    let normal = WindowIdentifier::new("com.app".to_string(), "Window 1".to_string());
    assert!(!normal.is_preview_window());
}

#[test]
fn test_auto_exclude_preview() {
    let mut settings = WindowFilterSettings::default();
    settings.mode = WindowFilterMode::ExcludeList;

    let preview = WindowIdentifier::preview_window();
    let chrome = WindowIdentifier::new("com.google.Chrome".to_string(), "Tab 1".to_string());

    let exclusions = settings.get_exclusions(Some(&preview));
    assert!(exclusions.contains(&preview));
    assert!(!exclusions.contains(&chrome));
}

#[test]
fn test_dev_mode_override() {
    let mut settings = WindowFilterSettings::default();
    settings.mode = WindowFilterMode::ExcludeList;
    settings.dev_mode = true;

    let preview = WindowIdentifier::preview_window();
    let exclusions = settings.get_exclusions(Some(&preview));
    assert!(!exclusions.contains(&preview));
}

#[test]
fn preview_is_never_captured_in_exclude_mode() {
    let settings = WindowFilterSettings::default();
    let preview = WindowIdentifier::preview_window();
    assert!(!settings.should_capture(&preview, Some(&preview)));
    let other = WindowIdentifier::app_window("com.other", "Doc");
    assert!(settings.should_capture(&other, Some(&preview)));
}

#[test]
fn added_window_is_excluded_once_and_removal_restores() {
    let mut settings = WindowFilterSettings::default();
    let zoom = WindowIdentifier::app_all_windows("us.zoom.xos");
    settings.add_exclusion(zoom.clone());
    settings.add_exclusion(zoom.clone());
    assert_eq!(settings.excluded_windows.len(), 1);
    assert!(!settings.should_capture(&zoom, None));
    let removed = settings.remove_exclusion(&zoom);
    assert!(removed.should_capture(&zoom, None));
    assert_eq!(removed.excluded_windows.len(), 0);
    assert_eq!(settings.excluded_windows.len(), 1);
}

#[test]
fn exclude_helpers_and_counts() {
    let mut settings = WindowFilterSettings::default();
    settings.exclude_app("com.slack");
    settings.exclude_app_window("com.chrome", "Secret");
    settings.add_exclusion(WindowIdentifier::preview_window());
    assert_eq!(settings.manual_exclusion_count(), 2);
    assert!(settings.excluded_windows.contains(&WindowIdentifier::app_window("com.chrome", "Secret")));
    assert!(settings.excluded_windows.contains(&WindowIdentifier::new("com.slack".to_string(), String::new())));
    settings.clear_manual_exclusions();
    assert_eq!(settings.manual_exclusion_count(), 0);
    assert!(settings.excluded_windows.is_empty());
}

#[test]
fn capture_all_and_include_only_modes() {
    let mut settings = WindowFilterSettings::default();
    let w = WindowIdentifier::window_by_name("Notes");
    settings.add_exclusion(w.clone());
    settings.mode = WindowFilterMode::CaptureAll;
    assert!(settings.should_capture(&w, None));
    settings.mode = WindowFilterMode::IncludeOnly;
    assert!(!settings.should_capture(&w, None));
    settings.included_windows.push(w.clone());
    assert!(settings.should_capture(&w, None));
}

#[test]
fn preview_not_duplicated_in_exclusions() {
    let mut settings = WindowFilterSettings::default();
    let preview = WindowIdentifier::preview_window();
    settings.add_exclusion(preview.clone());
    let exclusions = settings.get_exclusions(Some(&preview));
    assert_eq!(exclusions.len(), 1);
    let dev = WindowFilterSettings::with_dev_mode(true);
    assert!(dev.dev_mode);
    assert!(dev.get_exclusions(Some(&preview)).is_empty());
}
