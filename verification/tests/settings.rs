use binocle::color::PixelStyle;
use binocle::settings::{BinocleSettings, DEFAULT_WIDTH};

#[test]
fn fresh_settings_hold_the_defaults() {
    let settings: BinocleSettings = BinocleSettings::new(1234, 1024);
    assert_eq!(settings.zoom, 1);
    assert_eq!(settings.width, 804);
    assert_eq!(settings.width, DEFAULT_WIDTH);
    assert_eq!(settings.offset, 0);
    assert_eq!(settings.offset_fine, 0);
    assert_eq!(settings.stride, 1);
    assert_eq!(settings.pixel_style, PixelStyle::Colorful);
    assert_eq!(settings.buffer_length, 1234);
    assert_eq!(settings.canvas_width, 1024);
    assert!(settings.is_valid());
}

#[test]
fn settings_are_invalid_without_zoom() {
    let mut settings: BinocleSettings = BinocleSettings::new(0, 0);
    settings.zoom = 0;
    assert!(!settings.is_valid());
}

#[test]
fn settings_are_invalid_without_width() {
    let mut settings: BinocleSettings = BinocleSettings::new(0, 0);
    settings.width = 0;
    assert!(!settings.is_valid());
}

#[test]
fn settings_are_invalid_without_stride() {
    let mut settings: BinocleSettings = BinocleSettings::new(0, 0);
    settings.stride = 0;
    assert!(!settings.is_valid());
}

#[test]
fn settings_stay_valid_whatever_the_offsets() {
    let mut settings: BinocleSettings = BinocleSettings::new(0, 0);
    settings.offset = usize::MAX;
    settings.offset_fine = usize::MAX;
    settings.zoom = 9;
    settings.width = 1;
    settings.stride = 3;
    assert!(settings.is_valid());
}
