use svgtail::{blank_frame, to_display_buffer, unpremultiply_pixel, BACKGROUND};

#[test]
fn opaque_pixel_keeps_its_colour() {
    assert_eq!(unpremultiply_pixel(0x12, 0x34, 0x56, 255), 0x0012_3456);
    assert_eq!(unpremultiply_pixel(255, 255, 255, 255), 0x00FF_FFFF);
}

#[test]
fn transparent_pixel_is_background() {
    assert_eq!(unpremultiply_pixel(0, 0, 0, 0), BACKGROUND);
    assert_eq!(unpremultiply_pixel(200, 10, 99, 0), 0x0033_3333);
}

#[test]
fn half_alpha_is_unpremultiplied() {
    // 64 * 255 / 128 = 127
    assert_eq!(unpremultiply_pixel(64, 0, 128, 128), (127 << 16) | 255);
}

#[test]
fn overshoot_is_clamped() {
    // 200 * 255 / 100 = 510, clamped to 255
    assert_eq!(unpremultiply_pixel(200, 100, 50, 100), (255 << 16) | (255 << 8) | 127);
}

#[test]
fn buffer_conversion_ignores_partial_pixel() {
    let data = vec![1, 2, 3, 255, 9, 9, 9, 0, 7, 7];
    assert_eq!(to_display_buffer(&data), vec![0x0001_0203, BACKGROUND]);
    assert!(to_display_buffer(&Vec::new()).is_empty());
}

#[test]
fn blank_frame_is_background() {
    assert_eq!(blank_frame(3), vec![BACKGROUND; 3]);
    assert!(blank_frame(0).is_empty());
}
