use serumcv_video_capture::text::{str_eq, str_has_prefix, str_has_substring, str_le};
use serumcv_video_capture::config::{Framerate, SpecificResolution};

#[test]
fn string_equality_is_by_characters() {
    assert!(str_eq("media0", "media0"));
    assert!(!str_eq("media0", "media1"));
    assert!(!str_eq("media", "media0"));
    assert!(str_eq("", ""));
}

#[test]
fn prefix_test_matches_node_names() {
    assert!(str_has_prefix("media0", "media"));
    assert!(str_has_prefix("video12", "video"));
    assert!(!str_has_prefix("vid", "video"));
    assert!(!str_has_prefix("xmedia0", "media"));
    assert!(str_has_prefix("anything", ""));
}

#[test]
fn substring_test_finds_embedded_tokens() {
    assert!(str_has_substring("/sys/devices/usb1/media0", "media"));
    assert!(str_has_substring("video4linux", "video"));
    assert!(!str_has_substring("v4l", "video"));
    assert!(str_has_substring("abc", ""));
}

#[test]
fn lexicographic_order_is_by_scalar_value() {
    assert!(str_le("/dev/video0", "/dev/video1"));
    assert!(!str_le("/dev/video1", "/dev/video0"));
    assert!(str_le("/dev/video1", "/dev/video10"));
    assert!(str_le("", "a"));
    assert!(str_le("abc", "abc"));
}

#[test]
fn aspect_ratio_reduces_the_pixel_counts() {
    assert_eq!(SpecificResolution::new(1920, 1080).aspect_ratio(), Framerate::new(16, 9));
    assert_eq!(SpecificResolution::new(640, 480).aspect_ratio(), Framerate::new(4, 3));
}
