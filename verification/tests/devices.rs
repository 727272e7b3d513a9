use serumcv_video_capture::backends::v4l::normalize_device_list;

#[test]
fn enumeration_drops_repeated_aliases() {
    let raw = vec![
        String::from("/dev/video2"),
        String::from("/dev/video0"),
        String::from("/dev/video2"),
        String::from("/dev/video0"),
        String::from("/dev/video0"),
    ];
    let devices = normalize_device_list(&raw);
    assert_eq!(devices, vec![String::from("/dev/video0"), String::from("/dev/video2")]);
}

#[test]
fn enumeration_order_does_not_depend_on_input_order() {
    let one = vec![
        String::from("/dev/video10"),
        String::from("/dev/video1"),
        String::from("/dev/video0"),
    ];
    let two = vec![
        String::from("/dev/video0"),
        String::from("/dev/video10"),
        String::from("/dev/video1"),
        String::from("/dev/video0"),
    ];
    assert_eq!(normalize_device_list(&one), normalize_device_list(&two));
}

#[test]
fn normalizing_twice_changes_nothing() {
    let raw = vec![
        String::from("/dev/video1"),
        String::from("/dev/video1"),
        String::from("/dev/video0"),
    ];
    let once = normalize_device_list(&raw);
    assert_eq!(normalize_device_list(&once), once);
}

#[test]
fn enumeration_of_nothing_is_empty() {
    let none: Vec<String> = Vec::new();
    assert_eq!(normalize_device_list(&none), none);
}
