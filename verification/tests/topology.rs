use serumcv_video_capture::backends::v4l::source::{
    classify_working_path, confirm_source_nodes, device_dir_for_video, pair_control_node,
    pair_streaming_node, working_path, LinkStatus, ResolveDirective, SysDirEntry,
};
use serumcv_video_capture::error::VideoCaptureConnectionError;
use serumcv_video_capture::text::{file_name_of, split_path_segments};

#[test]
fn file_name_takes_final_segment() {
    assert_eq!(file_name_of("/dev/video0"), Some(String::from("video0")));
    assert_eq!(file_name_of("/dev/video0/"), Some(String::from("video0")));
    assert_eq!(file_name_of("media7"), Some(String::from("media7")));
    assert_eq!(file_name_of("/"), None);
    assert_eq!(file_name_of(""), None);
    assert_eq!(file_name_of("/dev/.."), None);
}

#[test]
fn split_collapses_repeated_slashes() {
    let segs = split_path_segments("/sys//class/video4linux/");
    assert_eq!(segs, vec!["sys".to_string(), "class".to_string(), "video4linux".to_string()]);
}

#[test]
fn working_path_follows_symlink() {
    let user = String::from("/dev/my-cam");
    let link = LinkStatus::Resolved(String::from("/dev/video2"));
    assert_eq!(working_path(&user, &link), Ok(String::from("/dev/video2")));
}

#[test]
fn working_path_keeps_plain_file() {
    let user = String::from("/dev/video2");
    assert_eq!(working_path(&user, &LinkStatus::NotSymlink), Ok(user.clone()));
}

#[test]
fn working_path_missing_node_is_missing_source() {
    // a source that does not exist is the distinct missing-hardware
    // error, not a generic lookup fault
    let user = String::from("/dev/video9");
    let r = working_path(&user, &LinkStatus::Missing);
    assert_eq!(
        r,
        Err(VideoCaptureConnectionError::SourceDoesntExist {
            source: String::from("/dev/video9"),
        })
    );
}

#[test]
fn working_path_inaccessible_names_cause() {
    let user = String::from("/dev/video9");
    let r = working_path(&user, &LinkStatus::Inaccessible(String::from("permission denied")));
    match r {
        Err(VideoCaptureConnectionError::CouldntGetDeviceInfo { err_msg, .. }) => {
            assert!(err_msg.ends_with("permission denied"));
        },
        other => panic!("unexpected result: {other:?}"),
    }
}

#[test]
fn classify_media_name_pairs_streaming() {
    let user = String::from("/dev/media0");
    match classify_working_path(&user, user.clone()) {
        ResolveDirective::PairStreaming { media } => assert_eq!(media, "/dev/media0"),
        other => panic!("unexpected directive: {other:?}"),
    }
}

#[test]
fn classify_video_name_pairs_control() {
    let user = String::from("/dev/video1");
    match classify_working_path(&user, user.clone()) {
        ResolveDirective::PairControl { video } => assert_eq!(video, "/dev/video1"),
        other => panic!("unexpected directive: {other:?}"),
    }
}

#[test]
fn classify_other_name_fails() {
    let user = String::from("/dev/null");
    match classify_working_path(&user, user.clone()) {
        ResolveDirective::Fail(VideoCaptureConnectionError::CouldntGetDeviceInfo {
            err_msg,
            ..
        }) => assert_eq!(err_msg, "Didn't"),
        other => panic!("unexpected directive: {other:?}"),
    }
}

#[test]
fn classify_directory_like_path_fails() {
    let user = String::from("/");
    match classify_working_path(&user, user.clone()) {
        ResolveDirective::Fail(VideoCaptureConnectionError::CouldntGetDeviceInfo {
            err_msg,
            ..
        }) => assert_eq!(err_msg, "The given device file points to a directory!"),
        other => panic!("unexpected directive: {other:?}"),
    }
}

fn class_fixture() -> Vec<SysDirEntry> {
    vec![
        SysDirEntry {
            path: String::from("/sys/class/video4linux/video0"),
            is_dir: true,
            link_target: None,
        },
    ]
}

fn device_fixture() -> Vec<SysDirEntry> {
    vec![
        SysDirEntry {
            path: String::from("/sys/class/video4linux/video0/device/driver"),
            is_dir: true,
            link_target: None,
        },
        SysDirEntry {
            path: String::from("/sys/class/video4linux/video0/device/media0"),
            is_dir: false,
            link_target: Some(String::from("/dev/media0")),
        },
    ]
}

#[test]
fn pairing_derives_streaming_node_for_control_node() {
    let user = String::from("/dev/media0");
    let candidate = pair_streaming_node(&user, &user, &class_fixture()).unwrap();
    assert_eq!(candidate, "/dev/video0");
}

#[test]
fn topology_round_trip_on_fixture() {
    // forward: the control node resolves to its streaming node
    let user = String::from("/dev/media0");
    let candidate = pair_streaming_node(&user, &user, &class_fixture()).unwrap();
    let source = confirm_source_nodes(&user, user.clone(), candidate, true, true).unwrap();
    assert_eq!(source.video, "/dev/video0");
    // backward: resolving that streaming node independently leads back
    let user2 = source.video.clone();
    let media = pair_control_node(&user2, &device_fixture()).unwrap();
    let back = confirm_source_nodes(&user2, media, user2.clone(), true, true).unwrap();
    assert_eq!(back.media, "/dev/media0");
    assert_eq!(back.video, "/dev/video0");
}

#[test]
fn pairing_without_owning_device_fails() {
    let user = String::from("/dev/media0");
    let empty: Vec<SysDirEntry> = Vec::new();
    match pair_streaming_node(&user, &user, &empty) {
        Err(VideoCaptureConnectionError::CouldntGetDeviceInfo { err_msg, .. }) => {
            assert!(err_msg.starts_with("No Video4Linux devices appear to own"));
        },
        other => panic!("unexpected result: {other:?}"),
    }
}

#[test]
fn missing_streaming_node_is_refused() {
    let user = String::from("/dev/media0");
    let r = confirm_source_nodes(&user, user.clone(), String::from("/dev/video0"), true, false);
    match r {
        Err(VideoCaptureConnectionError::CouldntGetDeviceInfo { err_msg, .. }) => {
            assert!(err_msg.contains("videoY"));
            assert!(err_msg.contains("does not exist"));
        },
        other => panic!("unexpected result: {other:?}"),
    }
}

#[test]
fn missing_control_node_is_refused() {
    // both nodes must exist for a source to be handed out
    let user = String::from("/dev/video0");
    let r = confirm_source_nodes(&user, String::from("/dev/media0"), user.clone(), false, true);
    match r {
        Err(VideoCaptureConnectionError::CouldntGetDeviceInfo { err_msg, .. }) => {
            assert!(err_msg.contains("mediaX"));
            assert!(err_msg.contains("does not exist"));
        },
        other => panic!("unexpected result: {other:?}"),
    }
}

#[test]
fn pairing_without_control_entry_fails() {
    let user = String::from("/dev/video0");
    let entries = vec![
        SysDirEntry {
            path: String::from("/sys/class/video4linux/video0/device/driver"),
            is_dir: true,
            link_target: None,
        },
    ];
    match pair_control_node(&user, &entries) {
        Err(VideoCaptureConnectionError::CouldntGetDeviceInfo { err_msg, .. }) => {
            assert!(err_msg.contains("didn't find a matching"));
        },
        other => panic!("unexpected result: {other:?}"),
    }
}

#[test]
fn device_dir_is_derived_from_streaming_name() {
    let user = String::from("/dev/video3");
    let dir = device_dir_for_video(&user, &user).unwrap();
    assert_eq!(dir, "/sys/class/video4linux/video3/device");
}

#[test]
fn device_dir_needs_a_file_name() {
    let user = String::from("/");
    match device_dir_for_video(&user, &user) {
        Err(VideoCaptureConnectionError::CouldntGetDeviceInfo { err_msg, .. }) => {
            assert_eq!(err_msg, "failed to get filename for `videoY` file");
        },
        other => panic!("unexpected result: {other:?}"),
    }
}

#[test]
fn source_keeps_given_path_verbatim() {
    let user = String::from("/dev/./media0/");
    let entries = class_fixture();
    // even an awkward input is preserved for diagnostics
    let candidate = pair_streaming_node(&user, &String::from("/dev/media0"), &entries).unwrap();
    let source = confirm_source_nodes(&user, String::from("/dev/media0"), candidate, true, true)
        .unwrap();
    assert_eq!(source.given, "/dev/./media0/");
    assert_eq!(source.user_source_string(), "/dev/./media0/");
}
