use serumcv_video_capture::backends::v4l::lifecycle::{
    check_reconnect_identity, classify_open_failure, first_device, identity_lookup_failure,
    reconnect_liveness_gate, reconnect_step, stop_failure, warm_up_failure, ReconnectEvent,
    ReconnectStep,
};
use serumcv_video_capture::backends::v4l::V4LVideoCaptureDescriptor;
use serumcv_video_capture::error::VideoCaptureConnectionError;

fn descriptor() -> V4LVideoCaptureDescriptor {
    V4LVideoCaptureDescriptor {
        device_identifier: String::from("SER-001"),
        device_model: String::from("Cam 9000"),
    }
}

#[test]
fn open_failure_on_missing_path_is_source_doesnt_exist() {
    let source = String::from("/dev/video0");
    let e = classify_open_failure(&source, true, String::from("No such file or directory"));
    assert_eq!(
        e,
        VideoCaptureConnectionError::SourceDoesntExist { source: String::from("/dev/video0") }
    );
}

#[test]
fn open_failure_on_held_device_is_busy() {
    let source = String::from("/dev/video0");
    let e = classify_open_failure(&source, false, String::from("Device or resource busy"));
    assert_eq!(
        e,
        VideoCaptureConnectionError::CaptureDeviceBusy {
            source: String::from("/dev/video0"),
            err_msg: String::from("Device or resource busy"),
        }
    );
}

#[test]
fn first_device_of_empty_enumeration_fails() {
    let none: Vec<String> = Vec::new();
    assert_eq!(first_device(&none), Err(VideoCaptureConnectionError::NoCaptureDevices));
}

#[test]
fn first_device_takes_the_first() {
    let devices = vec![String::from("/dev/video0"), String::from("/dev/video2")];
    assert_eq!(first_device(&devices), Ok(String::from("/dev/video0")));
}

#[test]
fn matching_identity_passes() {
    let d = descriptor();
    let source = String::from("/dev/media0");
    let r = check_reconnect_identity(
        &d,
        &source,
        &String::from("SER-001"),
        &String::from("Cam 9000"),
    );
    assert_eq!(r, Ok(()));
}

#[test]
fn serial_mismatch_is_its_own_error() {
    let d = descriptor();
    let source = String::from("/dev/media0");
    let r = check_reconnect_identity(
        &d,
        &source,
        &String::from("SER-999"),
        &String::from("Cam 9000"),
    );
    assert_eq!(
        r,
        Err(VideoCaptureConnectionError::ReconnectionSerialMismatch {
            source: String::from("/dev/media0"),
            original: String::from("SER-001"),
            now: String::from("SER-999"),
        })
    );
}

#[test]
fn model_mismatch_is_checked_first() {
    let d = descriptor();
    let source = String::from("/dev/media0");
    let r = check_reconnect_identity(
        &d,
        &source,
        &String::from("SER-999"),
        &String::from("Other Cam"),
    );
    assert!(matches!(
        r,
        Err(VideoCaptureConnectionError::ReconnectionModelMismatch { .. })
    ));
}

#[test]
fn live_nodes_refuse_reconnection() {
    let source = String::from("/dev/media0");
    assert_eq!(
        reconnect_liveness_gate(&source, true, true),
        Err(VideoCaptureConnectionError::AlreadyConnected {
            source: String::from("/dev/media0"),
        })
    );
    assert_eq!(reconnect_liveness_gate(&source, true, false), Ok(()));
    assert_eq!(reconnect_liveness_gate(&source, false, false), Ok(()));
}

#[test]
fn frame_read_failure_carries_source_and_cause() {
    let source = String::from("/dev/video0");
    assert_eq!(
        serumcv_video_capture::backends::v4l::lifecycle::frame_read_failure(
            &source,
            String::from("EIO"),
        ),
        serumcv_video_capture::error::VideoCaptureUsageError::IoError {
            source: String::from("/dev/video0"),
            err_msg: String::from("EIO"),
        }
    );
}

#[test]
fn refusal_on_the_session_names_its_given_path() {
    let session = serumcv_video_capture::VideoCapture {
        descriptor: descriptor(),
        device: (),
        source: serumcv_video_capture::backends::v4l::V4LSource {
            given: String::from("/dev/my-cam"),
            media: String::from("/dev/media0"),
            video: String::from("/dev/video0"),
        },
        stream: (),
    };
    assert_eq!(
        session.refuse_if_connected(true, true),
        Err(VideoCaptureConnectionError::AlreadyConnected {
            source: String::from("/dev/my-cam"),
        })
    );
    assert_eq!(session.refuse_if_connected(false, true), Ok(()));
    // the refusal borrows the session immutably: nothing changed
    assert_eq!(session.source.given, "/dev/my-cam");
    assert_eq!(session.device_identifer(), "SER-001");
}

#[test]
fn reconnect_while_connected_fails_and_stops() {
    let d = descriptor();
    let source = String::from("/dev/media0");
    let s = reconnect_step(
        &d,
        &source,
        ReconnectStep::ProbeNodes,
        &ReconnectEvent::NodesProbed { video_exists: true, media_exists: true },
    );
    let err = match s {
        ReconnectStep::Failed(ref e) => e.clone(),
        ref other => panic!("unexpected step: {other:?}"),
    };
    assert_eq!(
        err,
        VideoCaptureConnectionError::AlreadyConnected { source: String::from("/dev/media0") }
    );
    // the failure absorbs every further event: nothing reopens
    let after = reconnect_step(&d, &source, s, &ReconnectEvent::DeviceOpened);
    assert!(matches!(
        after,
        ReconnectStep::Failed(VideoCaptureConnectionError::AlreadyConnected { .. })
    ));
}

#[test]
fn reconnect_serial_mismatch_never_opens_a_handle() {
    let d = descriptor();
    let source = String::from("/dev/media0");
    let s = reconnect_step(
        &d,
        &source,
        ReconnectStep::FetchIdentity,
        &ReconnectEvent::IdentityFetched {
            serial: String::from("SER-999"),
            model: String::from("Cam 9000"),
        },
    );
    assert!(matches!(
        s,
        ReconnectStep::Failed(VideoCaptureConnectionError::ReconnectionSerialMismatch { .. })
    ));
    // no later event can move the attempt toward an open handle
    let after = reconnect_step(&d, &source, s, &ReconnectEvent::DeviceOpened);
    assert!(matches!(
        after,
        ReconnectStep::Failed(VideoCaptureConnectionError::ReconnectionSerialMismatch { .. })
    ));
}

#[test]
fn reconnect_happy_path_reaches_done() {
    let d = descriptor();
    let source = String::from("/dev/media0");
    let mut s = ReconnectStep::ProbeNodes;
    s = reconnect_step(
        &d,
        &source,
        s,
        &ReconnectEvent::NodesProbed { video_exists: false, media_exists: false },
    );
    assert!(matches!(s, ReconnectStep::FetchIdentity));
    s = reconnect_step(
        &d,
        &source,
        s,
        &ReconnectEvent::IdentityFetched {
            serial: String::from("SER-001"),
            model: String::from("Cam 9000"),
        },
    );
    assert!(matches!(s, ReconnectStep::OpenDevice));
    s = reconnect_step(&d, &source, s, &ReconnectEvent::DeviceOpened);
    assert!(matches!(s, ReconnectStep::OpenStream));
    s = reconnect_step(&d, &source, s, &ReconnectEvent::StreamOpened);
    assert!(matches!(s, ReconnectStep::WarmUp));
    s = reconnect_step(&d, &source, s, &ReconnectEvent::WarmedUp);
    assert!(matches!(s, ReconnectStep::Done));
}

#[test]
fn reconnect_warm_up_failure_is_fatal() {
    let d = descriptor();
    let source = String::from("/dev/media0");
    let s = reconnect_step(
        &d,
        &source,
        ReconnectStep::WarmUp,
        &ReconnectEvent::WarmUpFailed { err_msg: String::from("EIO") },
    );
    assert!(matches!(
        s,
        ReconnectStep::Failed(VideoCaptureConnectionError::WarmUpFailed { .. })
    ));
}

#[test]
fn failure_wrappers_carry_source_and_cause() {
    let source = String::from("/dev/video0");
    assert_eq!(
        stop_failure(&source, String::from("EPIPE")),
        VideoCaptureConnectionError::StopError {
            source: String::from("/dev/video0"),
            err_msg: String::from("EPIPE"),
        }
    );
    assert_eq!(
        warm_up_failure(&source, String::from("EIO")),
        VideoCaptureConnectionError::WarmUpFailed {
            source: String::from("/dev/video0"),
            err_msg: String::from("EIO"),
        }
    );
    assert_eq!(
        identity_lookup_failure(&source, String::from("ENODEV")),
        VideoCaptureConnectionError::CouldntGetDeviceInfo {
            source: String::from("/dev/video0"),
            err_msg: String::from("ENODEV"),
        }
    );
}

#[test]
fn unanswered_step_stays_where_it_stood() {
    let d = descriptor();
    let source = String::from("/dev/media0");
    let s = reconnect_step(&d, &source, ReconnectStep::ProbeNodes, &ReconnectEvent::WarmedUp);
    assert!(matches!(s, ReconnectStep::ProbeNodes));
}

#[test]
fn reconnect_stream_failure_reports_busy_device() {
    let d = descriptor();
    let source = String::from("/dev/media0");
    let s = reconnect_step(
        &d,
        &source,
        ReconnectStep::OpenStream,
        &ReconnectEvent::StreamOpenFailed { err_msg: String::from("EBUSY") },
    );
    assert!(matches!(
        s,
        ReconnectStep::Failed(VideoCaptureConnectionError::CaptureDeviceBusy { .. })
    ));
}
