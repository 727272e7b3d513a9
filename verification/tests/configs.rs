use serumcv_video_capture::backends::v4l::configure::{
    configuration_write_failure, enumeration_failure, format_query_failure,
    image_configuration_from, supported_configurations_from, FormatModes, FrameIntervalInfo,
    FrameSizeInfo, SizeModes,
};
use serumcv_video_capture::backends::v4l::framerate::V4l2StreamParm;
use serumcv_video_capture::backends::v4l::V4LVideoCaptureDescriptor;
use serumcv_video_capture::config::{
    Format, Framerate, SpecificResolution, VideoCaptureProperty,
};
use serumcv_video_capture::error::VideoCaptureConfigError;
use serumcv_video_capture::VideoCapture;

#[test]
fn format_round_trips_its_bytes() {
    let f = Format::new(*b"YUYV");
    assert_eq!(f.array(), *b"YUYV");
    assert_eq!(f, Format::new(*b"YUYV"));
    assert_ne!(f, Format::new(*b"MJPG"));
}

#[test]
fn resolution_keeps_its_values() {
    let r = SpecificResolution::new(1920, 1080);
    assert_eq!(r.width, 1920);
    assert_eq!(r.height, 1080);
}

#[test]
fn property_keeps_key_and_value() {
    let p = VideoCaptureProperty::new(String::from("brightness"), "128");
    assert_eq!(p.key(), "brightness");
    assert_eq!(p.value(), "128");
    let q = VideoCaptureProperty::with_value(String::from("contrast"), String::from("40"));
    assert_eq!(q.key(), "contrast");
    assert_eq!(q.value(), "40");
}

#[test]
fn configuration_failures_carry_source_and_cause() {
    let source = String::from("/dev/video0");
    assert_eq!(
        format_query_failure(&source, String::from("EINVAL")),
        VideoCaptureConfigError::CouldntGetFormat {
            source: String::from("/dev/video0"),
            err_msg: String::from("EINVAL"),
        }
    );
    assert_eq!(
        enumeration_failure(&source, String::from("EBUSY")),
        VideoCaptureConfigError::DeviceDoesntListConfigurations {
            source: String::from("/dev/video0"),
            err_msg: String::from("EBUSY"),
        }
    );
    assert_eq!(
        configuration_write_failure(&source, String::from("EPERM")),
        VideoCaptureConfigError::PropertyWriteFailure {
            source: String::from("/dev/video0"),
            err_msg: String::from("EPERM"),
        }
    );
}

#[test]
fn session_exposes_descriptor_identity() {
    let session = VideoCapture {
        descriptor: V4LVideoCaptureDescriptor {
            device_identifier: String::from("SER-42"),
            device_model: String::from("Cam"),
        },
        device: (),
        source: (),
        stream: (),
    };
    assert_eq!(session.device_identifer(), "SER-42");
    assert_eq!(session.device_model(), "Cam");
}

#[test]
fn supported_configurations_skip_stepwise_entries() {
    let formats = vec![
        FormatModes {
            fourcc: *b"YUYV",
            sizes: vec![
                SizeModes {
                    size: FrameSizeInfo::Discrete { width: 640, height: 480 },
                    intervals: vec![
                        FrameIntervalInfo::Discrete { numerator: 1, denominator: 30 },
                        FrameIntervalInfo::Stepwise,
                        FrameIntervalInfo::Discrete { numerator: 1, denominator: 15 },
                    ],
                },
                SizeModes { size: FrameSizeInfo::Stepwise, intervals: Vec::new() },
            ],
        },
        FormatModes {
            fourcc: *b"MJPG",
            sizes: vec![
                SizeModes {
                    size: FrameSizeInfo::Discrete { width: 1920, height: 1080 },
                    intervals: vec![
                        FrameIntervalInfo::Discrete { numerator: 1, denominator: 60 },
                    ],
                },
            ],
        },
    ];
    let configs = supported_configurations_from(&formats);
    assert_eq!(configs.len(), 3);
    assert_eq!(configs[0].format, Format::new(*b"YUYV"));
    assert_eq!(configs[0].resolution, SpecificResolution::new(640, 480));
    assert_eq!(configs[0].framerate, Framerate::new(30, 1));
    assert_eq!(configs[1].framerate, Framerate::new(15, 1));
    assert_eq!(configs[2].format, Format::new(*b"MJPG"));
    assert_eq!(configs[2].resolution, SpecificResolution::new(1920, 1080));
    assert_eq!(configs[2].framerate, Framerate::new(60, 1));
}

#[test]
fn active_configuration_combines_format_and_timing() {
    let mut buf = vec![0u8; 204];
    buf[0..4].copy_from_slice(&1u32.to_le_bytes());
    buf[12..16].copy_from_slice(&1u32.to_le_bytes());
    buf[16..20].copy_from_slice(&25u32.to_le_bytes());
    let parm = V4l2StreamParm::decode(&buf).unwrap();
    let conf = image_configuration_from(*b"YUYV", 1280, 720, &parm);
    assert_eq!(conf.format, Format::new(*b"YUYV"));
    assert_eq!(conf.resolution, SpecificResolution::new(1280, 720));
    assert_eq!(conf.framerate, Framerate::new(25, 1));
}
