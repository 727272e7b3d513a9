use serumcv_video_capture::backends::v4l::framerate::V4l2StreamParm;
use serumcv_video_capture::config::Framerate;

fn stream_parm_buffer(numerator: u32, denominator: u32) -> Vec<u8> {
    let mut buf = vec![0u8; 204];
    buf[0..4].copy_from_slice(&1u32.to_le_bytes());
    buf[12..16].copy_from_slice(&numerator.to_le_bytes());
    buf[16..20].copy_from_slice(&denominator.to_le_bytes());
    buf
}

#[test]
fn frame_rate_of_interval_1_30_is_exactly_30() {
    let parm = V4l2StreamParm::decode(&stream_parm_buffer(1, 30)).unwrap();
    let rate = parm.get_frame_rate();
    assert_eq!(rate.numerator(), 30);
    assert_eq!(rate.denominator(), 1);
    assert_eq!(rate, Framerate::new(30, 1));
}

#[test]
fn frame_interval_is_kept_exact() {
    let parm = V4l2StreamParm::decode(&stream_parm_buffer(1, 30)).unwrap();
    let interval = parm.get_frame_interval();
    assert_eq!(interval.numerator(), 1);
    assert_eq!(interval.denominator(), 30);
}

#[test]
fn framerate_reduces_to_lowest_terms() {
    let half = Framerate::new(30, 60);
    assert_eq!(half.numerator(), 1);
    assert_eq!(half.denominator(), 2);
    assert_eq!(Framerate::new(2, 4), Framerate::new(1, 2));
}

#[test]
fn framerate_zero_numerator_normalizes() {
    let zero = Framerate::new(0, 5);
    assert_eq!(zero.numerator(), 0);
    assert_eq!(zero.denominator(), 1);
    assert!(!zero.is_nan());
    assert!(!zero.is_infinite());
}

#[test]
fn framerate_zero_denominator_is_infinite() {
    let inf = Framerate::new(7, 0);
    assert!(inf.is_infinite());
    assert_eq!(inf.numerator(), 1);
    assert_eq!(inf.denominator(), 0);
}

#[test]
fn framerate_zero_over_zero_is_nan() {
    let nan = Framerate::new(0, 0);
    assert!(nan.is_nan());
}

#[test]
fn recip_swaps_interval_and_rate() {
    let interval = Framerate::new(1001, 30000);
    let rate = interval.recip();
    assert_eq!(rate.numerator(), 30000);
    assert_eq!(rate.denominator(), 1001);
    assert_eq!(rate.recip(), interval);
}

#[test]
fn recip_of_zero_interval_is_infinite() {
    let rate = Framerate::new(0, 1).recip();
    assert!(rate.is_infinite());
}

#[test]
fn stream_parm_decode_refuses_wrong_size() {
    assert!(V4l2StreamParm::decode(&[0u8; 203]).is_none());
    assert!(V4l2StreamParm::decode(&[0u8; 205]).is_none());
    assert!(V4l2StreamParm::decode(&[]).is_none());
}
