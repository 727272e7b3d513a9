use serumcv_video_capture::backends::v4l::device_info::{MediaDeviceInfo, DEVICE_INFO_LEN};

fn device_info_buffer(model: &[u8], serial: &[u8]) -> Vec<u8> {
    let mut buf = vec![0u8; DEVICE_INFO_LEN];
    buf[0..6].copy_from_slice(b"uvcvid");
    buf[16..16 + model.len()].copy_from_slice(model);
    buf[48..48 + serial.len()].copy_from_slice(serial);
    buf[120..124].copy_from_slice(&0x0005_0401u32.to_le_bytes());
    buf
}

#[test]
fn device_info_decodes_model_and_serial() {
    let buf = device_info_buffer(b"C922 Pro Stream Webcam", b"ABC1234567");
    let info = MediaDeviceInfo::decode(&buf).unwrap();
    assert_eq!(info.model(), "C922 Pro Stream Webcam");
    assert_eq!(info.serial(), "ABC1234567");
}

#[test]
fn device_info_text_stops_at_first_nul() {
    let buf = device_info_buffer(b"abc\0hidden", b"xy\0z");
    let info = MediaDeviceInfo::decode(&buf).unwrap();
    assert_eq!(info.model(), "abc");
    assert_eq!(info.serial(), "xy");
}

#[test]
fn device_info_invalid_serial_text_gives_sentinel() {
    // 0xFF can begin no UTF-8 sequence, so the serial field holds
    // invalid text; the lookup must degrade to the sentinel, not fail.
    let buf = device_info_buffer(b"Fine Model", &[0xFF, 0xFE, 0x41]);
    let info = MediaDeviceInfo::decode(&buf).unwrap();
    assert_eq!(info.serial(), "Serial was not valid UTF-8");
    assert_eq!(info.model(), "Fine Model");
}

#[test]
fn device_info_invalid_model_text_gives_sentinel() {
    let buf = device_info_buffer(&[0xC0, 0x80], b"OK");
    let info = MediaDeviceInfo::decode(&buf).unwrap();
    assert_eq!(info.model(), "Model was not valid UTF-8");
    assert_eq!(info.serial(), "OK");
}

#[test]
fn device_info_field_without_nul_uses_whole_width() {
    // a serial that fills all 40 bytes is read to the field's edge
    let serial = [b'S'; 40];
    let buf = device_info_buffer(b"M", &serial);
    let info = MediaDeviceInfo::decode(&buf).unwrap();
    assert_eq!(info.serial(), "S".repeat(40));
}

#[test]
fn device_info_decode_refuses_wrong_size() {
    assert!(MediaDeviceInfo::decode(&vec![0u8; DEVICE_INFO_LEN - 1]).is_none());
    assert!(MediaDeviceInfo::decode(&vec![0u8; DEVICE_INFO_LEN + 1]).is_none());
    assert!(MediaDeviceInfo::decode(&[]).is_none());
}
