use lidar_driver::cmd::ScanModeConfEntry;
use lidar_driver::cmd::SlLidarCmd;
use lidar_driver::codec::build_conf_request;
use lidar_driver::codec::build_long_request;
use lidar_driver::codec::build_motor_speed_request;
use lidar_driver::codec::build_short_request;
use lidar_driver::codec::build_stop_request;
use lidar_driver::codec::checksum;
use lidar_driver::codec::decode_conf_response;
use lidar_driver::codec::decode_descriptor;
use lidar_driver::codec::decode_device_health;
use lidar_driver::codec::decode_device_info;
use lidar_driver::codec::decode_sample_rate;
use lidar_driver::codec::RxError;
use lidar_driver::types::sl_is_err;
use lidar_driver::types::sl_is_ok;
use lidar_driver::types::SL_RESULT_INVALID_DATA;
use lidar_driver::types::SL_RESULT_OK;

#[test]
fn checksum_exact_values() {
    assert_eq!(checksum(&[]), 0);
    assert_eq!(checksum(&[0xa5, 0x25]), 0x80);
    assert_eq!(checksum(&[0xa5, 0xa8, 0x02, 0x58, 0x02]), 0x55);
}

#[test]
fn checksum_of_frame_with_trailing_checksum_is_zero() {
    let frame = [0xa5, 0xa8, 0x02, 0x58, 0x02];
    let ck = checksum(&frame);
    let mut full = frame.to_vec();
    full.push(ck);
    assert_eq!(checksum(&full), 0);

    let frame2 = [0xa5, 0x84, 0x08, 0x74, 0x00, 0x00, 0x00, 0xef, 0xbe, 0x00, 0x00];
    let ck2 = checksum(&frame2);
    let mut full2 = frame2.to_vec();
    full2.push(ck2);
    assert_eq!(checksum(&full2), 0);
}

#[test]
fn opcodes_are_the_fixed_wire_codes() {
    assert_eq!(SlLidarCmd::GetDeviceInfo.code(), 0x50);
    assert_eq!(SlLidarCmd::GetDeviceHealth.code(), 0x52);
    assert_eq!(SlLidarCmd::GetSampleRate.code(), 0x59);
    assert_eq!(SlLidarCmd::GetLidarConf.code(), 0x84);
    assert_eq!(SlLidarCmd::HQMotorSpeedCtrl.code(), 0xa8);
    assert_eq!(SlLidarCmd::Scan.code(), 0x20);
    assert_eq!(SlLidarCmd::Stop.code(), 0x25);
    assert_eq!(SlLidarCmd::Reset.code(), 0x40);
}

#[test]
fn short_and_stop_requests() {
    assert_eq!(build_short_request(SlLidarCmd::Scan), vec![0xa5, 0x20]);
    assert_eq!(build_short_request(SlLidarCmd::GetDeviceInfo), vec![0xa5, 0x50]);
    assert_eq!(build_stop_request(false), vec![0xa5, 0x25]);
    assert_eq!(build_stop_request(true), vec![0xa5, 0x40]);
}

#[test]
fn long_request_layout_and_zero_fold() {
    let req = build_long_request(SlLidarCmd::GetLidarConf, &[0x01, 0x02, 0x03]);
    assert_eq!(req, vec![0xa5, 0x84, 0x03, 0x01, 0x02, 0x03, 0x22]);
    assert_eq!(checksum(&req), 0);

    let empty = build_long_request(SlLidarCmd::HQMotorSpeedCtrl, &[]);
    assert_eq!(empty, vec![0xa5, 0xa8, 0x00, 0x0d]);
    assert_eq!(checksum(&empty), 0);
}

#[test]
fn motor_speed_request_bytes() {
    let req = build_motor_speed_request(600);
    assert_eq!(req, vec![0xa5, 0xa8, 0x02, 0x58, 0x02, 0x55]);
    assert_eq!(checksum(&req), 0);
}

#[test]
fn descriptor_decodes_header_fields() {
    let bytes = [0xa5, 0x5a, 0x14, 0x00, 0x00, 0x00, 0x04];
    let d = decode_descriptor(&bytes).unwrap();
    assert_eq!(d.len, 20);
    assert_eq!(d.send_mode, 0);
    assert_eq!(d.data_type, 4);
}

#[test]
fn descriptor_splits_send_mode_from_length() {
    // Byte 5 is 0x81: its top two bits are the send mode, the remaining
    // 0x01 is the most significant length byte.
    let bytes = [0xa5, 0x5a, 0x00, 0x00, 0x00, 0x81, 0x81];
    let d = decode_descriptor(&bytes).unwrap();
    assert_eq!(d.send_mode, 2);
    assert_eq!(d.len, 0x0100_0000);
    assert_eq!(d.data_type, 0x81);
}

#[test]
fn descriptor_rejects_bad_sync() {
    let bad_first = [0x00, 0x5a, 0x14, 0x00, 0x00, 0x00, 0x04];
    match decode_descriptor(&bad_first) {
        Err(RxError::Corrupted(raw)) => assert_eq!(raw, bad_first),
        _ => panic!("expected a corrupted-frame error"),
    }
    let bad_second = [0xa5, 0xa5, 0x14, 0x00, 0x00, 0x00, 0x04];
    match decode_descriptor(&bad_second) {
        Err(RxError::Corrupted(raw)) => assert_eq!(raw, bad_second),
        _ => panic!("expected a corrupted-frame error"),
    }
}

#[test]
fn device_info_all_zero_payload() {
    let descriptor_bytes = [0xa5, 0x5a, 0x14, 0x00, 0x00, 0x00, 0x04];
    let d = decode_descriptor(&descriptor_bytes).unwrap();
    assert_eq!(d.len, 20);
    let payload = vec![0u8; d.len as usize];
    let info = decode_device_info(&payload);
    assert_eq!(info.model, 0);
    assert_eq!(info.firmware_version, 0);
    assert_eq!(info.hardware_version, 0);
    assert_eq!(info.serial_number, [0u8; 16]);
}

#[test]
fn device_info_field_layout() {
    let mut payload = vec![0x09, 0x34, 0x12, 0x07];
    for i in 0..16u8 {
        payload.push(i);
    }
    let info = decode_device_info(&payload);
    assert_eq!(info.model, 0x09);
    assert_eq!(info.firmware_version, 0x1234);
    assert_eq!(info.hardware_version, 0x07);
    let expected: Vec<u8> = (0..16u8).collect();
    assert_eq!(info.serial_number.to_vec(), expected);
}

#[test]
fn device_health_field_layout() {
    let health = decode_device_health(&[0x02, 0xcd, 0xab]);
    assert_eq!(health.status, 0x02);
    assert_eq!(health.error_code, 0xabcd);
}

#[test]
fn sample_rate_field_layout() {
    let rate = decode_sample_rate(&[0xe8, 0x03, 0xf4, 0x01]);
    assert_eq!(rate.std_sample_duration_us, 1000);
    assert_eq!(rate.express_sample_duration_us, 500);
}

#[test]
fn conf_request_short_form_bytes() {
    let req = build_conf_request(ScanModeConfEntry::Count, None);
    assert_eq!(req, vec![0xa5, 0x84, 0x04, 0x70, 0x00, 0x00, 0x00, 0x55]);
    assert_eq!(checksum(&req), 0);

    let req = build_conf_request(ScanModeConfEntry::Typical, None);
    assert_eq!(req, vec![0xa5, 0x84, 0x04, 0x7c, 0x00, 0x00, 0x00, 0x59]);
    assert_eq!(checksum(&req), 0);
}

#[test]
fn conf_request_long_form_bytes() {
    let req = build_conf_request(ScanModeConfEntry::MaxDistance, Some(0xbeef));
    assert_eq!(
        req,
        vec![0xa5, 0x84, 0x08, 0x74, 0x00, 0x00, 0x00, 0xef, 0xbe, 0x00, 0x00, 0x0c],
    );
    assert_eq!(checksum(&req), 0);
}

#[test]
fn conf_round_trip_keeps_tag_and_payload() {
    // The two-byte payload goes out unchanged in the long-form request...
    let payload_value: u16 = 0x0102;
    let req = build_conf_request(ScanModeConfEntry::UsPerSample, Some(payload_value));
    assert_eq!(req[7], 0x02);
    assert_eq!(req[8], 0x01);

    // ...and a captured response made of a little-endian type tag followed
    // by payload bytes decodes back to exactly that tag and those bytes.
    let tag: u32 = 0x0000_0071;
    let body = [0x09, 0x08, 0x07];
    let mut data = tag.to_le_bytes().to_vec();
    data.extend_from_slice(&body);
    let conf = decode_conf_response(&data);
    assert_eq!(conf.conf_type, tag);
    assert_eq!(conf.payload, body.to_vec());
}

#[test]
fn conf_response_empty_payload() {
    let conf = decode_conf_response(&[0x70, 0x00, 0x00, 0x00]);
    assert_eq!(conf.conf_type, 0x70);
    assert!(conf.payload.is_empty());
}

#[test]
fn result_codes_fail_bit() {
    assert!(sl_is_ok(SL_RESULT_OK));
    assert!(!sl_is_err(SL_RESULT_OK));
    assert!(sl_is_err(SL_RESULT_INVALID_DATA));
    assert!(!sl_is_ok(SL_RESULT_INVALID_DATA));
}
