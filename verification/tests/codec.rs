use trayasen::codec::{
    bytes_to_position_speed, decode_position_sample, encode_motion, is_valid_height,
    MotionCommand, PositionSpeed, MAX_HEIGHT, MIN_HEIGHT,
};
use trayasen::error::BtError;

#[test]
fn up_is_encoded_as_its_two_bytes() {
    assert_eq!(encode_motion(MotionCommand::Up), [0x47, 0x00]);
}

#[test]
fn down_is_encoded_as_its_two_bytes() {
    assert_eq!(encode_motion(MotionCommand::Down), [0x46, 0x00]);
}

#[test]
fn stop_is_encoded_as_its_two_bytes() {
    assert_eq!(encode_motion(MotionCommand::Stop), [0xFF, 0x00]);
}

#[test]
fn encoding_does_not_depend_on_what_came_before() {
    let first = encode_motion(MotionCommand::Up);
    let _ = encode_motion(MotionCommand::Down);
    let _ = encode_motion(MotionCommand::Stop);
    assert_eq!(encode_motion(MotionCommand::Up), first);
}

#[test]
fn height_limits_are_the_desks() {
    assert_eq!(MIN_HEIGHT, 6200);
    assert_eq!(MAX_HEIGHT, 12700);
}

#[test]
fn bytes_to_position_speed_reads_the_known_reports() {
    assert_eq!(
        bytes_to_position_speed(&[0x64, 0x19, 0x00, 0x00]),
        PositionSpeed { position: MAX_HEIGHT, speed: 0 }
    );
    assert_eq!(
        bytes_to_position_speed(&[0x00, 0x00, 0x00, 0x00]),
        PositionSpeed { position: MIN_HEIGHT, speed: 0 }
    );
    assert_eq!(
        bytes_to_position_speed(&[0x51, 0x04, 0x00, 0x00]),
        PositionSpeed { position: 7305, speed: 0 }
    );
    assert_eq!(
        bytes_to_position_speed(&[0x08, 0x08, 0x00, 0x00]),
        PositionSpeed { position: 8256, speed: 0 }
    );
    assert_eq!(
        bytes_to_position_speed(&[0x64, 0x18, 0x00, 0x00]),
        PositionSpeed { position: 12444, speed: 0 }
    );
}

#[test]
fn decode_reads_the_highest_position() {
    assert_eq!(
        decode_position_sample(&[0x64, 0x19, 0, 0]),
        Ok(PositionSpeed { position: 12700, speed: 0 })
    );
}

#[test]
fn decode_reads_the_lowest_position() {
    assert_eq!(
        decode_position_sample(&[0, 0, 0, 0]),
        Ok(PositionSpeed { position: 6200, speed: 0 })
    );
}

#[test]
fn decode_reads_positions_in_between() {
    assert_eq!(
        decode_position_sample(&[0x51, 0x04, 0, 0]),
        Ok(PositionSpeed { position: 7305, speed: 0 })
    );
    assert_eq!(
        decode_position_sample(&[0x08, 0x08, 0, 0]),
        Ok(PositionSpeed { position: 8256, speed: 0 })
    );
    assert_eq!(
        decode_position_sample(&[0x64, 0x18, 0, 0]),
        Ok(PositionSpeed { position: 12444, speed: 0 })
    );
}

#[test]
fn decode_reads_the_speed_as_signed() {
    assert_eq!(
        decode_position_sample(&[0, 0, 0xFF, 0xFF]),
        Ok(PositionSpeed { position: 6200, speed: -1 })
    );
    assert_eq!(
        decode_position_sample(&[0, 0, 0x00, 0x80]),
        Ok(PositionSpeed { position: 6200, speed: -32768 })
    );
    assert_eq!(
        decode_position_sample(&[0, 0, 0xFF, 0x7F]),
        Ok(PositionSpeed { position: 6200, speed: 32767 })
    );
    assert_eq!(
        decode_position_sample(&[0, 0, 0x2C, 0x01]),
        Ok(PositionSpeed { position: 6200, speed: 300 })
    );
    assert_eq!(
        decode_position_sample(&[0, 0, 0xD4, 0xFE]),
        Ok(PositionSpeed { position: 6200, speed: -300 })
    );
}

#[test]
fn decode_agrees_with_the_standard_byte_order() {
    for lo in [0u8, 1, 0x7F, 0x80, 0xFF] {
        for hi in [0u8, 1, 0x7F, 0x80, 0xFF] {
            let decoded = decode_position_sample(&[0, 0, lo, hi]).unwrap();
            assert_eq!(decoded.speed, i16::from_le_bytes([lo, hi]));
        }
    }
    for lo in [0u8, 1, 0x7F, 0x80, 0xFF] {
        for hi in [0u8, 1, 0x19, 0x7F, 0x80] {
            let decoded = decode_position_sample(&[lo, hi, 0, 0]).unwrap();
            assert_eq!(decoded.position, 6200 + u16::from_le_bytes([lo, hi]));
        }
    }
}

#[test]
fn decode_rejects_a_report_that_is_too_short() {
    assert_eq!(decode_position_sample(&[]), Err(BtError::MalformedSample));
    assert_eq!(decode_position_sample(&[0x64]), Err(BtError::MalformedSample));
    assert_eq!(decode_position_sample(&[0x64, 0x19]), Err(BtError::MalformedSample));
    assert_eq!(decode_position_sample(&[0x64, 0x19, 0]), Err(BtError::MalformedSample));
}

#[test]
fn decode_reads_only_the_first_four_bytes() {
    assert_eq!(
        decode_position_sample(&[0x51, 0x04, 0x02, 0x00, 0xAA, 0xBB]),
        Ok(PositionSpeed { position: 7305, speed: 2 })
    );
}

#[test]
fn decode_does_not_clamp_a_height_beyond_the_range() {
    assert_eq!(
        decode_position_sample(&[0x65, 0x19, 0, 0]),
        Ok(PositionSpeed { position: 12701, speed: 0 })
    );
    assert_eq!(
        decode_position_sample(&[0x00, 0x80, 0, 0]),
        Ok(PositionSpeed { position: 38968, speed: 0 })
    );
}

#[test]
fn decode_takes_the_last_height_that_fits() {
    assert_eq!(
        decode_position_sample(&[0xC7, 0xE7, 0, 0]),
        Ok(PositionSpeed { position: 65535, speed: 0 })
    );
}

#[test]
fn decode_rejects_a_height_that_does_not_fit() {
    assert_eq!(decode_position_sample(&[0xC8, 0xE7, 0, 0]), Err(BtError::MalformedSample));
    assert_eq!(decode_position_sample(&[0xFF, 0xFF, 0, 0]), Err(BtError::MalformedSample));
}

#[test]
fn valid_heights_are_those_of_the_closed_range() {
    assert!(!is_valid_height(0));
    assert!(!is_valid_height(6199));
    assert!(is_valid_height(6200));
    assert!(is_valid_height(9000));
    assert!(is_valid_height(12700));
    assert!(!is_valid_height(12701));
    assert!(!is_valid_height(u16::MAX));
}
