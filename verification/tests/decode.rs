use laptop_toio::codec::{BATTERY, BUTTON, CONFIG, LIGHT, MOTION, MOTOR, POSITION, SERVICE};
use laptop_toio::update::{decode_notification, uuid_to_string, Update};

#[test]
fn battery_payload_decodes() {
    let r = decode_notification(BATTERY, &vec![0x4B]);
    assert_eq!(r, Some(Update::Battery { level: 75 }));
}

#[test]
fn motor_speed_payload_decodes() {
    let r = decode_notification(MOTOR, &vec![0xE0, 10, 20]);
    assert_eq!(r, Some(Update::MotorSpeed { left_speed: 10, right_speed: 20 }));
}

#[test]
fn motor_target_response_decodes() {
    let r = decode_notification(MOTOR, &vec![0x83, 3, 0]);
    assert_eq!(r, Some(Update::MotorTargetResponse { control: 3, response: 0 }));
    let r = decode_notification(MOTOR, &vec![0x84, 4, 1]);
    assert_eq!(r, Some(Update::MultiTargetResponse { control: 4, response: 1 }));
}

#[test]
fn position_payload_decodes_little_endian() {
    let payload = vec![0x01, 0x2C, 0x01, 0x10, 0x00, 0x5A, 0x00, 0x2D, 0x01, 0x11, 0x00];
    let r = decode_notification(POSITION, &payload);
    assert_eq!(
        r,
        Some(Update::Position {
            x_center: 300,
            y_center: 16,
            theta: 90,
            x_sensor: 301,
            y_sensor: 17,
        })
    );
}

#[test]
fn standard_payload_decodes() {
    let payload = vec![0x02, 0x01, 0x00, 0x01, 0x00, 0x2C, 0x01];
    let r = decode_notification(POSITION, &payload);
    assert_eq!(r, Some(Update::Standard { standard: 65537, theta: 300 }));
}

#[test]
fn missed_markers_decode() {
    assert_eq!(
        decode_notification(POSITION, &vec![0x03]),
        Some(Update::PositionMissed)
    );
    assert_eq!(
        decode_notification(POSITION, &vec![0x04]),
        Some(Update::StandardMissed)
    );
}

#[test]
fn motion_payload_decodes() {
    let r = decode_notification(MOTION, &vec![0x01, 1, 0, 1, 2, 0]);
    assert_eq!(
        r,
        Some(Update::Motion { horizontal: 1, collision: 0, double_tap: 1, posture: 2, shake: 0 })
    );
}

#[test]
fn button_payload_decodes() {
    assert_eq!(
        decode_notification(BUTTON, &vec![0x01, 0x80]),
        Some(Update::Button { pressed: true })
    );
    assert_eq!(
        decode_notification(BUTTON, &vec![0x01, 0x00]),
        Some(Update::Button { pressed: false })
    );
}

#[test]
fn unknown_tags_decode_to_nothing() {
    assert_eq!(decode_notification(POSITION, &vec![0x07, 1, 2]), None);
    assert_eq!(decode_notification(MOTOR, &vec![0x01, 1, 2]), None);
    assert_eq!(decode_notification(MOTION, &vec![0x02, 1, 2, 3, 4, 5]), None);
}

#[test]
fn unknown_characteristic_decodes_to_nothing() {
    assert_eq!(decode_notification(CONFIG, &vec![0x01]), None);
    assert_eq!(decode_notification(0xDEAD_BEEF, &vec![0x01]), None);
}

#[test]
fn short_payloads_decode_to_nothing() {
    assert_eq!(decode_notification(POSITION, &vec![0x01, 1, 2]), None);
    assert_eq!(decode_notification(POSITION, &vec![]), None);
    assert_eq!(decode_notification(MOTOR, &vec![0xE0, 10]), None);
    assert_eq!(decode_notification(BATTERY, &vec![]), None);
    assert_eq!(decode_notification(BUTTON, &vec![0x01]), None);
}

#[test]
fn uuid_names() {
    assert_eq!(uuid_to_string(SERVICE), "Service");
    assert_eq!(uuid_to_string(POSITION), "Position");
    assert_eq!(uuid_to_string(MOTOR), "Motor");
    assert_eq!(uuid_to_string(LIGHT), "Light");
    assert_eq!(uuid_to_string(BATTERY), "Battery");
    assert_eq!(uuid_to_string(0x1234), "");
}
