use laptop_toio::codec::{
    encode_command, parse_led_command, parse_midi_command, parse_target_command, parseLedCommand,
    parseMidiCommand, parseTargetCommand, Command, LedCommand, MidiCommand, TargetCommand,
    WriteMode, LIGHT, MOTION, MOTOR, SOUND,
};

#[test]
fn motion_request_bytes() {
    let (uuid, bytes, mode) = encode_command(Command::MotionRequest);
    assert_eq!(uuid, MOTION);
    assert_eq!(bytes, vec![0x81]);
    assert_eq!(mode, WriteMode::WithoutResponse);
}

#[test]
fn posture_request_bytes() {
    let (uuid, bytes, _) = encode_command(Command::PostureRequest { format: 0x02 });
    assert_eq!(uuid, MOTION);
    assert_eq!(bytes, vec![0x83, 0x02]);
}

#[test]
fn motor_control_bytes() {
    let (uuid, bytes, mode) = encode_command(Command::MotorControl {
        left_direction: 1,
        left_speed: 40,
        right_direction: 2,
        right_speed: 50,
    });
    assert_eq!(uuid, MOTOR);
    assert_eq!(bytes, vec![0x01, 0x01, 1, 40, 0x02, 2, 50]);
    assert_eq!(mode, WriteMode::WithoutResponse);
}

#[test]
fn motor_duration_bytes() {
    let (_, bytes, _) = encode_command(Command::MotorDuration {
        left_direction: 1,
        left_speed: 30,
        right_direction: 1,
        right_speed: 30,
        duration: 200,
    });
    assert_eq!(bytes, vec![0x02, 0x01, 1, 30, 0x02, 1, 30, 200]);
}

#[test]
fn motor_target_packs_little_endian() {
    // x_target = 300 = 0x012C: the low byte 0x2C must come before 0x01.
    let (uuid, bytes, _) = encode_command(Command::MotorTarget {
        control: 0,
        timeout: 5,
        move_type: 0,
        max_speed: 80,
        speed_change: 0,
        x_target: 300,
        y_target: 300,
        theta_target: 90,
    });
    assert_eq!(uuid, MOTOR);
    assert_eq!(bytes[7], 0x2C);
    assert_eq!(bytes[8], 0x01);
    assert_eq!(
        bytes,
        vec![0x03, 0, 5, 0, 80, 0, 0x00, 0x2C, 0x01, 0x2C, 0x01, 90, 0]
    );
}

#[test]
fn multi_target_flattens_waypoints() {
    let targets = vec![
        TargetCommand { x_target: 300, y_target: 1, theta_target: 0 },
        TargetCommand { x_target: 2, y_target: 515, theta_target: 45 },
    ];
    let (_, bytes, mode) = encode_command(Command::MultiTarget {
        control: 0,
        timeout: 5,
        move_type: 0,
        max_speed: 80,
        speed_change: 0,
        op_add: 1,
        targets,
    });
    assert_eq!(mode, WriteMode::WithoutResponse);
    assert_eq!(&bytes[..8], &[0x04, 0, 5, 0, 80, 0, 0x00, 1]);
    assert_eq!(&bytes[8..14], &[0x2C, 0x01, 1, 0, 0, 0]);
    assert_eq!(&bytes[14..20], &[2, 0, 0x03, 0x02, 45, 0]);
}

#[test]
fn motor_acceleration_bytes() {
    let (_, bytes, _) = encode_command(Command::MotorAcceleration {
        velocity: 50,
        acceleration: 5,
        rotational_velocity: 300,
        rotational_direction: 0,
        direction: 0,
        priority: 0,
        duration: 100,
    });
    assert_eq!(bytes, vec![0x05, 50, 5, 0x2C, 0x01, 0, 0, 0, 100]);
}

#[test]
fn led_bytes_acknowledged() {
    let (uuid, bytes, mode) = encode_command(Command::Led {
        duration: 16,
        red: 255,
        green: 0,
        blue: 128,
    });
    assert_eq!(uuid, LIGHT);
    assert_eq!(bytes, vec![0x03, 16, 0x01, 0x01, 255, 0, 128]);
    assert_eq!(mode, WriteMode::WithResponse);
}

#[test]
fn led_off_bytes() {
    let (uuid, bytes, mode) = encode_command(Command::LedOff);
    assert_eq!(uuid, LIGHT);
    assert_eq!(bytes, vec![0x01]);
    assert_eq!(mode, WriteMode::WithResponse);
}

#[test]
fn multi_led_bytes() {
    let lights = vec![
        LedCommand { duration: 10, red: 1, blue: 3, green: 2 },
        LedCommand { duration: 20, red: 4, blue: 6, green: 5 },
    ];
    let (_, bytes, _) = encode_command(Command::MultiLed { repetitions: 3, lights });
    assert_eq!(
        bytes,
        vec![0x04, 3, 2, 10, 0x01, 0x01, 1, 2, 3, 20, 0x01, 0x01, 4, 5, 6]
    );
}

#[test]
fn sound_bytes_acknowledged() {
    let (uuid, bytes, mode) = encode_command(Command::Sound { sound_effect: 4, volume: 255 });
    assert_eq!(uuid, SOUND);
    assert_eq!(bytes, vec![0x02, 4, 255]);
    assert_eq!(mode, WriteMode::WithResponse);
}

#[test]
fn midi_bytes() {
    let notes = vec![
        MidiCommand { duration: 30, note: 60, volume: 255 },
        MidiCommand { duration: 30, note: 66, volume: 255 },
    ];
    let (uuid, bytes, _) = encode_command(Command::Midi { repetitions: 0, notes });
    assert_eq!(uuid, SOUND);
    assert_eq!(bytes, vec![0x03, 0, 2, 30, 60, 255, 30, 66, 255]);
}

#[test]
fn parse_target_command_flattens() {
    let bytes = parse_target_command(vec![TargetCommand {
        x_target: 300,
        y_target: 2,
        theta_target: 258,
    }]);
    assert_eq!(bytes, vec![0x2C, 0x01, 2, 0, 2, 1]);
}

#[test]
fn parse_target_command_empty() {
    assert_eq!(parse_target_command(vec![]), Vec::<u8>::new());
}

#[test]
fn parse_led_command_header_and_entries() {
    let bytes = parse_led_command(
        2,
        vec![LedCommand { duration: 5, red: 10, blue: 30, green: 20 }],
    );
    assert_eq!(bytes, vec![0x04, 2, 1, 5, 0x01, 0x01, 10, 20, 30]);
}

#[test]
fn parse_midi_command_header_and_entries() {
    let bytes = parse_midi_command(1, vec![MidiCommand { duration: 9, note: 64, volume: 100 }]);
    assert_eq!(bytes, vec![0x03, 1, 1, 9, 64, 100]);
}

#[test]
fn older_spellings_agree() {
    let targets = vec![TargetCommand { x_target: 7, y_target: 8, theta_target: 9 }];
    assert_eq!(
        parseTargetCommand(targets.clone()),
        parse_target_command(targets)
    );
    let lights = vec![LedCommand { duration: 1, red: 2, blue: 4, green: 3 }];
    assert_eq!(
        parseLedCommand(5, lights.clone()),
        parse_led_command(5, lights)
    );
    let notes = vec![MidiCommand { duration: 1, note: 2, volume: 3 }];
    assert_eq!(parseMidiCommand(5, notes.clone()), parse_midi_command(5, notes));
}
