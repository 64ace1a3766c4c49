use laptop_toio::bridge::{flatten_args, handle_packet, inbound_packet, outbound_packet};
use laptop_toio::codec::Command;
use laptop_toio::update::Update;

fn osc_int_message(addr: &str, args: Vec<i32>) -> Vec<u8> {
    rosc::encoder::encode(&rosc::OscPacket::Message(rosc::OscMessage {
        addr: addr.to_string(),
        args: args.into_iter().map(rosc::OscType::Int).collect(),
    }))
    .unwrap()
}

#[test]
fn flatten_keeps_integers_in_order() {
    let r = flatten_args(&vec![Some(1), None, Some(2), None, Some(3)]);
    assert_eq!(r, vec![1, 2, 3]);
    assert_eq!(flatten_args(&vec![]), Vec::<i32>::new());
}

#[test]
fn motor_basic_routes_by_index() {
    let r = handle_packet("/motorbasic", &vec![4, 1, 50, 2, 60]);
    match r {
        Some((index, Command::MotorControl { left_direction, left_speed, right_direction, right_speed })) => {
            assert_eq!(index, 4);
            assert_eq!(left_direction, 1);
            assert_eq!(left_speed, 50);
            assert_eq!(right_direction, 2);
            assert_eq!(right_speed, 60);
        }
        other => panic!("unexpected route: {:?}", other),
    }
}

#[test]
fn arguments_truncate_to_wire_width() {
    // 300 does not fit a byte: the low eight bits (44) go on the wire.
    let r = handle_packet("/motorbasic", &vec![0, 300, -1, 1, 2]);
    match r {
        Some((_, Command::MotorControl { left_direction, left_speed, .. })) => {
            assert_eq!(left_direction, 44);
            assert_eq!(left_speed, 255);
        }
        other => panic!("unexpected route: {:?}", other),
    }
    // 70000 does not fit sixteen bits: 70000 - 65536 = 4464 goes out.
    let r = handle_packet("/motortarget", &vec![0, 0, 5, 0, 80, 0, 70000, 300, 90]);
    match r {
        Some((_, Command::MotorTarget { x_target, y_target, theta_target, .. })) => {
            assert_eq!(x_target, 4464);
            assert_eq!(y_target, 300);
            assert_eq!(theta_target, 90);
        }
        other => panic!("unexpected route: {:?}", other),
    }
}

#[test]
fn multi_target_splits_triples() {
    let r = handle_packet("/multitarget", &vec![2, 0, 5, 0, 80, 0, 100, 200, 90, 300, 400, 180]);
    match r {
        Some((index, Command::MultiTarget { op_add, targets, .. })) => {
            assert_eq!(index, 2);
            assert_eq!(op_add, 1);
            assert_eq!(targets.len(), 2);
            assert_eq!(targets[0].x_target, 100);
            assert_eq!(targets[0].y_target, 200);
            assert_eq!(targets[0].theta_target, 90);
            assert_eq!(targets[1].x_target, 300);
            assert_eq!(targets[1].y_target, 400);
            assert_eq!(targets[1].theta_target, 180);
        }
        other => panic!("unexpected route: {:?}", other),
    }
}

#[test]
fn ragged_entry_lists_are_dropped() {
    // Two integers beyond the multi-target header is not a whole triple.
    assert!(handle_packet("/multitarget", &vec![0, 0, 5, 0, 80, 0, 100, 200]).is_none());
    assert!(handle_packet("/multiLed", &vec![0, 2, 10, 1, 2]).is_none());
    assert!(handle_packet("/midi", &vec![0, 2, 30, 60]).is_none());
}

#[test]
fn multi_led_routes_quadruples() {
    let r = handle_packet("/multiLed", &vec![1, 2, 10, 255, 128, 64]);
    match r {
        Some((index, Command::MultiLed { repetitions, lights })) => {
            assert_eq!(index, 1);
            assert_eq!(repetitions, 2);
            assert_eq!(lights.len(), 1);
            assert_eq!(lights[0].duration, 10);
            assert_eq!(lights[0].red, 255);
            assert_eq!(lights[0].green, 128);
            assert_eq!(lights[0].blue, 64);
        }
        other => panic!("unexpected route: {:?}", other),
    }
}

#[test]
fn midi_routes_triples() {
    let r = handle_packet("/midi", &vec![0, 1, 30, 60, 100, 30, 66, 100]);
    match r {
        Some((_, Command::Midi { repetitions, notes })) => {
            assert_eq!(repetitions, 1);
            assert_eq!(notes.len(), 2);
            assert_eq!(notes[1].note, 66);
            assert_eq!(notes[1].duration, 30);
            assert_eq!(notes[1].volume, 100);
        }
        other => panic!("unexpected route: {:?}", other),
    }
}

#[test]
fn unknown_addresses_are_dropped() {
    assert!(handle_packet("/nosuch", &vec![0, 1, 2, 3, 4]).is_none());
    assert!(handle_packet("", &vec![0]).is_none());
}

#[test]
fn missing_arguments_are_dropped() {
    assert!(handle_packet("/motorbasic", &vec![]).is_none());
    assert!(handle_packet("/motorbasic", &vec![0, 1, 50, 2]).is_none());
    assert!(handle_packet("/sound", &vec![0, 4]).is_none());
}

#[test]
fn negative_index_is_dropped() {
    assert!(handle_packet("/motorbasic", &vec![-1, 1, 50, 2, 60]).is_none());
}

#[test]
fn inbound_datagram_routes_through_osc() {
    let buf = osc_int_message("/led", vec![3, 16, 255, 0, 128]);
    let r = inbound_packet(&buf);
    match r {
        Some((index, Command::Led { duration, red, green, blue })) => {
            assert_eq!(index, 3);
            assert_eq!(duration, 16);
            assert_eq!(red, 255);
            assert_eq!(green, 0);
            assert_eq!(blue, 128);
        }
        other => panic!("unexpected route: {:?}", other),
    }
}

#[test]
fn inbound_skips_non_integer_arguments() {
    // A stray float argument is skipped; the integers around it route.
    let buf = rosc::encoder::encode(&rosc::OscPacket::Message(rosc::OscMessage {
        addr: "/sound".to_string(),
        args: vec![
            rosc::OscType::Int(0),
            rosc::OscType::Float(1.5),
            rosc::OscType::Int(4),
            rosc::OscType::Int(200),
        ],
    }))
    .unwrap();
    let r = inbound_packet(&buf);
    match r {
        Some((index, Command::Sound { sound_effect, volume })) => {
            assert_eq!(index, 0);
            assert_eq!(sound_effect, 4);
            assert_eq!(volume, 200);
        }
        other => panic!("unexpected route: {:?}", other),
    }
}

#[test]
fn garbage_datagrams_are_dropped() {
    assert!(inbound_packet(&[0x00, 0x01, 0x02]).is_none());
    assert!(inbound_packet(&[]).is_none());
}

#[test]
fn outbound_battery_announcement_round_trips() {
    let bytes = outbound_packet(5, &Update::Battery { level: 75 }).unwrap();
    let (_, packet) = rosc::decoder::decode_udp(&bytes).unwrap();
    match packet {
        rosc::OscPacket::Message(msg) => {
            assert_eq!(msg.addr, "/battery");
            assert_eq!(
                msg.args,
                vec![rosc::OscType::Int(5), rosc::OscType::Int(75)]
            );
        }
        other => panic!("unexpected packet: {:?}", other),
    }
}

#[test]
fn outbound_position_announces_centre_only() {
    let bytes = outbound_packet(
        0,
        &Update::Position { x_center: 300, y_center: 16, theta: 90, x_sensor: 301, y_sensor: 17 },
    )
    .unwrap();
    let (_, packet) = rosc::decoder::decode_udp(&bytes).unwrap();
    match packet {
        rosc::OscPacket::Message(msg) => {
            assert_eq!(msg.addr, "/position");
            assert_eq!(
                msg.args,
                vec![
                    rosc::OscType::Int(0),
                    rosc::OscType::Int(300),
                    rosc::OscType::Int(16),
                    rosc::OscType::Int(90),
                ]
            );
        }
        other => panic!("unexpected packet: {:?}", other),
    }
}

#[test]
fn outbound_button_announces_inverted_flag() {
    let bytes = outbound_packet(1, &Update::Button { pressed: true }).unwrap();
    let (_, packet) = rosc::decoder::decode_udp(&bytes).unwrap();
    match packet {
        rosc::OscPacket::Message(msg) => {
            assert_eq!(msg.addr, "/button");
            assert_eq!(msg.args, vec![rosc::OscType::Int(1), rosc::OscType::Int(0x00)]);
        }
        other => panic!("unexpected packet: {:?}", other),
    }
    let bytes = outbound_packet(1, &Update::Button { pressed: false }).unwrap();
    let (_, packet) = rosc::decoder::decode_udp(&bytes).unwrap();
    match packet {
        rosc::OscPacket::Message(msg) => {
            assert_eq!(msg.args, vec![rosc::OscType::Int(1), rosc::OscType::Int(0x80)]);
        }
        other => panic!("unexpected packet: {:?}", other),
    }
}

#[test]
fn outbound_motor_responses_share_an_address() {
    for update in [
        Update::MotorTargetResponse { control: 3, response: 0 },
        Update::MultiTargetResponse { control: 3, response: 0 },
    ] {
        let bytes = outbound_packet(2, &update).unwrap();
        let (_, packet) = rosc::decoder::decode_udp(&bytes).unwrap();
        match packet {
            rosc::OscPacket::Message(msg) => assert_eq!(msg.addr, "/motorresponse"),
            other => panic!("unexpected packet: {:?}", other),
        }
    }
}

#[test]
fn outbound_markers_carry_only_the_index() {
    let bytes = outbound_packet(7, &Update::PositionMissed).unwrap();
    let (_, packet) = rosc::decoder::decode_udp(&bytes).unwrap();
    match packet {
        rosc::OscPacket::Message(msg) => {
            assert_eq!(msg.addr, "/positionMissed");
            assert_eq!(msg.args, vec![rosc::OscType::Int(7)]);
        }
        other => panic!("unexpected packet: {:?}", other),
    }
}
