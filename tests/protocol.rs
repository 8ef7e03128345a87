use ev3robot::protocol::{
    discovery_probe, frame, greeting, join_labels, parse_message, power_frame, reply_port,
    sensor_color_frame, ControllerMessage, RobotCommand,
};

fn packet(kind: u8, payload: &[u8]) -> Vec<u8> {
    let mut b = vec![1u8, kind];
    b.extend_from_slice(payload);
    b
}

#[test]
fn set_track_keeps_values_unclamped() {
    let mut payload = Vec::new();
    payload.extend_from_slice(&1.5f32.to_be_bytes());
    payload.extend_from_slice(&(-2.0f32).to_be_bytes());
    let msg = parse_message(&packet(10, &payload)).unwrap();
    match msg {
        ControllerMessage::Command(RobotCommand::SetTrack(l, r)) => {
            assert_eq!(f32::from_bits(l), 1.5);
            assert_eq!(f32::from_bits(r), -2.0);
        }
        other => panic!("unexpected {:?}", other),
    }
}

#[test]
fn set_track_reads_big_endian() {
    let msg = parse_message(&packet(10, &[0x3f, 0x80, 0, 0, 0xc0, 0, 0, 0])).unwrap();
    assert_eq!(msg, ControllerMessage::Command(RobotCommand::SetTrack(0x3f80_0000, 0xc000_0000)));
}

#[test]
fn short_set_track_is_ignored() {
    assert_eq!(parse_message(&packet(10, &[0x3f, 0x80, 0, 0, 0xc0, 0, 0])), None);
}

#[test]
fn each_message_type_decodes() {
    assert_eq!(parse_message(&packet(0, &[])), Some(ControllerMessage::Pong));
    assert_eq!(
        parse_message(&packet(12, &0.25f32.to_be_bytes())),
        Some(ControllerMessage::Command(RobotCommand::SetTrim(0.25f32.to_bits())))
    );
    assert_eq!(parse_message(&packet(20, &[])), Some(ControllerMessage::Command(RobotCommand::Kick)));
    assert_eq!(
        parse_message(&packet(30, &[1])),
        Some(ControllerMessage::Command(RobotCommand::SetPid(true)))
    );
    assert_eq!(
        parse_message(&packet(30, &[0])),
        Some(ControllerMessage::Command(RobotCommand::SetPid(false)))
    );
    assert_eq!(
        parse_message(&packet(30, &[7])),
        Some(ControllerMessage::Command(RobotCommand::SetPid(true)))
    );
    assert_eq!(
        parse_message(&packet(31, &[])),
        Some(ControllerMessage::Command(RobotCommand::SetForeground))
    );
    assert_eq!(
        parse_message(&packet(32, &[])),
        Some(ControllerMessage::Command(RobotCommand::SetBackground))
    );
    assert_eq!(
        parse_message(&packet(40, b"Robo")),
        Some(ControllerMessage::SetName(String::from("Robo")))
    );
    assert_eq!(
        parse_message(&packet(41, b"lime")),
        Some(ControllerMessage::SetLedColor(String::from("lime")))
    );
}

#[test]
fn malformed_packets_are_ignored() {
    assert_eq!(parse_message(&[]), None);
    assert_eq!(parse_message(&[1]), None);
    assert_eq!(parse_message(&[2, 20]), None);
    assert_eq!(parse_message(&packet(99, &[1, 2, 3])), None);
    assert_eq!(parse_message(&packet(30, &[])), None);
    assert_eq!(parse_message(&packet(12, &[0, 0])), None);
    assert_eq!(parse_message(&packet(40, &[0xff, 0xfe])), None);
}

#[test]
fn discovery_probe_and_reply() {
    assert_eq!(discovery_probe(), vec![0, 0, 0, 1]);
    assert_eq!(reply_port(&[0, 0, 0x1d, 0x4c]), Some(7500));
    assert_eq!(reply_port(&[9, 9, 0x12, 0x34, 5]), Some(0x1234));
    assert_eq!(reply_port(&[0, 0, 1]), None);
}

#[test]
fn outbound_frames() {
    assert_eq!(frame(2, b"EV3"), vec![1, 2, b'E', b'V', b'3']);
    assert_eq!(sensor_color_frame(10, 20, 30), vec![1, 5, 10, 20, 30]);
    let mut expected = vec![1u8, 6];
    expected.extend_from_slice(&0.75f32.to_be_bytes());
    assert_eq!(power_frame(0.75f32.to_bits()), expected);
    assert_eq!(power_frame(0x0102_0304), vec![1, 6, 1, 2, 3, 4]);
}

#[test]
fn greeting_frames() {
    let labels = vec![String::from("lime"), String::from("red")];
    assert_eq!(join_labels(&labels), b"lime;red".to_vec());
    assert_eq!(join_labels(&Vec::new()), Vec::<u8>::new());
    let g = greeting(&String::from("0.1"), &String::from("EV3"), &String::from("black"), &labels);
    assert_eq!(g.len(), 4);
    assert_eq!(g[0], b"\x01\x010.1".to_vec());
    assert_eq!(g[1], b"\x01\x02EV3".to_vec());
    assert_eq!(g[2], b"\x01\x03black".to_vec());
    assert_eq!(g[3], b"\x01\x04lime;red".to_vec());
}
