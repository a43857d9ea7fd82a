use capybara::network::connection::{handle_incoming, status_from_flag, ConnectionStatus, ConnectionTracker, IncomingAction};
use capybara::network::frame::Frame;
use capybara::network::frame_packet;
use capybara::network::packet::{Packet, PacketError};
use capybara::network::{ARRAY_CID, OBJECT_CID, PING_CID, PONG_CID};

#[test]
fn channel_identifiers() {
    assert_eq!(PING_CID, 0x00);
    assert_eq!(PONG_CID, 0x01);
    assert_eq!(OBJECT_CID, 0x02);
    assert_eq!(ARRAY_CID, 0x03);
}

#[test]
fn ping_encodes_little_endian_timestamp() {
    let bytes = Packet::Ping { timestamp: 0x0102030405060708 }.to_bytes();
    assert_eq!(bytes, vec![0x00, 0x08, 0x07, 0x06, 0x05, 0x04, 0x03, 0x02, 0x01]);
}

#[test]
fn pong_encodes_little_endian_timestamp() {
    let bytes = Packet::Pong { timestamp: 1 }.to_bytes();
    assert_eq!(bytes, vec![0x01, 1, 0, 0, 0, 0, 0, 0, 0]);
}

#[test]
fn object_encodes_id_then_data() {
    let bytes = Packet::Object { id: 0x1234, data: vec![9, 8] }.to_bytes();
    assert_eq!(bytes, vec![0x02, 0x34, 0x12, 9, 8]);
}

#[test]
fn array_encodes_id_then_data() {
    let bytes = Packet::Array { id: 7, data: vec![1, 2, 3, 4] }.to_bytes();
    assert_eq!(bytes, vec![0x03, 7, 0, 1, 2, 3, 4]);
}

#[test]
fn unknown_encodes_to_nothing() {
    assert!(Packet::Unknown.to_bytes().is_empty());
}

#[test]
fn bytes_decode_back_to_packets() {
    let packets = vec![
        Packet::Ping { timestamp: 42 },
        Packet::Pong { timestamp: u64::MAX },
        Packet::Object { id: 3, data: vec![] },
        Packet::Object { id: 65535, data: vec![1, 2, 3] },
        Packet::Array { id: 9, data: vec![5, 6] },
    ];
    for packet in packets {
        let bytes = packet.clone().to_bytes();
        assert_eq!(Packet::from_bytes(&bytes), packet);
    }
}

#[test]
fn malformed_bytes_decode_to_unknown() {
    assert_eq!(Packet::from_bytes(&[]), Packet::Unknown);
    assert_eq!(Packet::from_bytes(&[0x00, 1, 2]), Packet::Unknown);
    assert_eq!(Packet::from_bytes(&[0x01, 1, 2, 3, 4, 5, 6, 7, 8, 9]), Packet::Unknown);
    assert_eq!(Packet::from_bytes(&[0x02, 1]), Packet::Unknown);
    assert_eq!(Packet::from_bytes(&[0x03]), Packet::Unknown);
    assert_eq!(Packet::from_bytes(&[0x05, 1, 2, 3]), Packet::Unknown);
}

#[test]
fn decoding_reads_fields() {
    assert_eq!(Packet::from_bytes(&[0x00, 0x10, 0, 0, 0, 0, 0, 0, 0]), Packet::Ping { timestamp: 16 });
    assert_eq!(Packet::from_bytes(&[0x02, 0x01, 0x02, 7]), Packet::Object { id: 0x0201, data: vec![7] });
    assert_eq!(Packet::from_bytes(&[0x03, 0x05, 0x00]), Packet::Array { id: 5, data: vec![] });
}

#[test]
fn get_id_of_each_packet() {
    assert_eq!(Packet::Object { id: 4, data: vec![] }.get_id(), Some(4));
    assert_eq!(Packet::Array { id: 5, data: vec![1] }.get_id(), Some(5));
    assert_eq!(Packet::Ping { timestamp: 1 }.get_id(), None);
    assert_eq!(Packet::Pong { timestamp: 1 }.get_id(), None);
    assert_eq!(Packet::Unknown.get_id(), None);
}

#[test]
fn object_roundtrip() {
    let packet = Packet::from_object(11, &[1, 2, 3, 4]);
    assert_eq!(packet, Packet::Object { id: 11, data: vec![1, 2, 3, 4] });
    assert_eq!(packet.to_object(4), Ok(vec![1, 2, 3, 4]));
}

#[test]
fn object_of_wrong_size_is_refused() {
    let packet = Packet::from_object(11, &[1, 2, 3]);
    assert_eq!(packet.to_object(4), Err(PacketError::ObjectSizeIncorrect));
    assert_eq!(Packet::Array { id: 1, data: vec![1, 2, 3, 4] }.to_object(4), Err(PacketError::NotAnObject));
    assert_eq!(Packet::Ping { timestamp: 0 }.to_object(0), Err(PacketError::NotAnObject));
}

#[test]
fn array_roundtrip() {
    let packet = Packet::from_array(2, &[1, 2, 3, 4, 5, 6]);
    assert_eq!(packet, Packet::Array { id: 2, data: vec![1, 2, 3, 4, 5, 6] });
    assert_eq!(packet.to_array(2), Ok(vec![vec![1, 2], vec![3, 4], vec![5, 6]]));
    assert_eq!(packet.to_array(3), Ok(vec![vec![1, 2, 3], vec![4, 5, 6]]));
}

#[test]
fn empty_array_has_no_items() {
    let packet = Packet::from_array(2, &[]);
    assert_eq!(packet.to_array(4), Ok(vec![]));
}

#[test]
fn uneven_array_is_refused() {
    let packet = Packet::from_array(2, &[1, 2, 3]);
    assert_eq!(packet.to_array(2), Err(PacketError::ArraySizeIncorrect));
    assert_eq!(Packet::Object { id: 1, data: vec![] }.to_array(1), Err(PacketError::NotAnArray));
}

#[test]
fn array_with_header_roundtrip() {
    let packet = Packet::from_array_with_header(8, &[9, 9], &[1, 2, 3, 4]);
    assert_eq!(packet, Packet::Array { id: 8, data: vec![9, 9, 1, 2, 3, 4] });
    assert_eq!(packet.to_array_with_header(2, 2), Ok((vec![9, 9], vec![vec![1, 2], vec![3, 4]])));
}

#[test]
fn array_shorter_than_header_is_refused() {
    let packet = Packet::from_array(8, &[1]);
    assert_eq!(packet.to_array_with_header(2, 1), Err(PacketError::ArraySizeIncorrect));
}

#[test]
fn error_messages() {
    assert_eq!(PacketError::ObjectSizeIncorrect.message(), "Size of object is incorrect");
    assert_eq!(PacketError::NotAnObject.message(), "Packet is not a valid object");
    assert_eq!(PacketError::ArraySizeIncorrect.message(), "Size of array is incorrect");
    assert_eq!(PacketError::NotAnArray.message(), "Packet is not a valid array");
}

#[test]
fn control_packet_frames() {
    match Frame::from_packet(frame_packet::Packet::Ping { timestamp: 1 }) {
        Frame::Binary { data } => {
            let mut expected = vec![0x00, 1];
            expected.extend(vec![0; 15]);
            assert_eq!(data, expected);
        }
        _ => panic!("a ping travels in a binary frame"),
    }
    match Frame::from_packet(frame_packet::Packet::Pong { timestamp: u128::MAX }) {
        Frame::Binary { data } => {
            let mut expected = vec![0x01];
            expected.extend(vec![0xff; 16]);
            assert_eq!(data, expected);
        }
        _ => panic!("a pong travels in a binary frame"),
    }
    assert!(matches!(Frame::from_packet(frame_packet::Packet::Unknown), Frame::Unknown));
}

#[test]
fn control_packets_read_back_from_frames() {
    let frame = Frame::from_packet(frame_packet::Packet::Pong { timestamp: 123456789 });
    assert!(matches!(frame_packet::Packet::from_frame(frame), frame_packet::Packet::Pong { timestamp: 123456789 }));
    let frame = Frame::from_packet(frame_packet::Packet::Ping { timestamp: 7 });
    assert!(matches!(frame_packet::Packet::from_frame(frame), frame_packet::Packet::Ping { timestamp: 7 }));
}

#[test]
fn other_frames_carry_no_control_packet() {
    assert!(matches!(frame_packet::Packet::from_frame(Frame::new_text("ping".to_string())), frame_packet::Packet::Unknown));
    assert!(matches!(frame_packet::Packet::from_frame(Frame::new_binary(vec![0x00, 1, 2])), frame_packet::Packet::Unknown));
    assert!(matches!(frame_packet::Packet::from_frame(Frame::new_binary(vec![])), frame_packet::Packet::Unknown));
    assert!(matches!(frame_packet::Packet::from_frame(Frame::new_binary(vec![0x02; 17])), frame_packet::Packet::Unknown));
    assert!(matches!(frame_packet::Packet::from_frame(Frame::Unknown), frame_packet::Packet::Unknown));
}

#[test]
fn frame_constructors() {
    assert!(matches!(Frame::new_text("a".to_string()), Frame::Text { text } if text == "a"));
    assert!(matches!(Frame::new_binary(vec![1]), Frame::Binary { data } if data == vec![1]));
}

#[test]
fn connection_changes_are_reported_once() {
    let mut tracker = ConnectionTracker::new();
    assert_eq!(tracker.last_status, ConnectionStatus::Disconnected);
    assert!(!tracker.has_disconnected(ConnectionStatus::Disconnected));
    assert!(!tracker.has_connected(ConnectionStatus::Connecting));
    assert!(tracker.has_connected(ConnectionStatus::Connected));
    assert!(!tracker.has_connected(ConnectionStatus::Connected));
    assert!(tracker.has_disconnected(ConnectionStatus::Disconnected));
    assert!(!tracker.has_disconnected(ConnectionStatus::Disconnected));
}

#[test]
fn connection_status_default_and_flag() {
    assert_eq!(ConnectionStatus::default(), ConnectionStatus::Disconnected);
    assert_eq!(status_from_flag(true), ConnectionStatus::Connected);
    assert_eq!(status_from_flag(false), ConnectionStatus::Disconnected);
}

#[test]
fn incoming_ping_is_answered_with_pong() {
    assert_eq!(handle_incoming(Packet::Ping { timestamp: 5 }, 100), IncomingAction::Reply(Packet::Pong { timestamp: 5 }));
}

#[test]
fn incoming_pong_gives_round_trip_time() {
    assert_eq!(handle_incoming(Packet::Pong { timestamp: 1000 }, 1250), IncomingAction::UpdatePing(250));
    assert_eq!(handle_incoming(Packet::Pong { timestamp: 0 }, (1u64 << 32) + 3), IncomingAction::UpdatePing(3));
}

#[test]
fn other_incoming_packets_are_delivered() {
    let packet = Packet::Object { id: 1, data: vec![2] };
    assert_eq!(handle_incoming(packet.clone(), 0), IncomingAction::Deliver(packet));
    assert_eq!(handle_incoming(Packet::Unknown, 0), IncomingAction::Deliver(Packet::Unknown));
}
