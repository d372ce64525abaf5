use myowndesk::encoder::EncodedFrame;
use myowndesk::message::{DataPacket, FrameType, Message, Type};
use myowndesk::nal::{contains_idr, split_nal_units};
use myowndesk::transport::{pauses_after, FrameAssembler, Outgoing, Packetizer};

fn frame(nal_units: Vec<u8>) -> EncodedFrame {
    EncodedFrame {
        nal_units,
        frame_type: FrameType::Delta,
        display_index: 1,
        pts: 0,
        width: 2,
        height: 2,
    }
}

fn packet(o: &Outgoing) -> &DataPacket {
    match &o.message.kind {
        Some(Type::DataPacket(p)) => p,
        _ => panic!("期望 DataPacket"),
    }
}

fn data_packet(frame_seq: u32, payload: &[u8]) -> DataPacket {
    DataPacket {
        frame_type: 0,
        display_index: 0,
        payload: payload.to_vec(),
        frame_seq,
        fragment_index: 0,
        fragment_count: 1,
        encrypted_payload: Vec::new(),
        nonce: Vec::new(),
        key_version: 0,
    }
}

#[test]
fn units_are_cut_before_their_start_codes() {
    let data = [9, 0, 0, 1, 7, 7, 0, 0, 0, 1, 8, 8, 0, 0, 1, 9];
    assert_eq!(
        split_nal_units(&data),
        vec![&data[..1], &data[1..6], &data[6..12], &data[12..]]
    );
}

#[test]
fn a_long_code_stays_whole() {
    let data = [0, 0, 0, 1, 0x67, 1, 0, 0, 0, 1, 0x65, 2];
    let units = split_nal_units(&data);
    assert_eq!(units, vec![&data[..6], &data[6..]]);
    assert_eq!(units.concat(), data.to_vec());
    let one = [0, 0, 0, 1, 0x65, 0x88];
    assert_eq!(split_nal_units(&one), vec![&one[..]]);
    let late = [9, 0, 0, 0, 1, 0x65, 0x88];
    assert_eq!(split_nal_units(&late), vec![&late[..1], &late[1..]]);
}

#[test]
fn data_without_start_codes_is_one_unit() {
    assert_eq!(split_nal_units(&[1, 2, 3, 4, 5]), vec![&[1, 2, 3, 4, 5][..]]);
    assert_eq!(split_nal_units(&[0, 0, 1]), vec![&[0, 0, 1][..]]);
    assert!(split_nal_units(&[]).is_empty());
}

#[test]
fn every_unit_but_the_first_begins_with_a_code() {
    let data = [5, 5, 5, 5, 0, 0, 0, 1, 6, 0, 0, 1, 7, 0, 0, 0, 0, 1, 8];
    for unit in &split_nal_units(&data)[1..] {
        assert!(unit.starts_with(&[0, 0, 1]) || unit.starts_with(&[0, 0, 0, 1]), "{:?}", unit);
    }
}

#[test]
fn a_short_code_announces_a_keyframe_too() {
    assert!(contains_idr(&[0, 0, 1, 0x65, 0]));
    assert!(!contains_idr(&[0, 0, 1, 0x65]));
    assert!(contains_idr(&[0, 0, 1, 0x41, 0, 0, 0, 1, 0x25]));
    assert!(!contains_idr(&[0, 0, 0, 1, 0x41, 0x65, 0x65]));
}

#[test]
fn a_frame_is_sent_unit_by_unit() {
    let mut packetizer = Packetizer::new();
    let data = vec![9, 0, 0, 1, 7, 7, 0, 0, 0, 1, 8, 8];
    let out = packetizer.packetize(&frame(data.clone()));
    assert_eq!(packetizer.frame_seq, 1);
    assert_eq!(out.len(), 3);
    for (k, o) in out.iter().enumerate() {
        let p = packet(o);
        assert_eq!(p.frame_seq, 1);
        assert_eq!(p.fragment_index, k as u32);
        assert_eq!(p.fragment_count, 3);
        assert_eq!(p.frame_type, 1);
        assert_eq!(p.display_index, 1);
        assert!(p.encrypted_payload.is_empty() && p.nonce.is_empty() && p.key_version == 0);
        assert!(!o.pause_after);
    }
    assert_eq!(packet(&out[1]).payload, vec![0, 0, 1, 7, 7]);
    packetizer.packetize(&frame(data));
    assert_eq!(packetizer.frame_seq, 2);
}

#[test]
fn frame_numbers_start_again() {
    let mut packetizer = Packetizer { frame_seq: u32::MAX };
    packetizer.packetize(&frame(vec![1]));
    assert_eq!(packetizer.frame_seq, 0);
}

#[test]
fn the_sender_rests_after_every_twentieth_packet() {
    assert!(!pauses_after(0));
    assert!(!pauses_after(19));
    assert!(pauses_after(20));
    assert!(!pauses_after(21));
    assert!(pauses_after(40));
    let mut packetizer = Packetizer::new();
    let out = packetizer.packetize(&frame([0, 0, 1, 5].repeat(25)));
    assert_eq!(out.len(), 25);
    for (k, o) in out.iter().enumerate() {
        assert_eq!(o.pause_after, k == 20);
    }
}

#[test]
fn frames_survive_transport() {
    let first = vec![0, 0, 0, 1, 0x67, 1, 0, 0, 0, 1, 0x65, 2];
    let second = vec![0, 0, 0, 1, 0x41, 3, 3];
    let mut packetizer = Packetizer::new();
    let mut assembler = FrameAssembler::new();
    let mut frames = Vec::new();
    for data in [&first, &second] {
        for o in packetizer.packetize(&frame(data.clone())) {
            frames.extend(assembler.on_message(&o.message));
        }
    }
    assert_eq!(frames, vec![first]);
    assert_eq!(assembler.flush(), Some(second));
    assert_eq!(assembler.flush(), None);
}

#[test]
fn a_frame_ends_where_another_begins() {
    let mut assembler = FrameAssembler::new();
    assert_eq!(assembler.on_packet(&data_packet(1, b"ab")), None);
    assert_eq!(assembler.on_packet(&data_packet(1, b"cd")), None);
    assert_eq!(assembler.on_packet(&data_packet(2, b"ef")), Some(b"abcd".to_vec()));
    assert_eq!(assembler.on_packet(&data_packet(1, b"gh")), Some(b"ef".to_vec()));
    assert_eq!(assembler.flush(), Some(b"gh".to_vec()));
    assert_eq!(assembler.on_packet(&data_packet(7, b"i")), None);
}

#[test]
fn other_messages_are_no_packets() {
    let mut assembler = FrameAssembler::new();
    assembler.on_packet(&data_packet(1, b"ab"));
    assert_eq!(assembler.on_message(&Message { kind: None }), None);
    assert_eq!(assembler.flush(), Some(b"ab".to_vec()));
}
