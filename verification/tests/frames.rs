use anauuno::error::Error;
use anauuno::fragment::{encode_frames, fragment, Reassembler};
use anauuno::frame::{Frame, FrameHeader, FrameType};
use anauuno::message::{ControlMessageType, Message};

#[test]
fn version_request_is_ten_bytes_on_the_wire() {
    let message = Message::new(
        0,
        false,
        ControlMessageType::VersionRequest.to_u16(),
        vec![0x00, 0x01, 0x00, 0x07],
    );
    assert_eq!(
        message.write_unencrypted(),
        vec![0x00, 0x03, 0x00, 0x06, 0x00, 0x01, 0x00, 0x01, 0x00, 0x07]
    );
}

#[test]
fn frame_type_numbers() {
    assert_eq!(FrameType::from_u8(0), Some(FrameType::Middle));
    assert_eq!(FrameType::from_u8(1), Some(FrameType::First));
    assert_eq!(FrameType::from_u8(2), Some(FrameType::Last));
    assert_eq!(FrameType::from_u8(3), Some(FrameType::Single));
    assert_eq!(FrameType::from_u8(4), None);
    assert_eq!(FrameType::Single.to_u8(), 3);
}

#[test]
fn header_flags_layout() {
    let header = FrameHeader {
        channel: 7,
        length: 0x1234,
        frame_type: FrameType::Last,
        is_control_message: true,
        encrypted: true,
    };
    assert_eq!(header.to_bytes(), vec![7, 0b1110, 0x12, 0x34]);
    assert_eq!(FrameHeader::from_bytes(&[7, 0b1110, 0x12, 0x34]), header);
}

#[test]
fn header_ignores_reserved_bits_on_read() {
    let header = FrameHeader::from_bytes(&[1, 0xF3, 0, 2]);
    assert_eq!(header.frame_type, FrameType::Single);
    assert!(!header.is_control_message);
    assert!(!header.encrypted);
    assert_eq!(header.length, 2);
}

#[test]
fn fragmented_inbound_message_is_reassembled() {
    let wire: Vec<u8> = vec![
        0x02, 0x01, 0x00, 0x04, 0x00, 0x00, 0x00, 0x0A, 0x80, 0x00, 0x01, 0x02, // first
        0x02, 0x00, 0x00, 0x04, 0x03, 0x04, 0x05, 0x06, // middle
        0x02, 0x02, 0x00, 0x02, 0x07, 0x08, // last
    ];
    let mut state = Reassembler::new();
    let mut at = 0;
    let mut found = None;
    let mut frames = 0;
    while at < wire.len() {
        let (frame, used) = Frame::decode(&wire[at..]).expect("a whole frame");
        at += used;
        frames += 1;
        let read =
            Message::try_read(&mut state, &frame.header, frame.total_length, &frame.payload)
                .expect("no framing error");
        if frames < 3 {
            assert!(read.is_none());
            assert!(state.is_active());
        } else {
            found = read;
        }
    }
    let message = found.expect("the last frame completes the message");
    assert_eq!(message.channel, 2);
    assert_eq!(message.msg_type, 0x8000);
    assert_eq!(message.data, vec![1, 2, 3, 4, 5, 6, 7, 8]);
    assert!(!state.is_active());
}

#[test]
fn first_frame_announces_total() {
    let (frame, used) =
        Frame::decode(&[0x02, 0x01, 0x00, 0x04, 0x00, 0x00, 0x00, 0x0A, 0x80, 0x00, 0x01, 0x02])
            .unwrap();
    assert_eq!(used, 12);
    assert_eq!(frame.total_length, Some(10));
    assert_eq!(frame.payload, vec![0x80, 0x00, 0x01, 0x02]);
}

#[test]
fn incomplete_frame_gives_nothing() {
    assert!(Frame::decode(&[0x02, 0x03, 0x00]).is_none());
    assert!(Frame::decode(&[0x02, 0x03, 0x00, 0x04, 1, 2, 3]).is_none());
    assert!(Frame::decode(&[0x02, 0x01, 0x00, 0x01, 0, 0, 0, 9]).is_none());
}

#[test]
fn fragment_splits_at_the_limit() {
    let payload: Vec<u8> = (0u8..10).collect();
    let frames = fragment(5, false, true, &payload, 4);
    assert_eq!(frames.len(), 3);
    assert_eq!(frames[0].header.frame_type, FrameType::First);
    assert_eq!(frames[0].total_length, Some(10));
    assert_eq!(frames[0].payload, vec![0, 1, 2, 3]);
    assert_eq!(frames[1].header.frame_type, FrameType::Middle);
    assert_eq!(frames[1].payload, vec![4, 5, 6, 7]);
    assert_eq!(frames[2].header.frame_type, FrameType::Last);
    assert_eq!(frames[2].payload, vec![8, 9]);
    assert!(frames.iter().all(|f| f.header.encrypted && f.header.channel == 5));
    let bytes = encode_frames(&frames);
    assert_eq!(bytes.len(), 8 + 4 + 4 + 4 + 4 + 2);
}

#[test]
fn fragment_keeps_small_payload_single() {
    let frames = fragment(1, true, false, &[9, 8, 7], 3);
    assert_eq!(frames.len(), 1);
    assert_eq!(frames[0].header.frame_type, FrameType::Single);
    assert_eq!(frames[0].total_length, None);
    assert_eq!(frames[0].encode(), vec![1, 0b0111, 0, 3, 9, 8, 7]);
}

#[test]
fn middle_frame_without_first_is_a_framing_error() {
    let mut state = Reassembler::new();
    let header = FrameHeader {
        channel: 2,
        length: 1,
        frame_type: FrameType::Middle,
        is_control_message: false,
        encrypted: false,
    };
    assert_eq!(
        Message::try_read(&mut state, &header, None, &[1]).unwrap_err(),
        Error::FramingError
    );
}

#[test]
fn single_frame_too_short_for_a_tag_is_a_framing_error() {
    let mut state = Reassembler::new();
    let header = FrameHeader {
        channel: 2,
        length: 1,
        frame_type: FrameType::Single,
        is_control_message: false,
        encrypted: false,
    };
    assert_eq!(
        Message::try_read(&mut state, &header, None, &[1]).unwrap_err(),
        Error::FramingError
    );
}

#[test]
fn written_message_reads_back_through_any_limit() {
    let data: Vec<u8> = (0u8..=200).collect();
    let message = Message::new(6, false, 0x8001, data.clone());
    for limit in [1usize, 2, 3, 7, 64, 202, 203, 204, 4096] {
        let wire = message.write(false, &[], limit);
        let mut state = Reassembler::new();
        let mut at = 0;
        let mut got = None;
        while at < wire.len() {
            let (frame, used) = Frame::decode(&wire[at..]).unwrap();
            at += used;
            got = Message::try_read(&mut state, &frame.header, frame.total_length, &frame.payload)
                .unwrap();
        }
        let got = got.unwrap();
        assert_eq!(got.channel, 6);
        assert_eq!(got.msg_type, 0x8001);
        assert_eq!(got.data, data);
        assert!(!got.is_control);
    }
}

#[test]
fn wire_len_counts_header_total_and_payload() {
    let mut header = FrameHeader {
        channel: 2,
        length: 4,
        frame_type: FrameType::First,
        is_control_message: false,
        encrypted: false,
    };
    assert_eq!(header.wire_len(), 12);
    header.frame_type = FrameType::Middle;
    assert_eq!(header.wire_len(), 8);
    header.length = 0xFFFF;
    header.frame_type = FrameType::Single;
    assert_eq!(header.wire_len(), 4 + 0xFFFF);
    assert_eq!(anauuno::frame::HEADER_LEN, 4);
}

#[test]
fn largest_single_frame_round_trip() {
    let payload = vec![0x5A; 0xFFFF];
    let frame = Frame {
        header: FrameHeader {
            channel: 255,
            length: 0xFFFF,
            frame_type: FrameType::Single,
            is_control_message: true,
            encrypted: true,
        },
        total_length: None,
        payload,
    };
    let wire = frame.encode();
    assert_eq!(wire.len(), 4 + 0xFFFF);
    assert_eq!(wire[..4], [255, 0b1111, 0xFF, 0xFF]);
    let (back, used) = Frame::decode(&wire).unwrap();
    assert_eq!(used, wire.len());
    assert_eq!(back, frame);
}

#[test]
fn empty_payload_frame_round_trip() {
    for kind in [FrameType::Single, FrameType::Middle, FrameType::Last, FrameType::First] {
        let frame = Frame {
            header: FrameHeader {
                channel: 1,
                length: 0,
                frame_type: kind,
                is_control_message: false,
                encrypted: false,
            },
            total_length: if kind == FrameType::First { Some(0xDEADBEEF) } else { None },
            payload: vec![],
        };
        let mut wire = frame.encode();
        wire.push(0x77);
        let (back, used) = Frame::decode(&wire).unwrap();
        assert_eq!(used, wire.len() - 1);
        assert_eq!(back, frame);
    }
}
