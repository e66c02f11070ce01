use arsdk::ardrone3::{ArDrone3, Piloting, PilotingState, PCMD};
use arsdk::command::Feature;
use arsdk::frame::{encode_frame, parse_frame, BufferID, Error, Frame, Param, Type};
use arsdk::jumping_sumo::{Class, PilotState, PilotingID};

fn assert_frames_match(expected: &[u8], frame: Frame) {
    let buf: Vec<u8> = expected.to_vec();
    let (decoded, consumed) = parse_frame(&buf, 0, buf.len()).expect("Should deserialize");
    assert_eq!(frame, decoded);
    assert_eq!(expected.len(), consumed);

    let encoded = encode_frame(&frame).expect("Should serialize");
    assert_eq!(expected, &encoded[..]);
}

#[test]
fn test_full_frame() {
    let message: [u8; 14] = [
        0x2, 0xa, 0x67, 0xe, 0x0, 0x0, 0x0, 0x3, 0x0, 0x0, 0x0, 0x1, 0x0, 0x9c,
    ];

    let pilot_state = PilotState {
        flag: true,
        speed: 0,
        turn: -100,
    };

    let frame = Frame {
        frame_type: Type::Data,
        buffer_id: BufferID::CDNonAck,
        sequence_id: 103,
        feature: Some(Feature::JumpingSumo(Class::Piloting(PilotingID::Pilot(
            pilot_state,
        )))),
    };

    assert_frames_match(&message, frame)
}

#[test]
fn test_jumpingsumo_move_command() {
    let message: [u8; 14] = [
        0x2, 0xa, 0x67, 0xe, 0x0, 0x0, 0x0, 0x3, 0x0, 0x0, 0x0, 0x1, 0x0, 0x9c,
    ];

    let pilot_state = PilotState {
        flag: true,
        speed: 0,
        turn: -100,
    };

    let frame = Frame {
        frame_type: Type::Data,
        buffer_id: BufferID::CDNonAck,
        sequence_id: 103,
        feature: Some(Feature::JumpingSumo(Class::Piloting(PilotingID::Pilot(
            pilot_state,
        )))),
    };

    assert_frames_match(&message, frame);
}

#[test]
fn test_ping_feature_from_anafi4k() {
    let message: [u8; 15] = [2, 0, 2, 15, 0, 0, 0, 155, 216, 221, 13, 0, 0, 0, 0];
    let frame = Frame {
        frame_type: Type::Data,
        buffer_id: BufferID::PING,
        sequence_id: 2,
        feature: Some(Feature::Unknown {
            feature: 155,
            data: vec![216, 221, 13, 0, 0, 0, 0],
        }),
    };

    assert_frames_match(&message, frame);
}

#[test]
fn test_frame() {
    assert_frame(Type::Uninitialized, 0);
    assert_frame(Type::Ack, 1);
    assert_frame(Type::Data, 2);
    assert_frame(Type::LowLatency, 3);
    assert_frame(Type::DataWithAck, 4);
    assert_frame(Type::Max, 5);
}

#[test]
fn frame_test_frame() {
    assert_frame(Type::Uninitialized, 0);
    assert_frame(Type::Ack, 1);
    assert_frame(Type::Data, 2);
    assert_frame(Type::LowLatency, 3);
    assert_frame(Type::DataWithAck, 4);
    assert_frame(Type::Max, 5);
}

#[test]
fn test_command() {
    assert_command(BufferID::CDNonAck, 10);
    assert_command(BufferID::CDAck, 11);
    assert_command(BufferID::CDEmergency, 12);
    assert_command(BufferID::CDVideoAck, 13);
    assert_command(BufferID::DCVideo, 125);
    assert_command(BufferID::DCEvent, 126);
    assert_command(BufferID::DCNavdata, 127);
}

#[test]
fn frame_test_command() {
    assert_command(BufferID::CDNonAck, 10);
    assert_command(BufferID::CDAck, 11);
    assert_command(BufferID::CDEmergency, 12);
    assert_command(BufferID::CDVideoAck, 13);
    assert_command(BufferID::DCVideo, 125);
    assert_command(BufferID::DCEvent, 126);
    assert_command(BufferID::DCNavdata, 127);
}

fn assert_frame(t: Type, v: u8) {
    assert_eq!(t, Type::from_code(v).unwrap());
    let as_u8: u8 = t.code();
    assert_eq!(v, as_u8);
}

fn assert_command(c: BufferID, v: u8) {
    assert_eq!(c, BufferID::from_code(v).unwrap());
    let as_u8: u8 = c.code();
    assert_eq!(v, as_u8);
}

#[test]
fn round_trip_takeoff_frame() {
    let frame = Frame {
        frame_type: Type::DataWithAck,
        buffer_id: BufferID::CDAck,
        sequence_id: 7,
        feature: Some(Feature::ArDrone3(Some(ArDrone3::Piloting(
            Piloting::TakeOff,
        )))),
    };
    let bytes = encode_frame(&frame).expect("Should serialize");
    assert_eq!(bytes, vec![4, 11, 7, 11, 0, 0, 0, 1, 0, 1, 0]);
    let (decoded, consumed) = parse_frame(&bytes, 0, bytes.len()).expect("Should deserialize");
    assert_eq!(frame, decoded);
    assert_eq!(consumed, bytes.len());
}

#[test]
fn round_trip_empty_payload_frame() {
    let frame = Frame {
        frame_type: Type::Ack,
        buffer_id: BufferID::ACKFromSendWithAck,
        sequence_id: 0,
        feature: None,
    };
    let bytes = encode_frame(&frame).expect("Should serialize");
    assert_eq!(bytes, vec![1, 139, 0, 7, 0, 0, 0]);
    let (decoded, consumed) = parse_frame(&bytes, 0, bytes.len()).expect("Should deserialize");
    assert_eq!(frame, decoded);
    assert_eq!(consumed, 7);
}

#[test]
fn round_trip_unknown_feature() {
    // A valid header whose feature discriminator (200) is not modeled:
    // decoding keeps the raw bytes and re-encoding reproduces them.
    let message: Vec<u8> = vec![2, 126, 9, 12, 0, 0, 0, 200, 1, 2, 3, 4];
    let (decoded, consumed) = parse_frame(&message, 0, message.len()).expect("Should deserialize");
    assert_eq!(consumed, 12);
    assert_eq!(
        decoded.feature,
        Some(Feature::Unknown {
            feature: 200,
            data: vec![1, 2, 3, 4],
        })
    );
    let reencoded = encode_frame(&decoded).expect("Should serialize");
    assert_eq!(message, reencoded);
}

#[test]
fn round_trip_unknown_ardrone3_class() {
    // Feature is ArDrone3 but its class byte (25) is not modeled.
    let message: Vec<u8> = vec![2, 127, 69, 14, 0, 0, 0, 1, 25, 0, 0, 243, 0, 9];
    let (decoded, consumed) = parse_frame(&message, 0, message.len()).expect("Should deserialize");
    assert_eq!(consumed, 14);
    assert_eq!(
        decoded.feature,
        Some(Feature::ArDrone3(Some(ArDrone3::Unknown {
            ardrone3: 25,
            data: vec![0, 0, 243, 0, 9],
        })))
    );
    let reencoded = encode_frame(&decoded).expect("Should serialize");
    assert_eq!(message, reencoded);
}

#[test]
fn round_trip_piloting_state_report() {
    // An ArDrone3 piloting state report decodes to the opaque report and
    // re-encodes byte for byte.
    let message: Vec<u8> = vec![2, 127, 40, 14, 0, 0, 0, 1, 4, 6, 0, 44, 49, 49];
    let (decoded, consumed) = parse_frame(&message, 0, message.len()).expect("Should deserialize");
    assert_eq!(consumed, 14);
    assert_eq!(
        decoded.feature,
        Some(Feature::ArDrone3(Some(ArDrone3::PilotingState(
            PilotingState::Unknown {
                piloting_state: 6,
                data: vec![44, 49, 49],
            }
        ))))
    );
    let reencoded = encode_frame(&decoded).expect("Should serialize");
    assert_eq!(message, reencoded);
}

#[test]
fn length_mismatch_is_rejected() {
    // Declared length 16 but the payload ends after 14 consumed bytes.
    let message: Vec<u8> = vec![
        0x2, 0xa, 0x67, 0x10, 0x0, 0x0, 0x0, 0x3, 0x0, 0x0, 0x0, 0x1, 0x0, 0x9c, 0x0, 0x0,
    ];
    let err = parse_frame(&message, 0, message.len()).unwrap_err();
    assert_eq!(
        err,
        Error::BytesLength {
            expected: 16,
            actual: 14,
        }
    );
}

#[test]
fn declared_length_below_header_is_rejected() {
    let message: Vec<u8> = vec![2, 0, 1, 5, 0, 0, 0];
    let err = parse_frame(&message, 0, message.len()).unwrap_err();
    assert_eq!(
        err,
        Error::BytesLength {
            expected: 5,
            actual: 7,
        }
    );
}

#[test]
fn truncated_header_is_rejected() {
    let message: Vec<u8> = vec![2, 0, 1];
    let err = parse_frame(&message, 0, message.len()).unwrap_err();
    assert_eq!(
        err,
        Error::Truncated {
            needed: 7,
            available: 3,
        }
    );
}

#[test]
fn unknown_frame_kind_is_out_of_bound() {
    let message: Vec<u8> = vec![9, 0, 1, 7, 0, 0, 0];
    let err = parse_frame(&message, 0, message.len()).unwrap_err();
    assert_eq!(
        err,
        Error::OutOfBound {
            value: 9,
            param: Param::Type,
        }
    );
}

#[test]
fn unsupported_feature_does_not_encode() {
    let frame = Frame {
        frame_type: Type::Data,
        buffer_id: BufferID::CDNonAck,
        sequence_id: 0,
        feature: Some(Feature::Minidrone),
    };
    assert_eq!(encode_frame(&frame).unwrap_err(), Error::Unsupported);
}

#[test]
fn bad_boolean_wire_byte_names_the_field() {
    // A piloting command whose flag byte is neither zero nor one.
    let message: Vec<u8> = vec![
        0x2, 0xa, 0x1, 0xe, 0x0, 0x0, 0x0, 0x3, 0x0, 0x0, 0x0, 0x2, 0x0, 0x0,
    ];
    let err = parse_frame(&message, 0, message.len()).unwrap_err();
    assert_eq!(
        err,
        Error::OutOfBound {
            value: 2,
            param: Param::Flag,
        }
    );
}

#[test]
fn pcmd_timestamp_packs_low_24_bits() {
    // Encoding then decoding a piloting command returns the timestamp
    // reduced modulo 2^24 and the sequence number intact.
    let pcmd = PCMD {
        flag: true,
        roll: 1,
        pitch: -2,
        yaw: 3,
        gaz: -4,
        timestamp: 0x12345678,
        sequence_id: 42,
    };
    let frame = Frame {
        frame_type: Type::Data,
        buffer_id: BufferID::CDNonAck,
        sequence_id: 5,
        feature: Some(Feature::ArDrone3(Some(ArDrone3::Piloting(Piloting::PCMD(
            pcmd,
        ))))),
    };
    let bytes = encode_frame(&frame).expect("Should serialize");
    // The packed field holds 0x345678 in its low 24 bits and 42 above them.
    assert_eq!(&bytes[16..20], &[0x78, 0x56, 0x34, 42]);
    let (decoded, _) = parse_frame(&bytes, 0, bytes.len()).expect("Should deserialize");
    match decoded.feature {
        Some(Feature::ArDrone3(Some(ArDrone3::Piloting(Piloting::PCMD(p))))) => {
            assert_eq!(p.timestamp, 0x345678);
            assert_eq!(p.sequence_id, 42);
            assert_eq!(p.flag, true);
            assert_eq!(p.roll, 1);
            assert_eq!(p.pitch, -2);
            assert_eq!(p.yaw, 3);
            assert_eq!(p.gaz, -4);
        }
        other => panic!("unexpected feature {:?}", other),
    }
}

#[test]
fn pcmd_small_timestamp_round_trips_exactly() {
    let pcmd = PCMD {
        flag: false,
        roll: 0,
        pitch: 0,
        yaw: 0,
        gaz: 0,
        timestamp: 0xFFFFFF,
        sequence_id: 255,
    };
    let frame = Frame {
        frame_type: Type::Data,
        buffer_id: BufferID::CDNonAck,
        sequence_id: 1,
        feature: Some(Feature::ArDrone3(Some(ArDrone3::Piloting(Piloting::PCMD(
            pcmd,
        ))))),
    };
    let bytes = encode_frame(&frame).expect("Should serialize");
    let (decoded, _) = parse_frame(&bytes, 0, bytes.len()).expect("Should deserialize");
    assert_eq!(frame, decoded);
}
