use arsdk::ardrone3::{ArDrone3, PilotingState};
use arsdk::command::Feature;
use arsdk::common::{Class as CommonClass, Common, DateTime};
use arsdk::frame::{encode_frame, BufferID, Frame, FrameType, Type};
use arsdk::handshake::{check_response, make_request, ArStream2, Error as HandshakeError, Response};
use arsdk::parse::{handle_bytes, parse_message_frames};
use arsdk::sequence::SequenceTracker;
use arsdk::{datetime_frames, net_contains, select_local_ip};

#[test]
fn receiving_two_frames_at_once() {
    let received: [u8; 58] = [
        // First frame: Data on PING, sequence 4, length 23, feature 9.
        2, 0, 4, 23, 0, 0, 0, 9, 0, 0, 0, 0, 0, 0, 0, 57, 252, 225, 47, 0, 0, 0, 0,
        // Second frame: Data on DCNavdata, sequence 71, length 35, ArDrone3.
        2, 127, 71, 35, 0, 0, 0, 1, 4, 4, 0, 0, 0, 0, 0, 0, 64, 127, 64, 0, 0, 0, 0, 0, 64, 127,
        64, 0, 0, 0, 0, 0, 64, 127, 64,
    ];
    let expected_first_frame_length = 23;

    let frames = parse_message_frames(&received.to_vec());

    assert_eq!(2, frames.len());

    let first_expected = Frame {
        frame_type: Type::Data,
        buffer_id: BufferID::PING,
        sequence_id: 4,
        feature: Some(Feature::Unknown {
            feature: 9,
            data: received[8..expected_first_frame_length].to_vec(),
        }),
    };

    // The second frame carries an ArDrone3 piloting state report, kept as
    // the opaque report with its raw payload.
    let second_expected = Frame {
        frame_type: Type::Data,
        buffer_id: BufferID::DCNavdata,
        sequence_id: 71,
        feature: Some(Feature::ArDrone3(Some(ArDrone3::PilotingState(
            PilotingState::Unknown {
                piloting_state: 4,
                data: received[34..].to_vec(),
            },
        )))),
    };

    assert_eq!(
        &FrameType::Known(first_expected),
        frames[0]
            .as_ref()
            .expect("Should deserialize first (PING) frame")
    );
    assert_eq!(
        &FrameType::Known(second_expected),
        frames[1]
            .as_ref()
            .expect("Should deserialize second (DCNavdata) frame")
    );
}

#[test]
fn test_feature_common_none() {
    let buf: [u8; 8] = [1, 139, 0, 8, 0, 0, 0, 0];

    let frame = Frame {
        frame_type: Type::Ack,
        buffer_id: BufferID::ACKFromSendWithAck,
        sequence_id: 0,
        feature: Some(Feature::Common(None)),
    };

    let actual = parse_message_frames(&buf.to_vec());

    assert_eq!(actual.len(), 1);
    let actual = actual
        .into_iter()
        .next()
        .expect("Should have 1 parsed frame")
        .expect("Should be Ok(_)");

    assert_eq!(FrameType::Known(frame), actual);
}

#[test]
fn sequence_numbers_count_up_and_wrap() {
    let mut tracker = SequenceTracker::new();
    for i in 1..=600u32 {
        let got = tracker.next(BufferID::CDAck);
        assert_eq!(got as u32, i % 256);
    }
}

#[test]
fn sequence_numbers_are_per_channel() {
    let mut tracker = SequenceTracker::new();
    assert_eq!(tracker.next(BufferID::CDAck), 1);
    assert_eq!(tracker.next(BufferID::CDAck), 2);
    assert_eq!(tracker.next(BufferID::PONG), 1);
    assert_eq!(tracker.next(BufferID::CDNonAck), 1);
    assert_eq!(tracker.next(BufferID::CDAck), 3);
    assert_eq!(tracker.next(BufferID::PONG), 2);
}

#[test]
fn ping_is_answered_with_pong() {
    let ping = Frame {
        frame_type: Type::Data,
        buffer_id: BufferID::PING,
        sequence_id: 2,
        feature: Some(Feature::Unknown {
            feature: 155,
            data: vec![216, 221, 13, 0, 0, 0, 0],
        }),
    };
    let bytes = encode_frame(&ping).expect("Should serialize");

    let mut tracker = SequenceTracker::new();
    let out = handle_bytes(&mut tracker, &bytes);

    assert_eq!(out.len(), 1);
    assert_eq!(out[0].frame_type, Type::Data);
    assert_eq!(out[0].buffer_id, BufferID::PONG);
    assert_eq!(out[0].sequence_id, 1);
    assert_eq!(out[0].feature, ping.feature);
}

#[test]
fn navdata_is_acknowledged() {
    let telemetry = Frame {
        frame_type: Type::Data,
        buffer_id: BufferID::DCNavdata,
        sequence_id: 71,
        feature: Some(Feature::ArDrone3(Some(ArDrone3::Unknown {
            ardrone3: 25,
            data: vec![0, 0, 243, 0],
        }))),
    };
    let bytes = encode_frame(&telemetry).expect("Should serialize");

    let mut tracker = SequenceTracker::new();
    let out = handle_bytes(&mut tracker, &bytes);

    assert_eq!(out.len(), 1);
    assert_eq!(out[0].frame_type, Type::Ack);
    assert_eq!(out[0].buffer_id, BufferID::CDAck);
    assert_eq!(out[0].sequence_id, 71);
    assert_eq!(out[0].feature, Some(Feature::ArDrone3(None)));
}

#[test]
fn navdata_without_ardrone3_gets_bare_ack() {
    let telemetry = Frame {
        frame_type: Type::Data,
        buffer_id: BufferID::DCNavdata,
        sequence_id: 9,
        feature: Some(Feature::Unknown {
            feature: 149,
            data: vec![0, 3, 0, 91, 33],
        }),
    };
    let bytes = encode_frame(&telemetry).expect("Should serialize");

    let mut tracker = SequenceTracker::new();
    let out = handle_bytes(&mut tracker, &bytes);

    assert_eq!(out.len(), 1);
    assert_eq!(out[0].frame_type, Type::Ack);
    assert_eq!(out[0].buffer_id, BufferID::CDAck);
    assert_eq!(out[0].sequence_id, 9);
    assert_eq!(out[0].feature, None);
}

#[test]
fn garbled_datagram_produces_no_answers() {
    let mut tracker = SequenceTracker::new();
    let out = handle_bytes(&mut tracker, &vec![9, 9, 9]);
    assert_eq!(out.len(), 0);
}

#[test]
fn handshake_request_holds_fixed_fields() {
    let r = make_request(43210);
    assert_eq!(r.controller_name, "arsdk-rs");
    assert_eq!(r.controller_type, "computer");
    assert_eq!(r.d2c_port, 43210);
    assert_eq!(
        r.arstream2,
        Some(ArStream2 {
            stream_port: 44445,
            control_port: 44446,
        })
    );
}

#[test]
fn handshake_zero_status_is_accepted() {
    let resp = Response {
        arstream_fragment_maximum_number: None,
        arstream_fragment_size: None,
        arstream_max_ack_interval: None,
        arstream2: Some(ArStream2 {
            stream_port: 5004,
            control_port: 5005,
        }),
        c2d_port: 54321,
        c2d_update_port: 51,
        c2d_user_port: 21,
        status: 0,
        qos_mode: 0,
        proto_v: 1,
    };
    assert_eq!(check_response(resp), Ok(resp));
}

#[test]
fn handshake_nonzero_status_is_refused() {
    let resp = Response {
        arstream_fragment_maximum_number: None,
        arstream_fragment_size: None,
        arstream_max_ack_interval: None,
        arstream2: None,
        c2d_port: 0,
        c2d_update_port: 0,
        c2d_user_port: 0,
        status: -1,
        qos_mode: 0,
        proto_v: 0,
    };
    assert_eq!(
        check_response(resp),
        Err(HandshakeError::ConnectionRefused(resp))
    );
}

#[test]
fn datetime_frames_share_the_ack_channel() {
    let date = DateTime {
        year: 2020,
        month: 4,
        day: 26,
        hour: 15,
        minute: 6,
        second: 11,
    };
    let mut tracker = SequenceTracker::new();
    let (date_frame, time_frame) = datetime_frames(&mut tracker, date);

    assert_eq!(date_frame.frame_type, Type::DataWithAck);
    assert_eq!(date_frame.buffer_id, BufferID::CDAck);
    assert_eq!(date_frame.sequence_id, 1);
    assert_eq!(
        date_frame.feature,
        Some(Feature::Common(Some(CommonClass::Common(
            Common::CurrentDate(date)
        ))))
    );

    assert_eq!(time_frame.frame_type, Type::DataWithAck);
    assert_eq!(time_frame.buffer_id, BufferID::CDAck);
    assert_eq!(time_frame.sequence_id, 2);
    assert_eq!(
        time_frame.feature,
        Some(Feature::Common(Some(CommonClass::Common(
            Common::CurrentTime(date)
        ))))
    );

    // The date frame encodes to the discriminators followed by the
    // NUL-terminated ASCII date.
    let bytes = encode_frame(&date_frame).expect("Should serialize");
    assert_eq!(
        bytes,
        vec![
            4, 11, 1, 21, 0, 0, 0, 0, 4, 1, 0x32, 0x30, 0x32, 0x30, 0x2d, 0x30, 0x34, 0x2d, 0x32,
            0x36, 0
        ]
    );
}

#[test]
fn local_ip_is_picked_from_the_target_subnet() {
    // 192.168.1.5/24 contains 192.168.1.10; 10.0.0.1/8 does not.
    let ten = u32::from_be_bytes([10, 0, 0, 1]);
    let lan = u32::from_be_bytes([192, 168, 1, 5]);
    let target = u32::from_be_bytes([192, 168, 1, 10]);
    assert!(!net_contains(ten, 8, target));
    assert!(net_contains(lan, 24, target));

    let candidates = vec![(ten, 8u8), (lan, 24u8)];
    assert_eq!(select_local_ip(&candidates, target), Some(lan));

    let other_target = u32::from_be_bytes([172, 16, 0, 1]);
    assert_eq!(select_local_ip(&candidates, other_target), None);
}
