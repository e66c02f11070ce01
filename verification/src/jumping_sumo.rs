//! Commands of the JumpingSumo command family.
use vstd::prelude::*;

use crate::bytes::{
    byte_to_i8, i8_to_byte, le16_bytes, lemma_i8_byte_round_trip, lemma_le16_round_trip,
    lemma_subrange_split, lemma_window_bytes, parse_u16, parse_u8, push_u16, spec_byte_to_i8,
    spec_i8_to_byte, spec_parse_u16, spec_parse_u8, with_pos,
};
use crate::frame::{Error, Param};

verus! {

/// Kinds of jump the vehicle can perform.
#[derive(Debug, Clone, Copy, PartialEq, Eq, Structural)]
pub enum JumpType {
    LONG,
    HIGH,
    DEFAULT,
}

/// Command class within the JumpingSumo family (one byte on the wire).
#[derive(Debug, Clone, Copy, PartialEq, Eq, Structural)]
pub enum Class {
    Piloting(PilotingID),
    PilotingState,
    Animations(Anim),
    AnimationsState,
    SettingsState,
    MediaRecord,
    MediaRecordState,
    NetworkSettings,
    NetworkSettingsState,
    Network,
    NetworkState,
    AutioSettings,
    AudioSettingsState,
    Roadplan,
    RoadplanState,
    SpeedSettings,
    SpeedSettingsState,
    MediaStreaming,
    MediaStreamingState,
    MediaRecordEvent,
    VideoSettings,
    VideoSettingsState,
}

/// Animation command (one byte on the wire).
#[derive(Debug, Clone, Copy, PartialEq, Eq, Structural)]
pub enum Anim {
    JumpStop,
    JumpCancel,
    JumpLoad,
    Jump,
    SimpleAnimation,
}

/// Piloting command (two bytes, little-endian, on the wire).
#[derive(Debug, Clone, Copy, PartialEq, Eq, Structural)]
pub enum PilotingID {
    Pilot(PilotState),
    Posture,
    AddCapOffset,
}

/// Drive state: whether to move, and how fast and how sharp.
#[derive(Debug, Clone, Copy, PartialEq, Eq, Structural)]
pub struct PilotState {
    pub flag: bool,
    pub speed: i8,
    pub turn: i8,
}

impl Default for PilotState {
    fn default() -> (r: Self)
        ensures
            r == (PilotState { flag: false, speed: 0i8, turn: 0i8 }),
    {
        PilotState { flag: false, speed: 0, turn: 0 }
    }
}

impl Class {
    /// The wire discriminator of this class.
    pub open spec fn spec_code(self) -> u8 {
        match self {
            Class::Piloting(_) => 0,
            Class::PilotingState => 1,
            Class::Animations(_) => 2,
            Class::AnimationsState => 3,
            Class::SettingsState => 5,
            Class::MediaRecord => 6,
            Class::MediaRecordState => 7,
            Class::NetworkSettings => 8,
            Class::NetworkSettingsState => 9,
            Class::Network => 10,
            Class::NetworkState => 11,
            Class::AutioSettings => 12,
            Class::AudioSettingsState => 13,
            Class::Roadplan => 14,
            Class::RoadplanState => 15,
            Class::SpeedSettings => 16,
            Class::SpeedSettingsState => 17,
            Class::MediaStreaming => 18,
            Class::MediaStreamingState => 19,
            Class::MediaRecordEvent => 20,
            Class::VideoSettings => 21,
            Class::VideoSettingsState => 22,
        }
    }

    pub fn code(self) -> (r: u8)
        ensures
            r == self.spec_code(),
    {
        match self {
            Class::Piloting(_) => 0,
            Class::PilotingState => 1,
            Class::Animations(_) => 2,
            Class::AnimationsState => 3,
            Class::SettingsState => 5,
            Class::MediaRecord => 6,
            Class::MediaRecordState => 7,
            Class::NetworkSettings => 8,
            Class::NetworkSettingsState => 9,
            Class::Network => 10,
            Class::NetworkState => 11,
            Class::AutioSettings => 12,
            Class::AudioSettingsState => 13,
            Class::Roadplan => 14,
            Class::RoadplanState => 15,
            Class::SpeedSettings => 16,
            Class::SpeedSettingsState => 17,
            Class::MediaStreaming => 18,
            Class::MediaStreamingState => 19,
            Class::MediaRecordEvent => 20,
            Class::VideoSettings => 21,
            Class::VideoSettingsState => 22,
        }
    }
}

impl Anim {
    /// The wire discriminator of this animation.
    pub open spec fn spec_code(self) -> u8 {
        match self {
            Anim::JumpStop => 0,
            Anim::JumpCancel => 1,
            Anim::JumpLoad => 2,
            Anim::Jump => 3,
            Anim::SimpleAnimation => 4,
        }
    }

    pub fn code(self) -> (r: u8)
        ensures
            r == self.spec_code(),
    {
        match self {
            Anim::JumpStop => 0,
            Anim::JumpCancel => 1,
            Anim::JumpLoad => 2,
            Anim::Jump => 3,
            Anim::SimpleAnimation => 4,
        }
    }
}

impl PilotingID {
    /// The wire discriminator of this piloting command.
    pub open spec fn spec_code(self) -> u16 {
        match self {
            PilotingID::Pilot(_) => 0,
            PilotingID::Posture => 1,
            PilotingID::AddCapOffset => 2,
        }
    }

    pub fn code(self) -> (r: u16)
        ensures
            r == self.spec_code(),
    {
        match self {
            PilotingID::Pilot(_) => 0,
            PilotingID::Posture => 1,
            PilotingID::AddCapOffset => 2,
        }
    }
}

// ------------------- wire format -------------------
/// The wire bytes of a drive state: flag, speed, turn.
pub open spec fn spec_pilot_state_bytes(p: PilotState) -> Seq<u8> {
    seq![
        if p.flag {
            1u8
        } else {
            0u8
        },
        spec_i8_to_byte(p.speed),
        spec_i8_to_byte(p.turn),
    ]
}

/// A drive state from the window: a boolean byte, then speed and turn.
pub open spec fn spec_parse_pilot_state(s: Seq<u8>, pos: int, end: int) -> Result<
    (PilotState, int),
    Error,
> {
    match spec_parse_u8(s, pos, end) {
        Err(e) => Err(e),
        Ok((flag_byte, p1)) => if flag_byte > 1 {
            Err(Error::OutOfBound { value: flag_byte as u64, param: Param::Flag })
        } else {
            match spec_parse_u8(s, p1, end) {
                Err(e) => Err(e),
                Ok((speed, p2)) => match spec_parse_u8(s, p2, end) {
                    Err(e) => Err(e),
                    Ok((turn, p3)) => Ok(
                        (
                            PilotState {
                                flag: flag_byte == 1,
                                speed: spec_byte_to_i8(speed),
                                turn: spec_byte_to_i8(turn),
                            },
                            p3,
                        ),
                    ),
                },
            }
        },
    }
}

pub fn parse_pilot_state(buf: &Vec<u8>, pos: usize, end: usize) -> (r: Result<
    (PilotState, usize),
    Error,
>)
    requires
        pos <= end && end <= buf@.len(),
    ensures
        with_pos(r) == spec_parse_pilot_state(buf@, pos as int, end as int),
        r matches Ok(v) ==> pos < v.1 <= end,
{
    let (flag_byte, p1) = match parse_u8(buf, pos, end) {
        Ok(v) => v,
        Err(e) => {
            return Err(e);
        },
    };
    if flag_byte > 1 {
        return Err(Error::OutOfBound { value: flag_byte as u64, param: Param::Flag });
    }
    let (speed, p2) = match parse_u8(buf, p1, end) {
        Ok(v) => v,
        Err(e) => {
            return Err(e);
        },
    };
    let (turn, p3) = match parse_u8(buf, p2, end) {
        Ok(v) => v,
        Err(e) => {
            return Err(e);
        },
    };
    Ok((PilotState { flag: flag_byte == 1, speed: byte_to_i8(speed), turn: byte_to_i8(turn) }, p3))
}

pub fn encode_pilot_state(p: &PilotState) -> (r: Vec<u8>)
    ensures
        r@ == spec_pilot_state_bytes(*p),
{
    let mut out: Vec<u8> = Vec::new();
    out.push(if p.flag {
        1
    } else {
        0
    });
    out.push(i8_to_byte(p.speed));
    out.push(i8_to_byte(p.turn));
    assert(out@ =~= spec_pilot_state_bytes(*p));
    out
}

/// Decoding the encoding of a drive state gives it back and consumes exactly
/// its bytes.
pub proof fn lemma_pilot_state_round_trip(s: Seq<u8>, pos: int, end: int, p: PilotState)
    requires
        0 <= pos <= end <= s.len(),
        s.subrange(pos, end) == spec_pilot_state_bytes(p),
    ensures
        spec_parse_pilot_state(s, pos, end) == Ok::<(PilotState, int), Error>((p, end)),
{
    lemma_window_bytes(s, pos, end, spec_pilot_state_bytes(p));
    assert(s[pos + 0] == spec_pilot_state_bytes(p)[0]);
    assert(s[pos + 1] == spec_pilot_state_bytes(p)[1]);
    assert(s[pos + 2] == spec_pilot_state_bytes(p)[2]);
    lemma_i8_byte_round_trip(p.speed, 0);
    lemma_i8_byte_round_trip(p.turn, 0);
}

/// The wire bytes of a piloting command: a two-byte discriminator, then for
/// the drive command its state.
pub open spec fn spec_piloting_id_bytes(id: PilotingID) -> Seq<u8> {
    le16_bytes(id.spec_code()) + match id {
        PilotingID::Pilot(st) => spec_pilot_state_bytes(st),
        _ => Seq::empty(),
    }
}

/// A piloting command from the window.
pub open spec fn spec_parse_piloting_id(s: Seq<u8>, pos: int, end: int) -> Result<
    (PilotingID, int),
    Error,
> {
    match spec_parse_u16(s, pos, end) {
        Err(e) => Err(e),
        Ok((code, p1)) => if code == 0 {
            match spec_parse_pilot_state(s, p1, end) {
                Err(e) => Err(e),
                Ok((st, p2)) => Ok((PilotingID::Pilot(st), p2)),
            }
        } else if code == 1 {
            Ok((PilotingID::Posture, p1))
        } else if code == 2 {
            Ok((PilotingID::AddCapOffset, p1))
        } else {
            Err(Error::OutOfBound { value: code as u64, param: Param::PilotingId })
        },
    }
}

pub fn parse_piloting_id(buf: &Vec<u8>, pos: usize, end: usize) -> (r: Result<
    (PilotingID, usize),
    Error,
>)
    requires
        pos <= end && end <= buf@.len(),
    ensures
        with_pos(r) == spec_parse_piloting_id(buf@, pos as int, end as int),
        r matches Ok(v) ==> pos < v.1 <= end,
{
    let (code, p1) = match parse_u16(buf, pos, end) {
        Ok(v) => v,
        Err(e) => {
            return Err(e);
        },
    };
    if code == 0 {
        let (st, p2) = match parse_pilot_state(buf, p1, end) {
            Ok(v) => v,
            Err(e) => {
                return Err(e);
            },
        };
        Ok((PilotingID::Pilot(st), p2))
    } else if code == 1 {
        Ok((PilotingID::Posture, p1))
    } else if code == 2 {
        Ok((PilotingID::AddCapOffset, p1))
    } else {
        Err(Error::OutOfBound { value: code as u64, param: Param::PilotingId })
    }
}

pub fn encode_piloting_id(id: &PilotingID) -> (r: Vec<u8>)
    ensures
        r@ == spec_piloting_id_bytes(*id),
{
    let mut out: Vec<u8> = Vec::new();
    push_u16(&mut out, id.code());
    match id {
        PilotingID::Pilot(st) => {
            let mut sb = encode_pilot_state(st);
            out.append(&mut sb);
        },
        _ => {},
    }
    assert(out@ =~= spec_piloting_id_bytes(*id));
    out
}

/// Decoding the encoding of a piloting command gives it back and consumes
/// exactly its bytes.
pub proof fn lemma_piloting_id_round_trip(s: Seq<u8>, pos: int, end: int, id: PilotingID)
    requires
        0 <= pos <= end <= s.len(),
        s.subrange(pos, end) == spec_piloting_id_bytes(id),
    ensures
        spec_parse_piloting_id(s, pos, end) == Ok::<(PilotingID, int), Error>((id, end)),
{
    let payload = match id {
        PilotingID::Pilot(st) => spec_pilot_state_bytes(st),
        _ => Seq::<u8>::empty(),
    };
    lemma_subrange_split(s, pos, end, le16_bytes(id.spec_code()), payload);
    lemma_le16_round_trip(id.spec_code());
    assert(s[pos + 0] == le16_bytes(id.spec_code())[0]);
    assert(s[pos + 1] == le16_bytes(id.spec_code())[1]);
    match id {
        PilotingID::Pilot(st) => {
            lemma_pilot_state_round_trip(s, pos + 2, end, st);
        },
        _ => {},
    }
}

/// The wire bytes of an animation command: its one-byte discriminator.
pub open spec fn spec_anim_bytes(a: Anim) -> Seq<u8> {
    seq![a.spec_code()]
}

/// An animation command from the window.
pub open spec fn spec_parse_anim(s: Seq<u8>, pos: int, end: int) -> Result<(Anim, int), Error> {
    match spec_parse_u8(s, pos, end) {
        Err(e) => Err(e),
        Ok((code, p1)) => match code {
            0u8 => Ok((Anim::JumpStop, p1)),
            1u8 => Ok((Anim::JumpCancel, p1)),
            2u8 => Ok((Anim::JumpLoad, p1)),
            3u8 => Ok((Anim::Jump, p1)),
            4u8 => Ok((Anim::SimpleAnimation, p1)),
            _ => Err(Error::OutOfBound { value: code as u64, param: Param::Anim }),
        },
    }
}

pub fn parse_anim(buf: &Vec<u8>, pos: usize, end: usize) -> (r: Result<(Anim, usize), Error>)
    requires
        pos <= end && end <= buf@.len(),
    ensures
        with_pos(r) == spec_parse_anim(buf@, pos as int, end as int),
        r matches Ok(v) ==> pos < v.1 <= end,
{
    let (code, p1) = match parse_u8(buf, pos, end) {
        Ok(v) => v,
        Err(e) => {
            return Err(e);
        },
    };
    match code {
        0 => Ok((Anim::JumpStop, p1)),
        1 => Ok((Anim::JumpCancel, p1)),
        2 => Ok((Anim::JumpLoad, p1)),
        3 => Ok((Anim::Jump, p1)),
        4 => Ok((Anim::SimpleAnimation, p1)),
        _ => Err(Error::OutOfBound { value: code as u64, param: Param::Anim }),
    }
}

pub fn encode_anim(a: &Anim) -> (r: Vec<u8>)
    ensures
        r@ == spec_anim_bytes(*a),
{
    let mut out: Vec<u8> = Vec::new();
    out.push(a.code());
    assert(out@ =~= spec_anim_bytes(*a));
    out
}

/// Decoding the encoding of an animation command gives it back and consumes
/// exactly its bytes.
pub proof fn lemma_anim_round_trip(s: Seq<u8>, pos: int, end: int, a: Anim)
    requires
        0 <= pos <= end <= s.len(),
        s.subrange(pos, end) == spec_anim_bytes(a),
    ensures
        spec_parse_anim(s, pos, end) == Ok::<(Anim, int), Error>((a, end)),
{
    lemma_window_bytes(s, pos, end, spec_anim_bytes(a));
    assert(s[pos + 0] == spec_anim_bytes(a)[0]);
}

/// The wire bytes of a class: a one-byte discriminator, then the payload of
/// the piloting or animation command if the class carries one.
pub open spec fn spec_class_bytes(c: Class) -> Seq<u8> {
    seq![c.spec_code()] + match c {
        Class::Piloting(id) => spec_piloting_id_bytes(id),
        Class::Animations(a) => spec_anim_bytes(a),
        _ => Seq::empty(),
    }
}

/// A class from the window.  A class byte without meaning in this family is
/// an error: this family has no opaque fallback.
pub open spec fn spec_parse_class(s: Seq<u8>, pos: int, end: int) -> Result<(Class, int), Error> {
    match spec_parse_u8(s, pos, end) {
        Err(e) => Err(e),
        Ok((code, p1)) => match code {
            0u8 => match spec_parse_piloting_id(s, p1, end) {
                Err(e) => Err(e),
                Ok((id, p2)) => Ok((Class::Piloting(id), p2)),
            },
            1u8 => Ok((Class::PilotingState, p1)),
            2u8 => match spec_parse_anim(s, p1, end) {
                Err(e) => Err(e),
                Ok((a, p2)) => Ok((Class::Animations(a), p2)),
            },
            3u8 => Ok((Class::AnimationsState, p1)),
            5u8 => Ok((Class::SettingsState, p1)),
            6u8 => Ok((Class::MediaRecord, p1)),
            7u8 => Ok((Class::MediaRecordState, p1)),
            8u8 => Ok((Class::NetworkSettings, p1)),
            9u8 => Ok((Class::NetworkSettingsState, p1)),
            10u8 => Ok((Class::Network, p1)),
            11u8 => Ok((Class::NetworkState, p1)),
            12u8 => Ok((Class::AutioSettings, p1)),
            13u8 => Ok((Class::AudioSettingsState, p1)),
            14u8 => Ok((Class::Roadplan, p1)),
            15u8 => Ok((Class::RoadplanState, p1)),
            16u8 => Ok((Class::SpeedSettings, p1)),
            17u8 => Ok((Class::SpeedSettingsState, p1)),
            18u8 => Ok((Class::MediaStreaming, p1)),
            19u8 => Ok((Class::MediaStreamingState, p1)),
            20u8 => Ok((Class::MediaRecordEvent, p1)),
            21u8 => Ok((Class::VideoSettings, p1)),
            22u8 => Ok((Class::VideoSettingsState, p1)),
            _ => Err(Error::OutOfBound { value: code as u64, param: Param::Class }),
        },
    }
}

pub fn parse_class(buf: &Vec<u8>, pos: usize, end: usize) -> (r: Result<(Class, usize), Error>)
    requires
        pos <= end && end <= buf@.len(),
    ensures
        with_pos(r) == spec_parse_class(buf@, pos as int, end as int),
        r matches Ok(v) ==> pos < v.1 <= end,
{
    let (code, p1) = match parse_u8(buf, pos, end) {
        Ok(v) => v,
        Err(e) => {
            return Err(e);
        },
    };
    match code {
        0 => match parse_piloting_id(buf, p1, end) {
            Ok((id, p2)) => Ok((Class::Piloting(id), p2)),
            Err(e) => Err(e),
        },
        1 => Ok((Class::PilotingState, p1)),
        2 => match parse_anim(buf, p1, end) {
            Ok((a, p2)) => Ok((Class::Animations(a), p2)),
            Err(e) => Err(e),
        },
        3 => Ok((Class::AnimationsState, p1)),
        5 => Ok((Class::SettingsState, p1)),
        6 => Ok((Class::MediaRecord, p1)),
        7 => Ok((Class::MediaRecordState, p1)),
        8 => Ok((Class::NetworkSettings, p1)),
        9 => Ok((Class::NetworkSettingsState, p1)),
        10 => Ok((Class::Network, p1)),
        11 => Ok((Class::NetworkState, p1)),
        12 => Ok((Class::AutioSettings, p1)),
        13 => Ok((Class::AudioSettingsState, p1)),
        14 => Ok((Class::Roadplan, p1)),
        15 => Ok((Class::RoadplanState, p1)),
        16 => Ok((Class::SpeedSettings, p1)),
        17 => Ok((Class::SpeedSettingsState, p1)),
        18 => Ok((Class::MediaStreaming, p1)),
        19 => Ok((Class::MediaStreamingState, p1)),
        20 => Ok((Class::MediaRecordEvent, p1)),
        21 => Ok((Class::VideoSettings, p1)),
        22 => Ok((Class::VideoSettingsState, p1)),
        _ => Err(Error::OutOfBound { value: code as u64, param: Param::Class }),
    }
}

pub fn encode_class(c: &Class) -> (r: Vec<u8>)
    ensures
        r@ == spec_class_bytes(*c),
{
    let mut out: Vec<u8> = Vec::new();
    out.push(c.code());
    match c {
        Class::Piloting(id) => {
            let mut sb = encode_piloting_id(id);
            out.append(&mut sb);
        },
        Class::Animations(a) => {
            let mut sb = encode_anim(a);
            out.append(&mut sb);
        },
        _ => {},
    }
    assert(out@ =~= spec_class_bytes(*c));
    out
}

/// Decoding the encoding of a class gives it back and consumes exactly its
/// bytes.
pub proof fn lemma_class_round_trip(s: Seq<u8>, pos: int, end: int, c: Class)
    requires
        0 <= pos <= end <= s.len(),
        s.subrange(pos, end) == spec_class_bytes(c),
    ensures
        spec_parse_class(s, pos, end) == Ok::<(Class, int), Error>((c, end)),
{
    let payload = match c {
        Class::Piloting(id) => spec_piloting_id_bytes(id),
        Class::Animations(a) => spec_anim_bytes(a),
        _ => Seq::<u8>::empty(),
    };
    lemma_subrange_split(s, pos, end, seq![c.spec_code()], payload);
    assert(s[pos + 0] == seq![c.spec_code()][0]);
    assert(s[pos + 0] == c.spec_code());
    match c {
        Class::Piloting(id) => {
            lemma_piloting_id_round_trip(s, pos + 1, end, id);
        },
        Class::Animations(a) => {
            lemma_anim_round_trip(s, pos + 1, end, a);
        },
        _ => {},
    }
}

} // verus!
