//! Piloting commands of the ArDrone3 family, among them the periodic
//! piloting command with its packed timestamp.
use vstd::prelude::*;
use vstd::arithmetic::div_mod::{
    lemma_div_multiples_vanish_fancy, lemma_mod_multiples_vanish, lemma_small_mod,
};

use crate::bytes::{
    byte_to_i8, i8_to_byte, le16_bytes, le32_bytes, lemma_i8_byte_round_trip,
    lemma_le16_round_trip, lemma_le32_round_trip, lemma_subrange_split, parse_u16, parse_u32,
    parse_u8, push_u16, push_u32, spec_byte_to_i8, spec_i8_to_byte, spec_parse_u16, spec_parse_u32,
    spec_parse_u8, with_pos,
};
use crate::frame::{Error, Param};

verus! {

/// Piloting command (two bytes, little-endian, on the wire).
#[derive(Debug, Clone, Copy, PartialEq, Eq, Structural)]
pub enum Piloting {
    FlatTrim,
    TakeOff,
    PCMD(PCMD),
    Landing,
    Emergency,
    NavigateHome,
    AutoTakeOffMode,
    MoveBy,
    UserTakeOff,
    Circle,
    MoveTo,
    CancelMoveTo,
    StartPilotedPOI,
    StopPilotedPOI,
}

/// The periodic piloting command: attitude setpoints plus a four-byte field
/// packing a millisecond timestamp (low 24 bits) with a sequence number
/// (high 8 bits).
#[derive(Debug, Clone, Copy, PartialEq, Eq, Structural)]
pub struct PCMD {
    /// Whether roll and pitch are to be taken into account.
    pub flag: bool,
    pub roll: i8,
    pub pitch: i8,
    pub yaw: i8,
    pub gaz: i8,
    /// Milliseconds since the Unix epoch; only the low 24 bits reach the
    /// wire.
    pub timestamp: u64,
    pub sequence_id: u8,
}

impl Piloting {
    /// The wire discriminator of this command.
    pub open spec fn spec_code(self) -> u16 {
        match self {
            Piloting::FlatTrim => 0,
            Piloting::TakeOff => 1,
            Piloting::PCMD(_) => 2,
            Piloting::Landing => 3,
            Piloting::Emergency => 4,
            Piloting::NavigateHome => 5,
            Piloting::AutoTakeOffMode => 6,
            Piloting::MoveBy => 7,
            Piloting::UserTakeOff => 8,
            Piloting::Circle => 9,
            Piloting::MoveTo => 10,
            Piloting::CancelMoveTo => 11,
            Piloting::StartPilotedPOI => 12,
            Piloting::StopPilotedPOI => 13,
        }
    }

    pub fn code(self) -> (r: u16)
        ensures
            r == self.spec_code(),
    {
        match self {
            Piloting::FlatTrim => 0,
            Piloting::TakeOff => 1,
            Piloting::PCMD(_) => 2,
            Piloting::Landing => 3,
            Piloting::Emergency => 4,
            Piloting::NavigateHome => 5,
            Piloting::AutoTakeOffMode => 6,
            Piloting::MoveBy => 7,
            Piloting::UserTakeOff => 8,
            Piloting::Circle => 9,
            Piloting::MoveTo => 10,
            Piloting::CancelMoveTo => 11,
            Piloting::StartPilotedPOI => 12,
            Piloting::StopPilotedPOI => 13,
        }
    }
}

// ------------------- wire format -------------------
/// The packed four-byte value of a piloting command: the timestamp truncated
/// to its low 24 bits, with the sequence number in the high 8 bits.
pub open spec fn spec_pcmd_packed(p: PCMD) -> u32 {
    (p.timestamp % 0x1000000 + p.sequence_id * 0x1000000) as u32
}

/// The wire bytes of the periodic piloting command: flag, the four attitude
/// setpoints, then the packed timestamp and sequence number little-endian.
pub open spec fn spec_pcmd_bytes(p: PCMD) -> Seq<u8> {
    seq![
        if p.flag {
            1u8
        } else {
            0u8
        },
        spec_i8_to_byte(p.roll),
        spec_i8_to_byte(p.pitch),
        spec_i8_to_byte(p.yaw),
        spec_i8_to_byte(p.gaz),
    ] + le32_bytes(spec_pcmd_packed(p))
}

/// A periodic piloting command from the window.  The decoded timestamp is
/// the low 24 bits of the packed field; the high 8 bits are the sequence
/// number.
pub open spec fn spec_parse_pcmd(s: Seq<u8>, pos: int, end: int) -> Result<(PCMD, int), Error> {
    match spec_parse_u8(s, pos, end) {
        Err(e) => Err(e),
        Ok((flag_byte, p1)) => if flag_byte > 1 {
            Err(Error::OutOfBound { value: flag_byte as u64, param: Param::Flag })
        } else {
            match spec_parse_u8(s, p1, end) {
                Err(e) => Err(e),
                Ok((roll, p2)) => match spec_parse_u8(s, p2, end) {
                    Err(e) => Err(e),
                    Ok((pitch, p3)) => match spec_parse_u8(s, p3, end) {
                        Err(e) => Err(e),
                        Ok((yaw, p4)) => match spec_parse_u8(s, p4, end) {
                            Err(e) => Err(e),
                            Ok((gaz, p5)) => match spec_parse_u32(s, p5, end) {
                                Err(e) => Err(e),
                                Ok((packed, p6)) => Ok(
                                    (
                                        PCMD {
                                            flag: flag_byte == 1,
                                            roll: spec_byte_to_i8(roll),
                                            pitch: spec_byte_to_i8(pitch),
                                            yaw: spec_byte_to_i8(yaw),
                                            gaz: spec_byte_to_i8(gaz),
                                            timestamp: (packed % 0x1000000) as u64,
                                            sequence_id: (packed / 0x1000000) as u8,
                                        },
                                        p6,
                                    ),
                                ),
                            },
                        },
                    },
                },
            }
        },
    }
}

pub fn parse_pcmd(buf: &Vec<u8>, pos: usize, end: usize) -> (r: Result<(PCMD, usize), Error>)
    requires
        pos <= end && end <= buf@.len(),
    ensures
        with_pos(r) == spec_parse_pcmd(buf@, pos as int, end as int),
        r matches Ok(v) ==> pos < v.1 <= end,
{
    let (flag_byte, p1) = match parse_u8(buf, pos, end) {
        Ok(v) => v,
        Err(e) => {
            return Err(e);
        },
    };
    if flag_byte > 1 {
        return Err(Error::OutOfBound { value: flag_byte as u64, param: Param::Flag });
    }
    let (roll, p2) = match parse_u8(buf, p1, end) {
        Ok(v) => v,
        Err(e) => {
            return Err(e);
        },
    };
    let (pitch, p3) = match parse_u8(buf, p2, end) {
        Ok(v) => v,
        Err(e) => {
            return Err(e);
        },
    };
    let (yaw, p4) = match parse_u8(buf, p3, end) {
        Ok(v) => v,
        Err(e) => {
            return Err(e);
        },
    };
    let (gaz, p5) = match parse_u8(buf, p4, end) {
        Ok(v) => v,
        Err(e) => {
            return Err(e);
        },
    };
    let (packed, p6) = match parse_u32(buf, p5, end) {
        Ok(v) => v,
        Err(e) => {
            return Err(e);
        },
    };
    Ok(
        (
            PCMD {
                flag: flag_byte == 1,
                roll: byte_to_i8(roll),
                pitch: byte_to_i8(pitch),
                yaw: byte_to_i8(yaw),
                gaz: byte_to_i8(gaz),
                timestamp: (packed % 0x1000000) as u64,
                sequence_id: (packed / 0x1000000) as u8,
            },
            p6,
        ),
    )
}

pub fn encode_pcmd(p: &PCMD) -> (r: Vec<u8>)
    ensures
        r@ == spec_pcmd_bytes(*p),
{
    let mut out: Vec<u8> = Vec::new();
    out.push(if p.flag {
        1
    } else {
        0
    });
    out.push(i8_to_byte(p.roll));
    out.push(i8_to_byte(p.pitch));
    out.push(i8_to_byte(p.yaw));
    out.push(i8_to_byte(p.gaz));
    let low: u32 = (p.timestamp % 0x1000000) as u32;
    let packed: u32 = low + p.sequence_id as u32 * 0x1000000;
    push_u32(&mut out, packed);
    assert(out@ =~= spec_pcmd_bytes(*p));
    out
}

/// Unpacking the packed field gives back the truncated timestamp and the
/// sequence number.
pub proof fn lemma_pcmd_packed_unpack(p: PCMD)
    ensures
        spec_pcmd_packed(p) % 0x1000000 == p.timestamp % 0x1000000,
        spec_pcmd_packed(p) / 0x1000000 == p.sequence_id,
{
    let low: int = p.timestamp as int % 0x1000000;
    lemma_mod_multiples_vanish(p.sequence_id as int, low, 0x1000000);
    lemma_small_mod(low as nat, 0x1000000);
    lemma_div_multiples_vanish_fancy(p.sequence_id as int, low, 0x1000000);
}

/// Decoding the encoding of a piloting command gives back its fields, with
/// the timestamp reduced modulo two to the twenty-fourth, and consumes
/// exactly its bytes.
pub proof fn lemma_pcmd_round_trip(s: Seq<u8>, pos: int, end: int, p: PCMD)
    requires
        0 <= pos <= end <= s.len(),
        s.subrange(pos, end) == spec_pcmd_bytes(p),
    ensures
        spec_parse_pcmd(s, pos, end) == Ok::<(PCMD, int), Error>(
            (
                PCMD {
                    flag: p.flag,
                    roll: p.roll,
                    pitch: p.pitch,
                    yaw: p.yaw,
                    gaz: p.gaz,
                    timestamp: (p.timestamp % 0x1000000) as u64,
                    sequence_id: p.sequence_id,
                },
                end,
            ),
        ),
{
    let head = seq![
        if p.flag {
            1u8
        } else {
            0u8
        },
        spec_i8_to_byte(p.roll),
        spec_i8_to_byte(p.pitch),
        spec_i8_to_byte(p.yaw),
        spec_i8_to_byte(p.gaz),
    ];
    let packed = spec_pcmd_packed(p);
    lemma_subrange_split(s, pos, end, head, le32_bytes(packed));
    assert(s[pos + 0] == head[0]);
    assert(s[pos + 1] == head[1]);
    assert(s[pos + 2] == head[2]);
    assert(s[pos + 3] == head[3]);
    assert(s[pos + 4] == head[4]);
    assert(s[pos + 5 + 0] == le32_bytes(packed)[0]);
    assert(s[pos + 5 + 1] == le32_bytes(packed)[1]);
    assert(s[pos + 5 + 2] == le32_bytes(packed)[2]);
    assert(s[pos + 5 + 3] == le32_bytes(packed)[3]);
    lemma_le32_round_trip(packed);
    lemma_i8_byte_round_trip(p.roll, 0);
    lemma_i8_byte_round_trip(p.pitch, 0);
    lemma_i8_byte_round_trip(p.yaw, 0);
    lemma_i8_byte_round_trip(p.gaz, 0);
    lemma_pcmd_packed_unpack(p);
}

/// The wire bytes of a piloting command: a two-byte discriminator, then for
/// the periodic command its parameters.
pub open spec fn spec_piloting_bytes(p: Piloting) -> Seq<u8> {
    le16_bytes(p.spec_code()) + match p {
        Piloting::PCMD(c) => spec_pcmd_bytes(c),
        _ => Seq::empty(),
    }
}

/// A piloting command from the window.
pub open spec fn spec_parse_piloting(s: Seq<u8>, pos: int, end: int) -> Result<
    (Piloting, int),
    Error,
> {
    match spec_parse_u16(s, pos, end) {
        Err(e) => Err(e),
        Ok((code, p1)) => match code {
            0u16 => Ok((Piloting::FlatTrim, p1)),
            1u16 => Ok((Piloting::TakeOff, p1)),
            2u16 => match spec_parse_pcmd(s, p1, end) {
                Err(e) => Err(e),
                Ok((c, p2)) => Ok((Piloting::PCMD(c), p2)),
            },
            3u16 => Ok((Piloting::Landing, p1)),
            4u16 => Ok((Piloting::Emergency, p1)),
            5u16 => Ok((Piloting::NavigateHome, p1)),
            6u16 => Ok((Piloting::AutoTakeOffMode, p1)),
            7u16 => Ok((Piloting::MoveBy, p1)),
            8u16 => Ok((Piloting::UserTakeOff, p1)),
            9u16 => Ok((Piloting::Circle, p1)),
            10u16 => Ok((Piloting::MoveTo, p1)),
            11u16 => Ok((Piloting::CancelMoveTo, p1)),
            12u16 => Ok((Piloting::StartPilotedPOI, p1)),
            13u16 => Ok((Piloting::StopPilotedPOI, p1)),
            _ => Err(Error::OutOfBound { value: code as u64, param: Param::Piloting }),
        },
    }
}

pub fn parse_piloting(buf: &Vec<u8>, pos: usize, end: usize) -> (r: Result<
    (Piloting, usize),
    Error,
>)
    requires
        pos <= end && end <= buf@.len(),
    ensures
        with_pos(r) == spec_parse_piloting(buf@, pos as int, end as int),
        r matches Ok(v) ==> pos < v.1 <= end,
{
    let (code, p1) = match parse_u16(buf, pos, end) {
        Ok(v) => v,
        Err(e) => {
            return Err(e);
        },
    };
    match code {
        0 => Ok((Piloting::FlatTrim, p1)),
        1 => Ok((Piloting::TakeOff, p1)),
        2 => match parse_pcmd(buf, p1, end) {
            Ok((c, p2)) => Ok((Piloting::PCMD(c), p2)),
            Err(e) => Err(e),
        },
        3 => Ok((Piloting::Landing, p1)),
        4 => Ok((Piloting::Emergency, p1)),
        5 => Ok((Piloting::NavigateHome, p1)),
        6 => Ok((Piloting::AutoTakeOffMode, p1)),
        7 => Ok((Piloting::MoveBy, p1)),
        8 => Ok((Piloting::UserTakeOff, p1)),
        9 => Ok((Piloting::Circle, p1)),
        10 => Ok((Piloting::MoveTo, p1)),
        11 => Ok((Piloting::CancelMoveTo, p1)),
        12 => Ok((Piloting::StartPilotedPOI, p1)),
        13 => Ok((Piloting::StopPilotedPOI, p1)),
        _ => Err(Error::OutOfBound { value: code as u64, param: Param::Piloting }),
    }
}

pub fn encode_piloting(p: &Piloting) -> (r: Vec<u8>)
    ensures
        r@ == spec_piloting_bytes(*p),
{
    let mut out: Vec<u8> = Vec::new();
    push_u16(&mut out, p.code());
    match p {
        Piloting::PCMD(c) => {
            let mut sb = encode_pcmd(c);
            out.append(&mut sb);
        },
        _ => {},
    }
    assert(out@ =~= spec_piloting_bytes(*p));
    out
}

/// Whether decoding the encoding of a piloting command gives back the very
/// same value: true except for a periodic command whose timestamp does not
/// fit its 24 wire bits.
pub open spec fn piloting_wire_exact(p: Piloting) -> bool {
    match p {
        Piloting::PCMD(c) => c.timestamp < 0x1000000,
        _ => true,
    }
}

/// Decoding the encoding of a piloting command whose timestamp fits the wire
/// gives it back and consumes exactly its bytes.
pub proof fn lemma_piloting_round_trip(s: Seq<u8>, pos: int, end: int, p: Piloting)
    requires
        0 <= pos <= end <= s.len(),
        s.subrange(pos, end) == spec_piloting_bytes(p),
        piloting_wire_exact(p),
    ensures
        spec_parse_piloting(s, pos, end) == Ok::<(Piloting, int), Error>((p, end)),
{
    let payload = match p {
        Piloting::PCMD(c) => spec_pcmd_bytes(c),
        _ => Seq::<u8>::empty(),
    };
    lemma_subrange_split(s, pos, end, le16_bytes(p.spec_code()), payload);
    lemma_le16_round_trip(p.spec_code());
    assert(s[pos + 0] == le16_bytes(p.spec_code())[0]);
    assert(s[pos + 1] == le16_bytes(p.spec_code())[1]);
    match p {
        Piloting::PCMD(c) => {
            lemma_pcmd_round_trip(s, pos + 2, end, c);
            lemma_small_mod(c.timestamp as nat, 0x1000000);
        },
        _ => {},
    }
}

} // verus!
