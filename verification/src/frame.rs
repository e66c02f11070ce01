//! Wire frames: a fixed seven-byte header (kind, channel, sequence number,
//! total length) followed by an optional command payload.
use vstd::prelude::*;

use crate::bytes::{
    copy_range, le32_bytes, le32_val, lemma_le32_bytes_of_val, lemma_le32_round_trip,
    lemma_subrange_split, parse_u32, parse_u8, push_u32,
};
use crate::command::{
    encode_feature, feature_encodable, feature_reencodes, feature_wire_exact,
    lemma_feature_reencode, lemma_feature_round_trip, parse_feature, spec_feature_bytes,
    spec_parse_feature, Feature, FeatureView,
};

verus! {

/// Field names used by [`Error::OutOfBound`] to say which discriminator was
/// out of range.
#[derive(Debug, Clone, Copy, PartialEq, Eq, Structural)]
pub enum Param {
    Type,
    BufferId,
    Flag,
    Piloting,
    PilotingId,
    Class,
    Common,
    Anim,
}

/// Decode and encode errors of the codec.
#[derive(Debug, Clone, PartialEq, Eq)]
pub enum Error {
    /// A discriminator with no known interpretation and no opaque fallback at
    /// its level.
    OutOfBound { value: u64, param: Param },
    /// The declared frame length disagrees with the number of bytes actually
    /// consumed by decoding.
    BytesLength { expected: u32, actual: u32 },
    /// The buffer ended before a fixed-size field could be read.
    Truncated { needed: usize, available: usize },
    /// The payload of a frame to encode does not fit the four-byte length
    /// field.
    Oversize { payload: usize },
    /// The variant has no encoding.
    Unsupported,
}

/// Delivery semantics of a frame (one byte on the wire).
#[derive(Debug, Clone, Copy, PartialEq, Eq, Structural)]
pub enum Type {
    Uninitialized,
    Ack,
    Data,
    LowLatency,
    DataWithAck,
    Max,
}

impl Type {
    /// The wire discriminator of this kind.
    pub open spec fn spec_code(self) -> u8 {
        match self {
            Type::Uninitialized => 0,
            Type::Ack => 1,
            Type::Data => 2,
            Type::LowLatency => 3,
            Type::DataWithAck => 4,
            Type::Max => 5,
        }
    }

    /// The kind a wire discriminator stands for, if any.
    pub open spec fn spec_from_code(v: u8) -> Option<Type> {
        match v {
            0u8 => Some(Type::Uninitialized),
            1u8 => Some(Type::Ack),
            2u8 => Some(Type::Data),
            3u8 => Some(Type::LowLatency),
            4u8 => Some(Type::DataWithAck),
            5u8 => Some(Type::Max),
            _ => None,
        }
    }

    pub fn code(self) -> (r: u8)
        ensures
            r == self.spec_code(),
    {
        match self {
            Type::Uninitialized => 0,
            Type::Ack => 1,
            Type::Data => 2,
            Type::LowLatency => 3,
            Type::DataWithAck => 4,
            Type::Max => 5,
        }
    }

    pub fn from_code(v: u8) -> (r: Option<Type>)
        ensures
            r == Type::spec_from_code(v),
    {
        match v {
            0 => Some(Type::Uninitialized),
            1 => Some(Type::Ack),
            2 => Some(Type::Data),
            3 => Some(Type::LowLatency),
            4 => Some(Type::DataWithAck),
            5 => Some(Type::Max),
            _ => None,
        }
    }
}

/// Logical channel of a frame (one byte on the wire); each channel has its own
/// sequence-number space.
#[derive(Debug, Clone, Copy, PartialEq, Eq, Structural)]
pub enum BufferID {
    /// Pings from the vehicle.
    PING,
    /// Responses to pings.
    PONG,
    /// Commands that need no acknowledgement.
    CDNonAck,
    /// Commands that are acknowledged.
    CDAck,
    /// Emergency commands.
    CDEmergency,
    /// Acknowledgements for video data.
    CDVideoAck,
    /// Video data from the vehicle.
    DCVideo,
    /// Events from the vehicle, not acknowledged.
    DCEvent,
    /// Telemetry from the vehicle that must be acknowledged.
    DCNavdata,
    /// Acknowledgement of a command sent on the acknowledged channel.
    ACKFromSendWithAck,
}

impl BufferID {
    /// The wire discriminator of this channel.
    pub open spec fn spec_code(self) -> u8 {
        match self {
            BufferID::PING => 0,
            BufferID::PONG => 1,
            BufferID::CDNonAck => 10,
            BufferID::CDAck => 11,
            BufferID::CDEmergency => 12,
            BufferID::CDVideoAck => 13,
            BufferID::DCVideo => 125,
            BufferID::DCEvent => 126,
            BufferID::DCNavdata => 127,
            BufferID::ACKFromSendWithAck => 139,
        }
    }

    /// The channel a wire discriminator stands for, if any.
    pub open spec fn spec_from_code(v: u8) -> Option<BufferID> {
        match v {
            0u8 => Some(BufferID::PING),
            1u8 => Some(BufferID::PONG),
            10u8 => Some(BufferID::CDNonAck),
            11u8 => Some(BufferID::CDAck),
            12u8 => Some(BufferID::CDEmergency),
            13u8 => Some(BufferID::CDVideoAck),
            125u8 => Some(BufferID::DCVideo),
            126u8 => Some(BufferID::DCEvent),
            127u8 => Some(BufferID::DCNavdata),
            139u8 => Some(BufferID::ACKFromSendWithAck),
            _ => None,
        }
    }

    pub fn code(self) -> (r: u8)
        ensures
            r == self.spec_code(),
    {
        match self {
            BufferID::PING => 0,
            BufferID::PONG => 1,
            BufferID::CDNonAck => 10,
            BufferID::CDAck => 11,
            BufferID::CDEmergency => 12,
            BufferID::CDVideoAck => 13,
            BufferID::DCVideo => 125,
            BufferID::DCEvent => 126,
            BufferID::DCNavdata => 127,
            BufferID::ACKFromSendWithAck => 139,
        }
    }

    pub fn from_code(v: u8) -> (r: Option<BufferID>)
        ensures
            r == BufferID::spec_from_code(v),
    {
        match v {
            0 => Some(BufferID::PING),
            1 => Some(BufferID::PONG),
            10 => Some(BufferID::CDNonAck),
            11 => Some(BufferID::CDAck),
            12 => Some(BufferID::CDEmergency),
            13 => Some(BufferID::CDVideoAck),
            125 => Some(BufferID::DCVideo),
            126 => Some(BufferID::DCEvent),
            127 => Some(BufferID::DCNavdata),
            139 => Some(BufferID::ACKFromSendWithAck),
            _ => None,
        }
    }
}

/// Distinct channels have distinct wire discriminators.
pub proof fn lemma_buffer_id_code_injective(a: BufferID, b: BufferID)
    requires
        a.spec_code() == b.spec_code(),
    ensures
        a == b,
{
}

/// One wire message: header fields plus an optional command payload.
#[derive(Debug, Clone, PartialEq, Eq)]
pub struct Frame {
    pub frame_type: Type,
    pub buffer_id: BufferID,
    pub sequence_id: u8,
    pub feature: Option<crate::command::Feature>,
}

impl Frame {
    pub fn new(
        frame_type: Type,
        buffer_id: BufferID,
        sequence_id: u8,
        feature: Option<crate::command::Feature>,
    ) -> (r: Self)
        ensures
            r == (Frame { frame_type, buffer_id, sequence_id, feature }),
    {
        Self { frame_type, buffer_id, sequence_id, feature }
    }
}

/// A frame whose header carried a kind or channel byte outside the known
/// sets; the raw bytes are kept for diagnostics.
#[derive(Debug, Clone, PartialEq, Eq)]
pub struct UnknownFrame {
    pub key: Param,
    pub value: u64,
    pub data: Vec<u8>,
}

/// Result of decoding one frame from a buffer: either a fully decoded frame
/// or an unknown one kept as raw bytes.
#[derive(Debug, Clone, PartialEq, Eq)]
pub enum FrameType {
    Known(Frame),
    Unknown(UnknownFrame),
}

// ------------------- wire format -------------------
/// The mathematical shape of a frame: the frame with raw bytes abstracted to
/// sequences.
pub struct FrameView {
    pub frame_type: Type,
    pub buffer_id: BufferID,
    pub sequence_id: u8,
    pub feature: Option<FeatureView>,
}

impl View for Frame {
    type V = FrameView;

    open spec fn view(&self) -> FrameView {
        FrameView {
            frame_type: self.frame_type,
            buffer_id: self.buffer_id,
            sequence_id: self.sequence_id,
            feature: match &self.feature {
                None => None,
                Some(f) => Some(f@),
            },
        }
    }
}

/// The mathematical shape of an unknown frame.
pub struct UnknownFrameView {
    pub key: Param,
    pub value: u64,
    pub data: Seq<u8>,
}

impl View for UnknownFrame {
    type V = UnknownFrameView;

    open spec fn view(&self) -> UnknownFrameView {
        UnknownFrameView { key: self.key, value: self.value, data: self.data@ }
    }
}

/// The mathematical shape of a decode result.
pub enum FrameTypeView {
    Known(FrameView),
    Unknown(UnknownFrameView),
}

impl View for FrameType {
    type V = FrameTypeView;

    open spec fn view(&self) -> FrameTypeView {
        match self {
            FrameType::Known(f) => FrameTypeView::Known(f@),
            FrameType::Unknown(u) => FrameTypeView::Unknown(u@),
        }
    }
}

/// A channel discriminator determines its channel.
pub proof fn lemma_buffer_id_code_inverse(b: BufferID)
    ensures
        BufferID::spec_from_code(b.spec_code()) == Some(b),
{
}

/// A kind discriminator determines its kind.
pub proof fn lemma_type_code_inverse(t: Type)
    ensures
        Type::spec_from_code(t.spec_code()) == Some(t),
{
}

/// The payload bytes of a frame: empty when the payload is absent.
pub open spec fn spec_frame_payload(f: FrameView) -> Seq<u8> {
    match f.feature {
        None => Seq::empty(),
        Some(x) => spec_feature_bytes(x),
    }
}

/// The declared length of a frame: the seven header bytes plus the payload.
pub open spec fn spec_frame_len(f: FrameView) -> u32 {
    (7 + spec_frame_payload(f).len()) as u32
}

/// Which frames have an encoding: the payload must have one and the total
/// length must fit the four-byte length field.
pub open spec fn frame_encodable(f: FrameView) -> bool {
    &&& match f.feature {
        None => true,
        Some(x) => feature_encodable(x),
    }
    &&& 7 + spec_frame_payload(f).len() <= 0xFFFF_FFFF
}

/// The wire bytes of a frame: kind, channel, sequence number, the total
/// length little-endian, then the payload.
pub open spec fn spec_frame_bytes(f: FrameView) -> Seq<u8> {
    seq![f.frame_type.spec_code(), f.buffer_id.spec_code(), f.sequence_id] + le32_bytes(
        spec_frame_len(f),
    ) + spec_frame_payload(f)
}

/// A frame from the window.  The declared length must not exceed the window
/// and must equal exactly the seven header bytes plus what the payload
/// consumes; a payload is present exactly when the declared length exceeds
/// seven.
pub open spec fn spec_parse_frame(s: Seq<u8>, pos: int, end: int) -> Result<(FrameView, int), Error> {
    if end - pos < 7 {
        Err(Error::Truncated { needed: 7, available: (end - pos) as usize })
    } else {
        match Type::spec_from_code(s[pos]) {
            None => Err(Error::OutOfBound { value: s[pos] as u64, param: Param::Type }),
            Some(ft) => match BufferID::spec_from_code(s[pos + 1]) {
                None => Err(Error::OutOfBound { value: s[pos + 1] as u64, param: Param::BufferId }),
                Some(bid) => {
                    let len32 = le32_val(s[pos + 3], s[pos + 4], s[pos + 5], s[pos + 6]);
                    let len = len32 as int;
                    if len < 7 {
                        Err(Error::BytesLength { expected: len32, actual: 7 })
                    } else if len > end - pos {
                        Err(
                            Error::Truncated {
                                needed: len as usize,
                                available: (end - pos) as usize,
                            },
                        )
                    } else if len == 7 {
                        Ok(
                            (
                                FrameView {
                                    frame_type: ft,
                                    buffer_id: bid,
                                    sequence_id: s[pos + 2],
                                    feature: None,
                                },
                                pos + 7,
                            ),
                        )
                    } else {
                        match spec_parse_feature(s, pos + 7, pos + len) {
                            Err(e) => Err(e),
                            Ok((fv, c)) => if c != pos + len {
                                Err(
                                    Error::BytesLength {
                                        expected: len32,
                                        actual: (c - pos) as u32,
                                    },
                                )
                            } else {
                                Ok(
                                    (
                                        FrameView {
                                            frame_type: ft,
                                            buffer_id: bid,
                                            sequence_id: s[pos + 2],
                                            feature: Some(fv),
                                        },
                                        pos + len,
                                    ),
                                )
                            },
                        }
                    }
                },
            },
        }
    }
}

/// Decodes one frame from the window.
pub fn parse_frame(buf: &Vec<u8>, pos: usize, end: usize) -> (r: Result<(Frame, usize), Error>)
    requires
        pos <= end && end <= buf@.len(),
    ensures
        match (r, spec_parse_frame(buf@, pos as int, end as int)) {
            (Ok((f, p)), Ok((fv, q))) => f@ == fv && p == q,
            (Err(e), Err(d)) => e == d,
            _ => false,
        },
        r matches Ok(v) ==> pos < v.1 <= end,
{
    if end - pos < 7 {
        return Err(Error::Truncated { needed: 7, available: end - pos });
    }
    let ft = match Type::from_code(buf[pos]) {
        Some(t) => t,
        None => {
            return Err(Error::OutOfBound { value: buf[pos] as u64, param: Param::Type });
        },
    };
    let bid = match BufferID::from_code(buf[pos + 1]) {
        Some(b) => b,
        None => {
            return Err(Error::OutOfBound { value: buf[pos + 1] as u64, param: Param::BufferId });
        },
    };
    let sequence_id = buf[pos + 2];
    let (len32, _) = match parse_u32(buf, pos + 3, end) {
        Ok(v) => v,
        Err(e) => {
            return Err(e);
        },
    };
    let len = len32 as usize;
    if len < 7 {
        Err(Error::BytesLength { expected: len32, actual: 7 })
    } else if len > end - pos {
        Err(Error::Truncated { needed: len, available: end - pos })
    } else if len == 7 {
        Ok((Frame { frame_type: ft, buffer_id: bid, sequence_id, feature: None }, pos + 7))
    } else {
        match parse_feature(buf, pos + 7, pos + len) {
            Err(e) => Err(e),
            Ok((fv, c)) => {
                if c != pos + len {
                    Err(Error::BytesLength { expected: len32, actual: (c - pos) as u32 })
                } else {
                    Ok(
                        (
                            Frame {
                                frame_type: ft,
                                buffer_id: bid,
                                sequence_id,
                                feature: Some(fv),
                            },
                            pos + len,
                        ),
                    )
                }
            },
        }
    }
}

/// Encodes a frame: header with the self-referential total length, then the
/// payload.
pub fn encode_frame(f: &Frame) -> (r: Result<Vec<u8>, Error>)
    ensures
        r matches Ok(v) ==> frame_encodable(f@) && v@ == spec_frame_bytes(f@),
        r is Ok <==> frame_encodable(f@),
        r matches Err(e) ==> e == Error::Unsupported || e matches Error::Oversize { .. },
{
    let payload: Vec<u8> = match &f.feature {
        None => Vec::new(),
        Some(x) => {
            match encode_feature(x) {
                Ok(v) => v,
                Err(e) => {
                    return Err(e);
                },
            }
        },
    };
    if payload.len() as u64 > 0xFFFF_FFFFu64 - 7 {
        return Err(Error::Oversize { payload: payload.len() });
    }
    let len32: u32 = (payload.len() as u64 + 7) as u32;
    let mut out: Vec<u8> = Vec::new();
    out.push(f.frame_type.code());
    out.push(f.buffer_id.code());
    out.push(f.sequence_id);
    push_u32(&mut out, len32);
    let mut p = payload;
    out.append(&mut p);
    assert(out@ =~= spec_frame_bytes(f@));
    Ok(out)
}

/// Whether decoding the encoding of a frame gives back the very same value.
pub open spec fn frame_wire_exact(f: FrameView) -> bool {
    match f.feature {
        None => true,
        Some(x) => feature_wire_exact(x),
    }
}

/// Decoding the encoding of a faithful frame gives it back and consumes
/// exactly its bytes.
pub proof fn lemma_frame_round_trip(s: Seq<u8>, pos: int, end: int, f: FrameView)
    requires
        0 <= pos <= end <= s.len(),
        s.subrange(pos, end) == spec_frame_bytes(f),
        frame_encodable(f),
        frame_wire_exact(f),
    ensures
        spec_parse_frame(s, pos, end) == Ok::<(FrameView, int), Error>((f, end)),
{
    let header = seq![f.frame_type.spec_code(), f.buffer_id.spec_code(), f.sequence_id]
        + le32_bytes(spec_frame_len(f));
    let payload = spec_frame_payload(f);
    assert(spec_frame_bytes(f) =~= header + payload);
    lemma_subrange_split(s, pos, end, header, payload);
    assert(s[pos + 0] == header[0]);
    assert(s[pos + 1] == header[1]);
    assert(s[pos + 2] == header[2]);
    assert(s[pos + 3] == header[3]);
    assert(s[pos + 4] == header[4]);
    assert(s[pos + 5] == header[5]);
    assert(s[pos + 6] == header[6]);
    lemma_le32_round_trip(spec_frame_len(f));
    lemma_type_code_inverse(f.frame_type);
    lemma_buffer_id_code_inverse(f.buffer_id);
    assert(le32_val(s[pos + 3], s[pos + 4], s[pos + 5], s[pos + 6]) == spec_frame_len(f));
    match f.feature {
        None => {},
        Some(x) => {
            assert(spec_frame_len(f) as int == 7 + payload.len());
            lemma_feature_round_trip(s, pos + 7, end, x);
        },
    }
}

/// For every decoded frame the declared length equals the bytes consumed:
/// seven header bytes plus the payload, and a payload is present exactly
/// when the declared length exceeds seven.
pub proof fn lemma_frame_length_invariant(s: Seq<u8>, pos: int, end: int)
    requires
        0 <= pos <= end <= s.len(),
        spec_parse_frame(s, pos, end) is Ok,
    ensures
        ({
            let (f, c) = spec_parse_frame(s, pos, end)->Ok_0;
            &&& c - pos == le32_val(s[pos + 3], s[pos + 4], s[pos + 5], s[pos + 6]) as int
            &&& c - pos >= 7
            &&& (f.feature is None <==> c - pos == 7)
        }),
{
}

/// Re-encoding a decoded frame whose payload is absent or ends in an opaque
/// leaf reproduces exactly the bytes the decoder consumed.  In particular a
/// frame with an unrecognized family or class discriminator survives a
/// decode and re-encode byte for byte.
pub proof fn lemma_frame_reencode(s: Seq<u8>, pos: int, end: int)
    requires
        0 <= pos <= end <= s.len(),
        spec_parse_frame(s, pos, end) is Ok,
        match spec_parse_frame(s, pos, end)->Ok_0.0.feature {
            None => true,
            Some(x) => feature_reencodes(x),
        },
    ensures
        ({
            let (f, c) = spec_parse_frame(s, pos, end)->Ok_0;
            &&& frame_encodable(f)
            &&& spec_frame_bytes(f) == s.subrange(pos, c)
        }),
{
    let (f, c) = spec_parse_frame(s, pos, end)->Ok_0;
    let len32 = le32_val(s[pos + 3], s[pos + 4], s[pos + 5], s[pos + 6]);
    lemma_type_code_inverse(f.frame_type);
    lemma_buffer_id_code_inverse(f.buffer_id);
    if len32 == 7 {
        assert(spec_frame_len(f) == 7);
        lemma_le32_bytes_of_val(s[pos + 3], s[pos + 4], s[pos + 5], s[pos + 6]);
        assert(spec_frame_bytes(f) =~= s.subrange(pos, c));
    } else {
        lemma_feature_reencode(s, pos + 7, pos + len32 as int);
        assert(spec_frame_payload(f).len() == len32 - 7);
        assert(spec_frame_len(f) == len32);
        lemma_le32_bytes_of_val(s[pos + 3], s[pos + 4], s[pos + 5], s[pos + 6]);
        assert(spec_frame_bytes(f) =~= s.subrange(pos, c));
    }
}

/// One decode attempt from the window: a decoded frame, or an unknown one
/// when a kind, channel or other discriminator is out of range, carrying the
/// whole window as raw bytes.  Only a length disagreement or a truncated
/// window is an error.
pub open spec fn spec_parse_frame_type(s: Seq<u8>, pos: int, end: int) -> Result<
    (FrameTypeView, int),
    Error,
> {
    match spec_parse_frame(s, pos, end) {
        Ok((f, c)) => Ok((FrameTypeView::Known(f), c)),
        Err(Error::OutOfBound { value, param }) => Ok(
            (
                FrameTypeView::Unknown(
                    UnknownFrameView { key: param, value, data: s.subrange(pos, end) },
                ),
                end,
            ),
        ),
        Err(e) => Err(e),
    }
}

/// Decodes one frame, keeping frames with unknown discriminators as raw
/// bytes rather than failing.
pub fn parse_frame_type(buf: &Vec<u8>, pos: usize, end: usize) -> (r: Result<
    (FrameType, usize),
    Error,
>)
    requires
        pos <= end && end <= buf@.len(),
    ensures
        match (r, spec_parse_frame_type(buf@, pos as int, end as int)) {
            (Ok((f, p)), Ok((fv, q))) => f@ == fv && p == q,
            (Err(e), Err(d)) => e == d,
            _ => false,
        },
        r matches Ok(v) ==> pos < v.1 <= end,
{
    match parse_frame(buf, pos, end) {
        Ok((f, c)) => Ok((FrameType::Known(f), c)),
        Err(Error::OutOfBound { value, param }) => {
            let data = copy_range(buf, pos, end);
            assert(pos < end) by {
                assert(spec_parse_frame(buf@, pos as int, end as int) is Err);
            }
            Ok((FrameType::Unknown(UnknownFrame { key: param, value, data }), end))
        },
        Err(e) => Err(e),
    }
}

} // verus!
