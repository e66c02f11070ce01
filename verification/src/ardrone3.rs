//! Commands of the ArDrone3 command family.
use vstd::prelude::*;

pub mod gps_state;
pub mod piloting;
pub mod piloting_state;

pub use gps_state::GPSState;
pub use piloting::{Piloting, PCMD};
pub use piloting_state::PilotingState;

use crate::bytes::{
    copy_range, le16_bytes, lemma_subrange_split, lemma_window_head, parse_u8, push_u16,
    spec_parse_u8,
};
use crate::frame::Error;
use piloting::{
    encode_piloting, lemma_piloting_round_trip, parse_piloting, piloting_wire_exact,
    spec_parse_piloting, spec_piloting_bytes,
};
use piloting_state::{
    encode_piloting_state, lemma_piloting_state_reencode, lemma_piloting_state_round_trip,
    parse_piloting_state, piloting_state_encodable, spec_parse_piloting_state,
    spec_piloting_state_bytes, PilotingStateView,
};

verus! {

/// Command class within the ArDrone3 family (one byte on the wire).
#[derive(Debug, Clone, PartialEq, Eq)]
pub enum ArDrone3 {
    Piloting(Piloting),
    Camera,
    PilotingSettings,
    MediaRecordEvent,
    PilotingState(PilotingState),
    Animations,
    PilotingSettingsState,
    MediaRecord,
    MediaRecordState,
    NetworkSettings,
    NetworkSettingsState,
    SpeedSettings,
    SpeedSettingsState,
    Network,
    NetworkState,
    SettingsState,
    PictureSettings,
    PictureSettingsState,
    MediaStreaming(MediaStreaming),
    MediaStreamingState,
    GPSSettings,
    GPSSettingsState,
    CameraState,
    AntiFlickering,
    AntiFlickeringState,
    GPSState,
    ProState,
    AccessoryState,
    PilotingEvent,
    Sound,
    SoundState,
    /// A class byte outside the decoded subset, kept with its raw trailing
    /// bytes so that re-encoding reproduces them verbatim.
    Unknown { ardrone3: u8, data: Vec<u8> },
}

/// Media-streaming commands (parameter is one byte on the wire).
#[derive(Debug, Clone, Copy, PartialEq, Eq, Structural)]
pub enum MediaStreaming {
    EnableVideo(bool),
}

impl ArDrone3 {
    /// The wire discriminator of this class.
    pub open spec fn spec_code(self) -> u8 {
        match self {
            ArDrone3::Piloting(_) => 0,
            ArDrone3::Camera => 1,
            ArDrone3::PilotingSettings => 2,
            ArDrone3::MediaRecordEvent => 3,
            ArDrone3::PilotingState(_) => 4,
            ArDrone3::Animations => 5,
            ArDrone3::PilotingSettingsState => 6,
            ArDrone3::MediaRecord => 7,
            ArDrone3::MediaRecordState => 8,
            ArDrone3::NetworkSettings => 9,
            ArDrone3::NetworkSettingsState => 10,
            ArDrone3::SpeedSettings => 11,
            ArDrone3::SpeedSettingsState => 12,
            ArDrone3::Network => 13,
            ArDrone3::NetworkState => 14,
            ArDrone3::SettingsState => 16,
            ArDrone3::PictureSettings => 19,
            ArDrone3::PictureSettingsState => 20,
            ArDrone3::MediaStreaming(_) => 21,
            ArDrone3::MediaStreamingState => 22,
            ArDrone3::GPSSettings => 23,
            ArDrone3::GPSSettingsState => 24,
            ArDrone3::CameraState => 28,
            ArDrone3::AntiFlickering => 29,
            ArDrone3::AntiFlickeringState => 30,
            ArDrone3::GPSState => 31,
            ArDrone3::ProState => 32,
            ArDrone3::AccessoryState => 33,
            ArDrone3::PilotingEvent => 34,
            ArDrone3::Sound => 35,
            ArDrone3::SoundState => 36,
            ArDrone3::Unknown { ardrone3, .. } => ardrone3,
        }
    }

    pub fn code(&self) -> (r: u8)
        ensures
            r == self.spec_code(),
    {
        match self {
            ArDrone3::Piloting(_) => 0,
            ArDrone3::Camera => 1,
            ArDrone3::PilotingSettings => 2,
            ArDrone3::MediaRecordEvent => 3,
            ArDrone3::PilotingState(_) => 4,
            ArDrone3::Animations => 5,
            ArDrone3::PilotingSettingsState => 6,
            ArDrone3::MediaRecord => 7,
            ArDrone3::MediaRecordState => 8,
            ArDrone3::NetworkSettings => 9,
            ArDrone3::NetworkSettingsState => 10,
            ArDrone3::SpeedSettings => 11,
            ArDrone3::SpeedSettingsState => 12,
            ArDrone3::Network => 13,
            ArDrone3::NetworkState => 14,
            ArDrone3::SettingsState => 16,
            ArDrone3::PictureSettings => 19,
            ArDrone3::PictureSettingsState => 20,
            ArDrone3::MediaStreaming(_) => 21,
            ArDrone3::MediaStreamingState => 22,
            ArDrone3::GPSSettings => 23,
            ArDrone3::GPSSettingsState => 24,
            ArDrone3::CameraState => 28,
            ArDrone3::AntiFlickering => 29,
            ArDrone3::AntiFlickeringState => 30,
            ArDrone3::GPSState => 31,
            ArDrone3::ProState => 32,
            ArDrone3::AccessoryState => 33,
            ArDrone3::PilotingEvent => 34,
            ArDrone3::Sound => 35,
            ArDrone3::SoundState => 36,
            ArDrone3::Unknown { ardrone3, .. } => *ardrone3,
        }
    }
}

// ------------------- wire format -------------------
/// The mathematical shape of an ArDrone3 class: the class with raw bytes
/// abstracted to sequences.
pub enum ArDrone3View {
    Piloting(Piloting),
    Camera,
    PilotingSettings,
    MediaRecordEvent,
    PilotingState(PilotingStateView),
    Animations,
    PilotingSettingsState,
    MediaRecord,
    MediaRecordState,
    NetworkSettings,
    NetworkSettingsState,
    SpeedSettings,
    SpeedSettingsState,
    Network,
    NetworkState,
    SettingsState,
    PictureSettings,
    PictureSettingsState,
    MediaStreaming(MediaStreaming),
    MediaStreamingState,
    GPSSettings,
    GPSSettingsState,
    CameraState,
    AntiFlickering,
    AntiFlickeringState,
    GPSState,
    ProState,
    AccessoryState,
    PilotingEvent,
    Sound,
    SoundState,
    Unknown { ardrone3: u8, data: Seq<u8> },
}

impl View for ArDrone3 {
    type V = ArDrone3View;

    open spec fn view(&self) -> ArDrone3View {
        match self {
            ArDrone3::Piloting(p) => ArDrone3View::Piloting(*p),
            ArDrone3::Camera => ArDrone3View::Camera,
            ArDrone3::PilotingSettings => ArDrone3View::PilotingSettings,
            ArDrone3::MediaRecordEvent => ArDrone3View::MediaRecordEvent,
            ArDrone3::PilotingState(ps) => ArDrone3View::PilotingState(ps@),
            ArDrone3::Animations => ArDrone3View::Animations,
            ArDrone3::PilotingSettingsState => ArDrone3View::PilotingSettingsState,
            ArDrone3::MediaRecord => ArDrone3View::MediaRecord,
            ArDrone3::MediaRecordState => ArDrone3View::MediaRecordState,
            ArDrone3::NetworkSettings => ArDrone3View::NetworkSettings,
            ArDrone3::NetworkSettingsState => ArDrone3View::NetworkSettingsState,
            ArDrone3::SpeedSettings => ArDrone3View::SpeedSettings,
            ArDrone3::SpeedSettingsState => ArDrone3View::SpeedSettingsState,
            ArDrone3::Network => ArDrone3View::Network,
            ArDrone3::NetworkState => ArDrone3View::NetworkState,
            ArDrone3::SettingsState => ArDrone3View::SettingsState,
            ArDrone3::PictureSettings => ArDrone3View::PictureSettings,
            ArDrone3::PictureSettingsState => ArDrone3View::PictureSettingsState,
            ArDrone3::MediaStreaming(m) => ArDrone3View::MediaStreaming(*m),
            ArDrone3::MediaStreamingState => ArDrone3View::MediaStreamingState,
            ArDrone3::GPSSettings => ArDrone3View::GPSSettings,
            ArDrone3::GPSSettingsState => ArDrone3View::GPSSettingsState,
            ArDrone3::CameraState => ArDrone3View::CameraState,
            ArDrone3::AntiFlickering => ArDrone3View::AntiFlickering,
            ArDrone3::AntiFlickeringState => ArDrone3View::AntiFlickeringState,
            ArDrone3::GPSState => ArDrone3View::GPSState,
            ArDrone3::ProState => ArDrone3View::ProState,
            ArDrone3::AccessoryState => ArDrone3View::AccessoryState,
            ArDrone3::PilotingEvent => ArDrone3View::PilotingEvent,
            ArDrone3::Sound => ArDrone3View::Sound,
            ArDrone3::SoundState => ArDrone3View::SoundState,
            ArDrone3::Unknown { ardrone3, data } => ArDrone3View::Unknown {
                ardrone3: *ardrone3,
                data: data@,
            },
        }
    }
}

impl ArDrone3View {
    /// The wire discriminator of this class.
    pub open spec fn code(self) -> u8 {
        match self {
            ArDrone3View::Piloting(_) => 0,
            ArDrone3View::Camera => 1,
            ArDrone3View::PilotingSettings => 2,
            ArDrone3View::MediaRecordEvent => 3,
            ArDrone3View::PilotingState(_) => 4,
            ArDrone3View::Animations => 5,
            ArDrone3View::PilotingSettingsState => 6,
            ArDrone3View::MediaRecord => 7,
            ArDrone3View::MediaRecordState => 8,
            ArDrone3View::NetworkSettings => 9,
            ArDrone3View::NetworkSettingsState => 10,
            ArDrone3View::SpeedSettings => 11,
            ArDrone3View::SpeedSettingsState => 12,
            ArDrone3View::Network => 13,
            ArDrone3View::NetworkState => 14,
            ArDrone3View::SettingsState => 16,
            ArDrone3View::PictureSettings => 19,
            ArDrone3View::PictureSettingsState => 20,
            ArDrone3View::MediaStreaming(_) => 21,
            ArDrone3View::MediaStreamingState => 22,
            ArDrone3View::GPSSettings => 23,
            ArDrone3View::GPSSettingsState => 24,
            ArDrone3View::CameraState => 28,
            ArDrone3View::AntiFlickering => 29,
            ArDrone3View::AntiFlickeringState => 30,
            ArDrone3View::GPSState => 31,
            ArDrone3View::ProState => 32,
            ArDrone3View::AccessoryState => 33,
            ArDrone3View::PilotingEvent => 34,
            ArDrone3View::Sound => 35,
            ArDrone3View::SoundState => 36,
            ArDrone3View::Unknown { ardrone3, .. } => ardrone3,
        }
    }
}

impl MediaStreaming {
    /// The wire discriminator of this command.
    pub open spec fn spec_code(self) -> u16 {
        match self {
            MediaStreaming::EnableVideo(_) => 0,
        }
    }

    pub fn code(self) -> (r: u16)
        ensures
            r == self.spec_code(),
    {
        match self {
            MediaStreaming::EnableVideo(_) => 0,
        }
    }
}

/// The wire bytes of a media-streaming command: its two-byte discriminator,
/// then the enable flag.
pub open spec fn spec_media_streaming_bytes(m: MediaStreaming) -> Seq<u8> {
    le16_bytes(m.spec_code()) + match m {
        MediaStreaming::EnableVideo(enabled) => seq![
            if enabled {
                1u8
            } else {
                0u8
            },
        ],
    }
}

pub fn encode_media_streaming(m: &MediaStreaming) -> (r: Vec<u8>)
    ensures
        r@ == spec_media_streaming_bytes(*m),
{
    let mut out: Vec<u8> = Vec::new();
    push_u16(&mut out, m.code());
    match m {
        MediaStreaming::EnableVideo(enabled) => {
            out.push(if *enabled {
                1
            } else {
                0
            });
        },
    }
    assert(out@ =~= spec_media_streaming_bytes(*m));
    out
}

/// Which classes have an encoding: the piloting commands, the opaque
/// piloting state, media streaming, and the opaque class itself.
pub open spec fn ardrone3_encodable(a: ArDrone3View) -> bool {
    match a {
        ArDrone3View::Piloting(_) => true,
        ArDrone3View::PilotingState(ps) => piloting_state_encodable(ps),
        ArDrone3View::MediaStreaming(_) => true,
        ArDrone3View::Unknown { .. } => true,
        _ => false,
    }
}

/// The wire bytes of an ArDrone3 class: its one-byte discriminator, then the
/// payload of its command.
pub open spec fn spec_ardrone3_bytes(a: ArDrone3View) -> Seq<u8> {
    seq![a.code()] + match a {
        ArDrone3View::Piloting(p) => spec_piloting_bytes(p),
        ArDrone3View::PilotingState(ps) => spec_piloting_state_bytes(ps),
        ArDrone3View::MediaStreaming(m) => spec_media_streaming_bytes(m),
        ArDrone3View::Unknown { data, .. } => data,
        _ => Seq::empty(),
    }
}

/// An ArDrone3 class from the window.  Only the piloting commands and the
/// piloting state reports are interpreted; every other class byte decodes to
/// the opaque class carrying the rest of the window.
pub open spec fn spec_parse_ardrone3(s: Seq<u8>, pos: int, end: int) -> Result<
    (ArDrone3View, int),
    Error,
> {
    match spec_parse_u8(s, pos, end) {
        Err(e) => Err(e),
        Ok((code, p1)) => match code {
            0u8 => match spec_parse_piloting(s, p1, end) {
                Err(e) => Err(e),
                Ok((p, p2)) => Ok((ArDrone3View::Piloting(p), p2)),
            },
            4u8 => match spec_parse_piloting_state(s, p1, end) {
                Err(e) => Err(e),
                Ok((ps, p2)) => Ok((ArDrone3View::PilotingState(ps), p2)),
            },
            _ => Ok((ArDrone3View::Unknown { ardrone3: code, data: s.subrange(p1, end) }, end)),
        },
    }
}

pub fn parse_ardrone3(buf: &Vec<u8>, pos: usize, end: usize) -> (r: Result<
    (ArDrone3, usize),
    Error,
>)
    requires
        pos <= end && end <= buf@.len(),
    ensures
        match (r, spec_parse_ardrone3(buf@, pos as int, end as int)) {
            (Ok((a, p)), Ok((av, q))) => a@ == av && p == q,
            (Err(e), Err(d)) => e == d,
            _ => false,
        },
        r matches Ok(v) ==> pos < v.1 <= end,
{
    let (code, p1) = match parse_u8(buf, pos, end) {
        Ok(v) => v,
        Err(e) => {
            return Err(e);
        },
    };
    match code {
        0 => match parse_piloting(buf, p1, end) {
            Ok((p, p2)) => Ok((ArDrone3::Piloting(p), p2)),
            Err(e) => Err(e),
        },
        4 => match parse_piloting_state(buf, p1, end) {
            Ok((ps, p2)) => Ok((ArDrone3::PilotingState(ps), p2)),
            Err(e) => Err(e),
        },
        _ => {
            let data = copy_range(buf, p1, end);
            Ok((ArDrone3::Unknown { ardrone3: code, data }, end))
        },
    }
}

pub fn encode_ardrone3(a: &ArDrone3) -> (r: Result<Vec<u8>, Error>)
    ensures
        r matches Ok(v) ==> ardrone3_encodable(a@) && v@ == spec_ardrone3_bytes(a@),
        r is Err <==> !ardrone3_encodable(a@),
        r matches Err(e) ==> e == Error::Unsupported,
{
    match a {
        ArDrone3::Piloting(p) => {
            let mut out: Vec<u8> = Vec::new();
            out.push(a.code());
            let mut sb = encode_piloting(p);
            out.append(&mut sb);
            assert(out@ =~= spec_ardrone3_bytes(a@));
            Ok(out)
        },
        ArDrone3::PilotingState(ps) => {
            let mut sb = match encode_piloting_state(ps) {
                Ok(v) => v,
                Err(e) => {
                    return Err(e);
                },
            };
            let mut out: Vec<u8> = Vec::new();
            out.push(a.code());
            out.append(&mut sb);
            assert(out@ =~= spec_ardrone3_bytes(a@));
            Ok(out)
        },
        ArDrone3::MediaStreaming(m) => {
            let mut out: Vec<u8> = Vec::new();
            out.push(a.code());
            let mut sb = encode_media_streaming(m);
            out.append(&mut sb);
            assert(out@ =~= spec_ardrone3_bytes(a@));
            Ok(out)
        },
        ArDrone3::Unknown { ardrone3, data } => {
            let mut out: Vec<u8> = Vec::new();
            out.push(*ardrone3);
            let mut d = data.clone();
            assert(d@ == data@);
            out.append(&mut d);
            assert(out@ =~= spec_ardrone3_bytes(a@));
            Ok(out)
        },
        _ => Err(Error::Unsupported),
    }
}

/// Whether decoding the encoding of a class gives back the very same value.
/// Media streaming has no decoding; an opaque class whose byte collides with
/// an interpreted class decodes as that class instead.
pub open spec fn ardrone3_wire_exact(a: ArDrone3View) -> bool {
    match a {
        ArDrone3View::Piloting(p) => piloting_wire_exact(p),
        ArDrone3View::PilotingState(ps) => piloting_state_encodable(ps),
        ArDrone3View::Unknown { ardrone3, .. } => ardrone3 != 0 && ardrone3 != 4,
        _ => false,
    }
}

/// Decoding the encoding of a faithful class gives it back and consumes
/// exactly its bytes.
pub proof fn lemma_ardrone3_round_trip(s: Seq<u8>, pos: int, end: int, a: ArDrone3View)
    requires
        0 <= pos <= end <= s.len(),
        s.subrange(pos, end) == spec_ardrone3_bytes(a),
        ardrone3_encodable(a),
        ardrone3_wire_exact(a),
    ensures
        spec_parse_ardrone3(s, pos, end) == Ok::<(ArDrone3View, int), Error>((a, end)),
{
    let payload = match a {
        ArDrone3View::Piloting(p) => spec_piloting_bytes(p),
        ArDrone3View::PilotingState(ps) => spec_piloting_state_bytes(ps),
        ArDrone3View::MediaStreaming(m) => spec_media_streaming_bytes(m),
        ArDrone3View::Unknown { data, .. } => data,
        _ => Seq::<u8>::empty(),
    };
    lemma_subrange_split(s, pos, end, seq![a.code()], payload);
    assert(s[pos + 0] == seq![a.code()][0]);
    match a {
        ArDrone3View::Piloting(p) => {
            lemma_piloting_round_trip(s, pos + 1, end, p);
        },
        ArDrone3View::PilotingState(ps) => {
            lemma_piloting_state_round_trip(s, pos + 1, end, ps);
        },
        ArDrone3View::Unknown { ardrone3, data } => {
            assert(s.subrange(pos + 1, end) == data);
        },
        _ => {},
    }
}

/// Re-encoding a decoded opaque class, or a decoded piloting state report,
/// reproduces the bytes it consumed.
pub proof fn lemma_ardrone3_reencode(s: Seq<u8>, pos: int, end: int)
    requires
        0 <= pos <= end <= s.len(),
        spec_parse_ardrone3(s, pos, end) is Ok,
        !(spec_parse_ardrone3(s, pos, end)->Ok_0.0 is Piloting),
    ensures
        spec_parse_ardrone3(s, pos, end)->Ok_0.1 == end,
        spec_ardrone3_bytes(spec_parse_ardrone3(s, pos, end)->Ok_0.0) == s.subrange(pos, end),
        ardrone3_encodable(spec_parse_ardrone3(s, pos, end)->Ok_0.0),
    decreases end - pos,
{
    let a = spec_parse_ardrone3(s, pos, end)->Ok_0.0;
    lemma_window_head(s, pos, end);
    if s[pos] == 4 {
        lemma_piloting_state_reencode(s, pos + 1, end);
        assert(spec_ardrone3_bytes(a) =~= s.subrange(pos, end));
    } else {
        assert(spec_ardrone3_bytes(a) =~= s.subrange(pos, end));
    }
}

} // verus!
