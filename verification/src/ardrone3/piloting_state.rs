//! Piloting telemetry of the ArDrone3 family.
use vstd::prelude::*;

use crate::bytes::{
    copy_range, le16_bytes, le16_val, lemma_le16_bytes_of_val, lemma_le16_round_trip,
    lemma_subrange_split, parse_u16, push_u16, spec_parse_u16,
};
use crate::frame::Error;

verus! {

/// Piloting state reports (two bytes, little-endian, on the wire).  Only the
/// opaque fallback decodes today; the named reports encode nothing yet.
#[derive(Debug, Clone, PartialEq, Eq)]
pub enum PilotingState {
    FlatTrimChanged,
    FlyingStateChanged,
    AlterStateChanged,
    NavigateHomeStateChanged,
    PositionChanged,
    SpeedChanged,
    AttitudeChanged,
    AutoTakeOffModeChanged,
    AltitudeChanged,
    GpsLocationChanged,
    LandingStateChanged,
    AirspeedChanged,
    MoveToChanged,
    MotionState,
    PilotedPOI,
    ReturnHomeBatteryCapacity,
    /// A report code outside the decoded subset, kept with its raw trailing
    /// bytes so that re-encoding reproduces them verbatim.
    Unknown { piloting_state: u16, data: Vec<u8> },
}

impl PilotingState {
    /// The wire discriminator of this report.
    pub open spec fn spec_code(self) -> u16 {
        match self {
            PilotingState::FlatTrimChanged => 0,
            PilotingState::FlyingStateChanged => 1,
            PilotingState::AlterStateChanged => 2,
            PilotingState::NavigateHomeStateChanged => 3,
            PilotingState::PositionChanged => 4,
            PilotingState::SpeedChanged => 5,
            PilotingState::AttitudeChanged => 6,
            PilotingState::AutoTakeOffModeChanged => 7,
            PilotingState::AltitudeChanged => 8,
            PilotingState::GpsLocationChanged => 9,
            PilotingState::LandingStateChanged => 10,
            PilotingState::AirspeedChanged => 11,
            PilotingState::MoveToChanged => 12,
            PilotingState::MotionState => 13,
            PilotingState::PilotedPOI => 14,
            PilotingState::ReturnHomeBatteryCapacity => 15,
            PilotingState::Unknown { piloting_state, .. } => piloting_state,
        }
    }

    pub fn code(&self) -> (r: u16)
        ensures
            r == self.spec_code(),
    {
        match self {
            PilotingState::FlatTrimChanged => 0,
            PilotingState::FlyingStateChanged => 1,
            PilotingState::AlterStateChanged => 2,
            PilotingState::NavigateHomeStateChanged => 3,
            PilotingState::PositionChanged => 4,
            PilotingState::SpeedChanged => 5,
            PilotingState::AttitudeChanged => 6,
            PilotingState::AutoTakeOffModeChanged => 7,
            PilotingState::AltitudeChanged => 8,
            PilotingState::GpsLocationChanged => 9,
            PilotingState::LandingStateChanged => 10,
            PilotingState::AirspeedChanged => 11,
            PilotingState::MoveToChanged => 12,
            PilotingState::MotionState => 13,
            PilotingState::PilotedPOI => 14,
            PilotingState::ReturnHomeBatteryCapacity => 15,
            PilotingState::Unknown { piloting_state, .. } => *piloting_state,
        }
    }
}

// ------------------- wire format -------------------
/// The mathematical shape of a piloting state report: the report with its
/// raw bytes abstracted to a sequence.
pub enum PilotingStateView {
    FlatTrimChanged,
    FlyingStateChanged,
    AlterStateChanged,
    NavigateHomeStateChanged,
    PositionChanged,
    SpeedChanged,
    AttitudeChanged,
    AutoTakeOffModeChanged,
    AltitudeChanged,
    GpsLocationChanged,
    LandingStateChanged,
    AirspeedChanged,
    MoveToChanged,
    MotionState,
    PilotedPOI,
    ReturnHomeBatteryCapacity,
    Unknown { piloting_state: u16, data: Seq<u8> },
}

impl View for PilotingState {
    type V = PilotingStateView;

    open spec fn view(&self) -> PilotingStateView {
        match self {
            PilotingState::FlatTrimChanged => PilotingStateView::FlatTrimChanged,
            PilotingState::FlyingStateChanged => PilotingStateView::FlyingStateChanged,
            PilotingState::AlterStateChanged => PilotingStateView::AlterStateChanged,
            PilotingState::NavigateHomeStateChanged => PilotingStateView::NavigateHomeStateChanged,
            PilotingState::PositionChanged => PilotingStateView::PositionChanged,
            PilotingState::SpeedChanged => PilotingStateView::SpeedChanged,
            PilotingState::AttitudeChanged => PilotingStateView::AttitudeChanged,
            PilotingState::AutoTakeOffModeChanged => PilotingStateView::AutoTakeOffModeChanged,
            PilotingState::AltitudeChanged => PilotingStateView::AltitudeChanged,
            PilotingState::GpsLocationChanged => PilotingStateView::GpsLocationChanged,
            PilotingState::LandingStateChanged => PilotingStateView::LandingStateChanged,
            PilotingState::AirspeedChanged => PilotingStateView::AirspeedChanged,
            PilotingState::MoveToChanged => PilotingStateView::MoveToChanged,
            PilotingState::MotionState => PilotingStateView::MotionState,
            PilotingState::PilotedPOI => PilotingStateView::PilotedPOI,
            PilotingState::ReturnHomeBatteryCapacity => PilotingStateView::ReturnHomeBatteryCapacity,
            PilotingState::Unknown { piloting_state, data } => PilotingStateView::Unknown {
                piloting_state: *piloting_state,
                data: data@,
            },
        }
    }
}

impl PilotingStateView {
    /// The wire discriminator of this report.
    pub open spec fn code(self) -> u16 {
        match self {
            PilotingStateView::FlatTrimChanged => 0,
            PilotingStateView::FlyingStateChanged => 1,
            PilotingStateView::AlterStateChanged => 2,
            PilotingStateView::NavigateHomeStateChanged => 3,
            PilotingStateView::PositionChanged => 4,
            PilotingStateView::SpeedChanged => 5,
            PilotingStateView::AttitudeChanged => 6,
            PilotingStateView::AutoTakeOffModeChanged => 7,
            PilotingStateView::AltitudeChanged => 8,
            PilotingStateView::GpsLocationChanged => 9,
            PilotingStateView::LandingStateChanged => 10,
            PilotingStateView::AirspeedChanged => 11,
            PilotingStateView::MoveToChanged => 12,
            PilotingStateView::MotionState => 13,
            PilotingStateView::PilotedPOI => 14,
            PilotingStateView::ReturnHomeBatteryCapacity => 15,
            PilotingStateView::Unknown { piloting_state, .. } => piloting_state,
        }
    }
}

/// Only the opaque report has an encoding: the named reports carry fields
/// the codec does not write yet.
pub open spec fn piloting_state_encodable(ps: PilotingStateView) -> bool {
    ps is Unknown
}

/// The wire bytes of a report: its two-byte discriminator, then its raw
/// payload.
pub open spec fn spec_piloting_state_bytes(ps: PilotingStateView) -> Seq<u8> {
    le16_bytes(ps.code()) + match ps {
        PilotingStateView::Unknown { data, .. } => data,
        _ => Seq::empty(),
    }
}

/// A report from the window: every discriminator decodes to the opaque
/// report carrying the rest of the window.
pub open spec fn spec_parse_piloting_state(s: Seq<u8>, pos: int, end: int) -> Result<
    (PilotingStateView, int),
    Error,
> {
    match spec_parse_u16(s, pos, end) {
        Err(e) => Err(e),
        Ok((code, p1)) => Ok(
            (
                PilotingStateView::Unknown { piloting_state: code, data: s.subrange(p1, end) },
                end,
            ),
        ),
    }
}

pub fn parse_piloting_state(buf: &Vec<u8>, pos: usize, end: usize) -> (r: Result<
    (PilotingState, usize),
    Error,
>)
    requires
        pos <= end && end <= buf@.len(),
    ensures
        match (r, spec_parse_piloting_state(buf@, pos as int, end as int)) {
            (Ok((ps, p)), Ok((psv, q))) => ps@ == psv && p == q,
            (Err(e), Err(d)) => e == d,
            _ => false,
        },
        r matches Ok(v) ==> pos < v.1 <= end,
{
    let (code, p1) = match parse_u16(buf, pos, end) {
        Ok(v) => v,
        Err(e) => {
            return Err(e);
        },
    };
    let data = copy_range(buf, p1, end);
    Ok((PilotingState::Unknown { piloting_state: code, data }, end))
}

pub fn encode_piloting_state(ps: &PilotingState) -> (r: Result<Vec<u8>, Error>)
    ensures
        r matches Ok(v) ==> piloting_state_encodable(ps@) && v@ == spec_piloting_state_bytes(ps@),
        r is Err <==> !piloting_state_encodable(ps@),
        r matches Err(e) ==> e == Error::Unsupported,
{
    match ps {
        PilotingState::Unknown { piloting_state, data } => {
            let mut out: Vec<u8> = Vec::new();
            push_u16(&mut out, *piloting_state);
            let mut d = data.clone();
            assert(d@ == data@);
            out.append(&mut d);
            assert(out@ =~= spec_piloting_state_bytes(ps@));
            Ok(out)
        },
        _ => Err(Error::Unsupported),
    }
}

/// Decoding the encoding of an opaque report gives it back and consumes
/// exactly its bytes.
pub proof fn lemma_piloting_state_round_trip(s: Seq<u8>, pos: int, end: int, ps: PilotingStateView)
    requires
        0 <= pos <= end <= s.len(),
        s.subrange(pos, end) == spec_piloting_state_bytes(ps),
        piloting_state_encodable(ps),
    ensures
        spec_parse_piloting_state(s, pos, end) == Ok::<(PilotingStateView, int), Error>((ps, end)),
{
    let data = match ps {
        PilotingStateView::Unknown { data, .. } => data,
        _ => Seq::<u8>::empty(),
    };
    lemma_subrange_split(s, pos, end, le16_bytes(ps.code()), data);
    lemma_le16_round_trip(ps.code());
    assert(s[pos + 0] == le16_bytes(ps.code())[0]);
    assert(s[pos + 1] == le16_bytes(ps.code())[1]);
    assert(s.subrange(pos + 2, end) == data);
}

/// Re-encoding any decoded report reproduces the bytes it consumed.
pub proof fn lemma_piloting_state_reencode(s: Seq<u8>, pos: int, end: int)
    requires
        0 <= pos <= end <= s.len(),
        spec_parse_piloting_state(s, pos, end) is Ok,
    ensures
        spec_piloting_state_bytes(spec_parse_piloting_state(s, pos, end)->Ok_0.0) == s.subrange(
            pos,
            end,
        ),
{
    let psv = spec_parse_piloting_state(s, pos, end)->Ok_0.0;
    lemma_le16_bytes_of_val(s[pos], s[pos + 1]);
    assert(psv.code() == le16_val(s[pos], s[pos + 1]));
    assert(spec_piloting_state_bytes(psv) =~= s.subrange(pos, end));
}

} // verus!
