//! The top level of the tagged-command hierarchy: one byte selects the
//! command family, the rest of the payload belongs to that family.
use vstd::prelude::*;

use crate::ardrone3::{
    ardrone3_encodable, ardrone3_wire_exact, encode_ardrone3, lemma_ardrone3_reencode,
    lemma_ardrone3_round_trip, parse_ardrone3, spec_ardrone3_bytes, spec_parse_ardrone3,
    ArDrone3View,
};
use crate::bytes::{copy_range, lemma_subrange_split, lemma_window_head, parse_u8, spec_parse_u8};
use crate::common::{
    class_encodable, class_wire_exact, encode_class, lemma_class_reencode, lemma_class_round_trip,
    parse_class, spec_class_bytes, spec_parse_class, ClassView,
};
use crate::frame::Error;
use crate::jumping_sumo;

verus! {

/// Command family of a frame payload (one byte on the wire).
#[derive(Debug, Clone, PartialEq, Eq)]
pub enum Feature {
    Common(Option<crate::common::Class>),
    ArDrone3(Option<crate::ardrone3::ArDrone3>),
    Minidrone,
    JumpingSumo(crate::jumping_sumo::Class),
    SkyController,
    PowerUp,
    Generic,
    FollowMe,
    Wifi,
    RC,
    DroneManager,
    Mapper,
    Debug,
    ControllerInfo,
    MapperMini,
    ThermalCam,
    Animation,
    SequoiaCam,
    /// A family byte outside the decoded subset, kept with its raw trailing
    /// bytes so that re-encoding reproduces them verbatim.
    Unknown { feature: u8, data: Vec<u8> },
}

impl Feature {
    /// The wire discriminator of this family.
    pub open spec fn spec_code(self) -> u8 {
        match self {
            Feature::Common(_) => 0,
            Feature::ArDrone3(_) => 1,
            Feature::Minidrone => 2,
            Feature::JumpingSumo(_) => 3,
            Feature::SkyController => 4,
            Feature::PowerUp => 8,
            Feature::Generic => 133,
            Feature::FollowMe => 134,
            Feature::Wifi => 135,
            Feature::RC => 136,
            Feature::DroneManager => 137,
            Feature::Mapper => 138,
            Feature::Debug => 139,
            Feature::ControllerInfo => 140,
            Feature::MapperMini => 141,
            Feature::ThermalCam => 142,
            Feature::Animation => 144,
            Feature::SequoiaCam => 147,
            Feature::Unknown { feature, .. } => feature,
        }
    }

    pub fn code(&self) -> (r: u8)
        ensures
            r == self.spec_code(),
    {
        match self {
            Feature::Common(_) => 0,
            Feature::ArDrone3(_) => 1,
            Feature::Minidrone => 2,
            Feature::JumpingSumo(_) => 3,
            Feature::SkyController => 4,
            Feature::PowerUp => 8,
            Feature::Generic => 133,
            Feature::FollowMe => 134,
            Feature::Wifi => 135,
            Feature::RC => 136,
            Feature::DroneManager => 137,
            Feature::Mapper => 138,
            Feature::Debug => 139,
            Feature::ControllerInfo => 140,
            Feature::MapperMini => 141,
            Feature::ThermalCam => 142,
            Feature::Animation => 144,
            Feature::SequoiaCam => 147,
            Feature::Unknown { feature, .. } => *feature,
        }
    }
}

// ------------------- wire format -------------------
/// The mathematical shape of a command family: the family with raw bytes
/// abstracted to sequences.
pub enum FeatureView {
    Common(Option<ClassView>),
    ArDrone3(Option<ArDrone3View>),
    Minidrone,
    JumpingSumo(jumping_sumo::Class),
    SkyController,
    PowerUp,
    Generic,
    FollowMe,
    Wifi,
    RC,
    DroneManager,
    Mapper,
    Debug,
    ControllerInfo,
    MapperMini,
    ThermalCam,
    Animation,
    SequoiaCam,
    Unknown { feature: u8, data: Seq<u8> },
}

impl View for Feature {
    type V = FeatureView;

    open spec fn view(&self) -> FeatureView {
        match self {
            Feature::Common(None) => FeatureView::Common(None),
            Feature::Common(Some(c)) => FeatureView::Common(Some(c@)),
            Feature::ArDrone3(None) => FeatureView::ArDrone3(None),
            Feature::ArDrone3(Some(a)) => FeatureView::ArDrone3(Some(a@)),
            Feature::Minidrone => FeatureView::Minidrone,
            Feature::JumpingSumo(c) => FeatureView::JumpingSumo(*c),
            Feature::SkyController => FeatureView::SkyController,
            Feature::PowerUp => FeatureView::PowerUp,
            Feature::Generic => FeatureView::Generic,
            Feature::FollowMe => FeatureView::FollowMe,
            Feature::Wifi => FeatureView::Wifi,
            Feature::RC => FeatureView::RC,
            Feature::DroneManager => FeatureView::DroneManager,
            Feature::Mapper => FeatureView::Mapper,
            Feature::Debug => FeatureView::Debug,
            Feature::ControllerInfo => FeatureView::ControllerInfo,
            Feature::MapperMini => FeatureView::MapperMini,
            Feature::ThermalCam => FeatureView::ThermalCam,
            Feature::Animation => FeatureView::Animation,
            Feature::SequoiaCam => FeatureView::SequoiaCam,
            Feature::Unknown { feature, data } => FeatureView::Unknown {
                feature: *feature,
                data: data@,
            },
        }
    }
}

impl FeatureView {
    /// The wire discriminator of this family.
    pub open spec fn code(self) -> u8 {
        match self {
            FeatureView::Common(_) => 0,
            FeatureView::ArDrone3(_) => 1,
            FeatureView::Minidrone => 2,
            FeatureView::JumpingSumo(_) => 3,
            FeatureView::SkyController => 4,
            FeatureView::PowerUp => 8,
            FeatureView::Generic => 133,
            FeatureView::FollowMe => 134,
            FeatureView::Wifi => 135,
            FeatureView::RC => 136,
            FeatureView::DroneManager => 137,
            FeatureView::Mapper => 138,
            FeatureView::Debug => 139,
            FeatureView::ControllerInfo => 140,
            FeatureView::MapperMini => 141,
            FeatureView::ThermalCam => 142,
            FeatureView::Animation => 144,
            FeatureView::SequoiaCam => 147,
            FeatureView::Unknown { feature, .. } => feature,
        }
    }
}

/// Which families have an encoding: the three with a modeled payload, empty
/// payloads of the first two, and the opaque family.
pub open spec fn feature_encodable(f: FeatureView) -> bool {
    match f {
        FeatureView::Common(None) => true,
        FeatureView::Common(Some(c)) => class_encodable(c),
        FeatureView::ArDrone3(None) => true,
        FeatureView::ArDrone3(Some(a)) => ardrone3_encodable(a),
        FeatureView::JumpingSumo(_) => true,
        FeatureView::Unknown { .. } => true,
        _ => false,
    }
}

/// The wire bytes of a family: its one-byte discriminator, then the payload
/// of its class.
pub open spec fn spec_feature_bytes(f: FeatureView) -> Seq<u8> {
    seq![f.code()] + match f {
        FeatureView::Common(Some(c)) => spec_class_bytes(c),
        FeatureView::ArDrone3(Some(a)) => spec_ardrone3_bytes(a),
        FeatureView::JumpingSumo(c) => jumping_sumo::spec_class_bytes(c),
        FeatureView::Unknown { data, .. } => data,
        _ => Seq::empty(),
    }
}

/// A command family from the window.  The Common, ArDrone3 and JumpingSumo
/// families are interpreted, the first two with an absent payload allowed;
/// every other family byte decodes to the opaque family carrying the rest of
/// the window.
pub open spec fn spec_parse_feature(s: Seq<u8>, pos: int, end: int) -> Result<
    (FeatureView, int),
    Error,
> {
    match spec_parse_u8(s, pos, end) {
        Err(e) => Err(e),
        Ok((code, p1)) => match code {
            0u8 => if p1 == end {
                Ok((FeatureView::Common(None), p1))
            } else {
                match spec_parse_class(s, p1, end) {
                    Err(e) => Err(e),
                    Ok((c, p2)) => Ok((FeatureView::Common(Some(c)), p2)),
                }
            },
            1u8 => if p1 == end {
                Ok((FeatureView::ArDrone3(None), p1))
            } else {
                match spec_parse_ardrone3(s, p1, end) {
                    Err(e) => Err(e),
                    Ok((a, p2)) => Ok((FeatureView::ArDrone3(Some(a)), p2)),
                }
            },
            3u8 => match jumping_sumo::spec_parse_class(s, p1, end) {
                Err(e) => Err(e),
                Ok((c, p2)) => Ok((FeatureView::JumpingSumo(c), p2)),
            },
            _ => Ok((FeatureView::Unknown { feature: code, data: s.subrange(p1, end) }, end)),
        },
    }
}

pub fn parse_feature(buf: &Vec<u8>, pos: usize, end: usize) -> (r: Result<
    (Feature, usize),
    Error,
>)
    requires
        pos <= end && end <= buf@.len(),
    ensures
        match (r, spec_parse_feature(buf@, pos as int, end as int)) {
            (Ok((f, p)), Ok((fv, q))) => f@ == fv && p == q,
            (Err(e), Err(d)) => e == d,
            _ => false,
        },
        r matches Ok(v) ==> pos < v.1 <= end,
{
    let (code, p1) = match parse_u8(buf, pos, end) {
        Ok(v) => v,
        Err(e) => {
            return Err(e);
        },
    };
    match code {
        0 => {
            if p1 == end {
                Ok((Feature::Common(None), p1))
            } else {
                match parse_class(buf, p1, end) {
                    Ok((c, p2)) => Ok((Feature::Common(Some(c)), p2)),
                    Err(e) => Err(e),
                }
            }
        },
        1 => {
            if p1 == end {
                Ok((Feature::ArDrone3(None), p1))
            } else {
                match parse_ardrone3(buf, p1, end) {
                    Ok((a, p2)) => Ok((Feature::ArDrone3(Some(a)), p2)),
                    Err(e) => Err(e),
                }
            }
        },
        3 => match jumping_sumo::parse_class(buf, p1, end) {
            Ok((c, p2)) => Ok((Feature::JumpingSumo(c), p2)),
            Err(e) => Err(e),
        },
        _ => {
            let data = copy_range(buf, p1, end);
            Ok((Feature::Unknown { feature: code, data }, end))
        },
    }
}

pub fn encode_feature(f: &Feature) -> (r: Result<Vec<u8>, Error>)
    ensures
        r matches Ok(v) ==> feature_encodable(f@) && v@ == spec_feature_bytes(f@),
        r is Err <==> !feature_encodable(f@),
        r matches Err(e) ==> e == Error::Unsupported,
{
    match f {
        Feature::Common(None) => {
            let mut out: Vec<u8> = Vec::new();
            out.push(f.code());
            assert(out@ =~= spec_feature_bytes(f@));
            Ok(out)
        },
        Feature::Common(Some(c)) => {
            let mut sb = match encode_class(c) {
                Ok(v) => v,
                Err(e) => {
                    return Err(e);
                },
            };
            let mut out: Vec<u8> = Vec::new();
            out.push(f.code());
            out.append(&mut sb);
            assert(out@ =~= spec_feature_bytes(f@));
            Ok(out)
        },
        Feature::ArDrone3(None) => {
            let mut out: Vec<u8> = Vec::new();
            out.push(f.code());
            assert(out@ =~= spec_feature_bytes(f@));
            Ok(out)
        },
        Feature::ArDrone3(Some(a)) => {
            let mut sb = match encode_ardrone3(a) {
                Ok(v) => v,
                Err(e) => {
                    return Err(e);
                },
            };
            let mut out: Vec<u8> = Vec::new();
            out.push(f.code());
            out.append(&mut sb);
            assert(out@ =~= spec_feature_bytes(f@));
            Ok(out)
        },
        Feature::JumpingSumo(c) => {
            let mut out: Vec<u8> = Vec::new();
            out.push(f.code());
            let mut sb = jumping_sumo::encode_class(c);
            out.append(&mut sb);
            assert(out@ =~= spec_feature_bytes(f@));
            Ok(out)
        },
        Feature::Unknown { feature, data } => {
            let mut out: Vec<u8> = Vec::new();
            out.push(*feature);
            let mut d = data.clone();
            assert(d@ == data@);
            out.append(&mut d);
            assert(out@ =~= spec_feature_bytes(f@));
            Ok(out)
        },
        _ => Err(Error::Unsupported),
    }
}

/// Whether decoding the encoding of a family gives back the very same
/// value.  An opaque family whose byte collides with an interpreted family
/// decodes as that family instead.
pub open spec fn feature_wire_exact(f: FeatureView) -> bool {
    match f {
        FeatureView::Common(None) => true,
        FeatureView::Common(Some(c)) => class_wire_exact(c),
        FeatureView::ArDrone3(None) => true,
        FeatureView::ArDrone3(Some(a)) => ardrone3_wire_exact(a),
        FeatureView::JumpingSumo(_) => true,
        FeatureView::Unknown { feature, .. } => feature != 0 && feature != 1 && feature != 3,
        _ => false,
    }
}

/// Decoding the encoding of a faithful family gives it back and consumes
/// exactly its bytes.
pub proof fn lemma_feature_round_trip(s: Seq<u8>, pos: int, end: int, f: FeatureView)
    requires
        0 <= pos <= end <= s.len(),
        s.subrange(pos, end) == spec_feature_bytes(f),
        feature_encodable(f),
        feature_wire_exact(f),
    ensures
        spec_parse_feature(s, pos, end) == Ok::<(FeatureView, int), Error>((f, end)),
{
    let payload = match f {
        FeatureView::Common(Some(c)) => spec_class_bytes(c),
        FeatureView::ArDrone3(Some(a)) => spec_ardrone3_bytes(a),
        FeatureView::JumpingSumo(c) => jumping_sumo::spec_class_bytes(c),
        FeatureView::Unknown { data, .. } => data,
        _ => Seq::<u8>::empty(),
    };
    lemma_subrange_split(s, pos, end, seq![f.code()], payload);
    assert(s[pos + 0] == seq![f.code()][0]);
    match f {
        FeatureView::Common(Some(c)) => {
            assert(payload.len() >= 1);
            lemma_class_round_trip(s, pos + 1, end, c);
        },
        FeatureView::ArDrone3(Some(a)) => {
            assert(payload.len() >= 1);
            lemma_ardrone3_round_trip(s, pos + 1, end, a);
        },
        FeatureView::JumpingSumo(c) => {
            jumping_sumo::lemma_class_round_trip(s, pos + 1, end, c);
        },
        FeatureView::Unknown { feature, data } => {
            assert(s.subrange(pos + 1, end) == data);
        },
        _ => {},
    }
}

/// The decoded families that re-encode to the bytes they consumed: empty
/// and opaque payloads, and interpreted payloads that end in an opaque
/// leaf.  A date or time command loses its text; a decoded piloting command
/// re-encodes exactly but may stop short of the window.
pub open spec fn feature_reencodes(f: FeatureView) -> bool {
    match f {
        FeatureView::Common(None) => true,
        FeatureView::Common(Some(c)) => c is Unknown,
        FeatureView::ArDrone3(None) => true,
        FeatureView::ArDrone3(Some(a)) => !(a is Piloting),
        FeatureView::Unknown { .. } => true,
        _ => false,
    }
}

/// Re-encoding a decoded family of those shapes reproduces the bytes it
/// consumed, which reach the end of the window.
pub proof fn lemma_feature_reencode(s: Seq<u8>, pos: int, end: int)
    requires
        0 <= pos <= end <= s.len(),
        spec_parse_feature(s, pos, end) is Ok,
        feature_reencodes(spec_parse_feature(s, pos, end)->Ok_0.0),
    ensures
        spec_parse_feature(s, pos, end)->Ok_0.1 == end,
        spec_feature_bytes(spec_parse_feature(s, pos, end)->Ok_0.0) == s.subrange(pos, end),
        feature_encodable(spec_parse_feature(s, pos, end)->Ok_0.0),
{
    let f = spec_parse_feature(s, pos, end)->Ok_0.0;
    lemma_window_head(s, pos, end);
    if s[pos] == 0 && pos + 1 < end {
        lemma_class_reencode(s, pos + 1, end);
        assert(spec_feature_bytes(f) =~= s.subrange(pos, end));
    } else if s[pos] == 1 && pos + 1 < end {
        lemma_ardrone3_reencode(s, pos + 1, end);
        assert(spec_feature_bytes(f) =~= s.subrange(pos, end));
    } else {
        assert(spec_feature_bytes(f) =~= s.subrange(pos, end));
    }
}

} // verus!
