//! Client-side codec and session logic for a drone control protocol:
//! length-prefixed binary frames carrying hierarchically tagged commands,
//! per-channel sequence numbers, a TCP/JSON handshake, and the ping and
//! acknowledgement policy of the receive loop.
use vstd::prelude::*;
use vstd::arithmetic::power2::{
    lemma2_to64, lemma_pow2_pos, lemma_pow2_strictly_increases, lemma_pow2_unfold, pow2,
};

pub mod ardrone3;
pub mod bytes;
pub mod command;
pub mod common;
pub mod frame;
pub mod handshake;
pub mod jumping_sumo;
pub mod parse;
pub mod sequence;

pub use frame::{BufferID, Error, Frame, FrameType, Param, Type, UnknownFrame};

use command::{Feature, FeatureView};
use common::{Class, ClassView, Common, DateTime};
use frame::FrameView;
use sequence::SequenceTracker;

verus! {

/// TCP port on the vehicle where the handshake is performed.
pub const INIT_PORT: u16 = 44444;

/// Local UDP port on which telemetry from the vehicle is received.
pub const LISTEN_PORT: u16 = 43210;

/// The two frames that communicate a date and time to the vehicle: the date
/// first, then the time, with consecutive sequence numbers on the
/// acknowledged command channel.
pub fn datetime_frames(tracker: &mut SequenceTracker, d: DateTime) -> (r: (Frame, Frame))
    requires
        old(tracker).wf(),
    ensures
        final(tracker).wf(),
        r.0@ == (FrameView {
            frame_type: Type::DataWithAck,
            buffer_id: BufferID::CDAck,
            sequence_id: ((old(tracker).issued()[BufferID::CDAck] + 1) % 256) as u8,
            feature: Some(FeatureView::Common(Some(ClassView::Common(Common::CurrentDate(d))))),
        }),
        r.1@ == (FrameView {
            frame_type: Type::DataWithAck,
            buffer_id: BufferID::CDAck,
            sequence_id: ((old(tracker).issued()[BufferID::CDAck] + 2) % 256) as u8,
            feature: Some(FeatureView::Common(Some(ClassView::Common(Common::CurrentTime(d))))),
        }),
        final(tracker).issued()[BufferID::CDAck] == old(tracker).issued()[BufferID::CDAck] + 2,
        forall|id: BufferID|
            id != BufferID::CDAck ==> final(tracker).issued()[id] == old(tracker).issued()[id],
{
    let s1 = tracker.next(BufferID::CDAck);
    let date_frame = Frame {
        frame_type: Type::DataWithAck,
        buffer_id: BufferID::CDAck,
        sequence_id: s1,
        feature: Some(Feature::Common(Some(Class::Common(Common::CurrentDate(d))))),
    };
    let s2 = tracker.next(BufferID::CDAck);
    let time_frame = Frame {
        frame_type: Type::DataWithAck,
        buffer_id: BufferID::CDAck,
        sequence_id: s2,
        feature: Some(Feature::Common(Some(Class::Common(Common::CurrentTime(d))))),
    };
    (date_frame, time_frame)
}

/// Whether the IPv4 network `net/prefix` contains `addr`: the two agree on
/// the high `prefix` bits.
pub open spec fn spec_net_contains(net: u32, prefix: u8, addr: u32) -> bool
    recommends
        prefix <= 32,
{
    net as int / pow2((32 - prefix) as nat) as int == addr as int / pow2(
        (32 - prefix) as nat,
    ) as int
}

fn pow2_u64(k: u8) -> (r: u64)
    requires
        k <= 32,
    ensures
        r == pow2(k as nat),
{
    let mut r: u64 = 1;
    let mut i: u8 = 0;
    proof {
        lemma2_to64();
    }
    while i < k
        invariant
            i <= k,
            k <= 32,
            r == pow2(i as nat),
        decreases k - i,
    {
        proof {
            lemma2_to64();
            lemma_pow2_unfold((i + 1) as nat);
            if i + 1 < 32 {
                lemma_pow2_strictly_increases((i + 1) as nat, 32nat);
            }
        }
        r = r * 2;
        i = i + 1;
    }
    r
}

pub fn net_contains(net: u32, prefix: u8, addr: u32) -> (r: bool)
    requires
        prefix <= 32,
    ensures
        r == spec_net_contains(net, prefix, addr),
{
    let d = pow2_u64(32 - prefix);
    proof {
        lemma_pow2_pos((32 - prefix) as nat);
    }
    net as u64 / d == addr as u64 / d
}

/// Whether a candidate network, given as address and prefix length,
/// contains the target address.
pub open spec fn candidate_matches(c: (u32, u8), target: u32) -> bool {
    spec_net_contains(c.0, c.1, target)
}

/// The address of the first candidate network that contains the target:
/// the rule by which the local interface on the vehicle's subnet is picked.
pub fn select_local_ip(candidates: &Vec<(u32, u8)>, target: u32) -> (r: Option<u32>)
    requires
        forall|j: int| 0 <= j < candidates@.len() ==> (#[trigger] candidates@[j]).1 <= 32,
    ensures
        (r is None) <==> (forall|j: int|
            0 <= j < candidates@.len() ==> !candidate_matches(#[trigger] candidates@[j], target)),
        r matches Some(ip) ==> exists|j: int|
            0 <= j < candidates@.len() && candidate_matches(#[trigger] candidates@[j], target)
                && candidates@[j].0 == ip && (forall|k: int|
                0 <= k < j ==> !candidate_matches(#[trigger] candidates@[k], target)),
{
    let mut i: usize = 0;
    while i < candidates.len()
        invariant
            i <= candidates@.len(),
            forall|j: int| 0 <= j < candidates@.len() ==> (#[trigger] candidates@[j]).1 <= 32,
            forall|k: int| 0 <= k < i ==> !candidate_matches(#[trigger] candidates@[k], target),
        decreases candidates@.len() - i,
    {
        let c = candidates[i];
        if net_contains(c.0, c.1, target) {
            proof {
                let j: int = i as int;
                assert(0 <= j < candidates@.len());
                assert(candidate_matches(candidates@[j], target));
                assert(candidates@[j].0 == c.0);
            }
            return Some(c.0);
        }
        i = i + 1;
    }
    None
}

} // verus!
