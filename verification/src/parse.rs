//! Decoding whole datagrams, and the receive-loop policy: answer every ping
//! with a pong, acknowledge telemetry that requires it.
use vstd::prelude::*;

use crate::command::{Feature, FeatureView};
use crate::frame::{
    frame_encodable, frame_wire_exact, lemma_frame_round_trip, parse_frame_type, spec_frame_bytes,
    spec_parse_frame_type, BufferID, Error, Frame, FrameType, FrameTypeView, FrameView, Type,
};
use crate::sequence::SequenceTracker;

verus! {

/// The view of one decode result.
pub open spec fn result_view(x: Result<FrameType, Error>) -> Result<FrameTypeView, Error> {
    match x {
        Ok(ft) => Ok(ft@),
        Err(e) => Err(e),
    }
}

/// The views of a list of decode results.
pub open spec fn results_view(s: Seq<Result<FrameType, Error>>) -> Seq<
    Result<FrameTypeView, Error>,
> {
    s.map_values(|x: Result<FrameType, Error>| result_view(x))
}

/// The views of a list of frames.
pub open spec fn frames_view(s: Seq<Frame>) -> Seq<FrameView> {
    s.map_values(|f: Frame| f@)
}

/// All decode attempts on one datagram: repeatedly decode from the front,
/// advancing by each decoded frame's declared length, for at most three
/// attempts.  A failed attempt does not advance, so its error repeats until
/// the attempts run out; this bounds the work a corrupt length field can
/// cause.
pub open spec fn spec_parse_frames(s: Seq<u8>, pos: int, tries_left: nat) -> Seq<
    Result<FrameTypeView, Error>,
>
    decreases tries_left,
{
    if pos == s.len() || tries_left == 0 {
        Seq::empty()
    } else {
        match spec_parse_frame_type(s, pos, s.len() as int) {
            Ok((ft, c)) => seq![Ok::<FrameTypeView, Error>(ft)] + spec_parse_frames(
                s,
                c,
                (tries_left - 1) as nat,
            ),
            Err(e) => seq![Err::<FrameTypeView, Error>(e)] + spec_parse_frames(
                s,
                pos,
                (tries_left - 1) as nat,
            ),
        }
    }
}

/// Decodes every frame of a datagram, in order.
pub fn parse_message_frames(buf: &Vec<u8>) -> (r: Vec<Result<FrameType, Error>>)
    ensures
        results_view(r@) == spec_parse_frames(buf@, 0, 3),
{
    let mut out: Vec<Result<FrameType, Error>> = Vec::new();
    let mut pos: usize = 0;
    let mut tried: usize = 0;
    proof {
        assert(results_view(out@) =~= Seq::<Result<FrameTypeView, Error>>::empty());
        assert(results_view(out@) + spec_parse_frames(buf@, 0, 3) =~= spec_parse_frames(
            buf@,
            0,
            3,
        ));
    }
    while pos != buf.len() && tried < 3
        invariant
            pos <= buf@.len(),
            tried <= 3,
            results_view(out@) + spec_parse_frames(buf@, pos as int, (3 - tried) as nat)
                == spec_parse_frames(buf@, 0, 3),
        decreases 3 - tried,
    {
        let ghost prev = out@;
        let ghost tl = (3 - tried) as nat;
        match parse_frame_type(buf, pos, buf.len()) {
            Ok((ft, c)) => {
                proof {
                    assert(spec_parse_frames(buf@, pos as int, tl) == seq![
                        Ok::<FrameTypeView, Error>(ft@),
                    ] + spec_parse_frames(buf@, c as int, (tl - 1) as nat));
                }
                out.push(Ok(ft));
                proof {
                    assert(results_view(out@) =~= results_view(prev).push(
                        Ok::<FrameTypeView, Error>(ft@),
                    ));
                    assert(results_view(prev).push(Ok::<FrameTypeView, Error>(ft@))
                        + spec_parse_frames(buf@, c as int, (tl - 1) as nat) =~= results_view(prev)
                        + spec_parse_frames(buf@, pos as int, tl));
                }
                pos = c;
            },
            Err(e) => {
                let ghost ee = e;
                proof {
                    assert(spec_parse_frames(buf@, pos as int, tl) == seq![
                        Err::<FrameTypeView, Error>(ee),
                    ] + spec_parse_frames(buf@, pos as int, (tl - 1) as nat));
                }
                out.push(Err(e));
                proof {
                    assert(results_view(out@) =~= results_view(prev).push(
                        Err::<FrameTypeView, Error>(ee),
                    ));
                    assert(results_view(prev).push(Err::<FrameTypeView, Error>(ee))
                        + spec_parse_frames(buf@, pos as int, (tl - 1) as nat) =~= results_view(
                        prev,
                    ) + spec_parse_frames(buf@, pos as int, tl));
                }
            },
        }
        tried = tried + 1;
    }
    proof {
        assert(spec_parse_frames(buf@, pos as int, (3 - tried) as nat) =~= Seq::<
            Result<FrameTypeView, Error>,
        >::empty());
        assert(results_view(out@) + Seq::<Result<FrameTypeView, Error>>::empty() =~= results_view(
            out@,
        ));
    }
    out
}

/// The frame answering a ping: the same payload back on the pong channel,
/// with a fresh pong sequence number.
pub open spec fn spec_pong(f: FrameView, seq_id: u8) -> FrameView {
    FrameView {
        frame_type: Type::Data,
        buffer_id: BufferID::PONG,
        sequence_id: seq_id,
        feature: f.feature,
    }
}

/// The acknowledgement payload: telemetry carrying an ArDrone3 feature is
/// answered with an empty ArDrone3 feature, anything else with no payload.
pub open spec fn spec_ack_feature(o: Option<FeatureView>) -> Option<FeatureView> {
    match o {
        Some(FeatureView::ArDrone3(_)) => Some(FeatureView::ArDrone3(None)),
        _ => None,
    }
}

/// The frame acknowledging telemetry: an acknowledgement-kind frame on the
/// command-acknowledgement channel, copying the incoming sequence number.
pub open spec fn spec_ack(f: FrameView) -> FrameView {
    FrameView {
        frame_type: Type::Ack,
        buffer_id: BufferID::CDAck,
        sequence_id: f.sequence_id,
        feature: spec_ack_feature(f.feature),
    }
}

/// Whether a decode result is a ping, which consumes one pong sequence
/// number when answered.
pub open spec fn is_ping(x: Result<FrameTypeView, Error>) -> bool {
    x matches Ok(FrameTypeView::Known(f)) && f.buffer_id == BufferID::PING
}

/// How many pings a list of decode results holds.
pub open spec fn ping_count(rs: Seq<Result<FrameTypeView, Error>>) -> nat
    decreases rs.len(),
{
    if rs.len() == 0 {
        0
    } else {
        ping_count(rs.drop_last()) + if is_ping(rs.last()) {
            1nat
        } else {
            0nat
        }
    }
}

/// What one decode result provokes, `pongs` pong numbers having been issued
/// already: a pong for a ping, an acknowledgement for telemetry, nothing for
/// other channels, unknown frames and errors.
pub open spec fn spec_reaction(x: Result<FrameTypeView, Error>, pongs: nat) -> Seq<FrameView> {
    match x {
        Ok(FrameTypeView::Known(f)) => if f.buffer_id == BufferID::PING {
            seq![spec_pong(f, ((pongs + 1) % 256) as u8)]
        } else if f.buffer_id == BufferID::DCNavdata {
            seq![spec_ack(f)]
        } else {
            Seq::empty()
        },
        _ => Seq::empty(),
    }
}

/// All frames the receive loop sends in answer to a list of decode results,
/// in order, `pongs` pong numbers having been issued before.
pub open spec fn spec_reactions(rs: Seq<Result<FrameTypeView, Error>>, pongs: nat) -> Seq<
    FrameView,
>
    decreases rs.len(),
{
    if rs.len() == 0 {
        Seq::empty()
    } else {
        spec_reactions(rs.drop_last(), pongs) + spec_reaction(
            rs.last(),
            pongs + ping_count(rs.drop_last()),
        )
    }
}

/// Decodes a datagram and builds the answers the receive loop owes: one
/// pong per ping, carrying the ping's own payload, and one acknowledgement
/// per telemetry frame.  Decode failures provoke nothing and are skipped.
pub fn handle_bytes(tracker: &mut SequenceTracker, buf: &Vec<u8>) -> (out: Vec<Frame>)
    requires
        old(tracker).wf(),
    ensures
        final(tracker).wf(),
        frames_view(out@) == spec_reactions(
            spec_parse_frames(buf@, 0, 3),
            old(tracker).issued()[BufferID::PONG],
        ),
        final(tracker).issued()[BufferID::PONG] == old(tracker).issued()[BufferID::PONG]
            + ping_count(spec_parse_frames(buf@, 0, 3)),
        forall|id: BufferID|
            id != BufferID::PONG ==> final(tracker).issued()[id] == old(tracker).issued()[id],
{
    let mut results = parse_message_frames(buf);
    let ghost rs0 = results_view(results@);
    let ghost c0 = tracker.issued()[BufferID::PONG];
    let mut out: Vec<Frame> = Vec::new();
    let ghost mut i: int = 0;
    proof {
        assert(results_view(results@) =~= rs0.skip(0));
        assert(rs0.take(0) =~= Seq::<Result<FrameTypeView, Error>>::empty());
        assert(frames_view(out@) =~= spec_reactions(rs0.take(0), c0));
    }
    while results.len() > 0
        invariant
            tracker.wf(),
            0 <= i <= rs0.len(),
            results@.len() == rs0.len() - i,
            results_view(results@) == rs0.skip(i),
            frames_view(out@) == spec_reactions(rs0.take(i), c0),
            tracker.issued()[BufferID::PONG] == c0 + ping_count(rs0.take(i)),
            forall|id: BufferID|
                id != BufferID::PONG ==> tracker.issued()[id] == old(tracker).issued()[id],
        decreases results@.len(),
    {
        let ghost prev_out = out@;
        let ghost prev_rs = results@;
        let x = results.remove(0);
        proof {
            assert(results_view(prev_rs)[0] == result_view(prev_rs[0]));
            assert(rs0.skip(i)[0] == rs0[i]);
            assert(result_view(x) == rs0[i]);
            assert(results@ =~= prev_rs.skip(1));
            assert forall|j: int|
                0 <= j < results@.len() implies #[trigger] results_view(results@)[j] == rs0.skip(
                i + 1,
            )[j] by {
                assert(results_view(results@)[j] == result_view(results@[j]));
                assert(results@[j] == prev_rs[j + 1]);
                assert(results_view(prev_rs)[j + 1] == result_view(prev_rs[j + 1]));
                assert(rs0.skip(i)[j + 1] == rs0[i + j + 1]);
                assert(rs0.skip(i + 1)[j] == rs0[i + 1 + j]);
            }
            assert(results_view(results@) =~= rs0.skip(i + 1));
            assert(rs0.take(i + 1).drop_last() =~= rs0.take(i));
            assert(rs0.take(i + 1).last() == rs0[i]);
        }
        match x {
            Ok(FrameType::Known(f)) => {
                if f.buffer_id.code() == BufferID::PING.code() {
                    let s = tracker.next(BufferID::PONG);
                    let fr = Frame {
                        frame_type: Type::Data,
                        buffer_id: BufferID::PONG,
                        sequence_id: s,
                        feature: f.feature,
                    };
                    proof {
                        crate::frame::lemma_buffer_id_code_injective(f.buffer_id, BufferID::PING);
                        assert(fr@ == spec_pong(f@, s));
                    }
                    out.push(fr);
                    proof {
                        assert(frames_view(out@) =~= frames_view(prev_out).push(fr@));
                        assert(spec_reaction(rs0[i], c0 + ping_count(rs0.take(i))) =~= seq![fr@]);
                        assert(frames_view(prev_out).push(fr@) =~= frames_view(prev_out) + seq![
                            fr@,
                        ]);
                    }
                } else if f.buffer_id.code() == BufferID::DCNavdata.code() {
                    let ack_feature: Option<Feature> = match &f.feature {
                        Some(Feature::ArDrone3(_)) => Some(Feature::ArDrone3(None)),
                        _ => None,
                    };
                    let fr = Frame {
                        frame_type: Type::Ack,
                        buffer_id: BufferID::CDAck,
                        sequence_id: f.sequence_id,
                        feature: ack_feature,
                    };
                    proof {
                        crate::frame::lemma_buffer_id_code_injective(
                            f.buffer_id,
                            BufferID::DCNavdata,
                        );
                        assert(fr@ == spec_ack(f@));
                    }
                    out.push(fr);
                    proof {
                        assert(frames_view(out@) =~= frames_view(prev_out).push(fr@));
                        assert(spec_reaction(rs0[i], c0 + ping_count(rs0.take(i))) =~= seq![fr@]);
                        assert(frames_view(prev_out).push(fr@) =~= frames_view(prev_out) + seq![
                            fr@,
                        ]);
                    }
                } else {
                    proof {
                        assert(spec_reaction(rs0[i], c0 + ping_count(rs0.take(i))) =~= Seq::<
                            FrameView,
                        >::empty());
                        assert(frames_view(out@) + Seq::<FrameView>::empty() =~= frames_view(
                            out@,
                        ));
                    }
                }
            },
            _ => {
                proof {
                    assert(spec_reaction(rs0[i], c0 + ping_count(rs0.take(i))) =~= Seq::<
                        FrameView,
                    >::empty());
                    assert(frames_view(out@) + Seq::<FrameView>::empty() =~= frames_view(out@));
                }
            },
        }
        proof {
            i = i + 1;
        }
    }
    proof {
        assert(rs0.skip(i) =~= Seq::<Result<FrameTypeView, Error>>::empty());
        assert(i == rs0.len());
        assert(rs0.take(i) =~= rs0);
    }
    out
}

/// A single decoded ping provokes exactly one answer: a pong on the pong
/// channel carrying the identical payload.
pub proof fn lemma_ping_pong(x: FrameView, pongs: nat)
    requires
        x.buffer_id == BufferID::PING,
    ensures
        ({
            let rs = seq![Ok::<FrameTypeView, Error>(FrameTypeView::Known(x))];
            &&& spec_reactions(rs, pongs).len() == 1
            &&& spec_reactions(rs, pongs)[0] == spec_pong(x, ((pongs + 1) % 256) as u8)
            &&& spec_reactions(rs, pongs)[0].buffer_id == BufferID::PONG
            &&& spec_reactions(rs, pongs)[0].feature == x.feature
        }),
{
    let rs = seq![Ok::<FrameTypeView, Error>(FrameTypeView::Known(x))];
    reveal_with_fuel(spec_reactions, 2);
    reveal_with_fuel(ping_count, 2);
    assert(rs.drop_last() =~= Seq::<Result<FrameTypeView, Error>>::empty());
    assert(spec_reactions(rs, pongs) =~= spec_reaction(rs.last(), pongs));
}

/// A single decoded telemetry frame carrying an ArDrone3 feature provokes
/// exactly one answer: an acknowledgement-kind frame on the
/// command-acknowledgement channel with the same sequence number and an
/// empty ArDrone3 feature.
pub proof fn lemma_navdata_ack(x: FrameView, pongs: nat)
    requires
        x.buffer_id == BufferID::DCNavdata,
        x.feature matches Some(f) && f is ArDrone3,
    ensures
        ({
            let rs = seq![Ok::<FrameTypeView, Error>(FrameTypeView::Known(x))];
            &&& spec_reactions(rs, pongs).len() == 1
            &&& spec_reactions(rs, pongs)[0] == spec_ack(x)
            &&& spec_reactions(rs, pongs)[0].frame_type == Type::Ack
            &&& spec_reactions(rs, pongs)[0].buffer_id == BufferID::CDAck
            &&& spec_reactions(rs, pongs)[0].sequence_id == x.sequence_id
            &&& spec_reactions(rs, pongs)[0].feature == Some(FeatureView::ArDrone3(None))
        }),
{
    let rs = seq![Ok::<FrameTypeView, Error>(FrameTypeView::Known(x))];
    reveal_with_fuel(spec_reactions, 2);
    reveal_with_fuel(ping_count, 2);
    assert(rs.drop_last() =~= Seq::<Result<FrameTypeView, Error>>::empty());
    assert(spec_reactions(rs, pongs) =~= spec_reaction(rs.last(), pongs));
}

/// A datagram holding exactly the encoding of one faithful frame decodes to
/// exactly that frame.
pub proof fn lemma_single_frame_datagram(s: Seq<u8>, f: FrameView)
    requires
        s == spec_frame_bytes(f),
        frame_encodable(f),
        frame_wire_exact(f),
    ensures
        spec_parse_frames(s, 0, 3) == seq![Ok::<FrameTypeView, Error>(FrameTypeView::Known(f))],
{
    assert(s.subrange(0, s.len() as int) =~= s);
    lemma_frame_round_trip(s, 0, s.len() as int, f);
    reveal_with_fuel(spec_parse_frames, 2);
    assert(s.len() >= 7);
    assert(spec_parse_frames(s, 0, 3) =~= seq![
        Ok::<FrameTypeView, Error>(FrameTypeView::Known(f)),
    ]);
}

/// Feeding the receive loop a datagram holding one encoded ping produces
/// exactly one outbound frame: a pong carrying the identical payload.
pub proof fn lemma_receive_ping_sends_pong(s: Seq<u8>, f: FrameView, pongs: nat)
    requires
        s == spec_frame_bytes(f),
        frame_encodable(f),
        frame_wire_exact(f),
        f.buffer_id == BufferID::PING,
    ensures
        ({
            let out = spec_reactions(spec_parse_frames(s, 0, 3), pongs);
            &&& out.len() == 1
            &&& out[0].frame_type == Type::Data
            &&& out[0].buffer_id == BufferID::PONG
            &&& out[0].sequence_id == ((pongs + 1) % 256) as u8
            &&& out[0].feature == f.feature
        }),
{
    lemma_single_frame_datagram(s, f);
    lemma_ping_pong(f, pongs);
}

/// Feeding the receive loop a datagram holding one encoded telemetry frame
/// with an ArDrone3 feature produces exactly one outbound frame: an
/// acknowledgement with the same sequence number and an empty ArDrone3
/// feature.
pub proof fn lemma_receive_navdata_sends_ack(s: Seq<u8>, f: FrameView, pongs: nat)
    requires
        s == spec_frame_bytes(f),
        frame_encodable(f),
        frame_wire_exact(f),
        f.buffer_id == BufferID::DCNavdata,
        f.feature matches Some(x) && x is ArDrone3,
    ensures
        ({
            let out = spec_reactions(spec_parse_frames(s, 0, 3), pongs);
            &&& out.len() == 1
            &&& out[0].frame_type == Type::Ack
            &&& out[0].buffer_id == BufferID::CDAck
            &&& out[0].sequence_id == f.sequence_id
            &&& out[0].feature == Some(FeatureView::ArDrone3(None))
        }),
{
    lemma_single_frame_datagram(s, f);
    lemma_navdata_ack(f, pongs);
}

} // verus!
