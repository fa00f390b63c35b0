//! Reassembly of fragmented logical packets.
//!
//! The inbound stream delivers one fragment at a time. Fragments whose
//! packet-boundary flag is set continue the current chain; a fragment with
//! the flag cleared ends the chain and yields the complete logical packet.
//! There is at most one chain in progress at a time.

use vstd::prelude::*;
use crate::frame::{
    FrameError, parse_frame, spec_frame_error, spec_frame_ok, spec_header, spec_payload,
};

verus! {

/// A fully reassembled message: the header tag of its chain and the
/// concatenation of its fragments' payloads.
#[derive(Clone, Debug, PartialEq, Eq)]
pub struct LogicalPacket {
    /// Message type shared by every fragment of the chain.
    pub mt: u8,
    /// Group identifier taken from the chain's first fragment.
    pub gid: u8,
    /// Opcode identifier taken from the chain's first fragment.
    pub oid: u8,
    /// Concatenated payloads of the chain's fragments, in arrival order.
    pub payload: Vec<u8>,
}

impl LogicalPacket {
    /// The packet as the specifications see it.
    pub open spec fn model(self) -> ChainState {
        ChainState { mt: self.mt, gid: self.gid, oid: self.oid, payload: self.payload@ }
    }
}

/// Ghost description of a reassembly chain: the tag of its first fragment
/// and the payload bytes accumulated so far.
pub struct ChainState {
    /// Message type shared by the chain's fragments.
    pub mt: u8,
    /// Group identifier of the chain's first fragment.
    pub gid: u8,
    /// Opcode identifier of the chain's first fragment.
    pub oid: u8,
    /// Payload bytes accumulated so far.
    pub payload: Seq<u8>,
}

/// What one feed did, as the specifications see it.
pub enum FeedStep {
    /// The fragment was rejected and the chain, if any, was left as it was.
    Rejected { err: FrameError },
    /// The fragment extended the chain; more fragments are expected.
    Accumulated,
    /// The fragment ended the chain, completing this packet.
    Completed { packet: ChainState },
}

/// The chain left in progress after feeding one fragment to a reassembler
/// whose chain was `st`.
pub open spec fn spec_feed_state(st: Option<ChainState>, data: Seq<u8>) -> Option<ChainState> {
    if !spec_frame_ok(data) {
        st
    } else {
        let h = spec_header(data);
        match st {
            Some(c) => {
                if c.mt != h.mt {
                    st
                } else if h.pbf {
                    Some(ChainState { payload: c.payload + spec_payload(data), ..c })
                } else {
                    None
                }
            },
            None => {
                if h.pbf {
                    Some(ChainState { mt: h.mt, gid: h.gid, oid: h.oid,
                        payload: spec_payload(data) })
                } else {
                    None
                }
            },
        }
    }
}

/// The outcome of feeding one fragment to a reassembler whose chain was `st`.
pub open spec fn spec_feed_step(st: Option<ChainState>, data: Seq<u8>) -> FeedStep {
    if !spec_frame_ok(data) {
        FeedStep::Rejected { err: spec_frame_error(data) }
    } else {
        let h = spec_header(data);
        match st {
            Some(c) => {
                if c.mt != h.mt {
                    FeedStep::Rejected { err: FrameError::TagMismatch }
                } else if h.pbf {
                    FeedStep::Accumulated
                } else {
                    FeedStep::Completed {
                        packet: ChainState { payload: c.payload + spec_payload(data), ..c },
                    }
                }
            },
            None => {
                if h.pbf {
                    FeedStep::Accumulated
                } else {
                    FeedStep::Completed {
                        packet: ChainState { mt: h.mt, gid: h.gid, oid: h.oid,
                            payload: spec_payload(data) },
                    }
                }
            },
        }
    }
}

/// Accumulates successive fragments and yields each completed logical packet.
pub struct Reassembler {
    active: bool,
    mt: u8,
    gid: u8,
    oid: u8,
    buf: Vec<u8>,
}

impl Reassembler {
    /// The chain in progress, if any.
    pub closed spec fn chain(self) -> Option<ChainState> {
        if self.active {
            Some(ChainState { mt: self.mt, gid: self.gid, oid: self.oid, payload: self.buf@ })
        } else {
            None
        }
    }

    /// The accumulation buffer is empty whenever no chain is in progress.
    pub closed spec fn wf(self) -> bool {
        !self.active ==> self.buf@.len() == 0
    }

    /// A reassembler with no chain in progress.
    pub fn new() -> (r: Reassembler)
        ensures
            r.chain() is None,
            r.wf(),
    {
        Reassembler { active: false, mt: 0, gid: 0, oid: 0, buf: Vec::new() }
    }

    /// Feeds one raw fragment.
    ///
    /// A malformed fragment, or one whose message type differs from the chain
    /// in progress, is rejected and leaves the chain untouched. A fragment
    /// with the packet-boundary flag set starts or extends the chain and
    /// yields nothing; one with the flag cleared appends its payload, yields
    /// the completed packet, and leaves the reassembler idle. A lone fragment
    /// with the flag cleared and an empty payload is a complete empty packet.
    pub fn feed(&mut self, data: &Vec<u8>) -> (r: Result<Option<LogicalPacket>, FrameError>)
        requires
            old(self).wf(),
        ensures
            final(self).wf(),
            final(self).chain() == spec_feed_state(old(self).chain(), data@),
            match spec_feed_step(old(self).chain(), data@) {
                FeedStep::Rejected { err } => r == Err::<Option<LogicalPacket>, FrameError>(err),
                FeedStep::Accumulated => r == Ok::<Option<LogicalPacket>, FrameError>(None),
                FeedStep::Completed { packet } => (r matches Ok(Some(p)) && p.model() == packet),
            },
    {
        let (h, payload) = match parse_frame(data) {
            Ok(hp) => hp,
            Err(e) => {
                return Err(e);
            },
        };
        if self.active {
            if self.mt != h.mt {
                return Err(FrameError::TagMismatch);
            }
        } else {
            self.mt = h.mt;
            self.gid = h.gid;
            self.oid = h.oid;
            self.active = true;
        }
        append_bytes(&mut self.buf, &payload);
        if h.pbf {
            Ok(None)
        } else {
            let mut done: Vec<u8> = Vec::new();
            std::mem::swap(&mut done, &mut self.buf);
            self.active = false;
            Ok(Some(LogicalPacket { mt: self.mt, gid: self.gid, oid: self.oid, payload: done }))
        }
    }
}

/// The chain left after feeding a whole sequence of fragments, in order.
pub open spec fn spec_feed_seq(st: Option<ChainState>, frags: Seq<Seq<u8>>) -> Option<ChainState>
    decreases frags.len(),
{
    if frags.len() == 0 {
        st
    } else {
        spec_feed_seq(spec_feed_state(st, frags[0]), frags.skip(1))
    }
}

/// The concatenation of the fragments' payloads, in order.
pub open spec fn spec_chain_payload(frags: Seq<Seq<u8>>) -> Seq<u8>
    decreases frags.len(),
{
    if frags.len() == 0 {
        Seq::<u8>::empty()
    } else {
        spec_payload(frags[0]) + spec_chain_payload(frags.skip(1))
    }
}

/// The fragments form exactly one continuation chain of message type `mt`:
/// each is well formed and carries `mt`, every fragment but the last has the
/// packet-boundary flag set, and the last has it cleared.
pub open spec fn spec_single_chain(frags: Seq<Seq<u8>>, mt: u8) -> bool {
    &&& frags.len() > 0
    &&& forall|i: int| 0 <= i < frags.len() ==> spec_frame_ok(#[trigger] frags[i])
    &&& forall|i: int| 0 <= i < frags.len() ==> spec_header(#[trigger] frags[i]).mt == mt
    &&& forall|i: int|
        0 <= i < frags.len() ==> (spec_header(#[trigger] frags[i]).pbf <==> i < frags.len() - 1)
}

/// Feeding one chain that continues the accumulation `st`: every feed but
/// the last accumulates silently, and the last completes a packet carrying
/// `st`'s tag and `st`'s payload followed by the fragments' payloads.
proof fn lemma_chain_continues(st: ChainState, frags: Seq<Seq<u8>>)
    requires
        frags.len() > 0,
        forall|i: int| 0 <= i < frags.len() ==> spec_frame_ok(#[trigger] frags[i]),
        forall|i: int| 0 <= i < frags.len() ==> spec_header(#[trigger] frags[i]).mt == st.mt,
        forall|i: int|
            0 <= i < frags.len() ==> (spec_header(#[trigger] frags[i]).pbf <==> i < frags.len()
                - 1),
    ensures
        forall|i: int|
            0 <= i < frags.len() - 1 ==> spec_feed_step(
                spec_feed_seq(Some(st), frags.take(i)),
                #[trigger] frags[i],
            ) is Accumulated,
        spec_feed_step(spec_feed_seq(Some(st), frags.take(frags.len() - 1)),
            frags[frags.len() - 1]) == (FeedStep::Completed {
            packet: ChainState { payload: st.payload + spec_chain_payload(frags), ..st },
        }),
    decreases frags.len(),
{
    assert(frags.take(0) =~= Seq::<Seq<u8>>::empty());
    if frags.len() == 1 {
        assert(spec_chain_payload(frags.skip(1)) == Seq::<u8>::empty());
        assert(st.payload + spec_chain_payload(frags) =~= st.payload + spec_payload(frags[0]));
    } else {
        let st1 = ChainState { payload: st.payload + spec_payload(frags[0]), ..st };
        let rest = frags.skip(1);
        assert(spec_feed_state(Some(st), frags[0]) == Some(st1));
        assert forall|j: int| 0 <= j < rest.len() implies spec_frame_ok(#[trigger] rest[j])
            && spec_header(rest[j]).mt == st1.mt && (spec_header(rest[j]).pbf <==> j < rest.len()
            - 1) by {
            assert(rest[j] == frags[j + 1]);
        }
        lemma_chain_continues(st1, rest);
        assert forall|i: int|
            1 <= i < frags.len() implies spec_feed_seq(Some(st), frags.take(i)) == spec_feed_seq(
            Some(st1),
            rest.take(i - 1),
        ) by {
            let t = frags.take(i);
            assert(t.len() == i);
            assert(t[0] == frags[0]);
            assert(t.skip(1) =~= rest.take(i - 1));
            assert(spec_feed_seq(Some(st), t) == spec_feed_seq(spec_feed_state(Some(st), t[0]),
                t.skip(1)));
        }
        assert forall|i: int|
            0 <= i < frags.len() - 1 implies spec_feed_step(
            spec_feed_seq(Some(st), frags.take(i)),
            #[trigger] frags[i],
        ) is Accumulated by {
            if i == 0 {
                assert(spec_feed_seq(Some(st), frags.take(0)) == Some(st));
            } else {
                assert(frags[i] == rest[i - 1]);
                assert(spec_feed_step(spec_feed_seq(Some(st1), rest.take(i - 1)), rest[i - 1])
                    is Accumulated);
            }
        }
        assert(frags[frags.len() - 1] == rest[rest.len() - 1]);
        assert(st1.payload + spec_chain_payload(rest) =~= st.payload + spec_chain_payload(frags));
    }
}

/// A lone fragment with the packet-boundary flag cleared and an empty
/// payload is a complete packet of its own: fed to an idle reassembler it
/// completes a zero-length packet tagged like its header, and the
/// reassembler stays idle.
pub proof fn lemma_empty_final_fragment(data: Seq<u8>)
    requires
        spec_frame_ok(data),
        spec_payload(data).len() == 0,
        !spec_header(data).pbf,
    ensures
        spec_feed_step(None, data) == (FeedStep::Completed {
            packet: ChainState {
                mt: spec_header(data).mt,
                gid: spec_header(data).gid,
                oid: spec_header(data).oid,
                payload: Seq::<u8>::empty(),
            },
        }),
        spec_feed_state(None, data) is None,
{
    assert(spec_payload(data) =~= Seq::<u8>::empty());
}

/// The reassembly law for one whole chain. For any sequence of fragments
/// whose continuation flags form exactly one chain ending in a cleared
/// flag, feeding them in order from an idle reassembler accumulates
/// silently at every fragment but the last, and the last feed completes a
/// packet tagged like the chain's first fragment whose payload is the
/// concatenation of all the fragments' payloads, in order.
pub proof fn lemma_single_chain_reassembly(frags: Seq<Seq<u8>>, mt: u8)
    requires
        spec_single_chain(frags, mt),
    ensures
        forall|i: int|
            0 <= i < frags.len() - 1 ==> spec_feed_step(
                spec_feed_seq(None, frags.take(i)),
                #[trigger] frags[i],
            ) is Accumulated,
        spec_feed_step(spec_feed_seq(None, frags.take(frags.len() - 1)), frags[frags.len() - 1])
            == (FeedStep::Completed {
            packet: ChainState {
                mt,
                gid: spec_header(frags[0]).gid,
                oid: spec_header(frags[0]).oid,
                payload: spec_chain_payload(frags),
            },
        }),
{
    let h0 = spec_header(frags[0]);
    assert(frags.take(0) =~= Seq::<Seq<u8>>::empty());
    if frags.len() == 1 {
        assert(spec_chain_payload(frags.skip(1)) == Seq::<u8>::empty());
        assert(spec_chain_payload(frags) =~= spec_payload(frags[0]));
    } else {
        let st1 = ChainState { mt, gid: h0.gid, oid: h0.oid, payload: spec_payload(frags[0]) };
        let rest = frags.skip(1);
        assert(spec_feed_state(None, frags[0]) == Some(st1));
        assert forall|j: int| 0 <= j < rest.len() implies spec_frame_ok(#[trigger] rest[j])
            && spec_header(rest[j]).mt == st1.mt && (spec_header(rest[j]).pbf <==> j < rest.len()
            - 1) by {
            assert(rest[j] == frags[j + 1]);
        }
        lemma_chain_continues(st1, rest);
        assert forall|i: int|
            1 <= i < frags.len() implies spec_feed_seq(None, frags.take(i)) == spec_feed_seq(
            Some(st1),
            rest.take(i - 1),
        ) by {
            let t = frags.take(i);
            assert(t.len() == i);
            assert(t[0] == frags[0]);
            assert(t.skip(1) =~= rest.take(i - 1));
            assert(spec_feed_seq(None, t) == spec_feed_seq(spec_feed_state(None, t[0]),
                t.skip(1)));
        }
        assert forall|i: int|
            0 <= i < frags.len() - 1 implies spec_feed_step(
            spec_feed_seq(None, frags.take(i)),
            #[trigger] frags[i],
        ) is Accumulated by {
            if i == 0 {
                assert(spec_feed_seq(None, frags.take(0)) == None::<ChainState>);
            } else {
                assert(frags[i] == rest[i - 1]);
                assert(spec_feed_step(spec_feed_seq(Some(st1), rest.take(i - 1)), rest[i - 1])
                    is Accumulated);
            }
        }
        assert(frags[frags.len() - 1] == rest[rest.len() - 1]);
        assert(st1.payload + spec_chain_payload(rest) =~= spec_chain_payload(frags));
    }
}

/// A fresh vector holding the same bytes as `src`.
pub fn copy_bytes(src: &Vec<u8>) -> (r: Vec<u8>)
    ensures
        r@ == src@,
{
    let mut r: Vec<u8> = Vec::new();
    append_bytes(&mut r, src);
    proof {
        assert(r@ =~= src@);
    }
    r
}

/// Appends every byte of `src` to `dst`, in order.
pub fn append_bytes(dst: &mut Vec<u8>, src: &Vec<u8>)
    ensures
        final(dst)@ == old(dst)@ + src@,
{
    let ghost dst0 = dst@;
    let mut i: usize = 0;
    proof {
        assert(dst@ =~= dst0 + src@.subrange(0, 0));
    }
    while i < src.len()
        invariant
            i <= src@.len(),
            dst@ == dst0 + src@.subrange(0, i as int),
        decreases src@.len() - i,
    {
        dst.push(src[i]);
        i = i + 1;
        proof {
            assert(dst@ =~= dst0 + src@.subrange(0, i as int));
        }
    }
    proof {
        assert(dst@ =~= dst0 + src@);
    }
}

} // verus!
