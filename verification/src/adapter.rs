//! The hardware session adapter.
//!
//! The adapter owns the open/close/initialize/send lifecycle of the
//! hardware link and fragments outgoing commands to the transport's
//! maximum frame size. The transport itself is an outside collaborator:
//! the shell performs each call and hands the outcome back, and the
//! decisions — what to send, how to fragment it, what each outcome means,
//! which state the session is in — are all made and proved here.

use vstd::prelude::*;
use crate::frame::{
    MAX_PAYLOAD_LEN, MT_COMMAND, build_frame, lemma_build_frame_parses, spec_build_frame,
    spec_frame_ok, spec_header, spec_payload,
};
use crate::logger::{LogEntry, LogEntryKind, LogEntryModel, UciLogMode, UciLogger};
use crate::reassembler::{
    ChainState, FeedStep, lemma_single_chain_reassembly, spec_chain_payload, spec_feed_seq,
    spec_feed_step, spec_single_chain,
};

verus! {

/// Status code the hardware reports for an accepted operation.
pub const STATUS_OK: i32 = 0;

/// Where the session stands in its lifecycle.
#[derive(Clone, Copy, Debug, PartialEq, Eq, Structural)]
pub enum AdapterState {
    /// No hardware link yet.
    Uninitialized,
    /// The link is open.
    Opened,
    /// The hardware accepted core initialization.
    CoreInitialized,
    /// The hardware accepted a session initialization.
    SessionInitialized,
    /// The link was released.
    Closed,
}

/// Why a lifecycle operation failed.
#[derive(Clone, Copy, Debug, PartialEq, Eq, Structural)]
pub enum AdapterError {
    /// The hardware capability could not be acquired.
    ServiceUnavailable,
    /// The hardware refused an initialization, with its status code.
    HardwareRejected { status: i32 },
    /// A fragment send failed at the transport.
    TransportError,
}

/// The payload split into fragments' payloads: chunks of at most the
/// maximum frame payload, in order. An empty payload is one empty chunk.
pub open spec fn spec_chunks(payload: Seq<u8>) -> Seq<Seq<u8>>
    decreases payload.len(),
{
    if payload.len() <= MAX_PAYLOAD_LEN {
        seq![payload]
    } else {
        seq![payload.take(MAX_PAYLOAD_LEN as int)] + spec_chunks(
            payload.skip(MAX_PAYLOAD_LEN as int),
        )
    }
}

/// The fragments a packet leaves the adapter as: one frame per chunk, the
/// packet-boundary flag set on every frame but the last.
pub open spec fn spec_fragment_frames(mt: u8, gid: u8, oid: u8, payload: Seq<u8>) -> Seq<
    Seq<u8>,
> {
    let chunks = spec_chunks(payload);
    chunks.map(|i: int, c: Seq<u8>| spec_build_frame(mt, i < chunks.len() - 1, gid, oid, c))
}

/// A payload no larger than one frame leaves as a single final frame.
proof fn lemma_fragment_frames_single(mt: u8, gid: u8, oid: u8, payload: Seq<u8>)
    requires
        payload.len() <= MAX_PAYLOAD_LEN,
    ensures
        spec_fragment_frames(mt, gid, oid, payload) =~= seq![
            spec_build_frame(mt, false, gid, oid, payload),
        ],
{
    assert(spec_chunks(payload) == seq![payload]);
}

/// A payload larger than one frame leaves as one full continuation frame
/// followed by the fragments of the rest.
proof fn lemma_fragment_frames_unfold(mt: u8, gid: u8, oid: u8, payload: Seq<u8>)
    requires
        payload.len() > MAX_PAYLOAD_LEN,
    ensures
        spec_fragment_frames(mt, gid, oid, payload) =~= seq![
            spec_build_frame(mt, true, gid, oid, payload.take(MAX_PAYLOAD_LEN as int)),
        ] + spec_fragment_frames(mt, gid, oid, payload.skip(MAX_PAYLOAD_LEN as int)),
{
    let chunks = spec_chunks(payload);
    let rest = payload.skip(MAX_PAYLOAD_LEN as int);
    let rest_chunks = spec_chunks(rest);
    assert(chunks == seq![payload.take(MAX_PAYLOAD_LEN as int)] + rest_chunks);
    assert(rest_chunks.len() >= 1) by {
        if rest.len() <= MAX_PAYLOAD_LEN {
            assert(rest_chunks == seq![rest]);
        }
    }
    let lhs = spec_fragment_frames(mt, gid, oid, payload);
    let rhs = seq![spec_build_frame(mt, true, gid, oid, payload.take(MAX_PAYLOAD_LEN as int))]
        + spec_fragment_frames(mt, gid, oid, rest);
    assert forall|i: int| 0 <= i < lhs.len() implies lhs[i] == rhs[i] by {
        if i > 0 {
            assert(chunks[i] == rest_chunks[i - 1]);
            assert((i < chunks.len() - 1) <==> (i - 1 < rest_chunks.len() - 1));
        }
    }
    assert(lhs =~= rhs);
}

/// The fragments of a packet form exactly one continuation chain carrying
/// the packet's tag, and their payloads concatenate back to the packet's
/// payload.
proof fn lemma_fragment_frames_chain(mt: u8, gid: u8, oid: u8, payload: Seq<u8>)
    requires
        mt < 8,
        gid < 16,
        oid < 64,
    ensures
        spec_single_chain(spec_fragment_frames(mt, gid, oid, payload), mt),
        spec_chain_payload(spec_fragment_frames(mt, gid, oid, payload)) == payload,
        spec_header(spec_fragment_frames(mt, gid, oid, payload)[0]).gid == gid,
        spec_header(spec_fragment_frames(mt, gid, oid, payload)[0]).oid == oid,
    decreases payload.len(),
{
    let frames = spec_fragment_frames(mt, gid, oid, payload);
    if payload.len() <= MAX_PAYLOAD_LEN {
        lemma_fragment_frames_single(mt, gid, oid, payload);
        lemma_build_frame_parses(mt, false, gid, oid, payload);
        assert(spec_chain_payload(frames.skip(1)) == Seq::<u8>::empty());
        assert(spec_chain_payload(frames) =~= payload);
    } else {
        let head = payload.take(MAX_PAYLOAD_LEN as int);
        let rest = payload.skip(MAX_PAYLOAD_LEN as int);
        let rest_frames = spec_fragment_frames(mt, gid, oid, rest);
        lemma_fragment_frames_unfold(mt, gid, oid, payload);
        lemma_build_frame_parses(mt, true, gid, oid, head);
        lemma_fragment_frames_chain(mt, gid, oid, rest);
        assert forall|i: int| 0 <= i < frames.len() implies spec_frame_ok(#[trigger] frames[i])
            && spec_header(frames[i]).mt == mt && (spec_header(frames[i]).pbf <==> i
            < frames.len() - 1) by {
            if i > 0 {
                assert(frames[i] == rest_frames[i - 1]);
            }
        }
        assert(frames.skip(1) =~= rest_frames);
        assert(spec_chain_payload(frames) == spec_payload(frames[0]) + spec_chain_payload(
            rest_frames));
        assert(spec_chain_payload(frames) =~= payload);
    }
}

/// The round trip between the adapter and the reassembler. Fragmenting a
/// command and feeding those exact fragments, in order, to an idle
/// reassembler accumulates silently at every fragment but the last, and
/// the last feed completes a packet equal to the original command: same
/// tag, same payload.
pub proof fn lemma_fragment_reassembly_roundtrip(mt: u8, gid: u8, oid: u8, payload: Seq<u8>)
    requires
        mt < 8,
        gid < 16,
        oid < 64,
    ensures
        ({
            let frames = spec_fragment_frames(mt, gid, oid, payload);
            &&& forall|i: int|
                0 <= i < frames.len() - 1 ==> spec_feed_step(
                    spec_feed_seq(None, frames.take(i)),
                    #[trigger] frames[i],
                ) is Accumulated
            &&& spec_feed_step(spec_feed_seq(None, frames.take(frames.len() - 1)),
                frames[frames.len() - 1]) == (FeedStep::Completed {
                packet: ChainState { mt, gid, oid, payload },
            })
        }),
{
    let frames = spec_fragment_frames(mt, gid, oid, payload);
    lemma_fragment_frames_chain(mt, gid, oid, payload);
    lemma_single_chain_reassembly(frames, mt);
}

/// A fresh vector holding `src[start..end]`.
fn copy_range(src: &Vec<u8>, start: usize, end: usize) -> (r: Vec<u8>)
    requires
        start <= end <= src@.len(),
    ensures
        r@ == src@.subrange(start as int, end as int),
{
    let mut r: Vec<u8> = Vec::new();
    let mut i: usize = start;
    proof {
        assert(r@ =~= src@.subrange(start as int, start as int));
    }
    while i < end
        invariant
            start <= i <= end <= src@.len(),
            r@ == src@.subrange(start as int, i as int),
        decreases end - i,
    {
        r.push(src[i]);
        i = i + 1;
        proof {
            assert(r@ =~= src@.subrange(start as int, i as int));
        }
    }
    r
}

/// Splits a packet into transport frames: chunks of at most the maximum
/// frame payload, each behind a header carrying the packet's tag, with the
/// packet-boundary flag set on every frame but the last.
pub fn fragment_packet(mt: u8, gid: u8, oid: u8, payload: &Vec<u8>) -> (frames: Vec<Vec<u8>>)
    requires
        mt < 8,
        gid < 16,
        oid < 64,
    ensures
        frames.deep_view() == spec_fragment_frames(mt, gid, oid, payload@),
{
    let mut frames: Vec<Vec<u8>> = Vec::new();
    let mut offset: usize = 0;
    proof {
        assert(frames.deep_view() =~= Seq::<Seq<u8>>::empty());
        assert(payload@.skip(0) =~= payload@);
    }
    while payload.len() - offset > MAX_PAYLOAD_LEN
        invariant
            offset <= payload@.len(),
            mt < 8,
            gid < 16,
            oid < 64,
            frames.deep_view() + spec_fragment_frames(mt, gid, oid, payload@.skip(offset as int))
                =~= spec_fragment_frames(mt, gid, oid, payload@),
        decreases payload@.len() - offset,
    {
        let ghost frames0 = frames.deep_view();
        let ghost remaining = payload@.skip(offset as int);
        let chunk = copy_range(payload, offset, offset + MAX_PAYLOAD_LEN);
        let frame = build_frame(mt, true, gid, oid, &chunk);
        frames.push(frame);
        proof {
            lemma_fragment_frames_unfold(mt, gid, oid, remaining);
            assert(remaining.take(MAX_PAYLOAD_LEN as int) =~= chunk@);
            assert(remaining.skip(MAX_PAYLOAD_LEN as int) =~= payload@.skip(
                offset + MAX_PAYLOAD_LEN));
            assert(frame.deep_view() =~~= frame@);
            assert(frames.deep_view() =~~= frames0.push(frame@));
            assert(frames.deep_view() + spec_fragment_frames(mt, gid, oid, payload@.skip(
                offset + MAX_PAYLOAD_LEN)) =~= spec_fragment_frames(mt, gid, oid, payload@));
        }
        offset = offset + MAX_PAYLOAD_LEN;
    }
    let ghost frames0 = frames.deep_view();
    let ghost remaining = payload@.skip(offset as int);
    let chunk = copy_range(payload, offset, payload.len());
    let frame = build_frame(mt, false, gid, oid, &chunk);
    frames.push(frame);
    proof {
        lemma_fragment_frames_single(mt, gid, oid, remaining);
        assert(remaining =~= chunk@);
        assert(frame.deep_view() =~~= frame@);
        assert(frames.deep_view() =~~= frames0.push(frame@));
        assert(frames.deep_view() =~= spec_fragment_frames(mt, gid, oid, payload@));
    }
    frames
}

/// Owns the hardware session lifecycle and the outbound path. The shell
/// performs the actual transport calls; each method here takes the
/// outcome the transport reported and decides what it means.
pub struct SessionAdapter {
    state: AdapterState,
    logger: UciLogger,
}

impl SessionAdapter {
    /// Where the session stands.
    pub closed spec fn state(self) -> AdapterState {
        self.state
    }

    /// The command logging sink.
    pub closed spec fn logger(self) -> UciLogger {
        self.logger
    }

    /// A fresh adapter: no link yet, an empty command log in the given mode.
    pub fn new(mode: UciLogMode) -> (a: SessionAdapter)
        ensures
            a.state() == AdapterState::Uninitialized,
            a.logger().mode() == mode,
            a.logger().records() == Seq::<LogEntryModel>::empty(),
    {
        SessionAdapter { state: AdapterState::Uninitialized, logger: UciLogger::new(mode) }
    }

    /// The session state, readable.
    pub fn current_state(&self) -> (s: AdapterState)
        ensures
            s == self.state(),
    {
        self.state
    }

    /// Records the outcome of opening the hardware link: acquiring the
    /// capability opens the session; failing to leaves everything as it
    /// was and surfaces `ServiceUnavailable`.
    pub fn on_open(&mut self, acquired: bool) -> (r: Result<(), AdapterError>)
        ensures
            final(self).logger() == old(self).logger(),
            acquired ==> r is Ok && final(self).state() == AdapterState::Opened,
            !acquired ==> r == Err::<(), AdapterError>(AdapterError::ServiceUnavailable)
                && final(self).state() == old(self).state(),
    {
        if acquired {
            self.state = AdapterState::Opened;
            Ok(())
        } else {
            Err(AdapterError::ServiceUnavailable)
        }
    }

    /// Closes the session: flushes the logging sink and hands its records
    /// to the shell. Safe to call in any state, the closed one included.
    pub fn on_close(&mut self) -> (flushed: Vec<LogEntry>)
        ensures
            final(self).state() == AdapterState::Closed,
            final(self).logger().mode() == old(self).logger().mode(),
            final(self).logger().records() == Seq::<LogEntryModel>::empty(),
            flushed@.map(|i: int, e: LogEntry| e.model()) == old(self).logger().records(),
    {
        self.state = AdapterState::Closed;
        self.logger.take_records()
    }

    /// Records the hardware's answer to core initialization: an accepting
    /// status moves an open session to core-initialized; any other status
    /// surfaces `HardwareRejected` with that code and changes nothing.
    pub fn on_core_init(&mut self, status: i32) -> (r: Result<(), AdapterError>)
        ensures
            final(self).logger() == old(self).logger(),
            status != STATUS_OK ==> r == Err::<(), AdapterError>(
                AdapterError::HardwareRejected { status }) && final(self).state() == old(
                self).state(),
            status == STATUS_OK ==> r is Ok && final(self).state() == (
            if old(self).state() == AdapterState::Opened {
                AdapterState::CoreInitialized
            } else {
                old(self).state()
            }),
    {
        if status != STATUS_OK {
            Err(AdapterError::HardwareRejected { status })
        } else {
            if self.state == AdapterState::Opened {
                self.state = AdapterState::CoreInitialized;
            }
            Ok(())
        }
    }

    /// Records the hardware's answer to a session initialization: an
    /// accepting status moves a core-initialized session to
    /// session-initialized; any other status surfaces `HardwareRejected`
    /// with that code and changes nothing.
    pub fn on_session_init(&mut self, status: i32) -> (r: Result<(), AdapterError>)
        ensures
            final(self).logger() == old(self).logger(),
            status != STATUS_OK ==> r == Err::<(), AdapterError>(
                AdapterError::HardwareRejected { status }) && final(self).state() == old(
                self).state(),
            status == STATUS_OK ==> r is Ok && final(self).state() == (
            if old(self).state() == AdapterState::CoreInitialized {
                AdapterState::SessionInitialized
            } else {
                old(self).state()
            }),
    {
        if status != STATUS_OK {
            Err(AdapterError::HardwareRejected { status })
        } else {
            if self.state == AdapterState::CoreInitialized {
                self.state = AdapterState::SessionInitialized;
            }
            Ok(())
        }
    }

    /// Prepares a command for the wire: records it in the logging sink
    /// (best effort, by mode and filter), then splits it into transport
    /// frames. The shell sends the frames strictly in order and treats the
    /// first failure as `TransportError` with nothing retried.
    pub fn prepare_send(&mut self, gid: u8, oid: u8, payload: &Vec<u8>) -> (frames: Vec<Vec<u8>>)
        requires
            gid < 16,
            oid < 64,
        ensures
            final(self).state() == old(self).state(),
            final(self).logger().mode() == old(self).logger().mode(),
            final(self).logger().records() == old(self).logger().spec_offer(
                LogEntryKind::Command, gid, oid, payload@),
            frames.deep_view() == spec_fragment_frames(MT_COMMAND, gid, oid, payload@),
    {
        self.logger.log_command(gid, oid, payload);
        fragment_packet(MT_COMMAND, gid, oid, payload)
    }

    /// Hands out the command log so the shell can flush it.
    pub fn take_log_records(&mut self) -> (r: Vec<LogEntry>)
        ensures
            final(self).state() == old(self).state(),
            final(self).logger().mode() == old(self).logger().mode(),
            final(self).logger().records() == Seq::<LogEntryModel>::empty(),
            r@.map(|i: int, e: LogEntry| e.model()) == old(self).logger().records(),
    {
        self.logger.take_records()
    }
}

} // verus!
