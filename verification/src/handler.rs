//! The inbound callback pipeline.
//!
//! The transport delivers raw fragments and out-of-band hardware events.
//! Each fragment runs through reassembly; a completed packet is recorded by
//! the logging sink, classified, and — when it is a response or a
//! notification the routing table knows — queued for the consumer. Nothing
//! on this path can fail outward: malformed fragments and unsupported
//! packets are swallowed, and the callback always reports success to the
//! transport.

use vstd::prelude::*;
use crate::classify::{UciMessage, decode, spec_decode};
use crate::dispatch::{
    DispatchEvent, DispatchQueue, EventModel, HardwareEventKind, HardwareStatus,
};
use crate::frame::{MT_NOTIFICATION, MT_RESPONSE};
use crate::logger::{LogEntry, LogEntryKind, LogEntryModel, UciLogMode, UciLogger};
use crate::reassembler::{ChainState, FeedStep, Reassembler, spec_feed_state, spec_feed_step};

verus! {

/// The events one fragment adds to the dispatch queue: one, when it
/// completes a packet that the routing table knows; none otherwise.
pub open spec fn spec_inbound_events(st: Option<ChainState>, data: Seq<u8>) -> Seq<EventModel> {
    match spec_feed_step(st, data) {
        FeedStep::Completed { packet } => match spec_decode(
            packet.mt,
            packet.gid,
            packet.oid,
            packet.payload,
        ) {
            Some(m) => if packet.mt == MT_RESPONSE {
                seq![EventModel::Response(m)]
            } else {
                seq![EventModel::Notification(m)]
            },
            None => Seq::<EventModel>::empty(),
        },
        _ => Seq::<EventModel>::empty(),
    }
}

/// What the sink's record list becomes when one fragment arrives: a
/// completed response or notification packet is offered to the sink
/// (whether or not its opcode decodes); everything else records nothing.
pub open spec fn spec_inbound_records(
    logger: UciLogger,
    st: Option<ChainState>,
    data: Seq<u8>,
) -> Seq<LogEntryModel> {
    match spec_feed_step(st, data) {
        FeedStep::Completed { packet } => if packet.mt == MT_RESPONSE {
            logger.spec_offer(LogEntryKind::Response, packet.gid, packet.oid, packet.payload)
        } else if packet.mt == MT_NOTIFICATION {
            logger.spec_offer(LogEntryKind::Notification, packet.gid, packet.oid, packet.payload)
        } else {
            logger.records()
        },
        _ => logger.records(),
    }
}

/// The callback sink the transport delivers into: reassembly state plus the
/// logging sink. The dispatch queue is passed to each delivery.
pub struct UwbClientCallback {
    reassembler: Reassembler,
    logger: UciLogger,
}

impl UwbClientCallback {
    /// The reassembly chain in progress, if any.
    pub closed spec fn chain(self) -> Option<ChainState> {
        self.reassembler.chain()
    }

    /// The logging sink.
    pub closed spec fn logger(self) -> UciLogger {
        self.logger
    }

    /// The reassembler's well-formedness.
    pub closed spec fn wf(self) -> bool {
        self.reassembler.wf()
    }

    /// A callback sink with no chain in progress and an empty log in the
    /// given mode.
    pub fn new(mode: UciLogMode) -> (cb: UwbClientCallback)
        ensures
            cb.wf(),
            cb.chain() is None,
            cb.logger().mode() == mode,
            cb.logger().records() == Seq::<LogEntryModel>::empty(),
    {
        UwbClientCallback { reassembler: Reassembler::new(), logger: UciLogger::new(mode) }
    }

    /// Delivers one out-of-band hardware event: it goes straight onto the
    /// dispatch queue. Never fails, whatever the consumer's state.
    pub fn on_hal_event(
        &self,
        queue: &mut DispatchQueue,
        kind: HardwareEventKind,
        status: HardwareStatus,
    )
        ensures
            final(queue).consumer_live() == old(queue).consumer_live(),
            old(queue).consumer_live() ==> final(queue).events() == old(queue).events().push(
                EventModel::Hardware { kind, status }),
            !old(queue).consumer_live() ==> final(queue).events() == old(queue).events(),
    {
        let _ = queue.send(DispatchEvent::HardwareEvent { kind, status });
    }

    /// Delivers one raw inbound fragment.
    ///
    /// The fragment runs through reassembly; a completed response or
    /// notification packet is recorded by the sink, and, when the routing
    /// table knows it, exactly one event is queued. Malformed fragments and
    /// unsupported packets are dropped; the call itself cannot fail.
    pub fn on_uci_message(&mut self, queue: &mut DispatchQueue, data: &Vec<u8>)
        requires
            old(self).wf(),
        ensures
            final(self).wf(),
            final(self).chain() == spec_feed_state(old(self).chain(), data@),
            final(self).logger().mode() == old(self).logger().mode(),
            final(self).logger().records() == spec_inbound_records(old(self).logger(), old(
                self).chain(), data@),
            final(queue).consumer_live() == old(queue).consumer_live(),
            old(queue).consumer_live() ==> final(queue).events() == old(queue).events()
                + spec_inbound_events(old(self).chain(), data@),
            !old(queue).consumer_live() ==> final(queue).events() == old(queue).events(),
    {
        proof {
            assert(old(queue).events() + Seq::<EventModel>::empty() =~= old(queue).events());
        }
        match self.reassembler.feed(data) {
            Ok(Some(packet)) => {
                if packet.mt == MT_RESPONSE {
                    self.logger.log_response(packet.gid, packet.oid, &packet.payload);
                } else if packet.mt == MT_NOTIFICATION {
                    self.logger.log_notification(packet.gid, packet.oid, &packet.payload);
                }
                match decode(&packet) {
                    Ok(msg) => {
                        let event = match msg {
                            UciMessage::Response(r) => DispatchEvent::Response(r),
                            UciMessage::Notification(n) => DispatchEvent::Notification(n),
                        };
                        let ghost queue0 = *queue;
                        let _ = queue.send(event);
                        proof {
                            if queue0.consumer_live() {
                                assert(queue.events() =~= queue0.events()
                                    + spec_inbound_events(old(self).chain(), data@));
                            }
                        }
                    },
                    Err(_) => {},
                }
            },
            Ok(None) => {},
            Err(_) => {},
        }
    }

    /// Hands out the sink's records so the shell can flush them.
    pub fn take_log_records(&mut self) -> (r: Vec<LogEntry>)
        ensures
            final(self).wf() == old(self).wf(),
            final(self).chain() == old(self).chain(),
            final(self).logger().mode() == old(self).logger().mode(),
            final(self).logger().records() == Seq::<LogEntryModel>::empty(),
            r@.map(|i: int, e: LogEntry| e.model()) == old(self).logger().records(),
    {
        self.logger.take_records()
    }
}

/// Converts the loss of the hardware service into exactly one error event
/// on the dispatch queue — the sole signal that the hardware link is gone.
/// It touches nothing else: whatever reassembly is in flight stays as it is.
pub fn on_service_died(queue: &mut DispatchQueue)
    ensures
        final(queue).consumer_live() == old(queue).consumer_live(),
        old(queue).consumer_live() ==> final(queue).events() == old(queue).events().push(
            EventModel::Hardware {
                kind: HardwareEventKind::Error,
                status: HardwareStatus::Failed,
            }),
        !old(queue).consumer_live() ==> final(queue).events() == old(queue).events(),
{
    let _ = queue.send(DispatchEvent::HardwareEvent {
        kind: HardwareEventKind::Error,
        status: HardwareStatus::Failed,
    });
}

} // verus!
