//! The event dispatch queue.
//!
//! Decoded messages and hardware events fan in to one ordered,
//! first-in-first-out queue with a single consumer. A send never blocks and
//! never fails the producer: when the consumer is gone the event is dropped
//! silently. The queue models the consumer channel and carries all the
//! ordering and fan-in rules; `forward_events` hands its contents, in
//! order, to the asynchronous channel the consumer task listens on.

use vstd::prelude::*;
use crate::classify::{SpecMessage, UciNotification, UciResponse};

verus! {

/// Kind of an out-of-band hardware event.
#[derive(Clone, Copy, Debug, PartialEq, Eq, Structural)]
pub enum HardwareEventKind {
    /// The transport finished opening.
    OpenComplete,
    /// The transport finished closing.
    CloseComplete,
    /// The transport finished its post-initialization step.
    PostInitComplete,
    /// The hardware link failed.
    Error,
    /// A code this library does not know; carried through unchanged.
    Other(i32),
}

/// Status delivered with a hardware event.
#[derive(Clone, Copy, Debug, PartialEq, Eq, Structural)]
pub enum HardwareStatus {
    /// The operation succeeded.
    Success,
    /// The operation failed.
    Failed,
    /// The transport reported an error.
    TransportFailure,
    /// A command timed out.
    CommandTimeout,
    /// A code this library does not know; carried through unchanged.
    Other(i32),
}

/// The event kind a raw transport code stands for.
pub open spec fn spec_event_kind_of_code(code: i32) -> HardwareEventKind {
    if code == 0 {
        HardwareEventKind::OpenComplete
    } else if code == 1 {
        HardwareEventKind::CloseComplete
    } else if code == 2 {
        HardwareEventKind::PostInitComplete
    } else if code == 3 {
        HardwareEventKind::Error
    } else {
        HardwareEventKind::Other(code)
    }
}

/// The status a raw transport code stands for.
pub open spec fn spec_status_of_code(code: i32) -> HardwareStatus {
    if code == 0 {
        HardwareStatus::Success
    } else if code == 1 {
        HardwareStatus::Failed
    } else if code == 2 {
        HardwareStatus::TransportFailure
    } else if code == 3 {
        HardwareStatus::CommandTimeout
    } else {
        HardwareStatus::Other(code)
    }
}

/// Maps a raw transport event code to its kind.
pub fn event_kind_of_code(code: i32) -> (kind: HardwareEventKind)
    ensures
        kind == spec_event_kind_of_code(code),
{
    if code == 0 {
        HardwareEventKind::OpenComplete
    } else if code == 1 {
        HardwareEventKind::CloseComplete
    } else if code == 2 {
        HardwareEventKind::PostInitComplete
    } else if code == 3 {
        HardwareEventKind::Error
    } else {
        HardwareEventKind::Other(code)
    }
}

/// Maps a raw transport status code to its status.
pub fn status_of_code(code: i32) -> (status: HardwareStatus)
    ensures
        status == spec_status_of_code(code),
{
    if code == 0 {
        HardwareStatus::Success
    } else if code == 1 {
        HardwareStatus::Failed
    } else if code == 2 {
        HardwareStatus::TransportFailure
    } else if code == 3 {
        HardwareStatus::CommandTimeout
    } else {
        HardwareStatus::Other(code)
    }
}

/// One event on the dispatch queue.
#[derive(Clone, Debug, PartialEq, Eq)]
pub enum DispatchEvent {
    /// A decoded response.
    Response(UciResponse),
    /// A decoded notification.
    Notification(UciNotification),
    /// An out-of-band hardware event.
    HardwareEvent { kind: HardwareEventKind, status: HardwareStatus },
}

/// A dispatch event as the specifications see it.
pub enum EventModel {
    /// A decoded response.
    Response(SpecMessage),
    /// A decoded notification.
    Notification(SpecMessage),
    /// An out-of-band hardware event.
    Hardware { kind: HardwareEventKind, status: HardwareStatus },
}

impl DispatchEvent {
    /// The event as the specifications see it.
    pub open spec fn model(self) -> EventModel {
        match self {
            DispatchEvent::Response(r) => EventModel::Response(r.model()),
            DispatchEvent::Notification(n) => EventModel::Notification(n.model()),
            DispatchEvent::HardwareEvent { kind, status } => EventModel::Hardware { kind, status },
        }
    }
}

/// The ordered multi-producer, single-consumer event queue.
///
/// Events leave in exactly the order they entered. Sending never blocks;
/// once the consumer is gone, sends are dropped silently and report so.
pub struct DispatchQueue {
    events: Vec<DispatchEvent>,
    consumer_live: bool,
}

impl DispatchQueue {
    /// The queued events in arrival order, oldest first.
    pub closed spec fn events(self) -> Seq<EventModel> {
        self.events@.map(|i: int, e: DispatchEvent| e.model())
    }

    /// Whether the consumer end is still attached.
    pub closed spec fn consumer_live(self) -> bool {
        self.consumer_live
    }

    /// An empty queue whose consumer is attached.
    pub fn new() -> (q: DispatchQueue)
        ensures
            q.events() == Seq::<EventModel>::empty(),
            q.consumer_live(),
    {
        let q = DispatchQueue { events: Vec::new(), consumer_live: true };
        proof {
            assert(q.events() =~= Seq::<EventModel>::empty());
        }
        q
    }

    /// How many events are waiting.
    pub fn len(&self) -> (n: usize)
        ensures
            n == self.events().len(),
    {
        self.events.len()
    }

    /// Appends an event. Never blocks: when the consumer is gone the event
    /// is dropped and the send reports failure, nothing more.
    pub fn send(&mut self, event: DispatchEvent) -> (accepted: bool)
        ensures
            accepted == old(self).consumer_live(),
            final(self).consumer_live() == old(self).consumer_live(),
            old(self).consumer_live() ==> final(self).events() == old(self).events().push(
                event.model()),
            !old(self).consumer_live() ==> final(self).events() == old(self).events(),
    {
        if self.consumer_live {
            self.events.push(event);
            proof {
                assert(self.events() =~= old(self).events().push(event.model()));
            }
            true
        } else {
            false
        }
    }

    /// Takes the oldest waiting event, if any: events leave in the order
    /// they entered.
    pub fn try_recv(&mut self) -> (r: Option<DispatchEvent>)
        ensures
            final(self).consumer_live() == old(self).consumer_live(),
            old(self).events().len() == 0 ==> r is None && final(self).events() == old(
                self).events(),
            old(self).events().len() > 0 ==> (r matches Some(e) && e.model() == old(
                self).events()[0] && final(self).events() == old(self).events().skip(1)),
    {
        if self.events.len() == 0 {
            None
        } else {
            let e = self.events.remove(0);
            proof {
                assert(self.events() =~= old(self).events().skip(1));
            }
            Some(e)
        }
    }

    /// Detaches the consumer: later sends are dropped silently.
    pub fn drop_consumer(&mut self)
        ensures
            !final(self).consumer_live(),
            final(self).events() == old(self).events(),
    {
        self.consumer_live = false;
    }
}

/// The unbounded channel sender the consumer task listens on.
#[verifier::external_type_specification]
#[verifier::external_body]
#[verifier::reject_recursive_types(T)]
pub struct ExUnboundedSender<T>(tokio::sync::mpsc::UnboundedSender<T>);

/// Relies on tokio's `UnboundedSender::send`: the channel is unbounded, so
/// the send never blocks; when the receive half is closed or gone it hands
/// the message back inside the error.
#[verifier::external_body]
fn send_on_channel(
    sender: &tokio::sync::mpsc::UnboundedSender<DispatchEvent>,
    event: DispatchEvent,
) -> (r: Result<(), DispatchEvent>)
    ensures
        r matches Err(e) ==> e == event,
{
    sender.send(event).map_err(|e| e.0)
}

/// Empties the queue into the consumer task's channel, oldest event first,
/// so the channel receives them in exactly the order they were queued. A
/// send the channel refuses is dropped silently: delivery never fails the
/// producing path.
pub fn forward_events(
    queue: &mut DispatchQueue,
    sender: &tokio::sync::mpsc::UnboundedSender<DispatchEvent>,
)
    ensures
        final(queue).events() == Seq::<EventModel>::empty(),
        final(queue).consumer_live() == old(queue).consumer_live(),
{
    let ghost live0 = old(queue).consumer_live();
    while queue.len() > 0
        invariant
            queue.consumer_live() == live0,
        decreases queue.events().len(),
    {
        match queue.try_recv() {
            Some(event) => {
                let _ = send_on_channel(sender, event);
            },
            None => {},
        }
    }
    proof {
        assert(queue.events() =~= Seq::<EventModel>::empty());
    }
}

} // verus!
