//! Verified core of a UCI (UWB Command Interface) adaptation layer.
//!
//! The library reassembles a fragmented command/response/notification byte
//! stream into logical packets, classifies each packet into a typed message,
//! queues the messages for a single consumer, fragments outgoing commands to
//! the transport's maximum frame size, and tracks the hardware session
//! lifecycle. Everything here is plain, synchronous, verified code; the
//! asynchronous transport and its callbacks live outside the library and hand
//! plain byte buffers in and out.

use vstd::prelude::*;

pub mod adapter;
pub mod classify;
pub mod dispatch;
pub mod frame;
pub mod handler;
pub mod logger;
pub mod reassembler;

verus! {

} // verus!
