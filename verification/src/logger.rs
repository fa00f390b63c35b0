//! The packet logging sink.
//!
//! The sink records outgoing commands and incoming responses and
//! notifications. It has three modes: disabled (record nothing), filtered
//! (record everything except the opcodes that carry application
//! configuration, which may hold sensitive ranging parameters), and enabled
//! (record everything). Recording is best-effort by design: every operation
//! returns nothing and cannot fail, so logging never disturbs packet
//! processing. The shell around the library decides where the records go.

use vstd::prelude::*;
use crate::classify::{
    GID_SESSION_CONFIG, OID_SESSION_GET_APP_CONFIG, OID_SESSION_SET_APP_CONFIG,
};
use crate::reassembler::copy_bytes;

verus! {

/// How much the sink records.
#[derive(Clone, Copy, Debug, PartialEq, Eq, Structural)]
pub enum UciLogMode {
    /// Record nothing.
    Disabled,
    /// Record everything except the sensitive opcodes.
    Filtered,
    /// Record everything.
    Enabled,
}

/// Direction and kind of a recorded packet.
#[derive(Clone, Copy, Debug, PartialEq, Eq, Structural)]
pub enum LogEntryKind {
    /// An outgoing command.
    Command,
    /// An incoming response.
    Response,
    /// An incoming notification.
    Notification,
}

/// One recorded packet.
#[derive(Clone, Debug, PartialEq, Eq)]
pub struct LogEntry {
    /// Direction and kind of the packet.
    pub kind: LogEntryKind,
    /// Group identifier of the packet.
    pub gid: u8,
    /// Opcode identifier of the packet.
    pub oid: u8,
    /// Payload bytes of the packet.
    pub payload: Vec<u8>,
}

/// A log entry as the specifications see it.
pub struct LogEntryModel {
    /// Direction and kind of the packet.
    pub kind: LogEntryKind,
    /// Group identifier of the packet.
    pub gid: u8,
    /// Opcode identifier of the packet.
    pub oid: u8,
    /// Payload bytes of the packet.
    pub payload: Seq<u8>,
}

impl LogEntry {
    /// The entry as the specifications see it.
    pub open spec fn model(self) -> LogEntryModel {
        LogEntryModel { kind: self.kind, gid: self.gid, oid: self.oid, payload: self.payload@ }
    }
}

/// Whether an opcode is excluded from the filtered mode: the application
/// configuration exchanges, whose payloads may carry sensitive ranging
/// parameters.
pub open spec fn spec_is_sensitive(gid: u8, oid: u8) -> bool {
    gid == GID_SESSION_CONFIG && (oid == OID_SESSION_SET_APP_CONFIG || oid
        == OID_SESSION_GET_APP_CONFIG)
}

/// Whether the sink records a packet with this group and opcode in this mode.
pub open spec fn spec_should_record(mode: UciLogMode, gid: u8, oid: u8) -> bool {
    match mode {
        UciLogMode::Disabled => false,
        UciLogMode::Filtered => !spec_is_sensitive(gid, oid),
        UciLogMode::Enabled => true,
    }
}

/// The mode a configuration name selects, if it names one.
pub open spec fn spec_log_mode_of_name(name: Seq<char>) -> Option<UciLogMode> {
    if name == "disabled"@ {
        Some(UciLogMode::Disabled)
    } else if name == "filtered"@ {
        Some(UciLogMode::Filtered)
    } else if name == "enabled"@ {
        Some(UciLogMode::Enabled)
    } else {
        None
    }
}

/// Maps a configuration name to a mode: "disabled", "filtered" or
/// "enabled"; any other name selects nothing.
pub fn log_mode_of_name(name: &String) -> (mode: Option<UciLogMode>)
    ensures
        mode == spec_log_mode_of_name(name@),
{
    let disabled: String = "disabled".to_owned();
    let filtered: String = "filtered".to_owned();
    let enabled: String = "enabled".to_owned();
    if name.eq(&disabled) {
        Some(UciLogMode::Disabled)
    } else if name.eq(&filtered) {
        Some(UciLogMode::Filtered)
    } else if name.eq(&enabled) {
        Some(UciLogMode::Enabled)
    } else {
        None
    }
}

/// Picks the mode from an optional configuration value: a missing or
/// unrecognized value falls back to recording nothing.
pub fn log_mode_of_property(value: &Option<String>) -> (mode: UciLogMode)
    ensures
        mode == (match value {
            Some(name) => match spec_log_mode_of_name(name@) {
                Some(m) => m,
                None => UciLogMode::Disabled,
            },
            None => UciLogMode::Disabled,
        }),
{
    match value {
        Some(name) => match log_mode_of_name(name) {
            Some(m) => m,
            None => UciLogMode::Disabled,
        },
        None => UciLogMode::Disabled,
    }
}

/// Records packets according to its mode; never fails, never blocks the
/// pipeline.
pub struct UciLogger {
    mode: UciLogMode,
    records: Vec<LogEntry>,
}

impl UciLogger {
    /// The mode the sink was built with.
    pub closed spec fn mode(self) -> UciLogMode {
        self.mode
    }

    /// Everything recorded so far, oldest first.
    pub closed spec fn records(self) -> Seq<LogEntryModel> {
        self.records@.map(|i: int, e: LogEntry| e.model())
    }

    /// A sink with the given mode and nothing recorded.
    pub fn new(mode: UciLogMode) -> (l: UciLogger)
        ensures
            l.mode() == mode,
            l.records() == Seq::<LogEntryModel>::empty(),
    {
        let l = UciLogger { mode, records: Vec::new() };
        proof {
            assert(l.records() =~= Seq::<LogEntryModel>::empty());
        }
        l
    }

    /// What the record list becomes when a packet is offered to the sink.
    pub open spec fn spec_offer(
        self,
        kind: LogEntryKind,
        gid: u8,
        oid: u8,
        payload: Seq<u8>,
    ) -> Seq<LogEntryModel> {
        if spec_should_record(self.mode(), gid, oid) {
            self.records().push(LogEntryModel { kind, gid, oid, payload })
        } else {
            self.records()
        }
    }

    /// Records an outgoing command, mode and filter permitting.
    pub fn log_command(&mut self, gid: u8, oid: u8, payload: &Vec<u8>)
        ensures
            final(self).mode() == old(self).mode(),
            final(self).records() == old(self).spec_offer(LogEntryKind::Command, gid, oid,
                payload@),
    {
        self.offer(LogEntryKind::Command, gid, oid, payload);
    }

    /// Records an incoming response, mode and filter permitting.
    pub fn log_response(&mut self, gid: u8, oid: u8, payload: &Vec<u8>)
        ensures
            final(self).mode() == old(self).mode(),
            final(self).records() == old(self).spec_offer(LogEntryKind::Response, gid, oid,
                payload@),
    {
        self.offer(LogEntryKind::Response, gid, oid, payload);
    }

    /// Records an incoming notification, mode and filter permitting.
    pub fn log_notification(&mut self, gid: u8, oid: u8, payload: &Vec<u8>)
        ensures
            final(self).mode() == old(self).mode(),
            final(self).records() == old(self).spec_offer(LogEntryKind::Notification, gid, oid,
                payload@),
    {
        self.offer(LogEntryKind::Notification, gid, oid, payload);
    }

    /// Hands out everything recorded so far and leaves the sink empty; the
    /// shell flushes these wherever its records go.
    pub fn take_records(&mut self) -> (r: Vec<LogEntry>)
        ensures
            final(self).mode() == old(self).mode(),
            final(self).records() == Seq::<LogEntryModel>::empty(),
            r@.map(|i: int, e: LogEntry| e.model()) == old(self).records(),
    {
        let mut out: Vec<LogEntry> = Vec::new();
        std::mem::swap(&mut out, &mut self.records);
        proof {
            assert(self.records() =~= Seq::<LogEntryModel>::empty());
        }
        out
    }

    fn offer(&mut self, kind: LogEntryKind, gid: u8, oid: u8, payload: &Vec<u8>)
        ensures
            final(self).mode() == old(self).mode(),
            final(self).records() == old(self).spec_offer(kind, gid, oid, payload@),
    {
        let record = match self.mode {
            UciLogMode::Disabled => false,
            UciLogMode::Filtered => !(gid == GID_SESSION_CONFIG && (oid
                == OID_SESSION_SET_APP_CONFIG || oid == OID_SESSION_GET_APP_CONFIG)),
            UciLogMode::Enabled => true,
        };
        if record {
            let entry = LogEntry { kind, gid, oid, payload: copy_bytes(payload) };
            self.records.push(entry);
            proof {
                assert(self.records() =~= old(self).spec_offer(kind, gid, oid, payload@));
            }
        }
    }
}

} // verus!
