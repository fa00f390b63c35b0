//! Wire framing of the UCI control protocol.
//!
//! Every fragment on the wire starts with a four-byte header:
//! byte 0 holds the message type (bits 7..5), the packet-boundary
//! (continuation) flag (bit 4) and the group identifier (bits 3..0);
//! byte 1 holds the opcode identifier (bits 5..0); byte 2 is reserved;
//! byte 3 is the length of the payload that follows the header.

use vstd::prelude::*;

verus! {

/// Number of header bytes at the start of every fragment.
pub const HEADER_LEN: usize = 4;

/// Largest payload one fragment can carry (the length field is one byte).
pub const MAX_PAYLOAD_LEN: usize = 255;

/// Message-type tag of a command fragment.
pub const MT_COMMAND: u8 = 1;

/// Message-type tag of a response fragment.
pub const MT_RESPONSE: u8 = 2;

/// Message-type tag of a notification fragment.
pub const MT_NOTIFICATION: u8 = 3;

/// The fields of a fragment header.
#[derive(Clone, Copy, Debug, PartialEq, Eq, Structural)]
pub struct FrameHeader {
    /// Message type: command, response or notification (3 bits).
    pub mt: u8,
    /// Packet-boundary flag: set when more fragments follow.
    pub pbf: bool,
    /// Group identifier (4 bits).
    pub gid: u8,
    /// Opcode identifier within the group (6 bits).
    pub oid: u8,
    /// Number of payload bytes that follow the header.
    pub payload_len: u8,
}

/// Ways a fragment can fail to frame.
#[derive(Clone, Copy, Debug, PartialEq, Eq, Structural)]
pub enum FrameError {
    /// The buffer is shorter than a header.
    Truncated,
    /// The header's length field disagrees with the buffer's length.
    LengthMismatch,
    /// The fragment's message type differs from the chain being reassembled.
    TagMismatch,
}

/// Message type encoded in the first header byte.
pub open spec fn mt_of(b0: u8) -> u8 {
    b0 >> 5
}

/// Packet-boundary flag encoded in the first header byte.
pub open spec fn pbf_of(b0: u8) -> bool {
    b0 & 0x10 != 0
}

/// Group identifier encoded in the first header byte.
pub open spec fn gid_of(b0: u8) -> u8 {
    b0 & 0x0f
}

/// Opcode identifier encoded in the second header byte.
pub open spec fn oid_of(b1: u8) -> u8 {
    b1 & 0x3f
}

/// The header a well-formed fragment carries.
pub open spec fn spec_header(data: Seq<u8>) -> FrameHeader
    recommends
        data.len() >= HEADER_LEN,
{
    FrameHeader {
        mt: mt_of(data[0]),
        pbf: pbf_of(data[0]),
        gid: gid_of(data[0]),
        oid: oid_of(data[1]),
        payload_len: data[3],
    }
}

/// A fragment is well formed when it has a full header and its length field
/// matches the number of bytes after the header.
pub open spec fn spec_frame_ok(data: Seq<u8>) -> bool {
    data.len() >= HEADER_LEN && data.len() == HEADER_LEN + data[3]
}

/// The payload of a well-formed fragment: everything after the header.
pub open spec fn spec_payload(data: Seq<u8>) -> Seq<u8>
    recommends
        data.len() >= HEADER_LEN,
{
    data.subrange(HEADER_LEN as int, data.len() as int)
}

/// The error a malformed fragment draws.
pub open spec fn spec_frame_error(data: Seq<u8>) -> FrameError
    recommends
        !spec_frame_ok(data),
{
    if data.len() < HEADER_LEN {
        FrameError::Truncated
    } else {
        FrameError::LengthMismatch
    }
}

/// Splits a fragment into its header and payload, or reports how it is
/// malformed. A malformed fragment is one shorter than a header, or one
/// whose length field disagrees with the buffer's length.
pub fn parse_frame(data: &Vec<u8>) -> (r: Result<(FrameHeader, Vec<u8>), FrameError>)
    ensures
        spec_frame_ok(data@) ==> (r matches Ok(p)
            && p.0 == spec_header(data@)
            && p.1@ == spec_payload(data@)),
        !spec_frame_ok(data@) ==> r == Err::<(FrameHeader, Vec<u8>), FrameError>(
            spec_frame_error(data@)),
        r matches Ok(p) ==> p.0.mt < 8 && p.0.gid < 16 && p.0.oid < 64,
{
    let h = match read_header(data) {
        Ok(h) => h,
        Err(e) => {
            return Err(e);
        },
    };
    let mut payload: Vec<u8> = Vec::new();
    let mut i: usize = HEADER_LEN;
    proof {
        assert(payload@ =~= data@.subrange(HEADER_LEN as int, HEADER_LEN as int));
    }
    while i < data.len()
        invariant
            HEADER_LEN <= i <= data@.len(),
            payload@ == data@.subrange(HEADER_LEN as int, i as int),
        decreases data@.len() - i,
    {
        payload.push(data[i]);
        i = i + 1;
        proof {
            assert(payload@ =~= data@.subrange(HEADER_LEN as int, i as int));
        }
    }
    proof {
        assert(payload@ =~= spec_payload(data@));
    }
    Ok((h, payload))
}

/// Reads and checks the header of a fragment without copying its payload.
pub fn read_header(data: &Vec<u8>) -> (r: Result<FrameHeader, FrameError>)
    ensures
        spec_frame_ok(data@) ==> r == Ok::<FrameHeader, FrameError>(spec_header(data@)),
        !spec_frame_ok(data@) ==> r == Err::<FrameHeader, FrameError>(spec_frame_error(data@)),
        r matches Ok(h) ==> h.mt < 8 && h.gid < 16 && h.oid < 64,
{
    if data.len() < HEADER_LEN {
        return Err(FrameError::Truncated);
    }
    let b0 = data[0];
    let b1 = data[1];
    let plen = data[3];
    if data.len() - HEADER_LEN != plen as usize {
        return Err(FrameError::LengthMismatch);
    }
    let mt = b0 >> 5;
    let pbf = b0 & 0x10 != 0;
    let gid = b0 & 0x0f;
    let oid = b1 & 0x3f;
    proof {
        assert(b0 >> 5 < 8 && b0 & 0x0f < 16 && b1 & 0x3f < 64) by (bit_vector);
    }
    Ok(FrameHeader { mt, pbf, gid, oid, payload_len: plen })
}

/// The bytes of one fragment built from header fields and a payload.
pub open spec fn spec_build_frame(mt: u8, pbf: bool, gid: u8, oid: u8, payload: Seq<u8>) -> Seq<u8>
    recommends
        mt < 8,
        gid < 16,
        oid < 64,
        payload.len() <= MAX_PAYLOAD_LEN,
{
    seq![
        (mt << 5) | (if pbf { 0x10u8 } else { 0u8 }) | gid,
        oid,
        0u8,
        payload.len() as u8,
    ] + payload
}

/// Encodes one fragment: a four-byte header followed by the payload.
pub fn build_frame(mt: u8, pbf: bool, gid: u8, oid: u8, payload: &Vec<u8>) -> (frame: Vec<u8>)
    requires
        mt < 8,
        gid < 16,
        oid < 64,
        payload@.len() <= MAX_PAYLOAD_LEN,
    ensures
        frame@ == spec_build_frame(mt, pbf, gid, oid, payload@),
{
    let flag: u8 = if pbf { 0x10 } else { 0 };
    proof {
        assert((mt << 5) | flag | gid < 256) by (bit_vector)
            requires
                mt < 8,
                gid < 16,
                flag == 0x10 || flag == 0,
        ;
    }
    let b0: u8 = (mt << 5) | flag | gid;
    let mut frame: Vec<u8> = Vec::new();
    frame.push(b0);
    frame.push(oid);
    frame.push(0u8);
    frame.push(payload.len() as u8);
    let mut i: usize = 0;
    proof {
        assert(frame@ =~= seq![b0, oid, 0u8, payload@.len() as u8]
            + payload@.subrange(0, 0));
    }
    while i < payload.len()
        invariant
            i <= payload@.len(),
            payload@.len() <= MAX_PAYLOAD_LEN,
            frame@.len() == HEADER_LEN + i,
            frame@ == seq![b0, oid, 0u8, payload@.len() as u8] + payload@.subrange(0, i as int),
        decreases payload@.len() - i,
    {
        frame.push(payload[i]);
        i = i + 1;
        proof {
            assert(frame@ =~= seq![b0, oid, 0u8, payload@.len() as u8]
                + payload@.subrange(0, i as int));
        }
    }
    proof {
        assert(payload@.subrange(0, payload@.len() as int) =~= payload@);
        assert(frame@ =~= spec_build_frame(mt, pbf, gid, oid, payload@));
    }
    frame
}

/// A built frame parses back to exactly the fields it was built from: the
/// encoder and the header layout agree.
pub proof fn lemma_build_frame_parses(mt: u8, pbf: bool, gid: u8, oid: u8, payload: Seq<u8>)
    requires
        mt < 8,
        gid < 16,
        oid < 64,
        payload.len() <= MAX_PAYLOAD_LEN,
    ensures
        spec_frame_ok(spec_build_frame(mt, pbf, gid, oid, payload)),
        spec_header(spec_build_frame(mt, pbf, gid, oid, payload)) == (FrameHeader {
            mt,
            pbf,
            gid,
            oid,
            payload_len: payload.len() as u8,
        }),
        spec_payload(spec_build_frame(mt, pbf, gid, oid, payload)) == payload,
{
    let flag: u8 = if pbf { 0x10 } else { 0 };
    let b0 = (mt << 5) | flag | gid;
    let frame = spec_build_frame(mt, pbf, gid, oid, payload);
    assert(frame.len() == HEADER_LEN + payload.len());
    assert(frame[3] == payload.len() as u8);
    assert(payload.len() as u8 as int == payload.len());
    assert(spec_frame_ok(frame));
    assert(b0 >> 5 == mt && b0 & 0x0f == gid && ((b0 & 0x10 != 0) <==> flag == 0x10))
        by (bit_vector)
        requires
            mt < 8,
            gid < 16,
            flag == 0x10 || flag == 0,
            b0 == (mt << 5) | flag | gid,
    ;
    assert(oid & 0x3f == oid) by (bit_vector)
        requires
            oid < 64,
    ;
    assert(spec_payload(frame) =~= payload);
}

} // verus!
