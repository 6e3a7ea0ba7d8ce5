//! CTAPHID framing: messages of any length carried in fixed-size reports.
//!
//! A message is a command byte and a payload. Its first report, the
//! initialization report, holds the channel id, the command byte, the
//! payload's length in two bytes (high byte first) and the first 57 bytes of
//! payload. Each further report, a continuation, holds the channel id, a
//! sequence number counting from 0 and the next 59 bytes. Reports are padded
//! with zeros to 64 bytes.

use crate::error::FramingError;
use vstd::prelude::*;

verus! {

/// Size of every report.
pub const PACKET_SIZE: usize = 64;

/// Payload bytes that an initialization report holds.
pub const INIT_DATA_SIZE: usize = 57;

/// Payload bytes that a continuation report holds.
pub const CONT_DATA_SIZE: usize = 59;

/// Largest payload of one message: one initialization report and 128
/// continuations.
pub const MAX_PAYLOAD: usize = 7609;

/// The channel on which a new channel is asked for.
pub const BROADCAST_CHANNEL: u32 = 0xffff_ffff;

/// Bit of the command byte that marks an initialization report.
pub const CTAP_FRAME_INIT: u8 = 0x80;

pub const CTAPHID_PING: u8 = 0x81;

pub const CTAPHID_MSG: u8 = 0x83;

pub const CTAPHID_INIT: u8 = 0x86;

pub const CTAPHID_WINK: u8 = 0x88;

pub const CTAPHID_CBOR: u8 = 0x90;

pub const CTAPHID_CANCEL: u8 = 0x91;

/// Sent by the authenticator while it is busy; never part of a payload.
pub const CTAPHID_KEEPALIVE: u8 = 0xBB;

/// Sent by the authenticator in place of a response; carries one error code.
pub const CTAPHID_ERROR: u8 = 0xBF;

/// The four bytes of a channel id, high byte first.
pub open spec fn channel_bytes(cid: u32) -> Seq<u8> {
    seq![
        (cid / 0x100_0000) as u8,
        ((cid / 0x1_0000) % 0x100) as u8,
        ((cid / 0x100) % 0x100) as u8,
        (cid % 0x100) as u8,
    ]
}

/// The channel id that the first four bytes of a report spell.
pub open spec fn channel_of(report: Seq<u8>) -> int
    recommends
        report.len() >= 4,
{
    report[0] * 0x100_0000 + report[1] * 0x1_0000 + report[2] * 0x100 + report[3]
}

/// A window of `n` bytes of the payload from `from` on, with zeros where the
/// payload has ended.
pub open spec fn chunk(payload: Seq<u8>, from: int, n: nat) -> Seq<u8> {
    Seq::new(
        n,
        |i: int|
            if 0 <= from + i < payload.len() {
                payload[from + i]
            } else {
                0u8
            },
    )
}

/// The initialization report of a message.
pub open spec fn init_packet(cid: u32, command: u8, payload: Seq<u8>) -> Seq<u8> {
    channel_bytes(cid) + seq![
        command,
        (payload.len() / 0x100) as u8,
        (payload.len() % 0x100) as u8,
    ] + chunk(payload, 0, INIT_DATA_SIZE as nat)
}

/// The continuation report with sequence number `seq` of a message.
pub open spec fn cont_packet(cid: u32, seq: nat, payload: Seq<u8>) -> Seq<u8> {
    channel_bytes(cid) + seq![seq as u8] + chunk(
        payload,
        INIT_DATA_SIZE + seq * CONT_DATA_SIZE,
        CONT_DATA_SIZE as nat,
    )
}

/// Number of reports that a payload of `len` bytes takes.
pub open spec fn packet_count(len: nat) -> nat {
    if len <= INIT_DATA_SIZE {
        1
    } else {
        (1 + (len - INIT_DATA_SIZE + CONT_DATA_SIZE - 1) / (CONT_DATA_SIZE as int)) as nat
    }
}

/// The reports of a message, in the order in which they are sent.
pub open spec fn fragments(cid: u32, command: u8, payload: Seq<u8>) -> Seq<Seq<u8>> {
    Seq::new(
        packet_count(payload.len()),
        |i: int|
            if i == 0 {
                init_packet(cid, command, payload)
            } else {
                cont_packet(cid, (i - 1) as nat, payload)
            },
    )
}

/// A channel id is read back from its bytes, whatever follows them.
pub proof fn lemma_channel_round_trip(cid: u32, rest: Seq<u8>)
    ensures
        channel_of(channel_bytes(cid) + rest) == cid,
{
    let r = channel_bytes(cid) + rest;
    assert(r[0] == (cid / 0x100_0000) as u8);
    assert(r[1] == ((cid / 0x1_0000) % 0x100) as u8);
    assert(r[2] == ((cid / 0x100) % 0x100) as u8);
    assert(r[3] == (cid % 0x100) as u8);
}

/// Every report of a message has the fixed size and names the channel; the
/// first carries the command byte and the length, high byte first; each
/// further one carries its place in the sequence, counted from 0.
pub proof fn lemma_fragments_shape(cid: u32, command: u8, payload: Seq<u8>, i: int)
    requires
        payload.len() <= MAX_PAYLOAD,
        0 <= i < packet_count(payload.len()),
    ensures
        fragments(cid, command, payload)[i].len() == PACKET_SIZE,
        channel_of(fragments(cid, command, payload)[i]) == cid,
        i == 0 ==> fragments(cid, command, payload)[i][4] == command && fragments(
            cid,
            command,
            payload,
        )[i][5] * 0x100 + fragments(cid, command, payload)[i][6] == payload.len(),
        i > 0 ==> fragments(cid, command, payload)[i][4] == i - 1,
{
    let report = fragments(cid, command, payload)[i];
    if i == 0 {
        let tail = seq![command, (payload.len() / 0x100) as u8, (payload.len() % 0x100) as u8]
            + chunk(payload, 0, INIT_DATA_SIZE as nat);
        assert(report =~= channel_bytes(cid) + tail);
        lemma_channel_round_trip(cid, tail);
        assert(report[4] == command);
        assert(report[5] == (payload.len() / 0x100) as u8);
        assert(report[6] == (payload.len() % 0x100) as u8);
    } else {
        let seq = (i - 1) as nat;
        let tail = seq![seq as u8] + chunk(
            payload,
            INIT_DATA_SIZE + seq * CONT_DATA_SIZE,
            CONT_DATA_SIZE as nat,
        );
        assert(report =~= channel_bytes(cid) + tail);
        lemma_channel_round_trip(cid, tail);
        assert(report[4] == seq as u8);
    }
}

/// The contents of a list of reports.
pub open spec fn reports_view(reports: Seq<Vec<u8>>) -> Seq<Seq<u8>> {
    Seq::new(reports.len(), |i: int| reports[i]@)
}

fn push_channel(out: &mut Vec<u8>, cid: u32)
    ensures
        final(out)@ == old(out)@ + channel_bytes(cid),
{
    out.push((cid / 0x100_0000) as u8);
    out.push(((cid / 0x1_0000) % 0x100) as u8);
    out.push(((cid / 0x100) % 0x100) as u8);
    out.push((cid % 0x100) as u8);
    assert(out@ =~= old(out)@ + channel_bytes(cid));
}

fn push_chunk(out: &mut Vec<u8>, payload: &[u8], from: usize, n: usize)
    requires
        from + n <= usize::MAX,
    ensures
        final(out)@ == old(out)@ + chunk(payload@, from as int, n as nat),
{
    let mut i: usize = 0;
    while i < n
        invariant
            i <= n,
            from + n <= usize::MAX,
            out@ == old(out)@ + chunk(payload@, from as int, i as nat),
        decreases n - i,
    {
        let b: u8 = if from + i < payload.len() {
            payload[from + i]
        } else {
            0
        };
        out.push(b);
        assert(out@ =~= old(out)@ + chunk(payload@, from as int, (i + 1) as nat));
        i += 1;
    }
}

/// The reports of a message, where it can be sent: the command byte must
/// have the initialization bit, and the payload must fit.
pub open spec fn fragmented(cid: u32, command: u8, payload: Seq<u8>) -> Result<
    Seq<Seq<u8>>,
    FramingError,
> {
    if command < CTAP_FRAME_INIT {
        Err(FramingError::InvalidCommand)
    } else if payload.len() > MAX_PAYLOAD {
        Err(FramingError::PayloadTooLong)
    } else {
        Ok(fragments(cid, command, payload))
    }
}

/// Splits a message into its reports.
///
/// Fails with `InvalidCommand` where the command byte lacks the
/// initialization bit, else with `PayloadTooLong` where the payload exceeds
/// `MAX_PAYLOAD`.
pub fn fragment(cid: u32, command: u8, payload: &[u8]) -> (r: Result<Vec<Vec<u8>>, FramingError>)
    ensures
        match fragmented(cid, command, payload@) {
            Ok(all) => r matches Ok(reports) && reports_view(reports@) == all,
            Err(e) => r matches Err(x) && x == e,
        },
{
    if command < CTAP_FRAME_INIT {
        return Err(FramingError::InvalidCommand);
    }
    let len: usize = payload.len();
    if len > MAX_PAYLOAD {
        return Err(FramingError::PayloadTooLong);
    }
    let mut reports: Vec<Vec<u8>> = Vec::new();
    let mut first: Vec<u8> = Vec::new();
    push_channel(&mut first, cid);
    first.push(command);
    first.push((len / 0x100) as u8);
    first.push((len % 0x100) as u8);
    push_chunk(&mut first, payload, 0, INIT_DATA_SIZE);
    assert(first@ =~= init_packet(cid, command, payload@));
    reports.push(first);
    let mut seq: usize = 0;
    let mut offset: usize = INIT_DATA_SIZE;
    while offset < len
        invariant
            len == payload@.len(),
            len <= MAX_PAYLOAD,
            offset == INIT_DATA_SIZE + seq * CONT_DATA_SIZE,
            seq <= 128,
            reports@.len() == seq + 1,
            forall|j: int|
                0 <= j < reports@.len() ==> (#[trigger] reports@[j])@ == fragments(
                    cid,
                    command,
                    payload@,
                )[j],
            seq + 1 <= packet_count(len as nat),
        decreases len + CONT_DATA_SIZE - offset,
    {
        let mut next: Vec<u8> = Vec::new();
        push_channel(&mut next, cid);
        next.push(seq as u8);
        push_chunk(&mut next, payload, offset, CONT_DATA_SIZE);
        assert(next@ =~= cont_packet(cid, seq as nat, payload@));
        reports.push(next);
        seq += 1;
        offset += CONT_DATA_SIZE;
    }
    assert(reports@.len() == packet_count(len as nat));
    assert(reports_view(reports@) =~= fragments(cid, command, payload@));
    Ok(reports)
}

/// Length of the payload of a channel request: the nonce.
pub const INIT_NONCE_LEN: usize = 8;

/// Length of the payload of the reply to a channel request.
pub const INIT_REPLY_LEN: usize = 17;

/// The eight bytes of a nonce, high byte first.
pub open spec fn nonce_bytes(nonce: u64) -> Seq<u8> {
    seq![
        (nonce / 0x100_0000_0000_0000) as u8,
        ((nonce / 0x1_0000_0000_0000) % 0x100) as u8,
        ((nonce / 0x100_0000_0000) % 0x100) as u8,
        ((nonce / 0x1_0000_0000) % 0x100) as u8,
        ((nonce / 0x100_0000) % 0x100) as u8,
        ((nonce / 0x1_0000) % 0x100) as u8,
        ((nonce / 0x100) % 0x100) as u8,
        (nonce % 0x100) as u8,
    ]
}

/// The number that the first eight bytes spell, high byte first.
pub open spec fn nonce_of(payload: Seq<u8>) -> int
    recommends
        payload.len() >= INIT_NONCE_LEN,
{
    payload[0] * 0x100_0000_0000_0000 + payload[1] * 0x1_0000_0000_0000 + payload[2]
        * 0x100_0000_0000 + payload[3] * 0x1_0000_0000 + payload[4] * 0x100_0000 + payload[5]
        * 0x1_0000 + payload[6] * 0x100 + payload[7]
}

/// A nonce is read back from its bytes, whatever follows them.
pub proof fn lemma_nonce_round_trip(nonce: u64, rest: Seq<u8>)
    ensures
        nonce_of(nonce_bytes(nonce) + rest) == nonce,
{
    let p = nonce_bytes(nonce) + rest;
    let b0 = nonce / 0x100_0000_0000_0000;
    let b1 = (nonce / 0x1_0000_0000_0000) % 0x100;
    let b2 = (nonce / 0x100_0000_0000) % 0x100;
    let b3 = (nonce / 0x1_0000_0000) % 0x100;
    let b4 = (nonce / 0x100_0000) % 0x100;
    let b5 = (nonce / 0x1_0000) % 0x100;
    let b6 = (nonce / 0x100) % 0x100;
    let b7 = nonce % 0x100;
    assert(p[0] == b0 as u8 && p[1] == b1 as u8 && p[2] == b2 as u8 && p[3] == b3 as u8);
    assert(p[4] == b4 as u8 && p[5] == b5 as u8 && p[6] == b6 as u8 && p[7] == b7 as u8);
    assert(b0 < 0x100 && b0 * 0x100_0000_0000_0000 + b1 * 0x1_0000_0000_0000 + b2
        * 0x100_0000_0000 + b3 * 0x1_0000_0000 + b4 * 0x100_0000 + b5 * 0x1_0000 + b6 * 0x100
        + b7 == nonce) by (bit_vector)
        requires
            b0 == nonce / 0x100_0000_0000_0000,
            b1 == (nonce / 0x1_0000_0000_0000) % 0x100,
            b2 == (nonce / 0x100_0000_0000) % 0x100,
            b3 == (nonce / 0x1_0000_0000) % 0x100,
            b4 == (nonce / 0x100_0000) % 0x100,
            b5 == (nonce / 0x1_0000) % 0x100,
            b6 == (nonce / 0x100) % 0x100,
            b7 == nonce % 0x100,
    ;
}

/// The payload of a channel request: the nonce.
pub fn init_request(nonce: u64) -> (payload: Vec<u8>)
    ensures
        payload@ == nonce_bytes(nonce),
{
    let mut payload: Vec<u8> = Vec::new();
    payload.push((nonce / 0x100_0000_0000_0000) as u8);
    payload.push(((nonce / 0x1_0000_0000_0000) % 0x100) as u8);
    payload.push(((nonce / 0x100_0000_0000) % 0x100) as u8);
    payload.push(((nonce / 0x1_0000_0000) % 0x100) as u8);
    payload.push(((nonce / 0x100_0000) % 0x100) as u8);
    payload.push(((nonce / 0x1_0000) % 0x100) as u8);
    payload.push(((nonce / 0x100) % 0x100) as u8);
    payload.push((nonce % 0x100) as u8);
    assert(payload@ =~= nonce_bytes(nonce));
    payload
}

/// What the authenticator answers to a channel request.
#[derive(Debug, Clone, Copy, PartialEq, Eq, Structural)]
pub struct InitReply {
    /// The channel that the authenticator has assigned.
    pub channel: u32,
    pub protocol_version: u8,
    pub major_version: u8,
    pub minor_version: u8,
    pub build_version: u8,
    pub capabilities: u8,
}

/// The reply that a message stands for, as the answer to the channel
/// request with `nonce`.
///
/// The message must have the command byte of the channel request and a
/// payload of at least 17 bytes, and its first eight bytes must be the
/// nonce; else the reply may belong to somebody else's request and is
/// refused.
pub open spec fn init_reply_of(nonce: u64, command: u8, payload: Seq<u8>) -> Result<
    InitReply,
    FramingError,
> {
    if command != CTAPHID_INIT {
        Err(FramingError::InvalidCommand)
    } else if payload.len() < INIT_REPLY_LEN {
        Err(FramingError::LengthMismatch)
    } else if nonce_of(payload) != nonce {
        Err(FramingError::NonceMismatch)
    } else {
        Ok(
            InitReply {
                channel: (payload[8] * 0x100_0000 + payload[9] * 0x1_0000 + payload[10] * 0x100
                    + payload[11]) as u32,
                protocol_version: payload[12],
                major_version: payload[13],
                minor_version: payload[14],
                build_version: payload[15],
                capabilities: payload[16],
            },
        )
    }
}

/// Reads the reply to the channel request with `nonce`.
pub fn parse_init_reply(nonce: u64, command: u8, payload: &[u8]) -> (r: Result<
    InitReply,
    FramingError,
>)
    ensures
        r == init_reply_of(nonce, command, payload@),
{
    if command != CTAPHID_INIT {
        return Err(FramingError::InvalidCommand);
    }
    if payload.len() < INIT_REPLY_LEN {
        return Err(FramingError::LengthMismatch);
    }
    let high: u64 = payload[0] as u64 * 0x100_0000 + payload[1] as u64 * 0x1_0000 + payload[2] as u64
        * 0x100 + payload[3] as u64;
    let low: u64 = payload[4] as u64 * 0x100_0000 + payload[5] as u64 * 0x1_0000 + payload[6] as u64
        * 0x100 + payload[7] as u64;
    let echoed: u64 = high * 0x1_0000_0000 + low;
    if echoed != nonce {
        return Err(FramingError::NonceMismatch);
    }
    let channel: u32 = payload[8] as u32 * 0x100_0000 + payload[9] as u32 * 0x1_0000
        + payload[10] as u32 * 0x100 + payload[11] as u32;
    Ok(
        InitReply {
            channel,
            protocol_version: payload[12],
            major_version: payload[13],
            minor_version: payload[14],
            build_version: payload[15],
            capabilities: payload[16],
        },
    )
}

} // verus!
