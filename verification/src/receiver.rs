//! Reassembly of a response from the reports that carry it.
//!
//! A `Receiver` takes the reports one at a time, in the order in which they
//! were read, and ends in the whole message or in the reason why there is
//! none. It never waits and never reads: the caller does.

use crate::ctaphid::{
    channel_bytes, channel_of, chunk, cont_packet, fragments, init_packet,
    lemma_channel_round_trip, packet_count, reports_view, CONT_DATA_SIZE, CTAPHID_ERROR, CTAPHID_KEEPALIVE, CTAP_FRAME_INIT,
    INIT_DATA_SIZE, MAX_PAYLOAD, PACKET_SIZE,
};
use crate::bytes::{append_range, copy_range};
use crate::error::{CtapError, FramingError};
use vstd::prelude::*;

verus! {

/// A command byte and the payload that came with it.
#[derive(Debug, Clone, PartialEq, Eq)]
pub struct Message {
    pub command: u8,
    pub payload: Vec<u8>,
}

/// What a receiver has seen so far, as a mathematical value.
pub enum RxModel {
    /// Nothing of the response yet. `keepalive` is the status of the last
    /// keep-alive report, if the authenticator sent one.
    AwaitInit { keepalive: Option<u8> },
    /// The initialization report and `next_seq` continuations.
    Collecting { command: u8, total: nat, data: Seq<u8>, next_seq: nat },
    /// The whole message.
    Complete { command: u8, payload: Seq<u8> },
    /// The response is lost.
    Failed(CtapError),
}

/// The state after the first report of a response.
pub open spec fn rx_first(report: Seq<u8>) -> RxModel
    recommends
        report.len() == PACKET_SIZE,
{
    let command = report[4];
    let total = report[5] * 0x100 + report[6];
    if command < CTAP_FRAME_INIT {
        RxModel::Failed(CtapError::Framing(FramingError::SequenceMismatch))
    } else if command == CTAPHID_KEEPALIVE {
        RxModel::AwaitInit { keepalive: Some(report[7]) }
    } else if command == CTAPHID_ERROR {
        RxModel::Failed(CtapError::Protocol(report[7]))
    } else if total > MAX_PAYLOAD {
        RxModel::Failed(CtapError::Framing(FramingError::LengthMismatch))
    } else if total <= INIT_DATA_SIZE {
        RxModel::Complete { command, payload: report.subrange(7, 7 + total) }
    } else {
        RxModel::Collecting {
            command,
            total: total as nat,
            data: report.subrange(7, PACKET_SIZE as int),
            next_seq: 0,
        }
    }
}

/// The state after a further report of a response that has begun.
pub open spec fn rx_next(
    command: u8,
    total: nat,
    data: Seq<u8>,
    next_seq: nat,
    report: Seq<u8>,
) -> RxModel
    recommends
        report.len() == PACKET_SIZE,
{
    let missing = total - data.len();
    let n = if missing < CONT_DATA_SIZE {
        missing
    } else {
        CONT_DATA_SIZE as int
    };
    if report[4] >= CTAP_FRAME_INIT || report[4] != next_seq {
        RxModel::Failed(CtapError::Framing(FramingError::SequenceMismatch))
    } else if missing <= 0 {
        RxModel::Failed(CtapError::Framing(FramingError::LengthMismatch))
    } else if missing <= CONT_DATA_SIZE {
        RxModel::Complete { command, payload: data + report.subrange(5, 5 + n) }
    } else if next_seq >= 127 {
        RxModel::Failed(CtapError::Framing(FramingError::LengthMismatch))
    } else {
        RxModel::Collecting {
            command,
            total,
            data: data + report.subrange(5, 5 + n),
            next_seq: next_seq + 1,
        }
    }
}

/// The state after one more report on channel `cid`.
///
/// A finished receiver stays as it is. Otherwise the report must have the
/// fixed size and belong to the channel. Before the response has begun, a
/// keep-alive report is noted and waited out, an error report ends the
/// response with the authenticator's code, and any other initialization
/// report begins the response. After that only the continuation with the
/// next sequence number is accepted.
pub open spec fn rx_step(cid: u32, state: RxModel, report: Seq<u8>) -> RxModel {
    match state {
        RxModel::Complete { .. } => state,
        RxModel::Failed(_) => state,
        RxModel::AwaitInit { .. } => {
            if report.len() != PACKET_SIZE {
                RxModel::Failed(CtapError::Framing(FramingError::ReportSize))
            } else if channel_of(report) != cid {
                RxModel::Failed(CtapError::Framing(FramingError::ChannelMismatch))
            } else {
                rx_first(report)
            }
        },
        RxModel::Collecting { command, total, data, next_seq } => {
            if report.len() != PACKET_SIZE {
                RxModel::Failed(CtapError::Framing(FramingError::ReportSize))
            } else if channel_of(report) != cid {
                RxModel::Failed(CtapError::Framing(FramingError::ChannelMismatch))
            } else {
                rx_next(command, total, data, next_seq, report)
            }
        },
    }
}

/// The state after a list of reports, taken in order.
pub open spec fn rx_run(cid: u32, start: RxModel, reports: Seq<Seq<u8>>) -> RxModel
    decreases reports.len(),
{
    if reports.len() == 0 {
        start
    } else {
        rx_step(cid, rx_run(cid, start, reports.drop_last()), reports.last())
    }
}

/// The state of a receiver that has seen nothing.
pub open spec fn rx_start() -> RxModel {
    RxModel::AwaitInit { keepalive: None }
}

/// The message that a list of reports holds: what a fresh receiver ends in.
/// A list that stops before the message is whole is a length mismatch.
pub open spec fn reassembled(cid: u32, reports: Seq<Seq<u8>>) -> Result<(u8, Seq<u8>), CtapError> {
    match rx_run(cid, rx_start(), reports) {
        RxModel::Complete { command, payload } => Ok((command, payload)),
        RxModel::Failed(e) => Err(e),
        _ => Err(CtapError::Framing(FramingError::LengthMismatch)),
    }
}

/// What has been received of one response.
#[derive(Debug, Clone, PartialEq, Eq)]
pub enum Receiver {
    /// Nothing of the response yet. `keepalive` is the status of the last
    /// keep-alive report, if the authenticator sent one.
    AwaitInit { keepalive: Option<u8> },
    /// The initialization report and `next_seq` continuations.
    Collecting { command: u8, total: usize, data: Vec<u8>, next_seq: u8 },
    /// The whole message.
    Complete { command: u8, payload: Vec<u8> },
    /// The response is lost.
    Failed(CtapError),
}

impl View for Receiver {
    type V = RxModel;

    open spec fn view(&self) -> RxModel {
        match *self {
            Receiver::AwaitInit { keepalive } => RxModel::AwaitInit { keepalive },
            Receiver::Collecting { command, total, data, next_seq } => RxModel::Collecting {
                command,
                total: total as nat,
                data: data@,
                next_seq: next_seq as nat,
            },
            Receiver::Complete { command, payload } => RxModel::Complete {
                command,
                payload: payload@,
            },
            Receiver::Failed(e) => RxModel::Failed(e),
        }
    }
}

fn on_channel(report: &[u8], cid: u32) -> (r: bool)
    requires
        report@.len() >= 4,
    ensures
        r == (channel_of(report@) == cid),
{
    let b0: u32 = report[0] as u32;
    let b1: u32 = report[1] as u32;
    let b2: u32 = report[2] as u32;
    let b3: u32 = report[3] as u32;
    b0 * 0x100_0000 + b1 * 0x1_0000 + b2 * 0x100 + b3 == cid
}

impl Receiver {
    /// A receiver that has seen nothing.
    pub fn new() -> (r: Receiver)
        ensures
            r@ == rx_start(),
    {
        Receiver::AwaitInit { keepalive: None }
    }

    fn first(report: &[u8]) -> (next: Receiver)
        requires
            report@.len() == PACKET_SIZE,
        ensures
            next@ == rx_first(report@),
    {
        let command: u8 = report[4];
        let total: usize = report[5] as usize * 0x100 + report[6] as usize;
        if command < CTAP_FRAME_INIT {
            Receiver::Failed(CtapError::Framing(FramingError::SequenceMismatch))
        } else if command == CTAPHID_KEEPALIVE {
            Receiver::AwaitInit { keepalive: Some(report[7]) }
        } else if command == CTAPHID_ERROR {
            Receiver::Failed(CtapError::Protocol(report[7]))
        } else if total > MAX_PAYLOAD {
            Receiver::Failed(CtapError::Framing(FramingError::LengthMismatch))
        } else if total <= INIT_DATA_SIZE {
            Receiver::Complete { command, payload: copy_range(report, 7, 7 + total) }
        } else {
            Receiver::Collecting {
                command,
                total,
                data: copy_range(report, 7, PACKET_SIZE),
                next_seq: 0,
            }
        }
    }

    fn next(command: u8, total: usize, data: Vec<u8>, next_seq: u8, report: &[u8]) -> (next:
        Receiver)
        requires
            report@.len() == PACKET_SIZE,
        ensures
            next@ == rx_next(command, total as nat, data@, next_seq as nat, report@),
    {
        if report[4] >= CTAP_FRAME_INIT || report[4] != next_seq {
            return Receiver::Failed(CtapError::Framing(FramingError::SequenceMismatch));
        }
        if data.len() >= total {
            return Receiver::Failed(CtapError::Framing(FramingError::LengthMismatch));
        }
        let missing: usize = total - data.len();
        let mut data = data;
        if missing <= CONT_DATA_SIZE {
            append_range(&mut data, report, 5, 5 + missing);
            Receiver::Complete { command, payload: data }
        } else if next_seq >= 127 {
            Receiver::Failed(CtapError::Framing(FramingError::LengthMismatch))
        } else {
            append_range(&mut data, report, 5, 5 + CONT_DATA_SIZE);
            Receiver::Collecting { command, total, data, next_seq: next_seq + 1 }
        }
    }

    /// Takes one more report on channel `cid`.
    pub fn step(self, cid: u32, report: &[u8]) -> (next: Receiver)
        ensures
            next@ == rx_step(cid, self@, report@),
    {
        match self {
            Receiver::Complete { command, payload } => Receiver::Complete { command, payload },
            Receiver::Failed(e) => Receiver::Failed(e),
            Receiver::AwaitInit { keepalive } => {
                if report.len() != PACKET_SIZE {
                    Receiver::Failed(CtapError::Framing(FramingError::ReportSize))
                } else if !on_channel(report, cid) {
                    Receiver::Failed(CtapError::Framing(FramingError::ChannelMismatch))
                } else {
                    Receiver::first(report)
                }
            },
            Receiver::Collecting { command, total, data, next_seq } => {
                if report.len() != PACKET_SIZE {
                    Receiver::Failed(CtapError::Framing(FramingError::ReportSize))
                } else if !on_channel(report, cid) {
                    Receiver::Failed(CtapError::Framing(FramingError::ChannelMismatch))
                } else {
                    Receiver::next(command, total, data, next_seq, report)
                }
            },
        }
    }

    /// Whether the receiver still waits for a report.
    pub fn is_pending(&self) -> (r: bool)
        ensures
            r == (self@ is AwaitInit || self@ is Collecting),
    {
        match self {
            Receiver::AwaitInit { .. } => true,
            Receiver::Collecting { .. } => true,
            _ => false,
        }
    }

    /// The message, once it is whole; the failure, once there is one; a
    /// length mismatch while the receiver still waits.
    pub fn finish(self) -> (r: Result<Message, CtapError>)
        ensures
            match self@ {
                RxModel::Complete { command, payload } => r matches Ok(m) && m.command == command
                    && m.payload@ == payload,
                RxModel::Failed(e) => r matches Err(x) && x == e,
                _ => r matches Err(x) && x == CtapError::Framing(FramingError::LengthMismatch),
            },
    {
        match self {
            Receiver::Complete { command, payload } => Ok(Message { command, payload }),
            Receiver::Failed(e) => Err(e),
            _ => Err(CtapError::Framing(FramingError::LengthMismatch)),
        }
    }
}

/// Puts a message together from all its reports on channel `cid`.
pub fn reassemble(cid: u32, reports: &Vec<Vec<u8>>) -> (r: Result<Message, CtapError>)
    ensures
        match reassembled(cid, reports_view(reports@)) {
            Ok((command, payload)) => r matches Ok(m) && m.command == command && m.payload@
                == payload,
            Err(e) => r matches Err(x) && x == e,
        },
{
    let mut state = Receiver::new();
    let mut i: usize = 0;
    let ghost all = reports_view(reports@);
    assert(all.take(0) =~= Seq::<Seq<u8>>::empty());
    while i < reports.len()
        invariant
            i <= reports.len(),
            all == reports_view(reports@),
            state@ == rx_run(cid, rx_start(), all.take(i as int)),
        decreases reports.len() - i,
    {
        proof {
            assert(all.take(i + 1).drop_last() =~= all.take(i as int));
            assert(all.take(i + 1).last() == reports@[i as int]@);
        }
        state = state.step(cid, reports[i].as_slice());
        i += 1;
    }
    assert(all.take(i as int) =~= all);
    state.finish()
}

/// Whether a command byte can head a message that is to be reassembled: it
/// has the initialization bit and is neither keep-alive nor error, which a
/// receiver consumes by themselves.
pub open spec fn is_message_command(command: u8) -> bool {
    command >= CTAP_FRAME_INIT && command != CTAPHID_KEEPALIVE && command != CTAPHID_ERROR
}

/// Number of payload bytes that the first `count` reports of a message hold
/// room for.
pub open spec fn capacity(count: nat) -> int {
    INIT_DATA_SIZE + (count - 1) * CONT_DATA_SIZE
}

proof fn lemma_first_report(cid: u32, command: u8, payload: Seq<u8>)
    requires
        payload.len() <= MAX_PAYLOAD,
        is_message_command(command),
    ensures
        rx_step(cid, rx_start(), init_packet(cid, command, payload)) == (if payload.len()
            <= INIT_DATA_SIZE {
            RxModel::Complete { command, payload }
        } else {
            RxModel::Collecting {
                command,
                total: payload.len(),
                data: payload.take(INIT_DATA_SIZE as int),
                next_seq: 0,
            }
        }),
{
    let report = init_packet(cid, command, payload);
    let tail = seq![command, (payload.len() / 0x100) as u8, (payload.len() % 0x100) as u8]
        + chunk(payload, 0, INIT_DATA_SIZE as nat);
    assert(report =~= channel_bytes(cid) + tail);
    lemma_channel_round_trip(cid, tail);
    assert(report.len() == PACKET_SIZE);
    assert(report[4] == command);
    assert(report[5] * 0x100 + report[6] == payload.len());
    if payload.len() <= INIT_DATA_SIZE {
        assert(report.subrange(7, 7 + payload.len() as int) =~= payload);
    } else {
        assert(report.subrange(7, PACKET_SIZE as int) =~= payload.take(INIT_DATA_SIZE as int));
    }
}

proof fn lemma_next_report(cid: u32, command: u8, payload: Seq<u8>, seq: nat)
    requires
        payload.len() <= MAX_PAYLOAD,
        capacity(seq + 1) < payload.len(),
    ensures
        seq <= 127,
        rx_step(
            cid,
            RxModel::Collecting {
                command,
                total: payload.len(),
                data: payload.take(capacity(seq + 1)),
                next_seq: seq,
            },
            cont_packet(cid, seq, payload),
        ) == (if payload.len() <= capacity(seq + 2) {
            RxModel::Complete { command, payload }
        } else {
            RxModel::Collecting {
                command,
                total: payload.len(),
                data: payload.take(capacity(seq + 2)),
                next_seq: seq + 1,
            }
        }),
{
    let report = cont_packet(cid, seq, payload);
    let from = capacity(seq + 1);
    let tail = seq![seq as u8] + chunk(payload, from, CONT_DATA_SIZE as nat);
    assert(report =~= channel_bytes(cid) + tail);
    lemma_channel_round_trip(cid, tail);
    assert(report.len() == PACKET_SIZE);
    assert(report[4] == seq as u8);
    let data = payload.take(from);
    let missing = payload.len() - from;
    if missing <= CONT_DATA_SIZE {
        assert(data + report.subrange(5, 5 + missing) =~= payload);
    } else {
        assert(data + report.subrange(5, 5 + CONT_DATA_SIZE) =~= payload.take(
            capacity(seq + 2),
        ));
    }
}

proof fn lemma_run_prefix(cid: u32, command: u8, payload: Seq<u8>, count: nat)
    requires
        payload.len() <= MAX_PAYLOAD,
        is_message_command(command),
        1 <= count <= packet_count(payload.len()),
    ensures
        rx_run(cid, rx_start(), fragments(cid, command, payload).take(count as int)) == (
        if payload.len() <= capacity(count) {
            RxModel::Complete { command, payload }
        } else {
            RxModel::Collecting {
                command,
                total: payload.len(),
                data: payload.take(capacity(count)),
                next_seq: (count - 1) as nat,
            }
        }),
    decreases count,
{
    let all = fragments(cid, command, payload);
    let prefix = all.take(count as int);
    assert(prefix.last() == all[count - 1]);
    if count == 1 {
        assert(prefix.drop_last() =~= Seq::<Seq<u8>>::empty());
        assert(rx_run(cid, rx_start(), prefix.drop_last()) == rx_start());
        lemma_first_report(cid, command, payload);
    } else {
        assert(prefix.drop_last() =~= all.take(count - 1));
        lemma_run_prefix(cid, command, payload, (count - 1) as nat);
        assert(capacity((count - 1) as nat) < payload.len());
        lemma_next_report(cid, command, payload, (count - 2) as nat);
    }
}

/// A message that is put together has the length that its first report
/// declared: the first report ends the message only with exactly the bytes
/// it declares, and a later report only when it brings the total to what
/// was declared.
pub proof fn lemma_complete_has_declared_length(cid: u32, state: RxModel, report: Seq<u8>)
    requires
        rx_step(cid, state, report) is Complete,
        !(state is Complete),
    ensures
        state matches RxModel::AwaitInit { .. } ==> rx_step(cid, state, report)->payload.len()
            == report[5] * 0x100 + report[6],
        state matches RxModel::Collecting { total, data, .. } ==> data.len() < total && rx_step(
            cid,
            state,
            report,
        )->payload.len() == total,
{
}

/// Whether a receiver still waits for a report.
pub open spec fn is_pending(state: RxModel) -> bool {
    state is AwaitInit || state is Collecting
}

/// Before the last report of a message has come, the receiver still waits.
pub proof fn lemma_fragments_pending(cid: u32, command: u8, payload: Seq<u8>, count: nat)
    requires
        payload.len() <= MAX_PAYLOAD,
        is_message_command(command),
        count < packet_count(payload.len()),
    ensures
        is_pending(rx_run(cid, rx_start(), fragments(cid, command, payload).take(count as int))),
{
    let all = fragments(cid, command, payload);
    if count == 0 {
        assert(all.take(0) =~= Seq::<Seq<u8>>::empty());
    } else {
        lemma_run_prefix(cid, command, payload, count);
        assert(capacity(count) < payload.len());
    }
}

/// Round trip of the framing layer: the reports that `fragment` makes of a
/// message reassemble, on the same channel, into that message.
///
/// It holds of every payload that fits a message and of every command byte
/// that can head one.
pub proof fn lemma_fragment_reassemble(cid: u32, command: u8, payload: Seq<u8>)
    requires
        payload.len() <= MAX_PAYLOAD,
        is_message_command(command),
    ensures
        reassembled(cid, fragments(cid, command, payload)) == Ok::<(u8, Seq<u8>), CtapError>(
            (command, payload),
        ),
{
    let all = fragments(cid, command, payload);
    let count = packet_count(payload.len());
    assert(all.take(count as int) =~= all);
    lemma_run_prefix(cid, command, payload, count);
    assert(payload.len() <= capacity(count));
}

} // verus!
