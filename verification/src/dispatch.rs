//! One command round trip: open a channel, send the request, collect the
//! response.
//!
//! A `Transaction` decides; the caller acts. The caller writes the reports it
//! is handed, reads a report where it is told to, and hands back what it
//! read. Every command opens a channel of its own.

use crate::ctaphid::{
    fragment, fragmented, fragments, init_reply_of, init_request, nonce_bytes, nonce_of,
    parse_init_reply, reports_view, BROADCAST_CHANNEL, CTAPHID_INIT, CTAP_FRAME_INIT,
    INIT_REPLY_LEN, MAX_PAYLOAD,
};
use crate::error::{CtapError, FramingError};
use crate::receiver::{
    is_message_command, is_pending, lemma_fragment_reassemble, lemma_fragments_pending, rx_run,
    rx_start, rx_step, Receiver, RxModel,
};
use vstd::prelude::*;

verus! {

/// What the caller reports back.
#[derive(Debug, Clone, PartialEq, Eq)]
pub enum Event {
    /// A report was read.
    Report(Vec<u8>),
    /// A read or a write failed.
    TransportFailed,
}

/// An event as a mathematical value.
pub enum EventModel {
    Report(Seq<u8>),
    TransportFailed,
}

impl View for Event {
    type V = EventModel;

    open spec fn view(&self) -> EventModel {
        match *self {
            Event::Report(report) => EventModel::Report(report@),
            Event::TransportFailed => EventModel::TransportFailed,
        }
    }
}

/// What the caller is to do next.
#[derive(Debug, Clone, PartialEq, Eq)]
pub enum Action {
    /// Write these reports in order, then read a report.
    Send(Vec<Vec<u8>>),
    /// Read one more report.
    Read,
    /// Nothing more: the transaction is over.
    Stop,
}

/// An action as a mathematical value.
pub enum ActionModel {
    Send(Seq<Seq<u8>>),
    Read,
    Stop,
}

impl View for Action {
    type V = ActionModel;

    open spec fn view(&self) -> ActionModel {
        match *self {
            Action::Send(reports) => ActionModel::Send(reports_view(reports@)),
            Action::Read => ActionModel::Read,
            Action::Stop => ActionModel::Stop,
        }
    }
}

/// How far a round trip has come.
#[derive(Debug, PartialEq, Eq)]
pub enum Transaction {
    /// A channel was asked for; the reply is awaited on the broadcast
    /// channel.
    Opening { nonce: u64, command: u8, request: Vec<u8>, receiver: Receiver },
    /// The request was sent on the channel; the response is awaited.
    Exchanging { channel: u32, command: u8, receiver: Receiver },
    /// Over: with the response payload, or with the reason why there is
    /// none.
    Done(Result<Vec<u8>, CtapError>),
}

/// A transaction as a mathematical value.
pub enum TxModel {
    Opening { nonce: u64, command: u8, request: Seq<u8>, receiver: RxModel },
    Exchanging { channel: u32, command: u8, receiver: RxModel },
    Done(Result<Seq<u8>, CtapError>),
}

/// The outcome of a transaction as a mathematical value.
pub open spec fn outcome_view(outcome: Result<Vec<u8>, CtapError>) -> Result<Seq<u8>, CtapError> {
    match outcome {
        Ok(payload) => Ok(payload@),
        Err(e) => Err(e),
    }
}

impl View for Transaction {
    type V = TxModel;

    open spec fn view(&self) -> TxModel {
        match *self {
            Transaction::Opening { nonce, command, request, receiver } => TxModel::Opening {
                nonce,
                command,
                request: request@,
                receiver: receiver@,
            },
            Transaction::Exchanging { channel, command, receiver } => TxModel::Exchanging {
                channel,
                command,
                receiver: receiver@,
            },
            Transaction::Done(outcome) => TxModel::Done(outcome_view(outcome)),
        }
    }
}

/// A transaction that ended in a framing error.
pub open spec fn refused(e: FramingError) -> (TxModel, ActionModel) {
    (TxModel::Done(Err(CtapError::Framing(e))), ActionModel::Stop)
}

/// The first step: the request is checked before anything is written, then
/// a channel is asked for with the nonce.
pub open spec fn tx_start(nonce: u64, command: u8, request: Seq<u8>) -> (TxModel, ActionModel) {
    if command < CTAP_FRAME_INIT {
        refused(FramingError::InvalidCommand)
    } else if request.len() > MAX_PAYLOAD {
        refused(FramingError::PayloadTooLong)
    } else {
        (
            TxModel::Opening { nonce, command, request, receiver: rx_start() },
            ActionModel::Send(fragments(BROADCAST_CHANNEL, CTAPHID_INIT, nonce_bytes(nonce))),
        )
    }
}

/// The step after a report while the channel is awaited. Once the reply is
/// whole it must answer the nonce; then the request goes out on the channel
/// that the reply names.
pub open spec fn tx_opening(nonce: u64, command: u8, request: Seq<u8>, receiver: RxModel) -> (
    TxModel,
    ActionModel,
) {
    match receiver {
        RxModel::Complete { command: answered, payload } => match init_reply_of(
            nonce,
            answered,
            payload,
        ) {
            Err(e) => refused(e),
            Ok(reply) => match fragmented(reply.channel, command, request) {
                Err(e) => refused(e),
                Ok(reports) => (
                    TxModel::Exchanging { channel: reply.channel, command, receiver: rx_start() },
                    ActionModel::Send(reports),
                ),
            },
        },
        RxModel::Failed(e) => (TxModel::Done(Err(e)), ActionModel::Stop),
        _ => (TxModel::Opening { nonce, command, request, receiver }, ActionModel::Read),
    }
}

/// The step after a report while the response is awaited. Once the response
/// is whole it must carry the command byte of the request.
pub open spec fn tx_exchanging(channel: u32, command: u8, receiver: RxModel) -> (
    TxModel,
    ActionModel,
) {
    match receiver {
        RxModel::Complete { command: answered, payload } => if answered == command {
            (TxModel::Done(Ok(payload)), ActionModel::Stop)
        } else {
            refused(FramingError::InvalidCommand)
        },
        RxModel::Failed(e) => (TxModel::Done(Err(e)), ActionModel::Stop),
        _ => (TxModel::Exchanging { channel, command, receiver }, ActionModel::Read),
    }
}

/// The step that an event causes. A failure of the transport ends the
/// transaction; a report goes to the receiver of the phase; a transaction
/// that is over stays as it is.
pub open spec fn tx_step(state: TxModel, event: EventModel) -> (TxModel, ActionModel) {
    match state {
        TxModel::Done(_) => (state, ActionModel::Stop),
        TxModel::Opening { nonce, command, request, receiver } => match event {
            EventModel::TransportFailed => (
                TxModel::Done(Err(CtapError::Transport)),
                ActionModel::Stop,
            ),
            EventModel::Report(report) => tx_opening(
                nonce,
                command,
                request,
                rx_step(BROADCAST_CHANNEL, receiver, report),
            ),
        },
        TxModel::Exchanging { channel, command, receiver } => match event {
            EventModel::TransportFailed => (
                TxModel::Done(Err(CtapError::Transport)),
                ActionModel::Stop,
            ),
            EventModel::Report(report) => tx_exchanging(
                channel,
                command,
                rx_step(channel, receiver, report),
            ),
        },
    }
}

fn refuse(e: FramingError) -> (next: (Transaction, Action))
    ensures
        next.0@ == refused(e).0,
        next.1@ == refused(e).1,
{
    (Transaction::Done(Err(CtapError::Framing(e))), Action::Stop)
}

impl Transaction {
    /// Begins the round trip of one command.
    pub fn start(nonce: u64, command: u8, request: Vec<u8>) -> (next: (Transaction, Action))
        ensures
            next.0@ == tx_start(nonce, command, request@).0,
            next.1@ == tx_start(nonce, command, request@).1,
    {
        if command < CTAP_FRAME_INIT {
            return refuse(FramingError::InvalidCommand);
        }
        if request.len() > MAX_PAYLOAD {
            return refuse(FramingError::PayloadTooLong);
        }
        let asked = init_request(nonce);
        match fragment(BROADCAST_CHANNEL, CTAPHID_INIT, asked.as_slice()) {
            Ok(reports) => (
                Transaction::Opening { nonce, command, request, receiver: Receiver::new() },
                Action::Send(reports),
            ),
            Err(e) => refuse(e),
        }
    }

    fn opening(nonce: u64, command: u8, request: Vec<u8>, receiver: Receiver) -> (next: (
        Transaction,
        Action,
    ))
        ensures
            next.0@ == tx_opening(nonce, command, request@, receiver@).0,
            next.1@ == tx_opening(nonce, command, request@, receiver@).1,
    {
        match receiver {
            Receiver::Complete { command: answered, payload } => {
                match parse_init_reply(nonce, answered, payload.as_slice()) {
                    Err(e) => refuse(e),
                    Ok(reply) => match fragment(reply.channel, command, request.as_slice()) {
                        Err(e) => refuse(e),
                        Ok(reports) => (
                            Transaction::Exchanging {
                                channel: reply.channel,
                                command,
                                receiver: Receiver::new(),
                            },
                            Action::Send(reports),
                        ),
                    },
                }
            },
            Receiver::Failed(e) => (Transaction::Done(Err(e)), Action::Stop),
            Receiver::AwaitInit { keepalive } => (
                Transaction::Opening {
                    nonce,
                    command,
                    request,
                    receiver: Receiver::AwaitInit { keepalive },
                },
                Action::Read,
            ),
            Receiver::Collecting { command: heading, total, data, next_seq } => (
                Transaction::Opening {
                    nonce,
                    command,
                    request,
                    receiver: Receiver::Collecting { command: heading, total, data, next_seq },
                },
                Action::Read,
            ),
        }
    }

    fn exchanging(channel: u32, command: u8, receiver: Receiver) -> (next: (Transaction, Action))
        ensures
            next.0@ == tx_exchanging(channel, command, receiver@).0,
            next.1@ == tx_exchanging(channel, command, receiver@).1,
    {
        match receiver {
            Receiver::Complete { command: answered, payload } => {
                if answered == command {
                    (Transaction::Done(Ok(payload)), Action::Stop)
                } else {
                    refuse(FramingError::InvalidCommand)
                }
            },
            Receiver::Failed(e) => (Transaction::Done(Err(e)), Action::Stop),
            Receiver::AwaitInit { keepalive } => (
                Transaction::Exchanging {
                    channel,
                    command,
                    receiver: Receiver::AwaitInit { keepalive },
                },
                Action::Read,
            ),
            Receiver::Collecting { command: heading, total, data, next_seq } => (
                Transaction::Exchanging {
                    channel,
                    command,
                    receiver: Receiver::Collecting { command: heading, total, data, next_seq },
                },
                Action::Read,
            ),
        }
    }

    /// Takes what the caller reports and says what to do next.
    pub fn advance(self, event: Event) -> (next: (Transaction, Action))
        ensures
            next.0@ == tx_step(self@, event@).0,
            next.1@ == tx_step(self@, event@).1,
    {
        match self {
            Transaction::Done(outcome) => (Transaction::Done(outcome), Action::Stop),
            Transaction::Opening { nonce, command, request, receiver } => match event {
                Event::TransportFailed => (
                    Transaction::Done(Err(CtapError::Transport)),
                    Action::Stop,
                ),
                Event::Report(report) => {
                    let receiver = receiver.step(BROADCAST_CHANNEL, report.as_slice());
                    Transaction::opening(nonce, command, request, receiver)
                },
            },
            Transaction::Exchanging { channel, command, receiver } => match event {
                Event::TransportFailed => (
                    Transaction::Done(Err(CtapError::Transport)),
                    Action::Stop,
                ),
                Event::Report(report) => {
                    let receiver = receiver.step(channel, report.as_slice());
                    Transaction::exchanging(channel, command, receiver)
                },
            },
        }
    }

    /// The keep-alive status that the authenticator sent last, while the
    /// transaction waits for the first report of an answer.
    pub fn keepalive(&self) -> (status: Option<u8>)
        ensures
            status == (match self@ {
                TxModel::Opening { receiver: RxModel::AwaitInit { keepalive }, .. } => keepalive,
                TxModel::Exchanging { receiver: RxModel::AwaitInit { keepalive }, .. } => keepalive,
                _ => None,
            }),
    {
        match self {
            Transaction::Opening { receiver: Receiver::AwaitInit { keepalive }, .. } => *keepalive,
            Transaction::Exchanging { receiver: Receiver::AwaitInit { keepalive }, .. } => {
                *keepalive
            },
            _ => None,
        }
    }

    /// The outcome, once the transaction is over.
    pub fn finish(self) -> (r: Option<Result<Vec<u8>, CtapError>>)
        ensures
            match self@ {
                TxModel::Done(outcome) => r matches Some(found) && outcome_view(found) == outcome,
                _ => r is None,
            },
    {
        match self {
            Transaction::Done(outcome) => Some(outcome),
            _ => None,
        }
    }
}

/// The state after a list of reports, each handed over as it was read.
pub open spec fn tx_run(state: TxModel, reports: Seq<Seq<u8>>) -> TxModel
    decreases reports.len(),
{
    if reports.len() == 0 {
        state
    } else {
        tx_step(tx_run(state, reports.drop_last()), EventModel::Report(reports.last())).0
    }
}

proof fn lemma_run_concat(state: TxModel, first: Seq<Seq<u8>>, then: Seq<Seq<u8>>)
    ensures
        tx_run(state, first + then) == tx_run(tx_run(state, first), then),
    decreases then.len(),
{
    if then.len() == 0 {
        assert(first + then =~= first);
    } else {
        assert((first + then).drop_last() =~= first + then.drop_last());
        assert((first + then).last() == then.last());
        lemma_run_concat(state, first, then.drop_last());
    }
}

proof fn lemma_opening_run(nonce: u64, command: u8, request: Seq<u8>, reports: Seq<Seq<u8>>)
    requires
        forall|k: int|
            0 <= k < reports.len() ==> is_pending(
                #[trigger] rx_run(BROADCAST_CHANNEL, rx_start(), reports.take(k)),
            ),
    ensures
        tx_run(TxModel::Opening { nonce, command, request, receiver: rx_start() }, reports)
            == tx_opening(
            nonce,
            command,
            request,
            rx_run(BROADCAST_CHANNEL, rx_start(), reports),
        ).0,
    decreases reports.len(),
{
    if reports.len() > 0 {
        let rest = reports.drop_last();
        assert forall|k: int| 0 <= k < rest.len() implies is_pending(
            #[trigger] rx_run(BROADCAST_CHANNEL, rx_start(), rest.take(k)),
        ) by {
            assert(rest.take(k) =~= reports.take(k));
        }
        lemma_opening_run(nonce, command, request, rest);
        assert(rest =~= reports.take(reports.len() - 1));
        assert(is_pending(rx_run(BROADCAST_CHANNEL, rx_start(), reports.take(reports.len() - 1))));
    }
}

proof fn lemma_exchanging_run(channel: u32, command: u8, reports: Seq<Seq<u8>>)
    requires
        forall|k: int|
            0 <= k < reports.len() ==> is_pending(
                #[trigger] rx_run(channel, rx_start(), reports.take(k)),
            ),
    ensures
        tx_run(TxModel::Exchanging { channel, command, receiver: rx_start() }, reports)
            == tx_exchanging(channel, command, rx_run(channel, rx_start(), reports)).0,
    decreases reports.len(),
{
    if reports.len() > 0 {
        let rest = reports.drop_last();
        assert forall|k: int| 0 <= k < rest.len() implies is_pending(
            #[trigger] rx_run(channel, rx_start(), rest.take(k)),
        ) by {
            assert(rest.take(k) =~= reports.take(k));
        }
        lemma_exchanging_run(channel, command, rest);
        assert(rest =~= reports.take(reports.len() - 1));
        assert(is_pending(rx_run(channel, rx_start(), reports.take(reports.len() - 1))));
    }
}

/// A round trip with an authenticator that keeps to the protocol ends in
/// the response.
///
/// The authenticator answers the channel request with a reply that echoes
/// the nonce and names a channel, and then answers the request, on that
/// channel and under the request's command byte, with the response. Handed
/// the reports of both answers in order, the transaction ends with exactly
/// the payload of the response.
pub proof fn lemma_round_trip(
    nonce: u64,
    command: u8,
    request: Seq<u8>,
    reply: Seq<u8>,
    response: Seq<u8>,
)
    requires
        is_message_command(command),
        request.len() <= MAX_PAYLOAD,
        response.len() <= MAX_PAYLOAD,
        INIT_REPLY_LEN <= reply.len() <= MAX_PAYLOAD,
        nonce_of(reply) == nonce,
    ensures
        init_reply_of(nonce, CTAPHID_INIT, reply) matches Ok(named) && tx_run(
            tx_start(nonce, command, request).0,
            fragments(BROADCAST_CHANNEL, CTAPHID_INIT, reply) + fragments(
                named.channel,
                command,
                response,
            ),
        ) == TxModel::Done(Ok(response)),
{
    let named = init_reply_of(nonce, CTAPHID_INIT, reply)->Ok_0;
    let first = fragments(BROADCAST_CHANNEL, CTAPHID_INIT, reply);
    let then = fragments(named.channel, command, response);
    assert forall|k: int| 0 <= k < first.len() implies is_pending(
        #[trigger] rx_run(BROADCAST_CHANNEL, rx_start(), first.take(k)),
    ) by {
        lemma_fragments_pending(BROADCAST_CHANNEL, CTAPHID_INIT, reply, k as nat);
    }
    assert forall|k: int| 0 <= k < then.len() implies is_pending(
        #[trigger] rx_run(named.channel, rx_start(), then.take(k)),
    ) by {
        lemma_fragments_pending(named.channel, command, response, k as nat);
    }
    lemma_fragment_reassemble(BROADCAST_CHANNEL, CTAPHID_INIT, reply);
    lemma_fragment_reassemble(named.channel, command, response);
    lemma_opening_run(nonce, command, request, first);
    lemma_exchanging_run(named.channel, command, then);
    lemma_run_concat(tx_start(nonce, command, request).0, first, then);
}

} // verus!
