//! The server role of the protocol, as a state machine.
//!
//! The router hands one inbound connection, already matched to this
//! protocol's identifier, to one run of this machine: the caller performs the
//! transport action the machine asks for, hands the outcome back as an event,
//! and the machine decides the next state and action. The machine starts in
//! [`ServerState::AwaitingStream`] with the action
//! [`ServerAction::AcceptStream`] and ends in [`ServerState::Done`], or in
//! [`ServerState::Failed`] with the reason. Each inbound connection gets an
//! independent run; a failed run is reported and does not disturb others.

use vstd::prelude::*;
use crate::wire::ping_payload_spec;

verus! {

/// Why servicing an inbound connection failed.
#[derive(Clone, Copy, Debug, PartialEq, Eq)]
pub enum AcceptError {
    /// The peer never opened a stream, or the connection errored first.
    Stream,
    /// A stream read or write failed, or the stream ended before a full
    /// request had arrived.
    Io,
    /// The peer sent bytes other than the fixed request payload.
    ProtocolViolation,
}

/// The server role's position inside one inbound exchange.
#[derive(Clone, Copy, Debug, PartialEq, Eq)]
pub enum ServerState {
    /// Accepting the one bidirectional stream the peer is to open.
    AwaitingStream,
    /// Reading until the expected request length has accumulated or the
    /// stream ends. The bytes read are validated the moment they arrive:
    /// only an exact match of the fixed request payload goes further.
    ReadingRequest,
    /// Writing the fixed response payload and half-closing the send side.
    /// The `received` counter moved when this state was entered, strictly
    /// before any response byte is written.
    WritingResponse,
    /// Waiting until the peer closes the connection: the peer read last and
    /// closes once it has the response, and the handler stays alive until
    /// then so the response cannot be torn down in flight.
    AwaitingClose,
    /// The exchange succeeded.
    Done,
    /// The exchange failed; it is reported to the router and no further
    /// action is taken on this connection.
    Failed { error: AcceptError },
}

/// What the transport reported back after the last action.
#[derive(Clone, Debug)]
pub enum ServerEvent {
    /// The peer's bidirectional stream was accepted.
    StreamAccepted,
    /// No stream could be accepted on this connection.
    StreamAcceptFailed,
    /// Reading finished; `data` holds everything received up to the peer's
    /// half-close.
    RequestRead { data: Vec<u8> },
    /// The read failed, or the stream ended early.
    ReadFailed,
    /// The response bytes were written and the send side half-closed.
    ResponseSent,
    /// The write or the half-close failed.
    SendFailed,
    /// The peer closed the connection.
    ConnectionClosed,
}

/// The transport action the caller is to perform next.
#[derive(Clone, Copy, Debug, PartialEq, Eq)]
pub enum ServerAction {
    /// Accept one bidirectional stream on the connection.
    AcceptStream,
    /// Read from the receive half until the expected request length has
    /// accumulated or the stream ends.
    ReadRequest,
    /// Write the fixed response payload, then half-close the send side.
    SendResponse,
    /// Wait until the peer closes the connection.
    AwaitClose,
    /// The exchange is over; report a failure to the router if one occurred.
    Stop,
}

/// The next state of the server machine.
///
/// A terminal state, or an event that does not answer the pending action,
/// leaves the state unchanged.
pub open spec fn server_next(s: ServerState, e: ServerEvent) -> ServerState {
    match (s, e) {
        (ServerState::AwaitingStream, ServerEvent::StreamAccepted) => ServerState::ReadingRequest,
        (ServerState::AwaitingStream, ServerEvent::StreamAcceptFailed) => ServerState::Failed {
            error: AcceptError::Stream,
        },
        (ServerState::ReadingRequest, ServerEvent::RequestRead { data }) => {
            if data@ == ping_payload_spec() {
                ServerState::WritingResponse
            } else {
                ServerState::Failed { error: AcceptError::ProtocolViolation }
            }
        },
        (ServerState::ReadingRequest, ServerEvent::ReadFailed) => ServerState::Failed {
            error: AcceptError::Io,
        },
        (ServerState::WritingResponse, ServerEvent::ResponseSent) => ServerState::AwaitingClose,
        (ServerState::WritingResponse, ServerEvent::SendFailed) => ServerState::Failed {
            error: AcceptError::Io,
        },
        (ServerState::AwaitingClose, ServerEvent::ConnectionClosed) => ServerState::Done,
        _ => s,
    }
}

/// The transport action that goes with the transition `server_next(s, e)`.
pub open spec fn server_action(s: ServerState, e: ServerEvent) -> ServerAction {
    match (s, e) {
        (ServerState::AwaitingStream, ServerEvent::StreamAccepted) => ServerAction::ReadRequest,
        (ServerState::ReadingRequest, ServerEvent::RequestRead { data }) => {
            if data@ == ping_payload_spec() {
                ServerAction::SendResponse
            } else {
                ServerAction::Stop
            }
        },
        (ServerState::WritingResponse, ServerEvent::ResponseSent) => ServerAction::AwaitClose,
        _ => ServerAction::Stop,
    }
}

/// True exactly on the transition that validates a request: a full read that
/// matches the fixed request payload while one was awaited. The `received`
/// counter moves by one on this transition and on no other.
pub open spec fn server_validates(s: ServerState, e: ServerEvent) -> bool {
    match (s, e) {
        (ServerState::ReadingRequest, ServerEvent::RequestRead { data }) => data@
            == ping_payload_spec(),
        _ => false,
    }
}

/// How far the `received` counter moves on one transition.
pub open spec fn server_recv_delta(s: ServerState, e: ServerEvent) -> nat {
    if server_validates(s, e) {
        1
    } else {
        0
    }
}

/// Whether the machine is past validation: the request was read, validated
/// and counted, and the response may be on the wire.
pub open spec fn server_past_validation(s: ServerState) -> bool {
    match s {
        ServerState::WritingResponse => true,
        ServerState::AwaitingClose => true,
        ServerState::Done => true,
        _ => false,
    }
}

/// Whether the exchange has failed.
pub open spec fn server_is_failed(s: ServerState) -> bool {
    s matches ServerState::Failed { .. }
}

/// The state after running the machine from `s` through `evs` in order.
pub open spec fn server_run(s: ServerState, evs: Seq<ServerEvent>) -> ServerState
    decreases evs.len(),
{
    if evs.len() == 0 {
        s
    } else {
        server_run(server_next(s, evs[0]), evs.drop_first())
    }
}

/// The total movement of the `received` counter over a run.
pub open spec fn server_run_recv(s: ServerState, evs: Seq<ServerEvent>) -> nat
    decreases evs.len(),
{
    if evs.len() == 0 {
        0
    } else {
        server_recv_delta(s, evs[0]) + server_run_recv(server_next(s, evs[0]), evs.drop_first())
    }
}

/// A response goes on the wire only for a validated request: the machine
/// asks for [`ServerAction::SendResponse`] on exactly one transition, the one
/// that read a full request equal to the fixed payload — so no response byte
/// is observable before the request is fully read and validated.
pub proof fn lemma_response_only_after_valid_request(s: ServerState, e: ServerEvent)
    ensures
        server_action(s, e) == ServerAction::SendResponse <==> server_validates(s, e),
        server_validates(s, e) ==> s == ServerState::ReadingRequest,
        server_validates(s, e) ==> server_recv_delta(s, e) == 1,
{
}

/// A terminal state absorbs: every further event leaves the state unchanged
/// and moves no counter.
proof fn lemma_server_terminal_absorbs(s: ServerState, evs: Seq<ServerEvent>)
    requires
        s == ServerState::Done || server_is_failed(s),
    ensures
        server_run(s, evs) == s,
        server_run_recv(s, evs) == 0,
    decreases evs.len(),
{
    if evs.len() > 0 {
        lemma_server_terminal_absorbs(server_next(s, evs[0]), evs.drop_first());
    }
}

/// Over any run that ends in success, the `received` counter moved exactly
/// once if the run began before validation, and not at all if it began after.
proof fn lemma_server_done_counts(s: ServerState, evs: Seq<ServerEvent>)
    requires
        server_run(s, evs) == ServerState::Done,
    ensures
        server_run_recv(s, evs) == (if server_past_validation(s) {
            0nat
        } else {
            1nat
        }),
    decreases evs.len(),
{
    if evs.len() > 0 {
        let s1 = server_next(s, evs[0]);
        if server_is_failed(s1) {
            lemma_server_terminal_absorbs(s1, evs.drop_first());
        } else {
            lemma_server_done_counts(s1, evs.drop_first());
        }
    }
}

/// A serviced ping moves the `received` counter by exactly one: any run of
/// the server machine from its start that ends in success has a total
/// counter movement of one.
pub proof fn lemma_completed_accept_counts_once(evs: Seq<ServerEvent>)
    requires
        server_run(ServerState::AwaitingStream, evs) == ServerState::Done,
    ensures
        server_run_recv(ServerState::AwaitingStream, evs) == 1,
{
    lemma_server_done_counts(ServerState::AwaitingStream, evs);
}

/// Once past validation, a run can no longer fail with a protocol violation
/// and moves the `received` counter no further.
proof fn lemma_server_after_validation(s: ServerState, evs: Seq<ServerEvent>)
    requires
        server_past_validation(s) || (s matches ServerState::Failed { error } && error
            != AcceptError::ProtocolViolation),
    ensures
        server_run(s, evs) != (ServerState::Failed { error: AcceptError::ProtocolViolation }),
        server_run_recv(s, evs) == 0,
    decreases evs.len(),
{
    if evs.len() > 0 {
        lemma_server_after_validation(server_next(s, evs[0]), evs.drop_first());
    }
}

/// Over any run that has not yet reached validation, a protocol-violation
/// outcome moved no counter.
proof fn lemma_server_rejected_counts(s: ServerState, evs: Seq<ServerEvent>)
    requires
        !server_past_validation(s),
        server_run(s, evs) == (ServerState::Failed { error: AcceptError::ProtocolViolation }),
    ensures
        server_run_recv(s, evs) == 0,
    decreases evs.len(),
{
    if evs.len() > 0 {
        let s1 = server_next(s, evs[0]);
        if server_validates(s, evs[0]) {
            lemma_server_after_validation(s1, evs.drop_first());
        } else {
            lemma_server_rejected_counts(s1, evs.drop_first());
        }
    }
}

/// A malformed peer is rejected without a trace on the counters: any run of
/// the server machine from its start that ends in a protocol violation — the
/// payload read was not the fixed request — moved the `received` counter not
/// at all, and the failure is a reported error, not a crash.
pub proof fn lemma_malformed_request_counts_nothing(evs: Seq<ServerEvent>)
    requires
        server_run(ServerState::AwaitingStream, evs) == (ServerState::Failed {
            error: AcceptError::ProtocolViolation,
        }),
    ensures
        server_run_recv(ServerState::AwaitingStream, evs) == 0,
{
    lemma_server_rejected_counts(ServerState::AwaitingStream, evs);
}

/// The total movement of the `received` counter over a sequence of
/// independent inbound exchanges, each run from the machine's start.
pub open spec fn total_recv(runs: Seq<Seq<ServerEvent>>) -> nat
    decreases runs.len(),
{
    if runs.len() == 0 {
        0
    } else {
        server_run_recv(ServerState::AwaitingStream, runs[0]) + total_recv(runs.drop_first())
    }
}

/// Many pings against one server count exactly, with no lost update: M
/// inbound exchanges on one instance, each of which succeeds, move the
/// `received` counter by exactly M in total.
pub proof fn lemma_many_accepts_count_exactly(runs: Seq<Seq<ServerEvent>>)
    requires
        forall|i: int|
            0 <= i < runs.len() ==> server_run(ServerState::AwaitingStream, #[trigger] runs[i])
                == ServerState::Done,
    ensures
        total_recv(runs) == runs.len(),
    decreases runs.len(),
{
    if runs.len() > 0 {
        assert(server_run(ServerState::AwaitingStream, runs[0]) == ServerState::Done);
        lemma_completed_accept_counts_once(runs[0]);
        assert forall|i: int| 0 <= i < runs.drop_first().len() implies server_run(
            ServerState::AwaitingStream,
            #[trigger] runs.drop_first()[i],
        ) == ServerState::Done by {
            assert(runs.drop_first()[i] == runs[i + 1]);
        }
        lemma_many_accepts_count_exactly(runs.drop_first());
    }
}

/// The state and the action an inbound exchange starts from: accept the
/// peer's stream first.
pub fn server_start() -> (r: (ServerState, ServerAction))
    ensures
        r.0 == ServerState::AwaitingStream,
        r.1 == ServerAction::AcceptStream,
{
    (ServerState::AwaitingStream, ServerAction::AcceptStream)
}

} // verus!
