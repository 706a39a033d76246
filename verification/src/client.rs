//! The client role of the protocol, as a state machine.
//!
//! One outbound ping is one run of this machine: the caller performs the
//! transport action the machine asks for, hands the outcome back as an event,
//! and the machine decides the next state and action. The machine starts in
//! [`ClientState::Connecting`] with the action [`ClientAction::Connect`] and
//! ends in [`ClientState::Done`] with the measured round trip, or in
//! [`ClientState::Failed`] with the reason.

use vstd::prelude::*;
use crate::wire::pong_payload_spec;

verus! {

/// Why a client exchange failed.
#[derive(Clone, Copy, Debug, PartialEq, Eq)]
pub enum PingError {
    /// The transport could not establish or negotiate the connection.
    Connection,
    /// The transport could not open a bidirectional stream.
    Stream,
    /// A stream read or write failed, or the stream ended before a full
    /// response had arrived.
    Io,
    /// The peer answered with bytes other than the fixed response payload.
    ProtocolViolation,
}

/// The client role's position inside one exchange.
///
/// Instants are scalar readings of the caller's monotonic clock; their unit is
/// the caller's choice and only differences of them are ever taken.
#[derive(Clone, Copy, Debug, PartialEq, Eq)]
pub enum ClientState {
    /// Connecting to the remote address, negotiating the protocol identifier.
    Connecting,
    /// Opening one bidirectional stream on the connection.
    OpeningStream,
    /// Writing the fixed request payload and half-closing the send side.
    /// `start` is the instant recorded after the stream opened and before the
    /// request bytes began transmission: the round trip's start point.
    SendingRequest { start: u64 },
    /// Reading until the expected response length has accumulated or the
    /// stream ends.
    AwaitingResponse { start: u64 },
    /// The exchange succeeded: the response validated and the `sent` counter
    /// moved. `rtt` is the measured round-trip duration.
    Done { rtt: u64 },
    /// The exchange failed; the `sent` counter did not move for it.
    Failed { error: PingError },
}

/// What the transport reported back after the last action.
#[derive(Clone, Debug)]
pub enum ClientEvent {
    /// The connection was established and the identifier negotiated.
    Connected,
    /// The transport could not establish or negotiate the connection.
    ConnectFailed,
    /// The bidirectional stream opened; `now` is the instant sampled right
    /// after, which becomes the round trip's start point.
    StreamOpened { now: u64 },
    /// The transport could not open the stream.
    StreamOpenFailed,
    /// The request bytes were written and the send side half-closed.
    RequestSent,
    /// The write or the half-close failed.
    SendFailed,
    /// Reading finished; `data` holds everything received up to the peer's
    /// half-close, `now` the instant the full response was in hand.
    ResponseRead { data: Vec<u8>, now: u64 },
    /// The read failed, or the stream ended early.
    ReadFailed,
}

/// The transport action the caller is to perform next.
#[derive(Clone, Copy, Debug, PartialEq, Eq)]
pub enum ClientAction {
    /// Connect to the remote address, negotiating the protocol identifier.
    Connect,
    /// Open one bidirectional stream on the connection.
    OpenStream,
    /// Write the fixed request payload, then half-close the send side.
    SendRequest,
    /// Read from the receive half until the expected response length has
    /// accumulated or the stream ends.
    ReadResponse,
    /// Close the connection with the given error code and the fixed reason
    /// bytes: the client read last and knows the exchange is over.
    CloseConnection { code: u64 },
    /// The exchange is over; nothing further to do.
    Stop,
}

/// The round-trip duration between two clock readings.
///
/// A monotonic clock never runs backwards, so the second branch is never
/// taken by a well-behaved caller; it makes the measurement total.
pub open spec fn duration_between(start: u64, now: u64) -> u64 {
    if now >= start {
        (now - start) as u64
    } else {
        0
    }
}

/// The next state of the client machine.
///
/// A terminal state, or an event that does not answer the pending action,
/// leaves the state unchanged.
pub open spec fn client_next(s: ClientState, e: ClientEvent) -> ClientState {
    match (s, e) {
        (ClientState::Connecting, ClientEvent::Connected) => ClientState::OpeningStream,
        (ClientState::Connecting, ClientEvent::ConnectFailed) => ClientState::Failed {
            error: PingError::Connection,
        },
        (ClientState::OpeningStream, ClientEvent::StreamOpened { now }) => ClientState::SendingRequest {
            start: now,
        },
        (ClientState::OpeningStream, ClientEvent::StreamOpenFailed) => ClientState::Failed {
            error: PingError::Stream,
        },
        (ClientState::SendingRequest { start }, ClientEvent::RequestSent) => ClientState::AwaitingResponse {
            start,
        },
        (ClientState::SendingRequest { .. }, ClientEvent::SendFailed) => ClientState::Failed {
            error: PingError::Io,
        },
        (ClientState::AwaitingResponse { start }, ClientEvent::ResponseRead { data, now }) => {
            if data@ == pong_payload_spec() {
                ClientState::Done { rtt: duration_between(start, now) }
            } else {
                ClientState::Failed { error: PingError::ProtocolViolation }
            }
        },
        (ClientState::AwaitingResponse { .. }, ClientEvent::ReadFailed) => ClientState::Failed {
            error: PingError::Io,
        },
        _ => s,
    }
}

/// The transport action that goes with the transition `client_next(s, e)`.
pub open spec fn client_action(s: ClientState, e: ClientEvent) -> ClientAction {
    match (s, e) {
        (ClientState::Connecting, ClientEvent::Connected) => ClientAction::OpenStream,
        (ClientState::OpeningStream, ClientEvent::StreamOpened { .. }) => ClientAction::SendRequest,
        (ClientState::SendingRequest { .. }, ClientEvent::RequestSent) => ClientAction::ReadResponse,
        (ClientState::AwaitingResponse { .. }, ClientEvent::ResponseRead { data, .. }) => {
            if data@ == pong_payload_spec() {
                ClientAction::CloseConnection { code: 0 }
            } else {
                ClientAction::Stop
            }
        },
        _ => ClientAction::Stop,
    }
}

/// True exactly on the transition that completes an exchange: a response that
/// validates against the fixed payload while one was awaited. The `sent`
/// counter moves by one on this transition and on no other.
pub open spec fn client_completes(s: ClientState, e: ClientEvent) -> bool {
    match (s, e) {
        (ClientState::AwaitingResponse { .. }, ClientEvent::ResponseRead { data, .. }) => data@
            == pong_payload_spec(),
        _ => false,
    }
}

/// How far the `sent` counter moves on one transition.
pub open spec fn client_sent_delta(s: ClientState, e: ClientEvent) -> nat {
    if client_completes(s, e) {
        1
    } else {
        0
    }
}

/// Whether the exchange has completed successfully.
pub open spec fn client_is_done(s: ClientState) -> bool {
    s matches ClientState::Done { .. }
}

/// Whether the exchange has failed.
pub open spec fn client_is_failed(s: ClientState) -> bool {
    s matches ClientState::Failed { .. }
}

/// The state after running the machine from `s` through `evs` in order.
pub open spec fn client_run(s: ClientState, evs: Seq<ClientEvent>) -> ClientState
    decreases evs.len(),
{
    if evs.len() == 0 {
        s
    } else {
        client_run(client_next(s, evs[0]), evs.drop_first())
    }
}

/// The total movement of the `sent` counter over a run.
pub open spec fn client_run_sent(s: ClientState, evs: Seq<ClientEvent>) -> nat
    decreases evs.len(),
{
    if evs.len() == 0 {
        0
    } else {
        client_sent_delta(s, evs[0]) + client_run_sent(client_next(s, evs[0]), evs.drop_first())
    }
}

/// A completed exchange is over: every further event leaves the state
/// unchanged and moves no counter.
proof fn lemma_client_done_absorbs(s: ClientState, evs: Seq<ClientEvent>)
    requires
        client_is_done(s),
    ensures
        client_run(s, evs) == s,
        client_run_sent(s, evs) == 0,
    decreases evs.len(),
{
    if evs.len() > 0 {
        lemma_client_done_absorbs(client_next(s, evs[0]), evs.drop_first());
    }
}

/// Over any run that ends completed, the `sent` counter moved exactly once if
/// the run began before completion, and not at all if it began after.
proof fn lemma_client_done_counts(s: ClientState, evs: Seq<ClientEvent>)
    requires
        client_is_done(client_run(s, evs)),
    ensures
        client_run_sent(s, evs) == (if client_is_done(s) {
            0nat
        } else {
            1nat
        }),
    decreases evs.len(),
{
    if evs.len() == 0 {
    } else {
        lemma_client_done_counts(client_next(s, evs[0]), evs.drop_first());
    }
}

/// A successful ping moves the `sent` counter by exactly one: any run of the
/// client machine from its start that ends completed has a total counter
/// movement of one.
pub proof fn lemma_completed_ping_counts_once(evs: Seq<ClientEvent>)
    requires
        client_is_done(client_run(ClientState::Connecting, evs)),
    ensures
        client_run_sent(ClientState::Connecting, evs) == 1,
{
    lemma_client_done_counts(ClientState::Connecting, evs);
}

/// Over any run from a state that has not completed, a failed outcome moved
/// no counter.
proof fn lemma_client_failed_counts(s: ClientState, evs: Seq<ClientEvent>)
    requires
        !client_is_done(s),
        client_is_failed(client_run(s, evs)),
    ensures
        client_run_sent(s, evs) == 0,
    decreases evs.len(),
{
    if evs.len() > 0 {
        let s1 = client_next(s, evs[0]);
        if client_is_done(s1) {
            lemma_client_done_absorbs(s1, evs.drop_first());
        } else {
            lemma_client_failed_counts(s1, evs.drop_first());
        }
    }
}

/// A failed ping has no observable side effect on the counters: any run of
/// the client machine from its start that ends failed moved the `sent`
/// counter not at all.
pub proof fn lemma_failed_ping_counts_nothing(evs: Seq<ClientEvent>)
    requires
        client_is_failed(client_run(ClientState::Connecting, evs)),
    ensures
        client_run_sent(ClientState::Connecting, evs) == 0,
{
    lemma_client_failed_counts(ClientState::Connecting, evs);
}

/// The total movement of the `sent` counter over a sequence of independent
/// exchanges, each run from the machine's start.
pub open spec fn total_sent(runs: Seq<Seq<ClientEvent>>) -> nat
    decreases runs.len(),
{
    if runs.len() == 0 {
        0
    } else {
        client_run_sent(ClientState::Connecting, runs[0]) + total_sent(runs.drop_first())
    }
}

/// Repeated pings count exactly: N exchanges on one instance, each of which
/// completes, move the `sent` counter by exactly N in total.
pub proof fn lemma_repeated_pings_count_exactly(runs: Seq<Seq<ClientEvent>>)
    requires
        forall|i: int|
            0 <= i < runs.len() ==> client_is_done(
                client_run(ClientState::Connecting, #[trigger] runs[i]),
            ),
    ensures
        total_sent(runs) == runs.len(),
    decreases runs.len(),
{
    if runs.len() > 0 {
        assert(client_is_done(client_run(ClientState::Connecting, runs[0])));
        lemma_completed_ping_counts_once(runs[0]);
        assert forall|i: int| 0 <= i < runs.drop_first().len() implies client_is_done(
            client_run(ClientState::Connecting, #[trigger] runs.drop_first()[i]),
        ) by {
            assert(runs.drop_first()[i] == runs[i + 1]);
        }
        lemma_repeated_pings_count_exactly(runs.drop_first());
    }
}

/// The measured round trip brackets only the message exchange: for any
/// exchange whose connection opened at `t_open`, whose stream opened at
/// `start`, whose response was fully read at `now`, and whose connection
/// closed at `t_close`, the round-trip duration is at most the connection's
/// whole open-to-close window — and, being a scalar, it is never negative.
pub proof fn lemma_rtt_within_connection_window(t_open: u64, start: u64, now: u64, t_close: u64)
    requires
        t_open <= start,
        start <= now,
        now <= t_close,
    ensures
        duration_between(start, now) <= t_close - t_open,
{
}

/// The state and the action an exchange starts from: connect first.
pub fn client_start() -> (r: (ClientState, ClientAction))
    ensures
        r.0 == ClientState::Connecting,
        r.1 == ClientAction::Connect,
{
    (ClientState::Connecting, ClientAction::Connect)
}

} // verus!
