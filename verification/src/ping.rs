//! The protocol instance: one `Ping` holds the shared counters and executes
//! both roles of the protocol, so that one configured instance serves many
//! connections on either side.
//!
//! The instance does no transport work itself. The caller drives each
//! exchange as a loop: it starts the client or server machine, performs the
//! transport action it asks for, and hands the outcome back to
//! [`Ping::ping_step`] or [`Ping::accept_step`], which take the transition
//! and move the counters exactly as the machine prescribes.

use vstd::prelude::*;
use crate::client::{
    client_action, client_next, client_sent_delta, duration_between, ClientAction, ClientEvent,
    ClientState, PingError,
};
use crate::metrics::Metrics;
use crate::server::{
    server_action, server_next, server_recv_delta, AcceptError, ServerAction, ServerEvent,
    ServerState,
};
use crate::wire::{is_valid_request, is_valid_response, ping_payload_spec, pong_payload_spec};

verus! {

/// A protocol instance: the pair of monotonic counters, shared by every
/// exchange the instance takes part in.
#[derive(Clone, Copy, Debug, PartialEq, Eq)]
pub struct Ping {
    /// Counts of pings sent and received through this instance.
    pub metrics: Metrics,
}

impl Ping {
    /// Creates new ping state with fresh, zeroed counters.
    pub fn new() -> (r: Ping)
        ensures
            r.metrics.pings_sent.count == 0,
            r.metrics.pings_recv.count == 0,
    {
        Ping { metrics: Metrics::new() }
    }

    /// Returns a handle to ping metrics.
    pub fn metrics(&self) -> (r: &Metrics)
        ensures
            *r == self.metrics,
    {
        &self.metrics
    }

    /// Takes one transition of the client machine: the state so far, and the
    /// event the last transport action came back with, decide the next state
    /// and the next action. The `sent` counter moves by one exactly on the
    /// transition that validates a response, and the `received` counter
    /// never moves here.
    pub fn ping_step(&mut self, state: ClientState, event: ClientEvent) -> (r: (
        ClientState,
        ClientAction,
    ))
        requires
            client_sent_delta(state, event) == 1 ==> old(self).metrics.pings_sent.count
                < u64::MAX,
        ensures
            r.0 == client_next(state, event),
            r.1 == client_action(state, event),
            final(self).metrics.pings_sent.count == old(self).metrics.pings_sent.count
                + client_sent_delta(state, event),
            final(self).metrics.pings_recv == old(self).metrics.pings_recv,
    {
        match (state, event) {
            (ClientState::Connecting, ClientEvent::Connected) => (
                ClientState::OpeningStream,
                ClientAction::OpenStream,
            ),
            (ClientState::Connecting, ClientEvent::ConnectFailed) => (
                (ClientState::Failed { error: PingError::Connection }),
                ClientAction::Stop,
            ),
            (ClientState::OpeningStream, ClientEvent::StreamOpened { now }) => (
                (ClientState::SendingRequest { start: now }),
                ClientAction::SendRequest,
            ),
            (ClientState::OpeningStream, ClientEvent::StreamOpenFailed) => (
                (ClientState::Failed { error: PingError::Stream }),
                ClientAction::Stop,
            ),
            (ClientState::SendingRequest { start }, ClientEvent::RequestSent) => (
                (ClientState::AwaitingResponse { start }),
                ClientAction::ReadResponse,
            ),
            (ClientState::SendingRequest { .. }, ClientEvent::SendFailed) => (
                (ClientState::Failed { error: PingError::Io }),
                ClientAction::Stop,
            ),
            (ClientState::AwaitingResponse { start }, ClientEvent::ResponseRead { data, now }) => {
                if is_valid_response(&data) {
                    let rtt: u64 = if now >= start {
                        now - start
                    } else {
                        0
                    };
                    self.metrics.pings_sent.inc();
                    ((ClientState::Done { rtt }), (ClientAction::CloseConnection { code: 0 }))
                } else {
                    ((ClientState::Failed { error: PingError::ProtocolViolation }), ClientAction::Stop)
                }
            },
            (ClientState::AwaitingResponse { .. }, ClientEvent::ReadFailed) => (
                (ClientState::Failed { error: PingError::Io }),
                ClientAction::Stop,
            ),
            _ => (state, ClientAction::Stop),
        }
    }

    /// Takes one transition of the server machine: the state so far, and the
    /// event the last transport action came back with, decide the next state
    /// and the next action. The `received` counter moves by one exactly on
    /// the transition that validates a request — strictly before the
    /// response is sent — and the `sent` counter never moves here.
    pub fn accept_step(&mut self, state: ServerState, event: ServerEvent) -> (r: (
        ServerState,
        ServerAction,
    ))
        requires
            server_recv_delta(state, event) == 1 ==> old(self).metrics.pings_recv.count
                < u64::MAX,
        ensures
            r.0 == server_next(state, event),
            r.1 == server_action(state, event),
            final(self).metrics.pings_recv.count == old(self).metrics.pings_recv.count
                + server_recv_delta(state, event),
            final(self).metrics.pings_sent == old(self).metrics.pings_sent,
    {
        match (state, event) {
            (ServerState::AwaitingStream, ServerEvent::StreamAccepted) => (
                ServerState::ReadingRequest,
                ServerAction::ReadRequest,
            ),
            (ServerState::AwaitingStream, ServerEvent::StreamAcceptFailed) => (
                (ServerState::Failed { error: AcceptError::Stream }),
                ServerAction::Stop,
            ),
            (ServerState::ReadingRequest, ServerEvent::RequestRead { data }) => {
                if is_valid_request(&data) {
                    self.metrics.pings_recv.inc();
                    (ServerState::WritingResponse, ServerAction::SendResponse)
                } else {
                    ((ServerState::Failed { error: AcceptError::ProtocolViolation }), ServerAction::Stop)
                }
            },
            (ServerState::ReadingRequest, ServerEvent::ReadFailed) => (
                (ServerState::Failed { error: AcceptError::Io }),
                ServerAction::Stop,
            ),
            (ServerState::WritingResponse, ServerEvent::ResponseSent) => (
                ServerState::AwaitingClose,
                ServerAction::AwaitClose,
            ),
            (ServerState::WritingResponse, ServerEvent::SendFailed) => (
                (ServerState::Failed { error: AcceptError::Io }),
                ServerAction::Stop,
            ),
            (ServerState::AwaitingClose, ServerEvent::ConnectionClosed) => (
                ServerState::Done,
                ServerAction::Stop,
            ),
            _ => (state, ServerAction::Stop),
        }
    }
}

impl Default for Ping {
    fn default() -> (r: Ping)
        ensures
            r.metrics.pings_sent.count == 0,
            r.metrics.pings_recv.count == 0,
    {
        Ping::new()
    }
}

/// Round-trip correctness, both roles against each other: a server that
/// reads exactly the fixed request payload validates it and answers with the
/// response action — whose payload is the fixed response and nothing more —
/// and a client that reads exactly that response completes with the measured
/// round trip and closes the connection with code zero.
pub proof fn lemma_round_trip(req: Vec<u8>, resp: Vec<u8>, start: u64, now: u64)
    requires
        req@ == ping_payload_spec(),
        resp@ == pong_payload_spec(),
    ensures
        server_next(ServerState::ReadingRequest, ServerEvent::RequestRead { data: req })
            == ServerState::WritingResponse,
        server_action(ServerState::ReadingRequest, ServerEvent::RequestRead { data: req })
            == ServerAction::SendResponse,
        client_next(
            (ClientState::AwaitingResponse { start }),
            (ClientEvent::ResponseRead { data: resp, now }),
        ) == (ClientState::Done { rtt: duration_between(start, now) }),
        client_action(
            (ClientState::AwaitingResponse { start }),
            (ClientEvent::ResponseRead { data: resp, now }),
        ) == (ClientAction::CloseConnection { code: 0 }),
{
}

} // verus!
