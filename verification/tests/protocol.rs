//! Exercises both roles of the ping protocol against each other in memory:
//! the test plays the transport, performing each action a machine asks for
//! and handing the outcome back as an event.

use iroh_ping::client::{ClientAction, ClientEvent, ClientState, PingError};
use iroh_ping::metrics::{Counter, Metrics};
use iroh_ping::ping::Ping;
use iroh_ping::server::{AcceptError, ServerAction, ServerEvent, ServerState};
use iroh_ping::wire::{
    alpn, close_reason, is_valid_request, is_valid_response, ping_payload, pong_payload,
    MESSAGE_LEN,
};
use iroh_ping::client::client_start;
use iroh_ping::server::server_start;

/// Runs one full exchange between a client instance and a server instance,
/// with the round trip bracketed by the clock readings `t0` (stream open)
/// and `t1` (response fully read). Returns both final states.
fn run_exchange(client: &mut Ping, server: &mut Ping, t0: u64, t1: u64) -> (ClientState, ServerState) {
    let (cs, ca) = client_start();
    assert_eq!(cs, ClientState::Connecting);
    assert_eq!(ca, ClientAction::Connect);
    let (ss, sa) = server_start();
    assert_eq!(ss, ServerState::AwaitingStream);
    assert_eq!(sa, ServerAction::AcceptStream);

    // The connection is established and routed to the server's handler.
    let (cs, ca) = client.ping_step(cs, ClientEvent::Connected);
    assert_eq!(ca, ClientAction::OpenStream);

    // The client opens the one bidirectional stream; the server accepts it.
    let (ss, sa) = server.accept_step(ss, ServerEvent::StreamAccepted);
    assert_eq!(sa, ServerAction::ReadRequest);
    let (cs, ca) = client.ping_step(cs, ClientEvent::StreamOpened { now: t0 });
    assert_eq!(ca, ClientAction::SendRequest);

    // The client writes the request and half-closes; the server reads it.
    let request = ping_payload();
    let (cs, ca) = client.ping_step(cs, ClientEvent::RequestSent);
    assert_eq!(ca, ClientAction::ReadResponse);
    let (ss, sa) = server.accept_step(ss, ServerEvent::RequestRead { data: request });
    assert_eq!(sa, ServerAction::SendResponse);

    // The server writes the response and half-closes; the client reads it.
    let response = pong_payload();
    let (ss, sa) = server.accept_step(ss, ServerEvent::ResponseSent);
    assert_eq!(sa, ServerAction::AwaitClose);
    let (cs, ca) = client.ping_step(cs, ClientEvent::ResponseRead { data: response, now: t1 });
    assert_eq!(ca, ClientAction::CloseConnection { code: 0 });

    // The client closes the connection; the server's wait unblocks.
    let (ss, sa) = server.accept_step(ss, ServerEvent::ConnectionClosed);
    assert_eq!(sa, ServerAction::Stop);

    (cs, ss)
}

#[test]
fn test_ping() {
    let mut server_ping = Ping::new();
    let mut client_ping = Ping::new();

    let (cs, ss) = run_exchange(&mut client_ping, &mut server_ping, 10, 25);
    assert_eq!(cs, ClientState::Done { rtt: 15 });
    assert_eq!(ss, ServerState::Done);
    assert_eq!(server_ping.metrics().pings_recv.get(), 1);
    assert_eq!(client_ping.metrics().pings_sent.get(), 1);

    let (cs, ss) = run_exchange(&mut client_ping, &mut server_ping, 40, 42);
    assert_eq!(cs, ClientState::Done { rtt: 2 });
    assert_eq!(ss, ServerState::Done);
    assert_eq!(server_ping.metrics().pings_recv.get(), 2);
    assert_eq!(client_ping.metrics().pings_sent.get(), 2);
}

#[test]
fn test_end_to_end_scenario() {
    // One full exchange, watched step by step: request out, validated and
    // answered, response validated, connection closed, both counters at one.
    let mut client = Ping::new();
    let mut server = Ping::new();
    let connection_open: u64 = 900;
    let t0: u64 = 1000;
    let t1: u64 = 1750;
    let connection_close: u64 = 1800;

    let (cs, ss) = run_exchange(&mut client, &mut server, t0, t1);

    assert_eq!(cs, ClientState::Done { rtt: 750 });
    assert_eq!(ss, ServerState::Done);
    assert_eq!(client.metrics().pings_sent.get(), 1);
    assert_eq!(client.metrics().pings_recv.get(), 0);
    assert_eq!(server.metrics().pings_recv.get(), 1);
    assert_eq!(server.metrics().pings_sent.get(), 0);

    // The measured round trip brackets only the message exchange, so it fits
    // inside the connection's whole open-to-close window.
    match cs {
        ClientState::Done { rtt } => assert!(rtt <= connection_close - connection_open),
        _ => unreachable!(),
    }
}

#[test]
fn test_zero_duration_round_trip() {
    let mut client = Ping::new();
    let mut server = Ping::new();
    let (cs, _) = run_exchange(&mut client, &mut server, 500, 500);
    assert_eq!(cs, ClientState::Done { rtt: 0 });
}

#[test]
fn test_repeated_pings() {
    // Five sequential pings on one client against one server: the counters
    // read exactly five, and a bystander instance's counters are untouched.
    let mut client = Ping::new();
    let mut server = Ping::new();
    let bystander = Ping::new();

    let mut i: u64 = 0;
    while i < 5 {
        let t0 = 100 * i;
        let t1 = 100 * i + 7;
        let (cs, ss) = run_exchange(&mut client, &mut server, t0, t1);
        assert_eq!(cs, ClientState::Done { rtt: 7 });
        assert_eq!(ss, ServerState::Done);
        i += 1;
    }

    assert_eq!(client.metrics().pings_sent.get(), 5);
    assert_eq!(server.metrics().pings_recv.get(), 5);
    assert_eq!(bystander.metrics().pings_sent.get(), 0);
    assert_eq!(bystander.metrics().pings_recv.get(), 0);
}

#[test]
fn test_many_clients_one_server() {
    // Four independent clients each ping the same server instance once; the
    // server's received counter settles at exactly four, no update lost.
    let mut server = Ping::new();
    let mut i: u64 = 0;
    while i < 4 {
        let mut client = Ping::new();
        let (cs, ss) = run_exchange(&mut client, &mut server, i, i + 1);
        assert_eq!(cs, ClientState::Done { rtt: 1 });
        assert_eq!(ss, ServerState::Done);
        assert_eq!(client.metrics().pings_sent.get(), 1);
        i += 1;
    }
    assert_eq!(server.metrics().pings_recv.get(), 4);
    assert_eq!(server.metrics().pings_sent.get(), 0);
}

#[test]
fn test_malformed_request_rejected() {
    // A peer that sends anything but the fixed request payload fails the
    // handler with a reported protocol violation, and the received counter
    // does not move.
    let mut server = Ping::new();
    let (ss, _) = server_start();
    let (ss, _) = server.accept_step(ss, ServerEvent::StreamAccepted);
    let (ss, sa) = server.accept_step(
        ss,
        ServerEvent::RequestRead { data: b"EVIL".to_vec() },
    );
    assert_eq!(ss, ServerState::Failed { error: AcceptError::ProtocolViolation });
    assert_eq!(sa, ServerAction::Stop);
    assert_eq!(server.metrics().pings_recv.get(), 0);
}

#[test]
fn test_short_request_rejected() {
    let mut server = Ping::new();
    let (ss, _) = server_start();
    let (ss, _) = server.accept_step(ss, ServerEvent::StreamAccepted);
    let (ss, _) = server.accept_step(ss, ServerEvent::RequestRead { data: b"PIN".to_vec() });
    assert_eq!(ss, ServerState::Failed { error: AcceptError::ProtocolViolation });
    assert_eq!(server.metrics().pings_recv.get(), 0);
}

#[test]
fn test_client_rejects_bad_response() {
    let mut client = Ping::new();
    let (cs, _) = client_start();
    let (cs, _) = client.ping_step(cs, ClientEvent::Connected);
    let (cs, _) = client.ping_step(cs, ClientEvent::StreamOpened { now: 3 });
    let (cs, _) = client.ping_step(cs, ClientEvent::RequestSent);
    let (cs, ca) = client.ping_step(
        cs,
        ClientEvent::ResponseRead { data: b"P0NG".to_vec(), now: 9 },
    );
    assert_eq!(cs, ClientState::Failed { error: PingError::ProtocolViolation });
    assert_eq!(ca, ClientAction::Stop);
    assert_eq!(client.metrics().pings_sent.get(), 0);
}

#[test]
fn test_client_transport_errors() {
    // Each transport failure surfaces as its own error, and a failed
    // exchange leaves the sent counter untouched.
    let mut client = Ping::new();

    let (cs, _) = client_start();
    let (cs, _) = client.ping_step(cs, ClientEvent::ConnectFailed);
    assert_eq!(cs, ClientState::Failed { error: PingError::Connection });

    let (cs, _) = client_start();
    let (cs, _) = client.ping_step(cs, ClientEvent::Connected);
    let (cs, _) = client.ping_step(cs, ClientEvent::StreamOpenFailed);
    assert_eq!(cs, ClientState::Failed { error: PingError::Stream });

    let (cs, _) = client_start();
    let (cs, _) = client.ping_step(cs, ClientEvent::Connected);
    let (cs, _) = client.ping_step(cs, ClientEvent::StreamOpened { now: 1 });
    let (cs, _) = client.ping_step(cs, ClientEvent::SendFailed);
    assert_eq!(cs, ClientState::Failed { error: PingError::Io });

    let (cs, _) = client_start();
    let (cs, _) = client.ping_step(cs, ClientEvent::Connected);
    let (cs, _) = client.ping_step(cs, ClientEvent::StreamOpened { now: 1 });
    let (cs, _) = client.ping_step(cs, ClientEvent::RequestSent);
    let (cs, _) = client.ping_step(cs, ClientEvent::ReadFailed);
    assert_eq!(cs, ClientState::Failed { error: PingError::Io });

    assert_eq!(client.metrics().pings_sent.get(), 0);
}

#[test]
fn test_server_transport_errors() {
    let mut server = Ping::new();

    let (ss, _) = server_start();
    let (ss, _) = server.accept_step(ss, ServerEvent::StreamAcceptFailed);
    assert_eq!(ss, ServerState::Failed { error: AcceptError::Stream });

    let (ss, _) = server_start();
    let (ss, _) = server.accept_step(ss, ServerEvent::StreamAccepted);
    let (ss, _) = server.accept_step(ss, ServerEvent::ReadFailed);
    assert_eq!(ss, ServerState::Failed { error: AcceptError::Io });
    assert_eq!(server.metrics().pings_recv.get(), 0);

    // A write failure comes after the request validated, so that one
    // exchange's increment stands: the counter moved strictly before the
    // response was attempted.
    let (ss, _) = server_start();
    let (ss, _) = server.accept_step(ss, ServerEvent::StreamAccepted);
    let (ss, _) = server.accept_step(ss, ServerEvent::RequestRead { data: ping_payload() });
    assert_eq!(ss, ServerState::WritingResponse);
    assert_eq!(server.metrics().pings_recv.get(), 1);
    let (ss, _) = server.accept_step(ss, ServerEvent::SendFailed);
    assert_eq!(ss, ServerState::Failed { error: AcceptError::Io });
    assert_eq!(server.metrics().pings_recv.get(), 1);
}

#[test]
fn test_wire_constants() {
    assert_eq!(alpn().as_slice(), b"iroh/ping/0");
    assert_eq!(ping_payload().as_slice(), b"PING");
    assert_eq!(pong_payload().as_slice(), b"PONG");
    assert_eq!(close_reason().as_slice(), b"bye!");
    assert_eq!(MESSAGE_LEN, 4);
    assert_eq!(ping_payload().len(), MESSAGE_LEN);
    assert_eq!(pong_payload().len(), MESSAGE_LEN);
}

#[test]
fn test_payload_validation() {
    assert!(is_valid_request(&b"PING".to_vec()));
    assert!(!is_valid_request(&b"PONG".to_vec()));
    assert!(!is_valid_request(&b"ping".to_vec()));
    assert!(!is_valid_request(&b"PIN".to_vec()));
    assert!(!is_valid_request(&b"PINGG".to_vec()));
    assert!(!is_valid_request(&Vec::new()));
    assert!(is_valid_response(&b"PONG".to_vec()));
    assert!(!is_valid_response(&b"PING".to_vec()));
    assert!(!is_valid_response(&Vec::new()));
}

#[test]
fn test_counters() {
    let mut c = Counter::new();
    assert_eq!(c.get(), 0);
    c.inc();
    assert_eq!(c.get(), 1);
    c.inc();
    c.inc();
    assert_eq!(c.get(), 3);
    assert_eq!(Counter::default().get(), 0);

    let m = Metrics::new();
    assert_eq!(m.pings_sent.get(), 0);
    assert_eq!(m.pings_recv.get(), 0);
    let m = Metrics::default();
    assert_eq!(m.pings_sent.get(), 0);
    assert_eq!(m.pings_recv.get(), 0);
}

#[test]
fn test_new_instance_is_zeroed() {
    let p = Ping::new();
    assert_eq!(p.metrics().pings_sent.get(), 0);
    assert_eq!(p.metrics().pings_recv.get(), 0);
    let p = Ping::default();
    assert_eq!(p.metrics().pings_sent.get(), 0);
    assert_eq!(p.metrics().pings_recv.get(), 0);
}
