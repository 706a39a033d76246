//! The wire-level constants of the protocol: the ALPN identifier exchanged
//! during connection negotiation, the two fixed four-byte messages, and the
//! validation of received payloads.

use vstd::prelude::*;

verus! {

/// Number of bytes in each of the two wire messages.
pub const MESSAGE_LEN: usize = 4;

/// The protocol identifier, the byte string `iroh/ping/0`.
///
/// It is exchanged during the connection handshake by the transport layer to
/// select this protocol among others multiplexed over the same connection;
/// this crate only ever compares it for equality.
pub open spec fn alpn_spec() -> Seq<u8> {
    seq![105u8, 114u8, 111u8, 104u8, 47u8, 112u8, 105u8, 110u8, 103u8, 47u8, 48u8]
}

/// The fixed request payload, the bytes `PING`.
pub open spec fn ping_payload_spec() -> Seq<u8> {
    seq![80u8, 73u8, 78u8, 71u8]
}

/// The fixed response payload, the bytes `PONG`.
pub open spec fn pong_payload_spec() -> Seq<u8> {
    seq![80u8, 79u8, 78u8, 71u8]
}

/// The reason bytes sent along with the client's final close, `bye!`.
pub open spec fn close_reason_spec() -> Seq<u8> {
    seq![98u8, 121u8, 101u8, 33u8]
}

/// Returns the protocol identifier as bytes.
pub fn alpn() -> (r: Vec<u8>)
    ensures
        r@ == alpn_spec(),
{
    let mut v: Vec<u8> = Vec::new();
    v.push(105);
    v.push(114);
    v.push(111);
    v.push(104);
    v.push(47);
    v.push(112);
    v.push(105);
    v.push(110);
    v.push(103);
    v.push(47);
    v.push(48);
    proof {
        assert(v@ =~= alpn_spec());
    }
    v
}

/// Returns the fixed request payload, `PING`.
pub fn ping_payload() -> (r: Vec<u8>)
    ensures
        r@ == ping_payload_spec(),
{
    let mut v: Vec<u8> = Vec::new();
    v.push(80);
    v.push(73);
    v.push(78);
    v.push(71);
    proof {
        assert(v@ =~= ping_payload_spec());
    }
    v
}

/// Returns the fixed response payload, `PONG`.
pub fn pong_payload() -> (r: Vec<u8>)
    ensures
        r@ == pong_payload_spec(),
{
    let mut v: Vec<u8> = Vec::new();
    v.push(80);
    v.push(79);
    v.push(78);
    v.push(71);
    proof {
        assert(v@ =~= pong_payload_spec());
    }
    v
}

/// Returns the reason bytes for the client's final close.
pub fn close_reason() -> (r: Vec<u8>)
    ensures
        r@ == close_reason_spec(),
{
    let mut v: Vec<u8> = Vec::new();
    v.push(98);
    v.push(121);
    v.push(101);
    v.push(33);
    proof {
        assert(v@ =~= close_reason_spec());
    }
    v
}

/// Decides whether `data` is exactly the fixed request payload.
pub fn is_valid_request(data: &Vec<u8>) -> (r: bool)
    ensures
        r == (data@ == ping_payload_spec()),
{
    if data.len() == 4 {
        let r = data[0] == 80 && data[1] == 73 && data[2] == 78 && data[3] == 71;
        proof {
            if r {
                assert(data@ =~= ping_payload_spec());
            }
        }
        r
    } else {
        false
    }
}

/// Decides whether `data` is exactly the fixed response payload.
pub fn is_valid_response(data: &Vec<u8>) -> (r: bool)
    ensures
        r == (data@ == pong_payload_spec()),
{
    if data.len() == 4 {
        let r = data[0] == 80 && data[1] == 79 && data[2] == 78 && data[3] == 71;
        proof {
            if r {
                assert(data@ =~= pong_payload_spec());
            }
        }
        r
    } else {
        false
    }
}

} // verus!
