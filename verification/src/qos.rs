//! The network-quality (QoS) echo payload. For each received datagram the
//! service answers with the original payload followed by the caller's
//! public address, the caller's source port in big-endian form, and four
//! reserved zero bytes — the encoding the game uses for NAT-traversal
//! address discovery.

use crate::numbers::u16_be;
use vstd::prelude::*;
use vstd::slice::slice_to_vec;

verus! {

/// The wire form of a QoS response: the request bytes, then the four
/// address octets, then the two big-endian port bytes, then four zero
/// bytes.
pub open spec fn qos_response_spec(payload: Seq<u8>, ip: Seq<u8>, port: u16) -> Seq<u8> {
    payload + ip + u16_be(port) + seq![0u8, 0u8, 0u8, 0u8]
}

/// Builds the QoS response for one datagram: `payload` are the received
/// bytes (the protocol caps them at 64), `ip` the caller's public address
/// octets and `port` the caller's source port.
pub fn build_qos_response(payload: &[u8], ip: &[u8; 4], port: u16) -> (r: Vec<u8>)
    requires
        payload@.len() <= 64,
    ensures
        r@ == qos_response_spec(payload@, ip@, port),
{
    let mut out = slice_to_vec(payload);
    out.push(ip[0]);
    out.push(ip[1]);
    out.push(ip[2]);
    out.push(ip[3]);
    out.push((port / 0x100) as u8);
    out.push((port % 0x100) as u8);
    out.push(0);
    out.push(0);
    out.push(0);
    out.push(0);
    proof {
        assert(ip@ =~= seq![ip@[0], ip@[1], ip@[2], ip@[3]]);
        assert(out@ =~= qos_response_spec(payload@, ip@, port));
    }
    out
}

/// The address placed into a QoS response: the cached public address when
/// one is known, otherwise the datagram's own source address.
pub fn choose_qos_address(public: Option<[u8; 4]>, source: [u8; 4]) -> (r: [u8; 4])
    ensures
        r == match public {
            Some(v) => v,
            None => source,
        },
{
    match public {
        Some(v) => v,
        None => source,
    }
}

} // verus!
