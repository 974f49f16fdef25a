//! What the two boards need to exchange PTP messages: a port, an identity, and a frame.
//!
//! The messages themselves are built elsewhere and are plain bytes here.

use vstd::prelude::*;
use crate::frame::{build_udp_frame, Ipv4Addr, MacAddr, UdpFrameSpec};

verus! {

use crate::frame::{frame_length, MAX_UDP_PAYLOAD};

/// The port that the exchange travels on. Event and general messages share it: neither end
/// prioritises by port.
pub const PTP_PORT: u16 = 319;

/// How often a sync message is sent (log2 s).
pub const LOG_SYNC_INTERVAL: i8 = 0;

/// The domain: there is only one.
pub const DOMAIN: u8 = 0;

/// Who a port is.
#[derive(Debug, Clone, Copy, PartialEq, Eq)]
pub struct PortIdentity {
    /// The clock.
    pub clock: [u8; 8],
    /// The port of the clock, counted from 1.
    pub port: u16,
}

/// The identity of the one port of a board, made of its MAC: the six bytes with `FF FE` in the
/// middle.
pub fn port_identity(mac: MacAddr) -> (p: PortIdentity)
    ensures
        p.clock@ == mac.0@.take(3) + seq![0xffu8, 0xfe] + mac.0@.skip(3),
        p.port == 1,
{
    let m = mac.0;
    let p = PortIdentity { clock: [m[0], m[1], m[2], 0xff, 0xfe, m[3], m[4], m[5]], port: 1 };
    assert(p.clock@ =~= mac.0@.take(3) + seq![0xffu8, 0xfe] + mac.0@.skip(3));
    p
}

/// The two ends of an exchange.
#[derive(Debug, Clone, Copy, PartialEq, Eq)]
pub struct Peer {
    /// Our MAC.
    pub src_mac: MacAddr,
    /// Theirs.
    pub dst_mac: MacAddr,
    /// Our address.
    pub src_ip: Ipv4Addr,
    /// Theirs.
    pub dst_ip: Ipv4Addr,
}

/// The datagram of a message.
pub open spec fn is_message_spec(spec: UdpFrameSpec, peer: Peer, message: Seq<u8>, port: u16, ip_id: u16) -> bool {
    &&& spec.src_mac == peer.src_mac
    &&& spec.dst_mac == peer.dst_mac
    &&& spec.src_ip == peer.src_ip
    &&& spec.dst_ip == peer.dst_ip
    &&& spec.src_port == port
    &&& spec.dst_port == port
    &&& spec.ip_id == ip_id
    &&& spec.ttl == 1
    &&& spec.payload@ == message
}

/// Builds the frame of an encoded message, and returns how long it is.
pub fn build(peer: &Peer, message: &[u8], port: u16, ip_id: u16, frame: &mut [u8]) -> (r: Option<
    usize,
>)
    ensures
        r is Some <==> frame_length(message@.len() as int) <= old(frame)@.len() && message@.len()
            <= MAX_UDP_PAYLOAD,
        r matches Some(len) ==> len == frame_length(message@.len() as int) && exists|
            spec: UdpFrameSpec,
        |
            #[trigger] is_message_spec(spec, *peer, message@, port, ip_id) && final(frame)@
                == spec.frame() + old(frame)@.skip(len as int),
        r is None ==> final(frame)@ == old(frame)@,
{
    let spec = UdpFrameSpec {
        src_mac: peer.src_mac,
        dst_mac: peer.dst_mac,
        src_ip: peer.src_ip,
        dst_ip: peer.dst_ip,
        src_port: port,
        dst_port: port,
        ip_id,
        ttl: 1,
        payload: message,
    };
    assert(is_message_spec(spec, *peer, message@, port, ip_id));
    build_udp_frame(&spec, frame)
}

/// Different boards have different identities: the MAC can be read back from the identity.
pub proof fn law_identities_are_distinct(a: MacAddr, b: MacAddr, pa: PortIdentity, pb: PortIdentity)
    requires
        pa.clock@ == a.0@.take(3) + seq![0xffu8, 0xfe] + a.0@.skip(3),
        pb.clock@ == b.0@.take(3) + seq![0xffu8, 0xfe] + b.0@.skip(3),
        pa.clock@ == pb.clock@,
    ensures
        a.0@ == b.0@,
{
    assert forall|i: int| 0 <= i < 6 implies a.0@[i] == b.0@[i] by {
        if i < 3 {
            assert(pa.clock@[i] == a.0@[i] && pb.clock@[i] == b.0@[i]);
        } else {
            assert(pa.clock@[i + 2] == a.0@[i] && pb.clock@[i + 2] == b.0@[i]);
        }
    }
    assert(a.0@ =~= b.0@);
}

/// A message goes from our end to the peer's, from and to the same port, one hop at most, and
/// unaltered.
pub proof fn law_message_goes_to_the_peer(
    spec: UdpFrameSpec,
    peer: Peer,
    message: Seq<u8>,
    port: u16,
    ip_id: u16,
)
    requires
        is_message_spec(spec, peer, message, port, ip_id),
    ensures
        spec.src_mac == peer.src_mac && spec.dst_mac == peer.dst_mac,
        spec.src_ip == peer.src_ip && spec.dst_ip == peer.dst_ip,
        spec.src_port == port && spec.dst_port == port,
        spec.ip_id == ip_id && spec.ttl == 1,
        spec.payload@ == message,
{
}

} // verus!
