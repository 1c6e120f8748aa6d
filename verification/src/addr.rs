use vstd::prelude::*;

verus! {

/// A socket address as the transport reads it: an IP (v4 addresses live in the
/// low 32 bits with `is_ipv6` false) and a port. Addresses are plain values so
/// that map keys and handshake checks mean exact field equality.
#[derive(Debug, Clone, Copy, PartialEq, Eq, Hash, Structural)]
pub struct PeerAddr {
    pub is_ipv6: bool,
    pub ip: u128,
    pub port: u16,
}

impl PeerAddr {
    /// An IPv4 socket address from its four octets and port.
    pub fn new_v4(a: u8, b: u8, c: u8, d: u8, port: u16) -> (r: Self)
        ensures
            !r.is_ipv6,
            r.ip == ((a as u128) << 24) | ((b as u128) << 16) | ((c as u128) << 8) | (d as u128),
            r.port == port,
    {
        let ip = ((a as u128) << 24) | ((b as u128) << 16) | ((c as u128) << 8) | (d as u128);
        PeerAddr { is_ipv6: false, ip, port }
    }

    /// An IPv6 socket address from its 128-bit value and port.
    pub fn new_v6(ip: u128, port: u16) -> (r: Self)
        ensures
            r.is_ipv6,
            r.ip == ip,
            r.port == port,
    {
        PeerAddr { is_ipv6: true, ip, port }
    }
}

} // verus!
