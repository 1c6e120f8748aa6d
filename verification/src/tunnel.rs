use vstd::prelude::*;

use crate::addr::PeerAddr;

verus! {

/// The transport tag every UDP tunnel reports upward.
pub fn tunnel_type() -> (r: &'static str)
    ensures
        r@ == "udp"@,
{
    "udp"
}

/// The self-describing record a tunnel carries upward: which local and
/// remote socket addresses it runs between. The transport tag is always
/// `tunnel_type()`; the URL rendering of the two addresses is the I/O
/// shell's business.
#[derive(Debug, Clone, Copy, PartialEq, Eq, Structural)]
pub struct TunnelInfo {
    pub local: PeerAddr,
    pub remote: PeerAddr,
}

impl TunnelInfo {
    /// The info record for a tunnel between two addresses.
    pub fn new(local: PeerAddr, remote: PeerAddr) -> (r: Self)
        ensures
            r.local == local,
            r.remote == remote,
    {
        TunnelInfo { local, remote }
    }
}

} // verus!
