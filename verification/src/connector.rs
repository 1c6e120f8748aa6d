use vstd::prelude::*;

use crate::addr::PeerAddr;
use crate::codec::{make_syn_frame, spec_decode, spec_encode};
use crate::errors::{ProtocolFault, TunnelError};
use crate::packet::{PacketModel, PayloadModel};

verus! {

/// A datagram that completes the handshake: it came from the handshake
/// target and decodes to a SACK carrying the conn id the SYN announced.
pub open spec fn is_valid_sack(
    expected_src: PeerAddr,
    conn_id: u32,
    src: PeerAddr,
    b: Seq<u8>,
) -> bool {
    src == expected_src && (spec_decode(b) matches Some(p) && p.conn_id == conn_id && p.payload
        is Sack)
}

/// Judge one datagram received while waiting for the SACK. Accepts exactly
/// the valid SACKs; everything else is rejected with the fault that names
/// what was wrong, checked in this order: source address, envelope
/// validity, conn id, variant.
pub fn check_sack_datagram(
    expected_src: PeerAddr,
    conn_id: u32,
    src: PeerAddr,
    buf: &[u8],
) -> (r: Result<(), TunnelError>)
    ensures
        r is Ok <==> is_valid_sack(expected_src, conn_id, src, buf@),
        src != expected_src ==> r == Err::<(), TunnelError>(
            TunnelError::ProtocolError(ProtocolFault::WrongSource),
        ),
        src == expected_src && spec_decode(buf@) is None ==> r == Err::<(), TunnelError>(
            TunnelError::DecodeError,
        ),
        src == expected_src && (spec_decode(buf@) matches Some(p) && p.conn_id != conn_id) ==> r
            == Err::<(), TunnelError>(TunnelError::ProtocolError(ProtocolFault::WrongConnId)),
        src == expected_src && (spec_decode(buf@) matches Some(p) && p.conn_id == conn_id
            && !(p.payload is Sack)) ==> r == Err::<(), TunnelError>(
            TunnelError::ProtocolError(ProtocolFault::WrongVariant),
        ),
{
    if src != expected_src {
        return Err(TunnelError::ProtocolError(ProtocolFault::WrongSource));
    }
    match crate::codec::decode(buf) {
        Err(_) => Err(TunnelError::DecodeError),
        Ok(p) => {
            if p.conn_id != conn_id {
                Err(TunnelError::ProtocolError(ProtocolFault::WrongConnId))
            } else {
                match p.payload {
                    crate::packet::UdpPacketPayload::Sack => Ok(()),
                    _ => Err(TunnelError::ProtocolError(ProtocolFault::WrongVariant)),
                }
            }
        },
    }
}

/// The sequence of datagrams the wait loop saw, as pairs of source address
/// and bytes.
pub open spec fn frames_model(s: Seq<(PeerAddr, Vec<u8>)>) -> Seq<(PeerAddr, Seq<u8>)> {
    s.map_values(|f: (PeerAddr, Vec<u8>)| (f.0, f.1@))
}

/// The index of the first datagram that completes the handshake, if any:
/// what the wait loop converges on when fed this arrival order.
pub open spec fn first_valid_sack(
    expected_src: PeerAddr,
    conn_id: u32,
    frames: Seq<(PeerAddr, Seq<u8>)>,
) -> Option<int>
    decreases frames.len(),
{
    if frames.len() == 0 {
        None
    } else if is_valid_sack(expected_src, conn_id, frames[0].0, frames[0].1) {
        Some(0)
    } else {
        match first_valid_sack(expected_src, conn_id, frames.drop_first()) {
            Option::None => None,
            Option::Some(i) => Some(i + 1),
        }
    }
}

proof fn lemma_first_valid_sack_none(
    expected_src: PeerAddr,
    conn_id: u32,
    frames: Seq<(PeerAddr, Seq<u8>)>,
)
    requires
        forall|j: int|
            0 <= j < frames.len() ==> !is_valid_sack(
                expected_src,
                conn_id,
                frames[j].0,
                frames[j].1,
            ),
    ensures
        first_valid_sack(expected_src, conn_id, frames) is None,
    decreases frames.len(),
{
    if frames.len() > 0 {
        let rest = frames.drop_first();
        assert forall|j: int| 0 <= j < rest.len() implies !is_valid_sack(
            expected_src,
            conn_id,
            rest[j].0,
            rest[j].1,
        ) by {
            assert(rest[j] == frames[j + 1]);
        }
        lemma_first_valid_sack_none(expected_src, conn_id, rest);
    }
}

proof fn lemma_first_valid_sack_at(
    expected_src: PeerAddr,
    conn_id: u32,
    frames: Seq<(PeerAddr, Seq<u8>)>,
    i: int,
)
    requires
        0 <= i < frames.len(),
        is_valid_sack(expected_src, conn_id, frames[i].0, frames[i].1),
        forall|j: int|
            0 <= j < i ==> !is_valid_sack(expected_src, conn_id, frames[j].0, frames[j].1),
    ensures
        first_valid_sack(expected_src, conn_id, frames) == Some(i),
    decreases i,
{
    if i > 0 {
        let rest = frames.drop_first();
        assert(rest[i - 1] == frames[i]);
        assert forall|j: int| 0 <= j < i - 1 implies !is_valid_sack(
            expected_src,
            conn_id,
            rest[j].0,
            rest[j].1,
        ) by {
            assert(rest[j] == frames[j + 1]);
        }
        lemma_first_valid_sack_at(expected_src, conn_id, rest, i - 1);
    }
}

/// Handshake noise tolerance, one direction: the wait loop never succeeds on
/// a datagram that is not a valid SACK, whatever noise arrives.
pub proof fn lemma_no_spurious_success(
    expected_src: PeerAddr,
    conn_id: u32,
    frames: Seq<(PeerAddr, Seq<u8>)>,
)
    ensures
        first_valid_sack(expected_src, conn_id, frames) matches Some(j) ==> 0 <= j < frames.len()
            && is_valid_sack(expected_src, conn_id, frames[j].0, frames[j].1),
    decreases frames.len(),
{
    if frames.len() > 0 && !is_valid_sack(expected_src, conn_id, frames[0].0, frames[0].1) {
        let rest = frames.drop_first();
        lemma_no_spurious_success(expected_src, conn_id, rest);
        if first_valid_sack(expected_src, conn_id, rest) is Some {
            let j = first_valid_sack(expected_src, conn_id, rest)->Some_0;
            assert(frames[j + 1] == rest[j]);
        }
    }
}

/// Handshake noise tolerance, the other direction: however many malformed,
/// misaddressed or wrong-conn-id datagrams come first, a valid SACK in the
/// arrival order still completes the handshake, at the first valid position.
pub proof fn lemma_noise_tolerance(
    expected_src: PeerAddr,
    conn_id: u32,
    frames: Seq<(PeerAddr, Seq<u8>)>,
    i: int,
)
    requires
        0 <= i < frames.len(),
        is_valid_sack(expected_src, conn_id, frames[i].0, frames[i].1),
    ensures
        first_valid_sack(expected_src, conn_id, frames) matches Some(j) && 0 <= j <= i
            && is_valid_sack(expected_src, conn_id, frames[j].0, frames[j].1),
    decreases i,
{
    if is_valid_sack(expected_src, conn_id, frames[0].0, frames[0].1) {
    } else {
        let rest = frames.drop_first();
        assert(rest[i - 1] == frames[i]);
        lemma_noise_tolerance(expected_src, conn_id, rest, i - 1);
        if first_valid_sack(expected_src, conn_id, rest) is Some {
            let j = first_valid_sack(expected_src, conn_id, rest)->Some_0;
            assert(frames[j + 1] == rest[j]);
        }
    }
}

/// Replay of the wait loop over an arrival order: the index of the first
/// datagram that completes the handshake, or `None` when no datagram in the
/// sequence would ever end the wait (the deadline then fires).
pub fn scan_for_sack(
    expected_src: PeerAddr,
    conn_id: u32,
    frames: &Vec<(PeerAddr, Vec<u8>)>,
) -> (r: Option<usize>)
    ensures
        r matches Some(i) ==> i < frames@.len() && first_valid_sack(
            expected_src,
            conn_id,
            frames_model(frames@),
        ) == Some(i as int) && is_valid_sack(
            expected_src,
            conn_id,
            frames@[i as int].0,
            frames@[i as int].1@,
        ),
        r is None ==> first_valid_sack(expected_src, conn_id, frames_model(frames@)) is None,
{
    let ghost fm = frames_model(frames@);
    let n = frames.len();
    let mut i: usize = 0;
    while i < n
        invariant
            i <= n,
            n == frames@.len(),
            fm == frames_model(frames@),
            fm.len() == n,
            forall|j: int| 0 <= j < fm.len() ==> fm[j] == (frames@[j].0, frames@[j].1@),
            forall|j: int| 0 <= j < i ==> !is_valid_sack(expected_src, conn_id, fm[j].0, fm[j].1),
        decreases n - i,
    {
        let src = frames[i].0;
        let ok = check_sack_datagram(expected_src, conn_id, src, frames[i].1.as_slice()).is_ok();
        if ok {
            proof {
                lemma_first_valid_sack_at(expected_src, conn_id, fm, i as int);
            }
            return Some(i);
        }
        i += 1;
    }
    proof {
        lemma_first_valid_sack_none(expected_src, conn_id, fm);
    }
    None
}

/// Relies on rand::random: a conn id drawn at random for a new handshake.
/// Nothing is promised of the value; every contract downstream holds for
/// every conn id.
#[verifier::external_body]
fn random_conn_id() -> u32 {
    rand::random::<u32>()
}

/// The client side of the transport: the handshake target and the optional
/// explicit bind addresses. The I/O shell binds the sockets, sends the
/// frames this type builds, and feeds every received datagram back through
/// the checks above.
#[derive(Debug)]
pub struct UdpTunnelConnector {
    remote: PeerAddr,
    bind_addrs: Vec<PeerAddr>,
}

impl UdpTunnelConnector {
    /// The handshake target.
    pub closed spec fn remote_spec(self) -> PeerAddr {
        self.remote
    }

    /// The configured local bind addresses.
    pub closed spec fn bind_addrs_spec(self) -> Seq<PeerAddr> {
        self.bind_addrs@
    }

    /// A connector aimed at `remote`, with default (unspecified) bind.
    pub fn new(remote: PeerAddr) -> (r: Self)
        ensures
            r.remote_spec() == remote,
            r.bind_addrs_spec() == Seq::<PeerAddr>::empty(),
    {
        let r = UdpTunnelConnector { remote, bind_addrs: Vec::new() };
        proof {
            assert(r.bind_addrs_spec() =~= Seq::<PeerAddr>::empty());
        }
        r
    }

    /// The address this connector dials.
    pub fn remote_addr(&self) -> (r: PeerAddr)
        ensures
            r == self.remote_spec(),
    {
        self.remote
    }

    /// Configure explicit bind addresses; empty means default bind.
    pub fn set_bind_addrs(&mut self, addrs: Vec<PeerAddr>)
        ensures
            final(self).bind_addrs_spec() == addrs@,
            final(self).remote_spec() == old(self).remote_spec(),
    {
        self.bind_addrs = addrs;
    }

    /// The configured bind addresses, for the I/O shell to bind.
    pub fn bind_addrs(&self) -> (r: &Vec<PeerAddr>)
        ensures
            r@ == self.bind_addrs_spec(),
    {
        &self.bind_addrs
    }

    /// Whether connect must fan out over explicit binds (first success wins)
    /// rather than bind to the unspecified address.
    pub fn use_custom_bind(&self) -> (r: bool)
        ensures
            r <==> self.bind_addrs_spec().len() > 0,
    {
        self.bind_addrs.len() > 0
    }

    /// Open a handshake attempt: draw a random conn id and build the SYN
    /// frame to send. Whatever id was drawn, the frame is exactly that id's
    /// SYN envelope, and it fits in the MTU.
    pub fn begin_handshake(&self) -> (r: (u32, Vec<u8>))
        ensures
            r.1@ == spec_encode(PacketModel { conn_id: r.0, payload: PayloadModel::Syn }),
            r.1@.len() == 5,
    {
        let conn_id = random_conn_id();
        let syn = make_syn_frame(conn_id);
        (conn_id, syn)
    }
}

} // verus!
