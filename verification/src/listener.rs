use vstd::prelude::*;

use crate::addr::PeerAddr;
use crate::codec::{decode, make_sack_frame, spec_decode, spec_encode};
use crate::packet::{PacketModel, PayloadModel, UdpPacketPayload};
use crate::sock_map::{addrs_unique, conn_at, has_addr, ConnEntry, SockMap};

verus! {

/// What the receive loop does with one datagram.
#[derive(Debug)]
pub enum RecvAction {
    /// The bytes were not a well-formed envelope: log and carry on.
    DropMalformed,
    /// A SYN from an unmapped address: the conn id now mapped for the source,
    /// and the encoded SACK to send back before the forwarder is spawned.
    AcceptNew(u32, Vec<u8>),
    /// A SYN from an address that is already live: dropped, no re-SACK.
    DropDuplicateSyn,
    /// A data envelope matching the source's mapped conn id: the inner bytes,
    /// to be pushed into that connection's ring.
    Deliver(u32, Vec<u8>),
    /// A non-SYN datagram from an address with no live mapping.
    DropUnknownPeer,
    /// A datagram from a live address that its tunnel must not see: a foreign
    /// conn id, or a non-data variant.
    DropStray,
}

/// Model of a receive action, over byte sequences.
#[verifier::ext_equal]
pub enum ActionModel {
    DropMalformed,
    AcceptNew(u32, Seq<u8>),
    DropDuplicateSyn,
    Deliver(u32, Seq<u8>),
    DropUnknownPeer,
    DropStray,
}

impl View for RecvAction {
    type V = ActionModel;

    open spec fn view(&self) -> ActionModel {
        match self {
            RecvAction::DropMalformed => ActionModel::DropMalformed,
            RecvAction::AcceptNew(c, sack) => ActionModel::AcceptNew(*c, sack@),
            RecvAction::DropDuplicateSyn => ActionModel::DropDuplicateSyn,
            RecvAction::Deliver(c, d) => ActionModel::Deliver(*c, d@),
            RecvAction::DropUnknownPeer => ActionModel::DropUnknownPeer,
            RecvAction::DropStray => ActionModel::DropStray,
        }
    }
}

/// The receive loop's decision for one datagram, as the server-side state
/// machine reads it: a SYN from a new address is accepted and answered with a
/// SACK; a SYN from a live address is dropped; data is delivered only to the
/// source's mapped connection and only under its conn id; everything else is
/// dropped.
pub open spec fn spec_recv_action(m: Seq<ConnEntry>, src: PeerAddr, b: Seq<u8>) -> ActionModel {
    match spec_decode(b) {
        Option::None => ActionModel::DropMalformed,
        Option::Some(p) => {
            if p.payload is Syn {
                if has_addr(m, src) {
                    ActionModel::DropDuplicateSyn
                } else {
                    ActionModel::AcceptNew(
                        p.conn_id,
                        spec_encode(PacketModel { conn_id: p.conn_id, payload: PayloadModel::Sack }),
                    )
                }
            } else if !has_addr(m, src) {
                ActionModel::DropUnknownPeer
            } else {
                match p.payload {
                    PayloadModel::Data(d) => {
                        if p.conn_id == conn_at(m, src) {
                            ActionModel::Deliver(p.conn_id, d)
                        } else {
                            ActionModel::DropStray
                        }
                    },
                    _ => ActionModel::DropStray,
                }
            }
        },
    }
}

/// How one datagram changes the socket map: only an accepted SYN changes it,
/// by mapping the source address to the SYN's conn id.
pub open spec fn spec_recv_map(m: Seq<ConnEntry>, src: PeerAddr, b: Seq<u8>) -> Seq<ConnEntry> {
    if spec_recv_action(m, src, b) is AcceptNew {
        m.push(ConnEntry { addr: src, conn_id: spec_decode(b)->Some_0.conn_id })
    } else {
        m
    }
}

/// Map exclusivity: every step of the receive loop keeps at most one map
/// entry per remote address, since only a SYN from an unmapped address
/// inserts, and the forwarder's exit step only removes.
pub proof fn lemma_step_preserves_exclusivity(m: Seq<ConnEntry>, src: PeerAddr, b: Seq<u8>)
    requires
        addrs_unique(m),
    ensures
        addrs_unique(spec_recv_map(m, src, b)),
{
    let m2 = spec_recv_map(m, src, b);
    if spec_recv_action(m, src, b) is AcceptNew {
        assert(!has_addr(m, src));
        assert forall|i: int, j: int|
            0 <= i < m2.len() && 0 <= j < m2.len() && i != j implies m2[i].addr != m2[j].addr by {
            if i < m.len() && j < m.len() {
                assert(m[i].addr != m[j].addr);
            } else if i == m.len() {
                assert(!(0 <= j < m.len() && m[j].addr == src));
            } else {
                assert(!(0 <= i < m.len() && m[i].addr == src));
            }
        }
    }
}

/// Conn id isolation: whenever the receive loop delivers a payload, it
/// delivers it to the connection mapped at the datagram's own source address,
/// under exactly the conn id that connection is bound to and that the
/// datagram itself carried. A tunnel at any other address, or bound to any
/// other conn id, never sees the payload; on the tunnel's own side the
/// receive filter (`try_get_data_payload`) likewise yields bytes only for its
/// bound conn id.
pub proof fn lemma_conn_id_isolation(m: Seq<ConnEntry>, src: PeerAddr, b: Seq<u8>)
    requires
        addrs_unique(m),
    ensures
        spec_recv_action(m, src, b) matches ActionModel::Deliver(c, d) ==> has_addr(m, src) && c
            == conn_at(m, src) && spec_decode(b) == Some(
            PacketModel { conn_id: c, payload: PayloadModel::Data(d) },
        ),
{
    let act = spec_recv_action(m, src, b);
    if act is Deliver {
        let c = act->Deliver_0;
        let d = act->Deliver_1;
        let p = spec_decode(b)->Some_0;
        assert(p.payload matches PayloadModel::Data(d0) && d0 == d);
        assert(spec_decode(b) == Some(PacketModel { conn_id: c, payload: PayloadModel::Data(d) }));
    }
}

/// The server side of the transport: the bound local address and the map of
/// live connections. The I/O shell owns the socket and the per-connection
/// rings; every decision the receive loop takes runs through
/// `process_datagram`.
#[derive(Debug)]
pub struct UdpTunnelListener {
    local: PeerAddr,
    sock_map: SockMap,
}

impl UdpTunnelListener {
    /// The live connections.
    pub closed spec fn conns(self) -> Seq<ConnEntry> {
        self.sock_map@
    }

    /// Well-formed: the socket map never maps an address twice.
    pub open spec fn wf(self) -> bool {
        addrs_unique(self.conns())
    }

    /// The bound local address.
    pub closed spec fn local_spec(self) -> PeerAddr {
        self.local
    }

    /// A listener bound to `local`, with no live connections yet.
    pub fn new(local: PeerAddr) -> (r: Self)
        ensures
            r.wf(),
            r.conns() == Seq::<ConnEntry>::empty(),
            r.local_spec() == local,
    {
        UdpTunnelListener { local, sock_map: SockMap::new() }
    }

    /// The address this listener is bound to.
    pub fn local_addr(&self) -> (r: PeerAddr)
        ensures
            r == self.local_spec(),
    {
        self.local
    }

    /// Classify one inbound datagram and update the socket map accordingly;
    /// exactly the transition `spec_recv_action` / `spec_recv_map` prescribes
    /// for the current map, the source address and the bytes.
    pub fn process_datagram(&mut self, src: PeerAddr, buf: &[u8]) -> (r: RecvAction)
        requires
            old(self).wf(),
        ensures
            final(self).wf(),
            r@ == spec_recv_action(old(self).conns(), src, buf@),
            final(self).conns() == spec_recv_map(old(self).conns(), src, buf@),
            final(self).local_spec() == old(self).local_spec(),
    {
        match decode(buf) {
            Err(_) => RecvAction::DropMalformed,
            Ok(p) => {
                match p.payload {
                    UdpPacketPayload::Syn => {
                        match self.sock_map.lookup(src) {
                            Some(_) => RecvAction::DropDuplicateSyn,
                            None => {
                                let sack = make_sack_frame(p.conn_id);
                                self.sock_map.insert_new(src, p.conn_id);
                                RecvAction::AcceptNew(p.conn_id, sack)
                            },
                        }
                    },
                    UdpPacketPayload::Data(d) => {
                        match self.sock_map.lookup(src) {
                            None => RecvAction::DropUnknownPeer,
                            Some(c) => {
                                if p.conn_id == c {
                                    let r = RecvAction::Deliver(c, d);
                                    proof {
                                        assert(r@ =~= spec_recv_action(
                                            old(self).conns(),
                                            src,
                                            buf@,
                                        ));
                                    }
                                    r
                                } else {
                                    RecvAction::DropStray
                                }
                            },
                        }
                    },
                    UdpPacketPayload::Sack => {
                        match self.sock_map.lookup(src) {
                            None => RecvAction::DropUnknownPeer,
                            Some(_) => RecvAction::DropStray,
                        }
                    },
                    UdpPacketPayload::HolePunch(_) => {
                        match self.sock_map.lookup(src) {
                            None => RecvAction::DropUnknownPeer,
                            Some(_) => RecvAction::DropStray,
                        }
                    },
                }
            },
        }
    }

    /// The forwarder's exit step for a connection: its map entry disappears
    /// and every other connection is untouched. Returns whether the address
    /// was live.
    pub fn forwarder_exited(&mut self, addr: PeerAddr) -> (r: bool)
        requires
            old(self).wf(),
        ensures
            final(self).wf(),
            r <==> has_addr(old(self).conns(), addr),
            !has_addr(final(self).conns(), addr),
            forall|a: PeerAddr|
                a != addr ==> (has_addr(final(self).conns(), a) <==> has_addr(
                    old(self).conns(),
                    a,
                )),
            forall|a: PeerAddr|
                a != addr && has_addr(old(self).conns(), a) ==> conn_at(final(self).conns(), a)
                    == conn_at(old(self).conns(), a),
            r ==> final(self).conns().len() == old(self).conns().len() - 1,
            !r ==> final(self).conns() == old(self).conns(),
            final(self).local_spec() == old(self).local_spec(),
    {
        self.sock_map.remove(addr)
    }

    /// The connection counter: how many server-side tunnels are live,
    /// saturating at the largest 32-bit value.
    pub fn conn_count(&self) -> (r: u32)
        ensures
            self.conns().len() <= u32::MAX ==> r == self.conns().len(),
            self.conns().len() > u32::MAX ==> r == u32::MAX,
    {
        let n = self.sock_map.len();
        if n > u32::MAX as usize {
            u32::MAX
        } else {
            n as u32
        }
    }
}

} // verus!
