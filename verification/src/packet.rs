use vstd::prelude::*;

verus! {

/// Hard upper bound, in bytes, on one encoded envelope datagram.
pub const UDP_DATA_MTU: usize = 2500;

/// The payload variants an envelope can carry on the wire.
#[derive(Debug, Clone, PartialEq, Eq)]
pub enum UdpPacketPayload {
    /// Client-to-server connection request.
    Syn,
    /// Server-to-client handshake acknowledgement.
    Sack,
    /// Opaque pass-through bytes for NAT-traversal machinery.
    HolePunch(Vec<u8>),
    /// User payload.
    Data(Vec<u8>),
}

/// The on-wire envelope: a connection identifier plus a tagged payload.
#[derive(Debug, Clone, PartialEq, Eq)]
pub struct UdpPacket {
    pub conn_id: u32,
    pub payload: UdpPacketPayload,
}

/// Mathematical model of a payload: the same variants over byte sequences.
#[verifier::ext_equal]
pub enum PayloadModel {
    Syn,
    Sack,
    HolePunch(Seq<u8>),
    Data(Seq<u8>),
}

/// Mathematical model of an envelope.
#[verifier::ext_equal]
pub struct PacketModel {
    pub conn_id: u32,
    pub payload: PayloadModel,
}

impl View for UdpPacketPayload {
    type V = PayloadModel;

    open spec fn view(&self) -> PayloadModel {
        match self {
            UdpPacketPayload::Syn => PayloadModel::Syn,
            UdpPacketPayload::Sack => PayloadModel::Sack,
            UdpPacketPayload::HolePunch(d) => PayloadModel::HolePunch(d@),
            UdpPacketPayload::Data(d) => PayloadModel::Data(d@),
        }
    }
}

impl View for UdpPacket {
    type V = PacketModel;

    open spec fn view(&self) -> PacketModel {
        PacketModel { conn_id: self.conn_id, payload: self.payload@ }
    }
}

impl UdpPacket {
    /// A data frame bound to a live connection.
    pub fn new_data_packet(conn_id: u32, data: Vec<u8>) -> (r: Self)
        ensures
            r@ == (PacketModel { conn_id, payload: PayloadModel::Data(data@) }),
    {
        Self { conn_id, payload: UdpPacketPayload::Data(data) }
    }

    /// A NAT-traversal frame; its conn id is fixed at zero.
    pub fn new_hole_punch_packet(data: Vec<u8>) -> (r: Self)
        ensures
            r@ == (PacketModel { conn_id: 0, payload: PayloadModel::HolePunch(data@) }),
    {
        Self { conn_id: 0, payload: UdpPacketPayload::HolePunch(data) }
    }

    /// A handshake request carrying the client's chosen conn id.
    pub fn new_syn_packet(conn_id: u32) -> (r: Self)
        ensures
            r@ == (PacketModel { conn_id, payload: PayloadModel::Syn }),
    {
        Self { conn_id, payload: UdpPacketPayload::Syn }
    }

    /// A handshake acknowledgement echoing the client's conn id.
    pub fn new_sack_packet(conn_id: u32) -> (r: Self)
        ensures
            r@ == (PacketModel { conn_id, payload: PayloadModel::Sack }),
    {
        Self { conn_id, payload: UdpPacketPayload::Sack }
    }
}

} // verus!
