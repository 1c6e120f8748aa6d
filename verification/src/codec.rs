use vstd::prelude::*;

use crate::errors::TunnelError;
use crate::packet::{PacketModel, PayloadModel, UdpPacket, UdpPacketPayload, UDP_DATA_MTU};

verus! {

/// Wire tag of a SYN envelope.
pub const TAG_SYN: u8 = 0;
/// Wire tag of a SACK envelope.
pub const TAG_SACK: u8 = 1;
/// Wire tag of a hole-punch envelope.
pub const TAG_HOLE_PUNCH: u8 = 2;
/// Wire tag of a data envelope.
pub const TAG_DATA: u8 = 3;

/// The conn id as it stands on the wire: four bytes, least significant first.
pub open spec fn le_bytes_of_u32(x: u32) -> Seq<u8> {
    seq![
        (x & 0xff) as u8,
        ((x >> 8) & 0xff) as u8,
        ((x >> 16) & 0xff) as u8,
        ((x >> 24) & 0xff) as u8,
    ]
}

/// The conn id read back from its four wire bytes.
pub open spec fn u32_of_le_bytes(b0: u8, b1: u8, b2: u8, b3: u8) -> u32 {
    (b0 as u32) | ((b1 as u32) << 8) | ((b2 as u32) << 16) | ((b3 as u32) << 24)
}

/// The tag byte of each payload variant.
pub open spec fn payload_tag(p: PayloadModel) -> u8 {
    match p {
        PayloadModel::Syn => TAG_SYN,
        PayloadModel::Sack => TAG_SACK,
        PayloadModel::HolePunch(_) => TAG_HOLE_PUNCH,
        PayloadModel::Data(_) => TAG_DATA,
    }
}

/// The bytes a payload variant carries after its tag.
pub open spec fn payload_bytes(p: PayloadModel) -> Seq<u8> {
    match p {
        PayloadModel::Syn => Seq::empty(),
        PayloadModel::Sack => Seq::empty(),
        PayloadModel::HolePunch(d) => d,
        PayloadModel::Data(d) => d,
    }
}

/// The whole envelope on the wire: conn id, tag byte, payload bytes.
pub open spec fn spec_encode(p: PacketModel) -> Seq<u8> {
    le_bytes_of_u32(p.conn_id) + seq![payload_tag(p.payload)] + payload_bytes(p.payload)
}

/// An envelope fits in one datagram exactly when its encoding stays within the MTU.
pub open spec fn encodable(p: PacketModel) -> bool {
    spec_encode(p).len() <= UDP_DATA_MTU
}

/// Checked decoding: a byte sequence is either one well-formed envelope or nothing.
/// SYN and SACK admit no trailing bytes; hole-punch and data take the whole tail.
pub open spec fn spec_decode(b: Seq<u8>) -> Option<PacketModel> {
    if b.len() < 5 || b.len() > UDP_DATA_MTU {
        None
    } else {
        let conn_id = u32_of_le_bytes(b[0], b[1], b[2], b[3]);
        if b[4] == TAG_SYN {
            if b.len() == 5 {
                Some(PacketModel { conn_id, payload: PayloadModel::Syn })
            } else {
                None
            }
        } else if b[4] == TAG_SACK {
            if b.len() == 5 {
                Some(PacketModel { conn_id, payload: PayloadModel::Sack })
            } else {
                None
            }
        } else if b[4] == TAG_HOLE_PUNCH {
            Some(
                PacketModel {
                    conn_id,
                    payload: PayloadModel::HolePunch(b.subrange(5, b.len() as int)),
                },
            )
        } else if b[4] == TAG_DATA {
            Some(
                PacketModel { conn_id, payload: PayloadModel::Data(b.subrange(5, b.len() as int)) },
            )
        } else {
            None
        }
    }
}

proof fn lemma_u32_le_identity(x: u32)
    ensures
        u32_of_le_bytes(
            (x & 0xff) as u8,
            ((x >> 8) & 0xff) as u8,
            ((x >> 16) & 0xff) as u8,
            ((x >> 24) & 0xff) as u8,
        ) == x,
{
    assert((((x & 0xff) as u8) as u32) | ((((x >> 8) & 0xff) as u8) as u32) << 8 | ((((x >> 16)
        & 0xff) as u8) as u32) << 16 | ((((x >> 24) & 0xff) as u8) as u32) << 24 == x)
        by (bit_vector);
}

proof fn lemma_le_bytes_inverse(b0: u8, b1: u8, b2: u8, b3: u8)
    ensures
        le_bytes_of_u32(u32_of_le_bytes(b0, b1, b2, b3)) =~= seq![b0, b1, b2, b3],
{
    assert((((b0 as u32) | ((b1 as u32) << 8) | ((b2 as u32) << 16) | ((b3 as u32) << 24)) & 0xff)
        as u8 == b0) by (bit_vector);
    assert(((((b0 as u32) | ((b1 as u32) << 8) | ((b2 as u32) << 16) | ((b3 as u32) << 24)) >> 8)
        & 0xff) as u8 == b1) by (bit_vector);
    assert(((((b0 as u32) | ((b1 as u32) << 8) | ((b2 as u32) << 16) | ((b3 as u32) << 24)) >> 16)
        & 0xff) as u8 == b2) by (bit_vector);
    assert(((((b0 as u32) | ((b1 as u32) << 8) | ((b2 as u32) << 16) | ((b3 as u32) << 24)) >> 24)
        & 0xff) as u8 == b3) by (bit_vector);
}

/// Envelope round-trip: decoding the encoding of any envelope that fits in the
/// MTU gives back exactly that envelope.
pub proof fn lemma_round_trip(p: PacketModel)
    requires
        encodable(p),
    ensures
        spec_decode(spec_encode(p)) == Some(p),
{
    let b = spec_encode(p);
    lemma_u32_le_identity(p.conn_id);
    assert(b.len() == 5 + payload_bytes(p.payload).len());
    assert(b[0] == le_bytes_of_u32(p.conn_id)[0]);
    assert(b[1] == le_bytes_of_u32(p.conn_id)[1]);
    assert(b[2] == le_bytes_of_u32(p.conn_id)[2]);
    assert(b[3] == le_bytes_of_u32(p.conn_id)[3]);
    assert(b[4] == payload_tag(p.payload));
    assert(u32_of_le_bytes(b[0], b[1], b[2], b[3]) == p.conn_id);
    assert(b.subrange(5, b.len() as int) =~= payload_bytes(p.payload));
    match p.payload {
        PayloadModel::Syn => {
            assert(spec_decode(b) == Some(p));
        },
        PayloadModel::Sack => {
            assert(spec_decode(b) == Some(p));
        },
        PayloadModel::HolePunch(d) => {
            assert(spec_decode(b) matches Some(q) && q =~= p);
        },
        PayloadModel::Data(d) => {
            assert(spec_decode(b) matches Some(q) && q =~= p);
        },
    }
}

/// The format is canonical: whatever decodes was the encoding of what came out,
/// so no two distinct envelopes share a wire image.
pub proof fn lemma_decode_canonical(b: Seq<u8>)
    ensures
        spec_decode(b) matches Some(p) ==> spec_encode(p) =~= b && encodable(p),
{
    if spec_decode(b) is Some {
        let p = spec_decode(b)->Some_0;
        lemma_le_bytes_inverse(b[0], b[1], b[2], b[3]);
        assert(spec_encode(p) =~= b);
    }
}

/// Encode an envelope for transmit. Succeeds exactly when the envelope fits in
/// the MTU, and then returns its precise wire image; an oversized payload is
/// rejected before anything is sent.
pub fn encode(p: &UdpPacket) -> (r: Result<Vec<u8>, TunnelError>)
    ensures
        r is Ok <==> encodable(p@),
        r matches Ok(v) ==> v@ == spec_encode(p@) && v@.len() <= UDP_DATA_MTU,
        r is Err ==> r == Err::<Vec<u8>, TunnelError>(TunnelError::EncodeError),
{
    let payload_len: usize = match &p.payload {
        UdpPacketPayload::Syn => 0,
        UdpPacketPayload::Sack => 0,
        UdpPacketPayload::HolePunch(d) => d.len(),
        UdpPacketPayload::Data(d) => d.len(),
    };
    assert(payload_len == payload_bytes(p@.payload).len());
    if payload_len > UDP_DATA_MTU - 5 {
        return Err(TunnelError::EncodeError);
    }
    let cid = p.conn_id;
    proof {
        assert(cid & 0xff < 256) by (bit_vector);
        assert((cid >> 8) & 0xff < 256) by (bit_vector);
        assert((cid >> 16) & 0xff < 256) by (bit_vector);
        assert((cid >> 24) & 0xff < 256) by (bit_vector);
    }
    let mut out: Vec<u8> = Vec::new();
    out.push((cid & 0xff) as u8);
    out.push(((cid >> 8) & 0xff) as u8);
    out.push(((cid >> 16) & 0xff) as u8);
    out.push(((cid >> 24) & 0xff) as u8);
    match &p.payload {
        UdpPacketPayload::Syn => {
            out.push(TAG_SYN);
        },
        UdpPacketPayload::Sack => {
            out.push(TAG_SACK);
        },
        UdpPacketPayload::HolePunch(d) => {
            out.push(TAG_HOLE_PUNCH);
            push_bytes(&mut out, d);
        },
        UdpPacketPayload::Data(d) => {
            out.push(TAG_DATA);
            push_bytes(&mut out, d);
        },
    }
    proof {
        assert(out@ =~= spec_encode(p@));
    }
    Ok(out)
}

/// Append every byte of `data` to `out`.
fn push_bytes(out: &mut Vec<u8>, data: &Vec<u8>)
    requires
        old(out)@.len() + data@.len() <= usize::MAX,
    ensures
        final(out)@ == old(out)@ + data@,
{
    let ghost base = out@;
    let mut i: usize = 0;
    while i < data.len()
        invariant
            i <= data@.len(),
            base.len() + data@.len() <= usize::MAX,
            out@ =~= base + data@.subrange(0, i as int),
        decreases data@.len() - i,
    {
        out.push(data[i]);
        i += 1;
        proof {
            assert(out@ =~= base + data@.subrange(0, i as int));
        }
    }
    proof {
        assert(data@.subrange(0, data@.len() as int) =~= data@);
        assert(out@ =~= base + data@);
    }
}

/// Copy the bytes of `b` from position `from` to the end into a fresh vector.
fn copy_tail(b: &[u8], from: usize) -> (r: Vec<u8>)
    requires
        from <= b@.len(),
    ensures
        r@ == b@.subrange(from as int, b@.len() as int),
{
    let mut out: Vec<u8> = Vec::new();
    let mut i: usize = from;
    let n = b.len();
    while i < n
        invariant
            from <= i <= n,
            n == b@.len(),
            out@ =~= b@.subrange(from as int, i as int),
        decreases n - i,
    {
        let byte = *vstd::slice::slice_index_get(b, i);
        out.push(byte);
        i += 1;
        proof {
            assert(out@ =~= b@.subrange(from as int, i as int));
        }
    }
    proof {
        assert(out@ =~= b@.subrange(from as int, b@.len() as int));
    }
    out
}

/// Decode one datagram. Succeeds exactly on the well-formed wire images and
/// then returns the envelope that `spec_decode` reads out of the bytes;
/// anything else is a decode error and no partial value escapes.
pub fn decode(b: &[u8]) -> (r: Result<UdpPacket, TunnelError>)
    ensures
        r is Ok <==> spec_decode(b@) is Some,
        r matches Ok(p) ==> spec_decode(b@) == Some(p@),
        r is Err ==> r == Err::<UdpPacket, TunnelError>(TunnelError::DecodeError),
{
    let n = b.len();
    if n < 5 || n > UDP_DATA_MTU {
        return Err(TunnelError::DecodeError);
    }
    let b0 = *vstd::slice::slice_index_get(b, 0);
    let b1 = *vstd::slice::slice_index_get(b, 1);
    let b2 = *vstd::slice::slice_index_get(b, 2);
    let b3 = *vstd::slice::slice_index_get(b, 3);
    let conn_id = (b0 as u32) | ((b1 as u32) << 8) | ((b2 as u32) << 16) | ((b3 as u32) << 24);
    assert(conn_id == u32_of_le_bytes(b@[0], b@[1], b@[2], b@[3]));
    let tag = *vstd::slice::slice_index_get(b, 4);
    if tag == TAG_SYN {
        if n == 5 {
            Ok(UdpPacket { conn_id, payload: UdpPacketPayload::Syn })
        } else {
            Err(TunnelError::DecodeError)
        }
    } else if tag == TAG_SACK {
        if n == 5 {
            Ok(UdpPacket { conn_id, payload: UdpPacketPayload::Sack })
        } else {
            Err(TunnelError::DecodeError)
        }
    } else if tag == TAG_HOLE_PUNCH {
        let data = copy_tail(b, 5);
        Ok(UdpPacket { conn_id, payload: UdpPacketPayload::HolePunch(data) })
    } else if tag == TAG_DATA {
        let data = copy_tail(b, 5);
        Ok(UdpPacket { conn_id, payload: UdpPacketPayload::Data(data) })
    } else {
        Err(TunnelError::DecodeError)
    }
}

/// Whether the bytes decode to a data envelope bound to `conn_id`.
pub open spec fn is_data_for(b: Seq<u8>, conn_id: u32) -> bool {
    spec_decode(b) matches Some(p) && p.conn_id == conn_id && p.payload is Data
}

/// Zero-copy access to a data payload: the half-open byte range that the inner
/// data occupies within the datagram, exposed so a caller can slice the
/// original buffer instead of copying. `None` whenever the datagram is not a
/// well-formed data envelope.
pub fn data_payload_span(b: &[u8]) -> (r: Option<(usize, usize)>)
    ensures
        r is Some <==> (spec_decode(b@) matches Some(p) && p.payload is Data),
        r matches Some(span) ==> span.0 == 5 && span.1 == b@.len() && (spec_decode(
            b@,
        )->Some_0.payload->Data_0 == b@.subrange(5, b@.len() as int)),
{
    let n = b.len();
    if n < 5 || n > UDP_DATA_MTU {
        return None;
    }
    let tag = *vstd::slice::slice_index_get(b, 4);
    if tag == TAG_DATA {
        Some((5, n))
    } else {
        None
    }
}

/// The per-connection receive filter: yields the inner bytes exactly when the
/// datagram is a well-formed data envelope carrying this tunnel's conn id.
/// Malformed datagrams, foreign conn ids and non-data variants all yield
/// nothing, so they can be dropped without touching the tunnel's stream.
pub fn try_get_data_payload(b: &[u8], conn_id: u32) -> (r: Option<Vec<u8>>)
    ensures
        r is Some <==> is_data_for(b@, conn_id),
        r matches Some(v) ==> v@ == spec_decode(b@)->Some_0.payload->Data_0,
{
    match decode(b) {
        Ok(p) => {
            if p.conn_id != conn_id {
                return None;
            }
            match p.payload {
                UdpPacketPayload::Data(d) => Some(d),
                _ => None,
            }
        },
        Err(_) => None,
    }
}

/// The wire image of a SYN envelope with the given conn id.
pub fn make_syn_frame(conn_id: u32) -> (r: Vec<u8>)
    ensures
        r@ == spec_encode(PacketModel { conn_id, payload: PayloadModel::Syn }),
        r@.len() == 5,
{
    let p = UdpPacket::new_syn_packet(conn_id);
    assert(encodable(p@));
    match encode(&p) {
        Ok(v) => v,
        Err(_) => vstd::pervasive::unreached(),
    }
}

/// The wire image of a SACK envelope with the given conn id.
pub fn make_sack_frame(conn_id: u32) -> (r: Vec<u8>)
    ensures
        r@ == spec_encode(PacketModel { conn_id, payload: PayloadModel::Sack }),
        r@.len() == 5,
{
    let p = UdpPacket::new_sack_packet(conn_id);
    assert(encodable(p@));
    match encode(&p) {
        Ok(v) => v,
        Err(_) => vstd::pervasive::unreached(),
    }
}

/// Wrap outgoing user bytes as a data envelope bound to `conn_id`. Succeeds
/// exactly when the envelope fits in the MTU, so nothing larger than the MTU
/// is ever handed to the socket.
pub fn make_data_frame(conn_id: u32, data: &[u8]) -> (r: Result<Vec<u8>, TunnelError>)
    ensures
        r is Ok <==> 5 + data@.len() <= UDP_DATA_MTU,
        r matches Ok(v) ==> v@ == spec_encode(
            PacketModel { conn_id, payload: PayloadModel::Data(data@) },
        ) && v@.len() <= UDP_DATA_MTU,
        r is Err ==> r == Err::<Vec<u8>, TunnelError>(TunnelError::EncodeError),
{
    let owned = vstd::slice::slice_to_vec(data);
    let p = UdpPacket::new_data_packet(conn_id, owned);
    encode(&p)
}

} // verus!
