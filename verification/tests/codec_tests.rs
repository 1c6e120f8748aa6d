use udp_tunnel::codec::{
    data_payload_span, decode, encode, make_data_frame, make_sack_frame, make_syn_frame,
    try_get_data_payload,
};
use udp_tunnel::errors::TunnelError;
use udp_tunnel::packet::{UdpPacket, UdpPacketPayload, UDP_DATA_MTU};

#[test]
fn round_trip_syn() {
    let p = UdpPacket::new_syn_packet(0xdead_beef);
    let bytes = encode(&p).unwrap();
    let q = decode(&bytes).unwrap();
    assert_eq!(q.conn_id, 0xdead_beef);
    assert!(matches!(q.payload, UdpPacketPayload::Syn));
}

#[test]
fn round_trip_sack() {
    let p = UdpPacket::new_sack_packet(42);
    let bytes = encode(&p).unwrap();
    let q = decode(&bytes).unwrap();
    assert_eq!(q.conn_id, 42);
    assert!(matches!(q.payload, UdpPacketPayload::Sack));
}

#[test]
fn round_trip_data() {
    let p = UdpPacket::new_data_packet(7, vec![1, 2, 3, 4, 5]);
    let bytes = encode(&p).unwrap();
    let q = decode(&bytes).unwrap();
    assert_eq!(q.conn_id, 7);
    match q.payload {
        UdpPacketPayload::Data(d) => assert_eq!(d, vec![1, 2, 3, 4, 5]),
        _ => panic!("expected a data payload"),
    }
}

#[test]
fn round_trip_hole_punch() {
    let p = UdpPacket::new_hole_punch_packet(vec![9, 8, 7]);
    let bytes = encode(&p).unwrap();
    let q = decode(&bytes).unwrap();
    assert_eq!(q.conn_id, 0);
    match q.payload {
        UdpPacketPayload::HolePunch(d) => assert_eq!(d, vec![9, 8, 7]),
        _ => panic!("expected a hole-punch payload"),
    }
}

#[test]
fn syn_wire_image_is_exact() {
    let bytes = make_syn_frame(0x0102_0304);
    assert_eq!(bytes, vec![0x04, 0x03, 0x02, 0x01, 0]);
}

#[test]
fn sack_wire_image_is_exact() {
    let bytes = make_sack_frame(1);
    assert_eq!(bytes, vec![1, 0, 0, 0, 1]);
}

#[test]
fn data_wire_image_is_exact() {
    let p = UdpPacket::new_data_packet(258, vec![0xaa, 0xbb]);
    let bytes = encode(&p).unwrap();
    assert_eq!(bytes, vec![2, 1, 0, 0, 3, 0xaa, 0xbb]);
}

#[test]
fn largest_payload_fits_exactly() {
    let p = UdpPacket::new_data_packet(5, vec![0x55; UDP_DATA_MTU - 5]);
    let bytes = encode(&p).unwrap();
    assert_eq!(bytes.len(), UDP_DATA_MTU);
}

#[test]
fn oversized_payload_is_rejected_before_transmit() {
    let p = UdpPacket::new_data_packet(5, vec![0x55; UDP_DATA_MTU - 4]);
    assert_eq!(encode(&p), Err(TunnelError::EncodeError));
}

#[test]
fn oversized_hole_punch_is_rejected() {
    let p = UdpPacket::new_hole_punch_packet(vec![0; UDP_DATA_MTU]);
    assert_eq!(encode(&p), Err(TunnelError::EncodeError));
}

#[test]
fn decode_rejects_short_buffers() {
    assert_eq!(decode(&[]), Err(TunnelError::DecodeError));
    assert_eq!(decode(&[1, 2, 3, 4]), Err(TunnelError::DecodeError));
}

#[test]
fn decode_rejects_unknown_tag() {
    assert_eq!(decode(&[0, 0, 0, 0, 4]), Err(TunnelError::DecodeError));
    assert_eq!(decode(&[0, 0, 0, 0, 0xff]), Err(TunnelError::DecodeError));
}

#[test]
fn decode_rejects_trailing_bytes_after_syn_or_sack() {
    assert_eq!(decode(&[0, 0, 0, 0, 0, 9]), Err(TunnelError::DecodeError));
    assert_eq!(decode(&[0, 0, 0, 0, 1, 9]), Err(TunnelError::DecodeError));
}

#[test]
fn decode_rejects_oversized_datagram() {
    let mut big = vec![0u8; UDP_DATA_MTU + 1];
    big[4] = 3;
    assert_eq!(decode(&big), Err(TunnelError::DecodeError));
}

#[test]
fn payload_span_points_into_the_buffer() {
    let p = UdpPacket::new_data_packet(9, vec![10, 20, 30]);
    let bytes = encode(&p).unwrap();
    let (start, end) = data_payload_span(&bytes).unwrap();
    assert_eq!((start, end), (5, bytes.len()));
    assert_eq!(&bytes[start..end], &[10, 20, 30]);
}

#[test]
fn payload_span_is_none_for_non_data() {
    assert!(data_payload_span(&make_syn_frame(9)).is_none());
    assert!(data_payload_span(&make_sack_frame(9)).is_none());
    assert!(data_payload_span(&[1, 2, 3]).is_none());
}

#[test]
fn data_filter_yields_own_conn_id_only() {
    let frame = make_data_frame(77, b"PING").unwrap();
    assert_eq!(try_get_data_payload(&frame, 77).unwrap(), b"PING".to_vec());
    assert!(try_get_data_payload(&frame, 78).is_none());
}

#[test]
fn data_filter_drops_non_data_and_garbage() {
    assert!(try_get_data_payload(&make_sack_frame(77), 77).is_none());
    assert!(try_get_data_payload(&make_syn_frame(77), 77).is_none());
    assert!(try_get_data_payload(&[0xde, 0xad], 77).is_none());
}

#[test]
fn data_frame_transforms_its_input() {
    let frame = make_data_frame(1, b"PING").unwrap();
    assert_ne!(frame, b"PING".to_vec());
    assert_eq!(frame.len(), 4 + 5);
    let q = decode(&frame).unwrap();
    match q.payload {
        UdpPacketPayload::Data(d) => assert_eq!(d, b"PING".to_vec()),
        _ => panic!("expected a data payload"),
    }
}

#[test]
fn data_frame_respects_the_mtu() {
    assert!(make_data_frame(1, &vec![0; UDP_DATA_MTU - 5]).is_ok());
    assert_eq!(
        make_data_frame(1, &vec![0; UDP_DATA_MTU - 4]),
        Err(TunnelError::EncodeError)
    );
}
