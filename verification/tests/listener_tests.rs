use udp_tunnel::addr::PeerAddr;
use udp_tunnel::codec::{decode, make_data_frame, make_sack_frame, make_syn_frame};
use udp_tunnel::listener::{RecvAction, UdpTunnelListener};
use udp_tunnel::packet::{UdpPacketPayload, UdpPacket};
use udp_tunnel::tunnel::{tunnel_type, TunnelInfo};

fn peer(last_octet: u8, port: u16) -> PeerAddr {
    PeerAddr::new_v4(127, 0, 0, last_octet, port)
}

#[test]
fn syn_from_new_address_is_accepted_and_sacked() {
    let mut listener = UdpTunnelListener::new(peer(1, 5556));
    let action = listener.process_datagram(peer(9, 4000), &make_syn_frame(321));
    match action {
        RecvAction::AcceptNew(conn_id, sack) => {
            assert_eq!(conn_id, 321);
            assert_eq!(sack, make_sack_frame(321));
            let p = decode(&sack).unwrap();
            assert_eq!(p.conn_id, 321);
            assert!(matches!(p.payload, UdpPacketPayload::Sack));
        }
        other => panic!("expected AcceptNew, got {:?}", other),
    }
    assert_eq!(listener.conn_count(), 1);
}

#[test]
fn duplicate_syn_from_live_address_is_dropped() {
    let mut listener = UdpTunnelListener::new(peer(1, 5556));
    let src = peer(9, 4000);
    assert!(matches!(
        listener.process_datagram(src, &make_syn_frame(1)),
        RecvAction::AcceptNew(..)
    ));
    assert!(matches!(
        listener.process_datagram(src, &make_syn_frame(2)),
        RecvAction::DropDuplicateSyn
    ));
    assert_eq!(listener.conn_count(), 1);
}

#[test]
fn data_is_delivered_to_the_mapped_conn_id() {
    let mut listener = UdpTunnelListener::new(peer(1, 5556));
    let src = peer(9, 4000);
    listener.process_datagram(src, &make_syn_frame(77));
    let frame = make_data_frame(77, b"PING").unwrap();
    match listener.process_datagram(src, &frame) {
        RecvAction::Deliver(conn_id, payload) => {
            assert_eq!(conn_id, 77);
            assert_eq!(payload, b"PING".to_vec());
        }
        other => panic!("expected Deliver, got {:?}", other),
    }
}

#[test]
fn data_with_a_foreign_conn_id_is_dropped() {
    let mut listener = UdpTunnelListener::new(peer(1, 5556));
    let src = peer(9, 4000);
    listener.process_datagram(src, &make_syn_frame(77));
    let frame = make_data_frame(78, b"PING").unwrap();
    assert!(matches!(
        listener.process_datagram(src, &frame),
        RecvAction::DropStray
    ));
    assert_eq!(listener.conn_count(), 1);
}

#[test]
fn two_tunnels_never_cross_payloads() {
    let mut listener = UdpTunnelListener::new(peer(1, 5556));
    let src_a = peer(9, 4000);
    let src_b = peer(10, 4001);
    listener.process_datagram(src_a, &make_syn_frame(100));
    listener.process_datagram(src_b, &make_syn_frame(200));
    assert_eq!(listener.conn_count(), 2);

    let frame_for_a = make_data_frame(100, b"to-a").unwrap();
    assert!(matches!(
        listener.process_datagram(src_b, &frame_for_a),
        RecvAction::DropStray
    ));
    match listener.process_datagram(src_a, &frame_for_a) {
        RecvAction::Deliver(conn_id, payload) => {
            assert_eq!(conn_id, 100);
            assert_eq!(payload, b"to-a".to_vec());
        }
        other => panic!("expected Deliver, got {:?}", other),
    }
}

#[test]
fn stray_datagram_from_unknown_source_is_dropped() {
    let mut listener = UdpTunnelListener::new(peer(1, 5556));
    let src = peer(9, 4000);
    listener.process_datagram(src, &make_syn_frame(77));
    let stray = make_data_frame(77, b"stray").unwrap();
    assert!(matches!(
        listener.process_datagram(peer(66, 9999), &stray),
        RecvAction::DropUnknownPeer
    ));
    assert_eq!(listener.conn_count(), 1);
    let frame = make_data_frame(77, b"PING").unwrap();
    assert!(matches!(
        listener.process_datagram(src, &frame),
        RecvAction::Deliver(..)
    ));
}

#[test]
fn malformed_datagram_is_dropped() {
    let mut listener = UdpTunnelListener::new(peer(1, 5556));
    assert!(matches!(
        listener.process_datagram(peer(9, 4000), &[0xba, 0xad]),
        RecvAction::DropMalformed
    ));
    assert_eq!(listener.conn_count(), 0);
}

#[test]
fn hole_punch_is_tolerated_and_dropped() {
    let mut listener = UdpTunnelListener::new(peer(1, 5556));
    let src = peer(9, 4000);
    let hp = udp_tunnel::codec::encode(&UdpPacket::new_hole_punch_packet(vec![1, 2])).unwrap();
    assert!(matches!(
        listener.process_datagram(src, &hp),
        RecvAction::DropUnknownPeer
    ));
    listener.process_datagram(src, &make_syn_frame(3));
    assert!(matches!(
        listener.process_datagram(src, &hp),
        RecvAction::DropStray
    ));
}

#[test]
fn forwarder_exit_empties_the_map_entry() {
    let mut listener = UdpTunnelListener::new(peer(1, 5556));
    let src_a = peer(9, 4000);
    let src_b = peer(10, 4001);
    listener.process_datagram(src_a, &make_syn_frame(1));
    listener.process_datagram(src_b, &make_syn_frame(2));
    assert!(listener.forwarder_exited(src_a));
    assert_eq!(listener.conn_count(), 1);
    assert!(!listener.forwarder_exited(src_a));
    let frame = make_data_frame(2, b"x").unwrap();
    assert!(matches!(
        listener.process_datagram(src_b, &frame),
        RecvAction::Deliver(..)
    ));
    assert!(listener.forwarder_exited(src_b));
    assert_eq!(listener.conn_count(), 0);
}

#[test]
fn syn_after_forwarder_exit_is_accepted_again() {
    let mut listener = UdpTunnelListener::new(peer(1, 5556));
    let src = peer(9, 4000);
    listener.process_datagram(src, &make_syn_frame(1));
    assert!(listener.forwarder_exited(src));
    assert!(matches!(
        listener.process_datagram(src, &make_syn_frame(5)),
        RecvAction::AcceptNew(5, _)
    ));
}

#[test]
fn listener_reports_its_bound_address() {
    let local = peer(1, 5556);
    let listener = UdpTunnelListener::new(local);
    assert_eq!(listener.local_addr(), local);
}

#[test]
fn tunnel_info_names_both_ends() {
    let info = TunnelInfo::new(peer(1, 5556), peer(9, 4000));
    assert_eq!(info.local, peer(1, 5556));
    assert_eq!(info.remote, peer(9, 4000));
    assert_eq!(tunnel_type(), "udp");
}
