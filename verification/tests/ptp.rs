use pico_gnss::frame::{parse_udp_frame, Ipv4Addr, MacAddr};
use pico_gnss::ptp::{build, port_identity, Peer, PTP_PORT};

#[test]
fn identity_is_the_mac_with_ff_fe_inside() {
    let p = port_identity(MacAddr([2, 0, 0, 0xC0, 0xFF, 0xEE]));
    assert_eq!(p.clock, [2, 0, 0, 0xff, 0xfe, 0xC0, 0xFF, 0xEE]);
    assert_eq!(p.port, 1);
    assert_ne!(p, port_identity(MacAddr([2, 0, 0, 0xC0, 0xFF, 0xEF])));
}

#[test]
fn message_is_framed_for_the_peer() {
    let peer = Peer {
        src_mac: MacAddr([2, 0, 0, 0xC0, 0xFF, 0xEE]),
        dst_mac: MacAddr([2, 0, 0, 0xC0, 0xFF, 0xEF]),
        src_ip: Ipv4Addr::new(192, 168, 0, 200),
        dst_ip: Ipv4Addr::new(192, 168, 0, 201),
    };
    let message = [0x10u8; 44];
    let mut frame = [0u8; 128];
    let len = build(&peer, &message, PTP_PORT, 2, &mut frame).unwrap();
    assert_eq!(len, 90);
    let d = parse_udp_frame(&frame[..len - 4]).unwrap();
    assert_eq!((d.src_port, d.dst_port), (319, 319));
    assert_eq!(d.payload, message);
    assert_eq!(d.src_mac, peer.src_mac);
    assert_eq!(d.dst_ip, peer.dst_ip);
    assert_eq!(build(&peer, &message, PTP_PORT, 2, &mut frame[..89]), None);
}
