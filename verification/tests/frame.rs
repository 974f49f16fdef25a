use pico_gnss::frame::{build_udp_frame, crc32, frame_len, ones_complement_checksum, parse_udp_frame, Ipv4Addr, MacAddr, UdpFrameSpec, ETHERNET_HEADER_LEN, ETHERTYPE_IPV4, FCS_LEN, IPV4_HEADER_LEN, IP_PROTO_UDP, MIN_ETHERNET_PAYLOAD, UDP_HEADER_LEN};

fn ntp_spec(payload: &[u8]) -> UdpFrameSpec<'_> {
    UdpFrameSpec {
        src_mac: MacAddr([0x02, 0x00, 0x00, 0xC0, 0xFF, 0xEE]),
        dst_mac: MacAddr::broadcast(),
        src_ip: Ipv4Addr::new(192, 168, 0, 200),
        dst_ip: Ipv4Addr::broadcast(),
        src_port: 123,
        dst_port: 123,
        ip_id: 0x1234,
        ttl: 1,
        payload,
    }
}

fn received(spec: &UdpFrameSpec, out: &mut [u8]) -> usize {
    let len = build_udp_frame(spec, out).expect("frame fits");
    len - FCS_LEN
}

#[test]
fn a_frame_parses_back_into_what_was_put_in_it() {
    let payload: [u8; 48] = core::array::from_fn(|i| i as u8);
    let spec = ntp_spec(&payload);
    let mut buf = [0u8; 128];
    let len = received(&spec, &mut buf);

    let got = parse_udp_frame(&buf[..len]).expect("parses");
    assert_eq!(got.src_mac, spec.src_mac);
    assert_eq!(got.dst_mac, spec.dst_mac);
    assert_eq!(got.src_ip, spec.src_ip);
    assert_eq!(got.dst_ip, spec.dst_ip);
    assert_eq!(got.src_port, spec.src_port);
    assert_eq!(got.dst_port, spec.dst_port);
    assert_eq!(got.payload, &payload[..]);
}

#[test]
fn the_padding_on_a_short_frame_is_not_payload() {
    let payload = [0xDE, 0xAD, 0xBE, 0xEF];
    let spec = ntp_spec(&payload);
    let mut buf = [0u8; 128];
    let len = received(&spec, &mut buf);
    assert!(
        len >= ETHERNET_HEADER_LEN + MIN_ETHERNET_PAYLOAD,
        "frame was padded"
    );

    let got = parse_udp_frame(&buf[..len]).expect("parses");
    assert_eq!(got.payload, &payload[..]);
}

#[test]
fn a_frame_that_is_not_ipv4_is_refused() {
    let payload = [0u8; 48];
    let spec = ntp_spec(&payload);
    let mut buf = [0u8; 128];
    let len = received(&spec, &mut buf);
    buf[12] = 0x86;
    buf[13] = 0xDD;
    assert_eq!(parse_udp_frame(&buf[..len]), None);
}

#[test]
fn a_frame_that_is_not_udp_is_refused() {
    let payload = [0u8; 48];
    let spec = ntp_spec(&payload);
    let mut buf = [0u8; 128];
    let len = received(&spec, &mut buf);
    let ip = ETHERNET_HEADER_LEN;
    buf[ip + 9] = 6;
    buf[ip + 10] = 0;
    buf[ip + 11] = 0;
    let sum = ones_complement_checksum(&buf[ip..ip + IPV4_HEADER_LEN], 0);
    buf[ip + 10..ip + 12].copy_from_slice(&sum.to_be_bytes());
    assert_eq!(parse_udp_frame(&buf[..len]), None);
}

#[test]
fn a_frame_with_a_broken_ip_checksum_is_refused() {
    let payload = [0u8; 48];
    let spec = ntp_spec(&payload);
    let mut buf = [0u8; 128];
    let len = received(&spec, &mut buf);
    buf[ETHERNET_HEADER_LEN + 10] ^= 0xFF;
    assert_eq!(parse_udp_frame(&buf[..len]), None);
}

#[test]
fn a_frame_with_a_broken_udp_checksum_is_refused() {
    let payload = [0u8; 48];
    let spec = ntp_spec(&payload);
    let mut buf = [0u8; 128];
    let len = received(&spec, &mut buf);
    let udp = ETHERNET_HEADER_LEN + IPV4_HEADER_LEN;
    buf[udp + 6] ^= 0xFF;
    assert_eq!(parse_udp_frame(&buf[..len]), None);
}

#[test]
fn a_frame_cut_short_is_refused() {
    let payload = [0u8; 48];
    let spec = ntp_spec(&payload);
    let mut buf = [0u8; 128];
    let len = received(&spec, &mut buf);
    for cut in [
        0,
        1,
        ETHERNET_HEADER_LEN,
        ETHERNET_HEADER_LEN + IPV4_HEADER_LEN,
        len - 1,
    ] {
        assert_eq!(parse_udp_frame(&buf[..cut]), None, "cut at {cut}");
    }
}

const NTP_PAYLOAD: [u8; 48] = [0xAB; 48];

fn spec(payload: &[u8]) -> UdpFrameSpec<'_> {
    UdpFrameSpec {
        src_mac: MacAddr([0x02, 0x00, 0x00, 0xC0, 0xFF, 0xEE]),
        dst_mac: MacAddr::broadcast(),
        src_ip: Ipv4Addr::new(192, 168, 1, 200),
        dst_ip: Ipv4Addr::broadcast(),
        src_port: 123,
        dst_port: 123,
        ip_id: 0x1234,
        ttl: 64,
        payload,
    }
}

#[test]
fn crc32_matches_the_standard_check_value() {
    assert_eq!(crc32(b"123456789"), 0xCBF4_3926);
}

#[test]
fn crc32_of_nothing_is_zero() {
    assert_eq!(crc32(b""), 0);
}

#[test]
fn ones_complement_checksum_of_a_known_header() {
    let data = [0x00, 0x01, 0xf2, 0x03, 0xf4, 0xf5, 0xf6, 0xf7];
    assert_eq!(ones_complement_checksum(&data, 0), 0x220d);
}

#[test]
fn ones_complement_checksum_handles_an_odd_length() {
    assert_eq!(
        ones_complement_checksum(&[0x12], 0),
        ones_complement_checksum(&[0x12, 0x00], 0)
    );
}

#[test]
fn broadcast_mac_is_all_ones() {
    assert_eq!(MacAddr::broadcast().0, [0xFF; 6]);
}

#[test]
fn ntp_multicast_maps_to_the_expected_mac() {
    assert_eq!(
        MacAddr::for_ipv4_multicast(Ipv4Addr::ntp_multicast()),
        MacAddr([0x01, 0x00, 0x5e, 0x00, 0x01, 0x01])
    );
}

#[test]
fn multicast_mapping_drops_the_25th_bit() {
    assert_eq!(
        MacAddr::for_ipv4_multicast(Ipv4Addr::new(224, 128, 1, 1)),
        MacAddr::for_ipv4_multicast(Ipv4Addr::new(224, 0, 1, 1))
    );
}

#[test]
fn multicast_detection_covers_the_whole_class_d_range() {
    assert!(Ipv4Addr::new(224, 0, 0, 0).is_multicast());
    assert!(Ipv4Addr::new(239, 255, 255, 255).is_multicast());
    assert!(!Ipv4Addr::new(223, 255, 255, 255).is_multicast());
    assert!(!Ipv4Addr::broadcast().is_multicast());
}

#[test]
fn frame_length_for_an_ntp_payload() {
    assert_eq!(frame_len(48), 94);
}

#[test]
fn short_payloads_pad_to_the_ethernet_minimum() {
    assert_eq!(frame_len(1), 64);
}

#[test]
fn build_writes_exactly_frame_len_bytes() {
    let mut out = [0u8; 128];
    let n = build_udp_frame(&spec(&NTP_PAYLOAD), &mut out).expect("buffer is big enough");
    assert_eq!(n, frame_len(NTP_PAYLOAD.len()));
}

#[test]
fn build_refuses_a_buffer_that_is_too_small() {
    let mut out = [0u8; 93];
    assert_eq!(build_udp_frame(&spec(&NTP_PAYLOAD), &mut out), None);
}

#[test]
fn ethernet_header_carries_the_macs_and_the_ipv4_ethertype() {
    let mut out = [0u8; 128];
    let s = spec(&NTP_PAYLOAD);
    build_udp_frame(&s, &mut out).unwrap();
    assert_eq!(&out[0..6], &s.dst_mac.0);
    assert_eq!(&out[6..12], &s.src_mac.0);
    assert_eq!(&out[12..14], &ETHERTYPE_IPV4.to_be_bytes());
}

#[test]
fn ipv4_header_is_a_20_byte_udp_datagram() {
    let mut out = [0u8; 128];
    let s = spec(&NTP_PAYLOAD);
    build_udp_frame(&s, &mut out).unwrap();
    let ip = &out[14..34];
    assert_eq!(ip[0], 0x45, "version 4, IHL 5 (no options)");
    assert_eq!(
        u16::from_be_bytes([ip[2], ip[3]]),
        (IPV4_HEADER_LEN + UDP_HEADER_LEN + 48) as u16,
        "total length counts IP header onward, never the Ethernet header"
    );
    assert_eq!(u16::from_be_bytes([ip[4], ip[5]]), 0x1234, "id");
    assert_eq!(ip[8], 64, "ttl");
    assert_eq!(ip[9], IP_PROTO_UDP);
    assert_eq!(&ip[12..16], &s.src_ip.0);
    assert_eq!(&ip[16..20], &s.dst_ip.0);
}

#[test]
fn ipv4_header_checksum_verifies() {
    let mut out = [0u8; 128];
    build_udp_frame(&spec(&NTP_PAYLOAD), &mut out).unwrap();
    assert_eq!(ones_complement_checksum(&out[14..34], 0), 0);
}

#[test]
fn udp_header_carries_the_ports_and_its_own_length() {
    let mut out = [0u8; 128];
    build_udp_frame(&spec(&NTP_PAYLOAD), &mut out).unwrap();
    let udp = &out[34..42];
    assert_eq!(u16::from_be_bytes([udp[0], udp[1]]), 123);
    assert_eq!(u16::from_be_bytes([udp[2], udp[3]]), 123);
    assert_eq!(
        u16::from_be_bytes([udp[4], udp[5]]),
        (UDP_HEADER_LEN + 48) as u16,
        "UDP length includes its own header"
    );
}

#[test]
fn udp_checksum_is_present_and_verifies_over_the_pseudo_header() {
    let mut out = [0u8; 128];
    let s = spec(&NTP_PAYLOAD);
    build_udp_frame(&s, &mut out).unwrap();
    let udp = &out[34..42 + 48];
    assert_ne!(
        u16::from_be_bytes([udp[6], udp[7]]),
        0,
        "zero means 'no checksum' in IPv4 UDP; we always compute one"
    );
    let udp_len = (UDP_HEADER_LEN + 48) as u32;
    let mut sum = 0u32;
    for chunk in s.src_ip.0.chunks(2).chain(s.dst_ip.0.chunks(2)) {
        sum += u16::from_be_bytes([chunk[0], chunk[1]]) as u32;
    }
    sum += IP_PROTO_UDP as u32 + udp_len;
    assert_eq!(ones_complement_checksum(udp, sum), 0);
}

#[test]
fn payload_lands_after_the_headers() {
    let mut out = [0u8; 128];
    build_udp_frame(&spec(&NTP_PAYLOAD), &mut out).unwrap();
    assert_eq!(&out[42..90], &NTP_PAYLOAD);
}

#[test]
fn padding_is_zero_and_not_counted_by_the_ip_header() {
    let mut out = [0u8; 128];
    let s = spec(&[0x5A]);
    let n = build_udp_frame(&s, &mut out).unwrap();
    assert_eq!(n, 64);
    assert_eq!(out[42], 0x5A, "the one payload byte");
    assert!(
        out[43..60].iter().all(|&b| b == 0),
        "padding to the 46-byte floor must be zeros"
    );
    let ip = &out[14..34];
    assert_eq!(
        u16::from_be_bytes([ip[2], ip[3]]),
        (IPV4_HEADER_LEN + UDP_HEADER_LEN + 1) as u16,
        "IP total length describes the datagram, not the padded Ethernet payload"
    );
}

#[test]
fn an_ipv4_packet_with_no_room_for_a_udp_header_is_refused() {
    const IHL_WORDS: u8 = 15;
    const IHL: usize = IHL_WORDS as usize * 4;
    let mut frame = [0u8; ETHERNET_HEADER_LEN + IHL];
    frame[12..14].copy_from_slice(&ETHERTYPE_IPV4.to_be_bytes());
    let ip = ETHERNET_HEADER_LEN;
    frame[ip] = 0x40 | IHL_WORDS;
    frame[ip + 2..ip + 4].copy_from_slice(&(IHL as u16).to_be_bytes());
    frame[ip + 9] = IP_PROTO_UDP;
    let checksum = ones_complement_checksum(&frame[ip..ip + IHL], 0);
    frame[ip + 10..ip + 12].copy_from_slice(&checksum.to_be_bytes());

    assert!(parse_udp_frame(&frame).is_none());
}

#[test]
fn fcs_is_the_crc_of_everything_before_it_little_endian() {
    let mut out = [0u8; 128];
    let n = build_udp_frame(&spec(&NTP_PAYLOAD), &mut out).unwrap();
    let expected = crc32(&out[..n - FCS_LEN]);
    assert_eq!(&out[n - FCS_LEN..n], &expected.to_le_bytes());
}
