use pico_gnss::frame::{
    build_udp_frame, crc32, ones_complement_checksum, parse_udp_frame, Ipv4Addr, MacAddr,
    UdpFrameSpec,
};
use pico_gnss::phy::{encode_frame, manchester_word, SYMBOL_HIGH, SYMBOL_IDLE, SYMBOL_LOW};
use pico_gnss::rx::{symbols_of, FrameDecoder, RxEvent};
use pico_gnss::server::{
    broadcast, root_dispersion_ns, silent_reason, ClockState, ServeDecision, ServerConfig,
    SilentReason,
};
use pico_gnss::timestamp::{NtpShort, NtpTimestamp};

const CFG: ServerConfig = ServerConfig {
    precision: -15,
    poll: 0,
    reference_id: *b"GPS\0",
    base_dispersion_ns: 1_000_000,
    holdover_drift_ppb: 1_000,
    max_holdover_ns: 3_600_000_000_000,
};

#[test]
fn nanoseconds_survive_the_wire() {
    for ns in [
        0i64,
        1,
        -1,
        999_999_999,
        1_700_000_000_123_456_789,
        2_085_978_496_000_000_001,
        -2_208_988_800_000_000_000,
        i64::MAX,
        -9_223_372_036_000_000_000,
    ] {
        let t = NtpTimestamp::from_unix_ns(ns);
        assert_eq!(t.to_unix_ns_in_era(NtpTimestamp::era_of_unix_ns(ns)), ns);
        assert_eq!(t.to_unix_ns_near(ns), ns);
        assert_eq!(NtpTimestamp::from_bits(t.to_bits()), t);
    }
}

#[test]
fn era_is_the_nearest_to_the_reference() {
    let t = 2_085_978_496_000_000_000i64 + 5_000_000_000;
    let wire = NtpTimestamp::from_unix_ns(t);
    let years = 31_557_600_000_000_000i64;
    for off in [-60 * years, -1, 0, 1, 60 * years] {
        assert_eq!(wire.to_unix_ns_near(t + off), t);
    }
    assert_ne!(wire.to_unix_ns_near(t - 80 * years), t);
}

#[test]
fn short_values_round_trip_and_never_shrink() {
    for bits in [0u32, 1, 0xffff, 0x1_0000, 0x1234_5678, u32::MAX] {
        assert_eq!(NtpShort::from_nanos(NtpShort::from_bits(bits).to_nanos()).to_bits(), bits);
    }
    let mut last = 0;
    for ns in [0u64, 1, 15_258, 15_259, 1_000_000, 65_535_999_999_999, u64::MAX] {
        let b = NtpShort::from_nanos(ns).to_bits();
        assert!(b >= last);
        last = b;
    }
}

#[test]
fn dispersion_grows_with_the_holdover() {
    let mut last = 0;
    for h in [0u64, 1_000_000_000, 60_000_000_000, 3_600_000_000_000, u64::MAX] {
        let d = root_dispersion_ns(&CFG, h);
        assert!(d >= last && d >= CFG.base_dispersion_ns);
        last = d;
    }
    assert_eq!(root_dispersion_ns(&CFG, 1_000_000_000_000), 2_000_000);
}

#[test]
fn served_time_reads_back_exactly() {
    let state = ClockState {
        last_update_unix_ns: Some(1_700_000_000_000_000_000),
        holdover_ns: 5,
        frequency_locked: true,
    };
    let transmit = 1_700_000_001_000_236_200i64;
    match broadcast(&CFG, &state, transmit) {
        ServeDecision::Serve(p) => {
            assert_eq!(p.transmit_timestamp.to_unix_ns_near(transmit - 1_000_000_000_000), transmit)
        }
        ServeDecision::Silent(_) => panic!("silent"),
    }
    assert_eq!(silent_reason(&CFG, &state), None);
}

#[test]
fn silence_has_a_fixed_order_of_reasons() {
    let none = ClockState { last_update_unix_ns: None, holdover_ns: u64::MAX, frequency_locked: false };
    assert_eq!(silent_reason(&CFG, &none), Some(SilentReason::NoEpoch));
    let unlocked = ClockState { last_update_unix_ns: Some(0), ..none };
    assert_eq!(silent_reason(&CFG, &unlocked), Some(SilentReason::FrequencyUnlocked));
    let old = ClockState { frequency_locked: true, ..unlocked };
    assert_eq!(silent_reason(&CFG, &old), Some(SilentReason::HoldoverExceeded));
}

#[test]
fn checksum_of_checksummed_data_is_zero() {
    let mut header = *b"\x45\x00\x00\x4c\x00\x07\x00\x00\x01\x11\x00\x00\xc0\xa8\x00\xc8\xff\xff\xff\xff";
    let ck = ones_complement_checksum(&header, 0);
    header[10..12].copy_from_slice(&ck.to_be_bytes());
    assert_eq!(ones_complement_checksum(&header, 0), 0);
}

#[test]
fn built_frames_are_whole_and_parse_back() {
    for n in [0usize, 1, 17, 18, 19, 48, 1472] {
        let payload: Vec<u8> = (0..n).map(|i| (i * 7) as u8).collect();
        let spec = UdpFrameSpec {
            src_mac: MacAddr([2, 3, 4, 5, 6, 7]),
            dst_mac: MacAddr([8, 9, 10, 11, 12, 13]),
            src_ip: Ipv4Addr::new(10, 0, 0, 1),
            dst_ip: Ipv4Addr::new(10, 0, 0, 2),
            src_port: 1,
            dst_port: 2,
            ip_id: 3,
            ttl: 4,
            payload: &payload,
        };
        let mut out = vec![0u8; 1600];
        let len = build_udp_frame(&spec, &mut out).unwrap();
        assert!(len >= 64);
        assert_eq!(out[len - 4..len], crc32(&out[..len - 4]).to_le_bytes());
        let d = parse_udp_frame(&out[..len - 4]).unwrap();
        assert_eq!(d.payload, &payload[..]);
        assert_eq!((d.src_mac, d.dst_mac), (spec.src_mac, spec.dst_mac));
        assert_eq!((d.src_ip, d.dst_ip), (spec.src_ip, spec.dst_ip));
        assert_eq!((d.src_port, d.dst_port), (1, 2));
    }
}

#[test]
fn multicast_groups_can_share_a_mac() {
    let a = MacAddr::for_ipv4_multicast(Ipv4Addr::new(224, 0, 1, 1));
    let b = MacAddr::for_ipv4_multicast(Ipv4Addr::new(239, 128, 1, 1));
    assert_eq!(a, b);
    assert_ne!(a, MacAddr::for_ipv4_multicast(Ipv4Addr::new(224, 1, 1, 1)));
}

#[test]
fn every_bit_changes_level_in_the_middle() {
    for byte in 0..=255u8 {
        let symbols = symbols_of(manchester_word(byte));
        for k in 0..8 {
            let pair = (symbols[2 * k], symbols[2 * k + 1]);
            if byte >> k & 1 == 1 {
                assert_eq!(pair, (SYMBOL_LOW, SYMBOL_HIGH));
            } else {
                assert_eq!(pair, (SYMBOL_HIGH, SYMBOL_LOW));
            }
        }
    }
}

#[test]
fn silence_around_a_frame_changes_nothing() {
    let frame: Vec<u8> = (0..80u8).collect();
    let mut words = vec![0u32; 89];
    assert_eq!(encode_frame(&frame, &mut words), Some(89));
    for (before, after) in [(0usize, 0usize), (5, 0), (0, 7), (33, 33)] {
        let mut line = vec![SYMBOL_IDLE; before];
        for w in &words {
            line.extend(symbols_of(*w));
        }
        line.extend(vec![SYMBOL_IDLE; after]);
        let mut d = FrameDecoder::new();
        let mut got = Vec::new();
        let (mut starts, mut ends) = (0, 0);
        for s in line {
            match d.push(s) {
                RxEvent::Start => starts += 1,
                RxEvent::End => ends += 1,
                RxEvent::Byte(b) => got.push(b),
                RxEvent::Nothing => {}
            }
        }
        assert_eq!((starts, ends), (1, 1));
        assert_eq!(got, frame);
    }
}

#[test]
fn a_decoder_in_any_state_reads_the_next_frame() {
    let payload = [0x5Au8, 0x00, 0xFF, 0xD5, 0x55];
    let mut out = [0u32; 32];
    let n = encode_frame(&payload, &mut out).unwrap();
    for noise in [
        &[][..],
        &[SYMBOL_HIGH],
        &[SYMBOL_HIGH, SYMBOL_LOW, SYMBOL_LOW],
        &[SYMBOL_LOW, SYMBOL_LOW, SYMBOL_HIGH],
    ] {
        let mut d = FrameDecoder::new();
        for &s in noise {
            let _ = d.push(s);
        }
        let _ = d.push(SYMBOL_IDLE);
        let mut events = Vec::new();
        for (j, &word) in out[..n].iter().enumerate() {
            for (i, &s) in symbols_of(word).iter().enumerate() {
                let e = d.push(s);
                if e != RxEvent::Nothing {
                    events.push((j, i, e));
                }
            }
        }
        // The end comes at the second symbol of the last word.
        assert_eq!(events.pop(), Some((n - 1, 1, RxEvent::End)));
        let kinds: Vec<RxEvent> = events.iter().map(|e| e.2).collect();
        let mut expected = vec![RxEvent::Start];
        expected.extend(payload.iter().map(|&b| RxEvent::Byte(b)));
        assert_eq!(kinds, expected);
        assert_eq!(d.push(SYMBOL_IDLE), RxEvent::Nothing);
    }
}
