use pico_gnss::frame::{parse_udp_frame, Ipv4Addr, MacAddr, UdpFrameSpec};
use pico_gnss::link::{
    arrival_ns, count_busy, hold, lateness_ns, parse_port, prepare, wait_until_us, worth_logging,
    Hold, PrepareError, Prepared, CAPTURE_NS, CAPTURE_WORDS, WIRE_LAG_NS,
};
use pico_gnss::rx::{symbols_of, FrameDecoder, RxEvent};

fn spec(payload: &[u8]) -> UdpFrameSpec<'_> {
    UdpFrameSpec {
        src_mac: MacAddr([2, 0, 0, 0xC0, 0xFF, 0xEE]),
        dst_mac: MacAddr::broadcast(),
        src_ip: Ipv4Addr::new(192, 168, 0, 200),
        dst_ip: Ipv4Addr::broadcast(),
        src_port: 123,
        dst_port: 10_123,
        ip_id: 7,
        ttl: 1,
        payload,
    }
}

#[test]
fn port_is_read_in_decimal() {
    assert_eq!(parse_port("123"), Some(123));
    assert_eq!(parse_port("10123"), Some(10_123));
    assert_eq!(parse_port("0"), Some(0));
    assert_eq!(parse_port("65535"), Some(65_535));
    assert_eq!(parse_port("000000123"), Some(123));
}

#[test]
fn bad_ports_are_refused() {
    assert_eq!(parse_port(""), None);
    assert_eq!(parse_port("65536"), None);
    assert_eq!(parse_port("99999999999999999999"), None);
    assert_eq!(parse_port("12a"), None);
    assert_eq!(parse_port("-1"), None);
    assert_eq!(parse_port("+1"), None);
    assert_eq!(parse_port(" 1"), None);
}

#[test]
fn prepared_datagram_arrives_on_the_other_side() {
    for payload in [&b"time"[..], &[0x5a; 48][..], &[][..]] {
        let mut frame = [0u8; 256];
        let mut symbols = [0u32; 300];
        let p = prepare(&spec(payload), &mut frame, &mut symbols).unwrap();
        assert_eq!(p.words, p.len + 9);

        let mut decoder = FrameDecoder::new();
        let mut received = Vec::new();
        let mut events = Vec::new();
        for w in [0u32, 0].iter().chain(&symbols[..p.words]).chain(&[0u32]) {
            for s in symbols_of(*w) {
                match decoder.push(s) {
                    RxEvent::Byte(b) => received.push(b),
                    RxEvent::Nothing => {}
                    other => events.push(other),
                }
            }
        }
        assert_eq!(events.len(), 2);
        assert_eq!(received, frame[..p.len].to_vec());
        let d = parse_udp_frame(&received[..received.len() - 4]).unwrap();
        assert_eq!(d.payload, payload);
        assert_eq!(d.dst_port, 10_123);
        assert_eq!(d.src_port, 123);
        assert_eq!(d.src_ip, Ipv4Addr::new(192, 168, 0, 200));
    }
}

#[test]
fn prepare_says_which_buffer_is_too_small() {
    let payload = [0u8; 48];
    let mut frame = [0u8; 94];
    let mut symbols = [0u32; 103];
    assert_eq!(
        prepare(&spec(&payload), &mut frame, &mut symbols),
        Ok(Prepared { len: 94, words: 103 })
    );
    assert_eq!(
        prepare(&spec(&payload), &mut frame[..93], &mut symbols),
        Err(PrepareError::FrameBuffer)
    );
    assert_eq!(
        prepare(&spec(&payload), &mut frame, &mut symbols[..102]),
        Err(PrepareError::SymbolBuffer)
    );
}

#[test]
fn arrival_is_one_capture_and_the_lag_before_the_reading() {
    assert_eq!(CAPTURE_NS, CAPTURE_WORDS as i64 * 16 * 25);
    assert_eq!(arrival_ns(1_000_000), 1_000_000 - 102_400 - 21_400);
}

#[test]
fn frame_is_held_until_one_wire_lag_before_its_departure() {
    assert_eq!(
        hold(1_000_000, 500_000),
        Hold { slack_ns: 382_200, wait_us: Some(382), late_ns: None }
    );
    assert_eq!(
        hold(1_000_000, 882_200),
        Hold { slack_ns: 0, wait_us: None, late_ns: Some(0) }
    );
    assert_eq!(
        hold(1_000_000, 900_000),
        Hold { slack_ns: -17_800, wait_us: None, late_ns: Some(17_800) }
    );
    // What is held leaves within the microsecond before its departure.
    let (lag, spent) = (1_000_000i64, 345_678i64);
    let wait = hold(lag, spent).wait_us.unwrap() as i64 * 1000;
    let early = lag - (spent + wait + WIRE_LAG_NS);
    assert!((0..1000).contains(&early));
}

#[test]
fn lateness_is_signed_and_to_the_nearest_second() {
    assert_eq!(lateness_ns(0), 0);
    assert_eq!(lateness_ns(7_000_000_123), 123);
    assert_eq!(lateness_ns(6_999_999_900), -100);
    assert_eq!(lateness_ns(1_500_000_000), 500_000_000);
    assert_eq!(lateness_ns(1_500_000_001), -499_999_999);
    assert_eq!(lateness_ns(-1), -1);
    assert_eq!(lateness_ns(-999_999_999), 1);
    assert_eq!(lateness_ns(i64::MIN), 145_224_192);
}

#[test]
fn waits_only_for_what_lies_ahead() {
    assert_eq!(wait_until_us(5_999, 1_000), Some(4));
    assert_eq!(wait_until_us(1_000, 1_000), None);
    assert_eq!(wait_until_us(0, 1_000), None);
}

#[test]
fn busy_samples_are_counted() {
    assert_eq!(count_busy(&[]), 0);
    assert_eq!(count_busy(&[0, 0]), 0);
    assert_eq!(count_busy(&[0x0000_000A]), 2);
    assert_eq!(count_busy(&[0xAAAA_AAAA, 0x5555_5555, 1]), 33);
}

#[test]
fn first_events_and_every_so_many_are_logged() {
    assert!(worth_logging(3, 3, 64));
    assert!(!worth_logging(4, 3, 64));
    assert!(worth_logging(64, 3, 64));
    assert!(!worth_logging(65, 3, 64));
}
