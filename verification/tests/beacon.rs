use pico_gnss::beacon::{
    beacon_spec, build_beacon, build_reply, capture_ns, clock_state, decide, fresher, hold_reply,
    remaining_us, reply_departure, residual_ns, server_config, src_ip, src_mac, steer_pps,
    take_request, veto, Beacon, BeaconPlan, PpsSteer, RequestCounter, HANDOVER_LAG_NS, TX_LAG_NS,
};
use pico_gnss::frame::{build_udp_frame, parse_udp_frame, Ipv4Addr, MacAddr, UdpFrameSpec};
use pico_gnss::link::PrepareError;
use pico_gnss::server::{ClockState, ServeDecision, SilentReason};

const SECOND: i64 = 1_000_000_000;

fn good() -> ClockState {
    clock_state(Some(1_700_000_000 * SECOND), 20_000_000, true)
}

#[test]
fn untrusted_or_unset_clocks_only_keep_the_link_up() {
    let mut b = Beacon::new();
    let near = 10 * SECOND - 1;
    assert_eq!(b.plan(false, Some(near)), BeaconPlan::LinkPulse);
    assert_eq!(b.plan(true, None), BeaconPlan::LinkPulse);
    assert_eq!(b, Beacon::new());
}

#[test]
fn boundary_is_built_for_within_one_link_pulse_interval() {
    let mut b = Beacon::new();
    assert_eq!(b.plan(true, Some(10 * SECOND - 16_000_001)), BeaconPlan::LinkPulse);
    assert_eq!(
        b.plan(true, Some(10 * SECOND - 16_000_000)),
        BeaconPlan::Build {
            target_unix_ns: 10 * SECOND,
            claimed_unix_ns: 10 * SECOND + 236_200
        }
    );
    assert_eq!(TX_LAG_NS, 236_200);
}

#[test]
fn no_second_is_served_twice() {
    let mut b = Beacon::new();
    let _ = b.plan(true, Some(10 * SECOND - 500_000));
    // Handed over early: still before the same boundary.
    assert_eq!(b.plan(true, Some(10 * SECOND - 200_000)), BeaconPlan::LinkPulse);
    assert_eq!(b.last_target_ns, Some(10 * SECOND));
    assert_eq!(b.plan(true, Some(10 * SECOND)), BeaconPlan::LinkPulse);
    match b.plan(true, Some(11 * SECOND - 10)) {
        BeaconPlan::Build { target_unix_ns, .. } => assert_eq!(target_unix_ns, 11 * SECOND),
        _ => panic!("missed"),
    }
}

#[test]
fn polling_never_steps_over_a_second() {
    let mut b = Beacon::new();
    let mut now = 123_456_789i64;
    let mut served = Vec::new();
    let mut jitter = 1i64;
    while now < 60 * SECOND {
        match b.plan(true, Some(now)) {
            BeaconPlan::LinkPulse => {
                jitter = jitter * 48_271 % 0x7fff_ffff;
                now += 16_000_000 - jitter % 4_000_000;
            }
            BeaconPlan::Build { target_unix_ns, .. } => {
                served.push(target_unix_ns / SECOND);
                now = target_unix_ns - 100_000;
            }
        }
    }
    let expected: Vec<i64> = (1..=*served.last().unwrap()).collect();
    assert_eq!(served, expected);
    assert!(served.len() >= 59);
}

#[test]
fn times_before_1970_are_planned_for_too() {
    let mut b = Beacon::new();
    match b.plan(true, Some(-5 * SECOND - 1)) {
        BeaconPlan::Build { target_unix_ns, .. } => assert_eq!(target_unix_ns, -5 * SECOND),
        _ => panic!("missed"),
    }
}

#[test]
fn datagrams_are_numbered_and_the_first_are_dumped() {
    let mut b = Beacon { last_target_ns: None, ip_id: 0xffff, sent: 0 };
    assert_eq!(b.next_id(), 0);
    assert_eq!(b.next_id(), 1);
    assert_eq!([b.on_sent(), b.on_sent(), b.on_sent(), b.on_sent()], [true, true, true, false]);
}

#[test]
fn capture_scale_starts_with_the_counters() {
    assert_eq!(capture_ns(None, 5), None);
    assert_eq!(capture_ns(Some(1_000), 5_000), Some(4_000));
    assert_eq!(capture_ns(Some(5), 3), Some(u64::MAX - 1));
    assert_eq!(capture_ns(Some(-1), i64::MAX), None);
}

#[test]
fn reference_timestamp_is_now_less_the_holdover() {
    let s = clock_state(Some(1_000), 300, true);
    assert_eq!(s.last_update_unix_ns, Some(700));
    assert_eq!(s.holdover_ns, 300);
    assert!(s.frequency_locked);
    assert_eq!(clock_state(None, 300, false).last_update_unix_ns, None);
}

#[test]
fn clock_that_lost_its_epoch_falls_back() {
    let lost = clock_state(None, 0, true);
    assert_eq!(fresher(lost, good()), good());
    let newer = clock_state(Some(5), 0, true);
    assert_eq!(fresher(newer, good()), newer);
}

#[test]
fn decision_serves_or_says_why_not() {
    let cfg = server_config();
    match decide(&cfg, good(), good(), 42 * SECOND) {
        ServeDecision::Serve(p) => {
            assert_eq!(p.stratum, 1);
            assert_eq!(p.reference_id, *b"GPS\0");
            assert_eq!(p.precision, -15);
        }
        ServeDecision::Silent(_) => panic!("silent"),
    }
    let lost = clock_state(None, 0, true);
    assert_eq!(decide(&cfg, lost, lost, 0), ServeDecision::Silent(SilentReason::NoEpoch));
}

#[test]
fn veto_is_about_the_moment_of_transmission() {
    let cfg = server_config();
    assert_eq!(veto(&cfg, &good()), None);
    assert_eq!(
        veto(&cfg, &ClockState { frequency_locked: false, ..good() }),
        Some(SilentReason::FrequencyUnlocked)
    );
    assert_eq!(
        veto(&cfg, &ClockState { holdover_ns: 3_600 * 1_000_000_000 + 1, ..good() }),
        Some(SilentReason::HoldoverExceeded)
    );
    assert_eq!(veto(&cfg, &ClockState { holdover_ns: 3_600 * 1_000_000_000, ..good() }), None);
    assert_eq!(
        veto(&cfg, &ClockState { last_update_unix_ns: None, ..good() }),
        Some(SilentReason::NoEpoch)
    );
}

#[test]
fn sleep_to_the_boundary_is_never_negative() {
    assert_eq!(remaining_us(SECOND, SECOND - 1_999), 1);
    assert_eq!(remaining_us(SECOND, SECOND), 0);
    assert_eq!(remaining_us(SECOND, SECOND + 5_000), 0);
    assert_eq!(residual_ns(SECOND + HANDOVER_LAG_NS + 7, SECOND), 7);
}

#[test]
fn beacon_goes_to_everyone() {
    let payload = [7u8; 48];
    let s = beacon_spec(&payload, 123, 9);
    assert_eq!(s.dst_mac, MacAddr::broadcast());
    assert_eq!(s.ttl, 1);
    let mut frame = [0u8; 94];
    let mut symbols = [0u32; 103];
    let p = build_beacon(&payload, 10_123, 9, &mut frame, &mut symbols).unwrap();
    let d = parse_udp_frame(&frame[..p.len - 4]).unwrap();
    assert_eq!((d.src_port, d.dst_port), (123, 10_123));
    assert_eq!(d.dst_ip, Ipv4Addr::broadcast());
    assert_eq!(d.src_ip, src_ip());
    assert_eq!(d.payload, payload);
    assert!(build_beacon(&payload, 123, 9, &mut frame[..10], &mut symbols).is_err());
}

fn question(port: u16) -> Vec<u8> {
    let spec = UdpFrameSpec {
        src_mac: MacAddr([2, 0, 0, 0xC0, 0xFF, 0xEF]),
        dst_mac: src_mac(),
        src_ip: Ipv4Addr::new(192, 168, 0, 201),
        dst_ip: src_ip(),
        src_port: 50_123,
        dst_port: port,
        ip_id: 1,
        ttl: 1,
        payload: &[0x23; 48],
    };
    let mut frame = vec![0u8; 94];
    let len = build_udp_frame(&spec, &mut frame).unwrap();
    frame.truncate(len - 4);
    frame
}

#[test]
fn question_is_taken_and_answered_to_whoever_asked() {
    let q = take_request(&question(123), 123, 77).unwrap();
    assert_eq!(q.receive_unix_ns, 77);
    assert_eq!(q.payload, vec![0x23; 48]);
    assert_eq!(q.src_port, 50_123);
    let mut frame = [0u8; 94];
    let mut symbols = [0u32; 103];
    let p = build_reply(&q, &[0x24; 48], 123, 5, &mut frame, &mut symbols).unwrap();
    let d = parse_udp_frame(&frame[..p.len - 4]).unwrap();
    assert_eq!(d.dst_mac, q.src_mac);
    assert_eq!(d.dst_ip, Ipv4Addr::new(192, 168, 0, 201));
    assert_eq!((d.src_port, d.dst_port), (123, 50_123));
    assert_eq!(d.payload, [0x24; 48]);
}

#[test]
fn other_traffic_is_no_question() {
    assert!(take_request(&question(124), 123, 0).is_none());
    assert!(take_request(&[0u8; 60], 123, 0).is_none());
    let mut broken = question(123);
    broken[50] ^= 1;
    assert!(take_request(&broken, 123, 0).is_none());
}

#[test]
fn reply_departure_leaves_room_for_the_build() {
    assert_eq!(reply_departure(5), 1_000_005);
    assert_eq!(hold_reply(700_000).wait_us, Some(182));
    assert_eq!(hold_reply(1_000_000).late_ns, Some(117_800));
}

#[test]
fn questions_are_counted_and_reported_now_and_then() {
    let mut c = RequestCounter::new();
    c.on_capture();
    let reports: Vec<bool> = (0..32).map(|_| c.on_request()).collect();
    assert_eq!(reports.iter().filter(|r| **r).count(), 2);
    assert!(reports[15] && reports[31]);
    assert_eq!((c.seen, c.taken), (1, 32));
}

#[test]
fn shown_pulse_is_steered_only_by_a_trusted_clock() {
    assert_eq!(steer_pps(None, true), PpsSteer::FreeRun);
    assert_eq!(steer_pps(Some(5), false), PpsSteer::FreeRun);
    assert_eq!(steer_pps(Some(3 * SECOND - 9), true), PpsSteer::Advance { late_ns: -9 });
}

#[test]
fn a_beacon_that_does_not_fit_says_which_buffer() {
    let payload = [7u8; 48];
    let mut frame = [0xEEu8; 93];
    let mut symbols = [0xEEEE_EEEEu32; 103];
    assert_eq!(
        build_beacon(&payload, 123, 1, &mut frame, &mut symbols),
        Err(PrepareError::FrameBuffer)
    );
    assert!(frame.iter().all(|&b| b == 0xEE));
    let mut frame = [0xEEu8; 95];
    let mut short = [0xEEEE_EEEEu32; 102];
    assert_eq!(
        build_beacon(&payload, 123, 1, &mut frame, &mut short),
        Err(PrepareError::SymbolBuffer)
    );
    // The frame is there, the symbols were not touched.
    assert!(parse_udp_frame(&frame[..90]).is_some());
    assert_eq!(frame[94], 0xEE);
    assert!(short.iter().all(|&w| w == 0xEEEE_EEEE));
    let ok = build_beacon(&payload, 123, 1, &mut frame, &mut symbols).unwrap();
    assert_eq!((ok.len, ok.words), (94, 103));
}

#[test]
fn a_reply_can_be_late_by_any_amount() {
    assert_eq!(hold_reply(i64::MAX).late_ns, Some(i64::MAX - 882_200));
    assert_eq!(hold_reply(-5_000).wait_us, Some(887));
}
