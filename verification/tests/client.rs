use pico_gnss::beacon::{src_ip, src_mac};
use pico_gnss::client::{
    accept, build_request, client_ip, client_mac, hold_request, offset_to_local,
    request_departure, steer_client_pps, ClientSteer, Dispatch, DropReason, EdgeEstimate,
    LinkCounters, Outstanding, CLIENT_PORT,
};
use pico_gnss::frame::{build_udp_frame, parse_udp_frame, Ipv4Addr, UdpFrameSpec};
use pico_gnss::packet::Mode;

fn answer(port: u16) -> Vec<u8> {
    let spec = UdpFrameSpec {
        src_mac: src_mac(),
        dst_mac: client_mac(),
        src_ip: src_ip(),
        dst_ip: client_ip(),
        src_port: 123,
        dst_port: port,
        ip_id: 1,
        ttl: 1,
        payload: &[0x24; 48],
    };
    let mut frame = vec![0u8; 94];
    let len = build_udp_frame(&spec, &mut frame).unwrap();
    frame.truncate(len - 4);
    frame
}

#[test]
fn both_of_our_ports_are_accepted() {
    assert_eq!(accept(&answer(CLIENT_PORT), 123).unwrap().payload, [0x24; 48]);
    assert_eq!(accept(&answer(123), 123).unwrap().dst_port, 123);
    assert_eq!(accept(&answer(124), 123).unwrap_err(), DropReason::WrongPort);
    assert_eq!(accept(&answer(123), 10_123).unwrap_err(), DropReason::WrongPort);
    assert_eq!(accept(&[0; 20], 123).unwrap_err(), DropReason::NotUdp);
}

#[test]
fn packets_are_dispatched_by_mode() {
    let mut c = LinkCounters::new();
    assert_eq!(c.dispatch(Mode::Server, true, false), Dispatch::Measure);
    assert_eq!(
        c.dispatch(Mode::Server, false, false),
        Dispatch::Drop(DropReason::ReplyToNothing)
    );
    assert_eq!(c.dispatch(Mode::Broadcast, true, false), Dispatch::Count);
    assert_eq!(c.dispatch(Mode::Broadcast, false, true), Dispatch::Believe);
    for mode in [
        Mode::Client,
        Mode::Control,
        Mode::Private,
        Mode::Reserved,
        Mode::SymmetricActive,
        Mode::SymmetricPassive,
    ] {
        assert_eq!(c.dispatch(mode, true, true), Dispatch::Drop(DropReason::NotAnAnswer));
    }
    assert_eq!(c.broadcasts, 2);
}

#[test]
fn drops_are_reported_sparingly() {
    let mut c = LinkCounters::new();
    let reports: Vec<u32> = (1..=128).filter(|_| c.note()).collect();
    assert_eq!(reports, vec![1, 2, 3, 64, 128]);
    assert_eq!(c.dropped, 128);
}

#[test]
fn captures_and_uses_are_counted() {
    let mut c = LinkCounters::new();
    assert!(c.on_capture());
    assert!(!c.on_capture());
    assert!(c.on_used(true));
    assert!(!c.on_used(false));
    for _ in 0..13 {
        let _ = c.on_used(false);
    }
    assert!(c.on_used(false));
    assert_eq!((c.seen, c.used), (2, 16));
}

#[test]
fn a_question_is_spent_only_by_its_answer() {
    let mut o = Outstanding::new();
    assert_eq!(o.peek(), None);
    o.ask(5u32);
    assert_eq!(o.peek(), Some(5));
    o.on_measured(false);
    assert_eq!(o.peek(), Some(5));
    o.on_measured(true);
    assert_eq!(o.peek(), None);
    o.ask(6);
    o.ask(7);
    assert_eq!(o.peek(), Some(7));
}

#[test]
fn offset_is_moved_from_the_hint_to_local_time() {
    let (true_offset, arrived) = (1_700_000_000_000_000_000i64, 12_345i64);
    for hint in [0i64, 1_699_999_999_999_999_000] {
        assert_eq!(
            offset_to_local(true_offset + (arrived - hint), hint, arrived),
            true_offset
        );
    }
}

#[test]
fn departure_uses_the_clock_once_there_is_one() {
    assert_eq!(request_departure(None, 10), 1_000_010);
    assert_eq!(request_departure(Some(50), 10), 1_000_050);
    assert_eq!(hold_request(100_000).slack_ns, 782_200);
    assert_eq!(hold_request(2_000_000).late_ns, Some(1_117_800));
}

#[test]
fn request_goes_to_the_server() {
    let mut frame = [0u8; 94];
    let mut symbols = [0u32; 103];
    let p = build_request(&[0x23; 48], 123, 3, &mut frame, &mut symbols).unwrap();
    let d = parse_udp_frame(&frame[..p.len - 4]).unwrap();
    assert_eq!(d.src_mac, client_mac());
    assert_eq!(d.dst_mac, src_mac());
    assert_eq!(d.src_ip, Ipv4Addr::new(192, 168, 0, 201));
    assert_eq!(d.dst_ip, src_ip());
    assert_eq!((d.src_port, d.dst_port), (50_123, 123));
    assert!(build_request(&[0; 48], 123, 3, &mut frame, &mut symbols[..50]).is_err());
}

#[test]
fn client_pulse_is_steered_by_what_is_known() {
    assert_eq!(steer_client_pps(None), ClientSteer::FreeRun);
    let e = EdgeEstimate { utc_ns: 4_000_000_250, drift_ppb: -7, locked: false };
    assert_eq!(steer_client_pps(Some(e)), ClientSteer::Coast { freq_mppb: -7_000 });
    assert_eq!(
        steer_client_pps(Some(EdgeEstimate { locked: true, ..e })),
        ClientSteer::Advance { freq_mppb: -7_000, late_ns: 250 }
    );
}
