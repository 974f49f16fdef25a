use pico_gnss::meter::{throughput, CounterWatch, ListenCounter};

#[test]
fn one_timebase_shows_no_movement() {
    let mut w = CounterWatch::new();
    let (mut a, mut b, mut c) = (100u32, 95u32, 130u32);
    for edge in 1..=40u32 {
        let r = w.on_edge(a, b, c);
        assert_eq!((r.ba, r.ca), (5, -30));
        assert_eq!((r.drift_b, r.drift_c), (0, 0));
        assert!(!r.moved);
        assert_eq!(r.report, edge <= 5 || edge % 16 == 0);
        a = a.wrapping_sub(62_500_001);
        b = b.wrapping_sub(62_500_001);
        c = c.wrapping_sub(62_500_001);
    }
}

#[test]
fn counters_that_move_apart_are_noticed() {
    let mut w = CounterWatch::new();
    let _ = w.on_edge(1_000, 1_000, 1_000);
    let r = w.on_edge(2_000, 1_997, 2_000);
    assert!(r.moved);
    assert_eq!((r.drift_b, r.drift_c), (3, 0));
    w.on_missing();
    assert_eq!(w.edges, 3);
}

#[test]
fn throughput_follows_from_the_times() {
    let t = throughput(48, 20_000, 30_000);
    assert_eq!(t.frame_len, 94);
    assert_eq!(t.prepare_ns, 100_000);
    assert_eq!(t.send_ns, 150_000);
    assert_eq!(t.wire_ns, 81_600);
    assert_eq!(t.cpu_pct, 122);
    assert_eq!(t.eff_kbps, 48 * 8 * 1_000_000 / 250_000);
}

#[test]
fn throughput_of_nothing_does_not_divide_by_zero() {
    let t = throughput(1, 0, 0);
    assert_eq!(t.eff_kbps, 8_000_000);
    assert_eq!(t.frame_len, 64);
    assert_eq!(t.cpu_pct, 0);
}

#[test]
fn throughput_at_wire_speed_stays_below_the_line_rate() {
    for n in [1usize, 48, 256, 512, 1024, 1472] {
        let wire = throughput(n, 0, 0).wire_ns;
        let t = throughput(n, 0, wire * 200 / 1000 + 1);
        assert!(t.eff_kbps < 10_000);
    }
}

#[test]
fn listener_dumps_the_first_frames() {
    let mut l = ListenCounter::new();
    assert!(!l.on_capture(false));
    let dumps: Vec<bool> = (0..4).map(|_| l.on_capture(true)).collect();
    assert_eq!(dumps, vec![true, true, true, false]);
    assert_eq!((l.seen, l.good), (5, 4));
}

#[test]
fn throughput_takes_any_time_that_can_be_told_in_nanoseconds() {
    let us = u64::MAX / 1000;
    let t = throughput(48, us, us);
    assert_eq!(t.prepare_ns, us * 1000 / 200);
    assert_eq!(t.eff_kbps, 0);
}
