use pico_gnss::reception::{Reception, ReceptionMonitor};

fn feed(m: &mut ReceptionMonitor, intervals: &[u64]) -> Option<Reception> {
    let mut last = None;
    for &iv in intervals {
        last = m.on_interval(iv);
    }
    last
}

#[test]
fn no_verdict_before_the_window_is_full() {
    let mut m = ReceptionMonitor::new();
    assert_eq!(feed(&mut m, &[1_000_002_900; 7]), None);
    assert_eq!(
        m.on_interval(1_000_002_900),
        Some(Reception { jitter_ns: 0, bad: false })
    );
}

#[test]
fn crystal_offset_cancels_out_of_the_jitter() {
    for offset in [0u64, 2_900, 50_000] {
        let mut m = ReceptionMonitor::new();
        let base = 1_000_000_000 + offset;
        let ivs = [base, base + 40, base - 10, base, base + 5, base, base, base + 1];
        assert_eq!(feed(&mut m, &ivs), Some(Reception { jitter_ns: 50, bad: false }));
    }
}

#[test]
fn reception_turns_bad_above_120_and_good_below_70() {
    let mut m = ReceptionMonitor::new();
    let base = 1_000_000_000u64;
    let ring = |j: u64| [base, base + j, base, base, base, base, base, base];
    assert_eq!(feed(&mut m, &ring(120)), Some(Reception { jitter_ns: 120, bad: false }));
    assert_eq!(feed(&mut m, &ring(121)), Some(Reception { jitter_ns: 121, bad: true }));
    assert_eq!(feed(&mut m, &ring(100)), Some(Reception { jitter_ns: 100, bad: true }));
    assert_eq!(feed(&mut m, &ring(70)), Some(Reception { jitter_ns: 70, bad: true }));
    assert_eq!(feed(&mut m, &ring(69)), Some(Reception { jitter_ns: 69, bad: false }));
    assert_eq!(feed(&mut m, &ring(120)), Some(Reception { jitter_ns: 120, bad: false }));
}

#[test]
fn old_intervals_leave_the_window() {
    let mut m = ReceptionMonitor::new();
    let base = 1_000_000_000u64;
    let _ = feed(&mut m, &[base + 5_000]);
    assert_eq!(
        feed(&mut m, &[base; 7]),
        Some(Reception { jitter_ns: 5_000, bad: true })
    );
    assert_eq!(m.on_interval(base), Some(Reception { jitter_ns: 0, bad: false }));
}

#[test]
fn jitter_is_capped_for_the_log() {
    let mut m = ReceptionMonitor::new();
    let _ = feed(&mut m, &[0; 7]);
    assert_eq!(
        m.on_interval(i64::MAX as u64),
        Some(Reception { jitter_ns: u32::MAX, bad: true })
    );
}
