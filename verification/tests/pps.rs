use pico_gnss::nonzero::NonZeroU64;
use pico_gnss::pps::{PpsEvent, PpsTracker, PpsTrackerConfig, NOMINAL_US};


#[test]
fn non_monotonic_input_is_reported_and_rebases() {
    let mut t = PpsTracker::new();
    t.record(2_000_000);
    assert_eq!(
        t.record(1_500_000),
        PpsEvent::NonMonotonic {
            backwards_us: 500_000
        }
    );
    assert_eq!(
        t.record(2_500_000),
        PpsEvent::Locked {
            interval_us: 1_000_000
        }
    );
    assert_eq!(t.count(), 3);
}

#[test]
fn custom_tolerance_tightens_lock_window() {
    let cfg = PpsTrackerConfig {
        tolerance_us: 5_000,
        ..PpsTrackerConfig::default()
    };
    let mut t = PpsTracker::with_config(cfg);
    t.record(0);
    assert_eq!(
        t.record(1_030_000),
        PpsEvent::Irregular {
            interval_us: 1_030_000,
            missed: 0
        }
    );
}

#[test]
fn custom_nominal_supports_non_1hz() {
    let cfg = PpsTrackerConfig {
        nominal_us: NonZeroU64::new(100_000).unwrap(),
        ..PpsTrackerConfig::default()
    };
    let mut t = PpsTracker::with_config(cfg);
    t.record(0);
    assert_eq!(
        t.record(100_000),
        PpsEvent::Locked {
            interval_us: 100_000
        }
    );
}

#[test]
fn first_edge_is_first() {
    let mut t = PpsTracker::new();
    assert_eq!(t.record(5_000_000), PpsEvent::First);
    assert_eq!(t.count(), 1);
}

#[test]
fn nominal_one_second_is_locked() {
    let mut t = PpsTracker::new();
    t.record(0);
    assert_eq!(
        t.record(NOMINAL_US),
        PpsEvent::Locked {
            interval_us: NOMINAL_US
        }
    );
    assert_eq!(t.count(), 2);
}

#[test]
fn small_jitter_within_tolerance_is_locked() {
    let mut t = PpsTracker::new();
    t.record(0);
    assert_eq!(
        t.record(1_030_000),
        PpsEvent::Locked {
            interval_us: 1_030_000
        }
    );
}

#[test]
fn one_missed_pulse() {
    let mut t = PpsTracker::new();
    t.record(0);
    assert_eq!(
        t.record(2_000_000),
        PpsEvent::Irregular {
            interval_us: 2_000_000,
            missed: 1
        }
    );
}

#[test]
fn three_missed_pulses() {
    let mut t = PpsTracker::new();
    t.record(0);
    assert_eq!(
        t.record(4_010_000),
        PpsEvent::Irregular {
            interval_us: 4_010_000,
            missed: 3
        }
    );
}

#[test]
fn too_short_is_glitch() {
    let mut t = PpsTracker::new();
    t.record(0);
    assert_eq!(
        t.record(200_000),
        PpsEvent::Irregular {
            interval_us: 200_000,
            missed: 0
        }
    );
}

#[test]
fn off_nominal_between_multiples_is_glitch() {
    let mut t = PpsTracker::new();
    t.record(0);
    assert_eq!(
        t.record(1_500_000),
        PpsEvent::Irregular {
            interval_us: 1_500_000,
            missed: 0
        }
    );
}

#[test]
fn lock_reacquires_after_gap() {
    let mut t = PpsTracker::new();
    t.record(0);
    t.record(2_000_000);
    assert_eq!(
        t.record(3_000_000),
        PpsEvent::Locked {
            interval_us: 1_000_000
        }
    );
    assert_eq!(t.count(), 3);
}
