use pico_gnss::gpsdo::{
    snap_to_second_ns, DisciplinedClock, DisciplinedClockConfig, FreqUpdate, Gnssdo,
};
use pico_gnss::nonzero::{NonZeroU32, NonZeroU64};
use pico_gnss::pps::{PpsEvent, PpsTracker};
use pico_gnss::qerr::{correct_interval_ns, ps_to_ns_round, QErrCorrector};

const SECOND: i64 = 1_000_000_000;

fn settled(offset_ns: i64) -> DisciplinedClock {
    let mut c = DisciplinedClock::new();
    for _ in 0..200 {
        let _ = c.update_freq(SECOND + offset_ns);
    }
    c
}

#[test]
fn clock_survives_absurd_intervals() {
    let mut c = DisciplinedClock::new();
    c.set_temp_ff_enable(true);
    for i in 0..3_000i64 {
        let interval = match i % 5 {
            0 => i64::MAX,
            1 => 0,
            2 => SECOND + 2_900 + i % 17,
            3 => SECOND - 999_999,
            _ => -SECOND,
        };
        let _ = c.update_freq(interval);
        c.update_temp((i % 4_096) * 256);
    }
}

#[test]
fn rejected_samples_leave_the_estimate() {
    let mut c = settled(2_900);
    let before = (c.freq_mppb(), c.freq_slope_mppb(), c.predicted_freq_mppb());
    assert_eq!(c.update_freq(SECOND + 500_000_000), FreqUpdate::GatedSane);
    assert_eq!(c.update_freq(SECOND + 2_900 + 5_000), FreqUpdate::GatedQuality);
    assert_eq!((c.freq_mppb(), c.freq_slope_mppb(), c.predicted_freq_mppb()), before);
}

#[test]
fn quarantine_holds_off_its_number_of_samples() {
    let mut c = settled(2_900);
    let n = c.config().quarantine_samples;
    c.start_quarantine();
    for _ in 0..n {
        assert!(c.in_quarantine());
        assert_eq!(c.update_freq(SECOND + 2_900), FreqUpdate::Quarantined);
    }
    assert!(!c.in_quarantine());
    assert_eq!(c.update_freq(SECOND + 2_900), FreqUpdate::Applied);
}

#[test]
fn first_sample_is_taken_at_once() {
    let mut c = DisciplinedClock::new();
    c.start_quarantine();
    assert_eq!(c.update_freq(SECOND + 2_345), FreqUpdate::Applied);
    assert_eq!(c.freq_mppb(), 2_345_000);
    assert_eq!(c.freq_slope_mppb(), 0);
}

#[test]
fn level_approaches_without_overshoot() {
    let mut c = settled(2_000);
    let mut last = c.freq_mppb();
    for _ in 0..20 {
        let _ = c.update_freq(SECOND + 2_050);
        let now = c.freq_mppb();
        let projected = last + c.freq_slope_mppb();
        assert!(now <= 2_050_000.max(projected) && now >= last.min(2_050_000));
        last = now;
    }
}

#[test]
fn constant_offset_stays_put() {
    let mut c = settled(2_900);
    assert_eq!(c.freq_mppb(), 2_900_000);
    let _ = c.update_freq(SECOND + 2_900);
    assert_eq!(c.freq_mppb(), 2_900_000);
    assert_eq!(c.freq_slope_mppb(), 0);
    assert_eq!(c.predicted_freq_mppb(), 2_900_000);
}

#[test]
fn slope_never_leaves_its_clamp() {
    let mut c = settled(0);
    let max = c.config().slope_max_mppb;
    for i in 0..400i64 {
        let _ = c.update_freq(SECOND + i * 9);
        assert!(c.freq_slope_mppb().abs() <= max);
    }
}

#[test]
fn disabled_feedforward_makes_no_difference() {
    let mut a = DisciplinedClock::new();
    let mut b = DisciplinedClock::new();
    a.set_temp_ff_enable(false);
    b.set_temp_ff_enable(false);
    for i in 0..300i64 {
        a.update_temp(200_000 + 37 * i);
        let iv = SECOND + 2_900 + i % 11;
        assert_eq!(a.update_freq(iv), b.update_freq(iv));
        assert_eq!(a.freq_mppb(), b.freq_mppb());
        assert_eq!(a.predicted_freq_mppb(), b.predicted_freq_mppb());
        assert_eq!(a.steering_freq_mppb(), b.steering_freq_mppb());
    }
}

#[test]
fn holdover_without_slope_reads_the_same() {
    let mut c = settled(2_900);
    c.update_epoch(5 * SECOND as u64, 5 * SECOND as u64, 1_700_000_000 * SECOND);
    let at = 65 * SECOND as u64;
    assert_eq!(c.now_from_capture_ns(at), c.now_from_capture_ns_holdover(at));
    assert!(c.now_from_capture_ns(at).is_some());
}

#[test]
fn fire_time_and_reading_are_inverse() {
    let mut c = settled(2_900);
    let epoch = 1_700_000_000 * SECOND;
    c.update_epoch(5 * SECOND as u64, 5 * SECOND as u64, epoch);
    for ahead in [1i64, 999, SECOND, 3_600 * SECOND] {
        let target = epoch + ahead;
        let local = c.capture_ns_for_unix_ns(target).unwrap();
        let back = c.now_from_capture_ns(local as u64).unwrap();
        // Up to rounding and the square of 2.9 ppm.
        let allowed = 2 + ahead / 118_000_000_000;
        assert!((back - target).abs() <= allowed, "{} off by {}", ahead, back - target);
    }
}

#[test]
fn snapping_removes_whole_seconds() {
    for residual in [0i64, 1, 499_999_999] {
        for secs in [0i64, 1, 7] {
            assert_eq!(snap_to_second_ns(residual + secs * SECOND), residual);
            assert_eq!(snap_to_second_ns(-residual - secs * SECOND), -residual);
        }
    }
}

#[test]
fn frequency_is_disciplined_on_locked_edges_only() {
    let mut g = Gnssdo::new();
    assert!(g.on_pps(1_000_000, 0).freq.is_none());
    assert!(g.on_pps(2_000_000, SECOND + 2_900).freq.is_some());
    for i in 3..40u64 {
        let _ = g.on_pps(i * 1_000_000, SECOND + 2_900);
    }
    let before = g.clock().freq_mppb();
    let gap = g.on_pps(43_000_000, 4 * SECOND + 11_600);
    assert!(matches!(gap.event, PpsEvent::Irregular { missed: 3, .. }));
    assert!(gap.freq.is_none());
    assert_eq!(g.clock().freq_mppb(), before);
    let back = g.on_pps(44_000_000, SECOND + 2_900);
    assert!(back.recovered);
    assert_eq!(back.freq, Some(FreqUpdate::Quarantined));
}

#[test]
fn lock_window_has_sharp_edges() {
    let classify = |interval: u64| {
        let mut t = PpsTracker::new();
        let _ = t.record(5_000_000);
        t.record(5_000_000 + interval)
    };
    let tol = 50_000u64;
    assert!(matches!(classify(1_000_000 + tol), PpsEvent::Locked { .. }));
    assert!(matches!(classify(1_000_000 - tol), PpsEvent::Locked { .. }));
    assert!(matches!(classify(1_000_001 + tol), PpsEvent::Irregular { missed: 0, .. }));
    assert!(matches!(classify(999_999 - tol), PpsEvent::Irregular { missed: 0, .. }));
    assert!(matches!(classify(6_000_000), PpsEvent::Irregular { missed: 5, .. }));
}

#[test]
fn constant_quantization_error_has_no_frequency() {
    let mut q = QErrCorrector::new();
    let _ = q.correct_interval_ns(SECOND, -7_654);
    assert_eq!(q.correct_interval_ns(SECOND + 5, -7_654), SECOND + 5);
    for ps in [-1_501i64, -1_500, -499, 0, 499, 500, 1_499] {
        assert!((1000 * ps_to_ns_round(ps) - ps).abs() <= 500);
    }
    let (t1, q1, t2, q2) = (100i64, 7_400i32, SECOND + 90, -3_300i32);
    let edges = (t2 - ps_to_ns_round(q2 as i64)) - (t1 - ps_to_ns_round(q1 as i64));
    assert!((correct_interval_ns(t2 - t1, q1, q2) - edges).abs() <= 1);
}

#[test]
fn nonzero_values_refuse_zero() {
    assert!(NonZeroU32::new(0).is_none());
    assert!(NonZeroU64::new(0).is_none());
    assert_eq!(NonZeroU32::new(7).unwrap().get(), 7);
    assert_eq!(NonZeroU64::new(u64::MAX).unwrap().get(), u64::MAX);
    assert_eq!(DisciplinedClockConfig::default().quarantine_samples > 0, true);
}

#[test]
fn waiting_and_firing_take_the_same_local_time() {
    let mut c = settled(2_500);
    let (c0, q0, u0) = (7_000_000_000u64, 9_000_000_000u64, 1_780_852_019_000_000_000i64);
    c.update_epoch(c0, q0, u0);
    for t in [0i64, 1, 999, SECOND, 3_600 * SECOND, 1_000_000_000_000_000] {
        let r = c.true_to_local_ns(t);
        assert_eq!(c.query_ns_for_unix_ns(u0 + t), Some(q0 as i64 + r));
        assert_eq!(c.capture_ns_for_unix_ns(u0 + t), Some(c0 as i64 + r));
        assert_eq!(c.true_to_local_ns(-t), -r);
        assert_eq!(DisciplinedClock::new().true_to_local_ns(t), t);
    }
    assert_eq!(c.true_to_local_ns(SECOND), SECOND + 2_500);
}

#[test]
fn intervals_outside_the_window_use_up_no_quarantine() {
    let mut c = settled(2_500);
    let level = c.freq_mppb();
    c.start_quarantine();
    for _ in 0..5 {
        assert_eq!(c.update_freq(2 * SECOND), FreqUpdate::GatedSane);
        assert!(c.in_quarantine());
        assert_eq!(c.update_freq(SECOND + 5_000), FreqUpdate::Quarantined);
    }
    assert!(!c.in_quarantine());
    assert_eq!(c.freq_mppb(), level);
    assert_eq!(c.update_freq(SECOND + 2_500), FreqUpdate::Applied);
}
