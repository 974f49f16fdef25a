use pico_gnss::qerr::{correct_interval_ns, correct_phase_ns, ps_to_ns_round, QErrCorrector};


#[test]
fn phase_subtracts_qerr_with_rounding() {
    assert_eq!(correct_phase_ns(100, 4_000), 96);
    assert_eq!(correct_phase_ns(100, -4_000), 104);
    assert_eq!(correct_phase_ns(0, 1_400), -1);
    assert_eq!(correct_phase_ns(0, 1_600), -2);
    assert_eq!(correct_phase_ns(0, -1_600), 2);
    assert_eq!(correct_phase_ns(50, 0), 50);
}

#[test]
fn first_interval_is_unchanged() {
    let mut c = QErrCorrector::new();
    assert_eq!(c.correct_interval_ns(1_000_000_000, 3_000), 1_000_000_000);
}

#[test]
fn constant_qerr_leaves_interval_unchanged() {
    let mut c = QErrCorrector::new();
    c.correct_interval_ns(1_000_000_000, 5_000);
    assert_eq!(c.correct_interval_ns(1_000_000_000, 5_000), 1_000_000_000);
    assert_eq!(c.correct_interval_ns(1_000_000_000, 5_000), 1_000_000_000);
}

#[test]
fn interval_subtracts_qerr_difference() {
    let mut c = QErrCorrector::new();
    c.correct_interval_ns(1_000_000_000, 2_000);
    assert_eq!(c.correct_interval_ns(1_000_000_000, 7_000), 999_999_995);
    assert_eq!(c.correct_interval_ns(1_000_000_000, 2_000), 1_000_000_005);
}

#[test]
fn sawtooth_qerr_is_removed_from_intervals() {
    let qerr_ps = [0, 8_000, -8_000, 8_000, -8_000, 0];
    let mut c = QErrCorrector::new();
    let mut prev = qerr_ps[0];
    c.correct_interval_ns(1_000_000_000, qerr_ps[0]);
    for &q in &qerr_ps[1..] {
        let raw = 1_000_000_000 + ps_to_ns_round(q as i64 - prev as i64);
        let corrected = c.correct_interval_ns(raw, q);
        assert_eq!(corrected, 1_000_000_000, "sawtooth not removed at qerr={q}");
        prev = q;
    }
}

#[test]
fn pure_interval_matches_struct_and_handles_extremes() {
    assert_eq!(correct_interval_ns(1_000_000_000, 2_000, 7_000), 999_999_995);
    assert_eq!(correct_interval_ns(1_000_000_000, 7_000, 2_000), 1_000_000_005);
    assert_eq!(correct_interval_ns(1_000_000_000, 5_000, 5_000), 1_000_000_000);
    let big = correct_interval_ns(1_000_000_000, i32::MIN, i32::MAX);
    assert_eq!(big, 1_000_000_000 - ps_to_ns_round(i32::MAX as i64 - i32::MIN as i64));
    assert!(big < 1_000_000_000);
}

#[test]
fn rounding_boundaries() {
    assert_eq!(correct_phase_ns(0, 500), -1);
    assert_eq!(correct_phase_ns(0, 499), 0);
    assert_eq!(correct_phase_ns(0, -500), 1);
    assert_eq!(correct_phase_ns(0, -499), 0);
    assert_eq!(correct_interval_ns(1_000_000_000, 0, 1_500), 999_999_998);
    assert_eq!(correct_interval_ns(1_000_000_000, 0, 2_500), 999_999_997);
}

#[test]
fn reset_drops_prev_so_next_interval_is_raw() {
    let mut c = QErrCorrector::new();
    c.correct_interval_ns(1_000_000_000, 9_000);
    c.reset();
    assert_eq!(c.correct_interval_ns(1_000_000_000, 1_000), 1_000_000_000);
    assert_eq!(c.correct_interval_ns(1_000_000_000, 4_000), 999_999_997);
}
