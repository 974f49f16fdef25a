use pico_gnss::pll::{LoopMode, PhaseLockLoop, PhaseLockLoopConfig, PhaseLockLoopUpdate};


fn run(pll: &mut PhaseLockLoop, phase: i64, n: usize) -> PhaseLockLoopUpdate {
    let mut u = pll.update(phase, true);
    for _ in 1..n {
        u = pll.update(phase, true);
    }
    u
}

#[test]
fn default_is_production_pid_smith() {
    let p = PhaseLockLoop::new();
    assert_eq!(p.config().mode, LoopMode::PidSmith);
    assert_eq!(p.config().lock_ns, 1_000);
    assert_eq!(p.config().i_enable_ns, 5_000);
    assert_eq!(p.config().i_den, 128);
}

#[test]
fn p_term_first_edge_uses_kp_inv_8_and_no_smith_history() {
    let mut p = PhaseLockLoop::new();
    let u = p.update(8_000, true);
    assert_eq!(u.predicted_phase_ns, 8_000);
    assert_eq!(u.p_corr_ns, 8_000 / 8);
    assert_eq!(u.d_corr_ns, 0);
    assert_eq!(u.freq_trim_mppb, 0);
    assert!(!u.locked && u.applied);
}

#[test]
fn smith_predictor_subtracts_last_pd() {
    let mut p = PhaseLockLoop::new();
    let u1 = p.update(800, true);
    assert_eq!(u1.p_corr_ns, 100);
    let u2 = p.update(800, true);
    assert_eq!(u2.predicted_phase_ns, 700);
    assert_eq!(u2.p_corr_ns, 700 / 8);
}

#[test]
fn locks_after_lock_hold_in_window_edges() {
    let mut p = PhaseLockLoop::new();
    for _ in 0..4 {
        assert!(!p.update(100, true).locked);
    }
    assert!(!p.update(100, true).locked);
    assert!(p.is_locked());
}

#[test]
fn i_term_integrates_within_enable_band_before_lock() {
    let mut p = PhaseLockLoop::new();
    let u = p.update(2_000, true);
    assert!(!u.locked);
    assert!(u.freq_trim_mppb < 0);
    let mut q = PhaseLockLoop::new();
    assert_eq!(q.update(8_000, true).freq_trim_mppb, 0);
}

#[test]
fn invalid_holds_trim_and_lock() {
    let mut p = PhaseLockLoop::new();
    run(&mut p, 100, 6);
    let trim = p.freq_trim_mppb();
    assert!(p.is_locked());
    let u = p.update(999_999, false);
    assert!(!u.applied);
    assert_eq!(u.p_corr_ns, 0);
    assert_eq!(u.d_corr_ns, 0);
    assert_eq!(u.freq_trim_mppb, trim);
    assert!(p.is_locked());
}

#[test]
fn locked_outlier_is_rejected_then_accepted_after_max() {
    let mut p = PhaseLockLoop::new();
    run(&mut p, 100, 6);
    for _ in 0..p.config().outlier_max {
        let u = p.update(50_000, true);
        assert!(u.rejected_outlier && !u.applied);
        assert_eq!(u.phase_corr_ns, 0);
    }
    let u = p.update(50_000, true);
    assert!(!u.rejected_outlier && u.applied);
}

#[test]
fn outlier_reject_does_not_poison_smith_history() {
    let mut p = PhaseLockLoop::new();
    run(&mut p, 100, 6);
    let u_spike = p.update(50_000, true);
    assert!(u_spike.rejected_outlier && !u_spike.applied);
    let u_next = p.update(100, true);
    assert!(u_next.applied);
    assert!(u_next.d_corr_ns.abs() < 1_000);
}

#[test]
fn p_only_mode_has_no_integral_or_derivative() {
    let mut p = PhaseLockLoop::with_config(PhaseLockLoopConfig {
        mode: LoopMode::P,
        ..PhaseLockLoopConfig::default()
    });
    let u = run(&mut p, 100, 8);
    assert_eq!(u.freq_trim_mppb, 0);
    assert_eq!(u.d_corr_ns, 0);
    assert_eq!(u.p_corr_ns, u.predicted_phase_ns / 16);
}

#[test]
fn adaptive_gain_slows_integral_when_disturbed() {
    let cfg = |shift| PhaseLockLoopConfig {
        mode: LoopMode::Pi,
        i_den: 32,
        calm_ns: 1_000,
        i_den_disturbed_shift: shift,
        ..PhaseLockLoopConfig::default()
    };
    let mut p = PhaseLockLoop::with_config(cfg(2));
    assert_eq!(p.update(500, true).freq_trim_mppb, -500 * 1000 / 32);
    let mut q = PhaseLockLoop::with_config(cfg(2));
    assert_eq!(q.update(2000, true).freq_trim_mppb, -2000 * 1000 / 128);
    let mut r = PhaseLockLoop::with_config(cfg(0));
    assert_eq!(r.update(2000, true).freq_trim_mppb, -2000 * 1000 / 32);
}

#[test]
fn trim_is_clamped() {
    let mut p = PhaseLockLoop::new();
    run(&mut p, 100, 5);
    for _ in 0..10_000 {
        p.update(4_000, true);
    }
    assert!(p.freq_trim_mppb().abs() <= p.config().trim_max_mppb);
}

#[test]
fn p_term_is_skipped_only_below_the_deadband() {
    for (phase, p_corr) in [(79, 0), (80, 10), (88, 11), (-79, 0), (-80, -10), (0, 0)] {
        let mut p = PhaseLockLoop::with_config(PhaseLockLoopConfig {
            deadband_ns: 80,
            ..PhaseLockLoopConfig::default()
        });
        assert_eq!(p.update(phase, true).p_corr_ns, p_corr);
    }
}
