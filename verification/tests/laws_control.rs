use pico_gnss::control::{ControlInit, ControlInput, PhaseController};
use pico_gnss::controllers::{
    AlphaBetaBoost, AlphaBetaBoostConfig, Controller, IntegralRework, IntegralReworkConfig,
    OpenLoopFf,
};
use pico_gnss::pll::{LoopMode, PhaseLockLoop, PhaseLockLoopConfig, CORR_CLAMP_NS};

fn valid(err_ns: i64) -> ControlInput {
    ControlInput { err_ns, valid: true }
}

fn invalid(err_ns: i64) -> ControlInput {
    ControlInput { err_ns, valid: false }
}

#[test]
fn sane_loop_survives_week_long_errors() {
    let big = 1_000_000_000_000_000i64;
    let mut pll = PhaseLockLoop::new();
    let mut boost = AlphaBetaBoost::new();
    let mut rework = IntegralRework::new();
    for i in 0..2_000i64 {
        let err = if i % 3 == 0 { big } else { -big + i };
        let u = pll.update(err, i % 7 != 0);
        assert!(u.freq_trim_mppb.abs() <= 3_000_000);
        assert!(u.phase_corr_ns.abs() <= 2 * CORR_CLAMP_NS);
        let _ = boost.step(ControlInput { err_ns: err, valid: i % 5 != 0 });
        let _ = rework.step(ControlInput { err_ns: err, valid: i % 5 != 0 });
    }
}

#[test]
fn trim_stays_within_a_small_clamp() {
    let cfg = PhaseLockLoopConfig { trim_max_mppb: 500, ..PhaseLockLoopConfig::default() };
    let mut pll = PhaseLockLoop::with_config(cfg);
    for _ in 0..200 {
        assert!(pll.update(-900, true).freq_trim_mppb.abs() <= 500);
    }
    assert_eq!(pll.freq_trim_mppb(), 500);
}

#[test]
fn single_terms_are_clamped() {
    let mut pll = PhaseLockLoop::new();
    let u = pll.update(4_000_000_000_000, true);
    assert_eq!(u.p_corr_ns, CORR_CLAMP_NS);
    assert_eq!(u.d_corr_ns, CORR_CLAMP_NS);
    assert_eq!(u.phase_corr_ns, 2 * CORR_CLAMP_NS);
}

#[test]
fn invalid_edge_moves_nothing() {
    let mut a = PhaseLockLoop::new();
    let mut b = PhaseLockLoop::new();
    for err in [300i64, 200, 150] {
        let _ = a.update(err, true);
        let _ = b.update(err, true);
    }
    let u = a.update(777_777, false);
    assert!(!u.applied);
    assert_eq!(u.phase_corr_ns, 0);
    assert_eq!(a.update(120, true), b.update(120, true));
}

#[test]
fn rejected_spike_leaves_no_trace() {
    let mut a = PhaseLockLoop::new();
    let mut b = PhaseLockLoop::new();
    for _ in 0..6 {
        let _ = a.update(50, true);
        let _ = b.update(50, true);
    }
    let u = a.update(90_000, true);
    assert!(u.rejected_outlier);
    assert_eq!(u.phase_corr_ns, 0);
    assert_eq!(a.update(40, true), b.update(40, true));
}

#[test]
fn persistent_disturbance_is_accepted_after_twelve() {
    let mut pll = PhaseLockLoop::new();
    for _ in 0..5 {
        let _ = pll.update(0, true);
    }
    assert!(pll.is_locked());
    for _ in 0..12 {
        assert!(pll.update(5_000, true).rejected_outlier);
    }
    let u = pll.update(5_000, true);
    assert!(u.applied);
    assert!(!u.rejected_outlier);
}

#[test]
fn lock_takes_exactly_the_hold_edges() {
    let mut pll = PhaseLockLoop::new();
    for _ in 0..4 {
        let _ = pll.update(999, true);
        assert!(!pll.is_locked());
    }
    let _ = pll.update(-999, true);
    assert!(pll.is_locked());
}

#[test]
fn every_controller_starts_a_segment_from_its_seed() {
    let seed = 123_456i64;
    let mut all = vec![
        Controller::Pll(PhaseLockLoop::new()),
        Controller::AbBoost(AlphaBetaBoost::new()),
        Controller::IntegRework(IntegralRework::new()),
        Controller::OpenLoop(OpenLoopFf::new()),
    ];
    for c in all.iter_mut() {
        for _ in 0..10 {
            let _ = c.step(valid(700));
        }
        c.start_segment(ControlInit { residual_trim_mppb: seed });
        assert!(!c.is_locked());
        let out = c.step(valid(0));
        assert_eq!(out.trim_mppb, seed);
        assert_eq!(out.pcorr_ns, 0);
    }
}

#[test]
fn boost_trim_is_clamped_and_holdover_freezes() {
    let cfg = AlphaBetaBoostConfig { trim_max_mppb: 1_000, ..AlphaBetaBoostConfig::default() };
    let mut c = AlphaBetaBoost::with_config(cfg);
    for _ in 0..50 {
        assert!(c.step(valid(-2_500)).trim_mppb.abs() <= 1_000);
    }
    let before = c.freq_trim_mppb();
    let out = c.step(invalid(1_000_000));
    assert_eq!(out.trim_mppb, before);
    assert_eq!(out.pcorr_ns, 0);
    assert!(!out.applied);
    assert_eq!(c.freq_trim_mppb(), before);
}

#[test]
fn boost_ends_at_its_backstop() {
    let mut c = AlphaBetaBoost::new();
    let max = c.config().boost_max_edges;
    // A large innovation enters the boost.
    let _ = c.step(valid(0));
    assert_eq!(c.step(valid(20_000)).dbg.state, 1);
    let mut edges = 1u32;
    while c.step(invalid(20_000)).dbg.state == 1 {
        edges += 1;
        assert!(edges <= max);
    }
}

#[test]
fn small_innovations_never_boost() {
    let mut c = AlphaBetaBoost::new();
    let enter = c.config().innov_enter_ns;
    for i in 0..500i64 {
        let err = (i % 20 - 10) * (enter / 50);
        assert_eq!(c.step(valid(err)).dbg.state, 0);
    }
}

#[test]
fn continuous_integral_is_not_wound_up_by_one_edge() {
    let cfg = IntegralReworkConfig::default();
    let most = cfg.e_i_ns * 1000 / cfg.i_den;
    let mut c = IntegralRework::with_config(cfg);
    let out = c.step(valid(-50_000_000));
    assert_eq!(out.trim_mppb, most);
    let held = c.step(invalid(900));
    assert_eq!(held.trim_mppb, most);
    assert_eq!(held.pcorr_ns, 0);
}

#[test]
fn classic_tuning_has_no_predictor() {
    let cfg = PhaseLockLoopConfig::naive_pid();
    assert_eq!(cfg.mode, LoopMode::Pid);
    let mut pll = PhaseLockLoop::with_config(cfg);
    let first = pll.update(1_600, true);
    assert_eq!(first.p_corr_ns, 100);
    assert_eq!(pll.update(1_600, true).predicted_phase_ns, 1_600);
}

#[test]
fn switching_the_mode_keeps_everything_else() {
    let mut pll = PhaseLockLoop::new();
    let before = format!("{:?}", pll.config());
    pll.set_mode(LoopMode::P);
    assert_eq!(pll.config().mode, LoopMode::P);
    // Without the integral term nothing accumulates.
    assert_eq!(pll.update(4_000, true).freq_trim_mppb, 0);
    pll.set_mode(LoopMode::PidSmith);
    assert_eq!(format!("{:?}", pll.config()), before);
}

#[test]
fn rework_that_bleeds_back_everything_stays_bounded() {
    let cfg = IntegralReworkConfig { kbc_inv: 1, trim_max_mppb: 10_000, ..Default::default() };
    let mut rework = IntegralRework::with_config(cfg);
    for i in 0..10_000i64 {
        let u = rework.step(valid(if i % 2 == 0 { 1_000_000_000 } else { -1_000_000_000 }));
        assert!(u.trim_mppb.abs() <= 20_000);
    }
}

#[test]
fn lock_counts_the_last_applied_edges_only() {
    let mut pll = PhaseLockLoop::new();
    for _ in 0..4 {
        pll.update(999, true);
    }
    assert!(!pll.is_locked());
    // An invalid edge neither helps nor hurts.
    pll.update(0, false);
    assert!(!pll.is_locked());
    pll.update(-999, true);
    assert!(pll.is_locked());
    // A held spike leaves the lock alone; an applied edge outside the window takes it away.
    pll.update(50_000, true);
    assert!(pll.is_locked());
    pll.update(1_000, true);
    assert!(!pll.is_locked());
}

#[test]
fn lock_window_may_be_wider_than_the_spike_limit() {
    let cfg = PhaseLockLoopConfig { lock_ns: 10_000, outlier_ns: 100, ..Default::default() };
    let mut pll = PhaseLockLoop::with_config(cfg);
    for i in 0..20 {
        assert_eq!(pll.is_locked(), i >= 5);
        pll.update(9_999, true);
    }
}
