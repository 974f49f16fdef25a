use pico_gnss::control::{ControlInit, ControlInput, ControlOutput, PhaseController};
use pico_gnss::controllers::{AlphaBetaBoost, AlphaBetaBoostConfig, Controller, IntegralRework, IntegralReworkConfig, OpenLoopFf};
use pico_gnss::pll::{PhaseLockLoop, PhaseLockLoopConfig};


fn drive<C: PhaseController>(c: &mut C, err: i64, valid: bool) -> ControlOutput {
    c.step(ControlInput { err_ns: err, valid })
}

#[test]
fn open_loop_emits_no_phase_correction_and_holds_trim() {
    let mut c = OpenLoopFf::new();
    c.start_segment(ControlInit {
        residual_trim_mppb: 5_000,
    });
    for err in [50_000, 0, -800, 1_234] {
        let o = drive(&mut c, err, true);
        assert_eq!(o.pcorr_ns, 0);
        assert_eq!(o.trim_mppb, 5_000);
        assert!(!o.locked);
    }
    let o = drive(&mut c, 999, false);
    assert!(!o.applied);
    assert_eq!(o.trim_mppb, 5_000);
}

#[test]
fn alpha_beta_locks_from_offset() {
    let mut c = AlphaBetaBoost::new();
    let mut out: i64 = 20_000;
    let mut locked_at = None;
    for k in 0..400 {
        let o = drive(&mut c, out, true);
        out += o.trim_mppb / 1000 - o.pcorr_ns;
        if c.is_locked() && locked_at.is_none() {
            locked_at = Some(k);
        }
    }
    assert!(locked_at.is_some(), "should lock within 400 edges");
    assert!(out.abs() < 1_000, "should settle inside the lock window, got {out}");
}

#[test]
fn alpha_beta_boost_enters_on_transient_not_on_steady_wander() {
    let mut c = AlphaBetaBoost::new();
    let mut out: i64 = 0;
    for _ in 0..40 {
        let o = drive(&mut c, out, true);
        out += o.trim_mppb / 1000 - o.pcorr_ns;
    }
    assert!(c.is_locked());
    for err in [300, -250, 400, -350, 200, -300, 350, -400] {
        let o = drive(&mut c, err, true);
        assert_eq!(o.dbg.state, 0, "steady wander {err}ns must not enter boost");
    }
    c.start_segment(ControlInit {
        residual_trim_mppb: 0,
    });
    let o = drive(&mut c, 20_000, true);
    assert_eq!(o.dbg.state, 1, "a reacquisition transient must enter boost");
}

#[test]
fn alpha_beta_start_segment_keeps_output_frequency_continuous() {
    for seed in [-7_000, 0, 12_345, 2_999_999, -2_999_999] {
        let mut c = AlphaBetaBoost::new();
        c.start_segment(ControlInit {
            residual_trim_mppb: seed,
        });
        assert_eq!(c.freq_trim_mppb(), seed, "getter before first edge");
        assert!(!c.is_locked());
        let o = drive(&mut c, 0, true);
        assert_eq!(o.trim_mppb, seed, "first emitted trim must equal the seed (seed={seed})");
        assert_eq!(o.pcorr_ns, 0, "no phase kick on the first post-switch edge");
        assert_eq!(o.dbg.state, 0, "not boosting on a steady switch");
    }
}

#[test]
fn alpha_beta_boost_does_not_latch_on_periodic_outliers() {
    let mut c = AlphaBetaBoost::new();
    let mut out: i64 = 0;
    for _ in 0..40 {
        let o = drive(&mut c, out, true);
        out += o.trim_mppb / 1000 - o.pcorr_ns;
    }
    assert!(c.is_locked());
    let mut boosting = 0;
    let n = 600;
    for k in 0..n {
        let err = if k % 13 == 12 { 0 } else { 50_000 };
        let o = drive(&mut c, err, true);
        boosting += o.dbg.state as usize;
    }
    assert!(
        boosting * 2 < n,
        "boost must not latch on periodic outliers (boosting {boosting}/{n} edges)"
    );
}

#[test]
fn controllers_do_not_panic_on_zero_denominator_config() {
    let mut a = AlphaBetaBoost::with_config(AlphaBetaBoostConfig {
        steady_alpha_inv: 0,
        steady_beta_inv: 0,
        steady_pgain_inv: 0,
        fast_alpha_inv: 0,
        fast_beta_inv: 0,
        fast_pgain_inv: 0,
        ..AlphaBetaBoostConfig::default()
    });
    let _ = drive(&mut a, 100, true);
    let mut i = IntegralRework::with_config(IntegralReworkConfig {
        i_den: 0,
        kbc_inv: 0,
        kp_inv: 0,
        d_den: 0,
        ..IntegralReworkConfig::default()
    });
    let _ = drive(&mut i, 0, true);
    let _ = drive(&mut i, 500, true);
}

#[test]
fn alpha_beta_rejects_isolated_spike_then_accepts_persistent() {
    let mut c = AlphaBetaBoost::new();
    let mut out: i64 = 0;
    for _ in 0..40 {
        let o = drive(&mut c, out, true);
        out += o.trim_mppb / 1000 - o.pcorr_ns;
    }
    assert!(c.is_locked());
    for _ in 0..c.config().outlier_max {
        let o = drive(&mut c, 50_000, true);
        assert!(o.rejected && !o.applied);
        assert_eq!(o.pcorr_ns, 0);
    }
    let o = drive(&mut c, 50_000, true);
    assert!(!o.rejected && o.applied);
    assert_eq!(o.dbg.state, 1);
}

#[test]
fn integral_rework_locks_and_holds_on_invalid() {
    let mut c = IntegralRework::new();
    let mut out: i64 = 10_000;
    for _ in 0..400 {
        let o = drive(&mut c, out, true);
        out += o.trim_mppb / 1000 - o.pcorr_ns;
    }
    assert!(c.is_locked());
    assert!(out.abs() < 1_000, "should settle, got {out}");
    let trim = drive(&mut c, out, true).trim_mppb;
    let o = drive(&mut c, 999_999, false);
    assert!(!o.applied);
    assert_eq!(o.pcorr_ns, 0);
    assert_eq!(o.trim_mppb, trim);
    assert!(c.is_locked());
}

#[test]
fn controller_enum_dispatches_and_switches_fairly() {
    let mut list = [
        Controller::Pll(PhaseLockLoop::new()),
        Controller::IntegRework(IntegralRework::new()),
        Controller::AbBoost(AlphaBetaBoost::new()),
        Controller::Pll(PhaseLockLoop::with_config(PhaseLockLoopConfig::naive_pid())),
    ];
    for c in list.iter_mut() {
        c.start_segment(ControlInit {
            residual_trim_mppb: 4_321,
        });
        assert!(!c.is_locked(), "{} should start a segment unlocked", c.name());
        let mut out: i64 = 15_000;
        for _ in 0..400 {
            let o = c.step(ControlInput {
                err_ns: out,
                valid: true,
            });
            out += o.trim_mppb / 1000 - o.pcorr_ns;
        }
        assert!(c.is_locked(), "{} should lock after switch", c.name());
        assert!(out.abs() < 1_000, "{} should settle, got {out}", c.name());
    }
    let mut ol = Controller::OpenLoop(OpenLoopFf::new());
    let o = ol.step(ControlInput {
        err_ns: 9_999,
        valid: true,
    });
    assert_eq!(o.pcorr_ns, 0);
    assert!(!ol.is_locked());
    assert_eq!(ol.name(), "open_loop");
}

#[test]
fn integral_rework_integral_input_is_clamped() {
    let mut c = IntegralRework::new();
    let big = drive(&mut c, 100_000, true).trim_mppb.abs();
    let cfg = IntegralReworkConfig::default();
    let bound = cfg.e_i_ns * 1000 / cfg.i_den;
    assert!(big <= bound as i64, "first step {big} should be clamped to ≤ {bound}");
}
