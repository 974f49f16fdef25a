use pico_gnss::controllers::Controller;
use pico_gnss::stage::{
    apply_freq, ctrl_grid, exp_cfg, initial_controller, make_controller, phase_servo, recal_eff,
    recal_on, temp_ff, use_pio, BuildConfig, GridPoint, CONTROLLER_LIST_LEN, D_DEN_TUNED,
    I_DEN_CALM, PRECISION_STAGE, RECAL_EDGES, SWEEP_SCHEDULE, TEMP_FF_ENABLE, UNSET,
};

#[test]
fn ladder_adds_one_gate_per_stage() {
    let gates = |s: u8| {
        [
            apply_freq(s),
            use_pio(s),
            phase_servo(s),
            recal_on(s),
            temp_ff(s),
        ]
    };
    assert_eq!(gates(0), [false; 5]);
    assert_eq!(gates(1), [true, false, false, false, false]);
    assert_eq!(gates(2), [true, true, false, false, false]);
    assert_eq!(gates(3), [true, true, true, false, false]);
    assert_eq!(gates(4), [true, true, true, true, false]);
    assert_eq!(gates(5), [true; 5]);
}

#[test]
fn recalibration_cadence_follows_stage_and_override() {
    assert_eq!(recal_eff(5, UNSET), RECAL_EDGES);
    assert_eq!(RECAL_EDGES, 150);
    assert_eq!(recal_eff(3, UNSET), u32::MAX);
    assert_eq!(recal_eff(3, 7), 7);
    assert_eq!(recal_eff(4, 1_000_000), 1_000_000);
}

#[test]
fn production_is_admissible_and_plain() {
    let cfg = BuildConfig::production();
    assert!(cfg.is_admissible());
    assert_eq!(cfg.stage, PRECISION_STAGE);
    assert_eq!(temp_ff(cfg.stage), TEMP_FF_ENABLE);
    assert_eq!(cfg.controller_name(), "pll");
    assert_eq!(cfg.measurement_flags(), 0);
    assert_eq!(cfg.inject_freq_mppb, 0);
}

#[test]
fn inadmissible_builds_are_refused() {
    let p = BuildConfig::production();
    assert!(!BuildConfig { stage: 6, ..p }.is_admissible());
    assert!(!BuildConfig { recal_edges_override: 10, ..p }.is_admissible());
    assert!(BuildConfig { stage: 4, recal_edges_override: 10, ..p }.is_admissible());
    assert!(!BuildConfig { stage: 3, controller_sweep: true, ..p }.is_admissible());
    assert!(!BuildConfig { stage: 3, prbs_inject: true, ..p }.is_admissible());
    assert!(!BuildConfig { stage: 3, kick_inject: true, ..p }.is_admissible());
    assert!(!BuildConfig { stage: 3, intermittent: true, ..p }.is_admissible());
    assert!(BuildConfig { controller_sweep: true, ..p }.is_admissible());
    assert!(!BuildConfig { shadow3: true, ..p }.is_admissible());
    assert!(BuildConfig { shadow3: true, c3_watch_output: true, ..p }.is_admissible());
}

#[test]
fn output_path_is_named_by_stage() {
    let p = BuildConfig::production();
    assert_eq!(BuildConfig { stage: 0, ..p }.controller_name(), "naive");
    assert_eq!(BuildConfig { stage: 1, ..p }.controller_name(), "naive");
    assert_eq!(BuildConfig { stage: 2, ..p }.controller_name(), "open_loop");
    assert_eq!(BuildConfig { stage: 3, ..p }.controller_name(), "pll");
}

#[test]
fn measurement_flags_are_one_bit_each() {
    let p = BuildConfig::production();
    assert_eq!(BuildConfig { controller_sweep: true, ..p }.measurement_flags(), 1);
    assert_eq!(BuildConfig { prbs_inject: true, ..p }.measurement_flags(), 2);
    assert_eq!(BuildConfig { kick_inject: true, ..p }.measurement_flags(), 4);
    assert_eq!(BuildConfig { intermittent: true, ..p }.measurement_flags(), 8);
    let all = BuildConfig {
        controller_sweep: true,
        prbs_inject: true,
        kick_inject: true,
        intermittent: true,
        ..p
    };
    assert_eq!(all.measurement_flags(), 15);
}

#[test]
fn grid_keeps_the_ratio_and_wraps() {
    assert_eq!(
        ctrl_grid(0),
        GridPoint { i_den: I_DEN_CALM, d_den: D_DEN_TUNED, kp_inv: 8, smith_edges: 1 }
    );
    assert_eq!(ctrl_grid(0).i_den, 512);
    assert_eq!(ctrl_grid(1).i_den, 1024);
    assert_eq!(ctrl_grid(2).i_den, 2048);
    for i in 0..9 {
        assert_eq!(ctrl_grid(i).i_den, 32 * ctrl_grid(i).d_den);
        assert_eq!(ctrl_grid(i), ctrl_grid(i + CONTROLLER_LIST_LEN));
    }
}

#[test]
fn schedule_visits_every_controller_in_each_third() {
    for third in 0..3 {
        let mut part = SWEEP_SCHEDULE[3 * third..3 * third + 3].to_vec();
        part.sort();
        assert_eq!(part, vec![0, 1, 2]);
    }
}

#[test]
fn controllers_are_made_from_the_grid() {
    for idx in 0..3 {
        let c = make_controller(idx);
        assert_eq!(c.name(), "pll");
        match &c {
            Controller::Pll(pll) => {
                assert_eq!(pll.config().i_den, ctrl_grid(idx).i_den);
                assert_eq!(pll.config().d_den, ctrl_grid(idx).d_den);
                assert_eq!(pll.config().kp_inv, 0);
                assert_eq!(pll.freq_trim_mppb(), 0);
            }
            _ => panic!("not a loop"),
        }
    }
    assert_eq!(initial_controller(2).name(), "open_loop");
    assert_eq!(initial_controller(3).name(), "pll");
}

#[test]
fn tuning_changes_only_what_it_is_given() {
    let c = exp_cfg(1024, 32, 4, 2);
    assert_eq!(c.i_den, 1024);
    assert_eq!(c.d_den, 32);
    assert_eq!(c.kp_inv, 4);
    assert_eq!(c.smith_edges, 2);
    assert_eq!(c.calm_ns, 1_000);
    assert_eq!(c.i_den_disturbed_shift, 0);
    assert_eq!(c.lock_hold, 5);
    assert_eq!(c.trim_max_mppb, 3_000_000);
}
