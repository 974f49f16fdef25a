use pico_gnss::bench::{Watch, WindowChange, SHADOW_EDGES};
use pico_gnss::controllers::{AlphaBetaBoost, Controller, IntegralRework, OpenLoopFf};
use pico_gnss::loopback::OffsetTracker;
use pico_gnss::pll::PhaseLockLoop;
use pico_gnss::servo::{EdgeCommand, EdgeReading, OutputServo, TRIM_LIMIT_MPPB};
use pico_gnss::stage::{BuildConfig, RECAL_EDGES};

const CLK: u32 = 125_000_000;

fn reading(x: u32, hwphase_ns: i64) -> EdgeReading {
    EdgeReading {
        x,
        c0: 77,
        interval_ns: Some(1_000_000_000),
        hwphase_ns,
        raw_lag: 0,
        clk_hz: CLK,
        soft_phase_ns: None,
        pred_mppb: 2_900_500,
        steer_mppb: 2_900_200,
        level_mppb: 2_900_000,
    }
}

fn edge(s: &mut OutputServo, generation: u32, r: EdgeReading) -> EdgeCommand {
    let _ = s.begin_edge(generation);
    s.on_edge(r)
}

fn locked_servo(cfg: BuildConfig) -> (OutputServo, u32) {
    let mut s = OutputServo::new(cfg, 1_000);
    let mut generation = 0;
    loop {
        generation += 1;
        if edge(&mut s, generation, reading(generation, 0)).output.locked {
            return (s, generation);
        }
        assert!(generation < 20);
    }
}

#[test]
fn edge_query_hands_out_what_the_phase_is_made_of() {
    let mut s = OutputServo::new(BuildConfig::production(), 1_000);
    let q = s.begin_edge(1);
    assert_eq!(q.last_x, None);
    assert_eq!(q.k, 1_000);
    assert!(s.fresh);
    let _ = s.on_edge(EdgeReading { interval_ns: None, ..reading(55, 0) });
    assert_eq!(s.begin_edge(2).last_x, Some(55));
}

#[test]
fn reference_is_fresh_only_one_generation_on() {
    let mut s = OutputServo::new(BuildConfig::production(), 0);
    assert!(s.awaits_reference(0));
    assert!(!s.awaits_reference(1));
    let _ = s.begin_edge(1);
    assert!(s.fresh);
    let _ = s.begin_edge(1);
    assert!(!s.fresh);
    let _ = s.begin_edge(3);
    assert!(!s.fresh);
    let _ = s.begin_edge(u32::MAX);
    let _ = s.begin_edge(0);
    assert!(s.fresh);
}

#[test]
fn production_output_is_feedforward_plus_trim() {
    let (mut s, g) = locked_servo(BuildConfig::production());
    let cmd = edge(&mut s, g + 1, reading(9, 200));
    assert!(cmd.valid);
    assert!(cmd.output.applied);
    assert_eq!(cmd.freq_mppb, 2_900_200 + cmd.output.trim_mppb);
    assert_eq!(cmd.phase_ns, cmd.output.pcorr_ns);
    assert_eq!(cmd.output.dbg.p_ns, 200 / 8);
    assert_eq!(cmd.ff_delta_mppb, 500);
    assert_eq!(cmd.steer_ff_mppb, 200);
    assert_eq!(cmd.dev_ns, Some(0));
    assert!(cmd.feed_temp);
    assert!(!cmd.open_loop);
    assert_eq!(cmd.cidx, 0);
    assert_eq!((cmd.prbs_ns, cmd.kick_ns, cmd.bias_mppb), (0, 0, 0));
}

#[test]
fn untrusted_edges_hold_the_loop() {
    let bad = [
        EdgeReading { c0: 0, ..reading(1, 500) },
        EdgeReading { interval_ns: None, ..reading(1, 500) },
        EdgeReading { interval_ns: Some(700_000_000), ..reading(1, 500) },
        EdgeReading { interval_ns: Some(1_300_000_000), ..reading(1, 500) },
        EdgeReading { raw_lag: 625_001, ..reading(1, 500) },
        EdgeReading { raw_lag: -625_001, ..reading(1, 500) },
        EdgeReading { raw_lag: i32::MIN, ..reading(1, 500) },
    ];
    for r in bad {
        let (mut s, g) = locked_servo(BuildConfig::production());
        let before = match &s.controller {
            Controller::Pll(p) => p.freq_trim_mppb(),
            _ => panic!("not a loop"),
        };
        let cmd = edge(&mut s, g + 1, r);
        assert!(!cmd.valid);
        assert!(!cmd.output.applied);
        assert_eq!(cmd.phase_ns, 0);
        assert_eq!(cmd.output.trim_mppb, before);
    }
    let (mut s, g) = locked_servo(BuildConfig::production());
    assert!(!edge(&mut s, g, reading(1, 500)).valid);
    let (mut s, g) = locked_servo(BuildConfig::production());
    assert!(!edge(&mut s, g + 2, reading(1, 500)).valid);
}

#[test]
fn intervals_just_inside_the_window_are_sane() {
    for iv in [700_000_001i64, 1_299_999_999] {
        let (mut s, g) = locked_servo(BuildConfig::production());
        let cmd = edge(&mut s, g + 1, EdgeReading { interval_ns: Some(iv), ..reading(1, 0) });
        assert!(cmd.valid);
        assert_eq!(cmd.dev_ns, Some(iv - 1_000_000_000));
    }
}

#[test]
fn open_loop_stage_logs_mispaired_edges_without_dropping_them() {
    let cfg = BuildConfig { stage: 2, ..BuildConfig::production() };
    let mut s = OutputServo::new(cfg, 0);
    let cmd = edge(&mut s, 1, EdgeReading { raw_lag: 700_000, ..reading(1, 500) });
    assert!(cmd.valid);
    assert!(!cmd.paired);
    assert!(!cmd.mispaired);
    assert!(cmd.open_loop);
    assert_eq!(cmd.phase_ns, 0);
    assert_eq!(cmd.freq_mppb, 2_900_200);
    let (mut s, g) = locked_servo(BuildConfig::production());
    let cmd = edge(&mut s, g + 1, EdgeReading { raw_lag: 700_000, ..reading(1, 500) });
    assert!(cmd.mispaired);
}

#[test]
fn software_phase_is_used_when_configured() {
    let cfg = BuildConfig { phase_use_hw: false, ..BuildConfig::production() };
    let mut s = OutputServo::new(cfg, 0);
    let r = EdgeReading { soft_phase_ns: Some(80), ..reading(1, 8_000) };
    assert_eq!(edge(&mut s, 1, r).output.dbg.pred_ns, 80);
    let mut s = OutputServo::new(cfg, 0);
    assert_eq!(edge(&mut s, 1, reading(1, 8_000)).output.dbg.pred_ns, 0);
}

#[test]
fn recalibration_comes_due_after_locked_edges_in_a_row() {
    let (mut s, mut g) = locked_servo(BuildConfig::production());
    let mut edges = 1;
    loop {
        g += 1;
        edges += 1;
        if edge(&mut s, g, reading(g, 0)).tasks.recal {
            break;
        }
        assert!(edges < 1_000);
    }
    assert_eq!(edges, RECAL_EDGES);
}

#[test]
fn losing_lock_restarts_the_recalibration_cadence() {
    let (mut s, mut g) = locked_servo(BuildConfig::production());
    for _ in 0..100 {
        g += 1;
        let _ = edge(&mut s, g, reading(g, 0));
    }
    assert_eq!(s.agenda.recal.edges, 101);
    // More than the outlier limit of large errors in a row unlocks the loop.
    let mut unlocked = false;
    for _ in 0..20 {
        g += 1;
        if !edge(&mut s, g, reading(g, 50_000)).output.locked {
            unlocked = true;
            break;
        }
    }
    assert!(unlocked);
    assert_eq!(s.agenda.recal.edges, 0);
}

#[test]
fn recalibrated_offset_is_approached_and_the_gap_is_bridged() {
    let (mut s, g) = locked_servo(BuildConfig::production());
    s.on_recalibrated(1_005, g + 9);
    assert_eq!(s.offset, OffsetTracker { k: 1_000, target: 1_005 });
    assert_eq!(s.last_x, None);
    let q = s.begin_edge(g + 10);
    assert_eq!(q.k, 1_002);
    assert_eq!(q.last_x, None);
    assert!(s.fresh);
    assert_eq!(s.start_recalibration().conclude(None).is_err(), true);
}

#[test]
fn shadow_measurement_applies_nothing() {
    let cfg = BuildConfig { stage: 3, shadow_recal: true, ..BuildConfig::production() };
    let (mut s, mut g) = locked_servo(cfg);
    let mut edges = 1;
    loop {
        g += 1;
        edges += 1;
        let cmd = edge(&mut s, g, reading(g, 0));
        assert!(!cmd.tasks.recal);
        if cmd.tasks.shadow_recal {
            break;
        }
    }
    assert_eq!(edges, SHADOW_EDGES);
    assert_eq!(s.on_shadow_measured(994, g), -6);
    assert_eq!(s.offset, OffsetTracker { k: 1_000, target: 1_000 });
    assert_eq!(s.last_x, None);
}

#[test]
fn sweep_hands_over_without_a_frequency_step() {
    let cfg = BuildConfig { controller_sweep: true, ..BuildConfig::production() };
    let (mut s, mut g) = locked_servo(cfg);
    loop {
        g += 1;
        let r = reading(g, 90);
        let cmd = edge(&mut s, g, r);
        if let Some(sw) = cmd.switched {
            assert_eq!(sw.cidx, 1);
            assert!(!sw.forced);
            match &s.controller {
                Controller::Pll(p) => {
                    assert_eq!(r.steer_mppb + p.freq_trim_mppb(), cmd.freq_mppb);
                    assert_eq!(p.config().i_den, 1024);
                    assert!(!p.is_locked());
                }
                _ => panic!("not a loop"),
            }
            break;
        }
    }
}

#[test]
fn disturbances_are_added_while_locked_only() {
    let cfg = BuildConfig { prbs_inject: true, kick_inject: true, ..BuildConfig::production() };
    let mut s = OutputServo::new(cfg, 0);
    let first = edge(&mut s, 1, reading(1, 0));
    assert_eq!((first.prbs_ns, first.kick_ns), (0, 0));
    let (mut s, mut g) = locked_servo(cfg);
    let mut kicks = 0;
    for _ in 0..150 {
        g += 1;
        let cmd = edge(&mut s, g, reading(g, 0));
        assert_eq!(cmd.prbs_ns.abs(), 96);
        assert_eq!(cmd.phase_ns, cmd.output.pcorr_ns + cmd.prbs_ns + cmd.kick_ns);
        if cmd.kick_ns != 0 {
            assert_eq!(cmd.kick_ns, 8_000);
            kicks += 1;
        }
    }
    assert_eq!(kicks, 1);
}

#[test]
fn frequency_bias_is_hidden_from_the_loop() {
    let cfg = BuildConfig { inject_freq_mppb: 1_000, ..BuildConfig::production() };
    let (mut s, mut g) = locked_servo(cfg);
    let mut seen = Vec::new();
    while s.count < 302 {
        g += 1;
        let cmd = edge(&mut s, g, reading(g, 0));
        assert_eq!(cmd.freq_mppb, 2_900_200 + cmd.output.trim_mppb + cmd.bias_mppb);
        seen.push((cmd.count, cmd.bias_mppb));
    }
    assert!(seen.contains(&(300, 0)));
    assert!(seen.contains(&(301, 1_000)));
}

#[test]
fn open_windows_hold_the_mean_trim() {
    let cfg = BuildConfig { intermittent: true, ..BuildConfig::production() };
    let (mut s, mut g) = locked_servo(cfg);
    let mut opened = None;
    while opened.is_none() {
        g += 1;
        let cmd = edge(&mut s, g, reading(g, 40));
        assert!(!cmd.tasks.recal);
        if let Some(WindowChange::Opened { toff, held_trim }) = cmd.tasks.window {
            opened = Some((toff, held_trim));
        }
    }
    let (toff, held_trim) = opened.unwrap();
    assert_eq!(toff, 30);
    g += 1;
    let cmd = edge(&mut s, g, reading(g, 400));
    assert!(!cmd.valid);
    assert_eq!(cmd.phase_ns, 0);
    assert_eq!(cmd.freq_mppb, 2_900_200 + held_trim);
    let mut closed = false;
    for _ in 0..40 {
        g += 1;
        let cmd = edge(&mut s, g, reading(g, 0));
        if cmd.tasks.window == Some(WindowChange::Closed) {
            assert!(cmd.tasks.recal);
            closed = true;
            break;
        }
    }
    assert!(closed);
}

#[test]
fn open_windows_can_drop_the_trim() {
    let cfg = BuildConfig { intermittent: true, hold_trim: false, ..BuildConfig::production() };
    let (mut s, mut g) = locked_servo(cfg);
    while !s.agenda.windows.open {
        g += 1;
        let _ = edge(&mut s, g, reading(g, 40));
    }
    g += 1;
    assert_eq!(edge(&mut s, g, reading(g, 0)).freq_mppb, 2_900_200);
}

#[test]
fn feedforward_alternates_on_schedule() {
    let cfg = BuildConfig { stage: 3, temp_ff_abab: true, ..BuildConfig::production() };
    let (mut s, mut g) = locked_servo(cfg);
    let mut changes = Vec::new();
    for _ in 0..3_600 {
        g += 1;
        if let Some(on) = edge(&mut s, g, reading(g, 0)).tasks.set_temp_ff {
            changes.push(on);
        }
    }
    assert_eq!(changes, vec![true, false]);
}

#[test]
fn observing_counter_moves_on_schedule() {
    let cfg = BuildConfig {
        stage: 3,
        shadow3: true,
        c3_watch_output: true,
        ..BuildConfig::production()
    };
    let (mut s, mut g) = locked_servo(cfg);
    let mut moves = Vec::new();
    for _ in 0..70 {
        g += 1;
        if let Some(w) = edge(&mut s, g, reading(g, 0)).tasks.watch {
            moves.push(w);
        }
    }
    assert_eq!(moves, vec![Watch::Reference, Watch::Output]);
}

#[test]
fn every_controller_takes_extreme_edges_for_ever() {
    let limit = 1_000_000_000_000_000i64;
    let controllers = [
        Controller::Pll(PhaseLockLoop::new()),
        Controller::IntegRework(IntegralRework::new()),
        Controller::AbBoost(AlphaBetaBoost::new()),
        Controller::OpenLoop(OpenLoopFf::new()),
    ];
    for controller in controllers {
        let cfg = BuildConfig { intermittent: true, ..BuildConfig::production() };
        let mut s = OutputServo::new(cfg, 1_000);
        s.controller = controller;
        for i in 0..2_000u32 {
            let sign = if i % 2 == 0 { 1 } else { -1 };
            let mut r = reading(i, if i % 7 < 5 { 10 } else { sign * limit });
            r.steer_mppb = sign * limit;
            r.level_mppb = -sign * limit;
            let _ = s.begin_edge(i.wrapping_add(1));
            assert!(s.can_take(&r));
            let cmd = s.on_edge(r);
            assert!(cmd.output.trim_mppb.abs() <= TRIM_LIMIT_MPPB);
            assert!(s.agenda.windows.held_trim.abs() <= TRIM_LIMIT_MPPB);
        }
    }
}

#[test]
fn impossible_readings_are_not_taken() {
    let limit = 1_000_000_000_000_000i64;
    let mut s = OutputServo::new(BuildConfig::production(), 1_000);
    assert!(s.can_take(&reading(1, limit)));
    assert!(!s.can_take(&reading(1, limit + 1)));
    assert!(!s.can_take(&reading(1, i64::MIN)));
    assert!(!s.can_take(&EdgeReading { soft_phase_ns: Some(-limit - 1), ..reading(1, 0) }));
    assert!(!s.can_take(&EdgeReading { interval_ns: Some(limit + 1), ..reading(1, 0) }));
    assert!(!s.can_take(&EdgeReading { pred_mppb: limit + 1, ..reading(1, 0) }));
    assert!(!s.can_take(&EdgeReading { steer_mppb: limit + 1, ..reading(1, 0) }));
    assert!(!s.can_take(&EdgeReading { level_mppb: -limit - 1, ..reading(1, 0) }));
    s.count = u32::MAX;
    assert!(!s.can_take(&reading(1, 0)));
    assert!(s.can_take(&EdgeReading { interval_ns: None, ..reading(1, 0) }));
}
