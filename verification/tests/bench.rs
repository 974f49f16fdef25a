use pico_gnss::bench::{
    Cadence, CounterShadow, Kick, Prbs, Sweep, SweepSwitch, Watch, WindowChange, Windows,
    CONTROLLER_SWEEP_EDGES, CONTROLLER_SWEEP_LIMIT, EXP_TOFF_SCHEDULE, EXP_TON_EDGES, KICK_AMP_NS,
    KICK_PERIOD, PRBS_AMP_NS, SHADOW3_EDGES_A, SHADOW3_EDGES_B, SHADOW3_PHASE_B_COUNT,
    SHADOW3_WINDOW_EDGES,
};

#[test]
fn prbs_steps_a_maximal_length_register() {
    let mut p = Prbs::new();
    assert_eq!(p.lfsr, 0xACE1);
    assert_eq!(p.step(true), PRBS_AMP_NS);
    assert_eq!(p.lfsr, (0xACE1u16 >> 1) ^ 0xB400);
    let start = p.lfsr;
    let mut period: u32 = 0;
    loop {
        let _ = p.step(true);
        assert_ne!(p.lfsr, 0);
        period += 1;
        if p.lfsr == start {
            break;
        }
    }
    assert_eq!(period, 65_535);
}

#[test]
fn prbs_is_quiet_and_still_while_unlocked() {
    let mut p = Prbs::new();
    assert_eq!(p.step(false), 0);
    assert_eq!(p, Prbs::new());
}

#[test]
fn prbs_amplitude_takes_both_signs() {
    let mut p = Prbs { lfsr: 2 };
    assert_eq!(p.step(true), -96);
    assert_eq!(p.lfsr, 1);
    assert_eq!(p.step(true), 96);
    assert_eq!(p.lfsr, 0xB400);
}

#[test]
fn kick_comes_every_period_of_locked_edges() {
    let mut k = Kick::new();
    let mut at = Vec::new();
    for edge in 1..=2 * KICK_PERIOD {
        let _ = k.step(false);
        if k.step(true) == KICK_AMP_NS {
            at.push(edge);
        }
    }
    assert_eq!(at, vec![KICK_PERIOD, 2 * KICK_PERIOD]);
    assert_eq!(KICK_AMP_NS, 8000);
}

#[test]
fn sweep_switches_after_enough_locked_edges() {
    let mut s = Sweep::new();
    assert_eq!(s.cidx(), 0);
    for _ in 0..CONTROLLER_SWEEP_EDGES - 1 {
        assert_eq!(s.step(true, true), None);
    }
    assert_eq!(s.step(true, true), Some(SweepSwitch { cidx: 1, forced: false }));
    assert_eq!(s.cidx(), 1);
    assert_eq!(s.locked_edges, 0);
}

#[test]
fn sweep_is_forced_on_when_nothing_locks() {
    let mut s = Sweep::new();
    for _ in 0..CONTROLLER_SWEEP_LIMIT - 1 {
        assert_eq!(s.step(true, false), None);
    }
    assert_eq!(s.step(true, false), Some(SweepSwitch { cidx: 1, forced: true }));
}

#[test]
fn sweep_repeats_its_schedule_and_can_be_off() {
    let mut s = Sweep::new();
    let mut visited = vec![s.cidx()];
    while visited.len() < 10 {
        if let Some(sw) = s.step(true, true) {
            visited.push(sw.cidx);
        }
    }
    assert_eq!(visited, vec![0, 1, 2, 1, 2, 0, 2, 0, 1, 0]);
    let before = s;
    assert_eq!(s.step(false, true), None);
    assert_eq!(s, before);
}

#[test]
fn cadence_comes_due_and_starts_over() {
    let mut c = Cadence::new();
    let due: Vec<bool> = (0..6).map(|_| c.step(true, 3)).collect();
    assert_eq!(due, vec![false, false, true, false, false, true]);
    assert!(!c.step(false, 1));
}

#[test]
fn cadence_that_never_comes_due_does_not_overflow() {
    let mut c = Cadence { edges: u32::MAX - 2 };
    assert!(!c.step(true, u32::MAX));
    assert!(c.step(true, u32::MAX));
    assert_eq!(c.edges, 0);
}

#[test]
fn counter_shadow_visits_the_reference_and_returns() {
    let mut s = CounterShadow::new();
    for _ in 0..SHADOW3_EDGES_A - 1 {
        assert_eq!(s.step(true, 0), None);
    }
    assert_eq!(s.step(true, 0), Some(Watch::Reference));
    for _ in 0..SHADOW3_WINDOW_EDGES - 1 {
        assert_eq!(s.step(true, 0), None);
    }
    assert_eq!(s.step(true, 0), Some(Watch::Output));
    assert_eq!(s.window_left, 0);
}

#[test]
fn counter_shadow_slows_down_later_in_the_run() {
    let mut s = CounterShadow::new();
    for _ in 0..SHADOW3_EDGES_B - 1 {
        assert_eq!(s.step(true, SHADOW3_PHASE_B_COUNT), None);
    }
    assert_eq!(s.step(true, SHADOW3_PHASE_B_COUNT), Some(Watch::Reference));
    let mut idle = CounterShadow::new();
    assert_eq!(idle.step(false, 0), None);
    assert_eq!(idle, CounterShadow::new());
}

#[test]
fn windows_open_with_the_mean_trim_and_close_in_turn() {
    let mut w = Windows::new();
    for i in 0..EXP_TON_EDGES - 1 {
        assert_eq!(w.step(true, i as i64), None);
    }
    // 0 + 1 + .. + 28 and one more of 100, over 30.
    assert_eq!(
        w.step(true, 100),
        Some(WindowChange::Opened { toff: EXP_TOFF_SCHEDULE[0], held_trim: (28 * 29 / 2 + 100) / 30 })
    );
    assert!(w.open);
    for _ in 0..EXP_TOFF_SCHEDULE[0] - 1 {
        assert_eq!(w.step(true, 5), None);
    }
    assert_eq!(w.step(true, 5), Some(WindowChange::Closed));
    assert_eq!(w.toff_idx, 1);
    assert_eq!(w.trim_sum, 0);
    assert_eq!(w.trim_n, 0);
}

#[test]
fn windows_round_the_mean_towards_zero() {
    let mut w = Windows::new();
    let mut last = None;
    for i in 0..EXP_TON_EDGES {
        last = w.step(true, if i == 0 { -29 } else { 0 });
    }
    assert_eq!(last, Some(WindowChange::Opened { toff: 30, held_trim: 0 }));
}

#[test]
fn losing_lock_restarts_the_window_but_keeps_the_mean() {
    let mut w = Windows::new();
    let _ = w.step(true, 60);
    assert_eq!(w.step(false, 1_000), None);
    assert_eq!(w.edges, 0);
    assert_eq!(w.trim_sum, 60);
    assert_eq!(w.trim_n, 1);
}
