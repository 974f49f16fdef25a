//! The precision ladder: one knob that decides how much of the clock is running.
//!
//! Stage 0 free-runs a soft 1PPS. Stage 1 applies the crystal estimate to it. Stage 2 moves both
//! edges into PIO hardware. Stage 3 closes the phase loop. Stage 4 recalibrates the counter offset
//! while running. Stage 5 adds the temperature feedforward and is what ships.
//!
//! The remaining switches select measurements that are made on the bench; all of them are off in a
//! shipping build.

use vstd::prelude::*;
use crate::controllers::{Controller, OpenLoopFf};
use crate::pll::{LoopMode, PhaseLockLoop, PhaseLockLoopConfig};

verus! {

use crate::pll::PllState;

/// The stage that ships.
pub const PRECISION_STAGE: u8 = 5;

/// Whether the shipping build applies the temperature feedforward.
pub const TEMP_FF_ENABLE: bool = true;

/// Locked output edges between two recalibrations of the counter offset.
pub const RECAL_EDGES: u32 = 150;

/// Marks an override that was not given, and a recalibration that never comes due.
pub const UNSET: u32 = 0xffff_ffff;

/// Integral denominator of the shipping loop.
pub const I_DEN_CALM: i64 = 512;

/// Derivative denominator of the shipping loop.
pub const D_DEN_TUNED: i64 = 16;

/// Calm band of the adaptive integral gain (ns).
pub const CALM_NS: i64 = 1_000;

/// Slow-down of the integral outside the calm band: none.
pub const DISTURBED_SHIFT: u32 = 0;

/// How many controllers a sweep goes through.
pub const CONTROLLER_LIST_LEN: usize = 3;

/// The order in which a sweep visits the controllers. Each comes up in every third of the
/// schedule, so that none is tied to one part of the run.
pub const SWEEP_SCHEDULE: [usize; 9] = [0, 1, 2, 1, 2, 0, 2, 0, 1];

/// Whether the edges run through PIO hardware at stage `s`.
pub open spec fn uses_pio(s: u8) -> bool {
    s >= 2
}

/// Whether the crystal estimate is applied to the output at stage `s`.
pub open spec fn applies_freq(s: u8) -> bool {
    s >= 1
}

/// Whether the phase loop is closed at stage `s`.
pub open spec fn closes_phase_loop(s: u8) -> bool {
    s >= 3
}

/// Whether the counter offset is recalibrated at stage `s`.
pub open spec fn recalibrates(s: u8) -> bool {
    s >= 4
}

/// Whether the temperature feedforward is applied at stage `s`.
pub open spec fn feeds_temperature(s: u8) -> bool {
    s >= 5
}

/// Locked edges between recalibrations at stage `s`, given an override or [`UNSET`].
pub open spec fn recal_edges(s: u8, override_edges: u32) -> u32 {
    if override_edges != UNSET {
        override_edges
    } else if recalibrates(s) {
        RECAL_EDGES
    } else {
        UNSET
    }
}

/// Whether the edges run through PIO hardware.
pub fn use_pio(s: u8) -> (b: bool)
    ensures
        b == uses_pio(s),
{
    s >= 2
}

/// Whether the crystal estimate is applied to the output.
pub fn apply_freq(s: u8) -> (b: bool)
    ensures
        b == applies_freq(s),
{
    s >= 1
}

/// Whether the phase loop is closed.
pub fn phase_servo(s: u8) -> (b: bool)
    ensures
        b == closes_phase_loop(s),
{
    s >= 3
}

/// Whether the counter offset is recalibrated.
pub fn recal_on(s: u8) -> (b: bool)
    ensures
        b == recalibrates(s),
{
    s >= 4
}

/// Whether the temperature feedforward is applied.
pub fn temp_ff(s: u8) -> (b: bool)
    ensures
        b == feeds_temperature(s),
{
    s >= 5
}

/// Locked edges between recalibrations: the override if there is one, else what the stage gives.
/// [`UNSET`] stands for never.
pub fn recal_eff(s: u8, override_edges: u32) -> (r: u32)
    ensures
        r == recal_edges(s, override_edges),
{
    if override_edges != UNSET {
        override_edges
    } else if recal_on(s) {
        RECAL_EDGES
    } else {
        UNSET
    }
}

/// What a build runs: the stage and the bench measurements that are switched on.
#[derive(Debug, Clone, Copy, PartialEq, Eq, Structural)]
pub struct BuildConfig {
    /// Stage on the precision ladder.
    pub stage: u8,
    /// Recalibration cadence to use instead of the stage's, or [`UNSET`].
    pub recal_edges_override: u32,
    /// Steer by the hardware phase; otherwise by the software one.
    pub phase_use_hw: bool,
    /// Go through the controllers within one run.
    pub controller_sweep: bool,
    /// Inject a pseudo-random phase disturbance while locked.
    pub prbs_inject: bool,
    /// Inject a phase step now and then while locked.
    pub kick_inject: bool,
    /// Alternate between closed-loop and open-loop windows.
    pub intermittent: bool,
    /// Keep the learned trim through an open window.
    pub hold_trim: bool,
    /// Measure the counter offset without applying it.
    pub shadow_recal: bool,
    /// Point the observing counter at the reference now and then.
    pub shadow3: bool,
    /// Let the observing counter watch the output rather than the reference.
    pub c3_watch_output: bool,
    /// Alternate the temperature feedforward.
    pub temp_ff_abab: bool,
    /// Frequency bias to inject behind the loop's back (milli-ppb), or 0.
    pub inject_freq_mppb: i64,
}

impl BuildConfig {
    /// Whether a build may be made this way: the stage exists, a shipping build carries no
    /// override, a build on a lower stage runs no controller measurement, and the counter shadow
    /// needs its counter on the output.
    pub open spec fn admissible(self) -> bool {
        &&& self.stage <= 5
        &&& self.stage != 5 || self.recal_edges_override == UNSET
        &&& self.stage == 5 || !(self.controller_sweep || self.prbs_inject || self.kick_inject
            || self.intermittent)
        &&& !self.shadow3 || self.c3_watch_output
    }

    /// What ships.
    pub fn production() -> (r: Self)
        ensures
            r.admissible(),
            r.stage == PRECISION_STAGE,
            r.recal_edges_override == UNSET,
            r.phase_use_hw,
            !r.controller_sweep,
            !r.prbs_inject,
            !r.kick_inject,
            !r.intermittent,
            r.hold_trim,
            !r.shadow_recal,
            !r.shadow3,
            !r.c3_watch_output,
            !r.temp_ff_abab,
            r.inject_freq_mppb == 0,
    {
        BuildConfig {
            stage: PRECISION_STAGE,
            recal_edges_override: UNSET,
            phase_use_hw: true,
            controller_sweep: false,
            prbs_inject: false,
            kick_inject: false,
            intermittent: false,
            hold_trim: true,
            shadow_recal: false,
            shadow3: false,
            c3_watch_output: false,
            temp_ff_abab: false,
            inject_freq_mppb: 0,
        }
    }

    /// Whether a build may be made this way.
    pub fn is_admissible(&self) -> (b: bool)
        ensures
            b == self.admissible(),
    {
        self.stage <= 5 && (self.stage != 5 || self.recal_edges_override == UNSET) && (self.stage
            == 5 || !(self.controller_sweep || self.prbs_inject || self.kick_inject
            || self.intermittent)) && (!self.shadow3 || self.c3_watch_output)
    }

    /// The name of the output path, for the boot log.
    pub fn controller_name(&self) -> (r: &'static str)
        ensures
            r@ == (if !uses_pio(self.stage) {
                "naive"@
            } else if closes_phase_loop(self.stage) {
                "pll"@
            } else {
                "open_loop"@
            }),
    {
        if !use_pio(self.stage) {
            "naive"
        } else if phase_servo(self.stage) {
            "pll"
        } else {
            "open_loop"
        }
    }

    /// The controller measurements that are on, one bit each, for the boot log.
    pub fn measurement_flags(&self) -> (r: u8)
        ensures
            r == (if self.controller_sweep { 1int } else { 0 }) + (if self.prbs_inject {
                2int
            } else {
                0
            }) + (if self.kick_inject { 4int } else { 0 }) + (if self.intermittent { 8int } else { 0
            }),
    {
        let sweep: u8 = if self.controller_sweep { 1 } else { 0 };
        let prbs: u8 = if self.prbs_inject { 2 } else { 0 };
        let kick: u8 = if self.kick_inject { 4 } else { 0 };
        let windows: u8 = if self.intermittent { 8 } else { 0 };
        sweep + prbs + kick + windows
    }
}

/// The tuning of one controller of the sweep, as it takes effect.
#[derive(Debug, Clone, Copy, PartialEq, Eq, Structural)]
pub struct GridPoint {
    /// Integral denominator.
    pub i_den: i64,
    /// Derivative denominator.
    pub d_den: i64,
    /// Inverse proportional gain in effect.
    pub kp_inv: i64,
    /// Corrections regarded as in flight.
    pub smith_edges: u32,
}

/// The sweep's controllers: the shipping bandwidth and two narrower ones, all with the same ratio
/// of integral to derivative and the same damping. The index wraps.
pub open spec fn grid(idx: int) -> GridPoint {
    if idx % 3 == 0 {
        GridPoint { i_den: I_DEN_CALM, d_den: D_DEN_TUNED, kp_inv: 8, smith_edges: 1 }
    } else if idx % 3 == 1 {
        GridPoint { i_den: 1024, d_den: 32, kp_inv: 8, smith_edges: 1 }
    } else {
        GridPoint { i_den: 2048, d_den: 64, kp_inv: 8, smith_edges: 1 }
    }
}

/// The tuning of the controller `idx` of the sweep.
pub fn ctrl_grid(idx: usize) -> (r: GridPoint)
    ensures
        r == grid(idx as int),
{
    let i: usize = idx % CONTROLLER_LIST_LEN;
    if i == 0 {
        GridPoint { i_den: I_DEN_CALM, d_den: D_DEN_TUNED, kp_inv: 8, smith_edges: 1 }
    } else if i == 1 {
        GridPoint { i_den: 1024, d_den: 32, kp_inv: 8, smith_edges: 1 }
    } else {
        GridPoint { i_den: 2048, d_den: 64, kp_inv: 8, smith_edges: 1 }
    }
}

/// The default loop tuning with another bandwidth and damping, and no adaptation of the integral.
pub open spec fn tuned(i_den: i64, d_den: i64, kp_inv: i64, smith_edges: u32) -> PhaseLockLoopConfig {
    PhaseLockLoopConfig {
        mode: LoopMode::PidSmith,
        deadband_ns: 0,
        lock_ns: 1_000,
        lock_hold: 5,
        i_enable_ns: 5_000,
        outlier_ns: 3_000,
        outlier_max: 12,
        i_den,
        trim_max_mppb: 3_000_000,
        d_den,
        calm_ns: CALM_NS,
        i_den_disturbed_shift: DISTURBED_SHIFT,
        kp_inv,
        smith_edges,
    }
}

/// The default loop tuning with another bandwidth and damping, and no adaptation of the integral.
pub fn exp_cfg(i_den: i64, d_den: i64, kp_inv: i64, smith_edges: u32) -> (c: PhaseLockLoopConfig)
    ensures
        c == tuned(i_den, d_den, kp_inv, smith_edges),
{
    PhaseLockLoopConfig {
        i_den,
        calm_ns: CALM_NS,
        i_den_disturbed_shift: DISTURBED_SHIFT,
        d_den,
        kp_inv,
        smith_edges,
        ..PhaseLockLoopConfig::default()
    }
}

/// The state of the fresh loop `idx` of the sweep. The proportional gain is left to the mode.
pub open spec fn grid_loop(idx: int) -> PllState {
    let g = grid(idx);
    PllState::fresh(tuned(g.i_den, g.d_den, 0, g.smith_edges))
}

/// Makes the controller `idx` of the sweep.
pub fn make_controller(idx: usize) -> (c: Controller)
    ensures
        c matches Controller::Pll(pll) && pll@ == grid_loop(idx as int) && pll@.sane(),
{
    let g = ctrl_grid(idx);
    Controller::Pll(PhaseLockLoop::with_config(exp_cfg(g.i_den, g.d_den, 0, g.smith_edges)))
}

/// Makes the controller that a stage starts with: the first of the sweep where the phase loop is
/// closed, else the open-loop feedforward.
pub fn initial_controller(stage: u8) -> (c: Controller)
    ensures
        closes_phase_loop(stage) ==> (c matches Controller::Pll(pll) && pll@ == grid_loop(0)
            && pll@.sane()),
        !closes_phase_loop(stage) ==> (c matches Controller::OpenLoop(o) && o@ == 0),
{
    if phase_servo(stage) {
        make_controller(SWEEP_SCHEDULE[0])
    } else {
        Controller::OpenLoop(OpenLoopFf::new())
    }
}

/// A stage runs everything that the stages below it run.
pub proof fn law_ladder_only_adds(lower: u8, higher: u8)
    requires
        lower <= higher,
    ensures
        uses_pio(lower) ==> uses_pio(higher),
        applies_freq(lower) ==> applies_freq(higher),
        closes_phase_loop(lower) ==> closes_phase_loop(higher),
        recalibrates(lower) ==> recalibrates(higher),
        feeds_temperature(lower) ==> feeds_temperature(higher),
        recal_edges(higher, UNSET) <= recal_edges(lower, UNSET),
{
}

/// An admissible build on the last stage runs everything, at the shipping cadence.
pub proof fn law_last_stage_is_production(cfg: BuildConfig)
    requires
        cfg.admissible(),
        cfg.stage == PRECISION_STAGE,
    ensures
        uses_pio(cfg.stage),
        applies_freq(cfg.stage),
        closes_phase_loop(cfg.stage),
        recalibrates(cfg.stage),
        feeds_temperature(cfg.stage) == TEMP_FF_ENABLE,
        recal_edges(cfg.stage, cfg.recal_edges_override) == RECAL_EDGES,
{
}

/// The controllers of the sweep differ in bandwidth alone: the ratio of the integral denominator to
/// the derivative one, the gain in effect and the loop delay are the same for all.
pub proof fn law_sweep_varies_only_the_bandwidth(a: int, b: int)
    ensures
        grid(a).i_den == 32 * grid(a).d_den,
        grid(a).kp_inv == grid(b).kp_inv,
        grid(a).smith_edges == grid(b).smith_edges,
        grid_loop(a).config.gain_inv() == grid(a).kp_inv,
        grid_loop(a).sane(),
{
    let g = grid(a);
    assert(grid_loop(a).in_flight =~= Seq::empty());
}

/// Every controller comes up in each third of the schedule.
pub proof fn law_schedule_visits_all(third: int, idx: int)
    requires
        0 <= third < 3,
        0 <= idx < 3,
    ensures
        exists|i: int| 3 * third <= i < 3 * third + 3 && #[trigger] SWEEP_SCHEDULE@[i] == idx,
{
    assert(SWEEP_SCHEDULE@ =~= seq![0usize, 1, 2, 1, 2, 0, 2, 0, 1]);
    let i: int = if third == 0 {
        idx
    } else if third == 1 {
        3 + (idx + 2) % 3
    } else {
        6 + (idx + 1) % 3
    };
    assert(SWEEP_SCHEDULE@[i] == idx);
}

/// What each stage adds: the crystal estimate first, then hardware edges, the phase loop, the
/// recalibration every 150 locked edges, and the temperature feedforward. An override of the cadence
/// stands in its place.
pub proof fn law_each_stage_adds_one_thing(s: u8, given: u32)
    requires
        given != 0xffff_ffff,
    ensures
        applies_freq(s) <==> s >= 1,
        uses_pio(s) <==> s >= 2,
        closes_phase_loop(s) <==> s >= 3,
        recalibrates(s) <==> s >= 4,
        feeds_temperature(s) <==> s >= 5,
        recal_edges(s, given) == given,
        s >= 4 ==> recal_edges(s, 0xffff_ffff) == 150,
        s < 4 ==> recal_edges(s, 0xffff_ffff) == 0xffff_ffff,
{
}

/// The bandwidths of the sweep: the shipping one, half of it and a quarter of it, in a cycle of
/// three; each loop starts blank, with all control terms on.
pub proof fn law_sweep_halves_the_bandwidth(idx: int)
    requires
        idx >= 0,
    ensures
        ({
            let l = grid_loop(idx);
            let c = l.config;
            &&& idx % 3 == 0 ==> c.i_den == 512 && c.d_den == 16
            &&& idx % 3 == 1 ==> c.i_den == 1024 && c.d_den == 32
            &&& idx % 3 == 2 ==> c.i_den == 2048 && c.d_den == 64
            &&& c.mode is PidSmith
            &&& c.smith_edges == 1 && c.kp_inv == 0 && c.deadband_ns == 0
            &&& c.lock_ns == 1_000 && c.lock_hold == 5
            &&& c.i_enable_ns == 5_000 && c.trim_max_mppb == 3_000_000
            &&& c.outlier_ns == 3_000 && c.outlier_max == 12
            &&& c.calm_ns == 1_000 && c.i_den_disturbed_shift == 0
            &&& l.trim == 0 && l.lock_cnt == 0 && l.in_flight.len() == 0
        }),
{
}

/// A build is refused for a stage that does not exist, an override on the shipping stage, a
/// controller measurement on a lower one, or a counter shadow without its counter; and for nothing
/// else.
pub proof fn law_builds_are_refused_for_cause(cfg: BuildConfig)
    ensures
        !cfg.admissible() <==> cfg.stage > 5 || (cfg.stage == 5 && cfg.recal_edges_override
            != 0xffff_ffff) || (cfg.stage < 5 && (cfg.controller_sweep || cfg.prbs_inject
            || cfg.kick_inject || cfg.intermittent)) || (cfg.shadow3 && !cfg.c3_watch_output),
{
}

} // verus!
