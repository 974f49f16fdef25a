//! Alternative [`PhaseController`] strategies, so that output-phase methods can be selected and
//! compared under matched conditions.
//!
//! - [`OpenLoopFf`]: the loopback-less configuration. It emits no phase correction and only holds
//!   a residual trim.
//! - [`AlphaBetaBoost`]: a fixed-gain alpha-beta phase observer with a gentle correction gain in
//!   steady state; a hysteresis state machine raises the gains only on a genuine transient, never
//!   on steady wander.
//! - [`IntegralRework`]: the flag-free continuous integrator (no I-enable gate; the integral's
//!   input is clamped and actuator saturation is bled back).
//!
//! The naive (non-Smith) P/PD/PI/PID family is [`PhaseLockLoop`] under another
//! [`LoopMode`](crate::pll::LoopMode).

use vstd::prelude::*;
use crate::arith::{abs_i64, clamp_sym};
use crate::control::{ControlDebug, ControlInit, ControlInput, ControlOutput, PhaseController};
use crate::pll::{PhaseLockLoop, CORR_CLAMP_NS};

verus! {

use crate::arith::{
    bounded, in_i64, is_quotient, larger, lemma_tdiv_bounds, lemma_tdiv_in_i64, magnitude, smaller, tdiv,
};

/// Open-loop feedforward: **no phase servo**. Without the hardware loopback there is no honest
/// output phase to close, so the output rides the crystal feedforward.
///
/// It always emits a zero correction and holds the residual trim it was seeded with (0 by
/// default). It never claims lock; the phase error is recorded for telemetry only.
#[derive(Debug)]
pub struct OpenLoopFf {
    residual_trim_mppb: i64,
}

impl View for OpenLoopFf {
    type V = int;

    /// The residual trim (milli-ppb).
    closed spec fn view(&self) -> int {
        self.residual_trim_mppb as int
    }
}

impl OpenLoopFf {
    /// Creates an open-loop controller (rides the external feedforward only).
    pub fn new() -> (r: Self)
        ensures
            r@ == 0,
    {
        OpenLoopFf { residual_trim_mppb: 0 }
    }
}

impl Default for OpenLoopFf {
    fn default() -> (r: Self)
        ensures
            r@ == 0,
    {
        OpenLoopFf::new()
    }
}

impl PhaseController for OpenLoopFf {
    open spec fn locked(&self) -> bool {
        false
    }

    open spec fn step_defined(&self, input: ControlInput) -> bool {
        true
    }

    open spec fn steps_to(&self, input: ControlInput, out: ControlOutput, after: &Self) -> bool {
        &&& after@ == self@
        &&& out.trim_mppb == self@
        &&& out.pcorr_ns == 0
        &&& out.applied == input.valid
        &&& !out.locked
        &&& !out.rejected
        &&& out.dbg.pred_ns == input.err_ns
        &&& out.dbg.p_ns == 0
        &&& out.dbg.d_ns == 0
        &&& out.dbg.observer_freq_mppb == self@
        &&& out.dbg.state == 0
    }

    open spec fn segment_defined(&self, init: ControlInit) -> bool {
        true
    }

    open spec fn restarts_to(&self, init: ControlInit, after: &Self) -> bool {
        after@ == init.residual_trim_mppb
    }

    fn step(&mut self, input: ControlInput) -> (out: ControlOutput) {
        ControlOutput {
            trim_mppb: self.residual_trim_mppb,
            pcorr_ns: 0,
            applied: input.valid,
            locked: false,
            rejected: false,
            dbg: ControlDebug {
                pred_ns: input.err_ns,
                observer_freq_mppb: self.residual_trim_mppb,
                ..ControlDebug::default()
            },
        }
    }

    fn is_locked(&self) -> (b: bool) {
        false
    }

    fn start_segment(&mut self, init: ControlInit) {
        self.residual_trim_mppb = init.residual_trim_mppb;
    }
}

/// Tuning for [`AlphaBetaBoost`]. Gains are inverse (a gain of `1/x` is stored as `x`); a gain
/// below 1 counts as 1.
#[derive(Debug, Clone, Copy)]
pub struct AlphaBetaBoostConfig {
    /// Steady observer gain on the phase (inverse).
    pub steady_alpha_inv: i64,
    /// Steady observer gain on the drift (inverse).
    pub steady_beta_inv: i64,
    /// Steady phase-correction gain (inverse).
    pub steady_pgain_inv: i64,
    /// Boost observer gain on the phase (inverse).
    pub fast_alpha_inv: i64,
    /// Boost observer gain on the drift (inverse).
    pub fast_beta_inv: i64,
    /// Boost phase-correction gain (inverse).
    pub fast_pgain_inv: i64,
    /// Innovation magnitude (ns) beyond which boost is entered.
    pub innov_enter_ns: i64,
    /// Max edges to hold boost before forcing back to steady.
    pub boost_max_edges: u32,
    /// Exit boost once the error stays within this (ns) for `exit_hold` edges.
    pub exit_lock_ns: i64,
    /// Consecutive in-window edges that end boost.
    pub exit_hold: u32,
    /// Lock window (ns).
    pub lock_ns: i64,
    /// Consecutive in-window edges to declare lock.
    pub lock_hold: u32,
    /// Post-lock single-sample outlier threshold (ns).
    pub outlier_ns: i64,
    /// How many outliers to hold before accepting one as a real disturbance.
    pub outlier_max: u32,
    /// Clamp on the integrated frequency trim (milli-ppb).
    pub trim_max_mppb: i64,
}

impl AlphaBetaBoostConfig {
    /// The default tuning.
    pub open spec fn is_default(self) -> bool {
        &&& self.steady_alpha_inv == 4
        &&& self.steady_beta_inv == 64
        &&& self.steady_pgain_inv == 8
        &&& self.fast_alpha_inv == 2
        &&& self.fast_beta_inv == 8
        &&& self.fast_pgain_inv == 3
        &&& self.innov_enter_ns == 3_000
        &&& self.boost_max_edges == 40
        &&& self.exit_lock_ns == 1_000
        &&& self.exit_hold == 5
        &&& self.lock_ns == 1_000
        &&& self.lock_hold == 5
        &&& self.outlier_ns == 3_000
        &&& self.outlier_max == 12
        &&& self.trim_max_mppb == 3_000_000
    }
}

impl Default for AlphaBetaBoostConfig {
    fn default() -> (r: Self)
        ensures
            r.is_default(),
    {
        AlphaBetaBoostConfig {
            steady_alpha_inv: 4,
            steady_beta_inv: 64,
            steady_pgain_inv: 8,
            fast_alpha_inv: 2,
            fast_beta_inv: 8,
            fast_pgain_inv: 3,
            innov_enter_ns: 3_000,
            boost_max_edges: 40,
            exit_lock_ns: 1_000,
            exit_hold: 5,
            lock_ns: 1_000,
            lock_hold: 5,
            outlier_ns: 3_000,
            outlier_max: 12,
            trim_max_mppb: 3_000_000,
        }
    }
}

/// The mathematical state of an [`AlphaBetaBoost`].
pub struct BoostState {
    /// The tuning.
    pub cfg: AlphaBetaBoostConfig,
    /// Estimated output phase error (ns).
    pub phase: int,
    /// Estimated uncorrected drift rate (milli-ppb); the trim cancels it.
    pub drift: int,
    /// Trim of the last applied edge (milli-ppb).
    pub last_trim: int,
    /// Phase correction of the last applied edge (ns).
    pub last_pcorr: int,
    /// Whether the fast gains are in force.
    pub boosting: bool,
    /// Edges since boost was entered.
    pub boost_edges: int,
    /// Consecutive in-window edges since boost was entered.
    pub exit_cnt: int,
    /// Consecutive in-window edges seen, up to `lock_hold`.
    pub lock_cnt: int,
    /// Consecutive outliers held.
    pub reject_cnt: int,
}

impl BoostState {
    /// What holds of every controller: the drift can be negated, and a boost that is on has not
    /// yet seen the in-window edges that end it.
    pub open spec fn wf(self) -> bool {
        &&& self.drift != i64::MIN
        &&& self.boosting ==> self.exit_cnt == 0 || self.exit_cnt < self.cfg.exit_hold
    }

    /// The state of a controller that has seen no edge.
    pub open spec fn fresh(cfg: AlphaBetaBoostConfig) -> BoostState {
        BoostState {
            cfg,
            phase: 0,
            drift: 0,
            last_trim: 0,
            last_pcorr: 0,
            boosting: false,
            boost_edges: 0,
            exit_cnt: 0,
            lock_cnt: 0,
            reject_cnt: 0,
        }
    }

    /// Whether the controller is locked.
    pub open spec fn locked(self) -> bool {
        self.lock_cnt >= self.cfg.lock_hold
    }

    /// The residual trim: the drift negated, within its clamp.
    pub open spec fn trim(self) -> int {
        bounded(-self.drift, self.cfg.trim_max_mppb as int)
    }

    /// The phase expected at the next edge: the estimate, moved by the drift that the last trim
    /// left and by the last correction.
    pub open spec fn expected_phase(self) -> int {
        self.phase + tdiv(self.drift + self.last_trim, 1000) - self.last_pcorr
    }

    /// How far a measured phase is from the expected one.
    pub open spec fn innovation(self, err: int) -> int {
        err - self.expected_phase()
    }

    /// Whether a valid edge is held as a post-lock spike.
    pub open spec fn spike(self, err: int) -> bool {
        &&& self.locked()
        &&& magnitude(err) > self.cfg.outlier_ns
        &&& self.reject_cnt < self.cfg.outlier_max
    }

    /// Whether an applied edge ends a full run of rejects and is itself out of the lock window.
    pub open spec fn accepts_disturbance(self, err: int) -> bool {
        self.reject_cnt >= self.cfg.outlier_max && magnitude(err) >= self.cfg.lock_ns
    }

    /// Edges since boost was entered, one later.
    pub open spec fn boost_edges_plus_one(self) -> int {
        smaller(self.boost_edges + 1, u32::MAX as int)
    }

    /// The state after an edge that is not applied: the observer is frozen and only the boost
    /// backstop goes on.
    pub open spec fn held(self) -> BoostState {
        if self.boosting {
            BoostState {
                boost_edges: self.boost_edges_plus_one(),
                boosting: self.boost_edges_plus_one() < self.cfg.boost_max_edges,
                ..self
            }
        } else {
            self
        }
    }

    /// In-window edges since boost was entered, after an applied edge during boost.
    pub open spec fn next_exit_cnt(self, err: int) -> int {
        if magnitude(err) < self.cfg.exit_lock_ns {
            self.exit_cnt + 1
        } else {
            0
        }
    }

    /// Whether the fast gains are in force at an applied edge. Boost is entered on a large
    /// innovation or an accepted disturbance, and left when the error has stayed in its window
    /// or the backstop expires.
    pub open spec fn next_boosting(self, err: int) -> bool {
        if self.boosting {
            &&& self.next_exit_cnt(err) < self.cfg.exit_hold
            &&& self.boost_edges_plus_one() < self.cfg.boost_max_edges
        } else {
            ||| magnitude(self.innovation(err)) > self.cfg.innov_enter_ns
            ||| self.accepts_disturbance(err)
        }
    }

    /// The state once an applied edge has been taken into the boost hysteresis.
    pub open spec fn regime(self, err: int) -> BoostState {
        BoostState {
            reject_cnt: 0,
            boosting: self.next_boosting(err),
            boost_edges: if self.boosting {
                self.boost_edges_plus_one()
            } else if self.next_boosting(err) {
                0
            } else {
                self.boost_edges
            },
            exit_cnt: if self.boosting {
                self.next_exit_cnt(err)
            } else if self.next_boosting(err) {
                0
            } else {
                self.exit_cnt
            },
            ..self
        }
    }

    /// The inverse phase gain at an applied edge.
    pub open spec fn alpha_inv(self, err: int) -> int {
        larger(
            if self.next_boosting(err) {
                self.cfg.fast_alpha_inv as int
            } else {
                self.cfg.steady_alpha_inv as int
            },
            1,
        )
    }

    /// The inverse drift gain at an applied edge.
    pub open spec fn beta_inv(self, err: int) -> int {
        larger(
            if self.next_boosting(err) {
                self.cfg.fast_beta_inv as int
            } else {
                self.cfg.steady_beta_inv as int
            },
            1,
        )
    }

    /// The inverse correction gain at an applied edge.
    pub open spec fn pgain_inv(self, err: int) -> int {
        larger(
            if self.next_boosting(err) {
                self.cfg.fast_pgain_inv as int
            } else {
                self.cfg.steady_pgain_inv as int
            },
            1,
        )
    }

    /// The phase estimate after an applied edge.
    pub open spec fn next_phase(self, err: int) -> int {
        self.expected_phase() + tdiv(self.innovation(err), self.alpha_inv(err))
    }

    /// The drift estimate after an applied edge.
    pub open spec fn next_drift(self, err: int) -> int {
        bounded(
            self.drift + tdiv(self.innovation(err) * 1000, self.beta_inv(err)),
            self.cfg.trim_max_mppb as int,
        )
    }

    /// The phase correction of an applied edge.
    pub open spec fn next_pcorr(self, err: int) -> int {
        bounded(tdiv(self.next_phase(err), self.pgain_inv(err)), CORR_CLAMP_NS as int)
    }

    /// The state after an edge.
    pub open spec fn next(self, err: int, valid: bool) -> BoostState {
        if !valid {
            self.held()
        } else if self.spike(err) {
            BoostState { reject_cnt: self.reject_cnt + 1, ..self.held() }
        } else {
            BoostState {
                cfg: self.cfg,
                phase: self.next_phase(err),
                drift: self.next_drift(err),
                last_trim: bounded(-self.next_drift(err), self.cfg.trim_max_mppb as int),
                last_pcorr: self.next_pcorr(err),
                boosting: self.next_boosting(err),
                boost_edges: self.regime(err).boost_edges,
                exit_cnt: self.regime(err).exit_cnt,
                lock_cnt: if magnitude(err) < self.cfg.lock_ns {
                    smaller(self.lock_cnt + 1, self.cfg.lock_hold as int)
                } else {
                    0
                },
                reject_cnt: 0,
            }
        }
    }

    /// What an edge reports.
    pub open spec fn reports(self, err: int, valid: bool, out: ControlOutput) -> bool {
        let after = self.next(err, valid);
        let applied = valid && !self.spike(err);
        &&& out.applied == applied
        &&& out.locked == self.locked()
        &&& out.rejected == (valid && self.spike(err))
        &&& out.trim_mppb == after.trim()
        &&& out.pcorr_ns == (if applied { self.next_pcorr(err) } else { 0 })
        &&& out.dbg.pred_ns == (if valid { self.expected_phase() } else { self.phase })
        &&& out.dbg.p_ns == out.pcorr_ns
        &&& out.dbg.d_ns == 0
        &&& out.dbg.observer_freq_mppb == after.drift
        &&& out.dbg.state == (if after.boosting { 1int } else { 0 })
    }

    /// Whether every intermediate value of an edge's arithmetic is representable.
    pub open spec fn defined(self, err: int, valid: bool) -> bool {
        &&& self.wf()
        &&& self.cfg.trim_max_mppb >= 0
        &&& valid ==> {
            &&& in_i64(self.drift + self.last_trim)
            &&& in_i64(self.phase + tdiv(self.drift + self.last_trim, 1000))
            &&& in_i64(self.expected_phase())
            &&& in_i64(self.innovation(err))
            &&& err != i64::MIN
        }
        &&& valid && !self.spike(err) ==> {
            &&& !self.boosting ==> self.innovation(err) != i64::MIN
            &&& in_i64(self.innovation(err) * 1000)
            &&& in_i64(self.drift + tdiv(self.innovation(err) * 1000, self.beta_inv(err)))
            &&& in_i64(self.next_phase(err))
            &&& magnitude(err) < self.cfg.lock_ns ==> self.lock_cnt < u32::MAX
        }
    }

    /// A state from which every edge of up to 10^15 ns is defined, for ever (see
    /// [`law_sane_boost_never_overflows`]): the trim has cancelled the drift, and the last
    /// correction is a part of the phase estimate.
    pub open spec fn sane(self) -> bool {
        &&& self.wf()
        &&& 0 <= self.cfg.trim_max_mppb <= 1_000_000_000_000_000
        &&& self.cfg.lock_hold < u32::MAX
        &&& 0 <= self.lock_cnt <= self.cfg.lock_hold
        &&& 0 <= self.boost_edges
        &&& 0 <= self.exit_cnt
        &&& magnitude(self.phase) <= 1_000_000_000_000_000
        &&& magnitude(self.drift) <= 1_000_000_000_000_000
        &&& self.last_trim == -self.drift
        &&& self.phase >= 0 ==> 0 <= self.last_pcorr <= self.phase
        &&& self.phase <= 0 ==> self.phase <= self.last_pcorr <= 0
    }

    /// The state with which a fresh segment starts.
    pub open spec fn restarted(self, seed: int) -> BoostState {
        BoostState { drift: -seed, last_trim: seed, ..BoostState::fresh(self.cfg) }
    }
}

/// Fixed-gain alpha-beta output-phase observer with a residual-triggered transient boost.
/// Telemetry `state`: 0 = steady, 1 = boosting.
#[derive(Debug)]
pub struct AlphaBetaBoost {
    cfg: AlphaBetaBoostConfig,
    phase_hat: i64,
    drift_hat_mppb: i64,
    last_trim_mppb: i64,
    last_pcorr_ns: i64,
    boosting: bool,
    boost_edges: u32,
    exit_cnt: u32,
    lock_cnt: u32,
    reject_cnt: u32,
}

impl View for AlphaBetaBoost {
    type V = BoostState;

    closed spec fn view(&self) -> BoostState {
        BoostState {
            cfg: self.cfg,
            phase: self.phase_hat as int,
            drift: self.drift_hat_mppb as int,
            last_trim: self.last_trim_mppb as int,
            last_pcorr: self.last_pcorr_ns as int,
            boosting: self.boosting,
            boost_edges: self.boost_edges as int,
            exit_cnt: self.exit_cnt as int,
            lock_cnt: self.lock_cnt as int,
            reject_cnt: self.reject_cnt as int,
        }
    }
}

impl Default for AlphaBetaBoost {
    fn default() -> (r: Self)
        ensures
            r@ == BoostState::fresh(r@.cfg),
            r@.cfg.is_default(),
            r@.sane(),
    {
        AlphaBetaBoost::new()
    }
}

impl AlphaBetaBoost {
    /// Creates a controller with the default tuning.
    pub fn new() -> (r: Self)
        ensures
            r@ == BoostState::fresh(r@.cfg),
            r@.cfg.is_default(),
            r@.sane(),
    {
        AlphaBetaBoost::with_config(AlphaBetaBoostConfig::default())
    }

    /// Creates a controller with a given tuning.
    pub fn with_config(cfg: AlphaBetaBoostConfig) -> (r: Self)
        ensures
            r@ == BoostState::fresh(cfg),
    {
        AlphaBetaBoost {
            cfg,
            phase_hat: 0,
            drift_hat_mppb: 0,
            last_trim_mppb: 0,
            last_pcorr_ns: 0,
            boosting: false,
            boost_edges: 0,
            exit_cnt: 0,
            lock_cnt: 0,
            reject_cnt: 0,
        }
    }

    /// Current configuration.
    pub fn config(&self) -> (r: &AlphaBetaBoostConfig)
        ensures
            *r == self@.cfg,
    {
        &self.cfg
    }

    /// Current residual frequency trim (milli-ppb): the drift estimate negated, within its clamp.
    pub fn freq_trim_mppb(&self) -> (r: i64)
        requires
            self@.wf(),
            self@.cfg.trim_max_mppb >= 0,
        ensures
            r == self@.trim(),
    {
        clamp_sym(-self.drift_hat_mppb, self.cfg.trim_max_mppb)
    }

    /// Moves the boost backstop forward and drops out of boost once it expires. This runs on every
    /// edge that is not applied too, so that a periodic outlier cannot latch the boost on.
    fn tick_boost_backstop(&mut self)
        ensures
            final(self)@ == old(self)@.held(),
    {
        if self.boosting {
            self.boost_edges = self.boost_edges.saturating_add(1);
            if self.boost_edges >= self.cfg.boost_max_edges {
                self.boosting = false;
            }
        }
    }

    /// Takes an applied edge into the boost hysteresis. Boost is entered only on a genuine
    /// surprise, never on raw phase, so that steady wander cannot flap the fast gains.
    fn follow_regime(&mut self, z: i64, innov: i64)
        requires
            old(self)@.wf(),
            innov == old(self)@.innovation(z as int),
            z != i64::MIN,
            !old(self)@.boosting ==> innov != i64::MIN,
        ensures
            final(self)@ == old(self)@.regime(z as int),
    {
        let accepted_disturbance = self.reject_cnt >= self.cfg.outlier_max && abs_i64(z)
            >= self.cfg.lock_ns;
        self.reject_cnt = 0;
        if !self.boosting {
            if abs_i64(innov) > self.cfg.innov_enter_ns || accepted_disturbance {
                self.boosting = true;
                self.boost_edges = 0;
                self.exit_cnt = 0;
            }
        } else {
            self.boost_edges = self.boost_edges.saturating_add(1);
            if abs_i64(z) < self.cfg.exit_lock_ns {
                self.exit_cnt = self.exit_cnt + 1;
            } else {
                self.exit_cnt = 0;
            }
            if self.exit_cnt >= self.cfg.exit_hold || self.boost_edges
                >= self.cfg.boost_max_edges {
                self.boosting = false;
            }
        }
    }

    /// The inverse gains of the current regime. A divisor below 1 would divide by zero or invert
    /// the feedback, so each is at least 1.
    fn gains(&self) -> (r: (i64, i64, i64))
        ensures
            self@.boosting ==> {
                &&& r.0 == larger(self@.cfg.fast_alpha_inv as int, 1)
                &&& r.1 == larger(self@.cfg.fast_beta_inv as int, 1)
                &&& r.2 == larger(self@.cfg.fast_pgain_inv as int, 1)
            },
            !self@.boosting ==> {
                &&& r.0 == larger(self@.cfg.steady_alpha_inv as int, 1)
                &&& r.1 == larger(self@.cfg.steady_beta_inv as int, 1)
                &&& r.2 == larger(self@.cfg.steady_pgain_inv as int, 1)
            },
    {
        if self.boosting {
            (
                self.cfg.fast_alpha_inv.max(1),
                self.cfg.fast_beta_inv.max(1),
                self.cfg.fast_pgain_inv.max(1),
            )
        } else {
            (
                self.cfg.steady_alpha_inv.max(1),
                self.cfg.steady_beta_inv.max(1),
                self.cfg.steady_pgain_inv.max(1),
            )
        }
    }

    /// The telemetry code of the boost state.
    fn state_code(&self) -> (r: u8)
        ensures
            r == (if self@.boosting { 1int } else { 0 }),
    {
        if self.boosting {
            1
        } else {
            0
        }
    }
}

impl PhaseController for AlphaBetaBoost {
    open spec fn locked(&self) -> bool {
        self@.locked()
    }

    open spec fn step_defined(&self, input: ControlInput) -> bool {
        self@.defined(input.err_ns as int, input.valid)
    }

    open spec fn steps_to(&self, input: ControlInput, out: ControlOutput, after: &Self) -> bool {
        &&& after@ == self@.next(input.err_ns as int, input.valid)
        &&& after@.wf()
        &&& self@.reports(input.err_ns as int, input.valid, out)
    }

    open spec fn segment_defined(&self, init: ControlInit) -> bool {
        init.residual_trim_mppb != i64::MIN
    }

    open spec fn restarts_to(&self, init: ControlInit, after: &Self) -> bool {
        &&& after@ == self@.restarted(init.residual_trim_mppb as int)
        &&& after@.wf()
    }

    fn step(&mut self, input: ControlInput) -> (out: ControlOutput) {
        let ghost s = self@;
        let z: i64 = input.err_ns;
        let locked = self.lock_cnt >= self.cfg.lock_hold;
        let held_trim: i64 = clamp_sym(-self.drift_hat_mppb, self.cfg.trim_max_mppb);

        if !input.valid {
            self.tick_boost_backstop();
            return ControlOutput {
                trim_mppb: held_trim,
                pcorr_ns: 0,
                applied: false,
                locked,
                rejected: false,
                dbg: ControlDebug {
                    pred_ns: self.phase_hat,
                    observer_freq_mppb: self.drift_hat_mppb,
                    state: self.state_code(),
                    ..ControlDebug::default()
                },
            };
        }
        let phase_pred: i64 = self.phase_hat + (self.drift_hat_mppb + self.last_trim_mppb) / 1000
            - self.last_pcorr_ns;
        let innov: i64 = z - phase_pred;

        if locked && abs_i64(z) > self.cfg.outlier_ns && self.reject_cnt < self.cfg.outlier_max {
            self.reject_cnt = self.reject_cnt + 1;
            self.tick_boost_backstop();
            return ControlOutput {
                trim_mppb: held_trim,
                pcorr_ns: 0,
                applied: false,
                locked,
                rejected: true,
                dbg: ControlDebug {
                    pred_ns: phase_pred,
                    observer_freq_mppb: self.drift_hat_mppb,
                    state: self.state_code(),
                    ..ControlDebug::default()
                },
            };
        }
        assert(!s.spike(z as int));
        self.follow_regime(z, innov);
        let (alpha_inv, beta_inv, pgain_inv): (i64, i64, i64) = self.gains();
        assert(alpha_inv == s.alpha_inv(z as int));
        assert(beta_inv == s.beta_inv(z as int));
        assert(pgain_inv == s.pgain_inv(z as int));
        proof {
            lemma_tdiv_in_i64(innov as int, alpha_inv as int);
            lemma_tdiv_in_i64(innov * 1000, beta_inv as int);
            lemma_tdiv_in_i64(s.next_phase(z as int), pgain_inv as int);
        }
        self.phase_hat = phase_pred + innov / alpha_inv;
        self.drift_hat_mppb =
        clamp_sym(self.drift_hat_mppb + innov * 1000 / beta_inv, self.cfg.trim_max_mppb);

        let trim_mppb: i64 = clamp_sym(-self.drift_hat_mppb, self.cfg.trim_max_mppb);
        let pcorr_ns: i64 = clamp_sym(self.phase_hat / pgain_inv, CORR_CLAMP_NS);

        self.lock_cnt = if abs_i64(z) < self.cfg.lock_ns {
            (self.lock_cnt + 1).min(self.cfg.lock_hold)
        } else {
            0
        };
        self.last_trim_mppb = trim_mppb;
        self.last_pcorr_ns = pcorr_ns;

        ControlOutput {
            trim_mppb,
            pcorr_ns,
            applied: true,
            locked,
            rejected: false,
            dbg: ControlDebug {
                pred_ns: phase_pred,
                p_ns: pcorr_ns,
                d_ns: 0,
                observer_freq_mppb: self.drift_hat_mppb,
                state: self.state_code(),
            },
        }
    }

    fn is_locked(&self) -> (b: bool) {
        self.lock_cnt >= self.cfg.lock_hold
    }

    fn start_segment(&mut self, init: ControlInit) {
        self.drift_hat_mppb = -init.residual_trim_mppb;
        self.last_trim_mppb = init.residual_trim_mppb;
        self.phase_hat = 0;
        self.last_pcorr_ns = 0;
        self.boosting = false;
        self.boost_edges = 0;
        self.exit_cnt = 0;
        self.lock_cnt = 0;
        self.reject_cnt = 0;
    }
}

/// Tuning for [`IntegralRework`]: the production loop's P/D/Smith path with a continuous integral.
/// A denominator below 1 counts as 1.
#[derive(Debug, Clone, Copy)]
pub struct IntegralReworkConfig {
    /// Inverse proportional gain.
    pub kp_inv: i64,
    /// Derivative denominator.
    pub d_den: i64,
    /// Integral denominator (per-edge trim step = `-clamp(pred) * 1000 / i_den`).
    pub i_den: i64,
    /// Integral-input clamp (ns).
    pub e_i_ns: i64,
    /// Back-calculation gain (inverse): on trim saturation, `excess / kbc_inv` is bled back.
    pub kbc_inv: i64,
    /// Lock window (ns).
    pub lock_ns: i64,
    /// Consecutive in-window edges to declare lock.
    pub lock_hold: u32,
    /// Post-lock outlier threshold (ns).
    pub outlier_ns: i64,
    /// How many outliers to hold before accepting one.
    pub outlier_max: u32,
    /// Clamp on the frequency trim (milli-ppb).
    pub trim_max_mppb: i64,
}

impl IntegralReworkConfig {
    /// The default tuning.
    pub open spec fn is_default(self) -> bool {
        &&& self.kp_inv == 8
        &&& self.d_den == 4
        &&& self.i_den == 128
        &&& self.e_i_ns == 800
        &&& self.kbc_inv == 5
        &&& self.lock_ns == 1_000
        &&& self.lock_hold == 5
        &&& self.outlier_ns == 3_000
        &&& self.outlier_max == 12
        &&& self.trim_max_mppb == 3_000_000
    }
}

impl Default for IntegralReworkConfig {
    fn default() -> (r: Self)
        ensures
            r.is_default(),
    {
        IntegralReworkConfig {
            kp_inv: 8,
            d_den: 4,
            i_den: 128,
            e_i_ns: 800,
            kbc_inv: 5,
            lock_ns: 1_000,
            lock_hold: 5,
            outlier_ns: 3_000,
            outlier_max: 12,
            trim_max_mppb: 3_000_000,
        }
    }
}

/// The mathematical state of an [`IntegralRework`].
pub struct ReworkState {
    /// The tuning.
    pub cfg: IntegralReworkConfig,
    /// Integrated frequency trim (milli-ppb).
    pub trim: int,
    /// Consecutive in-window edges seen, up to `lock_hold`.
    pub lock_cnt: int,
    /// Consecutive outliers held.
    pub reject_cnt: int,
    /// Predicted phase of the last applied edge (ns).
    pub last_pred: int,
    /// Correction of the last applied edge (ns), still in flight.
    pub last_pd: int,
}

impl ReworkState {
    /// The state of a controller that has seen no edge.
    pub open spec fn fresh(cfg: IntegralReworkConfig) -> ReworkState {
        ReworkState { cfg, trim: 0, lock_cnt: 0, reject_cnt: 0, last_pred: 0, last_pd: 0 }
    }

    /// Whether the controller is locked.
    pub open spec fn locked(self) -> bool {
        self.lock_cnt >= self.cfg.lock_hold
    }

    /// The measured phase less the correction still in flight.
    pub open spec fn predicted(self, err: int) -> int {
        err - self.last_pd
    }

    /// Whether a valid edge is held as a post-lock spike.
    pub open spec fn spike(self, err: int) -> bool {
        &&& self.locked()
        &&& magnitude(err) > self.cfg.outlier_ns
        &&& self.reject_cnt < self.cfg.outlier_max
    }

    /// What one applied edge takes off the trim: the clamped predicted phase over the integral
    /// denominator.
    pub open spec fn integral_step(self, err: int) -> int {
        tdiv(
            bounded(self.predicted(err), self.cfg.e_i_ns as int) * 1000,
            larger(self.cfg.i_den as int, 1),
        )
    }

    /// The most that one applied edge takes off the trim.
    pub open spec fn largest_integral_step(self) -> int {
        (self.cfg.e_i_ns * 1000) / larger(self.cfg.i_den as int, 1)
    }

    /// The trim that an applied edge asks for.
    pub open spec fn wanted_trim(self, err: int) -> int {
        self.trim - self.integral_step(err)
    }

    /// The trim after an applied edge: the wanted one within its clamp, with a part of what was
    /// cut off bled back.
    pub open spec fn next_trim(self, err: int) -> int {
        let want = self.wanted_trim(err);
        let clamped = bounded(want, self.cfg.trim_max_mppb as int);
        clamped - tdiv(want - clamped, larger(self.cfg.kbc_inv as int, 1))
    }

    /// The proportional correction of an applied edge.
    pub open spec fn p_corr(self, err: int) -> int {
        bounded(tdiv(self.predicted(err), larger(self.cfg.kp_inv as int, 1)), CORR_CLAMP_NS as int)
    }

    /// The derivative correction of an applied edge: only a locked loop has one.
    pub open spec fn d_corr(self, err: int) -> int {
        if self.locked() {
            bounded(
                tdiv(self.predicted(err) - self.last_pred, larger(self.cfg.d_den as int, 1)),
                CORR_CLAMP_NS as int,
            )
        } else {
            0
        }
    }

    /// The state after an edge. An invalid edge leaves everything as it was; a spike is only
    /// counted.
    pub open spec fn next(self, err: int, valid: bool) -> ReworkState {
        if !valid {
            self
        } else if self.spike(err) {
            ReworkState { reject_cnt: self.reject_cnt + 1, ..self }
        } else {
            ReworkState {
                cfg: self.cfg,
                trim: self.next_trim(err),
                lock_cnt: if magnitude(err) < self.cfg.lock_ns {
                    smaller(self.lock_cnt + 1, self.cfg.lock_hold as int)
                } else {
                    0
                },
                reject_cnt: 0,
                last_pred: self.predicted(err),
                last_pd: self.p_corr(err) + self.d_corr(err),
            }
        }
    }

    /// What an edge reports.
    pub open spec fn reports(self, err: int, valid: bool, out: ControlOutput) -> bool {
        let applied = valid && !self.spike(err);
        &&& out.applied == applied
        &&& out.locked == self.locked()
        &&& out.rejected == (valid && self.spike(err))
        &&& out.trim_mppb == self.next(err, valid).trim
        &&& out.pcorr_ns == out.dbg.p_ns + out.dbg.d_ns
        &&& out.dbg.pred_ns == self.predicted(err)
        &&& out.dbg.p_ns == (if applied { self.p_corr(err) } else { 0 })
        &&& out.dbg.d_ns == (if applied { self.d_corr(err) } else { 0 })
        &&& out.dbg.observer_freq_mppb == out.trim_mppb
        &&& out.dbg.state == 0
    }

    /// Whether every intermediate value of an edge's arithmetic is representable.
    pub open spec fn defined(self, err: int, valid: bool) -> bool {
        let pred = self.predicted(err);
        &&& in_i64(pred)
        &&& valid && self.locked() ==> err != i64::MIN
        &&& valid && !self.spike(err) ==> {
            &&& err != i64::MIN
            &&& self.cfg.e_i_ns >= 0
            &&& self.cfg.trim_max_mppb >= 0
            &&& in_i64(bounded(pred, self.cfg.e_i_ns as int) * 1000)
            &&& in_i64(self.wanted_trim(err))
            &&& in_i64(self.next_trim(err))
            &&& self.locked() ==> in_i64(pred - self.last_pred)
            &&& magnitude(err) < self.cfg.lock_ns ==> self.lock_cnt < u32::MAX
        }
    }

    /// A state from which every edge of up to 10^18 ns is defined, for ever (see
    /// [`law_sane_rework_never_overflows`]).
    pub open spec fn sane(self) -> bool {
        &&& 0 <= self.cfg.trim_max_mppb <= 1_000_000_000_000_000
        &&& 0 <= self.cfg.e_i_ns <= 1_000_000_000_000_000
        &&& self.cfg.kbc_inv >= 2 || self.largest_integral_step() <= 2 * self.cfg.trim_max_mppb
        &&& self.cfg.lock_hold < u32::MAX
        &&& 0 <= self.lock_cnt <= self.cfg.lock_hold
        &&& magnitude(self.trim) <= 2_000_000_000_000_000_000
        &&& magnitude(self.last_pred) <= 2_000_000_000_000_000_000
        &&& magnitude(self.last_pd) <= 2 * CORR_CLAMP_NS
    }

    /// The state with which a fresh segment starts.
    pub open spec fn restarted(self, seed: int) -> ReworkState {
        ReworkState { trim: seed, ..ReworkState::fresh(self.cfg) }
    }
}

/// Flag-free continuous-integral PID with the Smith predictor.
#[derive(Debug)]
pub struct IntegralRework {
    cfg: IntegralReworkConfig,
    trim_mppb: i64,
    lock_cnt: u32,
    reject_cnt: u32,
    last_pred: i64,
    last_pd: i64,
}

impl View for IntegralRework {
    type V = ReworkState;

    closed spec fn view(&self) -> ReworkState {
        ReworkState {
            cfg: self.cfg,
            trim: self.trim_mppb as int,
            lock_cnt: self.lock_cnt as int,
            reject_cnt: self.reject_cnt as int,
            last_pred: self.last_pred as int,
            last_pd: self.last_pd as int,
        }
    }
}

impl Default for IntegralRework {
    fn default() -> (r: Self)
        ensures
            r@ == ReworkState::fresh(r@.cfg),
            r@.cfg.is_default(),
            r@.sane(),
    {
        IntegralRework::new()
    }
}

impl IntegralRework {
    /// Creates a controller with the default tuning.
    pub fn new() -> (r: Self)
        ensures
            r@ == ReworkState::fresh(r@.cfg),
            r@.cfg.is_default(),
            r@.sane(),
    {
        IntegralRework::with_config(IntegralReworkConfig::default())
    }

    /// Creates a controller with a given tuning.
    pub fn with_config(cfg: IntegralReworkConfig) -> (r: Self)
        ensures
            r@ == ReworkState::fresh(cfg),
    {
        IntegralRework { cfg, trim_mppb: 0, lock_cnt: 0, reject_cnt: 0, last_pred: 0, last_pd: 0 }
    }
}

impl PhaseController for IntegralRework {
    open spec fn locked(&self) -> bool {
        self@.locked()
    }

    open spec fn step_defined(&self, input: ControlInput) -> bool {
        self@.defined(input.err_ns as int, input.valid)
    }

    open spec fn steps_to(&self, input: ControlInput, out: ControlOutput, after: &Self) -> bool {
        &&& after@ == self@.next(input.err_ns as int, input.valid)
        &&& self@.reports(input.err_ns as int, input.valid, out)
    }

    open spec fn segment_defined(&self, init: ControlInit) -> bool {
        true
    }

    open spec fn restarts_to(&self, init: ControlInit, after: &Self) -> bool {
        after@ == self@.restarted(init.residual_trim_mppb as int)
    }

    fn step(&mut self, input: ControlInput) -> (out: ControlOutput) {
        let ghost s = self@;
        let ctrl: i64 = input.err_ns;
        let pred: i64 = ctrl - self.last_pd;
        let locked = self.lock_cnt >= self.cfg.lock_hold;
        let mut p_corr: i64 = 0;
        let mut d_corr: i64 = 0;
        let mut applied = false;
        let mut rejected = false;

        if input.valid {
            if locked && abs_i64(ctrl) > self.cfg.outlier_ns && self.reject_cnt
                < self.cfg.outlier_max {
                self.reject_cnt = self.reject_cnt + 1;
                rejected = true;
            } else {
                self.reject_cnt = 0;
                applied = true;
                let pin: i64 = clamp_sym(pred, self.cfg.e_i_ns);
                let i_den: i64 = self.cfg.i_den.max(1);
                let kbc_inv: i64 = self.cfg.kbc_inv.max(1);
                let kp_inv: i64 = self.cfg.kp_inv.max(1);
                proof {
                    lemma_tdiv_in_i64(pin * 1000, i_den as int);
                    lemma_tdiv_in_i64(pred as int, kp_inv as int);
                }
                let want: i64 = self.trim_mppb - pin * 1000 / i_den;
                let clamped: i64 = clamp_sym(want, self.cfg.trim_max_mppb);
                proof {
                    lemma_tdiv_bounds(want - clamped, kbc_inv as int);
                }
                self.trim_mppb = clamped - (want - clamped) / kbc_inv;
                p_corr = clamp_sym(pred / kp_inv, CORR_CLAMP_NS);
                if locked {
                    let d_den: i64 = self.cfg.d_den.max(1);
                    proof {
                        lemma_tdiv_in_i64(pred - self.last_pred, d_den as int);
                    }
                    d_corr = clamp_sym((pred - self.last_pred) / d_den, CORR_CLAMP_NS);
                }
                self.lock_cnt = if abs_i64(ctrl) < self.cfg.lock_ns {
                    (self.lock_cnt + 1).min(self.cfg.lock_hold)
                } else {
                    0
                };
            }
        }
        if applied {
            self.last_pred = pred;
            self.last_pd = p_corr + d_corr;
        }
        ControlOutput {
            trim_mppb: self.trim_mppb,
            pcorr_ns: p_corr + d_corr,
            applied,
            locked,
            rejected,
            dbg: ControlDebug {
                pred_ns: pred,
                p_ns: p_corr,
                d_ns: d_corr,
                observer_freq_mppb: self.trim_mppb,
                state: 0,
            },
        }
    }

    fn is_locked(&self) -> (b: bool) {
        self.lock_cnt >= self.cfg.lock_hold
    }

    fn start_segment(&mut self, init: ControlInit) {
        self.trim_mppb = init.residual_trim_mppb;
        self.lock_cnt = 0;
        self.reject_cnt = 0;
        self.last_pred = 0;
        self.last_pd = 0;
    }
}

/// A runtime-selectable phase controller for same-boot cycling. Switch fairly with
/// [`start_segment`](PhaseController::start_segment).
#[derive(Debug)]
pub enum Controller {
    /// Type-II PID, with or without the Smith predictor.
    Pll(PhaseLockLoop),
    /// Flag-free continuous integrator.
    IntegRework(IntegralRework),
    /// Fixed-gain alpha-beta observer with a transient boost.
    AbBoost(AlphaBetaBoost),
    /// Open-loop feedforward (the loopback-less configuration).
    OpenLoop(OpenLoopFf),
}

impl Controller {
    /// A short stable name for logging.
    pub fn name(&self) -> (r: &'static str)
        ensures
            r@ == (match self {
                Controller::Pll(_) => "pll"@,
                Controller::IntegRework(_) => "integ_rework"@,
                Controller::AbBoost(_) => "ab_boost"@,
                Controller::OpenLoop(_) => "open_loop"@,
            }),
    {
        match self {
            Controller::Pll(_) => "pll",
            Controller::IntegRework(_) => "integ_rework",
            Controller::AbBoost(_) => "ab_boost",
            Controller::OpenLoop(_) => "open_loop",
        }
    }
}

impl PhaseController for Controller {
    open spec fn locked(&self) -> bool {
        match self {
            Controller::Pll(c) => PhaseController::locked(c),
            Controller::IntegRework(c) => PhaseController::locked(c),
            Controller::AbBoost(c) => PhaseController::locked(c),
            Controller::OpenLoop(c) => PhaseController::locked(c),
        }
    }

    open spec fn step_defined(&self, input: ControlInput) -> bool {
        match self {
            Controller::Pll(c) => c.step_defined(input),
            Controller::IntegRework(c) => c.step_defined(input),
            Controller::AbBoost(c) => c.step_defined(input),
            Controller::OpenLoop(c) => c.step_defined(input),
        }
    }

    open spec fn steps_to(&self, input: ControlInput, out: ControlOutput, after: &Self) -> bool {
        match (self, after) {
            (Controller::Pll(c), Controller::Pll(d)) => c.steps_to(input, out, d),
            (Controller::IntegRework(c), Controller::IntegRework(d)) => c.steps_to(input, out, d),
            (Controller::AbBoost(c), Controller::AbBoost(d)) => c.steps_to(input, out, d),
            (Controller::OpenLoop(c), Controller::OpenLoop(d)) => c.steps_to(input, out, d),
            _ => false,
        }
    }

    open spec fn segment_defined(&self, init: ControlInit) -> bool {
        match self {
            Controller::Pll(c) => c.segment_defined(init),
            Controller::IntegRework(c) => c.segment_defined(init),
            Controller::AbBoost(c) => c.segment_defined(init),
            Controller::OpenLoop(c) => c.segment_defined(init),
        }
    }

    open spec fn restarts_to(&self, init: ControlInit, after: &Self) -> bool {
        match (self, after) {
            (Controller::Pll(c), Controller::Pll(d)) => c.restarts_to(init, d),
            (Controller::IntegRework(c), Controller::IntegRework(d)) => c.restarts_to(init, d),
            (Controller::AbBoost(c), Controller::AbBoost(d)) => c.restarts_to(init, d),
            (Controller::OpenLoop(c), Controller::OpenLoop(d)) => c.restarts_to(init, d),
            _ => false,
        }
    }

    fn step(&mut self, input: ControlInput) -> (out: ControlOutput) {
        match self {
            Controller::Pll(c) => c.step(input),
            Controller::IntegRework(c) => c.step(input),
            Controller::AbBoost(c) => c.step(input),
            Controller::OpenLoop(c) => c.step(input),
        }
    }

    fn is_locked(&self) -> (b: bool) {
        match self {
            Controller::Pll(c) => PhaseController::is_locked(c),
            Controller::IntegRework(c) => c.is_locked(),
            Controller::AbBoost(c) => c.is_locked(),
            Controller::OpenLoop(c) => c.is_locked(),
        }
    }

    fn start_segment(&mut self, init: ControlInit) {
        match self {
            Controller::Pll(c) => c.start_segment(init),
            Controller::IntegRework(c) => c.start_segment(init),
            Controller::AbBoost(c) => c.start_segment(init),
            Controller::OpenLoop(c) => c.start_segment(init),
        }
    }
}

/// A boost controller whose trim clamp is at most 10^15 never overflows on edges of up to
/// 10^15 ns, however many it is fed.
pub proof fn law_sane_boost_never_overflows(s: BoostState, err: int, valid: bool)
    requires
        s.sane(),
        magnitude(err) <= 1_000_000_000_000_000,
    ensures
        s.defined(err, valid),
        s.next(err, valid).sane(),
{
    let innov = s.innovation(err);
    lemma_tdiv_bounds(0, 1000);
    lemma_tdiv_bounds(innov, s.alpha_inv(err));
    lemma_tdiv_bounds(innov * 1000, s.beta_inv(err));
    lemma_tdiv_bounds(s.next_phase(err), s.pgain_inv(err));
}

/// A continuous-integral controller with clamps of at most 10^15 never overflows on edges of up to
/// 10^18 ns, however many it is fed. One that bleeds back all of what was cut off also needs a trim
/// clamp of at least half an integral step, or each edge throws the trim further than the last.
pub proof fn law_sane_rework_never_overflows(s: ReworkState, err: int, valid: bool)
    requires
        s.sane(),
        magnitude(err) <= 1_000_000_000_000_000_000,
    ensures
        s.defined(err, valid),
        s.next(err, valid).sane(),
{
    let pin = bounded(s.predicted(err), s.cfg.e_i_ns as int);
    lemma_tdiv_bounds(pin * 1000, larger(s.cfg.i_den as int, 1));
    let want = s.wanted_trim(err);
    let clamped = bounded(want, s.cfg.trim_max_mppb as int);
    let excess = want - clamped;
    let kbc = larger(s.cfg.kbc_inv as int, 1);
    lemma_tdiv_bounds(excess, kbc);
    let m = magnitude(excess);
    if s.cfg.kbc_inv >= 2 {
        assert(2 * (m / kbc) <= m) by (nonlinear_arith)
            requires
                m >= 0,
                kbc >= 2,
        ;
    } else {
        let den = larger(s.cfg.i_den as int, 1);
        let most = s.cfg.e_i_ns * 1000;
        let asked = magnitude(pin * 1000);
        assert(asked / den <= most / den) by (nonlinear_arith)
            requires
                0 <= asked <= most,
                den >= 1,
        ;
        assert(kbc == 1);
        assert(excess / 1 == excess && (-excess) / 1 == -excess);
    }
}

/// The trim of the boost controller is always within its clamp.
pub proof fn law_boost_trim_is_clamped(s: BoostState, err: int, valid: bool, out: ControlOutput)
    requires
        s.cfg.trim_max_mppb >= 0,
        s.reports(err, valid, out),
    ensures
        magnitude(out.trim_mppb as int) <= s.cfg.trim_max_mppb,
        magnitude(out.pcorr_ns as int) <= CORR_CLAMP_NS,
{
}

/// Holdover: an invalid edge, and likewise a rejected spike, freezes the observer of the boost
/// controller; only the backstop goes on.
pub proof fn law_boost_holdover_freezes_observer(
    s: BoostState,
    err: int,
    valid: bool,
    out: ControlOutput,
)
    requires
        s.reports(err, valid, out),
        !out.applied,
    ensures
        out.pcorr_ns == 0,
        out.trim_mppb == s.trim(),
        ({
            let n = s.next(err, valid);
            &&& n.phase == s.phase
            &&& n.drift == s.drift
            &&& n.last_trim == s.last_trim
            &&& n.last_pcorr == s.last_pcorr
            &&& n.lock_cnt == s.lock_cnt
        }),
{
}

/// The boost cannot latch: every edge it lasts, applied or not, brings it closer to its backstop.
pub proof fn law_boost_cannot_latch(s: BoostState, err: int, valid: bool)
    requires
        s.boosting,
        s.next(err, valid).boosting,
    ensures
        s.next(err, valid).boost_edges == s.boost_edges + 1,
        s.next(err, valid).boost_edges < s.cfg.boost_max_edges,
{
}

/// Steady wander never boosts: boost is entered only on a large innovation or on a disturbance
/// that outlasted a full run of rejects.
pub proof fn law_wander_never_boosts(s: BoostState, err: int, valid: bool)
    requires
        !s.boosting,
        magnitude(s.innovation(err)) <= s.cfg.innov_enter_ns,
        s.reject_cnt < s.cfg.outlier_max || magnitude(err) < s.cfg.lock_ns,
    ensures
        !s.next(err, valid).boosting,
{
}

/// A fair switch of the boost controller: for every seed within the clamp, the first edge on zero
/// error emits exactly the seed, with no phase kick and no boost.
pub proof fn law_boost_segment_starts_continuous(s: BoostState, seed: int, out: ControlOutput)
    requires
        magnitude(seed) <= s.cfg.trim_max_mppb,
        s.cfg.innov_enter_ns >= 0,
        s.cfg.lock_hold > 0,
        s.cfg.outlier_max > 0 || s.cfg.lock_ns > 0,
        s.restarted(seed).reports(0, true, out),
    ensures
        !s.restarted(seed).locked(),
        s.restarted(seed).trim() == seed,
        out.applied,
        out.trim_mppb == seed,
        out.pcorr_ns == 0,
        out.dbg.state == 0,
{
    let r = s.restarted(seed);
    lemma_tdiv_bounds(0, 1000);
    assert(r.innovation(0) == 0);
    lemma_tdiv_bounds(0, r.alpha_inv(0));
    lemma_tdiv_bounds(0, r.beta_inv(0));
    lemma_tdiv_bounds(0, r.pgain_inv(0));
}

/// A large error cannot wind up the continuous integral: while the trim is not saturated, one edge
/// changes it by at most the clamped input over the denominator.
pub proof fn law_rework_integral_input_is_clamped(s: ReworkState, err: int)
    requires
        s.cfg.e_i_ns >= 0,
        magnitude(s.wanted_trim(err)) <= s.cfg.trim_max_mppb,
    ensures
        magnitude(s.next_trim(err) - s.trim) <= tdiv(
            s.cfg.e_i_ns * 1000,
            larger(s.cfg.i_den as int, 1),
        ),
{
    let den = larger(s.cfg.i_den as int, 1);
    let pin = bounded(s.predicted(err), s.cfg.e_i_ns as int);
    let top = s.cfg.e_i_ns * 1000;
    crate::arith::lemma_tdiv_monotone(pin * 1000, top, den);
    crate::arith::lemma_tdiv_monotone(-top, pin * 1000, den);
    crate::arith::lemma_tdiv_neg(top, den);
    lemma_tdiv_bounds(0, larger(s.cfg.kbc_inv as int, 1));
}

/// Holdover: an invalid edge changes nothing in the continuous-integral controller.
pub proof fn law_rework_invalid_edge_holds(s: ReworkState, err: int, out: ControlOutput)
    requires
        s.reports(err, false, out),
    ensures
        s.next(err, false) == s,
        !out.applied,
        out.pcorr_ns == 0,
        out.trim_mppb == s.trim,
{
}

/// A fair switch of the continuous-integral controller.
pub proof fn law_rework_segment_starts_continuous(s: ReworkState, seed: int, out: ControlOutput)
    requires
        magnitude(seed) <= s.cfg.trim_max_mppb,
        s.cfg.e_i_ns >= 0,
        s.cfg.lock_hold > 0,
        s.restarted(seed).reports(0, true, out),
    ensures
        !s.restarted(seed).locked(),
        out.applied,
        out.trim_mppb == seed,
        out.pcorr_ns == 0,
{
    lemma_tdiv_bounds(0, larger(s.cfg.i_den as int, 1));
    lemma_tdiv_bounds(0, larger(s.cfg.kbc_inv as int, 1));
    lemma_tdiv_bounds(0, larger(s.cfg.kp_inv as int, 1));
}

/// What an applied edge does to the observer of the boost controller. The phase is expected where
/// the drift that the last trim left and the last correction put it; the surprise, over the phase
/// gain, is added to the phase and, over the drift gain, to the drift, which is held within the trim
/// clamp. The trim is the drift negated; the correction is the phase over the correction gain. The
/// gains are those of the regime that is reported, and at least 1. `q`, `qa`, `qb` and `qp` are the
/// quotients, truncated.
pub proof fn law_boost_observer_follows_the_phase(
    s: BoostState,
    err: int,
    out: ControlOutput,
    q: int,
    qa: int,
    qb: int,
    qp: int,
)
    requires
        s.reports(err, true, out),
        out.applied,
        s.cfg.trim_max_mppb >= 0,
        ({
            let fast = out.dbg.state == 1;
            let a = if fast { s.cfg.fast_alpha_inv } else { s.cfg.steady_alpha_inv };
            let b = if fast { s.cfg.fast_beta_inv } else { s.cfg.steady_beta_inv };
            let g = if fast { s.cfg.fast_pgain_inv } else { s.cfg.steady_pgain_inv };
            let expected = s.phase + q - s.last_pcorr;
            &&& is_quotient(q, s.drift + s.last_trim, 1000)
            &&& is_quotient(qa, err - expected, if a > 1 { a as int } else { 1 })
            &&& is_quotient(qb, (err - expected) * 1000, if b > 1 { b as int } else { 1 })
            &&& is_quotient(qp, expected + qa, if g > 1 { g as int } else { 1 })
        }),
    ensures
        ({
            let n = s.next(err, true);
            let expected = s.phase + q - s.last_pcorr;
            let top = s.cfg.trim_max_mppb as int;
            let moved = s.drift + qb;
            &&& out.dbg.pred_ns == expected
            &&& n.phase == expected + qa
            &&& -top <= moved <= top ==> n.drift == moved
            &&& moved > top ==> n.drift == top
            &&& moved < -top ==> n.drift == -top
            &&& out.trim_mppb == -n.drift
            &&& -100_000_000 <= qp <= 100_000_000 ==> out.pcorr_ns == qp
            &&& qp > 100_000_000 ==> out.pcorr_ns == 100_000_000
            &&& qp < -100_000_000 ==> out.pcorr_ns == -100_000_000
            &&& n.last_trim == out.trim_mppb
            &&& n.last_pcorr == out.pcorr_ns
            &&& out.dbg.observer_freq_mppb == n.drift
            &&& n.boosting == (out.dbg.state == 1)
        }),
{
    crate::arith::lemma_tdiv_unique(s.drift + s.last_trim, 1000, q);
    let innov = s.innovation(err);
    crate::arith::lemma_tdiv_unique(innov, s.alpha_inv(err), qa);
    crate::arith::lemma_tdiv_unique(innov * 1000, s.beta_inv(err), qb);
    crate::arith::lemma_tdiv_unique(s.next_phase(err), s.pgain_inv(err), qp);
}

/// When the boost is on: a steady controller boosts on a surprise beyond the threshold, on either
/// side, or on an out-of-window edge after a full run of held spikes; a boosting one goes on until
/// enough edges in a row were in the exit window or the backstop is reached.
pub proof fn law_boost_follows_its_hysteresis(s: BoostState, err: int, out: ControlOutput, q: int)
    requires
        s.reports(err, true, out),
        out.applied,
        s.boost_edges < u32::MAX,
        is_quotient(q, s.drift + s.last_trim, 1000),
    ensures
        ({
            let n = s.next(err, true);
            let surprise = err - (s.phase + q - s.last_pcorr);
            let inside = -s.cfg.exit_lock_ns < err < s.cfg.exit_lock_ns;
            if s.boosting {
                &&& n.boost_edges == s.boost_edges + 1
                &&& inside ==> n.exit_cnt == s.exit_cnt + 1
                &&& !inside ==> n.exit_cnt == 0
                &&& n.boosting <==> n.exit_cnt < s.cfg.exit_hold && n.boost_edges
                    < s.cfg.boost_max_edges
            } else {
                &&& n.boosting <==> surprise > s.cfg.innov_enter_ns || surprise
                    < -s.cfg.innov_enter_ns || (s.reject_cnt >= s.cfg.outlier_max && (err
                    >= s.cfg.lock_ns || err <= -s.cfg.lock_ns))
                &&& n.boosting ==> n.boost_edges == 0 && n.exit_cnt == 0
            }
        }),
{
    crate::arith::lemma_tdiv_unique(s.drift + s.last_trim, 1000, q);
}

/// The boost controller holds an edge as a spike if and only if it is locked, the phase is beyond
/// the threshold on either side, and the run of held spikes is not full; it counts in-window edges
/// toward its lock and loses the lock on any other that is applied.
pub proof fn law_boost_lock_and_spikes(s: BoostState, err: int, out: ControlOutput)
    requires
        s.reports(err, true, out),
        0 <= s.lock_cnt <= s.cfg.lock_hold,
    ensures
        ({
            let n = s.next(err, true);
            &&& out.locked <==> s.lock_cnt >= s.cfg.lock_hold
            &&& out.rejected <==> s.lock_cnt >= s.cfg.lock_hold && (err > s.cfg.outlier_ns || err
                < -s.cfg.outlier_ns) && s.reject_cnt < s.cfg.outlier_max
            &&& out.applied <==> !out.rejected
            &&& out.rejected ==> n.reject_cnt == s.reject_cnt + 1 && n.lock_cnt == s.lock_cnt
            &&& out.applied ==> n.reject_cnt == 0
            &&& out.applied && !(-s.cfg.lock_ns < err < s.cfg.lock_ns) ==> n.lock_cnt == 0
            &&& out.applied && -s.cfg.lock_ns < err < s.cfg.lock_ns ==> n.lock_cnt == (
            if s.lock_cnt < s.cfg.lock_hold {
                s.lock_cnt + 1
            } else {
                s.lock_cnt
            })
        }),
{
}

/// A settled boost controller pulls a drifting output back: a late edge gets a non-negative
/// correction and no higher trim, an early one a non-positive correction and no lower trim.
pub proof fn law_settled_boost_pulls_back(s: BoostState, err: int, out: ControlOutput)
    requires
        s.reports(err, true, out),
        out.applied,
        s.phase == 0,
        s.last_pcorr == 0,
        s.drift + s.last_trim == 0,
        -s.cfg.trim_max_mppb <= s.drift <= s.cfg.trim_max_mppb,
    ensures
        err >= 0 ==> out.pcorr_ns >= 0 && out.trim_mppb <= -s.drift,
        err <= 0 ==> out.pcorr_ns <= 0 && out.trim_mppb >= -s.drift,
{
    lemma_tdiv_bounds(0, 1000);
    assert(s.innovation(err) == err);
    lemma_tdiv_bounds(err, s.alpha_inv(err));
    lemma_tdiv_bounds(err * 1000, s.beta_inv(err));
    lemma_tdiv_bounds(s.next_phase(err), s.pgain_inv(err));
}

/// What an applied edge does to the continuous-integral controller. It acts on the measured phase
/// less the correction in flight. `q` is that phase, held within the input clamp, in picoseconds
/// over the denominator: the trim is lowered by `q` and held within its clamp, and `qx`, a part of
/// what the clamp cut off, is bled back. Each divisor is at least 1.
pub proof fn law_rework_integral_opposes_the_phase(
    s: ReworkState,
    err: int,
    out: ControlOutput,
    q: int,
    qx: int,
)
    requires
        s.reports(err, true, out),
        out.applied,
        s.cfg.trim_max_mppb >= 0,
        s.cfg.e_i_ns >= 0,
        ({
            let pred = err - s.last_pd;
            let e = s.cfg.e_i_ns as int;
            let held = if pred > e { e } else if pred < -e { -e } else { pred };
            let want = s.trim - q;
            let top = s.cfg.trim_max_mppb as int;
            let excess = if want > top { want - top } else if want < -top { want + top } else { 0 };
            &&& is_quotient(q, held * 1000, if s.cfg.i_den > 1 { s.cfg.i_den as int } else { 1 })
            &&& is_quotient(qx, excess, if s.cfg.kbc_inv > 1 { s.cfg.kbc_inv as int } else { 1 })
        }),
    ensures
        ({
            let want = s.trim - q;
            let top = s.cfg.trim_max_mppb as int;
            let n = s.next(err, true);
            &&& out.dbg.pred_ns == err - s.last_pd
            &&& -top <= want <= top ==> out.trim_mppb == want
            &&& want > top ==> out.trim_mppb == top - qx
            &&& want < -top ==> out.trim_mppb == -top - qx
            &&& n.trim == out.trim_mppb
            &&& n.last_pred == out.dbg.pred_ns
            &&& n.last_pd == out.pcorr_ns
        }),
{
    let den = larger(s.cfg.i_den as int, 1);
    let kbc = larger(s.cfg.kbc_inv as int, 1);
    let held = bounded(s.predicted(err), s.cfg.e_i_ns as int);
    crate::arith::lemma_tdiv_unique(held * 1000, den, q);
    let want = s.wanted_trim(err);
    crate::arith::lemma_tdiv_unique(want - bounded(want, s.cfg.trim_max_mppb as int), kbc, qx);
    lemma_tdiv_bounds(0, kbc);
}

/// The correction of the continuous-integral controller is the sum of two terms: the proportional
/// one has the sign of the predicted phase and the derivative one, which needs a lock, that of its
/// change; each is its input over its divisor, truncated, unless at the clamp of 0.1 s.
pub proof fn law_rework_correction_follows_the_phase(s: ReworkState, err: int, out: ControlOutput)
    requires
        s.reports(err, true, out),
        out.applied,
    ensures
        ({
            let pred = err - s.last_pd;
            let change = pred - s.last_pred;
            let k = if s.cfg.kp_inv > 1 { s.cfg.kp_inv as int } else { 1 };
            let dd = if s.cfg.d_den > 1 { s.cfg.d_den as int } else { 1 };
            let p = out.dbg.p_ns;
            let d = out.dbg.d_ns;
            &&& out.pcorr_ns == p + d
            &&& pred >= 0 ==> 0 <= k * p <= pred
            &&& pred <= 0 ==> pred <= k * p <= 0
            &&& -100_000_000 <= p <= 100_000_000
            &&& -100_000_000 < p < 100_000_000 ==> -k < pred - k * p < k
            &&& s.lock_cnt < s.cfg.lock_hold ==> d == 0
            &&& s.lock_cnt >= s.cfg.lock_hold ==> {
                &&& change >= 0 ==> 0 <= dd * d <= change
                &&& change <= 0 ==> change <= dd * d <= 0
                &&& -100_000_000 <= d <= 100_000_000
                &&& -100_000_000 < d < 100_000_000 ==> -dd < change - dd * d < dd
            }
        }),
{
    let pred = s.predicted(err);
    crate::pll::lemma_clamped_quotient(pred, larger(s.cfg.kp_inv as int, 1));
    crate::pll::lemma_clamped_quotient(pred - s.last_pred, larger(s.cfg.d_den as int, 1));
}

/// The continuous-integral controller holds an edge as a spike if and only if it is locked, the
/// phase is beyond the threshold on either side, and the run of held spikes is not full; it counts
/// in-window edges toward its lock and loses the lock on any other that is applied.
pub proof fn law_rework_lock_and_spikes(s: ReworkState, err: int, out: ControlOutput)
    requires
        s.reports(err, true, out),
        0 <= s.lock_cnt <= s.cfg.lock_hold,
    ensures
        ({
            let n = s.next(err, true);
            &&& out.locked <==> s.lock_cnt >= s.cfg.lock_hold
            &&& out.rejected <==> s.lock_cnt >= s.cfg.lock_hold && (err > s.cfg.outlier_ns || err
                < -s.cfg.outlier_ns) && s.reject_cnt < s.cfg.outlier_max
            &&& out.applied <==> !out.rejected
            &&& out.rejected ==> n == (ReworkState { reject_cnt: s.reject_cnt + 1, ..s })
            &&& out.applied ==> n.reject_cnt == 0
            &&& out.applied && !(-s.cfg.lock_ns < err < s.cfg.lock_ns) ==> n.lock_cnt == 0
            &&& out.applied && -s.cfg.lock_ns < err < s.cfg.lock_ns ==> n.lock_cnt == (
            if s.lock_cnt < s.cfg.lock_hold {
                s.lock_cnt + 1
            } else {
                s.lock_cnt
            })
        }),
{
}

/// The open loop corrects nothing, holds its trim, and never claims a lock.
pub proof fn law_open_loop_holds(
    c: OpenLoopFf,
    input: ControlInput,
    out: ControlOutput,
    after: OpenLoopFf,
)
    requires
        c.steps_to(input, out, &after),
    ensures
        out.pcorr_ns == 0,
        out.trim_mppb == c@,
        after@ == c@,
        !out.locked,
        out.applied == input.valid,
{
}

/// A fresh segment keeps the tuning and nothing else: no lock, no spike held, no phase and no
/// correction in flight.
pub proof fn law_fresh_segment_is_blank(b: BoostState, r: ReworkState, seed: int)
    ensures
        ({
            let n = b.restarted(seed);
            &&& n.cfg == b.cfg
            &&& n.phase == 0 && n.drift == -seed && n.last_trim == seed && n.last_pcorr == 0
            &&& !n.boosting && n.boost_edges == 0 && n.exit_cnt == 0
            &&& n.lock_cnt == 0 && n.reject_cnt == 0
        }),
        ({
            let n = r.restarted(seed);
            &&& n.cfg == r.cfg
            &&& n.trim == seed
            &&& n.lock_cnt == 0 && n.reject_cnt == 0 && n.last_pred == 0 && n.last_pd == 0
        }),
{
}

/// The default tunings: the boost observer at 1/4, 1/64 and 1/8, and at 1/2, 1/8 and 1/3 while
/// boosting, for at most 40 edges; the continuous integral at 1/128 of up to 800 ns, with a fifth of
/// what its clamp cuts off bled back. Lock, spikes and clamps are those of the production loop.
pub proof fn law_default_controller_tunings(b: AlphaBetaBoostConfig, r: IntegralReworkConfig)
    requires
        call_ensures(AlphaBetaBoostConfig::default, (), b),
        call_ensures(IntegralReworkConfig::default, (), r),
    ensures
        b.steady_alpha_inv == 4 && b.steady_beta_inv == 64 && b.steady_pgain_inv == 8,
        b.fast_alpha_inv == 2 && b.fast_beta_inv == 8 && b.fast_pgain_inv == 3,
        b.innov_enter_ns == 3_000 && b.boost_max_edges == 40,
        b.exit_lock_ns == 1_000 && b.exit_hold == 5,
        r.kp_inv == 8 && r.d_den == 4 && r.i_den == 128 && r.e_i_ns == 800 && r.kbc_inv == 5,
        b.lock_ns == 1_000 && r.lock_ns == 1_000 && b.lock_hold == 5 && r.lock_hold == 5,
        b.outlier_ns == 3_000 && r.outlier_ns == 3_000 && b.outlier_max == 12 && r.outlier_max == 12,
        b.trim_max_mppb == 3_000_000 && r.trim_max_mppb == 3_000_000,
{
}

/// What is reported beside the actuation: the boost controller tells its correction as proportional,
/// its drift estimate and whether it boosts; the continuous-integral one tells its trim and no state.
pub proof fn law_telemetry_tells_the_state(
    b: BoostState,
    r: ReworkState,
    err: int,
    valid: bool,
    of_b: ControlOutput,
    of_r: ControlOutput,
)
    requires
        b.reports(err, valid, of_b),
        r.reports(err, valid, of_r),
    ensures
        of_b.dbg.p_ns == of_b.pcorr_ns && of_b.dbg.d_ns == 0,
        of_b.dbg.observer_freq_mppb == b.next(err, valid).drift,
        of_b.dbg.state == (if b.next(err, valid).boosting { 1int } else { 0 }),
        of_r.dbg.observer_freq_mppb == of_r.trim_mppb && of_r.dbg.state == 0,
        of_r.dbg.pred_ns == err - r.last_pd,
{
}

} // verus!
