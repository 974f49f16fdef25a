//! Output-phase discipline for a generated 1PPS: a type-II phase-locked loop.
//!
//! Where [`DisciplinedClock`](crate::gpsdo::DisciplinedClock) disciplines the device's internal
//! time from the incoming reference PPS, [`PhaseLockLoop`] disciplines a generated output PPS so
//! that its edge phase-locks to the reference. It consumes a measured phase error (ns) and returns
//! a frequency trim (milli-ppb) and an immediate phase correction (ns).
//!
//! The loop is P + I with an optional derivative term and a **Smith predictor** that subtracts the
//! corrections still in flight. Lock detection and single-sample outlier rejection guard against
//! weak-signal spikes.
//!
//! The state of a loop is modelled by [`PllState`], whose methods say what each edge does.

use vstd::prelude::*;
use crate::arith::{abs_i64, clamp_sym};
use crate::control::{ControlDebug, ControlInit, ControlInput, ControlOutput, PhaseController};

verus! {

use crate::arith::{bounded, in_i64, lemma_tdiv_in_i64, magnitude, smaller, tdiv};
use vstd::arithmetic::power2::pow2;

/// Safety clamp on a single component of one edge's phase correction (ns).
pub const CORR_CLAMP_NS: i64 = 100_000_000;

/// The largest slow-down shift of the integral.
const MAX_DISTURBED_SHIFT: u32 = 20;

/// Which control terms are active. `PidSmith` is production; the others exist to compare terms.
#[derive(Debug, Clone, Copy, PartialEq, Eq, Structural, Default)]
pub enum LoopMode {
    /// Proportional only.
    P,
    /// Proportional + derivative.
    Pd,
    /// Proportional + integral (type-II).
    Pi,
    /// P + I + D.
    Pid,
    /// P + I + D with the Smith predictor: the production configuration.
    #[default]
    PidSmith,
}

impl LoopMode {
    /// Whether the integral term is active.
    pub open spec fn integral(self) -> bool {
        self is Pi || self is Pid || self is PidSmith
    }

    /// Whether the derivative term is active.
    pub open spec fn derivative(self) -> bool {
        self is Pd || self is Pid || self is PidSmith
    }

    /// Whether the Smith predictor is active.
    pub open spec fn predictive(self) -> bool {
        self is PidSmith
    }

    fn use_i(self) -> (b: bool)
        ensures
            b == self.integral(),
    {
        matches!(self, LoopMode::Pi | LoopMode::Pid | LoopMode::PidSmith)
    }

    fn use_d(self) -> (b: bool)
        ensures
            b == self.derivative(),
    {
        matches!(self, LoopMode::Pd | LoopMode::Pid | LoopMode::PidSmith)
    }

    fn smith(self) -> (b: bool)
        ensures
            b == self.predictive(),
    {
        matches!(self, LoopMode::PidSmith)
    }

    /// Inverse proportional gain. Smith-compensated loops tolerate a higher gain (1/8); without
    /// the predictor the loop delay forces 1/16 to stay stable.
    fn kp_inv(self) -> (r: i64)
        ensures
            r == (if self.predictive() { 8int } else { 16 }),
    {
        if self.smith() {
            8
        } else {
            16
        }
    }
}

/// Tuning for [`PhaseLockLoop`]. `Default` is the production tuning; the right values depend on
/// the loop delay, the capture resolution and the reference PPS quality.
#[derive(Debug)]
pub struct PhaseLockLoopConfig {
    /// Active control terms (default [`LoopMode::PidSmith`]).
    pub mode: LoopMode,
    /// Phase deadband (ns): below this the P term is skipped. Default 0.
    pub deadband_ns: i64,
    /// Lock window (ns): an edge whose phase is within this counts toward lock. Default 1 us.
    pub lock_ns: i64,
    /// Consecutive in-window edges required to declare lock. Default 5.
    pub lock_hold: u32,
    /// Integral-enable window (ns): the I term integrates while the phase is within this band,
    /// even before full lock, so that it can pull a steady offset into the lock window.
    /// Default 5 us.
    pub i_enable_ns: i64,
    /// Post-lock outlier threshold (ns): an edge beyond this while locked is held. Default 3 us.
    pub outlier_ns: i64,
    /// Max consecutive outliers to reject before accepting one as a real disturbance. Default 12.
    pub outlier_max: u32,
    /// Integral denominator: trim changes by `-pred * 1000 / i_den` per edge (milli-ppb).
    /// Default 128.
    pub i_den: i64,
    /// Clamp on the integrated frequency trim (milli-ppb). Default 3 000 000.
    pub trim_max_mppb: i64,
    /// Derivative denominator: `d_corr = (pred - last_pred) / d_den` (ns). Default 4.
    pub d_den: i64,
    /// Adaptive-gain calm band (ns): while the predicted phase is within this, the integral runs
    /// at `i_den`. Default = `lock_ns`.
    pub calm_ns: i64,
    /// Integral slow-down outside the calm band: the denominator becomes `i_den << shift`, with a
    /// shift of at most 20. 0 disables the adaptation. Default 0.
    pub i_den_disturbed_shift: u32,
    /// Inverse proportional gain; 0 picks the gain that suits the mode (8 with the Smith
    /// predictor, 16 without). Default 0.
    pub kp_inv: i64,
    /// How many applied corrections the Smith predictor regards as still in flight: the loop
    /// delay in edges. Default 1.
    pub smith_edges: u32,
}

impl PhaseLockLoopConfig {
    /// The inverse proportional gain in force.
    pub open spec fn gain_inv(self) -> int {
        if self.kp_inv != 0 {
            self.kp_inv as int
        } else if self.mode.predictive() {
            8
        } else {
            16
        }
    }

    /// The slow-down shift in force.
    pub open spec fn disturbed_shift(self) -> u32 {
        if self.i_den_disturbed_shift < 20 {
            self.i_den_disturbed_shift
        } else {
            20
        }
    }

    /// The integral denominator in force at a predicted phase `pred`.
    pub open spec fn integral_den(self, pred: int) -> i64 {
        if magnitude(pred) < self.calm_ns {
            self.i_den
        } else {
            self.i_den << self.disturbed_shift()
        }
    }

    /// The production tuning.
    pub open spec fn is_default(self) -> bool {
        &&& self.is_default_but_mode()
        &&& self.mode is PidSmith
    }

    /// The production tuning in every field but the mode.
    pub open spec fn is_default_but_mode(self) -> bool {
        &&& self.deadband_ns == 0
        &&& self.lock_ns == 1_000
        &&& self.lock_hold == 5
        &&& self.i_enable_ns == 5_000
        &&& self.outlier_ns == 3_000
        &&& self.outlier_max == 12
        &&& self.i_den == 128
        &&& self.trim_max_mppb == 3_000_000
        &&& self.d_den == 4
        &&& self.calm_ns == 1_000
        &&& self.i_den_disturbed_shift == 0
        &&& self.kp_inv == 0
        &&& self.smith_edges == 1
    }

    /// A tuning under which no edge with a phase error of up to 10^15 ns can overflow.
    pub open spec fn sane(self) -> bool {
        &&& 1 <= self.i_den <= 0x1_0000_0000
        &&& 1 <= self.d_den
        &&& 0 <= self.kp_inv
        &&& 0 <= self.trim_max_mppb <= 1_000_000_000_000_000
        &&& self.lock_hold < u32::MAX
        &&& self.smith_edges <= 1000
    }

    /// The classic PID tuning without the Smith predictor.
    pub fn naive_pid() -> (r: Self)
        ensures
            r.mode is Pid,
            r.is_default_but_mode(),
    {
        PhaseLockLoopConfig { mode: LoopMode::Pid, ..PhaseLockLoopConfig::default() }
    }
}

impl Default for PhaseLockLoopConfig {
    fn default() -> (r: Self)
        ensures
            r.is_default(),
    {
        PhaseLockLoopConfig {
            mode: LoopMode::PidSmith,
            deadband_ns: 0,
            lock_ns: 1_000,
            lock_hold: 5,
            i_enable_ns: 5_000,
            outlier_ns: 3_000,
            outlier_max: 12,
            i_den: 128,
            trim_max_mppb: 3_000_000,
            d_den: 4,
            calm_ns: 1_000,
            i_den_disturbed_shift: 0,
            kp_inv: 0,
            smith_edges: 1,
        }
    }
}

/// Result of [`PhaseLockLoop::update`]. The caller forms the output period from `freq_trim_mppb`
/// (added to the crystal estimate) and `phase_corr_ns`; the rest is for logging.
#[derive(Debug, Clone, Copy, PartialEq, Eq, Structural)]
pub struct PhaseLockLoopUpdate {
    /// Whether this edge was applied (false if invalid or rejected as an outlier).
    pub applied: bool,
    /// Lock state used for this edge's control decisions (lock attained on a prior edge).
    pub locked: bool,
    /// Whether this edge was held as a post-lock outlier.
    pub rejected_outlier: bool,
    /// Integrated frequency trim (milli-ppb) to add to the crystal's estimated offset.
    pub freq_trim_mppb: i64,
    /// Immediate phase correction (ns) to subtract from this period.
    pub phase_corr_ns: i64,
    /// Proportional component of `phase_corr_ns` (ns).
    pub p_corr_ns: i64,
    /// Derivative component of `phase_corr_ns` (ns).
    pub d_corr_ns: i64,
    /// The Smith-predicted phase used as the control input this edge (ns).
    pub predicted_phase_ns: i64,
}

/// The sum of a sequence of integers.
pub open spec fn total(s: Seq<int>) -> int
    decreases s.len(),
{
    if s.len() == 0 {
        0
    } else {
        total(s.drop_last()) + s.last()
    }
}

/// The last `n` items of a sequence, or all of it if it is shorter.
pub open spec fn last_of(s: Seq<int>, n: int) -> Seq<int> {
    if s.len() <= n {
        s
    } else {
        s.subrange(s.len() - n, s.len() as int)
    }
}

/// The mathematical state of a [`PhaseLockLoop`].
pub struct PllState {
    /// The tuning.
    pub config: PhaseLockLoopConfig,
    /// Consecutive in-window edges seen, up to `lock_hold`.
    pub lock_cnt: int,
    /// Consecutive outliers held.
    pub reject_cnt: int,
    /// Integrated frequency trim (milli-ppb).
    pub trim: int,
    /// Predicted phase of the last applied edge (ns).
    pub last_pred: int,
    /// The corrections of the last applied edges, oldest first, at most `smith_edges` of them.
    pub in_flight: Seq<int>,
}

impl PllState {
    /// What holds of every loop: the history is no longer than the loop delay, and each correction
    /// in it obeys the clamp on the two terms that make it up.
    pub open spec fn wf(self) -> bool {
        &&& self.in_flight.len() <= self.config.smith_edges
        &&& forall|i: int|
            0 <= i < self.in_flight.len() ==> magnitude(#[trigger] self.in_flight[i]) <= 2
                * CORR_CLAMP_NS
    }

    /// The state of a loop that has seen no edge.
    pub open spec fn fresh(config: PhaseLockLoopConfig) -> PllState {
        PllState { config, lock_cnt: 0, reject_cnt: 0, trim: 0, last_pred: 0, in_flight: Seq::empty() }
    }

    /// Whether the loop is locked.
    pub open spec fn locked(self) -> bool {
        self.lock_cnt >= self.config.lock_hold
    }

    /// The phase that the control terms act on: the measured error less what is still in flight.
    pub open spec fn predicted(self, err: int) -> int {
        if self.config.mode.predictive() {
            err - total(self.in_flight)
        } else {
            err
        }
    }

    /// Whether a valid edge is held as a post-lock spike.
    pub open spec fn spike(self, err: int) -> bool {
        &&& self.locked()
        &&& magnitude(err) > self.config.outlier_ns
        &&& self.reject_cnt < self.config.outlier_max
    }

    /// Whether an edge takes part in control.
    pub open spec fn applies(self, err: int, valid: bool) -> bool {
        valid && !self.spike(err)
    }

    /// Whether an applied edge is integrated.
    pub open spec fn integrates(self, err: int) -> bool {
        self.config.mode.integral() && magnitude(err) < self.config.i_enable_ns
    }

    /// The frequency trim after an applied edge.
    pub open spec fn next_trim(self, err: int) -> int {
        let pred = self.predicted(err);
        if !self.config.mode.integral() {
            0
        } else if self.integrates(err) {
            bounded(
                self.trim - tdiv(pred * 1000, self.config.integral_den(pred) as int),
                self.config.trim_max_mppb as int,
            )
        } else {
            self.trim
        }
    }

    /// The proportional correction of an applied edge.
    pub open spec fn p_corr(self, err: int) -> int {
        let pred = self.predicted(err);
        if magnitude(pred) >= self.config.deadband_ns {
            bounded(tdiv(pred, self.config.gain_inv()), CORR_CLAMP_NS as int)
        } else {
            0
        }
    }

    /// The derivative correction of an applied edge: only a locked loop has one.
    pub open spec fn d_corr(self, err: int) -> int {
        if self.config.mode.derivative() && self.locked() {
            bounded(
                tdiv(self.predicted(err) - self.last_pred, self.config.d_den as int),
                CORR_CLAMP_NS as int,
            )
        } else {
            0
        }
    }

    /// The state after an edge. An invalid edge leaves everything as it was; a spike is only
    /// counted.
    pub open spec fn next(self, err: int, valid: bool) -> PllState {
        if !valid {
            self
        } else if self.spike(err) {
            PllState { reject_cnt: self.reject_cnt + 1, ..self }
        } else {
            PllState {
                config: self.config,
                lock_cnt: if magnitude(err) < self.config.lock_ns {
                    smaller(self.lock_cnt + 1, self.config.lock_hold as int)
                } else {
                    0
                },
                reject_cnt: 0,
                trim: self.next_trim(err),
                last_pred: self.predicted(err),
                in_flight: last_of(
                    self.in_flight.push(self.p_corr(err) + self.d_corr(err)),
                    self.config.smith_edges as int,
                ),
            }
        }
    }

    /// What an edge reports.
    pub open spec fn reports(self, err: int, valid: bool, u: PhaseLockLoopUpdate) -> bool {
        let applied = self.applies(err, valid);
        &&& u.applied == applied
        &&& u.locked == self.locked()
        &&& u.rejected_outlier == (valid && self.spike(err))
        &&& u.freq_trim_mppb == self.next(err, valid).trim
        &&& u.p_corr_ns == (if applied { self.p_corr(err) } else { 0 })
        &&& u.d_corr_ns == (if applied { self.d_corr(err) } else { 0 })
        &&& u.phase_corr_ns == u.p_corr_ns + u.d_corr_ns
        &&& u.predicted_phase_ns == self.predicted(err)
    }

    /// Whether every intermediate value of an edge's arithmetic is representable.
    pub open spec fn defined(self, err: int, valid: bool) -> bool {
        let pred = self.predicted(err);
        &&& self.wf()
        &&& in_i64(pred)
        &&& valid && self.locked() ==> err != i64::MIN
        &&& self.applies(err, valid) ==> {
            &&& err != i64::MIN
            &&& pred != i64::MIN
            &&& self.integrates(err) ==> self.integral_defined(pred)
            &&& self.config.mode.derivative() && self.locked() ==> self.derivative_defined(pred)
            &&& magnitude(err) < self.config.lock_ns ==> self.lock_cnt < u32::MAX
        }
    }

    /// The part of [`defined`](Self::defined) that the integral needs.
    pub open spec fn integral_defined(self, pred: int) -> bool {
        let den = self.config.integral_den(pred) as int;
        &&& den != 0
        &&& in_i64(pred * 1000)
        &&& in_i64(self.trim - tdiv(pred * 1000, den))
        &&& self.config.trim_max_mppb >= 0
    }

    /// The part of [`defined`](Self::defined) that the derivative needs.
    pub open spec fn derivative_defined(self, pred: int) -> bool {
        &&& self.config.d_den != 0
        &&& in_i64(pred - self.last_pred)
        &&& !(pred - self.last_pred == i64::MIN && self.config.d_den == -1)
    }

    /// A state from which every edge of up to 10^15 ns is defined, for ever (see
    /// [`law_sane_loop_never_overflows`]).
    pub open spec fn sane(self) -> bool {
        &&& self.wf()
        &&& self.config.sane()
        &&& 0 <= self.lock_cnt <= self.config.lock_hold
        &&& magnitude(self.trim) <= 1_000_000_000_000_000
        &&& magnitude(self.last_pred) <= 2_000_000_000_000_000
    }

    /// The state with which a fresh segment starts: the trim is the seed and every history is
    /// blank.
    pub open spec fn restarted(self, seed: int) -> PllState {
        PllState { trim: seed, ..PllState::fresh(self.config) }
    }
}

/// A type-II output-phase loop. Feed it a measured phase error each output edge; it integrates a
/// frequency trim and emits an immediate phase correction.
#[derive(Debug)]
pub struct PhaseLockLoop {
    config: PhaseLockLoopConfig,
    lock_cnt: u32,
    reject_cnt: u32,
    trim_mppb: i64,
    last_pred: i64,
    in_flight: Vec<i64>,
}

impl View for PhaseLockLoop {
    type V = PllState;

    closed spec fn view(&self) -> PllState {
        PllState {
            config: self.config,
            lock_cnt: self.lock_cnt as int,
            reject_cnt: self.reject_cnt as int,
            trim: self.trim_mppb as int,
            last_pred: self.last_pred as int,
            in_flight: self.in_flight@.map_values(|c: i64| c as int),
        }
    }
}

impl Default for PhaseLockLoop {
    fn default() -> (r: Self)
        ensures
            r@.config.is_default(),
            r@ == PllState::fresh(r@.config),
            r@.sane(),
    {
        PhaseLockLoop::new()
    }
}

impl PhaseLockLoop {
    /// Creates a loop with the production defaults.
    pub fn new() -> (r: Self)
        ensures
            r@.config.is_default(),
            r@ == PllState::fresh(r@.config),
            r@.sane(),
    {
        PhaseLockLoop::with_config(PhaseLockLoopConfig::default())
    }

    /// Creates a loop with a given configuration.
    pub fn with_config(config: PhaseLockLoopConfig) -> (r: Self)
        ensures
            r@ == PllState::fresh(config),
            r@.wf(),
    {
        let r = PhaseLockLoop {
            config,
            lock_cnt: 0,
            reject_cnt: 0,
            trim_mppb: 0,
            last_pred: 0,
            in_flight: Vec::new(),
        };
        assert(r@.in_flight =~= Seq::empty());
        r
    }

    /// Current configuration.
    pub fn config(&self) -> (r: &PhaseLockLoopConfig)
        ensures
            *r == self@.config,
    {
        &self.config
    }

    /// Switches the active control terms.
    pub fn set_mode(&mut self, mode: LoopMode)
        ensures
            final(self)@ == (PllState {
                config: PhaseLockLoopConfig { mode, ..old(self)@.config },
                ..old(self)@
            }),
    {
        self.config.mode = mode;
    }

    /// Whether the loop is currently locked.
    pub fn is_locked(&self) -> (b: bool)
        ensures
            b == self@.locked(),
    {
        self.lock_cnt >= self.config.lock_hold
    }

    /// Current integrated frequency trim (milli-ppb).
    pub fn freq_trim_mppb(&self) -> (r: i64)
        ensures
            r == self@.trim,
    {
        self.trim_mppb
    }

    /// The sum of the corrections still in flight.
    fn in_flight_ns(&self) -> (r: i64)
        requires
            self@.wf(),
        ensures
            r == total(self@.in_flight),
    {
        let ghost flight = self@.in_flight;
        let mut sum: i64 = 0;
        let mut i: usize = 0;
        while i < self.in_flight.len()
            invariant
                0 <= i <= self.in_flight.len(),
                self@.wf(),
                flight == self@.in_flight,
                flight.len() == self.in_flight.len(),
                flight.len() <= u32::MAX,
                sum == total(flight.take(i as int)),
                magnitude(sum as int) <= 200_000_000 * i,
            decreases self.in_flight.len() - i,
        {
            assert(flight[i as int] == self.in_flight@[i as int]);
            assert(flight.take(i + 1).drop_last() =~= flight.take(i as int));
            assert(flight.take(i + 1).last() == flight[i as int]);
            sum = sum + self.in_flight[i];
            i = i + 1;
        }
        assert(flight.take(i as int) =~= flight);
        sum
    }

    /// Records the correction of an applied edge, dropping the oldest one when the loop delay is
    /// full.
    fn remember(&mut self, corr: i64)
        requires
            old(self)@.wf(),
            magnitude(corr as int) <= 2 * CORR_CLAMP_NS,
        ensures
            final(self)@.wf(),
            final(self)@ == (PllState {
                in_flight: last_of(
                    old(self)@.in_flight.push(corr as int),
                    old(self)@.config.smith_edges as int,
                ),
                ..old(self)@
            }),
    {
        let ghost before = self@.in_flight;
        if self.config.smith_edges == 0 {
            assert(last_of(before.push(corr as int), 0) =~= before);
            return;
        }
        if self.in_flight.len() as u64 == self.config.smith_edges as u64 {
            let _oldest: i64 = self.in_flight.remove(0);
        }
        self.in_flight.push(corr);
        assert(self@.in_flight =~= last_of(
            before.push(corr as int),
            self@.config.smith_edges as int,
        ));
    }

    /// Processes one output edge. `phase_err_ns` is the measured output-vs-reference phase (ns);
    /// `valid` is whether this sample is trustworthy. When it is not, the loop holds its trim and
    /// lock state and emits no correction (holdover).
    pub fn update(&mut self, phase_err_ns: i64, valid: bool) -> (u: PhaseLockLoopUpdate)
        requires
            old(self)@.defined(phase_err_ns as int, valid),
        ensures
            final(self)@ == old(self)@.next(phase_err_ns as int, valid),
            old(self)@.reports(phase_err_ns as int, valid, u),
            final(self)@.wf(),
    {
        let ghost s = self@;
        let ctrl: i64 = phase_err_ns;
        let pred: i64 = if self.config.mode.smith() {
            let flight: i64 = self.in_flight_ns();
            ctrl - flight
        } else {
            ctrl
        };
        let locked = self.is_locked();
        let mut p_corr: i64 = 0;
        let mut d_corr: i64 = 0;
        let mut applied = false;
        let mut rejected_outlier = false;

        if valid {
            if locked && abs_i64(ctrl) > self.config.outlier_ns && self.reject_cnt
                < self.config.outlier_max {
                self.reject_cnt = self.reject_cnt + 1;
                rejected_outlier = true;
            } else {
                assert(s.applies(ctrl as int, valid));
                self.reject_cnt = 0;
                applied = true;
                if self.config.mode.use_i() {
                    if abs_i64(ctrl) < self.config.i_enable_ns {
                        let i_den_eff: i64 = if abs_i64(pred) < self.config.calm_ns {
                            self.config.i_den
                        } else {
                            let shift: u32 = self.config.i_den_disturbed_shift.min(
                                MAX_DISTURBED_SHIFT,
                            );
                            self.config.i_den << shift
                        };
                        proof {
                            lemma_tdiv_in_i64(pred * 1000, i_den_eff as int);
                        }
                        self.trim_mppb =
                        clamp_sym(
                            self.trim_mppb - pred * 1000 / i_den_eff,
                            self.config.trim_max_mppb,
                        );
                    }
                } else {
                    self.trim_mppb = 0;
                }
                if abs_i64(pred) >= self.config.deadband_ns {
                    let kp_inv: i64 = if self.config.kp_inv != 0 {
                        self.config.kp_inv
                    } else {
                        self.config.mode.kp_inv()
                    };
                    proof {
                        lemma_tdiv_in_i64(pred as int, kp_inv as int);
                    }
                    p_corr = clamp_sym(pred / kp_inv, CORR_CLAMP_NS);
                }
                if self.config.mode.use_d() && locked {
                    proof {
                        lemma_tdiv_in_i64(pred - self.last_pred, self.config.d_den as int);
                    }
                    d_corr = clamp_sym((pred - self.last_pred) / self.config.d_den, CORR_CLAMP_NS);
                }
                self.lock_cnt = if abs_i64(ctrl) < self.config.lock_ns {
                    (self.lock_cnt + 1).min(self.config.lock_hold)
                } else {
                    0
                };
                self.last_pred = pred;
                assert(self.trim_mppb == s.next_trim(ctrl as int));
                assert(p_corr == s.p_corr(ctrl as int));
                assert(d_corr == s.d_corr(ctrl as int));
                assert(self@.in_flight == s.in_flight);
                self.remember(p_corr + d_corr);
                assert(self@ == s.next(ctrl as int, valid));
            }
        }
        PhaseLockLoopUpdate {
            applied,
            locked,
            rejected_outlier,
            freq_trim_mppb: self.trim_mppb,
            phase_corr_ns: p_corr + d_corr,
            p_corr_ns: p_corr,
            d_corr_ns: d_corr,
            predicted_phase_ns: pred,
        }
    }
}

impl PhaseController for PhaseLockLoop {
    open spec fn locked(&self) -> bool {
        self@.locked()
    }

    open spec fn step_defined(&self, input: ControlInput) -> bool {
        self@.defined(input.err_ns as int, input.valid)
    }

    open spec fn steps_to(&self, input: ControlInput, out: ControlOutput, after: &Self) -> bool {
        let s = self@;
        let err = input.err_ns as int;
        let applied = s.applies(err, input.valid);
        &&& after@ == s.next(err, input.valid)
        &&& after@.wf()
        &&& out.trim_mppb == after@.trim
        &&& out.pcorr_ns == out.dbg.p_ns + out.dbg.d_ns
        &&& out.applied == applied
        &&& out.locked == s.locked()
        &&& out.rejected == (input.valid && s.spike(err))
        &&& out.dbg.pred_ns == s.predicted(err)
        &&& out.dbg.p_ns == (if applied { s.p_corr(err) } else { 0 })
        &&& out.dbg.d_ns == (if applied { s.d_corr(err) } else { 0 })
        &&& out.dbg.observer_freq_mppb == after@.trim
        &&& out.dbg.state == 0
    }

    open spec fn segment_defined(&self, init: ControlInit) -> bool {
        true
    }

    open spec fn restarts_to(&self, init: ControlInit, after: &Self) -> bool {
        &&& after@ == self@.restarted(init.residual_trim_mppb as int)
        &&& after@.wf()
    }

    fn step(&mut self, input: ControlInput) -> (out: ControlOutput) {
        let u = self.update(input.err_ns, input.valid);
        ControlOutput {
            trim_mppb: u.freq_trim_mppb,
            pcorr_ns: u.phase_corr_ns,
            applied: u.applied,
            locked: u.locked,
            rejected: u.rejected_outlier,
            dbg: ControlDebug {
                pred_ns: u.predicted_phase_ns,
                p_ns: u.p_corr_ns,
                d_ns: u.d_corr_ns,
                observer_freq_mppb: u.freq_trim_mppb,
                state: 0,
            },
        }
    }

    fn is_locked(&self) -> (b: bool) {
        PhaseLockLoop::is_locked(self)
    }

    fn start_segment(&mut self, init: ControlInit) {
        self.trim_mppb = init.residual_trim_mppb;
        self.lock_cnt = 0;
        self.reject_cnt = 0;
        self.last_pred = 0;
        self.in_flight.clear();
        assert(self@.in_flight =~= Seq::empty());
    }
}

/// The state after a run of valid edges.
pub open spec fn after_edges(s: PllState, errs: Seq<int>) -> PllState
    decreases errs.len(),
{
    if errs.len() == 0 {
        s
    } else {
        after_edges(s, errs.drop_last()).next(errs.last(), true)
    }
}

/// The corrections in flight add up to at most their number times the clamp.
proof fn lemma_total_bound(s: Seq<int>)
    requires
        forall|i: int| 0 <= i < s.len() ==> magnitude(#[trigger] s[i]) <= 200_000_000,
    ensures
        magnitude(total(s)) <= 200_000_000 * s.len(),
    decreases s.len(),
{
    if s.len() > 0 {
        assert forall|i: int| 0 <= i < s.drop_last().len() implies magnitude(
            #[trigger] s.drop_last()[i],
        ) <= 200_000_000 by {
            assert(s.drop_last()[i] == s[i]);
        }
        lemma_total_bound(s.drop_last());
        assert(magnitude(s[s.len() - 1]) <= 200_000_000);
    }
}

/// A loop with a sane tuning never overflows: whatever edges of up to 10^15 ns (over a week) it
/// is fed, the next one is defined too.
pub proof fn law_sane_loop_never_overflows(s: PllState, err: int, valid: bool)
    requires
        s.sane(),
        magnitude(err) <= 1_000_000_000_000_000,
    ensures
        s.defined(err, valid),
        s.next(err, valid).sane(),
{
    let pred = s.predicted(err);
    lemma_total_bound(s.in_flight);
    assert(magnitude(pred) <= 1_000_200_000_000_000);
    let den = s.config.integral_den(pred);
    let i_den = s.config.i_den;
    let shift = s.config.disturbed_shift();
    assert(i_den << shift >= 1) by (bit_vector)
        requires
            1 <= i_den <= 0x1_0000_0000,
            shift <= 20,
    ;
    crate::arith::lemma_tdiv_bounds(pred * 1000, den as int);
    let n = s.next(err, valid);
    if s.applies(err, valid) {
        let pushed = s.in_flight.push(s.p_corr(err) + s.d_corr(err));
        let edges = s.config.smith_edges as int;
        let from = if pushed.len() <= edges { 0 } else { pushed.len() - edges };
        assert forall|i: int| 0 <= i < n.in_flight.len() implies magnitude(
            #[trigger] n.in_flight[i],
        ) <= 2 * CORR_CLAMP_NS by {
            assert(n.in_flight[i] == pushed[i + from]);
            if i + from < s.in_flight.len() {
                assert(pushed[i + from] == s.in_flight[i + from]);
            }
        }
    }
}

/// The trim never leaves its clamp once it is inside.
pub proof fn law_trim_stays_clamped(s: PllState, err: int, valid: bool)
    requires
        magnitude(s.trim) <= s.config.trim_max_mppb,
    ensures
        magnitude(s.next(err, valid).trim) <= s.config.trim_max_mppb,
{
}

/// One edge never moves the output by more than the clamp on each of its two terms.
pub proof fn law_correction_is_clamped(s: PllState, err: int, valid: bool, u: PhaseLockLoopUpdate)
    requires
        s.reports(err, valid, u),
    ensures
        magnitude(u.p_corr_ns as int) <= CORR_CLAMP_NS,
        magnitude(u.d_corr_ns as int) <= CORR_CLAMP_NS,
        magnitude(u.phase_corr_ns as int) <= 2 * CORR_CLAMP_NS,
{
}

/// Holdover: an invalid edge changes nothing and corrects nothing, whatever it measured.
pub proof fn law_invalid_edge_holds(s: PllState, err: int, u: PhaseLockLoopUpdate)
    requires
        s.reports(err, false, u),
    ensures
        s.next(err, false) == s,
        !u.applied,
        u.phase_corr_ns == 0,
        u.freq_trim_mppb == s.trim,
{
}

/// A rejected spike corrects nothing and leaves the trim, the lock and the Smith and derivative
/// histories alone, so the next good edge sees none of it.
pub proof fn law_spike_leaves_history(s: PllState, err: int, u: PhaseLockLoopUpdate)
    requires
        s.reports(err, true, u),
        u.rejected_outlier,
    ensures
        !u.applied,
        u.phase_corr_ns == 0,
        s.next(err, true) == (PllState { reject_cnt: s.reject_cnt + 1, ..s }),
        s.next(err, true).predicted(err) == s.predicted(err),
{
}

/// A run of `outlier_max` spikes on a locked loop is held as a whole, and no further edge is held:
/// a persistent disturbance is accepted.
pub proof fn law_persistent_disturbance_is_accepted(s: PllState, errs: Seq<int>, err: int)
    requires
        s.locked(),
        s.reject_cnt == 0,
        errs.len() <= s.config.outlier_max,
        forall|i: int| 0 <= i < errs.len() ==> magnitude(#[trigger] errs[i]) > s.config.outlier_ns,
    ensures
        after_edges(s, errs) == (PllState { reject_cnt: errs.len() as int, ..s }),
        errs.len() == s.config.outlier_max ==> after_edges(s, errs).applies(err, true),
    decreases errs.len(),
{
    if errs.len() > 0 {
        let init = errs.drop_last();
        assert forall|i: int| 0 <= i < init.len() implies magnitude(#[trigger] init[i])
            > s.config.outlier_ns by {
            assert(init[i] == errs[i]);
        }
        law_persistent_disturbance_is_accepted(s, init, err);
        assert(magnitude(errs[errs.len() - 1]) > s.config.outlier_ns);
    }
}

/// Lock takes exactly `lock_hold` consecutive in-window edges from a fresh start.
pub proof fn law_lock_takes_hold_edges(s: PllState, errs: Seq<int>)
    requires
        s.lock_cnt == 0,
        forall|i: int| 0 <= i < errs.len() ==> magnitude(#[trigger] errs[i]) < s.config.lock_ns,
    ensures
        after_edges(s, errs).config == s.config,
        after_edges(s, errs).lock_cnt == smaller(errs.len() as int, s.config.lock_hold as int),
        after_edges(s, errs).locked() <==> errs.len() >= s.config.lock_hold,
    decreases errs.len(),
{
    if errs.len() > 0 {
        let init = errs.drop_last();
        assert forall|i: int| 0 <= i < init.len() implies magnitude(#[trigger] init[i])
            < s.config.lock_ns by {
            assert(init[i] == errs[i]);
        }
        law_lock_takes_hold_edges(s, init);
        assert(magnitude(errs[errs.len() - 1]) < s.config.lock_ns);
    }
}

/// The loop after a run of edges, valid or not, and the errors of those that were applied.
pub open spec fn after_run(s: PllState, edges: Seq<(int, bool)>) -> (PllState, Seq<int>)
    decreases edges.len(),
{
    if edges.len() == 0 {
        (s, Seq::empty())
    } else {
        let (before, applied) = after_run(s, edges.drop_last());
        let (err, valid) = edges.last();
        (
            before.next(err, valid),
            if before.applies(err, valid) {
                applied.push(err)
            } else {
                applied
            },
        )
    }
}

/// How many of the last of a run of errors are inside a window.
pub open spec fn streak(errs: Seq<int>, window: int) -> nat
    decreases errs.len(),
{
    if errs.len() == 0 || magnitude(errs.last()) >= window {
        0
    } else {
        1 + streak(errs.drop_last(), window)
    }
}

/// A streak is at least `n` long if and only if there are `n` errors at the end, all inside.
proof fn lemma_streak(errs: Seq<int>, window: int, n: int)
    requires
        n >= 0,
    ensures
        streak(errs, window) >= n <==> errs.len() >= n && forall|i: int|
            errs.len() - n <= i < errs.len() ==> magnitude(#[trigger] errs[i]) < window,
    decreases errs.len(),
{
    if errs.len() > 0 && n > 0 {
        let init = errs.drop_last();
        lemma_streak(init, window, n - 1);
        let last = errs.len() - 1;
        assert(errs.last() == errs[last]);
        if streak(errs, window) >= n {
            assert forall|i: int| errs.len() - n <= i < errs.len() implies magnitude(
                #[trigger] errs[i],
            ) < window by {
                if i < last {
                    assert(init[i] == errs[i]);
                }
            }
        }
        if errs.len() >= n && (forall|i: int|
            errs.len() - n <= i < errs.len() ==> magnitude(#[trigger] errs[i]) < window) {
            assert(magnitude(errs[last]) < window);
            assert forall|i: int| init.len() - (n - 1) <= i < init.len() implies magnitude(
                #[trigger] init[i],
            ) < window by {
                assert(init[i] == errs[i]);
            }
        }
    }
}

/// The lock counter follows the streak of applied in-window edges.
proof fn lemma_lock_follows_streak(s: PllState, edges: Seq<(int, bool)>)
    requires
        s.lock_cnt == 0,
    ensures
        ({
            let (after, applied) = after_run(s, edges);
            &&& after.config == s.config
            &&& after.lock_cnt == smaller(
                streak(applied, s.config.lock_ns as int) as int,
                s.config.lock_hold as int,
            )
        }),
    decreases edges.len(),
{
    if edges.len() > 0 {
        lemma_lock_follows_streak(s, edges.drop_last());
        let (before, applied) = after_run(s, edges.drop_last());
        let (err, valid) = edges.last();
        assert(applied.push(err).drop_last() =~= applied);
    }
}

/// From a fresh start the loop is locked if and only if at least `lock_hold` edges were applied and
/// the last `lock_hold` of them were all inside the lock window. Edges that were not applied, being
/// invalid or held as spikes, neither help nor hurt.
pub proof fn law_locked_iff_last_edges_in_window(s: PllState, edges: Seq<(int, bool)>)
    requires
        s.lock_cnt == 0,
    ensures
        ({
            let (after, applied) = after_run(s, edges);
            let hold = s.config.lock_hold as int;
            after.locked() <==> applied.len() >= hold && forall|i: int|
                applied.len() - hold <= i < applied.len() ==> magnitude(#[trigger] applied[i])
                    < s.config.lock_ns
        }),
{
    lemma_lock_follows_streak(s, edges);
    let (after, applied) = after_run(s, edges);
    lemma_streak(applied, s.config.lock_ns as int, s.config.lock_hold as int);
}

/// A fair switch: a fresh segment is unlocked, and its first edge on zero error emits exactly the
/// seed with no phase kick.
pub proof fn law_segment_starts_continuous(s: PllState, seed: int, u: PhaseLockLoopUpdate)
    requires
        s.config.mode.integral(),
        s.config.integral_den(0) != 0,
        magnitude(seed) <= s.config.trim_max_mppb,
        s.config.lock_hold > 0,
        s.restarted(seed).reports(0, true, u),
    ensures
        !s.restarted(seed).locked(),
        u.applied,
        u.freq_trim_mppb == seed,
        u.phase_corr_ns == 0,
{
    crate::arith::lemma_tdiv_shrinks(0, s.config.integral_den(0) as int);
    crate::arith::lemma_tdiv_shrinks(0, s.config.gain_inv());
}

/// A correction `c` of a phase `x` by an inverse gain `k`: the quotient `tdiv(x, k)` inside the
/// clamp.
pub proof fn lemma_clamped_quotient(x: int, k: int)
    requires
        k != 0,
    ensures
        ({
            let c = bounded(tdiv(x, k), 100_000_000);
            &&& x >= 0 ==> 0 <= k * c <= x
            &&& x <= 0 ==> x <= k * c <= 0
            &&& -100_000_000 <= c <= 100_000_000
            &&& -100_000_000 < c < 100_000_000 && k > 0 ==> -k < x - k * c < k
            &&& -100_000_000 < c < 100_000_000 && k < 0 ==> k < x - k * c < -k
        }),
{
    crate::arith::law_quotient_is_truncated(x, k);
    let t = tdiv(x, k);
    let c = bounded(t, 100_000_000);
    assert((x >= 0 ==> 0 <= k * c <= x) && (x <= 0 ==> x <= k * c <= 0)) by (nonlinear_arith)
        requires
            k != 0,
            x >= 0 ==> 0 <= k * t <= x,
            x <= 0 ==> x <= k * t <= 0,
            c == t || (c == 100_000_000 && t > c) || (c == -100_000_000 && t < c),
    ;
}

/// The derivative correction of a locked loop follows the change of the predicted phase since the
/// last applied edge: it has the sign of that change, and `d_den` times it falls short of the change
/// by less than `d_den`, unless it is at its clamp of 0.1 s. (A negative `d_den` turns the sign of
/// the correction, not of the product.) Without a lock, or without the term, there is none.
pub proof fn law_derivative_follows_the_change(s: PllState, err: int, u: PhaseLockLoopUpdate)
    requires
        s.reports(err, true, u),
        u.applied,
        s.config.d_den != 0,
    ensures
        ({
            let change = u.predicted_phase_ns - s.last_pred;
            let d = u.d_corr_ns;
            if s.lock_cnt >= s.config.lock_hold && (s.config.mode is Pd || s.config.mode is Pid
                || s.config.mode is PidSmith) {
                &&& change >= 0 ==> 0 <= s.config.d_den * d <= change
                &&& change <= 0 ==> change <= s.config.d_den * d <= 0
                &&& -100_000_000 <= d <= 100_000_000
                &&& -100_000_000 < d < 100_000_000 && s.config.d_den > 0 ==> -s.config.d_den < change
                    - s.config.d_den * d < s.config.d_den
                &&& -100_000_000 < d < 100_000_000 && s.config.d_den < 0 ==> s.config.d_den < change
                    - s.config.d_den * d < -s.config.d_den
            } else {
                d == 0
            }
        }),
{
    lemma_clamped_quotient(u.predicted_phase_ns - s.last_pred, s.config.d_den as int);
}

/// The proportional correction opposes the predicted phase: it has the phase's sign, and the inverse
/// gain times it falls short of the phase by less than the inverse gain, unless it is at its clamp
/// of 0.1 s. Inside the deadband there is none. A gain of 0 stands for 1/8 with the Smith predictor
/// and 1/16 without.
pub proof fn law_proportional_follows_the_phase(s: PllState, err: int, u: PhaseLockLoopUpdate)
    requires
        s.reports(err, true, u),
        u.applied,
    ensures
        ({
            let pred = u.predicted_phase_ns;
            let p = u.p_corr_ns;
            let k = if s.config.kp_inv != 0 {
                s.config.kp_inv as int
            } else if s.config.mode is PidSmith {
                8
            } else {
                16
            };
            if -s.config.deadband_ns < pred < s.config.deadband_ns {
                p == 0
            } else {
                &&& pred >= 0 ==> 0 <= k * p <= pred
                &&& pred <= 0 ==> pred <= k * p <= 0
                &&& -100_000_000 <= p <= 100_000_000
                &&& -100_000_000 < p < 100_000_000 && k > 0 ==> -k < pred - k * p < k
                &&& -100_000_000 < p < 100_000_000 && k < 0 ==> k < pred - k * p < -k
            }
        }),
{
    lemma_clamped_quotient(u.predicted_phase_ns as int, s.config.gain_inv());
}

/// The phase correction is the sum of its two terms, and an edge that is not applied has neither.
pub proof fn law_correction_is_the_sum_of_its_terms(
    s: PllState,
    err: int,
    valid: bool,
    u: PhaseLockLoopUpdate,
)
    requires
        s.reports(err, valid, u),
    ensures
        u.phase_corr_ns == u.p_corr_ns + u.d_corr_ns,
        !u.applied ==> u.p_corr_ns == 0 && u.d_corr_ns == 0,
{
}

/// The integral works against the predicted phase. Inside the enable band, `q` being the phase in
/// picoseconds divided by the denominator in force, the trim is lowered by `q` and then held within
/// its clamp; the denominator is `i_den` in the calm band and `i_den` times a power of two outside.
/// Beyond the enable band the trim stays, and without the term it is 0.
pub proof fn law_integral_opposes_the_phase(
    s: PllState,
    err: int,
    u: PhaseLockLoopUpdate,
    den: int,
    q: int,
)
    requires
        s.reports(err, true, u),
        u.applied,
        s.config.i_den > 0,
        den <= i64::MAX,
        s.config.trim_max_mppb >= 0,
        den == (if -s.config.calm_ns < u.predicted_phase_ns < s.config.calm_ns {
            s.config.i_den as int
        } else if s.config.i_den_disturbed_shift < 20 {
            s.config.i_den * pow2(s.config.i_den_disturbed_shift as nat)
        } else {
            s.config.i_den * pow2(20)
        }),
        u.predicted_phase_ns >= 0 ==> den * q <= u.predicted_phase_ns * 1000 < den * q + den,
        u.predicted_phase_ns < 0 ==> den * q - den < u.predicted_phase_ns * 1000 <= den * q,
    ensures
        ({
            let top = s.config.trim_max_mppb as int;
            if s.config.mode is P || s.config.mode is Pd {
                u.freq_trim_mppb == 0
            } else if -s.config.i_enable_ns < err < s.config.i_enable_ns {
                &&& -top <= s.trim - q <= top ==> u.freq_trim_mppb == s.trim - q
                &&& s.trim - q > top ==> u.freq_trim_mppb == top
                &&& s.trim - q < -top ==> u.freq_trim_mppb == -top
            } else {
                u.freq_trim_mppb == s.trim
            }
        }),
        u.freq_trim_mppb == s.next(err, true).trim,
{
    let i_den = s.config.i_den;
    let shift = s.config.disturbed_shift();
    let wide = i_den as u64;
    let by = shift as u64;
    let moved = i_den << shift;
    let wide_moved = wide << by;
    assert(moved as u64 == wide_moved && wide == i_den && by == shift && by <= 20 && (wide_moved
        <= 0x7fff_ffff_ffff_ffff ==> moved == wide_moved)) by (bit_vector)
        requires
            1 <= i_den,
            shift <= 20,
            wide == i_den as u64,
            by == shift as u64,
            moved == i_den << shift,
            wide_moved == wide << by,
    ;
    vstd::arithmetic::power2::lemma_pow2_pos(by as nat);
    let p = pow2(by as nat) as int;
    assert(1 <= i_den * p) by (nonlinear_arith)
        requires
            1 <= i_den,
            1 <= p,
    ;
    if i_den * p <= i64::MAX {
        vstd::bits::lemma_u64_shl_is_mul(wide, by);
    }
    assert(den == s.config.integral_den(u.predicted_phase_ns as int));
    crate::arith::lemma_tdiv_unique(u.predicted_phase_ns * 1000, den, q);
}

/// The Smith predictor subtracts every correction that is still in flight: with none it predicts
/// the measured phase, and each further one lowers the prediction by itself. The other modes act on
/// the measured phase.
pub proof fn law_prediction_subtracts_what_is_in_flight(s: PllState, corr: int, err: int)
    ensures
        !(s.config.mode is PidSmith) ==> s.predicted(err) == err,
        s.in_flight.len() == 0 ==> s.predicted(err) == err,
        s.config.mode is PidSmith ==> (PllState { in_flight: s.in_flight.push(corr), ..s }).predicted(
            err,
        ) == s.predicted(err) - corr,
{
    assert(s.in_flight.push(corr).drop_last() =~= s.in_flight);
}

/// An applied edge puts its own correction in flight and keeps the `smith_edges` newest; no other
/// edge changes what is in flight.
pub proof fn law_newest_corrections_are_in_flight(
    s: PllState,
    err: int,
    valid: bool,
    u: PhaseLockLoopUpdate,
)
    requires
        s.wf(),
        s.reports(err, valid, u),
    ensures
        ({
            let before = s.in_flight;
            let after = s.next(err, valid).in_flight;
            if u.applied {
                &&& after.len() == before.len() + 1 || (after.len() == before.len() && after.len()
                    == s.config.smith_edges)
                &&& after.len() <= s.config.smith_edges
                &&& after.len() > 0 ==> after.last() == u.phase_corr_ns
                &&& forall|k: int|
                    1 <= k < after.len() ==> #[trigger] after[after.len() - 1 - k]
                        == before[before.len() - k]
            } else {
                after == before
            }
        }),
{
}

/// With a loop delay of one edge, the next edge is predicted with the last correction taken off.
pub proof fn law_next_edge_sees_the_last_correction(
    s: PllState,
    err: int,
    u: PhaseLockLoopUpdate,
    next_err: int,
    next: PhaseLockLoopUpdate,
)
    requires
        s.wf(),
        s.config.smith_edges == 1,
        s.config.mode is PidSmith,
        s.reports(err, true, u),
        u.applied,
        s.next(err, true).reports(next_err, true, next),
    ensures
        next.predicted_phase_ns == next_err - u.phase_corr_ns,
{
    let n = s.next(err, true).in_flight;
    assert(n =~= seq![u.phase_corr_ns as int]);
    assert(n.drop_last() =~= Seq::<int>::empty());
    assert(total(Seq::<int>::empty()) == 0);
    assert(total(n) == total(n.drop_last()) + n.last());
}

/// An edge is held as a spike if and only if the loop is locked, the phase is beyond the threshold
/// on either side, and no more than the allowed number were held in a row; every other valid edge
/// is applied.
pub proof fn law_spike_is_held_on_either_side(s: PllState, err: int, u: PhaseLockLoopUpdate)
    requires
        s.reports(err, true, u),
    ensures
        u.locked <==> s.lock_cnt >= s.config.lock_hold,
        u.rejected_outlier <==> s.lock_cnt >= s.config.lock_hold && (err > s.config.outlier_ns || err
            < -s.config.outlier_ns) && s.reject_cnt < s.config.outlier_max,
        u.applied <==> !u.rejected_outlier,
{
}

/// An applied edge inside the lock window, on either side, counts toward the lock; one outside
/// loses it.
pub proof fn law_lock_counts_edges_in_the_window(s: PllState, err: int)
    requires
        s.applies(err, true),
        0 <= s.lock_cnt <= s.config.lock_hold,
    ensures
        -s.config.lock_ns < err < s.config.lock_ns && s.lock_cnt < s.config.lock_hold ==> s.next(
            err,
            true,
        ).lock_cnt == s.lock_cnt + 1,
        -s.config.lock_ns < err < s.config.lock_ns && s.lock_cnt == s.config.lock_hold ==> s.next(
            err,
            true,
        ).lock_cnt == s.lock_cnt,
        err >= s.config.lock_ns || err <= -s.config.lock_ns ==> s.next(err, true).lock_cnt == 0,
        s.next(err, true).reject_cnt == 0,
        s.next(err, true).last_pred == s.predicted(err),
{
}

/// Corrections of zero add up to nothing.
proof fn lemma_total_of_zeros(s: Seq<int>)
    requires
        forall|i: int| 0 <= i < s.len() ==> #[trigger] s[i] == 0,
    ensures
        total(s) == 0,
    decreases s.len(),
{
    if s.len() > 0 {
        assert forall|i: int| 0 <= i < s.drop_last().len() implies #[trigger] s.drop_last()[i]
            == 0 by {
            assert(s.drop_last()[i] == s[i]);
        }
        lemma_total_of_zeros(s.drop_last());
        assert(s.last() == s[s.len() - 1]);
    }
}

/// A settled loop pulls a drifting output back: from a phase of zero with nothing in flight, a late
/// edge is corrected by a non-negative amount with no raised trim, and an early edge by a
/// non-positive amount with no lowered trim.
pub proof fn law_settled_loop_pulls_back(s: PllState, err: int, u: PhaseLockLoopUpdate)
    requires
        s.reports(err, true, u),
        u.applied,
        s.last_pred == 0,
        forall|i: int| 0 <= i < s.in_flight.len() ==> #[trigger] s.in_flight[i] == 0,
        s.config.d_den > 0,
        s.config.kp_inv >= 0,
        1 <= s.config.i_den <= 0x1_0000_0000,
        !(s.config.mode is P || s.config.mode is Pd) ==> -s.config.trim_max_mppb <= s.trim
            <= s.config.trim_max_mppb,
        s.config.mode is P || s.config.mode is Pd ==> s.trim == 0,
    ensures
        u.predicted_phase_ns == err,
        err >= 0 ==> u.phase_corr_ns >= 0 && u.freq_trim_mppb <= s.trim,
        err <= 0 ==> u.phase_corr_ns <= 0 && u.freq_trim_mppb >= s.trim,
{
    lemma_total_of_zeros(s.in_flight);
    lemma_clamped_quotient(err, s.config.d_den as int);
    lemma_clamped_quotient(err, s.config.gain_inv());
    let (k, p) = (s.config.gain_inv(), s.p_corr(err));
    let (dd, d) = (s.config.d_den as int, s.d_corr(err));
    assert((k * p >= 0 ==> p >= 0) && (k * p <= 0 ==> p <= 0)) by (nonlinear_arith)
        requires
            k > 0,
    ;
    assert((dd * d >= 0 ==> d >= 0) && (dd * d <= 0 ==> d <= 0)) by (nonlinear_arith)
        requires
            dd > 0,
    ;
    let i_den = s.config.i_den;
    let shift = s.config.disturbed_shift();
    assert(i_den << shift >= 1) by (bit_vector)
        requires
            1 <= i_den <= 0x1_0000_0000,
            shift <= 20,
    ;
    crate::arith::lemma_tdiv_bounds(err * 1000, s.config.integral_den(err) as int);
}

/// As a phase controller the loop does what [`PhaseLockLoop::update`] does, and hands all of it on.
pub proof fn law_step_hands_on_the_update(
    c: PhaseLockLoop,
    input: ControlInput,
    out: ControlOutput,
    after: PhaseLockLoop,
    u: PhaseLockLoopUpdate,
)
    requires
        c.steps_to(input, out, &after),
        c@.reports(input.err_ns as int, input.valid, u),
    ensures
        after@ == c@.next(input.err_ns as int, input.valid),
        out.trim_mppb == u.freq_trim_mppb,
        out.pcorr_ns == u.phase_corr_ns,
        out.applied == u.applied,
        out.locked == u.locked,
        out.rejected == u.rejected_outlier,
        out.dbg.pred_ns == u.predicted_phase_ns,
        out.dbg.p_ns == u.p_corr_ns,
        out.dbg.d_ns == u.d_corr_ns,
        out.dbg.observer_freq_mppb == u.freq_trim_mppb,
        out.dbg.state == 0,
{
}

/// A fresh loop, and a fresh segment, have no lock, no spike held, no phase and nothing in flight;
/// the one has no trim and the other its seed.
pub proof fn law_fresh_loop_is_blank(s: PllState, seed: int)
    ensures
        ({
            let f = PllState::fresh(s.config);
            let r = s.restarted(seed);
            &&& f.config == s.config && r.config == s.config
            &&& f.trim == 0 && r.trim == seed
            &&& f.lock_cnt == 0 && r.lock_cnt == 0
            &&& f.reject_cnt == 0 && r.reject_cnt == 0
            &&& f.last_pred == 0 && r.last_pred == 0
            &&& f.in_flight.len() == 0 && r.in_flight.len() == 0
        }),
{
}

/// The production tuning: a lock of five edges within 1 us, spikes beyond 3 us held up to twelve
/// times, an integral of 1/128 within 5 us, a derivative of 1/4, a trim of at most 3 ppm either way, one edge of delay, and no deadband and no adaptation.
pub proof fn law_default_tuning(c: PhaseLockLoopConfig, naive: PhaseLockLoopConfig)
    requires
        call_ensures(PhaseLockLoopConfig::default, (), c),
        call_ensures(PhaseLockLoopConfig::naive_pid, (), naive),
    ensures
        c.mode is PidSmith && naive.mode is Pid,
        naive == (PhaseLockLoopConfig { mode: LoopMode::Pid, ..c }),
        c.lock_ns == 1_000 && c.lock_hold == 5,
        c.outlier_ns == 3_000 && c.outlier_max == 12,
        c.i_den == 128 && c.i_enable_ns == 5_000 && c.trim_max_mppb == 3_000_000,
        c.d_den == 4 && c.kp_inv == 0 && c.smith_edges == 1,
        c.deadband_ns == 0 && c.calm_ns == 1_000 && c.i_den_disturbed_shift == 0,
{
}

} // verus!
