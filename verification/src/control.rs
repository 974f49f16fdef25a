//! A pluggable output-phase **controller** abstraction.
//!
//! Several discipline strategies can be selected and compared under matched conditions only if
//! each is the same kind of object on the same plant input: a pure phase servo that consumes a
//! measured phase error and emits a *residual* frequency trim (milli-ppb, added on top of the
//! crystal feedforward) and an immediate phase correction (ns).
//!
//! The crystal feedforward and the PRBS identification signal live outside the controller.

use vstd::prelude::*;

verus! {

/// One output edge's input to a [`PhaseController`].
#[derive(Debug, Clone, Copy, PartialEq, Eq, Structural)]
pub struct ControlInput {
    /// Measured output-vs-reference phase error (ns).
    pub err_ns: i64,
    /// Whether this sample is trustworthy (reference fresh, interval sane). When false the
    /// controller emits no correction (holdover).
    pub valid: bool,
}

/// Per-controller telemetry. Logged for analysis; actuation uses only
/// [`ControlOutput::trim_mppb`] and [`ControlOutput::pcorr_ns`].
#[derive(Debug, Clone, Copy, PartialEq, Eq, Structural)]
pub struct ControlDebug {
    /// The control input the strategy acted on (e.g. the Smith-predicted phase), ns.
    pub pred_ns: i64,
    /// Proportional-equivalent component of `pcorr_ns` (ns).
    pub p_ns: i64,
    /// Derivative-equivalent component of `pcorr_ns` (ns).
    pub d_ns: i64,
    /// The controller's internal residual frequency estimate (milli-ppb) if it keeps one, else 0.
    pub observer_freq_mppb: i64,
    /// Strategy-specific state code. 0 = nominal.
    pub state: u8,
}

impl Default for ControlDebug {
    fn default() -> (r: Self)
        ensures
            r.pred_ns == 0,
            r.p_ns == 0,
            r.d_ns == 0,
            r.observer_freq_mppb == 0,
            r.state == 0,
    {
        ControlDebug { pred_ns: 0, p_ns: 0, d_ns: 0, observer_freq_mppb: 0, state: 0 }
    }
}

/// Result of [`PhaseController::step`]. The caller forms the output period from `trim_mppb`
/// (added to the crystal feedforward) and `pcorr_ns`; the rest is telemetry.
#[derive(Debug, Clone, Copy, PartialEq, Eq, Structural)]
pub struct ControlOutput {
    /// Residual frequency trim (milli-ppb) to add to the crystal feedforward.
    pub trim_mppb: i64,
    /// Immediate phase correction (ns) to subtract from this period.
    pub pcorr_ns: i64,
    /// Whether this edge was applied (false if invalid or rejected as an outlier).
    pub applied: bool,
    /// Lock state used for this edge's control decisions.
    pub locked: bool,
    /// Whether this edge was held as an outlier (no correction).
    pub rejected: bool,
    /// Telemetry (not used for actuation).
    pub dbg: ControlDebug,
}

/// Fair start-of-segment seed for switching controllers mid-run.
///
/// The caller hands the next controller the residual trim that keeps `feedforward + trim`
/// unchanged, and every per-edge history is blanked, so the output frequency is continuous and
/// the first correction starts from zero.
#[derive(Debug, Clone, Copy, PartialEq, Eq, Structural)]
pub struct ControlInit {
    /// Initial residual frequency trim (milli-ppb).
    pub residual_trim_mppb: i64,
}

impl Default for ControlInit {
    fn default() -> (r: Self)
        ensures
            r.residual_trim_mppb == 0,
    {
        ControlInit { residual_trim_mppb: 0 }
    }
}

/// A pluggable output-phase discipline strategy: an integer-only phase servo on top of the shared
/// crystal feedforward.
///
/// The specification functions let each strategy say what its state is, on which inputs its
/// arithmetic stays within the machine integers, and which state and output follow an edge.
pub trait PhaseController {
    /// Whether the controller counts as locked in this state.
    spec fn locked(&self) -> bool;

    /// Whether every intermediate value of a [`step`](Self::step) on `input` is representable.
    spec fn step_defined(&self, input: ControlInput) -> bool;

    /// Whether an edge `input` in this state leads to the state `after` with the output `out`.
    spec fn steps_to(&self, input: ControlInput, out: ControlOutput, after: &Self) -> bool;

    /// Whether a segment can be seeded with `init`.
    spec fn segment_defined(&self, init: ControlInit) -> bool;

    /// Whether seeding a segment with `init` in this state leads to the state `after`.
    spec fn restarts_to(&self, init: ControlInit, after: &Self) -> bool;

    /// Processes one output edge and returns the two actuator values plus telemetry. An edge that
    /// is not applied, because it is invalid or was rejected as an outlier, moves nothing.
    fn step(&mut self, input: ControlInput) -> (out: ControlOutput)
        requires
            old(self).step_defined(input),
        ensures
            old(self).steps_to(input, out, final(self)),
            out.locked == old(self).locked(),
            out.applied ==> input.valid,
            out.rejected ==> input.valid && !out.applied,
            !out.applied ==> out.pcorr_ns == 0,
    ;

    /// Whether the controller is currently locked.
    fn is_locked(&self) -> (b: bool)
        ensures
            b == self.locked(),
    ;

    /// Re-seeds for a fresh comparison segment (a fair cross-controller switch).
    fn start_segment(&mut self, init: ControlInit)
        requires
            old(self).segment_defined(init),
        ensures
            old(self).restarts_to(init, final(self)),
    ;
}

} // verus!
