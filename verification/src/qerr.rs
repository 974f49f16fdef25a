//! Correction of PPS measurements by the **quantization error** (qErr) that timing receivers
//! report with each pulse.
//!
//! The receiver can place a pulse only on its own clock's grid, so the pulse is off the ideal
//! second by a sawtooth of up to half a grid period. Convention: the corrected edge time is the
//! measured edge time less qErr; the interval between two edges is corrected by the difference of
//! their errors. qErr is in ps, times and intervals are in ns; a difference is taken in ps before
//! it is rounded to ns.

use vstd::prelude::*;

verus! {

use crate::arith::tdiv;

/// `ps` picoseconds in ns, rounded to the nearest with a half away from zero.
pub open spec fn rounded_ns(ps: int) -> int {
    if ps >= 0 {
        tdiv(ps + 500, 1000)
    } else {
        tdiv(ps - 500, 1000)
    }
}

/// Rounds ps to ns (a half away from zero).
pub fn ps_to_ns_round(ps: i64) -> (r: i64)
    requires
        i64::MIN + 500 <= ps <= i64::MAX - 500,
    ensures
        r == rounded_ns(ps as int),
{
    let bias: i64 = if ps >= 0 {
        500
    } else {
        -500
    };
    (ps + bias) / 1000
}

/// Corrects a raw PPS phase (ns) by qErr (ps): corrected = raw - qErr.
pub fn correct_phase_ns(raw_phase_ns: i64, qerr_ps: i32) -> (r: i64)
    requires
        i64::MIN <= raw_phase_ns - rounded_ns(qerr_ps as int) <= i64::MAX,
    ensures
        r == raw_phase_ns - rounded_ns(qerr_ps as int),
{
    raw_phase_ns - ps_to_ns_round(qerr_ps as i64)
}

/// Corrects the interval between consecutive PPS edges (ns) by the errors of the previous and the
/// current edge (ps). The difference is rounded, not each error by itself.
pub fn correct_interval_ns(raw_interval_ns: i64, qerr_prev_ps: i32, qerr_now_ps: i32) -> (r: i64)
    requires
        i64::MIN <= raw_interval_ns - rounded_ns(qerr_now_ps - qerr_prev_ps) <= i64::MAX,
    ensures
        r == raw_interval_ns - rounded_ns(qerr_now_ps - qerr_prev_ps),
{
    raw_interval_ns - ps_to_ns_round(qerr_now_ps as i64 - qerr_prev_ps as i64)
}

/// Corrects consecutive PPS intervals, remembering the previous edge's error.
#[derive(Debug, Clone, Copy)]
pub struct QErrCorrector {
    prev_qerr_ps: Option<i32>,
}

impl View for QErrCorrector {
    type V = Option<i32>;

    /// The previous edge's error, if there was one.
    closed spec fn view(&self) -> Option<i32> {
        self.prev_qerr_ps
    }
}

/// The interval as corrected after an edge with the error `prev`, if there was one.
pub open spec fn corrected_interval(raw: int, prev: Option<i32>, now: i32) -> int {
    match prev {
        Some(p) => raw - rounded_ns(now - p),
        None => raw,
    }
}

impl Default for QErrCorrector {
    fn default() -> (r: Self)
        ensures
            r@ is None,
    {
        QErrCorrector::new()
    }
}

impl QErrCorrector {
    /// A new corrector with no previous error.
    pub fn new() -> (r: Self)
        ensures
            r@ is None,
    {
        QErrCorrector { prev_qerr_ps: None }
    }

    /// Corrects a raw interval (ns) by the change in error from the previous edge to this one, and
    /// records this edge's error. The first edge's interval is returned as it is.
    pub fn correct_interval_ns(&mut self, raw_interval_ns: i64, qerr_now_ps: i32) -> (r: i64)
        requires
            i64::MIN <= corrected_interval(raw_interval_ns as int, old(self)@, qerr_now_ps)
                <= i64::MAX,
        ensures
            r == corrected_interval(raw_interval_ns as int, old(self)@, qerr_now_ps),
            final(self)@ == Some(qerr_now_ps),
    {
        let corrected: i64 = match self.prev_qerr_ps {
            Some(prev) => correct_interval_ns(raw_interval_ns, prev, qerr_now_ps),
            None => raw_interval_ns,
        };
        self.prev_qerr_ps = Some(qerr_now_ps);
        corrected
    }

    /// Forgets the previous error: the next edge returns its raw interval.
    pub fn reset(&mut self)
        ensures
            final(self)@ is None,
    {
        self.prev_qerr_ps = None;
    }
}

/// A constant error leaves every interval alone: a fixed offset has no frequency.
pub proof fn law_constant_error_leaves_interval(raw: int, qerr: i32)
    ensures
        corrected_interval(raw, Some(qerr), qerr) == raw,
{
}

/// Rounding is off by at most half a nanosecond.
pub proof fn law_rounding_is_nearest(ps: int)
    ensures
        -500 <= 1000 * rounded_ns(ps) - ps <= 500,
{
}

/// Correcting an interval agrees with correcting the two edges' times, up to the rounding of each.
pub proof fn law_interval_matches_edges(t1: int, q1: i32, t2: int, q2: i32)
    ensures
        ({
            let by_edges = (t2 - rounded_ns(q2 as int)) - (t1 - rounded_ns(q1 as int));
            -1 <= corrected_interval(t2 - t1, Some(q1), q2) - by_edges <= 1
        }),
{
}

/// Rounding keeps the sign, and takes a half away from zero.
pub proof fn law_half_rounds_away_from_zero(ps: int)
    ensures
        rounded_ns(-ps) == -rounded_ns(ps),
        ps > 0 ==> 1000 * rounded_ns(ps) - ps > -500,
{
}

/// An interval is shortened by what the error grew from the one edge to the next, to the nearest
/// nanosecond; the first edge has no interval to correct.
pub proof fn law_interval_loses_the_growth_of_the_error(raw: int, prev: i32, now: i32)
    ensures
        -500 <= 1000 * (raw - corrected_interval(raw, Some(prev), now)) - (now - prev) <= 500,
        corrected_interval(raw, None, now) == raw,
{
}

/// A phase loses the error of its pulse, to the nearest nanosecond; an interval loses what the error
/// grew by, which is rounded once.
pub proof fn law_correction_takes_the_error_off(
    raw: i64,
    prev: i32,
    now: i32,
    phase: i64,
    interval: i64,
)
    requires
        call_ensures(correct_phase_ns, (raw, now), phase),
        call_ensures(correct_interval_ns, (raw, prev, now), interval),
    ensures
        -500 <= 1000 * (raw - phase) - now <= 500,
        -500 <= 1000 * (raw - interval) - (now - prev) <= 500,
{
}

} // verus!
