//! Tracking of the PPS (pulse-per-second) edge stream.
//!
//! A GNSS PPS is ideally exactly 1 Hz. From the sequence of received rising-edge timestamps, this
//! classifies lock (about 1 s), missed pulses, and glitches or jitter. A timestamp is just a
//! microsecond `u64`.

use vstd::prelude::*;
use crate::nonzero::NonZeroU64;

verus! {

use crate::arith::magnitude;

/// Nominal PPS interval (1 second = 1_000_000 us). Default for a 1 Hz PPS.
pub const NOMINAL_US: u64 = 1_000_000;

/// Default lock tolerance (50 ms either way). Beyond this is a missed pulse or a glitch.
pub const TOLERANCE_US: u64 = 50_000;

/// Configuration for [`PpsTracker`]. `Default` is 1 Hz with a tolerance of 50 ms.
#[derive(Debug)]
pub struct PpsTrackerConfig {
    /// Nominal PPS interval (us). 1_000_000 for 1 Hz.
    pub nominal_us: NonZeroU64,
    /// Lock tolerance (us), widened by the multiple on misses. 0 is valid too: only an exact
    /// nominal interval locks then.
    pub tolerance_us: u64,
}

impl Default for PpsTrackerConfig {
    fn default() -> (r: Self)
        ensures
            r.nominal_us@ == NOMINAL_US,
            r.tolerance_us == TOLERANCE_US,
    {
        PpsTrackerConfig {
            nominal_us: NonZeroU64::new(NOMINAL_US).unwrap(),
            tolerance_us: TOLERANCE_US,
        }
    }
}

/// Result of recording one edge.
#[derive(Debug, Clone, Copy, PartialEq, Eq, Structural)]
pub enum PpsEvent {
    /// First edge (interval not yet known).
    First,
    /// Nominal interval within tolerance. Stable lock.
    Locked { interval_us: u64 },
    /// Off-nominal. `missed` is the estimated number of dropped pulses (0 for a glitch/jitter).
    Irregular { interval_us: u64, missed: u32 },
    /// The input timestamp went backwards (timer wrap, out-of-order, reset) by `backwards_us`. No
    /// interval can be measured; tracking resumes from this edge.
    NonMonotonic { backwards_us: u64 },
}

/// The integer nearest to `interval / nominal`, with a half rounded up.
pub open spec fn nearest_multiple(interval: int, nominal: int) -> int {
    (interval + nominal / 2) / nominal
}

/// How an edge `interval` after the previous one is classified, for a nominal interval and a
/// tolerance that widens with the number of nominal intervals.
pub open spec fn classify_interval(interval: u64, nominal: u64, tolerance: u64) -> PpsEvent {
    let n = nearest_multiple(interval as int, nominal as int);
    if n >= 1 && magnitude(interval - n * nominal) <= tolerance * n {
        if n == 1 {
            PpsEvent::Locked { interval_us: interval }
        } else {
            PpsEvent::Irregular { interval_us: interval, missed: (n - 1) as u32 }
        }
    } else {
        PpsEvent::Irregular { interval_us: interval, missed: 0 }
    }
}

/// State machine over the PPS edge stream.
#[derive(Debug)]
pub struct PpsTracker {
    config: PpsTrackerConfig,
    last_us: Option<u64>,
    count: u32,
}

/// The mathematical state of a [`PpsTracker`].
pub struct TrackerState {
    /// The configuration.
    pub config: PpsTrackerConfig,
    /// The previous edge's time, if there was one.
    pub last_us: Option<u64>,
    /// Edges recorded.
    pub count: int,
}

impl TrackerState {
    /// The state of a tracker that has seen no edge.
    pub open spec fn fresh(config: PpsTrackerConfig) -> TrackerState {
        TrackerState { config, last_us: None, count: 0 }
    }

    /// How an edge at `now` is classified.
    pub open spec fn classifies(self, now: u64) -> PpsEvent {
        match self.last_us {
            None => PpsEvent::First,
            Some(prev) => if now < prev {
                PpsEvent::NonMonotonic { backwards_us: (prev - now) as u64 }
            } else {
                classify_interval(
                    (now - prev) as u64,
                    self.config.nominal_us@,
                    self.config.tolerance_us,
                )
            },
        }
    }

    /// The state after an edge at `now`: whatever its class, the next interval counts from it.
    pub open spec fn next(self, now: u64) -> TrackerState {
        TrackerState { last_us: Some(now), count: self.count + 1, ..self }
    }

    /// Whether every intermediate value of recording an edge at `now` is representable.
    pub open spec fn defined(self, now: u64) -> bool {
        let nominal = self.config.nominal_us@ as int;
        &&& self.count < u32::MAX
        &&& match self.last_us {
            None => true,
            Some(prev) => prev <= now ==> {
                &&& now - prev + nominal / 2 <= u64::MAX
                &&& self.config.tolerance_us * nearest_multiple(now - prev, nominal) <= u64::MAX
            },
        }
    }
}

impl View for PpsTracker {
    type V = TrackerState;

    closed spec fn view(&self) -> TrackerState {
        TrackerState { config: self.config, last_us: self.last_us, count: self.count as int }
    }
}

impl Default for PpsTracker {
    fn default() -> (r: Self)
        ensures
            r@ == TrackerState::fresh(r@.config),
            r@.config.nominal_us@ == NOMINAL_US,
            r@.config.tolerance_us == TOLERANCE_US,
    {
        PpsTracker::new()
    }
}

impl PpsTracker {
    /// Creates a tracker with the defaults (1 Hz, 50 ms).
    pub fn new() -> (r: Self)
        ensures
            r@ == TrackerState::fresh(r@.config),
            r@.config.nominal_us@ == NOMINAL_US,
            r@.config.tolerance_us == TOLERANCE_US,
    {
        PpsTracker::with_config(PpsTrackerConfig::default())
    }

    /// Creates a tracker with a given configuration.
    pub fn with_config(config: PpsTrackerConfig) -> (r: Self)
        ensures
            r@ == TrackerState::fresh(config),
    {
        PpsTracker { config, last_us: None, count: 0 }
    }

    /// Current configuration.
    pub fn config(&self) -> (r: &PpsTrackerConfig)
        ensures
            *r == self@.config,
    {
        &self.config
    }

    /// Total number of edges recorded so far.
    pub fn count(&self) -> (r: u32)
        ensures
            r == self@.count,
    {
        self.count
    }

    /// Records one rising edge and returns the classification. `now_us` is a microsecond
    /// timestamp.
    pub fn record(&mut self, now_us: u64) -> (event: PpsEvent)
        requires
            old(self)@.defined(now_us),
        ensures
            event == old(self)@.classifies(now_us),
            final(self)@ == old(self)@.next(now_us),
    {
        self.count = self.count + 1;
        let nominal: u64 = self.config.nominal_us.get();
        let event = match self.last_us {
            None => PpsEvent::First,
            Some(prev) => {
                if now_us < prev {
                    PpsEvent::NonMonotonic { backwards_us: prev - now_us }
                } else {
                    let interval: u64 = now_us - prev;
                    let n: u64 = (interval + nominal / 2) / nominal;
                    if n >= 1 {
                        assert(n * nominal <= interval + nominal / 2) by (nonlinear_arith)
                            requires
                                n == (interval + nominal / 2) / (nominal as int),
                                nominal > 0,
                        ;
                        let expected: u64 = n * nominal;
                        let error: u64 = if interval < expected {
                            expected - interval
                        } else {
                            interval - expected
                        };
                        if error <= self.config.tolerance_us * n {
                            if n == 1 {
                                PpsEvent::Locked { interval_us: interval }
                            } else {
                                PpsEvent::Irregular {
                                    interval_us: interval,
                                    missed: (n - 1) as u32,
                                }
                            }
                        } else {
                            PpsEvent::Irregular { interval_us: interval, missed: 0 }
                        }
                    } else {
                        PpsEvent::Irregular { interval_us: interval, missed: 0 }
                    }
                }
            },
        };
        self.last_us = Some(now_us);
        event
    }
}

/// With a tolerance below half the nominal interval, an edge locks exactly when its interval is
/// within the tolerance of the nominal one.
pub proof fn law_locked_iff_within_tolerance(interval: u64, nominal: u64, tolerance: u64)
    requires
        nominal > 0,
        2 * tolerance < nominal,
    ensures
        (classify_interval(interval, nominal, tolerance) is Locked) <==> magnitude(
            interval - nominal,
        ) <= tolerance,
{
    let n = nearest_multiple(interval as int, nominal as int);
    let x = interval + nominal / 2;
    assert(n >= 0) by (nonlinear_arith)
        requires
            n == x / (nominal as int),
            x >= 0,
            nominal > 0,
    ;
    assert(nominal <= x < 2 * nominal ==> n == 1) by (nonlinear_arith)
        requires
            n == x / (nominal as int),
            nominal > 0,
    ;
    assert(1 * nominal == nominal);
}

/// A run of `missed` dropped pulses is counted: an edge that comes exactly `missed + 1` nominal
/// intervals late is irregular with that many misses.
pub proof fn law_missed_pulses_are_counted(nominal: u64, tolerance: u64, missed: u32, interval: u64)
    requires
        nominal > 0,
        missed > 0,
        interval == (missed + 1) * nominal,
    ensures
        classify_interval(interval, nominal, tolerance) == (PpsEvent::Irregular {
            interval_us: interval,
            missed,
        }),
{
    let n = nearest_multiple(interval as int, nominal as int);
    let k = (missed + 1) as int;
    let h = (nominal / 2) as int;
    assert((k * nominal + h) / (nominal as int) == k) by (nonlinear_arith)
        requires
            nominal > 0,
            0 <= h < nominal,
            k >= 0,
    ;
    assert(n == k);
    assert(0 <= tolerance * n) by (nonlinear_arith)
        requires
            tolerance >= 0,
            n >= 0,
    ;
}

/// A timestamp that went backwards only rebases the tracker: the next interval counts from it.
pub proof fn law_backwards_edge_rebases(s: TrackerState, prev: u64, back: u64, now: u64)
    requires
        s.last_us == Some(prev),
        back < prev,
        back <= now,
    ensures
        s.classifies(back) == (PpsEvent::NonMonotonic { backwards_us: (prev - back) as u64 }),
        s.next(back).classifies(now) == classify_interval(
            (now - back) as u64,
            s.config.nominal_us@,
            s.config.tolerance_us,
        ),
{
}

/// How an interval is classified: `n` being the number of nominal intervals nearest to it, with a
/// half rounded up, it is within tolerance if it is off by no more than `n` tolerances on either
/// side. One such interval is a lock, more are `n - 1` missed pulses, and anything else is a glitch.
/// The interval is reported as it is.
pub proof fn law_interval_is_judged_by_its_nearest_multiple(
    interval: u64,
    nominal: u64,
    tolerance: u64,
    n: int,
)
    requires
        nominal > 0,
        0 <= n <= u32::MAX,
        n * nominal <= interval + nominal / 2 < n * nominal + nominal,
    ensures
        ({
            let off = interval - n * nominal;
            let slack = n * tolerance;
            let e = classify_interval(interval, nominal, tolerance);
            if n == 0 || off > slack || off < -slack {
                e == (PpsEvent::Irregular { interval_us: interval, missed: 0 })
            } else if n == 1 {
                e == (PpsEvent::Locked { interval_us: interval })
            } else {
                e == (PpsEvent::Irregular { interval_us: interval, missed: (n - 1) as u32 })
            }
        }),
{
    let x = interval + nominal / 2;
    let m = nearest_multiple(interval as int, nominal as int);
    vstd::arithmetic::div_mod::lemma_fundamental_div_mod(x, nominal as int);
    assert(m == n) by (nonlinear_arith)
        requires
            m == x / (nominal as int),
            nominal > 0,
            n * nominal <= x < n * nominal + nominal,
    ;
    assert(tolerance * n == n * tolerance) by (nonlinear_arith);
}

/// The first edge has no interval, every later one is classified by the time since the one before,
/// and each is counted.
pub proof fn law_every_edge_is_the_next_ones_start(s: TrackerState, now: u64)
    ensures
        s.last_us is None ==> s.classifies(now) is First,
        s.last_us matches Some(prev) ==> (if prev <= now {
            s.classifies(now) == classify_interval(
                (now - prev) as u64,
                s.config.nominal_us@,
                s.config.tolerance_us,
            )
        } else {
            s.classifies(now) == (PpsEvent::NonMonotonic { backwards_us: (prev - now) as u64 })
        }),
        s.next(now).last_us == Some(now),
        s.next(now).count == s.count + 1,
        s.next(now).config == s.config,
{
}

/// A fresh tracker has seen no edge and counted none.
pub proof fn law_fresh_tracker_has_seen_nothing(config: PpsTrackerConfig, now: u64)
    ensures
        TrackerState::fresh(config).count == 0,
        TrackerState::fresh(config).config == config,
        TrackerState::fresh(config).classifies(now) is First,
        TrackerState::fresh(config).next(now).count == 1,
{
}

} // verus!
