//! Clock discipline for a GPS-disciplined oscillator.
//!
//! The crystal's frequency offset is estimated from the PPS interval (ns precision from a hardware
//! capture) and, together with a UTC epoch, provides disciplined UTC on the device. Even while PPS
//! is lost (holdover), time is kept by extrapolating with the estimated frequency.
//!
//! Units are ppb (parts per billion = ns/s) and milli-ppb. The deviation of a PPS interval from
//! 1e9 ns is directly the frequency offset in ppb.
//!
//! The frequency estimate comes from the precise PPS interval, while the epoch (the absolute-time
//! anchor) comes from a continuously readable local clock; they only need to share the unit (ns).

use vstd::prelude::*;
use crate::arith::{abs_i64, clamp_sym, shr_i64};
use crate::nonzero::{NonZeroU32, NonZeroU64};
use crate::pps::{PpsEvent, PpsTracker, PpsTrackerConfig};

verus! {

use crate::arith::{
    bounded, floor_shr, in_i64, lemma_floor_shr_bounds, magnitude, tdiv,
};
use crate::pps::{TrackerState, NOMINAL_US, TOLERANCE_US};
use vstd::arithmetic::power2::pow2;

/// Tuning configuration for [`DisciplinedClock`].
///
/// The right values depend on the receiver, antenna, crystal, PPS capture resolution and operating
/// mode. Fields that are meaningless at 0 are `NonZero*`; shift amounts are clamped at use.
#[derive(Debug)]
pub struct DisciplinedClockConfig {
    /// Post-lock smoothing coefficient `1/2^ema_shift` of the level (default 5).
    pub ema_shift: u32,
    /// Smoothing coefficient `1/2^ema_shift_fast` of the level while converging (default 3).
    pub ema_shift_fast: u32,
    /// Number of frequency samples required to declare lock (default 8).
    pub lock_samples: NonZeroU32,
    /// Emergency-stop window around 1 s (default 1 ms): an interval on or outside it is invalid.
    pub sane_dev_ns: NonZeroU64,
    /// Absolute quality gate while converging (default 100 us).
    pub converge_gate_ns: NonZeroU64,
    /// Post-lock residual gate (default 5 us): a sample further from the level is rejected.
    pub residual_gate_ns: NonZeroU64,
    /// Number of samples held off right after recovering from holdover (default 5). 0 = none.
    pub quarantine_samples: u32,
    /// Smoothing shift of the frequency slope (default 9), much slower than the level's.
    pub slope_ema_shift: u32,
    /// Clamp on the tracked frequency slope (milli-ppb per sample, default 5 000).
    pub slope_max_mppb: i64,
    /// How many samples ahead the slope is projected for the output period (default 1).
    pub pred_lead_samples: i64,
    /// Widens the post-lock residual gate by the slope's magnitude times this (default 8).
    pub residual_slope_widen: i64,
    /// The slope is frozen when the residual exceeds this (milli-ppb, default 2 000 000).
    pub slope_freeze_resid_mppb: i64,
    /// Whether the output frequency is predicted from temperature (default `false`).
    pub temp_ff_enable: bool,
    /// Smoothing shift of the temperature/frequency regression (default 7).
    pub temp_ff_shift: u32,
    /// Unused by the temperature feedforward; kept so that stored tunings still apply.
    pub temp_ff_gain_q8: i64,
    /// Smoothing shift of the raw temperature (default 4).
    pub temp_ff_sm_shift: u32,
    /// Matched-lead gain in Q8 fixed point (default 1536): thermal lag over sample period.
    pub temp_ff_lag_q8: i64,
    /// Smoothing shift of the die-temperature derivative (default 2).
    pub temp_ff_dlead_shift: u32,
    /// Observer gain `1/2^resid_obs_shift` of the non-thermal residual (default 2).
    pub resid_obs_shift: u32,
    /// Clamp on the learned temperature coefficient (milli-ppb per raw unit, default 100 000).
    pub temp_k_clamp_mppb: i64,
    /// Clamp of the crystal-temperature estimate around the die temperature (raw units,
    /// default 64).
    pub temp_ff_lead_clamp_raw: i64,
    /// Clamp on the deviation from the level that is handed to the output steering (milli-ppb,
    /// default 100 000).
    pub steer_ff_bound_mppb: i64,
}

impl DisciplinedClockConfig {
    /// The default tuning.
    pub open spec fn is_default(self) -> bool {
        &&& self.ema_shift == 5
        &&& self.ema_shift_fast == 3
        &&& self.lock_samples@ == 8
        &&& self.sane_dev_ns@ == 1_000_000
        &&& self.converge_gate_ns@ == 100_000
        &&& self.residual_gate_ns@ == 5_000
        &&& self.quarantine_samples == 5
        &&& self.slope_ema_shift == 9
        &&& self.slope_max_mppb == 5_000
        &&& self.pred_lead_samples == 1
        &&& self.residual_slope_widen == 8
        &&& self.slope_freeze_resid_mppb == 2_000_000
        &&& !self.temp_ff_enable
        &&& self.temp_ff_shift == 7
        &&& self.temp_ff_sm_shift == 4
        &&& self.temp_ff_gain_q8 == 64
        &&& self.temp_ff_lag_q8 == 1536
        &&& self.temp_ff_dlead_shift == 2
        &&& self.resid_obs_shift == 2
        &&& self.temp_k_clamp_mppb == 100_000
        &&& self.temp_ff_lead_clamp_raw == 64
        &&& self.steer_ff_bound_mppb == 100_000
    }
}

impl Default for DisciplinedClockConfig {
    fn default() -> (r: Self)
        ensures
            r.is_default(),
    {
        DisciplinedClockConfig {
            ema_shift: 5,
            ema_shift_fast: 3,
            lock_samples: NonZeroU32::new(8).unwrap(),
            sane_dev_ns: NonZeroU64::new(1_000_000).unwrap(),
            converge_gate_ns: NonZeroU64::new(100_000).unwrap(),
            residual_gate_ns: NonZeroU64::new(5_000).unwrap(),
            quarantine_samples: 5,
            slope_ema_shift: 9,
            slope_max_mppb: 5_000,
            pred_lead_samples: 1,
            residual_slope_widen: 8,
            slope_freeze_resid_mppb: 2_000_000,
            temp_ff_enable: false,
            temp_ff_shift: 7,
            temp_ff_sm_shift: 4,
            temp_ff_gain_q8: 64,
            temp_ff_lag_q8: 1536,
            temp_ff_dlead_shift: 2,
            resid_obs_shift: 2,
            temp_k_clamp_mppb: 100_000,
            temp_ff_lead_clamp_raw: 64,
            steer_ff_bound_mppb: 100_000,
        }
    }
}

/// Result of [`DisciplinedClock::update_freq`].
#[derive(Debug, Clone, Copy, PartialEq, Eq, Structural)]
pub enum FreqUpdate {
    /// The estimate was updated.
    Applied,
    /// Rejected by the emergency stop (wrap glitch / gap).
    GatedSane,
    /// Rejected by a quality gate (absolute while converging, residual after lock).
    GatedQuality,
    /// Held off because the recovery quarantine is on.
    Quarantined,
}

impl FreqUpdate {
    /// The tag of an outcome in the log.
    pub open spec fn label(self) -> Seq<char> {
        match self {
            FreqUpdate::Applied => "ok"@,
            FreqUpdate::GatedSane => "sane"@,
            FreqUpdate::GatedQuality => "gate"@,
            FreqUpdate::Quarantined => "quar"@,
        }
    }

    /// Short tag for logging: `"ok"` / `"sane"` / `"gate"` / `"quar"`.
    pub fn as_str(&self) -> (r: &'static str)
        ensures
            r@ == self.label(),
    {
        match self {
            FreqUpdate::Applied => "ok",
            FreqUpdate::GatedSane => "sane",
            FreqUpdate::GatedQuality => "gate",
            FreqUpdate::Quarantined => "quar",
        }
    }
}

/// Nanoseconds per second.
pub const NS_PER_SEC: i64 = 1_000_000_000;

/// Fixed-point fractional bits of the temperature states.
pub const TEMP_FP: u32 = 8;

/// A shift amount, clamped.
pub open spec fn shift_within(s: u32, most: int) -> int {
    if s < most {
        s as int
    } else {
        most
    }
}

/// The learned temperature coefficient (milli-ppb per raw unit) for a covariance and a variance of
/// fixed-point temperature: their quotient in raw units, 0 until the temperature has varied.
pub open spec fn coefficient(cov: int, var: int) -> int {
    if var > 0 {
        tdiv(((cov as i64) << 8u32) as int, var)
    } else {
        0
    }
}

/// The feedforward (milli-ppb) of a temperature `dt` (fixed point) above the reference: the clamped
/// coefficient times the temperature, 0 until the temperature has varied.
pub open spec fn feedforward(cov: int, var: int, clamp: int, dt: int) -> i64 {
    if var > 0 {
        tdiv(bounded(coefficient(cov, var), clamp) * dt, 256) as i64
    } else {
        0
    }
}

/// The part of an elapsed time `d` (ns) that a frequency offset (milli-ppb) accounts for.
pub open spec fn offset_part(d: int, mppb: int) -> i64 {
    tdiv(d * mppb, 1_000_000_000_000) as i64
}

/// The part of an elapsed time `d` (ns) that a frequency slope (milli-ppb per second) adds up to.
pub open spec fn slope_part(d: int, slope: int) -> i64 {
    tdiv(slope * d * d, 2_000_000_000_000_000_000_000) as i64
}

/// The PPS-disciplined clock model.
///
/// It works with two timebases of the same oscillator, both in integer ns: the **capture**
/// timebase (high-resolution PPS edge capture) and the **query** timebase (a continuously readable
/// clock). The epochs of both are given together via [`update_epoch`](Self::update_epoch).
#[derive(Debug)]
pub struct DisciplinedClock {
    /// The tuning.
    pub config: DisciplinedClockConfig,
    /// Frequency-offset level (milli-ppb).
    pub freq_mppb: i64,
    /// Estimated change of the level per sample (milli-ppb).
    pub freq_slope_mppb: i64,
    /// Frequency samples accepted.
    pub samples: u32,
    /// Samples still to be held off after a recovery.
    pub quarantine: u32,
    /// Capture-timebase time of the epoch (ns).
    pub epoch_capture_ns: Option<u64>,
    /// Query-timebase time of the epoch (ns).
    pub epoch_query_ns: Option<u64>,
    /// UTC of the epoch (Unix ns).
    pub epoch_unix_ns: Option<i64>,
    /// Query-timebase time of the last discipline (ns).
    pub last_query_ns: Option<u64>,
    /// Latest temperature reading (raw sensor units).
    pub temp_now: i64,
    /// Whether a temperature has been observed.
    pub temp_have: bool,
    /// Short mean of the temperature (fixed point): the regression input.
    pub temp_sm: i64,
    /// Long mean of the temperature (fixed point).
    pub temp_mt: i64,
    /// Mean of the measured frequency (milli-ppb).
    pub temp_mf_mppb: i64,
    /// Mean covariance of temperature and frequency.
    pub temp_cov: i64,
    /// Mean variance of the temperature.
    pub temp_var: i64,
    /// Reference temperature (fixed point): the first reading.
    pub temp_ref: i64,
    /// Frequency that temperature does not explain (milli-ppb).
    pub r_resid: i64,
    /// Low-passed die temperature (fixed point).
    pub temp_die_lp: i64,
    /// Previous low-passed die temperature (fixed point).
    pub temp_die_prev: i64,
    /// Smoothed derivative of the die temperature (fixed point per sample).
    pub temp_dlead: i64,
    /// Estimated crystal temperature (fixed point).
    pub tcrys_hat: i64,
}

/// Removes the integer-second offset from a residual and keeps only the sub-second part: the
/// nearest value to zero that differs from `raw` by whole seconds. A half second keeps the sign
/// that rounding away from zero leaves it.
pub fn snap_to_second_ns(raw: i64) -> (r: i64)
    requires
        i64::MIN + 500_000_000 <= raw <= i64::MAX - 500_000_000,
    ensures
        (raw - r) % 1_000_000_000 == 0,
        -500_000_000 <= r <= 500_000_000,
        raw >= 0 ==> r < 500_000_000,
        raw <= 0 ==> r > -500_000_000,
{
    let half: i64 = if raw > 0 {
        500_000_000
    } else if raw < 0 {
        -500_000_000
    } else {
        0
    };
    let secs: i64 = (raw + half) / 1_000_000_000;
    raw - secs * 1_000_000_000
}

impl DisciplinedClock {
    /// Whether enough samples have been seen to lock the frequency.
    pub open spec fn locked(&self) -> bool {
        self.samples >= self.config.lock_samples@
    }

    /// Whether the clock is fresh: nothing has been observed.
    pub open spec fn is_fresh(&self) -> bool {
        &&& self.freq_mppb == 0
        &&& self.freq_slope_mppb == 0
        &&& self.samples == 0
        &&& self.quarantine == 0
        &&& self.epoch_capture_ns is None
        &&& self.epoch_query_ns is None
        &&& self.epoch_unix_ns is None
        &&& self.last_query_ns is None
        &&& self.temp_now == 0
        &&& !self.temp_have
        &&& self.temp_sm == 0
        &&& self.temp_mt == 0
        &&& self.temp_mf_mppb == 0
        &&& self.temp_cov == 0
        &&& self.temp_var == 0
        &&& self.temp_ref == 0
        &&& self.r_resid == 0
        &&& self.temp_die_lp == 0
        &&& self.temp_die_prev == 0
        &&& self.temp_dlead == 0
        &&& self.tcrys_hat == 0
    }

    /// The post-lock gate on the distance of a measurement from the level (milli-ppb).
    pub open spec fn residual_gate(&self) -> int {
        (self.config.residual_gate_ns@ as i64) * 1000 + magnitude(self.freq_slope_mppb as int)
            * self.config.residual_slope_widen
    }

    /// What becomes of a sample of a given PPS interval: the emergency stop comes first, then the
    /// quarantine; the first sample ever needs no further gate; then the quality gate, which is
    /// absolute while converging and relative to the level after lock.
    pub open spec fn outcome(&self, interval_ns: int) -> FreqUpdate {
        let dev = interval_ns - NS_PER_SEC;
        if magnitude(dev) >= self.config.sane_dev_ns@ as i64 {
            FreqUpdate::GatedSane
        } else if self.quarantine > 0 {
            FreqUpdate::Quarantined
        } else if self.samples == 0 {
            FreqUpdate::Applied
        } else if self.locked() {
            if magnitude(dev * 1000 - self.freq_mppb) > self.residual_gate() {
                FreqUpdate::GatedQuality
            } else {
                FreqUpdate::Applied
            }
        } else {
            if magnitude(dev) > self.config.converge_gate_ns@ as i64 {
                FreqUpdate::GatedQuality
            } else {
                FreqUpdate::Applied
            }
        }
    }

    /// The level expected at this sample: the last one, moved by the slope.
    pub open spec fn projected(&self) -> int {
        self.freq_mppb + self.freq_slope_mppb
    }

    /// The smoothing shift in force for the level.
    pub open spec fn level_shift(&self) -> int {
        if self.locked() {
            shift_within(self.config.ema_shift, 63)
        } else {
            shift_within(self.config.ema_shift_fast, 63)
        }
    }

    /// The level after an accepted measurement (milli-ppb) that is not the first.
    pub open spec fn next_level(&self, measured: int) -> int {
        self.projected() + floor_shr(measured - self.projected(), self.level_shift())
    }

    /// Whether an accepted measurement adapts the slope: only once locked, and not on a shock.
    pub open spec fn adapts_slope(&self, measured: int) -> bool {
        self.locked() && magnitude(measured - self.projected())
            <= self.config.slope_freeze_resid_mppb
    }

    /// The slope after an accepted measurement that is not the first.
    pub open spec fn next_slope(&self, measured: int) -> int {
        if self.adapts_slope(measured) {
            bounded(
                self.freq_slope_mppb + floor_shr(
                    measured - self.projected(),
                    shift_within(self.config.slope_ema_shift, 63),
                ),
                self.config.slope_max_mppb as int,
            )
        } else {
            self.freq_slope_mppb as int
        }
    }

    /// Whether an accepted measurement feeds the temperature regression.
    pub open spec fn learns(&self) -> bool {
        self.config.temp_ff_enable && self.temp_have && self.locked()
    }

    /// The smoothing shift of the regression.
    pub open spec fn regression_shift(&self) -> int {
        shift_within(self.config.temp_ff_shift, 30)
    }

    /// The long mean of the temperature after a regression step.
    pub open spec fn next_mt(&self) -> int {
        self.temp_mt + floor_shr(self.temp_sm - self.temp_mt, self.regression_shift())
    }

    /// The mean of the frequency after a regression step.
    pub open spec fn next_mf(&self, measured: int) -> int {
        self.temp_mf_mppb + floor_shr(measured - self.temp_mf_mppb, self.regression_shift())
    }

    /// The covariance after a regression step.
    pub open spec fn next_cov(&self, measured: int) -> int {
        let dt = self.temp_sm - self.next_mt();
        let df = measured - self.next_mf(measured);
        self.temp_cov + floor_shr(dt * df - self.temp_cov, self.regression_shift())
    }

    /// The variance after a regression step.
    pub open spec fn next_var(&self) -> int {
        let dt = self.temp_sm - self.next_mt();
        self.temp_var + floor_shr(dt * dt - self.temp_var, self.regression_shift())
    }

    /// The part of a measurement that temperature explains, by the regression it has just fed.
    pub open spec fn explained(&self, measured: int) -> i64 {
        feedforward(
            self.next_cov(measured),
            self.next_var(),
            self.config.temp_k_clamp_mppb as int,
            self.tcrys_hat - self.temp_ref,
        )
    }

    /// The unexplained frequency after a regression step.
    pub open spec fn next_resid(&self, measured: int) -> int {
        self.r_resid + floor_shr(
            measured - self.explained(measured) - self.r_resid,
            shift_within(self.config.resid_obs_shift, 63),
        )
    }

    /// Whether `after` is this clock with an accepted sample of a given PPS interval taken in.
    pub open spec fn absorbs(&self, interval_ns: int, after: &Self) -> bool {
        let measured = (interval_ns - NS_PER_SEC) * 1000;
        let first = self.samples == 0;
        let learns = !first && self.learns();
        &&& *after == (DisciplinedClock {
            freq_mppb: after.freq_mppb,
            freq_slope_mppb: after.freq_slope_mppb,
            samples: after.samples,
            temp_mt: after.temp_mt,
            temp_mf_mppb: after.temp_mf_mppb,
            temp_cov: after.temp_cov,
            temp_var: after.temp_var,
            r_resid: after.r_resid,
            ..*self
        })
        &&& after.samples == self.samples + 1
        &&& after.freq_mppb == (if first { measured } else { self.next_level(measured) })
        &&& after.freq_slope_mppb == (if first { self.freq_slope_mppb as int } else {
            self.next_slope(measured)
        })
        &&& after.temp_mt == (if learns { self.next_mt() } else { self.temp_mt as int })
        &&& after.temp_mf_mppb == (if learns { self.next_mf(measured) } else {
            self.temp_mf_mppb as int
        })
        &&& after.temp_cov == (if learns { self.next_cov(measured) } else { self.temp_cov as int })
        &&& after.temp_var == (if learns { self.next_var() } else { self.temp_var as int })
        &&& after.r_resid == (if learns { self.next_resid(measured) } else { self.r_resid as int })
    }

    /// Whether `after` is this clock after a sample of a given PPS interval. A gated sample
    /// changes nothing; a quarantined one only counts down.
    pub open spec fn follows_freq(&self, interval_ns: int, after: &Self) -> bool {
        match self.outcome(interval_ns) {
            FreqUpdate::GatedSane => *after == *self,
            FreqUpdate::GatedQuality => *after == *self,
            FreqUpdate::Quarantined => *after == (DisciplinedClock {
                quarantine: (self.quarantine - 1) as u32,
                ..*self
            }),
            FreqUpdate::Applied => self.absorbs(interval_ns, after),
        }
    }

    /// Whether every intermediate value of taking in a sample is representable.
    pub open spec fn freq_defined(&self, interval_ns: int) -> bool {
        let dev = interval_ns - NS_PER_SEC;
        let measured = dev * 1000;
        let reaches_gate = magnitude(dev) < self.config.sane_dev_ns@ as i64 && self.quarantine == 0;
        &&& in_i64(dev)
        &&& dev != i64::MIN
        &&& reaches_gate ==> in_i64(measured)
        &&& reaches_gate && self.samples > 0 && self.locked() ==> self.gate_defined(measured)
        &&& self.samples > 0 && self.outcome(interval_ns) is Applied ==> self.samples < u32::MAX
            && self.tracking_defined(measured)
    }

    /// The part of [`freq_defined`](Self::freq_defined) that the post-lock gate needs.
    pub open spec fn gate_defined(&self, measured: int) -> bool {
        &&& self.freq_slope_mppb != i64::MIN
        &&& in_i64((self.config.residual_gate_ns@ as i64) * 1000)
        &&& in_i64(magnitude(self.freq_slope_mppb as int) * self.config.residual_slope_widen)
        &&& in_i64(self.residual_gate())
        &&& in_i64(measured - self.freq_mppb)
        &&& measured - self.freq_mppb != i64::MIN
    }

    /// The part of [`freq_defined`](Self::freq_defined) that the estimators need.
    pub open spec fn tracking_defined(&self, measured: int) -> bool {
        let resid = measured - self.projected();
        &&& in_i64(self.projected())
        &&& in_i64(resid)
        &&& self.locked() ==> resid != i64::MIN
        &&& self.adapts_slope(measured) ==> {
            &&& self.config.slope_max_mppb >= 0
            &&& in_i64(
                self.freq_slope_mppb + floor_shr(
                    resid,
                    shift_within(self.config.slope_ema_shift, 63),
                ),
            )
        }
        &&& self.learns() ==> self.regression_defined(measured)
    }

    /// The part of [`freq_defined`](Self::freq_defined) that the temperature regression needs.
    pub open spec fn regression_defined(&self, measured: int) -> bool {
        let dt = self.temp_sm - self.next_mt();
        let df = measured - self.next_mf(measured);
        &&& in_i64(self.temp_sm - self.temp_mt)
        &&& in_i64(measured - self.temp_mf_mppb)
        &&& in_i64(dt)
        &&& in_i64(df)
        &&& in_i64(dt * df)
        &&& in_i64(dt * df - self.temp_cov)
        &&& in_i64(dt * dt)
        &&& in_i64(dt * dt - self.temp_var)
        &&& self.next_var() > 0 ==> {
            &&& self.config.temp_k_clamp_mppb >= 0
            &&& in_i64(self.tcrys_hat - self.temp_ref)
        }
        &&& in_i64(measured - self.explained(measured))
        &&& in_i64(measured - self.explained(measured) - self.r_resid)
    }

    /// Creates a clock with the defaults.
    pub fn new() -> (r: Self)
        ensures
            r.is_fresh(),
            r.config.is_default(),
    {
        DisciplinedClock::with_config(DisciplinedClockConfig::default())
    }

    /// Creates a clock with a given configuration.
    pub fn with_config(config: DisciplinedClockConfig) -> (r: Self)
        ensures
            r.is_fresh(),
            r.config == config,
    {
        DisciplinedClock {
            config,
            freq_mppb: 0,
            freq_slope_mppb: 0,
            samples: 0,
            quarantine: 0,
            epoch_capture_ns: None,
            epoch_query_ns: None,
            epoch_unix_ns: None,
            last_query_ns: None,
            temp_now: 0,
            temp_have: false,
            temp_sm: 0,
            temp_mt: 0,
            temp_mf_mppb: 0,
            temp_cov: 0,
            temp_var: 0,
            temp_ref: 0,
            r_resid: 0,
            temp_die_lp: 0,
            temp_die_prev: 0,
            temp_dlead: 0,
            tcrys_hat: 0,
        }
    }

    /// Current configuration.
    pub fn config(&self) -> (r: &DisciplinedClockConfig)
        ensures
            *r == self.config,
    {
        &self.config
    }

    /// Updates the frequency estimate from a precise PPS interval (ns, ideally 1e9).
    ///
    /// The estimate is an alpha-beta tracker: the level is projected one sample forward with the
    /// slope and corrected by the residual, and the slope follows the level's drift. Call this
    /// only on edges that the tracker classifies as locked; on recovery, call
    /// [`start_quarantine`](Self::start_quarantine) first.
    pub fn update_freq(&mut self, interval_ns: i64) -> (r: FreqUpdate)
        requires
            old(self).freq_defined(interval_ns as int),
        ensures
            r == old(self).outcome(interval_ns as int),
            old(self).follows_freq(interval_ns as int, final(self)),
    {
        let ghost s = *self;
        let dev: i64 = interval_ns - NS_PER_SEC;
        if abs_i64(dev) >= self.config.sane_dev_ns.get() as i64 {
            return FreqUpdate::GatedSane;
        }
        if self.quarantine > 0 {
            self.quarantine = self.quarantine - 1;
            return FreqUpdate::Quarantined;
        }
        let measured_mppb: i64 = dev * 1000;
        if self.samples == 0 {
            self.freq_mppb = measured_mppb;
            self.samples = 1;
            return FreqUpdate::Applied;
        }
        if self.is_locked() {
            let gate: i64 = self.config.residual_gate_ns.get() as i64 * 1000 + abs_i64(
                self.freq_slope_mppb,
            ) * self.config.residual_slope_widen;
            if abs_i64(measured_mppb - self.freq_mppb) > gate {
                return FreqUpdate::GatedQuality;
            }
        } else {
            if abs_i64(dev) > self.config.converge_gate_ns.get() as i64 {
                return FreqUpdate::GatedQuality;
            }
        }
        assert(s.outcome(interval_ns as int) is Applied);
        self.track(measured_mppb);
        if self.config.temp_ff_enable && self.temp_have && self.is_locked() {
            self.regress(measured_mppb);
        }
        self.samples = self.samples + 1;
        FreqUpdate::Applied
    }

    /// The alpha-beta step: moves the level and the slope by an accepted measurement.
    fn track(&mut self, measured_mppb: i64)
        requires
            old(self).tracking_defined(measured_mppb as int),
        ensures
            *final(self) == (DisciplinedClock {
                freq_mppb: final(self).freq_mppb,
                freq_slope_mppb: final(self).freq_slope_mppb,
                ..*old(self)
            }),
            final(self).freq_mppb == old(self).next_level(measured_mppb as int),
            final(self).freq_slope_mppb == old(self).next_slope(measured_mppb as int),
    {
        let ghost s = *self;
        let locked = self.is_locked();
        let level_shift: u32 = if locked {
            self.config.ema_shift.min(63)
        } else {
            self.config.ema_shift_fast.min(63)
        };
        let projected: i64 = self.freq_mppb + self.freq_slope_mppb;
        let resid: i64 = measured_mppb - projected;
        proof {
            lemma_floor_shr_bounds(resid as int, level_shift as int);
        }
        self.freq_mppb = projected + shr_i64(resid, level_shift);
        if locked && abs_i64(resid) <= self.config.slope_freeze_resid_mppb {
            let slope_shift: u32 = self.config.slope_ema_shift.min(63);
            self.freq_slope_mppb =
            clamp_sym(
                self.freq_slope_mppb + shr_i64(resid, slope_shift),
                self.config.slope_max_mppb,
            );
        }
    }

    /// The temperature step: feeds an accepted measurement to the regression of frequency on
    /// temperature, then moves the observer of what temperature does not explain.
    fn regress(&mut self, measured_mppb: i64)
        requires
            old(self).regression_defined(measured_mppb as int),
        ensures
            *final(self) == (DisciplinedClock {
                temp_mt: final(self).temp_mt,
                temp_mf_mppb: final(self).temp_mf_mppb,
                temp_cov: final(self).temp_cov,
                temp_var: final(self).temp_var,
                r_resid: final(self).r_resid,
                ..*old(self)
            }),
            final(self).temp_mt == old(self).next_mt(),
            final(self).temp_mf_mppb == old(self).next_mf(measured_mppb as int),
            final(self).temp_cov == old(self).next_cov(measured_mppb as int),
            final(self).temp_var == old(self).next_var(),
            final(self).r_resid == old(self).next_resid(measured_mppb as int),
    {
        let ghost s = *self;
        let ghost m = measured_mppb as int;
        let shift: u32 = self.config.temp_ff_shift.min(30);
        let obs: u32 = self.config.resid_obs_shift.min(63);
        proof {
            let sh = shift as int;
            let dt = s.temp_sm - s.next_mt();
            let df = m - s.next_mf(m);
            lemma_floor_shr_bounds(s.temp_sm - s.temp_mt, sh);
            lemma_floor_shr_bounds(m - s.temp_mf_mppb, sh);
            lemma_floor_shr_bounds(dt * df - s.temp_cov, sh);
            lemma_floor_shr_bounds(dt * dt - s.temp_var, sh);
            lemma_floor_shr_bounds(m - s.explained(m) - s.r_resid, obs as int);
        }
        self.temp_mt = self.temp_mt + shr_i64(self.temp_sm - self.temp_mt, shift);
        self.temp_mf_mppb = self.temp_mf_mppb + shr_i64(measured_mppb - self.temp_mf_mppb, shift);
        let dt: i64 = self.temp_sm - self.temp_mt;
        let df: i64 = measured_mppb - self.temp_mf_mppb;
        self.temp_cov = self.temp_cov + shr_i64(dt * df - self.temp_cov, shift);
        self.temp_var = self.temp_var + shr_i64(dt * dt - self.temp_var, shift);
        let f_ff_meas: i64 = self.temp_ff_mppb(self.tcrys_hat);
        assert(f_ff_meas == s.explained(m));
        let innov: i64 = measured_mppb - f_ff_meas - self.r_resid;
        self.r_resid = self.r_resid + shr_i64(innov, obs);
    }

    /// Matched-lead feedforward (milli-ppb) at a crystal-temperature estimate (fixed point).
    fn temp_ff_mppb(&self, tcrys_hat_fp: i64) -> (r: i64)
        requires
            self.temp_var > 0 ==> {
                &&& self.config.temp_k_clamp_mppb >= 0
                &&& in_i64(tcrys_hat_fp - self.temp_ref)
            },
        ensures
            r == feedforward(
                self.temp_cov as int,
                self.temp_var as int,
                self.config.temp_k_clamp_mppb as int,
                tcrys_hat_fp - self.temp_ref,
            ),
    {
        if self.temp_var <= 0 {
            return 0;
        }
        let k: i64 = clamp_sym(self.temp_k_mppb_per_unit(), self.config.temp_k_clamp_mppb);
        let dt: i64 = tcrys_hat_fp - self.temp_ref;
        proof {
            lemma_i64_product(k as int, dt as int);
        }
        (k as i128 * dt as i128 / 256i128) as i64
    }

    /// Learned temperature coefficient in milli-ppb per raw temperature unit, 0 until temperature
    /// has varied.
    pub fn temp_k_mppb_per_unit(&self) -> (r: i64)
        ensures
            r == coefficient(self.temp_cov as int, self.temp_var as int),
    {
        if self.temp_var > 0 {
            let scaled: i64 = self.temp_cov << TEMP_FP;
            proof {
                crate::arith::lemma_tdiv_in_i64(scaled as int, self.temp_var as int);
            }
            scaled / self.temp_var
        } else {
            0
        }
    }

    /// Whether enough samples have been seen to lock the frequency.
    pub fn is_locked(&self) -> (b: bool)
        ensures
            b == self.locked(),
    {
        self.samples >= self.config.lock_samples.get()
    }

    /// The fixed-point form of a raw temperature.
    pub open spec fn fixed_point(temp: i64) -> i64 {
        temp << 8u32
    }

    /// The shift that smooths the raw temperature.
    pub open spec fn temp_shift(&self) -> int {
        shift_within(self.config.temp_ff_sm_shift, 30)
    }

    /// The low-passed die temperature after a reading that is not the first.
    pub open spec fn next_die(&self, temp: i64) -> int {
        self.temp_die_lp + floor_shr(Self::fixed_point(temp) - self.temp_die_lp, self.temp_shift())
    }

    /// The smoothed derivative of the die temperature after a reading that is not the first.
    pub open spec fn next_dlead(&self, temp: i64) -> int {
        self.temp_dlead + floor_shr(
            self.next_die(temp) - self.temp_die_prev - self.temp_dlead,
            shift_within(self.config.temp_ff_dlead_shift, 63),
        )
    }

    /// How far the crystal temperature is estimated to be from the die temperature.
    pub open spec fn lead(&self, temp: i64) -> int {
        floor_shr(self.config.temp_ff_lag_q8 * self.next_dlead(temp), 8)
    }

    /// The clamp on the lead (fixed point).
    pub open spec fn lead_clamp(&self) -> int {
        (self.config.temp_ff_lead_clamp_raw << 8u32) as int
    }

    /// Whether `after` is this clock after a temperature reading. The first reading sets the
    /// reference and every temperature state; a later one moves the smoothed temperatures and the
    /// crystal-temperature estimate.
    pub open spec fn follows_temp(&self, temp: i64, after: &Self) -> bool {
        let t_fp = Self::fixed_point(temp);
        &&& *after == (DisciplinedClock {
            temp_now: temp,
            temp_have: true,
            temp_sm: after.temp_sm,
            temp_mt: if self.temp_have { self.temp_mt } else { t_fp },
            temp_mf_mppb: if self.temp_have { self.temp_mf_mppb } else { self.freq_mppb },
            temp_ref: if self.temp_have { self.temp_ref } else { t_fp },
            temp_die_lp: after.temp_die_lp,
            temp_die_prev: after.temp_die_lp,
            temp_dlead: after.temp_dlead,
            tcrys_hat: after.tcrys_hat,
            ..*self
        })
        &&& if !self.temp_have {
            &&& after.temp_sm == t_fp
            &&& after.temp_die_lp == t_fp
            &&& after.temp_dlead == 0
            &&& after.tcrys_hat == t_fp
        } else {
            &&& after.temp_sm == self.temp_sm + floor_shr(t_fp - self.temp_sm, self.temp_shift())
            &&& after.temp_die_lp == self.next_die(temp)
            &&& after.temp_dlead == self.next_dlead(temp)
            &&& after.tcrys_hat == self.next_die(temp) + bounded(
                self.lead(temp),
                self.lead_clamp(),
            )
        }
    }

    /// Whether every intermediate value of taking in a temperature is representable.
    pub open spec fn temp_defined(&self, temp: i64) -> bool {
        let t_fp = Self::fixed_point(temp);
        self.temp_have ==> {
            &&& in_i64(t_fp - self.temp_sm)
            &&& in_i64(t_fp - self.temp_die_lp)
            &&& in_i64(self.next_die(temp) - self.temp_die_prev)
            &&& in_i64(self.next_die(temp) - self.temp_die_prev - self.temp_dlead)
            &&& in_i64(self.config.temp_ff_lag_q8 * self.next_dlead(temp))
            &&& in_i64(self.next_die(temp) + self.lead(temp))
            &&& self.lead_clamp() >= 0
            &&& in_i64(self.next_die(temp) - self.lead_clamp())
            &&& in_i64(self.next_die(temp) + self.lead_clamp())
        }
    }

    /// Feeds a temperature reading (raw sensor units) for the temperature feedforward. Call once
    /// per edge alongside [`update_freq`](Self::update_freq). The first reading sets the model's
    /// reference.
    pub fn update_temp(&mut self, temp: i64)
        requires
            old(self).temp_defined(temp),
        ensures
            old(self).follows_temp(temp, final(self)),
    {
        let ghost s = *self;
        self.temp_now = temp;
        let t_fp: i64 = temp << TEMP_FP;
        if !self.temp_have {
            self.temp_sm = t_fp;
            self.temp_mt = t_fp;
            self.temp_mf_mppb = self.freq_mppb;
            self.temp_ref = t_fp;
            self.temp_die_lp = t_fp;
            self.temp_die_prev = t_fp;
            self.temp_dlead = 0;
            self.tcrys_hat = t_fp;
            self.temp_have = true;
        } else {
            let sm: u32 = self.config.temp_ff_sm_shift.min(30);
            let dl: u32 = self.config.temp_ff_dlead_shift.min(63);
            proof {
                lemma_floor_shr_bounds(t_fp - s.temp_sm, sm as int);
                lemma_floor_shr_bounds(t_fp - s.temp_die_lp, sm as int);
                lemma_floor_shr_bounds(
                    s.next_die(temp) - s.temp_die_prev - s.temp_dlead,
                    dl as int,
                );
            }
            self.temp_sm = self.temp_sm + shr_i64(t_fp - self.temp_sm, sm);
            self.temp_die_lp = self.temp_die_lp + shr_i64(t_fp - self.temp_die_lp, sm);
            let raw_d: i64 = self.temp_die_lp - self.temp_die_prev;
            self.temp_die_prev = self.temp_die_lp;
            self.temp_dlead = self.temp_dlead + shr_i64(raw_d - self.temp_dlead, dl);
            let lead: i64 = shr_i64(self.config.temp_ff_lag_q8 * self.temp_dlead, 8);
            let clamp: i64 = self.config.temp_ff_lead_clamp_raw << TEMP_FP;
            let low: i64 = self.temp_die_lp - clamp;
            let high: i64 = self.temp_die_lp + clamp;
            let crystal: i64 = self.temp_die_lp + lead;
            self.tcrys_hat = if crystal < low {
                low
            } else if crystal > high {
                high
            } else {
                crystal
            };
        }
    }

    /// Toggles the temperature feedforward.
    pub fn set_temp_ff_enable(&mut self, en: bool)
        ensures
            *final(self) == (DisciplinedClock {
                config: DisciplinedClockConfig { temp_ff_enable: en, ..old(self).config },
                ..*old(self)
            }),
    {
        self.config.temp_ff_enable = en;
    }

    /// Sets the smoothing of the raw temperature, the smoothing of the regression and the stored
    /// gain.
    pub fn set_temp_ff_params(&mut self, sm_shift: u32, shift: u32, gain_q8: i64)
        ensures
            *final(self) == (DisciplinedClock {
                config: DisciplinedClockConfig {
                    temp_ff_sm_shift: sm_shift,
                    temp_ff_shift: shift,
                    temp_ff_gain_q8: gain_q8,
                    ..old(self).config
                },
                ..*old(self)
            }),
    {
        self.config.temp_ff_sm_shift = sm_shift;
        self.config.temp_ff_shift = shift;
        self.config.temp_ff_gain_q8 = gain_q8;
    }

    /// Sets the matched-lead gain, the smoothing of the derivative and the observer gain.
    pub fn set_temp_ff_lag(&mut self, lag_q8: i64, dlead_shift: u32, obs_shift: u32)
        ensures
            *final(self) == (DisciplinedClock {
                config: DisciplinedClockConfig {
                    temp_ff_lag_q8: lag_q8,
                    temp_ff_dlead_shift: dlead_shift,
                    resid_obs_shift: obs_shift,
                    ..old(self).config
                },
                ..*old(self)
            }),
    {
        self.config.temp_ff_lag_q8 = lag_q8;
        self.config.temp_ff_dlead_shift = dlead_shift;
        self.config.resid_obs_shift = obs_shift;
    }

    /// Call this when recovering to lock from holdover: the next `quarantine_samples` samples are
    /// held off, and the past estimate is kept. Before the first sample there is no estimate to
    /// protect, so nothing happens.
    pub fn start_quarantine(&mut self)
        ensures
            *final(self) == (if old(self).samples > 0 {
                DisciplinedClock { quarantine: old(self).config.quarantine_samples, ..*old(self) }
            } else {
                *old(self)
            }),
    {
        if self.samples > 0 {
            self.quarantine = self.config.quarantine_samples;
        }
    }

    /// Whether the recovery quarantine is on.
    pub fn in_quarantine(&self) -> (b: bool)
        ensures
            b == (self.quarantine > 0),
    {
        self.quarantine > 0
    }

    /// Associates a PPS edge with UTC: `capture_ns` and `query_ns` are its times in the two
    /// timebases, `unix_ns` is its UTC.
    pub fn update_epoch(&mut self, capture_ns: u64, query_ns: u64, unix_ns: i64)
        ensures
            *final(self) == (DisciplinedClock {
                epoch_capture_ns: Some(capture_ns),
                epoch_query_ns: Some(query_ns),
                epoch_unix_ns: Some(unix_ns),
                last_query_ns: Some(query_ns),
                ..*old(self)
            }),
    {
        self.epoch_capture_ns = Some(capture_ns);
        self.epoch_query_ns = Some(query_ns);
        self.epoch_unix_ns = Some(unix_ns);
        self.last_query_ns = Some(query_ns);
    }

    /// Frequency-corrects a local elapsed time `d` (ns).
    pub fn corrected(&self, d: i64) -> (r: i64)
        requires
            in_i64(d - offset_part(d as int, self.freq_mppb as int)),
        ensures
            r == d - offset_part(d as int, self.freq_mppb as int),
            d > i64::MIN && -1_000_000_000_000 <= self.freq_mppb <= 1_000_000_000_000
                ==> -1_000_000_000_000 < d * self.freq_mppb - 1_000_000_000_000 * (d - r)
                < 1_000_000_000_000,
    {
        proof {
            if d > i64::MIN && -1_000_000_000_000 <= self.freq_mppb <= 1_000_000_000_000 {
                lemma_share_fits(d as int, self.freq_mppb as int);
                law_offset_is_proportional(d, self.freq_mppb);
            }
        }
        d - scaled_offset(d, self.freq_mppb)
    }

    /// Like [`corrected`](Self::corrected), but also projects the frequency slope across the
    /// elapsed time, as if the crystal kept drifting.
    pub fn corrected_slope(&self, d: i64) -> (r: i64)
        requires
            self.slope_defined(d as int),
        ensures
            r == d - offset_part(d as int, self.freq_mppb as int) - slope_part(
                d as int,
                self.freq_slope_mppb as int,
            ),
            d > i64::MIN && -1_000_000_000_000 <= self.freq_mppb <= 1_000_000_000_000
                ==> -4_000_000_000_000_000_000_000 < 2_000_000_000 * (d * self.freq_mppb)
                + self.freq_slope_mppb * d * d - 2_000_000_000_000_000_000_000 * (d - r)
                < 4_000_000_000_000_000_000_000,
    {
        proof {
            if d > i64::MIN && -1_000_000_000_000 <= self.freq_mppb <= 1_000_000_000_000 {
                lemma_share_fits(d as int, self.freq_mppb as int);
                law_offset_is_proportional(d, self.freq_mppb);
                law_slope_adds_up_quadratically(d, self.freq_slope_mppb);
            }
        }
        let level: i64 = scaled_offset(d, self.freq_mppb);
        let slope: i128 = self.freq_slope_mppb as i128;
        proof {
            lemma_i64_product(slope as int, d as int);
        }
        let slope_term: i64 = (slope * d as i128 * d as i128
            / 2_000_000_000_000_000_000_000i128) as i64;
        d - level - slope_term
    }

    /// Whether [`corrected_slope`](Self::corrected_slope) of `d` is representable at each step.
    pub open spec fn slope_defined(&self, d: int) -> bool {
        let level = offset_part(d, self.freq_mppb as int);
        &&& i128::MIN <= self.freq_slope_mppb * d * d <= i128::MAX
        &&& in_i64(d - level)
        &&& in_i64(d - level - slope_part(d, self.freq_slope_mppb as int))
    }

    /// Estimated frequency offset (ppb), rounded with a half away from zero.
    pub fn freq_ppb(&self) -> (r: i64)
        requires
            i64::MIN + 500 <= self.freq_mppb <= i64::MAX - 500,
        ensures
            r == tdiv(
                self.freq_mppb + (if self.freq_mppb > 0 { 500int } else if self.freq_mppb < 0 {
                    -500
                } else {
                    0
                }),
                1000,
            ),
            self.freq_mppb >= 0 ==> 1000 * r - 500 <= self.freq_mppb < 1000 * r + 500,
            self.freq_mppb <= 0 ==> 1000 * r - 500 < self.freq_mppb <= 1000 * r + 500,
    {
        let half: i64 = if self.freq_mppb > 0 {
            500
        } else if self.freq_mppb < 0 {
            -500
        } else {
            0
        };
        (self.freq_mppb + half) / 1000
    }

    /// Estimated frequency offset (milli-ppb): the level.
    pub fn freq_mppb(&self) -> (r: i64)
        ensures
            r == self.freq_mppb,
    {
        self.freq_mppb
    }

    /// Tracked frequency slope (milli-ppb per sample).
    pub fn freq_slope_mppb(&self) -> (r: i64)
        ensures
            r == self.freq_slope_mppb,
    {
        self.freq_slope_mppb
    }

    /// Whether the output frequency is predicted from temperature.
    pub open spec fn predicts_from_temp(&self) -> bool {
        self.config.temp_ff_enable && self.temp_have && self.temp_var > 0
    }

    /// The predicted frequency (milli-ppb): what temperature explains plus the residual, or else
    /// the level with the slope projected ahead.
    pub open spec fn predicted(&self) -> int {
        if self.predicts_from_temp() {
            feedforward(
                self.temp_cov as int,
                self.temp_var as int,
                self.config.temp_k_clamp_mppb as int,
                self.tcrys_hat - self.temp_ref,
            ) + self.r_resid
        } else {
            self.freq_mppb + self.freq_slope_mppb * self.config.pred_lead_samples
        }
    }

    /// Whether the prediction is representable at each step.
    pub open spec fn predicted_defined(&self) -> bool {
        &&& in_i64(self.predicted())
        &&& self.predicts_from_temp() ==> {
            &&& self.config.temp_k_clamp_mppb >= 0
            &&& in_i64(self.tcrys_hat - self.temp_ref)
        }
        &&& !self.predicts_from_temp() ==> in_i64(
            self.freq_slope_mppb * self.config.pred_lead_samples,
        )
    }

    /// Frequency estimate (milli-ppb) to feed the **output period**.
    pub fn predicted_freq_mppb(&self) -> (r: i64)
        requires
            self.predicted_defined(),
        ensures
            r == self.predicted(),
    {
        if self.config.temp_ff_enable && self.temp_have && self.temp_var > 0 {
            return self.temp_ff_mppb(self.tcrys_hat) + self.r_resid;
        }
        self.freq_mppb + self.freq_slope_mppb * self.config.pred_lead_samples
    }

    /// Frequency (milli-ppb) to feed the output-period steering: the prediction with its deviation
    /// from the level bounded, so that a thermal transient cannot slam the output period.
    pub fn steering_freq_mppb(&self) -> (r: i64)
        requires
            self.predicted_defined(),
            in_i64(self.predicted() - self.freq_mppb),
            self.config.steer_ff_bound_mppb >= 0,
        ensures
            r == self.freq_mppb + bounded(
                self.predicted() - self.freq_mppb,
                self.config.steer_ff_bound_mppb as int,
            ),
            -self.config.steer_ff_bound_mppb <= r - self.freq_mppb
                <= self.config.steer_ff_bound_mppb,
            r < self.predicted() ==> r - self.freq_mppb == self.config.steer_ff_bound_mppb,
            r > self.predicted() ==> self.freq_mppb - r == self.config.steer_ff_bound_mppb,
    {
        let raw: i64 = self.predicted_freq_mppb();
        let delta: i64 = raw - self.freq_mppb;
        self.freq_mppb + clamp_sym(delta, self.config.steer_ff_bound_mppb)
    }

    /// The local time elapsed from an epoch `from` to `to`, both read as signed.
    pub open spec fn elapsed(from: u64, to: u64) -> int {
        (to as i64) - (from as i64)
    }

    /// The UTC of a local time `local` in the timebase whose epoch is `from`.
    pub open spec fn utc_at(&self, from: u64, unix: i64, local: u64) -> int {
        let d = Self::elapsed(from, local);
        unix + d - offset_part(d, self.freq_mppb as int)
    }

    /// Whether [`utc_at`](Self::utc_at) is representable at each step.
    pub open spec fn utc_defined(&self, from: Option<u64>, local: u64) -> bool {
        match (from, self.epoch_unix_ns) {
            (Some(ep), Some(eu)) => {
                let d = Self::elapsed(ep, local);
                &&& in_i64(d)
                &&& in_i64(d - offset_part(d, self.freq_mppb as int))
                &&& in_i64(self.utc_at(ep, eu, local))
            },
            _ => true,
        }
    }

    /// Capture-timebase local time to disciplined UTC (Unix ns); `None` before the epoch is set.
    pub fn now_from_capture_ns(&self, capture_ns: u64) -> (r: Option<i64>)
        requires
            self.utc_defined(self.epoch_capture_ns, capture_ns),
        ensures
            self.epoch_capture_ns is None || self.epoch_unix_ns is None ==> r is None,
            self.epoch_capture_ns is Some && self.epoch_unix_ns is Some ==> r is Some && r->0
                == self.utc_at(self.epoch_capture_ns->0, self.epoch_unix_ns->0, capture_ns),
    {
        let ep: u64 = self.epoch_capture_ns?;
        let eu: i64 = self.epoch_unix_ns?;
        Some(eu + self.corrected(capture_ns as i64 - ep as i64))
    }

    /// The UTC of a capture time when the frequency slope is projected across the elapsed time.
    pub open spec fn utc_holdover_at(&self, from: u64, unix: i64, local: u64) -> int {
        let d = Self::elapsed(from, local);
        unix + d - offset_part(d, self.freq_mppb as int) - slope_part(
            d,
            self.freq_slope_mppb as int,
        )
    }

    /// Whether [`utc_holdover_at`](Self::utc_holdover_at) is representable at each step.
    pub open spec fn utc_holdover_defined(&self, local: u64) -> bool {
        match (self.epoch_capture_ns, self.epoch_unix_ns) {
            (Some(ep), Some(eu)) => {
                let d = Self::elapsed(ep, local);
                &&& in_i64(d)
                &&& self.slope_defined(d)
                &&& in_i64(self.utc_holdover_at(ep, eu, local))
            },
            _ => true,
        }
    }

    /// Slope-aware variant of [`now_from_capture_ns`](Self::now_from_capture_ns) for **holdover**.
    pub fn now_from_capture_ns_holdover(&self, capture_ns: u64) -> (r: Option<i64>)
        requires
            self.utc_holdover_defined(capture_ns),
        ensures
            self.epoch_capture_ns is None || self.epoch_unix_ns is None ==> r is None,
            self.epoch_capture_ns is Some && self.epoch_unix_ns is Some ==> r is Some && r->0
                == self.utc_holdover_at(self.epoch_capture_ns->0, self.epoch_unix_ns->0, capture_ns),
    {
        let ep: u64 = self.epoch_capture_ns?;
        let eu: i64 = self.epoch_unix_ns?;
        Some(eu + self.corrected_slope(capture_ns as i64 - ep as i64))
    }

    /// Query-timebase local time to disciplined UTC (Unix ns); `None` before the epoch is set.
    pub fn now_from_query_ns(&self, query_ns: u64) -> (r: Option<i64>)
        requires
            self.utc_defined(self.epoch_query_ns, query_ns),
        ensures
            self.epoch_query_ns is None || self.epoch_unix_ns is None ==> r is None,
            self.epoch_query_ns is Some && self.epoch_unix_ns is Some ==> r is Some && r->0
                == self.utc_at(self.epoch_query_ns->0, self.epoch_unix_ns->0, query_ns),
    {
        let ei: u64 = self.epoch_query_ns?;
        let eu: i64 = self.epoch_unix_ns?;
        Some(eu + self.corrected(query_ns as i64 - ei as i64))
    }

    /// The local time at which a UTC arrives in the timebase whose epoch is `from`.
    pub open spec fn local_at(&self, from: u64, unix: i64, target: i64) -> int {
        let dt = target - unix;
        (from as i64) + dt + offset_part(dt, self.freq_mppb as int)
    }

    /// Whether [`local_at`](Self::local_at) is representable at each step.
    pub open spec fn local_defined(&self, from: Option<u64>, target: i64) -> bool {
        match (from, self.epoch_unix_ns) {
            (Some(ep), Some(eu)) => {
                let dt = target - eu;
                &&& in_i64(dt)
                &&& in_i64(dt + offset_part(dt, self.freq_mppb as int))
                &&& in_i64(self.local_at(ep, eu, target))
            },
            _ => true,
        }
    }

    /// The **query-timebase** local time (ns) at which a given UTC arrives; `None` before the
    /// epoch is set.
    pub fn query_ns_for_unix_ns(&self, unix_ns: i64) -> (r: Option<i64>)
        requires
            self.local_defined(self.epoch_query_ns, unix_ns),
        ensures
            self.epoch_query_ns is None || self.epoch_unix_ns is None ==> r is None,
            self.epoch_query_ns is Some && self.epoch_unix_ns is Some ==> r is Some && r->0
                == self.local_at(self.epoch_query_ns->0, self.epoch_unix_ns->0, unix_ns),
    {
        let ei: i64 = self.epoch_query_ns? as i64;
        let eu: i64 = self.epoch_unix_ns?;
        let dt: i64 = unix_ns - eu;
        let d: i64 = dt + scaled_offset(dt, self.freq_mppb);
        Some(ei + d)
    }

    /// The **capture-timebase** local time (ns) at which a given UTC arrives: the core of firing
    /// an output at a UTC instant. `None` before the epoch is set.
    pub fn capture_ns_for_unix_ns(&self, unix_ns: i64) -> (r: Option<i64>)
        requires
            self.local_defined(self.epoch_capture_ns, unix_ns),
        ensures
            self.epoch_capture_ns is None || self.epoch_unix_ns is None ==> r is None,
            self.epoch_capture_ns is Some && self.epoch_unix_ns is Some ==> r is Some && r->0
                == self.local_at(self.epoch_capture_ns->0, self.epoch_unix_ns->0, unix_ns),
    {
        let ep: i64 = self.epoch_capture_ns? as i64;
        let eu: i64 = self.epoch_unix_ns?;
        let dt: i64 = unix_ns - eu;
        let d: i64 = dt + scaled_offset(dt, self.freq_mppb);
        Some(ep + d)
    }

    /// **Prediction residual** (ns): how far the disciplined UTC of a capture edge is from the
    /// edge's known UTC, snapped to the nearest second. `None` before the epoch is set.
    pub fn prediction_residual_ns(&self, capture_ns: u64, unix_ns: i64) -> (r: Option<i64>)
        requires
            self.utc_defined(self.epoch_capture_ns, capture_ns),
            self.epoch_capture_ns is Some && self.epoch_unix_ns is Some ==> snappable(
                self.utc_at(self.epoch_capture_ns->0, self.epoch_unix_ns->0, capture_ns) - unix_ns,
            ),
        ensures
            self.epoch_capture_ns is None || self.epoch_unix_ns is None ==> r is None,
            self.epoch_capture_ns is Some && self.epoch_unix_ns is Some ==> r is Some && snapped(
                self.utc_at(self.epoch_capture_ns->0, self.epoch_unix_ns->0, capture_ns) - unix_ns,
                r->0 as int,
            ),
    {
        match self.now_from_capture_ns(capture_ns) {
            Some(predicted) => Some(snap_to_second_ns(predicted - unix_ns)),
            None => None,
        }
    }

    /// Slope-aware variant of [`prediction_residual_ns`](Self::prediction_residual_ns): the
    /// endpoint error of a holdover.
    pub fn prediction_residual_holdover_ns(&self, capture_ns: u64, unix_ns: i64) -> (r: Option<i64>)
        requires
            self.utc_holdover_defined(capture_ns),
            self.epoch_capture_ns is Some && self.epoch_unix_ns is Some ==> snappable(
                self.utc_holdover_at(self.epoch_capture_ns->0, self.epoch_unix_ns->0, capture_ns)
                    - unix_ns,
            ),
        ensures
            self.epoch_capture_ns is None || self.epoch_unix_ns is None ==> r is None,
            self.epoch_capture_ns is Some && self.epoch_unix_ns is Some ==> r is Some && snapped(
                self.utc_holdover_at(self.epoch_capture_ns->0, self.epoch_unix_ns->0, capture_ns)
                    - unix_ns,
                r->0 as int,
            ),
    {
        match self.now_from_capture_ns_holdover(capture_ns) {
            Some(predicted) => Some(snap_to_second_ns(predicted - unix_ns)),
            None => None,
        }
    }

    /// **Fire residual** (ns): how far an output scheduled for `unix_ns` would land from the edge
    /// captured at `capture_ns`, snapped to the nearest second. `None` before the epoch is set.
    pub fn fire_residual_ns(&self, capture_ns: u64, unix_ns: i64) -> (r: Option<i64>)
        requires
            self.local_defined(self.epoch_capture_ns, unix_ns),
            self.epoch_capture_ns is Some && self.epoch_unix_ns is Some ==> snappable(
                self.local_at(self.epoch_capture_ns->0, self.epoch_unix_ns->0, unix_ns) - (
                capture_ns as i64),
            ),
        ensures
            self.epoch_capture_ns is None || self.epoch_unix_ns is None ==> r is None,
            self.epoch_capture_ns is Some && self.epoch_unix_ns is Some ==> r is Some && snapped(
                self.local_at(self.epoch_capture_ns->0, self.epoch_unix_ns->0, unix_ns) - (
                capture_ns as i64),
                r->0 as int,
            ),
    {
        match self.capture_ns_for_unix_ns(unix_ns) {
            Some(tick) => Some(snap_to_second_ns(tick - capture_ns as i64)),
            None => None,
        }
    }

    /// The local-clock ns needed to wait `true_ns` of true time.
    pub fn true_to_local_ns(&self, true_ns: i64) -> (r: i64)
        requires
            in_i64(true_ns + offset_part(true_ns as int, self.freq_mppb as int)),
        ensures
            r == true_ns + offset_part(true_ns as int, self.freq_mppb as int),
            true_ns > i64::MIN && -1_000_000_000_000 <= self.freq_mppb <= 1_000_000_000_000
                ==> -1_000_000_000_000 < true_ns * self.freq_mppb - 1_000_000_000_000 * (r - true_ns)
                < 1_000_000_000_000,
    {
        proof {
            if true_ns > i64::MIN && -1_000_000_000_000 <= self.freq_mppb <= 1_000_000_000_000 {
                lemma_share_fits(true_ns as int, self.freq_mppb as int);
                law_offset_is_proportional(true_ns, self.freq_mppb);
            }
        }
        true_ns + scaled_offset(true_ns, self.freq_mppb)
    }

    /// Elapsed time since the last epoch update (ns, query timebase); 0 before the first.
    pub fn holdover_ns(&self, query_ns: u64) -> (r: u64)
        ensures
            r == (match self.last_query_ns {
                Some(t) => if query_ns >= t { query_ns - t } else { 0 },
                None => 0,
            }),
    {
        match self.last_query_ns {
            Some(t) => query_ns.saturating_sub(t),
            None => 0,
        }
    }
}

/// Whether a residual can be snapped to the nearest second.
pub open spec fn snappable(raw: int) -> bool {
    i64::MIN + 500_000_000 <= raw <= i64::MAX - 500_000_000
}

/// Whether `r` is the sub-second part of `raw`, as [`snap_to_second_ns`] leaves it.
pub open spec fn snapped(raw: int, r: int) -> bool {
    &&& (raw - r) % 1_000_000_000 == 0
    &&& -500_000_000 <= r <= 500_000_000
    &&& raw >= 0 ==> r < 500_000_000
    &&& raw <= 0 ==> r > -500_000_000
}

/// The product of two machine integers fits in 128 bits.
proof fn lemma_i64_product(a: int, b: int)
    requires
        in_i64(a),
        in_i64(b),
    ensures
        -0x4000_0000_0000_0000_0000_0000_0000_0000 <= a * b
            <= 0x4000_0000_0000_0000_0000_0000_0000_0000,
{
    assert(-0x4000_0000_0000_0000_0000_0000_0000_0000 <= a * b
        <= 0x4000_0000_0000_0000_0000_0000_0000_0000) by (nonlinear_arith)
        requires
            -0x8000_0000_0000_0000 <= a <= 0x8000_0000_0000_0000,
            -0x8000_0000_0000_0000 <= b <= 0x8000_0000_0000_0000,
    ;
}

/// The part of `d` that a frequency offset accounts for, without overflow in between.
fn scaled_offset(d: i64, mppb: i64) -> (r: i64)
    ensures
        r == offset_part(d as int, mppb as int),
{
    proof {
        lemma_i64_product(d as int, mppb as int);
    }
    (d as i128 * mppb as i128 / 1_000_000_000_000i128) as i64
}

/// Result of [`Gnssdo::on_pps`].
#[derive(Debug)]
pub struct GnssdoStep {
    /// How the tracker classified this edge.
    pub event: PpsEvent,
    /// The frequency-discipline outcome, or `None` if discipline was not attempted this edge.
    pub freq: Option<FreqUpdate>,
    /// Whether this edge was a holdover recovery (from not locked to locked).
    pub recovered: bool,
}

/// Turn-key GNSS-disciplined clock: a [`PpsTracker`] and a [`DisciplinedClock`] wired with the
/// recommended policy (discipline the frequency only on locked edges and quarantine the estimate
/// for a few edges after recovering from a gap).
#[derive(Debug)]
pub struct Gnssdo {
    tracker: PpsTracker,
    clock: DisciplinedClock,
    last_pps_locked: bool,
}

/// The mathematical state of a [`Gnssdo`].
pub struct GnssdoState {
    /// The tracker's state.
    pub tracker: TrackerState,
    /// The clock.
    pub clock: DisciplinedClock,
    /// Whether the most recent edge was locked.
    pub last_pps_locked: bool,
}

impl GnssdoState {
    /// Whether an edge at `time_us` recovers from holdover.
    pub open spec fn recovers(self, time_us: u64) -> bool {
        self.tracker.classifies(time_us) is Locked && !self.last_pps_locked
    }

    /// Whether an edge disciplines the frequency: it is locked and has an interval.
    pub open spec fn disciplines(self, time_us: u64, interval_ns: i64) -> bool {
        self.tracker.classifies(time_us) is Locked && interval_ns > 0
    }

    /// The clock that an edge's interval is fed to: on a recovery, one in quarantine.
    pub open spec fn prepared(self, time_us: u64) -> DisciplinedClock {
        if self.recovers(time_us) && self.clock.samples > 0 {
            DisciplinedClock { quarantine: self.clock.config.quarantine_samples, ..self.clock }
        } else {
            self.clock
        }
    }

    /// Whether feeding an edge is representable at each step.
    pub open spec fn defined(self, time_us: u64, interval_ns: i64) -> bool {
        &&& self.tracker.defined(time_us)
        &&& self.disciplines(time_us, interval_ns) ==> self.prepared(time_us).freq_defined(
            interval_ns as int,
        )
    }

    /// Whether `after` and `step` follow an edge.
    pub open spec fn follows(
        self,
        time_us: u64,
        interval_ns: i64,
        step: GnssdoStep,
        after: GnssdoState,
    ) -> bool {
        &&& step.event == self.tracker.classifies(time_us)
        &&& step.recovered == self.recovers(time_us)
        &&& after.tracker == self.tracker.next(time_us)
        &&& after.last_pps_locked == (step.event is Locked)
        &&& if self.disciplines(time_us, interval_ns) {
            &&& step.freq == Some(self.prepared(time_us).outcome(interval_ns as int))
            &&& self.prepared(time_us).follows_freq(interval_ns as int, &after.clock)
        } else {
            &&& step.freq is None
            &&& after.clock == self.clock
        }
    }
}

impl View for Gnssdo {
    type V = GnssdoState;

    closed spec fn view(&self) -> GnssdoState {
        GnssdoState {
            tracker: self.tracker@,
            clock: self.clock,
            last_pps_locked: self.last_pps_locked,
        }
    }
}

impl Default for DisciplinedClock {
    fn default() -> (r: Self)
        ensures
            r.is_fresh(),
            r.config.is_default(),
    {
        DisciplinedClock::new()
    }
}

impl Default for Gnssdo {
    fn default() -> (r: Self)
        ensures
            r@.tracker == TrackerState::fresh(r@.tracker.config),
            r@.tracker.config.nominal_us@ == NOMINAL_US,
            r@.tracker.config.tolerance_us == TOLERANCE_US,
            r@.clock.is_fresh(),
            r@.clock.config.is_default(),
            !r@.last_pps_locked,
    {
        Gnssdo::new()
    }
}

impl Gnssdo {
    /// Creates one with the default tracker and clock tuning.
    pub fn new() -> (r: Self)
        ensures
            r@.tracker == TrackerState::fresh(r@.tracker.config),
            r@.tracker.config.nominal_us@ == NOMINAL_US,
            r@.tracker.config.tolerance_us == TOLERANCE_US,
            r@.clock.is_fresh(),
            r@.clock.config.is_default(),
            !r@.last_pps_locked,
    {
        Gnssdo {
            tracker: PpsTracker::new(),
            clock: DisciplinedClock::new(),
            last_pps_locked: false,
        }
    }

    /// Creates one with given tracker and clock configurations.
    pub fn with_config(tracker: PpsTrackerConfig, clock: DisciplinedClockConfig) -> (r: Self)
        ensures
            r@.tracker == TrackerState::fresh(tracker),
            r@.clock.is_fresh(),
            r@.clock.config == clock,
            !r@.last_pps_locked,
    {
        Gnssdo {
            tracker: PpsTracker::with_config(tracker),
            clock: DisciplinedClock::with_config(clock),
            last_pps_locked: false,
        }
    }

    /// Feeds one PPS edge. `capture_time_us` is the edge's running time (us), by which the tracker
    /// spots missed or irregular edges; `interval_ns` is the precise interval since the previous
    /// edge. The frequency is disciplined only when the edge is locked, and the estimate is
    /// quarantined on a recovery.
    pub fn on_pps(&mut self, capture_time_us: u64, interval_ns: i64) -> (step: GnssdoStep)
        requires
            old(self)@.defined(capture_time_us, interval_ns),
        ensures
            old(self)@.follows(capture_time_us, interval_ns, step, final(self)@),
    {
        let event = self.tracker.record(capture_time_us);
        let locked = matches!(event, PpsEvent::Locked { .. });
        let recovered = locked && !self.last_pps_locked;
        self.last_pps_locked = locked;
        let freq = if interval_ns > 0 && locked {
            if recovered {
                self.clock.start_quarantine();
            }
            Some(self.clock.update_freq(interval_ns))
        } else {
            None
        };
        GnssdoStep { event, freq, recovered }
    }

    /// Establishes or refreshes the UTC epoch by pairing a PPS edge with its UTC second.
    pub fn on_utc(&mut self, capture_ns: u64, query_ns: u64, unix_ns: i64)
        ensures
            final(self)@ == (GnssdoState {
                clock: DisciplinedClock {
                    epoch_capture_ns: Some(capture_ns),
                    epoch_query_ns: Some(query_ns),
                    epoch_unix_ns: Some(unix_ns),
                    last_query_ns: Some(query_ns),
                    ..old(self)@.clock
                },
                ..old(self)@
            }),
    {
        self.clock.update_epoch(capture_ns, query_ns, unix_ns);
    }

    /// Feeds a temperature reading (raw sensor units) for the temperature feedforward.
    pub fn update_temp(&mut self, temp: i64)
        requires
            old(self)@.clock.temp_defined(temp),
        ensures
            old(self)@.clock.follows_temp(temp, &final(self)@.clock),
            final(self)@.tracker == old(self)@.tracker,
            final(self)@.last_pps_locked == old(self)@.last_pps_locked,
    {
        self.clock.update_temp(temp);
    }

    /// Toggles the temperature feedforward.
    pub fn set_temp_ff_enable(&mut self, en: bool)
        ensures
            final(self)@ == (GnssdoState {
                clock: DisciplinedClock {
                    config: DisciplinedClockConfig {
                        temp_ff_enable: en,
                        ..old(self)@.clock.config
                    },
                    ..old(self)@.clock
                },
                ..old(self)@
            }),
    {
        self.clock.set_temp_ff_enable(en);
    }

    /// Passes on to [`DisciplinedClock::set_temp_ff_params`].
    pub fn set_temp_ff_params(&mut self, sm_shift: u32, shift: u32, gain_q8: i64)
        ensures
            final(self)@ == (GnssdoState {
                clock: DisciplinedClock {
                    config: DisciplinedClockConfig {
                        temp_ff_sm_shift: sm_shift,
                        temp_ff_shift: shift,
                        temp_ff_gain_q8: gain_q8,
                        ..old(self)@.clock.config
                    },
                    ..old(self)@.clock
                },
                ..old(self)@
            }),
    {
        self.clock.set_temp_ff_params(sm_shift, shift, gain_q8);
    }

    /// Passes on to [`DisciplinedClock::set_temp_ff_lag`].
    pub fn set_temp_ff_lag(&mut self, lag_q8: i64, dlead_shift: u32, obs_shift: u32)
        ensures
            final(self)@ == (GnssdoState {
                clock: DisciplinedClock {
                    config: DisciplinedClockConfig {
                        temp_ff_lag_q8: lag_q8,
                        temp_ff_dlead_shift: dlead_shift,
                        resid_obs_shift: obs_shift,
                        ..old(self)@.clock.config
                    },
                    ..old(self)@.clock
                },
                ..old(self)@
            }),
    {
        self.clock.set_temp_ff_lag(lag_q8, dlead_shift, obs_shift);
    }

    /// Disciplined UTC (ns) from a query-timebase local time; `None` before the epoch is set.
    pub fn now_from_query_ns(&self, query_ns: u64) -> (r: Option<i64>)
        requires
            self@.clock.utc_defined(self@.clock.epoch_query_ns, query_ns),
        ensures
            self@.clock.epoch_query_ns is None || self@.clock.epoch_unix_ns is None ==> r is None,
            self@.clock.epoch_query_ns is Some && self@.clock.epoch_unix_ns is Some ==> r is Some
                && r->0 == self@.clock.utc_at(
                self@.clock.epoch_query_ns->0,
                self@.clock.epoch_unix_ns->0,
                query_ns,
            ),
    {
        self.clock.now_from_query_ns(query_ns)
    }

    /// Estimated crystal frequency offset (ppb), rounded with a half away from zero.
    pub fn freq_ppb(&self) -> (r: i64)
        requires
            i64::MIN + 500 <= self@.clock.freq_mppb <= i64::MAX - 500,
        ensures
            self@.clock.freq_mppb >= 0 ==> r == tdiv(self@.clock.freq_mppb + 500, 1000),
            self@.clock.freq_mppb < 0 ==> r == tdiv(self@.clock.freq_mppb - 500, 1000),
            self@.clock.freq_mppb >= 0 ==> 1000 * r - 500 <= self@.clock.freq_mppb < 1000 * r + 500,
            self@.clock.freq_mppb <= 0 ==> 1000 * r - 500 < self@.clock.freq_mppb <= 1000 * r + 500,
    {
        self.clock.freq_ppb()
    }

    /// Time since the last epoch update (ns): the current holdover duration.
    pub fn holdover_ns(&self, query_ns: u64) -> (r: u64)
        ensures
            r == (match self@.clock.last_query_ns {
                Some(t) => if query_ns >= t { query_ns - t } else { 0 },
                None => 0,
            }),
    {
        self.clock.holdover_ns(query_ns)
    }

    /// Whether the frequency estimate has locked (enough samples seen).
    pub fn frequency_locked(&self) -> (b: bool)
        ensures
            b == self@.clock.locked(),
    {
        self.clock.is_locked()
    }

    /// Whether the most recent edge was classified as locked by the tracker.
    pub fn last_pps_locked(&self) -> (b: bool)
        ensures
            b == self@.last_pps_locked,
    {
        self.last_pps_locked
    }

    /// The inner [`DisciplinedClock`], for finer queries.
    pub fn clock(&self) -> (r: &DisciplinedClock)
        ensures
            *r == self@.clock,
    {
        &self.clock
    }
}

impl DisciplinedClock {
    /// A tuning and a state from which no sample and no temperature within 2^20 raw units can
    /// overflow, for ever (see [`law_sane_clock_never_overflows`] and
    /// [`law_sane_clock_takes_temperatures`]).
    pub open spec fn sane(&self) -> bool {
        &&& self.config.sane_dev_ns@ <= 1_000_000
        &&& self.config.residual_gate_ns@ <= 1_000_000
        &&& 0 <= self.config.slope_max_mppb <= 1_000_000
        &&& 0 <= self.config.residual_slope_widen <= 1_000
        &&& 0 <= self.config.temp_k_clamp_mppb <= 1_000_000_000
        &&& -1_000_000 <= self.config.temp_ff_lag_q8 <= 1_000_000
        &&& 0 <= self.config.temp_ff_lead_clamp_raw <= 0x10_0000
        &&& magnitude(self.freq_mppb as int) <= 4_000_000_000
        &&& magnitude(self.freq_slope_mppb as int) <= self.config.slope_max_mppb
        &&& !self.locked() ==> self.freq_slope_mppb == 0
        &&& magnitude(self.temp_sm as int) <= 0x1000_0000
        &&& magnitude(self.temp_mt as int) <= 0x1000_0000
        &&& magnitude(self.temp_ref as int) <= 0x1000_0000
        &&& magnitude(self.temp_die_lp as int) <= 0x1000_0000
        &&& magnitude(self.temp_die_prev as int) <= 0x1000_0000
        &&& magnitude(self.temp_dlead as int) <= 0x2000_0000
        &&& magnitude(self.tcrys_hat as int) <= 0x2000_0000
        &&& magnitude(self.temp_mf_mppb as int) <= 4_000_000_000
        &&& magnitude(self.temp_cov as int) <= 3_000_000_000_000_000_000
        &&& 0 <= self.temp_var <= 400_000_000_000_000_000
        &&& magnitude(self.r_resid as int) <= 5_000_000_000_000_000
    }

    /// Whether two clocks agree in everything but temperature.
    pub open spec fn agrees_but_temp(&self, other: &Self) -> bool {
        &&& self.config == other.config
        &&& self.freq_mppb == other.freq_mppb
        &&& self.freq_slope_mppb == other.freq_slope_mppb
        &&& self.samples == other.samples
        &&& self.quarantine == other.quarantine
    }
}

/// The post-lock gate of a sane clock is small.
proof fn lemma_sane_gate(c: DisciplinedClock)
    requires
        c.sane(),
    ensures
        0 <= magnitude(c.freq_slope_mppb as int) * c.config.residual_slope_widen <= 1_000_000_000,
        0 <= c.residual_gate() <= 2_000_000_000,
{
    let a = magnitude(c.freq_slope_mppb as int);
    let b = c.config.residual_slope_widen as int;
    assert(0 <= a * b <= 1_000_000_000) by (nonlinear_arith)
        requires
            0 <= a <= 1_000_000,
            0 <= b <= 1_000,
    ;
}

/// The feedforward of a sane clock is small.
proof fn lemma_sane_feedforward(cov: int, var: int, clamp: int, dt: int)
    requires
        0 <= clamp <= 1_000_000_000,
        magnitude(dt) <= 0x3000_0000,
    ensures
        magnitude(feedforward(cov, var, clamp, dt) as int) <= 4_000_000_000_000_000,
{
    let k = bounded(coefficient(cov, var), clamp);
    assert(magnitude(k * dt) <= 1_000_000_000 * 0x3000_0000) by (nonlinear_arith)
        requires
            magnitude(k) <= 1_000_000_000,
            magnitude(dt) <= 0x3000_0000,
    ;
}

/// The products of the regression of a sane clock are small.
proof fn lemma_sane_products(dt: int, df: int)
    requires
        magnitude(dt) <= 0x2000_0000,
        magnitude(df) <= 5_000_000_000,
    ensures
        magnitude(dt * df) <= 3_000_000_000_000_000_000,
        0 <= dt * dt <= 400_000_000_000_000_000,
{
    assert(magnitude(dt * df) <= 0x2000_0000 * 5_000_000_000) by (nonlinear_arith)
        requires
            magnitude(dt) <= 0x2000_0000,
            magnitude(df) <= 5_000_000_000,
    ;
    assert(0 <= dt * dt <= 0x2000_0000 * 0x2000_0000) by (nonlinear_arith)
        requires
            magnitude(dt) <= 0x2000_0000,
    ;
}

/// A sane clock never overflows: whatever intervals it is fed, the next one is defined too.
pub proof fn law_sane_clock_never_overflows(
    c: DisciplinedClock,
    interval_ns: i64,
    after: DisciplinedClock,
)
    requires
        c.sane(),
        c.samples < u32::MAX,
        interval_ns > i64::MIN + NS_PER_SEC,
    ensures
        c.freq_defined(interval_ns as int),
        c.follows_freq(interval_ns as int, &after) ==> after.sane(),
{
    let dev = interval_ns - NS_PER_SEC;
    let m = dev * 1000;
    lemma_sane_gate(c);
    assert(c.config.sane_dev_ns@ as i64 == c.config.sane_dev_ns@);
    assert(c.config.residual_gate_ns@ as i64 == c.config.residual_gate_ns@);
    let resid = m - c.projected();
    lemma_floor_shr_bounds(resid, c.level_shift());
    lemma_floor_shr_bounds(resid, shift_within(c.config.slope_ema_shift, 63));
    if c.outcome(interval_ns as int) is Applied {
        assert(magnitude(m) <= 1_000_000_000);
        if c.learns() {
            let sh = c.regression_shift();
            let dt = c.temp_sm - c.next_mt();
            let df = m - c.next_mf(m);
            lemma_floor_shr_bounds(c.temp_sm - c.temp_mt, sh);
            lemma_floor_shr_bounds(m - c.temp_mf_mppb, sh);
            lemma_sane_products(dt, df);
            lemma_floor_shr_bounds(dt * df - c.temp_cov, sh);
            lemma_floor_shr_bounds(dt * dt - c.temp_var, sh);
            lemma_sane_feedforward(
                c.next_cov(m),
                c.next_var(),
                c.config.temp_k_clamp_mppb as int,
                c.tcrys_hat - c.temp_ref,
            );
            lemma_floor_shr_bounds(
                m - c.explained(m) - c.r_resid,
                shift_within(c.config.resid_obs_shift, 63),
            );
        }
    }
}

/// A sane clock takes every temperature within 2^20 raw units.
pub proof fn law_sane_clock_takes_temperatures(
    c: DisciplinedClock,
    temp: i64,
    after: DisciplinedClock,
)
    requires
        c.sane(),
        -0x10_0000 <= temp <= 0x10_0000,
    ensures
        c.temp_defined(temp),
        c.follows_temp(temp, &after) ==> after.sane(),
{
    let t_fp = DisciplinedClock::fixed_point(temp);
    assert(temp << 8u32 == temp * 256) by (bit_vector)
        requires
            -0x10_0000 <= temp <= 0x10_0000,
    ;
    let raw = c.config.temp_ff_lead_clamp_raw;
    assert(raw << 8u32 == raw * 256) by (bit_vector)
        requires
            0 <= raw <= 0x10_0000,
    ;
    lemma_floor_shr_bounds(t_fp - c.temp_sm, c.temp_shift());
    lemma_floor_shr_bounds(t_fp - c.temp_die_lp, c.temp_shift());
    lemma_floor_shr_bounds(
        c.next_die(temp) - c.temp_die_prev - c.temp_dlead,
        shift_within(c.config.temp_ff_dlead_shift, 63),
    );
    let lag = c.config.temp_ff_lag_q8 as int;
    let dl = c.next_dlead(temp);
    assert(magnitude(lag * dl) <= 1_000_000 * 0x2000_0000) by (nonlinear_arith)
        requires
            magnitude(lag) <= 1_000_000,
            magnitude(dl) <= 0x2000_0000,
    ;
    lemma_floor_shr_bounds(lag * dl, 8);
}

/// A fresh clock with the default tuning is sane.
pub proof fn law_default_clock_is_sane(c: DisciplinedClock)
    requires
        c.is_fresh(),
        c.config.is_default(),
    ensures
        c.sane(),
{
}

/// A gated or quarantined sample leaves the whole estimate alone.
pub proof fn law_rejected_sample_leaves_estimate(
    c: DisciplinedClock,
    interval_ns: int,
    after: DisciplinedClock,
)
    requires
        c.follows_freq(interval_ns, &after),
        !(c.outcome(interval_ns) is Applied),
    ensures
        after == (DisciplinedClock { quarantine: after.quarantine, ..c }),
        after.quarantine <= c.quarantine,
{
}

/// Whether an interval lies inside the emergency-stop window of a clock.
pub open spec fn in_window(c: DisciplinedClock, interval_ns: int) -> bool {
    magnitude(interval_ns - NS_PER_SEC) < c.config.sane_dev_ns@ as i64
}

/// How many of a run of intervals lie inside the emergency-stop window of a clock.
pub open spec fn count_in_window(c: DisciplinedClock, intervals: Seq<int>) -> nat
    decreases intervals.len(),
{
    if intervals.len() == 0 {
        0
    } else {
        count_in_window(c, intervals.drop_last()) + (if in_window(c, intervals.last()) {
            1nat
        } else {
            0
        })
    }
}

/// The quarantine after a recovery holds off exactly as many in-window samples as it was started
/// with, and leaves the estimate as it was. An interval outside the window uses up none of it.
pub proof fn law_quarantine_holds_off(
    clocks: Seq<DisciplinedClock>,
    intervals: Seq<int>,
    k: int,
)
    requires
        clocks.len() == intervals.len() + 1,
        0 <= k <= intervals.len(),
        count_in_window(clocks[0], intervals.take(k)) <= clocks[0].quarantine,
        forall|i: int|
            0 <= i < intervals.len() ==> (#[trigger] clocks[i]).follows_freq(
                intervals[i],
                &clocks[i + 1],
            ),
    ensures
        clocks[k] == (DisciplinedClock {
            quarantine: (clocks[0].quarantine - count_in_window(
                clocks[0],
                intervals.take(k),
            )) as u32,
            ..clocks[0]
        }),
        forall|i: int|
            0 <= i < k ==> (#[trigger] clocks[i]).outcome(intervals[i]) == (if in_window(
                clocks[0],
                intervals[i],
            ) {
                FreqUpdate::Quarantined
            } else {
                FreqUpdate::GatedSane
            }),
    decreases k,
{
    if k > 0 {
        assert(intervals.take(k).drop_last() =~= intervals.take(k - 1));
        law_quarantine_holds_off(clocks, intervals, k - 1);
        assert(clocks[k - 1].follows_freq(intervals[k - 1], &clocks[k - 1 + 1]));
    }
}

/// Before the first sample a quarantine has nothing to protect: the first in-window sample is
/// accepted at once and becomes the level.
pub proof fn law_first_sample_becomes_the_level(
    c: DisciplinedClock,
    interval_ns: int,
    after: DisciplinedClock,
)
    requires
        c.is_fresh(),
        magnitude(interval_ns - NS_PER_SEC) < c.config.sane_dev_ns@ as i64,
        c.follows_freq(interval_ns, &after),
    ensures
        c.outcome(interval_ns) is Applied,
        after.freq_mppb == (interval_ns - NS_PER_SEC) * 1000,
        after.freq_slope_mppb == 0,
        after.samples == 1,
{
}

/// The level moves from its projection toward the measurement and never past it.
pub proof fn law_level_never_overshoots(c: DisciplinedClock, measured: int)
    ensures
        c.projected() <= measured ==> c.projected() <= c.next_level(measured) <= measured,
        c.projected() >= measured ==> measured <= c.next_level(measured) <= c.projected(),
{
    lemma_floor_shr_bounds(measured - c.projected(), c.level_shift());
}

/// A constant offset is a fixed point: a clock that has settled on it with no slope stays there,
/// and predicts it.
pub proof fn law_constant_offset_is_a_fixed_point(c: DisciplinedClock)
    requires
        c.freq_slope_mppb == 0,
        c.config.slope_max_mppb >= 0,
    ensures
        c.next_level(c.freq_mppb as int) == c.freq_mppb,
        c.next_slope(c.freq_mppb as int) == 0,
        !c.predicts_from_temp() ==> c.predicted() == c.freq_mppb,
{
    lemma_floor_shr_bounds(0, c.level_shift());
    lemma_floor_shr_bounds(0, shift_within(c.config.slope_ema_shift, 63));
    assert(0 * c.config.pred_lead_samples == 0);
}

/// The tracked slope never leaves its clamp once it is inside, and a shock freezes it.
pub proof fn law_slope_stays_clamped(c: DisciplinedClock, measured: int)
    requires
        magnitude(c.freq_slope_mppb as int) <= c.config.slope_max_mppb,
    ensures
        magnitude(c.next_slope(measured)) <= c.config.slope_max_mppb,
        magnitude(measured - c.projected()) > c.config.slope_freeze_resid_mppb ==> c.next_slope(
            measured,
        ) == c.freq_slope_mppb,
{
}

/// With the temperature feedforward off, temperature readings change nothing else: two clocks that
/// agree in all but temperature still do after a reading of one of them.
pub proof fn law_disabled_feedforward_ignores_readings(
    c: DisciplinedClock,
    other: DisciplinedClock,
    temp: i64,
    after: DisciplinedClock,
)
    requires
        c.agrees_but_temp(&other),
        c.follows_temp(temp, &after),
    ensures
        after.agrees_but_temp(&other),
{
}

/// With the temperature feedforward off, two clocks that agree in all but temperature judge every
/// sample alike, agree after it, and predict the same frequency: the level with the slope
/// projected ahead.
pub proof fn law_disabled_feedforward_is_inert(
    c: DisciplinedClock,
    other: DisciplinedClock,
    interval_ns: int,
    c_after: DisciplinedClock,
    other_after: DisciplinedClock,
)
    requires
        c.agrees_but_temp(&other),
        !c.config.temp_ff_enable,
        c.follows_freq(interval_ns, &c_after),
        other.follows_freq(interval_ns, &other_after),
    ensures
        c.outcome(interval_ns) == other.outcome(interval_ns),
        c_after.agrees_but_temp(&other_after),
        c.predicted() == c.freq_mppb + c.freq_slope_mppb * c.config.pred_lead_samples,
        c.predicted() == other.predicted(),
        c_after.temp_cov == c.temp_cov && c_after.temp_var == c.temp_var,
{
}

/// Without a slope the holdover read-out is the ordinary one.
pub proof fn law_no_slope_no_difference(c: DisciplinedClock, from: u64, unix: i64, local: u64)
    requires
        c.freq_slope_mppb == 0,
    ensures
        c.utc_holdover_at(from, unix, local) == c.utc_at(from, unix, local),
{
    let d = DisciplinedClock::elapsed(from, local);
    assert(0 * d * d == 0) by (nonlinear_arith);
}

/// The part of an elapsed time that a frequency offset accounts for changes its sign with it, and
/// is nothing where there is no offset. The one exception is a part of exactly the smallest machine
/// integer, which has no opposite.
pub proof fn law_offset_part_is_odd(d: i64, mppb: i64)
    requires
        offset_part(d as int, mppb as int) != i64::MIN,
    ensures
        offset_part(-d, mppb as int) == -offset_part(d as int, mppb as int),
        offset_part(d as int, 0) == 0,
{
    let e = 1_000_000_000_000int;
    let p = d * mppb;
    lemma_i64_product(d as int, mppb as int);
    assert((-d) * mppb == -p) by (nonlinear_arith)
        requires
            p == d * mppb,
    ;
    crate::arith::lemma_tdiv_neg(p, e);
    crate::arith::lemma_tdiv_shrinks(p, e);
    let x = tdiv(p, e) as i128;
    assert(x as i64 != i64::MIN ==> (-x) as i64 == -(x as i64)) by (bit_vector);
    crate::arith::lemma_tdiv_bounds(0, e);
}

/// Waiting and firing agree: from the epoch on, a true time `t` takes the same local time whether it
/// is waited for with [`DisciplinedClock::true_to_local_ns`] or read off either timebase at which
/// the UTC `t` later arrives. Waiting backwards is the opposite of waiting forwards, and with no
/// frequency offset local time is true time.
pub proof fn law_local_times_agree(c: DisciplinedClock, capture: u64, query: u64, unix: i64, t: i64)
    requires
        c.epoch_capture_ns == Some(capture),
        c.epoch_query_ns == Some(query),
        c.epoch_unix_ns == Some(unix),
        in_i64(unix + t),
        offset_part(t as int, c.freq_mppb as int) != i64::MIN,
    ensures
        ({
            let local = t + offset_part(t as int, c.freq_mppb as int);
            let target = (unix + t) as i64;
            &&& c.local_at(query, unix, target) == (query as i64) + local
            &&& c.local_at(capture, unix, target) == (capture as i64) + local
            &&& in_i64(local) && in_i64((query as i64) + local) ==> c.local_defined(
                c.epoch_query_ns,
                target,
            )
            &&& in_i64(local) && in_i64((capture as i64) + local) ==> c.local_defined(
                c.epoch_capture_ns,
                target,
            )
            &&& -t + offset_part(-t, c.freq_mppb as int) == -local
            &&& c.freq_mppb == 0 ==> local == t
        }),
{
    law_offset_part_is_odd(t, c.freq_mppb);
}

/// With an offset of at most 10^15 milli-ppb and epochs below 2^62 ns, every true time of up to
/// 10^15 ns can be waited for and fired at.
pub proof fn law_near_times_are_representable(
    c: DisciplinedClock,
    from: u64,
    unix: i64,
    t: i64,
)
    requires
        magnitude(c.freq_mppb as int) <= 1_000_000_000_000_000,
        magnitude(t as int) <= 1_000_000_000_000_000,
        magnitude(unix as int) <= 0x4000_0000_0000_0000,
        from < 0x4000_0000_0000_0000,
        c.epoch_unix_ns == Some(unix),
    ensures
        in_i64(unix + t),
        in_i64(t + offset_part(t as int, c.freq_mppb as int)),
        c.local_defined(Some(from), (unix + t) as i64),
        offset_part(t as int, c.freq_mppb as int) != i64::MIN,
{
    let e = 1_000_000_000_000int;
    let p = t * c.freq_mppb;
    let m = magnitude(p);
    assert(m <= 1_000_000_000_000_000_000 * e) by (nonlinear_arith)
        requires
            m == magnitude(t * c.freq_mppb),
            magnitude(t as int) <= 1_000_000_000_000_000,
            magnitude(c.freq_mppb as int) <= 1_000_000_000_000_000,
            e == 1_000_000_000_000,
    ;
    assert(m / e <= 1_000_000_000_000_000_000);
    assert(magnitude(tdiv(p, e)) <= 1_000_000_000_000_000_000);
}

/// The UTC of the local time at which a UTC is due is that UTC, up to rounding (2 ns) and to the
/// square of the frequency offset: firing at a UTC instant and reading the clock are inverse.
pub proof fn law_fire_time_round_trips(
    c: DisciplinedClock,
    from: u64,
    unix: i64,
    target: i64,
    local: u64,
)
    requires
        magnitude(c.freq_mppb as int) <= 1_000_000_000_000,
        magnitude(target - unix) <= 1_000_000_000_000_000_000,
        from <= i64::MAX,
        local <= i64::MAX,
        local == c.local_at(from, unix, target),
    ensures
        magnitude(c.utc_at(from, unix, local) - target) * (1_000_000_000_000
            * 1_000_000_000_000) <= 2 * (1_000_000_000_000 * 1_000_000_000_000) + magnitude(
            target - unix,
        ) * (c.freq_mppb * c.freq_mppb),
{
    let e = 1_000_000_000_000int;
    let m = c.freq_mppb as int;
    let dt = target - unix;
    let a = tdiv(dt * m, e);
    crate::arith::lemma_tdiv_trem(dt * m, e);
    let r1 = crate::arith::trem(dt * m, e);
    assert(magnitude(dt * m) <= e * 1_000_000_000_000_000_000) by (nonlinear_arith)
        requires
            magnitude(dt) <= 1_000_000_000_000_000_000,
            magnitude(m) <= 1_000_000_000_000,
            e == 1_000_000_000_000,
    ;
    assert(magnitude(a) <= 1_000_000_000_000_000_000) by {
        crate::arith::lemma_tdiv_bounds(dt * m, e);
        assert(magnitude(a) * e <= magnitude(dt * m)) by (nonlinear_arith)
            requires
                dt * m == e * a + r1,
                -e < r1 < e,
                dt * m >= 0 ==> r1 >= 0,
                dt * m <= 0 ==> r1 <= 0,
                dt * m >= 0 ==> a >= 0,
                dt * m <= 0 ==> a <= 0,
                e > 0,
        ;
    }
    assert(offset_part(dt, m) == a);
    let d = dt + a;
    assert(DisciplinedClock::elapsed(from, local) == d);
    let b = tdiv(d * m, e);
    crate::arith::lemma_tdiv_trem(d * m, e);
    let r2 = crate::arith::trem(d * m, e);
    assert(magnitude(d * m) <= e * 2_000_000_000_000_000_000) by (nonlinear_arith)
        requires
            magnitude(d) <= 2_000_000_000_000_000_000,
            magnitude(m) <= 1_000_000_000_000,
            e == 1_000_000_000_000,
    ;
    assert(magnitude(b) <= 2_000_000_000_000_000_001) by (nonlinear_arith)
        requires
            d * m == e * b + r2,
            -e < r2 < e,
            magnitude(d * m) <= e * 2_000_000_000_000_000_000,
            e == 1_000_000_000_000,
    ;
    assert(offset_part(d, m) == b);
    assert(d * m == dt * m + a * m) by (nonlinear_arith)
        requires
            d == dt + a,
    ;
    assert(c.utc_at(from, unix, local) - target == a - b);
    assert(e * (b - a) == r1 - r2 + a * m) by (nonlinear_arith)
        requires
            d * m == e * b + r2,
            dt * m == e * a + r1,
            d * m == dt * m + a * m,
    ;
    let x = magnitude(a - b);
    let am = magnitude(a * m);
    assert(e * x <= 2 * e + am) by (nonlinear_arith)
        requires
            e * (b - a) == r1 - r2 + a * m,
            -e < r1 < e,
            -e < r2 < e,
            x == magnitude(a - b),
            am == magnitude(a * m),
            e > 0,
    ;
    assert(e * magnitude(a) <= magnitude(dt) * magnitude(m)) by (nonlinear_arith)
        requires
            dt * m == e * a + r1,
            -e < r1 < e,
            dt * m >= 0 ==> r1 >= 0,
            dt * m <= 0 ==> r1 <= 0,
            e > 0,
    ;
    assert(am == magnitude(a) * magnitude(m)) by (nonlinear_arith)
        requires
            am == magnitude(a * m),
    ;
    let mm = m * m;
    assert(mm == magnitude(m) * magnitude(m)) by (nonlinear_arith)
        requires
            mm == m * m,
    ;
    assert(e * am <= magnitude(dt) * mm) by (nonlinear_arith)
        requires
            am == magnitude(a) * magnitude(m),
            mm == magnitude(m) * magnitude(m),
            e * magnitude(a) <= magnitude(dt) * magnitude(m),
            magnitude(m) >= 0,
    ;
    assert(x * (e * e) <= 2 * (e * e) + magnitude(dt) * mm) by (nonlinear_arith)
        requires
            e * x <= 2 * e + am,
            e * am <= magnitude(dt) * mm,
            e > 0,
    ;
}

/// What snapping leaves is determined by the residual alone.
pub proof fn law_snap_is_unique(raw: int, r: int, other: int)
    requires
        snapped(raw, r),
        snapped(raw, other),
    ensures
        r == other,
{
}

/// A residual below half a second survives any whole number of seconds of mispairing.
pub proof fn law_snap_recovers_residual(residual: int, secs: int, r: int)
    requires
        magnitude(residual) < 500_000_000,
        snapped(residual + 1_000_000_000 * secs, r),
    ensures
        r == residual,
{
}

/// The frequency is disciplined on locked edges only, and a recovery with an estimate to protect
/// starts the quarantine: its first in-window sample is held off.
pub proof fn law_gnssdo_disciplines_only_on_locked(
    g: GnssdoState,
    time_us: u64,
    interval_ns: i64,
    step: GnssdoStep,
    after: GnssdoState,
)
    requires
        g.follows(time_us, interval_ns, step, after),
    ensures
        step.freq is Some ==> step.event is Locked,
        step.freq is None ==> after.clock == g.clock,
        step.recovered ==> step.event is Locked && !g.last_pps_locked,
        step.recovered && interval_ns > 0 && g.clock.samples > 0
            && g.clock.config.quarantine_samples > 0 && magnitude(interval_ns - NS_PER_SEC)
            < g.clock.config.sane_dev_ns@ as i64 ==> step.freq == Some(FreqUpdate::Quarantined),
{
}

/// A sample is judged by its distance from one second and from the level, the same on either side.
/// Beyond the emergency window it is stopped; in quarantine it is held off; the first ever is taken;
/// while converging it is taken if and only if it is within the convergence gate of one second; and
/// once locked if and only if it is within the residual gate of the level, which the slope widens.
pub proof fn law_sample_is_judged_by_its_distance(c: DisciplinedClock, interval_ns: int)
    requires
        c.config.sane_dev_ns@ <= i64::MAX,
        c.config.converge_gate_ns@ <= i64::MAX,
        c.config.residual_gate_ns@ <= i64::MAX,
    ensures
        ({
            let dev = interval_ns - 1_000_000_000;
            let gap = dev * 1000 - c.freq_mppb;
            let steep = if c.freq_slope_mppb < 0 { -c.freq_slope_mppb } else {
                c.freq_slope_mppb as int
            };
            let gate = c.config.residual_gate_ns@ * 1000 + steep * c.config.residual_slope_widen;
            let wide = c.config.converge_gate_ns@ as int;
            let r = c.outcome(interval_ns);
            if dev >= c.config.sane_dev_ns@ || dev <= -c.config.sane_dev_ns@ {
                r is GatedSane
            } else if c.quarantine > 0 {
                r is Quarantined
            } else if c.samples == 0 {
                r is Applied
            } else if c.samples < c.config.lock_samples@ {
                &&& r is Applied <==> -wide <= dev <= wide
                &&& r is GatedQuality <==> !(-wide <= dev <= wide)
            } else {
                &&& r is Applied <==> -gate <= gap <= gate
                &&& r is GatedQuality <==> !(-gate <= gap <= gate)
            }
        }),
{
}

/// The gates are symmetric: two samples inside the emergency window that lie equally far above and
/// below are judged alike, once locked with regard to the level and before that with regard to one
/// second.
pub proof fn law_gates_are_symmetric(c: DisciplinedClock, above: int, below: int)
    requires
        -(c.config.sane_dev_ns@ as i64) < above - 1_000_000_000 < c.config.sane_dev_ns@ as i64,
        -(c.config.sane_dev_ns@ as i64) < below - 1_000_000_000 < c.config.sane_dev_ns@ as i64,
        c.samples >= c.config.lock_samples@ ==> (above - 1_000_000_000) * 1000 - c.freq_mppb
            == c.freq_mppb - (below - 1_000_000_000) * 1000,
        c.samples < c.config.lock_samples@ ==> above - 1_000_000_000 == 1_000_000_000 - below,
    ensures
        c.outcome(above) == c.outcome(below),
{
}

/// An accepted sample moves the level from where the slope projected it, toward the measurement, by
/// the residual over a power of two; `q` and `qs` are the residual over the powers of two of the
/// level and of the slope, rounded down. The slope moves only on a locked clock and a residual that
/// is no shock, and stays within its clamp.
pub proof fn law_accepted_sample_moves_level_and_slope(
    c: DisciplinedClock,
    interval_ns: int,
    after: DisciplinedClock,
    q: int,
    qs: int,
)
    requires
        c.follows_freq(interval_ns, &after),
        c.outcome(interval_ns) is Applied,
        c.samples > 0,
        c.config.slope_max_mppb >= 0,
        ({
            let resid = (interval_ns - 1_000_000_000) * 1000 - c.freq_mppb - c.freq_slope_mppb;
            let shift = if c.samples >= c.config.lock_samples@ { c.config.ema_shift } else {
                c.config.ema_shift_fast
            };
            let p = pow2(if shift < 63 { shift as nat } else { 63 });
            let ps = pow2(
                if c.config.slope_ema_shift < 63 { c.config.slope_ema_shift as nat } else { 63 },
            );
            p * q <= resid < p * q + p && ps * qs <= resid < ps * qs + ps
        }),
    ensures
        ({
            let resid = (interval_ns - 1_000_000_000) * 1000 - c.freq_mppb - c.freq_slope_mppb;
            let top = c.config.slope_max_mppb as int;
            let freeze = c.config.slope_freeze_resid_mppb as int;
            let moved = c.freq_slope_mppb + qs;
            &&& after.freq_mppb == c.freq_mppb + c.freq_slope_mppb + q
            &&& after.samples == c.samples + 1
            &&& if c.samples >= c.config.lock_samples@ && -freeze <= resid <= freeze {
                &&& -top <= moved <= top ==> after.freq_slope_mppb == moved
                &&& moved > top ==> after.freq_slope_mppb == top
                &&& moved < -top ==> after.freq_slope_mppb == -top
            } else {
                after.freq_slope_mppb == c.freq_slope_mppb
            }
        }),
{
    let resid = (interval_ns - 1_000_000_000) * 1000 - c.freq_mppb - c.freq_slope_mppb;
    crate::arith::lemma_floor_shr_unique(resid, c.level_shift() as nat, q);
    crate::arith::lemma_floor_shr_unique(
        resid,
        shift_within(c.config.slope_ema_shift, 63) as nat,
        qs,
    );
}

/// A mean with a step of `2^s` moves toward its input by the difference over `2^s`, rounded down.
pub open spec fn steps_toward(mean: int, after: int, input: int, s: nat) -> bool {
    pow2(s) * (after - mean) <= input - mean < pow2(s) * (after - mean) + pow2(s)
}

/// Once locked, with the feedforward on and a temperature known, each accepted sample moves the
/// running means of temperature and frequency toward their inputs, the covariance toward the product
/// of the two deviations, the variance toward the square of the temperature's, and the residual
/// toward what the line just learned does not explain. Otherwise none of them moves.
pub proof fn law_accepted_sample_feeds_the_regression(
    c: DisciplinedClock,
    interval_ns: int,
    after: DisciplinedClock,
)
    requires
        c.follows_freq(interval_ns, &after),
        c.outcome(interval_ns) is Applied,
    ensures
        ({
            let m = (interval_ns - 1_000_000_000) * 1000;
            let s = if c.config.temp_ff_shift < 30 { c.config.temp_ff_shift as nat } else { 30 };
            let o = if c.config.resid_obs_shift < 63 { c.config.resid_obs_shift as nat } else { 63 };
            let dt = c.temp_sm - after.temp_mt;
            let df = m - after.temp_mf_mppb;
            if c.samples > 0 && c.config.temp_ff_enable && c.temp_have && c.samples
                >= c.config.lock_samples@ {
                &&& steps_toward(c.temp_mt as int, after.temp_mt as int, c.temp_sm as int, s)
                &&& steps_toward(c.temp_mf_mppb as int, after.temp_mf_mppb as int, m, s)
                &&& steps_toward(c.temp_cov as int, after.temp_cov as int, dt * df, s)
                &&& steps_toward(c.temp_var as int, after.temp_var as int, dt * dt, s)
                &&& steps_toward(
                    c.r_resid as int,
                    after.r_resid as int,
                    m - feedforward(
                        after.temp_cov as int,
                        after.temp_var as int,
                        c.config.temp_k_clamp_mppb as int,
                        c.tcrys_hat - c.temp_ref,
                    ),
                    o,
                )
            } else {
                &&& after.temp_mt == c.temp_mt
                &&& after.temp_mf_mppb == c.temp_mf_mppb
                &&& after.temp_cov == c.temp_cov
                &&& after.temp_var == c.temp_var
                &&& after.r_resid == c.r_resid
            }
        }),
{
    let m = (interval_ns - 1_000_000_000) * 1000;
    let s = c.regression_shift() as nat;
    let dt = c.temp_sm - c.next_mt();
    let df = m - c.next_mf(m);
    crate::arith::law_shift_rounds_down(c.temp_sm - c.temp_mt, s);
    crate::arith::law_shift_rounds_down(m - c.temp_mf_mppb, s);
    crate::arith::law_shift_rounds_down(dt * df - c.temp_cov, s);
    crate::arith::law_shift_rounds_down(dt * dt - c.temp_var, s);
    crate::arith::law_shift_rounds_down(
        m - c.explained(m) - c.r_resid,
        shift_within(c.config.resid_obs_shift, 63) as nat,
    );
}

/// The learned coefficient is the covariance over the variance, in raw units of temperature: `k`
/// being 256 times the covariance divided by the variance and truncated, the coefficient is `k`, and
/// the feedforward is `k`, held within its clamp, times the distance from the reference. Until the
/// temperature has varied, both are 0.
pub proof fn law_feedforward_is_the_learned_line(cov: i64, var: int, clamp: int, dt: int, k: int)
    requires
        -0x7f_ffff_ffff_ffff <= cov <= 0x7f_ffff_ffff_ffff,
        clamp >= 0,
        var > 0 ==> ({
            let held = if k > clamp { clamp } else if k < -clamp { -clamp } else { k };
            -0x8000_0000_0000_0000 * 256 < held * dt < 0x8000_0000_0000_0000 * 256
        }),
        var > 0 && cov >= 0 ==> var * k <= 256 * cov < var * k + var,
        var > 0 && cov < 0 ==> var * k - var < 256 * cov <= var * k,
    ensures
        ({
            let ff = feedforward(cov as int, var, clamp, dt) as int;
            let held = if k > clamp { clamp } else if k < -clamp { -clamp } else { k };
            if var > 0 {
                &&& coefficient(cov as int, var) == k
                &&& held * dt >= 0 ==> 256 * ff <= held * dt < 256 * ff + 256
                &&& held * dt < 0 ==> 256 * ff - 256 < held * dt <= 256 * ff
            } else {
                coefficient(cov as int, var) == 0 && ff == 0
            }
        }),
{
    assert(cov << 8u32 == cov * 256) by (bit_vector)
        requires
            -0x7f_ffff_ffff_ffff <= cov <= 0x7f_ffff_ffff_ffff,
    ;
    if var > 0 {
        crate::arith::lemma_tdiv_unique(256 * cov, var, k);
        let held = if k > clamp { clamp } else if k < -clamp { -clamp } else { k };
        crate::arith::law_quotient_is_truncated(held * dt, 256);
    }
}

/// The predicted frequency is the learned line plus the residual where temperature has been seen to
/// vary and the feedforward is on, and else the level with the slope projected ahead.
pub proof fn law_prediction_follows_its_model(c: DisciplinedClock)
    ensures
        c.config.temp_ff_enable && c.temp_have && c.temp_var > 0 ==> c.predicted() == feedforward(
            c.temp_cov as int,
            c.temp_var as int,
            c.config.temp_k_clamp_mppb as int,
            c.tcrys_hat - c.temp_ref,
        ) + c.r_resid,
        !(c.config.temp_ff_enable && c.temp_have && c.temp_var > 0) ==> c.predicted()
            == c.freq_mppb + c.freq_slope_mppb * c.config.pred_lead_samples,
{
}

/// The first temperature becomes the reference, with nothing learned yet; a later one moves the two
/// smoothed temperatures toward it and the derivative toward the die's change, and the crystal is
/// put ahead of the die by the derivative times the lag, within the clamp.
pub proof fn law_temperature_moves_the_estimates(
    c: DisciplinedClock,
    temp: i64,
    after: DisciplinedClock,
)
    requires
        c.follows_temp(temp, &after),
        -0x7f_ffff_ffff_ffff <= temp <= 0x7f_ffff_ffff_ffff,
        0 <= c.config.temp_ff_lead_clamp_raw <= 0x7f_ffff_ffff_ffff,
    ensures
        after.temp_now == temp && after.temp_have,
        after.temp_die_prev == after.temp_die_lp,
        !c.temp_have ==> {
            &&& after.temp_sm == 256 * temp
            &&& after.temp_mt == 256 * temp
            &&& after.temp_ref == 256 * temp
            &&& after.temp_die_lp == 256 * temp
            &&& after.tcrys_hat == 256 * temp
            &&& after.temp_dlead == 0
            &&& after.temp_mf_mppb == c.freq_mppb
        },
        c.temp_have ==> ({
            let s = if c.config.temp_ff_sm_shift < 30 { c.config.temp_ff_sm_shift as nat } else {
                30
            };
            let d = if c.config.temp_ff_dlead_shift < 63 {
                c.config.temp_ff_dlead_shift as nat
            } else {
                63
            };
            let lag = c.config.temp_ff_lag_q8 * after.temp_dlead;
            let ahead = after.tcrys_hat - after.temp_die_lp;
            let most = 256 * c.config.temp_ff_lead_clamp_raw;
            &&& steps_toward(c.temp_sm as int, after.temp_sm as int, 256 * temp, s)
            &&& steps_toward(c.temp_die_lp as int, after.temp_die_lp as int, 256 * temp, s)
            &&& steps_toward(
                c.temp_dlead as int,
                after.temp_dlead as int,
                after.temp_die_lp - c.temp_die_prev,
                d,
            )
            &&& -most <= ahead <= most
            &&& -most < ahead < most ==> 256 * ahead <= lag < 256 * ahead + 256
            &&& ahead == most && most > 0 ==> lag >= 256 * most
            &&& ahead == -most && most > 0 ==> lag < 256 - 256 * most
            &&& after.temp_mt == c.temp_mt && after.temp_ref == c.temp_ref
            &&& after.temp_mf_mppb == c.temp_mf_mppb
        }),
{
    assert(temp << 8u32 == temp * 256) by (bit_vector)
        requires
            -0x7f_ffff_ffff_ffff <= temp <= 0x7f_ffff_ffff_ffff,
    ;
    let raw = c.config.temp_ff_lead_clamp_raw;
    assert(raw << 8u32 == raw * 256) by (bit_vector)
        requires
            0 <= raw <= 0x7f_ffff_ffff_ffff,
    ;
    let t_fp = DisciplinedClock::fixed_point(temp);
    crate::arith::law_shift_rounds_down(t_fp - c.temp_sm, c.temp_shift() as nat);
    crate::arith::law_shift_rounds_down(t_fp - c.temp_die_lp, c.temp_shift() as nat);
    crate::arith::law_shift_rounds_down(
        c.next_die(temp) - c.temp_die_prev - c.temp_dlead,
        shift_within(c.config.temp_ff_dlead_shift, 63) as nat,
    );
    vstd::arithmetic::power2::lemma2_to64();
    crate::arith::law_shift_rounds_down(c.config.temp_ff_lag_q8 * c.next_dlead(temp), 8);
}

/// A frequency offset accounts for its share of an elapsed time: wherever the share can be expressed,
/// 10^12 times it is the product of the two, truncated.
pub proof fn law_offset_is_proportional(d: i64, mppb: i64)
    requires
        -0x8000_0000_0000_0000 * 1_000_000_000_000 < d * mppb < 0x8000_0000_0000_0000
            * 1_000_000_000_000,
    ensures
        ({
            let p = d * mppb;
            let part = offset_part(d as int, mppb as int);
            &&& p >= 0 ==> 1_000_000_000_000 * part <= p < 1_000_000_000_000 * part
                + 1_000_000_000_000
            &&& p <= 0 ==> 1_000_000_000_000 * part - 1_000_000_000_000 < p <= 1_000_000_000_000
                * part
        }),
{
    let e = 1_000_000_000_000int;
    let p = d * mppb;
    crate::arith::law_quotient_is_truncated(p, e);
}

/// The share of an offset of up to the whole frequency can be expressed.
proof fn lemma_share_fits(d: int, mppb: int)
    requires
        i64::MIN < d <= i64::MAX,
        -1_000_000_000_000 <= mppb <= 1_000_000_000_000,
    ensures
        -0x8000_0000_0000_0000 * 1_000_000_000_000 < d * mppb < 0x8000_0000_0000_0000
            * 1_000_000_000_000,
{
    assert(-0x7fff_ffff_ffff_ffff * 1_000_000_000_000 <= d * mppb <= 0x7fff_ffff_ffff_ffff
        * 1_000_000_000_000) by (nonlinear_arith)
        requires
            -0x7fff_ffff_ffff_ffff <= d <= 0x7fff_ffff_ffff_ffff,
            -1_000_000_000_000 <= mppb <= 1_000_000_000_000,
    ;
}

/// A frequency slope adds up to the integral of the slope over the elapsed time: 2 * 10^21 times it
/// is the slope times the square of the time, truncated, for every length of holdover.
pub proof fn law_slope_adds_up_quadratically(d: i64, slope: i64)
    requires
        i128::MIN <= slope * d * d <= i128::MAX,
    ensures
        ({
            let x = slope * d * d;
            let part = slope_part(d as int, slope as int);
            &&& x >= 0 ==> 2_000_000_000_000_000_000_000 * part <= x < 2_000_000_000_000_000_000_000
                * part + 2_000_000_000_000_000_000_000
            &&& x <= 0 ==> 2_000_000_000_000_000_000_000 * part - 2_000_000_000_000_000_000_000 < x
                <= 2_000_000_000_000_000_000_000 * part
        }),
{
    crate::arith::law_quotient_is_truncated(slope * d * d, 2_000_000_000_000_000_000_000);
}

/// Twice the holdover makes four times the slope's contribution, up to rounding.
pub proof fn law_doubled_holdover_quadruples_the_drift(d: i64, twice: i64, slope: i64)
    requires
        twice == 2 * d,
        i128::MIN <= slope * twice * twice <= i128::MAX,
    ensures
        -4 <= slope_part(twice as int, slope as int) - 4 * slope_part(d as int, slope as int) <= 4,
{
    let x = slope * d * d;
    assert(slope * twice * twice == 4 * x) by (nonlinear_arith)
        requires
            twice == 2 * d,
            x == slope * d * d,
    ;
    law_slope_adds_up_quadratically(d, slope);
    law_slope_adds_up_quadratically(twice, slope);
}

/// What the holdover read-out takes off the elapsed local time is what offset and slope add up to,
/// within 2 ns; what the ordinary read-out takes off is the offset's share alone, within 1 ns.
pub proof fn law_read_out_takes_off_the_drift(
    c: DisciplinedClock,
    from: u64,
    unix: i64,
    local: u64,
)
    requires
        from <= i64::MAX,
        local <= i64::MAX,
        -1_000_000_000_000 <= c.freq_mppb <= 1_000_000_000_000,
        i128::MIN <= c.freq_slope_mppb * (local - from) * (local - from) <= i128::MAX,
    ensures
        ({
            let d = local - from;
            let plain = unix + d - c.utc_at(from, unix, local);
            let held = unix + d - c.utc_holdover_at(from, unix, local);
            let x = c.freq_slope_mppb * d * d;
            &&& -1_000_000_000_000 < d * c.freq_mppb - 1_000_000_000_000 * plain
                < 1_000_000_000_000
            &&& d * c.freq_mppb >= 0 ==> 0 <= 1_000_000_000_000 * plain <= d * c.freq_mppb
            &&& -4_000_000_000_000_000_000_000 < 2_000_000_000 * (d * c.freq_mppb) + x
                - 2_000_000_000_000_000_000_000 * held < 4_000_000_000_000_000_000_000
        }),
{
    lemma_share_fits(local - from, c.freq_mppb as int);
    law_offset_is_proportional((local - from) as i64, c.freq_mppb);
    law_slope_adds_up_quadratically((local - from) as i64, c.freq_slope_mppb);
}

/// A UTC arrives after as much local time as lies between it and the epoch, plus the share that the
/// frequency offset adds, within 1 ns.
pub proof fn law_local_time_adds_the_offset(
    c: DisciplinedClock,
    from: u64,
    unix: i64,
    target: i64,
)
    requires
        from <= i64::MAX,
        in_i64(target - unix),
        target - unix > i64::MIN,
        -1_000_000_000_000 <= c.freq_mppb <= 1_000_000_000_000,
    ensures
        ({
            let dt = target - unix;
            let added = c.local_at(from, unix, target) - from - dt;
            &&& -1_000_000_000_000 < dt * c.freq_mppb - 1_000_000_000_000 * added
                < 1_000_000_000_000
            &&& dt * c.freq_mppb >= 0 ==> 0 <= 1_000_000_000_000 * added <= dt * c.freq_mppb
        }),
{
    lemma_share_fits(target - unix, c.freq_mppb as int);
    law_offset_is_proportional((target - unix) as i64, c.freq_mppb);
}

/// An edge recovers from holdover if and only if it is locked and the one before was not; the
/// frequency is disciplined on every locked edge that has an interval, and on no other.
pub proof fn law_gnssdo_disciplines_every_locked_edge(
    g: GnssdoState,
    time_us: u64,
    interval_ns: i64,
    step: GnssdoStep,
    after: GnssdoState,
)
    requires
        g.follows(time_us, interval_ns, step, after),
    ensures
        step.recovered <==> step.event is Locked && !g.last_pps_locked,
        step.freq is Some <==> step.event is Locked && interval_ns > 0,
        after.last_pps_locked <==> step.event is Locked,
        step.freq is Some && !step.recovered ==> g.clock.follows_freq(
            interval_ns as int,
            &after.clock,
        ) && step.freq->0 == g.clock.outcome(interval_ns as int),
{
}

/// What [`DisciplinedClock::corrected_slope`] takes off an elapsed time is what a constant offset
/// and a constant slope add up to over it, within 2 ns, for every time and offset that can be
/// expressed.
pub proof fn law_corrected_slope_integrates_the_drift(c: &DisciplinedClock, d: i64, r: i64)
    requires
        call_ensures(DisciplinedClock::corrected_slope, (c, d), r),
        i128::MIN <= c.freq_slope_mppb * d * d <= i128::MAX,
        -0x8000_0000_0000_0000 * 1_000_000_000_000 < d * c.freq_mppb < 0x8000_0000_0000_0000
            * 1_000_000_000_000,
    ensures
        -4_000_000_000_000_000_000_000 < 2_000_000_000 * (d * c.freq_mppb) + c.freq_slope_mppb * d
            * d - 2_000_000_000_000_000_000_000 * (d - r) < 4_000_000_000_000_000_000_000,
{
    law_offset_is_proportional(d, c.freq_mppb);
    law_slope_adds_up_quadratically(d, c.freq_slope_mppb);
}

/// What [`DisciplinedClock::corrected`] takes off an elapsed time, and what
/// [`DisciplinedClock::true_to_local_ns`] adds to a true one, is the offset's share of it, truncated.
pub proof fn law_offset_is_taken_off_and_added(c: &DisciplinedClock, d: i64, less: i64, more: i64)
    requires
        call_ensures(DisciplinedClock::corrected, (c, d), less),
        call_ensures(DisciplinedClock::true_to_local_ns, (c, d), more),
        -0x8000_0000_0000_0000 * 1_000_000_000_000 < d * c.freq_mppb < 0x8000_0000_0000_0000
            * 1_000_000_000_000,
    ensures
        d - less == more - d,
        d * c.freq_mppb >= 0 ==> 1_000_000_000_000 * (d - less) <= d * c.freq_mppb
            < 1_000_000_000_000 * (d - less) + 1_000_000_000_000,
        d * c.freq_mppb <= 0 ==> 1_000_000_000_000 * (d - less) - 1_000_000_000_000 < d
            * c.freq_mppb <= 1_000_000_000_000 * (d - less),
{
    law_offset_is_proportional(d, c.freq_mppb);
}

/// The holdover read-out runs on from the epoch: it is the epoch's UTC at the epoch, and from there
/// on the local time elapsed, less the drift, within 2 ns.
pub proof fn law_holdover_runs_on_from_the_epoch(
    c: &DisciplinedClock,
    capture: u64,
    unix: i64,
    now: u64,
    r: Option<i64>,
)
    requires
        call_ensures(DisciplinedClock::now_from_capture_ns_holdover, (c, now), r),
        c.epoch_capture_ns == Some(capture),
        c.epoch_unix_ns == Some(unix),
        capture <= i64::MAX,
        now <= i64::MAX,
        -1_000_000_000_000 <= c.freq_mppb <= 1_000_000_000_000,
        i128::MIN <= c.freq_slope_mppb * (now - capture) * (now - capture) <= i128::MAX,
    ensures
        r is Some,
        now == capture ==> r == Some(unix),
        ({
            let d = now - capture;
            let drift = unix + d - r->0;
            -4_000_000_000_000_000_000_000 < 2_000_000_000 * (d * c.freq_mppb) + c.freq_slope_mppb
                * d * d - 2_000_000_000_000_000_000_000 * drift < 4_000_000_000_000_000_000_000
        }),
{
    law_read_out_takes_off_the_drift(*c, capture, unix, now);
    if now == capture {
        let m = c.freq_mppb as int;
        let s = c.freq_slope_mppb as int;
        assert(0 * m == 0 && s * 0 * 0 == 0) by (nonlinear_arith);
        crate::arith::lemma_tdiv_bounds(0, 1_000_000_000_000);
        crate::arith::lemma_tdiv_bounds(0, 2_000_000_000_000_000_000_000);
    }
}

/// Both ordinary read-outs run on from the epoch in their own timebase, less the offset's share.
pub proof fn law_read_outs_run_on_from_the_epoch(
    c: &DisciplinedClock,
    capture: u64,
    query: u64,
    unix: i64,
    ahead: u64,
    by_capture: Option<i64>,
    by_query: Option<i64>,
)
    requires
        c.epoch_capture_ns == Some(capture),
        c.epoch_query_ns == Some(query),
        c.epoch_unix_ns == Some(unix),
        capture + ahead <= i64::MAX,
        query + ahead <= i64::MAX,
        call_ensures(
            DisciplinedClock::now_from_capture_ns,
            (c, (capture + ahead) as u64),
            by_capture,
        ),
        call_ensures(DisciplinedClock::now_from_query_ns, (c, (query + ahead) as u64), by_query),
        -1_000_000_000_000 <= c.freq_mppb <= 1_000_000_000_000,
    ensures
        by_capture is Some && by_capture == by_query,
        ({
            let share = unix + ahead - by_capture->0;
            -1_000_000_000_000 < ahead * c.freq_mppb - 1_000_000_000_000 * share
                < 1_000_000_000_000
        }),
{
    lemma_share_fits(ahead as int, c.freq_mppb as int);
    law_offset_is_proportional(ahead as i64, c.freq_mppb);
}

/// The offset in ppb is the level in milli-ppb to the nearest, a half away from zero.
pub proof fn law_ppb_is_the_nearest(c: &DisciplinedClock, r: i64)
    requires
        call_ensures(DisciplinedClock::freq_ppb, (c,), r),
    ensures
        -500 <= c.freq_mppb - 1000 * r <= 500,
        c.freq_mppb > 0 ==> c.freq_mppb - 1000 * r < 500,
        c.freq_mppb < 0 ==> c.freq_mppb - 1000 * r > -500,
{
}

/// What is steered by is the prediction where that is within the bound of the level, and otherwise
/// the bound on the prediction's side.
pub proof fn law_steering_stays_near_the_level(c: &DisciplinedClock, r: i64)
    requires
        call_ensures(DisciplinedClock::steering_freq_mppb, (c,), r),
        c.config.steer_ff_bound_mppb >= 0,
    ensures
        ({
            let lead = c.predicted() - c.freq_mppb;
            let bound = c.config.steer_ff_bound_mppb as int;
            &&& -bound <= lead <= bound ==> r == c.predicted()
            &&& lead > bound ==> r == c.freq_mppb + bound
            &&& lead < -bound ==> r == c.freq_mppb - bound
        }),
{
}

/// The holdover is the time since the last discipline: from then on it grows with the clock, and
/// before it, or without one, there is none.
pub proof fn law_holdover_grows_with_the_clock(
    c: &DisciplinedClock,
    last: u64,
    now: u64,
    more: u64,
    r: u64,
    later: u64,
)
    requires
        c.last_query_ns == Some(last),
        now + more <= u64::MAX,
        call_ensures(DisciplinedClock::holdover_ns, (c, now), r),
        call_ensures(DisciplinedClock::holdover_ns, (c, (now + more) as u64), later),
    ensures
        now <= last ==> r == 0,
        now >= last ==> r == now - last && later == r + more,
{
}

/// A residual loses its whole seconds and nothing else: what is left is within half a second, and is
/// the residual itself where that was within less.
pub proof fn law_snap_drops_whole_seconds(raw: i64, r: i64)
    requires
        call_ensures(snap_to_second_ns, (raw,), r),
    ensures
        (raw - r) % 1_000_000_000 == 0,
        -500_000_000 <= r <= 500_000_000,
        -500_000_000 < raw < 500_000_000 ==> r == raw,
{
}

/// The learned coefficient is 256 times the covariance over the variance, truncated, where that can
/// be expressed; 0 until the temperature has varied.
pub proof fn law_coefficient_is_the_ratio(c: &DisciplinedClock, r: i64)
    requires
        call_ensures(DisciplinedClock::temp_k_mppb_per_unit, (c,), r),
        -0x7f_ffff_ffff_ffff <= c.temp_cov <= 0x7f_ffff_ffff_ffff,
    ensures
        c.temp_var <= 0 ==> r == 0,
        c.temp_var > 0 ==> crate::arith::is_quotient(r as int, 256 * c.temp_cov, c.temp_var as int),
{
    let cov = c.temp_cov;
    assert(cov << 8u32 == cov * 256) by (bit_vector)
        requires
            -0x7f_ffff_ffff_ffff <= cov <= 0x7f_ffff_ffff_ffff,
    ;
    if c.temp_var > 0 {
        crate::arith::law_quotient_is_truncated(256 * cov, c.temp_var as int);
    }
}

/// A fresh clock has no estimate, no epoch and no temperature: it is not locked, it predicts no
/// offset, and no reading of it has moved.
pub proof fn law_fresh_clock_is_blank(c: DisciplinedClock)
    requires
        c.is_fresh(),
    ensures
        c.freq_mppb == 0 && c.freq_slope_mppb == 0 && c.samples == 0 && c.quarantine == 0,
        c.epoch_capture_ns is None && c.epoch_query_ns is None && c.epoch_unix_ns is None
            && c.last_query_ns is None,
        !c.temp_have && c.temp_now == 0 && c.temp_sm == 0 && c.temp_mt == 0 && c.temp_ref == 0,
        c.temp_mf_mppb == 0 && c.temp_cov == 0 && c.temp_var == 0 && c.r_resid == 0,
        c.temp_die_lp == 0 && c.temp_die_prev == 0 && c.temp_dlead == 0 && c.tcrys_hat == 0,
        c.predicted() == 0,
{
    assert(0 * c.config.pred_lead_samples == 0) by (nonlinear_arith);
}

/// The default tuning: a lock after eight samples, 1/8 of each residual before it and 1/32 after it,
/// windows of 1 ms, 100 us and 5 us, a slope of 1/512 within 5 ppb that shocks beyond 2 us freeze,
/// five samples of quarantine, and the feedforward off.
pub proof fn law_default_clock_tuning(c: DisciplinedClockConfig)
    requires
        call_ensures(DisciplinedClockConfig::default, (), c),
    ensures
        c.lock_samples@ == 8 && c.ema_shift_fast == 3 && c.ema_shift == 5,
        c.sane_dev_ns@ == 1_000_000 && c.converge_gate_ns@ == 100_000 && c.residual_gate_ns@
            == 5_000,
        c.slope_ema_shift == 9 && c.slope_max_mppb == 5_000 && c.slope_freeze_resid_mppb
            == 2_000_000,
        c.pred_lead_samples == 1 && c.residual_slope_widen == 8 && c.quarantine_samples == 5,
        !c.temp_ff_enable && c.temp_ff_shift == 7 && c.temp_ff_sm_shift == 4,
        c.temp_ff_gain_q8 == 64 && c.temp_ff_lag_q8 == 1536 && c.temp_ff_dlead_shift == 2,
        c.resid_obs_shift == 2 && c.temp_k_clamp_mppb == 100_000,
        c.temp_ff_lead_clamp_raw == 64 && c.steer_ff_bound_mppb == 100_000,
{
}

} // verus!
