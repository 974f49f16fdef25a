//! Stratum-1 server policy: deciding *whether* the time may be served, and what to claim about it.
//!
//! Being a reference clock shows up here: refusing to transmit while undisciplined, growing root
//! dispersion through a holdover, and pinning stratum 1 with a source identifier. The clock's state
//! comes in as plain integers.

use vstd::prelude::*;
use crate::packet::{LeapIndicator, Mode, NtpPacket};
use crate::timestamp::{NtpShort, NtpTimestamp};

verus! {

use crate::arith::smaller;
use crate::timestamp::{short_bits, wire_bits};

/// Static description of this reference clock.
#[derive(Clone, Copy, PartialEq, Eq, Debug)]
pub struct ServerConfig {
    /// log2 seconds of the resolution at which a transmission can be timestamped. Claiming better
    /// corrupts a client's source selection.
    pub precision: i8,
    /// log2 seconds between broadcasts.
    pub poll: i8,
    /// Four-character source code, e.g. `GPS\\0`.
    pub reference_id: [u8; 4],
    /// Our own uncertainty when freshly disciplined (ns): the floor of root dispersion.
    pub base_dispersion_ns: u64,
    /// Bound on fractional frequency error (ppb) used to grow dispersion during holdover.
    pub holdover_drift_ppb: u64,
    /// Stop serving once holdover exceeds this (ns).
    pub max_holdover_ns: u64,
}

/// What the discipline core says about the clock right now.
#[derive(Clone, Copy, PartialEq, Eq, Structural, Debug)]
pub struct ClockState {
    /// UTC of the last discipline update: NTP's reference timestamp. `None` before the first
    /// pairing of a PPS edge with UTC.
    pub last_update_unix_ns: Option<i64>,
    /// Time since that update (ns). Non-zero means extrapolating.
    pub holdover_ns: u64,
    /// Whether the frequency estimate has locked.
    pub frequency_locked: bool,
}

/// Why nothing is served.
#[derive(Clone, Copy, PartialEq, Eq, Structural, Debug)]
pub enum SilentReason {
    /// No UTC epoch yet: the time is not known.
    NoEpoch,
    /// The frequency estimate has not locked, so the drift cannot be bounded.
    FrequencyUnlocked,
    /// Holdover has run longer than the configured limit.
    HoldoverExceeded,
}

/// Whether to transmit, and what.
#[derive(Clone, Copy, PartialEq, Eq, Debug)]
pub enum ServeDecision {
    /// Transmit this packet.
    Serve(NtpPacket),
    /// Transmit nothing: an unsynchronized beacon would only be noise on the wire.
    Silent(SilentReason),
}

/// The NTP version spoken.
pub const NTP_VERSION: u8 = 4;

/// The stratum of a primary reference.
const PRIMARY_STRATUM: u8 = 1;

/// The dispersion (ns) after a holdover: the floor, plus what the frequency bound could have
/// accumulated, stopping at the largest value.
pub open spec fn dispersion(cfg: ServerConfig, holdover_ns: int) -> int {
    smaller(
        cfg.base_dispersion_ns + (holdover_ns * cfg.holdover_drift_ppb) / 1_000_000_000,
        u64::MAX as int,
    )
}

/// Root dispersion (ns) for a given holdover. A wrapped dispersion would advertise a better clock
/// than there is, so it saturates.
pub fn root_dispersion_ns(cfg: &ServerConfig, holdover_ns: u64) -> (r: u64)
    ensures
        r == dispersion(*cfg, holdover_ns as int),
        r < u64::MAX ==> 1_000_000_000 * (r - cfg.base_dispersion_ns) <= holdover_ns
            * cfg.holdover_drift_ppb < 1_000_000_000 * (r - cfg.base_dispersion_ns + 1),
        r == u64::MAX <==> 1_000_000_000 * cfg.base_dispersion_ns + holdover_ns
            * cfg.holdover_drift_ppb >= 1_000_000_000 * u64::MAX,
{
    proof {
        law_dispersion_counts_every_nanosecond(*cfg, holdover_ns);
    }
    let (h, p): (u128, u128) = (holdover_ns as u128, cfg.holdover_drift_ppb as u128);
    assert(0 <= h * p <= 0xffff_ffff_ffff_ffff * 0xffff_ffff_ffff_ffff) by (nonlinear_arith)
        requires
            0 <= h <= 0xffff_ffff_ffff_ffff,
            0 <= p <= 0xffff_ffff_ffff_ffff,
    ;
    let growth: u128 = h * p / 1_000_000_000;
    let growth: u64 = if growth > u64::MAX as u128 {
        u64::MAX
    } else {
        growth as u64
    };
    cfg.base_dispersion_ns.saturating_add(growth)
}

/// Why a clock may not be served, if so. Not knowing the time comes first, then being unable to
/// bound the drift, then too long a holdover.
pub open spec fn silence(cfg: ServerConfig, state: ClockState) -> Option<SilentReason> {
    if state.last_update_unix_ns is None {
        Some(SilentReason::NoEpoch)
    } else if !state.frequency_locked {
        Some(SilentReason::FrequencyUnlocked)
    } else if state.holdover_ns > cfg.max_holdover_ns {
        Some(SilentReason::HoldoverExceeded)
    } else {
        None
    }
}

/// Says why the clock may not be served, if so, without building a packet.
pub fn silent_reason(cfg: &ServerConfig, state: &ClockState) -> (r: Option<SilentReason>)
    ensures
        r == silence(*cfg, *state),
{
    if state.last_update_unix_ns.is_none() {
        Some(SilentReason::NoEpoch)
    } else if !state.frequency_locked {
        Some(SilentReason::FrequencyUnlocked)
    } else if state.holdover_ns > cfg.max_holdover_ns {
        Some(SilentReason::HoldoverExceeded)
    } else {
        None
    }
}

/// Whether a packet is the broadcast that a clock may send at `transmit_unix_ns`.
pub open spec fn is_broadcast(
    cfg: ServerConfig,
    state: ClockState,
    transmit_unix_ns: i64,
    p: NtpPacket,
) -> bool {
    &&& p.leap is NoWarning
    &&& p.version == NTP_VERSION
    &&& p.mode is Broadcast
    &&& p.stratum == 1
    &&& p.poll == cfg.poll
    &&& p.precision == cfg.precision
    &&& p.root_delay@ == 0
    &&& p.root_dispersion@ == short_bits(dispersion(cfg, state.holdover_ns as int))
    &&& p.reference_id == cfg.reference_id
    &&& p.reference_timestamp@ == wire_bits(state.last_update_unix_ns->0 as int)
    &&& p.origin_timestamp@ == 0
    &&& p.receive_timestamp@ == 0
    &&& p.transmit_timestamp@ == wire_bits(transmit_unix_ns as int)
}

/// Builds the broadcast packet for a transmission scheduled at `transmit_unix_ns`.
///
/// The transmit timestamp is **passed in**: for a one-way broadcast it must describe when the frame
/// leaves, which is decided by the transmit schedule.
pub fn broadcast(cfg: &ServerConfig, state: &ClockState, transmit_unix_ns: i64) -> (r:
    ServeDecision)
    ensures
        match r {
            ServeDecision::Silent(reason) => silence(*cfg, *state) == Some(reason),
            ServeDecision::Serve(p) => silence(*cfg, *state) is None && is_broadcast(
                *cfg,
                *state,
                transmit_unix_ns,
                p,
            ),
        },
{
    if let Some(reason) = silent_reason(cfg, state) {
        return ServeDecision::Silent(reason);
    }
    let last_update: i64 = match state.last_update_unix_ns {
        Some(t) => t,
        None => {
            return ServeDecision::Silent(SilentReason::NoEpoch);
        },
    };
    ServeDecision::Serve(
        NtpPacket {
            leap: LeapIndicator::NoWarning,
            version: NTP_VERSION,
            mode: Mode::Broadcast,
            stratum: PRIMARY_STRATUM,
            poll: cfg.poll,
            precision: cfg.precision,
            root_delay: NtpShort::zero(),
            root_dispersion: NtpShort::from_nanos(root_dispersion_ns(cfg, state.holdover_ns)),
            reference_id: cfg.reference_id,
            reference_timestamp: NtpTimestamp::from_unix_ns(last_update),
            origin_timestamp: NtpTimestamp::zero(),
            receive_timestamp: NtpTimestamp::zero(),
            transmit_timestamp: NtpTimestamp::from_unix_ns(transmit_unix_ns),
        },
    )
}

/// Dispersion never falls below its floor and never shrinks as the holdover goes on, neither in
/// nanoseconds nor in the packet.
pub proof fn law_dispersion_only_grows(cfg: ServerConfig, h1: int, h2: int)
    requires
        0 <= h1 <= h2,
    ensures
        cfg.base_dispersion_ns <= dispersion(cfg, h1) <= dispersion(cfg, h2),
        short_bits(dispersion(cfg, h1)) <= short_bits(dispersion(cfg, h2)),
{
    let p = cfg.holdover_drift_ppb as int;
    assert(0 <= h1 * p <= h2 * p) by (nonlinear_arith)
        requires
            0 <= h1 <= h2,
            p >= 0,
    ;
    crate::timestamp::law_short_is_monotone(dispersion(cfg, h1), dispersion(cfg, h2));
}

/// A served packet lets a receiver whose clock is within 68 years read the scheduled transmit time
/// back to the nanosecond.
pub proof fn law_served_time_is_exact(
    cfg: ServerConfig,
    state: ClockState,
    transmit_unix_ns: i64,
    p: NtpPacket,
    reference_unix_ns: i64,
)
    requires
        is_broadcast(cfg, state, transmit_unix_ns, p),
        transmit_unix_ns >= -9_223_372_036_000_000_000,
        crate::arith::magnitude(
            crate::timestamp::ntp_seconds(transmit_unix_ns as int)
                - crate::timestamp::ntp_seconds(reference_unix_ns as int),
        ) < 0x8000_0000,
    ensures
        crate::timestamp::unix_in_era(
            p.transmit_timestamp@,
            crate::timestamp::nearest_era(p.transmit_timestamp@, reference_unix_ns as int),
        ) == transmit_unix_ns,
{
    crate::timestamp::law_nearest_era_recovers_instant(transmit_unix_ns, reference_unix_ns);
}

/// Below saturation the dispersion above the floor is the drift that the holdover could have
/// accumulated, to the nanosecond: never more than it, and never a nanosecond less.
pub proof fn law_dispersion_counts_every_nanosecond(cfg: ServerConfig, holdover_ns: u64)
    ensures
        ({
            let d = dispersion(cfg, holdover_ns as int);
            let drift = holdover_ns * cfg.holdover_drift_ppb;
            let floor = cfg.base_dispersion_ns as int;
            if 1_000_000_000 * floor + drift < 1_000_000_000 * (u64::MAX + 1) {
                1_000_000_000 * (d - floor) <= drift < 1_000_000_000 * (d - floor) + 1_000_000_000
            } else {
                d == u64::MAX
            }
        }),
{
    assert(holdover_ns * cfg.holdover_drift_ppb >= 0) by (nonlinear_arith);
}

/// Below saturation the dispersion strictly grows once another nanosecond of drift has accumulated.
pub proof fn law_dispersion_grows_with_the_drift(cfg: ServerConfig, h1: u64, h2: u64)
    requires
        h2 * cfg.holdover_drift_ppb >= h1 * cfg.holdover_drift_ppb + 1_000_000_000,
        dispersion(cfg, h1 as int) < u64::MAX,
    ensures
        dispersion(cfg, h1 as int) < dispersion(cfg, h2 as int),
{
    law_dispersion_counts_every_nanosecond(cfg, h1);
    law_dispersion_counts_every_nanosecond(cfg, h2);
}

/// A clock is served if and only if its time is known, its frequency is locked and the holdover is
/// not beyond the limit; each reason for silence is told apart.
pub proof fn law_served_iff_disciplined(cfg: ServerConfig, state: ClockState)
    ensures
        silence(cfg, state) is None <==> state.last_update_unix_ns is Some && state.frequency_locked
            && state.holdover_ns <= cfg.max_holdover_ns,
        silence(cfg, state) == Some(SilentReason::NoEpoch) <==> state.last_update_unix_ns is None,
        silence(cfg, state) == Some(SilentReason::FrequencyUnlocked)
            <==> state.last_update_unix_ns is Some && !state.frequency_locked,
        silence(cfg, state) == Some(SilentReason::HoldoverExceeded)
            <==> state.last_update_unix_ns is Some && state.frequency_locked && state.holdover_ns
            > cfg.max_holdover_ns,
{
}

/// What a served packet claims: version 4, a broadcast of stratum 1 without a leap warning, no delay
/// to its reference, a dispersion that is the clock's to the nearest 2^-16 s, the source and the
/// figures of the configuration, when the clock was last set, and when the packet departs. There is
/// no question that it answers.
pub proof fn law_broadcast_claims_what_it_is(
    cfg: ServerConfig,
    state: ClockState,
    transmit_unix_ns: i64,
    p: NtpPacket,
)
    requires
        is_broadcast(cfg, state, transmit_unix_ns, p),
        state.last_update_unix_ns is Some,
    ensures
        p.leap is NoWarning && p.version == 4 && p.mode is Broadcast && p.stratum == 1,
        p.poll == cfg.poll && p.precision == cfg.precision && p.reference_id == cfg.reference_id,
        p.root_delay@ == 0 && p.origin_timestamp@ == 0 && p.receive_timestamp@ == 0,
        p.root_dispersion@ < u32::MAX ==> -500_000_000 <= p.root_dispersion@ * 1_000_000_000
            - dispersion(cfg, state.holdover_ns as int) * 65_536 <= 500_000_000,
        p.reference_timestamp@ == wire_bits(state.last_update_unix_ns->0 as int),
        p.transmit_timestamp@ == wire_bits(transmit_unix_ns as int),
{
    law_dispersion_counts_every_nanosecond(cfg, state.holdover_ns);
    assert(state.holdover_ns * cfg.holdover_drift_ppb >= 0) by (nonlinear_arith);
    crate::timestamp::law_short_is_nearest(dispersion(cfg, state.holdover_ns as int) as u64);
}

/// What [`root_dispersion_ns`] gives is the floor and the drift of the holdover, to the nanosecond:
/// a longer holdover never gives less, and one with another nanosecond of drift gives more, up to
/// the largest value.
pub proof fn law_root_dispersion_accumulates(
    cfg: &ServerConfig,
    h1: u64,
    h2: u64,
    r1: u64,
    r2: u64,
)
    requires
        call_ensures(root_dispersion_ns, (cfg, h1), r1),
        call_ensures(root_dispersion_ns, (cfg, h2), r2),
        h1 <= h2,
    ensures
        cfg.base_dispersion_ns <= r1 <= r2,
        r1 < u64::MAX ==> 1_000_000_000 * (r1 - cfg.base_dispersion_ns) <= h1
            * cfg.holdover_drift_ppb < 1_000_000_000 * (r1 - cfg.base_dispersion_ns + 1),
        r1 < u64::MAX && h2 * cfg.holdover_drift_ppb >= h1 * cfg.holdover_drift_ppb + 1_000_000_000
            ==> r1 < r2,
{
    law_dispersion_only_grows(*cfg, h1 as int, h2 as int);
    law_dispersion_counts_every_nanosecond(*cfg, h1);
    law_dispersion_counts_every_nanosecond(*cfg, h2);
}

/// A packet goes out if and only if the clock is disciplined, and it says when it departs; otherwise
/// the reason is given.
pub proof fn law_broadcast_needs_discipline(
    cfg: &ServerConfig,
    state: &ClockState,
    transmit_unix_ns: i64,
    d: ServeDecision,
)
    requires
        call_ensures(broadcast, (cfg, state, transmit_unix_ns), d),
    ensures
        d is Serve <==> state.last_update_unix_ns is Some && state.frequency_locked
            && state.holdover_ns <= cfg.max_holdover_ns,
        d matches ServeDecision::Serve(p) ==> p.transmit_timestamp@ == wire_bits(
            transmit_unix_ns as int,
        ) && p.stratum == 1 && p.mode is Broadcast && p.version == 4,
        d matches ServeDecision::Silent(why) ==> silence(*cfg, *state) == Some(why),
{
    law_served_iff_disciplined(*cfg, *state);
}

} // verus!
