//! Which edge of the receiver's 1PPS marks the second.
//!
//! The capture watches for a rising edge. The pulse on this board idles high and goes low for
//! 100 ms, so the rising edge is its end, and the pin has to be inverted. Nothing downstream would
//! notice: every interval is still a second, and the clock is simply 100 ms late.

use vstd::prelude::*;

verus! {

/// The level that a pulse goes to.
#[derive(Debug, Clone, Copy, PartialEq, Eq, Structural)]
pub enum PpsPolarity {
    /// It goes high; the rising edge marks the second.
    ActiveHigh,
    /// It goes low; the falling edge marks the second.
    ActiveLow,
}

/// How long a pin is watched to find its polarity (ms): long enough to hold a whole second.
pub const PROBE_WINDOW_MS: u64 = 1_500;

/// How often it is looked at (us).
pub const PROBE_STEP_US: u64 = 500;

/// The polarity that this firmware is built for. It is configured rather than measured: without a
/// fix the receiver drives no pulse, and a resting pin looks like an answer.
pub fn pps_polarity() -> (p: PpsPolarity)
    ensures
        p is ActiveLow,
{
    PpsPolarity::ActiveLow
}

impl PpsPolarity {
    /// Whether the pin has to be inverted for the capture to land on the marking edge.
    pub fn inverts(self) -> (b: bool)
        ensures
            b == (self is ActiveLow),
    {
        matches!(self, PpsPolarity::ActiveLow)
    }

    /// What the log says of the configured capture.
    pub fn capture_note(self) -> (s: &'static str)
        ensures
            s@ == (match self {
                PpsPolarity::ActiveLow => "active low, capturing the falling edge"@,
                PpsPolarity::ActiveHigh => "active high, capturing the rising edge"@,
            }),
    {
        match self {
            PpsPolarity::ActiveLow => "active low, capturing the falling edge",
            PpsPolarity::ActiveHigh => "active high, capturing the rising edge",
        }
    }
}

/// What a probe comes to.
#[derive(Debug, Clone, Copy, PartialEq, Eq, Structural)]
pub struct ProbeVerdict {
    /// How much of the time the pin was high (percent).
    pub duty_percent: u8,
    /// The polarity, if a pulse was seen at all.
    pub polarity: Option<PpsPolarity>,
}

/// Concludes a probe of a pin: without a pulse there is nothing to conclude, whatever level the
/// pin rested at.
pub fn conclude_probe(
    saw_pulse: bool,
    duty_percent: Option<u8>,
    polarity: Option<PpsPolarity>,
) -> (v: ProbeVerdict)
    ensures
        v.duty_percent == (match duty_percent {
            Some(d) => d,
            None => 0,
        }),
        v.polarity == (if saw_pulse {
            polarity
        } else {
            None
        }),
{
    let duty: u8 = match duty_percent {
        Some(d) => d,
        None => 0,
    };
    ProbeVerdict {
        duty_percent: duty,
        polarity: if saw_pulse {
            polarity
        } else {
            None
        },
    }
}

/// The pin is inverted where the falling edge marks the second, and only there; this board's does.
pub proof fn law_falling_edge_is_inverted(p: PpsPolarity, b: bool, ours: PpsPolarity)
    requires
        call_ensures(PpsPolarity::inverts, (p,), b),
        call_ensures(pps_polarity, (), ours),
    ensures
        b <==> p is ActiveLow,
        ours is ActiveLow,
{
}

/// Without a pulse nothing is concluded, whatever level the pin rested at; with one, what was seen.
pub proof fn law_resting_pin_is_no_answer(
    duty: Option<u8>,
    polarity: Option<PpsPolarity>,
    resting: ProbeVerdict,
    seen: ProbeVerdict,
)
    requires
        call_ensures(conclude_probe, (false, duty, polarity), resting),
        call_ensures(conclude_probe, (true, duty, polarity), seen),
    ensures
        resting.polarity is None,
        seen.polarity == polarity,
        duty matches Some(d) ==> seen.duty_percent == d && resting.duty_percent == d,
        duty is None ==> seen.duty_percent == 0 && resting.duty_percent == 0,
{
}

} // verus!
