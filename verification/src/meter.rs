//! Measuring instruments: do several counters share one timebase, how fast does the link transmit,
//! and what does it receive.

use vstd::prelude::*;
use crate::frame::frame_len;
use crate::ticks::tick_delta;

verus! {

use crate::frame::{frame_length, MAX_UDP_PAYLOAD};
use crate::ticks::centred;

/// Bytes on the wire ahead of every frame.
pub const PREAMBLE_LEN: usize = 8;

/// The gap between two frames (bytes).
pub const IFG_LEN: usize = 12;

/// Frames that a measurement is averaged over.
pub const ITERS: u32 = 200;

/// Largest payload that fits an MTU of 1500 bytes.
pub const MAX_PAYLOAD: usize = 1472;

/// What three counters said of one edge.
#[derive(Debug, Clone, Copy, PartialEq, Eq, Structural)]
pub struct CounterReport {
    /// Edges so far. It wraps.
    pub edges: u32,
    /// The second counter against the first (ticks).
    pub ba: i64,
    /// The third counter against the first (ticks).
    pub ca: i64,
    /// How far the second has moved since the first edge (ticks).
    pub drift_b: i64,
    /// How far the third has moved since the first edge (ticks).
    pub drift_c: i64,
    /// Whether to report this edge.
    pub report: bool,
    /// Whether either has moved: if so, they are not one timebase.
    pub moved: bool,
}

/// Watches three counters that stamp the same edges. Their readings mean nothing by themselves;
/// that the differences stay constant is what makes them one timebase.
#[derive(Debug, Clone, Copy, PartialEq, Eq, Structural)]
pub struct CounterWatch {
    /// Edges so far. It wraps.
    pub edges: u32,
    /// The first difference of the second counter.
    pub first_ba: Option<i64>,
    /// The first difference of the third counter.
    pub first_ca: Option<i64>,
}

/// A first value, or the one given where there is none yet.
pub open spec fn base(first: Option<i64>, now: int) -> int {
    match first {
        Some(v) => v as int,
        None => now,
    }
}

impl CounterWatch {
    /// What holds of every watch: a difference of two readings fits 32 bits.
    pub open spec fn wf(self) -> bool {
        &&& self.first_ba matches Some(v) ==> i32::MIN <= v <= i32::MAX
        &&& self.first_ca matches Some(v) ==> i32::MIN <= v <= i32::MAX
    }

    /// Before the first edge.
    pub fn new() -> (r: Self)
        ensures
            r == (CounterWatch { edges: 0, first_ba: None, first_ca: None }),
            r.wf(),
    {
        CounterWatch { edges: 0, first_ba: None, first_ca: None }
    }

    /// An edge that not every counter reported.
    pub fn on_missing(&mut self)
        ensures
            *final(self) == (CounterWatch {
                edges: ((old(self).edges + 1) % 0x1_0000_0000) as u32,
                ..*old(self)
            }),
    {
        self.edges = self.edges.wrapping_add(1);
    }

    /// An edge with the readings of all three.
    pub fn on_edge(&mut self, ra: u32, rb: u32, rc: u32) -> (r: CounterReport)
        requires
            old(self).wf(),
        ensures
            final(self).wf(),
            *final(self) == (CounterWatch {
                edges: ((old(self).edges + 1) % 0x1_0000_0000) as u32,
                first_ba: Some(base(old(self).first_ba, centred(ra - rb)) as i64),
                first_ca: Some(base(old(self).first_ca, centred(ra - rc)) as i64),
            }),
            r.edges == final(self).edges,
            r.ba == centred(ra - rb),
            r.ca == centred(ra - rc),
            r.drift_b == r.ba - base(old(self).first_ba, r.ba as int),
            r.drift_c == r.ca - base(old(self).first_ca, r.ca as int),
            r.report == (r.edges <= 5 || r.edges % 16 == 0),
            r.moved == (r.drift_b != 0 || r.drift_c != 0),
    {
        let ba: i64 = tick_delta(ra, rb) as i64;
        let ca: i64 = tick_delta(ra, rc) as i64;
        self.edges = self.edges.wrapping_add(1);
        let base_ba: i64 = match self.first_ba {
            Some(v) => v,
            None => ba,
        };
        let base_ca: i64 = match self.first_ca {
            Some(v) => v,
            None => ca,
        };
        self.first_ba = Some(base_ba);
        self.first_ca = Some(base_ca);
        let drift_b: i64 = ba - base_ba;
        let drift_c: i64 = ca - base_ca;
        CounterReport {
            edges: self.edges,
            ba,
            ca,
            drift_b,
            drift_c,
            report: self.edges <= 5 || self.edges % 16 == 0,
            moved: drift_b != 0 || drift_c != 0,
        }
    }
}

/// How fast frames of one size go out.
#[derive(Debug, Clone, Copy, PartialEq, Eq, Structural)]
pub struct Throughput {
    /// Bytes of the frame.
    pub frame_len: usize,
    /// To build and encode one (ns).
    pub prepare_ns: u64,
    /// To send one (ns), the gap included.
    pub send_ns: u64,
    /// What one occupies on the wire (ns).
    pub wire_ns: u64,
    /// Preparation against wire occupancy (percent).
    pub cpu_pct: u64,
    /// Payload bits over the whole cycle (kbit/s).
    pub eff_kbps: u64,
}

/// What a frame of `len` bytes occupies on the wire (ns): 100 ns per bit, preamble included.
pub open spec fn wire_occupancy(len: int) -> int {
    (len + PREAMBLE_LEN) * 8 * 100
}

/// Evaluates a run of [`ITERS`] frames with `payload` bytes each, which took `prepare_us` to prepare
/// and `send_us` to send.
pub fn throughput(payload: usize, prepare_us: u64, send_us: u64) -> (t: Throughput)
    requires
        payload <= MAX_PAYLOAD,
        prepare_us * 1000 <= u64::MAX,
        send_us * 1000 <= u64::MAX,
    ensures
        t.frame_len == frame_length(payload as int),
        t.prepare_ns == prepare_us * 1000 / ITERS as int,
        t.send_ns == send_us * 1000 / ITERS as int,
        t.wire_ns == wire_occupancy(frame_length(payload as int)),
        t.cpu_pct == t.prepare_ns * 100 / t.wire_ns as int,
        t.eff_kbps == (payload * 8 * 1_000_000) / (if t.prepare_ns + t.send_ns > 1 {
            t.prepare_ns + t.send_ns
        } else {
            1
        }),
{
    let len: usize = frame_len(payload);
    let prepare_ns: u64 = prepare_us * 1000 / ITERS as u64;
    let send_ns: u64 = send_us * 1000 / ITERS as u64;
    let wire_ns: u64 = (len + PREAMBLE_LEN) as u64 * 8 * 100;
    let cycle_ns: u64 = prepare_ns + send_ns;
    let divisor: u64 = if cycle_ns > 1 {
        cycle_ns
    } else {
        1
    };
    Throughput {
        frame_len: len,
        prepare_ns,
        send_ns,
        wire_ns,
        cpu_pct: prepare_ns * 100 / wire_ns,
        eff_kbps: (payload as u64 * 8 * 1_000_000) / divisor,
    }
}

/// Counts what a listener hears.
#[derive(Debug, Clone, Copy, PartialEq, Eq, Structural)]
pub struct ListenCounter {
    /// Captures. It wraps.
    pub seen: u32,
    /// Sound frames among them. It wraps.
    pub good: u32,
}

impl ListenCounter {
    /// Nothing heard.
    pub fn new() -> (r: Self)
        ensures
            r == (ListenCounter { seen: 0, good: 0 }),
    {
        ListenCounter { seen: 0, good: 0 }
    }

    /// Counts a capture. Says, of a sound frame, whether to dump it: the first few are.
    pub fn on_capture(&mut self, sound: bool) -> (dump: bool)
        ensures
            final(self).seen == (old(self).seen + 1) % 0x1_0000_0000,
            final(self).good == (if sound {
                (old(self).good + 1) % 0x1_0000_0000
            } else {
                old(self).good as int
            }),
            dump == (sound && final(self).good <= 3),
    {
        self.seen = self.seen.wrapping_add(1);
        if sound {
            self.good = self.good.wrapping_add(1);
            self.good <= 3
        } else {
            false
        }
    }
}

/// The payload rate never exceeds what the wire allows: a frame that takes at least its wire
/// occupancy to go out carries its payload at less than 10 Mbit/s.
pub proof fn law_rate_stays_below_the_wire(payload: int, cycle_ns: int)
    requires
        0 < payload <= MAX_UDP_PAYLOAD,
        cycle_ns >= wire_occupancy(frame_length(payload)),
    ensures
        (payload * 8 * 1_000_000) / cycle_ns < 10_000,
{
    assert(frame_length(payload) >= payload + 46);
    assert((payload * 8 * 1_000_000) / cycle_ns < 10_000) by (nonlinear_arith)
        requires
            payload * 8 * 1_000_000 < 10_000 * cycle_ns,
            cycle_ns > 0,
    ;
}

/// Counters that run at the same rate are never reported as moving apart, wherever they wrap.
pub proof fn law_one_timebase_never_moves(a0: int, b0: int, ticks: int)
    ensures
        centred((a0 + ticks) % 0x1_0000_0000 - (b0 + ticks) % 0x1_0000_0000) == centred(a0 - b0),
{
    let qa = (a0 + ticks) / 0x1_0000_0000;
    let qb = (b0 + ticks) / 0x1_0000_0000;
    assert((a0 + ticks) % 0x1_0000_0000 - (b0 + ticks) % 0x1_0000_0000 == a0 - b0 + 0x1_0000_0000
        * (qb - qa));
    crate::ticks::law_differences_ignore_wrapping(a0, b0, qb - qa);
}

/// A frame occupies the wire for 800 ns per byte, and so do the eight bytes ahead of it.
pub proof fn law_wire_takes_100_ns_per_bit(len: int)
    ensures
        wire_occupancy(0) == 6_400,
        wire_occupancy(len + 1) == wire_occupancy(len) + 800,
{
}

/// The base of a drift is the first difference, whatever the later ones are.
pub proof fn law_drift_is_from_the_first_edge(first: i64, now: int, later: int)
    ensures
        base(None, now) == now,
        base(Some(first), now) == base(Some(first), later),
        base(Some(first), now) == first,
{
}

/// A throughput is per frame of a run of 200: the times are the run's over 200, the preparation is
/// given in percent of the wire time, and the rate is that of the payload over the whole cycle, each
/// rounded down.
pub proof fn law_throughput_is_per_frame(
    payload: usize,
    prepare_us: u64,
    send_us: u64,
    t: Throughput,
)
    requires
        call_ensures(throughput, (payload, prepare_us, send_us), t),
        payload <= 1472,
        prepare_us * 1000 <= u64::MAX,
        send_us * 1000 <= u64::MAX,
    ensures
        t.prepare_ns <= 5 * prepare_us < t.prepare_ns + 1,
        t.send_ns <= 5 * send_us < t.send_ns + 1,
        payload >= 18 ==> t.frame_len == payload + 46,
        payload < 18 ==> t.frame_len == 64,
        t.wire_ns == 800 * (t.frame_len + 8),
        t.wire_ns * t.cpu_pct <= 100 * t.prepare_ns < t.wire_ns * t.cpu_pct + t.wire_ns,
        ({
            let cycle = t.prepare_ns + t.send_ns;
            cycle > 1 ==> cycle * t.eff_kbps <= 8_000_000 * payload < cycle * t.eff_kbps + cycle
        }),
{
    vstd::arithmetic::div_mod::lemma_fundamental_div_mod(
        t.prepare_ns * 100,
        t.wire_ns as int,
    );
    let cycle = t.prepare_ns + t.send_ns;
    if cycle > 1 {
        vstd::arithmetic::div_mod::lemma_fundamental_div_mod(payload * 8 * 1_000_000, cycle);
        let x = payload * 8 * 1_000_000;
        assert(0 <= x % cycle < cycle) by (nonlinear_arith)
            requires
                cycle > 0,
        ;
    }
    let (y, w) = (t.prepare_ns * 100, t.wire_ns as int);
    assert(0 <= y % w < w) by (nonlinear_arith)
        requires
            w > 0,
    ;
}

} // verus!
