//! The offset between the two capture counters, and how it is measured.
//!
//! One counter stamps the reference pulse, another the generated output. The phase of the output
//! is the difference of their readings less the offset `K` between the counters themselves, which
//! is measured by pointing both at the same edge. `K` is calibrated at boot and then recalibrated
//! now and then, because the two counters creep apart with temperature.
//!
//! A wrong `K` moves the output, so every measurement has to earn its place: the samples have to
//! agree with each other and with the offset in force, and a new offset is approached in small
//! steps rather than taken at once.

use vstd::prelude::*;
use crate::ticks::{as_pattern, tick_delta, tick_magnitude};

verus! {

use crate::arith::magnitude;
use crate::ticks::centred;

/// Pairs of readings taken in one recalibration.
pub const RECAL_SAMPLES: u32 = 6;

/// How far a sample may lie from the offset in force (ticks). A pair made of two different edges
/// is off by about a second, far beyond this.
pub const RECAL_SAMPLE_TICK_GATE: u32 = 64;

/// How far the offset moves per output edge towards a new measurement (ticks).
pub const RECAL_K_SLEW_TICKS: i32 = 2;

/// Samples that a recalibration needs.
pub const RECAL_MIN_SAMPLES: usize = 3;

/// How far the samples of a recalibration may lie apart (ticks).
pub const RECAL_MAX_SPREAD: i64 = 2;

/// How far a recalibration may move the offset (ticks).
pub const RECAL_MAX_STEP: u32 = 500;

/// How long a recalibration waits for one capture (ms).
pub const RECAL_CAPTURE_TIMEOUT_MS: u64 = 3_000;

/// How often a recalibration looks for a capture, feeding the output each time (ms).
pub const RECAL_POLL_MS: u64 = 100;

/// How long a recalibration waits for the reference reading of a captured edge (ms).
pub const RECAL_PUBLISH_TIMEOUT_MS: u64 = 150;

/// Attempts at the calibration at boot.
pub const BOOT_ATTEMPTS: u32 = 4;

/// How far the samples at boot may lie apart (ticks).
pub const BOOT_MAX_SPREAD: i64 = 1;

/// How many pairs of readings a buffer holds.
pub const SAMPLE_CAPACITY: usize = 8;

/// A buffer of readings with a fixed capacity: `heapless::Vec<(u32, u32), 8>`. Its contents are
/// named by [`sampled`].
#[verifier::external_body]
#[derive(Debug)]
pub struct SampleBuffer {
    pairs: heapless::Vec<(u32, u32), SAMPLE_CAPACITY>,
}

/// The pairs that a buffer holds, in order: the reference reading, then the other one.
pub uninterp spec fn sampled(b: SampleBuffer) -> Seq<(u32, u32)>;

/// `heapless::Vec::new`: the new buffer is empty.
#[verifier::external_body]
fn samples_new() -> (r: SampleBuffer)
    ensures
        sampled(r) == Seq::<(u32, u32)>::empty(),
{
    SampleBuffer { pairs: heapless::Vec::new() }
}

/// `heapless::Vec::push`: appends the pair if there is room for it, and otherwise hands it back
/// and changes nothing.
#[verifier::external_body]
fn samples_push(b: &mut SampleBuffer, pair: (u32, u32)) -> (r: Result<(), (u32, u32)>)
    ensures
        r is Ok <==> (sampled(*old(b)).len() < SAMPLE_CAPACITY),
        r is Err ==> r->Err_0 == pair,
        sampled(*final(b)) == (if r is Ok {
            sampled(*old(b)).push(pair)
        } else {
            sampled(*old(b))
        }),
{
    b.pairs.push(pair)
}

/// `heapless::Vec::as_slice`: the contents, in order.
#[verifier::external_body]
fn samples_slice(b: &SampleBuffer) -> (r: &[(u32, u32)])
    ensures
        r@ == sampled(*b),
{
    b.pairs.as_slice()
}

impl SampleBuffer {
    /// An empty buffer.
    pub fn new() -> (r: Self)
        ensures
            sampled(r) == Seq::<(u32, u32)>::empty(),
    {
        samples_new()
    }

    /// Keeps a pair of readings of one edge, if there is room for it.
    pub fn keep(&mut self, reference: u32, other: u32)
        ensures
            sampled(*final(self)) == (if sampled(*old(self)).len() < SAMPLE_CAPACITY {
                sampled(*old(self)).push((reference, other))
            } else {
                sampled(*old(self))
            }),
    {
        let _ = samples_push(self, (reference, other));
    }

    /// The pairs kept, in order.
    pub fn as_slice(&self) -> (r: &[(u32, u32)])
        ensures
            r@ == sampled(*self),
    {
        samples_slice(self)
    }
}

/// The offset that one pair of readings gives (ticks).
pub open spec fn offset_of(pair: (u32, u32)) -> int {
    centred(pair.0 - pair.1)
}

/// The smallest offset among the pairs, or the largest number of 32 bits for no pairs.
pub open spec fn lowest(pairs: Seq<(u32, u32)>) -> int
    decreases pairs.len(),
{
    if pairs.len() == 0 {
        i32::MAX as int
    } else {
        let rest = lowest(pairs.drop_last());
        let d = offset_of(pairs.last());
        if d < rest {
            d
        } else {
            rest
        }
    }
}

/// The largest offset among the pairs, or the smallest number of 32 bits for no pairs.
pub open spec fn highest(pairs: Seq<(u32, u32)>) -> int
    decreases pairs.len(),
{
    if pairs.len() == 0 {
        i32::MIN as int
    } else {
        let rest = highest(pairs.drop_last());
        let d = offset_of(pairs.last());
        if d > rest {
            d
        } else {
            rest
        }
    }
}

/// How far the pairs lie apart (ticks).
pub open spec fn spread(pairs: Seq<(u32, u32)>) -> int {
    highest(pairs) - lowest(pairs)
}

/// The extremes of what pairs of readings give.
#[derive(Debug, Clone, Copy, PartialEq, Eq, Structural)]
pub struct Extremes {
    /// The smallest offset.
    pub lo: i32,
    /// The largest offset.
    pub hi: i32,
}

impl Extremes {
    /// How far they lie apart.
    pub fn spread(&self) -> (r: i64)
        ensures
            r == self.hi - self.lo,
    {
        self.hi as i64 - self.lo as i64
    }
}

/// The smallest and the largest offset among pairs of readings.
pub fn extremes(pairs: &[(u32, u32)]) -> (r: Extremes)
    ensures
        r.lo == lowest(pairs@),
        r.hi == highest(pairs@),
{
    let mut lo: i32 = i32::MAX;
    let mut hi: i32 = i32::MIN;
    let mut i: usize = 0;
    while i < pairs.len()
        invariant
            i <= pairs.len(),
            lo == lowest(pairs@.take(i as int)),
            hi == highest(pairs@.take(i as int)),
        decreases pairs.len() - i,
    {
        let pair = pairs[i];
        let d: i32 = tick_delta(pair.0, pair.1);
        proof {
            assert(pairs@.take(i as int + 1).drop_last() =~= pairs@.take(i as int));
        }
        if d < lo {
            lo = d;
        }
        if d > hi {
            hi = d;
        }
        i = i + 1;
    }
    proof {
        assert(pairs@.take(i as int) =~= pairs@);
    }
    Extremes { lo, hi }
}

/// Whether a pair of readings counts as a sample of the offset: it is not the first one, which
/// carries the transient of the switch; its reference reading came out and is not blank; and it
/// lies near the offset `k` in force.
pub open spec fn counts(k: u32, index: u32, published: bool, c0: u32, c2: u32) -> bool {
    &&& published
    &&& c0 != 0
    &&& index != 0
    &&& magnitude(centred(c0 - c2 - k)) <= RECAL_SAMPLE_TICK_GATE
}

/// Why a recalibration keeps the offset in force.
#[derive(Debug, Clone, Copy, PartialEq, Eq, Structural)]
pub enum RecalRejection {
    /// Not enough samples.
    TooFew { n: usize },
    /// The samples disagree.
    Spread { spread: i64, n: usize },
    /// No mean could be formed.
    NoMean,
    /// The new offset is too far from the one in force.
    Step { dk: i32, measured: u32 },
}

/// What the caller of a recalibration does next.
#[derive(Debug, Clone, Copy, PartialEq, Eq, Structural)]
pub enum RecalAction {
    /// Start on another pair: note the reference generation and the time, then feed the output
    /// and look for a capture.
    Sample,
    /// Wait [`RECAL_POLL_MS`], feed the output and look for a capture again.
    Poll,
    /// Wait until the reference generation moves on from the one noted, but no longer than
    /// [`RECAL_PUBLISH_TIMEOUT_MS`].
    AwaitReference,
    /// Point the counter back at the output and conclude.
    Finish,
}

/// One recalibration of the counter offset.
#[derive(Debug)]
pub struct Recalibration {
    k: u32,
    index: u32,
    captured: Option<u32>,
    samples: SampleBuffer,
}

/// The mathematical state of a [`Recalibration`].
pub struct RecalState {
    /// The offset in force.
    pub k: u32,
    /// Pairs begun before the current one.
    pub index: int,
    /// The capture of the current pair, if there is one.
    pub captured: Option<u32>,
    /// The samples kept.
    pub samples: Seq<(u32, u32)>,
}

impl View for Recalibration {
    type V = RecalState;

    closed spec fn view(&self) -> RecalState {
        RecalState {
            k: self.k,
            index: self.index as int,
            captured: self.captured,
            samples: sampled(self.samples),
        }
    }
}

impl RecalState {
    /// The state at the start.
    pub open spec fn fresh(k: u32) -> RecalState {
        RecalState { k, index: 0, captured: None, samples: Seq::empty() }
    }

    /// What holds of every recalibration in progress: no more samples than pairs, and every sample
    /// near the offset in force.
    pub open spec fn wf(self) -> bool {
        &&& 0 <= self.index <= RECAL_SAMPLES
        &&& self.samples.len() <= self.index
        &&& forall|i: int|
            0 <= i < self.samples.len() ==> magnitude(
                centred((#[trigger] self.samples[i]).0 - self.samples[i].1 - self.k),
            ) <= RECAL_SAMPLE_TICK_GATE
    }

    /// The state after a reference reading came out, or did not.
    pub open spec fn after_reference(self, published: bool, c0: u32) -> RecalState {
        let c2 = self.captured->0;
        RecalState {
            index: self.index + 1,
            captured: None,
            samples: if counts(self.k, self.index as u32, published, c0, c2) {
                self.samples.push((c0, c2))
            } else {
                self.samples
            },
            ..self
        }
    }

    /// Why the samples rule out a new offset, if they do.
    pub open spec fn screened(self) -> Option<RecalRejection> {
        if self.samples.len() < RECAL_MIN_SAMPLES {
            Some(RecalRejection::TooFew { n: self.samples.len() as usize })
        } else if spread(self.samples) > RECAL_MAX_SPREAD {
            Some(
                RecalRejection::Spread {
                    spread: spread(self.samples) as i64,
                    n: self.samples.len() as usize,
                },
            )
        } else {
            None
        }
    }

    /// The verdict on the mean offset `measured` of the samples.
    pub open spec fn verdict(self, measured: Option<u32>) -> Result<u32, RecalRejection> {
        match (self.screened(), measured) {
            (Some(why), _) => Err(why),
            (None, None) => Err(RecalRejection::NoMean),
            (None, Some(nk)) => if magnitude(centred(nk - self.k)) > RECAL_MAX_STEP {
                Err(RecalRejection::Step { dk: centred(nk - self.k) as i32, measured: nk })
            } else {
                Ok(nk)
            },
        }
    }
}

impl Recalibration {
    /// Starts a recalibration of the offset `k`. The first action is [`RecalAction::Sample`].
    pub fn start(k: u32) -> (r: Self)
        ensures
            r@ == RecalState::fresh(k),
            r@.wf(),
    {
        Recalibration { k, index: 0, captured: None, samples: SampleBuffer::new() }
    }

    /// A look for a capture turned up `captured`; `expired` says whether this pair has waited
    /// [`RECAL_CAPTURE_TIMEOUT_MS`]. Without a capture in time the reference is gone, and the
    /// recalibration ends.
    pub fn on_poll(&mut self, captured: Option<u32>, expired: bool) -> (a: RecalAction)
        requires
            old(self)@.wf(),
            old(self)@.captured is None,
            old(self)@.index < RECAL_SAMPLES,
        ensures
            final(self)@ == (RecalState { captured, ..old(self)@ }),
            final(self)@.wf(),
            a == (match captured {
                Some(_) => RecalAction::AwaitReference,
                None => if expired {
                    RecalAction::Finish
                } else {
                    RecalAction::Poll
                },
            }),
    {
        self.captured = captured;
        match captured {
            Some(_) => RecalAction::AwaitReference,
            None => if expired {
                RecalAction::Finish
            } else {
                RecalAction::Poll
            },
        }
    }

    /// The wait for the reference is over: `published` says whether its generation moved on, and
    /// `c0` is its latest reading.
    pub fn on_reference(&mut self, published: bool, c0: u32) -> (a: RecalAction)
        requires
            old(self)@.wf(),
            old(self)@.captured is Some,
            old(self)@.index < RECAL_SAMPLES,
        ensures
            final(self)@ == old(self)@.after_reference(published, c0),
            final(self)@.wf(),
            a == (if old(self)@.index + 1 < RECAL_SAMPLES {
                RecalAction::Sample
            } else {
                RecalAction::Finish
            }),
    {
        if let Some(c2) = self.captured {
            if published && c0 != 0 && self.index != 0 {
                let off: i32 = tick_delta(c0.wrapping_sub(c2), self.k);
                proof {
                    lemma_delta_of_delta(c0 as int, c2 as int, self.k as int);
                }
                if tick_magnitude(off) <= RECAL_SAMPLE_TICK_GATE {
                    self.samples.keep(c0, c2);
                }
            }
        }
        self.captured = None;
        self.index = self.index + 1;
        if self.index < RECAL_SAMPLES {
            RecalAction::Sample
        } else {
            RecalAction::Finish
        }
    }

    /// The samples kept, in order, for the mean to be formed of.
    pub fn samples(&self) -> (r: &[(u32, u32)])
        ensures
            r@ == self@.samples,
    {
        self.samples.as_slice()
    }

    /// Says why the samples rule out a new offset, if they do.
    pub fn screen(&self) -> (r: Option<RecalRejection>)
        requires
            self@.wf(),
        ensures
            r == self@.screened(),
    {
        let pairs = self.samples.as_slice();
        let n: usize = pairs.len();
        if n < RECAL_MIN_SAMPLES {
            return Some(RecalRejection::TooFew { n });
        }
        let apart: i64 = extremes(pairs).spread();
        if apart > RECAL_MAX_SPREAD {
            Some(RecalRejection::Spread { spread: apart, n })
        } else {
            None
        }
    }

    /// Decides on the mean offset `measured` of the samples: the offset to move to, or why the one
    /// in force is kept.
    pub fn conclude(&self, measured: Option<u32>) -> (r: Result<u32, RecalRejection>)
        requires
            self@.wf(),
        ensures
            r == self@.verdict(measured),
    {
        if let Some(why) = self.screen() {
            return Err(why);
        }
        match measured {
            None => Err(RecalRejection::NoMean),
            Some(nk) => {
                let dk: i32 = tick_delta(nk, self.k);
                if tick_magnitude(dk) > RECAL_MAX_STEP {
                    Err(RecalRejection::Step { dk, measured: nk })
                } else {
                    Ok(nk)
                }
            },
        }
    }

    /// The offset after a recalibration: the new one if it was accepted, else the one in force.
    pub fn offset_after(&self, verdict: &Result<u32, RecalRejection>) -> (k: u32)
        ensures
            k == (match *verdict {
                Ok(nk) => nk,
                Err(_) => self@.k,
            }),
    {
        match verdict {
            Ok(nk) => *nk,
            Err(_) => self.k,
        }
    }
}

/// A difference of a wrapped difference is the wrapped difference of all three.
proof fn lemma_delta_of_delta(c0: int, c2: int, k: int)
    requires
        0 <= c0 < 0x1_0000_0000,
        0 <= c2 < 0x1_0000_0000,
    ensures
        centred((c0 - c2) - k) == centred(c0 - c2 - k),
        centred((if c0 < c2 { c0 - c2 + 0x1_0000_0000 } else { c0 - c2 }) - k) == centred(
            c0 - c2 - k,
        ),
{
    crate::ticks::law_differences_ignore_wrapping(c0 - c2, k, 1);
}

/// What the calibration at boot does next.
#[derive(Debug, Clone, Copy, PartialEq, Eq, Structural)]
pub enum BootAction {
    /// Drain both counters and take another set of samples.
    Retry,
    /// Go on with the offset there is.
    Stop,
}

/// How the calibration at boot came out.
#[derive(Debug, Clone, Copy, PartialEq, Eq, Structural)]
pub enum BootVerdict {
    /// The samples agreed.
    Clean,
    /// They never did; the last mean is used.
    NotClean,
    /// There was nothing to measure.
    Failed,
}

/// The calibration of the counter offset at boot.
#[derive(Debug, Clone, Copy, PartialEq, Eq, Structural)]
pub struct BootCalibration {
    /// The offset so far.
    pub k: u32,
    /// How many samples it rests on.
    pub n: usize,
    /// Whether the samples agreed.
    pub clean: bool,
    /// Attempts made.
    pub attempts: u32,
}

impl BootCalibration {
    /// Whether a set of samples agrees well enough to have been taken from the same edges.
    pub open spec fn agrees(pairs: Seq<(u32, u32)>) -> bool {
        pairs.len() >= RECAL_MIN_SAMPLES && spread(pairs) <= BOOT_MAX_SPREAD
    }

    /// The calibration after an attempt whose samples have the mean `mean`. A set without samples
    /// leaves it alone; a set that disagrees still gives the offset, for want of a better one.
    pub open spec fn next(self, pairs: Seq<(u32, u32)>, mean: Option<u32>) -> BootCalibration {
        if pairs.len() == 0 {
            BootCalibration { attempts: (self.attempts + 1) as u32, ..self }
        } else {
            BootCalibration {
                k: match mean {
                    Some(m) => m,
                    None => self.k,
                },
                n: if mean is Some {
                    pairs.len() as usize
                } else {
                    self.n
                },
                clean: self.clean || Self::agrees(pairs),
                attempts: (self.attempts + 1) as u32,
            }
        }
    }

    /// Before the first attempt.
    pub fn new() -> (r: Self)
        ensures
            r == (BootCalibration { k: 0, n: 0, clean: false, attempts: 0 }),
    {
        BootCalibration { k: 0, n: 0, clean: false, attempts: 0 }
    }

    /// Takes in an attempt: its samples and their mean. It is over when the samples agree, when
    /// there were none, or after [`BOOT_ATTEMPTS`] attempts.
    pub fn on_attempt(&mut self, pairs: &[(u32, u32)], mean: Option<u32>) -> (a: BootAction)
        requires
            old(self).attempts < BOOT_ATTEMPTS,
        ensures
            *final(self) == old(self).next(pairs@, mean),
            a == (if pairs@.len() == 0 || BootCalibration::agrees(pairs@)
                || final(self).attempts == BOOT_ATTEMPTS {
                BootAction::Stop
            } else {
                BootAction::Retry
            }),
    {
        self.attempts = self.attempts + 1;
        let n: usize = pairs.len();
        if n == 0 {
            return BootAction::Stop;
        }
        if let Some(m) = mean {
            self.k = m;
            self.n = n;
        }
        let apart: i64 = extremes(pairs).spread();
        if n >= RECAL_MIN_SAMPLES && apart <= BOOT_MAX_SPREAD {
            self.clean = true;
            BootAction::Stop
        } else if self.attempts == BOOT_ATTEMPTS {
            BootAction::Stop
        } else {
            BootAction::Retry
        }
    }

    /// How it came out.
    pub fn verdict(&self) -> (v: BootVerdict)
        ensures
            v == (if self.clean {
                BootVerdict::Clean
            } else if self.n > 0 {
                BootVerdict::NotClean
            } else {
                BootVerdict::Failed
            }),
    {
        if self.clean {
            BootVerdict::Clean
        } else if self.n > 0 {
            BootVerdict::NotClean
        } else {
            BootVerdict::Failed
        }
    }
}

/// The offset in force and the measurement that it moves towards.
#[derive(Debug, Clone, Copy, PartialEq, Eq, Structural)]
pub struct OffsetTracker {
    /// The offset in force.
    pub k: u32,
    /// The latest measurement.
    pub target: u32,
}

impl OffsetTracker {
    /// How far there is to go (ticks).
    pub open spec fn distance(self) -> int {
        centred(self.target - self.k)
    }

    /// The next move (ticks).
    pub open spec fn stride(self) -> int {
        let d = self.distance();
        if d > RECAL_K_SLEW_TICKS {
            RECAL_K_SLEW_TICKS as int
        } else if d < -RECAL_K_SLEW_TICKS {
            -RECAL_K_SLEW_TICKS
        } else {
            d
        }
    }

    /// The tracker after an output edge.
    pub open spec fn next(self) -> OffsetTracker {
        OffsetTracker { k: ((self.k + self.stride()) % 0x1_0000_0000) as u32, target: self.target }
    }

    /// At rest on `k`.
    pub fn new(k: u32) -> (r: Self)
        ensures
            r.k == k,
            r.target == k,
    {
        OffsetTracker { k, target: k }
    }

    /// Moves towards the latest measurement by at most [`RECAL_K_SLEW_TICKS`].
    pub fn slew(&mut self)
        ensures
            *final(self) == old(self).next(),
    {
        if self.k != self.target {
            let d: i32 = tick_delta(self.target, self.k);
            let stride: i32 = if d > RECAL_K_SLEW_TICKS {
                RECAL_K_SLEW_TICKS
            } else if d < -RECAL_K_SLEW_TICKS {
                -RECAL_K_SLEW_TICKS
            } else {
                d
            };
            self.k = self.k.wrapping_add(as_pattern(stride));
        }
    }
}

/// The offset moves by at most [`RECAL_K_SLEW_TICKS`] per edge, always towards the measurement,
/// never past it, and comes to rest on it.
pub proof fn law_slew_converges(t: OffsetTracker)
    ensures
        magnitude(t.stride()) <= RECAL_K_SLEW_TICKS,
        t.next().distance() == t.distance() - t.stride(),
        t.distance() == 0 <==> t.k == t.target,
        t.k != t.target ==> magnitude(t.next().distance()) < magnitude(t.distance()),
        t.k == t.target ==> t.next() == t,
{
    let k2 = (t.k + t.stride()) % 0x1_0000_0000;
    let q = (t.k + t.stride()) / 0x1_0000_0000;
    assert(t.target - k2 == t.target - t.k - t.stride() + 0x1_0000_0000 * q);
    crate::ticks::law_differences_ignore_wrapping(t.target - t.k - t.stride(), 0, q);
    let m = (t.target - t.k) % 0x1_0000_0000;
    let p = (t.target - t.k) / 0x1_0000_0000;
    assert(t.target - t.k - t.stride() == (t.distance() - t.stride()) + 0x1_0000_0000 * (if m
        < 0x8000_0000 {
        p
    } else {
        p + 1
    }));
    crate::ticks::law_differences_ignore_wrapping(
        t.distance() - t.stride(),
        0,
        if m < 0x8000_0000 {
            p
        } else {
            p + 1
        },
    );
}

/// A recalibration that is not accepted keeps the offset in force; one that is accepted rests on
/// enough samples that agree, and moves the offset by no more than [`RECAL_MAX_STEP`].
pub proof fn law_bad_measurement_moves_nothing(s: RecalState, measured: Option<u32>)
    ensures
        s.verdict(measured) matches Ok(nk) ==> measured == Some(nk) && s.samples.len()
            >= RECAL_MIN_SAMPLES && spread(s.samples) <= RECAL_MAX_SPREAD && magnitude(
            centred(nk - s.k),
        ) <= RECAL_MAX_STEP,
        s.verdict(measured) is Err <==> (s.samples.len() < RECAL_MIN_SAMPLES || spread(s.samples)
            > RECAL_MAX_SPREAD || measured is None || magnitude(centred(measured->0 - s.k))
            > RECAL_MAX_STEP),
{
}

/// A pair of readings that do not belong to the same edge never counts: if one of them is off by
/// more than [`RECAL_SAMPLE_TICK_GATE`], by anything short of half a turn of the counters, the pair
/// is dropped wherever the counters happen to wrap. One second is some sixty million ticks.
pub proof fn law_mispaired_edges_never_count(k: u32, index: u32, c0: u32, c2: u32, apart: int)
    requires
        (c0 - c2 - k - apart) % 0x1_0000_0000 == 0,
        RECAL_SAMPLE_TICK_GATE < magnitude(apart) < 0x8000_0000,
    ensures
        !counts(k, index, true, c0, c2),
{
    let q = (c0 - c2 - k - apart) / 0x1_0000_0000;
    assert(c0 - c2 - k == apart - 0 + 0x1_0000_0000 * q);
    crate::ticks::law_differences_ignore_wrapping(apart, 0, q);
    if apart >= 0 {
        vstd::arithmetic::div_mod::lemma_small_mod(apart as nat, 0x1_0000_0000);
    } else {
        crate::ticks::law_differences_ignore_wrapping(apart, 0, 1);
        vstd::arithmetic::div_mod::lemma_small_mod((apart + 0x1_0000_0000) as nat, 0x1_0000_0000);
    }
}

/// The extremes of a set of readings bound every offset in it, and are themselves in it.
pub proof fn law_extremes_bound_and_occur(pairs: Seq<(u32, u32)>)
    ensures
        forall|i: int|
            0 <= i < pairs.len() ==> lowest(pairs) <= offset_of(#[trigger] pairs[i]) <= highest(
                pairs,
            ),
        pairs.len() > 0 ==> exists|i: int|
            0 <= i < pairs.len() && offset_of(#[trigger] pairs[i]) == lowest(pairs),
        pairs.len() > 0 ==> exists|i: int|
            0 <= i < pairs.len() && offset_of(#[trigger] pairs[i]) == highest(pairs),
        spread(pairs) == highest(pairs) - lowest(pairs),
    decreases pairs.len(),
{
    if pairs.len() > 0 {
        let front = pairs.drop_last();
        let last = pairs.len() - 1;
        law_extremes_bound_and_occur(front);
        let d = offset_of(pairs[last]);
        assert(pairs.last() == pairs[last]);
        crate::ticks::law_difference_is_nearest_to_zero(pairs[last].0 - pairs[last].1);
        assert forall|i: int| 0 <= i < pairs.len() implies lowest(pairs) <= offset_of(
            #[trigger] pairs[i],
        ) <= highest(pairs) by {
            if i < last {
                assert(front[i] == pairs[i]);
            }
        }
        if front.len() > 0 {
            let a = choose|i: int|
                0 <= i < front.len() && offset_of(#[trigger] front[i]) == lowest(front);
            let b = choose|i: int|
                0 <= i < front.len() && offset_of(#[trigger] front[i]) == highest(front);
            assert(front[a] == pairs[a] && front[b] == pairs[b]);
            assert(offset_of(pairs[a]) == lowest(pairs) || offset_of(pairs[last]) == lowest(pairs));
            assert(offset_of(pairs[b]) == highest(pairs) || offset_of(pairs[last]) == highest(
                pairs,
            ));
        } else {
            assert(offset_of(pairs[last]) == lowest(pairs));
            assert(offset_of(pairs[last]) == highest(pairs));
        }
    }
}

/// The offset of a pair is how far the first reading is ahead of the second.
pub proof fn law_offset_is_first_less_second(a: u32, b: u32)
    ensures
        (offset_of((a, b)) - (a - b)) % 0x1_0000_0000 == 0,
        -0x8000_0000 <= offset_of((a, b)) < 0x8000_0000,
        -0x8000_0000 <= a - b < 0x8000_0000 ==> offset_of((a, b)) == a - b,
{
}

/// A pair is kept if and only if it is not the first, its reference reading came out and is not
/// blank, and it lies within 64 ticks of the offset in force, on either side; kept or not, the next
/// pair begins.
pub proof fn law_good_pairs_are_kept(s: RecalState, published: bool, c0: u32, c2: u32, apart: int)
    requires
        s.wf(),
        s.index < 6,
        s.captured == Some(c2),
        -0x8000_0000 <= apart < 0x8000_0000,
        (c0 - c2 - s.k - apart) % 0x1_0000_0000 == 0,
    ensures
        ({
            let n = s.after_reference(published, c0);
            &&& n.k == s.k && n.index == s.index + 1 && n.captured is None
            &&& published && c0 != 0 && s.index > 0 && -64 <= apart <= 64 ==> n.samples
                == s.samples.push((c0, c2))
            &&& !(published && c0 != 0 && s.index > 0 && -64 <= apart <= 64) ==> n.samples
                == s.samples
        }),
{
    let q = (c0 - c2 - s.k - apart) / 0x1_0000_0000;
    assert(c0 - c2 - s.k == apart - 0 + 0x1_0000_0000 * q);
    crate::ticks::law_differences_ignore_wrapping(apart, 0, q);
    crate::ticks::law_difference_is_nearest_to_zero(apart);
    assert(centred(c0 - c2 - s.k) == apart);
}

/// What a recalibration comes to, with its limits: three samples that lie within two ticks of each
/// other, and a mean within 500 ticks of the offset in force, which `dk` is the distance to; each
/// failure is reported with its figures.
pub proof fn law_recalibration_is_judged_by_its_limits(s: RecalState, nk: u32, dk: int)
    requires
        s.wf(),
        -0x8000_0000 <= dk < 0x8000_0000,
        (nk - s.k - dk) % 0x1_0000_0000 == 0,
    ensures
        s.samples.len() < 3 ==> s.verdict(Some(nk)) == Err::<u32, _>(
            RecalRejection::TooFew { n: s.samples.len() as usize },
        ),
        s.samples.len() >= 3 && spread(s.samples) > 2 ==> s.verdict(Some(nk)) == Err::<u32, _>(
            RecalRejection::Spread { spread: spread(s.samples) as i64, n: s.samples.len() as usize },
        ),
        s.samples.len() >= 3 && spread(s.samples) <= 2 ==> {
            &&& s.verdict(None) == Err::<u32, _>(RecalRejection::NoMean)
            &&& -500 <= dk <= 500 ==> s.verdict(Some(nk)) == Ok::<_, RecalRejection>(nk)
            &&& !(-500 <= dk <= 500) ==> s.verdict(Some(nk)) == Err::<u32, _>(
                RecalRejection::Step { dk: dk as i32, measured: nk },
            )
        },
        s.screened() is Some <==> s.samples.len() < 3 || spread(s.samples) > 2,
{
    let q = (nk - s.k - dk) / 0x1_0000_0000;
    assert(nk - s.k == dk - 0 + 0x1_0000_0000 * q);
    crate::ticks::law_differences_ignore_wrapping(dk, 0, q);
    crate::ticks::law_difference_is_nearest_to_zero(dk);
}

/// At boot a set of three or more samples within one tick of each other is clean, and once clean
/// always so; any set with a mean gives the offset, and one without samples changes nothing but the
/// number of attempts.
pub proof fn law_boot_takes_the_latest_mean(b: BootCalibration, pairs: Seq<(u32, u32)>, m: u32)
    requires
        b.attempts < 4,
        pairs.len() <= 1000,
    ensures
        ({
            let n = b.next(pairs, Some(m));
            &&& n.attempts == b.attempts + 1
            &&& pairs.len() == 0 ==> n.k == b.k && n.n == b.n && n.clean == b.clean
            &&& pairs.len() > 0 ==> n.k == m && n.n == pairs.len()
            &&& pairs.len() > 0 ==> (n.clean <==> b.clean || (pairs.len() >= 3 && highest(pairs)
                - lowest(pairs) <= 1))
            &&& b.next(pairs, None).k == b.k && b.next(pairs, None).n == b.n
        }),
{
}

/// The offset moves at full speed, two ticks per edge, until it is that near.
pub proof fn law_slew_runs_at_full_speed(t: OffsetTracker)
    ensures
        t.distance() >= 2 ==> t.stride() == 2,
        t.distance() <= -2 ==> t.stride() == -2,
        -2 < t.distance() < 2 ==> t.stride() == t.distance(),
        (t.next().k - t.k - t.stride()) % 0x1_0000_0000 == 0,
        t.next().target == t.target,
        (t.target - t.k - t.distance()) % 0x1_0000_0000 == 0,
{
}

/// A recalibration starts with no pair and no sample, from the offset in force: before any pair it
/// has too few samples.
pub proof fn law_fresh_recalibration_has_nothing(k: u32, measured: Option<u32>)
    ensures
        RecalState::fresh(k).k == k,
        RecalState::fresh(k).index == 0,
        RecalState::fresh(k).captured is None,
        RecalState::fresh(k).samples.len() == 0,
        RecalState::fresh(k).verdict(measured) == Err::<u32, _>(RecalRejection::TooFew { n: 0 }),
{
}

} // verus!
