//! The reference pulse: what is done with each of its edges.
//!
//! Two front ends deliver them. In hardware a counter stamps the pulse, and its reading is handed
//! to the output servo; in software an interrupt reads the clock, which is all there is on the two
//! lowest stages. Both feed the same clock.

use vstd::prelude::*;
use crate::gpsdo::FreqUpdate;
use crate::pps::PpsEvent;
use crate::reception::{Reception, ReceptionMonitor};
use crate::stage::apply_freq;

verus! {

use crate::reception::MonitorState;
use crate::stage::applies_freq;

/// Nanoseconds in a second.
pub const SECOND_NS: u64 = 1_000_000_000;

/// Width of the soft 1PPS (ms).
pub const NAIVE_PPS_PULSE_MS: u64 = 100;

/// The name of an event in the log.
pub open spec fn event_name(event: PpsEvent) -> Seq<char> {
    match event {
        PpsEvent::First => "First"@,
        PpsEvent::Locked { .. } => "Locked"@,
        PpsEvent::Irregular { .. } => "Irregular"@,
        PpsEvent::NonMonotonic { .. } => "NonMono"@,
    }
}

/// The pulses that an event says were missed.
pub open spec fn pulses_missed(event: PpsEvent) -> u32 {
    match event {
        PpsEvent::Irregular { missed, .. } => missed,
        _ => 0,
    }
}

/// The name of an event in the log, and the pulses it says were missed.
pub fn describe(event: &PpsEvent) -> (r: (&'static str, u32))
    ensures
        r.0@ == event_name(*event),
        r.1 == pulses_missed(*event),
{
    match event {
        PpsEvent::First => ("First", 0),
        PpsEvent::Locked { .. } => ("Locked", 0),
        PpsEvent::Irregular { missed, .. } => ("Irregular", *missed),
        PpsEvent::NonMonotonic { .. } => ("NonMono", 0),
    }
}

/// What an edge did to the frequency estimate, for the log; an edge that disciplined nothing says
/// so.
pub fn freq_label(update: Option<FreqUpdate>) -> (r: &'static str)
    ensures
        r@ == (match update {
            Some(u) => u.label(),
            None => "none"@,
        }),
{
    match update {
        Some(u) => u.as_str(),
        None => "none",
    }
}

/// What the output servo reads of the reference.
#[derive(Debug, Clone, Copy, PartialEq, Eq, Structural)]
pub struct Snapshot {
    /// Counts the edges that were handed on. It wraps.
    pub generation: u32,
    /// Reading of the latest such edge.
    pub c0: u32,
    /// The observing counter's latest reading.
    pub c3: u32,
    /// How many readings of the observing counter came with the latest edge: one is the rule.
    pub c3n: u32,
}

/// What is reported of an edge.
#[derive(Debug, Clone, Copy, PartialEq, Eq, Structural)]
pub struct ReferenceReport {
    /// Edges seen, this one included.
    pub count: u32,
    /// Whether the edge was handed on.
    pub published: bool,
    /// The verdict on the reception, if there is one.
    pub reception: Option<Reception>,
}

/// Hands reference edges on to the output servo and judges the reception.
#[derive(Debug)]
pub struct ReferenceFeed {
    count: u32,
    snapshot: Snapshot,
    monitor: ReceptionMonitor,
}

/// The mathematical state of a [`ReferenceFeed`].
pub struct FeedState {
    /// Edges seen.
    pub count: int,
    /// What the servo reads.
    pub snapshot: Snapshot,
    /// The reception.
    pub monitor: MonitorState,
}

impl View for ReferenceFeed {
    type V = FeedState;

    closed spec fn view(&self) -> FeedState {
        FeedState { count: self.count as int, snapshot: self.snapshot, monitor: self.monitor@ }
    }
}

impl FeedState {
    /// The state after an edge. Only a locked edge is handed on: a spurious one taken for the
    /// reference would pull the output to the wrong place. Without a reading of the observing
    /// counter its last one stays, and the count says so.
    pub open spec fn next(
        self,
        event: PpsEvent,
        raw: u32,
        interval_ns: u64,
        c3: Option<u32>,
        c3n: u32,
    ) -> FeedState {
        FeedState {
            count: self.count + 1,
            snapshot: if event is Locked {
                Snapshot {
                    generation: ((self.snapshot.generation + 1) % 0x1_0000_0000) as u32,
                    c0: raw,
                    c3: match c3 {
                        Some(v) => v,
                        None => self.snapshot.c3,
                    },
                    c3n,
                }
            } else {
                self.snapshot
            },
            monitor: if event is Locked {
                self.monitor.next(interval_ns as i64)
            } else {
                self.monitor
            },
        }
    }
}

impl ReferenceFeed {
    /// A feed that has seen nothing.
    pub fn new() -> (r: Self)
        ensures
            r@.count == 0,
            r@.snapshot == (Snapshot { generation: 0, c0: 0, c3: 0, c3n: 0 }),
            r@.monitor == (MonitorState { recent: Seq::empty(), bad: false }),
    {
        ReferenceFeed {
            count: 0,
            snapshot: Snapshot { generation: 0, c0: 0, c3: 0, c3n: 0 },
            monitor: ReceptionMonitor::new(),
        }
    }

    /// What the servo reads.
    pub fn snapshot(&self) -> (r: Snapshot)
        ensures
            r == self@.snapshot,
    {
        self.snapshot
    }

    /// Takes an edge: how the clock classified it, its reading, the interval before it, and what
    /// the observing counter had to say.
    pub fn on_edge(
        &mut self,
        event: &PpsEvent,
        raw: u32,
        interval_ns: u64,
        c3: Option<u32>,
        c3n: u32,
    ) -> (r: ReferenceReport)
        requires
            old(self)@.monitor.wf(),
            old(self)@.count < u32::MAX,
            interval_ns <= i64::MAX,
        ensures
            final(self)@ == old(self)@.next(*event, raw, interval_ns, c3, c3n),
            final(self)@.monitor.wf(),
            r.count == final(self)@.count,
            r.published == (*event is Locked),
            r.reception == (if *event is Locked {
                final(self)@.monitor.report()
            } else {
                None
            }),
    {
        self.count = self.count + 1;
        let published = matches!(event, PpsEvent::Locked { .. });
        let mut reception: Option<Reception> = None;
        if published {
            if let Some(v) = c3 {
                self.snapshot.c3 = v;
            }
            self.snapshot.c3n = c3n;
            self.snapshot.c0 = raw;
            self.snapshot.generation = self.snapshot.generation.wrapping_add(1);
            reception = self.monitor.on_interval(interval_ns);
        }
        ReferenceReport { count: self.count, published, reception }
    }
}

/// Where in its second a time lies (ns).
pub fn subsecond_ns(time_ns: u64) -> (r: u32)
    ensures
        r == time_ns % SECOND_NS,
        r < SECOND_NS,
{
    (time_ns % SECOND_NS) as u32
}

/// The soft front end: edges stamped by an interrupt.
#[derive(Debug, Clone, Copy, PartialEq, Eq, Structural)]
pub struct SoftInput {
    /// Edges seen.
    pub count: u32,
    /// Time of the latest edge (ns).
    pub last_edge_ns: Option<u64>,
}

/// What a soft phase is folded of.
#[derive(Debug, Clone, Copy, PartialEq, Eq, Structural)]
pub struct PhaseOperands {
    /// Where in its second the latest output edge lay (ns).
    pub output_ns: i64,
    /// Where in its second the reference edge lies (ns).
    pub reference_ns: i64,
}

/// What is made of a soft edge.
#[derive(Debug, Clone, Copy, PartialEq, Eq, Structural)]
pub struct SoftEdge {
    /// Edges seen, this one included.
    pub count: u32,
    /// Interval since the previous edge (ns), or 0 for the first.
    pub interval_ns: u64,
    /// What the phase is folded of; nothing before the output has run.
    pub phase_of: Option<PhaseOperands>,
    /// Deviation of the interval from a second (ns), if there is an interval to report.
    pub dev_ns: Option<i64>,
}

impl SoftInput {
    /// The interval before an edge: none before the first, and none where the clock did not move
    /// on.
    pub open spec fn interval(self, edge_ns: u64) -> int {
        match self.last_edge_ns {
            Some(prev) => if edge_ns >= prev {
                edge_ns - prev
            } else {
                0
            },
            None => 0,
        }
    }

    /// Before the first edge.
    pub fn new() -> (r: Self)
        ensures
            r.count == 0,
            r.last_edge_ns is None,
    {
        SoftInput { count: 0, last_edge_ns: None }
    }

    /// Takes an edge at `edge_ns`. The output has put out `out_gen` edges, the latest `out_subsec_ns`
    /// into its second.
    pub fn on_edge(&mut self, edge_ns: u64, out_gen: u32, out_subsec_ns: u32) -> (e: SoftEdge)
        requires
            old(self).count < u32::MAX,
            edge_ns <= i64::MAX,
        ensures
            final(self).count == old(self).count + 1,
            final(self).last_edge_ns == Some(edge_ns),
            e.count == final(self).count,
            e.interval_ns == old(self).interval(edge_ns),
            e.phase_of == (if out_gen > 0 {
                Some(
                    PhaseOperands {
                        output_ns: out_subsec_ns as i64,
                        reference_ns: (edge_ns % SECOND_NS) as i64,
                    },
                )
            } else {
                None
            }),
            e.dev_ns == (if e.interval_ns != 0 {
                Some((e.interval_ns - SECOND_NS) as i64)
            } else {
                None
            }),
    {
        let interval_ns: u64 = match self.last_edge_ns {
            Some(prev) => if edge_ns >= prev {
                edge_ns - prev
            } else {
                0
            },
            None => 0,
        };
        self.last_edge_ns = Some(edge_ns);
        self.count = self.count + 1;
        let phase_of: Option<PhaseOperands> = if out_gen > 0 {
            Some(
                PhaseOperands {
                    output_ns: out_subsec_ns as i64,
                    reference_ns: subsecond_ns(edge_ns) as i64,
                },
            )
        } else {
            None
        };
        let dev_ns: Option<i64> = if interval_ns != 0 {
            Some(interval_ns as i64 - 1_000_000_000)
        } else {
            None
        };
        SoftEdge { count: self.count, interval_ns, phase_of, dev_ns }
    }
}

/// The soft output: a pin raised at absolute deadlines, so that the time it takes to wake up shows
/// as jitter and never adds up.
#[derive(Debug, Clone, Copy, PartialEq, Eq, Structural)]
pub struct SoftOutput {
    /// When the pin rises next (timer ticks).
    pub next_rise: u64,
    /// Rises so far. It wraps.
    pub generation: u32,
    /// Where in its second the latest rise lay (ns).
    pub subsec_ns: u32,
    /// The latest period (timer ticks).
    pub period_ticks: u32,
}

impl SoftOutput {
    /// An output whose first rise is due at `now`.
    pub fn new(now: u64) -> (r: Self)
        ensures
            r == (SoftOutput { next_rise: now, generation: 0, subsec_ns: 0, period_ticks: 0 }),
    {
        SoftOutput { next_rise: now, generation: 0, subsec_ns: 0, period_ticks: 0 }
    }

    /// The pin rose at `edge_ns`.
    pub fn on_rise(&mut self, edge_ns: u64)
        ensures
            *final(self) == (SoftOutput {
                generation: ((old(self).generation + 1) % 0x1_0000_0000) as u32,
                subsec_ns: (edge_ns % SECOND_NS) as u32,
                ..*old(self)
            }),
    {
        self.subsec_ns = subsecond_ns(edge_ns);
        self.generation = self.generation.wrapping_add(1);
    }

    /// The crystal offset to form the period of (milli-ppb): the estimate where the stage applies
    /// it, else none.
    pub fn frequency(stage: u8, steering_mppb: i64) -> (r: i64)
        ensures
            r == (if applies_freq(stage) { steering_mppb as int } else { 0 }),
    {
        if apply_freq(stage) {
            steering_mppb
        } else {
            0
        }
    }

    /// Sets the next rise one period after the last deadline, whenever that was acted on.
    pub fn schedule(&mut self, period_ticks: u32)
        requires
            old(self).next_rise + period_ticks <= u64::MAX,
        ensures
            *final(self) == old(self).scheduled(period_ticks),
    {
        self.period_ticks = period_ticks;
        self.next_rise = self.next_rise + period_ticks as u64;
    }

    /// The output with its next rise set.
    pub open spec fn scheduled(self, period_ticks: u32) -> SoftOutput {
        SoftOutput { next_rise: (self.next_rise + period_ticks) as u64, period_ticks, ..self }
    }
}

/// The sum of a run of periods.
pub open spec fn elapsed(periods: Seq<u32>) -> int
    decreases periods.len(),
{
    if periods.len() == 0 {
        0
    } else {
        elapsed(periods.drop_last()) + periods.last()
    }
}

/// The output after a run of periods.
pub open spec fn after_periods(out: SoftOutput, periods: Seq<u32>) -> SoftOutput
    decreases periods.len(),
{
    if periods.len() == 0 {
        out
    } else {
        after_periods(out, periods.drop_last()).scheduled(periods.last())
    }
}

/// Deadlines follow from the periods alone: however late each rise was acted on, the next deadline
/// is the first one plus the sum of the periods since.
pub proof fn law_deadlines_do_not_drift(out: SoftOutput, periods: Seq<u32>)
    requires
        out.next_rise + elapsed(periods) <= u64::MAX,
    ensures
        after_periods(out, periods).next_rise == out.next_rise + elapsed(periods),
        elapsed(periods) >= 0,
    decreases periods.len(),
{
    if periods.len() > 0 {
        law_deadlines_do_not_drift(out, periods.drop_last());
    }
}

/// A pulse that is not locked leaves what the servo reads as it was, the generation included, so
/// that the servo sees no fresh reference.
pub proof fn law_only_locked_edges_are_handed_on(
    s: FeedState,
    event: PpsEvent,
    raw: u32,
    interval_ns: u64,
    c3: Option<u32>,
    c3n: u32,
)
    ensures
        s.next(event, raw, interval_ns, c3, c3n).snapshot == s.snapshot <== !(event is Locked),
        event is Locked ==> s.next(event, raw, interval_ns, c3, c3n).snapshot.generation
            != s.snapshot.generation,
{
}

/// A locked edge is handed on with its own reading, under the next generation, and its interval is
/// taken into the reception; the observing counter's reading is renewed if there is one, and how
/// many there were is told. Every edge is counted.
pub proof fn law_locked_edge_is_handed_on_whole(
    s: FeedState,
    event: PpsEvent,
    raw: u32,
    interval_ns: u64,
    c3: Option<u32>,
    c3n: u32,
)
    ensures
        ({
            let n = s.next(event, raw, interval_ns, c3, c3n);
            &&& n.count == s.count + 1
            &&& event is Locked ==> {
                &&& n.snapshot.c0 == raw
                &&& n.snapshot.c3n == c3n
                &&& c3 is Some ==> n.snapshot.c3 == c3->0
                &&& c3 is None ==> n.snapshot.c3 == s.snapshot.c3
                &&& s.snapshot.generation < u32::MAX ==> n.snapshot.generation
                    == s.snapshot.generation + 1
                &&& s.snapshot.generation == u32::MAX ==> n.snapshot.generation == 0
                &&& n.monitor == s.monitor.next(interval_ns as i64)
            }
            &&& !(event is Locked) ==> n.snapshot == s.snapshot && n.monitor == s.monitor
        }),
{
}

/// The soft interval is the time since the last edge: two edges in order give their distance, and
/// the first edge, or a clock that went back, gives none.
pub proof fn law_soft_interval_is_the_distance(s: SoftInput, prev: u64, ahead: u64)
    requires
        s.last_edge_ns == Some(prev),
        prev + ahead <= u64::MAX,
    ensures
        s.interval((prev + ahead) as u64) == ahead,
        ahead <= prev ==> s.interval((prev - ahead) as u64) == 0,
        (SoftInput { last_edge_ns: None, ..s }).interval(prev) == 0,
{
}

/// An irregular edge says how many pulses were missed, and no other says any were.
pub proof fn law_only_irregular_edges_miss_pulses(event: PpsEvent, interval_us: u64, missed: u32)
    ensures
        pulses_missed(PpsEvent::Irregular { interval_us, missed }) == missed,
        !(event is Irregular) ==> pulses_missed(event) == 0,
{
}

/// Where in its second a time lies is what is left of it after whole seconds.
pub proof fn law_subsecond_is_the_remainder(t: u64, seconds: u64, r: u32, later: u32)
    requires
        t + 1_000_000_000 * seconds <= u64::MAX,
        call_ensures(subsecond_ns, (t,), r),
        call_ensures(subsecond_ns, ((t + 1_000_000_000 * seconds) as u64,), later),
    ensures
        r == later,
        t < 1_000_000_000 ==> r == t,
        r < 1_000_000_000,
{
    vstd::arithmetic::div_mod::lemma_mod_multiples_vanish(
        seconds as int,
        t as int,
        1_000_000_000,
    );
}

/// The estimate forms the period from the first stage on; the stage below it runs free.
pub proof fn law_free_run_ignores_the_estimate(stage: u8, steering: i64, r: i64)
    requires
        call_ensures(SoftOutput::frequency, (stage, steering), r),
    ensures
        stage == 0 ==> r == 0,
        stage >= 1 ==> r == steering,
{
}

} // verus!
