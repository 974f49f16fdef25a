//! Bench measurements that run beside the output servo.
//!
//! Each is a small state machine fed once per output edge. What they have in common is that they
//! count **locked** edges: a disturbance injected while the loop is still acquiring measures
//! nothing.

use vstd::prelude::*;
use crate::stage::{CONTROLLER_LIST_LEN, SWEEP_SCHEDULE};

verus! {

use crate::arith::{in_i64, tdiv};

/// Amplitude of the pseudo-random phase disturbance (ns): well above the capture resolution, well
/// below the lock window.
pub const PRBS_AMP_NS: i64 = 96;

/// The state that the pseudo-random generator starts from.
pub const PRBS_SEED: u16 = 0xACE1;

/// Feedback taps of the generator, a maximal-length 16-bit shift register.
pub const PRBS_TAPS: u16 = 0xB400;

/// Height of an injected phase step (ns): beyond the outlier threshold, so that the loop first
/// rejects it and then accepts it as a disturbance.
pub const KICK_AMP_NS: i64 = 8_000;

/// Locked edges from one phase step to the next.
pub const KICK_PERIOD: u32 = 150;

/// Locked edges that a controller runs in a sweep.
pub const CONTROLLER_SWEEP_EDGES: u32 = 1200;

/// Edges after which a controller gives way although it never locked for long enough.
pub const CONTROLLER_SWEEP_LIMIT: u32 = 3600;

/// Locked edges between two shadow measurements of the counter offset.
pub const SHADOW_EDGES: u32 = 60;

/// Cadence of the counter shadow in the first part of a run (locked edges).
pub const SHADOW3_EDGES_A: u32 = 60;

/// Cadence of the counter shadow in the second part of a run (locked edges).
pub const SHADOW3_EDGES_B: u32 = 240;

/// Output edge from which on the second cadence holds.
pub const SHADOW3_PHASE_B_COUNT: u32 = 1500;

/// Edges that the counter shadow spends on the reference.
pub const SHADOW3_WINDOW_EDGES: u32 = 8;

/// Locked edges from one change of the temperature feedforward to the next.
pub const TEMPFF_ABAB_EDGES: u32 = 1800;

/// Locked edges of a closed-loop window.
pub const EXP_TON_EDGES: u32 = 30;

/// Locked edges of the open-loop windows, in turn.
pub const EXP_TOFF_SCHEDULE: [u32; 4] = [30, 60, 120, 300];

/// Output edge from which on the frequency bias is injected.
pub const INJECT_START_COUNT: u32 = 300;

/// A pseudo-random phase disturbance.
#[derive(Debug, Clone, Copy, PartialEq, Eq, Structural)]
pub struct Prbs {
    /// The shift register.
    pub lfsr: u16,
}

impl Prbs {
    /// The register one step on: shifted right, with the taps applied if a one dropped out.
    pub open spec fn shifted(lfsr: u16) -> u16 {
        (lfsr >> 1) ^ (if lfsr & 1 != 0 {
            PRBS_TAPS
        } else {
            0
        })
    }

    /// The generator after an edge.
    pub open spec fn next(self, active: bool) -> Prbs {
        if active {
            Prbs { lfsr: Self::shifted(self.lfsr) }
        } else {
            self
        }
    }

    /// The disturbance on an edge (ns).
    pub open spec fn disturbance(self, active: bool) -> i64 {
        if !active {
            0
        } else if self.lfsr & 1 != 0 {
            PRBS_AMP_NS
        } else {
            (-PRBS_AMP_NS) as i64
        }
    }

    /// A generator at the start of its sequence.
    pub fn new() -> (r: Self)
        ensures
            r.lfsr == PRBS_SEED,
    {
        Prbs { lfsr: PRBS_SEED }
    }

    /// The disturbance to inject on this edge (ns); none, and no step of the sequence, unless
    /// `active`.
    pub fn step(&mut self, active: bool) -> (ns: i64)
        ensures
            ns == old(self).disturbance(active),
            *final(self) == old(self).next(active),
    {
        if !active {
            return 0;
        }
        let bit: u16 = self.lfsr & 1;
        self.lfsr = (self.lfsr >> 1) ^ (if bit != 0 { PRBS_TAPS } else { 0 });
        if bit != 0 {
            PRBS_AMP_NS
        } else {
            -PRBS_AMP_NS
        }
    }
}

/// A phase step injected every [`KICK_PERIOD`] locked edges.
#[derive(Debug, Clone, Copy, PartialEq, Eq, Structural)]
pub struct Kick {
    /// Locked edges since the last step.
    pub edges: u32,
}

impl Kick {
    /// What holds of every such counter.
    pub open spec fn wf(self) -> bool {
        self.edges < KICK_PERIOD
    }

    /// Whether the step falls on this edge.
    pub open spec fn due(self, active: bool) -> bool {
        active && self.edges + 1 >= KICK_PERIOD
    }

    /// The counter after an edge.
    pub open spec fn next(self, active: bool) -> Kick {
        if !active {
            self
        } else if self.due(active) {
            Kick { edges: 0 }
        } else {
            Kick { edges: (self.edges + 1) as u32 }
        }
    }

    /// Starts counting.
    pub fn new() -> (r: Self)
        ensures
            r.edges == 0,
            r.wf(),
    {
        Kick { edges: 0 }
    }

    /// The step to inject on this edge (ns), if it is due.
    pub fn step(&mut self, active: bool) -> (ns: i64)
        requires
            old(self).wf(),
        ensures
            ns == (if old(self).due(active) { KICK_AMP_NS as int } else { 0 }),
            *final(self) == old(self).next(active),
            final(self).wf(),
    {
        if !active {
            return 0;
        }
        self.edges = self.edges + 1;
        if self.edges >= KICK_PERIOD {
            self.edges = 0;
            KICK_AMP_NS
        } else {
            0
        }
    }
}

/// Progress of a controller sweep.
#[derive(Debug, Clone, Copy, PartialEq, Eq, Structural)]
pub struct Sweep {
    /// Position in the schedule.
    pub idx: usize,
    /// Locked edges in the current segment.
    pub locked_edges: u32,
    /// All edges in the current segment.
    pub total_edges: u32,
}

/// A change to another controller.
#[derive(Debug, Clone, Copy, PartialEq, Eq, Structural)]
pub struct SweepSwitch {
    /// Which controller comes next.
    pub cidx: usize,
    /// Whether the last one gave way without enough locked edges.
    pub forced: bool,
}

impl Sweep {
    /// What holds of every sweep.
    pub open spec fn wf(self) -> bool {
        &&& self.idx < 9
        &&& self.locked_edges < CONTROLLER_SWEEP_EDGES
        &&& self.total_edges < CONTROLLER_SWEEP_LIMIT
        &&& self.locked_edges <= self.total_edges
    }

    /// Locked edges with this one.
    pub open spec fn locked_with(self, locked: bool) -> int {
        self.locked_edges + (if locked {
            1int
        } else {
            0
        })
    }

    /// Whether the segment ends with this edge.
    pub open spec fn ends(self, active: bool, locked: bool) -> bool {
        active && (self.locked_with(locked) >= CONTROLLER_SWEEP_EDGES || self.total_edges + 1
            >= CONTROLLER_SWEEP_LIMIT)
    }

    /// The controller in force.
    pub open spec fn controller(self) -> usize {
        SWEEP_SCHEDULE@[self.idx as int]
    }

    /// The sweep after an edge.
    pub open spec fn next(self, active: bool, locked: bool) -> Sweep {
        if !active {
            self
        } else if self.ends(active, locked) {
            Sweep { idx: ((self.idx + 1) % 9) as usize, locked_edges: 0, total_edges: 0 }
        } else {
            Sweep {
                idx: self.idx,
                locked_edges: self.locked_with(locked) as u32,
                total_edges: (self.total_edges + 1) as u32,
            }
        }
    }

    /// A sweep at the head of its schedule.
    pub fn new() -> (r: Self)
        ensures
            r == (Sweep { idx: 0, locked_edges: 0, total_edges: 0 }),
            r.wf(),
    {
        Sweep { idx: 0, locked_edges: 0, total_edges: 0 }
    }

    /// The controller in force.
    pub fn cidx(&self) -> (r: usize)
        requires
            self.wf(),
        ensures
            r == self.controller(),
            r < CONTROLLER_LIST_LEN,
    {
        let i: usize = self.idx;
        proof {
            lemma_schedule_entries(i as int);
        }
        SWEEP_SCHEDULE[i]
    }

    /// Counts an edge and says whether another controller takes over.
    pub fn step(&mut self, active: bool, locked: bool) -> (s: Option<SweepSwitch>)
        requires
            old(self).wf(),
        ensures
            *final(self) == old(self).next(active, locked),
            final(self).wf(),
            s is Some <==> old(self).ends(active, locked),
            s matches Some(sw) ==> sw.cidx == final(self).controller() && sw.cidx
                < CONTROLLER_LIST_LEN && sw.forced == (old(self).locked_with(locked)
                < CONTROLLER_SWEEP_EDGES),
    {
        if !active {
            return None;
        }
        let total: u32 = self.total_edges + 1;
        let counted: u32 = if locked {
            self.locked_edges + 1
        } else {
            self.locked_edges
        };
        if counted >= CONTROLLER_SWEEP_EDGES || total >= CONTROLLER_SWEEP_LIMIT {
            self.locked_edges = 0;
            self.total_edges = 0;
            self.idx = (self.idx + 1) % 9;
            Some(SweepSwitch { cidx: self.cidx(), forced: counted < CONTROLLER_SWEEP_EDGES })
        } else {
            self.locked_edges = counted;
            self.total_edges = total;
            None
        }
    }
}

/// Every entry of the schedule names a controller.
proof fn lemma_schedule_entries(i: int)
    requires
        0 <= i < 9,
    ensures
        SWEEP_SCHEDULE@[i] < CONTROLLER_LIST_LEN,
{
    assert(SWEEP_SCHEDULE@ =~= seq![0usize, 1, 2, 1, 2, 0, 2, 0, 1]);
}

/// A count of locked edges that comes due every so often.
#[derive(Debug, Clone, Copy, PartialEq, Eq, Structural)]
pub struct Cadence {
    /// Locked edges since it was last due.
    pub edges: u32,
}

impl Cadence {
    /// Whether it comes due on this edge.
    pub open spec fn due(self, active: bool, period: u32) -> bool {
        active && self.edges + 1 >= period
    }

    /// The count after an edge.
    pub open spec fn next(self, active: bool, period: u32) -> Cadence {
        if !active {
            self
        } else if self.due(active, period) {
            Cadence { edges: 0 }
        } else {
            Cadence { edges: (self.edges + 1) as u32 }
        }
    }

    /// Starts counting.
    pub fn new() -> (r: Self)
        ensures
            r.edges == 0,
    {
        Cadence { edges: 0 }
    }

    /// Counts an edge if `active`, and says whether the cadence comes due on it.
    pub fn step(&mut self, active: bool, period: u32) -> (due: bool)
        requires
            old(self).edges < u32::MAX,
        ensures
            due == old(self).due(active, period),
            *final(self) == old(self).next(active, period),
            final(self).edges < u32::MAX,
    {
        if !active {
            return false;
        }
        self.edges = self.edges + 1;
        if self.edges >= period {
            self.edges = 0;
            true
        } else {
            false
        }
    }
}

/// What the observing counter watches.
#[derive(Debug, Clone, Copy, PartialEq, Eq, Structural)]
pub enum Watch {
    /// The reference pulse.
    Reference,
    /// The generated output.
    Output,
}

/// The counter shadow: the observing counter stays on the output and visits the reference for a
/// few edges at a cadence.
#[derive(Debug, Clone, Copy, PartialEq, Eq, Structural)]
pub struct CounterShadow {
    /// Locked edges on the output since the last visit.
    pub cadence: Cadence,
    /// Edges left of the visit, or 0 while on the output.
    pub window_left: u32,
}

impl CounterShadow {
    /// What holds of every counter shadow.
    pub open spec fn wf(self) -> bool {
        &&& self.cadence.edges < u32::MAX
        &&& self.window_left <= SHADOW3_WINDOW_EDGES
    }

    /// The cadence in force at the output edge `count`.
    pub open spec fn period(count: u32) -> u32 {
        if count < SHADOW3_PHASE_B_COUNT {
            SHADOW3_EDGES_A
        } else {
            SHADOW3_EDGES_B
        }
    }

    /// Where the counter is pointed on this edge, if it moves.
    pub open spec fn moves_to(self, active: bool, count: u32) -> Option<Watch> {
        if !active {
            None
        } else if self.window_left > 0 {
            if self.window_left == 1 {
                Some(Watch::Output)
            } else {
                None
            }
        } else if self.cadence.due(true, Self::period(count)) {
            Some(Watch::Reference)
        } else {
            None
        }
    }

    /// The shadow after an edge.
    pub open spec fn next(self, active: bool, count: u32) -> CounterShadow {
        if !active {
            self
        } else if self.window_left > 0 {
            CounterShadow { window_left: (self.window_left - 1) as u32, ..self }
        } else {
            CounterShadow {
                cadence: self.cadence.next(true, Self::period(count)),
                window_left: if self.cadence.due(true, Self::period(count)) {
                    SHADOW3_WINDOW_EDGES
                } else {
                    0
                },
            }
        }
    }

    /// Starts on the output.
    pub fn new() -> (r: Self)
        ensures
            r.cadence.edges == 0,
            r.window_left == 0,
            r.wf(),
    {
        CounterShadow { cadence: Cadence::new(), window_left: 0 }
    }

    /// Counts an edge and says where to point the counter, if it moves.
    pub fn step(&mut self, active: bool, count: u32) -> (to: Option<Watch>)
        requires
            old(self).wf(),
        ensures
            to == old(self).moves_to(active, count),
            *final(self) == old(self).next(active, count),
            final(self).wf(),
    {
        if !active {
            return None;
        }
        if self.window_left > 0 {
            self.window_left = self.window_left - 1;
            if self.window_left == 0 {
                Some(Watch::Output)
            } else {
                None
            }
        } else {
            let period: u32 = if count < SHADOW3_PHASE_B_COUNT {
                SHADOW3_EDGES_A
            } else {
                SHADOW3_EDGES_B
            };
            if self.cadence.step(true, period) {
                self.window_left = SHADOW3_WINDOW_EDGES;
                Some(Watch::Reference)
            } else {
                None
            }
        }
    }
}

/// Closed-loop windows alternating with open-loop windows of growing length.
#[derive(Debug, Clone, Copy, PartialEq, Eq, Structural)]
pub struct Windows {
    /// Whether the loop is open.
    pub open: bool,
    /// Locked edges in the current window.
    pub edges: u32,
    /// Which open-loop window is next, or in force.
    pub toff_idx: usize,
    /// The trim to hold through an open window (milli-ppb).
    pub held_trim: i64,
    /// Sum of the trims seen in the closed window (milli-ppb).
    pub trim_sum: i64,
    /// How many trims were summed.
    pub trim_n: u32,
}

/// A change of window.
#[derive(Debug, Clone, Copy, PartialEq, Eq, Structural)]
pub enum WindowChange {
    /// The loop opens for `toff` locked edges and holds `held_trim`.
    Opened { toff: u32, held_trim: i64 },
    /// The loop closes; the counter offset was left alone meanwhile and has to be measured again.
    Closed,
}

impl Windows {
    /// What holds of every sequence of windows.
    pub open spec fn wf(self) -> bool {
        &&& self.toff_idx < 4
        &&& !self.open ==> self.edges < EXP_TON_EDGES
        &&& self.open ==> self.edges < self.toff()
    }

    /// Length of the open-loop window that is next, or in force.
    pub open spec fn toff(self) -> u32 {
        EXP_TOFF_SCHEDULE@[self.toff_idx as int]
    }

    /// Whether the sum of trims can take another.
    pub open spec fn defined(self, locked: bool, trim: i64) -> bool {
        locked && !self.open ==> in_i64(self.trim_sum + trim) && self.trim_n < u32::MAX
    }

    /// The mean of the trims of the closed window, this one included.
    pub open spec fn mean_trim(self, trim: i64) -> int {
        tdiv(self.trim_sum + trim, self.trim_n + 1)
    }

    /// The change that falls on this edge, if any.
    pub open spec fn change(self, locked: bool, trim: i64) -> Option<WindowChange> {
        if !locked {
            None
        } else if !self.open && self.edges + 1 >= EXP_TON_EDGES {
            Some(WindowChange::Opened { toff: self.toff(), held_trim: self.mean_trim(trim) as i64 })
        } else if self.open && self.edges + 1 >= self.toff() {
            Some(WindowChange::Closed)
        } else {
            None
        }
    }

    /// The windows after an edge. An unlocked edge starts the window over, but not the mean.
    pub open spec fn next(self, locked: bool, trim: i64) -> Windows {
        if !locked {
            Windows { edges: 0, ..self }
        } else if !self.open {
            let summed = Windows {
                trim_sum: (self.trim_sum + trim) as i64,
                trim_n: (self.trim_n + 1) as u32,
                ..self
            };
            if self.edges + 1 >= EXP_TON_EDGES {
                Windows { open: true, edges: 0, held_trim: self.mean_trim(trim) as i64, ..summed }
            } else {
                Windows { edges: (self.edges + 1) as u32, ..summed }
            }
        } else if self.edges + 1 >= self.toff() {
            Windows {
                open: false,
                edges: 0,
                toff_idx: ((self.toff_idx + 1) % 4) as usize,
                trim_sum: 0,
                trim_n: 0,
                ..self
            }
        } else {
            Windows { edges: (self.edges + 1) as u32, ..self }
        }
    }

    /// Starts with a closed window.
    pub fn new() -> (r: Self)
        ensures
            r == (Windows {
                open: false,
                edges: 0,
                toff_idx: 0,
                held_trim: 0,
                trim_sum: 0,
                trim_n: 0,
            }),
            r.wf(),
    {
        Windows { open: false, edges: 0, toff_idx: 0, held_trim: 0, trim_sum: 0, trim_n: 0 }
    }

    /// Counts an edge with the trim in force and says whether the window changes.
    pub fn step(&mut self, locked: bool, trim: i64) -> (c: Option<WindowChange>)
        requires
            old(self).wf(),
            old(self).defined(locked, trim),
        ensures
            c == old(self).change(locked, trim),
            *final(self) == old(self).next(locked, trim),
            final(self).wf(),
    {
        proof {
            lemma_toff_entries();
        }
        if !locked {
            self.edges = 0;
            return None;
        }
        self.edges = self.edges + 1;
        if !self.open {
            self.trim_sum = self.trim_sum + trim;
            self.trim_n = self.trim_n + 1;
            if self.edges >= EXP_TON_EDGES {
                self.open = true;
                self.edges = 0;
                proof {
                    crate::arith::lemma_tdiv_in_i64(self.trim_sum as int, self.trim_n as int);
                }
                self.held_trim = self.trim_sum / self.trim_n as i64;
                let i: usize = self.toff_idx;
                Some(WindowChange::Opened { toff: EXP_TOFF_SCHEDULE[i], held_trim: self.held_trim })
            } else {
                None
            }
        } else {
            let i: usize = self.toff_idx;
            if self.edges >= EXP_TOFF_SCHEDULE[i] {
                self.open = false;
                self.edges = 0;
                self.trim_sum = 0;
                self.trim_n = 0;
                self.toff_idx = (self.toff_idx + 1) % 4;
                Some(WindowChange::Closed)
            } else {
                None
            }
        }
    }
}

/// The lengths of the open-loop windows.
proof fn lemma_toff_entries()
    ensures
        forall|i: int| 0 <= i < 4 ==> 0 < #[trigger] EXP_TOFF_SCHEDULE@[i] <= 300,
{
    assert(EXP_TOFF_SCHEDULE@ =~= seq![30u32, 60, 120, 300]);
}

/// The pseudo-random generator never gets stuck: a register that is not zero stays so, and no two
/// registers have the same successor.
pub proof fn law_prbs_never_stalls(a: u16, b: u16)
    ensures
        a != 0 ==> Prbs::shifted(a) != 0,
        Prbs::shifted(a) == Prbs::shifted(b) ==> a == b,
{
    assert(a != 0 ==> (a >> 1) ^ (if a & 1 != 0 {
        0xB400u16
    } else {
        0
    }) != 0) by (bit_vector);
    assert((a >> 1) ^ (if a & 1 != 0 {
        0xB400u16
    } else {
        0
    }) == (b >> 1) ^ (if b & 1 != 0 {
        0xB400u16
    } else {
        0
    }) ==> a == b) by (bit_vector);
}

/// Nothing is injected, and nothing advances, while the loop is not locked.
pub proof fn law_unlocked_edges_inject_nothing(p: Prbs, k: Kick, s: CounterShadow, c: Cadence, count: u32, period: u32)
    ensures
        p.disturbance(false) == 0,
        p.next(false) == p,
        !k.due(false),
        k.next(false) == k,
        s.moves_to(false, count) is None,
        s.next(false, count) == s,
        !c.due(false, period),
        c.next(false, period) == c,
{
}

/// A sweep cannot stall: after at most [`CONTROLLER_SWEEP_LIMIT`] edges, whatever their lock state,
/// the next controller of the schedule takes over.
pub proof fn law_sweep_cannot_stall(s: Sweep, locks: Seq<bool>)
    requires
        s.wf(),
        locks.len() == CONTROLLER_SWEEP_LIMIT,
    ensures
        exists|i: int|
            0 <= i < locks.len() && #[trigger] after_edges(s, locks.take(i)).ends(true, locks[i]),
{
    if !exists|i: int|
        0 <= i < locks.len() && #[trigger] after_edges(s, locks.take(i)).ends(true, locks[i]) {
        lemma_sweep_counts(s, locks, locks.len() as int);
        assert(locks.take(locks.len() as int) =~= locks);
    }
}

/// The sweep after a run of edges.
pub open spec fn after_edges(s: Sweep, locks: Seq<bool>) -> Sweep
    decreases locks.len(),
{
    if locks.len() == 0 {
        s
    } else {
        after_edges(s, locks.drop_last()).next(true, locks.last())
    }
}

/// As long as no segment ends, the count of edges grows by one per edge.
proof fn lemma_sweep_counts(s: Sweep, locks: Seq<bool>, n: int)
    requires
        s.wf(),
        0 <= n <= locks.len(),
        forall|i: int|
            0 <= i < n ==> !(#[trigger] after_edges(s, locks.take(i))).ends(true, locks[i]),
    ensures
        after_edges(s, locks.take(n)).wf(),
        after_edges(s, locks.take(n)).total_edges == s.total_edges + n,
    decreases n,
{
    if n > 0 {
        lemma_sweep_counts(s, locks, n - 1);
        assert(locks.take(n).drop_last() =~= locks.take(n - 1));
        assert(!after_edges(s, locks.take(n - 1)).ends(true, locks[n - 1]));
    } else {
        assert(locks.take(0) =~= Seq::empty());
    }
}

/// A visit to the reference ends by itself: it counts down with each locked edge, and the edge on
/// which the count runs out sends the counter back to the output.
pub proof fn law_shadow_returns(s: CounterShadow, count: u32)
    requires
        s.wf(),
        s.window_left > 0,
    ensures
        s.next(true, count).window_left == s.window_left - 1,
        s.moves_to(true, count) == (if s.window_left == 1 {
            Some(Watch::Output)
        } else {
            None
        }),
{
}

/// The disturbance is 96 ns up or down by the lowest bit of the register, which then drops out; the
/// rest moves down, and a one that dropped out is fed back at the taps.
pub proof fn law_prbs_follows_its_register(p: Prbs)
    ensures
        p.lfsr % 2 == 1 ==> p.disturbance(true) == 96 && p.next(true).lfsr == (p.lfsr / 2) ^ 0xB400,
        p.lfsr % 2 == 0 ==> p.disturbance(true) == -96 && p.next(true).lfsr == p.lfsr / 2,
{
    let r = p.lfsr;
    assert((r % 2 == 1 <==> r & 1 != 0) && r >> 1 == r / 2 && (r >> 1) ^ 0 == r >> 1)
        by (bit_vector);
}

/// A step comes on every 150th active edge: the count goes up by one per active edge, and starts
/// over where the step falls.
pub proof fn law_kick_comes_every_150_edges(k: Kick)
    requires
        k.wf(),
    ensures
        k.due(true) <==> k.edges == 149,
        k.edges < 149 ==> k.next(true).edges == k.edges + 1,
        k.edges == 149 ==> k.next(true).edges == 0,
{
}

/// A cadence comes due on the active edge that makes its period full, and starts over there.
pub proof fn law_cadence_comes_due_when_full(c: Cadence, period: u32)
    requires
        c.edges < u32::MAX,
    ensures
        c.due(true, period) <==> c.edges + 1 >= period,
        c.due(true, period) ==> c.next(true, period).edges == 0,
        !c.due(true, period) ==> c.next(true, period).edges == c.edges + 1,
{
}

/// A segment of the sweep ends with its 1200th locked edge or its 3600th edge of any kind; the next
/// in the schedule of nine then starts, and the first follows the last.
pub proof fn law_sweep_segments_end_when_full(s: Sweep, locked: bool)
    requires
        s.wf(),
    ensures
        ({
            let n = s.next(true, locked);
            let counted = if locked { s.locked_edges + 1 } else { s.locked_edges as int };
            &&& s.ends(true, locked) <==> counted == 1200 || s.total_edges == 3599
            &&& !s.ends(false, locked) && s.next(false, locked) == s
            &&& s.ends(true, locked) ==> n.locked_edges == 0 && n.total_edges == 0 && n.idx == (
            if s.idx == 8 {
                0
            } else {
                s.idx + 1
            })
            &&& !s.ends(true, locked) ==> n.locked_edges == counted && n.total_edges == s.total_edges
                + 1 && n.idx == s.idx
        }),
{
}

/// The counter visits the reference for eight edges, after every 60 locked edges up to the 1500th
/// output edge and every 240 from there on.
pub proof fn law_shadow_visits_at_its_cadence(s: CounterShadow, count: u32)
    requires
        s.wf(),
        s.window_left == 0,
    ensures
        ({
            let period = if count < 1500 { 60int } else { 240 };
            let n = s.next(true, count);
            &&& s.cadence.edges + 1 >= period ==> s.moves_to(true, count) == Some(Watch::Reference)
                && n.window_left == 8 && n.cadence.edges == 0
            &&& s.cadence.edges + 1 < period ==> s.moves_to(true, count) is None && n.window_left
                == 0 && n.cadence.edges == s.cadence.edges + 1
        }),
{
}

/// A closed window lasts 30 locked edges and is followed by an open one of 30, 60, 120 or 300, in
/// turn. While closed, the trims are summed; where it opens, `mean` of them, truncated, is held. An
/// unlocked edge starts the window over and changes nothing else.
pub proof fn law_windows_alternate(w: Windows, trim: i64, mean: i64)
    requires
        w.wf(),
        w.defined(true, trim),
        crate::arith::is_quotient(mean as int, w.trim_sum + trim, w.trim_n + 1),
    ensures
        ({
            let n = w.next(true, trim);
            let c = w.change(true, trim);
            let toff = if w.toff_idx == 0 { 30int } else if w.toff_idx == 1 { 60 } else if w.toff_idx
                == 2 { 120 } else { 300 };
            if !w.open {
                &&& n.trim_sum == w.trim_sum + trim && n.trim_n == w.trim_n + 1
                &&& n.toff_idx == w.toff_idx
                &&& w.edges == 29 ==> n.open && n.edges == 0 && n.held_trim == mean && c == Some(
                    WindowChange::Opened { toff: toff as u32, held_trim: mean },
                )
                &&& w.edges < 29 ==> !n.open && n.edges == w.edges + 1 && n.held_trim == w.held_trim
                    && c is None
            } else {
                &&& w.edges + 1 == toff ==> !n.open && n.edges == 0 && n.trim_sum == 0 && n.trim_n
                    == 0 && n.toff_idx == (w.toff_idx + 1) % 4 && c == Some(WindowChange::Closed)
                &&& w.edges + 1 < toff ==> n == (Windows { edges: (w.edges + 1) as u32, ..w }) && c
                    is None
            }
        }),
        w.next(false, trim) == (Windows { edges: 0, ..w }),
        w.change(false, trim) is None,
{
    assert(EXP_TOFF_SCHEDULE@ =~= seq![30u32, 60, 120, 300]);
    crate::arith::lemma_tdiv_unique(w.trim_sum + trim, w.trim_n + 1, mean as int);
}

} // verus!
