//! The output servo: what happens on each edge of the generated 1PPS.
//!
//! The output is steered once per edge. Each edge is stamped by a counter; the edge of the
//! reference that belongs to it is stamped by another; the phase between the two, less the
//! calibrated offset of the counters, is what the controller acts on. The decisions are here, and
//! the hardware is outside:
//!
//! 1. [`OutputServo::begin_edge`] pairs the edge with the reference and says which readings the
//!    phase has to be formed of.
//! 2. [`OutputServo::on_edge`] takes the phase, runs the controller, and says what to hand to the
//!    period generator and what else to do before the next edge.
//! 3. [`OutputServo::on_recalibrated`] and [`OutputServo::on_shadow_measured`] take in a
//!    measurement of the counter offset, which interrupts the sequence of edges.

use vstd::prelude::*;
use crate::bench::{
    Cadence, CounterShadow, Kick, Prbs, Sweep, SweepSwitch, Watch, WindowChange, Windows,
    INJECT_START_COUNT, SHADOW_EDGES, TEMPFF_ABAB_EDGES,
};
use crate::control::{ControlInit, ControlInput, ControlOutput, PhaseController};
use crate::controllers::Controller;
use crate::loopback::{OffsetTracker, Recalibration};
use crate::stage::{
    initial_controller, make_controller, phase_servo, recal_eff, recal_on, temp_ff, BuildConfig,
};
use crate::ticks::{tick_delta, tick_magnitude};

verus! {

use crate::arith::{bounded, in_i64, larger, lemma_tdiv_bounds, magnitude};
use crate::bench::KICK_AMP_NS;
use crate::controllers::{
    law_boost_trim_is_clamped, law_sane_boost_never_overflows, law_sane_rework_never_overflows,
    ReworkState,
};
use crate::loopback::RecalState;
use crate::pll::{law_sane_loop_never_overflows, CORR_CLAMP_NS};
use crate::stage::{closes_phase_loop, feeds_temperature, grid_loop, recal_edges, recalibrates};
use crate::ticks::centred;

/// How long the servo waits for the reference edge of the same second (us): the output may lead
/// it slightly.
pub const PAIR_WAIT_US: u64 = 500;

/// The interval between two output edges that are a second apart (ns).
pub const NOMINAL_NS: i64 = 1_000_000_000;

/// How far an interval may be off and still come from two neighbouring output edges (ns).
pub const SANE_INTERVAL_NS: i64 = 300_000_000;

/// Whether the controller `c` goes over into `after` on `input`, with the output `u`. It stays
/// folded where it does not matter which controller it is.
#[verifier::opaque]
pub open spec fn steps(c: Controller, input: ControlInput, u: ControlOutput, after: Controller) -> bool {
    c.steps_to(input, u, &after)
}

/// Whether the controller `c` can take `input`. It stays folded where it does not matter which
/// controller it is.
#[verifier::opaque]
pub open spec fn takes(c: Controller, input: ControlInput) -> bool {
    c.step_defined(input)
}

/// What the phase of an edge has to be formed of.
#[derive(Debug, Clone, Copy, PartialEq, Eq, Structural)]
pub struct EdgeQuery {
    /// Reading of the previous output edge, if the interval to it means anything.
    pub last_x: Option<u32>,
    /// The counter offset to take off.
    pub k: u32,
}

/// What was measured of an edge.
#[derive(Debug, Clone, Copy, PartialEq, Eq, Structural)]
pub struct EdgeReading {
    /// Reading of the output edge.
    pub x: u32,
    /// Reading of the latest reference edge, or 0 if there was none yet.
    pub c0: u32,
    /// Interval since the previous output edge (ns).
    pub interval_ns: Option<i64>,
    /// Phase of the output against the reference, folded into a second (ns).
    pub hwphase_ns: i64,
    /// The same before it was folded (ticks).
    pub raw_lag: i32,
    /// Frequency of the system clock, twice that of the counters (Hz).
    pub clk_hz: u32,
    /// Phase by the software clock (ns), if there is one.
    pub soft_phase_ns: Option<i64>,
    /// Predicted crystal offset (milli-ppb).
    pub pred_mppb: i64,
    /// Crystal offset to steer by: the prediction with its lead clamped (milli-ppb).
    pub steer_mppb: i64,
    /// Crystal offset without any lead (milli-ppb).
    pub level_mppb: i64,
}

/// Runs a controller on an edge.
fn run(c: &mut Controller, input: ControlInput) -> (u: ControlOutput)
    requires
        takes(*old(c), input),
    ensures
        steps(*old(c), input, u, *final(c)),
{
    proof {
        reveal(takes);
        reveal(steps);
    }
    c.step(input)
}

/// Makes the controller `cidx` of the sweep, started from the trim `residual_mppb`.
fn succeed(cidx: usize, residual_mppb: i64) -> (c: Controller)
    ensures
        c matches Controller::Pll(pll) && pll@ == grid_loop(cidx as int).restarted(
            residual_mppb as int,
        ),
{
    let mut c = make_controller(cidx);
    c.start_segment(ControlInit { residual_trim_mppb: residual_mppb });
    c
}

impl EdgeReading {
    /// Whether the interval is that of two neighbouring output edges.
    pub open spec fn sane(self) -> bool {
        match self.interval_ns {
            Some(iv) => magnitude(iv - NOMINAL_NS) < SANE_INTERVAL_NS,
            None => false,
        }
    }

    /// Whether the two edges lie within about ten milliseconds: an edge paired with that of
    /// another second is about a second away, which folding would hide.
    pub open spec fn paired(self) -> bool {
        magnitude(self.raw_lag as int) <= self.clk_hz / 200
    }
}

/// What is due after an edge.
#[derive(Debug, Clone, Copy, PartialEq, Eq, Structural)]
pub struct EdgeTasks {
    /// Measure the counter offset without applying it.
    pub shadow_recal: bool,
    /// Point the observing counter elsewhere.
    pub watch: Option<Watch>,
    /// Switch the temperature feedforward.
    pub set_temp_ff: Option<bool>,
    /// The loop opens or closes.
    pub window: Option<WindowChange>,
    /// Measure the counter offset anew.
    pub recal: bool,
}

/// What to do on an edge, and what to report of it.
#[derive(Debug, Clone, Copy, PartialEq, Eq, Structural)]
pub struct EdgeCommand {
    /// What the controller said.
    pub output: ControlOutput,
    /// Whether the phase was trusted.
    pub valid: bool,
    /// Whether the two edges belong together.
    pub paired: bool,
    /// Whether the phase was dropped because they do not.
    pub mispaired: bool,
    /// Whether the phase is that of an open loop, which nothing holds.
    pub open_loop: bool,
    /// Whether to feed the die temperature to the clock.
    pub feed_temp: bool,
    /// Crystal offset for the period generator (milli-ppb).
    pub freq_mppb: i64,
    /// Phase correction for the period generator (ns).
    pub phase_ns: i64,
    /// The part of `freq_mppb` that the loop does not know of (milli-ppb).
    pub bias_mppb: i64,
    /// The pseudo-random part of `phase_ns`.
    pub prbs_ns: i64,
    /// The injected step in `phase_ns`.
    pub kick_ns: i64,
    /// Lead of the prediction over the level (milli-ppb).
    pub ff_delta_mppb: i64,
    /// Lead of what is steered by over the level (milli-ppb).
    pub steer_ff_mppb: i64,
    /// Output edges with an interval, this one included.
    pub count: u32,
    /// Deviation of the interval from a second (ns), if there is an interval to report.
    pub dev_ns: Option<i64>,
    /// The controller in force.
    pub cidx: usize,
    /// Another controller takes over.
    pub switched: Option<SweepSwitch>,
    /// What is due after this edge.
    pub tasks: EdgeTasks,
}

/// What happens beside the loop, now and then.
#[derive(Debug, Clone, Copy, PartialEq, Eq, Structural)]
pub struct Agenda {
    /// When the next shadow measurement is due.
    pub shadow: Cadence,
    /// The counter shadow.
    pub counter_shadow: CounterShadow,
    /// When the temperature feedforward changes next.
    pub ff_cadence: Cadence,
    /// Whether the temperature feedforward is applied.
    pub ff_on: bool,
    /// The closed and open windows.
    pub windows: Windows,
    /// When the next recalibration is due.
    pub recal: Cadence,
}

impl Agenda {
    /// What holds of every agenda.
    pub open spec fn wf(self) -> bool {
        &&& self.shadow.edges < u32::MAX
        &&& self.counter_shadow.wf()
        &&& self.ff_cadence.edges < u32::MAX
        &&& self.windows.wf()
        &&& self.recal.edges < u32::MAX
    }

    /// Whether a shadow measurement is being counted towards.
    pub open spec fn shadows(cfg: BuildConfig, locked: bool) -> bool {
        cfg.shadow_recal && locked && !recalibrates(cfg.stage)
    }

    /// Locked edges between recalibrations.
    pub open spec fn recal_period(cfg: BuildConfig) -> u32 {
        recal_edges(cfg.stage, cfg.recal_edges_override)
    }

    /// The window change that falls on an edge, if any.
    pub open spec fn window_change(self, cfg: BuildConfig, locked: bool, trim: i64) -> Option<
        WindowChange,
    > {
        if cfg.intermittent {
            self.windows.change(locked, trim)
        } else {
            None
        }
    }

    /// Whether the temperature feedforward changes on an edge.
    pub open spec fn ff_changes(self, cfg: BuildConfig, locked: bool) -> bool {
        self.ff_cadence.due(cfg.temp_ff_abab && locked, TEMPFF_ABAB_EDGES)
    }

    /// What is due after an edge.
    pub open spec fn due(self, cfg: BuildConfig, locked: bool, trim: i64, count: u32) -> EdgeTasks {
        EdgeTasks {
            shadow_recal: self.shadow.due(Self::shadows(cfg, locked), SHADOW_EDGES),
            watch: self.counter_shadow.moves_to(cfg.shadow3 && locked, count),
            set_temp_ff: if self.ff_changes(cfg, locked) {
                Some(!self.ff_on)
            } else {
                None
            },
            window: self.window_change(cfg, locked, trim),
            recal: if cfg.intermittent {
                self.window_change(cfg, locked, trim) == Some(WindowChange::Closed)
            } else {
                self.recal.due(locked, Self::recal_period(cfg))
            },
        }
    }

    /// The agenda after an edge. The recalibration cadence counts locked edges in a row: an
    /// unlocked edge starts it over, so that no recalibration falls on a loop that has only just
    /// locked.
    pub open spec fn next(self, cfg: BuildConfig, locked: bool, trim: i64, count: u32) -> Agenda {
        Agenda {
            shadow: self.shadow.next(Self::shadows(cfg, locked), SHADOW_EDGES),
            counter_shadow: self.counter_shadow.next(cfg.shadow3 && locked, count),
            ff_cadence: self.ff_cadence.next(cfg.temp_ff_abab && locked, TEMPFF_ABAB_EDGES),
            ff_on: if self.ff_changes(cfg, locked) {
                !self.ff_on
            } else {
                self.ff_on
            },
            windows: if cfg.intermittent {
                self.windows.next(locked, trim)
            } else {
                self.windows
            },
            recal: if cfg.intermittent {
                self.recal
            } else if locked {
                self.recal.next(true, Self::recal_period(cfg))
            } else {
                Cadence { edges: 0 }
            },
        }
    }

    /// An agenda on which nothing has been counted.
    pub fn new(cfg: &BuildConfig) -> (r: Self)
        ensures
            r.wf(),
            r.shadow.edges == 0,
            r.counter_shadow == (CounterShadow { cadence: Cadence { edges: 0 }, window_left: 0 }),
            r.ff_cadence.edges == 0,
            r.ff_on == feeds_temperature(cfg.stage),
            !r.windows.open,
            r.windows.edges == 0,
            r.windows.toff_idx == 0,
            r.windows.held_trim == 0,
            r.windows.trim_sum == 0,
            r.windows.trim_n == 0,
            r.recal.edges == 0,
    {
        Agenda {
            shadow: Cadence::new(),
            counter_shadow: CounterShadow::new(),
            ff_cadence: Cadence::new(),
            ff_on: temp_ff(cfg.stage),
            windows: Windows::new(),
            recal: Cadence::new(),
        }
    }

    /// Counts an edge towards everything that happens now and then, and says what is due.
    pub fn step(&mut self, cfg: &BuildConfig, locked: bool, trim: i64, count: u32) -> (t: EdgeTasks)
        requires
            old(self).wf(),
            cfg.intermittent ==> old(self).windows.defined(locked, trim),
        ensures
            final(self).wf(),
            t == old(self).due(*cfg, locked, trim, count),
            *final(self) == old(self).next(*cfg, locked, trim, count),
    {
        let shadows = cfg.shadow_recal && locked && !recal_on(cfg.stage);
        let shadow_recal = self.shadow.step(shadows, SHADOW_EDGES);
        let watch = self.counter_shadow.step(cfg.shadow3 && locked, count);
        let mut set_temp_ff: Option<bool> = None;
        if self.ff_cadence.step(cfg.temp_ff_abab && locked, TEMPFF_ABAB_EDGES) {
            self.ff_on = !self.ff_on;
            set_temp_ff = Some(self.ff_on);
        }
        let mut window: Option<WindowChange> = None;
        let mut recal = false;
        if cfg.intermittent {
            window = self.windows.step(locked, trim);
            recal = matches!(window, Some(WindowChange::Closed));
        } else if locked {
            recal = self.recal.step(true, recal_eff(cfg.stage, cfg.recal_edges_override));
        } else {
            self.recal = Cadence::new();
        }
        EdgeTasks { shadow_recal, watch, set_temp_ff, window, recal }
    }
}

/// The servo of the generated 1PPS.
#[derive(Debug)]
pub struct OutputServo {
    /// What this build runs.
    pub cfg: BuildConfig,
    /// The counter offset.
    pub offset: OffsetTracker,
    /// The counter offset found at boot.
    pub k0_boot: u32,
    /// Reading of the previous output edge, if the interval to it means anything.
    pub last_x: Option<u32>,
    /// Generation of the reference at the previous output edge.
    pub last_gen: u32,
    /// Whether the current edge has a reference edge of its own.
    pub fresh: bool,
    /// Output edges with an interval.
    pub count: u32,
    /// The controller.
    pub controller: Controller,
    /// The pseudo-random disturbance.
    pub prbs: Prbs,
    /// The injected phase step.
    pub kick: Kick,
    /// The controller sweep.
    pub sweep: Sweep,
    /// What happens now and then.
    pub agenda: Agenda,
}

impl OutputServo {
    /// What holds of every servo.
    pub open spec fn wf(&self) -> bool {
        &&& self.cfg.admissible()
        &&& self.kick.wf()
        &&& self.sweep.wf()
        &&& self.agenda.wf()
    }

    /// Whether the loop is held open for a measurement.
    pub open spec fn held_open(&self) -> bool {
        self.cfg.intermittent && self.agenda.windows.open
    }

    /// Whether the phase of an edge is to be trusted: the reference has an edge of its own for it,
    /// the interval is that of neighbouring edges, there is a reference at all, the two edges
    /// belong together (which only a closed loop asks), and the loop is not held open.
    pub open spec fn trusts(&self, r: EdgeReading) -> bool {
        &&& self.fresh
        &&& r.sane()
        &&& r.c0 != 0
        &&& closes_phase_loop(self.cfg.stage) ==> r.paired()
        &&& !self.held_open()
    }

    /// What the controller is given on an edge.
    pub open spec fn input(&self, r: EdgeReading) -> ControlInput {
        ControlInput {
            err_ns: if self.cfg.phase_use_hw {
                r.hwphase_ns
            } else {
                match r.soft_phase_ns {
                    Some(p) => p,
                    None => 0,
                }
            },
            valid: self.trusts(r),
        }
    }

    /// The frequency that the output runs at from this edge on, as the loop knows it.
    pub open spec fn applied_freq(&self, r: EdgeReading, u: ControlOutput) -> int {
        r.steer_mppb + (if !self.held_open() {
            u.trim_mppb as int
        } else if self.cfg.hold_trim {
            self.agenda.windows.held_trim as int
        } else {
            0
        })
    }

    /// The bias that is injected behind the loop's back.
    pub open spec fn bias(&self, u: ControlOutput) -> int {
        if u.locked && self.count >= INJECT_START_COUNT {
            self.cfg.inject_freq_mppb as int
        } else {
            0
        }
    }

    /// The step that is injected on this edge.
    pub open spec fn kick_step(&self, u: ControlOutput) -> int {
        if self.kick.due(self.cfg.kick_inject && u.locked) {
            KICK_AMP_NS as int
        } else {
            0
        }
    }

    /// The phase correction of this edge, disturbances included.
    pub open spec fn applied_phase(&self, u: ControlOutput) -> int {
        (if self.held_open() {
            0
        } else {
            u.pcorr_ns as int
        }) + self.prbs.disturbance(self.cfg.prbs_inject && u.locked) + self.kick_step(u)
    }

    /// Output edges with an interval, this one included.
    pub open spec fn count_after(&self, r: EdgeReading) -> int {
        self.count + (if r.interval_ns is Some {
            1int
        } else {
            0
        })
    }

    /// Whether everything that follows from the controller's output `u` is representable.
    pub open spec fn representable(&self, r: EdgeReading, u: ControlOutput) -> bool {
        &&& in_i64(self.applied_freq(r, u))
        &&& in_i64(self.applied_freq(r, u) + self.bias(u))
        &&& in_i64(
            (if self.held_open() {
                0
            } else {
                u.pcorr_ns as int
            }) + self.prbs.disturbance(self.cfg.prbs_inject && u.locked),
        )
        &&& in_i64(self.applied_phase(u))
        &&& self.cfg.intermittent ==> self.agenda.windows.defined(u.locked, u.trim_mppb)
    }

    /// Whether an edge can be taken: no value that is formed on the way leaves the machine
    /// integers.
    pub open spec fn defined(&self, r: EdgeReading) -> bool {
        &&& takes(self.controller, self.input(r))
        &&& forall|u: ControlOutput, c: Controller|
            #[trigger] steps(self.controller, self.input(r), u, c) ==> self.representable(r, u)
        &&& in_i64(r.pred_mppb - r.level_mppb)
        &&& in_i64(r.steer_mppb - r.level_mppb)
        &&& r.interval_ns matches Some(iv) ==> in_i64(iv - NOMINAL_NS)
        &&& self.count_after(r) <= u32::MAX
    }

    /// What is reported and commanded on an edge, apart from the tasks that come after it.
    pub open spec fn commands(&self, r: EdgeReading, cmd: EdgeCommand) -> bool {
        let u = cmd.output;
        &&& cmd.valid == self.trusts(r)
        &&& cmd.paired == r.paired()
        &&& cmd.mispaired == (closes_phase_loop(self.cfg.stage) && !r.paired())
        &&& cmd.open_loop == !closes_phase_loop(self.cfg.stage)
        &&& cmd.feed_temp == u.locked
        &&& cmd.freq_mppb == self.applied_freq(r, u) + self.bias(u)
        &&& cmd.phase_ns == self.applied_phase(u)
        &&& cmd.bias_mppb == self.bias(u)
        &&& cmd.prbs_ns == self.prbs.disturbance(self.cfg.prbs_inject && u.locked)
        &&& cmd.kick_ns == self.kick_step(u)
        &&& cmd.ff_delta_mppb == r.pred_mppb - r.level_mppb
        &&& cmd.steer_ff_mppb == r.steer_mppb - r.level_mppb
        &&& cmd.count == self.count_after(r)
        &&& cmd.dev_ns == (match r.interval_ns {
            Some(iv) => Some((iv - NOMINAL_NS) as i64),
            None => None,
        })
        &&& cmd.cidx == self.sweep.controller()
    }

    /// Which controller takes over after an edge, if another does.
    pub open spec fn switches(&self, locked: bool, sw: Option<SweepSwitch>) -> bool {
        let active = self.cfg.controller_sweep;
        &&& sw is Some <==> self.sweep.ends(active, locked)
        &&& sw matches Some(s) ==> s.cidx == self.sweep.next(active, locked).controller()
            && s.forced == (self.sweep.locked_with(locked) < crate::bench::CONTROLLER_SWEEP_EDGES)
    }

    /// The controller after an edge: the one in force stepped on, or, where a segment of the sweep
    /// ends, the next one, started so that the output frequency is continuous.
    pub open spec fn controls(&self, r: EdgeReading, u: ControlOutput, after: Controller) -> bool {
        exists|mid: Controller|
            {
                &&& #[trigger] steps(self.controller, self.input(r), u, mid)
                &&& if self.sweep.ends(self.cfg.controller_sweep, u.locked) {
                    let cidx = self.sweep.next(self.cfg.controller_sweep, u.locked).controller();
                    after matches Controller::Pll(pll) && pll@ == grid_loop(cidx as int).restarted(
                        self.applied_freq(r, u) - r.steer_mppb,
                    )
                } else {
                    after == mid
                }
            }
    }

    /// The servo after an edge.
    pub open spec fn follows(&self, r: EdgeReading, cmd: EdgeCommand, after: &Self) -> bool {
        let locked = cmd.output.locked;
        let ends = self.sweep.ends(self.cfg.controller_sweep, locked);
        &&& after.cfg == self.cfg
        &&& after.offset == self.offset
        &&& after.k0_boot == self.k0_boot
        &&& after.last_x == Some(r.x)
        &&& after.last_gen == self.last_gen
        &&& after.fresh == self.fresh
        &&& after.count == self.count_after(r)
        &&& self.controls(r, cmd.output, after.controller)
        &&& after.prbs == self.prbs.next(self.cfg.prbs_inject && locked)
        &&& after.kick == (if ends {
            Kick { edges: 0 }
        } else {
            self.kick.next(self.cfg.kick_inject && locked)
        })
        &&& after.sweep == self.sweep.next(self.cfg.controller_sweep, locked)
        &&& after.agenda == self.agenda.next(self.cfg, locked, cmd.output.trim_mppb, cmd.count)
    }

    /// A servo that starts from the counter offset `k`.
    pub fn new(cfg: BuildConfig, k: u32) -> (r: Self)
        requires
            cfg.admissible(),
        ensures
            r.wf(),
            r.cfg == cfg,
            r.offset == (OffsetTracker { k, target: k }),
            r.k0_boot == k,
            r.last_x is None,
            r.last_gen == 0,
            !r.fresh,
            r.count == 0,
            closes_phase_loop(cfg.stage) ==> (r.controller matches Controller::Pll(pll) && pll@
                == grid_loop(0)),
            !closes_phase_loop(cfg.stage) ==> (r.controller matches Controller::OpenLoop(o) && o@
                == 0),
            magnitude(cfg.inject_freq_mppb as int) <= 1_000_000_000_000_000 ==> runs_safely(r),
            r.prbs.lfsr == crate::bench::PRBS_SEED,
            r.kick.edges == 0,
            r.sweep == (Sweep { idx: 0, locked_edges: 0, total_edges: 0 }),
            r.agenda.shadow.edges == 0,
            r.agenda.counter_shadow == (CounterShadow {
                cadence: Cadence { edges: 0 },
                window_left: 0,
            }),
            r.agenda.ff_cadence.edges == 0,
            r.agenda.ff_on == feeds_temperature(cfg.stage),
            r.agenda.windows == (Windows {
                open: false,
                edges: 0,
                toff_idx: 0,
                held_trim: 0,
                trim_sum: 0,
                trim_n: 0,
            }),
            r.agenda.recal.edges == 0,
    {
        OutputServo {
            cfg,
            offset: OffsetTracker::new(k),
            k0_boot: k,
            last_x: None,
            last_gen: 0,
            fresh: false,
            count: 0,
            controller: initial_controller(cfg.stage),
            prbs: Prbs::new(),
            kick: Kick::new(),
            sweep: Sweep::new(),
            agenda: Agenda::new(&cfg),
        }
    }

    /// Whether to wait, for at most [`PAIR_WAIT_US`], for the reference edge of this second:
    /// `generation` is the reference's, and it has not moved since the previous output edge.
    pub fn awaits_reference(&self, generation: u32) -> (b: bool)
        ensures
            b == (generation == self.last_gen),
    {
        generation == self.last_gen
    }

    /// Starts on an output edge, at the reference generation `generation`. The edge has a
    /// reference edge of its own only if the generation moved by exactly one: none, and the latest
    /// reading is old; several, and there is no telling which belongs to it. The counter offset
    /// moves on towards its latest measurement.
    pub fn begin_edge(&mut self, generation: u32) -> (q: EdgeQuery)
        requires
            old(self).wf(),
        ensures
            final(self).wf(),
            *final(self) == (OutputServo {
                fresh: (generation - old(self).last_gen) % 0x1_0000_0000 == 1,
                last_gen: generation,
                offset: old(self).offset.next(),
                ..*old(self)
            }),
            q.last_x == old(self).last_x,
            q.k == final(self).offset.k,
    {
        self.fresh = generation.wrapping_sub(self.last_gen) == 1;
        self.last_gen = generation;
        self.offset.slew();
        EdgeQuery { last_x: self.last_x, k: self.offset.k }
    }

    /// Whether the phase of an edge is to be trusted.
    fn judge(&self, r: &EdgeReading) -> (v: (bool, bool))
        ensures
            v.0 == self.trusts(*r),
            v.1 == r.paired(),
    {
        let sane = match r.interval_ns {
            Some(iv) => NOMINAL_NS - SANE_INTERVAL_NS < iv && iv < NOMINAL_NS + SANE_INTERVAL_NS,
            None => false,
        };
        let paired = tick_magnitude(r.raw_lag) <= r.clk_hz / 200;
        let closed = phase_servo(self.cfg.stage);
        let held = self.cfg.intermittent && self.agenda.windows.open;
        (self.fresh && sane && r.c0 != 0 && (!closed || paired) && !held, paired)
    }

    /// What follows from the controller's output and the disturbances for the period generator.
    fn actuate(&self, r: &EdgeReading, u: ControlOutput, judged: (bool, bool), prbs_ns: i64, kick_ns: i64) -> (cmd:
        EdgeCommand)
        requires
            self.sweep.wf(),
            self.representable(*r, u),
            in_i64(r.pred_mppb - r.level_mppb),
            in_i64(r.steer_mppb - r.level_mppb),
            r.interval_ns matches Some(iv) ==> in_i64(iv - NOMINAL_NS),
            self.count_after(*r) <= u32::MAX,
            judged == (self.trusts(*r), r.paired()),
            prbs_ns == self.prbs.disturbance(self.cfg.prbs_inject && u.locked),
            kick_ns == self.kick_step(u),
        ensures
            cmd.output == u,
            self.commands(*r, cmd),
    {
        let held = self.cfg.intermittent && self.agenda.windows.open;
        let trim: i64 = if !held {
            u.trim_mppb
        } else if self.cfg.hold_trim {
            self.agenda.windows.held_trim
        } else {
            0
        };
        let freq: i64 = r.steer_mppb + trim;
        let bias: i64 = if u.locked && self.count >= INJECT_START_COUNT {
            self.cfg.inject_freq_mppb
        } else {
            0
        };
        let pcorr: i64 = if held {
            0
        } else {
            u.pcorr_ns
        };
        let closed = phase_servo(self.cfg.stage);
        let (valid, paired) = judged;
        let dev_ns: Option<i64> = match r.interval_ns {
            Some(iv) => Some(iv - NOMINAL_NS),
            None => None,
        };
        let count: u32 = if r.interval_ns.is_some() {
            self.count + 1
        } else {
            self.count
        };
        EdgeCommand {
            output: u,
            valid,
            paired,
            mispaired: closed && !paired,
            open_loop: !closed,
            feed_temp: u.locked,
            freq_mppb: freq + bias,
            phase_ns: pcorr + prbs_ns + kick_ns,
            bias_mppb: bias,
            prbs_ns,
            kick_ns,
            ff_delta_mppb: r.pred_mppb - r.level_mppb,
            steer_ff_mppb: r.steer_mppb - r.level_mppb,
            count,
            dev_ns,
            cidx: self.sweep.cidx(),
            switched: None,
            tasks: EdgeTasks {
                shadow_recal: false,
                watch: None,
                set_temp_ff: None,
                window: None,
                recal: false,
            },
        }
    }

    /// Takes an output edge: runs the controller on its phase and decides on everything that
    /// follows.
    pub fn on_edge(&mut self, r: EdgeReading) -> (cmd: EdgeCommand)
        requires
            old(self).wf(),
            old(self).defined(r),
        ensures
            final(self).wf(),
            old(self).commands(r, cmd),
            old(self).switches(cmd.output.locked, cmd.switched),
            cmd.tasks == old(self).agenda.due(
                old(self).cfg,
                cmd.output.locked,
                cmd.output.trim_mppb,
                cmd.count,
            ),
            old(self).follows(r, cmd, final(self)),
            runs_safely(*old(self)) && is_plausible(r) && can_count(*old(self), r) ==> runs_safely(
                *final(self),
            ),
    {
        let ghost start = *self;
        let cmd = self.take_edge(r);
        proof {
            if runs_safely(start) && is_plausible(r) && can_count(start, r) {
                law_sane_servo_stays_sane(start, r, cmd, *self);
            }
        }
        cmd
    }

    /// Runs the controller on the phase of an output edge and decides on everything that follows.
    fn take_edge(&mut self, r: EdgeReading) -> (cmd: EdgeCommand)
        requires
            old(self).wf(),
            old(self).defined(r),
        ensures
            final(self).wf(),
            old(self).commands(r, cmd),
            old(self).switches(cmd.output.locked, cmd.switched),
            cmd.tasks == old(self).agenda.due(
                old(self).cfg,
                cmd.output.locked,
                cmd.output.trim_mppb,
                cmd.count,
            ),
            old(self).follows(r, cmd, final(self)),
    {
        let ghost start = *self;
        let judged = self.judge(&r);
        let err_ns: i64 = if self.cfg.phase_use_hw {
            r.hwphase_ns
        } else {
            match r.soft_phase_ns {
                Some(p) => p,
                None => 0,
            }
        };
        let u = run(&mut self.controller, ControlInput { err_ns, valid: judged.0 });
        let ghost mid = self.controller;
        assert(steps(start.controller, start.input(r), u, mid));
        let locked = u.locked;
        let mut prbs = self.prbs;
        let mut kick = self.kick;
        let prbs_ns: i64 = prbs.step(self.cfg.prbs_inject && locked);
        let kick_ns: i64 = kick.step(self.cfg.kick_inject && locked);
        let mut cmd = self.actuate(&r, u, judged, prbs_ns, kick_ns);
        assert(start.commands(r, cmd));
        self.prbs = prbs;
        self.kick = kick;
        self.count = cmd.count;
        self.last_x = Some(r.x);
        // What the loop knows of: the bias behind its back is not part of it.
        let applied: i64 = cmd.freq_mppb - cmd.bias_mppb;
        cmd.switched = self.sweep.step(self.cfg.controller_sweep, locked);
        if let Some(sw) = cmd.switched {
            self.kick = Kick::new();
            self.controller = succeed(sw.cidx, applied - r.steer_mppb);
        }
        cmd.tasks = self.agenda.step(&self.cfg, locked, u.trim_mppb, cmd.count);
        cmd
    }

    /// Whether an edge can be taken: its reading is one that the hardware can give, and the counters
    /// can count it. A servo that runs safely needs no more.
    pub fn can_take(&self, r: &EdgeReading) -> (b: bool)
        ensures
            b == (is_plausible(*r) && can_count(*self, *r)),
            b && self.wf() && runs_safely(*self) ==> self.defined(*r),
    {
        let plausible = plausible_value(r.hwphase_ns) && (match r.soft_phase_ns {
            Some(p) => plausible_value(p),
            None => true,
        }) && (match r.interval_ns {
            Some(iv) => plausible_value(iv),
            None => true,
        }) && plausible_value(r.pred_mppb) && plausible_value(r.steer_mppb) && plausible_value(
            r.level_mppb,
        );
        let counts = (r.interval_ns.is_none() || self.count < u32::MAX) && (!self.cfg.intermittent
            || self.agenda.windows.trim_n < u32::MAX);
        proof {
            if plausible && counts && self.wf() && runs_safely(*self) {
                law_sane_servo_never_overflows(*self, *r);
            }
        }
        plausible && counts
    }

    /// Starts a measurement of the counter offset. It is judged against the latest measurement,
    /// not against the offset on its way there.
    pub fn start_recalibration(&self) -> (r: Recalibration)
        ensures
            r@ == RecalState::fresh(self.offset.target),
            r@.wf(),
    {
        Recalibration::start(self.offset.target)
    }

    /// Takes in a recalibration that gave `k`, at the reference generation `generation`. The
    /// output edges missed meanwhile leave no interval, and the reference edges missed meanwhile
    /// are not taken for fresh ones.
    pub fn on_recalibrated(&mut self, k: u32, generation: u32)
        requires
            old(self).wf(),
        ensures
            final(self).wf(),
            *final(self) == (OutputServo {
                offset: OffsetTracker { k: old(self).offset.k, target: k },
                last_x: None,
                last_gen: generation,
                ..*old(self)
            }),
    {
        self.offset.target = k;
        self.last_x = None;
        self.last_gen = generation;
    }

    /// Takes in a shadow measurement that gave `k`, and returns how far the offset has moved since
    /// boot (ticks). Nothing is applied.
    pub fn on_shadow_measured(&mut self, k: u32, generation: u32) -> (dk: i32)
        requires
            old(self).wf(),
        ensures
            final(self).wf(),
            *final(self) == (OutputServo {
                last_x: None,
                last_gen: generation,
                ..*old(self)
            }),
            dk == centred(k - old(self).k0_boot),
    {
        self.last_x = None;
        self.last_gen = generation;
        tick_delta(k, self.k0_boot)
    }
}

/// The largest trim that a safe controller gives (milli-ppb): 2000 ppm, of which more than four
/// thousand million can be summed.
pub const TRIM_LIMIT_MPPB: i64 = 2_000_000_000;

/// Whether a controller can be stepped for ever without overflow, and with a trim that never exceeds
/// [`TRIM_LIMIT_MPPB`]: its state is sane, and its clamps and its trim are within that limit.
pub open spec fn controls_safely(c: Controller) -> bool {
    match c {
        Controller::Pll(p) => {
            &&& p@.sane()
            &&& p@.config.trim_max_mppb <= TRIM_LIMIT_MPPB
            &&& magnitude(p@.trim) <= TRIM_LIMIT_MPPB
        },
        Controller::IntegRework(c) => {
            &&& c@.sane()
            &&& c@.cfg.trim_max_mppb <= TRIM_LIMIT_MPPB
            &&& c@.largest_integral_step() <= TRIM_LIMIT_MPPB
            &&& magnitude(c@.trim) <= TRIM_LIMIT_MPPB
        },
        Controller::AbBoost(b) => {
            &&& b@.sane()
            &&& b@.cfg.trim_max_mppb <= TRIM_LIMIT_MPPB
        },
        Controller::OpenLoop(o) => magnitude(o@) <= TRIM_LIMIT_MPPB,
    }
}

/// Whether what the windows have summed and hold is made of trims within [`TRIM_LIMIT_MPPB`].
pub open spec fn sums_safely(w: Windows) -> bool {
    &&& magnitude(w.held_trim as int) <= TRIM_LIMIT_MPPB
    &&& magnitude(w.trim_sum as int) <= w.trim_n * TRIM_LIMIT_MPPB
}

/// Whether a servo cannot overflow: a safe controller, a bounded bias, and sums of safe trims.
pub open spec fn runs_safely(s: OutputServo) -> bool {
    &&& controls_safely(s.controller)
    &&& magnitude(s.cfg.inject_freq_mppb as int) <= 1_000_000_000_000_000
    &&& sums_safely(s.agenda.windows)
}

/// Whether the 32-bit counters of a servo can count another edge.
pub open spec fn can_count(s: OutputServo, r: EdgeReading) -> bool {
    &&& s.count_after(r) <= u32::MAX
    &&& s.cfg.intermittent ==> s.agenda.windows.trim_n < u32::MAX
}

/// Whether a reading is one that the hardware can give: nothing beyond 10^15.
pub open spec fn is_plausible(r: EdgeReading) -> bool {
    &&& magnitude(r.hwphase_ns as int) <= 1_000_000_000_000_000
    &&& r.soft_phase_ns matches Some(p) ==> magnitude(p as int) <= 1_000_000_000_000_000
    &&& r.interval_ns matches Some(iv) ==> magnitude(iv as int) <= 1_000_000_000_000_000
    &&& magnitude(r.pred_mppb as int) <= 1_000_000_000_000_000
    &&& magnitude(r.steer_mppb as int) <= 1_000_000_000_000_000
    &&& magnitude(r.level_mppb as int) <= 1_000_000_000_000_000
}

/// Whether a value is one that the hardware can give.
fn plausible_value(v: i64) -> (b: bool)
    ensures
        b == (magnitude(v as int) <= 1_000_000_000_000_000),
{
    -1_000_000_000_000_000 <= v && v <= 1_000_000_000_000_000
}

/// A safe controller takes every input of up to 10^15 ns.
proof fn lemma_safe_takes(c: Controller, input: ControlInput)
    requires
        controls_safely(c),
        magnitude(input.err_ns as int) <= 1_000_000_000_000_000,
    ensures
        takes(c, input),
{
    reveal(takes);
    let err = input.err_ns as int;
    match c {
        Controller::Pll(p) => {
            law_sane_loop_never_overflows(p@, err, input.valid);
        },
        Controller::IntegRework(c) => {
            law_sane_rework_never_overflows(c@, err, input.valid);
        },
        Controller::AbBoost(b) => {
            law_sane_boost_never_overflows(b@, err, input.valid);
        },
        Controller::OpenLoop(_) => {},
    }
}

/// The trim of a safe continuous-integral controller stays within the limit.
proof fn lemma_rework_trim(s: ReworkState, err: int)
    requires
        s.sane(),
        s.cfg.trim_max_mppb <= TRIM_LIMIT_MPPB,
        s.largest_integral_step() <= TRIM_LIMIT_MPPB,
        magnitude(s.trim) <= TRIM_LIMIT_MPPB,
    ensures
        magnitude(s.next_trim(err)) <= TRIM_LIMIT_MPPB,
{
    let den = larger(s.cfg.i_den as int, 1);
    let pin = bounded(s.predicted(err), s.cfg.e_i_ns as int);
    let asked = magnitude(pin * 1000);
    let most = s.cfg.e_i_ns * 1000;
    assert(asked / den <= most / den) by (nonlinear_arith)
        requires
            0 <= asked <= most,
            den >= 1,
    ;
    assert(magnitude(s.integral_step(err)) <= s.largest_integral_step());
    let want = s.wanted_trim(err);
    let excess = want - bounded(want, s.cfg.trim_max_mppb as int);
    let kbc = larger(s.cfg.kbc_inv as int, 1);
    lemma_tdiv_bounds(excess, kbc);
    let m = magnitude(excess);
    if s.cfg.kbc_inv >= 2 {
        assert(2 * (m / kbc) <= m) by (nonlinear_arith)
            requires
                m >= 0,
                kbc >= 2,
        ;
    } else {
        assert(kbc == 1);
        assert(excess / 1 == excess && (-excess) / 1 == -excess);
    }
}

/// A safe controller stays safe, and what it gives is bounded.
proof fn lemma_safe_steps(c: Controller, input: ControlInput, u: ControlOutput, after: Controller)
    requires
        controls_safely(c),
        magnitude(input.err_ns as int) <= 1_000_000_000_000_000,
        steps(c, input, u, after),
    ensures
        controls_safely(after),
        magnitude(u.trim_mppb as int) <= TRIM_LIMIT_MPPB,
        magnitude(u.pcorr_ns as int) <= 2 * CORR_CLAMP_NS,
{
    reveal(steps);
    let err = input.err_ns as int;
    match (c, after) {
        (Controller::Pll(p), Controller::Pll(q)) => {
            law_sane_loop_never_overflows(p@, err, input.valid);
            assert(q@ == p@.next(err, input.valid));
            assert(magnitude(u.dbg.p_ns as int) <= CORR_CLAMP_NS);
            assert(magnitude(u.dbg.d_ns as int) <= CORR_CLAMP_NS);
        },
        (Controller::IntegRework(c), Controller::IntegRework(d)) => {
            law_sane_rework_never_overflows(c@, err, input.valid);
            lemma_rework_trim(c@, err);
            assert(d@ == c@.next(err, input.valid));
            assert(magnitude(u.dbg.p_ns as int) <= CORR_CLAMP_NS);
            assert(magnitude(u.dbg.d_ns as int) <= CORR_CLAMP_NS);
        },
        (Controller::AbBoost(b), Controller::AbBoost(d)) => {
            law_sane_boost_never_overflows(b@, err, input.valid);
            law_boost_trim_is_clamped(b@, err, input.valid, u);
            assert(d@ == b@.next(err, input.valid));
        },
        _ => {},
    }
}

/// Windows that sum safely go on doing so.
proof fn lemma_windows_sum_safely(w: Windows, locked: bool, trim: i64)
    requires
        sums_safely(w),
        magnitude(trim as int) <= TRIM_LIMIT_MPPB,
        w.trim_n < u32::MAX,
    ensures
        w.defined(locked, trim),
        sums_safely(w.next(locked, trim)),
{
    let sum = w.trim_sum + trim;
    let n = w.trim_n + 1;
    let m = magnitude(sum);
    assert(m / n <= TRIM_LIMIT_MPPB) by (nonlinear_arith)
        requires
            0 <= m <= n * TRIM_LIMIT_MPPB,
            n >= 1,
    ;
}

/// A safe servo takes every plausible edge without overflow, whichever controller it runs, for as
/// long as its counters can count.
pub proof fn law_sane_servo_never_overflows(s: OutputServo, r: EdgeReading)
    requires
        s.wf(),
        runs_safely(s),
        is_plausible(r),
        can_count(s, r),
    ensures
        s.defined(r),
{
    let input = s.input(r);
    lemma_safe_takes(s.controller, input);
    assert forall|u: ControlOutput, c: Controller| #[trigger]
        steps(s.controller, input, u, c) implies s.representable(r, u) by {
        lemma_safe_steps(s.controller, input, u, c);
        assert(magnitude(s.prbs.disturbance(s.cfg.prbs_inject && u.locked) as int) <= 96);
        if s.cfg.intermittent {
            lemma_windows_sum_safely(s.agenda.windows, u.locked, u.trim_mppb);
        }
    }
}

/// A safe servo stays safe: whatever plausible edge it takes, and whichever controller takes over,
/// [`law_sane_servo_never_overflows`] holds of the next one too.
pub proof fn law_sane_servo_stays_sane(
    s: OutputServo,
    r: EdgeReading,
    cmd: EdgeCommand,
    after: OutputServo,
)
    requires
        s.wf(),
        runs_safely(s),
        is_plausible(r),
        can_count(s, r),
        s.follows(r, cmd, &after),
    ensures
        runs_safely(after),
{
    let u = cmd.output;
    let input = s.input(r);
    let mid = choose|mid: Controller|
        {
            &&& #[trigger] steps(s.controller, input, u, mid)
            &&& if s.sweep.ends(s.cfg.controller_sweep, u.locked) {
                let cidx = s.sweep.next(s.cfg.controller_sweep, u.locked).controller();
                after.controller matches Controller::Pll(pll) && pll@ == grid_loop(
                    cidx as int,
                ).restarted(s.applied_freq(r, u) - r.steer_mppb)
            } else {
                after.controller == mid
            }
        };
    lemma_safe_steps(s.controller, input, u, mid);
    if s.cfg.intermittent {
        lemma_windows_sum_safely(s.agenda.windows, u.locked, u.trim_mppb);
    }
    if s.sweep.ends(s.cfg.controller_sweep, u.locked) {
        assert(magnitude(s.applied_freq(r, u) - r.steer_mppb) <= TRIM_LIMIT_MPPB);
    }
}

/// A build without bench measurements hands the controller's output to the period generator as it
/// is, and nothing but a recalibration ever comes due.
pub proof fn law_production_edge_is_undisturbed(s: OutputServo, r: EdgeReading, u: ControlOutput, count: u32)
    requires
        !s.cfg.controller_sweep,
        !s.cfg.prbs_inject,
        !s.cfg.kick_inject,
        !s.cfg.intermittent,
        !s.cfg.shadow_recal,
        !s.cfg.shadow3,
        !s.cfg.temp_ff_abab,
        s.cfg.inject_freq_mppb == 0,
    ensures
        s.applied_freq(r, u) + s.bias(u) == r.steer_mppb + u.trim_mppb,
        s.applied_phase(u) == u.pcorr_ns,
        s.switches(u.locked, None),
        s.agenda.due(s.cfg, u.locked, u.trim_mppb, count) == (EdgeTasks {
            shadow_recal: false,
            watch: None,
            set_temp_ff: None,
            window: None,
            recal: s.agenda.recal.due(u.locked, Agenda::recal_period(s.cfg)),
        }),
{
}

/// A phase that cannot be trusted moves nothing: with a reference that has no edge of its own for
/// this one, an interval that is not that of neighbouring edges, no reference at all, or, in a
/// closed loop, two edges that do not belong together, the phase-locked loop holds its trim and
/// corrects nothing.
pub proof fn law_untrusted_edge_is_held(s: OutputServo, r: EdgeReading, u: ControlOutput, after: Controller)
    requires
        !s.fresh || !r.sane() || r.c0 == 0 || (closes_phase_loop(s.cfg.stage) && !r.paired()),
        s.controller is Pll,
        steps(s.controller, s.input(r), u, after),
    ensures
        !s.trusts(r),
        !u.applied,
        u.pcorr_ns == 0,
        s.controller matches Controller::Pll(pll) && u.trim_mppb == pll@.trim,
{
    reveal(steps);
    match s.controller {
        Controller::Pll(pll) => {
            match after {
                Controller::Pll(p) => {
                    assert(p@ == pll@.next(s.input(r).err_ns as int, false));
                },
                _ => {},
            }
        },
        _ => {},
    }
}

/// Where another controller takes over, the output frequency does not jump: the new controller's
/// trim on top of the crystal offset in force is the frequency that was applied last.
pub proof fn law_switch_keeps_the_frequency(s: OutputServo, r: EdgeReading, u: ControlOutput, after: Controller)
    requires
        s.sweep.ends(s.cfg.controller_sweep, u.locked),
        s.controls(r, u, after),
    ensures
        after matches Controller::Pll(pll) && r.steer_mppb + pll@.trim == s.applied_freq(r, u)
            && !pll@.locked() && pll@.in_flight.len() == 0,
{
    match after {
        Controller::Pll(pll) => {
            let cidx = s.sweep.next(s.cfg.controller_sweep, u.locked).controller();
            assert(pll@ == grid_loop(cidx as int).restarted(
                s.applied_freq(r, u) - r.steer_mppb,
            ));
        },
        _ => {},
    }
}

/// The agenda after a run of locked edges, with the trims and counts given.
pub open spec fn after_locked(a: Agenda, cfg: BuildConfig, edges: Seq<(i64, u32)>) -> Agenda
    decreases edges.len(),
{
    if edges.len() == 0 {
        a
    } else {
        after_locked(a, cfg, edges.drop_last()).next(
            cfg,
            true,
            edges.last().0,
            edges.last().1,
        )
    }
}

/// No recalibration falls on a loop that has only just locked: after an unlocked edge it takes as
/// many locked edges in a row as the cadence says.
pub proof fn law_recalibration_waits_for_the_lock(
    a: Agenda,
    cfg: BuildConfig,
    trim: i64,
    count: u32,
    edges: Seq<(i64, u32)>,
    next: (i64, u32),
)
    requires
        a.wf(),
        !cfg.intermittent,
        edges.len() + 1 < Agenda::recal_period(cfg),
    ensures
        !after_locked(a.next(cfg, false, trim, count), cfg, edges).due(
            cfg,
            true,
            next.0,
            next.1,
        ).recal,
        after_locked(a.next(cfg, false, trim, count), cfg, edges).recal.edges == edges.len(),
    decreases edges.len(),
{
    if edges.len() > 0 {
        law_recalibration_waits_for_the_lock(a, cfg, trim, count, edges.drop_last(), edges.last());
    }
}

/// A phase is trusted if and only if the reference has an edge of its own for it, the interval to
/// the last output edge is within 0.3 s of a second on either side, there is a reference reading,
/// the two edges lie within 1/200 of the clock frequency in ticks (where the loop is closed), and
/// the loop is not held open. The controller is told so, with the phase of the chosen source.
pub proof fn law_phase_is_trusted_only_for_cause(s: OutputServo, r: EdgeReading, cmd: EdgeCommand)
    requires
        s.commands(r, cmd),
    ensures
        ({
            let near = -(r.clk_hz / 200) <= r.raw_lag <= r.clk_hz / 200;
            let neighbours = r.interval_ns is Some && 700_000_000 < r.interval_ns->0
                < 1_300_000_000;
            let held = s.cfg.intermittent && s.agenda.windows.open;
            &&& cmd.valid <==> s.fresh && neighbours && r.c0 != 0 && (s.cfg.stage < 3 || near)
                && !held
            &&& cmd.paired <==> near
            &&& cmd.mispaired <==> s.cfg.stage >= 3 && !near
            &&& cmd.open_loop <==> s.cfg.stage < 3
            &&& s.input(r).valid == cmd.valid
            &&& s.cfg.phase_use_hw ==> s.input(r).err_ns == r.hwphase_ns
            &&& !s.cfg.phase_use_hw && r.soft_phase_ns is Some ==> s.input(r).err_ns
                == r.soft_phase_ns->0
            &&& !s.cfg.phase_use_hw && r.soft_phase_ns is None ==> s.input(r).err_ns == 0
        }),
{
}

/// What is handed to the period generator adds up: the crystal offset steered by, the trim in force
/// and the bias make the frequency; the controller's correction and the two disturbances make the
/// phase. While the loop is held open the correction is dropped, and the trim is the held one or
/// none. The bias waits for the lock and the 300th edge.
pub proof fn law_command_adds_up(s: OutputServo, r: EdgeReading, cmd: EdgeCommand)
    requires
        s.commands(r, cmd),
    ensures
        ({
            let u = cmd.output;
            let held = s.cfg.intermittent && s.agenda.windows.open;
            &&& !held ==> cmd.freq_mppb == r.steer_mppb + u.trim_mppb + cmd.bias_mppb
            &&& held && s.cfg.hold_trim ==> cmd.freq_mppb == r.steer_mppb
                + s.agenda.windows.held_trim + cmd.bias_mppb
            &&& held && !s.cfg.hold_trim ==> cmd.freq_mppb == r.steer_mppb + cmd.bias_mppb
            &&& !held ==> cmd.phase_ns == u.pcorr_ns + cmd.prbs_ns + cmd.kick_ns
            &&& held ==> cmd.phase_ns == cmd.prbs_ns + cmd.kick_ns
            &&& u.locked && s.count >= 300 ==> cmd.bias_mppb == s.cfg.inject_freq_mppb
            &&& !(u.locked && s.count >= 300) ==> cmd.bias_mppb == 0
            &&& s.cfg.prbs_inject && u.locked ==> cmd.prbs_ns == s.prbs.disturbance(true)
            &&& !(s.cfg.prbs_inject && u.locked) ==> cmd.prbs_ns == 0
            &&& s.cfg.kick_inject && u.locked && s.kick.edges >= 149 ==> cmd.kick_ns == 8_000
            &&& !(s.cfg.kick_inject && u.locked && s.kick.edges >= 149) ==> cmd.kick_ns == 0
            &&& cmd.feed_temp == u.locked
        }),
{
}

/// What is reported of an edge: how far the prediction and the steering lead the level, by how much
/// the interval missed a second, and how many intervals there were.
pub proof fn law_report_is_of_this_edge(s: OutputServo, r: EdgeReading, cmd: EdgeCommand)
    requires
        s.commands(r, cmd),
        r.interval_ns matches Some(iv) ==> in_i64(iv - 1_000_000_000),
    ensures
        cmd.ff_delta_mppb == r.pred_mppb - r.level_mppb,
        cmd.steer_ff_mppb == r.steer_mppb - r.level_mppb,
        r.interval_ns is None ==> cmd.dev_ns is None && cmd.count == s.count,
        r.interval_ns matches Some(iv) ==> cmd.dev_ns == Some((iv - 1_000_000_000) as i64)
            && cmd.count == s.count + 1,
{
}

/// An edge leaves behind its own reading and its count, moves on what it is to move on, and keeps
/// the rest; the controller is the one in force, stepped on this edge's phase, unless another takes
/// over, which also starts the injected step over.
pub proof fn law_edge_leaves_its_reading(
    s: OutputServo,
    r: EdgeReading,
    cmd: EdgeCommand,
    after: OutputServo,
)
    requires
        s.follows(r, cmd, &after),
        s.commands(r, cmd),
    ensures
        after.last_x == Some(r.x),
        after.count == cmd.count,
        after.cfg == s.cfg && after.offset == s.offset && after.k0_boot == s.k0_boot,
        after.last_gen == s.last_gen && after.fresh == s.fresh,
        !s.cfg.controller_sweep ==> steps(s.controller, s.input(r), cmd.output, after.controller)
            && after.sweep == s.sweep,
        !(s.cfg.prbs_inject && cmd.output.locked) ==> after.prbs == s.prbs,
        s.cfg.prbs_inject && cmd.output.locked ==> after.prbs == s.prbs.next(true),
        s.sweep.ends(s.cfg.controller_sweep, cmd.output.locked) ==> after.kick.edges == 0,
        !s.cfg.controller_sweep && !(s.cfg.kick_inject && cmd.output.locked) ==> after.kick
            == s.kick,
        !s.cfg.controller_sweep && s.cfg.kick_inject && cmd.output.locked ==> after.kick
            == s.kick.next(true),
{
}

/// What comes due beside the loop: a shadow measurement every 60 locked edges on a build that does
/// not recalibrate, a change of the temperature feedforward every 1800, and a recalibration at the
/// stage's cadence, or, with windows, where one closes.
pub proof fn law_agenda_keeps_its_dates(
    a: Agenda,
    cfg: BuildConfig,
    locked: bool,
    trim: i64,
    count: u32,
)
    requires
        a.wf(),
    ensures
        ({
            let t = a.due(cfg, locked, trim, count);
            let n = a.next(cfg, locked, trim, count);
            let shadows = cfg.shadow_recal && locked && cfg.stage < 4;
            let alternates = cfg.temp_ff_abab && locked;
            &&& t.shadow_recal <==> shadows && a.shadow.edges >= 59
            &&& t.set_temp_ff == (if alternates && a.ff_cadence.edges >= 1799 { Some(!a.ff_on) } else {
                None
            })
            &&& n.ff_on == (if t.set_temp_ff is Some { t.set_temp_ff->0 } else { a.ff_on })
            &&& t.watch == a.counter_shadow.moves_to(cfg.shadow3 && locked, count)
            &&& n.counter_shadow == a.counter_shadow.next(cfg.shadow3 && locked, count)
            &&& cfg.intermittent ==> t.window == a.windows.change(locked, trim) && n.windows
                == a.windows.next(locked, trim) && t.recal == (t.window == Some(
                WindowChange::Closed,
            ))
            &&& !cfg.intermittent ==> t.window is None && n.windows == a.windows
            &&& !cfg.intermittent && !locked ==> !t.recal && n.recal.edges == 0
            &&& !cfg.intermittent && locked && cfg.stage >= 4 && cfg.recal_edges_override
                == 0xffff_ffff ==> (t.recal <==> a.recal.edges >= 149)
            &&& !cfg.intermittent && locked && !t.recal ==> n.recal.edges == a.recal.edges + 1
            &&& !cfg.intermittent && t.recal ==> n.recal.edges == 0
        }),
{
}

/// Another controller takes over where a segment of the sweep ends and nowhere else: it is the next
/// in the schedule, and it is forced where fewer than 1200 edges of the segment were locked.
pub proof fn law_switch_says_whether_it_was_forced(s: OutputServo, locked: bool, sw: Option<SweepSwitch>)
    requires
        s.wf(),
        s.switches(locked, sw),
    ensures
        ({
            let counted = if locked { s.sweep.locked_edges + 1 } else { s.sweep.locked_edges as int };
            &&& sw is Some <==> s.cfg.controller_sweep && (counted >= 1200 || s.sweep.total_edges
                >= 3599)
            &&& sw matches Some(w) ==> (w.forced <==> counted < 1200) && w.cidx == s.sweep.next(
                true,
                locked,
            ).controller()
        }),
{
}

} // verus!
