use pico_gnss::control::{ControlInput, PhaseController};
use pico_gnss::controllers::{AlphaBetaBoost, Controller, IntegralRework, OpenLoopFf};
use pico_gnss::pll::{PhaseLockLoop, PhaseLockLoopConfig};


struct Rng(u64);
impl Rng {
    fn new(seed: u64) -> Self {
        Rng(seed ^ 0x9E37_79B9_7F4A_7C15)
    }
    fn next_u64(&mut self) -> u64 {
        let mut x = self.0;
        x ^= x >> 12;
        x ^= x << 25;
        x ^= x >> 27;
        self.0 = x;
        x.wrapping_mul(0x2545_F491_4F6C_DD1D)
    }
    fn unit(&mut self) -> f64 {
        (self.next_u64() >> 11) as f64 / (1u64 << 53) as f64
    }
    fn gauss(&mut self) -> f64 {
        let u1 = self.unit().max(1e-12);
        let u2 = self.unit();
        (-2.0 * u1.ln()).sqrt() * (core::f64::consts::TAU * u2).cos()
    }
}

const SIGMA_RW: f64 = 3.0;
const SIGMA_W: f64 = 12.0;

fn gen_reception_rw(n: usize, seed: u64, sigma_rw: f64, sigma_w: f64) -> Vec<f64> {
    let mut r = Rng::new(seed);
    let mut walk = 0.0;
    (0..n)
        .map(|_| {
            walk += sigma_rw * r.gauss();
            walk + sigma_w * r.gauss()
        })
        .collect()
}

fn gen_reception(n: usize, seed: u64) -> Vec<f64> {
    gen_reception_rw(n, seed, SIGMA_RW, SIGMA_W)
}

fn gen_reception_smooth(n: usize, seed: u64, sigma_rw: f64, tau_lp: f64, sigma_w: f64) -> Vec<f64> {
    let mut r = Rng::new(seed);
    let (mut walk, mut smooth) = (0.0, 0.0);
    (0..n)
        .map(|_| {
            walk += sigma_rw * r.gauss();
            smooth += (walk - smooth) / tau_lp;
            smooth + sigma_w * r.gauss()
        })
        .collect()
}

#[derive(Clone, Copy)]
struct Regime {
    name: &'static str,
    quant_ns: f64,
    jitter_ns: f64,
}
const PIO: Regime = Regime {
    name: "pio",
    quant_ns: 16.0,
    jitter_ns: 0.0,
};
const NO_PIO: Regime = Regime {
    name: "no-pio",
    quant_ns: 1_000.0,
    jitter_ns: 1_000.0,
};

fn quantize(x: f64, q: f64) -> i64 {
    ((x / q).round() * q) as i64
}

#[allow(clippy::too_many_arguments)]
fn run_plant<C: PhaseController>(
    c: &mut C,
    n: usize,
    rec: &[f64],
    reg: Regime,
    drift_accel: f64,
    step_at: Option<usize>,
    step_amp: f64,
    init_off: f64,
    seed: u64,
) -> (Vec<f64>, Vec<bool>) {
    let mut out = init_off;
    let (mut drift, mut rate) = (0.0, 0.0);
    let mut hw = vec![0.0; n];
    let mut lk = vec![false; n];
    let mut jr = Rng::new(seed ^ 0xABCD);
    for k in 0..n {
        rate += drift_accel;
        drift += rate;
        if Some(k) == step_at {
            out += step_amp;
        }
        let jitter = if reg.jitter_ns > 0.0 {
            reg.jitter_ns * jr.gauss()
        } else {
            0.0
        };
        let err = out - (rec[k] + drift) + jitter;
        let eq = quantize(err, reg.quant_ns);
        let o = c.step(ControlInput {
            err_ns: eq,
            valid: true,
        });
        hw[k] = err;
        lk[k] = c.is_locked();
        out += o.trim_mppb as f64 / 1000.0 - o.pcorr_ns as f64;
    }
    (hw, lk)
}

#[allow(clippy::too_many_arguments)]
fn run_plant_delayed<C: PhaseController>(
    c: &mut C,
    n: usize,
    rec: &[f64],
    reg: Regime,
    drift_accel: f64,
    init_off: f64,
    seed: u64,
    delay: usize,
) -> (Vec<f64>, Vec<bool>) {
    let mut out = init_off;
    let (mut drift, mut rate) = (0.0, 0.0);
    let mut hw = vec![0.0; n];
    let mut lk = vec![false; n];
    let mut jr = Rng::new(seed ^ 0xABCD);
    let mut pipe = vec![0.0; delay.max(1)];
    for k in 0..n {
        rate += drift_accel;
        drift += rate;
        let jitter = if reg.jitter_ns > 0.0 {
            reg.jitter_ns * jr.gauss()
        } else {
            0.0
        };
        let err = out - (rec[k] + drift) + jitter;
        let eq = quantize(err, reg.quant_ns);
        let o = c.step(ControlInput {
            err_ns: eq,
            valid: true,
        });
        hw[k] = err;
        lk[k] = c.is_locked();
        let slot = k % pipe.len();
        out += pipe[slot];
        pipe[slot] = o.trim_mppb as f64 / 1000.0 - o.pcorr_ns as f64;
    }
    (hw, lk)
}

fn std_dev(xs: &[f64]) -> f64 {
    let m = xs.iter().sum::<f64>() / xs.len() as f64;
    (xs.iter().map(|x| (x - m).powi(2)).sum::<f64>() / xs.len() as f64).sqrt()
}

#[derive(Default, Clone)]
struct Metrics {
    steady_rms: f64,
    reacq_1us_edge: f64,
    lock_edge: f64,
    step_settle_edge: f64,
    step_overshoot_ns: f64,
    step_zerocross: f64,
    drift_rms: f64,
}

type Factory = fn() -> Controller;

fn evaluate(make: Factory, reg: Regime, seeds: u64) -> Metrics {
    let mut m = Metrics::default();
    for s in 0..seeds {
        let rec = gen_reception(6000, 1000 + s);
        let (hw, _) = run_plant(&mut make(), 6000, &rec, reg, 0.0, None, 0.0, 0.0, 5000 + s);
        m.steady_rms += std_dev(&hw[1500..]);
        let rec = gen_reception(1500, 2000 + s);
        let (hw, lk) = run_plant(&mut make(), 1500, &rec, reg, 0.0, None, 0.0, 50_000.0, 6000 + s);
        m.reacq_1us_edge += hw.iter().position(|v| v.abs() < 1000.0).unwrap_or(1500) as f64;
        m.lock_edge += lk.iter().position(|&v| v).unwrap_or(1500) as f64;
        let rec = gen_reception(2000, 3000 + s);
        let (hw, _) = run_plant(&mut make(), 2000, &rec, reg, 0.0, Some(800), 2000.0, 0.0, 7000 + s);
        let seg = &hw[800..1600];
        m.step_settle_edge += seg.iter().position(|v| v.abs() < 200.0).unwrap_or(800) as f64;
        m.step_overshoot_ns += seg.iter().fold(0.0_f64, |a, v| a.max(v.abs()));
        m.step_zerocross += seg
            .windows(2)
            .filter(|w| (w[0] > 0.0) != (w[1] > 0.0))
            .count() as f64;
        let rec = gen_reception(3000, 4000 + s);
        let (hw, _) = run_plant(&mut make(), 3000, &rec, reg, 0.002, None, 0.0, 0.0, 8000 + s);
        m.drift_rms += std_dev(&hw[1500..]);
    }
    let n = seeds as f64;
    Metrics {
        steady_rms: m.steady_rms / n,
        reacq_1us_edge: m.reacq_1us_edge / n,
        lock_edge: m.lock_edge / n,
        step_settle_edge: m.step_settle_edge / n,
        step_overshoot_ns: m.step_overshoot_ns / n,
        step_zerocross: m.step_zerocross / n,
        drift_rms: m.drift_rms / n,
    }
}

fn zoo() -> Vec<(&'static str, Factory)> {
    vec![
        ("open_loop", || Controller::OpenLoop(OpenLoopFf::new())),
        ("naive_pid", || {
            Controller::Pll(PhaseLockLoop::with_config(PhaseLockLoopConfig::naive_pid()))
        }),
        ("pll_smith_128", || Controller::Pll(PhaseLockLoop::new())),
        ("pll_smith_512", || {
            Controller::Pll(PhaseLockLoop::with_config(PhaseLockLoopConfig {
                i_den: 512,
                ..PhaseLockLoopConfig::default()
            }))
        }),
        ("integ_rework", || Controller::IntegRework(IntegralRework::new())),
        ("ab_boost", || Controller::AbBoost(AlphaBetaBoost::new())),
    ]
}

#[test]
fn every_closed_loop_controller_locks_under_pio() {
    for (name, make) in zoo() {
        if name == "open_loop" {
            continue;
        }
        let rec = gen_reception(1500, 42);
        let (hw, lk) = run_plant(&mut make(), 1500, &rec, PIO, 0.0, None, 0.0, 50_000.0, 7);
        assert!(lk.iter().any(|&v| v), "{name} never locked from 50µs");
        let tail = std_dev(&hw[1000..]);
        assert!(tail < 1000.0, "{name} did not settle (tail σ={tail:.0}ns)");
    }
}

#[test]
fn open_loop_never_servos_phase() {
    let rec = gen_reception(500, 9);
    let mut c = OpenLoopFf::new();
    let (_hw, lk) = run_plant(&mut c, 500, &rec, PIO, 0.0, None, 0.0, 20_000.0, 3);
    assert!(!lk.iter().any(|&v| v), "open-loop must never claim lock");
}

#[test]
fn ab_boost_does_not_lag_badly_under_harsh_drift() {
    let harsh = 0.02;
    let drift_tail = |make: Factory| {
        let mut acc = 0.0;
        for s in 0..6u64 {
            let rec = gen_reception(3000, 4000 + s);
            let (hw, _) = run_plant(&mut make(), 3000, &rec, PIO, harsh, None, 0.0, 0.0, 9000 + s);
            acc += std_dev(&hw[1500..]);
        }
        acc / 6.0
    };
    let ab = drift_tail(|| Controller::AbBoost(AlphaBetaBoost::new()));
    let pi = drift_tail(|| Controller::Pll(PhaseLockLoop::new()));
    assert!(
        ab < pi * 4.0 + 50.0,
        "ab_boost harsh-drift tail {ab:.0}ns should be within ~4x of pll_smith_128 {pi:.0}ns (was ~300x before the closed-loop-predict fix)"
    );
}

#[test]
fn ab_boost_reacquires_no_slower_than_naive_pid() {
    let ab = evaluate(|| Controller::AbBoost(AlphaBetaBoost::new()), PIO, 6).reacq_1us_edge;
    let naive = evaluate(
        || Controller::Pll(PhaseLockLoop::with_config(PhaseLockLoopConfig::naive_pid())),
        PIO,
        6,
    )
    .reacq_1us_edge;
    assert!(
        ab <= naive + 1.0,
        "ab_boost reacq {ab:.1} should be ≤ naive_pid {naive:.1}"
    );
}

const REAL_SIGMA_RW: f64 = 150.0;
const REAL_TAU_LP: f64 = 8.0;

fn gen_reception_real(n: usize, seed: u64) -> Vec<f64> {
    gen_reception_smooth(n, seed, REAL_SIGMA_RW, REAL_TAU_LP, SIGMA_W)
}

#[test]
fn multi_edge_smith_restores_damping_under_realistic_delay() {
    let delay = 8usize;
    let run = |kp_inv: i64, se: u32| -> (f64, f64) {
        let (mut sd, mut lock) = (0.0, 0.0);
        let seeds = 3u64;
        for s in 0..seeds {
            let rec = gen_reception_real(4000, 300 + s);
            let mut pll = PhaseLockLoop::with_config(PhaseLockLoopConfig {
                i_den: 512,
                d_den: 16,
                kp_inv,
                smith_edges: se,
                ..PhaseLockLoopConfig::default()
            });
            let (hw, lk) = run_plant_delayed(&mut pll, 4000, &rec, PIO, 0.0, 0.0, 7000 + s, delay);
            sd += std_dev(&hw[400..]);
            lock += lk[400..].iter().filter(|&&x| x).count() as f64 / 3600.0;
        }
        (sd / seeds as f64, 100.0 * lock / seeds as f64)
    };
    let (prod_sd, prod_lock) = run(0, 1);
    let (damp1_sd, damp1_lock) = run(4, 1);
    let (damp8_sd, damp8_lock) = run(4, delay as u32);
    assert!(prod_lock > 90.0, "production sanity: lock={prod_lock:.0}%");
    assert!(
        damp1_lock < 50.0 || damp1_sd > 5_000.0,
        "kp4/se1 should be unstable at delay {delay}: sd={damp1_sd:.0} lock={damp1_lock:.0}%"
    );
    assert!(
        damp8_lock > 95.0 && damp8_sd < 1_000.0,
        "multi-edge Smith should re-stabilize: sd={damp8_sd:.0} lock={damp8_lock:.0}%"
    );
    assert!(
        damp8_sd <= prod_sd + 20.0,
        "delay-compensated damping should not exceed production wander: damp8={damp8_sd:.0} prod={prod_sd:.0}"
    );
}
