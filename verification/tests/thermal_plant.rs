use pico_gnss::gpsdo::{DisciplinedClock, DisciplinedClockConfig};
use pico_gnss::pll::PhaseLockLoop;

/// The true frequency offset of the crystal, one value per second (milli-ppb).
struct Profile {
    f: Vec<i64>,
}

fn build_profile(f0: i64, ramps: &[i64], seg_len: usize, warmup: usize) -> Profile {
    let mut f = vec![f0; warmup];
    let mut cur = f0;
    for &rate in ramps {
        for _ in 0..seg_len {
            cur = (cur + rate).clamp(-100_000_000, 100_000_000);
            f.push(cur);
        }
    }
    Profile { f }
}

fn jitter(n: usize, amp: i64) -> i64 {
    if amp <= 0 {
        return 0;
    }
    let h = (n as u64).wrapping_mul(2_654_435_761).wrapping_add(1_013_904_223);
    (h % (2 * amp as u64 + 1)) as i64 - amp
}

struct SimStats {
    max_abs_phase_ns: i64,
    tail_mean_abs_phase_ns: i64,
    locked_end: bool,
}

fn ema_only_cfg() -> DisciplinedClockConfig {
    DisciplinedClockConfig { slope_max_mppb: 0, ..Default::default() }
}

fn simulate(
    prof: &Profile,
    clock_cfg: DisciplinedClockConfig,
    interval_jitter_ns: i64,
    cap_jitter_ns: i64,
) -> SimStats {
    let mut clock = DisciplinedClock::with_config(clock_cfg);
    let mut pll = PhaseLockLoop::new();
    let mut phase_ns: i64 = 0;
    let mut max_abs = 0i64;
    let (mut tail_sum, mut tail_cnt) = (0i64, 0i64);
    let n_total = prof.f.len();
    let tail_start = n_total.saturating_sub(30);
    for n in 0..n_total {
        let true_f = prof.f[n];
        let interval_ns = 1_000_000_000 + true_f / 1000 + jitter(n, interval_jitter_ns);
        clock.update_freq(interval_ns);
        let measured_phase = phase_ns + jitter(n + 7, cap_jitter_ns);
        let u = pll.update(measured_phase, true);
        let commanded = clock.predicted_freq_mppb() + u.freq_trim_mppb;
        let true_avg =
            if n + 1 < n_total { (true_f + prof.f[n + 1]) / 2 } else { true_f };
        phase_ns += (commanded - true_avg) / 1000 - u.phase_corr_ns;
        let a = phase_ns.abs();
        max_abs = max_abs.max(a);
        if n >= tail_start {
            tail_sum += a;
            tail_cnt += 1;
        }
    }
    SimStats {
        max_abs_phase_ns: max_abs,
        tail_mean_abs_phase_ns: if tail_cnt > 0 { tail_sum / tail_cnt } else { 0 },
        locked_end: pll.is_locked(),
    }
}

/// A fixed sequence of samples.
struct Samples {
    state: u64,
}

impl Samples {
    fn new() -> Self {
        Samples { state: 0x9E37_79B9_7F4A_7C15 }
    }

    /// The next one in `lo..hi`.
    fn next(&mut self, lo: i64, hi: i64) -> i64 {
        self.state ^= self.state << 13;
        self.state ^= self.state >> 7;
        self.state ^= self.state << 17;
        lo + (self.state % (hi - lo) as u64) as i64
    }
}

#[test]
fn alpha_beta_loop_stays_bounded() {
    let mut s = Samples::new();
    for i in 0..300usize {
        let f0 = s.next(-30_000_000, 30_000_000);
        let n = s.next(1, 8) as usize;
        // The extremes first, then whatever the sequence gives.
        let ramps: Vec<i64> = match i {
            0 => vec![19_999; 7],
            1 => vec![-20_000; 7],
            2 => vec![19_999, -20_000, 19_999, -20_000, 19_999, -20_000, 19_999],
            _ => (0..n).map(|_| s.next(-20_000, 20_000)).collect(),
        };
        let jit = s.next(0, 50);
        let cap = s.next(0, 100);
        let prof = build_profile(f0, &ramps, 20, 25);
        let r = simulate(&prof, DisciplinedClockConfig::default(), jit, cap);
        assert!(
            r.max_abs_phase_ns < 50_000,
            "phase diverged: {}ns f0={f0} ramps={ramps:?} jit={jit} cap={cap}",
            r.max_abs_phase_ns
        );
    }
}

#[test]
fn alpha_beta_relocks_after_realistic_drift() {
    let mut s = Samples::new();
    for i in 0..300usize {
        let f0 = s.next(-20_000_000, 20_000_000);
        let rate = match i {
            0 => -5_000,
            1 => 4_999,
            2 => 0,
            _ => s.next(-5_000, 5_000),
        };
        let prof = build_profile(f0, &[rate, rate, 0, 0, 0, 0], 20, 25);
        let r = simulate(&prof, DisciplinedClockConfig::default(), 16, 16);
        assert!(r.locked_end, "did not lock again: f0={f0} rate={rate}");
        assert!(r.tail_mean_abs_phase_ns < 1_000, "{}ns", r.tail_mean_abs_phase_ns);
    }
}

#[test]
fn alpha_beta_not_worse_than_single_ema_on_monotone_drift() {
    let mut s = Samples::new();
    for i in 0..300usize {
        let f0 = s.next(-20_000_000, 20_000_000);
        let rate = match i {
            0 => 200,
            1 => 4_999,
            _ => s.next(200, 5_000),
        };
        let r = if s.next(0, 2) == 1 { rate } else { -rate };
        let prof = build_profile(f0, &[r], 200, 25);
        let ab = simulate(&prof, DisciplinedClockConfig::default(), 0, 0);
        let ema = simulate(&prof, ema_only_cfg(), 0, 0);
        assert!(ab.locked_end && ema.locked_end);
        assert!(
            ab.tail_mean_abs_phase_ns <= ema.tail_mean_abs_phase_ns + 50,
            "ab={}ns ema={}ns rate={r}",
            ab.tail_mean_abs_phase_ns,
            ema.tail_mean_abs_phase_ns
        );
    }
}
