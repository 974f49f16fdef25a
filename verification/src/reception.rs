//! Reception quality, judged by the jitter of the reference pulse.
//!
//! The crystal's offset is common to neighbouring intervals and cancels out of their range, so the
//! range of the last few intervals is the pulse-to-pulse jitter alone. Two thresholds keep the
//! verdict from chattering. It is telemetry: no control decision depends on it.

use vstd::prelude::*;

verus! {

/// Jitter above which good reception turns bad (ns).
pub const RX_JIT_HI_NS: i64 = 120;

/// Jitter below which bad reception turns good (ns).
pub const RX_JIT_LO_NS: i64 = 70;

/// Intervals that the jitter is taken over.
pub const RX_JIT_WIN: usize = 8;

/// The smallest of a run of intervals.
pub open spec fn shortest(s: Seq<i64>) -> int
    decreases s.len(),
{
    if s.len() == 0 {
        i64::MAX as int
    } else if s.last() < shortest(s.drop_last()) {
        s.last() as int
    } else {
        shortest(s.drop_last())
    }
}

/// The largest of a run of intervals.
pub open spec fn longest(s: Seq<i64>) -> int
    decreases s.len(),
{
    if s.len() == 0 {
        i64::MIN as int
    } else if s.last() > longest(s.drop_last()) {
        s.last() as int
    } else {
        longest(s.drop_last())
    }
}

/// The range of a run of intervals.
pub open spec fn range(s: Seq<i64>) -> int {
    longest(s) - shortest(s)
}

/// What the last intervals say.
#[derive(Debug, Clone, Copy, PartialEq, Eq, Structural)]
pub struct Reception {
    /// Range of the last intervals (ns).
    pub jitter_ns: u32,
    /// Whether reception counts as bad.
    pub bad: bool,
}

/// Follows the intervals between reference pulses and judges the reception by them.
#[derive(Debug)]
pub struct ReceptionMonitor {
    recent: Vec<i64>,
    bad: bool,
}

/// The mathematical state of a [`ReceptionMonitor`].
pub struct MonitorState {
    /// The last intervals, at most [`RX_JIT_WIN`], in order.
    pub recent: Seq<i64>,
    /// Whether reception counts as bad.
    pub bad: bool,
}

impl View for ReceptionMonitor {
    type V = MonitorState;

    closed spec fn view(&self) -> MonitorState {
        MonitorState { recent: self.recent@, bad: self.bad }
    }
}

impl MonitorState {
    /// What holds of every monitor.
    pub open spec fn wf(self) -> bool {
        &&& self.recent.len() <= RX_JIT_WIN
        &&& forall|i: int| 0 <= i < self.recent.len() ==> 0 <= #[trigger] self.recent[i]
    }

    /// The last intervals, with another one.
    pub open spec fn shifted(self, interval: i64) -> Seq<i64> {
        if self.recent.len() < RX_JIT_WIN {
            self.recent.push(interval)
        } else {
            self.recent.drop_first().push(interval)
        }
    }

    /// The verdict on a jitter: it takes more to turn bad than to stay bad.
    pub open spec fn judged(self, jitter: int) -> bool {
        if self.bad {
            jitter >= RX_JIT_LO_NS
        } else {
            jitter > RX_JIT_HI_NS
        }
    }

    /// What there is to report: nothing before the window is full.
    pub open spec fn report(self) -> Option<Reception> {
        if self.recent.len() < RX_JIT_WIN {
            None
        } else if range(self.recent) > u32::MAX {
            Some(Reception { jitter_ns: u32::MAX, bad: self.bad })
        } else {
            Some(Reception { jitter_ns: range(self.recent) as u32, bad: self.bad })
        }
    }

    /// The monitor after another interval. There is no verdict before the window is full.
    pub open spec fn next(self, interval: i64) -> MonitorState {
        let recent = self.shifted(interval);
        MonitorState {
            recent,
            bad: if recent.len() == RX_JIT_WIN {
                self.judged(range(recent))
            } else {
                self.bad
            },
        }
    }
}

/// The extremes of a run are among its members and bound all of them.
proof fn lemma_extremes(s: Seq<i64>)
    requires
        s.len() > 0,
    ensures
        forall|i: int| 0 <= i < s.len() ==> shortest(s) <= #[trigger] s[i] <= longest(s),
        exists|i: int| 0 <= i < s.len() && #[trigger] s[i] == shortest(s),
        exists|i: int| 0 <= i < s.len() && #[trigger] s[i] == longest(s),
    decreases s.len(),
{
    let front = s.drop_last();
    if front.len() > 0 {
        lemma_extremes(front);
        assert forall|i: int| 0 <= i < s.len() implies shortest(s) <= #[trigger] s[i] <= longest(
            s,
        ) by {
            if i < front.len() {
                assert(front[i] == s[i]);
            }
        }
        let lo = choose|i: int| 0 <= i < front.len() && #[trigger] front[i] == shortest(front);
        let hi = choose|i: int| 0 <= i < front.len() && #[trigger] front[i] == longest(front);
        let last = s.len() - 1;
        assert(s[lo] == front[lo]);
        assert(s[hi] == front[hi]);
        assert(s[last] == shortest(s) || s[lo] == shortest(s));
        assert(s[last] == longest(s) || s[hi] == longest(s));
    } else {
        assert(shortest(front) == i64::MAX);
        assert(longest(front) == i64::MIN);
        assert(s[0] == shortest(s));
        assert(s[0] == longest(s));
    }
}

impl ReceptionMonitor {
    /// A monitor that has seen nothing and calls reception good.
    pub fn new() -> (r: Self)
        ensures
            r@ == (MonitorState { recent: Seq::empty(), bad: false }),
            r@.wf(),
    {
        ReceptionMonitor { recent: Vec::new(), bad: false }
    }

    /// Takes in the interval of a locked pulse (ns). There is a verdict as soon as the window is
    /// full.
    pub fn on_interval(&mut self, interval_ns: u64) -> (r: Option<Reception>)
        requires
            old(self)@.wf(),
            interval_ns <= i64::MAX,
        ensures
            final(self)@ == old(self)@.next(interval_ns as i64),
            final(self)@.wf(),
            r == final(self)@.report(),
    {
        let interval: i64 = interval_ns as i64;
        let ghost before = self.recent@;
        if self.recent.len() >= RX_JIT_WIN {
            self.recent.remove(0);
            assert(self.recent@ =~= before.drop_first());
        }
        self.recent.push(interval);
        if self.recent.len() < RX_JIT_WIN {
            return None;
        }
        let mut lo: i64 = i64::MAX;
        let mut hi: i64 = i64::MIN;
        let mut i: usize = 0;
        while i < self.recent.len()
            invariant
                i <= self.recent.len(),
                lo == shortest(self.recent@.take(i as int)),
                hi == longest(self.recent@.take(i as int)),
            decreases self.recent.len() - i,
        {
            let v: i64 = self.recent[i];
            assert(self.recent@.take(i as int + 1).drop_last() =~= self.recent@.take(i as int));
            if v < lo {
                lo = v;
            }
            if v > hi {
                hi = v;
            }
            i = i + 1;
        }
        assert(self.recent@.take(i as int) =~= self.recent@);
        proof {
            lemma_extremes(self.recent@);
        }
        let jitter: i64 = hi - lo;
        self.bad = if self.bad {
            jitter >= RX_JIT_LO_NS
        } else {
            jitter > RX_JIT_HI_NS
        };
        let shown: u32 = if jitter > 0xffff_ffff {
            0xffff_ffff
        } else {
            jitter as u32
        };
        Some(Reception { jitter_ns: shown, bad: self.bad })
    }
}

/// The range is the largest difference between two intervals of the window.
pub proof fn law_jitter_is_the_largest_difference(s: Seq<i64>)
    requires
        s.len() > 0,
    ensures
        forall|i: int, j: int|
            0 <= i < s.len() && 0 <= j < s.len() ==> #[trigger] s[i] - #[trigger] s[j] <= range(s),
        exists|i: int, j: int|
            0 <= i < s.len() && 0 <= j < s.len() && #[trigger] s[i] - #[trigger] s[j] == range(s),
{
    lemma_extremes(s);
    let lo = choose|i: int| 0 <= i < s.len() && #[trigger] s[i] == shortest(s);
    let hi = choose|i: int| 0 <= i < s.len() && #[trigger] s[i] == longest(s);
    assert(s[hi] - s[lo] == range(s));
}

/// A common offset of all intervals, such as that of the crystal, does not change the jitter.
pub proof fn law_common_offset_cancels(s: Seq<i64>, t: Seq<i64>, offset: int)
    requires
        s.len() == t.len(),
        s.len() > 0,
        forall|i: int| 0 <= i < s.len() ==> #[trigger] t[i] == s[i] + offset,
    ensures
        range(t) == range(s),
{
    law_jitter_is_the_largest_difference(s);
    law_jitter_is_the_largest_difference(t);
    let (a, b) = choose|i: int, j: int|
        0 <= i < s.len() && 0 <= j < s.len() && #[trigger] s[i] - #[trigger] s[j] == range(s);
    let (c, d) = choose|i: int, j: int|
        0 <= i < t.len() && 0 <= j < t.len() && #[trigger] t[i] - #[trigger] t[j] == range(t);
    assert(t[a] - t[b] == s[a] - s[b]);
    assert(t[c] - t[d] == s[c] - s[d]);
}

/// Jitter between the two thresholds keeps whatever verdict there is.
pub proof fn law_verdict_does_not_chatter(m: MonitorState, interval: i64)
    requires
        m.shifted(interval).len() == RX_JIT_WIN,
        RX_JIT_LO_NS <= range(m.shifted(interval)) <= RX_JIT_HI_NS,
    ensures
        m.next(interval).bad == m.bad,
{
}

/// Good reception turns bad above 120 ns of jitter, bad reception turns good below 70 ns, and there
/// is no verdict before eight intervals have been seen. The window is the eight latest.
pub proof fn law_verdict_follows_the_thresholds(m: MonitorState, interval: i64)
    requires
        m.wf(),
    ensures
        ({
            let n = m.next(interval);
            let jitter = range(n.recent);
            &&& n.recent.last() == interval
            &&& m.recent.len() < 8 ==> n.recent == m.recent.push(interval)
            &&& m.recent.len() == 8 ==> n.recent.len() == 8 && forall|i: int|
                0 <= i < 7 ==> #[trigger] n.recent[i] == m.recent[i + 1]
            &&& n.recent.len() < 8 ==> n.bad == m.bad && n.report() is None
            &&& n.recent.len() == 8 && !m.bad ==> (n.bad <==> jitter > 120)
            &&& n.recent.len() == 8 && m.bad ==> (n.bad <==> jitter >= 70)
            &&& n.recent.len() == 8 ==> n.report() is Some && n.report()->0.bad == n.bad
            &&& n.recent.len() == 8 && jitter <= u32::MAX ==> n.report()->0.jitter_ns == jitter
            &&& n.recent.len() == 8 && jitter > u32::MAX ==> n.report()->0.jitter_ns == u32::MAX
        }),
{
    let n = m.next(interval);
    if n.recent.len() == 8 {
        law_jitter_is_the_largest_difference(n.recent);
        assert(n.recent[0] - n.recent[0] <= range(n.recent));
    }
}

} // verus!
