//! Die temperature by heavy oversampling.
//!
//! One reading of the converter is a 12-bit code with a noise of a code or two. The noise dithers
//! the quantization, so that the mean of a long block resolves a small fraction of a code; the mean
//! is kept in 1/256 of a code.

use vstd::prelude::*;

verus! {

/// Fixed-point scale of an averaged code.
pub const TEMP_RAW_SCALE: u32 = 256;

/// Readings in one block.
pub const TEMP_DMA_N: usize = 16384;

/// Sum of the codes in a block; the converter uses the low 12 bits of a reading.
pub open spec fn code_sum(samples: Seq<u16>) -> int
    decreases samples.len(),
{
    if samples.len() == 0 {
        0
    } else {
        code_sum(samples.drop_last()) + samples.last() % 4096
    }
}

/// The mean code of a block, scaled.
pub open spec fn mean_code(samples: Seq<u16>) -> int {
    code_sum(samples) * TEMP_RAW_SCALE as int / TEMP_DMA_N as int
}

/// The mean code of a block of [`TEMP_DMA_N`] readings, scaled by [`TEMP_RAW_SCALE`].
pub fn average_code(samples: &[u16]) -> (r: u32)
    requires
        samples@.len() == TEMP_DMA_N,
    ensures
        r == mean_code(samples@),
        r <= 4095 * TEMP_RAW_SCALE,
{
    let mut sum: u32 = 0;
    let mut i: usize = 0;
    while i < samples.len()
        invariant
            samples@.len() == TEMP_DMA_N,
            i <= samples.len(),
            sum == code_sum(samples@.take(i as int)),
            sum <= 4095 * i,
        decreases samples.len() - i,
    {
        let s: u16 = samples[i];
        assert(s & 0x0fff == s % 4096) by (bit_vector);
        assert(samples@.take(i as int + 1).drop_last() =~= samples@.take(i as int));
        sum = sum + (s & 0x0fff) as u32;
        i = i + 1;
    }
    assert(samples@.take(i as int) =~= samples@);
    let scaled: u64 = sum as u64 * TEMP_RAW_SCALE as u64;
    assert(scaled == code_sum(samples@) * 256);
    assert(scaled / 16384 <= 4095 * 256);
    (scaled / TEMP_DMA_N as u64) as u32
}

/// A block of equal readings averages to exactly that reading, scaled.
pub proof fn law_constant_reading_is_exact(samples: Seq<u16>, code: int)
    requires
        samples.len() == TEMP_DMA_N,
        forall|i: int| 0 <= i < samples.len() ==> #[trigger] samples[i] % 4096 == code,
    ensures
        mean_code(samples) == code * TEMP_RAW_SCALE,
{
    lemma_constant_sum(samples, code);
}

/// The sum of equal codes.
proof fn lemma_constant_sum(samples: Seq<u16>, code: int)
    requires
        forall|i: int| 0 <= i < samples.len() ==> #[trigger] samples[i] % 4096 == code,
    ensures
        code_sum(samples) == code * samples.len(),
    decreases samples.len(),
{
    if samples.len() > 0 {
        let front = samples.drop_last();
        assert forall|i: int| 0 <= i < front.len() implies #[trigger] front[i] % 4096 == code by {
            assert(front[i] == samples[i]);
        }
        lemma_constant_sum(front, code);
        assert(samples.last() == samples[samples.len() - 1]);
        assert(code * samples.len() == code * front.len() + code) by (nonlinear_arith)
            requires
                samples.len() == front.len() + 1,
        ;
    }
}

/// The mean is that of all the readings: the sum of two runs is the sum of their sums, a single
/// reading counts with its low 12 bits, and the mean of a block is its sum over 64, rounded down.
pub proof fn law_every_reading_counts(a: Seq<u16>, b: Seq<u16>, x: u16)
    ensures
        code_sum(a + b) == code_sum(a) + code_sum(b),
        code_sum(seq![x]) == x % 4096,
        64 * mean_code(a) <= code_sum(a) < 64 * mean_code(a) + 64,
    decreases b.len(),
{
    if b.len() > 0 {
        law_every_reading_counts(a, b.drop_last(), x);
        assert((a + b).drop_last() =~= a + b.drop_last());
    } else {
        assert(a + b =~= a);
    }
    assert(seq![x].drop_last() =~= Seq::<u16>::empty());
    assert(code_sum(Seq::<u16>::empty()) == 0);
}

/// The mean of a block lies between its lowest and its highest code, scaled.
pub proof fn law_mean_lies_between_the_extremes(samples: &[u16], lo: int, hi: int, r: u32)
    requires
        samples@.len() == TEMP_DMA_N,
        call_ensures(average_code, (samples,), r),
        forall|i: int| 0 <= i < samples@.len() ==> lo <= #[trigger] samples@[i] % 4096 <= hi,
    ensures
        256 * lo <= r <= 256 * hi,
        64 * r <= code_sum(samples@) < 64 * r + 64,
{
    lemma_sum_bounds(samples@, lo, hi);
    let n = samples@.len() as int;
    assert(lo * n == 16384 * lo && hi * n == 16384 * hi) by (nonlinear_arith)
        requires
            n == 16384,
    ;
}

/// A sum of bounded codes is bounded.
proof fn lemma_sum_bounds(samples: Seq<u16>, lo: int, hi: int)
    requires
        forall|i: int| 0 <= i < samples.len() ==> lo <= #[trigger] samples[i] % 4096 <= hi,
    ensures
        lo * samples.len() <= code_sum(samples) <= hi * samples.len(),
    decreases samples.len(),
{
    if samples.len() > 0 {
        let front = samples.drop_last();
        assert forall|i: int| 0 <= i < front.len() implies lo <= #[trigger] front[i] % 4096
            <= hi by {
            assert(front[i] == samples[i]);
        }
        lemma_sum_bounds(front, lo, hi);
        let last = samples.len() - 1;
        assert(samples.last() == samples[last]);
        assert(lo <= samples[last] % 4096 <= hi);
        assert(lo * samples.len() == lo * front.len() + lo && hi * samples.len() == hi * front.len()
            + hi) by (nonlinear_arith)
            requires
                samples.len() == front.len() + 1,
        ;
    } else {
        assert(lo * 0 == 0 && hi * 0 == 0) by (nonlinear_arith);
    }
}

} // verus!
