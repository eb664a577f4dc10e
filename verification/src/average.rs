//! The scaled mean of a buffer of raw samples.
//!
//! Only the low 16 bits of a raw sample carry the conversion result. Each
//! result is rescaled to the range `0..SCALE`, the rescaled values are
//! added up in 32 bits, wrapping on overflow, and the sum is divided by the
//! number of samples.

use vstd::prelude::*;

verus! {

/// The bits of a raw sample that carry the conversion result.
pub const SAMPLE_MASK: u32 = 0xffff;

/// The upper end of the range that a conversion result is rescaled to.
pub const SCALE: u32 = 3200;

/// The number of samples that can be added up before the sum may wrap.
pub const WRAP_FREE_SAMPLES: u32 = 1_342_596;

/// The value of a raw sample in the range `0..SCALE`.
pub open spec fn scaled(sample: u32) -> nat {
    ((sample & SAMPLE_MASK) as nat * SCALE as nat) / 65536
}

/// The sum of the rescaled samples, as a mathematical integer.
pub open spec fn scaled_sum(samples: Seq<u32>) -> nat
    decreases samples.len(),
{
    if samples.len() == 0 {
        0
    } else {
        scaled_sum(samples.drop_last()) + scaled(samples.last())
    }
}

/// The sum of the rescaled samples as 32-bit addition leaves it.
pub open spec fn wrapped_sum(samples: Seq<u32>) -> nat {
    scaled_sum(samples) % 0x1_0000_0000
}

/// The scaled mean: the wrapped sum divided by the sample count, rounded
/// down. There is none where the count is zero.
pub open spec fn mean(samples: Seq<u32>, sample_count: u32) -> Option<u32> {
    if sample_count == 0 {
        None
    } else {
        Some((wrapped_sum(samples) / sample_count as nat) as u32)
    }
}

/// Rescales one raw sample.
pub fn scale_sample(sample: u32) -> (r: u32)
    ensures
        r == scaled(sample),
        r < SCALE,
{
    let low: u32 = sample & SAMPLE_MASK;
    assert(low <= 0xffff) by (bit_vector)
        requires
            low == sample & 0xffff,
    ;
    let product: u32 = low * SCALE;
    let r: u32 = product >> 16;
    assert(r == product / 65536) by (bit_vector)
        requires
            r == product >> 16,
    ;
    r
}

/// Averages the samples: adds up the rescaled values, wrapping at 32 bits,
/// and divides by `sample_count`.
pub fn average(samples: &[u32], sample_count: u32) -> (r: Option<u32>)
    ensures
        r == mean(samples@, sample_count),
{
    if sample_count == 0 {
        return None;
    }
    let mut sum: u32 = 0;
    let mut i: usize = 0;
    while i < samples.len()
        invariant
            i <= samples.len(),
            sum == wrapped_sum(samples@.take(i as int)),
        decreases samples.len() - i,
    {
        let value = scale_sample(samples[i]);
        proof {
            let before = samples@.take(i as int);
            let after = samples@.take(i + 1);
            assert(after.drop_last() =~= before);
            lemma_wrapping_step(scaled_sum(before), value as nat);
        }
        sum = sum.wrapping_add(value);
        i = i + 1;
    }
    assert(samples@.take(i as int) =~= samples@);
    Some(sum / sample_count)
}

proof fn lemma_wrapping_step(total: nat, value: nat)
    requires
        value < 0x1_0000_0000,
    ensures
        (total + value) % 0x1_0000_0000 == if total % 0x1_0000_0000 + value > u32::MAX {
            total % 0x1_0000_0000 + value - 0x1_0000_0000
        } else {
            (total % 0x1_0000_0000 + value) as int
        },
{
}

/// A rescaled sample lies in `0..SCALE`, and depends on the low 16 bits of
/// the raw sample alone.
pub proof fn lemma_scaled_range(sample: u32)
    ensures
        scaled(sample) < SCALE,
        scaled(sample) == scaled(sample & SAMPLE_MASK),
{
    let low = sample & SAMPLE_MASK;
    assert(low <= 0xffff && low & 0xffff == low) by (bit_vector)
        requires
            low == sample & 0xffff,
    ;
}

/// The sum of `n` rescaled samples is at most `n * (SCALE - 1)`.
pub proof fn lemma_scaled_sum_bound(samples: Seq<u32>)
    ensures
        scaled_sum(samples) <= samples.len() * (SCALE - 1),
    decreases samples.len(),
{
    if samples.len() > 0 {
        lemma_scaled_sum_bound(samples.drop_last());
        lemma_scaled_range(samples.last());
    }
}

/// Up to [`WRAP_FREE_SAMPLES`] samples add up without wrapping, so the
/// mean over all of them is the true mean, rounded down, and lies in
/// `0..SCALE`.
pub proof fn lemma_mean_without_wrap(samples: Seq<u32>)
    requires
        0 < samples.len() <= WRAP_FREE_SAMPLES,
    ensures
        wrapped_sum(samples) == scaled_sum(samples),
        mean(samples, samples.len() as u32) == Some(
            (scaled_sum(samples) / samples.len()) as u32,
        ),
        scaled_sum(samples) / samples.len() < SCALE,
{
    lemma_scaled_sum_bound(samples);
    let n = samples.len();
    let total = scaled_sum(samples);
    assert(total / n < 3200) by (nonlinear_arith)
        requires
            n > 0,
            total <= n * 3199,
    ;
}

/// A buffer whose samples all rescale to the same value has that value as
/// its mean.
pub proof fn lemma_mean_of_constant(samples: Seq<u32>, value: nat)
    requires
        0 < samples.len() <= WRAP_FREE_SAMPLES,
        forall|i: int| 0 <= i < samples.len() ==> scaled(#[trigger] samples[i]) == value,
    ensures
        mean(samples, samples.len() as u32) == Some(value as u32),
        value < SCALE,
{
    lemma_constant_sum(samples, value);
    lemma_mean_without_wrap(samples);
    lemma_scaled_range(samples[0]);
    let n = samples.len();
    assert((n * value) / n == value) by (nonlinear_arith)
        requires
            n > 0,
    ;
}

proof fn lemma_constant_sum(samples: Seq<u32>, value: nat)
    requires
        forall|i: int| 0 <= i < samples.len() ==> scaled(#[trigger] samples[i]) == value,
    ensures
        scaled_sum(samples) == samples.len() * value,
    decreases samples.len(),
{
    if samples.len() > 0 {
        let front = samples.drop_last();
        assert forall|i: int| 0 <= i < front.len() implies scaled(#[trigger] front[i])
            == value by {
            assert(front[i] == samples[i]);
        }
        lemma_constant_sum(front, value);
        assert(samples.len() * value == front.len() * value + value) by (nonlinear_arith)
            requires
                samples.len() == front.len() + 1,
        ;
    }
}

} // verus!
