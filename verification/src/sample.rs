//! The numeric sample adapter for the 16-bit signed fixed-point
//! representation: widen, accumulate, saturate, narrow.
//!
//! Every contribution carries unit gain, so reducing one output position's
//! contributions means summing the selected input samples. The sum is
//! accumulated in an intermediate width large enough to hold the theoretical
//! maximum — one 16-bit term per input position — without overflow, and is
//! then saturated to the representation's range before narrowing back, so
//! that two full-scale channels summed into one output position clamp
//! instead of silently wrapping around.

use vstd::prelude::*;

verus! {

/// The exact mathematical sum of the samples at the selected positions.
pub open spec fn selected_sum(samples: Seq<i16>, sources: Seq<usize>) -> int
    decreases sources.len(),
{
    if sources.len() == 0 {
        0
    } else {
        selected_sum(samples, sources.drop_last()) + samples[sources.last() as int]
    }
}

/// Saturation: an out-of-range sum is clamped to the nearest representable
/// boundary instead of wrapping.
pub open spec fn clamp_to_i16(value: int) -> i16 {
    if value > i16::MAX as int {
        i16::MAX
    } else if value < i16::MIN as int {
        i16::MIN
    } else {
        value as i16
    }
}

/// Reduces one output position's contributions to a single sample:
/// accumulates the selected samples into a 128-bit intermediate, then
/// saturates to the 16-bit range.
pub fn reduce_i16(samples: &[i16], sources: &[usize]) -> (mixed: i16)
    requires
        forall|k: int| 0 <= k < sources@.len() ==> (#[trigger] sources@[k]) < samples@.len(),
    ensures
        mixed == clamp_to_i16(selected_sum(samples@, sources@)),
{
    let mut accumulated: i128 = 0;
    let mut k: usize = 0;
    proof {
        assert(sources@.subrange(0, 0) =~= Seq::<usize>::empty());
    }
    while k < sources.len()
        invariant
            k <= sources@.len(),
            forall|t: int| 0 <= t < sources@.len() ==> (#[trigger] sources@[t]) < samples@.len(),
            accumulated == selected_sum(samples@, sources@.subrange(0, k as int)),
            (i16::MIN as int) * (k as int) <= accumulated as int <= (i16::MAX as int) * (k as int),
        decreases sources@.len() - k,
    {
        let source = sources[k];
        let sample = samples[source];
        proof {
            assert(sources@.subrange(0, k + 1).drop_last() =~= sources@.subrange(0, k as int));
        }
        accumulated = accumulated + sample as i128;
        k = k + 1;
    }
    proof {
        assert(sources@.subrange(0, sources@.len() as int) =~= sources@);
    }
    if accumulated > i16::MAX as i128 {
        i16::MAX
    } else if accumulated < i16::MIN as i128 {
        i16::MIN
    } else {
        accumulated as i16
    }
}

} // verus!
