//! The engine's guarantees, stated and proved once over the specification
//! functions that [`crate::mixer::Mixer::mix`] is contracted against.

use vstd::prelude::*;

use crate::channel::Channel;
use crate::mixer::mixed_frame;
use crate::plan::lemma_matched_sources_none;
use crate::plan::lemma_matched_sources_pair;
use crate::plan::lemma_matched_sources_single;
use crate::plan::plan_entry;
use crate::sample::selected_sum;

verus! {

/// Identity pass-through: for input layout `[x]` and output layout `[x]`
/// with `x` not `Silence`, mixing the one-sample frame `[sample]` reproduces
/// `[sample]` bit for bit, for every representable sample value.
pub proof fn lemma_identity_pass_through(x: Channel, sample: i16)
    requires
        x != Channel::Silence,
    ensures
        mixed_frame(seq![x], seq![x], seq![sample]) == seq![sample],
{
    lemma_single_source_pass_through(seq![x], seq![x], seq![sample], 0, 0);
    assert(mixed_frame(seq![x], seq![x], seq![sample]) =~= seq![sample]);
}

/// Lossless pass-through for unmixed channels: an output position whose
/// identity occurs at exactly one input position reproduces that input
/// sample bit for bit — a single unit-gain contribution is never altered by
/// the widen-accumulate-saturate-narrow path.
pub proof fn lemma_single_source_pass_through(
    input_layout: Seq<Channel>,
    output_layout: Seq<Channel>,
    samples: Seq<i16>,
    o: int,
    i: int,
)
    requires
        samples.len() == input_layout.len(),
        input_layout.len() <= usize::MAX,
        0 <= o < output_layout.len(),
        0 <= i < input_layout.len(),
        input_layout[i] == output_layout[o],
        output_layout[o] != Channel::Silence,
        forall|k: int|
            0 <= k < input_layout.len() && k != i ==> (#[trigger] input_layout[k])
                != output_layout[o],
    ensures
        mixed_frame(input_layout, output_layout, samples)[o] == samples[i],
{
    lemma_matched_sources_single(input_layout, output_layout[o], i);
    assert(i as usize as int == i);
    lemma_one_source_sum(samples, i as usize);
}

/// Silence invariance: an output position whose layout entry is `Silence`
/// yields the representation's zero, regardless of the input layout and of
/// the input frame's content.
pub proof fn lemma_silence_invariance(
    input_layout: Seq<Channel>,
    output_layout: Seq<Channel>,
    samples: Seq<i16>,
    o: int,
)
    requires
        0 <= o < output_layout.len(),
        output_layout[o] == Channel::Silence,
    ensures
        mixed_frame(input_layout, output_layout, samples)[o] == 0i16,
{
    assert(plan_entry(input_layout, Channel::Silence) =~= Seq::<usize>::empty());
}

/// Unmatched zero-fill: an output position whose identity occurs nowhere in
/// the input layout yields zero, for any input frame.
pub proof fn lemma_unmatched_zero_fill(
    input_layout: Seq<Channel>,
    output_layout: Seq<Channel>,
    samples: Seq<i16>,
    o: int,
)
    requires
        0 <= o < output_layout.len(),
        forall|i: int| 0 <= i < input_layout.len() ==> (#[trigger] input_layout[i]) != output_layout[o],
    ensures
        mixed_frame(input_layout, output_layout, samples)[o] == 0i16,
{
    if output_layout[o] != Channel::Silence {
        lemma_matched_sources_none(input_layout, output_layout[o]);
    }
}

/// Summation: when exactly two input positions share an output position's
/// identity, that position receives the exact arithmetic sum of the two
/// input samples, whenever that sum is representable. (The floating-point
/// counterpart of this law, where the sum is always exact, lies outside the
/// fixed-point engine.)
pub proof fn lemma_shared_identity_sum(
    input_layout: Seq<Channel>,
    output_layout: Seq<Channel>,
    samples: Seq<i16>,
    o: int,
    i: int,
    j: int,
)
    requires
        samples.len() == input_layout.len(),
        input_layout.len() <= usize::MAX,
        0 <= o < output_layout.len(),
        0 <= i < j < input_layout.len(),
        input_layout[i] == output_layout[o],
        input_layout[j] == output_layout[o],
        output_layout[o] != Channel::Silence,
        forall|k: int|
            0 <= k < input_layout.len() && k != i && k != j ==> (#[trigger] input_layout[k])
                != output_layout[o],
        i16::MIN <= samples[i] + samples[j] <= i16::MAX,
    ensures
        mixed_frame(input_layout, output_layout, samples)[o] == samples[i] + samples[j],
{
    lemma_matched_sources_pair(input_layout, output_layout[o], i, j);
    assert(i as usize as int == i);
    assert(j as usize as int == j);
    lemma_two_source_sum(samples, i as usize, j as usize);
}

/// Summation saturation: when exactly two input positions share an output
/// position's identity and both samples sit at the representation's
/// maximum, the sum saturates to that maximum instead of wrapping around.
pub proof fn lemma_saturated_sum(
    input_layout: Seq<Channel>,
    output_layout: Seq<Channel>,
    samples: Seq<i16>,
    o: int,
    i: int,
    j: int,
)
    requires
        samples.len() == input_layout.len(),
        input_layout.len() <= usize::MAX,
        0 <= o < output_layout.len(),
        0 <= i < j < input_layout.len(),
        input_layout[i] == output_layout[o],
        input_layout[j] == output_layout[o],
        output_layout[o] != Channel::Silence,
        forall|k: int|
            0 <= k < input_layout.len() && k != i && k != j ==> (#[trigger] input_layout[k])
                != output_layout[o],
        samples[i] == i16::MAX,
        samples[j] == i16::MAX,
    ensures
        mixed_frame(input_layout, output_layout, samples)[o] == i16::MAX,
{
    lemma_matched_sources_pair(input_layout, output_layout[o], i, j);
    assert(i as usize as int == i);
    assert(j as usize as int == j);
    lemma_two_source_sum(samples, i as usize, j as usize);
}

/// Determinism: the contract of `mix` pins the output frame to a function
/// of the layouts and the input frame alone, so two calls on an unmodified
/// engine with identical input frames produce bit-identical output frames.
pub proof fn lemma_mix_deterministic(
    input_layout: Seq<Channel>,
    output_layout: Seq<Channel>,
    samples: Seq<i16>,
    first: Seq<i16>,
    second: Seq<i16>,
)
    requires
        first == mixed_frame(input_layout, output_layout, samples),
        second == mixed_frame(input_layout, output_layout, samples),
    ensures
        first == second,
{
}

/// The sum selected by a one-position plan entry is exactly that sample.
proof fn lemma_one_source_sum(samples: Seq<i16>, i: usize)
    ensures
        selected_sum(samples, seq![i]) == samples[i as int],
{
    let single = seq![i];
    assert(selected_sum(samples, Seq::<usize>::empty()) == 0);
    assert(single.drop_last() =~= Seq::<usize>::empty());
    assert(selected_sum(samples, single.drop_last()) == 0);
    assert(single.last() == i);
}

/// The sum selected by a two-position plan entry is the sum of exactly
/// those two samples.
proof fn lemma_two_source_sum(samples: Seq<i16>, i: usize, j: usize)
    ensures
        selected_sum(samples, seq![i, j]) == samples[i as int] + samples[j as int],
{
    let pair = seq![i, j];
    let single = seq![i];
    lemma_one_source_sum(samples, i);
    assert(pair.drop_last() =~= single);
    assert(selected_sum(samples, pair.drop_last()) == selected_sum(samples, single));
    assert(pair.last() == j);
}

} // verus!
