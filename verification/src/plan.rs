//! The layout matcher: derives the mixing plan from the two channel layouts.
//!
//! For every output position the plan holds the input positions that
//! contribute to it. The matching policy, in priority order:
//!
//! 1. every input position whose identity equals the output position's
//!    identity contributes, with unit gain — duplicates are legal, and all of
//!    them contribute;
//! 2. a `Silence` output position receives no contribution at all, even when
//!    some input position is itself `Silence`;
//! 3. an identity that occurs nowhere in the input layout receives no
//!    contribution, so the output position is zero-filled.
//!
//! Since every contribution carries unit gain, a plan entry is simply the
//! ordered sequence of contributing input positions.

use vstd::prelude::*;

use crate::channel::Channel;

verus! {

/// The input positions, in increasing order, whose identity equals `out`.
pub open spec fn matched_sources(input_layout: Seq<Channel>, out: Channel) -> Seq<usize>
    decreases input_layout.len(),
{
    if input_layout.len() == 0 {
        Seq::empty()
    } else {
        let rest = matched_sources(input_layout.drop_last(), out);
        if input_layout.last() == out {
            rest.push((input_layout.len() - 1) as usize)
        } else {
            rest
        }
    }
}

/// The plan entry for one output position: no contribution at all for a
/// `Silence` output, and otherwise every input position whose identity
/// matches, in increasing order.
pub open spec fn plan_entry(input_layout: Seq<Channel>, out: Channel) -> Seq<usize> {
    if out == Channel::Silence {
        Seq::empty()
    } else {
        matched_sources(input_layout, out)
    }
}

/// Every matched source is a position inside the input layout.
pub proof fn lemma_matched_sources_in_bounds(input_layout: Seq<Channel>, out: Channel)
    ensures
        forall|k: int|
            0 <= k < matched_sources(input_layout, out).len() ==> (#[trigger] matched_sources(
                input_layout,
                out,
            )[k]) < input_layout.len(),
    decreases input_layout.len(),
{
    if input_layout.len() > 0 {
        lemma_matched_sources_in_bounds(input_layout.drop_last(), out);
        let rest = matched_sources(input_layout.drop_last(), out);
        let whole = matched_sources(input_layout, out);
        assert forall|k: int| 0 <= k < whole.len() implies whole[k] < input_layout.len() by {
            if input_layout.last() == out {
                assert(whole == rest.push((input_layout.len() - 1) as usize));
                if k < rest.len() {
                    assert(whole[k] == rest[k]);
                }
            } else {
                assert(whole == rest);
            }
        }
    }
}

/// Every plan-entry source is a position inside the input layout.
pub proof fn lemma_plan_entry_in_bounds(input_layout: Seq<Channel>, out: Channel)
    ensures
        forall|k: int|
            0 <= k < plan_entry(input_layout, out).len() ==> (#[trigger] plan_entry(
                input_layout,
                out,
            )[k]) < input_layout.len(),
{
    lemma_matched_sources_in_bounds(input_layout, out);
}

/// An identity that occurs nowhere in the input layout matches no source.
pub proof fn lemma_matched_sources_none(input_layout: Seq<Channel>, out: Channel)
    requires
        forall|i: int| 0 <= i < input_layout.len() ==> (#[trigger] input_layout[i]) != out,
    ensures
        matched_sources(input_layout, out) == Seq::<usize>::empty(),
    decreases input_layout.len(),
{
    if input_layout.len() == 0 {
        assert(matched_sources(input_layout, out) =~= Seq::<usize>::empty());
    } else {
        assert(input_layout.last() == input_layout[input_layout.len() - 1]);
        lemma_matched_sources_none(input_layout.drop_last(), out);
    }
}

/// An identity that occurs at exactly one input position matches exactly
/// that source.
pub proof fn lemma_matched_sources_single(input_layout: Seq<Channel>, out: Channel, i: int)
    requires
        0 <= i < input_layout.len(),
        input_layout[i] == out,
        forall|k: int|
            0 <= k < input_layout.len() && k != i ==> (#[trigger] input_layout[k]) != out,
    ensures
        matched_sources(input_layout, out) == seq![i as usize],
    decreases input_layout.len(),
{
    if i == input_layout.len() - 1 {
        lemma_matched_sources_none(input_layout.drop_last(), out);
        assert(matched_sources(input_layout, out) =~= seq![i as usize]);
    } else {
        lemma_matched_sources_single(input_layout.drop_last(), out, i);
    }
}

/// An identity that occurs at exactly two input positions matches exactly
/// those two sources, in increasing order.
pub proof fn lemma_matched_sources_pair(input_layout: Seq<Channel>, out: Channel, i: int, j: int)
    requires
        0 <= i < j < input_layout.len(),
        input_layout[i] == out,
        input_layout[j] == out,
        forall|k: int|
            0 <= k < input_layout.len() && k != i && k != j ==> (#[trigger] input_layout[k]) != out,
    ensures
        matched_sources(input_layout, out) == seq![i as usize, j as usize],
    decreases input_layout.len(),
{
    if j == input_layout.len() - 1 {
        lemma_matched_sources_single(input_layout.drop_last(), out, i);
        assert(matched_sources(input_layout, out) =~= seq![i as usize, j as usize]);
    } else {
        lemma_matched_sources_pair(input_layout.drop_last(), out, i, j);
    }
}

/// Growing the matched prefix of the input layout by one position appends
/// that position exactly when its identity matches.
pub(crate) proof fn lemma_matched_sources_extend(
    input_layout: Seq<Channel>,
    out: Channel,
    i: int,
)
    requires
        0 <= i < input_layout.len(),
    ensures
        input_layout[i] == out ==> matched_sources(input_layout.subrange(0, i + 1), out)
            == matched_sources(input_layout.subrange(0, i), out).push(i as usize),
        input_layout[i] != out ==> matched_sources(input_layout.subrange(0, i + 1), out)
            == matched_sources(input_layout.subrange(0, i), out),
{
    let extended = input_layout.subrange(0, i + 1);
    assert(extended.drop_last() =~= input_layout.subrange(0, i));
    assert(extended.last() == input_layout[i]);
}

/// Builds the full plan: one entry per output position.
pub fn derive_plan(input_channels: &Vec<Channel>, output_channels: &Vec<Channel>) -> (plan: Vec<
    Vec<usize>,
>)
    ensures
        plan@.len() == output_channels@.len(),
        forall|o: int|
            0 <= o < plan@.len() ==> (#[trigger] plan@[o])@ == plan_entry(
                input_channels@,
                output_channels@[o],
            ),
{
    let mut plan: Vec<Vec<usize>> = Vec::new();
    let mut o: usize = 0;
    while o < output_channels.len()
        invariant
            o <= output_channels@.len(),
            plan@.len() == o,
            forall|k: int|
                0 <= k < o ==> (#[trigger] plan@[k])@ == plan_entry(
                    input_channels@,
                    output_channels@[k],
                ),
        decreases output_channels@.len() - o,
    {
        let out = output_channels[o];
        let mut entry: Vec<usize> = Vec::new();
        if out != Channel::Silence {
            let mut i: usize = 0;
            proof {
                assert(input_channels@.subrange(0, 0) =~= Seq::<Channel>::empty());
            }
            while i < input_channels.len()
                invariant
                    i <= input_channels@.len(),
                    out == output_channels@[o as int],
                    entry@ == matched_sources(input_channels@.subrange(0, i as int), out),
                decreases input_channels@.len() - i,
            {
                proof {
                    lemma_matched_sources_extend(input_channels@, out, i as int);
                }
                if input_channels[i] == out {
                    entry.push(i);
                }
                i = i + 1;
            }
            proof {
                assert(input_channels@.subrange(0, input_channels@.len() as int)
                    =~= input_channels@);
            }
        }
        plan.push(entry);
        o = o + 1;
    }
    plan
}

} // verus!
