//! The engine: an immutable mixing plan built once at construction, applied
//! to one frame per `mix` call.

use vstd::prelude::*;

use crate::channel::Channel;
use crate::plan::derive_plan;
use crate::plan::lemma_plan_entry_in_bounds;
use crate::plan::plan_entry;
use crate::sample::clamp_to_i16;
use crate::sample::reduce_i16;
use crate::sample::selected_sum;

verus! {

/// The configuration errors an engine construction can surface. They are the
/// recoverable class of failure: nothing has been mixed yet, and the caller
/// may correct the layouts and construct again.
#[derive(Clone, Copy, Debug, PartialEq, Eq, Structural)]
pub enum ConfigError {
    /// The input layout holds no channel.
    EmptyInputLayout,
    /// The output layout holds no channel.
    EmptyOutputLayout,
}

/// The sample an output position of identity `out` receives: the saturated
/// sum of the input samples its plan entry selects.
pub open spec fn mixed_sample(input_layout: Seq<Channel>, out: Channel, samples: Seq<i16>) -> i16 {
    clamp_to_i16(selected_sum(samples, plan_entry(input_layout, out)))
}

/// The whole output frame one `mix` call produces from one input frame.
pub open spec fn mixed_frame(
    input_layout: Seq<Channel>,
    output_layout: Seq<Channel>,
    samples: Seq<i16>,
) -> Seq<i16> {
    Seq::new(output_layout.len(), |o: int| mixed_sample(input_layout, output_layout[o], samples))
}

/// A channel-mixing engine for 16-bit signed fixed-point frames.
///
/// Constructed once from the two layouts; the plan is derived at
/// construction and never mutated afterwards, so `mix` is a pure function of
/// the plan and the input frame.
#[derive(Debug)]
pub struct Mixer {
    input_channels: Vec<Channel>,
    output_channels: Vec<Channel>,
    sources: Vec<Vec<usize>>,
}

impl Mixer {
    /// The input layout fixed at construction.
    pub closed spec fn input_layout(self) -> Seq<Channel> {
        self.input_channels@
    }

    /// The output layout fixed at construction.
    pub closed spec fn output_layout(self) -> Seq<Channel> {
        self.output_channels@
    }

    /// A usable engine: both layouts are non-empty and the stored plan holds
    /// exactly the matched sources of every output position.
    pub closed spec fn well_formed(self) -> bool {
        &&& self.input_channels@.len() > 0
        &&& self.output_channels@.len() > 0
        &&& self.sources@.len() == self.output_channels@.len()
        &&& forall|o: int|
            0 <= o < self.sources@.len() ==> (#[trigger] self.sources@[o])@ == plan_entry(
                self.input_channels@,
                self.output_channels@[o],
            )
    }

    /// Constructs an engine from the two layouts, deriving the mixing plan
    /// once. An empty input layout or an empty output layout is rejected
    /// with a configuration error before any plan is built; every other pair
    /// of layouts yields a usable engine.
    pub fn new(input_channels: Vec<Channel>, output_channels: Vec<Channel>) -> (engine: Result<
        Mixer,
        ConfigError,
    >)
        ensures
            engine is Err <==> (input_channels@.len() == 0 || output_channels@.len() == 0),
            engine matches Err(e) ==> (e == ConfigError::EmptyInputLayout <==> input_channels@.len()
                == 0),
            engine matches Err(e) ==> (e == ConfigError::EmptyOutputLayout <==> (
            input_channels@.len() > 0 && output_channels@.len() == 0)),
            engine matches Ok(m) ==> m.well_formed() && m.input_layout() == input_channels@
                && m.output_layout() == output_channels@,
    {
        if input_channels.len() == 0 {
            return Err(ConfigError::EmptyInputLayout);
        }
        if output_channels.len() == 0 {
            return Err(ConfigError::EmptyOutputLayout);
        }
        let sources = derive_plan(&input_channels, &output_channels);
        Ok(Mixer { input_channels, output_channels, sources })
    }

    /// How many channels — and so how many samples per frame — the input
    /// layout holds.
    pub fn input_channel_count(&self) -> (count: usize)
        ensures
            count == self.input_layout().len(),
    {
        self.input_channels.len()
    }

    /// How many channels — and so how many samples per frame — the output
    /// layout holds.
    pub fn output_channel_count(&self) -> (count: usize)
        ensures
            count == self.output_layout().len(),
    {
        self.output_channels.len()
    }

    /// The plan entry for one output position: the input positions, in
    /// increasing order, that contribute to it with unit gain. The entry is
    /// the same for every numeric representation, so a caller mixing another
    /// representation can apply the plan itself.
    pub fn output_sources(&self, out_index: usize) -> (sources: Vec<usize>)
        requires
            self.well_formed(),
            out_index < self.output_layout().len(),
        ensures
            sources@ == plan_entry(self.input_layout(), self.output_layout()[out_index as int]),
            forall|k: int|
                0 <= k < sources@.len() ==> (#[trigger] sources@[k]) < self.input_layout().len(),
    {
        proof {
            lemma_plan_entry_in_bounds(
                self.input_channels@,
                self.output_channels@[out_index as int],
            );
        }
        let entry: &Vec<usize> = &self.sources[out_index];
        let mut sources: Vec<usize> = Vec::new();
        let mut k: usize = 0;
        while k < entry.len()
            invariant
                k <= entry@.len(),
                sources@ == entry@.subrange(0, k as int),
            decreases entry@.len() - k,
        {
            sources.push(entry[k]);
            proof {
                assert(sources@ =~= entry@.subrange(0, k + 1));
            }
            k = k + 1;
        }
        proof {
            assert(entry@.subrange(0, entry@.len() as int) =~= entry@);
        }
        sources
    }

    /// Applies the plan to one frame. Both frame lengths must equal the
    /// layouts fixed at construction — a violation is a programmer error,
    /// not a recoverable runtime condition. The call writes only to
    /// `output_frame` and produces exactly the mixed frame: every output
    /// position receives the saturated sum of the input samples that share
    /// its identity, `Silence` positions and unmatched identities receive
    /// zero.
    pub fn mix(&self, input_frame: &[i16], output_frame: &mut [i16])
        requires
            self.well_formed(),
            input_frame@.len() == self.input_layout().len(),
            old(output_frame)@.len() == self.output_layout().len(),
        ensures
            final(output_frame)@ == mixed_frame(
                self.input_layout(),
                self.output_layout(),
                input_frame@,
            ),
    {
        let mut o: usize = 0;
        while o < self.sources.len()
            invariant
                self.well_formed(),
                input_frame@.len() == self.input_layout().len(),
                output_frame@.len() == self.output_layout().len(),
                o <= self.sources@.len(),
                forall|k: int|
                    0 <= k < o ==> #[trigger] output_frame@[k] == mixed_sample(
                        self.input_layout(),
                        self.output_layout()[k],
                        input_frame@,
                    ),
            decreases self.sources@.len() - o,
        {
            proof {
                lemma_plan_entry_in_bounds(self.input_channels@, self.output_channels@[o as int]);
            }
            let mixed = reduce_i16(input_frame, self.sources[o].as_slice());
            output_frame[o] = mixed;
            o = o + 1;
        }
        proof {
            assert(output_frame@ =~= mixed_frame(
                self.input_layout(),
                self.output_layout(),
                input_frame@,
            ));
        }
    }
}

} // verus!
