//! The closed set of semantic channel identities.

use vstd::prelude::*;

verus! {

/// The semantic role of one position in an interleaved audio frame.
///
/// `Silence` is a marker rather than a physical signal path: as an input
/// entry it supplies zero, and as an output entry it always receives zero,
/// overriding any identity match.
#[derive(Clone, Copy, Debug, PartialEq, Eq, Structural)]
pub enum Channel {
    FrontLeft,
    FrontRight,
    FrontCenter,
    LowFrequency,
    BackLeft,
    BackRight,
    SideLeft,
    SideRight,
    BackCenter,
    Silence,
}

} // verus!
