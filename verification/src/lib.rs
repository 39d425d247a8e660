//! A channel-mixing engine for interleaved audio frames.
//!
//! Given an input channel layout and an output channel layout — two ordered
//! sequences of [`Channel`] identities — the engine derives an immutable
//! mixing plan once, at construction, and then remixes one frame at a time:
//! every output position receives the sum of the input positions that share
//! its identity, a `Silence` output position always receives zero, and an
//! identity that occurs nowhere in the input layout is zero-filled.

pub mod boundary;
pub mod channel;
pub mod laws;
pub mod mixer;
pub mod plan;
pub mod sample;

pub use boundary::assert_ability_to_form_valid_slice;
pub use boundary::Format;
pub use channel::Channel;
pub use mixer::ConfigError;
pub use mixer::Mixer;
