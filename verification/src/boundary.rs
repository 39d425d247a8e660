//! Plain-value helpers for a foreign-function boundary around the engine.
//!
//! A boundary layer that marshals raw buffers is free to wrap the engine, but
//! the engine itself never observes raw pointers. What the boundary must
//! decide before it forms a slice — the representation tag it dispatches on,
//! and whether a caller-supplied (pointer, length) pair is usable — is kept
//! here as verified logic over plain values.

use vstd::prelude::*;

verus! {

/// The numeric sample representation an engine is constructed for: IEEE
/// single-precision floating point, or 16-bit signed fixed-point integers.
#[derive(Clone, Copy, Debug, PartialEq, Eq, Structural)]
pub enum Format {
    F32,
    I16,
}

/// Decides whether a caller-supplied (pointer, length) pair may be turned
/// into a slice: the pointer must be non-null and the declared length
/// non-zero. A boundary layer makes this check before any dereference and
/// aborts on failure — a violation is a programmer defect, not a runtime
/// condition to recover from.
pub fn assert_ability_to_form_valid_slice(pointer_is_null: bool, length: usize) -> (valid: bool)
    ensures
        valid == (!pointer_is_null && length != 0),
{
    !pointer_is_null && length != 0
}

} // verus!
