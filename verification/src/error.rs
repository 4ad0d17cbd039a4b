//! The single error taxonomy of the engine: arithmetic failure.
//!
//! Overflow, underflow and division errors surface as a typed result rather
//! than a crash or a silent wraparound. Tier lookups and status predicates are
//! total and cannot fail.

use vstd::prelude::*;

verus! {

/// The one kind of failure the engine reports: an addition, subtraction,
/// multiplication, division or narrowing that cannot be represented exactly.
#[derive(Clone, Copy, PartialEq, Eq, Structural, Debug)]
pub enum ErrorCode {
    MathError,
}

/// Result type shared by every fallible operation of the engine.
pub type DriftResult<T = ()> = Result<T, ErrorCode>;

} // verus!
