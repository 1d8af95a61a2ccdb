//! The seal that keeps the library's marker traits from being implemented elsewhere.

use vstd::prelude::*;

verus! {

/// Implemented only by the library's own types.
pub trait Sealed {}

} // verus!
