//! Items that the generated engine-class bindings build on: a seal for mixin traits, and a
//! type that no one outside the library can construct.

use vstd::prelude::*;

verus! {

/// Seal of the mixin traits of the generated bindings.
pub trait Sealed {}

/// A type that can only be constructed inside the library.
pub struct Opaque {
    _private: (),
}

} // verus!
