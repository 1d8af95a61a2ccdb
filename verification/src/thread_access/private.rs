//! The seal of [`super::ThreadAccess`].

use vstd::prelude::*;

verus! {

/// Implemented by the access markers only.
pub trait Sealed {}

} // verus!
