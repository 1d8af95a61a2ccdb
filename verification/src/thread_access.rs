//! Marker types to express thread safety of engine types.

use std::marker::PhantomData;
use std::rc::Rc;
use vstd::prelude::*;

verus! {

/// Marker that indicates that a value currently only has a single unique reference.
pub struct Unique;

/// Marker that indicates that a value currently might be shared in the same or over
/// multiple threads. Using this marker makes the type neither `Send` nor `Sync`.
pub struct Shared(PhantomData<Rc<()>>);

/// Trait to parametrise over the access markers [`Unique`] and [`Shared`]. This trait is
/// sealed.
pub trait ThreadAccess: private::Sealed {}

impl ThreadAccess for Unique {}

impl private::Sealed for Unique {}

impl ThreadAccess for Shared {}

impl private::Sealed for Shared {}

} // verus!

mod private;
