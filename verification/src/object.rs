//! Typestates that express how a reference to an engine object owns it and from which
//! threads it may be used, and how the object's memory is managed.

use std::marker::PhantomData;
use vstd::prelude::*;

verus! {

/// Marker that indicates that a value currently only has a single unique reference.
#[derive(Clone, Copy, Debug, PartialEq, Eq, PartialOrd, Ord, Hash, Default)]
pub struct Unique;

/// Marker that indicates that a value currently might be shared in the same or over
/// multiple threads.
#[derive(Clone, Copy, Debug, PartialEq, Eq, PartialOrd, Ord, Hash, Default)]
pub struct Shared;

/// Marker that indicates that a value can currently only be shared in the same thread.
#[derive(Clone, Copy, Debug, PartialEq, Eq, PartialOrd, Ord, Hash, Default)]
pub struct ThreadLocal;

/// Trait to parametrize over the ownership markers [`Unique`], [`Shared`] and
/// [`ThreadLocal`]. This trait is sealed.
pub trait Ownership: crate::sealed::Sealed {}

/// Trait to parametrize over the ownership markers that are local to the current thread:
/// [`Unique`] and [`ThreadLocal`].
pub trait LocalThreadOwnership: Ownership {}

/// Trait to parametrize over the ownership markers that are not unique: [`Shared`] and
/// [`ThreadLocal`].
pub trait NonUniqueOwnership: Ownership {}

impl crate::sealed::Sealed for Unique {}

impl Ownership for Unique {}

impl LocalThreadOwnership for Unique {}

impl crate::sealed::Sealed for Shared {}

impl Ownership for Shared {}

impl NonUniqueOwnership for Shared {}

impl crate::sealed::Sealed for ThreadLocal {}

impl Ownership for ThreadLocal {}

impl LocalThreadOwnership for ThreadLocal {}

impl NonUniqueOwnership for ThreadLocal {}

/// Marker that indicates that a type is manually managed. It is never constructed.
pub struct ManuallyManaged {
    _private: (),
}

/// Marker that indicates that a type is reference-counted. It is never constructed.
pub struct RefCounted {
    _private: (),
}

/// Trait to parameterize over the memory management markers [`ManuallyManaged`] and
/// [`RefCounted`]. This trait is sealed.
pub trait Memory: crate::sealed::Sealed {}

impl crate::sealed::Sealed for ManuallyManaged {}

impl Memory for ManuallyManaged {}

impl crate::sealed::Sealed for RefCounted {}

impl Memory for RefCounted {}

/// Trait for constraining `assume_safe` lifetimes to the one of `&self` when the object is
/// reference-counted.
pub trait LifetimeConstraint<Kind: Memory> {}

/// Type used to check the lifetime constraint depending on [`Memory`].
pub struct AssumeSafeLifetime<'a, 'r> {
    _marker: PhantomData<(&'a (), &'r ())>,
}

impl<'a, 'r> LifetimeConstraint<ManuallyManaged> for AssumeSafeLifetime<'a, 'r> {}

impl<'a, 'r: 'a> LifetimeConstraint<RefCounted> for AssumeSafeLifetime<'a, 'r> {}

/// Struct to be used for various reference trait bounds.
pub struct RefImplBound {
    _private: (),
}

/// An explicitly null reference to an object of type `T`, as a method argument.
pub struct Null<T>(PhantomData<T>);

impl<T> Null<T> {
    /// Creates an explicitly null reference.
    pub fn null() -> (r: Self) {
        Null(PhantomData)
    }
}

/// A trait for incrementing the reference count to an engine value.
pub trait NewRef: Sized {
    /// Creates a new reference to the underlying value.
    fn new_ref(&self) -> Self;
}

impl NewRef for crate::string::GodotString {
    /// A new reference with the same characters.
    fn new_ref(&self) -> (r: Self)
        ensures
            r@ == self@,
    {
        crate::string::GodotString::new_ref(self)
    }
}

impl NewRef for crate::string_array::StringArray {
    /// A new reference with the same strings.
    fn new_ref(&self) -> (r: Self)
        ensures
            r@ == self@,
    {
        crate::string_array::StringArray::new_ref(self)
    }
}

impl<T: crate::typed_array::Element> NewRef for crate::typed_array::TypedArray<T> {
    /// A new reference with the same elements.
    fn new_ref(&self) -> (r: Self)
        ensures
            r@ == self@,
    {
        crate::typed_array::TypedArray::new_ref(self)
    }
}


/// Marker trait for types that are subclasses of `A`. Every type is a subclass of itself.
pub trait SubClass<A> {}

impl<T> SubClass<T> for T {}

/// Error type of receivers whose access cannot fail: no value of it is ever made.
#[derive(Clone, Copy, Debug, PartialEq, Eq, PartialOrd, Ord, Hash)]
pub struct Infallible {
    _never: (),
}

} // verus!
