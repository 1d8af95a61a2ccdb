//! Resource ids: opaque handles through which the engine finds a resource.

use std::cmp::Ordering;
use vstd::prelude::*;
use vstd::std_specs::cmp::PartialOrdSpecImpl;

verus! {

/// The engine's representation of a resource id: the address of the resource's record in
/// the engine, or `0` for the null id.
#[derive(Clone, Copy, Debug, PartialEq, Eq, Structural)]
pub struct RawRid {
    pub handle: usize,
}

/// The RID type is used to access the unique integer ID of a resource.
/// They are opaque, so they do not grant access to the associated resource by themselves.
#[derive(Clone, Copy, Debug, PartialEq, Eq, Structural)]
pub struct Rid(pub(crate) RawRid);

impl Rid {
    /// The engine's representation of this id.
    pub closed spec fn raw(self) -> RawRid {
        self.0
    }

    /// Creates the null id, which refers to no resource.
    pub fn new() -> (r: Self)
        ensures
            r.raw().handle == 0,
    {
        Rid(RawRid { handle: 0 })
    }

    /// Returns `true` unless this is the null id.
    pub fn is_valid(&self) -> (r: bool)
        ensures
            r == (self.raw().handle != 0),
    {
        self.0.handle != 0
    }

    /// Returns `true` if this id orders before `b`, by the address of the record it refers to.
    pub fn operator_less(&self, b: &Rid) -> (r: bool)
        ensures
            r == (self.raw().handle < b.raw().handle),
    {
        self.0.handle < b.0.handle
    }

    /// The internal representation of the id.
    pub fn sys(&self) -> (r: &RawRid)
        ensures
            *r == self.raw(),
    {
        &self.0
    }

    /// The internal representation of the id, for writing.
    pub fn mut_sys(&mut self) -> (r: &mut RawRid)
        ensures
            *r == old(self).raw(),
            final(self).raw() == *final(r),
    {
        &mut self.0
    }

    /// Wraps an internal representation.
    pub fn from_sys(sys: RawRid) -> (r: Self)
        ensures
            r.raw() == sys,
    {
        Rid(sys)
    }
}


impl PartialOrd for Rid {
    /// Orders by [`Rid::operator_less`]: `Less` if this id orders before `other`, otherwise
    /// `Greater`, also for two equal ids.
    fn partial_cmp(&self, other: &Rid) -> (r: Option<Ordering>) {
        if self.0.handle < other.0.handle {
            Some(Ordering::Less)
        } else {
            Some(Ordering::Greater)
        }
    }
}

impl PartialOrdSpecImpl for Rid {
    open spec fn obeys_partial_cmp_spec() -> bool {
        true
    }

    open spec fn partial_cmp_spec(&self, other: &Rid) -> Option<Ordering> {
        if self.raw().handle < other.raw().handle {
            Some(Ordering::Less)
        } else {
            Some(Ordering::Greater)
        }
    }
}


/// A resource id is determined by its representation: wrapping the representation that
/// [`Rid::sys`] hands out with [`Rid::from_sys`] gives the same id.
pub proof fn law_rid_representation(a: Rid, b: Rid)
    ensures
        a.raw() == b.raw() ==> a == b,
{
}

} // verus!
