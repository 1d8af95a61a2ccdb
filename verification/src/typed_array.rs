//! Typed vectors of the engine's pool allocator, generic over the possible element types.
//!
//! A pool array is copy-on-write: a new reference and later writes through either side
//! never affect the other, so the library holds each array as its own sequence of values.

use std::marker::PhantomData;
use vstd::prelude::*;

use crate::string::GodotString;

verus! {

/// Trait for element types that can be contained in [`TypedArray`]. This trait is sealed.
pub trait Element: crate::sealed::Sealed + View + Sized {
    /// The value that growing an array fills new places with.
    spec fn default_view() -> Self::V;

    /// A copy of the element.
    fn duplicate(&self) -> (r: Self)
        ensures
            r@ == self@,
    ;

    /// The value that growing an array fills new places with.
    fn default_value() -> (r: Self)
        ensures
            r@ == Self::default_view(),
    ;
}

impl crate::sealed::Sealed for u8 {}

impl Element for u8 {
    open spec fn default_view() -> u8 {
        0
    }

    fn duplicate(&self) -> (r: u8) {
        *self
    }

    fn default_value() -> (r: u8) {
        0
    }
}

impl crate::sealed::Sealed for i32 {}

impl Element for i32 {
    open spec fn default_view() -> i32 {
        0
    }

    fn duplicate(&self) -> (r: i32) {
        *self
    }

    fn default_value() -> (r: i32) {
        0
    }
}

impl crate::sealed::Sealed for GodotString {}

impl Element for GodotString {
    open spec fn default_view() -> Seq<char> {
        Seq::empty()
    }

    fn duplicate(&self) -> (r: GodotString) {
        self.new_ref()
    }

    fn default_value() -> (r: GodotString) {
        GodotString::new()
    }
}

/// The views of the elements.
pub open spec fn views<T: View>(s: Seq<T>) -> Seq<T::V> {
    s.map_values(|x: T| x@)
}

/// A reference-counted typed vector using the engine's pool allocator.
pub struct TypedArray<T: Element> {
    inner: Vec<T>,
}

impl<T: Element> View for TypedArray<T> {
    type V = Seq<T::V>;

    closed spec fn view(&self) -> Seq<T::V> {
        views(self.inner@)
    }
}

/// A read access to the elements of an array.
pub struct ReadGuard<'a, T: Element> {
    data: &'a [T],
}

/// A write access to the elements of an array.
pub struct WriteGuard<'a, T: Element> {
    /// The elements, written in place.
    pub data: &'a mut [T],
    pub _marker: PhantomData<T>,
}

/// `s` with `x` inserted at position `i`.
pub open spec fn inserted<A>(s: Seq<A>, i: int, x: A) -> Seq<A> {
    s.subrange(0, i).push(x) + s.subrange(i, s.len() as int)
}

/// `s` cut or grown to `n` elements, growing with `fill`.
pub open spec fn resized<A>(s: Seq<A>, n: nat, fill: A) -> Seq<A> {
    if n <= s.len() {
        s.subrange(0, n as int)
    } else {
        s + Seq::new((n - s.len()) as nat, |i: int| fill)
    }
}

proof fn lemma_views_push<T: View>(s: Seq<T>, x: T)
    ensures
        views(s.push(x)) == views(s).push(x@),
{
    assert(views(s.push(x)) =~= views(s).push(x@));
}

impl<T: Element> TypedArray<T> {
    /// Creates an empty array.
    pub fn new() -> (r: Self)
        ensures
            r@ == Seq::<T::V>::empty(),
    {
        let r = TypedArray { inner: Vec::new() };
        proof {
            assert(r@ =~= Seq::<T::V>::empty());
        }
        r
    }

    /// Creates a new reference to this array. Writes through either reference are not seen
    /// by the other.
    pub fn new_ref(&self) -> (r: Self)
        ensures
            r@ == self@,
    {
        let mut inner: Vec<T> = Vec::new();
        let mut i: usize = 0;
        while i < self.inner.len()
            invariant
                i <= self.inner@.len(),
                views(inner@) == views(self.inner@.subrange(0, i as int)),
            decreases self.inner@.len() - i,
        {
            let x = self.inner[i].duplicate();
            proof {
                lemma_views_push(inner@, x);
                assert(self.inner@.subrange(0, i + 1) =~= self.inner@.subrange(0, i as int).push(
                    self.inner@[i as int],
                ));
                lemma_views_push(self.inner@.subrange(0, i as int), self.inner@[i as int]);
            }
            inner.push(x);
            i = i + 1;
        }
        proof {
            assert(self.inner@.subrange(0, self.inner@.len() as int) =~= self.inner@);
        }
        TypedArray { inner }
    }

    /// Returns the number of elements in the array.
    pub fn len(&self) -> (r: i32)
        requires
            self@.len() <= i32::MAX,
        ensures
            r == self@.len(),
    {
        self.inner.len() as i32
    }

    /// Returns `true` if the array holds no element.
    pub fn is_empty(&self) -> (r: bool)
        ensures
            r == (self@.len() == 0),
    {
        self.inner.len() == 0
    }

    /// Appends an element to the end of the array.
    pub fn push(&mut self, val: T)
        ensures
            final(self)@ == old(self)@.push(val@),
    {
        proof {
            lemma_views_push(self.inner@, val);
        }
        self.inner.push(val);
    }

    /// Appends a copy of an element to the end of the array.
    pub fn push_ref(&mut self, val: &T)
        ensures
            final(self)@ == old(self)@.push(val@),
    {
        self.push(val.duplicate());
    }

    /// Copies and appends all values in `src` to the end of the array.
    pub fn append(&mut self, src: &Self)
        ensures
            final(self)@ == old(self)@ + src@,
    {
        let mut i: usize = 0;
        while i < src.inner.len()
            invariant
                i <= src.inner@.len(),
                self@ == old(self)@ + views(src.inner@.subrange(0, i as int)),
            decreases src.inner@.len() - i,
        {
            let x = src.inner[i].duplicate();
            proof {
                assert(src.inner@.subrange(0, i + 1) =~= src.inner@.subrange(0, i as int).push(
                    src.inner@[i as int],
                ));
                lemma_views_push(src.inner@.subrange(0, i as int), src.inner@[i as int]);
            }
            self.push(x);
            i = i + 1;
        }
        proof {
            assert(src.inner@.subrange(0, src.inner@.len() as int) =~= src.inner@);
        }
    }

    /// Inserts an element at the given offset and returns `true` if successful. Offsets
    /// from `0` to the length of the array are accepted; at any other the array is left as
    /// it is.
    pub fn insert(&mut self, offset: i32, val: T) -> (r: bool)
        ensures
            r == (0 <= offset <= old(self)@.len()),
            r ==> final(self)@ == inserted(old(self)@, offset as int, val@),
            !r ==> final(self)@ == old(self)@,
    {
        if offset < 0 || offset as usize > self.inner.len() {
            return false;
        }
        let ghost before = self.inner@;
        self.inner.insert(offset as usize, val);
        proof {
            let i = offset as int;
            assert(self.inner@ =~= before.subrange(0, i).push(val) + before.subrange(
                i,
                before.len() as int,
            ));
            assert(self@ =~= inserted(views(before), i, val@));
        }
        true
    }

    /// Inserts a copy of an element at the given offset and returns `true` if successful.
    pub fn insert_ref(&mut self, offset: i32, val: &T) -> (r: bool)
        ensures
            r == (0 <= offset <= old(self)@.len()),
            r ==> final(self)@ == inserted(old(self)@, offset as int, val@),
            !r ==> final(self)@ == old(self)@,
    {
        self.insert(offset, val.duplicate())
    }

    /// Inverts the order of the elements in the array.
    pub fn invert(&mut self)
        ensures
            final(self)@ == old(self)@.reverse(),
    {
        let n = self.inner.len();
        let mut reversed: Vec<T> = Vec::new();
        let mut i: usize = n;
        while i > 0
            invariant
                i <= n,
                n == self.inner@.len(),
                self.inner@ == old(self).inner@,
                views(reversed@) == views(self.inner@).reverse().subrange(0, (n - i) as int),
            decreases i,
        {
            i = i - 1;
            let x = self.inner[i].duplicate();
            proof {
                lemma_views_push(reversed@, x);
                assert(views(self.inner@).reverse().subrange(0, (n - i) as int) =~= views(
                    self.inner@,
                ).reverse().subrange(0, (n - i - 1) as int).push(self.inner@[i as int]@));
            }
            reversed.push(x);
        }
        proof {
            assert(views(self.inner@).reverse().subrange(0, n as int) =~= views(
                self.inner@,
            ).reverse());
        }
        self.inner = reversed;
    }

    /// Removes the element at the given offset. At an offset outside the array, the array
    /// is left as it is.
    pub fn remove(&mut self, idx: i32)
        ensures
            0 <= idx < old(self)@.len() ==> final(self)@ == old(self)@.remove(idx as int),
            !(0 <= idx < old(self)@.len()) ==> final(self)@ == old(self)@,
    {
        if idx < 0 || idx as usize >= self.inner.len() {
            return ;
        }
        let ghost before = self.inner@;
        self.inner.remove(idx as usize);
        proof {
            assert(self@ =~= views(before).remove(idx as int));
        }
    }

    /// Changes the size of the array, removing elements from the end or pushing default
    /// values. A negative size leaves the array as it is.
    pub fn resize(&mut self, size: i32)
        ensures
            size >= 0 ==> final(self)@ == resized(old(self)@, size as nat, T::default_view()),
            size < 0 ==> final(self)@ == old(self)@,
    {
        if size < 0 {
            return ;
        }
        let target = size as usize;
        if target <= self.inner.len() {
            let ghost before = self.inner@;
            self.inner.truncate(target);
            proof {
                assert(self@ =~= resized(views(before), size as nat, T::default_view()));
            }
        } else {
            let ghost before = self@;
            while self.inner.len() < target
                invariant
                    before.len() <= self@.len() <= target,
                    self@ == before + Seq::new(
                        (self@.len() - before.len()) as nat,
                        |i: int| T::default_view(),
                    ),
                decreases target - self.inner@.len(),
            {
                let ghost prev = self@;
                self.push(T::default_value());
                proof {
                    assert(self@ =~= before + Seq::new(
                        (self@.len() - before.len()) as nat,
                        |i: int| T::default_view(),
                    ));
                }
            }
            proof {
                assert(self@ =~= resized(before, size as nat, T::default_view()));
            }
        }
    }

    /// Returns a copy of the element at the given offset.
    pub fn get(&self, idx: i32) -> (r: T)
        requires
            0 <= idx < self@.len(),
        ensures
            r@ == self@[idx as int],
    {
        self.inner[idx as usize].duplicate()
    }

    /// Sets the value of the element at the given offset. At an offset outside the array,
    /// the array is left as it is.
    pub fn set(&mut self, idx: i32, val: T)
        ensures
            0 <= idx < old(self)@.len() ==> final(self)@ == old(self)@.update(idx as int, val@),
            !(0 <= idx < old(self)@.len()) ==> final(self)@ == old(self)@,
    {
        if idx < 0 || idx as usize >= self.inner.len() {
            return ;
        }
        let ghost before = self.inner@;
        self.inner.set(idx as usize, val);
        proof {
            assert(self@ =~= views(before).update(idx as int, val@));
        }
    }

    /// Sets the element at the given offset to a copy of `val`.
    pub fn set_ref(&mut self, idx: i32, val: &T)
        ensures
            0 <= idx < old(self)@.len() ==> final(self)@ == old(self)@.update(idx as int, val@),
            !(0 <= idx < old(self)@.len()) ==> final(self)@ == old(self)@,
    {
        self.set(idx, val.duplicate())
    }

    /// A read access to the elements.
    pub fn read(&self) -> (r: ReadGuard<'_, T>)
        ensures
            views(r.elements()) == self@,
    {
        ReadGuard { data: self.inner.as_slice() }
    }

    /// A write access to the elements.
    pub fn write(&mut self) -> (r: WriteGuard<'_, T>)
        ensures
            views(r.data@) == old(self)@,
            views(final(r.data)@) == final(self)@,
    {
        WriteGuard { data: self.inner.as_mut_slice(), _marker: PhantomData }
    }

    /// The internal representation of the array: its elements.
    pub fn sys(&self) -> (r: &Vec<T>)
        ensures
            views(r@) == self@,
    {
        &self.inner
    }

    /// The internal representation of the array, for writing.
    pub fn sys_mut(&mut self) -> (r: &mut Vec<T>)
        ensures
            views(r@) == old(self)@,
            views(final(r)@) == final(self)@,
    {
        &mut self.inner
    }

    /// Wraps an internal representation.
    pub fn from_sys(sys: Vec<T>) -> (r: Self)
        ensures
            r@ == views(sys@),
    {
        TypedArray { inner: sys }
    }
}

impl<'a, T: Element> ReadGuard<'a, T> {
    /// The elements that can be read.
    pub closed spec fn elements(self) -> Seq<T> {
        self.data@
    }

    /// The number of elements.
    pub fn len(&self) -> (r: usize)
        ensures
            r == self.elements().len(),
    {
        self.data.len()
    }

    /// The elements as a slice.
    pub fn as_slice(&self) -> (r: &'a [T])
        ensures
            r@ == self.elements(),
    {
        self.data
    }
}

impl<'a, T: Element> WriteGuard<'a, T> {
    /// The number of elements.
    pub fn len(&self) -> (r: usize)
        ensures
            r == old(self.data)@.len(),
    {
        self.data.len()
    }
}

} // verus!
