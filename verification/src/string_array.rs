//! A vector of [`GodotString`] that uses the engine's pool allocator.

use vstd::prelude::*;

use crate::string::GodotString;
use crate::typed_array::{ReadGuard, TypedArray, WriteGuard};

verus! {

/// A vector of [`GodotString`] that uses the engine's pool allocator.
pub struct StringArray(pub(crate) TypedArray<GodotString>);

impl View for StringArray {
    type V = Seq<Seq<char>>;

    closed spec fn view(&self) -> Seq<Seq<char>> {
        self.0@
    }
}

impl StringArray {
    /// Creates an empty array.
    pub fn new() -> (r: Self)
        ensures
            r@ == Seq::<Seq<char>>::empty(),
    {
        StringArray(TypedArray::new())
    }

    /// Appends an element at the end of the array.
    pub fn push(&mut self, s: &GodotString)
        ensures
            final(self)@ == old(self)@.push(s@),
    {
        self.0.push_ref(s);
    }

    /// Appends a `StringArray` at the end of this array.
    pub fn push_string_array(&mut self, strings: &StringArray)
        ensures
            final(self)@ == old(self)@ + strings@,
    {
        self.0.append(&strings.0);
    }

    /// Inserts a new string at a given position in the array. Positions from `0` to the
    /// length of the array are accepted; at any other the array is left as it is. Returns
    /// `true` when the insertion was refused.
    pub fn insert(&mut self, offset: i32, string: &GodotString) -> (r: bool)
        ensures
            r == !(0 <= offset <= old(self)@.len()),
            !r ==> final(self)@ == crate::typed_array::inserted(old(self)@, offset as int, string@),
            r ==> final(self)@ == old(self)@,
    {
        let inserted = self.0.insert_ref(offset, string);
        !inserted
    }

    /// Inverts the order of the elements in the array.
    pub fn invert(&mut self)
        ensures
            final(self)@ == old(self)@.reverse(),
    {
        self.0.invert();
    }

    /// Removes an element at the given offset. At an offset outside the array, the array is
    /// left as it is.
    pub fn remove(&mut self, idx: i32)
        ensures
            0 <= idx < old(self)@.len() ==> final(self)@ == old(self)@.remove(idx as int),
            !(0 <= idx < old(self)@.len()) ==> final(self)@ == old(self)@,
    {
        self.0.remove(idx);
    }

    /// Changes the size of the array, removing elements from the end or pushing empty
    /// strings. A negative size leaves the array as it is.
    pub fn resize(&mut self, size: i32)
        ensures
            size >= 0 ==> final(self)@ == crate::typed_array::resized(
                old(self)@,
                size as nat,
                Seq::<char>::empty(),
            ),
            size < 0 ==> final(self)@ == old(self)@,
    {
        self.0.resize(size);
    }

    /// Returns a copy of the element at the given offset.
    pub fn get(&self, idx: i32) -> (r: GodotString)
        requires
            0 <= idx < self@.len(),
        ensures
            r@ == self@[idx as int],
    {
        self.0.get(idx)
    }

    /// Sets the value of the element at the given offset. At an offset outside the array,
    /// the array is left as it is.
    pub fn set(&mut self, idx: i32, string: &GodotString)
        ensures
            0 <= idx < old(self)@.len() ==> final(self)@ == old(self)@.update(
                idx as int,
                string@,
            ),
            !(0 <= idx < old(self)@.len()) ==> final(self)@ == old(self)@,
    {
        self.0.set_ref(idx, string);
    }

    /// Returns the number of elements in the array.
    pub fn len(&self) -> (r: i32)
        requires
            self@.len() <= i32::MAX,
        ensures
            r == self@.len(),
    {
        self.0.len()
    }

    /// Creates a new reference to this array. Writes through either reference are not seen
    /// by the other.
    pub fn new_ref(&self) -> (r: Self)
        ensures
            r@ == self@,
    {
        StringArray(self.0.new_ref())
    }

    /// A read access to the elements.
    pub fn read(&self) -> (r: ReadGuard<'_, GodotString>)
        ensures
            crate::typed_array::views(r.elements()) == self@,
    {
        self.0.read()
    }

    /// A write access to the elements.
    pub fn write(&mut self) -> (r: WriteGuard<'_, GodotString>)
        ensures
            crate::typed_array::views(r.data@) == old(self)@,
            crate::typed_array::views(final(r.data)@) == final(self)@,
    {
        self.0.write()
    }

    /// The internal representation of the array: its elements.
    pub fn sys(&self) -> (r: &Vec<GodotString>)
        ensures
            crate::typed_array::views(r@) == self@,
    {
        self.0.sys()
    }

    /// Wraps an internal representation.
    pub fn from_sys(sys: Vec<GodotString>) -> (r: Self)
        ensures
            r@ == crate::typed_array::views(sys@),
    {
        StringArray(TypedArray::from_sys(sys))
    }
}

} // verus!
