//! Type tags: the values handed to the engine with each registered class, by which the
//! library later recognizes that a script instance belongs to a given Rust type.
//!
//! Types are named by keys that the caller derives from them, one key per type. The tag of a
//! type is the position of its key in the registry, so that a tag is checked against a type
//! by comparing keys.

use vstd::prelude::*;

verus! {

/// The type tags made so far, each standing for the key of its type.
pub struct TypeTags {
    keys: Vec<u64>,
}

impl View for TypeTags {
    type V = Seq<u64>;

    /// The type key of each tag, by tag.
    closed spec fn view(&self) -> Seq<u64> {
        self.keys@
    }
}

impl TypeTags {
    /// An empty registry.
    pub fn new() -> (r: Self)
        ensures
            r@ == Seq::<u64>::empty(),
    {
        TypeTags { keys: Vec::new() }
    }

    /// Creates a new type tag for the type with key `type_key`.
    pub fn create(&mut self, type_key: u64) -> (tag: usize)
        requires
            old(self)@.len() < usize::MAX,
        ensures
            tag == old(self)@.len(),
            final(self)@ == old(self)@.push(type_key),
    {
        let tag = self.keys.len();
        self.keys.push(type_key);
        tag
    }

    /// Returns `true` if `tag` stands for the type with key `type_key`. `tag` must be one
    /// returned by [`TypeTags::create`].
    pub fn check(&self, tag: usize, type_key: u64) -> (r: bool)
        requires
            tag < self@.len(),
        ensures
            r == (self@[tag as int] == type_key),
    {
        self.keys[tag] == type_key
    }

    /// Forgets all tags; tags made before must not be checked afterwards.
    pub fn cleanup(&mut self)
        ensures
            final(self)@ == Seq::<u64>::empty(),
    {
        self.keys = Vec::new();
    }
}

} // verus!
