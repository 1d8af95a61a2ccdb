//! The engine's string types: [`GodotString`], its UTF-8 encoding [`Utf8String`], and
//! interned [`StringName`]s.
//!
//! The library keeps the characters of a string as its representation; the `sys`
//! functions hand that representation out and take it back.

use vstd::prelude::*;

verus! {

broadcast use vstd::utf8::encode_utf8_valid_utf8;

/// The engine's string type: a sequence of characters.
pub struct GodotString(pub(crate) String);

impl View for GodotString {
    type V = Seq<char>;

    closed spec fn view(&self) -> Seq<char> {
        self.0@
    }
}

impl GodotString {
    /// Creates an empty string.
    pub fn new() -> (r: Self)
        ensures
            r@ == Seq::<char>::empty(),
    {
        GodotString(String::new())
    }

    /// Creates a string holding the characters of `s`.
    pub fn from_str(s: &str) -> (r: Self)
        ensures
            r@ == s@,
    {
        GodotString(s.to_owned())
    }

    /// Returns the number of characters.
    pub fn len(&self) -> (r: usize)
        ensures
            r == self@.len(),
    {
        crate::text::chars_of(self.0.as_str()).len()
    }

    /// Returns `true` if the string has no character.
    pub fn is_empty(&self) -> (r: bool)
        ensures
            r == (self@.len() == 0),
    {
        self.len() == 0
    }

    /// Creates a new reference to this string, with the same characters.
    pub fn new_ref(&self) -> (r: Self)
        ensures
            r@ == self@,
    {
        GodotString(self.0.clone())
    }

    /// Returns the UTF-8 encoding of the string.
    pub fn to_utf8(&self) -> (r: Utf8String)
        ensures
            r.bytes() == vstd::utf8::encode_utf8(self@),
    {
        let bytes = self.0.as_str().as_bytes();
        Utf8String(vstd::slice::slice_to_vec(bytes))
    }

    /// Returns the internal representation of the string and consumes the wrapper.
    ///
    /// The receiving side is then responsible for the string.
    pub fn forget(self) -> (r: String)
        ensures
            r@ == self@,
    {
        self.0
    }

    /// Returns a copy of the internal representation of the string.
    ///
    /// The string remains owned by the wrapper.
    pub fn to_sys(&self) -> (r: String)
        ensures
            r@ == self@,
    {
        self.0.clone()
    }

    /// The internal representation of the string.
    pub fn sys(&self) -> (r: &String)
        ensures
            r@ == self@,
    {
        &self.0
    }

    /// Wraps an internal representation.
    pub fn from_sys(sys: String) -> (r: Self)
        ensures
            r@ == sys@,
    {
        GodotString(sys)
    }
}

/// The UTF-8 encoding of a [`GodotString`].
pub struct Utf8String(pub(crate) Vec<u8>);

impl Utf8String {
    #[verifier::type_invariant]
    spec fn inv(self) -> bool {
        vstd::utf8::valid_utf8(self.0@)
    }

    /// The bytes of the encoding.
    pub closed spec fn bytes(self) -> Seq<u8> {
        self.0@
    }

    /// Returns the number of bytes, which the engine counts in an `i32`.
    pub fn len(&self) -> (r: i32)
        requires
            self.bytes().len() <= i32::MAX,
        ensures
            r == self.bytes().len(),
    {
        self.0.len() as i32
    }

    /// Returns the bytes of the encoding.
    pub fn as_bytes(&self) -> (r: &[u8])
        ensures
            r@ == self.bytes(),
    {
        self.0.as_slice()
    }

    /// Returns the encoded text as a string slice.
    pub fn as_str(&self) -> (r: &str)
        ensures
            vstd::utf8::encode_utf8(r@) == self.bytes(),
    {
        proof {
            use_type_invariant(self);
        }
        match crate::text::str_from_utf8(self.0.as_slice()) {
            Some(text) => text,
            None => {
                proof {
                    assert(false);
                }
                ""
            },
        }
    }

    /// Decodes the text into a Rust string.
    pub fn to_string(&self) -> (r: String)
        ensures
            vstd::utf8::encode_utf8(r@) == self.bytes(),
    {
        self.as_str().to_owned()
    }
}

/// An interned string of the engine.
pub struct StringName(pub(crate) GodotString);

impl View for StringName {
    type V = Seq<char>;

    closed spec fn view(&self) -> Seq<char> {
        self.0@
    }
}

impl StringName {
    /// Interns `s`. Like the engine binding it stands for, this gives no name back.
    pub fn from_str(s: &str) {
        let gd_string = GodotString::from_str(s);
        let _name = StringName::from_godot_string(&gd_string);
    }

    /// Interns the characters of `s`.
    pub fn from_godot_string(s: &GodotString) -> (r: Self)
        ensures
            r@ == s@,
    {
        StringName(s.new_ref())
    }

    /// Returns the interned characters.
    pub fn get_name(&self) -> (r: GodotString)
        ensures
            r@ == self@,
    {
        self.0.new_ref()
    }
}

} // verus!
