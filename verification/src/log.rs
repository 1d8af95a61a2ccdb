//! Call sites of the errors and warnings that are printed to the engine's console.

use vstd::prelude::*;

use crate::profiler::has_zero_byte;
use crate::text::{decimal_chars, push_all, push_str, string_of};

verus! {

/// The text that `String::from_utf8_lossy` makes of `bytes`.
pub uninterp spec fn lossy_text(bytes: Seq<u8>) -> Seq<char>;

/// Calls `String::from_utf8_lossy`, which decodes valid UTF-8 as it is and puts the
/// replacement character in place of each invalid sequence.
#[verifier::external_body]
fn from_utf8_lossy(bytes: &[u8]) -> (r: String)
    ensures
        r@ == lossy_text(bytes@),
        vstd::utf8::valid_utf8(bytes@) ==> vstd::utf8::encode_utf8(r@) == bytes@,
{
    String::from_utf8_lossy(bytes).into_owned()
}

/// Value representing a call site for errors and warnings: the file, the function and the
/// line. The file and function names are C strings, kept here without their terminating
/// NUL byte.
#[derive(Clone, Copy, Debug)]
pub struct Site<'a> {
    file: &'a [u8],
    func: &'a [u8],
    line: u32,
}

/// The text a call site is displayed as: `file {file}, {func}, line {line}`.
pub open spec fn site_text(file: Seq<u8>, func: Seq<u8>, line: u32) -> Seq<char> {
    "file "@ + lossy_text(file) + ", "@ + lossy_text(func) + ", line "@ + crate::text::decimal(
        line as nat,
    )
}

impl<'a> Site<'a> {
    #[verifier::type_invariant]
    spec fn inv(self) -> bool {
        &&& !has_zero_byte(self.file@)
        &&& !has_zero_byte(self.func@)
    }

    /// The bytes of the file name.
    pub closed spec fn file_name(self) -> Seq<u8> {
        self.file@
    }

    /// The bytes of the function name.
    pub closed spec fn func_name(self) -> Seq<u8> {
        self.func@
    }

    /// The line number.
    pub closed spec fn line_number(self) -> u32 {
        self.line
    }

    /// Constructs a new `Site` from the bytes of the file and function names, which must not
    /// hold a NUL byte, and the line.
    pub fn new(file: &'a [u8], func: &'a [u8], line: u32) -> (r: Self)
        requires
            !has_zero_byte(file@),
            !has_zero_byte(func@),
        ensures
            r.file_name() == file@,
            r.func_name() == func@,
            r.line_number() == line,
    {
        Site { file, func, line }
    }

    /// The bytes of the file name.
    pub fn file(&self) -> (r: &'a [u8])
        ensures
            r@ == self.file_name(),
            !has_zero_byte(r@),
    {
        proof {
            use_type_invariant(self);
        }
        self.file
    }

    /// The bytes of the function name.
    pub fn func(&self) -> (r: &'a [u8])
        ensures
            r@ == self.func_name(),
            !has_zero_byte(r@),
    {
        proof {
            use_type_invariant(self);
        }
        self.func
    }

    /// The line number.
    pub fn line(&self) -> (r: u32)
        ensures
            r == self.line_number(),
    {
        self.line
    }

    /// Renders the site as it is displayed: `file {file}, {func}, line {line}`, where the
    /// names are decoded lossily.
    pub fn to_string(&self) -> (r: String)
        ensures
            r@ == site_text(self.file_name(), self.func_name(), self.line_number()),
    {
        let mut text: Vec<char> = Vec::new();
        push_str(&mut text, "file ");
        let file = from_utf8_lossy(self.file);
        push_str(&mut text, file.as_str());
        push_str(&mut text, ", ");
        let func = from_utf8_lossy(self.func);
        push_str(&mut text, func.as_str());
        push_str(&mut text, ", line ");
        let digits = decimal_chars(self.line as u64);
        push_all(&mut text, digits.as_slice());
        string_of(text.as_slice())
    }
}

impl<'a> Default for Site<'a> {
    /// The site used where none is known: `<unset>` as file and function, line 0.
    fn default() -> (r: Self)
        ensures
            r.file_name() == vstd::utf8::encode_utf8("<unset>"@),
            r.func_name() == vstd::utf8::encode_utf8("<unset>"@),
            r.line_number() == 0,
    {
        let unset: &'a [u8] = "<unset>".as_bytes();
        proof {
            reveal_strlit("<unset>");
            assert(!crate::profiler::has_nul("<unset>"@));
            crate::profiler::lemma_no_zero_byte("<unset>"@);
        }
        Site { file: unset, func: unset, line: 0 }
    }
}

} // verus!
