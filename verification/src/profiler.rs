//! Signatures for the engine's built-in profiler.
//!
//! A signature encodes information about the code being profiled. It is a string in the
//! form `{file}::{line_number}::{tag}`, where `tag` is an identifier of the code, usually
//! the name of the method. None of the parts should contain `::`. The engine takes it as a
//! NUL-terminated byte string.

use vstd::prelude::*;

use crate::text::{chars_of, decimal_chars, push_all, string_of};

verus! {

/// `true` if `s` holds `::`.
pub open spec fn has_double_colon(s: Seq<char>) -> bool {
    exists|i: int| 0 <= i < s.len() - 1 && #[trigger] s[i] == ':' && s[i + 1] == ':'
}

/// `true` if `s` holds a NUL character.
pub open spec fn has_nul(s: Seq<char>) -> bool {
    exists|i: int| 0 <= i < s.len() && #[trigger] s[i] == '\0'
}

/// `true` if `s` holds a zero byte.
pub open spec fn has_zero_byte(s: Seq<u8>) -> bool {
    exists|i: int| 0 <= i < s.len() && #[trigger] s[i] == 0
}

/// The text of the signature `{file}::{line}::{tag}`.
pub open spec fn signature_text(file: Seq<char>, line: u32, tag: Seq<char>) -> Seq<char> {
    file + seq![':', ':'] + crate::text::decimal(line as nat) + seq![':', ':'] + tag
}

/// Returns `true` if `s` holds `::`.
pub fn contains_double_colon(s: &[char]) -> (r: bool)
    ensures
        r == has_double_colon(s@),
{
    let mut i: usize = 0;
    while i < s.len()
        invariant
            i <= s@.len(),
            forall|j: int| 0 <= j < i && j < s@.len() - 1 ==> !(#[trigger] s@[j] == ':' && s@[j + 1] == ':'),
        decreases s@.len() - i,
    {
        if i + 1 < s.len() && s[i] == ':' && s[i + 1] == ':' {
            return true;
        }
        i = i + 1;
    }
    false
}

/// Returns `true` if `s` holds a NUL character.
pub fn contains_nul(s: &[char]) -> (r: bool)
    ensures
        r == has_nul(s@),
{
    let mut i: usize = 0;
    while i < s.len()
        invariant
            i <= s@.len(),
            forall|j: int| 0 <= j < i ==> s@[j] != '\0',
        decreases s@.len() - i,
    {
        if s[i] == '\0' {
            return true;
        }
        i = i + 1;
    }
    false
}

/// Builds the text `{file}::{line}::{tag}`.
pub fn format_signature(file: &str, line: u32, tag: &str) -> (r: Vec<char>)
    ensures
        r@ == signature_text(file@, line, tag@),
{
    let mut text = chars_of(file);
    text.push(':');
    text.push(':');
    let digits = decimal_chars(line as u64);
    push_all(&mut text, digits.as_slice());
    text.push(':');
    text.push(':');
    let tag_chars = chars_of(tag);
    push_all(&mut text, tag_chars.as_slice());
    proof {
        assert(text@ =~= signature_text(file@, line, tag@));
    }
    text
}

/// The UTF-8 encoding of `text`, followed by a NUL byte.
pub fn nul_terminated(text: &[char]) -> (r: Vec<u8>)
    ensures
        r@ == vstd::utf8::encode_utf8(text@).push(0),
{
    let s = string_of(text);
    let mut bytes = vstd::slice::slice_to_vec(s.as_str().as_bytes());
    bytes.push(0);
    bytes
}

/// A signature for the engine's built-in profiler, kept as the NUL-terminated bytes the
/// engine takes.
#[derive(Debug)]
pub struct Signature {
    sig: Vec<u8>,
}

impl Signature {
    #[verifier::type_invariant]
    spec fn inv(self) -> bool {
        &&& self.sig@.len() > 0
        &&& self.sig@.last() == 0
        &&& !has_zero_byte(self.sig@.drop_last())
    }

    /// The bytes of the signature, with the terminating NUL byte.
    pub closed spec fn bytes(self) -> Seq<u8> {
        self.sig@
    }

    /// Creates a signature in the correct form from its parts.
    ///
    /// `file` and `tag` must not contain `::` nor NUL characters: such parts would make the
    /// signature ambiguous, or impossible to hand over as a C string.
    pub fn new(file: &str, line: u32, tag: &str) -> (r: Self)
        requires
            !has_double_colon(file@),
            !has_double_colon(tag@),
            !has_nul(file@),
            !has_nul(tag@),
        ensures
            r.bytes() == vstd::utf8::encode_utf8(signature_text(file@, line, tag@)).push(0),
    {
        let text = format_signature(file, line, tag);
        let bytes = nul_terminated(text.as_slice());
        proof {
            lemma_no_nul_digits(line as nat);
            assert(!has_nul(text@)) by {
                let d = crate::text::decimal(line as nat);
                assert forall|i: int| 0 <= i < text@.len() implies text@[i] != '\0' by {
                    if i < file@.len() {
                        assert(text@[i] == file@[i]);
                    } else if i < file@.len() + 2 {
                    } else if i < file@.len() + 2 + d.len() {
                        assert(text@[i] == d[i - file@.len() - 2]);
                    } else if i < file@.len() + 4 + d.len() {
                    } else {
                        assert(text@[i] == tag@[i - file@.len() - 4 - d.len()]);
                    }
                }
            }
            lemma_no_zero_byte(text@);
            assert(bytes@.drop_last() =~= vstd::utf8::encode_utf8(text@));
        }
        Signature { sig: bytes }
    }

    /// Creates a signature from NUL-terminated bytes in the specified format. The format is
    /// not checked. Returns `None` if the bytes are not NUL-terminated, or hold a NUL byte
    /// before the end.
    pub fn from_raw_owned(sig: Vec<u8>) -> (r: Option<Self>)
        ensures
            r is Some <==> (sig@.len() > 0 && sig@.last() == 0 && !has_zero_byte(sig@.drop_last())),
            r matches Some(s) ==> s.bytes() == sig@,
    {
        let n = sig.len();
        if n == 0 || sig[n - 1] != 0 {
            return None;
        }
        let mut i: usize = 0;
        while i + 1 < n
            invariant
                n == sig@.len(),
                n > 0,
                i < n,
                forall|j: int| 0 <= j < i ==> sig@[j] != 0,
            decreases n - i,
        {
            if sig[i] == 0 {
                proof {
                    assert(sig@.drop_last()[i as int] == 0);
                }
                return None;
            }
            i = i + 1;
        }
        proof {
            assert(!has_zero_byte(sig@.drop_last())) by {
                assert forall|j: int| 0 <= j < sig@.drop_last().len() implies sig@.drop_last()[j]
                    != 0 by {
                    assert(sig@.drop_last()[j] == sig@[j]);
                }
            }
        }
        Some(Signature { sig })
    }

    /// Creates a signature from NUL-terminated bytes in the specified format, which must end
    /// with their only NUL byte. The format is not checked.
    pub fn from_bytes_with_nul_unchecked(bytes: &[u8]) -> (r: Self)
        requires
            bytes@.len() > 0,
            bytes@.last() == 0,
            !has_zero_byte(bytes@.drop_last()),
        ensures
            r.bytes() == bytes@,
    {
        Signature { sig: vstd::slice::slice_to_vec(bytes) }
    }

    /// Creates a copy of `self` for repeated use.
    pub fn borrow(&self) -> (r: Self)
        ensures
            r.bytes() == self.bytes(),
    {
        proof {
            use_type_invariant(self);
        }
        Signature { sig: vstd::slice::slice_to_vec(self.sig.as_slice()) }
    }

    /// Makes the data point for this signature; see [`add_data`].
    pub fn add_data(&self, api_bound: bool, time_in_micros: u128) -> (r: Option<
        crate::profiling::ProfileSample,
    >)
        requires
            api_bound ==> time_in_micros <= u64::MAX,
        ensures
            !api_bound ==> r is None,
            api_bound ==> (r matches Some(sample) && sample.signature@ == self.bytes()
                && sample.time_in_usec == time_in_micros),
    {
        add_data(self, api_bound, time_in_micros)
    }

    /// The bytes of the signature, with the terminating NUL byte, as the engine takes them.
    pub fn as_bytes_with_nul(&self) -> (r: &[u8])
        ensures
            r@ == self.bytes(),
    {
        self.sig.as_slice()
    }
}

/// Makes the data point that adds `time_in_micros` microseconds (sub-microsecond time is
/// truncated by the caller) to the engine's built-in profiler under `signature`. While the
/// engine's API is not bound (`api_bound`), there is no data point: the call fails silently.
/// A bound API takes the time as a `u64`; a longer time cannot be reported.
pub fn add_data(signature: &Signature, api_bound: bool, time_in_micros: u128) -> (r: Option<
    crate::profiling::ProfileSample,
>)
    requires
        api_bound ==> time_in_micros <= u64::MAX,
    ensures
        !api_bound ==> r is None,
        api_bound ==> (r matches Some(sample) && sample.signature@ == signature.bytes()
            && sample.time_in_usec == time_in_micros),
{
    if api_bound {
        let bytes = vstd::slice::slice_to_vec(signature.as_bytes_with_nul());
        Some(crate::profiling::ProfileSample { signature: bytes, time_in_usec: time_in_micros as u64 })
    } else {
        None
    }
}

/// The decimal rendering of a number holds no NUL character.
pub proof fn lemma_no_nul_digits(n: nat)
    ensures
        !has_nul(crate::text::decimal(n)),
    decreases n,
{
    if n >= 10 {
        lemma_no_nul_digits(n / 10);
        let d = crate::text::decimal(n);
        assert forall|i: int| 0 <= i < d.len() implies d[i] != '\0' by {
            if i < d.len() - 1 {
                assert(d[i] == crate::text::decimal(n / 10)[i]);
            }
        }
    }
}

/// A text without NUL characters encodes to bytes without a zero byte.
pub proof fn lemma_no_zero_byte(text: Seq<char>)
    requires
        !has_nul(text),
    ensures
        !has_zero_byte(vstd::utf8::encode_utf8(text)),
    decreases text.len(),
{
    if text.len() > 0 {
        let c = text[0] as u32;
        assert(text[0] != '\0');
        vstd::utf8::char_is_scalar(text[0]);
        vstd::utf8::char_u32_cast(text[0], c);
        assert(c != 0) by {
            if c == 0 {
                assert(0u32 as char == '\0');
            }
        }
        lemma_scalar_no_zero_byte(c);
        assert(!has_nul(text.drop_first())) by {
            assert forall|i: int| 0 <= i < text.drop_first().len() implies text.drop_first()[i]
                != '\0' by {
                assert(text.drop_first()[i] == text[i + 1]);
            }
        }
        lemma_no_zero_byte(text.drop_first());
        let head = vstd::utf8::encode_scalar(c);
        let tail = vstd::utf8::encode_utf8(text.drop_first());
        assert(vstd::utf8::encode_utf8(text) == head + tail);
        assert forall|i: int| 0 <= i < (head + tail).len() implies (head + tail)[i] != 0 by {
            if i < head.len() {
                assert((head + tail)[i] == head[i]);
            } else {
                assert((head + tail)[i] == tail[i - head.len()]);
            }
        }
    }
}

proof fn lemma_scalar_no_zero_byte(c: u32)
    requires
        c != 0,
    ensures
        !has_zero_byte(vstd::utf8::encode_scalar(c)),
{
    let e = vstd::utf8::encode_scalar(c);
    let lo = (c & 0x3F) as u8;
    let mid = ((c >> 6) & 0x3F) as u8;
    let hi = ((c >> 12) & 0x3F) as u8;
    assert(0x80u8 | lo != 0) by (bit_vector);
    assert(0x80u8 | mid != 0) by (bit_vector);
    assert(0x80u8 | hi != 0) by (bit_vector);
    let l2 = ((c >> 6) & 0x1F) as u8;
    let l3 = ((c >> 12) & 0x0F) as u8;
    let l4 = ((c >> 18) & 0x7) as u8;
    assert(0xC0u8 | l2 != 0) by (bit_vector);
    assert(0xE0u8 | l3 != 0) by (bit_vector);
    assert(0xF0u8 | l4 != 0) by (bit_vector);
    if vstd::utf8::has_width_1_encoding(c) {
        assert((c & 0x7F) as u8 != 0) by (bit_vector)
            requires
                c != 0,
                c <= 0x7F,
        ;
    }
    assert forall|i: int| 0 <= i < e.len() implies e[i] != 0 by {
    }
}

} // verus!
