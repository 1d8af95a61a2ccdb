//! Data points for the engine's built-in profiler, with signatures of the form
//! `{file}::{line}::{tag}`.

use vstd::prelude::*;

use crate::profiler::{contains_nul, format_signature, nul_terminated};
use crate::text::chars_of;

verus! {

/// The parts of a profiling signature.
pub struct ProfileSignature {
    pub file: String,
    pub line: u32,
    pub tag: String,
}

/// A data point as the engine's profiler takes it: a NUL-terminated signature and a time
/// in microseconds.
pub struct ProfileSample {
    pub signature: Vec<u8>,
    pub time_in_usec: u64,
}

/// Makes the data point for `signature`, formatted as `{file}::{line}::{tag}`.
///
/// The file and tag must not contain NUL characters: the signature could not be handed
/// over as a C string.
pub fn add_data(signature: &ProfileSignature, time_in_usec: u64) -> (r: ProfileSample)
    requires
        !crate::profiler::has_nul(signature.file@),
        !crate::profiler::has_nul(signature.tag@),
    ensures
        r.signature@ == vstd::utf8::encode_utf8(
            crate::profiler::signature_text(signature.file@, signature.line, signature.tag@),
        ).push(0),
        r.time_in_usec == time_in_usec,
{
    let text = format_signature(signature.file.as_str(), signature.line, signature.tag.as_str());
    ProfileSample { signature: nul_terminated(text.as_slice()), time_in_usec }
}

/// Makes the data point for a signature given as a whole. The signature needs to be
/// formatted as `"::<LINE-NUMBER>::<FUNCTION>"` for the profiler to accept the data. A
/// signature that holds a NUL character gives no data point.
pub fn profiling_add_data(signature: &str, time_in_usec: u64) -> (r: Option<ProfileSample>)
    ensures
        r is None <==> crate::profiler::has_nul(signature@),
        r matches Some(sample) ==> sample.signature@ == vstd::utf8::encode_utf8(signature@).push(
            0,
        ) && sample.time_in_usec == time_in_usec,
{
    let text = chars_of(signature);
    if contains_nul(text.as_slice()) {
        None
    } else {
        Some(ProfileSample { signature: nul_terminated(text.as_slice()), time_in_usec })
    }
}

} // verus!
