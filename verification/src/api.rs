//! Checks made when the engine hands its API to the library: whether the offered API
//! versions are supported, how an initialization error is reported back to the engine, and
//! the messages logged when a callback panics.

use vstd::prelude::*;

use crate::profiler::{has_nul, nul_terminated};
use crate::text::{chars_of, push_str, string_of};

verus! {

/// The API type number of the GDNative core API.
pub const GDNATIVE_API_TYPE_CORE: u32 = 0;

/// A version of one of the engine's API structs.
#[derive(Clone, Copy, Debug, PartialEq, Eq, Structural)]
pub struct ApiVersion {
    pub major: u32,
    pub minor: u32,
}

/// One entry of the chain of API structs the engine offers: its API type and version.
#[derive(Clone, Copy, Debug, PartialEq, Eq, Structural)]
pub struct ApiStruct {
    pub api_type: u32,
    pub version: ApiVersion,
}

/// Why the library could not be initialized.
pub enum InitError {
    /// An API of the wrong version was offered.
    VersionMismatch { api_type: String, want: ApiVersion, got: ApiVersion },
    /// Any other error, with its message.
    Generic { message: String },
}

/// `true` if the entry is a core API whose major version is not the supported one.
pub open spec fn unsupported_entry(entry: ApiStruct) -> bool {
    entry.api_type == GDNATIVE_API_TYPE_CORE && entry.version.major != 1
}

/// The message of the error given for an unsupported core API.
pub open spec fn major_version_message() -> Seq<char> {
    "GDNative major version 1 expected"@
}

/// Checks the chain of API structs that the engine offers, from its first entry to its last.
/// The chain is refused, with a generic error, if it holds a core API whose major version is
/// not 1.
pub fn check_api_compatibility(chain: &[ApiStruct]) -> (r: Result<(), InitError>)
    requires
        chain@.len() >= 1,
    ensures
        r is Ok <==> forall|i: int| 0 <= i < chain@.len() ==> !unsupported_entry(#[trigger] chain@[i]),
        r is Ok <==> forall|i: int|
            0 <= i < chain@.len() ==> !(#[trigger] chain@[i].api_type == GDNATIVE_API_TYPE_CORE
                && chain@[i].version.major != 1),
        r matches Err(e) ==> e matches InitError::Generic { message } && message@
            == major_version_message(),
{
    let mut i: usize = 0;
    while i < chain.len()
        invariant
            i <= chain@.len(),
            forall|j: int| 0 <= j < i ==> !unsupported_entry(#[trigger] chain@[j]),
        decreases chain@.len() - i,
    {
        let entry = chain[i];
        if entry.api_type == GDNATIVE_API_TYPE_CORE && entry.version.major != 1 {
            let mut message: Vec<char> = Vec::new();
            push_str(&mut message, "GDNative major version 1 expected");
            return Err(InitError::Generic { message: string_of(message.as_slice()) });
        }
        i = i + 1;
    }
    Ok(())
}

/// What is reported to the engine about an initialization error.
pub enum InitReport {
    /// Report a version mismatch of the named API type (NUL-terminated), with the wanted and
    /// the offered versions.
    VersionMismatch { api_type: Vec<u8>, want: ApiVersion, got: ApiVersion },
    /// Report a loading error with this message (NUL-terminated).
    LoadingError { message: Vec<u8> },
    /// The engine offers no way to report this error.
    Nothing,
}

/// Decides how an initialization error is reported, given which of its two reporting
/// callbacks the engine offers: a version mismatch through the version callback, any other
/// error through the loading-error callback, each as a NUL-terminated C string. A text is
/// made into a C string only where its callback is offered, and then must hold no NUL.
pub fn init_error_report(
    error: &InitError,
    can_report_version_mismatch: bool,
    can_report_loading_error: bool,
) -> (r: InitReport)
    requires
        can_report_version_mismatch ==> (error matches InitError::VersionMismatch { api_type, .. }
            ==> !has_nul(api_type@)),
        can_report_loading_error ==> (error matches InitError::Generic { message } ==> !has_nul(
            message@,
        )),
    ensures
        error matches InitError::VersionMismatch { api_type, want, got } ==> if can_report_version_mismatch {
            r matches InitReport::VersionMismatch { api_type: t, want: w, got: g } && t@
                == vstd::utf8::encode_utf8(api_type@).push(0u8) && w == want && g == got
        } else {
            r is Nothing
        },
        error matches InitError::Generic { message } ==> if can_report_loading_error {
            r matches InitReport::LoadingError { message: m } && m@ == vstd::utf8::encode_utf8(
                message@,
            ).push(0u8)
        } else {
            r is Nothing
        },
{
    match error {
        InitError::VersionMismatch { api_type, want, got } => {
            if can_report_version_mismatch {
                let chars = chars_of(api_type.as_str());
                let text = nul_terminated(chars.as_slice());
                InitReport::VersionMismatch { api_type: text, want: *want, got: *got }
            } else {
                InitReport::Nothing
            }
        },
        InitError::Generic { message } => {
            if can_report_loading_error {
                let chars = chars_of(message.as_str());
                let text = nul_terminated(chars.as_slice());
                InitReport::LoadingError { message: text }
            } else {
                InitReport::Nothing
            }
        },
    }
}

/// What a panic carried, as far as it is reported: a text (a `String` or a `&str`), or
/// something else, described by the debug form of its type id.
pub enum PanicPayload {
    Text(String),
    Unknown(String),
}

/// The text logged for the payload of a panic.
pub open spec fn panic_text(payload: PanicPayload) -> Seq<char> {
    match payload {
        PanicPayload::Text(s) => "Panic message: "@ + s@,
        PanicPayload::Unknown(t) => "Panic message unknown, type "@ + t@,
    }
}

/// Renders the message logged for the payload of a panic.
pub fn panic_message(payload: &PanicPayload) -> (r: String)
    ensures
        r@ == panic_text(*payload),
{
    let mut text: Vec<char> = Vec::new();
    match payload {
        PanicPayload::Text(s) => {
            push_str(&mut text, "Panic message: ");
            push_str(&mut text, s.as_str());
        },
        PanicPayload::Unknown(t) => {
            push_str(&mut text, "Panic message unknown, type ");
            push_str(&mut text, t.as_str());
        },
    }
    string_of(text.as_slice())
}

/// The text logged when the callback named `context` panicked.
pub open spec fn callback_panicked_text(context: Seq<char>) -> Seq<char> {
    "gdnative-core: "@ + context + " callback panicked"@
}

/// Renders the message logged when the callback named `context` panicked.
pub fn callback_panicked_message(context: &str) -> (r: String)
    ensures
        r@ == callback_panicked_text(context@),
{
    let mut text: Vec<char> = Vec::new();
    push_str(&mut text, "gdnative-core: ");
    push_str(&mut text, context);
    push_str(&mut text, " callback panicked");
    string_of(text.as_slice())
}

} // verus!
