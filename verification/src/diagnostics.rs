//! Run-time checks that help debug the init process: whether the engine's version matches
//! the one the bindings were generated for, and whether classes that rely on automatic
//! registration were also registered by hand.
//!
//! The checks convey any issue found through human-readable warnings, while
//! programmatically providing only an overall indication of whether any problem was found.

use semver::{Version, VersionReq};
use vstd::prelude::*;

use crate::semver_bridge::{
    make_version, new_build_metadata, new_prerelease, parse_version_req, version_req_matches,
};
use crate::text::{chars_of, comma_joined, push_all, push_comma_joined, push_str, same_chars, string_of, string_views};

verus! {

/// What the engine reports of its version, as read from its version dictionary. An entry
/// that is missing or of the wrong type is `None`.
pub struct EngineVersionInfo {
    pub major: Option<u64>,
    pub minor: Option<u64>,
    pub patch: Option<u64>,
    /// `"stable"` for releases, otherwise the pre-release status, such as `"rc1"`.
    pub status: Option<String>,
    pub build: Option<String>,
    pub hash: Option<String>,
}

/// Outcome of comparing the engine's version with the supported one.
pub enum VersionCheck {
    /// The engine did not report a usable version.
    Unavailable,
    /// The engine's version is supported.
    Compatible,
    /// The engine's version, which is not supported.
    Incompatible(Version),
}

/// `true` for `0-9`, `A-Z` and `a-z`.
pub open spec fn is_ascii_alphanumeric(c: char) -> bool {
    ||| ('0' <= c && c <= '9')
    ||| ('A' <= c && c <= 'Z')
    ||| ('a' <= c && c <= 'z')
}

/// A character as it may stand in a pre-release or build identifier: ASCII letters and
/// digits stay, everything else becomes `-`.
pub open spec fn sanitized_char(c: char) -> char {
    if is_ascii_alphanumeric(c) {
        c
    } else {
        '-'
    }
}

/// [`sanitized_char`] applied to every character of `s`.
pub open spec fn sanitized(s: Seq<char>) -> Seq<char> {
    s.map_values(|c: char| sanitized_char(c))
}

/// The status the engine reports for releases.
pub open spec fn stable_status() -> Seq<char> {
    seq!['s', 't', 'a', 'b', 'l', 'e']
}

/// The pre-release text of the engine's version: empty for releases and when no status is
/// reported, otherwise the sanitized status.
pub open spec fn prerelease_text(info: EngineVersionInfo) -> Seq<char> {
    match info.status {
        None => Seq::empty(),
        Some(s) => if s@ == stable_status() {
            Seq::empty()
        } else {
            sanitized(s@)
        },
    }
}

/// The build metadata of the engine's version: the sanitized build name and the sanitized
/// hash, joined by a dot when both are reported.
pub open spec fn build_text(info: EngineVersionInfo) -> Seq<char> {
    match (info.build, info.hash) {
        (None, None) => Seq::empty(),
        (Some(b), None) => sanitized(b@),
        (None, Some(h)) => sanitized(h@),
        (Some(b), Some(h)) => sanitized(b@) + seq!['.'] + sanitized(h@),
    }
}

/// The reports that the version assembly handles: those that miss one of the three numbers
/// (no version is assembled, and the texts are not read), and those whose texts `semver`
/// accepts. Others (all three numbers, with an all-digit status with a leading zero, or an
/// empty build name or hash next to the other) make the version assembly panic.
pub open spec fn version_info_supported(info: EngineVersionInfo) -> bool {
    (info.major is Some && info.minor is Some && info.patch is Some) ==> {
        &&& crate::semver_bridge::valid_prerelease(prerelease_text(info))
        &&& crate::semver_bridge::valid_build_metadata(build_text(info))
    }
}

/// The engine's version: `None` when one of its three numbers is not reported.
pub open spec fn engine_version(info: EngineVersionInfo) -> Option<Version> {
    match (info.major, info.minor, info.patch) {
        (Some(major), Some(minor), Some(patch)) => Some(
            crate::semver_bridge::version_of(
                major,
                minor,
                patch,
                prerelease_text(info),
                build_text(info),
            ),
        ),
        _ => None,
    }
}

/// The Godot versions that these bindings support: `~3.5.1`, that is `3.5.x` releases
/// from `3.5.1` on.
pub open spec fn supported_engine(info: EngineVersionInfo) -> bool {
    &&& info.major == Some(3u64)
    &&& info.minor == Some(5u64)
    &&& info.patch matches Some(p) && p >= 1
    &&& prerelease_text(info).len() == 0
}

/// Sanitizes a character for use in a pre-release or build identifier.
pub fn sanitize_for_semver(s: char) -> (r: char)
    ensures
        r == sanitized_char(s),
        ('0' <= s && s <= '9') || ('A' <= s && s <= 'Z') || ('a' <= s && s <= 'z') ==> r == s,
        !(('0' <= s && s <= '9') || ('A' <= s && s <= 'Z') || ('a' <= s && s <= 'z')) ==> r
            == '-',
{
    if ('0' <= s && s <= '9') || ('A' <= s && s <= 'Z') || ('a' <= s && s <= 'z') {
        s
    } else {
        '-'
    }
}

/// Sanitizes every character of `s`.
pub fn sanitize_chars(s: &[char]) -> (r: Vec<char>)
    ensures
        r@ == sanitized(s@),
{
    let mut r: Vec<char> = Vec::new();
    let mut i: usize = 0;
    while i < s.len()
        invariant
            i <= s@.len(),
            r@ == sanitized(s@.subrange(0, i as int)),
        decreases s@.len() - i,
    {
        r.push(sanitize_for_semver(s[i]));
        i = i + 1;
        proof {
            assert(sanitized(s@.subrange(0, i as int)) =~= sanitized(
                s@.subrange(0, (i - 1) as int),
            ).push(sanitized_char(s@[i - 1])));
        }
    }
    proof {
        assert(s@.subrange(0, s@.len() as int) =~= s@);
    }
    r
}

fn pre_release_chars(info: &EngineVersionInfo) -> (r: Vec<char>)
    ensures
        r@ == prerelease_text(*info),
{
    match &info.status {
        None => Vec::new(),
        Some(s) => {
            let chars = chars_of(s.as_str());
            let stable = ['s', 't', 'a', 'b', 'l', 'e'];
            proof {
                assert(stable@ =~= stable_status());
            }
            if same_chars(chars.as_slice(), &stable) {
                Vec::new()
            } else {
                sanitize_chars(chars.as_slice())
            }
        },
    }
}

fn build_chars(info: &EngineVersionInfo) -> (r: Vec<char>)
    ensures
        r@ == build_text(*info),
{
    let mut build_metadata: Vec<char> = Vec::new();
    let mut sep = false;
    if let Some(build_name) = &info.build {
        let chars = chars_of(build_name.as_str());
        let clean = sanitize_chars(chars.as_slice());
        push_all(&mut build_metadata, clean.as_slice());
        sep = true;
    }
    if let Some(hash) = &info.hash {
        if sep {
            build_metadata.push('.');
        }
        let chars = chars_of(hash.as_str());
        let clean = sanitize_chars(chars.as_slice());
        push_all(&mut build_metadata, clean.as_slice());
    }
    proof {
        let pair = (info.build, info.hash);
        match pair {
            (None, None) => assert(build_metadata@ =~= build_text(*info)),
            (Some(b), None) => assert(build_metadata@ =~= build_text(*info)),
            (None, Some(h)) => assert(build_metadata@ =~= build_text(*info)),
            (Some(b), Some(h)) => assert(build_metadata@ =~= build_text(*info)),
        }
    }
    build_metadata
}

/// Assembles the engine's version from what the engine reports.
pub fn godot_version(info: &EngineVersionInfo) -> (r: Option<Version>)
    requires
        version_info_supported(*info),
    ensures
        r == engine_version(*info),
{
    let major = match info.major {
        Some(v) => v,
        None => return None,
    };
    let minor = match info.minor {
        Some(v) => v,
        None => return None,
    };
    let patch = match info.patch {
        Some(v) => v,
        None => return None,
    };
    let pre_text = crate::text::string_of(pre_release_chars(info).as_slice());
    let pre = match new_prerelease(pre_text.as_str()) {
        Ok(p) => p,
        Err(_) => return None,
    };
    let build_text = crate::text::string_of(build_chars(info).as_slice());
    let build = match new_build_metadata(build_text.as_str()) {
        Ok(b) => b,
        Err(_) => return None,
    };
    Some(make_version(major, minor, patch, pre, pre_text.as_str(), build, build_text.as_str()))
}

/// The requirement on the engine's version that these bindings were generated for.
pub fn required_godot_version() -> (r: VersionReq)
    ensures
        r == crate::semver_bridge::version_req_of(
            crate::semver_bridge::tilde_text(3u64, 5u64, 1u64),
        ),
{
    let text = "~3.5.1";
    proof {
        reveal_strlit("~3.5.1");
        assert(crate::text::decimal(3nat) =~= seq!['3']);
        assert(crate::text::decimal(5nat) =~= seq!['5']);
        assert(crate::text::decimal(1nat) =~= seq!['1']);
        assert(text@ =~= crate::semver_bridge::tilde_text(3u64, 5u64, 1u64));
    }
    parse_version_req(text).unwrap()
}

/// Compares the engine's version with the supported one, `~3.5.1`. When the library is
/// built for a custom engine (`custom_godot`), the check does not apply and passes.
pub fn check_godot_version_mismatch(info: Option<&EngineVersionInfo>, custom_godot: bool) -> (r:
    VersionCheck)
    requires
        !custom_godot ==> (info matches Some(i) ==> version_info_supported(*i)),
    ensures
        custom_godot ==> r is Compatible,
        !custom_godot && info is None ==> r is Unavailable,
        !custom_godot ==> (info matches Some(i) ==> match engine_version(*i) {
            None => r is Unavailable,
            Some(v) => if supported_engine(*i) {
                r is Compatible
            } else {
                r == VersionCheck::Incompatible(v)
            },
        }),
{
    if custom_godot {
        return VersionCheck::Compatible;
    }
    let info = match info {
        Some(i) => i,
        None => return VersionCheck::Unavailable,
    };
    let version = match godot_version(info) {
        Some(v) => v,
        None => return VersionCheck::Unavailable,
    };
    let version_req = required_godot_version();
    let req_text = "~3.5.1";
    proof {
        reveal_strlit("~3.5.1");
        assert(crate::text::decimal(3nat) =~= seq!['3']);
        assert(crate::text::decimal(5nat) =~= seq!['5']);
        assert(crate::text::decimal(1nat) =~= seq!['1']);
        assert(req_text@ =~= crate::semver_bridge::tilde_text(3u64, 5u64, 1u64));
    }
    let pre_text = crate::text::string_of(pre_release_chars(info).as_slice());
    let build_text = crate::text::string_of(build_chars(info).as_slice());
    let matched = version_req_matches(
        &version_req,
        req_text,
        &version,
        info.major.unwrap(),
        info.minor.unwrap(),
        info.patch.unwrap(),
        pre_text.as_str(),
        build_text.as_str(),
    );
    proof {
        let _ = crate::semver_bridge::tilde_text(3u64, 5u64, 1u64);
        assert(matched == supported_engine(*info));
    }
    if matched {
        VersionCheck::Compatible
    } else {
        VersionCheck::Incompatible(version)
    }
}

/// The text of the engine's version as `semver` displays it:
/// `{major}.{minor}.{patch}`, then `-{pre-release}` and `+{build}` where they are not empty.
pub open spec fn version_display(info: EngineVersionInfo) -> Seq<char> {
    crate::text::decimal(info.major->0 as nat) + "."@ + crate::text::decimal(info.minor->0 as nat)
        + "."@ + crate::text::decimal(info.patch->0 as nat) + (if prerelease_text(info).len()
        == 0 {
        Seq::empty()
    } else {
        "-"@ + prerelease_text(info)
    }) + (if build_text(info).len() == 0 {
        Seq::empty()
    } else {
        "+"@ + build_text(info)
    })
}

/// The warning given when the engine reports no usable version.
pub open spec fn version_unavailable_warning() -> Seq<char> {
    "gdnative-core: failed to get version info from the engine."@
}

/// The warning given when the engine's version, displayed as `version`, is not supported.
pub open spec fn incompatible_version_warning(version: Seq<char>) -> Seq<char> {
    "This godot-rust version is only compatible with Godot `~3.5.1`; detected version `"@
        + version + "`."@
}

/// The warning that closes any version mismatch.
pub open spec fn version_mismatch_note() -> Seq<char> {
    "gdnative-core: GDNative version mismatches may lead to subtle bugs, undefined behavior or crashes at runtime.\nApply the 'custom-godot' feature if you want to use current godot-rust with another Godot engine version."@
}

/// The warnings logged for the outcome of the version check of `info`.
pub open spec fn version_warnings(info: Option<EngineVersionInfo>) -> Seq<Seq<char>> {
    match info {
        Some(i) => if engine_version(i) is None {
            seq![version_unavailable_warning(), version_mismatch_note()]
        } else if supported_engine(i) {
            Seq::empty()
        } else {
            seq![incompatible_version_warning(version_display(i)), version_mismatch_note()]
        },
        None => seq![version_unavailable_warning(), version_mismatch_note()],
    }
}

/// Renders the engine's version as `semver` displays it.
fn version_display_chars(info: &EngineVersionInfo) -> (r: Vec<char>)
    requires
        info.major is Some,
        info.minor is Some,
        info.patch is Some,
    ensures
        r@ == version_display(*info),
{
    let mut text = crate::text::decimal_chars(info.major.unwrap());
    push_str(&mut text, ".");
    let minor = crate::text::decimal_chars(info.minor.unwrap());
    push_all(&mut text, minor.as_slice());
    push_str(&mut text, ".");
    let patch = crate::text::decimal_chars(info.patch.unwrap());
    push_all(&mut text, patch.as_slice());
    let pre = pre_release_chars(info);
    if pre.len() > 0 {
        push_str(&mut text, "-");
        push_all(&mut text, pre.as_slice());
    }
    let build = build_chars(info);
    if build.len() > 0 {
        push_str(&mut text, "+");
        push_all(&mut text, build.as_slice());
    }
    proof {
        assert(text@ =~= version_display(*info));
    }
    text
}

/// Checks the version number of the engine against the one the bindings were generated
/// for. Returns `true` if the test isn't applicable (the library is built for a custom
/// engine, `custom_godot`) or no mismatch was found, and `false` if the engine reports an
/// unsupported version or no usable version at all; then the warnings to log are appended
/// to `warnings`.
pub fn godot_version_mismatch(
    info: Option<&EngineVersionInfo>,
    custom_godot: bool,
    warnings: &mut Vec<String>,
) -> (r: bool)
    requires
        !custom_godot ==> (info matches Some(i) ==> version_info_supported(*i)),
    ensures
        r <==> (custom_godot || (info matches Some(i) && engine_version(*i) is Some
            && supported_engine(*i))),
        custom_godot ==> final(warnings)@ == old(warnings)@,
        !custom_godot ==> string_views(final(warnings)@) == string_views(old(warnings)@)
            + version_warnings(
            match info {
                Some(i) => Some(*i),
                None => None,
            },
        ),
{
    if custom_godot {
        return true;
    }
    let ghost before = warnings@;
    let ghost info_value = match info {
        Some(i) => Some(*i),
        None => None::<EngineVersionInfo>,
    };
    let check = check_godot_version_mismatch(info, false);
    match check {
        VersionCheck::Compatible => {
            proof {
                assert(string_views(warnings@) =~= string_views(before) + version_warnings(
                    info_value,
                ));
            }
            return true;
        },
        VersionCheck::Unavailable => {
            let mut text: Vec<char> = Vec::new();
            push_str(&mut text, "gdnative-core: failed to get version info from the engine.");
            warnings.push(string_of(text.as_slice()));
        },
        VersionCheck::Incompatible(_) => {
            let i = info.unwrap();
            let mut text: Vec<char> = Vec::new();
            push_str(
                &mut text,
                "This godot-rust version is only compatible with Godot `~3.5.1`; detected version `",
            );
            let shown = version_display_chars(i);
            push_all(&mut text, shown.as_slice());
            push_str(&mut text, "`.");
            warnings.push(string_of(text.as_slice()));
        },
    }
    let mut note: Vec<char> = Vec::new();
    push_str(&mut note, "gdnative-core: GDNative version mismatches may lead to subtle bugs, undefined behavior or crashes at runtime.\nApply the 'custom-godot' feature if you want to use current godot-rust with another Godot engine version.");
    warnings.push(string_of(note.as_slice()));
    proof {
        assert(string_views(warnings@) =~= string_views(before) + version_warnings(info_value));
    }
    false
}

/// How the library was built and what the platform offers for class registration.
pub struct RegistrationSupport {
    /// The library was built with automatic registration (the `inventory` feature).
    pub inventory: bool,
    /// The platform supports automatic registration.
    pub platform_available: bool,
    /// The library was built with debug assertions.
    pub debug_assertions: bool,
}

/// State the registration diagnostics share: whether [`missing_manual_registration`] has
/// been run.
pub struct DiagnosticsState {
    checked: bool,
}

impl DiagnosticsState {
    /// Whether [`missing_manual_registration`] has been run.
    pub closed spec fn manual_registration_checked(self) -> bool {
        self.checked
    }

    /// The state before any diagnostic has run.
    pub fn new() -> (r: Self)
        ensures
            !r.manual_registration_checked(),
    {
        DiagnosticsState { checked: false }
    }

    /// Whether [`missing_manual_registration`] has been run.
    pub fn is_checked(&self) -> (r: bool)
        ensures
            r == self.manual_registration_checked(),
    {
        self.checked
    }
}

/// The warning given after the list of classes that are not registered by hand.
pub open spec fn unavailable_types_note() -> Seq<char> {
    "gdnative-core: Types that are not manually registered will not be available on platforms where automatic registration is unavailable."@
}

/// The warning given when the suggested check for classes that are not registered by hand
/// was not run on a platform without automatic registration.
pub open spec fn manual_registration_suggestion() -> Seq<char> {
    "gdnative-core: `gdnative` was compiled with the `inventory` feature, but the current platform does not support automatic registration. As such, only manually registered types will be available.\nCall `gdnative::init::diagnostics::missing_manual_registration()` at the end your init callback to suppress this message."@
}

/// Checks for classes that are registered automatically, but not manually. `unregistered`
/// names those classes. Returns `true` if the test isn't applicable (automatic
/// registration is not built in or not available), or if no such class was found. Where
/// such classes were found, the two warnings to log are appended to `warnings`.
///
/// Some platforms may not support automatic registration. On such platforms, only
/// manually registered classes are visible at run-time.
pub fn missing_manual_registration(
    state: &mut DiagnosticsState,
    support: &RegistrationSupport,
    unregistered: &[String],
    warnings: &mut Vec<String>,
) -> (r: bool)
    ensures
        final(state).manual_registration_checked(),
        r <==> !(support.inventory && support.platform_available && unregistered@.len() > 0),
        r ==> final(warnings)@ == old(warnings)@,
        !r ==> string_views(final(warnings)@) == string_views(old(warnings)@).push(
            unregistered_message(string_views(unregistered@)),
        ).push(unavailable_types_note()),
{
    state.checked = true;
    if support.inventory && support.platform_available && unregistered.len() > 0 {
        let ghost before = warnings@;
        warnings.push(unregistered_warning(unregistered));
        let mut note: Vec<char> = Vec::new();
        push_str(&mut note, "gdnative-core: Types that are not manually registered will not be available on platforms where automatic registration is unavailable.");
        warnings.push(string_of(note.as_slice()));
        proof {
            assert(string_views(warnings@) =~= string_views(before).push(
                unregistered_message(string_views(unregistered@)),
            ).push(unavailable_types_note()));
        }
        false
    } else {
        true
    }
}

/// Checks if all suggested diagnostics have been run, depending on the current platform, at
/// the point of invocation. Returns `true` in a release build, or if no such diagnostic was
/// missed: only where automatic registration is built in but the platform lacks it is
/// [`missing_manual_registration`] suggested. Where it was missed, the warning to log is
/// appended to `warnings`.
pub fn missing_suggested_diagnostics(
    state: &DiagnosticsState,
    support: &RegistrationSupport,
    warnings: &mut Vec<String>,
) -> (r: bool)
    ensures
        r <==> (!support.debug_assertions || !support.inventory || support.platform_available
            || state.manual_registration_checked()),
        r ==> final(warnings)@ == old(warnings)@,
        !r ==> string_views(final(warnings)@) == string_views(old(warnings)@).push(
            manual_registration_suggestion(),
        ),
{
    if support.debug_assertions && support.inventory && !support.platform_available
        && !state.checked {
        let ghost before = warnings@;
        let mut text: Vec<char> = Vec::new();
        push_str(&mut text, "gdnative-core: `gdnative` was compiled with the `inventory` feature, but the current platform does not support automatic registration. As such, only manually registered types will be available.\nCall `gdnative::init::diagnostics::missing_manual_registration()` at the end your init callback to suppress this message.");
        warnings.push(string_of(text.as_slice()));
        proof {
            assert(string_views(warnings@) =~= string_views(before).push(
                manual_registration_suggestion(),
            ));
        }
        false
    } else {
        true
    }
}

/// The text of the warning about classes that are not registered by hand.
pub open spec fn unregistered_message(names: Seq<Seq<char>>) -> Seq<char> {
    seq!['g', 'd', 'n', 'a', 't', 'i', 'v', 'e', '-', 'c', 'o', 'r', 'e', ':', ' ']
        + crate::text::decimal(names.len())
        + seq![' ', 'N', 'a', 't', 'i', 'v', 'e', 'S', 'c', 'r', 'i', 'p', 't', '(', 's', ')', ' ']
        + seq!['a', 'r', 'e', ' ', 'n', 'o', 't', ' ', 'm', 'a', 'n', 'u', 'a', 'l', 'l', 'y', ' ']
        + seq!['r', 'e', 'g', 'i', 's', 't', 'e', 'r', 'e', 'd', ':', ' '] + comma_joined(names)
}

/// Builds the warning that [`missing_manual_registration`] gives for the classes in
/// `unregistered`, such as `gdnative-core: 2 NativeScript(s) are not manually registered:
/// Foo, Bar`.
pub fn unregistered_warning(unregistered: &[String]) -> (r: String)
    ensures
        r@ == unregistered_message(string_views(unregistered@)),
{
    let head = "gdnative-core: ";
    let middle = " NativeScript(s) are not manually registered: ";
    proof {
        reveal_strlit("gdnative-core: ");
        reveal_strlit(" NativeScript(s) are not manually registered: ");
    }
    let mut message = chars_of(head);
    let count = crate::text::decimal_chars(unregistered.len() as u64);
    push_all(&mut message, count.as_slice());
    let middle_chars = chars_of(middle);
    push_all(&mut message, middle_chars.as_slice());
    push_comma_joined(&mut message, unregistered);
    proof {
        assert(message@ =~= unregistered_message(string_views(unregistered@)));
    }
    crate::text::string_of(message.as_slice())
}

} // verus!
