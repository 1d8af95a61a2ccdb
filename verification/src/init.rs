//! Global initialization and termination of the library: what the engine tells the
//! library when it loads and unloads it, and the levels at which classes are registered.

use vstd::prelude::*;

use crate::string::GodotString;

verus! {

/// Context for the engine's initialization callback.
pub struct InitializeInfo {
    in_editor: bool,
    active_library_path: GodotString,
    reports_loading_errors: bool,
}

/// Context for the engine's termination callback.
pub struct TerminateInfo {
    in_editor: bool,
}

/// Marker trait that the `callbacks` attribute implements for the type that declares the
/// library's callbacks.
pub trait TheGDNativeCallbacksAttributeIsRequired {}

impl InitializeInfo {
    /// Whether the library is loaded in the editor.
    pub closed spec fn spec_in_editor(self) -> bool {
        self.in_editor
    }

    /// The path of the library relative to the project.
    pub closed spec fn library_path(self) -> Seq<char> {
        self.active_library_path@
    }

    /// Whether the engine gave a way to report loading errors.
    pub closed spec fn can_report_loading_errors(self) -> bool {
        self.reports_loading_errors
    }

    /// Builds the context from what the engine's init options hold.
    pub fn new(in_editor: bool, active_library_path: GodotString, reports_loading_errors: bool) -> (r: Self)
        ensures
            r.spec_in_editor() == in_editor,
            r.library_path() == active_library_path@,
            r.can_report_loading_errors() == reports_loading_errors,
    {
        InitializeInfo { in_editor, active_library_path, reports_loading_errors }
    }

    /// Returns `true` if the library is loaded in the Godot Editor.
    pub fn in_editor(&self) -> (r: bool)
        ensures
            r == self.spec_in_editor(),
    {
        self.in_editor
    }

    /// Returns a path to the library relative to the project.
    ///
    /// Example: `res://../../target/debug/libhello_world.dylib`
    pub fn active_library_path(&self) -> (r: &GodotString)
        ensures
            r@ == self.library_path(),
    {
        &self.active_library_path
    }

    /// The NUL-terminated message to hand to the engine's loading error reporter, or `None`
    /// when the engine gave no reporter.
    ///
    /// Where a reporter is given, the message must not contain a NUL character: it could not
    /// be handed over as a C string.
    pub fn report_loading_error(&self, message: &str) -> (r: Option<Vec<u8>>)
        requires
            self.can_report_loading_errors() ==> !crate::profiler::has_nul(message@),
        ensures
            r is Some <==> self.can_report_loading_errors(),
            r matches Some(bytes) ==> bytes@ == vstd::utf8::encode_utf8(message@).push(0),
    {
        if self.reports_loading_errors {
            let text = crate::text::chars_of(message);
            Some(crate::profiler::nul_terminated(text.as_slice()))
        } else {
            None
        }
    }
}

impl TerminateInfo {
    /// Whether the library is loaded in the editor.
    pub closed spec fn spec_in_editor(self) -> bool {
        self.in_editor
    }

    /// Builds the context from what the engine's terminate options hold.
    pub fn new(in_editor: bool) -> (r: Self)
        ensures
            r.spec_in_editor() == in_editor,
    {
        TerminateInfo { in_editor }
    }

    /// Returns `true` if the library is loaded in the Godot Editor.
    pub fn in_editor(&self) -> (r: bool)
        ensures
            r == self.spec_in_editor(),
    {
        self.in_editor
    }
}

/// Initialization level used to distinguish the source of init actions, such as class
/// registration: a set of the flags `AUTO` (automatic registration) and `USER` (user code).
#[derive(Clone, Copy, Debug, PartialEq, Eq, Structural)]
pub struct InitLevel {
    bits: u8,
}

impl InitLevel {
    #[verifier::type_invariant]
    spec fn inv(self) -> bool {
        self.bits <= 3
    }

    /// The bits of the set.
    pub closed spec fn spec_bits(self) -> u8 {
        self.bits
    }

    /// Init level for automatic registration.
    pub fn auto() -> (r: Self)
        ensures
            r.spec_bits() == 1,
    {
        InitLevel { bits: 1 }
    }

    /// Init level for user code.
    pub fn user() -> (r: Self)
        ensures
            r.spec_bits() == 2,
    {
        InitLevel { bits: 2 }
    }

    /// The empty set.
    pub fn empty() -> (r: Self)
        ensures
            r.spec_bits() == 0,
    {
        InitLevel { bits: 0 }
    }

    /// Both levels.
    pub fn all() -> (r: Self)
        ensures
            r.spec_bits() == 3,
    {
        InitLevel { bits: 3 }
    }

    /// The bits of the set.
    pub fn bits(&self) -> (r: u8)
        ensures
            r == self.spec_bits(),
            r <= 3,
    {
        proof {
            use_type_invariant(self);
        }
        self.bits
    }

    /// The set with the given bits, or `None` if a bit other than those of `AUTO` and
    /// `USER` is set.
    pub fn from_bits(bits: u8) -> (r: Option<Self>)
        ensures
            r is Some <==> bits <= 3,
            r matches Some(l) ==> l.spec_bits() == bits,
    {
        if bits <= 3 {
            Some(InitLevel { bits })
        } else {
            None
        }
    }

    /// The set with the bits of `AUTO` and `USER` that `bits` holds; other bits are dropped.
    pub fn from_bits_truncate(bits: u8) -> (r: Self)
        ensures
            r.spec_bits() == bits % 4,
    {
        assert((bits & 3) == bits % 4) by (bit_vector);
        assert((bits & 3) <= 3) by (bit_vector);
        InitLevel { bits: bits & 3 }
    }

    /// Returns `true` if the set holds no level.
    pub fn is_empty(&self) -> (r: bool)
        ensures
            r == (self.spec_bits() == 0),
    {
        self.bits == 0
    }

    /// Returns `true` if every level of `other` is in the set.
    pub fn contains(&self, other: Self) -> (r: bool)
        ensures
            r == (self.spec_bits() & other.spec_bits() == other.spec_bits()),
    {
        self.bits & other.bits == other.bits
    }

    /// Returns `true` if the set shares a level with `other`.
    pub fn intersects(&self, other: Self) -> (r: bool)
        ensures
            r == (self.spec_bits() & other.spec_bits() != 0),
    {
        self.bits & other.bits != 0
    }

    /// The levels in either set.
    pub fn union(self, other: Self) -> (r: Self)
        ensures
            r.spec_bits() == self.spec_bits() | other.spec_bits(),
    {
        proof {
            use_type_invariant(&self);
            use_type_invariant(&other);
        }
        let (a, b) = (self.bits, other.bits);
        assert(a <= 3 && b <= 3 ==> (a | b) <= 3) by (bit_vector);
        InitLevel { bits: a | b }
    }

    /// The levels in both sets.
    pub fn intersection(self, other: Self) -> (r: Self)
        ensures
            r.spec_bits() == self.spec_bits() & other.spec_bits(),
    {
        proof {
            use_type_invariant(&self);
        }
        let (a, b) = (self.bits, other.bits);
        assert(a <= 3 ==> (a & b) <= 3) by (bit_vector);
        InitLevel { bits: a & b }
    }
}


/// A set of init levels is determined by its bits: giving the bits of a set back to
/// [`InitLevel::from_bits`] gives the same set.
pub proof fn law_init_level_bits(a: InitLevel, b: InitLevel)
    ensures
        a.spec_bits() == b.spec_bits() ==> a == b,
{
}

} // verus!
