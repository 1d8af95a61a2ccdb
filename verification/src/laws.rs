//! Laws that tie the operations of the library together, stated over the models that the
//! operations' contracts use.

use std::cmp::Ordering;
use vstd::prelude::*;
use vstd::std_specs::cmp::PartialOrdSpec;

use crate::api::{unsupported_entry, ApiStruct, ApiVersion, GDNATIVE_API_TYPE_CORE};
use crate::diagnostics::{is_ascii_alphanumeric, sanitized, sanitized_char};
use crate::method::{conversion_outcome, required_outcome, ArgumentError};
use crate::profiler::{has_double_colon, has_nul, has_zero_byte, signature_text};
use crate::rid::Rid;
use crate::semver_bridge::{is_identifier_char, valid_build_metadata};
use crate::typed_array::{inserted, resized};

verus! {

/// Inserting an element into a pool array at a valid offset puts it at that offset, and
/// removing the element at that offset afterwards gives back the array as it was.
pub proof fn law_insert_then_remove<A>(s: Seq<A>, offset: int, x: A)
    requires
        0 <= offset <= s.len(),
    ensures
        inserted(s, offset, x).len() == s.len() + 1,
        inserted(s, offset, x)[offset] == x,
        inserted(s, offset, x).remove(offset) == s,
{
    assert(inserted(s, offset, x).remove(offset) =~= s);
}

/// Inverting a pool array twice gives back the array.
pub proof fn law_invert_twice<A>(s: Seq<A>)
    ensures
        s.reverse().reverse() == s,
{
    assert(s.reverse().reverse() =~= s);
}

/// Setting an element of a pool array and reading it back gives the element; the other
/// elements and the length stay as they were.
pub proof fn law_set_then_get<A>(s: Seq<A>, idx: int, x: A)
    requires
        0 <= idx < s.len(),
    ensures
        s.update(idx, x).len() == s.len(),
        s.update(idx, x)[idx] == x,
        forall|j: int| 0 <= j < s.len() && j != idx ==> #[trigger] s.update(idx, x)[j] == s[j],
{
}

/// Pushing an element onto a pool array puts it last and keeps the elements before it.
pub proof fn law_push_then_get<A>(s: Seq<A>, x: A)
    ensures
        s.push(x).len() == s.len() + 1,
        s.push(x)[s.len() as int] == x,
        s.push(x).subrange(0, s.len() as int) == s,
{
    assert(s.push(x).subrange(0, s.len() as int) =~= s);
}

/// Resizing a pool array to its own length changes nothing; growing it fills the new tail
/// with the default, and shrinking it back gives back the array.
pub proof fn law_resize_round_trip<A>(s: Seq<A>, n: nat, fill: A)
    requires
        n >= s.len(),
    ensures
        resized(s, s.len(), fill) == s,
        resized(s, n, fill).len() == n,
        forall|j: int| s.len() <= j < n ==> #[trigger] resized(s, n, fill)[j] == fill,
        resized(resized(s, n, fill), s.len(), fill) == s,
{
    assert(resized(s, s.len(), fill) =~= s);
    assert(resized(resized(s, n, fill), s.len(), fill) =~= s);
}

/// Sanitizing text for a version identifier keeps its length, leaves only ASCII letters,
/// digits and `-`, and changes nothing when done twice; when it is not empty, the result is
/// always accepted as build metadata.
pub proof fn law_sanitize(s: Seq<char>)
    ensures
        sanitized(s).len() == s.len(),
        forall|i: int| 0 <= i < s.len() ==> is_identifier_char(#[trigger] sanitized(s)[i]),
        sanitized(sanitized(s)) == sanitized(s),
        s.len() > 0 ==> valid_build_metadata(sanitized(s)),
{
    assert forall|i: int| 0 <= i < s.len() implies is_identifier_char(
        #[trigger] sanitized(s)[i],
    ) by {
        let c = s[i];
        if is_ascii_alphanumeric(c) {
        } else {
        }
    }
    assert(sanitized(sanitized(s)) =~= sanitized(s)) by {
        assert forall|i: int| 0 <= i < s.len() implies #[trigger] sanitized(sanitized(s))[i]
            == sanitized(s)[i] by {
            let c = s[i];
            assert(sanitized_char(sanitized_char(c)) == sanitized_char(c));
        }
    }
}

/// The text of a string survives its trip through UTF-8: two texts with the same UTF-8
/// bytes are the same text, so reading back the bytes of a string gives the string.
pub proof fn law_utf8_round_trip(s: Seq<char>, t: Seq<char>)
    requires
        vstd::utf8::encode_utf8(t) == vstd::utf8::encode_utf8(s),
    ensures
        t == s,
{
    vstd::utf8::encode_utf8_decode_utf8(s);
    vstd::utf8::encode_utf8_decode_utf8(t);
}

/// The two init levels together are all levels; a union of levels contains each of them,
/// an intersection is contained in each of them, and both are the same in either order.
pub proof fn law_init_levels(a: u8, b: u8)
    requires
        a <= 3,
        b <= 3,
    ensures
        (1u8 | 2u8) == 3u8,
        (a | b) == (b | a),
        (a & b) == (b & a),
        ((a | b) & a) == a,
        ((a | b) & b) == b,
        (a & (a & b)) == (a & b),
        (b & (a & b)) == (a & b),
        (a | b) <= 3,
{
    assert((1u8 | 2u8) == 3u8) by (bit_vector);
    assert((a | b) == (b | a)) by (bit_vector);
    assert((a & b) == (b & a)) by (bit_vector);
    assert(((a | b) & a) == a) by (bit_vector);
    assert(((a | b) & b) == b) by (bit_vector);
    assert((a & (a & b)) == (a & b)) by (bit_vector);
    assert((b & (a & b)) == (a & b)) by (bit_vector);
    assert(a <= 3 && b <= 3 ==> (a | b) <= 3) by (bit_vector);
}

/// The bytes of every signature made from valid parts are accepted when they are taken
/// back as raw signature bytes: they end with the only NUL byte they hold.
pub proof fn law_signature_bytes_accepted(file: Seq<char>, line: u32, tag: Seq<char>)
    requires
        !has_double_colon(file),
        !has_double_colon(tag),
        !has_nul(file),
        !has_nul(tag),
    ensures
        ({
            let b = vstd::utf8::encode_utf8(signature_text(file, line, tag)).push(0u8);
            &&& b.len() > 0
            &&& b.last() == 0
            &&& !has_zero_byte(b.drop_last())
        }),
{
    let text = signature_text(file, line, tag);
    crate::profiler::lemma_no_nul_digits(line as nat);
    assert(!has_nul(text)) by {
        let d = crate::text::decimal(line as nat);
        assert forall|i: int| 0 <= i < text.len() implies text[i] != '\0' by {
            if i < file.len() {
                assert(text[i] == file[i]);
            } else if i < file.len() + 2 {
            } else if i < file.len() + 2 + d.len() {
                assert(text[i] == d[i - file.len() - 2]);
            } else if i < file.len() + 4 + d.len() {
            } else {
                assert(text[i] == tag[i - file.len() - 4 - d.len()]);
            }
        }
    }
    crate::profiler::lemma_no_zero_byte(text);
    let b = vstd::utf8::encode_utf8(text).push(0u8);
    assert(b.drop_last() =~= vstd::utf8::encode_utf8(text));
}

/// A new type tag checks true against exactly the key it was made for, and the tags made
/// before it keep checking as they did.
pub proof fn law_type_tags(tags: Seq<u64>, key: u64, other: u64, earlier: int)
    ensures
        (tags.push(key)[tags.len() as int] == other) <==> key == other,
        0 <= earlier < tags.len() ==> tags.push(key)[earlier] == tags[earlier],
{
}

/// Resource ids are ordered by their handles: one orders before another exactly when its
/// handle is smaller, and no two ids compare as equal.
pub proof fn law_rid_order(a: Rid, b: Rid)
    ensures
        Rid::obeys_partial_cmp_spec(),
        a.partial_cmp_spec(&b) == Some(Ordering::Less) <==> a.raw().handle < b.raw().handle,
        a.partial_cmp_spec(&b) != Some(Ordering::Equal),
        a.partial_cmp_spec(&b) is Some,
{
}


/// The value of a text of decimal digits, read in base 10.
pub open spec fn decimal_value(s: Seq<char>) -> int
    decreases s.len(),
{
    if s.len() == 0 {
        0
    } else {
        10 * decimal_value(s.drop_last()) + (s.last() as int - '0' as int)
    }
}

proof fn lemma_digit_char_value(d: nat)
    requires
        d < 10,
    ensures
        crate::text::is_digit(crate::text::digit_char(d)),
        crate::text::digit_char(d) as int - '0' as int == d,
{
}

/// The decimal rendering of a number, as it stands in messages and profiler signatures, is
/// the standard one: made of digits, without a leading zero, and reading it back in base
/// 10 gives the number.
pub proof fn law_decimal_reads_back(n: nat)
    ensures
        crate::text::decimal(n).len() >= 1,
        forall|i: int|
            0 <= i < crate::text::decimal(n).len() ==> crate::text::is_digit(
                #[trigger] crate::text::decimal(n)[i],
            ),
        n > 0 ==> crate::text::decimal(n)[0] != '0',
        decimal_value(crate::text::decimal(n)) == n,
    decreases n,
{
    let d = crate::text::decimal(n);
    if n < 10 {
        lemma_digit_char_value(n);
        assert(d.drop_last() =~= Seq::<char>::empty());
        assert(decimal_value(d.drop_last()) == 0);
        assert(decimal_value(d) == 10 * decimal_value(d.drop_last()) + (d.last() as int - '0' as int));
    } else {
        law_decimal_reads_back(n / 10);
        lemma_digit_char_value(n % 10);
        let prefix = crate::text::decimal(n / 10);
        assert(d.drop_last() =~= prefix);
        assert(d.last() == crate::text::digit_char(n % 10));
        assert forall|i: int| 0 <= i < d.len() implies crate::text::is_digit(#[trigger] d[i]) by {
            if i < prefix.len() {
                assert(d[i] == prefix[i]);
            }
        }
        assert(d[0] == prefix[0]);
        assert(decimal_value(d) == 10 * decimal_value(d.drop_last()) + (d.last() as int - '0' as int));
        assert(n == 10 * (n / 10) + n % 10);
    }
}

/// The line number in a profiler signature reads back to the given line: the text between
/// the two `::` separators is the decimal rendering of the line, which reads back to it.
pub proof fn law_signature_line_reads_back(file: Seq<char>, line: u32, tag: Seq<char>)
    ensures
        ({
            let text = signature_text(file, line, tag);
            let digits = text.subrange(
                file.len() + 2int,
                text.len() - tag.len() - 2,
            );
            &&& text.subrange(0, file.len() as int) == file
            &&& text.subrange(text.len() - tag.len(), text.len() as int) == tag
            &&& decimal_value(digits) == line
            &&& (line > 0 ==> digits[0] != '0')
        }),
{
    law_decimal_reads_back(line as nat);
    let text = signature_text(file, line, tag);
    let d = crate::text::decimal(line as nat);
    assert(text.subrange(file.len() + 2int, text.len() - tag.len() - 2) =~= d);
    assert(text.subrange(0, file.len() as int) =~= file);
    assert(text.subrange(text.len() - tag.len(), text.len() as int) =~= tag);
}

/// Reading an argument that is present gives the converted value exactly when the
/// conversion succeeds; a failed conversion gives the error that carries the argument's
/// position, name, type name, value and the conversion's error, and never a value or an
/// absent argument.
pub proof fn law_conversion_failure_is_an_error<'r, V, T, E>(
    res: Result<T, E>,
    idx: usize,
    name: Option<&'r str>,
    ty: Option<&'r str>,
    value: &'r V,
)
    ensures
        conversion_outcome(res, idx, name, ty, value) is Ok <==> res is Ok,
        required_outcome(res, idx, name, ty, value) is Ok <==> res is Ok,
        res matches Ok(v) ==> conversion_outcome(res, idx, name, ty, value) == Ok::<
            Option<T>,
            ArgumentError<'r, V, E>,
        >(Some(v)),
        res matches Err(err) ==> conversion_outcome(res, idx, name, ty, value) == Err::<
            Option<T>,
            ArgumentError<'r, V, E>,
        >(ArgumentError::CannotConvert { idx, name, ty, value, err }),
        res matches Err(err) ==> required_outcome(res, idx, name, ty, value) == Err::<
            T,
            ArgumentError<'r, V, E>,
        >(ArgumentError::CannotConvert { idx, name, ty, value, err }),
{
}

/// The API check looks at the type and major version of each entry only: a core API of
/// major version 1 is accepted whatever its minor version, a core API of any other major
/// version is refused, and an API of another type is accepted whatever its version.
pub proof fn law_api_minor_plays_no_part(api_type: u32, major: u32, minor: u32, other_minor: u32)
    ensures
        unsupported_entry(ApiStruct { api_type, version: ApiVersion { major, minor } })
            == unsupported_entry(
            ApiStruct { api_type, version: ApiVersion { major, minor: other_minor } },
        ),
        !unsupported_entry(
            ApiStruct { api_type: GDNATIVE_API_TYPE_CORE, version: ApiVersion { major: 1, minor } },
        ),
        major != 1 ==> unsupported_entry(
            ApiStruct { api_type: GDNATIVE_API_TYPE_CORE, version: ApiVersion { major, minor } },
        ),
        api_type != GDNATIVE_API_TYPE_CORE ==> !unsupported_entry(
            ApiStruct { api_type, version: ApiVersion { major, minor } },
        ),
{
}

/// Sanitizing for a version identifier keeps every ASCII digit `0` to `9` and every ASCII
/// letter, and turns every other character into `-`.
pub proof fn law_sanitize_keeps_ascii_alphanumerics(c: char)
    ensures
        ('0' <= c && c <= '9') ==> sanitized_char(c) == c,
        ('A' <= c && c <= 'Z') ==> sanitized_char(c) == c,
        ('a' <= c && c <= 'z') ==> sanitized_char(c) == c,
        !(('0' <= c && c <= '9') || ('A' <= c && c <= 'Z') || ('a' <= c && c <= 'z'))
            ==> sanitized_char(c) == '-',
        sanitized_char('0') == '0',
        sanitized_char('9') == '9',
{
}

} // verus!
