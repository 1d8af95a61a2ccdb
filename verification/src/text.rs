//! Text helpers shared by the message and signature builders: decimal rendering of
//! integers, and turning character sequences into strings.

use vstd::prelude::*;

verus! {

/// The character of a decimal digit.
pub open spec fn digit_char(d: nat) -> char
    recommends
        d < 10,
{
    if d == 0 {
        '0'
    } else if d == 1 {
        '1'
    } else if d == 2 {
        '2'
    } else if d == 3 {
        '3'
    } else if d == 4 {
        '4'
    } else if d == 5 {
        '5'
    } else if d == 6 {
        '6'
    } else if d == 7 {
        '7'
    } else if d == 8 {
        '8'
    } else {
        '9'
    }
}

/// The decimal rendering of `n`, without sign or leading zeros, as `{}` prints it.
pub open spec fn decimal(n: nat) -> Seq<char>
    decreases n,
{
    if n < 10 {
        seq![digit_char(n)]
    } else {
        decimal(n / 10).push(digit_char(n % 10))
    }
}

/// `true` if `c` is one of `0` to `9`.
pub open spec fn is_digit(c: char) -> bool {
    '0' <= c && c <= '9'
}

fn digit(d: u64) -> (c: char)
    requires
        d < 10,
    ensures
        c == digit_char(d as nat),
{
    if d == 0 {
        '0'
    } else if d == 1 {
        '1'
    } else if d == 2 {
        '2'
    } else if d == 3 {
        '3'
    } else if d == 4 {
        '4'
    } else if d == 5 {
        '5'
    } else if d == 6 {
        '6'
    } else if d == 7 {
        '7'
    } else if d == 8 {
        '8'
    } else {
        '9'
    }
}

/// Renders `n` in decimal.
pub fn decimal_chars(n: u64) -> (r: Vec<char>)
    ensures
        r@ == decimal(n as nat),
        crate::laws::decimal_value(r@) == n,
        n > 0 ==> r@[0] != '0',
    decreases n,
{
    proof {
        crate::laws::law_decimal_reads_back(n as nat);
    }
    if n < 10 {
        let mut v = Vec::new();
        v.push(digit(n));
        v
    } else {
        let mut v = decimal_chars(n / 10);
        v.push(digit(n % 10));
        v
    }
}

/// Appends the characters of `tail` to `head`.
pub fn push_all(head: &mut Vec<char>, tail: &[char])
    ensures
        final(head)@ == old(head)@ + tail@,
{
    let mut i: usize = 0;
    while i < tail.len()
        invariant
            i <= tail@.len(),
            head@ == old(head)@ + tail@.subrange(0, i as int),
        decreases tail@.len() - i,
    {
        head.push(tail[i]);
        i = i + 1;
        proof {
            assert(tail@.subrange(0, i as int) =~= tail@.subrange(0, (i - 1) as int).push(
                tail@[i - 1],
            ));
        }
    }
    proof {
        assert(tail@.subrange(0, tail@.len() as int) =~= tail@);
    }
}

/// Appends the characters of the string `tail` to `head`.
pub fn push_str(head: &mut Vec<char>, tail: &str)
    ensures
        final(head)@ == old(head)@ + tail@,
{
    let chars = chars_of(tail);
    push_all(head, chars.as_slice());
}

/// The texts, separated by `", "`, as a list is rendered between its brackets.
pub open spec fn comma_joined(items: Seq<Seq<char>>) -> Seq<char>
    decreases items.len(),
{
    if items.len() == 0 {
        Seq::empty()
    } else if items.len() == 1 {
        items[0]
    } else {
        comma_joined(items.drop_last()) + seq![',', ' '] + items.last()
    }
}

/// The views of the strings.
pub open spec fn string_views(items: Seq<String>) -> Seq<Seq<char>> {
    items.map_values(|s: String| s@)
}

/// Appends the strings of `items` to `head`, separated by `", "`.
pub fn push_comma_joined(head: &mut Vec<char>, items: &[String])
    ensures
        final(head)@ == old(head)@ + comma_joined(string_views(items@)),
{
    let ghost prefix = head@;
    let mut i: usize = 0;
    while i < items.len()
        invariant
            i <= items@.len(),
            head@ == prefix + comma_joined(string_views(items@.subrange(0, i as int))),
        decreases items@.len() - i,
    {
        if i > 0 {
            head.push(',');
            head.push(' ');
        }
        push_str(head, items[i].as_str());
        i = i + 1;
        proof {
            let now = string_views(items@.subrange(0, i as int));
            let prev = string_views(items@.subrange(0, (i - 1) as int));
            assert(now.drop_last() =~= prev);
            assert(now.last() == items@[i - 1]@);
            if i == 1 {
                assert(prev =~= Seq::<Seq<char>>::empty());
            }
            assert(head@ =~= prefix + comma_joined(now));
        }
    }
    proof {
        assert(items@.subrange(0, items@.len() as int) =~= items@);
    }
}

/// `true` if the two character sequences are the same.
pub fn same_chars(a: &[char], b: &[char]) -> (r: bool)
    ensures
        r == (a@ == b@),
{
    if a.len() != b.len() {
        return false;
    }
    let mut i: usize = 0;
    while i < a.len()
        invariant
            i <= a@.len(),
            a@.len() == b@.len(),
            forall|j: int| 0 <= j < i ==> a@[j] == b@[j],
        decreases a@.len() - i,
    {
        if a[i] != b[i] {
            return false;
        }
        i = i + 1;
    }
    proof {
        assert(a@ =~= b@);
    }
    true
}

/// The characters of a string.
#[verifier::external_body]
pub(crate) fn chars_of(s: &str) -> (r: Vec<char>)
    ensures
        r@ == s@,
{
    s.chars().collect()
}

/// The string made of the given characters.
#[verifier::external_body]
pub(crate) fn string_of(chars: &[char]) -> (r: String)
    ensures
        r@ == chars@,
{
    chars.iter().collect()
}

/// Calls `std::str::from_utf8`, which accepts exactly the valid UTF-8 byte sequences and
/// then gives the text they encode.
#[verifier::external_body]
pub(crate) fn str_from_utf8(bytes: &[u8]) -> (r: Option<&str>)
    ensures
        r is Some <==> vstd::utf8::valid_utf8(bytes@),
        r matches Some(text) ==> vstd::utf8::encode_utf8(text@) == bytes@,
{
    std::str::from_utf8(bytes).ok()
}

} // verus!
