//! Validity rules for the textual parts of a request: method tokens, header
//! names and header values. These mirror the grammar the engine enforces
//! (RFC 7230 tokens and field values), so a request that passes these checks
//! is never rejected by the engine for a malformed name or value.

use vstd::prelude::*;

verus! {

/// A byte allowed in an HTTP token: the characters of a method or of a
/// header name.
pub open spec fn is_token_byte(b: u8) -> bool {
    ||| b == 33
    ||| b == 35
    ||| b == 36
    ||| b == 37
    ||| b == 38
    ||| b == 39
    ||| b == 42
    ||| b == 43
    ||| b == 45
    ||| b == 46
    ||| 48 <= b <= 57
    ||| 65 <= b <= 90
    ||| b == 94
    ||| b == 95
    ||| b == 96
    ||| 97 <= b <= 122
    ||| b == 124
    ||| b == 126
}

/// A token is one or more token bytes.
pub open spec fn is_valid_token(s: Seq<u8>) -> bool {
    &&& s.len() > 0
    &&& forall|i: int| 0 <= i < s.len() ==> is_token_byte(s[i])
}

/// A byte allowed in a header value: visible characters, space, and tab.
pub open spec fn is_value_byte(b: u8) -> bool {
    b == 9 || (b >= 32 && b != 127)
}

/// A header value is any run (possibly empty) of value bytes.
pub open spec fn is_valid_value(s: Seq<u8>) -> bool {
    forall|i: int| 0 <= i < s.len() ==> is_value_byte(s[i])
}

pub fn token_byte(b: u8) -> (r: bool)
    ensures
        r == is_token_byte(b),
{
    b == 33 || b == 35 || b == 36 || b == 37 || b == 38 || b == 39 || b == 42 || b == 43 || b == 45
        || b == 46 || (48 <= b && b <= 57) || (65 <= b && b <= 90) || b == 94 || b == 95 || b == 96
        || (97 <= b && b <= 122) || b == 124 || b == 126
}

pub fn value_byte(b: u8) -> (r: bool)
    ensures
        r == is_value_byte(b),
{
    b == 9 || (b >= 32 && b != 127)
}

/// Whether `s` is a valid HTTP token.
pub fn check_token(s: &[u8]) -> (r: bool)
    ensures
        r == is_valid_token(s@),
{
    if s.len() == 0 {
        return false;
    }
    for i in 0..s.len()
        invariant
            forall|j: int| 0 <= j < i ==> is_token_byte(s@[j]),
    {
        if !token_byte(s[i]) {
            return false;
        }
    }
    true
}

/// Whether `s` is a valid header value.
pub fn check_value(s: &[u8]) -> (r: bool)
    ensures
        r == is_valid_value(s@),
{
    for i in 0..s.len()
        invariant
            forall|j: int| 0 <= j < i ==> is_value_byte(s@[j]),
    {
        if !value_byte(s[i]) {
            return false;
        }
    }
    true
}

/// ASCII lowercasing of one byte.
pub open spec fn lower_byte(b: u8) -> u8 {
    if 65 <= b <= 90 {
        (b + 32) as u8
    } else {
        b
    }
}

/// ASCII lowercasing of a byte string: how header names compare.
pub open spec fn lower_bytes(s: Seq<u8>) -> Seq<u8> {
    s.map_values(|b: u8| lower_byte(b))
}

pub fn to_lower_byte(b: u8) -> (r: u8)
    ensures
        r == lower_byte(b),
{
    if 65 <= b && b <= 90 {
        b + 32
    } else {
        b
    }
}

/// Whether two byte strings are equal up to ASCII case: how header names
/// are matched, since header map keys are case-insensitive.
pub fn eq_ignore_ascii_case(a: &[u8], b: &[u8]) -> (r: bool)
    ensures
        r == (lower_bytes(a@) == lower_bytes(b@)),
{
    if a.len() != b.len() {
        assert(lower_bytes(a@).len() != lower_bytes(b@).len());
        return false;
    }
    for i in 0..a.len()
        invariant
            a@.len() == b@.len(),
            forall|j: int| 0 <= j < i ==> lower_byte(a@[j]) == lower_byte(b@[j]),
    {
        if to_lower_byte(a[i]) != to_lower_byte(b[i]) {
            assert(lower_bytes(a@)[i as int] != lower_bytes(b@)[i as int]);
            return false;
        }
    }
    assert(lower_bytes(a@) =~= lower_bytes(b@));
    true
}

} // verus!
