//! Header maps as both requests and responses carry them: name–value byte
//! pairs in order, duplicates preserved, names compared without regard to
//! ASCII case.

use vstd::prelude::*;

use crate::validate;

verus! {

/// The mathematical view of a header list: each pair as byte sequences.
pub open spec fn headers_view(hs: Seq<(Vec<u8>, Vec<u8>)>) -> Seq<(Seq<u8>, Seq<u8>)> {
    hs.map_values(|p: (Vec<u8>, Vec<u8>)| (p.0@, p.1@))
}

/// The first header value stored under a name, compared without regard to
/// ASCII case.
pub open spec fn header_lookup(hs: Seq<(Seq<u8>, Seq<u8>)>, name: Seq<u8>) -> Option<Seq<u8>>
    decreases hs.len(),
{
    if hs.len() == 0 {
        None
    } else if validate::lower_bytes(hs.first().0) == validate::lower_bytes(name) {
        Some(hs.first().1)
    } else {
        header_lookup(hs.drop_first(), name)
    }
}

/// The first value stored under `name` in `headers`, matched without regard
/// to ASCII case.
pub fn find_header<'a>(headers: &'a Vec<(Vec<u8>, Vec<u8>)>, name: &[u8]) -> (r: Option<
    &'a Vec<u8>,
>)
    ensures
        match r {
            Some(v) => header_lookup(headers_view(headers@), name@) == Some(v@),
            None => header_lookup(headers_view(headers@), name@) is None,
        },
{
    let n = headers.len();
    for i in 0..n
        invariant
            n == headers@.len(),
            forall|j: int|
                0 <= j < i ==> validate::lower_bytes(#[trigger] headers@[j].0@)
                    != validate::lower_bytes(name@),
    {
        if validate::eq_ignore_ascii_case(headers[i].0.as_slice(), name) {
            proof {
                lemma_header_lookup_found(headers_view(headers@), i as int, name@);
            }
            return Some(&headers[i].1);
        }
    }
    proof {
        lemma_header_lookup_absent(headers_view(headers@), name@);
    }
    None
}

/// A name matching no header is not found.
proof fn lemma_header_lookup_absent(hs: Seq<(Seq<u8>, Seq<u8>)>, name: Seq<u8>)
    requires
        forall|i: int|
            0 <= i < hs.len() ==> validate::lower_bytes(#[trigger] hs[i].0) != validate::lower_bytes(
                name,
            ),
    ensures
        header_lookup(hs, name) is None,
    decreases hs.len(),
{
    if hs.len() > 0 {
        assert(forall|i: int| 0 <= i < hs.drop_first().len() ==> hs.drop_first()[i] == hs[i + 1]);
        lemma_header_lookup_absent(hs.drop_first(), name);
    }
}

/// The first matching header decides the lookup.
proof fn lemma_header_lookup_found(hs: Seq<(Seq<u8>, Seq<u8>)>, at: int, name: Seq<u8>)
    requires
        0 <= at < hs.len(),
        validate::lower_bytes(hs[at].0) == validate::lower_bytes(name),
        forall|i: int|
            0 <= i < at ==> validate::lower_bytes(#[trigger] hs[i].0) != validate::lower_bytes(
                name,
            ),
    ensures
        header_lookup(hs, name) == Some(hs[at].1),
    decreases hs.len(),
{
    if at > 0 {
        assert(forall|i: int| 0 <= i < hs.drop_first().len() ==> hs.drop_first()[i] == hs[i + 1]);
        lemma_header_lookup_found(hs.drop_first(), at - 1, name);
    }
}

} // verus!
