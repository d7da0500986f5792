//! A verified URL-shortening core: a durable store of `(identifier, url)`
//! mappings with create, resolve and redirect operations, an identifier
//! generator, and the request-path shaping used by a client of the service.

pub mod endpoint;
pub mod model;
pub mod store;

use vstd::prelude::*;
use vstd::string::*;

verus! {

/// A character of the URL-safe identifier alphabet: ASCII letters, digits,
/// `_` and `-`.
pub open spec fn id_char(c: char) -> bool {
    c == '_' || c == '-' || ('0' <= c && c <= '9') || ('a' <= c && c <= 'z') || ('A' <= c
        && c <= 'Z')
}

/// A well-formed identifier: exactly eight characters, all from the
/// URL-safe alphabet.
pub open spec fn valid_id(s: Seq<char>) -> bool {
    s.len() == 8 && forall|i: int| 0 <= i < s.len() ==> id_char(#[trigger] s[i])
}

/// Whether `s` has the exact shape of a generated identifier: eight
/// characters, each from the URL-safe alphabet.
pub fn is_well_formed_id(s: &str) -> (r: bool)
    ensures
        r == valid_id(s@),
{
    let n = s.unicode_len();
    if n != 8 {
        return false;
    }
    let mut i: usize = 0;
    while i < 8
        invariant
            0 <= i <= 8,
            s@.len() == 8,
            forall|j: int| 0 <= j < i ==> id_char(#[trigger] s@[j]),
        decreases 8 - i,
    {
        let c = s.get_char(i);
        let ok = c == '_' || c == '-' || ('0' <= c && c <= '9') || ('a' <= c && c <= 'z') || ('A'
            <= c && c <= 'Z');
        if !ok {
            return false;
        }
        i = i + 1;
    }
    true
}

} // verus!
