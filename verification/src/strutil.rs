//! String comparison helpers used by the configuration model: exact
//! equality and ASCII-case-insensitive equality, both with specifications
//! over the strings' UTF-8 bytes and views.

use vstd::prelude::*;

verus! {

use vstd::string::StringSliceAdditionalSpecFns;
use vstd::utf8::encode_utf8_decode_utf8;

/// Lowercase form of a byte: ASCII letters `A`..`Z` map 32 places up,
/// every other byte is unchanged.
pub open spec fn lower_byte(b: u8) -> u8 {
    if 65 <= b && b <= 90 {
        (b + 32) as u8
    } else {
        b
    }
}

/// Two byte sequences are equal once ASCII letters are folded to lower case.
pub open spec fn eq_ignore_ascii_case(a: Seq<u8>, b: Seq<u8>) -> bool {
    a.len() == b.len() && (forall|i: int| 0 <= i < a.len() ==> lower_byte(a[i]) == lower_byte(b[i]))
}

fn byte_to_lower(b: u8) -> (r: u8)
    ensures
        r == lower_byte(b),
{
    if 65 <= b && b <= 90 {
        b + 32
    } else {
        b
    }
}

/// Case-insensitive (ASCII) comparison of two strings, over their UTF-8 bytes.
pub fn str_eq_ignore_ascii_case(a: &str, b: &str) -> (r: bool)
    ensures
        r == eq_ignore_ascii_case(a.spec_bytes(), b.spec_bytes()),
{
    let ab = a.as_bytes();
    let bb = b.as_bytes();
    if ab.len() != bb.len() {
        return false;
    }
    for i in 0..ab.len()
        invariant
            ab@ == a.spec_bytes(),
            bb@ == b.spec_bytes(),
            ab@.len() == bb@.len(),
            forall|j: int| 0 <= j < i ==> lower_byte(ab@[j]) == lower_byte(bb@[j]),
    {
        if byte_to_lower(ab[i]) != byte_to_lower(bb[i]) {
            return false;
        }
    }
    true
}

/// Exact equality of two strings, as equality of their views.
pub fn str_eq(a: &str, b: &str) -> (r: bool)
    ensures
        r == (a@ == b@),
{
    let ab = a.as_bytes();
    let bb = b.as_bytes();
    proof {
        encode_utf8_decode_utf8(a@);
        encode_utf8_decode_utf8(b@);
    }
    if ab.len() != bb.len() {
        return false;
    }
    let mut eq = true;
    for i in 0..ab.len()
        invariant
            ab@ == a.spec_bytes(),
            bb@ == b.spec_bytes(),
            ab@.len() == bb@.len(),
            eq == (forall|j: int| 0 <= j < i ==> ab@[j] == bb@[j]),
    {
        if ab[i] != bb[i] {
            eq = false;
        }
    }
    proof {
        if eq {
            assert(a.spec_bytes() =~= b.spec_bytes());
        }
    }
    eq
}

} // verus!
