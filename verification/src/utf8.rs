//! Validation of the byte sequences that cross the boundary.
//!
//! Every string argument arrives as a raw byte sequence. Before such a
//! sequence may be stored or compared it must be well-formed UTF-8; a
//! malformed sequence is a recoverable failure, never a fault.

use vstd::prelude::*;

verus! {

/// A UTF-8 continuation byte: `10xxxxxx`.
pub open spec fn is_cont_byte(b: u8) -> bool {
    0x80 <= b && b <= 0xbf
}

/// Well-formedness of the suffix of `s` that starts at index `i`,
/// following the byte-range table of RFC 3629 (surrogates and overlong
/// encodings excluded, code points at most U+10FFFF).
pub open spec fn is_utf8_from(s: Seq<u8>, i: int) -> bool
    recommends
        0 <= i <= s.len(),
    decreases s.len() - i,
{
    if i >= s.len() {
        true
    } else {
        let b0 = s[i];
        if b0 < 0x80 {
            is_utf8_from(s, i + 1)
        } else if 0xc2 <= b0 && b0 <= 0xdf {
            i + 2 <= s.len() && is_cont_byte(s[i + 1]) && is_utf8_from(s, i + 2)
        } else if b0 == 0xe0 {
            i + 3 <= s.len() && 0xa0 <= s[i + 1] && s[i + 1] <= 0xbf && is_cont_byte(s[i + 2])
                && is_utf8_from(s, i + 3)
        } else if (0xe1 <= b0 && b0 <= 0xec) || b0 == 0xee || b0 == 0xef {
            i + 3 <= s.len() && is_cont_byte(s[i + 1]) && is_cont_byte(s[i + 2])
                && is_utf8_from(s, i + 3)
        } else if b0 == 0xed {
            i + 3 <= s.len() && 0x80 <= s[i + 1] && s[i + 1] <= 0x9f && is_cont_byte(s[i + 2])
                && is_utf8_from(s, i + 3)
        } else if b0 == 0xf0 {
            i + 4 <= s.len() && 0x90 <= s[i + 1] && s[i + 1] <= 0xbf && is_cont_byte(s[i + 2])
                && is_cont_byte(s[i + 3]) && is_utf8_from(s, i + 4)
        } else if 0xf1 <= b0 && b0 <= 0xf3 {
            i + 4 <= s.len() && is_cont_byte(s[i + 1]) && is_cont_byte(s[i + 2])
                && is_cont_byte(s[i + 3]) && is_utf8_from(s, i + 4)
        } else if b0 == 0xf4 {
            i + 4 <= s.len() && 0x80 <= s[i + 1] && s[i + 1] <= 0x8f && is_cont_byte(s[i + 2])
                && is_cont_byte(s[i + 3]) && is_utf8_from(s, i + 4)
        } else {
            false
        }
    }
}

/// A byte sequence is well-formed UTF-8.
pub open spec fn is_utf8(s: Seq<u8>) -> bool {
    is_utf8_from(s, 0)
}

/// Decides whether `bytes` is well-formed UTF-8.
pub fn utf8_valid(bytes: &Vec<u8>) -> (r: bool)
    ensures
        r == is_utf8(bytes@),
{
    let n = bytes.len();
    let mut i: usize = 0;
    while i < n
        invariant
            i <= n,
            n == bytes@.len(),
            is_utf8(bytes@) == is_utf8_from(bytes@, i as int),
        decreases n - i,
    {
        let b0 = bytes[i];
        if b0 < 0x80 {
            i = i + 1;
        } else if 0xc2 <= b0 && b0 <= 0xdf {
            if n - i < 2 || !cont_byte(bytes[i + 1]) {
                return false;
            }
            i = i + 2;
        } else if b0 == 0xe0 {
            if n - i < 3 || bytes[i + 1] < 0xa0 || bytes[i + 1] > 0xbf || !cont_byte(bytes[i + 2])
            {
                return false;
            }
            i = i + 3;
        } else if (0xe1 <= b0 && b0 <= 0xec) || b0 == 0xee || b0 == 0xef {
            if n - i < 3 || !cont_byte(bytes[i + 1]) || !cont_byte(bytes[i + 2]) {
                return false;
            }
            i = i + 3;
        } else if b0 == 0xed {
            if n - i < 3 || bytes[i + 1] < 0x80 || bytes[i + 1] > 0x9f || !cont_byte(bytes[i + 2])
            {
                return false;
            }
            i = i + 3;
        } else if b0 == 0xf0 {
            if n - i < 4 || bytes[i + 1] < 0x90 || bytes[i + 1] > 0xbf || !cont_byte(bytes[i + 2])
                || !cont_byte(bytes[i + 3]) {
                return false;
            }
            i = i + 4;
        } else if 0xf1 <= b0 && b0 <= 0xf3 {
            if n - i < 4 || !cont_byte(bytes[i + 1]) || !cont_byte(bytes[i + 2])
                || !cont_byte(bytes[i + 3]) {
                return false;
            }
            i = i + 4;
        } else if b0 == 0xf4 {
            if n - i < 4 || bytes[i + 1] < 0x80 || bytes[i + 1] > 0x8f || !cont_byte(bytes[i + 2])
                || !cont_byte(bytes[i + 3]) {
                return false;
            }
            i = i + 4;
        } else {
            return false;
        }
    }
    true
}

/// Decides whether `b` is a UTF-8 continuation byte.
fn cont_byte(b: u8) -> (r: bool)
    ensures
        r == is_cont_byte(b),
{
    0x80 <= b && b <= 0xbf
}

/// Decides whether two byte sequences hold the same bytes.
pub fn bytes_eq(a: &Vec<u8>, b: &Vec<u8>) -> (r: bool)
    ensures
        r == (a@ == b@),
{
    if a.len() != b.len() {
        return false;
    }
    let n = a.len();
    let mut i: usize = 0;
    while i < n
        invariant
            i <= n,
            n == a@.len(),
            n == b@.len(),
            forall|j: int| 0 <= j < i ==> a@[j] == b@[j],
        decreases n - i,
    {
        if a[i] != b[i] {
            return false;
        }
        i = i + 1;
    }
    proof {
        assert(a@ =~= b@);
    }
    true
}

} // verus!
