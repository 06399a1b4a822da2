//! The 58-symbol address alphabet and prefix validation.
//!
//! Addresses are rendered in the base58 alphabet: the digits `1`-`9`, the
//! uppercase letters without `O` and `I`, and the lowercase letters without
//! `l`. A requested prefix is accepted exactly when it is non-empty and every
//! one of its characters belongs to that alphabet.

use vstd::prelude::*;

verus! {

use vstd::seq_lib::*;
use vstd::string::StrSliceExecFns;

/// A character of the 58-symbol alphabet: `1`-`9`, `A`-`Z` without `O` and
/// `I`, `a`-`z` without `l`.
pub open spec fn base58_char(c: char) -> bool {
    let u = c as u32;
    ||| ('1' as u32) <= u <= ('9' as u32)
    ||| ('A' as u32) <= u <= ('H' as u32)
    ||| ('J' as u32) <= u <= ('N' as u32)
    ||| ('P' as u32) <= u <= ('Z' as u32)
    ||| ('a' as u32) <= u <= ('k' as u32)
    ||| ('m' as u32) <= u <= ('z' as u32)
}

/// A usable prefix: non-empty and drawn entirely from the 58-symbol alphabet.
pub open spec fn valid_prefix(s: Seq<char>) -> bool {
    &&& s.len() > 0
    &&& forall|i: int| 0 <= i < s.len() ==> base58_char(s[i])
}

/// Decides membership in the 58-symbol alphabet for one character.
pub fn is_base58_char(c: char) -> (r: bool)
    ensures
        r == base58_char(c),
{
    let u = c as u32;
    (('1' as u32) <= u && u <= ('9' as u32)) || (('A' as u32) <= u && u <= ('H' as u32)) || (('J'
        as u32) <= u && u <= ('N' as u32)) || (('P' as u32) <= u && u <= ('Z' as u32)) || (('a'
        as u32) <= u && u <= ('k' as u32)) || (('m' as u32) <= u && u <= ('z' as u32))
}

/// Accepts a requested prefix exactly when it is non-empty and every character
/// lies in the 58-symbol alphabet; total over arbitrary input text.
pub fn is_valid_base58_prefix(prefix: &str) -> (r: bool)
    ensures
        r == valid_prefix(prefix@),
{
    let n = prefix.unicode_len();
    if n == 0 {
        return false;
    }
    let mut i: usize = 0;
    while i < n
        invariant
            n == prefix@.len(),
            0 < n,
            i <= n,
            forall|j: int| 0 <= j < i ==> base58_char(prefix@[j]),
        decreases n - i,
    {
        if !is_base58_char(prefix.get_char(i)) {
            return false;
        }
        i += 1;
    }
    true
}

/// Decides whether `prefix` is a prefix of `text`, character for character.
pub fn starts_with_prefix(text: &str, prefix: &str) -> (r: bool)
    ensures
        r == prefix@.is_prefix_of(text@),
{
    let plen = prefix.unicode_len();
    let tlen = text.unicode_len();
    if plen > tlen {
        return false;
    }
    let mut i: usize = 0;
    while i < plen
        invariant
            plen == prefix@.len(),
            tlen == text@.len(),
            plen <= tlen,
            i <= plen,
            forall|j: int| 0 <= j < i ==> prefix@[j] == text@[j],
        decreases plen - i,
    {
        if text.get_char(i) != prefix.get_char(i) {
            return false;
        }
        i += 1;
    }
    proof {
        assert(prefix@ =~= text@.subrange(0, plen as int));
    }
    true
}

} // verus!
