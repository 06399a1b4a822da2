//! Difficulty estimation for a prefix search.
//!
//! Each candidate address is, for this estimate, an independent uniform draw
//! over the 58-symbol alphabet, so a prefix of length `n` matches one draw in
//! `58^n` and the expected number of draws until the first match is `58^n / 2`.

use vstd::prelude::*;

verus! {

use vstd::string::StrSliceExecFns;

/// `58^n`.
pub open spec fn pow58(n: nat) -> nat
    decreases n,
{
    if n == 0 {
        1
    } else {
        58 * pow58((n - 1) as nat)
    }
}

/// `58^10` is the largest power of 58 below `u64::MAX`; longer prefixes would
/// overflow 64-bit arithmetic.
pub proof fn lemma_pow58_10()
    ensures
        pow58(10) == 430804206899405824,
{
    reveal_with_fuel(pow58, 11);
}

/// Powers of 58 grow with the exponent.
pub proof fn lemma_pow58_monotone(a: nat, b: nat)
    requires
        a <= b,
    ensures
        pow58(a) <= pow58(b),
    decreases b - a,
{
    if a < b {
        lemma_pow58_monotone(a, (b - 1) as nat);
        assert(pow58(b) == 58 * pow58((b - 1) as nat));
    }
}

/// Expected number of draws for a prefix: `58^len / 2`. Prefixes longer than
/// 10 characters would overflow `u64` and must be kept out by the caller.
pub fn calculate_expected_iterations(prefix: &str) -> (r: u64)
    requires
        prefix@.len() <= 10,
    ensures
        r == pow58(prefix@.len()) / 2,
{
    let n = prefix.unicode_len();
    let mut acc: u64 = 1;
    let mut i: usize = 0;
    while i < n
        invariant
            n == prefix@.len(),
            n <= 10,
            i <= n,
            acc == pow58(i as nat),
        decreases n - i,
    {
        proof {
            assert(pow58((i + 1) as nat) == 58 * pow58(i as nat));
            lemma_pow58_monotone((i + 1) as nat, 10);
            lemma_pow58_10();
        }
        acc = acc * 58;
        i += 1;
    }
    acc / 2
}

/// Expected number of draws, flagging rather than wrapping the overflow: the
/// estimate is returned for prefixes of at most 10 characters and refused for
/// longer ones, whose expectation does not fit in `u64`.
pub fn expected_iterations_checked(prefix: &str) -> (r: Option<u64>)
    ensures
        prefix@.len() <= 10 ==> (r matches Some(v) && v == pow58(prefix@.len()) / 2),
        prefix@.len() > 10 ==> r is None,
{
    let n = prefix.unicode_len();
    if n > 10 {
        None
    } else {
        Some(calculate_expected_iterations(prefix))
    }
}

} // verus!
