//! Compacting the keypair byte array inside a pretty-printed JSON report.
//!
//! The report is pretty-printed as a whole, but the 64-number `keypair_json`
//! array is rendered on one line. This module performs that rewrite on the
//! rendered bytes: after the first occurrence of the marker
//! `"keypair_json": [`, up to the next closing bracket, whitespace is removed
//! and each comma is followed by exactly one space; everything else is kept
//! unchanged. Text without the marker (or without a closing bracket after it)
//! is returned as it is.

use vstd::prelude::*;

verus! {

/// The marker `"keypair_json": [`, as bytes.
pub open spec fn marker() -> Seq<u8> {
    seq![34u8, 107u8, 101u8, 121u8, 112u8, 97u8, 105u8, 114u8, 95u8, 106u8, 115u8, 111u8, 110u8, 34u8, 58u8, 32u8, 91u8]
}

/// JSON whitespace: space, line feed, carriage return, tab.
pub open spec fn is_ws(b: u8) -> bool {
    b == 32 || b == 10 || b == 13 || b == 9
}

/// The marker occurs in `s` at position `i`.
pub open spec fn marker_at(s: Seq<u8>, i: int) -> bool {
    &&& 0 <= i
    &&& i + 17 <= s.len()
    &&& s.subrange(i, i + 17) == marker()
}

/// The first occurrence of the marker at or after position `i`.
pub open spec fn find_marker_from(s: Seq<u8>, i: int) -> Option<int>
    recommends
        0 <= i,
    decreases s.len() - i,
{
    if i < 0 || i + 17 > s.len() {
        None
    } else if marker_at(s, i) {
        Some(i)
    } else {
        find_marker_from(s, i + 1)
    }
}

/// The first occurrence of byte `b` at or after position `i`.
pub open spec fn find_byte_from(s: Seq<u8>, b: u8, i: int) -> Option<int>
    recommends
        0 <= i,
    decreases s.len() - i,
{
    if i < 0 || i >= s.len() {
        None
    } else if s[i] == b {
        Some(i)
    } else {
        find_byte_from(s, b, i + 1)
    }
}

/// What one byte of array content becomes: whitespace disappears, a comma
/// gains a single following space, anything else is kept.
pub open spec fn compact_byte(b: u8) -> Seq<u8> {
    if is_ws(b) {
        Seq::<u8>::empty()
    } else if b == 44 {
        seq![44u8, 32u8]
    } else {
        seq![b]
    }
}

/// The compacted form of array content.
pub open spec fn compact_content(s: Seq<u8>) -> Seq<u8>
    decreases s.len(),
{
    if s.len() == 0 {
        Seq::<u8>::empty()
    } else {
        compact_byte(s[0]) + compact_content(s.drop_first())
    }
}

/// The whole rewrite: text up to and including the marker unchanged, the
/// content up to the next closing bracket compacted, the rest unchanged.
pub open spec fn compact_json(s: Seq<u8>) -> Seq<u8> {
    match find_marker_from(s, 0) {
        None => s,
        Some(m) => match find_byte_from(s, 93u8, m + 17) {
            None => s,
            Some(j) => s.subrange(0, m + 17) + compact_content(s.subrange(m + 17, j))
                + s.subrange(j, s.len() as int),
        },
    }
}

/// Compacting distributes over appending one byte at the end.
proof fn lemma_compact_snoc(s: Seq<u8>, b: u8)
    ensures
        compact_content(s.push(b)) == compact_content(s) + compact_byte(b),
    decreases s.len(),
{
    if s.len() == 0 {
        let t = s.push(b);
        assert(t[0] == b);
        assert(t.drop_first() =~= Seq::<u8>::empty());
        assert(compact_content(t.drop_first()) == Seq::<u8>::empty());
        assert(compact_byte(b) + Seq::<u8>::empty() =~= compact_byte(b));
        assert(compact_content(s) + compact_byte(b) =~= compact_byte(b));
    } else {
        assert(s.push(b)[0] == s[0]);
        assert(s.push(b).drop_first() =~= s.drop_first().push(b));
        lemma_compact_snoc(s.drop_first(), b);
        assert(compact_content(s.push(b)) == compact_byte(s[0]) + (compact_content(s.drop_first())
            + compact_byte(b)));
        assert(compact_byte(s[0]) + (compact_content(s.drop_first()) + compact_byte(b)) =~= (
        compact_byte(s[0]) + compact_content(s.drop_first())) + compact_byte(b));
    }
}

/// The marker, as a vector.
fn marker_bytes() -> (r: Vec<u8>)
    ensures
        r@ == marker(),
{
    let mut v: Vec<u8> = Vec::new();
    v.push(34);
    v.push(107);
    v.push(101);
    v.push(121);
    v.push(112);
    v.push(97);
    v.push(105);
    v.push(114);
    v.push(95);
    v.push(106);
    v.push(115);
    v.push(111);
    v.push(110);
    v.push(34);
    v.push(58);
    v.push(32);
    v.push(91);
    proof {
        assert(v@ =~= marker());
    }
    v
}

/// Does the marker occur at position `i`?
fn matches_marker_at(text: &[u8], mk: &Vec<u8>, i: usize) -> (r: bool)
    requires
        mk@ == marker(),
        i + 17 <= text@.len(),
    ensures
        r == marker_at(text@, i as int),
{
    let n = text.len();
    let mut k: usize = 0;
    while k < 17
        invariant
            n == text@.len(),
            mk@ == marker(),
            i + 17 <= n,
            k <= 17,
            forall|t: int| 0 <= t < k ==> text@[i + t] == marker()[t],
        decreases 17 - k,
    {
        if text[i + k] != mk[k] {
            proof {
                assert(!marker_at(text@, i as int)) by {
                    if marker_at(text@, i as int) {
                        assert(text@.subrange(i as int, i + 17)[k as int] == marker()[k as int]);
                    }
                }
            }
            return false;
        }
        k += 1;
    }
    proof {
        assert(text@.subrange(i as int, i + 17) =~= marker());
    }
    true
}

/// Finds the first occurrence of the marker, if any.
fn find_marker_pos(text: &[u8]) -> (r: Option<usize>)
    ensures
        r matches Some(m) ==> m + 17 <= text@.len() && find_marker_from(text@, 0) == Some(
            m as int,
        ),
        r is None ==> find_marker_from(text@, 0) is None,
{
    let n = text.len();
    let mk = marker_bytes();
    if n < 17 {
        proof {
            assert(find_marker_from(text@, 0) is None);
        }
        return None;
    }
    let mut i: usize = 0;
    while i <= n - 17
        invariant
            n == text@.len(),
            mk@ == marker(),
            17 <= n,
            i <= n,
            find_marker_from(text@, 0) == find_marker_from(text@, i as int),
        decreases n - i,
    {
        if matches_marker_at(text, &mk, i) {
            proof {
                assert(find_marker_from(text@, i as int) == Some(i as int));
            }
            return Some(i);
        }
        proof {
            assert(find_marker_from(text@, i as int) == find_marker_from(text@, i + 1));
        }
        i += 1;
    }
    proof {
        assert(find_marker_from(text@, i as int) is None);
    }
    None
}

/// Rewrites a pretty-printed JSON report so that the `keypair_json` array
/// stands on one line: whitespace inside the array is dropped and each comma
/// is followed by one space; all other bytes are unchanged.
pub fn format_json_compact_array(text: &[u8]) -> (r: Vec<u8>)
    ensures
        r@ == compact_json(text@),
{
    let n = text.len();

    // Find the first occurrence of the marker.
    let marker_pos = find_marker_pos(text);
    let m: usize = match marker_pos {
        Some(m) => m,
        None => {
            return copy_all(text);
        },
    };
    let e = m + 17;

    // Find the closing bracket after the marker.
    let mut j: usize = e;
    while j < n && text[j] != 93
        invariant
            n == text@.len(),
            e <= j <= n,
            find_byte_from(text@, 93u8, e as int) == find_byte_from(text@, 93u8, j as int),
        decreases n - j,
    {
        proof {
            assert(find_byte_from(text@, 93u8, j as int) == find_byte_from(text@, 93u8, j + 1));
        }
        j += 1;
    }
    if j == n {
        proof {
            assert(find_byte_from(text@, 93u8, j as int) is None);
        }
        return copy_all(text);
    }
    proof {
        assert(find_byte_from(text@, 93u8, j as int) == Some(j as int));
    }

    // Unchanged text up to and including the marker.
    let mut out: Vec<u8> = Vec::new();
    let mut p: usize = 0;
    while p < e
        invariant
            n == text@.len(),
            e <= n,
            p <= e,
            out@ == text@.subrange(0, p as int),
        decreases e - p,
    {
        out.push(text[p]);
        proof {
            assert(out@ =~= text@.subrange(0, p + 1));
        }
        p += 1;
    }

    // Compacted array content.
    let mut q: usize = e;
    while q < j
        invariant
            n == text@.len(),
            e <= q <= j <= n,
            out@ == text@.subrange(0, e as int) + compact_content(
                text@.subrange(e as int, q as int),
            ),
        decreases j - q,
    {
        let b = text[q];
        if b == 32 || b == 10 || b == 13 || b == 9 {
            // dropped
        } else if b == 44 {
            out.push(44);
            out.push(32);
        } else {
            out.push(b);
        }
        proof {
            assert(text@.subrange(e as int, q + 1) =~= text@.subrange(e as int, q as int).push(
                text@[q as int],
            ));
            lemma_compact_snoc(text@.subrange(e as int, q as int), text@[q as int]);
            assert(out@ =~= text@.subrange(0, e as int) + compact_content(
                text@.subrange(e as int, q + 1),
            ));
        }
        q += 1;
    }

    // Unchanged tail from the closing bracket on.
    let mut t: usize = j;
    while t < n
        invariant
            n == text@.len(),
            e <= j <= t <= n,
            out@ == text@.subrange(0, e as int) + compact_content(
                text@.subrange(e as int, j as int),
            ) + text@.subrange(j as int, t as int),
        decreases n - t,
    {
        out.push(text[t]);
        proof {
            assert(out@ =~= text@.subrange(0, e as int) + compact_content(
                text@.subrange(e as int, j as int),
            ) + text@.subrange(j as int, t + 1));
        }
        t += 1;
    }
    out
}

/// An unchanged copy of the input bytes.
fn copy_all(text: &[u8]) -> (r: Vec<u8>)
    ensures
        r@ == text@,
{
    vstd::slice::slice_to_vec(text)
}

} // verus!
