//! The model of null-bounded content, and the scan that computes it.

use vstd::prelude::*;

verus! {

/// Whether `k` is the boundary of the effective content of `s`: no byte
/// before `k` is null, and `k` is either the position of a null byte or the
/// end of `s`.
pub open spec fn is_null_boundary(s: Seq<u8>, k: int) -> bool {
    &&& 0 <= k <= s.len()
    &&& forall|i: int| 0 <= i < k ==> s[i] != 0u8
    &&& k < s.len() ==> s[k] == 0u8
}

/// The index of the first null byte of `s`, or `s.len()` if `s` holds none.
pub open spec fn first_null(s: Seq<u8>) -> int
    decreases s.len(),
{
    if s.len() == 0 || s[0] == 0u8 {
        0
    } else {
        1 + first_null(s.drop_first())
    }
}

/// The effective bytes of `s`: its prefix before the first null byte.
pub open spec fn effective_prefix(s: Seq<u8>) -> Seq<u8> {
    s.subrange(0, first_null(s))
}

/// `s` followed by as many null bytes as it takes to fill `n` places.
pub open spec fn zero_padded(s: Seq<u8>, n: nat) -> Seq<u8>
    recommends
        s.len() <= n,
{
    Seq::new(n, |i: int| if i < s.len() { s[i] } else { 0u8 })
}

/// Whether `s` holds a null byte.
pub open spec fn has_null(s: Seq<u8>) -> bool {
    exists|i: int| 0 <= i < s.len() && s[i] == 0u8
}

/// `first_null(s)` is a boundary of `s`.
pub proof fn lemma_first_null_is_boundary(s: Seq<u8>)
    ensures
        is_null_boundary(s, first_null(s)),
    decreases s.len(),
{
    if s.len() == 0 || s[0] == 0u8 {
    } else {
        let t = s.drop_first();
        lemma_first_null_is_boundary(t);
        let k = first_null(t);
        assert forall|i: int| 0 <= i < k + 1 implies s[i] != 0u8 by {
            if i > 0 {
                assert(s[i] == t[i - 1]);
            }
        }
        if k + 1 < s.len() {
            assert(s[k + 1] == t[k]);
        }
    }
}

/// A sequence has one boundary only: whatever satisfies `is_null_boundary`
/// is `first_null`.
pub proof fn lemma_boundary_is_first_null(s: Seq<u8>, k: int)
    requires
        is_null_boundary(s, k),
    ensures
        k == first_null(s),
{
    lemma_first_null_is_boundary(s);
    let f = first_null(s);
    if k < f {
        assert(s[k] != 0u8);
    } else if f < k {
        assert(s[f] != 0u8);
    }
}

/// Bytes with a null byte: the effective bytes are those before the first
/// one.
pub proof fn lemma_effective_prefix_stops_at_null(s: Seq<u8>, k: int)
    requires
        0 <= k < s.len(),
        s[k] == 0u8,
        forall|i: int| 0 <= i < k ==> s[i] != 0u8,
    ensures
        first_null(s) == k,
        effective_prefix(s) == s.subrange(0, k),
{
    lemma_boundary_is_first_null(s, k);
}

/// Bytes without a null byte: all of them are effective.
pub proof fn lemma_effective_prefix_without_null(s: Seq<u8>)
    requires
        !has_null(s),
    ensures
        first_null(s) == s.len(),
        effective_prefix(s) == s,
{
    lemma_boundary_is_first_null(s, s.len() as int);
    assert(s.subrange(0, s.len() as int) =~= s);
}

/// Padding with null bytes does not move the boundary: the padded sequence
/// has the effective bytes of the unpadded one.
pub proof fn lemma_zero_padded_keeps_effective(s: Seq<u8>, n: nat)
    requires
        s.len() <= n,
    ensures
        first_null(zero_padded(s, n)) == first_null(s),
        effective_prefix(zero_padded(s, n)) == effective_prefix(s),
{
    let p = zero_padded(s, n);
    let k = first_null(s);
    lemma_first_null_is_boundary(s);
    lemma_boundary_is_first_null(p, k);
    assert(p.subrange(0, k) =~= s.subrange(0, k));
}

/// Scans `bytes` from the left and returns the index of the first null byte,
/// or the length of `bytes` if there is none.
pub fn find_first_null(bytes: &[u8]) -> (end: usize)
    ensures
        end == first_null(bytes@),
        is_null_boundary(bytes@, end as int),
{
    let mut i: usize = 0;
    while i < bytes.len() && bytes[i] != 0
        invariant
            i <= bytes.len(),
            forall|j: int| 0 <= j < i ==> bytes@[j] != 0u8,
        decreases bytes.len() - i,
    {
        i += 1;
    }
    proof {
        lemma_boundary_is_first_null(bytes@, i as int);
    }
    i
}

} // verus!
