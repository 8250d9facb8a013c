//! 32-byte values (roots, commitments, identities) and their all-zero default.
use vstd::prelude::*;

verus! {

/// The 32-byte value that stands for "not set" in every storage map.
pub open spec fn zero_seq() -> Seq<u8> {
    Seq::new(32, |i: int| 0u8)
}

pub open spec fn is_zero(s: Seq<u8>) -> bool {
    s =~= zero_seq()
}

/// The value a map holds at `k`, or the all-zero default when absent.
pub open spec fn lookup(m: Map<u64, [u8; 32]>, k: u64) -> Seq<u8> {
    if m.contains_key(k) {
        m[k]@
    } else {
        zero_seq()
    }
}

pub fn zero_bytes() -> (r: [u8; 32])
    ensures
        r@ == zero_seq(),
{
    let r = [0u8; 32];
    assert(r@ =~= zero_seq());
    r
}

pub fn bytes_eq(a: &[u8; 32], b: &[u8; 32]) -> (r: bool)
    ensures
        r == (a@ == b@),
{
    let mut i: usize = 0;
    while i < 32
        invariant
            0 <= i <= 32,
            a@.len() == 32,
            b@.len() == 32,
            forall|j: int| 0 <= j < i ==> a@[j] == b@[j],
        decreases 32 - i,
    {
        if a[i] != b[i] {
            return false;
        }
        i = i + 1;
    }
    assert(a@ =~= b@);
    true
}

pub fn bytes_is_zero(a: &[u8; 32]) -> (r: bool)
    ensures
        r == is_zero(a@),
{
    let z = zero_bytes();
    bytes_eq(a, &z)
}

} // verus!
