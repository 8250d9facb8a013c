//! Public inputs of the step and rotate circuits, as 32-byte big-endian words.
use vstd::prelude::*;
use crate::groth16::le_bytes;
use crate::types::{LightClientRotate, LightClientStep};

verus! {

/// `n` as a 32-byte big-endian word.
pub open spec fn word_of(n: nat) -> Seq<u8> {
    Seq::new(32, |i: int| le_bytes(n, 32)[31 - i])
}

/// The step circuit's inputs: the committee commitment, the attested and
/// finalized slots, the participation, and the two roots.
pub open spec fn step_inputs(poseidon: Seq<u8>, u: LightClientStep) -> Seq<Seq<u8>> {
    seq![
        poseidon,
        word_of(u.attested_slot as nat),
        word_of(u.finalized_slot as nat),
        word_of(u.participation as nat),
        u.finalized_header_root@,
        u.execution_state_root@,
    ]
}

/// The rotate circuit's inputs: those of its step, then the next committee's commitment.
pub open spec fn rotate_inputs(poseidon: Seq<u8>, u: LightClientRotate) -> Seq<Seq<u8>> {
    step_inputs(poseidon, u.step).push(u.sync_committee_poseidon@)
}

proof fn lemma_le_bytes_len(n: nat, k: nat)
    ensures
        le_bytes(n, k).len() == k,
    decreases k,
{
    if k > 0 {
        lemma_le_bytes_len(n / 256, (k - 1) as nat);
    }
}

/// `n` as a 32-byte big-endian word.
pub fn word_from_u64(n: u64) -> (r: Vec<u8>)
    ensures
        r@ == word_of(n as nat),
{
    let mut le: Vec<u8> = Vec::new();
    let mut v: u64 = n;
    let mut i: usize = 0;
    while i < 32
        invariant
            i <= 32,
            le@ + le_bytes(v as nat, (32 - i) as nat) == le_bytes(n as nat, 32),
        decreases 32 - i,
    {
        let ghost before = le@;
        assert(le_bytes(v as nat, (32 - i) as nat) == seq![(v as nat % 256) as u8] + le_bytes(
            (v / 256) as nat,
            (32 - i - 1) as nat,
        ));
        le.push((v % 256) as u8);
        assert(le@ + le_bytes((v / 256) as nat, (32 - i - 1) as nat) =~= before + le_bytes(
            v as nat,
            (32 - i) as nat,
        ));
        v = v / 256;
        i = i + 1;
    }
    assert(le_bytes(v as nat, 0) =~= Seq::<u8>::empty());
    assert(le@ =~= le_bytes(n as nat, 32));
    proof {
        lemma_le_bytes_len(n as nat, 32);
    }
    let mut r: Vec<u8> = Vec::new();
    let mut j: usize = 0;
    while j < 32
        invariant
            j <= 32,
            le@ == le_bytes(n as nat, 32),
            le@.len() == 32,
            r@ =~= Seq::new(j as nat, |k: int| le_bytes(n as nat, 32)[31 - k]),
        decreases 32 - j,
    {
        r.push(le[31 - j]);
        j = j + 1;
    }
    r
}

/// The 32 bytes of `b`, in order.
pub fn word_from_bytes(b: &[u8; 32]) -> (r: Vec<u8>)
    ensures
        r@ == b@,
{
    let mut r: Vec<u8> = Vec::new();
    let mut j: usize = 0;
    while j < 32
        invariant
            j <= 32,
            b@.len() == 32,
            r@ =~= b@.subrange(0, j as int),
        decreases 32 - j,
    {
        r.push(b[j]);
        j = j + 1;
    }
    r
}

/// Encodes the step circuit's public inputs under committee commitment `poseidon`.
pub fn step_public_inputs(update: &LightClientStep, poseidon: &[u8; 32]) -> (r: Vec<Vec<u8>>)
    ensures
        crate::groth16::words_view(r@) == step_inputs(poseidon@, *update),
{
    let mut r: Vec<Vec<u8>> = Vec::new();
    r.push(word_from_bytes(poseidon));
    r.push(word_from_u64(update.attested_slot));
    r.push(word_from_u64(update.finalized_slot));
    r.push(word_from_u64(update.participation as u64));
    r.push(word_from_bytes(&update.finalized_header_root));
    r.push(word_from_bytes(&update.execution_state_root));
    assert(crate::groth16::words_view(r@) =~= step_inputs(poseidon@, *update));
    r
}

/// Encodes the rotate circuit's public inputs under committee commitment `poseidon`.
pub fn rotate_public_inputs(update: &LightClientRotate, poseidon: &[u8; 32]) -> (r: Vec<Vec<u8>>)
    ensures
        crate::groth16::words_view(r@) == rotate_inputs(poseidon@, *update),
{
    let mut r = step_public_inputs(&update.step, poseidon);
    let ghost before = r@;
    r.push(word_from_bytes(&update.sync_committee_poseidon));
    assert(crate::groth16::words_view(r@) =~= crate::groth16::words_view(before).push(
        update.sync_committee_poseidon@,
    ));
    r
}

} // verus!
