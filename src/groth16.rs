//! Groth16 verification over BN254. Key points are encoded and the key
//! assembled here; arkworks decodes them, checks each point lies in its
//! group, and evaluates the pairing equation.
use vstd::prelude::*;
use ark_bn254::{Bn254, Fq, Fq2, Fr};
use ark_ff::PrimeField;
use ark_groth16::{prepare_verifying_key, Groth16, Proof, VerifyingKey};
use ark_serialize::{CanonicalDeserialize, CanonicalSerialize};
use std::str::FromStr;
use crate::types::{Error, MAX_PROOF_LENGTH, MAX_PUBLIC_INPUTS_LENGTH};
use crate::vkey::{G1Text, G2Text, VerifyingKeyJson};

verus! {

/// arkworks' uncompressed encoding of the G1 point with decimal affine
/// coordinates `x`, `y`, or `None` when a coordinate is not a canonical
/// decimal field element.
pub uninterp spec fn g1_encoding_of(x: Seq<char>, y: Seq<char>) -> Option<Seq<u8>>;

/// As `g1_encoding_of`, for the G2 point `(x0 + x1·u, y0 + y1·u)`.
pub uninterp spec fn g2_encoding_of(x0: Seq<char>, x1: Seq<char>, y0: Seq<char>, y1: Seq<char>) -> Option<
    Seq<u8>,
>;

/// Whether arkworks accepts `proof` (three compressed points) for the key
/// encoded as `vk` and the big-endian public inputs `inputs`; `None` when a
/// point fails to decode or lies outside its group, or the input count
/// does not fit the key.
pub uninterp spec fn groth16_verdict_of(vk: Seq<u8>, inputs: Seq<Seq<u8>>, proof: Seq<u8>) -> Option<
    bool,
>;

pub open spec fn bytes_view(b: Option<Vec<u8>>) -> Option<Seq<u8>> {
    match b {
        Some(v) => Some(v@),
        None => None,
    }
}

/// Relies on ark_ff's decimal `FromStr` for Fq, `Affine::new_unchecked` and
/// `CanonicalSerialize::serialize_uncompressed` of ark_serialize.
#[verifier::external_body]
fn g1_encoding(x: &String, y: &String) -> (r: Option<Vec<u8>>)
    ensures
        bytes_view(r) == g1_encoding_of(x@, y@),
{
    let p = ark_bn254::G1Affine::new_unchecked(Fq::from_str(x).ok()?, Fq::from_str(y).ok()?);
    let mut out = Vec::new();
    p.serialize_uncompressed(&mut out).ok()?;
    Some(out)
}

/// Relies on ark_ff's decimal `FromStr` for Fq, `Fp2::new`,
/// `Affine::new_unchecked` and `CanonicalSerialize::serialize_uncompressed`.
#[verifier::external_body]
fn g2_encoding(x0: &String, x1: &String, y0: &String, y1: &String) -> (r: Option<Vec<u8>>)
    ensures
        bytes_view(r) == g2_encoding_of(x0@, x1@, y0@, y1@),
{
    let x = Fq2::new(Fq::from_str(x0).ok()?, Fq::from_str(x1).ok()?);
    let y = Fq2::new(Fq::from_str(y0).ok()?, Fq::from_str(y1).ok()?);
    let mut out = Vec::new();
    ark_bn254::G2Affine::new_unchecked(x, y).serialize_uncompressed(&mut out).ok()?;
    Some(out)
}

/// Relies on `CanonicalDeserialize::deserialize_uncompressed` of
/// ark_groth16's `VerifyingKey` and `deserialize_compressed` of its `Proof`
/// (both check that points lie in their groups),
/// `PrimeField::from_be_bytes_mod_order`, `prepare_verifying_key` and
/// `Groth16::verify_proof`.
#[verifier::external_body]
fn groth16_verdict(vk: &Vec<u8>, inputs: &Vec<Vec<u8>>, proof: &Vec<u8>) -> (r: Option<bool>)
    ensures
        r == groth16_verdict_of(vk@, words_view(inputs@), proof@),
{
    let vk = VerifyingKey::<Bn254>::deserialize_uncompressed(vk.as_slice()).ok()?;
    let proof = Proof::<Bn254>::deserialize_compressed(proof.as_slice()).ok()?;
    let xs: Vec<Fr> = inputs.iter().map(|w| Fr::from_be_bytes_mod_order(w)).collect();
    Groth16::<Bn254>::verify_proof(&prepare_verifying_key(&vk), &proof, &xs).ok()
}

/// The `k` lowest bytes of `n`, least significant first.
pub open spec fn le_bytes(n: nat, k: nat) -> Seq<u8>
    decreases k,
{
    if k == 0 {
        Seq::empty()
    } else {
        seq![(n % 256) as u8] + le_bytes(n / 256, (k - 1) as nat)
    }
}

pub open spec fn g1_enc(p: G1Text) -> Option<Seq<u8>> {
    g1_encoding_of(p.x@, p.y@)
}

pub open spec fn g2_enc(p: G2Text) -> Option<Seq<u8>> {
    g2_encoding_of(p.x0@, p.x1@, p.y0@, p.y1@)
}

pub open spec fn points_encode(ps: Seq<G1Text>) -> bool {
    forall|i: int| 0 <= i < ps.len() ==> (#[trigger] g1_enc(ps[i])) is Some
}

/// The encodings of `ps`, one after another.
pub open spec fn points_bytes(ps: Seq<G1Text>) -> Seq<u8>
    decreases ps.len(),
{
    if ps.len() == 0 {
        Seq::empty()
    } else {
        points_bytes(ps.drop_last()) + g1_enc(ps.last()).unwrap()
    }
}

/// arkworks' uncompressed encoding of the key: alpha, beta, gamma, delta,
/// then the IC points behind their count as eight little-endian bytes.
pub open spec fn key_encoding(k: VerifyingKeyJson) -> Option<Seq<u8>> {
    if g1_enc(k.alpha) is Some && g2_enc(k.beta) is Some && g2_enc(k.gamma) is Some && g2_enc(
        k.delta,
    ) is Some && points_encode(k.ic@) {
        Some(
            g1_enc(k.alpha).unwrap() + g2_enc(k.beta).unwrap() + g2_enc(k.gamma).unwrap() + g2_enc(
                k.delta,
            ).unwrap() + le_bytes(k.ic@.len(), 8) + points_bytes(k.ic@),
        )
    } else {
        None
    }
}

pub open spec fn words_view(ws: Seq<Vec<u8>>) -> Seq<Seq<u8>> {
    ws.map_values(|w: Vec<u8>| w@)
}

/// What verifying `proof` for `inputs` under key `k` gives.
pub open spec fn verify_result(k: VerifyingKeyJson, inputs: Seq<Seq<u8>>, proof: Seq<u8>) -> Result<
    bool,
    Error,
> {
    if proof.len() == 0 {
        Err(Error::ProofIsEmpty)
    } else if proof.len() > MAX_PROOF_LENGTH || inputs.len() > MAX_PUBLIC_INPUTS_LENGTH
        || inputs.len() != k.n_public {
        Err(Error::VerificationError)
    } else {
        match key_encoding(k) {
            None => Err(Error::VerificationError),
            Some(vk) => match groth16_verdict_of(vk, inputs, proof) {
                None => Err(Error::VerificationError),
                Some(b) => Ok(b),
            },
        }
    }
}

fn append(out: &mut Vec<u8>, b: &Vec<u8>)
    ensures
        final(out)@ == old(out)@ + b@,
{
    let mut i: usize = 0;
    while i < b.len()
        invariant
            i <= b@.len(),
            out@ == old(out)@ + b@.subrange(0, i as int),
        decreases b@.len() - i,
    {
        out.push(b[i]);
        i = i + 1;
        assert(out@ =~= old(out)@ + b@.subrange(0, i as int));
    }
    assert(b@.subrange(0, b@.len() as int) =~= b@);
}

fn append_u64_le(out: &mut Vec<u8>, n: u64)
    ensures
        final(out)@ == old(out)@ + le_bytes(n as nat, 8),
{
    let mut v: u64 = n;
    let mut i: usize = 0;
    while i < 8
        invariant
            i <= 8,
            out@ + le_bytes(v as nat, (8 - i) as nat) == old(out)@ + le_bytes(n as nat, 8),
        decreases 8 - i,
    {
        let ghost before = out@;
        assert(le_bytes(v as nat, (8 - i) as nat) == seq![(v as nat % 256) as u8] + le_bytes(
            (v / 256) as nat,
            (8 - i - 1) as nat,
        ));
        out.push((v % 256) as u8);
        assert(out@ + le_bytes((v / 256) as nat, (8 - i - 1) as nat) =~= before + le_bytes(
            v as nat,
            (8 - i) as nat,
        ));
        v = v / 256;
        i = i + 1;
    }
    assert(le_bytes(v as nat, 0) =~= Seq::<u8>::empty());
    assert(out@ =~= out@ + le_bytes(v as nat, 0));
}

/// The arkworks encoding of `k`, or `None` when a coordinate does not
/// decode.
pub fn encode_verifying_key(k: &VerifyingKeyJson) -> (r: Option<Vec<u8>>)
    ensures
        bytes_view(r) == key_encoding(*k),
{
    let alpha = g1_encoding(&k.alpha.x, &k.alpha.y)?;
    let beta = g2_encoding(&k.beta.x0, &k.beta.x1, &k.beta.y0, &k.beta.y1)?;
    let gamma = g2_encoding(&k.gamma.x0, &k.gamma.x1, &k.gamma.y0, &k.gamma.y1)?;
    let delta = g2_encoding(&k.delta.x0, &k.delta.x1, &k.delta.y0, &k.delta.y1)?;
    let mut out: Vec<u8> = Vec::new();
    append(&mut out, &alpha);
    append(&mut out, &beta);
    append(&mut out, &gamma);
    append(&mut out, &delta);
    append_u64_le(&mut out, k.ic.len() as u64);
    let ghost head = out@;
    let mut i: usize = 0;
    while i < k.ic.len()
        invariant
            i <= k.ic@.len(),
            out@ == head + points_bytes(k.ic@.subrange(0, i as int)),
            forall|j: int| 0 <= j < i ==> (#[trigger] g1_enc(k.ic@[j])) is Some,
        decreases k.ic@.len() - i,
    {
        let p = &k.ic[i];
        let e = match g1_encoding(&p.x, &p.y) {
            Some(e) => e,
            None => {
                assert(g1_enc(k.ic@[i as int]) is None);
                assert(!points_encode(k.ic@));
                return None;
            },
        };
        append(&mut out, &e);
        let ghost next = k.ic@.subrange(0, i + 1);
        assert(next.drop_last() =~= k.ic@.subrange(0, i as int));
        i = i + 1;
    }
    assert(k.ic@.subrange(0, k.ic@.len() as int) =~= k.ic@);
    Some(out)
}

/// Checks `proof` for `inputs` (big-endian field elements) under key `k`:
/// `Ok(valid)`, `ProofIsEmpty` for an empty proof, or `VerificationError`
/// when the sizes are off or a point or input does not decode.
pub fn verify(k: &VerifyingKeyJson, inputs: &Vec<Vec<u8>>, proof: &Vec<u8>) -> (r: Result<
    bool,
    Error,
>)
    ensures
        r == verify_result(*k, words_view(inputs@), proof@),
{
    if proof.len() == 0 {
        return Err(Error::ProofIsEmpty);
    }
    if proof.len() > MAX_PROOF_LENGTH || inputs.len() > MAX_PUBLIC_INPUTS_LENGTH || inputs.len() as u64
        != k.n_public {
        return Err(Error::VerificationError);
    }
    let vk = match encode_verifying_key(k) {
        Some(vk) => vk,
        None => return Err(Error::VerificationError),
    };
    match groth16_verdict(&vk, inputs, proof) {
        Some(b) => Ok(b),
        None => Err(Error::VerificationError),
    }
}

} // verus!
