use ark_bn254::{Bn254, Fr, G1Affine, G2Affine};
use ark_ec::{AffineRepr, CurveGroup};
use ark_ff::PrimeField;
use ark_serialize::CanonicalSerialize;
use succinct_bridge::calls::parse_step_output;
use succinct_bridge::inputs::{rotate_public_inputs, step_public_inputs, word_from_u64};
use succinct_bridge::pallet::Pallet;
use succinct_bridge::types::{
    Error, Event, GenesisConfig, LightClientRotate, LightClientStep, StepOutput, VerifiedOutput,
};
use succinct_bridge::vkey::{decode_verifying_key, Flavor};

const UPDATER: [u8; 32] = [7u8; 32];
const OTHER: [u8; 32] = [9u8; 32];
const GENESIS_TIME: u64 = 1_000;
const SECONDS_PER_SLOT: u64 = 12;
const R_H: [u8; 32] = [0x11u8; 32];
const R_S: [u8; 32] = [0x22u8; 32];
const COMMITTEE_A: [u8; 32] = [0x33u8; 32];
const COMMITTEE_B: [u8; 32] = [0x44u8; 32];

const G2_X0: &str = "10857046999023057135944570762232829481370756359578518086990519993285655852781";
const G2_X1: &str = "11559732032986387107991004021392285783925812861821192530917403151452391805634";
const G2_Y0: &str = "8495653923123431417604973247489272438418190587263600148770280649306958101930";
const G2_Y1: &str = "4082367875863433681332203403145435568316851327593401208105741076214120093531";

fn config() -> GenesisConfig {
    GenesisConfig {
        updater: UPDATER,
        genesis_validators_root: [0u8; 32],
        genesis_time: GENESIS_TIME,
        seconds_per_slot: SECONDS_PER_SLOT,
        slots_per_period: 8192,
        source_chain_id: 1,
        finality_threshold: 290,
        sync_committee_poseidon: COMMITTEE_A,
    }
}

/// The wall-clock time at which `slot` starts.
fn time_of(slot: u64) -> u64 {
    GENESIS_TIME + SECONDS_PER_SLOT * slot
}

fn update(attested: u64, finalized: u64, participation: u16, header: [u8; 32]) -> LightClientStep {
    LightClientStep {
        attested_slot: attested,
        finalized_slot: finalized,
        participation,
        finalized_header_root: header,
        execution_state_root: R_S,
        proof: vec![1u8],
    }
}

/// A snarkjs key whose points are all generators, with `n_public` inputs.
fn key_json(curve: &str, protocol: &str, n_public: usize, ic_len: usize) -> String {
    let g1 = "[\"1\",\"2\",\"1\"]";
    let g2 = format!("[[\"{G2_X0}\",\"{G2_X1}\"],[\"{G2_Y0}\",\"{G2_Y1}\"],[\"1\",\"0\"]]");
    let ic = vec![g1; ic_len].join(",");
    format!(
        "{{\"protocol\":\"{protocol}\",\"curve\":\"{curve}\",\"nPublic\":{n_public},\"vk_alpha_1\":{g1},\"vk_beta_2\":{g2},\"vk_gamma_2\":{g2},\"vk_delta_2\":{g2},\"IC\":[{ic}]}}"
    )
}

fn valid_key(n_public: usize) -> String {
    key_json("bn128", "groth16", n_public, n_public + 1)
}

/// A proof that the all-generator key accepts for `inputs`: with every
/// point a generator, e(A, B) = e(α, β)·e(vk_x, γ)·e(C, δ) holds for
/// B = H, C = G and A = (3 + Σ inputs)·G.
fn proof_for(inputs: &[Vec<u8>]) -> Vec<u8> {
    let mut a = Fr::from(3u64);
    for w in inputs {
        a += Fr::from_be_bytes_mod_order(w);
    }
    let proof = ark_groth16::Proof::<Bn254> {
        a: (G1Affine::generator() * a).into_affine(),
        b: G2Affine::generator(),
        c: G1Affine::generator(),
    };
    let mut out = Vec::new();
    proof.serialize_compressed(&mut out).unwrap();
    out
}

fn happy_state() -> Pallet {
    let mut p = config().build();
    let u = update(100, 90, 400, R_H);
    assert_eq!(p.step_with_verdict(UPDATER, &u, time_of(200), Ok(true)), Ok(true));
    p
}

#[test]
fn happy_step() {
    let p = happy_state();
    assert_eq!(p.get_state().head, 90);
    assert_eq!(p.get_header(90), R_H);
    assert_eq!(p.get_state_root(90), R_S);
    assert_eq!(p.get_timestamp(90), time_of(200));
    assert!(p.get_state().consistent);
    assert_eq!(p.events(), &vec![Event::HeadUpdate { slot: 90, finalization_root: R_H }]);
}

#[test]
fn rejected_by_updater() {
    let mut p = config().build();
    let u = update(100, 90, 400, R_H);
    assert_eq!(p.step_with_verdict(OTHER, &u, time_of(200), Ok(true)), Err(Error::UpdaterMisMatch));
    assert_eq!(p.get_state().head, 0);
    assert_eq!(p.get_header(90), [0u8; 32]);
    assert!(p.events().is_empty());
}

#[test]
fn rejected_by_participation() {
    let mut p = config().build();
    let u = update(100, 90, 200, R_H);
    assert_eq!(
        p.step_with_verdict(UPDATER, &u, time_of(200), Ok(true)),
        Err(Error::NotEnoughParticipants)
    );
    assert_eq!(p.get_state().head, 0);
    assert_eq!(p.get_header(90), [0u8; 32]);
}

#[test]
fn participation_at_threshold_is_rejected() {
    let mut p = config().build();
    let u = update(100, 90, 290, R_H);
    assert_eq!(
        p.step_with_verdict(UPDATER, &u, time_of(200), Ok(true)),
        Err(Error::NotEnoughParticipants)
    );
    let u = update(100, 90, 291, R_H);
    assert_eq!(p.step_with_verdict(UPDATER, &u, time_of(200), Ok(true)), Ok(true));
}

#[test]
fn consistency_latch() {
    let mut p = happy_state();
    let u = update(100, 90, 400, [0x55u8; 32]);
    assert_eq!(p.step_with_verdict(UPDATER, &u, time_of(200), Ok(true)), Ok(false));
    assert!(!p.get_state().consistent);
    assert_eq!(p.get_header(90), R_H);
    assert_eq!(p.events().len(), 1);
    // the flag stays down after a later good step
    let u = update(150, 120, 400, R_H);
    assert_eq!(p.step_with_verdict(UPDATER, &u, time_of(200), Ok(true)), Ok(true));
    assert!(!p.get_state().consistent);
    assert_eq!(p.get_state().head, 120);
}

#[test]
fn conflicting_state_root_latches() {
    let mut p = happy_state();
    let mut u = update(100, 90, 400, R_H);
    u.execution_state_root = [0x66u8; 32];
    assert_eq!(p.step_with_verdict(UPDATER, &u, time_of(200), Ok(true)), Ok(false));
    assert!(!p.get_state().consistent);
    assert_eq!(p.get_state_root(90), R_S);
}

#[test]
fn same_roots_again_are_accepted() {
    let mut p = happy_state();
    let u = update(100, 90, 400, R_H);
    assert_eq!(p.step_with_verdict(UPDATER, &u, time_of(200), Ok(true)), Ok(true));
    assert!(p.get_state().consistent);
}

fn rotate_update(finalized: u64, poseidon: [u8; 32]) -> LightClientRotate {
    LightClientRotate {
        step: update(finalized + 10, finalized, 400, R_H),
        sync_committee_ssz: [0u8; 32],
        sync_committee_poseidon: poseidon,
        proof: vec![2u8],
    }
}

#[test]
fn rotate_then_step() {
    let mut p = config().build();
    // period 1's committee comes from a rotation attested in period 0
    assert_eq!(p.rotate_with_verdict(UPDATER, &rotate_update(100, COMMITTEE_A), Ok(true), Ok(true)), Ok(()));
    assert_eq!(p.get_poseidon(1), COMMITTEE_A);
    assert_eq!(p.rotate_with_verdict(UPDATER, &rotate_update(9000, COMMITTEE_B), Ok(true), Ok(true)), Ok(()));
    assert_eq!(p.get_poseidon(2), COMMITTEE_B);
    assert_eq!(
        p.events().last(),
        Some(&Event::SyncCommitteeUpdate { period: 2, root: COMMITTEE_B })
    );
    assert_eq!(p.get_state().head, 0);
    let u = update(9010, 9000, 400, R_H);
    assert_eq!(p.step_with_verdict(UPDATER, &u, time_of(9100), Ok(true)), Ok(true));
    assert_eq!(p.get_state().head, 9000);
}

#[test]
fn rotate_without_finality_records_nothing() {
    let mut p = config().build();
    let mut r = rotate_update(100, COMMITTEE_B);
    r.step.participation = 200;
    assert_eq!(p.rotate_with_verdict(UPDATER, &r, Ok(true), Ok(true)), Ok(()));
    assert_eq!(p.get_poseidon(1), [0u8; 32]);
    assert_eq!(
        p.events(),
        &vec![Event::VerificationSuccess { who: UPDATER, attested_slot: 110, finalized_slot: 100 }]
    );
}

#[test]
fn rotate_same_commitment_is_idempotent() {
    let mut p = config().build();
    assert_eq!(p.rotate_with_verdict(UPDATER, &rotate_update(100, COMMITTEE_B), Ok(true), Ok(true)), Ok(()));
    assert_eq!(p.rotate_with_verdict(UPDATER, &rotate_update(100, COMMITTEE_B), Ok(true), Ok(true)), Ok(()));
    assert!(p.get_state().consistent);
    assert_eq!(p.events().len(), 3);
}

#[test]
fn rotate_conflicting_commitment_latches() {
    let mut p = config().build();
    assert_eq!(p.rotate_with_verdict(UPDATER, &rotate_update(100, COMMITTEE_B), Ok(true), Ok(true)), Ok(()));
    assert_eq!(p.rotate_with_verdict(UPDATER, &rotate_update(100, COMMITTEE_A), Ok(true), Ok(true)), Ok(()));
    assert!(!p.get_state().consistent);
    assert_eq!(p.get_poseidon(1), COMMITTEE_B);
}

#[test]
fn rotate_errors() {
    let mut p = config().build();
    let r = rotate_update(100, COMMITTEE_B);
    assert_eq!(p.rotate_with_verdict(OTHER, &r, Ok(true), Ok(true)), Err(Error::UpdaterMisMatch));
    assert_eq!(p.rotate_with_verdict(UPDATER, &r, Ok(false), Ok(true)), Err(Error::InvalidStepProof));
    assert_eq!(p.rotate_with_verdict(UPDATER, &r, Ok(true), Ok(false)), Err(Error::InvalidRotateProof));
    assert_eq!(
        p.rotate_with_verdict(UPDATER, &r, Ok(true), Err(Error::VerificationError)),
        Err(Error::VerificationError)
    );
    assert!(p.events().is_empty());
}

#[test]
fn step_error_order() {
    let mut p = config().build();
    let u = update(100, 9000, 400, R_H);
    assert_eq!(
        p.step_with_verdict(UPDATER, &u, time_of(200), Ok(true)),
        Err(Error::SyncCommitteeNotInitialized)
    );
    let u = update(100, 90, 9, R_H);
    assert_eq!(
        p.step_with_verdict(UPDATER, &u, time_of(200), Ok(true)),
        Err(Error::NotEnoughSyncCommitteeParticipants)
    );
    let u = update(100, 90, 400, R_H);
    assert_eq!(p.step_with_verdict(UPDATER, &u, time_of(200), Ok(false)), Err(Error::InvalidStepProof));
    assert_eq!(
        p.step_with_verdict(UPDATER, &u, time_of(200), Err(Error::VerificationError)),
        Err(Error::VerificationError)
    );
    assert_eq!(
        p.step_with_verdict(UPDATER, &u, time_of(99), Ok(true)),
        Err(Error::UpdateSlotIsFarInTheFuture)
    );
    assert_eq!(
        p.step_with_verdict(UPDATER, &u, GENESIS_TIME - 1, Ok(true)),
        Err(Error::UpdateSlotIsFarInTheFuture)
    );
    assert_eq!(p.step_with_verdict(UPDATER, &u, time_of(100), Ok(true)), Ok(true));
    let u = update(100, 80, 400, R_H);
    assert_eq!(
        p.step_with_verdict(UPDATER, &u, time_of(200), Ok(true)),
        Err(Error::UpdateSlotLessThanCurrentHead)
    );
    assert_eq!(p.get_state().head, 90);
}

#[test]
fn head_never_decreases() {
    let mut p = config().build();
    let mut last = 0;
    for (finalized, header) in [(50u64, [1u8; 32]), (40, [2u8; 32]), (70, [3u8; 32]), (70, [4u8; 32]), (60, [5u8; 32])] {
        let _ = p.step_with_verdict(UPDATER, &update(80, finalized, 400, header), time_of(100), Ok(true));
        assert!(p.get_state().head >= last);
        last = p.get_state().head;
    }
    assert_eq!(last, 70);
    assert_eq!(p.get_header(70), [3u8; 32]);
}

#[test]
fn set_updater_replaces_updater() {
    let mut p = config().build();
    p.set_updater(OTHER);
    assert_eq!(p.get_state().updater, OTHER);
    assert_eq!(p.events(), &vec![Event::NewUpdater { old: UPDATER, new: OTHER }]);
    let u = update(100, 90, 400, R_H);
    assert_eq!(p.step_with_verdict(UPDATER, &u, time_of(200), Ok(true)), Err(Error::UpdaterMisMatch));
    assert_eq!(p.step_with_verdict(OTHER, &u, time_of(200), Ok(true)), Ok(true));
}

#[test]
fn key_governance() {
    let mut p = config().build();
    assert_eq!(
        p.setup_step_verification(&key_json("bls12_381", "groth16", 6, 7)),
        Err(Error::NotSupportedCurve)
    );
    let valid = valid_key(6);
    assert_eq!(
        p.setup_step_verification(&valid[..valid.len() - 5]),
        Err(Error::MalformedVerificationKey)
    );
    assert!(p.events().is_empty());
    assert_eq!(p.setup_step_verification(&valid), Ok(()));
    assert_eq!(p.events(), &vec![Event::VerificationSetupCompleted]);
    // the installed key is used: a proof that does not decode is a verification error
    let u = update(100, 90, 400, R_H);
    assert_eq!(p.step(UPDATER, &u, time_of(200)), Err(Error::VerificationError));
}

#[test]
fn key_validation_errors() {
    let mut p = config().build();
    assert_eq!(
        p.setup_rotate_verification(&key_json("bn128", "plonk", 7, 8)),
        Err(Error::NotSupportedProtocol)
    );
    assert_eq!(
        p.setup_rotate_verification(&key_json("bn128", "groth16", 7, 7)),
        Err(Error::MalformedVerificationKey)
    );
    let long = format!("{}{}", valid_key(7), " ".repeat(4200));
    assert_eq!(
        p.store_rotate_verification_key(long.into_bytes()),
        Err(Error::TooLongVerificationKey)
    );
    assert!(p.store_rotate_verification_key(valid_key(7).into_bytes()).is_ok());
    assert!(p.get_verifier_key(Flavor::Rotate).is_ok());
    assert_eq!(p.get_verifier_key(Flavor::Step), Err(Error::VerificationKeyIsNotSet));
}

#[test]
fn installed_key_decodes_again() {
    let mut p = config().build();
    let json = valid_key(6);
    let decoded = decode_verifying_key(json.as_bytes()).unwrap();
    assert_eq!(decoded.n_public, 6);
    assert_eq!(decoded.ic.len(), 7);
    assert_eq!(decoded.beta.x0, G2_X0);
    assert_eq!(decoded.curve, "bn128");
    assert_eq!(p.setup_step_verification(&json), Ok(()));
    assert_eq!(p.get_verifier_key(Flavor::Step), Ok(decoded));
}

#[test]
fn step_without_key() {
    let mut p = config().build();
    let u = update(100, 90, 400, R_H);
    assert_eq!(p.step(UPDATER, &u, time_of(200)), Err(Error::VerificationKeyIsNotSet));
    assert_eq!(p.step(OTHER, &u, time_of(200)), Err(Error::UpdaterMisMatch));
}

#[test]
fn empty_proof_is_rejected() {
    let mut p = config().build();
    assert_eq!(p.setup_step_verification(&valid_key(6)), Ok(()));
    let mut u = update(100, 90, 400, R_H);
    u.proof = Vec::new();
    assert_eq!(p.step(UPDATER, &u, time_of(200)), Err(Error::ProofIsEmpty));
}

#[test]
fn word_encoding_is_big_endian() {
    let w = word_from_u64(0x0102);
    assert_eq!(w.len(), 32);
    assert_eq!(&w[..30], &[0u8; 30][..]);
    assert_eq!(&w[30..], &[1u8, 2u8][..]);
    let u = update(100, 90, 400, R_H);
    let inputs = step_public_inputs(&u, &COMMITTEE_A);
    assert_eq!(inputs.len(), 6);
    assert_eq!(inputs[0], COMMITTEE_A.to_vec());
    assert_eq!(inputs[1], word_from_u64(100));
    assert_eq!(inputs[3], word_from_u64(400));
    assert_eq!(inputs[5], R_S.to_vec());
    let r = rotate_update(100, COMMITTEE_B);
    assert_eq!(rotate_public_inputs(&r, &COMMITTEE_A)[6], COMMITTEE_B.to_vec());
}

#[test]
fn step_with_real_proof() {
    let mut p = config().build();
    assert_eq!(p.setup_step_verification(&valid_key(6)), Ok(()));
    let mut u = update(100, 90, 400, R_H);
    u.proof = proof_for(&step_public_inputs(&u, &COMMITTEE_A));
    assert_eq!(p.step(UPDATER, &u, time_of(200)), Ok(true));
    assert_eq!(p.get_state().head, 90);
    assert_eq!(p.get_header(90), R_H);
    // the same proof does not fit other inputs
    let mut v = update(120, 110, 400, R_H);
    v.proof = u.proof.clone();
    assert_eq!(p.step(UPDATER, &v, time_of(200)), Err(Error::InvalidStepProof));
}

#[test]
fn rotate_with_real_proofs() {
    let mut p = config().build();
    assert_eq!(p.setup_step_verification(&valid_key(6)), Ok(()));
    assert_eq!(p.setup_rotate_verification(&valid_key(7)), Ok(()));
    let mut r = rotate_update(100, COMMITTEE_B);
    r.step.proof = proof_for(&step_public_inputs(&r.step, &COMMITTEE_A));
    r.proof = proof_for(&rotate_public_inputs(&r, &COMMITTEE_A));
    assert_eq!(p.rotate(UPDATER, &r), Ok(()));
    assert_eq!(p.get_poseidon(1), COMMITTEE_B);
    let mut bad = r.clone();
    bad.sync_committee_poseidon = COMMITTEE_A;
    assert_eq!(p.rotate(UPDATER, &bad), Err(Error::InvalidRotateProof));
}

fn step_output_bytes(slot: u64, participation: u16) -> Vec<u8> {
    let mut out = Vec::new();
    out.extend_from_slice(&R_H);
    out.extend_from_slice(&R_S);
    out.extend_from_slice(&slot.to_be_bytes());
    out.extend_from_slice(&participation.to_be_bytes());
    out
}

#[test]
fn parses_step_output() {
    let o = parse_step_output(&step_output_bytes(0x0102030405060708, 0x0190)).unwrap();
    assert_eq!(
        o,
        StepOutput {
            finalized_header_root: R_H,
            execution_state_root: R_S,
            finalized_slot: 0x0102030405060708,
            participation: 400,
        }
    );
    assert_eq!(parse_step_output(&vec![0u8; 73]), None);
}

fn sha256(b: &[u8]) -> Vec<u8> {
    sp_core::hashing::sha2_256(b).to_vec()
}

#[test]
fn fulfill_call_then_step_refactor() {
    let mut p = config().build();
    assert_eq!(p.setup_step_verification(&valid_key(2)), Ok(()));
    let mut input = COMMITTEE_A.to_vec();
    input.extend_from_slice(&word_from_u64(100));
    let output = step_output_bytes(90, 400);
    let proof = proof_for(&[sha256(&input), sha256(&output)]);
    assert_eq!(p.step_refactor(UPDATER, 100, time_of(200)), Err(Error::StepVerificationError));
    assert_eq!(p.fulfill_call(OTHER, [0u8; 32], &input, &output, &proof), Err(Error::UpdaterMisMatch));
    assert_eq!(p.fulfill_call(UPDATER, [0u8; 32], &input, &output, &proof), Ok(()));
    let cached = p.verified_call.unwrap();
    assert_eq!(cached.verified_input_hash.to_vec(), sha256(&input));
    assert!(matches!(cached.verified_output, VerifiedOutput::Step(o) if o.finalized_slot == 90));
    // a different attested slot does not match the cached input
    assert_eq!(p.step_refactor(UPDATER, 101, time_of(200)), Err(Error::StepVerificationError));
    assert_eq!(p.step_refactor(UPDATER, 100, time_of(200)), Ok(true));
    assert_eq!(p.get_state().head, 90);
    assert_eq!(p.get_header(90), R_H);
}

#[test]
fn fulfill_call_rejections() {
    let mut p = config().build();
    assert_eq!(p.setup_step_verification(&valid_key(2)), Ok(()));
    let input = vec![1u8, 2, 3];
    let output = step_output_bytes(90, 400);
    let proof = proof_for(&[sha256(&input), sha256(&[9u8])]);
    assert_eq!(
        p.fulfill_call(UPDATER, [0u8; 32], &input, &output, &proof),
        Err(Error::VerificationFailed)
    );
    assert_eq!(
        p.record_verified_call([0u8; 32], [0u8; 32], &vec![0u8; 10], Ok(true)),
        Err(Error::VerificationFailed)
    );
    assert_eq!(
        p.record_verified_call([1u8; 32], [0u8; 32], &COMMITTEE_B.to_vec(), Ok(true)),
        Ok(())
    );
    assert_eq!(
        p.verified_call.unwrap().verified_output,
        VerifiedOutput::Rotate { sync_committee_poseidon: COMMITTEE_B }
    );
}
