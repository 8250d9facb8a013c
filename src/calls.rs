//! The generic verified-call layer: a proof over the hashes of a call's
//! input and output is checked once and its parsed output cached, and a
//! later `step_refactor` applies the cached step output.
use vstd::prelude::*;
use crate::bytes::{bytes_eq, bytes_is_zero, is_zero};
use crate::groth16::words_view;
use crate::inputs::{word_from_bytes, word_of};
use crate::pallet::{period_of, slot_reached, Pallet};
use crate::types::{
    step_function_id, Error, StepOutput, VerifiedCallStore, VerifiedOutput,
    MIN_SYNC_COMMITTEE_PARTICIPANTS,
};
use crate::vkey::Flavor;

verus! {

/// The SHA-256 digest of `data`.
pub uninterp spec fn sha256_of(data: Seq<u8>) -> Seq<u8>;

/// Relies on sp_core::hashing::sha2_256: the SHA-256 digest of `data`.
#[verifier::external_body]
fn sha2_256(data: &[u8]) -> (r: [u8; 32])
    ensures
        r@ == sha256_of(data@),
{
    sp_core::hashing::sha2_256(data)
}

/// Relies on ethabi::encode of two `Token::Uint`: each a 32-byte
/// big-endian word, one after the other.
#[verifier::external_body]
fn abi_encode_uints(a: &[u8; 32], b: u64) -> (r: Vec<u8>)
    ensures
        r@ == a@ + word_of(b as nat),
{
    let a = ethabi::Token::Uint(ethabi::Uint::from_big_endian(a));
    ethabi::encode(&[a, ethabi::Token::Uint(ethabi::Uint::from(b))])
}

/// The big-endian value of `s`.
pub open spec fn be_value(s: Seq<u8>) -> nat
    decreases s.len(),
{
    if s.len() == 0 {
        0
    } else {
        be_value(s.drop_last()) * 256 + s.last() as nat
    }
}

pub open spec fn pow256(n: nat) -> nat
    decreases n,
{
    if n == 0 {
        1
    } else {
        256 * pow256((n - 1) as nat)
    }
}

proof fn lemma_be_value_bound(s: Seq<u8>)
    ensures
        be_value(s) < pow256(s.len()),
    decreases s.len(),
{
    if s.len() > 0 {
        lemma_be_value_bound(s.drop_last());
        let v = be_value(s.drop_last());
        let p = pow256((s.len() - 1) as nat);
        assert(v * 256 + s.last() < p * 256) by (nonlinear_arith)
            requires
                v < p,
                s.last() < 256,
        ;
    }
}

/// Reads `len` bytes of `b` from `start` as a big-endian integer.
fn read_be(b: &Vec<u8>, start: usize, len: usize) -> (r: u64)
    requires
        len <= 8,
        start + len <= b@.len(),
    ensures
        r as nat == be_value(b@.subrange(start as int, start + len)),
{
    let n = b.len();
    let mut v: u64 = 0;
    let mut i: usize = 0;
    while i < len
        invariant
            n == b@.len(),
            i <= len <= 8,
            start + len <= b@.len(),
            v as nat == be_value(b@.subrange(start as int, start + i)),
        decreases len - i,
    {
        let ghost s = b@.subrange(start as int, start + i + 1);
        assert(s.drop_last() =~= b@.subrange(start as int, start + i));
        proof {
            lemma_be_value_bound(b@.subrange(start as int, start + i));
            reveal_with_fuel(pow256, 8);
            assert(pow256(7) == 72057594037927936nat);
            lemma_pow256_mono(i as nat, 7);
        }
        v = v * 256 + b[start + i] as u64;
        i = i + 1;
    }
    v
}

proof fn lemma_pow256_mono(a: nat, b: nat)
    requires
        a <= b,
    ensures
        pow256(a) <= pow256(b),
    decreases b,
{
    if a < b {
        lemma_pow256_mono(a, (b - 1) as nat);
    }
}

fn read_word(b: &Vec<u8>, start: usize) -> (r: [u8; 32])
    requires
        start + 32 <= b@.len(),
    ensures
        r@ == b@.subrange(start as int, start + 32),
{
    let n = b.len();
    let mut r = [0u8; 32];
    let mut i: usize = 0;
    while i < 32
        invariant
            n == b@.len(),
            i <= 32,
            start + 32 <= b@.len(),
            r@.len() == 32,
            forall|j: int| 0 <= j < i ==> r@[j] == b@[start + j],
        decreases 32 - i,
    {
        r.set(i, b[start + i]);
        i = i + 1;
    }
    assert(r@ =~= b@.subrange(start as int, start + 32));
    r
}

/// A step call's output: the header root, the execution state root, the
/// finalized slot (8 bytes) and the participation (2 bytes), packed
/// big-endian in 74 bytes.
pub open spec fn step_output_matches(b: Seq<u8>, o: StepOutput) -> bool {
    &&& b.len() == 74
    &&& o.finalized_header_root@ == b.subrange(0, 32)
    &&& o.execution_state_root@ == b.subrange(32, 64)
    &&& o.finalized_slot as nat == be_value(b.subrange(64, 72))
    &&& o.participation as nat == be_value(b.subrange(72, 74))
}

/// A rotate call's output: the next committee's commitment, 32 bytes.
pub open spec fn rotate_output_matches(b: Seq<u8>, o: VerifiedOutput) -> bool {
    &&& b.len() == 32
    &&& o matches VerifiedOutput::Rotate { sync_committee_poseidon } && sync_committee_poseidon@ == b
}

/// Parses a step call's output; `None` unless it is exactly 74 bytes.
pub fn parse_step_output(output: &Vec<u8>) -> (r: Option<StepOutput>)
    ensures
        r is Some == (output@.len() == 74),
        r matches Some(o) ==> step_output_matches(output@, o),
{
    if output.len() != 74 {
        return None;
    }
    let finalized_header_root = read_word(output, 0);
    let execution_state_root = read_word(output, 32);
    let finalized_slot = read_be(output, 64, 8);
    let participation = read_be(output, 72, 2);
    proof {
        lemma_be_value_bound(output@.subrange(72, 74));
        reveal_with_fuel(pow256, 3);
    }
    Some(
        StepOutput {
            finalized_header_root,
            execution_state_root,
            finalized_slot,
            participation: participation as u16,
        },
    )
}

/// Parses a rotate call's output; `None` unless it is exactly 32 bytes.
pub fn parse_rotate_output(output: &Vec<u8>) -> (r: Option<VerifiedOutput>)
    ensures
        r is Some == (output@.len() == 32),
        r matches Some(o) ==> rotate_output_matches(output@, o),
{
    if output.len() != 32 {
        return None;
    }
    let w = read_word(output, 0);
    assert(output@.subrange(0, 32) =~= output@);
    Some(VerifiedOutput::Rotate { sync_committee_poseidon: w })
}

/// Which key checks the proofs of calls to `function_id`.
pub open spec fn flavor_of(function_id: [u8; 32]) -> Flavor {
    if function_id@ == crate::bytes::zero_seq() {
        Flavor::Step
    } else {
        Flavor::Rotate
    }
}

pub open spec fn output_parses(flavor: Flavor, b: Seq<u8>) -> bool {
    match flavor {
        Flavor::Step => b.len() == 74,
        Flavor::Rotate => b.len() == 32,
    }
}

pub open spec fn output_matches(flavor: Flavor, b: Seq<u8>, o: VerifiedOutput) -> bool {
    match flavor {
        Flavor::Step => o matches VerifiedOutput::Step(so) && step_output_matches(b, so),
        Flavor::Rotate => rotate_output_matches(b, o),
    }
}

/// The public inputs of a generic call's proof: the digests of its input and output.
pub open spec fn call_inputs(input: Seq<u8>, output: Seq<u8>) -> Seq<Seq<u8>> {
    seq![sha256_of(input), sha256_of(output)]
}

impl Pallet {
    /// `self` is `old` with only the cached call replaced.
    pub open spec fn call_cached_from(self, old: Pallet) -> bool {
        &&& self.state == old.state
        &&& self.headers@ == old.headers@
        &&& self.execution_state_roots@ == old.execution_state_roots@
        &&& self.timestamps@ == old.timestamps@
        &&& self.sync_committee_poseidons@ == old.sync_committee_poseidons@
        &&& self.step_verification_key@ == old.step_verification_key@
        &&& self.rotate_verification_key@ == old.rotate_verification_key@
        &&& self.event_log@ == old.event_log@
    }

    /// What recording a call of `function_id` with output `output`, whose
    /// proof the verifier judged `verdict`, leaves and returns.
    pub open spec fn call_recorded(
        self,
        old: Pallet,
        function_id: [u8; 32],
        input_hash: Seq<u8>,
        output: Seq<u8>,
        verdict: Result<bool, Error>,
        r: Result<(), Error>,
    ) -> bool {
        &&& r == match verdict {
            Err(e) => Err(e),
            Ok(false) => Err(Error::VerificationFailed),
            Ok(true) => if output_parses(flavor_of(function_id), output) {
                Ok(())
            } else {
                Err(Error::VerificationFailed)
            },
        }
        &&& r is Err ==> self == old
        &&& r is Ok ==> {
            &&& self.call_cached_from(old)
            &&& self.verified_call matches Some(c) && c.verified_function_id == function_id
                && c.verified_input_hash@ == input_hash && output_matches(
                flavor_of(function_id),
                output,
                c.verified_output,
            )
        }
    }

    /// Caches the parsed `output` of a call to `function_id` whose proof
    /// the verifier judged `verdict`.
    pub fn record_verified_call(
        &mut self,
        function_id: [u8; 32],
        input_hash: [u8; 32],
        output: &Vec<u8>,
        verdict: Result<bool, Error>,
    ) -> (r: Result<(), Error>)
        ensures
            old(self).evolves_to(*final(self)),
            final(self).call_recorded(*old(self), function_id, input_hash@, output@, verdict, r),
    {
        match verdict {
            Err(e) => return Err(e),
            Ok(false) => return Err(Error::VerificationFailed),
            Ok(true) => {},
        }
        let step_id = step_function_id();
        let parsed = if bytes_eq(&function_id, &step_id) {
            match parse_step_output(output) {
                Some(o) => Some(VerifiedOutput::Step(o)),
                None => None,
            }
        } else {
            parse_rotate_output(output)
        };
        match parsed {
            None => Err(Error::VerificationFailed),
            Some(o) => {
                self.verified_call = Some(
                    VerifiedCallStore {
                        verified_function_id: function_id,
                        verified_input_hash: input_hash,
                        verified_output: o,
                    },
                );
                Ok(())
            },
        }
    }

    /// Verifies a generic call of `function_id` (its proof is over the
    /// digests of `input` and `output`) and caches its parsed output.
    pub fn fulfill_call(
        &mut self,
        caller: [u8; 32],
        function_id: [u8; 32],
        input: &Vec<u8>,
        output: &Vec<u8>,
        proof: &Vec<u8>,
    ) -> (r: Result<(), Error>)
        ensures
            caller@ != old(self).state.updater@ ==> r == Err::<(), Error>(Error::UpdaterMisMatch)
                && *final(self) == *old(self),
            caller@ == old(self).state.updater@ ==> exists|v: Result<bool, Error>|
                old(self).verdict_allowed(
                    flavor_of(function_id),
                    call_inputs(input@, output@),
                    proof@,
                    v,
                ) && #[trigger] final(self).call_recorded(
                    *old(self),
                    function_id,
                    sha256_of(input@),
                    output@,
                    v,
                    r,
                ),
            old(self).evolves_to(*final(self)),
    {
        if !bytes_eq(&caller, &self.state.updater) {
            return Err(Error::UpdaterMisMatch);
        }
        let input_hash = sha2_256(input.as_slice());
        let output_hash = sha2_256(output.as_slice());
        let step_id = step_function_id();
        let flavor = if bytes_eq(&function_id, &step_id) {
            Flavor::Step
        } else {
            Flavor::Rotate
        };
        let mut words: Vec<Vec<u8>> = Vec::new();
        words.push(word_from_bytes(&input_hash));
        words.push(word_from_bytes(&output_hash));
        assert(words_view(words@) =~= call_inputs(input@, output@));
        let verdict = self.check_proof(flavor, &words, proof);
        self.record_verified_call(function_id, input_hash, output, verdict)
    }

    /// The digest that a cached step call for `attested_slot` must carry:
    /// that of the ABI encoding of the period's committee commitment and
    /// the slot.
    pub open spec fn refactor_input_hash(self, attested_slot: u64) -> Seq<u8> {
        sha256_of(
            self.poseidon_of(period_of(attested_slot, self.state.slots_per_period)) + word_of(
                attested_slot as nat,
            ),
        )
    }

    /// The cached step output for `attested_slot`, if the cache holds one.
    pub open spec fn cached_step_output(self, attested_slot: u64) -> Option<StepOutput> {
        match self.verified_call {
            Some(c) => if c.verified_function_id@ == crate::bytes::zero_seq()
                && c.verified_input_hash@ == self.refactor_input_hash(attested_slot) {
                match c.verified_output {
                    VerifiedOutput::Step(o) => Some(o),
                    _ => None,
                }
            } else {
                None
            },
            None => None,
        }
    }

    /// What `step_refactor` returns.
    pub open spec fn refactor_result(self, caller: [u8; 32], attested_slot: u64, now: u64) -> Result<
        bool,
        Error,
    > {
        if caller@ != self.state.updater@ {
            Err(Error::UpdaterMisMatch)
        } else if is_zero(
            self.poseidon_of(period_of(attested_slot, self.state.slots_per_period)),
        ) {
            Err(Error::SyncCommitteeNotInitialized)
        } else {
            match self.cached_step_output(attested_slot) {
                None => Err(Error::StepVerificationError),
                Some(o) => if o.participation < MIN_SYNC_COMMITTEE_PARTICIPANTS {
                    Err(Error::NotEnoughSyncCommitteeParticipants)
                } else if o.participation <= self.state.finality_threshold {
                    Err(Error::NotEnoughParticipants)
                } else if !slot_reached(self.state, now, attested_slot) {
                    Err(Error::UpdateSlotIsFarInTheFuture)
                } else if o.finalized_slot < self.state.head {
                    Err(Error::UpdateSlotLessThanCurrentHead)
                } else {
                    Ok(
                        !self.roots_conflict(
                            o.finalized_slot,
                            o.finalized_header_root@,
                            o.execution_state_root@,
                        ),
                    )
                },
            }
        }
    }

    /// Applies the cached, already verified step output for
    /// `attested_slot` under the rules of `step`.
    pub fn step_refactor(&mut self, caller: [u8; 32], attested_slot: u64, now: u64) -> (r: Result<
        bool,
        Error,
    >)
        requires
            old(self).wf(),
        ensures
            final(self).wf(),
            r == old(self).refactor_result(caller, attested_slot, now),
            r is Err ==> *final(self) == *old(self),
            r == Ok::<bool, Error>(true) ==> {
                let o = old(self).cached_step_output(attested_slot).unwrap();
                final(self).committed_from(
                    *old(self),
                    o.finalized_slot,
                    o.finalized_header_root,
                    o.execution_state_root,
                    now,
                )
            },
            r == Ok::<bool, Error>(false) ==> final(self).latched_from(*old(self))
                && final(self).event_log@ == old(self).event_log@,
            old(self).evolves_to(*final(self)),
            *final(self) != *old(self) ==> caller@ == old(self).state.updater@,
            r is Ok ==> {
                let o = old(self).cached_step_output(attested_slot).unwrap();
                &&& o.participation > old(self).state.finality_threshold
                &&& o.participation >= MIN_SYNC_COMMITTEE_PARTICIPANTS
                &&& slot_reached(old(self).state, now, attested_slot)
                &&& o.finalized_slot >= old(self).state.head
            },
    {
        if !bytes_eq(&caller, &self.state.updater) {
            return Err(Error::UpdaterMisMatch);
        }
        let poseidon = self.stored_poseidon(attested_slot / self.state.slots_per_period);
        if bytes_is_zero(&poseidon) {
            return Err(Error::SyncCommitteeNotInitialized);
        }
        let input = abi_encode_uints(&poseidon, attested_slot);
        let input_hash = sha2_256(input.as_slice());
        let step_id = step_function_id();
        let o = match self.verified_call {
            Some(c) => {
                if !bytes_eq(&c.verified_function_id, &step_id) || !bytes_eq(
                    &c.verified_input_hash,
                    &input_hash,
                ) {
                    return Err(Error::StepVerificationError);
                }
                match c.verified_output {
                    VerifiedOutput::Step(o) => o,
                    _ => return Err(Error::StepVerificationError),
                }
            },
            None => return Err(Error::StepVerificationError),
        };
        if o.participation < MIN_SYNC_COMMITTEE_PARTICIPANTS {
            return Err(Error::NotEnoughSyncCommitteeParticipants);
        }
        if o.participation <= self.state.finality_threshold {
            return Err(Error::NotEnoughParticipants);
        }
        if !(now >= self.state.genesis_time && (now - self.state.genesis_time)
            / self.state.seconds_per_slot >= attested_slot) {
            return Err(Error::UpdateSlotIsFarInTheFuture);
        }
        if o.finalized_slot < self.state.head {
            return Err(Error::UpdateSlotLessThanCurrentHead);
        }
        let updated = self.set_slot_roots(
            o.finalized_slot,
            o.finalized_header_root,
            o.execution_state_root,
            now,
        );
        proof {
            self.lemma_history_kept(*old(self));
        }
        Ok(updated)
    }
}

} // verus!
