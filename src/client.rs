//! The light client's extrinsics with proof verification inline: each
//! loads the installed key, encodes the circuit's public inputs, runs the
//! Groth16 verifier, and applies the verdict.
use vstd::prelude::*;
use crate::groth16::{verify, verify_result, words_view};
use crate::inputs::{rotate_inputs, rotate_public_inputs, step_inputs, step_public_inputs};
use crate::pallet::{period_of, slot_reached, Pallet};
use crate::types::{Error, LightClientRotate, LightClientStep, MIN_SYNC_COMMITTEE_PARTICIPANTS};
use crate::vkey::{key_matches, load_check, Flavor, VerifyingKeyJson};

verus! {

impl Pallet {
    /// `v` is a verdict that verifying `proof` for `inputs` under the
    /// installed key of `flavor` can give: the key's load error, or the
    /// verifier's answer under the key the stored JSON decodes to.
    pub open spec fn verdict_allowed(
        self,
        flavor: Flavor,
        inputs: Seq<Seq<u8>>,
        proof: Seq<u8>,
        v: Result<bool, Error>,
    ) -> bool {
        match load_check(self.key_bytes(flavor)) {
            Err(e) => v == Err::<bool, Error>(e),
            Ok(_) => exists|k: VerifyingKeyJson|
                key_matches(self.key_bytes(flavor), k) && v == verify_result(k, inputs, proof),
        }
    }

    /// The committee commitment that the proofs of `update` are checked against.
    pub open spec fn step_committee(self, update: LightClientStep) -> Seq<u8> {
        self.poseidon_of(period_of(update.finalized_slot, self.state.slots_per_period))
    }

    /// Verifies `proof` for `inputs` under the installed key of `flavor`.
    pub fn check_proof(&self, flavor: Flavor, inputs: &Vec<Vec<u8>>, proof: &Vec<u8>) -> (v: Result<
        bool,
        Error,
    >)
        ensures
            self.verdict_allowed(flavor, words_view(inputs@), proof@, v),
    {
        let k = match self.get_verifier_key(flavor) {
            Ok(k) => k,
            Err(e) => return Err(e),
        };
        verify(&k, inputs, proof)
    }

    /// Updates the head to `update.finalized_slot` when `caller` is the
    /// updater, the period's committee is known, enough members signed,
    /// the step proof verifies, the signers pass the finality threshold,
    /// the attested slot has started by `now`, and the head does not move
    /// back. Returns whether the head moved: `Ok(false)` means the roots
    /// disagreed with stored history and the consistency flag was latched.
    pub fn step(&mut self, caller: [u8; 32], update: &LightClientStep, now: u64) -> (r: Result<
        bool,
        Error,
    >)
        requires
            old(self).wf(),
        ensures
            old(self).step_precheck(caller, *update) matches Err(e) ==> r == Err::<bool, Error>(e)
                && *final(self) == *old(self),
            old(self).step_precheck(caller, *update) is Ok ==> exists|v: Result<bool, Error>|
                old(self).verdict_allowed(
                    Flavor::Step,
                    step_inputs(old(self).step_committee(*update), *update),
                    update.proof@,
                    v,
                ) && #[trigger] final(self).step_applied(*old(self), caller, *update, now, v, r),
            old(self).evolves_to(*final(self)),
            *final(self) != *old(self) ==> caller@ == old(self).state.updater@,
            r is Ok ==> {
                &&& update.participation > old(self).state.finality_threshold
                &&& update.participation >= MIN_SYNC_COMMITTEE_PARTICIPANTS
                &&& slot_reached(old(self).state, now, update.attested_slot)
                &&& update.finalized_slot >= old(self).state.head
            },
            final(self).headers@ != old(self).headers@ ==> {
                &&& exists|k: VerifyingKeyJson|
                    key_matches(old(self).key_bytes(Flavor::Step), k) && verify_result(
                        k,
                        step_inputs(old(self).step_committee(*update), *update),
                        update.proof@,
                    ) == Ok::<bool, Error>(true)
            },
    {
        match self.check_step_precheck(caller, update) {
            Err(e) => return Err(e),
            Ok(_) => {},
        }
        let poseidon = self.stored_poseidon(update.finalized_slot / self.state.slots_per_period);
        let inputs = step_public_inputs(update, &poseidon);
        let verdict = self.check_proof(Flavor::Step, &inputs, &update.proof);
        self.step_with_verdict(caller, update, now, verdict)
    }

    /// Runs the step checks of `update.step` up to its proof, then the
    /// rotate proof; on success emits `VerificationSuccess` and, when the
    /// step is finalized, records the next period's committee commitment
    /// (or latches the flag when a different one is stored).
    pub fn rotate(&mut self, caller: [u8; 32], update: &LightClientRotate) -> (r: Result<(), Error>)
        requires
            old(self).wf(),
        ensures
            old(self).step_precheck(caller, update.step) matches Err(e) ==> r == Err::<(), Error>(e)
                && *final(self) == *old(self),
            old(self).step_precheck(caller, update.step) is Ok ==> exists|
                sv: Result<bool, Error>,
                rv: Result<bool, Error>,
            |
                {
                    &&& old(self).verdict_allowed(
                        Flavor::Step,
                        step_inputs(old(self).step_committee(update.step), update.step),
                        update.step.proof@,
                        sv,
                    )
                    &&& sv == Ok::<bool, Error>(true) ==> old(self).verdict_allowed(
                        Flavor::Rotate,
                        rotate_inputs(old(self).step_committee(update.step), *update),
                        update.proof@,
                        rv,
                    )
                    &&& #[trigger] final(self).rotate_applied(*old(self), caller, *update, sv, rv, r)
                },
            old(self).evolves_to(*final(self)),
            *final(self) != *old(self) ==> caller@ == old(self).state.updater@,
            final(self).sync_committee_poseidons@ != old(self).sync_committee_poseidons@ ==> {
                &&& exists|k: VerifyingKeyJson|
                    key_matches(old(self).key_bytes(Flavor::Step), k) && verify_result(
                        k,
                        step_inputs(old(self).step_committee(update.step), update.step),
                        update.step.proof@,
                    ) == Ok::<bool, Error>(true)
                &&& exists|k: VerifyingKeyJson|
                    key_matches(old(self).key_bytes(Flavor::Rotate), k) && verify_result(
                        k,
                        rotate_inputs(old(self).step_committee(update.step), *update),
                        update.proof@,
                    ) == Ok::<bool, Error>(true)
            },
    {
        match self.check_step_precheck(caller, &update.step) {
            Err(e) => return Err(e),
            Ok(_) => {},
        }
        let poseidon = self.stored_poseidon(update.step.finalized_slot / self.state.slots_per_period);
        let step_inputs = step_public_inputs(&update.step, &poseidon);
        let step_verdict = self.check_proof(Flavor::Step, &step_inputs, &update.step.proof);
        let rotate_verdict = match step_verdict {
            Ok(true) => {
                let inputs = rotate_public_inputs(update, &poseidon);
                self.check_proof(Flavor::Rotate, &inputs, &update.proof)
            },
            _ => Ok(false),
        };
        self.rotate_with_verdict(caller, update, step_verdict, rotate_verdict)
    }
}

} // verus!
