//! Wire types, events, errors and limits of the light client.
use vstd::prelude::*;
use crate::bytes::{zero_bytes, zero_seq};

verus! {

/// Fewest sync-committee signers a step may carry.
pub const MIN_SYNC_COMMITTEE_PARTICIPANTS: u16 = 10;

/// Most field elements a proof may take as public inputs.
pub const MAX_PUBLIC_INPUTS_LENGTH: usize = 9;

/// Longest accepted verifying key, in bytes of JSON.
pub const MAX_VERIFICATION_KEY_LENGTH: usize = 4143;

/// Longest accepted proof, in bytes.
pub const MAX_PROOF_LENGTH: usize = 1133;

/// Function id under which the generic call layer verifies step proofs;
/// calls under any other id are checked with the rotate key.
pub fn step_function_id() -> (r: [u8; 32])
    ensures
        r@ == zero_seq(),
{
    zero_bytes()
}

#[derive(Clone, Copy, Debug, PartialEq, Eq, Structural)]
pub enum Error {
    UpdaterMisMatch,
    VerificationError,
    CannotUpdateStateStorage,
    UpdateSlotIsFarInTheFuture,
    UpdateSlotLessThanCurrentHead,
    NotEnoughParticipants,
    SyncCommitteeNotInitialized,
    NotEnoughSyncCommitteeParticipants,
    TooLongVerificationKey,
    ProofIsEmpty,
    VerificationKeyIsNotSet,
    MalformedVerificationKey,
    NotSupportedCurve,
    NotSupportedProtocol,
    ProofCreationError,
    InvalidRotateProof,
    InvalidStepProof,
    StepVerificationError,
    HeaderRootNotSet,
    VerificationFailed,
}

#[derive(Clone, Debug, PartialEq, Eq)]
pub enum Event {
    /// The head moved to `slot`, whose header root is `finalization_root`.
    HeadUpdate { slot: u64, finalization_root: [u8; 32] },
    /// The committee commitment of `period` was set to `root` (big-endian).
    SyncCommitteeUpdate { period: u64, root: [u8; 32] },
    VerificationSetupCompleted,
    VerificationSuccess { who: [u8; 32], attested_slot: u64, finalized_slot: u64 },
    NewUpdater { old: [u8; 32], new: [u8; 32] },
}

/// The singleton configuration and progress record of the light client.
#[derive(Clone, Copy, Debug, PartialEq, Eq)]
pub struct State {
    pub updater: [u8; 32],
    pub genesis_validators_root: [u8; 32],
    pub genesis_time: u64,
    pub seconds_per_slot: u64,
    pub slots_per_period: u64,
    pub source_chain_id: u32,
    pub finality_threshold: u16,
    pub head: u64,
    pub consistent: bool,
}

impl State {
    /// Slots and periods are well defined: both divisors are positive, and the
    /// period after any slot's period is representable.
    pub open spec fn wf(self) -> bool {
        self.seconds_per_slot > 0 && self.slots_per_period > 1
    }
}

/// A head update: the finalized header and execution state roots at
/// `finalized_slot`, signed by `participation` committee members at
/// `attested_slot`, with the Groth16 proof of all of it.
#[derive(Clone, Debug, PartialEq, Eq)]
pub struct LightClientStep {
    pub attested_slot: u64,
    pub finalized_slot: u64,
    pub participation: u16,
    pub finalized_header_root: [u8; 32],
    pub execution_state_root: [u8; 32],
    pub proof: Vec<u8>,
}

/// A step that also attests to the next period's committee commitment.
#[derive(Clone, Debug, PartialEq, Eq)]
pub struct LightClientRotate {
    pub step: LightClientStep,
    pub sync_committee_ssz: [u8; 32],
    /// Poseidon commitment of the next committee, as a big-endian 256-bit integer.
    pub sync_committee_poseidon: [u8; 32],
    pub proof: Vec<u8>,
}

/// What a verified step call attests to.
#[derive(Clone, Copy, Debug, PartialEq, Eq)]
pub struct StepOutput {
    pub finalized_header_root: [u8; 32],
    pub execution_state_root: [u8; 32],
    pub finalized_slot: u64,
    pub participation: u16,
}

/// The output of a verified generic call, tagged by the function it came from.
#[derive(Clone, Copy, Debug, PartialEq, Eq)]
pub enum VerifiedOutput {
    Step(StepOutput),
    Rotate { sync_committee_poseidon: [u8; 32] },
}

/// The most recent generic call whose proof was accepted.
#[derive(Clone, Copy, Debug, PartialEq, Eq)]
pub struct VerifiedCallStore {
    pub verified_function_id: [u8; 32],
    pub verified_input_hash: [u8; 32],
    pub verified_output: VerifiedOutput,
}

/// Values installed when the chain starts.
#[derive(Clone, Copy, Debug, PartialEq, Eq)]
pub struct GenesisConfig {
    pub updater: [u8; 32],
    pub genesis_validators_root: [u8; 32],
    /// Unix time of slot 0, in seconds.
    pub genesis_time: u64,
    /// Length of a slot, in the same unit as `genesis_time` and the clock.
    pub seconds_per_slot: u64,
    pub slots_per_period: u64,
    pub source_chain_id: u32,
    pub finality_threshold: u16,
    /// Committee commitment of period 0, as a big-endian 256-bit integer.
    pub sync_committee_poseidon: [u8; 32],
}

} // verus!
