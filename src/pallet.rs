//! Storage of the light client and its state transitions, each taking the
//! proof verifier's verdict as an argument.
use vstd::prelude::*;
use std::collections::HashMap;
use crate::bytes::{bytes_eq, bytes_is_zero, is_zero, lookup, zero_bytes, zero_seq};
use crate::types::{
    Error, Event, GenesisConfig, LightClientRotate, LightClientStep, State,
    MIN_SYNC_COMMITTEE_PARTICIPANTS,
};

verus! {

broadcast use vstd::std_specs::hash::group_hash_axioms;

/// The light client's persistent storage and the events it has emitted.
pub struct Pallet {
    pub state: State,
    pub headers: HashMap<u64, [u8; 32]>,
    pub execution_state_roots: HashMap<u64, [u8; 32]>,
    pub timestamps: HashMap<u64, u64>,
    pub sync_committee_poseidons: HashMap<u64, [u8; 32]>,
    pub step_verification_key: Vec<u8>,
    pub rotate_verification_key: Vec<u8>,
    pub verified_call: Option<crate::types::VerifiedCallStore>,
    pub event_log: Vec<Event>,
}

/// The sync-committee period that `slot` falls in.
pub open spec fn period_of(slot: u64, slots_per_period: u64) -> u64
    recommends
        slots_per_period > 0,
{
    (slot / slots_per_period) as u64
}

/// Whether `slot` has started by wall-clock time `now`.
pub open spec fn slot_reached(st: State, now: u64, slot: u64) -> bool {
    now >= st.genesis_time && (now - st.genesis_time) / (st.seconds_per_slot as int) >= slot
}

/// With at least two slots a period, no slot is in the last representable period.
proof fn lemma_period_below_max(slot: u64, slots_per_period: u64)
    requires
        slots_per_period > 1,
    ensures
        slot / slots_per_period < u64::MAX,
{
    assert(slot / slots_per_period <= slot / 2) by (nonlinear_arith)
        requires
            slots_per_period > 1,
    ;
}

/// The laws chain: what holds across each operation holds across any
/// sequence of them.
pub proof fn lemma_evolution_transitive(a: Pallet, b: Pallet, c: Pallet)
    requires
        a.evolves_to(b),
        b.evolves_to(c),
    ensures
        a.evolves_to(c),
{
    assert forall|s: u64| !is_zero(a.header_of(s)) implies #[trigger] c.header_of(s) == a.header_of(s) by {
        assert(b.header_of(s) == a.header_of(s));
    }
    assert forall|s: u64| !is_zero(a.state_root_of(s)) implies #[trigger] c.state_root_of(s)
        == a.state_root_of(s) by {
        assert(b.state_root_of(s) == a.state_root_of(s));
    }
    assert forall|p: u64| !is_zero(a.poseidon_of(p)) implies #[trigger] c.poseidon_of(p)
        == a.poseidon_of(p) by {
        assert(b.poseidon_of(p) == a.poseidon_of(p));
    }
}

impl GenesisConfig {
    /// The storage at chain start: the configured state with head 0 and the
    /// flag up, period 0's committee seeded, no keys and nothing else.
    pub fn build(&self) -> (r: Pallet)
        requires
            self.seconds_per_slot > 0,
            self.slots_per_period > 1,
        ensures
            r.wf(),
            r.state == (State {
                updater: self.updater,
                genesis_validators_root: self.genesis_validators_root,
                genesis_time: self.genesis_time,
                seconds_per_slot: self.seconds_per_slot,
                slots_per_period: self.slots_per_period,
                source_chain_id: self.source_chain_id,
                finality_threshold: self.finality_threshold,
                head: 0,
                consistent: true,
            }),
            r.headers@ == Map::<u64, [u8; 32]>::empty(),
            r.execution_state_roots@ == Map::<u64, [u8; 32]>::empty(),
            r.timestamps@ == Map::<u64, u64>::empty(),
            r.sync_committee_poseidons@ == Map::<u64, [u8; 32]>::empty().insert(
                0,
                self.sync_committee_poseidon,
            ),
            r.step_verification_key@.len() == 0,
            r.rotate_verification_key@.len() == 0,
            r.verified_call.is_none(),
            r.event_log@.len() == 0,
    {
        let mut poseidons = HashMap::new();
        poseidons.insert(0u64, self.sync_committee_poseidon);
        Pallet {
            state: State {
                updater: self.updater,
                genesis_validators_root: self.genesis_validators_root,
                genesis_time: self.genesis_time,
                seconds_per_slot: self.seconds_per_slot,
                slots_per_period: self.slots_per_period,
                source_chain_id: self.source_chain_id,
                finality_threshold: self.finality_threshold,
                head: 0,
                consistent: true,
            },
            headers: HashMap::new(),
            execution_state_roots: HashMap::new(),
            timestamps: HashMap::new(),
            sync_committee_poseidons: poseidons,
            step_verification_key: Vec::new(),
            rotate_verification_key: Vec::new(),
            verified_call: None,
            event_log: Vec::new(),
        }
    }
}

impl Pallet {
    pub open spec fn wf(self) -> bool {
        self.state.wf()
    }

    pub open spec fn header_of(self, slot: u64) -> Seq<u8> {
        lookup(self.headers@, slot)
    }

    pub open spec fn state_root_of(self, slot: u64) -> Seq<u8> {
        lookup(self.execution_state_roots@, slot)
    }

    pub open spec fn poseidon_of(self, period: u64) -> Seq<u8> {
        lookup(self.sync_committee_poseidons@, period)
    }

    pub open spec fn timestamp_of(self, slot: u64) -> u64 {
        if self.timestamps@.contains_key(slot) {
            self.timestamps@[slot]
        } else {
            0
        }
    }

    /// A non-zero root is already stored at `slot` and differs from `root`.
    pub open spec fn header_conflicts(self, slot: u64, root: Seq<u8>) -> bool {
        !is_zero(self.header_of(slot)) && self.header_of(slot) != root
    }

    pub open spec fn state_root_conflicts(self, slot: u64, root: Seq<u8>) -> bool {
        !is_zero(self.state_root_of(slot)) && self.state_root_of(slot) != root
    }

    /// Either stored root at `slot` disagrees with the submitted pair.
    pub open spec fn roots_conflict(self, slot: u64, header: Seq<u8>, state_root: Seq<u8>) -> bool {
        self.header_conflicts(slot, header) || self.state_root_conflicts(slot, state_root)
    }

    /// Every map, key and cached call is as in `old` (the state record and
    /// the event log may differ).
    pub open spec fn storage_kept_from(self, old: Pallet) -> bool {
        &&& self.headers@ == old.headers@
        &&& self.execution_state_roots@ == old.execution_state_roots@
        &&& self.timestamps@ == old.timestamps@
        &&& self.sync_committee_poseidons@ == old.sync_committee_poseidons@
        &&& self.step_verification_key@ == old.step_verification_key@
        &&& self.rotate_verification_key@ == old.rotate_verification_key@
        &&& self.verified_call == old.verified_call
    }

    /// Everything but the consistency flag is as in `old`, and the flag is down.
    pub open spec fn latched_from(self, old: Pallet) -> bool {
        &&& self.state == (State { consistent: false, ..old.state })
        &&& self.storage_kept_from(old)
    }

    /// `self` is `old` with the roots of `slot` committed, the head moved
    /// there, the acceptance time recorded, and `HeadUpdate` emitted.
    pub open spec fn committed_from(
        self,
        old: Pallet,
        slot: u64,
        header: [u8; 32],
        state_root: [u8; 32],
        now: u64,
    ) -> bool {
        &&& self.state == (State { head: slot, ..old.state })
        &&& self.headers@ == old.headers@.insert(slot, header)
        &&& self.execution_state_roots@ == old.execution_state_roots@.insert(slot, state_root)
        &&& self.timestamps@ == old.timestamps@.insert(slot, now)
        &&& self.sync_committee_poseidons@ == old.sync_committee_poseidons@
        &&& self.step_verification_key@ == old.step_verification_key@
        &&& self.rotate_verification_key@ == old.rotate_verification_key@
        &&& self.verified_call == old.verified_call
        &&& self.event_log@ == old.event_log@.push(
            Event::HeadUpdate { slot, finalization_root: header },
        )
    }

    /// No stored header or state root was replaced by a different one, and
    /// no committee commitment either.
    pub open spec fn history_kept_from(self, old: Pallet) -> bool {
        &&& forall|s: u64| #![trigger self.header_of(s)]
            !is_zero(old.header_of(s)) ==> self.header_of(s) == old.header_of(s)
        &&& forall|s: u64| #![trigger self.state_root_of(s)]
            !is_zero(old.state_root_of(s)) ==> self.state_root_of(s) == old.state_root_of(s)
        &&& forall|p: u64| #![trigger self.poseidon_of(p)]
            !is_zero(old.poseidon_of(p)) ==> self.poseidon_of(p) == old.poseidon_of(p)
    }

    /// The first of the update-independent step checks that fails, if any:
    /// caller identity, committee presence for the finalized slot's period,
    /// and the minimum signer count.
    pub open spec fn step_precheck(self, caller: [u8; 32], update: LightClientStep) -> Result<(), Error> {
        if caller@ != self.state.updater@ {
            Err(Error::UpdaterMisMatch)
        } else if is_zero(
            self.poseidon_of(period_of(update.finalized_slot, self.state.slots_per_period)),
        ) {
            Err(Error::SyncCommitteeNotInitialized)
        } else if update.participation < MIN_SYNC_COMMITTEE_PARTICIPANTS {
            Err(Error::NotEnoughSyncCommitteeParticipants)
        } else {
            Ok(())
        }
    }

    /// The step checks up to and including the proof: `Ok(finalized)` where
    /// `finalized` says whether the signers exceed the finality threshold.
    pub open spec fn proven_step(
        self,
        caller: [u8; 32],
        update: LightClientStep,
        verdict: Result<bool, Error>,
        invalid: Error,
    ) -> Result<bool, Error> {
        match self.step_precheck(caller, update) {
            Err(e) => Err(e),
            Ok(_) => match verdict {
                Err(e) => Err(e),
                Ok(false) => Err(invalid),
                Ok(true) => Ok(update.participation > self.state.finality_threshold),
            },
        }
    }

    /// What `step` returns: an error, or whether the head moved (`false`
    /// when the roots disagree with history and the flag was latched).
    pub open spec fn step_result(
        self,
        caller: [u8; 32],
        update: LightClientStep,
        now: u64,
        verdict: Result<bool, Error>,
    ) -> Result<bool, Error> {
        match self.proven_step(caller, update, verdict, Error::InvalidStepProof) {
            Err(e) => Err(e),
            Ok(false) => Err(Error::NotEnoughParticipants),
            Ok(true) => if !slot_reached(self.state, now, update.attested_slot) {
                Err(Error::UpdateSlotIsFarInTheFuture)
            } else if update.finalized_slot < self.state.head {
                Err(Error::UpdateSlotLessThanCurrentHead)
            } else {
                Ok(
                    !self.roots_conflict(
                        update.finalized_slot,
                        update.finalized_header_root@,
                        update.execution_state_root@,
                    ),
                )
            },
        }
    }

    /// `self` is what applying `update` to `old` with these verdicts leaves,
    /// and `r` what it returns.
    pub open spec fn rotate_applied(
        self,
        old: Pallet,
        caller: [u8; 32],
        update: LightClientRotate,
        step_verdict: Result<bool, Error>,
        rotate_verdict: Result<bool, Error>,
        r: Result<(), Error>,
    ) -> bool {
        &&& self.wf()
        &&& r == old.rotate_result(caller, update, step_verdict, rotate_verdict)
        &&& r is Err ==> self == old
        &&& r is Ok ==> {
            let st = old.state;
            let step = update.step;
            let next = (period_of(step.finalized_slot, st.slots_per_period) + 1) as u64;
            let success = Event::VerificationSuccess {
                who: caller,
                attested_slot: step.attested_slot,
                finalized_slot: step.finalized_slot,
            };
            let stored = old.poseidon_of(next);
            if step.participation <= st.finality_threshold || stored
                == update.sync_committee_poseidon@ && !is_zero(stored) {
                &&& self.state == st
                &&& self.storage_kept_from(old)
                &&& self.event_log@ == old.event_log@.push(success)
            } else if is_zero(stored) {
                &&& self.committee_set_from(
                    old,
                    next,
                    update.sync_committee_poseidon,
                )
                &&& self.event_log@ == old.event_log@.push(success).push(
                    Event::SyncCommitteeUpdate {
                        period: next,
                        root: update.sync_committee_poseidon,
                    },
                )
            } else {
                &&& self.latched_from(old)
                &&& self.event_log@ == old.event_log@.push(success)
            }
        }
    }

    /// `self` is what applying `update` at time `now` to `old` with this
    /// verdict leaves, and `r` what it returns.
    pub open spec fn step_applied(
        self,
        old: Pallet,
        caller: [u8; 32],
        update: LightClientStep,
        now: u64,
        verdict: Result<bool, Error>,
        r: Result<bool, Error>,
    ) -> bool {
        &&& self.wf()
        &&& r == old.step_result(caller, update, now, verdict)
        &&& r is Err ==> self == old
        &&& r == Ok::<bool, Error>(true) ==> self.committed_from(
            old,
            update.finalized_slot,
            update.finalized_header_root,
            update.execution_state_root,
            now,
        )
        &&& r == Ok::<bool, Error>(false) ==> self.latched_from(old) && self.event_log@
            == old.event_log@
    }

    /// Applies a head update whose proof the verifier judged `verdict`
    /// (`Ok(valid)`, or the error that decoding the key or proof gave).
    pub fn step_with_verdict(
        &mut self,
        caller: [u8; 32],
        update: &LightClientStep,
        now: u64,
        verdict: Result<bool, Error>,
    ) -> (r: Result<bool, Error>)
        requires
            old(self).wf(),
        ensures
            final(self).step_applied(*old(self), caller, *update, now, verdict, r),
            old(self).evolves_to(*final(self)),
            *final(self) != *old(self) ==> caller@ == old(self).state.updater@,
            final(self).headers@ != old(self).headers@ ==> verdict == Ok::<bool, Error>(true),
            r is Ok ==> {
                &&& update.participation > old(self).state.finality_threshold
                &&& update.participation >= MIN_SYNC_COMMITTEE_PARTICIPANTS
                &&& slot_reached(old(self).state, now, update.attested_slot)
                &&& update.finalized_slot >= old(self).state.head
            },
    {
        let finalized = match self.check_proven_step(caller, update, verdict, Error::InvalidStepProof) {
            Err(e) => return Err(e),
            Ok(f) => f,
        };
        if !finalized {
            return Err(Error::NotEnoughParticipants);
        }
        if !self.slot_has_started(now, update.attested_slot) {
            return Err(Error::UpdateSlotIsFarInTheFuture);
        }
        if update.finalized_slot < self.state.head {
            return Err(Error::UpdateSlotLessThanCurrentHead);
        }
        let updated = self.set_slot_roots(
            update.finalized_slot,
            update.finalized_header_root,
            update.execution_state_root,
            now,
        );
        proof {
            self.lemma_history_kept(*old(self));
        }
        Ok(updated)
    }

    pub(crate) proof fn lemma_history_kept(self, old: Pallet)
        requires
            self.latched_from(old) || exists|slot: u64, h: [u8; 32], s: [u8; 32], now: u64|
                self.committed_from(old, slot, h, s, now) && !old.roots_conflict(slot, h@, s@),
        ensures
            self.history_kept_from(old),
    {
    }

    pub(crate) fn check_step_precheck(&self, caller: [u8; 32], update: &LightClientStep) -> (r:
        Result<(), Error>)
        requires
            self.wf(),
        ensures
            r == self.step_precheck(caller, *update),
    {
        if !bytes_eq(&caller, &self.state.updater) {
            return Err(Error::UpdaterMisMatch);
        }
        let poseidon = self.stored_poseidon(update.finalized_slot / self.state.slots_per_period);
        if bytes_is_zero(&poseidon) {
            return Err(Error::SyncCommitteeNotInitialized);
        }
        if update.participation < MIN_SYNC_COMMITTEE_PARTICIPANTS {
            return Err(Error::NotEnoughSyncCommitteeParticipants);
        }
        Ok(())
    }

    fn check_proven_step(
        &self,
        caller: [u8; 32],
        update: &LightClientStep,
        verdict: Result<bool, Error>,
        invalid: Error,
    ) -> (r: Result<bool, Error>)
        requires
            self.wf(),
        ensures
            r == self.proven_step(caller, *update, verdict, invalid),
    {
        match self.check_step_precheck(caller, update) {
            Err(e) => return Err(e),
            Ok(_) => {},
        }
        match verdict {
            Err(e) => Err(e),
            Ok(false) => Err(invalid),
            Ok(true) => Ok(update.participation > self.state.finality_threshold),
        }
    }

    fn slot_has_started(&self, now: u64, slot: u64) -> (r: bool)
        requires
            self.wf(),
        ensures
            r == slot_reached(self.state, now, slot),
    {
        now >= self.state.genesis_time && (now - self.state.genesis_time)
            / self.state.seconds_per_slot >= slot
    }

    /// What `rotate` returns; the effects are stated beside it.
    pub open spec fn rotate_result(
        self,
        caller: [u8; 32],
        update: LightClientRotate,
        step_verdict: Result<bool, Error>,
        rotate_verdict: Result<bool, Error>,
    ) -> Result<(), Error> {
        match self.proven_step(caller, update.step, step_verdict, Error::InvalidStepProof) {
            Err(e) => Err(e),
            Ok(_) => match rotate_verdict {
                Err(e) => Err(e),
                Ok(false) => Err(Error::InvalidRotateProof),
                Ok(true) => Ok(()),
            },
        }
    }

    /// `self` is `old` with only the committee of `period` set to `root`.
    pub open spec fn committee_set_from(self, old: Pallet, period: u64, root: [u8; 32]) -> bool {
        &&& self.state == old.state
        &&& self.headers@ == old.headers@
        &&& self.execution_state_roots@ == old.execution_state_roots@
        &&& self.timestamps@ == old.timestamps@
        &&& self.sync_committee_poseidons@ == old.sync_committee_poseidons@.insert(period, root)
        &&& self.step_verification_key@ == old.step_verification_key@
        &&& self.rotate_verification_key@ == old.rotate_verification_key@
        &&& self.verified_call == old.verified_call
    }

    /// Applies a committee rotation whose step proof the verifier judged
    /// `step_verdict` and whose rotate proof it judged `rotate_verdict`.
    /// When the step is finalized, the next period's commitment is written
    /// if unset, left alone if equal, and otherwise the flag is latched.
    pub fn rotate_with_verdict(
        &mut self,
        caller: [u8; 32],
        update: &LightClientRotate,
        step_verdict: Result<bool, Error>,
        rotate_verdict: Result<bool, Error>,
    ) -> (r: Result<(), Error>)
        requires
            old(self).wf(),
        ensures
            final(self).rotate_applied(*old(self), caller, *update, step_verdict, rotate_verdict, r),
            old(self).evolves_to(*final(self)),
            *final(self) != *old(self) ==> caller@ == old(self).state.updater@,
            final(self).sync_committee_poseidons@ != old(self).sync_committee_poseidons@ ==> {
                &&& step_verdict == Ok::<bool, Error>(true)
                &&& rotate_verdict == Ok::<bool, Error>(true)
                &&& caller@ == old(self).state.updater@
            },
    {
        let step = &update.step;
        let finalized = match self.check_proven_step(caller, step, step_verdict, Error::InvalidStepProof) {
            Err(e) => return Err(e),
            Ok(f) => f,
        };
        match rotate_verdict {
            Err(e) => return Err(e),
            Ok(false) => return Err(Error::InvalidRotateProof),
            Ok(true) => {},
        }
        let current_period = step.finalized_slot / self.state.slots_per_period;
        proof {
            lemma_period_below_max(step.finalized_slot, self.state.slots_per_period);
        }
        let next_period = current_period + 1;
        self.event_log.push(
            Event::VerificationSuccess {
                who: caller,
                attested_slot: step.attested_slot,
                finalized_slot: step.finalized_slot,
            },
        );
        if finalized {
            let is_set = self.set_sync_committee_poseidon(next_period, update.sync_committee_poseidon);
            if is_set {
                self.event_log.push(
                    Event::SyncCommitteeUpdate {
                        period: next_period,
                        root: update.sync_committee_poseidon,
                    },
                );
            }
        }
        Ok(())
    }

    /// Sets the committee commitment of `period` if it is unset (returns
    /// `true`); keeps it if equal (`false`); otherwise latches the flag (`false`).
    fn set_sync_committee_poseidon(&mut self, period: u64, poseidon: [u8; 32]) -> (r: bool)
        ensures
            r == is_zero(old(self).poseidon_of(period)),
            r ==> final(self).committee_set_from(*old(self), period, poseidon),
            !r && old(self).poseidon_of(period) == poseidon@ ==> *final(self) == *old(self),
            !r && old(self).poseidon_of(period) != poseidon@ ==> final(self).latched_from(
                *old(self),
            ),
            final(self).event_log@ == old(self).event_log@,
    {
        let stored = self.stored_poseidon(period);
        if bytes_is_zero(&stored) {
            self.sync_committee_poseidons.insert(period, poseidon);
            return true;
        }
        if !bytes_eq(&stored, &poseidon) {
            self.latch_inconsistent();
        }
        false
    }

    /// Replaces the updater and emits `NewUpdater`; nothing else changes.
    pub fn set_updater(&mut self, updater: [u8; 32])
        ensures
            final(self).state == (State { updater, ..old(self).state }),
            final(self).storage_kept_from(*old(self)),
            final(self).event_log@ == old(self).event_log@.push(
                Event::NewUpdater { old: old(self).state.updater, new: updater },
            ),
            old(self).evolves_to(*final(self)),
    {
        let old_updater = self.state.updater;
        self.state.updater = updater;
        self.event_log.push(Event::NewUpdater { old: old_updater, new: updater });
    }

    /// The stored header root of `slot`, all zeros when none is.
    pub fn get_header(&self, slot: u64) -> (r: [u8; 32])
        ensures
            r@ == self.header_of(slot),
    {
        self.stored_header(slot)
    }

    /// The stored execution state root of `slot`, all zeros when none is.
    pub fn get_state_root(&self, slot: u64) -> (r: [u8; 32])
        ensures
            r@ == self.state_root_of(slot),
    {
        self.stored_state_root(slot)
    }

    /// The committee commitment of `period`, all zeros when none is.
    pub fn get_poseidon(&self, period: u64) -> (r: [u8; 32])
        ensures
            r@ == self.poseidon_of(period),
    {
        self.stored_poseidon(period)
    }

    /// When the header of `slot` was accepted, 0 when it was not.
    pub fn get_timestamp(&self, slot: u64) -> (r: u64)
        ensures
            r == self.timestamp_of(slot),
    {
        match self.timestamps.get(&slot) {
            Some(t) => *t,
            None => 0,
        }
    }

    /// The singleton state record.
    pub fn get_state(&self) -> (r: State)
        ensures
            r == self.state,
    {
        self.state
    }

    /// Every event emitted so far, oldest first.
    pub fn events(&self) -> (r: &Vec<Event>)
        ensures
            r@ == self.event_log@,
    {
        &self.event_log
    }

    /// The laws every operation keeps: the head never moves back, the
    /// consistency flag never comes back up, and no stored header, state
    /// root or committee commitment is ever replaced by a different one.
    pub open spec fn evolves_to(self, new: Pallet) -> bool {
        &&& self.state.head <= new.state.head
        &&& !self.state.consistent ==> !new.state.consistent
        &&& new.history_kept_from(self)
    }

    /// Commits the roots of `slot` unless either disagrees with what is
    /// stored; on disagreement only the consistency flag drops.
    pub(crate) fn set_slot_roots(
        &mut self,
        slot: u64,
        finalized_header_root: [u8; 32],
        execution_state_root: [u8; 32],
        now: u64,
    ) -> (r: bool)
        ensures
            r == !old(self).roots_conflict(slot, finalized_header_root@, execution_state_root@),
            r ==> final(self).committed_from(
                *old(self),
                slot,
                finalized_header_root,
                execution_state_root,
                now,
            ),
            !r ==> final(self).latched_from(*old(self)),
            !r ==> final(self).event_log@ == old(self).event_log@,
    {
        let header = self.stored_header(slot);
        if !bytes_is_zero(&header) && !bytes_eq(&header, &finalized_header_root) {
            self.latch_inconsistent();
            return false;
        }
        let state_root = self.stored_state_root(slot);
        if !bytes_is_zero(&state_root) && !bytes_eq(&state_root, &execution_state_root) {
            self.latch_inconsistent();
            return false;
        }
        self.state.head = slot;
        self.headers.insert(slot, finalized_header_root);
        self.execution_state_roots.insert(slot, execution_state_root);
        self.timestamps.insert(slot, now);
        self.event_log.push(Event::HeadUpdate { slot, finalization_root: finalized_header_root });
        true
    }

    fn latch_inconsistent(&mut self)
        ensures
            final(self).latched_from(*old(self)),
            final(self).event_log@ == old(self).event_log@,
    {
        self.state.consistent = false;
    }

    fn stored_header(&self, slot: u64) -> (r: [u8; 32])
        ensures
            r@ == self.header_of(slot),
    {
        match self.headers.get(&slot) {
            Some(v) => *v,
            None => zero_bytes(),
        }
    }

    fn stored_state_root(&self, slot: u64) -> (r: [u8; 32])
        ensures
            r@ == self.state_root_of(slot),
    {
        match self.execution_state_roots.get(&slot) {
            Some(v) => *v,
            None => zero_bytes(),
        }
    }

    pub(crate) fn stored_poseidon(&self, period: u64) -> (r: [u8; 32])
        ensures
            r@ == self.poseidon_of(period),
    {
        match self.sync_committee_poseidons.get(&period) {
            Some(v) => *v,
            None => zero_bytes(),
        }
    }
}

} // verus!
