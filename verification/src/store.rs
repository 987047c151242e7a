//! The seed-keyed stores behind the platform's deterministic address
//! derivation.
//!
//! On chain, a match record lives at an address derived from its seed and a
//! donation receipt at an address derived from seed and donor; creating an
//! account at an occupied address fails outright, and resolving an absent
//! one fails before any protocol logic runs.  Both behaviours are enforced
//! here at the store layer: creation is rejected when the key is taken, and
//! consumption is rejected when no record exists.

use std::collections::HashMap;
use vstd::prelude::*;

use crate::errors::BonkPawsError;
use crate::keys::{key_eq, Pubkey};
use crate::state::{DonationHistory, MatchDonationState};

verus! {

broadcast use vstd::std_specs::hash::group_hash_axioms;

/// All live match records, keyed by the seed their address derives from.
pub struct MatchRecordStore {
    records: HashMap<u64, MatchDonationState>,
}

impl View for MatchRecordStore {
    type V = Map<u64, MatchDonationState>;

    closed spec fn view(&self) -> Map<u64, MatchDonationState> {
        self.records@
    }
}

impl MatchRecordStore {
    /// Every stored record carries the seed it is keyed under.
    pub open spec fn wf(&self) -> bool {
        forall|s: u64| self@.contains_key(s) ==> (#[trigger] self@[s]).seed == s
    }

    /// An empty store: no seed has ever been used.
    pub fn new() -> (store: Self)
        ensures
            store@ == Map::<u64, MatchDonationState>::empty(),
            store.wf(),
    {
        MatchRecordStore { records: HashMap::new() }
    }

    /// True when a record is open at `seed`.
    pub fn contains(&self, seed: u64) -> (r: bool)
        ensures
            r == self@.contains_key(seed),
    {
        self.records.contains_key(&seed)
    }

    /// The record open at `seed`, if any.
    pub fn get(&self, seed: u64) -> (r: Option<&MatchDonationState>)
        ensures
            match r {
                Some(rec) => self@.contains_key(seed) && *rec == self@[seed],
                None => !self@.contains_key(seed),
            },
    {
        self.records.get(&seed)
    }

    /// Opens a record at `seed`.  A seed can be used at most once while its
    /// record is open: creation at an occupied seed fails and changes
    /// nothing.
    pub fn create(&mut self, seed: u64, record: MatchDonationState) -> (r: Result<
        (),
        BonkPawsError,
    >)
        requires
            old(self).wf(),
            record.seed == seed,
        ensures
            final(self).wf(),
            r is Ok <==> !old(self)@.contains_key(seed),
            r is Ok ==> final(self)@ == old(self)@.insert(seed, record),
            r is Err ==> r == Err::<(), BonkPawsError>(BonkPawsError::RecordAlreadyExists),
            r is Err ==> final(self)@ == old(self)@,
    {
        if self.records.contains_key(&seed) {
            Err(BonkPawsError::RecordAlreadyExists)
        } else {
            self.records.insert(seed, record);
            proof {
                assert forall|s: u64| self@.contains_key(s) implies (#[trigger] self@[s]).seed
                    == s by {
                    if s != seed {
                        assert(old(self)@.contains_key(s));
                        assert(old(self)@[s].seed == s);
                    }
                }
            }
            Ok(())
        }
    }

    /// Replaces the record open at `seed`.  Only an existing record can
    /// be replaced; the seed binding never changes.
    pub fn update(&mut self, seed: u64, record: MatchDonationState) -> (r: Result<
        (),
        BonkPawsError,
    >)
        requires
            old(self).wf(),
            record.seed == seed,
        ensures
            final(self).wf(),
            r is Ok <==> old(self)@.contains_key(seed),
            r is Ok ==> final(self)@ == old(self)@.insert(seed, record),
            r is Err ==> r == Err::<(), BonkPawsError>(BonkPawsError::RecordNotFound),
            r is Err ==> final(self)@ == old(self)@,
    {
        if self.records.contains_key(&seed) {
            self.records.insert(seed, record);
            proof {
                assert forall|s: u64| self@.contains_key(s) implies (#[trigger] self@[s]).seed
                    == s by {
                    if s != seed {
                        assert(old(self)@.contains_key(s));
                        assert(old(self)@[s].seed == s);
                    }
                }
            }
            Ok(())
        } else {
            Err(BonkPawsError::RecordNotFound)
        }
    }

    /// Consumes and destroys the record at `seed`.  A record can be
    /// destroyed at most once: consuming an absent record fails and
    /// changes nothing.
    pub fn take(&mut self, seed: u64) -> (r: Result<MatchDonationState, BonkPawsError>)
        requires
            old(self).wf(),
        ensures
            final(self).wf(),
            r is Ok <==> old(self)@.contains_key(seed),
            r is Ok ==> r == Ok::<MatchDonationState, BonkPawsError>(old(self)@[seed])
                && final(self)@ == old(self)@.remove(seed),
            r is Err ==> r == Err::<MatchDonationState, BonkPawsError>(
                BonkPawsError::RecordNotFound,
            ),
            r is Err ==> final(self)@ == old(self)@,
    {
        let removed = self.records.remove(&seed);
        proof {
            assert forall|s: u64| self@.contains_key(s) implies (#[trigger] self@[s]).seed
                == s by {
                assert(old(self)@.contains_key(s));
                assert(old(self)@[s].seed == s);
            }
        }
        match removed {
            Some(record) => Ok(record),
            None => Err(BonkPawsError::RecordNotFound),
        }
    }
}

/// The append-only log of donation receipts, one per (seed, donor) pair.
pub struct DonationHistoryLog {
    entries: Vec<(u64, DonationHistory)>,
}

impl View for DonationHistoryLog {
    type V = Seq<(u64, DonationHistory)>;

    closed spec fn view(&self) -> Seq<(u64, DonationHistory)> {
        self.entries@
    }
}

/// True when `entries` already holds a receipt under `seed` for `donor`.
pub open spec fn spec_history_contains(
    entries: Seq<(u64, DonationHistory)>,
    seed: u64,
    donor: Seq<u8>,
) -> bool {
    exists|i: int|
        0 <= i < entries.len() && (#[trigger] entries[i]).0 == seed && entries[i].1.donor@ == donor
}

impl DonationHistoryLog {

    /// An empty log.
    pub fn new() -> (log: Self)
        ensures
            log@ == Seq::<(u64, DonationHistory)>::empty(),
    {
        DonationHistoryLog { entries: Vec::new() }
    }

    /// True when some receipt is already filed under `seed` for `donor`.
    pub fn contains(&self, seed: u64, donor: &Pubkey) -> (r: bool)
        ensures
            r == spec_history_contains(self@, seed, donor@),
    {
        let mut i: usize = 0;
        while i < self.entries.len()
            invariant
                0 <= i <= self@.len(),
                forall|j: int|
                    0 <= j < i ==> !((#[trigger] self@[j]).0 == seed && self@[j].1.donor@
                        == donor@),
            decreases self@.len() - i,
        {
            let entry = &self.entries[i];
            if entry.0 == seed && key_eq(&entry.1.donor, donor) {
                return true;
            }
            i += 1;
        }
        false
    }

    /// Files a receipt under `(seed, donor)`.  The platform creates the
    /// receipt account exactly once; filing a second receipt for the same
    /// pair fails and changes nothing.
    pub fn create(&mut self, seed: u64, entry: DonationHistory) -> (r: Result<(), BonkPawsError>)
        ensures
            r is Ok <==> !spec_history_contains(old(self)@, seed, entry.donor@),
            r is Ok ==> final(self)@ == old(self)@.push((seed, entry)),
            r is Err ==> r == Err::<(), BonkPawsError>(BonkPawsError::RecordAlreadyExists),
            r is Err ==> final(self)@ == old(self)@,
    {
        if self.contains(seed, &entry.donor) {
            Err(BonkPawsError::RecordAlreadyExists)
        } else {
            self.entries.push((seed, entry));
            Ok(())
        }
    }

    /// How many receipts have been filed.
    pub fn len(&self) -> (n: usize)
        ensures
            n == self@.len(),
    {
        self.entries.len()
    }
}

} // verus!
