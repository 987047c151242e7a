//! Persistent protocol state: the singleton donation ledger, the
//! per-donation match record, and the append-only donation receipt.

use vstd::prelude::*;

use crate::errors::BonkPawsError;
use crate::keys::{key_eq, Pubkey};

verus! {

/// The protocol-wide running totals: a public, tamper-evident audit
/// counter.
///
/// All three fields only ever increase, and only through checked addition;
/// no operation subtracts.  `total_burned` advances by
/// `floor(m / BURN_DENOMINATOR)` whenever `total_matched` advances by `m`.
#[derive(Clone, Copy, Debug, PartialEq, Eq, Structural)]
pub struct DonationState {
    /// Sum of every accepted donation amount.
    pub total_donated: u64,
    /// Sum of every matched amount.
    pub total_matched: u64,
    /// Sum of every burned amount.
    pub total_burned: u64,
}

impl DonationState {
    /// The ledger as first created: all totals zero.
    pub fn new() -> (s: Self)
        ensures
            s.total_donated == 0,
            s.total_matched == 0,
            s.total_burned == 0,
    {
        DonationState { total_donated: 0, total_matched: 0, total_burned: 0 }
    }

    /// Adds an accepted donation to `total_donated`; rejects the whole
    /// operation on overflow, leaving the ledger untouched.
    pub fn record_donation(&mut self, amount: u64) -> (r: Result<(), BonkPawsError>)
        ensures
            r is Ok <==> old(self).total_donated + amount <= u64::MAX,
            r is Ok ==> final(self).total_donated == old(self).total_donated + amount,
            r is Err ==> r == Err::<(), BonkPawsError>(BonkPawsError::Overflow),
            r is Err ==> *final(self) == *old(self),
            final(self).total_matched == old(self).total_matched,
            final(self).total_burned == old(self).total_burned,
    {
        match self.total_donated.checked_add(amount) {
            Some(sum) => {
                self.total_donated = sum;
                Ok(())
            },
            None => Err(BonkPawsError::Overflow),
        }
    }

    /// Adds a matched amount to `total_matched`; rejects on overflow.
    pub fn record_match(&mut self, amount: u64) -> (r: Result<(), BonkPawsError>)
        ensures
            r is Ok <==> old(self).total_matched + amount <= u64::MAX,
            r is Ok ==> final(self).total_matched == old(self).total_matched + amount,
            r is Err ==> r == Err::<(), BonkPawsError>(BonkPawsError::Overflow),
            r is Err ==> *final(self) == *old(self),
            final(self).total_donated == old(self).total_donated,
            final(self).total_burned == old(self).total_burned,
    {
        match self.total_matched.checked_add(amount) {
            Some(sum) => {
                self.total_matched = sum;
                Ok(())
            },
            None => Err(BonkPawsError::Overflow),
        }
    }

    /// Adds a burned amount to `total_burned`; rejects on overflow.
    pub fn record_burn(&mut self, amount: u64) -> (r: Result<(), BonkPawsError>)
        ensures
            r is Ok <==> old(self).total_burned + amount <= u64::MAX,
            r is Ok ==> final(self).total_burned == old(self).total_burned + amount,
            r is Err ==> r == Err::<(), BonkPawsError>(BonkPawsError::Overflow),
            r is Err ==> *final(self) == *old(self),
            final(self).total_donated == old(self).total_donated,
            final(self).total_matched == old(self).total_matched,
    {
        match self.total_burned.checked_add(amount) {
            Some(sum) => {
                self.total_burned = sum;
                Ok(())
            },
            None => Err(BonkPawsError::Overflow),
        }
    }
}

/// Per-donation state awaiting settlement, held at an address derived from
/// a caller-supplied seed.
///
/// It exists exactly for the open interval between the donation operation
/// that created it and the finalize operation that consumes it.
#[derive(Clone, Copy, Debug)]
pub struct MatchDonationState {
    /// Correlation identifier extracted from the co-signed payload.
    pub id: u64,
    /// Magnitude pending match or settlement.
    pub donation_amount: u64,
    /// The beneficiary this record's matched proceeds must reach.
    pub match_key: Pubkey,
    /// The caller-chosen disambiguator this record's address derives from.
    pub seed: u64,
}

impl PartialEq for MatchDonationState {
    fn eq(&self, other: &MatchDonationState) -> (r: bool) {
        self.id == other.id && self.donation_amount == other.donation_amount
            && key_eq(&self.match_key, &other.match_key) && self.seed == other.seed
    }
}

impl Eq for MatchDonationState {

}

impl vstd::std_specs::cmp::PartialEqSpecImpl for MatchDonationState {
    open spec fn obeys_eq_spec() -> bool {
        true
    }

    open spec fn eq_spec(&self, other: &MatchDonationState) -> bool {
        self.id == other.id && self.donation_amount == other.donation_amount
            && self.match_key@ == other.match_key@ && self.seed == other.seed
    }
}

/// Append-only per-donation receipt: an audit trail entry, created once
/// per donation and never mutated or destroyed.
#[derive(Clone, Copy, Debug)]
pub struct DonationHistory {
    /// Who donated.
    pub donor: Pubkey,
    /// Correlation identifier extracted from the co-signed payload.
    pub id: u64,
    /// The amount donated.
    pub donation_amount: u64,
    /// When the donation was recorded, in seconds.
    pub timestamp: i64,
}

impl PartialEq for DonationHistory {
    fn eq(&self, other: &DonationHistory) -> (r: bool) {
        key_eq(&self.donor, &other.donor) && self.id == other.id
            && self.donation_amount == other.donation_amount
            && self.timestamp == other.timestamp
    }
}

impl Eq for DonationHistory {

}

impl vstd::std_specs::cmp::PartialEqSpecImpl for DonationHistory {
    open spec fn obeys_eq_spec() -> bool {
        true
    }

    open spec fn eq_spec(&self, other: &DonationHistory) -> bool {
        self.donor@ == other.donor@ && self.id == other.id
            && self.donation_amount == other.donation_amount
            && self.timestamp == other.timestamp
    }
}

} // verus!
