//! The donation operation: transfers the donated amount to the charity,
//! and opens a match record when the amount clears the matching
//! threshold.
//!
//! The operation demands a co-signed payload as its immediately preceding
//! sibling: the trusted authority binds the charity address, the optional
//! match-target address and a correlation id into a signed message, so a
//! donor cannot unilaterally redirect funds.

use vstd::prelude::*;

use crate::constants::MIN_MATCH_THRESHOLD;
use crate::ed25519::{
    decode_signed_donation, spec_donation_sig_error, spec_donation_sig_ok,
};
use crate::errors::BonkPawsError;
use crate::instructions::{Instruction, InstructionsView};
use crate::keys::{is_default_key, key_eq, spec_bonk_paws_id, spec_default_key, Pubkey};
use crate::state::{DonationHistory, DonationState, MatchDonationState};
use crate::store::{spec_history_contains, DonationHistoryLog, MatchRecordStore};

verus! {

/// The accounts a donation operation runs against.
///
/// On the platform, the match record and receipt accounts are created
/// during account resolution; here `match_account_provided` says whether
/// the caller supplied the optional match-record account, and the stores
/// are passed to the operation itself.
pub struct DonateSol {
    /// The donor's identity.
    pub donor: Pubkey,
    /// The charity account named by the caller; must equal the co-signed
    /// charity address.
    pub charity: Pubkey,
    /// Whether the caller supplied the optional match-record account.
    pub match_account_provided: bool,
    /// The enclosing transaction.
    pub instructions: InstructionsView,
}

impl DonateSol {
    /// The sibling operation expected to carry the co-signed payload:
    /// the one immediately before the current operation.
    pub open spec fn spec_sig_ix(&self) -> Instruction {
        self.instructions.instructions@[self.instructions.current_index - 1]
    }
}

/// Outcome of a donation, by check precedence: the platform's
/// create-once rules for the match record and the receipt, the
/// threshold/record consistency, the origin attestation, the co-signed
/// payload, the charity binding, the match-target consistency, and the
/// ledger's checked addition.
pub open spec fn spec_donate_err(
    ctx: DonateSol,
    records: Map<u64, MatchDonationState>,
    history: Seq<(u64, DonationHistory)>,
    ledger: DonationState,
    seed: u64,
    amount: u64,
) -> Option<BonkPawsError> {
    let ixs = ctx.instructions;
    let sig = ctx.spec_sig_ix();
    if ctx.match_account_provided && records.contains_key(seed) {
        Some(BonkPawsError::RecordAlreadyExists)
    } else if spec_history_contains(history, seed, ctx.donor@) {
        Some(BonkPawsError::RecordAlreadyExists)
    } else if amount < MIN_MATCH_THRESHOLD && ctx.match_account_provided {
        Some(BonkPawsError::NotMatchingDonation)
    } else if amount >= MIN_MATCH_THRESHOLD && !ctx.match_account_provided {
        Some(BonkPawsError::NotMatchingDonation)
    } else if ixs.current_index < 1 {
        Some(BonkPawsError::InvalidInstructionIndex)
    } else if ixs.current_index as int >= ixs.instructions@.len() {
        Some(BonkPawsError::InvalidInstructionIndex)
    } else if ixs.instructions@[ixs.current_index as int].program_id@ != spec_bonk_paws_id() {
        Some(BonkPawsError::ProgramMismatch)
    } else if !spec_donation_sig_ok(sig) {
        Some(spec_donation_sig_error(sig))
    } else if ctx.charity@ != sig.data@.subrange(0x78, 0x98) {
        Some(BonkPawsError::InvalidCharityAddress)
    } else if sig.data@.subrange(0x98, 0xB8) == spec_default_key() && ctx.match_account_provided {
        Some(BonkPawsError::InvalidMatchKey)
    } else if ledger.total_donated + amount > u64::MAX {
        Some(BonkPawsError::Overflow)
    } else {
        None
    }
}

/// How a successful donation changes the ledger, the match-record store
/// and the receipt log.
pub open spec fn spec_donate_updates(
    ctx: DonateSol,
    seed: u64,
    amount: u64,
    now: i64,
    ledger0: DonationState,
    ledger1: DonationState,
    recs0: Map<u64, MatchDonationState>,
    recs1: Map<u64, MatchDonationState>,
    hist0: Seq<(u64, DonationHistory)>,
    hist1: Seq<(u64, DonationHistory)>,
) -> bool {
    let sig = ctx.spec_sig_ix();
    let id = vstd::bytes::spec_u64_from_le_bytes(sig.data@.subrange(0x70, 0x78));
    &&& ledger1.total_donated == ledger0.total_donated + amount
    &&& ledger1.total_matched == ledger0.total_matched
    &&& ledger1.total_burned == ledger0.total_burned
    &&& (ctx.match_account_provided ==> {
        &&& recs1.contains_key(seed)
        &&& recs1[seed].id == id
        &&& recs1[seed].donation_amount == amount
        &&& recs1[seed].match_key@ == sig.data@.subrange(0x98, 0xB8)
        &&& recs1[seed].seed == seed
        &&& recs1.remove(seed) == recs0
    })
    &&& (!ctx.match_account_provided ==> recs1 == recs0)
    &&& hist1.len() == hist0.len() + 1
    &&& hist1.subrange(0, hist0.len() as int) == hist0
    &&& hist1.last().0 == seed
    &&& hist1.last().1.donor@ == ctx.donor@
    &&& hist1.last().1.id == id
    &&& hist1.last().1.donation_amount == amount
    &&& hist1.last().1.timestamp == now
}

impl DonateSol {
    /// Donates `sol_donation` to the charity: verifies the surrounding
    /// transaction and the co-signed payload, adds the amount to the
    /// ledger, files the donation receipt, and — exactly when the amount
    /// meets the matching threshold — opens the match record at `seed`.
    ///
    /// On any failure the whole operation is rejected and no state
    /// changes; the platform then discards the enclosing transaction.
    pub fn donate_sol(
        &self,
        seed: u64,
        sol_donation: u64,
        now: i64,
        donation_state: &mut DonationState,
        match_records: &mut MatchRecordStore,
        donation_history: &mut DonationHistoryLog,
    ) -> (r: Result<(), BonkPawsError>)
        requires
            old(match_records).wf(),
        ensures
            final(match_records).wf(),
            match r {
                Ok(()) => spec_donate_err(
                    *self,
                    old(match_records)@,
                    old(donation_history)@,
                    *old(donation_state),
                    seed,
                    sol_donation,
                ) is None && spec_donate_updates(
                    *self,
                    seed,
                    sol_donation,
                    now,
                    *old(donation_state),
                    *final(donation_state),
                    old(match_records)@,
                    final(match_records)@,
                    old(donation_history)@,
                    final(donation_history)@,
                ),
                Err(e) => spec_donate_err(
                    *self,
                    old(match_records)@,
                    old(donation_history)@,
                    *old(donation_state),
                    seed,
                    sol_donation,
                ) == Some(e) && *final(donation_state) == *old(donation_state)
                    && final(match_records)@ == old(match_records)@
                    && final(donation_history)@ == old(donation_history)@,
            },
    {
        // The platform refuses to create an account at an occupied
        // address, before any of the operation's own logic runs.
        if self.match_account_provided && match_records.contains(seed) {
            return Err(BonkPawsError::RecordAlreadyExists);
        }
        if donation_history.contains(seed, &self.donor) {
            return Err(BonkPawsError::RecordAlreadyExists);
        }
        // A match record accompanies the donation exactly when the amount
        // clears the matching threshold.
        if sol_donation < MIN_MATCH_THRESHOLD {
            if self.match_account_provided {
                return Err(BonkPawsError::NotMatchingDonation);
            }
        } else {
            if !self.match_account_provided {
                return Err(BonkPawsError::NotMatchingDonation);
            }
        }
        // Origin attestation: a preceding operation must exist, and the
        // current operation must be addressed to this protocol itself.
        let current_index = self.instructions.load_current_index();
        if current_index < 1 {
            return Err(BonkPawsError::InvalidInstructionIndex);
        }
        self.instructions.check_origin()?;
        let sig_ix = self.instructions.instruction_at((current_index - 1) as usize).unwrap();
        let message = decode_signed_donation(sig_ix)?;
        // The transfer must go to the co-signed charity address.
        if !key_eq(&self.charity, &message.charity_key) {
            return Err(BonkPawsError::InvalidCharityAddress);
        }
        // An absent match target is only consistent with no match record.
        if is_default_key(&message.match_key) && self.match_account_provided {
            return Err(BonkPawsError::InvalidMatchKey);
        }
        donation_state.record_donation(sol_donation)?;
        if self.match_account_provided {
            let record = MatchDonationState {
                id: message.id,
                donation_amount: sol_donation,
                match_key: message.match_key,
                seed,
            };
            match match_records.create(seed, record) {
                Ok(()) => {},
                Err(e) => {
                    return Err(e);
                },
            }
            proof {
                assert(match_records@.remove(seed) =~= old(match_records)@);
            }
        }
        let entry = DonationHistory {
            donor: self.donor,
            id: message.id,
            donation_amount: sol_donation,
            timestamp: now,
        };
        match donation_history.create(seed, entry) {
            Ok(()) => {},
            Err(e) => {
                return Err(e);
            },
        }
        proof {
            assert(donation_history@.subrange(0, old(donation_history)@.len() as int)
                =~= old(donation_history)@);
        }
        Ok(())
    }
}

} // verus!
