//! The earlier generation's match operation: the authority donates the
//! matching amount in the donation token within one transaction.
//!
//! It burns the fixed share of the matched amount, adds the donated,
//! matched and burned amounts to the ledger, and verifies the
//! surrounding transaction: the co-signed charity payload immediately
//! before, an exact-input exchange swap immediately after, and a
//! finalize operation after the swap naming the co-signed charity.

use vstd::prelude::*;

use crate::constants::BURN_DENOMINATOR;
use crate::ed25519::{
    decode_signed_charity, spec_charity_sig_error, spec_charity_sig_ok,
};
use crate::errors::BonkPawsError;
use crate::instructions::{
    finalize_discriminator, spec_finalize_discriminator, Instruction, InstructionsView,
};
use crate::keys::{
    bonk_mint_id, bonk_paws_id, key_eq, spec_bonk_mint_id, spec_bonk_paws_id, spec_wsol_mint_id,
    wsol_mint_id, Pubkey,
};
use crate::state::DonationState;
use crate::store::MatchRecordStore;
use crate::swap_validation::{
    spec_call_matches, spec_route_swap_err, check_call, validate_route_swap,
};

verus! {

/// The accounts the earlier generation's match operation runs against.
pub struct MatchSolDonation {
    /// The matching authority.
    pub authority: Pubkey,
    /// The charity account named by the caller.
    pub charity: Pubkey,
    /// The donation token's mint account; must be the fixed mint.
    pub bonk: Pubkey,
    /// The authority's donation-token account.
    pub authority_bonk: Pubkey,
    /// The settlement token's mint account; must be the fixed mint.
    pub wsol: Pubkey,
    /// The authority's settlement-token account.
    pub authority_wsol: Pubkey,
    /// The enclosing transaction.
    pub instructions: InstructionsView,
}

/// What a successful match operation instructs the platform to move.
#[derive(Clone, Copy, Debug, PartialEq, Eq, Structural)]
pub struct MatchSolEffects {
    /// Donation tokens burned: the fixed share of the matched amount.
    pub bonk_burned: u64,
}

impl MatchSolDonation {
    /// The sibling operation expected to carry the co-signed payload:
    /// the one immediately before the current operation.
    pub open spec fn spec_sig_ix(&self) -> Instruction {
        self.instructions.instructions@[self.instructions.current_index - 1]
    }

    /// The sibling operation expected to carry the exchange swap: the
    /// one immediately after the current operation.
    pub open spec fn spec_swap_ix(&self) -> Instruction {
        self.instructions.instructions@[self.instructions.current_index + 1]
    }

    /// The sibling operation expected to finalize the donation: two
    /// after the current operation.
    pub open spec fn spec_finalize_ix(&self) -> Instruction {
        self.instructions.instructions@[self.instructions.current_index + 2]
    }
}

/// Outcome of the earlier generation's match operation, by check
/// precedence: the account constraints, the record's existence, the
/// ledger's checked additions, the origin attestation, the co-signed
/// payload, the swap arithmetic, the following swap operation, and the
/// following finalize operation.
pub open spec fn spec_match_sol_err(
    ctx: MatchSolDonation,
    records: Map<u64, crate::state::MatchDonationState>,
    ledger: DonationState,
    seed: u64,
    bonk_donation: u64,
) -> Option<BonkPawsError> {
    let ixs = ctx.instructions;
    let sig = ctx.spec_sig_ix();
    let swap_ix = ctx.spec_swap_ix();
    let fin_ix = ctx.spec_finalize_ix();
    let burn = bonk_donation as int / (BURN_DENOMINATOR as int);
    if ctx.bonk@ != spec_bonk_mint_id() {
        Some(BonkPawsError::InvalidBonkMint)
    } else if ctx.wsol@ != spec_wsol_mint_id() {
        Some(BonkPawsError::InvalidwSolMint)
    } else if !records.contains_key(seed) {
        Some(BonkPawsError::RecordNotFound)
    } else if ledger.total_donated + bonk_donation > u64::MAX {
        Some(BonkPawsError::Overflow)
    } else if ledger.total_matched + bonk_donation > u64::MAX {
        Some(BonkPawsError::Overflow)
    } else if ledger.total_burned + burn > u64::MAX {
        Some(BonkPawsError::Overflow)
    } else if ixs.current_index < 1 {
        Some(BonkPawsError::InvalidInstructionIndex)
    } else if ixs.current_index as int >= ixs.instructions@.len() {
        Some(BonkPawsError::InvalidInstructionIndex)
    } else if ixs.instructions@[ixs.current_index as int].program_id@ != spec_bonk_paws_id() {
        Some(BonkPawsError::ProgramMismatch)
    } else if !spec_charity_sig_ok(sig) {
        Some(spec_charity_sig_error(sig))
    } else if bonk_donation * 99 > u64::MAX {
        Some(BonkPawsError::Overflow)
    } else if records[seed].donation_amount * 99 > u64::MAX {
        Some(BonkPawsError::Overflow)
    } else {
        let swap_amount = (bonk_donation * 99 / 100) as u64;
        let min_out = (records[seed].donation_amount * 99 / 100) as u64;
        if min_out * 5 > u64::MAX {
            Some(BonkPawsError::Overflow)
        } else if min_out + min_out * 5 / 10 > u64::MAX {
            Some(BonkPawsError::Overflow)
        } else {
            let max_out = (min_out + min_out * 5 / 10) as u64;
            if ixs.current_index + 1 >= ixs.instructions@.len() {
                Some(BonkPawsError::MissingSwapIx)
            } else if spec_route_swap_err(
                swap_ix,
                swap_amount,
                min_out,
                max_out,
                ctx.bonk@,
                ctx.authority_bonk@,
                None,
                ctx.wsol@,
                ctx.authority_wsol@,
            ) is Some {
                spec_route_swap_err(
                    swap_ix,
                    swap_amount,
                    min_out,
                    max_out,
                    ctx.bonk@,
                    ctx.authority_bonk@,
                    None,
                    ctx.wsol@,
                    ctx.authority_wsol@,
                )
            } else if ixs.current_index + 2 >= ixs.instructions@.len() {
                Some(BonkPawsError::MissingFinalizeIx)
            } else if !spec_call_matches(
                fin_ix,
                spec_bonk_paws_id(),
                spec_finalize_discriminator(),
            ) {
                Some(BonkPawsError::InvalidInstruction)
            } else if fin_ix.accounts@.len() <= 1 || fin_ix.accounts@[1].pubkey@
                != sig.data@.subrange(0x70, 0x90) {
                Some(BonkPawsError::InvalidCharityAddress)
            } else {
                None
            }
        }
    }
}

/// How a successful match operation changes the ledger and the record
/// store.
pub open spec fn spec_match_sol_updates(
    seed: u64,
    bonk_donation: u64,
    ledger0: DonationState,
    ledger1: DonationState,
    recs0: Map<u64, crate::state::MatchDonationState>,
    recs1: Map<u64, crate::state::MatchDonationState>,
    effects: MatchSolEffects,
) -> bool {
    let burn = bonk_donation as int / (BURN_DENOMINATOR as int);
    &&& ledger1.total_donated == ledger0.total_donated + bonk_donation
    &&& ledger1.total_matched == ledger0.total_matched + bonk_donation
    &&& ledger1.total_burned == ledger0.total_burned + burn
    &&& recs1 == recs0.remove(seed)
    &&& effects.bonk_burned == burn
}

impl MatchSolDonation {
    /// Matches the donation recorded at `seed` with `bonk_donation` of
    /// the donation token: burns the fixed share, adds the donated,
    /// matched and burned amounts to the ledger, verifies the co-signed
    /// payload and the following swap and finalize operations, and
    /// destroys the record.
    ///
    /// On any failure the whole operation is rejected and no state
    /// changes; the platform then discards the enclosing transaction.
    pub fn match_sol_donation(
        &self,
        seed: u64,
        bonk_donation: u64,
        donation_state: &mut DonationState,
        match_records: &mut MatchRecordStore,
    ) -> (r: Result<MatchSolEffects, BonkPawsError>)
        requires
            old(match_records).wf(),
        ensures
            final(match_records).wf(),
            match r {
                Ok(effects) => spec_match_sol_err(
                    *self,
                    old(match_records)@,
                    *old(donation_state),
                    seed,
                    bonk_donation,
                ) is None && spec_match_sol_updates(
                    seed,
                    bonk_donation,
                    *old(donation_state),
                    *final(donation_state),
                    old(match_records)@,
                    final(match_records)@,
                    effects,
                ),
                Err(e) => spec_match_sol_err(
                    *self,
                    old(match_records)@,
                    *old(donation_state),
                    seed,
                    bonk_donation,
                ) == Some(e) && *final(donation_state) == *old(donation_state)
                    && final(match_records)@ == old(match_records)@,
            },
    {
        // Account constraints the platform enforces during resolution.
        let bonk_mint = bonk_mint_id();
        if !key_eq(&self.bonk, &bonk_mint) {
            return Err(BonkPawsError::InvalidBonkMint);
        }
        let wsol_mint = wsol_mint_id();
        if !key_eq(&self.wsol, &wsol_mint) {
            return Err(BonkPawsError::InvalidwSolMint);
        }
        let record = match match_records.get(seed) {
            Some(record) => *record,
            None => {
                return Err(BonkPawsError::RecordNotFound);
            },
        };
        let bonk_burn_amount = bonk_donation / (BURN_DENOMINATOR as u64);
        // All three ledger additions must fit before any is applied.
        if u64::MAX - donation_state.total_donated < bonk_donation {
            return Err(BonkPawsError::Overflow);
        }
        if u64::MAX - donation_state.total_matched < bonk_donation {
            return Err(BonkPawsError::Overflow);
        }
        if u64::MAX - donation_state.total_burned < bonk_burn_amount {
            return Err(BonkPawsError::Overflow);
        }
        // Origin attestation: a preceding operation must exist, and the
        // current operation must be addressed to this protocol itself.
        let current_index = self.instructions.load_current_index();
        if current_index < 1 {
            return Err(BonkPawsError::InvalidInstructionIndex);
        }
        self.instructions.check_origin()?;
        let sig_ix = self.instructions.instruction_at((current_index - 1) as usize).unwrap();
        let message = decode_signed_charity(sig_ix)?;
        // The swap spends the matched amount less the burned share; its
        // quote must sit in the band derived from the recorded donation.
        let swap_amount = match bonk_donation.checked_mul(99) {
            Some(product) => product / 100,
            None => {
                return Err(BonkPawsError::Overflow);
            },
        };
        let min_lamports_out = match record.donation_amount.checked_mul(99) {
            Some(product) => product / 100,
            None => {
                return Err(BonkPawsError::Overflow);
            },
        };
        let half_band = match min_lamports_out.checked_mul(5) {
            Some(product) => product / 10,
            None => {
                return Err(BonkPawsError::Overflow);
            },
        };
        let max_lamports_out = match min_lamports_out.checked_add(half_band) {
            Some(sum) => sum,
            None => {
                return Err(BonkPawsError::Overflow);
            },
        };
        let current = current_index as usize;
        let swap_ix = match self.instructions.instruction_at(current + 1) {
            Some(ix) => ix,
            None => {
                return Err(BonkPawsError::MissingSwapIx);
            },
        };
        let _route = validate_route_swap(
            swap_ix,
            swap_amount,
            min_lamports_out,
            max_lamports_out,
            &self.bonk,
            &self.authority_bonk,
            None,
            &self.wsol,
            &self.authority_wsol,
        )?;
        // A finalize operation must follow the swap and pay the
        // co-signed charity.
        let fin_ix = match self.instructions.instruction_at(current + 2) {
            Some(ix) => ix,
            None => {
                return Err(BonkPawsError::MissingFinalizeIx);
            },
        };
        let own = bonk_paws_id();
        let fin_disc = finalize_discriminator();
        check_call(fin_ix, &own, &fin_disc, BonkPawsError::InvalidInstruction)?;
        if fin_ix.accounts.len() <= 1 || !key_eq(&fin_ix.accounts[1].pubkey, &message.charity_key)
        {
            return Err(BonkPawsError::InvalidCharityAddress);
        }
        // All checks passed: commit the ledger and consume the record.
        match donation_state.record_donation(bonk_donation) {
            Ok(()) => {},
            Err(e) => {
                return Err(e);
            },
        }
        match donation_state.record_match(bonk_donation) {
            Ok(()) => {},
            Err(e) => {
                return Err(e);
            },
        }
        match donation_state.record_burn(bonk_burn_amount) {
            Ok(()) => {},
            Err(e) => {
                return Err(e);
            },
        }
        match match_records.take(seed) {
            Ok(_) => {},
            Err(e) => {
                return Err(e);
            },
        }
        Ok(MatchSolEffects { bonk_burned: bonk_burn_amount })
    }
}

} // verus!
