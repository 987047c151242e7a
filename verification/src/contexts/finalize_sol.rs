//! The earlier generation's finalize operation: settles a donation made
//! in the donation token.
//!
//! It burns the fixed share of the donated amount, adds the donation to
//! the ledger, and verifies the surrounding transaction: the co-signed
//! charity payload immediately before, an exact-input exchange swap
//! immediately after, and — three places after — a native transfer that
//! pays the co-signed charity exactly the expected settlement amount.

use vstd::prelude::*;

use crate::bytes_util::range_matches;
use crate::constants::BURN_DENOMINATOR;
use crate::ed25519::{
    decode_signed_charity, spec_charity_sig_error, spec_charity_sig_ok,
};
use crate::errors::BonkPawsError;
use crate::instructions::{Instruction, InstructionsView};
use crate::keys::{
    bonk_mint_id, key_eq, spec_bonk_mint_id, spec_bonk_paws_id, spec_system_program_id,
    spec_wsol_mint_id, system_program_id, wsol_mint_id, Pubkey,
};
use crate::state::DonationState;
use crate::store::MatchRecordStore;
use crate::swap_validation::{spec_route_swap_err, validate_route_swap};

verus! {

/// The accounts the earlier generation's finalize operation runs
/// against.
pub struct FinalizeSolDonation {
    /// The matching authority.
    pub authority: Pubkey,
    /// The charity account named by the caller.
    pub charity: Pubkey,
    /// The donation token's mint account; must be the fixed mint.
    pub bonk: Pubkey,
    /// The authority's donation-token account.
    pub authority_bonk: Pubkey,
    /// The authority's settlement-token account, derived by the
    /// platform from the authority and the settlement mint.
    pub authority_wsol: Pubkey,
    /// The enclosing transaction.
    pub instructions: InstructionsView,
}

/// What a successful finalize operation instructs the platform to move.
#[derive(Clone, Copy, Debug, PartialEq, Eq, Structural)]
pub struct FinalizeSolEffects {
    /// Donation tokens burned: the fixed share of the donated amount.
    pub bonk_burned: u64,
}

impl FinalizeSolDonation {
    /// The sibling operation expected to carry the co-signed payload:
    /// the one immediately before the current operation.
    pub open spec fn spec_sig_ix(&self) -> Instruction {
        self.instructions.instructions@[self.instructions.current_index - 1]
    }

    /// The sibling operation expected to carry the exchange swap: the
    /// one immediately after the current operation.
    pub open spec fn spec_swap_ix(&self) -> Instruction {
        self.instructions.instructions@[self.instructions.current_index + 1]
    }

    /// The sibling operation expected to pay the charity: three after
    /// the current operation.
    pub open spec fn spec_transfer_ix(&self) -> Instruction {
        self.instructions.instructions@[self.instructions.current_index + 3]
    }
}

/// Outcome of the earlier generation's finalize operation, by check
/// precedence: the account constraints, the record's existence, the
/// ledger's checked additions, the origin attestation, the co-signed
/// payload, the swap arithmetic and operation, and the closing native
/// transfer.
pub open spec fn spec_finalize_sol_err(
    ctx: FinalizeSolDonation,
    records: Map<u64, crate::state::MatchDonationState>,
    ledger: DonationState,
    seed: u64,
    bonk_donation: u64,
) -> Option<BonkPawsError> {
    let ixs = ctx.instructions;
    let sig = ctx.spec_sig_ix();
    let swap_ix = ctx.spec_swap_ix();
    let transfer_ix = ctx.spec_transfer_ix();
    let burn = bonk_donation as int / (BURN_DENOMINATOR as int);
    if ctx.bonk@ != spec_bonk_mint_id() {
        Some(BonkPawsError::InvalidBonkMint)
    } else if !records.contains_key(seed) {
        Some(BonkPawsError::RecordNotFound)
    } else if ledger.total_burned + burn > u64::MAX {
        Some(BonkPawsError::Overflow)
    } else if ledger.total_donated + bonk_donation > u64::MAX {
        Some(BonkPawsError::Overflow)
    } else if ixs.current_index < 1 {
        Some(BonkPawsError::InvalidInstructionIndex)
    } else if ixs.current_index as int >= ixs.instructions@.len() {
        Some(BonkPawsError::InvalidInstructionIndex)
    } else if ixs.instructions@[ixs.current_index as int].program_id@ != spec_bonk_paws_id() {
        Some(BonkPawsError::ProgramMismatch)
    } else if !spec_charity_sig_ok(sig) {
        Some(spec_charity_sig_error(sig))
    } else if bonk_donation * 99 > u64::MAX {
        Some(BonkPawsError::Overflow)
    } else if records[seed].donation_amount * 99 > u64::MAX {
        Some(BonkPawsError::Overflow)
    } else {
        let swap_amount = (bonk_donation * 99 / 100) as u64;
        let min_out = (records[seed].donation_amount * 99 / 100) as u64;
        if min_out * 5 > u64::MAX {
            Some(BonkPawsError::Overflow)
        } else if min_out + min_out * 5 / 10 > u64::MAX {
            Some(BonkPawsError::Overflow)
        } else {
            let max_out = (min_out + min_out * 5 / 10) as u64;
            if ixs.current_index + 1 >= ixs.instructions@.len() {
                Some(BonkPawsError::MissingSwapIx)
            } else if spec_route_swap_err(
                swap_ix,
                swap_amount,
                min_out,
                max_out,
                ctx.bonk@,
                ctx.authority_bonk@,
                Some(ctx.authority@),
                spec_wsol_mint_id(),
                ctx.authority_wsol@,
            ) is Some {
                spec_route_swap_err(
                    swap_ix,
                    swap_amount,
                    min_out,
                    max_out,
                    ctx.bonk@,
                    ctx.authority_bonk@,
                    Some(ctx.authority@),
                    spec_wsol_mint_id(),
                    ctx.authority_wsol@,
                )
            } else if ixs.current_index + 3 >= ixs.instructions@.len() {
                Some(BonkPawsError::MissingFinalizeIx)
            } else if transfer_ix.program_id@ != spec_system_program_id() {
                Some(BonkPawsError::InvalidInstruction)
            } else if transfer_ix.data@.len() < 12 || transfer_ix.data@[0] != 2u8 {
                Some(BonkPawsError::InvalidInstruction)
            } else if transfer_ix.data@.subrange(4, 12) != vstd::bytes::spec_u64_to_le_bytes(
                min_out,
            ) {
                Some(BonkPawsError::InvalidAmount)
            } else if transfer_ix.accounts@.len() <= 1 || transfer_ix.accounts@[1].pubkey@
                != sig.data@.subrange(0x70, 0x90) {
                Some(BonkPawsError::InvalidCharityAddress)
            } else {
                None
            }
        }
    }
}

/// How a successful finalize operation changes the ledger and the
/// record store.
pub open spec fn spec_finalize_sol_updates(
    seed: u64,
    bonk_donation: u64,
    ledger0: DonationState,
    ledger1: DonationState,
    recs0: Map<u64, crate::state::MatchDonationState>,
    recs1: Map<u64, crate::state::MatchDonationState>,
    effects: FinalizeSolEffects,
) -> bool {
    let burn = bonk_donation as int / (BURN_DENOMINATOR as int);
    &&& ledger1.total_donated == ledger0.total_donated + bonk_donation
    &&& ledger1.total_matched == ledger0.total_matched
    &&& ledger1.total_burned == ledger0.total_burned + burn
    &&& recs1 == recs0.remove(seed)
    &&& effects.bonk_burned == burn
}

impl FinalizeSolDonation {
    /// Finalizes the donation recorded at `seed`: burns the fixed share
    /// of `bonk_donation`, adds the donation to the ledger, verifies the
    /// co-signed payload, the following swap, and the closing native
    /// transfer that pays the co-signed charity, and destroys the
    /// record.
    ///
    /// On any failure the whole operation is rejected and no state
    /// changes; the platform then discards the enclosing transaction.
    pub fn finalize_sol_donation(
        &self,
        seed: u64,
        bonk_donation: u64,
        donation_state: &mut DonationState,
        match_records: &mut MatchRecordStore,
    ) -> (r: Result<FinalizeSolEffects, BonkPawsError>)
        requires
            old(match_records).wf(),
        ensures
            final(match_records).wf(),
            match r {
                Ok(effects) => spec_finalize_sol_err(
                    *self,
                    old(match_records)@,
                    *old(donation_state),
                    seed,
                    bonk_donation,
                ) is None && spec_finalize_sol_updates(
                    seed,
                    bonk_donation,
                    *old(donation_state),
                    *final(donation_state),
                    old(match_records)@,
                    final(match_records)@,
                    effects,
                ),
                Err(e) => spec_finalize_sol_err(
                    *self,
                    old(match_records)@,
                    *old(donation_state),
                    seed,
                    bonk_donation,
                ) == Some(e) && *final(donation_state) == *old(donation_state)
                    && final(match_records)@ == old(match_records)@,
            },
    {
        // Account constraints the platform enforces during resolution.
        let bonk_mint = bonk_mint_id();
        if !key_eq(&self.bonk, &bonk_mint) {
            return Err(BonkPawsError::InvalidBonkMint);
        }
        let record = match match_records.get(seed) {
            Some(record) => *record,
            None => {
                return Err(BonkPawsError::RecordNotFound);
            },
        };
        let bonk_burn_amount = bonk_donation / (BURN_DENOMINATOR as u64);
        // Both ledger additions must fit before either is applied.
        if u64::MAX - donation_state.total_burned < bonk_burn_amount {
            return Err(BonkPawsError::Overflow);
        }
        if u64::MAX - donation_state.total_donated < bonk_donation {
            return Err(BonkPawsError::Overflow);
        }
        // Origin attestation: a preceding operation must exist, and the
        // current operation must be addressed to this protocol itself.
        let current_index = self.instructions.load_current_index();
        if current_index < 1 {
            return Err(BonkPawsError::InvalidInstructionIndex);
        }
        self.instructions.check_origin()?;
        let sig_ix = self.instructions.instruction_at((current_index - 1) as usize).unwrap();
        let message = decode_signed_charity(sig_ix)?;
        // The swap spends the donated amount less the burned share; its
        // quote must sit in the band derived from the recorded donation.
        let swap_amount = match bonk_donation.checked_mul(99) {
            Some(product) => product / 100,
            None => {
                return Err(BonkPawsError::Overflow);
            },
        };
        let min_lamports_out = match record.donation_amount.checked_mul(99) {
            Some(product) => product / 100,
            None => {
                return Err(BonkPawsError::Overflow);
            },
        };
        let half_band = match min_lamports_out.checked_mul(5) {
            Some(product) => product / 10,
            None => {
                return Err(BonkPawsError::Overflow);
            },
        };
        let max_lamports_out = match min_lamports_out.checked_add(half_band) {
            Some(sum) => sum,
            None => {
                return Err(BonkPawsError::Overflow);
            },
        };
        let current = current_index as usize;
        let swap_ix = match self.instructions.instruction_at(current + 1) {
            Some(ix) => ix,
            None => {
                return Err(BonkPawsError::MissingSwapIx);
            },
        };
        let wsol_mint = wsol_mint_id();
        let _route = validate_route_swap(
            swap_ix,
            swap_amount,
            min_lamports_out,
            max_lamports_out,
            &self.bonk,
            &self.authority_bonk,
            Some(&self.authority),
            &wsol_mint,
            &self.authority_wsol,
        )?;
        // A native transfer must close the chain, paying the co-signed
        // charity exactly the expected settlement amount.
        let transfer_ix = match self.instructions.instruction_at(current + 3) {
            Some(ix) => ix,
            None => {
                return Err(BonkPawsError::MissingFinalizeIx);
            },
        };
        let system = system_program_id();
        if !key_eq(&transfer_ix.program_id, &system) {
            return Err(BonkPawsError::InvalidInstruction);
        }
        if transfer_ix.data.len() < 12 || transfer_ix.data[0] != 2 {
            return Err(BonkPawsError::InvalidInstruction);
        }
        let expected_amount = vstd::bytes::u64_to_le_bytes(min_lamports_out);
        if !range_matches(transfer_ix.data.as_slice(), 4, expected_amount.as_slice()) {
            return Err(BonkPawsError::InvalidAmount);
        }
        if transfer_ix.accounts.len() <= 1 || !key_eq(
            &transfer_ix.accounts[1].pubkey,
            &message.charity_key,
        ) {
            return Err(BonkPawsError::InvalidCharityAddress);
        }
        // All checks passed: commit the ledger and consume the record.
        match donation_state.record_burn(bonk_burn_amount) {
            Ok(()) => {},
            Err(e) => {
                return Err(e);
            },
        }
        match donation_state.record_donation(bonk_donation) {
            Ok(()) => {},
            Err(e) => {
                return Err(e);
            },
        }
        match match_records.take(seed) {
            Ok(_) => {},
            Err(e) => {
                return Err(e);
            },
        }
        Ok(FinalizeSolEffects { bonk_burned: bonk_burn_amount })
    }
}

} // verus!
