//! The finalize operation: settles a matched donation.
//!
//! It re-verifies the transaction's shape looking backwards — a match
//! operation two places before it and the exchange swap immediately
//! before it — then forwards the swapped settlement amount to the
//! beneficiary recorded in the match record, returns the surplus reserve
//! tokens to the vault, burns the fixed share of what the match spent,
//! reconciles the ledger, and destroys the match record.

use vstd::prelude::*;

use crate::constants::BURN_DENOMINATOR;
use crate::errors::BonkPawsError;
use crate::instructions::{
    match_donation_discriminator, spec_match_donation_discriminator, Instruction,
    InstructionsView,
};
use crate::keys::{
    bonk_mint_id, bonk_paws_id, jupiter_id, key_eq, signing_authority_id, spec_bonk_mint_id,
    spec_bonk_paws_id, spec_jupiter_id, spec_signing_authority_id, spec_wsol_mint_id,
    wsol_mint_id, Pubkey,
};
use crate::programs::{
    parse_shared_accounts_exact_out_route, shared_accounts_exact_out_route_discriminator,
    spec_parse_shared_accounts_exact_out_route,
    spec_shared_accounts_exact_out_route_discriminator,
};
use crate::state::DonationState;
use crate::store::MatchRecordStore;
use crate::swap_validation::{spec_call_matches, spec_swap_payload, check_call};

verus! {

/// The accounts a finalize operation runs against.
pub struct FinalizeDonation {
    /// The caller; must be the trusted signing authority.
    pub signer: Pubkey,
    /// The beneficiary account; must equal the match record's target.
    pub match_key: Pubkey,
    /// The donation token's mint account; must be the fixed mint.
    pub bonk: Pubkey,
    /// Balance of the authority's donation-token account: the surplus
    /// returned to the reserve vault.
    pub signer_bonk_amount: u64,
    /// Balance of the reserve vault at entry, after the swap consumed
    /// its input.
    pub bonk_vault_amount: u64,
    /// The settlement token's mint account; must be the fixed mint.
    pub wsol: Pubkey,
    /// The enclosing transaction.
    pub instructions: InstructionsView,
}

/// What a successful finalize operation instructs the platform to move.
#[derive(Clone, Copy, Debug, PartialEq, Eq, Structural)]
pub struct FinalizeEffects {
    /// Settlement forwarded to the beneficiary: the swap's declared
    /// output amount.
    pub lamports_to_beneficiary: u64,
    /// Surplus donation tokens returned from the authority to the
    /// reserve vault.
    pub bonk_to_vault: u64,
    /// Donation tokens burned: the fixed share of what the match spent.
    pub bonk_burned: u64,
}

impl FinalizeDonation {
    /// The sibling operation expected to be this protocol's match
    /// operation: two places before the current one.
    pub open spec fn spec_match_ix(&self) -> Instruction {
        self.instructions.instructions@[self.instructions.current_index - 2]
    }

    /// The sibling operation expected to carry the exchange swap:
    /// immediately before the current one.
    pub open spec fn spec_swap_ix(&self) -> Instruction {
        self.instructions.instructions@[self.instructions.current_index - 1]
    }

    /// What the match spent from the reserve: its recorded cost baseline
    /// less what is left in the vault.
    pub open spec fn spec_matched_amount(&self, baseline: u64) -> int {
        baseline - self.bonk_vault_amount
    }
}

/// Outcome of a finalize operation, by check precedence: the account
/// constraints, the record's existence and beneficiary binding, the
/// preceding match and swap operations, and the reserve and ledger
/// arithmetic.
pub open spec fn spec_finalize_err(
    ctx: FinalizeDonation,
    records: Map<u64, crate::state::MatchDonationState>,
    ledger: DonationState,
    seed: u64,
) -> Option<BonkPawsError> {
    let ixs = ctx.instructions;
    let match_ix = ctx.spec_match_ix();
    let swap_ix = ctx.spec_swap_ix();
    if ctx.signer@ != spec_signing_authority_id() {
        Some(BonkPawsError::SignatureAuthorityMismatch)
    } else if ctx.bonk@ != spec_bonk_mint_id() {
        Some(BonkPawsError::InvalidBonkMint)
    } else if ctx.wsol@ != spec_wsol_mint_id() {
        Some(BonkPawsError::InvalidwSolMint)
    } else if !records.contains_key(seed) {
        Some(BonkPawsError::RecordNotFound)
    } else if records[seed].match_key@ != ctx.match_key@ {
        Some(BonkPawsError::InvalidMatchKey)
    } else if ixs.current_index < 2 {
        Some(BonkPawsError::InvalidInstructionIndex)
    } else if ixs.current_index - 2 >= ixs.instructions@.len() {
        Some(BonkPawsError::MissingDonateIx)
    } else if !spec_call_matches(
        match_ix,
        spec_bonk_paws_id(),
        spec_match_donation_discriminator(),
    ) {
        Some(BonkPawsError::InvalidInstruction)
    } else if ixs.current_index - 1 >= ixs.instructions@.len() {
        Some(BonkPawsError::MissingDonateIx)
    } else if !spec_call_matches(
        swap_ix,
        spec_jupiter_id(),
        spec_shared_accounts_exact_out_route_discriminator(),
    ) {
        Some(BonkPawsError::InvalidInstruction)
    } else if spec_parse_shared_accounts_exact_out_route(spec_swap_payload(swap_ix)) is None {
        Some(BonkPawsError::InvalidInstruction)
    } else if records[seed].donation_amount < ctx.bonk_vault_amount {
        Some(BonkPawsError::Overflow)
    } else {
        let matched = ctx.spec_matched_amount(records[seed].donation_amount);
        if ledger.total_matched + matched > u64::MAX {
            Some(BonkPawsError::Overflow)
        } else if ledger.total_burned + matched / (BURN_DENOMINATOR as int) > u64::MAX {
            Some(BonkPawsError::Overflow)
        } else {
            None
        }
    }
}

/// How a successful finalize operation changes the ledger and the record
/// store, and what it instructs the platform to move.
pub open spec fn spec_finalize_updates(
    ctx: FinalizeDonation,
    seed: u64,
    ledger0: DonationState,
    ledger1: DonationState,
    recs0: Map<u64, crate::state::MatchDonationState>,
    recs1: Map<u64, crate::state::MatchDonationState>,
    effects: FinalizeEffects,
) -> bool {
    let matched = ctx.spec_matched_amount(recs0[seed].donation_amount);
    let burned = matched / (BURN_DENOMINATOR as int);
    let out_amount = spec_parse_shared_accounts_exact_out_route(
        spec_swap_payload(ctx.spec_swap_ix()),
    ).unwrap().out_amount;
    &&& ledger1.total_donated == ledger0.total_donated
    &&& ledger1.total_matched == ledger0.total_matched + matched
    &&& ledger1.total_burned == ledger0.total_burned + burned
    &&& recs1 == recs0.remove(seed)
    &&& effects.lamports_to_beneficiary == out_amount
    &&& effects.bonk_to_vault == ctx.signer_bonk_amount
    &&& effects.bonk_burned == burned
}

impl FinalizeDonation {
    /// Finalizes the matched donation recorded at `seed`: verifies the
    /// preceding match and swap operations, forwards the swap's output
    /// to the record's beneficiary, returns the surplus to the reserve,
    /// burns the fixed share of what the match spent, adds the matched
    /// and burned amounts to the ledger, and destroys the record.
    ///
    /// On any failure the whole operation is rejected and no state
    /// changes; the platform then discards the enclosing transaction.
    pub fn finalize_donation(
        &self,
        seed: u64,
        donation_state: &mut DonationState,
        match_records: &mut MatchRecordStore,
    ) -> (r: Result<FinalizeEffects, BonkPawsError>)
        requires
            old(match_records).wf(),
        ensures
            final(match_records).wf(),
            match r {
                Ok(effects) => spec_finalize_err(
                    *self,
                    old(match_records)@,
                    *old(donation_state),
                    seed,
                ) is None && spec_finalize_updates(
                    *self,
                    seed,
                    *old(donation_state),
                    *final(donation_state),
                    old(match_records)@,
                    final(match_records)@,
                    effects,
                ),
                Err(e) => spec_finalize_err(
                    *self,
                    old(match_records)@,
                    *old(donation_state),
                    seed,
                ) == Some(e) && *final(donation_state) == *old(donation_state)
                    && final(match_records)@ == old(match_records)@,
            },
    {
        // Account constraints the platform enforces during resolution.
        let authority = signing_authority_id();
        if !key_eq(&self.signer, &authority) {
            return Err(BonkPawsError::SignatureAuthorityMismatch);
        }
        let bonk_mint = bonk_mint_id();
        if !key_eq(&self.bonk, &bonk_mint) {
            return Err(BonkPawsError::InvalidBonkMint);
        }
        let wsol_mint = wsol_mint_id();
        if !key_eq(&self.wsol, &wsol_mint) {
            return Err(BonkPawsError::InvalidwSolMint);
        }
        let record = match match_records.get(seed) {
            Some(record) => *record,
            None => {
                return Err(BonkPawsError::RecordNotFound);
            },
        };
        // The beneficiary account must be the one the record binds.
        if !key_eq(&record.match_key, &self.match_key) {
            return Err(BonkPawsError::InvalidMatchKey);
        }
        // A match operation must sit two places back, the swap one.
        let current_index = self.instructions.load_current_index();
        if current_index < 2 {
            return Err(BonkPawsError::InvalidInstructionIndex);
        }
        let match_ix = match self.instructions.instruction_at((current_index - 2) as usize) {
            Some(ix) => ix,
            None => {
                return Err(BonkPawsError::MissingDonateIx);
            },
        };
        let own = bonk_paws_id();
        let match_disc = match_donation_discriminator();
        check_call(match_ix, &own, &match_disc, BonkPawsError::InvalidInstruction)?;
        let swap_ix = match self.instructions.instruction_at((current_index - 1) as usize) {
            Some(ix) => ix,
            None => {
                return Err(BonkPawsError::MissingDonateIx);
            },
        };
        let jupiter = jupiter_id();
        let swap_disc = shared_accounts_exact_out_route_discriminator();
        check_call(swap_ix, &jupiter, &swap_disc, BonkPawsError::InvalidInstruction)?;
        let dlen = swap_ix.data.len();
        let payload = vstd::slice::slice_subrange(swap_ix.data.as_slice(), 8, dlen);
        let route = parse_shared_accounts_exact_out_route(payload)?;
        let donation_amount = route.out_amount;
        // What the match spent: its cost baseline less what is left.
        let bonk_matched_amount = match record.donation_amount.checked_sub(
            self.bonk_vault_amount,
        ) {
            Some(difference) => difference,
            None => {
                return Err(BonkPawsError::Overflow);
            },
        };
        let bonk_burn_amount = bonk_matched_amount / (BURN_DENOMINATOR as u64);
        // Both ledger additions must fit before either is applied.
        if u64::MAX - donation_state.total_matched < bonk_matched_amount {
            return Err(BonkPawsError::Overflow);
        }
        if u64::MAX - donation_state.total_burned < bonk_burn_amount {
            return Err(BonkPawsError::Overflow);
        }
        match donation_state.record_match(bonk_matched_amount) {
            Ok(()) => {},
            Err(e) => {
                return Err(e);
            },
        }
        match donation_state.record_burn(bonk_burn_amount) {
            Ok(()) => {},
            Err(e) => {
                return Err(e);
            },
        }
        // The record is consumed exactly once.
        match match_records.take(seed) {
            Ok(_) => {},
            Err(e) => {
                return Err(e);
            },
        }
        Ok(
            FinalizeEffects {
                lamports_to_beneficiary: donation_amount,
                bonk_to_vault: self.signer_bonk_amount,
                bonk_burned: bonk_burn_amount,
            },
        )
    }
}

} // verus!
