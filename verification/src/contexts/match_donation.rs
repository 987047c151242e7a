//! The match operation: the trusted authority tops a donation up from
//! the pooled reserve.
//!
//! The operation verifies that an exact-output exchange swap immediately
//! follows it, delivering exactly the recorded donation amount, and that
//! a finalize operation follows the swap, naming this match record.  It
//! then rebases the match record on the reserve's current balances and
//! releases to the authority the largest reserve amount the swap's quote
//! can consume.

use vstd::prelude::*;

use crate::errors::BonkPawsError;
use crate::instructions::{
    finalize_donation_discriminator, spec_finalize_donation_discriminator, Instruction,
    InstructionsView,
};
use crate::keys::{
    bonk_mint_id, bonk_paws_id, key_eq, signing_authority_id, spec_bonk_mint_id,
    spec_bonk_paws_id, spec_signing_authority_id, spec_wsol_mint_id, wsol_mint_id, Pubkey,
};
use crate::programs::spec_parse_shared_accounts_exact_out_route;
use crate::state::MatchDonationState;
use crate::store::MatchRecordStore;
use crate::swap_validation::{
    spec_call_matches, spec_exact_out_swap_err, spec_swap_payload, check_call,
    validate_exact_out_swap,
};

verus! {

/// The accounts a match operation runs against.
pub struct MatchDonation {
    /// The caller; must be the trusted signing authority.
    pub signer: Pubkey,
    /// The donation token's mint account; must be the fixed mint.
    pub bonk: Pubkey,
    /// The authority's donation-token account.
    pub signer_bonk: Pubkey,
    /// Balance of the authority's donation-token account.
    pub signer_bonk_amount: u64,
    /// The settlement token's mint account; must be the fixed mint.
    pub wsol: Pubkey,
    /// The authority's settlement-token account.
    pub signer_wsol: Pubkey,
    /// Balance of the reserve vault holding pooled donation tokens.
    pub bonk_vault_amount: u64,
    /// Address of the match record's account, checked against the
    /// finalize operation's account list.
    pub match_donation_state_key: Pubkey,
    /// The enclosing transaction.
    pub instructions: InstructionsView,
}

/// What a successful match operation instructs the platform to move.
#[derive(Clone, Copy, Debug, PartialEq, Eq, Structural)]
pub struct MatchEffects {
    /// Donation tokens released from the reserve vault to the authority:
    /// the swap's quoted input plus the slippage allowance.
    pub bonk_to_signer: u64,
}

impl MatchDonation {
    /// The sibling operation expected to carry the exchange swap: the
    /// one immediately after the current operation.
    pub open spec fn spec_swap_ix(&self) -> Instruction {
        self.instructions.instructions@[self.instructions.current_index + 1]
    }

    /// The sibling operation expected to finalize the donation: two
    /// after the current operation.
    pub open spec fn spec_finalize_ix(&self) -> Instruction {
        self.instructions.instructions@[self.instructions.current_index + 2]
    }
}

/// Outcome of a match operation, by check precedence: the account
/// constraints, the record's existence, the origin attestation, the
/// following swap operation, the reserve arithmetic, and the following
/// finalize operation.
pub open spec fn spec_match_err(
    ctx: MatchDonation,
    records: Map<u64, MatchDonationState>,
    seed: u64,
) -> Option<BonkPawsError> {
    let ixs = ctx.instructions;
    let swap_ix = ctx.spec_swap_ix();
    let fin_ix = ctx.spec_finalize_ix();
    if ctx.signer@ != spec_signing_authority_id() {
        Some(BonkPawsError::SignatureAuthorityMismatch)
    } else if ctx.bonk@ != spec_bonk_mint_id() {
        Some(BonkPawsError::InvalidBonkMint)
    } else if ctx.wsol@ != spec_wsol_mint_id() {
        Some(BonkPawsError::InvalidwSolMint)
    } else if !records.contains_key(seed) {
        Some(BonkPawsError::RecordNotFound)
    } else if ixs.current_index as int >= ixs.instructions@.len() {
        Some(BonkPawsError::InvalidInstructionIndex)
    } else if ixs.instructions@[ixs.current_index as int].program_id@ != spec_bonk_paws_id() {
        Some(BonkPawsError::ProgramMismatch)
    } else if ixs.current_index + 1 >= ixs.instructions@.len() {
        Some(BonkPawsError::MissingSwapIx)
    } else if spec_exact_out_swap_err(
        swap_ix,
        records[seed].donation_amount,
        ctx.bonk@,
        ctx.signer_bonk@,
        ctx.wsol@,
        ctx.signer_wsol@,
    ) is Some {
        spec_exact_out_swap_err(
            swap_ix,
            records[seed].donation_amount,
            ctx.bonk@,
            ctx.signer_bonk@,
            ctx.wsol@,
            ctx.signer_wsol@,
        )
    } else if ctx.bonk_vault_amount + ctx.signer_bonk_amount > u64::MAX {
        Some(BonkPawsError::Overflow)
    } else if spec_parse_shared_accounts_exact_out_route(
        spec_swap_payload(swap_ix),
    ).unwrap().quoted_in_amount * 10050 > u64::MAX {
        Some(BonkPawsError::Overflow)
    } else if ixs.current_index + 2 >= ixs.instructions@.len() {
        Some(BonkPawsError::MissingFinalizeIx)
    } else if !spec_call_matches(
        fin_ix,
        spec_bonk_paws_id(),
        spec_finalize_donation_discriminator(),
    ) {
        Some(BonkPawsError::InvalidInstruction)
    } else if fin_ix.accounts@.len() <= 8 || fin_ix.accounts@[8].pubkey@
        != ctx.match_donation_state_key@ {
        Some(BonkPawsError::InvalidMatchKey)
    } else {
        None
    }
}

/// How a successful match operation changes the record store, and what
/// it releases from the reserve.
pub open spec fn spec_match_updates(
    ctx: MatchDonation,
    seed: u64,
    recs0: Map<u64, MatchDonationState>,
    recs1: Map<u64, MatchDonationState>,
    effects: MatchEffects,
) -> bool {
    let quoted_in = spec_parse_shared_accounts_exact_out_route(
        spec_swap_payload(ctx.spec_swap_ix()),
    ).unwrap().quoted_in_amount;
    &&& recs1.contains_key(seed)
    &&& recs1[seed].id == recs0[seed].id
    &&& recs1[seed].donation_amount == ctx.bonk_vault_amount + ctx.signer_bonk_amount
    &&& recs1[seed].match_key == recs0[seed].match_key
    &&& recs1[seed].seed == seed
    &&& recs1 == recs0.insert(seed, recs1[seed])
    &&& effects.bonk_to_signer == quoted_in * 10050 / 10000
}

impl MatchDonation {
    /// Matches the donation recorded at `seed`: verifies the following
    /// swap and finalize operations, saves the reserve's cost baseline in
    /// the match record, and releases the swap's maximum input from the
    /// reserve to the authority.
    ///
    /// On any failure the whole operation is rejected and the store is
    /// unchanged; the platform then discards the enclosing transaction.
    pub fn match_donation(&self, seed: u64, match_records: &mut MatchRecordStore) -> (r: Result<
        MatchEffects,
        BonkPawsError,
    >)
        requires
            old(match_records).wf(),
        ensures
            final(match_records).wf(),
            match r {
                Ok(effects) => spec_match_err(*self, old(match_records)@, seed) is None
                    && spec_match_updates(
                    *self,
                    seed,
                    old(match_records)@,
                    final(match_records)@,
                    effects,
                ),
                Err(e) => spec_match_err(*self, old(match_records)@, seed) == Some(e)
                    && final(match_records)@ == old(match_records)@,
            },
    {
        // Account constraints the platform enforces during resolution.
        let authority = signing_authority_id();
        if !key_eq(&self.signer, &authority) {
            return Err(BonkPawsError::SignatureAuthorityMismatch);
        }
        let bonk_mint = bonk_mint_id();
        if !key_eq(&self.bonk, &bonk_mint) {
            return Err(BonkPawsError::InvalidBonkMint);
        }
        let wsol_mint = wsol_mint_id();
        if !key_eq(&self.wsol, &wsol_mint) {
            return Err(BonkPawsError::InvalidwSolMint);
        }
        let record = match match_records.get(seed) {
            Some(record) => *record,
            None => {
                return Err(BonkPawsError::RecordNotFound);
            },
        };
        // Origin attestation: reject nested calls.
        self.instructions.check_origin()?;
        let current_index = self.instructions.load_current_index() as usize;
        // The exchange swap must immediately follow, delivering exactly
        // the recorded donation amount.
        let swap_ix = match self.instructions.instruction_at(current_index + 1) {
            Some(ix) => ix,
            None => {
                return Err(BonkPawsError::MissingSwapIx);
            },
        };
        let route = validate_exact_out_swap(
            swap_ix,
            record.donation_amount,
            &self.bonk,
            &self.signer_bonk,
            &self.wsol,
            &self.signer_wsol,
        )?;
        // The reserve's cost baseline: everything the authority could
        // spend, measured again at finalize time.
        let baseline = match self.bonk_vault_amount.checked_add(self.signer_bonk_amount) {
            Some(sum) => sum,
            None => {
                return Err(BonkPawsError::Overflow);
            },
        };
        // The most the swap may consume: its quote plus the slippage
        // allowance.
        let max_donation_amount = match route.quoted_in_amount.checked_mul(10050) {
            Some(product) => product / 10000,
            None => {
                return Err(BonkPawsError::Overflow);
            },
        };
        // A finalize operation must follow the swap and name this match
        // record.
        let fin_ix = match self.instructions.instruction_at(current_index + 2) {
            Some(ix) => ix,
            None => {
                return Err(BonkPawsError::MissingFinalizeIx);
            },
        };
        let own = bonk_paws_id();
        let fin_disc = finalize_donation_discriminator();
        check_call(fin_ix, &own, &fin_disc, BonkPawsError::InvalidInstruction)?;
        if fin_ix.accounts.len() <= 8 || !key_eq(
            &fin_ix.accounts[8].pubkey,
            &self.match_donation_state_key,
        ) {
            return Err(BonkPawsError::InvalidMatchKey);
        }
        // All checks passed: rebase the record on the reserve balances.
        let updated = MatchDonationState {
            id: record.id,
            donation_amount: baseline,
            match_key: record.match_key,
            seed,
        };
        match match_records.update(seed, updated) {
            Ok(()) => {},
            Err(e) => {
                return Err(e);
            },
        }
        Ok(MatchEffects { bonk_to_signer: max_donation_amount })
    }
}

} // verus!
