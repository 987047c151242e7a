//! Verified core of an atomic charitable-donation protocol.
//!
//! A donation runs as one indivisible transaction on a shared ledger
//! platform: a trusted authority co-signs the donation policy, an external
//! exchange swaps the donated asset, a fixed share of every matched amount
//! is burned, and the proceeds reach a fixed beneficiary.  The code here is
//! the part that must be correct for that flow to be non-exploitable:
//!
//! * locating and checking the sibling operations of the enclosing
//!   transaction (signature operation before, swap and finalize after);
//! * byte-exact decoding of the co-signed payload and of the exchange's
//!   swap payload;
//! * the running donation/match/burn totals, mutated only through checked
//!   arithmetic;
//! * the per-donation match record, created at most once per seed and
//!   destroyed exactly once.
//!
//! The platform primitives themselves (asset transfer, token burn, account
//! close, the swap execution) are opaque collaborators: each entry point
//! validates the transaction shape and returns the amounts those primitives
//! must move, rather than performing the moves itself.

use vstd::prelude::*;

pub mod bytes_util;
pub mod constants;
pub mod contexts;
pub mod ed25519;
pub mod errors;
pub mod instructions;
pub mod keys;
pub mod laws;
pub mod programs;
pub mod state;
pub mod store;
pub mod swap_validation;

use contexts::donate::{spec_donate_err, spec_donate_updates, DonateSol};
use contexts::finalize::{
    spec_finalize_err, spec_finalize_updates, FinalizeDonation, FinalizeEffects,
};
use contexts::match_donation::{
    spec_match_err, spec_match_updates, MatchDonation, MatchEffects,
};
use errors::BonkPawsError;
use state::DonationState;
use store::{DonationHistoryLog, MatchRecordStore};

verus! {

/// The donation entry point: verifies the co-signed payload chain and
/// records the donation (see [`DonateSol::donate_sol`]).
pub fn donate(
    ctx: &DonateSol,
    seed: u64,
    sol_donation: u64,
    now: i64,
    donation_state: &mut DonationState,
    match_records: &mut MatchRecordStore,
    donation_history: &mut DonationHistoryLog,
) -> (r: Result<(), BonkPawsError>)
    requires
        old(match_records).wf(),
    ensures
        final(match_records).wf(),
        match r {
            Ok(()) => spec_donate_err(
                *ctx,
                old(match_records)@,
                old(donation_history)@,
                *old(donation_state),
                seed,
                sol_donation,
            ) is None && spec_donate_updates(
                *ctx,
                seed,
                sol_donation,
                now,
                *old(donation_state),
                *final(donation_state),
                old(match_records)@,
                final(match_records)@,
                old(donation_history)@,
                final(donation_history)@,
            ),
            Err(e) => spec_donate_err(
                *ctx,
                old(match_records)@,
                old(donation_history)@,
                *old(donation_state),
                seed,
                sol_donation,
            ) == Some(e) && *final(donation_state) == *old(donation_state)
                && final(match_records)@ == old(match_records)@
                && final(donation_history)@ == old(donation_history)@,
        },
{
    ctx.donate_sol(seed, sol_donation, now, donation_state, match_records, donation_history)
}

/// The match entry point: verifies the following swap and finalize
/// operations and rebases the match record (see
/// [`MatchDonation::match_donation`]).
pub fn match_donation(ctx: &MatchDonation, seed: u64, match_records: &mut MatchRecordStore) -> (r:
    Result<MatchEffects, BonkPawsError>)
    requires
        old(match_records).wf(),
    ensures
        final(match_records).wf(),
        match r {
            Ok(effects) => spec_match_err(*ctx, old(match_records)@, seed) is None
                && spec_match_updates(
                *ctx,
                seed,
                old(match_records)@,
                final(match_records)@,
                effects,
            ),
            Err(e) => spec_match_err(*ctx, old(match_records)@, seed) == Some(e)
                && final(match_records)@ == old(match_records)@,
        },
{
    ctx.match_donation(seed, match_records)
}

/// The finalize entry point: verifies the preceding match and swap
/// operations, reconciles the ledger and destroys the match record (see
/// [`FinalizeDonation::finalize_donation`]).
pub fn finalize_donation(
    ctx: &FinalizeDonation,
    seed: u64,
    donation_state: &mut DonationState,
    match_records: &mut MatchRecordStore,
) -> (r: Result<FinalizeEffects, BonkPawsError>)
    requires
        old(match_records).wf(),
    ensures
        final(match_records).wf(),
        match r {
            Ok(effects) => spec_finalize_err(
                *ctx,
                old(match_records)@,
                *old(donation_state),
                seed,
            ) is None && spec_finalize_updates(
                *ctx,
                seed,
                *old(donation_state),
                *final(donation_state),
                old(match_records)@,
                final(match_records)@,
                effects,
            ),
            Err(e) => spec_finalize_err(
                *ctx,
                old(match_records)@,
                *old(donation_state),
                seed,
            ) == Some(e) && *final(donation_state) == *old(donation_state)
                && final(match_records)@ == old(match_records)@,
        },
{
    ctx.finalize_donation(seed, donation_state, match_records)
}

} // verus!
