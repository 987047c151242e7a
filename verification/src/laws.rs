//! The protocol's global guarantees, proved from the operations'
//! contracts: the ledger's accumulation behaviour, the burn/match
//! coupling, the match record's lifecycle, and the matching threshold.

use vstd::prelude::*;

use crate::constants::{BURN_DENOMINATOR, MIN_MATCH_THRESHOLD};
use crate::contexts::donate::{spec_donate_err, spec_donate_updates, DonateSol};
use crate::contexts::finalize::{
    spec_finalize_err, spec_finalize_updates, FinalizeDonation, FinalizeEffects,
};
use crate::errors::BonkPawsError;
use crate::state::{DonationHistory, DonationState, MatchDonationState};

verus! {

/// The sum of a sequence of donation amounts.
pub open spec fn spec_sum(amounts: Seq<u64>) -> int
    decreases amounts.len(),
{
    if amounts.len() == 0 {
        0
    } else {
        amounts[0] + spec_sum(amounts.subrange(1, amounts.len() as int))
    }
}

/// The donated total after a run of successful donations, each adding
/// its amount as [`DonationState::record_donation`] ensures.
pub open spec fn spec_run_donations(donated: int, amounts: Seq<u64>) -> int
    decreases amounts.len(),
{
    if amounts.len() == 0 {
        donated
    } else {
        spec_run_donations(donated + amounts[0], amounts.subrange(1, amounts.len() as int))
    }
}

/// For every sequence of successful donations, the donated total ends at
/// its starting value plus the sum of the individual amounts accepted,
/// and that sum is never negative.
pub proof fn lemma_donations_accumulate(donated: int, amounts: Seq<u64>)
    ensures
        spec_run_donations(donated, amounts) == donated + spec_sum(amounts),
        spec_sum(amounts) >= 0,
    decreases amounts.len(),
{
    if amounts.len() > 0 {
        lemma_donations_accumulate(donated + amounts[0], amounts.subrange(
            1,
            amounts.len() as int,
        ));
    }
}

/// For every sequence of successful donations, the donated total is
/// monotonically non-decreasing: every later prefix of the run ends at
/// least as high as every earlier one.
pub proof fn lemma_donated_total_monotonic(donated: int, amounts: Seq<u64>, i: int, j: int)
    requires
        0 <= i <= j <= amounts.len(),
    ensures
        spec_run_donations(donated, amounts.subrange(0, i)) <= spec_run_donations(
            donated,
            amounts.subrange(0, j),
        ),
{
    lemma_donations_accumulate(donated, amounts.subrange(0, i));
    lemma_donations_accumulate(donated, amounts.subrange(0, j));
    lemma_sum_prefix_monotonic(amounts, i, j);
}

/// A longer prefix of donation amounts sums to at least as much as a
/// shorter one.
proof fn lemma_sum_prefix_monotonic(amounts: Seq<u64>, i: int, j: int)
    requires
        0 <= i <= j <= amounts.len(),
    ensures
        spec_sum(amounts.subrange(0, i)) <= spec_sum(amounts.subrange(0, j)),
    decreases i,
{
    if i == 0 {
        lemma_donations_accumulate(0, amounts.subrange(0, j));
        assert(spec_sum(amounts.subrange(0, 0)) == 0);
    } else {
        let pi = amounts.subrange(0, i);
        let pj = amounts.subrange(0, j);
        assert(pi.subrange(1, pi.len() as int) =~= amounts.subrange(1, amounts.len() as int)
            .subrange(0, i - 1));
        assert(pj.subrange(1, pj.len() as int) =~= amounts.subrange(1, amounts.len() as int)
            .subrange(0, j - 1));
        lemma_sum_prefix_monotonic(amounts.subrange(1, amounts.len() as int), i - 1, j - 1);
    }
}

/// After each matching event, the burned total still equals the matched
/// total divided by the burn denominator, provided it did before and the
/// matched amount is a whole multiple of the denominator.  (A matched
/// amount that is no such multiple — say two events of 50 with a
/// denominator of 100 — leaves a rounding deficit, since each event
/// burns only the floor of its own share.)
pub proof fn lemma_burn_tracks_match(ledger0: DonationState, ledger1: DonationState, matched: u64)
    requires
        ledger0.total_burned == ledger0.total_matched as int / (BURN_DENOMINATOR as int),
        matched as int % (BURN_DENOMINATOR as int) == 0,
        ledger1.total_matched == ledger0.total_matched + matched,
        ledger1.total_burned == ledger0.total_burned + matched as int / (BURN_DENOMINATOR as int),
    ensures
        ledger1.total_burned == ledger1.total_matched as int / (BURN_DENOMINATOR as int),
{
    let d = BURN_DENOMINATOR as int;
    let a = ledger0.total_matched as int;
    let m = matched as int;
    assert((a + m) / d == a / d + m / d) by (nonlinear_arith)
        requires
            d == 100,
            m % d == 0,
            a >= 0,
            m >= 0,
    ;
}

/// The burned total never overtakes the matched total's share: a
/// matching event that burns the floor of its own share keeps
/// `total_burned` at or below `total_matched / BURN_DENOMINATOR`,
/// whatever the amounts.
pub proof fn lemma_burn_never_overtakes_match(
    ledger0: DonationState,
    ledger1: DonationState,
    matched: u64,
)
    requires
        ledger0.total_burned <= ledger0.total_matched as int / (BURN_DENOMINATOR as int),
        ledger1.total_matched == ledger0.total_matched + matched,
        ledger1.total_burned == ledger0.total_burned + matched as int / (BURN_DENOMINATOR as int),
    ensures
        ledger1.total_burned <= ledger1.total_matched as int / (BURN_DENOMINATOR as int),
{
    let d = BURN_DENOMINATOR as int;
    let a = ledger0.total_matched as int;
    let m = matched as int;
    assert(a / d + m / d <= (a + m) / d) by (nonlinear_arith)
        requires
            d == 100,
            a >= 0,
            m >= 0,
    ;
}

/// A match record for a given seed can be created at most once: after a
/// donation has opened the record at `seed`, any further donation that
/// asks for a record at the same seed is rejected outright, whatever its
/// other inputs, and the first record stands.
pub proof fn lemma_seed_reuse_rejected(
    first: DonateSol,
    second: DonateSol,
    seed: u64,
    amount1: u64,
    amount2: u64,
    now: i64,
    ledger0: DonationState,
    ledger1: DonationState,
    recs0: Map<u64, MatchDonationState>,
    recs1: Map<u64, MatchDonationState>,
    hist0: Seq<(u64, DonationHistory)>,
    hist1: Seq<(u64, DonationHistory)>,
)
    requires
        first.match_account_provided,
        second.match_account_provided,
        spec_donate_err(first, recs0, hist0, ledger0, seed, amount1) is None,
        spec_donate_updates(
            first,
            seed,
            amount1,
            now,
            ledger0,
            ledger1,
            recs0,
            recs1,
            hist0,
            hist1,
        ),
    ensures
        spec_donate_err(second, recs1, hist1, ledger1, seed, amount2) == Some(
            BonkPawsError::RecordAlreadyExists,
        ),
        recs1.contains_key(seed),
        recs1[seed].donation_amount == amount1,
{
}

/// A match record can be destroyed at most once: after a finalize
/// operation has consumed the record at `seed`, any further finalize at
/// the same seed fails — no record exists any more, so some check of the
/// second operation must reject it.
pub proof fn lemma_record_destroyed_once(
    first: FinalizeDonation,
    second: FinalizeDonation,
    seed: u64,
    ledger0: DonationState,
    ledger1: DonationState,
    ledger2: DonationState,
    recs0: Map<u64, MatchDonationState>,
    recs1: Map<u64, MatchDonationState>,
    effects: FinalizeEffects,
)
    requires
        spec_finalize_err(first, recs0, ledger0, seed) is None,
        spec_finalize_updates(first, seed, ledger0, ledger1, recs0, recs1, effects),
    ensures
        spec_finalize_err(second, recs1, ledger2, seed) is Some,
{
    assert(!recs1.contains_key(seed));
}

/// Finalizing a seed that never had a record fails as well: consuming a
/// nonexistent record is rejected before any protocol logic runs.
pub proof fn lemma_finalize_absent_fails(
    ctx: FinalizeDonation,
    seed: u64,
    ledger: DonationState,
    recs: Map<u64, MatchDonationState>,
)
    requires
        !recs.contains_key(seed),
    ensures
        spec_finalize_err(ctx, recs, ledger, seed) is Some,
{
}

/// The matching threshold governs the match record exactly: a successful
/// donation below the threshold leaves the record store untouched, and
/// one at or above it opens exactly one new record, at its seed, which
/// was free before.
pub proof fn lemma_threshold_governs_record(
    ctx: DonateSol,
    seed: u64,
    amount: u64,
    now: i64,
    ledger0: DonationState,
    ledger1: DonationState,
    recs0: Map<u64, MatchDonationState>,
    recs1: Map<u64, MatchDonationState>,
    hist0: Seq<(u64, DonationHistory)>,
    hist1: Seq<(u64, DonationHistory)>,
)
    requires
        spec_donate_err(ctx, recs0, hist0, ledger0, seed, amount) is None,
        spec_donate_updates(ctx, seed, amount, now, ledger0, ledger1, recs0, recs1, hist0, hist1),
    ensures
        amount < MIN_MATCH_THRESHOLD ==> recs1 == recs0,
        amount >= MIN_MATCH_THRESHOLD ==> {
            &&& !recs0.contains_key(seed)
            &&& recs1.contains_key(seed)
            &&& recs1[seed].donation_amount == amount
            &&& recs1[seed].seed == seed
            &&& recs1.remove(seed) == recs0
        },
{
}

} // verus!
