//! The protocol's error taxonomy.
//!
//! Every failure aborts the enclosing transaction; each cause has its own
//! variant so off-chain tooling can classify the exact reason.

use vstd::prelude::*;

verus! {

/// Why a donation, match or finalize operation was rejected.
///
/// The first group are structural-sequence errors (a sibling operation is
/// missing, misplaced, or addressed to the wrong program), the second are
/// payload-shape errors, the third value errors, then arithmetic overflow
/// and account-identity mismatches.  `RecordAlreadyExists` and
/// `RecordNotFound` are raised by the match-record store, which enforces
/// the create-once / destroy-once lifecycle that the platform's
/// account-initialization layer enforces on chain.
#[derive(Clone, Copy, Debug, PartialEq, Eq, Structural)]
pub enum BonkPawsError {
    /// A decoded amount does not equal the amount this operation declared.
    InvalidAmount,
    /// No exchange-swap operation follows the current operation.
    MissingSwapIx,
    /// No finalize operation follows the swap operation.
    MissingFinalizeIx,
    /// No match operation precedes the finalize operation.
    MissingDonateIx,
    /// An operation's program identity is not the expected one.
    ProgramMismatch,
    /// An operation's discriminator or shape is not the expected one.
    InvalidInstruction,
    /// The swap's route plan has no hops.
    InvalidRoute,
    /// The swap's slippage exceeds the fixed ceiling.
    InvalidSlippage,
    /// The swap's quoted settlement amount is out of the expected band.
    InvalidSolanaAmount,
    /// A swap account slot does not hold the donation token's mint.
    InvalidBonkMint,
    /// A swap account slot does not hold the expected donation-token account.
    InvalidBonkAccount,
    /// A swap account slot does not hold the expected donation-token ATA.
    InvalidBonkATA,
    /// A swap account slot does not hold the settlement token's mint.
    InvalidwSolMint,
    /// A swap account slot does not hold the expected settlement-token ATA.
    InvalidwSolATA,
    /// A swap account slot does not hold the expected settlement account.
    InvalidwSolAccount,
    /// A settlement-token balance is out of the expected band.
    InvalidwSolBalance,
    /// The transfer's beneficiary is not the co-signed charity address.
    InvalidCharityAddress,
    /// A native-asset balance is out of the expected band.
    InvalidLamportsBalance,
    /// The current operation sits too early in its transaction for the
    /// required context.
    InvalidInstructionIndex,
    /// The signature operation's fixed 16-byte header template deviates.
    SignatureHeaderMismatch,
    /// The signature operation's attesting key is not the trusted authority.
    SignatureAuthorityMismatch,
    /// A match record was requested for an amount that does not require one,
    /// or omitted for one that does.
    NotMatchingDonation,
    /// The co-signed match-target address is inconsistent with the request.
    InvalidMatchKey,
    /// A checked addition on the ledger would wrap.
    Overflow,
    /// A match record already occupies the seed-derived address.
    RecordAlreadyExists,
    /// No match record exists at the seed-derived address.
    RecordNotFound,
}

} // verus!
