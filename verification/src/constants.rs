//! Protocol-wide numeric constants, immutable after deployment.

use vstd::prelude::*;

verus! {

/// Smallest donation eligible for matching; a donation below it must not
/// create a match record.
pub const MIN_MATCH_THRESHOLD: u64 = 0;

/// Largest donation eligible for matching.
pub const MAX_MATCH_THRESHOLD: u64 = 1_000_000_000_000_000;

/// Smallest matched amount whose burn share is taken.
pub const MIN_BURN_THRESHOLD: u64 = 100_000_000;

/// Largest matched amount whose burn share is taken.
pub const MAX_BURN_THRESHOLD: u64 = 1_000_000_000_000_000;

/// The burn rate is `1 / BURN_DENOMINATOR` of the matched amount.
pub const BURN_DENOMINATOR: u16 = 100;

/// The fixed slippage ceiling for exchange swaps, in basis points.
pub const MAX_SLIPPAGE_BPS: u16 = 50;

} // verus!
