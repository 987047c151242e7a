//! Validation of the exchange-swap operation that must follow a match
//! operation.
//!
//! The swap is located as a sibling operation, its call target and
//! discriminator are checked, its payload is decoded, and its amounts,
//! slippage, route shape and account slots are cross-checked against what
//! this protocol's own operation declared.

use vstd::prelude::*;

use crate::bytes_util::range_matches;
use crate::constants::MAX_SLIPPAGE_BPS;
use crate::errors::BonkPawsError;
use crate::instructions::Instruction;
use crate::keys::{jupiter_id, key_eq, spec_jupiter_id, Pubkey};
use crate::programs::{
    parse_shared_accounts_exact_out_route, parse_shared_accounts_route,
    shared_accounts_exact_out_route_discriminator, shared_accounts_route_discriminator,
    spec_parse_shared_accounts_exact_out_route, spec_parse_shared_accounts_route,
    spec_shared_accounts_exact_out_route_discriminator, spec_shared_accounts_route_discriminator,
    SharedAccountsExactOutRoute, SharedAccountsRoute, SharedAccountsExactOutRouteAccountMetas,
};

verus! {

/// True when `ix` calls `program` and its payload begins with the 8-byte
/// discriminator `disc`.
pub open spec fn spec_call_matches(ix: Instruction, program: Seq<u8>, disc: Seq<u8>) -> bool {
    &&& ix.program_id@ == program
    &&& ix.data@.len() >= 8
    &&& ix.data@.subrange(0, 8) == disc
}

/// Requires `ix` to call `program` with leading discriminator `disc`;
/// any deviation, including a payload shorter than a discriminator,
/// reports `err`.
pub fn check_call(ix: &Instruction, program: &Pubkey, disc: &[u8; 8], err: BonkPawsError) -> (r:
    Result<(), BonkPawsError>)
    ensures
        r is Ok <==> spec_call_matches(*ix, program@, disc@),
        r is Err ==> r == Err::<(), BonkPawsError>(err),
{
    if !key_eq(&ix.program_id, program) {
        return Err(err);
    }
    if ix.data.len() < 8 {
        return Err(err);
    }
    if !range_matches(ix.data.as_slice(), 0, disc.as_slice()) {
        return Err(err);
    }
    Ok(())
}

/// The swap payload of `ix`: everything after the discriminator.
pub open spec fn spec_swap_payload(ix: Instruction) -> Seq<u8> {
    ix.data@.subrange(8, ix.data@.len() as int)
}

/// Outcome of validating an exact-output swap operation, by check
/// precedence: call shape, payload decode, slippage ceiling, declared
/// output amount, non-empty route plan, then the four account slots
/// (donation-token mint and account, settlement-token mint and
/// account).
pub open spec fn spec_exact_out_swap_err(
    ix: Instruction,
    expected_out: u64,
    bonk: Seq<u8>,
    signer_bonk: Seq<u8>,
    wsol: Seq<u8>,
    signer_wsol: Seq<u8>,
) -> Option<BonkPawsError> {
    if !spec_call_matches(
        ix,
        spec_jupiter_id(),
        spec_shared_accounts_exact_out_route_discriminator(),
    ) {
        Some(BonkPawsError::InvalidInstruction)
    } else if spec_parse_shared_accounts_exact_out_route(spec_swap_payload(ix)) is None {
        Some(BonkPawsError::InvalidInstruction)
    } else {
        let route = spec_parse_shared_accounts_exact_out_route(spec_swap_payload(ix)).unwrap();
        if route.slippage_bps > MAX_SLIPPAGE_BPS {
            Some(BonkPawsError::InvalidSlippage)
        } else if route.out_amount != expected_out {
            Some(BonkPawsError::InvalidSolanaAmount)
        } else if route.route_plan.len() < 1 {
            Some(BonkPawsError::InvalidRoute)
        } else if ix.accounts@.len() < 13 {
            Some(BonkPawsError::InvalidInstruction)
        } else if ix.accounts@[7].pubkey@ != bonk {
            Some(BonkPawsError::InvalidBonkMint)
        } else if ix.accounts@[3].pubkey@ != signer_bonk {
            Some(BonkPawsError::InvalidBonkATA)
        } else if ix.accounts@[8].pubkey@ != wsol {
            Some(BonkPawsError::InvalidwSolMint)
        } else if ix.accounts@[6].pubkey@ != signer_wsol {
            Some(BonkPawsError::InvalidwSolATA)
        } else {
            None
        }
    }
}

/// Validates the exact-output swap operation: call target and
/// discriminator, payload decode, slippage within the fixed ceiling,
/// declared output equal to `expected_out`, at least one route hop, and
/// the named account slots equal to this operation's own mints and token
/// accounts.  Returns the decoded route on success.
pub fn validate_exact_out_swap(
    ix: &Instruction,
    expected_out: u64,
    bonk: &Pubkey,
    signer_bonk: &Pubkey,
    wsol: &Pubkey,
    signer_wsol: &Pubkey,
) -> (r: Result<SharedAccountsExactOutRoute, BonkPawsError>)
    ensures
        match r {
            Ok(route) => spec_exact_out_swap_err(
                *ix,
                expected_out,
                bonk@,
                signer_bonk@,
                wsol@,
                signer_wsol@,
            ) is None && spec_parse_shared_accounts_exact_out_route(spec_swap_payload(*ix))
                == Some(route@),
            Err(e) => spec_exact_out_swap_err(
                *ix,
                expected_out,
                bonk@,
                signer_bonk@,
                wsol@,
                signer_wsol@,
            ) == Some(e),
        },
{
    let jupiter = jupiter_id();
    let disc = shared_accounts_exact_out_route_discriminator();
    check_call(ix, &jupiter, &disc, BonkPawsError::InvalidInstruction)?;
    let dlen = ix.data.len();
    let payload = vstd::slice::slice_subrange(ix.data.as_slice(), 8, dlen);
    let route = parse_shared_accounts_exact_out_route(payload)?;
    if route.slippage_bps > MAX_SLIPPAGE_BPS {
        return Err(BonkPawsError::InvalidSlippage);
    }
    if route.out_amount != expected_out {
        return Err(BonkPawsError::InvalidSolanaAmount);
    }
    if route.route_plan.len() < 1 {
        return Err(BonkPawsError::InvalidRoute);
    }
    let metas = SharedAccountsExactOutRouteAccountMetas::try_from(&ix.accounts)?;
    if !key_eq(&metas.source_mint.pubkey, bonk) {
        return Err(BonkPawsError::InvalidBonkMint);
    }
    if !key_eq(&metas.source_token_account.pubkey, signer_bonk) {
        return Err(BonkPawsError::InvalidBonkATA);
    }
    if !key_eq(&metas.destination_mint.pubkey, wsol) {
        return Err(BonkPawsError::InvalidwSolMint);
    }
    if !key_eq(&metas.destination_token_account.pubkey, signer_wsol) {
        return Err(BonkPawsError::InvalidwSolATA);
    }
    Ok(route)
}

/// Outcome of validating an exact-input swap operation, by check
/// precedence: call shape, payload decode, declared input amount,
/// slippage ceiling, non-empty route plan, quoted output within the open
/// band `(min_out, max_out)`, then the account slots.  When `authority`
/// is supplied, slot 2 must name it.
pub open spec fn spec_route_swap_err(
    ix: Instruction,
    swap_amount: u64,
    min_out: u64,
    max_out: u64,
    bonk: Seq<u8>,
    bonk_ata: Seq<u8>,
    authority: Option<Seq<u8>>,
    wsol: Seq<u8>,
    wsol_ata: Seq<u8>,
) -> Option<BonkPawsError> {
    if !spec_call_matches(ix, spec_jupiter_id(), spec_shared_accounts_route_discriminator()) {
        Some(BonkPawsError::InvalidInstruction)
    } else if spec_parse_shared_accounts_route(spec_swap_payload(ix)) is None {
        Some(BonkPawsError::InvalidInstruction)
    } else {
        let route = spec_parse_shared_accounts_route(spec_swap_payload(ix)).unwrap();
        if route.in_amount != swap_amount {
            Some(BonkPawsError::InvalidAmount)
        } else if route.slippage_bps > MAX_SLIPPAGE_BPS {
            Some(BonkPawsError::InvalidSlippage)
        } else if route.route_plan.len() < 1 {
            Some(BonkPawsError::InvalidRoute)
        } else if !(route.quoted_out_amount > min_out && route.quoted_out_amount < max_out) {
            Some(BonkPawsError::InvalidSolanaAmount)
        } else if ix.accounts@.len() <= 7 || ix.accounts@[7].pubkey@ != bonk {
            Some(BonkPawsError::InvalidBonkMint)
        } else if ix.accounts@.len() <= 3 || ix.accounts@[3].pubkey@ != bonk_ata {
            Some(BonkPawsError::InvalidBonkATA)
        } else if authority is Some && (ix.accounts@.len() <= 2 || ix.accounts@[2].pubkey@
            != authority.unwrap()) {
            Some(BonkPawsError::InvalidBonkAccount)
        } else if ix.accounts@.len() <= 8 || ix.accounts@[8].pubkey@ != wsol {
            Some(BonkPawsError::InvalidwSolMint)
        } else if ix.accounts@.len() <= 6 || ix.accounts@[6].pubkey@ != wsol_ata {
            Some(BonkPawsError::InvalidwSolATA)
        } else {
            None
        }
    }
}

/// Validates the exact-input swap operation: call target and
/// discriminator, payload decode, declared input equal to `swap_amount`,
/// slippage within the fixed ceiling, at least one route hop, quoted
/// output strictly inside `(min_out, max_out)`, and the fixed account
/// slots.  When `authority` is supplied, account slot 2 must name it.
/// Returns the decoded route on success.
pub fn validate_route_swap(
    ix: &Instruction,
    swap_amount: u64,
    min_out: u64,
    max_out: u64,
    bonk: &Pubkey,
    bonk_ata: &Pubkey,
    authority: Option<&Pubkey>,
    wsol: &Pubkey,
    wsol_ata: &Pubkey,
) -> (r: Result<SharedAccountsRoute, BonkPawsError>)
    ensures
        match r {
            Ok(route) => spec_route_swap_err(
                *ix,
                swap_amount,
                min_out,
                max_out,
                bonk@,
                bonk_ata@,
                spec_opt_key(authority),
                wsol@,
                wsol_ata@,
            ) is None && spec_parse_shared_accounts_route(spec_swap_payload(*ix)) == Some(
                route@,
            ),
            Err(e) => spec_route_swap_err(
                *ix,
                swap_amount,
                min_out,
                max_out,
                bonk@,
                bonk_ata@,
                spec_opt_key(authority),
                wsol@,
                wsol_ata@,
            ) == Some(e),
        },
{
    let jupiter = jupiter_id();
    let disc = shared_accounts_route_discriminator();
    check_call(ix, &jupiter, &disc, BonkPawsError::InvalidInstruction)?;
    let dlen = ix.data.len();
    let payload = vstd::slice::slice_subrange(ix.data.as_slice(), 8, dlen);
    let route = parse_shared_accounts_route(payload)?;
    if route.in_amount != swap_amount {
        return Err(BonkPawsError::InvalidAmount);
    }
    if route.slippage_bps > MAX_SLIPPAGE_BPS {
        return Err(BonkPawsError::InvalidSlippage);
    }
    if route.route_plan.len() < 1 {
        return Err(BonkPawsError::InvalidRoute);
    }
    if !(route.quoted_out_amount > min_out && route.quoted_out_amount < max_out) {
        return Err(BonkPawsError::InvalidSolanaAmount);
    }
    if ix.accounts.len() <= 7 || !key_eq(&ix.accounts[7].pubkey, bonk) {
        return Err(BonkPawsError::InvalidBonkMint);
    }
    if ix.accounts.len() <= 3 || !key_eq(&ix.accounts[3].pubkey, bonk_ata) {
        return Err(BonkPawsError::InvalidBonkATA);
    }
    match authority {
        Some(a) => {
            if ix.accounts.len() <= 2 || !key_eq(&ix.accounts[2].pubkey, a) {
                return Err(BonkPawsError::InvalidBonkAccount);
            }
        },
        None => {},
    }
    if ix.accounts.len() <= 8 || !key_eq(&ix.accounts[8].pubkey, wsol) {
        return Err(BonkPawsError::InvalidwSolMint);
    }
    if ix.accounts.len() <= 6 || !key_eq(&ix.accounts[6].pubkey, wsol_ata) {
        return Err(BonkPawsError::InvalidwSolATA);
    }
    Ok(route)
}

/// The byte view of an optional key reference.
pub open spec fn spec_opt_key(k: Option<&Pubkey>) -> Option<Seq<u8>> {
    match k {
        Some(key) => Some(key@),
        None => None,
    }
}

} // verus!
