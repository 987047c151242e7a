//! Tests for the signed-payload decoder, the swap validators and the
//! swap account list.

use bonk_paws::ed25519::{decode_signed_charity, decode_signed_donation};
use bonk_paws::errors::BonkPawsError;
use bonk_paws::instructions::{AccountMeta, Instruction};
use bonk_paws::keys::{
    ed25519_program_id, is_default_key, jupiter_id, key_eq, signing_authority_id,
};
use bonk_paws::programs::{
    encode_shared_accounts_exact_out_route, encode_shared_accounts_route,
    exact_out_route_discriminator, shared_accounts_exact_out_route_discriminator,
    shared_accounts_route_discriminator, RoutePlanStep, SharedAccountsExactOutRoute,
    SharedAccountsExactOutRouteAccountMetas, SharedAccountsRoute, Swap,
};
use bonk_paws::swap_validation::{validate_exact_out_swap, validate_route_swap};

const BONK: [u8; 32] = [11u8; 32];
const BONK_ATA: [u8; 32] = [12u8; 32];
const WSOL: [u8; 32] = [13u8; 32];
const WSOL_ATA: [u8; 32] = [14u8; 32];

fn donation_sig_ix(id: u64, charity: [u8; 32], match_key: [u8; 32]) -> Instruction {
    let mut data = vec![
        0x01u8, 0x00, 0x30, 0x00, 0xff, 0xff, 0x10, 0x00, 0xff, 0xff, 0x70, 0x00, 0x48, 0x00,
        0xff, 0xff,
    ];
    data.extend_from_slice(&signing_authority_id());
    while data.len() < 0x70 {
        data.push(0xaa);
    }
    data.extend_from_slice(&id.to_le_bytes());
    data.extend_from_slice(&charity);
    data.extend_from_slice(&match_key);
    Instruction { program_id: ed25519_program_id(), accounts: vec![], data }
}

fn charity_sig_ix(charity: [u8; 32]) -> Instruction {
    let mut data = vec![
        0x01u8, 0x00, 0x30, 0x00, 0xff, 0xff, 0x10, 0x00, 0xff, 0xff, 0x70, 0x00, 0x20, 0x00,
        0xff, 0xff,
    ];
    data.extend_from_slice(&signing_authority_id());
    while data.len() < 0x70 {
        data.push(0xaa);
    }
    data.extend_from_slice(&charity);
    Instruction { program_id: ed25519_program_id(), accounts: vec![], data }
}

fn swap_accounts() -> Vec<AccountMeta> {
    let mut accounts: Vec<AccountMeta> = (0u8..13).map(|i| AccountMeta { pubkey: [i; 32] }).collect();
    accounts[3] = AccountMeta { pubkey: BONK_ATA };
    accounts[6] = AccountMeta { pubkey: WSOL_ATA };
    accounts[7] = AccountMeta { pubkey: BONK };
    accounts[8] = AccountMeta { pubkey: WSOL };
    accounts[9] = AccountMeta { pubkey: jupiter_id() };
    accounts[10] = AccountMeta { pubkey: jupiter_id() };
    accounts
}

fn exact_out_swap_ix_with_hops(
    out_amount: u64,
    quoted_in: u64,
    slippage_bps: u16,
    hops: usize,
) -> Instruction {
    let route = SharedAccountsExactOutRoute {
        id: 0,
        route_plan: (0..hops)
            .map(|_| RoutePlanStep { swap: Swap::Raydium, percent: 100, input_index: 0, output_index: 1 })
            .collect(),
        out_amount,
        quoted_in_amount: quoted_in,
        slippage_bps,
        platform_fee_bps: 0,
    };
    let mut data = shared_accounts_exact_out_route_discriminator().to_vec();
    data.extend_from_slice(&encode_shared_accounts_exact_out_route(&route));
    Instruction { program_id: jupiter_id(), accounts: swap_accounts(), data }
}

fn exact_out_swap_ix(out_amount: u64, quoted_in: u64, slippage_bps: u16) -> Instruction {
    exact_out_swap_ix_with_hops(out_amount, quoted_in, slippage_bps, 1)
}

fn route_swap_ix(in_amount: u64, quoted_out: u64, slippage_bps: u16, hops: usize) -> Instruction {
    let route = SharedAccountsRoute {
        id: 0,
        route_plan: (0..hops)
            .map(|_| RoutePlanStep { swap: Swap::Raydium, percent: 100, input_index: 0, output_index: 1 })
            .collect(),
        in_amount,
        quoted_out_amount: quoted_out,
        slippage_bps,
        platform_fee_bps: 0,
    };
    let mut data = shared_accounts_route_discriminator().to_vec();
    data.extend_from_slice(&encode_shared_accounts_route(&route));
    Instruction { program_id: jupiter_id(), accounts: swap_accounts(), data }
}

#[test]
fn key_helpers_compare_bytes() {
    let a = [5u8; 32];
    let mut b = [5u8; 32];
    assert!(key_eq(&a, &b));
    b[31] = 6;
    assert!(!key_eq(&a, &b));
    assert!(is_default_key(&[0u8; 32]));
    assert!(!is_default_key(&a));
}

#[test]
fn signed_donation_payload_decodes() {
    let charity = [3u8; 32];
    let match_key = [4u8; 32];
    let ix = donation_sig_ix(0x1122334455667788, charity, match_key);
    let message = decode_signed_donation(&ix).unwrap();
    assert_eq!(message.id, 0x1122334455667788);
    assert_eq!(message.charity_key, charity);
    assert_eq!(message.match_key, match_key);
}

#[test]
fn signed_donation_payload_rejections() {
    let good = donation_sig_ix(1, [3u8; 32], [4u8; 32]);

    let mut wrong_program = good.clone();
    wrong_program.program_id = [7u8; 32];
    assert_eq!(
        decode_signed_donation(&wrong_program).unwrap_err(),
        BonkPawsError::ProgramMismatch
    );

    let mut bad_header = good.clone();
    bad_header.data[12] = 0x20;
    assert_eq!(
        decode_signed_donation(&bad_header).unwrap_err(),
        BonkPawsError::SignatureHeaderMismatch
    );

    let mut short = good.clone();
    short.data.truncate(0x90);
    assert_eq!(
        decode_signed_donation(&short).unwrap_err(),
        BonkPawsError::SignatureHeaderMismatch
    );

    let mut bad_authority = good.clone();
    bad_authority.data[16] ^= 1;
    assert_eq!(
        decode_signed_donation(&bad_authority).unwrap_err(),
        BonkPawsError::SignatureAuthorityMismatch
    );
}

#[test]
fn signed_charity_payload_decodes() {
    let charity = [8u8; 32];
    let ix = charity_sig_ix(charity);
    let message = decode_signed_charity(&ix).unwrap();
    assert_eq!(message.charity_key, charity);
    // The donation-layout header does not fit the charity layout.
    let wrong_layout = donation_sig_ix(1, charity, [0u8; 32]);
    assert_eq!(
        decode_signed_charity(&wrong_layout).unwrap_err(),
        BonkPawsError::SignatureHeaderMismatch
    );
}

#[test]
fn exact_out_swap_validates() {
    let ix = exact_out_swap_ix(2_000_000_000, 1_000_000, 50);
    let route =
        validate_exact_out_swap(&ix, 2_000_000_000, &BONK, &BONK_ATA, &WSOL, &WSOL_ATA).unwrap();
    assert_eq!(route.quoted_in_amount, 1_000_000);
}

#[test]
fn exact_out_swap_rejections() {
    let good = exact_out_swap_ix(2_000_000_000, 1_000_000, 50);

    // Wrong call target.
    let mut wrong_target = good.clone();
    wrong_target.program_id = [1u8; 32];
    assert_eq!(
        validate_exact_out_swap(&wrong_target, 2_000_000_000, &BONK, &BONK_ATA, &WSOL, &WSOL_ATA).unwrap_err(),
        BonkPawsError::InvalidInstruction
    );

    // Wrong discriminator.
    let mut wrong_disc = good.clone();
    wrong_disc.data[..8].copy_from_slice(&exact_out_route_discriminator());
    assert_eq!(
        validate_exact_out_swap(&wrong_disc, 2_000_000_000, &BONK, &BONK_ATA, &WSOL, &WSOL_ATA).unwrap_err(),
        BonkPawsError::InvalidInstruction
    );

    // Slippage above the fixed ceiling.
    let wide = exact_out_swap_ix(2_000_000_000, 1_000_000, 51);
    assert_eq!(
        validate_exact_out_swap(&wide, 2_000_000_000, &BONK, &BONK_ATA, &WSOL, &WSOL_ATA).unwrap_err(),
        BonkPawsError::InvalidSlippage
    );

    // Output amount mismatched against the declared amount.
    assert_eq!(
        validate_exact_out_swap(&good, 1_999_999_999, &BONK, &BONK_ATA, &WSOL, &WSOL_ATA).unwrap_err(),
        BonkPawsError::InvalidSolanaAmount
    );

    // Empty route plan.
    let empty = exact_out_swap_ix_with_hops(2_000_000_000, 1_000_000, 50, 0);
    assert_eq!(
        validate_exact_out_swap(&empty, 2_000_000_000, &BONK, &BONK_ATA, &WSOL, &WSOL_ATA).unwrap_err(),
        BonkPawsError::InvalidRoute
    );

    // Account slots mismatched, one error per slot.
    assert_eq!(
        validate_exact_out_swap(&good, 2_000_000_000, &[9u8; 32], &BONK_ATA, &WSOL, &WSOL_ATA).unwrap_err(),
        BonkPawsError::InvalidBonkMint
    );
    assert_eq!(
        validate_exact_out_swap(&good, 2_000_000_000, &BONK, &[9u8; 32], &WSOL, &WSOL_ATA).unwrap_err(),
        BonkPawsError::InvalidBonkATA
    );
    assert_eq!(
        validate_exact_out_swap(&good, 2_000_000_000, &BONK, &BONK_ATA, &[9u8; 32], &WSOL_ATA).unwrap_err(),
        BonkPawsError::InvalidwSolMint
    );
    assert_eq!(
        validate_exact_out_swap(&good, 2_000_000_000, &BONK, &BONK_ATA, &WSOL, &[9u8; 32]).unwrap_err(),
        BonkPawsError::InvalidwSolATA
    );

    // Fewer than thirteen accounts.
    let mut short = good.clone();
    short.accounts.truncate(12);
    assert_eq!(
        validate_exact_out_swap(&short, 2_000_000_000, &BONK, &BONK_ATA, &WSOL, &WSOL_ATA).unwrap_err(),
        BonkPawsError::InvalidInstruction
    );
}

#[test]
fn route_swap_validates_and_rejects() {
    // in = 99% of 2_000_000, quote strictly inside (min, min + min/2).
    let good = route_swap_ix(1_980_000, 2_000_000, 50, 1);
    let route = validate_route_swap(
        &good, 1_980_000, 1_980_000, 2_970_000, &BONK, &BONK_ATA, None, &WSOL, &WSOL_ATA,
    )
    .unwrap();
    assert_eq!(route.in_amount, 1_980_000);

    // Input amount mismatched against the declared amount.
    assert_eq!(
        validate_route_swap(
            &good, 1_980_001, 1_980_000, 2_970_000, &BONK, &BONK_ATA, None, &WSOL, &WSOL_ATA,
        ).unwrap_err(),
        BonkPawsError::InvalidAmount
    );

    // Slippage below the ceiling is fine; above it is rejected.
    let tight = route_swap_ix(1_980_000, 2_000_000, 49, 1);
    assert!(validate_route_swap(
        &tight, 1_980_000, 1_980_000, 2_970_000, &BONK, &BONK_ATA, None, &WSOL, &WSOL_ATA,
    )
    .is_ok());
    let wide = route_swap_ix(1_980_000, 2_000_000, 51, 1);
    assert_eq!(
        validate_route_swap(
            &wide, 1_980_000, 1_980_000, 2_970_000, &BONK, &BONK_ATA, None, &WSOL, &WSOL_ATA,
        ).unwrap_err(),
        BonkPawsError::InvalidSlippage
    );

    // Empty route plan.
    let empty = route_swap_ix(1_980_000, 2_000_000, 50, 0);
    assert_eq!(
        validate_route_swap(
            &empty, 1_980_000, 1_980_000, 2_970_000, &BONK, &BONK_ATA, None, &WSOL, &WSOL_ATA,
        ).unwrap_err(),
        BonkPawsError::InvalidRoute
    );

    // Quoted output at the band's edge is rejected: the band is open.
    let low = route_swap_ix(1_980_000, 1_980_000, 50, 1);
    assert_eq!(
        validate_route_swap(
            &low, 1_980_000, 1_980_000, 2_970_000, &BONK, &BONK_ATA, None, &WSOL, &WSOL_ATA,
        ).unwrap_err(),
        BonkPawsError::InvalidSolanaAmount
    );

    // The optional authority slot is enforced when supplied.
    let authority = [2u8; 32];
    assert!(validate_route_swap(
        &good, 1_980_000, 1_980_000, 2_970_000, &BONK, &BONK_ATA, Some(&authority), &WSOL,
        &WSOL_ATA,
    )
    .is_ok());
    assert_eq!(
        validate_route_swap(
            &good, 1_980_000, 1_980_000, 2_970_000, &BONK, &BONK_ATA, Some(&[250u8; 32]), &WSOL,
            &WSOL_ATA,
        )
        .unwrap_err(),
        BonkPawsError::InvalidBonkAccount
    );
}

#[test]
fn account_metas_name_the_slots() {
    let accounts = swap_accounts();
    let metas = SharedAccountsExactOutRouteAccountMetas::try_from(&accounts).unwrap();
    assert_eq!(metas.token_program.pubkey, [0u8; 32]);
    assert_eq!(metas.source_token_account.pubkey, BONK_ATA);
    assert_eq!(metas.destination_token_account.pubkey, WSOL_ATA);
    assert_eq!(metas.source_mint.pubkey, BONK);
    assert_eq!(metas.destination_mint.pubkey, WSOL);
    // Slots 9 and 10 equal to the exchange's identity mean "absent".
    assert!(metas.platform_fee_account.is_none());
    assert!(metas.token2022_program.is_none());
    let mut with_fee = accounts.clone();
    with_fee[9] = AccountMeta { pubkey: [42u8; 32] };
    let metas = SharedAccountsExactOutRouteAccountMetas::try_from(&with_fee).unwrap();
    assert_eq!(metas.platform_fee_account.unwrap().pubkey, [42u8; 32]);

    let mut short = accounts.clone();
    short.truncate(12);
    assert!(SharedAccountsExactOutRouteAccountMetas::try_from(&short).is_err());
}
