//! Tests for the earlier generation's single-transaction match and
//! finalize operations.

use bonk_paws::contexts::finalize_sol::FinalizeSolDonation;
use bonk_paws::contexts::match_sol::MatchSolDonation;
use bonk_paws::errors::BonkPawsError;
use bonk_paws::instructions::{
    finalize_discriminator, AccountMeta, Instruction, InstructionsView,
};
use bonk_paws::keys::{
    bonk_mint_id, bonk_paws_id, ed25519_program_id, jupiter_id, signing_authority_id,
    wsol_mint_id,
};
use bonk_paws::programs::{
    encode_shared_accounts_route, shared_accounts_route_discriminator, RoutePlanStep,
    SharedAccountsRoute, Swap,
};
use bonk_paws::state::{DonationState, MatchDonationState};
use bonk_paws::store::MatchRecordStore;

const AUTHORITY: [u8; 32] = [31u8; 32];
const CHARITY: [u8; 32] = [32u8; 32];
const AUTHORITY_BONK: [u8; 32] = [33u8; 32];
const AUTHORITY_WSOL: [u8; 32] = [34u8; 32];

const RECORDED_LAMPORTS: u64 = 2_000_000_000;
const BONK_DONATION: u64 = 200_000_000_000;
const MIN_OUT: u64 = RECORDED_LAMPORTS / 100 * 99;

fn charity_sig_ix(charity: [u8; 32]) -> Instruction {
    let mut data = vec![
        0x01u8, 0x00, 0x30, 0x00, 0xff, 0xff, 0x10, 0x00, 0xff, 0xff, 0x70, 0x00, 0x20, 0x00,
        0xff, 0xff,
    ];
    data.extend_from_slice(&signing_authority_id());
    while data.len() < 0x70 {
        data.push(0xaa);
    }
    data.extend_from_slice(&charity);
    Instruction { program_id: ed25519_program_id(), accounts: vec![], data }
}

fn own_ix() -> Instruction {
    Instruction { program_id: bonk_paws_id(), accounts: vec![], data: vec![] }
}

fn route_swap_ix(quoted_out: u64) -> Instruction {
    let route = SharedAccountsRoute {
        id: 0,
        route_plan: vec![RoutePlanStep {
            swap: Swap::Raydium,
            percent: 100,
            input_index: 0,
            output_index: 1,
        }],
        in_amount: BONK_DONATION / 100 * 99,
        quoted_out_amount: quoted_out,
        slippage_bps: 50,
        platform_fee_bps: 0,
    };
    let mut data = shared_accounts_route_discriminator().to_vec();
    data.extend_from_slice(&encode_shared_accounts_route(&route));
    let mut accounts: Vec<AccountMeta> =
        (0u8..13).map(|i| AccountMeta { pubkey: [i; 32] }).collect();
    accounts[2] = AccountMeta { pubkey: AUTHORITY };
    accounts[3] = AccountMeta { pubkey: AUTHORITY_BONK };
    accounts[6] = AccountMeta { pubkey: AUTHORITY_WSOL };
    accounts[7] = AccountMeta { pubkey: bonk_mint_id() };
    accounts[8] = AccountMeta { pubkey: wsol_mint_id() };
    Instruction { program_id: jupiter_id(), accounts, data }
}

fn legacy_finalize_ix(charity: [u8; 32]) -> Instruction {
    let mut accounts: Vec<AccountMeta> =
        (0u8..2).map(|i| AccountMeta { pubkey: [i; 32] }).collect();
    accounts[1] = AccountMeta { pubkey: charity };
    Instruction {
        program_id: bonk_paws_id(),
        accounts,
        data: finalize_discriminator().to_vec(),
    }
}

fn native_transfer_ix(lamports: u64, charity: [u8; 32]) -> Instruction {
    let mut data = vec![2u8, 0, 0, 0];
    data.extend_from_slice(&lamports.to_le_bytes());
    let accounts = vec![
        AccountMeta { pubkey: AUTHORITY },
        AccountMeta { pubkey: charity },
    ];
    Instruction { program_id: [0u8; 32], accounts, data }
}

fn open_record(records: &mut MatchRecordStore, seed: u64) {
    records
        .create(seed, MatchDonationState {
            id: 5,
            donation_amount: RECORDED_LAMPORTS,
            match_key: [8u8; 32],
            seed,
        })
        .unwrap();
}

fn match_sol_ctx(quoted_out: u64) -> MatchSolDonation {
    MatchSolDonation {
        authority: AUTHORITY,
        charity: CHARITY,
        bonk: bonk_mint_id(),
        authority_bonk: AUTHORITY_BONK,
        wsol: wsol_mint_id(),
        authority_wsol: AUTHORITY_WSOL,
        instructions: InstructionsView {
            instructions: vec![
                charity_sig_ix(CHARITY),
                own_ix(),
                route_swap_ix(quoted_out),
                legacy_finalize_ix(CHARITY),
            ],
            current_index: 1,
        },
    }
}

#[test]
fn legacy_match_settles_in_one_transaction() {
    let mut ledger = DonationState::new();
    let mut records = MatchRecordStore::new();
    open_record(&mut records, 5);

    let effects = match_sol_ctx(RECORDED_LAMPORTS)
        .match_sol_donation(5, BONK_DONATION, &mut ledger, &mut records)
        .unwrap();
    assert_eq!(effects.bonk_burned, 2_000_000_000);
    assert_eq!(ledger.total_donated, 200_000_000_000);
    assert_eq!(ledger.total_matched, 200_000_000_000);
    assert_eq!(ledger.total_burned, 2_000_000_000);
    assert_eq!(ledger.total_burned, ledger.total_matched / 100);
    assert!(!records.contains(5));
}

#[test]
fn legacy_match_rejects_quotes_outside_the_band() {
    let mut ledger = DonationState::new();
    let mut records = MatchRecordStore::new();
    open_record(&mut records, 5);

    // The quote must exceed 99% of the recorded donation.
    let result = match_sol_ctx(MIN_OUT)
        .match_sol_donation(5, BONK_DONATION, &mut ledger, &mut records);
    assert_eq!(result, Err(BonkPawsError::InvalidSolanaAmount));
    // And stay under one and a half times that.
    let result = match_sol_ctx(MIN_OUT + MIN_OUT / 2)
        .match_sol_donation(5, BONK_DONATION, &mut ledger, &mut records);
    assert_eq!(result, Err(BonkPawsError::InvalidSolanaAmount));
    assert!(records.contains(5));
    assert_eq!(ledger.total_donated, 0);
}

fn finalize_sol_ctx(transfer: Instruction) -> FinalizeSolDonation {
    FinalizeSolDonation {
        authority: AUTHORITY,
        charity: CHARITY,
        bonk: bonk_mint_id(),
        authority_bonk: AUTHORITY_BONK,
        authority_wsol: AUTHORITY_WSOL,
        instructions: InstructionsView {
            instructions: vec![
                charity_sig_ix(CHARITY),
                own_ix(),
                route_swap_ix(RECORDED_LAMPORTS),
                own_ix(),
                transfer,
            ],
            current_index: 1,
        },
    }
}

#[test]
fn legacy_finalize_checks_the_closing_transfer() {
    let mut ledger = DonationState::new();
    let mut records = MatchRecordStore::new();
    open_record(&mut records, 6);

    let effects = finalize_sol_ctx(native_transfer_ix(MIN_OUT, CHARITY))
        .finalize_sol_donation(6, BONK_DONATION, &mut ledger, &mut records)
        .unwrap();
    assert_eq!(effects.bonk_burned, 2_000_000_000);
    assert_eq!(ledger.total_donated, 200_000_000_000);
    assert_eq!(ledger.total_burned, 2_000_000_000);
    assert_eq!(ledger.total_matched, 0);
    assert!(!records.contains(6));
}

#[test]
fn legacy_finalize_rejects_wrong_transfers() {
    let mut ledger = DonationState::new();
    let mut records = MatchRecordStore::new();
    open_record(&mut records, 6);

    // The transfer pays one lamport short of the expected settlement.
    let result = finalize_sol_ctx(native_transfer_ix(MIN_OUT - 1, CHARITY))
        .finalize_sol_donation(6, BONK_DONATION, &mut ledger, &mut records);
    assert_eq!(result, Err(BonkPawsError::InvalidAmount));

    // The transfer pays someone other than the co-signed charity.
    let result = finalize_sol_ctx(native_transfer_ix(MIN_OUT, [55u8; 32]))
        .finalize_sol_donation(6, BONK_DONATION, &mut ledger, &mut records);
    assert_eq!(result, Err(BonkPawsError::InvalidCharityAddress));

    // The closing operation is not a native transfer.
    let mut not_transfer = native_transfer_ix(MIN_OUT, CHARITY);
    not_transfer.program_id = [1u8; 32];
    let result = finalize_sol_ctx(not_transfer)
        .finalize_sol_donation(6, BONK_DONATION, &mut ledger, &mut records);
    assert_eq!(result, Err(BonkPawsError::InvalidInstruction));

    assert!(records.contains(6));
    assert_eq!(ledger.total_donated, 0);
}
