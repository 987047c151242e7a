//! End-to-end scenarios: a matched donation settled across its two
//! transactions, and the ways the chain is rejected.

use bonk_paws::contexts::donate::DonateSol;
use bonk_paws::contexts::finalize::FinalizeDonation;
use bonk_paws::contexts::match_donation::MatchDonation;
use bonk_paws::errors::BonkPawsError;
use bonk_paws::instructions::{
    finalize_donation_discriminator, match_donation_discriminator, AccountMeta, Instruction,
    InstructionsView,
};
use bonk_paws::keys::{
    bonk_mint_id, bonk_paws_id, ed25519_program_id, jupiter_id, signing_authority_id,
    wsol_mint_id,
};
use bonk_paws::programs::{
    encode_shared_accounts_exact_out_route, shared_accounts_exact_out_route_discriminator,
    RoutePlanStep, SharedAccountsExactOutRoute, Swap,
};
use bonk_paws::state::DonationState;
use bonk_paws::store::{DonationHistoryLog, MatchRecordStore};
use bonk_paws::{donate, finalize_donation, match_donation};

const DONOR: [u8; 32] = [21u8; 32];
const CHARITY: [u8; 32] = [22u8; 32];
const MATCH_TARGET: [u8; 32] = [23u8; 32];
const SIGNER_BONK: [u8; 32] = [24u8; 32];
const SIGNER_WSOL: [u8; 32] = [25u8; 32];
const RECORD_KEY: [u8; 32] = [26u8; 32];

fn donation_sig_ix(id: u64, charity: [u8; 32], match_key: [u8; 32]) -> Instruction {
    let mut data = vec![
        0x01u8, 0x00, 0x30, 0x00, 0xff, 0xff, 0x10, 0x00, 0xff, 0xff, 0x70, 0x00, 0x48, 0x00,
        0xff, 0xff,
    ];
    data.extend_from_slice(&signing_authority_id());
    while data.len() < 0x70 {
        data.push(0xaa);
    }
    data.extend_from_slice(&id.to_le_bytes());
    data.extend_from_slice(&charity);
    data.extend_from_slice(&match_key);
    Instruction { program_id: ed25519_program_id(), accounts: vec![], data }
}

fn donate_ix() -> Instruction {
    Instruction { program_id: bonk_paws_id(), accounts: vec![], data: vec![] }
}

fn match_ix() -> Instruction {
    Instruction {
        program_id: bonk_paws_id(),
        accounts: vec![],
        data: match_donation_discriminator().to_vec(),
    }
}

fn swap_ix_with_hops(
    out_amount: u64,
    quoted_in: u64,
    slippage_bps: u16,
    hops: usize,
) -> Instruction {
    let route = SharedAccountsExactOutRoute {
        id: 0,
        route_plan: (0..hops)
            .map(|_| RoutePlanStep {
                swap: Swap::Raydium,
                percent: 100,
                input_index: 0,
                output_index: 1,
            })
            .collect(),
        out_amount,
        quoted_in_amount: quoted_in,
        slippage_bps,
        platform_fee_bps: 0,
    };
    let mut data = shared_accounts_exact_out_route_discriminator().to_vec();
    data.extend_from_slice(&encode_shared_accounts_exact_out_route(&route));
    let mut accounts: Vec<AccountMeta> =
        (0u8..13).map(|i| AccountMeta { pubkey: [i; 32] }).collect();
    accounts[3] = AccountMeta { pubkey: SIGNER_BONK };
    accounts[6] = AccountMeta { pubkey: SIGNER_WSOL };
    accounts[7] = AccountMeta { pubkey: bonk_mint_id() };
    accounts[8] = AccountMeta { pubkey: wsol_mint_id() };
    Instruction { program_id: jupiter_id(), accounts, data }
}

fn swap_ix(out_amount: u64, quoted_in: u64, slippage_bps: u16) -> Instruction {
    swap_ix_with_hops(out_amount, quoted_in, slippage_bps, 1)
}

fn finalize_ix(record_key: [u8; 32]) -> Instruction {
    let mut accounts: Vec<AccountMeta> =
        (0u8..9).map(|i| AccountMeta { pubkey: [i; 32] }).collect();
    accounts[1] = AccountMeta { pubkey: MATCH_TARGET };
    accounts[8] = AccountMeta { pubkey: record_key };
    Instruction {
        program_id: bonk_paws_id(),
        accounts,
        data: finalize_donation_discriminator().to_vec(),
    }
}

fn donate_ctx(seed_tx_id: u64) -> DonateSol {
    DonateSol {
        donor: DONOR,
        charity: CHARITY,
        match_account_provided: true,
        instructions: InstructionsView {
            instructions: vec![donation_sig_ix(seed_tx_id, CHARITY, MATCH_TARGET), donate_ix()],
            current_index: 1,
        },
    }
}

fn match_ctx(slippage_bps: u16, with_swap: bool) -> MatchDonation {
    let mut instructions = vec![match_ix()];
    if with_swap {
        instructions.push(swap_ix(2_000_000_000, 1_000_000, slippage_bps));
        instructions.push(finalize_ix(RECORD_KEY));
    }
    MatchDonation {
        signer: signing_authority_id(),
        bonk: bonk_mint_id(),
        signer_bonk: SIGNER_BONK,
        signer_bonk_amount: 0,
        wsol: wsol_mint_id(),
        signer_wsol: SIGNER_WSOL,
        bonk_vault_amount: 1_000_000,
        match_donation_state_key: RECORD_KEY,
        instructions: InstructionsView { instructions, current_index: 0 },
    }
}

fn finalize_ctx(vault_after_swap: u64) -> FinalizeDonation {
    FinalizeDonation {
        signer: signing_authority_id(),
        match_key: MATCH_TARGET,
        bonk: bonk_mint_id(),
        signer_bonk_amount: 42,
        bonk_vault_amount: vault_after_swap,
        wsol: wsol_mint_id(),
        instructions: InstructionsView {
            instructions: vec![
                match_ix(),
                swap_ix(2_000_000_000, 1_000_000, 50),
                finalize_ix(RECORD_KEY),
            ],
            current_index: 2,
        },
    }
}

#[test]
fn scenario_matched_donation_settles() {
    let mut ledger = DonationState::new();
    let mut records = MatchRecordStore::new();
    let mut history = DonationHistoryLog::new();

    // Transaction one: the co-signed donation opens the match record.
    donate(&donate_ctx(77), 7, 2_000_000_000, 1_700_000_000, &mut ledger, &mut records, &mut history)
        .unwrap();
    assert_eq!(ledger.total_donated, 2_000_000_000);
    assert_eq!(records.get(7).unwrap().donation_amount, 2_000_000_000);
    assert_eq!(records.get(7).unwrap().id, 77);
    assert_eq!(records.get(7).unwrap().match_key, MATCH_TARGET);
    assert_eq!(history.len(), 1);

    // Transaction two: match, swap and finalize settle the record.
    let effects = match_donation(&match_ctx(50, true), 7, &mut records).unwrap();
    assert_eq!(effects.bonk_to_signer, 1_005_000);
    // The record now carries the reserve's cost baseline.
    assert_eq!(records.get(7).unwrap().donation_amount, 1_000_000);

    let effects = finalize_donation(&finalize_ctx(900_000), 7, &mut ledger, &mut records).unwrap();
    assert_eq!(effects.lamports_to_beneficiary, 2_000_000_000);
    assert_eq!(effects.bonk_to_vault, 42);
    assert_eq!(effects.bonk_burned, 1_000);

    // The ledger grew by the donation and the matched amounts, the burn
    // tracks the match, and the record is gone.
    assert_eq!(ledger.total_donated, 2_000_000_000);
    assert_eq!(ledger.total_matched, 100_000);
    assert_eq!(ledger.total_burned, 1_000);
    assert_eq!(ledger.total_burned, ledger.total_matched / 100);
    assert!(!records.contains(7));
}

#[test]
fn scenario_excessive_slippage_rejected() {
    let mut ledger = DonationState::new();
    let mut records = MatchRecordStore::new();
    let mut history = DonationHistoryLog::new();
    donate(&donate_ctx(77), 7, 2_000_000_000, 0, &mut ledger, &mut records, &mut history).unwrap();

    // The swap quotes 80 bps of slippage: above the fixed ceiling.
    let result = match_donation(&match_ctx(80, true), 7, &mut records);
    assert_eq!(result, Err(BonkPawsError::InvalidSlippage));
    // No mutation persists: the record still holds the donation amount.
    assert_eq!(records.get(7).unwrap().donation_amount, 2_000_000_000);
    assert_eq!(ledger.total_matched, 0);
    assert_eq!(ledger.total_burned, 0);
}

#[test]
fn scenario_missing_swap_rejected() {
    let mut ledger = DonationState::new();
    let mut records = MatchRecordStore::new();
    let mut history = DonationHistoryLog::new();
    donate(&donate_ctx(77), 7, 2_000_000_000, 0, &mut ledger, &mut records, &mut history).unwrap();

    // No swap or finalize operation follows the match operation.
    let result = match_donation(&match_ctx(50, false), 7, &mut records);
    assert_eq!(result, Err(BonkPawsError::MissingSwapIx));
    assert_eq!(records.get(7).unwrap().donation_amount, 2_000_000_000);
}

#[test]
fn scenario_seed_reuse_rejected() {
    let mut ledger = DonationState::new();
    let mut records = MatchRecordStore::new();
    let mut history = DonationHistoryLog::new();
    donate(&donate_ctx(77), 7, 2_000_000_000, 0, &mut ledger, &mut records, &mut history).unwrap();

    // A second donation reuses seed 7 (another donor, hence a fresh
    // receipt): the creation attempt fails outright.
    let mut second = donate_ctx(78);
    second.donor = [99u8; 32];
    let result = donate(&second, 7, 3_000_000_000, 0, &mut ledger, &mut records, &mut history);
    assert_eq!(result, Err(BonkPawsError::RecordAlreadyExists));
    // The first record remains valid, and nothing else moved.
    assert_eq!(records.get(7).unwrap().donation_amount, 2_000_000_000);
    assert_eq!(ledger.total_donated, 2_000_000_000);
    assert_eq!(history.len(), 1);
}

#[test]
fn scenario_finalize_without_record_rejected() {
    let mut ledger = DonationState::new();
    let mut records = MatchRecordStore::new();
    let result = finalize_donation(&finalize_ctx(900_000), 7, &mut ledger, &mut records);
    assert_eq!(result, Err(BonkPawsError::RecordNotFound));
    assert_eq!(ledger.total_matched, 0);
}

#[test]
fn donate_rejections() {
    let mut ledger = DonationState::new();
    let mut records = MatchRecordStore::new();
    let mut history = DonationHistoryLog::new();

    // The minimum matching threshold is zero, so every donation clears
    // it and must bring the optional match-record account.
    let mut no_record = donate_ctx(77);
    no_record.match_account_provided = false;
    assert_eq!(
        donate(&no_record, 7, 5, 0, &mut ledger, &mut records, &mut history),
        Err(BonkPawsError::NotMatchingDonation)
    );

    // No preceding operation exists.
    let mut first_in_tx = donate_ctx(77);
    first_in_tx.instructions.current_index = 0;
    assert_eq!(
        donate(&first_in_tx, 7, 5, 0, &mut ledger, &mut records, &mut history),
        Err(BonkPawsError::InvalidInstructionIndex)
    );

    // The current operation is addressed to another program: a nested
    // call.
    let mut nested = donate_ctx(77);
    nested.instructions.instructions[1].program_id = [55u8; 32];
    assert_eq!(
        donate(&nested, 7, 5, 0, &mut ledger, &mut records, &mut history),
        Err(BonkPawsError::ProgramMismatch)
    );

    // The charity account differs from the co-signed address.
    let mut wrong_charity = donate_ctx(77);
    wrong_charity.charity = [55u8; 32];
    assert_eq!(
        donate(&wrong_charity, 7, 5, 0, &mut ledger, &mut records, &mut history),
        Err(BonkPawsError::InvalidCharityAddress)
    );

    // A zero match target is inconsistent with a match record.
    let zero_target = DonateSol {
        instructions: InstructionsView {
            instructions: vec![donation_sig_ix(77, CHARITY, [0u8; 32]), donate_ix()],
            current_index: 1,
        },
        ..donate_ctx(77)
    };
    assert_eq!(
        donate(&zero_target, 7, 5, 0, &mut ledger, &mut records, &mut history),
        Err(BonkPawsError::InvalidMatchKey)
    );

    // Nothing was recorded by any of the rejected attempts.
    assert_eq!(ledger.total_donated, 0);
    assert!(!records.contains(7));
    assert_eq!(history.len(), 0);
}

#[test]
fn finalize_chain_rejections() {
    let mut ledger = DonationState::new();
    let mut records = MatchRecordStore::new();
    let mut history = DonationHistoryLog::new();
    donate(&donate_ctx(77), 7, 2_000_000_000, 0, &mut ledger, &mut records, &mut history).unwrap();
    match_donation(&match_ctx(50, true), 7, &mut records).unwrap();

    // The finalize operation sits too early in its transaction.
    let mut too_early = finalize_ctx(900_000);
    too_early.instructions.current_index = 1;
    assert_eq!(
        finalize_donation(&too_early, 7, &mut ledger, &mut records),
        Err(BonkPawsError::InvalidInstructionIndex)
    );

    // The operation two places back is not this protocol's match call.
    let mut wrong_match = finalize_ctx(900_000);
    wrong_match.instructions.instructions[0].data = vec![0u8; 8];
    assert_eq!(
        finalize_donation(&wrong_match, 7, &mut ledger, &mut records),
        Err(BonkPawsError::InvalidInstruction)
    );

    // The beneficiary differs from the record's match target.
    let mut wrong_beneficiary = finalize_ctx(900_000);
    wrong_beneficiary.match_key = [55u8; 32];
    assert_eq!(
        finalize_donation(&wrong_beneficiary, 7, &mut ledger, &mut records),
        Err(BonkPawsError::InvalidMatchKey)
    );

    // The reserve gained tokens since the match: the subtraction would
    // wrap.
    let grown_vault = finalize_ctx(1_000_001);
    assert_eq!(
        finalize_donation(&grown_vault, 7, &mut ledger, &mut records),
        Err(BonkPawsError::Overflow)
    );

    // No rejected attempt moved the ledger or consumed the record.
    assert_eq!(ledger.total_matched, 0);
    assert!(records.contains(7));

    // The intact chain still settles.
    finalize_donation(&finalize_ctx(900_000), 7, &mut ledger, &mut records).unwrap();
    assert!(!records.contains(7));
}

#[test]
fn match_chain_rejections() {
    let mut ledger = DonationState::new();
    let mut records = MatchRecordStore::new();
    let mut history = DonationHistoryLog::new();
    donate(&donate_ctx(77), 7, 2_000_000_000, 0, &mut ledger, &mut records, &mut history).unwrap();

    // A swap follows, but no finalize operation after it.
    let mut no_finalize = match_ctx(50, true);
    no_finalize.instructions.instructions.truncate(2);
    assert_eq!(
        match_donation(&no_finalize, 7, &mut records).unwrap_err(),
        BonkPawsError::MissingFinalizeIx
    );

    // The caller is not the trusted signing authority.
    let mut wrong_signer = match_ctx(50, true);
    wrong_signer.signer = [55u8; 32];
    assert_eq!(
        match_donation(&wrong_signer, 7, &mut records).unwrap_err(),
        BonkPawsError::SignatureAuthorityMismatch
    );

    // The swap's route plan has no hops.
    let mut empty_route = match_ctx(50, true);
    empty_route.instructions.instructions[1] = swap_ix_with_hops(2_000_000_000, 1_000_000, 50, 0);
    assert_eq!(
        match_donation(&empty_route, 7, &mut records).unwrap_err(),
        BonkPawsError::InvalidRoute
    );

    // The finalize operation names some other record account.
    let mut wrong_record = match_ctx(50, true);
    wrong_record.instructions.instructions[2] = finalize_ix([55u8; 32]);
    assert_eq!(
        match_donation(&wrong_record, 7, &mut records).unwrap_err(),
        BonkPawsError::InvalidMatchKey
    );

    // No record was ever opened at this seed.
    assert_eq!(
        match_donation(&match_ctx(50, true), 8, &mut records).unwrap_err(),
        BonkPawsError::RecordNotFound
    );

    // The record is untouched by the rejected attempts.
    assert_eq!(records.get(7).unwrap().donation_amount, 2_000_000_000);
}

#[test]
fn finalize_too_late_in_transaction_rejected() {
    let mut ledger = DonationState::new();
    let mut records = MatchRecordStore::new();
    let mut history = DonationHistoryLog::new();
    donate(&donate_ctx(77), 7, 2_000_000_000, 0, &mut ledger, &mut records, &mut history).unwrap();
    match_donation(&match_ctx(50, true), 7, &mut records).unwrap();

    // The finalize operation claims a position past its transaction's
    // end, so no match operation can sit two places before it.
    let mut beyond = finalize_ctx(900_000);
    beyond.instructions.current_index = 5;
    assert_eq!(
        finalize_donation(&beyond, 7, &mut ledger, &mut records).unwrap_err(),
        BonkPawsError::MissingDonateIx
    );
}

#[test]
fn seed_stays_burned_for_a_donor_after_settlement() {
    let mut ledger = DonationState::new();
    let mut records = MatchRecordStore::new();
    let mut history = DonationHistoryLog::new();
    donate(&donate_ctx(77), 7, 2_000_000_000, 0, &mut ledger, &mut records, &mut history).unwrap();
    match_donation(&match_ctx(50, true), 7, &mut records).unwrap();
    finalize_donation(&finalize_ctx(900_000), 7, &mut ledger, &mut records).unwrap();
    assert!(!records.contains(7));

    // The match record is gone, but the donor's receipt for seed 7
    // remains: the same donor cannot file a second receipt under it.
    assert_eq!(
        donate(&donate_ctx(78), 7, 1_000, 0, &mut ledger, &mut records, &mut history).unwrap_err(),
        BonkPawsError::RecordAlreadyExists
    );
    assert_eq!(history.len(), 1);
}
