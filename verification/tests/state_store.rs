//! Unit tests for the donation ledger, the match-record store and the
//! receipt log.

use bonk_paws::errors::BonkPawsError;
use bonk_paws::state::{DonationHistory, DonationState, MatchDonationState};
use bonk_paws::store::{DonationHistoryLog, MatchRecordStore};

fn record(seed: u64, amount: u64) -> MatchDonationState {
    MatchDonationState { id: 1, donation_amount: amount, match_key: [9u8; 32], seed }
}

#[test]
fn ledger_accumulates_donations() {
    let mut ledger = DonationState::new();
    assert_eq!(ledger.total_donated, 0);
    ledger.record_donation(2_000_000_000).unwrap();
    ledger.record_donation(5).unwrap();
    assert_eq!(ledger.total_donated, 2_000_000_005);
    assert_eq!(ledger.total_matched, 0);
    assert_eq!(ledger.total_burned, 0);
}

#[test]
fn ledger_rejects_overflow_and_stays_unchanged() {
    let mut ledger = DonationState::new();
    ledger.record_donation(u64::MAX - 1).unwrap();
    assert_eq!(ledger.record_donation(2), Err(BonkPawsError::Overflow));
    assert_eq!(ledger.total_donated, u64::MAX - 1);
    ledger.record_match(u64::MAX).unwrap();
    assert_eq!(ledger.record_match(1), Err(BonkPawsError::Overflow));
    assert_eq!(ledger.total_matched, u64::MAX);
    ledger.record_burn(7).unwrap();
    assert_eq!(ledger.record_burn(u64::MAX), Err(BonkPawsError::Overflow));
    assert_eq!(ledger.total_burned, 7);
}

#[test]
fn match_and_burn_totals_track_each_other() {
    // Each matching event adds the matched amount and the floor of its
    // hundredth; with whole multiples of 100 there is no drift.
    let mut ledger = DonationState::new();
    for amount in [100u64, 300, 10_000] {
        ledger.record_match(amount).unwrap();
        ledger.record_burn(amount / 100).unwrap();
        assert_eq!(ledger.total_burned, ledger.total_matched / 100);
    }
}

#[test]
fn store_creates_once_and_destroys_once() {
    let mut store = MatchRecordStore::new();
    assert!(!store.contains(7));
    store.create(7, record(7, 500)).unwrap();
    assert!(store.contains(7));
    assert_eq!(store.get(7).unwrap().donation_amount, 500);
    // A second creation at the same seed is refused outright.
    assert_eq!(
        store.create(7, record(7, 900)),
        Err(BonkPawsError::RecordAlreadyExists)
    );
    assert_eq!(store.get(7).unwrap().donation_amount, 500);
    // The record is consumed exactly once.
    let taken = store.take(7).unwrap();
    assert_eq!(taken.donation_amount, 500);
    assert_eq!(store.take(7), Err(BonkPawsError::RecordNotFound));
    assert!(!store.contains(7));
    // After destruction the seed can be used again.
    store.create(7, record(7, 900)).unwrap();
    assert_eq!(store.get(7).unwrap().donation_amount, 900);
}

#[test]
fn store_update_rebases_only_existing_records() {
    let mut store = MatchRecordStore::new();
    assert_eq!(
        store.update(3, record(3, 1)),
        Err(BonkPawsError::RecordNotFound)
    );
    store.create(3, record(3, 1)).unwrap();
    store.update(3, record(3, 77)).unwrap();
    assert_eq!(store.get(3).unwrap().donation_amount, 77);
}

#[test]
fn history_files_one_receipt_per_seed_and_donor() {
    let mut log = DonationHistoryLog::new();
    let donor_a = [1u8; 32];
    let donor_b = [2u8; 32];
    let entry = |donor: [u8; 32]| DonationHistory {
        donor,
        id: 4,
        donation_amount: 10,
        timestamp: 99,
    };
    log.create(7, entry(donor_a)).unwrap();
    assert_eq!(
        log.create(7, entry(donor_a)),
        Err(BonkPawsError::RecordAlreadyExists)
    );
    // A different donor may reuse the seed, and a different seed the donor.
    log.create(7, entry(donor_b)).unwrap();
    log.create(8, entry(donor_a)).unwrap();
    assert_eq!(log.len(), 3);
    assert!(log.contains(7, &donor_a));
    assert!(!log.contains(9, &donor_a));
}
