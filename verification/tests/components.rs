use save_gable::amount::Amount;
use save_gable::errors::PoolError;
use save_gable::ledger::{ReceiptData, ReceiptLedger};
use save_gable::registry::ClaimRegistry;
use save_gable::stage::{StageController, STAGE_DEPOSIT, STAGE_PROCESSING, STAGE_REDEMPTION};
use scrypto::prelude::NonFungibleLocalId;

fn id(n: u64) -> NonFungibleLocalId {
    NonFungibleLocalId::integer(n)
}

fn record(units: u64, claim: u64, position: usize) -> ReceiptData {
    ReceiptData {
        contributed_amount: Amount::from_units(units),
        claim_identifier: id(claim),
        registry_position: position,
        used: false,
    }
}

#[test]
fn stage_starts_at_zero() {
    let stage = StageController::new();
    assert_eq!(stage.current_stage(), 0);
    assert_eq!(STAGE_DEPOSIT, 0);
    assert_eq!(STAGE_PROCESSING, 1);
    assert_eq!(STAGE_REDEMPTION, 2);
}

#[test]
fn stage_moves_zero_one_two() {
    let mut stage = StageController::new();
    assert_eq!(stage.advance_to_processing(), Ok(()));
    assert_eq!(stage.current_stage(), 1);
    assert_eq!(stage.finalize(), Ok(()));
    assert_eq!(stage.current_stage(), 2);
}

#[test]
fn stage_advance_works_only_once() {
    let mut stage = StageController::new();
    assert_eq!(stage.advance_to_processing(), Ok(()));
    assert_eq!(stage.advance_to_processing(), Err(PoolError::WrongStage));
    assert_eq!(stage.current_stage(), 1);
    assert_eq!(stage.finalize(), Ok(()));
    assert_eq!(stage.advance_to_processing(), Err(PoolError::WrongStage));
    assert_eq!(stage.current_stage(), 2);
}

#[test]
fn stage_cannot_skip_processing() {
    let mut stage = StageController::new();
    assert_eq!(stage.finalize(), Err(PoolError::WrongStage));
    assert_eq!(stage.current_stage(), 0);
}

#[test]
fn stage_finalize_works_only_once() {
    let mut stage = StageController::new();
    assert_eq!(stage.advance_to_processing(), Ok(()));
    assert_eq!(stage.finalize(), Ok(()));
    assert_eq!(stage.finalize(), Err(PoolError::WrongStage));
    assert_eq!(stage.current_stage(), 2);
}

#[test]
fn registry_registers_at_the_end() {
    let mut registry = ClaimRegistry::new();
    assert_eq!(registry.len(), 0);
    assert_eq!(registry.register(id(10)), 0);
    assert_eq!(registry.register(id(11)), 1);
    assert_eq!(registry.register(id(12)), 2);
    assert_eq!(registry.len(), 3);
    assert_eq!(registry.get(0), Some(&id(10)));
    assert_eq!(registry.get(1), Some(&id(11)));
    assert_eq!(registry.get(2), Some(&id(12)));
    assert_eq!(registry.get(3), None);
}

#[test]
fn registry_unregister_from_the_middle_moves_the_last_entry() {
    let mut registry = ClaimRegistry::new();
    registry.register(id(10));
    registry.register(id(11));
    registry.register(id(12));
    registry.register(id(13));
    assert_eq!(registry.unregister(1), Ok((id(11), Some((id(13), 1)))));
    assert_eq!(registry.len(), 3);
    assert_eq!(registry.get(0), Some(&id(10)));
    assert_eq!(registry.get(1), Some(&id(13)));
    assert_eq!(registry.get(2), Some(&id(12)));
    assert_eq!(registry.get(3), None);
}

#[test]
fn registry_unregister_of_the_last_entry_moves_nothing() {
    let mut registry = ClaimRegistry::new();
    registry.register(id(10));
    registry.register(id(11));
    assert_eq!(registry.unregister(1), Ok((id(11), None)));
    assert_eq!(registry.len(), 1);
    assert_eq!(registry.get(0), Some(&id(10)));
    assert_eq!(registry.unregister(0), Ok((id(10), None)));
    assert_eq!(registry.len(), 0);
}

#[test]
fn registry_unregister_of_an_empty_position_is_not_found() {
    let mut registry = ClaimRegistry::new();
    assert_eq!(registry.unregister(0), Err(PoolError::NotFound));
    registry.register(id(10));
    assert_eq!(registry.unregister(1), Err(PoolError::NotFound));
    assert_eq!(registry.unregister(usize::MAX), Err(PoolError::NotFound));
    assert_eq!(registry.len(), 1);
    assert_eq!(registry.get(0), Some(&id(10)));
}

#[test]
fn registry_next_for_processing_reads_at_the_cursor() {
    let mut registry = ClaimRegistry::new();
    registry.register(id(10));
    registry.register(id(11));
    assert_eq!(registry.next_for_processing(0), Ok(id(10)));
    assert_eq!(registry.next_for_processing(1), Ok(id(11)));
    assert_eq!(registry.next_for_processing(2), Err(PoolError::OutOfRange));
    assert_eq!(registry.len(), 2);
}

#[test]
fn ledger_mints_numbers_in_sequence() {
    let mut ledger = ReceiptLedger::new();
    assert_eq!(ledger.issued(), 0);
    assert_eq!(ledger.mint(record(100, 7, 0)), 0);
    assert_eq!(ledger.mint(record(300, 8, 1)), 1);
    assert_eq!(ledger.issued(), 2);
    assert_eq!(ledger.read(0), Some(&record(100, 7, 0)));
    assert_eq!(ledger.read(1), Some(&record(300, 8, 1)));
    assert_eq!(ledger.read(2), None);
}

#[test]
fn ledger_updates_the_position_of_a_live_receipt() {
    let mut ledger = ReceiptLedger::new();
    ledger.mint(record(100, 7, 0));
    ledger.mint(record(300, 8, 1));
    assert!(ledger.set_position(1, 0));
    assert_eq!(ledger.read(1), Some(&record(300, 8, 0)));
    assert_eq!(ledger.read(0), Some(&record(100, 7, 0)));
    assert!(!ledger.set_position(2, 0));
    assert_eq!(ledger.issued(), 2);
}

#[test]
fn ledger_marks_a_live_receipt_used() {
    let mut ledger = ReceiptLedger::new();
    ledger.mint(record(100, 7, 0));
    assert!(ledger.mark_used(0));
    let mut expected = record(100, 7, 0);
    expected.used = true;
    assert_eq!(ledger.read(0), Some(&expected));
    assert!(!ledger.mark_used(1));
}

#[test]
fn ledger_burn_destroys_for_good() {
    let mut ledger = ReceiptLedger::new();
    ledger.mint(record(100, 7, 0));
    ledger.mint(record(300, 8, 1));
    assert_eq!(ledger.burn(0), Some(record(100, 7, 0)));
    assert_eq!(ledger.read(0), None);
    assert_eq!(ledger.burn(0), None);
    assert!(!ledger.set_position(0, 5));
    assert!(!ledger.mark_used(0));
    assert_eq!(ledger.read(0), None);
    assert_eq!(ledger.read(1), Some(&record(300, 8, 1)));
    assert_eq!(ledger.issued(), 2);
    assert_eq!(ledger.mint(record(1, 9, 1)), 2);
    assert_eq!(ledger.burn(5), None);
}
