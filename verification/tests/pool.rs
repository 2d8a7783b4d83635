use save_gable::amount::Amount;
use save_gable::assets::{Claim, Receipt, Relocation, Withdrawal};
use save_gable::errors::PoolError;
use save_gable::gabling::Gabling;
use save_gable::ledger::ReceiptData;
use scrypto::prelude::{
    Decimal, NonFungibleLocalId, ResourceAddress, ACCOUNT_OWNER_BADGE, I192, PACKAGE_OWNER_BADGE,
    XRD,
};

const CLAIMS: ResourceAddress = PACKAGE_OWNER_BADGE;
const RECEIPTS: ResourceAddress = ACCOUNT_OWNER_BADGE;

fn id(n: u64) -> NonFungibleLocalId {
    NonFungibleLocalId::integer(n)
}

fn claim(n: u64, units: u64) -> Claim {
    Claim { kind: CLAIMS, id: id(n), amount: Amount::from_units(units) }
}

fn receipt(n: u64) -> Receipt {
    Receipt { kind: RECEIPTS, id: n }
}

fn limbs_of(value: Decimal) -> Amount {
    let digits = value.attos().to_digits();
    Amount { lo: digits[0], mid: digits[1], hi: digits[2] }
}

fn decimal_of(value: Amount) -> Decimal {
    Decimal::from_attos(I192::from_digits([value.lo, value.mid, value.hi]))
}

fn fresh() -> Gabling {
    Gabling::instantiate(CLAIMS, RECEIPTS)
}

/// A pool in the redemption stage in which each of `contributions` was
/// deposited and processed, the exchange having returned `earnings` and
/// `lsus` in total.
fn redeemable(contributions: &[u64], earnings: u64, lsus: u64) -> Gabling {
    let mut pool = fresh();
    for (n, units) in contributions.iter().enumerate() {
        assert_eq!(pool.insert_proof(claim(100 + n as u64, *units)), Ok(receipt(n as u64)));
    }
    assert_eq!(pool.start_saving(), Ok(()));
    for n in 0..contributions.len() {
        let (e, l) = if n == 0 { (earnings, lsus) } else { (0, 0) };
        assert_eq!(
            pool.save_next(Amount::from_units(e), Amount::from_units(l)),
            Ok(id(100 + n as u64))
        );
    }
    assert_eq!(pool.finish_saving(), Ok(()));
    pool
}

#[test]
fn fresh_pool_is_empty_and_in_stage_zero() {
    let pool = fresh();
    assert_eq!(pool.process_stage(), 0);
    assert_eq!(pool.accepted_kind(), CLAIMS);
    assert_eq!(pool.receipt_kind(), RECEIPTS);
    assert_eq!(pool.supply_proofs_amount(), Amount::zero());
    assert_eq!(pool.supply_proofs_counter(), 0);
    assert_eq!(pool.saving_counter(), 0);
    assert_eq!(pool.kvs_entries(), 0);
    assert_eq!(pool.earnings(), Amount::zero());
    assert_eq!(pool.lsus(), Amount::zero());
    assert_eq!(pool.final_earnings(), Amount::zero());
    assert_eq!(pool.final_lsus(), Amount::zero());
    assert_eq!(pool.registered_claim(0), None);
    assert_eq!(pool.receipt_data(0), None);
}

#[test]
fn deposit_withdraw_process_and_redeem() {
    let mut pool = fresh();
    let a = pool.insert_proof(claim(1, 100)).unwrap();
    let b = pool.insert_proof(claim(2, 300)).unwrap();
    assert_eq!(pool.supply_proofs_amount(), Amount::from_units(400));

    let withdrawn = pool.withdraw_proof(a).unwrap();
    assert_eq!(withdrawn.claim, claim(1, 100));
    assert_eq!(pool.supply_proofs_amount(), Amount::from_units(300));
    assert_eq!(pool.kvs_entries(), 1);
    assert_eq!(pool.registered_claim(0), Some(&id(2)));
    assert_eq!(pool.registered_claim(1), None);

    assert_eq!(pool.start_saving(), Ok(()));
    assert_eq!(pool.pending_claim(), Ok(id(2)));
    assert_eq!(pool.save_next(Amount::from_units(50), Amount::from_units(10)), Ok(id(2)));
    assert_eq!(pool.finish_saving(), Ok(()));
    assert_eq!(pool.final_earnings(), Amount::from_units(50));
    assert_eq!(pool.final_lsus(), Amount::from_units(10));

    assert_eq!(pool.retrieve_reward(b), Ok((Amount::from_units(10), Amount::from_units(50))));
}

#[test]
fn deposit_after_processing_started_is_wrong_stage() {
    let mut pool = fresh();
    assert_eq!(pool.start_saving(), Ok(()));
    assert_eq!(pool.insert_proof(claim(1, 100)), Err(PoolError::WrongStage));
    assert_eq!(pool.kvs_entries(), 0);
    assert_eq!(pool.supply_proofs_amount(), Amount::zero());
    assert_eq!(pool.supply_proofs_counter(), 0);
}

#[test]
fn redeem_during_processing_is_wrong_stage() {
    let mut pool = fresh();
    let a = pool.insert_proof(claim(1, 100)).unwrap();
    assert_eq!(pool.start_saving(), Ok(()));
    assert_eq!(pool.process_stage(), 1);
    assert_eq!(pool.retrieve_reward(a), Err(PoolError::WrongStage));
    assert_eq!(pool.receipt_data(0).map(|data| data.used), Some(false));
}

#[test]
fn deposit_mints_a_receipt_with_the_registry_position() {
    let mut pool = fresh();
    assert_eq!(pool.insert_proof(claim(7, 100)), Ok(receipt(0)));
    assert_eq!(pool.insert_proof(claim(8, 300)), Ok(receipt(1)));
    assert_eq!(pool.supply_proofs_counter(), 2);
    assert_eq!(pool.kvs_entries(), 2);
    assert_eq!(pool.saving_counter(), 0);
    assert_eq!(
        pool.receipt_data(0),
        Some(&ReceiptData {
            contributed_amount: Amount::from_units(100),
            claim_identifier: id(7),
            registry_position: 0,
            used: false,
        })
    );
    assert_eq!(
        pool.receipt_data(1),
        Some(&ReceiptData {
            contributed_amount: Amount::from_units(300),
            claim_identifier: id(8),
            registry_position: 1,
            used: false,
        })
    );
    assert_eq!(pool.registered_claim(0), Some(&id(7)));
    assert_eq!(pool.registered_claim(1), Some(&id(8)));
}

#[test]
fn deposit_of_another_kind_is_invalid_claim_kind() {
    let mut pool = fresh();
    let foreign = Claim { kind: XRD, id: id(1), amount: Amount::from_units(100) };
    assert_eq!(pool.insert_proof(foreign), Err(PoolError::InvalidClaimKind));
    let receipt_as_claim = Claim { kind: RECEIPTS, id: id(1), amount: Amount::from_units(100) };
    assert_eq!(pool.insert_proof(receipt_as_claim), Err(PoolError::InvalidClaimKind));
    assert_eq!(pool.kvs_entries(), 0);
    assert_eq!(pool.supply_proofs_counter(), 0);
    assert_eq!(pool.supply_proofs_amount(), Amount::zero());
}

#[test]
fn deposit_that_overflows_the_supply_is_rejected() {
    let mut pool = fresh();
    let largest = Claim { kind: CLAIMS, id: id(1), amount: limbs_of(Decimal::MAX) };
    assert_eq!(pool.insert_proof(largest), Ok(receipt(0)));
    let one_atto = Claim { kind: CLAIMS, id: id(2), amount: Amount::from_attos(1) };
    assert_eq!(pool.insert_proof(one_atto), Err(PoolError::Overflow));
    assert_eq!(pool.supply_proofs_amount(), limbs_of(Decimal::MAX));
    assert_eq!(pool.kvs_entries(), 1);
    assert_eq!(pool.supply_proofs_counter(), 1);
}

#[test]
fn supply_is_the_sum_of_live_contributions() {
    let mut pool = fresh();
    let units = [5u64, 17, 0, 250, 1];
    let mut receipts = Vec::new();
    for (n, u) in units.iter().enumerate() {
        receipts.push(pool.insert_proof(claim(n as u64, *u)).unwrap());
    }
    assert_eq!(pool.supply_proofs_amount(), Amount::from_units(273));
    pool.withdraw_proof(receipts[3]).unwrap();
    assert_eq!(pool.supply_proofs_amount(), Amount::from_units(23));
    pool.withdraw_proof(receipts[0]).unwrap();
    assert_eq!(pool.supply_proofs_amount(), Amount::from_units(18));
    pool.insert_proof(claim(9, 2)).unwrap();
    assert_eq!(pool.supply_proofs_amount(), Amount::from_units(20));
    let mut sum = Decimal::ZERO;
    for n in 0..pool.supply_proofs_counter() {
        if let Some(data) = pool.receipt_data(n) {
            sum = sum + decimal_of(data.contributed_amount);
        }
    }
    assert_eq!(limbs_of(sum), pool.supply_proofs_amount());
}

#[test]
fn supply_adds_fractions_and_negative_amounts_as_decimal_does() {
    let mut pool = fresh();
    let half = Decimal::try_from("0.5").unwrap();
    let debt = Decimal::try_from("-2.25").unwrap();
    pool.insert_proof(Claim { kind: CLAIMS, id: id(1), amount: limbs_of(half) }).unwrap();
    pool.insert_proof(Claim { kind: CLAIMS, id: id(2), amount: limbs_of(debt) }).unwrap();
    assert_eq!(pool.supply_proofs_amount(), limbs_of(Decimal::try_from("-1.75").unwrap()));
    assert!(pool.supply_proofs_amount().is_negative());
    pool.withdraw_proof(receipt(1)).unwrap();
    assert_eq!(pool.supply_proofs_amount(), limbs_of(half));
}

#[test]
fn withdrawal_from_the_middle_corrects_the_moved_receipt() {
    let mut pool = fresh();
    for n in 0..4u64 {
        pool.insert_proof(claim(10 + n, n + 1)).unwrap();
    }
    let outcome = pool.withdraw_proof(receipt(1)).unwrap();
    assert_eq!(
        outcome,
        Withdrawal {
            claim: claim(11, 2),
            relocated: Some(Relocation { receipt: 3, claim_identifier: id(13), position: 1 }),
        }
    );
    assert_eq!(pool.kvs_entries(), 3);
    assert_eq!(pool.registered_claim(0), Some(&id(10)));
    assert_eq!(pool.registered_claim(1), Some(&id(13)));
    assert_eq!(pool.registered_claim(2), Some(&id(12)));
    assert_eq!(pool.registered_claim(3), None);
    assert_eq!(pool.receipt_data(1), None);
    assert_eq!(pool.receipt_data(3).map(|data| data.registry_position), Some(1));
    for n in 0..pool.supply_proofs_counter() {
        if let Some(data) = pool.receipt_data(n) {
            assert_eq!(pool.registered_claim(data.registry_position), Some(&data.claim_identifier));
        }
    }
    // The moved claim can itself be withdrawn afterwards.
    let second = pool.withdraw_proof(receipt(3)).unwrap();
    assert_eq!(
        second,
        Withdrawal {
            claim: claim(13, 4),
            relocated: Some(Relocation { receipt: 2, claim_identifier: id(12), position: 1 }),
        }
    );
    assert_eq!(pool.registered_claim(1), Some(&id(12)));
    assert_eq!(pool.receipt_data(2).map(|data| data.registry_position), Some(1));
    assert_eq!(pool.kvs_entries(), 2);
}

#[test]
fn withdrawal_of_the_last_position_moves_nothing() {
    let mut pool = fresh();
    pool.insert_proof(claim(10, 1)).unwrap();
    pool.insert_proof(claim(11, 2)).unwrap();
    let outcome = pool.withdraw_proof(receipt(1)).unwrap();
    assert_eq!(outcome, Withdrawal { claim: claim(11, 2), relocated: None });
    assert_eq!(pool.kvs_entries(), 1);
    assert_eq!(pool.receipt_data(0).map(|data| data.registry_position), Some(0));
    let only = pool.withdraw_proof(receipt(0)).unwrap();
    assert_eq!(only, Withdrawal { claim: claim(10, 1), relocated: None });
    assert_eq!(pool.kvs_entries(), 0);
    assert_eq!(pool.supply_proofs_amount(), Amount::zero());
}

#[test]
fn withdrawal_with_a_bad_receipt_is_invalid_receipt() {
    let mut pool = fresh();
    pool.insert_proof(claim(10, 1)).unwrap();
    assert_eq!(
        pool.withdraw_proof(Receipt { kind: CLAIMS, id: 0 }),
        Err(PoolError::InvalidReceipt)
    );
    assert_eq!(pool.withdraw_proof(receipt(1)), Err(PoolError::InvalidReceipt));
    assert_eq!(pool.withdraw_proof(receipt(u64::MAX)), Err(PoolError::InvalidReceipt));
    assert_eq!(pool.kvs_entries(), 1);
    assert!(pool.withdraw_proof(receipt(0)).is_ok());
    assert_eq!(pool.withdraw_proof(receipt(0)), Err(PoolError::InvalidReceipt));
}

#[test]
fn withdrawal_that_overflows_the_supply_is_rejected() {
    let mut pool = fresh();
    let lowest = Claim { kind: CLAIMS, id: id(1), amount: limbs_of(Decimal::MIN) };
    let one = Claim { kind: CLAIMS, id: id(2), amount: Amount::from_attos(1) };
    pool.insert_proof(one).unwrap();
    pool.insert_proof(lowest).unwrap();
    // The supply stands at MIN + 1 atto; taking the single atto off is fine,
    // taking MIN off a negative supply is fine too, but after a further
    // deposit of MAX the supply is zero and MIN cannot be subtracted from it.
    pool.insert_proof(Claim { kind: CLAIMS, id: id(3), amount: limbs_of(Decimal::MAX) }).unwrap();
    assert_eq!(pool.supply_proofs_amount(), Amount::zero());
    assert_eq!(pool.withdraw_proof(receipt(1)), Err(PoolError::Overflow));
    assert_eq!(pool.kvs_entries(), 3);
    assert_eq!(pool.receipt_data(1).map(|data| data.registry_position), Some(1));
    assert_eq!(pool.supply_proofs_amount(), Amount::zero());
}

#[test]
fn stage_gates_every_operation() {
    let mut pool = fresh();
    let a = pool.insert_proof(claim(1, 100)).unwrap();

    // Stage 0: processing, finishing and redeeming are closed.
    assert_eq!(pool.pending_claim(), Err(PoolError::WrongStage));
    assert_eq!(
        pool.save_next(Amount::from_units(1), Amount::from_units(1)),
        Err(PoolError::WrongStage)
    );
    assert_eq!(pool.finish_saving(), Err(PoolError::WrongStage));
    assert_eq!(pool.retrieve_reward(a), Err(PoolError::WrongStage));
    assert_eq!(pool.process_stage(), 0);
    assert_eq!(pool.saving_counter(), 0);
    assert_eq!(pool.earnings(), Amount::zero());

    // Stage 1: depositing, withdrawing, starting and redeeming are closed.
    assert_eq!(pool.start_saving(), Ok(()));
    assert_eq!(pool.insert_proof(claim(2, 5)), Err(PoolError::WrongStage));
    assert_eq!(pool.withdraw_proof(a), Err(PoolError::WrongStage));
    assert_eq!(pool.start_saving(), Err(PoolError::WrongStage));
    assert_eq!(pool.retrieve_reward(a), Err(PoolError::WrongStage));
    assert_eq!(pool.process_stage(), 1);
    assert_eq!(pool.kvs_entries(), 1);
    assert_eq!(pool.supply_proofs_amount(), Amount::from_units(100));

    // Stage 2: everything but redeeming is closed.
    assert_eq!(pool.finish_saving(), Ok(()));
    assert_eq!(pool.insert_proof(claim(2, 5)), Err(PoolError::WrongStage));
    assert_eq!(pool.withdraw_proof(a), Err(PoolError::WrongStage));
    assert_eq!(pool.start_saving(), Err(PoolError::WrongStage));
    assert_eq!(pool.pending_claim(), Err(PoolError::WrongStage));
    assert_eq!(
        pool.save_next(Amount::from_units(1), Amount::from_units(1)),
        Err(PoolError::WrongStage)
    );
    assert_eq!(pool.finish_saving(), Err(PoolError::WrongStage));
    assert_eq!(pool.process_stage(), 2);
    assert_eq!(pool.kvs_entries(), 1);
    assert_eq!(pool.supply_proofs_amount(), Amount::from_units(100));
    assert_eq!(pool.receipt_data(0).map(|data| data.registry_position), Some(0));
}

#[test]
fn processing_takes_each_claim_once_in_registry_order() {
    let mut pool = fresh();
    for n in 0..3u64 {
        pool.insert_proof(claim(20 + n, 10)).unwrap();
    }
    assert_eq!(pool.start_saving(), Ok(()));
    for n in 0..3u64 {
        assert_eq!(pool.saving_counter(), n as usize);
        assert_eq!(pool.pending_claim(), Ok(id(20 + n)));
        assert_eq!(
            pool.save_next(Amount::from_units(n), Amount::from_units(2 * n)),
            Ok(id(20 + n))
        );
    }
    assert_eq!(pool.saving_counter(), 3);
    assert_eq!(pool.earnings(), Amount::from_units(3));
    assert_eq!(pool.lsus(), Amount::from_units(6));
    assert_eq!(pool.pending_claim(), Err(PoolError::OutOfRange));
    assert_eq!(
        pool.save_next(Amount::from_units(1), Amount::from_units(1)),
        Err(PoolError::OutOfRange)
    );
    assert_eq!(pool.saving_counter(), 3);
    assert_eq!(pool.earnings(), Amount::from_units(3));
    assert_eq!(pool.lsus(), Amount::from_units(6));
    assert_eq!(pool.kvs_entries(), 3);
}

#[test]
fn processing_an_empty_registry_is_out_of_range() {
    let mut pool = fresh();
    assert_eq!(pool.start_saving(), Ok(()));
    assert_eq!(pool.pending_claim(), Err(PoolError::OutOfRange));
    assert_eq!(
        pool.save_next(Amount::from_units(1), Amount::from_units(1)),
        Err(PoolError::OutOfRange)
    );
}

#[test]
fn processing_that_overflows_a_pool_is_rejected() {
    let mut pool = fresh();
    pool.insert_proof(claim(1, 1)).unwrap();
    pool.insert_proof(claim(2, 1)).unwrap();
    assert_eq!(pool.start_saving(), Ok(()));
    assert_eq!(pool.save_next(limbs_of(Decimal::MAX), Amount::zero()), Ok(id(1)));
    assert_eq!(
        pool.save_next(Amount::from_attos(1), Amount::from_units(4)),
        Err(PoolError::Overflow)
    );
    assert_eq!(pool.saving_counter(), 1);
    assert_eq!(pool.earnings(), limbs_of(Decimal::MAX));
    assert_eq!(pool.lsus(), Amount::zero());
    assert_eq!(pool.save_next(Amount::zero(), Amount::from_units(4)), Ok(id(2)));
    assert_eq!(pool.lsus(), Amount::from_units(4));
}

#[test]
fn finishing_snapshots_the_pools() {
    let mut pool = fresh();
    pool.insert_proof(claim(1, 1)).unwrap();
    assert_eq!(pool.start_saving(), Ok(()));
    assert_eq!(pool.final_earnings(), Amount::zero());
    pool.save_next(Amount::from_units(50), Amount::from_units(10)).unwrap();
    assert_eq!(pool.final_earnings(), Amount::zero());
    assert_eq!(pool.final_lsus(), Amount::zero());
    assert_eq!(pool.finish_saving(), Ok(()));
    assert_eq!(pool.final_earnings(), Amount::from_units(50));
    assert_eq!(pool.final_lsus(), Amount::from_units(10));
    assert_eq!(pool.earnings(), Amount::from_units(50));
    assert_eq!(pool.lsus(), Amount::from_units(10));
}

#[test]
fn redemption_pays_in_proportion() {
    let mut pool = redeemable(&[100, 300], 50, 10);
    assert_eq!(
        pool.retrieve_reward(receipt(0)),
        Ok((limbs_of(Decimal::try_from("2.5").unwrap()), limbs_of(Decimal::try_from("12.5").unwrap())))
    );
    assert_eq!(pool.lsus(), limbs_of(Decimal::try_from("7.5").unwrap()));
    assert_eq!(pool.earnings(), limbs_of(Decimal::try_from("37.5").unwrap()));
    assert_eq!(pool.final_lsus(), Amount::from_units(10));
    assert_eq!(pool.final_earnings(), Amount::from_units(50));
    assert_eq!(pool.receipt_data(0), None);
    assert_eq!(
        pool.retrieve_reward(receipt(1)),
        Ok((limbs_of(Decimal::try_from("7.5").unwrap()), limbs_of(Decimal::try_from("37.5").unwrap())))
    );
    assert_eq!(pool.lsus(), Amount::zero());
    assert_eq!(pool.earnings(), Amount::zero());
}

#[test]
fn redemption_rounds_each_step_toward_zero() {
    // fraction = 1 / 3 = 0.333333333333333333
    // share of 100 = 33.333333333333333300, share of 7 = 2.333333333333333331
    let mut pool = redeemable(&[1, 1, 1], 100, 7);
    let share = pool.retrieve_reward(receipt(2));
    assert_eq!(
        share,
        Ok((
            Amount::from_attos(2_333_333_333_333_333_331),
            Amount::from_attos(33_333_333_333_333_333_300)
        ))
    );
}

#[test]
fn redemption_agrees_with_decimal_arithmetic() {
    let contributions = [3u64, 7, 11];
    let mut pool = redeemable(&contributions, 1000, 13);
    let supply = Decimal::from(21u64);
    for (n, units) in contributions.iter().enumerate() {
        let fraction = Decimal::from(*units) / supply;
        let expected = (
            limbs_of(fraction * Decimal::from(13u64)),
            limbs_of(fraction * Decimal::from(1000u64)),
        );
        assert_eq!(pool.retrieve_reward(receipt(n as u64)), Ok(expected));
    }
}

#[test]
fn shares_never_add_up_to_more_than_the_pool() {
    let contributions = [1u64, 1, 1, 4, 6, 10];
    let mut pool = redeemable(&contributions, 100, 7);
    let mut lsus_paid = Decimal::ZERO;
    let mut earnings_paid = Decimal::ZERO;
    for n in 0..contributions.len() {
        let (lsus, earnings) = pool.retrieve_reward(receipt(n as u64)).unwrap();
        assert!(!lsus.is_negative());
        assert!(!earnings.is_negative());
        lsus_paid = lsus_paid + decimal_of(lsus);
        earnings_paid = earnings_paid + decimal_of(earnings);
    }
    assert!(lsus_paid <= Decimal::from(7u64));
    assert!(earnings_paid <= Decimal::from(100u64));
    assert_eq!(decimal_of(pool.lsus()), Decimal::from(7u64) - lsus_paid);
    assert_eq!(decimal_of(pool.earnings()), Decimal::from(100u64) - earnings_paid);
    assert!(!pool.lsus().is_negative());
    assert!(!pool.earnings().is_negative());
    // What is left is rounding dust only.
    assert!(decimal_of(pool.lsus()) < Decimal::try_from("0.000000000000001").unwrap());
    assert!(decimal_of(pool.earnings()) < Decimal::try_from("0.000000000000001").unwrap());
}

#[test]
fn receipt_redeems_only_once() {
    let mut pool = redeemable(&[100, 300], 50, 10);
    assert!(pool.retrieve_reward(receipt(1)).is_ok());
    let lsus_left = pool.lsus();
    let earnings_left = pool.earnings();
    assert_eq!(pool.retrieve_reward(receipt(1)), Err(PoolError::InvalidReceipt));
    assert_eq!(pool.lsus(), lsus_left);
    assert_eq!(pool.earnings(), earnings_left);
    assert!(pool.retrieve_reward(receipt(0)).is_ok());
    assert_eq!(pool.retrieve_reward(receipt(1)), Err(PoolError::InvalidReceipt));
    assert_eq!(pool.retrieve_reward(receipt(0)), Err(PoolError::InvalidReceipt));
}

#[test]
fn redemption_with_a_bad_receipt_is_invalid_receipt() {
    let mut pool = redeemable(&[100], 50, 10);
    assert_eq!(
        pool.retrieve_reward(Receipt { kind: XRD, id: 0 }),
        Err(PoolError::InvalidReceipt)
    );
    assert_eq!(pool.retrieve_reward(receipt(1)), Err(PoolError::InvalidReceipt));
    assert_eq!(pool.receipt_data(0).map(|data| data.used), Some(false));
    assert_eq!(pool.lsus(), Amount::from_units(10));
}

#[test]
fn redemption_of_a_withdrawn_receipt_is_invalid_receipt() {
    let mut pool = fresh();
    let a = pool.insert_proof(claim(1, 100)).unwrap();
    let b = pool.insert_proof(claim(2, 300)).unwrap();
    pool.withdraw_proof(a).unwrap();
    pool.start_saving().unwrap();
    pool.save_next(Amount::from_units(50), Amount::from_units(10)).unwrap();
    pool.finish_saving().unwrap();
    assert_eq!(pool.retrieve_reward(a), Err(PoolError::InvalidReceipt));
    assert!(pool.retrieve_reward(b).is_ok());
}

#[test]
fn redemption_from_a_zero_supply_is_rejected() {
    let mut pool = redeemable(&[0], 50, 10);
    assert_eq!(pool.retrieve_reward(receipt(0)), Err(PoolError::Overflow));
    assert_eq!(pool.receipt_data(0).map(|data| data.used), Some(false));
    assert_eq!(pool.lsus(), Amount::from_units(10));
    assert_eq!(pool.earnings(), Amount::from_units(50));
}

#[test]
fn redemption_whose_fraction_overflows_is_rejected() {
    let mut pool = fresh();
    let huge = Claim { kind: CLAIMS, id: id(1), amount: limbs_of(Decimal::MAX) };
    let debt = Decimal::ONE_ATTO - Decimal::MAX;
    pool.insert_proof(huge).unwrap();
    pool.insert_proof(Claim { kind: CLAIMS, id: id(2), amount: limbs_of(debt) }).unwrap();
    assert_eq!(pool.supply_proofs_amount(), Amount::from_attos(1));
    pool.start_saving().unwrap();
    pool.save_next(Amount::from_units(1), Amount::from_units(1)).unwrap();
    pool.finish_saving().unwrap();
    assert_eq!(pool.retrieve_reward(receipt(0)), Err(PoolError::Overflow));
    assert!(pool.receipt_data(0).is_some());
}

#[test]
fn redemption_beyond_the_pool_is_insufficient_balance() {
    let mut pool = fresh();
    pool.insert_proof(claim(1, 300)).unwrap();
    let debt = Claim { kind: CLAIMS, id: id(2), amount: limbs_of(Decimal::from(-100i64)) };
    pool.insert_proof(debt).unwrap();
    assert_eq!(pool.supply_proofs_amount(), Amount::from_units(200));
    pool.start_saving().unwrap();
    pool.save_next(Amount::from_units(100), Amount::from_units(100)).unwrap();
    pool.save_next(Amount::zero(), Amount::zero()).unwrap();
    pool.finish_saving().unwrap();
    // 300 / 200 of 100 is 150, more than the pool holds.
    assert_eq!(pool.retrieve_reward(receipt(0)), Err(PoolError::InsufficientBalance));
    // -100 / 200 of 100 is -50, which cannot be taken either.
    assert_eq!(pool.retrieve_reward(receipt(1)), Err(PoolError::InsufficientBalance));
    assert_eq!(pool.lsus(), Amount::from_units(100));
    assert_eq!(pool.earnings(), Amount::from_units(100));
    assert!(pool.receipt_data(0).is_some());
    assert!(pool.receipt_data(1).is_some());
}

#[test]
fn errors_describe_themselves() {
    let all = [
        PoolError::WrongStage,
        PoolError::InvalidClaimKind,
        PoolError::InvalidReceipt,
        PoolError::NotFound,
        PoolError::OutOfRange,
        PoolError::InsufficientBalance,
        PoolError::Overflow,
    ];
    for (n, a) in all.iter().enumerate() {
        assert!(!a.message().is_empty());
        for b in all.iter().skip(n + 1) {
            assert_ne!(a.message(), b.message());
        }
    }
}

#[test]
fn redemption_whose_share_is_the_lowest_decimal_is_rejected() {
    // A product equal to the lowest decimal does not survive the narrowing
    // to 192 bits, one atto above it does.
    let mut pool = fresh();
    pool.insert_proof(claim(1, 1)).unwrap();
    pool.start_saving().unwrap();
    pool.save_next(Amount::zero(), limbs_of(Decimal::MIN)).unwrap();
    pool.finish_saving().unwrap();
    assert_eq!(pool.final_lsus(), limbs_of(Decimal::MIN));
    assert_eq!(pool.retrieve_reward(receipt(0)), Err(PoolError::Overflow));

    let mut pool = fresh();
    pool.insert_proof(claim(1, 1)).unwrap();
    pool.start_saving().unwrap();
    pool.save_next(Amount::zero(), limbs_of(Decimal::MIN + Decimal::ONE_ATTO)).unwrap();
    pool.finish_saving().unwrap();
    assert_eq!(pool.retrieve_reward(receipt(0)), Err(PoolError::InsufficientBalance));
}

#[test]
fn redemption_whose_fraction_is_the_lowest_decimal_is_rejected() {
    let mut pool = fresh();
    let highest = Claim { kind: CLAIMS, id: id(1), amount: limbs_of(Decimal::MAX) };
    let lowest = Claim { kind: CLAIMS, id: id(2), amount: limbs_of(Decimal::MIN) };
    let rest = Claim {
        kind: CLAIMS,
        id: id(3),
        amount: limbs_of(Decimal::ONE + Decimal::ONE_ATTO),
    };
    pool.insert_proof(highest).unwrap();
    pool.insert_proof(lowest).unwrap();
    pool.insert_proof(rest).unwrap();
    assert_eq!(pool.supply_proofs_amount(), Amount::from_units(1));
    pool.start_saving().unwrap();
    pool.save_next(Amount::from_units(1), Amount::from_units(1)).unwrap();
    pool.finish_saving().unwrap();
    // MIN / 1 is MIN: refused. MAX / 1 is MAX: computed, but more than the pool holds.
    assert_eq!(pool.retrieve_reward(receipt(1)), Err(PoolError::Overflow));
    assert_eq!(pool.retrieve_reward(receipt(0)), Err(PoolError::InsufficientBalance));
    assert_eq!(pool.lsus(), Amount::from_units(1));
    assert_eq!(pool.earnings(), Amount::from_units(1));
}
