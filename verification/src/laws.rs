//! What holds of every pool, whatever is done to it.

use crate::amount::Amount;
use crate::assets::{Claim, Receipt};
use crate::errors::PoolError;
use crate::ledger::{
    active_contributions, contribution, lemma_contributions_after_push,
    lemma_contributions_after_update,
};
use crate::registry::compacted;
use crate::shares::{
    lemma_fraction_bounds, lemma_owed_after_update, lemma_owed_within_pool_total,
    lemma_sums_dominate_their_terms, no_negative_contribution, owed,
};
use crate::state::PoolState;
use scrypto::prelude::ResourceAddress;
use vstd::prelude::*;

verus! {

/// One call of one of the pool's operations, with its arguments.
pub enum Operation {
    InsertProof(Claim),
    WithdrawProof(Receipt),
    StartSaving,
    SaveNext { earnings: Amount, lsus: Amount },
    FinishSaving,
    RetrieveReward(Receipt),
}

/// The one stage in which an operation is open.
pub open spec fn gate(op: Operation) -> int {
    match op {
        Operation::InsertProof(_) => 0,
        Operation::WithdrawProof(_) => 0,
        Operation::StartSaving => 0,
        Operation::SaveNext { .. } => 1,
        Operation::FinishSaving => 1,
        Operation::RetrieveReward(_) => 2,
    }
}

/// Why the pool in state `s` rejects `op`, if it does.
pub open spec fn rejection(s: PoolState, op: Operation) -> Option<PoolError> {
    match op {
        Operation::InsertProof(claim) => s.insert_proof_error(claim),
        Operation::WithdrawProof(receipt) => s.withdraw_proof_error(receipt),
        Operation::StartSaving => s.start_saving_error(),
        Operation::SaveNext { earnings, lsus } => s.save_next_error(earnings, lsus),
        Operation::FinishSaving => s.finish_saving_error(),
        Operation::RetrieveReward(receipt) => s.retrieve_reward_error(receipt),
    }
}

/// The state that `op` leaves behind when applied in state `s`.
pub open spec fn step(s: PoolState, op: Operation) -> PoolState {
    match op {
        Operation::InsertProof(claim) => s.after_insert_proof(claim),
        Operation::WithdrawProof(receipt) => s.after_withdraw_proof(receipt),
        Operation::StartSaving => s.after_start_saving(),
        Operation::SaveNext { earnings, lsus } => s.after_save_next(earnings, lsus),
        Operation::FinishSaving => s.after_finish_saving(),
        Operation::RetrieveReward(receipt) => s.after_retrieve_reward(receipt),
    }
}

/// The state that a sequence of operations leaves behind, applied in order
/// from state `s`.
pub open spec fn run(s: PoolState, ops: Seq<Operation>) -> PoolState
    decreases ops.len(),
{
    if ops.len() == 0 {
        s
    } else {
        step(run(s, ops.drop_last()), ops.last())
    }
}

/// How many claims were processed in the course of a sequence of
/// operations applied from state `s`.
pub open spec fn processed(s: PoolState, ops: Seq<Operation>) -> int
    decreases ops.len(),
{
    if ops.len() == 0 {
        0
    } else {
        let before = run(s, ops.drop_last());
        let accepted = ops.last() is SaveNext && rejection(before, ops.last()) is None;
        processed(s, ops.drop_last()) + if accepted {
            1int
        } else {
            0int
        }
    }
}

/// A rejected operation leaves the state as it was.
pub proof fn law_rejection_changes_nothing(s: PoolState, op: Operation)
    requires
        rejection(s, op) is Some,
    ensures
        step(s, op) == s,
{
}

/// An operation attempted in a stage other than the one it is open in is
/// rejected with `WrongStage`, and the state stays as it was.
pub proof fn law_stage_gates_every_operation(s: PoolState, op: Operation)
    requires
        s.stage != gate(op),
    ensures
        rejection(s, op) == Some(PoolError::WrongStage),
        step(s, op) == s,
{
}

/// An operation either leaves the stage as it is, or moves it from 0 to 1,
/// or from 1 to 2.
pub proof fn law_stage_moves_one_step_forward(s: PoolState, op: Operation)
    ensures
        step(s, op).stage == s.stage || (s.stage == 0 && step(s, op).stage == 1) || (s.stage == 1
            && step(s, op).stage == 2),
{
}

/// Over any sequence of operations the stage never moves back.
pub proof fn law_stage_never_regresses(s: PoolState, ops: Seq<Operation>)
    ensures
        s.stage <= run(s, ops).stage,
        s.stage <= 2 ==> run(s, ops).stage <= 2,
    decreases ops.len(),
{
    if ops.len() > 0 {
        law_stage_never_regresses(s, ops.drop_last());
    }
}

/// A fresh pool satisfies the invariant.
pub proof fn law_fresh_pool_satisfies_invariant(
    accepted_kind: ResourceAddress,
    receipt_kind: ResourceAddress,
)
    ensures
        PoolState::initial(accepted_kind, receipt_kind).inv(),
{
}

/// A deposit keeps the invariant.
pub proof fn lemma_insert_proof_keeps_invariant(s: PoolState, claim: Claim)
    requires
        s.inv(),
    ensures
        s.after_insert_proof(claim).inv(),
{
    if s.insert_proof_error(claim) is None {
        lemma_contributions_after_push(s.receipts, Some(s.minted_record(claim)));
    }
}

/// A withdrawal keeps the invariant.
pub proof fn lemma_withdraw_proof_keeps_invariant(s: PoolState, receipt: Receipt)
    requires
        s.inv(),
    ensures
        s.after_withdraw_proof(receipt).inv(),
{
    if s.withdraw_proof_error(receipt) is None {
        let t = s.after_withdraw_proof(receipt);
        let id = receipt.id as int;
        let burned = s.receipts.update(id, None);
        lemma_contributions_after_update(s.receipts, id, None);
        match s.relocation(s.record_of(receipt).registry_position) {
            Some(moved) => {
                lemma_contributions_after_update(burned, moved.receipt as int, t.receipts[moved.receipt as int]);
            },
            None => {},
        }
    }
}

/// Every operation keeps the invariant.
pub proof fn law_step_keeps_invariant(s: PoolState, op: Operation)
    requires
        s.inv(),
    ensures
        step(s, op).inv(),
{
    match op {
        Operation::InsertProof(claim) => lemma_insert_proof_keeps_invariant(s, claim),
        Operation::WithdrawProof(receipt) => lemma_withdraw_proof_keeps_invariant(s, receipt),
        _ => {},
    }
}

/// Every sequence of operations keeps the invariant.
pub proof fn law_run_keeps_invariant(s: PoolState, ops: Seq<Operation>)
    requires
        s.inv(),
    ensures
        run(s, ops).inv(),
    decreases ops.len(),
{
    if ops.len() > 0 {
        law_run_keeps_invariant(s, ops.drop_last());
        law_step_keeps_invariant(run(s, ops.drop_last()), ops.last());
    }
}

/// Whatever was deposited into and withdrawn from a fresh pool, until
/// redemption opens the supply equals the sum of the contributed amounts of
/// the live receipts.
pub proof fn law_supply_is_sum_of_live_contributions(
    accepted_kind: ResourceAddress,
    receipt_kind: ResourceAddress,
    ops: Seq<Operation>,
)
    ensures
        ({
            let s = run(PoolState::initial(accepted_kind, receipt_kind), ops);
            s.stage <= 1 ==> s.supply_proofs_amount == active_contributions(s.receipts)
        }),
{
    law_run_keeps_invariant(PoolState::initial(accepted_kind, receipt_kind), ops);
}

/// A withdrawal leaves the registry one entry shorter and without gaps,
/// destroys the presented receipt and no other, and leaves every surviving
/// receipt recording the position at which its own claim now sits.
pub proof fn law_withdrawal_keeps_receipts_in_their_slots(s: PoolState, receipt: Receipt)
    requires
        s.inv(),
        s.withdraw_proof_error(receipt) is None,
    ensures
        ({
            let t = s.after_withdraw_proof(receipt);
            &&& t.registry.len() == s.registry.len() - 1
            &&& t.holders.len() == t.registry.len()
            &&& t.receipts.len() == s.receipts.len()
            &&& t.receipts[receipt.id as int] is None
            &&& forall|id: int|
                0 <= id < s.receipts.len() && id != receipt.id ==> {
                    &&& (#[trigger] t.receipts[id]) is Some <==> s.receipts[id] is Some
                    &&& t.receipts[id] is Some ==> {
                        let kept = t.receipts[id]->0;
                        &&& kept.claim_identifier == s.receipts[id]->0.claim_identifier
                        &&& kept.contributed_amount == s.receipts[id]->0.contributed_amount
                        &&& kept.registry_position < t.registry.len()
                        &&& t.registry[kept.registry_position as int] == kept.claim_identifier
                        &&& t.holders[kept.registry_position as int] == id
                    }
                }
            &&& t.slots_have_live_holders()
        }),
{
}

/// Custody follows the operations: an accepted deposit adds the deposited
/// claim at the end, an accepted withdrawal takes out the claim that the
/// receipt was issued for and fills its place with the last one, accepted
/// processing hands out the first claim in custody, and nothing else
/// changes what the pool holds.
pub proof fn law_custody_follows_the_operations(s: PoolState, op: Operation)
    requires
        s.inv(),
        rejection(s, op) is None,
    ensures
        match op {
            Operation::InsertProof(claim) => step(s, op).custody() == s.custody().push(claim.id),
            Operation::WithdrawProof(receipt) => {
                let position = s.record_of(receipt).registry_position as int;
                &&& s.custody()[position] == s.record_of(receipt).claim_identifier
                &&& s.withdraw_proof_result(receipt)->Ok_0.claim.id == s.custody()[position]
                &&& step(s, op).custody() == compacted(s.custody(), position)
            },
            Operation::SaveNext { earnings, lsus } => {
                &&& s.custody().len() > 0
                &&& s.save_next_result(earnings, lsus) == Ok::<_, PoolError>(s.custody().first())
                &&& step(s, op).custody() == s.custody().drop_first()
            },
            _ => step(s, op).custody() == s.custody(),
        },
{
}

/// When processing opens, the cursor stands at the first registered claim.
pub proof fn law_processing_opens_at_the_first_claim(s: PoolState)
    requires
        s.inv(),
        s.start_saving_error() is None,
    ensures
        s.after_start_saving().stage == 1,
        s.after_start_saving().saving_counter == 0,
        s.after_start_saving().registry == s.registry,
{
}

/// Processing a claim hands out the claim under the cursor and moves the
/// cursor forward by exactly one; when the cursor has reached the end of the
/// registry, processing is rejected with `OutOfRange`.
pub proof fn law_processing_advances_the_cursor(s: PoolState, earnings: Amount, lsus: Amount)
    requires
        s.inv(),
        s.stage == 1,
    ensures
        s.save_next_error(earnings, lsus) is None ==> {
            &&& s.saving_counter < s.registry.len()
            &&& s.save_next_result(earnings, lsus) == Ok::<_, PoolError>(
                s.registry[s.saving_counter],
            )
            &&& s.after_save_next(earnings, lsus).saving_counter == s.saving_counter + 1
        },
        s.saving_counter == s.registry.len() ==> s.save_next_error(earnings, lsus) == Some(
            PoolError::OutOfRange,
        ),
{
}

/// Once processing has opened, the registry no longer changes, and however
/// many operations follow, the number of claims processed is the distance
/// the cursor has moved, which never takes it past the last registered
/// claim: each registered claim is processed at most once.
pub proof fn law_each_claim_is_processed_at_most_once(s: PoolState, ops: Seq<Operation>)
    requires
        s.inv(),
        s.stage >= 1,
    ensures
        run(s, ops).stage >= 1,
        run(s, ops).registry == s.registry,
        run(s, ops).saving_counter == s.saving_counter + processed(s, ops),
        s.saving_counter + processed(s, ops) <= s.registry.len(),
    decreases ops.len(),
{
    if ops.len() > 0 {
        law_each_claim_is_processed_at_most_once(s, ops.drop_last());
        law_run_keeps_invariant(s, ops.drop_last());
    }
}

/// A receipt that has been redeemed cannot be redeemed again: the second
/// attempt is rejected with `InvalidReceipt`.
pub proof fn law_receipt_redeems_once(s: PoolState, receipt: Receipt)
    requires
        s.retrieve_reward_error(receipt) is None,
    ensures
        s.after_retrieve_reward(receipt).retrieve_reward_error(receipt) == Some(
            PoolError::InvalidReceipt,
        ),
{
}

/// Once redemption is open, a receipt that the pool does not honour is
/// never honoured again, whatever operations follow.
pub proof fn law_destroyed_receipt_stays_destroyed(
    s: PoolState,
    receipt: Receipt,
    ops: Seq<Operation>,
)
    requires
        s.stage == 2,
        !s.honours(receipt),
    ensures
        run(s, ops).stage == 2,
        !run(s, ops).honours(receipt),
        run(s, ops).retrieve_reward_error(receipt) == Some(PoolError::InvalidReceipt),
    decreases ops.len(),
{
    if ops.len() > 0 {
        law_destroyed_receipt_stays_destroyed(s, receipt, ops.drop_last());
    }
}

/// After a successful redemption, and whatever operations follow it, a
/// further redemption of the same receipt is rejected with
/// `InvalidReceipt`.
pub proof fn law_receipt_never_redeems_twice(s: PoolState, receipt: Receipt, ops: Seq<Operation>)
    requires
        s.retrieve_reward_error(receipt) is None,
    ensures
        run(s.after_retrieve_reward(receipt), ops).retrieve_reward_error(receipt) == Some(
            PoolError::InvalidReceipt,
        ),
{
    law_destroyed_receipt_stays_destroyed(s.after_retrieve_reward(receipt), receipt, ops);
}

/// Whether a pool in the redemption stage holds enough in both pools to pay
/// every live receipt its shares.
pub open spec fn solvent(s: PoolState) -> bool {
    &&& s.stage == 2
    &&& no_negative_contribution(s.receipts)
    &&& 0 < s.supply_proofs_amount
    &&& active_contributions(s.receipts) <= s.supply_proofs_amount
    &&& 0 <= s.final_lsus
    &&& 0 <= s.final_earnings
    &&& owed(s.receipts, s.supply_proofs_amount, s.final_lsus) <= s.lsus
    &&& owed(s.receipts, s.supply_proofs_amount, s.final_earnings) <= s.earnings
}

/// When processing is finished, the shares owed to all live receipts
/// together do not exceed the snapshotted total of either pool, provided
/// that no contribution is below zero, that something was contributed, and
/// that neither pool is below zero.
pub proof fn law_shares_never_exceed_the_snapshot(s: PoolState)
    requires
        s.inv(),
        s.finish_saving_error() is None,
        no_negative_contribution(s.receipts),
        0 < s.supply_proofs_amount,
        0 <= s.lsus,
        0 <= s.earnings,
    ensures
        ({
            let t = s.after_finish_saving();
            &&& owed(t.receipts, t.supply_proofs_amount, t.final_lsus) <= t.final_lsus
            &&& owed(t.receipts, t.supply_proofs_amount, t.final_earnings) <= t.final_earnings
            &&& solvent(t)
        }),
{
    lemma_owed_within_pool_total(s.receipts, s.supply_proofs_amount, s.lsus);
    lemma_owed_within_pool_total(s.receipts, s.supply_proofs_amount, s.earnings);
}

/// A solvent pool pays every receipt it honours, and stays solvent.
pub proof fn law_solvent_pool_pays_every_receipt(s: PoolState, receipt: Receipt)
    requires
        s.inv(),
        solvent(s),
        s.honours(receipt),
    ensures
        s.retrieve_reward_error(receipt) is None,
        solvent(s.after_retrieve_reward(receipt)),
{
    let id = receipt.id as int;
    let supply = s.supply_proofs_amount;
    let contributed = contribution(s.receipts[id]);
    lemma_sums_dominate_their_terms(s.receipts, supply, s.final_lsus, id);
    lemma_sums_dominate_their_terms(s.receipts, supply, s.final_earnings, id);
    lemma_fraction_bounds(contributed, supply);
    lemma_owed_after_update(s.receipts, supply, s.final_lsus, id, None);
    lemma_owed_after_update(s.receipts, supply, s.final_earnings, id, None);
    lemma_contributions_after_update(s.receipts, id, None);
}

/// A solvent pool stays solvent whatever operations follow.
pub proof fn law_solvency_is_kept(s: PoolState, ops: Seq<Operation>)
    requires
        s.inv(),
        solvent(s),
    ensures
        solvent(run(s, ops)),
    decreases ops.len(),
{
    if ops.len() > 0 {
        let before = run(s, ops.drop_last());
        law_solvency_is_kept(s, ops.drop_last());
        law_run_keeps_invariant(s, ops.drop_last());
        match ops.last() {
            Operation::RetrieveReward(receipt) => {
                if before.honours(receipt) {
                    law_solvent_pool_pays_every_receipt(before, receipt);
                }
            },
            _ => {},
        }
    }
}

} // verus!
