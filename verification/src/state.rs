//! The pool as a state machine over mathematical values: what each operation
//! rejects, what it returns, and the state it leaves behind.

use crate::amount::{decimal_quotient, narrowable, representable, Amount};
use crate::assets::{Claim, Receipt, Relocation, Withdrawal};
use crate::errors::PoolError;
use crate::ledger::{active_contributions, live_receipt, ReceiptData};
use crate::registry::compacted;
use crate::shares::share;
use scrypto::prelude::{NonFungibleLocalId, ResourceAddress};
use vstd::prelude::*;

verus! {

/// The abstract state of a pool.
pub struct PoolState {
    /// The resource whose non-fungibles the pool accepts as claims.
    pub accepted_kind: ResourceAddress,
    /// The resource of the receipts the pool issues.
    pub receipt_kind: ResourceAddress,
    /// The stage number: 0, 1 or 2.
    pub stage: int,
    /// The registered claim identifiers by position.
    pub registry: Seq<NonFungibleLocalId>,
    /// For each registry position, the number of the receipt that was issued
    /// for the claim sitting there.
    pub holders: Seq<u64>,
    /// The receipt records by receipt number; destroyed receipts leave an
    /// empty slot.
    pub receipts: Seq<Option<ReceiptData>>,
    /// The running total of the contributed amounts, in attos.
    pub supply_proofs_amount: int,
    /// How many registered claims have been processed.
    pub saving_counter: int,
    /// What the earnings pool holds, in attos.
    pub earnings: int,
    /// What the secondary-asset pool holds, in attos.
    pub lsus: int,
    /// The earnings pool as it stood when processing was finished.
    pub final_earnings: int,
    /// The secondary-asset pool as it stood when processing was finished.
    pub final_lsus: int,
}

impl PoolState {
    /// The state of a freshly instantiated pool.
    pub open spec fn initial(accepted_kind: ResourceAddress, receipt_kind: ResourceAddress)
        -> PoolState {
        PoolState {
            accepted_kind,
            receipt_kind,
            stage: 0,
            registry: Seq::empty(),
            holders: Seq::empty(),
            receipts: Seq::empty(),
            supply_proofs_amount: 0,
            saving_counter: 0,
            earnings: 0,
            lsus: 0,
            final_earnings: 0,
            final_lsus: 0,
        }
    }

    /// What holds of every state a pool can reach.
    pub open spec fn inv(self) -> bool {
        &&& 0 <= self.stage <= 2
        &&& self.receipts.len() <= u64::MAX
        &&& self.registry.len() <= usize::MAX
        &&& self.holders.len() == self.registry.len()
        &&& 0 <= self.saving_counter <= self.registry.len()
        &&& representable(self.supply_proofs_amount)
        &&& representable(self.earnings)
        &&& representable(self.lsus)
        &&& representable(self.final_earnings)
        &&& representable(self.final_lsus)
        &&& self.stage == 0 ==> self.saving_counter == 0 && self.earnings == 0 && self.lsus == 0
        &&& self.stage <= 1 ==> self.final_earnings == 0 && self.final_lsus == 0
        &&& self.receipts_sit_in_their_slots()
        &&& self.stage <= 1 ==> self.slots_have_live_holders()
        &&& self.stage <= 1 ==> self.supply_proofs_amount == active_contributions(self.receipts)
    }

    /// Every live receipt records the registry position at which its claim
    /// sits, is the holder of that position, and has not been used.
    pub open spec fn receipts_sit_in_their_slots(self) -> bool {
        forall|id: int|
            0 <= id < self.receipts.len() && (#[trigger] self.receipts[id]) is Some ==> {
                let data = self.receipts[id]->0;
                &&& data.registry_position < self.registry.len()
                &&& self.holders[data.registry_position as int] == id
                &&& self.registry[data.registry_position as int] == data.claim_identifier
                &&& !data.used
            }
    }

    /// Every registry position is held by a live receipt that records it.
    pub open spec fn slots_have_live_holders(self) -> bool {
        forall|p: int|
            0 <= p < self.registry.len() ==> {
                let holder = #[trigger] self.holders[p];
                &&& live_receipt(self.receipts, holder as int) is Some
                &&& live_receipt(self.receipts, holder as int)->0.registry_position == p
            }
    }

    /// The claims that the pool holds in custody, in registry order: every
    /// registered claim that has not been handed to the exchange yet.
    pub open spec fn custody(self) -> Seq<NonFungibleLocalId> {
        self.registry.subrange(self.saving_counter, self.registry.len() as int)
    }

    /// Whether `receipt` is of the pool's receipt resource and names a live
    /// receipt.
    pub open spec fn honours(self, receipt: Receipt) -> bool {
        receipt.kind == self.receipt_kind && live_receipt(self.receipts, receipt.id as int) is Some
    }

    /// The record that `receipt` stands for.
    pub open spec fn record_of(self, receipt: Receipt) -> ReceiptData
        recommends
            self.honours(receipt),
    {
        self.receipts[receipt.id as int]->0
    }

    // ----- deposit -----
    /// Whether the pool has run out of receipt numbers or registry
    /// positions.
    pub open spec fn full(self) -> bool {
        self.receipts.len() >= u64::MAX || self.registry.len() >= usize::MAX
    }

    /// Why a deposit of `claim` is rejected, if it is.
    pub open spec fn insert_proof_error(self, claim: Claim) -> Option<PoolError> {
        if self.stage != 0 {
            Some(PoolError::WrongStage)
        } else if claim.kind != self.accepted_kind {
            Some(PoolError::InvalidClaimKind)
        } else if self.full() || !representable(self.supply_proofs_amount + claim.amount@) {
            Some(PoolError::Overflow)
        } else {
            None
        }
    }

    /// The record written into the receipt that a deposit of `claim` mints.
    pub open spec fn minted_record(self, claim: Claim) -> ReceiptData {
        ReceiptData {
            contributed_amount: claim.amount,
            claim_identifier: claim.id,
            registry_position: self.registry.len() as usize,
            used: false,
        }
    }

    /// The state after a deposit of `claim`.
    pub open spec fn after_insert_proof(self, claim: Claim) -> PoolState {
        if self.insert_proof_error(claim) is Some {
            self
        } else {
            PoolState {
                registry: self.registry.push(claim.id),
                holders: self.holders.push(self.receipts.len() as u64),
                receipts: self.receipts.push(Some(self.minted_record(claim))),
                supply_proofs_amount: self.supply_proofs_amount + claim.amount@,
                ..self
            }
        }
    }

    /// What a deposit of `claim` returns.
    pub open spec fn insert_proof_result(self, claim: Claim) -> Result<Receipt, PoolError> {
        match self.insert_proof_error(claim) {
            Some(error) => Err(error),
            None => Ok(Receipt { kind: self.receipt_kind, id: self.receipts.len() as u64 }),
        }
    }

    // ----- withdrawal -----
    /// Why a withdrawal against `receipt` is rejected, if it is.
    pub open spec fn withdraw_proof_error(self, receipt: Receipt) -> Option<PoolError> {
        if self.stage != 0 {
            Some(PoolError::WrongStage)
        } else if !self.honours(receipt) {
            Some(PoolError::InvalidReceipt)
        } else if !representable(
            self.supply_proofs_amount - self.record_of(receipt).contributed_amount@,
        ) {
            Some(PoolError::Overflow)
        } else {
            None
        }
    }

    /// The relocation that freeing registry position `position` causes: the
    /// holder of the last position moves, unless `position` is the last.
    pub open spec fn relocation(self, position: usize) -> Option<Relocation> {
        if position + 1 == self.registry.len() {
            None
        } else {
            Some(
                Relocation {
                    receipt: self.holders.last(),
                    claim_identifier: self.registry.last(),
                    position,
                },
            )
        }
    }

    /// The receipt records after `receipt` is destroyed and the registry
    /// position it recorded is freed.
    pub open spec fn receipts_after_withdrawal(self, receipt: Receipt) -> Seq<Option<ReceiptData>> {
        let position = self.record_of(receipt).registry_position;
        let burned = self.receipts.update(receipt.id as int, None);
        match self.relocation(position) {
            None => burned,
            Some(moved) => burned.update(
                moved.receipt as int,
                Some(
                    ReceiptData {
                        registry_position: position,
                        ..self.receipts[moved.receipt as int]->0
                    },
                ),
            ),
        }
    }

    /// The state after a withdrawal against `receipt`.
    pub open spec fn after_withdraw_proof(self, receipt: Receipt) -> PoolState {
        if self.withdraw_proof_error(receipt) is Some {
            self
        } else {
            let data = self.record_of(receipt);
            PoolState {
                registry: compacted(self.registry, data.registry_position as int),
                holders: compacted(self.holders, data.registry_position as int),
                receipts: self.receipts_after_withdrawal(receipt),
                supply_proofs_amount: self.supply_proofs_amount - data.contributed_amount@,
                ..self
            }
        }
    }

    /// What a withdrawal against `receipt` returns.
    pub open spec fn withdraw_proof_result(self, receipt: Receipt) -> Result<
        Withdrawal,
        PoolError,
    > {
        match self.withdraw_proof_error(receipt) {
            Some(error) => Err(error),
            None => {
                let data = self.record_of(receipt);
                Ok(
                    Withdrawal {
                        claim: Claim {
                            kind: self.accepted_kind,
                            id: data.claim_identifier,
                            amount: data.contributed_amount,
                        },
                        relocated: self.relocation(data.registry_position),
                    },
                )
            },
        }
    }

    // ----- start of processing -----
    /// Why the start of processing is rejected, if it is.
    pub open spec fn start_saving_error(self) -> Option<PoolError> {
        if self.stage != 0 {
            Some(PoolError::WrongStage)
        } else {
            None
        }
    }

    /// The state after the start of processing was asked for.
    pub open spec fn after_start_saving(self) -> PoolState {
        if self.start_saving_error() is Some {
            self
        } else {
            PoolState { stage: 1, ..self }
        }
    }

    // ----- processing -----
    /// Why no claim can be handed out for processing, if none can.
    pub open spec fn pending_claim_error(self) -> Option<PoolError> {
        if self.stage != 1 {
            Some(PoolError::WrongStage)
        } else if self.saving_counter >= self.registry.len() {
            Some(PoolError::OutOfRange)
        } else {
            None
        }
    }

    /// The claim to process next, or why there is none.
    pub open spec fn pending_claim(self) -> Result<NonFungibleLocalId, PoolError> {
        match self.pending_claim_error() {
            Some(error) => Err(error),
            None => Ok(self.registry[self.saving_counter]),
        }
    }

    /// Why recording the exchange's outputs for the next claim is rejected,
    /// if it is.
    pub open spec fn save_next_error(self, earnings: Amount, lsus: Amount) -> Option<PoolError> {
        if self.pending_claim_error() is Some {
            self.pending_claim_error()
        } else if !representable(self.earnings + earnings@) || !representable(self.lsus + lsus@) {
            Some(PoolError::Overflow)
        } else {
            None
        }
    }

    /// The state after the exchange's outputs for the next claim were
    /// recorded.
    pub open spec fn after_save_next(self, earnings: Amount, lsus: Amount) -> PoolState {
        if self.save_next_error(earnings, lsus) is Some {
            self
        } else {
            PoolState {
                earnings: self.earnings + earnings@,
                lsus: self.lsus + lsus@,
                saving_counter: self.saving_counter + 1,
                ..self
            }
        }
    }

    /// What recording the exchange's outputs returns: the claim that was
    /// processed.
    pub open spec fn save_next_result(self, earnings: Amount, lsus: Amount) -> Result<
        NonFungibleLocalId,
        PoolError,
    > {
        match self.save_next_error(earnings, lsus) {
            Some(error) => Err(error),
            None => Ok(self.registry[self.saving_counter]),
        }
    }

    // ----- end of processing -----
    /// Why the end of processing is rejected, if it is.
    pub open spec fn finish_saving_error(self) -> Option<PoolError> {
        if self.stage != 1 {
            Some(PoolError::WrongStage)
        } else {
            None
        }
    }

    /// The state after the end of processing was asked for: on success the
    /// pools are snapshotted.
    pub open spec fn after_finish_saving(self) -> PoolState {
        if self.finish_saving_error() is Some {
            self
        } else {
            PoolState {
                stage: 2,
                final_earnings: self.earnings,
                final_lsus: self.lsus,
                ..self
            }
        }
    }

    // ----- redemption -----
    /// The fraction of the supply that `receipt` contributed, in attos.
    pub open spec fn fraction_of(self, receipt: Receipt) -> int {
        decimal_quotient(self.record_of(receipt).contributed_amount@, self.supply_proofs_amount)
    }

    /// The part of the secondary-asset pool owed to `receipt`.
    pub open spec fn lsus_share(self, receipt: Receipt) -> int {
        share(
            self.record_of(receipt).contributed_amount@,
            self.supply_proofs_amount,
            self.final_lsus,
        )
    }

    /// The part of the earnings pool owed to `receipt`.
    pub open spec fn earnings_share(self, receipt: Receipt) -> int {
        share(
            self.record_of(receipt).contributed_amount@,
            self.supply_proofs_amount,
            self.final_earnings,
        )
    }

    /// Whether the two shares of `receipt` can be computed: the supply is
    /// not zero, and the fraction and both shares are within the range that
    /// decimal products and quotients can take.
    pub open spec fn shares_computable(self, receipt: Receipt) -> bool {
        &&& self.supply_proofs_amount != 0
        &&& narrowable(self.fraction_of(receipt))
        &&& narrowable(self.lsus_share(receipt))
        &&& narrowable(self.earnings_share(receipt))
    }

    /// Whether the two shares of `receipt` can be taken out of the pools.
    pub open spec fn shares_payable(self, receipt: Receipt) -> bool {
        &&& 0 <= self.lsus_share(receipt) <= self.lsus
        &&& 0 <= self.earnings_share(receipt) <= self.earnings
    }

    /// Why a redemption of `receipt` is rejected, if it is.
    pub open spec fn retrieve_reward_error(self, receipt: Receipt) -> Option<PoolError> {
        if self.stage != 2 {
            Some(PoolError::WrongStage)
        } else if !self.honours(receipt) {
            Some(PoolError::InvalidReceipt)
        } else if !self.shares_computable(receipt) {
            Some(PoolError::Overflow)
        } else if !self.shares_payable(receipt) {
            Some(PoolError::InsufficientBalance)
        } else {
            None
        }
    }

    /// The state after a redemption of `receipt`.
    pub open spec fn after_retrieve_reward(self, receipt: Receipt) -> PoolState {
        if self.retrieve_reward_error(receipt) is Some {
            self
        } else {
            PoolState {
                receipts: self.receipts.update(receipt.id as int, None),
                lsus: self.lsus - self.lsus_share(receipt),
                earnings: self.earnings - self.earnings_share(receipt),
                ..self
            }
        }
    }

    /// What a redemption of `receipt` returns, in attos: the share of the
    /// secondary-asset pool, then the share of the earnings pool.
    pub open spec fn retrieve_reward_result(self, receipt: Receipt) -> Result<
        (int, int),
        PoolError,
    > {
        match self.retrieve_reward_error(receipt) {
            Some(error) => Err(error),
            None => Ok((self.lsus_share(receipt), self.earnings_share(receipt))),
        }
    }
}

} // verus!
