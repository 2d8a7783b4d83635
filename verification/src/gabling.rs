//! The pool itself: stage gate, claim registry, receipt ledger and the
//! counters that tie them together.

use crate::amount::Amount;
use crate::assets::{copy_of_id, same_resource, Claim, Receipt, Relocation, Withdrawal};
use crate::errors::PoolError;
use crate::ledger::{
    lemma_contributions_after_push, lemma_contributions_after_update, live_receipt, ReceiptData,
    ReceiptLedger,
};
use crate::registry::ClaimRegistry;
use crate::stage::{StageController, STAGE_DEPOSIT, STAGE_PROCESSING, STAGE_REDEMPTION};
use crate::state::PoolState;
use crate::stored::GablingParts;
use scrypto::prelude::{NonFungibleLocalId, ResourceAddress};
use vstd::prelude::*;

verus! {

/// A pool of deposited claims. All of its state lives here, and every change
/// goes through the operations below.
#[derive(Debug)]
pub struct Gabling {
    accepted_kind: ResourceAddress,
    receipt_kind: ResourceAddress,
    stage: StageController,
    registry: ClaimRegistry,
    holders: Vec<u64>,
    ledger: ReceiptLedger,
    supply_proofs_amount: Amount,
    saving_counter: usize,
    earnings: Amount,
    lsus: Amount,
    final_earnings: Amount,
    final_lsus: Amount,
}

impl View for Gabling {
    type V = PoolState;

    /// The abstract state of the pool.
    closed spec fn view(&self) -> PoolState {
        PoolState {
            accepted_kind: self.accepted_kind,
            receipt_kind: self.receipt_kind,
            stage: self.stage@,
            registry: self.registry@,
            holders: self.holders@,
            receipts: self.ledger@,
            supply_proofs_amount: self.supply_proofs_amount@,
            saving_counter: self.saving_counter as int,
            earnings: self.earnings@,
            lsus: self.lsus@,
            final_earnings: self.final_earnings@,
            final_lsus: self.final_lsus@,
        }
    }
}

/// The attos counts of the two shares that a redemption hands out.
pub open spec fn attos_of(r: Result<(Amount, Amount), PoolError>) -> Result<(int, int), PoolError> {
    match r {
        Ok((lsus, earnings)) => Ok((lsus@, earnings@)),
        Err(error) => Err(error),
    }
}

impl Gabling {
    /// Whether the pool is in a state that the operations can reach from a
    /// fresh pool.
    pub open spec fn wf(&self) -> bool {
        self@.inv()
    }

    /// A fresh pool that accepts claims of `proof_address` and issues
    /// receipts of `receipt_address`.
    pub fn instantiate(proof_address: ResourceAddress, receipt_address: ResourceAddress) -> (r:
        Gabling)
        ensures
            r.wf(),
            r@ == PoolState::initial(proof_address, receipt_address),
    {
        Gabling {
            accepted_kind: proof_address,
            receipt_kind: receipt_address,
            stage: StageController::new(),
            registry: ClaimRegistry::new(),
            holders: Vec::new(),
            ledger: ReceiptLedger::new(),
            supply_proofs_amount: Amount::zero(),
            saving_counter: 0,
            earnings: Amount::zero(),
            lsus: Amount::zero(),
            final_earnings: Amount::zero(),
            final_lsus: Amount::zero(),
        }
    }

    /// Takes the pool apart into its fields.
    pub fn into_parts(self) -> (r: GablingParts)
        ensures
            r@ == self@,
    {
        let Gabling {
            accepted_kind,
            receipt_kind,
            stage,
            registry,
            holders,
            ledger,
            supply_proofs_amount,
            saving_counter,
            earnings,
            lsus,
            final_earnings,
            final_lsus,
        } = self;
        GablingParts {
            accepted_kind,
            receipt_kind,
            process_stage: stage.current_stage(),
            registry: registry.into_entries(),
            holders,
            receipts: ledger.into_slots(),
            supply_proofs_amount,
            saving_counter,
            earnings,
            lsus,
            final_earnings,
            final_lsus,
        }
    }

    /// Puts a pool together from stored fields, if they make up a pool.
    pub fn from_parts(parts: GablingParts) -> (r: Option<Gabling>)
        ensures
            r is Some <==> parts.valid(),
            r matches Some(pool) ==> pool.wf() && pool@ == parts@,
    {
        if !parts.is_valid() {
            return None;
        }
        let GablingParts {
            accepted_kind,
            receipt_kind,
            process_stage,
            registry,
            holders,
            receipts,
            supply_proofs_amount,
            saving_counter,
            earnings,
            lsus,
            final_earnings,
            final_lsus,
        } = parts;
        let stage = StageController::restore(process_stage).unwrap();
        Some(
            Gabling {
                accepted_kind,
                receipt_kind,
                stage,
                registry: ClaimRegistry::from_entries(registry),
                holders,
                ledger: ReceiptLedger::from_slots(receipts),
                supply_proofs_amount,
                saving_counter,
                earnings,
                lsus,
                final_earnings,
                final_lsus,
            },
        )
    }

    /// Deposits a claim: adds its amount to the supply, registers it at the
    /// next registry position and mints the receipt that records both.
    pub fn insert_proof(&mut self, supply_proof: Claim) -> (r: Result<Receipt, PoolError>)
        requires
            old(self).wf(),
        ensures
            final(self).wf(),
            final(self)@ == old(self)@.after_insert_proof(supply_proof),
            r == old(self)@.insert_proof_result(supply_proof),
    {
        if self.stage.current_stage() != STAGE_DEPOSIT {
            return Err(PoolError::WrongStage);
        }
        if !same_resource(&supply_proof.kind, &self.accepted_kind) {
            return Err(PoolError::InvalidClaimKind);
        }
        if self.ledger.issued() == u64::MAX || self.registry.len() == usize::MAX {
            return Err(PoolError::Overflow);
        }
        let supply = match self.supply_proofs_amount.checked_add(supply_proof.amount) {
            Some(sum) => sum,
            None => {
                return Err(PoolError::Overflow);
            },
        };
        let ghost before = self@;
        let ghost record = before.minted_record(supply_proof);
        let Claim { kind: _, id, amount } = supply_proof;
        let claim_identifier = copy_of_id(&id);
        let position = self.registry.register(id);
        let receipt_number = self.ledger.mint(
            ReceiptData { contributed_amount: amount, claim_identifier, registry_position: position, used: false },
        );
        self.holders.push(receipt_number);
        self.supply_proofs_amount = supply;
        proof {
            lemma_contributions_after_push(before.receipts, Some(record));
        }
        Ok(Receipt { kind: self.receipt_kind, id: receipt_number })
    }

    /// Withdraws a claim against its receipt: takes its amount off the
    /// supply, frees its registry position, corrects the receipt of the claim
    /// that moved into the freed position, and destroys the receipt.
    pub fn withdraw_proof(&mut self, supply_proof_receipt: Receipt) -> (r: Result<
        Withdrawal,
        PoolError,
    >)
        requires
            old(self).wf(),
        ensures
            final(self).wf(),
            final(self)@ == old(self)@.after_withdraw_proof(supply_proof_receipt),
            r == old(self)@.withdraw_proof_result(supply_proof_receipt),
    {
        if self.stage.current_stage() != STAGE_DEPOSIT {
            return Err(PoolError::WrongStage);
        }
        if !same_resource(&supply_proof_receipt.kind, &self.receipt_kind) {
            return Err(PoolError::InvalidReceipt);
        }
        let contributed = match self.ledger.read(supply_proof_receipt.id) {
            Some(data) => data.contributed_amount,
            None => {
                return Err(PoolError::InvalidReceipt);
            },
        };
        let supply = match self.supply_proofs_amount.checked_sub(contributed) {
            Some(difference) => difference,
            None => {
                return Err(PoolError::Overflow);
            },
        };
        let ghost before = self@;
        let data = self.ledger.burn(supply_proof_receipt.id).unwrap();
        let position = data.registry_position;
        let moved = self.registry.unregister(position).unwrap().1;
        self.holders.swap_remove(position);
        let relocated = match moved {
            Some((claim_identifier, position)) => {
                let receipt = self.holders[position];
                self.ledger.set_position(receipt, position);
                Some(Relocation { receipt, claim_identifier, position })
            },
            None => None,
        };
        self.supply_proofs_amount = supply;
        proof {
            let burned = before.receipts.update(supply_proof_receipt.id as int, None);
            lemma_contributions_after_update(before.receipts, supply_proof_receipt.id as int, None);
            if relocated is Some {
                let mover = before.holders.last() as int;
                lemma_contributions_after_update(burned, mover, self@.receipts[mover]);
            }
        }
        Ok(
            Withdrawal {
                claim: Claim {
                    kind: self.accepted_kind,
                    id: data.claim_identifier,
                    amount: data.contributed_amount,
                },
                relocated,
            },
        )
    }

    /// Closes the deposit stage and opens processing.
    pub fn start_saving(&mut self) -> (r: Result<(), PoolError>)
        requires
            old(self).wf(),
        ensures
            final(self).wf(),
            final(self)@ == old(self)@.after_start_saving(),
            r == match old(self)@.start_saving_error() {
                Some(error) => Err::<(), PoolError>(error),
                None => Ok::<(), PoolError>(()),
            },
    {
        self.stage.advance_to_processing()
    }

    /// The claim that the operator is to take out of custody and submit to
    /// the exchange next.
    pub fn pending_claim(&self) -> (r: Result<NonFungibleLocalId, PoolError>)
        ensures
            r == self@.pending_claim(),
    {
        if self.stage.current_stage() != STAGE_PROCESSING {
            return Err(PoolError::WrongStage);
        }
        self.registry.next_for_processing(self.saving_counter)
    }

    /// Records what the exchange returned for the pending claim: adds the
    /// two outputs to their pools and advances the cursor by one. Returns the
    /// claim that was processed.
    pub fn save_next(&mut self, earnings: Amount, lsus: Amount) -> (r: Result<
        NonFungibleLocalId,
        PoolError,
    >)
        requires
            old(self).wf(),
        ensures
            final(self).wf(),
            final(self)@ == old(self)@.after_save_next(earnings, lsus),
            r == old(self)@.save_next_result(earnings, lsus),
    {
        let claim_identifier = match self.pending_claim() {
            Ok(claim_identifier) => claim_identifier,
            Err(error) => {
                return Err(error);
            },
        };
        let new_earnings = match self.earnings.checked_add(earnings) {
            Some(sum) => sum,
            None => {
                return Err(PoolError::Overflow);
            },
        };
        let new_lsus = match self.lsus.checked_add(lsus) {
            Some(sum) => sum,
            None => {
                return Err(PoolError::Overflow);
            },
        };
        proof {
            self.registry.lemma_len_fits();
        }
        self.earnings = new_earnings;
        self.lsus = new_lsus;
        self.saving_counter = self.saving_counter + 1;
        Ok(claim_identifier)
    }

    /// Closes processing, snapshots the two pools and opens redemption.
    pub fn finish_saving(&mut self) -> (r: Result<(), PoolError>)
        requires
            old(self).wf(),
        ensures
            final(self).wf(),
            final(self)@ == old(self)@.after_finish_saving(),
            r == match old(self)@.finish_saving_error() {
                Some(error) => Err::<(), PoolError>(error),
                None => Ok::<(), PoolError>(()),
            },
    {
        match self.stage.finalize() {
            Ok(()) => {
                self.final_earnings = self.earnings;
                self.final_lsus = self.lsus;
                Ok(())
            },
            Err(error) => Err(error),
        }
    }

    /// Redeems a receipt: computes the fraction of the supply it contributed,
    /// takes that fraction of each snapshotted total out of its pool, and
    /// destroys the receipt. Returns the share of the secondary-asset pool,
    /// then the share of the earnings pool.
    pub fn retrieve_reward(&mut self, supply_proof_receipt: Receipt) -> (r: Result<
        (Amount, Amount),
        PoolError,
    >)
        requires
            old(self).wf(),
        ensures
            final(self).wf(),
            final(self)@ == old(self)@.after_retrieve_reward(supply_proof_receipt),
            attos_of(r) == old(self)@.retrieve_reward_result(supply_proof_receipt),
    {
        if self.stage.current_stage() != STAGE_REDEMPTION {
            return Err(PoolError::WrongStage);
        }
        if !same_resource(&supply_proof_receipt.kind, &self.receipt_kind) {
            return Err(PoolError::InvalidReceipt);
        }
        let contributed = match self.ledger.read(supply_proof_receipt.id) {
            Some(data) => data.contributed_amount,
            None => {
                return Err(PoolError::InvalidReceipt);
            },
        };
        let fraction = match contributed.checked_div(self.supply_proofs_amount) {
            Some(quotient) => quotient,
            None => {
                return Err(PoolError::Overflow);
            },
        };
        let lsus_share = match fraction.checked_mul(self.final_lsus) {
            Some(product) => product,
            None => {
                return Err(PoolError::Overflow);
            },
        };
        let earnings_share = match fraction.checked_mul(self.final_earnings) {
            Some(product) => product,
            None => {
                return Err(PoolError::Overflow);
            },
        };
        if lsus_share.is_negative() || !lsus_share.at_most(&self.lsus)
            || earnings_share.is_negative() || !earnings_share.at_most(&self.earnings) {
            return Err(PoolError::InsufficientBalance);
        }
        let lsus_left = self.lsus.checked_sub(lsus_share).unwrap();
        let earnings_left = self.earnings.checked_sub(earnings_share).unwrap();
        let ghost before = self@;
        self.ledger.mark_used(supply_proof_receipt.id);
        self.ledger.burn(supply_proof_receipt.id);
        self.lsus = lsus_left;
        self.earnings = earnings_left;
        proof {
            assert(self@.receipts =~= before.receipts.update(supply_proof_receipt.id as int, None));
        }
        Ok((lsus_share, earnings_share))
    }

    /// The current stage number.
    pub fn process_stage(&self) -> (r: u8)
        ensures
            r == self@.stage,
    {
        self.stage.current_stage()
    }

    /// The resource whose non-fungibles the pool accepts as claims.
    pub fn accepted_kind(&self) -> (r: ResourceAddress)
        ensures
            r == self@.accepted_kind,
    {
        self.accepted_kind
    }

    /// The resource of the receipts the pool issues.
    pub fn receipt_kind(&self) -> (r: ResourceAddress)
        ensures
            r == self@.receipt_kind,
    {
        self.receipt_kind
    }

    /// The running total of the contributed amounts.
    pub fn supply_proofs_amount(&self) -> (r: Amount)
        ensures
            r@ == self@.supply_proofs_amount,
    {
        self.supply_proofs_amount
    }

    /// How many receipts the pool has issued so far.
    pub fn supply_proofs_counter(&self) -> (r: u64)
        ensures
            r == self@.receipts.len(),
    {
        self.ledger.issued()
    }

    /// How many registered claims have been processed.
    pub fn saving_counter(&self) -> (r: usize)
        ensures
            r == self@.saving_counter,
    {
        self.saving_counter
    }

    /// How many claims are registered.
    pub fn kvs_entries(&self) -> (r: usize)
        ensures
            r == self@.registry.len(),
    {
        self.registry.len()
    }

    /// What the earnings pool holds.
    pub fn earnings(&self) -> (r: Amount)
        ensures
            r@ == self@.earnings,
    {
        self.earnings
    }

    /// What the secondary-asset pool holds.
    pub fn lsus(&self) -> (r: Amount)
        ensures
            r@ == self@.lsus,
    {
        self.lsus
    }

    /// The earnings pool as it stood when processing was finished.
    pub fn final_earnings(&self) -> (r: Amount)
        ensures
            r@ == self@.final_earnings,
    {
        self.final_earnings
    }

    /// The secondary-asset pool as it stood when processing was finished.
    pub fn final_lsus(&self) -> (r: Amount)
        ensures
            r@ == self@.final_lsus,
    {
        self.final_lsus
    }

    /// The claim registered at `position`, if the position is occupied.
    pub fn registered_claim(&self, position: usize) -> (r: Option<&NonFungibleLocalId>)
        ensures
            position < self@.registry.len() ==> r == Some(&self@.registry[position as int]),
            position >= self@.registry.len() ==> r is None,
    {
        self.registry.get(position)
    }

    /// The record of receipt number `id`, if that receipt is live.
    pub fn receipt_data(&self, id: u64) -> (r: Option<&ReceiptData>)
        ensures
            match r {
                Some(data) => live_receipt(self@.receipts, id as int) == Some(*data),
                None => live_receipt(self@.receipts, id as int) is None,
            },
    {
        self.ledger.read(id)
    }
}

} // verus!
