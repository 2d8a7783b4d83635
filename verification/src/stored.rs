//! The pool laid out as plain parts, as it is stored between calls, and the
//! test that tells whether stored parts make up a pool.

use crate::amount::{representable, Amount};
use crate::assets::same_id;
use crate::ledger::{active_contributions, contribution, live_receipt, ReceiptData};
use crate::state::PoolState;
use scrypto::prelude::{NonFungibleLocalId, ResourceAddress};
use vstd::prelude::*;

verus! {

/// The fields of a pool.
#[derive(Debug)]
pub struct GablingParts {
    pub accepted_kind: ResourceAddress,
    pub receipt_kind: ResourceAddress,
    pub process_stage: u8,
    pub registry: Vec<NonFungibleLocalId>,
    pub holders: Vec<u64>,
    pub receipts: Vec<Option<ReceiptData>>,
    pub supply_proofs_amount: Amount,
    pub saving_counter: usize,
    pub earnings: Amount,
    pub lsus: Amount,
    pub final_earnings: Amount,
    pub final_lsus: Amount,
}

impl View for GablingParts {
    type V = PoolState;

    /// The abstract state that the parts describe.
    open spec fn view(&self) -> PoolState {
        PoolState {
            accepted_kind: self.accepted_kind,
            receipt_kind: self.receipt_kind,
            stage: self.process_stage as int,
            registry: self.registry@,
            holders: self.holders@,
            receipts: self.receipts@,
            supply_proofs_amount: self.supply_proofs_amount@,
            saving_counter: self.saving_counter as int,
            earnings: self.earnings@,
            lsus: self.lsus@,
            final_earnings: self.final_earnings@,
            final_lsus: self.final_lsus@,
        }
    }
}

/// Whether the live contributions can be added up from the first receipt
/// to the last without any partial sum leaving the representable range.
pub open spec fn summable(slots: Seq<Option<ReceiptData>>) -> bool
    decreases slots.len(),
{
    slots.len() == 0 || (summable(slots.drop_last()) && representable(active_contributions(slots)))
}

/// If a ledger is summable, so is each of its prefixes.
pub proof fn lemma_prefix_is_summable(slots: Seq<Option<ReceiptData>>, n: int)
    requires
        summable(slots),
        0 <= n <= slots.len(),
    ensures
        summable(slots.take(n)),
    decreases slots.len(),
{
    if n == slots.len() {
        assert(slots.take(n) =~= slots);
    } else {
        lemma_prefix_is_summable(slots.drop_last(), n);
        assert(slots.drop_last().take(n) =~= slots.take(n));
    }
}

/// A ledger without a contribution below zero is summable as soon as the
/// sum of its live contributions is representable.
pub proof fn law_non_negative_ledger_is_summable(slots: Seq<Option<ReceiptData>>)
    requires
        forall|id: int| 0 <= id < slots.len() ==> contribution(#[trigger] slots[id]) >= 0,
        representable(active_contributions(slots)),
    ensures
        summable(slots),
        0 <= active_contributions(slots),
    decreases slots.len(),
{
    if slots.len() > 0 {
        let rest = slots.drop_last();
        lemma_sum_of_non_negatives(rest);
        law_non_negative_ledger_is_summable(rest);
    }
}

/// The live contributions of a ledger without a contribution below zero add
/// up to no less than zero.
pub proof fn lemma_sum_of_non_negatives(slots: Seq<Option<ReceiptData>>)
    requires
        forall|id: int| 0 <= id < slots.len() ==> contribution(#[trigger] slots[id]) >= 0,
    ensures
        0 <= active_contributions(slots),
    decreases slots.len(),
{
    if slots.len() > 0 {
        lemma_sum_of_non_negatives(slots.drop_last());
    }
}

impl GablingParts {
    /// Whether the parts make up a pool whose supply can be checked against
    /// its receipts.
    pub open spec fn valid(&self) -> bool {
        self@.inv() && (self.process_stage <= 1 ==> summable(self.receipts@))
    }

    /// Whether every live receipt records the registry position at which
    /// its claim sits, is the holder of that position, and is unused.
    fn receipts_sit_in_their_slots(&self) -> (r: bool)
        requires
            self.holders@.len() == self.registry@.len(),
        ensures
            r == self@.receipts_sit_in_their_slots(),
    {
        let mut id: usize = 0;
        while id < self.receipts.len()
            invariant
                id <= self.receipts@.len(),
                self.holders@.len() == self.registry@.len(),
                forall|j: int|
                    0 <= j < id && (#[trigger] self.receipts@[j]) is Some ==> {
                        let data = self.receipts@[j]->0;
                        &&& data.registry_position < self.registry@.len()
                        &&& self.holders@[data.registry_position as int] == j
                        &&& self.registry@[data.registry_position as int] == data.claim_identifier
                        &&& !data.used
                    },
            decreases self.receipts@.len() - id,
        {
            match &self.receipts[id] {
                Some(data) => {
                    let position = data.registry_position;
                    if position >= self.registry.len() || self.holders[position] != id as u64
                        || !same_id(&self.registry[position], &data.claim_identifier) || data.used {
                        return false;
                    }
                },
                None => {},
            }
            id = id + 1;
        }
        true
    }

    /// Whether every registry position is held by a live receipt that
    /// records it.
    fn slots_have_live_holders(&self) -> (r: bool)
        requires
            self.holders@.len() == self.registry@.len(),
        ensures
            r == self@.slots_have_live_holders(),
    {
        let mut position: usize = 0;
        while position < self.registry.len()
            invariant
                position <= self.registry@.len(),
                self.holders@.len() == self.registry@.len(),
                forall|p: int|
                    0 <= p < position ==> {
                        let holder = #[trigger] self.holders@[p];
                        &&& live_receipt(self.receipts@, holder as int) is Some
                        &&& live_receipt(self.receipts@, holder as int)->0.registry_position == p
                    },
            decreases self.registry@.len() - position,
        {
            let holder = self.holders[position];
            if holder >= self.receipts.len() as u64 {
                return false;
            }
            match &self.receipts[holder as usize] {
                Some(data) => {
                    if data.registry_position != position {
                        return false;
                    }
                },
                None => {
                    return false;
                },
            }
            position = position + 1;
        }
        true
    }

    /// Whether the contributions of the live receipts can be added up, and
    /// add up to the recorded supply.
    fn contributions_add_up(&self) -> (r: bool)
        ensures
            r == (summable(self.receipts@) && active_contributions(self.receipts@)
                == self.supply_proofs_amount@),
    {
        let mut sum = Amount::zero();
        let mut id: usize = 0;
        while id < self.receipts.len()
            invariant
                id <= self.receipts@.len(),
                summable(self.receipts@.take(id as int)),
                sum@ == active_contributions(self.receipts@.take(id as int)),
            decreases self.receipts@.len() - id,
        {
            proof {
                let next = self.receipts@.take(id + 1);
                assert(next.drop_last() =~= self.receipts@.take(id as int));
            }
            match &self.receipts[id] {
                Some(data) => {
                    match sum.checked_add(data.contributed_amount) {
                        Some(total) => {
                            sum = total;
                        },
                        None => {
                            proof {
                                if summable(self.receipts@) {
                                    lemma_prefix_is_summable(self.receipts@, id + 1);
                                }
                            }
                            return false;
                        },
                    }
                },
                None => {},
            }
            id = id + 1;
        }
        assert(self.receipts@.take(id as int) =~= self.receipts@);
        sum == self.supply_proofs_amount
    }

    /// Tests whether the parts make up a pool.
    pub fn is_valid(&self) -> (r: bool)
        ensures
            r == self.valid(),
    {
        proof {
            assert(self.receipts@.len() == self.receipts.len());
        }
        if self.process_stage > 2 || self.holders.len() != self.registry.len()
            || self.saving_counter > self.registry.len() {
            return false;
        }
        if self.process_stage == 0 && (self.saving_counter != 0 || !self.earnings.is_zero()
            || !self.lsus.is_zero()) {
            return false;
        }
        if self.process_stage <= 1 && (!self.final_earnings.is_zero()
            || !self.final_lsus.is_zero()) {
            return false;
        }
        if !self.receipts_sit_in_their_slots() {
            return false;
        }
        if self.process_stage <= 1 {
            if !self.slots_have_live_holders() {
                return false;
            }
            if !self.contributions_add_up() {
                return false;
            }
        }
        true
    }
}

} // verus!
