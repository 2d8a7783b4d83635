//! The ledger of receipts: one record per deposited claim, created at
//! deposit and destroyed at withdrawal or redemption.

use crate::amount::Amount;
use scrypto::prelude::NonFungibleLocalId;
use vstd::prelude::*;

verus! {

/// What a receipt records about the claim it was issued for.
#[derive(Debug, PartialEq, Eq)]
pub struct ReceiptData {
    /// The amount the claim stood for when it was deposited.
    pub contributed_amount: Amount,
    /// The identifier of the deposited claim.
    pub claim_identifier: NonFungibleLocalId,
    /// The registry position at which the claim currently sits.
    pub registry_position: usize,
    /// False until the receipt is redeemed.
    pub used: bool,
}

/// The record a live receipt number stands for, or nothing when the number
/// was never issued or its receipt has been destroyed.
pub open spec fn live_receipt(slots: Seq<Option<ReceiptData>>, id: int) -> Option<ReceiptData> {
    if 0 <= id < slots.len() {
        slots[id]
    } else {
        None
    }
}

/// The contribution that a ledger slot counts for: the recorded amount of a
/// live receipt, zero for a destroyed one.
pub open spec fn contribution(slot: Option<ReceiptData>) -> int {
    match slot {
        Some(data) => data.contributed_amount@,
        None => 0,
    }
}

/// The sum of the contributed amounts of all live receipts.
pub open spec fn active_contributions(slots: Seq<Option<ReceiptData>>) -> int
    decreases slots.len(),
{
    if slots.len() == 0 {
        0
    } else {
        active_contributions(slots.drop_last()) + contribution(slots.last())
    }
}

/// Issuing a receipt adds its contribution to the sum.
pub proof fn lemma_contributions_after_push(
    slots: Seq<Option<ReceiptData>>,
    slot: Option<ReceiptData>,
)
    ensures
        active_contributions(slots.push(slot)) == active_contributions(slots) + contribution(slot),
{
    assert(slots.push(slot).drop_last() =~= slots);
}

/// Replacing one slot changes the sum by the difference of the two
/// contributions.
pub proof fn lemma_contributions_after_update(
    slots: Seq<Option<ReceiptData>>,
    id: int,
    slot: Option<ReceiptData>,
)
    requires
        0 <= id < slots.len(),
    ensures
        active_contributions(slots.update(id, slot)) == active_contributions(slots) - contribution(
            slots[id],
        ) + contribution(slot),
    decreases slots.len(),
{
    if id == slots.len() - 1 {
        assert(slots.update(id, slot).drop_last() =~= slots.drop_last());
    } else {
        lemma_contributions_after_update(slots.drop_last(), id, slot);
        assert(slots.update(id, slot).drop_last() =~= slots.drop_last().update(id, slot));
    }
}

/// Receipt records by receipt number. Numbers are issued in sequence and
/// never reused; the slot of a destroyed receipt stays empty.
#[derive(Debug)]
pub struct ReceiptLedger {
    slots: Vec<Option<ReceiptData>>,
}

impl View for ReceiptLedger {
    type V = Seq<Option<ReceiptData>>;

    /// The slots by receipt number.
    closed spec fn view(&self) -> Seq<Option<ReceiptData>> {
        self.slots@
    }
}

impl ReceiptLedger {
    /// A ledger in which no receipt has been issued.
    pub fn new() -> (r: ReceiptLedger)
        ensures
            r@ == Seq::<Option<ReceiptData>>::empty(),
    {
        ReceiptLedger { slots: Vec::new() }
    }

    /// The ledger that holds `slots`, by receipt number.
    pub fn from_slots(slots: Vec<Option<ReceiptData>>) -> (r: ReceiptLedger)
        ensures
            r@ == slots@,
    {
        ReceiptLedger { slots }
    }

    /// The slots of the ledger, by receipt number.
    pub fn into_slots(self) -> (r: Vec<Option<ReceiptData>>)
        ensures
            r@ == self@,
    {
        self.slots
    }

    /// How many receipts have been issued so far, which is the number the
    /// next receipt will get.
    pub fn issued(&self) -> (r: u64)
        ensures
            r == self@.len(),
    {
        self.slots.len() as u64
    }

    /// Creates a receipt with the given record and returns its number.
    pub fn mint(&mut self, data: ReceiptData) -> (id: u64)
        ensures
            id == old(self)@.len(),
            final(self)@ == old(self)@.push(Some(data)),
    {
        let id = self.slots.len() as u64;
        self.slots.push(Some(data));
        id
    }

    /// The record of receipt `id`, if that receipt is live.
    pub fn read(&self, id: u64) -> (r: Option<&ReceiptData>)
        ensures
            match r {
                Some(data) => live_receipt(self@, id as int) == Some(*data),
                None => live_receipt(self@, id as int) is None,
            },
    {
        if id < self.slots.len() as u64 {
            self.slots[id as usize].as_ref()
        } else {
            None
        }
    }

    /// Records a new registry position in receipt `id`. Returns whether the
    /// receipt is live; nothing changes when it is not.
    pub fn set_position(&mut self, id: u64, position: usize) -> (r: bool)
        ensures
            r == (live_receipt(old(self)@, id as int) is Some),
            r ==> final(self)@ == old(self)@.update(
                id as int,
                Some(
                    ReceiptData {
                        registry_position: position,
                        ..live_receipt(old(self)@, id as int)->0
                    },
                ),
            ),
            !r ==> final(self)@ == old(self)@,
    {
        if id >= self.slots.len() as u64 {
            return false;
        }
        let index = id as usize;
        match self.slots[index].take() {
            Some(data) => {
                self.slots.set(index, Some(ReceiptData { registry_position: position, ..data }));
                true
            },
            None => false,
        }
    }

    /// Marks receipt `id` as used. Returns whether the receipt is live;
    /// nothing changes when it is not.
    pub fn mark_used(&mut self, id: u64) -> (r: bool)
        ensures
            r == (live_receipt(old(self)@, id as int) is Some),
            r ==> final(self)@ == old(self)@.update(
                id as int,
                Some(ReceiptData { used: true, ..live_receipt(old(self)@, id as int)->0 }),
            ),
            !r ==> final(self)@ == old(self)@,
    {
        if id >= self.slots.len() as u64 {
            return false;
        }
        let index = id as usize;
        match self.slots[index].take() {
            Some(data) => {
                self.slots.set(index, Some(ReceiptData { used: true, ..data }));
                true
            },
            None => false,
        }
    }

    /// Destroys receipt `id` and returns its record, if the receipt is live;
    /// nothing changes when it is not.
    pub fn burn(&mut self, id: u64) -> (r: Option<ReceiptData>)
        ensures
            r == live_receipt(old(self)@, id as int),
            r is Some ==> final(self)@ == old(self)@.update(id as int, None),
            r is None ==> final(self)@ == old(self)@,
    {
        if id >= self.slots.len() as u64 {
            return None;
        }
        let index = id as usize;
        self.slots[index].take()
    }
}

} // verus!
