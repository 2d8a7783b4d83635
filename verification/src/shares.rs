//! The arithmetic of proportional shares.

use crate::amount::{attos_per_unit, decimal_product, decimal_quotient};
use crate::ledger::{active_contributions, contribution, ReceiptData};
use vstd::prelude::*;

verus! {

/// The share of `pool_total` owed to a contribution of `contributed` out of
/// `supply`: the fixed-point quotient of the two, times the pool total.
pub open spec fn share(contributed: int, supply: int, pool_total: int) -> int {
    decimal_product(decimal_quotient(contributed, supply), pool_total)
}

/// The share of `pool_total` that a ledger slot counts for: that of a live
/// receipt's contribution, zero for a destroyed one.
pub open spec fn slot_share(slot: Option<ReceiptData>, supply: int, pool_total: int) -> int {
    match slot {
        Some(data) => share(data.contributed_amount@, supply, pool_total),
        None => 0,
    }
}

/// The sum of the shares of `pool_total` owed to all live receipts.
pub open spec fn owed(slots: Seq<Option<ReceiptData>>, supply: int, pool_total: int) -> int
    decreases slots.len(),
{
    if slots.len() == 0 {
        0
    } else {
        owed(slots.drop_last(), supply, pool_total) + slot_share(slots.last(), supply, pool_total)
    }
}

/// Whether no live receipt records a contribution below zero.
pub open spec fn no_negative_contribution(slots: Seq<Option<ReceiptData>>) -> bool {
    forall|id: int| 0 <= id < slots.len() ==> contribution(#[trigger] slots[id]) >= 0
}

/// The fixed-point quotient of a non-negative contribution and a positive
/// supply is the floor of the scaled ratio: it is not negative, and times
/// the supply it does not exceed the scaled contribution.
pub proof fn lemma_fraction_bounds(contributed: int, supply: int)
    requires
        0 <= contributed,
        0 < supply,
    ensures
        0 <= decimal_quotient(contributed, supply),
        decimal_quotient(contributed, supply) * supply <= contributed * attos_per_unit(),
        contributed <= supply ==> decimal_quotient(contributed, supply) <= attos_per_unit(),
{
    let scaled = contributed * attos_per_unit();
    assert(0 <= scaled) by (nonlinear_arith)
        requires
            0 <= contributed,
            scaled == contributed * 1_000_000_000_000_000_000,
    ;
    let q = scaled / supply;
    assert(decimal_quotient(contributed, supply) == q);
    assert(0 <= q && q * supply <= scaled) by (nonlinear_arith)
        requires
            0 <= scaled,
            0 < supply,
            q == scaled / supply,
    ;
    if contributed <= supply {
        assert(q <= 1_000_000_000_000_000_000) by (nonlinear_arith)
            requires
                0 <= contributed <= supply,
                0 < supply,
                scaled == contributed * 1_000_000_000_000_000_000,
                q == scaled / supply,
        ;
    }
}

/// The share owed to a non-negative contribution out of a positive supply
/// and a non-negative pool total is not negative, and scaled by the supply
/// it does not exceed the contribution scaled by the pool total.
pub proof fn lemma_share_bounds(contributed: int, supply: int, pool_total: int)
    requires
        0 <= contributed,
        0 < supply,
        0 <= pool_total,
    ensures
        0 <= share(contributed, supply, pool_total),
        share(contributed, supply, pool_total) * (attos_per_unit() * supply) <= contributed * (
        attos_per_unit() * pool_total),
        contributed <= supply ==> share(contributed, supply, pool_total) <= pool_total,
{
    lemma_fraction_bounds(contributed, supply);
    let unit = attos_per_unit();
    let q = decimal_quotient(contributed, supply);
    let s = (q * pool_total) / unit;
    assert(0 <= q * pool_total) by (nonlinear_arith)
        requires
            0 <= q,
            0 <= pool_total,
    ;
    assert(share(contributed, supply, pool_total) == s);
    assert(0 <= s && s * unit <= q * pool_total) by (nonlinear_arith)
        requires
            0 <= q * pool_total,
            unit == 1_000_000_000_000_000_000,
            s == (q * pool_total) / unit,
    ;
    assert(s * (unit * supply) <= contributed * (unit * pool_total)) by (nonlinear_arith)
        requires
            s * unit <= q * pool_total,
            q * supply <= contributed * unit,
            0 <= pool_total,
            0 < supply,
            0 <= s,
            0 <= q,
    ;
    if contributed <= supply {
        assert(s <= pool_total) by (nonlinear_arith)
            requires
                0 <= q <= unit,
                0 <= pool_total,
                unit == 1_000_000_000_000_000_000,
                s == (q * pool_total) / unit,
        ;
    }
}

/// With no contribution below zero, the live contributions and the shares
/// owed to them are not negative, and no single one exceeds the sum.
pub proof fn lemma_sums_dominate_their_terms(
    slots: Seq<Option<ReceiptData>>,
    supply: int,
    pool_total: int,
    id: int,
)
    requires
        no_negative_contribution(slots),
        0 < supply,
        0 <= pool_total,
        0 <= id < slots.len(),
    ensures
        0 <= contribution(slots[id]) <= active_contributions(slots),
        0 <= slot_share(slots[id], supply, pool_total) <= owed(slots, supply, pool_total),
    decreases slots.len(),
{
    lemma_sums_are_not_negative(slots.drop_last(), supply, pool_total);
    if slots.last() is Some {
        lemma_share_bounds(contribution(slots.last()), supply, pool_total);
    }
    if id < slots.len() - 1 {
        lemma_sums_dominate_their_terms(slots.drop_last(), supply, pool_total, id);
    }
}

/// With no contribution below zero, the sum of the live contributions and
/// the sum of the shares owed to them are not negative.
pub proof fn lemma_sums_are_not_negative(
    slots: Seq<Option<ReceiptData>>,
    supply: int,
    pool_total: int,
)
    requires
        no_negative_contribution(slots),
        0 < supply,
        0 <= pool_total,
    ensures
        0 <= active_contributions(slots),
        0 <= owed(slots, supply, pool_total),
    decreases slots.len(),
{
    if slots.len() > 0 {
        lemma_sums_are_not_negative(slots.drop_last(), supply, pool_total);
        if slots.last() is Some {
            lemma_share_bounds(contribution(slots.last()), supply, pool_total);
        }
    }
}

/// Scaled by the supply, the shares owed to the live receipts do not exceed
/// their contributions scaled by the pool total.
pub proof fn lemma_owed_scaled(slots: Seq<Option<ReceiptData>>, supply: int, pool_total: int)
    requires
        no_negative_contribution(slots),
        0 < supply,
        0 <= pool_total,
    ensures
        owed(slots, supply, pool_total) * (attos_per_unit() * supply) <= active_contributions(slots)
            * (attos_per_unit() * pool_total),
    decreases slots.len(),
{
    if slots.len() > 0 {
        let rest = slots.drop_last();
        lemma_owed_scaled(rest, supply, pool_total);
        let k = attos_per_unit() * supply;
        let m = attos_per_unit() * pool_total;
        let s = slot_share(slots.last(), supply, pool_total);
        let c = contribution(slots.last());
        if slots.last() is Some {
            lemma_share_bounds(c, supply, pool_total);
        }
        assert(s * k <= c * m) by (nonlinear_arith)
            requires
                slots.last() is Some ==> s * k <= c * m,
                slots.last() is None ==> s == 0 && c == 0,
        ;
        let o = owed(rest, supply, pool_total);
        let a = active_contributions(rest);
        assert((o + s) * k <= (a + c) * m) by (nonlinear_arith)
            requires
                o * k <= a * m,
                s * k <= c * m,
        ;
    }
}

/// The shares owed to the live receipts never add up to more than the pool
/// total, provided that no contribution is below zero, that the
/// contributions add up to no more than the supply, and that the supply is
/// positive and the pool total not negative.
pub proof fn lemma_owed_within_pool_total(
    slots: Seq<Option<ReceiptData>>,
    supply: int,
    pool_total: int,
)
    requires
        no_negative_contribution(slots),
        active_contributions(slots) <= supply,
        0 < supply,
        0 <= pool_total,
    ensures
        0 <= owed(slots, supply, pool_total) <= pool_total,
{
    lemma_owed_scaled(slots, supply, pool_total);
    lemma_sums_are_not_negative(slots, supply, pool_total);
    let o = owed(slots, supply, pool_total);
    let a = active_contributions(slots);
    let unit = attos_per_unit();
    assert(o <= pool_total) by (nonlinear_arith)
        requires
            o * (unit * supply) <= a * (unit * pool_total),
            0 <= a <= supply,
            0 < supply,
            0 <= pool_total,
            0 <= o,
            unit == 1_000_000_000_000_000_000,
    ;
}

/// Replacing one slot changes the shares owed by the difference of the two
/// slots' shares.
pub proof fn lemma_owed_after_update(
    slots: Seq<Option<ReceiptData>>,
    supply: int,
    pool_total: int,
    id: int,
    slot: Option<ReceiptData>,
)
    requires
        0 <= id < slots.len(),
    ensures
        owed(slots.update(id, slot), supply, pool_total) == owed(slots, supply, pool_total)
            - slot_share(slots[id], supply, pool_total) + slot_share(slot, supply, pool_total),
    decreases slots.len(),
{
    if id == slots.len() - 1 {
        assert(slots.update(id, slot).drop_last() =~= slots.drop_last());
    } else {
        lemma_owed_after_update(slots.drop_last(), supply, pool_total, id, slot);
        assert(slots.update(id, slot).drop_last() =~= slots.drop_last().update(id, slot));
    }
}

} // verus!
