//! Claims and receipts as the pool sees them.
//!
//! Resource addresses and non-fungible identifiers are `scrypto` values. The
//! pool never looks inside them: it stores them, hands them back, and asks
//! whether two addresses are the same.

use crate::amount::Amount;
use scrypto::prelude::{NonFungibleLocalId, ResourceAddress};
use vstd::prelude::*;

verus! {

/// `scrypto`'s address of a resource, carried as an opaque value.
#[verifier::external_type_specification]
#[verifier::external_body]
pub struct ExResourceAddress(scrypto::prelude::ResourceAddress);

/// `scrypto`'s local identifier of a non-fungible, carried as an opaque value.
#[verifier::external_type_specification]
#[verifier::external_body]
pub struct ExNonFungibleLocalId(scrypto::prelude::NonFungibleLocalId);

/// Calls `==` of `ResourceAddress`, which `scrypto` derives over the
/// address's bytes: the result is true exactly when the two are the same
/// address.
#[verifier::external_body]
pub(crate) fn same_resource(a: &ResourceAddress, b: &ResourceAddress) -> (r: bool)
    ensures
        r == (*a == *b),
{
    a == b
}

/// Calls `==` of `NonFungibleLocalId`, which `scrypto` derives over the
/// identifier's variant and content: the result is true exactly when the
/// two are the same identifier.
#[verifier::external_body]
pub(crate) fn same_id(a: &NonFungibleLocalId, b: &NonFungibleLocalId) -> (r: bool)
    ensures
        r == (*a == *b),
{
    a == b
}

/// Calls `clone` of `NonFungibleLocalId`, which `scrypto` derives: the result
/// is the same identifier.
#[verifier::external_body]
pub(crate) fn copy_of_id(id: &NonFungibleLocalId) -> (r: NonFungibleLocalId)
    ensures
        r == *id,
{
    id.clone()
}

/// A deposited asset: its resource, its identifier within that resource, and
/// the amount it stands for.
#[derive(Debug, PartialEq, Eq)]
pub struct Claim {
    pub kind: ResourceAddress,
    pub id: NonFungibleLocalId,
    pub amount: Amount,
}

/// A receipt as a depositor presents it: the receipt resource and the
/// receipt's number within it.
#[derive(Clone, Copy, Debug, PartialEq, Eq)]
pub struct Receipt {
    pub kind: ResourceAddress,
    pub id: u64,
}

/// The receipt whose claim moved when a registry slot was freed, the moved
/// claim, and the position it now occupies.
#[derive(Debug, PartialEq, Eq)]
pub struct Relocation {
    pub receipt: u64,
    pub claim_identifier: NonFungibleLocalId,
    pub position: usize,
}

/// What a withdrawal hands back: the claim, and the relocation that the
/// compaction of the registry caused, if any.
#[derive(Debug, PartialEq, Eq)]
pub struct Withdrawal {
    pub claim: Claim,
    pub relocated: Option<Relocation>,
}

} // verus!
