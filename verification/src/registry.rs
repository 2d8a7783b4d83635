//! The compacting registry of claims that await processing.

use crate::assets::copy_of_id;
use crate::errors::PoolError;
use scrypto::prelude::NonFungibleLocalId;
use vstd::prelude::*;

verus! {

/// What a registry holds after the entry at `position` is taken out: the last
/// entry fills the freed slot and the registry shrinks by one.
pub open spec fn compacted<T>(entries: Seq<T>, position: int) -> Seq<T>
    recommends
        0 <= position < entries.len(),
{
    entries.update(position, entries.last()).drop_last()
}

/// The entry that moves when `position` is freed, with its new position, or
/// nothing when the freed slot was the last one.
pub open spec fn relocated(entries: Seq<NonFungibleLocalId>, position: usize) -> Option<
    (NonFungibleLocalId, usize),
>
    recommends
        position < entries.len(),
{
    if position + 1 == entries.len() {
        None
    } else {
        Some((entries.last(), position))
    }
}

/// Claim identifiers at the dense positions `0 .. len`.
#[derive(Debug)]
pub struct ClaimRegistry {
    entries: Vec<NonFungibleLocalId>,
}

impl View for ClaimRegistry {
    type V = Seq<NonFungibleLocalId>;

    /// The identifiers by position.
    closed spec fn view(&self) -> Seq<NonFungibleLocalId> {
        self.entries@
    }
}

impl ClaimRegistry {
    /// An empty registry.
    pub fn new() -> (r: ClaimRegistry)
        ensures
            r@ == Seq::<NonFungibleLocalId>::empty(),
    {
        ClaimRegistry { entries: Vec::new() }
    }

    /// The registry that holds `entries`, by position.
    pub fn from_entries(entries: Vec<NonFungibleLocalId>) -> (r: ClaimRegistry)
        ensures
            r@ == entries@,
    {
        ClaimRegistry { entries }
    }

    /// The registered identifiers, by position.
    pub fn into_entries(self) -> (r: Vec<NonFungibleLocalId>)
        ensures
            r@ == self@,
    {
        self.entries
    }

    /// The number of occupied positions fits a machine word.
    pub proof fn lemma_len_fits(&self)
        ensures
            self@.len() <= usize::MAX,
    {
        assert(self.entries.len() == self.entries@.len());
    }

    /// The number of occupied positions.
    pub fn len(&self) -> (r: usize)
        ensures
            r == self@.len(),
    {
        self.entries.len()
    }

    /// The identifier at `position`, if the position is occupied.
    pub fn get(&self, position: usize) -> (r: Option<&NonFungibleLocalId>)
        ensures
            position < self@.len() ==> r == Some(&self@[position as int]),
            position >= self@.len() ==> r is None,
    {
        if position < self.entries.len() {
            Some(&self.entries[position])
        } else {
            None
        }
    }

    /// Appends an identifier and returns the position it was given.
    pub fn register(&mut self, claim_identifier: NonFungibleLocalId) -> (position: usize)
        ensures
            position == old(self)@.len(),
            final(self)@ == old(self)@.push(claim_identifier),
    {
        let position = self.entries.len();
        self.entries.push(claim_identifier);
        position
    }

    /// Takes out the entry at `position`. Unless it was the last entry, the
    /// last entry moves into the freed slot; the result then names the moved
    /// identifier and its new position, so that the caller can correct the
    /// record that points at it.
    pub fn unregister(&mut self, position: usize) -> (r: Result<
        (NonFungibleLocalId, Option<(NonFungibleLocalId, usize)>),
        PoolError,
    >)
        ensures
            position < old(self)@.len() ==> r == Ok::<
                (NonFungibleLocalId, Option<(NonFungibleLocalId, usize)>),
                PoolError,
            >((old(self)@[position as int], relocated(old(self)@, position))) && final(self)@
                == compacted(old(self)@, position as int),
            position >= old(self)@.len() ==> r == Err::<
                (NonFungibleLocalId, Option<(NonFungibleLocalId, usize)>),
                PoolError,
            >(PoolError::NotFound) && final(self)@ == old(self)@,
    {
        if position >= self.entries.len() {
            return Err(PoolError::NotFound);
        }
        let removed = self.entries.swap_remove(position);
        if position < self.entries.len() {
            let moved = copy_of_id(&self.entries[position]);
            Ok((removed, Some((moved, position))))
        } else {
            Ok((removed, None))
        }
    }

    /// The identifier at `cursor`, the next one to process.
    pub fn next_for_processing(&self, cursor: usize) -> (r: Result<NonFungibleLocalId, PoolError>)
        ensures
            cursor < self@.len() ==> r == Ok::<NonFungibleLocalId, PoolError>(self@[cursor as int]),
            cursor >= self@.len() ==> r == Err::<NonFungibleLocalId, PoolError>(
                PoolError::OutOfRange,
            ),
    {
        if cursor < self.entries.len() {
            Ok(copy_of_id(&self.entries[cursor]))
        } else {
            Err(PoolError::OutOfRange)
        }
    }
}

} // verus!
