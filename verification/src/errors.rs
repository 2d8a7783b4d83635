//! Why the pool rejects an operation.

use vstd::prelude::*;

verus! {

/// The reason an operation was rejected. A rejected operation changes nothing.
#[derive(Clone, Copy, Debug, PartialEq, Eq, Structural)]
pub enum PoolError {
    /// The operation is not open in the current stage.
    WrongStage,
    /// The claim is not of the kind the pool accepts.
    InvalidClaimKind,
    /// The receipt is not of the pool's kind, or names no live receipt.
    InvalidReceipt,
    /// The registry holds nothing at the given position.
    NotFound,
    /// The processing cursor has passed the last registered claim.
    OutOfRange,
    /// A share is negative or exceeds what its pool still holds.
    InsufficientBalance,
    /// A decimal result has no 192-bit representation, a share was to be
    /// taken of a zero supply, or the pool has run out of receipt numbers.
    Overflow,
}

impl PoolError {
    /// The text that describes each error.
    pub open spec fn text(self) -> &'static str {
        match self {
            PoolError::WrongStage => "operation not open in the current stage",
            PoolError::InvalidClaimKind => "claim is not of the accepted kind",
            PoolError::InvalidReceipt => "receipt is not valid",
            PoolError::NotFound => "no registry entry at that position",
            PoolError::OutOfRange => "processing cursor is past the last claim",
            PoolError::InsufficientBalance => "share exceeds the pool balance",
            PoolError::Overflow => "result is not representable",
        }
    }

    /// A short description of the error.
    pub fn message(&self) -> (r: &'static str)
        ensures
            r == self.text(),
    {
        match self {
            PoolError::WrongStage => "operation not open in the current stage",
            PoolError::InvalidClaimKind => "claim is not of the accepted kind",
            PoolError::InvalidReceipt => "receipt is not valid",
            PoolError::NotFound => "no registry entry at that position",
            PoolError::OutOfRange => "processing cursor is past the last claim",
            PoolError::InsufficientBalance => "share exceeds the pool balance",
            PoolError::Overflow => "result is not representable",
        }
    }
}

} // verus!
