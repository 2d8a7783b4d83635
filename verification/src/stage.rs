//! The stage gate: deposits, then processing, then redemption.

use crate::errors::PoolError;
use vstd::prelude::*;

verus! {

/// Stage in which claims are deposited and withdrawn.
pub const STAGE_DEPOSIT: u8 = 0;

/// Stage in which the operator drains the registered claims.
pub const STAGE_PROCESSING: u8 = 1;

/// Stage in which depositors redeem their shares.
pub const STAGE_REDEMPTION: u8 = 2;

/// Owner of the pool's single stage number. It starts at 0 and only ever
/// moves from 0 to 1 and from 1 to 2.
#[derive(Debug)]
pub struct StageController {
    stage: u8,
}

impl View for StageController {
    type V = int;

    /// The stage number.
    closed spec fn view(&self) -> int {
        self.stage as int
    }
}

impl StageController {
    /// A controller in the deposit stage.
    pub fn new() -> (r: StageController)
        ensures
            r@ == 0,
    {
        StageController { stage: STAGE_DEPOSIT }
    }

    /// A controller standing at a stored stage number, if that number names
    /// a stage.
    pub fn restore(stage: u8) -> (r: Option<StageController>)
        ensures
            stage <= 2 ==> r is Some && r->0@ == stage,
            stage > 2 ==> r is None,
    {
        if stage <= STAGE_REDEMPTION {
            Some(StageController { stage })
        } else {
            None
        }
    }

    /// The current stage number.
    pub fn current_stage(&self) -> (r: u8)
        ensures
            r == self@,
    {
        self.stage
    }

    /// Moves from the deposit stage to the processing stage. In any other
    /// stage the call is rejected and nothing changes.
    pub fn advance_to_processing(&mut self) -> (r: Result<(), PoolError>)
        ensures
            old(self)@ == 0 ==> r == Ok::<(), PoolError>(()) && final(self)@ == 1,
            old(self)@ != 0 ==> r == Err::<(), PoolError>(PoolError::WrongStage) && final(self)@
                == old(self)@,
    {
        if self.stage == STAGE_DEPOSIT {
            self.stage = STAGE_PROCESSING;
            Ok(())
        } else {
            Err(PoolError::WrongStage)
        }
    }

    /// Moves from the processing stage to the redemption stage. In any other
    /// stage the call is rejected and nothing changes.
    pub fn finalize(&mut self) -> (r: Result<(), PoolError>)
        ensures
            old(self)@ == 1 ==> r == Ok::<(), PoolError>(()) && final(self)@ == 2,
            old(self)@ != 1 ==> r == Err::<(), PoolError>(PoolError::WrongStage) && final(self)@
                == old(self)@,
    {
        if self.stage == STAGE_PROCESSING {
            self.stage = STAGE_REDEMPTION;
            Ok(())
        } else {
            Err(PoolError::WrongStage)
        }
    }
}

} // verus!
