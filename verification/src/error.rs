use vstd::prelude::*;

verus! {

/// Errors of the fantasy sports program.
#[derive(Clone, Copy, Debug, PartialEq, Eq, Structural)]
pub enum SfsError {
    /// The instruction bytes do not decode to an instruction.
    InvalidInstruction,
    /// Account data holds a value that its layout does not allow.
    InvalidAccountData,
    /// The operation is not allowed at the current stage of the season.
    InvalidStage,
    /// The state of the season does not allow the operation.
    InvalidState,
    /// A list is full.
    OutOfCapacity,
}

} // verus!
