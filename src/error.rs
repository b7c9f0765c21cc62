//! Errors that an instruction can end with.
use vstd::prelude::*;

verus! {

/// Why an instruction failed.
#[derive(Clone, Copy, Debug, PartialEq, Eq, Structural)]
pub enum ProgramError {
    /// The record buffer is too short, or of the wrong length for a cast.
    InvalidAccountData,
    /// Fewer accounts were supplied than the instruction needs.
    NotEnoughAccountKeys,
    /// The record's owner is not the supplied authority.
    IncorrectAuthority,
    /// The instruction payload names no known operation.
    InvalidInstructionData,
    /// Writing the record back failed.
    EncodeFailure,
}

} // verus!
