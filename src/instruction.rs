//! The one-byte opcode that selects an operation.
use vstd::prelude::*;

use crate::error::ProgramError;

verus! {

/// The operations that a program offers.
#[derive(Clone, Copy, Debug, PartialEq, Eq, Structural)]
pub enum Instruction {
    /// Check the owner, then set the state and the amount.
    Full,
    /// Check the owner and change nothing.
    ReadOwner,
    /// Set the amount, with no check of the owner.
    UpdateAmount,
}

/// The operation that an opcode names, if any.
pub open spec fn instruction_of(b: u8) -> Option<Instruction> {
    if b == 0 {
        Some(Instruction::Full)
    } else if b == 1 {
        Some(Instruction::ReadOwner)
    } else if b == 2 {
        Some(Instruction::UpdateAmount)
    } else {
        None
    }
}

/// The operation that a payload selects: its first byte, or `Full` for an
/// empty payload where `empty_is_full` holds.
pub open spec fn parse(data: Seq<u8>, empty_is_full: bool) -> Option<Instruction> {
    if data.len() == 0 {
        if empty_is_full {
            Some(Instruction::Full)
        } else {
            None
        }
    } else {
        instruction_of(data[0])
    }
}

impl Instruction {
    /// The opcode of the operation.
    pub open spec fn spec_to_byte(self) -> u8 {
        match self {
            Instruction::Full => 0,
            Instruction::ReadOwner => 1,
            Instruction::UpdateAmount => 2,
        }
    }

    /// The opcode of the operation.
    #[verifier::when_used_as_spec(spec_to_byte)]
    pub fn to_byte(self) -> (r: u8)
        ensures
            r == self.spec_to_byte(),
            instruction_of(r) == Some(self),
    {
        match self {
            Instruction::Full => 0,
            Instruction::ReadOwner => 1,
            Instruction::UpdateAmount => 2,
        }
    }

    /// Reads the operation from the first byte of a payload; an empty payload
    /// or an unknown opcode is refused.
    pub fn try_from_slice(data: &[u8]) -> (r: Result<Instruction, ProgramError>)
        ensures
            r == match parse(data@, false) {
                Some(i) => Ok(i),
                None => Err(ProgramError::InvalidInstructionData),
            },
    {
        Self::try_from_payload(data, false)
    }

    /// Reads the operation from a payload; an empty one selects `Full` where
    /// `empty_is_full` holds.
    pub fn try_from_payload(data: &[u8], empty_is_full: bool) -> (r: Result<
        Instruction,
        ProgramError,
    >)
        ensures
            r == match parse(data@, empty_is_full) {
                Some(i) => Ok(i),
                None => Err(ProgramError::InvalidInstructionData),
            },
    {
        if data.len() == 0 {
            if empty_is_full {
                Ok(Instruction::Full)
            } else {
                Err(ProgramError::InvalidInstructionData)
            }
        } else if data[0] == 0 {
            Ok(Instruction::Full)
        } else if data[0] == 1 {
            Ok(Instruction::ReadOwner)
        } else if data[0] == 2 {
            Ok(Instruction::UpdateAmount)
        } else {
            Err(ProgramError::InvalidInstructionData)
        }
    }
}

} // verus!
