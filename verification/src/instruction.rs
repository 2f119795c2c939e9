//! The instruction set: addressing modes, operations, and the table that
//! maps an opcode byte to the operation it selects.

use vstd::prelude::*;

verus! {

/// Opcode of the halt instruction (`BRK`).
pub const OPCODE_HALT: u8 = 0x00;

/// Opcode of load-accumulator with an immediate operand (`LDA #`).
pub const OPCODE_LOAD_ACCUMULATOR: u8 = 0xA9;

/// Opcode of load-index-X with an immediate operand (`LDX #`).
pub const OPCODE_LOAD_INDEX_X: u8 = 0xA2;

/// Opcode of transfer-accumulator-to-index-X (`TAX`).
pub const OPCODE_TRANSFER_ACCUMULATOR_TO_INDEX_X: u8 = 0xAA;

/// Opcode of increment-index-X (`INX`).
pub const OPCODE_INCREMENT_INDEX_X: u8 = 0xE8;

/// The rule by which an instruction finds its operand.
#[derive(Clone, Copy, Debug, PartialEq, Eq, Structural)]
pub enum AddressingMode {
    Immediate,
    ZeroPage,
    ZeroPageX,
    ZeroPageY,
    Relative,
    Absolute,
    AbsoluteX,
    AbsoluteY,
    IndexedIndirectX,
    IndirectIndexedY,
}

impl AddressingMode {
    /// How many operand bytes follow the opcode: two for the absolute modes,
    /// which carry a full address, one for every other mode.
    pub open spec fn operand_bytes(self) -> nat {
        match self {
            AddressingMode::Absolute | AddressingMode::AbsoluteX | AddressingMode::AbsoluteY => 2,
            _ => 1,
        }
    }

    /// The number of operand bytes that follow the opcode.
    pub fn operand_len(&self) -> (count: u16)
        ensures
            count == self.operand_bytes(),
    {
        match self {
            AddressingMode::Absolute | AddressingMode::AbsoluteX | AddressingMode::AbsoluteY => 2,
            _ => 1,
        }
    }
}

/// What an instruction does, together with the addressing mode of its
/// operand where it takes one.
#[derive(Clone, Copy, Debug, PartialEq, Eq, Structural)]
pub enum Operation {
    /// Stop the execute loop.
    Halt,
    /// Copy the operand into the accumulator.
    LoadAccumulator(AddressingMode),
    /// Copy the operand into index register X.
    LoadIndexX(AddressingMode),
    /// Copy the accumulator into index register X.
    TransferAccumulatorToIndexX,
    /// Add one to index register X.
    IncrementIndexX,
}

/// The opcode table: the operation that each opcode byte selects, or `None`
/// for a byte that no instruction is registered under.
pub open spec fn decoded(opcode: u8) -> Option<Operation> {
    if opcode == OPCODE_HALT {
        Some(Operation::Halt)
    } else if opcode == OPCODE_LOAD_ACCUMULATOR {
        Some(Operation::LoadAccumulator(AddressingMode::Immediate))
    } else if opcode == OPCODE_LOAD_INDEX_X {
        Some(Operation::LoadIndexX(AddressingMode::Immediate))
    } else if opcode == OPCODE_TRANSFER_ACCUMULATOR_TO_INDEX_X {
        Some(Operation::TransferAccumulatorToIndexX)
    } else if opcode == OPCODE_INCREMENT_INDEX_X {
        Some(Operation::IncrementIndexX)
    } else {
        None
    }
}

/// Looks an opcode byte up in the opcode table.
pub fn decode(opcode: u8) -> (operation: Option<Operation>)
    ensures
        operation == decoded(opcode),
{
    match opcode {
        OPCODE_HALT => Some(Operation::Halt),
        OPCODE_LOAD_ACCUMULATOR => Some(Operation::LoadAccumulator(AddressingMode::Immediate)),
        OPCODE_LOAD_INDEX_X => Some(Operation::LoadIndexX(AddressingMode::Immediate)),
        OPCODE_TRANSFER_ACCUMULATOR_TO_INDEX_X => Some(Operation::TransferAccumulatorToIndexX),
        OPCODE_INCREMENT_INDEX_X => Some(Operation::IncrementIndexX),
        _ => None,
    }
}

} // verus!
