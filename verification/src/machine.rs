//! The mathematical model of the processor: a snapshot of its registers,
//! flags and memory, and the functions that say what each operation of the
//! emulator does to such a snapshot.

use crate::flag::Flag;
use crate::instruction::{decoded, AddressingMode, Operation};
use vstd::prelude::*;

verus! {

/// Number of bytes of memory: one short of the 64 KiB that a 16-bit address
/// can name. Addresses `0x0000` to `0xFFFE` are mapped; `0xFFFF` is not, and
/// an access there is out of range.
pub const MEMORY_SIZE: usize = 0xFFFF;

/// Address at which a program image is placed.
pub const PROGRAM_ORIGIN: u16 = 0x8000;

/// Address of the little-endian word that holds the address at which
/// execution starts after a reset.
pub const RESET_VECTOR: u16 = 0xFFFC;

/// The two states of the execute loop.
#[derive(Clone, Copy, Debug, PartialEq, Eq, Structural)]
pub enum State {
    /// The last instruction was not a halt; another may be executed.
    Running,
    /// The halt instruction was executed.
    Halted,
}

/// The conditions that stop execution abnormally.
#[derive(Clone, Copy, Debug, PartialEq, Eq, Structural)]
pub enum Fault {
    /// The byte fetched as an opcode is not in the opcode table.
    UnimplementedOpcode(u8),
    /// An access reached outside the mapped addresses, or a program image
    /// does not fit between its origin and the end of memory.
    OutOfRange,
    /// The operand address was asked for in a mode that has no resolution
    /// rule.
    UnsupportedMode,
}

/// Whether a byte can be read or written at `address`.
pub open spec fn mapped(address: u16) -> bool {
    address < MEMORY_SIZE
}

/// Whether a two-byte word can be read or written at `address`, that is,
/// whether both `address` and the address after it are mapped.
pub open spec fn mapped_word(address: u16) -> bool {
    address + 1 < MEMORY_SIZE
}

/// Whether a program image fits between the program origin and the end of
/// memory.
pub open spec fn fits(program: Seq<u8>) -> bool {
    PROGRAM_ORIGIN + program.len() <= MEMORY_SIZE
}

/// The sum of a 16-bit address and an offset, wrapping at 16 bits.
pub open spec fn wrap16(address: u16, offset: nat) -> u16 {
    ((address + offset) % 0x1_0000) as u16
}

/// The sum of a byte and an offset, wrapping at 8 bits.
pub open spec fn wrap8(byte: u8, offset: nat) -> u8 {
    ((byte + offset) % 0x100) as u8
}

/// A snapshot of the processor.
pub struct Machine {
    pub register_a: u8,
    pub register_x: u8,
    pub register_y: u8,
    pub stack_pointer: u8,
    pub program_counter: u16,
    pub flag: Flag,
    pub memory: Seq<u8>,
}

impl Machine {
    /// The snapshot has a memory of the right size.
    pub open spec fn wf(self) -> bool {
        self.memory.len() == MEMORY_SIZE
    }

    /// The processor as it is constructed: every register, flag and byte of
    /// memory zero.
    pub open spec fn powered_on() -> Machine {
        Machine {
            register_a: 0,
            register_x: 0,
            register_y: 0,
            stack_pointer: 0,
            program_counter: 0,
            flag: Flag::cleared(),
            memory: Seq::new(MEMORY_SIZE as nat, |i: int| 0u8),
        }
    }

    /// The byte at `address`.
    pub open spec fn read(self, address: u16) -> u8
        recommends
            mapped(address),
    {
        self.memory[address as int]
    }

    /// The little-endian word at `address`: the byte there is the low half,
    /// the byte after it the high half.
    pub open spec fn read_word(self, address: u16) -> u16
        recommends
            mapped_word(address),
    {
        (self.memory[address as int] + 0x100 * self.memory[address + 1]) as u16
    }

    /// The snapshot after `data` is stored at `address`.
    pub open spec fn write(self, address: u16, data: u8) -> Machine
        recommends
            mapped(address),
    {
        Machine { memory: self.memory.update(address as int, data), ..self }
    }

    /// The snapshot after the word `data` is stored at `address`, low half
    /// first.
    pub open spec fn write_word(self, address: u16, data: u16) -> Machine
        recommends
            mapped_word(address),
    {
        Machine {
            memory: self.memory.update(address as int, (data % 0x100) as u8).update(
                address + 1,
                (data / 0x100) as u8,
            ),
            ..self
        }
    }

    /// The effective address of an operand in the given mode, when the
    /// program counter stands at the first operand byte.
    ///
    /// Index registers are added with wraparound: at 8 bits in the zero-page
    /// modes, at 16 bits elsewhere. A mode without a rule gives
    /// `UnsupportedMode`; a rule that has to read an unmapped address gives
    /// `OutOfRange`.
    pub open spec fn operand_address(self, mode: AddressingMode) -> Result<u16, Fault> {
        let counter = self.program_counter;
        match mode {
            AddressingMode::Immediate => Ok(counter),
            AddressingMode::ZeroPage => if mapped(counter) {
                Ok(self.read(counter) as u16)
            } else {
                Err(Fault::OutOfRange)
            },
            AddressingMode::ZeroPageX => if mapped(counter) {
                Ok(wrap8(self.read(counter), self.register_x as nat) as u16)
            } else {
                Err(Fault::OutOfRange)
            },
            AddressingMode::ZeroPageY => if mapped(counter) {
                Ok(wrap8(self.read(counter), self.register_y as nat) as u16)
            } else {
                Err(Fault::OutOfRange)
            },
            AddressingMode::Absolute => if mapped_word(counter) {
                Ok(self.read_word(counter))
            } else {
                Err(Fault::OutOfRange)
            },
            AddressingMode::AbsoluteX => if mapped_word(counter) {
                Ok(wrap16(self.read_word(counter), self.register_x as nat))
            } else {
                Err(Fault::OutOfRange)
            },
            AddressingMode::AbsoluteY => if mapped_word(counter) {
                Ok(wrap16(self.read_word(counter), self.register_y as nat))
            } else {
                Err(Fault::OutOfRange)
            },
            AddressingMode::IndexedIndirectX => {
                let pointer = wrap16(counter, self.register_x as nat);
                if mapped_word(pointer) {
                    Ok(self.read_word(pointer))
                } else {
                    Err(Fault::OutOfRange)
                }
            },
            AddressingMode::Relative | AddressingMode::IndirectIndexedY => Err(
                Fault::UnsupportedMode,
            ),
        }
    }

    /// The operand byte of an instruction in the given mode: the byte at the
    /// effective address.
    pub open spec fn operand(self, mode: AddressingMode) -> Result<u8, Fault> {
        match self.operand_address(mode) {
            Ok(address) => if mapped(address) {
                Ok(self.read(address))
            } else {
                Err(Fault::OutOfRange)
            },
            Err(fault) => Err(fault),
        }
    }

    /// The snapshot with the program counter moved forward by `count`,
    /// wrapping at 16 bits.
    pub open spec fn advanced(self, count: nat) -> Machine {
        Machine { program_counter: wrap16(self.program_counter, count), ..self }
    }

    /// The snapshot with the zero and negative flags set from `result`:
    /// zero when the result is 0, negative when its high bit is set.
    pub open spec fn with_result_flags(self, result: u8) -> Machine {
        Machine {
            flag: Flag { zero: result == 0, negative: result >= 0x80, ..self.flag },
            ..self
        }
    }

    /// Load-accumulator: the accumulator takes `value`, and the flags follow
    /// it.
    pub open spec fn load_accumulator(self, value: u8) -> Machine {
        Machine { register_a: value, ..self }.with_result_flags(value)
    }

    /// Load-index-X: index register X takes `value`, and the flags follow it.
    pub open spec fn load_index_x(self, value: u8) -> Machine {
        Machine { register_x: value, ..self }.with_result_flags(value)
    }

    /// Transfer-accumulator-to-index-X: index register X takes the value of
    /// the accumulator, and the flags follow it.
    pub open spec fn transfer_accumulator_to_index_x(self) -> Machine {
        self.load_index_x(self.register_a)
    }

    /// Increment-index-X: index register X goes up by one, wrapping from
    /// `0xFF` to `0x00`, and the flags follow the new value.
    pub open spec fn increment_index_x(self) -> Machine {
        self.load_index_x(wrap8(self.register_x, 1))
    }

    /// The snapshot after the bytes of a program image are copied into
    /// memory, the first of them to the program origin.
    pub open spec fn image_placed(self, program: Seq<u8>) -> Machine
        recommends
            fits(program),
    {
        Machine {
            memory: Seq::new(
                self.memory.len(),
                |i: int|
                    if PROGRAM_ORIGIN <= i < PROGRAM_ORIGIN + program.len() {
                        program[i - PROGRAM_ORIGIN]
                    } else {
                        self.memory[i]
                    },
            ),
            ..self
        }
    }

    /// The snapshot after a program image is loaded: the image is placed at
    /// the program origin, and then the reset vector is pointed at the
    /// origin. Where the image reaches the reset vector, the vector is what
    /// stays.
    pub open spec fn loaded(self, program: Seq<u8>) -> Machine
        recommends
            fits(program),
    {
        self.image_placed(program).write_word(RESET_VECTOR, PROGRAM_ORIGIN)
    }

    /// The snapshot after a reset: accumulator, index registers and flags
    /// cleared, the program counter taken from the reset vector, the stack
    /// pointer and memory as they were.
    pub open spec fn reset(self) -> Machine {
        Machine {
            register_a: 0,
            register_x: 0,
            register_y: 0,
            flag: Flag::cleared(),
            program_counter: self.read_word(RESET_VECTOR),
            ..self
        }
    }

    /// What an operation does once its opcode has been fetched and the
    /// program counter stands behind it.
    ///
    /// An operation with an operand reads it, moves the counter past the
    /// operand bytes, and then acts. Where the operand cannot be read the
    /// snapshot stays as it is and the fault is reported.
    pub open spec fn execute(self, operation: Operation) -> (Machine, Result<State, Fault>) {
        match operation {
            Operation::Halt => (self, Ok(State::Halted)),
            Operation::LoadAccumulator(mode) => match self.operand(mode) {
                Ok(value) => (
                    self.advanced(mode.operand_bytes()).load_accumulator(value),
                    Ok(State::Running),
                ),
                Err(fault) => (self, Err(fault)),
            },
            Operation::LoadIndexX(mode) => match self.operand(mode) {
                Ok(value) => (
                    self.advanced(mode.operand_bytes()).load_index_x(value),
                    Ok(State::Running),
                ),
                Err(fault) => (self, Err(fault)),
            },
            Operation::TransferAccumulatorToIndexX => (
                self.transfer_accumulator_to_index_x(),
                Ok(State::Running),
            ),
            Operation::IncrementIndexX => (self.increment_index_x(), Ok(State::Running)),
        }
    }

    /// One dispatch cycle: fetch the opcode at the program counter, move the
    /// counter past it, look the opcode up, and execute what it selects.
    ///
    /// An unmapped program counter is `OutOfRange` and changes nothing. An
    /// opcode that is not in the table is `UnimplementedOpcode`, reported
    /// with the counter already behind the opcode.
    pub open spec fn step(self) -> (Machine, Result<State, Fault>) {
        if !mapped(self.program_counter) {
            (self, Err(Fault::OutOfRange))
        } else {
            let opcode = self.read(self.program_counter);
            let fetched = self.advanced(1);
            match decoded(opcode) {
                Some(operation) => fetched.execute(operation),
                None => (fetched, Err(Fault::UnimplementedOpcode(opcode))),
            }
        }
    }

    /// Repeated steps up to the first that does not leave the processor
    /// running: the snapshot it ends in, and `Ok` for a halt or the fault
    /// that stopped it.
    pub open spec fn run(self) -> (Machine, Result<(), Fault>)
        decreases MEMORY_SIZE - self.program_counter,
    {
        let (next, outcome) = self.step();
        match outcome {
            Ok(State::Running) => next.run(),
            Ok(State::Halted) => (next, Ok(())),
            Err(fault) => (next, Err(fault)),
        }
    }

    /// Load, reset and run: what running a program image from scratch does.
    /// An image that does not fit is `OutOfRange` and changes nothing.
    pub open spec fn load_and_run(self, program: Seq<u8>) -> (Machine, Result<(), Fault>) {
        if fits(program) {
            self.loaded(program).reset().run()
        } else {
            (self, Err(Fault::OutOfRange))
        }
    }
}

} // verus!
