//! The executable processor. Each operation is proved to do to the
//! processor what the model in [`crate::machine`] says it does to a snapshot.

use crate::flag::Flag;
use crate::instruction::{decode, AddressingMode, Operation};
use crate::laws::{lemma_load_and_run_starts_at_origin, lemma_run_frame, lemma_run_outcome};
use crate::machine::{
    fits, mapped, mapped_word, wrap16, wrap8, Fault, Machine, State, MEMORY_SIZE, PROGRAM_ORIGIN,
    RESET_VECTOR,
};
use vstd::arithmetic::power2::lemma2_to64;
use vstd::prelude::*;

verus! {

/// An emulated processor with its memory.
pub struct Cpu {
    register_a: u8,
    register_x: u8,
    register_y: u8,
    stack_pointer: u8,
    program_counter: u16,
    flag: Flag,
    memory: [u8; MEMORY_SIZE],
}

/// The processor under the all-capitals spelling of its name.
pub type CPU = Cpu;

/// The report of one dispatch cycle that ended without a fault.
#[derive(Clone, Copy, Debug, PartialEq, Eq, Structural)]
pub struct Cycle {
    /// The opcode that was fetched and executed.
    pub opcode: u8,
    /// The state of the execute loop after the cycle.
    pub state: State,
}

impl View for Cpu {
    type V = Machine;

    closed spec fn view(&self) -> Machine {
        Machine {
            register_a: self.register_a,
            register_x: self.register_x,
            register_y: self.register_y,
            stack_pointer: self.stack_pointer,
            program_counter: self.program_counter,
            flag: self.flag,
            memory: self.memory@,
        }
    }
}

/// Whether a byte can be read or written at `address`.
pub fn is_mapped(address: u16) -> (answer: bool)
    ensures
        answer == mapped(address),
{
    (address as usize) < MEMORY_SIZE
}

/// Whether a two-byte word can be read or written at `address`.
pub fn is_mapped_word(address: u16) -> (answer: bool)
    ensures
        answer == mapped_word(address),
{
    (address as usize) < MEMORY_SIZE - 1
}

/// Adding bytes with `wrapping_add` is addition modulo 256.
proof fn lemma_wrapping_add_u8(byte: u8, offset: u8)
    ensures
        vstd::wrapping::u8_specs::wrapping_add(byte, offset) == wrap8(byte, offset as nat),
{
}

/// Adding addresses with `wrapping_add` is addition modulo 65536.
proof fn lemma_wrapping_add_u16(address: u16, offset: u16)
    ensures
        vstd::wrapping::u16_specs::wrapping_add(address, offset) == wrap16(address, offset as nat),
{
}

impl Cpu {
    /// A processor with every register, flag and byte of memory zero.
    pub fn new() -> (cpu: Self)
        ensures
            cpu@ == Machine::powered_on(),
    {
        let cpu = Cpu {
            register_a: 0,
            register_x: 0,
            register_y: 0,
            stack_pointer: 0,
            program_counter: 0,
            flag: Flag::unpack(0),
            memory: [0; MEMORY_SIZE],
        };
        proof {
            lemma2_to64();
            assert(cpu.memory@ =~= Machine::powered_on().memory);
        }
        cpu
    }

    /// The memory of a processor always has its full size.
    pub proof fn lemma_view_wf(&self)
        ensures
            self@.wf(),
    {
    }

    /// The accumulator.
    pub fn register_a(&self) -> (value: u8)
        ensures
            value == self@.register_a,
    {
        self.register_a
    }

    /// Index register X.
    pub fn register_x(&self) -> (value: u8)
        ensures
            value == self@.register_x,
    {
        self.register_x
    }

    /// Index register Y.
    pub fn register_y(&self) -> (value: u8)
        ensures
            value == self@.register_y,
    {
        self.register_y
    }

    /// The stack pointer.
    pub fn stack_pointer(&self) -> (value: u8)
        ensures
            value == self@.stack_pointer,
    {
        self.stack_pointer
    }

    /// The program counter.
    pub fn program_counter(&self) -> (value: u16)
        ensures
            value == self@.program_counter,
    {
        self.program_counter
    }

    /// The condition flags.
    pub fn flag(&self) -> (flag: Flag)
        ensures
            flag == self@.flag,
    {
        self.flag
    }

    /// Sets the accumulator; the flags stay as they are.
    pub fn set_register_a(&mut self, value: u8)
        ensures
            final(self)@ == (Machine { register_a: value, ..old(self)@ }),
    {
        self.register_a = value;
    }

    /// Sets index register X; the flags stay as they are.
    pub fn set_register_x(&mut self, value: u8)
        ensures
            final(self)@ == (Machine { register_x: value, ..old(self)@ }),
    {
        self.register_x = value;
    }

    /// Sets index register Y.
    pub fn set_register_y(&mut self, value: u8)
        ensures
            final(self)@ == (Machine { register_y: value, ..old(self)@ }),
    {
        self.register_y = value;
    }

    /// Sets the stack pointer.
    pub fn set_stack_pointer(&mut self, value: u8)
        ensures
            final(self)@ == (Machine { stack_pointer: value, ..old(self)@ }),
    {
        self.stack_pointer = value;
    }

    /// Sets the program counter.
    pub fn set_program_counter(&mut self, value: u16)
        ensures
            final(self)@ == (Machine { program_counter: value, ..old(self)@ }),
    {
        self.program_counter = value;
    }

    /// Clears the accumulator, the index registers and the flags, and takes
    /// the program counter from the reset vector. The stack pointer and
    /// memory stay as they are.
    pub fn reset(&mut self)
        ensures
            final(self)@ == old(self)@.reset(),
    {
        self.register_a = 0;
        self.register_x = 0;
        self.register_y = 0;
        self.flag.reset();
        self.program_counter = self.read_mem_16(RESET_VECTOR);
    }

    /// The byte at `address`.
    pub fn read_mem(&self, address: u16) -> (data: u8)
        requires
            mapped(address),
        ensures
            data == self@.read(address),
    {
        self.memory[address as usize]
    }

    /// The little-endian word at `address`.
    pub fn read_mem_16(&self, address: u16) -> (data: u16)
        requires
            mapped_word(address),
        ensures
            data == self@.read_word(address),
    {
        let least_significant_byte = self.read_mem(address) as u16;
        let most_significant_byte = self.read_mem(address + 1) as u16;
        assert((most_significant_byte << 8) | least_significant_byte == least_significant_byte
            + 0x100 * most_significant_byte) by (bit_vector)
            requires
                least_significant_byte < 0x100,
                most_significant_byte < 0x100,
        ;
        (most_significant_byte << 8) | least_significant_byte
    }

    /// Stores `data` at `address`.
    pub fn write_mem(&mut self, address: u16, data: u8)
        requires
            mapped(address),
        ensures
            final(self)@ == old(self)@.write(address, data),
    {
        self.memory[address as usize] = data;
    }

    /// Stores the word `data` at `address`, low half first.
    pub fn write_mem_16(&mut self, address: u16, data: u16)
        requires
            mapped_word(address),
        ensures
            final(self)@ == old(self)@.write_word(address, data),
    {
        assert(data & 0x00ff == data % 0x100 && data >> 8 == data / 0x100) by (bit_vector);
        let least_significant_byte = (data & 0x00ff) as u8;
        let most_significant_byte = (data >> 8) as u8;
        self.write_mem(address, least_significant_byte);
        self.write_mem(address + 1, most_significant_byte);
    }

    /// Resolves the effective address of an operand in the given mode, with
    /// the program counter at the first operand byte. Neither registers nor
    /// memory change.
    pub fn get_operand_address(&self, mode: &AddressingMode) -> (address: Result<u16, Fault>)
        ensures
            address == self@.operand_address(*mode),
    {
        proof {
            lemma_wrapping_add_u16(self.program_counter, self.register_x as u16);
        }
        match mode {
            AddressingMode::Immediate => Ok(self.program_counter),
            AddressingMode::ZeroPage => {
                if !is_mapped(self.program_counter) {
                    return Err(Fault::OutOfRange);
                }
                Ok(self.read_mem(self.program_counter) as u16)
            },
            AddressingMode::ZeroPageX => {
                if !is_mapped(self.program_counter) {
                    return Err(Fault::OutOfRange);
                }
                let base = self.read_mem(self.program_counter);
                proof {
                    lemma_wrapping_add_u8(base, self.register_x);
                }
                Ok(base.wrapping_add(self.register_x) as u16)
            },
            AddressingMode::ZeroPageY => {
                if !is_mapped(self.program_counter) {
                    return Err(Fault::OutOfRange);
                }
                let base = self.read_mem(self.program_counter);
                proof {
                    lemma_wrapping_add_u8(base, self.register_y);
                }
                Ok(base.wrapping_add(self.register_y) as u16)
            },
            AddressingMode::Absolute => {
                if !is_mapped_word(self.program_counter) {
                    return Err(Fault::OutOfRange);
                }
                Ok(self.read_mem_16(self.program_counter))
            },
            AddressingMode::AbsoluteX => {
                if !is_mapped_word(self.program_counter) {
                    return Err(Fault::OutOfRange);
                }
                let base = self.read_mem_16(self.program_counter);
                proof {
                    lemma_wrapping_add_u16(base, self.register_x as u16);
                }
                Ok(base.wrapping_add(self.register_x as u16))
            },
            AddressingMode::AbsoluteY => {
                if !is_mapped_word(self.program_counter) {
                    return Err(Fault::OutOfRange);
                }
                let base = self.read_mem_16(self.program_counter);
                proof {
                    lemma_wrapping_add_u16(base, self.register_y as u16);
                }
                Ok(base.wrapping_add(self.register_y as u16))
            },
            AddressingMode::IndexedIndirectX => {
                let pointer = self.program_counter.wrapping_add(self.register_x as u16);
                if !is_mapped_word(pointer) {
                    return Err(Fault::OutOfRange);
                }
                Ok(self.read_mem_16(pointer))
            },
            AddressingMode::Relative | AddressingMode::IndirectIndexedY => Err(
                Fault::UnsupportedMode,
            ),
        }
    }

    /// Loads a program image, resets the processor and runs the program
    /// until it halts or faults.
    ///
    /// An image that does not fit between the program origin and the end of
    /// memory is `OutOfRange`, and nothing changes.
    pub fn load_and_run(&mut self, program: Vec<u8>) -> (outcome: Result<(), Fault>)
        ensures
            final(self)@ == old(self)@.load_and_run(program@).0,
            outcome == old(self)@.load_and_run(program@).1,
            outcome == Err::<(), Fault>(Fault::OutOfRange) <==> !fits(program@),
            outcome != Err::<(), Fault>(Fault::UnsupportedMode),
    {
        proof {
            self.lemma_view_wf();
            if fits(program@) {
                lemma_load_and_run_starts_at_origin(self@, program@);
            }
        }
        match self.load(program) {
            Ok(()) => {},
            Err(fault) => {
                return Err(fault);
            },
        }
        self.reset();

        self.run()
    }

    /// Copies a program image into memory at the program origin and points
    /// the reset vector at it.
    ///
    /// An image that does not fit between the program origin and the end of
    /// memory is `OutOfRange`, and nothing changes.
    pub fn load(&mut self, program: Vec<u8>) -> (outcome: Result<(), Fault>)
        ensures
            outcome == (if fits(program@) {
                Ok::<(), Fault>(())
            } else {
                Err(Fault::OutOfRange)
            }),
            final(self)@ == (if fits(program@) {
                old(self)@.loaded(program@)
            } else {
                old(self)@
            }),
    {
        if program.len() > MEMORY_SIZE - PROGRAM_ORIGIN as usize {
            return Err(Fault::OutOfRange);
        }
        let mut copied: usize = 0;
        while copied < program.len()
            invariant
                copied <= program.len(),
                fits(program@),
                self@ == (Machine { memory: self@.memory, ..old(self)@ }),
                self@.memory =~= old(self)@.image_placed(program@.take(copied as int)).memory,
            decreases program.len() - copied,
        {
            self.memory[PROGRAM_ORIGIN as usize + copied] = program[copied];
            copied += 1;
        }
        assert(program@.take(copied as int) == program@);
        self.write_mem_16(RESET_VECTOR, PROGRAM_ORIGIN);
        Ok(())
    }

    /// Sets the zero flag when `result` is 0 and the negative flag when its
    /// high bit is set; the other flags stay.
    fn update_zero_and_negative_flag(&mut self, result: u8)
        ensures
            final(self)@ == old(self)@.with_result_flags(result),
    {
        assert((result & 0b1000_0000 != 0) <==> result >= 0x80) by (bit_vector);
        self.flag.zero = result == 0;
        self.flag.negative = result & 0b1000_0000 != 0
    }

    /// Load-accumulator: stores `value` in the accumulator and sets the zero
    /// and negative flags from it.
    pub fn lda(&mut self, value: u8)
        ensures
            final(self)@ == old(self)@.load_accumulator(value),
            final(self)@.register_a == value,
            final(self)@.flag.zero <==> value == 0,
            final(self)@.flag.negative <==> value >= 0x80,
    {
        self.register_a = value;
        self.update_zero_and_negative_flag(self.register_a);
    }

    /// Load-index-X: stores `value` in index register X and sets the zero
    /// and negative flags from it.
    pub fn ldx(&mut self, value: u8)
        ensures
            final(self)@ == old(self)@.load_index_x(value),
            final(self)@.register_x == value,
            final(self)@.flag.zero <==> value == 0,
            final(self)@.flag.negative <==> value >= 0x80,
    {
        self.register_x = value;
        self.update_zero_and_negative_flag(self.register_x);
    }

    /// Transfer-accumulator-to-index-X: copies the accumulator into index
    /// register X and sets the zero and negative flags from the copy,
    /// whatever they were before.
    pub fn tax(&mut self)
        ensures
            final(self)@ == old(self)@.transfer_accumulator_to_index_x(),
            final(self)@.register_x == old(self)@.register_a,
            final(self)@.register_a == old(self)@.register_a,
            final(self)@.flag.zero <==> old(self)@.register_a == 0,
            final(self)@.flag.negative <==> old(self)@.register_a >= 0x80,
    {
        self.register_x = self.register_a;
        self.update_zero_and_negative_flag(self.register_x);
    }

    /// Increment-index-X: adds one to index register X, wrapping from `0xFF`
    /// to `0x00`, and sets the zero and negative flags from the new value.
    pub fn inx(&mut self)
        ensures
            final(self)@ == old(self)@.increment_index_x(),
            final(self)@.register_x == (if old(self)@.register_x == 0xFF {
                0
            } else {
                old(self)@.register_x + 1
            }),
            final(self)@.flag.zero <==> old(self)@.register_x == 0xFF,
            final(self)@.flag.negative <==> 0x7F <= old(self)@.register_x < 0xFF,
    {
        proof {
            lemma_wrapping_add_u8(self.register_x, 1);
        }
        self.register_x = self.register_x.wrapping_add(1);
        self.update_zero_and_negative_flag(self.register_x)
    }

    /// Reads the operand of an instruction in the given mode and moves the
    /// program counter past the operand bytes. Where the operand cannot be
    /// read, nothing changes.
    fn fetch_operand(&mut self, mode: &AddressingMode) -> (operand: Result<u8, Fault>)
        ensures
            operand == old(self)@.operand(*mode),
            final(self)@ == (if operand is Ok {
                old(self)@.advanced(mode.operand_bytes())
            } else {
                old(self)@
            }),
    {
        let address = match self.get_operand_address(mode) {
            Ok(address) => address,
            Err(fault) => {
                return Err(fault);
            },
        };
        if !is_mapped(address) {
            return Err(Fault::OutOfRange);
        }
        let value = self.read_mem(address);
        proof {
            lemma_wrapping_add_u16(self.program_counter, mode.operand_bytes() as u16);
        }
        self.program_counter = self.program_counter.wrapping_add(mode.operand_len());
        Ok(value)
    }

    /// Carries out an operation whose opcode has been fetched.
    fn execute(&mut self, operation: Operation) -> (outcome: Result<State, Fault>)
        ensures
            final(self)@ == old(self)@.execute(operation).0,
            outcome == old(self)@.execute(operation).1,
    {
        match operation {
            Operation::Halt => Ok(State::Halted),
            Operation::LoadAccumulator(mode) => {
                match self.fetch_operand(&mode) {
                    Ok(value) => {
                        self.lda(value);
                        Ok(State::Running)
                    },
                    Err(fault) => Err(fault),
                }
            },
            Operation::LoadIndexX(mode) => {
                match self.fetch_operand(&mode) {
                    Ok(value) => {
                        self.ldx(value);
                        Ok(State::Running)
                    },
                    Err(fault) => Err(fault),
                }
            },
            Operation::TransferAccumulatorToIndexX => {
                self.tax();
                Ok(State::Running)
            },
            Operation::IncrementIndexX => {
                self.inx();
                Ok(State::Running)
            },
        }
    }

    /// Performs one dispatch cycle: fetches the opcode at the program
    /// counter, moves the counter past it, and executes the operation that
    /// the opcode selects.
    ///
    /// Returns the opcode that was executed with the state of the execute
    /// loop after the cycle, or the fault that stopped it.
    pub fn step(&mut self) -> (outcome: Result<Cycle, Fault>)
        ensures
            final(self)@ == old(self)@.step().0,
            match outcome {
                Ok(cycle) => {
                    &&& old(self)@.step().1 == Ok::<State, Fault>(cycle.state)
                    &&& cycle.opcode == old(self)@.read(old(self)@.program_counter)
                },
                Err(fault) => old(self)@.step().1 == Err::<State, Fault>(fault),
            },
    {
        if !is_mapped(self.program_counter) {
            return Err(Fault::OutOfRange);
        }
        let opcode = self.read_mem(self.program_counter);
        self.program_counter += 1;
        match decode(opcode) {
            Some(operation) => match self.execute(operation) {
                Ok(state) => Ok(Cycle { opcode, state }),
                Err(fault) => Err(fault),
            },
            None => Err(Fault::UnimplementedOpcode(opcode)),
        }
    }

    /// Steps until the processor halts or faults.
    pub fn run(&mut self) -> (outcome: Result<(), Fault>)
        ensures
            final(self)@ == old(self)@.run().0,
            outcome == old(self)@.run().1,
            final(self)@.memory == old(self)@.memory,
            outcome != Err::<(), Fault>(Fault::UnsupportedMode),
    {
        proof {
            self.lemma_view_wf();
            lemma_run_frame(self@);
            lemma_run_outcome(self@);
        }
        loop
            invariant
                self@.run() == old(self)@.run(),
                old(self)@.run().0.memory == old(self)@.memory,
                old(self)@.run().1 != Err::<(), Fault>(Fault::UnsupportedMode),
            decreases MEMORY_SIZE - self.program_counter,
        {
            match self.step() {
                Ok(Cycle { state: State::Running, .. }) => {},
                Ok(Cycle { state: State::Halted, .. }) => {
                    return Ok(());
                },
                Err(fault) => {
                    return Err(fault);
                },
            }
        }
    }
}

} // verus!
