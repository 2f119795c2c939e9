//! Laws of the processor model: what holds of memory accesses, of the
//! operation handlers, of a dispatch cycle and of a whole run, for every
//! snapshot.

use crate::flag::{bit_of, Flag};
use crate::instruction::{decoded, AddressingMode, Operation, OPCODE_HALT};
use crate::machine::{
    fits, mapped, mapped_word, Fault, Machine, State, MEMORY_SIZE, PROGRAM_ORIGIN, RESET_VECTOR,
};
use vstd::arithmetic::power2::lemma2_to64;
use vstd::prelude::*;

verus! {

/// A byte that was written is what a read of the same address gives, and
/// every other byte is as it was.
pub proof fn lemma_read_after_write(m: Machine, address: u16, data: u8, other: u16)
    requires
        m.wf(),
        mapped(address),
        mapped(other),
    ensures
        m.write(address, data).wf(),
        m.write(address, data).read(address) == data,
        other != address ==> m.write(address, data).read(other) == m.read(other),
{
}

/// A word that was written is what a read of the same address gives, and
/// every byte outside the word is as it was.
pub proof fn lemma_read_word_after_write_word(m: Machine, address: u16, data: u16, other: u16)
    requires
        m.wf(),
        mapped_word(address),
        mapped(other),
    ensures
        m.write_word(address, data).wf(),
        m.write_word(address, data).read_word(address) == data,
        other != address && other != address + 1 ==> m.write_word(address, data).read(other)
            == m.read(other),
{
}

/// After a result, the zero flag is set exactly when the result is 0 and
/// the negative flag exactly when its high bit is set. So a result of 0
/// gives zero without negative, a result with the high bit set gives
/// negative without zero, and a result from `0x01` to `0x7F` gives neither.
/// The other five flags, the registers and memory are untouched.
pub proof fn lemma_result_flags(m: Machine, result: u8)
    ensures
        m.with_result_flags(result).flag.zero <==> result == 0,
        m.with_result_flags(result).flag.negative <==> bit_of(result, 7),
        result == 0 ==> !m.with_result_flags(result).flag.negative,
        bit_of(result, 7) ==> !m.with_result_flags(result).flag.zero,
        0x01 <= result <= 0x7F ==> !m.with_result_flags(result).flag.zero
            && !m.with_result_flags(result).flag.negative,
        m.with_result_flags(result) == (Machine {
            flag: Flag {
                zero: m.with_result_flags(result).flag.zero,
                negative: m.with_result_flags(result).flag.negative,
                ..m.flag
            },
            ..m
        }),
{
    lemma2_to64();
}

/// Loading the accumulator or index register X stores exactly the value
/// loaded, sets the zero and negative flags from that value alone, and
/// leaves the other register of the two as it was.
pub proof fn lemma_load_sets_register_and_flags(m: Machine, value: u8)
    ensures
        m.load_accumulator(value).register_a == value,
        m.load_accumulator(value).register_x == m.register_x,
        m.load_accumulator(value).flag == m.with_result_flags(value).flag,
        m.load_index_x(value).register_x == value,
        m.load_index_x(value).register_a == m.register_a,
        m.load_index_x(value).flag == m.with_result_flags(value).flag,
{
}

/// A transfer copies the accumulator into index register X exactly and
/// keeps the accumulator. What index register X and the zero and negative
/// flags held before makes no difference to the outcome.
pub proof fn lemma_transfer_ignores_prior_index(
    m: Machine,
    prior_x: u8,
    zero: bool,
    negative: bool,
)
    ensures
        m.transfer_accumulator_to_index_x().register_x == m.register_a,
        m.transfer_accumulator_to_index_x().register_a == m.register_a,
        m.transfer_accumulator_to_index_x().flag == m.with_result_flags(m.register_a).flag,
        (Machine {
            register_x: prior_x,
            flag: Flag { zero, negative, ..m.flag },
            ..m
        }).transfer_accumulator_to_index_x() == m.transfer_accumulator_to_index_x(),
{
}

/// An increment adds one modulo 256: from `0xFF` it gives `0x00` with the
/// zero flag set, and two increments add two modulo 256.
pub proof fn lemma_increment_wraps(m: Machine)
    ensures
        m.increment_index_x().register_x == (m.register_x + 1) % 0x100,
        m.register_x == 0xFF ==> m.increment_index_x().register_x == 0
            && m.increment_index_x().flag.zero,
        m.increment_index_x().increment_index_x().register_x == (m.register_x + 2) % 0x100,
        m.increment_index_x().flag == m.with_result_flags(
            m.increment_index_x().register_x,
        ).flag,
{
}

/// A mode is reported as unsupported exactly when it is the relative or the
/// indirect-indexed mode; every other mode either resolves or needs a byte
/// that is not mapped.
pub proof fn lemma_unsupported_modes(m: Machine, mode: AddressingMode)
    ensures
        m.operand_address(mode) == Err::<u16, Fault>(Fault::UnsupportedMode) <==> (mode
            == AddressingMode::Relative || mode == AddressingMode::IndirectIndexedY),
{
}

/// The zero-page modes resolve whenever the operand byte is mapped, and
/// always to an address within page zero, whatever the index register
/// holds. With the index register at zero an indexed mode resolves as the
/// plain one.
pub proof fn lemma_zero_page_modes(m: Machine, mode: AddressingMode)
    requires
        mode == AddressingMode::ZeroPage || mode == AddressingMode::ZeroPageX || mode
            == AddressingMode::ZeroPageY,
    ensures
        m.operand_address(mode) is Ok <==> mapped(m.program_counter),
        m.operand_address(mode) is Err ==> m.operand_address(mode) == Err::<u16, Fault>(
            Fault::OutOfRange,
        ),
        m.operand_address(mode) matches Ok(address) ==> address < 0x100,
        mode == AddressingMode::ZeroPageX && m.register_x == 0 ==> m.operand_address(mode)
            == m.operand_address(AddressingMode::ZeroPage),
        mode == AddressingMode::ZeroPageY && m.register_y == 0 ==> m.operand_address(mode)
            == m.operand_address(AddressingMode::ZeroPage),
{
}

/// The absolute modes resolve whenever both operand bytes are mapped. The
/// indexed ones differ from the plain one by the index register, modulo
/// 65536, so that crossing a page boundary is no special case.
pub proof fn lemma_absolute_modes(m: Machine)
    requires
        mapped_word(m.program_counter),
    ensures
        m.operand_address(AddressingMode::Absolute) == Ok::<u16, Fault>(
            m.read_word(m.program_counter),
        ),
        m.operand_address(AddressingMode::AbsoluteX) == Ok::<u16, Fault>(
            ((m.read_word(m.program_counter) + m.register_x) % 0x1_0000) as u16,
        ),
        m.operand_address(AddressingMode::AbsoluteY) == Ok::<u16, Fault>(
            ((m.read_word(m.program_counter) + m.register_y) % 0x1_0000) as u16,
        ),
        m.register_x == 0 ==> m.operand_address(AddressingMode::AbsoluteX) == m.operand_address(
            AddressingMode::Absolute,
        ),
        m.register_y == 0 ==> m.operand_address(AddressingMode::AbsoluteY) == m.operand_address(
            AddressingMode::Absolute,
        ),
{
}

/// Loading an image that fits puts each of its bytes at its place behind
/// the program origin, except where the reset vector lies, leaves the rest
/// of memory and all registers as they were, and makes the reset vector
/// hold the program origin.
pub proof fn lemma_loaded_image(m: Machine, program: Seq<u8>)
    requires
        m.wf(),
        fits(program),
    ensures
        m.loaded(program).wf(),
        m.loaded(program).read_word(RESET_VECTOR) == PROGRAM_ORIGIN,
        forall|i: int|
            0 <= i < program.len() && PROGRAM_ORIGIN + i != RESET_VECTOR && PROGRAM_ORIGIN + i
                != RESET_VECTOR + 1 ==> #[trigger] m.loaded(program).memory[PROGRAM_ORIGIN + i]
                == program[i],
        forall|address: int|
            0 <= address < MEMORY_SIZE && !(PROGRAM_ORIGIN <= address < PROGRAM_ORIGIN
                + program.len()) && address != RESET_VECTOR && address != RESET_VECTOR + 1
                ==> #[trigger] m.loaded(program).memory[address] == m.memory[address],
        m.loaded(program) == (Machine { memory: m.loaded(program).memory, ..m }),
{
}

/// A reset clears the accumulator, both index registers and every flag,
/// takes the program counter from the reset vector, and keeps the stack
/// pointer and memory. Resetting twice is resetting once.
pub proof fn lemma_reset_clears(m: Machine)
    ensures
        m.reset().register_a == 0,
        m.reset().register_x == 0,
        m.reset().register_y == 0,
        m.reset().flag == Flag::cleared(),
        m.reset().program_counter == m.read_word(RESET_VECTOR),
        m.reset().stack_pointer == m.stack_pointer,
        m.reset().memory == m.memory,
        m.reset().reset() == m.reset(),
{
}

/// A dispatch cycle never writes memory and never touches the stack pointer
/// or index register Y, and of the flags it changes at most zero and
/// negative.
pub proof fn lemma_step_frame(m: Machine)
    requires
        m.wf(),
    ensures
        m.step().0.wf(),
        m.step().0.memory == m.memory,
        m.step().0.stack_pointer == m.stack_pointer,
        m.step().0.register_y == m.register_y,
        m.step().0.flag == (Flag {
            zero: m.step().0.flag.zero,
            negative: m.step().0.flag.negative,
            ..m.flag
        }),
{
}

/// What a dispatch cycle reports, and how far it moves the program counter.
///
/// A cycle that leaves the processor running has moved the counter forward
/// by one or two. A halt is reported exactly when the byte at the counter is
/// the halt opcode, and leaves the counter behind it. An unimplemented
/// opcode is the byte at the counter, is not in the opcode table, and leaves
/// the counter behind it. An out-of-range fault leaves the counter at the
/// one address that is not mapped. An unsupported mode is never reported.
pub proof fn lemma_step_outcome(m: Machine)
    ensures
        match m.step().1 {
            Ok(State::Running) => m.program_counter < m.step().0.program_counter
                <= m.program_counter + 2,
            Ok(State::Halted) => m.step().0 == m.advanced(1),
            Err(Fault::UnimplementedOpcode(opcode)) => {
                &&& mapped(m.program_counter)
                &&& opcode == m.read(m.program_counter)
                &&& decoded(opcode) is None
                &&& m.step().0 == m.advanced(1)
            },
            Err(Fault::OutOfRange) => !mapped(m.step().0.program_counter),
            Err(Fault::UnsupportedMode) => false,
        },
        m.step().1 == Ok::<State, Fault>(State::Halted) <==> mapped(m.program_counter) && m.read(
            m.program_counter,
        ) == OPCODE_HALT,
{
    if mapped(m.program_counter) {
        let fetched = m.advanced(1);
        assert(fetched.program_counter == m.program_counter + 1);
        match decoded(m.read(m.program_counter)) {
            Some(Operation::LoadAccumulator(mode)) => {
                assert(mode == AddressingMode::Immediate);
                assert(fetched.operand_address(mode) == Ok::<u16, Fault>(fetched.program_counter));
                if mapped(fetched.program_counter) {
                    assert(fetched.advanced(1).program_counter == m.program_counter + 2);
                }
            },
            Some(Operation::LoadIndexX(mode)) => {
                assert(mode == AddressingMode::Immediate);
                assert(fetched.operand_address(mode) == Ok::<u16, Fault>(fetched.program_counter));
                if mapped(fetched.program_counter) {
                    assert(fetched.advanced(1).program_counter == m.program_counter + 2);
                }
            },
            _ => {},
        }
    }
}

/// What a dispatch cycle does for each entry of the opcode table.
///
/// A halt moves the counter behind the opcode and stops. The two loads
/// take the byte behind the opcode as their value and move the counter
/// behind that byte; where that byte is not mapped they are out of range,
/// with the counter behind the opcode. The transfer and the increment act
/// on the registers and move the counter behind the opcode.
pub proof fn lemma_step_by_opcode(m: Machine)
    requires
        mapped(m.program_counter),
    ensures
        match decoded(m.read(m.program_counter)) {
            Some(Operation::Halt) => m.step() == (m.advanced(1), Ok::<State, Fault>(State::Halted)),
            Some(Operation::LoadAccumulator(_)) => m.step() == (if m.program_counter + 1
                < MEMORY_SIZE {
                (
                    m.advanced(2).load_accumulator(m.memory[m.program_counter + 1]),
                    Ok::<State, Fault>(State::Running),
                )
            } else {
                (m.advanced(1), Err::<State, Fault>(Fault::OutOfRange))
            }),
            Some(Operation::LoadIndexX(_)) => m.step() == (if m.program_counter + 1 < MEMORY_SIZE {
                (
                    m.advanced(2).load_index_x(m.memory[m.program_counter + 1]),
                    Ok::<State, Fault>(State::Running),
                )
            } else {
                (m.advanced(1), Err::<State, Fault>(Fault::OutOfRange))
            }),
            Some(Operation::TransferAccumulatorToIndexX) => m.step() == (
                m.advanced(1).transfer_accumulator_to_index_x(),
                Ok::<State, Fault>(State::Running),
            ),
            Some(Operation::IncrementIndexX) => m.step() == (
                m.advanced(1).increment_index_x(),
                Ok::<State, Fault>(State::Running),
            ),
            None => m.step() == (
                m.advanced(1),
                Err::<State, Fault>(Fault::UnimplementedOpcode(m.read(m.program_counter))),
            ),
        },
{
    let fetched = m.advanced(1);
    assert(fetched.program_counter == m.program_counter + 1);
    if m.program_counter + 1 < MEMORY_SIZE {
        assert(fetched.advanced(1) == m.advanced(2));
    }
}

/// A byte that is not in the opcode table is never skipped: a cycle that
/// fetches it reports it as unimplemented, with the program counter behind
/// it and nothing else changed, and so does a run that starts there.
pub proof fn lemma_unimplemented_opcode_faults(m: Machine)
    requires
        mapped(m.program_counter),
        decoded(m.read(m.program_counter)) is None,
    ensures
        m.step() == (
            m.advanced(1),
            Err::<State, Fault>(Fault::UnimplementedOpcode(m.read(m.program_counter))),
        ),
        m.run() == (
            m.advanced(1),
            Err::<(), Fault>(Fault::UnimplementedOpcode(m.read(m.program_counter))),
        ),
{
}

/// A run that starts at a halt opcode stops at once, with only the program
/// counter moved behind the opcode.
pub proof fn lemma_halt_stops(m: Machine)
    requires
        mapped(m.program_counter),
        m.read(m.program_counter) == OPCODE_HALT,
    ensures
        m.run() == (m.advanced(1), Ok::<(), Fault>(())),
{
}

/// A run is the first cycle followed, if the processor is still running, by
/// the run from there.
pub proof fn lemma_run_unfolds(m: Machine)
    ensures
        m.run() == match m.step().1 {
            Ok(State::Running) => m.step().0.run(),
            Ok(State::Halted) => (m.step().0, Ok::<(), Fault>(())),
            Err(fault) => (m.step().0, Err::<(), Fault>(fault)),
        },
{
}

/// A run never writes memory and never touches the stack pointer or index
/// register Y, and of the flags it changes at most zero and negative.
pub proof fn lemma_run_frame(m: Machine)
    requires
        m.wf(),
    ensures
        m.run().0.wf(),
        m.run().0.memory == m.memory,
        m.run().0.stack_pointer == m.stack_pointer,
        m.run().0.register_y == m.register_y,
        m.run().0.flag == (Flag {
            zero: m.run().0.flag.zero,
            negative: m.run().0.flag.negative,
            ..m.flag
        }),
    decreases MEMORY_SIZE - m.program_counter,
{
    lemma_step_frame(m);
    lemma_step_outcome(m);
    if m.step().1 == Ok::<State, Fault>(State::Running) {
        lemma_run_frame(m.step().0);
    }
}

/// How a run ends. The program counter never moves backward, and the byte
/// before the final counter tells why the run stopped: after a halt that
/// byte is the halt opcode; after an unimplemented opcode it is that opcode,
/// which is not in the table. An out-of-range fault means that the counter
/// has run off the end of memory. An unsupported mode is never reported.
pub proof fn lemma_run_outcome(m: Machine)
    requires
        m.wf(),
    ensures
        m.run().0.program_counter >= m.program_counter,
        match m.run().1 {
            Ok(()) => {
                &&& m.run().0.program_counter > m.program_counter
                &&& m.memory[m.run().0.program_counter - 1] == OPCODE_HALT
            },
            Err(Fault::UnimplementedOpcode(opcode)) => {
                &&& m.run().0.program_counter > m.program_counter
                &&& m.memory[m.run().0.program_counter - 1] == opcode
                &&& decoded(opcode) is None
            },
            Err(Fault::OutOfRange) => !mapped(m.run().0.program_counter),
            Err(Fault::UnsupportedMode) => false,
        },
    decreases MEMORY_SIZE - m.program_counter,
{
    lemma_step_frame(m);
    lemma_step_outcome(m);
    if m.step().1 == Ok::<State, Fault>(State::Running) {
        lemma_run_outcome(m.step().0);
    }
}

/// Once the reset vector holds the program origin it fences the end of
/// memory: its low byte is the halt opcode and its high byte is not in the
/// opcode table. So a run that starts at or before the vector stops there at
/// the latest, and never runs off the end of memory.
pub proof fn lemma_reset_vector_fences_run(m: Machine)
    requires
        m.wf(),
        m.read_word(RESET_VECTOR) == PROGRAM_ORIGIN,
        m.program_counter <= RESET_VECTOR + 1,
    ensures
        m.run().1 != Err::<(), Fault>(Fault::OutOfRange),
        m.run().0.program_counter <= RESET_VECTOR + 2,
    decreases MEMORY_SIZE - m.program_counter,
{
    assert(m.memory[RESET_VECTOR as int] == OPCODE_HALT);
    assert(m.memory[RESET_VECTOR + 1] == 0x80);
    lemma_step_frame(m);
    lemma_step_outcome(m);
    if m.step().1 == Ok::<State, Fault>(State::Running) {
        lemma_reset_vector_fences_run(m.step().0);
    }
}

/// Running a program image that fits starts at the program origin,
/// whatever the registers and flags held before, keeps the image in memory,
/// and ends in a halt or at an unimplemented opcode: it never runs off the
/// end of memory.
pub proof fn lemma_load_and_run_starts_at_origin(m: Machine, program: Seq<u8>)
    requires
        m.wf(),
        fits(program),
    ensures
        m.load_and_run(program) == m.loaded(program).reset().run(),
        m.loaded(program).reset().program_counter == PROGRAM_ORIGIN,
        m.load_and_run(program).0.memory == m.loaded(program).memory,
        m.load_and_run(program).0.stack_pointer == m.stack_pointer,
        m.load_and_run(program).0.program_counter >= PROGRAM_ORIGIN,
        m.load_and_run(program).1 != Err::<(), Fault>(Fault::OutOfRange),
        m.load_and_run(program).1 != Err::<(), Fault>(Fault::UnsupportedMode),
{
    lemma_loaded_image(m, program);
    lemma_run_frame(m.loaded(program).reset());
    lemma_run_outcome(m.loaded(program).reset());
    lemma_reset_vector_fences_run(m.loaded(program).reset());
}

/// A reset wipes out whatever a dispatch cycle or a run did: resetting
/// afterwards gives the same snapshot as resetting before.
pub proof fn lemma_reset_forgets_run(m: Machine)
    requires
        m.wf(),
    ensures
        m.step().0.reset() == m.reset(),
        m.run().0.reset() == m.reset(),
{
    lemma_step_frame(m);
    lemma_run_frame(m);
}

/// A reset after a program was loaded and run, however the run ended,
/// clears the accumulator, the index registers and the flags and puts the
/// program counter back at the program origin, while memory still holds the
/// program image.
pub proof fn lemma_reset_after_run(m: Machine, program: Seq<u8>)
    requires
        m.wf(),
        fits(program),
    ensures
        m.load_and_run(program).0.reset() == m.loaded(program).reset(),
        m.load_and_run(program).0.reset().register_a == 0,
        m.load_and_run(program).0.reset().register_x == 0,
        m.load_and_run(program).0.reset().register_y == 0,
        m.load_and_run(program).0.reset().flag == Flag::cleared(),
        m.load_and_run(program).0.reset().program_counter == PROGRAM_ORIGIN,
        m.load_and_run(program).0.reset().memory == m.loaded(program).memory,
{
    lemma_load_and_run_starts_at_origin(m, program);
}

} // verus!
