//! The processor status register: seven condition flags and their encoding
//! as one byte.

use vstd::arithmetic::power2::{lemma2_to64, pow2};
use vstd::prelude::*;

verus! {

/// Bit position of the carry flag in the packed status byte.
pub const C_BYTE_POSITION: u8 = 0;

/// Bit position of the zero flag.
pub const Z_BYTE_POSITION: u8 = 1;

/// Bit position of the interrupt-disable flag.
pub const I_BYTE_POSITION: u8 = 2;

/// Bit position of the decimal-mode flag.
pub const D_BYTE_POSITION: u8 = 3;

/// Bit position of the break-command flag.
pub const B_BYTE_POSITION: u8 = 4;

/// Bit position that no flag occupies; it is always clear in a packed byte.
pub const UNUSED_BYTE_POSITION: u8 = 5;

/// Bit position of the overflow flag.
pub const V_BYTE_POSITION: u8 = 6;

/// Bit position of the negative flag.
pub const N_BYTE_POSITION: u8 = 7;

/// Whether bit `position` of `byte` is set, counting from the least
/// significant bit.
pub open spec fn bit_of(byte: u8, position: u8) -> bool {
    (byte as nat / pow2(position as nat)) % 2 == 1
}

/// What a flag contributes to the packed byte: `2^position` when it is set,
/// nothing when it is clear.
pub open spec fn weight(set: bool, position: u8) -> nat {
    if set {
        pow2(position as nat)
    } else {
        0
    }
}

/// The seven condition flags of the processor.
#[derive(Clone, Copy, Debug, PartialEq, Eq, Structural)]
pub struct Flag {
    pub break_command: bool,
    pub carry: bool,
    pub decimal_mode: bool,
    pub interrupt: bool,
    pub negative: bool,
    pub overflow: bool,
    pub zero: bool,
}

impl Flag {
    /// The register with every flag clear.
    pub open spec fn cleared() -> Flag {
        Flag {
            break_command: false,
            carry: false,
            decimal_mode: false,
            interrupt: false,
            negative: false,
            overflow: false,
            zero: false,
        }
    }

    /// The value of the packed byte: the sum of the weights of the flags
    /// that are set.
    pub open spec fn packed(self) -> nat {
        weight(self.carry, C_BYTE_POSITION) + weight(self.zero, Z_BYTE_POSITION) + weight(
            self.interrupt,
            I_BYTE_POSITION,
        ) + weight(self.decimal_mode, D_BYTE_POSITION) + weight(
            self.break_command,
            B_BYTE_POSITION,
        ) + weight(self.overflow, V_BYTE_POSITION) + weight(self.negative, N_BYTE_POSITION)
    }

    /// The flags that a status byte stands for: each flag is the bit at its
    /// position, and bit 5 is ignored.
    pub open spec fn unpacked(byte: u8) -> Flag {
        Flag {
            break_command: bit_of(byte, B_BYTE_POSITION),
            carry: bit_of(byte, C_BYTE_POSITION),
            decimal_mode: bit_of(byte, D_BYTE_POSITION),
            interrupt: bit_of(byte, I_BYTE_POSITION),
            negative: bit_of(byte, N_BYTE_POSITION),
            overflow: bit_of(byte, V_BYTE_POSITION),
            zero: bit_of(byte, Z_BYTE_POSITION),
        }
    }

    /// Packs the flags into one byte, each at its bit position. The unused
    /// bit is clear, and unpacking the byte gives the flags back.
    pub fn pack(&self) -> (byte: u8)
        ensures
            byte == self.packed(),
            !bit_of(byte, UNUSED_BYTE_POSITION),
            Flag::unpacked(byte) == *self,
    {
        let c: u8 = if self.carry { 1 } else { 0 };
        let z: u8 = if self.zero { 1 } else { 0 };
        let i: u8 = if self.interrupt { 1 } else { 0 };
        let d: u8 = if self.decimal_mode { 1 } else { 0 };
        let b: u8 = if self.break_command { 1 } else { 0 };
        let v: u8 = if self.overflow { 1 } else { 0 };
        let n: u8 = if self.negative { 1 } else { 0 };
        proof {
            lemma2_to64();
            lemma_unpack_of_pack(*self);
            assert(c << 0u8 | z << 1u8 | i << 2u8 | d << 3u8 | b << 4u8 | v << 6u8 | n << 7u8 == c
                + 2 * z + 4 * i + 8 * d + 16 * b + 64 * v + 128 * n) by (bit_vector)
                requires
                    c <= 1,
                    z <= 1,
                    i <= 1,
                    d <= 1,
                    b <= 1,
                    v <= 1,
                    n <= 1,
            ;
        }
        c << C_BYTE_POSITION | z << Z_BYTE_POSITION | i << I_BYTE_POSITION | d << D_BYTE_POSITION
            | b << B_BYTE_POSITION | v << V_BYTE_POSITION | n << N_BYTE_POSITION
    }

    /// Reads the flags out of a status byte. The unused bit is ignored:
    /// packing the flags gives the byte back with that bit clear.
    pub fn unpack(value: u8) -> (flag: Flag)
        ensures
            flag == Flag::unpacked(value),
            flag.packed() == value - weight(
                bit_of(value, UNUSED_BYTE_POSITION),
                UNUSED_BYTE_POSITION,
            ),
    {
        proof {
            lemma_bit_of_is_shift_and_mask(value);
            lemma_pack_of_unpack(value);
        }
        let carry = ((value >> C_BYTE_POSITION) & 0b1) != 0;
        let zero = ((value >> Z_BYTE_POSITION) & 0b1) != 0;
        let interrupt = ((value >> I_BYTE_POSITION) & 0b1) != 0;
        let decimal_mode = ((value >> D_BYTE_POSITION) & 0b1) != 0;
        let break_command = ((value >> B_BYTE_POSITION) & 0b1) != 0;
        let overflow = ((value >> V_BYTE_POSITION) & 0b1) != 0;
        let negative = ((value >> N_BYTE_POSITION) & 0b1) != 0;

        Flag { break_command, carry, decimal_mode, interrupt, negative, overflow, zero }
    }

    /// Clears every flag.
    pub fn reset(&mut self)
        ensures
            *final(self) == Flag::cleared(),
    {
        self.break_command = false;
        self.carry = false;
        self.decimal_mode = false;
        self.interrupt = false;
        self.negative = false;
        self.overflow = false;
        self.zero = false;
    }
}

/// Shifting a byte right by `position` and masking the lowest bit reads the
/// bit that `bit_of` names.
proof fn lemma_bit_of_is_shift_and_mask(byte: u8)
    ensures
        forall|position: u8|
            position < 8 ==> (#[trigger] bit_of(byte, position) <==> (byte >> position) & 1 != 0),
{
    lemma2_to64();
    assert(((byte >> 0u8) & 1 != 0) <==> (byte / 1) % 2 == 1) by (bit_vector);
    assert(((byte >> 1u8) & 1 != 0) <==> (byte / 2) % 2 == 1) by (bit_vector);
    assert(((byte >> 2u8) & 1 != 0) <==> (byte / 4) % 2 == 1) by (bit_vector);
    assert(((byte >> 3u8) & 1 != 0) <==> (byte / 8) % 2 == 1) by (bit_vector);
    assert(((byte >> 4u8) & 1 != 0) <==> (byte / 16) % 2 == 1) by (bit_vector);
    assert(((byte >> 5u8) & 1 != 0) <==> (byte / 32) % 2 == 1) by (bit_vector);
    assert(((byte >> 6u8) & 1 != 0) <==> (byte / 64) % 2 == 1) by (bit_vector);
    assert(((byte >> 7u8) & 1 != 0) <==> (byte / 128) % 2 == 1) by (bit_vector);
}

/// Packing flags and reading the byte back gives the same flags, and the
/// unused bit of the packed byte is clear.
pub proof fn lemma_unpack_of_pack(flag: Flag)
    ensures
        flag.packed() <= u8::MAX,
        Flag::unpacked(flag.packed() as u8) == flag,
        !bit_of(flag.packed() as u8, UNUSED_BYTE_POSITION),
{
    lemma2_to64();
    let c: u8 = if flag.carry { 1 } else { 0 };
    let z: u8 = if flag.zero { 1 } else { 0 };
    let i: u8 = if flag.interrupt { 1 } else { 0 };
    let d: u8 = if flag.decimal_mode { 1 } else { 0 };
    let b: u8 = if flag.break_command { 1 } else { 0 };
    let v: u8 = if flag.overflow { 1 } else { 0 };
    let n: u8 = if flag.negative { 1 } else { 0 };
    let byte: u8 = (c + 2 * z + 4 * i + 8 * d + 16 * b + 64 * v + 128 * n) as u8;
    assert(byte == flag.packed());
    assert((byte >> 0u8) & 1 == c && (byte >> 1u8) & 1 == z && (byte >> 2u8) & 1 == i && (byte
        >> 3u8) & 1 == d && (byte >> 4u8) & 1 == b && (byte >> 5u8) & 1 == 0 && (byte >> 6u8) & 1
        == v && (byte >> 7u8) & 1 == n) by (bit_vector)
        requires
            c <= 1,
            z <= 1,
            i <= 1,
            d <= 1,
            b <= 1,
            v <= 1,
            n <= 1,
            byte == c + 2 * z + 4 * i + 8 * d + 16 * b + 64 * v + 128 * n,
    ;
    lemma_bit_of_is_shift_and_mask(byte);
}

/// Reading flags out of a byte and packing them again reproduces every bit
/// of the byte but the unused one, which comes back clear.
pub proof fn lemma_pack_of_unpack(byte: u8)
    ensures
        Flag::unpacked(byte).packed() == byte - weight(
            bit_of(byte, UNUSED_BYTE_POSITION),
            UNUSED_BYTE_POSITION,
        ),
        forall|position: u8|
            position < 8 ==> (#[trigger] bit_of(Flag::unpacked(byte).packed() as u8, position) <==> (
            position != UNUSED_BYTE_POSITION && bit_of(byte, position))),
{
    lemma2_to64();
    assert(byte == (byte / 1) % 2 + 2 * ((byte / 2) % 2) + 4 * ((byte / 4) % 2) + 8 * ((byte / 8)
        % 2) + 16 * ((byte / 16) % 2) + 32 * ((byte / 32) % 2) + 64 * ((byte / 64) % 2) + 128 * ((
    byte / 128) % 2)) by (bit_vector);
    let flag = Flag::unpacked(byte);
    lemma_unpack_of_pack(flag);
    let again = flag.packed() as u8;
    assert forall|position: u8| position < 8 implies (#[trigger] bit_of(again, position) <==> (
    position != UNUSED_BYTE_POSITION && bit_of(byte, position))) by {
        assert(Flag::unpacked(again) == flag);
        assert(position == 0 || position == 1 || position == 2 || position == 3 || position == 4
            || position == 5 || position == 6 || position == 7);
    }
}

} // verus!
