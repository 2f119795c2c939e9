use cpu6502::flag::{
    B_BYTE_POSITION, C_BYTE_POSITION, D_BYTE_POSITION, I_BYTE_POSITION, N_BYTE_POSITION,
    UNUSED_BYTE_POSITION, V_BYTE_POSITION, Z_BYTE_POSITION,
};
use cpu6502::Flag;

fn cleared() -> Flag {
    Flag::unpack(0)
}

#[test]
fn bit_positions_follow_the_status_byte_layout() {
    assert_eq!(C_BYTE_POSITION, 0);
    assert_eq!(Z_BYTE_POSITION, 1);
    assert_eq!(I_BYTE_POSITION, 2);
    assert_eq!(D_BYTE_POSITION, 3);
    assert_eq!(B_BYTE_POSITION, 4);
    assert_eq!(UNUSED_BYTE_POSITION, 5);
    assert_eq!(V_BYTE_POSITION, 6);
    assert_eq!(N_BYTE_POSITION, 7);
}

#[test]
fn unpack_zero_clears_every_flag() {
    let flag = Flag::unpack(0x00);
    assert!(!flag.carry);
    assert!(!flag.zero);
    assert!(!flag.interrupt);
    assert!(!flag.decimal_mode);
    assert!(!flag.break_command);
    assert!(!flag.overflow);
    assert!(!flag.negative);
}

#[test]
fn unpack_reads_each_flag_from_its_own_bit() {
    assert!(Flag::unpack(0b0000_0001).carry);
    assert!(Flag::unpack(0b0000_0010).zero);
    assert!(Flag::unpack(0b0000_0100).interrupt);
    assert!(Flag::unpack(0b0000_1000).decimal_mode);
    assert!(Flag::unpack(0b0001_0000).break_command);
    assert!(Flag::unpack(0b0100_0000).overflow);
    assert!(Flag::unpack(0b1000_0000).negative);

    assert_eq!(Flag::unpack(0b0000_0001), Flag { carry: true, ..cleared() });
    assert_eq!(Flag::unpack(0b0000_0010), Flag { zero: true, ..cleared() });
    assert_eq!(Flag::unpack(0b0000_0100), Flag { interrupt: true, ..cleared() });
    assert_eq!(Flag::unpack(0b0000_1000), Flag { decimal_mode: true, ..cleared() });
    assert_eq!(Flag::unpack(0b0001_0000), Flag { break_command: true, ..cleared() });
    assert_eq!(Flag::unpack(0b0100_0000), Flag { overflow: true, ..cleared() });
    assert_eq!(Flag::unpack(0b1000_0000), Flag { negative: true, ..cleared() });
}

#[test]
fn unpack_ignores_the_unused_bit() {
    assert_eq!(Flag::unpack(0b0010_0000), cleared());
    assert_eq!(Flag::unpack(0xFF), Flag::unpack(0xDF));
}

#[test]
fn pack_puts_each_flag_at_its_own_bit() {
    assert_eq!(cleared().pack(), 0x00);
    assert_eq!(Flag { carry: true, ..cleared() }.pack(), 0x01);
    assert_eq!(Flag { zero: true, ..cleared() }.pack(), 0x02);
    assert_eq!(Flag { interrupt: true, ..cleared() }.pack(), 0x04);
    assert_eq!(Flag { decimal_mode: true, ..cleared() }.pack(), 0x08);
    assert_eq!(Flag { break_command: true, ..cleared() }.pack(), 0x10);
    assert_eq!(Flag { overflow: true, ..cleared() }.pack(), 0x40);
    assert_eq!(Flag { negative: true, ..cleared() }.pack(), 0x80);
}

#[test]
fn pack_of_every_flag_leaves_the_unused_bit_clear() {
    let all = Flag {
        break_command: true,
        carry: true,
        decimal_mode: true,
        interrupt: true,
        negative: true,
        overflow: true,
        zero: true,
    };
    assert_eq!(all.pack(), 0xDF);
}

#[test]
fn pack_of_zero_and_negative() {
    let flag = Flag { zero: true, negative: true, ..cleared() };
    assert_eq!(flag.pack(), 0x82);
}

#[test]
fn pack_after_unpack_reproduces_every_byte_but_bit_five() {
    for byte in 0..=255u8 {
        assert_eq!(Flag::unpack(byte).pack(), byte & 0xDF, "byte {:#04x}", byte);
    }
}

#[test]
fn unpack_after_pack_reproduces_every_flag_combination() {
    for bits in 0..128u8 {
        let flag = Flag {
            carry: bits & 1 != 0,
            zero: bits & 2 != 0,
            interrupt: bits & 4 != 0,
            decimal_mode: bits & 8 != 0,
            break_command: bits & 16 != 0,
            overflow: bits & 32 != 0,
            negative: bits & 64 != 0,
        };
        assert_eq!(Flag::unpack(flag.pack()), flag);
        assert_eq!(flag.pack() & 0x20, 0);
    }
}

#[test]
fn flag_reset_clears_every_flag() {
    let mut flag = Flag::unpack(0xFF);
    flag.reset();
    assert_eq!(flag, cleared());
    assert_eq!(flag.pack(), 0);
}

#[test]
fn flag_reset_of_cleared_flags_changes_nothing() {
    let mut flag = cleared();
    flag.reset();
    assert_eq!(flag, cleared());
}
