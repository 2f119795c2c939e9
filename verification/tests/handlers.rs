use cpu6502::{Cpu, Flag};

#[test]
fn lda_zero_sets_zero_and_clears_negative() {
    let mut cpu = Cpu::new();
    cpu.lda(0x7F);
    cpu.lda(0x00);
    assert_eq!(cpu.register_a(), 0x00);
    assert!(cpu.flag().zero);
    assert!(!cpu.flag().negative);
}

#[test]
fn ldx_zero_sets_zero_and_clears_negative() {
    let mut cpu = Cpu::new();
    cpu.ldx(0xF1);
    cpu.ldx(0x00);
    assert_eq!(cpu.register_x(), 0x00);
    assert!(cpu.flag().zero);
    assert!(!cpu.flag().negative);
}

#[test]
fn lda_with_high_bit_sets_negative_and_clears_zero() {
    for value in [0x80u8, 0xC0, 0xF1, 0xFF] {
        let mut cpu = Cpu::new();
        cpu.lda(0x00);
        cpu.lda(value);
        assert_eq!(cpu.register_a(), value);
        assert!(cpu.flag().negative, "value {:#04x}", value);
        assert!(!cpu.flag().zero, "value {:#04x}", value);
    }
}

#[test]
fn ldx_with_high_bit_sets_negative_and_clears_zero() {
    for value in [0x80u8, 0xC0, 0xF1, 0xFF] {
        let mut cpu = Cpu::new();
        cpu.ldx(0x00);
        cpu.ldx(value);
        assert_eq!(cpu.register_x(), value);
        assert!(cpu.flag().negative, "value {:#04x}", value);
        assert!(!cpu.flag().zero, "value {:#04x}", value);
    }
}

#[test]
fn load_of_a_small_positive_value_clears_both_flags() {
    for value in [0x01u8, 0x05, 0x40, 0x7F] {
        let mut cpu = Cpu::new();
        cpu.lda(0x00);
        cpu.lda(value);
        assert!(!cpu.flag().zero);
        assert!(!cpu.flag().negative);

        cpu.ldx(0xFF);
        cpu.ldx(value);
        assert!(!cpu.flag().zero);
        assert!(!cpu.flag().negative);
    }
}

#[test]
fn flags_follow_every_loaded_value() {
    for value in 0..=255u8 {
        let mut cpu = Cpu::new();
        cpu.lda(value);
        assert_eq!(cpu.flag().zero, value == 0);
        assert_eq!(cpu.flag().negative, value >= 0x80);
        cpu.ldx(value);
        assert_eq!(cpu.flag().zero, value == 0);
        assert_eq!(cpu.flag().negative, value >= 0x80);
    }
}

#[test]
fn lda_leaves_the_other_registers_and_flags_alone() {
    let mut cpu = Cpu::new();
    cpu.set_register_x(0x11);
    cpu.set_register_y(0x22);
    cpu.set_stack_pointer(0x33);
    cpu.set_program_counter(0x4444);
    cpu.lda(0x55);
    assert_eq!(cpu.register_a(), 0x55);
    assert_eq!(cpu.register_x(), 0x11);
    assert_eq!(cpu.register_y(), 0x22);
    assert_eq!(cpu.stack_pointer(), 0x33);
    assert_eq!(cpu.program_counter(), 0x4444);
    assert_eq!(cpu.flag(), Flag::unpack(0));
}

#[test]
fn ldx_leaves_the_accumulator_alone() {
    let mut cpu = Cpu::new();
    cpu.set_register_a(0x66);
    cpu.ldx(0x77);
    assert_eq!(cpu.register_a(), 0x66);
    assert_eq!(cpu.register_x(), 0x77);
}

#[test]
fn tax_copies_the_accumulator_exactly() {
    for value in 0..=255u8 {
        let mut cpu = Cpu::new();
        cpu.set_register_a(value);
        cpu.set_register_x(value.wrapping_add(0x55));
        cpu.tax();
        assert_eq!(cpu.register_x(), value);
        assert_eq!(cpu.register_a(), value);
        assert_eq!(cpu.flag().zero, value == 0);
        assert_eq!(cpu.flag().negative, value >= 0x80);
    }
}

#[test]
fn tax_recomputes_flags_whatever_index_x_left_behind() {
    let mut cpu = Cpu::new();
    cpu.lda(0x05);
    cpu.ldx(0x00);
    assert!(cpu.flag().zero);
    cpu.set_register_a(0xF1);
    cpu.tax();
    assert_eq!(cpu.register_x(), 0xF1);
    assert!(!cpu.flag().zero);
    assert!(cpu.flag().negative);

    let mut cpu = Cpu::new();
    cpu.ldx(0xF1);
    assert!(cpu.flag().negative);
    cpu.set_register_a(0x00);
    cpu.tax();
    assert_eq!(cpu.register_x(), 0x00);
    assert!(cpu.flag().zero);
    assert!(!cpu.flag().negative);
}

#[test]
fn inx_adds_one() {
    let mut cpu = Cpu::new();
    cpu.set_register_x(0x41);
    cpu.inx();
    assert_eq!(cpu.register_x(), 0x42);
    assert!(!cpu.flag().zero);
    assert!(!cpu.flag().negative);
}

#[test]
fn inx_from_0xff_wraps_to_zero_with_zero_flag() {
    let mut cpu = Cpu::new();
    cpu.set_register_x(0xFF);
    cpu.inx();
    assert_eq!(cpu.register_x(), 0x00);
    assert!(cpu.flag().zero);
    assert!(!cpu.flag().negative);
}

#[test]
fn two_increments_from_0xff_give_one() {
    let mut cpu = Cpu::new();
    cpu.set_register_x(0xFF);
    cpu.inx();
    cpu.inx();
    assert_eq!(cpu.register_x(), 0x01);
    assert!(!cpu.flag().zero);
    assert!(!cpu.flag().negative);
}

#[test]
fn inx_from_0x7f_sets_negative() {
    let mut cpu = Cpu::new();
    cpu.set_register_x(0x7F);
    cpu.inx();
    assert_eq!(cpu.register_x(), 0x80);
    assert!(cpu.flag().negative);
    assert!(!cpu.flag().zero);
}

#[test]
fn inx_leaves_the_accumulator_alone() {
    let mut cpu = Cpu::new();
    cpu.set_register_a(0x99);
    cpu.inx();
    assert_eq!(cpu.register_a(), 0x99);
    assert_eq!(cpu.register_x(), 0x01);
}

#[test]
fn handlers_touch_only_the_zero_and_negative_flags() {
    let mut cpu = Cpu::new();
    cpu.lda(0x00);
    let before = cpu.flag();
    cpu.ldx(0x80);
    let after = cpu.flag();
    assert_eq!(after, Flag { zero: false, negative: true, ..before });
    cpu.inx();
    assert_eq!(cpu.flag(), after);
    cpu.lda(0x00);
    cpu.tax();
    assert_eq!(cpu.flag(), before);
}

#[test]
fn setters_store_and_getters_return() {
    let mut cpu = Cpu::new();
    cpu.set_register_a(0x12);
    cpu.set_register_x(0x34);
    cpu.set_register_y(0x56);
    cpu.set_stack_pointer(0x78);
    cpu.set_program_counter(0x9ABC);
    assert_eq!(cpu.register_a(), 0x12);
    assert_eq!(cpu.register_x(), 0x34);
    assert_eq!(cpu.register_y(), 0x56);
    assert_eq!(cpu.stack_pointer(), 0x78);
    assert_eq!(cpu.program_counter(), 0x9ABC);
    assert_eq!(cpu.flag(), Flag::unpack(0));
}

#[test]
fn new_cpu_is_all_zero() {
    let cpu = Cpu::new();
    assert_eq!(cpu.register_a(), 0);
    assert_eq!(cpu.register_x(), 0);
    assert_eq!(cpu.register_y(), 0);
    assert_eq!(cpu.stack_pointer(), 0);
    assert_eq!(cpu.program_counter(), 0);
    assert_eq!(cpu.flag().pack(), 0);
}
