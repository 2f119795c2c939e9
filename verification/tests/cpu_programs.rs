use cpu6502::Cpu;

#[test]
fn cpu_test_0xa9_lda_immediate_load_data() {
    let mut cpu = Cpu::new();
    assert_eq!(cpu.load_and_run(vec![0xa9, 0x05, 0x00]), Ok(()));
    assert_eq!(cpu.register_a(), 0x05);
    assert!(cpu.flag().zero == false);
    assert!(cpu.flag().negative == false);
}

#[test]
fn cpu_test_0xa9_lda_zero_flag() {
    let mut cpu = Cpu::new();
    assert_eq!(cpu.load_and_run(vec![0xa9, 0x00, 0x00]), Ok(()));
    assert!(cpu.flag().zero == true);
}

#[test]
fn cpu_test_0xa2_ldx_immediate_load_data() {
    let mut cpu = Cpu::new();
    assert_eq!(cpu.load_and_run(vec![0xa2, 0x05, 0x00]), Ok(()));
    assert_eq!(cpu.register_x(), 0x05);
    assert!(cpu.flag().zero == false);
    assert!(cpu.flag().negative == false);
}

#[test]
fn cpu_test_0xa2_ldx_zero_flag() {
    let mut cpu = Cpu::new();
    assert_eq!(cpu.load_and_run(vec![0xa2, 0x00, 0x00]), Ok(()));
    assert!(cpu.flag().zero == true);
}

#[test]
fn cpu_test_0xa9_lda_negative_flag() {
    let mut cpu = Cpu::new();
    assert_eq!(cpu.load_and_run(vec![0xa9, 0xf1, 0x00]), Ok(()));
    assert!(cpu.flag().negative == true);
}

#[test]
fn cpu_test_0xaa_tax_move_a_to_x() {
    let mut cpu = Cpu::new();
    cpu.set_register_a(10);
    assert_eq!(cpu.load_and_run(vec![0xa9, 10, 0xaa, 0x00]), Ok(()));

    assert_eq!(cpu.register_x(), 10)
}

#[test]
fn cpu_test_0xaa_tax_move_a_to_x_zero_flag() {
    let mut cpu = Cpu::new();
    cpu.set_register_a(0);
    assert_eq!(cpu.load_and_run(vec![0xa9, 0, 0xaa, 0x00]), Ok(()));

    assert_eq!(cpu.flag().zero, true)
}

#[test]
fn cpu_test_0xaa_tax_move_a_to_x_negative_flag() {
    let mut cpu = Cpu::new();
    assert_eq!(cpu.load_and_run(vec![0xa9, 0xf1, 0xaa, 0x00]), Ok(()));

    assert_eq!(cpu.flag().negative, true)
}

#[test]
fn cpu_test_5_ops_working_together() {
    let mut cpu = Cpu::new();
    assert_eq!(cpu.load_and_run(vec![0xa9, 0xc0, 0xaa, 0xe8, 0x00]), Ok(()));

    assert_eq!(cpu.register_x(), 0xc1)
}

#[test]
fn cpu_test_inx_overflow() {
    let mut cpu = Cpu::new();
    cpu.set_register_x(0xff);
    assert_eq!(cpu.load_and_run(vec![0xa2, 0xff, 0xe8, 0xe8, 0x00]), Ok(()));

    assert_eq!(cpu.register_x(), 1)
}
