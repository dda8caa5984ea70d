use nes_emulator::bus::Bus;
use nes_emulator::cpu::{AddressingMode, CPU};
use nes_emulator::rom::ROM;

fn new_cpu() -> CPU {
    CPU::new(Bus::new(ROM::empty()))
}

#[test]
fn test_0xa9_lda_immediate_load() {
    let mut cpu = new_cpu();
    cpu.load_and_execute(vec![0xA9, 0x42, 0x00]);
    assert_eq!(cpu.register_accumulator, 0x42);
    assert_eq!(cpu.status.status & 0b0000_0010, 0);
}

#[test]
fn test_0xa9_lda_immediate_negative_flag() {
    let mut cpu = new_cpu();
    cpu.load_and_execute(vec![0xA9, 0xFF, 0x00]);
    assert_eq!(cpu.status.status & 0b1000_0000, 0b1000_0000);
}

#[test]
fn test_0xa9_lda_zero_flag() {
    let mut cpu = new_cpu();
    cpu.load_and_execute(vec![0xA9, 0x00, 0x00]);
    assert_eq!(cpu.status.status & 0b0000_0010, 0b10);
}

#[test]
fn test_0xaa_tax_immediate_load() {
    let mut cpu = new_cpu();
    cpu.load_and_execute(vec![0xA9, 0x42, 0xAA, 0x00]);
    assert_eq!(cpu.index_register_x, 0x42);
}

#[test]
fn test_5_ops_working_together() {
    let mut cpu = new_cpu();
    cpu.load_and_execute(vec![0xA9, 0xC0, 0xAA, 0xE8, 0x00]);

    assert_eq!(cpu.index_register_x, 0xC1)
}

#[test]
fn test_inx_overflow() {
    let mut cpu = new_cpu();
    cpu.load_and_execute(vec![0xA9, 0xFF, 0xAA, 0xE8, 0xE8, 0x00]);

    assert_eq!(cpu.index_register_x, 1)
}

#[test]
fn test_lda_from_memory() {
    let mut cpu = new_cpu();
    cpu.write_mem(0x10, 0x55);
    cpu.load_and_execute(vec![0xa5, 0x10, 0x00]);

    assert_eq!(cpu.register_accumulator, 0x55);
}

#[test]
fn test_sta() {
    let mut cpu = new_cpu();
    cpu.load_and_execute(vec![0xa9, 0x42, 0x85, 0x10]);
    assert_eq!(cpu.read_mem(0x10), 0x42);
}

#[test]
fn test_get_operand_address_zero_page() {
    let mut cpu = new_cpu();
    cpu.load_program(vec![0x10]);
    cpu.reset();
    let addr = cpu.get_operand_address(&AddressingMode::ZeroPage);
    assert_eq!(addr, 0x10);
}
