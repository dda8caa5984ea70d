use nes_emulator::bus::Bus;
use nes_emulator::cpu::{AddressingMode, Mem, CPU};
use nes_emulator::cpu_state::{Halt, Step};
use nes_emulator::opcodes::{lookup, Mnemonic};
use nes_emulator::rom::{NES_TAG, PRG_ROM_PAGE_SIZE, ROM};
use nes_emulator::status_flags::StatusFlag;

const C: u8 = 0b0000_0001;
const Z: u8 = 0b0000_0010;
const V: u8 = 0b0100_0000;
const N: u8 = 0b1000_0000;

fn new_cpu() -> CPU {
    CPU::new(Bus::new(ROM::empty()))
}

fn run(program: Vec<u8>) -> CPU {
    let mut cpu = new_cpu();
    assert_eq!(cpu.load_and_execute(program), Halt::Break);
    cpu
}

fn sixteen_k_rom() -> ROM {
    let mut raw: Vec<u8> = vec![0x00; 16 + PRG_ROM_PAGE_SIZE];
    raw[0..4].copy_from_slice(&NES_TAG);
    raw[4] = 0x01;
    for i in 0..PRG_ROM_PAGE_SIZE {
        raw[16 + i] = (i % 251) as u8;
    }
    ROM::new(raw).unwrap()
}

#[test]
fn reset_state() {
    let mut cpu = new_cpu();
    cpu.load_program(vec![0xEA]);
    cpu.reset();
    assert_eq!(cpu.program_counter, 0x8000);
    assert_eq!(cpu.stack_pointer, 0xFD);
    assert_eq!(cpu.status.status, 0b0010_0100);
    assert_eq!(cpu.register_accumulator, 0);
}

#[test]
fn lda_immediate_scenario() {
    let cpu = run(vec![0xA9, 0x42, 0x00]);
    assert_eq!(cpu.register_accumulator, 0x42);
    assert_eq!(cpu.status.status & (Z | N), 0);
}

#[test]
fn lda_negative_scenario() {
    let cpu = run(vec![0xA9, 0xFF, 0x00]);
    assert_eq!(cpu.register_accumulator, 0xFF);
    assert_eq!(cpu.status.status & N, N);
}

#[test]
fn lda_tax_inx_scenario() {
    let cpu = run(vec![0xA9, 0xC0, 0xAA, 0xE8, 0x00]);
    assert_eq!(cpu.index_register_x, 0xC1);
}

#[test]
fn adc_immediate_scenario() {
    let cpu = run(vec![0xA9, 0x55, 0x69, 0x10, 0x00]);
    assert_eq!(cpu.register_accumulator, 0x65);
    assert_eq!(cpu.status.status & (C | V), 0);
}

#[test]
fn pha_pla_scenario() {
    let cpu = run(vec![0xA9, 0xFA, 0x48, 0xA9, 0x10, 0x68, 0x00]);
    assert_eq!(cpu.register_accumulator, 0xFA);
    assert_eq!(cpu.stack_pointer, 0xFD);
}

#[test]
fn jsr_rts_scenario() {
    let mut rom = ROM::empty();
    rom.prg_rom[0xCAFD - 0x8000] = 0x60;
    let mut cpu = CPU::new(Bus::new(rom));
    cpu.load_program(vec![0x20, 0xFD, 0xCA, 0x60]);
    cpu.reset();
    assert_eq!(cpu.step(), Step::Continue);
    assert_eq!(cpu.program_counter, 0xCAFD);
    assert_eq!(cpu.read_mem(0x01FD), 0x80);
    assert_eq!(cpu.read_mem(0x01FC), 0x02);
    assert_eq!(cpu.step(), Step::Continue);
    assert_eq!(cpu.program_counter, 0x8003);
    assert_eq!(cpu.stack_pointer, 0xFD);
}

#[test]
fn jsr_pushes_return_address() {
    let mut cpu = new_cpu();
    cpu.load_and_execute(vec![0x20, 0xFD, 0xCA]);
    assert_eq!(cpu.stack_pull_u16(), 0x8002);
    assert_eq!(cpu.program_counter, 0xCAFE);
}

#[test]
fn inx_wraps_and_sets_zero() {
    let cpu = run(vec![0xA2, 0xFF, 0xE8, 0x00]);
    assert_eq!(cpu.index_register_x, 0x00);
    assert_eq!(cpu.status.status & Z, Z);
}

#[test]
fn adc_signed_overflow() {
    let cpu = run(vec![0xA9, 0x50, 0x69, 0x50, 0x00]);
    assert_eq!(cpu.register_accumulator, 0xA0);
    assert_eq!(cpu.status.status & (V | C | N), V | N);
}

#[test]
fn adc_carry_out() {
    let cpu = run(vec![0xA9, 0xFF, 0x69, 0x10, 0x00]);
    assert_eq!(cpu.register_accumulator, 0x0F);
    assert_eq!(cpu.status.status & (C | V | Z), C);
}

#[test]
fn sbc_with_borrow() {
    let cpu = run(vec![0xA9, 0x00, 0xE9, 0x02, 0x00]);
    assert_eq!(cpu.register_accumulator, 0xFD);
    assert_eq!(cpu.status.status & (C | N), N);
}

#[test]
fn sbc_with_carry_set() {
    let cpu = run(vec![0x38, 0xA9, 0x55, 0xE9, 0x10, 0x00]);
    assert_eq!(cpu.register_accumulator, 0x45);
    assert_eq!(cpu.status.status & C, C);
}

#[test]
fn jmp_indirect_page_boundary() {
    let mut cpu = new_cpu();
    cpu.write_mem(0x0000, 0x40);
    cpu.write_mem(0x00FF, 0x50);
    cpu.write_mem(0x0100, 0x30);
    cpu.load_program(vec![0x6C, 0xFF, 0x00]);
    cpu.reset();
    assert_eq!(cpu.step(), Step::Continue);
    assert_eq!(cpu.program_counter, 0x4050);
}

#[test]
fn jmp_indirect_within_page() {
    let mut cpu = new_cpu();
    cpu.write_mem_u16(0x0120, 0x1234);
    cpu.load_program(vec![0x6C, 0x20, 0x01]);
    cpu.reset();
    cpu.step();
    assert_eq!(cpu.program_counter, 0x1234);
}

#[test]
fn branch_taken_forward() {
    let mut cpu = new_cpu();
    cpu.load_program(vec![0x90, 0x06]);
    cpu.reset();
    assert_eq!(cpu.step(), Step::Continue);
    assert_eq!(cpu.program_counter, 0x8008);
}

#[test]
fn branch_not_taken_and_backward() {
    let mut cpu = new_cpu();
    cpu.load_program(vec![0x38, 0x90, 0x06, 0xB0, 0xFB]);
    cpu.reset();
    cpu.step();
    cpu.step();
    assert_eq!(cpu.program_counter, 0x8003);
    cpu.step();
    assert_eq!(cpu.program_counter, 0x8000);
}

#[test]
fn unknown_opcode_halts() {
    let mut cpu = new_cpu();
    assert_eq!(cpu.load_and_execute(vec![0xA9, 0x01, 0x02]), Halt::UnknownOpcode(0x02));
    assert_eq!(cpu.program_counter, 0x8002);
    assert_eq!(cpu.register_accumulator, 0x01);
}

#[test]
fn plp_keeps_unused_bit() {
    let cpu = run(vec![0xA9, 0x00, 0x48, 0x28, 0x00]);
    assert_eq!(cpu.status.status, 0b0010_0000);
}

#[test]
fn php_pushes_break_and_unused_bits() {
    let cpu = run(vec![0x08, 0x00]);
    assert_eq!(cpu.read_mem(0x01FD), 0b0011_0100);
    assert_eq!(cpu.status.status, 0b0010_0100);
}

#[test]
fn rti_pulls_status_then_pc() {
    // Pushes PCH 0x90, PCL 0x10, then P 0xFF; RTI returns to 0x9010.
    let mut cpu = new_cpu();
    cpu.load_program(vec![0xA9, 0x90, 0x48, 0xA9, 0x10, 0x48, 0xA9, 0xFF, 0x48, 0x40]);
    cpu.reset();
    for _ in 0..7 {
        cpu.step();
    }
    assert_eq!(cpu.program_counter, 0x9010);
    assert_eq!(cpu.status.status, 0b1110_1111);
}

#[test]
fn bit_takes_v_and_n_from_memory() {
    let mut cpu = new_cpu();
    cpu.write_mem(0x10, 0xC0);
    cpu.load_and_execute(vec![0xA9, 0x01, 0x24, 0x10, 0x00]);
    assert!(cpu.status.get_flag(StatusFlag::Zero));
    assert!(cpu.status.get_flag(StatusFlag::Overflow));
    assert!(cpu.status.get_flag(StatusFlag::Negative));
}

#[test]
fn compare_sets_carry_zero_negative() {
    let cpu = run(vec![0xA9, 0x42, 0xC9, 0x42, 0x00]);
    assert_eq!(cpu.status.status & (C | Z | N), C | Z);
    let cpu = run(vec![0xA9, 0x42, 0xC9, 0xC2, 0x00]);
    assert_eq!(cpu.status.status & (C | Z | N), N);
}

#[test]
fn shifts_on_accumulator_and_memory() {
    let cpu = run(vec![0xA9, 0xF0, 0x0A, 0x00]);
    assert_eq!(cpu.register_accumulator, 0xE0);
    assert_eq!(cpu.status.status & (C | N), C | N);
    let mut cpu = new_cpu();
    cpu.write_mem(0x10, 0x01);
    cpu.load_and_execute(vec![0x46, 0x10, 0x00]);
    assert_eq!(cpu.read_mem(0x10), 0x00);
    assert_eq!(cpu.status.status & (C | Z), C | Z);
}

#[test]
fn rotates_bring_in_previous_carry() {
    let cpu = run(vec![0xA9, 0b1000_0010, 0x2A, 0x00]);
    assert_eq!(cpu.register_accumulator, 0b0000_0100);
    assert_eq!(cpu.status.status & C, C);
    let cpu = run(vec![0x38, 0xA9, 0b0000_0010, 0x6A, 0x00]);
    assert_eq!(cpu.register_accumulator, 0b1000_0001);
    assert_eq!(cpu.status.status & C, 0);
}

#[test]
fn inc_dec_memory_wrap() {
    let mut cpu = new_cpu();
    cpu.write_mem(0x10, 0xFF);
    cpu.write_mem(0x11, 0x00);
    cpu.load_and_execute(vec![0xE6, 0x10, 0xC6, 0x11, 0x00]);
    assert_eq!(cpu.read_mem(0x10), 0x00);
    assert_eq!(cpu.read_mem(0x11), 0xFF);
    assert_eq!(cpu.status.status & N, N);
}

#[test]
fn increment_and_decrement_wrap() {
    let mut cpu = new_cpu();
    assert_eq!(cpu.increment(0xFF), 0x00);
    assert!(cpu.status.get_flag(StatusFlag::Zero));
    assert_eq!(cpu.decrement(0x00), 0xFF);
    assert!(cpu.status.get_flag(StatusFlag::Negative));
}

#[test]
fn stack_round_trip() {
    let mut cpu = new_cpu();
    let sp = cpu.stack_pointer;
    cpu.stack_push(0xAB);
    assert_eq!(cpu.stack_pointer, sp.wrapping_sub(1));
    assert_eq!(cpu.stack_pull(), 0xAB);
    assert_eq!(cpu.stack_pointer, sp);
    cpu.stack_push_u16(0xCAFE);
    assert_eq!(cpu.stack_pull_u16(), 0xCAFE);
    assert_eq!(cpu.stack_pointer, sp);
}

#[test]
fn stack_pointer_wraps() {
    let mut cpu = new_cpu();
    cpu.stack_pointer = 0x00;
    cpu.stack_push(0x11);
    assert_eq!(cpu.stack_pointer, 0xFF);
    assert_eq!(cpu.read_mem(0x0100), 0x11);
    assert_eq!(cpu.stack_pull(), 0x11);
    assert_eq!(cpu.stack_pointer, 0x00);
}

#[test]
fn ram_round_trip_and_mirrors() {
    let mut bus = Bus::new(ROM::empty());
    bus.write_mem(0x1803, 0x77);
    assert_eq!(bus.read_mem(0x1803), 0x77);
    assert_eq!(bus.read_mem(0x0003), 0x77);
    assert_eq!(bus.read_mem(0x0803), 0x77);
    bus.write_mem_u16(0x0200, 0xBEEF);
    assert_eq!(bus.read_mem(0x0200), 0xEF);
    assert_eq!(bus.read_mem_u16(0x0A00), 0xBEEF);
}

#[test]
fn unmapped_regions_read_zero() {
    let mut bus = Bus::new(ROM::empty());
    bus.write_mem(0x2000, 0x12);
    bus.write_mem(0x4016, 0x34);
    assert_eq!(bus.read_mem(0x2000), 0);
    assert_eq!(bus.read_mem(0x4016), 0);
}

#[test]
fn prg_mirroring_sixteen_k() {
    let bus = Bus::new(sixteen_k_rom());
    assert_eq!(bus.read_mem(0x8005), 5);
    assert_eq!(bus.read_mem(0xC005), 5);
    assert_eq!(bus.read_mem(0xBFFF), bus.read_mem(0xFFFF));
    assert_eq!(bus.read_mem(0x8000 + 300), (300 % 251) as u8);
}

#[test]
fn prg_linear_thirty_two_k() {
    let mut rom = ROM::empty();
    rom.prg_rom[0x0005] = 0x11;
    rom.prg_rom[0x4005] = 0x22;
    let bus = Bus::new(rom);
    assert_eq!(bus.read_mem(0x8005), 0x11);
    assert_eq!(bus.read_mem(0xC005), 0x22);
}

#[test]
fn load_rom_replaces_cartridge() {
    let mut bus = Bus::new(ROM::empty());
    bus.write_mem(0x0010, 0x99);
    bus.load_rom(sixteen_k_rom());
    assert_eq!(bus.read_mem(0xC007), 7);
    assert_eq!(bus.read_mem(0x0010), 0x99);
}

#[test]
fn load_test_program_runs_from_ram() {
    let mut cpu = new_cpu();
    cpu.load_test(vec![0xA9, 0x07, 0x00]);
    cpu.reset();
    assert_eq!(cpu.program_counter, 0x0600);
    assert_eq!(cpu.execute(), Halt::Break);
    assert_eq!(cpu.register_accumulator, 0x07);
}

#[test]
fn opcode_table_lookup() {
    let op = lookup(0xA9).unwrap();
    assert_eq!(op.mnemonic, Mnemonic::LDA);
    assert_eq!(op.label, "LDA");
    assert_eq!(op.bytes, 2);
    assert_eq!(op.cycles, 2);
    assert_eq!(op.addressing_mode, AddressingMode::Immediate);
    let op = lookup(0x8D).unwrap();
    assert_eq!(op.bytes, 3);
    assert_eq!(op.addressing_mode, AddressingMode::Absolute);
    assert_eq!(lookup(0x02).unwrap_err().0, 0x02);
    let known = (0..=255u8).filter(|b| lookup(*b).is_ok()).count();
    assert_eq!(known, 151);
}

#[test]
fn transfers_and_stores() {
    let cpu = run(vec![0xA2, 0x42, 0x8A, 0xA0, 0x17, 0x8C, 0x00, 0x02, 0x8E, 0x01, 0x02, 0xBA, 0x00]);
    assert_eq!(cpu.register_accumulator, 0x42);
    assert_eq!(cpu.read_mem(0x0200), 0x17);
    assert_eq!(cpu.read_mem(0x0201), 0x42);
    assert_eq!(cpu.index_register_x, 0xFD);
}

#[test]
fn indexed_and_indirect_addressing() {
    let mut cpu = new_cpu();
    cpu.write_mem(0x00FF, 0x00);
    cpu.write_mem(0x0000, 0x03);
    cpu.write_mem(0x0305, 0x99);
    cpu.write_mem(0x0300, 0x66);
    // LDY #5; LDA ($FF),Y -> pointer bytes at 0xFF and 0x00 (wrapped)
    cpu.load_and_execute(vec![0xA0, 0x05, 0xB1, 0xFF, 0x00]);
    assert_eq!(cpu.register_accumulator, 0x99);
    // LDX #1; LDA ($FE,X) -> pointer at 0xFF
    cpu.load_and_execute(vec![0xA2, 0x01, 0xA1, 0xFE, 0x00]);
    assert_eq!(cpu.register_accumulator, 0x66);
}

#[test]
fn callback_runs_before_each_instruction() {
    let mut cpu = new_cpu();
    cpu.load_program(vec![0xA5, 0xFE, 0xEA, 0x00]);
    cpu.reset();
    let mut calls = 0u32;
    let halt = cpu.execute_with_callback(|c: &mut CPU| {
        calls += 1;
        c.write_mem(0xFE, 0x0C);
    });
    assert_eq!(halt, Halt::Break);
    assert_eq!(calls, 3);
    assert_eq!(cpu.register_accumulator, 0x0C);
}

fn copy_word<M: Mem>(m: &mut M, from: u16, to: u16) {
    let w = Mem::read_mem_u16(m, from);
    Mem::write_mem_u16(m, to, w);
}

#[test]
fn mem_trait_on_bus_and_cpu() {
    let mut bus = Bus::new(ROM::empty());
    Mem::write_mem(&mut bus, 0x0010, 0x34);
    Mem::write_mem(&mut bus, 0x0011, 0x12);
    copy_word(&mut bus, 0x0010, 0x0020);
    assert_eq!(bus.read_mem_u16(0x0020), 0x1234);
    let mut cpu = CPU::new(bus);
    copy_word(&mut cpu, 0x0020, 0x0030);
    assert_eq!(Mem::read_mem(&cpu, 0x0031), 0x12);
    assert_eq!(cpu.register_accumulator, 0);
}

#[test]
fn trace_line_format() {
    let mut cpu = new_cpu();
    cpu.load_program(vec![0xA9, 0x42, 0x8D, 0x00, 0x02, 0xE8, 0x00]);
    cpu.reset();
    let op = lookup(0xA9).unwrap();
    let expected = format!("8000  A9 42     LDA{}A:00 X:00 Y:00 P:24 SP:FD", " ".repeat(28));
    assert_eq!(cpu.debug_cpu_status(&op), expected);
    cpu.step();
    let op = lookup(0x8D).unwrap();
    let expected = format!("8002  8D 00 02  STA{}A:42 X:00 Y:00 P:24 SP:FD", " ".repeat(28));
    assert_eq!(cpu.debug_cpu_status(&op), expected);
    cpu.step();
    let op = lookup(0xE8).unwrap();
    let expected = format!("8005  E8        INX{}A:42 X:00 Y:00 P:24 SP:FD", " ".repeat(28));
    assert_eq!(cpu.debug_cpu_status(&op), expected);
}

#[test]
fn disassemble_listing() {
    let cpu = new_cpu();
    let lines = cpu.disassemble(vec![0xA9, 0x42, 0x8D, 0x00, 0x02, 0x00]).unwrap();
    assert_eq!(lines.len(), 3);
    assert_eq!(lines[0].address, 0x0600);
    assert_eq!(lines[0].opcode.mnemonic, Mnemonic::LDA);
    assert_eq!(lines[0].args, vec![0x42]);
    assert_eq!(lines[1].address, 0x0602);
    assert_eq!(lines[1].opcode.label, "STA");
    assert_eq!(lines[1].args, vec![0x00, 0x02]);
    assert_eq!(lines[2].address, 0x0605);
    assert_eq!(lines[2].opcode.mnemonic, Mnemonic::BRK);
    assert!(lines[2].args.is_empty());
}

#[test]
fn disassemble_stops_at_unknown_opcode() {
    let cpu = new_cpu();
    assert_eq!(cpu.disassemble(vec![0xA9, 0x01, 0x02, 0xEA]).unwrap_err().0, 0x02);
    let lines = cpu.disassemble(vec![0xEA, 0x8D, 0x00]).unwrap();
    assert_eq!(lines.len(), 2);
    assert_eq!(lines[1].offset, 1);
    assert_eq!(lines[1].args, vec![0x00]);
}

#[test]
fn txs_leaves_flags() {
    let cpu = run(vec![0xA2, 0x00, 0xA2, 0x80, 0xA9, 0x00, 0x9A, 0x00]);
    assert_eq!(cpu.stack_pointer, 0x80);
    assert_eq!(cpu.status.status & (Z | N), Z);
}

#[test]
fn callback_sees_each_opcode_and_stops_at_halt() {
    let mut cpu = new_cpu();
    cpu.load_program(vec![0xA9, 0x01, 0xEA, 0x02, 0xEA]);
    cpu.reset();
    let mut seen: Vec<u16> = Vec::new();
    let halt = cpu.execute_with_callback(|c: &mut CPU| seen.push(c.program_counter));
    assert_eq!(halt, Halt::UnknownOpcode(0x02));
    assert_eq!(seen, vec![0x8000, 0x8002, 0x8003]);
    assert_eq!(cpu.program_counter, 0x8003);

    let mut cpu = new_cpu();
    cpu.load_program(vec![0xEA, 0x00, 0xEA]);
    cpu.reset();
    let mut calls = 0u32;
    let halt = cpu.execute_with_callback(|_c: &mut CPU| calls += 1);
    assert_eq!(halt, Halt::Break);
    assert_eq!(calls, 2);
    assert_eq!(cpu.program_counter, 0x8002);
}

#[test]
fn execute_matches_idle_callback() {
    let program = vec![0xA9, 0x05, 0x48, 0xE8, 0xCA, 0x68, 0x69, 0x03, 0x00];
    let mut a = new_cpu();
    a.load_program(program.clone());
    a.reset();
    let ha = a.execute();
    let mut b = new_cpu();
    b.load_program(program);
    b.reset();
    let hb = b.execute_with_callback(|_c: &mut CPU| {});
    assert_eq!(ha, hb);
    assert_eq!(a.program_counter, b.program_counter);
    assert_eq!(a.register_accumulator, b.register_accumulator);
    assert_eq!(a.register_accumulator, 0x08);
    assert_eq!(a.status.status, b.status.status);
    assert_eq!(a.stack_pointer, b.stack_pointer);
}
