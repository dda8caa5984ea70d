use vstd::prelude::*;
use crate::bus::{addr_add, word_of, Bus, BusView};
use crate::cpu_state::{
    hooked_run, lemma_hooked_run_hook_sees_unused_bit, lemma_hooked_run_keeps_unused_bit,
    lemma_hooked_run_unchanged, shift_value, wrap8, CpuState, Halt, Step, RESET_VECTOR, STACK,
    STACK_RESET,
};
use crate::opcodes::{lemma_decode_wf, lookup, Mnemonic, OpCode};
use crate::status_flags::{has_flag, lemma_with_flag, ProcessorStatus, StatusFlag, UNUSED_BIT};

pub use crate::opcodes::AddressingMode;

verus! {

/// Where `load_program` puts a program, and the reset vector with it.
pub const PROGRAM_START: u16 = 0x8000;

/// Where `load_test` puts a program.
pub const TEST_PROGRAM_START: u16 = 0x0600;

/// The largest program that fits in the PRG window.
pub const MAX_PROGRAM_LEN: usize = 0x8000;

/// The largest number of instructions that one `execute` runs.
pub const STEP_BUDGET: u64 = 0xFFFF_FFFF_FFFF_FFFF;

/// Byte-addressed memory with 16-bit little-endian helpers, as the bus and
/// the processor both offer it.
pub trait Mem {
    /// The bus contents that reads and writes go through.
    spec fn memory(&self) -> BusView;

    fn read_mem(&self, addr: u16) -> (r: u8)
        ensures
            r == self.memory().read(addr),
    ;

    fn read_mem_u16(&self, addr: u16) -> (r: u16)
        ensures
            r == self.memory().read16(addr),
    ;

    fn write_mem(&mut self, addr: u16, value: u8)
        ensures
            final(self).memory() == old(self).memory().write(addr, value),
    ;

    fn write_mem_u16(&mut self, addr: u16, value: u16)
        ensures
            final(self).memory() == old(self).memory().write16(addr, value),
    ;
}

impl Mem for Bus {
    open spec fn memory(&self) -> BusView {
        self@
    }

    fn read_mem(&self, addr: u16) -> (r: u8) {
        Bus::read_mem(self, addr)
    }

    fn read_mem_u16(&self, addr: u16) -> (r: u16) {
        Bus::read_mem_u16(self, addr)
    }

    fn write_mem(&mut self, addr: u16, value: u8) {
        Bus::write_mem(self, addr, value);
    }

    fn write_mem_u16(&mut self, addr: u16, value: u16) {
        Bus::write_mem_u16(self, addr, value);
    }
}

impl Mem for CPU {
    open spec fn memory(&self) -> BusView {
        self.bus@
    }

    fn read_mem(&self, addr: u16) -> (r: u8) {
        CPU::read_mem(self, addr)
    }

    fn read_mem_u16(&self, addr: u16) -> (r: u16) {
        CPU::read_mem_u16(self, addr)
    }

    fn write_mem(&mut self, addr: u16, value: u8) {
        CPU::write_mem(self, addr, value);
    }

    fn write_mem_u16(&mut self, addr: u16, value: u16) {
        CPU::write_mem_u16(self, addr, value);
    }
}

pub struct CPU {
    pub program_counter: u16,
    pub stack_pointer: u8,
    pub register_accumulator: u8,
    pub index_register_x: u8,
    pub index_register_y: u8,
    pub status: ProcessorStatus,
    pub bus: Bus,
    /// Whether the host prints a trace line before each instruction.
    pub debug: bool,
}

impl View for CPU {
    type V = CpuState;

    open spec fn view(&self) -> CpuState {
        CpuState {
            pc: self.program_counter,
            sp: self.stack_pointer,
            a: self.register_accumulator,
            x: self.index_register_x,
            y: self.index_register_y,
            p: self.status.status,
            bus: self.bus@,
        }
    }
}

impl CPU {
    pub fn new(bus: Bus) -> (r: Self)
        ensures
            r@ == (CpuState {
                pc: 0,
                sp: STACK_RESET,
                a: 0,
                x: 0,
                y: 0,
                p: 0b0010_0100,
                bus: bus@,
            }),
            !r.debug,
    {
        Self {
            program_counter: 0,
            stack_pointer: STACK_RESET,
            register_accumulator: 0,
            index_register_x: 0,
            index_register_y: 0,
            status: ProcessorStatus::new(),
            bus,
            debug: false,
        }
    }

    // ---- memory ----
    pub fn read_mem(&self, addr: u16) -> (r: u8)
        ensures
            r == self@.read(addr),
            self@.bus.wf(),
    {
        self.bus.read_mem(addr)
    }

    pub fn read_mem_u16(&self, addr: u16) -> (r: u16)
        ensures
            r == self@.read16(addr),
    {
        self.bus.read_mem_u16(addr)
    }

    pub fn write_mem(&mut self, addr: u16, value: u8)
        ensures
            final(self)@ == old(self)@.write(addr, value),
            final(self)@.bus.wf(),
    {
        self.bus.write_mem(addr, value);
    }

    pub fn write_mem_u16(&mut self, addr: u16, value: u16)
        ensures
            final(self)@ == (CpuState { bus: old(self)@.bus.write16(addr, value), ..old(self)@ }),
    {
        self.bus.write_mem_u16(addr, value);
    }

    /// Writes `program` byte by byte from `start` upwards.
    fn write_program(&mut self, start: u16, program: &Vec<u8>)
        requires
            start + program@.len() <= 0x10000,
        ensures
            final(self)@ == (CpuState {
                bus: old(self)@.bus.write_seq(start, program@),
                ..old(self)@
            }),
    {
        let mut i: usize = 0;
        assert(program@.subrange(0, program@.len() as int) =~= program@);
        while i < program.len()
            invariant
                    start + program@.len() <= 0x10000,
                i <= program@.len(),
                old(self)@.bus.write_seq(start, program@) == self@.bus.write_seq(
                    addr_add(start, i as int),
                    program@.subrange(i as int, program@.len() as int),
                ),
                self@ == (CpuState { bus: self@.bus, ..old(self)@ }),
            decreases program@.len() - i,
        {
            let ghost rest = program@.subrange(i as int, program@.len() as int);
            assert(rest.drop_first() =~= program@.subrange(i + 1, program@.len() as int));
            let addr: u16 = start + i as u16;
            assert(addr_add(start, i as int) == addr);
            assert(addr_add(addr, 1) == addr_add(start, i + 1));
            self.write_mem(addr, program[i]);
            i += 1;
        }
        assert(program@.subrange(i as int, program@.len() as int) =~= Seq::<u8>::empty());
    }

    /// Puts a program in RAM at 0x0600 and points the reset vector at it.
    pub fn load_test(&mut self, program: Vec<u8>)
        requires
            TEST_PROGRAM_START + program@.len() <= 0x10000,
        ensures
            final(self)@ == (CpuState {
                bus: old(self)@.bus.write_seq(TEST_PROGRAM_START, program@).write16(
                    RESET_VECTOR,
                    TEST_PROGRAM_START,
                ),
                ..old(self)@
            }),
    {
        self.write_program(TEST_PROGRAM_START, &program);
        self.write_mem_u16(RESET_VECTOR, TEST_PROGRAM_START);
    }

    /// Puts a program at 0x8000 and points the reset vector at it.
    pub fn load_program(&mut self, program: Vec<u8>)
        requires
            program@.len() <= MAX_PROGRAM_LEN,
        ensures
            final(self)@ == (CpuState {
                bus: old(self)@.bus.write_seq(PROGRAM_START, program@).write16(
                    RESET_VECTOR,
                    PROGRAM_START,
                ),
                ..old(self)@
            }),
    {
        self.write_program(PROGRAM_START, &program);
        self.write_mem_u16(RESET_VECTOR, PROGRAM_START);
    }

    pub fn reset(&mut self)
        ensures
            final(self)@ == old(self)@.reset(),
    {
        self.program_counter = self.read_mem_u16(RESET_VECTOR);
        self.stack_pointer = STACK_RESET;
        self.register_accumulator = 0;
        self.index_register_x = 0;
        self.index_register_y = 0;
        self.status = ProcessorStatus::new();
    }

    pub fn fetch(&self) -> (r: u8)
        ensures
            r == self@.read(self@.pc),
    {
        self.read_mem(self.program_counter)
    }

    // ---- stack ----
    pub fn stack_push(&mut self, value: u8)
        ensures
            final(self)@ == old(self)@.push(value),
    {
        let pointer: u16 = STACK + self.stack_pointer as u16;
        self.write_mem(pointer, value);
        self.stack_pointer = self.stack_pointer.wrapping_sub(1);
    }

    pub fn stack_push_u16(&mut self, value: u16)
        ensures
            final(self)@ == old(self)@.push16(value),
    {
        self.stack_push((value / 256) as u8);
        self.stack_push((value % 256) as u8);
    }

    pub fn stack_pull(&mut self) -> (r: u8)
        ensures
            (final(self)@, r) == old(self)@.pull(),
    {
        self.stack_pointer = self.stack_pointer.wrapping_add(1);
        let pointer: u16 = STACK + self.stack_pointer as u16;
        self.read_mem(pointer)
    }

    pub fn stack_pull_u16(&mut self) -> (r: u16)
        ensures
            (final(self)@, r) == old(self)@.pull16(),
    {
        let little = self.stack_pull();
        let big = self.stack_pull();
        (big as u16) * 256 + little as u16
    }

    // ---- addressing ----
    /// The zero-page byte at PC plus `index`, kept in the zero page.
    fn zero_page_indexed(&self, index: u8) -> (r: u16)
        ensures
            r == wrap8(self@.read(self@.pc) + index) as u16,
    {
        let param = self.read_mem(self.program_counter);
        param.wrapping_add(index) as u16
    }

    /// The word at PC plus `index`, modulo 0x10000.
    fn absolute_indexed(&self, index: u8) -> (r: u16)
        ensures
            r == addr_add(self@.read16(self@.pc), index as int),
    {
        let param = self.read_mem_u16(self.program_counter);
        param.wrapping_add(index as u16)
    }

    /// The little-endian word at `ptr` and `ptr + 1`, both in the zero page.
    fn zero_page_word(&self, ptr: u8) -> (r: u16)
        ensures
            r == word_of(self@.read(ptr as u16), self@.read(wrap8(ptr + 1) as u16)),
    {
        let little: u8 = self.read_mem(ptr as u16);
        let big: u8 = self.read_mem(ptr.wrapping_add(1) as u16);
        (big as u16) * 256 + little as u16
    }

    pub fn get_operand_address(&self, mode: &AddressingMode) -> (r: u16)
        requires
            *mode != AddressingMode::NoneAddressing,
        ensures
            r == self@.operand_address(*mode),
    {
        let pc = self.program_counter;
        match mode {
            AddressingMode::Immediate => pc,
            AddressingMode::ZeroPage => self.read_mem(pc) as u16,
            AddressingMode::ZeroPage_X => self.zero_page_indexed(self.index_register_x),
            AddressingMode::ZeroPage_Y => self.zero_page_indexed(self.index_register_y),
            AddressingMode::Absolute => self.read_mem_u16(pc),
            AddressingMode::Absolute_X => self.absolute_indexed(self.index_register_x),
            AddressingMode::Absolute_Y => self.absolute_indexed(self.index_register_y),
            AddressingMode::Indirect_X => {
                let param = self.read_mem(pc);
                self.zero_page_word(param.wrapping_add(self.index_register_x))
            },
            AddressingMode::Indirect_Y => {
                let param = self.read_mem(pc);
                let deref_base = self.zero_page_word(param);
                deref_base.wrapping_add(self.index_register_y as u16)
            },
            AddressingMode::NoneAddressing => pc,
        }
    }

    // ---- loads, stores, arithmetic ----
    pub fn load_accumulator(&mut self, value: u8)
        ensures
            final(self)@ == old(self)@.load_accumulator(value),
            has_flag(final(self).status.status, StatusFlag::Zero) == (value == 0),
            has_flag(final(self).status.status, StatusFlag::Negative) == (value >= 0x80),
            forall|other: StatusFlag|
                other != StatusFlag::Zero && other != StatusFlag::Negative ==> has_flag(
                    final(self).status.status,
                    other,
                ) == has_flag(old(self).status.status, other),
    {
        self.register_accumulator = value;
        self.status.update_zero_and_negative_registers(value);
    }

    pub fn lda(&mut self, mode: &AddressingMode)
        requires
            *mode != AddressingMode::NoneAddressing,
        ensures
            final(self)@ == old(self)@.load_accumulator(old(self)@.operand(*mode)),
    {
        let addr = self.get_operand_address(mode);
        let value = self.read_mem(addr);
        self.load_accumulator(value);
    }

    pub fn sta(&mut self, mode: &AddressingMode)
        requires
            *mode != AddressingMode::NoneAddressing,
        ensures
            final(self)@ == old(self)@.write(
                old(self)@.operand_address(*mode),
                old(self)@.a,
            ),
    {
        let addr = self.get_operand_address(mode);
        self.write_mem(addr, self.register_accumulator);
    }

    /// A ← (A + value + C) mod 256, with carry, overflow, zero and negative.
    pub fn add_width_carry(&mut self, value: u8)
        ensures
            final(self)@ == old(self)@.add_with_carry(value),
            final(self).register_accumulator == (old(self).register_accumulator + value + if has_flag(
                old(self).status.status,
                StatusFlag::Carry,
            ) {
                1int
            } else {
                0int
            }) % 256,
            has_flag(final(self).status.status, StatusFlag::Carry) == (old(self).register_accumulator
                + value + if has_flag(old(self).status.status, StatusFlag::Carry) {
                1int
            } else {
                0int
            } > 0xFF),
            has_flag(final(self).status.status, StatusFlag::Overflow) == ((value
                ^ final(self).register_accumulator) & (final(self).register_accumulator
                ^ old(self).register_accumulator) & 0x80 != 0),
            has_flag(final(self).status.status, StatusFlag::Zero) == (final(self).register_accumulator
                == 0),
            has_flag(final(self).status.status, StatusFlag::Negative) == (
            final(self).register_accumulator >= 0x80),
    {
        let carry: u16 = if self.status.get_flag(StatusFlag::Carry) {
            1
        } else {
            0
        };
        let sum: u16 = self.register_accumulator as u16 + value as u16 + carry;
        let result: u8 = (sum % 256) as u8;
        let overflow: bool = (value ^ result) & (result ^ self.register_accumulator) & 0x80 != 0;
        self.status.set_flag(StatusFlag::Carry, sum > 0xFF);
        self.status.set_flag(StatusFlag::Overflow, overflow);
        self.load_accumulator(result);
    }

    pub fn adc(&mut self, mode: &AddressingMode)
        requires
            *mode != AddressingMode::NoneAddressing,
        ensures
            final(self)@ == old(self)@.add_with_carry(old(self)@.operand(*mode)),
    {
        let addr = self.get_operand_address(mode);
        let value = self.read_mem(addr);
        self.add_width_carry(value);
    }

    /// Subtract with borrow: adds the one's complement of the operand.
    pub fn sbc(&mut self, mode: &AddressingMode)
        requires
            *mode != AddressingMode::NoneAddressing,
        ensures
            final(self)@ == old(self)@.add_with_carry(!old(self)@.operand(*mode)),
    {
        let addr = self.get_operand_address(mode);
        let value = self.read_mem(addr);
        self.add_width_carry(!value);
    }

    // ---- shifts: each sets C and returns the result ----
    pub fn asl(&mut self, value: u8) -> (r: u8)
        ensures
            (r, has_flag(final(self).status.status, StatusFlag::Carry)) == shift_value(
                Mnemonic::ASL,
                value,
                has_flag(old(self).status.status, StatusFlag::Carry),
            ),
            final(self)@ == old(self)@.set_flag(StatusFlag::Carry, value & 0x80 != 0),
    {
        proof {
            lemma_with_flag(self.status.status, StatusFlag::Carry, value & 0x80 != 0);
        }
        self.status.set_flag(StatusFlag::Carry, value & 0b1000_0000 != 0);
        value << 1u8
    }

    pub fn lsr(&mut self, value: u8) -> (r: u8)
        ensures
            (r, has_flag(final(self).status.status, StatusFlag::Carry)) == shift_value(
                Mnemonic::LSR,
                value,
                has_flag(old(self).status.status, StatusFlag::Carry),
            ),
            final(self)@ == old(self)@.set_flag(StatusFlag::Carry, value & 0x01 != 0),
    {
        proof {
            lemma_with_flag(self.status.status, StatusFlag::Carry, value & 0x01 != 0);
        }
        self.status.set_flag(StatusFlag::Carry, value & 0b0000_0001 != 0);
        value >> 1u8
    }

    /// Shifts left; the carry from before enters bit 0.
    pub fn rol(&mut self, value: u8) -> (r: u8)
        ensures
            (r, has_flag(final(self).status.status, StatusFlag::Carry)) == shift_value(
                Mnemonic::ROL,
                value,
                has_flag(old(self).status.status, StatusFlag::Carry),
            ),
            final(self)@ == old(self)@.set_flag(StatusFlag::Carry, value & 0x80 != 0),
    {
        proof {
            lemma_with_flag(self.status.status, StatusFlag::Carry, value & 0x80 != 0);
        }
        let carry_in: u8 = if self.status.get_flag(StatusFlag::Carry) {
            1
        } else {
            0
        };
        self.status.set_flag(StatusFlag::Carry, value & 0b1000_0000 != 0);
        (value << 1u8) | carry_in
    }

    /// Shifts right; the carry from before enters bit 7.
    pub fn ror(&mut self, value: u8) -> (r: u8)
        ensures
            (r, has_flag(final(self).status.status, StatusFlag::Carry)) == shift_value(
                Mnemonic::ROR,
                value,
                has_flag(old(self).status.status, StatusFlag::Carry),
            ),
            final(self)@ == old(self)@.set_flag(StatusFlag::Carry, value & 0x01 != 0),
    {
        proof {
            lemma_with_flag(self.status.status, StatusFlag::Carry, value & 0x01 != 0);
        }
        let carry_in: u8 = if self.status.get_flag(StatusFlag::Carry) {
            0x80
        } else {
            0
        };
        self.status.set_flag(StatusFlag::Carry, value & 0b0000_0001 != 0);
        (value >> 1u8) | carry_in
    }

    /// ASL, LSR, ROL or ROR on A, or on the byte at the operand's address.
    fn shift(&mut self, mnemonic: Mnemonic, mode: &AddressingMode)
        requires
            mnemonic == Mnemonic::ASL || mnemonic == Mnemonic::LSR || mnemonic == Mnemonic::ROL
                || mnemonic == Mnemonic::ROR,
        ensures
            final(self)@ == old(self)@.shift(mnemonic, *mode),
    {
        let value = match mode {
            AddressingMode::NoneAddressing => self.register_accumulator,
            _ => {
                let addr = self.get_operand_address(mode);
                self.read_mem(addr)
            },
        };
        let result = match mnemonic {
            Mnemonic::ASL => self.asl(value),
            Mnemonic::LSR => self.lsr(value),
            Mnemonic::ROL => self.rol(value),
            _ => self.ror(value),
        };
        match mode {
            AddressingMode::NoneAddressing => {
                self.register_accumulator = result;
            },
            _ => {
                let addr = self.get_operand_address(mode);
                self.write_mem(addr, result);
            },
        }
        self.status.update_zero_and_negative_registers(result);
    }

    /// Jumps relative to the byte after the displacement when `condition` holds.
    pub fn branch(&mut self, condition: bool)
        ensures
            final(self)@ == old(self)@.branch(condition),
    {
        if condition {
            let displacement = self.read_mem(self.program_counter);
            let next = self.program_counter.wrapping_add(1);
            self.program_counter = if displacement < 128 {
                next.wrapping_add(displacement as u16)
            } else {
                next.wrapping_sub(256 - displacement as u16)
            };
        }
    }

    /// Compares `other` with the operand: C if other ≥ M, Z and N from other − M mod 256.
    pub fn compare(&mut self, mode: &AddressingMode, other: u8)
        requires
            *mode != AddressingMode::NoneAddressing,
        ensures
            final(self)@ == old(self)@.compare(*mode, other),
    {
        let addr = self.get_operand_address(mode);
        let value = self.read_mem(addr);
        self.status.set_flag(StatusFlag::Carry, other >= value);
        self.status.update_zero_and_negative_registers(other.wrapping_sub(value));
    }

    /// value − 1 mod 256, with zero and negative.
    pub fn decrement(&mut self, value: u8) -> (r: u8)
        ensures
            r == (value - 1) % 256,
            r == wrap8(value - 1),
            final(self)@ == old(self)@.set_zn(r),
            has_flag(final(self).status.status, StatusFlag::Zero) == (r == 0),
            has_flag(final(self).status.status, StatusFlag::Negative) == (r >= 0x80),
    {
        let result = value.wrapping_sub(1);
        self.status.update_zero_and_negative_registers(result);
        result
    }

    /// value + 1 mod 256, with zero and negative.
    pub fn increment(&mut self, value: u8) -> (r: u8)
        ensures
            r == (value + 1) % 256,
            r == wrap8(value + 1),
            final(self)@ == old(self)@.set_zn(r),
            has_flag(final(self).status.status, StatusFlag::Zero) == (r == 0),
            has_flag(final(self).status.status, StatusFlag::Negative) == (r >= 0x80),
    {
        let result = value.wrapping_add(1);
        self.status.update_zero_and_negative_registers(result);
        result
    }

    // ---- the rest of the instruction set ----
    /// INC (`up`) or DEC on the byte at the operand's address.
    fn modify_memory(&mut self, mode: &AddressingMode, up: bool)
        requires
            *mode != AddressingMode::NoneAddressing,
        ensures
            final(self)@ == old(self)@.step_memory(
                *mode,
                if up {
                    1
                } else {
                    -1
                },
            ),
    {
        let addr = self.get_operand_address(mode);
        let value = self.read_mem(addr);
        let result = if up {
            self.increment(value)
        } else {
            self.decrement(value)
        };
        self.write_mem(addr, result);
    }

    /// BIT: Z from A & M, V and N copied from bits 6 and 7 of M.
    fn bit(&mut self, mode: &AddressingMode)
        requires
            *mode != AddressingMode::NoneAddressing,
        ensures
            final(self)@ == old(self)@.bit_test(*mode),
    {
        let addr = self.get_operand_address(mode);
        let value = self.read_mem(addr);
        self.status.set_flag(StatusFlag::Zero, self.register_accumulator & value == 0);
        self.status.set_flag(StatusFlag::Overflow, value & 0b0100_0000 != 0);
        self.status.set_flag(StatusFlag::Negative, value & 0b1000_0000 != 0);
    }

    /// JMP absolute, or indirect with the high byte read from the same page.
    fn jmp(&mut self, mode: &AddressingMode)
        ensures
            final(self)@ == old(self)@.jmp(*mode),
    {
        match mode {
            AddressingMode::Absolute => {
                self.program_counter = self.get_operand_address(mode);
            },
            _ => {
                let ptr = self.read_mem_u16(self.program_counter);
                let little = self.read_mem(ptr);
                let big = self.read_mem((ptr & 0xFF00) | (ptr.wrapping_add(1) & 0x00FF));
                self.program_counter = (big as u16) * 256 + little as u16;
            },
        }
    }

    fn jsr(&mut self)
        ensures
            final(self)@ == old(self)@.jsr(),
    {
        self.stack_push_u16(self.program_counter.wrapping_add(1));
        self.program_counter = self.get_operand_address(&AddressingMode::Absolute);
    }

    fn rts(&mut self)
        ensures
            final(self)@ == old(self)@.rts(),
    {
        let ret = self.stack_pull_u16();
        self.program_counter = ret.wrapping_add(1);
    }

    fn rti(&mut self)
        ensures
            final(self)@ == old(self)@.rti(),
    {
        let status = self.stack_pull();
        self.status.set_from_byte(status & 0b1110_1111);
        self.program_counter = self.stack_pull_u16();
    }

    /// Loads X or Y (`to_x`) from the operand.
    fn load_index(&mut self, mode: &AddressingMode, to_x: bool)
        requires
            *mode != AddressingMode::NoneAddressing,
        ensures
            to_x ==> final(self)@ == (CpuState { x: old(self)@.operand(*mode), ..old(self)@ }).set_zn(
                old(self)@.operand(*mode),
            ),
            !to_x ==> final(self)@ == (CpuState { y: old(self)@.operand(*mode), ..old(self)@ }).set_zn(
                old(self)@.operand(*mode),
            ),
    {
        let addr = self.get_operand_address(mode);
        let value = self.read_mem(addr);
        if to_x {
            self.index_register_x = value;
        } else {
            self.index_register_y = value;
        }
        self.status.update_zero_and_negative_registers(value);
    }

    /// Stores `value` (A, X or Y) at the operand's address.
    fn store(&mut self, mode: &AddressingMode, value: u8)
        requires
            *mode != AddressingMode::NoneAddressing,
        ensures
            final(self)@ == old(self)@.write(old(self)@.operand_address(*mode), value),
    {
        let addr = self.get_operand_address(mode);
        self.write_mem(addr, value);
    }

    /// AND, ORA or EOR of A with the operand, into A.
    fn logic(&mut self, mnemonic: Mnemonic, mode: &AddressingMode)
        requires
            *mode != AddressingMode::NoneAddressing,
        ensures
            mnemonic == Mnemonic::AND ==> final(self)@ == old(self)@.load_accumulator(
                old(self)@.a & old(self)@.operand(*mode),
            ),
            mnemonic == Mnemonic::ORA ==> final(self)@ == old(self)@.load_accumulator(
                old(self)@.a | old(self)@.operand(*mode),
            ),
            mnemonic != Mnemonic::AND && mnemonic != Mnemonic::ORA ==> final(self)@
                == old(self)@.load_accumulator(old(self)@.a ^ old(self)@.operand(*mode)),
    {
        let addr = self.get_operand_address(mode);
        let value = self.read_mem(addr);
        let result = match mnemonic {
            Mnemonic::AND => self.register_accumulator & value,
            Mnemonic::ORA => self.register_accumulator | value,
            _ => self.register_accumulator ^ value,
        };
        self.load_accumulator(result);
    }

    fn execute_memory_op(&mut self, opcode: &OpCode)
        requires
            opcode.wf(),
            opcode.mnemonic.is_memory_op(),
        ensures
            final(self)@ == old(self)@.execute_memory_op(*opcode),
    {
        let mode = &opcode.addressing_mode;
        match opcode.mnemonic {
            Mnemonic::ADC => self.adc(mode),
            Mnemonic::SBC => self.sbc(mode),
            Mnemonic::AND | Mnemonic::ORA | Mnemonic::EOR => self.logic(opcode.mnemonic, mode),
            Mnemonic::BIT => self.bit(mode),
            Mnemonic::CMP => self.compare(mode, self.register_accumulator),
            Mnemonic::CPX => self.compare(mode, self.index_register_x),
            Mnemonic::CPY => self.compare(mode, self.index_register_y),
            Mnemonic::DEC => self.modify_memory(mode, false),
            Mnemonic::INC => self.modify_memory(mode, true),
            Mnemonic::LDA => self.lda(mode),
            Mnemonic::LDX => self.load_index(mode, true),
            Mnemonic::LDY => self.load_index(mode, false),
            Mnemonic::STA => self.sta(mode),
            Mnemonic::STX => self.store(mode, self.index_register_x),
            Mnemonic::STY => self.store(mode, self.index_register_y),
            _ => {},
        }
    }

    fn execute_flag_op(&mut self, opcode: &OpCode)
        requires
            opcode.wf(),
            opcode.mnemonic.is_flag_op(),
        ensures
            final(self)@ == old(self)@.execute_flag_op(*opcode),
    {
        match opcode.mnemonic {
            Mnemonic::BCC => self.branch(!self.status.get_flag(StatusFlag::Carry)),
            Mnemonic::BCS => self.branch(self.status.get_flag(StatusFlag::Carry)),
            Mnemonic::BEQ => self.branch(self.status.get_flag(StatusFlag::Zero)),
            Mnemonic::BNE => self.branch(!self.status.get_flag(StatusFlag::Zero)),
            Mnemonic::BMI => self.branch(self.status.get_flag(StatusFlag::Negative)),
            Mnemonic::BPL => self.branch(!self.status.get_flag(StatusFlag::Negative)),
            Mnemonic::BVS => self.branch(self.status.get_flag(StatusFlag::Overflow)),
            Mnemonic::BVC => self.branch(!self.status.get_flag(StatusFlag::Overflow)),
            Mnemonic::CLC => self.status.set_flag(StatusFlag::Carry, false),
            Mnemonic::CLD => self.status.set_flag(StatusFlag::Decimal, false),
            Mnemonic::CLI => self.status.set_flag(StatusFlag::InterruptDisable, false),
            Mnemonic::CLV => self.status.set_flag(StatusFlag::Overflow, false),
            Mnemonic::SEC => self.status.set_flag(StatusFlag::Carry, true),
            Mnemonic::SED => self.status.set_flag(StatusFlag::Decimal, true),
            Mnemonic::SEI => self.status.set_flag(StatusFlag::InterruptDisable, true),
            _ => {},
        }
    }

    fn execute_register_op(&mut self, opcode: &OpCode)
        requires
            opcode.wf(),
            opcode.mnemonic.is_register_op(),
        ensures
            final(self)@ == old(self)@.execute_register_op(*opcode),
    {
        match opcode.mnemonic {
            Mnemonic::DEX => {
                self.index_register_x = self.decrement(self.index_register_x);
            },
            Mnemonic::DEY => {
                self.index_register_y = self.decrement(self.index_register_y);
            },
            Mnemonic::INX => {
                self.index_register_x = self.increment(self.index_register_x);
            },
            Mnemonic::INY => {
                self.index_register_y = self.increment(self.index_register_y);
            },
            Mnemonic::TAX => {
                self.index_register_x = self.register_accumulator;
                self.status.update_zero_and_negative_registers(self.register_accumulator);
            },
            Mnemonic::TAY => {
                self.index_register_y = self.register_accumulator;
                self.status.update_zero_and_negative_registers(self.register_accumulator);
            },
            Mnemonic::TSX => {
                self.index_register_x = self.stack_pointer;
                self.status.update_zero_and_negative_registers(self.stack_pointer);
            },
            Mnemonic::TXS => {
                self.stack_pointer = self.index_register_x;
            },
            Mnemonic::TXA => self.load_accumulator(self.index_register_x),
            Mnemonic::TYA => self.load_accumulator(self.index_register_y),
            _ => {},
        }
    }

    fn execute_control_op(&mut self, opcode: &OpCode)
        requires
            opcode.wf(),
        ensures
            final(self)@ == old(self)@.execute_control_op(*opcode),
    {
        let mode = &opcode.addressing_mode;
        match opcode.mnemonic {
            Mnemonic::ASL | Mnemonic::LSR | Mnemonic::ROL | Mnemonic::ROR => self.shift(
                opcode.mnemonic,
                mode,
            ),
            Mnemonic::JMP => self.jmp(mode),
            Mnemonic::JSR => self.jsr(),
            Mnemonic::RTS => self.rts(),
            Mnemonic::RTI => self.rti(),
            Mnemonic::PHA => self.stack_push(self.register_accumulator),
            Mnemonic::PHP => self.stack_push(self.status.status | 0b0011_0000),
            Mnemonic::PLA => {
                let value = self.stack_pull();
                self.load_accumulator(value);
            },
            Mnemonic::PLP => {
                let value = self.stack_pull();
                self.status.set_from_byte(value);
            },
            _ => {},
        }
    }

    /// Runs one decoded instruction other than BRK, with PC at its first operand byte.
    fn execute_op(&mut self, opcode: &OpCode)
        requires
            opcode.wf(),
        ensures
            final(self)@ == old(self)@.execute_op(*opcode),
    {
        reveal(CpuState::execute_op);
        if opcode.mnemonic.is_memory() {
            self.execute_memory_op(opcode);
        } else if opcode.mnemonic.is_flag() {
            self.execute_flag_op(opcode);
        } else if opcode.mnemonic.is_register() {
            self.execute_register_op(opcode);
        } else {
            self.execute_control_op(opcode);
        }
    }

    /// Fetches, decodes and runs one instruction.
    pub fn step(&mut self) -> (r: Step)
        ensures
            (final(self)@, r) == old(self)@.step(),
    {
        let code = self.fetch();
        let opcode = match lookup(code) {
            Ok(opcode) => opcode,
            Err(not_found) => {
                return Step::UnknownOpcode(not_found.0);
            },
        };
        proof {
            lemma_decode_wf(code);
        }
        self.program_counter = self.program_counter.wrapping_add(1);
        if opcode.mnemonic == Mnemonic::BRK {
            return Step::Break;
        }
        let program_counter_state = self.program_counter;
        self.execute_op(&opcode);
        if program_counter_state == self.program_counter {
            self.program_counter = self.program_counter.wrapping_add((opcode.bytes - 1) as u16);
        }
        Step::Continue
    }

    /// Runs from the current state until BRK or an unknown opcode, within a
    /// budget of 2^64 - 1 instructions: `execute_with_callback` with a callback
    /// that does nothing, which the contract shows to be the plain `run`.
    pub fn execute(&mut self) -> (r: Halt)
        ensures
            (final(self)@, r) == old(self)@.run(STEP_BUDGET as nat),
    {
        self.execute_with_callback(|cpu: &mut CPU| ensures final(cpu)@ == old(cpu)@ {})
    }

    /// Loads a program at 0x8000, resets and runs it.
    pub fn load_and_execute(&mut self, program: Vec<u8>) -> (r: Halt)
        requires
            program@.len() <= MAX_PROGRAM_LEN,
        ensures
            (final(self)@, r) == (CpuState {
                bus: old(self)@.bus.write_seq(PROGRAM_START, program@).write16(
                    RESET_VECTOR,
                    PROGRAM_START,
                ),
                ..old(self)@
            }).reset().run(STEP_BUDGET as nat),
    {
        self.load_program(program);
        self.reset();
        self.execute()
    }

    /// Like `execute`, but hands the processor to `callback` before each
    /// instruction; the callback may read and write the bus and the registers.
    /// The run is a `hooked_run` whose hook is "one call of the callback":
    /// callback, step, callback, step, ... until a step meets BRK or an unknown
    /// opcode, which ends the run with no further call. A callback that leaves
    /// the processor as it found it gives the same run as `execute`; one that
    /// never clears bit 5 of P is only handed states with bit 5 set, and leaves
    /// it set at the end.
    pub fn execute_with_callback<F>(&mut self, mut callback: F) -> (r: Halt)
        where
            F: FnMut(&mut CPU),
        requires
            forall|cpu: &mut CPU| call_requires(callback, (cpu,)),
        ensures
            hooked_run(
                (|pre: CpuState, post: CpuState|
                exists|c: &mut CPU|
                    #[trigger] call_ensures(callback, (c,), ()) && mut_ref_current(c)@ == pre
                        && mut_ref_future(c)@ == post),
                old(self)@,
                STEP_BUDGET as nat,
                final(self)@,
                r,
            ),
            (forall|c: &mut CPU|
                #[trigger] call_ensures(callback, (c,), ()) ==> mut_ref_future(c)@ == mut_ref_current(
                    c,
                )@) ==> (final(self)@, r) == old(self)@.run(STEP_BUDGET as nat),
            (forall|c: &mut CPU|
                #[trigger] call_ensures(callback, (c,), ()) ==> (mut_ref_current(c)@.p & UNUSED_BIT != 0
                    ==> mut_ref_future(c)@.p & UNUSED_BIT != 0)) && old(self)@.p & UNUSED_BIT != 0
                ==> final(self)@.p & UNUSED_BIT != 0,
            (forall|c: &mut CPU|
                #[trigger] call_ensures(callback, (c,), ()) ==> (mut_ref_current(c)@.p & UNUSED_BIT != 0
                    ==> mut_ref_future(c)@.p & UNUSED_BIT != 0)) && old(self)@.p & UNUSED_BIT != 0
                ==> hooked_run(
                (|pre: CpuState, post: CpuState|
                    (exists|c: &mut CPU|
                        #[trigger] call_ensures(callback, (c,), ()) && mut_ref_current(c)@ == pre
                            && mut_ref_future(c)@ == post) && pre.p & UNUSED_BIT != 0),
                old(self)@,
                STEP_BUDGET as nat,
                final(self)@,
                r,
            ),
    {
        let ghost hook = (|pre: CpuState, post: CpuState|
                exists|c: &mut CPU|
                    #[trigger] call_ensures(callback, (c,), ()) && mut_ref_current(c)@ == pre
                        && mut_ref_future(c)@ == post);
        let ghost seen = (|pre: CpuState, post: CpuState|
            (exists|c: &mut CPU|
                #[trigger] call_ensures(callback, (c,), ()) && mut_ref_current(c)@ == pre
                    && mut_ref_future(c)@ == post) && pre.p & UNUSED_BIT != 0);
        let ghost start = self@;
        let mut remaining: u64 = STEP_BUDGET;
        let mut r = Halt::StepLimit;
        loop
            invariant_except_break
                forall|t: CpuState, h: Halt|
                    #[trigger] hooked_run(hook, self@, remaining as nat, t, h) ==> hooked_run(
                        hook,
                        start,
                        STEP_BUDGET as nat,
                        t,
                        h,
                    ),
            invariant
                forall|cpu: &mut CPU| call_requires(callback, (cpu,)),
                hook == (|pre: CpuState, post: CpuState|
                exists|c: &mut CPU|
                    #[trigger] call_ensures(callback, (c,), ()) && mut_ref_current(c)@ == pre
                        && mut_ref_future(c)@ == post),
            ensures
                hooked_run(hook, start, STEP_BUDGET as nat, self@, r),
            decreases remaining,
        {
            if remaining == 0 {
                r = Halt::StepLimit;
                assert(hooked_run(hook, self@, 0, self@, r));
                break;
            }
            let ghost before = self@;
            let ghost fuel: nat = remaining as nat;
            callback(self);
            let ghost hooked = self@;
            let outcome = self.step();
            assert(hook(before, hooked));
            remaining = remaining - 1;
            match outcome {
                Step::Continue => {
                    assert forall|t: CpuState, h: Halt|
                        #[trigger] hooked_run(hook, self@, remaining as nat, t, h) implies hooked_run(
                        hook,
                        start,
                        STEP_BUDGET as nat,
                        t,
                        h,
                    ) by {
                        assert(hooked_run(hook, before, fuel, t, h));
                    }
                },
                Step::Break => {
                    r = Halt::Break;
                    assert(hooked_run(hook, before, fuel, self@, r));
                    break;
                },
                Step::UnknownOpcode(code) => {
                    r = Halt::UnknownOpcode(code);
                    assert(hooked_run(hook, before, fuel, self@, r));
                    break;
                },
            }
        }
        assert((|a: CpuState, b: CpuState| hook(a, b) && a.p & UNUSED_BIT != 0) =~= seen);
        proof {
            lemma_hooked_run_unchanged(hook, start, STEP_BUDGET as nat, self@, r);
            lemma_hooked_run_keeps_unused_bit(hook, start, STEP_BUDGET as nat, self@, r);
            lemma_hooked_run_hook_sees_unused_bit(hook, start, STEP_BUDGET as nat, self@, r);
        }
        r
    }
}

} // verus!
