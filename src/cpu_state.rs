use vstd::prelude::*;
use crate::bus::{addr_add, hi_byte, lo_byte, word_of, BusView};
use crate::opcodes::{decode, AddressingMode, Mnemonic, OpCode};
use crate::status_flags::{
    has_flag, lemma_with_flag, lemma_with_zn, with_flag, with_zn, StatusFlag, UNUSED_BIT,
};

verus! {

/// Base of the stack page.
pub const STACK: u16 = 0x0100;

pub const STACK_RESET: u8 = 0xFD;

/// Where the address of the first instruction is stored.
pub const RESET_VECTOR: u16 = 0xFFFC;

/// A value modulo 256.
pub open spec fn wrap8(n: int) -> u8 {
    (n % 256) as u8
}

/// A branch displacement read as a signed byte.
pub open spec fn signed(d: u8) -> int {
    if d < 128 {
        d as int
    } else {
        d - 256
    }
}

/// The address from which `JMP (ptr)` takes the high byte of its target: the
/// byte after `ptr`, without leaving the page of `ptr`.
pub open spec fn indirect_high(ptr: u16) -> u16 {
    (ptr & 0xFF00) | (addr_add(ptr, 1) & 0x00FF)
}

/// The new carry and result of a shift or rotate of `v`, given the carry before.
pub open spec fn shift_value(mnemonic: Mnemonic, v: u8, carry: bool) -> (u8, bool) {
    match mnemonic {
        Mnemonic::ASL => (v << 1u8, v & 0x80 != 0),
        Mnemonic::LSR => (v >> 1u8, v & 0x01 != 0),
        Mnemonic::ROL => (
            (v << 1u8) | if carry {
                1u8
            } else {
                0u8
            },
            v & 0x80 != 0,
        ),
        _ => (
            (v >> 1u8) | if carry {
                0x80u8
            } else {
                0u8
            },
            v & 0x01 != 0,
        ),
    }
}

/// How one instruction ended.
#[derive(Clone, Copy, Debug, PartialEq, Eq, Structural)]
pub enum Step {
    /// The instruction ran; the next one follows.
    Continue,
    /// BRK was fetched: the program is over.
    Break,
    /// The byte at the program counter is no official opcode; nothing changed.
    UnknownOpcode(u8),
}

/// Why a run of the interpreter stopped.
#[derive(Clone, Copy, Debug, PartialEq, Eq, Structural)]
pub enum Halt {
    Break,
    UnknownOpcode(u8),
    /// The run used up its budget of instructions without meeting BRK.
    StepLimit,
}

/// The registers and the bus of the processor, as values.
pub struct CpuState {
    pub pc: u16,
    pub sp: u8,
    pub a: u8,
    pub x: u8,
    pub y: u8,
    pub p: u8,
    pub bus: BusView,
}

impl CpuState {
    pub open spec fn read(self, addr: u16) -> u8 {
        self.bus.read(addr)
    }

    pub open spec fn read16(self, addr: u16) -> u16 {
        self.bus.read16(addr)
    }

    pub open spec fn write(self, addr: u16, v: u8) -> CpuState {
        CpuState { bus: self.bus.write(addr, v), ..self }
    }

    pub open spec fn flag(self, f: StatusFlag) -> bool {
        has_flag(self.p, f)
    }

    pub open spec fn set_flag(self, f: StatusFlag, on: bool) -> CpuState {
        CpuState { p: with_flag(self.p, f, on), ..self }
    }

    pub open spec fn set_zn(self, v: u8) -> CpuState {
        CpuState { p: with_zn(self.p, v), ..self }
    }

    /// The state right after reset: PC from the reset vector, the other
    /// registers at their reset values, memory kept.
    pub open spec fn reset(self) -> CpuState {
        CpuState {
            pc: self.read16(RESET_VECTOR),
            sp: STACK_RESET,
            a: 0,
            x: 0,
            y: 0,
            p: 0b0010_0100,
            ..self
        }
    }

    // ---- stack ----
    /// Writes `v` at 0x0100 + SP, then decrements SP modulo 256: the stack
    /// wraps around page 1 as the hardware does, it never traps.
    pub open spec fn push(self, v: u8) -> CpuState {
        CpuState { sp: wrap8(self.sp - 1), ..self.write((STACK + self.sp) as u16, v) }
    }

    /// Increments SP modulo 256, then reads at 0x0100 + SP.
    pub open spec fn pull(self) -> (CpuState, u8) {
        let sp = wrap8(self.sp + 1);
        (CpuState { sp, ..self }, self.read((STACK + sp) as u16))
    }

    /// Pushes the high byte, then the low byte.
    pub open spec fn push16(self, v: u16) -> CpuState {
        self.push(hi_byte(v)).push(lo_byte(v))
    }

    /// Pulls the low byte, then the high byte.
    pub open spec fn pull16(self) -> (CpuState, u16) {
        let (s1, lo) = self.pull();
        let (s2, hi) = s1.pull();
        (s2, word_of(lo, hi))
    }

    // ---- addressing ----
    /// The effective address of an operand, with PC at its first byte.
    pub open spec fn operand_address(self, mode: AddressingMode) -> u16 {
        match mode {
            AddressingMode::Immediate => self.pc,
            AddressingMode::ZeroPage => self.read(self.pc) as u16,
            AddressingMode::ZeroPage_X => wrap8(self.read(self.pc) + self.x) as u16,
            AddressingMode::ZeroPage_Y => wrap8(self.read(self.pc) + self.y) as u16,
            AddressingMode::Absolute => self.read16(self.pc),
            AddressingMode::Absolute_X => addr_add(self.read16(self.pc), self.x as int),
            AddressingMode::Absolute_Y => addr_add(self.read16(self.pc), self.y as int),
            AddressingMode::Indirect_X => {
                let ptr = wrap8(self.read(self.pc) + self.x);
                word_of(self.read(ptr as u16), self.read(wrap8(ptr + 1) as u16))
            },
            AddressingMode::Indirect_Y => {
                let ptr = self.read(self.pc);
                addr_add(
                    word_of(self.read(ptr as u16), self.read(wrap8(ptr + 1) as u16)),
                    self.y as int,
                )
            },
            AddressingMode::NoneAddressing => self.pc,
        }
    }

    pub open spec fn operand(self, mode: AddressingMode) -> u8 {
        self.read(self.operand_address(mode))
    }

    // ---- instructions ----
    pub open spec fn load_accumulator(self, v: u8) -> CpuState {
        CpuState { a: v, p: with_zn(self.p, v), ..self }
    }

    /// A + M + C: carry out of bit 7, signed overflow when the result's sign
    /// differs from the signs of both A and M.
    pub open spec fn add_with_carry(self, m: u8) -> CpuState {
        let sum = self.a + m + if self.flag(StatusFlag::Carry) {
            1int
        } else {
            0int
        };
        let result = wrap8(sum);
        let overflow = (m ^ result) & (result ^ self.a) & 0x80 != 0;
        let p = with_flag(with_flag(self.p, StatusFlag::Carry, sum > 0xFF), StatusFlag::Overflow, overflow);
        CpuState { a: result, p: with_zn(p, result), ..self }
    }

    /// The byte that SBC adds: the one's complement of M.
    pub open spec fn sbc_operand(m: u8) -> u8 {
        !m
    }

    pub open spec fn compare(self, mode: AddressingMode, reg: u8) -> CpuState {
        let m = self.operand(mode);
        CpuState { p: with_zn(with_flag(self.p, StatusFlag::Carry, reg >= m), wrap8(reg - m)), ..self }
    }

    /// BIT: Z from A & M, V and N from bits 6 and 7 of M.
    pub open spec fn bit_test(self, mode: AddressingMode) -> CpuState {
        let m = self.operand(mode);
        let p = with_flag(self.p, StatusFlag::Zero, self.a & m == 0);
        let p = with_flag(p, StatusFlag::Overflow, m & 0x40 != 0);
        CpuState { p: with_flag(p, StatusFlag::Negative, m & 0x80 != 0), ..self }
    }

    /// ASL, LSR, ROL, ROR on A (no addressing) or on the byte at the operand's address.
    pub open spec fn shift(self, mnemonic: Mnemonic, mode: AddressingMode) -> CpuState {
        let carry = self.flag(StatusFlag::Carry);
        if mode == AddressingMode::NoneAddressing {
            let (r, c) = shift_value(mnemonic, self.a, carry);
            CpuState { a: r, p: with_zn(with_flag(self.p, StatusFlag::Carry, c), r), ..self }
        } else {
            let addr = self.operand_address(mode);
            let (r, c) = shift_value(mnemonic, self.read(addr), carry);
            let s = CpuState { p: with_flag(self.p, StatusFlag::Carry, c), ..self }.write(addr, r);
            s.set_zn(r)
        }
    }

    /// The byte at the operand's address plus `delta`, modulo 256, written back.
    pub open spec fn step_memory(self, mode: AddressingMode, delta: int) -> CpuState {
        let addr = self.operand_address(mode);
        let r = wrap8(self.read(addr) + delta);
        self.set_zn(r).write(addr, r)
    }

    /// A taken branch jumps relative to the byte after the displacement.
    pub open spec fn branch(self, condition: bool) -> CpuState {
        if condition {
            CpuState { pc: addr_add(self.pc, 1 + signed(self.read(self.pc))), ..self }
        } else {
            self
        }
    }

    pub open spec fn jmp(self, mode: AddressingMode) -> CpuState {
        if mode == AddressingMode::Absolute {
            CpuState { pc: self.operand_address(AddressingMode::Absolute), ..self }
        } else {
            let ptr = self.read16(self.pc);
            CpuState { pc: word_of(self.read(ptr), self.read(indirect_high(ptr))), ..self }
        }
    }

    /// Pushes the address of the last byte of JSR, then jumps.
    pub open spec fn jsr(self) -> CpuState {
        let s = self.push16(addr_add(self.pc, 1));
        CpuState { pc: s.operand_address(AddressingMode::Absolute), ..s }
    }

    pub open spec fn rts(self) -> CpuState {
        let (s, ret) = self.pull16();
        CpuState { pc: addr_add(ret, 1), ..s }
    }

    /// Pulls P (B cleared, bit 5 set), then PC.
    pub open spec fn rti(self) -> CpuState {
        let (s1, p) = self.pull();
        let s2 = CpuState { p: (p & 0b1110_1111) | 0b0010_0000, ..s1 };
        let (s3, pc) = s2.pull16();
        CpuState { pc, ..s3 }
    }

    /// Instructions that read or write the byte at the operand's address.
    pub open spec fn execute_memory_op(self, op: OpCode) -> CpuState {
        let mode = op.addressing_mode;
        match op.mnemonic {
            Mnemonic::ADC => self.add_with_carry(self.operand(mode)),
            Mnemonic::SBC => self.add_with_carry(Self::sbc_operand(self.operand(mode))),
            Mnemonic::AND => self.load_accumulator(self.a & self.operand(mode)),
            Mnemonic::ORA => self.load_accumulator(self.a | self.operand(mode)),
            Mnemonic::EOR => self.load_accumulator(self.a ^ self.operand(mode)),
            Mnemonic::BIT => self.bit_test(mode),
            Mnemonic::CMP => self.compare(mode, self.a),
            Mnemonic::CPX => self.compare(mode, self.x),
            Mnemonic::CPY => self.compare(mode, self.y),
            Mnemonic::DEC => self.step_memory(mode, -1),
            Mnemonic::INC => self.step_memory(mode, 1),
            Mnemonic::LDA => self.load_accumulator(self.operand(mode)),
            Mnemonic::LDX => CpuState { x: self.operand(mode), ..self }.set_zn(self.operand(mode)),
            Mnemonic::LDY => CpuState { y: self.operand(mode), ..self }.set_zn(self.operand(mode)),
            Mnemonic::STA => self.write(self.operand_address(mode), self.a),
            Mnemonic::STX => self.write(self.operand_address(mode), self.x),
            Mnemonic::STY => self.write(self.operand_address(mode), self.y),
            _ => self,
        }
    }

    /// Branches and the instructions that set or clear one flag.
    pub open spec fn execute_flag_op(self, op: OpCode) -> CpuState {
        match op.mnemonic {
            Mnemonic::BCC => self.branch(!self.flag(StatusFlag::Carry)),
            Mnemonic::BCS => self.branch(self.flag(StatusFlag::Carry)),
            Mnemonic::BEQ => self.branch(self.flag(StatusFlag::Zero)),
            Mnemonic::BNE => self.branch(!self.flag(StatusFlag::Zero)),
            Mnemonic::BMI => self.branch(self.flag(StatusFlag::Negative)),
            Mnemonic::BPL => self.branch(!self.flag(StatusFlag::Negative)),
            Mnemonic::BVS => self.branch(self.flag(StatusFlag::Overflow)),
            Mnemonic::BVC => self.branch(!self.flag(StatusFlag::Overflow)),
            Mnemonic::CLC => self.set_flag(StatusFlag::Carry, false),
            Mnemonic::CLD => self.set_flag(StatusFlag::Decimal, false),
            Mnemonic::CLI => self.set_flag(StatusFlag::InterruptDisable, false),
            Mnemonic::CLV => self.set_flag(StatusFlag::Overflow, false),
            Mnemonic::SEC => self.set_flag(StatusFlag::Carry, true),
            Mnemonic::SED => self.set_flag(StatusFlag::Decimal, true),
            Mnemonic::SEI => self.set_flag(StatusFlag::InterruptDisable, true),
            _ => self,
        }
    }

    /// Register transfers, increments and decrements, NOP.
    pub open spec fn execute_register_op(self, op: OpCode) -> CpuState {
        match op.mnemonic {
            Mnemonic::DEX => CpuState { x: wrap8(self.x - 1), ..self }.set_zn(wrap8(self.x - 1)),
            Mnemonic::DEY => CpuState { y: wrap8(self.y - 1), ..self }.set_zn(wrap8(self.y - 1)),
            Mnemonic::INX => CpuState { x: wrap8(self.x + 1), ..self }.set_zn(wrap8(self.x + 1)),
            Mnemonic::INY => CpuState { y: wrap8(self.y + 1), ..self }.set_zn(wrap8(self.y + 1)),
            Mnemonic::TAX => CpuState { x: self.a, ..self }.set_zn(self.a),
            Mnemonic::TAY => CpuState { y: self.a, ..self }.set_zn(self.a),
            Mnemonic::TSX => CpuState { x: self.sp, ..self }.set_zn(self.sp),
            // TXS is the one transfer that leaves the flags alone.
            Mnemonic::TXS => CpuState { sp: self.x, ..self },
            Mnemonic::TXA => self.load_accumulator(self.x),
            Mnemonic::TYA => self.load_accumulator(self.y),
            _ => self,
        }
    }

    /// Jumps, returns, stack transfers, shifts and rotates.
    pub open spec fn execute_control_op(self, op: OpCode) -> CpuState {
        let mode = op.addressing_mode;
        match op.mnemonic {
            Mnemonic::ASL | Mnemonic::LSR | Mnemonic::ROL | Mnemonic::ROR => self.shift(
                op.mnemonic,
                mode,
            ),
            Mnemonic::JMP => self.jmp(mode),
            Mnemonic::JSR => self.jsr(),
            Mnemonic::RTS => self.rts(),
            Mnemonic::RTI => self.rti(),
            Mnemonic::PHA => self.push(self.a),
            Mnemonic::PHP => self.push(self.p | 0b0011_0000),
            Mnemonic::PLA => {
                let (s, v) = self.pull();
                s.load_accumulator(v)
            },
            Mnemonic::PLP => {
                let (s, v) = self.pull();
                CpuState { p: v | 0b0010_0000, ..s }
            },
            _ => self,
        }
    }

    /// The effect of an instruction other than BRK, with PC at its first
    /// operand byte; advancing past the operand is left to `step`.
    #[verifier::opaque]
    pub open spec fn execute_op(self, op: OpCode) -> CpuState {
        if op.mnemonic.is_memory_op() {
            self.execute_memory_op(op)
        } else if op.mnemonic.is_flag_op() {
            self.execute_flag_op(op)
        } else if op.mnemonic.is_register_op() {
            self.execute_register_op(op)
        } else {
            self.execute_control_op(op)
        }
    }

    /// One fetch-decode-execute cycle. An unknown opcode changes nothing; BRK
    /// only moves PC past itself; any other instruction runs and, unless it
    /// moved PC itself, PC then skips its operand bytes.
    pub open spec fn step(self) -> (CpuState, Step) {
        let code = self.read(self.pc);
        match decode(code) {
            None => (self, Step::UnknownOpcode(code)),
            Some(op) => {
                let fetched = CpuState { pc: addr_add(self.pc, 1), ..self };
                if op.mnemonic == Mnemonic::BRK {
                    (fetched, Step::Break)
                } else {
                    let done = fetched.execute_op(op);
                    if done.pc == fetched.pc {
                        (CpuState { pc: addr_add(done.pc, op.bytes - 1), ..done }, Step::Continue)
                    } else {
                        (done, Step::Continue)
                    }
                }
            },
        }
    }

    /// Up to `fuel` steps, stopping at BRK or at an unknown opcode.
    pub open spec fn run(self, fuel: nat) -> (CpuState, Halt)
        decreases fuel,
    {
        if fuel == 0 {
            (self, Halt::StepLimit)
        } else {
            let (next, outcome) = self.step();
            match outcome {
                Step::Continue => next.run((fuel - 1) as nat),
                Step::Break => (next, Halt::Break),
                Step::UnknownOpcode(b) => (next, Halt::UnknownOpcode(b)),
            }
        }
    }
}

/// Pushing a byte and pulling it back yields that byte and restores SP; the
/// same holds of a 16-bit value pushed and pulled as two bytes.
pub proof fn lemma_stack_round_trip(s: CpuState, v: u8, w: u16)
    requires
        s.bus.wf(),
    ensures
        s.push(v).pull().1 == v,
        s.push(v).pull().0.sp == s.sp,
        s.push16(w).pull16().1 == w,
        s.push16(w).pull16().0.sp == s.sp,
{
    reveal(BusView::read);
    reveal(BusView::write);
    let s1 = s.push(hi_byte(w));
    let s2 = s1.push(lo_byte(w));
    assert(wrap8(wrap8(s.sp - 1) + 1) == s.sp);
    assert(wrap8(wrap8(s1.sp - 1) + 1) == s1.sp);
    assert(s1.sp == wrap8(s.sp - 1));
    assert(s1.sp != s.sp);
    assert(word_of(lo_byte(w), hi_byte(w)) == w);
}

/// Setting or clearing any flag, and the zero/negative update, keep bit 5.
proof fn lemma_flag_updates_keep_unused_bit()
    ensures
        forall|p: u8, f: StatusFlag, on: bool|
            #[trigger] with_flag(p, f, on) & UNUSED_BIT == p & UNUSED_BIT,
        forall|p: u8, v: u8| #[trigger] with_zn(p, v) & UNUSED_BIT == p & UNUSED_BIT,
{
    assert forall|p: u8, f: StatusFlag, on: bool|
        #[trigger] with_flag(p, f, on) & UNUSED_BIT == p & UNUSED_BIT by {
        lemma_with_flag(p, f, on);
    }
    assert forall|p: u8, v: u8| #[trigger] with_zn(p, v) & UNUSED_BIT == p & UNUSED_BIT by {
        lemma_with_zn(p, v);
    }
}

/// No instruction clears bit 5 of P.
pub proof fn lemma_step_keeps_unused_bit(s: CpuState)
    requires
        s.p & UNUSED_BIT != 0,
    ensures
        s.step().0.p & UNUSED_BIT != 0,
{
    reveal(CpuState::execute_op);
    lemma_flag_updates_keep_unused_bit();
    assert(forall|v: u8| #[trigger] (v | 0b0010_0000) & 0b0010_0000 != 0) by (bit_vector);
    assert(forall|v: u8| #[trigger] ((v & 0b1110_1111) | 0b0010_0000) & 0b0010_0000 != 0)
        by (bit_vector);
    let code = s.read(s.pc);
    if let Some(op) = decode(code) {
        let fetched = CpuState { pc: addr_add(s.pc, 1), ..s };
        let m = op.mnemonic;
        if m.is_memory_op() {
            assert(fetched.execute_memory_op(op).p & UNUSED_BIT != 0);
        } else if m.is_flag_op() {
            assert(fetched.execute_flag_op(op).p & UNUSED_BIT != 0);
        } else if m.is_register_op() {
            assert(fetched.execute_register_op(op).p & UNUSED_BIT != 0);
        } else {
            assert(fetched.execute_control_op(op).p & UNUSED_BIT != 0);
        }
    }
}

/// Bit 5 of P stays set through any run that starts with it set, as every
/// run from reset does.
pub proof fn lemma_run_keeps_unused_bit(s: CpuState, fuel: nat)
    requires
        s.p & UNUSED_BIT != 0,
    ensures
        s.run(fuel).0.p & UNUSED_BIT != 0,
        s.reset().p & UNUSED_BIT != 0,
    decreases fuel,
{
    assert(0b0010_0100u8 & UNUSED_BIT != 0) by (bit_vector);
    if fuel > 0 {
        lemma_step_keeps_unused_bit(s);
        lemma_run_keeps_unused_bit(s.step().0, (fuel - 1) as nat);
    }
}

/// A run of at most `fuel` instructions from `s` in which, before each
/// instruction, the state may change as `hook` allows (`hook(before, after)`):
/// it can end in `t` with `h`. It stops right after the step that meets BRK or
/// an unknown opcode, with no further hook, or when the fuel is spent.
pub open spec fn hooked_run(
    hook: spec_fn(CpuState, CpuState) -> bool,
    s: CpuState,
    fuel: nat,
    t: CpuState,
    h: Halt,
) -> bool
    decreases fuel,
{
    if fuel == 0 {
        t == s && h == Halt::StepLimit
    } else {
        exists|hooked: CpuState|
            #[trigger] hook(s, hooked) && match hooked.step() {
                (mid, Step::Continue) => hooked_run(hook, mid, (fuel - 1) as nat, t, h),
                (mid, Step::Break) => t == mid && h == Halt::Break,
                (mid, Step::UnknownOpcode(b)) => t == mid && h == Halt::UnknownOpcode(b),
            }
    }
}

/// With a hook that changes nothing, a hooked run is the plain run.
pub proof fn lemma_hooked_run_unchanged(
    hook: spec_fn(CpuState, CpuState) -> bool,
    s: CpuState,
    fuel: nat,
    t: CpuState,
    h: Halt,
)
    requires
        hooked_run(hook, s, fuel, t, h),
    ensures
        (forall|a: CpuState, b: CpuState| #[trigger] hook(a, b) ==> b == a) ==> (t, h) == s.run(
            fuel,
        ),
    decreases fuel,
{
    if fuel > 0 && forall|a: CpuState, b: CpuState| #[trigger] hook(a, b) ==> b == a {
        let hooked = choose|hooked: CpuState|
            #[trigger] hook(s, hooked) && match hooked.step() {
                (mid, Step::Continue) => hooked_run(hook, mid, (fuel - 1) as nat, t, h),
                (mid, Step::Break) => t == mid && h == Halt::Break,
                (mid, Step::UnknownOpcode(b)) => t == mid && h == Halt::UnknownOpcode(b),
            };
        assert(hooked == s);
        if s.step().1 == Step::Continue {
            lemma_hooked_run_unchanged(hook, s.step().0, (fuel - 1) as nat, t, h);
        }
    }
}

/// With a hook that never clears bit 5 of P, a hooked run from a state with
/// bit 5 set ends with it set.
pub proof fn lemma_hooked_run_keeps_unused_bit(
    hook: spec_fn(CpuState, CpuState) -> bool,
    s: CpuState,
    fuel: nat,
    t: CpuState,
    h: Halt,
)
    requires
        hooked_run(hook, s, fuel, t, h),
    ensures
        (forall|a: CpuState, b: CpuState|
            #[trigger] hook(a, b) && a.p & UNUSED_BIT != 0 ==> b.p & UNUSED_BIT != 0) && s.p
            & UNUSED_BIT != 0 ==> t.p & UNUSED_BIT != 0,
    decreases fuel,
{
    if fuel > 0 && (forall|a: CpuState, b: CpuState|
        #[trigger] hook(a, b) && a.p & UNUSED_BIT != 0 ==> b.p & UNUSED_BIT != 0) && s.p
        & UNUSED_BIT != 0 {
        let hooked = choose|hooked: CpuState|
            #[trigger] hook(s, hooked) && match hooked.step() {
                (mid, Step::Continue) => hooked_run(hook, mid, (fuel - 1) as nat, t, h),
                (mid, Step::Break) => t == mid && h == Halt::Break,
                (mid, Step::UnknownOpcode(b)) => t == mid && h == Halt::UnknownOpcode(b),
            };
        lemma_step_keeps_unused_bit(hooked);
        if hooked.step().1 == Step::Continue {
            lemma_hooked_run_keeps_unused_bit(hook, hooked.step().0, (fuel - 1) as nat, t, h);
        }
    }
}

/// With a hook that never clears bit 5 of P, a hooked run from a state with
/// bit 5 set only ever hands the hook states with bit 5 set: it is also a run
/// of the hook restricted to such states.
pub proof fn lemma_hooked_run_hook_sees_unused_bit(
    hook: spec_fn(CpuState, CpuState) -> bool,
    s: CpuState,
    fuel: nat,
    t: CpuState,
    h: Halt,
)
    requires
        hooked_run(hook, s, fuel, t, h),
    ensures
        (forall|a: CpuState, b: CpuState|
            #[trigger] hook(a, b) && a.p & UNUSED_BIT != 0 ==> b.p & UNUSED_BIT != 0) && s.p
            & UNUSED_BIT != 0 ==> hooked_run(
            |a: CpuState, b: CpuState| hook(a, b) && a.p & UNUSED_BIT != 0,
            s,
            fuel,
            t,
            h,
        ),
    decreases fuel,
{
    let seen = |a: CpuState, b: CpuState| hook(a, b) && a.p & UNUSED_BIT != 0;
    if fuel > 0 && (forall|a: CpuState, b: CpuState|
        #[trigger] hook(a, b) && a.p & UNUSED_BIT != 0 ==> b.p & UNUSED_BIT != 0) && s.p
        & UNUSED_BIT != 0 {
        let hooked = choose|hooked: CpuState|
            #[trigger] hook(s, hooked) && match hooked.step() {
                (mid, Step::Continue) => hooked_run(hook, mid, (fuel - 1) as nat, t, h),
                (mid, Step::Break) => t == mid && h == Halt::Break,
                (mid, Step::UnknownOpcode(b)) => t == mid && h == Halt::UnknownOpcode(b),
            };
        assert(seen(s, hooked));
        lemma_step_keeps_unused_bit(hooked);
        if hooked.step().1 == Step::Continue {
            lemma_hooked_run_hook_sees_unused_bit(hook, hooked.step().0, (fuel - 1) as nat, t, h);
        }
    }
}

} // verus!
