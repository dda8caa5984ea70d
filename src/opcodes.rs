use vstd::prelude::*;

verus! {

/// How an instruction finds its operand, from the program counter (which
/// points at the first operand byte) and the index registers.
#[derive(Clone, Copy, Debug, PartialEq, Eq, Structural)]
#[allow(non_camel_case_types)]
pub enum AddressingMode {
    Immediate,
    ZeroPage,
    ZeroPage_X,
    ZeroPage_Y,
    Absolute,
    Absolute_X,
    Absolute_Y,
    Indirect_X,
    Indirect_Y,
    NoneAddressing,
}

/// The instruction an opcode stands for, decoded once in the table so that
/// the interpreter switches on a tag rather than on a name.
#[derive(Clone, Copy, Debug, PartialEq, Eq, Structural)]
pub enum Mnemonic {
    ADC,
    AND,
    ASL,
    BCC,
    BCS,
    BEQ,
    BIT,
    BMI,
    BNE,
    BPL,
    BRK,
    BVC,
    BVS,
    CLC,
    CLD,
    CLI,
    CLV,
    CMP,
    CPX,
    CPY,
    DEC,
    DEX,
    DEY,
    EOR,
    INC,
    INX,
    INY,
    JMP,
    JSR,
    LDA,
    LDX,
    LDY,
    LSR,
    NOP,
    ORA,
    PHA,
    PHP,
    PLA,
    PLP,
    ROL,
    ROR,
    RTI,
    RTS,
    SBC,
    SEC,
    SED,
    SEI,
    STA,
    STX,
    STY,
    TAX,
    TAY,
    TSX,
    TXA,
    TXS,
    TYA,
}

impl Mnemonic {
    /// The assembler name of the instruction.
    pub open spec fn name(&self) -> &'static str {
        match self {
            Mnemonic::ADC => "ADC",
            Mnemonic::AND => "AND",
            Mnemonic::ASL => "ASL",
            Mnemonic::BCC => "BCC",
            Mnemonic::BCS => "BCS",
            Mnemonic::BEQ => "BEQ",
            Mnemonic::BIT => "BIT",
            Mnemonic::BMI => "BMI",
            Mnemonic::BNE => "BNE",
            Mnemonic::BPL => "BPL",
            Mnemonic::BRK => "BRK",
            Mnemonic::BVC => "BVC",
            Mnemonic::BVS => "BVS",
            Mnemonic::CLC => "CLC",
            Mnemonic::CLD => "CLD",
            Mnemonic::CLI => "CLI",
            Mnemonic::CLV => "CLV",
            Mnemonic::CMP => "CMP",
            Mnemonic::CPX => "CPX",
            Mnemonic::CPY => "CPY",
            Mnemonic::DEC => "DEC",
            Mnemonic::DEX => "DEX",
            Mnemonic::DEY => "DEY",
            Mnemonic::EOR => "EOR",
            Mnemonic::INC => "INC",
            Mnemonic::INX => "INX",
            Mnemonic::INY => "INY",
            Mnemonic::JMP => "JMP",
            Mnemonic::JSR => "JSR",
            Mnemonic::LDA => "LDA",
            Mnemonic::LDX => "LDX",
            Mnemonic::LDY => "LDY",
            Mnemonic::LSR => "LSR",
            Mnemonic::NOP => "NOP",
            Mnemonic::ORA => "ORA",
            Mnemonic::PHA => "PHA",
            Mnemonic::PHP => "PHP",
            Mnemonic::PLA => "PLA",
            Mnemonic::PLP => "PLP",
            Mnemonic::ROL => "ROL",
            Mnemonic::ROR => "ROR",
            Mnemonic::RTI => "RTI",
            Mnemonic::RTS => "RTS",
            Mnemonic::SBC => "SBC",
            Mnemonic::SEC => "SEC",
            Mnemonic::SED => "SED",
            Mnemonic::SEI => "SEI",
            Mnemonic::STA => "STA",
            Mnemonic::STX => "STX",
            Mnemonic::STY => "STY",
            Mnemonic::TAX => "TAX",
            Mnemonic::TAY => "TAY",
            Mnemonic::TSX => "TSX",
            Mnemonic::TXA => "TXA",
            Mnemonic::TXS => "TXS",
            Mnemonic::TYA => "TYA",
        }
    }

    /// Instructions whose operand is reached through `get_operand_address`
    /// in every addressing mode the table gives them.
    pub open spec fn needs_address(self) -> bool {
        match self {
            Mnemonic::ADC | Mnemonic::AND | Mnemonic::BIT | Mnemonic::CMP | Mnemonic::CPX
            | Mnemonic::CPY | Mnemonic::DEC | Mnemonic::EOR | Mnemonic::INC | Mnemonic::LDA
            | Mnemonic::LDX | Mnemonic::LDY | Mnemonic::ORA | Mnemonic::SBC | Mnemonic::STA
            | Mnemonic::STX | Mnemonic::STY | Mnemonic::JSR => true,
            _ => false,
        }
    }

    /// Instructions whose effect goes through the operand's address.
    pub open spec fn is_memory_op(&self) -> bool {
        match self {
            Mnemonic::ADC | Mnemonic::SBC | Mnemonic::AND | Mnemonic::ORA | Mnemonic::EOR | Mnemonic::BIT | Mnemonic::CMP | Mnemonic::CPX | Mnemonic::CPY | Mnemonic::DEC | Mnemonic::INC | Mnemonic::LDA | Mnemonic::LDX | Mnemonic::LDY | Mnemonic::STA | Mnemonic::STX | Mnemonic::STY => true,
            _ => false,
        }
    }

    /// Branches and single-flag instructions.
    pub open spec fn is_flag_op(&self) -> bool {
        match self {
            Mnemonic::BCC | Mnemonic::BCS | Mnemonic::BEQ | Mnemonic::BNE | Mnemonic::BMI | Mnemonic::BPL | Mnemonic::BVS | Mnemonic::BVC | Mnemonic::CLC | Mnemonic::CLD | Mnemonic::CLI | Mnemonic::CLV | Mnemonic::SEC | Mnemonic::SED | Mnemonic::SEI => true,
            _ => false,
        }
    }

    /// Register-only instructions, NOP and BRK.
    pub open spec fn is_register_op(&self) -> bool {
        match self {
            Mnemonic::DEX | Mnemonic::DEY | Mnemonic::INX | Mnemonic::INY | Mnemonic::TAX | Mnemonic::TAY | Mnemonic::TSX | Mnemonic::TXS | Mnemonic::TXA | Mnemonic::TYA | Mnemonic::NOP | Mnemonic::BRK => true,
            _ => false,
        }
    }

    #[verifier::when_used_as_spec(is_memory_op)]
    pub fn is_memory(&self) -> (r: bool)
        ensures
            r == self.is_memory_op(),
    {
        match self {
            Mnemonic::ADC | Mnemonic::SBC | Mnemonic::AND | Mnemonic::ORA | Mnemonic::EOR | Mnemonic::BIT | Mnemonic::CMP | Mnemonic::CPX | Mnemonic::CPY | Mnemonic::DEC | Mnemonic::INC | Mnemonic::LDA | Mnemonic::LDX | Mnemonic::LDY | Mnemonic::STA | Mnemonic::STX | Mnemonic::STY => true,
            _ => false,
        }
    }

    #[verifier::when_used_as_spec(is_flag_op)]
    pub fn is_flag(&self) -> (r: bool)
        ensures
            r == self.is_flag_op(),
    {
        match self {
            Mnemonic::BCC | Mnemonic::BCS | Mnemonic::BEQ | Mnemonic::BNE | Mnemonic::BMI | Mnemonic::BPL | Mnemonic::BVS | Mnemonic::BVC | Mnemonic::CLC | Mnemonic::CLD | Mnemonic::CLI | Mnemonic::CLV | Mnemonic::SEC | Mnemonic::SED | Mnemonic::SEI => true,
            _ => false,
        }
    }

    #[verifier::when_used_as_spec(is_register_op)]
    pub fn is_register(&self) -> (r: bool)
        ensures
            r == self.is_register_op(),
    {
        match self {
            Mnemonic::DEX | Mnemonic::DEY | Mnemonic::INX | Mnemonic::INY | Mnemonic::TAX | Mnemonic::TAY | Mnemonic::TSX | Mnemonic::TXS | Mnemonic::TXA | Mnemonic::TYA | Mnemonic::NOP | Mnemonic::BRK => true,
            _ => false,
        }
    }

    #[verifier::when_used_as_spec(name)]
    pub fn label(&self) -> (r: &'static str)
        ensures
            r == self.name(),
    {
        match self {
            Mnemonic::ADC => "ADC",
            Mnemonic::AND => "AND",
            Mnemonic::ASL => "ASL",
            Mnemonic::BCC => "BCC",
            Mnemonic::BCS => "BCS",
            Mnemonic::BEQ => "BEQ",
            Mnemonic::BIT => "BIT",
            Mnemonic::BMI => "BMI",
            Mnemonic::BNE => "BNE",
            Mnemonic::BPL => "BPL",
            Mnemonic::BRK => "BRK",
            Mnemonic::BVC => "BVC",
            Mnemonic::BVS => "BVS",
            Mnemonic::CLC => "CLC",
            Mnemonic::CLD => "CLD",
            Mnemonic::CLI => "CLI",
            Mnemonic::CLV => "CLV",
            Mnemonic::CMP => "CMP",
            Mnemonic::CPX => "CPX",
            Mnemonic::CPY => "CPY",
            Mnemonic::DEC => "DEC",
            Mnemonic::DEX => "DEX",
            Mnemonic::DEY => "DEY",
            Mnemonic::EOR => "EOR",
            Mnemonic::INC => "INC",
            Mnemonic::INX => "INX",
            Mnemonic::INY => "INY",
            Mnemonic::JMP => "JMP",
            Mnemonic::JSR => "JSR",
            Mnemonic::LDA => "LDA",
            Mnemonic::LDX => "LDX",
            Mnemonic::LDY => "LDY",
            Mnemonic::LSR => "LSR",
            Mnemonic::NOP => "NOP",
            Mnemonic::ORA => "ORA",
            Mnemonic::PHA => "PHA",
            Mnemonic::PHP => "PHP",
            Mnemonic::PLA => "PLA",
            Mnemonic::PLP => "PLP",
            Mnemonic::ROL => "ROL",
            Mnemonic::ROR => "ROR",
            Mnemonic::RTI => "RTI",
            Mnemonic::RTS => "RTS",
            Mnemonic::SBC => "SBC",
            Mnemonic::SEC => "SEC",
            Mnemonic::SED => "SED",
            Mnemonic::SEI => "SEI",
            Mnemonic::STA => "STA",
            Mnemonic::STX => "STX",
            Mnemonic::STY => "STY",
            Mnemonic::TAX => "TAX",
            Mnemonic::TAY => "TAY",
            Mnemonic::TSX => "TSX",
            Mnemonic::TXA => "TXA",
            Mnemonic::TXS => "TXS",
            Mnemonic::TYA => "TYA",
        }
    }
}

/// One row of the opcode table.
#[derive(Clone, Copy, Debug)]
pub struct OpCode {
    pub opcode: u8,
    pub mnemonic: Mnemonic,
    pub label: &'static str,
    pub bytes: u8,
    pub cycles: u16,
    pub addressing_mode: AddressingMode,
}

/// The lookup of a byte that is not an official opcode.
#[derive(Clone, Copy, Debug)]
pub struct OpCodeNotFound(pub u8);

pub open spec fn op_record(
    opcode: u8,
    mnemonic: Mnemonic,
    bytes: u8,
    cycles: u16,
    addressing_mode: AddressingMode,
) -> OpCode {
    OpCode { opcode, mnemonic, label: mnemonic.name(), bytes, cycles, addressing_mode }
}

impl OpCode {
    /// A row is well formed when its length is 1 to 3 bytes and an instruction
    /// that reads through an address has a mode that yields one.
    pub open spec fn wf(self) -> bool {
        &&& 1 <= self.bytes <= 3
        &&& self.mnemonic.needs_address() ==> self.addressing_mode != AddressingMode::NoneAddressing
        &&& (self.mnemonic == Mnemonic::ASL || self.mnemonic == Mnemonic::LSR || self.mnemonic
            == Mnemonic::ROL || self.mnemonic == Mnemonic::ROR) ==> (self.addressing_mode
            == AddressingMode::NoneAddressing <==> self.bytes == 1)
    }

    fn new(
        opcode: u8,
        mnemonic: Mnemonic,
        bytes: u8,
        cycles: u16,
        addressing_mode: AddressingMode,
    ) -> (r: Self)
        ensures
            r == op_record(opcode, mnemonic, bytes, cycles, addressing_mode),
    {
        Self { opcode, mnemonic, label: mnemonic.label(), bytes, cycles, addressing_mode }
    }
}

/// The table of the 151 official opcodes: opcode byte to its record.
pub open spec fn decode(code: u8) -> Option<OpCode> {
    match code {
        0x00 => Some(op_record(0x00, Mnemonic::BRK, 1, 7, AddressingMode::NoneAddressing)),
        0x01 => Some(op_record(0x01, Mnemonic::ORA, 2, 6, AddressingMode::Indirect_X)),
        0x05 => Some(op_record(0x05, Mnemonic::ORA, 2, 3, AddressingMode::ZeroPage)),
        0x06 => Some(op_record(0x06, Mnemonic::ASL, 2, 5, AddressingMode::ZeroPage)),
        0x08 => Some(op_record(0x08, Mnemonic::PHP, 1, 3, AddressingMode::NoneAddressing)),
        0x09 => Some(op_record(0x09, Mnemonic::ORA, 2, 2, AddressingMode::Immediate)),
        0x0A => Some(op_record(0x0A, Mnemonic::ASL, 1, 2, AddressingMode::NoneAddressing)),
        0x0D => Some(op_record(0x0D, Mnemonic::ORA, 3, 4, AddressingMode::Absolute)),
        0x0E => Some(op_record(0x0E, Mnemonic::ASL, 3, 6, AddressingMode::Absolute)),
        0x10 => Some(op_record(0x10, Mnemonic::BPL, 2, 2, AddressingMode::NoneAddressing)),
        0x11 => Some(op_record(0x11, Mnemonic::ORA, 2, 5, AddressingMode::Indirect_Y)),
        0x15 => Some(op_record(0x15, Mnemonic::ORA, 2, 4, AddressingMode::ZeroPage_X)),
        0x16 => Some(op_record(0x16, Mnemonic::ASL, 2, 6, AddressingMode::ZeroPage_X)),
        0x18 => Some(op_record(0x18, Mnemonic::CLC, 1, 2, AddressingMode::NoneAddressing)),
        0x19 => Some(op_record(0x19, Mnemonic::ORA, 3, 4, AddressingMode::Absolute_Y)),
        0x1D => Some(op_record(0x1D, Mnemonic::ORA, 3, 4, AddressingMode::Absolute_X)),
        0x1E => Some(op_record(0x1E, Mnemonic::ASL, 3, 7, AddressingMode::Absolute_X)),
        0x20 => Some(op_record(0x20, Mnemonic::JSR, 3, 6, AddressingMode::Absolute)),
        0x21 => Some(op_record(0x21, Mnemonic::AND, 2, 6, AddressingMode::Indirect_X)),
        0x24 => Some(op_record(0x24, Mnemonic::BIT, 2, 3, AddressingMode::ZeroPage)),
        0x25 => Some(op_record(0x25, Mnemonic::AND, 2, 3, AddressingMode::ZeroPage)),
        0x26 => Some(op_record(0x26, Mnemonic::ROL, 2, 5, AddressingMode::ZeroPage)),
        0x28 => Some(op_record(0x28, Mnemonic::PLP, 1, 4, AddressingMode::NoneAddressing)),
        0x29 => Some(op_record(0x29, Mnemonic::AND, 2, 2, AddressingMode::Immediate)),
        0x2A => Some(op_record(0x2A, Mnemonic::ROL, 1, 2, AddressingMode::NoneAddressing)),
        0x2C => Some(op_record(0x2C, Mnemonic::BIT, 3, 4, AddressingMode::Absolute)),
        0x2D => Some(op_record(0x2D, Mnemonic::AND, 3, 4, AddressingMode::Absolute)),
        0x2E => Some(op_record(0x2E, Mnemonic::ROL, 3, 6, AddressingMode::Absolute)),
        0x30 => Some(op_record(0x30, Mnemonic::BMI, 2, 2, AddressingMode::NoneAddressing)),
        0x31 => Some(op_record(0x31, Mnemonic::AND, 2, 5, AddressingMode::Indirect_Y)),
        0x35 => Some(op_record(0x35, Mnemonic::AND, 2, 4, AddressingMode::ZeroPage_X)),
        0x36 => Some(op_record(0x36, Mnemonic::ROL, 2, 6, AddressingMode::ZeroPage_X)),
        0x38 => Some(op_record(0x38, Mnemonic::SEC, 1, 2, AddressingMode::NoneAddressing)),
        0x39 => Some(op_record(0x39, Mnemonic::AND, 3, 4, AddressingMode::Absolute_Y)),
        0x3D => Some(op_record(0x3D, Mnemonic::AND, 3, 4, AddressingMode::Absolute_X)),
        0x3E => Some(op_record(0x3E, Mnemonic::ROL, 3, 7, AddressingMode::Absolute_X)),
        0x40 => Some(op_record(0x40, Mnemonic::RTI, 1, 6, AddressingMode::NoneAddressing)),
        0x41 => Some(op_record(0x41, Mnemonic::EOR, 2, 6, AddressingMode::Indirect_X)),
        0x45 => Some(op_record(0x45, Mnemonic::EOR, 2, 3, AddressingMode::ZeroPage)),
        0x46 => Some(op_record(0x46, Mnemonic::LSR, 2, 5, AddressingMode::ZeroPage)),
        0x48 => Some(op_record(0x48, Mnemonic::PHA, 1, 3, AddressingMode::NoneAddressing)),
        0x49 => Some(op_record(0x49, Mnemonic::EOR, 2, 2, AddressingMode::Immediate)),
        0x4A => Some(op_record(0x4A, Mnemonic::LSR, 1, 2, AddressingMode::NoneAddressing)),
        0x4C => Some(op_record(0x4C, Mnemonic::JMP, 3, 3, AddressingMode::Absolute)),
        0x4D => Some(op_record(0x4D, Mnemonic::EOR, 3, 4, AddressingMode::Absolute)),
        0x4E => Some(op_record(0x4E, Mnemonic::LSR, 3, 6, AddressingMode::Absolute)),
        0x50 => Some(op_record(0x50, Mnemonic::BVC, 2, 2, AddressingMode::NoneAddressing)),
        0x51 => Some(op_record(0x51, Mnemonic::EOR, 2, 5, AddressingMode::Indirect_Y)),
        0x55 => Some(op_record(0x55, Mnemonic::EOR, 2, 4, AddressingMode::ZeroPage_X)),
        0x56 => Some(op_record(0x56, Mnemonic::LSR, 2, 6, AddressingMode::ZeroPage_X)),
        0x58 => Some(op_record(0x58, Mnemonic::CLI, 1, 2, AddressingMode::NoneAddressing)),
        0x59 => Some(op_record(0x59, Mnemonic::EOR, 3, 4, AddressingMode::Absolute_Y)),
        0x5D => Some(op_record(0x5D, Mnemonic::EOR, 3, 4, AddressingMode::Absolute_X)),
        0x5E => Some(op_record(0x5E, Mnemonic::LSR, 3, 7, AddressingMode::Absolute_X)),
        0x60 => Some(op_record(0x60, Mnemonic::RTS, 1, 6, AddressingMode::NoneAddressing)),
        0x61 => Some(op_record(0x61, Mnemonic::ADC, 2, 6, AddressingMode::Indirect_X)),
        0x65 => Some(op_record(0x65, Mnemonic::ADC, 2, 3, AddressingMode::ZeroPage)),
        0x66 => Some(op_record(0x66, Mnemonic::ROR, 2, 5, AddressingMode::ZeroPage)),
        0x68 => Some(op_record(0x68, Mnemonic::PLA, 1, 4, AddressingMode::NoneAddressing)),
        0x69 => Some(op_record(0x69, Mnemonic::ADC, 2, 2, AddressingMode::Immediate)),
        0x6A => Some(op_record(0x6A, Mnemonic::ROR, 1, 2, AddressingMode::NoneAddressing)),
        0x6C => Some(op_record(0x6C, Mnemonic::JMP, 3, 5, AddressingMode::NoneAddressing)),
        0x6D => Some(op_record(0x6D, Mnemonic::ADC, 3, 4, AddressingMode::Absolute)),
        0x6E => Some(op_record(0x6E, Mnemonic::ROR, 3, 6, AddressingMode::Absolute)),
        0x70 => Some(op_record(0x70, Mnemonic::BVS, 2, 2, AddressingMode::NoneAddressing)),
        0x71 => Some(op_record(0x71, Mnemonic::ADC, 2, 5, AddressingMode::Indirect_Y)),
        0x75 => Some(op_record(0x75, Mnemonic::ADC, 2, 4, AddressingMode::ZeroPage_X)),
        0x76 => Some(op_record(0x76, Mnemonic::ROR, 2, 6, AddressingMode::ZeroPage_X)),
        0x78 => Some(op_record(0x78, Mnemonic::SEI, 1, 2, AddressingMode::NoneAddressing)),
        0x79 => Some(op_record(0x79, Mnemonic::ADC, 3, 4, AddressingMode::Absolute_Y)),
        0x7D => Some(op_record(0x7D, Mnemonic::ADC, 3, 4, AddressingMode::Absolute_X)),
        0x7E => Some(op_record(0x7E, Mnemonic::ROR, 3, 7, AddressingMode::Absolute_X)),
        0x81 => Some(op_record(0x81, Mnemonic::STA, 2, 6, AddressingMode::Indirect_X)),
        0x84 => Some(op_record(0x84, Mnemonic::STY, 2, 3, AddressingMode::ZeroPage)),
        0x85 => Some(op_record(0x85, Mnemonic::STA, 2, 3, AddressingMode::ZeroPage)),
        0x86 => Some(op_record(0x86, Mnemonic::STX, 2, 3, AddressingMode::ZeroPage)),
        0x88 => Some(op_record(0x88, Mnemonic::DEY, 1, 2, AddressingMode::NoneAddressing)),
        0x8A => Some(op_record(0x8A, Mnemonic::TXA, 1, 2, AddressingMode::NoneAddressing)),
        0x8C => Some(op_record(0x8C, Mnemonic::STY, 3, 4, AddressingMode::Absolute)),
        0x8D => Some(op_record(0x8D, Mnemonic::STA, 3, 4, AddressingMode::Absolute)),
        0x8E => Some(op_record(0x8E, Mnemonic::STX, 3, 4, AddressingMode::Absolute)),
        0x90 => Some(op_record(0x90, Mnemonic::BCC, 2, 2, AddressingMode::NoneAddressing)),
        0x91 => Some(op_record(0x91, Mnemonic::STA, 2, 6, AddressingMode::Indirect_Y)),
        0x94 => Some(op_record(0x94, Mnemonic::STY, 2, 4, AddressingMode::ZeroPage_X)),
        0x95 => Some(op_record(0x95, Mnemonic::STA, 2, 4, AddressingMode::ZeroPage_X)),
        0x96 => Some(op_record(0x96, Mnemonic::STX, 2, 4, AddressingMode::ZeroPage_Y)),
        0x98 => Some(op_record(0x98, Mnemonic::TYA, 1, 2, AddressingMode::NoneAddressing)),
        0x99 => Some(op_record(0x99, Mnemonic::STA, 3, 5, AddressingMode::Absolute_Y)),
        0x9A => Some(op_record(0x9A, Mnemonic::TXS, 1, 2, AddressingMode::NoneAddressing)),
        0x9D => Some(op_record(0x9D, Mnemonic::STA, 3, 5, AddressingMode::Absolute_X)),
        0xA0 => Some(op_record(0xA0, Mnemonic::LDY, 2, 2, AddressingMode::Immediate)),
        0xA1 => Some(op_record(0xA1, Mnemonic::LDA, 2, 6, AddressingMode::Indirect_X)),
        0xA2 => Some(op_record(0xA2, Mnemonic::LDX, 2, 2, AddressingMode::Immediate)),
        0xA4 => Some(op_record(0xA4, Mnemonic::LDY, 2, 3, AddressingMode::ZeroPage)),
        0xA5 => Some(op_record(0xA5, Mnemonic::LDA, 2, 3, AddressingMode::ZeroPage)),
        0xA6 => Some(op_record(0xA6, Mnemonic::LDX, 2, 3, AddressingMode::ZeroPage)),
        0xA8 => Some(op_record(0xA8, Mnemonic::TAY, 1, 2, AddressingMode::NoneAddressing)),
        0xA9 => Some(op_record(0xA9, Mnemonic::LDA, 2, 2, AddressingMode::Immediate)),
        0xAA => Some(op_record(0xAA, Mnemonic::TAX, 1, 2, AddressingMode::NoneAddressing)),
        0xAC => Some(op_record(0xAC, Mnemonic::LDY, 3, 4, AddressingMode::Absolute)),
        0xAD => Some(op_record(0xAD, Mnemonic::LDA, 3, 4, AddressingMode::Absolute)),
        0xAE => Some(op_record(0xAE, Mnemonic::LDX, 3, 4, AddressingMode::Absolute)),
        0xB0 => Some(op_record(0xB0, Mnemonic::BCS, 2, 2, AddressingMode::NoneAddressing)),
        0xB1 => Some(op_record(0xB1, Mnemonic::LDA, 2, 5, AddressingMode::Indirect_Y)),
        0xB4 => Some(op_record(0xB4, Mnemonic::LDY, 2, 4, AddressingMode::ZeroPage_X)),
        0xB5 => Some(op_record(0xB5, Mnemonic::LDA, 2, 4, AddressingMode::ZeroPage_X)),
        0xB6 => Some(op_record(0xB6, Mnemonic::LDX, 2, 4, AddressingMode::ZeroPage_Y)),
        0xB8 => Some(op_record(0xB8, Mnemonic::CLV, 1, 2, AddressingMode::NoneAddressing)),
        0xB9 => Some(op_record(0xB9, Mnemonic::LDA, 3, 4, AddressingMode::Absolute_Y)),
        0xBA => Some(op_record(0xBA, Mnemonic::TSX, 1, 2, AddressingMode::NoneAddressing)),
        0xBC => Some(op_record(0xBC, Mnemonic::LDY, 3, 4, AddressingMode::Absolute_X)),
        0xBD => Some(op_record(0xBD, Mnemonic::LDA, 3, 4, AddressingMode::Absolute_X)),
        0xBE => Some(op_record(0xBE, Mnemonic::LDX, 3, 4, AddressingMode::Absolute_Y)),
        0xC0 => Some(op_record(0xC0, Mnemonic::CPY, 2, 2, AddressingMode::Immediate)),
        0xC1 => Some(op_record(0xC1, Mnemonic::CMP, 2, 6, AddressingMode::Indirect_X)),
        0xC4 => Some(op_record(0xC4, Mnemonic::CPY, 2, 3, AddressingMode::ZeroPage)),
        0xC5 => Some(op_record(0xC5, Mnemonic::CMP, 2, 3, AddressingMode::ZeroPage)),
        0xC6 => Some(op_record(0xC6, Mnemonic::DEC, 2, 5, AddressingMode::ZeroPage)),
        0xC8 => Some(op_record(0xC8, Mnemonic::INY, 1, 2, AddressingMode::NoneAddressing)),
        0xC9 => Some(op_record(0xC9, Mnemonic::CMP, 2, 2, AddressingMode::Immediate)),
        0xCA => Some(op_record(0xCA, Mnemonic::DEX, 1, 2, AddressingMode::NoneAddressing)),
        0xCC => Some(op_record(0xCC, Mnemonic::CPY, 3, 4, AddressingMode::Absolute)),
        0xCD => Some(op_record(0xCD, Mnemonic::CMP, 3, 4, AddressingMode::Absolute)),
        0xCE => Some(op_record(0xCE, Mnemonic::DEC, 3, 6, AddressingMode::Absolute)),
        0xD0 => Some(op_record(0xD0, Mnemonic::BNE, 2, 2, AddressingMode::NoneAddressing)),
        0xD1 => Some(op_record(0xD1, Mnemonic::CMP, 2, 5, AddressingMode::Indirect_Y)),
        0xD5 => Some(op_record(0xD5, Mnemonic::CMP, 2, 4, AddressingMode::ZeroPage_X)),
        0xD6 => Some(op_record(0xD6, Mnemonic::DEC, 2, 6, AddressingMode::ZeroPage_X)),
        0xD8 => Some(op_record(0xD8, Mnemonic::CLD, 1, 2, AddressingMode::NoneAddressing)),
        0xD9 => Some(op_record(0xD9, Mnemonic::CMP, 3, 4, AddressingMode::Absolute_Y)),
        0xDD => Some(op_record(0xDD, Mnemonic::CMP, 3, 4, AddressingMode::Absolute_X)),
        0xDE => Some(op_record(0xDE, Mnemonic::DEC, 3, 7, AddressingMode::Absolute_X)),
        0xE0 => Some(op_record(0xE0, Mnemonic::CPX, 2, 2, AddressingMode::Immediate)),
        0xE1 => Some(op_record(0xE1, Mnemonic::SBC, 2, 6, AddressingMode::Indirect_X)),
        0xE4 => Some(op_record(0xE4, Mnemonic::CPX, 2, 3, AddressingMode::ZeroPage)),
        0xE5 => Some(op_record(0xE5, Mnemonic::SBC, 2, 3, AddressingMode::ZeroPage)),
        0xE6 => Some(op_record(0xE6, Mnemonic::INC, 2, 5, AddressingMode::ZeroPage)),
        0xE8 => Some(op_record(0xE8, Mnemonic::INX, 1, 2, AddressingMode::NoneAddressing)),
        0xE9 => Some(op_record(0xE9, Mnemonic::SBC, 2, 2, AddressingMode::Immediate)),
        0xEA => Some(op_record(0xEA, Mnemonic::NOP, 1, 2, AddressingMode::NoneAddressing)),
        0xEC => Some(op_record(0xEC, Mnemonic::CPX, 3, 4, AddressingMode::Absolute)),
        0xED => Some(op_record(0xED, Mnemonic::SBC, 3, 4, AddressingMode::Absolute)),
        0xEE => Some(op_record(0xEE, Mnemonic::INC, 3, 6, AddressingMode::Absolute)),
        0xF0 => Some(op_record(0xF0, Mnemonic::BEQ, 2, 2, AddressingMode::NoneAddressing)),
        0xF1 => Some(op_record(0xF1, Mnemonic::SBC, 2, 5, AddressingMode::Indirect_Y)),
        0xF5 => Some(op_record(0xF5, Mnemonic::SBC, 2, 4, AddressingMode::ZeroPage_X)),
        0xF6 => Some(op_record(0xF6, Mnemonic::INC, 2, 6, AddressingMode::ZeroPage_X)),
        0xF8 => Some(op_record(0xF8, Mnemonic::SED, 1, 2, AddressingMode::NoneAddressing)),
        0xF9 => Some(op_record(0xF9, Mnemonic::SBC, 3, 4, AddressingMode::Absolute_Y)),
        0xFD => Some(op_record(0xFD, Mnemonic::SBC, 3, 4, AddressingMode::Absolute_X)),
        0xFE => Some(op_record(0xFE, Mnemonic::INC, 3, 7, AddressingMode::Absolute_X)),
        _ => None,
    }
}

/// Every row of the table is well formed and keyed by its own opcode byte.
pub proof fn lemma_decode_wf(code: u8)
    ensures
        decode(code) matches Some(op) ==> op.wf() && op.opcode == code,
{
}

/// Looks up an opcode byte in the table.
#[verifier::spinoff_prover]
#[verifier::rlimit(100)]
pub fn lookup(code: u8) -> (r: Result<OpCode, OpCodeNotFound>)
    ensures
        match r {
            Ok(op) => decode(code) == Some(op),
            Err(e) => decode(code).is_none() && e.0 == code,
        },
{
    let op = match code {
        0x00 => OpCode::new(0x00, Mnemonic::BRK, 1, 7, AddressingMode::NoneAddressing),
        0x01 => OpCode::new(0x01, Mnemonic::ORA, 2, 6, AddressingMode::Indirect_X),
        0x05 => OpCode::new(0x05, Mnemonic::ORA, 2, 3, AddressingMode::ZeroPage),
        0x06 => OpCode::new(0x06, Mnemonic::ASL, 2, 5, AddressingMode::ZeroPage),
        0x08 => OpCode::new(0x08, Mnemonic::PHP, 1, 3, AddressingMode::NoneAddressing),
        0x09 => OpCode::new(0x09, Mnemonic::ORA, 2, 2, AddressingMode::Immediate),
        0x0A => OpCode::new(0x0A, Mnemonic::ASL, 1, 2, AddressingMode::NoneAddressing),
        0x0D => OpCode::new(0x0D, Mnemonic::ORA, 3, 4, AddressingMode::Absolute),
        0x0E => OpCode::new(0x0E, Mnemonic::ASL, 3, 6, AddressingMode::Absolute),
        0x10 => OpCode::new(0x10, Mnemonic::BPL, 2, 2, AddressingMode::NoneAddressing),
        0x11 => OpCode::new(0x11, Mnemonic::ORA, 2, 5, AddressingMode::Indirect_Y),
        0x15 => OpCode::new(0x15, Mnemonic::ORA, 2, 4, AddressingMode::ZeroPage_X),
        0x16 => OpCode::new(0x16, Mnemonic::ASL, 2, 6, AddressingMode::ZeroPage_X),
        0x18 => OpCode::new(0x18, Mnemonic::CLC, 1, 2, AddressingMode::NoneAddressing),
        0x19 => OpCode::new(0x19, Mnemonic::ORA, 3, 4, AddressingMode::Absolute_Y),
        0x1D => OpCode::new(0x1D, Mnemonic::ORA, 3, 4, AddressingMode::Absolute_X),
        0x1E => OpCode::new(0x1E, Mnemonic::ASL, 3, 7, AddressingMode::Absolute_X),
        0x20 => OpCode::new(0x20, Mnemonic::JSR, 3, 6, AddressingMode::Absolute),
        0x21 => OpCode::new(0x21, Mnemonic::AND, 2, 6, AddressingMode::Indirect_X),
        0x24 => OpCode::new(0x24, Mnemonic::BIT, 2, 3, AddressingMode::ZeroPage),
        0x25 => OpCode::new(0x25, Mnemonic::AND, 2, 3, AddressingMode::ZeroPage),
        0x26 => OpCode::new(0x26, Mnemonic::ROL, 2, 5, AddressingMode::ZeroPage),
        0x28 => OpCode::new(0x28, Mnemonic::PLP, 1, 4, AddressingMode::NoneAddressing),
        0x29 => OpCode::new(0x29, Mnemonic::AND, 2, 2, AddressingMode::Immediate),
        0x2A => OpCode::new(0x2A, Mnemonic::ROL, 1, 2, AddressingMode::NoneAddressing),
        0x2C => OpCode::new(0x2C, Mnemonic::BIT, 3, 4, AddressingMode::Absolute),
        0x2D => OpCode::new(0x2D, Mnemonic::AND, 3, 4, AddressingMode::Absolute),
        0x2E => OpCode::new(0x2E, Mnemonic::ROL, 3, 6, AddressingMode::Absolute),
        0x30 => OpCode::new(0x30, Mnemonic::BMI, 2, 2, AddressingMode::NoneAddressing),
        0x31 => OpCode::new(0x31, Mnemonic::AND, 2, 5, AddressingMode::Indirect_Y),
        0x35 => OpCode::new(0x35, Mnemonic::AND, 2, 4, AddressingMode::ZeroPage_X),
        0x36 => OpCode::new(0x36, Mnemonic::ROL, 2, 6, AddressingMode::ZeroPage_X),
        0x38 => OpCode::new(0x38, Mnemonic::SEC, 1, 2, AddressingMode::NoneAddressing),
        0x39 => OpCode::new(0x39, Mnemonic::AND, 3, 4, AddressingMode::Absolute_Y),
        0x3D => OpCode::new(0x3D, Mnemonic::AND, 3, 4, AddressingMode::Absolute_X),
        0x3E => OpCode::new(0x3E, Mnemonic::ROL, 3, 7, AddressingMode::Absolute_X),
        0x40 => OpCode::new(0x40, Mnemonic::RTI, 1, 6, AddressingMode::NoneAddressing),
        0x41 => OpCode::new(0x41, Mnemonic::EOR, 2, 6, AddressingMode::Indirect_X),
        0x45 => OpCode::new(0x45, Mnemonic::EOR, 2, 3, AddressingMode::ZeroPage),
        0x46 => OpCode::new(0x46, Mnemonic::LSR, 2, 5, AddressingMode::ZeroPage),
        0x48 => OpCode::new(0x48, Mnemonic::PHA, 1, 3, AddressingMode::NoneAddressing),
        0x49 => OpCode::new(0x49, Mnemonic::EOR, 2, 2, AddressingMode::Immediate),
        0x4A => OpCode::new(0x4A, Mnemonic::LSR, 1, 2, AddressingMode::NoneAddressing),
        0x4C => OpCode::new(0x4C, Mnemonic::JMP, 3, 3, AddressingMode::Absolute),
        0x4D => OpCode::new(0x4D, Mnemonic::EOR, 3, 4, AddressingMode::Absolute),
        0x4E => OpCode::new(0x4E, Mnemonic::LSR, 3, 6, AddressingMode::Absolute),
        0x50 => OpCode::new(0x50, Mnemonic::BVC, 2, 2, AddressingMode::NoneAddressing),
        0x51 => OpCode::new(0x51, Mnemonic::EOR, 2, 5, AddressingMode::Indirect_Y),
        0x55 => OpCode::new(0x55, Mnemonic::EOR, 2, 4, AddressingMode::ZeroPage_X),
        0x56 => OpCode::new(0x56, Mnemonic::LSR, 2, 6, AddressingMode::ZeroPage_X),
        0x58 => OpCode::new(0x58, Mnemonic::CLI, 1, 2, AddressingMode::NoneAddressing),
        0x59 => OpCode::new(0x59, Mnemonic::EOR, 3, 4, AddressingMode::Absolute_Y),
        0x5D => OpCode::new(0x5D, Mnemonic::EOR, 3, 4, AddressingMode::Absolute_X),
        0x5E => OpCode::new(0x5E, Mnemonic::LSR, 3, 7, AddressingMode::Absolute_X),
        0x60 => OpCode::new(0x60, Mnemonic::RTS, 1, 6, AddressingMode::NoneAddressing),
        0x61 => OpCode::new(0x61, Mnemonic::ADC, 2, 6, AddressingMode::Indirect_X),
        0x65 => OpCode::new(0x65, Mnemonic::ADC, 2, 3, AddressingMode::ZeroPage),
        0x66 => OpCode::new(0x66, Mnemonic::ROR, 2, 5, AddressingMode::ZeroPage),
        0x68 => OpCode::new(0x68, Mnemonic::PLA, 1, 4, AddressingMode::NoneAddressing),
        0x69 => OpCode::new(0x69, Mnemonic::ADC, 2, 2, AddressingMode::Immediate),
        0x6A => OpCode::new(0x6A, Mnemonic::ROR, 1, 2, AddressingMode::NoneAddressing),
        0x6C => OpCode::new(0x6C, Mnemonic::JMP, 3, 5, AddressingMode::NoneAddressing),
        0x6D => OpCode::new(0x6D, Mnemonic::ADC, 3, 4, AddressingMode::Absolute),
        0x6E => OpCode::new(0x6E, Mnemonic::ROR, 3, 6, AddressingMode::Absolute),
        0x70 => OpCode::new(0x70, Mnemonic::BVS, 2, 2, AddressingMode::NoneAddressing),
        0x71 => OpCode::new(0x71, Mnemonic::ADC, 2, 5, AddressingMode::Indirect_Y),
        0x75 => OpCode::new(0x75, Mnemonic::ADC, 2, 4, AddressingMode::ZeroPage_X),
        0x76 => OpCode::new(0x76, Mnemonic::ROR, 2, 6, AddressingMode::ZeroPage_X),
        0x78 => OpCode::new(0x78, Mnemonic::SEI, 1, 2, AddressingMode::NoneAddressing),
        0x79 => OpCode::new(0x79, Mnemonic::ADC, 3, 4, AddressingMode::Absolute_Y),
        0x7D => OpCode::new(0x7D, Mnemonic::ADC, 3, 4, AddressingMode::Absolute_X),
        0x7E => OpCode::new(0x7E, Mnemonic::ROR, 3, 7, AddressingMode::Absolute_X),
        0x81 => OpCode::new(0x81, Mnemonic::STA, 2, 6, AddressingMode::Indirect_X),
        0x84 => OpCode::new(0x84, Mnemonic::STY, 2, 3, AddressingMode::ZeroPage),
        0x85 => OpCode::new(0x85, Mnemonic::STA, 2, 3, AddressingMode::ZeroPage),
        0x86 => OpCode::new(0x86, Mnemonic::STX, 2, 3, AddressingMode::ZeroPage),
        0x88 => OpCode::new(0x88, Mnemonic::DEY, 1, 2, AddressingMode::NoneAddressing),
        0x8A => OpCode::new(0x8A, Mnemonic::TXA, 1, 2, AddressingMode::NoneAddressing),
        0x8C => OpCode::new(0x8C, Mnemonic::STY, 3, 4, AddressingMode::Absolute),
        0x8D => OpCode::new(0x8D, Mnemonic::STA, 3, 4, AddressingMode::Absolute),
        0x8E => OpCode::new(0x8E, Mnemonic::STX, 3, 4, AddressingMode::Absolute),
        0x90 => OpCode::new(0x90, Mnemonic::BCC, 2, 2, AddressingMode::NoneAddressing),
        0x91 => OpCode::new(0x91, Mnemonic::STA, 2, 6, AddressingMode::Indirect_Y),
        0x94 => OpCode::new(0x94, Mnemonic::STY, 2, 4, AddressingMode::ZeroPage_X),
        0x95 => OpCode::new(0x95, Mnemonic::STA, 2, 4, AddressingMode::ZeroPage_X),
        0x96 => OpCode::new(0x96, Mnemonic::STX, 2, 4, AddressingMode::ZeroPage_Y),
        0x98 => OpCode::new(0x98, Mnemonic::TYA, 1, 2, AddressingMode::NoneAddressing),
        0x99 => OpCode::new(0x99, Mnemonic::STA, 3, 5, AddressingMode::Absolute_Y),
        0x9A => OpCode::new(0x9A, Mnemonic::TXS, 1, 2, AddressingMode::NoneAddressing),
        0x9D => OpCode::new(0x9D, Mnemonic::STA, 3, 5, AddressingMode::Absolute_X),
        0xA0 => OpCode::new(0xA0, Mnemonic::LDY, 2, 2, AddressingMode::Immediate),
        0xA1 => OpCode::new(0xA1, Mnemonic::LDA, 2, 6, AddressingMode::Indirect_X),
        0xA2 => OpCode::new(0xA2, Mnemonic::LDX, 2, 2, AddressingMode::Immediate),
        0xA4 => OpCode::new(0xA4, Mnemonic::LDY, 2, 3, AddressingMode::ZeroPage),
        0xA5 => OpCode::new(0xA5, Mnemonic::LDA, 2, 3, AddressingMode::ZeroPage),
        0xA6 => OpCode::new(0xA6, Mnemonic::LDX, 2, 3, AddressingMode::ZeroPage),
        0xA8 => OpCode::new(0xA8, Mnemonic::TAY, 1, 2, AddressingMode::NoneAddressing),
        0xA9 => OpCode::new(0xA9, Mnemonic::LDA, 2, 2, AddressingMode::Immediate),
        0xAA => OpCode::new(0xAA, Mnemonic::TAX, 1, 2, AddressingMode::NoneAddressing),
        0xAC => OpCode::new(0xAC, Mnemonic::LDY, 3, 4, AddressingMode::Absolute),
        0xAD => OpCode::new(0xAD, Mnemonic::LDA, 3, 4, AddressingMode::Absolute),
        0xAE => OpCode::new(0xAE, Mnemonic::LDX, 3, 4, AddressingMode::Absolute),
        0xB0 => OpCode::new(0xB0, Mnemonic::BCS, 2, 2, AddressingMode::NoneAddressing),
        0xB1 => OpCode::new(0xB1, Mnemonic::LDA, 2, 5, AddressingMode::Indirect_Y),
        0xB4 => OpCode::new(0xB4, Mnemonic::LDY, 2, 4, AddressingMode::ZeroPage_X),
        0xB5 => OpCode::new(0xB5, Mnemonic::LDA, 2, 4, AddressingMode::ZeroPage_X),
        0xB6 => OpCode::new(0xB6, Mnemonic::LDX, 2, 4, AddressingMode::ZeroPage_Y),
        0xB8 => OpCode::new(0xB8, Mnemonic::CLV, 1, 2, AddressingMode::NoneAddressing),
        0xB9 => OpCode::new(0xB9, Mnemonic::LDA, 3, 4, AddressingMode::Absolute_Y),
        0xBA => OpCode::new(0xBA, Mnemonic::TSX, 1, 2, AddressingMode::NoneAddressing),
        0xBC => OpCode::new(0xBC, Mnemonic::LDY, 3, 4, AddressingMode::Absolute_X),
        0xBD => OpCode::new(0xBD, Mnemonic::LDA, 3, 4, AddressingMode::Absolute_X),
        0xBE => OpCode::new(0xBE, Mnemonic::LDX, 3, 4, AddressingMode::Absolute_Y),
        0xC0 => OpCode::new(0xC0, Mnemonic::CPY, 2, 2, AddressingMode::Immediate),
        0xC1 => OpCode::new(0xC1, Mnemonic::CMP, 2, 6, AddressingMode::Indirect_X),
        0xC4 => OpCode::new(0xC4, Mnemonic::CPY, 2, 3, AddressingMode::ZeroPage),
        0xC5 => OpCode::new(0xC5, Mnemonic::CMP, 2, 3, AddressingMode::ZeroPage),
        0xC6 => OpCode::new(0xC6, Mnemonic::DEC, 2, 5, AddressingMode::ZeroPage),
        0xC8 => OpCode::new(0xC8, Mnemonic::INY, 1, 2, AddressingMode::NoneAddressing),
        0xC9 => OpCode::new(0xC9, Mnemonic::CMP, 2, 2, AddressingMode::Immediate),
        0xCA => OpCode::new(0xCA, Mnemonic::DEX, 1, 2, AddressingMode::NoneAddressing),
        0xCC => OpCode::new(0xCC, Mnemonic::CPY, 3, 4, AddressingMode::Absolute),
        0xCD => OpCode::new(0xCD, Mnemonic::CMP, 3, 4, AddressingMode::Absolute),
        0xCE => OpCode::new(0xCE, Mnemonic::DEC, 3, 6, AddressingMode::Absolute),
        0xD0 => OpCode::new(0xD0, Mnemonic::BNE, 2, 2, AddressingMode::NoneAddressing),
        0xD1 => OpCode::new(0xD1, Mnemonic::CMP, 2, 5, AddressingMode::Indirect_Y),
        0xD5 => OpCode::new(0xD5, Mnemonic::CMP, 2, 4, AddressingMode::ZeroPage_X),
        0xD6 => OpCode::new(0xD6, Mnemonic::DEC, 2, 6, AddressingMode::ZeroPage_X),
        0xD8 => OpCode::new(0xD8, Mnemonic::CLD, 1, 2, AddressingMode::NoneAddressing),
        0xD9 => OpCode::new(0xD9, Mnemonic::CMP, 3, 4, AddressingMode::Absolute_Y),
        0xDD => OpCode::new(0xDD, Mnemonic::CMP, 3, 4, AddressingMode::Absolute_X),
        0xDE => OpCode::new(0xDE, Mnemonic::DEC, 3, 7, AddressingMode::Absolute_X),
        0xE0 => OpCode::new(0xE0, Mnemonic::CPX, 2, 2, AddressingMode::Immediate),
        0xE1 => OpCode::new(0xE1, Mnemonic::SBC, 2, 6, AddressingMode::Indirect_X),
        0xE4 => OpCode::new(0xE4, Mnemonic::CPX, 2, 3, AddressingMode::ZeroPage),
        0xE5 => OpCode::new(0xE5, Mnemonic::SBC, 2, 3, AddressingMode::ZeroPage),
        0xE6 => OpCode::new(0xE6, Mnemonic::INC, 2, 5, AddressingMode::ZeroPage),
        0xE8 => OpCode::new(0xE8, Mnemonic::INX, 1, 2, AddressingMode::NoneAddressing),
        0xE9 => OpCode::new(0xE9, Mnemonic::SBC, 2, 2, AddressingMode::Immediate),
        0xEA => OpCode::new(0xEA, Mnemonic::NOP, 1, 2, AddressingMode::NoneAddressing),
        0xEC => OpCode::new(0xEC, Mnemonic::CPX, 3, 4, AddressingMode::Absolute),
        0xED => OpCode::new(0xED, Mnemonic::SBC, 3, 4, AddressingMode::Absolute),
        0xEE => OpCode::new(0xEE, Mnemonic::INC, 3, 6, AddressingMode::Absolute),
        0xF0 => OpCode::new(0xF0, Mnemonic::BEQ, 2, 2, AddressingMode::NoneAddressing),
        0xF1 => OpCode::new(0xF1, Mnemonic::SBC, 2, 5, AddressingMode::Indirect_Y),
        0xF5 => OpCode::new(0xF5, Mnemonic::SBC, 2, 4, AddressingMode::ZeroPage_X),
        0xF6 => OpCode::new(0xF6, Mnemonic::INC, 2, 6, AddressingMode::ZeroPage_X),
        0xF8 => OpCode::new(0xF8, Mnemonic::SED, 1, 2, AddressingMode::NoneAddressing),
        0xF9 => OpCode::new(0xF9, Mnemonic::SBC, 3, 4, AddressingMode::Absolute_Y),
        0xFD => OpCode::new(0xFD, Mnemonic::SBC, 3, 4, AddressingMode::Absolute_X),
        0xFE => OpCode::new(0xFE, Mnemonic::INC, 3, 7, AddressingMode::Absolute_X),
        _ => {
            return Err(OpCodeNotFound(code));
        },
    };
    Ok(op)
}

} // verus!
