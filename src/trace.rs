use vstd::prelude::*;
use vstd::string::StringExecFns;
use crate::bus::{addr_add, hi_byte, lo_byte};
use crate::cpu::CPU;
use crate::cpu_state::CpuState;
use crate::opcodes::{decode, lemma_decode_wf, lookup, OpCode, OpCodeNotFound};
use crate::rom::copy_range;

verus! {

/// Width of the column that holds the instruction's bytes.
pub const DUMP_WIDTH: usize = 10;

/// Where a listing places the program, as `load_test` does.
pub const TEST_START: u16 = 0x0600;

/// Spaces between the mnemonic and the registers.
pub const REGISTER_GAP: usize = 28;

/// The upper-case hexadecimal digit of `n` (below 16).
pub open spec fn hex_digit(n: int) -> char {
    if n == 0 {
        '0'
    } else if n == 1 {
        '1'
    } else if n == 2 {
        '2'
    } else if n == 3 {
        '3'
    } else if n == 4 {
        '4'
    } else if n == 5 {
        '5'
    } else if n == 6 {
        '6'
    } else if n == 7 {
        '7'
    } else if n == 8 {
        '8'
    } else if n == 9 {
        '9'
    } else if n == 10 {
        'A'
    } else if n == 11 {
        'B'
    } else if n == 12 {
        'C'
    } else if n == 13 {
        'D'
    } else if n == 14 {
        'E'
    } else {
        'F'
    }
}

/// A byte as two hexadecimal digits.
pub open spec fn hex_byte(b: u8) -> Seq<char> {
    seq![hex_digit(b as int / 16), hex_digit(b as int % 16)]
}

/// A word as four hexadecimal digits.
pub open spec fn hex_word(w: u16) -> Seq<char> {
    hex_byte(hi_byte(w)) + hex_byte(lo_byte(w))
}

pub open spec fn spaces(n: nat) -> Seq<char> {
    Seq::new(n, |i: int| ' ')
}

/// The first `n` bytes from PC in hexadecimal, one space between two.
pub open spec fn opcode_dump(s: CpuState, n: nat) -> Seq<char>
    decreases n,
{
    if n == 0 {
        Seq::empty()
    } else if n == 1 {
        hex_byte(s.read(s.pc))
    } else {
        opcode_dump(s, (n - 1) as nat) + " "@ + hex_byte(s.read(addr_add(s.pc, n - 1)))
    }
}

/// The trace line of `op` standing at PC:
/// `PPPP  OO AA BB  MNE<28 spaces>A:aa X:xx Y:yy P:pp SP:ss`, the bytes padded to ten columns.
pub open spec fn trace_line(s: CpuState, op: OpCode) -> Seq<char> {
    let dump = opcode_dump(s, op.bytes as nat);
    let pad = if dump.len() < DUMP_WIDTH {
        (DUMP_WIDTH - dump.len()) as nat
    } else {
        0
    };
    hex_word(s.pc) + "  "@ + dump + spaces(pad) + op.label@ + spaces(REGISTER_GAP as nat) + "A:"@
        + hex_byte(s.a) + " X:"@ + hex_byte(s.x) + " Y:"@ + hex_byte(s.y) + " P:"@ + hex_byte(s.p)
        + " SP:"@ + hex_byte(s.sp)
}

fn hex_digit_str(n: u8) -> (r: &'static str)
    requires
        n < 16,
    ensures
        r@ == seq![hex_digit(n as int)],
{
    proof {
        reveal_strlit("0");
        reveal_strlit("1");
        reveal_strlit("2");
        reveal_strlit("3");
        reveal_strlit("4");
        reveal_strlit("5");
        reveal_strlit("6");
        reveal_strlit("7");
        reveal_strlit("8");
        reveal_strlit("9");
        reveal_strlit("A");
        reveal_strlit("B");
        reveal_strlit("C");
        reveal_strlit("D");
        reveal_strlit("E");
        reveal_strlit("F");
    }
    let r = match n {
        0 => "0",
        1 => "1",
        2 => "2",
        3 => "3",
        4 => "4",
        5 => "5",
        6 => "6",
        7 => "7",
        8 => "8",
        9 => "9",
        10 => "A",
        11 => "B",
        12 => "C",
        13 => "D",
        14 => "E",
        _ => "F",
    };
    assert(r@ =~= seq![hex_digit(n as int)]);
    r
}

fn push_hex_byte(s: &mut String, b: u8)
    ensures
        final(s)@ == old(s)@ + hex_byte(b),
{
    s.append(hex_digit_str(b / 16));
    s.append(hex_digit_str(b % 16));
    assert(final(s)@ =~= old(s)@ + hex_byte(b));
}

fn push_spaces(s: &mut String, n: usize)
    ensures
        final(s)@ == old(s)@ + spaces(n as nat),
{
    let ghost start = s@;
    let mut i: usize = 0;
    while i < n
        invariant
            i <= n,
            s@ == start + spaces(i as nat),
        decreases n - i,
    {
        proof {
            reveal_strlit(" ");
        }
        s.append(" ");
        i += 1;
        assert(s@ =~= start + spaces(i as nat));
    }
}

impl CPU {
    /// The trace line that a host prints before running `opcode`, which stands at PC.
    pub fn debug_cpu_status(&self, opcode: &OpCode) -> (r: String)
        ensures
            r@ == trace_line(self@, *opcode),
    {
        let pc = self.program_counter;
        let mut dump = String::new();
        let mut i: u8 = 0;
        while i < opcode.bytes
            invariant
                pc == self@.pc,
                i <= opcode.bytes,
                dump@ == opcode_dump(self@, i as nat),
                dump@.len() == if i == 0 {
                    0
                } else {
                    3 * i - 1
                },
            decreases opcode.bytes - i,
        {
            let ghost before = dump@;
            let addr = pc.wrapping_add(i as u16);
            assert(addr == addr_add(pc, i as int));
            let b = self.read_mem(addr);
            if i > 0 {
                proof {
                    reveal_strlit(" ");
                }
                dump.append(" ");
                push_hex_byte(&mut dump, b);
                let ghost n: nat = (i + 1) as nat;
                assert(n >= 2 && (n - 1) as nat == i as nat);
                assert(opcode_dump(self@, n) == opcode_dump(self@, (n - 1) as nat) + " "@ + hex_byte(
                    self@.read(addr_add(self@.pc, n - 1)),
                ));
            } else {
                assert(addr == pc);
                push_hex_byte(&mut dump, b);
                assert(before =~= Seq::<char>::empty());
                assert(dump@ =~= hex_byte(b));
            }
            i += 1;
        }
        let dump_len: usize = if opcode.bytes == 0 {
            0
        } else {
            3 * opcode.bytes as usize - 1
        };
        let mut line = String::new();
        push_hex_byte(&mut line, (pc / 256) as u8);
        push_hex_byte(&mut line, (pc % 256) as u8);
        assert(line@ =~= hex_word(pc));
        line.append("  ");
        line.append(dump.as_str());
        push_spaces(
            &mut line,
            if dump_len < DUMP_WIDTH {
                DUMP_WIDTH - dump_len
            } else {
                0
            },
        );
        line.append(opcode.label);
        push_spaces(&mut line, REGISTER_GAP);
        line.append("A:");
        push_hex_byte(&mut line, self.register_accumulator);
        line.append(" X:");
        push_hex_byte(&mut line, self.index_register_x);
        line.append(" Y:");
        push_hex_byte(&mut line, self.index_register_y);
        line.append(" P:");
        push_hex_byte(&mut line, self.status.status);
        line.append(" SP:");
        push_hex_byte(&mut line, self.stack_pointer);
        line
    }
}

/// One instruction of a listing: its offset in the program, its table row
/// and its operand bytes.
pub struct Listed {
    pub offset: nat,
    pub opcode: OpCode,
    pub args: Seq<u8>,
}

/// `done` followed by what `rest` lists, or the error of `rest`.
pub open spec fn prepend(done: Seq<Listed>, rest: Result<Seq<Listed>, u8>) -> Result<Seq<Listed>, u8> {
    match rest {
        Ok(items) => Ok(done + items),
        Err(b) => Err(b),
    }
}

/// The listing of `program` from `pos` on: instruction after instruction, each
/// followed by its operand bytes (fewer where the program ends first), or the
/// first byte found at an instruction's start that is no opcode.
pub open spec fn listing(program: Seq<u8>, pos: nat) -> Result<Seq<Listed>, u8>
    decreases (if pos < program.len() {
        program.len() - pos
    } else {
        0
    }),
{
    if pos >= program.len() {
        Ok(Seq::empty())
    } else {
        match decode(program[pos as int]) {
            None => Err(program[pos as int]),
            Some(op) => {
                let next: nat = pos + if op.bytes == 0 {
                    1
                } else {
                    op.bytes as nat
                };
                let end = if next < program.len() {
                    next as int
                } else {
                    program.len() as int
                };
                let item = Listed { offset: pos, opcode: op, args: program.subrange(pos + 1int, end) };
                prepend(seq![item], listing(program, next))
            },
        }
    }
}

/// One line of a disassembly: where the instruction would stand when the
/// program is loaded at 0x0600, its table row and its operand bytes.
#[derive(Debug)]
pub struct Disassembled {
    pub address: u16,
    pub offset: usize,
    pub opcode: OpCode,
    pub args: Vec<u8>,
}

impl View for Disassembled {
    type V = Listed;

    open spec fn view(&self) -> Listed {
        Listed { offset: self.offset as nat, opcode: self.opcode, args: self.args@ }
    }
}

impl CPU {
    /// Decodes `program` as it would run from 0x0600.
    pub fn disassemble(&self, program: Vec<u8>) -> (r: Result<Vec<Disassembled>, OpCodeNotFound>)
        ensures
            match r {
                Ok(lines) => {
                    &&& listing(program@, 0) == Ok::<Seq<Listed>, u8>(
                        lines@.map_values(|d: Disassembled| d@),
                    )
                    &&& forall|i: int|
                        0 <= i < lines@.len() ==> #[trigger] lines@[i].address == addr_add(
                            0x0600,
                            lines@[i].offset as int,
                        )
                },
                Err(e) => listing(program@, 0) == Err::<Seq<Listed>, u8>(e.0),
            },
    {
        let mut lines: Vec<Disassembled> = Vec::new();
        let mut pos: usize = 0;
        while pos < program.len()
            invariant
                listing(program@, 0) == prepend(
                    lines@.map_values(|d: Disassembled| d@),
                    listing(program@, pos as nat),
                ),
                forall|i: int|
                    0 <= i < lines@.len() ==> #[trigger] lines@[i].address == addr_add(
                        0x0600,
                        lines@[i].offset as int,
                    ),
            decreases program.len() - pos,
        {
            let code = program[pos];
            let opcode = match lookup(code) {
                Ok(opcode) => opcode,
                Err(not_found) => {
                    return Err(not_found);
                },
            };
            proof {
                lemma_decode_wf(code);
            }
            let next: usize = if (opcode.bytes as usize) < program.len() - pos {
                pos + opcode.bytes as usize
            } else {
                program.len()
            };
            let args = copy_range(&program, pos + 1, next - (pos + 1));
            let address = TEST_START.wrapping_add((pos % 0x10000) as u16);
            let ghost done = lines@.map_values(|d: Disassembled| d@);
            let ghost rest = listing(program@, (pos + opcode.bytes) as nat);
            let line = Disassembled { address, offset: pos, opcode, args };
            lines.push(line);
            proof {
                assert(lines@.map_values(|d: Disassembled| d@) =~= done + seq![line@]);
                match rest {
                    Ok(items) => {
                        assert(done + (seq![line@] + items) =~= (done + seq![line@]) + items);
                    },
                    Err(_) => {},
                }
            }
            assert(listing(program@, next as nat) == rest);
            pos = next;
        }
        assert(listing(program@, pos as nat) == Ok::<Seq<Listed>, u8>(Seq::empty()));
        assert(lines@.map_values(|d: Disassembled| d@) + Seq::<Listed>::empty() =~= lines@.map_values(
            |d: Disassembled| d@,
        ));
        Ok(lines)
    }
}

} // verus!
