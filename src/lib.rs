//! Execution core of a 6502-family processor as found in the NES: the status
//! register, the opcode table, the memory bus with its mirrored regions, the
//! iNES cartridge loader and the fetch-decode-execute interpreter, with the
//! trace line and disassembly used for debugging.
//!
//! `cpu_state` states what every instruction does as functions on a model of
//! the registers and the bus; `cpu` runs the same on the machine and proves
//! each operation equal to its model.
pub mod status_flags;
pub mod opcodes;
pub mod rom;
pub mod bus;
pub mod cpu_state;
pub mod cpu;
pub mod trace;
