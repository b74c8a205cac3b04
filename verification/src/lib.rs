//! Decode layer of a 6502 processor emulator.
//!
//! - [`context`]: the status flags, the registers, the bus errors and the
//!   contract of the memory bus.
//! - [`addressing`]: the addressing modes and what an operand of each mode
//!   resolves to, with the wraparound rules of the hardware.
//! - [`opcodes`]: the dispatch table over all 256 opcode bytes.
//! - [`trace`]: what an operation reads from the bus, and what it returns
//!   for each thing the bus may answer.
//! - [`fetcher`]: reading from a bus while keeping the record of the reads.
//! - [`resolver`]: fetching and resolving operands.
//! - [`decode`]: the decode step, from the program counter to an instruction
//!   with its operand resolved.

pub mod addressing;
pub mod context;
pub mod decode;
pub mod fetcher;
pub mod opcodes;
pub mod resolver;
pub mod trace;
