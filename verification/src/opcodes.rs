//! The opcode dispatch table: for each of the 256 opcode bytes, documented or
//! not, its mnemonic, addressing mode, length and base cycle count.

use crate::addressing::AddressingMode;
// The operand types of the addressing modes can be named through this module too.
pub use crate::addressing::{
    OpAbs, OpAbsX, OpAbsY, OpImmd, OpImpl, OpInd, OpIndX, OpIndY, OpRel, OpZp, OpZpX, OpZpY,
};
use vstd::prelude::*;

verus! {

/// One entry of the dispatch table.
#[derive(Clone, Copy, Debug, PartialEq, Eq)]
pub struct OpCode {
    /// The opcode byte.
    pub op: u8,
    /// The assembler mnemonic.
    pub name: &'static str,
    /// The length of the instruction in bytes, opcode included.
    pub n: u8,
    /// The cycles the instruction takes before any page-crossing penalty.
    pub cyc: u8,
}

/// The mnemonic of each opcode. Several opcodes share one mnemonic; the
/// undocumented opcodes carry the names in common use.
pub open spec fn mnemonic(op: u8) -> Seq<char> {
    match op {
        0x61 | 0x65 | 0x69 | 0x6D | 0x71 | 0x75 | 0x79 | 0x7D => "ADC"@,
        0x4B => "ALR"@,
        0x0B | 0x2B => "ANC"@,
        0x21 | 0x25 | 0x29 | 0x2D | 0x31 | 0x35 | 0x39 | 0x3D => "AND"@,
        0x6B => "ARR"@,
        0x06 | 0x0A | 0x0E | 0x16 | 0x1E => "ASL"@,
        0xCB => "AXS"@,
        0x90 => "BCC"@,
        0xB0 => "BCS"@,
        0xF0 => "BEQ"@,
        0x24 | 0x2C => "BIT"@,
        0x30 => "BMI"@,
        0xD0 => "BNE"@,
        0x10 => "BPL"@,
        0x00 => "BRK"@,
        0x50 => "BVC"@,
        0x70 => "BVS"@,
        0x18 => "CLC"@,
        0xD8 => "CLD"@,
        0x58 => "CLI"@,
        0xB8 => "CLV"@,
        0xC1 | 0xC5 | 0xC9 | 0xCD | 0xD1 | 0xD5 | 0xD9 | 0xDD => "CMP"@,
        0xE0 | 0xE4 | 0xEC => "CPX"@,
        0xC0 | 0xC4 | 0xCC => "CPY"@,
        0xC3 | 0xC7 | 0xCF | 0xD3 | 0xD7 | 0xDB | 0xDF => "DCP"@,
        0xC6 | 0xCE | 0xD6 | 0xDE => "DEC"@,
        0xCA => "DEX"@,
        0x88 => "DEY"@,
        0x41 | 0x45 | 0x49 | 0x4D | 0x51 | 0x55 | 0x59 | 0x5D => "EOR"@,
        0x04 | 0x0C | 0x14 | 0x1C | 0x34 | 0x3C | 0x44 | 0x54 | 0x5C | 0x64 | 0x74 | 0x7C | 0xD4
        | 0xDC | 0xF4 | 0xFC => "IGN"@,
        0xE6 | 0xEE | 0xF6 | 0xFE => "INC"@,
        0xE8 => "INX"@,
        0xC8 => "INY"@,
        0xE3 | 0xE7 | 0xEF | 0xF3 | 0xF7 | 0xFB | 0xFF => "ISC"@,
        0x4C | 0x6C => "JMP"@,
        0x20 => "JSR"@,
        0x02 | 0x12 | 0x22 | 0x32 | 0x42 | 0x52 | 0x62 | 0x72 | 0x92 | 0xB2 | 0xD2 | 0xF2 => "KIL"@,
        0xBB => "LAS"@,
        0xA3 | 0xA7 | 0xAF | 0xB3 | 0xB7 | 0xBF => "LAX"@,
        0xA1 | 0xA5 | 0xA9 | 0xAD | 0xB1 | 0xB5 | 0xB9 | 0xBD => "LDA"@,
        0xA2 | 0xA6 | 0xAE | 0xB6 | 0xBE => "LDX"@,
        0xA0 | 0xA4 | 0xAC | 0xB4 | 0xBC => "LDY"@,
        0x46 | 0x4A | 0x4E | 0x56 | 0x5E => "LSR"@,
        0xAB => "LXA"@,
        0x1A | 0x3A | 0x5A | 0x7A | 0xDA | 0xEA | 0xFA => "NOP"@,
        0x01 | 0x05 | 0x09 | 0x0D | 0x11 | 0x15 | 0x19 | 0x1D => "ORA"@,
        0x48 => "PHA"@,
        0x08 => "PHP"@,
        0x68 => "PLA"@,
        0x28 => "PLP"@,
        0x23 | 0x27 | 0x2F | 0x33 | 0x37 | 0x3B | 0x3F => "RLA"@,
        0x26 | 0x2A | 0x2E | 0x36 | 0x3E => "ROL"@,
        0x66 | 0x6A | 0x6E | 0x76 | 0x7E => "ROR"@,
        0x63 | 0x67 | 0x6F | 0x73 | 0x77 | 0x7B | 0x7F => "RRA"@,
        0x40 => "RTI"@,
        0x60 => "RTS"@,
        0x83 | 0x87 | 0x8F | 0x97 => "SAX"@,
        0xE1 | 0xE5 | 0xE9 | 0xEB | 0xED | 0xF1 | 0xF5 | 0xF9 | 0xFD => "SBC"@,
        0x38 => "SEC"@,
        0xF8 => "SED"@,
        0x78 => "SEI"@,
        0x93 | 0x9F => "SHA"@,
        0x9E => "SHX"@,
        0x9C => "SHY"@,
        0x80 | 0x82 | 0x89 | 0xC2 | 0xE2 => "SKB"@,
        0x03 | 0x07 | 0x0F | 0x13 | 0x17 | 0x1B | 0x1F => "SLO"@,
        0x43 | 0x47 | 0x4F | 0x53 | 0x57 | 0x5B | 0x5F => "SRE"@,
        0x81 | 0x85 | 0x8D | 0x91 | 0x95 | 0x99 | 0x9D => "STA"@,
        0x86 | 0x8E | 0x96 => "STX"@,
        0x84 | 0x8C | 0x94 => "STY"@,
        0x9B => "TAS"@,
        0xAA => "TAX"@,
        0xA8 => "TAY"@,
        0xBA => "TSX"@,
        0x8A => "TXA"@,
        0x9A => "TXS"@,
        0x98 => "TYA"@,
        _ => "XAA"@,
    }
}

/// The addressing mode of each opcode. It follows from the low five bits of
/// the opcode, with a handful of exceptions.
pub open spec fn addressing(op: u8) -> AddressingMode {
    let column = op as int % 32;
    if column == 0x00 {
        if op == 0x20 {
            AddressingMode::Absolute
        } else if op >= 0x80 {
            AddressingMode::Immediate
        } else {
            AddressingMode::Implied
        }
    } else if column == 0x02 {
        if op >= 0x80 {
            AddressingMode::Immediate
        } else {
            AddressingMode::Implied
        }
    } else if column == 0x01 || column == 0x03 {
        AddressingMode::IndexedIndirect
    } else if 0x04 <= column <= 0x07 {
        AddressingMode::ZeroPage
    } else if column == 0x09 || column == 0x0B {
        AddressingMode::Immediate
    } else if column == 0x0C {
        if op == 0x6C {
            AddressingMode::Indirect
        } else {
            AddressingMode::Absolute
        }
    } else if 0x0D <= column <= 0x0F {
        AddressingMode::Absolute
    } else if column == 0x10 {
        AddressingMode::Relative
    } else if column == 0x11 || column == 0x13 {
        AddressingMode::IndirectIndexed
    } else if column == 0x14 || column == 0x15 {
        AddressingMode::ZeroPageX
    } else if column == 0x16 || column == 0x17 {
        if op == 0x96 || op == 0x97 || op == 0xB6 || op == 0xB7 {
            AddressingMode::ZeroPageY
        } else {
            AddressingMode::ZeroPageX
        }
    } else if column == 0x19 || column == 0x1B {
        AddressingMode::AbsoluteY
    } else if column == 0x1C || column == 0x1D {
        AddressingMode::AbsoluteX
    } else if column == 0x1E || column == 0x1F {
        if op == 0x9E || op == 0x9F || op == 0xBE || op == 0xBF {
            AddressingMode::AbsoluteY
        } else {
            AddressingMode::AbsoluteX
        }
    } else {
        AddressingMode::Implied
    }
}

/// The length in bytes of the instruction that starts with `op`: the opcode
/// and the operand bytes of its addressing mode.
pub open spec fn length(op: u8) -> int {
    1 + addressing(op).operand_len()
}

/// The cycles the instruction takes before any page-crossing penalty.
pub open spec fn base_cycles(op: u8) -> int {
    match op {
        0x04 | 0x05 | 0x08 | 0x24 | 0x25 | 0x44 | 0x45 | 0x48 | 0x4C | 0x64 | 0x65 | 0x84 | 0x85
        | 0x86 | 0x87 | 0xA4 | 0xA5 | 0xA6 | 0xA7 | 0xC4 | 0xC5 | 0xE4 | 0xE5 => 3,
        0x0C | 0x0D | 0x14 | 0x15 | 0x19 | 0x1C | 0x1D | 0x28 | 0x2C | 0x2D | 0x34 | 0x35 | 0x39
        | 0x3C | 0x3D | 0x4D | 0x54 | 0x55 | 0x59 | 0x5C | 0x5D | 0x68 | 0x6D | 0x74 | 0x75
        | 0x79 | 0x7C | 0x7D | 0x8C | 0x8D | 0x8E | 0x8F | 0x94 | 0x95 | 0x96 | 0x97 | 0xAC
        | 0xAD | 0xAE | 0xAF | 0xB4 | 0xB5 | 0xB6 | 0xB7 | 0xB9 | 0xBB | 0xBC | 0xBD | 0xBE
        | 0xBF | 0xCC | 0xCD | 0xD4 | 0xD5 | 0xD9 | 0xDC | 0xDD | 0xEC | 0xED | 0xF4 | 0xF5
        | 0xF9 | 0xFC | 0xFD => 4,
        0x06 | 0x07 | 0x11 | 0x26 | 0x27 | 0x31 | 0x46 | 0x47 | 0x51 | 0x66 | 0x67 | 0x6C | 0x71
        | 0x99 | 0x9B | 0x9C | 0x9D | 0x9E | 0x9F | 0xB1 | 0xB3 | 0xC6 | 0xC7 | 0xD1 | 0xE6
        | 0xE7 | 0xF1 => 5,
        0x01 | 0x0E | 0x0F | 0x16 | 0x17 | 0x20 | 0x21 | 0x2E | 0x2F | 0x36 | 0x37 | 0x40 | 0x41
        | 0x4E | 0x4F | 0x56 | 0x57 | 0x60 | 0x61 | 0x6E | 0x6F | 0x76 | 0x77 | 0x81 | 0x83
        | 0x91 | 0x93 | 0xA1 | 0xA3 | 0xC1 | 0xCE | 0xCF | 0xD6 | 0xD7 | 0xE1 | 0xEE | 0xEF
        | 0xF6 | 0xF7 => 6,
        0x00 | 0x1B | 0x1E | 0x1F | 0x3B | 0x3E | 0x3F | 0x5B | 0x5E | 0x5F | 0x7B | 0x7E | 0x7F
        | 0xDB | 0xDE | 0xDF | 0xFB | 0xFE | 0xFF => 7,
        0x03 | 0x13 | 0x23 | 0x33 | 0x43 | 0x53 | 0x63 | 0x73 | 0xC3 | 0xD3 | 0xE3 | 0xF3 => 8,
        _ => 2,
    }
}

/// Whether `op` is one of the opcodes that halt the processor.
pub open spec fn is_halt(op: u8) -> bool {
    mnemonic(op) == "KIL"@
}

/// The table itself: one row for each opcode byte.
fn row(op: u8) -> (r: (OpCode, AddressingMode))
    ensures
        r.0.op == op,
        r.0.name@ == mnemonic(op),
        r.0.n == length(op),
        r.0.cyc == base_cycles(op),
        r.1 == addressing(op),
{
    match op {
        0x00 => (OpCode { op: 0x00, name: "BRK", n: 1, cyc: 7 }, AddressingMode::Implied),
        0x01 => (OpCode { op: 0x01, name: "ORA", n: 2, cyc: 6 }, AddressingMode::IndexedIndirect),
        0x02 => (OpCode { op: 0x02, name: "KIL", n: 1, cyc: 2 }, AddressingMode::Implied),
        0x03 => (OpCode { op: 0x03, name: "SLO", n: 2, cyc: 8 }, AddressingMode::IndexedIndirect),
        0x04 => (OpCode { op: 0x04, name: "IGN", n: 2, cyc: 3 }, AddressingMode::ZeroPage),
        0x05 => (OpCode { op: 0x05, name: "ORA", n: 2, cyc: 3 }, AddressingMode::ZeroPage),
        0x06 => (OpCode { op: 0x06, name: "ASL", n: 2, cyc: 5 }, AddressingMode::ZeroPage),
        0x07 => (OpCode { op: 0x07, name: "SLO", n: 2, cyc: 5 }, AddressingMode::ZeroPage),
        0x08 => (OpCode { op: 0x08, name: "PHP", n: 1, cyc: 3 }, AddressingMode::Implied),
        0x09 => (OpCode { op: 0x09, name: "ORA", n: 2, cyc: 2 }, AddressingMode::Immediate),
        0x0A => (OpCode { op: 0x0A, name: "ASL", n: 1, cyc: 2 }, AddressingMode::Implied),
        0x0B => (OpCode { op: 0x0B, name: "ANC", n: 2, cyc: 2 }, AddressingMode::Immediate),
        0x0C => (OpCode { op: 0x0C, name: "IGN", n: 3, cyc: 4 }, AddressingMode::Absolute),
        0x0D => (OpCode { op: 0x0D, name: "ORA", n: 3, cyc: 4 }, AddressingMode::Absolute),
        0x0E => (OpCode { op: 0x0E, name: "ASL", n: 3, cyc: 6 }, AddressingMode::Absolute),
        0x0F => (OpCode { op: 0x0F, name: "SLO", n: 3, cyc: 6 }, AddressingMode::Absolute),
        0x10 => (OpCode { op: 0x10, name: "BPL", n: 2, cyc: 2 }, AddressingMode::Relative),
        0x11 => (OpCode { op: 0x11, name: "ORA", n: 2, cyc: 5 }, AddressingMode::IndirectIndexed),
        0x12 => (OpCode { op: 0x12, name: "KIL", n: 1, cyc: 2 }, AddressingMode::Implied),
        0x13 => (OpCode { op: 0x13, name: "SLO", n: 2, cyc: 8 }, AddressingMode::IndirectIndexed),
        0x14 => (OpCode { op: 0x14, name: "IGN", n: 2, cyc: 4 }, AddressingMode::ZeroPageX),
        0x15 => (OpCode { op: 0x15, name: "ORA", n: 2, cyc: 4 }, AddressingMode::ZeroPageX),
        0x16 => (OpCode { op: 0x16, name: "ASL", n: 2, cyc: 6 }, AddressingMode::ZeroPageX),
        0x17 => (OpCode { op: 0x17, name: "SLO", n: 2, cyc: 6 }, AddressingMode::ZeroPageX),
        0x18 => (OpCode { op: 0x18, name: "CLC", n: 1, cyc: 2 }, AddressingMode::Implied),
        0x19 => (OpCode { op: 0x19, name: "ORA", n: 3, cyc: 4 }, AddressingMode::AbsoluteY),
        0x1A => (OpCode { op: 0x1A, name: "NOP", n: 1, cyc: 2 }, AddressingMode::Implied),
        0x1B => (OpCode { op: 0x1B, name: "SLO", n: 3, cyc: 7 }, AddressingMode::AbsoluteY),
        0x1C => (OpCode { op: 0x1C, name: "IGN", n: 3, cyc: 4 }, AddressingMode::AbsoluteX),
        0x1D => (OpCode { op: 0x1D, name: "ORA", n: 3, cyc: 4 }, AddressingMode::AbsoluteX),
        0x1E => (OpCode { op: 0x1E, name: "ASL", n: 3, cyc: 7 }, AddressingMode::AbsoluteX),
        0x1F => (OpCode { op: 0x1F, name: "SLO", n: 3, cyc: 7 }, AddressingMode::AbsoluteX),
        0x20 => (OpCode { op: 0x20, name: "JSR", n: 3, cyc: 6 }, AddressingMode::Absolute),
        0x21 => (OpCode { op: 0x21, name: "AND", n: 2, cyc: 6 }, AddressingMode::IndexedIndirect),
        0x22 => (OpCode { op: 0x22, name: "KIL", n: 1, cyc: 2 }, AddressingMode::Implied),
        0x23 => (OpCode { op: 0x23, name: "RLA", n: 2, cyc: 8 }, AddressingMode::IndexedIndirect),
        0x24 => (OpCode { op: 0x24, name: "BIT", n: 2, cyc: 3 }, AddressingMode::ZeroPage),
        0x25 => (OpCode { op: 0x25, name: "AND", n: 2, cyc: 3 }, AddressingMode::ZeroPage),
        0x26 => (OpCode { op: 0x26, name: "ROL", n: 2, cyc: 5 }, AddressingMode::ZeroPage),
        0x27 => (OpCode { op: 0x27, name: "RLA", n: 2, cyc: 5 }, AddressingMode::ZeroPage),
        0x28 => (OpCode { op: 0x28, name: "PLP", n: 1, cyc: 4 }, AddressingMode::Implied),
        0x29 => (OpCode { op: 0x29, name: "AND", n: 2, cyc: 2 }, AddressingMode::Immediate),
        0x2A => (OpCode { op: 0x2A, name: "ROL", n: 1, cyc: 2 }, AddressingMode::Implied),
        0x2B => (OpCode { op: 0x2B, name: "ANC", n: 2, cyc: 2 }, AddressingMode::Immediate),
        0x2C => (OpCode { op: 0x2C, name: "BIT", n: 3, cyc: 4 }, AddressingMode::Absolute),
        0x2D => (OpCode { op: 0x2D, name: "AND", n: 3, cyc: 4 }, AddressingMode::Absolute),
        0x2E => (OpCode { op: 0x2E, name: "ROL", n: 3, cyc: 6 }, AddressingMode::Absolute),
        0x2F => (OpCode { op: 0x2F, name: "RLA", n: 3, cyc: 6 }, AddressingMode::Absolute),
        0x30 => (OpCode { op: 0x30, name: "BMI", n: 2, cyc: 2 }, AddressingMode::Relative),
        0x31 => (OpCode { op: 0x31, name: "AND", n: 2, cyc: 5 }, AddressingMode::IndirectIndexed),
        0x32 => (OpCode { op: 0x32, name: "KIL", n: 1, cyc: 2 }, AddressingMode::Implied),
        0x33 => (OpCode { op: 0x33, name: "RLA", n: 2, cyc: 8 }, AddressingMode::IndirectIndexed),
        0x34 => (OpCode { op: 0x34, name: "IGN", n: 2, cyc: 4 }, AddressingMode::ZeroPageX),
        0x35 => (OpCode { op: 0x35, name: "AND", n: 2, cyc: 4 }, AddressingMode::ZeroPageX),
        0x36 => (OpCode { op: 0x36, name: "ROL", n: 2, cyc: 6 }, AddressingMode::ZeroPageX),
        0x37 => (OpCode { op: 0x37, name: "RLA", n: 2, cyc: 6 }, AddressingMode::ZeroPageX),
        0x38 => (OpCode { op: 0x38, name: "SEC", n: 1, cyc: 2 }, AddressingMode::Implied),
        0x39 => (OpCode { op: 0x39, name: "AND", n: 3, cyc: 4 }, AddressingMode::AbsoluteY),
        0x3A => (OpCode { op: 0x3A, name: "NOP", n: 1, cyc: 2 }, AddressingMode::Implied),
        0x3B => (OpCode { op: 0x3B, name: "RLA", n: 3, cyc: 7 }, AddressingMode::AbsoluteY),
        0x3C => (OpCode { op: 0x3C, name: "IGN", n: 3, cyc: 4 }, AddressingMode::AbsoluteX),
        0x3D => (OpCode { op: 0x3D, name: "AND", n: 3, cyc: 4 }, AddressingMode::AbsoluteX),
        0x3E => (OpCode { op: 0x3E, name: "ROL", n: 3, cyc: 7 }, AddressingMode::AbsoluteX),
        0x3F => (OpCode { op: 0x3F, name: "RLA", n: 3, cyc: 7 }, AddressingMode::AbsoluteX),
        0x40 => (OpCode { op: 0x40, name: "RTI", n: 1, cyc: 6 }, AddressingMode::Implied),
        0x41 => (OpCode { op: 0x41, name: "EOR", n: 2, cyc: 6 }, AddressingMode::IndexedIndirect),
        0x42 => (OpCode { op: 0x42, name: "KIL", n: 1, cyc: 2 }, AddressingMode::Implied),
        0x43 => (OpCode { op: 0x43, name: "SRE", n: 2, cyc: 8 }, AddressingMode::IndexedIndirect),
        0x44 => (OpCode { op: 0x44, name: "IGN", n: 2, cyc: 3 }, AddressingMode::ZeroPage),
        0x45 => (OpCode { op: 0x45, name: "EOR", n: 2, cyc: 3 }, AddressingMode::ZeroPage),
        0x46 => (OpCode { op: 0x46, name: "LSR", n: 2, cyc: 5 }, AddressingMode::ZeroPage),
        0x47 => (OpCode { op: 0x47, name: "SRE", n: 2, cyc: 5 }, AddressingMode::ZeroPage),
        0x48 => (OpCode { op: 0x48, name: "PHA", n: 1, cyc: 3 }, AddressingMode::Implied),
        0x49 => (OpCode { op: 0x49, name: "EOR", n: 2, cyc: 2 }, AddressingMode::Immediate),
        0x4A => (OpCode { op: 0x4A, name: "LSR", n: 1, cyc: 2 }, AddressingMode::Implied),
        0x4B => (OpCode { op: 0x4B, name: "ALR", n: 2, cyc: 2 }, AddressingMode::Immediate),
        0x4C => (OpCode { op: 0x4C, name: "JMP", n: 3, cyc: 3 }, AddressingMode::Absolute),
        0x4D => (OpCode { op: 0x4D, name: "EOR", n: 3, cyc: 4 }, AddressingMode::Absolute),
        0x4E => (OpCode { op: 0x4E, name: "LSR", n: 3, cyc: 6 }, AddressingMode::Absolute),
        0x4F => (OpCode { op: 0x4F, name: "SRE", n: 3, cyc: 6 }, AddressingMode::Absolute),
        0x50 => (OpCode { op: 0x50, name: "BVC", n: 2, cyc: 2 }, AddressingMode::Relative),
        0x51 => (OpCode { op: 0x51, name: "EOR", n: 2, cyc: 5 }, AddressingMode::IndirectIndexed),
        0x52 => (OpCode { op: 0x52, name: "KIL", n: 1, cyc: 2 }, AddressingMode::Implied),
        0x53 => (OpCode { op: 0x53, name: "SRE", n: 2, cyc: 8 }, AddressingMode::IndirectIndexed),
        0x54 => (OpCode { op: 0x54, name: "IGN", n: 2, cyc: 4 }, AddressingMode::ZeroPageX),
        0x55 => (OpCode { op: 0x55, name: "EOR", n: 2, cyc: 4 }, AddressingMode::ZeroPageX),
        0x56 => (OpCode { op: 0x56, name: "LSR", n: 2, cyc: 6 }, AddressingMode::ZeroPageX),
        0x57 => (OpCode { op: 0x57, name: "SRE", n: 2, cyc: 6 }, AddressingMode::ZeroPageX),
        0x58 => (OpCode { op: 0x58, name: "CLI", n: 1, cyc: 2 }, AddressingMode::Implied),
        0x59 => (OpCode { op: 0x59, name: "EOR", n: 3, cyc: 4 }, AddressingMode::AbsoluteY),
        0x5A => (OpCode { op: 0x5A, name: "NOP", n: 1, cyc: 2 }, AddressingMode::Implied),
        0x5B => (OpCode { op: 0x5B, name: "SRE", n: 3, cyc: 7 }, AddressingMode::AbsoluteY),
        0x5C => (OpCode { op: 0x5C, name: "IGN", n: 3, cyc: 4 }, AddressingMode::AbsoluteX),
        0x5D => (OpCode { op: 0x5D, name: "EOR", n: 3, cyc: 4 }, AddressingMode::AbsoluteX),
        0x5E => (OpCode { op: 0x5E, name: "LSR", n: 3, cyc: 7 }, AddressingMode::AbsoluteX),
        0x5F => (OpCode { op: 0x5F, name: "SRE", n: 3, cyc: 7 }, AddressingMode::AbsoluteX),
        0x60 => (OpCode { op: 0x60, name: "RTS", n: 1, cyc: 6 }, AddressingMode::Implied),
        0x61 => (OpCode { op: 0x61, name: "ADC", n: 2, cyc: 6 }, AddressingMode::IndexedIndirect),
        0x62 => (OpCode { op: 0x62, name: "KIL", n: 1, cyc: 2 }, AddressingMode::Implied),
        0x63 => (OpCode { op: 0x63, name: "RRA", n: 2, cyc: 8 }, AddressingMode::IndexedIndirect),
        0x64 => (OpCode { op: 0x64, name: "IGN", n: 2, cyc: 3 }, AddressingMode::ZeroPage),
        0x65 => (OpCode { op: 0x65, name: "ADC", n: 2, cyc: 3 }, AddressingMode::ZeroPage),
        0x66 => (OpCode { op: 0x66, name: "ROR", n: 2, cyc: 5 }, AddressingMode::ZeroPage),
        0x67 => (OpCode { op: 0x67, name: "RRA", n: 2, cyc: 5 }, AddressingMode::ZeroPage),
        0x68 => (OpCode { op: 0x68, name: "PLA", n: 1, cyc: 4 }, AddressingMode::Implied),
        0x69 => (OpCode { op: 0x69, name: "ADC", n: 2, cyc: 2 }, AddressingMode::Immediate),
        0x6A => (OpCode { op: 0x6A, name: "ROR", n: 1, cyc: 2 }, AddressingMode::Implied),
        0x6B => (OpCode { op: 0x6B, name: "ARR", n: 2, cyc: 2 }, AddressingMode::Immediate),
        0x6C => (OpCode { op: 0x6C, name: "JMP", n: 3, cyc: 5 }, AddressingMode::Indirect),
        0x6D => (OpCode { op: 0x6D, name: "ADC", n: 3, cyc: 4 }, AddressingMode::Absolute),
        0x6E => (OpCode { op: 0x6E, name: "ROR", n: 3, cyc: 6 }, AddressingMode::Absolute),
        0x6F => (OpCode { op: 0x6F, name: "RRA", n: 3, cyc: 6 }, AddressingMode::Absolute),
        0x70 => (OpCode { op: 0x70, name: "BVS", n: 2, cyc: 2 }, AddressingMode::Relative),
        0x71 => (OpCode { op: 0x71, name: "ADC", n: 2, cyc: 5 }, AddressingMode::IndirectIndexed),
        0x72 => (OpCode { op: 0x72, name: "KIL", n: 1, cyc: 2 }, AddressingMode::Implied),
        0x73 => (OpCode { op: 0x73, name: "RRA", n: 2, cyc: 8 }, AddressingMode::IndirectIndexed),
        0x74 => (OpCode { op: 0x74, name: "IGN", n: 2, cyc: 4 }, AddressingMode::ZeroPageX),
        0x75 => (OpCode { op: 0x75, name: "ADC", n: 2, cyc: 4 }, AddressingMode::ZeroPageX),
        0x76 => (OpCode { op: 0x76, name: "ROR", n: 2, cyc: 6 }, AddressingMode::ZeroPageX),
        0x77 => (OpCode { op: 0x77, name: "RRA", n: 2, cyc: 6 }, AddressingMode::ZeroPageX),
        0x78 => (OpCode { op: 0x78, name: "SEI", n: 1, cyc: 2 }, AddressingMode::Implied),
        0x79 => (OpCode { op: 0x79, name: "ADC", n: 3, cyc: 4 }, AddressingMode::AbsoluteY),
        0x7A => (OpCode { op: 0x7A, name: "NOP", n: 1, cyc: 2 }, AddressingMode::Implied),
        0x7B => (OpCode { op: 0x7B, name: "RRA", n: 3, cyc: 7 }, AddressingMode::AbsoluteY),
        0x7C => (OpCode { op: 0x7C, name: "IGN", n: 3, cyc: 4 }, AddressingMode::AbsoluteX),
        0x7D => (OpCode { op: 0x7D, name: "ADC", n: 3, cyc: 4 }, AddressingMode::AbsoluteX),
        0x7E => (OpCode { op: 0x7E, name: "ROR", n: 3, cyc: 7 }, AddressingMode::AbsoluteX),
        0x7F => (OpCode { op: 0x7F, name: "RRA", n: 3, cyc: 7 }, AddressingMode::AbsoluteX),
        0x80 => (OpCode { op: 0x80, name: "SKB", n: 2, cyc: 2 }, AddressingMode::Immediate),
        0x81 => (OpCode { op: 0x81, name: "STA", n: 2, cyc: 6 }, AddressingMode::IndexedIndirect),
        0x82 => (OpCode { op: 0x82, name: "SKB", n: 2, cyc: 2 }, AddressingMode::Immediate),
        0x83 => (OpCode { op: 0x83, name: "SAX", n: 2, cyc: 6 }, AddressingMode::IndexedIndirect),
        0x84 => (OpCode { op: 0x84, name: "STY", n: 2, cyc: 3 }, AddressingMode::ZeroPage),
        0x85 => (OpCode { op: 0x85, name: "STA", n: 2, cyc: 3 }, AddressingMode::ZeroPage),
        0x86 => (OpCode { op: 0x86, name: "STX", n: 2, cyc: 3 }, AddressingMode::ZeroPage),
        0x87 => (OpCode { op: 0x87, name: "SAX", n: 2, cyc: 3 }, AddressingMode::ZeroPage),
        0x88 => (OpCode { op: 0x88, name: "DEY", n: 1, cyc: 2 }, AddressingMode::Implied),
        0x89 => (OpCode { op: 0x89, name: "SKB", n: 2, cyc: 2 }, AddressingMode::Immediate),
        0x8A => (OpCode { op: 0x8A, name: "TXA", n: 1, cyc: 2 }, AddressingMode::Implied),
        0x8B => (OpCode { op: 0x8B, name: "XAA", n: 2, cyc: 2 }, AddressingMode::Immediate),
        0x8C => (OpCode { op: 0x8C, name: "STY", n: 3, cyc: 4 }, AddressingMode::Absolute),
        0x8D => (OpCode { op: 0x8D, name: "STA", n: 3, cyc: 4 }, AddressingMode::Absolute),
        0x8E => (OpCode { op: 0x8E, name: "STX", n: 3, cyc: 4 }, AddressingMode::Absolute),
        0x8F => (OpCode { op: 0x8F, name: "SAX", n: 3, cyc: 4 }, AddressingMode::Absolute),
        0x90 => (OpCode { op: 0x90, name: "BCC", n: 2, cyc: 2 }, AddressingMode::Relative),
        0x91 => (OpCode { op: 0x91, name: "STA", n: 2, cyc: 6 }, AddressingMode::IndirectIndexed),
        0x92 => (OpCode { op: 0x92, name: "KIL", n: 1, cyc: 2 }, AddressingMode::Implied),
        0x93 => (OpCode { op: 0x93, name: "SHA", n: 2, cyc: 6 }, AddressingMode::IndirectIndexed),
        0x94 => (OpCode { op: 0x94, name: "STY", n: 2, cyc: 4 }, AddressingMode::ZeroPageX),
        0x95 => (OpCode { op: 0x95, name: "STA", n: 2, cyc: 4 }, AddressingMode::ZeroPageX),
        0x96 => (OpCode { op: 0x96, name: "STX", n: 2, cyc: 4 }, AddressingMode::ZeroPageY),
        0x97 => (OpCode { op: 0x97, name: "SAX", n: 2, cyc: 4 }, AddressingMode::ZeroPageY),
        0x98 => (OpCode { op: 0x98, name: "TYA", n: 1, cyc: 2 }, AddressingMode::Implied),
        0x99 => (OpCode { op: 0x99, name: "STA", n: 3, cyc: 5 }, AddressingMode::AbsoluteY),
        0x9A => (OpCode { op: 0x9A, name: "TXS", n: 1, cyc: 2 }, AddressingMode::Implied),
        0x9B => (OpCode { op: 0x9B, name: "TAS", n: 3, cyc: 5 }, AddressingMode::AbsoluteY),
        0x9C => (OpCode { op: 0x9C, name: "SHY", n: 3, cyc: 5 }, AddressingMode::AbsoluteX),
        0x9D => (OpCode { op: 0x9D, name: "STA", n: 3, cyc: 5 }, AddressingMode::AbsoluteX),
        0x9E => (OpCode { op: 0x9E, name: "SHX", n: 3, cyc: 5 }, AddressingMode::AbsoluteY),
        0x9F => (OpCode { op: 0x9F, name: "SHA", n: 3, cyc: 5 }, AddressingMode::AbsoluteY),
        0xA0 => (OpCode { op: 0xA0, name: "LDY", n: 2, cyc: 2 }, AddressingMode::Immediate),
        0xA1 => (OpCode { op: 0xA1, name: "LDA", n: 2, cyc: 6 }, AddressingMode::IndexedIndirect),
        0xA2 => (OpCode { op: 0xA2, name: "LDX", n: 2, cyc: 2 }, AddressingMode::Immediate),
        0xA3 => (OpCode { op: 0xA3, name: "LAX", n: 2, cyc: 6 }, AddressingMode::IndexedIndirect),
        0xA4 => (OpCode { op: 0xA4, name: "LDY", n: 2, cyc: 3 }, AddressingMode::ZeroPage),
        0xA5 => (OpCode { op: 0xA5, name: "LDA", n: 2, cyc: 3 }, AddressingMode::ZeroPage),
        0xA6 => (OpCode { op: 0xA6, name: "LDX", n: 2, cyc: 3 }, AddressingMode::ZeroPage),
        0xA7 => (OpCode { op: 0xA7, name: "LAX", n: 2, cyc: 3 }, AddressingMode::ZeroPage),
        0xA8 => (OpCode { op: 0xA8, name: "TAY", n: 1, cyc: 2 }, AddressingMode::Implied),
        0xA9 => (OpCode { op: 0xA9, name: "LDA", n: 2, cyc: 2 }, AddressingMode::Immediate),
        0xAA => (OpCode { op: 0xAA, name: "TAX", n: 1, cyc: 2 }, AddressingMode::Implied),
        0xAB => (OpCode { op: 0xAB, name: "LXA", n: 2, cyc: 2 }, AddressingMode::Immediate),
        0xAC => (OpCode { op: 0xAC, name: "LDY", n: 3, cyc: 4 }, AddressingMode::Absolute),
        0xAD => (OpCode { op: 0xAD, name: "LDA", n: 3, cyc: 4 }, AddressingMode::Absolute),
        0xAE => (OpCode { op: 0xAE, name: "LDX", n: 3, cyc: 4 }, AddressingMode::Absolute),
        0xAF => (OpCode { op: 0xAF, name: "LAX", n: 3, cyc: 4 }, AddressingMode::Absolute),
        0xB0 => (OpCode { op: 0xB0, name: "BCS", n: 2, cyc: 2 }, AddressingMode::Relative),
        0xB1 => (OpCode { op: 0xB1, name: "LDA", n: 2, cyc: 5 }, AddressingMode::IndirectIndexed),
        0xB2 => (OpCode { op: 0xB2, name: "KIL", n: 1, cyc: 2 }, AddressingMode::Implied),
        0xB3 => (OpCode { op: 0xB3, name: "LAX", n: 2, cyc: 5 }, AddressingMode::IndirectIndexed),
        0xB4 => (OpCode { op: 0xB4, name: "LDY", n: 2, cyc: 4 }, AddressingMode::ZeroPageX),
        0xB5 => (OpCode { op: 0xB5, name: "LDA", n: 2, cyc: 4 }, AddressingMode::ZeroPageX),
        0xB6 => (OpCode { op: 0xB6, name: "LDX", n: 2, cyc: 4 }, AddressingMode::ZeroPageY),
        0xB7 => (OpCode { op: 0xB7, name: "LAX", n: 2, cyc: 4 }, AddressingMode::ZeroPageY),
        0xB8 => (OpCode { op: 0xB8, name: "CLV", n: 1, cyc: 2 }, AddressingMode::Implied),
        0xB9 => (OpCode { op: 0xB9, name: "LDA", n: 3, cyc: 4 }, AddressingMode::AbsoluteY),
        0xBA => (OpCode { op: 0xBA, name: "TSX", n: 1, cyc: 2 }, AddressingMode::Implied),
        0xBB => (OpCode { op: 0xBB, name: "LAS", n: 3, cyc: 4 }, AddressingMode::AbsoluteY),
        0xBC => (OpCode { op: 0xBC, name: "LDY", n: 3, cyc: 4 }, AddressingMode::AbsoluteX),
        0xBD => (OpCode { op: 0xBD, name: "LDA", n: 3, cyc: 4 }, AddressingMode::AbsoluteX),
        0xBE => (OpCode { op: 0xBE, name: "LDX", n: 3, cyc: 4 }, AddressingMode::AbsoluteY),
        0xBF => (OpCode { op: 0xBF, name: "LAX", n: 3, cyc: 4 }, AddressingMode::AbsoluteY),
        0xC0 => (OpCode { op: 0xC0, name: "CPY", n: 2, cyc: 2 }, AddressingMode::Immediate),
        0xC1 => (OpCode { op: 0xC1, name: "CMP", n: 2, cyc: 6 }, AddressingMode::IndexedIndirect),
        0xC2 => (OpCode { op: 0xC2, name: "SKB", n: 2, cyc: 2 }, AddressingMode::Immediate),
        0xC3 => (OpCode { op: 0xC3, name: "DCP", n: 2, cyc: 8 }, AddressingMode::IndexedIndirect),
        0xC4 => (OpCode { op: 0xC4, name: "CPY", n: 2, cyc: 3 }, AddressingMode::ZeroPage),
        0xC5 => (OpCode { op: 0xC5, name: "CMP", n: 2, cyc: 3 }, AddressingMode::ZeroPage),
        0xC6 => (OpCode { op: 0xC6, name: "DEC", n: 2, cyc: 5 }, AddressingMode::ZeroPage),
        0xC7 => (OpCode { op: 0xC7, name: "DCP", n: 2, cyc: 5 }, AddressingMode::ZeroPage),
        0xC8 => (OpCode { op: 0xC8, name: "INY", n: 1, cyc: 2 }, AddressingMode::Implied),
        0xC9 => (OpCode { op: 0xC9, name: "CMP", n: 2, cyc: 2 }, AddressingMode::Immediate),
        0xCA => (OpCode { op: 0xCA, name: "DEX", n: 1, cyc: 2 }, AddressingMode::Implied),
        0xCB => (OpCode { op: 0xCB, name: "AXS", n: 2, cyc: 2 }, AddressingMode::Immediate),
        0xCC => (OpCode { op: 0xCC, name: "CPY", n: 3, cyc: 4 }, AddressingMode::Absolute),
        0xCD => (OpCode { op: 0xCD, name: "CMP", n: 3, cyc: 4 }, AddressingMode::Absolute),
        0xCE => (OpCode { op: 0xCE, name: "DEC", n: 3, cyc: 6 }, AddressingMode::Absolute),
        0xCF => (OpCode { op: 0xCF, name: "DCP", n: 3, cyc: 6 }, AddressingMode::Absolute),
        0xD0 => (OpCode { op: 0xD0, name: "BNE", n: 2, cyc: 2 }, AddressingMode::Relative),
        0xD1 => (OpCode { op: 0xD1, name: "CMP", n: 2, cyc: 5 }, AddressingMode::IndirectIndexed),
        0xD2 => (OpCode { op: 0xD2, name: "KIL", n: 1, cyc: 2 }, AddressingMode::Implied),
        0xD3 => (OpCode { op: 0xD3, name: "DCP", n: 2, cyc: 8 }, AddressingMode::IndirectIndexed),
        0xD4 => (OpCode { op: 0xD4, name: "IGN", n: 2, cyc: 4 }, AddressingMode::ZeroPageX),
        0xD5 => (OpCode { op: 0xD5, name: "CMP", n: 2, cyc: 4 }, AddressingMode::ZeroPageX),
        0xD6 => (OpCode { op: 0xD6, name: "DEC", n: 2, cyc: 6 }, AddressingMode::ZeroPageX),
        0xD7 => (OpCode { op: 0xD7, name: "DCP", n: 2, cyc: 6 }, AddressingMode::ZeroPageX),
        0xD8 => (OpCode { op: 0xD8, name: "CLD", n: 1, cyc: 2 }, AddressingMode::Implied),
        0xD9 => (OpCode { op: 0xD9, name: "CMP", n: 3, cyc: 4 }, AddressingMode::AbsoluteY),
        0xDA => (OpCode { op: 0xDA, name: "NOP", n: 1, cyc: 2 }, AddressingMode::Implied),
        0xDB => (OpCode { op: 0xDB, name: "DCP", n: 3, cyc: 7 }, AddressingMode::AbsoluteY),
        0xDC => (OpCode { op: 0xDC, name: "IGN", n: 3, cyc: 4 }, AddressingMode::AbsoluteX),
        0xDD => (OpCode { op: 0xDD, name: "CMP", n: 3, cyc: 4 }, AddressingMode::AbsoluteX),
        0xDE => (OpCode { op: 0xDE, name: "DEC", n: 3, cyc: 7 }, AddressingMode::AbsoluteX),
        0xDF => (OpCode { op: 0xDF, name: "DCP", n: 3, cyc: 7 }, AddressingMode::AbsoluteX),
        0xE0 => (OpCode { op: 0xE0, name: "CPX", n: 2, cyc: 2 }, AddressingMode::Immediate),
        0xE1 => (OpCode { op: 0xE1, name: "SBC", n: 2, cyc: 6 }, AddressingMode::IndexedIndirect),
        0xE2 => (OpCode { op: 0xE2, name: "SKB", n: 2, cyc: 2 }, AddressingMode::Immediate),
        0xE3 => (OpCode { op: 0xE3, name: "ISC", n: 2, cyc: 8 }, AddressingMode::IndexedIndirect),
        0xE4 => (OpCode { op: 0xE4, name: "CPX", n: 2, cyc: 3 }, AddressingMode::ZeroPage),
        0xE5 => (OpCode { op: 0xE5, name: "SBC", n: 2, cyc: 3 }, AddressingMode::ZeroPage),
        0xE6 => (OpCode { op: 0xE6, name: "INC", n: 2, cyc: 5 }, AddressingMode::ZeroPage),
        0xE7 => (OpCode { op: 0xE7, name: "ISC", n: 2, cyc: 5 }, AddressingMode::ZeroPage),
        0xE8 => (OpCode { op: 0xE8, name: "INX", n: 1, cyc: 2 }, AddressingMode::Implied),
        0xE9 => (OpCode { op: 0xE9, name: "SBC", n: 2, cyc: 2 }, AddressingMode::Immediate),
        0xEA => (OpCode { op: 0xEA, name: "NOP", n: 1, cyc: 2 }, AddressingMode::Implied),
        0xEB => (OpCode { op: 0xEB, name: "SBC", n: 2, cyc: 2 }, AddressingMode::Immediate),
        0xEC => (OpCode { op: 0xEC, name: "CPX", n: 3, cyc: 4 }, AddressingMode::Absolute),
        0xED => (OpCode { op: 0xED, name: "SBC", n: 3, cyc: 4 }, AddressingMode::Absolute),
        0xEE => (OpCode { op: 0xEE, name: "INC", n: 3, cyc: 6 }, AddressingMode::Absolute),
        0xEF => (OpCode { op: 0xEF, name: "ISC", n: 3, cyc: 6 }, AddressingMode::Absolute),
        0xF0 => (OpCode { op: 0xF0, name: "BEQ", n: 2, cyc: 2 }, AddressingMode::Relative),
        0xF1 => (OpCode { op: 0xF1, name: "SBC", n: 2, cyc: 5 }, AddressingMode::IndirectIndexed),
        0xF2 => (OpCode { op: 0xF2, name: "KIL", n: 1, cyc: 2 }, AddressingMode::Implied),
        0xF3 => (OpCode { op: 0xF3, name: "ISC", n: 2, cyc: 8 }, AddressingMode::IndirectIndexed),
        0xF4 => (OpCode { op: 0xF4, name: "IGN", n: 2, cyc: 4 }, AddressingMode::ZeroPageX),
        0xF5 => (OpCode { op: 0xF5, name: "SBC", n: 2, cyc: 4 }, AddressingMode::ZeroPageX),
        0xF6 => (OpCode { op: 0xF6, name: "INC", n: 2, cyc: 6 }, AddressingMode::ZeroPageX),
        0xF7 => (OpCode { op: 0xF7, name: "ISC", n: 2, cyc: 6 }, AddressingMode::ZeroPageX),
        0xF8 => (OpCode { op: 0xF8, name: "SED", n: 1, cyc: 2 }, AddressingMode::Implied),
        0xF9 => (OpCode { op: 0xF9, name: "SBC", n: 3, cyc: 4 }, AddressingMode::AbsoluteY),
        0xFA => (OpCode { op: 0xFA, name: "NOP", n: 1, cyc: 2 }, AddressingMode::Implied),
        0xFB => (OpCode { op: 0xFB, name: "ISC", n: 3, cyc: 7 }, AddressingMode::AbsoluteY),
        0xFC => (OpCode { op: 0xFC, name: "IGN", n: 3, cyc: 4 }, AddressingMode::AbsoluteX),
        0xFD => (OpCode { op: 0xFD, name: "SBC", n: 3, cyc: 4 }, AddressingMode::AbsoluteX),
        0xFE => (OpCode { op: 0xFE, name: "INC", n: 3, cyc: 7 }, AddressingMode::AbsoluteX),
        0xFF => (OpCode { op: 0xFF, name: "ISC", n: 3, cyc: 7 }, AddressingMode::AbsoluteX),
    }
}

/// Looks up the entry for an opcode byte. Every byte has one.
pub fn lookup(op: u8) -> (e: OpCode)
    ensures
        e.op == op,
        e.name@ == mnemonic(op),
        e.n == length(op),
        e.cyc == base_cycles(op),
        1 <= e.n <= 3,
        2 <= e.cyc <= 8,
{
    proof {
        lemma_entry_bounds(op);
    }
    row(op).0
}

/// The addressing mode of an opcode byte.
pub fn addressing_mode(op: u8) -> (m: AddressingMode)
    ensures
        m == addressing(op),
{
    row(op).1
}

/// Every opcode byte has an entry whose length is 1, 2 or 3 bytes, the opcode
/// and the operand bytes of its addressing mode, and whose base cycle count
/// is at least 2 and at most 8.
pub proof fn lemma_entry_bounds(op: u8)
    ensures
        1 <= length(op) <= 3,
        length(op) == 1 + addressing(op).operand_len(),
        2 <= base_cycles(op) <= 8,
{
}

/// The halting opcodes are those with low nibble 2 in the rows below `$80`
/// and in the odd rows above.
pub proof fn lemma_halt_opcodes(op: u8)
    ensures
        is_halt(op) <==> (op as int % 16 == 2 && (op < 0x80 || (op as int / 16) % 2 == 1)),
{
    reveal_strlit("ADC");
    reveal_strlit("ALR");
    reveal_strlit("ANC");
    reveal_strlit("AND");
    reveal_strlit("ARR");
    reveal_strlit("ASL");
    reveal_strlit("AXS");
    reveal_strlit("BCC");
    reveal_strlit("BCS");
    reveal_strlit("BEQ");
    reveal_strlit("BIT");
    reveal_strlit("BMI");
    reveal_strlit("BNE");
    reveal_strlit("BPL");
    reveal_strlit("BRK");
    reveal_strlit("BVC");
    reveal_strlit("BVS");
    reveal_strlit("CLC");
    reveal_strlit("CLD");
    reveal_strlit("CLI");
    reveal_strlit("CLV");
    reveal_strlit("CMP");
    reveal_strlit("CPX");
    reveal_strlit("CPY");
    reveal_strlit("DCP");
    reveal_strlit("DEC");
    reveal_strlit("DEX");
    reveal_strlit("DEY");
    reveal_strlit("EOR");
    reveal_strlit("IGN");
    reveal_strlit("INC");
    reveal_strlit("INX");
    reveal_strlit("INY");
    reveal_strlit("ISC");
    reveal_strlit("JMP");
    reveal_strlit("JSR");
    reveal_strlit("KIL");
    reveal_strlit("LAS");
    reveal_strlit("LAX");
    reveal_strlit("LDA");
    reveal_strlit("LDX");
    reveal_strlit("LDY");
    reveal_strlit("LSR");
    reveal_strlit("LXA");
    reveal_strlit("NOP");
    reveal_strlit("ORA");
    reveal_strlit("PHA");
    reveal_strlit("PHP");
    reveal_strlit("PLA");
    reveal_strlit("PLP");
    reveal_strlit("RLA");
    reveal_strlit("ROL");
    reveal_strlit("ROR");
    reveal_strlit("RRA");
    reveal_strlit("RTI");
    reveal_strlit("RTS");
    reveal_strlit("SAX");
    reveal_strlit("SBC");
    reveal_strlit("SEC");
    reveal_strlit("SED");
    reveal_strlit("SEI");
    reveal_strlit("SHA");
    reveal_strlit("SHX");
    reveal_strlit("SHY");
    reveal_strlit("SKB");
    reveal_strlit("SLO");
    reveal_strlit("SRE");
    reveal_strlit("STA");
    reveal_strlit("STX");
    reveal_strlit("STY");
    reveal_strlit("TAS");
    reveal_strlit("TAX");
    reveal_strlit("TAY");
    reveal_strlit("TSX");
    reveal_strlit("TXA");
    reveal_strlit("TXS");
    reveal_strlit("TYA");
    reveal_strlit("XAA");
    if op as int % 16 == 2 && (op < 0x80 || (op as int / 16) % 2 == 1) {
        assert(op == 0x02 || op == 0x12 || op == 0x22 || op == 0x32 || op == 0x42 || op == 0x52
            || op == 0x62 || op == 0x72 || op == 0x92 || op == 0xB2 || op == 0xD2 || op == 0xF2);
        assert(mnemonic(op) == "KIL"@);
    } else {
        assert(mnemonic(op)[0] != 'K');
        assert("KIL"@[0] == 'K');
    }
}

/// Whether the opcode halts the processor.
pub fn halts(op: u8) -> (h: bool)
    ensures
        h == is_halt(op),
{
    proof {
        lemma_halt_opcodes(op);
    }
    op % 16 == 2 && (op < 0x80 || (op / 16) % 2 == 1)
}

} // verus!
