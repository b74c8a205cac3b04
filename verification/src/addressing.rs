//! Addressing modes: how an instruction's operand bytes name the value or the
//! memory location it works on, with the wraparound rules of the hardware.

use crate::context::{AddressError, Bus, Registers};
use vstd::prelude::*;

verus! {

/// The twelve ways an instruction can name what it works on.
#[derive(Clone, Copy, Debug, PartialEq, Eq, Structural)]
pub enum AddressingMode {
    /// `$HHLL`
    Absolute,
    /// `$HHLL,X`
    AbsoluteX,
    /// `$HHLL,Y`
    AbsoluteY,
    /// `#$NN`
    Immediate,
    /// No operand (this includes the accumulator forms).
    Implied,
    /// `($HHLL)`
    Indirect,
    /// `($LL,X)`
    IndexedIndirect,
    /// `($LL),Y`
    IndirectIndexed,
    /// `$NN`, a branch displacement
    Relative,
    /// `$LL`
    ZeroPage,
    /// `$LL,X`
    ZeroPageX,
    /// `$LL,Y`
    ZeroPageY,
}

/// An addressing mode together with the operand bytes as they were encoded
/// in the instruction stream.
#[derive(Clone, Copy, Debug, PartialEq, Eq, Structural)]
pub enum AddressingOperand {
    Absolute(u16),
    AbsoluteX(u16),
    AbsoluteY(u16),
    Immediate(u8),
    Implied,
    Indirect(u16),
    IndexedIndirect(u8),
    IndirectIndexed(u8),
    Relative(u8),
    ZeroPage(u8),
    ZeroPageX(u8),
    ZeroPageY(u8),
}

/// What a resolved operand denotes.
#[derive(Clone, Copy, Debug, PartialEq, Eq, Structural)]
pub enum Target {
    /// Nothing: the instruction names no operand.
    Nothing,
    /// A literal byte.
    Value(u8),
    /// A signed displacement for a branch.
    Offset(i8),
    /// An effective address.
    Address(u16),
}

/// The outcome of resolving an operand.
#[derive(Clone, Copy, Debug, PartialEq, Eq, Structural)]
pub struct Resolution {
    /// What the operand denotes.
    pub target: Target,
    /// Whether indexing crossed a page boundary, which costs one more cycle.
    pub extra_cycle: bool,
}

/// Where the two bytes of a pointer are read from.
#[derive(Clone, Copy, Debug, PartialEq, Eq, Structural)]
pub enum PointerFetch {
    /// The bytes are adjacent: one word read at this address.
    Word(u16),
    /// The high byte does not follow the low byte in memory: two byte reads,
    /// the low byte first.
    Split { lo: u16, hi: u16 },
}

impl PointerFetch {
    /// The address of the pointer's low byte.
    pub open spec fn low_at(self) -> u16 {
        match self {
            PointerFetch::Word(at) => at,
            PointerFetch::Split { lo, hi } => lo,
        }
    }

    /// The address of the pointer's high byte.
    pub open spec fn high_at(self) -> int {
        match self {
            PointerFetch::Word(at) => at as int + 1,
            PointerFetch::Split { lo, hi } => hi as int,
        }
    }
}

/// What remains to be done for an operand once the registers are known.
#[derive(Clone, Copy, Debug, PartialEq, Eq, Structural)]
pub enum Plan {
    /// Nothing: the operand is resolved without touching memory.
    Ready(Resolution),
    /// A pointer has to be read, and `index` added to it.
    Deref { fetch: PointerFetch, index: u8 },
}

/// The little-endian word with low byte `lo` and high byte `hi`.
pub open spec fn word_of(lo: u8, hi: u8) -> u16 {
    (lo as int + 256 * hi as int) as u16
}

/// `base + index`, wrapping from `$FFFF` to `$0000`.
pub open spec fn add16(base: u16, index: u8) -> u16 {
    ((base as int + index as int) % 0x1_0000) as u16
}

/// `base + index`, wrapping from `$FF` to `$00`.
pub open spec fn add8(base: u8, index: u8) -> u8 {
    ((base as int + index as int) % 0x100) as u8
}

/// The page of an address: its high byte.
pub open spec fn page(addr: u16) -> int {
    addr as int / 256
}

/// Whether `base` and `base + index` lie in different pages.
pub open spec fn crosses_page(base: u16, index: u8) -> bool {
    page(base) != page(add16(base, index))
}

/// A byte read as a two's-complement number.
pub open spec fn signed(byte: u8) -> i8 {
    if byte < 128 {
        byte as i8
    } else {
        (byte as int - 256) as i8
    }
}

/// The address `index` bytes past `pointer`, and whether it lies in another page.
pub open spec fn indexed(pointer: u16, index: u8) -> Resolution {
    Resolution {
        target: Target::Address(add16(pointer, index)),
        extra_cycle: crosses_page(pointer, index),
    }
}

/// A resolution that costs no extra cycle.
pub open spec fn plain(target: Target) -> Resolution {
    Resolution { target, extra_cycle: false }
}

impl AddressingMode {
    /// How many operand bytes follow the opcode.
    pub open spec fn operand_len(self) -> int {
        match self {
            AddressingMode::Implied => 0,
            AddressingMode::Absolute
            | AddressingMode::AbsoluteX
            | AddressingMode::AbsoluteY
            | AddressingMode::Indirect => 2,
            _ => 1,
        }
    }

    /// Whether an operand of this mode resolves to a memory address.
    pub open spec fn names_memory(self) -> bool {
        !(self is Immediate || self is Implied || self is Relative)
    }

    /// Whether resolving an operand of this mode reads a pointer from memory.
    pub open spec fn dereferences(self) -> bool {
        self is Indirect || self is IndexedIndirect || self is IndirectIndexed
    }

    /// The number of operand bytes: 0, 1 or 2.
    pub fn operand_bytes(&self) -> (n: u8)
        ensures
            n == self.operand_len(),
    {
        match self {
            AddressingMode::Implied => 0,
            AddressingMode::Absolute => 2,
            AddressingMode::AbsoluteX => 2,
            AddressingMode::AbsoluteY => 2,
            AddressingMode::Indirect => 2,
            AddressingMode::Immediate => 1,
            AddressingMode::IndexedIndirect => 1,
            AddressingMode::IndirectIndexed => 1,
            AddressingMode::Relative => 1,
            AddressingMode::ZeroPage => 1,
            AddressingMode::ZeroPageX => 1,
            AddressingMode::ZeroPageY => 1,
        }
    }
}

impl AddressingOperand {
    /// The mode of this operand.
    pub open spec fn mode_of(self) -> AddressingMode {
        match self {
            AddressingOperand::Absolute(_) => AddressingMode::Absolute,
            AddressingOperand::AbsoluteX(_) => AddressingMode::AbsoluteX,
            AddressingOperand::AbsoluteY(_) => AddressingMode::AbsoluteY,
            AddressingOperand::Immediate(_) => AddressingMode::Immediate,
            AddressingOperand::Implied => AddressingMode::Implied,
            AddressingOperand::Indirect(_) => AddressingMode::Indirect,
            AddressingOperand::IndexedIndirect(_) => AddressingMode::IndexedIndirect,
            AddressingOperand::IndirectIndexed(_) => AddressingMode::IndirectIndexed,
            AddressingOperand::Relative(_) => AddressingMode::Relative,
            AddressingOperand::ZeroPage(_) => AddressingMode::ZeroPage,
            AddressingOperand::ZeroPageX(_) => AddressingMode::ZeroPageX,
            AddressingOperand::ZeroPageY(_) => AddressingMode::ZeroPageY,
        }
    }

    /// The operand of mode `mode` encoded by the bytes `lo` and `hi`, in the
    /// order in which they follow the opcode. A mode takes as many of them as
    /// it has operand bytes.
    pub open spec fn encoded(mode: AddressingMode, lo: u8, hi: u8) -> AddressingOperand {
        match mode {
            AddressingMode::Absolute => AddressingOperand::Absolute(word_of(lo, hi)),
            AddressingMode::AbsoluteX => AddressingOperand::AbsoluteX(word_of(lo, hi)),
            AddressingMode::AbsoluteY => AddressingOperand::AbsoluteY(word_of(lo, hi)),
            AddressingMode::Immediate => AddressingOperand::Immediate(lo),
            AddressingMode::Implied => AddressingOperand::Implied,
            AddressingMode::Indirect => AddressingOperand::Indirect(word_of(lo, hi)),
            AddressingMode::IndexedIndirect => AddressingOperand::IndexedIndirect(lo),
            AddressingMode::IndirectIndexed => AddressingOperand::IndirectIndexed(lo),
            AddressingMode::Relative => AddressingOperand::Relative(lo),
            AddressingMode::ZeroPage => AddressingOperand::ZeroPage(lo),
            AddressingMode::ZeroPageX => AddressingOperand::ZeroPageX(lo),
            AddressingMode::ZeroPageY => AddressingOperand::ZeroPageY(lo),
        }
    }

    /// Where a pointer in page zero is read from: both bytes come from page
    /// zero, so a pointer at `$FF` has its high byte at `$00`.
    pub open spec fn zero_page_pointer(at: u8) -> PointerFetch {
        if at == 0xFF {
            PointerFetch::Split { lo: 0x00FF, hi: 0x0000 }
        } else {
            PointerFetch::Word(at as u16)
        }
    }

    /// The pointer that resolving this operand reads, if it reads one.
    ///
    /// An indirect operand whose low byte is `$FF` takes the pointer's high
    /// byte from the start of the same page, not from the next page.
    pub open spec fn pointer_fetch(self, x: u8) -> Option<PointerFetch> {
        match self {
            AddressingOperand::Indirect(at) => Some(
                if at as int % 256 == 255 {
                    PointerFetch::Split { lo: at, hi: (at as int - 255) as u16 }
                } else {
                    PointerFetch::Word(at)
                },
            ),
            AddressingOperand::IndexedIndirect(lit) => Some(Self::zero_page_pointer(add8(lit, x))),
            AddressingOperand::IndirectIndexed(lit) => Some(Self::zero_page_pointer(lit)),
            _ => None,
        }
    }

    /// What this operand resolves to with index registers `x` and `y`, where
    /// `pointer` is the word that was read for a mode that reads one.
    pub open spec fn effective(self, x: u8, y: u8, pointer: u16) -> Resolution {
        match self {
            AddressingOperand::Absolute(at) => plain(Target::Address(at)),
            AddressingOperand::AbsoluteX(base) => indexed(base, x),
            AddressingOperand::AbsoluteY(base) => indexed(base, y),
            AddressingOperand::Immediate(value) => plain(Target::Value(value)),
            AddressingOperand::Implied => plain(Target::Nothing),
            AddressingOperand::Indirect(_) => plain(Target::Address(pointer)),
            AddressingOperand::IndexedIndirect(_) => plain(Target::Address(pointer)),
            AddressingOperand::IndirectIndexed(_) => indexed(pointer, y),
            AddressingOperand::Relative(byte) => plain(Target::Offset(signed(byte))),
            AddressingOperand::ZeroPage(lit) => plain(Target::Address(lit as u16)),
            AddressingOperand::ZeroPageX(lit) => plain(Target::Address(add8(lit, x) as u16)),
            AddressingOperand::ZeroPageY(lit) => plain(Target::Address(add8(lit, y) as u16)),
        }
    }

    /// What is added to the pointer once it has been read.
    pub open spec fn post_index(self, y: u8) -> u8 {
        if self is IndirectIndexed {
            y
        } else {
            0
        }
    }

    /// The plan for this operand: its resolution where no pointer is read,
    /// else the pointer to read and the index to add to it.
    pub open spec fn plan_of(self, x: u8, y: u8) -> Plan {
        match self.pointer_fetch(x) {
            None => Plan::Ready(self.effective(x, y, 0)),
            Some(fetch) => Plan::Deref { fetch, index: self.post_index(y) },
        }
    }
}

/// An operand that names a memory location.
pub trait Addressing {
    /// The effective address of the operand.
    fn addr(&self, bus: &dyn Bus, reg: &Registers) -> Result<u16, AddressError>;
}

/// Absolute addressing, `$HHLL`.
#[derive(Clone, Copy, Debug, PartialEq, Eq, Structural)]
pub struct OpAbs {
    pub addr: u16,
}

impl OpAbs {
    /// The operand this value stands for.
    pub open spec fn operand_of(&self) -> AddressingOperand {
        AddressingOperand::Absolute(self.addr)
    }
}

/// Absolute addressing offset by X, `$HHLL,X`.
#[derive(Clone, Copy, Debug, PartialEq, Eq, Structural)]
pub struct OpAbsX {
    pub addr: u16,
}

impl OpAbsX {
    /// The operand this value stands for.
    pub open spec fn operand_of(&self) -> AddressingOperand {
        AddressingOperand::AbsoluteX(self.addr)
    }
}

/// Absolute addressing offset by Y, `$HHLL,Y`.
#[derive(Clone, Copy, Debug, PartialEq, Eq, Structural)]
pub struct OpAbsY {
    pub addr: u16,
}

impl OpAbsY {
    /// The operand this value stands for.
    pub open spec fn operand_of(&self) -> AddressingOperand {
        AddressingOperand::AbsoluteY(self.addr)
    }
}

/// An immediate value, `#$NN`.
#[derive(Clone, Copy, Debug, PartialEq, Eq, Structural)]
pub struct OpImmd {
    pub val: u8,
}

impl OpImmd {
    /// The operand this value stands for.
    pub open spec fn operand_of(&self) -> AddressingOperand {
        AddressingOperand::Immediate(self.val)
    }
}

/// No operand.
#[derive(Clone, Copy, Debug, PartialEq, Eq, Structural)]
pub struct OpImpl;

impl OpImpl {
    /// The operand this value stands for.
    pub open spec fn operand_of(&self) -> AddressingOperand {
        AddressingOperand::Implied
    }
}

/// Indirect addressing, `($HHLL)`.
#[derive(Clone, Copy, Debug, PartialEq, Eq, Structural)]
pub struct OpInd {
    pub ind: u16,
}

impl OpInd {
    /// The operand this value stands for.
    pub open spec fn operand_of(&self) -> AddressingOperand {
        AddressingOperand::Indirect(self.ind)
    }
}

/// Indexed indirect addressing, `($LL,X)`.
#[derive(Clone, Copy, Debug, PartialEq, Eq, Structural)]
pub struct OpIndX {
    pub ind: u8,
}

impl OpIndX {
    /// The operand this value stands for.
    pub open spec fn operand_of(&self) -> AddressingOperand {
        AddressingOperand::IndexedIndirect(self.ind)
    }
}

/// Indirect indexed addressing, `($LL),Y`.
#[derive(Clone, Copy, Debug, PartialEq, Eq, Structural)]
pub struct OpIndY {
    pub ind: u8,
}

impl OpIndY {
    /// The operand this value stands for.
    pub open spec fn operand_of(&self) -> AddressingOperand {
        AddressingOperand::IndirectIndexed(self.ind)
    }
}

/// Relative addressing, `$NN`.
#[derive(Clone, Copy, Debug, PartialEq, Eq, Structural)]
pub struct OpRel {
    pub rel: u8,
}

impl OpRel {
    /// The operand this value stands for.
    pub open spec fn operand_of(&self) -> AddressingOperand {
        AddressingOperand::Relative(self.rel)
    }
}

/// Zero-page addressing, `$LL`.
#[derive(Clone, Copy, Debug, PartialEq, Eq, Structural)]
pub struct OpZp {
    pub addr: u8,
}

impl OpZp {
    /// The operand this value stands for.
    pub open spec fn operand_of(&self) -> AddressingOperand {
        AddressingOperand::ZeroPage(self.addr)
    }
}

/// Zero-page addressing offset by X, `$LL,X`.
#[derive(Clone, Copy, Debug, PartialEq, Eq, Structural)]
pub struct OpZpX {
    pub addr: u8,
}

impl OpZpX {
    /// The operand this value stands for.
    pub open spec fn operand_of(&self) -> AddressingOperand {
        AddressingOperand::ZeroPageX(self.addr)
    }
}

/// Zero-page addressing offset by Y, `$LL,Y`.
#[derive(Clone, Copy, Debug, PartialEq, Eq, Structural)]
pub struct OpZpY {
    pub addr: u8,
}

impl OpZpY {
    /// The operand this value stands for.
    pub open spec fn operand_of(&self) -> AddressingOperand {
        AddressingOperand::ZeroPageY(self.addr)
    }
}

/// The plan and the resolution agree: an operand that is ready resolves to
/// the same thing whatever `pointer` is, and one that reads a pointer
/// resolves to the address `index` past it.
pub proof fn lemma_plan_agrees(op: AddressingOperand, x: u8, y: u8, pointer: u16)
    ensures
        op.plan_of(x, y) matches Plan::Ready(v) ==> op.effective(x, y, pointer) == v,
        op.plan_of(x, y) matches Plan::Deref { fetch, index } ==> op.effective(x, y, pointer)
            == indexed(pointer, index),
        op.plan_of(x, y) is Deref <==> op.mode_of().dereferences(),
{
}

/// Zero-page indexing never leaves page zero, whatever the index register holds.
pub proof fn lemma_zero_page_stays_in_page_zero(lit: u8, x: u8, y: u8, pointer: u16)
    ensures
        AddressingOperand::ZeroPage(lit).effective(x, y, pointer) == plain(
            Target::Address(lit as u16),
        ),
        AddressingOperand::ZeroPageX(lit).effective(x, y, pointer).target matches Target::Address(
            at,
        ) && page(at) == 0 && at as int == (lit as int + x as int) % 256,
        AddressingOperand::ZeroPageY(lit).effective(x, y, pointer).target matches Target::Address(
            at,
        ) && page(at) == 0 && at as int == (lit as int + y as int) % 256,
        !AddressingOperand::ZeroPageX(lit).effective(x, y, pointer).extra_cycle,
        !AddressingOperand::ZeroPageY(lit).effective(x, y, pointer).extra_cycle,
{
}

/// Indexing crosses a page exactly when adding the index to the low byte of
/// the base carries.
pub proof fn lemma_page_crossing_is_carry(base: u16, index: u8)
    ensures
        crosses_page(base, index) <==> base as int % 256 + index as int >= 256,
        indexed(base, index).extra_cycle == crosses_page(base, index),
        index == 0 ==> indexed(base, index) == plain(Target::Address(base)),
{
}

/// A pointer is never read across a page boundary: its two bytes come from
/// one page. For an indirect operand that is the page of the operand, with
/// the high byte taken from the start of the page where the low byte is the
/// last of it. For the two zero-page forms it is page zero, with the pointer
/// at the operand byte, offset by `x` for the indexed-indirect form.
pub proof fn lemma_pointer_stays_in_page(op: AddressingOperand, x: u8)
    ensures
        op.pointer_fetch(x) is Some <==> op.mode_of().dereferences(),
        op.pointer_fetch(x) matches Some(fetch) ==> page(fetch.low_at()) * 256 <= fetch.high_at()
            < page(fetch.low_at()) * 256 + 256,
        op.pointer_fetch(x) matches Some(PointerFetch::Word(at)) ==> at as int % 256 != 255,
        op.pointer_fetch(x) matches Some(PointerFetch::Split { lo, hi }) ==> lo as int % 256 == 255
            && hi as int == page(lo) * 256,
        op matches AddressingOperand::Indirect(at) ==> op.pointer_fetch(x).unwrap().low_at() == at,
        op matches AddressingOperand::IndexedIndirect(lit) ==> op.pointer_fetch(x).unwrap().low_at()
            as int == (lit as int + x as int) % 256,
        op matches AddressingOperand::IndirectIndexed(lit) ==> op.pointer_fetch(x).unwrap().low_at()
            == lit as u16,
{
}

/// An operand built for a mode has that mode, and takes from the two bytes
/// no more than the mode has operand bytes.
pub proof fn lemma_encoded_mode(mode: AddressingMode, lo: u8, hi: u8, other_lo: u8, other_hi: u8)
    ensures
        AddressingOperand::encoded(mode, lo, hi).mode_of() == mode,
        mode.operand_len() <= 1 ==> AddressingOperand::encoded(mode, lo, hi)
            == AddressingOperand::encoded(mode, lo, other_hi),
        mode.operand_len() == 0 ==> AddressingOperand::encoded(mode, lo, hi)
            == AddressingOperand::encoded(mode, other_lo, other_hi),
        0 <= mode.operand_len() <= 2,
{
}

} // verus!
