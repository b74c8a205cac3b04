//! The addressing resolver: fetches an instruction's operand bytes from the
//! bus and resolves them to a target.
//!
//! Every decision is taken by a function without access to the bus, so that
//! it is stated for every value a bus may return. The operations that read
//! from a bus do so through a [`Fetcher`], in the order of the instruction
//! stream, stop at the first read that fails, and hand its error on as it
//! came.

use crate::addressing::{
    add16, add8, indexed, lemma_plan_agrees, signed, word_of, Addressing, AddressingMode,
    AddressingOperand, OpAbs, OpAbsX, OpAbsY, OpImmd, OpImpl, OpInd, OpIndX, OpIndY, OpRel, OpZp,
    OpZpX, OpZpY, Plan, PointerFetch, Resolution, Target,
};
use crate::context::{AddressError, Bus, Registers};
use crate::fetcher::Fetcher;
use crate::trace::{covers, operand_run, pointer_run, resolve_run, Access};
use vstd::prelude::*;

verus! {

/// Joins two bytes into a little-endian word.
pub fn word(lo: u8, hi: u8) -> (w: u16)
    ensures
        w == word_of(lo, hi),
{
    lo as u16 + 256 * (hi as u16)
}

/// Reads a byte as a signed displacement.
pub fn displacement(byte: u8) -> (d: i8)
    ensures
        d == signed(byte),
{
    let d = byte as i8;
    assert(d == if byte < 128 { byte as i8 } else { (byte as int - 256) as i8 }) by (bit_vector)
        requires
            d == byte as i8,
    ;
    d
}

/// Adds an index to a 16-bit base and reports whether the page changed.
pub fn index_address(base: u16, index: u8) -> (r: Resolution)
    ensures
        r == indexed(base, index),
{
    let at = base.wrapping_add(index as u16);
    Resolution { target: Target::Address(at), extra_cycle: at / 256 != base / 256 }
}

/// Where to read a pointer that lies in page zero.
fn zero_page_fetch(at: u8) -> (f: PointerFetch)
    ensures
        f == AddressingOperand::zero_page_pointer(at),
{
    if at == 0xFF {
        PointerFetch::Split { lo: 0x00FF, hi: 0x0000 }
    } else {
        PointerFetch::Word(at as u16)
    }
}

impl AddressingOperand {
    /// The addressing mode of this operand.
    pub fn mode(&self) -> (m: AddressingMode)
        ensures
            m == self.mode_of(),
    {
        match self {
            AddressingOperand::Absolute(_) => AddressingMode::Absolute,
            AddressingOperand::AbsoluteX(_) => AddressingMode::AbsoluteX,
            AddressingOperand::AbsoluteY(_) => AddressingMode::AbsoluteY,
            AddressingOperand::Immediate(_) => AddressingMode::Immediate,
            AddressingOperand::Implied => AddressingMode::Implied,
            AddressingOperand::Indirect(_) => AddressingMode::Indirect,
            AddressingOperand::IndexedIndirect(_) => AddressingMode::IndexedIndirect,
            AddressingOperand::IndirectIndexed(_) => AddressingMode::IndirectIndexed,
            AddressingOperand::Relative(_) => AddressingMode::Relative,
            AddressingOperand::ZeroPage(_) => AddressingMode::ZeroPage,
            AddressingOperand::ZeroPageX(_) => AddressingMode::ZeroPageX,
            AddressingOperand::ZeroPageY(_) => AddressingMode::ZeroPageY,
        }
    }

    /// Builds the operand of mode `mode` from the bytes that follow the
    /// opcode. A mode with one operand byte ignores `hi`; the implied mode
    /// ignores both.
    pub fn assemble(mode: AddressingMode, lo: u8, hi: u8) -> (op: AddressingOperand)
        ensures
            op == Self::encoded(mode, lo, hi),
    {
        match mode {
            AddressingMode::Absolute => AddressingOperand::Absolute(word(lo, hi)),
            AddressingMode::AbsoluteX => AddressingOperand::AbsoluteX(word(lo, hi)),
            AddressingMode::AbsoluteY => AddressingOperand::AbsoluteY(word(lo, hi)),
            AddressingMode::Immediate => AddressingOperand::Immediate(lo),
            AddressingMode::Implied => AddressingOperand::Implied,
            AddressingMode::Indirect => AddressingOperand::Indirect(word(lo, hi)),
            AddressingMode::IndexedIndirect => AddressingOperand::IndexedIndirect(lo),
            AddressingMode::IndirectIndexed => AddressingOperand::IndirectIndexed(lo),
            AddressingMode::Relative => AddressingOperand::Relative(lo),
            AddressingMode::ZeroPage => AddressingOperand::ZeroPage(lo),
            AddressingMode::ZeroPageX => AddressingOperand::ZeroPageX(lo),
            AddressingMode::ZeroPageY => AddressingOperand::ZeroPageY(lo),
        }
    }

    /// Resolves the operand as far as the registers allow: completely where
    /// no memory is read, else up to the pointer that has to be read.
    pub fn plan(&self, reg: &Registers) -> (p: Plan)
        ensures
            p == self.plan_of(reg.x, reg.y),
    {
        match self {
            AddressingOperand::Absolute(at) => Plan::Ready(
                Resolution { target: Target::Address(*at), extra_cycle: false },
            ),
            AddressingOperand::AbsoluteX(base) => Plan::Ready(index_address(*base, reg.x)),
            AddressingOperand::AbsoluteY(base) => Plan::Ready(index_address(*base, reg.y)),
            AddressingOperand::Immediate(value) => Plan::Ready(
                Resolution { target: Target::Value(*value), extra_cycle: false },
            ),
            AddressingOperand::Implied => Plan::Ready(
                Resolution { target: Target::Nothing, extra_cycle: false },
            ),
            AddressingOperand::Indirect(at) => {
                if *at % 256 == 255 {
                    Plan::Deref { fetch: PointerFetch::Split { lo: *at, hi: *at - 255 }, index: 0 }
                } else {
                    Plan::Deref { fetch: PointerFetch::Word(*at), index: 0 }
                }
            },
            AddressingOperand::IndexedIndirect(lit) => Plan::Deref {
                fetch: zero_page_fetch(lit.wrapping_add(reg.x)),
                index: 0,
            },
            AddressingOperand::IndirectIndexed(lit) => Plan::Deref {
                fetch: zero_page_fetch(*lit),
                index: reg.y,
            },
            AddressingOperand::Relative(byte) => Plan::Ready(
                Resolution { target: Target::Offset(displacement(*byte)), extra_cycle: false },
            ),
            AddressingOperand::ZeroPage(lit) => Plan::Ready(
                Resolution { target: Target::Address(*lit as u16), extra_cycle: false },
            ),
            AddressingOperand::ZeroPageX(lit) => Plan::Ready(
                Resolution {
                    target: Target::Address(lit.wrapping_add(reg.x) as u16),
                    extra_cycle: false,
                },
            ),
            AddressingOperand::ZeroPageY(lit) => Plan::Ready(
                Resolution {
                    target: Target::Address(lit.wrapping_add(reg.y) as u16),
                    extra_cycle: false,
                },
            ),
        }
    }
}

/// Completes a resolution that had to read a pointer: `index` past the
/// pointer where the read succeeded, else the failure as it came.
pub fn settle(fetched: Result<u16, AddressError>, index: u8) -> (r: Result<
    Resolution,
    AddressError,
>)
    ensures
        r == match fetched {
            Ok(pointer) => Ok::<Resolution, AddressError>(indexed(pointer, index)),
            Err(e) => Err(e),
        },
{
    match fetched {
        Ok(pointer) => Ok(index_address(pointer, index)),
        Err(e) => Err(e),
    }
}

impl<'a> Fetcher<'a> {
    /// Fetches the operand bytes of the instruction at `reg.pc` and builds
    /// the operand of mode `mode` from them.
    ///
    /// The bytes are read at `pc + 1` and, for a two-byte operand, `pc + 2`,
    /// in that order and wrapping past `$FFFF`, and nothing after a read
    /// that failed.
    pub fn fetch_operand(&mut self, mode: AddressingMode, reg: &Registers) -> (r: Result<
        AddressingOperand,
        AddressError,
    >)
        ensures
            old(self).log().is_prefix_of(final(self).log()),
            covers(
                operand_run(mode, reg.pc, final(self).log(), old(self).log().len() as int),
                final(self).log(),
                old(self).log().len() as int,
                r,
            ),
    {
        let n = mode.operand_bytes();
        if n == 0 {
            Ok(AddressingOperand::assemble(mode, 0, 0))
        } else if n == 1 {
            match self.get(reg.pc.wrapping_add(1)) {
                Ok(lo) => Ok(AddressingOperand::assemble(mode, lo, 0)),
                Err(e) => Err(e),
            }
        } else {
            match self.get_pair(reg.pc.wrapping_add(1), reg.pc.wrapping_add(2)) {
                Ok((lo, hi)) => Ok(AddressingOperand::assemble(mode, lo, hi)),
                Err(e) => Err(e),
            }
        }
    }

    /// Reads a pointer: in one word read where its bytes are adjacent, else
    /// in two byte reads, the low byte first.
    pub fn read_pointer(&mut self, fetch: PointerFetch) -> (r: Result<u16, AddressError>)
        ensures
            old(self).log().is_prefix_of(final(self).log()),
            covers(
                pointer_run(fetch, final(self).log(), old(self).log().len() as int),
                final(self).log(),
                old(self).log().len() as int,
                r,
            ),
    {
        match fetch {
            PointerFetch::Word(at) => self.get_pointer(at),
            PointerFetch::Split { lo, hi } => match self.get_pair(lo, hi) {
                Ok((low, high)) => Ok(word(low, high)),
                Err(e) => Err(e),
            },
        }
    }

    /// Resolves an operand.
    ///
    /// A mode that reads no pointer makes no read and always succeeds.
    /// Otherwise the pointer is read, and the outcome is that of [`settle`]
    /// on what the read returned.
    pub fn resolve(&mut self, operand: &AddressingOperand, reg: &Registers) -> (r: Result<
        Resolution,
        AddressError,
    >)
        ensures
            old(self).log().is_prefix_of(final(self).log()),
            covers(
                resolve_run(
                    *operand,
                    reg.x,
                    reg.y,
                    final(self).log(),
                    old(self).log().len() as int,
                ),
                final(self).log(),
                old(self).log().len() as int,
                r,
            ),
    {
        match operand.plan(reg) {
            Plan::Ready(v) => Ok(v),
            Plan::Deref { fetch, index } => {
                let fetched = self.read_pointer(fetch);
                proof {
                    if let Ok(pointer) = fetched {
                        lemma_plan_agrees(*operand, reg.x, reg.y, pointer);
                    }
                }
                settle(fetched, index)
            },
        }
    }
}

impl AddressingOperand {
    /// Resolves the operand against the bus.
    ///
    /// A mode that reads no pointer never touches the bus and always
    /// succeeds. Otherwise the pointer is read, low byte first, and nothing
    /// after a read that failed. The outcome is the one that the reads made
    /// and what the bus returned for each determine: the resolution with the
    /// pointer read, or the error of the bus as it came.
    pub fn resolve(&self, bus: &dyn Bus, reg: &Registers) -> (r: Result<Resolution, AddressError>)
        ensures
            self.plan_of(reg.x, reg.y) matches Plan::Ready(v) ==> r == Ok::<
                Resolution,
                AddressError,
            >(v),
            r matches Ok(v) ==> exists|pointer: u16| v == self.effective(reg.x, reg.y, pointer),
            exists|log: Seq<Access>| covers(resolve_run(*self, reg.x, reg.y, log, 0), log, 0, r),
    {
        let mut fetcher = Fetcher::new(bus);
        let r = fetcher.resolve(self, reg);
        proof {
            let log = fetcher.log();
            assert(covers(resolve_run(*self, reg.x, reg.y, log, 0), log, 0, r));
            if let Ok(v) = r {
                if let Some(fetch) = self.pointer_fetch(reg.x) {
                    let pointer = pointer_run(fetch, log, 0)->value.unwrap();
                    assert(v == self.effective(reg.x, reg.y, pointer));
                } else {
                    assert(v == self.effective(reg.x, reg.y, 0));
                }
            }
        }
        r
    }
}

/// Fetches the operand bytes of the instruction at `reg.pc` and builds the
/// operand of mode `mode` from them.
///
/// The bytes are read at `pc + 1` and, for a two-byte operand, `pc + 2`, in
/// that order and wrapping past `$FFFF`, and nothing after a read that
/// failed. The implied mode reads nothing and always succeeds. The outcome
/// is the one that the reads made and what the bus returned for each
/// determine: the operand built from the bytes read, or the error of the bus
/// as it came.
pub fn fetch_operand(mode: AddressingMode, bus: &dyn Bus, reg: &Registers) -> (r: Result<
    AddressingOperand,
    AddressError,
>)
    ensures
        mode is Implied ==> r == Ok::<AddressingOperand, AddressError>(AddressingOperand::Implied),
        r matches Ok(op) ==> op.mode_of() == mode,
        exists|log: Seq<Access>| covers(operand_run(mode, reg.pc, log, 0), log, 0, r),
{
    let mut fetcher = Fetcher::new(bus);
    let r = fetcher.fetch_operand(mode, reg);
    proof {
        let log = fetcher.log();
        assert(covers(operand_run(mode, reg.pc, log, 0), log, 0, r));
    }
    r
}

/// Whether `r` is the outcome of resolving `op` to an address, as the reads
/// made and what the bus returned for each determine it: the address that
/// the resolution names, or the error of the bus as it came.
pub open spec fn resolves_to_address(
    op: AddressingOperand,
    reg: Registers,
    r: Result<u16, AddressError>,
) -> bool {
    exists|log: Seq<Access>, v: Result<Resolution, AddressError>|
        covers(resolve_run(op, reg.x, reg.y, log, 0), log, 0, v) && match v {
            Ok(resolved) => r matches Ok(at) && resolved.target == Target::Address(at),
            Err(e) => r == Err::<u16, AddressError>(e),
        }
}

/// Resolves an operand that names memory and takes the address out.
fn address_of(op: AddressingOperand, bus: &dyn Bus, reg: &Registers) -> (r: Result<
    u16,
    AddressError,
>)
    requires
        op.mode_of().names_memory(),
    ensures
        op.plan_of(reg.x, reg.y) matches Plan::Ready(v) ==> (r matches Ok(at) && v.target
            == Target::Address(at)),
        resolves_to_address(op, *reg, r),
{
    let resolved = op.resolve(bus, reg);
    proof {
        let log = choose|log: Seq<Access>|
            covers(resolve_run(op, reg.x, reg.y, log, 0), log, 0, resolved);
        if let Ok(v) = resolved {
            let pointer = choose|pointer: u16| v == op.effective(reg.x, reg.y, pointer);
            assert(v.target is Address);
        }
        assert(covers(resolve_run(op, reg.x, reg.y, log, 0), log, 0, resolved));
    }
    match resolved {
        Ok(v) => match v.target {
            Target::Address(at) => Ok(at),
            _ => vstd::pervasive::unreached(),
        },
        Err(e) => Err(e),
    }
}

impl OpAbs {
    /// This operand as a value of the operand type.
    pub fn operand(&self) -> (op: AddressingOperand)
        ensures
            op == self.operand_of(),
    {
        AddressingOperand::Absolute(self.addr)
    }
}

impl Addressing for OpAbs {
    fn addr(&self, bus: &dyn Bus, reg: &Registers) -> (r: Result<u16, AddressError>)
        ensures
            r == Ok::<u16, AddressError>(self.addr),
            resolves_to_address(self.operand_of(), *reg, r),
    {
        address_of(self.operand(), bus, reg)
    }
}

impl OpAbsX {
    /// This operand as a value of the operand type.
    pub fn operand(&self) -> (op: AddressingOperand)
        ensures
            op == self.operand_of(),
    {
        AddressingOperand::AbsoluteX(self.addr)
    }
}

impl Addressing for OpAbsX {
    fn addr(&self, bus: &dyn Bus, reg: &Registers) -> (r: Result<u16, AddressError>)
        ensures
            r == Ok::<u16, AddressError>(add16(self.addr, reg.x)),
            resolves_to_address(self.operand_of(), *reg, r),
    {
        address_of(self.operand(), bus, reg)
    }
}

impl OpAbsY {
    /// This operand as a value of the operand type.
    pub fn operand(&self) -> (op: AddressingOperand)
        ensures
            op == self.operand_of(),
    {
        AddressingOperand::AbsoluteY(self.addr)
    }
}

impl Addressing for OpAbsY {
    fn addr(&self, bus: &dyn Bus, reg: &Registers) -> (r: Result<u16, AddressError>)
        ensures
            r == Ok::<u16, AddressError>(add16(self.addr, reg.y)),
            resolves_to_address(self.operand_of(), *reg, r),
    {
        address_of(self.operand(), bus, reg)
    }
}

impl OpImmd {
    /// This operand as a value of the operand type.
    pub fn operand(&self) -> (op: AddressingOperand)
        ensures
            op == self.operand_of(),
    {
        AddressingOperand::Immediate(self.val)
    }
}

impl OpImpl {
    /// This operand as a value of the operand type.
    pub fn operand(&self) -> (op: AddressingOperand)
        ensures
            op == self.operand_of(),
    {
        AddressingOperand::Implied
    }
}

impl OpInd {
    /// This operand as a value of the operand type.
    pub fn operand(&self) -> (op: AddressingOperand)
        ensures
            op == self.operand_of(),
    {
        AddressingOperand::Indirect(self.ind)
    }
}

impl Addressing for OpInd {
    fn addr(&self, bus: &dyn Bus, reg: &Registers) -> (r: Result<u16, AddressError>)
        ensures
            resolves_to_address(self.operand_of(), *reg, r),
    {
        address_of(self.operand(), bus, reg)
    }
}

impl OpIndX {
    /// This operand as a value of the operand type.
    pub fn operand(&self) -> (op: AddressingOperand)
        ensures
            op == self.operand_of(),
    {
        AddressingOperand::IndexedIndirect(self.ind)
    }
}

impl Addressing for OpIndX {
    fn addr(&self, bus: &dyn Bus, reg: &Registers) -> (r: Result<u16, AddressError>)
        ensures
            resolves_to_address(self.operand_of(), *reg, r),
    {
        address_of(self.operand(), bus, reg)
    }
}

impl OpIndY {
    /// This operand as a value of the operand type.
    pub fn operand(&self) -> (op: AddressingOperand)
        ensures
            op == self.operand_of(),
    {
        AddressingOperand::IndirectIndexed(self.ind)
    }
}

impl Addressing for OpIndY {
    fn addr(&self, bus: &dyn Bus, reg: &Registers) -> (r: Result<u16, AddressError>)
        ensures
            resolves_to_address(self.operand_of(), *reg, r),
    {
        address_of(self.operand(), bus, reg)
    }
}

impl OpRel {
    /// This operand as a value of the operand type.
    pub fn operand(&self) -> (op: AddressingOperand)
        ensures
            op == self.operand_of(),
    {
        AddressingOperand::Relative(self.rel)
    }
}

impl OpZp {
    /// This operand as a value of the operand type.
    pub fn operand(&self) -> (op: AddressingOperand)
        ensures
            op == self.operand_of(),
    {
        AddressingOperand::ZeroPage(self.addr)
    }
}

impl Addressing for OpZp {
    fn addr(&self, bus: &dyn Bus, reg: &Registers) -> (r: Result<u16, AddressError>)
        ensures
            r == Ok::<u16, AddressError>(self.addr as u16),
            resolves_to_address(self.operand_of(), *reg, r),
    {
        address_of(self.operand(), bus, reg)
    }
}

impl OpZpX {
    /// This operand as a value of the operand type.
    pub fn operand(&self) -> (op: AddressingOperand)
        ensures
            op == self.operand_of(),
    {
        AddressingOperand::ZeroPageX(self.addr)
    }
}

impl Addressing for OpZpX {
    fn addr(&self, bus: &dyn Bus, reg: &Registers) -> (r: Result<u16, AddressError>)
        ensures
            r == Ok::<u16, AddressError>(add8(self.addr, reg.x) as u16),
            resolves_to_address(self.operand_of(), *reg, r),
    {
        address_of(self.operand(), bus, reg)
    }
}

impl OpZpY {
    /// This operand as a value of the operand type.
    pub fn operand(&self) -> (op: AddressingOperand)
        ensures
            op == self.operand_of(),
    {
        AddressingOperand::ZeroPageY(self.addr)
    }
}

impl Addressing for OpZpY {
    fn addr(&self, bus: &dyn Bus, reg: &Registers) -> (r: Result<u16, AddressError>)
        ensures
            r == Ok::<u16, AddressError>(add8(self.addr, reg.y) as u16),
            resolves_to_address(self.operand_of(), *reg, r),
    {
        address_of(self.operand(), bus, reg)
    }
}

} // verus!
