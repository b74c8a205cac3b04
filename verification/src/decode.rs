//! The decode step: from the opcode at the program counter to a resolved
//! instruction, ready to be executed.

use crate::addressing::{Resolution, Target};
use crate::context::{AddressError, Bus, Registers};
use crate::fetcher::Fetcher;
use crate::opcodes::{addressing, addressing_mode, base_cycles, length, lookup, mnemonic};
use crate::trace::{
    after, decode_run, lemma_byte_run_extends, lemma_decode_run_parts,
    lemma_decode_run_stops_at_failure, lemma_extends_twice, lemma_operand_run_extends,
    stops_at_failure, Access, Run,
};
use vstd::prelude::*;

verus! {

/// A decoded instruction with its operand resolved.
#[derive(Clone, Copy, Debug, PartialEq, Eq)]
pub struct Instruction {
    /// The assembler mnemonic.
    pub name: &'static str,
    /// What the instruction works on.
    pub target: Target,
    /// The length of the instruction in bytes.
    pub len: u8,
    /// The cycles the instruction takes: the base count of its opcode, and
    /// one more where indexing crossed a page.
    pub cycles: u8,
}

impl Instruction {
    /// Whether this is the instruction with opcode `op` whose operand
    /// resolved to `resolved`.
    pub open spec fn describes(self, op: u8, resolved: Resolution) -> bool {
        &&& self.name@ == mnemonic(op)
        &&& self.target == resolved.target
        &&& self.len == length(op)
        &&& self.cycles == base_cycles(op) + if resolved.extra_cycle {
            1int
        } else {
            0int
        }
    }

    /// Whether `r` reports the outcome `value` of a decode step: the
    /// instruction for the opcode and the resolution where it succeeded, the
    /// same error where it failed.
    pub open spec fn reports(
        r: Result<Instruction, AddressError>,
        value: Result<(u8, Resolution), AddressError>,
    ) -> bool {
        match value {
            Ok((op, resolved)) => r matches Ok(i) && i.describes(op, resolved),
            Err(e) => r == Err::<Instruction, AddressError>(e),
        }
    }
}

/// Whether the record from position `from` on holds the reads of one
/// decode step with the registers `reg`, all of them, and `r` reports the
/// outcome of that step.
pub open spec fn decodes(
    reg: Registers,
    log: Seq<Access>,
    from: int,
    r: Result<Instruction, AddressError>,
) -> bool {
    &&& 0 <= from <= log.len()
    &&& decode_run(reg, log, from) matches Run::Reads { value, end }
    &&& end == log.len()
    &&& Instruction::reports(r, value)
}

/// Puts together the instruction with opcode `op` whose operand resolved to
/// `resolved`.
pub fn describe(op: u8, resolved: Resolution) -> (i: Instruction)
    ensures
        i.describes(op, resolved),
{
    let entry = lookup(op);
    let extra: u8 = if resolved.extra_cycle {
        1
    } else {
        0
    };
    Instruction {
        name: entry.name,
        target: resolved.target,
        len: entry.n,
        cycles: entry.cyc + extra,
    }
}

impl<'a> Fetcher<'a> {
    /// Decodes the instruction at the program counter.
    ///
    /// The opcode is read at `reg.pc`, then the operand bytes that its
    /// addressing mode asks for, then the pointer where the mode reads one:
    /// in this order, and nothing after a read that failed.
    pub fn decode(&mut self, reg: &Registers) -> (r: Result<Instruction, AddressError>)
        ensures
            old(self).log().is_prefix_of(final(self).log()),
            decodes(*reg, final(self).log(), old(self).log().len() as int, r),
    {
        let ghost log0 = self.log();
        let ghost start = log0.len() as int;
        let op = match self.get(reg.pc) {
            Ok(b) => b,
            Err(e) => {
                return Err(e);
            },
        };
        let ghost log1 = self.log();
        let fetched = self.fetch_operand(addressing_mode(op), reg);
        let ghost log2 = self.log();
        proof {
            lemma_extends_twice(log0, log1, log2);
            lemma_byte_run_extends(log1, log2, start, reg.pc);
        }
        let operand = match fetched {
            Ok(o) => o,
            Err(e) => {
                proof {
                    lemma_decode_run_parts(
                        *reg,
                        log2,
                        start,
                        op,
                        fetched,
                        log2.len() as int,
                        Err(e),
                        0,
                    );
                }
                return Err(e);
            },
        };
        let resolved = self.resolve(&operand, reg);
        proof {
            let log3 = self.log();
            lemma_extends_twice(log0, log2, log3);
            lemma_byte_run_extends(log2, log3, start, reg.pc);
            lemma_operand_run_extends(addressing(op), reg.pc, log2, log3, start + 1);
            lemma_decode_run_parts(
                *reg,
                log3,
                start,
                op,
                fetched,
                log2.len() as int,
                resolved,
                log3.len() as int,
            );
        }
        match resolved {
            Ok(v) => Ok(describe(op, v)),
            Err(e) => Err(e),
        }
    }
}

/// Decodes the instruction at the program counter.
///
/// The opcode is read at `reg.pc`, then the operand bytes that its addressing
/// mode asks for, then the pointer where the mode reads one: in this order,
/// and nothing after a read that failed. The registers are only read. The
/// outcome is the one that the reads made and what the bus returned for each
/// determine: the instruction that [`describe`] puts together for the opcode
/// and the resolution of its operand, or the error of the bus as it came.
pub fn decode(bus: &dyn Bus, reg: &Registers) -> (r: Result<Instruction, AddressError>)
    ensures
        exists|log: Seq<Access>| decodes(*reg, log, 0, r),
{
    let mut fetcher = Fetcher::new(bus);
    let r = fetcher.decode(reg);
    proof {
        assert(decodes(*reg, fetcher.log(), 0, r));
    }
    r
}

/// A decode step stops at the first read that fails and returns the error of
/// that read unchanged; it fails in no other way.
///
/// It reads the opcode at the program counter first. Where it succeeds it
/// has read every byte of the instruction, in the order of the instruction
/// stream and wrapping past `$FFFF`, and after them at most the two bytes of
/// a pointer.
pub proof fn lemma_decode_stops_at_failure(
    reg: Registers,
    log: Seq<Access>,
    from: int,
    r: Result<Instruction, AddressError>,
)
    requires
        decodes(reg, log, from, r),
    ensures
        stops_at_failure(log, from, r),
        1 <= log.len() - from <= 5,
        log[from] is Byte,
        log[from].address() == reg.pc,
        r matches Ok(i) ==> {
            &&& i.len <= log.len() - from <= i.len + 2
            &&& forall|k: int|
                0 <= k < i.len ==> (#[trigger] log[from + k]) is Byte && log[from + k].address()
                    == after(reg.pc, k)
        },
{
    lemma_decode_run_stops_at_failure(reg, log, from);
}

} // verus!
