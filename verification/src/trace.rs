//! What an operation reads from the bus, stated over a record of its reads.
//!
//! A bus may answer two reads of one address differently, so the outcome of
//! an operation cannot be stated over the bus. It is stated over the record
//! instead: the reads the operation makes, in their order, each with what
//! the bus returned. A record fixes the outcome, and the outcome is stated
//! for every record, that is, for whatever the bus may return.

use crate::addressing::{
    lemma_pointer_stays_in_page, page, word_of, AddressingMode, AddressingOperand, PointerFetch,
    Resolution,
};
use crate::context::{AddressError, Registers};
use crate::opcodes::{addressing, length};
use vstd::prelude::*;

verus! {

/// One read of the bus, with what it returned.
pub enum Access {
    /// A byte read at `at`.
    Byte { at: u16, got: Result<u8, AddressError> },
    /// A word read at `at`.
    Word { at: u16, word: Result<u16, AddressError> },
}

impl Access {
    /// The error of the read, if it failed.
    pub open spec fn failure(self) -> Option<AddressError> {
        match self {
            Access::Byte { at, got: Err(e) } => Some(e),
            Access::Word { at, word: Err(e) } => Some(e),
            _ => None,
        }
    }

    /// The address that was read.
    pub open spec fn address(self) -> u16 {
        match self {
            Access::Byte { at, got } => at,
            Access::Word { at, word } => at,
        }
    }
}

/// A record read from some position as the reads of an operation.
pub enum Run<T> {
    /// The record does not hold the reads of the operation there.
    Mismatch,
    /// It holds them, up to position `end`, and with what the bus returned
    /// the operation yields `value`.
    Reads { value: Result<T, AddressError>, end: int },
}

/// An operation followed by another that works on its value. The second
/// starts where the first ended. Where the first fails nothing more is read,
/// and its error is the outcome.
pub open spec fn then<T, U>(first: Run<T>, second: spec_fn(T, int) -> Run<U>) -> Run<U> {
    match first {
        Run::Mismatch => Run::Mismatch,
        Run::Reads { value: Err(e), end } => Run::Reads { value: Err(e), end },
        Run::Reads { value: Ok(v), end } => second(v, end),
    }
}

/// An operation that reads nothing and yields `v`.
pub open spec fn done<T>(v: T, at: int) -> Run<T> {
    Run::Reads { value: Ok(v), end: at }
}

/// One byte read at `at`.
pub open spec fn byte_run(log: Seq<Access>, i: int, at: u16) -> Run<u8> {
    if 0 <= i < log.len() && log[i] is Byte && log[i]->Byte_at == at {
        Run::Reads { value: log[i]->got, end: i + 1 }
    } else {
        Run::Mismatch
    }
}

/// One word read at `at`.
pub open spec fn word_run(log: Seq<Access>, i: int, at: u16) -> Run<u16> {
    if 0 <= i < log.len() && log[i] is Word && log[i]->Word_at == at {
        Run::Reads { value: log[i]->word, end: i + 1 }
    } else {
        Run::Mismatch
    }
}

/// Two byte reads, at `first` and then at `second`.
pub open spec fn pair_run(log: Seq<Access>, i: int, first: u16, second: u16) -> Run<(u8, u8)> {
    then(
        byte_run(log, i, first),
        |lo: u8, j: int| then(byte_run(log, j, second), |hi: u8, k: int| done((lo, hi), k)),
    )
}

/// The address `k` bytes after `pc`, wrapping from `$FFFF` to `$0000`.
pub open spec fn after(pc: u16, k: int) -> u16 {
    ((pc as int + k) % 0x1_0000) as u16
}

/// Fetching the operand bytes of the instruction at `pc`: as many byte reads
/// as the mode has operand bytes, at `pc + 1` and then `pc + 2`, and the
/// operand built from them.
pub open spec fn operand_run(mode: AddressingMode, pc: u16, log: Seq<Access>, i: int) -> Run<
    AddressingOperand,
> {
    if mode.operand_len() == 0 {
        done(AddressingOperand::encoded(mode, 0, 0), i)
    } else if mode.operand_len() == 1 {
        then(
            byte_run(log, i, after(pc, 1)),
            |lo: u8, j: int| done(AddressingOperand::encoded(mode, lo, 0), j),
        )
    } else {
        then(
            pair_run(log, i, after(pc, 1), after(pc, 2)),
            |b: (u8, u8), j: int| done(AddressingOperand::encoded(mode, b.0, b.1), j),
        )
    }
}

/// Reading a pointer: one word read, or two byte reads with the low byte first.
pub open spec fn pointer_run(fetch: PointerFetch, log: Seq<Access>, i: int) -> Run<u16> {
    match fetch {
        PointerFetch::Word(at) => word_run(log, i, at),
        PointerFetch::Split { lo, hi } => then(
            pair_run(log, i, lo, hi),
            |b: (u8, u8), j: int| done(word_of(b.0, b.1), j),
        ),
    }
}

/// Resolving an operand: no read where the mode reads no pointer, else the
/// pointer read, and what the operand resolves to with that pointer.
pub open spec fn resolve_run(op: AddressingOperand, x: u8, y: u8, log: Seq<Access>, i: int) -> Run<
    Resolution,
> {
    match op.pointer_fetch(x) {
        None => done(op.effective(x, y, 0), i),
        Some(fetch) => then(
            pointer_run(fetch, log, i),
            |pointer: u16, j: int| done(op.effective(x, y, pointer), j),
        ),
    }
}

/// Decoding the instruction at the program counter: the opcode read, then
/// the operand fetch for the addressing mode of that opcode, then the
/// resolution of that operand. It yields the opcode and the resolution.
pub open spec fn decode_run(reg: Registers, log: Seq<Access>, i: int) -> Run<(u8, Resolution)> {
    then(
        byte_run(log, i, reg.pc),
        |op: u8, j: int|
            then(
                operand_run(addressing(op), reg.pc, log, j),
                |operand: AddressingOperand, k: int|
                    then(
                        resolve_run(operand, reg.x, reg.y, log, k),
                        |v: Resolution, l: int| done((op, v), l),
                    ),
            ),
    )
}

/// Whether `run` is a complete reading of the record from position `from`:
/// the operation made every read from there on, and returned `r`.
pub open spec fn covers<T>(
    run: Run<T>,
    log: Seq<Access>,
    from: int,
    r: Result<T, AddressError>,
) -> bool {
    0 <= from <= log.len() && run == (Run::Reads { value: r, end: log.len() as int })
}

/// A record that extends an extension of `log` extends `log`.
pub proof fn lemma_extends_twice(log: Seq<Access>, longer: Seq<Access>, longest: Seq<Access>)
    requires
        log.is_prefix_of(longer),
        longer.is_prefix_of(longest),
    ensures
        log.is_prefix_of(longest),
{
    assert forall|i: int| 0 <= i < log.len() implies log[i] == longest[i] by {
        assert(log[i] == longer[i]);
    }
}

/// A byte read is the same read on any record that extends the one it was
/// read from.
pub proof fn lemma_byte_run_extends(log: Seq<Access>, longer: Seq<Access>, i: int, at: u16)
    requires
        log.is_prefix_of(longer),
        byte_run(log, i, at) is Reads,
    ensures
        byte_run(longer, i, at) == byte_run(log, i, at),
{
    assert(log[i] == longer[i]);
}

/// An operand fetch is the same fetch on any record that extends the one it
/// was read from.
pub proof fn lemma_operand_run_extends(
    mode: AddressingMode,
    pc: u16,
    log: Seq<Access>,
    longer: Seq<Access>,
    i: int,
)
    requires
        log.is_prefix_of(longer),
        operand_run(mode, pc, log, i) is Reads,
    ensures
        operand_run(mode, pc, longer, i) == operand_run(mode, pc, log, i),
{
    if mode.operand_len() != 0 {
        lemma_byte_run_extends(log, longer, i, after(pc, 1));
        if mode.operand_len() != 1 && byte_run(log, i, after(pc, 1))->value is Ok {
            lemma_byte_run_extends(log, longer, i + 1, after(pc, 2));
        }
    }
}

/// A decode step is made of its three parts: where the opcode read yields
/// `op`, the operand fetch yields `operand` and its resolution yields
/// `resolved`, the step yields the opcode and the resolution, or the error
/// of the part that failed.
pub proof fn lemma_decode_run_parts(
    reg: Registers,
    log: Seq<Access>,
    i: int,
    op: u8,
    operand: Result<AddressingOperand, AddressError>,
    k: int,
    resolved: Result<Resolution, AddressError>,
    l: int,
)
    requires
        byte_run(log, i, reg.pc) == (Run::Reads { value: Ok::<u8, AddressError>(op), end: i + 1 }),
        operand_run(addressing(op), reg.pc, log, i + 1) == (Run::Reads { value: operand, end: k }),
        operand matches Ok(o) ==> resolve_run(o, reg.x, reg.y, log, k) == (Run::Reads {
            value: resolved,
            end: l,
        }),
    ensures
        decode_run(reg, log, i) == match operand {
            Err(e) => Run::Reads { value: Err::<(u8, Resolution), AddressError>(e), end: k },
            Ok(_) => Run::Reads {
                value: match resolved {
                    Ok(v) => Ok::<(u8, Resolution), AddressError>((op, v)),
                    Err(e) => Err(e),
                },
                end: l,
            },
        },
{
}

/// Whether the reads from position `from` on stop at the first failure and
/// `r` carries it: no read but the last failed, and `r` is an error exactly
/// where the last read failed, the error of that read.
pub open spec fn stops_at_failure<T>(
    log: Seq<Access>,
    from: int,
    r: Result<T, AddressError>,
) -> bool {
    &&& forall|i: int| from <= i < log.len() - 1 ==> (#[trigger] log[i]).failure() is None
    &&& match r {
        Err(e) => from < log.len() && log.last().failure() == Some(e),
        Ok(_) => from < log.len() ==> log.last().failure() is None,
    }
}

/// An operand fetch stops at the first read that fails and returns the
/// error of that read unchanged; it fails in no other way.
pub proof fn lemma_operand_fetch_stops_at_failure(
    mode: AddressingMode,
    pc: u16,
    log: Seq<Access>,
    from: int,
    r: Result<AddressingOperand, AddressError>,
)
    requires
        covers(operand_run(mode, pc, log, from), log, from, r),
    ensures
        stops_at_failure(log, from, r),
        log.len() - from <= mode.operand_len(),
        r is Ok ==> log.len() - from == mode.operand_len(),
        forall|k: int|
            0 <= k < log.len() - from ==> (#[trigger] log[from + k]) is Byte && log[from
                + k].address() == after(pc, k + 1),
{
}

/// A resolution stops at the first read that fails and returns the error of
/// that read unchanged; it fails in no other way. It makes at most two
/// reads, and none where the operand reads no pointer.
pub proof fn lemma_resolution_stops_at_failure(
    op: AddressingOperand,
    x: u8,
    y: u8,
    log: Seq<Access>,
    from: int,
    r: Result<Resolution, AddressError>,
)
    requires
        covers(resolve_run(op, x, y, log, from), log, from, r),
    ensures
        stops_at_failure(log, from, r),
        log.len() - from <= 2,
        !op.mode_of().dereferences() ==> log.len() == from && r is Ok,
        op.mode_of().dereferences() ==> log.len() > from && log[from].address()
            == op.pointer_fetch(x).unwrap().low_at(),
        forall|i: int|
            from <= i < log.len() ==> page((#[trigger] log[i]).address()) == page(
                log[from].address(),
            ),
{
    lemma_pointer_stays_in_page(op, x);
}

/// A decode step stops at the first read that fails and yields the error
/// of that read unchanged; it fails in no other way.
///
/// Its reads come in the order of the instruction stream: the opcode at the
/// program counter, then the operand bytes at the addresses that follow,
/// then the reads of the pointer, if any. There are at most five.
pub proof fn lemma_decode_run_stops_at_failure(reg: Registers, log: Seq<Access>, from: int)
    requires
        0 <= from,
        decode_run(reg, log, from) matches Run::Reads { value, end } && end == log.len(),
    ensures
        stops_at_failure(log, from, decode_run(reg, log, from)->value),
        1 <= log.len() - from <= 5,
        log[from] is Byte,
        log[from].address() == reg.pc,
        decode_run(reg, log, from)->value matches Ok(v) ==> {
            &&& log[from]->got == Ok::<u8, AddressError>(v.0)
            &&& length(v.0) <= log.len() - from <= length(v.0) + 2
            &&& forall|k: int|
                0 <= k < length(v.0) ==> (#[trigger] log[from + k]) is Byte && log[from
                    + k].address() == after(reg.pc, k)
        },
{
    if let Ok(op) = log[from]->got {
        let mode = addressing(op);
        let fetch = operand_run(mode, reg.pc, log, from + 1);
        assert(fetch is Reads);
        let k = fetch->end;
        assert(from + 1 <= k <= from + 1 + mode.operand_len());
        assert(k <= log.len());
        if let Ok(operand) = fetch->value {
            let rest = resolve_run(operand, reg.x, reg.y, log, k);
            assert(rest is Reads);
            assert(rest->end == log.len());
            assert(log.len() - k <= 2);
        }
    }
}

} // verus!
