//! Processor context: status flags, registers, and the memory bus contract.

use vstd::prelude::*;
use vstd::std_specs::convert::FromSpecImpl;
use vstd::std_specs::ops::{BitAndSpecImpl, BitOrSpecImpl};
use vstd::string::*;

verus! {

/// Why an access to the address space failed.
#[derive(Clone, Copy, Debug, PartialEq, Eq, Structural)]
pub enum AddressError {
    /// The address is mapped but cannot be accessed.
    Unavailable(u16),
    /// A write was attempted to a read-only address.
    ReadOnly(u16),
    /// A read was attempted from a write-only address.
    WriteOnly(u16),
    /// The device at the address requested a halt.
    Halt(u16),
    /// No mapping is defined for the address.
    OutOfBounds,
}

/// The upper-case hexadecimal digit for `n`, where `0 <= n < 16`.
pub open spec fn hex_digit(n: int) -> char {
    "0123456789ABCDEF"@[n]
}

/// A 16-bit value as four upper-case hexadecimal digits, most significant first.
pub open spec fn hex4(v: u16) -> Seq<char> {
    seq![
        hex_digit(v as int / 4096),
        hex_digit(v as int / 256 % 16),
        hex_digit(v as int / 16 % 16),
        hex_digit(v as int % 16),
    ]
}

/// The one-character string for a hexadecimal digit.
fn hex_str(n: u8) -> (s: &'static str)
    requires
        n < 16,
    ensures
        s@ == seq![hex_digit(n as int)],
{
    proof {
        reveal_strlit("0123456789ABCDEF");
        reveal_strlit("0");
        reveal_strlit("1");
        reveal_strlit("2");
        reveal_strlit("3");
        reveal_strlit("4");
        reveal_strlit("5");
        reveal_strlit("6");
        reveal_strlit("7");
        reveal_strlit("8");
        reveal_strlit("9");
        reveal_strlit("A");
        reveal_strlit("B");
        reveal_strlit("C");
        reveal_strlit("D");
        reveal_strlit("E");
        reveal_strlit("F");
    }
    let s = match n {
        0 => "0",
        1 => "1",
        2 => "2",
        3 => "3",
        4 => "4",
        5 => "5",
        6 => "6",
        7 => "7",
        8 => "8",
        9 => "9",
        10 => "A",
        11 => "B",
        12 => "C",
        13 => "D",
        14 => "E",
        _ => "F",
    };
    assert(s@ =~= seq![hex_digit(n as int)]);
    s
}

/// Appends the four hexadecimal digits of `v` to `out`.
fn push_hex4(out: &mut String, v: u16)
    ensures
        final(out)@ == old(out)@ + hex4(v),
{
    let d3: u8 = (v / 4096) as u8;
    let d2: u8 = (v / 256 % 16) as u8;
    let d1: u8 = (v / 16 % 16) as u8;
    let d0: u8 = (v % 16) as u8;
    out.append(hex_str(d3));
    out.append(hex_str(d2));
    out.append(hex_str(d1));
    out.append(hex_str(d0));
    assert(out@ =~= old(out)@ + hex4(v));
}

impl AddressError {
    /// The address the error carries, if it carries one.
    pub open spec fn address(self) -> Option<u16> {
        match self {
            AddressError::Unavailable(a) => Some(a),
            AddressError::ReadOnly(a) => Some(a),
            AddressError::WriteOnly(a) => Some(a),
            AddressError::Halt(a) => Some(a),
            AddressError::OutOfBounds => None,
        }
    }

    /// The fixed part of the message, before any address.
    pub open spec fn label(self) -> Seq<char> {
        match self {
            AddressError::Unavailable(_) => "<AddressError> Address unavailable: $"@,
            AddressError::ReadOnly(_) => "<AddressError> Address read-only: $"@,
            AddressError::WriteOnly(_) => "<AddressError> Address write-only: $"@,
            AddressError::Halt(_) => "<AddressError> Address halt: $"@,
            AddressError::OutOfBounds => "<AddressError> Address out of bounds"@,
        }
    }

    /// The message for this error: its label, followed by the offending
    /// address in four hexadecimal digits where there is one.
    pub open spec fn text(self) -> Seq<char> {
        match self.address() {
            Some(a) => self.label() + hex4(a),
            None => self.label(),
        }
    }

    /// Renders the error as a human-readable message.
    pub fn to_string(&self) -> (s: String)
        ensures
            s@ == self.text(),
    {
        match self {
            AddressError::Unavailable(a) => {
                let mut s = String::from_str("<AddressError> Address unavailable: $");
                push_hex4(&mut s, *a);
                s
            },
            AddressError::ReadOnly(a) => {
                let mut s = String::from_str("<AddressError> Address read-only: $");
                push_hex4(&mut s, *a);
                s
            },
            AddressError::WriteOnly(a) => {
                let mut s = String::from_str("<AddressError> Address write-only: $");
                push_hex4(&mut s, *a);
                s
            },
            AddressError::Halt(a) => {
                let mut s = String::from_str("<AddressError> Address halt: $");
                push_hex4(&mut s, *a);
                s
            },
            AddressError::OutOfBounds => String::from_str("<AddressError> Address out of bounds"),
        }
    }
}

/// Place value of the carry flag.
pub const C: u8 = 0b0000_0001;

/// Place value of the zero flag.
pub const Z: u8 = 0b0000_0010;

/// Place value of the interrupt-disable flag.
pub const I: u8 = 0b0000_0100;

/// Place value of the decimal flag.
pub const D: u8 = 0b0000_1000;

/// Place value of the break flag.
pub const B: u8 = 0b0001_0000;

/// Place value of the unused flag.
pub const U: u8 = 0b0010_0000;

/// Place value of the overflow flag.
pub const O: u8 = 0b0100_0000;

/// Place value of the negative flag.
pub const N: u8 = 0b1000_0000;

/// Masking a byte with a power of two tests the binary digit of that place value.
proof fn lemma_mask_tests_digit(f: u8)
    by (bit_vector)
    ensures
        (f & 1 != 0) == ((f / 1) % 2 == 1),
        (f & 2 != 0) == ((f / 2) % 2 == 1),
        (f & 4 != 0) == ((f / 4) % 2 == 1),
        (f & 8 != 0) == ((f / 8) % 2 == 1),
        (f & 16 != 0) == ((f / 16) % 2 == 1),
        (f & 32 != 0) == ((f / 32) % 2 == 1),
        (f & 64 != 0) == ((f / 64) % 2 == 1),
        (f & 128 != 0) == ((f / 128) % 2 == 1),
{
}

/// The processor status register, one flag per bit.
#[derive(Clone, Copy, Debug, PartialEq, Eq, Structural)]
pub struct Flags {
    pub flags: u8,
}

impl Flags {
    /// Whether the binary digit of place value `weight` is 1, for `weight`
    /// one of 1, 2, 4, ..., 128.
    pub open spec fn has(self, weight: int) -> bool {
        (self.flags as int / weight) % 2 == 1
    }

    /// The flag of place value `weight`, shown as `1` or `0`.
    pub open spec fn shown(self, weight: int) -> Seq<char> {
        if self.has(weight) {
            "1"@
        } else {
            "0"@
        }
    }

    /// The eight flags, each with its letter, from carry up to negative.
    pub open spec fn text(self) -> Seq<char> {
        "C:"@ + self.shown(1) + ", Z:"@ + self.shown(2) + ", I:"@ + self.shown(4) + ", D:"@
            + self.shown(8) + ", B:"@ + self.shown(16) + ", U:"@ + self.shown(32) + ", V:"@
            + self.shown(64) + ", N:"@ + self.shown(128)
    }

    /// Carry flag.
    pub fn c(&self) -> (r: bool)
        ensures
            r == self.has(1),
    {
        proof {
            lemma_mask_tests_digit(self.flags);
        }
        self.flags & C != 0
    }

    /// Zero flag.
    pub fn z(&self) -> (r: bool)
        ensures
            r == self.has(2),
    {
        proof {
            lemma_mask_tests_digit(self.flags);
        }
        self.flags & Z != 0
    }

    /// Interrupt disable flag.
    pub fn i(&self) -> (r: bool)
        ensures
            r == self.has(4),
    {
        proof {
            lemma_mask_tests_digit(self.flags);
        }
        self.flags & I != 0
    }

    /// Decimal mode flag.
    pub fn d(&self) -> (r: bool)
        ensures
            r == self.has(8),
    {
        proof {
            lemma_mask_tests_digit(self.flags);
        }
        self.flags & D != 0
    }

    /// Break flag.
    pub fn b(&self) -> (r: bool)
        ensures
            r == self.has(16),
    {
        proof {
            lemma_mask_tests_digit(self.flags);
        }
        self.flags & B != 0
    }

    /// Unused flag.
    pub fn u(&self) -> (r: bool)
        ensures
            r == self.has(32),
    {
        proof {
            lemma_mask_tests_digit(self.flags);
        }
        self.flags & U != 0
    }

    /// Overflow flag.
    pub fn v(&self) -> (r: bool)
        ensures
            r == self.has(64),
    {
        proof {
            lemma_mask_tests_digit(self.flags);
        }
        self.flags & O != 0
    }

    /// Negative flag.
    pub fn n(&self) -> (r: bool)
        ensures
            r == self.has(128),
    {
        proof {
            lemma_mask_tests_digit(self.flags);
        }
        self.flags & N != 0
    }

    /// Renders the flags as text, such as `C:1, Z:0, I:0, D:0, B:0, U:1, V:0, N:0`.
    pub fn to_string(&self) -> (s: String)
        ensures
            s@ == self.text(),
    {
        let mut s = String::from_str("C:");
        s.append(bit_str(self.c()));
        s.append(", Z:");
        s.append(bit_str(self.z()));
        s.append(", I:");
        s.append(bit_str(self.i()));
        s.append(", D:");
        s.append(bit_str(self.d()));
        s.append(", B:");
        s.append(bit_str(self.b()));
        s.append(", U:");
        s.append(bit_str(self.u()));
        s.append(", V:");
        s.append(bit_str(self.v()));
        s.append(", N:");
        s.append(bit_str(self.n()));
        s
    }
}

/// `"1"` for a set flag, `"0"` for a clear one.
fn bit_str(set: bool) -> (s: &'static str)
    ensures
        s@ == if set { "1"@ } else { "0"@ },
{
    if set {
        "1"
    } else {
        "0"
    }
}

impl core::ops::BitAnd<Flags> for Flags {
    type Output = Flags;

    /// The flags set in both operands.
    fn bitand(self, rhs: Flags) -> (r: Flags) {
        Flags { flags: self.flags & rhs.flags }
    }
}

impl BitAndSpecImpl<Flags> for Flags {
    open spec fn obeys_bitand_spec() -> bool {
        true
    }

    open spec fn bitand_req(self, rhs: Flags) -> bool {
        true
    }

    open spec fn bitand_spec(self, rhs: Flags) -> Flags {
        Flags { flags: self.flags & rhs.flags }
    }
}

impl core::ops::BitOr<Flags> for Flags {
    type Output = Flags;

    /// The flags set in either operand.
    fn bitor(self, rhs: Flags) -> (r: Flags) {
        Flags { flags: self.flags | rhs.flags }
    }
}

impl BitOrSpecImpl<Flags> for Flags {
    open spec fn obeys_bitor_spec() -> bool {
        true
    }

    open spec fn bitor_req(self, rhs: Flags) -> bool {
        true
    }

    open spec fn bitor_spec(self, rhs: Flags) -> Flags {
        Flags { flags: self.flags | rhs.flags }
    }
}

/// Digit by digit, `x & y` is the conjunction of `x` and `y`.
proof fn lemma_and_digits(x: u8, y: u8)
    by (bit_vector)
    ensures
        (((x & y) / 1) % 2 == 1) == (((x / 1) % 2 == 1) && ((y / 1) % 2 == 1)),
        (((x & y) / 2) % 2 == 1) == (((x / 2) % 2 == 1) && ((y / 2) % 2 == 1)),
        (((x & y) / 4) % 2 == 1) == (((x / 4) % 2 == 1) && ((y / 4) % 2 == 1)),
        (((x & y) / 8) % 2 == 1) == (((x / 8) % 2 == 1) && ((y / 8) % 2 == 1)),
        (((x & y) / 16) % 2 == 1) == (((x / 16) % 2 == 1) && ((y / 16) % 2 == 1)),
        (((x & y) / 32) % 2 == 1) == (((x / 32) % 2 == 1) && ((y / 32) % 2 == 1)),
        (((x & y) / 64) % 2 == 1) == (((x / 64) % 2 == 1) && ((y / 64) % 2 == 1)),
        (((x & y) / 128) % 2 == 1) == (((x / 128) % 2 == 1) && ((y / 128) % 2 == 1)),
{
}

/// Digit by digit, `x | y` is the disjunction of `x` and `y`.
proof fn lemma_or_digits(x: u8, y: u8)
    by (bit_vector)
    ensures
        (((x | y) / 1) % 2 == 1) == (((x / 1) % 2 == 1) || ((y / 1) % 2 == 1)),
        (((x | y) / 2) % 2 == 1) == (((x / 2) % 2 == 1) || ((y / 2) % 2 == 1)),
        (((x | y) / 4) % 2 == 1) == (((x / 4) % 2 == 1) || ((y / 4) % 2 == 1)),
        (((x | y) / 8) % 2 == 1) == (((x / 8) % 2 == 1) || ((y / 8) % 2 == 1)),
        (((x | y) / 16) % 2 == 1) == (((x / 16) % 2 == 1) || ((y / 16) % 2 == 1)),
        (((x | y) / 32) % 2 == 1) == (((x / 32) % 2 == 1) || ((y / 32) % 2 == 1)),
        (((x | y) / 64) % 2 == 1) == (((x / 64) % 2 == 1) || ((y / 64) % 2 == 1)),
        (((x | y) / 128) % 2 == 1) == (((x / 128) % 2 == 1) || ((y / 128) % 2 == 1)),
{
}

/// The eight place values of a byte.
pub open spec fn is_weight(w: int) -> bool {
    w == 1 || w == 2 || w == 4 || w == 8 || w == 16 || w == 32 || w == 64 || w == 128
}

/// A flag is set in `a & b` exactly when it is set in both `a` and `b`.
pub proof fn lemma_bitand_flags(a: Flags, b: Flags, w: int)
    requires
        is_weight(w),
    ensures
        (Flags { flags: a.flags & b.flags }).has(w) == (a.has(w) && b.has(w)),
{
    lemma_and_digits(a.flags, b.flags);
}

/// A flag is set in `a | b` exactly when it is set in `a` or in `b`.
pub proof fn lemma_bitor_flags(a: Flags, b: Flags, w: int)
    requires
        is_weight(w),
    ensures
        (Flags { flags: a.flags | b.flags }).has(w) == (a.has(w) || b.has(w)),
{
    lemma_or_digits(a.flags, b.flags);
}

impl core::convert::From<u8> for Flags {
    /// The flags held in the bits of `val`.
    fn from(val: u8) -> (r: Flags) {
        Flags { flags: val }
    }
}

impl FromSpecImpl<u8> for Flags {
    open spec fn obeys_from_spec() -> bool {
        true
    }

    open spec fn from_spec(val: u8) -> Flags {
        Flags { flags: val }
    }
}

impl core::convert::From<Flags> for u8 {
    /// The byte that holds the flags.
    fn from(val: Flags) -> (r: u8) {
        val.flags
    }
}

impl FromSpecImpl<Flags> for u8 {
    open spec fn obeys_from_spec() -> bool {
        true
    }

    open spec fn from_spec(val: Flags) -> u8 {
        val.flags
    }
}

/// The processor's registers.
#[derive(Clone, Copy, Debug, PartialEq, Eq, Structural)]
pub struct Registers {
    /// Accumulator.
    pub a: u8,
    /// Index register X.
    pub x: u8,
    /// Index register Y.
    pub y: u8,
    /// Stack pointer, an offset into page `$01`.
    pub sp: u8,
    /// Program counter.
    pub pc: u16,
    /// Processor status.
    pub flags: Flags,
}

/// Access to the 64K address space, whatever backs it: memory, read-only
/// memory, mapped devices, or a router over several of these.
///
/// An access may have effects inside the device, so nothing is promised here
/// about what a call returns: two reads of one address need not agree.
pub trait Bus {
    /// Reads the byte at `addr`.
    fn get(&self, addr: u16) -> Result<u8, AddressError>;

    /// Writes `val` at `addr`.
    fn set(&self, addr: u16, val: u8) -> Result<(), AddressError>;

    /// Reads the little-endian word whose low byte is at `addr` and whose
    /// high byte is at `addr + 1`. No wraparound is applied to `addr + 1`.
    fn get_pointer(&self, addr: u16) -> Result<u16, AddressError>;

    /// Borrows the `size` bytes that start at `addr`.
    fn get_window(&self, addr: u16, size: u16) -> Result<&[u8], AddressError>;

    /// Writes the bytes of `val` starting at `addr`.
    fn set_window(&self, addr: u16, val: &[u8]) -> Result<(), AddressError>;
}

} // verus!
