use op65::addressing::{
    Addressing, AddressingMode, AddressingOperand, PointerFetch, Resolution, Target,
};
use op65::context::{AddressError, Bus, Flags, Registers};
use op65::fetcher::Fetcher;
use std::cell::RefCell;

/// A flat 64K memory that records every read and can be told to fail at
/// chosen addresses.
struct Ram {
    mem: Vec<u8>,
    faults: Vec<(u16, AddressError)>,
    reads: RefCell<Vec<(char, u16)>>,
}

impl Ram {
    fn new() -> Ram {
        Ram { mem: vec![0u8; 0x1_0000], faults: Vec::new(), reads: RefCell::new(Vec::new()) }
    }

    fn with(bytes: &[(u16, u8)]) -> Ram {
        let mut ram = Ram::new();
        for (at, val) in bytes {
            ram.mem[*at as usize] = *val;
        }
        ram
    }

    fn load(mut self, at: u16, bytes: &[u8]) -> Ram {
        for (k, val) in bytes.iter().enumerate() {
            self.mem[at as usize + k] = *val;
        }
        self
    }

    fn failing(mut self, at: u16, error: AddressError) -> Ram {
        self.faults.push((at, error));
        self
    }

    fn fault(&self, at: u16) -> Option<AddressError> {
        self.faults.iter().find(|(a, _)| *a == at).map(|(_, e)| *e)
    }

    fn reads(&self) -> Vec<(char, u16)> {
        self.reads.borrow().clone()
    }
}

impl Bus for Ram {
    fn get(&self, addr: u16) -> Result<u8, AddressError> {
        self.reads.borrow_mut().push(('b', addr));
        match self.fault(addr) {
            Some(e) => Err(e),
            None => Ok(self.mem[addr as usize]),
        }
    }

    fn set(&self, addr: u16, _val: u8) -> Result<(), AddressError> {
        Err(AddressError::ReadOnly(addr))
    }

    fn get_pointer(&self, addr: u16) -> Result<u16, AddressError> {
        self.reads.borrow_mut().push(('w', addr));
        if addr == 0xFFFF {
            return Err(AddressError::OutOfBounds);
        }
        if let Some(e) = self.fault(addr) {
            return Err(e);
        }
        if let Some(e) = self.fault(addr + 1) {
            return Err(e);
        }
        Ok(self.mem[addr as usize] as u16 | (self.mem[addr as usize + 1] as u16) << 8)
    }

    fn get_window(&self, addr: u16, size: u16) -> Result<&[u8], AddressError> {
        let end = addr as usize + size as usize;
        if end > self.mem.len() {
            return Err(AddressError::OutOfBounds);
        }
        Ok(&self.mem[addr as usize..end])
    }

    fn set_window(&self, addr: u16, _val: &[u8]) -> Result<(), AddressError> {
        Err(AddressError::ReadOnly(addr))
    }
}

fn regs(x: u8, y: u8, pc: u16) -> Registers {
    Registers { a: 0x11, x, y, sp: 0xFD, pc, flags: Flags { flags: 0x24 } }
}

fn address(at: u16, extra_cycle: bool) -> Resolution {
    Resolution { target: Target::Address(at), extra_cycle }
}

/// An operand at a fixed address, as a user of the library may define one.
struct Fixed(u16);

impl Addressing for Fixed {
    fn addr(&self, _bus: &dyn Bus, _reg: &Registers) -> Result<u16, AddressError> {
        Ok(self.0)
    }
}

#[test]
fn addressing_can_be_implemented_outside_the_library() {
    let ram = Ram::new();
    assert_eq!(Fixed(0x1234).addr(&ram, &regs(0, 0, 0)), Ok(0x1234));
}

#[test]
fn fetcher_get_reads_through_to_the_bus() {
    let ram = Ram::with(&[(0x0010, 0xAB)]).failing(0x0011, AddressError::WriteOnly(0x0011));
    let mut fetcher = Fetcher::new(&ram);
    assert_eq!(fetcher.get(0x0010), Ok(0xAB));
    assert_eq!(fetcher.get(0x0011), Err(AddressError::WriteOnly(0x0011)));
    assert_eq!(ram.reads(), vec![('b', 0x0010), ('b', 0x0011)]);
}

#[test]
fn fetcher_get_pointer_reads_through_to_the_bus() {
    let ram = Ram::with(&[(0x0010, 0x34), (0x0011, 0x12)]);
    let mut fetcher = Fetcher::new(&ram);
    assert_eq!(fetcher.get_pointer(0x0010), Ok(0x1234));
    assert_eq!(fetcher.get_pointer(0xFFFF), Err(AddressError::OutOfBounds));
    assert_eq!(ram.reads(), vec![('w', 0x0010), ('w', 0xFFFF)]);
}

#[test]
fn fetcher_get_pair_reads_in_order() {
    let ram = Ram::with(&[(0x0020, 0x01), (0x0010, 0x02)]);
    let mut fetcher = Fetcher::new(&ram);
    assert_eq!(fetcher.get_pair(0x0020, 0x0010), Ok((0x01, 0x02)));
    assert_eq!(ram.reads(), vec![('b', 0x0020), ('b', 0x0010)]);
}

#[test]
fn fetcher_get_pair_stops_at_the_first_failure() {
    let ram = Ram::new().failing(0x0020, AddressError::Halt(0x0020));
    let mut fetcher = Fetcher::new(&ram);
    assert_eq!(fetcher.get_pair(0x0020, 0x0010), Err(AddressError::Halt(0x0020)));
    assert_eq!(ram.reads(), vec![('b', 0x0020)]);
    let ram = Ram::new().failing(0x0010, AddressError::OutOfBounds);
    let mut fetcher = Fetcher::new(&ram);
    assert_eq!(fetcher.get_pair(0x0020, 0x0010), Err(AddressError::OutOfBounds));
    assert_eq!(ram.reads(), vec![('b', 0x0020), ('b', 0x0010)]);
}

#[test]
fn fetcher_read_pointer_as_word_or_as_two_bytes() {
    let ram = Ram::with(&[(0x02FF, 0x34), (0x0200, 0x12), (0x0300, 0x56)]);
    let mut fetcher = Fetcher::new(&ram);
    assert_eq!(fetcher.read_pointer(PointerFetch::Split { lo: 0x02FF, hi: 0x0200 }), Ok(0x1234));
    assert_eq!(fetcher.read_pointer(PointerFetch::Word(0x02FF)), Ok(0x5634));
    assert_eq!(ram.reads(), vec![('b', 0x02FF), ('b', 0x0200), ('w', 0x02FF)]);
}

#[test]
fn fetcher_runs_the_steps_of_a_decode_one_by_one() {
    let ram = Ram::with(&[(0x0040, 0xFF), (0x0041, 0x00)]).load(0x0600, &[0xB1, 0x40]);
    let reg = regs(0, 1, 0x0600);
    let mut fetcher = Fetcher::new(&ram);
    assert_eq!(fetcher.get(reg.pc), Ok(0xB1));
    let operand = fetcher.fetch_operand(AddressingMode::IndirectIndexed, &reg).unwrap();
    assert_eq!(operand, AddressingOperand::IndirectIndexed(0x40));
    assert_eq!(fetcher.resolve(&operand, &reg), Ok(address(0x0100, true)));
    assert_eq!(ram.reads(), vec![('b', 0x0600), ('b', 0x0601), ('w', 0x0040)]);
}

#[test]
fn fetcher_decodes_several_instructions_in_a_row() {
    let ram = Ram::new().load(0x0600, &[0xA9, 0x42, 0x6D, 0x34, 0x12, 0xEA]);
    let mut fetcher = Fetcher::new(&ram);
    let mut reg = regs(0, 0, 0x0600);
    let mut seen: Vec<(&str, Target, u8, u8)> = Vec::new();
    for _ in 0..3 {
        let i = fetcher.decode(&reg).unwrap();
        seen.push((i.name, i.target, i.len, i.cycles));
        reg.pc += i.len as u16;
    }
    assert_eq!(
        seen,
        vec![
            ("LDA", Target::Value(0x42), 2, 2),
            ("ADC", Target::Address(0x1234), 3, 4),
            ("NOP", Target::Nothing, 1, 2),
        ]
    );
    assert_eq!(
        ram.reads(),
        vec![('b', 0x0600), ('b', 0x0601), ('b', 0x0602), ('b', 0x0603), ('b', 0x0604), ('b', 0x0605)]
    );
}

#[test]
fn fetcher_decode_hands_errors_on() {
    let ram = Ram::new().load(0x0600, &[0x6C, 0xFF, 0x02]).failing(0x0200, AddressError::Halt(0x0200));
    let mut fetcher = Fetcher::new(&ram);
    assert_eq!(fetcher.decode(&regs(0, 0, 0x0600)).unwrap_err(), AddressError::Halt(0x0200));
    assert_eq!(
        ram.reads(),
        vec![('b', 0x0600), ('b', 0x0601), ('b', 0x0602), ('b', 0x02FF), ('b', 0x0200)]
    );
}

#[test]
fn fetcher_resolves_direct_modes_without_reading() {
    let ram = Ram::new();
    let mut fetcher = Fetcher::new(&ram);
    let reg = regs(2, 1, 0);
    assert_eq!(fetcher.resolve(&AddressingOperand::ZeroPageX(0xFF), &reg), Ok(address(0x0001, false)));
    assert_eq!(
        fetcher.resolve(&AddressingOperand::Immediate(9), &reg),
        Ok(Resolution { target: Target::Value(9), extra_cycle: false })
    );
    assert_eq!(fetcher.fetch_operand(AddressingMode::Implied, &reg), Ok(AddressingOperand::Implied));
    assert!(ram.reads().is_empty());
}

#[test]
fn the_fetcher_bus_rejects_writes() {
    let ram = Ram::new();
    assert_eq!(ram.set(0x0010, 1), Err(AddressError::ReadOnly(0x0010)));
    assert_eq!(ram.set_window(0x0010, &[1]), Err(AddressError::ReadOnly(0x0010)));
    assert_eq!(ram.get_window(0x0000, 1), Ok(&[0u8][..]));
}
