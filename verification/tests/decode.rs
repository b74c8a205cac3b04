use op65::addressing::{Resolution, Target};
use op65::context::{AddressError, Bus, Flags, Registers};
use op65::decode::{decode, describe};
use std::cell::RefCell;

/// A flat 64K memory that records every read and can be told to fail at
/// chosen addresses.
struct Ram {
    mem: Vec<u8>,
    faults: Vec<(u16, AddressError)>,
    reads: RefCell<Vec<(char, u16)>>,
}

impl Ram {
    fn new() -> Ram {
        Ram { mem: vec![0u8; 0x1_0000], faults: Vec::new(), reads: RefCell::new(Vec::new()) }
    }

    fn with(bytes: &[(u16, u8)]) -> Ram {
        let mut ram = Ram::new();
        for (at, val) in bytes {
            ram.mem[*at as usize] = *val;
        }
        ram
    }

    fn load(mut self, at: u16, bytes: &[u8]) -> Ram {
        for (k, val) in bytes.iter().enumerate() {
            self.mem[at as usize + k] = *val;
        }
        self
    }

    fn failing(mut self, at: u16, error: AddressError) -> Ram {
        self.faults.push((at, error));
        self
    }

    fn fault(&self, at: u16) -> Option<AddressError> {
        self.faults.iter().find(|(a, _)| *a == at).map(|(_, e)| *e)
    }

    fn reads(&self) -> Vec<(char, u16)> {
        self.reads.borrow().clone()
    }
}

impl Bus for Ram {
    fn get(&self, addr: u16) -> Result<u8, AddressError> {
        self.reads.borrow_mut().push(('b', addr));
        match self.fault(addr) {
            Some(e) => Err(e),
            None => Ok(self.mem[addr as usize]),
        }
    }

    fn set(&self, addr: u16, _val: u8) -> Result<(), AddressError> {
        Err(AddressError::ReadOnly(addr))
    }

    fn get_pointer(&self, addr: u16) -> Result<u16, AddressError> {
        self.reads.borrow_mut().push(('w', addr));
        if addr == 0xFFFF {
            return Err(AddressError::OutOfBounds);
        }
        if let Some(e) = self.fault(addr) {
            return Err(e);
        }
        if let Some(e) = self.fault(addr + 1) {
            return Err(e);
        }
        Ok(self.mem[addr as usize] as u16 | (self.mem[addr as usize + 1] as u16) << 8)
    }

    fn get_window(&self, addr: u16, size: u16) -> Result<&[u8], AddressError> {
        let end = addr as usize + size as usize;
        if end > self.mem.len() {
            return Err(AddressError::OutOfBounds);
        }
        Ok(&self.mem[addr as usize..end])
    }

    fn set_window(&self, addr: u16, _val: &[u8]) -> Result<(), AddressError> {
        Err(AddressError::ReadOnly(addr))
    }
}

fn regs(x: u8, y: u8, pc: u16) -> Registers {
    Registers { a: 0x11, x, y, sp: 0xFD, pc, flags: Flags { flags: 0x24 } }
}

#[test]
fn adc_absolute_round_trip() {
    let ram = Ram::new().load(0x0600, &[0x6D, 0x34, 0x12]);
    let i = decode(&ram, &regs(0, 0, 0x0600)).unwrap();
    assert_eq!(i.name, "ADC");
    assert_eq!(i.target, Target::Address(0x1234));
    assert_eq!(i.len, 3);
    assert_eq!(i.cycles, 4);
    assert_eq!(ram.reads(), vec![('b', 0x0600), ('b', 0x0601), ('b', 0x0602)]);
}

#[test]
fn page_crossing_adds_one_cycle() {
    let ram = Ram::new().load(0x0600, &[0x7D, 0xFF, 0x12]);
    let i = decode(&ram, &regs(1, 0, 0x0600)).unwrap();
    assert_eq!((i.name, i.target, i.len, i.cycles), ("ADC", Target::Address(0x1300), 3, 5));
    let ram = Ram::new().load(0x0600, &[0x7D, 0x00, 0x12]);
    let i = decode(&ram, &regs(1, 0, 0x0600)).unwrap();
    assert_eq!((i.name, i.target, i.len, i.cycles), ("ADC", Target::Address(0x1201), 3, 4));
}

#[test]
fn absolute_y_page_crossing_adds_one_cycle() {
    let ram = Ram::new().load(0x0600, &[0xB9, 0xFF, 0x12]);
    let i = decode(&ram, &regs(0, 1, 0x0600)).unwrap();
    assert_eq!((i.name, i.target, i.len, i.cycles), ("LDA", Target::Address(0x1300), 3, 5));
}

#[test]
fn immediate_instruction() {
    let ram = Ram::new().load(0x0600, &[0xA9, 0x42]);
    let i = decode(&ram, &regs(0, 0, 0x0600)).unwrap();
    assert_eq!((i.name, i.target, i.len, i.cycles), ("LDA", Target::Value(0x42), 2, 2));
    assert_eq!(ram.reads(), vec![('b', 0x0600), ('b', 0x0601)]);
}

#[test]
fn implied_instruction_reads_only_the_opcode() {
    let ram = Ram::new().load(0x0600, &[0xEA, 0x42]);
    let i = decode(&ram, &regs(0, 0, 0x0600)).unwrap();
    assert_eq!((i.name, i.target, i.len, i.cycles), ("NOP", Target::Nothing, 1, 2));
    assert_eq!(ram.reads(), vec![('b', 0x0600)]);
}

#[test]
fn branch_instruction() {
    let ram = Ram::new().load(0x0600, &[0xD0, 0xFB]);
    let i = decode(&ram, &regs(0, 0, 0x0600)).unwrap();
    assert_eq!((i.name, i.target, i.len, i.cycles), ("BNE", Target::Offset(-5), 2, 2));
}

#[test]
fn zero_page_x_instruction_wraps() {
    let ram = Ram::new().load(0x0600, &[0xB5, 0xFF]);
    let i = decode(&ram, &regs(2, 0, 0x0600)).unwrap();
    assert_eq!((i.name, i.target, i.len, i.cycles), ("LDA", Target::Address(0x0001), 2, 4));
}

#[test]
fn zero_page_y_instruction_wraps() {
    let ram = Ram::new().load(0x0600, &[0xB6, 0xFF]);
    let i = decode(&ram, &regs(0, 2, 0x0600)).unwrap();
    assert_eq!((i.name, i.target, i.len, i.cycles), ("LDX", Target::Address(0x0001), 2, 4));
}

#[test]
fn jmp_indirect_with_the_page_wrap() {
    let ram = Ram::with(&[(0x02FF, 0x34), (0x0200, 0x12), (0x0300, 0x56)])
        .load(0x0600, &[0x6C, 0xFF, 0x02]);
    let i = decode(&ram, &regs(0, 0, 0x0600)).unwrap();
    assert_eq!((i.name, i.target, i.len, i.cycles), ("JMP", Target::Address(0x1234), 3, 5));
    assert_eq!(
        ram.reads(),
        vec![('b', 0x0600), ('b', 0x0601), ('b', 0x0602), ('b', 0x02FF), ('b', 0x0200)]
    );
}

#[test]
fn jmp_indirect_inside_a_page() {
    let ram = Ram::with(&[(0x0200, 0x34), (0x0201, 0x12)]).load(0x0600, &[0x6C, 0x00, 0x02]);
    let i = decode(&ram, &regs(0, 0, 0x0600)).unwrap();
    assert_eq!((i.name, i.target, i.len, i.cycles), ("JMP", Target::Address(0x1234), 3, 5));
    assert_eq!(ram.reads(), vec![('b', 0x0600), ('b', 0x0601), ('b', 0x0602), ('w', 0x0200)]);
}

#[test]
fn indexed_indirect_instruction() {
    let ram = Ram::with(&[(0x0001, 0x34), (0x0002, 0x12)]).load(0x0600, &[0xA1, 0xFF]);
    let i = decode(&ram, &regs(2, 0, 0x0600)).unwrap();
    assert_eq!((i.name, i.target, i.len, i.cycles), ("LDA", Target::Address(0x1234), 2, 6));
    assert_eq!(ram.reads(), vec![('b', 0x0600), ('b', 0x0601), ('w', 0x0001)]);
}

#[test]
fn indirect_indexed_instruction_crossing_a_page() {
    let ram = Ram::with(&[(0x0040, 0xFF), (0x0041, 0x00)]).load(0x0600, &[0xB1, 0x40]);
    let i = decode(&ram, &regs(0, 1, 0x0600)).unwrap();
    assert_eq!((i.name, i.target, i.len, i.cycles), ("LDA", Target::Address(0x0100), 2, 6));
    let i = decode(&ram, &regs(0, 0, 0x0600)).unwrap();
    assert_eq!((i.name, i.target, i.len, i.cycles), ("LDA", Target::Address(0x00FF), 2, 5));
}

#[test]
fn undocumented_opcodes_decode_like_any_other() {
    let ram = Ram::new().load(0x0600, &[0xA7, 0x10]);
    let i = decode(&ram, &regs(0, 0, 0x0600)).unwrap();
    assert_eq!((i.name, i.target, i.len, i.cycles), ("LAX", Target::Address(0x0010), 2, 3));
    let ram = Ram::new().load(0x0600, &[0x02]);
    let i = decode(&ram, &regs(0, 0, 0x0600)).unwrap();
    assert_eq!((i.name, i.target, i.len, i.cycles), ("KIL", Target::Nothing, 1, 2));
}

#[test]
fn every_opcode_decodes_on_a_blank_memory() {
    for op in 0..=255u8 {
        let ram = Ram::new().load(0x0600, &[op, 0x10, 0x20]);
        let i = decode(&ram, &regs(1, 1, 0x0600)).unwrap();
        assert!((1..=3).contains(&i.len));
        assert!(i.cycles >= 2 && i.cycles <= 9);
        let reads = ram.reads();
        assert_eq!(reads[0], ('b', 0x0600));
        assert!(reads.len() >= i.len as usize);
        for k in 1..i.len as usize {
            assert_eq!(reads[k], ('b', 0x0600 + k as u16));
        }
    }
}

#[test]
fn decode_at_the_top_of_memory_wraps_the_operand_fetch() {
    let ram = Ram::with(&[(0xFFFF, 0x6D), (0x0000, 0x34), (0x0001, 0x12)]);
    let i = decode(&ram, &regs(0, 0, 0xFFFF)).unwrap();
    assert_eq!((i.name, i.target, i.len, i.cycles), ("ADC", Target::Address(0x1234), 3, 4));
}

fn five_errors() -> [AddressError; 5] {
    [
        AddressError::ReadOnly(0x8000),
        AddressError::WriteOnly(0x2007),
        AddressError::Unavailable(0x4018),
        AddressError::Halt(0x00FF),
        AddressError::OutOfBounds,
    ]
}

#[test]
fn opcode_fetch_failure_is_handed_on() {
    for e in five_errors() {
        let ram = Ram::new().load(0x0600, &[0x6D, 0x34, 0x12]).failing(0x0600, e);
        let reg = regs(3, 4, 0x0600);
        let before = reg;
        assert_eq!(decode(&ram, &reg).unwrap_err(), e);
        assert_eq!(reg, before);
        assert_eq!(ram.reads(), vec![('b', 0x0600)]);
    }
}

#[test]
fn operand_fetch_failure_is_handed_on() {
    for e in five_errors() {
        let ram = Ram::new().load(0x0600, &[0x6D, 0x34, 0x12]).failing(0x0601, e);
        assert_eq!(decode(&ram, &regs(0, 0, 0x0600)).unwrap_err(), e);
        assert_eq!(ram.reads(), vec![('b', 0x0600), ('b', 0x0601)]);
        let ram = Ram::new().load(0x0600, &[0x6D, 0x34, 0x12]).failing(0x0602, e);
        assert_eq!(decode(&ram, &regs(0, 0, 0x0600)).unwrap_err(), e);
        assert_eq!(ram.reads(), vec![('b', 0x0600), ('b', 0x0601), ('b', 0x0602)]);
    }
}

#[test]
fn pointer_fetch_failure_is_handed_on() {
    for e in five_errors() {
        let ram = Ram::new().load(0x0600, &[0x6C, 0x00, 0x02]).failing(0x0201, e);
        let reg = regs(3, 4, 0x0600);
        let before = reg;
        assert_eq!(decode(&ram, &reg).unwrap_err(), e);
        assert_eq!(reg, before);
        let ram = Ram::new().load(0x0600, &[0xB1, 0x40]).failing(0x0040, e);
        assert_eq!(decode(&ram, &reg).unwrap_err(), e);
    }
}

#[test]
fn describe_adds_the_extra_cycle() {
    let i = describe(0xBD, Resolution { target: Target::Address(0x1300), extra_cycle: true });
    assert_eq!((i.name, i.target, i.len, i.cycles), ("LDA", Target::Address(0x1300), 3, 5));
    let i = describe(0xBD, Resolution { target: Target::Address(0x1201), extra_cycle: false });
    assert_eq!((i.name, i.target, i.len, i.cycles), ("LDA", Target::Address(0x1201), 3, 4));
}

#[test]
fn describe_never_overflows_the_cycle_count() {
    for op in 0..=255u8 {
        let i = describe(op, Resolution { target: Target::Nothing, extra_cycle: true });
        assert!(i.cycles >= 3 && i.cycles <= 9);
    }
}

#[test]
fn the_decode_bus_rejects_writes() {
    let ram = Ram::new();
    assert_eq!(ram.set(0x0010, 1), Err(AddressError::ReadOnly(0x0010)));
    assert_eq!(ram.set_window(0x0010, &[1]), Err(AddressError::ReadOnly(0x0010)));
    assert_eq!(ram.get_window(0x0000, 2), Ok(&[0u8, 0][..]));
    assert_eq!(ram.get_pointer(0xFFFF), Err(AddressError::OutOfBounds));
}
