use op65::addressing::AddressingMode;
use op65::opcodes::{addressing_mode, halts, lookup};

/// The mnemonics of the sixteen rows of the opcode matrix, `$x0` to `$xF` in each.
fn mnemonic_rows() -> [&'static str; 16] {
    [
        "BRK ORA KIL SLO IGN ORA ASL SLO PHP ORA ASL ANC IGN ORA ASL SLO",
        "BPL ORA KIL SLO IGN ORA ASL SLO CLC ORA NOP SLO IGN ORA ASL SLO",
        "JSR AND KIL RLA BIT AND ROL RLA PLP AND ROL ANC BIT AND ROL RLA",
        "BMI AND KIL RLA IGN AND ROL RLA SEC AND NOP RLA IGN AND ROL RLA",
        "RTI EOR KIL SRE IGN EOR LSR SRE PHA EOR LSR ALR JMP EOR LSR SRE",
        "BVC EOR KIL SRE IGN EOR LSR SRE CLI EOR NOP SRE IGN EOR LSR SRE",
        "RTS ADC KIL RRA IGN ADC ROR RRA PLA ADC ROR ARR JMP ADC ROR RRA",
        "BVS ADC KIL RRA IGN ADC ROR RRA SEI ADC NOP RRA IGN ADC ROR RRA",
        "SKB STA SKB SAX STY STA STX SAX DEY SKB TXA XAA STY STA STX SAX",
        "BCC STA KIL SHA STY STA STX SAX TYA STA TXS TAS SHY STA SHX SHA",
        "LDY LDA LDX LAX LDY LDA LDX LAX TAY LDA TAX LXA LDY LDA LDX LAX",
        "BCS LDA KIL LAX LDY LDA LDX LAX CLV LDA TSX LAS LDY LDA LDX LAX",
        "CPY CMP SKB DCP CPY CMP DEC DCP INY CMP DEX AXS CPY CMP DEC DCP",
        "BNE CMP KIL DCP IGN CMP DEC DCP CLD CMP NOP DCP IGN CMP DEC DCP",
        "CPX SBC SKB ISC CPX SBC INC ISC INX SBC NOP SBC CPX SBC INC ISC",
        "BEQ SBC KIL ISC IGN SBC INC ISC SED SBC NOP ISC IGN SBC INC ISC",
    ]
}

/// The instruction lengths, one digit per opcode.
fn length_rows() -> [&'static str; 16] {
    [
        "1212222212123333",
        "2212222213133333",
        "3212222212123333",
        "2212222213133333",
        "1212222212123333",
        "2212222213133333",
        "1212222212123333",
        "2212222213133333",
        "2222222212123333",
        "2212222213133333",
        "2222222212123333",
        "2212222213133333",
        "2222222212123333",
        "2212222213133333",
        "2222222212123333",
        "2212222213133333",
    ]
}

/// The base cycle counts, one digit per opcode.
fn cycle_rows() -> [&'static str; 16] {
    [
        "7628335532224466",
        "2528446624274477",
        "6628335542224466",
        "2528446624274477",
        "6628335532223466",
        "2528446624274477",
        "6628335542225466",
        "2528446624274477",
        "2626333322224444",
        "2626444425255555",
        "2626333322224444",
        "2525444424244444",
        "2628335522224466",
        "2528446624274477",
        "2628335522224466",
        "2528446624274477",
    ]
}

/// The addressing modes, one character per opcode.
fn mode_rows() -> [&'static str; 16] {
    [
        "-X-Xzzzz-#-#aaaa",
        "rY-Ypppp-y-yxxxx",
        "aX-Xzzzz-#-#aaaa",
        "rY-Ypppp-y-yxxxx",
        "-X-Xzzzz-#-#aaaa",
        "rY-Ypppp-y-yxxxx",
        "-X-Xzzzz-#-#iaaa",
        "rY-Ypppp-y-yxxxx",
        "#X#Xzzzz-#-#aaaa",
        "rY-Yppqq-y-yxxyy",
        "#X#Xzzzz-#-#aaaa",
        "rY-Yppqq-y-yxxyy",
        "#X#Xzzzz-#-#aaaa",
        "rY-Ypppp-y-yxxxx",
        "#X#Xzzzz-#-#aaaa",
        "rY-Ypppp-y-yxxxx",
    ]
}

fn mode_for(c: char) -> AddressingMode {
    match c {
        '-' => AddressingMode::Implied,
        'a' => AddressingMode::Absolute,
        'x' => AddressingMode::AbsoluteX,
        'y' => AddressingMode::AbsoluteY,
        'i' => AddressingMode::Indirect,
        '#' => AddressingMode::Immediate,
        'X' => AddressingMode::IndexedIndirect,
        'Y' => AddressingMode::IndirectIndexed,
        'r' => AddressingMode::Relative,
        'z' => AddressingMode::ZeroPage,
        'p' => AddressingMode::ZeroPageX,
        'q' => AddressingMode::ZeroPageY,
        _ => unreachable!(),
    }
}

#[test]
fn every_opcode_has_an_entry_within_bounds() {
    for op in 0..=255u8 {
        let e = lookup(op);
        assert_eq!(e.op, op);
        assert!((1..=3).contains(&e.n), "length of {:02X}", op);
        assert!(e.cyc >= 2, "cycles of {:02X}", op);
        assert!(e.cyc <= 8, "cycles of {:02X}", op);
        assert_eq!(e.name.len(), 3);
    }
}

#[test]
fn table_matches_the_opcode_matrix() {
    let names = mnemonic_rows();
    let lengths = length_rows();
    let cycles = cycle_rows();
    let modes = mode_rows();
    for row in 0..16usize {
        let row_names: Vec<&str> = names[row].split(' ').collect();
        assert_eq!(row_names.len(), 16);
        for col in 0..16usize {
            let op = (row * 16 + col) as u8;
            let e = lookup(op);
            assert_eq!(e.name, row_names[col], "mnemonic of {:02X}", op);
            assert_eq!(e.n, lengths[row].as_bytes()[col] - b'0', "length of {:02X}", op);
            assert_eq!(e.cyc, cycles[row].as_bytes()[col] - b'0', "cycles of {:02X}", op);
            let mode = mode_for(modes[row].as_bytes()[col] as char);
            assert_eq!(addressing_mode(op), mode, "mode of {:02X}", op);
        }
    }
}

#[test]
fn length_is_one_more_than_the_operand_bytes() {
    for op in 0..=255u8 {
        let e = lookup(op);
        assert_eq!(e.n, 1 + addressing_mode(op).operand_bytes(), "opcode {:02X}", op);
    }
}

#[test]
fn operand_bytes_of_each_mode() {
    assert_eq!(AddressingMode::Implied.operand_bytes(), 0);
    assert_eq!(AddressingMode::Immediate.operand_bytes(), 1);
    assert_eq!(AddressingMode::Relative.operand_bytes(), 1);
    assert_eq!(AddressingMode::ZeroPage.operand_bytes(), 1);
    assert_eq!(AddressingMode::ZeroPageX.operand_bytes(), 1);
    assert_eq!(AddressingMode::ZeroPageY.operand_bytes(), 1);
    assert_eq!(AddressingMode::IndexedIndirect.operand_bytes(), 1);
    assert_eq!(AddressingMode::IndirectIndexed.operand_bytes(), 1);
    assert_eq!(AddressingMode::Absolute.operand_bytes(), 2);
    assert_eq!(AddressingMode::AbsoluteX.operand_bytes(), 2);
    assert_eq!(AddressingMode::AbsoluteY.operand_bytes(), 2);
    assert_eq!(AddressingMode::Indirect.operand_bytes(), 2);
}

#[test]
fn adc_absolute_entry() {
    let e = lookup(0x6D);
    assert_eq!((e.op, e.name, e.n, e.cyc), (0x6D, "ADC", 3, 4));
    assert_eq!(addressing_mode(0x6D), AddressingMode::Absolute);
}

#[test]
fn adc_has_eight_encodings() {
    let ops: Vec<u8> = (0..=255u8).filter(|op| lookup(*op).name == "ADC").collect();
    assert_eq!(ops, vec![0x61, 0x65, 0x69, 0x6D, 0x71, 0x75, 0x79, 0x7D]);
}

#[test]
fn documented_entries() {
    let cases: [(u8, &str, u8, u8, AddressingMode); 12] = [
        (0x00, "BRK", 1, 7, AddressingMode::Implied),
        (0x20, "JSR", 3, 6, AddressingMode::Absolute),
        (0x4C, "JMP", 3, 3, AddressingMode::Absolute),
        (0x6C, "JMP", 3, 5, AddressingMode::Indirect),
        (0xA9, "LDA", 2, 2, AddressingMode::Immediate),
        (0xB1, "LDA", 2, 5, AddressingMode::IndirectIndexed),
        (0xA1, "LDA", 2, 6, AddressingMode::IndexedIndirect),
        (0xB6, "LDX", 2, 4, AddressingMode::ZeroPageY),
        (0x9D, "STA", 3, 5, AddressingMode::AbsoluteX),
        (0xD0, "BNE", 2, 2, AddressingMode::Relative),
        (0x0A, "ASL", 1, 2, AddressingMode::Implied),
        (0xEA, "NOP", 1, 2, AddressingMode::Implied),
    ];
    for (op, name, n, cyc, mode) in cases {
        let e = lookup(op);
        assert_eq!((e.op, e.name, e.n, e.cyc), (op, name, n, cyc));
        assert_eq!(addressing_mode(op), mode);
    }
}

#[test]
fn undocumented_entries() {
    let cases: [(u8, &str, u8, u8, AddressingMode); 12] = [
        (0xA7, "LAX", 2, 3, AddressingMode::ZeroPage),
        (0xB7, "LAX", 2, 4, AddressingMode::ZeroPageY),
        (0x87, "SAX", 2, 3, AddressingMode::ZeroPage),
        (0xC3, "DCP", 2, 8, AddressingMode::IndexedIndirect),
        (0x1B, "SLO", 3, 7, AddressingMode::AbsoluteY),
        (0x3F, "RLA", 3, 7, AddressingMode::AbsoluteX),
        (0x53, "SRE", 2, 8, AddressingMode::IndirectIndexed),
        (0x6F, "RRA", 3, 6, AddressingMode::Absolute),
        (0xE7, "ISC", 2, 5, AddressingMode::ZeroPage),
        (0x80, "SKB", 2, 2, AddressingMode::Immediate),
        (0x0C, "IGN", 3, 4, AddressingMode::Absolute),
        (0x9E, "SHX", 3, 5, AddressingMode::AbsoluteY),
    ];
    for (op, name, n, cyc, mode) in cases {
        let e = lookup(op);
        assert_eq!((e.op, e.name, e.n, e.cyc), (op, name, n, cyc));
        assert_eq!(addressing_mode(op), mode);
    }
}

#[test]
fn halting_opcodes_are_the_kil_entries() {
    let mut found: Vec<u8> = Vec::new();
    for op in 0..=255u8 {
        assert_eq!(halts(op), lookup(op).name == "KIL", "opcode {:02X}", op);
        if halts(op) {
            found.push(op);
        }
    }
    assert_eq!(
        found,
        vec![0x02, 0x12, 0x22, 0x32, 0x42, 0x52, 0x62, 0x72, 0x92, 0xB2, 0xD2, 0xF2]
    );
}

#[test]
fn halting_entries_have_the_shape_of_any_entry() {
    let e = lookup(0x02);
    assert_eq!((e.op, e.name, e.n, e.cyc), (0x02, "KIL", 1, 2));
    assert_eq!(addressing_mode(0x02), AddressingMode::Implied);
    assert!(!halts(0x82));
    assert!(!halts(0xA2));
}
