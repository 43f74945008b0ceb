use cpu6502::instruction::{decode_entry, lookup};
use cpu6502::{AddressingMode, Instruction, Opcode};

#[test]
fn cleck_instruction_creation() {
    let inst = Instruction::new(String::from("LDA"), Opcode::Lda, AddressingMode::Absolute, 3);

    assert_eq!(
        inst,
        Instruction {
            name: String::from("LDA"),
            opcode: Opcode::Lda,
            addr_mode: AddressingMode::Absolute,
            cycles: 3
        }
    )
}

#[test]
fn lookup_gives_table_entries() {
    assert_eq!(
        lookup(0xA9),
        Instruction::new(String::from("LDA"), Opcode::Lda, AddressingMode::Immediate, 2)
    );
    assert_eq!(
        lookup(0x6C),
        Instruction::new(String::from("JMP"), Opcode::Jmp, AddressingMode::Indirect, 5)
    );
    assert_eq!(
        lookup(0x00),
        Instruction::new(String::from("BRK"), Opcode::Brk, AddressingMode::Implied, 7)
    );
    assert_eq!(
        lookup(0xFF),
        Instruction::new(String::from("KIL"), Opcode::Kil, AddressingMode::Implied, 7)
    );
}

#[test]
fn every_entry_has_two_to_eight_cycles() {
    for b in 0..=255u8 {
        let (_, _, cycles) = decode_entry(b);
        assert!((2..=8).contains(&cycles), "opcode {:02X}", b);
    }
}

#[test]
fn undefined_opcodes_decode_to_kil() {
    for b in [0x02u8, 0x03, 0x1B, 0x80, 0xFF] {
        let (op, mode, _) = decode_entry(b);
        assert_eq!(op, Opcode::Kil, "opcode {:02X}", b);
        assert_eq!(mode, AddressingMode::Implied);
    }
}

#[test]
fn mnemonics() {
    assert_eq!(Opcode::Adc.name(), "ADC");
    assert_eq!(Opcode::Tya.name(), "TYA");
    assert_eq!(Opcode::Kil.name(), "KIL");
}
