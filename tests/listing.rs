use cpu6502::Cpu;

fn machine(origin: u16, program: &[u8]) -> Cpu {
    let mut cpu = Cpu::new();
    for (i, b) in program.iter().enumerate() {
        cpu.write(origin + i as u16, *b);
    }
    cpu
}

#[test]
fn disassemble_a_short_program() {
    // LDA #$42; STA $0200,X; NOP; BNE -5
    let cpu = machine(0x8000, &[0xA9, 0x42, 0x9D, 0x00, 0x02, 0xEA, 0xD0, 0xFB]);
    let lines = cpu.disassemble(0x8000, 0x8007);
    assert_eq!(lines.len(), 4);
    assert_eq!(lines[&0x8000], "$8000: LDA #$42 {IMM}");
    assert_eq!(lines[&0x8002], "$8002: STA $0200,X {ABX}");
    assert_eq!(lines[&0x8005], "$8005: NOP  {IMP}");
    assert_eq!(lines[&0x8006], "$8006: BNE $FB [$8003] {REL}");
    assert!(!lines.contains_key(&0x8001));
}

#[test]
fn disassemble_every_operand_form() {
    let cpu = machine(
        0x1000,
        &[
            0xA5, 0x10, // LDA $10
            0xB5, 0x11, // LDA $11,X
            0xB6, 0x12, // LDX $12,Y
            0xA1, 0x13, // LDA ($13,X)
            0xB1, 0x14, // LDA ($14),Y
            0xAD, 0x34, 0x12, // LDA $1234
            0xB9, 0xCD, 0xAB, // LDA $ABCD,Y
            0x6C, 0xEF, 0xBE, // JMP ($BEEF)
        ],
    );
    let lines = cpu.disassemble(0x1000, 0x1012);
    assert_eq!(lines.len(), 8);
    assert_eq!(lines[&0x1000], "$1000: LDA $10 {ZP0}");
    assert_eq!(lines[&0x1002], "$1002: LDA $11,X {ZPX}");
    assert_eq!(lines[&0x1004], "$1004: LDX $12,Y {ZPY}");
    assert_eq!(lines[&0x1006], "$1006: LDA ($13,X) {IZX}");
    assert_eq!(lines[&0x1008], "$1008: LDA ($14),Y {IZY}");
    assert_eq!(lines[&0x100A], "$100A: LDA $1234 {ABS}");
    assert_eq!(lines[&0x100D], "$100D: LDA $ABCD,Y {ABY}");
    assert_eq!(lines[&0x1010], "$1010: JMP ($BEEF) {IND}");
}

#[test]
fn disassemble_empty_and_single() {
    let cpu = machine(0x0000, &[0xEA]);
    assert_eq!(cpu.disassemble(0x0005, 0x0004).len(), 0);
    let one = cpu.disassemble(0x0000, 0x0000);
    assert_eq!(one.len(), 1);
    assert_eq!(one[&0x0000], "$0000: NOP  {IMP}");
}

#[test]
fn disassemble_to_the_top_of_memory() {
    // BRK at every address of a cleared memory: one line per byte
    let cpu = Cpu::new();
    let lines = cpu.disassemble(0xFFF0, 0xFFFF);
    assert_eq!(lines.len(), 16);
    assert_eq!(lines[&0xFFFF], "$FFFF: BRK  {IMP}");
}

#[test]
fn disassemble_leaves_memory_alone() {
    let cpu = machine(0x8000, &[0xA9, 0x42]);
    let before: Vec<u8> = (0x7FF0..=0x8010u16).map(|a| cpu.read(a)).collect();
    let _ = cpu.disassemble(0x8000, 0x8001);
    let after: Vec<u8> = (0x7FF0..=0x8010u16).map(|a| cpu.read(a)).collect();
    assert_eq!(before, after);
}
