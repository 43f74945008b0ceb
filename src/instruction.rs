//! The instruction set: opcode kinds, addressing modes and the 256-entry
//! decode table.
use vstd::prelude::*;
use vstd::string::StringExecFns;

verus! {

/// How an instruction finds its operand.
#[allow(non_camel_case_types)]
#[derive(Debug, Clone, Copy, PartialEq, Eq, Structural)]
pub enum AddressingMode {
    /// No operand; the accumulator stands in for it.
    Implied,
    /// The operand is the byte after the opcode.
    Immediate,
    /// An address in page zero.
    ZeroPage,
    /// A page-zero address indexed by X, wrapping within the page.
    ZeroPage_X,
    /// A page-zero address indexed by Y, wrapping within the page.
    ZeroPage_Y,
    /// A signed branch offset.
    Relative,
    /// A full 16-bit address.
    Absolute,
    /// A 16-bit address indexed by X.
    Absolute_X,
    /// A 16-bit address indexed by Y.
    Absolute_Y,
    /// A 16-bit pointer to the address, with the page-wrap quirk.
    Indirect,
    /// A page-zero pointer indexed by X.
    Indirect_X,
    /// A page-zero pointer, the address it holds indexed by Y.
    Indirect_Y,
}

/// The operation an instruction performs.
#[derive(Debug, Clone, Copy, PartialEq, Eq, Structural)]
pub enum Opcode {
    /// Add with carry.
    Adc,
    /// Logical AND.
    And,
    /// Arithmetic shift left.
    Asl,
    /// Branch if carry clear.
    Bcc,
    /// Branch if carry set.
    Bcs,
    /// Branch if equal.
    Beq,
    /// Bit test.
    Bit,
    /// Branch if minus.
    Bmi,
    /// Branch if not equal.
    Bne,
    /// Branch if positive.
    Bpl,
    /// Force interrupt.
    Brk,
    /// Branch if overflow clear.
    Bvc,
    /// Branch if overflow set.
    Bvs,
    /// Clear carry.
    Clc,
    /// Clear decimal mode.
    Cld,
    /// Clear interrupt disable.
    Cli,
    /// Clear overflow.
    Clv,
    /// Compare with A.
    Cmp,
    /// Compare with X.
    Cpx,
    /// Compare with Y.
    Cpy,
    /// Decrement memory.
    Dec,
    /// Decrement X.
    Dex,
    /// Decrement Y.
    Dey,
    /// Exclusive OR.
    Eor,
    /// Increment memory.
    Inc,
    /// Increment X.
    Inx,
    /// Increment Y.
    Iny,
    /// Jump.
    Jmp,
    /// Jump to subroutine.
    Jsr,
    /// Load A.
    Lda,
    /// Load X.
    Ldx,
    /// Load Y.
    Ldy,
    /// Logical shift right.
    Lsr,
    /// No operation.
    Nop,
    /// Logical inclusive OR.
    Ora,
    /// Push A.
    Pha,
    /// Push status.
    Php,
    /// Pull A.
    Pla,
    /// Pull status.
    Plp,
    /// Rotate left.
    Rol,
    /// Rotate right.
    Ror,
    /// Return from interrupt.
    Rti,
    /// Return from subroutine.
    Rts,
    /// Subtract with carry.
    Sbc,
    /// Set carry.
    Sec,
    /// Set decimal mode.
    Sed,
    /// Set interrupt disable.
    Sei,
    /// Store A.
    Sta,
    /// Store X.
    Stx,
    /// Store Y.
    Sty,
    /// Transfer A to X.
    Tax,
    /// Transfer A to Y.
    Tay,
    /// Transfer S to X.
    Tsx,
    /// Transfer X to A.
    Txa,
    /// Transfer X to S.
    Txs,
    /// Transfer Y to A.
    Tya,
    /// Undefined opcode; retires as an empty instruction.
    Kil,
}

impl Opcode {
    /// The three-letter assembler mnemonic.
    pub open spec fn mnemonic(self) -> Seq<char> {
        match self {
            Opcode::Adc => "ADC"@,
            Opcode::And => "AND"@,
            Opcode::Asl => "ASL"@,
            Opcode::Bcc => "BCC"@,
            Opcode::Bcs => "BCS"@,
            Opcode::Beq => "BEQ"@,
            Opcode::Bit => "BIT"@,
            Opcode::Bmi => "BMI"@,
            Opcode::Bne => "BNE"@,
            Opcode::Bpl => "BPL"@,
            Opcode::Brk => "BRK"@,
            Opcode::Bvc => "BVC"@,
            Opcode::Bvs => "BVS"@,
            Opcode::Clc => "CLC"@,
            Opcode::Cld => "CLD"@,
            Opcode::Cli => "CLI"@,
            Opcode::Clv => "CLV"@,
            Opcode::Cmp => "CMP"@,
            Opcode::Cpx => "CPX"@,
            Opcode::Cpy => "CPY"@,
            Opcode::Dec => "DEC"@,
            Opcode::Dex => "DEX"@,
            Opcode::Dey => "DEY"@,
            Opcode::Eor => "EOR"@,
            Opcode::Inc => "INC"@,
            Opcode::Inx => "INX"@,
            Opcode::Iny => "INY"@,
            Opcode::Jmp => "JMP"@,
            Opcode::Jsr => "JSR"@,
            Opcode::Lda => "LDA"@,
            Opcode::Ldx => "LDX"@,
            Opcode::Ldy => "LDY"@,
            Opcode::Lsr => "LSR"@,
            Opcode::Nop => "NOP"@,
            Opcode::Ora => "ORA"@,
            Opcode::Pha => "PHA"@,
            Opcode::Php => "PHP"@,
            Opcode::Pla => "PLA"@,
            Opcode::Plp => "PLP"@,
            Opcode::Rol => "ROL"@,
            Opcode::Ror => "ROR"@,
            Opcode::Rti => "RTI"@,
            Opcode::Rts => "RTS"@,
            Opcode::Sbc => "SBC"@,
            Opcode::Sec => "SEC"@,
            Opcode::Sed => "SED"@,
            Opcode::Sei => "SEI"@,
            Opcode::Sta => "STA"@,
            Opcode::Stx => "STX"@,
            Opcode::Sty => "STY"@,
            Opcode::Tax => "TAX"@,
            Opcode::Tay => "TAY"@,
            Opcode::Tsx => "TSX"@,
            Opcode::Txa => "TXA"@,
            Opcode::Txs => "TXS"@,
            Opcode::Tya => "TYA"@,
            Opcode::Kil => "KIL"@,
        }
    }

    /// The mnemonic as a string, e.g. `"LDA"`.
    pub fn name(&self) -> (s: String)
        ensures
            s@ == self.mnemonic(),
    {
        let text: &str = match self {
            Opcode::Adc => "ADC",
            Opcode::And => "AND",
            Opcode::Asl => "ASL",
            Opcode::Bcc => "BCC",
            Opcode::Bcs => "BCS",
            Opcode::Beq => "BEQ",
            Opcode::Bit => "BIT",
            Opcode::Bmi => "BMI",
            Opcode::Bne => "BNE",
            Opcode::Bpl => "BPL",
            Opcode::Brk => "BRK",
            Opcode::Bvc => "BVC",
            Opcode::Bvs => "BVS",
            Opcode::Clc => "CLC",
            Opcode::Cld => "CLD",
            Opcode::Cli => "CLI",
            Opcode::Clv => "CLV",
            Opcode::Cmp => "CMP",
            Opcode::Cpx => "CPX",
            Opcode::Cpy => "CPY",
            Opcode::Dec => "DEC",
            Opcode::Dex => "DEX",
            Opcode::Dey => "DEY",
            Opcode::Eor => "EOR",
            Opcode::Inc => "INC",
            Opcode::Inx => "INX",
            Opcode::Iny => "INY",
            Opcode::Jmp => "JMP",
            Opcode::Jsr => "JSR",
            Opcode::Lda => "LDA",
            Opcode::Ldx => "LDX",
            Opcode::Ldy => "LDY",
            Opcode::Lsr => "LSR",
            Opcode::Nop => "NOP",
            Opcode::Ora => "ORA",
            Opcode::Pha => "PHA",
            Opcode::Php => "PHP",
            Opcode::Pla => "PLA",
            Opcode::Plp => "PLP",
            Opcode::Rol => "ROL",
            Opcode::Ror => "ROR",
            Opcode::Rti => "RTI",
            Opcode::Rts => "RTS",
            Opcode::Sbc => "SBC",
            Opcode::Sec => "SEC",
            Opcode::Sed => "SED",
            Opcode::Sei => "SEI",
            Opcode::Sta => "STA",
            Opcode::Stx => "STX",
            Opcode::Sty => "STY",
            Opcode::Tax => "TAX",
            Opcode::Tay => "TAY",
            Opcode::Tsx => "TSX",
            Opcode::Txa => "TXA",
            Opcode::Txs => "TXS",
            Opcode::Tya => "TYA",
            Opcode::Kil => "KIL",
        };
        String::from_str(text)
    }
}

/// One entry of the decode table.
#[derive(Debug, PartialEq)]
pub struct Instruction {
    /// Assembler mnemonic.
    pub name: String,
    /// The operation.
    pub opcode: Opcode,
    /// How the operand is found.
    pub addr_mode: AddressingMode,
    /// Base number of clock ticks, before any page-cross or branch penalty.
    pub cycles: u8,
}

impl Instruction {
    pub fn new(name: String, opcode: Opcode, addr_mode: AddressingMode, cycles: u8) -> (ins: Instruction)
        ensures
            ins.name@ == name@,
            ins.opcode == opcode,
            ins.addr_mode == addr_mode,
            ins.cycles == cycles,
    {
        Instruction { name, opcode, addr_mode, cycles }
    }
}

/// The decode table of the 6502: operation, addressing mode and base cycle
/// count of the instruction that opcode byte `b` starts.
pub open spec fn decode(b: u8) -> (Opcode, AddressingMode, u8) {
    match b {
        0x00 => (Opcode::Brk, AddressingMode::Implied, 7),
        0x01 => (Opcode::Ora, AddressingMode::Indirect_X, 6),
        0x02 => (Opcode::Kil, AddressingMode::Implied, 2),
        0x03 => (Opcode::Kil, AddressingMode::Implied, 8),
        0x04 => (Opcode::Kil, AddressingMode::Implied, 3),
        0x05 => (Opcode::Ora, AddressingMode::ZeroPage, 3),
        0x06 => (Opcode::Asl, AddressingMode::ZeroPage, 5),
        0x07 => (Opcode::Kil, AddressingMode::Implied, 5),
        0x08 => (Opcode::Php, AddressingMode::Implied, 3),
        0x09 => (Opcode::Ora, AddressingMode::Immediate, 2),
        0x0A => (Opcode::Asl, AddressingMode::Implied, 2),
        0x0B => (Opcode::Kil, AddressingMode::Implied, 2),
        0x0C => (Opcode::Nop, AddressingMode::Implied, 4),
        0x0D => (Opcode::Ora, AddressingMode::Absolute, 4),
        0x0E => (Opcode::Asl, AddressingMode::Absolute, 6),
        0x0F => (Opcode::Kil, AddressingMode::Implied, 6),
        0x10 => (Opcode::Bpl, AddressingMode::Relative, 2),
        0x11 => (Opcode::Ora, AddressingMode::Indirect_Y, 5),
        0x12 => (Opcode::Kil, AddressingMode::Implied, 2),
        0x13 => (Opcode::Kil, AddressingMode::Implied, 8),
        0x14 => (Opcode::Kil, AddressingMode::Implied, 4),
        0x15 => (Opcode::Ora, AddressingMode::ZeroPage_X, 4),
        0x16 => (Opcode::Asl, AddressingMode::ZeroPage_X, 6),
        0x17 => (Opcode::Kil, AddressingMode::Implied, 6),
        0x18 => (Opcode::Clc, AddressingMode::Implied, 2),
        0x19 => (Opcode::Ora, AddressingMode::Absolute_Y, 4),
        0x1A => (Opcode::Nop, AddressingMode::Implied, 2),
        0x1B => (Opcode::Kil, AddressingMode::Implied, 2),
        0x1C => (Opcode::Nop, AddressingMode::Implied, 4),
        0x1D => (Opcode::Ora, AddressingMode::Absolute_X, 4),
        0x1E => (Opcode::Asl, AddressingMode::Absolute_X, 7),
        0x1F => (Opcode::Kil, AddressingMode::Implied, 7),
        0x20 => (Opcode::Jsr, AddressingMode::Absolute, 6),
        0x21 => (Opcode::And, AddressingMode::Indirect_X, 6),
        0x22 => (Opcode::Kil, AddressingMode::Implied, 2),
        0x23 => (Opcode::Kil, AddressingMode::Implied, 8),
        0x24 => (Opcode::Bit, AddressingMode::ZeroPage, 3),
        0x25 => (Opcode::And, AddressingMode::ZeroPage, 3),
        0x26 => (Opcode::Rol, AddressingMode::ZeroPage, 5),
        0x27 => (Opcode::Kil, AddressingMode::Implied, 5),
        0x28 => (Opcode::Plp, AddressingMode::Implied, 4),
        0x29 => (Opcode::And, AddressingMode::Immediate, 2),
        0x2A => (Opcode::Rol, AddressingMode::Implied, 2),
        0x2B => (Opcode::Kil, AddressingMode::Implied, 2),
        0x2C => (Opcode::Bit, AddressingMode::Absolute, 4),
        0x2D => (Opcode::And, AddressingMode::Absolute, 4),
        0x2E => (Opcode::Rol, AddressingMode::Absolute, 6),
        0x2F => (Opcode::Kil, AddressingMode::Implied, 6),
        0x30 => (Opcode::Bmi, AddressingMode::Relative, 2),
        0x31 => (Opcode::And, AddressingMode::Indirect_Y, 5),
        0x32 => (Opcode::Kil, AddressingMode::Implied, 2),
        0x33 => (Opcode::Kil, AddressingMode::Implied, 8),
        0x34 => (Opcode::Kil, AddressingMode::Implied, 4),
        0x35 => (Opcode::And, AddressingMode::ZeroPage_X, 4),
        0x36 => (Opcode::Rol, AddressingMode::ZeroPage_X, 6),
        0x37 => (Opcode::Kil, AddressingMode::Implied, 6),
        0x38 => (Opcode::Sec, AddressingMode::Implied, 2),
        0x39 => (Opcode::And, AddressingMode::Absolute_Y, 4),
        0x3A => (Opcode::Nop, AddressingMode::Implied, 2),
        0x3B => (Opcode::Kil, AddressingMode::Implied, 2),
        0x3C => (Opcode::Nop, AddressingMode::Implied, 4),
        0x3D => (Opcode::And, AddressingMode::Absolute_X, 4),
        0x3E => (Opcode::Rol, AddressingMode::Absolute_X, 7),
        0x3F => (Opcode::Kil, AddressingMode::Implied, 7),
        0x40 => (Opcode::Rti, AddressingMode::Implied, 6),
        0x41 => (Opcode::Eor, AddressingMode::Indirect_X, 6),
        0x42 => (Opcode::Kil, AddressingMode::Implied, 2),
        0x43 => (Opcode::Kil, AddressingMode::Implied, 8),
        0x44 => (Opcode::Kil, AddressingMode::Implied, 3),
        0x45 => (Opcode::Eor, AddressingMode::ZeroPage, 3),
        0x46 => (Opcode::Lsr, AddressingMode::ZeroPage, 5),
        0x47 => (Opcode::Kil, AddressingMode::Implied, 5),
        0x48 => (Opcode::Pha, AddressingMode::Implied, 3),
        0x49 => (Opcode::Eor, AddressingMode::Immediate, 2),
        0x4A => (Opcode::Lsr, AddressingMode::Implied, 2),
        0x4B => (Opcode::Kil, AddressingMode::Implied, 2),
        0x4C => (Opcode::Jmp, AddressingMode::Absolute, 3),
        0x4D => (Opcode::Eor, AddressingMode::Absolute, 4),
        0x4E => (Opcode::Lsr, AddressingMode::Absolute, 6),
        0x4F => (Opcode::Kil, AddressingMode::Implied, 6),
        0x50 => (Opcode::Bvc, AddressingMode::Relative, 2),
        0x51 => (Opcode::Eor, AddressingMode::Indirect_Y, 5),
        0x52 => (Opcode::Kil, AddressingMode::Implied, 2),
        0x53 => (Opcode::Kil, AddressingMode::Implied, 8),
        0x54 => (Opcode::Kil, AddressingMode::Implied, 4),
        0x55 => (Opcode::Eor, AddressingMode::ZeroPage_X, 4),
        0x56 => (Opcode::Lsr, AddressingMode::ZeroPage_X, 6),
        0x57 => (Opcode::Kil, AddressingMode::Implied, 6),
        0x58 => (Opcode::Cli, AddressingMode::Implied, 2),
        0x59 => (Opcode::Eor, AddressingMode::Absolute_Y, 4),
        0x5A => (Opcode::Nop, AddressingMode::Implied, 2),
        0x5B => (Opcode::Kil, AddressingMode::Implied, 2),
        0x5C => (Opcode::Nop, AddressingMode::Implied, 4),
        0x5D => (Opcode::Eor, AddressingMode::Absolute_X, 4),
        0x5E => (Opcode::Lsr, AddressingMode::Absolute_X, 7),
        0x5F => (Opcode::Kil, AddressingMode::Implied, 7),
        0x60 => (Opcode::Rts, AddressingMode::Implied, 6),
        0x61 => (Opcode::Adc, AddressingMode::Indirect_X, 6),
        0x62 => (Opcode::Kil, AddressingMode::Implied, 2),
        0x63 => (Opcode::Kil, AddressingMode::Implied, 8),
        0x64 => (Opcode::Kil, AddressingMode::Implied, 3),
        0x65 => (Opcode::Adc, AddressingMode::ZeroPage, 3),
        0x66 => (Opcode::Ror, AddressingMode::ZeroPage, 5),
        0x67 => (Opcode::Kil, AddressingMode::Implied, 5),
        0x68 => (Opcode::Pla, AddressingMode::Implied, 4),
        0x69 => (Opcode::Adc, AddressingMode::Immediate, 2),
        0x6A => (Opcode::Ror, AddressingMode::Implied, 2),
        0x6B => (Opcode::Kil, AddressingMode::Implied, 2),
        0x6C => (Opcode::Jmp, AddressingMode::Indirect, 5),
        0x6D => (Opcode::Adc, AddressingMode::Absolute, 4),
        0x6E => (Opcode::Ror, AddressingMode::Absolute, 6),
        0x6F => (Opcode::Kil, AddressingMode::Implied, 6),
        0x70 => (Opcode::Bvs, AddressingMode::Relative, 2),
        0x71 => (Opcode::Adc, AddressingMode::Indirect_Y, 5),
        0x72 => (Opcode::Kil, AddressingMode::Implied, 2),
        0x73 => (Opcode::Kil, AddressingMode::Implied, 8),
        0x74 => (Opcode::Kil, AddressingMode::Implied, 4),
        0x75 => (Opcode::Adc, AddressingMode::ZeroPage_X, 4),
        0x76 => (Opcode::Ror, AddressingMode::ZeroPage_X, 6),
        0x77 => (Opcode::Kil, AddressingMode::Implied, 6),
        0x78 => (Opcode::Sei, AddressingMode::Implied, 2),
        0x79 => (Opcode::Adc, AddressingMode::Absolute_Y, 4),
        0x7A => (Opcode::Nop, AddressingMode::Implied, 2),
        0x7B => (Opcode::Kil, AddressingMode::Implied, 2),
        0x7C => (Opcode::Nop, AddressingMode::Implied, 4),
        0x7D => (Opcode::Adc, AddressingMode::Absolute_X, 4),
        0x7E => (Opcode::Ror, AddressingMode::Absolute_X, 7),
        0x7F => (Opcode::Kil, AddressingMode::Implied, 7),
        0x80 => (Opcode::Kil, AddressingMode::Implied, 2),
        0x81 => (Opcode::Sta, AddressingMode::Indirect_X, 6),
        0x82 => (Opcode::Kil, AddressingMode::Implied, 2),
        0x83 => (Opcode::Kil, AddressingMode::Implied, 6),
        0x84 => (Opcode::Sty, AddressingMode::ZeroPage, 3),
        0x85 => (Opcode::Sta, AddressingMode::ZeroPage, 3),
        0x86 => (Opcode::Stx, AddressingMode::ZeroPage, 3),
        0x87 => (Opcode::Kil, AddressingMode::Implied, 5),
        0x88 => (Opcode::Dey, AddressingMode::Implied, 2),
        0x89 => (Opcode::Kil, AddressingMode::Implied, 2),
        0x8A => (Opcode::Txa, AddressingMode::Implied, 2),
        0x8B => (Opcode::Kil, AddressingMode::Implied, 2),
        0x8C => (Opcode::Sty, AddressingMode::Absolute, 4),
        0x8D => (Opcode::Sta, AddressingMode::Absolute, 4),
        0x8E => (Opcode::Stx, AddressingMode::Absolute, 4),
        0x8F => (Opcode::Kil, AddressingMode::Implied, 4),
        0x90 => (Opcode::Bcc, AddressingMode::Relative, 2),
        0x91 => (Opcode::Sta, AddressingMode::Indirect_Y, 6),
        0x92 => (Opcode::Kil, AddressingMode::Implied, 2),
        0x93 => (Opcode::Kil, AddressingMode::Implied, 6),
        0x94 => (Opcode::Sty, AddressingMode::ZeroPage_X, 4),
        0x95 => (Opcode::Sta, AddressingMode::ZeroPage_X, 4),
        0x96 => (Opcode::Stx, AddressingMode::ZeroPage_Y, 4),
        0x97 => (Opcode::Kil, AddressingMode::Implied, 6),
        0x98 => (Opcode::Tya, AddressingMode::Implied, 2),
        0x99 => (Opcode::Sta, AddressingMode::Absolute_Y, 5),
        0x9A => (Opcode::Txs, AddressingMode::Implied, 2),
        0x9B => (Opcode::Kil, AddressingMode::Implied, 2),
        0x9C => (Opcode::Nop, AddressingMode::Implied, 5),
        0x9D => (Opcode::Sta, AddressingMode::Absolute_X, 5),
        0x9E => (Opcode::Kil, AddressingMode::Implied, 5),
        0x9F => (Opcode::Kil, AddressingMode::Implied, 5),
        0xA0 => (Opcode::Ldy, AddressingMode::Immediate, 2),
        0xA1 => (Opcode::Lda, AddressingMode::Indirect_X, 6),
        0xA2 => (Opcode::Ldx, AddressingMode::Immediate, 2),
        0xA3 => (Opcode::Kil, AddressingMode::Implied, 6),
        0xA4 => (Opcode::Ldy, AddressingMode::ZeroPage, 3),
        0xA5 => (Opcode::Lda, AddressingMode::ZeroPage, 3),
        0xA6 => (Opcode::Ldx, AddressingMode::ZeroPage, 3),
        0xA7 => (Opcode::Kil, AddressingMode::Implied, 5),
        0xA8 => (Opcode::Tay, AddressingMode::Implied, 2),
        0xA9 => (Opcode::Lda, AddressingMode::Immediate, 2),
        0xAA => (Opcode::Tax, AddressingMode::Implied, 2),
        0xAB => (Opcode::Kil, AddressingMode::Implied, 2),
        0xAC => (Opcode::Ldy, AddressingMode::Absolute, 4),
        0xAD => (Opcode::Lda, AddressingMode::Absolute, 4),
        0xAE => (Opcode::Ldx, AddressingMode::Absolute, 4),
        0xAF => (Opcode::Kil, AddressingMode::Implied, 4),
        0xB0 => (Opcode::Bcs, AddressingMode::Relative, 2),
        0xB1 => (Opcode::Lda, AddressingMode::Indirect_Y, 5),
        0xB2 => (Opcode::Kil, AddressingMode::Implied, 2),
        0xB3 => (Opcode::Kil, AddressingMode::Implied, 5),
        0xB4 => (Opcode::Ldy, AddressingMode::ZeroPage_X, 4),
        0xB5 => (Opcode::Lda, AddressingMode::ZeroPage_X, 4),
        0xB6 => (Opcode::Ldx, AddressingMode::ZeroPage_Y, 4),
        0xB7 => (Opcode::Kil, AddressingMode::Implied, 6),
        0xB8 => (Opcode::Clv, AddressingMode::Implied, 2),
        0xB9 => (Opcode::Lda, AddressingMode::Absolute_Y, 4),
        0xBA => (Opcode::Tsx, AddressingMode::Implied, 2),
        0xBB => (Opcode::Kil, AddressingMode::Implied, 2),
        0xBC => (Opcode::Ldy, AddressingMode::Absolute_X, 4),
        0xBD => (Opcode::Lda, AddressingMode::Absolute_X, 4),
        0xBE => (Opcode::Ldx, AddressingMode::Absolute_Y, 4),
        0xBF => (Opcode::Kil, AddressingMode::Implied, 4),
        0xC0 => (Opcode::Cpy, AddressingMode::Immediate, 2),
        0xC1 => (Opcode::Cmp, AddressingMode::Indirect_X, 6),
        0xC2 => (Opcode::Kil, AddressingMode::Implied, 2),
        0xC3 => (Opcode::Kil, AddressingMode::Implied, 8),
        0xC4 => (Opcode::Cpy, AddressingMode::ZeroPage, 3),
        0xC5 => (Opcode::Cmp, AddressingMode::ZeroPage, 3),
        0xC6 => (Opcode::Dec, AddressingMode::ZeroPage, 5),
        0xC7 => (Opcode::Kil, AddressingMode::Implied, 5),
        0xC8 => (Opcode::Iny, AddressingMode::Implied, 2),
        0xC9 => (Opcode::Cmp, AddressingMode::Immediate, 2),
        0xCA => (Opcode::Dex, AddressingMode::Implied, 2),
        0xCB => (Opcode::Kil, AddressingMode::Implied, 2),
        0xCC => (Opcode::Cpy, AddressingMode::Absolute, 4),
        0xCD => (Opcode::Cmp, AddressingMode::Absolute, 4),
        0xCE => (Opcode::Dec, AddressingMode::Absolute, 6),
        0xCF => (Opcode::Kil, AddressingMode::Implied, 6),
        0xD0 => (Opcode::Bne, AddressingMode::Relative, 2),
        0xD1 => (Opcode::Cmp, AddressingMode::Indirect_Y, 5),
        0xD2 => (Opcode::Kil, AddressingMode::Implied, 2),
        0xD3 => (Opcode::Kil, AddressingMode::Implied, 8),
        0xD4 => (Opcode::Kil, AddressingMode::Implied, 4),
        0xD5 => (Opcode::Cmp, AddressingMode::ZeroPage_X, 4),
        0xD6 => (Opcode::Dec, AddressingMode::ZeroPage_X, 6),
        0xD7 => (Opcode::Kil, AddressingMode::Implied, 6),
        0xD8 => (Opcode::Cld, AddressingMode::Implied, 2),
        0xD9 => (Opcode::Cmp, AddressingMode::Absolute_Y, 4),
        0xDA => (Opcode::Nop, AddressingMode::Implied, 2),
        0xDB => (Opcode::Kil, AddressingMode::Implied, 2),
        0xDC => (Opcode::Nop, AddressingMode::Implied, 4),
        0xDD => (Opcode::Cmp, AddressingMode::Absolute_X, 4),
        0xDE => (Opcode::Dec, AddressingMode::Absolute_X, 7),
        0xDF => (Opcode::Kil, AddressingMode::Implied, 7),
        0xE0 => (Opcode::Cpx, AddressingMode::Immediate, 2),
        0xE1 => (Opcode::Sbc, AddressingMode::Indirect_X, 6),
        0xE2 => (Opcode::Kil, AddressingMode::Implied, 2),
        0xE3 => (Opcode::Kil, AddressingMode::Implied, 8),
        0xE4 => (Opcode::Cpx, AddressingMode::ZeroPage, 3),
        0xE5 => (Opcode::Sbc, AddressingMode::ZeroPage, 3),
        0xE6 => (Opcode::Inc, AddressingMode::ZeroPage, 5),
        0xE7 => (Opcode::Kil, AddressingMode::Implied, 5),
        0xE8 => (Opcode::Inx, AddressingMode::Implied, 2),
        0xE9 => (Opcode::Sbc, AddressingMode::Immediate, 2),
        0xEA => (Opcode::Nop, AddressingMode::Implied, 2),
        0xEB => (Opcode::Kil, AddressingMode::Implied, 2),
        0xEC => (Opcode::Cpx, AddressingMode::Absolute, 4),
        0xED => (Opcode::Sbc, AddressingMode::Absolute, 4),
        0xEE => (Opcode::Inc, AddressingMode::Absolute, 6),
        0xEF => (Opcode::Kil, AddressingMode::Implied, 6),
        0xF0 => (Opcode::Beq, AddressingMode::Relative, 2),
        0xF1 => (Opcode::Sbc, AddressingMode::Indirect_Y, 5),
        0xF2 => (Opcode::Kil, AddressingMode::Implied, 2),
        0xF3 => (Opcode::Kil, AddressingMode::Implied, 8),
        0xF4 => (Opcode::Kil, AddressingMode::Implied, 4),
        0xF5 => (Opcode::Sbc, AddressingMode::ZeroPage_X, 4),
        0xF6 => (Opcode::Inc, AddressingMode::ZeroPage_X, 6),
        0xF7 => (Opcode::Kil, AddressingMode::Implied, 6),
        0xF8 => (Opcode::Sed, AddressingMode::Implied, 2),
        0xF9 => (Opcode::Sbc, AddressingMode::Absolute_Y, 4),
        0xFA => (Opcode::Nop, AddressingMode::Implied, 2),
        0xFB => (Opcode::Kil, AddressingMode::Implied, 2),
        0xFC => (Opcode::Nop, AddressingMode::Implied, 4),
        0xFD => (Opcode::Sbc, AddressingMode::Absolute_X, 4),
        0xFE => (Opcode::Inc, AddressingMode::Absolute_X, 7),
        _ => (Opcode::Kil, AddressingMode::Implied, 7),
    }
}

/// Operation of the instruction that opcode byte `b` starts.
pub open spec fn decoded_opcode(b: u8) -> Opcode {
    decode(b).0
}

/// Addressing mode of the instruction that opcode byte `b` starts.
pub open spec fn decoded_mode(b: u8) -> AddressingMode {
    decode(b).1
}

/// Base cycle count of the instruction that opcode byte `b` starts.
pub open spec fn decoded_cycles(b: u8) -> u8 {
    decode(b).2
}

/// Every instruction takes between two and eight base cycles.
pub proof fn lemma_cycles_bounded(b: u8)
    ensures
        2 <= decoded_cycles(b) <= 8,
{
}

/// The decode-table entry for opcode byte `b`, without its mnemonic.
pub fn decode_entry(b: u8) -> (e: (Opcode, AddressingMode, u8))
    ensures
        e == decode(b),
{
    match b {
        0x00 => (Opcode::Brk, AddressingMode::Implied, 7),
        0x01 => (Opcode::Ora, AddressingMode::Indirect_X, 6),
        0x02 => (Opcode::Kil, AddressingMode::Implied, 2),
        0x03 => (Opcode::Kil, AddressingMode::Implied, 8),
        0x04 => (Opcode::Kil, AddressingMode::Implied, 3),
        0x05 => (Opcode::Ora, AddressingMode::ZeroPage, 3),
        0x06 => (Opcode::Asl, AddressingMode::ZeroPage, 5),
        0x07 => (Opcode::Kil, AddressingMode::Implied, 5),
        0x08 => (Opcode::Php, AddressingMode::Implied, 3),
        0x09 => (Opcode::Ora, AddressingMode::Immediate, 2),
        0x0A => (Opcode::Asl, AddressingMode::Implied, 2),
        0x0B => (Opcode::Kil, AddressingMode::Implied, 2),
        0x0C => (Opcode::Nop, AddressingMode::Implied, 4),
        0x0D => (Opcode::Ora, AddressingMode::Absolute, 4),
        0x0E => (Opcode::Asl, AddressingMode::Absolute, 6),
        0x0F => (Opcode::Kil, AddressingMode::Implied, 6),
        0x10 => (Opcode::Bpl, AddressingMode::Relative, 2),
        0x11 => (Opcode::Ora, AddressingMode::Indirect_Y, 5),
        0x12 => (Opcode::Kil, AddressingMode::Implied, 2),
        0x13 => (Opcode::Kil, AddressingMode::Implied, 8),
        0x14 => (Opcode::Kil, AddressingMode::Implied, 4),
        0x15 => (Opcode::Ora, AddressingMode::ZeroPage_X, 4),
        0x16 => (Opcode::Asl, AddressingMode::ZeroPage_X, 6),
        0x17 => (Opcode::Kil, AddressingMode::Implied, 6),
        0x18 => (Opcode::Clc, AddressingMode::Implied, 2),
        0x19 => (Opcode::Ora, AddressingMode::Absolute_Y, 4),
        0x1A => (Opcode::Nop, AddressingMode::Implied, 2),
        0x1B => (Opcode::Kil, AddressingMode::Implied, 2),
        0x1C => (Opcode::Nop, AddressingMode::Implied, 4),
        0x1D => (Opcode::Ora, AddressingMode::Absolute_X, 4),
        0x1E => (Opcode::Asl, AddressingMode::Absolute_X, 7),
        0x1F => (Opcode::Kil, AddressingMode::Implied, 7),
        0x20 => (Opcode::Jsr, AddressingMode::Absolute, 6),
        0x21 => (Opcode::And, AddressingMode::Indirect_X, 6),
        0x22 => (Opcode::Kil, AddressingMode::Implied, 2),
        0x23 => (Opcode::Kil, AddressingMode::Implied, 8),
        0x24 => (Opcode::Bit, AddressingMode::ZeroPage, 3),
        0x25 => (Opcode::And, AddressingMode::ZeroPage, 3),
        0x26 => (Opcode::Rol, AddressingMode::ZeroPage, 5),
        0x27 => (Opcode::Kil, AddressingMode::Implied, 5),
        0x28 => (Opcode::Plp, AddressingMode::Implied, 4),
        0x29 => (Opcode::And, AddressingMode::Immediate, 2),
        0x2A => (Opcode::Rol, AddressingMode::Implied, 2),
        0x2B => (Opcode::Kil, AddressingMode::Implied, 2),
        0x2C => (Opcode::Bit, AddressingMode::Absolute, 4),
        0x2D => (Opcode::And, AddressingMode::Absolute, 4),
        0x2E => (Opcode::Rol, AddressingMode::Absolute, 6),
        0x2F => (Opcode::Kil, AddressingMode::Implied, 6),
        0x30 => (Opcode::Bmi, AddressingMode::Relative, 2),
        0x31 => (Opcode::And, AddressingMode::Indirect_Y, 5),
        0x32 => (Opcode::Kil, AddressingMode::Implied, 2),
        0x33 => (Opcode::Kil, AddressingMode::Implied, 8),
        0x34 => (Opcode::Kil, AddressingMode::Implied, 4),
        0x35 => (Opcode::And, AddressingMode::ZeroPage_X, 4),
        0x36 => (Opcode::Rol, AddressingMode::ZeroPage_X, 6),
        0x37 => (Opcode::Kil, AddressingMode::Implied, 6),
        0x38 => (Opcode::Sec, AddressingMode::Implied, 2),
        0x39 => (Opcode::And, AddressingMode::Absolute_Y, 4),
        0x3A => (Opcode::Nop, AddressingMode::Implied, 2),
        0x3B => (Opcode::Kil, AddressingMode::Implied, 2),
        0x3C => (Opcode::Nop, AddressingMode::Implied, 4),
        0x3D => (Opcode::And, AddressingMode::Absolute_X, 4),
        0x3E => (Opcode::Rol, AddressingMode::Absolute_X, 7),
        0x3F => (Opcode::Kil, AddressingMode::Implied, 7),
        0x40 => (Opcode::Rti, AddressingMode::Implied, 6),
        0x41 => (Opcode::Eor, AddressingMode::Indirect_X, 6),
        0x42 => (Opcode::Kil, AddressingMode::Implied, 2),
        0x43 => (Opcode::Kil, AddressingMode::Implied, 8),
        0x44 => (Opcode::Kil, AddressingMode::Implied, 3),
        0x45 => (Opcode::Eor, AddressingMode::ZeroPage, 3),
        0x46 => (Opcode::Lsr, AddressingMode::ZeroPage, 5),
        0x47 => (Opcode::Kil, AddressingMode::Implied, 5),
        0x48 => (Opcode::Pha, AddressingMode::Implied, 3),
        0x49 => (Opcode::Eor, AddressingMode::Immediate, 2),
        0x4A => (Opcode::Lsr, AddressingMode::Implied, 2),
        0x4B => (Opcode::Kil, AddressingMode::Implied, 2),
        0x4C => (Opcode::Jmp, AddressingMode::Absolute, 3),
        0x4D => (Opcode::Eor, AddressingMode::Absolute, 4),
        0x4E => (Opcode::Lsr, AddressingMode::Absolute, 6),
        0x4F => (Opcode::Kil, AddressingMode::Implied, 6),
        0x50 => (Opcode::Bvc, AddressingMode::Relative, 2),
        0x51 => (Opcode::Eor, AddressingMode::Indirect_Y, 5),
        0x52 => (Opcode::Kil, AddressingMode::Implied, 2),
        0x53 => (Opcode::Kil, AddressingMode::Implied, 8),
        0x54 => (Opcode::Kil, AddressingMode::Implied, 4),
        0x55 => (Opcode::Eor, AddressingMode::ZeroPage_X, 4),
        0x56 => (Opcode::Lsr, AddressingMode::ZeroPage_X, 6),
        0x57 => (Opcode::Kil, AddressingMode::Implied, 6),
        0x58 => (Opcode::Cli, AddressingMode::Implied, 2),
        0x59 => (Opcode::Eor, AddressingMode::Absolute_Y, 4),
        0x5A => (Opcode::Nop, AddressingMode::Implied, 2),
        0x5B => (Opcode::Kil, AddressingMode::Implied, 2),
        0x5C => (Opcode::Nop, AddressingMode::Implied, 4),
        0x5D => (Opcode::Eor, AddressingMode::Absolute_X, 4),
        0x5E => (Opcode::Lsr, AddressingMode::Absolute_X, 7),
        0x5F => (Opcode::Kil, AddressingMode::Implied, 7),
        0x60 => (Opcode::Rts, AddressingMode::Implied, 6),
        0x61 => (Opcode::Adc, AddressingMode::Indirect_X, 6),
        0x62 => (Opcode::Kil, AddressingMode::Implied, 2),
        0x63 => (Opcode::Kil, AddressingMode::Implied, 8),
        0x64 => (Opcode::Kil, AddressingMode::Implied, 3),
        0x65 => (Opcode::Adc, AddressingMode::ZeroPage, 3),
        0x66 => (Opcode::Ror, AddressingMode::ZeroPage, 5),
        0x67 => (Opcode::Kil, AddressingMode::Implied, 5),
        0x68 => (Opcode::Pla, AddressingMode::Implied, 4),
        0x69 => (Opcode::Adc, AddressingMode::Immediate, 2),
        0x6A => (Opcode::Ror, AddressingMode::Implied, 2),
        0x6B => (Opcode::Kil, AddressingMode::Implied, 2),
        0x6C => (Opcode::Jmp, AddressingMode::Indirect, 5),
        0x6D => (Opcode::Adc, AddressingMode::Absolute, 4),
        0x6E => (Opcode::Ror, AddressingMode::Absolute, 6),
        0x6F => (Opcode::Kil, AddressingMode::Implied, 6),
        0x70 => (Opcode::Bvs, AddressingMode::Relative, 2),
        0x71 => (Opcode::Adc, AddressingMode::Indirect_Y, 5),
        0x72 => (Opcode::Kil, AddressingMode::Implied, 2),
        0x73 => (Opcode::Kil, AddressingMode::Implied, 8),
        0x74 => (Opcode::Kil, AddressingMode::Implied, 4),
        0x75 => (Opcode::Adc, AddressingMode::ZeroPage_X, 4),
        0x76 => (Opcode::Ror, AddressingMode::ZeroPage_X, 6),
        0x77 => (Opcode::Kil, AddressingMode::Implied, 6),
        0x78 => (Opcode::Sei, AddressingMode::Implied, 2),
        0x79 => (Opcode::Adc, AddressingMode::Absolute_Y, 4),
        0x7A => (Opcode::Nop, AddressingMode::Implied, 2),
        0x7B => (Opcode::Kil, AddressingMode::Implied, 2),
        0x7C => (Opcode::Nop, AddressingMode::Implied, 4),
        0x7D => (Opcode::Adc, AddressingMode::Absolute_X, 4),
        0x7E => (Opcode::Ror, AddressingMode::Absolute_X, 7),
        0x7F => (Opcode::Kil, AddressingMode::Implied, 7),
        0x80 => (Opcode::Kil, AddressingMode::Implied, 2),
        0x81 => (Opcode::Sta, AddressingMode::Indirect_X, 6),
        0x82 => (Opcode::Kil, AddressingMode::Implied, 2),
        0x83 => (Opcode::Kil, AddressingMode::Implied, 6),
        0x84 => (Opcode::Sty, AddressingMode::ZeroPage, 3),
        0x85 => (Opcode::Sta, AddressingMode::ZeroPage, 3),
        0x86 => (Opcode::Stx, AddressingMode::ZeroPage, 3),
        0x87 => (Opcode::Kil, AddressingMode::Implied, 5),
        0x88 => (Opcode::Dey, AddressingMode::Implied, 2),
        0x89 => (Opcode::Kil, AddressingMode::Implied, 2),
        0x8A => (Opcode::Txa, AddressingMode::Implied, 2),
        0x8B => (Opcode::Kil, AddressingMode::Implied, 2),
        0x8C => (Opcode::Sty, AddressingMode::Absolute, 4),
        0x8D => (Opcode::Sta, AddressingMode::Absolute, 4),
        0x8E => (Opcode::Stx, AddressingMode::Absolute, 4),
        0x8F => (Opcode::Kil, AddressingMode::Implied, 4),
        0x90 => (Opcode::Bcc, AddressingMode::Relative, 2),
        0x91 => (Opcode::Sta, AddressingMode::Indirect_Y, 6),
        0x92 => (Opcode::Kil, AddressingMode::Implied, 2),
        0x93 => (Opcode::Kil, AddressingMode::Implied, 6),
        0x94 => (Opcode::Sty, AddressingMode::ZeroPage_X, 4),
        0x95 => (Opcode::Sta, AddressingMode::ZeroPage_X, 4),
        0x96 => (Opcode::Stx, AddressingMode::ZeroPage_Y, 4),
        0x97 => (Opcode::Kil, AddressingMode::Implied, 6),
        0x98 => (Opcode::Tya, AddressingMode::Implied, 2),
        0x99 => (Opcode::Sta, AddressingMode::Absolute_Y, 5),
        0x9A => (Opcode::Txs, AddressingMode::Implied, 2),
        0x9B => (Opcode::Kil, AddressingMode::Implied, 2),
        0x9C => (Opcode::Nop, AddressingMode::Implied, 5),
        0x9D => (Opcode::Sta, AddressingMode::Absolute_X, 5),
        0x9E => (Opcode::Kil, AddressingMode::Implied, 5),
        0x9F => (Opcode::Kil, AddressingMode::Implied, 5),
        0xA0 => (Opcode::Ldy, AddressingMode::Immediate, 2),
        0xA1 => (Opcode::Lda, AddressingMode::Indirect_X, 6),
        0xA2 => (Opcode::Ldx, AddressingMode::Immediate, 2),
        0xA3 => (Opcode::Kil, AddressingMode::Implied, 6),
        0xA4 => (Opcode::Ldy, AddressingMode::ZeroPage, 3),
        0xA5 => (Opcode::Lda, AddressingMode::ZeroPage, 3),
        0xA6 => (Opcode::Ldx, AddressingMode::ZeroPage, 3),
        0xA7 => (Opcode::Kil, AddressingMode::Implied, 5),
        0xA8 => (Opcode::Tay, AddressingMode::Implied, 2),
        0xA9 => (Opcode::Lda, AddressingMode::Immediate, 2),
        0xAA => (Opcode::Tax, AddressingMode::Implied, 2),
        0xAB => (Opcode::Kil, AddressingMode::Implied, 2),
        0xAC => (Opcode::Ldy, AddressingMode::Absolute, 4),
        0xAD => (Opcode::Lda, AddressingMode::Absolute, 4),
        0xAE => (Opcode::Ldx, AddressingMode::Absolute, 4),
        0xAF => (Opcode::Kil, AddressingMode::Implied, 4),
        0xB0 => (Opcode::Bcs, AddressingMode::Relative, 2),
        0xB1 => (Opcode::Lda, AddressingMode::Indirect_Y, 5),
        0xB2 => (Opcode::Kil, AddressingMode::Implied, 2),
        0xB3 => (Opcode::Kil, AddressingMode::Implied, 5),
        0xB4 => (Opcode::Ldy, AddressingMode::ZeroPage_X, 4),
        0xB5 => (Opcode::Lda, AddressingMode::ZeroPage_X, 4),
        0xB6 => (Opcode::Ldx, AddressingMode::ZeroPage_Y, 4),
        0xB7 => (Opcode::Kil, AddressingMode::Implied, 6),
        0xB8 => (Opcode::Clv, AddressingMode::Implied, 2),
        0xB9 => (Opcode::Lda, AddressingMode::Absolute_Y, 4),
        0xBA => (Opcode::Tsx, AddressingMode::Implied, 2),
        0xBB => (Opcode::Kil, AddressingMode::Implied, 2),
        0xBC => (Opcode::Ldy, AddressingMode::Absolute_X, 4),
        0xBD => (Opcode::Lda, AddressingMode::Absolute_X, 4),
        0xBE => (Opcode::Ldx, AddressingMode::Absolute_Y, 4),
        0xBF => (Opcode::Kil, AddressingMode::Implied, 4),
        0xC0 => (Opcode::Cpy, AddressingMode::Immediate, 2),
        0xC1 => (Opcode::Cmp, AddressingMode::Indirect_X, 6),
        0xC2 => (Opcode::Kil, AddressingMode::Implied, 2),
        0xC3 => (Opcode::Kil, AddressingMode::Implied, 8),
        0xC4 => (Opcode::Cpy, AddressingMode::ZeroPage, 3),
        0xC5 => (Opcode::Cmp, AddressingMode::ZeroPage, 3),
        0xC6 => (Opcode::Dec, AddressingMode::ZeroPage, 5),
        0xC7 => (Opcode::Kil, AddressingMode::Implied, 5),
        0xC8 => (Opcode::Iny, AddressingMode::Implied, 2),
        0xC9 => (Opcode::Cmp, AddressingMode::Immediate, 2),
        0xCA => (Opcode::Dex, AddressingMode::Implied, 2),
        0xCB => (Opcode::Kil, AddressingMode::Implied, 2),
        0xCC => (Opcode::Cpy, AddressingMode::Absolute, 4),
        0xCD => (Opcode::Cmp, AddressingMode::Absolute, 4),
        0xCE => (Opcode::Dec, AddressingMode::Absolute, 6),
        0xCF => (Opcode::Kil, AddressingMode::Implied, 6),
        0xD0 => (Opcode::Bne, AddressingMode::Relative, 2),
        0xD1 => (Opcode::Cmp, AddressingMode::Indirect_Y, 5),
        0xD2 => (Opcode::Kil, AddressingMode::Implied, 2),
        0xD3 => (Opcode::Kil, AddressingMode::Implied, 8),
        0xD4 => (Opcode::Kil, AddressingMode::Implied, 4),
        0xD5 => (Opcode::Cmp, AddressingMode::ZeroPage_X, 4),
        0xD6 => (Opcode::Dec, AddressingMode::ZeroPage_X, 6),
        0xD7 => (Opcode::Kil, AddressingMode::Implied, 6),
        0xD8 => (Opcode::Cld, AddressingMode::Implied, 2),
        0xD9 => (Opcode::Cmp, AddressingMode::Absolute_Y, 4),
        0xDA => (Opcode::Nop, AddressingMode::Implied, 2),
        0xDB => (Opcode::Kil, AddressingMode::Implied, 2),
        0xDC => (Opcode::Nop, AddressingMode::Implied, 4),
        0xDD => (Opcode::Cmp, AddressingMode::Absolute_X, 4),
        0xDE => (Opcode::Dec, AddressingMode::Absolute_X, 7),
        0xDF => (Opcode::Kil, AddressingMode::Implied, 7),
        0xE0 => (Opcode::Cpx, AddressingMode::Immediate, 2),
        0xE1 => (Opcode::Sbc, AddressingMode::Indirect_X, 6),
        0xE2 => (Opcode::Kil, AddressingMode::Implied, 2),
        0xE3 => (Opcode::Kil, AddressingMode::Implied, 8),
        0xE4 => (Opcode::Cpx, AddressingMode::ZeroPage, 3),
        0xE5 => (Opcode::Sbc, AddressingMode::ZeroPage, 3),
        0xE6 => (Opcode::Inc, AddressingMode::ZeroPage, 5),
        0xE7 => (Opcode::Kil, AddressingMode::Implied, 5),
        0xE8 => (Opcode::Inx, AddressingMode::Implied, 2),
        0xE9 => (Opcode::Sbc, AddressingMode::Immediate, 2),
        0xEA => (Opcode::Nop, AddressingMode::Implied, 2),
        0xEB => (Opcode::Kil, AddressingMode::Implied, 2),
        0xEC => (Opcode::Cpx, AddressingMode::Absolute, 4),
        0xED => (Opcode::Sbc, AddressingMode::Absolute, 4),
        0xEE => (Opcode::Inc, AddressingMode::Absolute, 6),
        0xEF => (Opcode::Kil, AddressingMode::Implied, 6),
        0xF0 => (Opcode::Beq, AddressingMode::Relative, 2),
        0xF1 => (Opcode::Sbc, AddressingMode::Indirect_Y, 5),
        0xF2 => (Opcode::Kil, AddressingMode::Implied, 2),
        0xF3 => (Opcode::Kil, AddressingMode::Implied, 8),
        0xF4 => (Opcode::Kil, AddressingMode::Implied, 4),
        0xF5 => (Opcode::Sbc, AddressingMode::ZeroPage_X, 4),
        0xF6 => (Opcode::Inc, AddressingMode::ZeroPage_X, 6),
        0xF7 => (Opcode::Kil, AddressingMode::Implied, 6),
        0xF8 => (Opcode::Sed, AddressingMode::Implied, 2),
        0xF9 => (Opcode::Sbc, AddressingMode::Absolute_Y, 4),
        0xFA => (Opcode::Nop, AddressingMode::Implied, 2),
        0xFB => (Opcode::Kil, AddressingMode::Implied, 2),
        0xFC => (Opcode::Nop, AddressingMode::Implied, 4),
        0xFD => (Opcode::Sbc, AddressingMode::Absolute_X, 4),
        0xFE => (Opcode::Inc, AddressingMode::Absolute_X, 7),
        _ => (Opcode::Kil, AddressingMode::Implied, 7),
    }
}

/// The full decode-table entry for opcode byte `b`.
pub fn lookup(b: u8) -> (ins: Instruction)
    ensures
        ins.opcode == decoded_opcode(b),
        ins.addr_mode == decoded_mode(b),
        ins.cycles == decoded_cycles(b),
        ins.name@ == decoded_opcode(b).mnemonic(),
{
    let (opcode, addr_mode, cycles) = decode_entry(b);
    Instruction::new(opcode.name(), opcode, addr_mode, cycles)
}

} // verus!
