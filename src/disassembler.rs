//! The disassembler: a listing of the instructions in a range of memory, one
//! line of text per instruction, keyed by the address it starts at.
use vstd::prelude::*;
use vstd::string::StringExecFns;
use fxhash::FxHashMap;
use crate::arith::add16;
use crate::cpu::Cpu;
use crate::instruction::{AddressingMode, decode_entry, decoded_mode, decoded_opcode};
use crate::model::{is_negative, word, wrap16};

verus! {

#[verifier::external_type_specification]
#[verifier::external_body]
pub struct ExFxHasher(fxhash::FxHasher);

#[verifier::external_type_specification]
#[verifier::external_body]
#[verifier::reject_recursive_types(H)]
pub struct ExBuildHasherDefault<H>(std::hash::BuildHasherDefault<H>);

/// The listing of a range of memory: a line of text per instruction, keyed by
/// the address it starts at.
pub type Listing = FxHashMap<u16, String>;

/// Relies on `Default` for `fxhash::FxHashMap`: a new map is empty.
#[verifier::external_body]
fn new_listing() -> (m: Listing)
    ensures
        m@.dom().is_empty(),
{
    FxHashMap::default()
}

/// Relies on `insert` of `fxhash::FxHashMap` (a `HashMap` hashed by the
/// deterministic `FxHasher`): afterwards `k` maps to `v` and every other key
/// keeps its value.
#[verifier::external_body]
fn listing_insert(m: &mut Listing, k: u16, v: String)
    ensures
        final(m)@ == old(m)@.insert(k, v),
{
    m.insert(k, v);
}

/// The upper-case hexadecimal digit of `n` (below 16).
pub open spec fn hex_digit(n: u8) -> Seq<char> {
    match n {
        0 => "0"@,
        1 => "1"@,
        2 => "2"@,
        3 => "3"@,
        4 => "4"@,
        5 => "5"@,
        6 => "6"@,
        7 => "7"@,
        8 => "8"@,
        9 => "9"@,
        10 => "A"@,
        11 => "B"@,
        12 => "C"@,
        13 => "D"@,
        14 => "E"@,
        _ => "F"@,
    }
}

/// `v` as two hexadecimal digits.
pub open spec fn hex2(v: u8) -> Seq<char> {
    hex_digit(v / 16) + hex_digit(v % 16)
}

/// `v` as four hexadecimal digits.
pub open spec fn hex4(v: u16) -> Seq<char> {
    hex2((v / 0x100) as u8) + hex2((v % 0x100) as u8)
}

/// Number of operand bytes that follow the opcode in `mode`.
pub open spec fn operand_width(mode: AddressingMode) -> int {
    match mode {
        AddressingMode::Implied => 0,
        AddressingMode::Absolute | AddressingMode::Absolute_X | AddressingMode::Absolute_Y
        | AddressingMode::Indirect => 2,
        _ => 1,
    }
}

/// The short tag that ends a line, naming the addressing mode.
pub open spec fn mode_tag(mode: AddressingMode) -> Seq<char> {
    match mode {
        AddressingMode::Implied => "IMP"@,
        AddressingMode::Immediate => "IMM"@,
        AddressingMode::ZeroPage => "ZP0"@,
        AddressingMode::ZeroPage_X => "ZPX"@,
        AddressingMode::ZeroPage_Y => "ZPY"@,
        AddressingMode::Relative => "REL"@,
        AddressingMode::Absolute => "ABS"@,
        AddressingMode::Absolute_X => "ABX"@,
        AddressingMode::Absolute_Y => "ABY"@,
        AddressingMode::Indirect => "IND"@,
        AddressingMode::Indirect_X => "IZX"@,
        AddressingMode::Indirect_Y => "IZY"@,
    }
}

/// Where a branch whose offset byte is at `at` lands.
pub open spec fn branch_target(mem: Seq<u8>, at: u16) -> u16 {
    let offset = mem[at as int];
    let rel: int = if is_negative(offset) {
        offset - 0x100
    } else {
        offset as int
    };
    wrap16(at + 1 + rel)
}

/// The operand in 6502 assembler syntax, its first byte being at `at`.
pub open spec fn operand_text(mode: AddressingMode, mem: Seq<u8>, at: u16) -> Seq<char> {
    let b = mem[at as int];
    let w = word(b, mem[wrap16(at + 1) as int]);
    match mode {
        AddressingMode::Implied => Seq::empty(),
        AddressingMode::Immediate => "#$"@ + hex2(b),
        AddressingMode::ZeroPage => "$"@ + hex2(b),
        AddressingMode::ZeroPage_X => "$"@ + hex2(b) + ",X"@,
        AddressingMode::ZeroPage_Y => "$"@ + hex2(b) + ",Y"@,
        AddressingMode::Relative => "$"@ + hex2(b) + " [$"@ + hex4(branch_target(mem, at)) + "]"@,
        AddressingMode::Absolute => "$"@ + hex4(w),
        AddressingMode::Absolute_X => "$"@ + hex4(w) + ",X"@,
        AddressingMode::Absolute_Y => "$"@ + hex4(w) + ",Y"@,
        AddressingMode::Indirect => "($"@ + hex4(w) + ")"@,
        AddressingMode::Indirect_X => "($"@ + hex2(b) + ",X)"@,
        AddressingMode::Indirect_Y => "($"@ + hex2(b) + "),Y"@,
    }
}

/// The listing line of the instruction at `addr`, e.g.
/// `$8000: LDA #$42 {IMM}`.
pub open spec fn line_text(mem: Seq<u8>, addr: u16) -> Seq<char> {
    let op = mem[addr as int];
    let mode = decoded_mode(op);
    "$"@ + hex4(addr) + ": "@ + decoded_opcode(op).mnemonic() + " "@ + operand_text(
        mode,
        mem,
        wrap16(addr + 1),
    ) + " {"@ + mode_tag(mode) + "}"@
}

/// Where the instruction after the one at `addr` starts.
pub open spec fn next_line(mem: Seq<u8>, addr: int) -> int {
    addr + 1 + operand_width(decoded_mode(mem[addr]))
}

/// `acc` with the lines of the instructions from `addr` up to `stop` added,
/// each instruction starting right after the previous one.
pub open spec fn listing_from(mem: Seq<u8>, addr: int, stop: int, acc: Map<u16, Seq<char>>) -> Map<
    u16,
    Seq<char>,
>
    decreases stop + 1 - addr,
{
    if addr < 0 || addr > stop || stop > 0xFFFF {
        acc
    } else {
        let with_line = acc.insert(addr as u16, line_text(mem, addr as u16));
        if next_line(mem, addr) > stop {
            with_line
        } else {
            listing_from(mem, next_line(mem, addr), stop, with_line)
        }
    }
}

/// The listing of the instructions from `start` up to `stop`.
pub open spec fn listing(mem: Seq<u8>, start: u16, stop: u16) -> Map<u16, Seq<char>> {
    listing_from(mem, start as int, stop as int, Map::empty())
}

/// Appends the hexadecimal digit of `n` (below 16).
fn append_hex_digit(text: &mut String, n: u8)
    requires
        n < 16,
    ensures
        final(text)@ == old(text)@ + hex_digit(n),
{
    let d: &str = match n {
        0 => "0",
        1 => "1",
        2 => "2",
        3 => "3",
        4 => "4",
        5 => "5",
        6 => "6",
        7 => "7",
        8 => "8",
        9 => "9",
        10 => "A",
        11 => "B",
        12 => "C",
        13 => "D",
        14 => "E",
        _ => "F",
    };
    text.append(d);
}

/// Appends `v` as two hexadecimal digits.
fn append_hex2(text: &mut String, v: u8)
    ensures
        final(text)@ == old(text)@ + hex2(v),
{
    let ghost start = text@;
    append_hex_digit(text, v / 16);
    append_hex_digit(text, v % 16);
    assert(text@ =~= start + hex2(v));
}

/// Appends `v` as four hexadecimal digits.
fn append_hex4(text: &mut String, v: u16)
    ensures
        final(text)@ == old(text)@ + hex4(v),
{
    let ghost start = text@;
    append_hex2(text, (v / 0x100) as u8);
    append_hex2(text, (v % 0x100) as u8);
    assert(text@ =~= start + hex4(v));
}

impl Cpu {
    /// The little-endian word at `at` and the address after it, read without
    /// side effects.
    fn peek_word(&self, at: u16) -> (w: u16)
        ensures
            w == word(self.bus@[at as int], self.bus@[wrap16(at + 1) as int]),
    {
        let lo = self.bus.read(at, true);
        let hi = self.bus.read(add16(at, 1), true);
        (hi as u16) * 0x100 + (lo as u16)
    }

    /// Appends the operand of `mode` whose first byte is at `at`.
    fn append_operand(&self, text: &mut String, mode: AddressingMode, at: u16)
        ensures
            final(text)@ == old(text)@ + operand_text(mode, self.bus@, at),
    {
        let ghost start = text@;
        let ghost mem = self.bus@;
        let b = self.bus.read(at, true);
        match mode {
            AddressingMode::Implied => {},
            AddressingMode::Immediate => {
                text.append("#$");
                append_hex2(text, b);
            },
            AddressingMode::ZeroPage => {
                text.append("$");
                append_hex2(text, b);
            },
            AddressingMode::ZeroPage_X => {
                text.append("$");
                append_hex2(text, b);
                text.append(",X");
            },
            AddressingMode::ZeroPage_Y => {
                text.append("$");
                append_hex2(text, b);
                text.append(",Y");
            },
            AddressingMode::Relative => {
                let rel: u16 = if b >= 0x80 {
                    0xFF00 + b as u16
                } else {
                    b as u16
                };
                let target = add16(add16(at, 1), rel);
                assert(target == branch_target(mem, at));
                text.append("$");
                append_hex2(text, b);
                text.append(" [$");
                append_hex4(text, target);
                text.append("]");
            },
            AddressingMode::Absolute => {
                let w = self.peek_word(at);
                text.append("$");
                append_hex4(text, w);
            },
            AddressingMode::Absolute_X => {
                let w = self.peek_word(at);
                text.append("$");
                append_hex4(text, w);
                text.append(",X");
            },
            AddressingMode::Absolute_Y => {
                let w = self.peek_word(at);
                text.append("$");
                append_hex4(text, w);
                text.append(",Y");
            },
            AddressingMode::Indirect => {
                let w = self.peek_word(at);
                text.append("($");
                append_hex4(text, w);
                text.append(")");
            },
            AddressingMode::Indirect_X => {
                text.append("($");
                append_hex2(text, b);
                text.append(",X)");
            },
            AddressingMode::Indirect_Y => {
                text.append("($");
                append_hex2(text, b);
                text.append("),Y");
            },
        }
        assert(text@ =~= start + operand_text(mode, mem, at));
    }

    /// The listing line of the instruction at `addr`, and how many operand
    /// bytes follow its opcode.
    fn disassemble_line(&self, addr: u16) -> (r: (String, u8))
        ensures
            r.0@ == line_text(self.bus@, addr),
            r.1 == operand_width(decoded_mode(self.bus@[addr as int])),
    {
        let ghost mem = self.bus@;
        let op = self.bus.read(addr, true);
        let (opcode, mode, _) = decode_entry(op);
        let mut text = String::from_str("$");
        append_hex4(&mut text, addr);
        text.append(": ");
        let name = opcode.name();
        text.append(name.as_str());
        text.append(" ");
        self.append_operand(&mut text, mode, add16(addr, 1));
        text.append(" {");
        let tag: &str = match mode {
            AddressingMode::Implied => "IMP",
            AddressingMode::Immediate => "IMM",
            AddressingMode::ZeroPage => "ZP0",
            AddressingMode::ZeroPage_X => "ZPX",
            AddressingMode::ZeroPage_Y => "ZPY",
            AddressingMode::Relative => "REL",
            AddressingMode::Absolute => "ABS",
            AddressingMode::Absolute_X => "ABX",
            AddressingMode::Absolute_Y => "ABY",
            AddressingMode::Indirect => "IND",
            AddressingMode::Indirect_X => "IZX",
            AddressingMode::Indirect_Y => "IZY",
        };
        text.append(tag);
        text.append("}");
        let width: u8 = match mode {
            AddressingMode::Implied => 0,
            AddressingMode::Absolute | AddressingMode::Absolute_X | AddressingMode::Absolute_Y
            | AddressingMode::Indirect => 2,
            _ => 1,
        };
        (text, width)
    }

    /// The listing of the instructions from `start` up to `stop`: one line
    /// per instruction, keyed by the address it starts at, each instruction
    /// starting right after the operand bytes of the previous one. Memory is
    /// only read, with `readonly` set.
    pub fn disassemble(&self, start: u16, stop: u16) -> (lines: Listing)
        ensures
            lines@.dom() == listing(self.bus@, start, stop).dom(),
            forall|a: u16| #[trigger]
                lines@.contains_key(a) ==> lines@[a]@ == listing(self.bus@, start, stop)[a],
    {
        let ghost mem = self.bus@;
        let mut lines = new_listing();
        let ghost mut text: Map<u16, Seq<char>> = Map::empty();
        let mut addr: u32 = start as u32;
        while addr <= stop as u32
            invariant
                mem == self.bus@,
                start <= addr <= 0x10002,
                listing_from(mem, addr as int, stop as int, text) == listing(mem, start, stop),
                lines@.dom() == text.dom(),
                forall|a: u16| #[trigger] lines@.contains_key(a) ==> lines@[a]@ == text[a],
            decreases 0x10002 - addr,
        {
            let (line, width) = self.disassemble_line(addr as u16);
            proof {
                text = text.insert(addr as u16, line@);
            }
            listing_insert(&mut lines, addr as u16, line);
            addr = addr + 1 + width as u32;
        }
        lines
    }
}

} // verus!
