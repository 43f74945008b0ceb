//! The 6502 as a mathematical state machine: the state, the addressing modes,
//! the operations, and one clock tick. The executable processor is proved to
//! follow these definitions step by step.
use vstd::prelude::*;
use crate::instruction::{AddressingMode, Opcode, decoded_cycles, decoded_mode, decoded_opcode};
use crate::status::{Flags6502, has_bits, with_bits};

verus! {

/// First address of the stack page.
pub const STACK_BASE: u16 = 0x0100;

/// Where the non-maskable interrupt handler's address is stored.
pub const NMI_VECTOR: u16 = 0xFFFA;

/// Where the address to start from after reset is stored.
pub const RESET_VECTOR: u16 = 0xFFFC;

/// Where the interrupt and BRK handler's address is stored.
pub const IRQ_VECTOR: u16 = 0xFFFE;

/// Everything that one clock tick reads or changes.
pub struct CpuState {
    /// Accumulator.
    pub a: u8,
    /// X index register.
    pub x: u8,
    /// Y index register.
    pub y: u8,
    /// Stack pointer.
    pub stk_ptr: u8,
    /// Program counter.
    pub pc: u16,
    /// Status register P.
    pub status: u8,
    /// Operand of the current instruction.
    pub fetched: u8,
    /// Effective address of the current instruction.
    pub addr_abs: u16,
    /// Sign-extended branch offset of the current instruction.
    pub addr_rel: u16,
    /// Opcode byte of the current instruction.
    pub opcode: u8,
    /// Ticks still owed before the current instruction retires.
    pub cycles_remaining: int,
    /// Ticks so far.
    pub clock_count: int,
    /// The 64 KiB of memory behind the bus.
    pub mem: Seq<u8>,
}

/// `v` reduced to a byte.
pub open spec fn wrap8(v: int) -> u8 {
    (v % 0x100) as u8
}

/// `v` reduced to a 16-bit address.
pub open spec fn wrap16(v: int) -> u16 {
    (v % 0x10000) as u16
}

/// The little-endian word made of `lo` and `hi`.
pub open spec fn word(lo: u8, hi: u8) -> u16 {
    (hi * 0x100 + lo) as u16
}

/// The page (high byte) that `addr` lies in.
pub open spec fn page(addr: u16) -> int {
    addr as int / 0x100
}

/// Bit 7 of `v`, the sign of a two's complement byte.
pub open spec fn is_negative(v: u8) -> bool {
    v >= 0x80
}

/// Address of stack slot `sp`.
pub open spec fn stack_addr(sp: u8) -> u16 {
    (STACK_BASE + sp) as u16
}

/// 1 when `crossed` holds, else 0: the penalty for crossing a page.
pub open spec fn penalty(crossed: bool) -> u8 {
    if crossed {
        1
    } else {
        0
    }
}

impl CpuState {
    /// The byte at `addr`.
    pub open spec fn read(self, addr: u16) -> u8 {
        self.mem[addr as int]
    }

    /// The little-endian word at `addr` and the address after it.
    pub open spec fn read_word(self, addr: u16) -> u16 {
        word(self.read(addr), self.read(wrap16(addr + 1)))
    }

    /// The state with `v` stored at `addr`.
    pub open spec fn write(self, addr: u16, v: u8) -> CpuState {
        CpuState { mem: self.mem.update(addr as int, v), ..self }
    }

    /// Whether flag `f` of P is set.
    pub open spec fn flag(self, f: Flags6502) -> bool {
        has_bits(self.status, f.bit())
    }

    /// The state with flag `f` of P set to `v`.
    pub open spec fn with_flag(self, f: Flags6502, v: bool) -> CpuState {
        CpuState { status: with_bits(self.status, f.bit(), v), ..self }
    }

    /// Zero and Negative set from the result `v`.
    pub open spec fn with_zn(self, v: u8) -> CpuState {
        self.with_flag(Flags6502::Zero, v == 0).with_flag(Flags6502::Negative, is_negative(v))
    }

    /// `v` written at the top of the stack, which then grows down by one.
    pub open spec fn push(self, v: u8) -> CpuState {
        CpuState { stk_ptr: wrap8(self.stk_ptr - 1), ..self.write(stack_addr(self.stk_ptr), v) }
    }

    /// The stack shrunk by one, and the byte that was on top of it.
    pub open spec fn pull(self) -> (CpuState, u8) {
        let sp = wrap8(self.stk_ptr + 1);
        (CpuState { stk_ptr: sp, ..self }, self.read(stack_addr(sp)))
    }

    /// The program counter pushed, high byte first.
    pub open spec fn push_pc(self) -> CpuState {
        self.push((self.pc / 0x100) as u8).push((self.pc % 0x100) as u8)
    }

    /// A word pulled, low byte first.
    pub open spec fn pull_word(self) -> (CpuState, u16) {
        let (s1, lo) = self.pull();
        let (s2, hi) = s1.pull();
        (s2, word(lo, hi))
    }

    /// The state with the operand read from the effective address, unless the
    /// current instruction is implied (its operand is A, already in `fetched`).
    pub open spec fn fetch(self) -> CpuState {
        if decoded_mode(self.opcode) == AddressingMode::Implied {
            self
        } else {
            CpuState { fetched: self.read(self.addr_abs), ..self }
        }
    }

    /// The result of a shift or rotate stored back where the operand came from.
    pub open spec fn store_back(self, v: u8) -> CpuState {
        if decoded_mode(self.opcode) == AddressingMode::Implied {
            CpuState { a: v, ..self }
        } else {
            self.write(self.addr_abs, v)
        }
    }

    /// An interrupt entry: the return address and P (Break clear,
    /// InterruptDisable and Unused set) go on the stack and PC takes the
    /// word at `vector`.
    pub open spec fn interrupt(self, vector: u16, cycles: int) -> CpuState {
        let s1 = self.push_pc().with_flag(Flags6502::BreakCommand, false).with_flag(
            Flags6502::InterruptDisable,
            true,
        ).with_flag(Flags6502::Unused, true);
        let s2 = s1.push(s1.status);
        CpuState { pc: s2.read_word(vector), cycles_remaining: cycles, ..s2 }
    }
}

/// Reads the operand bytes of the current instruction, advancing PC past
/// them, and resolves the effective address (or branch offset). The byte is
/// 1 when an indexed address lands on another page than its base.
#[verifier::opaque]
pub open spec fn address(mode: AddressingMode, s: CpuState) -> (CpuState, u8) {
    match mode {
        AddressingMode::Implied => (CpuState { fetched: s.a, ..s }, 0),
        AddressingMode::Immediate => (CpuState { addr_abs: s.pc, pc: wrap16(s.pc + 1), ..s }, 0),
        AddressingMode::ZeroPage => (zero_page(s, 0), 0),
        AddressingMode::ZeroPage_X => (zero_page(s, s.x), 0),
        AddressingMode::ZeroPage_Y => (zero_page(s, s.y), 0),
        AddressingMode::Relative => (relative(s), 0),
        AddressingMode::Absolute => absolute(s, 0),
        AddressingMode::Absolute_X => absolute(s, s.x),
        AddressingMode::Absolute_Y => absolute(s, s.y),
        AddressingMode::Indirect => (indirect(s), 0),
        AddressingMode::Indirect_X => (indexed_indirect(s), 0),
        AddressingMode::Indirect_Y => indirect_indexed(s),
    }
}

/// The operand byte plus `index`, wrapped within page zero.
pub open spec fn zero_page(s: CpuState, index: u8) -> CpuState {
    CpuState { addr_abs: wrap8(s.read(s.pc) + index) as u16, pc: wrap16(s.pc + 1), ..s }
}

/// The operand byte as a signed offset, sign-extended to 16 bits.
pub open spec fn relative(s: CpuState) -> CpuState {
    let offset = s.read(s.pc);
    let rel = if is_negative(offset) {
        (0xFF00 + offset) as u16
    } else {
        offset as u16
    };
    CpuState { addr_rel: rel, pc: wrap16(s.pc + 1), ..s }
}

/// For the indexed modes that may cross a page, the address before the
/// index register is added.
pub open spec fn index_base(mode: AddressingMode, s: CpuState) -> u16 {
    match mode {
        AddressingMode::Indirect_Y => {
            let t = s.read(s.pc);
            word(s.read(t as u16), s.read(wrap8(t + 1) as u16))
        },
        _ => s.read_word(s.pc),
    }
}

/// The operand word plus `index`, and whether that crossed a page.
pub open spec fn absolute(s: CpuState, index: u8) -> (CpuState, u8) {
    let base = s.read_word(s.pc);
    let target = wrap16(base + index);
    (CpuState { addr_abs: target, pc: wrap16(s.pc + 2), ..s }, penalty(page(target) != page(base)))
}

/// The word that the operand word points to; its high byte is read from the
/// same page as its low byte, as the 6502 does.
pub open spec fn indirect(s: CpuState) -> CpuState {
    let ptr = s.read_word(s.pc);
    let hi_at = if ptr % 0x100 == 0xFF {
        (ptr - 0xFF) as u16
    } else {
        (ptr + 1) as u16
    };
    CpuState { addr_abs: word(s.read(ptr), s.read(hi_at)), pc: wrap16(s.pc + 2), ..s }
}

/// The word in page zero at the operand byte plus X.
pub open spec fn indexed_indirect(s: CpuState) -> CpuState {
    let t = s.read(s.pc);
    let lo = s.read(wrap8(t + s.x) as u16);
    let hi = s.read(wrap8(t + s.x + 1) as u16);
    CpuState { addr_abs: word(lo, hi), pc: wrap16(s.pc + 1), ..s }
}

/// The word in page zero at the operand byte, plus Y, and whether adding Y
/// crossed a page.
pub open spec fn indirect_indexed(s: CpuState) -> (CpuState, u8) {
    let t = s.read(s.pc);
    let base = word(s.read(t as u16), s.read(wrap8(t + 1) as u16));
    let target = wrap16(base + s.y);
    (CpuState { addr_abs: target, pc: wrap16(s.pc + 1), ..s }, penalty(page(target) != page(base)))
}

/// A conditional branch: when `taken`, one more cycle is owed, another if
/// the target lies on another page, and PC moves by the relative offset.
pub open spec fn branch(s: CpuState, taken: bool) -> CpuState {
    if taken {
        let target = wrap16(s.pc + s.addr_rel);
        CpuState {
            cycles_remaining: s.cycles_remaining + 1 + penalty(page(target) != page(s.pc)),
            addr_abs: target,
            pc: target,
            ..s
        }
    } else {
        s
    }
}

/// Binary addition of `m` and the carry to A, setting C, Z, V and N.
pub open spec fn add_to_a(s: CpuState, m: u8) -> CpuState {
    let carry: int = if s.flag(Flags6502::Carry) {
        1
    } else {
        0
    };
    let sum = s.a + m + carry;
    let r = wrap8(sum);
    let overflow = is_negative(s.a) == is_negative(m) && is_negative(r) != is_negative(s.a);
    CpuState { a: r, ..s }.with_flag(Flags6502::Carry, sum > 0xFF).with_flag(Flags6502::Zero, r == 0)
        .with_flag(Flags6502::Overflow, overflow).with_flag(Flags6502::Negative, is_negative(r))
}

/// A set to `v`, with Z and N from it.
pub open spec fn load_a(s: CpuState, v: u8) -> CpuState {
    CpuState { a: v, ..s }.with_zn(v)
}

/// X set to `v`, with Z and N from it.
pub open spec fn load_x(s: CpuState, v: u8) -> CpuState {
    CpuState { x: v, ..s }.with_zn(v)
}

/// Y set to `v`, with Z and N from it.
pub open spec fn load_y(s: CpuState, v: u8) -> CpuState {
    CpuState { y: v, ..s }.with_zn(v)
}

/// The operand shifted left one bit, `carry_in` entering bit 0 and bit 7
/// leaving into C; the result goes back where the operand came from.
pub open spec fn shift_left(s: CpuState, carry_in: bool) -> CpuState {
    let r = wrap8(s.fetched * 2 + if carry_in {
        1int
    } else {
        0
    });
    s.with_flag(Flags6502::Carry, is_negative(s.fetched)).with_zn(r).store_back(r)
}

/// The operand shifted right one bit, `carry_in` entering bit 7 and bit 0
/// leaving into C; the result goes back where the operand came from.
pub open spec fn shift_right(s: CpuState, carry_in: bool) -> CpuState {
    let r = (s.fetched / 2 + if carry_in {
        0x80int
    } else {
        0
    }) as u8;
    s.with_flag(Flags6502::Carry, s.fetched % 2 == 1).with_zn(r).store_back(r)
}

/// Comparison of `reg` with the operand: C when `reg` is not below it, Z when
/// equal, N from bit 7 of the difference.
pub open spec fn compare(s: CpuState, reg: u8) -> CpuState {
    s.with_flag(Flags6502::Carry, reg >= s.fetched).with_flag(Flags6502::Zero, reg == s.fetched)
        .with_flag(Flags6502::Negative, is_negative(wrap8(reg - s.fetched)))
}

/// The operand, one up (or down), stored back, with Z and N from it.
pub open spec fn step_memory(s: CpuState, up: bool) -> CpuState {
    let r = if up {
        wrap8(s.fetched + 1)
    } else {
        wrap8(s.fetched - 1)
    };
    s.write(s.addr_abs, r).with_zn(r)
}

/// BIT: Z from A AND the operand, V and N from its bits 6 and 7.
pub open spec fn bit_test(s: CpuState) -> CpuState {
    s.with_flag(Flags6502::Zero, s.a & s.fetched == 0).with_flag(
        Flags6502::Overflow,
        has_bits(s.fetched, 0x40),
    ).with_flag(Flags6502::Negative, is_negative(s.fetched))
}

/// BRK: skips the padding byte, saves PC and P (with Break set) and jumps
/// through the IRQ vector with interrupts disabled.
pub open spec fn brk(s: CpuState) -> CpuState {
    let s1 = CpuState { pc: wrap16(s.pc + 1), ..s }.with_flag(Flags6502::InterruptDisable, true)
        .push_pc().with_flag(Flags6502::BreakCommand, true);
    let s2 = s1.push(s1.status).with_flag(Flags6502::BreakCommand, false);
    CpuState { pc: s2.read_word(IRQ_VECTOR), ..s2 }
}

/// JSR: saves the address of the last operand byte and jumps.
pub open spec fn jsr(s: CpuState) -> CpuState {
    let s1 = CpuState { pc: wrap16(s.pc - 1), ..s }.push_pc();
    CpuState { pc: s.addr_abs, ..s1 }
}

/// RTS: resumes after the address saved by JSR.
pub open spec fn rts(s: CpuState) -> CpuState {
    let (s1, ret) = s.pull_word();
    CpuState { pc: wrap16(ret + 1), ..s1 }
}

/// RTI: restores P (with Break and Unused clear) and then PC.
pub open spec fn rti(s: CpuState) -> CpuState {
    let (s1, p) = s.pull();
    let s2 = CpuState { status: p, ..s1 }.with_flag(Flags6502::BreakCommand, false).with_flag(
        Flags6502::Unused,
        false,
    );
    let (s3, ret) = s2.pull_word();
    CpuState { pc: ret, ..s3 }
}

/// PLA: A from the stack, with Z and N from it.
pub open spec fn pla(s: CpuState) -> CpuState {
    let (s1, v) = s.pull();
    load_a(s1, v)
}

/// PLP: P from the stack, with Unused set.
pub open spec fn plp(s: CpuState) -> CpuState {
    let (s1, v) = s.pull();
    CpuState { status: v, ..s1 }.with_flag(Flags6502::Unused, true)
}

/// What operation `op` does to the state after its addressing mode has run,
/// and whether it may take the page-crossing cycle (1) or not (0).
#[verifier::opaque]
pub open spec fn operate(op: Opcode, s: CpuState) -> (CpuState, u8) {
    match op {
        Opcode::Adc => (add_to_a(s.fetch(), s.fetch().fetched), 1),
        Opcode::Sbc => (add_to_a(s.fetch(), (0xFF - s.fetch().fetched) as u8), 1),
        Opcode::And => (load_a(s.fetch(), s.a & s.fetch().fetched), 1),
        Opcode::Eor => (load_a(s.fetch(), s.a ^ s.fetch().fetched), 1),
        Opcode::Ora => (load_a(s.fetch(), s.a | s.fetch().fetched), 1),
        Opcode::Asl => (shift_left(s.fetch(), false), 0),
        Opcode::Rol => (shift_left(s.fetch(), s.flag(Flags6502::Carry)), 0),
        Opcode::Lsr => (shift_right(s.fetch(), false), 0),
        Opcode::Ror => (shift_right(s.fetch(), s.flag(Flags6502::Carry)), 0),
        Opcode::Bcc => (branch(s, !s.flag(Flags6502::Carry)), 0),
        Opcode::Bcs => (branch(s, s.flag(Flags6502::Carry)), 0),
        Opcode::Bne => (branch(s, !s.flag(Flags6502::Zero)), 0),
        Opcode::Beq => (branch(s, s.flag(Flags6502::Zero)), 0),
        Opcode::Bpl => (branch(s, !s.flag(Flags6502::Negative)), 0),
        Opcode::Bmi => (branch(s, s.flag(Flags6502::Negative)), 0),
        Opcode::Bvc => (branch(s, !s.flag(Flags6502::Overflow)), 0),
        Opcode::Bvs => (branch(s, s.flag(Flags6502::Overflow)), 0),
        Opcode::Bit => (bit_test(s.fetch()), 0),
        Opcode::Brk => (brk(s), 0),
        Opcode::Clc => (s.with_flag(Flags6502::Carry, false), 0),
        Opcode::Cld => (s.with_flag(Flags6502::DecimalMode, false), 0),
        Opcode::Cli => (s.with_flag(Flags6502::InterruptDisable, false), 0),
        Opcode::Clv => (s.with_flag(Flags6502::Overflow, false), 0),
        Opcode::Sec => (s.with_flag(Flags6502::Carry, true), 0),
        Opcode::Sed => (s.with_flag(Flags6502::DecimalMode, true), 0),
        Opcode::Sei => (s.with_flag(Flags6502::InterruptDisable, true), 0),
        Opcode::Cmp => (compare(s.fetch(), s.a), 1),
        Opcode::Cpx => (compare(s.fetch(), s.x), 0),
        Opcode::Cpy => (compare(s.fetch(), s.y), 0),
        Opcode::Dec => (step_memory(s.fetch(), false), 0),
        Opcode::Inc => (step_memory(s.fetch(), true), 0),
        Opcode::Dex => (load_x(s, wrap8(s.x - 1)), 0),
        Opcode::Dey => (load_y(s, wrap8(s.y - 1)), 0),
        Opcode::Inx => (load_x(s, wrap8(s.x + 1)), 0),
        Opcode::Iny => (load_y(s, wrap8(s.y + 1)), 0),
        Opcode::Jmp => (CpuState { pc: s.addr_abs, ..s }, 0),
        Opcode::Jsr => (jsr(s), 0),
        Opcode::Rts => (rts(s), 0),
        Opcode::Rti => (rti(s), 0),
        Opcode::Lda => (load_a(s.fetch(), s.fetch().fetched), 1),
        Opcode::Ldx => (load_x(s.fetch(), s.fetch().fetched), 1),
        Opcode::Ldy => (load_y(s.fetch(), s.fetch().fetched), 1),
        Opcode::Pha => (s.push(s.a), 0),
        Opcode::Php => (s.push(s.status), 0),
        Opcode::Pla => (pla(s), 0),
        Opcode::Plp => (plp(s), 0),
        Opcode::Sta => (s.write(s.addr_abs, s.a), 0),
        Opcode::Stx => (s.write(s.addr_abs, s.x), 0),
        Opcode::Sty => (s.write(s.addr_abs, s.y), 0),
        Opcode::Tax => (load_x(s, s.a), 0),
        Opcode::Tay => (load_y(s, s.a), 0),
        Opcode::Tsx => (load_x(s, s.stk_ptr), 0),
        Opcode::Txa => (load_a(s, s.x), 0),
        Opcode::Txs => (CpuState { stk_ptr: s.x, ..s }, 0),
        Opcode::Tya => (load_a(s, s.y), 0),
        Opcode::Nop => (s, 0),
        Opcode::Kil => (s, 0),
    }
}

/// Fetch and decode: the opcode byte at PC is taken, PC moves past it,
/// Unused is set, and the instruction's base cycles are owed.
pub open spec fn begin(s: CpuState) -> CpuState {
    let op = s.read(s.pc);
    CpuState {
        opcode: op,
        pc: wrap16(s.pc + 1),
        cycles_remaining: decoded_cycles(op) as int,
        ..s
    }.with_flag(Flags6502::Unused, true)
}

/// Retire: the page-cross cycle is owed when both the addressing mode and
/// the operation allow it, Unused is set again, and this tick is paid.
pub open spec fn retire(s: CpuState, extra_mode: u8, extra_op: u8) -> CpuState {
    let extra: int = if extra_mode == 1 && extra_op == 1 {
        1
    } else {
        0
    };
    let s1 = s.with_flag(Flags6502::Unused, true);
    CpuState {
        cycles_remaining: s1.cycles_remaining + extra - 1,
        clock_count: s1.clock_count + 1,
        ..s1
    }
}

/// The tick that starts an instruction: fetch and decode the opcode, resolve
/// the operand, perform the operation, and charge the cycles it takes (this
/// tick included).
#[verifier::opaque]
pub open spec fn execute(s: CpuState) -> CpuState {
    let s1 = begin(s);
    let (s2, extra_mode) = address(decoded_mode(s1.opcode), s1);
    let (s3, extra_op) = operate(decoded_opcode(s1.opcode), s2);
    retire(s3, extra_mode, extra_op)
}

/// One clock tick: while cycles are still owed, pay one; otherwise start the
/// next instruction.
pub open spec fn tick(s: CpuState) -> CpuState {
    if s.cycles_remaining > 0 {
        CpuState {
            cycles_remaining: s.cycles_remaining - 1,
            clock_count: s.clock_count + 1,
            ..s
        }
    } else {
        execute(s)
    }
}

/// The state after reset: PC from the reset vector, registers cleared, S at
/// 0xFD, P holding only Unused, and eight cycles owed.
pub open spec fn reset_state(s: CpuState) -> CpuState {
    CpuState {
        pc: s.read_word(RESET_VECTOR),
        a: 0,
        x: 0,
        y: 0,
        stk_ptr: 0xFD,
        status: Flags6502::Unused.bit(),
        addr_abs: 0,
        addr_rel: 0,
        fetched: 0,
        cycles_remaining: 8,
        ..s
    }
}

/// The state after a maskable interrupt request, which is ignored while
/// InterruptDisable is set.
pub open spec fn irq_state(s: CpuState) -> CpuState {
    if s.flag(Flags6502::InterruptDisable) {
        s
    } else {
        s.interrupt(IRQ_VECTOR, 7)
    }
}

/// The state after a non-maskable interrupt.
pub open spec fn nmi_state(s: CpuState) -> CpuState {
    s.interrupt(NMI_VECTOR, 8)
}


/// Resolving an operand never changes the cycles owed, and the page-cross
/// answer is 0 or 1.
pub proof fn lemma_address_keeps_cycles(mode: AddressingMode, s: CpuState)
    ensures
        address(mode, s).0.cycles_remaining == s.cycles_remaining,
        address(mode, s).0.clock_count == s.clock_count,
        address(mode, s).1 <= 1,
{
    reveal(address);
}

/// An operation adds at most two cycles (a taken branch to another page),
/// and its page-cross answer is 0 or 1.
pub proof fn lemma_operate_cycles(op: Opcode, s: CpuState)
    ensures
        s.cycles_remaining <= operate(op, s).0.cycles_remaining <= s.cycles_remaining + 2,
        operate(op, s).0.clock_count == s.clock_count,
        operate(op, s).1 <= 1,
{
    reveal(operate);
}

} // verus!
