//! The operations: what each opcode does once its operand is resolved.
use vstd::prelude::*;
use crate::arith::{add16, add8, sub16, sub8};
use crate::cpu::Cpu;
use crate::instruction::{AddressingMode, Opcode, decode_entry};
use crate::model::{
    IRQ_VECTOR, add_to_a, branch, compare, load_a, load_x, load_y, operate, shift_left,
    shift_right,
};
use crate::status::Flags6502;

verus! {

impl Opcode {
    /// Performs the operation on `cpu`, whose addressing mode has already
    /// run. Returns 1 when the operation is one that pays the page-crossing
    /// cycle (the loads, ADC, SBC, AND, ORA, EOR and CMP), else 0.
    pub fn opcode_operation(&self, cpu: &mut Cpu) -> (extra: u8)
        requires
            old(cpu).cycles_remaining <= 253,
        ensures
            (final(cpu)@, extra) == operate(*self, old(cpu)@),
    {
        match self {
            Opcode::Adc => op_adc(cpu),
            Opcode::And => op_and(cpu),
            Opcode::Asl => op_asl(cpu),
            Opcode::Bcc => op_bcc(cpu),
            Opcode::Bcs => op_bcs(cpu),
            Opcode::Beq => op_beq(cpu),
            Opcode::Bit => op_bit(cpu),
            Opcode::Bmi => op_bmi(cpu),
            Opcode::Bne => op_bne(cpu),
            Opcode::Bpl => op_bpl(cpu),
            Opcode::Brk => op_brk(cpu),
            Opcode::Bvc => op_bvc(cpu),
            Opcode::Bvs => op_bvs(cpu),
            Opcode::Clc => op_clc(cpu),
            Opcode::Cld => op_cld(cpu),
            Opcode::Cli => op_cli(cpu),
            Opcode::Clv => op_clv(cpu),
            Opcode::Cmp => op_cmp(cpu),
            Opcode::Cpx => op_cpx(cpu),
            Opcode::Cpy => op_cpy(cpu),
            Opcode::Dec => op_dec(cpu),
            Opcode::Dex => op_dex(cpu),
            Opcode::Dey => op_dey(cpu),
            Opcode::Eor => op_eor(cpu),
            Opcode::Inc => op_inc(cpu),
            Opcode::Inx => op_inx(cpu),
            Opcode::Iny => op_iny(cpu),
            Opcode::Jmp => op_jmp(cpu),
            Opcode::Jsr => op_jsr(cpu),
            Opcode::Lda => op_lda(cpu),
            Opcode::Ldx => op_ldx(cpu),
            Opcode::Ldy => op_ldy(cpu),
            Opcode::Lsr => op_lsr(cpu),
            Opcode::Nop => op_nop(cpu),
            Opcode::Ora => op_ora(cpu),
            Opcode::Pha => op_pha(cpu),
            Opcode::Php => op_php(cpu),
            Opcode::Pla => op_pla(cpu),
            Opcode::Plp => op_plp(cpu),
            Opcode::Rol => op_rol(cpu),
            Opcode::Ror => op_ror(cpu),
            Opcode::Rti => op_rti(cpu),
            Opcode::Rts => op_rts(cpu),
            Opcode::Sbc => op_sbc(cpu),
            Opcode::Sec => op_sec(cpu),
            Opcode::Sed => op_sed(cpu),
            Opcode::Sei => op_sei(cpu),
            Opcode::Sta => op_sta(cpu),
            Opcode::Stx => op_stx(cpu),
            Opcode::Sty => op_sty(cpu),
            Opcode::Tax => op_tax(cpu),
            Opcode::Tay => op_tay(cpu),
            Opcode::Tsx => op_tsx(cpu),
            Opcode::Txa => op_txa(cpu),
            Opcode::Txs => op_txs(cpu),
            Opcode::Tya => op_tya(cpu),
            Opcode::Kil => op_kil(cpu),
        }
    }
}

/// The operation of an undefined opcode: nothing happens and no cycle is
/// added.
pub fn xxx() -> (extra: u8)
    ensures
        extra == 0,
{
    0
}

fn op_adc(cpu: &mut Cpu) -> (extra: u8)
    ensures
        (final(cpu)@, extra) == operate(Opcode::Adc, old(cpu)@),
{
    proof {
        reveal(operate);
    }
    cpu.fetch();
    let m = cpu.fetched;
    cpu.add_to_a(m);
    1
}

fn op_and(cpu: &mut Cpu) -> (extra: u8)
    ensures
        (final(cpu)@, extra) == operate(Opcode::And, old(cpu)@),
{
    proof {
        reveal(operate);
    }
    cpu.fetch();
    let r = cpu.a_reg & cpu.fetched;
    cpu.load_a(r);
    1
}

fn op_asl(cpu: &mut Cpu) -> (extra: u8)
    ensures
        (final(cpu)@, extra) == operate(Opcode::Asl, old(cpu)@),
{
    proof {
        reveal(operate);
    }
    cpu.fetch();
    cpu.shift_left(false);
    0
}

fn op_bcc(cpu: &mut Cpu) -> (extra: u8)
    requires
        old(cpu).cycles_remaining <= 253,
    ensures
        (final(cpu)@, extra) == operate(Opcode::Bcc, old(cpu)@),
{
    proof {
        reveal(operate);
    }
    let taken = cpu.get_flag(Flags6502::Carry) == 0;
    cpu.branch(taken);
    0
}

fn op_bcs(cpu: &mut Cpu) -> (extra: u8)
    requires
        old(cpu).cycles_remaining <= 253,
    ensures
        (final(cpu)@, extra) == operate(Opcode::Bcs, old(cpu)@),
{
    proof {
        reveal(operate);
    }
    let taken = cpu.get_flag(Flags6502::Carry) == 1;
    cpu.branch(taken);
    0
}

fn op_beq(cpu: &mut Cpu) -> (extra: u8)
    requires
        old(cpu).cycles_remaining <= 253,
    ensures
        (final(cpu)@, extra) == operate(Opcode::Beq, old(cpu)@),
{
    proof {
        reveal(operate);
    }
    let taken = cpu.get_flag(Flags6502::Zero) == 1;
    cpu.branch(taken);
    0
}

fn op_bit(cpu: &mut Cpu) -> (extra: u8)
    ensures
        (final(cpu)@, extra) == operate(Opcode::Bit, old(cpu)@),
{
    proof {
        reveal(operate);
    }
    cpu.fetch();
    let m = cpu.fetched;
    let a = cpu.a_reg;
    cpu.set_flag(Flags6502::Zero, a & m == 0);
    cpu.set_flag(Flags6502::Overflow, m & 0x40 != 0);
    cpu.set_flag(Flags6502::Negative, m >= 0x80);
    0
}

fn op_bmi(cpu: &mut Cpu) -> (extra: u8)
    requires
        old(cpu).cycles_remaining <= 253,
    ensures
        (final(cpu)@, extra) == operate(Opcode::Bmi, old(cpu)@),
{
    proof {
        reveal(operate);
    }
    let taken = cpu.get_flag(Flags6502::Negative) == 1;
    cpu.branch(taken);
    0
}

fn op_bne(cpu: &mut Cpu) -> (extra: u8)
    requires
        old(cpu).cycles_remaining <= 253,
    ensures
        (final(cpu)@, extra) == operate(Opcode::Bne, old(cpu)@),
{
    proof {
        reveal(operate);
    }
    let taken = cpu.get_flag(Flags6502::Zero) == 0;
    cpu.branch(taken);
    0
}

fn op_bpl(cpu: &mut Cpu) -> (extra: u8)
    requires
        old(cpu).cycles_remaining <= 253,
    ensures
        (final(cpu)@, extra) == operate(Opcode::Bpl, old(cpu)@),
{
    proof {
        reveal(operate);
    }
    let taken = cpu.get_flag(Flags6502::Negative) == 0;
    cpu.branch(taken);
    0
}

fn op_brk(cpu: &mut Cpu) -> (extra: u8)
    ensures
        (final(cpu)@, extra) == operate(Opcode::Brk, old(cpu)@),
{
    proof {
        reveal(operate);
    }
    cpu.pc = add16(cpu.pc, 1);
    cpu.set_flag(Flags6502::InterruptDisable, true);
    cpu.push_pc();
    cpu.set_flag(Flags6502::BreakCommand, true);
    let p = cpu.status;
    cpu.push(p);
    cpu.set_flag(Flags6502::BreakCommand, false);
    cpu.pc = cpu.read_word(IRQ_VECTOR);
    0
}

fn op_bvc(cpu: &mut Cpu) -> (extra: u8)
    requires
        old(cpu).cycles_remaining <= 253,
    ensures
        (final(cpu)@, extra) == operate(Opcode::Bvc, old(cpu)@),
{
    proof {
        reveal(operate);
    }
    let taken = cpu.get_flag(Flags6502::Overflow) == 0;
    cpu.branch(taken);
    0
}

fn op_bvs(cpu: &mut Cpu) -> (extra: u8)
    requires
        old(cpu).cycles_remaining <= 253,
    ensures
        (final(cpu)@, extra) == operate(Opcode::Bvs, old(cpu)@),
{
    proof {
        reveal(operate);
    }
    let taken = cpu.get_flag(Flags6502::Overflow) == 1;
    cpu.branch(taken);
    0
}

fn op_clc(cpu: &mut Cpu) -> (extra: u8)
    ensures
        (final(cpu)@, extra) == operate(Opcode::Clc, old(cpu)@),
{
    proof {
        reveal(operate);
    }
    cpu.set_flag(Flags6502::Carry, false);
    0
}

fn op_cld(cpu: &mut Cpu) -> (extra: u8)
    ensures
        (final(cpu)@, extra) == operate(Opcode::Cld, old(cpu)@),
{
    proof {
        reveal(operate);
    }
    cpu.set_flag(Flags6502::DecimalMode, false);
    0
}

fn op_cli(cpu: &mut Cpu) -> (extra: u8)
    ensures
        (final(cpu)@, extra) == operate(Opcode::Cli, old(cpu)@),
{
    proof {
        reveal(operate);
    }
    cpu.set_flag(Flags6502::InterruptDisable, false);
    0
}

fn op_clv(cpu: &mut Cpu) -> (extra: u8)
    ensures
        (final(cpu)@, extra) == operate(Opcode::Clv, old(cpu)@),
{
    proof {
        reveal(operate);
    }
    cpu.set_flag(Flags6502::Overflow, false);
    0
}

fn op_cmp(cpu: &mut Cpu) -> (extra: u8)
    ensures
        (final(cpu)@, extra) == operate(Opcode::Cmp, old(cpu)@),
{
    proof {
        reveal(operate);
    }
    cpu.fetch();
    let reg = cpu.a_reg;
    cpu.compare(reg);
    1
}

fn op_cpx(cpu: &mut Cpu) -> (extra: u8)
    ensures
        (final(cpu)@, extra) == operate(Opcode::Cpx, old(cpu)@),
{
    proof {
        reveal(operate);
    }
    cpu.fetch();
    let reg = cpu.x_reg;
    cpu.compare(reg);
    0
}

fn op_cpy(cpu: &mut Cpu) -> (extra: u8)
    ensures
        (final(cpu)@, extra) == operate(Opcode::Cpy, old(cpu)@),
{
    proof {
        reveal(operate);
    }
    cpu.fetch();
    let reg = cpu.y_reg;
    cpu.compare(reg);
    0
}

fn op_dec(cpu: &mut Cpu) -> (extra: u8)
    ensures
        (final(cpu)@, extra) == operate(Opcode::Dec, old(cpu)@),
{
    proof {
        reveal(operate);
    }
    cpu.fetch();
    let r = sub8(cpu.fetched, 1);
    let at = cpu.addr_abs;
    cpu.write(at, r);
    cpu.set_zn(r);
    0
}

fn op_dex(cpu: &mut Cpu) -> (extra: u8)
    ensures
        (final(cpu)@, extra) == operate(Opcode::Dex, old(cpu)@),
{
    proof {
        reveal(operate);
    }
    let r = sub8(cpu.x_reg, 1);
    cpu.load_x(r);
    0
}

fn op_dey(cpu: &mut Cpu) -> (extra: u8)
    ensures
        (final(cpu)@, extra) == operate(Opcode::Dey, old(cpu)@),
{
    proof {
        reveal(operate);
    }
    let r = sub8(cpu.y_reg, 1);
    cpu.load_y(r);
    0
}

fn op_eor(cpu: &mut Cpu) -> (extra: u8)
    ensures
        (final(cpu)@, extra) == operate(Opcode::Eor, old(cpu)@),
{
    proof {
        reveal(operate);
    }
    cpu.fetch();
    let r = cpu.a_reg ^ cpu.fetched;
    cpu.load_a(r);
    1
}

fn op_inc(cpu: &mut Cpu) -> (extra: u8)
    ensures
        (final(cpu)@, extra) == operate(Opcode::Inc, old(cpu)@),
{
    proof {
        reveal(operate);
    }
    cpu.fetch();
    let r = add8(cpu.fetched, 1);
    let at = cpu.addr_abs;
    cpu.write(at, r);
    cpu.set_zn(r);
    0
}

fn op_inx(cpu: &mut Cpu) -> (extra: u8)
    ensures
        (final(cpu)@, extra) == operate(Opcode::Inx, old(cpu)@),
{
    proof {
        reveal(operate);
    }
    let r = add8(cpu.x_reg, 1);
    cpu.load_x(r);
    0
}

fn op_iny(cpu: &mut Cpu) -> (extra: u8)
    ensures
        (final(cpu)@, extra) == operate(Opcode::Iny, old(cpu)@),
{
    proof {
        reveal(operate);
    }
    let r = add8(cpu.y_reg, 1);
    cpu.load_y(r);
    0
}

fn op_jmp(cpu: &mut Cpu) -> (extra: u8)
    ensures
        (final(cpu)@, extra) == operate(Opcode::Jmp, old(cpu)@),
{
    proof {
        reveal(operate);
    }
    cpu.pc = cpu.addr_abs;
    0
}

fn op_jsr(cpu: &mut Cpu) -> (extra: u8)
    ensures
        (final(cpu)@, extra) == operate(Opcode::Jsr, old(cpu)@),
{
    proof {
        reveal(operate);
    }
    cpu.pc = sub16(cpu.pc, 1);
    cpu.push_pc();
    cpu.pc = cpu.addr_abs;
    0
}

fn op_lda(cpu: &mut Cpu) -> (extra: u8)
    ensures
        (final(cpu)@, extra) == operate(Opcode::Lda, old(cpu)@),
{
    proof {
        reveal(operate);
    }
    cpu.fetch();
    let v = cpu.fetched;
    cpu.load_a(v);
    1
}

fn op_ldx(cpu: &mut Cpu) -> (extra: u8)
    ensures
        (final(cpu)@, extra) == operate(Opcode::Ldx, old(cpu)@),
{
    proof {
        reveal(operate);
    }
    cpu.fetch();
    let v = cpu.fetched;
    cpu.load_x(v);
    1
}

fn op_ldy(cpu: &mut Cpu) -> (extra: u8)
    ensures
        (final(cpu)@, extra) == operate(Opcode::Ldy, old(cpu)@),
{
    proof {
        reveal(operate);
    }
    cpu.fetch();
    let v = cpu.fetched;
    cpu.load_y(v);
    1
}

fn op_lsr(cpu: &mut Cpu) -> (extra: u8)
    ensures
        (final(cpu)@, extra) == operate(Opcode::Lsr, old(cpu)@),
{
    proof {
        reveal(operate);
    }
    cpu.fetch();
    cpu.shift_right(false);
    0
}

fn op_nop(cpu: &mut Cpu) -> (extra: u8)
    ensures
        (final(cpu)@, extra) == operate(Opcode::Nop, old(cpu)@),
{
    proof {
        reveal(operate);
    }
    0
}

fn op_ora(cpu: &mut Cpu) -> (extra: u8)
    ensures
        (final(cpu)@, extra) == operate(Opcode::Ora, old(cpu)@),
{
    proof {
        reveal(operate);
    }
    cpu.fetch();
    let r = cpu.a_reg | cpu.fetched;
    cpu.load_a(r);
    1
}

fn op_pha(cpu: &mut Cpu) -> (extra: u8)
    ensures
        (final(cpu)@, extra) == operate(Opcode::Pha, old(cpu)@),
{
    proof {
        reveal(operate);
    }
    let v = cpu.a_reg;
    cpu.push(v);
    0
}

fn op_php(cpu: &mut Cpu) -> (extra: u8)
    ensures
        (final(cpu)@, extra) == operate(Opcode::Php, old(cpu)@),
{
    proof {
        reveal(operate);
    }
    let v = cpu.status;
    cpu.push(v);
    0
}

fn op_pla(cpu: &mut Cpu) -> (extra: u8)
    ensures
        (final(cpu)@, extra) == operate(Opcode::Pla, old(cpu)@),
{
    proof {
        reveal(operate);
    }
    let v = cpu.pull();
    cpu.load_a(v);
    0
}

fn op_plp(cpu: &mut Cpu) -> (extra: u8)
    ensures
        (final(cpu)@, extra) == operate(Opcode::Plp, old(cpu)@),
{
    proof {
        reveal(operate);
    }
    cpu.status = cpu.pull();
    cpu.set_flag(Flags6502::Unused, true);
    0
}

fn op_rol(cpu: &mut Cpu) -> (extra: u8)
    ensures
        (final(cpu)@, extra) == operate(Opcode::Rol, old(cpu)@),
{
    proof {
        reveal(operate);
    }
    let carry = cpu.get_flag(Flags6502::Carry) == 1;
    cpu.fetch();
    cpu.shift_left(carry);
    0
}

fn op_ror(cpu: &mut Cpu) -> (extra: u8)
    ensures
        (final(cpu)@, extra) == operate(Opcode::Ror, old(cpu)@),
{
    proof {
        reveal(operate);
    }
    let carry = cpu.get_flag(Flags6502::Carry) == 1;
    cpu.fetch();
    cpu.shift_right(carry);
    0
}

fn op_rti(cpu: &mut Cpu) -> (extra: u8)
    ensures
        (final(cpu)@, extra) == operate(Opcode::Rti, old(cpu)@),
{
    proof {
        reveal(operate);
    }
    cpu.status = cpu.pull();
    cpu.set_flag(Flags6502::BreakCommand, false);
    cpu.set_flag(Flags6502::Unused, false);
    cpu.pc = cpu.pull_word();
    0
}

fn op_rts(cpu: &mut Cpu) -> (extra: u8)
    ensures
        (final(cpu)@, extra) == operate(Opcode::Rts, old(cpu)@),
{
    proof {
        reveal(operate);
    }
    let ret = cpu.pull_word();
    cpu.pc = add16(ret, 1);
    0
}

fn op_sbc(cpu: &mut Cpu) -> (extra: u8)
    ensures
        (final(cpu)@, extra) == operate(Opcode::Sbc, old(cpu)@),
{
    proof {
        reveal(operate);
    }
    cpu.fetch();
    let m = 0xFF - cpu.fetched;
    cpu.add_to_a(m);
    1
}

fn op_sec(cpu: &mut Cpu) -> (extra: u8)
    ensures
        (final(cpu)@, extra) == operate(Opcode::Sec, old(cpu)@),
{
    proof {
        reveal(operate);
    }
    cpu.set_flag(Flags6502::Carry, true);
    0
}

fn op_sed(cpu: &mut Cpu) -> (extra: u8)
    ensures
        (final(cpu)@, extra) == operate(Opcode::Sed, old(cpu)@),
{
    proof {
        reveal(operate);
    }
    cpu.set_flag(Flags6502::DecimalMode, true);
    0
}

fn op_sei(cpu: &mut Cpu) -> (extra: u8)
    ensures
        (final(cpu)@, extra) == operate(Opcode::Sei, old(cpu)@),
{
    proof {
        reveal(operate);
    }
    cpu.set_flag(Flags6502::InterruptDisable, true);
    0
}

fn op_sta(cpu: &mut Cpu) -> (extra: u8)
    ensures
        (final(cpu)@, extra) == operate(Opcode::Sta, old(cpu)@),
{
    proof {
        reveal(operate);
    }
    let (at, v) = (cpu.addr_abs, cpu.a_reg);
    cpu.write(at, v);
    0
}

fn op_stx(cpu: &mut Cpu) -> (extra: u8)
    ensures
        (final(cpu)@, extra) == operate(Opcode::Stx, old(cpu)@),
{
    proof {
        reveal(operate);
    }
    let (at, v) = (cpu.addr_abs, cpu.x_reg);
    cpu.write(at, v);
    0
}

fn op_sty(cpu: &mut Cpu) -> (extra: u8)
    ensures
        (final(cpu)@, extra) == operate(Opcode::Sty, old(cpu)@),
{
    proof {
        reveal(operate);
    }
    let (at, v) = (cpu.addr_abs, cpu.y_reg);
    cpu.write(at, v);
    0
}

fn op_tax(cpu: &mut Cpu) -> (extra: u8)
    ensures
        (final(cpu)@, extra) == operate(Opcode::Tax, old(cpu)@),
{
    proof {
        reveal(operate);
    }
    let v = cpu.a_reg;
    cpu.load_x(v);
    0
}

fn op_tay(cpu: &mut Cpu) -> (extra: u8)
    ensures
        (final(cpu)@, extra) == operate(Opcode::Tay, old(cpu)@),
{
    proof {
        reveal(operate);
    }
    let v = cpu.a_reg;
    cpu.load_y(v);
    0
}

fn op_tsx(cpu: &mut Cpu) -> (extra: u8)
    ensures
        (final(cpu)@, extra) == operate(Opcode::Tsx, old(cpu)@),
{
    proof {
        reveal(operate);
    }
    let v = cpu.stk_ptr;
    cpu.load_x(v);
    0
}

fn op_txa(cpu: &mut Cpu) -> (extra: u8)
    ensures
        (final(cpu)@, extra) == operate(Opcode::Txa, old(cpu)@),
{
    proof {
        reveal(operate);
    }
    let v = cpu.x_reg;
    cpu.load_a(v);
    0
}

fn op_txs(cpu: &mut Cpu) -> (extra: u8)
    ensures
        (final(cpu)@, extra) == operate(Opcode::Txs, old(cpu)@),
{
    proof {
        reveal(operate);
    }
    cpu.stk_ptr = cpu.x_reg;
    0
}

fn op_tya(cpu: &mut Cpu) -> (extra: u8)
    ensures
        (final(cpu)@, extra) == operate(Opcode::Tya, old(cpu)@),
{
    proof {
        reveal(operate);
    }
    let v = cpu.y_reg;
    cpu.load_a(v);
    0
}

fn op_kil(cpu: &mut Cpu) -> (extra: u8)
    ensures
        (final(cpu)@, extra) == operate(Opcode::Kil, old(cpu)@),
{
    proof {
        reveal(operate);
    }
    xxx()
}

impl Cpu {
    /// Adds `m` and the carry to A, setting C, Z, V and N.
    fn add_to_a(&mut self, m: u8)
        ensures
            final(self)@ == add_to_a(old(self)@, m),
    {
        let carry: u16 = if self.get_flag(Flags6502::Carry) == 1 {
            1
        } else {
            0
        };
        let a = self.a_reg;
        let sum: u16 = a as u16 + m as u16 + carry;
        let r = (sum % 0x100) as u8;
        let overflow = (a >= 0x80) == (m >= 0x80) && (r >= 0x80) != (a >= 0x80);
        self.a_reg = r;
        self.set_flag(Flags6502::Carry, sum > 0xFF);
        self.set_flag(Flags6502::Zero, r == 0);
        self.set_flag(Flags6502::Overflow, overflow);
        self.set_flag(Flags6502::Negative, r >= 0x80);
    }

    /// Sets A to `v`, with Z and N from it.
    fn load_a(&mut self, v: u8)
        ensures
            final(self)@ == load_a(old(self)@, v),
    {
        self.a_reg = v;
        self.set_zn(v);
    }

    /// Sets X to `v`, with Z and N from it.
    fn load_x(&mut self, v: u8)
        ensures
            final(self)@ == load_x(old(self)@, v),
    {
        self.x_reg = v;
        self.set_zn(v);
    }

    /// Sets Y to `v`, with Z and N from it.
    fn load_y(&mut self, v: u8)
        ensures
            final(self)@ == load_y(old(self)@, v),
    {
        self.y_reg = v;
        self.set_zn(v);
    }

    /// Stores a shift or rotate result where its operand came from: A for
    /// an implied instruction, else the effective address.
    fn store_back(&mut self, v: u8)
        ensures
            final(self)@ == old(self)@.store_back(v),
    {
        let (_, mode, _) = decode_entry(self.opcode);
        if mode == AddressingMode::Implied {
            self.a_reg = v;
        } else {
            let at = self.addr_abs;
            self.write(at, v);
        }
    }

    /// Shifts the operand left, `carry_in` entering bit 0.
    fn shift_left(&mut self, carry_in: bool)
        ensures
            final(self)@ == shift_left(old(self)@, carry_in),
    {
        let v = self.fetched;
        let low: u16 = if carry_in {
            1
        } else {
            0
        };
        let r = ((v as u16 * 2 + low) % 0x100) as u8;
        self.set_flag(Flags6502::Carry, v >= 0x80);
        self.set_zn(r);
        self.store_back(r);
    }

    /// Shifts the operand right, `carry_in` entering bit 7.
    fn shift_right(&mut self, carry_in: bool)
        ensures
            final(self)@ == shift_right(old(self)@, carry_in),
    {
        let v = self.fetched;
        let high: u8 = if carry_in {
            0x80
        } else {
            0
        };
        let r = v / 2 + high;
        self.set_flag(Flags6502::Carry, v % 2 == 1);
        self.set_zn(r);
        self.store_back(r);
    }

    /// Compares `reg` with the operand.
    fn compare(&mut self, reg: u8)
        ensures
            final(self)@ == compare(old(self)@, reg),
    {
        let m = self.fetched;
        self.set_flag(Flags6502::Carry, reg >= m);
        self.set_flag(Flags6502::Zero, reg == m);
        self.set_flag(Flags6502::Negative, sub8(reg, m) >= 0x80);
    }

    /// Takes a branch when `taken`: one more cycle, another when the target
    /// lies on another page, and PC moves by the relative offset.
    fn branch(&mut self, taken: bool)
        requires
            old(self).cycles_remaining <= 253,
        ensures
            final(self)@ == branch(old(self)@, taken),
    {
        if taken {
            self.cycles_remaining = self.cycles_remaining + 1;
            let target = add16(self.pc, self.addr_rel);
            if target / 0x100 != self.pc / 0x100 {
                self.cycles_remaining = self.cycles_remaining + 1;
            }
            self.addr_abs = target;
            self.pc = target;
        }
    }
}

} // verus!
