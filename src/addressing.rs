//! The twelve addressing modes: how an instruction's operand bytes become an
//! effective address or a branch offset.
use vstd::prelude::*;
use crate::arith::{add16, add8};
use crate::cpu::Cpu;
use crate::instruction::AddressingMode;
use crate::model::{address, page, penalty};

verus! {

impl AddressingMode {
    /// Reads the operand bytes at PC, advancing PC past them, and sets the
    /// effective address (`addr_abs`) or the branch offset (`addr_rel`).
    /// Returns 1 when an indexed address crosses into another page than its
    /// base, else 0.
    pub fn addr_mode_operation(&self, cpu: &mut Cpu) -> (extra: u8)
        ensures
            (final(cpu)@, extra) == address(*self, old(cpu)@),
    {
        match self {
            AddressingMode::Implied => implied(cpu),
            AddressingMode::Immediate => immediate(cpu),
            AddressingMode::ZeroPage => zero_page(cpu),
            AddressingMode::ZeroPage_X => zero_page_x(cpu),
            AddressingMode::ZeroPage_Y => zero_page_y(cpu),
            AddressingMode::Relative => relative(cpu),
            AddressingMode::Absolute => absolute(cpu),
            AddressingMode::Absolute_X => absolute_x(cpu),
            AddressingMode::Absolute_Y => absolute_y(cpu),
            AddressingMode::Indirect => indirect(cpu),
            AddressingMode::Indirect_X => indirect_x(cpu),
            AddressingMode::Indirect_Y => indirect_y(cpu),
        }
    }
}

fn implied(cpu: &mut Cpu) -> (extra: u8)
    ensures
        (final(cpu)@, extra) == address(AddressingMode::Implied, old(cpu)@),
{
    proof {
        reveal(address);
    }
    cpu.fetched = cpu.a_reg;
    0
}

fn immediate(cpu: &mut Cpu) -> (extra: u8)
    ensures
        (final(cpu)@, extra) == address(AddressingMode::Immediate, old(cpu)@),
{
    proof {
        reveal(address);
    }
    cpu.addr_abs = cpu.pc;
    cpu.pc = add16(cpu.pc, 1);
    0
}

fn zero_page(cpu: &mut Cpu) -> (extra: u8)
    ensures
        (final(cpu)@, extra) == address(AddressingMode::ZeroPage, old(cpu)@),
{
    proof {
        reveal(address);
    }
    cpu.addr_abs = cpu.read(cpu.pc) as u16;
    cpu.pc = add16(cpu.pc, 1);
    0
}

fn zero_page_x(cpu: &mut Cpu) -> (extra: u8)
    ensures
        (final(cpu)@, extra) == address(AddressingMode::ZeroPage_X, old(cpu)@),
{
    proof {
        reveal(address);
    }
    cpu.addr_abs = add8(cpu.read(cpu.pc), cpu.x_reg) as u16;
    cpu.pc = add16(cpu.pc, 1);
    0
}

fn zero_page_y(cpu: &mut Cpu) -> (extra: u8)
    ensures
        (final(cpu)@, extra) == address(AddressingMode::ZeroPage_Y, old(cpu)@),
{
    proof {
        reveal(address);
    }
    cpu.addr_abs = add8(cpu.read(cpu.pc), cpu.y_reg) as u16;
    cpu.pc = add16(cpu.pc, 1);
    0
}

fn relative(cpu: &mut Cpu) -> (extra: u8)
    ensures
        (final(cpu)@, extra) == address(AddressingMode::Relative, old(cpu)@),
{
    proof {
        reveal(address);
    }
    let offset = cpu.read(cpu.pc);
    cpu.pc = add16(cpu.pc, 1);
    cpu.addr_rel = if offset >= 0x80 {
        0xFF00 + offset as u16
    } else {
        offset as u16
    };
    0
}

fn absolute(cpu: &mut Cpu) -> (extra: u8)
    ensures
        (final(cpu)@, extra) == address(AddressingMode::Absolute, old(cpu)@),
{
    proof {
        reveal(address);
    }
    cpu.addr_abs = cpu.read_word(cpu.pc);
    cpu.pc = add16(cpu.pc, 2);
    0
}

fn absolute_x(cpu: &mut Cpu) -> (extra: u8)
    ensures
        (final(cpu)@, extra) == address(AddressingMode::Absolute_X, old(cpu)@),
{
    proof {
        reveal(address);
    }
    let base = cpu.read_word(cpu.pc);
    cpu.pc = add16(cpu.pc, 2);
    cpu.addr_abs = add16(base, cpu.x_reg as u16);
    let extra = page_cross(base, cpu.addr_abs);
    extra
}

fn absolute_y(cpu: &mut Cpu) -> (extra: u8)
    ensures
        (final(cpu)@, extra) == address(AddressingMode::Absolute_Y, old(cpu)@),
{
    proof {
        reveal(address);
    }
    let base = cpu.read_word(cpu.pc);
    cpu.pc = add16(cpu.pc, 2);
    cpu.addr_abs = add16(base, cpu.y_reg as u16);
    let extra = page_cross(base, cpu.addr_abs);
    extra
}

fn indirect(cpu: &mut Cpu) -> (extra: u8)
    ensures
        (final(cpu)@, extra) == address(AddressingMode::Indirect, old(cpu)@),
{
    proof {
        reveal(address);
    }
    let ptr = cpu.read_word(cpu.pc);
    cpu.pc = add16(cpu.pc, 2);
    let hi_at = if ptr % 0x100 == 0xFF {
        ptr - 0xFF
    } else {
        ptr + 1
    };
    let lo = cpu.read(ptr);
    let hi = cpu.read(hi_at);
    cpu.addr_abs = (hi as u16) * 0x100 + (lo as u16);
    0
}

fn indirect_x(cpu: &mut Cpu) -> (extra: u8)
    ensures
        (final(cpu)@, extra) == address(AddressingMode::Indirect_X, old(cpu)@),
{
    proof {
        reveal(address);
    }
    let t = cpu.read(cpu.pc);
    cpu.pc = add16(cpu.pc, 1);
    let lo = cpu.read(add8(t, cpu.x_reg) as u16);
    let hi = cpu.read(add8(add8(t, cpu.x_reg), 1) as u16);
    cpu.addr_abs = (hi as u16) * 0x100 + (lo as u16);
    0
}

fn indirect_y(cpu: &mut Cpu) -> (extra: u8)
    ensures
        (final(cpu)@, extra) == address(AddressingMode::Indirect_Y, old(cpu)@),
{
    proof {
        reveal(address);
    }
    let t = cpu.read(cpu.pc);
    cpu.pc = add16(cpu.pc, 1);
    let lo = cpu.read(t as u16);
    let hi = cpu.read(add8(t, 1) as u16);
    let base = (hi as u16) * 0x100 + (lo as u16);
    cpu.addr_abs = add16(base, cpu.y_reg as u16);
    let extra = page_cross(base, cpu.addr_abs);
    extra
}

/// 1 when `target` lies on another page than `base`, else 0.
fn page_cross(base: u16, target: u16) -> (extra: u8)
    ensures
    extra == penalty(page(target) != page(base)),
{
    if target / 0x100 != base / 0x100 {
    1
    } else {
    0
    }
}

} // verus!
