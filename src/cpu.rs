//! The processor: its registers, the bus it drives, and the reset,
//! interrupt and clock entry points.
use vstd::prelude::*;
use crate::arith::{add16, add8, sub8};
use crate::bus::{Bus, MEMORY_SIZE};
use crate::instruction::{AddressingMode, decode_entry, lemma_cycles_bounded};
use crate::model::{
    CpuState, IRQ_VECTOR, execute, NMI_VECTOR, RESET_VECTOR, STACK_BASE, irq_state, lemma_address_keeps_cycles,
    lemma_operate_cycles, nmi_state, reset_state, tick,
};
use crate::status::{Flags6502, lemma_with_bits};

verus! {

/// A 6502 wired to a bus.
pub struct Cpu {
    /// Accumulator.
    pub a_reg: u8,
    /// X index register.
    pub x_reg: u8,
    /// Y index register.
    pub y_reg: u8,
    /// Stack pointer: the next free slot is at 0x0100 + S.
    pub stk_ptr: u8,
    /// Program counter.
    pub pc: u16,
    /// Status register P.
    pub status: u8,
    /// The memory the processor reads and writes.
    pub bus: Bus,
    /// The operand of the current instruction.
    pub fetched: u8,
    /// Ticks still owed before the current instruction retires.
    pub cycles_remaining: u8,
    /// Ticks since the processor was made.
    pub clock_count: usize,
    /// Effective address of the current instruction.
    pub addr_abs: u16,
    /// Sign-extended branch offset of the current instruction.
    pub addr_rel: u16,
    /// The opcode byte of the current instruction.
    pub opcode: u8,
}

impl View for Cpu {
    type V = CpuState;

    open spec fn view(&self) -> CpuState {
        CpuState {
            a: self.a_reg,
            x: self.x_reg,
            y: self.y_reg,
            stk_ptr: self.stk_ptr,
            pc: self.pc,
            status: self.status,
            fetched: self.fetched,
            addr_abs: self.addr_abs,
            addr_rel: self.addr_rel,
            opcode: self.opcode,
            cycles_remaining: self.cycles_remaining as int,
            clock_count: self.clock_count as int,
            mem: self.bus@,
        }
    }
}

impl Cpu {
    /// A processor with every register zero, attached to a cleared bus.
    pub fn new() -> (cpu: Cpu)
        ensures
            cpu@ == (CpuState {
                a: 0,
                x: 0,
                y: 0,
                stk_ptr: 0,
                pc: 0,
                status: 0,
                fetched: 0,
                addr_abs: 0,
                addr_rel: 0,
                opcode: 0,
                cycles_remaining: 0,
                clock_count: 0,
                mem: Seq::new(MEMORY_SIZE as nat, |i: int| 0u8),
            }),
    {
        Cpu {
            a_reg: 0x00,
            x_reg: 0x00,
            y_reg: 0x00,
            stk_ptr: 0x00,
            pc: 0x0000,
            status: 0x00,
            bus: Bus::new(),
            fetched: 0,
            cycles_remaining: 0,
            clock_count: 0,
            addr_abs: 0x0000,
            addr_rel: 0x0000,
            opcode: 0x00,
        }
    }

    /// Attaches the processor to `bus`, leaving the registers as they are.
    pub fn connect_to_bus(&mut self, bus: Bus)
        ensures
            final(self)@ == (CpuState { mem: bus@, ..old(self)@ }),
    {
        self.bus = bus;
    }

    /// The byte at `addr` on the bus.
    pub fn read(&self, addr: u16) -> (data: u8)
        ensures
            self@.mem.len() == MEMORY_SIZE,
            data == self@.read(addr),
    {
        self.bus.read(addr, false)
    }

    /// Stores `data` at `addr` on the bus.
    pub fn write(&mut self, addr: u16, data: u8)
        ensures
            old(self)@.mem.len() == MEMORY_SIZE,
            final(self)@ == old(self)@.write(addr, data),
    {
        self.bus.write(addr, data);
    }

    /// The little-endian word at `addr` and the address after it.
    pub(crate) fn read_word(&self, addr: u16) -> (w: u16)
        ensures
            w == self@.read_word(addr),
    {
        let lo = self.read(addr);
        let hi = self.read(add16(addr, 1));
        (hi as u16) * 0x100 + (lo as u16)
    }

    /// 1 when `flag` is set in P, else 0.
    pub fn get_flag(&self, flag: Flags6502) -> (v: u8)
        ensures
            v == (if self@.flag(flag) {
                1u8
            } else {
                0u8
            }),
    {
        if self.status & flag.mask() != 0 {
            1
        } else {
            0
        }
    }

    /// Sets `flag` in P to `v`, leaving the other flags alone.
    pub fn set_flag(&mut self, flag: Flags6502, v: bool)
        ensures
            final(self)@ == old(self)@.with_flag(flag, v),
            final(self)@.flag(flag) == v,
            forall|g: Flags6502| g != flag ==> #[trigger] final(self)@.flag(g) == old(self)@.flag(g),
    {
        proof {
            lemma_with_bits(self.status, flag, v);
        }
        if v {
            self.status = self.status | flag.mask();
        } else {
            self.status = self.status & !flag.mask();
        }
    }

    /// Clears `flag` in P.
    pub fn unset_flag(&mut self, flag: Flags6502)
        ensures
            final(self)@ == old(self)@.with_flag(flag, false),
    {
        self.set_flag(flag, false);
    }

    /// Sets Zero and Negative from the result `v`.
    pub(crate) fn set_zn(&mut self, v: u8)
        ensures
            final(self)@ == old(self)@.with_zn(v),
    {
        self.set_flag(Flags6502::Zero, v == 0);
        self.set_flag(Flags6502::Negative, v >= 0x80);
    }

    /// Writes `v` at the top of the stack, which then grows down by one.
    pub(crate) fn push(&mut self, v: u8)
        ensures
            final(self)@ == old(self)@.push(v),
    {
        self.write(STACK_BASE + self.stk_ptr as u16, v);
        self.stk_ptr = sub8(self.stk_ptr, 1);
    }

    /// Shrinks the stack by one and returns the byte that was on top.
    pub(crate) fn pull(&mut self) -> (v: u8)
        ensures
            (final(self)@, v) == old(self)@.pull(),
    {
        self.stk_ptr = add8(self.stk_ptr, 1);
        self.read(STACK_BASE + self.stk_ptr as u16)
    }

    /// Pushes PC, high byte first.
    pub(crate) fn push_pc(&mut self)
        ensures
            final(self)@ == old(self)@.push_pc(),
    {
        self.push((self.pc / 0x100) as u8);
        self.push((self.pc % 0x100) as u8);
    }

    /// Pulls a word, low byte first.
    pub(crate) fn pull_word(&mut self) -> (w: u16)
        ensures
            (final(self)@, w) == old(self)@.pull_word(),
    {
        let lo = self.pull();
        let hi = self.pull();
        (hi as u16) * 0x100 + (lo as u16)
    }

    /// Reads the operand from the effective address, unless the current
    /// instruction is implied and its operand is already A.
    pub(crate) fn fetch(&mut self)
        ensures
            final(self)@ == old(self)@.fetch(),
    {
        let (_, mode, _) = decode_entry(self.opcode);
        if mode != AddressingMode::Implied {
            self.fetched = self.read(self.addr_abs);
        }
    }

    /// Puts the processor in its known starting state: PC from the reset
    /// vector, A, X and Y zero, S at 0xFD, P holding only Unused, and eight
    /// ticks owed.
    pub fn reset(&mut self)
        ensures
            final(self)@ == reset_state(old(self)@),
            final(self).a_reg == 0 && final(self).x_reg == 0 && final(self).y_reg == 0,
            final(self).stk_ptr == 0xFD,
            final(self).pc == old(self)@.read_word(RESET_VECTOR),
            final(self).cycles_remaining == 8,
    {
        self.pc = self.read_word(RESET_VECTOR);
        self.a_reg = 0x00;
        self.x_reg = 0x00;
        self.y_reg = 0x00;
        self.stk_ptr = 0xFD;
        self.status = Flags6502::Unused.mask();
        self.addr_abs = 0x0000;
        self.addr_rel = 0x0000;
        self.fetched = 0x00;
        self.cycles_remaining = 8;
    }

    /// Saves PC and P on the stack and jumps through `vector`.
    fn interrupt(&mut self, vector: u16, cycles: u8)
        ensures
            final(self)@ == old(self)@.interrupt(vector, cycles as int),
    {
        self.push_pc();
        self.set_flag(Flags6502::BreakCommand, false);
        self.set_flag(Flags6502::InterruptDisable, true);
        self.set_flag(Flags6502::Unused, true);
        let p = self.status;
        self.push(p);
        self.pc = self.read_word(vector);
        self.cycles_remaining = cycles;
    }

    /// A maskable interrupt request: taken through the vector at 0xFFFE in
    /// seven ticks unless InterruptDisable is set, in which case nothing
    /// happens.
    pub fn irq(&mut self)
        ensures
            final(self)@ == irq_state(old(self)@),
    {
        if self.get_flag(Flags6502::InterruptDisable) == 0 {
            self.interrupt(IRQ_VECTOR, 7);
        }
    }

    /// A non-maskable interrupt: always taken, through the vector at 0xFFFA,
    /// in eight ticks.
    pub fn nmi(&mut self)
        ensures
            final(self)@ == nmi_state(old(self)@),
    {
        self.interrupt(NMI_VECTOR, 8);
    }

    /// One clock tick. While the current instruction still owes cycles, one
    /// is paid and nothing else happens; otherwise the next instruction is
    /// fetched, decoded and performed, and the cycles it takes (base count,
    /// page-cross and branch penalties) are charged, this tick included.
    /// Either way the tick count grows by one.
    pub fn clock(&mut self)
        requires
            old(self).clock_count < usize::MAX,
        ensures
            final(self)@ == tick(old(self)@),
            final(self).clock_count == old(self).clock_count + 1,
    {
        proof {
            reveal(execute);
        }
        if self.cycles_remaining == 0 {
            self.opcode = self.read(self.pc);
            self.set_flag(Flags6502::Unused, true);
            self.pc = add16(self.pc, 1);
            let (opcode, mode, cycles) = decode_entry(self.opcode);
            self.cycles_remaining = cycles;
            proof {
                lemma_cycles_bounded(self.opcode);
                lemma_address_keeps_cycles(mode, self@);
            }
            let extra_mode = mode.addr_mode_operation(self);
            proof {
                lemma_operate_cycles(opcode, self@);
            }
            let extra_op = opcode.opcode_operation(self);
            let extra: u8 = if extra_mode == 1 && extra_op == 1 {
                1
            } else {
                0
            };
            self.cycles_remaining = self.cycles_remaining + extra;
            self.set_flag(Flags6502::Unused, true);
            self.cycles_remaining = self.cycles_remaining - 1;
        } else {
            self.cycles_remaining = self.cycles_remaining - 1;
        }
        self.clock_count = self.clock_count + 1;
    }

    /// Whether the current instruction has retired, so that the next tick
    /// starts a new one.
    pub fn is_complete(&self) -> (done: bool)
        ensures
            done == (self.cycles_remaining == 0),
    {
        self.cycles_remaining == 0
    }
}

} // verus!
