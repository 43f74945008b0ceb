//! Laws of the machine, proved over the model that the processor follows.
use vstd::prelude::*;
use crate::bus::MEMORY_SIZE;
use crate::instruction::{AddressingMode, Opcode, decoded_mode, decoded_opcode, lemma_cycles_bounded};
use crate::model::{
    CpuState, absolute, address, begin, execute, index_base, irq_state, is_negative, lemma_address_keeps_cycles,
    lemma_operate_cycles, jsr, load_a, nmi_state, operate, pla, plp, reset_state, retire, rts, stack_addr,
    tick, word, wrap16, wrap8,
};
use crate::status::{Flags6502, has_bits, lemma_flag_after_update, with_bits};

verus! {

/// While an instruction still owes cycles, P's Unused bit is set.
pub open spec fn unused_while_busy(s: CpuState) -> bool {
    s.cycles_remaining > 0 ==> s.flag(Flags6502::Unused)
}

/// Starting an instruction leaves P's Unused bit set and owes at least one
/// more tick; paying a tick leaves P alone. So when an instruction
/// completes, Unused is 1, and the property that Unused is set while cycles
/// are owed is kept by every tick and made by reset and both interrupts.
pub proof fn lemma_unused_after_instruction(s: CpuState)
    requires
        s.cycles_remaining >= 0,
        unused_while_busy(s),
    ensures
        s.cycles_remaining == 0 ==> tick(s).flag(Flags6502::Unused) && tick(s).cycles_remaining >= 1,
        s.cycles_remaining > 0 ==> tick(s).status == s.status,
        tick(s).cycles_remaining == 0 ==> tick(s).flag(Flags6502::Unused),
        unused_while_busy(tick(s)),
        unused_while_busy(reset_state(s)),
        unused_while_busy(irq_state(s)),
        unused_while_busy(nmi_state(s)),
{
    reveal(execute);
    if s.cycles_remaining == 0 {
        let s1 = begin(s);
        lemma_cycles_bounded(s1.opcode);
        lemma_address_keeps_cycles(decoded_mode(s1.opcode), s1);
        let s2 = address(decoded_mode(s1.opcode), s1).0;
        lemma_operate_cycles(decoded_opcode(s1.opcode), s2);
        let s3 = operate(decoded_opcode(s1.opcode), s2).0;
        assert(has_bits(with_bits(s3.status, Flags6502::Unused.bit(), true), Flags6502::Unused.bit()))
            by {
            broadcast use lemma_flag_after_update;

        }
    }
    assert(0x20u8 & 0x20u8 != 0) by (bit_vector);
    let i = s.push_pc().with_flag(Flags6502::BreakCommand, false).with_flag(
        Flags6502::InterruptDisable,
        true,
    );
    assert(has_bits(with_bits(i.status, Flags6502::Unused.bit(), true), Flags6502::Unused.bit())) by {
        broadcast use lemma_flag_after_update;

    }
}

/// Every tick adds exactly one to the tick count.
pub proof fn lemma_tick_counts(s: CpuState)
    ensures
        tick(s).clock_count == s.clock_count + 1,
{
    reveal(execute);
    if s.cycles_remaining <= 0 {
        let s1 = begin(s);
        lemma_address_keeps_cycles(decoded_mode(s1.opcode), s1);
        lemma_operate_cycles(decoded_opcode(s1.opcode), address(decoded_mode(s1.opcode), s1).0);
    }
}

/// A byte pushed and then pulled comes back, and the stack pointer returns
/// to where it was, for every stack pointer (0x00 wraps to 0xFF and back).
pub proof fn lemma_push_then_pull(s: CpuState, v: u8)
    requires
        s.mem.len() == MEMORY_SIZE,
    ensures
        s.push(v).pull().1 == v,
        s.push(v).pull().0.stk_ptr == s.stk_ptr,
{
}

/// Writing byte `b` at address `a` and reading `a` back gives `b`.
pub proof fn lemma_write_then_read(mem: Seq<u8>, a: u16, b: u8)
    requires
        mem.len() == MEMORY_SIZE,
    ensures
        mem.update(a as int, b)[a as int] == b,
{
}

proof fn lemma_same_page(a: u16, b: u16)
    by (bit_vector)
    ensures
        ((a & 0xFF00) == (b & 0xFF00)) == (a / 0x100 == b / 0x100),
{
}

/// For the modes that may cross a page, the extra-cycle answer is 1 exactly
/// when the effective address and the address before indexing differ in
/// their high byte.
pub proof fn lemma_page_cross_bit(mode: AddressingMode, s: CpuState)
    requires
        mode == AddressingMode::Absolute_X || mode == AddressingMode::Absolute_Y || mode
            == AddressingMode::Indirect_Y,
    ensures
        address(mode, s).1 == (if address(mode, s).0.addr_abs & 0xFF00 != index_base(mode, s)
            & 0xFF00 {
            1u8
        } else {
            0u8
        }),
{
    reveal(address);
    lemma_same_page(address(mode, s).0.addr_abs, index_base(mode, s));
}

/// The start tick of the one-byte instruction at PC whose decode-table entry
/// is `op` in implied mode.
proof fn lemma_execute_implied(s: CpuState, op: Opcode)
    requires
        decoded_mode(s.read(s.pc)) == AddressingMode::Implied,
        decoded_opcode(s.read(s.pc)) == op,
    ensures
        execute(s) == retire(
            operate(op, CpuState { fetched: begin(s).a, ..begin(s) }).0,
            0,
            operate(op, CpuState { fetched: begin(s).a, ..begin(s) }).1,
        ),
{
    reveal(execute);
    reveal(address);
}

/// The start tick of the instruction at PC whose decode-table entry is `op`
/// in `mode`.
proof fn lemma_execute_stages(s: CpuState, op: Opcode, mode: AddressingMode)
    requires
        decoded_mode(s.read(s.pc)) == mode,
        decoded_opcode(s.read(s.pc)) == op,
    ensures
        execute(s) == retire(
            operate(op, address(mode, begin(s)).0).0,
            address(mode, begin(s)).1,
            operate(op, address(mode, begin(s)).0).1,
        ),
{
    reveal(execute);
}

/// JSR followed (in the subroutine) by RTS resumes at the instruction after
/// the three bytes of the JSR, with the stack pointer where it was.
#[verifier::spinoff_prover]
#[verifier::rlimit(40)]
pub proof fn lemma_jsr_then_rts(s: CpuState)
    requires
        s.mem.len() == MEMORY_SIZE,
        s.read(s.pc) == 0x20,
        execute(s).read(execute(s).pc) == 0x60,
    ensures
        execute(execute(s)).pc == wrap16(s.pc + 3),
        execute(execute(s)).stk_ptr == s.stk_ptr,
{
    lemma_execute_stages(s, Opcode::Jsr, AddressingMode::Absolute);
    assert(address(AddressingMode::Absolute, begin(s)) == absolute(begin(s), 0)) by {
        reveal(address);
    }
    let t0 = address(AddressingMode::Absolute, begin(s)).0;
    assert(t0.pc == wrap16(s.pc + 3));
    assert(operate(Opcode::Jsr, t0) == (jsr(t0), 0u8)) by {
        reveal(operate);
    }
    let ret = wrap16(s.pc + 2);
    assert(wrap16(t0.pc - 1) == ret);
    let s1 = execute(s);
    assert(s1.stk_ptr == wrap8(s.stk_ptr - 2));
    assert(stack_addr(s.stk_ptr) != stack_addr(wrap8(s.stk_ptr - 1)));
    assert(s1.read(stack_addr(s.stk_ptr)) == (ret / 0x100) as u8);
    assert(s1.read(stack_addr(wrap8(s.stk_ptr - 1))) == (ret % 0x100) as u8);
    lemma_execute_implied(s1, Opcode::Rts);
    let t1 = CpuState { fetched: begin(s1).a, ..begin(s1) };
    assert(operate(Opcode::Rts, t1) == (rts(t1), 0u8)) by {
        reveal(operate);
    }
    assert(word((ret % 0x100) as u8, (ret / 0x100) as u8) == ret);
}

/// PHA followed by PLA gives A back, sets Z and N from it, and leaves the
/// stack pointer where it was.
#[verifier::spinoff_prover]
#[verifier::rlimit(40)]
pub proof fn lemma_pha_then_pla(s: CpuState)
    requires
        s.mem.len() == MEMORY_SIZE,
        s.read(s.pc) == 0x48,
        execute(s).read(execute(s).pc) == 0x68,
    ensures
        execute(execute(s)).a == s.a,
        execute(execute(s)).flag(Flags6502::Zero) == (s.a == 0),
        execute(execute(s)).flag(Flags6502::Negative) == is_negative(s.a),
        execute(execute(s)).stk_ptr == s.stk_ptr,
{
    lemma_execute_implied(s, Opcode::Pha);
    let t0 = CpuState { fetched: begin(s).a, ..begin(s) };
    assert(operate(Opcode::Pha, t0) == (t0.push(t0.a), 0u8)) by {
        reveal(operate);
    }
    let s1 = execute(s);
    assert(s1.stk_ptr == wrap8(s.stk_ptr - 1));
    assert(s1.read(stack_addr(s.stk_ptr)) == s.a);
    lemma_execute_implied(s1, Opcode::Pla);
    let t = CpuState { fetched: begin(s1).a, ..begin(s1) };
    assert(operate(Opcode::Pla, t) == (pla(t), 0u8)) by {
        reveal(operate);
    }
    let u = load_a(CpuState { stk_ptr: s.stk_ptr, ..t }, s.a);
    assert(pla(t) == u);
    let s2 = execute(s1);
    assert(s2 == retire(u, 0, 0));
    assert(s2.flag(Flags6502::Zero) == (s.a == 0) && s2.flag(Flags6502::Negative) == is_negative(
        s.a,
    )) by {
        broadcast use lemma_flag_after_update;

    }
}

/// PHP followed by PLP gives P back, all but Break and Unused, and leaves the
/// stack pointer where it was.
#[verifier::spinoff_prover]
#[verifier::rlimit(40)]
pub proof fn lemma_php_then_plp(s: CpuState)
    requires
        s.mem.len() == MEMORY_SIZE,
        s.read(s.pc) == 0x08,
        execute(s).read(execute(s).pc) == 0x28,
    ensures
        forall|g: Flags6502|
            g != Flags6502::BreakCommand && g != Flags6502::Unused ==> #[trigger] execute(
                execute(s),
            ).flag(g) == s.flag(g),
        execute(execute(s)).stk_ptr == s.stk_ptr,
{
    lemma_execute_implied(s, Opcode::Php);
    let t0 = CpuState { fetched: begin(s).a, ..begin(s) };
    assert(operate(Opcode::Php, t0) == (t0.push(t0.status), 0u8)) by {
        reveal(operate);
    }
    let s1 = execute(s);
    let pushed = with_bits(s.status, Flags6502::Unused.bit(), true);
    assert(s1.stk_ptr == wrap8(s.stk_ptr - 1));
    assert(s1.read(stack_addr(s.stk_ptr)) == pushed);
    lemma_execute_implied(s1, Opcode::Plp);
    let t = CpuState { fetched: begin(s1).a, ..begin(s1) };
    assert(operate(Opcode::Plp, t) == (plp(t), 0u8)) by {
        reveal(operate);
    }
    let restored = with_bits(pushed, Flags6502::Unused.bit(), true);
    assert(plp(t) == CpuState { stk_ptr: s.stk_ptr, status: restored, ..t });
    let s2 = execute(s1);
    assert(s2.status == with_bits(restored, Flags6502::Unused.bit(), true));
    assert(s2.stk_ptr == s.stk_ptr);
    assert forall|g: Flags6502|
        g != Flags6502::BreakCommand && g != Flags6502::Unused implies #[trigger] s2.flag(g) == s.flag(
            g,
        ) by {
        broadcast use lemma_flag_after_update;

    }
}

} // verus!
