use cpu6502::{Cpu, Flags6502};

/// A processor with `program` at `origin`, the reset vector pointing there,
/// and the reset sequence already paid for.
fn boot(origin: u16, program: &[u8]) -> Cpu {
    let mut cpu = Cpu::new();
    for (i, b) in program.iter().enumerate() {
        cpu.write(origin + i as u16, *b);
    }
    cpu.write(0xFFFC, (origin & 0xFF) as u8);
    cpu.write(0xFFFD, (origin >> 8) as u8);
    cpu.reset();
    while !cpu.is_complete() {
        cpu.clock();
    }
    cpu
}

/// Runs one whole instruction and returns the ticks it took.
fn step(cpu: &mut Cpu) -> u32 {
    let mut ticks = 0;
    loop {
        cpu.clock();
        ticks += 1;
        if cpu.is_complete() {
            return ticks;
        }
    }
}

fn flag(cpu: &Cpu, f: Flags6502) -> u8 {
    cpu.get_flag(f)
}

#[test]
fn load_immediate() {
    let mut cpu = boot(0x8000, &[0xA9, 0x42]);
    assert_eq!(cpu.pc, 0x8000);
    let ticks = step(&mut cpu);
    assert_eq!(ticks, 2);
    assert_eq!(cpu.a_reg, 0x42);
    assert_eq!(flag(&cpu, Flags6502::Zero), 0);
    assert_eq!(flag(&cpu, Flags6502::Negative), 0);
    assert_eq!(cpu.pc, 0x8002);
}

#[test]
fn add_with_carry() {
    let mut cpu = boot(0x8000, &[0xA9, 0x10, 0x69, 0x20]);
    assert_eq!(flag(&cpu, Flags6502::Carry), 0);
    step(&mut cpu);
    step(&mut cpu);
    assert_eq!(cpu.a_reg, 0x30);
    assert_eq!(flag(&cpu, Flags6502::Carry), 0);
    assert_eq!(flag(&cpu, Flags6502::Overflow), 0);
    assert_eq!(flag(&cpu, Flags6502::Zero), 0);
    assert_eq!(flag(&cpu, Flags6502::Negative), 0);
}

#[test]
fn add_with_carry_overflow_and_carry_out() {
    // LDA #$50; ADC #$50 -> 0xA0, signed overflow
    let mut cpu = boot(0x8000, &[0xA9, 0x50, 0x69, 0x50, 0xA9, 0xFF, 0x69, 0x01]);
    step(&mut cpu);
    step(&mut cpu);
    assert_eq!(cpu.a_reg, 0xA0);
    assert_eq!(flag(&cpu, Flags6502::Overflow), 1);
    assert_eq!(flag(&cpu, Flags6502::Negative), 1);
    assert_eq!(flag(&cpu, Flags6502::Carry), 0);
    // LDA #$FF; ADC #$01 -> 0x00 with carry out
    step(&mut cpu);
    step(&mut cpu);
    assert_eq!(cpu.a_reg, 0x00);
    assert_eq!(flag(&cpu, Flags6502::Carry), 1);
    assert_eq!(flag(&cpu, Flags6502::Zero), 1);
    assert_eq!(flag(&cpu, Flags6502::Overflow), 0);
}

#[test]
fn subtract_with_borrow() {
    // SEC; LDA #$50; SBC #$F0 -> 0x60, borrow (C=0), no overflow
    let mut cpu = boot(0x8000, &[0x38, 0xA9, 0x50, 0xE9, 0xF0]);
    step(&mut cpu);
    step(&mut cpu);
    step(&mut cpu);
    assert_eq!(cpu.a_reg, 0x60);
    assert_eq!(flag(&cpu, Flags6502::Carry), 0);
    assert_eq!(flag(&cpu, Flags6502::Overflow), 0);
}

#[test]
fn branch_taken_across_page() {
    let mut cpu = boot(0x80FD, &[0xD0, 0x04]);
    assert_eq!(flag(&cpu, Flags6502::Zero), 0);
    let ticks = step(&mut cpu);
    assert_eq!(cpu.pc, 0x8103);
    assert_eq!(ticks, 4);
}

#[test]
fn branch_not_taken_and_backwards() {
    // LDA #$00 sets Z; BNE is not taken (2 ticks); BEQ -4 goes back within the page (3 ticks)
    let mut cpu = boot(0x8010, &[0xA9, 0x00, 0xD0, 0x10, 0xF0, 0xFC]);
    step(&mut cpu);
    assert_eq!(step(&mut cpu), 2);
    assert_eq!(cpu.pc, 0x8014);
    assert_eq!(step(&mut cpu), 3);
    assert_eq!(cpu.pc, 0x8012);
}

#[test]
fn stack_push_pull() {
    let mut cpu = boot(0x8000, &[0xA9, 0xAA, 0x48, 0xA9, 0x00, 0x68]);
    for _ in 0..4 {
        step(&mut cpu);
    }
    assert_eq!(cpu.a_reg, 0xAA);
    assert_eq!(flag(&cpu, Flags6502::Zero), 0);
    assert_eq!(flag(&cpu, Flags6502::Negative), 1);
    assert_eq!(cpu.stk_ptr, 0xFD);
}

#[test]
fn push_pull_across_stack_wrap() {
    let mut cpu = boot(0x8000, &[0xA9, 0x5C, 0x48, 0xA9, 0x00, 0x68]);
    cpu.stk_ptr = 0x00;
    step(&mut cpu);
    step(&mut cpu);
    assert_eq!(cpu.stk_ptr, 0xFF);
    assert_eq!(cpu.read(0x0100), 0x5C);
    step(&mut cpu);
    step(&mut cpu);
    assert_eq!(cpu.stk_ptr, 0x00);
    assert_eq!(cpu.a_reg, 0x5C);
}

#[test]
fn indirect_jump_page_bug() {
    let mut cpu = boot(0x8000, &[0x6C, 0xFF, 0x30]);
    cpu.write(0x30FF, 0x80);
    cpu.write(0x3000, 0x50);
    cpu.write(0x3100, 0x90);
    step(&mut cpu);
    assert_eq!(cpu.pc, 0x5080);
}

#[test]
fn brk_then_rti() {
    let mut cpu = boot(0x8000, &[0x00, 0xEA, 0xEA]);
    cpu.write(0xFFFE, 0x00);
    cpu.write(0xFFFF, 0x90);
    cpu.write(0x9000, 0x40);
    step(&mut cpu);
    assert_eq!(cpu.pc, 0x9000);
    assert_eq!(flag(&cpu, Flags6502::InterruptDisable), 1);
    assert_eq!(flag(&cpu, Flags6502::BreakCommand), 0);
    // the pushed status has Break set
    assert_eq!(cpu.read(0x0100 + cpu.stk_ptr as u16 + 1) & 0x10, 0x10);
    step(&mut cpu);
    assert_eq!(cpu.pc, 0x8002);
    assert_eq!(flag(&cpu, Flags6502::BreakCommand), 0);
    assert_eq!(cpu.stk_ptr, 0xFD);
    step(&mut cpu);
    assert_eq!(flag(&cpu, Flags6502::Unused), 1);
    assert_eq!(cpu.pc, 0x8003);
}

#[test]
fn unused_is_set_after_every_instruction() {
    let mut cpu = boot(0x8000, &[0xA9, 0x00, 0x48, 0x28, 0xEA, 0x08, 0x68]);
    for _ in 0..5 {
        step(&mut cpu);
        assert_eq!(flag(&cpu, Flags6502::Unused), 1);
    }
}

#[test]
fn clock_count_grows_by_one_per_tick() {
    let mut cpu = boot(0x8000, &[0xA9, 0x42, 0xEA]);
    let before = cpu.clock_count;
    for i in 1..=5 {
        cpu.clock();
        assert_eq!(cpu.clock_count, before + i);
    }
}

#[test]
fn reset_takes_eight_ticks() {
    let mut cpu = Cpu::new();
    cpu.reset();
    let mut ticks = 0;
    while !cpu.is_complete() {
        cpu.clock();
        ticks += 1;
    }
    assert_eq!(ticks, 8);
    assert_eq!(cpu.clock_count, 8);
}

#[test]
fn absolute_indexed_page_cross_costs_a_cycle() {
    // LDX #$01; LDA $80FF,X (crosses); LDA $8000,X (does not)
    let mut cpu = boot(0x8000, &[0xA2, 0x01, 0xBD, 0xFF, 0x80, 0xBD, 0x00, 0x80]);
    step(&mut cpu);
    assert_eq!(step(&mut cpu), 5);
    assert_eq!(cpu.addr_abs, 0x8100);
    assert_eq!(step(&mut cpu), 4);
    assert_eq!(cpu.addr_abs, 0x8001);
    assert_eq!(cpu.a_reg, 0x01);
}

#[test]
fn store_never_pays_the_page_cross() {
    // LDX #$01; STA $80FF,X: five base cycles whatever the page
    let mut cpu = boot(0x8000, &[0xA2, 0x01, 0x9D, 0xFF, 0x80]);
    step(&mut cpu);
    assert_eq!(step(&mut cpu), 5);
}

#[test]
fn indirect_indexed_page_cross() {
    // LDY #$10; LDA ($20),Y with ($20) = $12F8 -> $1308
    let mut cpu = boot(0x8000, &[0xA0, 0x10, 0xB1, 0x20]);
    cpu.write(0x0020, 0xF8);
    cpu.write(0x0021, 0x12);
    cpu.write(0x1308, 0x99);
    step(&mut cpu);
    assert_eq!(step(&mut cpu), 6);
    assert_eq!(cpu.addr_abs, 0x1308);
    assert_eq!(cpu.a_reg, 0x99);
}

#[test]
fn indexed_indirect_wraps_in_page_zero() {
    // LDX #$01; LDA ($FE,X): pointer at $FF and $00
    let mut cpu = boot(0x8000, &[0xA2, 0x01, 0xA1, 0xFE]);
    cpu.write(0x00FF, 0x34);
    cpu.write(0x0000, 0x12);
    cpu.write(0x1234, 0x7E);
    step(&mut cpu);
    assert_eq!(step(&mut cpu), 6);
    assert_eq!(cpu.a_reg, 0x7E);
}

#[test]
fn zero_page_indexed_wraps() {
    // LDX #$10; LDA $F8,X reads $0008
    let mut cpu = boot(0x8000, &[0xA2, 0x10, 0xB5, 0xF8]);
    cpu.write(0x0008, 0x33);
    step(&mut cpu);
    step(&mut cpu);
    assert_eq!(cpu.addr_abs, 0x0008);
    assert_eq!(cpu.a_reg, 0x33);
}

#[test]
fn pha_then_pla_round_trip() {
    let mut cpu = boot(0x8000, &[0x48, 0x68]);
    cpu.a_reg = 0x00;
    step(&mut cpu);
    step(&mut cpu);
    assert_eq!(cpu.a_reg, 0x00);
    assert_eq!(flag(&cpu, Flags6502::Zero), 1);
    assert_eq!(flag(&cpu, Flags6502::Negative), 0);
}

#[test]
fn php_then_plp_round_trip() {
    let mut cpu = boot(0x8000, &[0x08, 0x28]);
    cpu.status = 0xCB;
    step(&mut cpu);
    cpu.status = 0x00;
    step(&mut cpu);
    assert_eq!(cpu.status & 0xCF, 0xCB & 0xCF);
    assert_eq!(cpu.stk_ptr, 0xFD);
}

#[test]
fn jsr_then_rts_round_trip() {
    let mut cpu = boot(0x8000, &[0x20, 0x00, 0x90, 0xEA]);
    cpu.write(0x9000, 0x60);
    assert_eq!(step(&mut cpu), 6);
    assert_eq!(cpu.pc, 0x9000);
    assert_eq!(cpu.read(0x01FD), 0x80);
    assert_eq!(cpu.read(0x01FC), 0x02);
    assert_eq!(step(&mut cpu), 6);
    assert_eq!(cpu.pc, 0x8003);
    assert_eq!(cpu.stk_ptr, 0xFD);
}

#[test]
fn shifts_and_rotates() {
    // LDA #$81; ASL A -> 0x02, C=1; ROL A -> 0x05, C=0; LSR A -> 0x02, C=1; ROR A -> 0x81, C=0
    let mut cpu = boot(0x8000, &[0xA9, 0x81, 0x0A, 0x2A, 0x4A, 0x6A]);
    step(&mut cpu);
    step(&mut cpu);
    assert_eq!((cpu.a_reg, flag(&cpu, Flags6502::Carry)), (0x02, 1));
    step(&mut cpu);
    assert_eq!((cpu.a_reg, flag(&cpu, Flags6502::Carry)), (0x05, 0));
    step(&mut cpu);
    assert_eq!((cpu.a_reg, flag(&cpu, Flags6502::Carry)), (0x02, 1));
    step(&mut cpu);
    assert_eq!((cpu.a_reg, flag(&cpu, Flags6502::Carry)), (0x81, 0));
    assert_eq!(flag(&cpu, Flags6502::Negative), 1);
}

#[test]
fn shift_memory_in_place() {
    // ASL $10 with $10 = 0x40 -> 0x80
    let mut cpu = boot(0x8000, &[0x06, 0x10]);
    cpu.write(0x0010, 0x40);
    cpu.a_reg = 0x11;
    assert_eq!(step(&mut cpu), 5);
    assert_eq!(cpu.read(0x0010), 0x80);
    assert_eq!(cpu.a_reg, 0x11);
    assert_eq!(flag(&cpu, Flags6502::Negative), 1);
}

#[test]
fn compare_sets_carry_zero_negative() {
    // LDA #$40; CMP #$40; CMP #$41; CMP #$30
    let mut cpu = boot(0x8000, &[0xA9, 0x40, 0xC9, 0x40, 0xC9, 0x41, 0xC9, 0x30]);
    step(&mut cpu);
    step(&mut cpu);
    assert_eq!((flag(&cpu, Flags6502::Carry), flag(&cpu, Flags6502::Zero), flag(&cpu, Flags6502::Negative)), (1, 1, 0));
    step(&mut cpu);
    assert_eq!((flag(&cpu, Flags6502::Carry), flag(&cpu, Flags6502::Zero), flag(&cpu, Flags6502::Negative)), (0, 0, 1));
    step(&mut cpu);
    assert_eq!((flag(&cpu, Flags6502::Carry), flag(&cpu, Flags6502::Zero), flag(&cpu, Flags6502::Negative)), (1, 0, 0));
}

#[test]
fn increments_and_transfers_wrap() {
    // LDX #$FF; INX -> 0 (Z); DEY from 0 -> 0xFF (N); TXA; TSX
    let mut cpu = boot(0x8000, &[0xA2, 0xFF, 0xE8, 0x88, 0x8A, 0xBA]);
    step(&mut cpu);
    step(&mut cpu);
    assert_eq!(cpu.x_reg, 0);
    assert_eq!(flag(&cpu, Flags6502::Zero), 1);
    step(&mut cpu);
    assert_eq!(cpu.y_reg, 0xFF);
    assert_eq!(flag(&cpu, Flags6502::Negative), 1);
    step(&mut cpu);
    assert_eq!(cpu.a_reg, 0);
    step(&mut cpu);
    assert_eq!(cpu.x_reg, 0xFD);
}

#[test]
fn memory_increment_and_decrement() {
    // INC $20 (0xFF -> 0x00); DEC $21 (0x00 -> 0xFF)
    let mut cpu = boot(0x8000, &[0xE6, 0x20, 0xC6, 0x21]);
    cpu.write(0x0020, 0xFF);
    step(&mut cpu);
    assert_eq!(cpu.read(0x0020), 0x00);
    assert_eq!(flag(&cpu, Flags6502::Zero), 1);
    step(&mut cpu);
    assert_eq!(cpu.read(0x0021), 0xFF);
    assert_eq!(flag(&cpu, Flags6502::Negative), 1);
}

#[test]
fn bit_test() {
    // LDA #$01; BIT $30 with $30 = 0xC0
    let mut cpu = boot(0x8000, &[0xA9, 0x01, 0x24, 0x30]);
    cpu.write(0x0030, 0xC0);
    step(&mut cpu);
    step(&mut cpu);
    assert_eq!(flag(&cpu, Flags6502::Zero), 1);
    assert_eq!(flag(&cpu, Flags6502::Overflow), 1);
    assert_eq!(flag(&cpu, Flags6502::Negative), 1);
}

#[test]
fn undefined_opcode_retires_harmlessly() {
    let mut cpu = boot(0x8000, &[0x02, 0xA9, 0x07]);
    let a = cpu.a_reg;
    assert_eq!(step(&mut cpu), 2);
    assert_eq!(cpu.a_reg, a);
    assert_eq!(cpu.pc, 0x8001);
    step(&mut cpu);
    assert_eq!(cpu.a_reg, 0x07);
}

#[test]
fn irq_is_taken_when_enabled() {
    let mut cpu = boot(0x8000, &[0xEA]);
    cpu.write(0xFFFE, 0x00);
    cpu.write(0xFFFF, 0xA0);
    cpu.status = 0x20;
    cpu.irq();
    assert_eq!(cpu.pc, 0xA000);
    assert_eq!(cpu.cycles_remaining, 7);
    assert_eq!(cpu.stk_ptr, 0xFA);
    assert_eq!(cpu.read(0x01FD), 0x80);
    assert_eq!(cpu.read(0x01FC), 0x00);
    assert_eq!(cpu.read(0x01FB), 0x24);
    assert_eq!(flag(&cpu, Flags6502::InterruptDisable), 1);
}

#[test]
fn irq_is_ignored_when_disabled() {
    let mut cpu = boot(0x8000, &[0xEA]);
    cpu.set_flag(Flags6502::InterruptDisable, true);
    cpu.irq();
    assert_eq!(cpu.pc, 0x8000);
    assert_eq!(cpu.stk_ptr, 0xFD);
    assert_eq!(cpu.cycles_remaining, 0);
}

#[test]
fn nmi_is_always_taken() {
    let mut cpu = boot(0x8000, &[0xEA]);
    cpu.write(0xFFFA, 0x00);
    cpu.write(0xFFFB, 0xB0);
    cpu.set_flag(Flags6502::InterruptDisable, true);
    cpu.nmi();
    assert_eq!(cpu.pc, 0xB000);
    assert_eq!(cpu.cycles_remaining, 8);
    assert_eq!(cpu.stk_ptr, 0xFA);
}
