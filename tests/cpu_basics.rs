use cpu6502::{Bus, Cpu, Flags6502};

#[test]
fn test_flags() {
    let mut cpu = Cpu::new();

    cpu.set_flag(Flags6502::Carry, true);
    assert_eq!(cpu.get_flag(Flags6502::Carry), 1);

    cpu.set_flag(Flags6502::Zero, true);
    assert_eq!(cpu.get_flag(Flags6502::Zero), 1);

    cpu.set_flag(Flags6502::InterruptDisable, true);
    assert_eq!(cpu.get_flag(Flags6502::InterruptDisable), 1);

    cpu.set_flag(Flags6502::DecimalMode, true);
    assert_eq!(cpu.get_flag(Flags6502::DecimalMode), 1);

    cpu.set_flag(Flags6502::BreakCommand, true);
    assert_eq!(cpu.get_flag(Flags6502::BreakCommand), 1);

    cpu.set_flag(Flags6502::Unused, true);
    assert_eq!(cpu.get_flag(Flags6502::Unused), 1);

    cpu.set_flag(Flags6502::Overflow, true);
    assert_eq!(cpu.get_flag(Flags6502::Overflow), 1);

    assert_eq!(cpu.get_flag(Flags6502::Negative), 0);
}

#[test]
fn test_cpu_read_write() {
    let mut cpu = Cpu::new();
    let bus = Bus::new();
    cpu.connect_to_bus(bus);

    cpu.write(1, 21);
    assert_eq!(cpu.read(1), 21);
}

#[test]
fn test_reset_function() {
    let mut cpu = Cpu::new();

    cpu.a_reg = 0x01;
    cpu.x_reg = 0x10;
    cpu.y_reg = 0xDA;

    cpu.reset();

    assert_eq!((cpu.a_reg, cpu.x_reg, cpu.y_reg), (0x00, 0x00, 0x00));
    assert_eq!(cpu.stk_ptr, 0xFD);
    assert_eq!(cpu.cycles_remaining, 8);
}

#[test]
fn clearing_a_flag_keeps_the_others() {
    let mut cpu = Cpu::new();
    cpu.status = 0xFF;
    cpu.set_flag(Flags6502::Zero, false);
    assert_eq!(cpu.status, 0xFD);
    cpu.unset_flag(Flags6502::Negative);
    assert_eq!(cpu.status, 0x7D);
    assert_eq!(cpu.get_flag(Flags6502::Negative), 0);
    assert_eq!(cpu.get_flag(Flags6502::Carry), 1);
}

#[test]
fn flag_masks() {
    assert_eq!(Flags6502::Carry.mask(), 0x01);
    assert_eq!(Flags6502::Unused.mask(), 0x20);
    assert_eq!(Flags6502::Negative.mask(), 0x80);
}

#[test]
fn bus_write_then_read_every_page() {
    let mut bus = Bus::new();
    for page in 0..=255u16 {
        let a = page * 0x100 + (page ^ 0x5A);
        bus.write(a, page as u8);
        assert_eq!(bus.read(a, false), page as u8);
        assert_eq!(bus.read(a, true), page as u8);
    }
    bus.write(0xFFFF, 0x77);
    assert_eq!(bus.read(0xFFFF, false), 0x77);
    assert_eq!(bus.read(0x0000, false), 0x00);
}

#[test]
fn new_bus_is_cleared() {
    let bus = Bus::new();
    assert_eq!(bus.read(0x0000, false), 0);
    assert_eq!(bus.read(0x8000, false), 0);
    assert_eq!(bus.read(0xFFFF, false), 0);
}

#[test]
fn reset_reads_the_vector() {
    let mut cpu = Cpu::new();
    cpu.write(0xFFFC, 0x34);
    cpu.write(0xFFFD, 0x12);
    cpu.status = 0xC3;
    cpu.reset();
    assert_eq!(cpu.pc, 0x1234);
    assert_eq!(cpu.status, 0x20);
    assert_eq!((cpu.addr_abs, cpu.addr_rel, cpu.fetched), (0, 0, 0));
    assert!(!cpu.is_complete());
}
