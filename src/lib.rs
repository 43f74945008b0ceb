//! A cycle-paced emulator of the MOS 6502 processor and the flat 64 KiB
//! memory bus it runs against, with every step proved against a
//! mathematical model of the machine.

pub mod addressing;
pub mod arith;
pub mod bus;
pub mod cpu;
pub mod disassembler;
pub mod instruction;
pub mod laws;
pub mod model;
pub mod operations;
pub mod status;

pub use bus::Bus;
pub use cpu::Cpu;
pub use instruction::{AddressingMode, Instruction, Opcode};
pub use status::Flags6502;
