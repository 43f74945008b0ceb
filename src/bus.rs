//! The memory bus: a flat 64 KiB byte-addressable space.
use vstd::prelude::*;

verus! {

/// Number of addressable bytes behind the bus.
pub const MEMORY_SIZE: usize = 0x10000;

/// A flat 64 KiB RAM reached through 16-bit addresses.
pub struct Bus {
    ram: [u8; MEMORY_SIZE],
}

impl View for Bus {
    type V = Seq<u8>;

    /// The bytes of the address space, indexed by address.
    closed spec fn view(&self) -> Seq<u8> {
        self.ram@
    }
}

impl Bus {
    /// A bus whose memory is cleared to zero.
    pub fn new() -> (bus: Bus)
        ensures
            bus@ == Seq::new(MEMORY_SIZE as nat, |i: int| 0u8),
    {
        let bus = Bus { ram: [0u8; MEMORY_SIZE] };
        assert(bus@ =~= Seq::new(MEMORY_SIZE as nat, |i: int| 0u8));
        bus
    }

    /// The byte at `addr`. Every 16-bit address maps; `readonly` asks that
    /// device state be left alone, which plain RAM does anyway.
    pub fn read(&self, addr: u16, readonly: bool) -> (data: u8)
        ensures
            self@.len() == MEMORY_SIZE,
            data == self@[addr as int],
    {
        self.ram[addr as usize]
    }

    /// Stores `data` at `addr`.
    pub fn write(&mut self, addr: u16, data: u8)
        ensures
            old(self)@.len() == MEMORY_SIZE,
            final(self)@ == old(self)@.update(addr as int, data),
    {
        self.ram[addr as usize] = data;
    }
}

} // verus!
