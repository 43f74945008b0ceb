//! The processor status register and its eight flags.
use vstd::prelude::*;

verus! {

/// One bit of the status register P.
#[derive(Debug, Clone, Copy, PartialEq, Eq, Structural)]
pub enum Flags6502 {
    /// Bit 0: carry out of the last addition, shift or comparison.
    Carry,
    /// Bit 1: the last result was zero.
    Zero,
    /// Bit 2: maskable interrupts are ignored.
    InterruptDisable,
    /// Bit 3: decimal mode (kept, but arithmetic stays binary).
    DecimalMode,
    /// Bit 4: the status was pushed by BRK.
    BreakCommand,
    /// Bit 5: unused, reads as one.
    Unused,
    /// Bit 6: signed overflow.
    Overflow,
    /// Bit 7: bit 7 of the last result.
    Negative,
}

impl Flags6502 {
    /// The flag's bit within P.
    pub open spec fn bit(self) -> u8 {
        match self {
            Flags6502::Carry => 0x01,
            Flags6502::Zero => 0x02,
            Flags6502::InterruptDisable => 0x04,
            Flags6502::DecimalMode => 0x08,
            Flags6502::BreakCommand => 0x10,
            Flags6502::Unused => 0x20,
            Flags6502::Overflow => 0x40,
            Flags6502::Negative => 0x80,
        }
    }

    /// The flag's bit within P.
    pub fn mask(&self) -> (m: u8)
        ensures
            m == self.bit(),
    {
        match self {
            Flags6502::Carry => 0x01,
            Flags6502::Zero => 0x02,
            Flags6502::InterruptDisable => 0x04,
            Flags6502::DecimalMode => 0x08,
            Flags6502::BreakCommand => 0x10,
            Flags6502::Unused => 0x20,
            Flags6502::Overflow => 0x40,
            Flags6502::Negative => 0x80,
        }
    }
}

/// `p` with the bits of `m` set when `v` holds, cleared otherwise.
pub open spec fn with_bits(p: u8, m: u8, v: bool) -> u8 {
    if v {
        p | m
    } else {
        p & !m
    }
}

/// Whether any bit of `m` is set in `p`.
pub open spec fn has_bits(p: u8, m: u8) -> bool {
    p & m != 0
}

/// Whether `m` has exactly one bit set.
pub open spec fn one_hot(m: u8) -> bool {
    m == 0x01 || m == 0x02 || m == 0x04 || m == 0x08 || m == 0x10 || m == 0x20 || m == 0x40 || m == 0x80
}

proof fn lemma_one_hot_bits(p: u8, m: u8, n: u8)
    by (bit_vector)
    requires
        one_hot(m),
        one_hot(n),
    ensures
        (p | m) & m != 0,
        (p & !m) & m == 0,
        m != n ==> (p | m) & n == p & n,
        m != n ==> (p & !m) & n == p & n,
{
}

/// Setting a flag makes it read as set, clearing it makes it read as clear,
/// and every other flag is kept.
pub proof fn lemma_with_bits(p: u8, f: Flags6502, v: bool)
    ensures
        has_bits(with_bits(p, f.bit(), v), f.bit()) == v,
        forall|g: Flags6502|
            g != f ==> has_bits(#[trigger] with_bits(p, f.bit(), v), g.bit()) == has_bits(p, g.bit()),
{
    lemma_one_hot_bits(p, f.bit(), f.bit());
    assert forall|g: Flags6502|
        g != f implies has_bits(#[trigger] with_bits(p, f.bit(), v), g.bit()) == has_bits(p, g.bit()) by {
        lemma_one_hot_bits(p, f.bit(), g.bit());
    }
}

/// Reading flag `g` after flag `f` was set to `v`.
pub broadcast proof fn lemma_flag_after_update(p: u8, f: Flags6502, v: bool, g: Flags6502)
    ensures
        #[trigger] has_bits(with_bits(p, f.bit(), v), g.bit()) == if f == g {
            v
        } else {
            has_bits(p, g.bit())
        },
{
    lemma_one_hot_bits(p, f.bit(), g.bit());
}

} // verus!
