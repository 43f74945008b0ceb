//! Modular byte and address arithmetic, stated against the model's `wrap8`
//! and `wrap16`.
use vstd::prelude::*;
use crate::model::{wrap16, wrap8};

verus! {

/// `x + y` modulo 256.
pub fn add8(x: u8, y: u8) -> (r: u8)
    ensures
        r == wrap8(x + y),
{
    x.wrapping_add(y)
}

/// `x - y` modulo 256.
pub fn sub8(x: u8, y: u8) -> (r: u8)
    ensures
        r == wrap8(x - y),
{
    x.wrapping_sub(y)
}

/// `x + y` modulo 65536.
pub fn add16(x: u16, y: u16) -> (r: u16)
    ensures
        r == wrap16(x + y),
{
    x.wrapping_add(y)
}

/// `x - y` modulo 65536.
pub fn sub16(x: u16, y: u16) -> (r: u16)
    ensures
        r == wrap16(x - y),
{
    x.wrapping_sub(y)
}

} // verus!
