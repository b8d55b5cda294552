//! Single-bit accessors for 8-bit and 16-bit hardware registers.

use vstd::prelude::*;

verus! {

/// True iff bit `n` of `v` is set.
pub fn get(v: u8, n: usize) -> (r: bool)
    requires
        n < 8,
    ensures
        r == (v & (1u8 << n) != 0),
{
    (v & (1u8 << n)) != 0
}

/// `v` with bit `n` set.
pub fn set(v: u8, n: usize) -> (r: u8)
    requires
        n < 8,
    ensures
        r == (v | (1u8 << n)),
{
    v | (1u8 << n)
}

/// `v` with bit `n` cleared.
pub fn clr(v: u8, n: usize) -> (r: u8)
    requires
        n < 8,
    ensures
        r == (v & !(1u8 << n)),
{
    v & !(1u8 << n)
}

/// True iff bit `n` of the 16-bit word `v` is set.
pub fn get16(v: u16, n: usize) -> (r: bool)
    requires
        n < 16,
    ensures
        r == (v & (1u16 << n) != 0),
{
    (v & (1u16 << n)) != 0
}

} // verus!
