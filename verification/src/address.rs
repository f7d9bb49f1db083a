//! Combining the 4-bit fields of an instruction word into operands.
use vstd::prelude::*;

verus! {

/// Whether `n` fits in four bits.
pub open spec fn is_nibble(n: u8) -> bool {
    n < 16
}

/// The 12-bit address spelled by three nibbles, most significant first.
pub open spec fn absolute_address(n1: u8, n2: u8, n3: u8) -> int {
    n1 * 256 + n2 * 16 + n3
}

/// The 8-bit immediate spelled by two nibbles, most significant first.
pub open spec fn immediate(x1: u8, x2: u8) -> int {
    x1 * 16 + x2
}

/// Bytes per glyph in the built-in font.
pub const GLYPH_STRIDE: u16 = 5;

/// Where the glyph for `digit` starts in memory.
pub open spec fn glyph_address(digit: u8) -> int {
    digit * 5
}

/// Joins three nibbles into a 12-bit address.
pub fn addr(n1: u8, n2: u8, n3: u8) -> (r: u16)
    requires
        is_nibble(n1),
        is_nibble(n2),
        is_nibble(n3),
    ensures
        r == absolute_address(n1, n2, n3),
        r < 4096,
{
    let hi: u16 = n1 as u16;
    let mid: u16 = n2 as u16;
    assert(hi << 8 == hi * 256) by (bit_vector)
        requires
            hi < 16,
    ;
    assert(mid << 4 == mid * 16) by (bit_vector)
        requires
            mid < 16,
    ;
    (hi << 8) + (mid << 4) + n3 as u16
}

/// The address of the glyph that draws `n`: glyphs lie five bytes apart,
/// starting at address zero.
pub fn fontaddr(n: u8) -> (r: u16)
    ensures
        r == glyph_address(n),
{
    n as u16 * GLYPH_STRIDE
}

/// Joins two nibbles into an 8-bit immediate.
pub fn var(x1: u8, x2: u8) -> (r: u8)
    requires
        is_nibble(x1),
        is_nibble(x2),
    ensures
        r == immediate(x1, x2),
{
    assert(x1 << 4 == x1 * 16) by (bit_vector)
        requires
            x1 < 16,
    ;
    (x1 << 4) + x2
}

/// Widens a register number to an array index.
pub fn idx(x: u8) -> (r: usize)
    ensures
        r == x,
{
    x as usize
}

} // verus!
