//! Small bit-level facts shared by the bus and the PPU: bounds of masked
//! values and where the register mirrors land.

use vstd::prelude::*;

verus! {

/// Bounds of the address masks used by the bus and the PPU.
pub proof fn lemma_mask_bounds(a: u16)
    by (bit_vector)
    ensures
        a & 0x07FF < 0x800,
        a & 0x001F < 0x20,
        a & 0x2FFF <= 0x2FFF,
{
}

/// Masking an address of the PPU register window down to $2000-$2007 stays
/// inside that window.
pub proof fn lemma_reg_mirror_range(a: u16)
    by (bit_vector)
    requires
        0x2000 <= a <= 0x3FFF,
    ensures
        0x2000 <= (a & 0x2007) <= 0x2007,
{
}

/// A byte shifted into the high half of a 16-bit word leaves room for a low
/// byte.
pub proof fn lemma_hi_byte_bound(b: u8)
    by (bit_vector)
    ensures
        ((b as u16) << 8) <= 0xFF00,
{
}

/// Masking an address of the name-table window down with $2FFF keeps it in
/// $2000-$2FFF.
pub proof fn lemma_vram_mirror_range(a: u16)
    by (bit_vector)
    requires
        0x2000 <= a <= 0x3FFF,
    ensures
        0x2000 <= (a & 0x2FFF) <= 0x2FFF,
{
}

} // verus!
