use vstd::prelude::*;

verus! {

/// Masking a sixteen-bit address bounds it by the mask.
pub proof fn lemma_mask_bounds(a: u16)
    by (bit_vector)
    ensures
        a & 0x0001 <= 0x0001,
        a & 0x0007 <= 0x0007,
        a & 0x000F <= 0x000F,
        a & 0x001F <= 0x001F,
        a & 0x00FF <= 0x00FF,
        a & 0x03FF <= 0x03FF,
        a & 0x07FF <= 0x07FF,
        a & 0x0FFF <= 0x0FFF,
        a & 0x1FFF <= 0x1FFF,
        a & 0x3FFF <= 0x3FFF,
        a & 0x7FFF <= 0x7FFF,
        (a & 0x1000) >> 12 <= 1,
{
}

/// Masking a byte bounds it by the mask.
pub proof fn lemma_byte_mask_bounds(b: u8)
    by (bit_vector)
    ensures
        b & 0x03 <= 0x03,
        b & 0x07 <= 0x07,
        b & 0x0F <= 0x0F,
        b & 0x1F <= 0x1F,
        b & 0x3F <= 0x3F,
{
}

} // verus!
