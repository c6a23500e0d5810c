use vstd::prelude::*;

verus! {

/// Revision number of the letter-series silicon.
pub const HAL_CHIP_REV_ID_A4: u8 = 0xFF;

/// Product id: bits 8..16 of the identification register.
pub fn get_pid(idr: u32) -> (r: u8)
    ensures
        r as u32 == (idr >> 8u32) & 0xff,
{
    let v = (idr >> 8u32) & 0xff;
    assert(v <= 0xff) by (bit_vector)
        requires
            v == (idr >> 8u32) & 0xff,
    ;
    v as u8
}

/// Revision id: bits 0..8 of the identification register.
pub fn get_revid(idr: u32) -> (r: u8)
    ensures
        r as u32 == idr & 0xff,
{
    let v = idr & 0xff;
    assert(v <= 0xff) by (bit_vector)
        requires
            v == idr & 0xff,
    ;
    v as u8
}

/// Whether the chip is of the letter series.
pub fn is_letter_series(idr: u32) -> (r: bool)
    ensures
        r == (idr & 0xff == HAL_CHIP_REV_ID_A4 as u32),
{
    get_revid(idr) == HAL_CHIP_REV_ID_A4
}

} // verus!
