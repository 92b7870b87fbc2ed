//! The host's display surface.
use crate::ssd1306::model::HEIGHT;
use crate::ssd1306::model::MAGNIFY;
use crate::ssd1306::model::WIDTH;
use vstd::prelude::*;

verus! {

/// The field of `num` bits that starts at bit `ofs` of the pixel format
/// code `val`, scaled by the code's 2-bit shift at bit 22.
pub open spec fn format_field(val: u32, ofs: u32, num: u32) -> u32 {
    ((val >> ofs) & (((1u32 << num) - 1) as u32)) << ((val >> 22u32) & 3u32)
}

/// Reads one field of a pixel format code: the bits per pixel are the
/// 8-bit field at bit 24, the widths of the channels the 4-bit fields
/// below it.
pub fn _pixman_format_reshift(val: u32, ofs: u32, num: u32) -> (r: u32)
    requires
        ofs < 32,
        num < 32,
    ensures
        r == format_field(val, ofs, num),
{
    let mask: u32 = 1u32 << num;
    assert((1u32 << num) >= 1) by (bit_vector)
        requires
            num < 32,
    ;
    let shift: u32 = (val >> 22u32) & 3u32;
    assert((val >> 22u32) & 3u32 < 32) by (bit_vector);
    ((val >> ofs) & (mask - 1)) << shift
}

/// The width and height in pixels that the host's surface must have.
pub fn surface_size() -> (size: (usize, usize))
    ensures
        size.0 == WIDTH * MAGNIFY,
        size.1 == HEIGHT * MAGNIFY,
{
    (WIDTH * MAGNIFY, HEIGHT * MAGNIFY)
}

} // verus!
