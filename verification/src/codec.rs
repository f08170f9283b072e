//! Decoding of the readback buffer: four mapped bytes read as one
//! little-endian unsigned 32-bit integer.

use vstd::prelude::*;

verus! {

/// The number that four bytes denote when read little-endian: the first byte
/// is the least significant.
pub open spec fn le_u32(b: Seq<u8>) -> int
    recommends
        b.len() == 4,
{
    b[0] + 0x100 * b[1] + 0x1_0000 * b[2] + 0x100_0000 * b[3]
}

/// Decodes the four bytes of a mapped readback buffer as the scalar Result.
pub fn decode_result(bytes: &Vec<u8>) -> (r: u32)
    requires
        bytes@.len() == 4,
    ensures
        r == le_u32(bytes@),
{
    let b0 = bytes[0] as u32;
    let b1 = bytes[1] as u32;
    let b2 = bytes[2] as u32;
    let b3 = bytes[3] as u32;
    b0 + 0x100 * b1 + 0x1_0000 * b2 + 0x100_0000 * b3
}

} // verus!
