//! From the bytes of a random seed to the number that a request is served
//! with.

use vstd::prelude::*;

verus! {

/// The number that four bytes spell, least significant byte first.
pub open spec fn le_u32(b0: u8, b1: u8, b2: u8, b3: u8) -> int {
    b0 + 256 * b1 + 65536 * b2 + 16777216 * b3
}

/// The draw that a seed stands for: its first four bytes, read least
/// significant byte first. The other bytes are not looked at.
pub fn draw_from_seed(seed: &[u8; 32]) -> (draw: u32)
    ensures
        draw == le_u32(seed[0], seed[1], seed[2], seed[3]),
{
    let b0: u32 = seed[0] as u32;
    let b1: u32 = seed[1] as u32;
    let b2: u32 = seed[2] as u32;
    let b3: u32 = seed[3] as u32;
    b0 + 256 * b1 + 65536 * b2 + 16777216 * b3
}

} // verus!
