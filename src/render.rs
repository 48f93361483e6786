use vstd::prelude::*;

verus! {

/// The memory page whose bytes are drawn, one byte per cell of a 16 x 16 grid.
pub const FRAME_PAGE: u8 = 255;

/// Cells per side of the drawn grid.
pub const GRID_SIDE: usize = 16;

/// The colour levels of one pixel byte: red from the top three bits (0 to 7),
/// green from the next three (0 to 7), blue from the low two (0 to 3).
pub fn pixel_channels(b: u8) -> (r: (u8, u8, u8))
    ensures
        r.0 == b / 32,
        r.1 == (b / 4) % 8,
        r.2 == b % 4,
        r.0 < 8 && r.1 < 8 && r.2 < 4,
{
    (b / 32, (b / 4) % 8, b % 4)
}

} // verus!
