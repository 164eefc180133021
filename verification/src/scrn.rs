//! Presentation-side data shared with an external render loop: the
//! 15-bit-to-RGB color conversion, the screen descriptor, and the
//! signal a frame callback returns to keep running or stop.

use vstd::prelude::*;

verus! {

/// Whether a frame callback wants the loop to go on.
#[derive(Debug, Clone, Copy, PartialEq, Eq, Structural)]
pub enum State {
    Continue,
    Stop,
}

/// Dimensions of the presentation surface.
#[derive(Debug, Clone, Copy, PartialEq, Eq, Structural)]
pub struct Screen {
    pub width: usize,
    pub height: usize,
}

/// A 15-bit BGR color (5 bits per channel) expanded to 24-bit RGB: each
/// channel is scaled from 0..=31 to 0..=255 and packed, red highest.
pub open spec fn spec_get_color(color: u16) -> u32 {
    let r5 = (color & 0b0000000000011111) as u32;
    let g5 = ((color & 0b0000001111100000) >> 5) as u32;
    let b5 = ((color & 0b0111110000000000) >> 10) as u32;
    (((((r5 * 255) / 31) as u32) << 16) & 0xFF0000) | (((((g5 * 255) / 31) as u32) << 8)
        & 0x00FF00) | ((((b5 * 255) / 31) as u32) & 0x0000FF)
}

/// Expand a 15-bit BGR color word to 24-bit RGB.
#[verifier::when_used_as_spec(spec_get_color)]
pub fn get_color(color: u16) -> (r: u32)
    ensures
        r == spec_get_color(color),
{
    let r5 = (color & 0b0000000000011111) as u32;
    let g5 = ((color & 0b0000001111100000) >> 5) as u32;
    let b5 = ((color & 0b0111110000000000) >> 10) as u32;
    proof {
        assert(color & 0b0000000000011111 < 32 && (color & 0b0000001111100000) >> 5 < 32 && (color
            & 0b0111110000000000) >> 10 < 32) by (bit_vector);
    }
    ((((r5 * 255) / 31) << 16u32) & 0xFF0000) | ((((g5 * 255) / 31) << 8u32) & 0x00FF00) | (((b5
        * 255) / 31) & 0x0000FF)
}

} // verus!
