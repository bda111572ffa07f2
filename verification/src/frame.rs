//! The pixel buffer that the engine paints into.
//!
//! A frame is a row-major array of RGBA bytes, `SCREEN_WIDTH` pixels wide and
//! `SCREEN_HEIGHT` pixels high. Every pixel that the engine writes is opaque.

use vstd::prelude::*;

verus! {

/// Width of the screen in pixels, and the number of rays cast per frame.
pub const SCREEN_WIDTH: usize = 120;

/// Height of the screen in pixels.
pub const SCREEN_HEIGHT: usize = 80;

/// The row of the horizon.
pub const HORIZON: usize = 40;

/// Bytes in one frame.
pub const FRAME_BYTES: usize = 38400;

/// A colour without transparency.
#[derive(Debug, Clone, Copy, PartialEq, Eq, Structural)]
pub struct Rgb {
    pub red: u8,
    pub green: u8,
    pub blue: u8,
}

/// Offset of the first byte of the pixel in column `x`, row `y`.
pub open spec fn pixel_offset(x: int, y: int) -> int {
    (y * SCREEN_WIDTH + x) * 4
}

/// Column of the pixel that byte `i` of a frame belongs to.
pub open spec fn byte_column(i: int) -> int {
    (i / 4) % (SCREEN_WIDTH as int)
}

/// Row of the pixel that byte `i` of a frame belongs to.
pub open spec fn byte_row(i: int) -> int {
    (i / 4) / (SCREEN_WIDTH as int)
}

/// The byte that channel `k` of an opaque pixel of colour `c` holds.
pub open spec fn channel(c: Rgb, k: int) -> u8 {
    if k == 0 {
        c.red
    } else if k == 1 {
        c.green
    } else if k == 2 {
        c.blue
    } else {
        255
    }
}

/// The frame with the pixel in column `x`, row `y` set to the opaque colour
/// `c`.
pub open spec fn with_pixel(frame: Seq<u8>, x: int, y: int, c: Rgb) -> Seq<u8> {
    frame.update(pixel_offset(x, y), c.red).update(pixel_offset(x, y) + 1, c.green).update(
        pixel_offset(x, y) + 2,
        c.blue,
    ).update(pixel_offset(x, y) + 3, 255u8)
}

/// Setting a pixel changes the four bytes of that pixel and no others.
pub proof fn lemma_with_pixel(frame: Seq<u8>, x: int, y: int, c: Rgb, i: int)
    requires
        frame.len() == FRAME_BYTES,
        0 <= x < SCREEN_WIDTH,
        0 <= y < SCREEN_HEIGHT,
        0 <= i < FRAME_BYTES,
    ensures
        with_pixel(frame, x, y, c).len() == FRAME_BYTES,
        with_pixel(frame, x, y, c)[i] == if byte_column(i) == x && byte_row(i) == y {
            channel(c, i % 4)
        } else {
            frame[i]
        },
{
}

/// Writes one opaque pixel of the given colour in column `x`, row `y`.
pub fn draw_pixel(red: u8, green: u8, blue: u8, x: i32, y: i32, frame: &mut [u8])
    requires
        0 <= x < SCREEN_WIDTH,
        0 <= y < SCREEN_HEIGHT,
        old(frame)@.len() == FRAME_BYTES,
    ensures
        final(frame)@ == with_pixel(old(frame)@, x as int, y as int, Rgb { red, green, blue }),
        final(frame)@.len() == FRAME_BYTES,
{
    let base: usize = (y as usize * SCREEN_WIDTH + x as usize) * 4;
    frame[base] = red;
    frame[base + 1] = green;
    frame[base + 2] = blue;
    frame[base + 3] = 255;
}

} // verus!
