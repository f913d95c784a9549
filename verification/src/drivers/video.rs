//! The layout of the window: where each framebuffer cell is painted, and
//! in which colour.

use vstd::prelude::*;
use crate::emu::frame::{FrameBuffer, FB_HEIGHT, FB_LEN, FB_WIDTH};

verus! {

/// Side of the square that one framebuffer cell takes up in the window.
pub const SCALE: u32 = 6;

/// Width of the window.
pub const X_RES: u32 = 64 * SCALE;

/// Height of the window.
pub const Y_RES: u32 = 32 * SCALE;

/// A colour as red, green and blue.
#[derive(Debug, Clone, Copy, PartialEq, Eq, Structural)]
pub struct Rgb {
    pub r: u8,
    pub g: u8,
    pub b: u8,
}

/// A filled square of the window.
#[derive(Debug, Clone, Copy, PartialEq, Eq, Structural)]
pub struct Tile {
    /// Left edge.
    pub x: i32,
    /// Top edge.
    pub y: i32,
    /// Width and height.
    pub side: u32,
    /// Fill colour.
    pub color: Rgb,
}

/// The colour of a lit cell and of a dark one.
pub open spec fn cell_color(lit: bool) -> Rgb {
    if lit {
        Rgb { r: 32, g: 42, b: 52 }
    } else {
        Rgb { r: 145, g: 145, b: 135 }
    }
}

/// The square for framebuffer cell `k`: cells go left to right, row after
/// row, each `SCALE` wide and high.
pub open spec fn tile_of(pixels: Seq<bool>, k: int) -> Tile {
    Tile {
        x: ((k % 64) * SCALE) as i32,
        y: ((k / 64) * SCALE) as i32,
        side: SCALE,
        color: cell_color(pixels[k]),
    }
}

/// The squares that show the framebuffer, one per cell, in framebuffer
/// order.
pub fn screen_tiles(framebuf: &FrameBuffer) -> (tiles: Vec<Tile>)
    ensures
        tiles@.len() == FB_LEN,
        forall|k: int| 0 <= k < FB_LEN ==> tiles@[k] == tile_of(framebuf@, k),
{
    let mut tiles: Vec<Tile> = Vec::new();
    let mut y: usize = 0;
    while y < FB_HEIGHT
        invariant
            y <= FB_HEIGHT,
            tiles@.len() == y * 64,
            forall|k: int| 0 <= k < y * 64 ==> tiles@[k] == tile_of(framebuf@, k),
        decreases FB_HEIGHT - y,
    {
        let mut x: usize = 0;
        while x < FB_WIDTH
            invariant
                x <= FB_WIDTH,
                y < FB_HEIGHT,
                tiles@.len() == y * 64 + x,
                forall|k: int| 0 <= k < y * 64 + x ==> tiles@[k] == tile_of(framebuf@, k),
            decreases FB_WIDTH - x,
        {
            let window_x = x as u32 * SCALE;
            let window_y = y as u32 * SCALE;
            let color = if framebuf[y * FB_WIDTH + x] {
                Rgb { r: 32, g: 42, b: 52 }
            } else {
                Rgb { r: 145, g: 145, b: 135 }
            };
            tiles.push(Tile { x: window_x as i32, y: window_y as i32, side: SCALE, color });
            x += 1;
        }
        y += 1;
    }
    tiles
}

} // verus!
