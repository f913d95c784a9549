//! The 64x32 monochrome framebuffer.

use vstd::prelude::*;

verus! {

/// Width and height of a framebuffer, in pixels.
pub struct FramebufSpec {
    pub x: usize,
    pub y: usize,
}

/// Number of pixel columns.
pub const FB_WIDTH: usize = 64;

/// Number of pixel rows.
pub const FB_HEIGHT: usize = 32;

/// Number of pixels in the framebuffer.
pub const FB_LEN: usize = FB_WIDTH * FB_HEIGHT;

/// The size of the emulator framebuffer: 64 columns by 32 rows.
pub fn fb_size() -> (size: FramebufSpec)
    ensures
        size.x == FB_WIDTH,
        size.y == FB_HEIGHT,
{
    FramebufSpec { x: FB_WIDTH, y: FB_HEIGHT }
}

/// Pixels in row-major order: pixel `(x, y)` is cell `y * 64 + x`.
pub type FrameBuffer = [bool; FB_LEN];

/// What a framebuffer holds: its pixels in row-major order, and whether
/// they changed since a renderer last consumed them.
pub struct FrameView {
    pub pixels: Seq<bool>,
    pub dirty: bool,
}

/// The internal emulator framebuffer.
#[derive(Debug)]
pub struct Frame {
    pub data: FrameBuffer,
    pub update: bool,
}

impl View for Frame {
    type V = FrameView;

    open spec fn view(&self) -> FrameView {
        FrameView { pixels: self.data@, dirty: self.update }
    }
}

/// The all-dark pixel grid.
pub open spec fn blank_pixels() -> Seq<bool> {
    Seq::new(FB_LEN as nat, |k: int| false)
}

impl Frame {
    /// A dark framebuffer that is not marked dirty.
    pub fn new() -> (frame: Frame)
        ensures
            frame@.pixels == blank_pixels(),
            !frame@.dirty,
    {
        let data = [false; FB_LEN];
        let update = false;
        Frame { data, update }
    }

    /// Darken every pixel and clear the dirty flag.
    pub fn reset(&mut self)
        ensures
            final(self)@.pixels == blank_pixels(),
            !final(self)@.dirty,
    {
        self.data = [false; FB_LEN];
        self.update = false;
    }
}

} // verus!
