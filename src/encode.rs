//! The pass-through encoder: frames leave as raw 32-bit bitmaps.

use vstd::prelude::*;
use crate::frame::{opaque_bytes, CapturedFrame};

verus! {

/// Hands frames on without compression, tracking the stream's geometry.
pub struct BitmapEncoder {
    width: u32,
    height: u32,
}

impl BitmapEncoder {
    pub closed spec fn spec_width(&self) -> u32 {
        self.width
    }

    pub closed spec fn spec_height(&self) -> u32 {
        self.height
    }

    #[must_use]
    pub fn new(width: u32, height: u32) -> (r: Self)
        ensures
            r.spec_width() == width,
            r.spec_height() == height,
    {
        Self { width, height }
    }

    /// Tracked frame width.
    #[must_use]
    pub fn width(&self) -> (r: u32)
        ensures
            r == self.spec_width(),
    {
        self.width
    }

    /// Tracked frame height.
    #[must_use]
    pub fn height(&self) -> (r: u32)
        ensures
            r == self.spec_height(),
    {
        self.height
    }

    /// Takes on new dimensions after a resolution change. Setting the same
    /// dimensions again changes nothing.
    pub fn resize(&mut self, width: u32, height: u32)
        ensures
            final(self).spec_width() == width,
            final(self).spec_height() == height,
    {
        self.width = width;
        self.height = height;
    }

    /// The frame's bytes as they go downstream: unchanged, except that a
    /// `Bgra` frame has its alpha bytes forced to opaque.
    pub fn encode(&self, frame: CapturedFrame) -> (r: Vec<u8>)
        ensures
            r@ == opaque_bytes(frame.data@, frame.format),
    {
        let mut frame = frame;
        frame.ensure_alpha_opaque();
        frame.data
    }
}

} // verus!
