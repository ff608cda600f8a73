//! Value types that describe a captured frame, its pixel layout and the
//! regions that changed since the previous frame.

use vstd::prelude::*;

verus! {

/// The value of a fully opaque alpha channel.
pub const OPAQUE_ALPHA: u8 = 0xFF;

/// An axis-aligned rectangle of changed pixels.
#[derive(Debug, Clone, Copy, PartialEq, Eq, Structural)]
pub struct DamageRect {
    pub x: i32,
    pub y: i32,
    pub width: u32,
    pub height: u32,
}

impl DamageRect {
    /// The number of pixels covered, as a mathematical integer.
    pub open spec fn spec_area(&self) -> int {
        self.width as int * self.height as int
    }

    /// The rectangle lies within `[0, width) x [0, height)`.
    pub open spec fn within(&self, width: u32, height: u32) -> bool {
        0 <= self.x && 0 <= self.y && self.x as int + self.width as int <= width as int
            && self.y as int + self.height as int <= height as int
    }

    #[must_use]
    pub fn new(x: i32, y: i32, width: u32, height: u32) -> (r: Self)
        ensures
            r.x == x,
            r.y == y,
            r.width == width,
            r.height == height,
    {
        Self { x, y, width, height }
    }

    /// A rectangle covering a whole `width` x `height` frame.
    #[must_use]
    pub fn full_frame(width: u32, height: u32) -> (r: Self)
        ensures
            r.x == 0,
            r.y == 0,
            r.width == width,
            r.height == height,
            r.within(width, height),
            r.spec_area() == width as int * height as int,
    {
        Self::new(0, 0, width, height)
    }

    /// Width times height, computed in 64 bits so that it never overflows.
    #[must_use]
    pub fn area(&self) -> (r: u64)
        ensures
            r as int == self.spec_area(),
    {
        proof {
            vstd::arithmetic::mul::lemma_mul_upper_bound(
                self.width as int,
                u32::MAX as int,
                self.height as int,
                u32::MAX as int,
            );
        }
        (self.width as u64) * (self.height as u64)
    }
}

/// How the bytes of a pixel are laid out.
#[derive(Debug, Clone, Copy, PartialEq, Eq, Structural)]
pub enum PixelFormat {
    /// Blue, green, red, alpha; 8 bits each.
    Bgra,
    /// Red, green, blue, alpha; 8 bits each.
    Rgba,
}

impl PixelFormat {
    pub open spec fn spec_bytes_per_pixel(self) -> nat {
        match self {
            PixelFormat::Bgra => 4,
            PixelFormat::Rgba => 4,
        }
    }

    #[must_use]
    pub fn bytes_per_pixel(self) -> (r: usize)
        ensures
            r as nat == self.spec_bytes_per_pixel(),
            r == 4,
    {
        match self {
            PixelFormat::Bgra | PixelFormat::Rgba => 4,
        }
    }
}

/// A single captured video frame.
#[derive(Debug, Clone)]
pub struct CapturedFrame {
    /// Raw pixel bytes, rows from top to bottom.
    pub data: Vec<u8>,
    /// Width in pixels.
    pub width: u32,
    /// Height in pixels.
    pub height: u32,
    pub format: PixelFormat,
    /// Bytes per row, padding included.
    pub stride: u32,
    /// Position of the frame in its capture session.
    pub sequence: u64,
    /// Changed regions. `None`: treat the whole frame as changed.
    /// `Some` of an empty list: nothing changed since the previous frame.
    pub damage: Option<Vec<DamageRect>>,
}

/// Every rectangle of `rects` lies within a `width` x `height` frame.
pub open spec fn damage_within(rects: Seq<DamageRect>, width: u32, height: u32) -> bool {
    forall|i: int| 0 <= i < rects.len() ==> (#[trigger] rects[i]).within(width, height)
}

/// Byte `i` of a packed four-byte pixel buffer of `len` bytes is the alpha
/// byte of a whole pixel.
pub open spec fn is_alpha_byte(i: int, len: int) -> bool {
    i % 4 == 3 && i < len - len % 4
}

/// The bytes after forcing alpha to opaque in a buffer of `format`.
pub open spec fn opaque_bytes(data: Seq<u8>, format: PixelFormat) -> Seq<u8> {
    match format {
        PixelFormat::Bgra => Seq::new(
            data.len(),
            |i: int|
                if is_alpha_byte(i, data.len() as int) {
                    OPAQUE_ALPHA
                } else {
                    data[i]
                },
        ),
        PixelFormat::Rgba => data,
    }
}

impl CapturedFrame {
    /// The frame is consistent: its rows fit its stride, its bytes hold all
    /// rows, and every damage rectangle lies within it.
    pub open spec fn wf(&self) -> bool {
        &&& self.stride as int >= self.width as int * self.format.spec_bytes_per_pixel()
        &&& self.data@.len() >= self.height as int * self.stride as int
        &&& match self.damage {
            Some(rects) => damage_within(rects@, self.width, self.height),
            None => true,
        }
    }

    /// Forces every alpha byte of a `Bgra` frame to `0xFF`, leaving the three
    /// colour bytes of each pixel as they were. The transport delivers a
    /// padding byte of undefined value there. An `Rgba` frame is unchanged.
    pub fn ensure_alpha_opaque(&mut self)
        ensures
            final(self).data@ == opaque_bytes(old(self).data@, old(self).format),
            final(self).width == old(self).width,
            final(self).height == old(self).height,
            final(self).format == old(self).format,
            final(self).stride == old(self).stride,
            final(self).sequence == old(self).sequence,
            final(self).damage == old(self).damage,
    {
        if self.format == PixelFormat::Bgra {
            let len = self.data.len();
            let pixels = len / 4;
            let mut p: usize = 0;
            while p < pixels
                invariant
                    self.format == old(self).format,
                    self.width == old(self).width,
                    self.height == old(self).height,
                    self.stride == old(self).stride,
                    self.sequence == old(self).sequence,
                    self.damage == old(self).damage,
                    len == old(self).data@.len(),
                    pixels == len / 4,
                    p <= pixels,
                    self.data@.len() == len,
                    forall|j: int|
                        0 <= j < len ==> #[trigger] self.data@[j] == if j < 4 * p && j % 4 == 3 {
                            OPAQUE_ALPHA
                        } else {
                            old(self).data@[j]
                        },
                decreases pixels - p,
            {
                self.data.set(4 * p + 3, OPAQUE_ALPHA);
                p = p + 1;
            }
            assert(self.data@ =~= opaque_bytes(old(self).data@, old(self).format));
        }
    }
}

/// A cursor image in 8-bit RGBA, rows from top to bottom.
#[derive(Debug, Clone)]
pub struct CursorBitmap {
    pub width: u32,
    pub height: u32,
    pub data: Vec<u8>,
}

/// Pointer position and shape reported beside a frame.
#[derive(Debug, Clone)]
pub struct CursorInfo {
    pub x: i32,
    pub y: i32,
    pub hotspot_x: i32,
    pub hotspot_y: i32,
    /// A new cursor image, when the shape changed.
    pub bitmap: Option<CursorBitmap>,
}

/// What the capture loop hands to the consumer.
#[derive(Debug, Clone)]
pub enum CaptureEvent {
    Frame(CapturedFrame),
    FrameAndCursor(CapturedFrame, CursorInfo),
}

impl CaptureEvent {
    pub open spec fn spec_frame(&self) -> CapturedFrame {
        match self {
            CaptureEvent::Frame(f) => *f,
            CaptureEvent::FrameAndCursor(f, _) => *f,
        }
    }

    /// The frame carried by the event.
    pub fn frame(&self) -> (r: &CapturedFrame)
        ensures
            *r == self.spec_frame(),
    {
        match self {
            CaptureEvent::Frame(f) => f,
            CaptureEvent::FrameAndCursor(f, _) => f,
        }
    }
}

} // verus!
