//! A captured frame as plain values.

use vstd::prelude::*;
use crate::pixel::{brighten_pixels, rgba_of};

verus! {

/// One snapshot from the camera: its dimensions and its packed pixels in
/// row-major order. Nothing ties the number of pixels to the dimensions until
/// an image is built from the frame.
#[derive(Debug, Clone, PartialEq, Eq)]
pub struct Frame {
    pub width: u32,
    pub height: u32,
    pub pixels: Vec<u32>,
}

impl Frame {
    /// Number of pixels the dimensions call for.
    pub open spec fn area(&self) -> int {
        self.width * self.height
    }

    /// The pixel storage holds exactly `width * height` pixels.
    pub open spec fn is_consistent(&self) -> bool {
        self.pixels@.len() == self.area()
    }

    /// An image can be built of the frame: its storage matches its
    /// dimensions, and the byte length of one RGBA row, `4 * width`, fits
    /// `usize`. The second can fail only where `usize` is narrower than 34
    /// bits.
    pub open spec fn is_renderable(&self) -> bool {
        &&& self.is_consistent()
        &&& 4 * self.width <= usize::MAX
    }

    /// A frame of the given dimensions over the given pixel storage.
    pub fn new(width: u32, height: u32, pixels: Vec<u32>) -> (frame: Frame)
        ensures
            frame.width == width,
            frame.height == height,
            frame.pixels == pixels,
    {
        Frame { width, height, pixels }
    }

    /// Whether the pixel storage holds exactly `width * height` pixels.
    pub fn has_matching_size(&self) -> (ok: bool)
        ensures
            ok == self.is_consistent(),
    {
        assert(self.width * self.height <= u64::MAX) by (nonlinear_arith)
            requires
                self.width <= u32::MAX,
                self.height <= u32::MAX,
        ;
        let area: u64 = (self.width as u64) * (self.height as u64);
        self.pixels.len() as u64 == area
    }

    /// The frame's pixels as brightened RGBA bytes. For a consistent frame the
    /// buffer holds exactly `4 * width * height` bytes.
    pub fn to_rgba(&self) -> (out: Vec<u8>)
        ensures
            out@ == rgba_of(self.pixels@),
            out@.len() == 4 * self.pixels@.len(),
            out@.len() % 4 == 0,
            self.is_consistent() ==> out@.len() == 4 * self.width * self.height,
    {
        let out: Vec<u8> = brighten_pixels(self.pixels.as_slice());
        proof {
            lemma_quadruple_area(self.width as int, self.height as int);
        }
        out
    }
}

/// The RGBA buffer of a frame whose storage matches its dimensions holds
/// exactly `4 * width * height` bytes.
pub proof fn lemma_buffer_length(frame: Frame)
    requires
        frame.is_consistent(),
    ensures
        rgba_of(frame.pixels@).len() == 4 * frame.width * frame.height,
{
    lemma_quadruple_area(frame.width as int, frame.height as int);
}

/// `4 * w * h`, read left to right, is four times the product `w * h`.
pub proof fn lemma_quadruple_area(w: int, h: int)
    ensures
        4 * w * h == 4 * (w * h),
{
    assert(4 * w * h == 4 * (w * h)) by (nonlinear_arith);
}

} // verus!
