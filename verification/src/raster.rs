//! Building the RGBA raster image that is handed to the encoder.

use vstd::prelude::*;
use image::DynamicImage;
use crate::error::PipelineError;
use crate::frame::{lemma_quadruple_area, Frame};
use crate::pixel::rgba_of;

verus! {

/// `image::DynamicImage`, carried through as an opaque value.
#[verifier::external_type_specification]
#[verifier::external_body]
pub struct ExDynamicImage(image::DynamicImage);

/// The raw bytes an image holds, as `DynamicImage::as_bytes` returns them.
pub uninterp spec fn image_bytes(img: DynamicImage) -> Seq<u8>;

/// The width and height of an image, as `DynamicImage::width` and
/// `DynamicImage::height` return them.
pub uninterp spec fn image_size(img: DynamicImage) -> (u32, u32);

/// Whether an image holds 8-bit RGBA pixels, that is whether it is the
/// variant `DynamicImage::ImageRgba8`.
pub uninterp spec fn image_is_rgba8(img: DynamicImage) -> bool;

/// `img` is the 8-bit RGBA image of the given dimensions over exactly
/// `bytes`.
pub open spec fn is_rgba_image(img: DynamicImage, width: u32, height: u32, bytes: Seq<u8>) -> bool {
    &&& image_is_rgba8(img)
    &&& image_size(img) == (width, height)
    &&& image_bytes(img) == bytes
}

/// The rule of `image::ImageBuffer::from_raw` for four one-byte channels.
/// It computes the wanted length in `usize`, first `4 * width`, then that
/// times `height`, and gives up where a step overflows. So the width alone can
/// be too large, whatever the height: the byte length of one row must fit
/// `usize`, and the container must hold at least `4 * width * height` bytes.
pub open spec fn fits_rgba(width: u32, height: u32, len: nat) -> bool {
    &&& 4 * width <= usize::MAX
    &&& 4 * width * height <= len
}

/// Calls `image::ImageBuffer::<Rgba<u8>, Vec<u8>>::from_raw` and wraps the
/// buffer as `DynamicImage::ImageRgba8`. Trusted: `from_raw` returns `Some`
/// exactly when `fits_rgba` holds of the dimensions and the container's
/// length, that is when `4 * width` fits `usize` and the container is no
/// shorter than `4 * width * height` bytes (a container cannot be longer than
/// `usize::MAX`, so the full product then fits too). It stores the dimensions
/// and the container as given.
#[verifier::external_body]
fn rgba_from_raw(width: u32, height: u32, buf: Vec<u8>) -> (img: Option<DynamicImage>)
    ensures
        img.is_some() == fits_rgba(width, height, buf@.len()),
        img matches Some(i) ==> image_is_rgba8(i) && image_size(i) == (width, height)
            && image_bytes(i) == buf@,
{
    image::ImageBuffer::from_raw(width, height, buf).map(DynamicImage::ImageRgba8)
}

/// An RGBA image of the given dimensions over `buf`. The buffer must hold
/// exactly `4 * width * height` bytes, and the byte length of one row,
/// `4 * width`, must fit `usize` (on a 32-bit machine a width of 2^30 or more
/// does not, even with a height of zero). Anything else is a
/// `BufferSizeMismatch`.
pub fn build_image(width: u32, height: u32, buf: Vec<u8>) -> (r: Result<DynamicImage, PipelineError>)
    ensures
        r is Ok == (buf@.len() == 4 * width * height && 4 * width <= usize::MAX),
        r matches Ok(img) ==> is_rgba_image(img, width, height, buf@),
        r matches Err(e) ==> e == PipelineError::BufferSizeMismatch,
{
    assert(width * height <= u64::MAX && 4 * width * height == 4 * (width * height))
        by (nonlinear_arith)
        requires
            width <= u32::MAX,
            height <= u32::MAX,
    ;
    let area: u64 = (width as u64) * (height as u64);
    let wanted: u128 = 4u128 * (area as u128);
    if buf.len() as u128 != wanted {
        return Err(PipelineError::BufferSizeMismatch);
    }
    match rgba_from_raw(width, height, buf) {
        Some(img) => Ok(img),
        None => Err(PipelineError::BufferSizeMismatch),
    }
}

/// Brightens a frame and builds the RGBA image of it. Succeeds exactly on a
/// renderable frame: one whose storage matches its dimensions and whose rows
/// fit the machine.
pub fn render(frame: &Frame) -> (r: Result<DynamicImage, PipelineError>)
    ensures
        r is Ok == frame.is_renderable(),
        r matches Ok(img) ==> is_rgba_image(img, frame.width, frame.height, rgba_of(frame.pixels@)),
        r matches Err(e) ==> e == PipelineError::BufferSizeMismatch,
{
    proof {
        lemma_quadruple_area(frame.width as int, frame.height as int);
    }
    build_image(frame.width, frame.height, frame.to_rgba())
}

} // verus!
