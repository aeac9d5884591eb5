//! Per-channel brightening of packed 32-bit pixels into RGBA bytes.

use vstd::prelude::*;
use vstd::math::min;

verus! {

/// Amount added to every colour channel.
pub const BRIGHTNESS: u8 = 10;

/// Alpha value written for every pixel: fully opaque.
pub const OPAQUE: u8 = 255;

/// Red channel of a packed pixel: its least significant byte.
pub open spec fn red_of(v: u32) -> u8 {
    (v % 256) as u8
}

/// Green channel of a packed pixel: its second byte.
pub open spec fn green_of(v: u32) -> u8 {
    ((v / 256) % 256) as u8
}

/// Blue channel of a packed pixel: its third byte.
pub open spec fn blue_of(v: u32) -> u8 {
    ((v / 65536) % 256) as u8
}

/// A channel after brightening: `min(255, c + BRIGHTNESS)`.
pub open spec fn brightened(c: u8) -> u8 {
    min(255, c + BRIGHTNESS) as u8
}

/// Adds `BRIGHTNESS` to a channel, clamping at 255 instead of wrapping.
pub fn brighten_channel(c: u8) -> (out: u8)
    ensures
        out == min(255, c + BRIGHTNESS),
        out == brightened(c),
{
    c.saturating_add(BRIGHTNESS)
}

/// The four RGBA bytes that one packed pixel becomes: each colour channel
/// brightened, alpha opaque.
pub open spec fn pixel_rgba(v: u32) -> Seq<u8> {
    seq![brightened(red_of(v)), brightened(green_of(v)), brightened(blue_of(v)), OPAQUE]
}

/// The interleaved RGBA bytes of a run of packed pixels, in storage order:
/// byte `i` belongs to pixel `i / 4` and is its channel `i % 4`.
pub open spec fn rgba_of(pixels: Seq<u32>) -> Seq<u8> {
    Seq::new(4 * pixels.len(), |i: int| pixel_rgba(pixels[i / 4])[i % 4])
}

/// Splits a packed pixel into its red, green and blue bytes, dropping the
/// fourth.
pub fn split_channels(v: u32) -> (rgb: (u8, u8, u8))
    ensures
        rgb.0 == red_of(v),
        rgb.1 == green_of(v),
        rgb.2 == blue_of(v),
{
    let red: u8 = #[verifier::truncate] (v as u8);
    let green: u8 = #[verifier::truncate] ((v >> 8) as u8);
    let blue: u8 = #[verifier::truncate] ((v >> 16) as u8);
    assert(v as u8 == (v % 256) as u8) by (bit_vector);
    assert((v >> 8) as u8 == ((v / 256) % 256) as u8) by (bit_vector);
    assert((v >> 16) as u8 == ((v / 65536) % 256) as u8) by (bit_vector);
    (red, green, blue)
}

/// Brightens one packed pixel into its RGBA bytes.
pub fn brighten_pixel(v: u32) -> (out: [u8; 4])
    ensures
        out@ == pixel_rgba(v),
{
    let (red, green, blue): (u8, u8, u8) = split_channels(v);
    let out: [u8; 4] = [
        brighten_channel(red),
        brighten_channel(green),
        brighten_channel(blue),
        OPAQUE,
    ];
    assert(out@ =~= pixel_rgba(v));
    out
}

/// Brightens every pixel of `pixels` into a newly allocated RGBA buffer:
/// four bytes per pixel, in storage order. Every colour byte is its channel
/// plus `BRIGHTNESS`, clamped at 255; every alpha byte is 255.
pub fn brighten_pixels(pixels: &[u32]) -> (out: Vec<u8>)
    ensures
        out@ == rgba_of(pixels@),
        out@.len() == 4 * pixels@.len(),
        out@.len() % 4 == 0,
        forall|k: int|
            #![trigger pixels@[k]]
            0 <= k < pixels@.len() ==> {
                &&& out@[4 * k] == min(255, red_of(pixels@[k]) + BRIGHTNESS)
                &&& out@[4 * k + 1] == min(255, green_of(pixels@[k]) + BRIGHTNESS)
                &&& out@[4 * k + 2] == min(255, blue_of(pixels@[k]) + BRIGHTNESS)
                &&& out@[4 * k + 3] == OPAQUE
            },
{
    let mut out: Vec<u8> = Vec::new();
    let mut i: usize = 0;
    while i < pixels.len()
        invariant
            i <= pixels@.len(),
            out@.len() == 4 * i,
            forall|j: int| 0 <= j < 4 * i ==> out@[j] == pixel_rgba(pixels@[j / 4])[j % 4],
        decreases pixels@.len() - i,
    {
        let rgba: [u8; 4] = brighten_pixel(pixels[i]);
        out.push(rgba[0]);
        out.push(rgba[1]);
        out.push(rgba[2]);
        out.push(rgba[3]);
        i = i + 1;
    }
    assert(out@ =~= rgba_of(pixels@));
    proof {
        assert forall|k: int| #![trigger pixels@[k]] 0 <= k < pixels@.len() implies {
            &&& out@[4 * k] == min(255, red_of(pixels@[k]) + BRIGHTNESS)
            &&& out@[4 * k + 1] == min(255, green_of(pixels@[k]) + BRIGHTNESS)
            &&& out@[4 * k + 2] == min(255, blue_of(pixels@[k]) + BRIGHTNESS)
            &&& out@[4 * k + 3] == OPAQUE
        } by {
            lemma_colour_bytes_saturate(pixels@, k);
            lemma_alpha_bytes_are_opaque(pixels@, k);
        }
    }
    out
}

/// Every colour byte of the buffer is its pixel's channel plus `BRIGHTNESS`,
/// clamped at 255. It is never below the channel it came from: the addition
/// does not wrap.
pub proof fn lemma_colour_bytes_saturate(pixels: Seq<u32>, k: int)
    requires
        0 <= k < pixels.len(),
    ensures
        rgba_of(pixels)[4 * k] == min(255, red_of(pixels[k]) + BRIGHTNESS),
        rgba_of(pixels)[4 * k + 1] == min(255, green_of(pixels[k]) + BRIGHTNESS),
        rgba_of(pixels)[4 * k + 2] == min(255, blue_of(pixels[k]) + BRIGHTNESS),
        rgba_of(pixels)[4 * k] >= red_of(pixels[k]),
        rgba_of(pixels)[4 * k + 1] >= green_of(pixels[k]),
        rgba_of(pixels)[4 * k + 2] >= blue_of(pixels[k]),
{
}

/// Every fourth byte of the buffer, the alpha of its pixel, is 255 whatever
/// the pixel holds.
pub proof fn lemma_alpha_bytes_are_opaque(pixels: Seq<u32>, k: int)
    requires
        0 <= k < pixels.len(),
    ensures
        rgba_of(pixels)[4 * k + 3] == 255,
{
}

/// The buffer holds four bytes for each pixel, so its length is a multiple
/// of four.
pub proof fn lemma_four_bytes_per_pixel(pixels: Seq<u32>)
    ensures
        rgba_of(pixels).len() == 4 * pixels.len(),
        rgba_of(pixels).len() % 4 == 0,
{
}

} // verus!
