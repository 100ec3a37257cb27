//! The image codec and the edge operators, which this crate takes from
//! `image` and `imageproc`. Nothing in this module is proved: each
//! function states what is relied on of the code it calls.

use crate::raster::{Grid, Raster};
use image::codecs::png::PngEncoder;
use image::{ColorType, GrayImage, ImageEncoder, ImageError};
use std::io::Cursor;
use vstd::prelude::*;

verus! {

/// The error type of the `image` crate, carried through unopened.
#[verifier::external_type_specification]
#[verifier::external_body]
pub struct ExImageError(ImageError);

/// `luma` is what a call of the `image` crate's decoder, followed by its
/// projection to 8-bit luma, gave for `bytes`. This is a relation and not
/// a function of the bytes: the decoder first asks the format detectors
/// and decoders that the host has registered with the `image` crate in
/// this process, so that the same bytes may read differently from one
/// call to the next.
pub uninterp spec fn decoder_gives(bytes: Seq<u8>, luma: Grid<u8>) -> bool;

/// The Sobel gradient magnitudes that `imageproc` computes for a luma
/// image, in row-major order.
pub uninterp spec fn sobel_magnitudes(luma: Grid<u8>) -> Seq<u16>;

/// The PNG file that the `image` crate writes for an 8-bit grayscale
/// image, or `None` where it refuses to write one.
pub uninterp spec fn png_encoding(gray: Grid<u8>) -> Option<Seq<u8>>;

/// `mask` is what a call of `imageproc`'s Canny detector gave for `luma`
/// with the hysteresis thresholds `low` and `high`. This is a relation and
/// not a function: the detector blurs and measures angles in floating
/// point, whose last digit the platform decides.
pub uninterp spec fn canny_gives(luma: Grid<u8>, low: u8, high: u8, mask: Grid<u8>) -> bool;

/// The dimensions on which `imageproc`'s Canny detector runs to the end:
/// it subtracts one from each side, converts each side to `i32`, and
/// multiplies the two sides in `u32`.
pub open spec fn canny_takes(width: nat, height: nat) -> bool {
    &&& 0 < width <= i32::MAX
    &&& 0 < height <= i32::MAX
    &&& width * height <= u32::MAX
}

/// Calls two functions of the `image` crate, one after the other:
/// `image::load_from_memory`, which guesses the format from the buffer's
/// content, and `DynamicImage::to_luma8` on what it read. Claimed: the
/// luma image comes with one sample for each position. Nothing is
/// claimed on when the decoder succeeds; a decoder that the host has
/// registered runs as part of the call.
#[verifier::external_body]
pub(crate) fn decode_luma8(bytes: &[u8]) -> (r: Result<Raster<u8>, ImageError>)
    ensures
        r matches Ok(luma) ==> luma.wf() && decoder_gives(bytes@, luma@),
{
    let gray = image::load_from_memory(bytes)?.to_luma8();
    let pixels = gray.pixels().map(|p| p.0[0]).collect();
    Ok(Raster { width: gray.width(), height: gray.height(), pixels })
}

/// Calls `imageproc::gradients::sobel_gradients`. Claimed: the result has
/// the dimensions of the input, one magnitude for each position, and
/// depends on the input alone (the operator squares and adds integers
/// below 2^24 in single precision, which is exact, and cuts the square
/// root off to an integer). Claimed too: on an image whose samples are
/// all the same every magnitude is 0, since the weights of each of the
/// two kernels add up to 0 and the border is padded with the nearest
/// sample.
#[verifier::external_body]
pub(crate) fn sobel_gradients(luma: Raster<u8>) -> (gradient: Raster<u16>)
    requires
        luma.wf(),
    ensures
        gradient.wf(),
        gradient@.width == luma@.width,
        gradient@.height == luma@.height,
        gradient@.cells == sobel_magnitudes(luma@),
        luma@.is_uniform() ==> forall|i: int|
            0 <= i < gradient@.cells.len() ==> #[trigger] gradient@.cells[i] == 0,
{
    let gray = GrayImage::from_raw(luma.width, luma.height, luma.pixels).unwrap();
    let gradient = imageproc::gradients::sobel_gradients(&gray);
    let pixels = gradient.pixels().map(|p| p.0[0]).collect();
    Raster { width: gradient.width(), height: gradient.height(), pixels }
}

/// Calls `imageproc::edges::canny` with the two hysteresis thresholds.
/// Claimed: the result has the dimensions of the input and is a binary
/// mask, 255 on edges and 0 elsewhere. Which positions are edges is
/// stated only as the relation `canny_gives`. The detector panics where
/// the low threshold exceeds the high one; a threshold of zero would let
/// the search step off the image's border.
#[verifier::external_body]
pub(crate) fn canny(luma: Raster<u8>, low: u8, high: u8) -> (mask: Raster<u8>)
    requires
        luma.wf(),
        canny_takes(luma@.width, luma@.height),
        0 < low <= high,
    ensures
        mask.wf(),
        mask@.width == luma@.width,
        mask@.height == luma@.height,
        forall|i: int| 0 <= i < mask@.cells.len() ==> mask@.cells[i] == 0 || mask@.cells[i] == 255,
        canny_gives(luma@, low, high, mask@),
{
    let gray = GrayImage::from_raw(luma.width, luma.height, luma.pixels).unwrap();
    let mask = imageproc::edges::canny(&gray, low.into(), high.into());
    let pixels = mask.pixels().map(|p| p.0[0]).collect();
    Raster { width: mask.width(), height: mask.height(), pixels }
}

/// Calls `PngEncoder::write_image` of the `image` crate with the color
/// type `L8`, writing into memory. Claimed: the outcome depends on the
/// image alone. The encoder panics unless it gets one byte for each
/// position.
#[verifier::external_body]
pub(crate) fn encode_png(gray: &Raster<u8>) -> (r: Result<Vec<u8>, ImageError>)
    requires
        gray.wf(),
    ensures
        r matches Ok(bytes) ==> png_encoding(gray@) == Some(bytes@),
        r is Err ==> png_encoding(gray@) is None,
{
    let mut buf = Vec::new();
    let encoder = PngEncoder::new(Cursor::new(&mut buf));
    encoder.write_image(&gray.pixels, gray.width, gray.height, ColorType::L8.into())?;
    Ok(buf)
}

} // verus!
