//! The pipeline from an encoded image to an encoded edge image.

use crate::backend::{
    canny, canny_gives, canny_takes, decode_luma8, decoder_gives, encode_png, png_encoding,
    sobel_gradients, sobel_magnitudes,
};
use crate::normalize::{is_flat, lemma_constant_is_black, normalize_u16_to_u8, normalized};
use crate::raster::{Grid, Raster};
use vstd::prelude::*;

verus! {

/// Which edge operator to run.
#[derive(Clone, Copy, Debug, PartialEq, Eq, Structural)]
pub enum EdgeDetectionMethod {
    /// Sobel gradient magnitudes, rescaled to the full 8-bit range.
    Sobel,
    /// Canny's detector: a binary mask of the edges.
    Canny,
}

/// Why no edge image came out.
#[derive(Clone, Copy, Debug, PartialEq, Eq, Structural)]
pub enum EdgeError {
    /// The input is not an image in any format that the decoder reads.
    Decode,
    /// The image has a side of length zero, or is too large for the
    /// Canny detector.
    Dimensions,
    /// The edge image could not be written as a PNG.
    Encode,
}

/// An encoded edge image.
#[derive(Clone, Debug, PartialEq, Eq)]
pub struct EdgeOutput {
    /// The PNG file: one 8-bit grayscale channel.
    pub png: Vec<u8>,
    /// The gradient was the same everywhere, so the image is black and
    /// shows nothing. Only the Sobel operator reports this.
    pub flat_gradient: bool,
}

/// The low threshold of the Canny detector's hysteresis step.
pub const CANNY_LOW_THRESHOLD: u8 = 50;

/// The high threshold of the Canny detector's hysteresis step.
pub const CANNY_HIGH_THRESHOLD: u8 = 100;

/// The Sobel edge image of `luma`: its gradient magnitudes, normalized.
pub open spec fn sobel_edges(luma: Grid<u8>) -> Grid<u8> {
    Grid { width: luma.width, height: luma.height, cells: normalized(sobel_magnitudes(luma)) }
}

/// The image of the given size whose samples are all 0.
pub open spec fn black(width: nat, height: nat) -> Grid<u8> {
    Grid { width, height, cells: Seq::new(width * height, |i: int| 0u8) }
}

/// `mask` has the given size and holds no value but 0 and 255.
pub open spec fn is_binary_of_size(mask: Grid<u8>, width: nat, height: nat) -> bool {
    &&& mask.wf()
    &&& mask.width == width
    &&& mask.height == height
    &&& forall|i: int| 0 <= i < mask.cells.len() ==> mask.cells[i] == 0 || mask.cells[i] == 255
}

/// `mask` is what the Canny detector gave for `luma` at the two fixed
/// thresholds: a binary image of the size of `luma`.
pub open spec fn is_canny_mask(mask: Grid<u8>, luma: Grid<u8>) -> bool {
    &&& is_binary_of_size(mask, luma.width, luma.height)
    &&& canny_gives(luma, CANNY_LOW_THRESHOLD, CANNY_HIGH_THRESHOLD, mask)
}

/// `r` is what encoding `edges` gives: its PNG file together with `flat`,
/// or the encoder's refusal.
pub open spec fn delivers(r: Result<EdgeOutput, EdgeError>, edges: Grid<u8>, flat: bool) -> bool {
    match png_encoding(edges) {
        Some(bytes) => r matches Ok(out) && out.png@ == bytes && out.flat_gradient == flat,
        None => r == Err::<EdgeOutput, EdgeError>(EdgeError::Encode),
    }
}

/// `png` is the PNG file of some 8-bit grayscale image of the given size.
pub open spec fn is_png_of_size(png: Seq<u8>, width: nat, height: nat) -> bool {
    exists|gray: Grid<u8>|
        gray.wf() && gray.width == width && gray.height == height && #[trigger] png_encoding(gray)
            == Some(png)
}

/// `r` is the outcome for the luma image `luma` under `method`.
///
/// Sobel: the encoding of the normalized gradient, flagged where the
/// gradient is flat. A uniform image has a flat gradient, so that its
/// outcome is the encoding of the black image, flagged. Canny: the
/// encoding of the detector's mask, never flagged, or a refusal of the
/// image's size.
pub open spec fn edge_image_of(
    luma: Grid<u8>,
    method: EdgeDetectionMethod,
    r: Result<EdgeOutput, EdgeError>,
) -> bool {
    match method {
        EdgeDetectionMethod::Sobel => {
            &&& delivers(r, sobel_edges(luma), is_flat(sobel_magnitudes(luma)))
            &&& luma.is_uniform() ==> delivers(r, black(luma.width, luma.height), true)
        },
        EdgeDetectionMethod::Canny => if canny_takes(luma.width, luma.height) {
            exists|mask: Grid<u8>| is_canny_mask(mask, luma) && #[trigger] delivers(r, mask, false)
        } else {
            r == Err::<EdgeOutput, EdgeError>(EdgeError::Dimensions)
        },
    }
}

/// Tells whether the Canny detector can run on an image of this size.
pub fn canny_fits(width: u32, height: u32) -> (fits: bool)
    ensures
        fits == canny_takes(width as nat, height as nat),
{
    if width == 0 || height == 0 || width > 0x7fff_ffff || height > 0x7fff_ffff {
        return false;
    }
    assert(width as nat * height as nat <= u64::MAX) by (nonlinear_arith)
        requires
            width <= u32::MAX,
            height <= u32::MAX,
    ;
    (width as u64) * (height as u64) <= 0xffff_ffff
}

/// Runs the chosen operator on a luma image. The Sobel path normalizes
/// the gradient magnitudes and reports a flat gradient, which a uniform
/// image always has; the Canny path gives the detector's mask at the two
/// fixed thresholds and never reports one.
pub fn detect_edges(luma: Raster<u8>, method: EdgeDetectionMethod) -> (r: Result<
    (Raster<u8>, bool),
    EdgeError,
>)
    requires
        luma.wf(),
    ensures
        match method {
            EdgeDetectionMethod::Sobel => {
                &&& r matches Ok((edges, flat)) && edges@ == sobel_edges(luma@) && flat == is_flat(
                    sobel_magnitudes(luma@),
                )
                &&& luma@.is_uniform() ==> (r matches Ok((edges, flat)) && flat && edges@ == black(
                    luma@.width,
                    luma@.height,
                ))
            },
            EdgeDetectionMethod::Canny => if canny_takes(luma@.width, luma@.height) {
                r matches Ok((edges, flat)) && is_canny_mask(edges@, luma@) && !flat
            } else {
                r == Err::<(Raster<u8>, bool), EdgeError>(EdgeError::Dimensions)
            },
        },
        r matches Ok((edges, _)) ==> edges.wf() && edges@.width == luma@.width && edges@.height
            == luma@.height,
{
    match method {
        EdgeDetectionMethod::Sobel => {
            let ghost uniform = luma@.is_uniform();
            let gradient = sobel_gradients(luma);
            let out = normalize_u16_to_u8(&gradient);
            proof {
                if uniform {
                    lemma_constant_is_black(gradient@.cells, 0);
                    assert(out.0@.cells =~= black(out.0@.width, out.0@.height).cells);
                }
            }
            Ok(out)
        },
        EdgeDetectionMethod::Canny => {
            if canny_fits(luma.width, luma.height) {
                Ok((canny(luma, CANNY_LOW_THRESHOLD, CANNY_HIGH_THRESHOLD), false))
            } else {
                Err(EdgeError::Dimensions)
            }
        },
    }
}

/// Writes an edge image as a PNG file and attaches the flag to it.
pub fn encode_edges(edges: &Raster<u8>, flat: bool) -> (r: Result<EdgeOutput, EdgeError>)
    requires
        edges.wf(),
    ensures
        delivers(r, edges@, flat),
{
    match encode_png(edges) {
        Ok(png) => Ok(EdgeOutput { png, flat_gradient: flat }),
        Err(_) => Err(EdgeError::Encode),
    }
}

/// Detects the edges of a luma image and returns them as a PNG file of
/// the same dimensions.
pub fn edge_image(luma: Raster<u8>, method: EdgeDetectionMethod) -> (r: Result<
    EdgeOutput,
    EdgeError,
>)
    requires
        luma.wf(),
    ensures
        edge_image_of(luma@, method, r),
        r matches Ok(out) ==> is_png_of_size(out.png@, luma@.width, luma@.height),
        r matches Ok(out) && out.flat_gradient ==> method == EdgeDetectionMethod::Sobel,
{
    match detect_edges(luma, method) {
        Ok((edges, flat)) => {
            let r = encode_edges(&edges, flat);
            proof {
                if r is Ok {
                    assert(png_encoding(edges@) == Some(r->Ok_0.png@));
                }
            }
            r
        },
        Err(e) => Err(e),
    }
}

/// Decodes an image, detects its edges and returns them as a PNG file.
///
/// The format of the input is guessed from its content. Whether the
/// input decodes is the decoder's to say; what follows is settled by the
/// luma image that it gave. The output has the dimensions of that image.
pub fn process_image_wasm(image_data: &[u8], method: EdgeDetectionMethod) -> (r: Result<
    EdgeOutput,
    EdgeError,
>)
    ensures
        r == Err::<EdgeOutput, EdgeError>(EdgeError::Decode) || exists|luma: Grid<u8>|
            luma.wf() && decoder_gives(image_data@, luma) && #[trigger] edge_image_of(
                luma,
                method,
                r,
            ),
        r matches Ok(out) ==> exists|luma: Grid<u8>| #[trigger]
            decoder_gives(image_data@, luma) && is_png_of_size(
                out.png@,
                luma.width,
                luma.height,
            ),
        r matches Ok(out) && out.flat_gradient ==> method == EdgeDetectionMethod::Sobel,
{
    match decode_luma8(image_data) {
        Ok(luma) => {
            let ghost decoded = luma@;
            let r = edge_image(luma, method);
            proof {
                assert(decoder_gives(image_data@, decoded) && edge_image_of(decoded, method, r));
            }
            r
        },
        Err(_) => Err(EdgeError::Decode),
    }
}

} // verus!
