//! Edge detection on encoded images: decode to 8-bit luma, run a Sobel or
//! Canny operator, rescale gradient magnitudes to the displayable range and
//! encode the result as an 8-bit grayscale PNG.

pub mod backend;
pub mod normalize;
pub mod pipeline;
pub mod raster;

pub use normalize::normalize_u16_to_u8;
pub use pipeline::{process_image_wasm, EdgeDetectionMethod, EdgeError, EdgeOutput};
pub use raster::Raster;
