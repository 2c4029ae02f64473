//! SVG-to-PNG rasterization as a small set of callable functions.
//!
//! Each operation parses an SVG document, resolves a target raster size from
//! the document's intrinsic size and the caller's overrides, renders the
//! scene into a pixel buffer under an affine scale transform, and encodes
//! the buffer as PNG bytes.  Parsing, rendering and encoding are delegated
//! to outside crates behind the trusted boundary in `backend`; the dimension
//! arithmetic, the error taxonomy and the orchestration are verified against
//! the model in `model`.

mod backend;
pub mod convert;
pub mod error;
pub mod laws;
pub mod model;

pub use convert::convert_svg_to_png;
pub use convert::convert_svg_to_png_with_scale;
pub use convert::get_svg_dimensions;
pub use convert::svg_to_png;
pub use convert::Dimensions;
pub use error::SvgError;
