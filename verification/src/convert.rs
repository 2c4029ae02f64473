//! The conversion facade: parse, resolve the raster size, rasterize, encode.

use vstd::prelude::*;
use crate::backend::parse_svg;
use crate::backend::rasterize_stretch;
use crate::backend::rasterize_uniform;
use crate::backend::RasterOutcome;
use crate::error::SvgError;
use crate::model::alloc_ok;
use crate::model::dims_post;
use crate::model::scale_post;
use crate::model::scaled_dim;
use crate::model::svg_intrinsic_height;
use crate::model::svg_intrinsic_width;
use crate::model::svg_parses;

verus! {

/// A width and height in pixels.
#[derive(Clone, Copy, Debug, PartialEq, Eq, Structural)]
pub struct Dimensions {
    pub width: u32,
    pub height: u32,
}

/// Full specification of `get_svg_dimensions`: the intrinsic size of every
/// valid document, a parse error for everything else.
pub open spec fn dimensions_post(s: Seq<char>, r: Result<Dimensions, SvgError>) -> bool {
    if svg_parses(s) {
        r matches Ok(d) && d.width == svg_intrinsic_width(s) && d.height == svg_intrinsic_height(s)
    } else {
        r matches Err(e) && e is Parse
    }
}

/// `d` scaled by `scale_millis` thousandths, rounded half up and saturated
/// at `u32::MAX`.
fn scaled_dim_px(d: u32, scale_millis: u32) -> (r: u32)
    ensures
        r == scaled_dim(d, scale_millis),
{
    proof {
        assert((d as int) * (scale_millis as int) <= 0xffff_ffff * 0xffff_ffff)
            by (nonlinear_arith)
            requires
                d <= 0xffff_ffff,
                scale_millis <= 0xffff_ffff,
        ;
    }
    let p: u64 = (d as u64) * (scale_millis as u64);
    let q: u64 = (p + 500) / 1000;
    if q > 0xffff_ffff {
        u32::MAX
    } else {
        q as u32
    }
}

/// Whether a `w` by `h` raster of four-byte pixels may be allocated.
fn raster_fits(w: u32, h: u32) -> (r: bool)
    ensures
        r == alloc_ok(w, h),
{
    if w == 0 || h == 0 {
        return false;
    }
    let row: u64 = 4u64 * (w as u64);
    if row > 0x7fff_ffff {
        proof {
            assert(4 * (w as int) * (h as int) >= 4 * (w as int)) by (nonlinear_arith)
                requires
                    1 <= h,
                    0 <= w,
            ;
        }
        return false;
    }
    proof {
        assert((row as int) * (h as int) <= 0x7fff_ffff * 0xffff_ffff) by (nonlinear_arith)
            requires
                row <= 0x7fff_ffff,
                h <= 0xffff_ffff,
        ;
    }
    let total: u64 = row * (h as u64);
    total <= 0x7fff_ffff
}

/// Convert SVG text to PNG bytes.  The raster is the document's intrinsic
/// size, with each axis independently overridden by an explicit dimension
/// when one is given; the scene is stretched to fill the raster.
pub fn convert_svg_to_png(svg_content: &str, width: Option<u32>, height: Option<u32>) -> (r:
    Result<Vec<u8>, SvgError>)
    ensures
        dims_post(svg_content@, width, height, r),
{
    let doc = match parse_svg(svg_content) {
        Ok(d) => d,
        Err(m) => return Err(SvgError::Parse(m)),
    };
    let rw = match width {
        Some(w) => w,
        None => doc.width_px(),
    };
    let rh = match height {
        Some(h) => h,
        None => doc.height_px(),
    };
    if !raster_fits(rw, rh) {
        return Err(SvgError::Allocation);
    }
    match rasterize_stretch(&doc, rw, rh) {
        RasterOutcome::AllocFailed => Err(SvgError::Allocation),
        RasterOutcome::Encoded(png) => Ok(png),
        RasterOutcome::EncodeFailed(m) => Err(SvgError::Encoding(m)),
    }
}

/// Convert SVG text to PNG bytes under a uniform scale, given in thousandths
/// (a `scale_millis` of 1500 renders at one and a half times the intrinsic
/// size).  A scale of zero is rejected before anything is parsed.
pub fn convert_svg_to_png_with_scale(svg_content: &str, scale_millis: u32) -> (r: Result<
    Vec<u8>,
    SvgError,
>)
    ensures
        scale_post(svg_content@, scale_millis, r),
{
    if scale_millis == 0 {
        return Err(SvgError::InvalidArgument);
    }
    let doc = match parse_svg(svg_content) {
        Ok(d) => d,
        Err(m) => return Err(SvgError::Parse(m)),
    };
    let rw = scaled_dim_px(doc.width_px(), scale_millis);
    let rh = scaled_dim_px(doc.height_px(), scale_millis);
    if !raster_fits(rw, rh) {
        return Err(SvgError::Allocation);
    }
    match rasterize_uniform(&doc, rw, rh, scale_millis) {
        RasterOutcome::AllocFailed => Err(SvgError::Allocation),
        RasterOutcome::Encoded(png) => Ok(png),
        RasterOutcome::EncodeFailed(m) => Err(SvgError::Encoding(m)),
    }
}

/// Parse SVG text and report its intrinsic size in pixels.  Nothing is
/// rasterized.
pub fn get_svg_dimensions(svg_content: &str) -> (r: Result<Dimensions, SvgError>)
    ensures
        dimensions_post(svg_content@, r),
{
    match parse_svg(svg_content) {
        Ok(doc) => Ok(Dimensions { width: doc.width_px(), height: doc.height_px() }),
        Err(m) => Err(SvgError::Parse(m)),
    }
}

/// Convert SVG text to PNG bytes at the document's intrinsic size.
pub fn svg_to_png(svg_content: &str) -> (r: Result<Vec<u8>, SvgError>)
    ensures
        dims_post(svg_content@, None, None, r),
{
    convert_svg_to_png(svg_content, None, None)
}

} // verus!
