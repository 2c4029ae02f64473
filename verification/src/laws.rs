//! Laws of the conversion facade, proved from the public contracts.

use vstd::prelude::*;
use crate::convert::dimensions_post;
use crate::convert::Dimensions;
use crate::error::SvgError;
use crate::model::alloc_ok;
use crate::model::declares_png_size;
use crate::model::dims_post;
use crate::model::render_size_for;
use crate::model::scale_post;
use crate::model::scaled_dim;
use crate::model::stretch_png;
use crate::model::svg_intrinsic_height;
use crate::model::svg_intrinsic_width;
use crate::model::svg_parses;
use crate::model::uniform_png;

verus! {

/// The size probe and the default conversion agree: for every valid
/// document, the raster size a conversion without explicit dimensions uses
/// is exactly the pair that `get_svg_dimensions` returns.
pub proof fn lemma_dimensions_match_default(s: Seq<char>, dims: Result<Dimensions, SvgError>)
    requires
        svg_parses(s),
        dimensions_post(s, dims),
    ensures
        dims matches Ok(d) && render_size_for(s, None, None) == (d.width, d.height),
{
}

/// A conversion with explicit dimensions that succeeds returns a PNG whose
/// declared raster size is exactly the requested pair.
pub proof fn lemma_explicit_dimensions_honored(
    s: Seq<char>,
    w: u32,
    h: u32,
    r: Result<Vec<u8>, SvgError>,
)
    requires
        dims_post(s, Some(w), Some(h), r),
        r is Ok,
    ensures
        r matches Ok(v) && declares_png_size(v@, w, h),
{
}

/// A scaled conversion that succeeds returns a PNG whose declared raster
/// size is the intrinsic size scaled and rounded, on both axes.
pub proof fn lemma_scaled_dimensions_honored(s: Seq<char>, scale_millis: u32, r: Result<
    Vec<u8>,
    SvgError,
>)
    requires
        scale_post(s, scale_millis, r),
        r is Ok,
    ensures
        r matches Ok(v) && declares_png_size(
            v@,
            scaled_dim(svg_intrinsic_width(s), scale_millis),
            scaled_dim(svg_intrinsic_height(s), scale_millis),
        ),
{
}

/// Success is owed on explicit dimensions: for valid text, an allocatable
/// requested pair and a willing encoder, the conversion returns `Ok`, and
/// the PNG declares exactly the requested pair — whatever the document's
/// intrinsic size.
pub proof fn lemma_explicit_dimensions_succeed(
    s: Seq<char>,
    w: u32,
    h: u32,
    r: Result<Vec<u8>, SvgError>,
)
    requires
        dims_post(s, Some(w), Some(h), r),
        svg_parses(s),
        alloc_ok(w, h),
        stretch_png(s, w, h) is Some,
    ensures
        r matches Ok(v) && declares_png_size(v@, w, h),
{
}

/// Success is owed on a positive scale: for valid text, an allocatable
/// scaled size and a willing encoder, the scaled conversion returns `Ok`,
/// and the PNG declares the intrinsic size scaled and rounded on both axes.
pub proof fn lemma_scaled_conversion_succeeds(s: Seq<char>, scale_millis: u32, r: Result<
    Vec<u8>,
    SvgError,
>)
    requires
        scale_post(s, scale_millis, r),
        svg_parses(s),
        1 <= scale_millis,
        alloc_ok(
            scaled_dim(svg_intrinsic_width(s), scale_millis),
            scaled_dim(svg_intrinsic_height(s), scale_millis),
        ),
        uniform_png(s, scale_millis) is Some,
    ensures
        r matches Ok(v) && declares_png_size(
            v@,
            scaled_dim(svg_intrinsic_width(s), scale_millis),
            scaled_dim(svg_intrinsic_height(s), scale_millis),
        ),
{
}

/// Conversion is deterministic: two results of a conversion with identical
/// inputs agree — success for success, and byte-identical PNG output.  No
/// hidden state affects a conversion.
pub proof fn lemma_dims_conversion_deterministic(
    s: Seq<char>,
    width: Option<u32>,
    height: Option<u32>,
    r1: Result<Vec<u8>, SvgError>,
    r2: Result<Vec<u8>, SvgError>,
)
    requires
        dims_post(s, width, height, r1),
        dims_post(s, width, height, r2),
    ensures
        r1 is Ok <==> r2 is Ok,
        r1 is Ok ==> r1->Ok_0@ == r2->Ok_0@,
{
}

/// Determinism of the scaled conversion, stated as for
/// `lemma_dims_conversion_deterministic`.
pub proof fn lemma_scale_conversion_deterministic(
    s: Seq<char>,
    scale_millis: u32,
    r1: Result<Vec<u8>, SvgError>,
    r2: Result<Vec<u8>, SvgError>,
)
    requires
        scale_post(s, scale_millis, r1),
        scale_post(s, scale_millis, r2),
    ensures
        r1 is Ok <==> r2 is Ok,
        r1 is Ok ==> r1->Ok_0@ == r2->Ok_0@,
{
}

/// Text the parser refuses is rejected by every operation with a parse
/// error, never a success value.  (A scale of zero is rejected before the
/// text is even looked at, so the scaled conversion is taken at a positive
/// scale.)
pub proof fn lemma_malformed_never_converts(
    s: Seq<char>,
    width: Option<u32>,
    height: Option<u32>,
    scale_millis: u32,
    r1: Result<Vec<u8>, SvgError>,
    r2: Result<Vec<u8>, SvgError>,
    dims: Result<Dimensions, SvgError>,
)
    requires
        !svg_parses(s),
        dims_post(s, width, height, r1),
        1 <= scale_millis,
        scale_post(s, scale_millis, r2),
        dimensions_post(s, dims),
    ensures
        r1 matches Err(e) && e is Parse,
        r2 matches Err(e) && e is Parse,
        dims matches Err(e) && e is Parse,
{
}

/// An explicit width or height of zero is rejected as an allocation
/// failure; no pixel buffer of a degenerate size is ever requested.
pub proof fn lemma_zero_dimension_rejected(
    s: Seq<char>,
    width: Option<u32>,
    height: Option<u32>,
    r: Result<Vec<u8>, SvgError>,
)
    requires
        dims_post(s, width, height, r),
        svg_parses(s),
        width == Some(0u32) || height == Some(0u32),
    ensures
        r matches Err(e) && e is Allocation,
{
}

/// A scale of zero is rejected as an invalid argument, whatever the text.
pub proof fn lemma_zero_scale_rejected(s: Seq<char>, r: Result<Vec<u8>, SvgError>)
    requires
        scale_post(s, 0, r),
    ensures
        r matches Err(e) && e is InvalidArgument,
{
}

} // verus!
