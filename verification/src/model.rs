//! Mathematical model of the conversion pipeline.
//!
//! The parser, the renderer and the PNG encoder live in outside crates; their
//! results are named here as uninterpreted functions of the inputs, since all
//! three are deterministic computations on the values they are given.  The
//! dimension arithmetic and the PNG header layout are spelled out exactly.

use vstd::prelude::*;
use crate::error::SvgError;

verus! {

/// Whether the SVG parser accepts the text as a valid SVG document.
pub uninterp spec fn svg_parses(s: Seq<char>) -> bool;

/// The document's intrinsic width in whole pixels (its declared width,
/// rounded, never below one), as the parser reports it.
pub uninterp spec fn svg_intrinsic_width(s: Seq<char>) -> u32;

/// The document's intrinsic height in whole pixels, as the parser reports it.
pub uninterp spec fn svg_intrinsic_height(s: Seq<char>) -> u32;

/// The PNG bytes produced by rendering the document stretched to fill a
/// `width` by `height` canvas (independent axes), or `None` when the PNG
/// encoder rejects the raster.
pub uninterp spec fn stretch_png(s: Seq<char>, width: u32, height: u32) -> Option<Seq<u8>>;

/// The PNG bytes produced by rendering the document under a uniform scale of
/// `scale_millis` thousandths, or `None` when the PNG encoder rejects the
/// raster.
pub uninterp spec fn uniform_png(s: Seq<char>, scale_millis: u32) -> Option<Seq<u8>>;

/// A raster dimension: the explicit request when one was given, the
/// document's intrinsic dimension otherwise.
pub open spec fn resolved_dim(intrinsic: u32, explicit: Option<u32>) -> u32 {
    match explicit {
        Option::Some(v) => v,
        Option::None => intrinsic,
    }
}

/// An intrinsic dimension scaled by `scale_millis` thousandths, rounded half
/// up and saturated at `u32::MAX`.
pub open spec fn scaled_dim(d: u32, scale_millis: u32) -> u32 {
    let v = ((d as int) * (scale_millis as int) + 500) / 1000;
    if v > u32::MAX as int {
        u32::MAX
    } else {
        v as u32
    }
}

/// A `w` by `h` raster of four-byte pixels is accepted for allocation: both
/// dimensions positive and the total byte count at most `i32::MAX`.  The
/// renderer's pixel buffer caps a single row at `i32::MAX` bytes on its own;
/// capping the whole buffer the same way keeps every accepted request
/// addressable and turns larger ones into an explicit allocation failure
/// instead of an attempt that could take the process down.
pub open spec fn alloc_ok(w: u32, h: u32) -> bool {
    &&& 1 <= w
    &&& 1 <= h
    &&& 4 * (w as int) * (h as int) <= 0x7fff_ffff
}

/// The big-endian 32-bit integer stored at offset `i` of `b`.
pub open spec fn be32_at(b: Seq<u8>, i: int) -> int {
    (b[i] as int) * 0x100_0000 + (b[i + 1] as int) * 0x1_0000 + (b[i + 2] as int) * 0x100 + (b[
        i + 3
    ] as int)
}

/// The eight-byte signature that opens every PNG stream.
pub open spec fn png_signature() -> Seq<u8> {
    seq![0x89u8, 0x50u8, 0x4eu8, 0x47u8, 0x0du8, 0x0au8, 0x1au8, 0x0au8]
}

/// The header of the IHDR chunk that follows the signature: a thirteen-byte
/// length and the chunk type `IHDR`.
pub open spec fn ihdr_prefix() -> Seq<u8> {
    seq![0x00u8, 0x00u8, 0x00u8, 0x0du8, 0x49u8, 0x48u8, 0x44u8, 0x52u8]
}

/// `b` begins with the PNG signature followed by an IHDR chunk that declares
/// a `w` by `h` raster: the width stands at offset 16 and the height at
/// offset 20, both big-endian.
pub open spec fn declares_png_size(b: Seq<u8>, w: u32, h: u32) -> bool {
    &&& b.len() >= 33
    &&& b.subrange(0, 8) == png_signature()
    &&& b.subrange(8, 16) == ihdr_prefix()
    &&& be32_at(b, 16) == w as int
    &&& be32_at(b, 20) == h as int
}

/// The raster size a conversion with optional explicit dimensions uses.
pub open spec fn render_size_for(s: Seq<char>, width: Option<u32>, height: Option<u32>) -> (
    u32,
    u32,
) {
    (
        resolved_dim(svg_intrinsic_width(s), width),
        resolved_dim(svg_intrinsic_height(s), height),
    )
}

/// Full specification of a conversion with optional explicit dimensions:
/// which result it returns on every input, and what the bytes are on
/// success.
pub open spec fn dims_post(
    s: Seq<char>,
    width: Option<u32>,
    height: Option<u32>,
    r: Result<Vec<u8>, SvgError>,
) -> bool {
    let rw = resolved_dim(svg_intrinsic_width(s), width);
    let rh = resolved_dim(svg_intrinsic_height(s), height);
    if !svg_parses(s) {
        r matches Err(e) && e is Parse
    } else if !alloc_ok(rw, rh) {
        r matches Err(e) && e is Allocation
    } else {
        match stretch_png(s, rw, rh) {
            Option::None => r matches Err(e) && e is Encoding,
            Option::Some(b) => r matches Ok(v) && v@ == b && declares_png_size(b, rw, rh),
        }
    }
}

/// Full specification of a conversion under a uniform scale of
/// `scale_millis` thousandths.
pub open spec fn scale_post(s: Seq<char>, scale_millis: u32, r: Result<Vec<u8>, SvgError>) -> bool {
    let rw = scaled_dim(svg_intrinsic_width(s), scale_millis);
    let rh = scaled_dim(svg_intrinsic_height(s), scale_millis);
    if scale_millis == 0 {
        r matches Err(e) && e is InvalidArgument
    } else if !svg_parses(s) {
        r matches Err(e) && e is Parse
    } else if !alloc_ok(rw, rh) {
        r matches Err(e) && e is Allocation
    } else {
        match uniform_png(s, scale_millis) {
            Option::None => r matches Err(e) && e is Encoding,
            Option::Some(b) => r matches Ok(v) && v@ == b && declares_png_size(b, rw, rh),
        }
    }
}

} // verus!
