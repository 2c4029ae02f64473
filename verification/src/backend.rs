//! Trusted boundary to the outside crates: usvg parses, resvg renders,
//! tiny-skia holds the raster and encodes it as PNG.
//!
//! Every function here is `external_body`: its contract states, over the
//! names of `crate::model`, what the outside code computes, and nothing is
//! proved about the bodies.  All three outside steps are deterministic
//! functions of their inputs — the parser runs with an empty font database
//! and with image references resolved from the text alone (data URLs only,
//! never the filesystem), and the renderer and encoder are pure
//! computations — so naming their results is sound.

use vstd::prelude::*;
use crate::model::alloc_ok;
use crate::model::declares_png_size;
use crate::model::scaled_dim;
use crate::model::stretch_png;
use crate::model::svg_intrinsic_height;
use crate::model::svg_intrinsic_width;
use crate::model::svg_parses;
use crate::model::uniform_png;

verus! {

/// usvg's parsed scene tree, opaque to verification; values of it are only
/// carried from the parser to the renderer.
#[verifier::external_type_specification]
#[verifier::external_body]
pub struct ExUsvgTree(usvg::Tree);

/// A parsed SVG document: the scene tree, the text it was parsed from, and
/// its intrinsic size in whole pixels.  Only `parse_svg` constructs one, so
/// `tree` is always the parse of `source`.
pub(crate) struct SvgDocument {
    tree: usvg::Tree,
    source: String,
    width: u32,
    height: u32,
}

impl SvgDocument {
    /// The text this document was parsed from.
    pub(crate) closed spec fn source_view(&self) -> Seq<char> {
        self.source@
    }

    pub(crate) closed spec fn width_spec(&self) -> u32 {
        self.width
    }

    pub(crate) closed spec fn height_spec(&self) -> u32 {
        self.height
    }

    /// The document is the successful parse of its source text, and its
    /// recorded size is the parser's intrinsic size, which is positive.
    pub(crate) open spec fn wf(&self) -> bool {
        &&& svg_parses(self.source_view())
        &&& self.width_spec() == svg_intrinsic_width(self.source_view())
        &&& self.height_spec() == svg_intrinsic_height(self.source_view())
        &&& 1 <= self.width_spec()
        &&& 1 <= self.height_spec()
    }

    pub(crate) fn width_px(&self) -> (r: u32)
        ensures
            r == self.width_spec(),
    {
        self.width
    }

    pub(crate) fn height_px(&self) -> (r: u32)
        ensures
            r == self.height_spec(),
    {
        self.height
    }
}

/// What one rasterization attempt produced.
pub(crate) enum RasterOutcome {
    /// The pixel buffer could not be allocated; never reached for a size
    /// that `alloc_ok` admits.
    AllocFailed,
    /// Rendering succeeded and the encoder produced these PNG bytes.
    Encoded(Vec<u8>),
    /// The PNG encoder failed; carries its message.
    EncodeFailed(String),
}

/// Relies on `usvg::Tree::from_str`: it accepts exactly the valid SVG
/// texts, deterministically in the text alone.  The options are the
/// defaults except for the `<image>` href resolver: embedded data URLs are
/// still decoded from the text itself, but an href naming anything else is
/// ignored rather than read from the filesystem, so no call touches disk
/// and the parse is a pure function of the text (an unresolved image is
/// skipped, which does not affect acceptance or the root size).  The
/// intrinsic size comes from `usvg::Size::to_int_size`, which rounds each
/// dimension and never reports less than one pixel.
#[verifier::external_body]
pub(crate) fn parse_svg(svg: &str) -> (r: Result<SvgDocument, String>)
    ensures
        r is Ok <==> svg_parses(svg@),
        r matches Ok(doc) ==> {
            &&& doc.source_view() == svg@
            &&& doc.wf()
            &&& doc.width_spec() == svg_intrinsic_width(svg@)
            &&& doc.height_spec() == svg_intrinsic_height(svg@)
        },
{
    let opt = usvg::Options {
        image_href_resolver: usvg::ImageHrefResolver {
            resolve_data: usvg::ImageHrefResolver::default_data_resolver(),
            resolve_string: Box::new(|_, _| None),
        },
        ..usvg::Options::default()
    };
    match usvg::Tree::from_str(svg, &opt) {
        Ok(tree) => {
            let size = tree.size().to_int_size();
            Ok(SvgDocument { width: size.width(), height: size.height(), source: svg.to_string(), tree })
        },
        Err(e) => Err(format!("Failed to parse SVG: {}", e)),
    }
}

/// Relies on `tiny_skia::Pixmap::new`, which accepts every size that
/// `alloc_ok` admits (it refuses only a zero dimension or a row longer than
/// `i32::MAX` bytes); on a `tiny_skia::Transform` scaling each axis by the
/// quotient of the target size over the intrinsic size, so the scene fills
/// the canvas; on `resvg::render`, which always succeeds; and on
/// `tiny_skia::Pixmap::encode_png`, which writes the PNG signature and an
/// IHDR chunk declaring the pixmap's size.  All are deterministic in the
/// document and the target size.
#[verifier::external_body]
pub(crate) fn rasterize_stretch(doc: &SvgDocument, rw: u32, rh: u32) -> (r: RasterOutcome)
    requires
        doc.wf(),
        alloc_ok(rw, rh),
    ensures
        !(r is AllocFailed),
        r is Encoded <==> stretch_png(doc.source_view(), rw, rh) is Some,
        r matches RasterOutcome::Encoded(png) ==> {
            &&& stretch_png(doc.source_view(), rw, rh) == Some(png@)
            &&& declares_png_size(png@, rw, rh)
        },
{
    let mut pm = match tiny_skia::Pixmap::new(rw, rh) {
        Some(p) => p,
        None => return RasterOutcome::AllocFailed,
    };
    // alloc_ok gives positive dimensions, so the IntSize exists.
    let target = tiny_skia::IntSize::from_wh(rw, rh).unwrap().to_size();
    let size = doc.tree.size();
    let tr = tiny_skia::Transform::from_scale(target.width() / size.width(), target.height() / size.height());
    resvg::render(&doc.tree, tr, &mut pm.as_mut());
    match pm.encode_png() {
        Ok(png) => RasterOutcome::Encoded(png),
        Err(e) => RasterOutcome::EncodeFailed(format!("Failed to encode PNG: {}", e)),
    }
}

/// Relies on the same four outside calls as `rasterize_stretch`, with the
/// `tiny_skia::Transform` scaling both axes uniformly by the quotient of
/// `scale_millis` over one thousand.  The caller passes the canvas size
/// that this scale assigns, so the bytes are a function of the source text
/// and the scale alone.
#[verifier::external_body]
pub(crate) fn rasterize_uniform(doc: &SvgDocument, rw: u32, rh: u32, scale_millis: u32) -> (r:
    RasterOutcome)
    requires
        doc.wf(),
        1 <= scale_millis,
        rw == scaled_dim(doc.width_spec(), scale_millis),
        rh == scaled_dim(doc.height_spec(), scale_millis),
        alloc_ok(rw, rh),
    ensures
        !(r is AllocFailed),
        r is Encoded <==> uniform_png(doc.source_view(), scale_millis) is Some,
        r matches RasterOutcome::Encoded(png) ==> {
            &&& uniform_png(doc.source_view(), scale_millis) == Some(png@)
            &&& declares_png_size(png@, rw, rh)
        },
{
    let mut pm = match tiny_skia::Pixmap::new(rw, rh) {
        Some(p) => p,
        None => return RasterOutcome::AllocFailed,
    };
    // scale_millis is positive, so the IntSize exists.
    let ratio = tiny_skia::IntSize::from_wh(scale_millis, 1000).unwrap().to_size();
    let scale = ratio.width() / ratio.height();
    let tr = tiny_skia::Transform::from_scale(scale, scale);
    resvg::render(&doc.tree, tr, &mut pm.as_mut());
    match pm.encode_png() {
        Ok(png) => RasterOutcome::Encoded(png),
        Err(e) => RasterOutcome::EncodeFailed(format!("Failed to encode PNG: {}", e)),
    }
}

} // verus!
