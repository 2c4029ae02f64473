use svg2png::convert_svg_to_png;
use svg2png::convert_svg_to_png_with_scale;
use svg2png::get_svg_dimensions;
use svg2png::svg_to_png;
use svg2png::Dimensions;
use svg2png::SvgError;

const SIMPLE_SVG: &str = "<svg width=\"100\" height=\"50\" xmlns=\"http://www.w3.org/2000/svg\"/>";

/// Checks the PNG signature and reads the raster size the IHDR chunk declares.
fn png_size(b: &[u8]) -> (u32, u32) {
    assert!(b.len() >= 33);
    assert_eq!(&b[0..8], &[0x89, 0x50, 0x4e, 0x47, 0x0d, 0x0a, 0x1a, 0x0a]);
    assert_eq!(&b[8..16], &[0x00, 0x00, 0x00, 0x0d, 0x49, 0x48, 0x44, 0x52]);
    let w = u32::from_be_bytes([b[16], b[17], b[18], b[19]]);
    let h = u32::from_be_bytes([b[20], b[21], b[22], b[23]]);
    (w, h)
}

#[test]
fn get_dimensions_reports_intrinsic_size() {
    let d = get_svg_dimensions(SIMPLE_SVG).unwrap();
    assert_eq!(d, Dimensions { width: 100, height: 50 });
}

#[test]
fn default_conversion_uses_intrinsic_size() {
    let png = svg_to_png(SIMPLE_SVG).unwrap();
    assert_eq!(png_size(&png), (100, 50));
}

#[test]
fn default_conversion_matches_get_dimensions() {
    let svg = "<svg width=\"100.7\" height=\"53.4\" xmlns=\"http://www.w3.org/2000/svg\"/>";
    let d = get_svg_dimensions(svg).unwrap();
    let png = svg_to_png(svg).unwrap();
    assert_eq!(png_size(&png), (d.width, d.height));
    assert_eq!((d.width, d.height), (101, 53));
}

#[test]
fn explicit_dimensions_are_honored() {
    let png = convert_svg_to_png(SIMPLE_SVG, Some(30), Some(77)).unwrap();
    assert_eq!(png_size(&png), (30, 77));
}

#[test]
fn partial_override_keeps_the_other_axis() {
    let png = convert_svg_to_png(SIMPLE_SVG, Some(40), None).unwrap();
    assert_eq!(png_size(&png), (40, 50));
    let png = convert_svg_to_png(SIMPLE_SVG, None, Some(25)).unwrap();
    assert_eq!(png_size(&png), (100, 25));
}

#[test]
fn doubling_scale_doubles_both_axes() {
    let png = convert_svg_to_png_with_scale(SIMPLE_SVG, 2000).unwrap();
    assert_eq!(png_size(&png), (200, 100));
}

#[test]
fn scaled_dimensions_round_half_up() {
    let png = convert_svg_to_png_with_scale(SIMPLE_SVG, 1505).unwrap();
    assert_eq!(png_size(&png), (151, 75));
}

#[test]
fn conversion_is_idempotent() {
    assert_eq!(svg_to_png(SIMPLE_SVG).unwrap(), svg_to_png(SIMPLE_SVG).unwrap());
    assert_eq!(
        convert_svg_to_png(SIMPLE_SVG, Some(33), Some(44)).unwrap(),
        convert_svg_to_png(SIMPLE_SVG, Some(33), Some(44)).unwrap()
    );
    assert_eq!(
        convert_svg_to_png_with_scale(SIMPLE_SVG, 1500).unwrap(),
        convert_svg_to_png_with_scale(SIMPLE_SVG, 1500).unwrap()
    );
}

#[test]
fn rendered_pixels_depend_on_the_scene() {
    let blank = "<svg width=\"8\" height=\"8\" xmlns=\"http://www.w3.org/2000/svg\"/>";
    let filled = "<svg width=\"8\" height=\"8\" xmlns=\"http://www.w3.org/2000/svg\">\
                  <rect width=\"8\" height=\"8\" fill=\"red\"/></svg>";
    let a = svg_to_png(blank).unwrap();
    let b = svg_to_png(filled).unwrap();
    assert_eq!(png_size(&a), (8, 8));
    assert_eq!(png_size(&b), (8, 8));
    assert_ne!(a, b);
}

#[test]
fn image_file_references_are_not_followed() {
    let with_ref = "<svg width=\"8\" height=\"8\" xmlns=\"http://www.w3.org/2000/svg\">\
                    <image href=\"does-not-exist.png\" width=\"8\" height=\"8\"/></svg>";
    let blank = "<svg width=\"8\" height=\"8\" xmlns=\"http://www.w3.org/2000/svg\"/>";
    assert_eq!(svg_to_png(with_ref).unwrap(), svg_to_png(blank).unwrap());
}

#[test]
fn unclosed_tag_is_a_parse_error() {
    let bad = "<svg width=\"10\" height=\"10\"";
    assert!(matches!(svg_to_png(bad), Err(SvgError::Parse(_))));
    assert!(matches!(convert_svg_to_png(bad, Some(5), Some(5)), Err(SvgError::Parse(_))));
    assert!(matches!(convert_svg_to_png_with_scale(bad, 1000), Err(SvgError::Parse(_))));
    assert!(matches!(get_svg_dimensions(bad), Err(SvgError::Parse(_))));
}

#[test]
fn garbage_text_is_a_parse_error() {
    let bad = "this is not XML at all";
    assert!(matches!(svg_to_png(bad), Err(SvgError::Parse(_))));
    assert!(matches!(convert_svg_to_png(bad, None, None), Err(SvgError::Parse(_))));
    assert!(matches!(convert_svg_to_png_with_scale(bad, 500), Err(SvgError::Parse(_))));
    assert!(matches!(get_svg_dimensions(bad), Err(SvgError::Parse(_))));
}

#[test]
fn zero_dimension_is_an_allocation_error() {
    assert!(matches!(
        convert_svg_to_png(SIMPLE_SVG, Some(0), Some(50)),
        Err(SvgError::Allocation)
    ));
    assert!(matches!(
        convert_svg_to_png(SIMPLE_SVG, Some(100), Some(0)),
        Err(SvgError::Allocation)
    ));
}

#[test]
fn oversized_raster_is_an_allocation_error() {
    let png = convert_svg_to_png(SIMPLE_SVG, Some(1 << 30), Some(1));
    assert!(matches!(png, Err(SvgError::Allocation)));
}

#[test]
fn tiny_scale_rounds_down_to_nothing() {
    assert!(matches!(
        convert_svg_to_png_with_scale(SIMPLE_SVG, 1),
        Err(SvgError::Allocation)
    ));
}

#[test]
fn enormous_scale_is_an_allocation_error() {
    assert!(matches!(
        convert_svg_to_png_with_scale(SIMPLE_SVG, u32::MAX),
        Err(SvgError::Allocation)
    ));
}

#[test]
fn zero_scale_is_an_invalid_argument() {
    assert!(matches!(
        convert_svg_to_png_with_scale(SIMPLE_SVG, 0),
        Err(SvgError::InvalidArgument)
    ));
    assert!(matches!(
        convert_svg_to_png_with_scale("not svg", 0),
        Err(SvgError::InvalidArgument)
    ));
}

#[test]
fn error_messages_describe_the_failure() {
    let e = svg_to_png("garbage").unwrap_err();
    assert!(e.message().starts_with("Failed to parse SVG"));
    let e = convert_svg_to_png(SIMPLE_SVG, Some(0), None).unwrap_err();
    assert_eq!(e.message(), "Failed to create pixmap");
    let e = convert_svg_to_png_with_scale(SIMPLE_SVG, 0).unwrap_err();
    assert_eq!(e.message(), "Scale factor must be positive");
}
