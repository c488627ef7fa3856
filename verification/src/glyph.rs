//! The five silhouettes that stand for the states, as pictures.
use crate::session::Rollup;
use vstd::prelude::*;

verus! {

/// A silhouette. The shape tells the state, so that no color need be seen.
#[derive(Clone, Copy, PartialEq, Eq, Debug, Structural)]
pub enum Shape {
    /// Needs you: a solid rounded square.
    Square,
    /// Working: a solid dot.
    Dot,
    /// Ready: a check mark.
    Check,
    /// None live: a hollow ring.
    Ring,
    /// Waiting for review: an upward triangle.
    Triangle,
}

/// The silhouette for what the tray shows.
pub open spec fn shape_of(rollup: Rollup) -> Shape {
    match rollup {
        Rollup::Red => Shape::Square,
        Rollup::Review => Shape::Triangle,
        Rollup::Orange => Shape::Dot,
        Rollup::Green => Shape::Check,
        Rollup::Grey => Shape::Ring,
    }
}

/// The silhouette for what the tray shows.
pub fn shape_for_rollup(rollup: Rollup) -> (r: Shape)
    ensures
        r == shape_of(rollup),
{
    match rollup {
        Rollup::Red => Shape::Square,
        Rollup::Review => Shape::Triangle,
        Rollup::Orange => Shape::Dot,
        Rollup::Green => Shape::Check,
        Rollup::Grey => Shape::Ring,
    }
}

/// The shape tells the state: no two colors of the tray share one.
pub proof fn law_shapes_tell(a: Rollup, b: Rollup)
    requires
        shape_of(a) == shape_of(b),
    ensures
        a == b,
{
}

/// The pixels of a picture in one color: red, green, blue and how opaque, of each
/// pixel in turn.
pub open spec fn painted(rgb: [u8; 3], coverage: Seq<u8>) -> Seq<u8> {
    Seq::new(
        4 * coverage.len(),
        |i: int|
            if i % 4 == 3 {
                coverage[i / 4]
            } else {
                rgb@[i % 4]
            },
    )
}

/// Paints a silhouette in one color, where `coverage` says of each pixel how much
/// of it the silhouette covers.
pub fn render_glyph_rgba(coverage: &Vec<u8>, rgb: [u8; 3]) -> (r: Vec<u8>)
    ensures
        r@ == painted(rgb, coverage@),
{
    let mut out: Vec<u8> = Vec::new();
    let mut i: usize = 0;
    while i < coverage.len()
        invariant
            i <= coverage.len(),
            out@ == painted(rgb, coverage@.take(i as int)),
        decreases coverage.len() - i,
    {
        out.push(rgb[0]);
        out.push(rgb[1]);
        out.push(rgb[2]);
        out.push(coverage[i]);
        assert(out@ =~= painted(rgb, coverage@.take(i + 1)));
        i += 1;
    }
    assert(coverage@.take(coverage@.len() as int) =~= coverage@);
    out
}

/// What goes wrong in writing a PNG file, opaque here.
#[verifier::external_type_specification]
#[verifier::external_body]
pub struct ExEncodingError(png::EncodingError);

/// The PNG file of a square picture with red, green, blue and alpha in eight bits
/// each, as the `png` crate writes it.
pub uninterp spec fn png_file(rgba: Seq<u8>, size: u32) -> Seq<u8>;

/// The eight bytes that every PNG file begins with.
pub open spec fn png_signature() -> Seq<u8> {
    seq![137u8, 80, 78, 71, 13, 10, 26, 10]
}

/// Writes a square picture with the `png` crate: `Encoder::new`, `set_color`,
/// `set_depth`, `write_header` and `Writer::write_image_data`, into memory. It
/// succeeds exactly where the picture has pixels and there are four bytes of
/// data for each; the file is named `png_file`, and begins as every PNG file
/// does. A picture whose bytes cannot be counted is left out: the crate's own
/// count of them would overflow.
#[verifier::external_body]
fn write_png(rgba: &[u8], size: u32) -> (r: Result<Vec<u8>, png::EncodingError>)
    requires
        4 * size * size <= usize::MAX,
    ensures
        r is Ok == (size != 0 && rgba@.len() == 4 * size * size),
        r matches Ok(file) ==> file@ == png_file(rgba@, size) && png_signature().is_prefix_of(
            file@,
        ),
{
    let mut out = Vec::new();
    let mut encoder = png::Encoder::new(&mut out, size, size);
    encoder.set_color(png::ColorType::Rgba);
    encoder.set_depth(png::BitDepth::Eight);
    let mut writer = encoder.write_header()?;
    writer.write_image_data(rgba)?;
    drop(writer);
    Ok(out)
}

/// The PNG file of a square picture; none when it has no pixels or the data are
/// not four bytes for each.
pub fn encode_png(rgba: &[u8], size: u32) -> (r: Option<Vec<u8>>)
    requires
        4 * size * size <= usize::MAX,
    ensures
        r is Some == (size != 0 && rgba@.len() == 4 * size * size),
        r matches Some(file) ==> file@ == png_file(rgba@, size) && png_signature().is_prefix_of(
            file@,
        ),
{
    match write_png(rgba, size) {
        Ok(file) => Some(file),
        Err(_) => None,
    }
}

} // verus!
