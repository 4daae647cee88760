//! Conversion of a TIFF (or any other raster) icon source into PNG bytes.

use vstd::prelude::*;

use crate::errors::ConvertError;

verus! {

/// What decoding the bytes as a raster image and re-encoding the decoded
/// image as PNG yields: `None` when the bytes do not decode or the re-encode
/// fails, otherwise the PNG serialization. Decoding and encoding are pure
/// computations on the bytes, so this is a function of them alone.
pub uninterp spec fn spec_png_reencoding(data: Seq<u8>) -> Option<Seq<u8>>;

/// Relies on `image::load_from_memory`, which decodes a raster image from
/// bytes with the format inferred from their content, and on
/// `image::DynamicImage::write_to` with the PNG format, which re-encodes the
/// decoded image.
#[verifier::external_body]
fn reencode_as_png(data: &Vec<u8>) -> (r: Option<Vec<u8>>)
    ensures
        r is Some <==> spec_png_reencoding(data@) is Some,
        r matches Some(png) ==> Some(png@) == spec_png_reencoding(data@),
{
    let img = image::load_from_memory(data).ok()?;
    let mut out = std::io::Cursor::new(Vec::new());
    img.write_to(&mut out, image::ImageFormat::Png).ok()?;
    Some(out.into_inner())
}

/// Decodes a TIFF icon source and re-encodes it as PNG. Any codec failure is
/// fatal; there are no partial-success states.
pub fn tiff_to_png(data: &Vec<u8>) -> (r: Result<Vec<u8>, ConvertError>)
    ensures
        r is Ok <==> spec_png_reencoding(data@) is Some,
        r matches Ok(png) ==> Some(png@) == spec_png_reencoding(data@),
        r matches Err(e) ==> e == ConvertError::RasterCodec,
{
    match reencode_as_png(data) {
        Some(png) => Ok(png),
        None => Err(ConvertError::RasterCodec),
    }
}

} // verus!
