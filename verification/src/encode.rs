//! Encoding a palette and an index buffer into output container bytes.

use vstd::prelude::*;
use crate::adapt::Pixel;
use crate::error::{Error, ExitCode};

verus! {

/// The container bytes that encoding the given palette, index buffer and
/// dimensions produces.
pub uninterp spec fn png_encoding_of(
    palette: Seq<Pixel>,
    pixels: Seq<u8>,
    width: usize,
    height: usize,
) -> Seq<u8>;

/// Do the arguments meet every check the encoder makes: a palette of 1 to
/// 256 entries, nonzero dimensions of at most a gigapixel, one index byte
/// per pixel, and every index inside the palette?
pub open spec fn spec_encodable(
    palette: Seq<Pixel>,
    pixels: Seq<u8>,
    width: usize,
    height: usize,
) -> bool {
    &&& 1 <= palette.len() <= 256
    &&& 0 < width
    &&& 0 < height
    &&& width * height < 0x40000000
    &&& pixels.len() == width * height
    &&& forall|i: int| 0 <= i < pixels.len() ==> (#[trigger] pixels[i] as int) < palette.len()
}

/// Relies on lodepng's Encoder: a fresh encoder with the palette set
/// serializes an 8-bit paletted image, and the bytes depend on the
/// palette, the index buffer and the dimensions alone; a failure's
/// message is handed back as text. The index buffer must hold exactly one
/// byte per pixel and the image must stay under a gigapixel: beyond
/// either, the encoder would stop a debug build. On encodable arguments
/// the encoder refuses only when an allocation fails, which its message
/// for that case reports.
#[verifier::external_body]
fn lodepng_encode(palette: &Vec<Pixel>, pixels: &Vec<u8>, width: usize, height: usize) -> (r:
    Result<Vec<u8>, String>)
    requires
        pixels@.len() == width * height,
        width * height < 0x40000000,
    ensures
        r matches Ok(b) ==> b@ == png_encoding_of(palette@, pixels@, width, height),
        spec_encodable(palette@, pixels@, width, height) ==> (r is Ok || (r matches Err(m) && m@
            == "memory allocation failed"@)),
{
    let pal: Vec<lodepng::RGBA> = palette.iter().map(
        |c| lodepng::RGBA { r: c.r, g: c.g, b: c.b, a: c.a },
    ).collect();
    let mut enc = lodepng::Encoder::new();
    enc.set_palette(&pal).and_then(|_| enc.encode(pixels.as_slice(), width, height)).map_err(
        |e| e.to_string(),
    )
}

/// Serialize one quantized image. An index buffer that does not hold one
/// byte per pixel, an image of a gigapixel or more, and any refusal by
/// the encoder are an `EncodingError` carrying a message; on encodable
/// arguments only an allocation failure is refused.
pub fn encode_image(palette: &Vec<Pixel>, pixels: &Vec<u8>, width: usize, height: usize) -> (r:
    Result<Vec<u8>, Error>)
    ensures
        r matches Ok(b) ==> b@ == png_encoding_of(palette@, pixels@, width, height) && pixels@.len()
            == width * height,
        r matches Err(e) ==> e.code == ExitCode::EncodingError,
        spec_encodable(palette@, pixels@, width, height) ==> (r is Ok || (r matches Err(e)
            && e.msg@ == "Encoding error: "@ + "memory allocation failed"@)),
{
    let sized = match width.checked_mul(height) {
        Some(m) => m == pixels.len() && m < 0x40000000,
        None => false,
    };
    if !sized {
        return Err(
            Error::new(
                String::from_str("Encoding error: image data size does not match the dimensions"),
                ExitCode::EncodingError,
            ),
        );
    }
    match lodepng_encode(palette, pixels, width, height) {
        Ok(b) => Ok(b),
        Err(m) => Err(
            Error::new(
                String::from_str("Encoding error: ").concat(m.as_str()),
                ExitCode::EncodingError,
            ),
        ),
    }
}

} // verus!
