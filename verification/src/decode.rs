//! Decoding raw image bytes into a `DecodedImage`.

use vstd::prelude::*;
use crate::adapt::{DecodedImage, pixel_count, spec_pixel_count};

verus! {

/// What the decoder makes of the given bytes: the image's width, height
/// and pixels, or nothing when the bytes are not a decodable image. The
/// decoding of a byte sequence depends on the bytes alone.
pub uninterp spec fn decode_of(data: Seq<u8>) -> Option<(usize, usize, load_image::ImageData)>;

/// Relies on load_image::load_data: it decodes the bytes alone, to the
/// image's dimensions and pixels; a failure's message is handed back as
/// text.
#[verifier::external_body]
fn load_data_w(data: &[u8]) -> (r: Result<(usize, usize, load_image::ImageData), String>)
    ensures
        r matches Ok(t) ==> decode_of(data@) == Some(t),
        r is Ok <==> decode_of(data@) is Some,
{
    match load_image::load_data(data) {
        Ok(img) => Ok((img.width, img.height, img.bitmap)),
        Err(e) => Err(e.to_string()),
    }
}

/// Decode raw bytes into an image. The result is well formed: it holds
/// exactly one pixel per coordinate; a decoded image whose dimensions
/// disagree with its pixel data is rejected like undecodable bytes, with
/// the failure's text.
pub fn decode_image(data: &[u8]) -> (r: Result<DecodedImage, String>)
    ensures
        r matches Ok(img) ==> {
            &&& decode_of(data@) == Some((img.width, img.height, img.bitmap))
            &&& img.wf()
        },
        r is Ok <==> (decode_of(data@) matches Some(t) && spec_pixel_count(t.2) == t.0 * t.1),
{
    match load_data_w(data) {
        Ok((width, height, bitmap)) => {
            let n = pixel_count(&bitmap);
            let consistent = match width.checked_mul(height) {
                Some(m) => m == n,
                None => false,
            };
            if consistent {
                Ok(DecodedImage { width, height, bitmap })
            } else {
                Err(String::from_str("image dimensions do not match its pixel data"))
            }
        },
        Err(m) => Err(m),
    }
}

} // verus!
