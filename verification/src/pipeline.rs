//! The per-file stages around the engine: decoding with its per-source
//! message, and the tail of the pipeline — quality-floor gate, remap,
//! encode — once the dithering level has been applied.

use vstd::prelude::*;
use crate::adapt::{spec_pixel_count, DecodedImage, Pixel};
use crate::decode::{decode_image, decode_of};
use crate::encode::{encode_image, png_encoding_of};
use crate::engine::{Engine, achieved_quality, check_quality_floor, remap_image};
use crate::error::{Error, ExitCode};

verus! {

/// Decode one input's bytes. A failure is this file's `ReadError`; its
/// message names the file, when it has a name, and starts with the
/// decoder's refusal context either way.
pub fn decode_stage(data: &[u8], path: Option<&String>) -> (r: Result<DecodedImage, Error>)
    ensures
        r matches Ok(img) ==> {
            &&& decode_of(data@) == Some((img.width, img.height, img.bitmap))
            &&& img.wf()
        },
        r is Ok <==> (decode_of(data@) matches Some(t) && spec_pixel_count(t.2) == t.0 * t.1),
        r matches Err(e) ==> e.code == ExitCode::ReadError && (match path {
            Some(p) => ("Unable to decode image '"@ + p@ + "': "@).is_prefix_of(e.msg@),
            None => ("unable to parse image: "@).is_prefix_of(e.msg@),
        }),
{
    match decode_image(data) {
        Ok(img) => Ok(img),
        Err(m) => {
            let msg = match path {
                Some(p) => String::from_str("Unable to decode image '").concat(p.as_str())
                    .concat("': ").concat(m.as_str()),
                None => String::from_str("unable to parse image: ").concat(m.as_str()),
            };
            proof {
                if path is Some {
                    let pre = "Unable to decode image '"@ + path->0@ + "': "@;
                    assert((pre + m@).subrange(0, pre.len() as int) =~= pre);
                } else {
                    let pre = "unable to parse image: "@;
                    assert((pre + m@).subrange(0, pre.len() as int) =~= pre);
                }
            }
            Err(Error::new(msg, ExitCode::ReadError))
        },
    }
}

/// Finish one file after quantization: enforce the quality floor before
/// anything is written, remap the image through the result, and encode.
/// On success the bytes are the encoding of an engine-chosen palette of at
/// most 256 entries and its index buffer, at the image's dimensions. A
/// failure is the floor gate's `QualityTooLow`, the remap stage's engine
/// failure, or the encoder's `EncodingError`.
pub fn finish_image(
    engine: &Engine,
    res: &mut imagequant::QuantizationResult,
    img: &mut imagequant::Image<'_>,
    width: usize,
    height: usize,
) -> (r: Result<Vec<u8>, Error>)
    ensures
        r matches Ok(b) ==> (exists|pal: Seq<Pixel>, idx: Seq<u8>|
            pal.len() <= 256 && b@ == png_encoding_of(pal, idx, width, height)),
        r matches Err(e) ==> (e.code == ExitCode::QualityTooLow && e.msg@
            == "quality too low to save the file"@) || e.msg@ == "Remapping failed"@ || e.code
            == ExitCode::EncodingError,
{
    let achieved = achieved_quality(res);
    check_quality_floor(achieved, engine.config.floor, engine.config.min_quality_limit)?;
    let (palette, index) = remap_image(res, img)?;
    match encode_image(&palette, &index, width, height) {
        Ok(b) => {
            proof {
                assert(palette@.len() <= 256 && b@ == png_encoding_of(
                    palette@,
                    index@,
                    width,
                    height,
                ));
            }
            Ok(b)
        },
        Err(e) => Err(e),
    }
}

} // verus!
