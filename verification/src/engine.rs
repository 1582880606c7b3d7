//! The color-reduction engine behind trusted declarations: building its
//! configuration from a validated `EngineConfig`, quantizing, remapping,
//! and reading the resulting palette.

use vstd::prelude::*;
use vstd::pervasive::unreached;
use crate::adapt::Pixel;
use crate::config::EngineConfig;
use crate::error::{Error, ExitCode, LiqError};

verus! {

#[verifier::external_type_specification]
#[verifier::external_body]
pub struct ExAttributes(imagequant::Attributes);

#[verifier::external_type_specification]
#[verifier::external_body]
pub struct ExImage<'pixels>(imagequant::Image<'pixels>);

#[verifier::external_type_specification]
#[verifier::external_body]
pub struct ExQuantizationResult(imagequant::QuantizationResult);

/// Relies on imagequant::new: a fresh attribute set with default settings.
#[verifier::external_body]
fn liq_new() -> imagequant::Attributes {
    imagequant::new()
}

/// Relies on imagequant::Attributes::set_speed: it accepts exactly 1 to 10.
#[verifier::external_body]
fn liq_set_speed(a: &mut imagequant::Attributes, value: i32) -> (r: Result<(), LiqError>)
    ensures
        r is Ok <==> 1 <= value <= 10,
{
    a.set_speed(value).map_err(|e| LiqError::from_code(e as u32))
}

/// Relies on imagequant::Attributes::set_quality: it accepts exactly
/// `minimum <= target <= 100`.
#[verifier::external_body]
fn liq_set_quality(a: &mut imagequant::Attributes, minimum: u8, target: u8) -> (r: Result<
    (),
    LiqError,
>)
    ensures
        r is Ok <==> minimum <= target <= 100,
{
    a.set_quality(minimum, target).map_err(|e| LiqError::from_code(e as u32))
}

/// Relies on imagequant::Attributes::set_max_colors: it accepts exactly
/// 2 to 256.
#[verifier::external_body]
fn liq_set_max_colors(a: &mut imagequant::Attributes, colors: u32) -> (r: Result<
    (),
    LiqError,
>)
    ensures
        r is Ok <==> 2 <= colors <= 256,
{
    a.set_max_colors(colors).map_err(|e| LiqError::from_code(e as u32))
}

/// Relies on imagequant::Attributes::set_min_posterization: it accepts
/// exactly 0 to 4 bits.
#[verifier::external_body]
fn liq_set_min_posterization(a: &mut imagequant::Attributes, bits: u8) -> (r: Result<
    (),
    LiqError,
>)
    ensures
        r is Ok <==> bits <= 4,
{
    a.set_min_posterization(bits).map_err(|e| LiqError::from_code(e as u32))
}

/// Relies on imagequant::Attributes::quantize. Success and the palette it
/// finds are the engine's own choice; every outcome is handed back.
#[verifier::external_body]
fn liq_quantize(a: &imagequant::Attributes, img: &mut imagequant::Image<'_>) -> Result<
    imagequant::QuantizationResult,
    LiqError,
> {
    a.quantize(img).map_err(|e| LiqError::from_code(e as u32))
}

/// Relies on imagequant::Image::add_fixed_color: seeds one palette entry;
/// it fails once 256 fixed colors are reached or memory runs out.
#[verifier::external_body]
fn liq_add_fixed_color(img: &mut imagequant::Image<'_>, px: Pixel) -> Result<(), LiqError> {
    img.add_fixed_color(imagequant::RGBA { r: px.r, g: px.g, b: px.b, a: px.a }).map_err(|e|
        LiqError::from_code(e as u32))
}

/// Relies on imagequant::QuantizationResult::quantization_quality: the
/// quality the engine reports it achieved, if it measured one.
#[verifier::external_body]
fn liq_quantization_quality(res: &imagequant::QuantizationResult) -> Option<u8> {
    res.quantization_quality()
}

/// Relies on imagequant::QuantizationResult::remapped: the palette has at
/// most 256 entries; the index buffer holds one entry per image pixel.
#[verifier::external_body]
fn liq_remapped(res: &mut imagequant::QuantizationResult, img: &mut imagequant::Image<'_>) -> (r:
    Result<(Vec<Pixel>, Vec<u8>), LiqError>)
    ensures
        r matches Ok(t) ==> t.0@.len() <= 256,
{
    match res.remapped(img) {
        Ok((pal, idx)) => Ok((
            pal.iter().map(|c| Pixel { r: c.r, g: c.g, b: c.b, a: c.a }).collect(),
            idx,
        )),
        Err(e) => Err(LiqError::from_code(e as u32)),
    }
}

/// Relies on imagequant::QuantizationResult::palette_vec: the palette of a
/// finished quantization, at most 256 entries.
#[verifier::external_body]
fn liq_palette_vec(res: &mut imagequant::QuantizationResult) -> (r: Vec<Pixel>)
    ensures
        r@.len() <= 256,
{
    res.palette_vec().iter().map(|c| Pixel { r: c.r, g: c.g, b: c.b, a: c.a }).collect()
}

/// A configured engine: the engine's attribute set beside the validated
/// configuration it was built from.
pub struct Engine {
    /// The engine's own attribute set.
    pub attr: imagequant::Attributes,
    /// The configuration every setting was applied from.
    pub config: EngineConfig,
}

impl Engine {
    /// Apply a validated configuration to a fresh engine. A valid
    /// configuration is within every range the engine accepts, so this
    /// cannot fail.
    pub fn new(cfg: &EngineConfig) -> (r: Engine)
        requires
            cfg.wf(),
        ensures
            r.config == *cfg,
    {
        let mut attr = liq_new();
        match liq_set_min_posterization(&mut attr, cfg.posterize) {
            Ok(()) => (),
            Err(_) => unreached(),
        }
        match liq_set_speed(&mut attr, cfg.speed as i32) {
            Ok(()) => (),
            Err(_) => unreached(),
        }
        match liq_set_quality(&mut attr, cfg.floor, cfg.ceiling) {
            Ok(()) => (),
            Err(_) => unreached(),
        }
        if let Some(c) = cfg.colors {
            match liq_set_max_colors(&mut attr, c as u32) {
                Ok(()) => (),
                Err(_) => unreached(),
            }
        }
        Engine { attr, config: *cfg }
    }
}

/// The configuration a palette map image is quantized under: the same
/// settings with the quality range opened up to 0..100, so no floor can
/// reject it.
pub fn map_config(cfg: &EngineConfig) -> (r: EngineConfig)
    requires
        cfg.wf(),
    ensures
        r.wf(),
        r.floor == 0 && r.ceiling == 100 && !r.min_quality_limit,
        r.speed == cfg.speed && r.colors == cfg.colors && r.posterize == cfg.posterize
            && r.dithering == cfg.dithering && r.fast_encoding == cfg.fast_encoding,
{
    EngineConfig {
        floor: 0,
        ceiling: 100,
        min_quality_limit: false,
        speed: cfg.speed,
        colors: cfg.colors,
        posterize: cfg.posterize,
        dithering: cfg.dithering,
        fast_encoding: cfg.fast_encoding,
    }
}

/// Seed the fixed palette, if one is set, and quantize. A failure carries
/// the exit-code category of an engine failure and the stage's message.
pub fn quantize_image(
    engine: &Engine,
    img: &mut imagequant::Image<'_>,
    fixed_palette: Option<&Vec<Pixel>>,
) -> (r: Result<imagequant::QuantizationResult, Error>)
    ensures
        r matches Err(e) ==> (e.msg@ == "Fixed palette error"@ || e.msg@
            == "Quantization failed"@) && (exists|k: LiqError| #[trigger] k.spec_exit_code()
            == e.code),
{
    if let Some(palette) = fixed_palette {
        let n = palette.len();
        let mut i: usize = 0;
        while i < n
            invariant
                n == palette@.len(),
                0 <= i <= n,
            decreases n - i,
        {
            match liq_add_fixed_color(img, palette[i]) {
                Ok(()) => (),
                Err(kind) => {
                    return Err(kind.to_error(String::from_str("Fixed palette error")));
                },
            }
            i = i + 1;
        }
    }
    match liq_quantize(&engine.attr, img) {
        Ok(res) => Ok(res),
        Err(kind) => Err(kind.to_error(String::from_str("Quantization failed"))),
    }
}

/// The quality the engine reports for a finished quantization.
pub fn achieved_quality(res: &imagequant::QuantizationResult) -> Option<u8> {
    liq_quantization_quality(res)
}

/// Enforce the quality floor: a reported quality below an explicitly set
/// floor fails the file with `QualityTooLow`, before anything is written.
pub fn check_quality_floor(achieved: Option<u8>, floor: u8, enforced: bool) -> (r: Result<
    (),
    Error,
>)
    ensures
        r is Ok <==> (!enforced || achieved is None || (achieved matches Some(q) && q >= floor)),
        r matches Err(e) ==> e.code == ExitCode::QualityTooLow && e.msg@
            == "quality too low to save the file"@,
{
    if enforced {
        if let Some(q) = achieved {
            if q < floor {
                return Err(Error::new(
                    String::from_str("quality too low to save the file"),
                    ExitCode::QualityTooLow,
                ));
            }
        }
    }
    Ok(())
}

/// Remap the image through the quantization result: the palette (at most
/// 256 entries) and one palette index per pixel. A failure carries the
/// exit-code category of an engine failure.
pub fn remap_image(res: &mut imagequant::QuantizationResult, img: &mut imagequant::Image<'_>) -> (r:
    Result<(Vec<Pixel>, Vec<u8>), Error>)
    ensures
        r matches Ok(t) ==> t.0@.len() <= 256,
        r matches Err(e) ==> e.msg@ == "Remapping failed"@ && (exists|k: LiqError|
            #[trigger] k.spec_exit_code() == e.code),
{
    match liq_remapped(res, img) {
        Ok(t) => Ok(t),
        Err(kind) => Err(kind.to_error(String::from_str("Remapping failed"))),
    }
}

/// The palette of a quantization made from a palette map image.
pub fn result_palette(res: &mut imagequant::QuantizationResult) -> (r: Vec<Pixel>)
    ensures
        r@.len() <= 256,
{
    liq_palette_vec(res)
}

} // verus!
