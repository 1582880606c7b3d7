//! Resolution of the user-supplied knobs into a validated engine
//! configuration: speed, dithering, posterization, color count, quality
//! bounds, and the deprecated positional color-count fallback.

use vstd::prelude::*;
use crate::error::{Error, ExitCode};
use crate::numbers::{parses_as_u8, u8_val, parse_u8};

verus! {

/// Parse a speed option: a number from 1 (slow) to 11 (fast).
pub fn parse_speed(v: &str) -> (r: Result<u8, String>)
    ensures
        match r {
            Ok(s) => parses_as_u8(v@) && s == u8_val(v@) && 1 <= s <= 11,
            Err(m) => (!parses_as_u8(v@) || u8_val(v@) == 0 || u8_val(v@) > 11)
                && m@ == "Speed should be between 1 (slow) and 11 (fast)"@,
        },
{
    match parse_u8(v) {
        Some(speed) => {
            if speed == 0 || speed > 11 {
                Err(String::from_str("Speed should be between 1 (slow) and 11 (fast)"))
            } else {
                Ok(speed)
            }
        },
        None => Err(String::from_str("Speed should be between 1 (slow) and 11 (fast)")),
    }
}

/// Do speeds 10 and 11 select the faster, less thorough encoding mode?
pub open spec fn spec_fast_encoding(speed: u8) -> bool {
    speed >= 10
}

/// Speed handed to the engine: 11 is the engine's 10.
pub open spec fn spec_engine_speed(speed: u8) -> u8 {
    if speed == 11 {
        10
    } else {
        speed
    }
}

/// Dithering strength in thousandths, resolved from the explicit option,
/// the no-dithering flag and the speed: speed 11 forces 0 whatever else is
/// set; an explicit strength (clamped to at most 1000) takes precedence;
/// the no-dithering flag forces 0; otherwise the default is full strength
/// unless the fast encoding mode is active.
pub open spec fn spec_dithering(speed: u8, explicit: Option<u16>, no_dither: bool) -> int {
    if speed == 11 {
        0
    } else if explicit is Some {
        if explicit->0 > 1000 {
            1000
        } else {
            explicit->0 as int
        }
    } else if no_dither {
        0
    } else if spec_fast_encoding(speed) {
        0
    } else {
        1000
    }
}

/// Speed 11 forces the dithering strength to zero, whatever the explicit
/// strength and the no-dithering flag say.
pub proof fn lemma_speed_eleven_zeroes_dithering(explicit: Option<u16>, no_dither: bool)
    ensures
        spec_dithering(11, explicit, no_dither) == 0,
{
}

pub fn resolve_dithering(speed: u8, explicit: Option<u16>, no_dither: bool) -> (r: u16)
    ensures
        r == spec_dithering(speed, explicit, no_dither),
        r <= 1000,
{
    if speed == 11 {
        0
    } else if let Some(v) = explicit {
        if v > 1000 {
            1000
        } else {
            v
        }
    } else if no_dither {
        0
    } else if speed >= 10 {
        0
    } else {
        1000
    }
}

/// The engine configuration, shared read-only by every file of a batch.
#[derive(Clone, Copy, PartialEq, Eq, Structural, Debug)]
pub struct EngineConfig {
    /// Quality floor: results below it are failures when `min_quality_limit`.
    pub floor: u8,
    /// Quality ceiling: the engine may use fewer colors below it.
    pub ceiling: u8,
    /// Engine speed, 1 to 10.
    pub speed: u8,
    /// Maximum palette size; `None` leaves the engine's default of 256.
    pub colors: Option<u8>,
    /// Posterization bits, 0 to 4.
    pub posterize: u8,
    /// Dithering strength in thousandths, 0 to 1000.
    pub dithering: u16,
    /// Was a quality floor above 0 explicitly requested?
    pub min_quality_limit: bool,
    /// Speeds 10 and 11 select a faster, less thorough encoding.
    pub fast_encoding: bool,
}

impl EngineConfig {
    /// Every field within the range the engine accepts.
    pub open spec fn wf(self) -> bool {
        &&& self.floor <= self.ceiling <= 100
        &&& 1 <= self.speed <= 10
        &&& self.colors matches Some(c) ==> 2 <= c
        &&& self.posterize <= 4
        &&& self.dithering <= 1000
    }
}

/// The knobs as the command line hands them over, before validation.
pub struct RawOptions {
    /// Parsed quality pair (floor, ceiling), if given.
    pub quality: Option<(u8, u8)>,
    /// Speed 1 to 11; out-of-range values are rejected here.
    pub speed: u8,
    /// Maximum palette size, if given.
    pub colors: Option<u8>,
    /// Posterization bits, if given.
    pub posterize: Option<u8>,
    /// Explicit dithering strength in thousandths, if given.
    pub floyd: Option<u16>,
    /// The no-dithering flag.
    pub no_dither: bool,
}

/// Does `raw` pass every range check?
pub open spec fn spec_options_valid(raw: RawOptions) -> bool {
    &&& raw.posterize matches Some(p) ==> p <= 4
    &&& 1 <= raw.speed <= 11
    &&& raw.quality matches Some((floor, ceiling)) ==> floor <= ceiling && ceiling <= 100
    &&& raw.colors matches Some(c) ==> c >= 2
}

/// The configuration that valid knobs resolve to.
pub open spec fn spec_resolve_config(raw: RawOptions) -> EngineConfig {
    let (floor, ceiling) = match raw.quality {
        Some(q) => (q.0, q.1),
        None => (0u8, 100u8),
    };
    EngineConfig {
        floor,
        ceiling,
        speed: spec_engine_speed(raw.speed),
        colors: raw.colors,
        posterize: match raw.posterize {
            Some(p) => p,
            None => 0,
        },
        dithering: spec_dithering(raw.speed, raw.floyd, raw.no_dither) as u16,
        min_quality_limit: match raw.quality {
            Some(q) => q.0 > 0,
            None => false,
        },
        fast_encoding: spec_fast_encoding(raw.speed),
    }
}

/// The message of the first range check that `raw` fails, in the order
/// the checks are made: posterization, speed, quality, color count.
pub open spec fn spec_config_error_msg(raw: RawOptions) -> Seq<char> {
    if !(raw.posterize matches Some(p) ==> p <= 4) {
        "Posterization should be number of bits in range 0-4."@
    } else if !(1 <= raw.speed <= 11) {
        "Speed should be between 1 (slow) and 11 (fast)"@
    } else if !(raw.quality matches Some((floor, ceiling)) ==> floor <= ceiling && ceiling
        <= 100) {
        "Quality value(s) must be numbers in range 0-100."@
    } else {
        "Number of colors must be between 2 and 256."@
    }
}

/// Validate the knobs and resolve them into an engine configuration.
/// Rejections come in the order the checks are made: posterization, speed,
/// quality, color count; each with its message and `InvalidArgument`.
pub fn resolve_config(raw: &RawOptions) -> (r: Result<EngineConfig, Error>)
    ensures
        match r {
            Ok(cfg) => spec_options_valid(*raw) && cfg == spec_resolve_config(*raw)
                && cfg.wf(),
            Err(e) => !spec_options_valid(*raw) && e.code == ExitCode::InvalidArgument
                && e.msg@ == spec_config_error_msg(*raw),
        },
{
    if let Some(p) = raw.posterize {
        if p > 4 {
            return Err(Error::new(
                String::from_str("Posterization should be number of bits in range 0-4."),
                ExitCode::InvalidArgument,
            ));
        }
    }
    if raw.speed == 0 || raw.speed > 11 {
        return Err(Error::new(
            String::from_str("Speed should be between 1 (slow) and 11 (fast)"),
            ExitCode::InvalidArgument,
        ));
    }
    let mut floor: u8 = 0;
    let mut ceiling: u8 = 100;
    let mut min_quality_limit = false;
    if let Some((lo, hi)) = raw.quality {
        if hi > 100 || lo > hi {
            return Err(Error::new(
                String::from_str("Quality value(s) must be numbers in range 0-100."),
                ExitCode::InvalidArgument,
            ));
        }
        floor = lo;
        ceiling = hi;
        min_quality_limit = lo > 0;
    }
    if let Some(c) = raw.colors {
        if c < 2 {
            return Err(Error::new(
                String::from_str("Number of colors must be between 2 and 256."),
                ExitCode::InvalidArgument,
            ));
        }
    }
    Ok(EngineConfig {
        floor,
        ceiling,
        speed: if raw.speed == 11 { 10 } else { raw.speed },
        colors: raw.colors,
        posterize: if let Some(p) = raw.posterize { p } else { 0 },
        dithering: resolve_dithering(raw.speed, raw.floyd, raw.no_dither),
        min_quality_limit,
        fast_encoding: raw.speed >= 10,
    })
}

/// The deprecated positional color count: when no explicit color count was
/// given and the first input parses as a number naming no existing file, it
/// is taken as the color count and removed from the input list; an emptied
/// list becomes the single standard-input marker. The second result says
/// whether the deprecation hint should be shown.
pub fn legacy_color_fallback(colors: Option<u8>, files: Vec<String>, first_exists: bool) -> (r:
    (Option<u8>, Vec<String>, bool))
    ensures
        colors is Some || files@.len() == 0 || !parses_as_u8(files@[0]@) || first_exists
            ==> r == (colors, files, false),
        colors is None && files@.len() > 0 && parses_as_u8(files@[0]@) && !first_exists
            ==> {
                &&& r.0 == Some(u8_val(files@[0]@) as u8)
                &&& r.2 == true
                &&& files@.len() > 1 ==> r.1@ =~= files@.subrange(1, files@.len() as int)
                &&& files@.len() == 1 ==> r.1@.len() == 1 && r.1@[0]@ == "-"@
            },
{
    if colors.is_some() {
        return (colors, files, false);
    }
    if files.len() == 0 {
        return (colors, files, false);
    }
    let parsed = parse_u8(files[0].as_str());
    if parsed.is_none() || first_exists {
        return (colors, files, false);
    }
    let mut rest = files;
    rest.remove(0);
    if rest.len() == 0 {
        rest.push(String::from_str("-"));
    }
    (parsed, rest, true)
}

} // verus!
