use pngquant::config::{
    legacy_color_fallback, parse_speed, resolve_config, resolve_dithering, RawOptions,
};
use pngquant::error::{ExitCode, LiqError};
use pngquant::quality::parse_quality;

fn raw(quality: Option<(u8, u8)>, speed: u8) -> RawOptions {
    RawOptions { quality, speed, colors: None, posterize: None, floyd: None, no_dither: false }
}

#[test]
fn quality_range_form() {
    assert_eq!(parse_quality("30-80"), Ok((30, 80)));
    assert_eq!(parse_quality("0-100"), Ok((0, 100)));
}

#[test]
fn quality_single_number_derives_floor() {
    assert_eq!(parse_quality("50"), Ok((45, 50)));
    assert_eq!(parse_quality("100"), Ok((90, 100)));
    assert_eq!(parse_quality("0"), Ok((0, 0)));
}

#[test]
fn quality_open_forms() {
    assert_eq!(parse_quality("-70"), Ok((0, 70)));
    assert_eq!(parse_quality("60-"), Ok((60, 100)));
}

#[test]
fn quality_malformed_inputs() {
    assert_eq!(parse_quality("abc"), Err("Quality value is not a number".to_string()));
    assert_eq!(parse_quality("x-40"), Err("First number is invalid".to_string()));
    assert_eq!(parse_quality("40-x"), Err("Last number is invalid".to_string()));
    assert_eq!(parse_quality("-"), Err("First number is invalid".to_string()));
    assert_eq!(parse_quality(""), Err("Quality value is not a number".to_string()));
    assert_eq!(parse_quality("300"), Err("Quality value is not a number".to_string()));
}

#[test]
fn quality_out_of_range_rejected_by_the_parser() {
    assert_eq!(parse_quality("101"), Err("Quality value is not a number".to_string()));
    assert_eq!(parse_quality("101-200"), Err("First number is invalid".to_string()));
    assert_eq!(parse_quality("50-101"), Err("Last number is invalid".to_string()));
    assert_eq!(parse_quality("-101"), Err("Last number is invalid".to_string()));
    assert_eq!(parse_quality("101-"), Err("First number is invalid".to_string()));
    assert_eq!(
        parse_quality("50-40"),
        Err("Quality value(s) must be numbers in range 0-100.".to_string())
    );
}

#[test]
fn quality_pair_out_of_range_rejected_at_resolution() {
    // A pair that skipped the parser is still rejected by resolution.
    let r = resolve_config(&raw(Some((90, 101)), 3));
    assert_eq!(r.as_ref().err().unwrap().code, ExitCode::InvalidArgument);
    assert_eq!(r.as_ref().err().unwrap().msg, "Quality value(s) must be numbers in range 0-100.");
    let r = resolve_config(&raw(Some((50, 40)), 3));
    assert_eq!(r.as_ref().err().unwrap().code, ExitCode::InvalidArgument);
}

#[test]
fn speed_accepts_one_to_eleven() {
    for s in 1..=11u8 {
        assert_eq!(parse_speed(&s.to_string()), Ok(s));
    }
}

#[test]
fn speed_rejects_zero_and_twelve() {
    let msg = "Speed should be between 1 (slow) and 11 (fast)".to_string();
    assert_eq!(parse_speed("0"), Err(msg.clone()));
    assert_eq!(parse_speed("12"), Err(msg.clone()));
    assert_eq!(parse_speed("abc"), Err(msg));
}

#[test]
fn speed_plus_sign_parses() {
    assert_eq!(parse_speed("+5"), Ok(5));
}

#[test]
fn fast_encoding_set_by_speed_ten_and_eleven() {
    assert!(!resolve_config(&raw(None, 9)).unwrap().fast_encoding);
    assert!(resolve_config(&raw(None, 10)).unwrap().fast_encoding);
    let cfg = resolve_config(&raw(None, 11)).unwrap();
    assert!(cfg.fast_encoding);
    assert_eq!(cfg.speed, 10); // the engine itself tops out at 10
}

#[test]
fn speed_eleven_zeroes_dithering_regardless() {
    let mut r = raw(None, 11);
    r.floyd = Some(800);
    assert_eq!(resolve_config(&r).unwrap().dithering, 0);
    r.no_dither = false;
    r.floyd = None;
    assert_eq!(resolve_config(&r).unwrap().dithering, 0);
}

#[test]
fn dithering_resolution_order() {
    assert_eq!(resolve_dithering(3, Some(500), false), 500);
    assert_eq!(resolve_dithering(3, Some(1500), false), 1000); // clamped
    assert_eq!(resolve_dithering(3, None, true), 0);
    assert_eq!(resolve_dithering(3, None, false), 1000);
    assert_eq!(resolve_dithering(10, None, false), 0); // fastest mode default
    assert_eq!(resolve_dithering(10, Some(700), false), 700);
    assert_eq!(resolve_dithering(11, Some(700), false), 0);
}

#[test]
fn posterize_and_colors_ranges() {
    let mut r = raw(None, 3);
    r.posterize = Some(5);
    assert_eq!(resolve_config(&r).err().unwrap().code, ExitCode::InvalidArgument);
    let mut r = raw(None, 3);
    r.colors = Some(1);
    assert_eq!(resolve_config(&r).err().unwrap().code, ExitCode::InvalidArgument);
    let mut r = raw(None, 3);
    r.posterize = Some(4);
    r.colors = Some(2);
    let cfg = resolve_config(&r).unwrap();
    assert_eq!(cfg.posterize, 4);
    assert_eq!(cfg.colors, Some(2));
}

#[test]
fn min_quality_limit_tracks_explicit_floor() {
    assert!(resolve_config(&raw(Some((45, 50)), 3)).unwrap().min_quality_limit);
    assert!(!resolve_config(&raw(Some((0, 50)), 3)).unwrap().min_quality_limit);
    assert!(!resolve_config(&raw(None, 3)).unwrap().min_quality_limit);
}

#[test]
fn legacy_positional_color_count() {
    let files = vec!["200".to_string(), "a.png".to_string()];
    let (colors, rest, hint) = legacy_color_fallback(None, files, false);
    assert_eq!(colors, Some(200));
    assert_eq!(rest, vec!["a.png".to_string()]);
    assert!(hint);
}

#[test]
fn legacy_fallback_to_stdin_marker() {
    let (colors, rest, hint) = legacy_color_fallback(None, vec!["16".to_string()], false);
    assert_eq!(colors, Some(16));
    assert_eq!(rest, vec!["-".to_string()]);
    assert!(hint);
}

#[test]
fn legacy_fallback_leaves_existing_file_alone() {
    let files = vec!["200".to_string(), "a.png".to_string()];
    let (colors, rest, hint) = legacy_color_fallback(None, files.clone(), true);
    assert_eq!(colors, None);
    assert_eq!(rest, files);
    assert!(!hint);
    // An explicit color count also wins.
    let (colors, rest, hint) = legacy_color_fallback(Some(64), files.clone(), false);
    assert_eq!(colors, Some(64));
    assert_eq!(rest, files);
    assert!(!hint);
    // A first argument that is no number is left alone.
    let files = vec!["a.png".to_string()];
    let (colors, rest, hint) = legacy_color_fallback(None, files.clone(), false);
    assert_eq!(colors, None);
    assert_eq!(rest, files);
    assert!(!hint);
}

#[test]
fn exit_codes_keep_their_numbers() {
    assert_eq!(ExitCode::MissingArgument.code(), 1);
    assert_eq!(ExitCode::ReadError.code(), 2);
    assert_eq!(ExitCode::InvalidArgument.code(), 4);
    assert_eq!(ExitCode::NotOverwritingError.code(), 15);
    assert_eq!(ExitCode::WriteError.code(), 16);
    assert_eq!(ExitCode::OutOfMemory.code(), 17);
    assert_eq!(ExitCode::Unsupported.code(), 18);
    assert_eq!(ExitCode::EncodingError.code(), 25);
    assert_eq!(ExitCode::WrongInputColorType.code(), 26);
    assert_eq!(ExitCode::InternalError.code(), 35);
    assert_eq!(ExitCode::QualityTooLow.code(), 99);
}

#[test]
fn engine_failure_categories_map_to_exit_codes() {
    assert_eq!(LiqError::from_code(99), LiqError::QualityTooLow);
    assert_eq!(LiqError::from_code(100), LiqError::ValueOutOfRange);
    assert_eq!(LiqError::from_code(101), LiqError::OutOfMemory);
    assert_eq!(LiqError::from_code(106), LiqError::Unsupported);
    assert_eq!(LiqError::from_code(7), LiqError::Other);
    assert_eq!(LiqError::QualityTooLow.exit_code(), ExitCode::QualityTooLow);
    assert_eq!(LiqError::ValueOutOfRange.exit_code(), ExitCode::InvalidArgument);
    assert_eq!(LiqError::Aborted.exit_code(), ExitCode::NotOverwritingError);
    assert_eq!(LiqError::BufferTooSmall.exit_code(), ExitCode::WrongInputColorType);
    assert_eq!(LiqError::Other.exit_code(), ExitCode::InvalidArgument);
}
