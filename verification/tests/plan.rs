use pngquant::error::ExitCode;
use pngquant::plan::{default_suffix, derive_output_path, resolve_plan, InputPlan, OutputPlan};

fn paths(names: &[&str]) -> Vec<String> {
    names.iter().map(|s| s.to_string()).collect()
}

#[test]
fn output_path_strips_one_extension() {
    assert_eq!(derive_output_path("photo.png", "-fs8.png"), "photo-fs8.png");
}

#[test]
fn output_path_without_extension_appends() {
    assert_eq!(derive_output_path("photo", "-fs8.png"), "photo-fs8.png");
}

#[test]
fn output_path_strips_only_the_last_extension() {
    assert_eq!(derive_output_path("a.b.png", "-or8.png"), "a.b-or8.png");
    assert_eq!(derive_output_path(".png", "-fs8.png"), "-fs8.png");
}

#[test]
fn suffix_follows_dithering() {
    assert_eq!(default_suffix(1000), "-fs8.png");
    assert_eq!(default_suffix(0), "-or8.png");
}

#[test]
fn explicit_output_with_two_inputs_is_invalid() {
    let r = resolve_plan(paths(&["a.png", "b.png"]), Some("out.png".to_string()), None, 1000);
    assert_eq!(r.err().unwrap().code, ExitCode::InvalidArgument);
}

#[test]
fn stdout_output_with_two_inputs_is_invalid() {
    let r = resolve_plan(paths(&["a.png", "b.png"]), Some("-".to_string()), None, 1000);
    assert_eq!(r.err().unwrap().code, ExitCode::InvalidArgument);
}

#[test]
fn explicit_output_with_no_inputs_is_invalid() {
    let r = resolve_plan(paths(&[]), Some("out.png".to_string()), None, 1000);
    assert_eq!(r.err().unwrap().code, ExitCode::InvalidArgument);
}

#[test]
fn no_inputs_is_a_missing_argument() {
    let e = resolve_plan(paths(&[]), None, None, 1000).err().unwrap();
    assert_eq!(e.code, ExitCode::MissingArgument);
    assert_eq!(e.msg, "No input files specified");
}

#[test]
fn suffix_beside_output_path_is_invalid() {
    let r = resolve_plan(
        paths(&["a.png"]),
        Some("out.png".to_string()),
        Some("-x.png".to_string()),
        1000,
    );
    assert_eq!(r.err().unwrap().code, ExitCode::InvalidArgument);
}

#[test]
fn suffix_beside_stdin_is_invalid() {
    let r = resolve_plan(paths(&["-"]), None, Some("-x.png".to_string()), 1000);
    assert_eq!(r.err().unwrap().code, ExitCode::InvalidArgument);
}

#[test]
fn stdin_marker_goes_to_stdout() {
    let (inp, outp) = resolve_plan(paths(&["-"]), None, None, 1000).unwrap();
    assert!(matches!(inp, InputPlan::Stdin));
    assert!(matches!(outp, OutputPlan::Stdout));
}

#[test]
fn stdin_with_explicit_output_path() {
    let (inp, outp) = resolve_plan(paths(&["-"]), Some("out.png".to_string()), None, 1000)
        .unwrap();
    assert!(matches!(inp, InputPlan::Stdin));
    match outp {
        OutputPlan::Path(p) => assert_eq!(p, "out.png"),
        _ => panic!("expected an explicit output path"),
    }
}

#[test]
fn files_get_the_default_suffix_by_dithering() {
    let (inp, outp) = resolve_plan(paths(&["a.png", "b.png"]), None, None, 1000).unwrap();
    match inp {
        InputPlan::Paths(p) => assert_eq!(p, paths(&["a.png", "b.png"])),
        InputPlan::Stdin => panic!("expected paths"),
    }
    match outp {
        OutputPlan::Suffix(s) => assert_eq!(s, "-fs8.png"),
        _ => panic!("expected a suffix plan"),
    }
    let (_, outp) = resolve_plan(paths(&["a.png"]), None, None, 0).unwrap();
    match outp {
        OutputPlan::Suffix(s) => assert_eq!(s, "-or8.png"),
        _ => panic!("expected a suffix plan"),
    }
}

#[test]
fn custom_suffix_is_kept() {
    let (_, outp) = resolve_plan(paths(&["a.png"]), None, Some("-tiny.png".to_string()), 0)
        .unwrap();
    match outp {
        OutputPlan::Suffix(s) => assert_eq!(s, "-tiny.png"),
        _ => panic!("expected a suffix plan"),
    }
}
