use pngquant::batch::{aggregate, FileSuccess};
use pngquant::error::{Error, ExitCode};
use pngquant::plan::OutputPlan;
use pngquant::save::{
    kept_original_error, refuse_exists_error, refuse_larger_error, resolve_dest, save_decision,
    stdout_uses_original, SaveDecision,
};

#[test]
fn skip_if_larger_refuses_even_with_force() {
    // The destination exists and is smaller than the new bytes.
    let d = save_decision(Some(10), 100, 50, true, true);
    assert_eq!(d, SaveDecision::RefuseLarger);
}

#[test]
fn smaller_result_is_written() {
    assert_eq!(save_decision(Some(10), 100, 5, true, true), SaveDecision::Write);
    assert_eq!(save_decision(None, 100, 99, true, false), SaveDecision::Write);
    assert_eq!(save_decision(None, 100, 200, false, false), SaveDecision::Write);
}

#[test]
fn existing_destination_without_force_refuses() {
    assert_eq!(save_decision(Some(10), 100, 5, true, false), SaveDecision::RefuseExists);
    assert_eq!(save_decision(Some(500), 100, 5, false, false), SaveDecision::RefuseExists);
}

#[test]
fn equal_size_counts_as_larger() {
    assert_eq!(save_decision(None, 100, 100, true, true), SaveDecision::RefuseLarger);
}

#[test]
fn stdout_falls_back_to_the_original() {
    assert!(stdout_uses_original(true, 100, 100));
    assert!(stdout_uses_original(true, 100, 150));
    assert!(!stdout_uses_original(true, 100, 99));
    assert!(!stdout_uses_original(false, 100, 150));
}

#[test]
fn refusal_messages() {
    let e = refuse_exists_error("out.png");
    assert_eq!(e.code, ExitCode::NotOverwritingError);
    assert_eq!(
        e.msg,
        "skipped out.png, because it already exists. Use --force to overwrite files."
    );
    let e = kept_original_error(120, 100);
    assert_eq!(e.code, ExitCode::NotOverwritingError);
    assert_eq!(e.msg, "kept original, because new 120B file was larger than original 100B");
    let e = refuse_larger_error("out.png", 1234, 1000);
    assert_eq!(e.code, ExitCode::NotOverwritingError);
    assert_eq!(e.msg, "skipped out.png, because new 1234B file was larger than original 1000B");
}

#[test]
fn destinations_follow_the_plan() {
    let base = "photo.png".to_string();
    let d = resolve_dest(&OutputPlan::Suffix("-fs8.png".to_string()), Some(&base));
    assert_eq!(d, Some("photo-fs8.png".to_string()));
    let d = resolve_dest(&OutputPlan::Path("out.png".to_string()), Some(&base));
    assert_eq!(d, Some("out.png".to_string()));
    let d = resolve_dest(&OutputPlan::Stdout, None);
    assert_eq!(d, None);
}

fn ok() -> Result<FileSuccess, Error> {
    Ok(FileSuccess { bytes: 1, dest: None })
}

fn failed(code: ExitCode) -> Result<FileSuccess, Error> {
    Err(Error::new("went wrong".to_string(), code))
}

#[test]
fn three_inputs_one_failure() {
    let outcomes = vec![ok(), failed(ExitCode::ReadError), ok()];
    let report = aggregate(&outcomes);
    assert_eq!(report.total, 3);
    assert_eq!(report.failed, 1);
    assert_eq!(report.first_failed, Some(1));
    let first = outcomes[report.first_failed.unwrap()].as_ref().err().unwrap();
    assert_eq!(first.code, ExitCode::ReadError);
    assert!(report.summary_needed());
}

#[test]
fn first_failure_is_by_input_order() {
    let outcomes = vec![ok(), failed(ExitCode::WriteError), failed(ExitCode::ReadError)];
    let report = aggregate(&outcomes);
    assert_eq!(report.failed, 2);
    assert_eq!(report.first_failed, Some(1));
    let first = outcomes[1].as_ref().err().unwrap();
    assert_eq!(first.code, ExitCode::WriteError);
}

#[test]
fn all_successes_report_no_failure() {
    let outcomes = vec![ok(), ok()];
    let report = aggregate(&outcomes);
    assert_eq!(report.total, 2);
    assert_eq!(report.failed, 0);
    assert_eq!(report.first_failed, None);
    assert!(!report.summary_needed());
}

#[test]
fn single_failing_input_needs_no_summary() {
    let outcomes = vec![failed(ExitCode::ReadError)];
    let report = aggregate(&outcomes);
    assert_eq!(report.failed, 1);
    assert_eq!(report.first_failed, Some(0));
    assert!(!report.summary_needed());
}
