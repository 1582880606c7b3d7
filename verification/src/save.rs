//! The overwrite and size-skip policy for one destination, and the errors
//! it reports.

use vstd::prelude::*;
use crate::error::{Error, ExitCode};
use crate::numbers::{format_u64, spec_decimal};
use crate::plan::{OutputPlan, derive_output_path, spec_output_path};

verus! {

/// What to do with a newly encoded file at a file destination.
#[derive(Clone, Copy, PartialEq, Eq, Structural, Debug)]
pub enum SaveDecision {
    /// Write the new bytes, replacing any existing file.
    Write,
    /// The destination exists and overwriting was not forced.
    RefuseExists,
    /// The new bytes are not smaller, and skipping larger results is on.
    RefuseLarger,
}

/// The size the new bytes must beat: the original's, or the existing
/// destination's if that is smaller.
pub open spec fn spec_effective_original(dest_size: Option<u64>, orig_len: usize) -> int {
    match dest_size {
        Some(sz) => if sz < orig_len {
            sz as int
        } else {
            orig_len as int
        },
        None => orig_len as int,
    }
}

/// The policy of saving to a file: an existing destination without force
/// refuses; then, if skipping larger results is on, the new bytes must be
/// smaller than the effective original size.
pub open spec fn spec_save_decision(
    dest_size: Option<u64>,
    orig_len: usize,
    new_len: usize,
    skip_if_larger: bool,
    force: bool,
) -> SaveDecision {
    if dest_size is Some && !force {
        SaveDecision::RefuseExists
    } else if !skip_if_larger || (new_len as int) < spec_effective_original(dest_size, orig_len) {
        SaveDecision::Write
    } else {
        SaveDecision::RefuseLarger
    }
}

/// Decide what to do at a file destination. `dest_size` is the size of the
/// already existing destination file, if there is one.
pub fn save_decision(
    dest_size: Option<u64>,
    orig_len: usize,
    new_len: usize,
    skip_if_larger: bool,
    force: bool,
) -> (r: SaveDecision)
    ensures
        r == spec_save_decision(dest_size, orig_len, new_len, skip_if_larger, force),
{
    let mut effective: u64 = orig_len as u64;
    if let Some(sz) = dest_size {
        if sz < effective {
            effective = sz;
        }
        if !force {
            return SaveDecision::RefuseExists;
        }
    }
    if !skip_if_larger || (new_len as u64) < effective {
        SaveDecision::Write
    } else {
        SaveDecision::RefuseLarger
    }
}

/// Should a stream destination fall back to the original bytes? When
/// skipping larger results is on and the new bytes are not smaller, the
/// original bytes are emitted instead, and the save still counts as failed.
pub open spec fn spec_stdout_uses_original(
    skip_if_larger: bool,
    orig_len: usize,
    new_len: usize,
) -> bool {
    skip_if_larger && new_len >= orig_len
}

pub fn stdout_uses_original(skip_if_larger: bool, orig_len: usize, new_len: usize) -> (r: bool)
    ensures
        r == spec_stdout_uses_original(skip_if_larger, orig_len, new_len),
{
    skip_if_larger && new_len >= orig_len
}

/// The destination path of one input under the output plan: the explicit
/// path, the suffix-derived path, or none for standard output.
pub fn resolve_dest(output: &OutputPlan, base: Option<&String>) -> (r: Option<String>)
    requires
        output is Suffix ==> base is Some,
    ensures
        match output {
            OutputPlan::Stdout => r is None,
            OutputPlan::Path(p) => r == Some(*p),
            OutputPlan::Suffix(s) => r matches Some(d) && (base matches Some(b)
                && d@ == spec_output_path(b@, s@)),
        },
{
    match output {
        OutputPlan::Stdout => None,
        OutputPlan::Path(p) => Some(p.clone()),
        OutputPlan::Suffix(s) => {
            let b = base.unwrap();
            Some(derive_output_path(b.as_str(), s.as_str()))
        },
    }
}

/// The refusal for an existing destination without force.
pub fn refuse_exists_error(path: &str) -> (e: Error)
    ensures
        e.code == ExitCode::NotOverwritingError,
        e.msg@ == "skipped "@ + path@ + ", because it already exists. Use --force to overwrite files."@,
{
    let msg = String::from_str("skipped ").concat(path).concat(
        ", because it already exists. Use --force to overwrite files.",
    );
    Error::new(msg, ExitCode::NotOverwritingError)
}

/// The refusal for a result that was not smaller, naming both sizes.
pub fn refuse_larger_error(path: &str, new_len: usize, effective_orig: u64) -> (e: Error)
    ensures
        e.code == ExitCode::NotOverwritingError,
        e.msg@ == "skipped "@ + path@ + ", because new "@ + spec_decimal(new_len as int)
            + "B file was larger than original "@ + spec_decimal(effective_orig as int) + "B"@,
{
    let msg = String::from_str("skipped ").concat(path).concat(", because new ").concat(
        format_u64(new_len as u64).as_str(),
    ).concat("B file was larger than original ").concat(
        format_u64(effective_orig).as_str(),
    ).concat("B");
    Error::new(msg, ExitCode::NotOverwritingError)
}

/// The refusal reported when a stream destination keeps the original.
pub fn kept_original_error(new_len: usize, orig_len: usize) -> (e: Error)
    ensures
        e.code == ExitCode::NotOverwritingError,
        e.msg@ == "kept original, because new "@ + spec_decimal(new_len as int)
            + "B file was larger than original "@ + spec_decimal(orig_len as int) + "B"@,
{
    let msg = String::from_str("kept original, because new ").concat(
        format_u64(new_len as u64).as_str(),
    ).concat("B file was larger than original ").concat(format_u64(orig_len as u64).as_str())
        .concat("B");
    Error::new(msg, ExitCode::NotOverwritingError)
}

} // verus!
