//! The I/O plan: where input comes from, where output goes, and the
//! suffix-derived output file name.

use vstd::prelude::*;
use crate::error::{Error, ExitCode};

verus! {

/// Where the images to convert come from.
pub enum InputPlan {
    /// Read one image from standard input.
    Stdin,
    /// Read each named file.
    Paths(Vec<String>),
}

/// Where a converted image goes.
pub enum OutputPlan {
    /// Write to standard output.
    Stdout,
    /// Write every (single) input to this one path.
    Path(String),
    /// Derive each output name from its input name with this suffix.
    Suffix(String),
}

/// Is `files` the single standard-input marker `-`?
pub open spec fn spec_stdin_mode(files: Seq<Seq<char>>) -> bool {
    files.len() == 1 && files[0] == "-"@
}

/// Index of the last `.` of `s`, or `-1` if there is none.
pub open spec fn last_dot(s: Seq<char>) -> int
    decreases s.len(),
{
    if s.len() == 0 {
        -1
    } else if s.last() == '.' {
        s.len() - 1
    } else {
        last_dot(s.drop_last())
    }
}

/// Any position with the properties of `last_dot` is `last_dot`.
pub proof fn lemma_last_dot_is(s: Seq<char>, d: int)
    requires
        -1 <= d < s.len(),
        d >= 0 ==> s[d] == '.',
        forall|i: int| d < i < s.len() ==> #[trigger] s[i] != '.',
    ensures
        last_dot(s) == d,
    decreases s.len(),
{
    if s.len() > 0 {
        if s.last() == '.' {
            assert(d == s.len() - 1);
        } else {
            let t = s.drop_last();
            assert(d < s.len() - 1);
            assert forall|i: int| d < i < t.len() implies #[trigger] t[i] != '.' by {
                assert(t[i] == s[i]);
            }
            lemma_last_dot_is(t, d);
        }
    }
}

/// The output name derived from an input name: everything before the last
/// `.` (or the whole name if it has none), with the suffix appended.
pub open spec fn spec_output_path(base: Seq<char>, suffix: Seq<char>) -> Seq<char> {
    if last_dot(base) >= 0 {
        base.subrange(0, last_dot(base)) + suffix
    } else {
        base + suffix
    }
}

/// Derive the output path for one input from the configured suffix.
pub fn derive_output_path(base: &str, suffix: &str) -> (r: String)
    ensures
        r@ == spec_output_path(base@, suffix@),
{
    let n = base.unicode_len();
    let mut i: usize = n;
    while i > 0
        invariant
            0 <= i <= n,
            n == base@.len(),
            forall|j: int| i <= j < n ==> #[trigger] base@[j] != '.',
        decreases i,
    {
        if base.get_char(i - 1) == '.' {
            proof {
                lemma_last_dot_is(base@, i - 1);
            }
            let stem = base.substring_char(0, i - 1);
            return String::from_str(stem).concat(suffix);
        }
        i = i - 1;
    }
    proof {
        lemma_last_dot_is(base@, -1);
    }
    String::from_str(base).concat(suffix)
}

/// The default output suffix: the dithered one when dithering is on, the
/// ordered one otherwise.
pub fn default_suffix(dithering: u16) -> (r: String)
    ensures
        dithering > 0 ==> r@ == "-fs8.png"@,
        dithering == 0 ==> r@ == "-or8.png"@,
{
    if dithering > 0 {
        String::from_str("-fs8.png")
    } else {
        String::from_str("-or8.png")
    }
}

/// What plan a set of arguments resolves to, if it is consistent.
pub open spec fn spec_plan_errors(
    files: Seq<Seq<char>>,
    output: Option<Seq<char>>,
    extension: Option<Seq<char>>,
) -> Option<ExitCode> {
    let stdin_mode = spec_stdin_mode(files);
    if extension is Some && output is Some {
        Some(ExitCode::InvalidArgument)
    } else if extension is Some && stdin_mode {
        Some(ExitCode::InvalidArgument)
    } else if !stdin_mode && files.len() != 1 && output is Some {
        Some(ExitCode::InvalidArgument)
    } else if !stdin_mode && files.len() == 0 {
        Some(ExitCode::MissingArgument)
    } else {
        None
    }
}

/// The message of the first plan check that fails, in the order the
/// checks are made.
pub open spec fn spec_plan_error_msg(
    files: Seq<Seq<char>>,
    output: Option<Seq<char>>,
    extension: Option<Seq<char>>,
) -> Seq<char> {
    let stdin_mode = spec_stdin_mode(files);
    if extension is Some && output is Some {
        "--ext and --output options can't be used at the same time"@
    } else if extension is Some && stdin_mode {
        "--ext doesn't make sense for stdout output"@
    } else if !stdin_mode && files.len() != 1 && output == Some("-"@) {
        "Only one input file is allowed when using the special output path \"-\" to write to stdout. This error also happens when filenames with spaces are not in quotes."@
    } else if !stdin_mode && files.len() != 1 && output is Some {
        "Only one input file is allowed when --output is used. This error also happens when filenames with spaces are not in quotes."@
    } else {
        "No input files specified"@
    }
}

/// Resolve the input and output plan from the positional arguments, the
/// explicit output path and the custom suffix. `dithering` picks the
/// default suffix. Rejections: a custom suffix beside an explicit output
/// path or beside standard-input mode, and more than one (or no) input
/// beside an explicit output path or output to standard output, are
/// `InvalidArgument`; an empty input list is `MissingArgument`.
pub fn resolve_plan(
    files: Vec<String>,
    output: Option<String>,
    extension: Option<String>,
    dithering: u16,
) -> (r: Result<(InputPlan, OutputPlan), Error>)
    ensures
        ({
            let specs = files@.map_values(|f: String| f@);
            let out = match output {
                Some(o) => Some(o@),
                None => None::<Seq<char>>,
            };
            let ext = match extension {
                Some(e) => Some(e@),
                None => None::<Seq<char>>,
            };
            match r {
                Ok((inp, outp)) => {
                    &&& spec_plan_errors(specs, out, ext) is None
                    &&& (inp is Stdin <==> spec_stdin_mode(specs))
                    &&& (inp matches InputPlan::Paths(p) ==> p == files)
                    &&& match outp {
                        OutputPlan::Stdout => out == Some("-"@) || (out is None
                            && spec_stdin_mode(specs)),
                        OutputPlan::Path(p) => out == Some(p@) && p@ != "-"@,
                        OutputPlan::Suffix(s) => out is None && !spec_stdin_mode(specs)
                            && (match ext {
                            Some(e) => s@ == e,
                            None => (dithering > 0 && s@ == "-fs8.png"@) || (dithering == 0
                                && s@ == "-or8.png"@),
                        }),
                    }
                },
                Err(e) => spec_plan_errors(specs, out, ext) == Some(e.code) && e.msg@
                    == spec_plan_error_msg(specs, out, ext),
            }
        }),
{
    let dash = String::from_str("-");
    let stdin_mode = files.len() == 1 && files[0].eq(&dash);
    proof {
        assert(files@.map_values(|f: String| f@).len() == files@.len());
        if files@.len() == 1 {
            assert(files@.map_values(|f: String| f@)[0] == files@[0]@);
        }
    }
    if extension.is_some() && output.is_some() {
        return Err(Error::new(
            String::from_str("--ext and --output options can't be used at the same time"),
            ExitCode::InvalidArgument,
        ));
    }
    if extension.is_some() && stdin_mode {
        return Err(Error::new(
            String::from_str("--ext doesn't make sense for stdout output"),
            ExitCode::InvalidArgument,
        ));
    }
    if !stdin_mode && files.len() != 1 && output.is_some() {
        let out_ref = output.as_ref().unwrap();
        if out_ref.eq(&dash) {
            return Err(Error::new(
                String::from_str(
                    "Only one input file is allowed when using the special output path \"-\" to write to stdout. This error also happens when filenames with spaces are not in quotes.",
                ),
                ExitCode::InvalidArgument,
            ));
        }
        return Err(Error::new(
            String::from_str(
                "Only one input file is allowed when --output is used. This error also happens when filenames with spaces are not in quotes.",
            ),
            ExitCode::InvalidArgument,
        ));
    }
    if !stdin_mode && files.len() == 0 {
        return Err(Error::new(
            String::from_str("No input files specified"),
            ExitCode::MissingArgument,
        ));
    }
    let inp = if stdin_mode {
        InputPlan::Stdin
    } else {
        InputPlan::Paths(files)
    };
    let outp = match output {
        Some(o) => {
            if o.eq(&dash) {
                OutputPlan::Stdout
            } else {
                OutputPlan::Path(o)
            }
        },
        None => {
            if stdin_mode {
                OutputPlan::Stdout
            } else {
                match extension {
                    Some(e) => OutputPlan::Suffix(e),
                    None => OutputPlan::Suffix(default_suffix(dithering)),
                }
            }
        },
    };
    Ok((inp, outp))
}

} // verus!
