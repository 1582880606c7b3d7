//! Aggregation of per-file outcomes: counts, and the first failure in
//! input order, whatever order the files finished in.

use vstd::prelude::*;
use crate::error::Error;

verus! {

/// What a successful file conversion produced.
pub struct FileSuccess {
    /// How many bytes were written.
    pub bytes: usize,
    /// Where they went; `None` for standard output.
    pub dest: Option<String>,
}

/// The outcome of one input file.
pub type FileOutcome = Result<FileSuccess, Error>;

/// Summary of a finished batch.
pub struct BatchReport {
    /// How many inputs there were.
    pub total: usize,
    /// How many of them failed.
    pub failed: usize,
    /// The position of the first failure in input order, if any failed.
    pub first_failed: Option<usize>,
}

/// How many outcomes of `s` are failures.
pub open spec fn spec_num_failed(s: Seq<FileOutcome>) -> int
    decreases s.len(),
{
    if s.len() == 0 {
        0
    } else {
        spec_num_failed(s.drop_last()) + if s.last() is Err {
            1int
        } else {
            0int
        }
    }
}

/// A sequence with no failures has failure count zero, and one with a
/// failure has a positive count.
pub proof fn lemma_num_failed_zero(s: Seq<FileOutcome>)
    ensures
        spec_num_failed(s) == 0 <==> (forall|i: int| 0 <= i < s.len() ==> !(#[trigger] s[i] is Err)),
        spec_num_failed(s) >= 0,
    decreases s.len(),
{
    if s.len() > 0 {
        lemma_num_failed_zero(s.drop_last());
        let t = s.drop_last();
        if spec_num_failed(s) == 0 {
            assert forall|i: int| 0 <= i < s.len() implies !(#[trigger] s[i] is Err) by {
                if i < s.len() - 1 {
                    assert(s[i] == t[i]);
                }
            }
        } else {
            if !(s.last() is Err) {
                assert(spec_num_failed(t) != 0);
                let w = choose|i: int| 0 <= i < t.len() && #[trigger] t[i] is Err;
                assert(s[w] is Err);
            }
        }
    }
}

impl BatchReport {
    /// The report of `outcomes`, indexed in input order.
    pub open spec fn spec_of(self, outcomes: Seq<FileOutcome>) -> bool {
        &&& self.total == outcomes.len()
        &&& self.failed == spec_num_failed(outcomes)
        &&& match self.first_failed {
            Some(i) => i < outcomes.len() && outcomes[i as int] is Err && (forall|j: int|
                0 <= j < i ==> !(#[trigger] outcomes[j] is Err)),
            None => forall|j: int| 0 <= j < outcomes.len() ==> !(#[trigger] outcomes[j] is Err),
        }
        &&& (self.first_failed is None <==> self.failed == 0)
    }

    /// A failure-count summary is shown only for a failing multi-file batch.
    pub fn summary_needed(&self) -> (r: bool)
        ensures
            r == (self.failed > 0 && self.total > 1),
    {
        self.failed > 0 && self.total > 1
    }
}

/// Aggregate the outcomes of a finished batch, scanning in input order:
/// the counts, and the position of the first failure.
pub fn aggregate(outcomes: &Vec<FileOutcome>) -> (r: BatchReport)
    ensures
        r.spec_of(outcomes@),
{
    let total = outcomes.len();
    let mut failed: usize = 0;
    let mut first_failed: Option<usize> = None;
    let mut i: usize = 0;
    while i < total
        invariant
            0 <= i <= total,
            total == outcomes@.len(),
            failed == spec_num_failed(outcomes@.subrange(0, i as int)),
            failed <= i,
            match first_failed {
                Some(k) => k < i && outcomes@[k as int] is Err && (forall|j: int|
                    0 <= j < k ==> !(#[trigger] outcomes@[j] is Err)),
                None => forall|j: int| 0 <= j < i ==> !(#[trigger] outcomes@[j] is Err),
            },
            (first_failed is None <==> failed == 0),
        decreases total - i,
    {
        proof {
            assert(outcomes@.subrange(0, i + 1).drop_last() =~= outcomes@.subrange(0, i as int));
            lemma_num_failed_zero(outcomes@.subrange(0, i as int));
        }
        if outcomes[i].is_err() {
            failed = failed + 1;
            if first_failed.is_none() {
                first_failed = Some(i);
            }
        }
        i = i + 1;
    }
    proof {
        assert(outcomes@.subrange(0, total as int) =~= outcomes@);
    }
    BatchReport { total, failed, first_failed }
}

} // verus!
