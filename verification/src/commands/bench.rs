//! `bench`: run the benchmarks, save a snapshot, show regressions.
use vstd::prelude::*;

use crate::comparison::outcome::{spec_valid_threshold, validate_threshold_pct, ThresholdError};
use crate::floatbits::FloatBits;
use crate::framework::{parent_of, path_parent, ResultsStrategy};
use crate::text::opt_view;

verus! {

/// Run benchmarks, save a local snapshot and compare it with the previous
/// one.
#[derive(Debug)]
pub struct BenchCommand {
    pub repo: Option<String>,
    pub commit: Option<String>,
    pub branch: Option<String>,
    /// Results directory, instead of the framework's.
    pub results_dir: Option<String>,
    /// Regression threshold percentage, over `[bench].threshold`.
    pub threshold: Option<FloatBits>,
    /// Report regressions without failing.
    pub no_fail: bool,
    /// Arguments handed to the framework's benchmark command.
    pub args: Vec<String>,
}

impl BenchCommand {
    /// The threshold: the flag's, else the configured one; refused unless
    /// it is a finite, non-negative percentage, before anything runs.
    pub fn threshold_pct(&self, configured: FloatBits) -> (r: Result<FloatBits, ThresholdError>)
        ensures
            ({
                let t = match self.threshold {
                    Some(x) => x,
                    None => configured,
                };
                &&& spec_valid_threshold(t) ==> r == Ok::<FloatBits, ThresholdError>(t)
                &&& !spec_valid_threshold(t) ==> r == Err::<FloatBits, ThresholdError>(
                    ThresholdError::NotFiniteNonNegative(t),
                )
            }),
    {
        let t = match self.threshold {
            Some(x) => x,
            None => configured,
        };
        match validate_threshold_pct(t) {
            Ok(()) => Ok(t),
            Err(e) => Err(e),
        }
    }

    /// Whether the run fails: a regression was found and failing was not
    /// turned off.
    pub fn fails(&self, regressed: bool) -> (r: bool)
        ensures
            r == (regressed && !self.no_fail),
    {
        regressed && !self.no_fail
    }
}

/// The exit status the run ends with when a benchmark command fails: the
/// command's own code, or 1 when it has none (killed by a signal).
pub fn benchmark_exit_code(code: Option<i32>) -> (r: i32)
    ensures
        r == match code {
            Some(c) => c,
            None => 1,
        },
{
    match code {
        Some(c) => c,
        None => 1,
    }
}

/// The directory to create before the benchmarks run so they can write
/// their results: a result file's parent, a result directory itself;
/// Criterion makes its own.
pub fn result_dir_to_create(strategy: &ResultsStrategy) -> (r: Option<String>)
    ensures
        match *strategy {
            ResultsStrategy::JsonFile(path) => opt_view(r) == path_parent(path@),
            ResultsStrategy::JsonDirectory { dir, .. } => (r matches Some(d) && d@ == dir@),
            ResultsStrategy::CriterionDirectory(_) => r is None,
        },
{
    match strategy {
        ResultsStrategy::JsonFile(path) => parent_of(path),
        ResultsStrategy::JsonDirectory { dir, .. } => Some(dir.clone()),
        ResultsStrategy::CriterionDirectory(_) => None,
    }
}

} // verus!
