//! `compare`: compare two commits.
use vstd::prelude::*;

use crate::comparison::outcome::{spec_valid_threshold, validate_threshold_pct, ThresholdError};
use crate::floatbits::FloatBits;

verus! {

/// Output formats of `compare`.
#[derive(Debug, Clone, Copy, PartialEq, Eq, Structural)]
pub enum OutputFormat {
    Table,
    Json,
}

/// Compare the benchmarks of two commits.
#[derive(Debug)]
pub struct CompareCommand {
    pub base: String,
    pub head: String,
    /// Regression threshold percentage, over the configured one.
    pub threshold: Option<FloatBits>,
    pub format: OutputFormat,
}

impl CompareCommand {
    /// The threshold to compare with: the flag's, else the configured one;
    /// refused unless it is a finite, non-negative percentage.
    pub fn threshold_pct(&self, configured: FloatBits) -> (r: Result<FloatBits, ThresholdError>)
        ensures
            ({
                let t = match self.threshold {
                    Some(x) => x,
                    None => configured,
                };
                &&& spec_valid_threshold(t) ==> r == Ok::<FloatBits, ThresholdError>(t)
                &&& !spec_valid_threshold(t) ==> r == Err::<FloatBits, ThresholdError>(
                    ThresholdError::NotFiniteNonNegative(t),
                )
            }),
    {
        let t = match self.threshold {
            Some(x) => x,
            None => configured,
        };
        match validate_threshold_pct(t) {
            Ok(()) => Ok(t),
            Err(e) => Err(e),
        }
    }
}

} // verus!
