//! Benchmark comparison between two commits.
//!
//! A series is identified by benchmark name, metric name and parameter
//! bindings; the branch is carried for display only, so a pull request on a
//! feature branch can be compared against its base branch.
//!
//! Measurements are binary64 values carried by bit pattern
//! ([`FloatBits`]). The arithmetic of a comparison (unit normalization,
//! difference, percentage) is done by the caller; everything that decides
//! what a comparison *is* — which series are matched, which outcome each
//! one gets, its verdict, the report order and the summary — is here.
use vstd::prelude::*;

use crate::floatbits::FloatBits;

pub mod order;
pub mod pairing;
pub mod outcome;
pub mod units;
pub mod series;
pub mod laws;

verus! {

/// Identifies one benchmark series.
#[derive(Debug)]
pub struct SeriesKey {
    pub benchmark_name: String,
    pub metric_name: String,
    /// The stored parameter bindings, e.g. `{"size":100}`, or `{}` for a
    /// benchmark without parameters.
    pub parameters_json: String,
    pub branch: String,
}

impl Clone for SeriesKey {
    fn clone(&self) -> (r: Self)
        ensures
            r == *self,
    {
        SeriesKey {
            benchmark_name: self.benchmark_name.clone(),
            metric_name: self.metric_name.clone(),
            parameters_json: self.parameters_json.clone(),
            branch: self.branch.clone(),
        }
    }
}

/// A series' mean at one commit.
#[derive(Debug)]
pub struct SeriesMean {
    pub key: SeriesKey,
    pub unit: String,
    pub mean: FloatBits,
}

/// Classification of a compared series' change.
#[derive(Debug, Clone, Copy, PartialEq, Eq, Structural)]
pub enum Verdict {
    Regressed,
    Improved,
    Unchanged,
}

/// What happened to one series between base and head.
#[derive(Debug)]
pub enum Outcome {
    /// Present at both commits, on a common unit scale.
    Compared {
        unit: String,
        base_mean: FloatBits,
        head_mean: FloatBits,
        diff: FloatBits,
        /// `None` when the base mean is zero and the head mean is not.
        diff_pct: Option<FloatBits>,
        verdict: Verdict,
    },
    /// Present at head only.
    Added { unit: String, head_mean: FloatBits },
    /// Present at base only.
    Removed { unit: String, base_mean: FloatBits },
    /// Present at both commits, on units with no common scale.
    Incomparable { base_unit: String, head_unit: String },
    /// A mean or a derived value is not a finite number.
    Invalid { reason: String },
}

/// One series' outcome.
#[derive(Debug)]
pub struct Comparison {
    pub key: SeriesKey,
    pub outcome: Outcome,
}

/// Headline counts of a [`Report`].
#[derive(Debug)]
pub struct Summary {
    pub regressed: u32,
    pub improved: u32,
    pub unchanged: u32,
    pub added: u32,
    pub removed: u32,
    /// Incomparable and invalid series.
    pub unassessable: u32,
    pub threshold_pct: FloatBits,
    pub has_regressions: bool,
}

/// Every series' outcome plus the headline summary.
#[derive(Debug)]
pub struct Report {
    pub comparisons: Vec<Comparison>,
    pub summary: Summary,
}

/// The part of a key that matches a series between base and head:
/// everything but the branch.
pub open spec fn series_identity(k: SeriesKey) -> (Seq<char>, Seq<char>, Seq<char>) {
    (k.benchmark_name@, k.metric_name@, k.parameters_json@)
}

} // verus!
