//! Finding result files: where to look for each results strategy and which
//! files count. Listing and reading the files is done by the caller.
use vstd::prelude::*;

use crate::framework::ResultsStrategy;
use crate::json::{json_of, member, parse_json, take_member, JsonValue};
use crate::text::{chars_of, ends_with, has_suffix, owned};

verus! {

/// What to scan for results.
#[derive(Debug)]
pub enum ScanPlan {
    /// Criterion's tree of benchmark directories.
    CriterionDirectory(String),
    /// The JSON files of a directory, those ending in the suffix when one
    /// is set.
    JsonDirectory { dir: String, required_suffix: Option<String> },
    /// One JSON file; a missing file yields no results.
    JsonFile(String),
}

/// The place to scan: the override when given, else the strategy's. A
/// result-file strategy given a directory scans that directory's JSON
/// files instead.
pub fn scan_plan(strategy: &ResultsStrategy, results_dir_override: Option<&str>, override_is_dir: bool) -> (r:
    ScanPlan)
    ensures
        match *strategy {
            ResultsStrategy::CriterionDirectory(d) => (r matches ScanPlan::CriterionDirectory(x) && x@
                == match results_dir_override {
                Some(o) => o@,
                None => d@,
            }),
            ResultsStrategy::JsonFile(f) => match results_dir_override {
                Some(o) => if override_is_dir {
                    (r matches ScanPlan::JsonDirectory { dir, required_suffix } && dir@ == o@
                        && required_suffix is None)
                } else {
                    (r matches ScanPlan::JsonFile(x) && x@ == o@)
                },
                None => (r matches ScanPlan::JsonFile(x) && x@ == f@),
            },
            ResultsStrategy::JsonDirectory { dir: d, required_suffix: s } => (
            r matches ScanPlan::JsonDirectory { dir, required_suffix } && dir@ == match results_dir_override {
                Some(o) => o@,
                None => d@,
            } && required_suffix == s),
        },
{
    match strategy {
        ResultsStrategy::CriterionDirectory(d) => ScanPlan::CriterionDirectory(
            match results_dir_override {
                Some(o) => owned(o),
                None => d.clone(),
            },
        ),
        ResultsStrategy::JsonFile(f) => match results_dir_override {
            Some(o) => if override_is_dir {
                ScanPlan::JsonDirectory { dir: owned(o), required_suffix: None }
            } else {
                ScanPlan::JsonFile(owned(o))
            },
            None => ScanPlan::JsonFile(f.clone()),
        },
        ResultsStrategy::JsonDirectory { dir, required_suffix } => ScanPlan::JsonDirectory {
            dir: match results_dir_override {
                Some(o) => owned(o),
                None => dir.clone(),
            },
            required_suffix: required_suffix.clone(),
        },
    }
}

/// A directory entry is read as a result: a regular file with the `json`
/// extension whose name, when a suffix is required, is text ending in it.
pub open spec fn spec_accepts_entry(
    is_file: bool,
    extension_is_json: bool,
    file_name: Option<Seq<char>>,
    required_suffix: Option<Seq<char>>,
) -> bool {
    is_file && extension_is_json && match required_suffix {
        Some(s) => match file_name {
            Some(n) => has_suffix(n, s),
            None => false,
        },
        None => true,
    }
}

/// Whether a directory entry is read as a result.
pub fn accepts_entry(
    is_file: bool,
    extension_is_json: bool,
    file_name: Option<&str>,
    required_suffix: Option<&str>,
) -> (r: bool)
    ensures
        r == spec_accepts_entry(
            is_file,
            extension_is_json,
            match file_name {
                Some(n) => Some(n@),
                None => None,
            },
            match required_suffix {
                Some(s) => Some(s@),
                None => None,
            },
        ),
{
    if !is_file || !extension_is_json {
        return false;
    }
    match required_suffix {
        Some(s) => match file_name {
            Some(n) => {
                let nc = chars_of(n);
                let sc = chars_of(s);
                ends_with(&nc, &sc)
            },
            None => false,
        },
        None => true,
    }
}

/// The name a result is listed under: the file's name, or `benchmark
/// result` when it has none that is text.
pub fn result_name(file_name: Option<&str>) -> (r: String)
    ensures
        r@ == match file_name {
            Some(n) => n@,
            None => "benchmark result"@,
        },
{
    match file_name {
        Some(n) => owned(n),
        None => owned("benchmark result"),
    }
}

/// A Criterion benchmark read from its `new/` directory: its name, the
/// `mean`, `median` and `std_dev` estimates as written, and the number of
/// iterations sampled.
#[derive(Debug)]
pub struct CriterionResult {
    pub name: String,
    pub mean: JsonValue,
    pub median: JsonValue,
    pub std_dev: JsonValue,
    pub total_iterations: u64,
}

/// Why a result could not be read.
#[derive(Debug)]
pub enum DiscoveryError {
    /// A file is not JSON; the message names it.
    Parse(String),
}

/// `a + b` wrapping around at 2^64.
pub open spec fn wrap_add(a: u64, b: u64) -> u64 {
    if a + b > u64::MAX {
        (a + b - 0x1_0000_0000_0000_0000int) as u64
    } else {
        (a + b) as u64
    }
}

/// The iterations an `iters` entry counts for: a number as `u64` (the
/// saturating conversion), anything else nothing.
pub open spec fn iteration_count(v: JsonValue) -> u64 {
    match v {
        JsonValue::Number(f) => f.spec_to_u64(),
        _ => 0,
    }
}

/// The wrapping sum of the first `n` entries' iterations.
pub open spec fn iters_sum(items: Seq<JsonValue>, n: int) -> u64
    decreases n,
{
    if n <= 0 {
        0
    } else {
        wrap_add(iters_sum(items, n - 1), iteration_count(items[n - 1]))
    }
}

/// The iterations a `sample.json` records: the sum over its `iters` array,
/// 0 where it has none.
pub open spec fn sample_iterations(sample: JsonValue) -> u64 {
    match member(sample, "iters"@) {
        JsonValue::Array(items) => iters_sum(items@, items@.len() as int),
        _ => 0,
    }
}

/// The name of a Criterion benchmark: the string `full_id` of its
/// `benchmark.json`, else its directory's name.
pub open spec fn criterion_name(info: JsonValue, dir_name: String) -> String {
    match member(info, "full_id"@) {
        JsonValue::Str(s) => s,
        _ => dir_name,
    }
}

/// The iterations of an `iters` value: the sum over it where it is an
/// array, 0 otherwise.
fn sum_iterations(iters: &JsonValue) -> (r: u64)
    ensures
        r == match *iters {
            JsonValue::Array(items) => iters_sum(items@, items@.len() as int),
            _ => 0,
        },
{
    match iters {
        JsonValue::Array(items) => {
            let mut total: u64 = 0;
            let mut i: usize = 0;
            while i < items.len()
                invariant
                    i <= items@.len(),
                    total == iters_sum(items@, i as int),
                decreases items@.len() - i,
            {
                let n: u64 = match &items[i] {
                    JsonValue::Number(f) => f.to_u64_saturating(),
                    _ => 0,
                };
                total = total.wrapping_add(n);
                i = i + 1;
            }
            total
        },
        _ => 0,
    }
}

/// Reads a Criterion benchmark from the texts of its `estimates.json`,
/// `benchmark.json` and, where there is one, `sample.json`; `dir_name` is
/// the name of its directory. The files are parsed in that order and the
/// first that is not JSON is reported.
pub fn criterion_result(
    dir_name: String,
    estimates: &str,
    benchmark: &str,
    sample: Option<&str>,
) -> (r: Result<CriterionResult, DiscoveryError>)
    ensures
        match json_of(estimates@) {
            None => (r matches Err(DiscoveryError::Parse(m)) && m@ == "Failed to parse estimates.json"@),
            Some(est) => match json_of(benchmark@) {
                None => (r matches Err(DiscoveryError::Parse(m)) && m@
                    == "Failed to parse benchmark.json"@),
                Some(info) => match sample {
                    Some(t) => match json_of(t@) {
                        None => (r matches Err(DiscoveryError::Parse(m)) && m@
                            == "Failed to parse sample.json"@),
                        Some(smp) => (r matches Ok(c) && c.name == criterion_name(info, dir_name)
                            && c.mean == member(est, "mean"@) && c.median == member(est, "median"@)
                            && c.std_dev == member(est, "std_dev"@) && c.total_iterations
                            == sample_iterations(smp)),
                    },
                    None => (r matches Ok(c) && c.name == criterion_name(info, dir_name) && c.mean
                        == member(est, "mean"@) && c.median == member(est, "median"@) && c.std_dev
                        == member(est, "std_dev"@) && c.total_iterations == 0),
                },
            },
        },
{
    let mut est = match parse_json(estimates) {
        Some(v) => v,
        None => {
            return Err(DiscoveryError::Parse(owned("Failed to parse estimates.json")));
        },
    };
    let mut info = match parse_json(benchmark) {
        Some(v) => v,
        None => {
            return Err(DiscoveryError::Parse(owned("Failed to parse benchmark.json")));
        },
    };
    let total_iterations: u64 = match sample {
        Some(t) => match parse_json(t) {
            Some(s) => {
                let mut s = s;
                let iters = take_member(&mut s, "iters");
                sum_iterations(&iters)
            },
            None => {
                return Err(DiscoveryError::Parse(owned("Failed to parse sample.json")));
            },
        },
        None => 0,
    };
    let name = match take_member(&mut info, "full_id") {
        JsonValue::Str(s) => s,
        _ => dir_name,
    };
    proof {
        reveal_strlit("mean");
        reveal_strlit("median");
        reveal_strlit("std_dev");
        assert("mean"@.len() == 4);
        assert("median"@.len() == 6);
        assert("std_dev"@.len() == 7);
    }
    let mean = take_member(&mut est, "mean");
    let median = take_member(&mut est, "median");
    let std_dev = take_member(&mut est, "std_dev");
    Ok(CriterionResult { name, mean, median, std_dev, total_iterations })
}

} // verus!
