//! The wire model of benchmark results: sets of benchmarks with their
//! statistics, the source they were measured at and the toolset that
//! produced them.
//!
//! Enumerations are exchanged as their protobuf numbers; the numbering
//! here follows declaration order, with 0 for the unspecified value.
use vstd::prelude::*;

use crate::floatbits::FloatBits;

pub mod benchmark;

verus! {

/// A point in time: seconds since the Unix epoch plus nanoseconds.
#[derive(Debug, Clone, Copy, PartialEq, Eq, Structural)]
pub struct Timestamp {
    pub seconds: i64,
    pub nanos: i32,
}

/// Benchmark harnesses that produce results.
#[derive(Debug, Clone, Copy, PartialEq, Eq, Structural)]
pub enum Toolset {
    Unspecified,
    Criterion,
    Divan,
    Jmh,
    GoogleBenchmark,
    BenchmarkDotnet,
    GoTest,
    PytestBenchmark,
    Pyperf,
    VitestBench,
    BenchmarkJs,
    Catch2,
}

/// Languages of benchmarked code.
#[derive(Debug, Clone, Copy, PartialEq, Eq, Structural)]
pub enum Language {
    Unspecified,
    Rust,
    Go,
    Java,
    Kotlin,
    Csharp,
    Fsharp,
    Cpp,
    C,
    Python,
    Javascript,
    Typescript,
}

/// Units of a measured metric.
#[derive(Debug, Clone, Copy, PartialEq, Eq, Structural)]
pub enum Unit {
    Unspecified,
    Nanoseconds,
    Microseconds,
    Milliseconds,
    Seconds,
    Bytes,
    AllocationCount,
    CacheMisses,
    BranchMisses,
    Instructions,
    Cycles,
    PageFaults,
    CountPerSecond,
    BitsPerSecond,
    Ratio,
    Dimensionless,
}

/// Verdict of a comparison as the service reports it.
#[derive(Debug, Clone, Copy, PartialEq, Eq, Structural)]
pub enum ProtoVerdict {
    Unspecified,
    Regressed,
    Improved,
    Unchanged,
}

/// Repository identity as the service addresses it.
#[derive(Debug)]
pub struct RepositoryReference {
    pub forge: String,
    pub owner: String,
    pub repository: String,
}

/// Where a benchmark set was measured.
#[derive(Debug)]
pub struct SourceInformation {
    pub forge: String,
    pub owner: String,
    pub repository: String,
    pub commit_sha: String,
    pub branch: Option<String>,
    pub tag: Option<String>,
    pub dirty: bool,
}

/// Which toolset and language produced a benchmark set, as protobuf
/// numbers.
#[derive(Debug)]
pub struct ToolsetInformation {
    pub language: i32,
    pub language_other: Option<String>,
    pub language_version: Option<String>,
    pub toolset: i32,
    pub toolset_other: Option<String>,
    pub toolset_version: Option<String>,
}

/// Summary statistics of one benchmark's measurements.
#[derive(Debug, Clone, Copy, PartialEq, Eq, Structural)]
pub struct MetricStatistics {
    pub mean: Option<FloatBits>,
    pub median: Option<FloatBits>,
    pub stddev: Option<FloatBits>,
    pub min: Option<FloatBits>,
    pub max: Option<FloatBits>,
    pub sample_count: Option<u64>,
    pub p50: Option<FloatBits>,
    pub p90: Option<FloatBits>,
    pub p95: Option<FloatBits>,
    pub p99: Option<FloatBits>,
}

/// The value bound to one benchmark parameter.
#[derive(Debug)]
pub enum ParameterValue {
    IntValue(i64),
    DoubleValue(FloatBits),
    BoolValue(bool),
    StringValue(String),
}

/// One benchmark's result.
#[derive(Debug)]
pub struct Benchmark {
    pub name: String,
    /// Parameter bindings by name; a binding may carry no value.
    pub parameters: Vec<(String, Option<ParameterValue>)>,
    pub statistics: Option<MetricStatistics>,
}

/// The results of one run of one toolset for one metric.
#[derive(Debug)]
pub struct BenchmarkSet {
    pub run_uuid: String,
    pub source: Option<SourceInformation>,
    pub toolset: Option<ToolsetInformation>,
    pub metric_name: String,
    /// The unit, as its protobuf number.
    pub unit: i32,
    pub benchmarks: Vec<Benchmark>,
    pub labels: Vec<(String, String)>,
    pub run_started_at: Option<Timestamp>,
}

/// One point of a benchmark's trend as the service reports it.
#[derive(Debug)]
pub struct TrendPoint {
    pub commit_sha: String,
    pub timestamp: Option<Timestamp>,
    pub statistics: Option<MetricStatistics>,
}

/// A benchmark's trend: its points, newest first.
#[derive(Debug)]
pub struct BenchmarkTrend {
    pub benchmark_name: String,
    pub points: Vec<TrendPoint>,
}

/// A series key as the service reports it.
#[derive(Debug)]
pub struct ProtoSeriesKey {
    pub benchmark_name: String,
    pub metric_name: String,
    pub parameters_json: String,
    pub branch: String,
}

/// A series compared at both commits; units and verdicts as protobuf
/// numbers.
#[derive(Debug)]
pub struct ComparedDelta {
    pub unit: i32,
    pub base_mean: FloatBits,
    pub head_mean: FloatBits,
    pub diff: FloatBits,
    pub diff_pct: Option<FloatBits>,
    pub verdict: i32,
}

/// A series' mean at one commit.
#[derive(Debug)]
pub struct SeriesPoint {
    pub unit: i32,
    pub mean: FloatBits,
}

/// The outcome of one series as the service reports it.
#[derive(Debug)]
pub enum ProtoOutcome {
    Compared(ComparedDelta),
    Added(SeriesPoint),
    Removed(SeriesPoint),
    Incomparable { base_unit: i32, head_unit: i32 },
    Invalid { reason: String },
}

/// One series of a comparison response.
#[derive(Debug)]
pub struct BenchmarkComparison {
    pub key: Option<ProtoSeriesKey>,
    pub outcome: Option<ProtoOutcome>,
}

/// The headline counts of a comparison response.
#[derive(Debug)]
pub struct ComparisonSummary {
    pub regressed: u32,
    pub improved: u32,
    pub unchanged: u32,
    pub added: u32,
    pub removed: u32,
    pub unassessable: u32,
    pub threshold_pct: FloatBits,
    pub has_regressions: bool,
}

/// The service's answer to a comparison of two commits.
#[derive(Debug)]
pub struct CompareCommitsResponse {
    pub comparisons: Vec<BenchmarkComparison>,
    pub summary: Option<ComparisonSummary>,
}

} // verus!
