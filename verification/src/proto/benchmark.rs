//! Building and reading benchmark sets.
use vstd::prelude::*;

use super::{
    Benchmark, BenchmarkSet, Language, MetricStatistics, SourceInformation, Timestamp, Toolset,
    ToolsetInformation, Unit,
};
use crate::config::RepositoryRef;
use crate::floatbits::FloatBits;
use crate::text::{eq_str, owned};

verus! {

/// The toolset named by `s`; unknown names are unspecified.
pub open spec fn spec_toolset(s: Seq<char>) -> Toolset {
    if s == "criterion"@ {
        Toolset::Criterion
    } else if s == "divan"@ {
        Toolset::Divan
    } else if s == "jmh"@ {
        Toolset::Jmh
    } else if s == "google_benchmark"@ {
        Toolset::GoogleBenchmark
    } else if s == "benchmarkdotnet"@ {
        Toolset::BenchmarkDotnet
    } else if s == "go_test"@ {
        Toolset::GoTest
    } else if s == "pytest_benchmark"@ {
        Toolset::PytestBenchmark
    } else if s == "pyperf"@ {
        Toolset::Pyperf
    } else if s == "vitest_bench"@ {
        Toolset::VitestBench
    } else if s == "benchmark_js"@ {
        Toolset::BenchmarkJs
    } else if s == "catch2"@ {
        Toolset::Catch2
    } else {
        Toolset::Unspecified
    }
}

/// Maps a toolset name to its enumeration value.
pub fn toolset_enum(s: &str) -> (t: Toolset)
    ensures
        t == spec_toolset(s@),
{
    if eq_str(s, "criterion") {
        Toolset::Criterion
    } else if eq_str(s, "divan") {
        Toolset::Divan
    } else if eq_str(s, "jmh") {
        Toolset::Jmh
    } else if eq_str(s, "google_benchmark") {
        Toolset::GoogleBenchmark
    } else if eq_str(s, "benchmarkdotnet") {
        Toolset::BenchmarkDotnet
    } else if eq_str(s, "go_test") {
        Toolset::GoTest
    } else if eq_str(s, "pytest_benchmark") {
        Toolset::PytestBenchmark
    } else if eq_str(s, "pyperf") {
        Toolset::Pyperf
    } else if eq_str(s, "vitest_bench") {
        Toolset::VitestBench
    } else if eq_str(s, "benchmark_js") {
        Toolset::BenchmarkJs
    } else if eq_str(s, "catch2") {
        Toolset::Catch2
    } else {
        Toolset::Unspecified
    }
}

/// The language named by `s`; unknown names are unspecified.
pub open spec fn spec_language(s: Seq<char>) -> Language {
    if s == "rust"@ {
        Language::Rust
    } else if s == "go"@ {
        Language::Go
    } else if s == "java"@ {
        Language::Java
    } else if s == "kotlin"@ {
        Language::Kotlin
    } else if s == "csharp"@ {
        Language::Csharp
    } else if s == "fsharp"@ {
        Language::Fsharp
    } else if s == "cpp"@ {
        Language::Cpp
    } else if s == "c"@ {
        Language::C
    } else if s == "python"@ {
        Language::Python
    } else if s == "javascript"@ {
        Language::Javascript
    } else if s == "typescript"@ {
        Language::Typescript
    } else {
        Language::Unspecified
    }
}

/// Maps a language name to its enumeration value.
pub fn language_enum(s: &str) -> (l: Language)
    ensures
        l == spec_language(s@),
{
    if eq_str(s, "rust") {
        Language::Rust
    } else if eq_str(s, "go") {
        Language::Go
    } else if eq_str(s, "java") {
        Language::Java
    } else if eq_str(s, "kotlin") {
        Language::Kotlin
    } else if eq_str(s, "csharp") {
        Language::Csharp
    } else if eq_str(s, "fsharp") {
        Language::Fsharp
    } else if eq_str(s, "cpp") {
        Language::Cpp
    } else if eq_str(s, "c") {
        Language::C
    } else if eq_str(s, "python") {
        Language::Python
    } else if eq_str(s, "javascript") {
        Language::Javascript
    } else if eq_str(s, "typescript") {
        Language::Typescript
    } else {
        Language::Unspecified
    }
}

/// Protobuf number of a toolset.
pub open spec fn spec_toolset_code(t: Toolset) -> i32 {
    match t {
        Toolset::Unspecified => 0,
        Toolset::Criterion => 1,
        Toolset::Divan => 2,
        Toolset::Jmh => 3,
        Toolset::GoogleBenchmark => 4,
        Toolset::BenchmarkDotnet => 5,
        Toolset::GoTest => 6,
        Toolset::PytestBenchmark => 7,
        Toolset::Pyperf => 8,
        Toolset::VitestBench => 9,
        Toolset::BenchmarkJs => 10,
        Toolset::Catch2 => 11,
    }
}

pub fn toolset_code(t: Toolset) -> (c: i32)
    ensures
        c == spec_toolset_code(t),
{
    match t {
        Toolset::Unspecified => 0,
        Toolset::Criterion => 1,
        Toolset::Divan => 2,
        Toolset::Jmh => 3,
        Toolset::GoogleBenchmark => 4,
        Toolset::BenchmarkDotnet => 5,
        Toolset::GoTest => 6,
        Toolset::PytestBenchmark => 7,
        Toolset::Pyperf => 8,
        Toolset::VitestBench => 9,
        Toolset::BenchmarkJs => 10,
        Toolset::Catch2 => 11,
    }
}

/// Protobuf number of a language.
pub open spec fn spec_language_code(l: Language) -> i32 {
    match l {
        Language::Unspecified => 0,
        Language::Rust => 1,
        Language::Go => 2,
        Language::Java => 3,
        Language::Kotlin => 4,
        Language::Csharp => 5,
        Language::Fsharp => 6,
        Language::Cpp => 7,
        Language::C => 8,
        Language::Python => 9,
        Language::Javascript => 10,
        Language::Typescript => 11,
    }
}

pub fn language_code(l: Language) -> (c: i32)
    ensures
        c == spec_language_code(l),
{
    match l {
        Language::Unspecified => 0,
        Language::Rust => 1,
        Language::Go => 2,
        Language::Java => 3,
        Language::Kotlin => 4,
        Language::Csharp => 5,
        Language::Fsharp => 6,
        Language::Cpp => 7,
        Language::C => 8,
        Language::Python => 9,
        Language::Javascript => 10,
        Language::Typescript => 11,
    }
}

/// The unit with protobuf number `code`; unknown numbers are unspecified.
pub open spec fn spec_unit_from_code(code: i32) -> Unit {
    if code == 1 {
        Unit::Nanoseconds
    } else if code == 2 {
        Unit::Microseconds
    } else if code == 3 {
        Unit::Milliseconds
    } else if code == 4 {
        Unit::Seconds
    } else if code == 5 {
        Unit::Bytes
    } else if code == 6 {
        Unit::AllocationCount
    } else if code == 7 {
        Unit::CacheMisses
    } else if code == 8 {
        Unit::BranchMisses
    } else if code == 9 {
        Unit::Instructions
    } else if code == 10 {
        Unit::Cycles
    } else if code == 11 {
        Unit::PageFaults
    } else if code == 12 {
        Unit::CountPerSecond
    } else if code == 13 {
        Unit::BitsPerSecond
    } else if code == 14 {
        Unit::Ratio
    } else if code == 15 {
        Unit::Dimensionless
    } else {
        Unit::Unspecified
    }
}

/// Decodes a unit's protobuf number.
pub fn unit_from_code(code: i32) -> (u: Unit)
    ensures
        u == spec_unit_from_code(code),
{
    if code == 1 {
        Unit::Nanoseconds
    } else if code == 2 {
        Unit::Microseconds
    } else if code == 3 {
        Unit::Milliseconds
    } else if code == 4 {
        Unit::Seconds
    } else if code == 5 {
        Unit::Bytes
    } else if code == 6 {
        Unit::AllocationCount
    } else if code == 7 {
        Unit::CacheMisses
    } else if code == 8 {
        Unit::BranchMisses
    } else if code == 9 {
        Unit::Instructions
    } else if code == 10 {
        Unit::Cycles
    } else if code == 11 {
        Unit::PageFaults
    } else if code == 12 {
        Unit::CountPerSecond
    } else if code == 13 {
        Unit::BitsPerSecond
    } else if code == 14 {
        Unit::Ratio
    } else if code == 15 {
        Unit::Dimensionless
    } else {
        Unit::Unspecified
    }
}

/// Protobuf number of the nanosecond unit.
pub open spec fn spec_nanoseconds_code() -> i32 {
    1
}

/// Statistics with every summary value present, no percentiles, and an
/// optional sample count.
pub fn metric_statistics(
    mean: FloatBits,
    median: FloatBits,
    stddev: FloatBits,
    min: FloatBits,
    max: FloatBits,
    sample_count: Option<u64>,
) -> (s: MetricStatistics)
    ensures
        s == (MetricStatistics {
            mean: Some(mean),
            median: Some(median),
            stddev: Some(stddev),
            min: Some(min),
            max: Some(max),
            sample_count,
            p50: None,
            p90: None,
            p95: None,
            p99: None,
        }),
{
    MetricStatistics {
        mean: Some(mean),
        median: Some(median),
        stddev: Some(stddev),
        min: Some(min),
        max: Some(max),
        sample_count,
        p50: None,
        p90: None,
        p95: None,
        p99: None,
    }
}

/// A benchmark without parameters carrying `statistics`.
pub fn benchmark_record(name: String, statistics: MetricStatistics) -> (b: Benchmark)
    ensures
        b.name == name,
        b.parameters@.len() == 0,
        b.statistics == Some(statistics),
{
    Benchmark { name, parameters: Vec::new(), statistics: Some(statistics) }
}

/// A wall-time benchmark set in nanoseconds, measured at `commit_sha` of
/// `repository`, with the given toolset and language names.
pub fn benchmark_set(
    repository: &RepositoryRef,
    commit_sha: &str,
    branch: Option<String>,
    run_uuid: String,
    run_started_at: Timestamp,
    language: &str,
    toolset: &str,
    benchmarks: Vec<Benchmark>,
) -> (set: BenchmarkSet)
    ensures
        set.run_uuid == run_uuid,
        set.source matches Some(src) && src.forge == repository.forge && src.owner
            == repository.owner && src.repository == repository.repository && src.commit_sha@
            == commit_sha@ && src.branch == branch && src.tag is None && !src.dirty,
        set.toolset matches Some(t) && t.language == spec_language_code(spec_language(language@))
            && t.toolset == spec_toolset_code(spec_toolset(toolset@)) && t.language_other is None
            && t.language_version is None && t.toolset_other is None && t.toolset_version is None,
        set.metric_name@ == "wall_time"@,
        set.unit == spec_nanoseconds_code(),
        set.benchmarks == benchmarks,
        set.labels@.len() == 0,
        set.run_started_at == Some(run_started_at),
{
    BenchmarkSet {
        run_uuid,
        source: Some(
            SourceInformation {
                forge: repository.forge.clone(),
                owner: repository.owner.clone(),
                repository: repository.repository.clone(),
                commit_sha: owned(commit_sha),
                branch,
                tag: None,
                dirty: false,
            },
        ),
        toolset: Some(
            ToolsetInformation {
                language: language_code(language_enum(language)),
                language_other: None,
                language_version: None,
                toolset: toolset_code(toolset_enum(toolset)),
                toolset_other: None,
                toolset_version: None,
            },
        ),
        metric_name: owned("wall_time"),
        unit: 1,
        benchmarks,
        labels: Vec::new(),
        run_started_at: Some(run_started_at),
    }
}

/// The benchmark's mean, if it has one.
pub fn statistic_mean_ns(benchmark: &Benchmark) -> (m: Option<FloatBits>)
    ensures
        m == (match benchmark.statistics {
            Some(s) => s.mean,
            None => None,
        }),
{
    match &benchmark.statistics {
        Some(s) => s.mean,
        None => None,
    }
}

/// The benchmark's median, zero when absent.
pub fn statistic_median_ns(benchmark: &Benchmark) -> (m: FloatBits)
    ensures
        m == (match benchmark.statistics {
            Some(s) => match s.median {
                Some(v) => v,
                None => FloatBits { bits: 0 },
            },
            None => FloatBits { bits: 0 },
        }),
{
    match &benchmark.statistics {
        Some(s) => match s.median {
            Some(v) => v,
            None => FloatBits::zero(),
        },
        None => FloatBits::zero(),
    }
}

/// The benchmark's standard deviation, zero when absent.
pub fn statistic_stddev_ns(benchmark: &Benchmark) -> (m: FloatBits)
    ensures
        m == (match benchmark.statistics {
            Some(s) => match s.stddev {
                Some(v) => v,
                None => FloatBits { bits: 0 },
            },
            None => FloatBits { bits: 0 },
        }),
{
    match &benchmark.statistics {
        Some(s) => match s.stddev {
            Some(v) => v,
            None => FloatBits::zero(),
        },
        None => FloatBits::zero(),
    }
}

/// Milliseconds since the epoch; the nanosecond part is truncated toward
/// zero.
pub open spec fn spec_timestamp_millis(ts: Timestamp) -> int {
    ts.seconds * 1000 + if ts.nanos >= 0 {
        ts.nanos / 1_000_000
    } else {
        -((-ts.nanos) / 1_000_000)
    }
}

/// Converts a timestamp to milliseconds since the epoch.
pub fn timestamp_to_millis(ts: &Timestamp) -> (ms: i64)
    requires
        i64::MIN <= spec_timestamp_millis(*ts) <= i64::MAX,
        i64::MIN <= ts.seconds * 1000 <= i64::MAX,
    ensures
        ms == spec_timestamp_millis(*ts),
{
    let n = ts.nanos as i64;
    let part: i64 = if n >= 0 {
        n / 1_000_000
    } else {
        let m: i64 = -n;
        -(m / 1_000_000)
    };
    ts.seconds * 1000 + part
}

} // verus!
