//! Turning benchmark harness output into benchmark sets.
//!
//! The caller decodes each harness's JSON into the plain reports of the
//! submodules and does the floating-point arithmetic (unit scaling and
//! summary statistics). Which format a file is, how results are named,
//! grouped and assembled into sets is decided here.
use vstd::prelude::*;

use crate::config::RepositoryRef;
use crate::proto::benchmark::benchmark_set;
use crate::proto::{Benchmark, BenchmarkSet, Timestamp};
use crate::text::owned;

pub mod dotnet;
pub mod google;
pub mod jmh;

verus! {

/// The scale a reported time is converted to nanoseconds with.
#[derive(Debug, Clone, Copy, PartialEq, Eq, Structural)]
pub enum TimeScale {
    /// Already in nanoseconds; also any unit not recognised.
    Nanoseconds,
    Microseconds,
    Milliseconds,
    Seconds,
}

/// Why results could not be ingested.
#[derive(Debug)]
pub enum IngestError {
    /// The text could not be decoded; the decoder's message.
    Parse(String),
    /// No parser exists for the format, or no parser accepts the text.
    UnknownFormat,
}

/// The harness output formats.
#[derive(Debug, Clone, Copy, PartialEq, Eq, Structural)]
pub enum ResultFormat {
    Criterion,
    Jmh,
    BenchmarkDotNet,
    GoogleBenchmark,
}

impl ResultFormat {
    /// The format's name.
    pub open spec fn spec_name(self) -> Seq<char> {
        match self {
            ResultFormat::Criterion => "criterion"@,
            ResultFormat::Jmh => "jmh"@,
            ResultFormat::BenchmarkDotNet => "benchmarkdotnet"@,
            ResultFormat::GoogleBenchmark => "google_benchmark"@,
        }
    }

    /// The language of the benchmarks a format comes from.
    pub open spec fn spec_language(self) -> Seq<char> {
        match self {
            ResultFormat::Criterion => "rust"@,
            ResultFormat::Jmh => "java"@,
            ResultFormat::BenchmarkDotNet => "csharp"@,
            ResultFormat::GoogleBenchmark => "cpp"@,
        }
    }

    /// The format's name, which is also its toolset's.
    pub fn name(&self) -> (r: &'static str)
        ensures
            r@ == self.spec_name(),
    {
        match self {
            ResultFormat::Criterion => "criterion",
            ResultFormat::Jmh => "jmh",
            ResultFormat::BenchmarkDotNet => "benchmarkdotnet",
            ResultFormat::GoogleBenchmark => "google_benchmark",
        }
    }

    /// The language of the format's benchmarks.
    pub fn language(&self) -> (r: &'static str)
        ensures
            r@ == self.spec_language(),
    {
        match self {
            ResultFormat::Criterion => "rust",
            ResultFormat::Jmh => "java",
            ResultFormat::BenchmarkDotNet => "csharp",
            ResultFormat::GoogleBenchmark => "cpp",
        }
    }
}

/// The format named `format`, if a parser exists for it.
pub open spec fn spec_format_named(format: Seq<char>) -> Option<ResultFormat> {
    if format == "criterion"@ {
        Some(ResultFormat::Criterion)
    } else if format == "jmh"@ {
        Some(ResultFormat::Jmh)
    } else if format == "benchmarkdotnet"@ {
        Some(ResultFormat::BenchmarkDotNet)
    } else if format == "google_benchmark"@ {
        Some(ResultFormat::GoogleBenchmark)
    } else {
        None
    }
}

/// The parser for the format named `format`; an unknown name is an error.
pub fn get_parser(format: &str) -> (r: Result<ResultFormat, IngestError>)
    ensures
        match spec_format_named(format@) {
            Some(f) => r == Ok::<ResultFormat, IngestError>(f),
            None => r matches Err(IngestError::UnknownFormat),
        },
{
    if crate::text::eq_str(format, "criterion") {
        Ok(ResultFormat::Criterion)
    } else if crate::text::eq_str(format, "jmh") {
        Ok(ResultFormat::Jmh)
    } else if crate::text::eq_str(format, "benchmarkdotnet") {
        Ok(ResultFormat::BenchmarkDotNet)
    } else if crate::text::eq_str(format, "google_benchmark") {
        Ok(ResultFormat::GoogleBenchmark)
    } else {
        Err(IngestError::UnknownFormat)
    }
}

/// The format of a result file from which parsers accept it, tried from
/// the most specific to the least: BenchmarkDotNet, Google Benchmark, JMH,
/// Criterion. None accepting it is an error.
pub fn detect_format(
    benchmarkdotnet_accepts: bool,
    google_benchmark_accepts: bool,
    jmh_accepts: bool,
    criterion_accepts: bool,
) -> (r: Result<String, IngestError>)
    ensures
        benchmarkdotnet_accepts ==> (r matches Ok(s) && s@ == "benchmarkdotnet"@),
        !benchmarkdotnet_accepts && google_benchmark_accepts ==> (r matches Ok(s) && s@
            == "google_benchmark"@),
        !benchmarkdotnet_accepts && !google_benchmark_accepts && jmh_accepts ==> (r matches Ok(s)
            && s@ == "jmh"@),
        !benchmarkdotnet_accepts && !google_benchmark_accepts && !jmh_accepts && criterion_accepts
            ==> (r matches Ok(s) && s@ == "criterion"@),
        !benchmarkdotnet_accepts && !google_benchmark_accepts && !jmh_accepts
            && !criterion_accepts ==> (r matches Err(IngestError::UnknownFormat)),
{
    if benchmarkdotnet_accepts {
        Ok(owned("benchmarkdotnet"))
    } else if google_benchmark_accepts {
        Ok(owned("google_benchmark"))
    } else if jmh_accepts {
        Ok(owned("jmh"))
    } else if criterion_accepts {
        Ok(owned("criterion"))
    } else {
        Err(IngestError::UnknownFormat)
    }
}

/// The placeholder repository parsers are built with when they only test
/// whether they accept a text.
pub fn dummy_repository() -> (r: RepositoryRef)
    ensures
        r.forge@ == "dummy"@,
        r.owner@ == "dummy"@,
        r.repository@ == "dummy"@,
{
    RepositoryRef { forge: owned("dummy"), owner: owned("dummy"), repository: owned("dummy") }
}

/// Where and when the results being ingested were produced.
#[derive(Debug)]
pub struct RunContext {
    pub repository: RepositoryRef,
    pub commit_sha: String,
    pub branch: Option<String>,
    pub run_uuid: String,
    pub run_started_at: Timestamp,
}

/// The protobuf toolset number of the sets ingested from `format`:
/// Criterion 1, JMH 3, Google Benchmark 4, BenchmarkDotNet 5.
pub open spec fn ingested_toolset_number(format: ResultFormat) -> i32 {
    match format {
        ResultFormat::Criterion => 1,
        ResultFormat::Jmh => 3,
        ResultFormat::GoogleBenchmark => 4,
        ResultFormat::BenchmarkDotNet => 5,
    }
}

/// The protobuf language number of the sets ingested from `format`:
/// Rust 1, Java 3, C# 5, C++ 7.
pub open spec fn ingested_language_number(format: ResultFormat) -> i32 {
    match format {
        ResultFormat::Criterion => 1,
        ResultFormat::Jmh => 3,
        ResultFormat::BenchmarkDotNet => 5,
        ResultFormat::GoogleBenchmark => 7,
    }
}

/// An ingested set records the toolset and language of the format it was
/// parsed from: each format's name maps to its own protobuf toolset number
/// and its language to its own language number.
pub proof fn lemma_ingested_toolset_names_format(format: ResultFormat)
    ensures
        crate::proto::benchmark::spec_toolset_code(
            crate::proto::benchmark::spec_toolset(format.spec_name()),
        ) == ingested_toolset_number(format),
        crate::proto::benchmark::spec_language_code(
            crate::proto::benchmark::spec_language(format.spec_language()),
        ) == ingested_language_number(format),
{
    reveal_strlit("criterion");
    reveal_strlit("divan");
    reveal_strlit("jmh");
    reveal_strlit("google_benchmark");
    reveal_strlit("benchmarkdotnet");
    reveal_strlit("rust");
    reveal_strlit("go");
    reveal_strlit("java");
    reveal_strlit("kotlin");
    reveal_strlit("csharp");
    reveal_strlit("fsharp");
    reveal_strlit("cpp");
    assert("criterion"@.len() == 9);
    assert("divan"@.len() == 5);
    assert("jmh"@.len() == 3);
    assert("google_benchmark"@.len() == 16);
    assert("benchmarkdotnet"@.len() == 15);
    assert("rust"@.len() == 4);
    assert("go"@.len() == 2);
    assert("java"@.len() == 4);
    assert("kotlin"@.len() == 6);
    assert("csharp"@.len() == 6);
    assert("fsharp"@.len() == 6);
    assert("cpp"@.len() == 3);
    assert("java"@[0] != "rust"@[0]);
    assert("csharp"@[0] != "kotlin"@[0]);
}

/// The sets a parser yields for its benchmarks: none when there are none
/// (a Criterion file always yields its one set), otherwise one set of the
/// format's language and toolset stamped with the run's context.
pub fn parsed_sets(ctx: &RunContext, format: ResultFormat, benchmarks: Vec<Benchmark>) -> (r: Vec<
    BenchmarkSet,
>)
    ensures
        benchmarks@.len() == 0 && format != ResultFormat::Criterion ==> r@.len() == 0,
        benchmarks@.len() > 0 || format == ResultFormat::Criterion ==> {
            &&& r@.len() == 1
            &&& r@[0].benchmarks == benchmarks
            &&& r@[0].run_uuid == ctx.run_uuid
            &&& r@[0].run_started_at == Some(ctx.run_started_at)
            &&& r@[0].source matches Some(src) && src.forge == ctx.repository.forge && src.owner
                == ctx.repository.owner && src.repository == ctx.repository.repository
                && src.commit_sha@ == ctx.commit_sha@ && src.branch == ctx.branch
            &&& r@[0].toolset matches Some(t) && t.language
                == crate::proto::benchmark::spec_language_code(
                crate::proto::benchmark::spec_language(format.spec_language()),
            ) && t.toolset == crate::proto::benchmark::spec_toolset_code(
                crate::proto::benchmark::spec_toolset(format.spec_name()),
            ) && t.toolset == ingested_toolset_number(format) && t.language
                == ingested_language_number(format)
        },
{
    proof {
        lemma_ingested_toolset_names_format(format);
    }
    if benchmarks.len() == 0 && format != ResultFormat::Criterion {
        return Vec::new();
    }
    let set = benchmark_set(
        &ctx.repository,
        &ctx.commit_sha,
        ctx.branch.clone(),
        ctx.run_uuid.clone(),
        ctx.run_started_at,
        format.language(),
        format.name(),
        benchmarks,
    );
    vec![set]
}

/// The short name of a time scale: `ns`, `us`, `ms`, `s`.
pub open spec fn scale_unit(t: TimeScale) -> Seq<char> {
    match t {
        TimeScale::Nanoseconds => "ns"@,
        TimeScale::Microseconds => "us"@,
        TimeScale::Milliseconds => "ms"@,
        TimeScale::Seconds => "s"@,
    }
}

/// The Google Benchmark and JMH readers agree on time units: a Google
/// Benchmark time in `u` and a JMH score in `u/op` are read at the scale
/// named `u`, for each of `ns`, `us`, `ms` and `s`.
pub proof fn lemma_time_scales_agree(t: TimeScale)
    ensures
        google::spec_google_scale(scale_unit(t)) == t,
        jmh::spec_jmh_scale(scale_unit(t) + "/op"@) == t,
{
    reveal_strlit("ns");
    assert("ns"@.len() == 2);
    reveal_strlit("us");
    assert("us"@.len() == 2);
    reveal_strlit("ms");
    assert("ms"@.len() == 2);
    reveal_strlit("s");
    assert("s"@.len() == 1);
    reveal_strlit("ns/op");
    assert("ns/op"@.len() == 5);
    reveal_strlit("us/op");
    assert("us/op"@.len() == 5);
    reveal_strlit("ms/op");
    assert("ms/op"@.len() == 5);
    reveal_strlit("s/op");
    assert("s/op"@.len() == 4);
    reveal_strlit("/op");
    assert("ns"@ + "/op"@ =~= "ns/op"@);
    assert("us"@ + "/op"@ =~= "us/op"@);
    assert("ms"@ + "/op"@ =~= "ms/op"@);
    assert("s"@ + "/op"@ =~= "s/op"@);
    assert("us"@[0] != "ms"@[0]);
    assert("us/op"@[0] != "ms/op"@[0]);
}

} // verus!
