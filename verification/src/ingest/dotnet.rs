//! BenchmarkDotNet full JSON reports.
use vstd::prelude::*;

use crate::floatbits::FloatBits;
use crate::proto::benchmark::{benchmark_record, metric_statistics};
use crate::proto::{Benchmark, MetricStatistics};
use crate::text::{eq_str, push_all};

verus! {

/// The statistics of one BenchmarkDotNet benchmark, in nanoseconds.
#[derive(Debug, Clone, Copy)]
pub struct DotNetStatistics {
    pub mean: FloatBits,
    pub median: FloatBits,
    /// Zero when the report has none.
    pub std_dev: FloatBits,
    pub min: FloatBits,
    pub max: FloatBits,
    /// Zero when the report has none.
    pub n: u64,
}

/// One benchmark of a BenchmarkDotNet report.
#[derive(Debug)]
pub struct DotNetBenchmark {
    pub method: String,
    pub display_info: Option<String>,
    pub class_name: String,
    /// The parameter bindings as text, empty when there are none.
    pub parameters: String,
    pub statistics: DotNetStatistics,
}

/// A benchmark's name: its display information, else `Type.Method`,
/// followed by `: ` and the parameters when there are any.
pub open spec fn spec_construct_name(b: DotNetBenchmark) -> Seq<char> {
    let base = match b.display_info {
        Some(d) => d@,
        None => b.class_name@ + "."@ + b.method@,
    };
    if b.parameters@.len() == 0 {
        base
    } else {
        base + ": "@ + b.parameters@
    }
}

/// The name a BenchmarkDotNet benchmark is recorded under.
pub fn construct_name(benchmark: &DotNetBenchmark) -> (r: String)
    ensures
        r@ == spec_construct_name(*benchmark),
{
    let mut name = match &benchmark.display_info {
        Some(d) => d.clone(),
        None => {
            let mut n = benchmark.class_name.clone();
            push_all(&mut n, ".");
            push_all(&mut n, &benchmark.method);
            n
        },
    };
    proof {
        reveal_strlit("");
        assert(benchmark.parameters@.len() == 0 ==> benchmark.parameters@ =~= ""@);
    }
    if !eq_str(&benchmark.parameters, "") {
        push_all(&mut name, ": ");
        push_all(&mut name, &benchmark.parameters);
    }
    name
}

/// The statistics recorded for a BenchmarkDotNet benchmark, with its
/// sample count.
pub open spec fn dotnet_statistics(s: DotNetStatistics) -> MetricStatistics {
    MetricStatistics {
        mean: Some(s.mean),
        median: Some(s.median),
        stddev: Some(s.std_dev),
        min: Some(s.min),
        max: Some(s.max),
        sample_count: Some(s.n),
        p50: None,
        p90: None,
        p95: None,
        p99: None,
    }
}

/// One benchmark record per report entry, in order, named by
/// [`construct_name`].
pub fn dotnet_benchmarks(report: &[DotNetBenchmark]) -> (r: Vec<Benchmark>)
    ensures
        r@.len() == report@.len(),
        forall|i: int|
            0 <= i < r@.len() ==> (#[trigger] r@[i]).name@ == spec_construct_name(report@[i])
                && r@[i].parameters@.len() == 0 && r@[i].statistics == Some(
                dotnet_statistics(report@[i].statistics),
            ),
{
    let mut r: Vec<Benchmark> = Vec::new();
    let mut i: usize = 0;
    while i < report.len()
        invariant
            i <= report@.len(),
            r@.len() == i,
            forall|k: int|
                0 <= k < i ==> (#[trigger] r@[k]).name@ == spec_construct_name(report@[k])
                    && r@[k].parameters@.len() == 0 && r@[k].statistics == Some(
                    dotnet_statistics(report@[k].statistics),
                ),
        decreases report@.len() - i,
    {
        let b = &report[i];
        let s = b.statistics;
        let stats = metric_statistics(s.mean, s.median, s.std_dev, s.min, s.max, Some(s.n));
        r.push(benchmark_record(construct_name(b), stats));
        i = i + 1;
    }
    r
}

} // verus!
