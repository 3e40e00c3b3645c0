use rafn::config::RepositoryRef;
use rafn::floatbits::FloatBits;
use rafn::ingest::dotnet::{construct_name, dotnet_benchmarks, DotNetBenchmark, DotNetStatistics};
use rafn::ingest::google::{google_time_scale, group_iterations, GBenchEntry};
use rafn::ingest::jmh::{find_percentile, jmh_time_scale};
use rafn::ingest::{
    detect_format, dummy_repository, get_parser, parsed_sets, IngestError, ResultFormat, RunContext,
    TimeScale,
};
use rafn::proto::benchmark::{benchmark_record, metric_statistics};
use rafn::proto::{Benchmark, BenchmarkSet, Timestamp};

fn fb(x: f64) -> FloatBits {
    FloatBits::from_bits(x.to_bits())
}

fn val(b: Option<FloatBits>) -> f64 {
    f64::from_bits(b.unwrap().bits)
}

fn test_repository() -> RepositoryRef {
    RepositoryRef {
        forge: "github.com".to_string(),
        owner: "test".to_string(),
        repository: "repo".to_string(),
    }
}

fn context() -> RunContext {
    RunContext {
        repository: test_repository(),
        commit_sha: "abc123".to_string(),
        branch: None,
        run_uuid: "run-1".to_string(),
        run_started_at: Timestamp { seconds: 0, nanos: 0 },
    }
}

fn stats(mean: f64, median: f64, std_dev: f64, min: f64, max: f64, n: u64) -> DotNetStatistics {
    DotNetStatistics { mean: fb(mean), median: fb(median), std_dev: fb(std_dev), min: fb(min), max: fb(max), n }
}

fn dotnet(method: &str, display: Option<&str>, class: &str, parameters: &str, s: DotNetStatistics) -> DotNetBenchmark {
    DotNetBenchmark {
        method: method.to_string(),
        display_info: display.map(str::to_string),
        class_name: class.to_string(),
        parameters: parameters.to_string(),
        statistics: s,
    }
}

fn parse_dotnet(report: &[DotNetBenchmark]) -> Vec<BenchmarkSet> {
    parsed_sets(&context(), ResultFormat::BenchmarkDotNet, dotnet_benchmarks(report))
}

#[test]
fn benchmarkdotnet_test_single_benchmark() {
    let report = vec![dotnet(
        "TestMethod",
        None,
        "MyNamespace.MyClass",
        "",
        stats(1234.5, 1230.0, 50.0, 1100.0, 1400.0, 100),
    )];
    let sets = parse_dotnet(&report);
    assert_eq!(sets.len(), 1);

    let b = &sets[0].benchmarks[0];
    assert_eq!(b.name, "MyNamespace.MyClass.TestMethod");
    let stats = b.statistics.as_ref().unwrap();
    assert!((val(stats.mean) - 1234.5).abs() < f64::EPSILON);
    assert!((val(stats.median) - 1230.0).abs() < f64::EPSILON);
    assert!((val(stats.stddev) - 50.0).abs() < f64::EPSILON);
    assert!((val(stats.min) - 1100.0).abs() < f64::EPSILON);
    assert!((val(stats.max) - 1400.0).abs() < f64::EPSILON);
    assert_eq!(stats.sample_count, Some(100));
    let source = sets[0].source.as_ref().unwrap();
    assert_eq!(source.repository, "repo");
    assert_eq!(source.commit_sha, "abc123");
}

#[test]
fn benchmarkdotnet_test_multiple_benchmarks() {
    let report = vec![
        dotnet("Method1", None, "MyClass", "", stats(1000.0, 990.0, 10.0, 900.0, 1100.0, 0)),
        dotnet("Method2", None, "MyClass", "", stats(2000.0, 1990.0, 20.0, 1900.0, 2100.0, 0)),
    ];
    let benchmarks = parse_dotnet(&report);
    assert_eq!(benchmarks[0].benchmarks.len(), 2);
    assert_eq!(benchmarks[0].benchmarks[0].name, "MyClass.Method1");
    assert_eq!(benchmarks[0].benchmarks[1].name, "MyClass.Method2");
}

#[test]
fn benchmarkdotnet_test_name_with_display_info() {
    let report = vec![dotnet(
        "TestMethod",
        Some("Custom Display Name"),
        "MyClass",
        "",
        stats(1000.0, 990.0, 10.0, 900.0, 1100.0, 0),
    )];
    assert_eq!(parse_dotnet(&report)[0].benchmarks[0].name, "Custom Display Name");
}

#[test]
fn benchmarkdotnet_test_name_with_parameters() {
    let report = vec![dotnet(
        "TestMethod",
        None,
        "MyClass",
        "N=100, Size=1024",
        stats(1000.0, 990.0, 10.0, 900.0, 1100.0, 0),
    )];
    assert_eq!(parse_dotnet(&report)[0].benchmarks[0].name, "MyClass.TestMethod: N=100, Size=1024");
}

#[test]
fn benchmarkdotnet_test_name_with_display_info_and_parameters() {
    let report = vec![dotnet(
        "TestMethod",
        Some("Custom Name"),
        "MyClass",
        "N=100",
        stats(1000.0, 990.0, 10.0, 900.0, 1100.0, 0),
    )];
    assert_eq!(parse_dotnet(&report)[0].benchmarks[0].name, "Custom Name: N=100");
    assert_eq!(construct_name(&report[0]), "Custom Name: N=100");
}

#[test]
fn empty_reports_give_no_set_except_criterion() {
    assert!(parse_dotnet(&[]).is_empty());
    assert_eq!(parsed_sets(&context(), ResultFormat::Criterion, Vec::new()).len(), 1);
}

/// The nanosecond value of a reported time, as the caller converts it.
fn scaled(value: f64, scale: TimeScale) -> f64 {
    match scale {
        TimeScale::Nanoseconds => value,
        TimeScale::Microseconds => value * 1_000.0,
        TimeScale::Milliseconds => value * 1_000_000.0,
        TimeScale::Seconds => value * 1_000_000_000.0,
    }
}

/// A JMH result's benchmark, with the library choosing scale and
/// percentiles and the arithmetic done here.
fn jmh_benchmark(name: &str, score: f64, score_error: f64, unit: &str, percentiles: &[(&str, f64)]) -> Benchmark {
    let scale = jmh_time_scale(unit);
    let pct: Vec<(String, FloatBits)> = percentiles.iter().map(|(k, v)| (k.to_string(), fb(*v))).collect();
    let mean = scaled(score, scale);
    let stddev = scaled(score_error / 3.291, scale);
    let pick = |key: &str| find_percentile(&pct, key).map(|v| scaled(f64::from_bits(v.bits), scale));
    let median = pick("50.0").unwrap_or(mean);
    let min = pick("0.0").unwrap_or_else(|| (mean - stddev).max(0.0));
    let max = pick("100.0").unwrap_or(mean + stddev);
    benchmark_record(name.to_string(), metric_statistics(fb(mean), fb(median), fb(stddev), fb(min), fb(max), None))
}

fn jmh_sets(benchmarks: Vec<Benchmark>) -> Vec<BenchmarkSet> {
    parsed_sets(&context(), ResultFormat::Jmh, benchmarks)
}

#[test]
fn jmh_test_jmh_parser_single_benchmark() {
    let sets = jmh_sets(vec![jmh_benchmark(
        "com.example.MyBenchmark.testMethod",
        1234.5,
        164.55,
        "ns/op",
        &[("0.0", 1100.0), ("50.0", 1230.0), ("100.0", 1400.0)],
    )]);
    assert_eq!(sets.len(), 1);
    let b = &sets[0].benchmarks[0];
    assert_eq!(b.name, "com.example.MyBenchmark.testMethod");
    let stats = b.statistics.as_ref().unwrap();
    assert!((val(stats.mean) - 1234.5).abs() < f64::EPSILON);
    assert!((val(stats.median) - 1230.0).abs() < f64::EPSILON);
    assert!((val(stats.min) - 1100.0).abs() < f64::EPSILON);
    assert!((val(stats.max) - 1400.0).abs() < f64::EPSILON);
    assert!((val(stats.stddev) - 50.0).abs() < 0.1);
}

#[test]
fn jmh_test_jmh_parser_unit_conversion_microseconds() {
    let sets = jmh_sets(vec![jmh_benchmark(
        "com.example.MyBenchmark.testMethod",
        1.5,
        0.16455,
        "us/op",
        &[("0.0", 1.1), ("50.0", 1.4), ("100.0", 1.8)],
    )]);
    let stats = sets[0].benchmarks[0].statistics.as_ref().unwrap();
    assert!((val(stats.mean) - 1500.0).abs() < f64::EPSILON);
    assert!((val(stats.median) - 1400.0).abs() < f64::EPSILON);
    assert!((val(stats.min) - 1100.0).abs() < f64::EPSILON);
    assert!((val(stats.max) - 1800.0).abs() < f64::EPSILON);
}

#[test]
fn jmh_test_jmh_parser_unit_conversion_milliseconds() {
    let sets = jmh_sets(vec![jmh_benchmark(
        "com.example.MyBenchmark.testMethod",
        2.5,
        0.32910,
        "ms/op",
        &[("0.0", 2.0), ("50.0", 2.4), ("100.0", 3.0)],
    )]);
    let stats = sets[0].benchmarks[0].statistics.as_ref().unwrap();
    assert!((val(stats.mean) - 2_500_000.0).abs() < f64::EPSILON);
    assert!((val(stats.median) - 2_400_000.0).abs() < f64::EPSILON);
    assert!((val(stats.min) - 2_000_000.0).abs() < f64::EPSILON);
    assert!((val(stats.max) - 3_000_000.0).abs() < f64::EPSILON);
}

#[test]
fn jmh_test_jmh_parser_unit_conversion_seconds() {
    let sets = jmh_sets(vec![jmh_benchmark(
        "com.example.MyBenchmark.testMethod",
        0.5,
        0.06582,
        "s/op",
        &[("0.0", 0.4), ("50.0", 0.48), ("100.0", 0.6)],
    )]);
    let stats = sets[0].benchmarks[0].statistics.as_ref().unwrap();
    assert!((val(stats.mean) - 500_000_000.0).abs() < f64::EPSILON);
    assert!((val(stats.median) - 480_000_000.0).abs() < f64::EPSILON);
    assert!((val(stats.min) - 400_000_000.0).abs() < f64::EPSILON);
    assert!((val(stats.max) - 600_000_000.0).abs() < f64::EPSILON);
}

#[test]
fn jmh_test_jmh_parser_multiple_benchmarks() {
    let sets = jmh_sets(vec![
        jmh_benchmark(
            "com.example.Benchmark1.method1",
            1000.0,
            164.55,
            "ns/op",
            &[("0.0", 900.0), ("50.0", 980.0), ("100.0", 1100.0)],
        ),
        jmh_benchmark(
            "com.example.Benchmark2.method2",
            2000.0,
            329.1,
            "ns/op",
            &[("0.0", 1800.0), ("50.0", 1950.0), ("100.0", 2200.0)],
        ),
    ]);
    assert_eq!(sets[0].benchmarks.len(), 2);
    let first = sets[0].benchmarks[0].statistics.as_ref().unwrap();
    let second = sets[0].benchmarks[1].statistics.as_ref().unwrap();
    assert!((val(first.mean) - 1000.0).abs() < f64::EPSILON);
    assert!((val(second.mean) - 2000.0).abs() < f64::EPSILON);
}

#[test]
fn jmh_test_jmh_parser_missing_percentiles() {
    let sets = jmh_sets(vec![jmh_benchmark("com.example.MyBenchmark.testMethod", 1234.5, 164.55, "ns/op", &[])]);
    let stats = sets[0].benchmarks[0].statistics.as_ref().unwrap();
    assert!((val(stats.median) - 1234.5).abs() < f64::EPSILON);
    let expected_stddev = 50.0;
    assert!((val(stats.stddev) - expected_stddev).abs() < 0.1);
    assert!((val(stats.min) - (1234.5 - expected_stddev)).abs() < 0.1);
    assert!((val(stats.max) - (1234.5 + expected_stddev)).abs() < 0.1);
}

#[test]
fn percentile_lookup_takes_the_last_value_of_a_key() {
    let pct = vec![("50.0".to_string(), fb(1.0)), ("50.0".to_string(), fb(2.0))];
    assert_eq!(find_percentile(&pct, "50.0").map(|v| f64::from_bits(v.bits)), Some(2.0));
    assert!(find_percentile(&pct, "0.0").is_none());
}

#[test]
fn time_scales() {
    assert_eq!(jmh_time_scale("ns/op"), TimeScale::Nanoseconds);
    assert_eq!(jmh_time_scale("us/op"), TimeScale::Microseconds);
    assert_eq!(jmh_time_scale("ms/op"), TimeScale::Milliseconds);
    assert_eq!(jmh_time_scale("s/op"), TimeScale::Seconds);
    assert_eq!(jmh_time_scale("ops/s"), TimeScale::Nanoseconds);
    assert_eq!(google_time_scale("us"), TimeScale::Microseconds);
    assert_eq!(google_time_scale("ms"), TimeScale::Milliseconds);
    assert_eq!(google_time_scale("s"), TimeScale::Seconds);
    assert_eq!(google_time_scale("ns"), TimeScale::Nanoseconds);
}

fn row(name: &str, run_type: &str, cpu: f64, unit: &str) -> GBenchEntry {
    GBenchEntry { name: name.to_string(), run_type: run_type.to_string(), cpu_time: fb(cpu), time_unit: unit.to_string() }
}

#[test]
fn test_repetitions_aggregate_rows_skipped() {
    let groups = group_iterations(&[
        row("BM_A", "iteration", 10.0, "ns"),
        row("BM_A", "iteration", 12.0, "ns"),
        row("BM_A_mean", "aggregate", 11.0, "ns"),
        row("BM_B", "iteration", 5.0, "us"),
    ]);
    assert_eq!(groups.len(), 2);
    let a = groups.iter().find(|g| g.name == "BM_A").unwrap();
    assert_eq!(a.cpu_times.iter().map(|t| f64::from_bits(t.bits)).collect::<Vec<_>>(), vec![10.0, 12.0]);
    assert_eq!(a.time_unit, "ns");
    let b = groups.iter().find(|g| g.name == "BM_B").unwrap();
    assert_eq!(b.time_unit, "us");
}

#[test]
fn formats_and_detection_order() {
    assert_eq!(get_parser("jmh").unwrap(), ResultFormat::Jmh);
    assert_eq!(get_parser("google_benchmark").unwrap(), ResultFormat::GoogleBenchmark);
    assert!(matches!(get_parser("xml"), Err(IngestError::UnknownFormat)));
    assert_eq!(detect_format(true, true, true, true).unwrap(), "benchmarkdotnet");
    assert_eq!(detect_format(false, true, true, true).unwrap(), "google_benchmark");
    assert_eq!(detect_format(false, false, true, true).unwrap(), "jmh");
    assert_eq!(detect_format(false, false, false, true).unwrap(), "criterion");
    assert!(matches!(detect_format(false, false, false, false), Err(IngestError::UnknownFormat)));
    assert_eq!(dummy_repository().forge, "dummy");
}
