use rafn::config::RepositoryRef;
use rafn::discovery::{accepts_entry, criterion_result, result_name, scan_plan, DiscoveryError, ScanPlan};
use rafn::json::JsonValue;
use rafn::floatbits::FloatBits;
use rafn::framework::ResultsStrategy;
use rafn::lock::abs_deadline;
use rafn::proto::benchmark::{
    benchmark_set, language_enum, timestamp_to_millis, toolset_enum,
};
use rafn::proto::{Language, Timestamp, Toolset};
use rafn::record::{Benchmark, Metrics, RecordError};

#[test]
fn benchmark_set_populates_source_from_repository_ref() {
    let repository = RepositoryRef {
        forge: "gitlab.com".to_string(),
        owner: "acme".to_string(),
        repository: "perf-suite".to_string(),
    };
    let set = benchmark_set(
        &repository,
        "abc123",
        Some("main".to_string()),
        "run-1".to_string(),
        Timestamp { seconds: 0, nanos: 0 },
        "rust",
        "criterion",
        Vec::new(),
    );
    let source = set.source.unwrap();
    assert_eq!(source.forge, "gitlab.com");
    assert_eq!(source.owner, "acme");
    assert_eq!(source.repository, "perf-suite");
    assert_eq!(source.commit_sha, "abc123");
    assert_eq!(source.branch, Some("main".to_string()));
}

#[test]
fn timestamp_to_millis_converts_correctly() {
    let ts = Timestamp { seconds: 1_700_000_000, nanos: 500_000_000 };
    assert_eq!(timestamp_to_millis(&ts), 1_700_000_000 * 1000 + 500);
}

#[test]
fn toolset_and_language_names() {
    assert_eq!(toolset_enum("criterion"), Toolset::Criterion);
    assert_eq!(toolset_enum("nope"), Toolset::Unspecified);
    assert_eq!(language_enum("csharp"), Language::Csharp);
    assert_eq!(language_enum("nope"), Language::Unspecified);
}

#[test]
fn deadline_carries_nanoseconds_and_saturates() {
    assert_eq!(abs_deadline(10, 900_000_000, 5, 200_000_000), (16, 100_000_000));
    assert_eq!(abs_deadline(10, 0, 5, 0), (15, 0));
    assert_eq!(abs_deadline(i64::MAX, 0, 600, 0), (i64::MAX, 0));
}

#[test]
fn test_benchmark_builder() {
    let benchmark = Benchmark::builder()
        .tenant_id(uuid::Uuid::new_v4())
        .repository("test/repo".to_string())
        .commit_sha("abc123".to_string())
        .benchmark_name("test_bench".to_string())
        .toolset("criterion".to_string())
        .language("rust".to_string())
        .metrics(Metrics::default())
        .build();
    assert!(benchmark.is_ok());
}

#[test]
fn test_benchmark_builder_missing_fields() {
    let benchmark = Benchmark::builder().repository("test/repo".to_string()).build();
    assert!(benchmark.is_err());
    match benchmark {
        Err(RecordError::Validation(m)) => assert_eq!(m, "tenant_id is required"),
        other => panic!("expected a missing tenant, got {other:?}"),
    }
}

#[test]
fn builder_keeps_a_given_timestamp() {
    let b = Benchmark::builder()
        .tenant_id(uuid::Uuid::nil())
        .repository("r".to_string())
        .commit_sha("c".to_string())
        .benchmark_name("n".to_string())
        .timestamp(Timestamp { seconds: 5, nanos: 0 })
        .toolset("jmh".to_string())
        .language("java".to_string())
        .metrics(Metrics::default().with_iterations(3))
        .build()
        .unwrap();
    assert_eq!(b.timestamp, Timestamp { seconds: 5, nanos: 0 });
    assert_eq!(b.metrics.iterations, 3);
    assert_eq!(b.metrics.mean_ns, FloatBits::zero());
}

#[test]
fn discovery_plan_and_filters() {
    let file = ResultsStrategy::JsonFile("/p/r.json".to_string());
    assert!(matches!(scan_plan(&file, None, false), ScanPlan::JsonFile(ref f) if f == "/p/r.json"));
    assert!(matches!(scan_plan(&file, Some("/o"), true), ScanPlan::JsonDirectory { ref dir, required_suffix: None } if dir == "/o"));
    assert!(matches!(scan_plan(&file, Some("/o.json"), false), ScanPlan::JsonFile(ref f) if f == "/o.json"));
    assert!(accepts_entry(true, true, Some("a-report-full.json"), Some("-report-full.json")));
    assert!(!accepts_entry(true, true, Some("a.json"), Some("-report-full.json")));
    assert!(!accepts_entry(false, true, Some("a.json"), None));
    assert!(accepts_entry(true, true, None, None));
    assert_eq!(result_name(None), "benchmark result");
    assert_eq!(result_name(Some("x.json")), "x.json");
}

const ESTIMATES: &str = r#"{"mean":{"point_estimate":1500.0,"standard_error":2.0},"median":{"point_estimate":1450.0},"std_dev":{"point_estimate":30.0}}"#;

fn point_estimate(v: &JsonValue) -> Option<f64> {
    match v {
        JsonValue::Object(m) => m.iter().find(|(k, _)| k == "point_estimate").and_then(|(_, x)| match x {
            JsonValue::Number(f) => Some(f64::from_bits(f.bits)),
            _ => None,
        }),
        _ => None,
    }
}

#[test]
fn criterion_result_reads_name_estimates_and_iterations() {
    let r = criterion_result(
        "dir".to_string(),
        ESTIMATES,
        r#"{"full_id":"group/id","directory_name":"group/id"}"#,
        Some(r#"{"iters":[1.0,2.0,3.5,"x"],"times":[10.0,20.0,30.0]}"#),
    )
    .unwrap();
    assert_eq!(r.name, "group/id");
    assert_eq!(point_estimate(&r.mean), Some(1500.0));
    assert_eq!(point_estimate(&r.median), Some(1450.0));
    assert_eq!(point_estimate(&r.std_dev), Some(30.0));
    assert_eq!(r.total_iterations, 6);
}

#[test]
fn criterion_result_falls_back_to_directory_name_and_zero_iterations() {
    let r = criterion_result("dir".to_string(), ESTIMATES, r#"{"full_id":5}"#, None).unwrap();
    assert_eq!(r.name, "dir");
    assert_eq!(r.total_iterations, 0);
    let no_iters = criterion_result("dir".to_string(), r#"{}"#, r#"{}"#, Some(r#"{"times":[]}"#)).unwrap();
    assert!(matches!(no_iters.mean, JsonValue::Null));
    assert_eq!(no_iters.total_iterations, 0);
}

#[test]
fn criterion_result_reports_the_first_file_that_is_not_json() {
    match criterion_result("d".to_string(), "{", "{", Some("{")) {
        Err(DiscoveryError::Parse(m)) => assert_eq!(m, "Failed to parse estimates.json"),
        other => panic!("unexpected {other:?}"),
    }
    match criterion_result("d".to_string(), "{}", "nope", Some("{")) {
        Err(DiscoveryError::Parse(m)) => assert_eq!(m, "Failed to parse benchmark.json"),
        other => panic!("unexpected {other:?}"),
    }
    match criterion_result("d".to_string(), "{}", "{}", Some("[1,")) {
        Err(DiscoveryError::Parse(m)) => assert_eq!(m, "Failed to parse sample.json"),
        other => panic!("unexpected {other:?}"),
    }
}

#[test]
fn float_to_u64_saturates_and_truncates() {
    let f = |x: f64| rafn::floatbits::FloatBits { bits: x.to_bits() }.to_u64_saturating();
    for x in [0.0, -0.0, 0.5, 1.0, 7.9, -3.0, 1e15 + 0.5, 2f64.powi(60), 2f64.powi(63) * 1.5, 1e30, f64::INFINITY, f64::NAN, f64::NEG_INFINITY] {
        assert_eq!(f(x), x as u64, "{x}");
    }
}
