use rafn::comparison::{Outcome, Verdict};
use rafn::config::{BackendType, EffectiveConfig, RepoConfig, RepositoryRef};
use rafn::floatbits::FloatBits;
use rafn::proto::benchmark::{benchmark_record, benchmark_set, metric_statistics};
use rafn::proto::{
    BenchmarkComparison, BenchmarkSet, BenchmarkTrend, CompareCommitsResponse, ComparedDelta,
    ComparisonSummary, MetricStatistics, ProtoOutcome, ProtoSeriesKey, Timestamp, TrendPoint,
};
use rafn::store::local::{
    local_trend_points, order_by_modified, snapshot_commit, LocalBackend, Snapshot, SnapshotEntry,
};
use rafn::store::remote::{
    remote_trend_points, report_from_proto, verdict_from_proto, RemoteBackend, TrendRequest,
};
use rafn::store::{
    format_timestamp, local_backend, require_repository, selected_backend, SelectedBackend,
    StoreError, TrendQuery,
};

fn fb(x: f64) -> FloatBits {
    FloatBits::from_bits(x.to_bits())
}

fn test_repository() -> RepositoryRef {
    RepositoryRef {
        forge: "github.com".to_string(),
        owner: "test".to_string(),
        repository: "repo".to_string(),
    }
}

fn make_set(name: &str, mean_ns: f64) -> BenchmarkSet {
    benchmark_set(
        &test_repository(),
        "abc123",
        None,
        "run-1".to_string(),
        Timestamp { seconds: 0, nanos: 0 },
        "rust",
        "criterion",
        vec![benchmark_record(
            name.to_string(),
            metric_statistics(fb(mean_ns), fb(0.0), fb(0.0), fb(0.0), fb(0.0), None),
        )],
    )
}

fn effective_with_repository(repository: Option<RepositoryRef>) -> EffectiveConfig {
    EffectiveConfig {
        backend_type: BackendType::Cloud,
        endpoint: "http://localhost:50051".to_string(),
        repository,
        bench_threshold: fb(5.0),
        lock_enabled: false,
        lock_timeout_secs: 600,
    }
}

#[test]
fn require_repository_returns_resolved_repository() {
    let effective = effective_with_repository(Some(test_repository()));
    assert_eq!(require_repository(&effective).unwrap(), test_repository());
}

#[test]
fn require_repository_errors_when_unset() {
    let effective = effective_with_repository(None);
    assert!(require_repository(&effective).is_err());
}

#[test]
fn local_backend_anchors_to_project_root() {
    let repo_config = RepoConfig { project_root: Some("/work/proj".to_string()), ..Default::default() };
    let store = local_backend(&repo_config);
    assert_eq!(store.snapshot_path("abc123"), "/work/proj/.rafn/snapshots/abc123.pb");
    let cwd = local_backend(&RepoConfig::default());
    assert_eq!(cwd.snapshot_path("abc123"), ".rafn/snapshots/abc123.pb");
}

#[test]
fn snapshot_names_round_trip() {
    let store = LocalBackend::with_root("/r".to_string());
    let path = store.snapshot_path("commit1");
    let name = path.rsplit('/').next().unwrap();
    assert_eq!(snapshot_commit(name), Some("commit1".to_string()));
    assert_eq!(snapshot_commit("notes.txt"), None);
}

#[test]
fn test_previous_before_picks_correct_commit() {
    let store = LocalBackend::with_root("/r".to_string());
    let commits = vec!["commit1".to_string(), "commit2".to_string()];
    assert_eq!(store.previous_before(&commits, "commit2"), Some("commit1".to_string()));
}

#[test]
fn test_previous_before_no_other_commit() {
    let store = LocalBackend::with_root("/r".to_string());
    assert_eq!(store.previous_before(&["only".to_string()], "only"), None);
}

#[test]
fn test_list_commits_empty_dir() {
    assert!(order_by_modified(Vec::new()).is_empty());
}

#[test]
fn snapshots_are_ordered_oldest_first_keeping_ties() {
    let entry = |c: &str, s: i64| SnapshotEntry { commit: c.to_string(), modified: Timestamp { seconds: s, nanos: 0 } };
    let ordered = order_by_modified(vec![entry("c", 30), entry("a", 10), entry("b1", 20), entry("b2", 20)]);
    let names: Vec<&str> = ordered.iter().map(|e| e.commit.as_str()).collect();
    assert_eq!(names, vec!["a", "b1", "b2", "c"]);
}

#[test]
fn test_trend_filters_by_benchmark_name() {
    let snapshot = Snapshot {
        commit: "commit1".to_string(),
        modified: Timestamp { seconds: 1_700_000_000, nanos: 0 },
        sets: vec![make_set("kept", 1.0), make_set("filtered", 2.0)],
    };
    let points = local_trend_points(
        &[snapshot],
        &TrendQuery { benchmark_name: Some("kept".to_string()), limit: 50 },
    );
    assert_eq!(points.len(), 1);
    assert_eq!(points[0].benchmark_name, "kept");
    assert_eq!(points[0].commit_sha, "commit1");
    // The set carries its own start time (the epoch), which wins over the
    // file's modification time.
    assert_eq!(points[0].timestamp, 0);
}

#[test]
fn trend_uses_modification_time_when_set_has_none() {
    let mut set = make_set("b", 1.0);
    set.run_started_at = None;
    let snapshot = Snapshot {
        commit: "c".to_string(),
        modified: Timestamp { seconds: 1_700_000_000, nanos: 500_000_000 },
        sets: vec![set],
    };
    let points = local_trend_points(&[snapshot], &TrendQuery { benchmark_name: None, limit: 50 });
    assert_eq!(points[0].timestamp, 1_700_000_000_500);
}

#[test]
fn remote_trend_points_are_reversed_and_default_to_zero() {
    let trend = BenchmarkTrend {
        benchmark_name: "b".to_string(),
        points: vec![
            TrendPoint { commit_sha: "new".to_string(), timestamp: Some(Timestamp { seconds: 2, nanos: 0 }), statistics: None },
            TrendPoint {
                commit_sha: "old".to_string(),
                timestamp: None,
                statistics: Some(MetricStatistics {
                    mean: Some(fb(3.0)),
                    median: None,
                    stddev: None,
                    min: None,
                    max: None,
                    sample_count: None,
                    p50: None,
                    p90: None,
                    p95: None,
                    p99: None,
                }),
            },
        ],
    };
    let points = remote_trend_points(&[trend]);
    assert_eq!(points[0].commit_sha, "old");
    assert_eq!(points[0].timestamp, 0);
    assert_eq!(f64::from_bits(points[0].mean_ns.bits), 3.0);
    assert_eq!(points[1].commit_sha, "new");
    assert_eq!(points[1].timestamp, 2000);
    assert_eq!(points[1].mean_ns.bits, 0);
}

fn key(name: &str) -> ProtoSeriesKey {
    ProtoSeriesKey {
        benchmark_name: name.to_string(),
        metric_name: "wall_time".to_string(),
        parameters_json: "{}".to_string(),
        branch: "main".to_string(),
    }
}

fn summary() -> ComparisonSummary {
    ComparisonSummary {
        regressed: 1,
        improved: 0,
        unchanged: 0,
        added: 0,
        removed: 0,
        unassessable: 0,
        threshold_pct: fb(5.0),
        has_regressions: true,
    }
}

#[test]
fn report_from_proto_maps_comparisons_and_summary() {
    let response = CompareCommitsResponse {
        comparisons: vec![BenchmarkComparison {
            key: Some(key("b")),
            outcome: Some(ProtoOutcome::Compared(ComparedDelta {
                unit: 1,
                base_mean: fb(100.0),
                head_mean: fb(120.0),
                diff: fb(20.0),
                diff_pct: Some(fb(20.0)),
                verdict: 1,
            })),
        }],
        summary: Some(summary()),
    };
    let report = report_from_proto(response).unwrap();
    assert_eq!(report.comparisons[0].key.benchmark_name, "b");
    match &report.comparisons[0].outcome {
        Outcome::Compared { unit, verdict, .. } => {
            assert_eq!(unit, "nanoseconds");
            assert_eq!(*verdict, Verdict::Regressed);
        }
        other => panic!("unexpected: {other:?}"),
    }
    assert!(report.summary.has_regressions);
}

#[test]
fn report_from_proto_reports_missing_parts() {
    let missing_summary = CompareCommitsResponse { comparisons: vec![], summary: None };
    assert!(matches!(report_from_proto(missing_summary), Err(StoreError::MissingSummary)));
    let missing_key = CompareCommitsResponse {
        comparisons: vec![BenchmarkComparison { key: None, outcome: None }],
        summary: None,
    };
    assert!(matches!(report_from_proto(missing_key), Err(StoreError::MissingKey)));
    let missing_outcome = CompareCommitsResponse {
        comparisons: vec![BenchmarkComparison { key: Some(key("b")), outcome: None }],
        summary: Some(summary()),
    };
    assert!(matches!(report_from_proto(missing_outcome), Err(StoreError::MissingOutcome)));
}

#[test]
fn verdicts_decode_with_unknown_as_unchanged() {
    assert_eq!(verdict_from_proto(1), Verdict::Regressed);
    assert_eq!(verdict_from_proto(2), Verdict::Improved);
    assert_eq!(verdict_from_proto(3), Verdict::Unchanged);
    assert_eq!(verdict_from_proto(0), Verdict::Unchanged);
    assert_eq!(verdict_from_proto(42), Verdict::Unchanged);
}

#[test]
fn selected_backend_follows_backend_type() {
    let repo_config = RepoConfig::default();
    let local = EffectiveConfig { backend_type: BackendType::Local, ..effective_with_repository(None) };
    let b = selected_backend(&repo_config, local).unwrap();
    assert!(!b.is_remote());
    assert!(b.repository().is_none());
    let remote = selected_backend(&repo_config, effective_with_repository(Some(test_repository()))).unwrap();
    assert!(remote.is_remote());
    assert_eq!(remote.repository(), Some(&test_repository()));
    assert!(matches!(
        selected_backend(&repo_config, effective_with_repository(None)),
        Err(StoreError::RepositoryNotSpecified)
    ));
    let _ = SelectedBackend::Local(LocalBackend::default());
}

#[test]
fn remote_backend_for_push_has_no_repository() {
    let b = RemoteBackend::for_push(effective_with_repository(Some(test_repository())));
    assert_eq!(b.endpoint(), "http://localhost:50051");
    assert!(b.repository().is_none());
}

#[test]
fn format_timestamp_renders_utc_minutes() {
    assert_eq!(format_timestamp(&1_700_000_000_000), "2023-11-14 22:13");
    assert_eq!(format_timestamp(&0), "1970-01-01 00:00");
    assert_eq!(format_timestamp(&-1), "1970-01-01 00:00");
}

#[test]
fn trend_request_asks_for_one_benchmark_or_the_whole_repository() {
    let remote = RemoteBackend::from_effective(effective_with_repository(Some(test_repository()))).unwrap();
    match remote.trend_request(TrendQuery { benchmark_name: Some("fib".to_string()), limit: 7 }) {
        TrendRequest::Benchmark { repository, benchmark_name, metric_name, limit } => {
            let r = repository.unwrap();
            assert_eq!((r.forge.as_str(), r.owner.as_str(), r.repository.as_str()), ("github.com", "test", "repo"));
            assert_eq!(benchmark_name, "fib");
            assert_eq!(metric_name, "wall_time");
            assert_eq!(limit, Some(7));
        }
        other => panic!("unexpected {other:?}"),
    }
    match remote.trend_request(TrendQuery { benchmark_name: None, limit: 3 }) {
        TrendRequest::Repository { repository, metric_name, limit } => {
            assert!(repository.is_some());
            assert_eq!(metric_name.as_deref(), Some("wall_time"));
            assert_eq!(limit, Some(3));
        }
        other => panic!("unexpected {other:?}"),
    }
}
