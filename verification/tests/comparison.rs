use rafn::comparison::order::{assemble_report, OutcomeKind};
use rafn::comparison::outcome::{
    added_comparison, finish_pair, plan_pair, removed_comparison, validate_threshold_pct, PairPlan,
};
use rafn::comparison::pairing::{pair_series, SeriesPair};
use rafn::comparison::series::{display_name, flatten_series, format_verdict, identity, sort_key, unit_name};
use rafn::comparison::units::{is_duration_unit, metric_lower_is_better};
use rafn::comparison::{Outcome, Report, SeriesKey, SeriesMean, Verdict};
use rafn::config::RepositoryRef;
use rafn::floatbits::FloatBits;
use rafn::proto::benchmark::{benchmark_record, benchmark_set, metric_statistics};
use rafn::proto::{BenchmarkSet, Timestamp};

fn fb(x: f64) -> FloatBits {
    FloatBits::from_bits(x.to_bits())
}

fn val(b: FloatBits) -> f64 {
    f64::from_bits(b.bits)
}

fn to_nanoseconds(value: f64, unit: &str) -> f64 {
    match unit {
        "seconds" => value * 1_000_000_000.0,
        "milliseconds" => value * 1_000_000.0,
        "microseconds" => value * 1_000.0,
        _ => value,
    }
}

/// The whole comparison: the library decides, the arithmetic is done here.
fn compare(base: &[SeriesMean], head: &[SeriesMean], threshold_pct: f64) -> Report {
    let mut comparisons = Vec::new();
    for pair in pair_series(base, head) {
        match pair {
            SeriesPair::Both { base: b, head: h } => match plan_pair(&base[b], &head[h]) {
                PairPlan::Settled(c) => comparisons.push(c),
                PairPlan::Measure { unit, normalize } => {
                    let (bv, hv) = if normalize {
                        (
                            to_nanoseconds(val(base[b].mean), &base[b].unit),
                            to_nanoseconds(val(head[h].mean), &head[h].unit),
                        )
                    } else {
                        (val(base[b].mean), val(head[h].mean))
                    };
                    let diff = hv - bv;
                    let pct = if bv != 0.0 { diff / bv.abs() * 100.0 } else { 0.0 };
                    comparisons.push(finish_pair(
                        head[h].key.clone(),
                        unit,
                        fb(bv),
                        fb(hv),
                        fb(diff),
                        fb(pct),
                        fb(threshold_pct),
                    ));
                }
            },
            SeriesPair::HeadOnly { head: h } => comparisons.push(added_comparison(&head[h])),
            SeriesPair::BaseOnly { base: b } => comparisons.push(removed_comparison(&base[b])),
        }
    }
    assemble_report(comparisons, fb(threshold_pct))
}

fn mean(benchmark: &str, unit: &str, mean: f64) -> SeriesMean {
    mean_ex(benchmark, "wall_time", "", "main", unit, mean)
}

fn mean_ex(
    benchmark: &str,
    metric: &str,
    parameters_json: &str,
    branch: &str,
    unit: &str,
    mean: f64,
) -> SeriesMean {
    SeriesMean {
        key: SeriesKey {
            benchmark_name: benchmark.to_string(),
            metric_name: metric.to_string(),
            parameters_json: parameters_json.to_string(),
            branch: branch.to_string(),
        },
        unit: unit.to_string(),
        mean: fb(mean),
    }
}

fn compared<'a>(report: &'a Report, benchmark: &str) -> (&'a str, f64, f64, f64, Option<f64>, Verdict) {
    let comparison = report
        .comparisons
        .iter()
        .find(|c| c.key.benchmark_name == benchmark)
        .unwrap_or_else(|| unreachable!("{benchmark} present in report"));
    match &comparison.outcome {
        Outcome::Compared {
            unit,
            base_mean,
            head_mean,
            diff,
            diff_pct,
            verdict,
        } => (unit, val(*base_mean), val(*head_mean), val(*diff), diff_pct.map(val), *verdict),
        other => unreachable!("{benchmark} expected Compared, got {other:?}"),
    }
}

#[test]
fn display_name_includes_metric_to_disambiguate_same_benchmark_different_metrics() {
    let wall = SeriesKey {
        benchmark_name: "bench".to_string(),
        metric_name: "wall_time".to_string(),
        parameters_json: String::new(),
        branch: "main".to_string(),
    };
    let cpu = SeriesKey {
        metric_name: "cpu_time".to_string(),
        ..wall.clone()
    };

    assert_eq!(display_name(&wall), "bench (wall_time)");
    assert_eq!(display_name(&cpu), "bench (cpu_time)");
    assert_ne!(display_name(&wall), display_name(&cpu));
}

#[test]
fn display_name_keeps_parameters_after_the_metric() {
    let key = SeriesKey {
        benchmark_name: "sort".to_string(),
        metric_name: "wall_time".to_string(),
        parameters_json: r#"{"size":100}"#.to_string(),
        branch: "main".to_string(),
    };

    assert_eq!(display_name(&key), r#"sort (wall_time) {"size":100}"#);
}

#[test]
fn display_name_omits_empty_object_parameters() {
    let key = SeriesKey {
        benchmark_name: "sort".to_string(),
        metric_name: "wall_time".to_string(),
        parameters_json: "{}".to_string(),
        branch: "main".to_string(),
    };
    assert_eq!(display_name(&key), "sort (wall_time)");
}

#[test]
fn validate_threshold_pct_accepts_finite_non_negative_values() {
    assert!(validate_threshold_pct(fb(0.0)).is_ok());
    assert!(validate_threshold_pct(fb(5.0)).is_ok());
}

#[test]
fn validate_threshold_pct_rejects_negative() {
    assert!(validate_threshold_pct(fb(-0.1)).is_err());
}

#[test]
fn validate_threshold_pct_rejects_non_finite() {
    assert!(validate_threshold_pct(fb(f64::NAN)).is_err());
    assert!(validate_threshold_pct(fb(f64::INFINITY)).is_err());
}

#[test]
fn regression_above_threshold_is_flagged() {
    let base = vec![mean("bench", "nanoseconds", 100.0)];
    let head = vec![mean("bench", "nanoseconds", 120.0)];

    let report = compare(&base, &head, 5.0);

    let (_, _, _, _, diff_pct, verdict) = compared(&report, "bench");
    assert_eq!(verdict, Verdict::Regressed);
    assert_eq!(diff_pct, Some(20.0));
    assert!(report.summary.has_regressions);
    assert_eq!(report.summary.regressed, 1);
}

#[test]
fn improvement_is_flagged() {
    let base = vec![mean("bench", "nanoseconds", 100.0)];
    let head = vec![mean("bench", "nanoseconds", 80.0)];

    let report = compare(&base, &head, 5.0);

    let (_, _, _, _, _, verdict) = compared(&report, "bench");
    assert_eq!(verdict, Verdict::Improved);
    assert_eq!(report.summary.improved, 1);
    assert!(!report.summary.has_regressions);
}

#[test]
fn noise_inside_threshold_is_unchanged() {
    let base = vec![mean("bench", "nanoseconds", 100.0)];
    let head = vec![mean("bench", "nanoseconds", 102.0)];

    let report = compare(&base, &head, 5.0);

    let (_, _, _, _, _, verdict) = compared(&report, "bench");
    assert_eq!(verdict, Verdict::Unchanged);
    assert_eq!(report.summary.unchanged, 1);
}

#[test]
fn exactly_at_threshold_is_unchanged() {
    let base = vec![mean("bench", "nanoseconds", 100.0)];
    let head = vec![mean("bench", "nanoseconds", 105.0)];

    let report = compare(&base, &head, 5.0);

    let (_, _, _, _, diff_pct, verdict) = compared(&report, "bench");
    assert_eq!(diff_pct, Some(5.0));
    assert_eq!(verdict, Verdict::Unchanged, "boundary is inclusive");
}

#[test]
fn benchmark_only_at_head_is_added() {
    let base: Vec<SeriesMean> = vec![];
    let head = vec![mean("bench", "nanoseconds", 100.0)];

    let report = compare(&base, &head, 5.0);

    assert_eq!(report.comparisons.len(), 1);
    match &report.comparisons[0].outcome {
        Outcome::Added { unit, head_mean } => {
            assert_eq!(unit, "nanoseconds");
            assert_eq!(val(*head_mean), 100.0);
        }
        other => unreachable!("expected Added, got {other:?}"),
    }
    assert_eq!(report.summary.added, 1);
}

#[test]
fn benchmark_only_at_base_is_removed() {
    let base = vec![mean("bench", "nanoseconds", 100.0)];
    let head: Vec<SeriesMean> = vec![];

    let report = compare(&base, &head, 5.0);

    assert_eq!(report.comparisons.len(), 1);
    match &report.comparisons[0].outcome {
        Outcome::Removed { unit, base_mean } => {
            assert_eq!(unit, "nanoseconds");
            assert_eq!(val(*base_mean), 100.0);
        }
        other => unreachable!("expected Removed, got {other:?}"),
    }
    assert_eq!(report.summary.removed, 1);
}

#[test]
fn seconds_and_milliseconds_normalize_and_compare() {
    let base = vec![mean("bench", "seconds", 1.0)];
    let head = vec![mean("bench", "milliseconds", 1000.0)];

    let report = compare(&base, &head, 5.0);

    let (unit, base_mean, head_mean, diff, diff_pct, verdict) = compared(&report, "bench");
    assert_eq!(unit, "nanoseconds");
    assert_eq!(base_mean, 1_000_000_000.0);
    assert_eq!(head_mean, 1_000_000_000.0);
    assert_eq!(diff, 0.0);
    assert_eq!(diff_pct, Some(0.0));
    assert_eq!(verdict, Verdict::Unchanged);
}

#[test]
fn bytes_and_ratio_are_incomparable() {
    let base = vec![mean("bench", "bytes", 100.0)];
    let head = vec![mean("bench", "ratio", 1.5)];

    let report = compare(&base, &head, 5.0);

    assert_eq!(report.comparisons.len(), 1);
    assert!(matches!(
        report.comparisons[0].outcome,
        Outcome::Incomparable { .. }
    ));
    assert_eq!(report.summary.unassessable, 1);
}

#[test]
fn unspecified_unit_never_issues_a_verdict() {
    let base = vec![mean("bench", "unspecified", 100.0)];
    let head = vec![mean("bench", "unspecified", 200.0)];

    let report = compare(&base, &head, 5.0);

    assert!(matches!(
        report.comparisons[0].outcome,
        Outcome::Incomparable { .. }
    ));
    assert_eq!(report.summary.regressed, 0);
    assert_eq!(report.summary.unassessable, 1);
}

#[test]
fn non_finite_means_are_invalid_not_a_verdict() {
    let base = vec![mean("bench", "nanoseconds", f64::NAN)];
    let head = vec![mean("bench", "nanoseconds", 100.0)];

    let report = compare(&base, &head, 5.0);

    match &report.comparisons[0].outcome {
        Outcome::Invalid { reason } => assert_eq!(reason, "base mean is non-finite"),
        other => unreachable!("expected Invalid, got {other:?}"),
    }
    assert_eq!(report.summary.unassessable, 1);
}

#[test]
fn negative_baseline_percentage_matches_diff_sign() {
    let base = vec![mean("bench", "dimensionless", -100.0)];
    let head = vec![mean("bench", "dimensionless", -50.0)];

    let report = compare(&base, &head, 5.0);

    match &report.comparisons[0].outcome {
        Outcome::Compared { diff, diff_pct, .. } => {
            assert_eq!(val(*diff), 50.0);
            assert_eq!(diff_pct.map(val), Some(50.0));
        }
        other => unreachable!("expected Compared, got {other:?}"),
    }
}

#[test]
fn zero_baseline_with_nonzero_head_is_unbounded_regression() {
    let base = vec![mean("bench", "allocation_count", 0.0)];
    let head = vec![mean("bench", "allocation_count", 5.0)];

    let report = compare(&base, &head, 5.0);

    let (_, _, _, diff, diff_pct, verdict) = compared(&report, "bench");
    assert_eq!(diff_pct, None);
    assert_eq!(diff, 5.0);
    assert_eq!(verdict, Verdict::Regressed);
}

#[test]
fn zero_to_zero_is_unchanged() {
    let base = vec![mean("bench", "allocation_count", 0.0)];
    let head = vec![mean("bench", "allocation_count", 0.0)];

    let report = compare(&base, &head, 5.0);

    let (_, _, _, _, diff_pct, verdict) = compared(&report, "bench");
    assert_eq!(diff_pct, Some(0.0));
    assert_eq!(verdict, Verdict::Unchanged);
}

#[test]
fn count_per_second_drop_is_the_regression() {
    let base = vec![mean("bench", "count_per_second", 1000.0)];
    let head = vec![mean("bench", "count_per_second", 800.0)];

    let report = compare(&base, &head, 5.0);

    let (_, _, _, _, _, verdict) = compared(&report, "bench");
    assert_eq!(verdict, Verdict::Regressed, "a throughput drop is a regression");

    let base = vec![mean("bench", "count_per_second", 1000.0)];
    let head = vec![mean("bench", "count_per_second", 1200.0)];
    let report = compare(&base, &head, 5.0);
    let (_, _, _, _, _, verdict) = compared(&report, "bench");
    assert_eq!(verdict, Verdict::Improved, "a throughput rise is an improvement");
}

#[test]
fn duplicate_series_identity_in_head_produces_one_comparison() {
    let base = vec![mean("bench", "nanoseconds", 100.0)];
    let head = vec![
        mean("bench", "nanoseconds", 120.0),
        mean("bench", "nanoseconds", 150.0),
    ];

    let report = compare(&base, &head, 5.0);

    assert_eq!(
        report.comparisons.len(),
        1,
        "a duplicate head identity must not produce duplicate rows"
    );
}

#[test]
fn duplicate_series_identity_in_base_produces_one_comparison() {
    let base = vec![
        mean("bench", "nanoseconds", 100.0),
        mean("bench", "nanoseconds", 110.0),
    ];
    let head: Vec<SeriesMean> = vec![];

    let report = compare(&base, &head, 5.0);

    assert_eq!(
        report.comparisons.len(),
        1,
        "a duplicate base identity must not produce duplicate removed rows"
    );
}

#[test]
fn parameter_bindings_keep_series_separate() {
    let base = vec![
        mean_ex("sort", "wall_time", r#"{"size":100}"#, "main", "nanoseconds", 100.0),
        mean_ex("sort", "wall_time", r#"{"size":1000}"#, "main", "nanoseconds", 2000.0),
    ];
    let head = vec![
        mean_ex("sort", "wall_time", r#"{"size":100}"#, "main", "nanoseconds", 200.0),
        mean_ex("sort", "wall_time", r#"{"size":1000}"#, "main", "nanoseconds", 1000.0),
    ];

    let report = compare(&base, &head, 5.0);

    assert_eq!(report.comparisons.len(), 2);
    let size_100 = report
        .comparisons
        .iter()
        .find(|c| c.key.parameters_json == r#"{"size":100}"#)
        .unwrap_or_else(|| unreachable!("size=100 binding present"));
    match &size_100.outcome {
        Outcome::Compared { verdict, .. } => assert_eq!(*verdict, Verdict::Regressed),
        other => unreachable!("expected Compared, got {other:?}"),
    }
}

#[test]
fn cross_branch_comparison_still_matches_and_carries_head_branch() {
    let base = vec![mean_ex("bench", "wall_time", "", "main", "nanoseconds", 100.0)];
    let head = vec![mean_ex("bench", "wall_time", "", "feature/x", "nanoseconds", 200.0)];

    let report = compare(&base, &head, 5.0);

    assert_eq!(report.comparisons.len(), 1, "branch is not part of series identity");
    assert_eq!(report.comparisons[0].key.branch, "feature/x");
}

#[test]
fn ordering_puts_regressions_first() {
    let base = vec![
        mean("improved", "nanoseconds", 100.0),
        mean("regressed_small", "nanoseconds", 100.0),
        mean("regressed_big", "nanoseconds", 100.0),
    ];
    let head = vec![
        mean("improved", "nanoseconds", 50.0),
        mean("regressed_small", "nanoseconds", 110.0),
        mean("regressed_big", "nanoseconds", 200.0),
    ];

    let report = compare(&base, &head, 5.0);

    let names: Vec<&str> = report
        .comparisons
        .iter()
        .map(|c| c.key.benchmark_name.as_str())
        .collect();
    assert_eq!(
        names,
        vec!["regressed_big", "regressed_small", "improved"],
        "regressions first, worst first"
    );
}

#[test]
fn summary_counts_add_up_to_the_comparisons() {
    let base = vec![
        mean("a", "nanoseconds", 100.0),
        mean("b", "nanoseconds", 100.0),
        mean("c", "bytes", 1.0),
        mean("gone", "nanoseconds", 1.0),
    ];
    let head = vec![
        mean("a", "nanoseconds", 200.0),
        mean("b", "nanoseconds", 100.0),
        mean("c", "ratio", 1.0),
        mean("new", "nanoseconds", 1.0),
    ];
    let report = compare(&base, &head, 5.0);
    let s = &report.summary;
    assert_eq!(
        (s.regressed, s.improved, s.unchanged, s.added, s.removed, s.unassessable),
        (1, 0, 1, 1, 1, 1)
    );
    assert_eq!(
        (s.regressed + s.improved + s.unchanged + s.added + s.removed + s.unassessable) as usize,
        report.comparisons.len()
    );
    assert_eq!(val(s.threshold_pct), 5.0);
    let _ = OutcomeKind::Regressed;
}

#[test]
fn mirrored_direction_gives_the_same_verdict() {
    // A 10 % rise of a time equals a 10 % drop of a throughput.
    let slower = compare(
        &[mean("t", "nanoseconds", 100.0)],
        &[mean("t", "nanoseconds", 110.0)],
        5.0,
    );
    let fewer = compare(
        &[mean("t", "count_per_second", 100.0)],
        &[mean("t", "count_per_second", 90.0)],
        5.0,
    );
    assert_eq!(compared(&slower, "t").5, compared(&fewer, "t").5);
}

#[test]
fn unit_names_are_lowercase_without_prefix() {
    assert_eq!(unit_name(1), "nanoseconds");
    assert_eq!(unit_name(4), "seconds");
    assert_eq!(unit_name(6), "allocation_count");
    assert_eq!(unit_name(12), "count_per_second");
    assert_eq!(unit_name(0), "unspecified");
    assert_eq!(unit_name(999), "unspecified");
}

#[test]
fn duration_units_and_directions() {
    assert!(is_duration_unit("seconds"));
    assert!(is_duration_unit("nanoseconds"));
    assert!(!is_duration_unit("bytes"));
    assert!(metric_lower_is_better("nanoseconds"));
    assert!(!metric_lower_is_better("count_per_second"));
    assert!(!metric_lower_is_better("ratio"));
}

#[test]
fn verdict_labels_with_or_without_color() {
    let r = format_verdict(Verdict::Regressed);
    assert!(r == "✗ regressed" || r == "\u{1b}[31m✗ regressed\u{1b}[0m");
    let i = format_verdict(Verdict::Improved);
    assert!(i == "✓ improved" || i == "\u{1b}[32m✓ improved\u{1b}[0m");
    assert_eq!(format_verdict(Verdict::Unchanged), "unchanged");
}

#[test]
fn identity_and_sort_key_read_the_key() {
    let key = SeriesKey {
        benchmark_name: "b".to_string(),
        metric_name: "m".to_string(),
        parameters_json: "{}".to_string(),
        branch: "main".to_string(),
    };
    assert_eq!(identity(&key), ("b".to_string(), "m".to_string(), "{}".to_string()));
    assert_eq!(sort_key(&key), ("b", "m", "{}", "main"));
}

fn test_repository() -> RepositoryRef {
    RepositoryRef {
        forge: "github.com".to_string(),
        owner: "owner".to_string(),
        repository: "repo".to_string(),
    }
}

fn make_set(name: &str, mean_ns: f64) -> BenchmarkSet {
    benchmark_set(
        &test_repository(),
        "abc123",
        Some("main".to_string()),
        "run-1".to_string(),
        Timestamp { seconds: 0, nanos: 0 },
        "rust",
        "criterion",
        vec![benchmark_record(
            name.to_string(),
            metric_statistics(fb(mean_ns), fb(0.0), fb(0.0), fb(0.0), fb(0.0), None),
        )],
    )
}

fn no_parameters(sets: &[BenchmarkSet]) -> Vec<Vec<String>> {
    sets.iter()
        .map(|s| s.benchmarks.iter().map(|_| "{}".to_string()).collect())
        .collect()
}

#[test]
fn flatten_series_keys_on_name_metric_and_carries_branch_and_unit() {
    let sets = vec![make_set("foo", 1_000_000.0)];
    let series = flatten_series(&sets, &no_parameters(&sets));

    assert_eq!(series.len(), 1);
    assert_eq!(series[0].key.benchmark_name, "foo");
    assert_eq!(series[0].key.metric_name, "wall_time");
    assert_eq!(series[0].key.parameters_json, "{}");
    assert_eq!(series[0].key.branch, "main");
    assert_eq!(series[0].unit, "nanoseconds");
    assert_eq!(val(series[0].mean), 1_000_000.0);
}

#[test]
fn flatten_series_skips_benchmarks_without_a_mean() {
    let mut sets = vec![make_set("foo", 1_000_000.0)];
    sets[0].benchmarks[0].statistics = None;

    assert!(flatten_series(&sets, &no_parameters(&sets)).is_empty());
}

#[test]
fn compare_end_to_end_over_flattened_snapshots() {
    let base = vec![make_set("foo", 1_000_000.0)];
    let head = vec![make_set("foo", 1_100_000.0)];

    let report = compare(
        &flatten_series(&base, &no_parameters(&base)),
        &flatten_series(&head, &no_parameters(&head)),
        5.0,
    );

    let (_, _, _, _, diff_pct, verdict) = compared(&report, "foo");
    assert_eq!(verdict, Verdict::Regressed);
    assert!((diff_pct.unwrap_or_default() - 10.0).abs() < 0.01);
}
