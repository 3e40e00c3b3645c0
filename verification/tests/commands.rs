use rafn::commands::api::export::{ExportCommand, OutputFormat as ExportFormat};
use rafn::commands::api::ingest::{IngestCommand, IngestTally};
use rafn::commands::api::trend::{OutputFormat as ApiTrendFormat, TrendCommand as ApiTrendCommand};
use rafn::commands::api::{decimal_string, RequestError};
use rafn::commands::bench::{benchmark_exit_code, result_dir_to_create, BenchCommand};
use rafn::commands::bisect::BisectCommand;
use rafn::commands::compare::{CompareCommand, OutputFormat as CompareFormat};
use rafn::commands::config::{get_line, set_line};
use rafn::commands::init::{gitignore_update, rafn_toml};
use rafn::commands::push::{push_applies, PushCommand, PushError, PushTally};
use rafn::commands::query::{OutputFormat as QueryFormat, QueryCommand};
use rafn::commands::run::{run_exit_code, RunCommand};
use rafn::commands::trend::{OutputFormat as TrendFormat, TrendCommand};
use rafn::config::{BackendType, Config};
use rafn::floatbits::FloatBits;
use rafn::framework::ResultsStrategy;

fn fb(x: f64) -> FloatBits {
    FloatBits::from_bits(x.to_bits())
}

#[test]
fn test_creates_rafn_toml_with_cloud_backend() {
    assert_eq!(rafn_toml(), "[backend]\ntype = \"cloud\"\n");
}

#[test]
fn test_creates_gitignore_in_git_directory() {
    assert_eq!(gitignore_update("").as_deref(), Some(".rafn/snapshots\n"));
}

#[test]
fn test_appends_to_existing_gitignore_without_trailing_newline() {
    assert_eq!(gitignore_update("/target").as_deref(), Some("/target\n.rafn/snapshots\n"));
}

#[test]
fn test_gitignore_update_is_idempotent() {
    assert_eq!(gitignore_update("/target\n.rafn/snapshots\n"), None);
    let once = gitignore_update("/target\n").unwrap();
    assert_eq!(gitignore_update(&once), None);
}

#[test]
fn gitignore_entry_is_found_when_indented() {
    assert_eq!(gitignore_update("  .rafn/snapshots  \r\n/target"), None);
    assert!(gitignore_update(".rafn/snapshots/extra").is_some());
}

fn push(all: bool, commit: Option<&str>) -> PushCommand {
    PushCommand { commit: commit.map(str::to_string), all, dry_run: false, grpc_url: None }
}

#[test]
fn push_selects_commits() {
    let stored = vec!["a".to_string(), "b".to_string()];
    assert_eq!(push(true, None).commits_to_push(stored.clone(), None).unwrap(), stored);
    assert_eq!(push(false, Some("c")).commits_to_push(stored.clone(), Some("d".to_string())).unwrap(), vec!["c"]);
    assert_eq!(push(false, None).commits_to_push(stored.clone(), Some("d".to_string())).unwrap(), vec!["d"]);
    assert!(matches!(push(false, None).commits_to_push(stored, None), Err(PushError::NoCommit)));
    assert!(!push_applies(BackendType::Local));
    assert!(push_applies(BackendType::Cloud));
}

#[test]
fn push_tally_reports_failures() {
    let mut tally = PushTally::new();
    tally.record_submitted(3);
    tally.record_submitted(4);
    assert_eq!(tally.finish().unwrap(), 7);
    let mut failing = PushTally::new();
    failing.record_failure("x".to_string());
    match failing.finish() {
        Err(PushError::Failed(v)) => assert_eq!(v, vec!["x".to_string()]),
        other => panic!("unexpected: {other:?}"),
    }
}

#[test]
fn query_url_encodes_values() {
    let q = QueryCommand {
        repo: Some("acme/perf suite".to_string()),
        commit: Some("abc".to_string()),
        name: Some("sort/100".to_string()),
        format: QueryFormat::Table,
        limit: 100,
        api_url: None,
    };
    assert_eq!(
        q.request_url("https://api.example.com", None).unwrap(),
        "https://api.example.com/v1/benchmarks?repository=acme%2Fperf%20suite&limit=100&commit_sha=abc&benchmark_name=sort%2F100"
    );
    let unset = QueryCommand { repo: None, commit: None, name: None, format: QueryFormat::Json, limit: 5, api_url: None };
    assert!(matches!(unset.request_url("u", None), Err(RequestError::RepositoryNotSpecified)));
    assert_eq!(unset.request_url("u", Some("r".to_string())).unwrap(), "u/v1/benchmarks?repository=r&limit=5");
}

#[test]
fn export_and_trend_urls() {
    let e = ExportCommand {
        repo: Some("r".to_string()),
        format: ExportFormat::Csv,
        commit: None,
        name: None,
        output: None,
        limit: 10000,
        api_url: Some("http://x".to_string()),
    };
    assert_eq!(e.request_url("ignored", None).unwrap(), "http://x/v1/benchmarks?repository=r&limit=10000");
    let t = ApiTrendCommand {
        repo: None,
        name: "b é".to_string(),
        format: ApiTrendFormat::Table,
        limit: 50,
        api_url: None,
    };
    assert_eq!(
        t.request_url("http://y", Some("o/r".to_string())).unwrap(),
        "http://y/v1/benchmarks/trend?repository=o%2Fr&benchmark_name=b%20%C3%A9&limit=50"
    );
}

#[test]
fn decimal_numerals() {
    assert_eq!(decimal_string(0), "0");
    assert_eq!(decimal_string(7), "7");
    assert_eq!(decimal_string(4294967295), "4294967295");
}

#[test]
fn ingest_choices_and_tally() {
    let c = IngestCommand {
        repo: None,
        commit: None,
        branch: None,
        grpc_url: None,
        dry_run: true,
        files: vec!["a.json".to_string()],
    };
    assert_eq!(c.repository_choice(Some("d".to_string())), Some("d".to_string()));
    assert_eq!(c.endpoint("http://g"), "http://g");
    let mut t = IngestTally::new();
    t.record_file(2);
    assert!(!t.failed());
    t.record_error();
    assert!(t.failed());
    assert_eq!(t.ingested, 2);
}

#[test]
fn bisect_is_not_available() {
    let b = BisectCommand { good: None, bad: None, name: None, command: vec![] };
    assert!(b.execute().unwrap_err().contains("not yet implemented"));
}

#[test]
fn compare_threshold_flag_wins_and_is_validated() {
    let c = |t: Option<f64>| CompareCommand {
        base: "a".to_string(),
        head: "b".to_string(),
        threshold: t.map(fb),
        format: CompareFormat::Table,
    };
    assert_eq!(f64::from_bits(c(Some(2.0)).threshold_pct(fb(5.0)).unwrap().bits), 2.0);
    assert_eq!(f64::from_bits(c(None).threshold_pct(fb(5.0)).unwrap().bits), 5.0);
    assert!(c(Some(-1.0)).threshold_pct(fb(5.0)).is_err());
}

#[test]
fn bench_decisions() {
    let b = BenchCommand {
        repo: None,
        commit: None,
        branch: None,
        results_dir: None,
        threshold: None,
        no_fail: true,
        args: vec![],
    };
    assert_eq!(f64::from_bits(b.threshold_pct(fb(5.0)).unwrap().bits), 5.0);
    assert!(b.threshold_pct(fb(-1.0)).is_err());
    assert!(b.threshold_pct(fb(f64::NAN)).is_err());
    let flagged = BenchCommand { threshold: Some(fb(f64::INFINITY)), args: vec![], repo: None, commit: None, branch: None, results_dir: None, no_fail: true };
    assert!(flagged.threshold_pct(fb(5.0)).is_err());
    assert!(!b.fails(true));
    assert_eq!(benchmark_exit_code(None), 1);
    assert_eq!(benchmark_exit_code(Some(3)), 3);
    assert_eq!(
        result_dir_to_create(&ResultsStrategy::JsonFile("/p/.rafn/bench-results/x.json".to_string())).as_deref(),
        Some("/p/.rafn/bench-results")
    );
    assert_eq!(result_dir_to_create(&ResultsStrategy::CriterionDirectory("/p".to_string())), None);
}

#[test]
fn config_command_lines() {
    let config = Config::default();
    assert_eq!(get_line(&config, "cloud.api_url"), "https://api.rqfn.dev");
    assert_eq!(get_line(&config, "nope"), "(not set)");
    assert_eq!(set_line("cloud.api_url", "x"), "Set cloud.api_url = x");
}

#[test]
fn run_endpoint_and_exit_code() {
    let r = |url: &str| RunCommand {
        grpc_url: url.to_string(),
        repo: None,
        commit: None,
        branch: None,
        results_dir: None,
        dry_run: false,
        verbose: false,
        quiet: false,
        command: vec!["cargo".to_string()],
    };
    assert_eq!(r("http://localhost:50051").endpoint("http://conf".to_string()), "http://conf");
    assert_eq!(r("http://other").endpoint("http://conf".to_string()), "http://other");
    assert_eq!(run_exit_code(None, 1), 1);
    assert_eq!(run_exit_code(Some(2), 0), 2);
}

#[test]
fn trend_query_carries_name_and_limit() {
    let t = TrendCommand { repo: None, name: Some("b".to_string()), format: TrendFormat::Json, limit: 50, grpc_url: None };
    let q = t.query();
    assert_eq!(q.benchmark_name.as_deref(), Some("b"));
    assert_eq!(q.limit, 50);
}
