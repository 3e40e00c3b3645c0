use rafn::framework::cmake::first_cmake_executable;
use rafn::framework::detect::{detect_framework_from, DirProbe, FileProbe, ProjectFile};
use rafn::framework::{
    append_args, join_path_str, FrameworkError, Framework, ProcessCommand, ResultsStrategy,
};

fn probe() -> DirProbe {
    DirProbe {
        has_cargo_toml: false,
        pom_xml: FileProbe::Absent,
        cmake_lists: FileProbe::Absent,
        project_files: Ok(Vec::new()),
    }
}

fn csproj(path: &str, contents: &str) -> ProjectFile {
    ProjectFile { path: path.to_string(), contents: Ok(contents.to_string()) }
}

/// Walks from `dirs[0]` up through its ancestors (`dirs[1]`, ...), as the
/// command does with the file system.
fn detect(dirs: Vec<(&str, DirProbe)>, args: &[String]) -> Result<rafn::framework::FrameworkConfig, FrameworkError> {
    let dirs: Vec<(String, DirProbe)> = dirs.into_iter().map(|(d, p)| (d.to_string(), p)).collect();
    detect_framework_from(&dirs, args)
}

#[test]
fn detects_rust_criterion_and_passes_args() {
    let config = detect(
        vec![("/tmp/p", DirProbe { has_cargo_toml: true, ..probe() })],
        &["--bench".into(), "core".into()],
    )
    .unwrap();

    assert_eq!(config.framework, Framework::RustCriterion);
    assert_eq!(config.commands[0].program, "cargo");
    assert_eq!(config.commands[0].args, ["bench", "--bench", "core"]);
    match &config.results_strategy {
        ResultsStrategy::CriterionDirectory(d) => assert_eq!(d, "/tmp/p/target/criterion"),
        other => panic!("unexpected: {other:?}"),
    }
}

#[test]
fn detects_benchmarkdotnet_project() {
    let config = detect(
        vec![(
            "/tmp/p",
            DirProbe {
                project_files: Ok(vec![csproj(
                    "/tmp/p/Example.csproj",
                    r#"<PackageReference Include="BenchmarkDotNet" Version="0.14.0" />"#,
                )]),
                ..probe()
            },
        )],
        &["--filter".into()],
    )
    .expect("detect benchmarkdotnet");

    assert_eq!(config.framework, Framework::DotNetBenchmarkDotNet);
    assert_eq!(config.commands[0].program, "dotnet");
    assert!(config.commands[0].args.contains(&"--filter".to_string()));
    assert_eq!(config.commands[0].current_dir, "/tmp/p");
    match &config.results_strategy {
        ResultsStrategy::JsonDirectory { dir, required_suffix } => {
            assert_eq!(dir, "/tmp/p/BenchmarkDotNet.Artifacts/results");
            assert_eq!(required_suffix.as_deref(), Some("-report-full.json"));
        }
        other => panic!("unexpected: {other:?}"),
    }
}

#[test]
fn detects_jmh_project() {
    let config = detect(
        vec![(
            "/tmp/p",
            DirProbe { pom_xml: FileProbe::Text("<artifactId>jmh-core</artifactId>".to_string()), ..probe() },
        )],
        &[],
    )
    .unwrap();

    assert_eq!(config.framework, Framework::JavaJmh);
    assert_eq!(config.commands.len(), 2);
    assert_eq!(config.commands[1].args[0], "-jar");
    assert_eq!(config.commands[1].args[5], "/tmp/p/.rafn/bench-results/jmh-result.json");
}

#[test]
fn nearest_project_marker_wins() {
    let config = detect(
        vec![
            (
                "/tmp/root/examples/java",
                DirProbe { pom_xml: FileProbe::Text("<artifactId>jmh-core</artifactId>".to_string()), ..probe() },
            ),
            ("/tmp/root/examples", probe()),
            ("/tmp/root", DirProbe { has_cargo_toml: true, ..probe() }),
        ],
        &[],
    )
    .unwrap();

    assert_eq!(config.framework, Framework::JavaJmh);
}

#[test]
fn detects_google_benchmark_project() {
    let config = detect(
        vec![(
            "/tmp/p",
            DirProbe {
                cmake_lists: FileProbe::Text(
                    "add_executable(fibonacci_benchmark fibonacci_benchmark.cpp)\ntarget_link_libraries(fibonacci_benchmark benchmark::benchmark_main)".to_string(),
                ),
                ..probe()
            },
        )],
        &["--benchmark_filter=Fib".into()],
    )
    .unwrap();

    assert_eq!(config.framework, Framework::CppGoogleBenchmark);
    assert_eq!(config.commands.len(), 3);
    assert_eq!(config.commands[2].program, "./build/fibonacci_benchmark");
    assert!(config.commands[2].args.iter().any(|arg| arg.starts_with("--benchmark_out=")));
    assert!(config.commands[2].args.contains(&"--benchmark_filter=Fib".to_string()));
}

#[test]
fn unknown_project_errors() {
    let err = detect(vec![("/tmp/p", probe()), ("/tmp", probe()), ("/", probe())], &[]).unwrap_err();
    assert!(matches!(err, FrameworkError::NotFound));
}

#[test]
fn multiple_benchmarkdotnet_projects_error() {
    let content = r#"<PackageReference Include="BenchmarkDotNet" Version="0.14.0" />"#;
    let err = detect(
        vec![(
            "/tmp/p",
            DirProbe {
                project_files: Ok(vec![csproj("/tmp/p/Two.csproj", content), csproj("/tmp/p/One.csproj", content)]),
                ..probe()
            },
        )],
        &[],
    )
    .unwrap_err();
    match err {
        FrameworkError::MultipleBenchmarkDotNet(list) => {
            assert_eq!(list, vec!["/tmp/p/One.csproj".to_string(), "/tmp/p/Two.csproj".to_string()])
        }
        other => panic!("unexpected: {other:?}"),
    }
}

#[test]
fn unreadable_files_fail_only_when_reached() {
    let reached = detect(
        vec![("/tmp/p", DirProbe { pom_xml: FileProbe::Unreadable("denied".to_string()), ..probe() })],
        &[],
    );
    assert!(matches!(reached, Err(FrameworkError::ReadPom(ref c)) if c == "denied"));
    let shadowed = detect(
        vec![(
            "/tmp/p",
            DirProbe { has_cargo_toml: true, pom_xml: FileProbe::Unreadable("denied".to_string()), ..probe() },
        )],
        &[],
    );
    assert!(shadowed.is_ok());
}

#[test]
fn cmake_without_executable_errors() {
    let err = detect(
        vec![(
            "/tmp/p",
            DirProbe { cmake_lists: FileProbe::Text("find_package(benchmark::benchmark)".to_string()), ..probe() },
        )],
        &[],
    )
    .unwrap_err();
    assert!(matches!(err, FrameworkError::NoExecutable));
}

#[test]
fn first_cmake_executable_reads_first_add_executable() {
    assert_eq!(
        first_cmake_executable("project(x)\n  add_executable( bench_a a.cpp)\nadd_executable(bench_b b.cpp)"),
        Some("bench_a".to_string())
    );
    assert_eq!(first_cmake_executable("add_executable(solo)"), Some("solo".to_string()));
    assert_eq!(first_cmake_executable("add_executable()"), None);
    assert_eq!(first_cmake_executable("add_executable_x(a)\nadd_executable(b)"), None);
    assert_eq!(first_cmake_executable("project(x)"), None);
}

#[test]
fn process_command_display_joins_with_spaces() {
    let c = ProcessCommand::new("cargo".to_string(), vec!["bench".to_string(), "--x".to_string()], ".".to_string());
    assert_eq!(c.display(), "cargo bench --x");
    let bare = ProcessCommand::new("make".to_string(), vec![], ".".to_string());
    assert_eq!(bare.display(), "make");
}

#[test]
fn framework_labels() {
    assert_eq!(Framework::RustCriterion.to_display_string(), "rust/criterion");
    assert_eq!(Framework::DotNetBenchmarkDotNet.to_display_string(), "csharp/benchmarkdotnet");
    assert_eq!(Framework::JavaJmh.to_display_string(), "java/jmh");
    assert_eq!(Framework::CppGoogleBenchmark.to_display_string(), "cpp/google_benchmark");
}

#[test]
fn append_args_and_join_path() {
    assert_eq!(append_args(vec!["a", "b"], &["c".to_string()]), vec!["a", "b", "c"]);
    assert_eq!(join_path_str("/x", "y"), "/x/y");
    assert_eq!(join_path_str("/x/", "y"), "/x/y");
    assert_eq!(join_path_str("", "y"), "y");
    assert_eq!(join_path_str("/x", "/abs"), "/abs");
}
