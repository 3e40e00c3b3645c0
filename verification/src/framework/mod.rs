//! Benchmark frameworks and the run plan of each.
//!
//! Paths are carried as strings and joined with `/`, as `Path::join` does on
//! Unix. Detection walks a project's directories; the caller reads each
//! directory and hands the findings to [`detect::detect_in_dir`].
use vstd::prelude::*;

use crate::text::{chars_of, concat2, owned, opt_view, push_all, push_char};
use crate::framework::cmake::{first_cmake_executable, first_executable};

pub mod cmake;
pub mod detect;

verus! {

/// Supported benchmark frameworks.
#[derive(Debug, Clone, Copy, PartialEq, Eq, Structural)]
pub enum Framework {
    RustCriterion,
    DotNetBenchmarkDotNet,
    JavaJmh,
    CppGoogleBenchmark,
}

impl Framework {
    /// The `language/toolset` label of the framework.
    pub open spec fn label(self) -> Seq<char> {
        match self {
            Framework::RustCriterion => "rust/criterion"@,
            Framework::DotNetBenchmarkDotNet => "csharp/benchmarkdotnet"@,
            Framework::JavaJmh => "java/jmh"@,
            Framework::CppGoogleBenchmark => "cpp/google_benchmark"@,
        }
    }

    /// The framework's label, e.g. `rust/criterion`.
    pub fn to_display_string(&self) -> (r: String)
        ensures
            r@ == self.label(),
    {
        match self {
            Framework::RustCriterion => owned("rust/criterion"),
            Framework::DotNetBenchmarkDotNet => owned("csharp/benchmarkdotnet"),
            Framework::JavaJmh => owned("java/jmh"),
            Framework::CppGoogleBenchmark => owned("cpp/google_benchmark"),
        }
    }
}

/// The character sequences of a list of strings.
pub open spec fn strings_view(v: Seq<String>) -> Seq<Seq<char>> {
    v.map_values(|s: String| s@)
}

/// The character sequences of a list of string slices.
pub open spec fn strs_view(v: Seq<&str>) -> Seq<Seq<char>> {
    v.map_values(|s: &str| s@)
}

/// Each word preceded by one space, concatenated.
pub open spec fn spaced(words: Seq<Seq<char>>) -> Seq<char>
    decreases words.len(),
{
    if words.len() == 0 {
        Seq::empty()
    } else {
        spaced(words.drop_last()) + seq![' '] + words.last()
    }
}

/// `Path::join` on Unix: an absolute `rel` replaces `base`; otherwise a
/// `/` separates them unless `base` is empty or already ends in one.
pub open spec fn join_path(base: Seq<char>, rel: Seq<char>) -> Seq<char> {
    if rel.len() > 0 && rel[0] == '/' {
        rel
    } else if base.len() == 0 || base.last() == '/' {
        base + rel
    } else {
        base + seq!['/'] + rel
    }
}

/// Joins `rel` onto the path `base`.
pub fn join_path_str(base: &str, rel: &str) -> (r: String)
    ensures
        r@ == join_path(base@, rel@),
{
    let b = chars_of(base);
    let t = chars_of(rel);
    if t.len() > 0 && t[0] == '/' {
        return owned(rel);
    }
    let mut r = owned(base);
    if b.len() > 0 && b[b.len() - 1] != '/' {
        push_char(&mut r, '/');
    }
    push_all(&mut r, rel);
    r
}

/// A subprocess step of a run plan.
#[derive(Debug)]
pub struct ProcessCommand {
    pub program: String,
    pub args: Vec<String>,
    pub current_dir: String,
}

impl View for ProcessCommand {
    type V = (Seq<char>, Seq<Seq<char>>, Seq<char>);

    open spec fn view(&self) -> Self::V {
        (self.program@, strings_view(self.args@), self.current_dir@)
    }
}

impl ProcessCommand {
    /// A step running `program` with `args` in `current_dir`.
    pub fn new(program: String, args: Vec<String>, current_dir: String) -> (c: Self)
        ensures
            c.program == program,
            c.args == args,
            c.current_dir == current_dir,
    {
        ProcessCommand { program, args, current_dir }
    }

    /// The command line: the program and its arguments, separated by
    /// single spaces.
    pub fn display(&self) -> (r: String)
        ensures
            r@ == self.program@ + spaced(strings_view(self.args@)),
    {
        let mut r = self.program.clone();
        let mut i: usize = 0;
        while i < self.args.len()
            invariant
                i <= self.args@.len(),
                r@ == self.program@ + spaced(strings_view(self.args@.take(i as int))),
            decreases self.args@.len() - i,
        {
            proof {
                let before = strings_view(self.args@.take(i as int));
                let after = strings_view(self.args@.take(i + 1));
                assert(after.drop_last() =~= before);
                assert(after.last() == self.args@[i as int]@);
            }
            push_char(&mut r, ' ');
            push_all(&mut r, &self.args[i]);
            i = i + 1;
        }
        assert(self.args@.take(self.args@.len() as int) =~= self.args@);
        r
    }
}

/// `args` followed by the caller's extra arguments.
pub fn append_args(args: Vec<&str>, passthrough_args: &[String]) -> (r: Vec<String>)
    ensures
        strings_view(r@) == strs_view(args@) + strings_view(passthrough_args@),
{
    let mut r: Vec<String> = Vec::new();
    let mut i: usize = 0;
    while i < args.len()
        invariant
            i <= args@.len(),
            strings_view(r@) == strs_view(args@.take(i as int)),
        decreases args@.len() - i,
    {
        let ghost prev = r@;
        r.push(owned(args[i]));
        proof {
            let want = strs_view(args@.take(i + 1));
            assert(strings_view(prev).len() == prev.len());
            assert(prev.len() == i);
            assert(want.len() == i + 1);
            assert forall|k: int| 0 <= k < r@.len() implies #[trigger] strings_view(r@)[k]
                == want[k] by {
                if k < prev.len() {
                    assert(strings_view(prev)[k] == strs_view(args@.take(i as int))[k]);
                }
            }
            assert(strings_view(r@) =~= want);
        }
        i = i + 1;
    }
    assert(args@.take(args@.len() as int) =~= args@);
    let mut j: usize = 0;
    while j < passthrough_args.len()
        invariant
            i == args@.len(),
            j <= passthrough_args@.len(),
            strings_view(r@) == strs_view(args@) + strings_view(passthrough_args@.take(j as int)),
        decreases passthrough_args@.len() - j,
    {
        let ghost prev = r@;
        r.push(passthrough_args[j].clone());
        proof {
            let want = strs_view(args@) + strings_view(passthrough_args@.take(j + 1));
            let had = strs_view(args@) + strings_view(passthrough_args@.take(j as int));
            assert(strings_view(prev).len() == prev.len());
            assert(prev.len() == had.len());
            assert(want.len() == had.len() + 1);
            assert forall|k: int| 0 <= k < r@.len() implies #[trigger] strings_view(r@)[k]
                == want[k] by {
                if k < prev.len() {
                    assert(strings_view(prev)[k] == had[k]);
                }
            }
            assert(strings_view(r@) =~= want);
        }
        j = j + 1;
    }
    assert(passthrough_args@.take(passthrough_args@.len() as int) =~= passthrough_args@);
    r
}

/// Where a framework's results are found after a run.
#[derive(Debug)]
pub enum ResultsStrategy {
    /// Criterion's `target/criterion` tree.
    CriterionDirectory(String),
    /// A single JSON result file.
    JsonFile(String),
    /// The JSON files of a directory, optionally only those whose name ends
    /// in `required_suffix`.
    JsonDirectory { dir: String, required_suffix: Option<String> },
}

/// The model of a [`ResultsStrategy`].
pub enum StrategyView {
    CriterionDirectory(Seq<char>),
    JsonFile(Seq<char>),
    JsonDirectory(Seq<char>, Option<Seq<char>>),
}

impl View for ResultsStrategy {
    type V = StrategyView;

    open spec fn view(&self) -> StrategyView {
        match self {
            ResultsStrategy::CriterionDirectory(d) => StrategyView::CriterionDirectory(d@),
            ResultsStrategy::JsonFile(f) => StrategyView::JsonFile(f@),
            ResultsStrategy::JsonDirectory { dir, required_suffix } => StrategyView::JsonDirectory(
                dir@,
                match required_suffix {
                    Some(s) => Some(s@),
                    None => None,
                },
            ),
        }
    }
}

/// A detected framework and its run plan.
#[derive(Debug)]
pub struct FrameworkConfig {
    pub framework: Framework,
    pub commands: Vec<ProcessCommand>,
    pub results_strategy: ResultsStrategy,
}

impl View for FrameworkConfig {
    type V = (Framework, Seq<(Seq<char>, Seq<Seq<char>>, Seq<char>)>, StrategyView);

    open spec fn view(&self) -> Self::V {
        (
            self.framework,
            self.commands@.map_values(|c: ProcessCommand| c@),
            self.results_strategy@,
        )
    }
}

/// The model of a [`ProcessCommand`]: program, arguments, directory.
pub type CommandModel = (Seq<char>, Seq<Seq<char>>, Seq<char>);

/// The model of a [`FrameworkConfig`].
pub type PlanModel = (Framework, Seq<CommandModel>, StrategyView);

/// The parent of a path as `std::path::Path::parent` gives it (`None` for
/// a root or an empty path). A function of the path's text alone.
pub uninterp spec fn path_parent(p: Seq<char>) -> Option<Seq<char>>;

/// `std::path::Path::parent`: the contract claims only that the result is
/// the parent named by [`path_parent`], as text.
#[verifier::external_body]
pub(crate) fn parent_of(p: &str) -> (r: Option<String>)
    ensures
        opt_view(r) == path_parent(p@),
{
    match std::path::Path::new(p).parent() {
        Some(d) => Some(d.to_string_lossy().into_owned()),
        None => None,
    }
}

/// Why no run plan could be made.
#[derive(Debug)]
pub enum FrameworkError {
    /// `pom.xml` exists but could not be read; the cause is carried.
    ReadPom(String),
    /// `CMakeLists.txt` exists but could not be read.
    ReadCmake(String),
    /// The directory could not be listed.
    ReadDir { dir: String, cause: String },
    /// A `.csproj` file could not be read.
    ReadProject { path: String, cause: String },
    /// A Google Benchmark project names no executable.
    NoExecutable,
    /// More than one BenchmarkDotNet project, in path order.
    MultipleBenchmarkDotNet(Vec<String>),
    /// No directory up to the root holds a supported project.
    NotFound,
}

/// The plan for a Rust Criterion project in `dir`.
pub open spec fn criterion_plan(dir: Seq<char>, extra: Seq<Seq<char>>) -> PlanModel {
    (
        Framework::RustCriterion,
        seq![("cargo"@, seq!["bench"@] + extra, dir)],
        StrategyView::CriterionDirectory(join_path(dir, "target/criterion"@)),
    )
}

/// The directory of a `.csproj` file: its parent, or `.` when it has none.
pub open spec fn project_dir_of(csproj: Seq<char>) -> Seq<char> {
    match path_parent(csproj) {
        Some(d) => d,
        None => "."@,
    }
}

/// The plan for the BenchmarkDotNet project `csproj`.
pub open spec fn benchmarkdotnet_plan(csproj: Seq<char>, extra: Seq<Seq<char>>) -> PlanModel {
    let dir = project_dir_of(csproj);
    (
        Framework::DotNetBenchmarkDotNet,
        seq![
            (
                "dotnet"@,
                seq!["run"@, "-c"@, "Release"@, "--project"@, csproj, "--"@] + extra,
                dir,
            ),
        ],
        StrategyView::JsonDirectory(
            join_path(dir, "BenchmarkDotNet.Artifacts/results"@),
            Some("-report-full.json"@),
        ),
    )
}

/// The plan for a JMH project in `dir`.
pub open spec fn jmh_plan(dir: Seq<char>, extra: Seq<Seq<char>>) -> PlanModel {
    let result = join_path(dir, ".rafn/bench-results/jmh-result.json"@);
    (
        Framework::JavaJmh,
        seq![
            ("mvn"@, seq!["package"@], dir),
            (
                "java"@,
                seq!["-jar"@, "target/benchmarks.jar"@, "-rf"@, "json"@, "-rff"@, result] + extra,
                dir,
            ),
        ],
        StrategyView::JsonFile(result),
    )
}

/// The plan for a Google Benchmark project in `dir` whose executable is
/// `exe`.
pub open spec fn google_benchmark_plan(
    dir: Seq<char>,
    exe: Seq<char>,
    extra: Seq<Seq<char>>,
) -> PlanModel {
    let result = join_path(dir, ".rafn/bench-results/google-benchmark.json"@);
    (
        Framework::CppGoogleBenchmark,
        seq![
            ("cmake"@, seq!["-B"@, "build"@, "-DCMAKE_BUILD_TYPE=Release"@], dir),
            ("cmake"@, seq!["--build"@, "build"@, "--parallel"@], dir),
            (
                "./build/"@ + exe,
                seq!["--benchmark_format=json"@, "--benchmark_out="@ + result] + extra,
                dir,
            ),
        ],
        StrategyView::JsonFile(result),
    )
}

/// The JMH and Google Benchmark plans ask their tool for JSON results
/// written to the very file their results strategy reads, and every plan
/// runs its benchmark command in the project's directory with the
/// passthrough arguments last and unchanged.
pub proof fn lemma_plans_request_json_results(
    dir: Seq<char>,
    exe: Seq<char>,
    csproj: Seq<char>,
    extra: Seq<Seq<char>>,
)
    ensures
        ({
            let p = benchmarkdotnet_plan(csproj, extra);
            let run = p.1.last();
            &&& p.0 == Framework::DotNetBenchmarkDotNet
            &&& p.1.len() == 1 && run.0 == "dotnet"@
            &&& run.1.len() == 6 + extra.len()
            &&& run.1[0] == "run"@ && run.1[1] == "-c"@ && run.1[2] == "Release"@
            &&& run.1[3] == "--project"@ && run.1[4] == csproj && run.1[5] == "--"@
            &&& run.1.skip(6) == extra
            &&& p.2 matches StrategyView::JsonDirectory(d, Some(suffix)) && suffix
                == "-report-full.json"@ && d == join_path(run.2, "BenchmarkDotNet.Artifacts/results"@)
        }),
        ({
            let p = jmh_plan(dir, extra);
            let run = p.1.last();
            &&& p.0 == Framework::JavaJmh
            &&& run.0 == "java"@ && run.2 == dir
            &&& run.1.len() == 6 + extra.len()
            &&& run.1[2] == "-rf"@ && run.1[3] == "json"@ && run.1[4] == "-rff"@
            &&& p.2 == StrategyView::JsonFile(run.1[5])
            &&& run.1.skip(6) == extra
        }),
        ({
            let p = google_benchmark_plan(dir, exe, extra);
            let run = p.1.last();
            &&& p.0 == Framework::CppGoogleBenchmark
            &&& run.2 == dir
            &&& run.1.len() == 2 + extra.len()
            &&& run.1[0] == "--benchmark_format=json"@
            &&& p.2 matches StrategyView::JsonFile(f) && run.1[1] == "--benchmark_out="@ + f
            &&& run.1.skip(2) == extra
        }),
        ({
            let p = criterion_plan(dir, extra);
            &&& p.0 == Framework::RustCriterion
            &&& p.1.len() == 1 && p.1[0].0 == "cargo"@ && p.1[0].2 == dir
            &&& p.1[0].1[0] == "bench"@ && p.1[0].1.skip(1) == extra
            &&& p.2 is CriterionDirectory
        }),
{
    let p = jmh_plan(dir, extra);
    assert(p.1.last().1.skip(6) =~= extra);
    let g = google_benchmark_plan(dir, exe, extra);
    assert(g.1.last().1.skip(2) =~= extra);
    let c = criterion_plan(dir, extra);
    assert(c.1[0].1.skip(1) =~= extra);
    let d = benchmarkdotnet_plan(csproj, extra);
    assert(d.1.last().1.skip(6) =~= extra);
}

/// Runs `cargo bench` in `project_dir`; results under `target/criterion`.
pub fn rust_criterion(project_dir: String, passthrough_args: &[String]) -> (c: FrameworkConfig)
    ensures
        c@ == criterion_plan(project_dir@, strings_view(passthrough_args@)),
{
    let ghost dir = project_dir@;
    let results = join_path_str(&project_dir, "target/criterion");
    let words = vec!["bench"];
    assert(strs_view(words@) =~= seq!["bench"@]);
    let cmd = ProcessCommand::new(owned("cargo"), append_args(words, passthrough_args), project_dir);
    let commands = vec![cmd];
    assert(commands@.map_values(|c: ProcessCommand| c@) =~= criterion_plan(
        dir,
        strings_view(passthrough_args@),
    ).1);
    FrameworkConfig {
        framework: Framework::RustCriterion,
        commands,
        results_strategy: ResultsStrategy::CriterionDirectory(results),
    }
}

/// Runs the BenchmarkDotNet project `csproj` with `dotnet run` from its
/// directory; results are the `-report-full.json` files of
/// `BenchmarkDotNet.Artifacts/results`.
pub fn dotnet_benchmarkdotnet(csproj: &str, passthrough_args: &[String]) -> (c: FrameworkConfig)
    ensures
        c@ == benchmarkdotnet_plan(csproj@, strings_view(passthrough_args@)),
{
    let project_dir = match parent_of(csproj) {
        Some(d) => d,
        None => owned("."),
    };
    let ghost dir = project_dir@;
    let results = join_path_str(&project_dir, "BenchmarkDotNet.Artifacts/results");
    let words = vec!["run", "-c", "Release", "--project", csproj, "--"];
    assert(strs_view(words@) =~= seq!["run"@, "-c"@, "Release"@, "--project"@, csproj@, "--"@]);
    let cmd = ProcessCommand::new(owned("dotnet"), append_args(words, passthrough_args), project_dir);
    let commands = vec![cmd];
    assert(commands@.map_values(|c: ProcessCommand| c@) =~= benchmarkdotnet_plan(
        csproj@,
        strings_view(passthrough_args@),
    ).1);
    FrameworkConfig {
        framework: Framework::DotNetBenchmarkDotNet,
        commands,
        results_strategy: ResultsStrategy::JsonDirectory {
            dir: results,
            required_suffix: Some(owned("-report-full.json")),
        },
    }
}

/// Builds with `mvn package`, then runs the benchmarks jar writing JSON
/// results to `.rafn/bench-results/jmh-result.json`.
pub fn java_jmh(project_dir: String, passthrough_args: &[String]) -> (c: FrameworkConfig)
    ensures
        c@ == jmh_plan(project_dir@, strings_view(passthrough_args@)),
{
    let ghost dir = project_dir@;
    let result_file = join_path_str(&project_dir, ".rafn/bench-results/jmh-result.json");
    let package = vec![owned("package")];
    assert(strings_view(package@) =~= seq!["package"@]);
    let build = ProcessCommand::new(owned("mvn"), package, project_dir.clone());
    let words = vec!["-jar", "target/benchmarks.jar", "-rf", "json", "-rff", result_file.as_str()];
    assert(strs_view(words@) =~= seq![
        "-jar"@,
        "target/benchmarks.jar"@,
        "-rf"@,
        "json"@,
        "-rff"@,
        result_file@,
    ]);
    let run = ProcessCommand::new(owned("java"), append_args(words, passthrough_args), project_dir);
    let commands = vec![build, run];
    assert(commands@.map_values(|c: ProcessCommand| c@) =~= jmh_plan(
        dir,
        strings_view(passthrough_args@),
    ).1);
    FrameworkConfig {
        framework: Framework::JavaJmh,
        commands,
        results_strategy: ResultsStrategy::JsonFile(result_file),
    }
}

/// Configures and builds with CMake, then runs the executable named by the
/// first `add_executable` of `cmake`, writing JSON results to
/// `.rafn/bench-results/google-benchmark.json`. Fails when no executable is
/// named.
pub fn cpp_google_benchmark(project_dir: String, cmake: &str, passthrough_args: &[String]) -> (r:
    Result<FrameworkConfig, FrameworkError>)
    ensures
        match first_executable(cmake@) {
            Some(exe) => (r matches Ok(c) && c@ == google_benchmark_plan(
                project_dir@,
                exe,
                strings_view(passthrough_args@),
            )),
            None => (r matches Err(FrameworkError::NoExecutable)),
        },
{
    let executable = match first_cmake_executable(cmake) {
        Some(e) => e,
        None => {
            return Err(FrameworkError::NoExecutable);
        },
    };
    let ghost dir = project_dir@;
    let result_file = join_path_str(&project_dir, ".rafn/bench-results/google-benchmark.json");
    let executable_path = concat2("./build/", &executable);
    let configure = vec![owned("-B"), owned("build"), owned("-DCMAKE_BUILD_TYPE=Release")];
    assert(strings_view(configure@) =~= seq!["-B"@, "build"@, "-DCMAKE_BUILD_TYPE=Release"@]);
    let build_args = vec![owned("--build"), owned("build"), owned("--parallel")];
    assert(strings_view(build_args@) =~= seq!["--build"@, "build"@, "--parallel"@]);
    let out_arg = concat2("--benchmark_out=", &result_file);
    let words = vec!["--benchmark_format=json", out_arg.as_str()];
    assert(strs_view(words@) =~= seq!["--benchmark_format=json"@, out_arg@]);
    let run_args = append_args(words, passthrough_args);
    let configure_cmd = ProcessCommand::new(owned("cmake"), configure, project_dir.clone());
    let build_cmd = ProcessCommand::new(owned("cmake"), build_args, project_dir.clone());
    let run_cmd = ProcessCommand::new(executable_path, run_args, project_dir);
    let commands = vec![configure_cmd, build_cmd, run_cmd];
    assert(commands@.map_values(|c: ProcessCommand| c@) =~= google_benchmark_plan(
        dir,
        executable@,
        strings_view(passthrough_args@),
    ).1);
    Ok(
        FrameworkConfig {
            framework: Framework::CppGoogleBenchmark,
            commands,
            results_strategy: ResultsStrategy::JsonFile(result_file),
        },
    )
}

} // verus!
