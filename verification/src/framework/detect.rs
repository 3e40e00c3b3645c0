//! Detection of a project's framework, one directory at a time.
//!
//! Detection starts in a directory and moves to each parent in turn until
//! one of them decides. What a directory holds is read by the caller into a
//! [`DirProbe`]; [`detect_in_dir`] decides from it. Read failures are
//! carried as values, so a failure counts only where the order of
//! checks reaches the file.
use vstd::prelude::*;

use super::cmake::first_executable;
use super::{
    benchmarkdotnet_plan, cpp_google_benchmark, criterion_plan, dotnet_benchmarkdotnet,
    google_benchmark_plan, java_jmh, jmh_plan, rust_criterion, strings_view, FrameworkConfig,
    FrameworkError,
};
use crate::comparison::order::{lemma_seq_lt_asymmetric, lemma_seq_lt_transitive, seq_lt, str_lt};
use crate::text::{contains_seq, owned, str_contains};
use vstd::multiset::Multiset;

verus! {

broadcast use vstd::seq_lib::group_to_multiset_ensures;

/// A file looked for in a directory.
#[derive(Debug)]
pub enum FileProbe {
    /// The file does not exist.
    Absent,
    /// The file exists but could not be read; the cause.
    Unreadable(String),
    /// The file's contents.
    Text(String),
}

/// A `.csproj` file of the directory and what reading it gave.
#[derive(Debug)]
pub struct ProjectFile {
    pub path: String,
    pub contents: Result<String, String>,
}

/// What one directory holds, as far as detection needs it.
#[derive(Debug)]
pub struct DirProbe {
    pub has_cargo_toml: bool,
    pub pom_xml: FileProbe,
    pub cmake_lists: FileProbe,
    /// The `.csproj` files in listing order, or why the directory could not
    /// be listed.
    pub project_files: Result<Vec<ProjectFile>, String>,
}

/// The decision for one directory.
#[derive(Debug)]
pub enum DirDecision {
    Detected(FrameworkConfig),
    Failed(FrameworkError),
    /// Nothing here: go on with the parent directory.
    NotHere,
}

/// A `pom.xml` that uses JMH.
pub open spec fn is_jmh_pom(text: Seq<char>) -> bool {
    contains_seq(text, "jmh-core"@) || contains_seq(text, "org.openjdk.jmh"@)
}

/// A `CMakeLists.txt` that links Google Benchmark.
pub open spec fn is_google_benchmark_cmake(text: Seq<char>) -> bool {
    contains_seq(text, "benchmark::benchmark"@) || contains_seq(text, "googlebenchmark"@)
}

/// A project file that references BenchmarkDotNet.
pub open spec fn is_benchmarkdotnet_project(text: Seq<char>) -> bool {
    contains_seq(text, "BenchmarkDotNet"@)
}

/// `i` is the first project file that could not be read.
pub open spec fn is_first_unreadable(files: Seq<ProjectFile>, i: int) -> bool {
    &&& 0 <= i < files.len()
    &&& files[i].contents is Err
    &&& forall|j: int| 0 <= j < i ==> (#[trigger] files[j]).contents is Ok
}

/// The paths of the BenchmarkDotNet projects among `files`, in order.
pub open spec fn benchmarkdotnet_paths(files: Seq<ProjectFile>) -> Seq<Seq<char>>
    decreases files.len(),
{
    if files.len() == 0 {
        Seq::empty()
    } else {
        let before = benchmarkdotnet_paths(files.drop_last());
        match files.last().contents {
            Ok(text) => if is_benchmarkdotnet_project(text@) {
                before.push(files.last().path@)
            } else {
                before
            },
            Err(_) => before,
        }
    }
}

/// No path comes strictly before an earlier one.
pub open spec fn is_path_sorted(s: Seq<Seq<char>>) -> bool {
    forall|i: int, j: int| 0 <= i < j < s.len() ==> !seq_lt(#[trigger] s[j], #[trigger] s[i])
}

/// Sorts paths by their text: the order of `Path` for paths in one
/// directory. The result is a permutation of the input.
pub fn sort_paths(paths: Vec<String>) -> (sorted: Vec<String>)
    ensures
        strings_view(sorted@).to_multiset() == strings_view(paths@).to_multiset(),
        sorted@.len() == paths@.len(),
        is_path_sorted(strings_view(sorted@)),
{
    let ghost initial = strings_view(paths@);
    let mut rest = paths;
    let mut sorted: Vec<String> = Vec::new();
    while rest.len() > 0
        invariant
            strings_view(sorted@).to_multiset().add(strings_view(rest@).to_multiset())
                == initial.to_multiset(),
            is_path_sorted(strings_view(sorted@)),
        decreases rest@.len(),
    {
        let ghost rest_before = strings_view(rest@);
        let x = rest.pop().unwrap();
        proof {
            assert(rest_before =~= strings_view(rest@).push(x@));
        }
        let mut p: usize = 0;
        while p < sorted.len() && !str_lt(&x, &sorted[p])
            invariant
                p <= sorted@.len(),
                forall|k: int| 0 <= k < p ==> !seq_lt(x@, #[trigger] sorted@[k]@),
            decreases sorted@.len() - p,
        {
            p = p + 1;
        }
        let ghost before = strings_view(sorted@);
        sorted.insert(p, x);
        proof {
            let now = strings_view(sorted@);
            assert(now =~= before.insert(p as int, x@));
            assert forall|i: int, j: int| 0 <= i < j < now.len() implies !seq_lt(
                #[trigger] now[j],
                #[trigger] now[i],
            ) by {
                if j < p {
                    assert(now[i] == before[i] && now[j] == before[j]);
                } else if j == p {
                    assert(now[j] == x@ && now[i] == before[i]);
                } else if i == p {
                    assert(now[i] == x@ && now[j] == before[j - 1]);
                    assert(p < before.len() && seq_lt(x@, before[p as int]));
                    lemma_seq_lt_asymmetric(x@, before[p as int]);
                    if j - 1 > p {
                        assert(!seq_lt(before[j - 1], before[p as int]));
                        if seq_lt(before[j - 1], x@) {
                            lemma_seq_lt_transitive(before[j - 1], x@, before[p as int]);
                        }
                    }
                } else if i < p {
                    assert(now[i] == before[i] && now[j] == before[j - 1]);
                } else {
                    assert(now[i] == before[i - 1] && now[j] == before[j - 1]);
                }
            }
            assert(now.to_multiset() == before.to_multiset().insert(x@));
            assert(rest_before.to_multiset() == strings_view(rest@).to_multiset().insert(x@));
            assert(now.to_multiset().add(strings_view(rest@).to_multiset())
                =~= initial.to_multiset());
        }
    }
    proof {
        assert(strings_view(rest@).to_multiset() =~= Multiset::empty());
        assert(strings_view(sorted@).to_multiset() =~= initial.to_multiset());
        vstd::seq_lib::to_multiset_len(strings_view(sorted@));
        vstd::seq_lib::to_multiset_len(initial);
    }
    sorted
}

/// The BenchmarkDotNet project paths among `files` in order, or the index
/// of the first file that could not be read.
fn benchmarkdotnet_candidates(files: &Vec<ProjectFile>) -> (r: Result<Vec<String>, usize>)
    ensures
        match r {
            Ok(paths) => (forall|j: int| 0 <= j < files@.len() ==> (#[trigger] files@[j]).contents is Ok)
                && strings_view(paths@) == benchmarkdotnet_paths(files@),
            Err(i) => is_first_unreadable(files@, i as int),
        },
{
    let mut paths: Vec<String> = Vec::new();
    let mut i: usize = 0;
    while i < files.len()
        invariant
            i <= files@.len(),
            forall|j: int| 0 <= j < i ==> (#[trigger] files@[j]).contents is Ok,
            strings_view(paths@) == benchmarkdotnet_paths(files@.take(i as int)),
        decreases files@.len() - i,
    {
        let ghost prev = paths@;
        assert(files@.take(i + 1).drop_last() =~= files@.take(i as int));
        match &files[i].contents {
            Ok(text) => {
                if str_contains(text, "BenchmarkDotNet") {
                    paths.push(files[i].path.clone());
                    assert(strings_view(paths@) =~= strings_view(prev).push(files@[i as int].path@));
                }
            },
            Err(_) => {
                return Err(i);
            },
        }
        i = i + 1;
    }
    assert(files@.take(files@.len() as int) =~= files@);
    Ok(paths)
}

/// What `detect_in_dir` decides for the directory `dir` holding `probe`,
/// with `extra` handed to the benchmark command.
pub open spec fn decides(dir: Seq<char>, probe: DirProbe, extra: Seq<Seq<char>>, r: DirDecision) -> bool {
    let pom_passes = !probe.has_cargo_toml && (probe.pom_xml is Absent || (
    probe.pom_xml matches FileProbe::Text(t) && !is_jmh_pom(t@)));
    let cmake_passes = pom_passes && (probe.cmake_lists is Absent || (
    probe.cmake_lists matches FileProbe::Text(t) && !is_google_benchmark_cmake(t@)));
    &&& probe.has_cargo_toml ==> (r matches DirDecision::Detected(c) && c@ == criterion_plan(
            dir,
            extra,
        ))
        &&& !probe.has_cargo_toml ==> (probe.pom_xml matches FileProbe::Unreadable(e) ==> (
        r matches DirDecision::Failed(FrameworkError::ReadPom(x)) && x == e))
        &&& !probe.has_cargo_toml ==> (probe.pom_xml matches FileProbe::Text(t) ==> (is_jmh_pom(
            t@,
        ) ==> (r matches DirDecision::Detected(c) && c@ == jmh_plan(dir, extra))))
        &&& pom_passes ==> (probe.cmake_lists matches FileProbe::Unreadable(e) ==> (
        r matches DirDecision::Failed(FrameworkError::ReadCmake(x)) && x == e))
        &&& pom_passes ==> (probe.cmake_lists matches FileProbe::Text(t) ==> (
        is_google_benchmark_cmake(t@) ==> match first_executable(t@) {
            Some(exe) => (r matches DirDecision::Detected(c) && c@ == google_benchmark_plan(
                dir,
                exe,
                extra,
            )),
            None => (r matches DirDecision::Failed(FrameworkError::NoExecutable)),
        }))
        &&& cmake_passes ==> (probe.project_files matches Err(e) ==> (
        r matches DirDecision::Failed(FrameworkError::ReadDir { dir: d, cause }) && d@ == dir
            && cause == e))
        &&& cmake_passes ==> (probe.project_files matches Ok(files) ==> ((exists|i: int|
            is_first_unreadable(files@, i)) ==> (r matches DirDecision::Failed(
            FrameworkError::ReadProject { path, cause },
        ) && exists|i: int|
            is_first_unreadable(files@, i) && path == files@[i].path && files@[i].contents
                == Err::<String, String>(cause))))
        &&& cmake_passes ==> (probe.project_files matches Ok(files) ==> (!(exists|i: int|
            is_first_unreadable(files@, i)) ==> {
            let found = benchmarkdotnet_paths(files@);
            &&& found.len() == 0 ==> r is NotHere
            &&& found.len() == 1 ==> (r matches DirDecision::Detected(c)
                && c@ == benchmarkdotnet_plan(found[0], extra))
            &&& found.len() > 1 ==> (r matches DirDecision::Failed(
                FrameworkError::MultipleBenchmarkDotNet(list),
            ) && strings_view(list@).to_multiset() == found.to_multiset() && is_path_sorted(
                strings_view(list@),
            ))
        }))
}

/// Nothing in the directory decides: detection goes on with the parent.
pub open spec fn nothing_here(probe: DirProbe) -> bool {
    &&& !probe.has_cargo_toml
    &&& (probe.pom_xml is Absent || (probe.pom_xml matches FileProbe::Text(t) && !is_jmh_pom(t@)))
    &&& (probe.cmake_lists is Absent || (probe.cmake_lists matches FileProbe::Text(t)
        && !is_google_benchmark_cmake(t@)))
    &&& (probe.project_files matches Ok(files) && !(exists|i: int| is_first_unreadable(files@, i))
        && benchmarkdotnet_paths(files@).len() == 0)
}

/// Decides detection for the directory `dir` from what it holds. The
/// checks go in this order, and the first that applies decides: a
/// `Cargo.toml` (Rust Criterion); a `pom.xml` using JMH; a
/// `CMakeLists.txt` linking Google Benchmark; exactly one BenchmarkDotNet
/// `.csproj` (more than one fails, listing them in path order). A file that
/// must be read and cannot be fails detection. Otherwise the parent
/// directory is next.
pub fn detect_in_dir(dir: &str, probe: &DirProbe, passthrough_args: &[String]) -> (r: DirDecision)
    ensures
        decides(dir@, *probe, strings_view(passthrough_args@), r),
        (r is NotHere) == nothing_here(*probe),
{
    if probe.has_cargo_toml {
        return DirDecision::Detected(rust_criterion(owned(dir), passthrough_args));
    }
    match &probe.pom_xml {
        FileProbe::Unreadable(e) => {
            return DirDecision::Failed(FrameworkError::ReadPom(e.clone()));
        },
        FileProbe::Text(t) => {
            if str_contains(t, "jmh-core") || str_contains(t, "org.openjdk.jmh") {
                return DirDecision::Detected(java_jmh(owned(dir), passthrough_args));
            }
        },
        FileProbe::Absent => {},
    }
    match &probe.cmake_lists {
        FileProbe::Unreadable(e) => {
            return DirDecision::Failed(FrameworkError::ReadCmake(e.clone()));
        },
        FileProbe::Text(t) => {
            if str_contains(t, "benchmark::benchmark") || str_contains(t, "googlebenchmark") {
                return match cpp_google_benchmark(owned(dir), t, passthrough_args) {
                    Ok(c) => DirDecision::Detected(c),
                    Err(e) => DirDecision::Failed(e),
                };
            }
        },
        FileProbe::Absent => {},
    }
    let files = match &probe.project_files {
        Ok(files) => files,
        Err(e) => {
            return DirDecision::Failed(FrameworkError::ReadDir { dir: owned(dir), cause: e.clone() });
        },
    };
    match benchmarkdotnet_candidates(files) {
        Err(i) => {
            let cause = match &files[i].contents {
                Err(c) => c.clone(),
                Ok(_) => owned(""),
            };
            DirDecision::Failed(
                FrameworkError::ReadProject { path: files[i].path.clone(), cause },
            )
        },
        Ok(found) => {
            let ghost found_view = strings_view(found@);
            if found.len() == 0 {
                DirDecision::NotHere
            } else if found.len() == 1 {
                DirDecision::Detected(dotnet_benchmarkdotnet(&found[0], passthrough_args))
            } else {
                DirDecision::Failed(FrameworkError::MultipleBenchmarkDotNet(sort_paths(found)))
            }
        },
    }
}

/// Index `k` is the nearest directory whose contents decide: every
/// directory before it holds nothing that decides.
pub open spec fn is_nearest_marker(dirs: Seq<(String, DirProbe)>, k: int) -> bool {
    &&& 0 <= k < dirs.len()
    &&& !nothing_here(dirs[k].1)
    &&& forall|j: int| 0 <= j < k ==> nothing_here(#[trigger] dirs[j].1)
}

/// What detection gives when a directory's decision `d` ends the walk.
pub open spec fn ends_with_decision(d: DirDecision, r: Result<FrameworkConfig, FrameworkError>) -> bool {
    match d {
        DirDecision::Detected(c) => r == Ok::<FrameworkConfig, FrameworkError>(c),
        DirDecision::Failed(e) => r == Err::<FrameworkConfig, FrameworkError>(e),
        DirDecision::NotHere => false,
    }
}

/// Detects the framework walking up from a directory: `dirs` lists it and
/// then each ancestor up to the root, with what each holds. The nearest
/// directory whose contents decide gives the result, and the directories
/// above it never matter; where none decides, no framework is found.
pub fn detect_framework_from(dirs: &[(String, DirProbe)], passthrough_args: &[String]) -> (r: Result<
    FrameworkConfig,
    FrameworkError,
>)
    ensures
        (forall|j: int| 0 <= j < dirs@.len() ==> nothing_here(#[trigger] dirs@[j].1)) ==> (
        r matches Err(FrameworkError::NotFound)),
        forall|k: int|
            #[trigger] is_nearest_marker(dirs@, k) ==> exists|d: DirDecision|
                decides(dirs@[k].0@, dirs@[k].1, strings_view(passthrough_args@), d)
                    && #[trigger] ends_with_decision(d, r),
{
    let mut i: usize = 0;
    while i < dirs.len()
        invariant
            i <= dirs@.len(),
            forall|j: int| 0 <= j < i ==> nothing_here(#[trigger] dirs@[j].1),
        decreases dirs@.len() - i,
    {
        let d = detect_in_dir(&dirs[i].0, &dirs[i].1, passthrough_args);
        let ghost g = d;
        proof {
            assert forall|k: int| #[trigger] is_nearest_marker(dirs@, k) && !(g is NotHere) implies k
                == i by {
                if k < i {
                    assert(nothing_here(dirs@[k].1));
                } else if k > i {
                    assert(nothing_here(dirs@[i as int].1));
                }
            }
        }
        match d {
            DirDecision::Detected(c) => {
                let r = Ok(c);
                assert(ends_with_decision(g, r));
                return r;
            },
            DirDecision::Failed(e) => {
                let r = Err(e);
                assert(ends_with_decision(g, r));
                return r;
            },
            DirDecision::NotHere => {},
        }
        i = i + 1;
    }
    Err(FrameworkError::NotFound)
}

} // verus!
