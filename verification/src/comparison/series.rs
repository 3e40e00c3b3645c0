//! Series keys: how they are built from stored benchmark sets, named in
//! output and matched.
use vstd::prelude::*;

use super::{series_identity, SeriesKey, SeriesMean, Verdict};
use crate::floatbits::FloatBits;
use crate::proto::benchmark::{spec_unit_from_code, statistic_mean_ns, unit_from_code};
use crate::proto::{BenchmarkSet, Unit};
use crate::text::{eq_str, owned, push_all};

verus! {

/// The part of a key that matches a series between two commits.
pub fn identity(key: &SeriesKey) -> (r: (String, String, String))
    ensures
        (r.0@, r.1@, r.2@) == series_identity(*key),
{
    (key.benchmark_name.clone(), key.metric_name.clone(), key.parameters_json.clone())
}

/// The fields a key is ordered by, in order.
pub fn sort_key(key: &SeriesKey) -> (r: (&str, &str, &str, &str))
    ensures
        r.0@ == key.benchmark_name@,
        r.1@ == key.metric_name@,
        r.2@ == key.parameters_json@,
        r.3@ == key.branch@,
{
    (
        key.benchmark_name.as_str(),
        key.metric_name.as_str(),
        key.parameters_json.as_str(),
        key.branch.as_str(),
    )
}

/// The lowercase name of a unit, without its `UNIT_` prefix.
pub open spec fn unit_label(u: Unit) -> Seq<char> {
    match u {
        Unit::Unspecified => "unspecified"@,
        Unit::Nanoseconds => "nanoseconds"@,
        Unit::Microseconds => "microseconds"@,
        Unit::Milliseconds => "milliseconds"@,
        Unit::Seconds => "seconds"@,
        Unit::Bytes => "bytes"@,
        Unit::AllocationCount => "allocation_count"@,
        Unit::CacheMisses => "cache_misses"@,
        Unit::BranchMisses => "branch_misses"@,
        Unit::Instructions => "instructions"@,
        Unit::Cycles => "cycles"@,
        Unit::PageFaults => "page_faults"@,
        Unit::CountPerSecond => "count_per_second"@,
        Unit::BitsPerSecond => "bits_per_second"@,
        Unit::Ratio => "ratio"@,
        Unit::Dimensionless => "dimensionless"@,
    }
}

/// The name a comparison works with for the unit with protobuf number
/// `unit`, e.g. `nanoseconds`; an unknown number is `unspecified`.
pub fn unit_name(unit: i32) -> (r: String)
    ensures
        r@ == unit_label(spec_unit_from_code(unit)),
{
    match unit_from_code(unit) {
        Unit::Unspecified => owned("unspecified"),
        Unit::Nanoseconds => owned("nanoseconds"),
        Unit::Microseconds => owned("microseconds"),
        Unit::Milliseconds => owned("milliseconds"),
        Unit::Seconds => owned("seconds"),
        Unit::Bytes => owned("bytes"),
        Unit::AllocationCount => owned("allocation_count"),
        Unit::CacheMisses => owned("cache_misses"),
        Unit::BranchMisses => owned("branch_misses"),
        Unit::Instructions => owned("instructions"),
        Unit::Cycles => owned("cycles"),
        Unit::PageFaults => owned("page_faults"),
        Unit::CountPerSecond => owned("count_per_second"),
        Unit::BitsPerSecond => owned("bits_per_second"),
        Unit::Ratio => owned("ratio"),
        Unit::Dimensionless => owned("dimensionless"),
    }
}

/// The row label of a series: `name (metric)`, followed by a space and
/// the parameter bindings unless there are none (empty or `{}`).
pub open spec fn spec_display_name(key: SeriesKey) -> Seq<char> {
    let name = key.benchmark_name@ + " ("@ + key.metric_name@ + ")"@;
    if key.parameters_json@.len() == 0 || key.parameters_json@ == "{}"@ {
        name
    } else {
        name + " "@ + key.parameters_json@
    }
}

/// The row label of a series; the metric is part of it, as it is part of
/// the series' identity.
pub fn display_name(key: &SeriesKey) -> (r: String)
    ensures
        r@ == spec_display_name(*key),
{
    let mut name = key.benchmark_name.clone();
    push_all(&mut name, " (");
    push_all(&mut name, &key.metric_name);
    push_all(&mut name, ")");
    proof {
        reveal_strlit("");
        assert(key.parameters_json@.len() == 0 ==> key.parameters_json@ =~= ""@);
    }
    if eq_str(&key.parameters_json, "") || eq_str(&key.parameters_json, "{}") {
        name
    } else {
        push_all(&mut name, " ");
        push_all(&mut name, &key.parameters_json);
        name
    }
}

/// No character of `s` is the escape character.
pub open spec fn no_escape(s: Seq<char>) -> bool {
    forall|i: int| 0 <= i < s.len() ==> s[i] != '\x1b'
}

/// `colored::Colorize::red` rendered with `to_string`. Whether colour is
/// emitted depends on the environment and the terminal, so the contract
/// claims, for text without escape characters, only that the result is the
/// text itself or the text between the red and the reset sequences.
#[verifier::external_body]
fn paint_red(text: &str) -> (r: String)
    ensures
        no_escape(text@) ==> (r@ == text@ || r@ == "\x1b[31m"@ + text@ + "\x1b[0m"@),
{
    colored::Colorize::red(text).to_string()
}

/// `colored::Colorize::green` rendered with `to_string`; as for
/// [`paint_red`], with the green sequence.
#[verifier::external_body]
fn paint_green(text: &str) -> (r: String)
    ensures
        no_escape(text@) ==> (r@ == text@ || r@ == "\x1b[32m"@ + text@ + "\x1b[0m"@),
{
    colored::Colorize::green(text).to_string()
}

/// The verdict column of a report row: `✗ regressed` in red, `✓ improved`
/// in green, `unchanged` plain. Colour is left out where the terminal or
/// the environment asks for none.
pub fn format_verdict(verdict: Verdict) -> (r: String)
    ensures
        verdict == Verdict::Regressed ==> (r@ == "✗ regressed"@ || r@ == "\x1b[31m"@
            + "✗ regressed"@ + "\x1b[0m"@),
        verdict == Verdict::Improved ==> (r@ == "✓ improved"@ || r@ == "\x1b[32m"@ + "✓ improved"@
            + "\x1b[0m"@),
        verdict == Verdict::Unchanged ==> r@ == "unchanged"@,
{
    match verdict {
        Verdict::Regressed => {
            proof {
                reveal_strlit("✗ regressed");
            }
            paint_red("✗ regressed")
        },
        Verdict::Improved => {
            proof {
                reveal_strlit("✓ improved");
            }
            paint_green("✓ improved")
        },
        Verdict::Unchanged => owned("unchanged"),
    }
}

/// The model of a [`SeriesMean`]: benchmark, metric, parameters, branch,
/// unit and mean.
pub type MeanModel = (Seq<char>, Seq<char>, Seq<char>, Seq<char>, Seq<char>, FloatBits);

/// The model of a series mean.
pub open spec fn mean_model(m: SeriesMean) -> MeanModel {
    (m.key.benchmark_name@, m.key.metric_name@, m.key.parameters_json@, m.key.branch@, m.unit@, m.mean)
}

/// The branch a set was recorded on, empty when unknown.
pub open spec fn set_branch(set: BenchmarkSet) -> Seq<char> {
    match set.source {
        Some(s) => match s.branch {
            Some(b) => b@,
            None => Seq::empty(),
        },
        None => Seq::empty(),
    }
}

/// The series of the first `n` benchmarks of `set` that have a mean, with
/// `params[i]` the parameter bindings of benchmark `i`.
pub open spec fn set_series(set: BenchmarkSet, params: Seq<String>, n: int) -> Seq<MeanModel>
    decreases n,
{
    if n <= 0 {
        Seq::empty()
    } else {
        let before = set_series(set, params, n - 1);
        let b = set.benchmarks@[n - 1];
        match b.statistics {
            Some(s) => match s.mean {
                Some(m) => before.push(
                    (
                        b.name@,
                        set.metric_name@,
                        params[n - 1]@,
                        set_branch(set),
                        unit_label(spec_unit_from_code(set.unit)),
                        m,
                    ),
                ),
                None => before,
            },
            None => before,
        }
    }
}

/// The series of the first `n` sets, in order.
pub open spec fn all_series(sets: Seq<BenchmarkSet>, params: Seq<Vec<String>>, n: int) -> Seq<
    MeanModel,
>
    decreases n,
{
    if n <= 0 {
        Seq::empty()
    } else {
        all_series(sets, params, n - 1) + set_series(
            sets[n - 1],
            params[n - 1]@,
            sets[n - 1].benchmarks@.len() as int,
        )
    }
}

/// Every set has its list of parameter bindings, one per benchmark.
pub open spec fn params_fit(sets: Seq<BenchmarkSet>, params: Seq<Vec<String>>) -> bool {
    params.len() == sets.len() && forall|i: int|
        0 <= i < sets.len() ==> (#[trigger] params[i])@.len() == sets[i].benchmarks@.len()
}

/// Flattens benchmark sets into one mean per benchmark that has one, keyed
/// by benchmark name, the set's metric, the benchmark's parameter bindings
/// (`parameters_json[s][b]` for benchmark `b` of set `s`, as canonical JSON)
/// and the set's branch, on the set's unit. Sets and benchmarks keep their
/// order.
pub fn flatten_series(sets: &[BenchmarkSet], parameters_json: &[Vec<String>]) -> (r: Vec<
    SeriesMean,
>)
    requires
        params_fit(sets@, parameters_json@),
    ensures
        r@.map_values(|m: SeriesMean| mean_model(m)) == all_series(
            sets@,
            parameters_json@,
            sets@.len() as int,
        ),
{
    let mut r: Vec<SeriesMean> = Vec::new();
    let mut s: usize = 0;
    while s < sets.len()
        invariant
            s <= sets@.len(),
            params_fit(sets@, parameters_json@),
            r@.map_values(|m: SeriesMean| mean_model(m)) == all_series(
                sets@,
                parameters_json@,
                s as int,
            ),
        decreases sets@.len() - s,
    {
        let set = &sets[s];
        let params = &parameters_json[s];
        assert(params@.len() == set.benchmarks@.len());
        let unit = unit_name(set.unit);
        let branch = match &set.source {
            Some(src) => match &src.branch {
                Some(b) => b.clone(),
                None => String::new(),
            },
            None => String::new(),
        };
        let ghost start = r@.map_values(|m: SeriesMean| mean_model(m));
        let mut b: usize = 0;
        while b < set.benchmarks.len()
            invariant
                b <= set.benchmarks@.len(),
                params@.len() == set.benchmarks@.len(),
                unit@ == unit_label(spec_unit_from_code(set.unit)),
                branch@ == set_branch(*set),
                r@.map_values(|m: SeriesMean| mean_model(m)) == start + set_series(
                    *set,
                    params@,
                    b as int,
                ),
            decreases set.benchmarks@.len() - b,
        {
            let bench = &set.benchmarks[b];
            let ghost prev = r@;
            match statistic_mean_ns(bench) {
                Some(mean) => {
                    let m = SeriesMean {
                        key: SeriesKey {
                            benchmark_name: bench.name.clone(),
                            metric_name: set.metric_name.clone(),
                            parameters_json: params[b].clone(),
                            branch: branch.clone(),
                        },
                        unit: unit.clone(),
                        mean,
                    };
                    let ghost mm = mean_model(m);
                    r.push(m);
                    proof {
                        let want = start + set_series(*set, params@, b + 1);
                        let had = start + set_series(*set, params@, b as int);
                        assert(prev.map_values(|m: SeriesMean| mean_model(m)) == had);
                        assert(r@.map_values(|m: SeriesMean| mean_model(m)) =~= had.push(mm));
                    }
                },
                None => {},
            }
            b = b + 1;
        }
        s = s + 1;
    }
    r
}

} // verus!
