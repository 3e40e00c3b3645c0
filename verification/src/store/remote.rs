//! The remote store: what the service is asked for and how its answers
//! become trend points and comparison reports. The calls themselves are
//! made by the caller.
use vstd::prelude::*;

use super::local::millis_fit;
use super::{point_model, PointModel, StoreError, TrendDataPoint, TrendQuery};
use crate::comparison::series::{unit_label, unit_name};
use crate::comparison::{Comparison, Outcome, Report, SeriesKey, Summary, Verdict};
use crate::config::{EffectiveConfig, RepositoryRef};
use crate::floatbits::FloatBits;
use crate::proto::benchmark::{spec_timestamp_millis, spec_unit_from_code, timestamp_to_millis};
use crate::text::owned;
use crate::proto::{
    BenchmarkComparison, BenchmarkTrend, CompareCommitsResponse, ComparisonSummary, ProtoOutcome,
    ProtoSeriesKey, RepositoryReference,
};

verus! {

/// The remote service and the repository it is asked about.
#[derive(Debug)]
pub struct RemoteBackend {
    endpoint: String,
    repository: Option<RepositoryRef>,
}

impl RemoteBackend {
    /// The service endpoint.
    pub closed spec fn spec_endpoint(self) -> Seq<char> {
        self.endpoint@
    }

    /// The repository queries address, if any.
    pub closed spec fn spec_repository(self) -> Option<RepositoryRef> {
        self.repository
    }

    /// A backend for reading trends and comparisons, which need the
    /// resolved repository identity: an error without one.
    pub fn from_effective(effective: EffectiveConfig) -> (r: Result<Self, StoreError>)
        ensures
            match effective.repository {
                Some(repo) => (r matches Ok(b) && b.spec_endpoint() == effective.endpoint@
                    && b.spec_repository() == Some(repo)),
                None => (r matches Err(StoreError::RepositoryNotSpecified)),
            },
    {
        match effective.repository {
            Some(repo) => Ok(RemoteBackend { endpoint: effective.endpoint, repository: Some(repo) }),
            None => Err(StoreError::RepositoryNotSpecified),
        }
    }

    /// A backend for pushing results; each snapshot names its own
    /// repository.
    pub fn for_push(effective: EffectiveConfig) -> (b: Self)
        ensures
            b.spec_endpoint() == effective.endpoint@,
            b.spec_repository() is None,
    {
        RemoteBackend { endpoint: effective.endpoint, repository: None }
    }

    /// The repository queries address.
    pub fn repository(&self) -> (r: Option<&RepositoryRef>)
        ensures
            match r {
                Some(x) => self.spec_repository() == Some(*x),
                None => self.spec_repository() is None,
            },
    {
        match &self.repository {
            Some(repo) => Some(repo),
            None => None,
        }
    }

    /// The service endpoint.
    pub fn endpoint(&self) -> (r: &str)
        ensures
            r@ == self.spec_endpoint(),
    {
        self.endpoint.as_str()
    }
}

/// The repository in the service's addressing.
pub fn repository_ref(repository: Option<&RepositoryRef>) -> (r: Option<RepositoryReference>)
    ensures
        match repository {
            Some(repo) => (r matches Some(p) && p.forge@ == repo.forge@ && p.owner@ == repo.owner@
                && p.repository@ == repo.repository@),
            None => r is None,
        },
{
    match repository {
        Some(repo) => Some(repo.to_proto()),
        None => None,
    }
}

/// `r` addresses the repository `repo` (both absent, or the same identity).
pub open spec fn addresses(r: Option<RepositoryReference>, repo: Option<RepositoryRef>) -> bool {
    match repo {
        Some(x) => (r matches Some(p) && p.forge@ == x.forge@ && p.owner@ == x.owner@
            && p.repository@ == x.repository@),
        None => r is None,
    }
}

/// A request for trend data, as the service takes it.
#[derive(Debug)]
pub enum TrendRequest {
    /// One benchmark's trend (the service answers with at most one trend).
    Benchmark {
        repository: Option<RepositoryReference>,
        benchmark_name: String,
        metric_name: String,
        limit: Option<u32>,
    },
    /// Every benchmark's trend of the repository.
    Repository {
        repository: Option<RepositoryReference>,
        metric_name: Option<String>,
        limit: Option<u32>,
    },
}

impl RemoteBackend {
    /// The request a trend query makes: one benchmark's wall-time trend
    /// when the query names a benchmark, else every benchmark's; the limit
    /// is the query's, and no parameters or branch are selected.
    pub fn trend_request(&self, query: TrendQuery) -> (r: TrendRequest)
        ensures
            match query.benchmark_name {
                Some(name) => (r matches TrendRequest::Benchmark {
                    repository,
                    benchmark_name,
                    metric_name,
                    limit,
                } && addresses(repository, self.spec_repository()) && benchmark_name == name
                    && metric_name@ == "wall_time"@ && limit == Some(query.limit)),
                None => (r matches TrendRequest::Repository { repository, metric_name, limit }
                    && addresses(repository, self.spec_repository()) && (metric_name matches Some(
                    m,
                ) && m@ == "wall_time"@) && limit == Some(query.limit)),
            },
    {
        let repository = repository_ref(self.repository());
        match query.benchmark_name {
            Some(name) => TrendRequest::Benchmark {
                repository,
                benchmark_name: name,
                metric_name: owned("wall_time"),
                limit: Some(query.limit),
            },
            None => TrendRequest::Repository {
                repository,
                metric_name: Some(owned("wall_time")),
                limit: Some(query.limit),
            },
        }
    }
}

/// Every point of every trend carries a time that fits in milliseconds.
pub open spec fn trends_fit(trends: Seq<BenchmarkTrend>) -> bool {
    forall|t: int, k: int|
        0 <= t < trends.len() && 0 <= k < trends[t].points@.len() ==> match (
        #[trigger] trends[t].points@[k]).timestamp {
            Some(ts) => millis_fit(ts),
            None => true,
        }
}

/// A statistic of an optional set of statistics, zero when absent.
pub open spec fn stat_or_zero(v: Option<FloatBits>) -> FloatBits {
    match v {
        Some(x) => x,
        None => FloatBits { bits: 0 },
    }
}

/// The points of the first `n` points of a trend, in order.
pub open spec fn trend_series(trend: BenchmarkTrend, n: int) -> Seq<PointModel>
    decreases n,
{
    if n <= 0 {
        Seq::empty()
    } else {
        let p = trend.points@[n - 1];
        let stats = p.statistics;
        trend_series(trend, n - 1).push(
            (
                trend.benchmark_name@,
                p.commit_sha@,
                match p.timestamp {
                    Some(ts) => spec_timestamp_millis(ts) as i64,
                    None => 0i64,
                },
                match stats {
                    Some(s) => stat_or_zero(s.mean),
                    None => FloatBits { bits: 0 },
                },
                match stats {
                    Some(s) => stat_or_zero(s.median),
                    None => FloatBits { bits: 0 },
                },
                match stats {
                    Some(s) => stat_or_zero(s.stddev),
                    None => FloatBits { bits: 0 },
                },
            ),
        )
    }
}

/// The points of the first `n` trends, in order.
pub open spec fn all_trend_series(trends: Seq<BenchmarkTrend>, n: int) -> Seq<PointModel>
    decreases n,
{
    if n <= 0 {
        Seq::empty()
    } else {
        all_trend_series(trends, n - 1) + trend_series(
            trends[n - 1],
            trends[n - 1].points@.len() as int,
        )
    }
}

fn stat_value(v: Option<FloatBits>) -> (r: FloatBits)
    ensures
        r == stat_or_zero(v),
{
    match v {
        Some(x) => x,
        None => FloatBits::zero(),
    }
}

/// The trend points of the service's trends, oldest first: the service
/// lists each trend newest first, so the concatenated points are reversed.
/// A point without a time is at 0; missing statistics are zero.
pub fn remote_trend_points(trends: &[BenchmarkTrend]) -> (r: Vec<TrendDataPoint>)
    requires
        trends_fit(trends@),
    ensures
        r@.map_values(|p: TrendDataPoint| point_model(p)) == all_trend_series(
            trends@,
            trends@.len() as int,
        ).reverse(),
{
    let mut fwd: Vec<TrendDataPoint> = Vec::new();
    let mut t: usize = 0;
    while t < trends.len()
        invariant
            t <= trends@.len(),
            trends_fit(trends@),
            fwd@.map_values(|p: TrendDataPoint| point_model(p)) == all_trend_series(
                trends@,
                t as int,
            ),
        decreases trends@.len() - t,
    {
        let trend = &trends[t];
        let ghost start = fwd@.map_values(|p: TrendDataPoint| point_model(p));
        let mut k: usize = 0;
        while k < trend.points.len()
            invariant
                k <= trend.points@.len(),
                t < trends@.len(),
                *trend == trends@[t as int],
                trends_fit(trends@),
                fwd@.map_values(|p: TrendDataPoint| point_model(p)) == start + trend_series(
                    *trend,
                    k as int,
                ),
            decreases trend.points@.len() - k,
        {
            let p = &trend.points[k];
            assert(match p.timestamp {
                Some(ts) => millis_fit(ts),
                None => true,
            });
            let timestamp: i64 = match &p.timestamp {
                Some(ts) => timestamp_to_millis(ts),
                None => 0,
            };
            let (mean_ns, median_ns, stddev_ns) = match &p.statistics {
                Some(s) => (stat_value(s.mean), stat_value(s.median), stat_value(s.stddev)),
                None => (FloatBits::zero(), FloatBits::zero(), FloatBits::zero()),
            };
            let point = TrendDataPoint {
                benchmark_name: trend.benchmark_name.clone(),
                commit_sha: p.commit_sha.clone(),
                timestamp,
                mean_ns,
                median_ns,
                stddev_ns,
            };
            let ghost pm = point_model(point);
            let ghost had = fwd@.map_values(|p: TrendDataPoint| point_model(p));
            fwd.push(point);
            assert(fwd@.map_values(|p: TrendDataPoint| point_model(p)) =~= had.push(pm));
            k = k + 1;
        }
        t = t + 1;
    }
    let ghost all = fwd@.map_values(|p: TrendDataPoint| point_model(p));
    let mut r: Vec<TrendDataPoint> = Vec::new();
    while fwd.len() > 0
        invariant
            fwd@.len() <= all.len(),
            fwd@.map_values(|p: TrendDataPoint| point_model(p)) == all.take(fwd@.len() as int),
            r@.map_values(|p: TrendDataPoint| point_model(p)) == all.reverse().take(
                all.len() - fwd@.len(),
            ),
        decreases fwd@.len(),
    {
        let ghost before = fwd@;
        let p = fwd.pop().unwrap();
        let ghost pm = point_model(p);
        let ghost had = r@.map_values(|p: TrendDataPoint| point_model(p));
        proof {
            assert(before.map_values(|p: TrendDataPoint| point_model(p))[before.len() - 1] == pm);
            assert(fwd@.map_values(|p: TrendDataPoint| point_model(p)) =~= all.take(
                fwd@.len() as int,
            ));
        }
        r.push(p);
        proof {
            assert(r@.map_values(|p: TrendDataPoint| point_model(p)) =~= had.push(pm));
            assert(pm == all[before.len() - 1]);
            assert(all.reverse()[all.len() - before.len()] == all[before.len() - 1]);
            assert(r@.map_values(|p: TrendDataPoint| point_model(p)) =~= all.reverse().take(
                all.len() - fwd@.len(),
            ));
        }
    }
    assert(all.reverse().take(all.len() as int) =~= all.reverse());
    r
}

/// The verdict with protobuf number `code`: regressed (1), improved (2),
/// otherwise unchanged.
pub open spec fn spec_verdict_from_code(code: i32) -> Verdict {
    if code == 1 {
        Verdict::Regressed
    } else if code == 2 {
        Verdict::Improved
    } else {
        Verdict::Unchanged
    }
}

/// Decodes a verdict; unknown and unspecified verdicts are unchanged.
pub fn verdict_from_proto(verdict: i32) -> (v: Verdict)
    ensures
        v == spec_verdict_from_code(verdict),
{
    if verdict == 1 {
        Verdict::Regressed
    } else if verdict == 2 {
        Verdict::Improved
    } else {
        Verdict::Unchanged
    }
}

/// `k` is the key the service reported as `p`.
pub open spec fn key_from(p: ProtoSeriesKey, k: SeriesKey) -> bool {
    &&& k.benchmark_name == p.benchmark_name
    &&& k.metric_name == p.metric_name
    &&& k.parameters_json == p.parameters_json
    &&& k.branch == p.branch
}

/// A series key from the service's.
pub fn series_key_from_proto(key: ProtoSeriesKey) -> (k: SeriesKey)
    ensures
        key_from(key, k),
{
    SeriesKey {
        benchmark_name: key.benchmark_name,
        metric_name: key.metric_name,
        parameters_json: key.parameters_json,
        branch: key.branch,
    }
}

/// `o` is the outcome the service reported as `p`, with units decoded to
/// their names.
pub open spec fn outcome_from(p: ProtoOutcome, o: Outcome) -> bool {
    match p {
        ProtoOutcome::Compared(d) => o matches Outcome::Compared {
            unit,
            base_mean,
            head_mean,
            diff,
            diff_pct,
            verdict,
        } && unit@ == unit_label(spec_unit_from_code(d.unit)) && base_mean == d.base_mean
            && head_mean == d.head_mean && diff == d.diff && diff_pct == d.diff_pct && verdict
            == spec_verdict_from_code(d.verdict),
        ProtoOutcome::Added(pt) => o matches Outcome::Added { unit, head_mean } && unit@
            == unit_label(spec_unit_from_code(pt.unit)) && head_mean == pt.mean,
        ProtoOutcome::Removed(pt) => o matches Outcome::Removed { unit, base_mean } && unit@
            == unit_label(spec_unit_from_code(pt.unit)) && base_mean == pt.mean,
        ProtoOutcome::Incomparable { base_unit: b, head_unit: h } => o matches Outcome::Incomparable {
            base_unit,
            head_unit,
        } && base_unit@ == unit_label(spec_unit_from_code(b)) && head_unit@ == unit_label(
            spec_unit_from_code(h),
        ),
        ProtoOutcome::Invalid { reason: r } => o matches Outcome::Invalid { reason } && reason == r,
    }
}

/// An outcome from the service's.
pub fn outcome_from_proto(outcome: ProtoOutcome) -> (o: Outcome)
    ensures
        outcome_from(outcome, o),
{
    match outcome {
        ProtoOutcome::Compared(d) => Outcome::Compared {
            unit: unit_name(d.unit),
            base_mean: d.base_mean,
            head_mean: d.head_mean,
            diff: d.diff,
            diff_pct: d.diff_pct,
            verdict: verdict_from_proto(d.verdict),
        },
        ProtoOutcome::Added(pt) => Outcome::Added { unit: unit_name(pt.unit), head_mean: pt.mean },
        ProtoOutcome::Removed(pt) => Outcome::Removed { unit: unit_name(pt.unit), base_mean: pt.mean },
        ProtoOutcome::Incomparable { base_unit, head_unit } => Outcome::Incomparable {
            base_unit: unit_name(base_unit),
            head_unit: unit_name(head_unit),
        },
        ProtoOutcome::Invalid { reason } => Outcome::Invalid { reason },
    }
}

/// `s` holds the service's summary counts.
pub open spec fn summary_from(p: ComparisonSummary, s: Summary) -> bool {
    &&& s.regressed == p.regressed
    &&& s.improved == p.improved
    &&& s.unchanged == p.unchanged
    &&& s.added == p.added
    &&& s.removed == p.removed
    &&& s.unassessable == p.unassessable
    &&& s.threshold_pct == p.threshold_pct
    &&& s.has_regressions == p.has_regressions
}

/// A summary from the service's.
pub fn summary_from_proto(summary: ComparisonSummary) -> (s: Summary)
    ensures
        summary_from(summary, s),
{
    Summary {
        regressed: summary.regressed,
        improved: summary.improved,
        unchanged: summary.unchanged,
        added: summary.added,
        removed: summary.removed,
        unassessable: summary.unassessable,
        threshold_pct: summary.threshold_pct,
        has_regressions: summary.has_regressions,
    }
}

/// The error a service comparison gives, if any: a missing key, then a
/// missing outcome.
pub open spec fn comparison_fault(c: BenchmarkComparison) -> Option<StoreError> {
    if c.key is None {
        Some(StoreError::MissingKey)
    } else if c.outcome is None {
        Some(StoreError::MissingOutcome)
    } else {
        None
    }
}

/// `c` is the comparison the service reported as `p`.
pub open spec fn comparison_from(p: BenchmarkComparison, c: Comparison) -> bool {
    &&& p.key matches Some(k) && key_from(k, c.key)
    &&& p.outcome matches Some(o) && outcome_from(o, c.outcome)
}

/// A comparison from the service's; a missing key or outcome is an error.
pub fn comparison_from_proto(comparison: BenchmarkComparison) -> (r: Result<Comparison, StoreError>)
    ensures
        match comparison_fault(comparison) {
            Some(e) => r == Err::<Comparison, StoreError>(e),
            None => (r matches Ok(c) && comparison_from(comparison, c)),
        },
{
    let ghost whole = comparison;
    let key = match comparison.key {
        Some(k) => k,
        None => {
            return Err(StoreError::MissingKey);
        },
    };
    let outcome = match comparison.outcome {
        Some(o) => o,
        None => {
            return Err(StoreError::MissingOutcome);
        },
    };
    Ok(Comparison { key: series_key_from_proto(key), outcome: outcome_from_proto(outcome) })
}

/// `i` is the first service comparison that is faulty.
pub open spec fn is_first_fault(s: Seq<BenchmarkComparison>, i: int) -> bool {
    &&& 0 <= i < s.len()
    &&& comparison_fault(s[i]) is Some
    &&& forall|j: int| 0 <= j < i ==> comparison_fault(#[trigger] s[j]) is None
}

/// A report from the service's comparison response. The first faulty
/// comparison's error comes first; then a missing summary is an error.
/// Otherwise every comparison is kept, in order, with the summary.
pub fn report_from_proto(response: CompareCommitsResponse) -> (r: Result<Report, StoreError>)
    ensures
        (exists|i: int| is_first_fault(response.comparisons@, i)) ==> exists|i: int|
            is_first_fault(response.comparisons@, i) && r == Err::<Report, StoreError>(
                comparison_fault(response.comparisons@[i]).unwrap(),
            ),
        !(exists|i: int| is_first_fault(response.comparisons@, i)) && response.summary is None
            ==> (r matches Err(StoreError::MissingSummary)),
        !(exists|i: int| is_first_fault(response.comparisons@, i)) && response.summary is Some
            ==> (r matches Ok(report) && report.comparisons@.len()
            == response.comparisons@.len() && (forall|i: int|
            0 <= i < report.comparisons@.len() ==> comparison_from(
                #[trigger] response.comparisons@[i],
                report.comparisons@[i],
            )) && summary_from(response.summary.unwrap(), report.summary)),
{
    let ghost input = response.comparisons@;
    let CompareCommitsResponse { comparisons: mut rest, summary } = response;
    let mut out: Vec<Comparison> = Vec::new();
    while rest.len() > 0
        invariant
            input == response.comparisons@,
            out@.len() + rest@.len() == input.len(),
            rest@ == input.skip(out@.len() as int),
            forall|j: int| 0 <= j < out@.len() ==> comparison_fault(#[trigger] input[j]) is None,
            forall|j: int|
                0 <= j < out@.len() ==> comparison_from(#[trigger] input[j], out@[j]),
        decreases rest@.len(),
    {
        let ghost k = out@.len();
        let c = rest.remove(0);
        assert(c == input[k as int]);
        match comparison_from_proto(c) {
            Ok(x) => {
                out.push(x);
                assert(rest@ =~= input.skip(out@.len() as int));
            },
            Err(e) => {
                assert(is_first_fault(input, k as int));
                assert(comparison_fault(input[k as int]) == Some(e));
                assert(is_first_fault(response.comparisons@, k as int));
                return Err(e);
            },
        }
    }
    proof {
        if exists|i: int| is_first_fault(input, i) {
            let i = choose|i: int| is_first_fault(input, i);
            assert(comparison_fault(input[i]) is None);
        }
    }
    match summary {
        Some(s) => Ok(Report { comparisons: out, summary: summary_from_proto(s) }),
        None => Err(StoreError::MissingSummary),
    }
}

} // verus!
