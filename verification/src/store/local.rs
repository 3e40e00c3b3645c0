//! The local snapshot store: one file per commit under `.rafn/snapshots`.
//!
//! The caller reads and writes the files; the layout, which snapshot is the
//! previous one and how snapshots become trend points are decided here.
use vstd::prelude::*;

use super::{point_model, PointModel, TrendDataPoint, TrendQuery};
use crate::framework::join_path;
use crate::framework::join_path_str;
use crate::proto::benchmark::{
    spec_timestamp_millis, statistic_mean_ns, statistic_median_ns, statistic_stddev_ns,
    timestamp_to_millis,
};
use crate::floatbits::FloatBits;
use crate::proto::{Benchmark, BenchmarkSet, Timestamp};
use crate::text::{chars_of, concat2, eq_str, has_suffix, owned, string_of_range};

verus! {

broadcast use vstd::seq_lib::group_to_multiset_ensures;

/// The snapshot directory, relative to the project root.
pub open spec fn snapshots_rel() -> Seq<char> {
    ".rafn/snapshots"@
}

/// Local snapshot storage, optionally anchored at a root directory.
#[derive(Debug)]
pub struct LocalBackend {
    root_override: Option<String>,
}

impl Default for LocalBackend {
    fn default() -> (b: Self)
        ensures
            b.spec_root() is None,
    {
        LocalBackend { root_override: None }
    }
}

impl LocalBackend {
    /// The root the store is anchored at, if any.
    pub closed spec fn spec_root(self) -> Option<Seq<char>> {
        match self.root_override {
            Some(r) => Some(r@),
            None => None,
        }
    }

    /// The snapshot directory: under the root, or relative to the working
    /// directory.
    pub open spec fn spec_snapshots_dir(self) -> Seq<char> {
        match self.spec_root() {
            Some(r) => join_path(r, snapshots_rel()),
            None => snapshots_rel(),
        }
    }

    /// A store anchored at `root`.
    pub fn with_root(root: String) -> (b: Self)
        ensures
            b.spec_root() == Some(root@),
    {
        LocalBackend { root_override: Some(root) }
    }

    /// The directory holding the snapshots.
    pub fn snapshots_dir(&self) -> (d: String)
        ensures
            d@ == self.spec_snapshots_dir(),
    {
        match &self.root_override {
            Some(r) => join_path_str(r, ".rafn/snapshots"),
            None => owned(".rafn/snapshots"),
        }
    }

    /// The snapshot file of `commit`: `<commit>.pb` in the snapshot
    /// directory.
    pub fn snapshot_path(&self, commit: &str) -> (p: String)
        ensures
            p@ == join_path(self.spec_snapshots_dir(), commit@ + ".pb"@),
    {
        let dir = self.snapshots_dir();
        let file = concat2(commit, ".pb");
        join_path_str(&dir, &file)
    }

    /// Of the stored commits, oldest first, the newest one that is not
    /// `current_commit`: the snapshot a new run is compared against.
    pub fn previous_before(&self, commits: &[String], current_commit: &str) -> (r: Option<String>)
        ensures
            match r {
                Some(c) => exists|i: int| is_previous(commits@, current_commit@, i) && c == commits@[i],
                None => forall|i: int| 0 <= i < commits@.len() ==> (#[trigger] commits@[i])@
                    == current_commit@,
            },
    {
        let mut i: usize = commits.len();
        while i > 0
            invariant
                i <= commits@.len(),
                forall|j: int| i <= j < commits@.len() ==> (#[trigger] commits@[j])@
                    == current_commit@,
            decreases i,
        {
            if !eq_str(&commits[i - 1], current_commit) {
                assert(is_previous(commits@, current_commit@, i - 1));
                return Some(commits[i - 1].clone());
            }
            i = i - 1;
        }
        None
    }
}

/// `commits[i]` is the last commit other than `current`.
pub open spec fn is_previous(commits: Seq<String>, current: Seq<char>, i: int) -> bool {
    &&& 0 <= i < commits.len()
    &&& commits[i]@ != current
    &&& forall|j: int| i < j < commits.len() ==> (#[trigger] commits[j])@ == current
}

/// The commit a snapshot file name stores: the name without its `.pb`
/// suffix; `None` for other files.
pub fn snapshot_commit(file_name: &str) -> (r: Option<String>)
    ensures
        match r {
            Some(c) => has_suffix(file_name@, ".pb"@) && c@ + ".pb"@ == file_name@,
            None => !has_suffix(file_name@, ".pb"@),
        },
{
    let cs = chars_of(file_name);
    let suffix = chars_of(".pb");
    if crate::text::ends_with(&cs, &suffix) {
        let n = cs.len() - suffix.len();
        let c = string_of_range(&cs, 0, n);
        assert(c@ + ".pb"@ =~= file_name@);
        Some(c)
    } else {
        None
    }
}

/// A snapshot's file name gives back the commit it was saved under: the
/// name `commit.pb` has the snapshot suffix, and the text before the
/// suffix is the commit.
pub proof fn lemma_snapshot_name_roundtrip(commit: Seq<char>, read: Seq<char>)
    requires
        read + ".pb"@ == commit + ".pb"@,
    ensures
        has_suffix(commit + ".pb"@, ".pb"@),
        read == commit,
{
    let name = commit + ".pb"@;
    assert(name.skip(name.len() - ".pb"@.len()) =~= ".pb"@);
    assert(read =~= (read + ".pb"@).take(read.len() as int));
    assert(commit =~= name.take(commit.len() as int));
}

/// A stored snapshot file: its commit and modification time.
#[derive(Debug)]
pub struct SnapshotEntry {
    pub commit: String,
    pub modified: Timestamp,
}

/// `a` was modified strictly before `b`.
pub open spec fn earlier(a: Timestamp, b: Timestamp) -> bool {
    a.seconds < b.seconds || (a.seconds == b.seconds && a.nanos < b.nanos)
}

/// Orders snapshot entries by modification time, oldest first; entries
/// modified at the same time keep their order. The result is a permutation
/// of the input.
pub fn order_by_modified(entries: Vec<SnapshotEntry>) -> (r: Vec<SnapshotEntry>)
    ensures
        r@.to_multiset() == entries@.to_multiset(),
        forall|i: int, j: int|
            0 <= i < j < r@.len() ==> !earlier(#[trigger] r@[j].modified, #[trigger] r@[i].modified),
{
    let ghost initial = entries@;
    let mut sorted: Vec<SnapshotEntry> = Vec::new();
    let mut rest = entries;
    // Entries are taken from the front, so equal times keep their order.
    while rest.len() > 0
        invariant
            sorted@.to_multiset().add(rest@.to_multiset()) == initial.to_multiset(),
            forall|i: int, j: int|
                0 <= i < j < sorted@.len() ==> !earlier(
                    #[trigger] sorted@[j].modified,
                    #[trigger] sorted@[i].modified,
                ),
        decreases rest@.len(),
    {
        let ghost rest_before = rest@;
        let x = rest.remove(0);
        proof {
            assert(rest_before =~= rest@.insert(0, x));
        }
        let mut p: usize = sorted.len();
        while p > 0 && earlier_exec(&x.modified, &sorted[p - 1].modified)
            invariant
                p <= sorted@.len(),
                forall|k: int| p <= k < sorted@.len() ==> earlier(x.modified, #[trigger] sorted@[k].modified),
            decreases p,
        {
            p = p - 1;
        }
        let ghost before = sorted@;
        sorted.insert(p, x);
        proof {
            assert(sorted@ =~= before.insert(p as int, x));
            assert(rest@.insert(0, x).to_multiset() == rest@.to_multiset().insert(x));
            assert forall|i: int, j: int| 0 <= i < j < sorted@.len() implies !earlier(
                #[trigger] sorted@[j].modified,
                #[trigger] sorted@[i].modified,
            ) by {
                if j < p {
                    assert(sorted@[i] == before[i] && sorted@[j] == before[j]);
                } else if j == p {
                    assert(sorted@[j] == x && sorted@[i] == before[i]);
                    assert(!earlier(x.modified, before[p - 1].modified));
                    if i < p - 1 {
                        assert(!earlier(before[p - 1].modified, before[i].modified));
                    }
                } else if i == p {
                    assert(sorted@[i] == x && sorted@[j] == before[j - 1]);
                    assert(earlier(x.modified, before[j - 1].modified));
                } else if i < p {
                    assert(sorted@[i] == before[i] && sorted@[j] == before[j - 1]);
                } else {
                    assert(sorted@[i] == before[i - 1] && sorted@[j] == before[j - 1]);
                }
            }
            assert(sorted@.to_multiset() == before.to_multiset().insert(x));
            assert(rest_before.to_multiset() == rest@.to_multiset().insert(x));
            assert(sorted@.to_multiset().add(rest@.to_multiset()) =~= initial.to_multiset());
        }
    }
    proof {
        assert(rest@.to_multiset() =~= vstd::multiset::Multiset::empty());
        assert(sorted@.to_multiset() =~= initial.to_multiset());
    }
    sorted
}

fn earlier_exec(a: &Timestamp, b: &Timestamp) -> (r: bool)
    ensures
        r == earlier(*a, *b),
{
    a.seconds < b.seconds || (a.seconds == b.seconds && a.nanos < b.nanos)
}

/// A stored snapshot: its commit, the file's modification time and the
/// benchmark sets it holds.
#[derive(Debug)]
pub struct Snapshot {
    pub commit: String,
    pub modified: Timestamp,
    pub sets: Vec<BenchmarkSet>,
}

/// A timestamp whose millisecond value is computed without overflow.
pub open spec fn millis_fit(ts: Timestamp) -> bool {
    &&& i64::MIN <= ts.seconds * 1000 <= i64::MAX
    &&& i64::MIN <= spec_timestamp_millis(ts) <= i64::MAX
}

/// Every timestamp the trend of `snapshots` converts fits in milliseconds.
pub open spec fn snapshots_fit(snapshots: Seq<Snapshot>) -> bool {
    forall|s: int|
        0 <= s < snapshots.len() ==> {
            &&& millis_fit((#[trigger] snapshots[s]).modified)
            &&& forall|k: int|
                0 <= k < snapshots[s].sets@.len() ==> match (#[trigger] snapshots[s].sets@[k]).run_started_at {
                    Some(ts) => millis_fit(ts),
                    None => true,
                }
        }
}

/// The benchmark passes the query's name filter.
pub open spec fn name_selected(filter: Option<String>, name: Seq<char>) -> bool {
    match filter {
        Some(f) => f@ == name,
        None => true,
    }
}

/// The trend points of the first `n` benchmarks of `set`, stored at
/// `commit` with `fallback_ms` as the time of sets that carry none.
pub open spec fn set_points(
    commit: Seq<char>,
    fallback_ms: int,
    set: BenchmarkSet,
    filter: Option<String>,
    n: int,
) -> Seq<PointModel>
    decreases n,
{
    if n <= 0 {
        Seq::empty()
    } else {
        let before = set_points(commit, fallback_ms, set, filter, n - 1);
        let b = set.benchmarks@[n - 1];
        let ts = match set.run_started_at {
            Some(t) => spec_timestamp_millis(t),
            None => fallback_ms,
        };
        match b.statistics {
            Some(s) => match s.mean {
                Some(m) => if name_selected(filter, b.name@) {
                    before.push(
                        (
                            b.name@,
                            commit,
                            ts as i64,
                            m,
                            match s.median {
                                Some(v) => v,
                                None => crate::floatbits::FloatBits { bits: 0 },
                            },
                            match s.stddev {
                                Some(v) => v,
                                None => crate::floatbits::FloatBits { bits: 0 },
                            },
                        ),
                    )
                } else {
                    before
                },
                None => before,
            },
            None => before,
        }
    }
}

/// The trend points of the first `n` sets of a snapshot.
pub open spec fn snapshot_points(snap: Snapshot, filter: Option<String>, n: int) -> Seq<PointModel>
    decreases n,
{
    if n <= 0 {
        Seq::empty()
    } else {
        let set = snap.sets@[n - 1];
        snapshot_points(snap, filter, n - 1) + set_points(
            snap.commit@,
            spec_timestamp_millis(snap.modified),
            set,
            filter,
            set.benchmarks@.len() as int,
        )
    }
}

/// The trend points of the first `n` snapshots.
pub open spec fn trend_points(snapshots: Seq<Snapshot>, filter: Option<String>, n: int) -> Seq<
    PointModel,
>
    decreases n,
{
    if n <= 0 {
        Seq::empty()
    } else {
        trend_points(snapshots, filter, n - 1) + snapshot_points(
            snapshots[n - 1],
            filter,
            snapshots[n - 1].sets@.len() as int,
        )
    }
}

fn push_set_points(
    out: &mut Vec<TrendDataPoint>,
    commit: &String,
    fallback_ms: i64,
    set: &BenchmarkSet,
    filter: &Option<String>,
)
    requires
        match set.run_started_at {
            Some(ts) => millis_fit(ts),
            None => true,
        },
    ensures
        final(out)@.map_values(|p: TrendDataPoint| point_model(p)) == old(out)@.map_values(
            |p: TrendDataPoint| point_model(p),
        ) + set_points(commit@, fallback_ms as int, *set, *filter, set.benchmarks@.len() as int),
{
    let ghost start = out@.map_values(|p: TrendDataPoint| point_model(p));
    let ts: i64 = match &set.run_started_at {
        Some(t) => timestamp_to_millis(t),
        None => fallback_ms,
    };
    let mut b: usize = 0;
    while b < set.benchmarks.len()
        invariant
            b <= set.benchmarks@.len(),
            ts == (match set.run_started_at {
                Some(t) => spec_timestamp_millis(t),
                None => fallback_ms as int,
            }),
            out@.map_values(|p: TrendDataPoint| point_model(p)) == start + set_points(
                commit@,
                fallback_ms as int,
                *set,
                *filter,
                b as int,
            ),
        decreases set.benchmarks@.len() - b,
    {
        let bench = &set.benchmarks[b];
        let selected = match filter {
            Some(f) => eq_str(f, &bench.name),
            None => true,
        };
        if selected {
            match statistic_mean_ns(bench) {
                Some(mean) => {
                    let p = TrendDataPoint {
                        benchmark_name: bench.name.clone(),
                        commit_sha: commit.clone(),
                        timestamp: ts,
                        mean_ns: mean,
                        median_ns: statistic_median_ns(bench),
                        stddev_ns: statistic_stddev_ns(bench),
                    };
                    let ghost pm = point_model(p);
                    let ghost prev = out@;
                    out.push(p);
                    proof {
                        let had = start + set_points(
                            commit@,
                            fallback_ms as int,
                            *set,
                            *filter,
                            b as int,
                        );
                        assert(out@.map_values(|p: TrendDataPoint| point_model(p)) =~= had.push(
                            pm,
                        ));
                    }
                },
                None => {},
            }
        }
        b = b + 1;
    }
}

/// `p` is the point the stored benchmark `b` of a snapshot of `commit`
/// gives: `b` has a mean and passes the name filter, and the point carries
/// its name, the commit, its mean, and its median and standard deviation
/// (zero where the statistics lack them).
pub open spec fn point_of_benchmark(
    p: PointModel,
    commit: Seq<char>,
    b: Benchmark,
    filter: Option<String>,
) -> bool {
    match b.statistics {
        Some(st) => match st.mean {
            Some(m) => {
                &&& match filter {
                    Some(f) => f@ == b.name@,
                    None => true,
                }
                &&& p.0 == b.name@
                &&& p.1 == commit
                &&& p.3 == m
                &&& p.4 == match st.median {
                    Some(v) => v,
                    None => FloatBits { bits: 0 },
                }
                &&& p.5 == match st.stddev {
                    Some(v) => v,
                    None => FloatBits { bits: 0 },
                }
            },
            None => false,
        },
        None => false,
    }
}

proof fn lemma_set_points_from_benchmarks(
    commit: Seq<char>,
    fallback_ms: int,
    set: BenchmarkSet,
    filter: Option<String>,
    n: int,
)
    requires
        0 <= n <= set.benchmarks@.len(),
    ensures
        forall|j: int|
            0 <= j < set_points(commit, fallback_ms, set, filter, n).len() ==> #[trigger] from_set(
                set_points(commit, fallback_ms, set, filter, n)[j],
                commit,
                set,
                filter,
                n,
            ),
    decreases n,
{
    if n > 0 {
        lemma_set_points_from_benchmarks(commit, fallback_ms, set, filter, n - 1);
        let before = set_points(commit, fallback_ms, set, filter, n - 1);
        let now = set_points(commit, fallback_ms, set, filter, n);
        assert forall|j: int| 0 <= j < now.len() implies #[trigger] from_set(
            now[j],
            commit,
            set,
            filter,
            n,
        ) by {
            if j < before.len() {
                assert(now[j] == before[j]);
                assert(from_set(before[j], commit, set, filter, n - 1));
                let i = choose|i: int|
                    0 <= i < n - 1 && #[trigger] point_of_benchmark(
                        before[j],
                        commit,
                        set.benchmarks@[i],
                        filter,
                    );
                assert(point_of_benchmark(now[j], commit, set.benchmarks@[i], filter));
            } else {
                assert(point_of_benchmark(now[j], commit, set.benchmarks@[n - 1], filter));
            }
        }
    }
}

/// Some of the first `n` benchmarks of `set` gives the point `p`.
pub open spec fn from_set(p: PointModel, commit: Seq<char>, set: BenchmarkSet, filter: Option<String>, n: int) -> bool {
    exists|i: int| 0 <= i < n && #[trigger] point_of_benchmark(p, commit, set.benchmarks@[i], filter)
}

/// Some benchmark of the first `n` sets of `snap` gives the point `p`.
pub open spec fn from_snapshot(p: PointModel, snap: Snapshot, filter: Option<String>, n: int) -> bool {
    exists|k: int, i: int|
        0 <= k < n && 0 <= i < snap.sets@[k].benchmarks@.len() && #[trigger] point_of_benchmark(
            p,
            snap.commit@,
            snap.sets@[k].benchmarks@[i],
            filter,
        )
}

/// Some stored benchmark of the first `n` snapshots gives the point `p`:
/// the point of benchmark `i` of set `k` of snapshot `s`.
pub open spec fn from_snapshots(
    p: PointModel,
    snapshots: Seq<Snapshot>,
    filter: Option<String>,
    n: int,
) -> bool {
    exists|s: int, k: int, i: int|
        0 <= s < n && 0 <= k < snapshots[s].sets@.len() && 0 <= i
            < snapshots[s].sets@[k].benchmarks@.len() && #[trigger] point_of_benchmark(
            p,
            snapshots[s].commit@,
            snapshots[s].sets@[k].benchmarks@[i],
            filter,
        )
}

proof fn lemma_snapshot_points_from_benchmarks(snap: Snapshot, filter: Option<String>, n: int)
    requires
        0 <= n <= snap.sets@.len(),
    ensures
        forall|j: int|
            0 <= j < snapshot_points(snap, filter, n).len() ==> #[trigger] from_snapshot(
                snapshot_points(snap, filter, n)[j],
                snap,
                filter,
                n,
            ),
    decreases n,
{
    if n > 0 {
        lemma_snapshot_points_from_benchmarks(snap, filter, n - 1);
        let set = snap.sets@[n - 1];
        let fallback = spec_timestamp_millis(snap.modified);
        lemma_set_points_from_benchmarks(
            snap.commit@,
            fallback,
            set,
            filter,
            set.benchmarks@.len() as int,
        );
        let before = snapshot_points(snap, filter, n - 1);
        let added = set_points(snap.commit@, fallback, set, filter, set.benchmarks@.len() as int);
        let now = snapshot_points(snap, filter, n);
        assert(now == before + added);
        assert forall|j: int| 0 <= j < now.len() implies #[trigger] from_snapshot(
            now[j],
            snap,
            filter,
            n,
        ) by {
            if j < before.len() {
                assert(now[j] == before[j]);
                assert(from_snapshot(before[j], snap, filter, n - 1));
                let (k, i) = choose|k: int, i: int|
                    0 <= k < n - 1 && 0 <= i < snap.sets@[k].benchmarks@.len()
                        && #[trigger] point_of_benchmark(
                        before[j],
                        snap.commit@,
                        snap.sets@[k].benchmarks@[i],
                        filter,
                    );
                assert(point_of_benchmark(now[j], snap.commit@, snap.sets@[k].benchmarks@[i], filter));
            } else {
                let jj = j - before.len();
                assert(now[j] == added[jj]);
                assert(from_set(added[jj], snap.commit@, set, filter, set.benchmarks@.len() as int));
                let i = choose|i: int|
                    0 <= i < set.benchmarks@.len() && #[trigger] point_of_benchmark(
                        added[jj],
                        snap.commit@,
                        set.benchmarks@[i],
                        filter,
                    );
                assert(point_of_benchmark(
                    now[j],
                    snap.commit@,
                    snap.sets@[n - 1].benchmarks@[i],
                    filter,
                ));
            }
        }
    }
}

/// Every point of a local trend is the point of a stored benchmark: it
/// carries the name, mean, median and standard deviation that the
/// benchmark's own statistics hold (zero for a missing median or standard
/// deviation) and the commit of the snapshot holding it, and the benchmark
/// passes the name filter.
pub proof fn lemma_trend_points_from_benchmarks(
    snapshots: Seq<Snapshot>,
    filter: Option<String>,
    n: int,
)
    requires
        0 <= n <= snapshots.len(),
    ensures
        forall|j: int|
            0 <= j < trend_points(snapshots, filter, n).len() ==> #[trigger] from_snapshots(
                trend_points(snapshots, filter, n)[j],
                snapshots,
                filter,
                n,
            ),
    decreases n,
{
    if n > 0 {
        lemma_trend_points_from_benchmarks(snapshots, filter, n - 1);
        let snap = snapshots[n - 1];
        lemma_snapshot_points_from_benchmarks(snap, filter, snap.sets@.len() as int);
        let before = trend_points(snapshots, filter, n - 1);
        let added = snapshot_points(snap, filter, snap.sets@.len() as int);
        let now = trend_points(snapshots, filter, n);
        assert(now == before + added);
        assert forall|j: int| 0 <= j < now.len() implies #[trigger] from_snapshots(
            now[j],
            snapshots,
            filter,
            n,
        ) by {
            if j < before.len() {
                assert(now[j] == before[j]);
                assert(from_snapshots(before[j], snapshots, filter, n - 1));
                let (s, k, i) = choose|s: int, k: int, i: int|
                    0 <= s < n - 1 && 0 <= k < snapshots[s].sets@.len() && 0 <= i
                        < snapshots[s].sets@[k].benchmarks@.len() && #[trigger] point_of_benchmark(
                        before[j],
                        snapshots[s].commit@,
                        snapshots[s].sets@[k].benchmarks@[i],
                        filter,
                    );
                assert(point_of_benchmark(
                    now[j],
                    snapshots[s].commit@,
                    snapshots[s].sets@[k].benchmarks@[i],
                    filter,
                ));
            } else {
                let jj = j - before.len();
                assert(now[j] == added[jj]);
                assert(from_snapshot(added[jj], snap, filter, snap.sets@.len() as int));
                let (k, i) = choose|k: int, i: int|
                    0 <= k < snap.sets@.len() && 0 <= i < snap.sets@[k].benchmarks@.len()
                        && #[trigger] point_of_benchmark(
                        added[jj],
                        snap.commit@,
                        snap.sets@[k].benchmarks@[i],
                        filter,
                    );
                assert(point_of_benchmark(
                    now[j],
                    snapshots[n - 1].commit@,
                    snapshots[n - 1].sets@[k].benchmarks@[i],
                    filter,
                ));
            }
        }
    }
}

/// The local trend: for each snapshot in order, each set and each
/// benchmark with a mean that the query selects, one point stamped with the
/// set's start time, or the snapshot's modification time when the set has
/// none. The limit is not applied locally.
pub fn local_trend_points(snapshots: &[Snapshot], query: &TrendQuery) -> (r: Vec<TrendDataPoint>)
    requires
        snapshots_fit(snapshots@),
    ensures
        r@.map_values(|p: TrendDataPoint| point_model(p)) == trend_points(
            snapshots@,
            query.benchmark_name,
            snapshots@.len() as int,
        ),
        forall|j: int|
            0 <= j < r@.len() ==> from_snapshots(
                point_model(#[trigger] r@[j]),
                snapshots@,
                query.benchmark_name,
                snapshots@.len() as int,
            ),
{
    let mut out: Vec<TrendDataPoint> = Vec::new();
    let mut s: usize = 0;
    assert(out@.map_values(|p: TrendDataPoint| point_model(p)) =~= Seq::<PointModel>::empty());
    while s < snapshots.len()
        invariant
            s <= snapshots@.len(),
            snapshots_fit(snapshots@),
            out@.map_values(|p: TrendDataPoint| point_model(p)) == trend_points(
                snapshots@,
                query.benchmark_name,
                s as int,
            ),
        decreases snapshots@.len() - s,
    {
        let snap = &snapshots[s];
        assert(millis_fit(snap.modified));
        let fallback_ms = timestamp_to_millis(&snap.modified);
        let ghost mid = out@.map_values(|p: TrendDataPoint| point_model(p));
        let mut k: usize = 0;
        while k < snap.sets.len()
            invariant
                k <= snap.sets@.len(),
                snapshots_fit(snapshots@),
                s < snapshots@.len(),
                *snap == snapshots@[s as int],
                fallback_ms == spec_timestamp_millis(snap.modified),
                out@.map_values(|p: TrendDataPoint| point_model(p)) == mid + snapshot_points(
                    *snap,
                    query.benchmark_name,
                    k as int,
                ),
            decreases snap.sets@.len() - k,
        {
            assert(match snap.sets@[k as int].run_started_at {
                Some(ts) => millis_fit(ts),
                None => true,
            });
            push_set_points(&mut out, &snap.commit, fallback_ms, &snap.sets[k], &query.benchmark_name);
            proof {
                assert(mid + snapshot_points(*snap, query.benchmark_name, k + 1) =~= mid
                    + snapshot_points(*snap, query.benchmark_name, k as int) + set_points(
                    snap.commit@,
                    spec_timestamp_millis(snap.modified),
                    snap.sets@[k as int],
                    query.benchmark_name,
                    snap.sets@[k as int].benchmarks@.len() as int,
                ));
            }
            k = k + 1;
        }
        proof {
            assert(trend_points(snapshots@, query.benchmark_name, s + 1) =~= mid + snapshot_points(
                *snap,
                query.benchmark_name,
                snap.sets@.len() as int,
            ));
        }
        s = s + 1;
    }
    proof {
        lemma_trend_points_from_benchmarks(snapshots@, query.benchmark_name, snapshots@.len() as int);
        assert forall|j: int| 0 <= j < out@.len() implies from_snapshots(
            point_model(#[trigger] out@[j]),
            snapshots@,
            query.benchmark_name,
            snapshots@.len() as int,
        ) by {
            assert(out@.map_values(|p: TrendDataPoint| point_model(p))[j] == point_model(out@[j]));
        }
    }
    out
}

/// A store anchored at a project root keeps every snapshot under
/// `<root>/.rafn/snapshots`, as `<commit>.pb`, whatever the working
/// directory.
pub proof fn lemma_snapshots_under_root(b: LocalBackend, root: Seq<char>, commit: Seq<char>)
    requires
        b.spec_root() == Some(root),
    ensures
        b.spec_snapshots_dir() == join_path(root, ".rafn/snapshots"@),
        join_path(b.spec_snapshots_dir(), commit + ".pb"@) == join_path(
            join_path(root, ".rafn/snapshots"@),
            commit + ".pb"@,
        ),
{
}

/// The commits of snapshot entries, in order.
pub open spec fn entry_commits(entries: Seq<SnapshotEntry>) -> Seq<String> {
    entries.map_values(|e: SnapshotEntry| e.commit)
}

/// The previous snapshot is the newest other one: where the entries are
/// ordered oldest first (as `order_by_modified` leaves them), the entry
/// that `previous_before` picks was modified no earlier than any entry of
/// another commit; and it picks none exactly when every entry is of the
/// current commit.
pub proof fn lemma_previous_is_newest(entries: Seq<SnapshotEntry>, current: Seq<char>, i: int)
    requires
        forall|a: int, b: int|
            0 <= a < b < entries.len() ==> !earlier(
                #[trigger] entries[b].modified,
                #[trigger] entries[a].modified,
            ),
        is_previous(entry_commits(entries), current, i),
    ensures
        entries[i].commit@ != current,
        forall|j: int|
            0 <= j < entries.len() && (#[trigger] entries[j]).commit@ != current ==> !earlier(
                entries[i].modified,
                entries[j].modified,
            ),
{
    let c = entry_commits(entries);
    assert(c[i] == entries[i].commit);
    assert forall|j: int|
        0 <= j < entries.len() && (#[trigger] entries[j]).commit@ != current implies !earlier(
        entries[i].modified,
        entries[j].modified,
    ) by {
        assert(c[j] == entries[j].commit);
        if j > i {
            assert(c[j]@ == current);
        } else if j < i {
            assert(!earlier(entries[i].modified, entries[j].modified));
        }
    }
}

} // verus!
