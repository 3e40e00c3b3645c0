//! Google Benchmark JSON output.
//!
//! Repetitions of a benchmark appear as several `iteration` rows of one
//! name; aggregate rows (mean, median, ...) are skipped. The rows of a name
//! form one benchmark, whose statistics the caller computes from its times.
use vstd::prelude::*;

use super::TimeScale;
use crate::floatbits::FloatBits;
use crate::text::eq_str;

verus! {

/// One row of a Google Benchmark report.
#[derive(Debug)]
pub struct GBenchEntry {
    pub name: String,
    pub run_type: String,
    pub cpu_time: FloatBits,
    pub time_unit: String,
}

/// The iteration rows of one benchmark: its name, the time unit of its
/// first row and the CPU times of its rows in order.
#[derive(Debug)]
pub struct IterationGroup {
    pub name: String,
    pub time_unit: String,
    pub cpu_times: Vec<FloatBits>,
}

/// A row that measures one repetition (not an aggregate).
pub open spec fn is_iteration(e: GBenchEntry) -> bool {
    e.run_type@ == "iteration"@
}

/// The CPU times of the iteration rows named `name`, in order.
pub open spec fn times_of(s: Seq<GBenchEntry>, name: Seq<char>) -> Seq<FloatBits>
    decreases s.len(),
{
    if s.len() == 0 {
        Seq::empty()
    } else {
        let before = times_of(s.drop_last(), name);
        if is_iteration(s.last()) && s.last().name@ == name {
            before.push(s.last().cpu_time)
        } else {
            before
        }
    }
}

/// The time unit of the first iteration row named `name`, if any.
pub open spec fn first_unit(s: Seq<GBenchEntry>, name: Seq<char>) -> Option<Seq<char>>
    decreases s.len(),
{
    if s.len() == 0 {
        None
    } else {
        match first_unit(s.drop_last(), name) {
            Some(u) => Some(u),
            None => if is_iteration(s.last()) && s.last().name@ == name {
                Some(s.last().time_unit@)
            } else {
                None
            },
        }
    }
}

/// `groups` groups the iteration rows of `s` by name: one group per name,
/// with that name's first unit and all its times.
pub open spec fn groups_rows(groups: Seq<IterationGroup>, s: Seq<GBenchEntry>) -> bool {
    &&& forall|a: int, b: int|
        0 <= a < b < groups.len() ==> (#[trigger] groups[a]).name@ != (#[trigger] groups[b]).name@
    &&& forall|g: int|
        0 <= g < groups.len() ==> first_unit(s, (#[trigger] groups[g]).name@) == Some(
            groups[g].time_unit@,
        ) && groups[g].cpu_times@ == times_of(s, groups[g].name@)
    &&& forall|n: Seq<char>|
        (forall|g: int| 0 <= g < groups.len() ==> (#[trigger] groups[g]).name@ != n) ==> (
        #[trigger] first_unit(s, n)) is None && times_of(s, n).len() == 0
}

/// Groups the iteration rows of a report by benchmark name. Each name
/// gets one group with the unit of its first row and the times of all its
/// rows in order. The order of the groups is left open.
pub fn group_iterations(entries: &[GBenchEntry]) -> (groups: Vec<IterationGroup>)
    ensures
        groups_rows(groups@, entries@),
{
    let mut groups: Vec<IterationGroup> = Vec::new();
    let mut i: usize = 0;
    while i < entries.len()
        invariant
            i <= entries@.len(),
            groups_rows(groups@, entries@.take(i as int)),
        decreases entries@.len() - i,
    {
        let e = &entries[i];
        let ghost before = entries@.take(i as int);
        let ghost after = entries@.take(i + 1);
        assert(after.drop_last() =~= before);
        assert(after.last() == *e);
        if eq_str(&e.run_type, "iteration") {
            let mut g: usize = 0;
            while g < groups.len() && !eq_str(&groups[g].name, &e.name)
                invariant
                    g <= groups@.len(),
                    forall|k: int| 0 <= k < g ==> (#[trigger] groups@[k]).name@ != e.name@,
                decreases groups@.len() - g,
            {
                g = g + 1;
            }
            let ghost old_groups = groups@;
            if g < groups.len() {
                let mut grp = groups.remove(g);
                grp.cpu_times.push(e.cpu_time);
                groups.insert(g, grp);
                proof {
                    assert forall|k: int| 0 <= k < groups@.len() && k != g implies #[trigger] groups@[k]
                        == old_groups[k] by {}
                    assert forall|a: int, b: int| 0 <= a < b < groups@.len() implies (
                    #[trigger] groups@[a]).name@ != (#[trigger] groups@[b]).name@ by {
                        assert(groups@[a].name@ == old_groups[a].name@);
                        assert(groups@[b].name@ == old_groups[b].name@);
                    }
                    assert forall|k: int| 0 <= k < groups@.len() implies first_unit(
                        after,
                        (#[trigger] groups@[k]).name@,
                    ) == Some(groups@[k].time_unit@) && groups@[k].cpu_times@ == times_of(
                        after,
                        groups@[k].name@,
                    ) by {
                        if k == g {
                            assert(groups@[k].cpu_times@ =~= old_groups[k].cpu_times@.push(
                                e.cpu_time,
                            ));
                        } else {
                            assert(old_groups[k].name@ != e.name@);
                        }
                    }
                    assert forall|n: Seq<char>|
                        (forall|k: int| 0 <= k < groups@.len() ==> (#[trigger] groups@[k]).name@
                            != n) implies (#[trigger] first_unit(after, n)) is None && times_of(
                        after,
                        n,
                    ).len() == 0 by {
                        assert forall|k: int| 0 <= k < old_groups.len() implies (
                        #[trigger] old_groups[k]).name@ != n by {
                            assert(groups@[k].name@ == old_groups[k].name@);
                        }
                        assert(groups@[g as int].name@ == e.name@);
                        assert(e.name@ != n);
                        assert(first_unit(before, n) is None);
                    }
                }
            } else {
                let mut times: Vec<FloatBits> = Vec::new();
                times.push(e.cpu_time);
                let grp = IterationGroup {
                    name: e.name.clone(),
                    time_unit: e.time_unit.clone(),
                    cpu_times: times,
                };
                groups.push(grp);
                proof {
                    assert(first_unit(before, e.name@) is None);
                    assert(times_of(before, e.name@).len() == 0);
                    assert(groups@.last().cpu_times@ =~= times_of(before, e.name@).push(
                        e.cpu_time,
                    ));
                    assert forall|a: int, b: int| 0 <= a < b < groups@.len() implies (
                    #[trigger] groups@[a]).name@ != (#[trigger] groups@[b]).name@ by {
                        if b == old_groups.len() {
                            assert(groups@[a] == old_groups[a]);
                        } else {
                            assert(groups@[a] == old_groups[a] && groups@[b] == old_groups[b]);
                        }
                    }
                    assert forall|k: int| 0 <= k < groups@.len() implies first_unit(
                        after,
                        (#[trigger] groups@[k]).name@,
                    ) == Some(groups@[k].time_unit@) && groups@[k].cpu_times@ == times_of(
                        after,
                        groups@[k].name@,
                    ) by {
                        if k < old_groups.len() {
                            assert(groups@[k] == old_groups[k]);
                            assert(old_groups[k].name@ != e.name@);
                        }
                    }
                    assert forall|n: Seq<char>|
                        (forall|k: int| 0 <= k < groups@.len() ==> (#[trigger] groups@[k]).name@
                            != n) implies (#[trigger] first_unit(after, n)) is None && times_of(
                        after,
                        n,
                    ).len() == 0 by {
                        assert forall|k: int| 0 <= k < old_groups.len() implies (
                        #[trigger] old_groups[k]).name@ != n by {
                            assert(groups@[k] == old_groups[k]);
                        }
                        assert(groups@[old_groups.len() as int].name@ == e.name@);
                        assert(e.name@ != n);
                        assert(first_unit(before, n) is None);
                    }
                }
            }
        } else {
            proof {
                assert forall|n: Seq<char>| #[trigger] first_unit(after, n) == first_unit(before, n)
                    && times_of(after, n) == times_of(before, n) by {}
            }
        }
        i = i + 1;
    }
    assert(entries@.take(entries@.len() as int) =~= entries@);
    groups
}

/// The scale of a Google Benchmark time unit: `ns`, `us`, `ms`, `s`;
/// anything else is taken as it is.
pub open spec fn spec_google_scale(unit: Seq<char>) -> TimeScale {
    if unit == "us"@ {
        TimeScale::Microseconds
    } else if unit == "ms"@ {
        TimeScale::Milliseconds
    } else if unit == "s"@ {
        TimeScale::Seconds
    } else {
        TimeScale::Nanoseconds
    }
}

/// How a Google Benchmark time in `unit` converts to nanoseconds.
pub fn google_time_scale(unit: &str) -> (s: TimeScale)
    ensures
        s == spec_google_scale(unit@),
{
    if eq_str(unit, "us") {
        TimeScale::Microseconds
    } else if eq_str(unit, "ms") {
        TimeScale::Milliseconds
    } else if eq_str(unit, "s") {
        TimeScale::Seconds
    } else {
        TimeScale::Nanoseconds
    }
}

} // verus!
