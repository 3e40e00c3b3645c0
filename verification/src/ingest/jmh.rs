//! JMH JSON results.
use vstd::prelude::*;

use super::TimeScale;
use crate::floatbits::FloatBits;
use crate::text::eq_str;

verus! {

/// The scale of a JMH score unit: `ns/op`, `us/op`, `ms/op`, `s/op`;
/// anything else is taken as it is.
pub open spec fn spec_jmh_scale(unit: Seq<char>) -> TimeScale {
    if unit == "us/op"@ {
        TimeScale::Microseconds
    } else if unit == "ms/op"@ {
        TimeScale::Milliseconds
    } else if unit == "s/op"@ {
        TimeScale::Seconds
    } else {
        TimeScale::Nanoseconds
    }
}

/// How a JMH score in `unit` converts to nanoseconds.
pub fn jmh_time_scale(unit: &str) -> (s: TimeScale)
    ensures
        s == spec_jmh_scale(unit@),
{
    if eq_str(unit, "us/op") {
        TimeScale::Microseconds
    } else if eq_str(unit, "ms/op") {
        TimeScale::Milliseconds
    } else if eq_str(unit, "s/op") {
        TimeScale::Seconds
    } else {
        TimeScale::Nanoseconds
    }
}

/// `i` is the last entry of `percentiles` keyed `key`.
pub open spec fn is_last_key(percentiles: Seq<(String, FloatBits)>, key: Seq<char>, i: int) -> bool {
    &&& 0 <= i < percentiles.len()
    &&& percentiles[i].0@ == key
    &&& forall|j: int| i < j < percentiles.len() ==> (#[trigger] percentiles[j]).0@ != key
}

/// The value of the percentile `key` (such as `50.0`); where a key occurs
/// more than once, the last value counts, as when the entries are read into
/// a map.
pub fn find_percentile(percentiles: &[(String, FloatBits)], key: &str) -> (r: Option<FloatBits>)
    ensures
        match r {
            Some(v) => exists|i: int| is_last_key(percentiles@, key@, i) && percentiles@[i].1 == v,
            None => forall|i: int| 0 <= i < percentiles@.len() ==> (#[trigger] percentiles@[i]).0@
                != key@,
        },
{
    let mut i: usize = percentiles.len();
    while i > 0
        invariant
            i <= percentiles@.len(),
            forall|j: int| i <= j < percentiles@.len() ==> (#[trigger] percentiles@[j]).0@ != key@,
        decreases i,
    {
        if eq_str(&percentiles[i - 1].0, key) {
            assert(is_last_key(percentiles@, key@, i - 1));
            return Some(percentiles[i - 1].1);
        }
        i = i - 1;
    }
    None
}

} // verus!
