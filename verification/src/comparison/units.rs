//! Unit families of measured series.
use vstd::prelude::*;

use crate::text::eq_str;

verus! {

/// The duration units that convert to a common nanosecond scale.
pub open spec fn spec_is_duration_unit(unit: Seq<char>) -> bool {
    unit == "seconds"@ || unit == "milliseconds"@ || unit == "microseconds"@ || unit
        == "nanoseconds"@
}

/// Whether `unit` is one of the duration units that convert to nanoseconds.
pub fn is_duration_unit(unit: &str) -> (r: bool)
    ensures
        r == spec_is_duration_unit(unit@),
{
    eq_str(unit, "seconds") || eq_str(unit, "milliseconds") || eq_str(unit, "microseconds")
        || eq_str(unit, "nanoseconds")
}

/// Higher-is-better units are the throughput-like ones and `ratio`; every
/// other unit is lower-is-better.
pub open spec fn spec_lower_is_better(unit: Seq<char>) -> bool {
    !(unit == "count_per_second"@ || unit == "bits_per_second"@ || unit == "ratio"@)
}

/// Whether a smaller value of `unit` is an improvement.
pub fn metric_lower_is_better(unit: &str) -> (r: bool)
    ensures
        r == spec_lower_is_better(unit@),
{
    !(eq_str(unit, "count_per_second") || eq_str(unit, "bits_per_second") || eq_str(
        unit,
        "ratio",
    ))
}

/// The name of an unspecified unit (a producer that sent no unit or an
/// unknown one).
pub open spec fn spec_unit_unspecified() -> Seq<char> {
    "unspecified"@
}

} // verus!
