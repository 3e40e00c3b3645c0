//! Outcome and verdict of a single series.
use vstd::prelude::*;

use super::units::{
    is_duration_unit, metric_lower_is_better, spec_is_duration_unit, spec_lower_is_better,
    spec_unit_unspecified,
};
use super::{Comparison, Outcome, SeriesKey, SeriesMean, Verdict};
use crate::floatbits::FloatBits;
use crate::text::{eq_str, owned};

verus! {

/// A threshold that classifies changes: finite and `>= 0`.
pub open spec fn spec_valid_threshold(t: FloatBits) -> bool {
    t.spec_is_finite() && FloatBits { bits: 0 }.spec_le(t)
}

/// A threshold percentage that cannot produce a meaningful verdict.
#[derive(Debug, Clone, Copy, PartialEq, Eq, Structural)]
pub enum ThresholdError {
    /// Negative, infinite or NaN; carries the rejected value.
    NotFiniteNonNegative(FloatBits),
}

/// Rejects a threshold that is negative (an exact 0% change would already
/// exceed it) or not finite (NaN compares false to everything, so no change
/// would ever be within it).
pub fn validate_threshold_pct(threshold_pct: FloatBits) -> (r: Result<(), ThresholdError>)
    ensures
        r is Ok <==> spec_valid_threshold(threshold_pct),
        r matches Err(ThresholdError::NotFiniteNonNegative(v)) ==> v == threshold_pct,
{
    let zero = FloatBits::zero();
    if threshold_pct.is_finite() && zero.le(&threshold_pct) {
        Ok(())
    } else {
        Err(ThresholdError::NotFiniteNonNegative(threshold_pct))
    }
}

/// `worse` is positive-means-regressed, already oriented by the unit's
/// direction.
pub open spec fn spec_worse_or_better(worse: FloatBits) -> Verdict {
    if worse.spec_is_positive() {
        Verdict::Regressed
    } else {
        Verdict::Improved
    }
}

/// The verdict of a change: `Unchanged` when the percentage is within the
/// threshold (inclusive) or the change is a true zero-to-zero non-change,
/// otherwise regressed or improved by the sign of the change seen through
/// the unit's direction.
pub open spec fn spec_classify(
    diff: FloatBits,
    diff_pct: Option<FloatBits>,
    threshold_pct: FloatBits,
    lower_is_better: bool,
) -> Verdict {
    match diff_pct {
        Some(pct) => if pct.spec_abs().spec_le(threshold_pct) {
            Verdict::Unchanged
        } else {
            spec_worse_or_better(
                if lower_is_better {
                    pct
                } else {
                    pct.spec_neg()
                },
            )
        },
        None => if diff.spec_eq_zero() {
            Verdict::Unchanged
        } else {
            spec_worse_or_better(
                if lower_is_better {
                    diff
                } else {
                    diff.spec_neg()
                },
            )
        },
    }
}

fn worse_or_better(worse: FloatBits) -> (v: Verdict)
    ensures
        v == spec_worse_or_better(worse),
{
    if worse.is_positive() {
        Verdict::Regressed
    } else {
        Verdict::Improved
    }
}

/// Classifies a change against `threshold_pct`; see [`spec_classify`].
pub fn classify(
    diff: FloatBits,
    diff_pct: Option<FloatBits>,
    threshold_pct: FloatBits,
    lower_is_better: bool,
) -> (v: Verdict)
    ensures
        v == spec_classify(diff, diff_pct, threshold_pct, lower_is_better),
{
    match diff_pct {
        Some(pct) => {
            if pct.abs().le(&threshold_pct) {
                Verdict::Unchanged
            } else {
                worse_or_better(
                    if lower_is_better {
                        pct
                    } else {
                        pct.neg()
                    },
                )
            }
        },
        None => {
            if diff.is_zero() {
                Verdict::Unchanged
            } else {
                worse_or_better(
                    if lower_is_better {
                        diff
                    } else {
                        diff.neg()
                    },
                )
            }
        },
    }
}

/// What the caller must compute for a pair present at both commits, or the
/// comparison when it is already settled without arithmetic.
#[derive(Debug)]
pub enum PairPlan {
    /// The pair's outcome needs no arithmetic.
    Settled(Comparison),
    /// Measure on `unit`; when `normalize` holds both means are converted to
    /// nanoseconds first, otherwise they are compared as stored.
    Measure { unit: String, normalize: bool },
}

/// The reason given when one or both stored means are not finite.
pub open spec fn spec_non_finite_reason(base_finite: bool, head_finite: bool) -> Seq<char> {
    if !base_finite && !head_finite {
        "base and head means are both non-finite"@
    } else if !base_finite {
        "base mean is non-finite"@
    } else {
        "head mean is non-finite"@
    }
}

/// The comparison is incomparable on these two units.
pub open spec fn spec_incomparable(base_unit: Seq<char>, head_unit: Seq<char>) -> bool {
    base_unit == spec_unit_unspecified() || head_unit == spec_unit_unspecified() || (!(
    spec_is_duration_unit(base_unit) && spec_is_duration_unit(head_unit)) && base_unit
        != head_unit)
}

/// Decides what a pair present at both commits needs: an invalid outcome
/// when a stored mean is not finite, an incomparable one when the units
/// share no scale (or either is unspecified), otherwise the unit to measure
/// on — nanoseconds for two duration units, else the common unit. The
/// comparison carries the head's key.
pub fn plan_pair(base: &SeriesMean, head: &SeriesMean) -> (p: PairPlan)
    ensures
        !base.mean.spec_is_finite() || !head.mean.spec_is_finite() ==> (p matches PairPlan::Settled(
            c,
        ) && c.key == head.key && (c.outcome matches Outcome::Invalid { reason } && reason@
            == spec_non_finite_reason(base.mean.spec_is_finite(), head.mean.spec_is_finite()))),
        base.mean.spec_is_finite() && head.mean.spec_is_finite() && spec_incomparable(
            base.unit@,
            head.unit@,
        ) ==> (p matches PairPlan::Settled(c) && c.key == head.key && (
        c.outcome matches Outcome::Incomparable { base_unit, head_unit } && base_unit
            == base.unit && head_unit == head.unit)),
        base.mean.spec_is_finite() && head.mean.spec_is_finite() && !spec_incomparable(
            base.unit@,
            head.unit@,
        ) ==> (p matches PairPlan::Measure { unit, normalize } && normalize == (
        spec_is_duration_unit(base.unit@) && spec_is_duration_unit(head.unit@)) && (normalize
            ==> unit@ == "nanoseconds"@) && (!normalize ==> unit == head.unit)),
{
    let key = head.key.clone();
    let base_finite = base.mean.is_finite();
    let head_finite = head.mean.is_finite();
    if !base_finite || !head_finite {
        let reason = if !base_finite && !head_finite {
            owned("base and head means are both non-finite")
        } else if !base_finite {
            owned("base mean is non-finite")
        } else {
            owned("head mean is non-finite")
        };
        return PairPlan::Settled(Comparison { key, outcome: Outcome::Invalid { reason } });
    }
    if eq_str(&base.unit, "unspecified") || eq_str(&head.unit, "unspecified") {
        return PairPlan::Settled(
            Comparison {
                key,
                outcome: Outcome::Incomparable {
                    base_unit: base.unit.clone(),
                    head_unit: head.unit.clone(),
                },
            },
        );
    }
    if is_duration_unit(&base.unit) && is_duration_unit(&head.unit) {
        PairPlan::Measure { unit: owned("nanoseconds"), normalize: true }
    } else if eq_str(&base.unit, &head.unit) {
        PairPlan::Measure { unit: head.unit.clone(), normalize: false }
    } else {
        PairPlan::Settled(
            Comparison {
                key,
                outcome: Outcome::Incomparable {
                    base_unit: base.unit.clone(),
                    head_unit: head.unit.clone(),
                },
            },
        )
    }
}

/// Settles a measured pair from the values the caller computed:
/// `base_val`/`head_val` (the means on `unit`'s scale), `diff = head_val -
/// base_val` and `pct = diff / |base_val| * 100` (read only when `base_val`
/// is not zero). Overflow to a non-finite value at any step is invalid; a
/// zero baseline has a percentage only for a zero-to-zero non-change.
pub fn finish_pair(
    key: SeriesKey,
    unit: String,
    base_val: FloatBits,
    head_val: FloatBits,
    diff: FloatBits,
    pct: FloatBits,
    threshold_pct: FloatBits,
) -> (c: Comparison)
    ensures
        c.key == key,
        !base_val.spec_is_finite() || !head_val.spec_is_finite() ==> (c.outcome matches Outcome::Invalid {
            reason,
        } && reason@ == "normalized value overflowed to non-finite"@),
        base_val.spec_is_finite() && head_val.spec_is_finite() && !diff.spec_is_finite()
            ==> (c.outcome matches Outcome::Invalid { reason } && reason@
            == "diff overflowed to non-finite"@),
        base_val.spec_is_finite() && head_val.spec_is_finite() && diff.spec_is_finite()
            && !base_val.spec_is_zero() && !pct.spec_is_finite() ==> (c.outcome matches Outcome::Invalid {
            reason,
        } && reason@ == "diff_pct overflowed to non-finite"@),
        base_val.spec_is_finite() && head_val.spec_is_finite() && diff.spec_is_finite() && (
        base_val.spec_is_zero() || pct.spec_is_finite()) ==> ({
            let expected_pct = if base_val.spec_is_zero() {
                if diff.spec_eq_zero() {
                    Some(FloatBits { bits: 0 })
                } else {
                    None
                }
            } else {
                Some(pct)
            };
            c.outcome matches Outcome::Compared {
                unit: u,
                base_mean,
                head_mean,
                diff: d,
                diff_pct,
                verdict,
            } && u == unit && base_mean == base_val && head_mean == head_val && d == diff
                && diff_pct == expected_pct && verdict == spec_classify(
                diff,
                expected_pct,
                threshold_pct,
                spec_lower_is_better(unit@),
            )
        }),
{
    if !base_val.is_finite() || !head_val.is_finite() {
        return Comparison {
            key,
            outcome: Outcome::Invalid { reason: owned("normalized value overflowed to non-finite") },
        };
    }
    if !diff.is_finite() {
        return Comparison {
            key,
            outcome: Outcome::Invalid { reason: owned("diff overflowed to non-finite") },
        };
    }
    let diff_pct = if base_val.is_zero() {
        if diff.is_zero() {
            Some(FloatBits::zero())
        } else {
            None
        }
    } else {
        if !pct.is_finite() {
            return Comparison {
                key,
                outcome: Outcome::Invalid { reason: owned("diff_pct overflowed to non-finite") },
            };
        }
        Some(pct)
    };
    let lower_is_better = metric_lower_is_better(&unit);
    let verdict = classify(diff, diff_pct, threshold_pct, lower_is_better);
    Comparison {
        key,
        outcome: Outcome::Compared {
            unit,
            base_mean: base_val,
            head_mean: head_val,
            diff,
            diff_pct,
            verdict,
        },
    }
}

/// A series present at head only: added, or invalid when its mean is not
/// finite.
pub fn added_comparison(head: &SeriesMean) -> (c: Comparison)
    ensures
        c.key == head.key,
        head.mean.spec_is_finite() ==> (c.outcome matches Outcome::Added { unit, head_mean } && unit
            == head.unit && head_mean == head.mean),
        !head.mean.spec_is_finite() ==> (c.outcome matches Outcome::Invalid { reason } && reason@
            == "head mean is non-finite"@),
{
    let key = head.key.clone();
    if head.mean.is_finite() {
        Comparison { key, outcome: Outcome::Added { unit: head.unit.clone(), head_mean: head.mean } }
    } else {
        Comparison { key, outcome: Outcome::Invalid { reason: owned("head mean is non-finite") } }
    }
}

/// A series present at base only: removed, or invalid when its mean is not
/// finite.
pub fn removed_comparison(base: &SeriesMean) -> (c: Comparison)
    ensures
        c.key == base.key,
        base.mean.spec_is_finite() ==> (c.outcome matches Outcome::Removed { unit, base_mean } && unit
            == base.unit && base_mean == base.mean),
        !base.mean.spec_is_finite() ==> (c.outcome matches Outcome::Invalid { reason } && reason@
            == "base mean is non-finite"@),
{
    let key = base.key.clone();
    if base.mean.is_finite() {
        Comparison {
            key,
            outcome: Outcome::Removed { unit: base.unit.clone(), base_mean: base.mean },
        }
    } else {
        Comparison { key, outcome: Outcome::Invalid { reason: owned("base mean is non-finite") } }
    }
}

} // verus!
