//! Properties of comparisons that hold across functions: how summaries
//! count, and how verdicts treat the direction of a metric and a series
//! that did not change.
use vstd::prelude::*;

use super::order::{count_kind, kind_of, spec_is_regressed, OutcomeKind};
use super::outcome::{spec_classify, spec_valid_threshold};
use super::pairing::{covered, has_id, id_at, pair_id, pair_ok, SeriesPair};
use super::series::unit_label;
use super::units::{spec_is_duration_unit, spec_lower_is_better};
use super::{Comparison, SeriesMean, Verdict};
use crate::proto::benchmark::spec_unit_from_code;
use crate::floatbits::{lemma_neg_mirrors, FloatBits, MAGNITUDE_MASK, SIGN_MASK};

verus! {

/// The six counts of a summary add up to the number of comparisons: every
/// comparison is counted once.
pub proof fn lemma_summary_counts_every_comparison(s: Seq<Comparison>)
    ensures
        count_kind(s, OutcomeKind::Regressed) + count_kind(s, OutcomeKind::Improved) + count_kind(
            s,
            OutcomeKind::Unchanged,
        ) + count_kind(s, OutcomeKind::Added) + count_kind(s, OutcomeKind::Removed) + count_kind(
            s,
            OutcomeKind::Unassessable,
        ) == s.len(),
    decreases s.len(),
{
    if s.len() > 0 {
        lemma_summary_counts_every_comparison(s.drop_last());
    }
}

/// A summary flags regressions exactly when some comparison regressed.
pub proof fn lemma_regressions_flagged(s: Seq<Comparison>)
    ensures
        (count_kind(s, OutcomeKind::Regressed) > 0) <==> (exists|i: int|
            0 <= i < s.len() && #[trigger] spec_is_regressed(s[i].outcome)),
    decreases s.len(),
{
    if s.len() > 0 {
        let t = s.drop_last();
        lemma_regressions_flagged(t);
        assert(kind_of(s.last().outcome) == OutcomeKind::Regressed <==> spec_is_regressed(
            s.last().outcome,
        ));
        if exists|i: int| 0 <= i < t.len() && #[trigger] spec_is_regressed(t[i].outcome) {
            let i = choose|i: int| 0 <= i < t.len() && #[trigger] spec_is_regressed(t[i].outcome);
            assert(s[i] == t[i]);
            assert(spec_is_regressed(s[i].outcome));
        }
        if spec_is_regressed(s.last().outcome) {
            assert(spec_is_regressed(s[s.len() - 1].outcome));
        }
        if exists|i: int| 0 <= i < s.len() && #[trigger] spec_is_regressed(s[i].outcome) {
            let i = choose|i: int| 0 <= i < s.len() && #[trigger] spec_is_regressed(s[i].outcome);
            if i < s.len() - 1 {
                assert(t[i] == s[i]);
                assert(spec_is_regressed(t[i].outcome));
            }
        }
    }
}

/// Both optional percentages negated.
pub open spec fn neg_opt(p: Option<FloatBits>) -> Option<FloatBits> {
    match p {
        Some(x) => Some(x.spec_neg()),
        None => None,
    }
}

proof fn lemma_neg_keeps_magnitude(x: FloatBits)
    ensures
        x.spec_neg().spec_abs() == x.spec_abs(),
        x.spec_neg().spec_eq_zero() == x.spec_eq_zero(),
{
    let b = x.bits;
    assert((b ^ SIGN_MASK) & MAGNITUDE_MASK == b & MAGNITUDE_MASK) by (bit_vector);
}

/// The direction of a metric only orients the change: a change on a
/// lower-is-better metric gets the verdict of the opposite change on a
/// higher-is-better one, for any threshold.
pub proof fn lemma_classify_mirrored(diff: FloatBits, diff_pct: Option<FloatBits>, threshold_pct: FloatBits)
    ensures
        spec_classify(diff, diff_pct, threshold_pct, true) == spec_classify(
            diff.spec_neg(),
            neg_opt(diff_pct),
            threshold_pct,
            false,
        ),
{
    lemma_neg_mirrors(diff);
    lemma_neg_keeps_magnitude(diff);
    match diff_pct {
        Some(p) => {
            lemma_neg_mirrors(p);
            lemma_neg_keeps_magnitude(p);
        },
        None => {},
    }
}

/// A series whose mean did not change is unchanged, whatever the metric's
/// direction, for every threshold that classifies changes: with a zero
/// percentage, and with the zero-to-zero change that has none.
pub proof fn lemma_no_change_is_unchanged(threshold_pct: FloatBits, lower_is_better: bool)
    requires
        spec_valid_threshold(threshold_pct),
    ensures
        spec_classify(FloatBits { bits: 0 }, Some(FloatBits { bits: 0 }), threshold_pct, lower_is_better)
            == Verdict::Unchanged,
        spec_classify(FloatBits { bits: 0 }, None, threshold_pct, lower_is_better)
            == Verdict::Unchanged,
{
    assert(0u64 & MAGNITUDE_MASK == 0) by (bit_vector);
}

/// Compared with itself, a snapshot pairs each series with itself: every
/// pair that `pair_series(s, s)` may give has both sides, at one index.
pub proof fn lemma_self_pairs_each_series_with_itself(s: Seq<SeriesMean>, p: SeriesPair)
    requires
        pair_ok(s, s, p),
    ensures
        p matches SeriesPair::Both { base: b, head: h } && b == h,
{
    match p {
        SeriesPair::Both { base: b, head: h } => {
            if (b as int) < (h as int) {
                assert(id_at(s, h as int) != id_at(s, b as int));
            } else if (h as int) < (b as int) {
                assert(id_at(s, b as int) != id_at(s, h as int));
            }
        },
        SeriesPair::HeadOnly { head: h } => {
            assert(id_at(s, h as int) == id_at(s, h as int));
        },
        SeriesPair::BaseOnly { base: b } => {
            assert(id_at(s, b as int) == id_at(s, b as int));
        },
    }
}

/// Comparing two snapshots lists each series identity of either side
/// exactly once (the pairs of `pair_series` are distinct by identity): an
/// identity is listed exactly when it occurs in the base or the head, and a
/// pair is added (head only), removed (base only) or compared (both) exactly
/// as its identity occurs in the head only, the base only, or both.
pub proof fn lemma_pairs_partition_identities(
    base: Seq<SeriesMean>,
    head: Seq<SeriesMean>,
    pairs: Seq<SeriesPair>,
)
    requires
        forall|k: int| 0 <= k < pairs.len() ==> pair_ok(base, head, #[trigger] pairs[k]),
        forall|i: int| 0 <= i < base.len() ==> #[trigger] covered(base, head, pairs, id_at(base, i)),
        forall|i: int| 0 <= i < head.len() ==> #[trigger] covered(base, head, pairs, id_at(head, i)),
    ensures
        forall|id: (Seq<char>, Seq<char>, Seq<char>)|
            #[trigger] covered(base, head, pairs, id) <==> (has_id(base, id) || has_id(head, id)),
        forall|k: int|
            0 <= k < pairs.len() ==> {
                let id = pair_id(base, head, #[trigger] pairs[k]);
                &&& (pairs[k] is HeadOnly <==> (has_id(head, id) && !has_id(base, id)))
                &&& (pairs[k] is BaseOnly <==> (has_id(base, id) && !has_id(head, id)))
                &&& (pairs[k] is Both <==> (has_id(base, id) && has_id(head, id)))
            },
{
    assert forall|id: (Seq<char>, Seq<char>, Seq<char>)|
        #[trigger] covered(base, head, pairs, id) <==> (has_id(base, id) || has_id(head, id)) by {
        if covered(base, head, pairs, id) {
            let k = choose|k: int| 0 <= k < pairs.len() && #[trigger] pair_id(base, head, pairs[k]) == id;
            assert(pair_ok(base, head, pairs[k]));
            match pairs[k] {
                SeriesPair::Both { base: b, head: h } => {
                    assert(id_at(head, h as int) == id);
                },
                SeriesPair::HeadOnly { head: h } => {
                    assert(id_at(head, h as int) == id);
                },
                SeriesPair::BaseOnly { base: b } => {
                    assert(id_at(base, b as int) == id);
                },
            }
        }
        if has_id(base, id) {
            let i = choose|i: int| 0 <= i < base.len() && #[trigger] id_at(base, i) == id;
            assert(covered(base, head, pairs, id_at(base, i)));
        }
        if has_id(head, id) {
            let i = choose|i: int| 0 <= i < head.len() && #[trigger] id_at(head, i) == id;
            assert(covered(base, head, pairs, id_at(head, i)));
        }
    }
    assert forall|k: int| 0 <= k < pairs.len() implies {
        let id = pair_id(base, head, #[trigger] pairs[k]);
        &&& (pairs[k] is HeadOnly <==> (has_id(head, id) && !has_id(base, id)))
        &&& (pairs[k] is BaseOnly <==> (has_id(base, id) && !has_id(head, id)))
        &&& (pairs[k] is Both <==> (has_id(base, id) && has_id(head, id)))
    } by {
        assert(pair_ok(base, head, pairs[k]));
        match pairs[k] {
            SeriesPair::Both { base: b, head: h } => {
                assert(id_at(base, b as int) == id_at(head, h as int));
            },
            SeriesPair::HeadOnly { head: h } => {
                assert(id_at(head, h as int) == id_at(head, h as int));
            },
            SeriesPair::BaseOnly { base: b } => {
                assert(id_at(base, b as int) == id_at(base, b as int));
            },
        }
    }
}

/// The unit families, by protobuf unit number: exactly the time units
/// (nanoseconds 1 to seconds 4) convert to a common nanosecond scale, and
/// exactly the throughput units and ratio (12 to 14) are higher-is-better;
/// every other unit, the unknown ones included, is lower-is-better.
pub proof fn lemma_unit_families(code: i32)
    ensures
        spec_is_duration_unit(unit_label(spec_unit_from_code(code))) <==> (1 <= code <= 4),
        !spec_lower_is_better(unit_label(spec_unit_from_code(code))) <==> (12 <= code <= 14),
{
    reveal_strlit("unspecified");
    assert("unspecified"@.len() == 11 && "unspecified"@[0] == 'u');
    reveal_strlit("nanoseconds");
    assert("nanoseconds"@.len() == 11 && "nanoseconds"@[0] == 'n');
    reveal_strlit("microseconds");
    assert("microseconds"@.len() == 12 && "microseconds"@[0] == 'm');
    reveal_strlit("milliseconds");
    assert("milliseconds"@.len() == 12 && "milliseconds"@[0] == 'm');
    reveal_strlit("seconds");
    assert("seconds"@.len() == 7 && "seconds"@[0] == 's');
    reveal_strlit("bytes");
    assert("bytes"@.len() == 5 && "bytes"@[0] == 'b');
    reveal_strlit("allocation_count");
    assert("allocation_count"@.len() == 16 && "allocation_count"@[0] == 'a');
    reveal_strlit("cache_misses");
    assert("cache_misses"@.len() == 12 && "cache_misses"@[0] == 'c');
    reveal_strlit("branch_misses");
    assert("branch_misses"@.len() == 13 && "branch_misses"@[0] == 'b');
    reveal_strlit("instructions");
    assert("instructions"@.len() == 12 && "instructions"@[0] == 'i');
    reveal_strlit("cycles");
    assert("cycles"@.len() == 6 && "cycles"@[0] == 'c');
    reveal_strlit("page_faults");
    assert("page_faults"@.len() == 11 && "page_faults"@[0] == 'p');
    reveal_strlit("count_per_second");
    assert("count_per_second"@.len() == 16 && "count_per_second"@[0] == 'c');
    reveal_strlit("bits_per_second");
    assert("bits_per_second"@.len() == 15 && "bits_per_second"@[0] == 'b');
    reveal_strlit("ratio");
    assert("ratio"@.len() == 5 && "ratio"@[0] == 'r');
    reveal_strlit("dimensionless");
    assert("dimensionless"@.len() == 13 && "dimensionless"@[0] == 'd');
    let u = spec_unit_from_code(code);
    if 1 <= code <= 4 {
        assert(spec_is_duration_unit(unit_label(u)));
    }
    if 12 <= code <= 14 {
        assert(!spec_lower_is_better(unit_label(u)));
    }
}

} // verus!
