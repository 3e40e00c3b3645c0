//! Report order and summary.
use vstd::prelude::*;

use super::{Comparison, Outcome, Report, SeriesKey, Summary, Verdict};
use crate::floatbits::{FloatBits, EXPONENT_MASK, INFINITY_BITS, MAGNITUDE_MASK, SIGN_MASK};
use vstd::multiset::Multiset;

verus! {

broadcast use vstd::seq_lib::group_to_multiset_ensures;

/// Strict lexicographic order of two strings by Unicode scalar value, which
/// is the byte order of their UTF-8 encodings.
pub open spec fn seq_lt(a: Seq<char>, b: Seq<char>) -> bool
    decreases a.len(),
{
    if a.len() == 0 {
        b.len() > 0
    } else if b.len() == 0 {
        false
    } else if (a[0] as u32) < (b[0] as u32) {
        true
    } else if a[0] == b[0] {
        seq_lt(a.drop_first(), b.drop_first())
    } else {
        false
    }
}

/// Strict lexicographic order of keys by benchmark name, metric name,
/// parameters and branch.
pub open spec fn key_lt(a: SeriesKey, b: SeriesKey) -> bool {
    seq_lt(a.benchmark_name@, b.benchmark_name@) || (a.benchmark_name@ == b.benchmark_name@ && (
    seq_lt(a.metric_name@, b.metric_name@) || (a.metric_name@ == b.metric_name@ && (seq_lt(
        a.parameters_json@,
        b.parameters_json@,
    ) || (a.parameters_json@ == b.parameters_json@ && seq_lt(a.branch@, b.branch@))))))
}

/// The outcome is a regression.
pub open spec fn spec_is_regressed(o: Outcome) -> bool {
    o matches Outcome::Compared { verdict: Verdict::Regressed, .. }
}

/// The size of a change used to rank it: `|diff_pct|`, infinite for an
/// unbounded change, zero for outcomes without a percentage. As an
/// integer: the bit pattern of the (non-negative) value, which orders such
/// values as their real values are ordered.
pub open spec fn magnitude_key(o: Outcome) -> int {
    match o {
        Outcome::Compared { diff_pct: Some(p), .. } => (p.bits & MAGNITUDE_MASK) as int,
        Outcome::Compared { diff_pct: None, .. } => INFINITY_BITS as int,
        _ => 0,
    }
}

/// No percentage is NaN, so every pair of magnitudes is ordered.
pub open spec fn no_nan_percentages(s: Seq<Comparison>) -> bool {
    forall|i: int|
        0 <= i < s.len() ==> !(#[trigger] s[i].outcome matches Outcome::Compared {
            diff_pct: Some(p),
            ..
        } && p.spec_is_nan())
}

/// `a` comes strictly before `b` in a report: regressions first, then by
/// descending magnitude, then by key.
pub open spec fn before(a: Comparison, b: Comparison) -> bool {
    (spec_is_regressed(a.outcome) && !spec_is_regressed(b.outcome)) || (spec_is_regressed(
        a.outcome,
    ) == spec_is_regressed(b.outcome) && (magnitude_key(a.outcome) > magnitude_key(b.outcome) || (
    magnitude_key(a.outcome) == magnitude_key(b.outcome) && key_lt(a.key, b.key))))
}

/// No element comes strictly before an earlier one.
pub open spec fn is_report_ordered(s: Seq<Comparison>) -> bool {
    forall|i: int, j: int| 0 <= i < j < s.len() ==> !before(#[trigger] s[j], #[trigger] s[i])
}

/// The size `|p|` of a percentage, as its position in the real order of
/// binary64 values.
pub open spec fn pct_size(p: FloatBits) -> int {
    p.spec_abs().order_key()
}

/// The report ranks changes by size, stated on the outcomes themselves: a
/// regression never follows a non-regression, and among comparisons with
/// the same regressed flag
/// - a larger `|diff_pct|` never follows a smaller one,
/// - a compared series with a non-zero percentage never follows a series
///   without a percentage (added, removed, incomparable, invalid),
/// - an unbounded change (no percentage, or an infinite one) follows only
///   unbounded changes.
pub open spec fn ranked_by_change(s: Seq<Comparison>) -> bool {
    forall|i: int, j: int|
        0 <= i < j < s.len() ==> {
            &&& (spec_is_regressed((#[trigger] s[j]).outcome) ==> spec_is_regressed(
                (#[trigger] s[i]).outcome,
            ))
            &&& spec_is_regressed(s[i].outcome) == spec_is_regressed(s[j].outcome) ==> {
                &&& (s[i].outcome matches Outcome::Compared { diff_pct: Some(pi), .. } ==> (
                s[j].outcome matches Outcome::Compared { diff_pct: Some(pj), .. } ==> pct_size(pj)
                    <= pct_size(pi)))
                &&& (s[j].outcome matches Outcome::Compared { diff_pct: Some(pj), .. } ==> (
                pct_size(pj) > 0 ==> s[i].outcome is Compared))
                &&& (s[j].outcome matches Outcome::Compared { diff_pct: None, .. } ==> (
                s[i].outcome matches Outcome::Compared { diff_pct: dp, .. } && match dp {
                    Some(q) => !q.spec_is_finite(),
                    None => true,
                }))
            }
        }
}

proof fn lemma_pct_size_is_magnitude(p: FloatBits)
    ensures
        pct_size(p) == (p.bits & MAGNITUDE_MASK) as int,
        (p.bits & MAGNITUDE_MASK) >= INFINITY_BITS ==> p.spec_is_nan() || !p.spec_is_finite(),
{
    let b = p.bits;
    assert((b & MAGNITUDE_MASK) & SIGN_MASK == 0) by (bit_vector);
    assert((b & MAGNITUDE_MASK) & MAGNITUDE_MASK == b & MAGNITUDE_MASK) by (bit_vector);
    assert((b & MAGNITUDE_MASK) >= INFINITY_BITS ==> b & EXPONENT_MASK == EXPONENT_MASK)
        by (bit_vector);
}

/// A report in report order ranks its changes by size (`ranked_by_change`).
pub proof fn lemma_report_ranked_by_change(s: Seq<Comparison>)
    requires
        is_report_ordered(s),
        no_nan_percentages(s),
    ensures
        ranked_by_change(s),
{
    assert forall|i: int, j: int| 0 <= i < j < s.len() implies {
        &&& (spec_is_regressed((#[trigger] s[j]).outcome) ==> spec_is_regressed(
            (#[trigger] s[i]).outcome,
        ))
        &&& spec_is_regressed(s[i].outcome) == spec_is_regressed(s[j].outcome) ==> {
            &&& (s[i].outcome matches Outcome::Compared { diff_pct: Some(pi), .. } ==> (
            s[j].outcome matches Outcome::Compared { diff_pct: Some(pj), .. } ==> pct_size(pj)
                <= pct_size(pi)))
            &&& (s[j].outcome matches Outcome::Compared { diff_pct: Some(pj), .. } ==> (
            pct_size(pj) > 0 ==> s[i].outcome is Compared))
            &&& (s[j].outcome matches Outcome::Compared { diff_pct: None, .. } ==> (
            s[i].outcome matches Outcome::Compared { diff_pct: dp, .. } && match dp {
                Some(q) => !q.spec_is_finite(),
                None => true,
            }))
        }
    } by {
        assert(!before(s[j], s[i]));
        if let Outcome::Compared { diff_pct: Some(p), .. } = s[i].outcome {
            lemma_pct_size_is_magnitude(p);
        }
        if let Outcome::Compared { diff_pct: Some(p), .. } = s[j].outcome {
            lemma_pct_size_is_magnitude(p);
        }
    }
}

/// `seq_lt` is transitive.
pub proof fn lemma_seq_lt_transitive(a: Seq<char>, b: Seq<char>, c: Seq<char>)
    requires
        seq_lt(a, b),
        seq_lt(b, c),
    ensures
        seq_lt(a, c),
    decreases a.len(),
{
    if a.len() > 0 && b.len() > 0 && c.len() > 0 && a[0] == b[0] && b[0] == c[0] {
        lemma_seq_lt_transitive(a.drop_first(), b.drop_first(), c.drop_first());
    }
}

/// `seq_lt` is asymmetric.
pub proof fn lemma_seq_lt_asymmetric(a: Seq<char>, b: Seq<char>)
    ensures
        !(seq_lt(a, b) && seq_lt(b, a)),
    decreases a.len(),
{
    if a.len() > 0 && b.len() > 0 && a[0] == b[0] {
        lemma_seq_lt_asymmetric(a.drop_first(), b.drop_first());
    }
}

proof fn lemma_key_lt_transitive(a: SeriesKey, b: SeriesKey, c: SeriesKey)
    requires
        key_lt(a, b),
        key_lt(b, c),
    ensures
        key_lt(a, c),
{
    if seq_lt(a.benchmark_name@, b.benchmark_name@) && seq_lt(
        b.benchmark_name@,
        c.benchmark_name@,
    ) {
        lemma_seq_lt_transitive(a.benchmark_name@, b.benchmark_name@, c.benchmark_name@);
    }
    if seq_lt(a.metric_name@, b.metric_name@) && seq_lt(b.metric_name@, c.metric_name@) {
        lemma_seq_lt_transitive(a.metric_name@, b.metric_name@, c.metric_name@);
    }
    if seq_lt(a.parameters_json@, b.parameters_json@) && seq_lt(
        b.parameters_json@,
        c.parameters_json@,
    ) {
        lemma_seq_lt_transitive(a.parameters_json@, b.parameters_json@, c.parameters_json@);
    }
    if seq_lt(a.branch@, b.branch@) && seq_lt(b.branch@, c.branch@) {
        lemma_seq_lt_transitive(a.branch@, b.branch@, c.branch@);
    }
}

proof fn lemma_key_lt_asymmetric(a: SeriesKey, b: SeriesKey)
    ensures
        !(key_lt(a, b) && key_lt(b, a)),
{
    lemma_seq_lt_asymmetric(a.benchmark_name@, b.benchmark_name@);
    lemma_seq_lt_asymmetric(a.metric_name@, b.metric_name@);
    lemma_seq_lt_asymmetric(a.parameters_json@, b.parameters_json@);
    lemma_seq_lt_asymmetric(a.branch@, b.branch@);
}

/// The report order is a strict order: transitive and asymmetric.
pub proof fn lemma_before_strict_order(a: Comparison, b: Comparison, c: Comparison)
    ensures
        before(a, b) && before(b, c) ==> before(a, c),
        !(before(a, b) && before(b, a)),
{
    lemma_key_lt_asymmetric(a.key, b.key);
    if before(a, b) && before(b, c) && key_lt(a.key, b.key) && key_lt(b.key, c.key) {
        lemma_key_lt_transitive(a.key, b.key, c.key);
    }
}

/// `seq_lt(a@.skip(i), b@.skip(i))`.
fn lt_chars_from(a: &[char], b: &[char], i: usize) -> (r: bool)
    requires
        i <= a@.len(),
        i <= b@.len(),
    ensures
        r == seq_lt(a@.skip(i as int), b@.skip(i as int)),
    decreases a@.len() - i,
{
    if i == a.len() {
        return i < b.len();
    }
    if i == b.len() {
        return false;
    }
    let x = a[i];
    let y = b[i];
    if (x as u32) < (y as u32) {
        return true;
    }
    if x != y {
        return false;
    }
    assert(a@.skip(i as int).drop_first() =~= a@.skip(i + 1));
    assert(b@.skip(i as int).drop_first() =~= b@.skip(i + 1));
    lt_chars_from(a, b, i + 1)
}

/// Strict lexicographic comparison of two strings.
pub fn str_lt(a: &str, b: &str) -> (r: bool)
    ensures
        r == seq_lt(a@, b@),
{
    let x = crate::text::chars_of(a);
    let y = crate::text::chars_of(b);
    let r = lt_chars_from(&x, &y, 0);
    assert(x@.skip(0) =~= x@);
    assert(y@.skip(0) =~= y@);
    r
}

/// Strict lexicographic order of two keys.
pub fn key_less(a: &SeriesKey, b: &SeriesKey) -> (r: bool)
    ensures
        r == key_lt(*a, *b),
{
    if str_lt(&a.benchmark_name, &b.benchmark_name) {
        return true;
    }
    if !crate::text::eq_str(&a.benchmark_name, &b.benchmark_name) {
        return false;
    }
    if str_lt(&a.metric_name, &b.metric_name) {
        return true;
    }
    if !crate::text::eq_str(&a.metric_name, &b.metric_name) {
        return false;
    }
    if str_lt(&a.parameters_json, &b.parameters_json) {
        return true;
    }
    if !crate::text::eq_str(&a.parameters_json, &b.parameters_json) {
        return false;
    }
    str_lt(&a.branch, &b.branch)
}

/// Whether an outcome is a regression.
pub fn is_regressed(o: &Outcome) -> (r: bool)
    ensures
        r == spec_is_regressed(*o),
{
    match o {
        Outcome::Compared { verdict: Verdict::Regressed, .. } => true,
        _ => false,
    }
}

/// The rank magnitude of an outcome, as a non-negative binary64 value.
pub fn magnitude(o: &Outcome) -> (m: FloatBits)
    ensures
        m.bits as int == magnitude_key(*o),
{
    match o {
        Outcome::Compared { diff_pct: Some(p), .. } => p.abs(),
        Outcome::Compared { diff_pct: None, .. } => FloatBits::infinity(),
        _ => FloatBits::zero(),
    }
}

/// Whether `a` comes strictly before `b` in a report.
pub fn comes_before(a: &Comparison, b: &Comparison) -> (r: bool)
    ensures
        r == before(*a, *b),
{
    let ra = is_regressed(&a.outcome);
    let rb = is_regressed(&b.outcome);
    if ra != rb {
        return ra;
    }
    let ma = magnitude(&a.outcome).bits;
    let mb = magnitude(&b.outcome).bits;
    if ma != mb {
        return ma > mb;
    }
    key_less(&a.key, &b.key)
}

/// Orders comparisons for a report: regressions first, then by descending
/// `|diff_pct|` (an unbounded change ranks above every percentage; outcomes
/// without a percentage rank below every compared one), then by key. The
/// result is a permutation of the input.
pub fn sort_comparisons(comparisons: Vec<Comparison>) -> (sorted: Vec<Comparison>)
    requires
        no_nan_percentages(comparisons@),
    ensures
        sorted@.to_multiset() == comparisons@.to_multiset(),
        sorted@.len() == comparisons@.len(),
        is_report_ordered(sorted@),
        ranked_by_change(sorted@),
{
    let ghost initial = comparisons@;
    let mut rest = comparisons;
    let mut sorted: Vec<Comparison> = Vec::new();
    while rest.len() > 0
        invariant
            sorted@.to_multiset().add(rest@.to_multiset()) == initial.to_multiset(),
            is_report_ordered(sorted@),
        decreases rest@.len(),
    {
        let ghost rest_before = rest@;
        let x = rest.pop().unwrap();
        proof {
            assert(rest_before =~= rest@.push(x));
        }
        let mut p: usize = 0;
        while p < sorted.len() && !comes_before(&x, &sorted[p])
            invariant
                p <= sorted@.len(),
                forall|k: int| 0 <= k < p ==> !before(x, #[trigger] sorted@[k]),
            decreases sorted@.len() - p,
        {
            p = p + 1;
        }
        let ghost sorted_before = sorted@;
        sorted.insert(p, x);
        proof {
            assert forall|i: int, j: int| 0 <= i < j < sorted@.len() implies !before(
                #[trigger] sorted@[j],
                #[trigger] sorted@[i],
            ) by {
                if j < p {
                    assert(sorted@[i] == sorted_before[i] && sorted@[j] == sorted_before[j]);
                } else if j == p {
                    assert(sorted@[j] == x && sorted@[i] == sorted_before[i]);
                } else if i == p {
                    // `x` was placed before `sorted_before[p]`, which no later element precedes.
                    assert(sorted@[i] == x && sorted@[j] == sorted_before[j - 1]);
                    assert(p < sorted_before.len() && before(x, sorted_before[p as int]));
                    lemma_before_strict_order(sorted_before[j - 1], x, sorted_before[p as int]);
                    if j - 1 > p {
                        assert(!before(sorted_before[j - 1], sorted_before[p as int]));
                    }
                } else if i < p {
                    assert(sorted@[i] == sorted_before[i] && sorted@[j] == sorted_before[j - 1]);
                } else {
                    assert(sorted@[i] == sorted_before[i - 1] && sorted@[j] == sorted_before[j
                        - 1]);
                }
            }
            assert(rest_before.to_multiset() == rest@.to_multiset().insert(x));
            assert(sorted@.to_multiset() == sorted_before.to_multiset().insert(x));
            assert(sorted@.to_multiset().add(rest@.to_multiset()) =~= initial.to_multiset());
        }
    }
    proof {
        assert(rest@.to_multiset() =~= Multiset::empty());
        assert(sorted@.to_multiset() =~= initial.to_multiset());
        assert forall|i: int| 0 <= i < sorted@.len() implies !(#[trigger] sorted@[i].outcome matches Outcome::Compared {
            diff_pct: Some(p),
            ..
        } && p.spec_is_nan()) by {
            assert(sorted@.to_multiset().count(sorted@[i]) > 0);
            assert(initial.contains(sorted@[i]));
        }
        lemma_report_ranked_by_change(sorted@);
        vstd::seq_lib::to_multiset_len(sorted@);
        vstd::seq_lib::to_multiset_len(initial);
    }
    sorted
}

/// Kind of an outcome, as counted by a [`Summary`].
#[derive(Debug, Clone, Copy, PartialEq, Eq, Structural)]
pub enum OutcomeKind {
    Regressed,
    Improved,
    Unchanged,
    Added,
    Removed,
    Unassessable,
}

pub open spec fn kind_of(o: Outcome) -> OutcomeKind {
    match o {
        Outcome::Compared { verdict: Verdict::Regressed, .. } => OutcomeKind::Regressed,
        Outcome::Compared { verdict: Verdict::Improved, .. } => OutcomeKind::Improved,
        Outcome::Compared { verdict: Verdict::Unchanged, .. } => OutcomeKind::Unchanged,
        Outcome::Added { .. } => OutcomeKind::Added,
        Outcome::Removed { .. } => OutcomeKind::Removed,
        Outcome::Incomparable { .. } => OutcomeKind::Unassessable,
        Outcome::Invalid { .. } => OutcomeKind::Unassessable,
    }
}

/// Number of comparisons of kind `k`.
pub open spec fn count_kind(s: Seq<Comparison>, k: OutcomeKind) -> nat
    decreases s.len(),
{
    if s.len() == 0 {
        0
    } else {
        count_kind(s.drop_last(), k) + if kind_of(s.last().outcome) == k {
            1nat
        } else {
            0nat
        }
    }
}

/// The kind of an outcome.
pub fn outcome_kind(o: &Outcome) -> (k: OutcomeKind)
    ensures
        k == kind_of(*o),
{
    match o {
        Outcome::Compared { verdict, .. } => match verdict {
            Verdict::Regressed => OutcomeKind::Regressed,
            Verdict::Improved => OutcomeKind::Improved,
            Verdict::Unchanged => OutcomeKind::Unchanged,
        },
        Outcome::Added { .. } => OutcomeKind::Added,
        Outcome::Removed { .. } => OutcomeKind::Removed,
        Outcome::Incomparable { .. } => OutcomeKind::Unassessable,
        Outcome::Invalid { .. } => OutcomeKind::Unassessable,
    }
}

proof fn lemma_count_bounded(s: Seq<Comparison>, k: OutcomeKind)
    ensures
        count_kind(s, k) <= s.len(),
    decreases s.len(),
{
    if s.len() > 0 {
        lemma_count_bounded(s.drop_last(), k);
    }
}

/// The headline counts of `comparisons`, with `has_regressions` set when
/// anything regressed.
pub fn summarize(comparisons: &[Comparison], threshold_pct: FloatBits) -> (s: Summary)
    requires
        comparisons@.len() <= u32::MAX,
    ensures
        s.regressed == count_kind(comparisons@, OutcomeKind::Regressed),
        s.improved == count_kind(comparisons@, OutcomeKind::Improved),
        s.unchanged == count_kind(comparisons@, OutcomeKind::Unchanged),
        s.added == count_kind(comparisons@, OutcomeKind::Added),
        s.removed == count_kind(comparisons@, OutcomeKind::Removed),
        s.unassessable == count_kind(comparisons@, OutcomeKind::Unassessable),
        s.threshold_pct == threshold_pct,
        s.has_regressions == (s.regressed > 0),
{
    let mut regressed: u32 = 0;
    let mut improved: u32 = 0;
    let mut unchanged: u32 = 0;
    let mut added: u32 = 0;
    let mut removed: u32 = 0;
    let mut unassessable: u32 = 0;
    let mut i: usize = 0;
    while i < comparisons.len()
        invariant
            i <= comparisons@.len(),
            comparisons@.len() <= u32::MAX,
            regressed == count_kind(comparisons@.take(i as int), OutcomeKind::Regressed),
            improved == count_kind(comparisons@.take(i as int), OutcomeKind::Improved),
            unchanged == count_kind(comparisons@.take(i as int), OutcomeKind::Unchanged),
            added == count_kind(comparisons@.take(i as int), OutcomeKind::Added),
            removed == count_kind(comparisons@.take(i as int), OutcomeKind::Removed),
            unassessable == count_kind(comparisons@.take(i as int), OutcomeKind::Unassessable),
        decreases comparisons@.len() - i,
    {
        let ghost prefix = comparisons@.take(i + 1);
        proof {
            assert(prefix.drop_last() =~= comparisons@.take(i as int));
            assert(prefix.last() == comparisons@[i as int]);
            lemma_count_bounded(comparisons@.take(i as int), OutcomeKind::Regressed);
            lemma_count_bounded(comparisons@.take(i as int), OutcomeKind::Improved);
            lemma_count_bounded(comparisons@.take(i as int), OutcomeKind::Unchanged);
            lemma_count_bounded(comparisons@.take(i as int), OutcomeKind::Added);
            lemma_count_bounded(comparisons@.take(i as int), OutcomeKind::Removed);
            lemma_count_bounded(comparisons@.take(i as int), OutcomeKind::Unassessable);
        }
        match outcome_kind(&comparisons[i].outcome) {
            OutcomeKind::Regressed => regressed = regressed + 1,
            OutcomeKind::Improved => improved = improved + 1,
            OutcomeKind::Unchanged => unchanged = unchanged + 1,
            OutcomeKind::Added => added = added + 1,
            OutcomeKind::Removed => removed = removed + 1,
            OutcomeKind::Unassessable => unassessable = unassessable + 1,
        }
        i = i + 1;
    }
    assert(comparisons@.take(comparisons@.len() as int) =~= comparisons@);
    Summary {
        regressed,
        improved,
        unchanged,
        added,
        removed,
        unassessable,
        threshold_pct,
        has_regressions: regressed > 0,
    }
}

/// Orders `comparisons` for a report and summarizes them.
pub fn assemble_report(comparisons: Vec<Comparison>, threshold_pct: FloatBits) -> (r: Report)
    requires
        no_nan_percentages(comparisons@),
        comparisons@.len() <= u32::MAX,
    ensures
        r.comparisons@.to_multiset() == comparisons@.to_multiset(),
        r.comparisons@.len() == comparisons@.len(),
        is_report_ordered(r.comparisons@),
        ranked_by_change(r.comparisons@),
        r.summary.regressed == count_kind(r.comparisons@, OutcomeKind::Regressed),
        r.summary.improved == count_kind(r.comparisons@, OutcomeKind::Improved),
        r.summary.unchanged == count_kind(r.comparisons@, OutcomeKind::Unchanged),
        r.summary.added == count_kind(r.comparisons@, OutcomeKind::Added),
        r.summary.removed == count_kind(r.comparisons@, OutcomeKind::Removed),
        r.summary.unassessable == count_kind(r.comparisons@, OutcomeKind::Unassessable),
        r.summary.threshold_pct == threshold_pct,
        r.summary.has_regressions == (r.summary.regressed > 0),
{
    let sorted = sort_comparisons(comparisons);
    let summary = summarize(&sorted, threshold_pct);
    Report { comparisons: sorted, summary }
}

} // verus!
