//! Matching series between the base and the head commit.
use vstd::prelude::*;

use super::{series_identity, SeriesKey, SeriesMean};
use crate::text::eq_str;

verus! {

/// How one series identity is present across the two commits: by the index
/// of its (last) occurrence in `base` and/or `head`.
#[derive(Debug, Clone, Copy, PartialEq, Eq, Structural)]
pub enum SeriesPair {
    Both { base: usize, head: usize },
    HeadOnly { head: usize },
    BaseOnly { base: usize },
}

/// Identity of the series at index `i`.
pub open spec fn id_at(s: Seq<SeriesMean>, i: int) -> (Seq<char>, Seq<char>, Seq<char>) {
    series_identity(s[i].key)
}

/// Some series of `s` has identity `id`.
pub open spec fn has_id(s: Seq<SeriesMean>, id: (Seq<char>, Seq<char>, Seq<char>)) -> bool {
    exists|i: int| 0 <= i < s.len() && #[trigger] id_at(s, i) == id
}

/// Index `i` is the last occurrence of its identity in `s`: a later
/// duplicate of an identity replaces an earlier one.
pub open spec fn is_last(s: Seq<SeriesMean>, i: int) -> bool {
    0 <= i < s.len() && forall|j: int| i < j < s.len() ==> #[trigger] id_at(s, j) != id_at(s, i)
}

/// The identity a pair stands for.
pub open spec fn pair_id(base: Seq<SeriesMean>, head: Seq<SeriesMean>, p: SeriesPair) -> (
    Seq<char>,
    Seq<char>,
    Seq<char>,
) {
    match p {
        SeriesPair::Both { base: _, head: h } => id_at(head, h as int),
        SeriesPair::HeadOnly { head: h } => id_at(head, h as int),
        SeriesPair::BaseOnly { base: b } => id_at(base, b as int),
    }
}

/// Some pair of `pairs` stands for identity `id`.
pub open spec fn covered(
    base: Seq<SeriesMean>,
    head: Seq<SeriesMean>,
    pairs: Seq<SeriesPair>,
    id: (Seq<char>, Seq<char>, Seq<char>),
) -> bool {
    exists|k: int| 0 <= k < pairs.len() && #[trigger] pair_id(base, head, pairs[k]) == id
}

/// A pair refers to last occurrences, with the right presence at each side.
pub open spec fn pair_ok(base: Seq<SeriesMean>, head: Seq<SeriesMean>, p: SeriesPair) -> bool {
    match p {
        SeriesPair::Both { base: b, head: h } => is_last(base, b as int) && is_last(head, h as int)
            && id_at(base, b as int) == id_at(head, h as int),
        SeriesPair::HeadOnly { head: h } => is_last(head, h as int) && !has_id(
            base,
            id_at(head, h as int),
        ),
        SeriesPair::BaseOnly { base: b } => is_last(base, b as int) && !has_id(
            head,
            id_at(base, b as int),
        ),
    }
}

/// Whether two keys name the same series (the branch is ignored).
pub fn same_identity(a: &SeriesKey, b: &SeriesKey) -> (r: bool)
    ensures
        r == (series_identity(*a) == series_identity(*b)),
{
    eq_str(&a.benchmark_name, &b.benchmark_name) && eq_str(&a.metric_name, &b.metric_name)
        && eq_str(&a.parameters_json, &b.parameters_json)
}

/// Whether index `i` is the last occurrence of its identity in `s`.
fn is_last_exec(s: &[SeriesMean], i: usize) -> (r: bool)
    requires
        i < s@.len(),
    ensures
        r == is_last(s@, i as int),
{
    let mut j = i;
    while j < s.len() - 1
        invariant
            i <= j < s@.len(),
            forall|k: int| i < k <= j ==> #[trigger] id_at(s@, k) != id_at(s@, i as int),
        decreases s@.len() - j,
    {
        j = j + 1;
        if same_identity(&s[j].key, &s[i].key) {
            assert(id_at(s@, j as int) == id_at(s@, i as int));
            return false;
        }
    }
    true
}

/// Every identity that occurs has a last occurrence.
proof fn lemma_last_exists(s: Seq<SeriesMean>, i: int)
    requires
        0 <= i < s.len(),
    ensures
        exists|j: int| #[trigger] is_last(s, j) && id_at(s, j) == id_at(s, i),
    decreases s.len() - i,
{
    if exists|k: int| i < k < s.len() && #[trigger] id_at(s, k) == id_at(s, i) {
        let k = choose|k: int| i < k < s.len() && #[trigger] id_at(s, k) == id_at(s, i);
        lemma_last_exists(s, k);
    } else {
        assert(is_last(s, i));
    }
}

/// Pushing a pair keeps every identity that was covered covered.
proof fn lemma_covered_push(
    base: Seq<SeriesMean>,
    head: Seq<SeriesMean>,
    pairs: Seq<SeriesPair>,
    p: SeriesPair,
    id: (Seq<char>, Seq<char>, Seq<char>),
)
    requires
        covered(base, head, pairs, id) || pair_id(base, head, p) == id,
    ensures
        covered(base, head, pairs.push(p), id),
{
    if pair_id(base, head, p) == id {
        assert(pairs.push(p)[pairs.len() as int] == p);
    } else {
        let k = choose|k: int| 0 <= k < pairs.len() && #[trigger] pair_id(base, head, pairs[k]) == id;
        assert(pairs.push(p)[k] == pairs[k]);
    }
}

/// Two last occurrences of one identity are the same index.
proof fn lemma_last_unique(s: Seq<SeriesMean>, i: int, j: int)
    requires
        is_last(s, i),
        is_last(s, j),
        id_at(s, i) == id_at(s, j),
    ensures
        i == j,
{
    if i < j {
        assert(id_at(s, j) != id_at(s, i));
    } else if j < i {
        assert(id_at(s, i) != id_at(s, j));
    }
}

/// The last index in `s` with the identity of `key`, if any.
fn find_last(s: &[SeriesMean], key: &SeriesKey) -> (r: Option<usize>)
    ensures
        r matches Some(i) ==> is_last(s@, i as int) && id_at(s@, i as int) == series_identity(*key),
        r is None ==> !has_id(s@, series_identity(*key)),
{
    let mut i = s.len();
    while i > 0
        invariant
            i <= s@.len(),
            forall|k: int| i <= k < s@.len() ==> #[trigger] id_at(s@, k) != series_identity(*key),
        decreases i,
    {
        i = i - 1;
        if same_identity(&s[i].key, key) {
            assert(is_last(s@, i as int));
            return Some(i);
        }
    }
    None
}

/// Pairs the series of `base` and `head` by identity. Each identity that
/// occurs at either commit yields exactly one pair; a duplicated identity
/// is represented by its last occurrence. Head-side pairs come first, in
/// head order, then the base-only ones in base order.
pub fn pair_series(base: &[SeriesMean], head: &[SeriesMean]) -> (pairs: Vec<SeriesPair>)
    ensures
        forall|k: int| 0 <= k < pairs@.len() ==> pair_ok(base@, head@, #[trigger] pairs@[k]),
        forall|k1: int, k2: int|
            0 <= k1 < pairs@.len() && 0 <= k2 < pairs@.len() && k1 != k2 ==> pair_id(
                base@,
                head@,
                #[trigger] pairs@[k1],
            ) != pair_id(base@, head@, #[trigger] pairs@[k2]),
        forall|i: int|
            0 <= i < base@.len() ==> #[trigger] covered(base@, head@, pairs@, id_at(base@, i)),
        forall|i: int|
            0 <= i < head@.len() ==> #[trigger] covered(base@, head@, pairs@, id_at(head@, i)),
{
    let mut pairs: Vec<SeriesPair> = Vec::new();
    let mut h: usize = 0;
    while h < head.len()
        invariant
            h <= head@.len(),
            forall|k: int| 0 <= k < pairs@.len() ==> pair_ok(base@, head@, #[trigger] pairs@[k]),
            forall|k: int|
                0 <= k < pairs@.len() ==> !(#[trigger] pairs@[k] is BaseOnly) && (match pairs@[k] {
                    SeriesPair::Both { base: _, head: x } => x < h,
                    SeriesPair::HeadOnly { head: x } => x < h,
                    SeriesPair::BaseOnly { base: _ } => false,
                }),
            forall|k1: int, k2: int|
                0 <= k1 < pairs@.len() && 0 <= k2 < pairs@.len() && k1 != k2 ==> pair_id(
                    base@,
                    head@,
                    #[trigger] pairs@[k1],
                ) != pair_id(base@, head@, #[trigger] pairs@[k2]),
            forall|i: int|
                0 <= i < h && is_last(head@, i) ==> #[trigger] covered(base@, head@, pairs@, id_at(head@, i)),
        decreases head@.len() - h,
    {
        if is_last_exec(head, h) {
            let p = match find_last(base, &head[h].key) {
                Some(b) => SeriesPair::Both { base: b, head: h },
                None => SeriesPair::HeadOnly { head: h },
            };
            proof {
                assert forall|k: int| 0 <= k < pairs@.len() implies pair_id(
                    base@,
                    head@,
                    #[trigger] pairs@[k],
                ) != id_at(head@, h as int) by {
                    let x = match pairs@[k] {
                        SeriesPair::Both { base: _, head: x } => x as int,
                        SeriesPair::HeadOnly { head: x } => x as int,
                        SeriesPair::BaseOnly { base: _ } => 0,
                    };
                    assert(is_last(head@, x));
                    if pair_id(base@, head@, pairs@[k]) == id_at(head@, h as int) {
                        lemma_last_unique(head@, x, h as int);
                    }
                }
            }
            let ghost before = pairs@;
            pairs.push(p);
            proof {
                assert forall|i: int|
                    0 <= i < h + 1 && is_last(head@, i) implies #[trigger] covered(
                    base@,
                    head@,
                    pairs@,
                    id_at(head@, i),
                ) by {
                    lemma_covered_push(base@, head@, before, p, id_at(head@, i));
                }
            }
        }
        h = h + 1;
    }
    let ghost n_head_pairs = pairs@.len();
    let mut b: usize = 0;
    while b < base.len()
        invariant
            b <= base@.len(),
            n_head_pairs <= pairs@.len(),
            forall|k: int| 0 <= k < pairs@.len() ==> pair_ok(base@, head@, #[trigger] pairs@[k]),
            forall|k: int|
                0 <= k < pairs@.len() ==> (#[trigger] pairs@[k] matches SeriesPair::BaseOnly {
                    base: x,
                } ==> x < b),
            forall|k1: int, k2: int|
                0 <= k1 < pairs@.len() && 0 <= k2 < pairs@.len() && k1 != k2 ==> pair_id(
                    base@,
                    head@,
                    #[trigger] pairs@[k1],
                ) != pair_id(base@, head@, #[trigger] pairs@[k2]),
            forall|i: int|
                0 <= i < head@.len() && is_last(head@, i) ==> #[trigger] covered(base@, head@, pairs@, id_at(head@, i)),
            forall|i: int|
                0 <= i < b && is_last(base@, i) ==> #[trigger] covered(base@, head@, pairs@, id_at(base@, i)),
        decreases base@.len() - b,
    {
        if is_last_exec(base, b) {
            match find_last(head, &base[b].key) {
                Some(hi) => {
                    // Already paired on the head side.
                    assert(is_last(head@, hi as int) && id_at(head@, hi as int) == id_at(
                        base@,
                        b as int,
                    ));
                },
                None => {
                    proof {
                        assert forall|k: int| 0 <= k < pairs@.len() implies pair_id(
                            base@,
                            head@,
                            #[trigger] pairs@[k],
                        ) != id_at(base@, b as int) by {
                            assert(pair_ok(base@, head@, pairs@[k]));
                            match pairs@[k] {
                                SeriesPair::Both { base: _, head: x } => {
                                    assert(has_id(head@, id_at(head@, x as int)));
                                },
                                SeriesPair::HeadOnly { head: x } => {
                                    assert(has_id(head@, id_at(head@, x as int)));
                                },
                                SeriesPair::BaseOnly { base: x } => {
                                    if pair_id(base@, head@, pairs@[k]) == id_at(base@, b as int) {
                                        lemma_last_unique(base@, x as int, b as int);
                                    }
                                },
                            }
                        }
                    }
                    let ghost before = pairs@;
                    let p = SeriesPair::BaseOnly { base: b };
                    pairs.push(p);
                    proof {
                        assert forall|i: int|
                            0 <= i < head@.len() && is_last(head@, i) implies #[trigger] covered(
                            base@,
                            head@,
                            pairs@,
                            id_at(head@, i),
                        ) by {
                            lemma_covered_push(base@, head@, before, p, id_at(head@, i));
                        }
                        assert forall|i: int|
                            0 <= i < b + 1 && is_last(base@, i) implies #[trigger] covered(
                            base@,
                            head@,
                            pairs@,
                            id_at(base@, i),
                        ) by {
                            lemma_covered_push(base@, head@, before, p, id_at(base@, i));
                        }
                    }
                },
            }
        }
        b = b + 1;
    }
    proof {
        assert forall|i: int| 0 <= i < head@.len() implies #[trigger] covered(base@, head@, pairs@, id_at(head@, i)) by {
            lemma_last_exists(head@, i);
            let j = choose|j: int| #[trigger] is_last(head@, j) && id_at(head@, j) == id_at(head@, i);
        }
        assert forall|i: int| 0 <= i < base@.len() implies #[trigger] covered(base@, head@, pairs@, id_at(base@, i)) by {
            lemma_last_exists(base@, i);
            let j = choose|j: int| #[trigger] is_last(base@, j) && id_at(base@, j) == id_at(base@, i);
        }
    }
    pairs
}

} // verus!
