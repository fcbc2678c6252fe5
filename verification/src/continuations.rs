//! What holds of the continuations that a selection leaves: which values
//! they end with, by which paths, and after how many duplications.
use vstd::prelude::*;
use vstd::arithmetic::power2::{lemma2_to64, lemma_pow2_unfold, pow2};
use vstd::relations::injective_on;
use vstd::set_lib::{lemma_int_range, lemma_map_size, set_int_range};
use crate::interval::{midpoint, narrowed, reaches, Branch};

verus! {

/// The branches that lead from the interval from `lo` to `hi` toward
/// `value`: at each duplication the parent's where `value` lies up to the
/// midpoint, the child's where it lies above.
pub open spec fn path_to(lo: int, hi: int, value: int) -> Seq<Branch>
    decreases hi - lo,
{
    let mid = midpoint(lo, hi);
    if lo <= mid < hi {
        if value <= mid {
            seq![Branch::Parent] + path_to(lo, mid, value)
        } else {
            seq![Branch::Child] + path_to(mid + 1, hi, value)
        }
    } else {
        Seq::empty()
    }
}

/// The continuations that a selection from the interval from `lo` to `hi`
/// leaves, each as the path that it took: those that end with a value.
pub open spec fn continuations(lo: int, hi: int) -> Set<Seq<Branch>> {
    Set::new(|path: Seq<Branch>| exists|value: int| reaches(lo, hi, path, value))
}

/// The candidates that some continuation ends with: all of them, but for
/// minus one and zero in an interval that holds both.
pub open spec fn selected(lo: int, hi: int) -> Set<int> {
    Set::new(|value: int| lo <= value <= hi && (0 <= lo || hi < 0 || (value != -1 && value != 0)))
}

/// Narrowing an interval of several candidates leaves each continuation at
/// least one of them, unless the interval is that of minus one and zero: its
/// midpoint is its upper end, so that nothing is left above it.
pub proof fn midpoint_splits(lo: int, hi: int)
    requires
        lo < hi,
    ensures
        lo <= midpoint(lo, hi) <= hi,
        midpoint(lo, hi) == hi <==> lo == -1 && hi == 0,
{
}

/// Where an interval does not hold both minus one and zero, neither part of
/// it holds more than half of its candidates, rounded up.
pub proof fn narrowing_halves(lo: int, hi: int, branch: Branch)
    requires
        lo < hi,
        0 <= lo || hi < 0,
    ensures
        ({
            let next = narrowed(lo, hi, branch);
            &&& lo <= next.0 <= next.1 <= hi
            &&& 2 * (next.1 - next.0 + 1) <= (hi - lo + 1) + 1
        }),
{
}

/// A continuation ends with a candidate of the interval that it began with.
pub proof fn reached_value_is_a_candidate(lo: int, hi: int, path: Seq<Branch>, value: int)
    requires
        reaches(lo, hi, path, value),
    ensures
        lo <= value <= hi,
    decreases path.len(),
{
    if path.len() > 0 {
        let next = narrowed(lo, hi, path.first());
        reached_value_is_a_candidate(next.0, next.1, path.drop_first(), value);
    }
}

/// A path ends with one value.
pub proof fn path_ends_with_one_value(lo: int, hi: int, path: Seq<Branch>, a: int, b: int)
    requires
        reaches(lo, hi, path, a),
        reaches(lo, hi, path, b),
    ensures
        a == b,
    decreases path.len(),
{
    if path.len() > 0 {
        let next = narrowed(lo, hi, path.first());
        path_ends_with_one_value(next.0, next.1, path.drop_first(), a, b);
    }
}

/// One continuation ends with a given value: two paths to it are one path.
pub proof fn value_ends_one_path(lo: int, hi: int, p: Seq<Branch>, q: Seq<Branch>, value: int)
    requires
        reaches(lo, hi, p, value),
        reaches(lo, hi, q, value),
    ensures
        p == q,
    decreases p.len(),
{
    if p.len() == 0 || q.len() == 0 {
        assert(p.len() == 0 && q.len() == 0);
        assert(p =~= q);
    } else {
        let by_p = narrowed(lo, hi, p.first());
        let by_q = narrowed(lo, hi, q.first());
        reached_value_is_a_candidate(by_p.0, by_p.1, p.drop_first(), value);
        reached_value_is_a_candidate(by_q.0, by_q.1, q.drop_first(), value);
        assert(p.first() == q.first());
        value_ends_one_path(by_p.0, by_p.1, p.drop_first(), q.drop_first(), value);
        assert(p =~= seq![p.first()] + p.drop_first());
        assert(q =~= seq![q.first()] + q.drop_first());
    }
}

/// Every candidate is the value that a continuation ends with: the one that
/// takes the path toward it. The exceptions are minus one and zero in an
/// interval that holds both.
pub proof fn candidate_is_reached(lo: int, hi: int, value: int)
    requires
        lo <= value <= hi,
        0 <= lo || hi < 0 || (value != -1 && value != 0),
    ensures
        reaches(lo, hi, path_to(lo, hi, value), value),
    decreases hi - lo,
{
    if lo < hi {
        midpoint_splits(lo, hi);
        let branch = if value <= midpoint(lo, hi) {
            Branch::Parent
        } else {
            Branch::Child
        };
        let next = narrowed(lo, hi, branch);
        candidate_is_reached(next.0, next.1, value);
        let path = path_to(lo, hi, value);
        assert(path == seq![branch] + path_to(next.0, next.1, value));
        assert(path.first() == branch);
        assert(path.drop_first() =~= path_to(next.0, next.1, value));
    }
}

/// In an interval that holds both minus one and zero, no continuation ends
/// with either: each narrowing leaves the two together.
pub proof fn zero_crossing_is_not_selected(lo: int, hi: int, path: Seq<Branch>, value: int)
    requires
        lo <= -1,
        0 <= hi,
        reaches(lo, hi, path, value),
    ensures
        value != -1,
        value != 0,
    decreases path.len(),
{
    if path.len() > 0 {
        let next = narrowed(lo, hi, path.first());
        if next.0 <= -1 && 0 <= next.1 {
            zero_crossing_is_not_selected(next.0, next.1, path.drop_first(), value);
        } else {
            reached_value_is_a_candidate(next.0, next.1, path.drop_first(), value);
        }
    }
}

/// A selection leaves one continuation for each candidate that it selects:
/// the continuations are the paths toward those candidates, each once.
pub proof fn continuations_are_the_paths_to_candidates(lo: int, hi: int)
    requires
        lo <= hi,
    ensures
        injective_on(|value: int| path_to(lo, hi, value), selected(lo, hi)),
        continuations(lo, hi) == selected(lo, hi).map(|value: int| path_to(lo, hi, value)),
{
    let candidates = selected(lo, hi);
    let toward = |value: int| path_to(lo, hi, value);
    assert forall|a: int, b: int|
        candidates.contains(a) && candidates.contains(b) && #[trigger] toward(a)
            == #[trigger] toward(b) implies a == b by {
        candidate_is_reached(lo, hi, a);
        candidate_is_reached(lo, hi, b);
        path_ends_with_one_value(lo, hi, toward(a), a, b);
    }
    assert forall|path: Seq<Branch>| candidates.map(toward).contains(path) implies continuations(
        lo,
        hi,
    ).contains(path) by {
        let value = choose|value: int| candidates.contains(value) && path == toward(value);
        candidate_is_reached(lo, hi, value);
    }
    assert forall|path: Seq<Branch>| continuations(lo, hi).contains(path) implies candidates.map(
        toward,
    ).contains(path) by {
        let value = choose|value: int| reaches(lo, hi, path, value);
        reached_value_is_a_candidate(lo, hi, path, value);
        if lo <= -1 && 0 <= hi {
            zero_crossing_is_not_selected(lo, hi, path, value);
        }
        candidate_is_reached(lo, hi, value);
        value_ends_one_path(lo, hi, path, toward(value), value);
        assert(candidates.contains(value) && path == toward(value));
    }
    assert(candidates.map(toward) =~= continuations(lo, hi));
}

/// A selection leaves as many continuations as the interval has candidates,
/// unless the interval holds both minus one and zero: then it leaves two
/// fewer.
pub proof fn continuations_are_as_many_as_candidates(lo: int, hi: int)
    requires
        lo <= hi,
    ensures
        continuations(lo, hi).finite(),
        continuations(lo, hi).len() == if lo <= -1 && 0 <= hi {
            hi - lo - 1
        } else {
            hi - lo + 1
        },
{
    let all = set_int_range(lo, hi + 1);
    lemma_int_range(lo, hi + 1);
    if lo <= -1 && 0 <= hi {
        assert(selected(lo, hi) =~= all.remove(-1).remove(0));
    } else {
        assert(selected(lo, hi) =~= all);
    }
    continuations_are_the_paths_to_candidates(lo, hi);
    lemma_map_size(selected(lo, hi), continuations(lo, hi), |value: int| path_to(lo, hi, value));
}

/// A continuation duplicates no more often than the candidates can be
/// halved: after `n` duplications, with `n` at least one, the interval it
/// began with held more than `pow2(n - 1)` candidates.
pub proof fn duplications_are_logarithmic(lo: int, hi: int, path: Seq<Branch>, value: int)
    requires
        0 <= lo || hi < 0,
        reaches(lo, hi, path, value),
        path.len() > 0,
    ensures
        pow2((path.len() - 1) as nat) < hi - lo + 1,
    decreases path.len(),
{
    let next = narrowed(lo, hi, path.first());
    let rest = path.drop_first();
    narrowing_halves(lo, hi, path.first());
    if rest.len() == 0 {
        assert(pow2(0) == 1) by {
            lemma2_to64();
        }
    } else {
        duplications_are_logarithmic(next.0, next.1, rest, value);
        lemma_pow2_unfold((path.len() - 1) as nat);
    }
}

} // verus!
