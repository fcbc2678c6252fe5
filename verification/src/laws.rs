//! What holds of every range and of every collection.
use vstd::prelude::*;
use crate::bounds::{lower_limit, resolution, upper_limit, Bound};
use crate::collection::{admission, Policy};
use crate::error::Error;
use crate::interval::{diagnostic_value, index_limit, midpoint};
use crate::math::Math;

verus! {

/// The midpoint is the sum of the two ends halved and rounded down, but for
/// two cases that the rounding toward zero leaves: it is one more where the
/// sum is minus one, and one less where the sum is negative and even.
pub proof fn midpoint_against_rounding_down(lo: int, hi: int)
    ensures
        midpoint(lo, hi) == if lo + hi == -1 {
            (lo + hi) / 2 + 1
        } else if lo + hi < 0 && (lo + hi) % 2 == 0 {
            (lo + hi) / 2 - 1
        } else {
            (lo + hi) / 2
        },
{
}

/// The midpoint of an interval of several candidates is one of them.
pub proof fn midpoint_is_a_candidate(lo: int, hi: int)
    requires
        lo < hi,
    ensures
        lo <= midpoint(lo, hi) <= hi,
{
}

/// Where nothing is duplicated, an interval yields one of its candidates.
pub proof fn diagnostic_value_is_a_candidate(lo: int, hi: int)
    requires
        lo <= hi,
    ensures
        lo <= diagnostic_value(lo, hi) <= hi,
{
}

/// Where nothing is duplicated, an interval yields its midpoint. The one
/// exception is an interval of a single negative candidate, whose midpoint
/// lies one below it: such an interval yields its candidate.
pub proof fn diagnostic_value_is_the_midpoint(lo: int, hi: int)
    requires
        lo <= hi,
        lo < hi || 0 <= lo,
    ensures
        diagnostic_value(lo, hi) == midpoint(lo, hi),
{
}

/// A range whose start lies above its end is refused as empty.
pub proof fn inverted_range_is_empty<T: Math>(start: Bound<T>, end: Bound<T>)
    requires
        upper_limit(end) is Some,
        lower_limit(start) > upper_limit(end).unwrap(),
    ensures
        resolution(start, end) == Err::<(int, int), Error>(Error::EmptyRange),
{
}

/// A range without an end is refused for that, whatever its start.
pub proof fn range_without_end_is_refused<T: Math>(start: Bound<T>)
    ensures
        resolution(start, Bound::<T>::Unbounded) == Err::<(int, int), Error>(Error::NoUpperBound),
{
}

/// A range that ends before `end` is the range that ends with the value
/// before `end`.
pub proof fn excluded_end_is_included_before<T: Math>(start: Bound<T>, end: T, before: T)
    requires
        before.value() == end.value() - 1,
    ensures
        resolution(start, Bound::Excluded(end)) == resolution(start, Bound::Included(before)),
{
}

/// A range that starts after `start` is the range that starts with the value
/// after `start`.
pub proof fn excluded_start_is_included_after<T: Math>(start: T, after: T, end: Bound<T>)
    requires
        after.value() == start.value() + 1,
    ensures
        resolution(Bound::Excluded(start), end) == resolution(Bound::Included(after), end),
{
}

/// The range of all values of a type is accepted where the platform has an
/// index for each of them, and refused as too large where it has not.
pub proof fn whole_type<T: Math>(least: T, greatest: T)
    requires
        least.value() == T::lowest(),
        greatest.value() == T::highest(),
    ensures
        resolution(Bound::Included(least), Bound::Included(greatest)) == if T::highest()
            - T::lowest() < index_limit() {
            Ok::<(int, int), Error>((T::lowest(), T::highest()))
        } else {
            Err::<(int, int), Error>(Error::RangeTooLarge)
        },
{
    T::shape();
}

/// A collection of no items is refused for that, or ends the selection
/// without a value where the policy is permissive.
pub proof fn empty_collection_offers_nothing(policy: Policy)
    ensures
        admission(Some(0usize), policy) == match policy {
            Policy::Strict => Err::<Option<usize>, Error>(Error::NoChoices),
            Policy::Permissive => Ok::<Option<usize>, Error>(None),
        },
{
}

/// A collection that declares more items than the platform has indices is
/// refused as too large, under either policy.
pub proof fn oversized_collection_is_refused(count: usize, policy: Policy)
    requires
        count > index_limit(),
    ensures
        admission(Some(count), policy) == Err::<Option<usize>, Error>(Error::RangeTooLarge),
{
}

} // verus!
