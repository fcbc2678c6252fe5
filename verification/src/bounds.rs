//! Ranges as they are written, and the closed intervals they stand for.
use vstd::prelude::*;
use crate::error::Error;
use crate::interval::{closed_interval, diagnostic_value, Interval};
use crate::math::Math;

verus! {

/// One end of a range.
#[derive(Debug, PartialEq, Eq)]
pub enum Bound<T> {
    /// The range reaches this value and holds it.
    Included(T),
    /// The range reaches this value and does not hold it.
    Excluded(T),
    /// The range has no limit on this side.
    Unbounded,
}

/// The least integer of a range that starts with `start`: the value itself,
/// the next integer where the value is excluded, and zero where the range has
/// no start.
pub open spec fn lower_limit<T: Math>(start: Bound<T>) -> int {
    match start {
        Bound::Included(value) => value.value(),
        Bound::Excluded(value) => value.value() + 1,
        Bound::Unbounded => 0,
    }
}

/// The greatest integer of a range that ends with `end`: the value itself, or
/// the integer before it where the value is excluded. A range without an end
/// has none.
pub open spec fn upper_limit<T: Math>(end: Bound<T>) -> Option<int> {
    match end {
        Bound::Included(value) => Some(value.value()),
        Bound::Excluded(value) => Some(value.value() - 1),
        Bound::Unbounded => None,
    }
}

/// The two ends of the closed interval that the range from `start` to `end`
/// stands for, or the reason why it stands for none.
///
/// A missing end is found first, then an empty range, then one with more than
/// `index_limit()` candidates.
pub open spec fn resolution<T: Math>(start: Bound<T>, end: Bound<T>) -> Result<(int, int), Error> {
    match upper_limit(end) {
        None => Err(Error::NoUpperBound),
        Some(hi) => closed_interval(lower_limit(start), hi),
    }
}

/// The value after `value`, where the type has one.
fn successor<T: Math>(value: T) -> (r: Option<T>)
    ensures
        r is Some <==> value.value() < T::highest(),
        r matches Some(next) ==> next.value() == value.value() + 1,
{
    proof {
        value.bounded();
    }
    if value.less_than(T::greatest()) {
        Some(value.plus(T::one()))
    } else {
        None
    }
}

/// The value before `value`, where the type has one.
fn predecessor<T: Math>(value: T) -> (r: Option<T>)
    ensures
        r is Some <==> T::lowest() < value.value(),
        r matches Some(previous) ==> previous.value() == value.value() - 1,
{
    proof {
        value.bounded();
    }
    if T::least().less_than(value) {
        Some(value.minus(T::one()))
    } else {
        None
    }
}

/// The closed interval that the range from `start` to `end` stands for.
///
/// The limits are those of the integers: a start excluded at the greatest
/// value of the type, or an end excluded at the least, leaves an empty range.
pub fn resolve<T: Math>(start: Bound<T>, end: Bound<T>) -> (r: Result<Interval<T>, Error>)
    ensures
        match r {
            Ok(interval) => resolution(start, end) == Ok::<(int, int), Error>(interval@),
            Err(error) => resolution(start, end) == Err::<(int, int), Error>(error),
        },
{
    let last = match end {
        Bound::Included(value) => Some(value),
        Bound::Excluded(value) => predecessor(value),
        Bound::Unbounded => {
            return Err(Error::NoUpperBound);
        },
    };
    let first = match start {
        Bound::Included(value) => Some(value),
        Bound::Excluded(value) => successor(value),
        Bound::Unbounded => Some(T::zero()),
    };
    match (first, last) {
        (Some(first), Some(last)) => Interval::new(first, last),
        _ => {
            proof {
                T::shape();
                if let Some(first) = first {
                    first.bounded();
                }
                if let Some(last) = last {
                    last.bounded();
                }
            }
            Err(Error::EmptyRange)
        },
    }
}

/// The value that a selection from the range yields where nothing is
/// duplicated: the only candidate of the range, or else its midpoint.
pub fn random_diagnostic<T: Math>(start: Bound<T>, end: Bound<T>) -> (r: Result<T, Error>)
    ensures
        match r {
            Ok(value) => {
                &&& resolution(start, end) matches Ok((lo, hi))
                &&& value.value() == diagnostic_value(lo, hi)
                &&& lo <= value.value() <= hi
            },
            Err(error) => resolution(start, end) == Err::<(int, int), Error>(error),
        },
{
    match resolve(start, end) {
        Ok(interval) => Ok(interval.diagnostic()),
        Err(error) => Err(error),
    }
}

} // verus!
