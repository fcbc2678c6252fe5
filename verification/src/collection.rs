//! Selection from the items of a collection, by their indices.
use vstd::prelude::*;
use crate::error::Error;
use crate::interval::{diagnostic_value, index_limit, Interval};

verus! {

/// What becomes of a collection that offers nothing to select from, or that
/// does not say how many items it has.
#[derive(Clone, Copy, Debug, PartialEq, Eq, Structural)]
pub enum Policy {
    /// The selection is refused with an error.
    Strict,
    /// The selection ends without a value and without an error.
    Permissive,
}

impl Default for Policy {
    /// The strict policy.
    fn default() -> (r: Self)
        ensures
            r == Policy::Strict,
    {
        Policy::Strict
    }
}

/// What a count of items allows: `Ok` with the count where a selection can
/// go on, `Ok` without one where it ends without a value, or the reason why
/// it is refused.
///
/// A collection that declares no count is `UnknownSize`, and one of no items
/// is `NoChoices`, unless `policy` is permissive. A count above
/// `index_limit()` is `RangeTooLarge` under either policy.
pub open spec fn admission(declared: Option<usize>, policy: Policy) -> Result<
    Option<usize>,
    Error,
> {
    match declared {
        None => match policy {
            Policy::Strict => Err(Error::UnknownSize),
            Policy::Permissive => Ok(None),
        },
        Some(count) => if count > index_limit() {
            Err(Error::RangeTooLarge)
        } else if count == 0 {
            match policy {
                Policy::Strict => Err(Error::NoChoices),
                Policy::Permissive => Ok(None),
            }
        } else {
            Ok(Some(count))
        },
    }
}

/// Decides from the count that a collection declares whether a selection
/// can go on, before any of its items is taken.
pub fn validate_count(declared: Option<usize>, policy: Policy) -> (r: Result<Option<usize>, Error>)
    ensures
        r == admission(declared, policy),
{
    match declared {
        None => match policy {
            Policy::Strict => Err(Error::UnknownSize),
            Policy::Permissive => Ok(None),
        },
        Some(count) => {
            if count > isize::MAX as usize {
                Err(Error::RangeTooLarge)
            } else if count == 0 {
                match policy {
                    Policy::Strict => Err(Error::NoChoices),
                    Policy::Permissive => Ok(None),
                }
            } else {
                Ok(Some(count))
            }
        },
    }
}

/// The interval of the indices of a buffer of `len` items, from zero to the
/// last one, where `len` allows a selection.
pub fn indices(len: usize, policy: Policy) -> (r: Result<Option<Interval<usize>>, Error>)
    ensures
        match r {
            Ok(Some(interval)) => {
                &&& admission(Some(len), policy) == Ok::<Option<usize>, Error>(Some(len))
                &&& interval@ == (0int, len - 1)
            },
            Ok(None) => admission(Some(len), policy) == Ok::<Option<usize>, Error>(None),
            Err(error) => admission(Some(len), policy) == Err::<Option<usize>, Error>(error),
        },
{
    match validate_count(Some(len), policy) {
        Ok(Some(count)) => match Interval::new(0usize, count - 1) {
            Ok(interval) => Ok(Some(interval)),
            Err(error) => Err(error),
        },
        Ok(None) => Ok(None),
        Err(error) => Err(error),
    }
}

/// The item that a selected index stands for; `None` where the buffer has no
/// such index.
pub fn project<T>(items: &[T], index: usize) -> (r: Option<&T>)
    ensures
        match r {
            Some(item) => index < items@.len() && *item == items@[index as int],
            None => index >= items@.len(),
        },
{
    if index < items.len() {
        Some(&items[index])
    } else {
        None
    }
}

/// The item that a selection from `items` yields where nothing is
/// duplicated: the only item, or else the one at the midpoint of the indices.
///
/// No item is read where the buffer is empty.
pub fn random_diagnostic_in<T>(items: &[T], policy: Policy) -> (r: Result<Option<&T>, Error>)
    ensures
        match r {
            Ok(Some(item)) => {
                &&& admission(Some(items.len()), policy) == Ok::<Option<usize>, Error>(
                    Some(items.len()),
                )
                &&& *item == items@[diagnostic_value(0, items@.len() - 1)]
            },
            Ok(None) => admission(Some(items.len()), policy) == Ok::<Option<usize>, Error>(None),
            Err(error) => admission(Some(items.len()), policy) == Err::<Option<usize>, Error>(
                error,
            ),
        },
{
    match indices(items.len(), policy) {
        Ok(Some(interval)) => {
            let index = interval.diagnostic();
            Ok(project(items, index))
        },
        Ok(None) => Ok(None),
        Err(error) => Err(error),
    }
}

} // verus!
