//! Closed intervals of candidates, and the rule that bisects them.
use vstd::prelude::*;
use crate::error::Error;
use crate::math::{half, Math};

verus! {

/// The greatest number of candidates that a selection accepts: the greatest
/// signed index of the platform.
pub open spec fn index_limit() -> int {
    isize::MAX as int
}

/// The point at which the interval from `lo` to `hi` is split: the sum of the
/// two ends, halved toward zero, and moved one step down where that is
/// negative.
pub open spec fn midpoint(lo: int, hi: int) -> int {
    let toward_zero = half(lo + hi);
    if toward_zero < 0 {
        toward_zero - 1
    } else {
        toward_zero
    }
}

/// What an interval yields where nothing is duplicated: its only candidate,
/// or else its midpoint.
pub open spec fn diagnostic_value(lo: int, hi: int) -> int {
    if lo == hi {
        lo
    } else {
        midpoint(lo, hi)
    }
}

/// The two ends of the closed interval from `lo` to `hi`, or the reason why
/// there is no such interval of candidates: `EmptyRange` where `lo` lies above
/// `hi`, `RangeTooLarge` where it would hold more than `index_limit()` of
/// them.
pub open spec fn closed_interval(lo: int, hi: int) -> Result<(int, int), Error> {
    if lo > hi {
        Err(Error::EmptyRange)
    } else if hi - lo >= index_limit() {
        Err(Error::RangeTooLarge)
    } else {
        Ok((lo, hi))
    }
}

/// Which of the two continuations that a duplication leaves is this one.
#[derive(Clone, Copy, Debug, PartialEq, Eq, Structural)]
pub enum Branch {
    /// The new continuation: it goes on above the midpoint.
    Child,
    /// The continuation that was duplicated: it goes on up to the midpoint.
    Parent,
}

impl Branch {
    /// The continuation that a duplication's return value identifies: zero is
    /// the child, any other value the parent.
    pub fn from_return(code: i32) -> (r: Branch)
        ensures
            r == if code == 0 {
                Branch::Child
            } else {
                Branch::Parent
            },
    {
        if code == 0 {
            Branch::Child
        } else {
            Branch::Parent
        }
    }
}

/// The two ends of the part of the interval from `lo` to `hi` that `branch`
/// goes on with. The first lies above the second where that part is empty.
pub open spec fn narrowed(lo: int, hi: int, branch: Branch) -> (int, int) {
    match branch {
        Branch::Child => (midpoint(lo, hi) + 1, hi),
        Branch::Parent => (lo, midpoint(lo, hi)),
    }
}

/// Whether the continuation that takes the branches of `path`, one at each
/// duplication, gets from the interval from `lo` to `hi` to the single
/// candidate `value`, and has then used up the path.
pub open spec fn reaches(lo: int, hi: int, path: Seq<Branch>, value: int) -> bool
    decreases path.len(),
{
    if path.len() == 0 {
        lo == hi && value == lo
    } else {
        let next = narrowed(lo, hi, path.first());
        &&& lo < hi
        &&& next.0 <= next.1
        &&& reaches(next.0, next.1, path.drop_first(), value)
    }
}

/// What a continuation does next.
#[derive(Debug, PartialEq, Eq)]
pub enum Action<T> {
    /// One candidate is left: it is the selected value.
    Finish(T),
    /// Several candidates are left: duplicate, then narrow by the branch.
    Duplicate,
}

/// A closed interval of candidates. Its view is the pair of its two ends,
/// `lo()` and `hi()`, both of which it holds.
///
/// An interval is never empty and never holds more than `index_limit()`
/// candidates.
#[derive(Debug)]
pub struct Interval<T: Math> {
    start: T,
    end: T,
}

impl<T: Math> View for Interval<T> {
    type V = (int, int);

    closed spec fn view(&self) -> (int, int) {
        (self.start.value(), self.end.value())
    }
}

impl<T: Math> Interval<T> {
    /// What holds of every interval.
    #[verifier::type_invariant]
    pub open spec fn well_formed(self) -> bool {
        &&& self.lo() <= self.hi()
        &&& self.hi() - self.lo() < index_limit()
    }

    /// The least candidate.
    pub open spec fn lo(self) -> int {
        self@.0
    }

    /// The greatest candidate.
    pub open spec fn hi(self) -> int {
        self@.1
    }

    /// The interval from `start` to `end`.
    ///
    /// Refused with `EmptyRange` where `start` lies above `end`, and with
    /// `RangeTooLarge` where the interval would hold more than
    /// `index_limit()` candidates.
    pub fn new(start: T, end: T) -> (r: Result<Self, Error>)
        ensures
            match r {
                Ok(interval) => closed_interval(start.value(), end.value()) == Ok::<
                    (int, int),
                    Error,
                >(interval@),
                Err(error) => closed_interval(start.value(), end.value()) == Err::<
                    (int, int),
                    Error,
                >(error),
            },
    {
        if end.less_than(start) {
            return Err(Error::EmptyRange);
        }
        match start.distance_to(end) {
            Some(distance) if distance < isize::MAX as usize => Ok(Interval { start, end }),
            _ => Err(Error::RangeTooLarge),
        }
    }

    /// The least candidate.
    pub fn start(&self) -> (r: T)
        ensures
            r.value() == self.lo(),
    {
        self.start
    }

    /// The greatest candidate.
    pub fn end(&self) -> (r: T)
        ensures
            r.value() == self.hi(),
    {
        self.end
    }

    /// The number of candidates.
    pub fn len(&self) -> (r: usize)
        ensures
            r == self.hi() - self.lo() + 1,
            1 <= r <= index_limit(),
    {
        proof {
            use_type_invariant(self);
        }
        match self.start.distance_to(self.end) {
            Some(distance) => distance + 1,
            None => unreached(),
        }
    }

    /// Whether one candidate is left.
    pub fn is_terminal(&self) -> (r: bool)
        ensures
            r == (self.lo() == self.hi()),
    {
        proof {
            use_type_invariant(self);
        }
        !self.start.less_than(self.end)
    }

    /// The midpoint of an interval of several candidates, computed within the
    /// type: no intermediate result leaves its range.
    fn split_point(&self) -> (r: T)
        requires
            self.lo() < self.hi(),
        ensures
            r.value() == midpoint(self.lo(), self.hi()),
            self.lo() <= r.value() <= self.hi(),
    {
        proof {
            use_type_invariant(self);
            T::shape();
            self.start.bounded();
            self.end.bounded();
        }
        let zero = T::zero();
        let one = T::one();
        if !self.start.less_than(zero) {
            let width = self.end.minus(self.start);
            self.start.plus(width.halved())
        } else if self.end.less_than(zero) {
            let width = self.end.minus(self.start);
            self.end.minus(width.halved()).minus(one)
        } else {
            let toward_zero = self.start.plus(self.end).halved();
            if toward_zero.less_than(zero) {
                toward_zero.minus(one)
            } else {
                toward_zero
            }
        }
    }

    /// The value that the interval yields where nothing is duplicated: its
    /// only candidate, or else its midpoint.
    pub fn diagnostic(&self) -> (r: T)
        ensures
            r.value() == diagnostic_value(self.lo(), self.hi()),
            self.lo() <= r.value() <= self.hi(),
    {
        proof {
            use_type_invariant(self);
        }
        if self.start.less_than(self.end) {
            self.split_point()
        } else {
            self.start
        }
    }

    /// What the continuation that holds this interval does next.
    pub fn action(&self) -> (r: Action<T>)
        ensures
            match r {
                Action::Finish(value) => self.lo() == self.hi() && value.value() == self.lo(),
                Action::Duplicate => self.lo() < self.hi(),
            },
    {
        proof {
            use_type_invariant(self);
        }
        if self.start.less_than(self.end) {
            Action::Duplicate
        } else {
            Action::Finish(self.start)
        }
    }

    /// The interval that `branch` goes on with after a duplication: above the
    /// midpoint for the child, up to the midpoint for the parent.
    ///
    /// `None` where nothing is left to narrow, because one candidate is left,
    /// or where the part that falls to `branch` is empty.
    pub fn narrow(&self, branch: Branch) -> (r: Option<Self>)
        ensures
            r is Some <==> self.lo() < self.hi() && narrowed(self.lo(), self.hi(), branch).0
                <= narrowed(self.lo(), self.hi(), branch).1,
            r matches Some(next) ==> next@ == narrowed(self.lo(), self.hi(), branch),
    {
        proof {
            use_type_invariant(self);
            T::shape();
            self.start.bounded();
            self.end.bounded();
        }
        if !self.start.less_than(self.end) {
            return None;
        }
        let mid = self.split_point();
        match branch {
            Branch::Child => {
                if mid.less_than(self.end) {
                    Some(Interval { start: mid.plus(T::one()), end: self.end })
                } else {
                    None
                }
            },
            Branch::Parent => Some(Interval { start: self.start, end: mid }),
        }
    }

    /// The value that the selection yields to the continuation which finds
    /// itself, after each duplication in turn, on the branch that `path`
    /// names. Nothing is duplicated.
    ///
    /// `None` where there is no such continuation: the path ends while
    /// several candidates are left, or goes on where one is left, or none.
    pub fn replay(&self, path: &[Branch]) -> (r: Option<T>)
        ensures
            match r {
                Some(value) => reaches(self.lo(), self.hi(), path@, value.value()),
                None => forall|value: int| !reaches(self.lo(), self.hi(), path@, value),
            },
    {
        proof {
            use_type_invariant(self);
        }
        let mut current = Interval { start: self.start, end: self.end };
        let mut taken: usize = 0;
        assert(path@.skip(0) == path@);
        while taken < path.len()
            invariant
                taken <= path@.len(),
                forall|value: int|
                    reaches(self.lo(), self.hi(), path@, value) == reaches(
                        current.lo(),
                        current.hi(),
                        path@.skip(taken as int),
                        value,
                    ),
            decreases path@.len() - taken,
        {
            let ghost rest = path@.skip(taken as int);
            assert(rest.first() == path@[taken as int]);
            assert(rest.drop_first() == path@.skip(taken + 1));
            match current.narrow(path[taken]) {
                Some(next) => {
                    current = next;
                },
                None => {
                    return None;
                },
            }
            taken = taken + 1;
        }
        assert(path@.skip(taken as int).len() == 0);
        if current.is_terminal() {
            Some(current.start)
        } else {
            None
        }
    }
}

} // verus!
