//! The numeric interface that selection is generic over.
use vstd::prelude::*;

verus! {

/// The quotient of `x` by two, rounded toward zero, as the division of a
/// machine integer rounds it.
pub open spec fn half(x: int) -> int {
    if x >= 0 {
        x / 2
    } else {
        -((-x) / 2)
    }
}

/// A fixed-width integer type whose values can be selected from. The
/// primitive integer types of every width implement it, signed and unsigned.
///
/// A value is modelled by the mathematical integer `value()`; the type holds
/// exactly the integers from `lowest()` to `highest()`. The operations are the
/// type's own arithmetic: they are defined where the result fits the type, and
/// a caller proves that it does.
pub trait Math: Copy + Sized {
    /// The integer that `self` stands for.
    spec fn value(self) -> int;

    /// The least integer that the type holds.
    spec fn lowest() -> int;

    /// The greatest integer that the type holds.
    spec fn highest() -> int;

    /// A value lies within the range of its type.
    proof fn bounded(self)
        ensures
            Self::lowest() <= self.value() <= Self::highest(),
    ;

    /// Two values that stand for the same integer are the same value.
    proof fn faithful(a: Self, b: Self)
        requires
            a.value() == b.value(),
        ensures
            a == b,
    ;

    /// The range is that of a machine integer: it holds zero and one, and it
    /// reaches at most one step further below zero than above it.
    proof fn shape()
        ensures
            -Self::highest() - 1 <= Self::lowest() <= 0,
            1 <= Self::highest(),
    ;

    /// The least value of the type.
    fn least() -> (r: Self)
        ensures
            r.value() == Self::lowest(),
    ;

    /// The greatest value of the type.
    fn greatest() -> (r: Self)
        ensures
            r.value() == Self::highest(),
    ;

    /// Zero: where a range starts that names no start.
    fn zero() -> (r: Self)
        ensures
            r.value() == 0,
    ;

    /// One: the step between a value and the next.
    fn one() -> (r: Self)
        ensures
            r.value() == 1,
    ;

    /// The sum of two values, where it fits the type.
    fn plus(self, rhs: Self) -> (r: Self)
        requires
            Self::lowest() <= self.value() + rhs.value() <= Self::highest(),
        ensures
            r.value() == self.value() + rhs.value(),
    ;

    /// The difference of two values, where it fits the type.
    fn minus(self, rhs: Self) -> (r: Self)
        requires
            Self::lowest() <= self.value() - rhs.value() <= Self::highest(),
        ensures
            r.value() == self.value() - rhs.value(),
    ;

    /// The value divided by two, rounded toward zero.
    fn halved(self) -> (r: Self)
        ensures
            r.value() == half(self.value()),
    ;

    /// Whether `self` is less than `rhs`.
    fn less_than(self, rhs: Self) -> (r: bool)
        ensures
            r == (self.value() < rhs.value()),
    ;

    /// How far `upper` lies above `self`; `None` where it lies below, or
    /// further above than an index can say.
    fn distance_to(self, upper: Self) -> (r: Option<usize>)
        ensures
            r is Some <==> 0 <= upper.value() - self.value() <= usize::MAX,
            r matches Some(distance) ==> distance == upper.value() - self.value(),
    ;
}

} // verus!
