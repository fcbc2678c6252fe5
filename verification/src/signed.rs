//! `Math` for the signed integer types.
use vstd::prelude::*;
use crate::math::Math;

verus! {

impl Math for i8 {
    open spec fn value(self) -> int {
        self as int
    }

    open spec fn lowest() -> int {
        i8::MIN as int
    }

    open spec fn highest() -> int {
        i8::MAX as int
    }

    proof fn bounded(self) {
    }

    proof fn faithful(a: Self, b: Self) {
    }

    proof fn shape() {
    }

    fn least() -> (r: Self) {
        i8::MIN
    }

    fn greatest() -> (r: Self) {
        i8::MAX
    }

    fn zero() -> (r: Self) {
        0
    }

    fn one() -> (r: Self) {
        1
    }

    fn plus(self, rhs: Self) -> (r: Self) {
        self + rhs
    }

    fn minus(self, rhs: Self) -> (r: Self) {
        self - rhs
    }

    fn halved(self) -> (r: Self) {
        self / 2
    }

    fn less_than(self, rhs: Self) -> (r: bool) {
        self < rhs
    }

    fn distance_to(self, upper: Self) -> (r: Option<usize>) {
        if upper < self {
            return None;
        }
        Some(((upper as i64) - (self as i64)) as usize)
    }
}

impl Math for i16 {
    open spec fn value(self) -> int {
        self as int
    }

    open spec fn lowest() -> int {
        i16::MIN as int
    }

    open spec fn highest() -> int {
        i16::MAX as int
    }

    proof fn bounded(self) {
    }

    proof fn faithful(a: Self, b: Self) {
    }

    proof fn shape() {
    }

    fn least() -> (r: Self) {
        i16::MIN
    }

    fn greatest() -> (r: Self) {
        i16::MAX
    }

    fn zero() -> (r: Self) {
        0
    }

    fn one() -> (r: Self) {
        1
    }

    fn plus(self, rhs: Self) -> (r: Self) {
        self + rhs
    }

    fn minus(self, rhs: Self) -> (r: Self) {
        self - rhs
    }

    fn halved(self) -> (r: Self) {
        self / 2
    }

    fn less_than(self, rhs: Self) -> (r: bool) {
        self < rhs
    }

    fn distance_to(self, upper: Self) -> (r: Option<usize>) {
        if upper < self {
            return None;
        }
        Some(((upper as i64) - (self as i64)) as usize)
    }
}

impl Math for i32 {
    open spec fn value(self) -> int {
        self as int
    }

    open spec fn lowest() -> int {
        i32::MIN as int
    }

    open spec fn highest() -> int {
        i32::MAX as int
    }

    proof fn bounded(self) {
    }

    proof fn faithful(a: Self, b: Self) {
    }

    proof fn shape() {
    }

    fn least() -> (r: Self) {
        i32::MIN
    }

    fn greatest() -> (r: Self) {
        i32::MAX
    }

    fn zero() -> (r: Self) {
        0
    }

    fn one() -> (r: Self) {
        1
    }

    fn plus(self, rhs: Self) -> (r: Self) {
        self + rhs
    }

    fn minus(self, rhs: Self) -> (r: Self) {
        self - rhs
    }

    fn halved(self) -> (r: Self) {
        self / 2
    }

    fn less_than(self, rhs: Self) -> (r: bool) {
        self < rhs
    }

    fn distance_to(self, upper: Self) -> (r: Option<usize>) {
        if upper < self {
            return None;
        }
        Some(((upper as i64) - (self as i64)) as usize)
    }
}

impl Math for i64 {
    open spec fn value(self) -> int {
        self as int
    }

    open spec fn lowest() -> int {
        i64::MIN as int
    }

    open spec fn highest() -> int {
        i64::MAX as int
    }

    proof fn bounded(self) {
    }

    proof fn faithful(a: Self, b: Self) {
    }

    proof fn shape() {
    }

    fn least() -> (r: Self) {
        i64::MIN
    }

    fn greatest() -> (r: Self) {
        i64::MAX
    }

    fn zero() -> (r: Self) {
        0
    }

    fn one() -> (r: Self) {
        1
    }

    fn plus(self, rhs: Self) -> (r: Self) {
        self + rhs
    }

    fn minus(self, rhs: Self) -> (r: Self) {
        self - rhs
    }

    fn halved(self) -> (r: Self) {
        self / 2
    }

    fn less_than(self, rhs: Self) -> (r: bool) {
        self < rhs
    }

    fn distance_to(self, upper: Self) -> (r: Option<usize>) {
        if upper < self {
            return None;
        }
        let distance: i128 = (upper as i128) - (self as i128);
        if distance > usize::MAX as i128 {
            None
        } else {
            Some(distance as usize)
        }
    }
}

impl Math for i128 {
    open spec fn value(self) -> int {
        self as int
    }

    open spec fn lowest() -> int {
        i128::MIN as int
    }

    open spec fn highest() -> int {
        i128::MAX as int
    }

    proof fn bounded(self) {
    }

    proof fn faithful(a: Self, b: Self) {
    }

    proof fn shape() {
    }

    fn least() -> (r: Self) {
        i128::MIN
    }

    fn greatest() -> (r: Self) {
        i128::MAX
    }

    fn zero() -> (r: Self) {
        0
    }

    fn one() -> (r: Self) {
        1
    }

    fn plus(self, rhs: Self) -> (r: Self) {
        self + rhs
    }

    fn minus(self, rhs: Self) -> (r: Self) {
        self - rhs
    }

    fn halved(self) -> (r: Self) {
        self / 2
    }

    fn less_than(self, rhs: Self) -> (r: bool) {
        self < rhs
    }

    fn distance_to(self, upper: Self) -> (r: Option<usize>) {
        if upper < self {
            return None;
        }
        let distance: u128 = if self >= 0 || upper < 0 {
            (upper - self) as u128
        } else {
            // `self` is negative and `upper` is not: the distance is the sum of
            // how far each lies from zero, which may exceed `i128::MAX`.
            let below: u128 = (-(self + 1)) as u128;
            (upper as u128) + below + 1
        };
        if distance > usize::MAX as u128 {
            None
        } else {
            Some(distance as usize)
        }
    }
}

impl Math for isize {
    open spec fn value(self) -> int {
        self as int
    }

    open spec fn lowest() -> int {
        isize::MIN as int
    }

    open spec fn highest() -> int {
        isize::MAX as int
    }

    proof fn bounded(self) {
    }

    proof fn faithful(a: Self, b: Self) {
    }

    proof fn shape() {
    }

    fn least() -> (r: Self) {
        isize::MIN
    }

    fn greatest() -> (r: Self) {
        isize::MAX
    }

    fn zero() -> (r: Self) {
        0
    }

    fn one() -> (r: Self) {
        1
    }

    fn plus(self, rhs: Self) -> (r: Self) {
        self + rhs
    }

    fn minus(self, rhs: Self) -> (r: Self) {
        self - rhs
    }

    fn halved(self) -> (r: Self) {
        self / 2
    }

    fn less_than(self, rhs: Self) -> (r: bool) {
        self < rhs
    }

    fn distance_to(self, upper: Self) -> (r: Option<usize>) {
        if upper < self {
            return None;
        }
        let distance: i128 = (upper as i128) - (self as i128);
        if distance > usize::MAX as i128 {
            None
        } else {
            Some(distance as usize)
        }
    }
}

} // verus!
