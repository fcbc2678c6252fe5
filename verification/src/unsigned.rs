//! `Math` for the unsigned integer types.
use vstd::prelude::*;
use crate::math::Math;

verus! {

impl Math for u8 {
    open spec fn value(self) -> int {
        self as int
    }

    open spec fn lowest() -> int {
        u8::MIN as int
    }

    open spec fn highest() -> int {
        u8::MAX as int
    }

    proof fn bounded(self) {
    }

    proof fn faithful(a: Self, b: Self) {
    }

    proof fn shape() {
    }

    fn least() -> (r: Self) {
        u8::MIN
    }

    fn greatest() -> (r: Self) {
        u8::MAX
    }

    fn zero() -> (r: Self) {
        0
    }

    fn one() -> (r: Self) {
        1
    }

    fn plus(self, rhs: Self) -> (r: Self) {
        self + rhs
    }

    fn minus(self, rhs: Self) -> (r: Self) {
        self - rhs
    }

    fn halved(self) -> (r: Self) {
        self / 2
    }

    fn less_than(self, rhs: Self) -> (r: bool) {
        self < rhs
    }

    fn distance_to(self, upper: Self) -> (r: Option<usize>) {
        if upper < self {
            return None;
        }
        Some((upper - self) as usize)
    }
}

impl Math for u16 {
    open spec fn value(self) -> int {
        self as int
    }

    open spec fn lowest() -> int {
        u16::MIN as int
    }

    open spec fn highest() -> int {
        u16::MAX as int
    }

    proof fn bounded(self) {
    }

    proof fn faithful(a: Self, b: Self) {
    }

    proof fn shape() {
    }

    fn least() -> (r: Self) {
        u16::MIN
    }

    fn greatest() -> (r: Self) {
        u16::MAX
    }

    fn zero() -> (r: Self) {
        0
    }

    fn one() -> (r: Self) {
        1
    }

    fn plus(self, rhs: Self) -> (r: Self) {
        self + rhs
    }

    fn minus(self, rhs: Self) -> (r: Self) {
        self - rhs
    }

    fn halved(self) -> (r: Self) {
        self / 2
    }

    fn less_than(self, rhs: Self) -> (r: bool) {
        self < rhs
    }

    fn distance_to(self, upper: Self) -> (r: Option<usize>) {
        if upper < self {
            return None;
        }
        Some((upper - self) as usize)
    }
}

impl Math for u32 {
    open spec fn value(self) -> int {
        self as int
    }

    open spec fn lowest() -> int {
        u32::MIN as int
    }

    open spec fn highest() -> int {
        u32::MAX as int
    }

    proof fn bounded(self) {
    }

    proof fn faithful(a: Self, b: Self) {
    }

    proof fn shape() {
    }

    fn least() -> (r: Self) {
        u32::MIN
    }

    fn greatest() -> (r: Self) {
        u32::MAX
    }

    fn zero() -> (r: Self) {
        0
    }

    fn one() -> (r: Self) {
        1
    }

    fn plus(self, rhs: Self) -> (r: Self) {
        self + rhs
    }

    fn minus(self, rhs: Self) -> (r: Self) {
        self - rhs
    }

    fn halved(self) -> (r: Self) {
        self / 2
    }

    fn less_than(self, rhs: Self) -> (r: bool) {
        self < rhs
    }

    fn distance_to(self, upper: Self) -> (r: Option<usize>) {
        if upper < self {
            return None;
        }
        Some((upper - self) as usize)
    }
}

impl Math for u64 {
    open spec fn value(self) -> int {
        self as int
    }

    open spec fn lowest() -> int {
        u64::MIN as int
    }

    open spec fn highest() -> int {
        u64::MAX as int
    }

    proof fn bounded(self) {
    }

    proof fn faithful(a: Self, b: Self) {
    }

    proof fn shape() {
    }

    fn least() -> (r: Self) {
        u64::MIN
    }

    fn greatest() -> (r: Self) {
        u64::MAX
    }

    fn zero() -> (r: Self) {
        0
    }

    fn one() -> (r: Self) {
        1
    }

    fn plus(self, rhs: Self) -> (r: Self) {
        self + rhs
    }

    fn minus(self, rhs: Self) -> (r: Self) {
        self - rhs
    }

    fn halved(self) -> (r: Self) {
        self / 2
    }

    fn less_than(self, rhs: Self) -> (r: bool) {
        self < rhs
    }

    fn distance_to(self, upper: Self) -> (r: Option<usize>) {
        if upper < self {
            return None;
        }
        let distance: u64 = upper - self;
        if distance > usize::MAX as u64 {
            None
        } else {
            Some(distance as usize)
        }
    }
}

impl Math for u128 {
    open spec fn value(self) -> int {
        self as int
    }

    open spec fn lowest() -> int {
        u128::MIN as int
    }

    open spec fn highest() -> int {
        u128::MAX as int
    }

    proof fn bounded(self) {
    }

    proof fn faithful(a: Self, b: Self) {
    }

    proof fn shape() {
    }

    fn least() -> (r: Self) {
        u128::MIN
    }

    fn greatest() -> (r: Self) {
        u128::MAX
    }

    fn zero() -> (r: Self) {
        0
    }

    fn one() -> (r: Self) {
        1
    }

    fn plus(self, rhs: Self) -> (r: Self) {
        self + rhs
    }

    fn minus(self, rhs: Self) -> (r: Self) {
        self - rhs
    }

    fn halved(self) -> (r: Self) {
        self / 2
    }

    fn less_than(self, rhs: Self) -> (r: bool) {
        self < rhs
    }

    fn distance_to(self, upper: Self) -> (r: Option<usize>) {
        if upper < self {
            return None;
        }
        let distance: u128 = upper - self;
        if distance > usize::MAX as u128 {
            None
        } else {
            Some(distance as usize)
        }
    }
}

impl Math for usize {
    open spec fn value(self) -> int {
        self as int
    }

    open spec fn lowest() -> int {
        usize::MIN as int
    }

    open spec fn highest() -> int {
        usize::MAX as int
    }

    proof fn bounded(self) {
    }

    proof fn faithful(a: Self, b: Self) {
    }

    proof fn shape() {
    }

    fn least() -> (r: Self) {
        usize::MIN
    }

    fn greatest() -> (r: Self) {
        usize::MAX
    }

    fn zero() -> (r: Self) {
        0
    }

    fn one() -> (r: Self) {
        1
    }

    fn plus(self, rhs: Self) -> (r: Self) {
        self + rhs
    }

    fn minus(self, rhs: Self) -> (r: Self) {
        self - rhs
    }

    fn halved(self) -> (r: Self) {
        self / 2
    }

    fn less_than(self, rhs: Self) -> (r: bool) {
        self < rhs
    }

    fn distance_to(self, upper: Self) -> (r: Option<usize>) {
        if upper < self {
            return None;
        }
        Some(upper - self)
    }
}

} // verus!
