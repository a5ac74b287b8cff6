//! The numeric contract shared by balances, nonces and block numbers: an
//! additive identity, a unit value, and checked addition and subtraction
//! that report range overflow instead of wrapping.

use vstd::prelude::*;

verus! {

/// A chain-safe integer: a copyable value ranging over `0 ..= max_int()`,
/// with a zero, a one, and checked addition and subtraction.
///
/// Both state modules are generic over this trait, so any unsigned width
/// can serve as a balance, nonce or block-number type without duplicating
/// the overflow logic.
pub trait Numeric: Sized + Copy {
    /// The mathematical value this number stands for.
    spec fn as_int(self) -> int;

    /// The largest value the type can hold.
    spec fn max_int() -> int;

    /// Every value lies within the type's range.
    proof fn lemma_in_range(self)
        ensures
            0 <= self.as_int() <= Self::max_int(),
    ;

    /// The additive identity.
    fn zero() -> (r: Self)
        ensures
            r.as_int() == 0,
    ;

    /// The unit by which counters advance.
    fn one() -> (r: Self)
        ensures
            r.as_int() == 1,
    ;

    /// Addition that reports overflow instead of wrapping.
    fn checked_add(self, rhs: Self) -> (r: Option<Self>)
        ensures
            match r {
                Some(v) => v.as_int() == self.as_int() + rhs.as_int() && self.as_int()
                    + rhs.as_int() <= Self::max_int(),
                None => self.as_int() + rhs.as_int() > Self::max_int(),
            },
    ;

    /// Subtraction that reports underflow instead of wrapping.
    fn checked_sub(self, rhs: Self) -> (r: Option<Self>)
        ensures
            match r {
                Some(v) => v.as_int() == self.as_int() - rhs.as_int() && rhs.as_int()
                    <= self.as_int(),
                None => rhs.as_int() > self.as_int(),
            },
    ;
}

impl Numeric for u8 {
    open spec fn as_int(self) -> int {
        self as int
    }

    open spec fn max_int() -> int {
        u8::MAX as int
    }

    proof fn lemma_in_range(self) {
    }

    fn zero() -> (r: Self) {
        0
    }

    fn one() -> (r: Self) {
        1
    }

    fn checked_add(self, rhs: Self) -> (r: Option<Self>) {
        u8::checked_add(self, rhs)
    }

    fn checked_sub(self, rhs: Self) -> (r: Option<Self>) {
        u8::checked_sub(self, rhs)
    }
}

impl Numeric for u32 {
    open spec fn as_int(self) -> int {
        self as int
    }

    open spec fn max_int() -> int {
        u32::MAX as int
    }

    proof fn lemma_in_range(self) {
    }

    fn zero() -> (r: Self) {
        0
    }

    fn one() -> (r: Self) {
        1
    }

    fn checked_add(self, rhs: Self) -> (r: Option<Self>) {
        u32::checked_add(self, rhs)
    }

    fn checked_sub(self, rhs: Self) -> (r: Option<Self>) {
        u32::checked_sub(self, rhs)
    }
}

impl Numeric for u64 {
    open spec fn as_int(self) -> int {
        self as int
    }

    open spec fn max_int() -> int {
        u64::MAX as int
    }

    proof fn lemma_in_range(self) {
    }

    fn zero() -> (r: Self) {
        0
    }

    fn one() -> (r: Self) {
        1
    }

    fn checked_add(self, rhs: Self) -> (r: Option<Self>) {
        u64::checked_add(self, rhs)
    }

    fn checked_sub(self, rhs: Self) -> (r: Option<Self>) {
        u64::checked_sub(self, rhs)
    }
}

impl Numeric for u128 {
    open spec fn as_int(self) -> int {
        self as int
    }

    open spec fn max_int() -> int {
        u128::MAX as int
    }

    proof fn lemma_in_range(self) {
    }

    fn zero() -> (r: Self) {
        0
    }

    fn one() -> (r: Self) {
        1
    }

    fn checked_add(self, rhs: Self) -> (r: Option<Self>) {
        u128::checked_add(self, rhs)
    }

    fn checked_sub(self, rhs: Self) -> (r: Option<Self>) {
        u128::checked_sub(self, rhs)
    }
}

} // verus!
