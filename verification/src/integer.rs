//! The mathematical model of a fixed-width integer type, and the checked
//! operations that a [`crate::Checker`] is built on.
use vstd::prelude::*;
use vstd::std_specs::cmp::PartialEqSpec;

verus! {

/// The quotient of `x` by `d` rounded toward zero, for `d != 0`.
pub open spec fn quotient(x: int, d: int) -> int {
    let magnitude = (if x < 0 { -x } else { x }) / (if d < 0 { -d } else { d });
    if (x < 0) == (d < 0) {
        magnitude
    } else {
        -magnitude
    }
}

/// Between a non-negative `x` and a positive `d`, the quotient rounded toward
/// zero is the quotient rounded down, and lies between zero and `x`.
pub proof fn lemma_quotient_of_naturals(x: int, d: int)
    requires
        0 <= x,
        0 < d,
    ensures
        quotient(x, d) == x / d,
        0 <= x / d <= x,
{
    vstd::arithmetic::div_mod::lemma_div_pos_is_pos(x, d);
    vstd::arithmetic::div_mod::lemma_div_is_ordered_by_denominator(x, 1, d);
}

/// A fixed-width integer type, seen as the integers that it holds.
///
/// Each value stands for one mathematical integer between `lowest()` and
/// `highest()`, and each integer in that range for one value.
pub trait Integer: Copy + PartialEq {
    /// The integer that `self` stands for.
    spec fn as_int(self) -> int;

    /// The value that stands for `i`, for `i` within the type's range.
    spec fn from_int(i: int) -> Self;

    /// The least integer that the type holds.
    spec fn lowest() -> int;

    /// The greatest integer that the type holds.
    spec fn highest() -> int;

    /// Every value lies within the range and is found again from its integer.
    proof fn lemma_as_int(self)
        ensures
            Self::lowest() <= self.as_int() <= Self::highest(),
            Self::from_int(self.as_int()) == self,
    ;

    /// Every integer within the range is the integer of its value.
    proof fn lemma_from_int(i: int)
        requires
            Self::lowest() <= i <= Self::highest(),
        ensures
            Self::from_int(i).as_int() == i,
    ;

    /// `==` on the type is equality of values.
    proof fn lemma_eq(a: Self, b: Self)
        ensures
            Self::obeys_eq_spec(),
            a.eq_spec(&b) <==> a == b,
    ;
}

/// Whether a value of `T` can hold `i`.
pub open spec fn fits<T: Integer>(i: int) -> bool {
    T::lowest() <= i <= T::highest()
}

/// The value of `T` that holds the exact result `exact`, if there is one.
pub open spec fn checked<T: Integer>(exact: int) -> Option<T> {
    if fits::<T>(exact) {
        Some(T::from_int(exact))
    } else {
        None
    }
}

/// The value of `T` that holds `x / d` rounded toward zero, if `d` is not
/// zero and there is one.
pub open spec fn checked_quotient<T: Integer>(x: int, d: int) -> Option<T> {
    if d == 0 {
        None
    } else {
        checked::<T>(quotient(x, d))
    }
}

/// Addition that gives `None` in place of a sum that the type cannot hold.
pub trait CheckedAdd: Integer {
    /// `self + v`, or `None` where the sum is out of range.
    fn checked_add(&self, v: &Self) -> (r: Option<Self>)
        ensures
            r == checked::<Self>(self.as_int() + v.as_int()),
    ;
}

/// Subtraction that gives `None` in place of a difference that the type
/// cannot hold.
pub trait CheckedSub: Integer {
    /// `self - v`, or `None` where the difference is out of range.
    fn checked_sub(&self, v: &Self) -> (r: Option<Self>)
        ensures
            r == checked::<Self>(self.as_int() - v.as_int()),
    ;
}

/// Multiplication that gives `None` in place of a product that the type
/// cannot hold.
pub trait CheckedMul: Integer {
    /// `self * v`, or `None` where the product is out of range.
    fn checked_mul(&self, v: &Self) -> (r: Option<Self>)
        ensures
            r == checked::<Self>(self.as_int() * v.as_int()),
    ;
}

/// Division that gives `None` in place of a division by zero or of a
/// quotient that the type cannot hold.
pub trait CheckedDiv: Integer {
    /// `self / v` rounded toward zero, or `None` where `v` is zero or the
    /// quotient is out of range.
    fn checked_div(&self, v: &Self) -> (r: Option<Self>)
        ensures
            r == checked_quotient::<Self>(self.as_int(), v.as_int()),
    ;
}

} // verus!
