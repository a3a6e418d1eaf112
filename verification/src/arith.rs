//! The four operators on a checked value.
//!
//! Each operator takes a checked value on the left and, on the right, either
//! another checked value or a plain number. The result is present exactly
//! when every operand is present and the number's type holds the exact
//! result; for `/` the divisor must also be other than zero.
use vstd::prelude::*;
use core::ops::{Add, Div, Mul, Sub};
use crate::checker::Checker;
use crate::integer::{
    checked, checked_quotient, quotient, CheckedAdd, CheckedDiv, CheckedMul, CheckedSub,
    Integer,
};

verus! {

impl<T: Integer> Checker<T> {
    /// What `self + rhs` is: the exact sum where both sides are
    /// present and `T` holds it, the absent state otherwise.
    pub open spec fn plus(self, rhs: Checker<T>) -> Checker<T> {
        match (self.0, rhs.0) {
            (Some(l), Some(r)) => Checker(checked::<T>(l.as_int() + r.as_int())),
            _ => Checker(None),
        }
    }

    /// What `self - rhs` is: the exact difference where both sides are
    /// present and `T` holds it, the absent state otherwise.
    pub open spec fn minus(self, rhs: Checker<T>) -> Checker<T> {
        match (self.0, rhs.0) {
            (Some(l), Some(r)) => Checker(checked::<T>(l.as_int() - r.as_int())),
            _ => Checker(None),
        }
    }

    /// What `self * rhs` is: the exact product where both sides are
    /// present and `T` holds it, the absent state otherwise.
    pub open spec fn times(self, rhs: Checker<T>) -> Checker<T> {
        match (self.0, rhs.0) {
            (Some(l), Some(r)) => Checker(checked::<T>(l.as_int() * r.as_int())),
            _ => Checker(None),
        }
    }

    /// What `self / rhs` is: the quotient rounded toward zero where both
    /// sides are present, the divisor is not zero and `T` holds the quotient,
    /// the absent state otherwise.
    pub open spec fn over(self, rhs: Checker<T>) -> Checker<T> {
        match (self.0, rhs.0) {
            (Some(l), Some(r)) => Checker(checked_quotient::<T>(l.as_int(), r.as_int())),
            _ => Checker(None),
        }
    }
}

impl<T: CheckedAdd> vstd::std_specs::ops::AddSpecImpl<Checker<T>> for Checker<T> {
    open spec fn obeys_add_spec() -> bool {
        true
    }

    open spec fn add_req(self, rhs: Checker<T>) -> bool {
        true
    }

    open spec fn add_spec(self, rhs: Checker<T>) -> Checker<T> {
        self.plus(rhs)
    }
}

impl<T: CheckedAdd> Add<Checker<T>> for Checker<T> {
    type Output = Checker<T>;

    /// The checked sum of two checked values.
    fn add(self, rhs: Checker<T>) -> (out: Checker<T>)
        ensures
            out == self.plus(rhs),
    {
        if let (Some(l), Some(r)) = (self.0, rhs.0) {
            Checker(l.checked_add(&r))
        } else {
            Checker(None)
        }
    }
}

impl<T: CheckedAdd> vstd::std_specs::ops::AddSpecImpl<T> for Checker<T> {
    open spec fn obeys_add_spec() -> bool {
        true
    }

    open spec fn add_req(self, rhs: T) -> bool {
        true
    }

    open spec fn add_spec(self, rhs: T) -> Checker<T> {
        self.plus(Checker(Some(rhs)))
    }
}

impl<T: CheckedAdd> Add<T> for Checker<T> {
    type Output = Checker<T>;

    /// The checked sum of a checked value and a plain number.
    fn add(self, rhs: T) -> (out: Checker<T>)
        ensures
            out == self.plus(Checker(Some(rhs))),
    {
        match self.0 {
            Some(l) => Checker(l.checked_add(&rhs)),
            None => Checker(None),
        }
    }
}

impl<T: CheckedSub> vstd::std_specs::ops::SubSpecImpl<Checker<T>> for Checker<T> {
    open spec fn obeys_sub_spec() -> bool {
        true
    }

    open spec fn sub_req(self, rhs: Checker<T>) -> bool {
        true
    }

    open spec fn sub_spec(self, rhs: Checker<T>) -> Checker<T> {
        self.minus(rhs)
    }
}

impl<T: CheckedSub> Sub<Checker<T>> for Checker<T> {
    type Output = Checker<T>;

    /// The checked difference of two checked values.
    fn sub(self, rhs: Checker<T>) -> (out: Checker<T>)
        ensures
            out == self.minus(rhs),
    {
        if let (Some(l), Some(r)) = (self.0, rhs.0) {
            Checker(l.checked_sub(&r))
        } else {
            Checker(None)
        }
    }
}

impl<T: CheckedSub> vstd::std_specs::ops::SubSpecImpl<T> for Checker<T> {
    open spec fn obeys_sub_spec() -> bool {
        true
    }

    open spec fn sub_req(self, rhs: T) -> bool {
        true
    }

    open spec fn sub_spec(self, rhs: T) -> Checker<T> {
        self.minus(Checker(Some(rhs)))
    }
}

impl<T: CheckedSub> Sub<T> for Checker<T> {
    type Output = Checker<T>;

    /// The checked difference of a checked value and a plain number.
    fn sub(self, rhs: T) -> (out: Checker<T>)
        ensures
            out == self.minus(Checker(Some(rhs))),
    {
        match self.0 {
            Some(l) => Checker(l.checked_sub(&rhs)),
            None => Checker(None),
        }
    }
}

impl<T: CheckedMul> vstd::std_specs::ops::MulSpecImpl<Checker<T>> for Checker<T> {
    open spec fn obeys_mul_spec() -> bool {
        true
    }

    open spec fn mul_req(self, rhs: Checker<T>) -> bool {
        true
    }

    open spec fn mul_spec(self, rhs: Checker<T>) -> Checker<T> {
        self.times(rhs)
    }
}

impl<T: CheckedMul> Mul<Checker<T>> for Checker<T> {
    type Output = Checker<T>;

    /// The checked product of two checked values.
    fn mul(self, rhs: Checker<T>) -> (out: Checker<T>)
        ensures
            out == self.times(rhs),
    {
        if let (Some(l), Some(r)) = (self.0, rhs.0) {
            Checker(l.checked_mul(&r))
        } else {
            Checker(None)
        }
    }
}

impl<T: CheckedMul> vstd::std_specs::ops::MulSpecImpl<T> for Checker<T> {
    open spec fn obeys_mul_spec() -> bool {
        true
    }

    open spec fn mul_req(self, rhs: T) -> bool {
        true
    }

    open spec fn mul_spec(self, rhs: T) -> Checker<T> {
        self.times(Checker(Some(rhs)))
    }
}

impl<T: CheckedMul> Mul<T> for Checker<T> {
    type Output = Checker<T>;

    /// The checked product of a checked value and a plain number.
    fn mul(self, rhs: T) -> (out: Checker<T>)
        ensures
            out == self.times(Checker(Some(rhs))),
    {
        match self.0 {
            Some(l) => Checker(l.checked_mul(&rhs)),
            None => Checker(None),
        }
    }
}

impl<T: CheckedDiv> vstd::std_specs::ops::DivSpecImpl<Checker<T>> for Checker<T> {
    open spec fn obeys_div_spec() -> bool {
        true
    }

    open spec fn div_req(self, rhs: Checker<T>) -> bool {
        true
    }

    open spec fn div_spec(self, rhs: Checker<T>) -> Checker<T> {
        self.over(rhs)
    }
}

impl<T: CheckedDiv> Div<Checker<T>> for Checker<T> {
    type Output = Checker<T>;

    /// The checked quotient of two checked values.
    fn div(self, rhs: Checker<T>) -> (out: Checker<T>)
        ensures
            out == self.over(rhs),
    {
        if let (Some(l), Some(r)) = (self.0, rhs.0) {
            Checker(l.checked_div(&r))
        } else {
            Checker(None)
        }
    }
}

impl<T: CheckedDiv> vstd::std_specs::ops::DivSpecImpl<T> for Checker<T> {
    open spec fn obeys_div_spec() -> bool {
        true
    }

    open spec fn div_req(self, rhs: T) -> bool {
        true
    }

    open spec fn div_spec(self, rhs: T) -> Checker<T> {
        self.over(Checker(Some(rhs)))
    }
}

impl<T: CheckedDiv> Div<T> for Checker<T> {
    type Output = Checker<T>;

    /// The checked quotient of a checked value and a plain number.
    fn div(self, rhs: T) -> (out: Checker<T>)
        ensures
            out == self.over(Checker(Some(rhs))),
    {
        match self.0 {
            Some(l) => Checker(l.checked_div(&rhs)),
            None => Checker(None),
        }
    }
}

/// One of the four operators.
pub enum Operator {
    Add,
    Sub,
    Mul,
    Div,
}

/// The exact result of `op` on the integers `a` and `b`, where it has one:
/// a division by zero has none.
pub open spec fn exact(op: Operator, a: int, b: int) -> Option<int> {
    match op {
        Operator::Add => Some(a + b),
        Operator::Sub => Some(a - b),
        Operator::Mul => Some(a * b),
        Operator::Div => if b == 0 {
            None
        } else {
            Some(quotient(a, b))
        },
    }
}

impl<T: Integer> Checker<T> {
    /// What the operator `op` gives on `self` and `rhs`.
    pub open spec fn apply(self, op: Operator, rhs: Checker<T>) -> Checker<T> {
        match op {
            Operator::Add => self.plus(rhs),
            Operator::Sub => self.minus(rhs),
            Operator::Mul => self.times(rhs),
            Operator::Div => self.over(rhs),
        }
    }

    /// What a chain of operations gives that starts from `self` and combines
    /// what it has so far with the operand of each step in turn.
    pub open spec fn apply_all(self, steps: Seq<(Operator, Checker<T>)>) -> Checker<T>
        decreases steps.len(),
    {
        if steps.len() == 0 {
            self
        } else {
            self.apply(steps.first().0, steps.first().1).apply_all(steps.drop_first())
        }
    }
}

} // verus!
