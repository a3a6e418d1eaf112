//! The checked value itself: construction, access and equality.
use vstd::prelude::*;
use vstd::std_specs::cmp::PartialEqSpec;
use core::ops::{Deref, DerefMut};
use crate::integer::Integer;

verus! {

/// A number that may have been lost to a failed operation.
///
/// `Some(x)` is the present state with the number `x`; `None` is the absent
/// state, the result of an operation that had no representable result.
#[derive(Debug, Copy, Clone)]
pub struct Checker<T>(pub Option<T>);

impl<T> Checker<T> {
    /// The present state holding `value`.
    pub fn wrap(value: T) -> (r: Checker<T>)
        ensures
            r.0 == Some(value),
    {
        Checker(Some(value))
    }
}

impl<T: Integer> View for Checker<T> {
    type V = Option<int>;

    /// The integer that the checked value holds, if it holds one.
    open spec fn view(&self) -> Option<int> {
        match self.0 {
            Some(x) => Some(x.as_int()),
            None => None,
        }
    }
}

impl<T> Deref for Checker<T> {
    type Target = Option<T>;

    /// The option inside, to read.
    fn deref(&self) -> (r: &Option<T>)
        ensures
            *r == self.0,
    {
        &self.0
    }
}

impl<T> DerefMut for Checker<T> {
    /// The option inside, to write: what is written through the reference
    /// is what the checked value then holds.
    fn deref_mut(&mut self) -> (r: &mut Option<T>)
        ensures
            *r == old(self).0,
            final(self).0 == *final(r),
    {
        &mut self.0
    }
}

impl<T: PartialEq> PartialEq for Checker<T> {
    /// Two checked values are equal when both are absent or both hold equal
    /// numbers.
    fn eq(&self, other: &Checker<T>) -> (r: bool) {
        self.0 == other.0
    }
}

impl<T: PartialEq> vstd::std_specs::cmp::PartialEqSpecImpl for Checker<T> {
    open spec fn obeys_eq_spec() -> bool {
        T::obeys_eq_spec()
    }

    open spec fn eq_spec(&self, other: &Checker<T>) -> bool {
        match (self.0, other.0) {
            (Some(x), Some(y)) => x.eq_spec(&y),
            (None, None) => true,
            _ => false,
        }
    }
}

impl<T: Eq> Eq for Checker<T> {
}

impl<T: PartialEq + Copy> PartialEq<T> for Checker<T> {
    /// A checked value equals a plain number when it is present and holds an
    /// equal number.
    fn eq(&self, other: &T) -> (r: bool) {
        self.0 == Some(*other)
    }
}

impl<T: PartialEq + Copy> vstd::std_specs::cmp::PartialEqSpecImpl<T> for Checker<T> {
    open spec fn obeys_eq_spec() -> bool {
        T::obeys_eq_spec()
    }

    open spec fn eq_spec(&self, other: &T) -> bool {
        match self.0 {
            Some(x) => x.eq_spec(other),
            None => false,
        }
    }
}

impl<T: PartialEq> PartialEq<Option<T>> for Checker<T> {
    /// A checked value equals an option when the option inside equals it.
    fn eq(&self, other: &Option<T>) -> (r: bool) {
        &self.0 == other
    }
}

impl<T: PartialEq> vstd::std_specs::cmp::PartialEqSpecImpl<Option<T>> for Checker<T> {
    open spec fn obeys_eq_spec() -> bool {
        T::obeys_eq_spec()
    }

    open spec fn eq_spec(&self, other: &Option<T>) -> bool {
        match (self.0, *other) {
            (Some(x), Some(y)) => x.eq_spec(&y),
            (None, None) => true,
            _ => false,
        }
    }
}

} // verus!
