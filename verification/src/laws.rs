//! What holds of the operators and of equality, for every integer type.
use vstd::prelude::*;
use vstd::std_specs::cmp::PartialEqSpec;
use vstd::std_specs::ops::{AddSpec, DivSpec, MulSpec, SubSpec};
use crate::arith::{exact, Operator};
use crate::checker::Checker;
use crate::integer::{fits, CheckedAdd, CheckedDiv, CheckedMul, CheckedSub, Integer};

verus! {

/// A checked value is known by its view: two with the same view are equal.
pub proof fn lemma_view_injective<T: Integer>(x: Checker<T>, y: Checker<T>)
    requires
        x@ == y@,
    ensures
        x == y,
{
    if let (Some(a), Some(b)) = (x.0, y.0) {
        a.lemma_as_int();
        b.lemma_as_int();
    }
}

/// An operator's result holds a number exactly when both sides hold one, the
/// operation on those numbers has an exact result, and the type holds that
/// result; the number it holds is then that exact result.
pub proof fn lemma_apply_exact<T: Integer>(x: Checker<T>, op: Operator, y: Checker<T>)
    ensures
        x.apply(op, y)@ == (match (x@, y@) {
            (Some(a), Some(b)) => match exact(op, a, b) {
                Some(e) => if fits::<T>(e) {
                    Some(e)
                } else {
                    None
                },
                None => None,
            },
            _ => None,
        }),
{
    if let (Some(a), Some(b)) = (x@, y@) {
        if let Some(e) = exact(op, a, b) {
            if fits::<T>(e) {
                T::lemma_from_int(e);
            }
        }
    }
}

/// Where the sum of two numbers is within their type's range, `+` on the
/// wrapped numbers gives that sum, with the right side wrapped or plain.
pub proof fn lemma_add_in_range<T: CheckedAdd>(a: T, b: T)
    requires
        fits::<T>(a.as_int() + b.as_int()),
    ensures
        Checker(Some(a)).add_spec(Checker(Some(b)))@ == Some(a.as_int() + b.as_int()),
        Checker(Some(a)).add_spec(b)@ == Some(a.as_int() + b.as_int()),
        Checker(Some(a)).plus(Checker(Some(b)))@ == Some(a.as_int() + b.as_int()),
{
    T::lemma_from_int(a.as_int() + b.as_int());
}

/// Where the sum of two numbers is out of their type's range, `+` on the
/// wrapped numbers gives the absent state, with the right side wrapped or
/// plain.
pub proof fn lemma_add_out_of_range<T: CheckedAdd>(a: T, b: T)
    requires
        !fits::<T>(a.as_int() + b.as_int()),
    ensures
        Checker(Some(a)).add_spec(Checker(Some(b))) == Checker::<T>(None),
        Checker(Some(a)).add_spec(b) == Checker::<T>(None),
        Checker(Some(a)).plus(Checker(Some(b))) == Checker::<T>(None),
{
}

/// Division by zero gives the absent state, with the zero wrapped or plain.
pub proof fn lemma_div_by_zero<T: CheckedDiv>(a: T, b: T)
    requires
        b.as_int() == 0,
    ensures
        Checker(Some(a)).div_spec(Checker(Some(b))) == Checker::<T>(None),
        Checker(Some(a)).div_spec(b) == Checker::<T>(None),
        Checker(Some(a)).over(Checker(Some(b))) == Checker::<T>(None),
{
}

/// A plain number on the right of an operator counts as that number wrapped.
pub proof fn lemma_plain_is_wrapped<T>(x: Checker<T>, b: T)
    where T: CheckedAdd + CheckedSub + CheckedMul + CheckedDiv
    ensures
        x.add_spec(b) == x.add_spec(Checker(Some(b))),
        x.sub_spec(b) == x.sub_spec(Checker(Some(b))),
        x.mul_spec(b) == x.mul_spec(Checker(Some(b))),
        x.div_spec(b) == x.div_spec(Checker(Some(b))),
{
}

/// What the operators give is what [`Checker::apply`] describes.
pub proof fn lemma_operators_apply<T>(x: Checker<T>, y: Checker<T>)
    where T: CheckedAdd + CheckedSub + CheckedMul + CheckedDiv
    ensures
        x.add_spec(y) == x.apply(Operator::Add, y),
        x.sub_spec(y) == x.apply(Operator::Sub, y),
        x.mul_spec(y) == x.apply(Operator::Mul, y),
        x.div_spec(y) == x.apply(Operator::Div, y),
{
}

/// The absent state absorbs: an operator with the absent state on either
/// side gives the absent state.
pub proof fn lemma_absent_absorbs<T: Integer>(x: Checker<T>, op: Operator, y: Checker<T>)
    requires
        x.0 is None || y.0 is None,
    ensures
        x.apply(op, y) == Checker::<T>(None),
{
}

/// The absent state absorbs under each operator as it is written, with the
/// right side wrapped or plain.
pub proof fn lemma_absent_absorbs_operators<T>(y: Checker<T>, b: T)
    where T: CheckedAdd + CheckedSub + CheckedMul + CheckedDiv
    ensures
        Checker::<T>(None).add_spec(y) == Checker::<T>(None),
        Checker::<T>(None).sub_spec(y) == Checker::<T>(None),
        Checker::<T>(None).mul_spec(y) == Checker::<T>(None),
        Checker::<T>(None).div_spec(y) == Checker::<T>(None),
        Checker::<T>(None).add_spec(b) == Checker::<T>(None),
        Checker::<T>(None).sub_spec(b) == Checker::<T>(None),
        Checker::<T>(None).mul_spec(b) == Checker::<T>(None),
        Checker::<T>(None).div_spec(b) == Checker::<T>(None),
        y.add_spec(Checker::<T>(None)) == Checker::<T>(None),
        y.sub_spec(Checker::<T>(None)) == Checker::<T>(None),
        y.mul_spec(Checker::<T>(None)) == Checker::<T>(None),
        y.div_spec(Checker::<T>(None)) == Checker::<T>(None),
{
}

/// Once absent, always absent: a chain of operations of any length that
/// starts from the absent state ends in the absent state.
pub proof fn lemma_absent_stays_absent<T: Integer>(
    x: Checker<T>,
    steps: Seq<(Operator, Checker<T>)>,
)
    requires
        x.0 is None,
    ensures
        x.apply_all(steps) == Checker::<T>(None),
    decreases steps.len(),
{
    if steps.len() > 0 {
        lemma_absent_absorbs(x, steps.first().0, steps.first().1);
        lemma_absent_stays_absent(
            x.apply(steps.first().0, steps.first().1),
            steps.drop_first(),
        );
    }
}

/// An absent operand anywhere along a chain of operations makes the chain
/// end in the absent state, whatever it starts from.
pub proof fn lemma_absent_operand_ends_absent<T: Integer>(
    x: Checker<T>,
    steps: Seq<(Operator, Checker<T>)>,
    i: int,
)
    requires
        0 <= i < steps.len(),
        steps[i].1.0 is None,
    ensures
        x.apply_all(steps) == Checker::<T>(None),
    decreases steps.len(),
{
    let next = x.apply(steps.first().0, steps.first().1);
    if i == 0 {
        lemma_absent_absorbs(x, steps.first().0, steps.first().1);
        lemma_absent_stays_absent(next, steps.drop_first());
    } else {
        lemma_absent_operand_ends_absent(next, steps.drop_first(), i - 1);
    }
}

/// A wrapped number equals the number itself and equals `Some` of it; the
/// absent state equals `None` and equals no number.
pub proof fn lemma_eq_round_trip<T: Integer>(x: T)
    ensures
        Checker(Some(x)).eq_spec(&x),
        Checker(Some(x)).eq_spec(&Some(x)),
        Checker::<T>(None).eq_spec(&None::<T>),
        !Checker::<T>(None).eq_spec(&x),
{
    T::lemma_eq(x, x);
}

} // verus!
