//! The signed primitive integers as [`Integer`] types, with their checked
//! operations taken from `num_traits`.
use vstd::prelude::*;
use crate::integer::{quotient, CheckedAdd, CheckedDiv, CheckedMul, CheckedSub, Integer};

verus! {

/// `num_traits::CheckedAdd::checked_add` on `i8`: the sum where it lies
/// between `i8::MIN` and `i8::MAX`, else `None`.
#[verifier::external_body]
fn add_i8(a: i8, b: i8) -> (r: Option<i8>)
    ensures
        r == (if i8::MIN <= a + b <= i8::MAX {
            Some((a + b) as i8)
        } else {
            None::<i8>
        }),
{
    num_traits::CheckedAdd::checked_add(&a, &b)
}

/// `num_traits::CheckedSub::checked_sub` on `i8`: the difference where
/// it lies between `i8::MIN` and `i8::MAX`, else `None`.
#[verifier::external_body]
fn sub_i8(a: i8, b: i8) -> (r: Option<i8>)
    ensures
        r == (if i8::MIN <= a - b <= i8::MAX {
            Some((a - b) as i8)
        } else {
            None::<i8>
        }),
{
    num_traits::CheckedSub::checked_sub(&a, &b)
}

/// `num_traits::CheckedMul::checked_mul` on `i8`: the product where it
/// lies between `i8::MIN` and `i8::MAX`, else `None`.
#[verifier::external_body]
fn mul_i8(a: i8, b: i8) -> (r: Option<i8>)
    ensures
        r == (if i8::MIN <= a * b <= i8::MAX {
            Some((a * b) as i8)
        } else {
            None::<i8>
        }),
{
    num_traits::CheckedMul::checked_mul(&a, &b)
}

/// `num_traits::CheckedDiv::checked_div` on `i8`: the quotient rounded
/// toward zero where the divisor is not zero and the quotient lies between
/// `i8::MIN` and `i8::MAX`, else `None`.
#[verifier::external_body]
fn div_i8(a: i8, b: i8) -> (r: Option<i8>)
    ensures
        r == (if b != 0 && i8::MIN <= quotient(a as int, b as int) <= i8::MAX {
            Some(quotient(a as int, b as int) as i8)
        } else {
            None::<i8>
        }),
{
    num_traits::CheckedDiv::checked_div(&a, &b)
}

impl Integer for i8 {
    open spec fn as_int(self) -> int {
        self as int
    }

    open spec fn from_int(i: int) -> i8 {
        i as i8
    }

    open spec fn lowest() -> int {
        i8::MIN as int
    }

    open spec fn highest() -> int {
        i8::MAX as int
    }

    proof fn lemma_as_int(self) {
    }

    proof fn lemma_from_int(i: int) {
    }

    proof fn lemma_eq(a: Self, b: Self) {
    }
}

impl CheckedAdd for i8 {
    fn checked_add(&self, v: &i8) -> (r: Option<i8>) {
        add_i8(*self, *v)
    }
}

impl CheckedSub for i8 {
    fn checked_sub(&self, v: &i8) -> (r: Option<i8>) {
        sub_i8(*self, *v)
    }
}

impl CheckedMul for i8 {
    fn checked_mul(&self, v: &i8) -> (r: Option<i8>) {
        mul_i8(*self, *v)
    }
}

impl CheckedDiv for i8 {
    fn checked_div(&self, v: &i8) -> (r: Option<i8>) {
        div_i8(*self, *v)
    }
}

/// `num_traits::CheckedAdd::checked_add` on `i16`: the sum where it lies
/// between `i16::MIN` and `i16::MAX`, else `None`.
#[verifier::external_body]
fn add_i16(a: i16, b: i16) -> (r: Option<i16>)
    ensures
        r == (if i16::MIN <= a + b <= i16::MAX {
            Some((a + b) as i16)
        } else {
            None::<i16>
        }),
{
    num_traits::CheckedAdd::checked_add(&a, &b)
}

/// `num_traits::CheckedSub::checked_sub` on `i16`: the difference where
/// it lies between `i16::MIN` and `i16::MAX`, else `None`.
#[verifier::external_body]
fn sub_i16(a: i16, b: i16) -> (r: Option<i16>)
    ensures
        r == (if i16::MIN <= a - b <= i16::MAX {
            Some((a - b) as i16)
        } else {
            None::<i16>
        }),
{
    num_traits::CheckedSub::checked_sub(&a, &b)
}

/// `num_traits::CheckedMul::checked_mul` on `i16`: the product where it
/// lies between `i16::MIN` and `i16::MAX`, else `None`.
#[verifier::external_body]
fn mul_i16(a: i16, b: i16) -> (r: Option<i16>)
    ensures
        r == (if i16::MIN <= a * b <= i16::MAX {
            Some((a * b) as i16)
        } else {
            None::<i16>
        }),
{
    num_traits::CheckedMul::checked_mul(&a, &b)
}

/// `num_traits::CheckedDiv::checked_div` on `i16`: the quotient rounded
/// toward zero where the divisor is not zero and the quotient lies between
/// `i16::MIN` and `i16::MAX`, else `None`.
#[verifier::external_body]
fn div_i16(a: i16, b: i16) -> (r: Option<i16>)
    ensures
        r == (if b != 0 && i16::MIN <= quotient(a as int, b as int) <= i16::MAX {
            Some(quotient(a as int, b as int) as i16)
        } else {
            None::<i16>
        }),
{
    num_traits::CheckedDiv::checked_div(&a, &b)
}

impl Integer for i16 {
    open spec fn as_int(self) -> int {
        self as int
    }

    open spec fn from_int(i: int) -> i16 {
        i as i16
    }

    open spec fn lowest() -> int {
        i16::MIN as int
    }

    open spec fn highest() -> int {
        i16::MAX as int
    }

    proof fn lemma_as_int(self) {
    }

    proof fn lemma_from_int(i: int) {
    }

    proof fn lemma_eq(a: Self, b: Self) {
    }
}

impl CheckedAdd for i16 {
    fn checked_add(&self, v: &i16) -> (r: Option<i16>) {
        add_i16(*self, *v)
    }
}

impl CheckedSub for i16 {
    fn checked_sub(&self, v: &i16) -> (r: Option<i16>) {
        sub_i16(*self, *v)
    }
}

impl CheckedMul for i16 {
    fn checked_mul(&self, v: &i16) -> (r: Option<i16>) {
        mul_i16(*self, *v)
    }
}

impl CheckedDiv for i16 {
    fn checked_div(&self, v: &i16) -> (r: Option<i16>) {
        div_i16(*self, *v)
    }
}

/// `num_traits::CheckedAdd::checked_add` on `i32`: the sum where it lies
/// between `i32::MIN` and `i32::MAX`, else `None`.
#[verifier::external_body]
fn add_i32(a: i32, b: i32) -> (r: Option<i32>)
    ensures
        r == (if i32::MIN <= a + b <= i32::MAX {
            Some((a + b) as i32)
        } else {
            None::<i32>
        }),
{
    num_traits::CheckedAdd::checked_add(&a, &b)
}

/// `num_traits::CheckedSub::checked_sub` on `i32`: the difference where
/// it lies between `i32::MIN` and `i32::MAX`, else `None`.
#[verifier::external_body]
fn sub_i32(a: i32, b: i32) -> (r: Option<i32>)
    ensures
        r == (if i32::MIN <= a - b <= i32::MAX {
            Some((a - b) as i32)
        } else {
            None::<i32>
        }),
{
    num_traits::CheckedSub::checked_sub(&a, &b)
}

/// `num_traits::CheckedMul::checked_mul` on `i32`: the product where it
/// lies between `i32::MIN` and `i32::MAX`, else `None`.
#[verifier::external_body]
fn mul_i32(a: i32, b: i32) -> (r: Option<i32>)
    ensures
        r == (if i32::MIN <= a * b <= i32::MAX {
            Some((a * b) as i32)
        } else {
            None::<i32>
        }),
{
    num_traits::CheckedMul::checked_mul(&a, &b)
}

/// `num_traits::CheckedDiv::checked_div` on `i32`: the quotient rounded
/// toward zero where the divisor is not zero and the quotient lies between
/// `i32::MIN` and `i32::MAX`, else `None`.
#[verifier::external_body]
fn div_i32(a: i32, b: i32) -> (r: Option<i32>)
    ensures
        r == (if b != 0 && i32::MIN <= quotient(a as int, b as int) <= i32::MAX {
            Some(quotient(a as int, b as int) as i32)
        } else {
            None::<i32>
        }),
{
    num_traits::CheckedDiv::checked_div(&a, &b)
}

impl Integer for i32 {
    open spec fn as_int(self) -> int {
        self as int
    }

    open spec fn from_int(i: int) -> i32 {
        i as i32
    }

    open spec fn lowest() -> int {
        i32::MIN as int
    }

    open spec fn highest() -> int {
        i32::MAX as int
    }

    proof fn lemma_as_int(self) {
    }

    proof fn lemma_from_int(i: int) {
    }

    proof fn lemma_eq(a: Self, b: Self) {
    }
}

impl CheckedAdd for i32 {
    fn checked_add(&self, v: &i32) -> (r: Option<i32>) {
        add_i32(*self, *v)
    }
}

impl CheckedSub for i32 {
    fn checked_sub(&self, v: &i32) -> (r: Option<i32>) {
        sub_i32(*self, *v)
    }
}

impl CheckedMul for i32 {
    fn checked_mul(&self, v: &i32) -> (r: Option<i32>) {
        mul_i32(*self, *v)
    }
}

impl CheckedDiv for i32 {
    fn checked_div(&self, v: &i32) -> (r: Option<i32>) {
        div_i32(*self, *v)
    }
}

/// `num_traits::CheckedAdd::checked_add` on `i64`: the sum where it lies
/// between `i64::MIN` and `i64::MAX`, else `None`.
#[verifier::external_body]
fn add_i64(a: i64, b: i64) -> (r: Option<i64>)
    ensures
        r == (if i64::MIN <= a + b <= i64::MAX {
            Some((a + b) as i64)
        } else {
            None::<i64>
        }),
{
    num_traits::CheckedAdd::checked_add(&a, &b)
}

/// `num_traits::CheckedSub::checked_sub` on `i64`: the difference where
/// it lies between `i64::MIN` and `i64::MAX`, else `None`.
#[verifier::external_body]
fn sub_i64(a: i64, b: i64) -> (r: Option<i64>)
    ensures
        r == (if i64::MIN <= a - b <= i64::MAX {
            Some((a - b) as i64)
        } else {
            None::<i64>
        }),
{
    num_traits::CheckedSub::checked_sub(&a, &b)
}

/// `num_traits::CheckedMul::checked_mul` on `i64`: the product where it
/// lies between `i64::MIN` and `i64::MAX`, else `None`.
#[verifier::external_body]
fn mul_i64(a: i64, b: i64) -> (r: Option<i64>)
    ensures
        r == (if i64::MIN <= a * b <= i64::MAX {
            Some((a * b) as i64)
        } else {
            None::<i64>
        }),
{
    num_traits::CheckedMul::checked_mul(&a, &b)
}

/// `num_traits::CheckedDiv::checked_div` on `i64`: the quotient rounded
/// toward zero where the divisor is not zero and the quotient lies between
/// `i64::MIN` and `i64::MAX`, else `None`.
#[verifier::external_body]
fn div_i64(a: i64, b: i64) -> (r: Option<i64>)
    ensures
        r == (if b != 0 && i64::MIN <= quotient(a as int, b as int) <= i64::MAX {
            Some(quotient(a as int, b as int) as i64)
        } else {
            None::<i64>
        }),
{
    num_traits::CheckedDiv::checked_div(&a, &b)
}

impl Integer for i64 {
    open spec fn as_int(self) -> int {
        self as int
    }

    open spec fn from_int(i: int) -> i64 {
        i as i64
    }

    open spec fn lowest() -> int {
        i64::MIN as int
    }

    open spec fn highest() -> int {
        i64::MAX as int
    }

    proof fn lemma_as_int(self) {
    }

    proof fn lemma_from_int(i: int) {
    }

    proof fn lemma_eq(a: Self, b: Self) {
    }
}

impl CheckedAdd for i64 {
    fn checked_add(&self, v: &i64) -> (r: Option<i64>) {
        add_i64(*self, *v)
    }
}

impl CheckedSub for i64 {
    fn checked_sub(&self, v: &i64) -> (r: Option<i64>) {
        sub_i64(*self, *v)
    }
}

impl CheckedMul for i64 {
    fn checked_mul(&self, v: &i64) -> (r: Option<i64>) {
        mul_i64(*self, *v)
    }
}

impl CheckedDiv for i64 {
    fn checked_div(&self, v: &i64) -> (r: Option<i64>) {
        div_i64(*self, *v)
    }
}

/// `num_traits::CheckedAdd::checked_add` on `i128`: the sum where it lies
/// between `i128::MIN` and `i128::MAX`, else `None`.
#[verifier::external_body]
fn add_i128(a: i128, b: i128) -> (r: Option<i128>)
    ensures
        r == (if i128::MIN <= a + b <= i128::MAX {
            Some((a + b) as i128)
        } else {
            None::<i128>
        }),
{
    num_traits::CheckedAdd::checked_add(&a, &b)
}

/// `num_traits::CheckedSub::checked_sub` on `i128`: the difference where
/// it lies between `i128::MIN` and `i128::MAX`, else `None`.
#[verifier::external_body]
fn sub_i128(a: i128, b: i128) -> (r: Option<i128>)
    ensures
        r == (if i128::MIN <= a - b <= i128::MAX {
            Some((a - b) as i128)
        } else {
            None::<i128>
        }),
{
    num_traits::CheckedSub::checked_sub(&a, &b)
}

/// `num_traits::CheckedMul::checked_mul` on `i128`: the product where it
/// lies between `i128::MIN` and `i128::MAX`, else `None`.
#[verifier::external_body]
fn mul_i128(a: i128, b: i128) -> (r: Option<i128>)
    ensures
        r == (if i128::MIN <= a * b <= i128::MAX {
            Some((a * b) as i128)
        } else {
            None::<i128>
        }),
{
    num_traits::CheckedMul::checked_mul(&a, &b)
}

/// `num_traits::CheckedDiv::checked_div` on `i128`: the quotient rounded
/// toward zero where the divisor is not zero and the quotient lies between
/// `i128::MIN` and `i128::MAX`, else `None`.
#[verifier::external_body]
fn div_i128(a: i128, b: i128) -> (r: Option<i128>)
    ensures
        r == (if b != 0 && i128::MIN <= quotient(a as int, b as int) <= i128::MAX {
            Some(quotient(a as int, b as int) as i128)
        } else {
            None::<i128>
        }),
{
    num_traits::CheckedDiv::checked_div(&a, &b)
}

impl Integer for i128 {
    open spec fn as_int(self) -> int {
        self as int
    }

    open spec fn from_int(i: int) -> i128 {
        i as i128
    }

    open spec fn lowest() -> int {
        i128::MIN as int
    }

    open spec fn highest() -> int {
        i128::MAX as int
    }

    proof fn lemma_as_int(self) {
    }

    proof fn lemma_from_int(i: int) {
    }

    proof fn lemma_eq(a: Self, b: Self) {
    }
}

impl CheckedAdd for i128 {
    fn checked_add(&self, v: &i128) -> (r: Option<i128>) {
        add_i128(*self, *v)
    }
}

impl CheckedSub for i128 {
    fn checked_sub(&self, v: &i128) -> (r: Option<i128>) {
        sub_i128(*self, *v)
    }
}

impl CheckedMul for i128 {
    fn checked_mul(&self, v: &i128) -> (r: Option<i128>) {
        mul_i128(*self, *v)
    }
}

impl CheckedDiv for i128 {
    fn checked_div(&self, v: &i128) -> (r: Option<i128>) {
        div_i128(*self, *v)
    }
}

/// `num_traits::CheckedAdd::checked_add` on `isize`: the sum where it lies
/// between `isize::MIN` and `isize::MAX`, else `None`.
#[verifier::external_body]
fn add_isize(a: isize, b: isize) -> (r: Option<isize>)
    ensures
        r == (if isize::MIN <= a + b <= isize::MAX {
            Some((a + b) as isize)
        } else {
            None::<isize>
        }),
{
    num_traits::CheckedAdd::checked_add(&a, &b)
}

/// `num_traits::CheckedSub::checked_sub` on `isize`: the difference where
/// it lies between `isize::MIN` and `isize::MAX`, else `None`.
#[verifier::external_body]
fn sub_isize(a: isize, b: isize) -> (r: Option<isize>)
    ensures
        r == (if isize::MIN <= a - b <= isize::MAX {
            Some((a - b) as isize)
        } else {
            None::<isize>
        }),
{
    num_traits::CheckedSub::checked_sub(&a, &b)
}

/// `num_traits::CheckedMul::checked_mul` on `isize`: the product where it
/// lies between `isize::MIN` and `isize::MAX`, else `None`.
#[verifier::external_body]
fn mul_isize(a: isize, b: isize) -> (r: Option<isize>)
    ensures
        r == (if isize::MIN <= a * b <= isize::MAX {
            Some((a * b) as isize)
        } else {
            None::<isize>
        }),
{
    num_traits::CheckedMul::checked_mul(&a, &b)
}

/// `num_traits::CheckedDiv::checked_div` on `isize`: the quotient rounded
/// toward zero where the divisor is not zero and the quotient lies between
/// `isize::MIN` and `isize::MAX`, else `None`.
#[verifier::external_body]
fn div_isize(a: isize, b: isize) -> (r: Option<isize>)
    ensures
        r == (if b != 0 && isize::MIN <= quotient(a as int, b as int) <= isize::MAX {
            Some(quotient(a as int, b as int) as isize)
        } else {
            None::<isize>
        }),
{
    num_traits::CheckedDiv::checked_div(&a, &b)
}

impl Integer for isize {
    open spec fn as_int(self) -> int {
        self as int
    }

    open spec fn from_int(i: int) -> isize {
        i as isize
    }

    open spec fn lowest() -> int {
        isize::MIN as int
    }

    open spec fn highest() -> int {
        isize::MAX as int
    }

    proof fn lemma_as_int(self) {
    }

    proof fn lemma_from_int(i: int) {
    }

    proof fn lemma_eq(a: Self, b: Self) {
    }
}

impl CheckedAdd for isize {
    fn checked_add(&self, v: &isize) -> (r: Option<isize>) {
        add_isize(*self, *v)
    }
}

impl CheckedSub for isize {
    fn checked_sub(&self, v: &isize) -> (r: Option<isize>) {
        sub_isize(*self, *v)
    }
}

impl CheckedMul for isize {
    fn checked_mul(&self, v: &isize) -> (r: Option<isize>) {
        mul_isize(*self, *v)
    }
}

impl CheckedDiv for isize {
    fn checked_div(&self, v: &isize) -> (r: Option<isize>) {
        div_isize(*self, *v)
    }
}

} // verus!
