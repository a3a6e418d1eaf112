//! The unsigned primitive integers as [`Integer`] types, with their checked
//! operations taken from `num_traits`.
use vstd::prelude::*;
use crate::integer::{
    lemma_quotient_of_naturals, CheckedAdd, CheckedDiv, CheckedMul, CheckedSub, Integer,
};

verus! {

/// `num_traits::CheckedAdd::checked_add` on `u8`: the sum where it is at
/// most `u8::MAX`, else `None`.
#[verifier::external_body]
fn add_u8(a: u8, b: u8) -> (r: Option<u8>)
    ensures
        r == (if a + b <= u8::MAX {
            Some((a + b) as u8)
        } else {
            None::<u8>
        }),
{
    num_traits::CheckedAdd::checked_add(&a, &b)
}

/// `num_traits::CheckedSub::checked_sub` on `u8`: the difference where
/// it is not negative, else `None`.
#[verifier::external_body]
fn sub_u8(a: u8, b: u8) -> (r: Option<u8>)
    ensures
        r == (if a - b >= 0 {
            Some((a - b) as u8)
        } else {
            None::<u8>
        }),
{
    num_traits::CheckedSub::checked_sub(&a, &b)
}

/// `num_traits::CheckedMul::checked_mul` on `u8`: the product where it
/// is at most `u8::MAX`, else `None`.
#[verifier::external_body]
fn mul_u8(a: u8, b: u8) -> (r: Option<u8>)
    ensures
        r == (if a * b <= u8::MAX {
            Some((a * b) as u8)
        } else {
            None::<u8>
        }),
{
    num_traits::CheckedMul::checked_mul(&a, &b)
}

/// `num_traits::CheckedDiv::checked_div` on `u8`: the quotient rounded
/// down where the divisor is not zero, else `None`.
#[verifier::external_body]
fn div_u8(a: u8, b: u8) -> (r: Option<u8>)
    ensures
        r == (if b != 0 {
            Some(a / b)
        } else {
            None::<u8>
        }),
{
    num_traits::CheckedDiv::checked_div(&a, &b)
}

impl Integer for u8 {
    open spec fn as_int(self) -> int {
        self as int
    }

    open spec fn from_int(i: int) -> u8 {
        i as u8
    }

    open spec fn lowest() -> int {
        u8::MIN as int
    }

    open spec fn highest() -> int {
        u8::MAX as int
    }

    proof fn lemma_as_int(self) {
    }

    proof fn lemma_from_int(i: int) {
    }

    proof fn lemma_eq(a: Self, b: Self) {
    }
}

impl CheckedAdd for u8 {
    fn checked_add(&self, v: &u8) -> (r: Option<u8>) {
        add_u8(*self, *v)
    }
}

impl CheckedSub for u8 {
    fn checked_sub(&self, v: &u8) -> (r: Option<u8>) {
        sub_u8(*self, *v)
    }
}

impl CheckedMul for u8 {
    fn checked_mul(&self, v: &u8) -> (r: Option<u8>) {
        mul_u8(*self, *v)
    }
}

impl CheckedDiv for u8 {
    fn checked_div(&self, v: &u8) -> (r: Option<u8>) {
        proof {
            if *v != 0 {
                lemma_quotient_of_naturals(*self as int, *v as int);
            }
        }
        div_u8(*self, *v)
    }
}

/// `num_traits::CheckedAdd::checked_add` on `u16`: the sum where it is at
/// most `u16::MAX`, else `None`.
#[verifier::external_body]
fn add_u16(a: u16, b: u16) -> (r: Option<u16>)
    ensures
        r == (if a + b <= u16::MAX {
            Some((a + b) as u16)
        } else {
            None::<u16>
        }),
{
    num_traits::CheckedAdd::checked_add(&a, &b)
}

/// `num_traits::CheckedSub::checked_sub` on `u16`: the difference where
/// it is not negative, else `None`.
#[verifier::external_body]
fn sub_u16(a: u16, b: u16) -> (r: Option<u16>)
    ensures
        r == (if a - b >= 0 {
            Some((a - b) as u16)
        } else {
            None::<u16>
        }),
{
    num_traits::CheckedSub::checked_sub(&a, &b)
}

/// `num_traits::CheckedMul::checked_mul` on `u16`: the product where it
/// is at most `u16::MAX`, else `None`.
#[verifier::external_body]
fn mul_u16(a: u16, b: u16) -> (r: Option<u16>)
    ensures
        r == (if a * b <= u16::MAX {
            Some((a * b) as u16)
        } else {
            None::<u16>
        }),
{
    num_traits::CheckedMul::checked_mul(&a, &b)
}

/// `num_traits::CheckedDiv::checked_div` on `u16`: the quotient rounded
/// down where the divisor is not zero, else `None`.
#[verifier::external_body]
fn div_u16(a: u16, b: u16) -> (r: Option<u16>)
    ensures
        r == (if b != 0 {
            Some(a / b)
        } else {
            None::<u16>
        }),
{
    num_traits::CheckedDiv::checked_div(&a, &b)
}

impl Integer for u16 {
    open spec fn as_int(self) -> int {
        self as int
    }

    open spec fn from_int(i: int) -> u16 {
        i as u16
    }

    open spec fn lowest() -> int {
        u16::MIN as int
    }

    open spec fn highest() -> int {
        u16::MAX as int
    }

    proof fn lemma_as_int(self) {
    }

    proof fn lemma_from_int(i: int) {
    }

    proof fn lemma_eq(a: Self, b: Self) {
    }
}

impl CheckedAdd for u16 {
    fn checked_add(&self, v: &u16) -> (r: Option<u16>) {
        add_u16(*self, *v)
    }
}

impl CheckedSub for u16 {
    fn checked_sub(&self, v: &u16) -> (r: Option<u16>) {
        sub_u16(*self, *v)
    }
}

impl CheckedMul for u16 {
    fn checked_mul(&self, v: &u16) -> (r: Option<u16>) {
        mul_u16(*self, *v)
    }
}

impl CheckedDiv for u16 {
    fn checked_div(&self, v: &u16) -> (r: Option<u16>) {
        proof {
            if *v != 0 {
                lemma_quotient_of_naturals(*self as int, *v as int);
            }
        }
        div_u16(*self, *v)
    }
}

/// `num_traits::CheckedAdd::checked_add` on `u32`: the sum where it is at
/// most `u32::MAX`, else `None`.
#[verifier::external_body]
fn add_u32(a: u32, b: u32) -> (r: Option<u32>)
    ensures
        r == (if a + b <= u32::MAX {
            Some((a + b) as u32)
        } else {
            None::<u32>
        }),
{
    num_traits::CheckedAdd::checked_add(&a, &b)
}

/// `num_traits::CheckedSub::checked_sub` on `u32`: the difference where
/// it is not negative, else `None`.
#[verifier::external_body]
fn sub_u32(a: u32, b: u32) -> (r: Option<u32>)
    ensures
        r == (if a - b >= 0 {
            Some((a - b) as u32)
        } else {
            None::<u32>
        }),
{
    num_traits::CheckedSub::checked_sub(&a, &b)
}

/// `num_traits::CheckedMul::checked_mul` on `u32`: the product where it
/// is at most `u32::MAX`, else `None`.
#[verifier::external_body]
fn mul_u32(a: u32, b: u32) -> (r: Option<u32>)
    ensures
        r == (if a * b <= u32::MAX {
            Some((a * b) as u32)
        } else {
            None::<u32>
        }),
{
    num_traits::CheckedMul::checked_mul(&a, &b)
}

/// `num_traits::CheckedDiv::checked_div` on `u32`: the quotient rounded
/// down where the divisor is not zero, else `None`.
#[verifier::external_body]
fn div_u32(a: u32, b: u32) -> (r: Option<u32>)
    ensures
        r == (if b != 0 {
            Some(a / b)
        } else {
            None::<u32>
        }),
{
    num_traits::CheckedDiv::checked_div(&a, &b)
}

impl Integer for u32 {
    open spec fn as_int(self) -> int {
        self as int
    }

    open spec fn from_int(i: int) -> u32 {
        i as u32
    }

    open spec fn lowest() -> int {
        u32::MIN as int
    }

    open spec fn highest() -> int {
        u32::MAX as int
    }

    proof fn lemma_as_int(self) {
    }

    proof fn lemma_from_int(i: int) {
    }

    proof fn lemma_eq(a: Self, b: Self) {
    }
}

impl CheckedAdd for u32 {
    fn checked_add(&self, v: &u32) -> (r: Option<u32>) {
        add_u32(*self, *v)
    }
}

impl CheckedSub for u32 {
    fn checked_sub(&self, v: &u32) -> (r: Option<u32>) {
        sub_u32(*self, *v)
    }
}

impl CheckedMul for u32 {
    fn checked_mul(&self, v: &u32) -> (r: Option<u32>) {
        mul_u32(*self, *v)
    }
}

impl CheckedDiv for u32 {
    fn checked_div(&self, v: &u32) -> (r: Option<u32>) {
        proof {
            if *v != 0 {
                lemma_quotient_of_naturals(*self as int, *v as int);
            }
        }
        div_u32(*self, *v)
    }
}

/// `num_traits::CheckedAdd::checked_add` on `u64`: the sum where it is at
/// most `u64::MAX`, else `None`.
#[verifier::external_body]
fn add_u64(a: u64, b: u64) -> (r: Option<u64>)
    ensures
        r == (if a + b <= u64::MAX {
            Some((a + b) as u64)
        } else {
            None::<u64>
        }),
{
    num_traits::CheckedAdd::checked_add(&a, &b)
}

/// `num_traits::CheckedSub::checked_sub` on `u64`: the difference where
/// it is not negative, else `None`.
#[verifier::external_body]
fn sub_u64(a: u64, b: u64) -> (r: Option<u64>)
    ensures
        r == (if a - b >= 0 {
            Some((a - b) as u64)
        } else {
            None::<u64>
        }),
{
    num_traits::CheckedSub::checked_sub(&a, &b)
}

/// `num_traits::CheckedMul::checked_mul` on `u64`: the product where it
/// is at most `u64::MAX`, else `None`.
#[verifier::external_body]
fn mul_u64(a: u64, b: u64) -> (r: Option<u64>)
    ensures
        r == (if a * b <= u64::MAX {
            Some((a * b) as u64)
        } else {
            None::<u64>
        }),
{
    num_traits::CheckedMul::checked_mul(&a, &b)
}

/// `num_traits::CheckedDiv::checked_div` on `u64`: the quotient rounded
/// down where the divisor is not zero, else `None`.
#[verifier::external_body]
fn div_u64(a: u64, b: u64) -> (r: Option<u64>)
    ensures
        r == (if b != 0 {
            Some(a / b)
        } else {
            None::<u64>
        }),
{
    num_traits::CheckedDiv::checked_div(&a, &b)
}

impl Integer for u64 {
    open spec fn as_int(self) -> int {
        self as int
    }

    open spec fn from_int(i: int) -> u64 {
        i as u64
    }

    open spec fn lowest() -> int {
        u64::MIN as int
    }

    open spec fn highest() -> int {
        u64::MAX as int
    }

    proof fn lemma_as_int(self) {
    }

    proof fn lemma_from_int(i: int) {
    }

    proof fn lemma_eq(a: Self, b: Self) {
    }
}

impl CheckedAdd for u64 {
    fn checked_add(&self, v: &u64) -> (r: Option<u64>) {
        add_u64(*self, *v)
    }
}

impl CheckedSub for u64 {
    fn checked_sub(&self, v: &u64) -> (r: Option<u64>) {
        sub_u64(*self, *v)
    }
}

impl CheckedMul for u64 {
    fn checked_mul(&self, v: &u64) -> (r: Option<u64>) {
        mul_u64(*self, *v)
    }
}

impl CheckedDiv for u64 {
    fn checked_div(&self, v: &u64) -> (r: Option<u64>) {
        proof {
            if *v != 0 {
                lemma_quotient_of_naturals(*self as int, *v as int);
            }
        }
        div_u64(*self, *v)
    }
}

/// `num_traits::CheckedAdd::checked_add` on `u128`: the sum where it is at
/// most `u128::MAX`, else `None`.
#[verifier::external_body]
fn add_u128(a: u128, b: u128) -> (r: Option<u128>)
    ensures
        r == (if a + b <= u128::MAX {
            Some((a + b) as u128)
        } else {
            None::<u128>
        }),
{
    num_traits::CheckedAdd::checked_add(&a, &b)
}

/// `num_traits::CheckedSub::checked_sub` on `u128`: the difference where
/// it is not negative, else `None`.
#[verifier::external_body]
fn sub_u128(a: u128, b: u128) -> (r: Option<u128>)
    ensures
        r == (if a - b >= 0 {
            Some((a - b) as u128)
        } else {
            None::<u128>
        }),
{
    num_traits::CheckedSub::checked_sub(&a, &b)
}

/// `num_traits::CheckedMul::checked_mul` on `u128`: the product where it
/// is at most `u128::MAX`, else `None`.
#[verifier::external_body]
fn mul_u128(a: u128, b: u128) -> (r: Option<u128>)
    ensures
        r == (if a * b <= u128::MAX {
            Some((a * b) as u128)
        } else {
            None::<u128>
        }),
{
    num_traits::CheckedMul::checked_mul(&a, &b)
}

/// `num_traits::CheckedDiv::checked_div` on `u128`: the quotient rounded
/// down where the divisor is not zero, else `None`.
#[verifier::external_body]
fn div_u128(a: u128, b: u128) -> (r: Option<u128>)
    ensures
        r == (if b != 0 {
            Some(a / b)
        } else {
            None::<u128>
        }),
{
    num_traits::CheckedDiv::checked_div(&a, &b)
}

impl Integer for u128 {
    open spec fn as_int(self) -> int {
        self as int
    }

    open spec fn from_int(i: int) -> u128 {
        i as u128
    }

    open spec fn lowest() -> int {
        u128::MIN as int
    }

    open spec fn highest() -> int {
        u128::MAX as int
    }

    proof fn lemma_as_int(self) {
    }

    proof fn lemma_from_int(i: int) {
    }

    proof fn lemma_eq(a: Self, b: Self) {
    }
}

impl CheckedAdd for u128 {
    fn checked_add(&self, v: &u128) -> (r: Option<u128>) {
        add_u128(*self, *v)
    }
}

impl CheckedSub for u128 {
    fn checked_sub(&self, v: &u128) -> (r: Option<u128>) {
        sub_u128(*self, *v)
    }
}

impl CheckedMul for u128 {
    fn checked_mul(&self, v: &u128) -> (r: Option<u128>) {
        mul_u128(*self, *v)
    }
}

impl CheckedDiv for u128 {
    fn checked_div(&self, v: &u128) -> (r: Option<u128>) {
        proof {
            if *v != 0 {
                lemma_quotient_of_naturals(*self as int, *v as int);
            }
        }
        div_u128(*self, *v)
    }
}

/// `num_traits::CheckedAdd::checked_add` on `usize`: the sum where it is at
/// most `usize::MAX`, else `None`.
#[verifier::external_body]
fn add_usize(a: usize, b: usize) -> (r: Option<usize>)
    ensures
        r == (if a + b <= usize::MAX {
            Some((a + b) as usize)
        } else {
            None::<usize>
        }),
{
    num_traits::CheckedAdd::checked_add(&a, &b)
}

/// `num_traits::CheckedSub::checked_sub` on `usize`: the difference where
/// it is not negative, else `None`.
#[verifier::external_body]
fn sub_usize(a: usize, b: usize) -> (r: Option<usize>)
    ensures
        r == (if a - b >= 0 {
            Some((a - b) as usize)
        } else {
            None::<usize>
        }),
{
    num_traits::CheckedSub::checked_sub(&a, &b)
}

/// `num_traits::CheckedMul::checked_mul` on `usize`: the product where it
/// is at most `usize::MAX`, else `None`.
#[verifier::external_body]
fn mul_usize(a: usize, b: usize) -> (r: Option<usize>)
    ensures
        r == (if a * b <= usize::MAX {
            Some((a * b) as usize)
        } else {
            None::<usize>
        }),
{
    num_traits::CheckedMul::checked_mul(&a, &b)
}

/// `num_traits::CheckedDiv::checked_div` on `usize`: the quotient rounded
/// down where the divisor is not zero, else `None`.
#[verifier::external_body]
fn div_usize(a: usize, b: usize) -> (r: Option<usize>)
    ensures
        r == (if b != 0 {
            Some(a / b)
        } else {
            None::<usize>
        }),
{
    num_traits::CheckedDiv::checked_div(&a, &b)
}

impl Integer for usize {
    open spec fn as_int(self) -> int {
        self as int
    }

    open spec fn from_int(i: int) -> usize {
        i as usize
    }

    open spec fn lowest() -> int {
        usize::MIN as int
    }

    open spec fn highest() -> int {
        usize::MAX as int
    }

    proof fn lemma_as_int(self) {
    }

    proof fn lemma_from_int(i: int) {
    }

    proof fn lemma_eq(a: Self, b: Self) {
    }
}

impl CheckedAdd for usize {
    fn checked_add(&self, v: &usize) -> (r: Option<usize>) {
        add_usize(*self, *v)
    }
}

impl CheckedSub for usize {
    fn checked_sub(&self, v: &usize) -> (r: Option<usize>) {
        sub_usize(*self, *v)
    }
}

impl CheckedMul for usize {
    fn checked_mul(&self, v: &usize) -> (r: Option<usize>) {
        mul_usize(*self, *v)
    }
}

impl CheckedDiv for usize {
    fn checked_div(&self, v: &usize) -> (r: Option<usize>) {
        proof {
            if *v != 0 {
                lemma_quotient_of_naturals(*self as int, *v as int);
            }
        }
        div_usize(*self, *v)
    }
}

} // verus!
