//! Factorials as arbitrary-precision integers.
use num::BigUint;
use vstd::prelude::*;

verus! {

#[verifier::external_type_specification]
#[verifier::external_body]
pub struct ExBigUint(num::BigUint);

/// The number that a `BigUint` holds.
pub uninterp spec fn big_value(number: BigUint) -> nat;

/// Wraps `<BigUint as From<u32>>::from`: the same number.
#[verifier::external_body]
fn big_from_u32(number: u32) -> (big: BigUint)
    ensures
        big_value(big) == number,
{
    BigUint::from(number)
}

/// Wraps `<u32 as Mul<BigUint>>::mul`: the exact product.
#[verifier::external_body]
fn big_mul_u32(factor: u32, big: BigUint) -> (product: BigUint)
    ensures
        big_value(product) == factor * big_value(big),
{
    factor * big
}

/// `n!`, with `0! == 1! == 1`.
pub open spec fn factorial_of(n: nat) -> nat
    decreases n,
{
    if n < 2 {
        1
    } else {
        n * factorial_of((n - 1) as nat)
    }
}

/// `number!`.
pub fn factorial(number: u32) -> (result: BigUint)
    ensures
        big_value(result) == factorial_of(number as nat),
    decreases number,
{
    let big_1 = big_from_u32(1);
    let big_2: u32 = 2;
    if number < big_2 {
        big_1
    } else {
        let prev_factorial = factorial(number - 1);
        big_mul_u32(number, prev_factorial)
    }
}

/// Each factorial from `2!` on is its number times the factorial before it.
pub proof fn law_factorial_step(n: nat)
    requires
        n >= 2,
    ensures
        factorial_of(n) == n * factorial_of((n - 1) as nat),
{
}

} // verus!
