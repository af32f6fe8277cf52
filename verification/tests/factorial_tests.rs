use num::BigUint;
use pocs::factorial::factorial;

#[test]
fn test_factorial() {
    assert_eq!(factorial(0), 1u32.into());
    assert_eq!(factorial(1), 1u32.into());
    assert_eq!(factorial(2), 2u32.into());
    assert_eq!(factorial(3), 6u32.into());
    assert_eq!(factorial(10), 3628800u32.into());
}

#[test]
fn factorial_step_from_nineteen_to_twenty() {
    let twenty = factorial(20);
    let nineteen = factorial(19);
    assert_eq!(twenty, nineteen * BigUint::from(20u32));
    assert_eq!(factorial(20), BigUint::from(2432902008176640000u64));
}
