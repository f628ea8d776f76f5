//! The four checked operations.

use crate::error::{MathError, Operation};
use crate::model::{
    checked_difference, checked_product, checked_quotient, checked_sum, division_label, outcome,
    subtraction_label,
};
use vstd::prelude::*;

verus! {

/// Namespace of the checked operations.
pub struct SafeMath;

impl SafeMath {
    /// Adds `b` to `a`. Fails with an overflow exactly when the sum needs
    /// more than 128 bits.
    pub fn add(a: u128, b: u128) -> (r: Result<u128, MathError>)
        ensures
            outcome(r) == checked_sum(a, b),
    {
        let c: u128 = a.wrapping_add(b);
        if c < a {
            return Err(MathError::Overflow { operation: Operation::Addition });
        }
        Ok(c)
    }

    /// Subtracts `b` from `a`, with the standard label on failure. Fails with
    /// an underflow exactly when `b` exceeds `a`.
    pub fn sub(a: u128, b: u128) -> (r: Result<u128, MathError>)
        ensures
            outcome(r) == checked_difference(a, b, subtraction_label()),
    {
        SafeMath::sub_sub(a, b, String::from_str("SafeMath: subtraction overflow"))
    }

    /// Subtracts `b` from `a`. Fails with an underflow that carries `error`
    /// exactly when `b` exceeds `a`.
    pub fn sub_sub(a: u128, b: u128, error: String) -> (r: Result<u128, MathError>)
        ensures
            outcome(r) == checked_difference(a, b, error@),
    {
        if b > a {
            return Err(MathError::Underflow { context: error });
        }
        let c: u128 = a - b;
        Ok(c)
    }

    /// Multiplies `a` by `b`. Fails with an overflow exactly when the product
    /// needs more than 128 bits. A zero `a` gives zero at once.
    pub fn mul(a: u128, b: u128) -> (r: Result<u128, MathError>)
        ensures
            outcome(r) == checked_product(a, b),
            a == 0 ==> r == Ok::<u128, MathError>(0),
    {
        if a == 0 {
            return Ok(0);
        }
        let c: u128 = a.wrapping_mul(b);
        proof {
            lemma_wrapped_product(a, b);
        }
        if c / a != b {
            return Err(MathError::Overflow { operation: Operation::Multiplication });
        }
        Ok(c)
    }

    /// Divides `a` by `b`, with the standard label on failure. Fails with a
    /// division by zero exactly when `b` is zero.
    pub fn div(a: u128, b: u128) -> (r: Result<u128, MathError>)
        ensures
            outcome(r) == checked_quotient(a, b, division_label()),
    {
        SafeMath::div_div(a, b, String::from_str("SafeMath: division by zero"))
    }

    /// Divides `a` by `b`, rounding toward zero. Fails with a division by
    /// zero that carries `error` exactly when `b` is zero.
    pub fn div_div(a: u128, b: u128, error: String) -> (r: Result<u128, MathError>)
        ensures
            outcome(r) == checked_quotient(a, b, error@),
    {
        if b == 0 {
            return Err(MathError::DivideByZero { context: error });
        }
        let c: u128 = a / b;
        Ok(c)
    }
}

/// The product of a nonzero `a` and `b`, reduced to 128 bits, divided by `a`
/// gives `b` back exactly when nothing was lost in the reduction.
pub proof fn lemma_wrapped_product(a: u128, b: u128)
    requires
        a != 0,
    ensures
        a * b <= u128::MAX ==> a.wrapping_mul(b) == a * b,
        (a.wrapping_mul(b) / a == b) <==> a * b <= u128::MAX,
{
    let p: int = a * b;
    let w: int = a.wrapping_mul(b) as int;
    assert(0 <= p) by (nonlinear_arith)
        requires
            p == a * b,
    ;
    if p <= u128::MAX {
        assert(p / (a as int) == b) by (nonlinear_arith)
            requires
                p == a * b,
                a > 0,
        ;
    } else {
        assert(w / (a as int) != b) by (nonlinear_arith)
            requires
                w < a * b,
                0 <= w,
                a > 0,
        ;
    }
}

} // verus!
