//! What each operation returns, stated over mathematical integers.

use crate::error::{Failure, MathError, Operation};
use vstd::prelude::*;

verus! {

/// The result of an operation with the label of its error, if any, read as
/// a sequence of characters.
pub open spec fn outcome(r: Result<u128, MathError>) -> Result<u128, Failure> {
    match r {
        Ok(value) => Ok(value),
        Err(e) => Err(e@),
    }
}

/// `a + b` where it fits in 128 bits, an overflow of the addition otherwise.
pub open spec fn checked_sum(a: u128, b: u128) -> Result<u128, Failure> {
    if a + b <= u128::MAX {
        Ok((a + b) as u128)
    } else {
        Err(Failure::Overflow(Operation::Addition))
    }
}

/// `a - b` where it is not negative, an underflow with `context` otherwise.
pub open spec fn checked_difference(a: u128, b: u128, context: Seq<char>) -> Result<
    u128,
    Failure,
> {
    if b <= a {
        Ok((a - b) as u128)
    } else {
        Err(Failure::Underflow(context))
    }
}

/// `a * b` where it fits in 128 bits, an overflow of the multiplication
/// otherwise.
pub open spec fn checked_product(a: u128, b: u128) -> Result<u128, Failure> {
    if a * b <= u128::MAX {
        Ok((a * b) as u128)
    } else {
        Err(Failure::Overflow(Operation::Multiplication))
    }
}

/// The quotient of `a` by `b`, rounded toward zero, where `b` is not zero;
/// a division by zero with `context` otherwise.
pub open spec fn checked_quotient(a: u128, b: u128, context: Seq<char>) -> Result<
    u128,
    Failure,
> {
    if b != 0 {
        Ok((a as int / b as int) as u128)
    } else {
        Err(Failure::DivideByZero(context))
    }
}

/// The label that `SafeMath::sub` attaches to an underflow.
pub open spec fn subtraction_label() -> Seq<char> {
    "SafeMath: subtraction overflow"@
}

/// The label that `SafeMath::div` attaches to a division by zero.
pub open spec fn division_label() -> Seq<char> {
    "SafeMath: division by zero"@
}

} // verus!
