//! Laws that relate the operations to one another.

use crate::error::Failure;
use crate::model::{checked_difference, checked_product, checked_quotient, checked_sum};
use vstd::prelude::*;

verus! {

/// Each operation has a neutral second operand, on which it always succeeds
/// and returns the first unchanged: zero for addition and subtraction, one
/// for multiplication and division.
pub proof fn lemma_neutral_operands(a: u128, context: Seq<char>)
    ensures
        checked_sum(a, 0) == Ok::<u128, Failure>(a),
        checked_difference(a, 0, context) == Ok::<u128, Failure>(a),
        checked_product(a, 1) == Ok::<u128, Failure>(a),
        checked_quotient(a, 1, context) == Ok::<u128, Failure>(a),
{
}

} // verus!
