//! The ways in which a checked operation can fail.

use vstd::prelude::*;

verus! {

/// The operations whose result can exceed the 128-bit domain.
#[derive(Clone, Copy, Debug, PartialEq, Eq, Structural)]
pub enum Operation {
    Addition,
    Multiplication,
}

/// Why an operation produced no result.
#[derive(Debug, PartialEq, Eq)]
pub enum MathError {
    /// The exact sum or product needs more than 128 bits.
    Overflow { operation: Operation },
    /// The subtrahend exceeds the minuend. `context` is the caller's label.
    Underflow { context: String },
    /// The divisor is zero. `context` is the caller's label.
    DivideByZero { context: String },
}

/// A `MathError` with each label read as the sequence of its characters.
pub enum Failure {
    Overflow(Operation),
    Underflow(Seq<char>),
    DivideByZero(Seq<char>),
}

impl Failure {
    /// The text that describes the failure: for an overflow the name of the
    /// operation, for the others the caller's label behind a fixed prefix.
    pub open spec fn message(self) -> Seq<char> {
        match self {
            Failure::Overflow(Operation::Addition) => "SafeMath: addition overflow"@,
            Failure::Overflow(Operation::Multiplication) => "SafeMath: multiplication overflow"@,
            Failure::Underflow(context) => "Panic-ADA: "@ + context,
            Failure::DivideByZero(context) => "Panic-ADA: "@ + context,
        }
    }
}

impl Clone for MathError {
    fn clone(&self) -> (copy: Self)
        ensures
            copy == *self,
    {
        match self {
            MathError::Overflow { operation } => MathError::Overflow { operation: *operation },
            MathError::Underflow { context } => MathError::Underflow { context: context.clone() },
            MathError::DivideByZero { context } => MathError::DivideByZero {
                context: context.clone(),
            },
        }
    }
}

impl MathError {
    /// The text that describes the failure, as `Failure::message` defines it.
    pub fn message(&self) -> (text: String)
        ensures
            text@ == self@.message(),
    {
        match self {
            MathError::Overflow { operation: Operation::Addition } => String::from_str(
                "SafeMath: addition overflow",
            ),
            MathError::Overflow { operation: Operation::Multiplication } => String::from_str(
                "SafeMath: multiplication overflow",
            ),
            MathError::Underflow { context } => String::from_str("Panic-ADA: ").concat(
                context.as_str(),
            ),
            MathError::DivideByZero { context } => String::from_str("Panic-ADA: ").concat(
                context.as_str(),
            ),
        }
    }
}

impl View for MathError {
    type V = Failure;

    open spec fn view(&self) -> Failure {
        match *self {
            MathError::Overflow { operation } => Failure::Overflow(operation),
            MathError::Underflow { context } => Failure::Underflow(context@),
            MathError::DivideByZero { context } => Failure::DivideByZero(context@),
        }
    }
}

} // verus!
