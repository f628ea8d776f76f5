use safe_math::{MathError, Operation, SafeMath};

#[test]
fn overflow_messages_name_the_operation() {
    let e = SafeMath::add(u128::MAX, 1).unwrap_err();
    assert_eq!(e.message(), "SafeMath: addition overflow");
    let e = SafeMath::mul(u128::MAX, 2).unwrap_err();
    assert_eq!(e.message(), "SafeMath: multiplication overflow");
}

#[test]
fn underflow_message_holds_the_label() {
    let e = SafeMath::sub(3, 10).unwrap_err();
    assert_eq!(e.message(), "Panic-ADA: SafeMath: subtraction overflow");
    let e = SafeMath::sub_sub(3, 10, "balance".to_string()).unwrap_err();
    assert_eq!(e.message(), "Panic-ADA: balance");
}

#[test]
fn divide_by_zero_message_holds_the_label() {
    let e = SafeMath::div(5, 0).unwrap_err();
    assert_eq!(e.message(), "Panic-ADA: SafeMath: division by zero");
    let e = SafeMath::div_div(5, 0, String::new()).unwrap_err();
    assert_eq!(e.message(), "Panic-ADA: ");
}

#[test]
fn errors_differ_by_kind_operation_and_label() {
    let add = MathError::Overflow { operation: Operation::Addition };
    let mul = MathError::Overflow { operation: Operation::Multiplication };
    let under = MathError::Underflow { context: "x".to_string() };
    let zero = MathError::DivideByZero { context: "x".to_string() };
    assert_ne!(add, mul);
    assert_ne!(under, zero);
    assert_ne!(under, MathError::Underflow { context: "y".to_string() });
    assert_eq!(zero, MathError::DivideByZero { context: "x".to_string() });
}

#[test]
fn a_clone_equals_its_source() {
    let errors = [
        MathError::Overflow { operation: Operation::Addition },
        MathError::Overflow { operation: Operation::Multiplication },
        MathError::Underflow { context: "balance".to_string() },
        MathError::DivideByZero { context: "shares".to_string() },
    ];
    for e in errors.iter() {
        assert_eq!(&e.clone(), e);
        assert_eq!(e.clone().message(), e.message());
    }
}
