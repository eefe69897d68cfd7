use egui_charts::scripting::{BinaryOp, BuiltinVar, RuntimeError, UnaryOp};

#[test]
fn test_builtin_var_display() {
    assert_eq!(BuiltinVar::Close.to_string(), "close");
    assert_eq!(BuiltinVar::Volume.to_string(), "volume");
}

#[test]
fn test_binary_op_display() {
    assert_eq!(BinaryOp::Add.to_string(), "+");
    assert_eq!(BinaryOp::Equal.to_string(), "==");
}

#[test]
fn operator_and_error_text() {
    assert_eq!(BinaryOp::GreaterEqual.symbol(), ">=");
    assert_eq!(BinaryOp::And.to_string(), "and");
    assert_eq!(UnaryOp::Not.to_string(), "not");
    assert_eq!(
        RuntimeError::UndefinedVariable("x".to_string()).to_string(),
        "Undefined variable: x"
    );
    assert_eq!(RuntimeError::DivisionByZero.to_string(), "Division by zero");
}
