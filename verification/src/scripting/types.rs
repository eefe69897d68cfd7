//! Pine Script runtime errors and trade directions.
use crate::text::push_str;
use vstd::prelude::*;

verus! {

/// Runtime error types
#[derive(Debug, Clone)]
pub enum RuntimeError {
    UndefinedVariable(String),
    TypeError(String),
    DivisionByZero,
    IndexOutOfBounds,
    FunctionNotFound(String),
    InvalidArguments(String),
}

impl RuntimeError {
    /// The message shown for this error.
    pub open spec fn spec_message(&self) -> Seq<char> {
        match self {
            RuntimeError::UndefinedVariable(name) => "Undefined variable: "@ + name@,
            RuntimeError::TypeError(msg) => "Type error: "@ + msg@,
            RuntimeError::DivisionByZero => "Division by zero"@,
            RuntimeError::IndexOutOfBounds => "Index out of bounds"@,
            RuntimeError::FunctionNotFound(name) => "Function not found: "@ + name@,
            RuntimeError::InvalidArguments(msg) => "Invalid arguments: "@ + msg@,
        }
    }

    /// The message shown for this error.
    pub fn to_string(&self) -> (r: String)
        ensures
            r@ == self.spec_message(),
    {
        let (prefix, detail) = match self {
            RuntimeError::UndefinedVariable(name) => ("Undefined variable: ", name.as_str()),
            RuntimeError::TypeError(msg) => ("Type error: ", msg.as_str()),
            RuntimeError::DivisionByZero => ("Division by zero", ""),
            RuntimeError::IndexOutOfBounds => ("Index out of bounds", ""),
            RuntimeError::FunctionNotFound(name) => ("Function not found: ", name.as_str()),
            RuntimeError::InvalidArguments(msg) => ("Invalid arguments: ", msg.as_str()),
        };
        proof {
            reveal_strlit("");
            assert(""@ =~= Seq::<char>::empty());
        }
        let mut r = prefix.to_owned();
        push_str(&mut r, detail);
        r
    }
}

/// Trade direction for strategy
#[derive(Debug, Clone, Copy, PartialEq, Eq, Hash, Structural)]
pub enum TradeDirection {
    Long,
    Short,
}

} // verus!
