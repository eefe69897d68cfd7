//! Pine Script support: the lexer, the parser and its syntax tree, and runtime
//! error types.

pub mod ast;
pub mod lexer;
pub mod parser;
pub mod types;

pub use ast::{BinaryOp, BuiltinVar, Expr, Program, Stmt, UnaryOp};
pub use lexer::{Lexer, Token, TokenKind};
pub use parser::{ParseError, Parser, extract_name, extract_overlay};
pub use types::{RuntimeError, TradeDirection};
