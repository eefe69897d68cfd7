//! Abstract syntax tree for Pine Script: programs, statements, expressions,
//! operators and built-in variables.
//!
//! Numeric literals and series offsets keep the text that was written; the
//! interpreter reads their value.
use vstd::prelude::*;

verus! {

/// Built-in variables in Pine Script
#[derive(Debug, Clone, Copy, PartialEq, Eq, Hash, Structural)]
pub enum BuiltinVar {
    Open,
    High,
    Low,
    Close,
    Volume,
    Time,
}

impl BuiltinVar {
    pub open spec fn spec_name(self) -> Seq<char> {
        match self {
            BuiltinVar::Open => "open"@,
            BuiltinVar::High => "high"@,
            BuiltinVar::Low => "low"@,
            BuiltinVar::Close => "close"@,
            BuiltinVar::Volume => "volume"@,
            BuiltinVar::Time => "time"@,
        }
    }

    /// Script name of the built-in variable.
    pub fn name(&self) -> (r: &'static str)
        ensures
            r@ == self.spec_name(),
    {
        match self {
            BuiltinVar::Open => "open",
            BuiltinVar::High => "high",
            BuiltinVar::Low => "low",
            BuiltinVar::Close => "close",
            BuiltinVar::Volume => "volume",
            BuiltinVar::Time => "time",
        }
    }

    /// Text shown when this value is displayed.
    pub fn to_string(&self) -> (r: String)
        ensures
            r@ == self.spec_name(),
    {
        self.name().to_owned()
    }
}

/// Binary operators
#[derive(Debug, Clone, Copy, PartialEq, Eq, Hash, Structural)]
pub enum BinaryOp {
    Add,
    Subtract,
    Multiply,
    Divide,
    Modulo,
    Equal,
    NotEqual,
    Less,
    LessEqual,
    Greater,
    GreaterEqual,
    And,
    Or,
}

impl BinaryOp {
    pub open spec fn spec_symbol(self) -> Seq<char> {
        match self {
            BinaryOp::Add => "+"@,
            BinaryOp::Subtract => "-"@,
            BinaryOp::Multiply => "*"@,
            BinaryOp::Divide => "/"@,
            BinaryOp::Modulo => "%"@,
            BinaryOp::Equal => "=="@,
            BinaryOp::NotEqual => "!="@,
            BinaryOp::Less => "<"@,
            BinaryOp::LessEqual => "<="@,
            BinaryOp::Greater => ">"@,
            BinaryOp::GreaterEqual => ">="@,
            BinaryOp::And => "and"@,
            BinaryOp::Or => "or"@,
        }
    }

    /// Source text of the operator.
    pub fn symbol(&self) -> (r: &'static str)
        ensures
            r@ == self.spec_symbol(),
    {
        match self {
            BinaryOp::Add => "+",
            BinaryOp::Subtract => "-",
            BinaryOp::Multiply => "*",
            BinaryOp::Divide => "/",
            BinaryOp::Modulo => "%",
            BinaryOp::Equal => "==",
            BinaryOp::NotEqual => "!=",
            BinaryOp::Less => "<",
            BinaryOp::LessEqual => "<=",
            BinaryOp::Greater => ">",
            BinaryOp::GreaterEqual => ">=",
            BinaryOp::And => "and",
            BinaryOp::Or => "or",
        }
    }

    /// Text shown when this value is displayed.
    pub fn to_string(&self) -> (r: String)
        ensures
            r@ == self.spec_symbol(),
    {
        self.symbol().to_owned()
    }
}

/// Unary operators
#[derive(Debug, Clone, Copy, PartialEq, Eq, Hash, Structural)]
pub enum UnaryOp {
    Negate,
    Not,
}

impl UnaryOp {
    pub open spec fn spec_symbol(self) -> Seq<char> {
        match self {
            UnaryOp::Negate => "-"@,
            UnaryOp::Not => "not"@,
        }
    }

    /// Source text of the operator.
    pub fn symbol(&self) -> (r: &'static str)
        ensures
            r@ == self.spec_symbol(),
    {
        match self {
            UnaryOp::Negate => "-",
            UnaryOp::Not => "not",
        }
    }

    /// Text shown when this value is displayed.
    pub fn to_string(&self) -> (r: String)
        ensures
            r@ == self.spec_symbol(),
    {
        self.symbol().to_owned()
    }
}


/// Pine Script program - collection of statements
#[derive(Debug)]
pub struct Program {
    pub statements: Vec<Stmt>,
}

impl Program {
    /// An empty program.
    pub fn new() -> (r: Self)
        ensures
            r.statements@.len() == 0,
    {
        Program { statements: Vec::new() }
    }
}

impl Default for Program {
    fn default() -> (r: Self)
        ensures
            r.statements@.len() == 0,
    {
        Self::new()
    }
}

/// Statement types in Pine Script
#[derive(Debug)]
pub enum Stmt {
    /// Variable declaration: var x = expr
    VarDeclaration {
        name: String,
        value: Box<Expr>,
        /// varip for intrabar persistence
        is_varip: bool,
    },
    /// Assignment: x = expr OR x := expr (reassignment)
    Assignment { name: String, value: Box<Expr> },
    /// Expression statement
    Expression(Expr),
    /// If statement: if condition ... else ...
    If { condition: Box<Expr>, then_branch: Vec<Stmt>, else_branch: Option<Vec<Stmt>> },
    /// For loop: for i = start to end ...
    For { variable: String, start: Box<Expr>, end: Box<Expr>, body: Vec<Stmt> },
    /// While loop: while condition ...
    While { condition: Box<Expr>, body: Vec<Stmt> },
}

/// Expression types in Pine Script
#[derive(Debug)]
pub enum Expr {
    /// Numeric literal, as written
    Number(String),
    /// String literal
    StringLiteral(String),
    /// Boolean literal
    Boolean(bool),
    /// Variable reference
    Variable(String),
    /// Built-in variable (open, high, low, close, volume, time)
    BuiltinVariable(BuiltinVar),
    /// Binary operation
    Binary { left: Box<Expr>, op: BinaryOp, right: Box<Expr> },
    /// Unary operation
    Unary { op: UnaryOp, expr: Box<Expr> },
    /// Function call
    FunctionCall { name: String, args: Vec<Expr> },
    /// Method call (e.g., ta.sma)
    MethodCall { namespace: String, method: String, args: Vec<Expr> },
    /// Ternary operator: condition ? true_expr : false_expr
    Ternary { condition: Box<Expr>, then_expr: Box<Expr>, else_expr: Box<Expr> },
    /// Array access: `array[index]`
    ArrayAccess { array: Box<Expr>, index: Box<Expr> },
    /// Series offset: `close[1]` (previous bar), with the offset as written
    SeriesOffset { series: Box<Expr>, offset: String },
    /// Array literal: [1, 2, 3] or array.new_float(size, initial_val)
    ArrayLiteral(Vec<Expr>),
}

/// The mathematical value of an [`Expr`]: text as character sequences.
pub enum ExprView {
    Number(Seq<char>),
    StringLiteral(Seq<char>),
    Boolean(bool),
    Variable(Seq<char>),
    BuiltinVariable(BuiltinVar),
    Binary { left: Box<ExprView>, op: BinaryOp, right: Box<ExprView> },
    Unary { op: UnaryOp, expr: Box<ExprView> },
    FunctionCall { name: Seq<char>, args: Seq<ExprView> },
    MethodCall { namespace: Seq<char>, method: Seq<char>, args: Seq<ExprView> },
    Ternary { condition: Box<ExprView>, then_expr: Box<ExprView>, else_expr: Box<ExprView> },
    ArrayAccess { array: Box<ExprView>, index: Box<ExprView> },
    SeriesOffset { series: Box<ExprView>, offset: Seq<char> },
    ArrayLiteral(Seq<ExprView>),
}

/// The mathematical value of a [`Stmt`].
pub enum StmtView {
    VarDeclaration { name: Seq<char>, value: ExprView, is_varip: bool },
    Assignment { name: Seq<char>, value: ExprView },
    Expression(ExprView),
    If { condition: ExprView, then_branch: Seq<StmtView>, else_branch: Option<Seq<StmtView>> },
    For { variable: Seq<char>, start: ExprView, end: ExprView, body: Seq<StmtView> },
    While { condition: ExprView, body: Seq<StmtView> },
}

/// View of an expression.
pub open spec fn expr_view(e: Expr) -> ExprView
    decreases e,
{
    match e {
        Expr::Number(s) => ExprView::Number(s@),
        Expr::StringLiteral(s) => ExprView::StringLiteral(s@),
        Expr::Boolean(b) => ExprView::Boolean(b),
        Expr::Variable(s) => ExprView::Variable(s@),
        Expr::BuiltinVariable(v) => ExprView::BuiltinVariable(v),
        Expr::Binary { left, op, right } => ExprView::Binary {
            left: Box::new(expr_view(*left)),
            op,
            right: Box::new(expr_view(*right)),
        },
        Expr::Unary { op, expr } => ExprView::Unary { op, expr: Box::new(expr_view(*expr)) },
        Expr::FunctionCall { name, args } => ExprView::FunctionCall {
            name: name@,
            args: exprs_view(args@),
        },
        Expr::MethodCall { namespace, method, args } => ExprView::MethodCall {
            namespace: namespace@,
            method: method@,
            args: exprs_view(args@),
        },
        Expr::Ternary { condition, then_expr, else_expr } => ExprView::Ternary {
            condition: Box::new(expr_view(*condition)),
            then_expr: Box::new(expr_view(*then_expr)),
            else_expr: Box::new(expr_view(*else_expr)),
        },
        Expr::ArrayAccess { array, index } => ExprView::ArrayAccess {
            array: Box::new(expr_view(*array)),
            index: Box::new(expr_view(*index)),
        },
        Expr::SeriesOffset { series, offset } => ExprView::SeriesOffset {
            series: Box::new(expr_view(*series)),
            offset: offset@,
        },
        Expr::ArrayLiteral(items) => ExprView::ArrayLiteral(exprs_view(items@)),
    }
}

/// Views of a sequence of expressions.
pub open spec fn exprs_view(s: Seq<Expr>) -> Seq<ExprView>
    decreases s,
{
    if s.len() == 0 {
        Seq::empty()
    } else {
        exprs_view(s.drop_last()).push(expr_view(s.last()))
    }
}

/// View of a statement.
pub open spec fn stmt_view(st: Stmt) -> StmtView
    decreases st,
{
    match st {
        Stmt::VarDeclaration { name, value, is_varip } => StmtView::VarDeclaration {
            name: name@,
            value: expr_view(*value),
            is_varip,
        },
        Stmt::Assignment { name, value } => StmtView::Assignment {
            name: name@,
            value: expr_view(*value),
        },
        Stmt::Expression(e) => StmtView::Expression(expr_view(e)),
        Stmt::If { condition, then_branch, else_branch } => StmtView::If {
            condition: expr_view(*condition),
            then_branch: stmts_view(then_branch@),
            else_branch: match else_branch {
                Some(b) => Some(stmts_view(b@)),
                None => None,
            },
        },
        Stmt::For { variable, start, end, body } => StmtView::For {
            variable: variable@,
            start: expr_view(*start),
            end: expr_view(*end),
            body: stmts_view(body@),
        },
        Stmt::While { condition, body } => StmtView::While {
            condition: expr_view(*condition),
            body: stmts_view(body@),
        },
    }
}

/// Views of a sequence of statements.
pub open spec fn stmts_view(s: Seq<Stmt>) -> Seq<StmtView>
    decreases s,
{
    if s.len() == 0 {
        Seq::empty()
    } else {
        stmts_view(s.drop_last()).push(stmt_view(s.last()))
    }
}

} // verus!
