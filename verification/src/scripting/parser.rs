//! Pine Script parser - converts tokens into a syntax tree.
//!
//! The grammar is recursive descent with the usual precedence levels, from
//! loosest to tightest: ternary `?:`, `or`, `and`, equality, comparison,
//! addition, multiplication, unary prefix, postfix (`[index]`, `.method(..)`)
//! and primary expressions. Its meaning is given by the `sp_*` spec functions
//! below, which work on the views of the tokens and return the parsed value
//! together with the position of the first token after it.
use super::ast::{
    BinaryOp, BuiltinVar, Expr, ExprView, Program, Stmt, StmtView, UnaryOp, expr_view,
    exprs_view, stmt_view, stmts_view,
};
use super::lexer::{
    Lexer, Token, TokenKind, TokenKindView, TokenView, ident_end, kind_text, next_token_from, word_kind,
};
use crate::text::{decimal, push_str, u64_to_string};
use vstd::prelude::*;

verus! {

/// Errors reported by the [`Parser`].
#[derive(Debug, Clone)]
pub enum ParseError {
    UnexpectedToken { expected: String, found: TokenKind, line: usize, column: usize },
    UnexpectedEof,
    InvalidSyntax(String),
}

/// The mathematical value of a [`ParseError`].
pub enum ParseErrorView {
    UnexpectedToken { expected: Seq<char>, found: TokenKindView, line: int, column: int },
    UnexpectedEof,
    InvalidSyntax(Seq<char>),
}

impl View for ParseError {
    type V = ParseErrorView;

    open spec fn view(&self) -> ParseErrorView {
        match self {
            ParseError::UnexpectedToken { expected, found, line, column } => {
                ParseErrorView::UnexpectedToken {
                    expected: expected@,
                    found: found@,
                    line: *line as int,
                    column: *column as int,
                }
            },
            ParseError::UnexpectedEof => ParseErrorView::UnexpectedEof,
            ParseError::InvalidSyntax(m) => ParseErrorView::InvalidSyntax(m@),
        }
    }
}

/// Text shown when a parse error is displayed.
pub open spec fn error_text(e: ParseErrorView) -> Seq<char> {
    match e {
        ParseErrorView::UnexpectedToken { expected, found, line, column } => "Parse error at "@
            + decimal(line as nat) + ":"@ + decimal(column as nat) + ": expected "@ + expected
            + ", found "@ + kind_text(found),
        ParseErrorView::UnexpectedEof => "Unexpected end of file"@,
        ParseErrorView::InvalidSyntax(msg) => "Invalid syntax: "@ + msg,
    }
}

impl ParseError {
    /// Text shown when this error is displayed.
    pub fn to_string(&self) -> (r: String)
        ensures
            r@ == error_text(self@),
    {
        match self {
            ParseError::UnexpectedToken { expected, found, line, column } => {
                let mut r = "Parse error at ".to_owned();
                let l = u64_to_string(*line as u64);
                push_str(&mut r, l.as_str());
                push_str(&mut r, ":");
                let c = u64_to_string(*column as u64);
                push_str(&mut r, c.as_str());
                push_str(&mut r, ": expected ");
                push_str(&mut r, expected.as_str());
                push_str(&mut r, ", found ");
                let f = found.to_string();
                push_str(&mut r, f.as_str());
                r
            },
            ParseError::UnexpectedEof => "Unexpected end of file".to_owned(),
            ParseError::InvalidSyntax(msg) => {
                let mut r = "Invalid syntax: ".to_owned();
                push_str(&mut r, msg.as_str());
                r
            },
        }
    }
}

/// Whether a token sequence is what the lexer produces: non-empty, ending with
/// the only end-of-file token.
pub open spec fn tokens_wf(t: Seq<TokenView>) -> bool {
    &&& t.len() >= 1
    &&& t.last().kind is Eof
    &&& forall|i: int| 0 <= i < t.len() - 1 ==> !(#[trigger] t[i].kind is Eof)
}

pub open spec fn valid(t: Seq<TokenView>, p: int) -> bool {
    0 <= p < t.len()
}

/// Whether a parse that started at `p` and ended at `q` stayed within the tokens.
///
/// The spec parser tests this after each sub-parse so that its own recursion
/// visibly terminates. Every sub-parse does stay within the tokens (the
/// executable parser proves as much), so the error branch taken when the test
/// fails is never reached on real input.
pub open spec fn moved(t: Seq<TokenView>, p: int, q: int) -> bool {
    p <= q <= t.len()
}

/// Whether the token at `p` has the given kind.
pub open spec fn at(t: Seq<TokenView>, p: int, k: TokenKindView) -> bool {
    valid(t, p) && t[p].kind == k
}

/// The error for an unexpected token at `p`.
pub open spec fn unexpected(t: Seq<TokenView>, p: int, expected: Seq<char>) -> ParseErrorView {
    ParseErrorView::UnexpectedToken {
        expected,
        found: t[p].kind,
        line: t[p].line,
        column: t[p].column,
    }
}

/// Debug name of the punctuation kinds that the parser expects by kind.
pub open spec fn simple_kind_name(k: TokenKindView) -> Seq<char> {
    match k {
        TokenKindView::Equal => "Equal"@,
        TokenKindView::Colon => "Colon"@,
        TokenKindView::RightBracket => "RightBracket"@,
        TokenKindView::RightParen => "RightParen"@,
        _ => Seq::empty(),
    }
}

/// Expect a token of kind `k` at `p`; the position after it.
pub open spec fn sp_expect(t: Seq<TokenView>, p: int, k: TokenKindView) -> Result<int, ParseErrorView> {
    if !valid(t, p) {
        Err(ParseErrorView::UnexpectedEof)
    } else if t[p].kind == k {
        Ok(p + 1)
    } else {
        Err(unexpected(t, p, simple_kind_name(k)))
    }
}

/// Expect an identifier at `p`; its name and the position after it.
pub open spec fn sp_expect_identifier(t: Seq<TokenView>, p: int) -> Result<(Seq<char>, int), ParseErrorView> {
    if !valid(t, p) {
        Err(ParseErrorView::UnexpectedEof)
    } else {
        match t[p].kind {
            TokenKindView::Identifier(name) => Ok((name, p + 1)),
            _ => Err(unexpected(t, p, "identifier"@)),
        }
    }
}

/// The position after an optional newline at `p`.
pub open spec fn skip_newline(t: Seq<TokenView>, p: int) -> int {
    if at(t, p, TokenKindView::Newline) {
        p + 1
    } else {
        p
    }
}

/// The operator of binary precedence level `level` (0: `or`, 1: `and`,
/// 2: equality, 3: comparison, 4: addition, 5: multiplication) written by `k`.
pub open spec fn level_op(level: int, k: TokenKindView) -> Option<BinaryOp> {
    match k {
        TokenKindView::Or => if level == 0 { Some(BinaryOp::Or) } else { None },
        TokenKindView::And => if level == 1 { Some(BinaryOp::And) } else { None },
        TokenKindView::EqualEqual => if level == 2 { Some(BinaryOp::Equal) } else { None },
        TokenKindView::NotEqual => if level == 2 { Some(BinaryOp::NotEqual) } else { None },
        TokenKindView::Less => if level == 3 { Some(BinaryOp::Less) } else { None },
        TokenKindView::LessEqual => if level == 3 { Some(BinaryOp::LessEqual) } else { None },
        TokenKindView::Greater => if level == 3 { Some(BinaryOp::Greater) } else { None },
        TokenKindView::GreaterEqual => if level == 3 { Some(BinaryOp::GreaterEqual) } else { None },
        TokenKindView::Plus => if level == 4 { Some(BinaryOp::Add) } else { None },
        TokenKindView::Minus => if level == 4 { Some(BinaryOp::Subtract) } else { None },
        TokenKindView::Star => if level == 5 { Some(BinaryOp::Multiply) } else { None },
        TokenKindView::Slash => if level == 5 { Some(BinaryOp::Divide) } else { None },
        TokenKindView::Percent => if level == 5 { Some(BinaryOp::Modulo) } else { None },
        _ => None,
    }
}

/// Index of the last `.` in a name, if any.
pub open spec fn last_dot(s: Seq<char>, n: int) -> Option<int>
    decreases n,
{
    if n <= 0 {
        None
    } else if s[n - 1] == '.' {
        Some(n - 1)
    } else {
        last_dot(s, n - 1)
    }
}

/// expression := ternary
pub open spec fn sp_expression(t: Seq<TokenView>, p: int) -> Result<(ExprView, int), ParseErrorView>
    decreases t.len() - p, 18int,
{
    if !valid(t, p) {
        Err(ParseErrorView::UnexpectedEof)
    } else {
        sp_ternary(t, p)
    }
}

/// ternary := or [ `?` expression `:` expression ]
pub open spec fn sp_ternary(t: Seq<TokenView>, p: int) -> Result<(ExprView, int), ParseErrorView>
    decreases t.len() - p, 17int,
{
    if !valid(t, p) {
        Err(ParseErrorView::UnexpectedEof)
    } else {
        match sp_level(t, p, 0) {
            Err(e) => Err(e),
            Ok((c, p1)) => if !moved(t, p, p1) {
                Err(ParseErrorView::UnexpectedEof)
            } else if at(t, p1, TokenKindView::Question) {
                match sp_expression(t, p1 + 1) {
                    Err(e) => Err(e),
                    Ok((a, p2)) => if !moved(t, p1 + 1, p2) {
                        Err(ParseErrorView::UnexpectedEof)
                    } else {
                        match sp_expect(t, p2, TokenKindView::Colon) {
                            Err(e) => Err(e),
                            Ok(p3) => match sp_expression(t, p3) {
                                Err(e) => Err(e),
                                Ok((b, p4)) => Ok(
                                    (
                                        ExprView::Ternary {
                                            condition: Box::new(c),
                                            then_expr: Box::new(a),
                                            else_expr: Box::new(b),
                                        },
                                        p4,
                                    ),
                                ),
                            },
                        }
                    },
                }
            } else {
                Ok((c, p1))
            },
        }
    }
}

/// The operand of binary level `level`: the next tighter level, or a unary
/// expression below multiplication.
pub open spec fn sp_operand(t: Seq<TokenView>, p: int, level: int) -> Result<(ExprView, int), ParseErrorView>
    decreases t.len() - p, 15 - 2 * (if 0 <= level <= 5 { level } else { 5 }),
{
    if !valid(t, p) {
        Err(ParseErrorView::UnexpectedEof)
    } else if 0 <= level < 5 {
        sp_level(t, p, level + 1)
    } else {
        sp_unary(t, p)
    }
}

/// level := operand { op operand }, left-associative.
pub open spec fn sp_level(t: Seq<TokenView>, p: int, level: int) -> Result<(ExprView, int), ParseErrorView>
    decreases t.len() - p, 16 - 2 * (if 0 <= level <= 5 { level } else { 5 }),
{
    if !valid(t, p) {
        Err(ParseErrorView::UnexpectedEof)
    } else {
        match sp_operand(t, p, level) {
            Err(e) => Err(e),
            Ok((l, p1)) => if !moved(t, p, p1) {
                Err(ParseErrorView::UnexpectedEof)
            } else {
                sp_level_tail(t, l, p1, level)
            },
        }
    }
}

/// The operators and operands that follow `left` at level `level` from `q`.
pub open spec fn sp_level_tail(t: Seq<TokenView>, left: ExprView, q: int, level: int) -> Result<
    (ExprView, int),
    ParseErrorView,
>
    decreases t.len() - q, 0int,
{
    if !valid(t, q) {
        Err(ParseErrorView::UnexpectedEof)
    } else {
        match level_op(level, t[q].kind) {
            None => Ok((left, q)),
            Some(op) => match sp_operand(t, q + 1, level) {
                Err(e) => Err(e),
                Ok((r, q1)) => if !moved(t, q + 1, q1) {
                    Err(ParseErrorView::UnexpectedEof)
                } else {
                    sp_level_tail(
                        t,
                        ExprView::Binary { left: Box::new(left), op, right: Box::new(r) },
                        q1,
                        level,
                    )
                },
            },
        }
    }
}

/// unary := `-` unary | `not` unary | postfix
pub open spec fn sp_unary(t: Seq<TokenView>, p: int) -> Result<(ExprView, int), ParseErrorView>
    decreases t.len() - p, 4int,
{
    if !valid(t, p) {
        Err(ParseErrorView::UnexpectedEof)
    } else {
        match t[p].kind {
            TokenKindView::Minus => match sp_unary(t, p + 1) {
                Err(e) => Err(e),
                Ok((e, p1)) => Ok((ExprView::Unary { op: UnaryOp::Negate, expr: Box::new(e) }, p1)),
            },
            TokenKindView::Not => match sp_unary(t, p + 1) {
                Err(e) => Err(e),
                Ok((e, p1)) => Ok((ExprView::Unary { op: UnaryOp::Not, expr: Box::new(e) }, p1)),
            },
            _ => sp_postfix(t, p),
        }
    }
}

/// postfix := primary { `[` expression `]` | `.` identifier `(` arguments `)` }
pub open spec fn sp_postfix(t: Seq<TokenView>, p: int) -> Result<(ExprView, int), ParseErrorView>
    decreases t.len() - p, 3int,
{
    if !valid(t, p) {
        Err(ParseErrorView::UnexpectedEof)
    } else {
        match sp_primary(t, p) {
            Err(e) => Err(e),
            Ok((e, p1)) => if !moved(t, p, p1) {
                Err(ParseErrorView::UnexpectedEof)
            } else {
                sp_postfix_tail(t, e, p1)
            },
        }
    }
}

/// The indexings and method calls that follow `e` from `q`. An index that is a
/// number literal makes a series offset.
pub open spec fn sp_postfix_tail(t: Seq<TokenView>, e: ExprView, q: int) -> Result<
    (ExprView, int),
    ParseErrorView,
>
    decreases t.len() - q, 0int,
{
    if !valid(t, q) {
        Err(ParseErrorView::UnexpectedEof)
    } else {
        match t[q].kind {
            TokenKindView::LeftBracket => match sp_expression(t, q + 1) {
                Err(err) => Err(err),
                Ok((index, q1)) => if !moved(t, q + 1, q1) {
                    Err(ParseErrorView::UnexpectedEof)
                } else {
                    match sp_expect(t, q1, TokenKindView::RightBracket) {
                        Err(err) => Err(err),
                        Ok(q2) => {
                            let next = match index {
                                ExprView::Number(n) => ExprView::SeriesOffset {
                                    series: Box::new(e),
                                    offset: n,
                                },
                                _ => ExprView::ArrayAccess {
                                    array: Box::new(e),
                                    index: Box::new(index),
                                },
                            };
                            sp_postfix_tail(t, next, q2)
                        },
                    }
                },
            },
            TokenKindView::Dot => match sp_expect_identifier(t, q + 1) {
                Err(err) => Err(err),
                Ok((method, q1)) => if at(t, q1, TokenKindView::LeftParen) {
                    match sp_arguments(t, q1 + 1) {
                        Err(err) => Err(err),
                        Ok((args, q2)) => if !moved(t, q1 + 1, q2) {
                            Err(ParseErrorView::UnexpectedEof)
                        } else {
                            match sp_expect(t, q2, TokenKindView::RightParen) {
                                Err(err) => Err(err),
                                Ok(q3) => match e {
                                    ExprView::Variable(namespace) => sp_postfix_tail(
                                        t,
                                        ExprView::MethodCall { namespace, method, args },
                                        q3,
                                    ),
                                    _ => Err(
                                        ParseErrorView::InvalidSyntax(
                                            "Method calls require a namespace"@,
                                        ),
                                    ),
                                },
                            }
                        },
                    }
                } else {
                    Err(ParseErrorView::InvalidSyntax("Property access not supported yet"@))
                },
            },
            _ => Ok((e, q)),
        }
    }
}

/// Each binary operator's own source text lexes to a single token that the
/// expression grammar reads back as that same operator, at exactly one
/// precedence level: `+` is read as addition, `<` as less-than, `and` as
/// logical and, and so on for every operator.
pub proof fn operator_symbols_read_back(op: BinaryOp, level: int, line: int, col: int)
    ensures
        ({
            let s = op.spec_symbol();
            let (tok, e, l2, c2) = next_token_from(s, 0, line, col);
            &&& e == s.len()
            &&& level_op(level, tok.kind) matches Some(o) ==> o == op
            &&& exists|lv: int| 0 <= lv <= 5 && level_op(lv, tok.kind) == Some(op)
        }),
{
    reveal_strlit("if");
    reveal_strlit("else");
    reveal_strlit("for");
    reveal_strlit("while");
    reveal_strlit("true");
    reveal_strlit("false");
    reveal_strlit("var");
    reveal_strlit("varip");
    reveal_strlit("open");
    reveal_strlit("high");
    reveal_strlit("low");
    reveal_strlit("close");
    reveal_strlit("volume");
    reveal_strlit("time");
    reveal_strlit("and");
    reveal_strlit("or");
    reveal_strlit("+");
    reveal_strlit("-");
    reveal_strlit("*");
    reveal_strlit("/");
    reveal_strlit("%");
    reveal_strlit("==");
    reveal_strlit("!=");
    reveal_strlit("<");
    reveal_strlit("<=");
    reveal_strlit(">");
    reveal_strlit(">=");
    let s = op.spec_symbol();
    assert(s.len() > 0 && !super::lexer::is_blank(s[0]));
    assert(super::lexer::blank_end(s, 0) == 0);
    let k = next_token_from(s, 0, line, col).0.kind;
    if op == BinaryOp::And || op == BinaryOp::Or {
        let w = s;
        assert(ident_end(s, s.len() as int) == s.len());
        assert(ident_end(s, s.len() - 1) == s.len());
        if op == BinaryOp::And {
            assert(ident_end(s, 1) == s.len());
        }
        assert(ident_end(s, 0) == s.len());
        assert(s.subrange(0, s.len() as int) =~= s);
        if op == BinaryOp::And {
            assert("if"@.len() == 2);
            assert(w != "if"@);
            assert("else"@.len() == 4);
            assert(w != "else"@);
            assert(w[0] == 'a' && "for"@[0] == 'f');
            assert(w != "for"@);
            assert("while"@.len() == 5);
            assert(w != "while"@);
            assert("true"@.len() == 4);
            assert(w != "true"@);
            assert("false"@.len() == 5);
            assert(w != "false"@);
            assert(w[0] == 'a' && "var"@[0] == 'v');
            assert(w != "var"@);
            assert("varip"@.len() == 5);
            assert(w != "varip"@);
            assert("open"@.len() == 4);
            assert(w != "open"@);
            assert("high"@.len() == 4);
            assert(w != "high"@);
            assert(w[0] == 'a' && "low"@[0] == 'l');
            assert(w != "low"@);
            assert("close"@.len() == 5);
            assert(w != "close"@);
            assert("volume"@.len() == 6);
            assert(w != "volume"@);
            assert("time"@.len() == 4);
            assert(w != "time"@);
            assert(word_kind(w) == TokenKindView::And);
            assert(level_op(1, k) == Some(op));
        } else {
            assert(w[0] == 'o' && "if"@[0] == 'i');
            assert(w != "if"@);
            assert("else"@.len() == 4);
            assert(w != "else"@);
            assert("for"@.len() == 3);
            assert(w != "for"@);
            assert("while"@.len() == 5);
            assert(w != "while"@);
            assert("true"@.len() == 4);
            assert(w != "true"@);
            assert("false"@.len() == 5);
            assert(w != "false"@);
            assert("var"@.len() == 3);
            assert(w != "var"@);
            assert("varip"@.len() == 5);
            assert(w != "varip"@);
            assert("open"@.len() == 4);
            assert(w != "open"@);
            assert("high"@.len() == 4);
            assert(w != "high"@);
            assert("low"@.len() == 3);
            assert(w != "low"@);
            assert("close"@.len() == 5);
            assert(w != "close"@);
            assert("volume"@.len() == 6);
            assert(w != "volume"@);
            assert("time"@.len() == 4);
            assert(w != "time"@);
            assert("and"@.len() == 3);
            assert(w != "and"@);
            assert(word_kind(w) == TokenKindView::Or);
            assert(level_op(0, k) == Some(op));
        }
    } else {
        let lv: int = match op {
            BinaryOp::Equal | BinaryOp::NotEqual => 2,
            BinaryOp::Less | BinaryOp::LessEqual | BinaryOp::Greater | BinaryOp::GreaterEqual => 3,
            BinaryOp::Add | BinaryOp::Subtract => 4,
            _ => 5,
        };
        assert(level_op(lv, k) == Some(op));
    }
}

/// A literal or a plain name read as a primary expression is the value it
/// writes, and the parse moves past its one token: a number token is that
/// number, a string token that string, the words `true` and `false` the
/// booleans true and false, and a name not followed by `(` the variable of that
/// name.
pub proof fn literal_tokens_parse_to_their_values(t: Seq<TokenView>, p: int)
    requires
        0 <= p < t.len(),
    ensures
        t[p].kind matches TokenKindView::Number(n) ==> sp_primary(t, p) == Ok::<(ExprView, int), ParseErrorView>(
            (ExprView::Number(n), p + 1),
        ),
        t[p].kind matches TokenKindView::String(x) ==> sp_primary(t, p) == Ok::<(ExprView, int), ParseErrorView>(
            (ExprView::StringLiteral(x), p + 1),
        ),
        t[p].kind == word_kind("true"@) ==> sp_primary(t, p) == Ok::<(ExprView, int), ParseErrorView>(
            (ExprView::Boolean(true), p + 1),
        ),
        t[p].kind == word_kind("false"@) ==> sp_primary(t, p) == Ok::<(ExprView, int), ParseErrorView>(
            (ExprView::Boolean(false), p + 1),
        ),
        (t[p].kind matches TokenKindView::Identifier(name) && !at(t, p + 1, TokenKindView::LeftParen))
            ==> sp_primary(t, p) == Ok::<(ExprView, int), ParseErrorView>(
            (ExprView::Variable(t[p].kind->Identifier_0), p + 1),
        ),
{
    reveal_strlit("if");
    reveal_strlit("else");
    reveal_strlit("for");
    reveal_strlit("while");
    reveal_strlit("true");
    reveal_strlit("false");
    assert("true"@.len() == 4 && "if"@.len() == 2 && "for"@.len() == 3 && "while"@.len() == 5);
    assert("true"@[0] == 't' && "else"@[0] == 'e');
    assert("true"@ != "if"@ && "true"@ != "else"@ && "true"@ != "for"@ && "true"@ != "while"@);
    assert(word_kind("true"@) == TokenKindView::True);
    assert("false"@.len() == 5 && "else"@.len() == 4);
    assert("false"@[0] == 'f' && "while"@[0] == 'w');
    assert("false"@ != "if"@ && "false"@ != "else"@ && "false"@ != "for"@ && "false"@ != "while"@
        && "false"@ != "true"@);
    assert(word_kind("false"@) == TokenKindView::False);
}

/// A prefix `-` negates the unary expression after it, and a prefix `not`
/// (the token the lexer makes of that word) takes its logical negation: the
/// operand is parsed as it would be on its own, and the parse ends where the
/// operand's does.
pub proof fn prefix_operators_wrap_their_operand(t: Seq<TokenView>, p: int)
    requires
        0 <= p < t.len(),
    ensures
        (t[p].kind == TokenKindView::Minus && sp_unary(t, p + 1) is Ok) ==> sp_unary(t, p) == Ok::<(ExprView, int), ParseErrorView>(
            (
                ExprView::Unary { op: UnaryOp::Negate, expr: Box::new(sp_unary(t, p + 1)->Ok_0.0) },
                sp_unary(t, p + 1)->Ok_0.1,
            ),
        ),
        (t[p].kind == TokenKindView::Not && sp_unary(t, p + 1) is Ok) ==> sp_unary(t, p) == Ok::<(ExprView, int), ParseErrorView>(
            (
                ExprView::Unary { op: UnaryOp::Not, expr: Box::new(sp_unary(t, p + 1)->Ok_0.0) },
                sp_unary(t, p + 1)->Ok_0.1,
            ),
        ),
{
}

/// A statement `name = expression` assigns the expression that follows `=` to
/// that name, and `var name = expression` (or `varip name = expression`)
/// declares that name with that value, persistent across bars only for
/// `varip`; each statement ends where its expression does.
pub proof fn statements_bind_their_names(t: Seq<TokenView>, p: int)
    requires
        0 <= p < t.len(),
    ensures
        (t[p].kind is Identifier && at(t, p + 1, TokenKindView::Equal) && sp_expression(t, p + 2) is Ok)
            ==> sp_statement(t, p) == Ok::<(StmtView, int), ParseErrorView>(
            (
                StmtView::Assignment {
                    name: t[p].kind->Identifier_0,
                    value: sp_expression(t, p + 2)->Ok_0.0,
                },
                sp_expression(t, p + 2)->Ok_0.1,
            ),
        ),
        ((t[p].kind == TokenKindView::Var || t[p].kind == TokenKindView::Varip) && p + 2 < t.len()
            && t[p + 1].kind is Identifier && t[p + 2].kind == TokenKindView::Equal && sp_expression(
            t,
            p + 3,
        ) is Ok) ==> sp_statement(t, p) == Ok::<(StmtView, int), ParseErrorView>(
            (
                StmtView::VarDeclaration {
                    name: t[p + 1].kind->Identifier_0,
                    value: sp_expression(t, p + 3)->Ok_0.0,
                    is_varip: t[p].kind == TokenKindView::Varip,
                },
                sp_expression(t, p + 3)->Ok_0.1,
            ),
        ),
{
}

/// Each series keyword of the language parses, as a primary expression, to the
/// built-in variable of the same name: the token that the lexer makes of the word
/// `open`, `high`, `low`, `close`, `volume` or `time` is read as the built-in
/// series that bears that name, and the parse moves past that one token.
pub proof fn series_keywords_parse_to_their_variables(t: Seq<TokenView>, p: int, w: Seq<char>)
    requires
        0 <= p < t.len(),
        t[p].kind == word_kind(w),
        w == "open"@ || w == "high"@ || w == "low"@ || w == "close"@ || w == "volume"@ || w
            == "time"@,
    ensures
        sp_primary(t, p) matches Ok((ExprView::BuiltinVariable(b), q)) && b.spec_name() == w
            && q == p + 1,
{
    reveal_strlit("if");
    reveal_strlit("else");
    reveal_strlit("for");
    reveal_strlit("while");
    reveal_strlit("true");
    reveal_strlit("false");
    reveal_strlit("var");
    reveal_strlit("varip");
    reveal_strlit("open");
    reveal_strlit("high");
    reveal_strlit("low");
    reveal_strlit("close");
    reveal_strlit("volume");
    reveal_strlit("time");
    if w == "open"@ {
        assert(w.len() == 4);
        assert("if"@.len() == 2);
        assert(w != "if"@);
        assert(w[0] == 'o' && "else"@[0] == 'e');
        assert(w != "else"@);
        assert("for"@.len() == 3);
        assert(w != "for"@);
        assert("while"@.len() == 5);
        assert(w != "while"@);
        assert(w[0] == 'o' && "true"@[0] == 't');
        assert(w != "true"@);
        assert("false"@.len() == 5);
        assert(w != "false"@);
        assert("var"@.len() == 3);
        assert(w != "var"@);
        assert("varip"@.len() == 5);
        assert(w != "varip"@);
        assert(word_kind(w) == TokenKindView::Open);
    } else if w == "high"@ {
        assert(w.len() == 4);
        assert("if"@.len() == 2);
        assert(w != "if"@);
        assert(w[0] == 'h' && "else"@[0] == 'e');
        assert(w != "else"@);
        assert("for"@.len() == 3);
        assert(w != "for"@);
        assert("while"@.len() == 5);
        assert(w != "while"@);
        assert(w[0] == 'h' && "true"@[0] == 't');
        assert(w != "true"@);
        assert("false"@.len() == 5);
        assert(w != "false"@);
        assert("var"@.len() == 3);
        assert(w != "var"@);
        assert("varip"@.len() == 5);
        assert(w != "varip"@);
        assert(w[0] == 'h' && "open"@[0] == 'o');
        assert(w != "open"@);
        assert(word_kind(w) == TokenKindView::High);
    } else if w == "low"@ {
        assert(w.len() == 3);
        assert("if"@.len() == 2);
        assert(w != "if"@);
        assert("else"@.len() == 4);
        assert(w != "else"@);
        assert(w[0] == 'l' && "for"@[0] == 'f');
        assert(w != "for"@);
        assert("while"@.len() == 5);
        assert(w != "while"@);
        assert("true"@.len() == 4);
        assert(w != "true"@);
        assert("false"@.len() == 5);
        assert(w != "false"@);
        assert(w[0] == 'l' && "var"@[0] == 'v');
        assert(w != "var"@);
        assert("varip"@.len() == 5);
        assert(w != "varip"@);
        assert("open"@.len() == 4);
        assert(w != "open"@);
        assert("high"@.len() == 4);
        assert(w != "high"@);
        assert(word_kind(w) == TokenKindView::Low);
    } else if w == "close"@ {
        assert(w.len() == 5);
        assert("if"@.len() == 2);
        assert(w != "if"@);
        assert("else"@.len() == 4);
        assert(w != "else"@);
        assert("for"@.len() == 3);
        assert(w != "for"@);
        assert(w[0] == 'c' && "while"@[0] == 'w');
        assert(w != "while"@);
        assert("true"@.len() == 4);
        assert(w != "true"@);
        assert(w[0] == 'c' && "false"@[0] == 'f');
        assert(w != "false"@);
        assert("var"@.len() == 3);
        assert(w != "var"@);
        assert(w[0] == 'c' && "varip"@[0] == 'v');
        assert(w != "varip"@);
        assert("open"@.len() == 4);
        assert(w != "open"@);
        assert("high"@.len() == 4);
        assert(w != "high"@);
        assert("low"@.len() == 3);
        assert(w != "low"@);
        assert(word_kind(w) == TokenKindView::Close);
    } else if w == "volume"@ {
        assert(w.len() == 6);
        assert("if"@.len() == 2);
        assert(w != "if"@);
        assert("else"@.len() == 4);
        assert(w != "else"@);
        assert("for"@.len() == 3);
        assert(w != "for"@);
        assert("while"@.len() == 5);
        assert(w != "while"@);
        assert("true"@.len() == 4);
        assert(w != "true"@);
        assert("false"@.len() == 5);
        assert(w != "false"@);
        assert("var"@.len() == 3);
        assert(w != "var"@);
        assert("varip"@.len() == 5);
        assert(w != "varip"@);
        assert("open"@.len() == 4);
        assert(w != "open"@);
        assert("high"@.len() == 4);
        assert(w != "high"@);
        assert("low"@.len() == 3);
        assert(w != "low"@);
        assert("close"@.len() == 5);
        assert(w != "close"@);
        assert(word_kind(w) == TokenKindView::Volume);
    } else {
        assert(w.len() == 4);
        assert("if"@.len() == 2);
        assert(w != "if"@);
        assert(w[0] == 't' && "else"@[0] == 'e');
        assert(w != "else"@);
        assert("for"@.len() == 3);
        assert(w != "for"@);
        assert("while"@.len() == 5);
        assert(w != "while"@);
        assert(w[1] == 'i' && "true"@[1] == 'r');
        assert(w != "true"@);
        assert("false"@.len() == 5);
        assert(w != "false"@);
        assert("var"@.len() == 3);
        assert(w != "var"@);
        assert("varip"@.len() == 5);
        assert(w != "varip"@);
        assert(w[0] == 't' && "open"@[0] == 'o');
        assert(w != "open"@);
        assert(w[0] == 't' && "high"@[0] == 'h');
        assert(w != "high"@);
        assert("low"@.len() == 3);
        assert(w != "low"@);
        assert("close"@.len() == 5);
        assert(w != "close"@);
        assert("volume"@.len() == 6);
        assert(w != "volume"@);
        assert(word_kind(w) == TokenKindView::Time);
    }
}

/// primary := literal | built-in variable | identifier [ `(` arguments `)` ] |
/// `(` expression `)`. A called name with a `.` is a method call on the
/// namespace before its last `.`.
pub open spec fn sp_primary(t: Seq<TokenView>, p: int) -> Result<(ExprView, int), ParseErrorView>
    decreases t.len() - p, 2int,
{
    if !valid(t, p) {
        Err(ParseErrorView::UnexpectedEof)
    } else {
        match t[p].kind {
            TokenKindView::Number(n) => Ok((ExprView::Number(n), p + 1)),
            TokenKindView::String(s) => Ok((ExprView::StringLiteral(s), p + 1)),
            TokenKindView::True => Ok((ExprView::Boolean(true), p + 1)),
            TokenKindView::False => Ok((ExprView::Boolean(false), p + 1)),
            TokenKindView::Open => Ok((ExprView::BuiltinVariable(BuiltinVar::Open), p + 1)),
            TokenKindView::High => Ok((ExprView::BuiltinVariable(BuiltinVar::High), p + 1)),
            TokenKindView::Low => Ok((ExprView::BuiltinVariable(BuiltinVar::Low), p + 1)),
            TokenKindView::Close => Ok((ExprView::BuiltinVariable(BuiltinVar::Close), p + 1)),
            TokenKindView::Volume => Ok((ExprView::BuiltinVariable(BuiltinVar::Volume), p + 1)),
            TokenKindView::Time => Ok((ExprView::BuiltinVariable(BuiltinVar::Time), p + 1)),
            TokenKindView::Identifier(name) => if at(t, p + 1, TokenKindView::LeftParen) {
                match sp_arguments(t, p + 2) {
                    Err(e) => Err(e),
                    Ok((args, p2)) => if !moved(t, p + 2, p2) {
                        Err(ParseErrorView::UnexpectedEof)
                    } else {
                        match sp_expect(t, p2, TokenKindView::RightParen) {
                            Err(e) => Err(e),
                            Ok(p3) => match last_dot(name, name.len() as int) {
                                Some(d) => Ok(
                                    (
                                        ExprView::MethodCall {
                                            namespace: name.subrange(0, d),
                                            method: name.subrange(d + 1, name.len() as int),
                                            args,
                                        },
                                        p3,
                                    ),
                                ),
                                None => Ok((ExprView::FunctionCall { name, args }, p3)),
                            },
                        }
                    },
                }
            } else {
                Ok((ExprView::Variable(name), p + 1))
            },
            TokenKindView::LeftParen => match sp_expression(t, p + 1) {
                Err(e) => Err(e),
                Ok((e, p1)) => if !moved(t, p + 1, p1) {
                    Err(ParseErrorView::UnexpectedEof)
                } else {
                    match sp_expect(t, p1, TokenKindView::RightParen) {
                        Err(err) => Err(err),
                        Ok(p2) => Ok((e, p2)),
                    }
                },
            },
            _ => Err(unexpected(t, p, "expression"@)),
        }
    }
}

/// arguments := [ argument { `,` argument } ], empty before `)`.
pub open spec fn sp_arguments(t: Seq<TokenView>, p: int) -> Result<(Seq<ExprView>, int), ParseErrorView>
    decreases t.len() - p, 20int,
{
    if !valid(t, p) {
        Err(ParseErrorView::UnexpectedEof)
    } else if t[p].kind is RightParen {
        Ok((Seq::empty(), p))
    } else {
        sp_argument_list(t, p)
    }
}

/// The arguments from `q` on. A named argument `name = expression` is parsed
/// and left out; the list ends at the first argument not followed by `,`.
pub open spec fn sp_argument_list(t: Seq<TokenView>, q: int) -> Result<(Seq<ExprView>, int), ParseErrorView>
    decreases t.len() - q, 19int,
{
    if !valid(t, q) {
        Err(ParseErrorView::UnexpectedEof)
    } else if t[q].kind is Identifier && at(t, q + 1, TokenKindView::Equal) {
        match sp_expression(t, q + 2) {
            Err(e) => Err(e),
            Ok((_, q1)) => if !moved(t, q + 2, q1) {
                Err(ParseErrorView::UnexpectedEof)
            } else if at(t, q1, TokenKindView::Comma) {
                sp_argument_list(t, q1 + 1)
            } else {
                Ok((Seq::empty(), q1))
            },
        }
    } else {
        match sp_expression(t, q) {
            Err(e) => Err(e),
            Ok((e, q1)) => if !moved(t, q, q1) {
                Err(ParseErrorView::UnexpectedEof)
            } else if at(t, q1, TokenKindView::Comma) {
                match sp_argument_list(t, q1 + 1) {
                    Err(err) => Err(err),
                    Ok((rest, q2)) => Ok((seq![e] + rest, q2)),
                }
            } else {
                Ok((seq![e], q1))
            },
        }
    }
}

/// statement := { newline | comment } ( var-declaration | if | for | while |
/// identifier `=` expression | expression )
pub open spec fn sp_statement(t: Seq<TokenView>, p: int) -> Result<(StmtView, int), ParseErrorView>
    decreases t.len() - p, 25int,
{
    if !valid(t, p) {
        Err(ParseErrorView::UnexpectedEof)
    } else {
        match t[p].kind {
            TokenKindView::Newline => sp_statement(t, p + 1),
            TokenKindView::Comment(_) => sp_statement(t, p + 1),
            TokenKindView::Var => sp_var_declaration(t, p),
            TokenKindView::Varip => sp_var_declaration(t, p),
            TokenKindView::If => sp_if(t, p),
            TokenKindView::For => sp_for(t, p),
            TokenKindView::While => sp_while(t, p),
            TokenKindView::Identifier(name) => if at(t, p + 1, TokenKindView::Equal) {
                match sp_expression(t, p + 2) {
                    Err(e) => Err(e),
                    Ok((value, p1)) => Ok((StmtView::Assignment { name, value }, p1)),
                }
            } else {
                match sp_expression(t, p) {
                    Err(e) => Err(e),
                    Ok((e, p1)) => Ok((StmtView::Expression(e), p1)),
                }
            },
            _ => match sp_expression(t, p) {
                Err(e) => Err(e),
                Ok((e, p1)) => Ok((StmtView::Expression(e), p1)),
            },
        }
    }
}

/// var-declaration := ( `var` | `varip` ) identifier `=` expression
pub open spec fn sp_var_declaration(t: Seq<TokenView>, p: int) -> Result<(StmtView, int), ParseErrorView>
    decreases t.len() - p, 24int,
{
    if !valid(t, p) {
        Err(ParseErrorView::UnexpectedEof)
    } else {
        let is_varip = t[p].kind is Varip;
        match sp_expect_identifier(t, p + 1) {
            Err(e) => Err(e),
            Ok((name, p1)) => match sp_expect(t, p1, TokenKindView::Equal) {
                Err(e) => Err(e),
                Ok(p2) => match sp_expression(t, p2) {
                    Err(e) => Err(e),
                    Ok((value, p3)) => Ok((StmtView::VarDeclaration { name, value, is_varip }, p3)),
                },
            },
        }
    }
}

/// if := `if` expression [newline] statement [ `else` [newline] statement ]
pub open spec fn sp_if(t: Seq<TokenView>, p: int) -> Result<(StmtView, int), ParseErrorView>
    decreases t.len() - p, 24int,
{
    if !valid(t, p) {
        Err(ParseErrorView::UnexpectedEof)
    } else {
        match sp_expression(t, p + 1) {
            Err(e) => Err(e),
            Ok((condition, p1)) => if !moved(t, p + 1, p1) {
                Err(ParseErrorView::UnexpectedEof)
            } else {
                match sp_statement(t, skip_newline(t, p1)) {
                    Err(e) => Err(e),
                    Ok((then_stmt, p3)) => if !moved(t, p1, p3) {
                        Err(ParseErrorView::UnexpectedEof)
                    } else if at(t, p3, TokenKindView::Else) {
                        match sp_statement(t, skip_newline(t, p3 + 1)) {
                            Err(e) => Err(e),
                            Ok((else_stmt, p5)) => Ok(
                                (
                                    StmtView::If {
                                        condition,
                                        then_branch: seq![then_stmt],
                                        else_branch: Some(seq![else_stmt]),
                                    },
                                    p5,
                                ),
                            ),
                        }
                    } else {
                        Ok(
                            (
                                StmtView::If {
                                    condition,
                                    then_branch: seq![then_stmt],
                                    else_branch: None,
                                },
                                p3,
                            ),
                        )
                    },
                }
            },
        }
    }
}

/// for := `for` identifier `=` expression `to` expression [newline] statement
pub open spec fn sp_for(t: Seq<TokenView>, p: int) -> Result<(StmtView, int), ParseErrorView>
    decreases t.len() - p, 24int,
{
    if !valid(t, p) {
        Err(ParseErrorView::UnexpectedEof)
    } else {
        match sp_expect_identifier(t, p + 1) {
            Err(e) => Err(e),
            Ok((variable, p1)) => match sp_expect(t, p1, TokenKindView::Equal) {
                Err(e) => Err(e),
                Ok(p2) => match sp_expression(t, p2) {
                    Err(e) => Err(e),
                    Ok((start, p3)) => if !moved(t, p2, p3) {
                        Err(ParseErrorView::UnexpectedEof)
                    } else if at(t, p3, TokenKindView::Identifier("to"@)) {
                        match sp_expression(t, p3 + 1) {
                            Err(e) => Err(e),
                            Ok((end, p4)) => if !moved(t, p3 + 1, p4) {
                                Err(ParseErrorView::UnexpectedEof)
                            } else {
                                match sp_statement(t, skip_newline(t, p4)) {
                                    Err(e) => Err(e),
                                    Ok((body, p6)) => Ok(
                                        (
                                            StmtView::For {
                                                variable,
                                                start,
                                                end,
                                                body: seq![body],
                                            },
                                            p6,
                                        ),
                                    ),
                                }
                            },
                        }
                    } else {
                        Err(ParseErrorView::InvalidSyntax("Expected 'to' in for loop"@))
                    },
                },
            },
        }
    }
}

/// while := `while` expression [newline] statement
pub open spec fn sp_while(t: Seq<TokenView>, p: int) -> Result<(StmtView, int), ParseErrorView>
    decreases t.len() - p, 24int,
{
    if !valid(t, p) {
        Err(ParseErrorView::UnexpectedEof)
    } else {
        match sp_expression(t, p + 1) {
            Err(e) => Err(e),
            Ok((condition, p1)) => if !moved(t, p + 1, p1) {
                Err(ParseErrorView::UnexpectedEof)
            } else {
                match sp_statement(t, skip_newline(t, p1)) {
                    Err(e) => Err(e),
                    Ok((body, p3)) => Ok((StmtView::While { condition, body: seq![body] }, p3)),
                }
            },
        }
    }
}

/// program := { newline | comment | statement [newline] } end-of-file
pub open spec fn sp_program(t: Seq<TokenView>, p: int) -> Result<Seq<StmtView>, ParseErrorView>
    decreases t.len() - p, 26int,
{
    if !valid(t, p) {
        Err(ParseErrorView::UnexpectedEof)
    } else {
        match t[p].kind {
            TokenKindView::Eof => Ok(Seq::empty()),
            TokenKindView::Newline => sp_program(t, p + 1),
            TokenKindView::Comment(_) => sp_program(t, p + 1),
            _ => match sp_statement(t, p) {
                Err(e) => Err(e),
                Ok((s, p1)) => if !(p < p1 <= t.len()) {
                    Err(ParseErrorView::UnexpectedEof)
                } else {
                    match sp_program(t, skip_newline(t, p1)) {
                        Err(e) => Err(e),
                        Ok(rest) => Ok(seq![s] + rest),
                    }
                },
            },
        }
    }
}


/// Whether an executable parse result agrees with the spec result `s`, with
/// the parser left at `pos` after a success.
pub open spec fn expr_result(r: Result<Expr, ParseError>, s: Result<(ExprView, int), ParseErrorView>, pos: int) -> bool {
    match s {
        Ok((v, q)) => r is Ok && expr_view(r->Ok_0) == v && pos == q,
        Err(e) => r is Err && r->Err_0@ == e,
    }
}

pub open spec fn args_result(
    r: Result<Vec<Expr>, ParseError>,
    s: Result<(Seq<ExprView>, int), ParseErrorView>,
    pos: int,
) -> bool {
    match s {
        Ok((v, q)) => r is Ok && exprs_view(r->Ok_0@) == v && pos == q,
        Err(e) => r is Err && r->Err_0@ == e,
    }
}

pub open spec fn stmt_result(r: Result<Stmt, ParseError>, s: Result<(StmtView, int), ParseErrorView>, pos: int) -> bool {
    match s {
        Ok((v, q)) => r is Ok && stmt_view(r->Ok_0) == v && pos == q,
        Err(e) => r is Err && r->Err_0@ == e,
    }
}

/// `acc` followed by the arguments of a spec result.
pub open spec fn prepend_args(acc: Seq<ExprView>, r: Result<(Seq<ExprView>, int), ParseErrorView>) -> Result<
    (Seq<ExprView>, int),
    ParseErrorView,
> {
    match r {
        Ok((v, q)) => Ok((acc + v, q)),
        Err(e) => Err(e),
    }
}

/// `acc` followed by the statements of a spec result.
pub open spec fn prepend_stmts(acc: Seq<StmtView>, r: Result<Seq<StmtView>, ParseErrorView>) -> Result<
    Seq<StmtView>,
    ParseErrorView,
> {
    match r {
        Ok(v) => Ok(acc + v),
        Err(e) => Err(e),
    }
}

/// A copy of a token kind.
fn clone_kind(k: &TokenKind) -> (r: TokenKind)
    ensures
        r@ == k@,
{
    match k {
        TokenKind::Number(s) => TokenKind::Number(s.clone()),
        TokenKind::String(s) => TokenKind::String(s.clone()),
        TokenKind::Boolean(b) => TokenKind::Boolean(*b),
        TokenKind::Identifier(s) => TokenKind::Identifier(s.clone()),
        TokenKind::If => TokenKind::If,
        TokenKind::Else => TokenKind::Else,
        TokenKind::For => TokenKind::For,
        TokenKind::While => TokenKind::While,
        TokenKind::True => TokenKind::True,
        TokenKind::False => TokenKind::False,
        TokenKind::Var => TokenKind::Var,
        TokenKind::Varip => TokenKind::Varip,
        TokenKind::Open => TokenKind::Open,
        TokenKind::High => TokenKind::High,
        TokenKind::Low => TokenKind::Low,
        TokenKind::Close => TokenKind::Close,
        TokenKind::Volume => TokenKind::Volume,
        TokenKind::Time => TokenKind::Time,
        TokenKind::Plus => TokenKind::Plus,
        TokenKind::Minus => TokenKind::Minus,
        TokenKind::Star => TokenKind::Star,
        TokenKind::Slash => TokenKind::Slash,
        TokenKind::Percent => TokenKind::Percent,
        TokenKind::Equal => TokenKind::Equal,
        TokenKind::EqualEqual => TokenKind::EqualEqual,
        TokenKind::NotEqual => TokenKind::NotEqual,
        TokenKind::Less => TokenKind::Less,
        TokenKind::LessEqual => TokenKind::LessEqual,
        TokenKind::Greater => TokenKind::Greater,
        TokenKind::GreaterEqual => TokenKind::GreaterEqual,
        TokenKind::And => TokenKind::And,
        TokenKind::Or => TokenKind::Or,
        TokenKind::Not => TokenKind::Not,
        TokenKind::Question => TokenKind::Question,
        TokenKind::Colon => TokenKind::Colon,
        TokenKind::LeftParen => TokenKind::LeftParen,
        TokenKind::RightParen => TokenKind::RightParen,
        TokenKind::LeftBracket => TokenKind::LeftBracket,
        TokenKind::RightBracket => TokenKind::RightBracket,
        TokenKind::Comma => TokenKind::Comma,
        TokenKind::Dot => TokenKind::Dot,
        TokenKind::Arrow => TokenKind::Arrow,
        TokenKind::Newline => TokenKind::Newline,
        TokenKind::Eof => TokenKind::Eof,
        TokenKind::Comment(s) => TokenKind::Comment(s.clone()),
    }
}

/// The operator of binary level `level` written by a token kind.
fn level_op_of(level: usize, k: &TokenKind) -> (r: Option<BinaryOp>)
    ensures
        r == level_op(level as int, k@),
{
    match k {
        TokenKind::Or => if level == 0 { Some(BinaryOp::Or) } else { None },
        TokenKind::And => if level == 1 { Some(BinaryOp::And) } else { None },
        TokenKind::EqualEqual => if level == 2 { Some(BinaryOp::Equal) } else { None },
        TokenKind::NotEqual => if level == 2 { Some(BinaryOp::NotEqual) } else { None },
        TokenKind::Less => if level == 3 { Some(BinaryOp::Less) } else { None },
        TokenKind::LessEqual => if level == 3 { Some(BinaryOp::LessEqual) } else { None },
        TokenKind::Greater => if level == 3 { Some(BinaryOp::Greater) } else { None },
        TokenKind::GreaterEqual => if level == 3 { Some(BinaryOp::GreaterEqual) } else { None },
        TokenKind::Plus => if level == 4 { Some(BinaryOp::Add) } else { None },
        TokenKind::Minus => if level == 4 { Some(BinaryOp::Subtract) } else { None },
        TokenKind::Star => if level == 5 { Some(BinaryOp::Multiply) } else { None },
        TokenKind::Slash => if level == 5 { Some(BinaryOp::Divide) } else { None },
        TokenKind::Percent => if level == 5 { Some(BinaryOp::Modulo) } else { None },
        _ => None,
    }
}

/// Index of the last `.` in a name, if any.
fn last_dot_index(name: &Vec<char>) -> (r: Option<usize>)
    ensures
        r matches Some(d) ==> d < name@.len() && last_dot(name@, name@.len() as int) == Some(
            d as int,
        ),
        r is None ==> last_dot(name@, name@.len() as int) is None,
{
    let mut n = name.len();
    while n > 0
        invariant
            n <= name@.len(),
            last_dot(name@, name@.len() as int) == last_dot(name@, n as int),
        decreases n,
    {
        if name[n - 1] == '.' {
            return Some(n - 1);
        }
        n = n - 1;
    }
    None
}

/// The view of a single statement sequence.
proof fn lemma_stmts_view_single(s: Seq<Stmt>)
    requires
        s.len() == 1,
    ensures
        stmts_view(s) == seq![stmt_view(s[0])],
{
    assert(s.drop_last() =~= Seq::<Stmt>::empty());
    assert(stmts_view(s.drop_last()) == Seq::<StmtView>::empty());
    assert(stmts_view(s) =~= seq![stmt_view(s[0])]);
}

/// Recursive-descent parser over the tokens of a script.
pub struct Parser {
    tokens: Vec<Token>,
    position: usize,
}

impl Parser {
    /// The views of the tokens being parsed.
    pub closed spec fn spec_tokens(&self) -> Seq<TokenView> {
        self.tokens@.map_values(|t: Token| t@)
    }

    /// Index of the current token.
    pub closed spec fn spec_position(&self) -> int {
        self.position as int
    }

    /// The tokens end with the only end-of-file token, and the position is on a token.
    pub closed spec fn wf(&self) -> bool {
        &&& tokens_wf(self.spec_tokens())
        &&& self.position < self.tokens@.len()
    }

    /// Create a parser over the tokens of the lexer's remaining input.
    pub fn new(lexer: Lexer) -> (r: Self)
        requires
            lexer.wf(),
        ensures
            r.wf(),
            r.spec_position() == 0,
            r.spec_tokens() == super::lexer::tokens_from(
                lexer.spec_input(),
                lexer.spec_position(),
                lexer.spec_line(),
                lexer.spec_column(),
            ),
    {
        let mut lexer = lexer;
        let tokens = lexer.tokenize();
        let r = Parser { tokens, position: 0 };
        assert(r.spec_tokens().last() == r.tokens@.last()@);
        r
    }

    fn kind(&self) -> (r: &TokenKind)
        requires
            self.wf(),
        ensures
            r@ == self.spec_tokens()[self.spec_position()].kind,
    {
        &self.tokens[self.position].kind
    }

    fn is_at_end(&self) -> (r: bool)
        requires
            self.wf(),
        ensures
            r == self.spec_tokens()[self.spec_position()].kind is Eof,
    {
        matches!(self.tokens[self.position].kind, TokenKind::Eof)
    }

    fn advance(&mut self)
        requires
            old(self).wf(),
        ensures
            final(self).wf(),
            final(self).spec_tokens() == old(self).spec_tokens(),
            final(self).spec_position() == if old(self).spec_tokens()[old(
                self,
            ).spec_position()].kind is Eof {
                old(self).spec_position()
            } else {
                old(self).spec_position() + 1
            },
    {
        let n = self.tokens.len();
        if !self.is_at_end() {
            proof {
                let t = self.spec_tokens();
                assert(t[t.len() - 1].kind is Eof);
            }
            self.position = self.position + 1;
        }
    }

    /// The error for an unexpected current token.
    fn unexpected_here(&self, expected: &str) -> (r: ParseError)
        requires
            self.wf(),
        ensures
            r@ == unexpected(self.spec_tokens(), self.spec_position(), expected@),
    {
        let tok = &self.tokens[self.position];
        ParseError::UnexpectedToken {
            expected: expected.to_owned(),
            found: clone_kind(&tok.kind),
            line: tok.line,
            column: tok.column,
        }
    }

    fn expect(&mut self, expected: TokenKind) -> (r: Result<(), ParseError>)
        requires
            old(self).wf(),
            expected is Equal || expected is Colon || expected is RightBracket
                || expected is RightParen,
        ensures
            final(self).wf(),
            final(self).spec_tokens() == old(self).spec_tokens(),
            match sp_expect(old(self).spec_tokens(), old(self).spec_position(), expected@) {
                Ok(q) => r is Ok && final(self).spec_position() == q,
                Err(e) => r is Err && r->Err_0@ == e,
            },
    {
        let same = match expected {
            TokenKind::Equal => matches!(self.kind(), TokenKind::Equal),
            TokenKind::Colon => matches!(self.kind(), TokenKind::Colon),
            TokenKind::RightBracket => matches!(self.kind(), TokenKind::RightBracket),
            _ => matches!(self.kind(), TokenKind::RightParen),
        };
        if same {
            self.advance();
            Ok(())
        } else {
            let name = match expected {
                TokenKind::Equal => "Equal",
                TokenKind::Colon => "Colon",
                TokenKind::RightBracket => "RightBracket",
                _ => "RightParen",
            };
            Err(self.unexpected_here(name))
        }
    }

    fn expect_identifier(&mut self) -> (r: Result<String, ParseError>)
        requires
            old(self).wf(),
        ensures
            final(self).wf(),
            final(self).spec_tokens() == old(self).spec_tokens(),
            match sp_expect_identifier(old(self).spec_tokens(), old(self).spec_position()) {
                Ok((name, q)) => r is Ok && r->Ok_0@ == name && final(self).spec_position() == q,
                Err(e) => r is Err && r->Err_0@ == e,
            },
    {
        match self.kind() {
            TokenKind::Identifier(name) => {
                let name = name.clone();
                self.advance();
                Ok(name)
            },
            _ => Err(self.unexpected_here("identifier")),
        }
    }

    /// Skip a newline token, if the current token is one.
    fn skip_optional_newline(&mut self)
        requires
            old(self).wf(),
        ensures
            final(self).wf(),
            final(self).spec_tokens() == old(self).spec_tokens(),
            final(self).spec_position() == skip_newline(
                old(self).spec_tokens(),
                old(self).spec_position(),
            ),
    {
        if matches!(self.kind(), TokenKind::Newline) {
            self.advance();
        }
    }

    fn parse_expression(&mut self) -> (r: Result<Expr, ParseError>)
        requires
            old(self).wf(),
        ensures
            final(self).wf(),
            final(self).spec_tokens() == old(self).spec_tokens(),
            expr_result(
                r,
                sp_expression(old(self).spec_tokens(), old(self).spec_position()),
                final(self).spec_position(),
            ),
            r is Ok ==> final(self).spec_position() > old(self).spec_position(),
        decreases old(self).spec_tokens().len() - old(self).spec_position(), 18int,
    {
        self.parse_ternary()
    }

    fn parse_ternary(&mut self) -> (r: Result<Expr, ParseError>)
        requires
            old(self).wf(),
        ensures
            final(self).wf(),
            final(self).spec_tokens() == old(self).spec_tokens(),
            expr_result(
                r,
                sp_ternary(old(self).spec_tokens(), old(self).spec_position()),
                final(self).spec_position(),
            ),
            r is Ok ==> final(self).spec_position() > old(self).spec_position(),
        decreases old(self).spec_tokens().len() - old(self).spec_position(), 17int,
    {
        let c = match self.parse_level(0) {
            Ok(e) => e,
            Err(e) => return Err(e),
        };
        if matches!(self.kind(), TokenKind::Question) {
            self.advance();
            let a = match self.parse_expression() {
                Ok(e) => e,
                Err(e) => return Err(e),
            };
            match self.expect(TokenKind::Colon) {
                Ok(()) => {},
                Err(e) => return Err(e),
            }
            let b = match self.parse_expression() {
                Ok(e) => e,
                Err(e) => return Err(e),
            };
            return Ok(
                Expr::Ternary { condition: Box::new(c), then_expr: Box::new(a), else_expr: Box::new(b) },
            );
        }
        Ok(c)
    }

    fn parse_operand(&mut self, level: usize) -> (r: Result<Expr, ParseError>)
        requires
            old(self).wf(),
            level <= 5,
        ensures
            final(self).wf(),
            final(self).spec_tokens() == old(self).spec_tokens(),
            expr_result(
                r,
                sp_operand(old(self).spec_tokens(), old(self).spec_position(), level as int),
                final(self).spec_position(),
            ),
            r is Ok ==> final(self).spec_position() > old(self).spec_position(),
        decreases old(self).spec_tokens().len() - old(self).spec_position(), 15 - 2 * level,
    {
        if level < 5 {
            self.parse_level(level + 1)
        } else {
            self.parse_unary()
        }
    }

    /// One binary precedence level (0: `or` .. 5: multiplication), left-associative.
    fn parse_level(&mut self, level: usize) -> (r: Result<Expr, ParseError>)
        requires
            old(self).wf(),
            level <= 5,
        ensures
            final(self).wf(),
            final(self).spec_tokens() == old(self).spec_tokens(),
            expr_result(
                r,
                sp_level(old(self).spec_tokens(), old(self).spec_position(), level as int),
                final(self).spec_position(),
            ),
            r is Ok ==> final(self).spec_position() > old(self).spec_position(),
        decreases old(self).spec_tokens().len() - old(self).spec_position(), 16 - 2 * level,
    {
        let ghost t = self.spec_tokens();
        let ghost p0 = self.spec_position();
        let mut left = match self.parse_operand(level) {
            Ok(e) => e,
            Err(e) => return Err(e),
        };
        loop
            invariant
                self.wf(),
                self.spec_tokens() == t,
                level <= 5,
                t == old(self).spec_tokens(),
                p0 == old(self).spec_position(),
                self.spec_position() > p0,
                sp_level(t, p0, level as int) == sp_level_tail(
                    t,
                    expr_view(left),
                    self.spec_position(),
                    level as int,
                ),
            decreases t.len() - self.spec_position(),
        {
            let op = match level_op_of(level, self.kind()) {
                Some(op) => op,
                None => return Ok(left),
            };
            self.advance();
            let right = match self.parse_operand(level) {
                Ok(e) => e,
                Err(e) => return Err(e),
            };
            left = Expr::Binary { left: Box::new(left), op, right: Box::new(right) };
        }
    }

    fn parse_unary(&mut self) -> (r: Result<Expr, ParseError>)
        requires
            old(self).wf(),
        ensures
            final(self).wf(),
            final(self).spec_tokens() == old(self).spec_tokens(),
            expr_result(
                r,
                sp_unary(old(self).spec_tokens(), old(self).spec_position()),
                final(self).spec_position(),
            ),
            r is Ok ==> final(self).spec_position() > old(self).spec_position(),
        decreases old(self).spec_tokens().len() - old(self).spec_position(), 4int,
    {
        match self.kind() {
            TokenKind::Minus => {
                self.advance();
                match self.parse_unary() {
                    Ok(e) => Ok(Expr::Unary { op: UnaryOp::Negate, expr: Box::new(e) }),
                    Err(e) => Err(e),
                }
            },
            TokenKind::Not => {
                self.advance();
                match self.parse_unary() {
                    Ok(e) => Ok(Expr::Unary { op: UnaryOp::Not, expr: Box::new(e) }),
                    Err(e) => Err(e),
                }
            },
            _ => self.parse_postfix(),
        }
    }

    #[verifier::rlimit(100)]
    fn parse_postfix(&mut self) -> (r: Result<Expr, ParseError>)
        requires
            old(self).wf(),
        ensures
            final(self).wf(),
            final(self).spec_tokens() == old(self).spec_tokens(),
            expr_result(
                r,
                sp_postfix(old(self).spec_tokens(), old(self).spec_position()),
                final(self).spec_position(),
            ),
            r is Ok ==> final(self).spec_position() > old(self).spec_position(),
        decreases old(self).spec_tokens().len() - old(self).spec_position(), 3int,
    {
        let ghost t = self.spec_tokens();
        let ghost p0 = self.spec_position();
        let mut expr = match self.parse_primary() {
            Ok(e) => e,
            Err(e) => return Err(e),
        };
        loop
            invariant
                self.wf(),
                self.spec_tokens() == t,
                t == old(self).spec_tokens(),
                p0 == old(self).spec_position(),
                self.spec_position() > p0,
                sp_postfix(t, p0) == sp_postfix_tail(t, expr_view(expr), self.spec_position()),
            decreases t.len() - self.spec_position(),
        {
            match self.kind() {
                TokenKind::LeftBracket => {
                    self.advance();
                    let index = match self.parse_expression() {
                        Ok(e) => e,
                        Err(e) => return Err(e),
                    };
                    match self.expect(TokenKind::RightBracket) {
                        Ok(()) => {},
                        Err(e) => return Err(e),
                    }
                    expr = match index {
                        Expr::Number(n) => Expr::SeriesOffset { series: Box::new(expr), offset: n },
                        other => Expr::ArrayAccess { array: Box::new(expr), index: Box::new(other) },
                    };
                },
                TokenKind::Dot => {
                    self.advance();
                    let method = match self.expect_identifier() {
                        Ok(m) => m,
                        Err(e) => return Err(e),
                    };
                    if matches!(self.kind(), TokenKind::LeftParen) {
                        self.advance();
                        let args = match self.parse_arguments() {
                            Ok(a) => a,
                            Err(e) => return Err(e),
                        };
                        match self.expect(TokenKind::RightParen) {
                            Ok(()) => {},
                            Err(e) => return Err(e),
                        }
                        match expr {
                            Expr::Variable(namespace) => {
                                expr = Expr::MethodCall { namespace, method, args };
                            },
                            _ => {
                                return Err(
                                    ParseError::InvalidSyntax(
                                        "Method calls require a namespace".to_owned(),
                                    ),
                                );
                            },
                        }
                    } else {
                        return Err(
                            ParseError::InvalidSyntax("Property access not supported yet".to_owned()),
                        );
                    }
                },
                _ => return Ok(expr),
            }
        }
    }

    #[verifier::rlimit(60)]
    fn parse_primary(&mut self) -> (r: Result<Expr, ParseError>)
        requires
            old(self).wf(),
        ensures
            final(self).wf(),
            final(self).spec_tokens() == old(self).spec_tokens(),
            expr_result(
                r,
                sp_primary(old(self).spec_tokens(), old(self).spec_position()),
                final(self).spec_position(),
            ),
            r is Ok ==> final(self).spec_position() > old(self).spec_position(),
        decreases old(self).spec_tokens().len() - old(self).spec_position(), 2int,
    {
        match self.kind() {
            TokenKind::Number(n) => {
                let n = n.clone();
                self.advance();
                Ok(Expr::Number(n))
            },
            TokenKind::String(s) => {
                let s = s.clone();
                self.advance();
                Ok(Expr::StringLiteral(s))
            },
            TokenKind::True => {
                self.advance();
                Ok(Expr::Boolean(true))
            },
            TokenKind::False => {
                self.advance();
                Ok(Expr::Boolean(false))
            },
            TokenKind::Open => {
                self.advance();
                Ok(Expr::BuiltinVariable(BuiltinVar::Open))
            },
            TokenKind::High => {
                self.advance();
                Ok(Expr::BuiltinVariable(BuiltinVar::High))
            },
            TokenKind::Low => {
                self.advance();
                Ok(Expr::BuiltinVariable(BuiltinVar::Low))
            },
            TokenKind::Close => {
                self.advance();
                Ok(Expr::BuiltinVariable(BuiltinVar::Close))
            },
            TokenKind::Volume => {
                self.advance();
                Ok(Expr::BuiltinVariable(BuiltinVar::Volume))
            },
            TokenKind::Time => {
                self.advance();
                Ok(Expr::BuiltinVariable(BuiltinVar::Time))
            },
            TokenKind::Identifier(name) => {
                let name = name.clone();
                self.advance();
                if matches!(self.kind(), TokenKind::LeftParen) {
                    self.advance();
                    let args = match self.parse_arguments() {
                        Ok(a) => a,
                        Err(e) => return Err(e),
                    };
                    match self.expect(TokenKind::RightParen) {
                        Ok(()) => {},
                        Err(e) => return Err(e),
                    }
                    let chars = crate::text::chars_of(name.as_str());
                    match last_dot_index(&chars) {
                        Some(dot) => {
                            let namespace = crate::text::string_from_range(&chars, 0, dot);
                            let n = chars.len();
                            let method = crate::text::string_from_range(&chars, dot + 1, n);
                            Ok(Expr::MethodCall { namespace, method, args })
                        },
                        None => Ok(Expr::FunctionCall { name, args }),
                    }
                } else {
                    Ok(Expr::Variable(name))
                }
            },
            TokenKind::LeftParen => {
                self.advance();
                let e = match self.parse_expression() {
                    Ok(e) => e,
                    Err(e) => return Err(e),
                };
                match self.expect(TokenKind::RightParen) {
                    Ok(()) => Ok(e),
                    Err(err) => Err(err),
                }
            },
            _ => Err(self.unexpected_here("expression")),
        }
    }

    /// Parse the whole script.
    ///
    /// Returns the statements of the program, or the first error.
    pub fn parse(&mut self) -> (r: Result<Program, ParseError>)
        requires
            old(self).wf(),
        ensures
            final(self).wf(),
            final(self).spec_tokens() == old(self).spec_tokens(),
            match sp_program(old(self).spec_tokens(), old(self).spec_position()) {
                Ok(v) => r is Ok && stmts_view(r->Ok_0.statements@) == v,
                Err(e) => r is Err && r->Err_0@ == e,
            },
    {
        let ghost t = self.spec_tokens();
        let ghost p0 = self.spec_position();
        let mut program = Program::new();
        proof {
            assert(stmts_view(program.statements@) =~= Seq::<StmtView>::empty());
            match sp_program(t, p0) {
                Ok(v) => assert(Seq::<StmtView>::empty() + v =~= v),
                Err(_) => {},
            }
        }
        while !self.is_at_end()
            invariant
                self.wf(),
                self.spec_tokens() == t,
                t == old(self).spec_tokens(),
                p0 == old(self).spec_position(),
                sp_program(t, p0) == prepend_stmts(
                    stmts_view(program.statements@),
                    sp_program(t, self.spec_position()),
                ),
            decreases t.len() - self.spec_position(),
        {
            if matches!(self.kind(), TokenKind::Comment(_) | TokenKind::Newline) {
                self.advance();
                continue;
            }
            let stmt = match self.parse_statement() {
                Ok(s) => s,
                Err(e) => return Err(e),
            };
            let ghost before = stmts_view(program.statements@);
            let ghost old_stmts = program.statements@;
            let ghost sv = stmt_view(stmt);
            program.statements.push(stmt);
            proof {
                assert(program.statements@.drop_last() =~= old_stmts);
            }
            assert(stmts_view(program.statements@) == before.push(sv));
            if matches!(self.kind(), TokenKind::Newline) {
                self.advance();
            }
            proof {
                match sp_program(t, self.spec_position()) {
                    Ok(rest) => {
                        assert(before + (seq![sv] + rest) =~= before.push(sv) + rest);
                    },
                    Err(_) => {},
                }
            }
        }
        proof {
            assert(stmts_view(program.statements@) + Seq::<StmtView>::empty() =~= stmts_view(
                program.statements@,
            ));
        }
        Ok(program)
    }

    #[verifier::rlimit(60)]
    fn parse_statement(&mut self) -> (r: Result<Stmt, ParseError>)
        requires
            old(self).wf(),
        ensures
            final(self).wf(),
            final(self).spec_tokens() == old(self).spec_tokens(),
            stmt_result(
                r,
                sp_statement(old(self).spec_tokens(), old(self).spec_position()),
                final(self).spec_position(),
            ),
            r is Ok ==> final(self).spec_position() > old(self).spec_position(),
        decreases old(self).spec_tokens().len() - old(self).spec_position(), 25int,
    {
        let ghost t = self.spec_tokens();
        let ghost p0 = self.spec_position();
        while matches!(self.kind(), TokenKind::Newline | TokenKind::Comment(_))
            invariant
                self.wf(),
                self.spec_tokens() == t,
                t == old(self).spec_tokens(),
                p0 == old(self).spec_position(),
                self.spec_position() >= p0,
                sp_statement(t, p0) == sp_statement(t, self.spec_position()),
            decreases t.len() - self.spec_position(),
        {
            self.advance();
        }
        match self.kind() {
            TokenKind::Var | TokenKind::Varip => self.parse_var_declaration(),
            TokenKind::If => self.parse_if_statement(),
            TokenKind::For => self.parse_for_statement(),
            TokenKind::While => self.parse_while_statement(),
            TokenKind::Identifier(name) => {
                let checkpoint = self.position;
                let name = name.clone();
                self.advance();
                if matches!(self.kind(), TokenKind::Equal) {
                    self.advance();
                    return match self.parse_expression() {
                        Ok(value) => Ok(Stmt::Assignment { name, value: Box::new(value) }),
                        Err(e) => Err(e),
                    };
                }
                self.position = checkpoint;
                match self.parse_expression() {
                    Ok(e) => Ok(Stmt::Expression(e)),
                    Err(e) => Err(e),
                }
            },
            _ => match self.parse_expression() {
                Ok(e) => Ok(Stmt::Expression(e)),
                Err(e) => Err(e),
            },
        }
    }

    fn parse_var_declaration(&mut self) -> (r: Result<Stmt, ParseError>)
        requires
            old(self).wf(),
            old(self).spec_tokens()[old(self).spec_position()].kind is Var
                || old(self).spec_tokens()[old(self).spec_position()].kind is Varip,
        ensures
            final(self).wf(),
            final(self).spec_tokens() == old(self).spec_tokens(),
            stmt_result(
                r,
                sp_var_declaration(old(self).spec_tokens(), old(self).spec_position()),
                final(self).spec_position(),
            ),
            r is Ok ==> final(self).spec_position() > old(self).spec_position(),
        decreases old(self).spec_tokens().len() - old(self).spec_position(), 24int,
    {
        let is_varip = matches!(self.kind(), TokenKind::Varip);
        self.advance();
        let name = match self.expect_identifier() {
            Ok(n) => n,
            Err(e) => return Err(e),
        };
        match self.expect(TokenKind::Equal) {
            Ok(()) => {},
            Err(e) => return Err(e),
        }
        match self.parse_expression() {
            Ok(value) => Ok(Stmt::VarDeclaration { name, value: Box::new(value), is_varip }),
            Err(e) => Err(e),
        }
    }

    fn parse_if_statement(&mut self) -> (r: Result<Stmt, ParseError>)
        requires
            old(self).wf(),
            old(self).spec_tokens()[old(self).spec_position()].kind is If,
        ensures
            final(self).wf(),
            final(self).spec_tokens() == old(self).spec_tokens(),
            stmt_result(
                r,
                sp_if(old(self).spec_tokens(), old(self).spec_position()),
                final(self).spec_position(),
            ),
            r is Ok ==> final(self).spec_position() > old(self).spec_position(),
        decreases old(self).spec_tokens().len() - old(self).spec_position(), 24int,
    {
        self.advance();
        let condition = match self.parse_expression() {
            Ok(e) => e,
            Err(e) => return Err(e),
        };
        self.skip_optional_newline();
        let then_stmt = match self.parse_statement() {
            Ok(s) => s,
            Err(e) => return Err(e),
        };
        let mut then_branch: Vec<Stmt> = Vec::new();
        then_branch.push(then_stmt);
        proof {
            lemma_stmts_view_single(then_branch@);
        }
        if matches!(self.kind(), TokenKind::Else) {
            self.advance();
            self.skip_optional_newline();
            let else_stmt = match self.parse_statement() {
                Ok(s) => s,
                Err(e) => return Err(e),
            };
            let mut else_branch: Vec<Stmt> = Vec::new();
            else_branch.push(else_stmt);
            proof {
                lemma_stmts_view_single(else_branch@);
            }
            return Ok(
                Stmt::If {
                    condition: Box::new(condition),
                    then_branch,
                    else_branch: Some(else_branch),
                },
            );
        }
        Ok(Stmt::If { condition: Box::new(condition), then_branch, else_branch: None })
    }

    fn parse_for_statement(&mut self) -> (r: Result<Stmt, ParseError>)
        requires
            old(self).wf(),
            old(self).spec_tokens()[old(self).spec_position()].kind is For,
        ensures
            final(self).wf(),
            final(self).spec_tokens() == old(self).spec_tokens(),
            stmt_result(
                r,
                sp_for(old(self).spec_tokens(), old(self).spec_position()),
                final(self).spec_position(),
            ),
            r is Ok ==> final(self).spec_position() > old(self).spec_position(),
        decreases old(self).spec_tokens().len() - old(self).spec_position(), 24int,
    {
        self.advance();
        let variable = match self.expect_identifier() {
            Ok(n) => n,
            Err(e) => return Err(e),
        };
        match self.expect(TokenKind::Equal) {
            Ok(()) => {},
            Err(e) => return Err(e),
        }
        let start = match self.parse_expression() {
            Ok(e) => e,
            Err(e) => return Err(e),
        };
        let is_to = match self.kind() {
            TokenKind::Identifier(id) => crate::text::str_eq(id.as_str(), "to"),
            _ => false,
        };
        proof {
            reveal_strlit("to");
        }
        if !is_to {
            return Err(ParseError::InvalidSyntax("Expected 'to' in for loop".to_owned()));
        }
        self.advance();
        let end = match self.parse_expression() {
            Ok(e) => e,
            Err(e) => return Err(e),
        };
        self.skip_optional_newline();
        let body_stmt = match self.parse_statement() {
            Ok(s) => s,
            Err(e) => return Err(e),
        };
        let mut body: Vec<Stmt> = Vec::new();
        body.push(body_stmt);
        proof {
            lemma_stmts_view_single(body@);
        }
        Ok(Stmt::For { variable, start: Box::new(start), end: Box::new(end), body })
    }

    fn parse_while_statement(&mut self) -> (r: Result<Stmt, ParseError>)
        requires
            old(self).wf(),
            old(self).spec_tokens()[old(self).spec_position()].kind is While,
        ensures
            final(self).wf(),
            final(self).spec_tokens() == old(self).spec_tokens(),
            stmt_result(
                r,
                sp_while(old(self).spec_tokens(), old(self).spec_position()),
                final(self).spec_position(),
            ),
            r is Ok ==> final(self).spec_position() > old(self).spec_position(),
        decreases old(self).spec_tokens().len() - old(self).spec_position(), 24int,
    {
        self.advance();
        let condition = match self.parse_expression() {
            Ok(e) => e,
            Err(e) => return Err(e),
        };
        self.skip_optional_newline();
        let body_stmt = match self.parse_statement() {
            Ok(s) => s,
            Err(e) => return Err(e),
        };
        let mut body: Vec<Stmt> = Vec::new();
        body.push(body_stmt);
        proof {
            lemma_stmts_view_single(body@);
        }
        Ok(Stmt::While { condition: Box::new(condition), body })
    }

    #[verifier::rlimit(60)]
    fn parse_arguments(&mut self) -> (r: Result<Vec<Expr>, ParseError>)
        requires
            old(self).wf(),
        ensures
            final(self).wf(),
            final(self).spec_tokens() == old(self).spec_tokens(),
            args_result(
                r,
                sp_arguments(old(self).spec_tokens(), old(self).spec_position()),
                final(self).spec_position(),
            ),
            r is Ok ==> final(self).spec_position() >= old(self).spec_position(),
        decreases old(self).spec_tokens().len() - old(self).spec_position(), 20int,
    {
        let ghost t = self.spec_tokens();
        let ghost p0 = self.spec_position();
        let mut args: Vec<Expr> = Vec::new();
        if matches!(self.kind(), TokenKind::RightParen) {
            return Ok(args);
        }
        proof {
            assert(exprs_view(args@) =~= Seq::<ExprView>::empty());
            match sp_argument_list(t, p0) {
                Ok((v, q)) => assert(Seq::<ExprView>::empty() + v =~= v),
                Err(_) => {},
            }
        }
        loop
            invariant
                self.wf(),
                self.spec_tokens() == t,
                t == old(self).spec_tokens(),
                p0 == old(self).spec_position(),
                self.spec_position() >= p0,
                sp_arguments(t, p0) == prepend_args(
                    exprs_view(args@),
                    sp_argument_list(t, self.spec_position()),
                ),
            decreases t.len() - self.spec_position(),
        {
            let ghost q = self.spec_position();
            let named = match self.kind() {
                TokenKind::Identifier(_) => {
                    let n = self.tokens.len();
                    proof {
                        assert(t[t.len() - 1].kind is Eof);
                    }
                    matches!(self.tokens[self.position + 1].kind, TokenKind::Equal)
                },
                _ => false,
            };
            if named {
                self.advance();
                self.advance();
                match self.parse_expression() {
                    Ok(_) => {},
                    Err(e) => return Err(e),
                }
                if matches!(self.kind(), TokenKind::Comma) {
                    self.advance();
                } else {
                    proof {
                        assert(exprs_view(args@) + Seq::<ExprView>::empty() =~= exprs_view(args@));
                    }
                    return Ok(args);
                }
            } else {
                let e = match self.parse_expression() {
                    Ok(e) => e,
                    Err(err) => return Err(err),
                };
                let ghost before = exprs_view(args@);
                let ghost old_args = args@;
                let ghost ev = expr_view(e);
                args.push(e);
                proof {
                    assert(args@.drop_last() =~= old_args);
                }
                assert(exprs_view(args@) == before.push(ev));
                if matches!(self.kind(), TokenKind::Comma) {
                    self.advance();
                    proof {
                        match sp_argument_list(t, self.spec_position()) {
                            Ok((rest, q2)) => {
                                assert(before + (seq![ev] + rest) =~= before.push(ev) + rest);
                            },
                            Err(_) => {},
                        }
                    }
                } else {
                    proof {
                        assert(before + seq![ev] =~= before.push(ev));
                    }
                    return Ok(args);
                }
            }
        }
    }
}


/// Every position of a statement sequence's view is the view of the statement there.
pub proof fn lemma_stmts_view_index(s: Seq<Stmt>)
    ensures
        stmts_view(s).len() == s.len(),
        forall|i: int| 0 <= i < s.len() ==> #[trigger] stmts_view(s)[i] == stmt_view(s[i]),
    decreases s.len(),
{
    if s.len() > 0 {
        lemma_stmts_view_index(s.drop_last());
    }
}

/// Every position of an expression sequence's view is the view of the expression there.
pub proof fn lemma_exprs_view_index(s: Seq<Expr>)
    ensures
        exprs_view(s).len() == s.len(),
        forall|i: int| 0 <= i < s.len() ==> #[trigger] exprs_view(s)[i] == expr_view(s[i]),
    decreases s.len(),
{
    if s.len() > 0 {
        lemma_exprs_view_index(s.drop_last());
    }
}

/// The title given by a statement: the first argument of an `indicator(..)` or
/// `strategy(..)` call statement, when it is a string literal.
pub open spec fn title_of(st: StmtView) -> Option<Seq<char>> {
    match st {
        StmtView::Expression(ExprView::FunctionCall { name, args }) => if (name == "indicator"@
            || name == "strategy"@) && args.len() > 0 && args[0] is StringLiteral {
            Some(args[0]->StringLiteral_0)
        } else {
            None
        },
        _ => None,
    }
}

/// The title given by the first statement that gives one.
pub open spec fn first_title(s: Seq<StmtView>) -> Option<Seq<char>>
    decreases s.len(),
{
    if s.len() == 0 {
        None
    } else {
        match title_of(s[0]) {
            Some(t) => Some(t),
            None => first_title(s.drop_first()),
        }
    }
}

/// Whether a statement is an `indicator(..)` call.
pub open spec fn is_indicator_call(st: StmtView) -> bool {
    match st {
        StmtView::Expression(ExprView::FunctionCall { name, args }) => name == "indicator"@,
        _ => false,
    }
}

/// Extract the indicator name from a script: the string literal that the
/// first `indicator(..)` or `strategy(..)` call with one passes first.
pub fn extract_name(program: &Program) -> (r: Option<String>)
    ensures
        match first_title(stmts_view(program.statements@)) {
            Some(t) => r is Some && r->Some_0@ == t,
            None => r is None,
        },
{
    let ghost sv = stmts_view(program.statements@);
    proof {
        lemma_stmts_view_index(program.statements@);
        reveal_strlit("indicator");
        reveal_strlit("strategy");
        assert(sv.skip(0) =~= sv);
    }
    let mut i: usize = 0;
    while i < program.statements.len()
        invariant
            i <= program.statements@.len(),
            sv == stmts_view(program.statements@),
            sv.len() == program.statements@.len(),
            forall|j: int|
                0 <= j < program.statements@.len() ==> #[trigger] sv[j] == stmt_view(
                    program.statements@[j],
                ),
            first_title(sv) == first_title(sv.skip(i as int)),
        decreases program.statements@.len() - i,
    {
        let ghost rest = sv.skip(i as int);
        assert(rest[0] == sv[i as int]);
        assert(rest.drop_first() =~= sv.skip(i + 1));
        if let Stmt::Expression(Expr::FunctionCall { name, args }) = &program.statements[i] {
            if (crate::text::str_eq(name.as_str(), "indicator") || crate::text::str_eq(
                name.as_str(),
                "strategy",
            )) && args.len() > 0 {
                proof {
                    lemma_exprs_view_index(args@);
                }
                if let Expr::StringLiteral(title) = &args[0] {
                    return Some(title.clone());
                }
            }
        }
        i = i + 1;
    }
    None
}

/// Whether a script declares an overlay indicator: whether it calls `indicator(..)`.
pub fn extract_overlay(program: &Program) -> (r: bool)
    ensures
        r == exists|i: int|
            0 <= i < program.statements@.len() && is_indicator_call(
                #[trigger] stmts_view(program.statements@)[i],
            ),
{
    let ghost sv = stmts_view(program.statements@);
    proof {
        lemma_stmts_view_index(program.statements@);
        reveal_strlit("indicator");
    }
    let mut i: usize = 0;
    while i < program.statements.len()
        invariant
            i <= program.statements@.len(),
            sv == stmts_view(program.statements@),
            sv.len() == program.statements@.len(),
            forall|j: int|
                0 <= j < program.statements@.len() ==> #[trigger] sv[j] == stmt_view(
                    program.statements@[j],
                ),
            forall|j: int| 0 <= j < i ==> !is_indicator_call(#[trigger] sv[j]),
        decreases program.statements@.len() - i,
    {
        if let Stmt::Expression(Expr::FunctionCall { name, args: _ }) = &program.statements[i] {
            if crate::text::str_eq(name.as_str(), "indicator") {
                assert(is_indicator_call(sv[i as int]));
                return true;
            }
        }
        i = i + 1;
    }
    false
}

} // verus!
