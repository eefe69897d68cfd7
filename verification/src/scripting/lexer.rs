//! Pine Script lexer - tokenizes Pine Script source code.
//!
//! Numeric literals are kept as the text that was written (e.g. `"1.5e-3"`);
//! the interpreter reads their value.
use crate::text::{
    chars_eq_str, chars_of, push_str, is_digit, push_char, string_from_chars, string_from_range, trim,
    trim_bounds,
};
use vstd::prelude::*;

verus! {

/// Kinds of tokens produced by the [`Lexer`].
#[derive(Debug, Clone, PartialEq)]
pub enum TokenKind {
    // Literals
    /// Numeric literal, as written (e.g. `1.5e-3`)
    Number(String),
    /// String literal with escapes resolved
    String(String),
    Boolean(bool),
    // Identifiers and keywords
    Identifier(String),
    // Keywords
    If,
    Else,
    For,
    While,
    True,
    False,
    Var,
    Varip,
    // Built-in variables
    Open,
    High,
    Low,
    Close,
    Volume,
    Time,
    // Operators
    Plus,
    Minus,
    Star,
    Slash,
    Percent,
    Equal,
    EqualEqual,
    NotEqual,
    Less,
    LessEqual,
    Greater,
    GreaterEqual,
    And,
    Or,
    Not,
    Question,
    Colon,
    // Delimiters
    LeftParen,
    RightParen,
    LeftBracket,
    RightBracket,
    Comma,
    Dot,
    /// `=>`
    Arrow,
    // Special
    Newline,
    Eof,
    /// Text of a `//` comment, trimmed
    Comment(String),
}

/// The mathematical value of a [`TokenKind`]: text payloads as character sequences.
pub enum TokenKindView {
    Number(Seq<char>),
    String(Seq<char>),
    Boolean(bool),
    Identifier(Seq<char>),
    If,
    Else,
    For,
    While,
    True,
    False,
    Var,
    Varip,
    Open,
    High,
    Low,
    Close,
    Volume,
    Time,
    Plus,
    Minus,
    Star,
    Slash,
    Percent,
    Equal,
    EqualEqual,
    NotEqual,
    Less,
    LessEqual,
    Greater,
    GreaterEqual,
    And,
    Or,
    Not,
    Question,
    Colon,
    LeftParen,
    RightParen,
    LeftBracket,
    RightBracket,
    Comma,
    Dot,
    Arrow,
    Newline,
    Eof,
    Comment(Seq<char>),
}

impl View for TokenKind {
    type V = TokenKindView;

    open spec fn view(&self) -> TokenKindView {
        match self {
            TokenKind::Number(s) => TokenKindView::Number(s@),
            TokenKind::String(s) => TokenKindView::String(s@),
            TokenKind::Boolean(b) => TokenKindView::Boolean(*b),
            TokenKind::Identifier(s) => TokenKindView::Identifier(s@),
            TokenKind::If => TokenKindView::If,
            TokenKind::Else => TokenKindView::Else,
            TokenKind::For => TokenKindView::For,
            TokenKind::While => TokenKindView::While,
            TokenKind::True => TokenKindView::True,
            TokenKind::False => TokenKindView::False,
            TokenKind::Var => TokenKindView::Var,
            TokenKind::Varip => TokenKindView::Varip,
            TokenKind::Open => TokenKindView::Open,
            TokenKind::High => TokenKindView::High,
            TokenKind::Low => TokenKindView::Low,
            TokenKind::Close => TokenKindView::Close,
            TokenKind::Volume => TokenKindView::Volume,
            TokenKind::Time => TokenKindView::Time,
            TokenKind::Plus => TokenKindView::Plus,
            TokenKind::Minus => TokenKindView::Minus,
            TokenKind::Star => TokenKindView::Star,
            TokenKind::Slash => TokenKindView::Slash,
            TokenKind::Percent => TokenKindView::Percent,
            TokenKind::Equal => TokenKindView::Equal,
            TokenKind::EqualEqual => TokenKindView::EqualEqual,
            TokenKind::NotEqual => TokenKindView::NotEqual,
            TokenKind::Less => TokenKindView::Less,
            TokenKind::LessEqual => TokenKindView::LessEqual,
            TokenKind::Greater => TokenKindView::Greater,
            TokenKind::GreaterEqual => TokenKindView::GreaterEqual,
            TokenKind::And => TokenKindView::And,
            TokenKind::Or => TokenKindView::Or,
            TokenKind::Not => TokenKindView::Not,
            TokenKind::Question => TokenKindView::Question,
            TokenKind::Colon => TokenKindView::Colon,
            TokenKind::LeftParen => TokenKindView::LeftParen,
            TokenKind::RightParen => TokenKindView::RightParen,
            TokenKind::LeftBracket => TokenKindView::LeftBracket,
            TokenKind::RightBracket => TokenKindView::RightBracket,
            TokenKind::Comma => TokenKindView::Comma,
            TokenKind::Dot => TokenKindView::Dot,
            TokenKind::Arrow => TokenKindView::Arrow,
            TokenKind::Newline => TokenKindView::Newline,
            TokenKind::Eof => TokenKindView::Eof,
            TokenKind::Comment(s) => TokenKindView::Comment(s@),
        }
    }
}

/// Text shown when a token kind is displayed: the kind's name, with the text
/// of a literal, identifier or comment in parentheses.
pub open spec fn kind_text(k: TokenKindView) -> Seq<char> {
    match k {
        TokenKindView::Number(n) => "Number("@ + n + ")"@,
        TokenKindView::String(s) => "String(\""@ + s + "\")"@,
        TokenKindView::Boolean(b) => "Boolean("@ + (if b { "true"@ } else { "false"@ }) + ")"@,
        TokenKindView::Identifier(id) => "Identifier("@ + id + ")"@,
        TokenKindView::Comment(c) => "Comment("@ + c + ")"@,
            TokenKindView::If => "If"@,
            TokenKindView::Else => "Else"@,
            TokenKindView::For => "For"@,
            TokenKindView::While => "While"@,
            TokenKindView::True => "True"@,
            TokenKindView::False => "False"@,
            TokenKindView::Var => "Var"@,
            TokenKindView::Varip => "Varip"@,
            TokenKindView::Open => "Open"@,
            TokenKindView::High => "High"@,
            TokenKindView::Low => "Low"@,
            TokenKindView::Close => "Close"@,
            TokenKindView::Volume => "Volume"@,
            TokenKindView::Time => "Time"@,
            TokenKindView::Plus => "Plus"@,
            TokenKindView::Minus => "Minus"@,
            TokenKindView::Star => "Star"@,
            TokenKindView::Slash => "Slash"@,
            TokenKindView::Percent => "Percent"@,
            TokenKindView::Equal => "Equal"@,
            TokenKindView::EqualEqual => "EqualEqual"@,
            TokenKindView::NotEqual => "NotEqual"@,
            TokenKindView::Less => "Less"@,
            TokenKindView::LessEqual => "LessEqual"@,
            TokenKindView::Greater => "Greater"@,
            TokenKindView::GreaterEqual => "GreaterEqual"@,
            TokenKindView::And => "And"@,
            TokenKindView::Or => "Or"@,
            TokenKindView::Not => "Not"@,
            TokenKindView::Question => "Question"@,
            TokenKindView::Colon => "Colon"@,
            TokenKindView::LeftParen => "LeftParen"@,
            TokenKindView::RightParen => "RightParen"@,
            TokenKindView::LeftBracket => "LeftBracket"@,
            TokenKindView::RightBracket => "RightBracket"@,
            TokenKindView::Comma => "Comma"@,
            TokenKindView::Dot => "Dot"@,
            TokenKindView::Arrow => "Arrow"@,
            TokenKindView::Newline => "Newline"@,
            TokenKindView::Eof => "Eof"@,
    }
}

/// `open` + `inner` + `close`.
fn wrapped(open: &str, inner: &str, close: &str) -> (r: String)
    ensures
        r@ == open@ + inner@ + close@,
{
    let mut r = open.to_owned();
    push_str(&mut r, inner);
    push_str(&mut r, close);
    r
}

impl TokenKind {
    /// Text shown when this token kind is displayed.
    pub fn to_string(&self) -> (r: String)
        ensures
            r@ == kind_text(self@),
    {
        match self {
            TokenKind::Number(n) => wrapped("Number(", n.as_str(), ")"),
            TokenKind::String(s) => wrapped("String(\"", s.as_str(), "\")"),
            TokenKind::Boolean(b) => wrapped("Boolean(", if *b { "true" } else { "false" }, ")"),
            TokenKind::Identifier(id) => wrapped("Identifier(", id.as_str(), ")"),
            TokenKind::Comment(c) => wrapped("Comment(", c.as_str(), ")"),
            TokenKind::If => "If".to_owned(),
            TokenKind::Else => "Else".to_owned(),
            TokenKind::For => "For".to_owned(),
            TokenKind::While => "While".to_owned(),
            TokenKind::True => "True".to_owned(),
            TokenKind::False => "False".to_owned(),
            TokenKind::Var => "Var".to_owned(),
            TokenKind::Varip => "Varip".to_owned(),
            TokenKind::Open => "Open".to_owned(),
            TokenKind::High => "High".to_owned(),
            TokenKind::Low => "Low".to_owned(),
            TokenKind::Close => "Close".to_owned(),
            TokenKind::Volume => "Volume".to_owned(),
            TokenKind::Time => "Time".to_owned(),
            TokenKind::Plus => "Plus".to_owned(),
            TokenKind::Minus => "Minus".to_owned(),
            TokenKind::Star => "Star".to_owned(),
            TokenKind::Slash => "Slash".to_owned(),
            TokenKind::Percent => "Percent".to_owned(),
            TokenKind::Equal => "Equal".to_owned(),
            TokenKind::EqualEqual => "EqualEqual".to_owned(),
            TokenKind::NotEqual => "NotEqual".to_owned(),
            TokenKind::Less => "Less".to_owned(),
            TokenKind::LessEqual => "LessEqual".to_owned(),
            TokenKind::Greater => "Greater".to_owned(),
            TokenKind::GreaterEqual => "GreaterEqual".to_owned(),
            TokenKind::And => "And".to_owned(),
            TokenKind::Or => "Or".to_owned(),
            TokenKind::Not => "Not".to_owned(),
            TokenKind::Question => "Question".to_owned(),
            TokenKind::Colon => "Colon".to_owned(),
            TokenKind::LeftParen => "LeftParen".to_owned(),
            TokenKind::RightParen => "RightParen".to_owned(),
            TokenKind::LeftBracket => "LeftBracket".to_owned(),
            TokenKind::RightBracket => "RightBracket".to_owned(),
            TokenKind::Comma => "Comma".to_owned(),
            TokenKind::Dot => "Dot".to_owned(),
            TokenKind::Arrow => "Arrow".to_owned(),
            TokenKind::Newline => "Newline".to_owned(),
            TokenKind::Eof => "Eof".to_owned(),
        }
    }
}

/// A token with the line and column (both starting at 1) where it begins.
#[derive(Debug, Clone)]
pub struct Token {
    pub kind: TokenKind,
    pub line: usize,
    pub column: usize,
}

/// The mathematical value of a [`Token`].
pub struct TokenView {
    pub kind: TokenKindView,
    pub line: int,
    pub column: int,
}

impl View for Token {
    type V = TokenView;

    open spec fn view(&self) -> TokenView {
        TokenView { kind: self.kind@, line: self.line as int, column: self.column as int }
    }
}

impl Token {
    pub fn new(kind: TokenKind, line: usize, column: usize) -> (r: Self)
        ensures
            r.kind == kind,
            r.line == line,
            r.column == column,
    {
        Token { kind, line, column }
    }
}

/// Names the result of `char::is_alphabetic`: whether a character has the
/// Unicode `Alphabetic` property.
pub uninterp spec fn alphabetic(c: char) -> bool;

/// Names the result of `char::is_alphanumeric`: whether a character is
/// alphabetic or numeric in the Unicode sense.
pub uninterp spec fn alphanumeric(c: char) -> bool;


/// Calls `char::is_alphabetic`; the contract ties the answer to the character
/// and says nothing about which characters are alphabetic.
#[verifier::external_body]
fn is_alphabetic(c: char) -> (r: bool)
    ensures
        r == alphabetic(c),
{
    c.is_alphabetic()
}

/// Calls `char::is_alphanumeric`; the contract ties the answer to the character
/// and states only what its documentation gives: every alphabetic character is
/// alphanumeric.
#[verifier::external_body]
fn is_alphanumeric(c: char) -> (r: bool)
    ensures
        r == alphanumeric(c),
        alphabetic(c) ==> r,
{
    c.is_alphanumeric()
}

pub open spec fn is_blank(c: char) -> bool {
    c == ' ' || c == '\t' || c == '\r'
}

/// Whether a character is a letter: for ASCII, exactly `A`-`Z` and `a`-`z`
/// (the ASCII characters with Unicode's `Alphabetic` property); otherwise as
/// `char::is_alphabetic` says.
pub open spec fn letter(c: char) -> bool {
    if c <= '\u{7f}' {
        ('A' <= c && c <= 'Z') || ('a' <= c && c <= 'z')
    } else {
        alphabetic(c)
    }
}

/// Whether a character is a letter or a digit: for ASCII, exactly the letters
/// and `0`-`9` (the ASCII characters that are alphabetic or numeric in
/// Unicode); otherwise as `char::is_alphanumeric` says.
pub open spec fn letter_or_digit(c: char) -> bool {
    if c <= '\u{7f}' {
        letter(c) || ('0' <= c && c <= '9')
    } else {
        alphanumeric(c)
    }
}

/// Whether a character is a letter (see [`letter`]): ASCII characters are
/// classified here, others by `char::is_alphabetic`.
fn is_letter(c: char) -> (r: bool)
    ensures
        r == letter(c),
{
    if c <= '\u{7f}' {
        ('A' <= c && c <= 'Z') || ('a' <= c && c <= 'z')
    } else {
        is_alphabetic(c)
    }
}

/// Whether a character is a letter or a digit (see [`letter_or_digit`]):
/// ASCII characters are classified here, others by `char::is_alphanumeric`.
fn is_letter_or_digit(c: char) -> (r: bool)
    ensures
        r == letter_or_digit(c),
        letter(c) ==> r,
{
    if c <= '\u{7f}' {
        ('A' <= c && c <= 'Z') || ('a' <= c && c <= 'z') || ('0' <= c && c <= '9')
    } else {
        is_alphanumeric(c)
    }
}

pub open spec fn is_ident_char(c: char) -> bool {
    letter_or_digit(c) || c == '_' || c == '.'
}

/// First index at or after `i` that is not a blank (space, tab, carriage return).
pub open spec fn blank_end(s: Seq<char>, i: int) -> int
    decreases s.len() - i,
{
    if 0 <= i < s.len() && is_blank(s[i]) {
        blank_end(s, i + 1)
    } else {
        i
    }
}

/// First index at or after `i` that holds a newline, or the end of `s`.
pub open spec fn line_end(s: Seq<char>, i: int) -> int
    decreases s.len() - i,
{
    if 0 <= i < s.len() && s[i] != '\n' {
        line_end(s, i + 1)
    } else {
        i
    }
}

/// First index at or after `i` that is neither an ASCII digit nor a dot.
pub open spec fn digits_dots_end(s: Seq<char>, i: int) -> int
    decreases s.len() - i,
{
    if 0 <= i < s.len() && (is_digit(s[i]) || s[i] == '.') {
        digits_dots_end(s, i + 1)
    } else {
        i
    }
}

/// First index at or after `i` that is not an ASCII digit.
pub open spec fn digits_end(s: Seq<char>, i: int) -> int
    decreases s.len() - i,
{
    if 0 <= i < s.len() && is_digit(s[i]) {
        digits_end(s, i + 1)
    } else {
        i
    }
}

/// First index at or after `i` that cannot continue an identifier.
pub open spec fn ident_end(s: Seq<char>, i: int) -> int
    decreases s.len() - i,
{
    if 0 <= i < s.len() && is_ident_char(s[i]) {
        ident_end(s, i + 1)
    } else {
        i
    }
}

/// End of a number starting at `i`: digits and dots, then optionally an
/// exponent marker, an optional sign, and digits.
pub open spec fn number_end(s: Seq<char>, i: int) -> int {
    let j = digits_dots_end(s, i);
    if j < s.len() && (s[j] == 'e' || s[j] == 'E') {
        let k = if j + 1 < s.len() && (s[j + 1] == '+' || s[j + 1] == '-') { j + 2 } else { j + 1 };
        digits_end(s, k)
    } else {
        j
    }
}

/// The character that an escape sequence `\c` stands for.
pub open spec fn unescape(c: char) -> char {
    if c == 'n' {
        '\n'
    } else if c == 'r' {
        '\r'
    } else if c == 't' {
        '\t'
    } else {
        c
    }
}

/// Contents and end of a string literal whose body starts at `i` and which is
/// closed by `quote`. The closing quote is consumed; an unclosed literal runs to
/// the end of the input.
pub open spec fn string_scan(s: Seq<char>, i: int, quote: char) -> (Seq<char>, int)
    decreases s.len() - i,
{
    if i < 0 || i >= s.len() {
        (Seq::empty(), if i < 0 { i } else { s.len() as int })
    } else if s[i] == quote {
        (Seq::empty(), i + 1)
    } else if s[i] == '\\' {
        if i + 1 >= s.len() {
            (Seq::empty(), s.len() as int)
        } else {
            let rest = string_scan(s, i + 2, quote);
            (seq![unescape(s[i + 1])] + rest.0, rest.1)
        }
    } else {
        let rest = string_scan(s, i + 1, quote);
        (seq![s[i]] + rest.0, rest.1)
    }
}

/// Keyword or identifier for a word.
pub open spec fn word_kind(w: Seq<char>) -> TokenKindView {
    if w == "if"@ {
        TokenKindView::If
    } else if w == "else"@ {
        TokenKindView::Else
    } else if w == "for"@ {
        TokenKindView::For
    } else if w == "while"@ {
        TokenKindView::While
    } else if w == "true"@ {
        TokenKindView::True
    } else if w == "false"@ {
        TokenKindView::False
    } else if w == "var"@ {
        TokenKindView::Var
    } else if w == "varip"@ {
        TokenKindView::Varip
    } else if w == "open"@ {
        TokenKindView::Open
    } else if w == "high"@ {
        TokenKindView::High
    } else if w == "low"@ {
        TokenKindView::Low
    } else if w == "close"@ {
        TokenKindView::Close
    } else if w == "volume"@ {
        TokenKindView::Volume
    } else if w == "time"@ {
        TokenKindView::Time
    } else if w == "and"@ {
        TokenKindView::And
    } else if w == "or"@ {
        TokenKindView::Or
    } else if w == "not"@ {
        TokenKindView::Not
    } else {
        TokenKindView::Identifier(w)
    }
}

/// Operator or delimiter starting at `i`, with its width in characters.
pub open spec fn operator_at(s: Seq<char>, i: int) -> Option<(TokenKindView, int)> {
    let c = s[i];
    let next = if i + 1 < s.len() { Some(s[i + 1]) } else { None };
    if c == '+' {
        Some((TokenKindView::Plus, 1))
    } else if c == '-' {
        Some((TokenKindView::Minus, 1))
    } else if c == '*' {
        Some((TokenKindView::Star, 1))
    } else if c == '/' {
        Some((TokenKindView::Slash, 1))
    } else if c == '%' {
        Some((TokenKindView::Percent, 1))
    } else if c == '(' {
        Some((TokenKindView::LeftParen, 1))
    } else if c == ')' {
        Some((TokenKindView::RightParen, 1))
    } else if c == '[' {
        Some((TokenKindView::LeftBracket, 1))
    } else if c == ']' {
        Some((TokenKindView::RightBracket, 1))
    } else if c == ',' {
        Some((TokenKindView::Comma, 1))
    } else if c == '.' {
        Some((TokenKindView::Dot, 1))
    } else if c == '?' {
        Some((TokenKindView::Question, 1))
    } else if c == ':' {
        Some((TokenKindView::Colon, 1))
    } else if c == '=' {
        if next == Some('=') {
            Some((TokenKindView::EqualEqual, 2))
        } else if next == Some('>') {
            Some((TokenKindView::Arrow, 2))
        } else {
            Some((TokenKindView::Equal, 1))
        }
    } else if c == '!' {
        if next == Some('=') {
            Some((TokenKindView::NotEqual, 2))
        } else {
            Some((TokenKindView::Not, 1))
        }
    } else if c == '<' {
        if next == Some('=') {
            Some((TokenKindView::LessEqual, 2))
        } else {
            Some((TokenKindView::Less, 1))
        }
    } else if c == '>' {
        if next == Some('=') {
            Some((TokenKindView::GreaterEqual, 2))
        } else {
            Some((TokenKindView::Greater, 1))
        }
    } else {
        None
    }
}

pub proof fn lemma_blank_end(s: Seq<char>, i: int)
    requires
        0 <= i <= s.len(),
    ensures
        i <= blank_end(s, i) <= s.len(),
        forall|k: int| i <= k < blank_end(s, i) ==> is_blank(#[trigger] s[k]),
        blank_end(s, i) < s.len() ==> !is_blank(s[blank_end(s, i)]),
    decreases s.len() - i,
{
    if i < s.len() && is_blank(s[i]) {
        lemma_blank_end(s, i + 1);
    }
}

pub proof fn lemma_line_end(s: Seq<char>, i: int)
    requires
        0 <= i <= s.len(),
    ensures
        i <= line_end(s, i) <= s.len(),
    decreases s.len() - i,
{
    if i < s.len() && s[i] != '\n' {
        lemma_line_end(s, i + 1);
    }
}

pub proof fn lemma_digits_dots_end(s: Seq<char>, i: int)
    requires
        0 <= i <= s.len(),
    ensures
        i <= digits_dots_end(s, i) <= s.len(),
    decreases s.len() - i,
{
    if i < s.len() && (is_digit(s[i]) || s[i] == '.') {
        lemma_digits_dots_end(s, i + 1);
    }
}

pub proof fn lemma_digits_end(s: Seq<char>, i: int)
    requires
        0 <= i <= s.len(),
    ensures
        i <= digits_end(s, i) <= s.len(),
    decreases s.len() - i,
{
    if i < s.len() && is_digit(s[i]) {
        lemma_digits_end(s, i + 1);
    }
}

pub proof fn lemma_ident_end(s: Seq<char>, i: int)
    requires
        0 <= i <= s.len(),
    ensures
        i <= ident_end(s, i) <= s.len(),
    decreases s.len() - i,
{
    if i < s.len() && is_ident_char(s[i]) {
        lemma_ident_end(s, i + 1);
    }
}

pub proof fn lemma_string_scan(s: Seq<char>, i: int, quote: char)
    requires
        0 <= i <= s.len(),
    ensures
        i <= string_scan(s, i, quote).1 <= s.len(),
    decreases s.len() - i,
{
    if i < s.len() && s[i] != quote && s[i] == '\\' && i + 1 < s.len() {
        lemma_string_scan(s, i + 2, quote);
    } else if i < s.len() && s[i] != quote && s[i] != '\\' {
        lemma_string_scan(s, i + 1, quote);
    }
}

/// The token that starts after the blanks at `pos` when the lexer is at line
/// `line` and column `col`, together with the position, line and column after it.
/// Characters that start no token are skipped.
pub open spec fn next_token_from(s: Seq<char>, pos: int, line: int, col: int) -> (
    TokenView,
    int,
    int,
    int,
)
    decreases s.len() - pos,
{
    if pos < 0 || pos > s.len() {
        (TokenView { kind: TokenKindView::Eof, line, column: col }, pos, line, col)
    } else {
        let p = blank_end(s, pos);
        let c0 = col + (p - pos);
        if p >= s.len() {
            (TokenView { kind: TokenKindView::Eof, line, column: c0 }, p, line, c0)
        } else {
            let ch = s[p];
            if ch == '/' && p + 1 < s.len() && s[p + 1] == '/' {
                let e = line_end(s, p + 2);
                (
                    TokenView {
                        kind: TokenKindView::Comment(trim(s.subrange(p + 2, e))),
                        line,
                        column: c0,
                    },
                    e,
                    line,
                    c0 + (e - p),
                )
            } else if ch == '\n' {
                (TokenView { kind: TokenKindView::Newline, line, column: c0 }, p + 1, line + 1, 1)
            } else if ch == '"' || ch == '\'' {
                let (v, e) = string_scan(s, p + 1, ch);
                (TokenView { kind: TokenKindView::String(v), line, column: c0 }, e, line, c0 + (e - p))
            } else if is_digit(ch) || (ch == '.' && p + 1 < s.len() && is_digit(s[p + 1])) {
                let e = number_end(s, p);
                (
                    TokenView { kind: TokenKindView::Number(s.subrange(p, e)), line, column: c0 },
                    e,
                    line,
                    c0 + (e - p),
                )
            } else if letter(ch) || ch == '_' {
                let e = ident_end(s, p);
                (
                    TokenView { kind: word_kind(s.subrange(p, e)), line, column: c0 },
                    e,
                    line,
                    c0 + (e - p),
                )
            } else {
                match operator_at(s, p) {
                    Some((k, w)) => (TokenView { kind: k, line, column: c0 }, p + w, line, c0 + w),
                    None => {
                        proof {
                            lemma_blank_end(s, pos);
                        }
                        next_token_from(s, p + 1, line, c0 + 1)
                    },
                }
            }
        }
    }
}

/// Tokens that the lexer produces from position `pos` on: one token after another
/// up to and including the end-of-input token.
pub open spec fn tokens_from(s: Seq<char>, pos: int, line: int, col: int) -> Seq<TokenView>
    decreases s.len() - pos,
{
    let (t, p2, l2, c2) = next_token_from(s, pos, line, col);
    if t.kind is Eof || !(pos < p2 <= s.len()) {
        seq![t]
    } else {
        seq![t] + tokens_from(s, p2, l2, c2)
    }
}

/// An operator or delimiter character at the lexer's position is a token of its
/// own, whose kind is fixed by that character and the one after it: `<` is
/// `Less` and `<=` is `LessEqual`, `>` is `Greater` and `>=` is `GreaterEqual`,
/// `=` is `Equal`, `==` is `EqualEqual` and `=>` is `Arrow`, `!` is `Not` and
/// `!=` is `NotEqual`; each of `+ - * % ( ) [ ] , ? :` is its own one-character
/// token, `/` is `Slash` unless a second `/` opens a comment, and `.` is `Dot`
/// unless a digit follows. The token starts where the character stands and ends
/// after its one or two characters.
pub proof fn operator_characters_fix_token_kind(s: Seq<char>, pos: int, line: int, col: int)
    requires
        0 <= pos < s.len(),
    ensures
        ({
            let (t, e, l2, c2) = next_token_from(s, pos, line, col);
            let c = s[pos];
            let has_next = pos + 1 < s.len();
            let eq_next = has_next && s[pos + 1] == '=';
            &&& (c == '<' && !eq_next) ==> (t.kind == TokenKindView::Less && e == pos + 1)
            &&& (c == '<' && eq_next) ==> (t.kind == TokenKindView::LessEqual && e == pos + 2)
            &&& (c == '>' && !eq_next) ==> (t.kind == TokenKindView::Greater && e == pos + 1)
            &&& (c == '>' && eq_next) ==> (t.kind == TokenKindView::GreaterEqual && e == pos
                + 2)
            &&& (c == '=' && eq_next) ==> (t.kind == TokenKindView::EqualEqual && e == pos + 2)
            &&& (c == '=' && has_next && s[pos + 1] == '>') ==> (t.kind == TokenKindView::Arrow
                && e == pos + 2)
            &&& (c == '=' && !eq_next && !(has_next && s[pos + 1] == '>')) ==> (t.kind
                == TokenKindView::Equal && e == pos + 1)
            &&& (c == '!' && eq_next) ==> (t.kind == TokenKindView::NotEqual && e == pos + 2)
            &&& (c == '!' && !eq_next) ==> (t.kind == TokenKindView::Not && e == pos + 1)
            &&& c == '+' ==> (t.kind == TokenKindView::Plus && e == pos + 1)
            &&& c == '-' ==> (t.kind == TokenKindView::Minus && e == pos + 1)
            &&& c == '*' ==> (t.kind == TokenKindView::Star && e == pos + 1)
            &&& c == '%' ==> (t.kind == TokenKindView::Percent && e == pos + 1)
            &&& c == '(' ==> (t.kind == TokenKindView::LeftParen && e == pos + 1)
            &&& c == ')' ==> (t.kind == TokenKindView::RightParen && e == pos + 1)
            &&& c == '[' ==> (t.kind == TokenKindView::LeftBracket && e == pos + 1)
            &&& c == ']' ==> (t.kind == TokenKindView::RightBracket && e == pos + 1)
            &&& c == ',' ==> (t.kind == TokenKindView::Comma && e == pos + 1)
            &&& c == '?' ==> (t.kind == TokenKindView::Question && e == pos + 1)
            &&& c == ':' ==> (t.kind == TokenKindView::Colon && e == pos + 1)
            &&& (c == '/' && !(has_next && s[pos + 1] == '/')) ==> (t.kind == TokenKindView::Slash
                && e == pos + 1)
            &&& (c == '.' && !(has_next && is_digit(s[pos + 1]))) ==> (t.kind
                == TokenKindView::Dot && e == pos + 1)
            &&& (c == '<' || c == '>' || c == '=' || c == '!' || c == '+' || c == '-' || c == '*'
                || c == '%' || c == '(' || c == ')' || c == '[' || c == ']' || c == ','
                || c == '?' || c == ':') ==> (t.line == line && t.column == col && l2 == line
                && c2 == col + (e - pos))
        }),
{
    let c = s[pos];
    if !is_blank(c) {
        assert(blank_end(s, pos) == pos);
    }
}

/// A run of digits from `i` up to `e`, followed by neither a digit nor a dot,
/// ends the digits-and-dots scan at `e`.
proof fn lemma_digit_run_end(s: Seq<char>, i: int, e: int)
    requires
        0 <= i <= e <= s.len(),
        forall|k: int| i <= k < e ==> is_digit(#[trigger] s[k]),
        e == s.len() || !(is_digit(s[e]) || s[e] == '.'),
    ensures
        digits_dots_end(s, i) == e,
    decreases e - i,
{
    if i < e {
        lemma_digit_run_end(s, i + 1, e);
    }
}

/// A run of identifier characters from `i` up to `e`, followed by a character
/// that cannot continue an identifier, ends the identifier scan at `e`.
proof fn lemma_ident_run_end(s: Seq<char>, i: int, e: int)
    requires
        0 <= i <= e <= s.len(),
        forall|k: int| i <= k < e ==> is_ident_char(#[trigger] s[k]),
        e == s.len() || !is_ident_char(s[e]),
    ensures
        ident_end(s, i) == e,
    decreases e - i,
{
    if i < e {
        lemma_ident_run_end(s, i + 1, e);
    }
}

/// A quoted body from `i` up to the closing quote at `j`, with no escape in it,
/// is read as the characters between.
proof fn lemma_plain_string_scan(s: Seq<char>, i: int, j: int, quote: char)
    requires
        0 <= i <= j < s.len(),
        s[j] == quote,
        forall|k: int| i <= k < j ==> #[trigger] s[k] != quote && s[k] != '\\',
    ensures
        string_scan(s, i, quote) == (s.subrange(i, j), j + 1),
    decreases j - i,
{
    if i < j {
        lemma_plain_string_scan(s, i + 1, j, quote);
        assert(seq![s[i]] + s.subrange(i + 1, j) =~= s.subrange(i, j));
    } else {
        assert(s.subrange(i, j) =~= Seq::<char>::empty());
    }
}

/// A whole number written at the lexer's position, a run of digits that is not
/// followed by a digit, a dot or an exponent marker, is one number token whose
/// text is exactly those digits; the token starts where the digits do and the
/// lexer moves past them on the same line.
pub proof fn digit_runs_lex_as_one_number(s: Seq<char>, pos: int, e: int, line: int, col: int)
    requires
        0 <= pos < e <= s.len(),
        forall|k: int| pos <= k < e ==> is_digit(#[trigger] s[k]),
        e == s.len() || !(is_digit(s[e]) || s[e] == '.' || s[e] == 'e' || s[e] == 'E'),
    ensures
        next_token_from(s, pos, line, col) == (
            TokenView { kind: TokenKindView::Number(s.subrange(pos, e)), line, column: col },
            e,
            line,
            col + (e - pos),
        ),
{
    assert(is_digit(s[pos]));
    assert(blank_end(s, pos) == pos);
    lemma_digit_run_end(s, pos, e);
}

/// A word at the lexer's position, a letter or `_` followed by letters, digits,
/// `_` or `.` up to a character that cannot continue it, is one token spanning
/// the word: each keyword of the language is its own keyword token, and any
/// other word is an identifier with exactly that text.
pub proof fn words_lex_as_keywords_or_identifiers(s: Seq<char>, pos: int, e: int, line: int, col: int)
    requires
        0 <= pos < e <= s.len(),
        letter(s[pos]) || s[pos] == '_',
        forall|k: int| pos <= k < e ==> is_ident_char(#[trigger] s[k]),
        e == s.len() || !is_ident_char(s[e]),
    ensures
        ({
            let (t, e2, l2, c2) = next_token_from(s, pos, line, col);
            let w = s.subrange(pos, e);
            &&& e2 == e && l2 == line && t.line == line && t.column == col && c2 == col + (e - pos)
            &&& w == "if"@ ==> t.kind == TokenKindView::If
            &&& w == "else"@ ==> t.kind == TokenKindView::Else
            &&& w == "for"@ ==> t.kind == TokenKindView::For
            &&& w == "while"@ ==> t.kind == TokenKindView::While
            &&& w == "true"@ ==> t.kind == TokenKindView::True
            &&& w == "false"@ ==> t.kind == TokenKindView::False
            &&& w == "var"@ ==> t.kind == TokenKindView::Var
            &&& w == "varip"@ ==> t.kind == TokenKindView::Varip
            &&& w == "open"@ ==> t.kind == TokenKindView::Open
            &&& w == "high"@ ==> t.kind == TokenKindView::High
            &&& w == "low"@ ==> t.kind == TokenKindView::Low
            &&& w == "close"@ ==> t.kind == TokenKindView::Close
            &&& w == "volume"@ ==> t.kind == TokenKindView::Volume
            &&& w == "time"@ ==> t.kind == TokenKindView::Time
            &&& w == "and"@ ==> t.kind == TokenKindView::And
            &&& w == "or"@ ==> t.kind == TokenKindView::Or
            &&& w == "not"@ ==> t.kind == TokenKindView::Not
            &&& !(w == "if"@ || w == "else"@ || w == "for"@ || w == "while"@ || w == "true"@ || w == "false"@ || w == "var"@ || w == "varip"@ || w == "open"@ || w == "high"@ || w == "low"@ || w == "close"@ || w == "volume"@ || w == "time"@ || w == "and"@ || w == "or"@ || w == "not"@) ==> t.kind == TokenKindView::Identifier(w)
        }),
{
    reveal_strlit("if");
    reveal_strlit("else");
    reveal_strlit("for");
    reveal_strlit("while");
    reveal_strlit("true");
    reveal_strlit("false");
    reveal_strlit("var");
    reveal_strlit("varip");
    reveal_strlit("open");
    reveal_strlit("high");
    reveal_strlit("low");
    reveal_strlit("close");
    reveal_strlit("volume");
    reveal_strlit("time");
    reveal_strlit("and");
    reveal_strlit("or");
    reveal_strlit("not");
    assert(!is_digit(s[pos]) && s[pos] != '"' && s[pos] != '\'' && s[pos] != '\n' && s[pos] != '/');
    assert(!is_blank(s[pos]));
    assert(blank_end(s, pos) == pos);
    lemma_ident_run_end(s, pos, e);
    let w = s.subrange(pos, e);
    if w == "if"@ {
        assert(w.len() == 2);
        assert("else"@.len() == 4);
        assert(w != "else"@);
        assert("for"@.len() == 3);
        assert(w != "for"@);
        assert("while"@.len() == 5);
        assert(w != "while"@);
        assert("true"@.len() == 4);
        assert(w != "true"@);
        assert("false"@.len() == 5);
        assert(w != "false"@);
        assert("var"@.len() == 3);
        assert(w != "var"@);
        assert("varip"@.len() == 5);
        assert(w != "varip"@);
        assert("open"@.len() == 4);
        assert(w != "open"@);
        assert("high"@.len() == 4);
        assert(w != "high"@);
        assert("low"@.len() == 3);
        assert(w != "low"@);
        assert("close"@.len() == 5);
        assert(w != "close"@);
        assert("volume"@.len() == 6);
        assert(w != "volume"@);
        assert("time"@.len() == 4);
        assert(w != "time"@);
        assert("and"@.len() == 3);
        assert(w != "and"@);
        assert(w[0] == 'i' && "or"@[0] == 'o');
        assert(w != "or"@);
        assert("not"@.len() == 3);
        assert(w != "not"@);
        assert(word_kind(w) == TokenKindView::If);
    } else if w == "else"@ {
        assert(w.len() == 4);
        assert("if"@.len() == 2);
        assert(w != "if"@);
        assert("for"@.len() == 3);
        assert(w != "for"@);
        assert("while"@.len() == 5);
        assert(w != "while"@);
        assert(w[0] == 'e' && "true"@[0] == 't');
        assert(w != "true"@);
        assert("false"@.len() == 5);
        assert(w != "false"@);
        assert("var"@.len() == 3);
        assert(w != "var"@);
        assert("varip"@.len() == 5);
        assert(w != "varip"@);
        assert(w[0] == 'e' && "open"@[0] == 'o');
        assert(w != "open"@);
        assert(w[0] == 'e' && "high"@[0] == 'h');
        assert(w != "high"@);
        assert("low"@.len() == 3);
        assert(w != "low"@);
        assert("close"@.len() == 5);
        assert(w != "close"@);
        assert("volume"@.len() == 6);
        assert(w != "volume"@);
        assert(w[0] == 'e' && "time"@[0] == 't');
        assert(w != "time"@);
        assert("and"@.len() == 3);
        assert(w != "and"@);
        assert("or"@.len() == 2);
        assert(w != "or"@);
        assert("not"@.len() == 3);
        assert(w != "not"@);
        assert(word_kind(w) == TokenKindView::Else);
    } else if w == "for"@ {
        assert(w.len() == 3);
        assert("if"@.len() == 2);
        assert(w != "if"@);
        assert("else"@.len() == 4);
        assert(w != "else"@);
        assert("while"@.len() == 5);
        assert(w != "while"@);
        assert("true"@.len() == 4);
        assert(w != "true"@);
        assert("false"@.len() == 5);
        assert(w != "false"@);
        assert(w[0] == 'f' && "var"@[0] == 'v');
        assert(w != "var"@);
        assert("varip"@.len() == 5);
        assert(w != "varip"@);
        assert("open"@.len() == 4);
        assert(w != "open"@);
        assert("high"@.len() == 4);
        assert(w != "high"@);
        assert(w[0] == 'f' && "low"@[0] == 'l');
        assert(w != "low"@);
        assert("close"@.len() == 5);
        assert(w != "close"@);
        assert("volume"@.len() == 6);
        assert(w != "volume"@);
        assert("time"@.len() == 4);
        assert(w != "time"@);
        assert(w[0] == 'f' && "and"@[0] == 'a');
        assert(w != "and"@);
        assert("or"@.len() == 2);
        assert(w != "or"@);
        assert(w[0] == 'f' && "not"@[0] == 'n');
        assert(w != "not"@);
        assert(word_kind(w) == TokenKindView::For);
    } else if w == "while"@ {
        assert(w.len() == 5);
        assert("if"@.len() == 2);
        assert(w != "if"@);
        assert("else"@.len() == 4);
        assert(w != "else"@);
        assert("for"@.len() == 3);
        assert(w != "for"@);
        assert("true"@.len() == 4);
        assert(w != "true"@);
        assert(w[0] == 'w' && "false"@[0] == 'f');
        assert(w != "false"@);
        assert("var"@.len() == 3);
        assert(w != "var"@);
        assert(w[0] == 'w' && "varip"@[0] == 'v');
        assert(w != "varip"@);
        assert("open"@.len() == 4);
        assert(w != "open"@);
        assert("high"@.len() == 4);
        assert(w != "high"@);
        assert("low"@.len() == 3);
        assert(w != "low"@);
        assert(w[0] == 'w' && "close"@[0] == 'c');
        assert(w != "close"@);
        assert("volume"@.len() == 6);
        assert(w != "volume"@);
        assert("time"@.len() == 4);
        assert(w != "time"@);
        assert("and"@.len() == 3);
        assert(w != "and"@);
        assert("or"@.len() == 2);
        assert(w != "or"@);
        assert("not"@.len() == 3);
        assert(w != "not"@);
        assert(word_kind(w) == TokenKindView::While);
    } else if w == "true"@ {
        assert(w.len() == 4);
        assert("if"@.len() == 2);
        assert(w != "if"@);
        assert(w[0] == 't' && "else"@[0] == 'e');
        assert(w != "else"@);
        assert("for"@.len() == 3);
        assert(w != "for"@);
        assert("while"@.len() == 5);
        assert(w != "while"@);
        assert("false"@.len() == 5);
        assert(w != "false"@);
        assert("var"@.len() == 3);
        assert(w != "var"@);
        assert("varip"@.len() == 5);
        assert(w != "varip"@);
        assert(w[0] == 't' && "open"@[0] == 'o');
        assert(w != "open"@);
        assert(w[0] == 't' && "high"@[0] == 'h');
        assert(w != "high"@);
        assert("low"@.len() == 3);
        assert(w != "low"@);
        assert("close"@.len() == 5);
        assert(w != "close"@);
        assert("volume"@.len() == 6);
        assert(w != "volume"@);
        assert(w[1] == 'r' && "time"@[1] == 'i');
        assert(w != "time"@);
        assert("and"@.len() == 3);
        assert(w != "and"@);
        assert("or"@.len() == 2);
        assert(w != "or"@);
        assert("not"@.len() == 3);
        assert(w != "not"@);
        assert(word_kind(w) == TokenKindView::True);
    } else if w == "false"@ {
        assert(w.len() == 5);
        assert("if"@.len() == 2);
        assert(w != "if"@);
        assert("else"@.len() == 4);
        assert(w != "else"@);
        assert("for"@.len() == 3);
        assert(w != "for"@);
        assert(w[0] == 'f' && "while"@[0] == 'w');
        assert(w != "while"@);
        assert("true"@.len() == 4);
        assert(w != "true"@);
        assert("var"@.len() == 3);
        assert(w != "var"@);
        assert(w[0] == 'f' && "varip"@[0] == 'v');
        assert(w != "varip"@);
        assert("open"@.len() == 4);
        assert(w != "open"@);
        assert("high"@.len() == 4);
        assert(w != "high"@);
        assert("low"@.len() == 3);
        assert(w != "low"@);
        assert(w[0] == 'f' && "close"@[0] == 'c');
        assert(w != "close"@);
        assert("volume"@.len() == 6);
        assert(w != "volume"@);
        assert("time"@.len() == 4);
        assert(w != "time"@);
        assert("and"@.len() == 3);
        assert(w != "and"@);
        assert("or"@.len() == 2);
        assert(w != "or"@);
        assert("not"@.len() == 3);
        assert(w != "not"@);
        assert(word_kind(w) == TokenKindView::False);
    } else if w == "var"@ {
        assert(w.len() == 3);
        assert("if"@.len() == 2);
        assert(w != "if"@);
        assert("else"@.len() == 4);
        assert(w != "else"@);
        assert(w[0] == 'v' && "for"@[0] == 'f');
        assert(w != "for"@);
        assert("while"@.len() == 5);
        assert(w != "while"@);
        assert("true"@.len() == 4);
        assert(w != "true"@);
        assert("false"@.len() == 5);
        assert(w != "false"@);
        assert("varip"@.len() == 5);
        assert(w != "varip"@);
        assert("open"@.len() == 4);
        assert(w != "open"@);
        assert("high"@.len() == 4);
        assert(w != "high"@);
        assert(w[0] == 'v' && "low"@[0] == 'l');
        assert(w != "low"@);
        assert("close"@.len() == 5);
        assert(w != "close"@);
        assert("volume"@.len() == 6);
        assert(w != "volume"@);
        assert("time"@.len() == 4);
        assert(w != "time"@);
        assert(w[0] == 'v' && "and"@[0] == 'a');
        assert(w != "and"@);
        assert("or"@.len() == 2);
        assert(w != "or"@);
        assert(w[0] == 'v' && "not"@[0] == 'n');
        assert(w != "not"@);
        assert(word_kind(w) == TokenKindView::Var);
    } else if w == "varip"@ {
        assert(w.len() == 5);
        assert("if"@.len() == 2);
        assert(w != "if"@);
        assert("else"@.len() == 4);
        assert(w != "else"@);
        assert("for"@.len() == 3);
        assert(w != "for"@);
        assert(w[0] == 'v' && "while"@[0] == 'w');
        assert(w != "while"@);
        assert("true"@.len() == 4);
        assert(w != "true"@);
        assert(w[0] == 'v' && "false"@[0] == 'f');
        assert(w != "false"@);
        assert("var"@.len() == 3);
        assert(w != "var"@);
        assert("open"@.len() == 4);
        assert(w != "open"@);
        assert("high"@.len() == 4);
        assert(w != "high"@);
        assert("low"@.len() == 3);
        assert(w != "low"@);
        assert(w[0] == 'v' && "close"@[0] == 'c');
        assert(w != "close"@);
        assert("volume"@.len() == 6);
        assert(w != "volume"@);
        assert("time"@.len() == 4);
        assert(w != "time"@);
        assert("and"@.len() == 3);
        assert(w != "and"@);
        assert("or"@.len() == 2);
        assert(w != "or"@);
        assert("not"@.len() == 3);
        assert(w != "not"@);
        assert(word_kind(w) == TokenKindView::Varip);
    } else if w == "open"@ {
        assert(w.len() == 4);
        assert("if"@.len() == 2);
        assert(w != "if"@);
        assert(w[0] == 'o' && "else"@[0] == 'e');
        assert(w != "else"@);
        assert("for"@.len() == 3);
        assert(w != "for"@);
        assert("while"@.len() == 5);
        assert(w != "while"@);
        assert(w[0] == 'o' && "true"@[0] == 't');
        assert(w != "true"@);
        assert("false"@.len() == 5);
        assert(w != "false"@);
        assert("var"@.len() == 3);
        assert(w != "var"@);
        assert("varip"@.len() == 5);
        assert(w != "varip"@);
        assert(w[0] == 'o' && "high"@[0] == 'h');
        assert(w != "high"@);
        assert("low"@.len() == 3);
        assert(w != "low"@);
        assert("close"@.len() == 5);
        assert(w != "close"@);
        assert("volume"@.len() == 6);
        assert(w != "volume"@);
        assert(w[0] == 'o' && "time"@[0] == 't');
        assert(w != "time"@);
        assert("and"@.len() == 3);
        assert(w != "and"@);
        assert("or"@.len() == 2);
        assert(w != "or"@);
        assert("not"@.len() == 3);
        assert(w != "not"@);
        assert(word_kind(w) == TokenKindView::Open);
    } else if w == "high"@ {
        assert(w.len() == 4);
        assert("if"@.len() == 2);
        assert(w != "if"@);
        assert(w[0] == 'h' && "else"@[0] == 'e');
        assert(w != "else"@);
        assert("for"@.len() == 3);
        assert(w != "for"@);
        assert("while"@.len() == 5);
        assert(w != "while"@);
        assert(w[0] == 'h' && "true"@[0] == 't');
        assert(w != "true"@);
        assert("false"@.len() == 5);
        assert(w != "false"@);
        assert("var"@.len() == 3);
        assert(w != "var"@);
        assert("varip"@.len() == 5);
        assert(w != "varip"@);
        assert(w[0] == 'h' && "open"@[0] == 'o');
        assert(w != "open"@);
        assert("low"@.len() == 3);
        assert(w != "low"@);
        assert("close"@.len() == 5);
        assert(w != "close"@);
        assert("volume"@.len() == 6);
        assert(w != "volume"@);
        assert(w[0] == 'h' && "time"@[0] == 't');
        assert(w != "time"@);
        assert("and"@.len() == 3);
        assert(w != "and"@);
        assert("or"@.len() == 2);
        assert(w != "or"@);
        assert("not"@.len() == 3);
        assert(w != "not"@);
        assert(word_kind(w) == TokenKindView::High);
    } else if w == "low"@ {
        assert(w.len() == 3);
        assert("if"@.len() == 2);
        assert(w != "if"@);
        assert("else"@.len() == 4);
        assert(w != "else"@);
        assert(w[0] == 'l' && "for"@[0] == 'f');
        assert(w != "for"@);
        assert("while"@.len() == 5);
        assert(w != "while"@);
        assert("true"@.len() == 4);
        assert(w != "true"@);
        assert("false"@.len() == 5);
        assert(w != "false"@);
        assert(w[0] == 'l' && "var"@[0] == 'v');
        assert(w != "var"@);
        assert("varip"@.len() == 5);
        assert(w != "varip"@);
        assert("open"@.len() == 4);
        assert(w != "open"@);
        assert("high"@.len() == 4);
        assert(w != "high"@);
        assert("close"@.len() == 5);
        assert(w != "close"@);
        assert("volume"@.len() == 6);
        assert(w != "volume"@);
        assert("time"@.len() == 4);
        assert(w != "time"@);
        assert(w[0] == 'l' && "and"@[0] == 'a');
        assert(w != "and"@);
        assert("or"@.len() == 2);
        assert(w != "or"@);
        assert(w[0] == 'l' && "not"@[0] == 'n');
        assert(w != "not"@);
        assert(word_kind(w) == TokenKindView::Low);
    } else if w == "close"@ {
        assert(w.len() == 5);
        assert("if"@.len() == 2);
        assert(w != "if"@);
        assert("else"@.len() == 4);
        assert(w != "else"@);
        assert("for"@.len() == 3);
        assert(w != "for"@);
        assert(w[0] == 'c' && "while"@[0] == 'w');
        assert(w != "while"@);
        assert("true"@.len() == 4);
        assert(w != "true"@);
        assert(w[0] == 'c' && "false"@[0] == 'f');
        assert(w != "false"@);
        assert("var"@.len() == 3);
        assert(w != "var"@);
        assert(w[0] == 'c' && "varip"@[0] == 'v');
        assert(w != "varip"@);
        assert("open"@.len() == 4);
        assert(w != "open"@);
        assert("high"@.len() == 4);
        assert(w != "high"@);
        assert("low"@.len() == 3);
        assert(w != "low"@);
        assert("volume"@.len() == 6);
        assert(w != "volume"@);
        assert("time"@.len() == 4);
        assert(w != "time"@);
        assert("and"@.len() == 3);
        assert(w != "and"@);
        assert("or"@.len() == 2);
        assert(w != "or"@);
        assert("not"@.len() == 3);
        assert(w != "not"@);
        assert(word_kind(w) == TokenKindView::Close);
    } else if w == "volume"@ {
        assert(w.len() == 6);
        assert("if"@.len() == 2);
        assert(w != "if"@);
        assert("else"@.len() == 4);
        assert(w != "else"@);
        assert("for"@.len() == 3);
        assert(w != "for"@);
        assert("while"@.len() == 5);
        assert(w != "while"@);
        assert("true"@.len() == 4);
        assert(w != "true"@);
        assert("false"@.len() == 5);
        assert(w != "false"@);
        assert("var"@.len() == 3);
        assert(w != "var"@);
        assert("varip"@.len() == 5);
        assert(w != "varip"@);
        assert("open"@.len() == 4);
        assert(w != "open"@);
        assert("high"@.len() == 4);
        assert(w != "high"@);
        assert("low"@.len() == 3);
        assert(w != "low"@);
        assert("close"@.len() == 5);
        assert(w != "close"@);
        assert("time"@.len() == 4);
        assert(w != "time"@);
        assert("and"@.len() == 3);
        assert(w != "and"@);
        assert("or"@.len() == 2);
        assert(w != "or"@);
        assert("not"@.len() == 3);
        assert(w != "not"@);
        assert(word_kind(w) == TokenKindView::Volume);
    } else if w == "time"@ {
        assert(w.len() == 4);
        assert("if"@.len() == 2);
        assert(w != "if"@);
        assert(w[0] == 't' && "else"@[0] == 'e');
        assert(w != "else"@);
        assert("for"@.len() == 3);
        assert(w != "for"@);
        assert("while"@.len() == 5);
        assert(w != "while"@);
        assert(w[1] == 'i' && "true"@[1] == 'r');
        assert(w != "true"@);
        assert("false"@.len() == 5);
        assert(w != "false"@);
        assert("var"@.len() == 3);
        assert(w != "var"@);
        assert("varip"@.len() == 5);
        assert(w != "varip"@);
        assert(w[0] == 't' && "open"@[0] == 'o');
        assert(w != "open"@);
        assert(w[0] == 't' && "high"@[0] == 'h');
        assert(w != "high"@);
        assert("low"@.len() == 3);
        assert(w != "low"@);
        assert("close"@.len() == 5);
        assert(w != "close"@);
        assert("volume"@.len() == 6);
        assert(w != "volume"@);
        assert("and"@.len() == 3);
        assert(w != "and"@);
        assert("or"@.len() == 2);
        assert(w != "or"@);
        assert("not"@.len() == 3);
        assert(w != "not"@);
        assert(word_kind(w) == TokenKindView::Time);
    } else if w == "and"@ {
        assert(w.len() == 3);
        assert("if"@.len() == 2);
        assert(w != "if"@);
        assert("else"@.len() == 4);
        assert(w != "else"@);
        assert(w[0] == 'a' && "for"@[0] == 'f');
        assert(w != "for"@);
        assert("while"@.len() == 5);
        assert(w != "while"@);
        assert("true"@.len() == 4);
        assert(w != "true"@);
        assert("false"@.len() == 5);
        assert(w != "false"@);
        assert(w[0] == 'a' && "var"@[0] == 'v');
        assert(w != "var"@);
        assert("varip"@.len() == 5);
        assert(w != "varip"@);
        assert("open"@.len() == 4);
        assert(w != "open"@);
        assert("high"@.len() == 4);
        assert(w != "high"@);
        assert(w[0] == 'a' && "low"@[0] == 'l');
        assert(w != "low"@);
        assert("close"@.len() == 5);
        assert(w != "close"@);
        assert("volume"@.len() == 6);
        assert(w != "volume"@);
        assert("time"@.len() == 4);
        assert(w != "time"@);
        assert("or"@.len() == 2);
        assert(w != "or"@);
        assert(w[0] == 'a' && "not"@[0] == 'n');
        assert(w != "not"@);
        assert(word_kind(w) == TokenKindView::And);
    } else if w == "or"@ {
        assert(w.len() == 2);
        assert(w[0] == 'o' && "if"@[0] == 'i');
        assert(w != "if"@);
        assert("else"@.len() == 4);
        assert(w != "else"@);
        assert("for"@.len() == 3);
        assert(w != "for"@);
        assert("while"@.len() == 5);
        assert(w != "while"@);
        assert("true"@.len() == 4);
        assert(w != "true"@);
        assert("false"@.len() == 5);
        assert(w != "false"@);
        assert("var"@.len() == 3);
        assert(w != "var"@);
        assert("varip"@.len() == 5);
        assert(w != "varip"@);
        assert("open"@.len() == 4);
        assert(w != "open"@);
        assert("high"@.len() == 4);
        assert(w != "high"@);
        assert("low"@.len() == 3);
        assert(w != "low"@);
        assert("close"@.len() == 5);
        assert(w != "close"@);
        assert("volume"@.len() == 6);
        assert(w != "volume"@);
        assert("time"@.len() == 4);
        assert(w != "time"@);
        assert("and"@.len() == 3);
        assert(w != "and"@);
        assert("not"@.len() == 3);
        assert(w != "not"@);
        assert(word_kind(w) == TokenKindView::Or);
    } else if w == "not"@ {
        assert(w.len() == 3);
        assert("if"@.len() == 2);
        assert(w != "if"@);
        assert("else"@.len() == 4);
        assert(w != "else"@);
        assert(w[0] == 'n' && "for"@[0] == 'f');
        assert(w != "for"@);
        assert("while"@.len() == 5);
        assert(w != "while"@);
        assert("true"@.len() == 4);
        assert(w != "true"@);
        assert("false"@.len() == 5);
        assert(w != "false"@);
        assert(w[0] == 'n' && "var"@[0] == 'v');
        assert(w != "var"@);
        assert("varip"@.len() == 5);
        assert(w != "varip"@);
        assert("open"@.len() == 4);
        assert(w != "open"@);
        assert("high"@.len() == 4);
        assert(w != "high"@);
        assert(w[0] == 'n' && "low"@[0] == 'l');
        assert(w != "low"@);
        assert("close"@.len() == 5);
        assert(w != "close"@);
        assert("volume"@.len() == 6);
        assert(w != "volume"@);
        assert("time"@.len() == 4);
        assert(w != "time"@);
        assert(w[0] == 'n' && "and"@[0] == 'a');
        assert(w != "and"@);
        assert("or"@.len() == 2);
        assert(w != "or"@);
        assert(word_kind(w) == TokenKindView::Not);
    }
}

/// A line from `i` up to `e` without a newline, ended by a newline or the end of
/// the input, ends the line scan at `e`.
proof fn lemma_line_run_end(s: Seq<char>, i: int, e: int)
    requires
        0 <= i <= e <= s.len(),
        forall|k: int| i <= k < e ==> #[trigger] s[k] != '\n',
        e == s.len() || s[e] == '\n',
    ensures
        line_end(s, i) == e,
    decreases e - i,
{
    if i < e {
        lemma_line_run_end(s, i + 1, e);
    }
}

/// A `//` at the lexer's position opens a comment that runs to the end of the
/// line: one comment token holding the rest of the line with surrounding
/// whitespace trimmed; the lexer stops before the newline, on the same line.
pub proof fn comments_run_to_end_of_line(s: Seq<char>, pos: int, e: int, line: int, col: int)
    requires
        0 <= pos,
        pos + 2 <= e <= s.len(),
        s[pos] == '/' && s[pos + 1] == '/',
        forall|k: int| pos + 2 <= k < e ==> #[trigger] s[k] != '\n',
        e == s.len() || s[e] == '\n',
    ensures
        next_token_from(s, pos, line, col) == (
            TokenView { kind: TokenKindView::Comment(trim(s.subrange(pos + 2, e))), line, column: col },
            e,
            line,
            col + (e - pos),
        ),
{
    assert(blank_end(s, pos) == pos);
    lemma_line_run_end(s, pos + 2, e);
}

/// A newline at the lexer's position is a newline token, after which the
/// lexer stands on the next line, at its first column.
pub proof fn newline_starts_next_line(s: Seq<char>, pos: int, line: int, col: int)
    requires
        0 <= pos < s.len(),
        s[pos] == '\n',
    ensures
        next_token_from(s, pos, line, col) == (
            TokenView { kind: TokenKindView::Newline, line, column: col },
            pos + 1,
            line + 1,
            1int,
        ),
{
    assert(blank_end(s, pos) == pos);
}

/// A string literal at the lexer's position, in double or single quotes and
/// without escapes, is one string token holding the characters between the
/// quotes; the lexer moves past the closing quote.
pub proof fn plain_strings_lex_as_their_contents(s: Seq<char>, pos: int, j: int, line: int, col: int)
    requires
        0 <= pos < j < s.len(),
        s[pos] == '"' || s[pos] == '\'',
        s[j] == s[pos],
        forall|k: int| pos < k < j ==> #[trigger] s[k] != s[pos] && s[k] != '\\',
    ensures
        next_token_from(s, pos, line, col) == (
            TokenView { kind: TokenKindView::String(s.subrange(pos + 1, j)), line, column: col },
            j + 1,
            line,
            col + (j + 1 - pos),
        ),
{
    assert(blank_end(s, pos) == pos);
    lemma_plain_string_scan(s, pos + 1, j, s[pos]);
}

/// Pine Script lexer: turns source text into [`Token`]s.
pub struct Lexer {
    input: Vec<char>,
    position: usize,
    line: usize,
    column: usize,
}

impl Lexer {
    /// The characters being tokenized.
    pub closed spec fn spec_input(&self) -> Seq<char> {
        self.input@
    }

    /// Index of the next character to read.
    pub closed spec fn spec_position(&self) -> int {
        self.position as int
    }

    /// Current line, starting at 1.
    pub closed spec fn spec_line(&self) -> int {
        self.line as int
    }

    /// Current column, starting at 1.
    pub closed spec fn spec_column(&self) -> int {
        self.column as int
    }

    /// The lexer's position lies within its input, and the line and column
    /// never run ahead of the number of characters read.
    pub closed spec fn wf(&self) -> bool {
        &&& self.position <= self.input@.len()
        &&& self.input@.len() < usize::MAX
        &&& 1 <= self.line <= self.position + 1
        &&& 1 <= self.column <= self.position + 1
    }

    /// Creates a lexer at the start (line 1, column 1) of `input`.
    pub fn new(input: &str) -> (r: Self)
        requires
            input@.len() < usize::MAX,
        ensures
            r.wf(),
            r.spec_input() == input@,
            r.spec_position() == 0,
            r.spec_line() == 1,
            r.spec_column() == 1,
    {
        Lexer { input: chars_of(input), position: 0, line: 1, column: 1 }
    }

    /// Tokenizes the rest of the input, up to and including the end-of-input token.
    ///
    /// The end-of-input token is the last token and appears nowhere else.
    pub fn tokenize(&mut self) -> (r: Vec<Token>)
        requires
            old(self).wf(),
        ensures
            final(self).wf(),
            r@.len() >= 1,
            r@.last().kind is Eof,
            forall|i: int| 0 <= i < r@.len() - 1 ==> !(#[trigger] r@[i].kind is Eof),
            final(self).spec_input() == old(self).spec_input(),
            r@.map_values(|t: Token| t@) == tokens_from(
                old(self).spec_input(),
                old(self).spec_position(),
                old(self).spec_line(),
                old(self).spec_column(),
            ),
    {
        let mut tokens: Vec<Token> = Vec::new();
        let ghost s = self.input@;
        let ghost start = (self.position as int, self.line as int, self.column as int);
        loop
            invariant
                self.wf(),
                self.input@ == s,
                s == old(self).input@,
                forall|i: int| 0 <= i < tokens@.len() ==> !(#[trigger] tokens@[i].kind is Eof),
                start == (old(self).position as int, old(self).line as int, old(self).column as int),
                tokens@.map_values(|t: Token| t@) + tokens_from(
                    s,
                    self.position as int,
                    self.line as int,
                    self.column as int,
                ) == tokens_from(s, start.0, start.1, start.2),
            decreases s.len() - self.position,
        {
            let ghost before = (self.position as int, self.line as int, self.column as int);
            let token = self.next_token();
            let is_eof = matches!(token.kind, TokenKind::Eof);
            let ghost tv = token@;
            let ghost prev = tokens@.map_values(|t: Token| t@);
            tokens.push(token);
            proof {
                assert(tokens@.map_values(|t: Token| t@) =~= prev.push(tv));
            }
            if is_eof {
                proof {
                    assert(tokens_from(s, before.0, before.1, before.2) == seq![tv]);
                }
                return tokens;
            }
        }
    }

    /// Reads the next token, skipping blanks and characters that start no token.
    pub fn next_token(&mut self) -> (r: Token)
        requires
            old(self).wf(),
        ensures
            final(self).wf(),
            final(self).spec_input() == old(self).spec_input(),
            (r@, final(self).spec_position(), final(self).spec_line(), final(self).spec_column())
                == next_token_from(
                old(self).spec_input(),
                old(self).spec_position(),
                old(self).spec_line(),
                old(self).spec_column(),
            ),
            r.kind is Eof ==> final(self).spec_position() == old(self).spec_input().len(),
            !(r.kind is Eof) ==> old(self).spec_position() < final(self).spec_position(),
        decreases old(self).spec_input().len() - old(self).spec_position(),
    {
        let ghost s = self.input@;
        let ghost pos0 = self.position as int;
        let ghost col0 = self.column as int;
        self.skip_whitespace();
        proof {
            lemma_blank_end(s, pos0);
        }
        let line = self.line;
        let column = self.column;
        if self.is_at_end() {
            return Token::new(TokenKind::Eof, line, column);
        }
        let ch = self.curr_char();
        if ch == '/' && self.peek_char() == Some('/') {
            return self.read_comment();
        }
        if ch == '\n' {
            self.advance();
            self.line = self.line + 1;
            self.column = 1;
            return Token::new(TokenKind::Newline, line, column);
        }
        if ch == '"' || ch == '\'' {
            return self.read_string(ch);
        }
        let next = self.peek_char();
        if ('0' <= ch && ch <= '9') || (ch == '.' && match next {
            Some(c) => '0' <= c && c <= '9',
            None => false,
        }) {
            return self.read_num();
        }
        if is_letter(ch) || ch == '_' {
            return self.read_identifier();
        }
        let (kind, width): (TokenKind, usize) = if ch == '+' {
            (TokenKind::Plus, 1)
        } else if ch == '-' {
            (TokenKind::Minus, 1)
        } else if ch == '*' {
            (TokenKind::Star, 1)
        } else if ch == '/' {
            (TokenKind::Slash, 1)
        } else if ch == '%' {
            (TokenKind::Percent, 1)
        } else if ch == '(' {
            (TokenKind::LeftParen, 1)
        } else if ch == ')' {
            (TokenKind::RightParen, 1)
        } else if ch == '[' {
            (TokenKind::LeftBracket, 1)
        } else if ch == ']' {
            (TokenKind::RightBracket, 1)
        } else if ch == ',' {
            (TokenKind::Comma, 1)
        } else if ch == '.' {
            (TokenKind::Dot, 1)
        } else if ch == '?' {
            (TokenKind::Question, 1)
        } else if ch == ':' {
            (TokenKind::Colon, 1)
        } else if ch == '=' {
            if next == Some('=') {
                (TokenKind::EqualEqual, 2)
            } else if next == Some('>') {
                (TokenKind::Arrow, 2)
            } else {
                (TokenKind::Equal, 1)
            }
        } else if ch == '!' {
            if next == Some('=') {
                (TokenKind::NotEqual, 2)
            } else {
                (TokenKind::Not, 1)
            }
        } else if ch == '<' {
            if next == Some('=') {
                (TokenKind::LessEqual, 2)
            } else {
                (TokenKind::Less, 1)
            }
        } else if ch == '>' {
            if next == Some('=') {
                (TokenKind::GreaterEqual, 2)
            } else {
                (TokenKind::Greater, 1)
            }
        } else {
            // A character that starts no token is skipped.
            self.advance();
            return self.next_token();
        };
        self.advance();
        if width == 2 {
            self.advance();
        }
        Token::new(kind, line, column)
    }

    fn read_comment(&mut self) -> (r: Token)
        requires
            old(self).wf(),
            old(self).position + 1 < old(self).input@.len(),
            old(self).input@[old(self).position as int] == '/',
            old(self).input@[old(self).position + 1] == '/',
        ensures
            final(self).wf(),
            old(self).position < final(self).position,
            final(self).input@ == old(self).input@,
            final(self).line == old(self).line,
            ({
                let s = old(self).input@;
                let p = old(self).position as int;
                let e = line_end(s, p + 2);
                &&& r@ == TokenView {
                    kind: TokenKindView::Comment(trim(s.subrange(p + 2, e))),
                    line: old(self).line as int,
                    column: old(self).column as int,
                }
                &&& final(self).position == e
                &&& final(self).column == old(self).column + (e - p)
            }),
    {
        let line = self.line;
        let column = self.column;
        let ghost p = self.position as int;
        let ghost c0 = self.column as int;
        self.advance();
        self.advance();
        let start = self.position;
        proof {
            lemma_line_end(self.input@, start as int);
        }
        while !self.is_at_end() && self.curr_char() != '\n'
            invariant
                self.wf(),
                self.input@ == old(self).input@,
                self.line == line,
                start as int == p + 2,
                start <= self.position,
                self.column == c0 + (self.position - p),
                line_end(self.input@, start as int) == line_end(self.input@, self.position as int),
            decreases self.input@.len() - self.position,
        {
            self.advance();
        }
        let (lo, hi) = trim_bounds(&self.input, start, self.position);
        let text = string_from_range(&self.input, lo, hi);
        Token::new(TokenKind::Comment(text), line, column)
    }

    fn read_string(&mut self, quote: char) -> (r: Token)
        requires
            old(self).wf(),
            old(self).position < old(self).input@.len(),
        ensures
            final(self).wf(),
            old(self).position < final(self).position,
            final(self).input@ == old(self).input@,
            final(self).line == old(self).line,
            ({
                let s = old(self).input@;
                let p = old(self).position as int;
                let (v, e) = string_scan(s, p + 1, quote);
                &&& r@ == TokenView {
                    kind: TokenKindView::String(v),
                    line: old(self).line as int,
                    column: old(self).column as int,
                }
                &&& final(self).position == e
                &&& final(self).column == old(self).column + (e - p)
            }),
    {
        let line = self.line;
        let column = self.column;
        let ghost s = self.input@;
        let ghost p = self.position as int;
        let ghost c0 = self.column as int;
        self.advance();
        let mut text = String::new();
        proof {
            lemma_string_scan(s, p + 1, quote);
        }
        while !self.is_at_end() && self.curr_char() != quote
            invariant
                self.wf(),
                self.input@ == s,
                self.line == line,
                p + 1 <= self.position,
                self.column == c0 + (self.position - p),
                string_scan(s, p + 1, quote).0 == text@ + string_scan(
                    s,
                    self.position as int,
                    quote,
                ).0,
                string_scan(s, p + 1, quote).1 == string_scan(s, self.position as int, quote).1,
            decreases s.len() - self.position,
        {
            let ghost i = self.position as int;
            if self.curr_char() == '\\' {
                self.advance();
                if !self.is_at_end() {
                    let c = self.curr_char();
                    let escaped = if c == 'n' {
                        '\n'
                    } else if c == 'r' {
                        '\r'
                    } else if c == 't' {
                        '\t'
                    } else {
                        c
                    };
                    let ghost t0 = text@;
                    push_char(&mut text, escaped);
                    self.advance();
                    assert(text@ == t0 + seq![unescape(s[i + 1])]);
                }
            } else {
                let ghost t0 = text@;
                push_char(&mut text, self.curr_char());
                self.advance();
                assert(text@ == t0 + seq![s[i]]);
            }
        }
        if !self.is_at_end() {
            self.advance();
        }
        proof {
            assert(text@ =~= text@ + Seq::<char>::empty());
        }
        Token::new(TokenKind::String(text), line, column)
    }

    fn read_num(&mut self) -> (r: Token)
        requires
            old(self).wf(),
            old(self).position < old(self).input@.len(),
            is_digit(old(self).input@[old(self).position as int])
                || old(self).input@[old(self).position as int] == '.',
        ensures
            final(self).wf(),
            old(self).position < final(self).position,
            final(self).input@ == old(self).input@,
            final(self).line == old(self).line,
            ({
                let s = old(self).input@;
                let p = old(self).position as int;
                let e = number_end(s, p);
                &&& r@ == TokenView {
                    kind: TokenKindView::Number(s.subrange(p, e)),
                    line: old(self).line as int,
                    column: old(self).column as int,
                }
                &&& final(self).position == e
                &&& final(self).column == old(self).column + (e - p)
            }),
    {
        let line = self.line;
        let column = self.column;
        let ghost s = self.input@;
        let ghost c0 = self.column as int;
        let start = self.position;
        proof {
            lemma_digits_dots_end(s, start as int);
        }
        while !self.is_at_end() && (('0' <= self.curr_char() && self.curr_char() <= '9')
            || self.curr_char() == '.')
            invariant
                self.wf(),
                self.input@ == s,
                self.line == line,
                start <= self.position,
                self.column == c0 + (self.position - start),
                digits_dots_end(s, start as int) == digits_dots_end(s, self.position as int),
            decreases s.len() - self.position,
        {
            self.advance();
        }
        if !self.is_at_end() && (self.curr_char() == 'e' || self.curr_char() == 'E') {
            self.advance();
            if !self.is_at_end() && (self.curr_char() == '+' || self.curr_char() == '-') {
                self.advance();
            }
            let mid = self.position;
            proof {
                lemma_digits_end(s, mid as int);
            }
            while !self.is_at_end() && '0' <= self.curr_char() && self.curr_char() <= '9'
                invariant
                    self.wf(),
                    self.input@ == s,
                    self.line == line,
                    start <= mid <= self.position,
                    self.column == c0 + (self.position - start),
                    digits_end(s, mid as int) == digits_end(s, self.position as int),
                decreases s.len() - self.position,
            {
                self.advance();
            }
        }
        let text = string_from_range(&self.input, start, self.position);
        Token::new(TokenKind::Number(text), line, column)
    }

    fn read_identifier(&mut self) -> (r: Token)
        requires
            old(self).wf(),
            old(self).position < old(self).input@.len(),
        ensures
            final(self).wf(),
            final(self).input@ == old(self).input@,
            final(self).line == old(self).line,
            ({
                let s = old(self).input@;
                let p = old(self).position as int;
                let e = ident_end(s, p);
                &&& (letter(s[p]) || s[p] == '_') ==> p < e
                &&& r@ == TokenView {
                    kind: word_kind(s.subrange(p, e)),
                    line: old(self).line as int,
                    column: old(self).column as int,
                }
                &&& final(self).position == e
                &&& final(self).column == old(self).column + (e - p)
            }),
    {
        let line = self.line;
        let column = self.column;
        let ghost s = self.input@;
        let ghost c0 = self.column as int;
        let start = self.position;
        proof {
            lemma_ident_end(s, start as int);
        }
        while !self.is_at_end() && (is_letter_or_digit(self.curr_char()) || self.curr_char() == '_'
            || self.curr_char() == '.')
            invariant
                self.wf(),
                self.input@ == s,
                self.line == line,
                start <= self.position,
                self.column == c0 + (self.position - start),
                ident_end(s, start as int) == ident_end(s, self.position as int),
            decreases s.len() - self.position,
        {
            self.advance();
        }
        let mut word: Vec<char> = Vec::new();
        let mut k = start;
        while k < self.position
            invariant
                start <= k <= self.position <= s.len(),
                self.input@ == s,
                word@ == s.subrange(start as int, k as int),
            decreases self.position - k,
        {
            word.push(self.input[k]);
            k = k + 1;
            assert(word@ =~= s.subrange(start as int, k as int));
        }
        let kind = keyword_or_identifier(&word);
        Token::new(kind, line, column)
    }

    fn skip_whitespace(&mut self)
        requires
            old(self).wf(),
        ensures
            final(self).wf(),
            final(self).input@ == old(self).input@,
            final(self).line == old(self).line,
            final(self).position == blank_end(old(self).input@, old(self).position as int),
            final(self).column == old(self).column + (final(self).position - old(self).position),
    {
        let ghost s = self.input@;
        let ghost p0 = self.position as int;
        let ghost c0 = self.column as int;
        while !self.is_at_end() && (self.curr_char() == ' ' || self.curr_char() == '\t'
            || self.curr_char() == '\r')
            invariant
                self.wf(),
                self.input@ == s,
                self.line == old(self).line,
                p0 <= self.position,
                self.column == c0 + (self.position - p0),
                blank_end(s, p0) == blank_end(s, self.position as int),
            decreases s.len() - self.position,
        {
            self.advance();
        }
    }

    fn curr_char(&self) -> (c: char)
        requires
            self.position < self.input@.len(),
        ensures
            c == self.input@[self.position as int],
    {
        self.input[self.position]
    }

    fn peek_char(&self) -> (c: Option<char>)
        requires
            self.wf(),
        ensures
            c == (if self.position + 1 < self.input@.len() {
                Some(self.input@[self.position + 1])
            } else {
                None::<char>
            }),
    {
        if self.position + 1 < self.input.len() {
            Some(self.input[self.position + 1])
        } else {
            None
        }
    }

    fn advance(&mut self)
        requires
            old(self).wf(),
        ensures
            final(self).wf(),
            final(self).input@ == old(self).input@,
            final(self).line == old(self).line,
            old(self).position < old(self).input@.len() ==> final(self).position == old(self).position + 1
                && final(self).column == old(self).column + 1,
            old(self).position >= old(self).input@.len() ==> final(self).position == old(self).position
                && final(self).column == old(self).column,
    {
        if !self.is_at_end() {
            self.position = self.position + 1;
            self.column = self.column + 1;
        }
    }

    fn is_at_end(&self) -> (r: bool)
        ensures
            r == (self.position >= self.input@.len()),
    {
        self.position >= self.input.len()
    }
}

fn keyword_or_identifier(w: &Vec<char>) -> (r: TokenKind)
    ensures
        r@ == word_kind(w@),
{
    if chars_eq_str(w, "if") {
        TokenKind::If
    } else if chars_eq_str(w, "else") {
        TokenKind::Else
    } else if chars_eq_str(w, "for") {
        TokenKind::For
    } else if chars_eq_str(w, "while") {
        TokenKind::While
    } else if chars_eq_str(w, "true") {
        TokenKind::True
    } else if chars_eq_str(w, "false") {
        TokenKind::False
    } else if chars_eq_str(w, "var") {
        TokenKind::Var
    } else if chars_eq_str(w, "varip") {
        TokenKind::Varip
    } else if chars_eq_str(w, "open") {
        TokenKind::Open
    } else if chars_eq_str(w, "high") {
        TokenKind::High
    } else if chars_eq_str(w, "low") {
        TokenKind::Low
    } else if chars_eq_str(w, "close") {
        TokenKind::Close
    } else if chars_eq_str(w, "volume") {
        TokenKind::Volume
    } else if chars_eq_str(w, "time") {
        TokenKind::Time
    } else if chars_eq_str(w, "and") {
        TokenKind::And
    } else if chars_eq_str(w, "or") {
        TokenKind::Or
    } else if chars_eq_str(w, "not") {
        TokenKind::Not
    } else {
        TokenKind::Identifier(string_from_chars(w))
    }
}

} // verus!
