use egui_charts::scripting::{Lexer, TokenKind};

fn number(kind: &TokenKind) -> Option<f64> {
    match kind {
        TokenKind::Number(text) => Some(text.parse::<f64>().unwrap_or(0.0)),
        _ => None,
    }
}

#[test]
fn test_tokenize_numbers() {
    let mut lexer = Lexer::new("42 3.25 1e5 2.5e-3");
    let tokens = lexer.tokenize();

    assert!(matches!(number(&tokens[0].kind), Some(n) if n == 42.0));
    assert!(matches!(number(&tokens[1].kind), Some(n) if n == 3.25));
    assert!(matches!(number(&tokens[2].kind), Some(n) if n == 1e5));
    assert!(matches!(number(&tokens[3].kind), Some(n) if (n - 2.5e-3).abs() < 1e-10));
}

#[test]
fn test_tokenize_strings() {
    let mut lexer = Lexer::new(r#""Hello" 'World'"#);
    let tokens = lexer.tokenize();

    assert!(matches!(&tokens[0].kind, TokenKind::String(s) if s == "Hello"));
    assert!(matches!(&tokens[1].kind, TokenKind::String(s) if s == "World"));
}

#[test]
fn test_tokenize_identifiers() {
    let mut lexer = Lexer::new("length ta.sma close");
    let tokens = lexer.tokenize();

    assert!(matches!(&tokens[0].kind, TokenKind::Identifier(s) if s == "length"));
    assert!(matches!(&tokens[1].kind, TokenKind::Identifier(s) if s == "ta.sma"));
    assert!(matches!(tokens[2].kind, TokenKind::Close));
}

#[test]
fn test_tokenize_operators() {
    let mut lexer = Lexer::new("+ - * / == != <= >=");
    let tokens = lexer.tokenize();

    assert!(matches!(tokens[0].kind, TokenKind::Plus));
    assert!(matches!(tokens[1].kind, TokenKind::Minus));
    assert!(matches!(tokens[2].kind, TokenKind::Star));
    assert!(matches!(tokens[3].kind, TokenKind::Slash));
    assert!(matches!(tokens[4].kind, TokenKind::EqualEqual));
    assert!(matches!(tokens[5].kind, TokenKind::NotEqual));
    assert!(matches!(tokens[6].kind, TokenKind::LessEqual));
    assert!(matches!(tokens[7].kind, TokenKind::GreaterEqual));
}

#[test]
fn test_tokenize_comment() {
    let mut lexer = Lexer::new("// This is a comment\nclose");
    let tokens = lexer.tokenize();

    assert!(matches!(&tokens[0].kind, TokenKind::Comment(c) if c == "This is a comment"));
    assert!(matches!(tokens[1].kind, TokenKind::Newline));
    assert!(matches!(tokens[2].kind, TokenKind::Close));
}

#[test]
fn positions_escapes_and_skipped_characters() {
    let mut lexer = Lexer::new("x => 'a\\tb' @ .5\n  y");
    let tokens = lexer.tokenize();
    let kinds: Vec<&TokenKind> = tokens.iter().map(|t| &t.kind).collect();
    assert_eq!(kinds[0], &TokenKind::Identifier("x".to_string()));
    assert_eq!(kinds[1], &TokenKind::Arrow);
    assert_eq!(kinds[2], &TokenKind::String("a\tb".to_string()));
    // '@' starts no token and is skipped.
    assert_eq!(kinds[3], &TokenKind::Number(".5".to_string()));
    assert_eq!(kinds[4], &TokenKind::Newline);
    assert_eq!(kinds[5], &TokenKind::Identifier("y".to_string()));
    assert_eq!(kinds[6], &TokenKind::Eof);
    assert_eq!(tokens.len(), 7);
    assert_eq!((tokens[1].line, tokens[1].column), (1, 3));
    assert_eq!((tokens[3].line, tokens[3].column), (1, 15));
    assert_eq!((tokens[5].line, tokens[5].column), (2, 3));
}

#[test]
fn keywords_and_end_of_input() {
    let mut lexer = Lexer::new("if not varip and true");
    let tokens = lexer.tokenize();
    assert!(matches!(tokens[0].kind, TokenKind::If));
    assert!(matches!(tokens[1].kind, TokenKind::Not));
    assert!(matches!(tokens[2].kind, TokenKind::Varip));
    assert!(matches!(tokens[3].kind, TokenKind::And));
    assert!(matches!(tokens[4].kind, TokenKind::True));
    assert!(matches!(tokens[5].kind, TokenKind::Eof));
    let mut empty = Lexer::new("");
    let only = empty.tokenize();
    assert_eq!(only.len(), 1);
    assert!(matches!(only[0].kind, TokenKind::Eof));
    let mut unclosed = Lexer::new("\"abc");
    assert_eq!(unclosed.next_token().kind, TokenKind::String("abc".to_string()));
    assert_eq!(unclosed.next_token().kind, TokenKind::Eof);
}

#[test]
fn identifiers_take_letters_digits_underscores_and_dots() {
    let mut lexer = Lexer::new("ta.sma2 _x9 café 9z");
    let tokens = lexer.tokenize();
    assert!(matches!(&tokens[0].kind, TokenKind::Identifier(s) if s == "ta.sma2"));
    assert!(matches!(&tokens[1].kind, TokenKind::Identifier(s) if s == "_x9"));
    // A non-ASCII letter is a letter too.
    assert!(matches!(&tokens[2].kind, TokenKind::Identifier(s) if s == "café"));
    // A digit cannot start an identifier.
    assert!(matches!(&tokens[3].kind, TokenKind::Number(s) if s == "9"));
    assert!(matches!(&tokens[4].kind, TokenKind::Identifier(s) if s == "z"));
}
