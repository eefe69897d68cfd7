use egui_charts::scripting::{
    extract_name, extract_overlay, BinaryOp, BuiltinVar, Expr, Lexer, ParseError, Parser, Program,
    Stmt, UnaryOp,
};

fn parse(code: &str) -> Result<Program, ParseError> {
    let lexer = Lexer::new(code);
    let mut parser = Parser::new(lexer);
    parser.parse()
}

#[test]
fn test_parse_simple_assignment() {
    let code = "length = 20";
    let lexer = Lexer::new(code);
    let mut parser = Parser::new(lexer);
    let program = parser.parse().unwrap();

    assert_eq!(program.statements.len(), 1);
    assert!(matches!(program.statements[0], Stmt::Assignment { .. }));
}

#[test]
fn test_parse_function_call() {
    let code = "plot(close)";
    let lexer = Lexer::new(code);
    let mut parser = Parser::new(lexer);
    let program = parser.parse().unwrap();

    assert_eq!(program.statements.len(), 1);
    if let Stmt::Expression(Expr::FunctionCall { name, args }) = &program.statements[0] {
        assert_eq!(name, "plot");
        assert_eq!(args.len(), 1);
    } else {
        panic!("Expected function call");
    }
}

#[test]
fn test_parse_method_call() {
    let code = "ta.sma(close, 20)";
    let lexer = Lexer::new(code);
    let mut parser = Parser::new(lexer);
    let program = parser.parse().unwrap();

    assert_eq!(program.statements.len(), 1);
    if let Stmt::Expression(Expr::MethodCall { namespace, method, args }) = &program.statements[0] {
        assert_eq!(namespace, "ta");
        assert_eq!(method, "sma");
        assert_eq!(args.len(), 2);
    } else {
        panic!("Expected method call");
    }
}

#[test]
fn test_parse_binary_expression() {
    let code = "close > open";
    let lexer = Lexer::new(code);
    let mut parser = Parser::new(lexer);
    let program = parser.parse().unwrap();

    assert_eq!(program.statements.len(), 1);
    if let Stmt::Expression(Expr::Binary { op, .. }) = &program.statements[0] {
        assert_eq!(*op, BinaryOp::Greater);
    } else {
        panic!("Expected binary expression");
    }
}

#[test]
fn multiplication_binds_tighter_and_operators_associate_left() {
    let program = parse("a - b - c * d").unwrap();
    match &program.statements[0] {
        Stmt::Expression(Expr::Binary { left, op: BinaryOp::Subtract, right }) => {
            assert!(matches!(**left, Expr::Binary { op: BinaryOp::Subtract, .. }));
            assert!(matches!(**right, Expr::Binary { op: BinaryOp::Multiply, .. }));
        }
        other => panic!("unexpected {:?}", other),
    }
    let program = parse("x or y and not z").unwrap();
    match &program.statements[0] {
        Stmt::Expression(Expr::Binary { op: BinaryOp::Or, right, .. }) => match &**right {
            Expr::Binary { op: BinaryOp::And, right, .. } => {
                assert!(matches!(**right, Expr::Unary { op: UnaryOp::Not, .. }));
            }
            other => panic!("unexpected {:?}", other),
        },
        other => panic!("unexpected {:?}", other),
    }
}

#[test]
fn ternary_offsets_and_indexing() {
    let program = parse("c = close > open ? close[1] : arr[i]").unwrap();
    match &program.statements[0] {
        Stmt::Assignment { name, value } => {
            assert_eq!(name, "c");
            match &**value {
                Expr::Ternary { then_expr, else_expr, .. } => {
                    match &**then_expr {
                        Expr::SeriesOffset { series, offset } => {
                            assert!(matches!(**series, Expr::BuiltinVariable(BuiltinVar::Close)));
                            assert_eq!(offset, "1");
                        }
                        other => panic!("unexpected {:?}", other),
                    }
                    assert!(matches!(**else_expr, Expr::ArrayAccess { .. }));
                }
                other => panic!("unexpected {:?}", other),
            }
        }
        other => panic!("unexpected {:?}", other),
    }
}

#[test]
fn statements_and_named_arguments() {
    let code = "//@version=5\nindicator(\"My SMA\", overlay=true)\nvar x = 1\nvarip y = -x\nif x > 0\n    y = 2 else\n    y = 3\nfor i = 0 to 10\n    plot(i)\nwhile x < 5\n    x = x + 1\n";
    let program = parse(code).unwrap();
    assert_eq!(program.statements.len(), 6);
    match &program.statements[0] {
        Stmt::Expression(Expr::FunctionCall { name, args }) => {
            assert_eq!(name, "indicator");
            // The named argument is parsed and left out.
            assert_eq!(args.len(), 1);
        }
        other => panic!("unexpected {:?}", other),
    }
    assert!(matches!(&program.statements[1], Stmt::VarDeclaration { is_varip: false, .. }));
    assert!(matches!(&program.statements[2], Stmt::VarDeclaration { is_varip: true, .. }));
    match &program.statements[3] {
        Stmt::If { then_branch, else_branch, .. } => {
            assert_eq!(then_branch.len(), 1);
            assert_eq!(else_branch.as_ref().map(|b| b.len()), Some(1));
        }
        other => panic!("unexpected {:?}", other),
    }
    match &program.statements[4] {
        Stmt::For { variable, body, .. } => {
            assert_eq!(variable, "i");
            assert_eq!(body.len(), 1);
        }
        other => panic!("unexpected {:?}", other),
    }
    assert!(matches!(&program.statements[5], Stmt::While { .. }));
    assert_eq!(extract_name(&program), Some("My SMA".to_string()));
    assert!(extract_overlay(&program));
}

#[test]
fn sma_script_title_and_overlay() {
    let script = "\n//@version=5\nindicator(\"My SMA\", overlay=true)\n\nlength = 20\nsma_val = ta.sma(close, length)\nplot(sma_val)\n";
    let program = parse(script).unwrap();
    assert_eq!(extract_name(&program), Some("My SMA".to_string()));
    assert!(extract_overlay(&program));
    let plain = parse("x = 1").unwrap();
    assert_eq!(extract_name(&plain), None);
    assert!(!extract_overlay(&plain));
    let strategy = parse("strategy(\"Cross\")").unwrap();
    assert_eq!(extract_name(&strategy), Some("Cross".to_string()));
    assert!(!extract_overlay(&strategy));
}

#[test]
fn parse_errors() {
    match parse("x = (1 + 2") {
        Err(e @ ParseError::UnexpectedToken { .. }) => {
            assert_eq!(e.to_string(), "Parse error at 1:11: expected RightParen, found Eof");
        }
        other => panic!("unexpected {:?}", other),
    }
    match parse("for i = 0 upto 3 plot(i)") {
        Err(e) => assert_eq!(e.to_string(), "Invalid syntax: Expected 'to' in for loop"),
        other => panic!("unexpected {:?}", other),
    }
    match parse("(1).b(2)") {
        Err(e) => assert_eq!(e.to_string(), "Invalid syntax: Method calls require a namespace"),
        other => panic!("unexpected {:?}", other),
    }
    match parse("a.b") {
        // The lexer reads `a.b` as one identifier, so this is a variable.
        Ok(p) => assert!(matches!(&p.statements[0], Stmt::Expression(Expr::Variable(v)) if v == "a.b")),
        other => panic!("unexpected {:?}", other),
    }
    match parse("x = )") {
        Err(e) => assert_eq!(e.to_string(), "Parse error at 1:5: expected expression, found RightParen"),
        other => panic!("unexpected {:?}", other),
    }
    match parse("var 3 = 1") {
        Err(e) => assert_eq!(e.to_string(), "Parse error at 1:5: expected identifier, found Number(3)"),
        other => panic!("unexpected {:?}", other),
    }
    assert_eq!(ParseError::UnexpectedEof.to_string(), "Unexpected end of file");
}

#[test]
fn else_must_follow_the_then_statement() {
    // The else branch is only read right after the then statement.
    match parse("if x\n    y = 2\nelse\n    y = 3") {
        Err(e) => assert_eq!(e.to_string(), "Parse error at 3:1: expected expression, found Else"),
        other => panic!("unexpected {:?}", other),
    }
}

#[test]
fn empty_and_comment_only_scripts() {
    assert_eq!(parse("").unwrap().statements.len(), 0);
    assert_eq!(parse("// just a comment\n\n").unwrap().statements.len(), 0);
}
