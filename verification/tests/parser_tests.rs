use mylang::ast::{
    BinaryExpressionAST, BodyAST, ExprAST, StmtAST, TypeAST, VariableAST,
};
use mylang::lexer::Lexer;
use mylang::parser::{ParseError, Parser};
use mylang::token::Token;

fn parse_program(src: &str) -> Result<BodyAST, ParseError> {
    let lexer = Lexer::new(src.to_string().into_bytes());
    let mut parser = Parser::new(lexer);
    parser.parse()
}

/// The value expression of the first statement (an assignment) of the
/// first function of the program.
fn first_assigned_value(body: BodyAST) -> ExprAST {
    let mut stmts = body.stmts;
    assert_eq!(stmts.len(), 1);
    match stmts.remove(0) {
        StmtAST::Function(f) => {
            let mut inner = f.body.stmts;
            assert_eq!(inner.len(), 1);
            match inner.remove(0) {
                StmtAST::Assign(a) => a.value,
                other => panic!("expected an assignment, got {:?}", other),
            }
        },
        other => panic!("expected a function, got {:?}", other),
    }
}

fn var(name: &str) -> ExprAST {
    ExprAST::Variable(VariableAST { name: name.to_string() })
}

fn binary(op: Token, lhs: ExprAST, rhs: ExprAST) -> ExprAST {
    ExprAST::BinaryExpression(Box::new(BinaryExpressionAST { rhs, lhs, op }))
}

#[test]
fn test_parse_functions() {
    let mprogram = "fn foo(mut a: u8, mut b: u8) -> u8 {
                        return a + b;
                    }
                    fn main() -> void {
                        return foo(2,5);
                    }";
    let body = parse_program(mprogram).unwrap();
    assert_eq!(body.stmts.len(), 2);
}

#[test]
fn test_parse_assignment() {
    let mprogram = "fn main() -> void {
                        let a = 10;
                        let b = 20;
                        let c = a + b;
                    }";
    let body = parse_program(mprogram).unwrap();
    assert_eq!(body.stmts.len(), 1);
}

#[test]
fn test_parse_binary_expr() {
    let mprogram = "fn main() -> void {
                        let mut a: u8 = 10;
                        let b: u8 = 20;
                        let c: u16 = a + b * 3 - 1;
                    }";
    let body = parse_program(mprogram).unwrap();
    assert_eq!(body.stmts.len(), 1);
}

#[test]
fn test_parse_binary_expr_with_function_call() {
    let mprogram = "fn foo(a: u8, b: u8) -> u8 {
                        return a * a * b * b;
                    }
                    fn main() -> void {
                        let mut a: u8 = 10;
                        let b: u8 = 20;
                        let c: u16 = a + b * 3 + foo(3,2);
                    }";
    let body = parse_program(mprogram).unwrap();
    assert_eq!(body.stmts.len(), 2);
}

#[test]
fn precedence_multiplication_binds_tighter_than_addition() {
    let body = parse_program("fn f() { x = a + b * c; }").unwrap();
    let got = first_assigned_value(body);
    let expected = binary(Token::Plus, var("a"), binary(Token::Mult, var("b"), var("c")));
    assert_eq!(got, expected);
}

#[test]
fn precedence_equal_levels_bind_left_to_right() {
    let body = parse_program("fn f() { x = a - b - c; }").unwrap();
    let got = first_assigned_value(body);
    let expected = binary(Token::Minus, binary(Token::Minus, var("a"), var("b")), var("c"));
    assert_eq!(got, expected);
}

#[test]
fn precedence_boolean_and_binds_tighter_than_or() {
    let body = parse_program("fn f() { x = a && b || c; }").unwrap();
    let got = first_assigned_value(body);
    let expected = binary(Token::OrBool, binary(Token::AndBool, var("a"), var("b")), var("c"));
    assert_eq!(got, expected);
}

#[test]
fn parenthesized_expression_overrides_precedence() {
    let body = parse_program("fn f() { x = (a + b) * c; }").unwrap();
    let got = first_assigned_value(body);
    let expected = binary(Token::Mult, binary(Token::Plus, var("a"), var("b")), var("c"));
    assert_eq!(got, expected);
}

#[test]
fn missing_function_name_is_unexpected_token() {
    let err = parse_program("fn 5() {}").unwrap_err();
    assert!(matches!(err, ParseError::UnexpectedToken { found: Token::Number(5), .. }));
}

#[test]
fn truncated_input_is_unexpected_eof() {
    let err = parse_program("fn main(").unwrap_err();
    assert!(matches!(err, ParseError::UnexpectedEOF { line: 1 }));
}

#[test]
fn lexical_error_surfaces_through_the_parser() {
    let err = parse_program("fn main() { let x = 99999999999; }").unwrap_err();
    assert!(matches!(err, ParseError::Lex(_)));
}

#[test]
fn function_without_arrow_defaults_to_void() {
    let body = parse_program("fn f(a: i32) { return a; }").unwrap();
    match &body.stmts[0] {
        StmtAST::Function(f) => {
            assert_eq!(f.fn_signt.rt_type, TypeAST::Void);
            assert_eq!(f.fn_signt.args.len(), 1);
            assert_eq!(f.fn_signt.args[0].name, "a");
            assert_eq!(f.fn_signt.args[0].var_type, TypeAST::I32);
        },
        other => panic!("expected a function, got {:?}", other),
    }
}

#[test]
fn missing_declaration_type_is_undefined() {
    let body = parse_program("fn f() { let y = 5; }").unwrap();
    match &body.stmts[0] {
        StmtAST::Function(f) => match &f.body.stmts[0] {
            StmtAST::DeclAssign(da) => {
                assert_eq!(da.decl.var_type, TypeAST::Undefined);
                assert_eq!(da.decl.name, "y");
            },
            other => panic!("expected a declaration with assignment, got {:?}", other),
        },
        other => panic!("expected a function, got {:?}", other),
    }
}

#[test]
fn comments_are_skipped_at_top_level_and_in_bodies() {
    let body = parse_program("// leading\nfn f() { // inside\n let x: i32 = 1; }").unwrap();
    assert_eq!(body.stmts.len(), 1);
    match &body.stmts[0] {
        StmtAST::Function(f) => assert_eq!(f.body.stmts.len(), 1),
        other => panic!("expected a function, got {:?}", other),
    }
}
