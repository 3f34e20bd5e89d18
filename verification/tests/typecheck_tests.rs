use mylang::ast::TypeAST;
use mylang::lexer::Lexer;
use mylang::parser::Parser;
use mylang::token::Token;
use mylang::typechecker::{TypeError, Typechecker};

fn check_program(src: &str) -> Result<(), TypeError> {
    let lexer = Lexer::new(src.to_string().into_bytes());
    let mut parser = Parser::new(lexer);
    let parsed = parser.parse().expect("the program should parse");
    Typechecker::new(parsed, None, None, TypeAST::Void).check_types()
}

#[test]
fn shadowing_inner_function_redeclares_a_name() {
    // the nested function sees its own `x` as `str`; the outer scope
    // still sees `x` as `i32` after the definition
    let src = "fn main() {
                   let mut x: i32 = 5;
                   fn inner() -> str {
                       let x: str = \"s\";
                       return x;
                   }
                   x = 7;
               }";
    assert_eq!(check_program(src), Ok(()));
}

#[test]
fn shadowing_later_declaration_wins_in_one_scope() {
    let src = "fn main() {
                   let x: i32 = 1;
                   let mut x: str = \"s\";
                   x = \"t\";
               }";
    assert_eq!(check_program(src), Ok(()));
}

#[test]
fn inference_records_the_initializer_type() {
    let src = "fn main() {
                   let mut y = 5 + 3;
                   y = 7;
               }";
    assert_eq!(check_program(src), Ok(()));
}

#[test]
fn inference_then_conflicting_assignment_fails() {
    let src = "fn main() {
                   let mut y = 5 + 3;
                   y = \"text\";
               }";
    assert_eq!(
        check_program(src),
        Err(TypeError::ArgTypeMismatch { expected: TypeAST::I32, found: TypeAST::Str })
    );
}

#[test]
fn forward_and_mutual_references_between_siblings() {
    let src = "fn main() {
                   fn a(x: i32) -> i32 {
                       return b(x);
                   }
                   fn b(y: i32) -> i32 {
                       return a(y);
                   }
               }";
    assert_eq!(check_program(src), Ok(()));
}

#[test]
fn call_with_wrong_arity_fails() {
    let src = "fn foo(a: u8, b: u8) -> u8 {
                   return a + b;
               }
               fn main() {
                   foo(3);
               }";
    assert_eq!(
        check_program(src),
        Err(TypeError::ArityMismatch { callee: "foo".to_string(), expected: 2, found: 1 })
    );
}

#[test]
fn call_with_wrong_argument_type_fails() {
    let src = "fn foo(a: u8, b: u8) -> u8 {
                   return a + b;
               }
               fn main() {
                   foo(3, \"x\");
               }";
    assert_eq!(
        check_program(src),
        Err(TypeError::ArgTypeMismatch { expected: TypeAST::U8, found: TypeAST::I32 })
    );
}

#[test]
fn call_with_matching_arguments_has_the_signature_type() {
    // u8-typed values fit the u8 parameters, and the call's result type
    // is the signature's u8 return type
    let src = "fn foo(a: u8, b: u8) -> u8 {
                   return a + b;
               }
               fn main(x: u8, y: u8) {
                   let r: u8 = foo(x, y);
               }";
    assert_eq!(check_program(src), Ok(()));
}

#[test]
fn integer_literals_are_i32_not_narrowed() {
    let src = "fn main() {
                   let a: i32 = 100;
               }";
    assert_eq!(check_program(src), Ok(()));
    let narrow = "fn main() {
                      let a: u8 = 100;
                  }";
    assert_eq!(
        check_program(narrow),
        Err(TypeError::ArgTypeMismatch { expected: TypeAST::U8, found: TypeAST::I32 })
    );
}

#[test]
fn undeclared_variable_fails() {
    let src = "fn main() {
                   x = 1;
               }";
    assert_eq!(check_program(src), Err(TypeError::UndeclaredVariable { name: "x".to_string() }));
}

#[test]
fn undefined_function_fails() {
    let src = "fn main() {
                   g(1);
               }";
    assert_eq!(check_program(src), Err(TypeError::UndefinedFunction { name: "g".to_string() }));
}

#[test]
fn operands_of_different_types_are_incompatible() {
    let src = "fn main() {
                   let z = 1 + \"s\";
               }";
    assert_eq!(
        check_program(src),
        Err(TypeError::IncompatibleOperands { lhs: TypeAST::I32, rhs: TypeAST::Str })
    );
}

#[test]
fn integer_operator_on_booleans_fails() {
    let src = "fn main() {
                   let z = true - false;
               }";
    assert_eq!(
        check_program(src),
        Err(TypeError::IncompatibleOperandType { op: Token::Minus, operand: TypeAST::Bool })
    );
}

#[test]
fn comparison_operators_are_unsupported_by_the_checker() {
    let src = "fn main() {
                   let z = 1 < 2;
               }";
    assert_eq!(check_program(src), Err(TypeError::UnsupportedOperator { op: Token::LessThan }));
}

#[test]
fn return_type_mismatch_fails() {
    let src = "fn f(x: u8) -> u8 {
                   return true;
               }
               fn main() {
                   f(1);
               }";
    assert_eq!(
        check_program(src),
        Err(TypeError::InvalidReturnType { expected: TypeAST::U8, found: TypeAST::Bool })
    );
}

#[test]
fn using_a_never_inferred_declaration_fails() {
    let src = "fn main() {
                   let mut x;
                   x = 1;
               }";
    assert_eq!(
        check_program(src),
        Err(TypeError::UnresolvedInferenceTarget { name: "x".to_string() })
    );
}

#[test]
fn string_concatenation_keeps_str() {
    let src = "fn greet(a: str) -> str {
                   return a + \"!\";
               }
               fn main() {
                   greet(\"hi\");
               }";
    assert_eq!(check_program(src), Ok(()));
}

#[test]
fn equality_yields_bool_for_any_common_type() {
    let src = "fn main() {
                   let b = 1 == 2;
                   let c: bool = b ^^ true;
               }";
    assert_eq!(check_program(src), Ok(()));
}

#[test]
fn if_condition_must_be_bool() {
    let ok = "fn main() {
                  if true {
                      let x: i32 = 1;
                  }
              }";
    assert_eq!(check_program(ok), Ok(()));
    let bad = "fn main() {
                   if 1 {
                       let x: i32 = 1;
                   }
               }";
    assert_eq!(
        check_program(bad),
        Err(TypeError::ArgTypeMismatch { expected: TypeAST::Bool, found: TypeAST::I32 })
    );
}

#[test]
fn ignored_call_result_is_void() {
    // a non-void function used as a statement type-checks: the discarded
    // result is forced to void
    let src = "fn f(x: i32) -> i32 {
                   return x;
               }
               fn main() {
                   f(1);
               }";
    assert_eq!(check_program(src), Ok(()));
}

#[test]
fn type_names_render_as_source_text() {
    assert_eq!(TypeAST::U8.text(), "u8");
    assert_eq!(TypeAST::I32.text(), "i32");
    assert_eq!(TypeAST::Str.text(), "str");
    assert_eq!(TypeAST::Undefined.text(), "undefined");
}
