//! The parser: single-token-lookahead recursive descent for statements and
//! declarations, precedence climbing for expressions.
//!
//! The model is the `sp_parse_*` family of spec functions over the parser
//! state `PSt`: the lexer cursor, the line counter and the one buffered
//! token. Each parsing method is proved to return exactly what its spec
//! twin says and to leave the parser in the twin's final state. For every
//! construct the invariant holds: on entry the current token is the first
//! token of the construct, on return the first token after it.
//!
//! The spec twins guard each recursive step on the measure `rem` shrinking;
//! the executable parser proves that the guards always hold, so the guarded
//! branch is the one taken.

use vstd::prelude::*;

use crate::ast::{
    view_body, view_call, view_decl, view_expr, view_expr_seq, view_sig, view_stmt, view_stmt_seq,
    AssignStmtAST, BinaryExpressionAST, BodyAST, BodySpec, BoolAST, CallAST, CallSpec, DeclAssignAST,
    DeclSpec, DeclarationAST, ExprAST, ExprSpec, FnSignatureAST, FunctionAST, FunctionSpec,
    IfStmtAST, NumberAST, ReturnStmtAST, SigSpec, StmtAST, StmtSpec, StringLiteralAST, TypeAST,
    VariableAST,
};
use crate::lexer::{lex_step, token_result_view, Lexer};
use crate::token::{LexError, Token, TokenSpec};

verus! {

/// The parser state: the cursor and line counter of the lexer, and the one
/// token the parser buffers (or the lexical error that producing it gave).
pub struct PSt {
    pub pos: nat,
    pub line: nat,
    pub cur: Result<TokenSpec, LexError>,
}

/// The state after consuming the buffered token: the lexer produces the
/// next one.
pub open spec fn padv(prog: Seq<u8>, st: PSt) -> PSt {
    let o = lex_step(prog, st.pos, st.line);
    PSt { pos: o.pos, line: o.line, cur: o.tok }
}

/// How much input is left to consume: twice the unread bytes, plus one if
/// the buffered token still has to be consumed. Strictly shrinks whenever
/// a token other than `EOF` is consumed, which bounds the parser's
/// recursion.
pub open spec fn rem(prog: Seq<u8>, st: PSt) -> nat {
    (if st.pos <= prog.len() {
        (prog.len() - st.pos) as nat
    } else {
        0nat
    }) * 2 + (match st.cur {
        Ok(t) => if t == TokenSpec::EOF {
            0nat
        } else {
            1nat
        },
        Err(_) => 0nat,
    })
}

/// Consuming a buffered token that is not `EOF` strictly shrinks `rem`.
pub proof fn lemma_padv_dec(prog: Seq<u8>, st: PSt)
    requires
        st.cur matches Ok(t) && t != TokenSpec::EOF,
    ensures
        rem(prog, padv(prog, st)) < rem(prog, st),
{
    crate::lexer::lemma_lex_step_bounds(prog, st.pos, st.line);
}

/// Advancing never grows `rem`, whatever the buffered token was.
pub proof fn lemma_padv_mono(prog: Seq<u8>, st: PSt)
    ensures
        rem(prog, padv(prog, st)) <= rem(prog, st),
{
    crate::lexer::lemma_lex_step_bounds(prog, st.pos, st.line);
}

/// The class of token a parse position called for; named in diagnostics.
#[derive(Debug, PartialEq, Eq, Structural, Clone, Copy)]
pub enum Expected {
    /// A primitive type name.
    TypeName,
    /// An identifier.
    Ident,
    /// A semicolon.
    SemiColon,
    /// A colon.
    Colon,
    /// An opening parenthesis or an assignment sign, after an identifier
    /// at statement position.
    ParenOrAssign,
    /// A comma or a closing parenthesis, after a parameter.
    CommaOrRParen,
    /// An opening brace.
    LBrace,
    /// A closing parenthesis.
    RParen,
    /// An opening parenthesis.
    LParen,
    /// A semicolon or an assignment sign, after a declaration.
    SemiColonOrAssign,
    /// The first token of a statement.
    Stmt,
    /// A function definition or a comment, at top level.
    TopLevel,
    /// The first token of a primary expression.
    Primary,
}

/// A failure to parse: a lexical error that surfaced while fetching a
/// token, or a token that does not fit the grammar at its position,
/// with the class that was expected and the line.
#[derive(Debug, PartialEq, Eq, Clone)]
pub enum ParseError {
    /// The lexer could not produce a token.
    Lex(LexError),
    /// The buffered token does not fit the grammar here.
    UnexpectedToken { expected: Expected, found: Token, line: u32 },
    /// The input ended where a construct was unfinished.
    UnexpectedEOF { line: u32 },
}

/// The model of a `ParseError`.
pub enum ParseErrorSpec {
    Lex(LexError),
    UnexpectedToken { expected: Expected, found: TokenSpec, line: u32 },
    UnexpectedEOF { line: u32 },
}

impl View for ParseError {
    type V = ParseErrorSpec;

    open spec fn view(&self) -> ParseErrorSpec {
        match self {
            ParseError::Lex(e) => ParseErrorSpec::Lex(*e),
            ParseError::UnexpectedToken { expected, found, line } => {
                ParseErrorSpec::UnexpectedToken { expected: *expected, found: found@, line: *line }
            },
            ParseError::UnexpectedEOF { line } => ParseErrorSpec::UnexpectedEOF { line: *line },
        }
    }
}

/// The error reported when the buffered token does not fit: a pending
/// lexical error surfaces as such, the end of input as `UnexpectedEOF`,
/// and any other token as `UnexpectedToken` with the class expected.
pub open spec fn err_at(st: PSt, expected: Expected) -> ParseErrorSpec {
    match st.cur {
        Err(e) => ParseErrorSpec::Lex(e),
        Ok(t) => if t == TokenSpec::EOF {
            ParseErrorSpec::UnexpectedEOF { line: st.line as u32 }
        } else {
            ParseErrorSpec::UnexpectedToken { expected, found: t, line: st.line as u32 }
        },
    }
}

/// The fixed precedence of the buffered token as a binary operator, and
/// `-1` for anything that is not one: higher binds tighter.
pub open spec fn sp_prec(cur: Result<TokenSpec, LexError>) -> int {
    match cur {
        Ok(t) => match t {
            TokenSpec::PlusAssign => 0,
            TokenSpec::MinusAssign => 0,
            TokenSpec::MultAssign => 0,
            TokenSpec::DivideAssign => 0,
            TokenSpec::AndIntAssign => 0,
            TokenSpec::OrIntAssign => 0,
            TokenSpec::XorIntAssign => 0,
            TokenSpec::OrBool => 1,
            TokenSpec::AndBool => 3,
            TokenSpec::XorBool => 5,
            TokenSpec::Equal => 7,
            TokenSpec::GreaterThan => 7,
            TokenSpec::LessThan => 7,
            TokenSpec::OrInt => 9,
            TokenSpec::XorInt => 11,
            TokenSpec::AndInt => 13,
            TokenSpec::LeftShift => 15,
            TokenSpec::RightShift => 15,
            TokenSpec::Plus => 17,
            TokenSpec::Minus => 17,
            TokenSpec::Mult => 19,
            TokenSpec::Divide => 19,
            TokenSpec::Not => 21,
            _ => -1,
        },
        Err(_) => -1,
    }
}

/// The type named by the buffered token, which is consumed.
pub open spec fn sp_parse_type(prog: Seq<u8>, st: PSt) -> Result<(TypeAST, PSt), ParseErrorSpec> {
    match st.cur {
        Ok(TokenSpec::U8) => Ok((TypeAST::U8, padv(prog, st))),
        Ok(TokenSpec::U16) => Ok((TypeAST::U16, padv(prog, st))),
        Ok(TokenSpec::U32) => Ok((TypeAST::U32, padv(prog, st))),
        Ok(TokenSpec::I8) => Ok((TypeAST::I8, padv(prog, st))),
        Ok(TokenSpec::I16) => Ok((TypeAST::I16, padv(prog, st))),
        Ok(TokenSpec::I32) => Ok((TypeAST::I32, padv(prog, st))),
        Ok(TokenSpec::Str) => Ok((TypeAST::Str, padv(prog, st))),
        Ok(TokenSpec::Char) => Ok((TypeAST::Char, padv(prog, st))),
        Ok(TokenSpec::Bool) => Ok((TypeAST::Bool, padv(prog, st))),
        Ok(TokenSpec::Void) => Ok((TypeAST::Void, padv(prog, st))),
        _ => Err(err_at(st, Expected::TypeName)),
    }
}

/// A primary expression: a variable or call, a literal, or a
/// parenthesized sub-expression.
pub open spec fn sp_parse_primary(prog: Seq<u8>, st: PSt) -> Result<
    (ExprSpec, PSt),
    ParseErrorSpec,
>
    decreases rem(prog, st), 1int,
{
    match st.cur {
        Ok(TokenSpec::Identifier(name)) => {
            let st1 = padv(prog, st);
            if st1.cur == Ok::<TokenSpec, LexError>(TokenSpec::LeftParen) {
                if rem(prog, st1) < rem(prog, st) {
                    match sp_parse_call_args(prog, st1, Seq::empty()) {
                        Ok((args, st2)) => Ok(
                            (
                                ExprSpec::Call(
                                    CallSpec { callee: name, args, rt_value_ignored: false },
                                ),
                                st2,
                            ),
                        ),
                        Err(e) => Err(e),
                    }
                } else {
                    arbitrary()
                }
            } else {
                Ok((ExprSpec::Variable(name), st1))
            }
        },
        Ok(TokenSpec::Number(n)) => Ok((ExprSpec::Number(n), padv(prog, st))),
        Ok(TokenSpec::StringLiteral(s)) => Ok((ExprSpec::StringLiteral(s), padv(prog, st))),
        Ok(TokenSpec::True) => Ok((ExprSpec::BoolLiteral(true), padv(prog, st))),
        Ok(TokenSpec::False) => Ok((ExprSpec::BoolLiteral(false), padv(prog, st))),
        Ok(TokenSpec::LeftParen) => {
            let st1 = padv(prog, st);
            if rem(prog, st1) < rem(prog, st) {
                match sp_parse_expression(prog, st1) {
                    Ok((e, st2)) => if st2.cur == Ok::<TokenSpec, LexError>(TokenSpec::RightParen) {
                        Ok((e, padv(prog, st2)))
                    } else {
                        Err(err_at(st2, Expected::RParen))
                    },
                    Err(e) => Err(e),
                }
            } else {
                arbitrary()
            }
        },
        _ => Err(err_at(st, Expected::Primary)),
    }
}

/// The comma-separated arguments of a call, entered at the opening
/// parenthesis (or, on later rounds, at the separator); the closing
/// parenthesis ends the list and is consumed.
pub open spec fn sp_parse_call_args(prog: Seq<u8>, st: PSt, acc: Seq<ExprSpec>) -> Result<
    (Seq<ExprSpec>, PSt),
    ParseErrorSpec,
>
    decreases rem(prog, st), 0int,
{
    match st.cur {
        Err(e) => Err(ParseErrorSpec::Lex(e)),
        Ok(TokenSpec::RightParen) => Ok((acc, padv(prog, st))),
        Ok(TokenSpec::EOF) => Err(err_at(st, Expected::Primary)),
        Ok(_) => {
            let st1 = padv(prog, st);
            if rem(prog, st1) < rem(prog, st) {
                match sp_parse_expression(prog, st1) {
                    Ok((e, st2)) => if rem(prog, st2) < rem(prog, st) {
                        sp_parse_call_args(prog, st2, acc.push(e))
                    } else {
                        arbitrary()
                    },
                    Err(e) => Err(e),
                }
            } else {
                arbitrary()
            }
        },
    }
}

/// Precedence climbing to the right of a parsed left-hand side: while the
/// buffered token is an operator of at least `min_prec`, consume it, parse
/// the next primary, climb into it while the following operator binds
/// tighter, and fold left-to-right.
pub open spec fn sp_parse_binop_rhs(prog: Seq<u8>, st: PSt, min_prec: int, lhs: ExprSpec) -> Result<
    (ExprSpec, PSt),
    ParseErrorSpec,
>
    decreases rem(prog, st), 2int,
{
    let p = sp_prec(st.cur);
    if p < min_prec {
        Ok((lhs, st))
    } else {
        match st.cur {
            Ok(op) => {
                let st1 = padv(prog, st);
                if rem(prog, st1) <= rem(prog, st) {
                    match sp_parse_primary(prog, st1) {
                        Err(e) => Err(e),
                        Ok((rhs0, st2)) => {
                            let p2 = sp_prec(st2.cur);
                            let climbed: Result<(ExprSpec, PSt), ParseErrorSpec> = if p < p2 {
                                if rem(prog, st2) < rem(prog, st) {
                                    sp_parse_binop_rhs(prog, st2, p + 1, rhs0)
                                } else {
                                    arbitrary()
                                }
                            } else {
                                Ok((rhs0, st2))
                            };
                            match climbed {
                                Err(e) => Err(e),
                                Ok((rhs, st3)) => if rem(prog, st3) < rem(prog, st) {
                                    sp_parse_binop_rhs(
                                        prog,
                                        st3,
                                        min_prec,
                                        ExprSpec::Binary {
                                            op,
                                            lhs: Box::new(lhs),
                                            rhs: Box::new(rhs),
                                        },
                                    )
                                } else {
                                    arbitrary()
                                },
                            }
                        },
                    }
                } else {
                    arbitrary()
                }
            },
            Err(_) => arbitrary(),  // sp_prec is -1 on Err, so min_prec <= -1 never reaches here
        }
    }
}

/// A whole expression: one primary, then precedence climbing from the
/// lowest level.
pub open spec fn sp_parse_expression(prog: Seq<u8>, st: PSt) -> Result<
    (ExprSpec, PSt),
    ParseErrorSpec,
>
    decreases rem(prog, st), 3int,
{
    match sp_parse_primary(prog, st) {
        Err(e) => Err(e),
        Ok((lhs, st1)) => if rem(prog, st1) <= rem(prog, st) {
            sp_parse_binop_rhs(prog, st1, 0, lhs)
        } else {
            arbitrary()
        },
    }
}

/// The right side of an assignment, entered at the assignment sign; ends
/// with the buffered token on the terminating semicolon, which the caller
/// consumes.
pub open spec fn sp_parse_assign(prog: Seq<u8>, st: PSt, name: Seq<char>) -> Result<
    (StmtSpec, PSt),
    ParseErrorSpec,
> {
    let st1 = padv(prog, st);
    match sp_parse_expression(prog, st1) {
        Err(e) => Err(e),
        Ok((v, st2)) => if st2.cur == Ok::<TokenSpec, LexError>(TokenSpec::SemiColon) {
            Ok((StmtSpec::Assign { name, value: v }, st2))
        } else {
            Err(err_at(st2, Expected::SemiColon))
        },
    }
}

/// An identifier at statement position: a call whose result is discarded,
/// or an assignment; either ends at its semicolon, which is consumed.
pub open spec fn sp_parse_ident_stmt(prog: Seq<u8>, st: PSt, name: Seq<char>) -> Result<
    (StmtSpec, PSt),
    ParseErrorSpec,
> {
    let st1 = padv(prog, st);
    match st1.cur {
        Ok(TokenSpec::LeftParen) => match sp_parse_call_args(prog, st1, Seq::empty()) {
            Err(e) => Err(e),
            Ok((args, st2)) => if st2.cur == Ok::<TokenSpec, LexError>(TokenSpec::SemiColon) {
                Ok(
                    (
                        StmtSpec::Call(CallSpec { callee: name, args, rt_value_ignored: true }),
                        padv(prog, st2),
                    ),
                )
            } else {
                Err(err_at(st2, Expected::SemiColon))
            },
        },
        Ok(TokenSpec::Assign) => match sp_parse_assign(prog, st1, name) {
            Err(e) => Err(e),
            Ok((s, st2)) => Ok((s, padv(prog, st2))),
        },
        _ => Err(err_at(st1, Expected::ParenOrAssign)),
    }
}

/// A declaration statement: `let [mut] name [: type]` followed by `;` or
/// by `= expression ;`. A missing type annotation is recorded as
/// `Undefined`, to be inferred by the type checker.
pub open spec fn sp_parse_declaration(prog: Seq<u8>, st: PSt) -> Result<
    (StmtSpec, PSt),
    ParseErrorSpec,
> {
    let st1 = padv(prog, st);
    let is_mut = st1.cur == Ok::<TokenSpec, LexError>(TokenSpec::Mut);
    let st2 = if is_mut {
        padv(prog, st1)
    } else {
        st1
    };
    match st2.cur {
        Ok(TokenSpec::Identifier(name)) => {
            let st3 = padv(prog, st2);
            let typed: Result<(TypeAST, PSt), ParseErrorSpec> = if st3.cur == Ok::<
                TokenSpec,
                LexError,
            >(TokenSpec::Colon) {
                sp_parse_type(prog, padv(prog, st3))
            } else {
                Ok((TypeAST::Undefined, st3))
            };
            match typed {
                Err(e) => Err(e),
                Ok((t, st4)) => {
                    let decl = DeclSpec { name, var_type: t, is_mut };
                    if st4.cur == Ok::<TokenSpec, LexError>(TokenSpec::SemiColon) {
                        Ok((StmtSpec::Declaration(decl), padv(prog, st4)))
                    } else if st4.cur == Ok::<TokenSpec, LexError>(TokenSpec::Assign) {
                        match sp_parse_expression(prog, padv(prog, st4)) {
                            Err(e) => Err(e),
                            Ok((v, st5)) => if st5.cur == Ok::<TokenSpec, LexError>(
                                TokenSpec::SemiColon,
                            ) {
                                Ok((StmtSpec::DeclAssign { decl, value: v }, padv(prog, st5)))
                            } else {
                                Err(err_at(st5, Expected::SemiColon))
                            },
                        }
                    } else {
                        Err(err_at(st4, Expected::SemiColonOrAssign))
                    }
                },
            }
        },
        _ => Err(err_at(st2, Expected::Ident)),
    }
}

/// One parameter of a function definition: `[mut] name : type`, followed
/// by a comma (consumed) or the closing parenthesis (left for the
/// caller); the boolean says whether this parameter was the last.
pub open spec fn sp_parse_argument(prog: Seq<u8>, st: PSt) -> Result<
    (DeclSpec, bool, PSt),
    ParseErrorSpec,
> {
    let is_mut = st.cur == Ok::<TokenSpec, LexError>(TokenSpec::Mut);
    let st1 = if is_mut {
        padv(prog, st)
    } else {
        st
    };
    match st1.cur {
        Ok(TokenSpec::Identifier(name)) => {
            let st2 = padv(prog, st1);
            if st2.cur == Ok::<TokenSpec, LexError>(TokenSpec::Colon) {
                match sp_parse_type(prog, padv(prog, st2)) {
                    Err(e) => Err(e),
                    Ok((t, st3)) => {
                        let decl = DeclSpec { name, var_type: t, is_mut };
                        if st3.cur == Ok::<TokenSpec, LexError>(TokenSpec::Comma) {
                            Ok((decl, false, padv(prog, st3)))
                        } else if st3.cur == Ok::<TokenSpec, LexError>(TokenSpec::RightParen) {
                            Ok((decl, true, st3))
                        } else {
                            Err(err_at(st3, Expected::CommaOrRParen))
                        }
                    },
                }
            } else {
                Err(err_at(st2, Expected::Colon))
            }
        },
        _ => Err(err_at(st1, Expected::Ident)),
    }
}

/// The parameters of a function definition, one `sp_parse_argument` after
/// another until one reports itself last.
pub open spec fn sp_parse_args_list(prog: Seq<u8>, st: PSt, acc: Seq<DeclSpec>) -> Result<
    (Seq<DeclSpec>, PSt),
    ParseErrorSpec,
>
    decreases rem(prog, st),
{
    match sp_parse_argument(prog, st) {
        Err(e) => Err(e),
        Ok((arg, last, st1)) => if last {
            Ok((acc.push(arg), st1))
        } else {
            if rem(prog, st1) < rem(prog, st) {
                sp_parse_args_list(prog, st1, acc.push(arg))
            } else {
                arbitrary()
            }
        },
    }
}

/// The header of a function definition: `fn name ( parameters )
/// [-> type]`; without an arrow the return type is `Void`. Ends at the
/// token after the return type, where the body's opening brace is
/// expected.
pub open spec fn sp_parse_fn_header(prog: Seq<u8>, st: PSt) -> Result<
    ((Seq<char>, Seq<DeclSpec>, TypeAST), PSt),
    ParseErrorSpec,
> {
    let st1 = padv(prog, st);
    match st1.cur {
        Ok(TokenSpec::Identifier(name)) => {
            let st2 = padv(prog, st1);
            if st2.cur == Ok::<TokenSpec, LexError>(TokenSpec::LeftParen) {
                let st3 = padv(prog, st2);
                let parsed_args: Result<(Seq<DeclSpec>, PSt), ParseErrorSpec> = if st3.cur == Ok::<
                    TokenSpec,
                    LexError,
                >(TokenSpec::RightParen) {
                    Ok((Seq::empty(), st3))
                } else {
                    sp_parse_args_list(prog, st3, Seq::empty())
                };
                match parsed_args {
                    Err(e) => Err(e),
                    Ok((args, stl)) => {
                        // both branches leave the closing parenthesis buffered
                        let st4 = padv(prog, stl);
                        let rt_parsed: Result<(TypeAST, PSt), ParseErrorSpec> = if st4.cur == Ok::<
                            TokenSpec,
                            LexError,
                        >(TokenSpec::Arrow) {
                            sp_parse_type(prog, padv(prog, st4))
                        } else {
                            Ok((TypeAST::Void, st4))
                        };
                        match rt_parsed {
                            Err(e) => Err(e),
                            Ok((rt, st5)) => Ok(((name, args, rt), st5)),
                        }
                    },
                }
            } else {
                Err(err_at(st2, Expected::LParen))
            }
        },
        _ => Err(err_at(st1, Expected::Ident)),
    }
}

/// A function definition: its header, then `{ body }`.
pub open spec fn sp_parse_function_def(prog: Seq<u8>, st: PSt) -> Result<
    (FunctionSpec, PSt),
    ParseErrorSpec,
>
    decreases rem(prog, st), 0int,
{
    match sp_parse_fn_header(prog, st) {
        Err(e) => Err(e),
        Ok(((name, args, rt), st5)) => if st5.cur == Ok::<TokenSpec, LexError>(
            TokenSpec::LeftBrace,
        ) {
            let st6 = padv(prog, st5);
            if rem(prog, st6) < rem(prog, st) {
                match sp_parse_body_items(prog, st6, Seq::empty()) {
                    Err(e) => Err(e),
                    Ok((stmts, st7)) => Ok(
                        (
                            FunctionSpec {
                                signature: SigSpec { name, args, rt_type: rt },
                                body: BodySpec { stmts },
                            },
                            st7,
                        ),
                    ),
                }
            } else {
                arbitrary()
            }
        } else {
            Err(err_at(st5, Expected::LBrace))
        },
    }
}

/// A return statement: `return expression ;`, semicolon consumed.
pub open spec fn sp_parse_return_stmt(prog: Seq<u8>, st: PSt) -> Result<
    (StmtSpec, PSt),
    ParseErrorSpec,
> {
    let st1 = padv(prog, st);
    match sp_parse_expression(prog, st1) {
        Err(e) => Err(e),
        Ok((e, st2)) => if st2.cur == Ok::<TokenSpec, LexError>(TokenSpec::SemiColon) {
            Ok((StmtSpec::Return(e), padv(prog, st2)))
        } else {
            Err(err_at(st2, Expected::SemiColon))
        },
    }
}

/// A conditional statement: `if condition { body }`.
pub open spec fn sp_parse_if_stmnt(prog: Seq<u8>, st: PSt) -> Result<
    (StmtSpec, PSt),
    ParseErrorSpec,
>
    decreases rem(prog, st), 0int,
{
    let st1 = padv(prog, st);
    match sp_parse_expression(prog, st1) {
        Err(e) => Err(e),
        Ok((cond, st2)) => if st2.cur == Ok::<TokenSpec, LexError>(TokenSpec::LeftBrace) {
            let st3 = padv(prog, st2);
            if rem(prog, st3) < rem(prog, st) {
                match sp_parse_body_items(prog, st3, Seq::empty()) {
                    Err(e) => Err(e),
                    Ok((stmts, st4)) => Ok(
                        (StmtSpec::If { condition: cond, body: BodySpec { stmts } }, st4),
                    ),
                }
            } else {
                arbitrary()
            }
        } else {
            Err(err_at(st2, Expected::LBrace))
        },
    }
}

/// The statements of a body, one after another, comments skipped, until
/// the closing brace, which is consumed.
pub open spec fn sp_parse_body_items(prog: Seq<u8>, st: PSt, acc: Seq<StmtSpec>) -> Result<
    (Seq<StmtSpec>, PSt),
    ParseErrorSpec,
>
    decreases rem(prog, st), 1int,
{
    match st.cur {
        Ok(TokenSpec::Declaration) => match sp_parse_declaration(prog, st) {
            Err(e) => Err(e),
            Ok((s, st1)) => if rem(prog, st1) < rem(prog, st) {
                sp_parse_body_items(prog, st1, acc.push(s))
            } else {
                arbitrary()
            },
        },
        Ok(TokenSpec::Definition) => match sp_parse_function_def(prog, st) {
            Err(e) => Err(e),
            Ok((f, st1)) => if rem(prog, st1) < rem(prog, st) {
                sp_parse_body_items(prog, st1, acc.push(StmtSpec::Function(f)))
            } else {
                arbitrary()
            },
        },
        Ok(TokenSpec::Return) => match sp_parse_return_stmt(prog, st) {
            Err(e) => Err(e),
            Ok((s, st1)) => if rem(prog, st1) < rem(prog, st) {
                sp_parse_body_items(prog, st1, acc.push(s))
            } else {
                arbitrary()
            },
        },
        Ok(TokenSpec::Identifier(name)) => match sp_parse_ident_stmt(prog, st, name) {
            Err(e) => Err(e),
            Ok((s, st1)) => if rem(prog, st1) < rem(prog, st) {
                sp_parse_body_items(prog, st1, acc.push(s))
            } else {
                arbitrary()
            },
        },
        Ok(TokenSpec::Comment(_)) => {
            let st1 = padv(prog, st);
            if rem(prog, st1) < rem(prog, st) {
                sp_parse_body_items(prog, st1, acc)
            } else {
                arbitrary()
            }
        },
        Ok(TokenSpec::RightBrace) => Ok((acc, padv(prog, st))),
        Ok(TokenSpec::If) => match sp_parse_if_stmnt(prog, st) {
            Err(e) => Err(e),
            Ok((s, st1)) => if rem(prog, st1) < rem(prog, st) {
                sp_parse_body_items(prog, st1, acc.push(s))
            } else {
                arbitrary()
            },
        },
        _ => Err(err_at(st, Expected::Stmt)),
    }
}

/// A whole program: comments and function definitions until the end of
/// input.
pub open spec fn sp_parse_program(prog: Seq<u8>, st: PSt, acc: Seq<StmtSpec>) -> Result<
    (Seq<StmtSpec>, PSt),
    ParseErrorSpec,
>
    decreases rem(prog, st),
{
    match st.cur {
        Ok(TokenSpec::Comment(_)) => {
            let st1 = padv(prog, st);
            if rem(prog, st1) < rem(prog, st) {
                sp_parse_program(prog, st1, acc)
            } else {
                arbitrary()
            }
        },
        Ok(TokenSpec::Definition) => match sp_parse_function_def(prog, st) {
            Err(e) => Err(e),
            Ok((f, st1)) => if rem(prog, st1) < rem(prog, st) {
                sp_parse_program(prog, st1, acc.push(StmtSpec::Function(f)))
            } else {
                arbitrary()
            },
        },
        Ok(TokenSpec::EOF) => Ok((acc, st)),
        _ => Err(err_at(st, Expected::TopLevel)),
    }
}

// ------------------------------------------------------------------
// The executable parser.
// ------------------------------------------------------------------

/// The mathematical state of a `Parser`: the bytes being parsed and the
/// parser state over them.
pub struct ParserModel {
    pub prog: Seq<u8>,
    pub st: PSt,
}

/// The parser. It owns the lexer and buffers the one token of lookahead.
pub struct Parser {
    lexer: Lexer,
    cur_token: Result<Token, LexError>,
}

impl View for Parser {
    type V = ParserModel;

    closed spec fn view(&self) -> ParserModel {
        ParserModel {
            prog: self.lexer@.program,
            st: PSt {
                pos: self.lexer@.pos,
                line: self.lexer@.line,
                cur: token_result_view(self.cur_token),
            },
        }
    }
}

impl Parser {
    /// A parser over the given lexer; the first token is fetched at once.
    pub fn new(lexer: Lexer) -> (p: Parser)
        ensures
            p@.prog == lexer@.program,
            p@.st == (PSt {
                pos: lex_step(lexer@.program, lexer@.pos, lexer@.line).pos,
                line: lex_step(lexer@.program, lexer@.pos, lexer@.line).line,
                cur: lex_step(lexer@.program, lexer@.pos, lexer@.line).tok,
            }),
    {
        let mut lexer = lexer;
        let cur = lexer.get_next_token();
        Parser { lexer, cur_token: cur }
    }

    /// Consumes the buffered token and buffers the next one.
    fn advance(&mut self)
        ensures
            final(self)@.prog == old(self)@.prog,
            final(self)@.st == padv(old(self)@.prog, old(self)@.st),
            (old(self)@.st.cur matches Ok(t) && t != TokenSpec::EOF) ==> rem(
                final(self)@.prog,
                final(self)@.st,
            ) < rem(old(self)@.prog, old(self)@.st),
            rem(final(self)@.prog, final(self)@.st) <= rem(old(self)@.prog, old(self)@.st),
    {
        let r = self.lexer.get_next_token();
        self.cur_token = r;
        proof {
            let st0 = old(self)@.st;
            lemma_padv_mono(old(self)@.prog, st0);
            match st0.cur {
                Ok(t) => {
                    if t != TokenSpec::EOF {
                        lemma_padv_dec(old(self)@.prog, st0);
                    }
                },
                Err(_) => {},
            }
        }
    }

    /// A copy of the buffered token or pending lexical error.
    fn cur_cloned(&self) -> (r: Result<Token, LexError>)
        ensures
            token_result_view(r) == self@.st.cur,
    {
        match &self.cur_token {
            Ok(t) => Ok(t.clone()),
            Err(e) => Err(*e),
        }
    }

    /// Consumes the buffered token, buffers the next one and returns a
    /// copy of it, or the lexical error that producing it gave.
    pub fn get_next_token(&mut self) -> (r: Result<Token, LexError>)
        ensures
            final(self)@.prog == old(self)@.prog,
            final(self)@.st == padv(old(self)@.prog, old(self)@.st),
            token_result_view(r) == final(self)@.st.cur,
    {
        self.advance();
        self.cur_cloned()
    }

    /// The error for a buffered token that does not fit the grammar here.
    fn unexpected(&self, expected: Expected) -> (e: ParseError)
        ensures
            e@ == err_at(self@.st, expected),
    {
        match &self.cur_token {
            Err(le) => ParseError::Lex(*le),
            Ok(Token::EOF) => ParseError::UnexpectedEOF { line: self.lexer.current_line() },
            Ok(t) => ParseError::UnexpectedToken {
                expected,
                found: t.clone(),
                line: self.lexer.current_line(),
            },
        }
    }

    /// The precedence of the buffered token as a binary operator; `-1`
    /// for anything that is not one.
    fn operator_precedence(&self) -> (r: i8)
        ensures
            r as int == sp_prec(self@.st.cur),
    {
        match &self.cur_token {
            Ok(Token::PlusAssign) => 0,
            Ok(Token::MinusAssign) => 0,
            Ok(Token::MultAssign) => 0,
            Ok(Token::DivideAssign) => 0,
            Ok(Token::AndIntAssign) => 0,
            Ok(Token::OrIntAssign) => 0,
            Ok(Token::XorIntAssign) => 0,
            Ok(Token::OrBool) => 1,
            Ok(Token::AndBool) => 3,
            Ok(Token::XorBool) => 5,
            Ok(Token::Equal) => 7,
            Ok(Token::GreaterThan) => 7,
            Ok(Token::LessThan) => 7,
            Ok(Token::OrInt) => 9,
            Ok(Token::XorInt) => 11,
            Ok(Token::AndInt) => 13,
            Ok(Token::LeftShift) => 15,
            Ok(Token::RightShift) => 15,
            Ok(Token::Plus) => 17,
            Ok(Token::Minus) => 17,
            Ok(Token::Mult) => 19,
            Ok(Token::Divide) => 19,
            Ok(Token::Not) => 21,
            _ => -1,
        }
    }

    /// Parses the buffered token as a type name and consumes it.
    fn parse_type(&mut self) -> (r: Result<TypeAST, ParseError>)
        ensures
            final(self)@.prog == old(self)@.prog,
            match r {
                Ok(t) => sp_parse_type(old(self)@.prog, old(self)@.st) == Ok::<
                    (TypeAST, PSt),
                    ParseErrorSpec,
                >((t, final(self)@.st)) && rem(final(self)@.prog, final(self)@.st) < rem(
                    old(self)@.prog,
                    old(self)@.st,
                ),
                Err(e) => sp_parse_type(old(self)@.prog, old(self)@.st) == Err::<
                    (TypeAST, PSt),
                    ParseErrorSpec,
                >(e@),
            },
    {
        let t = match &self.cur_token {
            Ok(Token::U8) => TypeAST::U8,
            Ok(Token::U16) => TypeAST::U16,
            Ok(Token::U32) => TypeAST::U32,
            Ok(Token::I8) => TypeAST::I8,
            Ok(Token::I16) => TypeAST::I16,
            Ok(Token::I32) => TypeAST::I32,
            Ok(Token::Str) => TypeAST::Str,
            Ok(Token::Char) => TypeAST::Char,
            Ok(Token::Bool) => TypeAST::Bool,
            Ok(Token::Void) => TypeAST::Void,
            _ => {
                return Err(self.unexpected(Expected::TypeName));
            },
        };
        self.advance();
        Ok(t)
    }

    /// Parses a primary expression: an identifier (a variable, or a call
    /// when an opening parenthesis follows), a literal, or a
    /// parenthesized sub-expression.
    fn parse_primary_expression(&mut self) -> (r: Result<ExprAST, ParseError>)
        ensures
            final(self)@.prog == old(self)@.prog,
            match r {
                Ok(e) => sp_parse_primary(old(self)@.prog, old(self)@.st) == Ok::<
                    (ExprSpec, PSt),
                    ParseErrorSpec,
                >((view_expr(e), final(self)@.st)) && rem(final(self)@.prog, final(self)@.st)
                    < rem(old(self)@.prog, old(self)@.st),
                Err(e) => sp_parse_primary(old(self)@.prog, old(self)@.st) == Err::<
                    (ExprSpec, PSt),
                    ParseErrorSpec,
                >(e@),
            },
        decreases rem(self@.prog, self@.st), 1int,
    {
        let cur = self.cur_cloned();
        match cur {
            Ok(Token::Identifier(name)) => {
                self.advance();
                let again = self.cur_cloned();
                if let Ok(Token::LeftParen) = again {
                    match self.parse_call_expr(name) {
                        Ok(c) => Ok(ExprAST::Call(c)),
                        Err(e) => Err(e),
                    }
                } else {
                    Ok(ExprAST::Variable(VariableAST { name }))
                }
            },
            Ok(Token::Number(n)) => {
                self.advance();
                Ok(ExprAST::Number(NumberAST { num: n }))
            },
            Ok(Token::StringLiteral(s)) => {
                self.advance();
                Ok(ExprAST::StringLiteral(StringLiteralAST { str: s }))
            },
            Ok(Token::True) => {
                self.advance();
                Ok(ExprAST::BoolLiteral(BoolAST { value: true }))
            },
            Ok(Token::False) => {
                self.advance();
                Ok(ExprAST::BoolLiteral(BoolAST { value: false }))
            },
            Ok(Token::LeftParen) => {
                self.advance();
                let e = match self.parse_expression() {
                    Ok(e) => e,
                    Err(er) => {
                        return Err(er);
                    },
                };
                match &self.cur_token {
                    Ok(Token::RightParen) => {},
                    _ => {
                        return Err(self.unexpected(Expected::RParen));
                    },
                }
                self.advance();
                Ok(e)
            },
            _ => Err(self.unexpected(Expected::Primary)),
        }
    }

    /// Parses the arguments of a call, entered at the opening
    /// parenthesis; consumes through the closing parenthesis. The
    /// returned call's result is not marked ignored.
    #[verifier::loop_isolation(false)]
    fn parse_call_expr(&mut self, callee: String) -> (r: Result<CallAST, ParseError>)
        ensures
            final(self)@.prog == old(self)@.prog,
            match r {
                Ok(c) => sp_parse_call_args(old(self)@.prog, old(self)@.st, Seq::<
                    ExprSpec,
                >::empty()) == Ok::<(Seq<ExprSpec>, PSt), ParseErrorSpec>(
                    (c@.args, final(self)@.st),
                ) && c@.callee == callee@ && c@.rt_value_ignored == false && rem(
                    final(self)@.prog,
                    final(self)@.st,
                ) < rem(old(self)@.prog, old(self)@.st),
                Err(e) => sp_parse_call_args(old(self)@.prog, old(self)@.st, Seq::<
                    ExprSpec,
                >::empty()) == Err::<(Seq<ExprSpec>, PSt), ParseErrorSpec>(e@),
            },
        decreases rem(self@.prog, self@.st), 0int,
    {
        let ghost prog = self@.prog;
        let ghost st0 = self@.st;
        let mut args: Vec<ExprAST> = Vec::new();
        proof {
            assert(view_expr_seq(args@) =~= Seq::<ExprSpec>::empty());
        }
        loop
            invariant
                self@.prog == prog,
                sp_parse_call_args(prog, st0, Seq::<ExprSpec>::empty()) == sp_parse_call_args(
                    prog,
                    self@.st,
                    view_expr_seq(args@),
                ),
                rem(prog, self@.st) <= rem(prog, st0),
            decreases rem(prog, self@.st),
        {
            let cur = self.cur_cloned();
            match cur {
                Err(e) => {
                    return Err(ParseError::Lex(e));
                },
                Ok(Token::RightParen) => {
                    self.advance();
                    let c = CallAST { callee, args, rt_value_ignored: false };
                    return Ok(c);
                },
                Ok(Token::EOF) => {
                    return Err(self.unexpected(Expected::Primary));
                },
                Ok(_) => {},
            }
            self.advance();
            let e = match self.parse_expression() {
                Ok(e) => e,
                Err(er) => {
                    return Err(er);
                },
            };
            proof {
                crate::ast::lemma_view_expr_seq_push(args@, e);
            }
            args.push(e);
        }
    }

    /// Parses a whole expression: one primary, then precedence climbing.
    fn parse_expression(&mut self) -> (r: Result<ExprAST, ParseError>)
        ensures
            final(self)@.prog == old(self)@.prog,
            match r {
                Ok(e) => sp_parse_expression(old(self)@.prog, old(self)@.st) == Ok::<
                    (ExprSpec, PSt),
                    ParseErrorSpec,
                >((view_expr(e), final(self)@.st)) && rem(final(self)@.prog, final(self)@.st)
                    < rem(old(self)@.prog, old(self)@.st),
                Err(e) => sp_parse_expression(old(self)@.prog, old(self)@.st) == Err::<
                    (ExprSpec, PSt),
                    ParseErrorSpec,
                >(e@),
            },
        decreases rem(self@.prog, self@.st), 3int,
    {
        let lhs = match self.parse_primary_expression() {
            Ok(e) => e,
            Err(er) => {
                return Err(er);
            },
        };
        self.parse_binary_op_rhs(0, lhs)
    }

    /// Precedence climbing to the right of `lhs`: consumes operators of
    /// precedence at least `expr_prec` and builds the tree so that higher
    /// precedence binds tighter and equal precedence binds left to right.
    #[verifier::loop_isolation(false)]
    fn parse_binary_op_rhs(&mut self, expr_prec: i8, lhs: ExprAST) -> (r: Result<
        ExprAST,
        ParseError,
    >)
        requires
            0 <= expr_prec,
        ensures
            final(self)@.prog == old(self)@.prog,
            match r {
                Ok(e) => sp_parse_binop_rhs(
                    old(self)@.prog,
                    old(self)@.st,
                    expr_prec as int,
                    view_expr(lhs),
                ) == Ok::<(ExprSpec, PSt), ParseErrorSpec>((view_expr(e), final(self)@.st)) && rem(
                    final(self)@.prog,
                    final(self)@.st,
                ) <= rem(old(self)@.prog, old(self)@.st),
                Err(e) => sp_parse_binop_rhs(
                    old(self)@.prog,
                    old(self)@.st,
                    expr_prec as int,
                    view_expr(lhs),
                ) == Err::<(ExprSpec, PSt), ParseErrorSpec>(e@),
            },
        decreases rem(self@.prog, self@.st), 2int,
    {
        let ghost prog = self@.prog;
        let ghost st0 = self@.st;
        let ghost lhs0 = view_expr(lhs);
        let mut cur_lhs = lhs;
        loop
            invariant
                self@.prog == prog,
                sp_parse_binop_rhs(prog, st0, expr_prec as int, lhs0) == sp_parse_binop_rhs(
                    prog,
                    self@.st,
                    expr_prec as int,
                    view_expr(cur_lhs),
                ),
                rem(prog, self@.st) <= rem(prog, st0),
            decreases rem(prog, self@.st),
        {
            let tok_prec = self.operator_precedence();
            if tok_prec < expr_prec {
                return Ok(cur_lhs);
            }
            let op = match &self.cur_token {
                Ok(t) => t.clone(),
                Err(_) => {
                    // sp_prec of a pending error is -1, below any minimum precedence
                    proof {
                        assert(false);
                    }
                    return Err(self.unexpected(Expected::Primary));
                },
            };
            self.advance();
            let rhs0 = match self.parse_primary_expression() {
                Ok(e) => e,
                Err(er) => {
                    return Err(er);
                },
            };
            let next_prec = self.operator_precedence();
            let rhs = if tok_prec < next_prec {
                match self.parse_binary_op_rhs(tok_prec + 1, rhs0) {
                    Ok(e) => e,
                    Err(er) => {
                        return Err(er);
                    },
                }
            } else {
                rhs0
            };
            cur_lhs = ExprAST::BinaryExpression(
                Box::new(BinaryExpressionAST { rhs, lhs: cur_lhs, op }),
            );
        }
    }

    /// Parses the right side of an assignment, entered at the assignment
    /// sign; leaves the buffered token on the terminating semicolon.
    fn parse_assign(&mut self, name: String) -> (r: Result<AssignStmtAST, ParseError>)
        requires
            old(self)@.st.cur == Ok::<TokenSpec, LexError>(TokenSpec::Assign),
        ensures
            final(self)@.prog == old(self)@.prog,
            match r {
                Ok(a) => sp_parse_assign(old(self)@.prog, old(self)@.st, name@) == Ok::<
                    (StmtSpec, PSt),
                    ParseErrorSpec,
                >(
                    (
                        StmtSpec::Assign { name: a.var.name@, value: view_expr(a.value) },
                        final(self)@.st,
                    ),
                ) && a.var.name@ == name@ && rem(final(self)@.prog, final(self)@.st) < rem(
                    old(self)@.prog,
                    old(self)@.st,
                ),
                Err(e) => sp_parse_assign(old(self)@.prog, old(self)@.st, name@) == Err::<
                    (StmtSpec, PSt),
                    ParseErrorSpec,
                >(e@),
            },
    {
        self.advance();
        let value = match self.parse_expression() {
            Ok(e) => e,
            Err(er) => {
                return Err(er);
            },
        };
        match &self.cur_token {
            Ok(Token::SemiColon) => {},
            _ => {
                return Err(self.unexpected(Expected::SemiColon));
            },
        }
        Ok(AssignStmtAST { var: VariableAST { name }, value })
    }

    /// Parses an identifier at statement position: a call whose result is
    /// discarded, or an assignment; consumes the terminating semicolon.
    fn parse_ident_stmt(&mut self, ident: String) -> (r: Result<StmtAST, ParseError>)
        requires
            old(self)@.st.cur == Ok::<TokenSpec, LexError>(TokenSpec::Identifier(ident@)),
        ensures
            final(self)@.prog == old(self)@.prog,
            match r {
                Ok(s) => sp_parse_ident_stmt(old(self)@.prog, old(self)@.st, ident@) == Ok::<
                    (StmtSpec, PSt),
                    ParseErrorSpec,
                >((view_stmt(s), final(self)@.st)) && rem(final(self)@.prog, final(self)@.st)
                    < rem(old(self)@.prog, old(self)@.st),
                Err(e) => sp_parse_ident_stmt(old(self)@.prog, old(self)@.st, ident@) == Err::<
                    (StmtSpec, PSt),
                    ParseErrorSpec,
                >(e@),
            },
    {
        self.advance();
        let cur = self.cur_cloned();
        match cur {
            Ok(Token::LeftParen) => {
                let mut call = match self.parse_call_expr(ident) {
                    Ok(c) => c,
                    Err(er) => {
                        return Err(er);
                    },
                };
                call.rt_value_ignored = true;
                match &self.cur_token {
                    Ok(Token::SemiColon) => {},
                    _ => {
                        return Err(self.unexpected(Expected::SemiColon));
                    },
                }
                self.advance();
                Ok(StmtAST::Call(call))
            },
            Ok(Token::Assign) => {
                let a = match self.parse_assign(ident) {
                    Ok(a) => a,
                    Err(er) => {
                        return Err(er);
                    },
                };
                self.advance();
                Ok(StmtAST::Assign(Box::new(a)))
            },
            _ => Err(self.unexpected(Expected::ParenOrAssign)),
        }
    }

    /// Parses a declaration statement: `let [mut] name [: type]` followed
    /// by `;` or by `= expression ;`; a missing annotation leaves the
    /// declared type `Undefined` for inference.
    #[verifier::rlimit(100)]
    fn parse_declaration(&mut self) -> (r: Result<StmtAST, ParseError>)
        requires
            old(self)@.st.cur == Ok::<TokenSpec, LexError>(TokenSpec::Declaration),
        ensures
            final(self)@.prog == old(self)@.prog,
            match r {
                Ok(s) => sp_parse_declaration(old(self)@.prog, old(self)@.st) == Ok::<
                    (StmtSpec, PSt),
                    ParseErrorSpec,
                >((view_stmt(s), final(self)@.st)) && rem(final(self)@.prog, final(self)@.st)
                    < rem(old(self)@.prog, old(self)@.st),
                Err(e) => sp_parse_declaration(old(self)@.prog, old(self)@.st) == Err::<
                    (StmtSpec, PSt),
                    ParseErrorSpec,
                >(e@),
            },
    {
        self.advance();
        let is_mut = match &self.cur_token {
            Ok(Token::Mut) => true,
            _ => false,
        };
        if is_mut {
            self.advance();
        }
        let name = match self.cur_cloned() {
            Ok(Token::Identifier(n)) => n,
            _ => {
                return Err(self.unexpected(Expected::Ident));
            },
        };
        self.advance();
        let has_colon = match &self.cur_token {
            Ok(Token::Colon) => true,
            _ => false,
        };
        let var_type = if has_colon {
            self.advance();
            match self.parse_type() {
                Ok(t) => t,
                Err(er) => {
                    return Err(er);
                },
            }
        } else {
            TypeAST::Undefined
        };
        let decl = DeclarationAST { name, var_type, is_mut };
        match &self.cur_token {
            Ok(Token::SemiColon) => {
                self.advance();
                Ok(StmtAST::Declaration(decl))
            },
            Ok(Token::Assign) => {
                self.advance();
                let value = match self.parse_expression() {
                    Ok(e) => e,
                    Err(er) => {
                        return Err(er);
                    },
                };
                match &self.cur_token {
                    Ok(Token::SemiColon) => {},
                    _ => {
                        return Err(self.unexpected(Expected::SemiColon));
                    },
                }
                self.advance();
                Ok(StmtAST::DeclAssign(DeclAssignAST { decl, value }))
            },
            _ => Err(self.unexpected(Expected::SemiColonOrAssign)),
        }
    }

    /// Parses one parameter of a function definition and says whether it
    /// was the last; a comma is consumed, the closing parenthesis is left
    /// buffered.
    fn parse_argument(&mut self) -> (r: Result<(DeclarationAST, bool), ParseError>)
        ensures
            final(self)@.prog == old(self)@.prog,
            match r {
                Ok(p) => sp_parse_argument(old(self)@.prog, old(self)@.st) == Ok::<
                    (DeclSpec, bool, PSt),
                    ParseErrorSpec,
                >((view_decl(p.0), p.1, final(self)@.st)) && rem(
                    final(self)@.prog,
                    final(self)@.st,
                ) < rem(old(self)@.prog, old(self)@.st),
                Err(e) => sp_parse_argument(old(self)@.prog, old(self)@.st) == Err::<
                    (DeclSpec, bool, PSt),
                    ParseErrorSpec,
                >(e@),
            },
    {
        let is_mut = match &self.cur_token {
            Ok(Token::Mut) => true,
            _ => false,
        };
        if is_mut {
            self.advance();
        }
        let name = match self.cur_cloned() {
            Ok(Token::Identifier(n)) => n,
            _ => {
                return Err(self.unexpected(Expected::Ident));
            },
        };
        self.advance();
        match &self.cur_token {
            Ok(Token::Colon) => {},
            _ => {
                return Err(self.unexpected(Expected::Colon));
            },
        }
        self.advance();
        let var_type = match self.parse_type() {
            Ok(t) => t,
            Err(er) => {
                return Err(er);
            },
        };
        let decl = DeclarationAST { name, var_type, is_mut };
        match &self.cur_token {
            Ok(Token::Comma) => {
                self.advance();
                Ok((decl, false))
            },
            Ok(Token::RightParen) => Ok((decl, true)),
            _ => Err(self.unexpected(Expected::CommaOrRParen)),
        }
    }

    /// Parses the parameter list of a function definition, entered at its
    /// first parameter; the closing parenthesis is left buffered.
    #[verifier::loop_isolation(false)]
    fn parse_args_list(&mut self) -> (r: Result<Vec<DeclarationAST>, ParseError>)
        ensures
            final(self)@.prog == old(self)@.prog,
            match r {
                Ok(v) => sp_parse_args_list(old(self)@.prog, old(self)@.st, Seq::<
                    DeclSpec,
                >::empty()) == Ok::<(Seq<DeclSpec>, PSt), ParseErrorSpec>(
                    (crate::ast::view_decl_seq(v@), final(self)@.st),
                ) && rem(final(self)@.prog, final(self)@.st) < rem(
                    old(self)@.prog,
                    old(self)@.st,
                ),
                Err(e) => sp_parse_args_list(old(self)@.prog, old(self)@.st, Seq::<
                    DeclSpec,
                >::empty()) == Err::<(Seq<DeclSpec>, PSt), ParseErrorSpec>(e@),
            },
    {
        let ghost prog = self@.prog;
        let ghost st0 = self@.st;
        let mut args: Vec<DeclarationAST> = Vec::new();
        proof {
            assert(crate::ast::view_decl_seq(args@) =~= Seq::<DeclSpec>::empty());
        }
        let mut is_last = false;
        while !is_last
            invariant
                self@.prog == prog,
                !is_last ==> sp_parse_args_list(prog, st0, Seq::<DeclSpec>::empty())
                    == sp_parse_args_list(prog, self@.st, crate::ast::view_decl_seq(args@)),
                is_last ==> sp_parse_args_list(prog, st0, Seq::<DeclSpec>::empty()) == Ok::<
                    (Seq<DeclSpec>, PSt),
                    ParseErrorSpec,
                >((crate::ast::view_decl_seq(args@), self@.st)),
                is_last ==> rem(prog, self@.st) < rem(prog, st0),
                rem(prog, self@.st) <= rem(prog, st0),
            decreases rem(prog, self@.st) + (if is_last {
                0int
            } else {
                1int
            }),
        {
            let ghost pre = crate::ast::view_decl_seq(args@);
            let (arg, last) = match self.parse_argument() {
                Ok(p) => p,
                Err(er) => {
                    return Err(er);
                },
            };
            args.push(arg);
            is_last = last;
            proof {
                assert(crate::ast::view_decl_seq(args@) =~= pre.push(view_decl(arg)));
            }
        }
        Ok(args)
    }

    /// Parses the header of a function definition, from the `fn` keyword
    /// through the optional return type.
    #[verifier::rlimit(100)]
    fn parse_fn_header(&mut self) -> (r: Result<(String, Vec<DeclarationAST>, TypeAST), ParseError>)
        requires
            old(self)@.st.cur == Ok::<TokenSpec, LexError>(TokenSpec::Definition),
        ensures
            final(self)@.prog == old(self)@.prog,
            match r {
                Ok(h) => sp_parse_fn_header(old(self)@.prog, old(self)@.st) == Ok::<
                    ((Seq<char>, Seq<DeclSpec>, TypeAST), PSt),
                    ParseErrorSpec,
                >(((h.0@, crate::ast::view_decl_seq(h.1@), h.2), final(self)@.st)) && rem(
                    final(self)@.prog,
                    final(self)@.st,
                ) < rem(old(self)@.prog, old(self)@.st),
                Err(e) => sp_parse_fn_header(old(self)@.prog, old(self)@.st) == Err::<
                    ((Seq<char>, Seq<DeclSpec>, TypeAST), PSt),
                    ParseErrorSpec,
                >(e@),
            },
    {
        self.advance();
        let name = match self.cur_cloned() {
            Ok(Token::Identifier(n)) => n,
            _ => {
                return Err(self.unexpected(Expected::Ident));
            },
        };
        self.advance();
        match &self.cur_token {
            Ok(Token::LeftParen) => {},
            _ => {
                return Err(self.unexpected(Expected::LParen));
            },
        }
        self.advance();
        let no_params = match &self.cur_token {
            Ok(Token::RightParen) => true,
            _ => false,
        };
        let args: Vec<DeclarationAST> = if no_params {
            Vec::new()
        } else {
            match self.parse_args_list() {
                Ok(v) => v,
                Err(er) => {
                    return Err(er);
                },
            }
        };
        proof {
            if no_params {
                assert(crate::ast::view_decl_seq(args@) =~= Seq::<DeclSpec>::empty());
            }
        }
        // the closing parenthesis is buffered in both cases
        self.advance();
        let has_arrow = match &self.cur_token {
            Ok(Token::Arrow) => true,
            _ => false,
        };
        let rt_type = if has_arrow {
            self.advance();
            match self.parse_type() {
                Ok(t) => t,
                Err(er) => {
                    return Err(er);
                },
            }
        } else {
            TypeAST::Void
        };
        Ok((name, args, rt_type))
    }

    /// Parses a function definition: its header, then `{ body }`.
    #[verifier::rlimit(100)]
    fn parse_function_def(&mut self) -> (r: Result<FunctionAST, ParseError>)
        requires
            old(self)@.st.cur == Ok::<TokenSpec, LexError>(TokenSpec::Definition),
        ensures
            final(self)@.prog == old(self)@.prog,
            match r {
                Ok(f) => sp_parse_function_def(old(self)@.prog, old(self)@.st) == Ok::<
                    (FunctionSpec, PSt),
                    ParseErrorSpec,
                >((crate::ast::view_function(f), final(self)@.st)) && rem(
                    final(self)@.prog,
                    final(self)@.st,
                ) < rem(old(self)@.prog, old(self)@.st),
                Err(e) => sp_parse_function_def(old(self)@.prog, old(self)@.st) == Err::<
                    (FunctionSpec, PSt),
                    ParseErrorSpec,
                >(e@),
            },
        decreases rem(self@.prog, self@.st), 0int,
    {
        let (name, args, rt_type) = match self.parse_fn_header() {
            Ok(h) => h,
            Err(er) => {
                return Err(er);
            },
        };
        match &self.cur_token {
            Ok(Token::LeftBrace) => {},
            _ => {
                return Err(self.unexpected(Expected::LBrace));
            },
        }
        self.advance();
        let body = match self.parse_body() {
            Ok(b) => b,
            Err(er) => {
                return Err(er);
            },
        };
        let f = FunctionAST { fn_signt: FnSignatureAST { name, args, rt_type }, body };
        proof {
            assert(view_sig(f.fn_signt).args =~= crate::ast::view_decl_seq(f.fn_signt.args@));
        }
        Ok(f)
    }

    /// Parses a return statement: `return expression ;`.
    fn parse_return_stmt(&mut self) -> (r: Result<ReturnStmtAST, ParseError>)
        requires
            old(self)@.st.cur == Ok::<TokenSpec, LexError>(TokenSpec::Return),
        ensures
            final(self)@.prog == old(self)@.prog,
            match r {
                Ok(s) => sp_parse_return_stmt(old(self)@.prog, old(self)@.st) == Ok::<
                    (StmtSpec, PSt),
                    ParseErrorSpec,
                >((StmtSpec::Return(view_expr(s.expr)), final(self)@.st)) && rem(
                    final(self)@.prog,
                    final(self)@.st,
                ) < rem(old(self)@.prog, old(self)@.st),
                Err(e) => sp_parse_return_stmt(old(self)@.prog, old(self)@.st) == Err::<
                    (StmtSpec, PSt),
                    ParseErrorSpec,
                >(e@),
            },
    {
        self.advance();
        let expr = match self.parse_expression() {
            Ok(e) => e,
            Err(er) => {
                return Err(er);
            },
        };
        match &self.cur_token {
            Ok(Token::SemiColon) => {},
            _ => {
                return Err(self.unexpected(Expected::SemiColon));
            },
        }
        self.advance();
        Ok(ReturnStmtAST { expr })
    }

    /// Parses a conditional statement: `if condition { body }`.
    #[verifier::rlimit(100)]
    fn parse_if_stmnt(&mut self) -> (r: Result<IfStmtAST, ParseError>)
        requires
            old(self)@.st.cur == Ok::<TokenSpec, LexError>(TokenSpec::If),
        ensures
            final(self)@.prog == old(self)@.prog,
            match r {
                Ok(s) => sp_parse_if_stmnt(old(self)@.prog, old(self)@.st) == Ok::<
                    (StmtSpec, PSt),
                    ParseErrorSpec,
                >(
                    (
                        StmtSpec::If { condition: view_expr(s.condition), body: view_body(s.body) },
                        final(self)@.st,
                    ),
                ) && rem(final(self)@.prog, final(self)@.st) < rem(
                    old(self)@.prog,
                    old(self)@.st,
                ),
                Err(e) => sp_parse_if_stmnt(old(self)@.prog, old(self)@.st) == Err::<
                    (StmtSpec, PSt),
                    ParseErrorSpec,
                >(e@),
            },
        decreases rem(self@.prog, self@.st), 0int,
    {
        self.advance();
        let condition = match self.parse_expression() {
            Ok(e) => e,
            Err(er) => {
                return Err(er);
            },
        };
        match &self.cur_token {
            Ok(Token::LeftBrace) => {},
            _ => {
                return Err(self.unexpected(Expected::LBrace));
            },
        }
        self.advance();
        let body = match self.parse_body() {
            Ok(b) => b,
            Err(er) => {
                return Err(er);
            },
        };
        Ok(IfStmtAST { condition, body })
    }

    /// Parses the statements of a body until the closing brace, which is
    /// consumed; comments are skipped.
    #[verifier::loop_isolation(false)]
    #[verifier::rlimit(100)]
    fn parse_body(&mut self) -> (r: Result<BodyAST, ParseError>)
        ensures
            final(self)@.prog == old(self)@.prog,
            match r {
                Ok(b) => sp_parse_body_items(old(self)@.prog, old(self)@.st, Seq::<
                    StmtSpec,
                >::empty()) == Ok::<(Seq<StmtSpec>, PSt), ParseErrorSpec>(
                    (b@.stmts, final(self)@.st),
                ) && rem(final(self)@.prog, final(self)@.st) < rem(
                    old(self)@.prog,
                    old(self)@.st,
                ),
                Err(e) => sp_parse_body_items(old(self)@.prog, old(self)@.st, Seq::<
                    StmtSpec,
                >::empty()) == Err::<(Seq<StmtSpec>, PSt), ParseErrorSpec>(e@),
            },
        decreases rem(self@.prog, self@.st), 1int,
    {
        let ghost prog = self@.prog;
        let ghost st0 = self@.st;
        let mut stmts: Vec<StmtAST> = Vec::new();
        proof {
            assert(view_stmt_seq(stmts@) =~= Seq::<StmtSpec>::empty());
        }
        loop
            invariant
                self@.prog == prog,
                sp_parse_body_items(prog, st0, Seq::<StmtSpec>::empty()) == sp_parse_body_items(
                    prog,
                    self@.st,
                    view_stmt_seq(stmts@),
                ),
                rem(prog, self@.st) <= rem(prog, st0),
            decreases rem(prog, self@.st),
        {
            let cur = self.cur_cloned();
            let stmt = match cur {
                Ok(Token::Declaration) => {
                    match self.parse_declaration() {
                        Ok(s) => s,
                        Err(er) => {
                            return Err(er);
                        },
                    }
                },
                Ok(Token::Definition) => {
                    match self.parse_function_def() {
                        Ok(f) => StmtAST::Function(f),
                        Err(er) => {
                            return Err(er);
                        },
                    }
                },
                Ok(Token::Return) => {
                    match self.parse_return_stmt() {
                        Ok(s) => StmtAST::Return(Box::new(s)),
                        Err(er) => {
                            return Err(er);
                        },
                    }
                },
                Ok(Token::Identifier(ident)) => {
                    match self.parse_ident_stmt(ident) {
                        Ok(s) => s,
                        Err(er) => {
                            return Err(er);
                        },
                    }
                },
                Ok(Token::Comment(_)) => {
                    self.advance();
                    continue ;
                },
                Ok(Token::RightBrace) => {
                    self.advance();
                    return Ok(BodyAST { stmts });
                },
                Ok(Token::If) => {
                    match self.parse_if_stmnt() {
                        Ok(s) => StmtAST::If(s),
                        Err(er) => {
                            return Err(er);
                        },
                    }
                },
                _ => {
                    return Err(self.unexpected(Expected::Stmt));
                },
            };
            proof {
                crate::ast::lemma_view_stmt_seq_push(stmts@, stmt);
            }
            stmts.push(stmt);
        }
    }

    /// Parses a whole program: comments and function definitions until
    /// the end of input; anything else is a syntax error.
    #[verifier::loop_isolation(false)]
    #[verifier::rlimit(100)]
    pub fn parse(&mut self) -> (r: Result<BodyAST, ParseError>)
        ensures
            final(self)@.prog == old(self)@.prog,
            match r {
                Ok(b) => sp_parse_program(old(self)@.prog, old(self)@.st, Seq::<
                    StmtSpec,
                >::empty()) == Ok::<(Seq<StmtSpec>, PSt), ParseErrorSpec>(
                    (b@.stmts, final(self)@.st),
                ),
                Err(e) => sp_parse_program(old(self)@.prog, old(self)@.st, Seq::<
                    StmtSpec,
                >::empty()) == Err::<(Seq<StmtSpec>, PSt), ParseErrorSpec>(e@),
            },
    {
        let ghost prog = self@.prog;
        let ghost st0 = self@.st;
        let mut stmts: Vec<StmtAST> = Vec::new();
        proof {
            assert(view_stmt_seq(stmts@) =~= Seq::<StmtSpec>::empty());
        }
        loop
            invariant
                self@.prog == prog,
                sp_parse_program(prog, st0, Seq::<StmtSpec>::empty()) == sp_parse_program(
                    prog,
                    self@.st,
                    view_stmt_seq(stmts@),
                ),
            decreases rem(prog, self@.st),
        {
            let cur = self.cur_cloned();
            match cur {
                Ok(Token::Comment(_)) => {
                    self.advance();
                },
                Ok(Token::Definition) => {
                    let f = match self.parse_function_def() {
                        Ok(f) => f,
                        Err(er) => {
                            return Err(er);
                        },
                    };
                    let stmt = StmtAST::Function(f);
                    proof {
                        crate::ast::lemma_view_stmt_seq_push(stmts@, stmt);
                    }
                    stmts.push(stmt);
                },
                Ok(Token::EOF) => {
                    return Ok(BodyAST { stmts });
                },
                _ => {
                    return Err(self.unexpected(Expected::TopLevel));
                },
            }
        }
    }
}

} // verus!
