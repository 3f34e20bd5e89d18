//! The abstract syntax tree shared by the parser and the type checker,
//! together with its mathematical model: each node kind has a spec twin in
//! which strings are character sequences and vectors are sequences.

use vstd::prelude::*;

use crate::token::{Token, TokenSpec};

verus! {

/// A primitive type of the language. `Undefined` is a sentinel meaning
/// "not yet known": it is valid only on a declaration awaiting inference
/// and never appears as the checked type of an expression.
#[derive(Debug, PartialEq, Eq, Structural, Clone, Copy)]
pub enum TypeAST {
    U8,
    U16,
    U32,
    I8,
    I16,
    I32,
    Str,
    Char,
    Void,
    Bool,
    Undefined,
}

/// The name of a type as written in source.
pub open spec fn type_text(t: TypeAST) -> Seq<char> {
    match t {
        TypeAST::U8 => "u8"@,
        TypeAST::U16 => "u16"@,
        TypeAST::U32 => "u32"@,
        TypeAST::I8 => "i8"@,
        TypeAST::I16 => "i16"@,
        TypeAST::I32 => "i32"@,
        TypeAST::Str => "str"@,
        TypeAST::Char => "char"@,
        TypeAST::Void => "void"@,
        TypeAST::Bool => "bool"@,
        TypeAST::Undefined => "undefined"@,
    }
}

impl TypeAST {
    /// The type's name as written in source, for diagnostics.
    pub fn text(&self) -> (r: String)
        ensures
            r@ == type_text(*self),
    {
        match self {
            TypeAST::U8 => String::from_str("u8"),
            TypeAST::U16 => String::from_str("u16"),
            TypeAST::U32 => String::from_str("u32"),
            TypeAST::I8 => String::from_str("i8"),
            TypeAST::I16 => String::from_str("i16"),
            TypeAST::I32 => String::from_str("i32"),
            TypeAST::Str => String::from_str("str"),
            TypeAST::Char => String::from_str("char"),
            TypeAST::Void => String::from_str("void"),
            TypeAST::Bool => String::from_str("bool"),
            TypeAST::Undefined => String::from_str("undefined"),
        }
    }
}

/// An ordered sequence of statements.
#[derive(Debug, PartialEq, Eq)]
pub struct BodyAST {
    pub stmts: Vec<StmtAST>,
}

/// Code that has, returns or is a value.
#[derive(Debug, PartialEq, Eq)]
pub enum ExprAST {
    Variable(VariableAST),
    Call(CallAST),
    BinaryExpression(Box<BinaryExpressionAST>),
    Number(NumberAST),
    StringLiteral(StringLiteralAST),
    BoolLiteral(BoolAST),
}

/// Code that only moves a value.
#[derive(Debug, PartialEq, Eq)]
pub enum StmtAST {
    Assign(Box<AssignStmtAST>),
    /// A call whose return value is ignored.
    Call(CallAST),
    Declaration(DeclarationAST),
    DeclAssign(DeclAssignAST),
    /// A function definition.
    Function(FunctionAST),
    Return(Box<ReturnStmtAST>),
    If(IfStmtAST),
}

/// A boolean literal.
#[derive(Debug, PartialEq, Eq, Clone)]
pub struct BoolAST {
    pub value: bool,
}

/// A conditional statement: a condition and the branch taken when it holds.
#[derive(Debug, PartialEq, Eq)]
pub struct IfStmtAST {
    pub condition: ExprAST,
    pub body: BodyAST,
}

/// An integer literal.
#[derive(Debug, PartialEq, Eq, Clone)]
pub struct NumberAST {
    pub num: i32,
}

/// A variable used in an expression.
#[derive(Debug, PartialEq, Eq, Clone)]
pub struct VariableAST {
    pub name: String,
}

/// An assignment to an already declared variable.
#[derive(Debug, PartialEq, Eq)]
pub struct AssignStmtAST {
    pub var: VariableAST,
    pub value: ExprAST,
}

/// A declaration with an initializer; the declared type may still be
/// `Undefined`, to be inferred from the initializer.
#[derive(Debug, PartialEq, Eq)]
pub struct DeclAssignAST {
    pub decl: DeclarationAST,
    pub value: ExprAST,
}

/// A string literal.
#[derive(Debug, PartialEq, Eq, Clone)]
pub struct StringLiteralAST {
    pub str: String,
}

/// A function definition: its signature and its body.
#[derive(Debug, PartialEq, Eq)]
pub struct FunctionAST {
    pub fn_signt: FnSignatureAST,
    pub body: BodyAST,
}

/// A function's name, ordered parameter declarations and return type.
#[derive(Debug, PartialEq, Eq)]
pub struct FnSignatureAST {
    pub name: String,
    pub args: Vec<DeclarationAST>,
    pub rt_type: TypeAST,
}

/// A variable declaration.
#[derive(Debug, PartialEq, Eq)]
pub struct DeclarationAST {
    pub name: String,
    pub var_type: TypeAST,
    pub is_mut: bool,
}

/// A function call; `rt_value_ignored` marks the statement form, whose
/// result is discarded.
#[derive(Debug, PartialEq, Eq)]
pub struct CallAST {
    pub callee: String,
    pub args: Vec<ExprAST>,
    pub rt_value_ignored: bool,
}

/// A binary expression.
#[derive(Debug, PartialEq, Eq)]
pub struct BinaryExpressionAST {
    pub rhs: ExprAST,
    pub lhs: ExprAST,
    pub op: Token,
}

/// A return statement.
#[derive(Debug, PartialEq, Eq)]
pub struct ReturnStmtAST {
    pub expr: ExprAST,
}

// ------------------------------------------------------------------
// The mathematical model of the tree.
// ------------------------------------------------------------------

/// Model of a declaration.
pub struct DeclSpec {
    pub name: Seq<char>,
    pub var_type: TypeAST,
    pub is_mut: bool,
}

/// Model of a function signature.
pub struct SigSpec {
    pub name: Seq<char>,
    pub args: Seq<DeclSpec>,
    pub rt_type: TypeAST,
}

/// Model of a call.
pub struct CallSpec {
    pub callee: Seq<char>,
    pub args: Seq<ExprSpec>,
    pub rt_value_ignored: bool,
}

/// Model of an expression.
pub enum ExprSpec {
    Variable(Seq<char>),
    Call(CallSpec),
    Binary { op: TokenSpec, lhs: Box<ExprSpec>, rhs: Box<ExprSpec> },
    Number(i32),
    StringLiteral(Seq<char>),
    BoolLiteral(bool),
}

/// Model of a statement.
pub enum StmtSpec {
    Assign { name: Seq<char>, value: ExprSpec },
    Call(CallSpec),
    Declaration(DeclSpec),
    DeclAssign { decl: DeclSpec, value: ExprSpec },
    Function(FunctionSpec),
    Return(ExprSpec),
    If { condition: ExprSpec, body: BodySpec },
}

/// Model of a function definition.
pub struct FunctionSpec {
    pub signature: SigSpec,
    pub body: BodySpec,
}

/// Model of a statement sequence.
pub struct BodySpec {
    pub stmts: Seq<StmtSpec>,
}

/// Model of a variable declaration list.
pub open spec fn view_decl(d: DeclarationAST) -> DeclSpec {
    DeclSpec { name: d.name@, var_type: d.var_type, is_mut: d.is_mut }
}

/// Models of the declarations of a sequence, in order.
pub open spec fn view_decl_seq(v: Seq<DeclarationAST>) -> Seq<DeclSpec> {
    Seq::new(v.len(), |i: int| view_decl(v[i]))
}

/// Model of a function signature.
pub open spec fn view_sig(s: FnSignatureAST) -> SigSpec {
    SigSpec {
        name: s.name@,
        args: Seq::new(s.args@.len(), |i: int| view_decl(s.args@[i])),
        rt_type: s.rt_type,
    }
}

/// Model of an expression.
pub open spec fn view_expr(e: ExprAST) -> ExprSpec
    decreases e,
{
    match e {
        ExprAST::Variable(v) => ExprSpec::Variable(v.name@),
        ExprAST::Call(c) => ExprSpec::Call(view_call(c)),
        ExprAST::BinaryExpression(b) => ExprSpec::Binary {
            op: b.op@,
            lhs: Box::new(view_expr(b.lhs)),
            rhs: Box::new(view_expr(b.rhs)),
        },
        ExprAST::Number(n) => ExprSpec::Number(n.num),
        ExprAST::StringLiteral(s) => ExprSpec::StringLiteral(s.str@),
        ExprAST::BoolLiteral(b) => ExprSpec::BoolLiteral(b.value),
    }
}

/// Models of the expressions of a sequence, in order.
pub open spec fn view_expr_seq(v: Seq<ExprAST>) -> Seq<ExprSpec>
    decreases v,
{
    if v.len() == 0 {
        Seq::empty()
    } else {
        view_expr_seq(v.drop_last()).push(view_expr(v.last()))
    }
}

/// Model of a call.
pub open spec fn view_call(c: CallAST) -> CallSpec
    decreases c,
{
    CallSpec { callee: c.callee@, args: view_expr_seq(c.args@), rt_value_ignored: c.rt_value_ignored }
}

/// Model of a statement.
pub open spec fn view_stmt(s: StmtAST) -> StmtSpec
    decreases s,
{
    match s {
        StmtAST::Assign(a) => StmtSpec::Assign { name: a.var.name@, value: view_expr(a.value) },
        StmtAST::Call(c) => StmtSpec::Call(view_call(c)),
        StmtAST::Declaration(d) => StmtSpec::Declaration(view_decl(d)),
        StmtAST::DeclAssign(d) => StmtSpec::DeclAssign {
            decl: view_decl(d.decl),
            value: view_expr(d.value),
        },
        StmtAST::Function(f) => StmtSpec::Function(view_function(f)),
        StmtAST::Return(r) => StmtSpec::Return(view_expr(r.expr)),
        StmtAST::If(i) => StmtSpec::If { condition: view_expr(i.condition), body: view_body(i.body) },
    }
}

/// Model of a function definition.
pub open spec fn view_function(f: FunctionAST) -> FunctionSpec
    decreases f,
{
    FunctionSpec { signature: view_sig(f.fn_signt), body: view_body(f.body) }
}

/// Models of the statements of a sequence, in order.
pub open spec fn view_stmt_seq(v: Seq<StmtAST>) -> Seq<StmtSpec>
    decreases v,
{
    if v.len() == 0 {
        Seq::empty()
    } else {
        view_stmt_seq(v.drop_last()).push(view_stmt(v.last()))
    }
}

/// Model of a statement sequence.
pub open spec fn view_body(b: BodyAST) -> BodySpec
    decreases b,
{
    BodySpec { stmts: view_stmt_seq(b.stmts@) }
}

impl Clone for DeclarationAST {
    /// The clone models the same declaration.
    fn clone(&self) -> (res: Self)
        ensures
            res@ == self@,
    {
        DeclarationAST { name: self.name.clone(), var_type: self.var_type, is_mut: self.is_mut }
    }
}

impl Clone for FnSignatureAST {
    /// The clone models the same signature.
    fn clone(&self) -> (res: Self)
        ensures
            res@ == self@,
    {
        let mut args: Vec<DeclarationAST> = Vec::new();
        let mut i: usize = 0;
        while i < self.args.len()
            invariant
                i <= self.args.len(),
                args@.len() == i,
                forall|k: int| 0 <= k < i ==> view_decl(args@[k]) == view_decl(self.args@[k]),
            decreases self.args.len() - i,
        {
            args.push(self.args[i].clone());
            i += 1;
        }
        let res = FnSignatureAST { name: self.name.clone(), args, rt_type: self.rt_type };
        proof {
            assert(view_sig(res).args =~= view_sig(*self).args);
        }
        res
    }
}

/// The model of a statement sequence keeps its length and models each
/// statement in place.
pub proof fn lemma_view_stmt_seq(v: Seq<StmtAST>)
    ensures
        view_stmt_seq(v).len() == v.len(),
        forall|i: int| 0 <= i < v.len() ==> view_stmt_seq(v)[i] == view_stmt(v[i]),
    decreases v,
{
    if v.len() > 0 {
        lemma_view_stmt_seq(v.drop_last());
    }
}

/// The model of an expression sequence keeps its length and models each
/// expression in place.
pub proof fn lemma_view_expr_seq(v: Seq<ExprAST>)
    ensures
        view_expr_seq(v).len() == v.len(),
        forall|i: int| 0 <= i < v.len() ==> view_expr_seq(v)[i] == view_expr(v[i]),
    decreases v,
{
    if v.len() > 0 {
        lemma_view_expr_seq(v.drop_last());
    }
}

/// Appending a statement appends its model.
pub proof fn lemma_view_stmt_seq_push(v: Seq<StmtAST>, x: StmtAST)
    ensures
        view_stmt_seq(v.push(x)) == view_stmt_seq(v).push(view_stmt(x)),
{
    assert(v.push(x).drop_last() =~= v);
    assert(v.push(x).last() == x);
}

/// Appending an expression appends its model.
pub proof fn lemma_view_expr_seq_push(v: Seq<ExprAST>, x: ExprAST)
    ensures
        view_expr_seq(v.push(x)) == view_expr_seq(v).push(view_expr(x)),
{
    assert(v.push(x).drop_last() =~= v);
    assert(v.push(x).last() == x);
}

impl View for BodyAST {
    type V = BodySpec;

    open spec fn view(&self) -> BodySpec {
        view_body(*self)
    }
}

impl View for ExprAST {
    type V = ExprSpec;

    open spec fn view(&self) -> ExprSpec {
        view_expr(*self)
    }
}

impl View for StmtAST {
    type V = StmtSpec;

    open spec fn view(&self) -> StmtSpec {
        view_stmt(*self)
    }
}

impl View for CallAST {
    type V = CallSpec;

    open spec fn view(&self) -> CallSpec {
        view_call(*self)
    }
}

impl View for DeclarationAST {
    type V = DeclSpec;

    open spec fn view(&self) -> DeclSpec {
        view_decl(*self)
    }
}

impl View for FnSignatureAST {
    type V = SigSpec;

    open spec fn view(&self) -> SigSpec {
        view_sig(*self)
    }
}

} // verus!
