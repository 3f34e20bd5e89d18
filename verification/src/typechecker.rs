//! The type checker: walks a parsed body, resolving names through the
//! scoped resolvers, validating every expression and statement, and
//! inferring a declaration's type from its initializer where it was left
//! open.
//!
//! The model is the `chk_*` family of spec functions; `check_types` is
//! proved to return exactly what they say. Checking a body first registers
//! the signature of every function definition standing directly in it, so
//! sibling functions may refer to each other regardless of their order.
//! A conditional checks its own branch body in a child scope with expected
//! return type `Void`, and a function definition checks its body in a
//! child scope that also holds the function's parameters.

use vstd::prelude::*;

use crate::ast::{
    view_expr, view_stmt, BodyAST, BodySpec, CallAST, CallSpec, DeclSpec, DeclarationAST, ExprAST,
    ExprSpec, FunctionSpec, SigSpec, StmtAST, StmtSpec, TypeAST,
};
use crate::resolver::{resolve_decl, resolve_sig, sigs_of, FunctionResolver, VarResolver};
use crate::token::{Token, TokenSpec};

verus! {

/// An error found while checking types.
#[derive(Debug, PartialEq, Eq, Clone)]
pub enum TypeError {
    /// A variable was used but never declared in the active scope chain.
    UndeclaredVariable { name: String },
    /// A call names a function with no registered signature.
    UndefinedFunction { name: String },
    /// A call passes a different number of arguments than the signature
    /// declares.
    ArityMismatch { callee: String, expected: usize, found: usize },
    /// Two types had to agree and did not: a call argument against its
    /// parameter, an initializer or assigned value against the declared
    /// type, or a conditional's condition against `Bool`.
    ArgTypeMismatch { expected: TypeAST, found: TypeAST },
    /// The two operands of a binary operator have different types.
    IncompatibleOperands { lhs: TypeAST, rhs: TypeAST },
    /// The common operand type does not fit the operator's class.
    IncompatibleOperandType { op: Token, operand: TypeAST },
    /// A token that is not a type-checkable operator reached the checker.
    UnsupportedOperator { op: Token },
    /// A return expression's type differs from the expected return type.
    InvalidReturnType { expected: TypeAST, found: TypeAST },
    /// A variable whose declared type is still `Undefined` was used.
    UnresolvedInferenceTarget { name: String },
}

/// The model of a `TypeError`.
pub enum TypeErrorSpec {
    UndeclaredVariable { name: Seq<char> },
    UndefinedFunction { name: Seq<char> },
    ArityMismatch { callee: Seq<char>, expected: nat, found: nat },
    ArgTypeMismatch { expected: TypeAST, found: TypeAST },
    IncompatibleOperands { lhs: TypeAST, rhs: TypeAST },
    IncompatibleOperandType { op: TokenSpec, operand: TypeAST },
    UnsupportedOperator { op: TokenSpec },
    InvalidReturnType { expected: TypeAST, found: TypeAST },
    UnresolvedInferenceTarget { name: Seq<char> },
}

impl View for TypeError {
    type V = TypeErrorSpec;

    open spec fn view(&self) -> TypeErrorSpec {
        match self {
            TypeError::UndeclaredVariable { name } => TypeErrorSpec::UndeclaredVariable {
                name: name@,
            },
            TypeError::UndefinedFunction { name } => TypeErrorSpec::UndefinedFunction {
                name: name@,
            },
            TypeError::ArityMismatch { callee, expected, found } => TypeErrorSpec::ArityMismatch {
                callee: callee@,
                expected: *expected as nat,
                found: *found as nat,
            },
            TypeError::ArgTypeMismatch { expected, found } => TypeErrorSpec::ArgTypeMismatch {
                expected: *expected,
                found: *found,
            },
            TypeError::IncompatibleOperands { lhs, rhs } => TypeErrorSpec::IncompatibleOperands {
                lhs: *lhs,
                rhs: *rhs,
            },
            TypeError::IncompatibleOperandType { op, operand } => {
                TypeErrorSpec::IncompatibleOperandType { op: op@, operand: *operand }
            },
            TypeError::UnsupportedOperator { op } => TypeErrorSpec::UnsupportedOperator { op: op@ },
            TypeError::InvalidReturnType { expected, found } => TypeErrorSpec::InvalidReturnType {
                expected: *expected,
                found: *found,
            },
            TypeError::UnresolvedInferenceTarget { name } => {
                TypeErrorSpec::UnresolvedInferenceTarget { name: name@ }
            },
        }
    }
}

/// The six integer kinds: the types the integer-class operators accept.
pub open spec fn is_integer_type(t: TypeAST) -> bool {
    t == TypeAST::U8 || t == TypeAST::U16 || t == TypeAST::U32 || t == TypeAST::I8 || t
        == TypeAST::I16 || t == TypeAST::I32
}

/// The checked type of an expression under the given scopes, or the first
/// error found. An integer literal is `I32`, a string literal `Str`, a
/// boolean literal `Bool`; a variable has its declaration's resolved type;
/// a call has its signature's return type after its arguments check.
pub open spec fn chk_expr(vars: Seq<DeclSpec>, funs: Seq<SigSpec>, e: ExprSpec) -> Result<
    TypeAST,
    TypeErrorSpec,
>
    decreases e,
{
    match e {
        ExprSpec::Variable(name) => match resolve_decl(vars, name) {
            Option::None => Err(TypeErrorSpec::UndeclaredVariable { name }),
            Option::Some(d) => if d.var_type == TypeAST::Undefined {
                Err(TypeErrorSpec::UnresolvedInferenceTarget { name })
            } else {
                Ok(d.var_type)
            },
        },
        ExprSpec::Call(c) => chk_call(vars, funs, c),
        ExprSpec::Binary { op, lhs, rhs } => match chk_expr(vars, funs, *lhs) {
            Err(er) => Err(er),
            Ok(lt) => match chk_expr(vars, funs, *rhs) {
                Err(er) => Err(er),
                Ok(rt) => chk_operator(op, lt, rt),
            },
        },
        ExprSpec::Number(_) => Ok(TypeAST::I32),
        ExprSpec::StringLiteral(_) => Ok(TypeAST::Str),
        ExprSpec::BoolLiteral(_) => Ok(TypeAST::Bool),
    }
}

/// The result type of a binary operator on operands of type `lt` and `rt`:
/// the operands must agree; the integer-class operators (`^`, `|`, `&`,
/// `-`, `*`, `/`) require an integer kind and keep it; the boolean-class
/// operators (`^^`, `||`, `&&`, `!`) require `Bool`; `+` concatenates
/// strings and otherwise follows the integer class; `==` accepts any
/// common type and yields `Bool`; anything else is unsupported.
pub open spec fn chk_operator(op: TokenSpec, lt: TypeAST, rt: TypeAST) -> Result<
    TypeAST,
    TypeErrorSpec,
> {
    if lt != rt {
        Err(TypeErrorSpec::IncompatibleOperands { lhs: lt, rhs: rt })
    } else {
        match op {
            TokenSpec::XorInt | TokenSpec::OrInt | TokenSpec::AndInt | TokenSpec::Minus
                | TokenSpec::Mult | TokenSpec::Divide => if is_integer_type(lt) {
                Ok(lt)
            } else {
                Err(TypeErrorSpec::IncompatibleOperandType { op, operand: lt })
            },
            TokenSpec::XorBool | TokenSpec::OrBool | TokenSpec::AndBool | TokenSpec::Not => if lt
                == TypeAST::Bool {
                Ok(TypeAST::Bool)
            } else {
                Err(TypeErrorSpec::IncompatibleOperandType { op, operand: lt })
            },
            TokenSpec::Plus => if lt == TypeAST::Str {
                Ok(TypeAST::Str)
            } else if is_integer_type(lt) {
                Ok(lt)
            } else {
                Err(TypeErrorSpec::IncompatibleOperandType { op, operand: lt })
            },
            TokenSpec::Equal => Ok(TypeAST::Bool),
            _ => Err(TypeErrorSpec::UnsupportedOperator { op }),
        }
    }
}

/// The checked type of a call: its callee must resolve, the argument count
/// must match the signature, and each argument must check to its
/// parameter's declared type. A call whose result is ignored has type
/// `Void` regardless of the signature's return type.
pub open spec fn chk_call(vars: Seq<DeclSpec>, funs: Seq<SigSpec>, c: CallSpec) -> Result<
    TypeAST,
    TypeErrorSpec,
>
    decreases c,
{
    match resolve_sig(funs, c.callee) {
        Option::None => Err(TypeErrorSpec::UndefinedFunction { name: c.callee }),
        Option::Some(sig) => if sig.args.len() != c.args.len() {
            Err(
                TypeErrorSpec::ArityMismatch {
                    callee: c.callee,
                    expected: sig.args.len(),
                    found: c.args.len(),
                },
            )
        } else {
            match chk_args(vars, funs, sig.args, c.args, 0) {
                Err(er) => Err(er),
                Ok(_) => if c.rt_value_ignored {
                    Ok(TypeAST::Void)
                } else {
                    Ok(sig.rt_type)
                },
            }
        },
    }
}

/// Checks the arguments from position `i` on against their parameters.
pub open spec fn chk_args(
    vars: Seq<DeclSpec>,
    funs: Seq<SigSpec>,
    params: Seq<DeclSpec>,
    args: Seq<ExprSpec>,
    i: nat,
) -> Result<(), TypeErrorSpec>
    recommends
        params.len() == args.len(),
    decreases args, args.len() - i,
{
    if i >= args.len() || i >= params.len() {
        Ok(())
    } else {
        match chk_expr(vars, funs, args[i as int]) {
            Err(er) => Err(er),
            Ok(t) => if t != params[i as int].var_type {
                Err(TypeErrorSpec::ArgTypeMismatch { expected: params[i as int].var_type, found: t })
            } else {
                chk_args(vars, funs, params, args, i + 1)
            },
        }
    }
}

/// Checks the statements from position `i` on, threading the variable
/// scope: declarations register themselves and shadow earlier names.
pub open spec fn chk_stmts(
    vars: Seq<DeclSpec>,
    funs: Seq<SigSpec>,
    stmts: Seq<StmtSpec>,
    i: nat,
    expected: TypeAST,
) -> Result<(), TypeErrorSpec>
    decreases stmts, stmts.len() - i,
{
    if i >= stmts.len() {
        Ok(())
    } else {
        match stmts[i as int] {
            StmtSpec::Declaration(d) => chk_stmts(vars.push(d), funs, stmts, i + 1, expected),
            StmtSpec::DeclAssign { decl, value } => match chk_expr(vars, funs, value) {
                Err(er) => Err(er),
                Ok(t) => if decl.var_type == TypeAST::Undefined {
                    chk_stmts(
                        vars.push(DeclSpec { var_type: t, ..decl }),
                        funs,
                        stmts,
                        i + 1,
                        expected,
                    )
                } else if decl.var_type != t {
                    Err(TypeErrorSpec::ArgTypeMismatch { expected: decl.var_type, found: t })
                } else {
                    chk_stmts(vars.push(decl), funs, stmts, i + 1, expected)
                },
            },
            StmtSpec::Assign { name, value } => match resolve_decl(vars, name) {
                Option::None => Err(TypeErrorSpec::UndeclaredVariable { name }),
                Option::Some(d) => if d.var_type == TypeAST::Undefined {
                    Err(TypeErrorSpec::UnresolvedInferenceTarget { name })
                } else {
                    match chk_expr(vars, funs, value) {
                        Err(er) => Err(er),
                        Ok(t) => if t != d.var_type {
                            Err(TypeErrorSpec::ArgTypeMismatch { expected: d.var_type, found: t })
                        } else {
                            chk_stmts(vars, funs, stmts, i + 1, expected)
                        },
                    }
                },
            },
            StmtSpec::Call(c) => match chk_call(vars, funs, c) {
                Err(er) => Err(er),
                Ok(_) => chk_stmts(vars, funs, stmts, i + 1, expected),
            },
            StmtSpec::Function(f) => match chk_body(
                vars + f.signature.args,
                funs,
                f.body,
                f.signature.rt_type,
            ) {
                Err(er) => Err(er),
                Ok(_) => chk_stmts(vars, funs, stmts, i + 1, expected),
            },
            StmtSpec::Return(e) => match chk_expr(vars, funs, e) {
                Err(er) => Err(er),
                Ok(t) => if t != expected {
                    Err(TypeErrorSpec::InvalidReturnType { expected, found: t })
                } else {
                    chk_stmts(vars, funs, stmts, i + 1, expected)
                },
            },
            StmtSpec::If { condition, body } => match chk_expr(vars, funs, condition) {
                Err(er) => Err(er),
                Ok(t) => if t != TypeAST::Bool {
                    Err(TypeErrorSpec::ArgTypeMismatch { expected: TypeAST::Bool, found: t })
                } else {
                    match chk_body(vars, funs, body, TypeAST::Void) {
                        Err(er) => Err(er),
                        Ok(_) => chk_stmts(vars, funs, stmts, i + 1, expected),
                    }
                },
            },
        }
    }
}

/// Checks a body: first the signature of every function definition
/// standing directly in it is registered, then its statements are checked
/// in order.
pub open spec fn chk_body(
    vars: Seq<DeclSpec>,
    funs: Seq<SigSpec>,
    b: BodySpec,
    expected: TypeAST,
) -> Result<(), TypeErrorSpec>
    decreases b,
{
    chk_stmts(vars, funs + sigs_of(b.stmts), b.stmts, 0, expected)
}

/// The `Undefined` sentinel cannot escape inference: an expression that
/// checks successfully never has type `Undefined`, provided no registered
/// signature declares it as a return type. A variable with an uninferred
/// type is rejected at use, a call takes its type from a signature or is
/// forced to `Void`, and every operator yields an integer kind, `Bool` or
/// `Str`.
pub proof fn lemma_checked_expr_defined(vars: Seq<DeclSpec>, funs: Seq<SigSpec>, e: ExprSpec)
    requires
        forall|i: int| 0 <= i < funs.len() ==> #[trigger] funs[i].rt_type != TypeAST::Undefined,
    ensures
        chk_expr(vars, funs, e) matches Ok(t) ==> t != TypeAST::Undefined,
{
    match e {
        ExprSpec::Call(c) => {
            lemma_checked_call_defined(vars, funs, c);
        },
        _ => {},
    }
}

/// The call form of the same law: a successfully checked call never has
/// type `Undefined`.
pub proof fn lemma_checked_call_defined(vars: Seq<DeclSpec>, funs: Seq<SigSpec>, c: CallSpec)
    requires
        forall|i: int| 0 <= i < funs.len() ==> #[trigger] funs[i].rt_type != TypeAST::Undefined,
    ensures
        chk_call(vars, funs, c) matches Ok(t) ==> t != TypeAST::Undefined,
{
    crate::resolver::lemma_resolve_sig_found(funs, c.callee);
}

/// Forward and mutual references between sibling functions: a function
/// defined anywhere in a statement sequence resolves in the scope that
/// `chk_body` checks every one of the sequence's statements under,
/// whatever the definition order.
pub proof fn lemma_sibling_registered(
    funs: Seq<SigSpec>,
    stmts: Seq<StmtSpec>,
    i: int,
    f: FunctionSpec,
)
    requires
        0 <= i < stmts.len(),
        stmts[i] == StmtSpec::Function(f),
    ensures
        resolve_sig(funs + sigs_of(stmts), f.signature.name) is Some,
    decreases stmts.len(),
{
    let rest = sigs_of(stmts.drop_last());
    if i == stmts.len() - 1 {
        assert(funs + sigs_of(stmts) =~= (funs + rest).push(f.signature));
    } else {
        lemma_sibling_registered(funs, stmts.drop_last(), i, f);
        match stmts.last() {
            StmtSpec::Function(g) => {
                assert(funs + sigs_of(stmts) =~= (funs + rest).push(g.signature));
                assert((funs + rest).push(g.signature).drop_last() =~= funs + rest);
            },
            _ => {
                assert(funs + sigs_of(stmts) =~= funs + rest);
            },
        }
    }
}

/// The mathematical state of a `Typechecker`.
pub struct TypecheckerModel {
    pub vars: Seq<DeclSpec>,
    pub funs: Seq<SigSpec>,
    pub body: BodySpec,
    pub expected: TypeAST,
}

/// One checking pass: the active scopes, the body under check, and the
/// type every `return` in this pass must produce.
pub struct Typechecker {
    var_resolver: VarResolver,
    funct_resolver: FunctionResolver,
    body: BodyAST,
    expected_rt_tp: TypeAST,
}

impl View for Typechecker {
    type V = TypecheckerModel;

    closed spec fn view(&self) -> TypecheckerModel {
        TypecheckerModel {
            vars: self.var_resolver@,
            funs: self.funct_resolver@,
            body: self.body@,
            expected: self.expected_rt_tp,
        }
    }
}

fn is_integer(t: TypeAST) -> (r: bool)
    ensures
        r == is_integer_type(t),
{
    match t {
        TypeAST::U8 | TypeAST::U16 | TypeAST::U32 | TypeAST::I8 | TypeAST::I16 | TypeAST::I32 => {
            true
        },
        _ => false,
    }
}

impl Typechecker {
    /// A checking pass over `body` with the given scopes (fresh ones where
    /// `None` is passed) and expected return type.
    pub fn new(
        body: BodyAST,
        var_resolver: Option<VarResolver>,
        funct_resolver: Option<FunctionResolver>,
        expected_rt_tp: TypeAST,
    ) -> (r: Typechecker)
        ensures
            r@.vars == match var_resolver {
                Option::Some(v) => v@,
                Option::None => Seq::<DeclSpec>::empty(),
            },
            r@.funs == match funct_resolver {
                Option::Some(f) => f@,
                Option::None => Seq::<SigSpec>::empty(),
            },
            r@.body == body@,
            r@.expected == expected_rt_tp,
    {
        let vr = match var_resolver {
            Option::Some(v) => v,
            Option::None => VarResolver::new(),
        };
        let fr = match funct_resolver {
            Option::Some(f) => f,
            Option::None => FunctionResolver::new(),
        };
        Typechecker { var_resolver: vr, funct_resolver: fr, body, expected_rt_tp }
    }

    /// Checks the whole body, exactly as `chk_body` says: `Ok` when every
    /// statement checks under the scopes the pass was built with, and the
    /// first error found otherwise.
    pub fn check_types(&mut self) -> (r: Result<(), TypeError>)
        ensures
            match r {
                Ok(_) => chk_body(old(self)@.vars, old(self)@.funs, old(self)@.body, old(self)@.expected)
                    is Ok,
                Err(e) => chk_body(
                    old(self)@.vars,
                    old(self)@.funs,
                    old(self)@.body,
                    old(self)@.expected,
                ) == Err::<(), TypeErrorSpec>(e@),
            },
    {
        Self::check_body(&self.var_resolver, &self.funct_resolver, &self.body, self.expected_rt_tp)
    }

    /// The checked type of one expression under the given scopes.
    fn check_expr(vars: &VarResolver, funs: &FunctionResolver, e: &ExprAST) -> (r: Result<
        TypeAST,
        TypeError,
    >)
        ensures
            match r {
                Ok(t) => chk_expr(vars@, funs@, view_expr(*e)) == Ok::<TypeAST, TypeErrorSpec>(t),
                Err(er) => chk_expr(vars@, funs@, view_expr(*e)) == Err::<TypeAST, TypeErrorSpec>(
                    er@,
                ),
            },
        decreases *e,
    {
        match e {
            ExprAST::Variable(v) => match vars.resolve_variable(v) {
                Option::None => Err(TypeError::UndeclaredVariable { name: v.name.clone() }),
                Option::Some(d) => {
                    if d.var_type == TypeAST::Undefined {
                        Err(TypeError::UnresolvedInferenceTarget { name: v.name.clone() })
                    } else {
                        Ok(d.var_type)
                    }
                },
            },
            ExprAST::Call(c) => Self::check_call(vars, funs, c),
            ExprAST::BinaryExpression(b) => {
                let lt = match Self::check_expr(vars, funs, &b.lhs) {
                    Ok(t) => t,
                    Err(er) => {
                        return Err(er);
                    },
                };
                let rt = match Self::check_expr(vars, funs, &b.rhs) {
                    Ok(t) => t,
                    Err(er) => {
                        return Err(er);
                    },
                };
                Self::check_operator(&b.op, lt, rt)
            },
            ExprAST::Number(_) => Ok(TypeAST::I32),
            ExprAST::StringLiteral(_) => Ok(TypeAST::Str),
            ExprAST::BoolLiteral(_) => Ok(TypeAST::Bool),
        }
    }

    /// The result type of a binary operator on checked operand types.
    fn check_operator(op: &Token, lt: TypeAST, rt: TypeAST) -> (r: Result<TypeAST, TypeError>)
        ensures
            match r {
                Ok(t) => chk_operator(op@, lt, rt) == Ok::<TypeAST, TypeErrorSpec>(t),
                Err(er) => chk_operator(op@, lt, rt) == Err::<TypeAST, TypeErrorSpec>(er@),
            },
    {
        if lt != rt {
            return Err(TypeError::IncompatibleOperands { lhs: lt, rhs: rt });
        }
        match op {
            Token::XorInt | Token::OrInt | Token::AndInt | Token::Minus | Token::Mult
                | Token::Divide => {
                if is_integer(lt) {
                    Ok(lt)
                } else {
                    Err(TypeError::IncompatibleOperandType { op: op.clone(), operand: lt })
                }
            },
            Token::XorBool | Token::OrBool | Token::AndBool | Token::Not => {
                if lt == TypeAST::Bool {
                    Ok(TypeAST::Bool)
                } else {
                    Err(TypeError::IncompatibleOperandType { op: op.clone(), operand: lt })
                }
            },
            Token::Plus => {
                if lt == TypeAST::Str {
                    Ok(TypeAST::Str)
                } else if is_integer(lt) {
                    Ok(lt)
                } else {
                    Err(TypeError::IncompatibleOperandType { op: op.clone(), operand: lt })
                }
            },
            Token::Equal => Ok(TypeAST::Bool),
            _ => Err(TypeError::UnsupportedOperator { op: op.clone() }),
        }
    }

    /// The checked type of a call under the given scopes.
    #[verifier::loop_isolation(false)]
    fn check_call(vars: &VarResolver, funs: &FunctionResolver, c: &CallAST) -> (r: Result<
        TypeAST,
        TypeError,
    >)
        ensures
            match r {
                Ok(t) => chk_call(vars@, funs@, c@) == Ok::<TypeAST, TypeErrorSpec>(t),
                Err(er) => chk_call(vars@, funs@, c@) == Err::<TypeAST, TypeErrorSpec>(er@),
            },
        decreases *c,
    {
        let sig = match funs.resolve_call(c) {
            Option::None => {
                return Err(TypeError::UndefinedFunction { name: c.callee.clone() });
            },
            Option::Some(s) => s,
        };
        proof {
            crate::ast::lemma_view_expr_seq(c.args@);
        }
        if sig.args.len() != c.args.len() {
            return Err(
                TypeError::ArityMismatch {
                    callee: c.callee.clone(),
                    expected: sig.args.len(),
                    found: c.args.len(),
                },
            );
        }
        let ghost params = sig@.args;
        let ghost cargs = c@.args;
        let mut i: usize = 0;
        while i < c.args.len()
            invariant
                i <= c.args.len(),
                params == sig@.args,
                cargs == c@.args,
                params.len() == sig.args@.len(),
                cargs.len() == c.args@.len(),
                params.len() == cargs.len(),
                forall|k: int| 0 <= k < cargs.len() ==> cargs[k] == view_expr(c.args@[k]),
                forall|k: int| 0 <= k < params.len() ==> params[k] == crate::ast::view_decl(
                    sig.args@[k],
                ),
                chk_args(vars@, funs@, params, cargs, 0) == chk_args(
                    vars@,
                    funs@,
                    params,
                    cargs,
                    i as nat,
                ),
            decreases c.args.len() - i,
        {
            let t = match Self::check_expr(vars, funs, &c.args[i]) {
                Ok(t) => t,
                Err(er) => {
                    return Err(er);
                },
            };
            if t != sig.args[i].var_type {
                return Err(TypeError::ArgTypeMismatch { expected: sig.args[i].var_type, found: t });
            }
            i += 1;
        }
        if c.rt_value_ignored {
            Ok(TypeAST::Void)
        } else {
            Ok(sig.rt_type)
        }
    }

    /// Checks one body in its own scopes: the given resolvers are copied,
    /// the body's own function signatures are registered into the copy,
    /// and the statements are then checked in order.
    #[verifier::loop_isolation(false)]
    fn check_body(vars: &VarResolver, funs: &FunctionResolver, body: &BodyAST, expected: TypeAST) -> (r:
        Result<(), TypeError>)
        ensures
            match r {
                Ok(_) => chk_body(vars@, funs@, body@, expected) is Ok,
                Err(er) => chk_body(vars@, funs@, body@, expected) == Err::<(), TypeErrorSpec>(er@),
            },
        decreases *body,
    {
        let mut funs2 = funs.new_scoped();
        funs2.add_from_body(body);
        let mut vars2 = vars.new_scoped();
        let ghost funs_with = funs2@;
        let ghost stmts = body@.stmts;
        proof {
            crate::ast::lemma_view_stmt_seq(body.stmts@);
        }
        let mut i: usize = 0;
        while i < body.stmts.len()
            invariant
                i <= body.stmts.len(),
                funs2@ == funs_with,
                funs_with == funs@ + sigs_of(stmts),
                stmts == body@.stmts,
                stmts.len() == body.stmts@.len(),
                forall|k: int| 0 <= k < stmts.len() ==> stmts[k] == view_stmt(body.stmts@[k]),
                chk_stmts(vars@, funs_with, stmts, 0, expected) == chk_stmts(
                    vars2@,
                    funs_with,
                    stmts,
                    i as nat,
                    expected,
                ),
            decreases body.stmts.len() - i,
        {
            match &body.stmts[i] {
                StmtAST::Declaration(d) => {
                    vars2.add_decl(d.clone());
                },
                StmtAST::DeclAssign(da) => {
                    let t = match Self::check_expr(&vars2, &funs2, &da.value) {
                        Ok(t) => t,
                        Err(er) => {
                            return Err(er);
                        },
                    };
                    if da.decl.var_type == TypeAST::Undefined {
                        vars2.add_decl(
                            DeclarationAST {
                                name: da.decl.name.clone(),
                                var_type: t,
                                is_mut: da.decl.is_mut,
                            },
                        );
                    } else if da.decl.var_type != t {
                        return Err(
                            TypeError::ArgTypeMismatch { expected: da.decl.var_type, found: t },
                        );
                    } else {
                        vars2.add_decl(da.decl.clone());
                    }
                },
                StmtAST::Assign(a) => {
                    let d = match vars2.resolve_variable(&a.var) {
                        Option::None => {
                            return Err(
                                TypeError::UndeclaredVariable { name: a.var.name.clone() },
                            );
                        },
                        Option::Some(d) => d,
                    };
                    if d.var_type == TypeAST::Undefined {
                        return Err(
                            TypeError::UnresolvedInferenceTarget { name: a.var.name.clone() },
                        );
                    }
                    let t = match Self::check_expr(&vars2, &funs2, &a.value) {
                        Ok(t) => t,
                        Err(er) => {
                            return Err(er);
                        },
                    };
                    if t != d.var_type {
                        return Err(TypeError::ArgTypeMismatch { expected: d.var_type, found: t });
                    }
                },
                StmtAST::Call(c) => {
                    match Self::check_call(&vars2, &funs2, c) {
                        Ok(_) => (),
                        Err(er) => {
                            return Err(er);
                        },
                    }
                },
                StmtAST::Function(f) => {
                    let mut vc = vars2.new_scoped();
                    let mut k: usize = 0;
                    while k < f.fn_signt.args.len()
                        invariant
                            k <= f.fn_signt.args.len(),
                            vc@ == vars2@ + Seq::new(
                                k as nat,
                                |j: int| crate::ast::view_decl(f.fn_signt.args@[j]),
                            ),
                        decreases f.fn_signt.args.len() - k,
                    {
                        let ghost pre = vc@;
                        vc.add_decl(f.fn_signt.args[k].clone());
                        k += 1;
                        proof {
                            assert(vc@ =~= vars2@ + Seq::new(
                                k as nat,
                                |j: int| crate::ast::view_decl(f.fn_signt.args@[j]),
                            ));
                        }
                    }
                    proof {
                        assert(vc@ =~= vars2@ + view_stmt(body.stmts@[i as int])->Function_0.signature.args);
                    }
                    match Self::check_body(&vc, &funs2, &f.body, f.fn_signt.rt_type) {
                        Ok(_) => (),
                        Err(er) => {
                            return Err(er);
                        },
                    }
                },
                StmtAST::Return(rt) => {
                    let t = match Self::check_expr(&vars2, &funs2, &rt.expr) {
                        Ok(t) => t,
                        Err(er) => {
                            return Err(er);
                        },
                    };
                    if t != expected {
                        return Err(TypeError::InvalidReturnType { expected, found: t });
                    }
                },
                StmtAST::If(ifst) => {
                    let t = match Self::check_expr(&vars2, &funs2, &ifst.condition) {
                        Ok(t) => t,
                        Err(er) => {
                            return Err(er);
                        },
                    };
                    if t != TypeAST::Bool {
                        return Err(
                            TypeError::ArgTypeMismatch { expected: TypeAST::Bool, found: t },
                        );
                    }
                    match Self::check_body(&vars2, &funs2, &ifst.body, TypeAST::Void) {
                        Ok(_) => (),
                        Err(er) => {
                            return Err(er);
                        },
                    }
                },
            }
            i += 1;
        }
        Ok(())
    }
}

} // verus!
