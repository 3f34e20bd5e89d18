//! Append-only symbol tables with snapshot-on-enter scoping.
//!
//! A resolver owns an ordered collection of entries; `resolve` returns the
//! most recently added entry with the looked-up name, so a later duplicate
//! shadows an earlier one. Entering a scope copies the entries: additions
//! to the child are invisible to the parent.

use vstd::prelude::*;

use crate::ast::{
    view_decl, view_sig, BodyAST, CallAST, DeclSpec, DeclarationAST, FnSignatureAST, SigSpec,
    StmtAST, VariableAST,
};

verus! {

/// The most recently added declaration named `name`, if any.
pub open spec fn resolve_decl(vars: Seq<DeclSpec>, name: Seq<char>) -> Option<DeclSpec>
    decreases vars,
{
    if vars.len() == 0 {
        None
    } else if vars.last().name == name {
        Some(vars.last())
    } else {
        resolve_decl(vars.drop_last(), name)
    }
}

/// The most recently added signature named `name`, if any.
pub open spec fn resolve_sig(sigs: Seq<SigSpec>, name: Seq<char>) -> Option<SigSpec>
    decreases sigs,
{
    if sigs.len() == 0 {
        None
    } else if sigs.last().name == name {
        Some(sigs.last())
    } else {
        resolve_sig(sigs.drop_last(), name)
    }
}

/// The signatures of the function definitions standing directly in a
/// statement sequence, in order.
pub open spec fn sigs_of(stmts: Seq<crate::ast::StmtSpec>) -> Seq<SigSpec>
    decreases stmts,
{
    if stmts.len() == 0 {
        Seq::empty()
    } else {
        let rest = sigs_of(stmts.drop_last());
        match stmts.last() {
            crate::ast::StmtSpec::Function(f) => rest.push(f.signature),
            _ => rest,
        }
    }
}

/// A resolved declaration carries the looked-up name and stands in the
/// table.
pub proof fn lemma_resolve_decl_found(vars: Seq<DeclSpec>, name: Seq<char>)
    ensures
        resolve_decl(vars, name) matches Some(d) ==> d.name == name && (exists|i: int|
            0 <= i < vars.len() && vars[i] == d),
    decreases vars,
{
    if vars.len() > 0 && !(vars.last().name == name) {
        lemma_resolve_decl_found(vars.drop_last(), name);
        match resolve_decl(vars, name) {
            Some(d) => {
                let i = choose|i: int| 0 <= i < vars.drop_last().len() && vars.drop_last()[i] == d;
                assert(vars[i] == d);
            },
            None => {},
        }
    }
}

/// A resolved signature carries the looked-up name and stands in the
/// table.
pub proof fn lemma_resolve_sig_found(sigs: Seq<SigSpec>, name: Seq<char>)
    ensures
        resolve_sig(sigs, name) matches Some(s) ==> s.name == name && (exists|i: int|
            0 <= i < sigs.len() && sigs[i] == s),
    decreases sigs,
{
    if sigs.len() > 0 && !(sigs.last().name == name) {
        lemma_resolve_sig_found(sigs.drop_last(), name);
        match resolve_sig(sigs, name) {
            Some(s) => {
                let i = choose|i: int| 0 <= i < sigs.drop_last().len() && sigs.drop_last()[i] == s;
                assert(sigs[i] == s);
            },
            None => {},
        }
    }
}

/// Shadowing: a newly added declaration is what its name now resolves to,
/// and every other name resolves as before.
pub proof fn lemma_shadowing(vars: Seq<DeclSpec>, d: DeclSpec, name: Seq<char>)
    ensures
        resolve_decl(vars.push(d), d.name) == Some(d),
        name != d.name ==> resolve_decl(vars.push(d), name) == resolve_decl(vars, name),
{
    assert(vars.push(d).drop_last() =~= vars);
}

/// A scoped table of variable declarations.
pub struct VarResolver {
    vars: Vec<DeclarationAST>,
}

impl View for VarResolver {
    type V = Seq<DeclSpec>;

    closed spec fn view(&self) -> Seq<DeclSpec> {
        Seq::new(self.vars@.len(), |i: int| view_decl(self.vars@[i]))
    }
}

impl VarResolver {
    /// A fresh resolver with no declarations.
    pub fn new() -> (r: VarResolver)
        ensures
            r@ == Seq::<DeclSpec>::empty(),
    {
        let r = VarResolver { vars: Vec::new() };
        proof {
            assert(r@ =~= Seq::<DeclSpec>::empty());
        }
        r
    }

    /// A child scope: a copy of the current declarations. Later additions
    /// to either resolver are invisible to the other.
    pub fn new_scoped(&self) -> (r: VarResolver)
        ensures
            r@ == self@,
    {
        let mut vars: Vec<DeclarationAST> = Vec::new();
        let mut i: usize = 0;
        while i < self.vars.len()
            invariant
                i <= self.vars.len(),
                vars@.len() == i,
                forall|k: int| 0 <= k < i ==> view_decl(vars@[k]) == view_decl(self.vars@[k]),
            decreases self.vars.len() - i,
        {
            vars.push(self.vars[i].clone());
            i += 1;
        }
        let r = VarResolver { vars };
        proof {
            assert(r@ =~= self@);
        }
        r
    }

    /// Appends a declaration; it shadows earlier ones with the same name.
    pub fn add_decl(&mut self, decl: DeclarationAST)
        ensures
            final(self)@ == old(self)@.push(decl@),
    {
        let ghost pre = self@;
        let ghost d = decl@;
        self.vars.push(decl);
        proof {
            assert(self@ =~= pre.push(d));
        }
    }

    /// The declaration a variable refers to: the most recently added entry
    /// with the variable's name, or `None` if it was never declared.
    pub fn resolve_variable(&self, var: &VariableAST) -> (r: Option<DeclarationAST>)
        ensures
            match r {
                Some(d) => resolve_decl(self@, var.name@) == Some(d@),
                None => resolve_decl(self@, var.name@) is None,
            },
    {
        let mut i: usize = self.vars.len();
        proof {
            assert(self@.subrange(0, i as int) =~= self@);
        }
        while i > 0
            invariant
                i <= self.vars.len(),
                resolve_decl(self@, var.name@) == resolve_decl(
                    self@.subrange(0, i as int),
                    var.name@,
                ),
            decreases i,
        {
            i = i - 1;
            if self.vars[i].name == var.name {
                proof {
                    assert(self@.subrange(0, i + 1).last() == self@[i as int]);
                }
                return Some(self.vars[i].clone());
            }
            proof {
                assert(self@.subrange(0, i + 1).drop_last() =~= self@.subrange(0, i as int));
                assert(self@.subrange(0, i + 1).last() == self@[i as int]);
            }
        }
        proof {
            assert(self@.subrange(0, 0) =~= Seq::<DeclSpec>::empty());
        }
        None
    }
}

/// A scoped table of function signatures.
pub struct FunctionResolver {
    signt: Vec<FnSignatureAST>,
}

impl View for FunctionResolver {
    type V = Seq<SigSpec>;

    closed spec fn view(&self) -> Seq<SigSpec> {
        Seq::new(self.signt@.len(), |i: int| view_sig(self.signt@[i]))
    }
}

impl FunctionResolver {
    /// A fresh resolver with no signatures.
    pub fn new() -> (r: FunctionResolver)
        ensures
            r@ == Seq::<SigSpec>::empty(),
    {
        let r = FunctionResolver { signt: Vec::new() };
        proof {
            assert(r@ =~= Seq::<SigSpec>::empty());
        }
        r
    }

    /// A fresh resolver holding the signatures of the function definitions
    /// standing directly in `body`, in order.
    pub fn new_from_body(body: &BodyAST) -> (r: FunctionResolver)
        ensures
            r@ == sigs_of(body@.stmts),
    {
        let mut r = FunctionResolver::new();
        r.add_from_body(body);
        proof {
            assert(r@ =~= sigs_of(body@.stmts));
        }
        r
    }

    /// Appends the signature of every function definition standing
    /// directly in `body`, in order: this pre-registers sibling functions
    /// so that forward and mutual references resolve.
    pub fn add_from_body(&mut self, body: &BodyAST)
        ensures
            final(self)@ == old(self)@ + sigs_of(body@.stmts),
    {
        let ghost pre = self@;
        let ghost stmts = body@.stmts;
        proof {
            crate::ast::lemma_view_stmt_seq(body.stmts@);
        }
        let mut i: usize = 0;
        while i < body.stmts.len()
            invariant
                i <= body.stmts.len(),
                stmts == body@.stmts,
                stmts.len() == body.stmts@.len(),
                forall|k: int| 0 <= k < stmts.len() ==> stmts[k] == crate::ast::view_stmt(
                    body.stmts@[k],
                ),
                self@ == pre + sigs_of(stmts.subrange(0, i as int)),
            decreases body.stmts.len() - i,
        {
            let ghost prefix = stmts.subrange(0, i as int);
            let ghost prefix1 = stmts.subrange(0, i + 1);
            proof {
                assert(prefix1.drop_last() =~= prefix);
                assert(prefix1.last() == stmts[i as int]);
            }
            match &body.stmts[i] {
                StmtAST::Function(f) => {
                    let ghost spre = self@;
                    self.signt.push(f.fn_signt.clone());
                    proof {
                        assert(self@ =~= spre.push(view_sig(f.fn_signt)));
                        assert(self@ =~= pre + sigs_of(prefix1));
                    }
                },
                _ => {
                    proof {
                        assert(sigs_of(prefix1) =~= sigs_of(prefix));
                    }
                },
            }
            i += 1;
        }
        proof {
            assert(stmts.subrange(0, stmts.len() as int) =~= stmts);
        }
    }

    /// A child scope: a copy of the current signatures.
    pub fn new_scoped(&self) -> (r: FunctionResolver)
        ensures
            r@ == self@,
    {
        let mut signt: Vec<FnSignatureAST> = Vec::new();
        let mut i: usize = 0;
        while i < self.signt.len()
            invariant
                i <= self.signt.len(),
                signt@.len() == i,
                forall|k: int| 0 <= k < i ==> view_sig(signt@[k]) == view_sig(self.signt@[k]),
            decreases self.signt.len() - i,
        {
            signt.push(self.signt[i].clone());
            i += 1;
        }
        let r = FunctionResolver { signt };
        proof {
            assert(r@ =~= self@);
        }
        r
    }

    /// Appends a signature; it shadows earlier ones with the same name.
    pub fn add_signature(&mut self, decl: FnSignatureAST)
        ensures
            final(self)@ == old(self)@.push(decl@),
    {
        let ghost pre = self@;
        let ghost d = decl@;
        self.signt.push(decl);
        proof {
            assert(self@ =~= pre.push(d));
        }
    }

    /// The signature a call refers to: the most recently added entry with
    /// the callee's name, or `None` if no such function was defined.
    pub fn resolve_call(&self, call: &CallAST) -> (r: Option<FnSignatureAST>)
        ensures
            match r {
                Some(s) => resolve_sig(self@, call.callee@) == Some(s@),
                None => resolve_sig(self@, call.callee@) is None,
            },
    {
        let mut i: usize = self.signt.len();
        proof {
            assert(self@.subrange(0, i as int) =~= self@);
        }
        while i > 0
            invariant
                i <= self.signt.len(),
                resolve_sig(self@, call.callee@) == resolve_sig(
                    self@.subrange(0, i as int),
                    call.callee@,
                ),
            decreases i,
        {
            i = i - 1;
            if self.signt[i].name == call.callee {
                proof {
                    assert(self@.subrange(0, i + 1).last() == self@[i as int]);
                }
                return Some(self.signt[i].clone());
            }
            proof {
                assert(self@.subrange(0, i + 1).drop_last() =~= self@.subrange(0, i as int));
                assert(self@.subrange(0, i + 1).last() == self@[i as int]);
            }
        }
        proof {
            assert(self@.subrange(0, 0) =~= Seq::<SigSpec>::empty());
        }
        None
    }
}

} // verus!
