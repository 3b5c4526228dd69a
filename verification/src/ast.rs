//! The compiled artifact: a syntax tree that is a plain value, invokable many
//! times against varying contexts and registries, and its mathematical model.

use vstd::prelude::*;

verus! {

/// An executable unit: the tree a successful compilation produces. It holds
/// no names resolved and no state; all resolution happens at execution time.
pub enum Ast {
    /// An integer literal.
    Int(i64),
    /// A variable reference, resolved against the context stack.
    Var(String),
    /// Addition of two sub-expressions.
    Add(Box<Ast>, Box<Ast>),
    /// A function call, resolved against the registries.
    Call(String, Vec<Ast>),
}

/// The mathematical model of an executable unit.
pub enum SpecAst {
    Int(i64),
    Var(Seq<char>),
    Add(Box<SpecAst>, Box<SpecAst>),
    Call(Seq<char>, Seq<SpecAst>),
}

pub open spec fn view_ast(a: Ast) -> SpecAst
    decreases a,
{
    match a {
        Ast::Int(n) => SpecAst::Int(n),
        Ast::Var(name) => SpecAst::Var(name@),
        Ast::Add(l, r) => SpecAst::Add(Box::new(view_ast(*l)), Box::new(view_ast(*r))),
        Ast::Call(name, args) => SpecAst::Call(name@, view_args(args@)),
    }
}

pub open spec fn view_args(s: Seq<Ast>) -> Seq<SpecAst>
    decreases s,
{
    if s.len() == 0 {
        Seq::empty()
    } else {
        seq![view_ast(s[0])] + view_args(s.subrange(1, s.len() as int))
    }
}

impl View for Ast {
    type V = SpecAst;

    open spec fn view(&self) -> SpecAst {
        view_ast(*self)
    }
}

/// The view of an argument list is the sequence of the arguments' views,
/// pointwise.
pub proof fn lemma_view_args(s: Seq<Ast>)
    ensures
        view_args(s).len() == s.len(),
        forall|i: int| 0 <= i < s.len() ==> view_args(s)[i] == view_ast(s[i]),
    decreases s,
{
    if s.len() > 0 {
        lemma_view_args(s.subrange(1, s.len() as int));
    }
}

impl Clone for Ast {
    /// A deep copy; the copy has the same model as the original.
    fn clone(&self) -> (r: Ast)
        ensures
            r@ == self@,
        decreases *self,
    {
        match self {
            Ast::Int(n) => Ast::Int(*n),
            Ast::Var(name) => Ast::Var(name.clone()),
            Ast::Add(l, r) => {
                Ast::Add(Box::new((**l).clone()), Box::new((**r).clone()))
            },
            Ast::Call(name, args) => {
                let mut out: Vec<Ast> = Vec::new();
                let mut idx: usize = 0;
                while idx < args.len()
                    invariant
                        idx <= args.len(),
                        out@.len() == idx,
                        *self is Call && *args == self->Call_1,
                        forall|k: int| 0 <= k < idx ==> view_ast(out@[k]) == view_ast(args@[k]),
                    decreases args.len() - idx,
                {
                    let c = args[idx].clone();
                    out.push(c);
                    idx = idx + 1;
                }
                proof {
                    lemma_view_args(out@);
                    lemma_view_args(args@);
                    assert(view_args(out@) =~= view_args(args@));
                }
                Ast::Call(name.clone(), out)
            },
        }
    }
}

} // verus!
