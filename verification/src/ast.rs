//! The statement/expression tree that the rewriter walks, together with its
//! mathematical model.
//!
//! A statement sequence is an ordered `Vec<Expr>`; each element is one
//! statement (typically a [`Expr::Tokens`] group whose pieces include the
//! trailing semicolon as an [`Expr::Atom`]). A node owns its sub-nodes.

use vstd::prelude::*;

verus! {

/// One node of the statement/expression tree.
///
/// `Atom` carries verbatim token text and has no sub-nodes; `Tokens` is the
/// pass-through structural node (any construct that is neither a try
/// expression, a method call, nor an excluded boundary is decomposed into a
/// `Tokens` group of verbatim fragments and interesting sub-expressions).
/// The remaining variants after `MethodCall` are the excluded boundaries:
/// constructs whose interior must never be rewritten.
#[derive(Debug, PartialEq, Eq)]
pub enum Expr {
    /// Verbatim token text; a leaf.
    Atom(String),
    /// A pass-through node: the concatenation of its pieces.
    Tokens(Vec<Expr>),
    /// A postfix try operator applied to its operand.
    Try(Box<Expr>),
    /// A method call: receiver, method name, argument pieces.
    MethodCall(Box<Expr>, String, Vec<Expr>),
    /// A closure literal; an excluded boundary.
    Closure(Vec<Expr>),
    /// A standalone function item; an excluded boundary.
    FnItem(Vec<Expr>),
    /// An impl block; an excluded boundary.
    ImplItem(Vec<Expr>),
    /// A declarative-style macro definition; an excluded boundary.
    MacroDef(Vec<Expr>),
    /// An item-style macro definition; an excluded boundary.
    MacroItem(Vec<Expr>),
    /// A module item; an excluded boundary.
    ModItem(Vec<Expr>),
    /// A trait definition; an excluded boundary.
    TraitItem(Vec<Expr>),
}

/// The mathematical model of a tree node: the same shape as [`Expr`], with
/// `Seq` in place of `Vec` and `Seq<char>` in place of `String`.
pub enum ExprM {
    Atom(Seq<char>),
    Tokens(Seq<ExprM>),
    Try(Box<ExprM>),
    MethodCall(Box<ExprM>, Seq<char>, Seq<ExprM>),
    Closure(Seq<ExprM>),
    FnItem(Seq<ExprM>),
    ImplItem(Seq<ExprM>),
    MacroDef(Seq<ExprM>),
    MacroItem(Seq<ExprM>),
    ModItem(Seq<ExprM>),
    TraitItem(Seq<ExprM>),
}

impl ExprM {
    /// True of the node kinds whose interior is an independent
    /// error-propagation scope and must not be rewritten.
    pub open spec fn is_boundary(self) -> bool {
        match self {
            ExprM::Closure(_) => true,
            ExprM::FnItem(_) => true,
            ExprM::ImplItem(_) => true,
            ExprM::MacroDef(_) => true,
            ExprM::MacroItem(_) => true,
            ExprM::ModItem(_) => true,
            ExprM::TraitItem(_) => true,
            _ => false,
        }
    }
}

/// The model of a single tree node.
pub open spec fn view_expr(e: Expr) -> ExprM
    decreases e,
{
    match e {
        Expr::Atom(s) => ExprM::Atom(s@),
        Expr::Tokens(cs) => ExprM::Tokens(view_list(cs@)),
        Expr::Try(inner) => ExprM::Try(Box::new(view_expr(*inner))),
        Expr::MethodCall(r, m, args) => ExprM::MethodCall(
            Box::new(view_expr(*r)),
            m@,
            view_list(args@),
        ),
        Expr::Closure(cs) => ExprM::Closure(view_list(cs@)),
        Expr::FnItem(cs) => ExprM::FnItem(view_list(cs@)),
        Expr::ImplItem(cs) => ExprM::ImplItem(view_list(cs@)),
        Expr::MacroDef(cs) => ExprM::MacroDef(view_list(cs@)),
        Expr::MacroItem(cs) => ExprM::MacroItem(view_list(cs@)),
        Expr::ModItem(cs) => ExprM::ModItem(view_list(cs@)),
        Expr::TraitItem(cs) => ExprM::TraitItem(view_list(cs@)),
    }
}

/// The model of an ordered list of tree nodes.
pub open spec fn view_list(s: Seq<Expr>) -> Seq<ExprM>
    decreases s,
{
    if s.len() == 0 {
        Seq::empty()
    } else {
        seq![view_expr(s[0])] + view_list(s.drop_first())
    }
}

impl View for Expr {
    type V = ExprM;

    open spec fn view(&self) -> ExprM {
        view_expr(*self)
    }
}

/// A copy of a string, equal to the original.
pub fn clone_string(s: &String) -> (r: String)
    ensures
        r@ == s@,
{
    s.clone()
}

/// A deep copy of a node, equal to the original in the model.
pub fn clone_expr(e: &Expr) -> (r: Expr)
    ensures
        r@ == e@,
    decreases e, 0int,
{
    match e {
        Expr::Atom(s) => Expr::Atom(clone_string(s)),
        Expr::Tokens(cs) => Expr::Tokens(clone_vec(cs)),
        Expr::Try(inner) => Expr::Try(Box::new(clone_expr(inner))),
        Expr::MethodCall(r0, m, args) => Expr::MethodCall(
            Box::new(clone_expr(r0)),
            clone_string(m),
            clone_vec(args),
        ),
        Expr::Closure(cs) => Expr::Closure(clone_vec(cs)),
        Expr::FnItem(cs) => Expr::FnItem(clone_vec(cs)),
        Expr::ImplItem(cs) => Expr::ImplItem(clone_vec(cs)),
        Expr::MacroDef(cs) => Expr::MacroDef(clone_vec(cs)),
        Expr::MacroItem(cs) => Expr::MacroItem(clone_vec(cs)),
        Expr::ModItem(cs) => Expr::ModItem(clone_vec(cs)),
        Expr::TraitItem(cs) => Expr::TraitItem(clone_vec(cs)),
    }
}

/// A deep copy of a list of nodes, elementwise equal to the original in the
/// model.
pub fn clone_vec(v: &Vec<Expr>) -> (r: Vec<Expr>)
    ensures
        view_list(r@) == view_list(v@),
    decreases v, 1int,
{
    let mut out: Vec<Expr> = Vec::new();
    let mut i: usize = 0;
    while i < v.len()
        invariant
            i <= v.len(),
            out@.len() == i,
            forall|j: int| 0 <= j < i ==> view_expr(out@[j]) == view_expr(v@[j]),
        decreases v@.len() - i,
    {
        let copied = clone_expr(&v[i]);
        out.push(copied);
        i = i + 1;
    }
    proof {
        lemma_view_list(out@);
        lemma_view_list(v@);
        assert(view_list(out@) =~= view_list(v@));
    }
    out
}

/// The model of a list is elementwise the model of its elements.
pub proof fn lemma_view_list(s: Seq<Expr>)
    ensures
        view_list(s).len() == s.len(),
        forall|i: int| 0 <= i < s.len() ==> view_list(s)[i] == view_expr(s[i]),
    decreases s,
{
    if s.len() > 0 {
        lemma_view_list(s.drop_first());
    }
}

} // verus!
