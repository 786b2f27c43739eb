//! The selective tree rewriter: replaces every eligible try expression with a
//! success-extraction method call, leaving the interior of excluded
//! boundaries untouched.

use vstd::prelude::*;

use crate::ast::Expr;
use crate::ast::ExprM;
use crate::ast::clone_string;
use crate::ast::clone_vec;
use crate::ast::lemma_view_list;
use crate::ast::view_expr;
use crate::ast::view_list;

verus! {

/// The method name that the selected mode emits: `unwrap` for the checked
/// mode, `unwrap_unchecked` for the unchecked one.
pub open spec fn method_name(unchecked: bool) -> Seq<char> {
    if unchecked {
        "unwrap_unchecked"@
    } else {
        "unwrap"@
    }
}

/// The selective rewrite of one node.
///
/// `gate` is the eligibility state: a try expression is replaced only while
/// eligibility holds, and it never holds in the interior of an excluded
/// boundary. Every other node keeps its shape, its sub-nodes rewritten under
/// the same eligibility.
pub open spec fn rewrite_expr(e: ExprM, unchecked: bool, gate: bool) -> ExprM
    decreases e,
{
    match e {
        ExprM::Atom(s) => ExprM::Atom(s),
        ExprM::Tokens(cs) => ExprM::Tokens(rewrite_list(cs, unchecked, gate)),
        ExprM::Try(inner) => if gate {
            ExprM::MethodCall(
                Box::new(rewrite_expr(*inner, unchecked, gate)),
                method_name(unchecked),
                Seq::empty(),
            )
        } else {
            ExprM::Try(Box::new(rewrite_expr(*inner, unchecked, gate)))
        },
        ExprM::MethodCall(r, m, args) => ExprM::MethodCall(
            Box::new(rewrite_expr(*r, unchecked, gate)),
            m,
            rewrite_list(args, unchecked, gate),
        ),
        ExprM::Closure(cs) => ExprM::Closure(rewrite_list(cs, unchecked, false)),
        ExprM::FnItem(cs) => ExprM::FnItem(rewrite_list(cs, unchecked, false)),
        ExprM::ImplItem(cs) => ExprM::ImplItem(rewrite_list(cs, unchecked, false)),
        ExprM::MacroDef(cs) => ExprM::MacroDef(rewrite_list(cs, unchecked, false)),
        ExprM::MacroItem(cs) => ExprM::MacroItem(rewrite_list(cs, unchecked, false)),
        ExprM::ModItem(cs) => ExprM::ModItem(rewrite_list(cs, unchecked, false)),
        ExprM::TraitItem(cs) => ExprM::TraitItem(rewrite_list(cs, unchecked, false)),
    }
}

/// The selective rewrite of an ordered list of nodes, each independently,
/// in order.
pub open spec fn rewrite_list(s: Seq<ExprM>, unchecked: bool, gate: bool) -> Seq<ExprM>
    decreases s,
{
    if s.len() == 0 {
        Seq::empty()
    } else {
        seq![rewrite_expr(s[0], unchecked, gate)] + rewrite_list(s.drop_first(), unchecked, gate)
    }
}

/// Rewriting a list keeps its length and acts elementwise.
pub proof fn lemma_rewrite_list(s: Seq<ExprM>, unchecked: bool, gate: bool)
    ensures
        rewrite_list(s, unchecked, gate).len() == s.len(),
        forall|i: int|
            0 <= i < s.len() ==> rewrite_list(s, unchecked, gate)[i] == rewrite_expr(
                s[i],
                unchecked,
                gate,
            ),
    decreases s,
{
    if s.len() > 0 {
        lemma_rewrite_list(s.drop_first(), unchecked, gate);
    }
}

/// While eligibility is off, the rewrite changes nothing: an ineligible region is
/// walked pass-through and comes out exactly as it went in.
pub proof fn lemma_rewrite_gate_off(e: ExprM, unchecked: bool)
    ensures
        rewrite_expr(e, unchecked, false) == e,
    decreases e,
{
    match e {
        ExprM::Atom(_) => {},
        ExprM::Tokens(cs) => lemma_rewrite_list_gate_off(cs, unchecked),
        ExprM::Try(inner) => lemma_rewrite_gate_off(*inner, unchecked),
        ExprM::MethodCall(r, _, args) => {
            lemma_rewrite_gate_off(*r, unchecked);
            lemma_rewrite_list_gate_off(args, unchecked);
        },
        ExprM::Closure(cs) => lemma_rewrite_list_gate_off(cs, unchecked),
        ExprM::FnItem(cs) => lemma_rewrite_list_gate_off(cs, unchecked),
        ExprM::ImplItem(cs) => lemma_rewrite_list_gate_off(cs, unchecked),
        ExprM::MacroDef(cs) => lemma_rewrite_list_gate_off(cs, unchecked),
        ExprM::MacroItem(cs) => lemma_rewrite_list_gate_off(cs, unchecked),
        ExprM::ModItem(cs) => lemma_rewrite_list_gate_off(cs, unchecked),
        ExprM::TraitItem(cs) => lemma_rewrite_list_gate_off(cs, unchecked),
    }
}

/// The list form of [`lemma_rewrite_gate_off`].
pub proof fn lemma_rewrite_list_gate_off(s: Seq<ExprM>, unchecked: bool)
    ensures
        rewrite_list(s, unchecked, false) == s,
    decreases s,
{
    if s.len() > 0 {
        lemma_rewrite_gate_off(s[0], unchecked);
        lemma_rewrite_list_gate_off(s.drop_first(), unchecked);
        assert(rewrite_list(s, unchecked, false) =~= s);
    }
}

/// The selective tree rewriter. It carries the rewrite mode, fixed for its
/// lifetime, and the eligibility state, which is on at construction, off for
/// the interior of every excluded boundary, and restored when that boundary's
/// subtree has been walked.
pub struct ReplaceTryWithUnwrap {
    unchecked: bool,
    can_replace: bool,
}

impl ReplaceTryWithUnwrap {
    /// True if this rewriter emits `unwrap_unchecked` rather than `unwrap`.
    pub closed spec fn is_unchecked(self) -> bool {
        self.unchecked
    }

    /// The current eligibility state.
    pub closed spec fn eligible(self) -> bool {
        self.can_replace
    }

    /// A fresh rewriter for the given mode, with eligibility on.
    pub fn new(unchecked: bool) -> (r: Self)
        ensures
            r.is_unchecked() == unchecked,
            r.eligible(),
    {
        Self { unchecked, can_replace: true }
    }

    /// Rewrites each statement of a sequence independently, in the original
    /// order, and collects the results into an equally ordered sequence.
    /// The rewriter comes out exactly as it went in, so the call is
    /// repeatable on the same instance.
    pub fn fold_statements(&mut self, statements: &Vec<Expr>) -> (r: Vec<Expr>)
        ensures
            view_list(r@) == rewrite_list(
                view_list(statements@),
                old(self).is_unchecked(),
                old(self).eligible(),
            ),
            *final(self) == *old(self),
    {
        self.fold_vec(statements)
    }

    /// Rewrites one node under the current eligibility state.
    pub fn fold_expr(&mut self, node: &Expr) -> (r: Expr)
        ensures
            r@ == rewrite_expr(node@, old(self).is_unchecked(), old(self).eligible()),
            *final(self) == *old(self),
        decreases node, 0int,
    {
        match node {
            Expr::Atom(s) => Expr::Atom(clone_string(s)),
            Expr::Tokens(cs) => Expr::Tokens(self.fold_vec(cs)),
            Expr::Try(inner) => {
                if self.can_replace {
                    let receiver = self.fold_expr(inner);
                    let no_args: Vec<Expr> = Vec::new();
                    proof {
                        assert(view_list(no_args@) =~= Seq::<ExprM>::empty());
                    }
                    Expr::MethodCall(Box::new(receiver), method_name_exec(self.unchecked), no_args)
                } else {
                    Expr::Try(Box::new(self.fold_expr(inner)))
                }
            },
            Expr::MethodCall(r, m, args) => {
                let receiver = self.fold_expr(r);
                let folded_args = self.fold_vec(args);
                Expr::MethodCall(Box::new(receiver), clone_string(m), folded_args)
            },
            Expr::Closure(cs) => Expr::Closure(self.fold_boundary(cs)),
            Expr::FnItem(cs) => Expr::FnItem(self.fold_boundary(cs)),
            Expr::ImplItem(cs) => Expr::ImplItem(self.fold_boundary(cs)),
            Expr::MacroDef(cs) => Expr::MacroDef(self.fold_boundary(cs)),
            Expr::MacroItem(cs) => Expr::MacroItem(self.fold_boundary(cs)),
            Expr::ModItem(cs) => Expr::ModItem(self.fold_boundary(cs)),
            Expr::TraitItem(cs) => Expr::TraitItem(self.fold_boundary(cs)),
        }
    }

    /// Rewrites each element of a list under the current eligibility state.
    fn fold_vec(&mut self, nodes: &Vec<Expr>) -> (r: Vec<Expr>)
        ensures
            view_list(r@) == rewrite_list(
                view_list(nodes@),
                old(self).is_unchecked(),
                old(self).eligible(),
            ),
            *final(self) == *old(self),
        decreases nodes, 0int,
    {
        let ghost unchecked = self.unchecked;
        let ghost gate = self.can_replace;
        let mut out: Vec<Expr> = Vec::new();
        let mut i: usize = 0;
        while i < nodes.len()
            invariant
                i <= nodes.len(),
                out@.len() == i,
                *self == *old(self),
                unchecked == self.unchecked,
                gate == self.can_replace,
                forall|j: int|
                    0 <= j < i ==> view_expr(out@[j]) == rewrite_expr(
                        view_expr(nodes@[j]),
                        unchecked,
                        gate,
                    ),
            decreases nodes@.len() - i,
        {
            let folded = self.fold_expr(&nodes[i]);
            out.push(folded);
            i = i + 1;
        }
        proof {
            lemma_view_list(out@);
            lemma_view_list(nodes@);
            lemma_rewrite_list(view_list(nodes@), unchecked, gate);
            assert(view_list(out@) =~= rewrite_list(view_list(nodes@), unchecked, gate));
        }
        out
    }

    /// Walks the interior of an excluded boundary. If eligibility is on, it
    /// is flipped off for the whole interior and restored afterwards; if it
    /// is already off, the interior is returned unchanged.
    fn fold_boundary(&mut self, cs: &Vec<Expr>) -> (r: Vec<Expr>)
        ensures
            view_list(r@) == rewrite_list(view_list(cs@), old(self).is_unchecked(), false),
            *final(self) == *old(self),
        decreases cs, 1int,
    {
        if self.can_replace {
            self.can_replace = false;
            let r = self.fold_vec(cs);
            self.can_replace = true;
            r
        } else {
            let r = clone_vec(cs);
            proof {
                lemma_rewrite_list_gate_off(view_list(cs@), self.unchecked);
            }
            r
        }
    }
}

/// The method name for the given mode, as a value.
fn method_name_exec(unchecked: bool) -> (r: String)
    ensures
        r@ == method_name(unchecked),
{
    if unchecked {
        "unwrap_unchecked".to_string()
    } else {
        "unwrap".to_string()
    }
}

} // verus!
