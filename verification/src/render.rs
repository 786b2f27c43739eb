//! Re-emission of a tree as token text.
//!
//! An atom is emitted verbatim; the pieces of a group (and of a boundary's
//! interior) are joined with single spaces; a try expression is its operand
//! followed by `?`; a method call is its receiver, a dot, the method name,
//! and the parenthesized arguments. Rewriting and then emitting therefore
//! yields the input text token for token, except that every eligible `?` has
//! become a trailing method call.

use vstd::prelude::*;
use vstd::string::StringExecFns;

use crate::ast::Expr;
use crate::ast::ExprM;
use crate::ast::clone_string;
use crate::ast::lemma_view_list;
use crate::ast::view_expr;
use crate::ast::view_list;

verus! {

/// The token text of one node.
pub open spec fn render(e: ExprM) -> Seq<char>
    decreases e,
{
    match e {
        ExprM::Atom(s) => s,
        ExprM::Tokens(cs) => render_list(cs),
        ExprM::Try(inner) => render(*inner) + "?"@,
        ExprM::MethodCall(r, m, args) => render(*r) + "."@ + m + "("@ + render_list(args) + ")"@,
        ExprM::Closure(cs) => render_list(cs),
        ExprM::FnItem(cs) => render_list(cs),
        ExprM::ImplItem(cs) => render_list(cs),
        ExprM::MacroDef(cs) => render_list(cs),
        ExprM::MacroItem(cs) => render_list(cs),
        ExprM::ModItem(cs) => render_list(cs),
        ExprM::TraitItem(cs) => render_list(cs),
    }
}

/// The token text of a list of nodes, joined with single spaces.
pub open spec fn render_list(s: Seq<ExprM>) -> Seq<char>
    decreases s,
{
    if s.len() == 0 {
        Seq::empty()
    } else if s.len() == 1 {
        render(s[0])
    } else {
        render(s[0]) + " "@ + render_list(s.drop_first())
    }
}

/// Appending one node to a list appends its text, after a space when the
/// list was not empty.
pub proof fn lemma_render_list_push(s: Seq<ExprM>, e: ExprM)
    ensures
        render_list(s.push(e)) == if s.len() == 0 {
            render(e)
        } else {
            render_list(s) + " "@ + render(e)
        },
    decreases s,
{
    let t = s.push(e);
    if s.len() == 0 {
        assert(t.len() == 1);
        assert(t[0] == e);
    } else {
        assert(t[0] == s[0]);
        assert(t.drop_first() =~= s.drop_first().push(e));
        lemma_render_list_push(s.drop_first(), e);
        if s.len() == 1 {
            assert(render_list(s) == render(s[0]));
        }
    }
}

/// The token text of one node, as a string.
pub fn render_expr(e: &Expr) -> (r: String)
    ensures
        r@ == render(e@),
    decreases e, 0int,
{
    match e {
        Expr::Atom(s) => clone_string(s),
        Expr::Tokens(cs) => render_vec(cs),
        Expr::Try(inner) => {
            let mut out = render_expr(inner);
            out.append("?");
            out
        },
        Expr::MethodCall(r0, m, args) => {
            let mut out = render_expr(r0);
            out.append(".");
            out.append(m.as_str());
            out.append("(");
            let rendered_args = render_vec(args);
            out.append(rendered_args.as_str());
            out.append(")");
            out
        },
        Expr::Closure(cs) => render_vec(cs),
        Expr::FnItem(cs) => render_vec(cs),
        Expr::ImplItem(cs) => render_vec(cs),
        Expr::MacroDef(cs) => render_vec(cs),
        Expr::MacroItem(cs) => render_vec(cs),
        Expr::ModItem(cs) => render_vec(cs),
        Expr::TraitItem(cs) => render_vec(cs),
    }
}

/// The token text of a list of nodes, joined with single spaces.
pub fn render_vec(v: &Vec<Expr>) -> (r: String)
    ensures
        r@ == render_list(view_list(v@)),
    decreases v, 1int,
{
    proof {
        lemma_view_list(v@);
    }
    let ghost w = view_list(v@);
    let mut out = String::new();
    let mut i: usize = 0;
    while i < v.len()
        invariant
            i <= v.len(),
            w == view_list(v@),
            w.len() == v@.len(),
            forall|j: int| 0 <= j < v@.len() ==> w[j] == view_expr(v@[j]),
            out@ == render_list(w.take(i as int)),
        decreases v@.len() - i,
    {
        let piece = render_expr(&v[i]);
        if i > 0 {
            out.append(" ");
        }
        out.append(piece.as_str());
        proof {
            assert(w.take(i + 1 as int) =~= w.take(i as int).push(w[i as int]));
            lemma_render_list_push(w.take(i as int), w[i as int]);
        }
        i = i + 1;
    }
    proof {
        assert(w.take(v@.len() as int) =~= w);
    }
    out
}

} // verus!
