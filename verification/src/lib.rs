//! Replaces every postfix try operator (`?`) in a sequence of statements with
//! an explicit success-extraction call: `.unwrap()` in checked mode, or
//! `.unwrap_unchecked()` in unchecked mode.
//!
//! The rewrite is selective: it never descends into closure literals, nested
//! function items, impl blocks, macro definitions, module items, or trait
//! definitions, because those introduce their own error-propagation scopes.

use vstd::prelude::*;

mod ast;
mod laws;
mod render;
mod replacement;

pub use ast::Expr;
pub use ast::ExprM;
pub use ast::clone_expr;
pub use ast::lemma_view_list;
pub use ast::view_expr;
pub use ast::view_list;
pub use laws::count_calls;
pub use laws::count_calls_list;
pub use laws::count_try;
pub use laws::count_try_list;
pub use laws::eligible_trys;
pub use laws::eligible_trys_list;
pub use laws::has_boundary;
pub use laws::has_boundary_list;
pub use laws::lemma_all_trys_replaced;
pub use laws::lemma_all_trys_replaced_list;
pub use laws::lemma_boundary_untouched;
pub use laws::lemma_chain_rewrites_nested;
pub use laws::lemma_modes_exclusive;
pub use laws::lemma_no_eligible_try_remains;
pub use laws::lemma_no_eligible_try_remains_list;
pub use laws::lemma_selective_by_statement;
pub use render::render;
pub use render::render_expr;
pub use render::render_list;
pub use render::render_vec;
pub use replacement::ReplaceTryWithUnwrap;
pub use replacement::lemma_rewrite_gate_off;
pub use replacement::lemma_rewrite_list_gate_off;
pub use replacement::method_name;
pub use replacement::rewrite_expr;
pub use replacement::rewrite_list;

verus! {

/// The model of a block expression wrapping a statement sequence: the
/// statements between an opening and a closing brace.
pub open spec fn block_of(stmts: Seq<ExprM>) -> ExprM {
    ExprM::Tokens(seq![ExprM::Atom("{"@)] + stmts + seq![ExprM::Atom("}"@)])
}

/// Replaces every eligible `?` in the statement sequence with an `unwrap`
/// call and wraps the rewritten statements in a single block expression.
///
/// The generated calls panic at run time if the wrapped operation produced
/// an error value.
///
/// The input is an already-parsed statement sequence; on malformed token
/// input the caller reports the parse failure as a compile-time diagnostic
/// instead of calling this function.
pub fn ok(statements: &Vec<Expr>) -> (r: Expr)
    ensures
        r@ == block_of(rewrite_list(view_list(statements@), false, true)),
{
    ok_impl(statements, false)
}

/// Replaces every eligible `?` in the statement sequence with an
/// `unwrap_unchecked` call and wraps the rewritten statements in a single
/// block expression.
///
/// The generated calls invoke undefined behavior at run time if the wrapped
/// operation produced an error value: callers of the generated code must
/// guarantee that every wrapped operation succeeds.
pub fn ok_unchecked(statements: &Vec<Expr>) -> (r: Expr)
    ensures
        r@ == block_of(rewrite_list(view_list(statements@), true, true)),
{
    ok_impl(statements, true)
}

/// The shared body of the two entry points: a fresh rewriter for the given
/// mode, one pass over the statements, and the block wrapping.
fn ok_impl(statements: &Vec<Expr>, unchecked: bool) -> (r: Expr)
    ensures
        r@ == block_of(rewrite_list(view_list(statements@), unchecked, true)),
{
    let mut replacer = ReplaceTryWithUnwrap::new(unchecked);
    let mut tail = replacer.fold_statements(statements);
    let ghost folded = tail@;
    let ghost folded_view = view_list(tail@);
    let mut pieces: Vec<Expr> = Vec::new();
    pieces.push(Expr::Atom("{".to_string()));
    pieces.append(&mut tail);
    pieces.push(Expr::Atom("}".to_string()));
    proof {
        lemma_view_list(pieces@);
        lemma_view_list(folded);
        let target = seq![ExprM::Atom("{"@)] + folded_view + seq![ExprM::Atom("}"@)];
        assert(view_list(pieces@) =~= target);
    }
    Expr::Tokens(pieces)
}

} // verus!
