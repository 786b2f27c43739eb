//! Counting functions over the tree model, and the laws of the rewrite:
//! what is replaced, what is left untouched, and what the two modes emit.

use vstd::prelude::*;

use crate::ast::ExprM;
use crate::replacement::method_name;
use crate::replacement::rewrite_expr;
use crate::replacement::rewrite_list;
use crate::replacement::lemma_rewrite_list;
use crate::replacement::lemma_rewrite_list_gate_off;

verus! {

/// The number of try expressions anywhere in a node.
pub open spec fn count_try(e: ExprM) -> nat
    decreases e,
{
    match e {
        ExprM::Atom(_) => 0,
        ExprM::Tokens(cs) => count_try_list(cs),
        ExprM::Try(inner) => 1 + count_try(*inner),
        ExprM::MethodCall(r, _, args) => count_try(*r) + count_try_list(args),
        ExprM::Closure(cs) => count_try_list(cs),
        ExprM::FnItem(cs) => count_try_list(cs),
        ExprM::ImplItem(cs) => count_try_list(cs),
        ExprM::MacroDef(cs) => count_try_list(cs),
        ExprM::MacroItem(cs) => count_try_list(cs),
        ExprM::ModItem(cs) => count_try_list(cs),
        ExprM::TraitItem(cs) => count_try_list(cs),
    }
}

/// The number of try expressions anywhere in a list of nodes.
pub open spec fn count_try_list(s: Seq<ExprM>) -> nat
    decreases s,
{
    if s.len() == 0 {
        0
    } else {
        count_try(s[0]) + count_try_list(s.drop_first())
    }
}

/// The number of method calls with the given name anywhere in a node.
pub open spec fn count_calls(e: ExprM, name: Seq<char>) -> nat
    decreases e,
{
    match e {
        ExprM::Atom(_) => 0,
        ExprM::Tokens(cs) => count_calls_list(cs, name),
        ExprM::Try(inner) => count_calls(*inner, name),
        ExprM::MethodCall(r, m, args) => (if m == name {
            1nat
        } else {
            0nat
        }) + count_calls(*r, name) + count_calls_list(args, name),
        ExprM::Closure(cs) => count_calls_list(cs, name),
        ExprM::FnItem(cs) => count_calls_list(cs, name),
        ExprM::ImplItem(cs) => count_calls_list(cs, name),
        ExprM::MacroDef(cs) => count_calls_list(cs, name),
        ExprM::MacroItem(cs) => count_calls_list(cs, name),
        ExprM::ModItem(cs) => count_calls_list(cs, name),
        ExprM::TraitItem(cs) => count_calls_list(cs, name),
    }
}

/// The number of method calls with the given name anywhere in a list.
pub open spec fn count_calls_list(s: Seq<ExprM>, name: Seq<char>) -> nat
    decreases s,
{
    if s.len() == 0 {
        0
    } else {
        count_calls(s[0], name) + count_calls_list(s.drop_first(), name)
    }
}

/// True if the node is, or contains, an excluded boundary.
pub open spec fn has_boundary(e: ExprM) -> bool
    decreases e,
{
    match e {
        ExprM::Atom(_) => false,
        ExprM::Tokens(cs) => has_boundary_list(cs),
        ExprM::Try(inner) => has_boundary(*inner),
        ExprM::MethodCall(r, _, args) => has_boundary(*r) || has_boundary_list(args),
        _ => true,
    }
}

/// True if some node of the list is, or contains, an excluded boundary.
pub open spec fn has_boundary_list(s: Seq<ExprM>) -> bool
    decreases s,
{
    if s.len() == 0 {
        false
    } else {
        has_boundary(s[0]) || has_boundary_list(s.drop_first())
    }
}

/// The number of try expressions at eligible positions: those reachable from
/// the top of the node without entering an excluded boundary, under the given
/// eligibility state.
pub open spec fn eligible_trys(e: ExprM, gate: bool) -> nat
    decreases e,
{
    match e {
        ExprM::Atom(_) => 0,
        ExprM::Tokens(cs) => eligible_trys_list(cs, gate),
        ExprM::Try(inner) => (if gate {
            1nat
        } else {
            0nat
        }) + eligible_trys(*inner, gate),
        ExprM::MethodCall(r, _, args) => eligible_trys(*r, gate) + eligible_trys_list(args, gate),
        ExprM::Closure(cs) => eligible_trys_list(cs, false),
        ExprM::FnItem(cs) => eligible_trys_list(cs, false),
        ExprM::ImplItem(cs) => eligible_trys_list(cs, false),
        ExprM::MacroDef(cs) => eligible_trys_list(cs, false),
        ExprM::MacroItem(cs) => eligible_trys_list(cs, false),
        ExprM::ModItem(cs) => eligible_trys_list(cs, false),
        ExprM::TraitItem(cs) => eligible_trys_list(cs, false),
    }
}

/// The list form of [`eligible_trys`].
pub open spec fn eligible_trys_list(s: Seq<ExprM>, gate: bool) -> nat
    decreases s,
{
    if s.len() == 0 {
        0
    } else {
        eligible_trys(s[0], gate) + eligible_trys_list(s.drop_first(), gate)
    }
}

/// Decomposition of a list with a first element prepended.
pub proof fn lemma_cons(a: ExprM, b: Seq<ExprM>)
    ensures
        (seq![a] + b).len() == 1 + b.len(),
        (seq![a] + b)[0] == a,
        (seq![a] + b).drop_first() == b,
{
    assert((seq![a] + b).drop_first() =~= b);
}

/// While eligibility is off, no position counts as eligible.
pub proof fn lemma_eligible_gate_off(e: ExprM)
    ensures
        eligible_trys(e, false) == 0,
    decreases e,
{
    match e {
        ExprM::Atom(_) => {},
        ExprM::Tokens(cs) => lemma_eligible_list_gate_off(cs),
        ExprM::Try(inner) => lemma_eligible_gate_off(*inner),
        ExprM::MethodCall(r, _, args) => {
            lemma_eligible_gate_off(*r);
            lemma_eligible_list_gate_off(args);
        },
        ExprM::Closure(cs) => lemma_eligible_list_gate_off(cs),
        ExprM::FnItem(cs) => lemma_eligible_list_gate_off(cs),
        ExprM::ImplItem(cs) => lemma_eligible_list_gate_off(cs),
        ExprM::MacroDef(cs) => lemma_eligible_list_gate_off(cs),
        ExprM::MacroItem(cs) => lemma_eligible_list_gate_off(cs),
        ExprM::ModItem(cs) => lemma_eligible_list_gate_off(cs),
        ExprM::TraitItem(cs) => lemma_eligible_list_gate_off(cs),
    }
}

/// The list form of [`lemma_eligible_gate_off`].
pub proof fn lemma_eligible_list_gate_off(s: Seq<ExprM>)
    ensures
        eligible_trys_list(s, false) == 0,
    decreases s,
{
    if s.len() > 0 {
        lemma_eligible_gate_off(s[0]);
        lemma_eligible_list_gate_off(s.drop_first());
    }
}

/// For a node with no excluded boundary, an eligible rewrite replaces
/// every try expression: none remain, and the count of method calls named
/// after the selected mode grows by exactly the count of try operators in the
/// input.
pub proof fn lemma_all_trys_replaced(e: ExprM, unchecked: bool)
    requires
        !has_boundary(e),
    ensures
        count_try(rewrite_expr(e, unchecked, true)) == 0,
        count_calls(rewrite_expr(e, unchecked, true), method_name(unchecked)) == count_calls(
            e,
            method_name(unchecked),
        ) + count_try(e),
    decreases e,
{
    match e {
        ExprM::Atom(_) => {},
        ExprM::Tokens(cs) => lemma_all_trys_replaced_list(cs, unchecked),
        ExprM::Try(inner) => {
            lemma_all_trys_replaced(*inner, unchecked);
            assert(rewrite_expr(e, unchecked, true) == ExprM::MethodCall(
                Box::new(rewrite_expr(*inner, unchecked, true)),
                method_name(unchecked),
                Seq::empty(),
            ));
            assert(count_try_list(Seq::<ExprM>::empty()) == 0);
            assert(count_calls_list(Seq::<ExprM>::empty(), method_name(unchecked)) == 0);
        },
        ExprM::MethodCall(r, _, args) => {
            lemma_all_trys_replaced(*r, unchecked);
            lemma_all_trys_replaced_list(args, unchecked);
        },
        _ => {},
    }
}

/// The statement-sequence form of [`lemma_all_trys_replaced`]: for a
/// statement sequence with no excluded boundary, every top-level-reachable
/// try expression is replaced by the selected call, and the count of
/// replacements equals the count of try operators in the input.
pub proof fn lemma_all_trys_replaced_list(s: Seq<ExprM>, unchecked: bool)
    requires
        !has_boundary_list(s),
    ensures
        count_try_list(rewrite_list(s, unchecked, true)) == 0,
        count_calls_list(rewrite_list(s, unchecked, true), method_name(unchecked))
            == count_calls_list(s, method_name(unchecked)) + count_try_list(s),
    decreases s,
{
    if s.len() > 0 {
        lemma_all_trys_replaced(s[0], unchecked);
        lemma_all_trys_replaced_list(s.drop_first(), unchecked);
        lemma_cons(
            rewrite_expr(s[0], unchecked, true),
            rewrite_list(s.drop_first(), unchecked, true),
        );
    }
}

/// An excluded boundary node itself comes out of the rewrite unchanged,
/// whatever the eligibility state: its interior is walked pass-through only.
pub proof fn lemma_boundary_untouched(e: ExprM, unchecked: bool, gate: bool)
    requires
        e.is_boundary(),
    ensures
        rewrite_expr(e, unchecked, gate) == e,
{
    match e {
        ExprM::Closure(cs) => lemma_rewrite_list_gate_off(cs, unchecked),
        ExprM::FnItem(cs) => lemma_rewrite_list_gate_off(cs, unchecked),
        ExprM::ImplItem(cs) => lemma_rewrite_list_gate_off(cs, unchecked),
        ExprM::MacroDef(cs) => lemma_rewrite_list_gate_off(cs, unchecked),
        ExprM::MacroItem(cs) => lemma_rewrite_list_gate_off(cs, unchecked),
        ExprM::ModItem(cs) => lemma_rewrite_list_gate_off(cs, unchecked),
        ExprM::TraitItem(cs) => lemma_rewrite_list_gate_off(cs, unchecked),
        _ => {},
    }
}

/// In a statement sequence, each statement is rewritten independently:
/// a statement that is an excluded boundary is left exactly as it was, while
/// a statement with no boundary has every one of its try expressions
/// replaced.
pub proof fn lemma_selective_by_statement(s: Seq<ExprM>, unchecked: bool)
    ensures
        rewrite_list(s, unchecked, true).len() == s.len(),
        forall|i: int|
            0 <= i < s.len() && s[i].is_boundary() ==> rewrite_list(s, unchecked, true)[i] == s[i],
        forall|i: int|
            0 <= i < s.len() && !has_boundary(s[i]) ==> count_try(
                rewrite_list(s, unchecked, true)[i],
            ) == 0,
{
    lemma_rewrite_list(s, unchecked, true);
    assert forall|i: int|
        0 <= i < s.len() && s[i].is_boundary() implies rewrite_list(s, unchecked, true)[i]
        == s[i] by {
        lemma_boundary_untouched(s[i], unchecked, true);
    }
    assert forall|i: int|
        0 <= i < s.len() && !has_boundary(s[i]) implies count_try(
        rewrite_list(s, unchecked, true)[i],
    ) == 0 by {
        lemma_all_trys_replaced(s[i], unchecked);
    }
}

/// A chained pair of try expressions, `x?.m(args)?`, rewrites to fully
/// nested calls in the original order: the inner replacement becomes the
/// receiver of the outer one, each `?` replaced independently.
pub proof fn lemma_chain_rewrites_nested(x: ExprM, m: Seq<char>, args: Seq<ExprM>, unchecked: bool)
    ensures
        rewrite_expr(
            ExprM::Try(Box::new(ExprM::MethodCall(Box::new(ExprM::Try(Box::new(x))), m, args))),
            unchecked,
            true,
        ) == ExprM::MethodCall(
            Box::new(
                ExprM::MethodCall(
                    Box::new(
                        ExprM::MethodCall(
                            Box::new(rewrite_expr(x, unchecked, true)),
                            method_name(unchecked),
                            Seq::empty(),
                        ),
                    ),
                    m,
                    rewrite_list(args, unchecked, true),
                ),
            ),
            method_name(unchecked),
            Seq::empty(),
        ),
{
    let t1 = ExprM::Try(Box::new(x));
    let t2 = ExprM::MethodCall(Box::new(t1), m, args);
    let t3 = ExprM::Try(Box::new(t2));
    assert(rewrite_expr(t1, unchecked, true) == ExprM::MethodCall(
        Box::new(rewrite_expr(x, unchecked, true)),
        method_name(unchecked),
        Seq::empty(),
    ));
    assert(rewrite_expr(t2, unchecked, true) == ExprM::MethodCall(
        Box::new(rewrite_expr(t1, unchecked, true)),
        m,
        rewrite_list(args, unchecked, true),
    ));
    assert(rewrite_expr(t3, unchecked, true) == ExprM::MethodCall(
        Box::new(rewrite_expr(t2, unchecked, true)),
        method_name(unchecked),
        Seq::empty(),
    ));
}

/// After an eligible rewrite, no try expression remains at any
/// eligible position.
pub proof fn lemma_no_eligible_try_remains(e: ExprM, unchecked: bool)
    ensures
        eligible_trys(rewrite_expr(e, unchecked, true), true) == 0,
    decreases e,
{
    match e {
        ExprM::Atom(_) => {},
        ExprM::Tokens(cs) => lemma_no_eligible_try_remains_list(cs, unchecked),
        ExprM::Try(inner) => {
            lemma_no_eligible_try_remains(*inner, unchecked);
            assert(rewrite_expr(e, unchecked, true) == ExprM::MethodCall(
                Box::new(rewrite_expr(*inner, unchecked, true)),
                method_name(unchecked),
                Seq::empty(),
            ));
            assert(eligible_trys_list(Seq::<ExprM>::empty(), true) == 0);
        },
        ExprM::MethodCall(r, _, args) => {
            lemma_no_eligible_try_remains(*r, unchecked);
            lemma_no_eligible_try_remains_list(args, unchecked);
        },
        ExprM::Closure(cs) => lemma_eligible_list_gate_off(rewrite_list(cs, unchecked, false)),
        ExprM::FnItem(cs) => lemma_eligible_list_gate_off(rewrite_list(cs, unchecked, false)),
        ExprM::ImplItem(cs) => lemma_eligible_list_gate_off(rewrite_list(cs, unchecked, false)),
        ExprM::MacroDef(cs) => lemma_eligible_list_gate_off(rewrite_list(cs, unchecked, false)),
        ExprM::MacroItem(cs) => lemma_eligible_list_gate_off(rewrite_list(cs, unchecked, false)),
        ExprM::ModItem(cs) => lemma_eligible_list_gate_off(rewrite_list(cs, unchecked, false)),
        ExprM::TraitItem(cs) => lemma_eligible_list_gate_off(rewrite_list(cs, unchecked, false)),
    }
}

/// The statement-sequence form of [`lemma_no_eligible_try_remains`]: the
/// rewritten sequence, read back as a tree, has zero try expressions left at
/// eligible positions.
pub proof fn lemma_no_eligible_try_remains_list(s: Seq<ExprM>, unchecked: bool)
    ensures
        eligible_trys_list(rewrite_list(s, unchecked, true), true) == 0,
    decreases s,
{
    if s.len() > 0 {
        lemma_no_eligible_try_remains(s[0], unchecked);
        lemma_no_eligible_try_remains_list(s.drop_first(), unchecked);
        lemma_cons(
            rewrite_expr(s[0], unchecked, true),
            rewrite_list(s.drop_first(), unchecked, true),
        );
    }
}

/// Rewriting never creates a method call under any name other than the one
/// the selected mode emits.
pub proof fn lemma_other_names_preserved(e: ExprM, unchecked: bool, gate: bool, name: Seq<char>)
    requires
        name != method_name(unchecked),
    ensures
        count_calls(rewrite_expr(e, unchecked, gate), name) == count_calls(e, name),
    decreases e,
{
    match e {
        ExprM::Atom(_) => {},
        ExprM::Tokens(cs) => lemma_other_names_preserved_list(cs, unchecked, gate, name),
        ExprM::Try(inner) => {
            lemma_other_names_preserved(*inner, unchecked, gate, name);
            if gate {
                assert(rewrite_expr(e, unchecked, gate) == ExprM::MethodCall(
                    Box::new(rewrite_expr(*inner, unchecked, gate)),
                    method_name(unchecked),
                    Seq::empty(),
                ));
                assert(count_calls_list(Seq::<ExprM>::empty(), name) == 0);
            }
        },
        ExprM::MethodCall(r, _, args) => {
            lemma_other_names_preserved(*r, unchecked, gate, name);
            lemma_other_names_preserved_list(args, unchecked, gate, name);
        },
        ExprM::Closure(cs) => lemma_other_names_preserved_list(cs, unchecked, false, name),
        ExprM::FnItem(cs) => lemma_other_names_preserved_list(cs, unchecked, false, name),
        ExprM::ImplItem(cs) => lemma_other_names_preserved_list(cs, unchecked, false, name),
        ExprM::MacroDef(cs) => lemma_other_names_preserved_list(cs, unchecked, false, name),
        ExprM::MacroItem(cs) => lemma_other_names_preserved_list(cs, unchecked, false, name),
        ExprM::ModItem(cs) => lemma_other_names_preserved_list(cs, unchecked, false, name),
        ExprM::TraitItem(cs) => lemma_other_names_preserved_list(cs, unchecked, false, name),
    }
}

/// The list form of [`lemma_other_names_preserved`].
pub proof fn lemma_other_names_preserved_list(
    s: Seq<ExprM>,
    unchecked: bool,
    gate: bool,
    name: Seq<char>,
)
    requires
        name != method_name(unchecked),
    ensures
        count_calls_list(rewrite_list(s, unchecked, gate), name) == count_calls_list(s, name),
    decreases s,
{
    if s.len() > 0 {
        lemma_other_names_preserved(s[0], unchecked, gate, name);
        lemma_other_names_preserved_list(s.drop_first(), unchecked, gate, name);
        lemma_cons(
            rewrite_expr(s[0], unchecked, gate),
            rewrite_list(s.drop_first(), unchecked, gate),
        );
    }
}

/// Mode selection is exclusive: the checked mode never emits an
/// `unwrap_unchecked` call, and the unchecked mode never emits an `unwrap`
/// call — each leaves the count of the other mode's calls exactly as it
/// found it.
pub proof fn lemma_modes_exclusive(s: Seq<ExprM>, gate: bool)
    ensures
        count_calls_list(rewrite_list(s, false, gate), "unwrap_unchecked"@) == count_calls_list(
            s,
            "unwrap_unchecked"@,
        ),
        count_calls_list(rewrite_list(s, true, gate), "unwrap"@) == count_calls_list(s, "unwrap"@),
{
    reveal_strlit("unwrap");
    reveal_strlit("unwrap_unchecked");
    assert("unwrap"@.len() == 6);
    assert("unwrap_unchecked"@.len() == 16);
    lemma_other_names_preserved_list(s, false, gate, "unwrap_unchecked"@);
    lemma_other_names_preserved_list(s, true, gate, "unwrap"@);
}

} // verus!

