use its_ok::Expr;
use its_ok::ReplaceTryWithUnwrap;
use its_ok::render_vec;

fn atom(text: &str) -> Expr {
    Expr::Atom(text.to_string())
}

fn method_call(receiver: Expr, name: &str, args: Vec<Expr>) -> Expr {
    Expr::MethodCall(Box::new(receiver), name.to_string(), args)
}

fn try_expr(operand: Expr) -> Expr {
    Expr::Try(Box::new(operand))
}

#[test]
fn replace_question_marks_with_unwrap_calls() {
    // let mut buffer = Vec::new();
    // buffer.write_all(b"bytes")?;
    // x?.f()?.g();
    let statements = vec![
        Expr::Tokens(vec![atom("let mut buffer = Vec::new()"), atom(";")]),
        Expr::Tokens(vec![
            try_expr(method_call(atom("buffer"), "write_all", vec![atom("b\"bytes\"")])),
            atom(";"),
        ]),
        Expr::Tokens(vec![
            method_call(
                try_expr(method_call(try_expr(atom("x")), "f", vec![])),
                "g",
                vec![],
            ),
            atom(";"),
        ]),
    ];

    let use_unwrap_unchecked = false;
    let mut replacer = ReplaceTryWithUnwrap::new(use_unwrap_unchecked);
    let statements = replacer.fold_statements(&statements);

    let expected_statements = vec![
        Expr::Tokens(vec![atom("let mut buffer = Vec::new()"), atom(";")]),
        Expr::Tokens(vec![
            method_call(
                method_call(atom("buffer"), "write_all", vec![atom("b\"bytes\"")]),
                "unwrap",
                vec![],
            ),
            atom(";"),
        ]),
        Expr::Tokens(vec![
            method_call(
                method_call(
                    method_call(method_call(atom("x"), "unwrap", vec![]), "f", vec![]),
                    "unwrap",
                    vec![],
                ),
                "g",
                vec![],
            ),
            atom(";"),
        ]),
    ];
    assert_eq!(expected_statements, statements);
    assert_eq!(
        "let mut buffer = Vec::new() ; buffer.write_all(b\"bytes\").unwrap() ; \
         x.unwrap().f().unwrap().g() ;",
        render_vec(&statements)
    );
}

#[test]
fn replacements_are_not_done_inside_disallowed_nodes() {
    // fn write(buffer: &mut Vec<u8>) -> io::Result<()> { buffer.write_all(b"bytes")?; Ok(()) }
    // let mut buffer = Vec::new();
    // buffer.write_all(b"bytes")?;
    // (| | { buffer.write_all(b"bytes")?; })();
    // buffer.write_all(b"bytes")?;
    // (| | { buffer.write_all(b"bytes")?; })();
    let write_all_try = || {
        Expr::Tokens(vec![
            try_expr(method_call(atom("buffer"), "write_all", vec![atom("b\"bytes\"")])),
            atom(";"),
        ])
    };
    let fn_item = || {
        Expr::FnItem(vec![
            atom("fn write(buffer: &mut Vec<u8>) -> io::Result<()> {"),
            write_all_try(),
            atom("Ok(())"),
            atom("}"),
        ])
    };
    let called_closure = || {
        Expr::Tokens(vec![
            atom("("),
            Expr::Closure(vec![atom("| | {"), write_all_try(), atom("}")]),
            atom(")()"),
            atom(";"),
        ])
    };
    let statements = vec![
        fn_item(),
        Expr::Tokens(vec![atom("let mut buffer = Vec::new()"), atom(";")]),
        write_all_try(),
        called_closure(),
        write_all_try(),
        called_closure(),
    ];

    let use_unwrap_unchecked = true;
    let mut replacer = ReplaceTryWithUnwrap::new(use_unwrap_unchecked);
    let statements = replacer.fold_statements(&statements);

    let replaced = || {
        Expr::Tokens(vec![
            method_call(
                method_call(atom("buffer"), "write_all", vec![atom("b\"bytes\"")]),
                "unwrap_unchecked",
                vec![],
            ),
            atom(";"),
        ])
    };
    let expected_statements = vec![
        fn_item(),
        Expr::Tokens(vec![atom("let mut buffer = Vec::new()"), atom(";")]),
        replaced(),
        called_closure(),
        replaced(),
        called_closure(),
    ];
    assert_eq!(expected_statements, statements);
}

#[test]
fn every_boundary_kind_is_left_unchanged() {
    let interior_try = || {
        Expr::Tokens(vec![try_expr(method_call(atom("port"), "read", vec![])), atom(";")])
    };
    let boundaries = vec![
        Expr::Closure(vec![atom("| | {"), interior_try(), atom("}")]),
        Expr::FnItem(vec![atom("fn go() {"), interior_try(), atom("}")]),
        Expr::ImplItem(vec![atom("impl Port {"), interior_try(), atom("}")]),
        Expr::MacroDef(vec![atom("macro_rules! go { () => {"), interior_try(), atom("} }")]),
        Expr::MacroItem(vec![atom("macro go() {"), interior_try(), atom("}")]),
        Expr::ModItem(vec![atom("mod port {"), interior_try(), atom("}")]),
        Expr::TraitItem(vec![atom("trait Port {"), interior_try(), atom("}")]),
    ];
    let rebuilt = vec![
        Expr::Closure(vec![atom("| | {"), interior_try(), atom("}")]),
        Expr::FnItem(vec![atom("fn go() {"), interior_try(), atom("}")]),
        Expr::ImplItem(vec![atom("impl Port {"), interior_try(), atom("}")]),
        Expr::MacroDef(vec![atom("macro_rules! go { () => {"), interior_try(), atom("} }")]),
        Expr::MacroItem(vec![atom("macro go() {"), interior_try(), atom("}")]),
        Expr::ModItem(vec![atom("mod port {"), interior_try(), atom("}")]),
        Expr::TraitItem(vec![atom("trait Port {"), interior_try(), atom("}")]),
    ];

    let mut replacer = ReplaceTryWithUnwrap::new(false);
    let folded = replacer.fold_statements(&boundaries);
    assert_eq!(rebuilt, folded);

    let mut replacer = ReplaceTryWithUnwrap::new(true);
    let folded = replacer.fold_statements(&boundaries);
    assert_eq!(rebuilt, folded);
}

#[test]
fn rewriter_is_reusable_across_calls() {
    let statements = vec![Expr::Tokens(vec![try_expr(atom("fallible()")), atom(";")])];
    let expected = vec![Expr::Tokens(vec![
        method_call(atom("fallible()"), "unwrap", vec![]),
        atom(";"),
    ])];
    let mut replacer = ReplaceTryWithUnwrap::new(false);
    let first = replacer.fold_statements(&statements);
    let second = replacer.fold_statements(&statements);
    assert_eq!(expected, first);
    assert_eq!(expected, second);
}
