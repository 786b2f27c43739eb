use its_ok::Expr;
use its_ok::render_expr;

fn atom(text: &str) -> Expr {
    Expr::Atom(text.to_string())
}

fn method_call(receiver: Expr, name: &str, args: Vec<Expr>) -> Expr {
    Expr::MethodCall(Box::new(receiver), name.to_string(), args)
}

fn try_expr(operand: Expr) -> Expr {
    Expr::Try(Box::new(operand))
}

fn write_all_scenario() -> Vec<Expr> {
    // let mut buffer = Vec::new();
    // buffer.write_all(b"bytes")?;
    vec![
        Expr::Tokens(vec![atom("let mut buffer = Vec::new()"), atom(";")]),
        Expr::Tokens(vec![
            try_expr(method_call(atom("buffer"), "write_all", vec![atom("b\"bytes\"")])),
            atom(";"),
        ]),
    ]
}

#[test]
fn checked_expansion_of_write_all() {
    let expanded = its_ok::ok(&write_all_scenario());
    assert_eq!(
        "{ let mut buffer = Vec::new() ; buffer.write_all(b\"bytes\").unwrap() ; }",
        render_expr(&expanded)
    );
}

#[test]
fn unchecked_expansion_skips_fn_item_but_not_its_neighbors() {
    // A standalone function item with an internal try expression, with one
    // top-level try expression before it and one after it.
    let fn_item = Expr::FnItem(vec![
        atom("fn write(buffer: &mut Vec<u8>) -> io::Result<()> {"),
        Expr::Tokens(vec![
            try_expr(method_call(atom("buffer"), "write_all", vec![atom("b\"bytes\"")])),
            atom(";"),
        ]),
        atom("Ok(())"),
        atom("}"),
    ]);
    let statements = vec![
        Expr::Tokens(vec![try_expr(atom("before()")), atom(";")]),
        fn_item,
        Expr::Tokens(vec![try_expr(atom("after()")), atom(";")]),
    ];
    let expanded = its_ok::ok_unchecked(&statements);
    assert_eq!(
        "{ before().unwrap_unchecked() ; \
         fn write(buffer: &mut Vec<u8>) -> io::Result<()> { \
         buffer.write_all(b\"bytes\")? ; Ok(()) } \
         after().unwrap_unchecked() ; }",
        render_expr(&expanded)
    );
}

#[test]
fn modes_are_exclusive_on_the_same_input() {
    let checked = render_expr(&its_ok::ok(&write_all_scenario()));
    assert!(checked.contains(".unwrap()"));
    assert!(!checked.contains("unwrap_unchecked"));

    let unchecked = render_expr(&its_ok::ok_unchecked(&write_all_scenario()));
    assert!(unchecked.contains(".unwrap_unchecked()"));
    assert!(!unchecked.contains(".unwrap()"));
}

#[test]
fn reparsing_the_output_yields_a_valid_block() {
    let rendered = render_expr(&its_ok::ok(&write_all_scenario()));
    let reparsed = syn::parse_str::<syn::Block>(&rendered);
    assert!(reparsed.is_ok());

    let chained = vec![Expr::Tokens(vec![
        method_call(
            try_expr(method_call(try_expr(atom("x")), "f", vec![])),
            "g",
            vec![],
        ),
        atom(";"),
    ])];
    let rendered = render_expr(&its_ok::ok(&chained));
    assert_eq!("{ x.unwrap().f().unwrap().g() ; }", rendered);
    let reparsed = syn::parse_str::<syn::Block>(&rendered);
    assert!(reparsed.is_ok());
}

#[test]
fn try_on_closure_call_replaces_only_the_outer_question_mark() {
    // (| | { buffer.write_all(b"bytes")?; })()?;
    let closure = || {
        Expr::Closure(vec![
            atom("| | {"),
            Expr::Tokens(vec![
                try_expr(method_call(atom("buffer"), "write_all", vec![atom("b\"bytes\"")])),
                atom(";"),
            ]),
            atom("}"),
        ])
    };
    let statements = vec![Expr::Tokens(vec![
        try_expr(Expr::Tokens(vec![atom("("), closure(), atom(")()")])),
        atom(";"),
    ])];
    let expanded = its_ok::ok(&statements);
    assert_eq!(
        "{ ( | | { buffer.write_all(b\"bytes\")? ; } )().unwrap() ; }",
        render_expr(&expanded)
    );
    let expected = Expr::Tokens(vec![
        atom("{"),
        Expr::Tokens(vec![
            method_call(
                Expr::Tokens(vec![atom("("), closure(), atom(")()")]),
                "unwrap",
                vec![],
            ),
            atom(";"),
        ]),
        atom("}"),
    ]);
    assert_eq!(expected, expanded);
}
