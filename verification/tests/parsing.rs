use descent::ast::{Accessor, BinOp, Expr, Item, Pattern, Type, UnOp};
use descent::diag::{Expectation, ParseError};
use descent::parser::parse;
use descent::span::{Loc, Span, Sp};
use descent::token::{Keyword, LexError, Simple, Token};

fn span_at(pos: usize, len: usize) -> Span {
    Span {
        start: Loc { line: 0, col: pos, pos },
        end: Loc { line: 0, col: pos + len, pos: pos + len },
    }
}

fn toks(values: Vec<Token>) -> Vec<Sp<Token>> {
    values
        .into_iter()
        .enumerate()
        .map(|(i, value)| Sp { value, span: span_at(i, 1) })
        .collect()
}

fn id(name: &str) -> Token {
    Token::Ident(name.to_string())
}

fn sim(s: Simple) -> Token {
    Token::Simple(s)
}

fn kw(k: Keyword) -> Token {
    Token::Keyword(k)
}

fn parse_one_expr(values: Vec<Token>) -> Sp<Expr> {
    let mut values = values;
    values.push(sim(Simple::SemiColon));
    let items = parse(Ok(toks(values))).expect("expected a successful parse");
    assert_eq!(items.len(), 1);
    match items.into_iter().next().unwrap() {
        Item::Expr(e) => e,
        _ => panic!("expected an expression statement"),
    }
}

fn as_bin(e: &Expr) -> (&Sp<Expr>, BinOp, &Sp<Expr>) {
    match e {
        Expr::Bin(b) => (&b.lhs, b.op.value, &b.rhs),
        _ => panic!("expected a binary node"),
    }
}

fn ident_name(e: &Expr) -> &str {
    match e {
        Expr::Ident(n) => n,
        _ => panic!("expected an identifier"),
    }
}

#[test]
fn additive_is_left_associative() {
    for op in [Simple::Plus, Simple::Minus, Simple::Star, Simple::Slash] {
        let e = parse_one_expr(vec![id("a"), sim(op), id("b"), sim(op), id("c")]);
        let (l, _, r) = as_bin(&e.value);
        assert_eq!(ident_name(&r.value), "c");
        let (ll, _, lr) = as_bin(&l.value);
        assert_eq!(ident_name(&ll.value), "a");
        assert_eq!(ident_name(&lr.value), "b");
    }
}

#[test]
fn comparison_is_left_associative() {
    for (op, b) in [
        (Simple::Equal, BinOp::Eq),
        (Simple::NotEqual, BinOp::Ne),
        (Simple::Less, BinOp::Lt),
        (Simple::LessEqual, BinOp::Le),
        (Simple::Greater, BinOp::Gt),
        (Simple::GreaterEqual, BinOp::Ge),
    ] {
        let e = parse_one_expr(vec![id("a"), sim(op), id("b"), sim(op), id("c")]);
        let (l, op_out, r) = as_bin(&e.value);
        assert_eq!(op_out, b);
        assert_eq!(ident_name(&r.value), "c");
        let (ll, op_in, lr) = as_bin(&l.value);
        assert_eq!(op_in, b);
        assert_eq!(ident_name(&ll.value), "a");
        assert_eq!(ident_name(&lr.value), "b");
    }
}

#[test]
fn assignment_is_right_associative() {
    let e = parse_one_expr(vec![
        id("a"),
        sim(Simple::Equals),
        id("b"),
        sim(Simple::Equals),
        id("c"),
    ]);
    match &e.value {
        Expr::Assign(outer) => {
            assert_eq!(ident_name(&outer.lvalue.value), "a");
            assert!(outer.op.is_none());
            match &outer.expr.value {
                Expr::Assign(inner) => {
                    assert_eq!(ident_name(&inner.lvalue.value), "b");
                    assert!(inner.op.is_none());
                    assert_eq!(ident_name(&inner.expr.value), "c");
                },
                _ => panic!("expected a nested assignment"),
            }
        },
        _ => panic!("expected an assignment"),
    }
}

#[test]
fn compound_assignment_records_operator() {
    let e = parse_one_expr(vec![id("a"), sim(Simple::PlusEquals), id("b")]);
    match &e.value {
        Expr::Assign(a) => {
            assert_eq!(a.op.as_ref().map(|o| o.value), Some(BinOp::Add));
        },
        _ => panic!("expected an assignment"),
    }
}

#[test]
fn multiplication_binds_tighter_than_addition() {
    let e = parse_one_expr(vec![
        Token::Integer(1),
        sim(Simple::Plus),
        Token::Integer(2),
        sim(Simple::Star),
        Token::Integer(3),
    ]);
    let (l, op, r) = as_bin(&e.value);
    assert_eq!(op, BinOp::Add);
    assert!(matches!(l.value, Expr::Integer(1)));
    let (rl, op_in, rr) = as_bin(&r.value);
    assert_eq!(op_in, BinOp::Mul);
    assert!(matches!(rl.value, Expr::Integer(2)));
    assert!(matches!(rr.value, Expr::Integer(3)));
}

#[test]
fn and_binds_tighter_than_or() {
    let e = parse_one_expr(vec![
        id("a"),
        kw(Keyword::Or),
        id("b"),
        kw(Keyword::And),
        id("c"),
    ]);
    let (l, op, r) = as_bin(&e.value);
    assert_eq!(op, BinOp::Or);
    assert_eq!(ident_name(&l.value), "a");
    let (rl, op_in, rr) = as_bin(&r.value);
    assert_eq!(op_in, BinOp::And);
    assert_eq!(ident_name(&rl.value), "b");
    assert_eq!(ident_name(&rr.value), "c");
}

#[test]
fn node_spans_cover_consumed_tokens() {
    // a + b spans from the first to the last consumed token; the inner
    // identifiers keep their own token spans.
    let e = parse_one_expr(vec![id("a"), sim(Simple::Plus), id("b")]);
    assert_eq!(e.span.start.pos, 0);
    assert_eq!(e.span.end.pos, 3);
    let (l, _, r) = as_bin(&e.value);
    assert_eq!(l.span, span_at(0, 1));
    assert_eq!(r.span, span_at(2, 1));
    // A tuple literal spans both parentheses.
    let t = parse_one_expr(vec![
        sim(Simple::OpenParen),
        id("a"),
        sim(Simple::Comma),
        id("b"),
        sim(Simple::CloseParen),
    ]);
    assert_eq!(t.span.start.pos, 0);
    assert_eq!(t.span.end.pos, 5);
}

#[test]
fn empty_parens_parse_as_empty_tuple() {
    let e = parse_one_expr(vec![sim(Simple::OpenParen), sim(Simple::CloseParen)]);
    match &e.value {
        Expr::Tuple(es) => assert!(es.is_empty()),
        _ => panic!("expected a tuple"),
    }
}

#[test]
fn parenthesized_single_and_trailing_comma_agree() {
    let plain = parse_one_expr(vec![
        sim(Simple::OpenParen),
        id("a"),
        sim(Simple::CloseParen),
    ]);
    let trailing = parse_one_expr(vec![
        sim(Simple::OpenParen),
        id("a"),
        sim(Simple::Comma),
        sim(Simple::CloseParen),
    ]);
    for e in [&plain, &trailing] {
        match &e.value {
            Expr::Tuple(es) => {
                assert_eq!(es.len(), 1);
                assert_eq!(ident_name(&es[0].value), "a");
            },
            _ => panic!("expected a tuple"),
        }
    }
}

#[test]
fn trailing_comma_in_longer_tuple_changes_nothing() {
    let plain = parse_one_expr(vec![
        sim(Simple::OpenParen),
        id("a"),
        sim(Simple::Comma),
        id("b"),
        sim(Simple::Comma),
        id("c"),
        sim(Simple::CloseParen),
    ]);
    let trailing = parse_one_expr(vec![
        sim(Simple::OpenParen),
        id("a"),
        sim(Simple::Comma),
        id("b"),
        sim(Simple::Comma),
        id("c"),
        sim(Simple::Comma),
        sim(Simple::CloseParen),
    ]);
    for e in [&plain, &trailing] {
        match &e.value {
            Expr::Tuple(es) => {
                assert_eq!(es.len(), 3);
                assert_eq!(ident_name(&es[0].value), "a");
                assert_eq!(ident_name(&es[1].value), "b");
                assert_eq!(ident_name(&es[2].value), "c");
            },
            _ => panic!("expected a tuple"),
        }
    }
}

#[test]
fn missing_type_fails_fast_with_single_diagnostic() {
    // fn f(x: ) {}  — the type after the colon is missing.
    let errs = parse(Ok(toks(vec![
        kw(Keyword::Fn),
        id("f"),
        sim(Simple::OpenParen),
        id("x"),
        sim(Simple::Colon),
        sim(Simple::CloseParen),
        sim(Simple::OpenCurly),
        sim(Simple::CloseCurly),
    ])))
    .expect_err("expected a failed parse");
    assert_eq!(errs.len(), 1);
    match &errs[0].value {
        ParseError::Expected(exps, found) => {
            assert_eq!(exps.as_slice(), &[Expectation::Type]);
            assert!(matches!(
                found.as_deref(),
                Some(Sp { value: Token::Simple(Simple::CloseParen), .. })
            ));
        },
        _ => panic!("expected a grammar diagnostic"),
    }
    assert_eq!(errs[0].value.message(), "expected type, found )");
}

#[test]
fn trailing_token_yields_end_of_file_diagnostic() {
    // let x = 1; )  — a complete binding, then a stray token.
    let errs = parse(Ok(toks(vec![
        kw(Keyword::Let),
        id("x"),
        sim(Simple::Equals),
        Token::Integer(1),
        sim(Simple::SemiColon),
        sim(Simple::CloseParen),
    ])))
    .expect_err("expected a failed parse");
    assert_eq!(errs.len(), 1);
    match &errs[0].value {
        ParseError::Expected(exps, found) => {
            assert_eq!(exps.as_slice(), &[Expectation::Eof]);
            assert!(matches!(
                found.as_deref(),
                Some(Sp { value: Token::Simple(Simple::CloseParen), .. })
            ));
        },
        _ => panic!("expected a grammar diagnostic"),
    }
    assert_eq!(errs[0].span, span_at(5, 1));
    assert_eq!(errs[0].value.message(), "expected end of file, found )");
}

#[test]
fn doc_comment_lines_accumulate_onto_function() {
    let items = parse(Ok(toks(vec![
        Token::DocComment("first ".to_string()),
        Token::DocComment("second".to_string()),
        kw(Keyword::Fn),
        id("f"),
        sim(Simple::OpenParen),
        sim(Simple::CloseParen),
        sim(Simple::OpenCurly),
        sim(Simple::CloseCurly),
    ])))
    .expect("expected a successful parse");
    assert_eq!(items.len(), 1);
    match &items[0] {
        Item::FunctionDef(fd) => {
            let doc = fd.doc.as_ref().expect("expected accumulated documentation");
            assert_eq!(doc.value, "first second");
            assert_eq!(doc.span.start.pos, 0);
            assert_eq!(doc.span.end.pos, 2);
            assert_eq!(fd.name.value, "f");
        },
        _ => panic!("expected a function definition"),
    }
}

#[test]
fn repeated_negation_is_right_recursive() {
    let e = parse_one_expr(vec![
        sim(Simple::Minus),
        sim(Simple::Minus),
        Token::Integer(1),
    ]);
    match &e.value {
        Expr::Un(outer) => {
            assert_eq!(outer.op.value, UnOp::Neg);
            match &outer.expr.value {
                Expr::Un(inner) => {
                    assert_eq!(inner.op.value, UnOp::Neg);
                    assert!(matches!(inner.expr.value, Expr::Integer(1)));
                },
                _ => panic!("expected a nested negation"),
            }
        },
        _ => panic!("expected a negation"),
    }
}

#[test]
fn call_and_field_chain_left_to_right() {
    // f(x).y(z)
    let e = parse_one_expr(vec![
        id("f"),
        sim(Simple::OpenParen),
        id("x"),
        sim(Simple::CloseParen),
        sim(Simple::Period),
        id("y"),
        sim(Simple::OpenParen),
        id("z"),
        sim(Simple::CloseParen),
    ]);
    match &e.value {
        Expr::Call(outer) => {
            assert_eq!(outer.args.len(), 1);
            assert_eq!(ident_name(&outer.args[0].value), "z");
            match &outer.expr.value {
                Expr::Access(acc) => {
                    let Accessor::Field(fname) = &acc.accessor.value;
                    assert_eq!(fname, "y");
                    match &acc.expr.value {
                        Expr::Call(inner) => {
                            assert_eq!(ident_name(&inner.expr.value), "f");
                            assert_eq!(inner.args.len(), 1);
                        },
                        _ => panic!("expected the inner call"),
                    }
                },
                _ => panic!("expected a field access"),
            }
        },
        _ => panic!("expected the outer call"),
    }
}

#[test]
fn binding_with_tuple_pattern_and_types() {
    // fn g(p: [T], q: (A, B)) { let (a, b) = q; p; }
    let items = parse(Ok(toks(vec![
        kw(Keyword::Fn),
        id("g"),
        sim(Simple::OpenParen),
        id("p"),
        sim(Simple::Colon),
        sim(Simple::OpenBracket),
        id("T"),
        sim(Simple::CloseBracket),
        sim(Simple::Comma),
        id("q"),
        sim(Simple::Colon),
        sim(Simple::OpenParen),
        id("A"),
        sim(Simple::Comma),
        id("B"),
        sim(Simple::CloseParen),
        sim(Simple::CloseParen),
        sim(Simple::OpenCurly),
        kw(Keyword::Let),
        sim(Simple::OpenParen),
        id("a"),
        sim(Simple::Comma),
        id("b"),
        sim(Simple::CloseParen),
        sim(Simple::Equals),
        id("q"),
        sim(Simple::SemiColon),
        id("p"),
        sim(Simple::SemiColon),
        sim(Simple::CloseCurly),
    ])))
    .expect("expected a successful parse");
    assert_eq!(items.len(), 1);
    match &items[0] {
        Item::FunctionDef(fd) => {
            assert_eq!(fd.params.len(), 2);
            assert!(matches!(fd.params[0].ty.value, Type::Array(_)));
            match &fd.params[1].ty.value {
                Type::Tuple(ts) => assert_eq!(ts.len(), 2),
                _ => panic!("expected a tuple type"),
            }
            assert_eq!(fd.body.items.len(), 2);
            match &fd.body.items[0] {
                Item::Binding(b) => match &b.pattern.value {
                    Pattern::Tuple(ps) => assert_eq!(ps.len(), 2),
                    _ => panic!("expected a tuple pattern"),
                },
                _ => panic!("expected a binding"),
            }
        },
        _ => panic!("expected a function definition"),
    }
}

#[test]
fn comments_are_skipped_everywhere() {
    let e = parse_one_expr(vec![
        Token::Comment("before".to_string()),
        id("a"),
        Token::Comment("between".to_string()),
        sim(Simple::Plus),
        id("b"),
    ]);
    let (l, op, r) = as_bin(&e.value);
    assert_eq!(op, BinOp::Add);
    assert_eq!(ident_name(&l.value), "a");
    assert_eq!(ident_name(&r.value), "b");
    // A trailing comment after the last item is not a stray token.
    let items = parse(Ok(toks(vec![
        id("a"),
        sim(Simple::SemiColon),
        Token::Comment("after".to_string()),
    ])))
    .expect("expected a successful parse");
    assert_eq!(items.len(), 1);
}

#[test]
fn block_expression_and_array_literal() {
    // x = { y; }; then [1, 2]
    let e = parse_one_expr(vec![
        sim(Simple::OpenBracket),
        Token::Integer(1),
        sim(Simple::Comma),
        Token::Integer(2),
        sim(Simple::CloseBracket),
    ]);
    match &e.value {
        Expr::Array(es) => assert_eq!(es.len(), 2),
        _ => panic!("expected an array"),
    }
    let b = parse_one_expr(vec![
        sim(Simple::OpenCurly),
        id("y"),
        sim(Simple::SemiColon),
        sim(Simple::CloseCurly),
    ]);
    match &b.value {
        Expr::Block(blk) => assert_eq!(blk.items.len(), 1),
        _ => panic!("expected a block expression"),
    }
    assert_eq!(b.span, span_at(0, 1).merge(span_at(3, 1)));
}

#[test]
fn real_and_boolean_literals() {
    let e = parse_one_expr(vec![Token::Real("1.5".to_string())]);
    match &e.value {
        Expr::Real(r) => assert_eq!(r, "1.5"),
        _ => panic!("expected a real literal"),
    }
    let t = parse_one_expr(vec![kw(Keyword::True)]);
    assert!(matches!(t.value, Expr::Bool(true)));
    let f = parse_one_expr(vec![kw(Keyword::False)]);
    assert!(matches!(f.value, Expr::Bool(false)));
}

#[test]
fn missing_pattern_after_let() {
    let errs = parse(Ok(toks(vec![kw(Keyword::Let), sim(Simple::Equals)])))
        .expect_err("expected a failed parse");
    assert_eq!(errs.len(), 1);
    match &errs[0].value {
        ParseError::Expected(exps, _) => {
            assert_eq!(exps.as_slice(), &[Expectation::Pattern]);
        },
        _ => panic!("expected a grammar diagnostic"),
    }
}

#[test]
fn missing_terminator_names_the_token() {
    let errs = parse(Ok(toks(vec![id("a")]))).expect_err("expected a failed parse");
    assert_eq!(errs.len(), 1);
    match &errs[0].value {
        ParseError::Expected(exps, found) => {
            assert_eq!(exps.as_slice(), &[Expectation::Simple(Simple::SemiColon)]);
            assert!(found.is_none());
        },
        _ => panic!("expected a grammar diagnostic"),
    }
    // The diagnostic points at a zero-width span just past the input.
    assert_eq!(errs[0].span.start.pos, 1);
    assert_eq!(errs[0].value.message(), "expected ;");
}

#[test]
fn operand_missing_after_operator() {
    let errs = parse(Ok(toks(vec![id("a"), sim(Simple::Plus), sim(Simple::SemiColon)])))
        .expect_err("expected a failed parse");
    assert_eq!(errs.len(), 1);
    match &errs[0].value {
        ParseError::Expected(exps, found) => {
            assert_eq!(exps.as_slice(), &[Expectation::Expr]);
            assert!(matches!(
                found.as_deref(),
                Some(Sp { value: Token::Simple(Simple::SemiColon), .. })
            ));
        },
        _ => panic!("expected a grammar diagnostic"),
    }
}

#[test]
fn lexical_error_is_wrapped_unchanged() {
    let errs = parse(Err(Sp {
        value: LexError { message: "stray byte".to_string() },
        span: span_at(4, 1),
    }))
    .expect_err("expected a failed parse");
    assert_eq!(errs.len(), 1);
    match &errs[0].value {
        ParseError::Lex(e) => assert_eq!(e.message, "stray byte"),
        _ => panic!("expected the lexical diagnostic"),
    }
    assert_eq!(errs[0].span, span_at(4, 1));
    assert_eq!(errs[0].value.message(), "stray byte");
}

#[test]
fn empty_input_parses_to_no_items() {
    let items = parse(Ok(Vec::new())).expect("expected a successful parse");
    assert!(items.is_empty());
}

#[test]
fn repeated_not_is_right_recursive() {
    let e = parse_one_expr(vec![kw(Keyword::Not), kw(Keyword::Not), id("x")]);
    match &e.value {
        Expr::Un(outer) => {
            assert_eq!(outer.op.value, UnOp::Not);
            match &outer.expr.value {
                Expr::Un(inner) => {
                    assert_eq!(inner.op.value, UnOp::Not);
                    assert_eq!(ident_name(&inner.expr.value), "x");
                },
                _ => panic!("expected a nested negation"),
            }
        },
        _ => panic!("expected a logical negation"),
    }
}

#[test]
fn every_compound_assignment_operator() {
    for (op, b) in [
        (Simple::MinusEquals, BinOp::Sub),
        (Simple::StarEquals, BinOp::Mul),
        (Simple::SlashEquals, BinOp::Div),
    ] {
        let e = parse_one_expr(vec![id("a"), sim(op), id("b")]);
        match &e.value {
            Expr::Assign(a) => {
                assert_eq!(a.op.as_ref().map(|o| o.value), Some(b));
            },
            _ => panic!("expected an assignment"),
        }
    }
}

#[test]
fn array_type_span_covers_brackets() {
    // fn h(p: [T]) {} — the array type's span runs from [ to ].
    let items = parse(Ok(toks(vec![
        kw(Keyword::Fn),
        id("h"),
        sim(Simple::OpenParen),
        id("p"),
        sim(Simple::Colon),
        sim(Simple::OpenBracket),
        id("T"),
        sim(Simple::CloseBracket),
        sim(Simple::CloseParen),
        sim(Simple::OpenCurly),
        sim(Simple::CloseCurly),
    ])))
    .expect("expected a successful parse");
    match &items[0] {
        Item::FunctionDef(fd) => {
            let ty = &fd.params[0].ty;
            assert!(matches!(ty.value, Type::Array(_)));
            assert_eq!(ty.span.start.pos, 5);
            assert_eq!(ty.span.end.pos, 8);
        },
        _ => panic!("expected a function definition"),
    }
}
