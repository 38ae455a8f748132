use lib::ast::{Ast, AstNode, Expr, Item, LiteralOp, LiteralValue, Type, UsePath};
use lib::common::{LiteralId, NameId, NameTable, Span, SpanRegistry};
use lib::lexer::{
    MetaElem, OpenCloseSymbol, Punctuation, PunctuationId, StrongKeyword, Token, TokenMetadata, TokenStore,
    PRIMITIVE_KEYWORD_COUNT, WEAK_KEYWORD_COUNT,
};
use lib::type_system::PrimitiveType;
use lib::parser::{ParseErrorCode, Parser};

/// A well-formed store of `tokens`, each with its own span.
fn store(tokens: Vec<Token>) -> (TokenStore, SpanRegistry) {
    let mut spans = SpanRegistry::new();
    let mut metadata = Vec::new();
    for i in 0..tokens.len() {
        let span_id = spans.add_span(Span { file_id: 0, char_start: i as u64, char_end: i as u64 + 1 });
        metadata.push(TokenMetadata { span_id, meta_elems: vec![MetaElem::Whitespace] });
    }
    let weak_kw_names = (0..WEAK_KEYWORD_COUNT).map(|i| NameId(100 + i as u32)).collect();
    let prim_ty_names = (0..PRIMITIVE_KEYWORD_COUNT).map(|i| NameId(200 + i as u32)).collect();
    (TokenStore { tokens, metadata, weak_kw_names, prim_ty_names }, spans)
}

fn names() -> NameTable {
    let mut names: Vec<String> = (0..300).map(|i| format!("n{i}")).collect();
    names[0] = "foo".to_string();
    names[1] = "bar".to_string();
    names[2] = "baz".to_string();
    NameTable { names }
}

fn open(sym: OpenCloseSymbol) -> Token {
    Token::OpenSymbol(sym)
}

fn close(sym: OpenCloseSymbol) -> Token {
    Token::CloseSymbol(sym)
}

#[test]
fn parse_empty_token_stream() {
    let (tokens, mut spans) = store(Vec::new());
    let names = names();
    let mut parser = Parser::new(&tokens, &names, &mut spans);
    assert!(parser.parse().is_ok());
    assert_eq!(parser.ast.items.len(), 0);
    assert_eq!(parser.ast.meta.len(), 0);
}

#[test]
fn parse_function_item() {
    let (tokens, mut spans) = store(vec![
        Token::StrongKw(StrongKeyword::Fn),
        Token::Name(NameId(0)),
        open(OpenCloseSymbol::Paren),
        close(OpenCloseSymbol::Paren),
        open(OpenCloseSymbol::Brace),
        close(OpenCloseSymbol::Brace),
    ]);
    let names = names();
    let mut parser = Parser::new(&tokens, &names, &mut spans);
    assert!(parser.parse().is_ok());
    assert_eq!(parser.ast.items.len(), 1);
    let Item::Function(f) = &parser.ast.items[0] else { panic!("expected a function") };
    assert_eq!(f.name, NameId(0));
    assert!(!f.is_const);
    assert!(!f.is_unsafe);
    assert!(f.params.is_empty());
    assert!(f.returns.is_none());
    let body = f.body.as_ref().expect("a body");
    assert!(body.stmts.is_empty());
    assert!(body.final_expr.is_none());

    // The block is registered before the function that holds it.
    assert_eq!(parser.ast.meta.len(), 2);
    assert_eq!(body.node_id().index(), 0);
    assert_eq!(f.node_id().index(), 1);
    let block_meta = parser.ast.meta[0];
    assert_eq!((block_meta.first_tok, block_meta.last_tok), (4, 6));
    let fn_meta = parser.ast.meta[1];
    assert_eq!((fn_meta.first_tok, fn_meta.last_tok), (0, 6));
}

#[test]
fn receiver_lookahead_needs_two_tokens_past_the_paren() {
    // The receiver check looks two tokens past `(`, so a header that ends
    // right after `()` and one more token runs out of tokens there.
    let (tokens, mut spans) = store(vec![
        Token::StrongKw(StrongKeyword::Fn),
        Token::Name(NameId(0)),
        open(OpenCloseSymbol::Paren),
        close(OpenCloseSymbol::Paren),
        Token::Punctuation(Punctuation::Semicolon),
    ]);
    let names = names();
    let mut parser = Parser::new(&tokens, &names, &mut spans);
    let err = parser.parse().unwrap_err();
    assert!(matches!(err.err, ParseErrorCode::NotEnoughTokens));
    assert_eq!(err.tok_idx, 3);
    assert_eq!(parser.ast.items.len(), 0);
}

#[test]
fn function_header_ending_in_semicolon_is_not_supported() {
    let (tokens, mut spans) = store(vec![
        Token::StrongKw(StrongKeyword::Fn),
        Token::Name(NameId(0)),
        open(OpenCloseSymbol::Paren),
        close(OpenCloseSymbol::Paren),
        Token::Punctuation(Punctuation::Semicolon),
        Token::StrongKw(StrongKeyword::Mod),
    ]);
    let names = names();
    let mut parser = Parser::new(&tokens, &names, &mut spans);
    let err = parser.parse().unwrap_err();
    // What follows the parameters up to the body is read as contracts,
    // which the parser does not handle yet.
    assert!(matches!(err.err, ParseErrorCode::NotYetSupported { .. }));
    assert_eq!(err.tok_idx, 4);
}

#[test]
fn truncated_function_runs_out_of_tokens() {
    let (tokens, mut spans) = store(vec![Token::StrongKw(StrongKeyword::Fn)]);
    let names = names();
    let mut parser = Parser::new(&tokens, &names, &mut spans);
    let err = parser.parse().unwrap_err();
    assert!(matches!(err.err, ParseErrorCode::NotEnoughTokens));
    assert_eq!(err.tok_idx, 1);
}

#[test]
fn unexpected_token_in_function_header() {
    let (tokens, mut spans) = store(vec![
        Token::StrongKw(StrongKeyword::Fn),
        Token::Punctuation(Punctuation::Comma),
    ]);
    let names = names();
    let mut parser = Parser::new(&tokens, &names, &mut spans);
    let err = parser.parse().unwrap_err();
    assert_eq!(err.tok_idx, 1);
}

#[test]
fn parse_module_declaration() {
    let (tokens, mut spans) = store(vec![
        Token::StrongKw(StrongKeyword::Mod),
        Token::Name(NameId(1)),
        Token::Punctuation(Punctuation::Semicolon),
    ]);
    let names = names();
    let mut parser = Parser::new(&tokens, &names, &mut spans);
    assert!(parser.parse().is_ok());
    assert_eq!(parser.ast.items.len(), 1);
    let Item::Module(m) = &parser.ast.items[0] else { panic!("expected a module") };
    assert_eq!(m.name, NameId(1));
    assert!(m.block.is_none());
    assert!(m.attrs.is_empty());
    assert!(m.vis.is_none());
}

#[test]
fn parse_use_with_package() {
    let (tokens, mut spans) = store(vec![
        Token::StrongKw(StrongKeyword::Use),
        Token::Name(NameId(0)),
        Token::Punctuation(Punctuation::Colon),
        Token::Punctuation(Punctuation::Dot),
        Token::Name(NameId(1)),
        Token::Punctuation(Punctuation::Dot),
        Token::Name(NameId(2)),
        Token::Punctuation(Punctuation::Semicolon),
    ]);
    let names = names();
    let mut parser = Parser::new(&tokens, &names, &mut spans);
    assert!(parser.parse().is_ok());
    let Item::Use(u) = &parser.ast.items[0] else { panic!("expected a use") };
    assert_eq!(u.group, None);
    assert_eq!(u.package, Some(NameId(0)));
    assert_eq!(u.library, None);
    let UsePath::Alias { segments, alias, .. } = &*u.path else { panic!("expected a plain path") };
    assert_eq!(segments, &vec![NameId(1), NameId(2)]);
    assert_eq!(*alias, None);
}

#[test]
fn parse_const_item() {
    let (tokens, mut spans) = store(vec![
        Token::StrongKw(StrongKeyword::Const),
        Token::Name(NameId(0)),
        Token::Punctuation(Punctuation::Colon),
        Token::StrongKw(StrongKeyword::U8),
        Token::Punctuation(Punctuation::Equals),
        Token::Literal(LiteralId(0)),
        Token::Punctuation(Punctuation::Semicolon),
    ]);
    let names = names();
    let mut parser = Parser::new(&tokens, &names, &mut spans);
    assert!(parser.parse().is_ok());
    let Item::Const(c) = &parser.ast.items[0] else { panic!("expected a const") };
    assert_eq!(c.name, NameId(0));
    assert!(matches!(c.ty, Some(Type::Primitive(_))));
    let Expr::Literal(lit) = &c.val else { panic!("expected a literal") };
    assert!(lit.lit_op.is_none());
    // Every registered node lies within the tokens.
    for meta in &parser.ast.meta {
        assert!(meta.first_tok <= meta.last_tok);
        assert!(meta.last_tok as usize <= 7);
    }
}

#[test]
fn items_are_parsed_in_order() {
    let (tokens, mut spans) = store(vec![
        Token::StrongKw(StrongKeyword::Mod),
        Token::Name(NameId(0)),
        Token::Punctuation(Punctuation::Semicolon),
        Token::StrongKw(StrongKeyword::Mod),
        Token::Name(NameId(1)),
        Token::Punctuation(Punctuation::Semicolon),
    ]);
    let names = names();
    let mut parser = Parser::new(&tokens, &names, &mut spans);
    assert!(parser.parse().is_ok());
    assert_eq!(parser.ast.items.len(), 2);
    let Item::Module(first) = &parser.ast.items[0] else { panic!("expected a module") };
    let Item::Module(second) = &parser.ast.items[1] else { panic!("expected a module") };
    assert_eq!(first.name, NameId(0));
    assert_eq!(second.name, NameId(1));
    assert!(first.node_id().index() < second.node_id().index());
    for item in &parser.ast.items {
        assert!(item.node_id().index() < parser.ast.meta.len());
    }
}

#[test]
fn end_of_expression_tokens() {
    let cases = [
        (Token::Punctuation(Punctuation::Semicolon), true),
        (Token::Punctuation(Punctuation::Comma), true),
        (close(OpenCloseSymbol::Paren), true),
        (close(OpenCloseSymbol::Brace), true),
        (Token::Name(NameId(0)), false),
        (open(OpenCloseSymbol::Paren), false),
        (Token::Punctuation(Punctuation::Dot), false),
    ];
    let names = names();
    for (token, expected) in cases {
        let (tokens, mut spans) = store(vec![token]);
        let mut parser = Parser::new(&tokens, &names, &mut spans);
        assert_eq!(parser.is_end_of_expr(), expected);
    }
    let (tokens, mut spans) = store(Vec::new());
    let mut parser = Parser::new(&tokens, &names, &mut spans);
    assert!(parser.is_end_of_expr());
}

/// A well-formed store of `tokens`, each marked with whether whitespace
/// precedes it.
fn spaced_store(tokens: Vec<(Token, bool)>) -> (TokenStore, SpanRegistry) {
    let spaced: Vec<bool> = tokens.iter().map(|(_, s)| *s).collect();
    let (mut store, spans) = store(tokens.into_iter().map(|(t, _)| t).collect());
    for (meta, s) in store.metadata.iter_mut().zip(spaced) {
        meta.meta_elems = if s { vec![MetaElem::Whitespace] } else { Vec::new() };
    }
    (store, spans)
}

/// `const foo = <value tokens>;`, parsed.
fn parse_const_value(value: Vec<(Token, bool)>) -> Result<Ast, ParseErrorCode> {
    let mut tokens = vec![
        (Token::StrongKw(StrongKeyword::Const), false),
        (Token::Name(NameId(0)), true),
        (Token::Punctuation(Punctuation::Equals), true),
    ];
    tokens.extend(value);
    tokens.push((Token::Punctuation(Punctuation::Semicolon), false));
    let (tokens, mut spans) = spaced_store(tokens);
    let names = names();
    let mut parser = Parser::new(&tokens, &names, &mut spans);
    match parser.parse() {
        Ok(()) => Ok(parser.ast),
        Err(e) => Err(e.err),
    }
}

/// The value of the const item that `ast` holds.
fn const_value(ast: &Ast) -> &Expr {
    let Item::Const(c) = &ast.items[0] else { panic!("expected a const") };
    &c.val
}

fn plus() -> Token {
    Token::Punctuation(Punctuation::Custom(PunctuationId(0)))
}

fn minus() -> Token {
    Token::Punctuation(Punctuation::Custom(PunctuationId(1)))
}

#[test]
fn operator_between_operands_is_infix() {
    let value = parse_const_value(vec![
        (Token::Name(NameId(1)), true),
        (plus(), true),
        (Token::Name(NameId(2)), true),
    ]);
    let ast = value.ok().expect("a parsed const");
    let Expr::Infix(infix) = const_value(&ast) else { panic!("expected an infix expression") };
    assert_eq!(infix.op, Punctuation::Custom(PunctuationId(0)));
    assert!(matches!(infix.left, Expr::Path(_)));
    assert!(matches!(infix.right, Expr::Path(_)));
}

#[test]
fn operator_before_end_is_postfix() {
    let value = parse_const_value(vec![(Token::Name(NameId(1)), true), (plus(), false)]);
    let ast = value.ok().expect("a parsed const");
    let Expr::Postfix(postfix) = const_value(&ast) else { panic!("expected a postfix expression") };
    assert_eq!(postfix.op, Punctuation::Custom(PunctuationId(0)));
    assert!(matches!(postfix.expr, Expr::Path(_)));
}

#[test]
fn glued_operators_with_space_on_both_sides_are_ambiguous() {
    let value = parse_const_value(vec![
        (Token::Name(NameId(1)), true),
        (plus(), true),
        (minus(), false),
        (Token::Name(NameId(2)), true),
    ]);
    assert!(matches!(value, Err(ParseErrorCode::AmbiguousOperators)));
}

#[test]
fn glued_operators_spaced_before_are_infix_then_prefix() {
    let value = parse_const_value(vec![
        (Token::Name(NameId(1)), true),
        (plus(), true),
        (minus(), false),
        (Token::Name(NameId(2)), false),
    ]);
    let ast = value.ok().expect("a parsed const");
    let Expr::Infix(infix) = const_value(&ast) else { panic!("expected an infix expression") };
    assert_eq!(infix.op, Punctuation::Custom(PunctuationId(0)));
    let Expr::Prefix(prefix) = &infix.right else { panic!("expected a prefix operand") };
    assert_eq!(prefix.op, Punctuation::Custom(PunctuationId(1)));
}

#[test]
fn glued_operators_spaced_after_are_postfix_then_infix() {
    let value = parse_const_value(vec![
        (Token::Name(NameId(1)), true),
        (plus(), false),
        (minus(), false),
        (Token::Name(NameId(2)), true),
    ]);
    let ast = value.ok().expect("a parsed const");
    let Expr::Infix(infix) = const_value(&ast) else { panic!("expected an infix expression") };
    assert_eq!(infix.op, Punctuation::Custom(PunctuationId(1)));
    let Expr::Postfix(postfix) = &infix.left else { panic!("expected a postfix left operand") };
    assert_eq!(postfix.op, Punctuation::Custom(PunctuationId(0)));
}

#[test]
fn literal_with_type_suffix() {
    let value = parse_const_value(vec![
        (Token::Literal(LiteralId(0)), true),
        (Token::Punctuation(Punctuation::Colon), false),
        (Token::StrongKw(StrongKeyword::U16), false),
    ]);
    let ast = value.ok().expect("a parsed const");
    let Expr::Literal(lit) = const_value(&ast) else { panic!("expected a literal") };
    assert!(matches!(lit.literal, LiteralValue::Lit(LiteralId(0))));
    let Some(LiteralOp::Primitive(prim)) = &lit.lit_op else { panic!("expected a primitive suffix") };
    assert_eq!(prim.ty, PrimitiveType::U16);
}

#[test]
fn literal_suffix_cannot_be_pointer_sized() {
    let value = parse_const_value(vec![
        (Token::Literal(LiteralId(0)), true),
        (Token::Punctuation(Punctuation::Colon), false),
        (Token::StrongKw(StrongKeyword::Usize), false),
    ]);
    assert!(matches!(value, Err(ParseErrorCode::UnexpectedFor { .. })));
}

#[test]
fn boolean_literals() {
    let value = parse_const_value(vec![(Token::StrongKw(StrongKeyword::True), true)]);
    let ast = value.ok().expect("a parsed const");
    let Expr::Literal(lit) = const_value(&ast) else { panic!("expected a literal") };
    assert!(matches!(lit.literal, LiteralValue::Bool(true)));
    let value = parse_const_value(vec![(Token::StrongKw(StrongKeyword::False), true)]);
    let ast = value.ok().expect("a parsed const");
    let Expr::Literal(lit) = const_value(&ast) else { panic!("expected a literal") };
    assert!(matches!(lit.literal, LiteralValue::Bool(false)));
}

/// Parses `tokens`, which must fail, and returns the error.
fn parse_error(tokens: Vec<Token>) -> lib::parser::ParserErr {
    let (tokens, mut spans) = store(tokens);
    let names = names();
    let mut parser = Parser::new(&tokens, &names, &mut spans);
    parser.parse().unwrap_err()
}

#[test]
fn use_without_package_name() {
    let err = parse_error(vec![Token::StrongKw(StrongKeyword::Use), Token::Punctuation(Punctuation::Semicolon)]);
    assert!(matches!(err.err, ParseErrorCode::ExpectPackageName { found: Token::Punctuation(Punctuation::Semicolon) }));
    assert_eq!(err.tok_idx, 1);
}

#[test]
fn use_without_module_name() {
    let err = parse_error(vec![
        Token::StrongKw(StrongKeyword::Use),
        Token::Name(NameId(0)),
        Token::Punctuation(Punctuation::Colon),
        Token::Punctuation(Punctuation::Semicolon),
    ]);
    assert!(matches!(err.err, ParseErrorCode::ExpectModuleName { .. }));
    assert_eq!(err.tok_idx, 3);
}

#[test]
fn extern_without_item() {
    let err = parse_error(vec![
        Token::StrongKw(StrongKeyword::Extern),
        Token::Literal(LiteralId(0)),
        Token::Name(NameId(0)),
        Token::Punctuation(Punctuation::Semicolon),
    ]);
    assert!(matches!(err.err, ParseErrorCode::InvalidExternUse));
    assert_eq!(err.tok_idx, 0);
}

#[test]
fn free_function_with_receiver() {
    let err = parse_error(vec![
        Token::StrongKw(StrongKeyword::Fn),
        Token::Name(NameId(0)),
        open(OpenCloseSymbol::Paren),
        Token::StrongKw(StrongKeyword::SelfName),
        close(OpenCloseSymbol::Paren),
        open(OpenCloseSymbol::Brace),
        close(OpenCloseSymbol::Brace),
    ]);
    assert!(matches!(err.err, ParseErrorCode::ReceiverInFreeFunction));
    assert_eq!(err.tok_idx, 5);
}

#[test]
fn module_body_must_be_a_block() {
    let err = parse_error(vec![
        Token::StrongKw(StrongKeyword::Mod),
        Token::Name(NameId(0)),
        Token::Name(NameId(1)),
    ]);
    assert!(matches!(
        err.err,
        ParseErrorCode::FoundButExpected {
            found: Token::Name(NameId(1)),
            expected: Token::OpenSymbol(OpenCloseSymbol::Brace),
        }
    ));
    assert_eq!(err.tok_idx, 2);
}

#[test]
fn visibility_path_cannot_be_inferred() {
    let err = parse_error(vec![
        Token::StrongKw(StrongKeyword::Pub),
        open(OpenCloseSymbol::Paren),
        Token::Punctuation(Punctuation::Dot),
        Token::Name(NameId(0)),
        close(OpenCloseSymbol::Paren),
        Token::StrongKw(StrongKeyword::Mod),
        Token::Name(NameId(1)),
        Token::Punctuation(Punctuation::Semicolon),
    ]);
    assert!(matches!(err.err, ParseErrorCode::InvalidPathStart { .. }));
    assert_eq!(err.tok_idx, 2);
}

#[test]
fn package_visibility() {
    let (tokens, mut spans) = store(vec![
        Token::StrongKw(StrongKeyword::Pub),
        open(OpenCloseSymbol::Paren),
        Token::WeakKw(lib::lexer::WeakKeyword::Package),
        close(OpenCloseSymbol::Paren),
        Token::StrongKw(StrongKeyword::Mod),
        Token::Name(NameId(1)),
        Token::Punctuation(Punctuation::Semicolon),
    ]);
    let names = names();
    let mut parser = Parser::new(&tokens, &names, &mut spans);
    assert!(parser.parse().is_ok());
    let Item::Module(m) = &parser.ast.items[0] else { panic!("expected a module") };
    let vis = m.vis.as_ref().expect("a visibility");
    assert!(matches!(**vis, lib::ast::Visibility::Package { .. }));
}

#[test]
fn type_dispatch_on_first_token() {
    for (kw, expect_primitive) in [(StrongKeyword::Bool, true), (StrongKeyword::Str8, false)] {
        let (tokens, mut spans) = store(vec![
            Token::StrongKw(StrongKeyword::Const),
            Token::Name(NameId(0)),
            Token::Punctuation(Punctuation::Colon),
            Token::StrongKw(kw),
            Token::Punctuation(Punctuation::Equals),
            Token::Literal(LiteralId(0)),
            Token::Punctuation(Punctuation::Semicolon),
        ]);
        let names = names();
        let mut parser = Parser::new(&tokens, &names, &mut spans);
        assert!(parser.parse().is_ok());
        let Item::Const(c) = &parser.ast.items[0] else { panic!("expected a const") };
        match (&c.ty, expect_primitive) {
            (Some(Type::Primitive(p)), true) => assert_eq!(p.ty, PrimitiveType::Bool),
            (Some(Type::StringSlice(s)), false) => assert_eq!(s.ty, lib::type_system::StringSliceType::Str8),
            _ => panic!("unexpected type"),
        }
    }
}

#[test]
fn attribute_path_names() {
    let (tokens, mut spans) = store(vec![
        Token::Punctuation(Punctuation::At),
        Token::Name(NameId(0)),
        Token::Punctuation(Punctuation::Dot),
        Token::Name(NameId(1)),
        Token::Punctuation(Punctuation::Dot),
        Token::Name(NameId(2)),
        Token::StrongKw(StrongKeyword::Mod),
        Token::Name(NameId(3)),
        Token::Punctuation(Punctuation::Semicolon),
    ]);
    let names = names();
    let mut parser = Parser::new(&tokens, &names, &mut spans);
    assert!(parser.parse().is_ok());
    let Item::Module(m) = &parser.ast.items[0] else { panic!("expected a module") };
    assert_eq!(m.name, NameId(3));
    assert_eq!(m.attrs.len(), 1);
    let attr = &m.attrs[0];
    assert!(!attr.is_mod);
    assert!(attr.metas.is_empty());
    assert!(attr.path.start.is_none());
    let path_names: Vec<NameId> = attr.path.names.iter().map(|(n, _)| *n).collect();
    assert_eq!(path_names, vec![NameId(0), NameId(1), NameId(2)]);
}

#[test]
fn visibility_path_leaves_the_closing_paren() {
    let err = parse_error(vec![
        Token::StrongKw(StrongKeyword::Pub),
        open(OpenCloseSymbol::Paren),
        Token::Name(NameId(0)),
        Token::Punctuation(Punctuation::Dot),
        Token::Name(NameId(1)),
        close(OpenCloseSymbol::Paren),
        Token::StrongKw(StrongKeyword::Mod),
        Token::Name(NameId(3)),
        Token::Punctuation(Punctuation::Semicolon),
    ]);
    assert_eq!(err.tok_idx, 5);
}

#[test]
fn continue_with_label() {
    let ast = parse_const_value(vec![
        (Token::StrongKw(StrongKeyword::Continue), true),
        (Token::Punctuation(Punctuation::Colon), true),
        (Token::Name(NameId(1)), false),
        (Token::Punctuation(Punctuation::Colon), false),
    ]);
    let Ok(ast) = ast else { panic!("expected a parse") };
    let Expr::Continue(c) = const_value(&ast) else { panic!("expected a continue") };
    assert_eq!(c.label, Some(NameId(1)));
}

#[test]
fn break_without_label_or_value() {
    let Ok(ast) = parse_const_value(vec![(Token::StrongKw(StrongKeyword::Break), true)]) else { panic!("expected a parse") };
    let Expr::Break(b) = const_value(&ast) else { panic!("expected a break") };
    assert_eq!(b.label, None);
    assert!(b.value.is_none());
}

#[test]
fn operator_use_is_read_as_an_operator_set() {
    // The item dispatch looks at the `op` token itself for the `use` that
    // follows it, so an operator use is read as an operator set.
    let err = parse_error(vec![
        Token::WeakKw(lib::lexer::WeakKeyword::Op),
        Token::StrongKw(StrongKeyword::Use),
        Token::Name(NameId(1)),
        Token::Punctuation(Punctuation::Colon),
        Token::Punctuation(Punctuation::Dot),
    ]);
    assert_eq!(err.tok_idx, 1);
    assert!(matches!(
        err.err,
        ParseErrorCode::FoundButExpected {
            found: Token::StrongKw(StrongKeyword::Use),
            expected: Token::StrongKw(StrongKeyword::Trait),
        }
    ));
}

#[test]
fn precedence_use_is_read_as_a_precedence() {
    let err = parse_error(vec![
        Token::WeakKw(lib::lexer::WeakKeyword::Precedence),
        Token::StrongKw(StrongKeyword::Use),
        Token::Name(NameId(1)),
        Token::Punctuation(Punctuation::Colon),
        Token::Punctuation(Punctuation::Dot),
    ]);
    assert_eq!(err.tok_idx, 1);
}

/// `precedence foo { associativity: <name 5> }`, with `assoc` as the text of name 5.
fn parse_precedence_with(assoc: &str) -> Result<Ast, ParseErrorCode> {
    let (tokens, mut spans) = store(vec![
        Token::WeakKw(lib::lexer::WeakKeyword::Precedence),
        Token::Name(NameId(0)),
        open(OpenCloseSymbol::Brace),
        Token::WeakKw(lib::lexer::WeakKeyword::Associativity),
        Token::Punctuation(Punctuation::Colon),
        Token::Name(NameId(5)),
        close(OpenCloseSymbol::Brace),
    ]);
    let mut names = names();
    names.names[5] = assoc.to_string();
    let mut parser = Parser::new(&tokens, &names, &mut spans);
    match parser.parse() {
        Ok(()) => Ok(parser.ast),
        Err(e) => Err(e.err),
    }
}

#[test]
fn precedence_with_left_associativity() {
    let Ok(ast) = parse_precedence_with("left") else { panic!("expected a parse") };
    let Item::Precedence(p) = &ast.items[0] else { panic!("expected a precedence") };
    assert_eq!(p.name, NameId(0));
    assert!(p.higher_than.is_none());
    assert!(p.lower_than.is_none());
    let assoc = p.associativity.as_ref().expect("an associativity");
    assert_eq!(assoc.kind, lib::ast::PrecedenceAssociativityKind::Left);
}

#[test]
fn precedence_with_unknown_associativity() {
    let Err(err) = parse_precedence_with("sideways") else { panic!("expected an error") };
    let ParseErrorCode::InvalidPrecedenceAssoc { name } = err else { panic!("expected an invalid associativity") };
    assert_eq!(name, "sideways");
}

#[test]
fn operator_set_with_bases_and_an_infix_operator() {
    let (tokens, mut spans) = store(vec![
        Token::WeakKw(lib::lexer::WeakKeyword::Op),
        Token::StrongKw(StrongKeyword::Trait),
        Token::Name(NameId(0)),
        Token::Punctuation(Punctuation::Colon),
        Token::Name(NameId(1)),
        Token::Punctuation(Punctuation::Ampersand),
        Token::Name(NameId(2)),
        open(OpenCloseSymbol::Brace),
        Token::WeakKw(lib::lexer::WeakKeyword::Infix),
        Token::WeakKw(lib::lexer::WeakKeyword::Op),
        plus(),
        Token::Punctuation(Punctuation::Colon),
        Token::Name(NameId(5)),
        close(OpenCloseSymbol::Brace),
    ]);
    let names = names();
    let mut parser = Parser::new(&tokens, &names, &mut spans);
    assert!(parser.parse().is_ok());
    let Item::OpTrait(o) = &parser.ast.items[0] else { panic!("expected an operator set") };
    let lib::ast::OpTrait::Extended { name, bases, elems, .. } = &**o else { panic!("expected an extended set") };
    assert_eq!(*name, NameId(0));
    let base_names: Vec<NameId> = bases.iter().map(|(n, _)| *n).collect();
    assert_eq!(base_names, vec![NameId(1), NameId(2)]);
    assert_eq!(elems.len(), 1);
    let lib::ast::OpElem::Def { op_type, op, name, ret, def, .. } = &elems[0] else { panic!("expected a definition") };
    assert_eq!(*op_type, lib::common::OpType::Infix);
    assert_eq!(*op, Punctuation::Custom(PunctuationId(0)));
    assert_eq!(*name, NameId(5));
    assert!(ret.is_none());
    assert!(def.is_none());
}

#[test]
fn module_declarations_parse() {
    let (tokens, mut spans) = store(vec![
        Token::StrongKw(StrongKeyword::Mod),
        Token::Name(NameId(0)),
        Token::Punctuation(Punctuation::Semicolon),
        Token::StrongKw(StrongKeyword::Mod),
        Token::Name(NameId(1)),
        Token::Punctuation(Punctuation::Semicolon),
    ]);
    let names = names();
    let mut parser = Parser::new(&tokens, &names, &mut spans);
    assert!(parser.parse().is_ok());
    assert_eq!(parser.ast.items.len(), 2);
    let Item::Module(a) = &parser.ast.items[0] else { panic!("expected a module") };
    let Item::Module(b) = &parser.ast.items[1] else { panic!("expected a module") };
    assert_eq!((a.name, b.name), (NameId(0), NameId(1)));
    assert!(a.block.is_none() && b.block.is_none());
}
