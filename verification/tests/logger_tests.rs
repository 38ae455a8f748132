use lib::ast::{Ast, AstLogger, AstNode, Item, NodeId};
use lib::common::{push_decimal, IndentLogger, LiteralId, LiteralTable, NameId, NameTable, Span, SpanRegistry};
use lib::lexer::{
    MetaElem, OpenCloseSymbol, Punctuation, PuncutationTable, PunctuationId, StrongKeyword, Token,
    TokenMetadata, TokenStore, PRIMITIVE_KEYWORD_COUNT, WEAK_KEYWORD_COUNT,
};
use lib::parser::Parser;

fn store(tokens: Vec<Token>) -> (TokenStore, SpanRegistry) {
    let mut spans = SpanRegistry::new();
    let mut metadata = Vec::new();
    for i in 0..tokens.len() {
        let span_id = spans.add_span(Span { file_id: 0, char_start: i as u64, char_end: i as u64 + 1 });
        metadata.push(TokenMetadata { span_id, meta_elems: vec![MetaElem::Whitespace] });
    }
    let weak_kw_names = (0..WEAK_KEYWORD_COUNT).map(|i| NameId(100 + i as u32)).collect();
    let prim_ty_names = (0..PRIMITIVE_KEYWORD_COUNT).map(|i| NameId(200 + i as u32)).collect();
    (TokenStore { tokens, metadata, weak_kw_names, prim_ty_names }, spans)
}

fn names() -> NameTable {
    let mut names: Vec<String> = (0..300).map(|i| format!("n{i}")).collect();
    names[0] = "foo".to_string();
    names[1] = "bar".to_string();
    NameTable { names }
}

#[test]
fn decimal_digits() {
    let mut s = String::new();
    push_decimal(&mut s, 0);
    assert_eq!(s, "0");
    let mut s = String::from("n=");
    push_decimal(&mut s, 1234);
    assert_eq!(s, "n=1234");
    let mut s = String::new();
    push_decimal(&mut s, u64::MAX);
    assert_eq!(s, u64::MAX.to_string());
}

#[test]
fn indent_logger_draws_a_tree() {
    let mut l = IndentLogger::new("    ", "|   ", "+---");
    l.logln("root");
    l.push_indent();
    l.prefixed_logln("a");
    l.push_indent();
    l.prefixed_logln("b");
    l.pop_indent();
    l.set_last_at_indent();
    l.prefixed_logln("c");
    l.push_indent();
    l.prefixed_log("d");
    l.log("!");
    l.logln("");
    l.pop_indent();
    l.pop_indent();
    l.prefixed_logln("e");
    assert_eq!(l.output(), "root\n+---a\n|   +---b\n+---c\n    +---d!\ne\n");
}

#[test]
fn indent_logger_last_marker_is_conditional() {
    let mut l = IndentLogger::new("    ", "|   ", "+---");
    l.push_indent();
    l.set_last_at_indent_if(false);
    l.push_indent();
    l.prefixed_logln("x");
    l.pop_indent();
    l.set_last_at_indent_if(true);
    l.push_indent();
    l.prefixed_logln("y");
    assert_eq!(l.output(), "|   +---x\n    +---y\n");
}

#[test]
fn indent_logger_pop_at_top_level_keeps_level() {
    let mut l = IndentLogger::new("    ", "|   ", "+---");
    l.pop_indent();
    l.set_last_at_indent();
    l.prefixed_logln("top");
    assert_eq!(l.output(), "top\n");
}

#[test]
fn ast_logger_resolves_through_tables() {
    let ast = Ast::new();
    let names = names();
    let literals = LiteralTable { literals: vec!["42".to_string()] };
    let puncts = PuncutationTable { puncts: vec!["<=>".to_string()] };
    let mut logger = AstLogger::new(&ast, &names, &literals, &puncts);
    logger.log_name(NameId(1));
    logger.log(" ");
    logger.log_name(NameId(5000));
    logger.log(" ");
    logger.log_literal(LiteralId(0));
    logger.log(" ");
    logger.log_literal(LiteralId(7));
    logger.log(" ");
    logger.log_punct(Punctuation::Custom(PunctuationId(0)));
    logger.log(" ");
    logger.log_punct(Punctuation::DotDotEquals);
    logger.log(" ");
    logger.log_bool(true);
    logger.log(" ");
    logger.log_decimal(907);
    assert_eq!(logger.output(), "bar ? 42 ? <=> ..= true 907");
    assert_eq!(logger.resolve_name(NameId(0)), "foo");
    assert_eq!(logger.resolve_literal(LiteralId(0)), "42");
    assert_eq!(logger.resolve_punctuation(Punctuation::Semicolon), ";");
}

#[test]
fn ast_logger_node_header_without_metadata() {
    let ast = Ast::new();
    let names = names();
    let literals = LiteralTable { literals: Vec::new() };
    let puncts = PuncutationTable { puncts: Vec::new() };
    let mut logger = AstLogger::new(&ast, &names, &literals, &puncts);
    let prev = logger.enter_node(NodeId::from_index(3));
    assert_eq!(prev.index(), 0);
    assert_eq!(logger.current_tokens(), (0, 0));
    logger.begin_ast_node("Thing");
    logger.name_line("Name: ", NameId(0));
    logger.set_last_at_indent();
    logger.bool_line("Flag: ", false);
    logger.pop_indent();
    assert_eq!(logger.output(), "[ Thing ] (node id: 3, tokens: [0..0])\n+---Name: foo\n+---Flag: false\n");
}

#[test]
fn log_function_item() {
    let (tokens, mut spans) = store(vec![
        Token::StrongKw(StrongKeyword::Fn),
        Token::Name(NameId(0)),
        Token::OpenSymbol(OpenCloseSymbol::Paren),
        Token::CloseSymbol(OpenCloseSymbol::Paren),
        Token::OpenSymbol(OpenCloseSymbol::Brace),
        Token::CloseSymbol(OpenCloseSymbol::Brace),
    ]);
    let names = names();
    let mut parser = Parser::new(&tokens, &names, &mut spans);
    assert!(parser.parse().is_ok());
    let literals = LiteralTable { literals: Vec::new() };
    let puncts = PuncutationTable { puncts: Vec::new() };
    let text = parser.ast.log(&names, &literals, &puncts);
    assert_eq!(
        text,
        "AST for File: \n\
         [ Function ] (node id: 1, tokens: [0..6])\n\
         +---Is Const: false\n\
         +---Is Unsafe: false\n\
         +---Name: foo\n\
         +---[ Block ] (node id: 0, tokens: [4..6])\n"
    );
}

#[test]
fn log_const_item_nests_children() {
    let (tokens, mut spans) = store(vec![
        Token::StrongKw(StrongKeyword::Const),
        Token::Name(NameId(1)),
        Token::Punctuation(Punctuation::Colon),
        Token::StrongKw(StrongKeyword::U8),
        Token::Punctuation(Punctuation::Equals),
        Token::Literal(LiteralId(0)),
        Token::Punctuation(Punctuation::Semicolon),
    ]);
    let names = names();
    let mut parser = Parser::new(&tokens, &names, &mut spans);
    assert!(parser.parse().is_ok());
    let Item::Const(c) = &parser.ast.items[0] else { panic!("expected a const") };
    let Some(lib::ast::Type::Primitive(prim)) = &c.ty else { panic!("expected a primitive type") };
    let lib::ast::Expr::Literal(lit) = &c.val else { panic!("expected a literal") };
    let header = |id: NodeId| {
        let meta = parser.ast.meta[id.index()];
        format!("(node id: {}, tokens: [{}..{}])", id.index(), meta.first_tok, meta.last_tok)
    };
    let literals = LiteralTable { literals: vec!["5".to_string()] };
    let puncts = PuncutationTable { puncts: Vec::new() };
    let text = parser.ast.log(&names, &literals, &puncts);
    let expected = format!(
        "AST for File: \n\
         [ Const Item ] {}\n\
         +---Name: bar\n\
         +---Type\n\
         |   +---[ Primitive Type ] {}\n\
         |       +---Primitive: u8\n\
         +---Value\n\
         \x20   +---[ Literal Expr ] {}\n\
         \x20       +---Literal: 5\n",
        header(c.node_id()),
        header(prim.node_id()),
        header(lit.node_id()),
    );
    assert_eq!(text, expected);
}

/// The header of node `id`: its id and token range.
fn header(ast: &Ast, id: NodeId) -> String {
    let meta = ast.meta[id.index()];
    format!("(node id: {}, tokens: [{}..{}])", id.index(), meta.first_tok, meta.last_tok)
}

#[test]
fn log_struct_with_a_field() {
    let (tokens, mut spans) = store(vec![
        Token::StrongKw(StrongKeyword::Struct),
        Token::Name(NameId(0)),
        Token::OpenSymbol(OpenCloseSymbol::Brace),
        Token::Name(NameId(1)),
        Token::Punctuation(Punctuation::Colon),
        Token::StrongKw(StrongKeyword::U8),
        Token::CloseSymbol(OpenCloseSymbol::Brace),
    ]);
    let names = names();
    let mut parser = Parser::new(&tokens, &names, &mut spans);
    assert!(parser.parse().is_ok());
    let Item::Struct(st) = &parser.ast.items[0] else { panic!("expected a struct") };
    let lib::ast::Struct::Regular { fields, .. } = &**st else { panic!("expected a struct with named fields") };
    let lib::ast::RegStructField::Field { ty: lib::ast::Type::Primitive(prim), .. } = &fields[0] else {
        panic!("expected a named field of a primitive type")
    };
    let literals = LiteralTable { literals: Vec::new() };
    let puncts = PuncutationTable { puncts: Vec::new() };
    let text = parser.ast.log(&names, &literals, &puncts);
    let expected = format!(
        "AST for File: \n\
         [ Struct ] {}\n\
         +---Name: foo\n\
         +---Is Mut: false\n\
         +---Is Record: false\n\
         +---Fields\n\
         \x20   +---Named Field\n\
         \x20       +---Is Mut: false\n\
         \x20       +---Names\n\
         \x20       |   +---Name: bar\n\
         \x20       +---Type\n\
         \x20           +---[ Primitive Type ] {}\n\
         \x20               +---Primitive: u8\n",
        header(&parser.ast, st.node_id()),
        header(&parser.ast, prim.node_id()),
    );
    assert_eq!(text, expected);
}

#[test]
fn log_use_with_alias() {
    let (tokens, mut spans) = store(vec![
        Token::StrongKw(StrongKeyword::Use),
        Token::Name(NameId(0)),
        Token::Punctuation(Punctuation::Colon),
        Token::Punctuation(Punctuation::Dot),
        Token::Name(NameId(1)),
        Token::Punctuation(Punctuation::Dot),
        Token::Name(NameId(2)),
        Token::StrongKw(StrongKeyword::As),
        Token::Name(NameId(3)),
        Token::Punctuation(Punctuation::Semicolon),
    ]);
    let names = names();
    let mut parser = Parser::new(&tokens, &names, &mut spans);
    assert!(parser.parse().is_ok());
    let Item::Use(u) = &parser.ast.items[0] else { panic!("expected a use") };
    let literals = LiteralTable { literals: Vec::new() };
    let puncts = PuncutationTable { puncts: Vec::new() };
    let text = parser.ast.log(&names, &literals, &puncts);
    let expected = format!(
        "AST for File: \n\
         [ Use Declaration ] {}\n\
         +---Package: foo\n\
         +---[ Use Path ] {}\n\
         \x20   +---Path: bar.n2, alias: n3\n",
        header(&parser.ast, u.node_id()),
        header(&parser.ast, u.path.node_id()),
    );
    assert_eq!(text, expected);
}

#[test]
fn log_public_module() {
    let (tokens, mut spans) = store(vec![
        Token::StrongKw(StrongKeyword::Pub),
        Token::StrongKw(StrongKeyword::Mod),
        Token::Name(NameId(1)),
        Token::Punctuation(Punctuation::Semicolon),
    ]);
    let names = names();
    let mut parser = Parser::new(&tokens, &names, &mut spans);
    assert!(parser.parse().is_ok());
    let literals = LiteralTable { literals: Vec::new() };
    let puncts = PuncutationTable { puncts: Vec::new() };
    let text = parser.ast.log(&names, &literals, &puncts);
    assert_eq!(text, "AST for File: \nModule\n+---Visibility: pub\n+---Module: bar\n");
}

#[test]
fn ast_logger_closure_helpers() {
    let ast = Ast::new();
    let names = names();
    let literals = LiteralTable { literals: Vec::new() };
    let puncts = PuncutationTable { puncts: Vec::new() };
    let mut logger = AstLogger::new(&ast, &names, &literals, &puncts);
    logger.log_ast_node("Root", |l| {
        l.prefixed_log_fmt("a: 1\n");
        l.log_indented_slice("Items", &[1u8, 2u8], |l, x| {
            let line = format!("item {x}\n");
            l.prefixed_log_fmt(&line);
        });
        l.log_indented_slice("Nothing", &[] as &[u8], |l, _| l.log("never"));
        l.set_last_at_indent();
        l.log_indented_opt("Maybe", &Some(5u8), |l, x| l.prefixed_logln(&format!("got {x}")));
    });
    logger.log_opt(&None::<u8>, |l, _| l.log("never"));
    logger.log_indented("Group", |l| l.prefixed_logln("inside"));
    logger.log_fmt("end\n");
    assert_eq!(
        logger.output(),
        "[ Root ] (node id: 0, tokens: [0..0])\n\
         +---a: 1\n\
         +---Items\n\
         |   +---item 1\n\
         |   +---item 2\n\
         +---Maybe\n\
         \x20   +---got 5\n\
         Group\n\
         +---inside\n\
         end\n"
    );
}

#[test]
fn log_unit_struct_and_enum() {
    let (tokens, mut spans) = store(vec![
        Token::StrongKw(StrongKeyword::Struct),
        Token::Name(NameId(0)),
        Token::Punctuation(Punctuation::Semicolon),
        Token::StrongKw(StrongKeyword::Enum),
        Token::Name(NameId(0)),
        Token::OpenSymbol(OpenCloseSymbol::Brace),
        Token::Name(NameId(1)),
        Token::CloseSymbol(OpenCloseSymbol::Brace),
    ]);
    let names = names();
    let mut parser = Parser::new(&tokens, &names, &mut spans);
    assert!(parser.parse().is_ok());
    assert_eq!(parser.ast.items.len(), 2);
    let literals = LiteralTable { literals: Vec::new() };
    let puncts = PuncutationTable { puncts: Vec::new() };
    let text = parser.ast.log(&names, &literals, &puncts);
    let expected = format!(
        "AST for File: \n\
         [ Unit Struct ] {}\n\
         +---Name: foo\n\
         [ Adt Enum ] {}\n\
         +---Is Mut: false\n\
         +---Is Record: false\n\
         +---Name: foo\n\
         +---Variants\n\
         \x20   +---Fieldless Variant\n\
         \x20       +---Name: bar\n",
        header(&parser.ast, parser.ast.items[0].node_id()),
        header(&parser.ast, parser.ast.items[1].node_id()),
    );
    assert_eq!(text, expected);
}
