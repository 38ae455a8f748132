use lib::ast::NodeId;
use lib::common::{LiteralId, NameId, NameTable, Span, SpanId, SpanRegistry};
use lib::lexer::{
    Punctuation, PuncutationTable, PunctuationId, StrongKeyword, TokenStore, WeakKeyword,
    PRIMITIVE_KEYWORD_COUNT, WEAK_KEYWORD_COUNT,
};

#[test]
fn node_id_round_trips_its_index() {
    assert_eq!(NodeId::from_index(17).index(), 17);
    assert_eq!(NodeId::invalid().index(), usize::MAX);
    assert_eq!(NodeId::default().index(), 0);
}

#[test]
fn invalid_ids() {
    assert_eq!(SpanId::invalid(), SpanId(u32::MAX));
    assert_eq!(NameId::invalid(), NameId(u32::MAX));
    assert_eq!(LiteralId::invalid(), LiteralId(u32::MAX));
    assert_eq!(PunctuationId::invalid(), PunctuationId(u32::MAX));
}

#[test]
fn span_registry_combines_registered_spans() {
    let mut spans = SpanRegistry::new();
    let a = spans.add_span(Span { file_id: 3, char_start: 10, char_end: 12 });
    let b = spans.add_span(Span { file_id: 3, char_start: 20, char_end: 25 });
    assert_eq!((a, b), (SpanId(0), SpanId(1)));
    let c = spans.combine_spans(a, b);
    assert_eq!(c, SpanId(2));
    assert_eq!(spans.spans[2], Span { file_id: 3, char_start: 10, char_end: 25 });
    // An unknown span leaves the registry unchanged.
    let d = spans.combine_spans(a, SpanId(9));
    assert_eq!(d, SpanId::invalid());
    assert_eq!(spans.spans.len(), 3);
}

#[test]
fn name_table_lookup() {
    let names = NameTable { names: vec!["alpha".to_string(), "beta".to_string()] };
    assert_eq!(names.get(NameId(1)), "beta");
}

#[test]
fn punctuation_text() {
    let puncts = PuncutationTable { puncts: vec!["<~>".to_string()] };
    assert_eq!(Punctuation::DoubleArrow.as_str(&puncts), "=>");
    assert_eq!(Punctuation::NotContains.as_str(&puncts), "!in");
    assert_eq!(Punctuation::Custom(PunctuationId(0)).as_str(&puncts), "<~>");
    assert_eq!(Punctuation::Custom(PunctuationId(4)).as_str(&puncts), "");
}

#[test]
fn keyword_tables() {
    assert_eq!(WeakKeyword::Assign.index(), 0);
    assert_eq!(WeakKeyword::Tls.index(), WEAK_KEYWORD_COUNT - 1);
    assert_eq!(StrongKeyword::U8.primitive_index(), Some(0));
    assert_eq!(StrongKeyword::CStr.primitive_index(), Some(PRIMITIVE_KEYWORD_COUNT - 1));
    assert_eq!(StrongKeyword::Fn.primitive_index(), None);
    assert!(StrongKeyword::Char16.is_primitive_type());
    assert!(!StrongKeyword::While.is_primitive_type());

    let store = TokenStore {
        tokens: Vec::new(),
        metadata: Vec::new(),
        weak_kw_names: (0..WEAK_KEYWORD_COUNT).map(|i| NameId(50 + i as u32)).collect(),
        prim_ty_names: (0..PRIMITIVE_KEYWORD_COUNT).map(|i| NameId(90 + i as u32)).collect(),
    };
    assert_eq!(store.get_name_from_weak_keyword(WeakKeyword::Flag), NameId(53));
    assert_eq!(store.get_name_from_prim_ty(StrongKeyword::I32), Some(NameId(98)));
    assert_eq!(store.get_name_from_prim_ty(StrongKeyword::Mut), None);
}

#[test]
fn node_id_and_associativity_text() {
    assert_eq!(NodeId::from_index(42).to_string(), "42");
    assert_eq!(NodeId::from_index(0).to_string(), "0");
    let assoc = |kind| lib::ast::PrecedenceAssociativity { span: SpanId(0), kind };
    assert_eq!(assoc(lib::ast::PrecedenceAssociativityKind::NonAssoc).to_string(), "none");
    assert_eq!(assoc(lib::ast::PrecedenceAssociativityKind::Left).to_string(), "left");
    assert_eq!(assoc(lib::ast::PrecedenceAssociativityKind::Right).to_string(), "right");
}
