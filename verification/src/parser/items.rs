//! Items: modules, uses, functions, types, traits, impls and operator sets.

use vstd::prelude::*;
use crate::ast::{
    AssocItem, AstNode, AstNodeRef, Attribute, Bitfield, BitfieldField, Const, Contract, DistinctType, Enum,
    EnumVariant, Expr, ExternBlock, ExternItem, FlagEnumVariant, FnParam, FnParamName, FnReceiver, FnReturn,
    Function, GenericTypeBound, Impl, Item, Method, ModuleItem, NodeId, OpElem, OpTrait, OpUse, OpaqueType,
    Precedence, PrecedenceAssociativity, PrecedenceAssociativityKind, PrecedenceUse, Property, PropertyBody,
    RegStructField, Static, Struct, Trait, TraitConst, TraitFunction, TraitItem, TraitMethod, TraitProperty,
    TraitTypeAlias, TupleStructField, Type, TypeAlias, Union, UnionField, UseItem, UsePath, Visibility,
};
use crate::common::{NameId, OpType, SpanId};
use crate::lexer::{OpenCloseSymbol, Punctuation, StrongKeyword, Token, WeakKeyword};
use super::{ExprParseMode, ParseErrorCode, Parser, ParserErr, group_parser_steps, item_begins_with};

verus! {

broadcast use group_parser_steps;

/// The flag `b` as a count of tokens.
pub open spec fn count(b: bool) -> int {
    if b { 1 } else { 0 }
}

impl<'a> Parser<'a> {
    /// Between positions `lo` and `hi`, exclusive, some token is `t`.
    pub open spec fn token_between(&self, lo: int, hi: int, t: Token) -> bool {
        exists|q: int| lo < q < hi && #[trigger] self.token_at(q) == Some(t)
    }

    /// Between positions `lo` and `hi`, exclusive, some token is `t1` and the next one `t2`.
    pub open spec fn pair_between(&self, lo: int, hi: int, t1: Token, t2: Token) -> bool {
        exists|q: int| lo < q && q + 1 < hi && #[trigger] self.token_at(q) == Some(t1) && self.token_at(q + 1) == Some(t2)
    }

    /// The token at position `i`, where there is one.
    pub open spec fn token_at(&self, i: int) -> Option<Token> {
        if 0 <= i < self.tokens().len() { Some(self.tokens()[i]) } else { None }
    }

    /// The token at position `i` stands for the name `name`.
    pub open spec fn name_at(&self, i: int, name: NameId) -> bool {
        self.token_at(i) matches Some(t) && self.name_of(t) == Some(name)
    }

    /// What the tokens from `s` on say of an item that starts there with its
    /// keywords: the keywords, the flags they set, and the item's name.
    pub open spec fn item_header_at(&self, s: int, item: Item) -> bool {
        let at = |k: int| self.token_at(s + k);
        match item {
            Item::Module(m) => at(0) == Some(Token::StrongKw(StrongKeyword::Mod)) && self.name_at(s + 1, m.name),
            Item::Use(_) => at(0) == Some(Token::StrongKw(StrongKeyword::Use)),
            Item::Function(f) => {
                let k = count(f.is_const) + count(f.is_unsafe) + 2 * count(f.abi is Some);
                &&& f.is_const == (at(0) == Some(Token::StrongKw(StrongKeyword::Const)))
                &&& f.is_unsafe == (at(count(f.is_const)) == Some(Token::StrongKw(StrongKeyword::Unsafe)))
                &&& at(k) == Some(Token::StrongKw(StrongKeyword::Fn))
                &&& self.name_at(s + k + 1, f.name)
            },
            Item::Const(c) => at(0) == Some(Token::StrongKw(StrongKeyword::Const)) && self.name_at(s + 1, c.name),
            Item::TypeAlias(n) => at(0) == Some(Token::StrongKw(StrongKeyword::Type)) && self.name_at(s + 1, n.name),
            Item::OpaqueType(n) => at(0) == Some(Token::StrongKw(StrongKeyword::Type)) && self.name_at(s + 1, n.name),
            Item::DistinctType(n) => at(0) == Some(Token::WeakKw(WeakKeyword::Distinct))
                && at(1) == Some(Token::StrongKw(StrongKeyword::Type)) && self.name_at(s + 2, n.name),
            Item::Union(u) => {
                &&& u.is_mut == (at(0) == Some(Token::StrongKw(StrongKeyword::Mut)))
                &&& at(count(u.is_mut)) == Some(Token::StrongKw(StrongKeyword::Union))
                &&& self.name_at(s + count(u.is_mut) + 1, u.name)
            },
            Item::Bitfield(b) => {
                &&& b.is_mut == (at(0) == Some(Token::StrongKw(StrongKeyword::Mut)))
                &&& b.is_record == (at(count(b.is_mut)) == Some(Token::WeakKw(WeakKeyword::Record)))
                &&& at(count(b.is_mut) + count(b.is_record)) == Some(Token::StrongKw(StrongKeyword::Bitfield))
                &&& self.name_at(s + count(b.is_mut) + count(b.is_record) + 1, b.name)
            },
            Item::Trait(t) => {
                &&& t.is_unsafe == (at(0) == Some(Token::StrongKw(StrongKeyword::Unsafe)))
                &&& t.is_sealed == (at(count(t.is_unsafe)) == Some(Token::WeakKw(WeakKeyword::Sealed)))
                &&& at(count(t.is_unsafe) + count(t.is_sealed)) == Some(Token::StrongKw(StrongKeyword::Trait))
                &&& self.name_at(s + count(t.is_unsafe) + count(t.is_sealed) + 1, t.name)
            },
            Item::Impl(n) => {
                &&& n.is_unsafe == (at(0) == Some(Token::StrongKw(StrongKeyword::Unsafe)))
                &&& at(count(n.is_unsafe)) == Some(Token::StrongKw(StrongKeyword::Impl))
            },
            Item::Extern(n) => at(0) == Some(Token::StrongKw(StrongKeyword::Extern)) && at(1) == Some(Token::Literal(n.abi)),
            Item::Struct(st) => {
                let m = count(at(0) == Some(Token::StrongKw(StrongKeyword::Mut)));
                let rc = count(at(m) == Some(Token::WeakKw(WeakKeyword::Record)));
                &&& at(m + rc) == Some(Token::StrongKw(StrongKeyword::Struct))
                &&& match *st {
                    Struct::Regular { is_mut, is_record, name, .. } | Struct::Tuple { is_mut, is_record, name, .. } =>
                        is_mut == (m == 1) && is_record == (rc == 1) && self.name_at(s + m + rc + 1, name),
                    Struct::Unit { name, .. } => self.name_at(s + m + rc + 1, name),
                }
            },
            Item::Enum(e) => {
                let m = count(at(0) == Some(Token::StrongKw(StrongKeyword::Mut)));
                let f = count(at(m) == Some(Token::WeakKw(WeakKeyword::Flag)));
                let rc = count(at(m + f) == Some(Token::WeakKw(WeakKeyword::Record)));
                &&& at(m + f + rc) == Some(Token::StrongKw(StrongKeyword::Enum))
                &&& match *e {
                    Enum::Adt { is_mut, is_record, name, .. } =>
                        f == 0 && is_mut == (m == 1) && is_record == (rc == 1) && self.name_at(s + m + f + rc + 1, name),
                    Enum::Flag { name, .. } => f == 1 && self.name_at(s + m + f + rc + 1, name),
                }
            },
            Item::Static(n) => match *n {
                Static::Extern { abi, .. } => at(0) == Some(Token::StrongKw(StrongKeyword::Extern)) && at(1) == Some(Token::Literal(abi)),
                Static::Tls { is_mut, .. } => is_mut == (at(0) == Some(Token::StrongKw(StrongKeyword::Mut))) && at(count(is_mut)) == Some(Token::WeakKw(WeakKeyword::Tls)),
                Static::Static { .. } => at(0) == Some(Token::StrongKw(StrongKeyword::Static))
                    || (at(0) == Some(Token::StrongKw(StrongKeyword::Mut)) && at(1) == Some(Token::StrongKw(StrongKeyword::Static))),
            },
            Item::OpTrait(o) => {
                &&& at(0) == Some(Token::WeakKw(WeakKeyword::Op))
                &&& at(1) == Some(Token::StrongKw(StrongKeyword::Trait))
                &&& match *o {
                    OpTrait::Base { name, .. } | OpTrait::Extended { name, .. } => self.name_at(s + 2, name),
                }
            },
            Item::OpUse(_) => at(0) == Some(Token::WeakKw(WeakKeyword::Op)) && at(1) == Some(Token::StrongKw(StrongKeyword::Use)),
            Item::Precedence(n) => at(0) == Some(Token::WeakKw(WeakKeyword::Precedence)) && self.name_at(s + 1, n.name),
            Item::PrecedenceUse(_) => at(0) == Some(Token::WeakKw(WeakKeyword::Precedence)) && at(1) == Some(Token::StrongKw(StrongKeyword::Use)),
        }
    }
}

/// The operator type that a keyword stands for.
pub open spec fn op_type_keyword(t: Token) -> Option<OpType> {
    match t {
        Token::WeakKw(WeakKeyword::Prefix) => Some(OpType::Prefix),
        Token::WeakKw(WeakKeyword::Postfix) => Some(OpType::Postfix),
        Token::WeakKw(WeakKeyword::Infix) => Some(OpType::Infix),
        Token::WeakKw(WeakKeyword::Assign) => Some(OpType::Assign),
        _ => None,
    }
}

/// The associativity that a name stands for: `none`, `left` or `right`.
pub open spec fn associativity_kind(text: Seq<char>) -> Option<PrecedenceAssociativityKind> {
    if text == "none"@ {
        Some(PrecedenceAssociativityKind::NonAssoc)
    } else if text == "left"@ {
        Some(PrecedenceAssociativityKind::Left)
    } else if text == "right"@ {
        Some(PrecedenceAssociativityKind::Right)
    } else {
        None
    }
}

impl<'a> Parser<'a> {
    #[verifier::rlimit(50)]
    #[verifier::spinoff_prover]
    pub(crate) fn parse_item(&mut self, attrs: Option<Vec<AstNodeRef<Attribute>>>) -> (r: Result<Item, ParserErr>)
        requires
            old(self).wf(),
        ensures
            Self::steps(old(self), final(self)),
            Self::advanced(old(self), final(self), r),
            r matches Ok(item) ==> Self::fresh(old(self), final(self), item.spec_node_id()),
            (old(self).peek_spec(0) matches Some(t) && t != Token::StrongKw(StrongKeyword::Pub)
                && (attrs is Some || (t != Token::Punctuation(Punctuation::At) && t != Token::Punctuation(Punctuation::AtExclaim))))
                ==> (r matches Ok(item) ==> item_begins_with(item, old(self).peek_spec(0)->0)
                    && old(self).item_header_at(old(self).pos(), item)),
            (attrs is None && old(self).peek_spec(0) == Some(Token::StrongKw(StrongKeyword::Mod))
                && (old(self).peek_spec(1) matches Some(t) && old(self).name_of(t) is Some)
                && old(self).peek_spec(2) == Some(Token::Punctuation(Punctuation::Semicolon))) ==> r is Ok && final(self).pos() == old(self).pos() + 3,
        decreases old(self).tokens().len() - old(self).pos(), 1nat,
    {
        self.peek()?;
        self.push_meta_frame();

        let attrs = match attrs {
            Some(attrs) => attrs,
            None => self.parse_attributes()?,
        };
        let vis = self.parse_visibility()?;

        let peek = self.peek()?;
        match peek {
            Token::StrongKw(StrongKeyword::Bitfield) => self.parse_bitfield(attrs, vis),
            Token::StrongKw(StrongKeyword::Fn) => Ok(Item::Function(self.parse_function(attrs, vis, false, false)?)),
            Token::StrongKw(StrongKeyword::Enum) => self.parse_enum(attrs, vis),
            Token::StrongKw(StrongKeyword::Impl) => self.parse_impl(attrs, vis),
            Token::StrongKw(StrongKeyword::Mod) => self.parse_module(attrs, vis),
            Token::StrongKw(StrongKeyword::Static) => Ok(Item::Static(self.parse_static_item(attrs, vis)?)),
            Token::StrongKw(StrongKeyword::Struct) => self.parse_struct(attrs, vis),
            Token::StrongKw(StrongKeyword::Trait) => self.parse_trait(attrs, vis),
            Token::StrongKw(StrongKeyword::Use) => self.parse_use(attrs, vis),
            Token::StrongKw(StrongKeyword::Union) => self.parse_union(attrs, vis),
            Token::WeakKw(WeakKeyword::Flag) => self.parse_enum(attrs, vis),
            Token::WeakKw(WeakKeyword::Sealed) => self.parse_trait(attrs, vis),
            Token::WeakKw(WeakKeyword::Tls) => Ok(Item::Static(self.parse_static_item(attrs, vis)?)),
            Token::WeakKw(WeakKeyword::Precedence) => if self.try_peek() == Some(Token::StrongKw(StrongKeyword::Use)) {
                self.parse_precedence_use(attrs, vis)
            } else {
                self.parse_precedence(attrs, vis)
            },
            Token::StrongKw(StrongKeyword::Type) | Token::WeakKw(WeakKeyword::Distinct) => self.parse_type_item(attrs, vis),
            Token::WeakKw(WeakKeyword::Op) => if self.try_peek() == Some(Token::StrongKw(StrongKeyword::Use)) {
                self.parse_op_use(attrs, vis)
            } else {
                self.parse_op_set(attrs, vis)
            },
            Token::StrongKw(StrongKeyword::Const) => if self.check_peek(&[1, 2, 4, 5], Token::StrongKw(StrongKeyword::Fn)) {
                Ok(Item::Function(self.parse_function(attrs, vis, false, false)?))
            } else {
                Ok(Item::Const(self.parse_const_item(attrs, vis)?))
            },
            Token::StrongKw(StrongKeyword::Unsafe) => if self.check_peek(&[1, 2], Token::StrongKw(StrongKeyword::Trait)) {
                self.parse_trait(attrs, vis)
            } else if self.check_peek(&[1], Token::StrongKw(StrongKeyword::Impl)) {
                self.parse_impl(attrs, vis)
            } else {
                Ok(Item::Function(self.parse_function(attrs, vis, false, false)?))
            },
            Token::StrongKw(StrongKeyword::Extern) => if self.check_peek(&[2], Token::StrongKw(StrongKeyword::Fn)) {
                Ok(Item::Function(self.parse_function(attrs, vis, false, false)?))
            } else if self.check_peek(&[2, 3], Token::StrongKw(StrongKeyword::Static)) {
                Ok(Item::Static(self.parse_static_item(attrs, vis)?))
            } else if self.check_peek(&[2], Token::OpenSymbol(OpenCloseSymbol::Brace)) {
                self.parse_extern_block(attrs, vis)
            } else {
                Err(self.gen_error(ParseErrorCode::InvalidExternUse))
            },
            Token::WeakKw(WeakKeyword::Record) => if self.check_peek(&[1], Token::StrongKw(StrongKeyword::Struct)) {
                self.parse_struct(attrs, vis)
            } else if self.check_peek(&[1], Token::StrongKw(StrongKeyword::Enum)) {
                self.parse_enum(attrs, vis)
            } else if self.check_peek(&[1], Token::StrongKw(StrongKeyword::Bitfield)) {
                self.parse_bitfield(attrs, vis)
            } else {
                Err(self.gen_error(ParseErrorCode::UnexpectedFor { found: peek, for_reason: "item" }))
            },
            Token::StrongKw(StrongKeyword::Mut) => if self.check_peek(&[1, 2], Token::StrongKw(StrongKeyword::Struct)) {
                self.parse_struct(attrs, vis)
            } else if self.check_peek(&[1], Token::StrongKw(StrongKeyword::Union)) {
                self.parse_union(attrs, vis)
            } else if self.check_peek(&[1, 2], Token::StrongKw(StrongKeyword::Enum)) {
                self.parse_enum(attrs, vis)
            } else if self.check_peek(&[1, 2], Token::StrongKw(StrongKeyword::Bitfield)) {
                self.parse_bitfield(attrs, vis)
            } else if self.check_peek(&[1, 2, 3], Token::StrongKw(StrongKeyword::Static)) {
                Ok(Item::Static(self.parse_static_item(attrs, vis)?))
            } else {
                Err(self.gen_error(ParseErrorCode::UnexpectedFor { found: peek, for_reason: "Item" }))
            },
            _ => Err(self.gen_error(ParseErrorCode::UnexpectedFor { found: peek, for_reason: "Item" })),
        }
    }

    /// An item inside an impl block.
    pub(crate) fn parse_impl_item(&mut self) -> (r: Result<AssocItem, ParserErr>)
        requires
            old(self).wf(),
        ensures
            Self::steps(old(self), final(self)),
            Self::advanced(old(self), final(self), r),
        decreases old(self).tokens().len() - old(self).pos(), 1nat,
    {
        self.peek()?;
        self.push_meta_frame();

        let attrs = self.parse_attributes()?;
        let vis = self.parse_visibility()?;

        let peek = self.peek()?;
        match peek {
            Token::StrongKw(StrongKeyword::Fn) => self.parse_impl_function(attrs, vis, false, false),
            Token::StrongKw(StrongKeyword::Const) => {
                let peek_1 = self.try_peek_at(1);
                let peek_2 = self.try_peek_at(2);
                let peek_4 = self.try_peek_at(4);
                let peek_5 = self.try_peek_at(5);
                if peek_1 == Some(Token::StrongKw(StrongKeyword::Fn)) || peek_2 == Some(Token::StrongKw(StrongKeyword::Fn))
                    || peek_4 == Some(Token::StrongKw(StrongKeyword::Fn)) || peek_5 == Some(Token::StrongKw(StrongKeyword::Fn))
                {
                    self.parse_impl_function(attrs, vis, false, false)
                } else {
                    Ok(AssocItem::Const(self.parse_const_item(attrs, vis)?))
                }
            },
            Token::StrongKw(StrongKeyword::Unsafe) => {
                let peek_1 = self.peek_at(1)?;
                if peek_1 == Token::WeakKw(WeakKeyword::Property) {
                    Ok(AssocItem::Property(self.parse_property(attrs, vis, false)?))
                } else {
                    self.parse_impl_function(attrs, vis, false, false)
                }
            },
            Token::StrongKw(StrongKeyword::Type) => Ok(AssocItem::TypeAlias(self.parse_type_alias(attrs, vis)?)),
            Token::StrongKw(StrongKeyword::Mut) => {
                let peek_1 = self.try_peek_at(1);
                let peek_2 = self.try_peek_at(2);
                let peek_3 = self.try_peek_at(3);
                if peek_1 == Some(Token::StrongKw(StrongKeyword::Static)) || peek_2 == Some(Token::StrongKw(StrongKeyword::Static))
                    || peek_3 == Some(Token::StrongKw(StrongKeyword::Static))
                {
                    Ok(AssocItem::Static(self.parse_static_item(attrs, vis)?))
                } else {
                    Err(self.gen_error(ParseErrorCode::UnexpectedFor { found: peek, for_reason: "Item" }))
                }
            },
            Token::StrongKw(StrongKeyword::Static) => Ok(AssocItem::Static(self.parse_static_item(attrs, vis)?)),
            Token::WeakKw(WeakKeyword::Tls) => Ok(AssocItem::Static(self.parse_static_item(attrs, vis)?)),
            Token::WeakKw(WeakKeyword::Property) => Ok(AssocItem::Property(self.parse_property(attrs, vis, false)?)),
            _ => Err(self.gen_error(ParseErrorCode::UnexpectedFor { found: peek, for_reason: "Item" })),
        }
    }

    /// An item inside an extern block.
    pub(crate) fn parse_extern_item(&mut self) -> (r: Result<ExternItem, ParserErr>)
        requires
            old(self).wf(),
        ensures
            Self::steps(old(self), final(self)),
            Self::advanced(old(self), final(self), r),
        decreases old(self).tokens().len() - old(self).pos(), 1nat,
    {
        let attrs = self.parse_attributes()?;
        let vis = self.parse_visibility()?;

        let peek = self.peek()?;
        match peek {
            Token::StrongKw(StrongKeyword::Fn) | Token::StrongKw(StrongKeyword::Unsafe) =>
                Ok(ExternItem::Function(self.parse_function(attrs, vis, true, false)?)),
            Token::StrongKw(StrongKeyword::Mut) => {
                let peek_1 = self.try_peek_at(1);
                let peek_2 = self.try_peek_at(2);
                let peek_3 = self.try_peek_at(3);
                if peek_1 == Some(Token::StrongKw(StrongKeyword::Static)) || peek_2 == Some(Token::StrongKw(StrongKeyword::Static))
                    || peek_3 == Some(Token::StrongKw(StrongKeyword::Static))
                {
                    Ok(ExternItem::Static(self.parse_static_item(attrs, vis)?))
                } else {
                    Err(self.gen_error(ParseErrorCode::UnexpectedFor { found: peek, for_reason: "Item" }))
                }
            },
            Token::StrongKw(StrongKeyword::Static) => Ok(ExternItem::Static(self.parse_static_item(attrs, vis)?)),
            _ => Err(self.gen_error(ParseErrorCode::UnexpectedFor { found: peek, for_reason: "Item" })),
        }
    }

    pub(crate) fn parse_module(&mut self, attrs: Vec<AstNodeRef<Attribute>>, vis: Option<AstNodeRef<Visibility>>) -> (r: Result<Item, ParserErr>)
        requires
            old(self).wf(),
        ensures
            Self::steps(old(self), final(self)),
            Self::advanced(old(self), final(self), r),
            r matches Ok(item) ==> Self::fresh(old(self), final(self), item.spec_node_id()),
            r matches Ok(item) ==> item is Module,
            (old(self).peek_spec(0) == Some(Token::StrongKw(StrongKeyword::Mod))
                && (old(self).peek_spec(1) matches Some(t) && old(self).name_of(t) is Some)
                && old(self).peek_spec(2) == Some(Token::Punctuation(Punctuation::Semicolon))) ==> r is Ok && final(self).pos() == old(self).pos() + 3,
            r matches Ok(Item::Module(m)) ==> {
                &&& old(self).peek_spec(0) == Some(Token::StrongKw(StrongKeyword::Mod))
                &&& old(self).peek_spec(1) matches Some(t) && old(self).name_of(t) == Some(m.name)
                &&& (m.block is None <==> old(self).peek_spec(2) == Some(Token::Punctuation(Punctuation::Semicolon)))
                &&& m.attrs == attrs
                &&& m.vis == vis
                &&& Self::fresh(old(self), final(self), m.spec_node_id())
            },
        decreases old(self).tokens().len() - old(self).pos(), 0nat,
    {
        let begin = self.cur_span()?;
        self.consume(Token::StrongKw(StrongKeyword::Mod))?;
        let name = self.consume_name()?;

        let block = if self.try_consume(Token::Punctuation(Punctuation::Semicolon)) {
            None
        } else {
            Some(self.parse_block()?)
        };

        let span = self.get_span_to_current(begin);
        Ok(Item::Module(self.add_node(ModuleItem { span, node_id: NodeId::default(), attrs, vis, name, block })))
    }

    /// `group.package:` and the library after it, as use items and operator
    /// and precedence imports write them.
    /// Where an import comes from: `[group.]package:library`, each part optional.
    pub(crate) fn parse_import_source(&mut self) -> (r: Result<(Option<NameId>, Option<NameId>, Option<NameId>), ParserErr>)
        requires
            old(self).wf(),
        ensures
            Self::steps(old(self), final(self)),
            Self::advanced(old(self), final(self), r),
            final(self).node_meta() == old(self).node_meta(),
            final(self).scopes() == old(self).scopes(),
            r matches Ok((group, package, library)) ==> old(self).import_source_at(old(self).pos(), final(self).pos(), group, package, library),
    {
        let peek = self.peek()?;
        let (group, package) = match peek {
            Token::Punctuation(Punctuation::Colon) => (None, None),
            Token::Name(name_id) => {
                self.consume_single();
                if self.try_consume(Token::Punctuation(Punctuation::Dot)) {
                    let package_name_id = self.consume_name()?;
                    (Some(name_id), Some(package_name_id))
                } else {
                    (None, Some(name_id))
                }
            },
            _ => return Err(self.gen_error(ParseErrorCode::ExpectPackageName { found: peek })),
        };
        self.consume_punct(Punctuation::Colon)?;

        let peek = self.peek()?;
        let library = match peek {
            Token::Punctuation(Punctuation::Dot) => None,
            Token::Name(name_id) => {
                self.consume_single();
                Some(name_id)
            },
            _ => return Err(self.gen_error(ParseErrorCode::ExpectModuleName { found: peek })),
        };
        Ok((group, package, library))
    }

    pub(crate) fn parse_use(&mut self, attrs: Vec<AstNodeRef<Attribute>>, vis: Option<AstNodeRef<Visibility>>) -> (r: Result<Item, ParserErr>)
        requires
            old(self).wf(),
        ensures
            Self::steps(old(self), final(self)),
            Self::advanced(old(self), final(self), r),
            r matches Ok(item) ==> Self::fresh(old(self), final(self), item.spec_node_id()),
            r matches Ok(item) ==> item is Use,
            r matches Ok(Item::Use(u)) ==> {
                &&& old(self).peek_spec(0) == Some(Token::StrongKw(StrongKeyword::Use))
                &&& exists|e: int| #[trigger] old(self).import_source_at(old(self).pos() + 1, e, u.group, u.package, u.library)
                    && old(self).tokens()[e] == Token::Punctuation(Punctuation::Dot)
                &&& Self::fresh(old(self), final(self), u.path.spec_node_id())
                &&& u.attrs == attrs
                &&& u.vis == vis
            },
    {
        let begin = self.cur_span()?;
        self.consume(Token::StrongKw(StrongKeyword::Use))?;

        let (group, package, library) = self.parse_import_source()?;
        let ghost e = self.pos();
        assert(old(self).import_source_at(old(self).pos() + 1, e, group, package, library));
        self.consume_punct(Punctuation::Dot)?;

        let path = self.parse_use_path()?;

        let _ = self.consume_punct(Punctuation::Semicolon);

        let span = self.get_span_to_current(begin);
        Ok(Item::Use(self.add_node(UseItem { span, node_id: NodeId::default(), attrs, vis, group, package, library, path })))
    }

    pub(crate) fn parse_use_path(&mut self) -> (r: Result<AstNodeRef<UsePath>, ParserErr>)
        requires
            old(self).wf(),
        ensures
            Self::steps(old(self), final(self)),
            Self::advanced(old(self), final(self), r),
            r matches Ok(n) ==> Self::fresh(old(self), final(self), n.spec_node_id()),
            r matches Ok(n) ==> match *n {
                UsePath::SelfPath { alias, .. } => {
                    &&& old(self).peek_spec(0) == Some(Token::StrongKw(StrongKeyword::SelfName))
                    &&& (alias is Some <==> old(self).peek_spec(1) == Some(Token::StrongKw(StrongKeyword::As)))
                    &&& alias matches Some(a) ==> old(self).peek_spec(2) matches Some(t) && old(self).name_of(t) == Some(a)
                },
                UsePath::SubPaths { segments, .. } | UsePath::Alias { segments, .. } | UsePath::Wildcard { segments, .. } => {
                    &&& segments@.len() >= 1
                    &&& (old(self).peek_spec(0) matches Some(t) && old(self).name_of(t) == Some(segments@[0]))
                },
            },
        decreases old(self).tokens().len() - old(self).pos(),
    {
        let begin = self.cur_span()?;
        if self.try_consume(Token::StrongKw(StrongKeyword::SelfName)) {
            let alias = if self.try_consume(Token::StrongKw(StrongKeyword::As)) {
                Some(self.consume_name()?)
            } else {
                None
            };
            let span = self.get_span_to_current(begin);
            return Ok(self.add_node(UsePath::SelfPath { span, node_id: NodeId::default(), alias }));
        }

        let mut segments: Vec<NameId> = Vec::new();
        let mut sub_paths: Vec<AstNodeRef<UsePath>> = Vec::new();
        let mut is_wildcard = false;

        let first = self.consume_name()?;
        segments.push(first);

        while self.try_consume(Token::Punctuation(Punctuation::Dot))
            invariant
                Self::steps(old(self), self),
                self.pos() > old(self).pos(),
                segments@.len() >= 1,
                (old(self).peek_spec(0) matches Some(t) && old(self).name_of(t) == Some(segments@[0])),
            decreases self.tokens().len() - self.pos(),
        {
            let peek = self.peek()?;
            match peek {
                Token::Name(name_id) => {
                    segments.push(name_id);
                    self.consume_single();
                },
                Token::OpenSymbol(OpenCloseSymbol::Brace) => {
                    let ghost start = self.pos();
                    self.begin_scope(OpenCloseSymbol::Brace)?;

                    let mut comma = true;
                    while comma && self.peek()? != Token::CloseSymbol(OpenCloseSymbol::Brace)
                        invariant
                            Self::steps(old(self), self),
                            self.pos() > start,
                            start > old(self).pos(),
                            segments@.len() >= 1,
                            (old(self).peek_spec(0) matches Some(t) && old(self).name_of(t) == Some(segments@[0])),
                        decreases self.tokens().len() - self.pos(),
                    {
                        let sub_path = self.parse_use_path()?;
                        sub_paths.push(sub_path);
                        comma = self.try_consume(Token::Punctuation(Punctuation::Comma));
                    }
                    self.end_scope()?;
                },
                Token::Punctuation(Punctuation::Asterisk) => {
                    is_wildcard = true;
                    self.consume_single();
                    break;
                },
                _ => return Err(self.gen_error(ParseErrorCode::UnexpectedFor { found: peek, for_reason: "Use path" })),
            }
        }

        if is_wildcard {
            let span = self.get_span_to_current(begin);
            Ok(self.add_node(UsePath::Wildcard { span, node_id: NodeId::default(), segments }))
        } else if sub_paths.len() != 0 {
            let span = self.get_span_to_current(begin);
            Ok(self.add_node(UsePath::SubPaths { span, node_id: NodeId::default(), segments, sub_paths }))
        } else {
            let alias = if self.try_consume(Token::StrongKw(StrongKeyword::As)) {
                Some(self.consume_name()?)
            } else {
                None
            };
            let span = self.get_span_to_current(begin);
            Ok(self.add_node(UsePath::Alias { span, node_id: NodeId::default(), segments, alias }))
        }
    }

    /// Contracts before a function's body, up to the brace that opens it.
    pub(crate) fn parse_contracts(&mut self) -> (r: Result<Vec<AstNodeRef<Contract>>, ParserErr>)
        requires
            old(self).wf(),
        ensures
            Self::steps(old(self), final(self)),
            Self::err_at_cursor(final(self), r),
    {
        let mut contracts: Vec<AstNodeRef<Contract>> = Vec::new();
        while self.peek()? != Token::OpenSymbol(OpenCloseSymbol::Brace)
            invariant
                Self::steps(old(self), self),
            decreases self.tokens().len() - self.pos(),
        {
            let contract = self.parse_contract()?;
            contracts.push(contract);
        }
        Ok(contracts)
    }

    pub(crate) fn parse_function(&mut self, attrs: Vec<AstNodeRef<Attribute>>, vis: Option<AstNodeRef<Visibility>>, in_extern: bool, in_trait: bool) -> (r: Result<AstNodeRef<Function>, ParserErr>)
        requires
            old(self).wf(),
        ensures
            Self::steps(old(self), final(self)),
            Self::advanced(old(self), final(self), r),
            r matches Ok(n) ==> Self::fresh(old(self), final(self), n.spec_node_id()),
            r matches Ok(f) ==> {
                &&& f.attrs == attrs
                &&& f.vis == vis
                &&& f.is_const == (old(self).peek_spec(0) == Some(Token::StrongKw(StrongKeyword::Const)))
                &&& f.is_unsafe == (old(self).peek_spec(count(f.is_const)) == Some(Token::StrongKw(StrongKeyword::Unsafe)))
                &&& (f.abi is Some <==> old(self).peek_spec(count(f.is_const) + count(f.is_unsafe)) == Some(Token::StrongKw(StrongKeyword::Extern)))
                &&& f.abi matches Some(abi) ==> old(self).peek_spec(count(f.is_const) + count(f.is_unsafe) + 1) == Some(Token::Literal(abi))
                &&& old(self).peek_spec(count(f.is_const) + count(f.is_unsafe) + 2 * count(f.abi is Some)) == Some(Token::StrongKw(StrongKeyword::Fn))
                &&& old(self).peek_spec(count(f.is_const) + count(f.is_unsafe) + 2 * count(f.abi is Some) + 1) matches Some(t)
                    && old(self).name_of(t) == Some(f.name)
                &&& (f.body is None ==> f.abi is Some || in_extern || in_trait)
            },
        decreases old(self).tokens().len() - old(self).pos(), 0nat,
    {
        let begin = self.cur_span()?;
        let is_const = self.try_consume(Token::StrongKw(StrongKeyword::Const));
        let is_unsafe = self.try_consume(Token::StrongKw(StrongKeyword::Unsafe));

        let abi = if self.try_consume(Token::StrongKw(StrongKeyword::Extern)) {
            Some(self.consume_lit()?)
        } else {
            None
        };

        self.consume_strong_kw(StrongKeyword::Fn)?;
        let name = self.consume_name()?;
        let generics = self.parse_generic_params(true)?;
        let (receiver, params) = self.parse_fn_receiver_and_params()?;

        if receiver.is_some() {
            return Err(self.gen_error(ParseErrorCode::ReceiverInFreeFunction));
        }

        let ret_ty = if self.try_consume(Token::Punctuation(Punctuation::SingleArrowR)) {
            Some(self.parse_func_return()?)
        } else {
            None
        };

        let where_clause = self.parse_where_clause()?;

        let contracts = self.parse_contracts()?;

        let body = if self.try_consume(Token::Punctuation(Punctuation::Semicolon)) {
            if abi.is_none() && !in_extern && !in_trait {
                return Err(ParserErr { err: ParseErrorCode::MissingExternFuncNoBlock, tok_idx: self.token_idx });
            }
            None
        } else {
            Some(self.parse_block()?)
        };

        let span = self.get_span_to_current(begin);
        Ok(self.add_node(Function {
            span,
            node_id: NodeId::default(),
            attrs,
            vis,
            is_const,
            is_unsafe,
            abi,
            name,
            generics,
            params,
            returns: ret_ty,
            where_clause,
            contracts,
            body,
        }))
    }

    pub(crate) fn parse_fn_receiver_and_params(&mut self) -> (r: Result<(Option<FnReceiver>, Vec<FnParam>), ParserErr>)
        requires
            old(self).wf(),
        ensures
            Self::steps(old(self), final(self)),
            Self::advanced(old(self), final(self), r),
        decreases old(self).tokens().len() - old(self).pos(), 0nat,
    {
        self.begin_scope(OpenCloseSymbol::Paren)?;
        let (receiver, has_possible_params) = self.parse_fn_receiver()?;

        let mut params: Vec<FnParam> = Vec::new();
        if has_possible_params {
            while self.peek()? != Token::CloseSymbol(OpenCloseSymbol::Paren)
                invariant
                    Self::steps(old(self), self),
                    self.pos() > old(self).pos(),
                decreases self.tokens().len() - self.pos(),
            {
                let param = self.parse_function_param()?;
                params.push(param);
                if !self.try_consume(Token::Punctuation(Punctuation::Comma)) {
                    break;
                }
            }
        }
        self.end_scope()?;

        Ok((receiver, params))
    }

    /// A `self` receiver at the start of a parameter list, and whether
    /// parameters can follow it.
    pub(crate) fn parse_fn_receiver(&mut self) -> (r: Result<(Option<FnReceiver>, bool), ParserErr>)
        requires
            old(self).wf(),
        ensures
            Self::steps(old(self), final(self)),
            Self::err_at_cursor(final(self), r),
            r matches Ok((None, _)) ==> final(self).pos() == old(self).pos(),
            r matches Ok((receiver, more)) ==> match receiver {
                None => {
                    &&& more
                    &&& old(self).peek_spec(0) != Some(Token::StrongKw(StrongKeyword::SelfName))
                    &&& old(self).peek_spec(1) != Some(Token::StrongKw(StrongKeyword::SelfName))
                    &&& old(self).peek_spec(2) != Some(Token::StrongKw(StrongKeyword::SelfName))
                },
                Some(FnReceiver::SelfReceiver { is_ref, is_mut, .. }) => {
                    let at = (if is_ref { 1int } else { 0int }) + (if is_mut { 1int } else { 0int });
                    &&& old(self).peek_spec(1) != Some(Token::Punctuation(Punctuation::Colon))
                    &&& old(self).peek_spec(2) != Some(Token::Punctuation(Punctuation::Colon))
                    &&& is_ref == (old(self).peek_spec(0) == Some(Token::Punctuation(Punctuation::Ampersand)))
                    &&& is_mut == (old(self).peek_spec(if is_ref { 1int } else { 0int }) == Some(Token::StrongKw(StrongKeyword::Mut)))
                    &&& old(self).peek_spec(at) == Some(Token::StrongKw(StrongKeyword::SelfName))
                    &&& more == (old(self).peek_spec(at + 1) == Some(Token::Punctuation(Punctuation::Comma)))
                },
                Some(FnReceiver::SelfTyped { is_mut, .. }) => {
                    let at = if is_mut { 1int } else { 0int };
                    &&& old(self).peek_spec(1) == Some(Token::Punctuation(Punctuation::Colon))
                        || old(self).peek_spec(2) == Some(Token::Punctuation(Punctuation::Colon))
                    &&& is_mut == (old(self).peek_spec(0) == Some(Token::StrongKw(StrongKeyword::Mut)))
                    &&& old(self).peek_spec(at) == Some(Token::StrongKw(StrongKeyword::SelfName))
                    &&& old(self).peek_spec(at + 1) == Some(Token::Punctuation(Punctuation::Colon))
                    &&& more ==> final(self).tokens()[final(self).pos() - 1] == Token::Punctuation(Punctuation::Comma)
                },
            },
        decreases old(self).tokens().len() - old(self).pos(), 0nat,
    {
        let self_name = Token::StrongKw(StrongKeyword::SelfName);
        let has_self = if self.peek()? == self_name {
            true
        } else if self.peek_at(1)? == self_name {
            true
        } else {
            self.peek_at(2)? == self_name
        };
        if !has_self {
            return Ok((None, true));
        }

        let colon = Token::Punctuation(Punctuation::Colon);
        let is_typed = if self.peek_at(1)? == colon {
            true
        } else {
            self.peek_at(2)? == colon
        };

        let res = if is_typed {
            let begin = self.get_cur_span();
            let is_mut = self.try_consume(Token::StrongKw(StrongKeyword::Mut));
            self.consume(Token::StrongKw(StrongKeyword::SelfName))?;
            self.consume_punct(Punctuation::Colon)?;
            let ty = self.parse_type()?;
            let span = self.get_span_to_current(begin);
            FnReceiver::SelfTyped { span, is_mut, ty }
        } else {
            let begin = self.get_cur_span();
            let is_ref = self.try_consume(Token::Punctuation(Punctuation::Ampersand));
            let is_mut = self.try_consume(Token::StrongKw(StrongKeyword::Mut));
            self.consume(Token::StrongKw(StrongKeyword::SelfName))?;
            let span = self.get_span_to_current(begin);
            FnReceiver::SelfReceiver { span, is_ref, is_mut }
        };

        let has_possible_params = self.try_consume(Token::Punctuation(Punctuation::Comma));
        Ok((Some(res), has_possible_params))
    }

    pub(crate) fn parse_function_param(&mut self) -> (r: Result<FnParam, ParserErr>)
        requires
            old(self).wf(),
        ensures
            Self::steps(old(self), final(self)),
            Self::advanced(old(self), final(self), r),
        decreases old(self).tokens().len() - old(self).pos(), 7nat,
    {
        let begin = self.cur_span()?;

        let mut names: Vec<FnParamName> = Vec::new();
        while self.peek()? != Token::CloseSymbol(OpenCloseSymbol::Paren)
            invariant
                Self::steps(old(self), self),
                names@.len() > 0 ==> self.pos() > old(self).pos(),
            ensures
                Self::steps(old(self), self),
                names@.len() > 0 ==> self.pos() > old(self).pos(),
            decreases self.tokens().len() - self.pos(),
        {
            let name = self.parse_param_name()?;
            names.push(name);
            if !self.try_consume(Token::Punctuation(Punctuation::Comma)) {
                break;
            }
        }

        self.consume_punct(Punctuation::Colon)?;
        let ty = self.parse_type()?;
        let is_variadic = self.try_consume(Token::Punctuation(Punctuation::DotDotDot));

        let def_val = if self.try_consume(Token::Punctuation(Punctuation::Equals)) {
            Some(self.parse_expr(ExprParseMode::General)?)
        } else {
            None
        };

        let span = self.get_span_to_current(begin);
        Ok(FnParam { span, names, ty, is_variadic, def_val })
    }

    pub(crate) fn parse_param_name(&mut self) -> (r: Result<FnParamName, ParserErr>)
        requires
            old(self).wf(),
        ensures
            Self::steps(old(self), final(self)),
            Self::advanced(old(self), final(self), r),
        decreases old(self).tokens().len() - old(self).pos(), 6nat,
    {
        let begin = self.cur_span()?;
        let label = if self.try_consume(Token::Punctuation(Punctuation::Colon)) {
            Some(self.consume_name()?)
        } else {
            None
        };

        let attrs = self.parse_attributes()?;
        let pattern = self.parse_pattern()?;

        let span = self.get_span_to_current(begin);
        Ok(FnParamName { span, attrs, label, pattern })
    }

    pub(crate) fn parse_func_return(&mut self) -> (r: Result<FnReturn, ParserErr>)
        requires
            old(self).wf(),
        ensures
            Self::steps(old(self), final(self)),
            Self::advanced(old(self), final(self), r),
        decreases old(self).tokens().len() - old(self).pos(), 6nat,
    {
        let begin = self.cur_span()?;
        if self.try_begin_scope(OpenCloseSymbol::Brace) {
            let mut vars: Vec<(Vec<(NameId, SpanId)>, Type)> = Vec::new();
            while !self.try_end_scope()
                invariant
                    Self::steps(old(self), self),
                    self.pos() > old(self).pos(),
                decreases self.tokens().len() - self.pos(),
            {
                let ghost start = self.pos();
                let mut names: Vec<(NameId, SpanId)> = Vec::new();
                loop
                    invariant
                        Self::steps(old(self), self),
                        self.pos() >= start,
                        start > old(self).pos(),
                        names@.len() > 0 ==> self.pos() > start,
                    ensures
                        Self::steps(old(self), self),
                        self.pos() > start,
                        start > old(self).pos(),
                    decreases self.tokens().len() - self.pos(),
                {
                    let name = self.consume_name_and_span()?;
                    names.push(name);
                    if !self.try_consume(Token::Punctuation(Punctuation::Comma)) {
                        break;
                    }
                }
                let _ = self.consume_punct(Punctuation::Colon);
                let ty = self.parse_type()?;
                vars.push((names, ty));

                if !self.try_consume(Token::Punctuation(Punctuation::Comma)) {
                    self.end_scope()?;
                    break;
                }
            }

            let span = self.get_span_to_current(begin);
            Ok(FnReturn::Named { span, vars })
        } else {
            let ty = self.parse_type()?;
            let span = self.get_span_to_current(begin);
            Ok(FnReturn::Type { span, ty })
        }
    }

    /// A type item: a distinct type, an opaque type or a type alias.
    pub(crate) fn parse_type_item(&mut self, attrs: Vec<AstNodeRef<Attribute>>, vis: Option<AstNodeRef<Visibility>>) -> (r: Result<Item, ParserErr>)
        requires
            old(self).wf(),
        ensures
            Self::steps(old(self), final(self)),
            Self::advanced(old(self), final(self), r),
            r matches Ok(item) ==> Self::fresh(old(self), final(self), item.spec_node_id()),
            r matches Ok(item) ==> item is TypeAlias || item is OpaqueType || item is DistinctType,
            r matches Ok(item) ==> ((item is DistinctType) == (old(self).peek_spec(0) == Some(Token::WeakKw(WeakKeyword::Distinct)))),
            r matches Ok(item) ==> match item {
                Item::DistinctType(n) => n.attrs == attrs && n.vis == vis
                    && old(self).peek_spec(1) == Some(Token::StrongKw(StrongKeyword::Type))
                    && (old(self).peek_spec(2) matches Some(t) && old(self).name_of(t) == Some(n.name)),
                Item::TypeAlias(n) => n.attrs == attrs && n.vis == vis
                    && old(self).peek_spec(0) == Some(Token::StrongKw(StrongKeyword::Type))
                    && (old(self).peek_spec(1) matches Some(t) && old(self).name_of(t) == Some(n.name)),
                Item::OpaqueType(n) => n.attrs == attrs && n.vis == vis
                    && old(self).peek_spec(0) == Some(Token::StrongKw(StrongKeyword::Type))
                    && (old(self).peek_spec(1) matches Some(t) && old(self).name_of(t) == Some(n.name)),
                _ => false,
            },
        decreases old(self).tokens().len() - old(self).pos(), 0nat,
    {
        let begin = self.cur_span()?;

        if self.try_consume(Token::WeakKw(WeakKeyword::Distinct)) {
            self.consume_strong_kw(StrongKeyword::Type)?;
            let name = self.consume_name()?;
            let generics = self.parse_generic_params(false)?;
            self.consume_punct(Punctuation::Equals)?;

            let ty = self.parse_type()?;
            self.consume_punct(Punctuation::Semicolon)?;
            let span = self.get_span_to_current(begin);
            return Ok(Item::DistinctType(self.add_node(DistinctType { span, node_id: NodeId::default(), attrs, vis, name, generics, ty })));
        }

        let _is_distinct = self.try_consume(Token::WeakKw(WeakKeyword::Distinct));
        self.consume_strong_kw(StrongKeyword::Type)?;
        let name = self.consume_name()?;
        let generics = self.parse_generic_params(false)?;

        self.consume_punct(Punctuation::Equals)?;

        if self.try_consume(Token::WeakKw(WeakKeyword::Opaque)) {
            let size = if self.try_begin_scope(OpenCloseSymbol::Bracket) {
                let expr = self.parse_expr(ExprParseMode::AllowComma)?;
                self.end_scope()?;
                Some(expr)
            } else {
                None
            };
            self.consume_punct(Punctuation::Semicolon)?;

            let span = self.get_span_to_current(begin);
            Ok(Item::OpaqueType(self.add_node(OpaqueType { span, node_id: NodeId::default(), attrs, vis, name, size })))
        } else {
            if self.try_consume(Token::Punctuation(Punctuation::Equals)) {
                let _ = self.parse_type()?;
            }

            let ty = self.parse_type()?;
            self.consume_punct(Punctuation::Semicolon)?;
            let span = self.get_span_to_current(begin);
            Ok(Item::TypeAlias(self.add_node(TypeAlias { span, node_id: NodeId::default(), attrs, vis, name, generics, ty })))
        }
    }

    pub(crate) fn parse_type_alias(&mut self, attrs: Vec<AstNodeRef<Attribute>>, vis: Option<AstNodeRef<Visibility>>) -> (r: Result<AstNodeRef<TypeAlias>, ParserErr>)
        requires
            old(self).wf(),
        ensures
            Self::steps(old(self), final(self)),
            Self::advanced(old(self), final(self), r),
            r matches Ok(n) ==> Self::fresh(old(self), final(self), n.spec_node_id()),
            r matches Ok(n) ==> {
                let at = if old(self).peek_spec(0) == Some(Token::WeakKw(WeakKeyword::Distinct)) { 1int } else { 0int };
                &&& old(self).peek_spec(at) == Some(Token::StrongKw(StrongKeyword::Type))
                &&& old(self).peek_spec(at + 1) matches Some(t) && old(self).name_of(t) == Some(n.name)
                &&& final(self).tokens()[final(self).pos() - 1] == Token::Punctuation(Punctuation::Semicolon)
                &&& n.attrs == attrs
                &&& n.vis == vis
            },
        decreases old(self).tokens().len() - old(self).pos(), 0nat,
    {
        let begin = self.cur_span()?;

        let _is_distinct = self.try_consume(Token::WeakKw(WeakKeyword::Distinct));
        self.consume_strong_kw(StrongKeyword::Type)?;
        let name = self.consume_name()?;
        let generics = self.parse_generic_params(false)?;

        self.consume_punct(Punctuation::Equals)?;

        if self.try_consume(Token::Punctuation(Punctuation::Equals)) {
            let _ = self.parse_type()?;
        }

        let ty = self.parse_type()?;
        self.consume_punct(Punctuation::Semicolon)?;
        let span = self.get_span_to_current(begin);
        Ok(self.add_node(TypeAlias { span, node_id: NodeId::default(), attrs, vis, name, generics, ty }))
    }

    /// Regular struct fields, comma separated between braces.
    pub(crate) fn parse_struct_fields(&mut self) -> (r: Result<Vec<RegStructField>, ParserErr>)
        requires
            old(self).wf(),
        ensures
            Self::steps(old(self), final(self)),
            Self::advanced(old(self), final(self), r),
        decreases old(self).tokens().len() - old(self).pos(), 0nat,
    {
        self.begin_scope(OpenCloseSymbol::Brace)?;
        let mut fields: Vec<RegStructField> = Vec::new();
        while !self.try_end_scope()
            invariant
                Self::steps(old(self), self),
                self.pos() > old(self).pos(),
            decreases self.tokens().len() - self.pos(),
        {
            let field = self.parse_struct_field()?;
            fields.push(field);
            if !self.try_consume(Token::Punctuation(Punctuation::Comma)) {
                self.end_scope()?;
                break;
            }
        }
        Ok(fields)
    }

    /// Tuple struct fields, comma separated between parentheses.
    pub(crate) fn parse_tuple_struct_fields(&mut self) -> (r: Result<Vec<TupleStructField>, ParserErr>)
        requires
            old(self).wf(),
        ensures
            Self::steps(old(self), final(self)),
            Self::advanced(old(self), final(self), r),
        decreases old(self).tokens().len() - old(self).pos(), 0nat,
    {
        self.begin_scope(OpenCloseSymbol::Paren)?;
        let mut fields: Vec<TupleStructField> = Vec::new();
        while !self.try_end_scope()
            invariant
                Self::steps(old(self), self),
                self.pos() > old(self).pos(),
            decreases self.tokens().len() - self.pos(),
        {
            let field = self.parse_tuple_struct_field()?;
            fields.push(field);
            if !self.try_consume(Token::Punctuation(Punctuation::Comma)) {
                self.end_scope()?;
                break;
            }
        }
        Ok(fields)
    }

    pub(crate) fn parse_struct(&mut self, attrs: Vec<AstNodeRef<Attribute>>, vis: Option<AstNodeRef<Visibility>>) -> (r: Result<Item, ParserErr>)
        requires
            old(self).wf(),
        ensures
            Self::steps(old(self), final(self)),
            Self::advanced(old(self), final(self), r),
            r matches Ok(item) ==> Self::fresh(old(self), final(self), item.spec_node_id()),
            r matches Ok(item) ==> item is Struct,
            r matches Ok(item) ==> match item {
                Item::Struct(st) => {
                    let m = if old(self).peek_spec(0) == Some(Token::StrongKw(StrongKeyword::Mut)) { 1int } else { 0int };
                    let rc = if old(self).peek_spec(m) == Some(Token::WeakKw(WeakKeyword::Record)) { 1int } else { 0int };
                    &&& old(self).peek_spec(m + rc) == Some(Token::StrongKw(StrongKeyword::Struct))
                    &&& match *st {
                        Struct::Regular { attrs: a, vis: v, is_mut, is_record, name, .. } => {
                            &&& a == attrs && v == vis
                            &&& is_mut == (m == 1) && is_record == (rc == 1)
                            &&& old(self).peek_spec(m + rc + 1) matches Some(t) && old(self).name_of(t) == Some(name)
                        },
                        Struct::Tuple { attrs: a, vis: v, is_mut, is_record, name, .. } => {
                            &&& a == attrs && v == vis
                            &&& is_mut == (m == 1) && is_record == (rc == 1)
                            &&& old(self).peek_spec(m + rc + 1) matches Some(t) && old(self).name_of(t) == Some(name)
                        },
                        Struct::Unit { attrs: a, vis: v, name, .. } => {
                            &&& a == attrs && v == vis
                            &&& old(self).peek_spec(m + rc + 1) matches Some(t) && old(self).name_of(t) == Some(name)
                            &&& final(self).tokens()[final(self).pos() - 1] == Token::Punctuation(Punctuation::Semicolon)
                        },
                    }
                },
                _ => false,
            },
        decreases old(self).tokens().len() - old(self).pos(), 0nat,
    {
        let begin = self.cur_span()?;
        let is_mut = self.try_consume(Token::StrongKw(StrongKeyword::Mut));
        let is_record = self.try_consume(Token::WeakKw(WeakKeyword::Record));

        self.consume_strong_kw(StrongKeyword::Struct)?;
        let name = self.consume_name()?;

        let generics = self.parse_generic_params(true)?;
        let where_clause = self.parse_where_clause()?;

        let peek = self.peek()?;
        match peek {
            Token::OpenSymbol(OpenCloseSymbol::Brace) => {
                let fields = self.parse_struct_fields()?;
                let span = self.get_span_to_current(begin);
                Ok(Item::Struct(self.add_node(Struct::Regular {
                    span,
                    node_id: NodeId::default(),
                    attrs,
                    vis,
                    is_mut,
                    is_record,
                    name,
                    generics,
                    where_clause,
                    fields,
                })))
            },
            Token::OpenSymbol(OpenCloseSymbol::Paren) => {
                let fields = self.parse_tuple_struct_fields()?;
                self.consume_punct(Punctuation::Semicolon)?;
                let span = self.get_span_to_current(begin);
                Ok(Item::Struct(self.add_node(Struct::Tuple {
                    span,
                    node_id: NodeId::default(),
                    attrs,
                    vis,
                    is_mut,
                    is_record,
                    name,
                    generics,
                    where_clause,
                    fields,
                })))
            },
            Token::Punctuation(Punctuation::Semicolon) => {
                if generics.is_some() {
                    return Err(self.gen_error(ParseErrorCode::NotYetSupported { what: "unit structs with generic parameters" }));
                }

                self.consume_punct(Punctuation::Semicolon)?;
                let span = self.get_span_to_current(begin);
                Ok(Item::Struct(self.add_node(Struct::Unit { span, node_id: NodeId::default(), attrs, vis, name })))
            },
            _ => Err(self.gen_error(ParseErrorCode::UnexpectedFor { found: peek, for_reason: "struct" })),
        }
    }

    /// Names separated by commas.
    /// A list of names separated by commas, at least one.
    pub(crate) fn parse_name_list(&mut self) -> (r: Result<Vec<NameId>, ParserErr>)
        requires
            old(self).wf(),
        ensures
            Self::steps(old(self), final(self)),
            Self::advanced(old(self), final(self), r),
            final(self).node_meta() == old(self).node_meta(),
            final(self).scopes() == old(self).scopes(),
            r matches Ok(names) ==> {
                &&& names@.len() > 0
                &&& old(self).separated_names(old(self).pos(), Token::Punctuation(Punctuation::Comma), names@)
                &&& final(self).pos() == old(self).pos() + 2 * names@.len() - 1
                &&& final(self).peek_spec(0) != Some(Token::Punctuation(Punctuation::Comma))
            },
    {
        let mut names: Vec<NameId> = Vec::new();
        loop
            invariant_except_break
                self.pos() == old(self).pos() + 2 * names@.len(),
                names@.len() > 0 ==> self.tokens()[Self::name_slot(old(self).pos(), names@.len() - 1) + 1] == Token::Punctuation(Punctuation::Comma),
            invariant
                Self::steps(old(self), self),
                self.node_meta() == old(self).node_meta(),
                self.scopes() == old(self).scopes(),
                names@.len() > 0 ==> self.pos() > old(self).pos(),
                old(self).separated_names(old(self).pos(), Token::Punctuation(Punctuation::Comma), names@),
            ensures
                Self::steps(old(self), self),
                self.node_meta() == old(self).node_meta(),
                self.scopes() == old(self).scopes(),
                self.pos() > old(self).pos(),
                names@.len() > 0,
                self.pos() == old(self).pos() + 2 * names@.len() - 1,
                old(self).separated_names(old(self).pos(), Token::Punctuation(Punctuation::Comma), names@),
                self.peek_spec(0) != Some(Token::Punctuation(Punctuation::Comma)),
            decreases self.tokens().len() - self.pos(),
        {
            let ghost before = names@;
            let ghost at = self.pos();
            let name = self.consume_name()?;
            names.push(name);
            proof {
                let start = old(self).pos();
                assert(old(self).name_of(old(self).tokens()[Self::name_slot(start, before.len() as int)]) == Some(name));
                assert forall|j: int| 0 <= j < names@.len() implies
                    old(self).name_of(#[trigger] old(self).tokens()[Self::name_slot(start, j)]) == Some(names@[j]) by {
                    if j < before.len() {
                        assert(names@[j] == before[j]);
                    }
                }
                assert forall|j: int| 0 <= j < names@.len() - 1 implies
                    #[trigger] old(self).tokens()[Self::name_slot(start, j) + 1] == Token::Punctuation(Punctuation::Comma) by {
                    if j < before.len() - 1 {
                        assert(names@[j] == before[j]);
                    }
                }
            }
            if !self.try_consume(Token::Punctuation(Punctuation::Comma)) {
                break;
            }
        }
        Ok(names)
    }

    pub(crate) fn parse_struct_field(&mut self) -> (r: Result<RegStructField, ParserErr>)
        requires
            old(self).wf(),
        ensures
            Self::steps(old(self), final(self)),
            Self::advanced(old(self), final(self), r),
        decreases old(self).tokens().len() - old(self).pos(), 1nat,
    {
        let begin = self.cur_span()?;
        let attrs = self.parse_attributes()?;
        let vis = self.parse_visibility()?;
        let is_mut = self.try_consume(Token::StrongKw(StrongKeyword::Mut));

        if self.try_consume(Token::StrongKw(StrongKeyword::Use)) {
            let span = self.get_span_to_current(begin);
            let path = self.parse_type_path()?;
            Ok(RegStructField::Use { span, attrs, vis, is_mut, path })
        } else {
            let names = self.parse_name_list()?;

            self.consume_punct(Punctuation::Colon)?;
            let ty = self.parse_type()?;

            let def = if self.try_consume(Token::Punctuation(Punctuation::Equals)) {
                Some(self.parse_expr(ExprParseMode::General)?)
            } else {
                None
            };

            let span = self.get_span_to_current(begin);
            Ok(RegStructField::Field { span, attrs, vis, is_mut, names, ty, def })
        }
    }

    pub(crate) fn parse_tuple_struct_field(&mut self) -> (r: Result<TupleStructField, ParserErr>)
        requires
            old(self).wf(),
        ensures
            Self::steps(old(self), final(self)),
            Self::advanced(old(self), final(self), r),
        decreases old(self).tokens().len() - old(self).pos(), 6nat,
    {
        let begin = self.cur_span()?;
        let attrs = self.parse_attributes()?;
        let vis = self.parse_visibility()?;
        let ty = self.parse_type()?;
        let def = if self.try_consume(Token::Punctuation(Punctuation::Equals)) {
            Some(self.parse_expr(ExprParseMode::General)?)
        } else {
            None
        };

        let span = self.get_span_to_current(begin);
        Ok(TupleStructField { span, attrs, vis, ty, def })
    }

    pub(crate) fn parse_union(&mut self, attrs: Vec<AstNodeRef<Attribute>>, vis: Option<AstNodeRef<Visibility>>) -> (r: Result<Item, ParserErr>)
        requires
            old(self).wf(),
        ensures
            Self::steps(old(self), final(self)),
            Self::advanced(old(self), final(self), r),
            r matches Ok(item) ==> Self::fresh(old(self), final(self), item.spec_node_id()),
            r matches Ok(item) ==> item is Union,
            r matches Ok(Item::Union(u)) ==> {
                let at = (if u.is_mut { 1int } else { 0int });
                &&& u.is_mut == (old(self).peek_spec(0) == Some(Token::StrongKw(StrongKeyword::Mut)))
                &&& old(self).peek_spec(at) == Some(Token::StrongKw(StrongKeyword::Union))
                &&& old(self).peek_spec(at + 1) matches Some(t) && old(self).name_of(t) == Some(u.name)
                &&& u.attrs == attrs
                &&& u.vis == vis
            },
        decreases old(self).tokens().len() - old(self).pos(), 0nat,
    {
        let begin = self.cur_span()?;
        let is_mut = self.try_consume(Token::StrongKw(StrongKeyword::Mut));
        self.consume_strong_kw(StrongKeyword::Union)?;
        let name = self.consume_name()?;
        let generics = self.parse_generic_params(true)?;
        let where_clause = self.parse_where_clause()?;

        self.begin_scope(OpenCloseSymbol::Brace)?;
        let mut fields: Vec<UnionField> = Vec::new();
        while !self.try_end_scope()
            invariant
                Self::steps(old(self), self),
                self.pos() > old(self).pos(),
            decreases self.tokens().len() - self.pos(),
        {
            let field = self.parse_union_field()?;
            fields.push(field);
            if !self.try_consume(Token::Punctuation(Punctuation::Comma)) {
                self.end_scope()?;
                break;
            }
        }

        let span = self.get_span_to_current(begin);
        Ok(Item::Union(self.add_node(Union { span, node_id: NodeId::default(), attrs, vis, is_mut, name, generics, where_clause, fields })))
    }

    pub(crate) fn parse_union_field(&mut self) -> (r: Result<UnionField, ParserErr>)
        requires
            old(self).wf(),
        ensures
            Self::steps(old(self), final(self)),
            Self::advanced(old(self), final(self), r),
        decreases old(self).tokens().len() - old(self).pos(), 1nat,
    {
        let begin = self.cur_span()?;
        let attrs = self.parse_attributes()?;
        let vis = self.parse_visibility()?;
        let is_mut = self.try_consume(Token::StrongKw(StrongKeyword::Mut));
        let name = self.consume_name()?;
        self.consume_punct(Punctuation::Colon)?;
        let ty = self.parse_type()?;

        let span = self.get_span_to_current(begin);
        Ok(UnionField { span, attrs, vis, is_mut, name, ty })
    }

    /// A variant of a flag enum. Its span starts where the enum starts.
    pub(crate) fn parse_flag_enum_variant(&mut self, begin: SpanId) -> (r: Result<FlagEnumVariant, ParserErr>)
        requires
            old(self).wf(),
        ensures
            Self::steps(old(self), final(self)),
            Self::advanced(old(self), final(self), r),
        decreases old(self).tokens().len() - old(self).pos(), 1nat,
    {
        let attrs = self.parse_attributes()?;
        let name = self.consume_name()?;
        let discriminant = if self.try_consume(Token::Punctuation(Punctuation::Equals)) {
            Some(self.parse_expr(ExprParseMode::General)?)
        } else {
            None
        };

        let span = self.get_span_to_current(begin);
        Ok(FlagEnumVariant { span, attrs, name, discriminant })
    }

    pub(crate) fn parse_enum(&mut self, attrs: Vec<AstNodeRef<Attribute>>, vis: Option<AstNodeRef<Visibility>>) -> (r: Result<Item, ParserErr>)
        requires
            old(self).wf(),
        ensures
            Self::steps(old(self), final(self)),
            Self::advanced(old(self), final(self), r),
            r matches Ok(item) ==> Self::fresh(old(self), final(self), item.spec_node_id()),
            r matches Ok(item) ==> item is Enum,
            r matches Ok(Item::Enum(e)) ==> ((*e is Flag) == (old(self).peek_spec(
                if old(self).peek_spec(0) == Some(Token::StrongKw(StrongKeyword::Mut)) { 1int } else { 0int })
                == Some(Token::WeakKw(WeakKeyword::Flag)))),
            r matches Ok(item) ==> match item {
                Item::Enum(e) => {
                    let m = if old(self).peek_spec(0) == Some(Token::StrongKw(StrongKeyword::Mut)) { 1int } else { 0int };
                    let f = if old(self).peek_spec(m) == Some(Token::WeakKw(WeakKeyword::Flag)) { 1int } else { 0int };
                    let rc = if old(self).peek_spec(m + f) == Some(Token::WeakKw(WeakKeyword::Record)) { 1int } else { 0int };
                    &&& old(self).peek_spec(m + f + rc) == Some(Token::StrongKw(StrongKeyword::Enum))
                    &&& match *e {
                        Enum::Adt { attrs: a, vis: v, is_mut, is_record, name, .. } => {
                            &&& a == attrs && v == vis && is_mut == (m == 1) && is_record == (rc == 1)
                            &&& old(self).peek_spec(m + f + rc + 1) matches Some(t) && old(self).name_of(t) == Some(name)
                        },
                        Enum::Flag { attrs: a, vis: v, name, .. } => {
                            &&& a == attrs && v == vis
                            &&& old(self).peek_spec(m + f + rc + 1) matches Some(t) && old(self).name_of(t) == Some(name)
                        },
                    }
                },
                _ => false,
            },
        decreases old(self).tokens().len() - old(self).pos(), 0nat,
    {
        let begin = self.cur_span()?;
        let is_mut = self.try_consume(Token::StrongKw(StrongKeyword::Mut));
        let is_flag = self.try_consume(Token::WeakKw(WeakKeyword::Flag));
        let is_record = self.try_consume(Token::WeakKw(WeakKeyword::Record));
        self.consume_strong_kw(StrongKeyword::Enum)?;
        let name = self.consume_name()?;

        if is_flag {
            self.begin_scope(OpenCloseSymbol::Brace)?;
            let mut variants: Vec<FlagEnumVariant> = Vec::new();
            while !self.try_end_scope()
                invariant
                    Self::steps(old(self), self),
                    self.pos() > old(self).pos(),
                decreases self.tokens().len() - self.pos(),
            {
                let variant = self.parse_flag_enum_variant(begin)?;
                variants.push(variant);
                if !self.try_consume(Token::Punctuation(Punctuation::Comma)) {
                    self.end_scope()?;
                    break;
                }
            }

            let span = self.get_span_to_current(begin);
            Ok(Item::Enum(self.add_node(Enum::Flag { span, node_id: NodeId::default(), attrs, vis, name, variants })))
        } else {
            let generics = self.parse_generic_params(true)?;
            let where_clause = self.parse_where_clause()?;

            self.begin_scope(OpenCloseSymbol::Brace)?;
            let mut variants: Vec<EnumVariant> = Vec::new();
            while !self.try_end_scope()
                invariant
                    Self::steps(old(self), self),
                    self.pos() > old(self).pos(),
                decreases self.tokens().len() - self.pos(),
            {
                let variant = self.parse_enum_variant()?;
                variants.push(variant);
                if !self.try_consume(Token::Punctuation(Punctuation::Comma)) {
                    self.end_scope()?;
                    break;
                }
            }

            let span = self.get_span_to_current(begin);
            Ok(Item::Enum(self.add_node(Enum::Adt {
                span,
                node_id: NodeId::default(),
                attrs,
                vis,
                is_mut,
                is_record,
                name,
                generics,
                where_clause,
                variants,
            })))
        }
    }

    /// A discriminant after `=`, where there is one.
    pub(crate) fn parse_opt_discriminant(&mut self) -> (r: Result<Option<Expr>, ParserErr>)
        requires
            old(self).wf(),
        ensures
            Self::steps(old(self), final(self)),
            Self::err_at_cursor(final(self), r),
            old(self).peek_spec(0) != Some(Token::Punctuation(Punctuation::Equals)) ==> (r matches Ok(None)) && final(self).pos() == old(self).pos(),
            old(self).peek_spec(0) == Some(Token::Punctuation(Punctuation::Equals)) ==> !(r matches Ok(None)),
        decreases old(self).tokens().len() - old(self).pos(), 0nat,
    {
        if self.try_consume(Token::Punctuation(Punctuation::Equals)) {
            Ok(Some(self.parse_expr(ExprParseMode::General)?))
        } else {
            Ok(None)
        }
    }

    pub(crate) fn parse_enum_variant(&mut self) -> (r: Result<EnumVariant, ParserErr>)
        requires
            old(self).wf(),
        ensures
            Self::steps(old(self), final(self)),
            Self::advanced(old(self), final(self), r),
        decreases old(self).tokens().len() - old(self).pos(), 1nat,
    {
        let begin = self.cur_span()?;
        let attrs = self.parse_attributes()?;
        let is_mut = self.try_consume(Token::StrongKw(StrongKeyword::Mut));
        let name = self.consume_name()?;

        match self.peek()? {
            Token::OpenSymbol(OpenCloseSymbol::Brace) => {
                let fields = self.parse_struct_fields()?;
                let discriminant = self.parse_opt_discriminant()?;
                let span = self.get_span_to_current(begin);
                Ok(EnumVariant::Struct { span, attrs, name, is_mut, fields, discriminant })
            },
            Token::OpenSymbol(OpenCloseSymbol::Paren) => {
                let fields = self.parse_tuple_struct_fields()?;
                let discriminant = self.parse_opt_discriminant()?;
                let span = self.get_span_to_current(begin);
                Ok(EnumVariant::Tuple { span, attrs, name, is_mut, fields, discriminant })
            },
            _ => {
                let discriminant = self.parse_opt_discriminant()?;
                let span = self.get_span_to_current(begin);
                Ok(EnumVariant::Fieldless { span, attrs, name, discriminant })
            },
        }
    }

    pub(crate) fn parse_bitfield(&mut self, attrs: Vec<AstNodeRef<Attribute>>, vis: Option<AstNodeRef<Visibility>>) -> (r: Result<Item, ParserErr>)
        requires
            old(self).wf(),
        ensures
            Self::steps(old(self), final(self)),
            Self::advanced(old(self), final(self), r),
            r matches Ok(item) ==> Self::fresh(old(self), final(self), item.spec_node_id()),
            r matches Ok(item) ==> item is Bitfield,
            r matches Ok(Item::Bitfield(b)) ==> {
                let at = (if b.is_mut { 1int } else { 0int }) + (if b.is_record { 1int } else { 0int });
                &&& b.is_mut == (old(self).peek_spec(0) == Some(Token::StrongKw(StrongKeyword::Mut)))
                &&& b.is_record == (old(self).peek_spec((if b.is_mut { 1int } else { 0int })) == Some(Token::WeakKw(WeakKeyword::Record)))
                &&& old(self).peek_spec(at) == Some(Token::StrongKw(StrongKeyword::Bitfield))
                &&& old(self).peek_spec(at + 1) matches Some(t) && old(self).name_of(t) == Some(b.name)
                &&& b.attrs == attrs
                &&& b.vis == vis
            },
        decreases old(self).tokens().len() - old(self).pos(), 0nat,
    {
        let begin = self.cur_span()?;
        let is_mut = self.try_consume(Token::StrongKw(StrongKeyword::Mut));
        let is_record = self.try_consume(Token::WeakKw(WeakKeyword::Record));
        self.consume_strong_kw(StrongKeyword::Bitfield)?;
        let name = self.consume_name()?;
        let generics = self.parse_generic_params(true)?;

        let bit_count = if self.try_consume(Token::Punctuation(Punctuation::Colon)) {
            Some(self.parse_expr(ExprParseMode::General)?)
        } else {
            None
        };

        let where_clause = self.parse_where_clause()?;

        self.begin_scope(OpenCloseSymbol::Brace)?;
        let mut fields: Vec<BitfieldField> = Vec::new();
        while !self.try_end_scope()
            invariant
                Self::steps(old(self), self),
                self.pos() > old(self).pos(),
            decreases self.tokens().len() - self.pos(),
        {
            let field = self.parse_bitfield_field()?;
            fields.push(field);
            if !self.try_consume(Token::Punctuation(Punctuation::Comma)) {
                self.end_scope()?;
                break;
            }
        }

        let span = self.get_span_to_current(begin);
        Ok(Item::Bitfield(self.add_node(Bitfield {
            span,
            node_id: NodeId::default(),
            attrs,
            vis,
            is_mut,
            is_record,
            name,
            generics,
            bit_count,
            where_clause,
            fields,
        })))
    }

    /// An expression after `|`, where there is one.
    pub(crate) fn parse_opt_bits(&mut self) -> (r: Result<Option<Expr>, ParserErr>)
        requires
            old(self).wf(),
        ensures
            Self::steps(old(self), final(self)),
            Self::err_at_cursor(final(self), r),
        decreases old(self).tokens().len() - old(self).pos(), 0nat,
    {
        if self.try_consume(Token::Punctuation(Punctuation::Or)) {
            Ok(Some(self.parse_expr(ExprParseMode::General)?))
        } else {
            Ok(None)
        }
    }

    pub(crate) fn parse_bitfield_field(&mut self) -> (r: Result<BitfieldField, ParserErr>)
        requires
            old(self).wf(),
        ensures
            Self::steps(old(self), final(self)),
            Self::advanced(old(self), final(self), r),
        decreases old(self).tokens().len() - old(self).pos(), 1nat,
    {
        let begin = self.cur_span()?;
        let attrs = self.parse_attributes()?;
        let vis = self.parse_visibility()?;
        let is_mut = self.try_consume(Token::StrongKw(StrongKeyword::Mut));
        let _is_record = self.try_consume(Token::WeakKw(WeakKeyword::Record));

        if self.try_consume(Token::StrongKw(StrongKeyword::Use)) {
            let path = self.parse_type_path()?;
            let bits = self.parse_opt_bits()?;
            let span = self.get_span_to_current(begin);
            Ok(BitfieldField::Use { span, attrs, vis, is_mut, path, bits })
        } else {
            let names = self.parse_name_list()?;

            self.consume_punct(Punctuation::Colon)?;
            let ty = self.parse_type()?;
            let bits = self.parse_opt_bits()?;
            let def = self.parse_opt_bits()?;

            let span = self.get_span_to_current(begin);
            Ok(BitfieldField::Field { span, attrs, vis, is_mut, names, ty, bits, def })
        }
    }

    /// `const name [: type] = value;`
    pub(crate) fn parse_const_item(&mut self, attrs: Vec<AstNodeRef<Attribute>>, vis: Option<AstNodeRef<Visibility>>) -> (r: Result<AstNodeRef<Const>, ParserErr>)
        requires
            old(self).wf(),
        ensures
            Self::steps(old(self), final(self)),
            Self::advanced(old(self), final(self), r),
            r matches Ok(n) ==> Self::fresh(old(self), final(self), n.spec_node_id()),
            r matches Ok(n) ==> {
                &&& old(self).peek_spec(0) == Some(Token::StrongKw(StrongKeyword::Const))
                &&& old(self).peek_spec(1) matches Some(t) && old(self).name_of(t) == Some(n.name)
                &&& (n.ty is Some <==> old(self).peek_spec(2) == Some(Token::Punctuation(Punctuation::Colon)))
                &&& final(self).tokens()[final(self).pos() - 1] == Token::Punctuation(Punctuation::Semicolon)
                &&& n.attrs == attrs
                &&& n.vis == vis
            },
        decreases old(self).tokens().len() - old(self).pos(), 0nat,
    {
        let begin = self.cur_span()?;
        self.consume_strong_kw(StrongKeyword::Const)?;
        let name = self.consume_name()?;
        let ty = if self.try_consume(Token::Punctuation(Punctuation::Colon)) {
            Some(self.parse_type()?)
        } else {
            None
        };
        self.consume_punct(Punctuation::Equals)?;
        let val = self.parse_expr(ExprParseMode::General)?;
        self.consume_punct(Punctuation::Semicolon)?;

        let span = self.get_span_to_current(begin);
        Ok(self.add_node(Const { span, node_id: NodeId::default(), attrs, vis, name, ty, val }))
    }

    pub(crate) fn parse_static_item(&mut self, attrs: Vec<AstNodeRef<Attribute>>, vis: Option<AstNodeRef<Visibility>>) -> (r: Result<AstNodeRef<Static>, ParserErr>)
        requires
            old(self).wf(),
        ensures
            Self::steps(old(self), final(self)),
            Self::advanced(old(self), final(self), r),
            r matches Ok(n) ==> Self::fresh(old(self), final(self), n.spec_node_id()),
            r matches Ok(n) ==> match *n {
                Static::Extern { attrs: a, vis: v, abi, .. } => {
                    &&& old(self).peek_spec(0) == Some(Token::StrongKw(StrongKeyword::Extern))
                    &&& old(self).peek_spec(1) == Some(Token::Literal(abi))
                    &&& a == attrs && v == vis
                },
                Static::Tls { attrs: a, vis: v, is_mut, .. } => {
                    &&& old(self).peek_spec(if is_mut { 1int } else { 0int }) == Some(Token::WeakKw(WeakKeyword::Tls))
                    &&& is_mut == (old(self).peek_spec(0) == Some(Token::StrongKw(StrongKeyword::Mut)))
                    &&& a == attrs && v == vis
                },
                Static::Static { attrs: a, vis: v, .. } => {
                    &&& (old(self).peek_spec(0) == Some(Token::StrongKw(StrongKeyword::Static))
                        || (old(self).peek_spec(0) == Some(Token::StrongKw(StrongKeyword::Mut))
                            && old(self).peek_spec(1) == Some(Token::StrongKw(StrongKeyword::Static))))
                    &&& a == attrs && v == vis
                },
            },
        decreases old(self).tokens().len() - old(self).pos(), 0nat,
    {
        let begin = self.cur_span()?;
        if self.try_consume(Token::StrongKw(StrongKeyword::Extern)) {
            let abi = self.consume_lit()?;
            let is_mut = self.try_consume(Token::StrongKw(StrongKeyword::Mut));
            self.consume_strong_kw(StrongKeyword::Static)?;
            let name = self.consume_name()?;
            self.consume_punct(Punctuation::Colon)?;
            let ty = self.parse_type()?;
            self.consume_punct(Punctuation::Semicolon)?;

            let span = self.get_span_to_current(begin);
            Ok(self.add_node(Static::Extern { span, node_id: NodeId::default(), attrs, vis, abi, is_mut, name, ty }))
        } else {
            let is_mut = self.try_consume(Token::StrongKw(StrongKeyword::Mut));
            let is_tls = self.try_consume(Token::WeakKw(WeakKeyword::Tls));

            self.consume_strong_kw(StrongKeyword::Static)?;
            let name = self.consume_name()?;
            let ty = if self.try_consume(Token::Punctuation(Punctuation::Colon)) {
                Some(self.parse_type()?)
            } else {
                None
            };
            let _ = self.consume_punct(Punctuation::Equals);
            let val = self.parse_expr(ExprParseMode::General)?;
            self.consume_punct(Punctuation::Semicolon)?;

            let span = self.get_span_to_current(begin);
            if is_tls {
                Ok(self.add_node(Static::Tls { span, node_id: NodeId::default(), attrs, vis, is_mut, name, ty, val }))
            } else {
                Ok(self.add_node(Static::Static { span, node_id: NodeId::default(), attrs, vis, name, ty, val }))
            }
        }
    }

    /// An accessor body in a property: an expression, and the semicolon after
    /// it where it is no block.
    pub(crate) fn parse_accessor_expr(&mut self) -> (r: Result<Expr, ParserErr>)
        requires
            old(self).wf(),
        ensures
            Self::steps(old(self), final(self)),
            Self::advanced(old(self), final(self), r),
        decreases old(self).tokens().len() - old(self).pos(), 4nat,
    {
        let expr = self.parse_expr(ExprParseMode::General)?;
        if !expr.has_block() {
            self.consume_punct(Punctuation::Semicolon)?;
        }
        Ok(expr)
    }

    pub(crate) fn parse_property(&mut self, attrs: Vec<AstNodeRef<Attribute>>, vis: Option<AstNodeRef<Visibility>>, is_trait: bool) -> (r: Result<AstNodeRef<Property>, ParserErr>)
        requires
            old(self).wf(),
        ensures
            Self::steps(old(self), final(self)),
            Self::advanced(old(self), final(self), r),
            r matches Ok(n) ==> Self::fresh(old(self), final(self), n.spec_node_id()),
            r matches Ok(n) ==> {
                &&& n.body is Assoc
                &&& n.is_unsafe == (old(self).peek_spec(0) == Some(Token::StrongKw(StrongKeyword::Unsafe)))
                &&& n.attrs == attrs
                &&& n.vis == vis
                &&& old(self).peek_spec(count(n.is_unsafe)) == Some(Token::WeakKw(WeakKeyword::Property))
                &&& old(self).name_at(old(self).pos() + count(n.is_unsafe) + 1, n.name)
                &&& (n.ty is Some <==> old(self).peek_spec(count(n.is_unsafe) + 2) == Some(Token::Punctuation(Punctuation::Colon)))
                &&& n.body matches PropertyBody::Assoc { get, ref_get, mut_get, set } && {
                    &&& get is Some ==> old(self).token_between(old(self).pos(), final(self).pos(), Token::WeakKw(WeakKeyword::Get))
                    &&& ref_get is Some ==> old(self).pair_between(old(self).pos(), final(self).pos(),
                        Token::StrongKw(StrongKeyword::Ref), Token::WeakKw(WeakKeyword::Get))
                    &&& mut_get is Some ==> old(self).pair_between(old(self).pos(), final(self).pos(),
                        Token::StrongKw(StrongKeyword::Mut), Token::WeakKw(WeakKeyword::Get))
                    &&& set is Some ==> old(self).token_between(old(self).pos(), final(self).pos(), Token::WeakKw(WeakKeyword::Setter))
                }
            },
        decreases old(self).tokens().len() - old(self).pos(), 0nat,
    {
        let begin = self.cur_span()?;
        let is_unsafe = self.try_consume(Token::StrongKw(StrongKeyword::Unsafe));
        self.consume_weak_kw(WeakKeyword::Property)?;
        let name = self.consume_name()?;

        let ty = if self.try_consume(Token::Punctuation(Punctuation::Colon)) {
            Some(self.parse_type()?)
        } else {
            None
        };

        let mut get: Option<(SpanId, Expr)> = None;
        let mut ref_get: Option<(SpanId, Expr)> = None;
        let mut mut_get: Option<(SpanId, Expr)> = None;
        let mut set: Option<(SpanId, Expr)> = None;

        self.begin_scope(OpenCloseSymbol::Brace)?;
        while !self.try_end_scope()
            invariant
                Self::steps(old(self), self),
                self.pos() > old(self).pos(),
                get is Some ==> old(self).token_between(old(self).pos(), self.pos(), Token::WeakKw(WeakKeyword::Get)),
                ref_get is Some ==> old(self).pair_between(old(self).pos(), self.pos(),
                    Token::StrongKw(StrongKeyword::Ref), Token::WeakKw(WeakKeyword::Get)),
                mut_get is Some ==> old(self).pair_between(old(self).pos(), self.pos(),
                    Token::StrongKw(StrongKeyword::Mut), Token::WeakKw(WeakKeyword::Get)),
                set is Some ==> old(self).token_between(old(self).pos(), self.pos(), Token::WeakKw(WeakKeyword::Setter)),
            ensures
                Self::steps(old(self), self),
                self.pos() > old(self).pos(),
                get is Some ==> old(self).token_between(old(self).pos(), self.pos(), Token::WeakKw(WeakKeyword::Get)),
                ref_get is Some ==> old(self).pair_between(old(self).pos(), self.pos(),
                    Token::StrongKw(StrongKeyword::Ref), Token::WeakKw(WeakKeyword::Get)),
                mut_get is Some ==> old(self).pair_between(old(self).pos(), self.pos(),
                    Token::StrongKw(StrongKeyword::Mut), Token::WeakKw(WeakKeyword::Get)),
                set is Some ==> old(self).token_between(old(self).pos(), self.pos(), Token::WeakKw(WeakKeyword::Setter)),
            decreases self.tokens().len() - self.pos(),
        {
            let ghost at = self.pos();
            let peek = self.peek()?;
            match peek {
                Token::WeakKw(WeakKeyword::Get) => {
                    let begin = self.get_cur_span();
                    self.consume_single();
                    assert(old(self).token_at(at) == Some(Token::WeakKw(WeakKeyword::Get)));
                    let expr = self.parse_accessor_expr()?;
                    if get.is_some() {
                        return Err(self.gen_error(ParseErrorCode::DuplicateProp { get_set: "get" }));
                    }
                    let span = self.get_span_to_current(begin);
                    get = Some((span, expr));
                },
                Token::StrongKw(StrongKeyword::Ref) => {
                    let begin = self.get_cur_span();
                    self.consume_single();
                    self.consume_weak_kw(WeakKeyword::Get)?;
                    assert(old(self).token_at(at) == Some(Token::StrongKw(StrongKeyword::Ref))
                        && old(self).token_at(at + 1) == Some(Token::WeakKw(WeakKeyword::Get)));
                    let expr = self.parse_accessor_expr()?;
                    if ref_get.is_some() {
                        return Err(self.gen_error(ParseErrorCode::DuplicateProp { get_set: "ref get" }));
                    }
                    let span = self.get_span_to_current(begin);
                    ref_get = Some((span, expr));
                },
                Token::StrongKw(StrongKeyword::Mut) => {
                    let begin = self.get_cur_span();
                    self.consume_single();
                    self.consume_weak_kw(WeakKeyword::Get)?;
                    assert(old(self).token_at(at) == Some(Token::StrongKw(StrongKeyword::Mut))
                        && old(self).token_at(at + 1) == Some(Token::WeakKw(WeakKeyword::Get)));
                    let expr = self.parse_accessor_expr()?;
                    if mut_get.is_some() {
                        return Err(self.gen_error(ParseErrorCode::DuplicateProp { get_set: "mut get" }));
                    }
                    let span = self.get_span_to_current(begin);
                    mut_get = Some((span, expr));
                },
                Token::WeakKw(WeakKeyword::Setter) => {
                    let begin = self.get_cur_span();
                    self.consume_single();
                    assert(old(self).token_at(at) == Some(Token::WeakKw(WeakKeyword::Setter)));
                    let expr = self.parse_accessor_expr()?;
                    if set.is_some() {
                        return Err(self.gen_error(ParseErrorCode::DuplicateProp { get_set: "set" }));
                    }
                    let span = self.get_span_to_current(begin);
                    set = Some((span, expr));
                },
                _ => return Err(self.gen_error(ParseErrorCode::UnexpectedFor { found: peek, for_reason: "property getter/setter" })),
            }
        }

        let span = self.get_span_to_current(begin);
        Ok(self.add_node(Property {
            span,
            node_id: NodeId::default(),
            attrs,
            vis,
            is_unsafe,
            name,
            ty,
            body: PropertyBody::Assoc { get, ref_get, mut_get, set },
        }))
    }

    /// A property accessor's expression: after `=`, an expression and a
    /// semicolon; a block; or nothing.
    pub fn parse_property_expr(&mut self) -> (r: Result<Option<Expr>, ParserErr>)
        requires
            old(self).wf(),
        ensures
            Self::steps(old(self), final(self)),
            Self::err_at_cursor(final(self), r),
            r matches Ok(None) ==> final(self).pos() == old(self).pos(),
            r matches Ok(Some(_)) ==> final(self).pos() > old(self).pos(),
            old(self).peek_spec(0) is None ==> (r matches Err(e) && e.err is NotEnoughTokens && e.tok_idx == old(self).pos()),
            (old(self).peek_spec(0) matches Some(t) && t != Token::Punctuation(Punctuation::Equals)
                && t != Token::OpenSymbol(OpenCloseSymbol::Brace)) ==> r matches Ok(None),
            old(self).peek_spec(0) == Some(Token::Punctuation(Punctuation::Equals)) && r is Ok
                ==> (r matches Ok(Some(_))) && final(self).tokens()[final(self).pos() - 1] == Token::Punctuation(Punctuation::Semicolon),
            old(self).peek_spec(0) == Some(Token::OpenSymbol(OpenCloseSymbol::Brace)) ==> !(r matches Ok(None)),
        decreases old(self).tokens().len() - old(self).pos(), 4nat,
    {
        if self.try_consume(Token::Punctuation(Punctuation::Equals)) {
            let expr = self.parse_expr(ExprParseMode::General)?;
            self.consume_punct(Punctuation::Semicolon)?;
            Ok(Some(expr))
        } else if self.peek()? == Token::OpenSymbol(OpenCloseSymbol::Brace) {
            Ok(Some(self.parse_expr(ExprParseMode::General)?))
        } else {
            Ok(None)
        }
    }

    pub(crate) fn parse_trait(&mut self, attrs: Vec<AstNodeRef<Attribute>>, vis: Option<AstNodeRef<Visibility>>) -> (r: Result<Item, ParserErr>)
        requires
            old(self).wf(),
        ensures
            Self::steps(old(self), final(self)),
            Self::advanced(old(self), final(self), r),
            r matches Ok(item) ==> Self::fresh(old(self), final(self), item.spec_node_id()),
            r matches Ok(item) ==> item is Trait,
            r matches Ok(Item::Trait(t)) ==> {
                let at = (if t.is_unsafe { 1int } else { 0int }) + (if t.is_sealed { 1int } else { 0int });
                &&& t.is_unsafe == (old(self).peek_spec(0) == Some(Token::StrongKw(StrongKeyword::Unsafe)))
                &&& t.is_sealed == (old(self).peek_spec((if t.is_unsafe { 1int } else { 0int })) == Some(Token::WeakKw(WeakKeyword::Sealed)))
                &&& old(self).peek_spec(at) == Some(Token::StrongKw(StrongKeyword::Trait))
                &&& old(self).peek_spec(at + 1) matches Some(tok) && old(self).name_of(tok) == Some(t.name)
                &&& t.attrs == attrs
                &&& t.vis == vis
            },
        decreases old(self).tokens().len() - old(self).pos(), 0nat,
    {
        let begin = self.cur_span()?;
        let is_unsafe = self.try_consume(Token::StrongKw(StrongKeyword::Unsafe));
        let is_sealed = self.try_consume(Token::WeakKw(WeakKeyword::Sealed));
        self.consume_strong_kw(StrongKeyword::Trait)?;
        let name = self.consume_name()?;

        let generics = self.parse_generic_params(true)?;

        let bounds = if self.try_consume(Token::Punctuation(Punctuation::Colon)) {
            Some(self.parse_trait_bounds()?)
        } else {
            None
        };

        let where_clause = self.parse_where_clause()?;

        let mut assoc_items: Vec<TraitItem> = Vec::new();
        let _ = self.begin_scope(OpenCloseSymbol::Brace);
        while !self.try_end_scope()
            invariant
                Self::steps(old(self), self),
                self.pos() > old(self).pos(),
            decreases self.tokens().len() - self.pos(),
        {
            let item = self.parse_trait_item()?;
            assoc_items.push(item);
        }

        let span = self.get_span_to_current(begin);
        Ok(Item::Trait(self.add_node(Trait {
            span,
            node_id: NodeId::default(),
            attrs,
            vis,
            is_unsafe,
            is_sealed,
            name,
            generics,
            bounds,
            where_clause,
            assoc_items,
        })))
    }

    pub(crate) fn parse_trait_item(&mut self) -> (r: Result<TraitItem, ParserErr>)
        requires
            old(self).wf(),
        ensures
            Self::steps(old(self), final(self)),
            Self::advanced(old(self), final(self), r),
        decreases old(self).tokens().len() - old(self).pos(), 1nat,
    {
        self.peek()?;
        self.push_meta_frame();

        let attrs = self.parse_attributes()?;

        let peek = self.peek()?;
        match peek {
            Token::StrongKw(StrongKeyword::Fn) => self.parse_trait_function(attrs),
            Token::StrongKw(StrongKeyword::Const) => {
                let peek_1 = self.try_peek_at(1);
                let peek_2 = self.try_peek_at(2);
                if peek_1 == Some(Token::StrongKw(StrongKeyword::Fn)) || peek_2 == Some(Token::StrongKw(StrongKeyword::Fn)) {
                    self.parse_trait_function(attrs)
                } else {
                    Ok(TraitItem::Const(self.parse_trait_const(attrs)?))
                }
            },
            Token::StrongKw(StrongKeyword::Unsafe) => {
                let peek = self.peek_at(1)?;
                if peek == Token::WeakKw(WeakKeyword::Property) {
                    Ok(TraitItem::Property(self.parse_trait_property(attrs)?))
                } else {
                    self.parse_trait_function(attrs)
                }
            },
            Token::StrongKw(StrongKeyword::Type) => Ok(TraitItem::TypeAlias(self.parse_trait_type_alias(attrs)?)),
            Token::WeakKw(WeakKeyword::Property) => Ok(TraitItem::Property(self.parse_trait_property(attrs)?)),
            _ => Err(self.gen_error(ParseErrorCode::UnexpectedFor { found: peek, for_reason: "Item" })),
        }
    }

    pub(crate) fn parse_trait_function(&mut self, attrs: Vec<AstNodeRef<Attribute>>) -> (r: Result<TraitItem, ParserErr>)
        requires
            old(self).wf(),
        ensures
            Self::steps(old(self), final(self)),
            Self::advanced(old(self), final(self), r),
        decreases old(self).tokens().len() - old(self).pos(), 0nat,
    {
        let begin = self.cur_span()?;
        let is_const = self.try_consume(Token::StrongKw(StrongKeyword::Const));
        let is_unsafe = self.try_consume(Token::StrongKw(StrongKeyword::Unsafe));

        self.consume_strong_kw(StrongKeyword::Fn)?;
        let name = self.consume_name()?;
        let generics = self.parse_generic_params(true)?;
        let (receiver, params) = self.parse_fn_receiver_and_params()?;
        let ret_ty = if self.try_consume(Token::Punctuation(Punctuation::SingleArrowR)) {
            Some(self.parse_func_return()?)
        } else {
            None
        };

        let where_clause = self.parse_where_clause()?;

        let contracts = self.parse_contracts()?;

        let body = if self.try_consume(Token::Punctuation(Punctuation::Semicolon)) {
            None
        } else {
            Some(self.parse_block()?)
        };

        let span = self.get_span_to_current(begin);
        match receiver {
            Some(receiver) => Ok(TraitItem::Method(self.add_node(TraitMethod {
                span,
                node_id: NodeId::default(),
                attrs,
                is_const,
                is_unsafe,
                name,
                generics,
                receiver,
                params,
                returns: ret_ty,
                where_clause,
                contracts,
                body,
            }))),
            None => Ok(TraitItem::Function(self.add_node(TraitFunction {
                span,
                node_id: NodeId::default(),
                attrs,
                is_const,
                is_unsafe,
                name,
                generics,
                params,
                returns: ret_ty,
                where_clause,
                contracts,
                body,
            }))),
        }
    }

    pub(crate) fn parse_trait_type_alias(&mut self, attrs: Vec<AstNodeRef<Attribute>>) -> (r: Result<AstNodeRef<TraitTypeAlias>, ParserErr>)
        requires
            old(self).wf(),
        ensures
            Self::steps(old(self), final(self)),
            Self::advanced(old(self), final(self), r),
            r matches Ok(n) ==> Self::fresh(old(self), final(self), n.spec_node_id()),
        decreases old(self).tokens().len() - old(self).pos(), 0nat,
    {
        let begin = self.cur_span()?;

        self.consume_strong_kw(StrongKeyword::Type)?;
        let name = self.consume_name()?;
        let generics = self.parse_generic_params(true)?;

        let mut bounds: Vec<GenericTypeBound> = Vec::new();
        if self.try_consume(Token::Punctuation(Punctuation::Colon)) {
            loop
                invariant
                    Self::steps(old(self), self),
                    self.pos() > old(self).pos(),
                decreases self.tokens().len() - self.pos(),
            {
                let bound = self.parse_generic_type_bound()?;
                bounds.push(bound);
                if !self.try_consume(Token::Punctuation(Punctuation::Ampersand)) {
                    break;
                }
            }
        }
        let where_clause = self.parse_where_clause()?;

        self.consume_punct(Punctuation::Equals)?;

        if self.try_consume(Token::Punctuation(Punctuation::Equals)) {
            let _ = self.parse_type()?;
        }

        let def = if self.try_consume(Token::Punctuation(Punctuation::Equals)) {
            Some(self.parse_type()?)
        } else {
            None
        };
        self.consume_punct(Punctuation::Semicolon)?;

        let span = self.get_span_to_current(begin);
        Ok(self.add_node(TraitTypeAlias { span, node_id: NodeId::default(), attrs, name, generics, bounds, where_clause, def }))
    }

    pub(crate) fn parse_trait_const(&mut self, attrs: Vec<AstNodeRef<Attribute>>) -> (r: Result<AstNodeRef<TraitConst>, ParserErr>)
        requires
            old(self).wf(),
        ensures
            Self::steps(old(self), final(self)),
            Self::advanced(old(self), final(self), r),
            r matches Ok(n) ==> Self::fresh(old(self), final(self), n.spec_node_id()),
            r matches Ok(n) ==> {
                &&& old(self).peek_spec(0) == Some(Token::StrongKw(StrongKeyword::Const))
                &&& old(self).peek_spec(1) matches Some(t) && old(self).name_of(t) == Some(n.name)
                &&& final(self).tokens()[final(self).pos() - 1] == Token::Punctuation(Punctuation::Semicolon)
                &&& n.attrs == attrs
            },
        decreases old(self).tokens().len() - old(self).pos(), 0nat,
    {
        let begin = self.cur_span()?;
        self.consume_strong_kw(StrongKeyword::Const)?;
        let name = self.consume_name()?;
        let ty = self.parse_type()?;
        let def = if self.try_consume(Token::Punctuation(Punctuation::Colon)) {
            Some(self.parse_expr(ExprParseMode::General)?)
        } else {
            None
        };
        self.consume_punct(Punctuation::Semicolon)?;

        let span = self.get_span_to_current(begin);
        Ok(self.add_node(TraitConst { span, node_id: NodeId::default(), attrs, name, ty, def }))
    }

    pub(crate) fn parse_trait_property(&mut self, attrs: Vec<AstNodeRef<Attribute>>) -> (r: Result<AstNodeRef<TraitProperty>, ParserErr>)
        requires
            old(self).wf(),
        ensures
            Self::steps(old(self), final(self)),
            Self::advanced(old(self), final(self), r),
            r matches Ok(n) ==> Self::fresh(old(self), final(self), n.spec_node_id()),
            r matches Ok(n) ==> {
                let u = count(n.is_unsafe);
                &&& n.attrs == attrs
                &&& n.is_unsafe == (old(self).peek_spec(0) == Some(Token::StrongKw(StrongKeyword::Unsafe)))
                &&& old(self).peek_spec(u) == Some(Token::WeakKw(WeakKeyword::Property))
                &&& old(self).name_at(old(self).pos() + u + 1, n.name)
                &&& old(self).peek_spec(u + 2) == Some(Token::Punctuation(Punctuation::Colon))
                &&& n.get is Some ==> old(self).token_between(old(self).pos(), final(self).pos(), Token::WeakKw(WeakKeyword::Get))
                &&& n.ref_get is Some ==> old(self).pair_between(old(self).pos(), final(self).pos(),
                    Token::StrongKw(StrongKeyword::Ref), Token::WeakKw(WeakKeyword::Get))
                &&& n.mut_get is Some ==> old(self).pair_between(old(self).pos(), final(self).pos(),
                    Token::StrongKw(StrongKeyword::Mut), Token::WeakKw(WeakKeyword::Get))
                &&& n.set is Some ==> old(self).token_between(old(self).pos(), final(self).pos(), Token::WeakKw(WeakKeyword::Setter))
            },
        decreases old(self).tokens().len() - old(self).pos(), 0nat,
    {
        let begin = self.cur_span()?;
        let is_unsafe = self.try_consume(Token::StrongKw(StrongKeyword::Unsafe));
        self.consume_weak_kw(WeakKeyword::Property)?;
        let name = self.consume_name()?;
        self.consume_punct(Punctuation::Colon)?;
        let ty = self.parse_type()?;

        let mut get: Option<(SpanId, Option<Expr>)> = None;
        let mut ref_get: Option<(SpanId, Option<Expr>)> = None;
        let mut mut_get: Option<(SpanId, Option<Expr>)> = None;
        let mut set: Option<(SpanId, Option<Expr>)> = None;

        self.begin_scope(OpenCloseSymbol::Brace)?;
        while !self.try_end_scope()
            invariant
                Self::steps(old(self), self),
                self.pos() > old(self).pos(),
                get is Some ==> old(self).token_between(old(self).pos(), self.pos(), Token::WeakKw(WeakKeyword::Get)),
                ref_get is Some ==> old(self).pair_between(old(self).pos(), self.pos(),
                    Token::StrongKw(StrongKeyword::Ref), Token::WeakKw(WeakKeyword::Get)),
                mut_get is Some ==> old(self).pair_between(old(self).pos(), self.pos(),
                    Token::StrongKw(StrongKeyword::Mut), Token::WeakKw(WeakKeyword::Get)),
                set is Some ==> old(self).token_between(old(self).pos(), self.pos(), Token::WeakKw(WeakKeyword::Setter)),
            ensures
                Self::steps(old(self), self),
                self.pos() > old(self).pos(),
                get is Some ==> old(self).token_between(old(self).pos(), self.pos(), Token::WeakKw(WeakKeyword::Get)),
                ref_get is Some ==> old(self).pair_between(old(self).pos(), self.pos(),
                    Token::StrongKw(StrongKeyword::Ref), Token::WeakKw(WeakKeyword::Get)),
                mut_get is Some ==> old(self).pair_between(old(self).pos(), self.pos(),
                    Token::StrongKw(StrongKeyword::Mut), Token::WeakKw(WeakKeyword::Get)),
                set is Some ==> old(self).token_between(old(self).pos(), self.pos(), Token::WeakKw(WeakKeyword::Setter)),
            decreases self.tokens().len() - self.pos(),
        {
            let ghost at = self.pos();
            let peek = self.peek()?;
            match peek {
                Token::WeakKw(WeakKeyword::Get) => {
                    let begin = self.get_cur_span();
                    self.consume_single();
                    assert(old(self).token_at(at) == Some(Token::WeakKw(WeakKeyword::Get)));
                    let expr = self.parse_property_expr()?;
                    if get.is_some() {
                        return Err(self.gen_error(ParseErrorCode::DuplicateProp { get_set: "get" }));
                    }
                    let span = self.get_span_to_current(begin);
                    get = Some((span, expr));
                },
                Token::StrongKw(StrongKeyword::Ref) => {
                    let begin = self.get_cur_span();
                    self.consume_single();
                    self.consume_weak_kw(WeakKeyword::Get)?;
                    assert(old(self).token_at(at) == Some(Token::StrongKw(StrongKeyword::Ref))
                        && old(self).token_at(at + 1) == Some(Token::WeakKw(WeakKeyword::Get)));
                    let expr = self.parse_property_expr()?;
                    if ref_get.is_some() {
                        return Err(self.gen_error(ParseErrorCode::DuplicateProp { get_set: "ref get" }));
                    }
                    let span = self.get_span_to_current(begin);
                    ref_get = Some((span, expr));
                },
                Token::StrongKw(StrongKeyword::Mut) => {
                    let begin = self.get_cur_span();
                    self.consume_single();
                    self.consume_weak_kw(WeakKeyword::Get)?;
                    assert(old(self).token_at(at) == Some(Token::StrongKw(StrongKeyword::Mut))
                        && old(self).token_at(at + 1) == Some(Token::WeakKw(WeakKeyword::Get)));
                    let expr = self.parse_property_expr()?;
                    if mut_get.is_some() {
                        return Err(self.gen_error(ParseErrorCode::DuplicateProp { get_set: "mut get" }));
                    }
                    let span = self.get_span_to_current(begin);
                    mut_get = Some((span, expr));
                },
                Token::WeakKw(WeakKeyword::Setter) => {
                    let begin = self.get_cur_span();
                    self.consume_single();
                    assert(old(self).token_at(at) == Some(Token::WeakKw(WeakKeyword::Setter)));
                    let expr = self.parse_property_expr()?;
                    if set.is_some() {
                        return Err(self.gen_error(ParseErrorCode::DuplicateProp { get_set: "set" }));
                    }
                    let span = self.get_span_to_current(begin);
                    set = Some((span, expr));
                },
                _ => return Err(self.gen_error(ParseErrorCode::UnexpectedFor { found: peek, for_reason: "property getter/setter" })),
            }
        }

        let span = self.get_span_to_current(begin);
        Ok(self.add_node(TraitProperty { span, node_id: NodeId::default(), attrs, is_unsafe, name, ty, get, ref_get, mut_get, set }))
    }

    pub(crate) fn parse_impl(&mut self, attrs: Vec<AstNodeRef<Attribute>>, vis: Option<AstNodeRef<Visibility>>) -> (r: Result<Item, ParserErr>)
        requires
            old(self).wf(),
        ensures
            Self::steps(old(self), final(self)),
            Self::advanced(old(self), final(self), r),
            r matches Ok(item) ==> Self::fresh(old(self), final(self), item.spec_node_id()),
            r matches Ok(item) ==> item is Impl,
            r matches Ok(item) ==> match item {
                Item::Impl(n) => {
                    &&& n.is_unsafe == (old(self).peek_spec(0) == Some(Token::StrongKw(StrongKeyword::Unsafe)))
                    &&& old(self).peek_spec(if n.is_unsafe { 1int } else { 0int }) == Some(Token::StrongKw(StrongKeyword::Impl))
                    &&& n.attrs == attrs
                    &&& n.vis == vis
                },
                _ => false,
            },
        decreases old(self).tokens().len() - old(self).pos(), 0nat,
    {
        let begin = self.cur_span()?;
        let is_unsafe = self.try_consume(Token::StrongKw(StrongKeyword::Unsafe));
        self.consume_strong_kw(StrongKeyword::Impl)?;
        let generics = self.parse_generic_params(true)?;
        let ty = self.parse_type()?;
        let impl_trait = if self.try_consume(Token::StrongKw(StrongKeyword::As)) {
            Some(self.parse_trait_path()?)
        } else {
            None
        };
        let where_clause = self.parse_where_clause()?;

        let mut assoc_items: Vec<AssocItem> = Vec::new();
        let _ = self.begin_scope(OpenCloseSymbol::Brace);
        while !self.try_end_scope()
            invariant
                Self::steps(old(self), self),
                self.pos() > old(self).pos(),
            decreases self.tokens().len() - self.pos(),
        {
            let item = self.parse_impl_item()?;
            assoc_items.push(item);
        }

        let span = self.get_span_to_current(begin);
        Ok(Item::Impl(self.add_node(Impl {
            span,
            node_id: NodeId::default(),
            attrs,
            vis,
            is_unsafe,
            generics,
            ty,
            impl_trait,
            where_clause,
            assoc_items,
        })))
    }

    pub(crate) fn parse_impl_function(&mut self, attrs: Vec<AstNodeRef<Attribute>>, vis: Option<AstNodeRef<Visibility>>, in_extern: bool, in_trait: bool) -> (r: Result<AssocItem, ParserErr>)
        requires
            old(self).wf(),
        ensures
            Self::steps(old(self), final(self)),
            Self::advanced(old(self), final(self), r),
        decreases old(self).tokens().len() - old(self).pos(), 0nat,
    {
        let begin = self.cur_span()?;
        let is_const = self.try_consume(Token::StrongKw(StrongKeyword::Const));
        let is_unsafe = self.try_consume(Token::StrongKw(StrongKeyword::Unsafe));

        self.consume_strong_kw(StrongKeyword::Fn)?;
        let name = self.consume_name()?;
        let generics = self.parse_generic_params(true)?;
        let (receiver, params) = self.parse_fn_receiver_and_params()?;
        let ret_ty = if self.try_consume(Token::Punctuation(Punctuation::SingleArrowR)) {
            Some(self.parse_func_return()?)
        } else {
            None
        };

        let where_clause = self.parse_where_clause()?;

        let contracts = self.parse_contracts()?;

        let body = self.parse_block()?;

        let span = self.get_span_to_current(begin);
        match receiver {
            Some(receiver) => Ok(AssocItem::Method(self.add_node(Method {
                span,
                node_id: NodeId::default(),
                attrs,
                vis,
                is_const,
                is_unsafe,
                name,
                generics,
                receiver,
                params,
                returns: ret_ty,
                where_clause,
                contracts,
                body,
            }))),
            None => Ok(AssocItem::Function(self.add_node(Function {
                span,
                node_id: NodeId::default(),
                attrs,
                vis,
                is_const,
                is_unsafe,
                abi: None,
                name,
                generics,
                params,
                returns: ret_ty,
                where_clause,
                contracts,
                body: Some(body),
            }))),
        }
    }

    pub(crate) fn parse_extern_block(&mut self, attrs: Vec<AstNodeRef<Attribute>>, vis: Option<AstNodeRef<Visibility>>) -> (r: Result<Item, ParserErr>)
        requires
            old(self).wf(),
        ensures
            Self::steps(old(self), final(self)),
            Self::advanced(old(self), final(self), r),
            r matches Ok(item) ==> item is Extern,
            r matches Ok(item) ==> match item {
                Item::Extern(n) => {
                    &&& old(self).peek_spec(0) == Some(Token::StrongKw(StrongKeyword::Extern))
                    &&& old(self).peek_spec(1) == Some(Token::Literal(n.abi))
                    &&& n.attrs == attrs
                    &&& n.vis == vis
                },
                _ => false,
            },
            r matches Ok(item) ==> Self::fresh(old(self), final(self), item.spec_node_id()),
        decreases old(self).tokens().len() - old(self).pos(), 0nat,
    {
        let begin = self.cur_span()?;
        self.consume_strong_kw(StrongKeyword::Extern)?;
        let abi = self.consume_lit()?;

        let mut items: Vec<ExternItem> = Vec::new();
        let _ = self.begin_scope(OpenCloseSymbol::Brace);
        while !self.try_end_scope()
            invariant
                Self::steps(old(self), self),
                self.pos() > old(self).pos(),
            decreases self.tokens().len() - self.pos(),
        {
            let item = self.parse_extern_item()?;
            items.push(item);
        }

        let span = self.get_span_to_current(begin);
        Ok(Item::Extern(self.add_node(ExternBlock { span, node_id: NodeId::default(), attrs, vis, abi, items })))
    }

    /// An operator set: `op trait Name`, its bases or precedence, and its elements.
    pub(crate) fn parse_op_set(&mut self, attrs: Vec<AstNodeRef<Attribute>>, vis: Option<AstNodeRef<Visibility>>) -> (r: Result<Item, ParserErr>)
        requires
            old(self).wf(),
        ensures
            Self::steps(old(self), final(self)),
            Self::advanced(old(self), final(self), r),
            r matches Ok(item) ==> item is OpTrait,
            r matches Ok(item) ==> match item {
                Item::OpTrait(o) => {
                    &&& old(self).peek_spec(0) == Some(Token::WeakKw(WeakKeyword::Op))
                    &&& old(self).peek_spec(1) == Some(Token::StrongKw(StrongKeyword::Trait))
                    &&& match *o {
                        OpTrait::Base { attrs: a, vis: v, name, precedence, .. } => {
                            &&& a == attrs && v == vis
                            &&& old(self).peek_spec(2) matches Some(t) && old(self).name_of(t) == Some(name)
                            &&& old(self).peek_spec(3) != Some(Token::Punctuation(Punctuation::Colon))
                            &&& (precedence is Some <==> old(self).peek_spec(3) == Some(Token::Punctuation(Punctuation::Or)))
                            &&& precedence matches Some(pr) ==> old(self).name_of(old(self).peek_spec(4)->0) == Some(pr)
                        },
                        OpTrait::Extended { attrs: a, vis: v, name, bases, .. } => {
                            &&& a == attrs && v == vis
                            &&& old(self).peek_spec(2) matches Some(t) && old(self).name_of(t) == Some(name)
                            &&& old(self).peek_spec(3) == Some(Token::Punctuation(Punctuation::Colon))
                            &&& bases@.len() > 0
                            &&& old(self).separated_names(old(self).pos() + 4, Token::Punctuation(Punctuation::Ampersand),
                                bases@.map_values(|b: (NameId, SpanId)| b.0))
                        },
                    }
                },
                _ => false,
            },
            r matches Ok(item) ==> Self::fresh(old(self), final(self), item.spec_node_id()),
        decreases old(self).tokens().len() - old(self).pos(), 0nat,
    {
        let begin = self.cur_span()?;
        self.consume_weak_kw(WeakKeyword::Op)?;
        self.consume_strong_kw(StrongKeyword::Trait)?;
        let name = self.consume_name()?;

        let mut bases: Vec<(NameId, SpanId)> = Vec::new();
        let mut precedence: Option<NameId> = None;
        if self.try_consume(Token::Punctuation(Punctuation::Colon)) {
            let ghost first = self.pos();
            loop
                invariant_except_break
                    self.pos() == first + 2 * bases@.len(),
                    bases@.len() > 0 ==> self.tokens()[Parser::name_slot(first, bases@.len() - 1) + 1] == Token::Punctuation(Punctuation::Ampersand),
                invariant
                    Self::steps(old(self), self),
                    self.pos() > old(self).pos(),
                    first == old(self).pos() + 4,
                    old(self).separated_names(first, Token::Punctuation(Punctuation::Ampersand), bases@.map_values(|b: (NameId, SpanId)| b.0)),
                ensures
                    Self::steps(old(self), self),
                    self.pos() > old(self).pos(),
                    bases@.len() > 0,
                    old(self).separated_names(first, Token::Punctuation(Punctuation::Ampersand), bases@.map_values(|b: (NameId, SpanId)| b.0)),
                decreases self.tokens().len() - self.pos(),
            {
                let ghost before = bases@.map_values(|b: (NameId, SpanId)| b.0);
                let base = self.consume_name_and_span()?;
                bases.push(base);
                proof {
                    let all = bases@.map_values(|b: (NameId, SpanId)| b.0);
                    assert(all[before.len() as int] == base.0);
                    assert(old(self).name_of(old(self).tokens()[Parser::name_slot(first, before.len() as int)]) == Some(base.0));
                    assert forall|j: int| 0 <= j < all.len() implies
                        old(self).name_of(#[trigger] old(self).tokens()[Parser::name_slot(first, j)]) == Some(all[j]) by {
                        if j < before.len() {
                            assert(all[j] == before[j]);
                        }
                    }
                    assert forall|j: int| 0 <= j < all.len() - 1 implies
                        #[trigger] old(self).tokens()[Parser::name_slot(first, j) + 1] == Token::Punctuation(Punctuation::Ampersand) by {
                        if j < before.len() - 1 {
                            assert(all[j] == before[j]);
                        }
                    }
                }
                if !self.try_consume(Token::Punctuation(Punctuation::Ampersand)) {
                    break;
                }
            }
        } else if self.try_consume(Token::Punctuation(Punctuation::Or)) {
            precedence = Some(self.consume_name()?);
        }

        self.begin_scope(OpenCloseSymbol::Brace)?;
        let mut elems: Vec<OpElem> = Vec::new();
        while !self.try_end_scope()
            invariant
                Self::steps(old(self), self),
                self.pos() > old(self).pos(),
            decreases self.tokens().len() - self.pos(),
        {
            let elem = self.parse_op_elem()?;
            elems.push(elem);
            if !self.try_consume(Token::Punctuation(Punctuation::Comma)) {
                self.end_scope()?;
                break;
            }
        }

        let span = self.get_span_to_current(begin);
        if bases.len() != 0 {
            Ok(Item::OpTrait(self.add_node(OpTrait::Extended { span, node_id: NodeId::default(), attrs, vis, name, bases, elems })))
        } else {
            Ok(Item::OpTrait(self.add_node(OpTrait::Base { span, node_id: NodeId::default(), attrs, vis, name, precedence, elems })))
        }
    }

    pub(crate) fn parse_op_elem(&mut self) -> (r: Result<OpElem, ParserErr>)
        requires
            old(self).wf(),
        ensures
            Self::steps(old(self), final(self)),
            Self::advanced(old(self), final(self), r),
            r matches Ok(e) ==> match e {
                OpElem::Contract { .. } => old(self).peek_spec(0) == Some(Token::WeakKw(WeakKeyword::Invar)),
                OpElem::Def { op_type, op, name, ret, .. } => {
                    &&& old(self).peek_spec(0) matches Some(t) && op_type_keyword(t) == Some(op_type)
                    &&& old(self).peek_spec(1) == Some(Token::WeakKw(WeakKeyword::Op))
                    &&& old(self).peek_spec(2) == Some(Token::Punctuation(op))
                    &&& old(self).peek_spec(3) == Some(Token::Punctuation(Punctuation::Colon))
                    &&& old(self).peek_spec(4) matches Some(t) && old(self).name_of(t) == Some(name)
                    &&& (ret is Some <==> old(self).peek_spec(5) == Some(Token::Punctuation(Punctuation::SingleArrowR)))
                },
            },
            (old(self).peek_spec(0) matches Some(t) && t != Token::WeakKw(WeakKeyword::Invar) && op_type_keyword(t) is None)
                ==> (r matches Err(e) && e.err == ParseErrorCode::UnexpectedFor { found: old(self).peek_spec(0)->0, for_reason: "operator type" }),
        decreases old(self).tokens().len() - old(self).pos(), 0nat,
    {
        let begin = self.cur_span()?;
        if self.try_consume(Token::WeakKw(WeakKeyword::Invar)) {
            self.peek()?;
            self.push_meta_frame();
            let block_begin = self.get_cur_span();
            let expr = self.parse_block_expr(block_begin, None)?;
            let span = self.get_span_to_current(begin);
            return Ok(OpElem::Contract { span, expr });
        }

        let peek = self.peek()?;
        self.consume_single();
        let op_type = match peek {
            Token::WeakKw(WeakKeyword::Prefix) => OpType::Prefix,
            Token::WeakKw(WeakKeyword::Postfix) => OpType::Postfix,
            Token::WeakKw(WeakKeyword::Infix) => OpType::Infix,
            Token::WeakKw(WeakKeyword::Assign) => OpType::Assign,
            _ => return Err(self.gen_error(ParseErrorCode::UnexpectedFor { found: peek, for_reason: "operator type" })),
        };

        self.consume_weak_kw(WeakKeyword::Op)?;
        let op = self.consume_any_punct()?;

        self.consume_punct(Punctuation::Colon)?;

        let name = self.consume_name()?;
        let ret = if self.try_consume(Token::Punctuation(Punctuation::SingleArrowR)) {
            Some(self.parse_type()?)
        } else {
            None
        };
        let def = if self.try_consume(Token::Punctuation(Punctuation::Equals)) {
            Some(self.parse_expr(ExprParseMode::General)?)
        } else {
            None
        };

        let span = self.get_span_to_current(begin);
        Ok(OpElem::Def { span, op_type, op, name, ret, def })
    }

    /// Names, comma separated between braces.
    /// Names between braces, separated by commas, with an optional comma
    /// after the last.
    pub(crate) fn parse_braced_names(&mut self) -> (r: Result<Vec<NameId>, ParserErr>)
        requires
            old(self).wf(),
        ensures
            Self::steps(old(self), final(self)),
            Self::advanced(old(self), final(self), r),
            final(self).node_meta() == old(self).node_meta(),
            r is Ok ==> final(self).scopes() == old(self).scopes(),
            r matches Ok(names) ==> old(self).braced_names_at(old(self).pos(), final(self).pos(), names@),
    {
        self.begin_scope(OpenCloseSymbol::Brace)?;
        let ghost start = old(self).pos() + 1;
        let mut names: Vec<NameId> = Vec::new();
        while !self.try_end_scope()
            invariant_except_break
                self.pos() == start + 2 * names@.len(),
                names@.len() > 0 ==> self.tokens()[Self::name_slot(start, names@.len() - 1) + 1] == Token::Punctuation(Punctuation::Comma),
                self.scopes() == old(self).scopes().push(OpenCloseSymbol::Brace),
            invariant
                Self::steps(old(self), self),
                self.node_meta() == old(self).node_meta(),
                self.pos() > old(self).pos(),
                start == old(self).pos() + 1,
                old(self).peek_spec(0) == Some(Token::OpenSymbol(OpenCloseSymbol::Brace)),
                old(self).separated_names(start, Token::Punctuation(Punctuation::Comma), names@),
            ensures
                Self::steps(old(self), self),
                self.node_meta() == old(self).node_meta(),
                self.scopes() == old(self).scopes(),
                old(self).peek_spec(0) == Some(Token::OpenSymbol(OpenCloseSymbol::Brace)),
                old(self).separated_names(start, Token::Punctuation(Punctuation::Comma), names@),
                self.tokens()[self.pos() - 1] == Token::CloseSymbol(OpenCloseSymbol::Brace),
                (self.pos() == start + 2 * names@.len() && names@.len() > 0)
                    || (self.pos() == start + 2 * names@.len() + 1
                        && (names@.len() > 0 ==> self.tokens()[self.pos() - 2] == Token::Punctuation(Punctuation::Comma))),
            decreases self.tokens().len() - self.pos(),
        {
            let ghost before = names@;
            let name = self.consume_name()?;
            names.push(name);
            proof {
                assert(old(self).name_of(old(self).tokens()[Self::name_slot(start, before.len() as int)]) == Some(name));
                assert forall|j: int| 0 <= j < names@.len() implies
                    old(self).name_of(#[trigger] old(self).tokens()[Self::name_slot(start, j)]) == Some(names@[j]) by {
                    if j < before.len() {
                        assert(names@[j] == before[j]);
                    }
                }
                assert forall|j: int| 0 <= j < names@.len() - 1 implies
                    #[trigger] old(self).tokens()[Self::name_slot(start, j) + 1] == Token::Punctuation(Punctuation::Comma) by {
                    if j < before.len() - 1 {
                        assert(names@[j] == before[j]);
                    }
                }
            }
            if !self.try_consume(Token::Punctuation(Punctuation::Comma)) {
                self.end_scope()?;
                break;
            }
        }
        Ok(names)
    }

    pub(crate) fn parse_op_use(&mut self, attrs: Vec<AstNodeRef<Attribute>>, vis: Option<AstNodeRef<Visibility>>) -> (r: Result<Item, ParserErr>)
        requires
            old(self).wf(),
        ensures
            Self::steps(old(self), final(self)),
            Self::advanced(old(self), final(self), r),
            r matches Ok(item) ==> item is OpUse,
            r matches Ok(item) ==> Self::fresh(old(self), final(self), item.spec_node_id()),
            r matches Ok(item) ==> match item {
                Item::OpUse(u) => {
                    &&& old(self).peek_spec(0) == Some(Token::WeakKw(WeakKeyword::Op))
                    &&& old(self).peek_spec(1) == Some(Token::StrongKw(StrongKeyword::Use))
                    &&& exists|e: int| #[trigger] old(self).import_source_at(old(self).pos() + 2, e, u.group, u.package, u.library)
                        && ((e == final(self).pos() && u.op_sets@.len() == 0
                                && !(e < old(self).tokens().len() && old(self).tokens()[e] == Token::Punctuation(Punctuation::Dot)))
                            || (old(self).tokens()[e] == Token::Punctuation(Punctuation::Dot)
                                && old(self).braced_names_at(e + 1, final(self).pos(), u.op_sets@)))
                },
                _ => false,
            },
    {
        let begin = self.cur_span()?;
        self.consume_weak_kw(WeakKeyword::Op)?;
        self.consume_strong_kw(StrongKeyword::Use)?;

        let (group, package, library) = self.parse_import_source()?;
        let ghost e = self.pos();
        assert(old(self).import_source_at(old(self).pos() + 2, e, group, package, library));

        let op_sets = if self.try_consume(Token::Punctuation(Punctuation::Dot)) {
            self.parse_braced_names()?
        } else {
            Vec::new()
        };

        let span = self.get_span_to_current(begin);
        Ok(Item::OpUse(self.add_node(OpUse { span, node_id: NodeId::default(), group, package, library, op_sets })))
    }

    /// The associativity a precedence names: `none`, `left` or `right`.
    /// After the current token, a colon and a name that stands for no associativity.
    pub open spec fn names_unknown_associativity(&self) -> bool {
        &&& self.peek_spec(0) is Some
        &&& self.peek_spec(1) == Some(Token::Punctuation(Punctuation::Colon))
        &&& self.peek_spec(2) matches Some(t) && self.name_of(t) matches Some(id)
            && self.name_text(id) matches Some(text) && associativity_kind(text) is None
    }

    /// `associativity: none|left|right`, the keyword being the current token.
    pub(crate) fn parse_precedence_associativity(&mut self) -> (r: Result<PrecedenceAssociativity, ParserErr>)
        requires
            old(self).wf(),
        ensures
            Self::steps(old(self), final(self)),
            Self::advanced(old(self), final(self), r),
            final(self).node_meta() == old(self).node_meta(),
            final(self).scopes() == old(self).scopes(),
            r matches Ok(a) ==> {
                &&& old(self).peek_spec(1) == Some(Token::Punctuation(Punctuation::Colon))
                &&& old(self).peek_spec(2) matches Some(t) && old(self).name_of(t) matches Some(id)
                    && old(self).name_text(id) matches Some(text) && associativity_kind(text) == Some(a.kind)
                &&& final(self).pos() == old(self).pos() + 3
            },
            old(self).names_unknown_associativity() ==> (r matches Err(e)
                && e.err matches ParseErrorCode::InvalidPrecedenceAssoc { name }
                && old(self).name_text(old(self).name_of(old(self).peek_spec(2)->0)->0) == Some(name@)),
    {
        let begin = self.cur_span()?;
        self.consume_single();
        self.consume_punct(Punctuation::Colon)?;
        let name_id = self.consume_name()?;
        let text = match self.name_string(name_id) {
            Some(text) => text,
            None => return Err(self.gen_error(ParseErrorCode::InternalError("name outside the name table"))),
        };
        let kind = if *text == String::from_str("none") {
            PrecedenceAssociativityKind::NonAssoc
        } else if *text == String::from_str("left") {
            PrecedenceAssociativityKind::Left
        } else if *text == String::from_str("right") {
            PrecedenceAssociativityKind::Right
        } else {
            return Err(self.gen_error(ParseErrorCode::InvalidPrecedenceAssoc { name: text.clone() }));
        };

        let span = self.get_span_to_current(begin);
        Ok(PrecedenceAssociativity { span, kind })
    }

    pub(crate) fn parse_precedence(&mut self, attrs: Vec<AstNodeRef<Attribute>>, vis: Option<AstNodeRef<Visibility>>) -> (r: Result<Item, ParserErr>)
        requires
            old(self).wf(),
        ensures
            Self::steps(old(self), final(self)),
            Self::advanced(old(self), final(self), r),
            r matches Ok(item) ==> item is Precedence,
            r matches Ok(Item::Precedence(n)) ==> {
                &&& old(self).peek_spec(0) == Some(Token::WeakKw(WeakKeyword::Precedence))
                &&& old(self).peek_spec(1) matches Some(t) && old(self).name_of(t) == Some(n.name)
                &&& old(self).peek_spec(2) == Some(Token::OpenSymbol(OpenCloseSymbol::Brace))
                &&& final(self).tokens()[final(self).pos() - 1] == Token::CloseSymbol(OpenCloseSymbol::Brace)
                &&& n.attrs == attrs
                &&& n.vis == vis
            },
            r matches Ok(item) ==> Self::fresh(old(self), final(self), item.spec_node_id()),
    {
        let begin = self.cur_span()?;
        self.consume_weak_kw(WeakKeyword::Precedence)?;
        let name = self.consume_name()?;

        let mut higher_than: Option<(NameId, SpanId)> = None;
        let mut lower_than: Option<(NameId, SpanId)> = None;
        let mut associativity: Option<PrecedenceAssociativity> = None;

        self.begin_scope(OpenCloseSymbol::Brace)?;
        while !self.try_end_scope()
            invariant_except_break
                self.scopes().len() > 0 && self.scopes().last() == OpenCloseSymbol::Brace,
            invariant
                Self::steps(old(self), self),
                self.pos() > old(self).pos(),
            ensures
                Self::steps(old(self), self),
                self.pos() > old(self).pos(),
                self.tokens()[self.pos() - 1] == Token::CloseSymbol(OpenCloseSymbol::Brace),
            decreases self.tokens().len() - self.pos(),
        {
            let peek = self.peek()?;
            match peek {
                Token::WeakKw(WeakKeyword::HigherThan) => {
                    self.consume_single();
                    self.consume_punct(Punctuation::Colon)?;
                    higher_than = Some(self.consume_name_and_span()?);
                },
                Token::WeakKw(WeakKeyword::LowerThan) => {
                    self.consume_single();
                    self.consume_punct(Punctuation::Colon)?;
                    lower_than = Some(self.consume_name_and_span()?);
                },
                Token::WeakKw(WeakKeyword::Associativity) => {
                    associativity = Some(self.parse_precedence_associativity()?);
                },
                Token::Punctuation(Punctuation::Comma) => {
                    self.consume_single();
                },
                _ => return Err(self.gen_error(ParseErrorCode::UnexpectedFor { found: peek, for_reason: "precedence" })),
            }
            if !self.try_consume(Token::Punctuation(Punctuation::Comma)) {
                self.end_scope()?;
                break;
            }
        }

        let span = self.get_span_to_current(begin);
        Ok(Item::Precedence(self.add_node(Precedence {
            span,
            node_id: NodeId::default(),
            attrs,
            vis,
            name,
            higher_than,
            lower_than,
            associativity,
        })))
    }

    pub(crate) fn parse_precedence_use(&mut self, attrs: Vec<AstNodeRef<Attribute>>, vis: Option<AstNodeRef<Visibility>>) -> (r: Result<Item, ParserErr>)
        requires
            old(self).wf(),
        ensures
            Self::steps(old(self), final(self)),
            Self::advanced(old(self), final(self), r),
            r matches Ok(item) ==> item is PrecedenceUse,
            r matches Ok(item) ==> Self::fresh(old(self), final(self), item.spec_node_id()),
            r matches Ok(item) ==> match item {
                Item::PrecedenceUse(u) => {
                    &&& old(self).peek_spec(0) == Some(Token::WeakKw(WeakKeyword::Precedence))
                    &&& old(self).peek_spec(1) == Some(Token::StrongKw(StrongKeyword::Use))
                    &&& exists|e: int| #[trigger] old(self).import_source_at(old(self).pos() + 2, e, u.group, u.package, u.library)
                        && ((e == final(self).pos() && u.precedences@.len() == 0
                                && !(e < old(self).tokens().len() && old(self).tokens()[e] == Token::Punctuation(Punctuation::Dot)))
                            || (old(self).tokens()[e] == Token::Punctuation(Punctuation::Dot)
                                && old(self).braced_names_at(e + 1, final(self).pos(), u.precedences@)))
                },
                _ => false,
            },
    {
        let begin = self.cur_span()?;
        self.consume_weak_kw(WeakKeyword::Precedence)?;
        self.consume_strong_kw(StrongKeyword::Use)?;

        let (group, package, library) = self.parse_import_source()?;
        let ghost e = self.pos();
        assert(old(self).import_source_at(old(self).pos() + 2, e, group, package, library));

        let precedences = if self.try_consume(Token::Punctuation(Punctuation::Dot)) {
            self.parse_braced_names()?
        } else {
            Vec::new()
        };

        let span = self.get_span_to_current(begin);
        Ok(Item::PrecedenceUse(self.add_node(PrecedenceUse { span, node_id: NodeId::default(), group, package, library, precedences })))
    }

    /// Contracts are not supported yet: this always fails.
    pub(crate) fn parse_contract(&mut self) -> (r: Result<AstNodeRef<Contract>, ParserErr>)
        requires
            old(self).wf(),
        ensures
            Self::steps(old(self), final(self)),
            r is Err,
            r matches Err(e) ==> e.tok_idx == final(self).pos(),
            final(self).pos() == old(self).pos(),
    {
        Err(self.gen_error(ParseErrorCode::NotYetSupported { what: "contracts" }))
    }
}

} // verus!
