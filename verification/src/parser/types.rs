//! Types, generic parameters and arguments, where clauses and bounds.

use vstd::prelude::*;
use crate::ast::{
    ArrayType, AstNode, AstNodeRef, EnumRecordType, EnumVariant, Expr, FnType, GenericArg, GenericArgs,
    GenericConstParam, GenericConstSpec, GenericParam, GenericParamPack, GenericParamPackDef,
    GenericParamPackDesc, GenericParams, GenericTypeBound, GenericTypeParam, GenericTypeSpec, NeverType,
    NodeId, OptionalType, ParenthesizedType, PathType, PointerType, PrimitiveType, RecordType,
    ReferenceType, RegStructField, SliceType, StringSliceType, TraitBounds, TraitPath, TupleType, Type,
    UnitType, WhereBound, WhereClause,
};
use crate::common::{NameId, SpanId};
use crate::lexer::{OpenCloseSymbol, Punctuation, StrongKeyword, Token};
use crate::type_system;
use super::{ExprParseMode, ParseErrorCode, Parser, ParserErr, group_parser_steps};

verus! {

broadcast use group_parser_steps;

/// The primitive type that a keyword names, where it names one.
pub open spec fn keyword_primitive(kw: StrongKeyword) -> Option<type_system::PrimitiveType> {
    match kw {
        StrongKeyword::U8 => Some(type_system::PrimitiveType::U8),
        StrongKeyword::U16 => Some(type_system::PrimitiveType::U16),
        StrongKeyword::U32 => Some(type_system::PrimitiveType::U32),
        StrongKeyword::U64 => Some(type_system::PrimitiveType::U64),
        StrongKeyword::U128 => Some(type_system::PrimitiveType::U128),
        StrongKeyword::Usize => Some(type_system::PrimitiveType::Usize),
        StrongKeyword::I8 => Some(type_system::PrimitiveType::I8),
        StrongKeyword::I16 => Some(type_system::PrimitiveType::I16),
        StrongKeyword::I32 => Some(type_system::PrimitiveType::I32),
        StrongKeyword::I64 => Some(type_system::PrimitiveType::I64),
        StrongKeyword::I128 => Some(type_system::PrimitiveType::I128),
        StrongKeyword::Isize => Some(type_system::PrimitiveType::Isize),
        StrongKeyword::F16 => Some(type_system::PrimitiveType::F16),
        StrongKeyword::F32 => Some(type_system::PrimitiveType::F32),
        StrongKeyword::F64 => Some(type_system::PrimitiveType::F64),
        StrongKeyword::F128 => Some(type_system::PrimitiveType::F128),
        StrongKeyword::Bool => Some(type_system::PrimitiveType::Bool),
        StrongKeyword::B8 => Some(type_system::PrimitiveType::B8),
        StrongKeyword::B16 => Some(type_system::PrimitiveType::B16),
        StrongKeyword::B32 => Some(type_system::PrimitiveType::B32),
        StrongKeyword::B64 => Some(type_system::PrimitiveType::B64),
        StrongKeyword::Char => Some(type_system::PrimitiveType::Char),
        StrongKeyword::Char7 => Some(type_system::PrimitiveType::Char7),
        StrongKeyword::Char8 => Some(type_system::PrimitiveType::Char8),
        StrongKeyword::Char16 => Some(type_system::PrimitiveType::Char16),
        StrongKeyword::Char32 => Some(type_system::PrimitiveType::Char32),
        _ => None,
    }
}

/// The string slice type that a keyword names, where it names one.
pub open spec fn keyword_string_slice(kw: StrongKeyword) -> Option<type_system::StringSliceType> {
    match kw {
        StrongKeyword::Str => Some(type_system::StringSliceType::Str),
        StrongKeyword::Str7 => Some(type_system::StringSliceType::Str7),
        StrongKeyword::Str8 => Some(type_system::StringSliceType::Str8),
        StrongKeyword::Str16 => Some(type_system::StringSliceType::Str16),
        StrongKeyword::Str32 => Some(type_system::StringSliceType::Str32),
        StrongKeyword::CStr => Some(type_system::StringSliceType::CStr),
        _ => None,
    }
}

impl<'a> Parser<'a> {
    /// The nodes of `nodes` were all registered between `old` and `new`, each
    /// after the ones before it: they stand in the order their tokens came.
    pub open spec fn in_source_order<T: AstNode>(old: &Self, new: &Self, nodes: Seq<T>) -> bool {
        &&& forall|k: int| 0 <= k < nodes.len() ==>
            old.node_meta().len() <= #[trigger] nodes[k].spec_node_id().spec_index() < new.node_meta().len()
        &&& forall|a: int, b: int| 0 <= a < b < nodes.len() ==>
            #[trigger] nodes[a].spec_node_id().spec_index() < #[trigger] nodes[b].spec_node_id().spec_index()
    }

    /// A node registered after the ones of an ordered list keeps it ordered
    /// when it is added at the end.
    pub proof fn lemma_in_source_order_push<T: AstNode>(old: &Self, new: &Self, nodes: Seq<T>, node: T)
        requires
            nodes.len() == 0 || nodes.last().spec_node_id().spec_index() < node.spec_node_id().spec_index(),
            forall|k: int| 0 <= k < nodes.len() ==>
                old.node_meta().len() <= #[trigger] nodes[k].spec_node_id().spec_index() < node.spec_node_id().spec_index(),
            forall|a: int, b: int| 0 <= a < b < nodes.len() ==>
                #[trigger] nodes[a].spec_node_id().spec_index() < #[trigger] nodes[b].spec_node_id().spec_index(),
            old.node_meta().len() <= node.spec_node_id().spec_index() < new.node_meta().len(),
        ensures
            Self::in_source_order(old, new, nodes.push(node)),
    {
        let all = nodes.push(node);
        assert forall|k: int| 0 <= k < all.len() implies
            old.node_meta().len() <= #[trigger] all[k].spec_node_id().spec_index() < new.node_meta().len() by {
            if k < nodes.len() {
                assert(all[k] == nodes[k]);
            }
        }
        assert forall|a: int, b: int| 0 <= a < b < all.len() implies
            #[trigger] all[a].spec_node_id().spec_index() < #[trigger] all[b].spec_node_id().spec_index() by {
            assert(all[a] == nodes[a]);
            if b < nodes.len() {
                assert(all[b] == nodes[b]);
            }
        }
    }

    pub(crate) fn parse_type(&mut self) -> (r: Result<Type, ParserErr>)
        requires
            old(self).wf(),
        ensures
            r matches Ok(t) ==> Self::fresh(old(self), final(self), t.spec_node_id()),
            Self::steps(old(self), final(self)),
            Self::advanced(old(self), final(self), r),
            old(self).peek_spec(0) == Some(Token::StrongKw(StrongKeyword::Dyn)) ==> r is Err,
            old(self).peek_spec(0) == Some(Token::StrongKw(StrongKeyword::Impl)) ==> r is Err,
            r matches Ok(t) ==> match old(self).peek_spec(0)->0 {
                Token::OpenSymbol(OpenCloseSymbol::Paren) => t is Paren || t is Tuple || t is Unit,
                Token::Punctuation(Punctuation::Exclaim) => t is Never,
                Token::OpenSymbol(OpenCloseSymbol::Bracket) => t is Array || t is Pointer || t is Slice,
                Token::Punctuation(Punctuation::Caret) => t is Pointer,
                Token::Punctuation(Punctuation::Ampersand) => t is Ref,
                Token::Punctuation(Punctuation::Question) => t is Optional,
                Token::StrongKw(StrongKeyword::Unsafe) | Token::StrongKw(StrongKeyword::Extern)
                    | Token::StrongKw(StrongKeyword::Fn) => t is Fn,
                Token::StrongKw(StrongKeyword::Enum) => t is EnumRecord,
                Token::StrongKw(StrongKeyword::Struct) => t is Record,
                Token::StrongKw(StrongKeyword::SelfTy) => t is Path,
                Token::StrongKw(kw) => match keyword_primitive(kw) {
                    Some(prim) => t matches Type::Primitive(n) && n.ty == prim,
                    None => keyword_string_slice(kw) matches Some(slice) && t matches Type::StringSlice(n) && n.ty == slice,
                },
                _ => t is Path,
            },
        decreases old(self).tokens().len() - old(self).pos(), 5nat,
    {
        let peek = self.peek()?;
        match peek {
            Token::StrongKw(StrongKeyword::Dyn) => Err(self.gen_error(ParseErrorCode::NotYetSupported { what: "'dyn' types" })),
            Token::StrongKw(StrongKeyword::Impl) => Err(self.gen_error(ParseErrorCode::NotYetSupported { what: "'impl' types" })),
            _ => self.parse_type_no_bounds(),
        }
    }

    pub(crate) fn parse_type_no_bounds(&mut self) -> (r: Result<Type, ParserErr>)
        requires
            old(self).wf(),
        ensures
            r matches Ok(t) ==> Self::fresh(old(self), final(self), t.spec_node_id()),
            Self::steps(old(self), final(self)),
            Self::advanced(old(self), final(self), r),
            r matches Ok(t) ==> match old(self).peek_spec(0)->0 {
                Token::OpenSymbol(OpenCloseSymbol::Paren) => t is Paren || t is Tuple || t is Unit,
                Token::Punctuation(Punctuation::Exclaim) => t is Never,
                Token::OpenSymbol(OpenCloseSymbol::Bracket) => t is Array || t is Pointer || t is Slice,
                Token::Punctuation(Punctuation::Caret) => t is Pointer,
                Token::Punctuation(Punctuation::Ampersand) => t is Ref,
                Token::Punctuation(Punctuation::Question) => t is Optional,
                Token::StrongKw(StrongKeyword::Unsafe) | Token::StrongKw(StrongKeyword::Extern)
                    | Token::StrongKw(StrongKeyword::Fn) => t is Fn,
                Token::StrongKw(StrongKeyword::Enum) => t is EnumRecord,
                Token::StrongKw(StrongKeyword::Struct) => t is Record,
                Token::StrongKw(StrongKeyword::SelfTy) => t is Path,
                Token::StrongKw(kw) => match keyword_primitive(kw) {
                    Some(prim) => t matches Type::Primitive(n) && n.ty == prim,
                    None => keyword_string_slice(kw) matches Some(slice) && t matches Type::StringSlice(n) && n.ty == slice,
                },
                _ => t is Path,
            },
        decreases old(self).tokens().len() - old(self).pos(), 4nat,
    {
        let peek = self.peek()?;
        self.push_meta_frame();
        let span = self.get_cur_span();
        match peek {
            Token::OpenSymbol(OpenCloseSymbol::Paren) => self.parse_tuple_like_type(),
            Token::Punctuation(Punctuation::Exclaim) => {
                self.consume_single();
                Ok(Type::Never(self.add_node(NeverType { span, node_id: NodeId::default() })))
            },
            Token::OpenSymbol(OpenCloseSymbol::Bracket) => self.parse_slice_like_type(),
            Token::Punctuation(Punctuation::Caret) => self.parse_pointer_type(),
            Token::Punctuation(Punctuation::Ampersand) => self.parse_reference_type(),
            Token::Punctuation(Punctuation::Question) => self.parse_optional_type(),
            Token::StrongKw(StrongKeyword::Unsafe) | Token::StrongKw(StrongKeyword::Extern) | Token::StrongKw(StrongKeyword::Fn) => self.parse_fn_type(),
            Token::StrongKw(StrongKeyword::Enum) => self.parse_enum_record_type(),
            Token::StrongKw(StrongKeyword::Struct) => self.parse_record_type(),
            Token::StrongKw(StrongKeyword::SelfTy) => self.parse_path_type(),
            Token::StrongKw(kw) => self.parse_type_from_strong_kw(span, kw),
            _ => self.parse_path_type(),
        }
    }

    /// A primitive or string slice type named by the keyword `kw` at the cursor.
    pub(crate) fn parse_primitive_type(&mut self, kw: StrongKeyword) -> (r: Result<Type, ParserErr>)
        requires
            old(self).wf(),
            old(self).peek_spec(0) == Some(Token::StrongKw(kw)),
        ensures
            r matches Ok(t) ==> Self::fresh(old(self), final(self), t.spec_node_id()),
            Self::steps(old(self), final(self)),
            Self::advanced(old(self), final(self), r),
            r is Ok <==> kw.spec_primitive_index() is Some,
    {
        self.push_meta_frame();
        let span = self.get_cur_span();
        self.parse_type_from_strong_kw(span, kw)
    }

    pub(crate) fn parse_tuple_like_type(&mut self) -> (r: Result<Type, ParserErr>)
        requires
            old(self).wf(),
        ensures
            r matches Ok(t) ==> Self::fresh(old(self), final(self), t.spec_node_id()),
            Self::steps(old(self), final(self)),
            Self::advanced(old(self), final(self), r),
            r matches Ok(t) ==> (t is Paren || t is Tuple || t is Unit),
            r matches Ok(t) ==> old(self).peek_spec(0) == Some(Token::OpenSymbol(OpenCloseSymbol::Paren)),
            r matches Ok(Type::Paren(n)) ==> Self::fresh(old(self), final(self), n.ty.spec_node_id()),
            r matches Ok(Type::Tuple(n)) ==> n.types@.len() >= 2 && Self::in_source_order(old(self), final(self), n.types@),
        decreases old(self).tokens().len() - old(self).pos(), 0nat,
    {
        let begin = self.cur_span()?;
        self.begin_scope(OpenCloseSymbol::Paren)?;
        let mut types: Vec<Type> = Vec::new();
        while !self.try_end_scope()
            invariant
                Self::steps(old(self), self),
                self.pos() > old(self).pos(),
                Self::in_source_order(old(self), self, types@),
            decreases self.tokens().len() - self.pos(),
        {
            let ghost mid = *self;
            let ghost before = types@;
            let ty = self.parse_type()?;
            types.push(ty);
            proof {
                assert forall|k: int| 0 <= k < types@.len() implies
                    old(self).node_meta().len() <= #[trigger] types@[k].spec_node_id().spec_index() < self.node_meta().len() by {
                    if k < before.len() {
                        assert(types@[k] == before[k]);
                    }
                }
                assert forall|a: int, b: int| 0 <= a < b < types@.len() implies
                    #[trigger] types@[a].spec_node_id().spec_index() < #[trigger] types@[b].spec_node_id().spec_index() by {
                    assert(types@[a] == before[a]);
                    if b < before.len() {
                        assert(types@[b] == before[b]);
                    }
                }
            }
            if !self.try_consume(Token::Punctuation(Punctuation::Comma)) {
                self.end_scope()?;
                break;
            }
        }
        let span = self.get_span_to_current(begin);
        if types.len() == 0 {
            Ok(Type::Unit(self.add_node(UnitType { span, node_id: NodeId::default() })))
        } else if types.len() == 1 {
            let ty = types.remove(0);
            Ok(Type::Paren(self.add_node(ParenthesizedType { span, node_id: NodeId::default(), ty })))
        } else {
            Ok(Type::Tuple(self.add_node(TupleType { span, node_id: NodeId::default(), types })))
        }
    }

    /// The type named by a strong keyword; consumes the keyword.
    pub(crate) fn parse_type_from_strong_kw(&mut self, span: SpanId, kw: StrongKeyword) -> (r: Result<Type, ParserErr>)
        requires
            old(self).wf(),
            old(self).peek_spec(0) == Some(Token::StrongKw(kw)),
        ensures
            r matches Ok(t) ==> Self::fresh(old(self), final(self), t.spec_node_id()),
            Self::steps(old(self), final(self)),
            Self::advanced(old(self), final(self), r),
            r is Ok <==> kw.spec_primitive_index() is Some,
            r matches Ok(t) ==> match keyword_primitive(kw) {
                Some(prim) => t matches Type::Primitive(n) && n.ty == prim && n.span == span
                    && Self::fresh(old(self), final(self), n.spec_node_id()),
                None => keyword_string_slice(kw) matches Some(slice) && t matches Type::StringSlice(n)
                    && n.ty == slice && n.span == span && Self::fresh(old(self), final(self), n.spec_node_id()),
            },
    {
        let prim = match kw {
            StrongKeyword::U8 => Some(type_system::PrimitiveType::U8),
            StrongKeyword::U16 => Some(type_system::PrimitiveType::U16),
            StrongKeyword::U32 => Some(type_system::PrimitiveType::U32),
            StrongKeyword::U64 => Some(type_system::PrimitiveType::U64),
            StrongKeyword::U128 => Some(type_system::PrimitiveType::U128),
            StrongKeyword::Usize => Some(type_system::PrimitiveType::Usize),
            StrongKeyword::I8 => Some(type_system::PrimitiveType::I8),
            StrongKeyword::I16 => Some(type_system::PrimitiveType::I16),
            StrongKeyword::I32 => Some(type_system::PrimitiveType::I32),
            StrongKeyword::I64 => Some(type_system::PrimitiveType::I64),
            StrongKeyword::I128 => Some(type_system::PrimitiveType::I128),
            StrongKeyword::Isize => Some(type_system::PrimitiveType::Isize),
            StrongKeyword::F16 => Some(type_system::PrimitiveType::F16),
            StrongKeyword::F32 => Some(type_system::PrimitiveType::F32),
            StrongKeyword::F64 => Some(type_system::PrimitiveType::F64),
            StrongKeyword::F128 => Some(type_system::PrimitiveType::F128),
            StrongKeyword::Bool => Some(type_system::PrimitiveType::Bool),
            StrongKeyword::B8 => Some(type_system::PrimitiveType::B8),
            StrongKeyword::B16 => Some(type_system::PrimitiveType::B16),
            StrongKeyword::B32 => Some(type_system::PrimitiveType::B32),
            StrongKeyword::B64 => Some(type_system::PrimitiveType::B64),
            StrongKeyword::Char => Some(type_system::PrimitiveType::Char),
            StrongKeyword::Char7 => Some(type_system::PrimitiveType::Char7),
            StrongKeyword::Char8 => Some(type_system::PrimitiveType::Char8),
            StrongKeyword::Char16 => Some(type_system::PrimitiveType::Char16),
            StrongKeyword::Char32 => Some(type_system::PrimitiveType::Char32),
            _ => None,
        };
        let string_slice = match kw {
            StrongKeyword::Str => Some(type_system::StringSliceType::Str),
            StrongKeyword::Str7 => Some(type_system::StringSliceType::Str7),
            StrongKeyword::Str8 => Some(type_system::StringSliceType::Str8),
            StrongKeyword::Str16 => Some(type_system::StringSliceType::Str16),
            StrongKeyword::Str32 => Some(type_system::StringSliceType::Str32),
            StrongKeyword::CStr => Some(type_system::StringSliceType::CStr),
            _ => None,
        };

        let ty = if let Some(ty) = prim {
            Type::Primitive(self.add_node(PrimitiveType { span, node_id: NodeId::default(), ty }))
        } else if let Some(ty) = string_slice {
            Type::StringSlice(self.add_node(StringSliceType { span, node_id: NodeId::default(), ty }))
        } else {
            return Err(self.gen_error(ParseErrorCode::UnexpectedFor { found: Token::StrongKw(kw), for_reason: "type" }));
        };

        self.consume_single();
        Ok(ty)
    }

    pub(crate) fn parse_path_type(&mut self) -> (r: Result<Type, ParserErr>)
        requires
            old(self).wf(),
        ensures
            r matches Ok(t) ==> Self::fresh(old(self), final(self), t.spec_node_id()),
            Self::steps(old(self), final(self)),
            Self::advanced(old(self), final(self), r),
            r matches Ok(t) ==> (t is Path),
        decreases old(self).tokens().len() - old(self).pos(), 3nat,
    {
        let path = self.parse_type_path()?;
        let span = path.span;
        Ok(Type::Path(self.add_node(PathType { span, node_id: NodeId::default(), path })))
    }

    pub(crate) fn parse_slice_like_type(&mut self) -> (r: Result<Type, ParserErr>)
        requires
            old(self).wf(),
        ensures
            r matches Ok(t) ==> Self::fresh(old(self), final(self), t.spec_node_id()),
            Self::steps(old(self), final(self)),
            Self::advanced(old(self), final(self), r),
            r matches Ok(t) ==> (t is Array || t is Pointer || t is Slice),
        decreases old(self).tokens().len() - old(self).pos(), 0nat,
    {
        let begin = self.cur_span()?;
        self.begin_scope(OpenCloseSymbol::Bracket)?;
        let peek = self.peek()?;
        match peek {
            Token::CloseSymbol(OpenCloseSymbol::Bracket) => {
                let _ = self.end_scope();
                let ty = self.parse_type_no_bounds()?;
                let span = self.get_span_to_current(begin);
                Ok(Type::Slice(self.add_node(SliceType { span, node_id: NodeId::default(), sentinel: None, ty })))
            },
            Token::Punctuation(Punctuation::Semicolon) => {
                self.consume_single();
                let sentinel = Some(self.parse_expr(ExprParseMode::General)?);
                self.end_scope()?;
                let ty = self.parse_type_no_bounds()?;
                let span = self.get_span_to_current(begin);
                Ok(Type::Slice(self.add_node(SliceType { span, node_id: NodeId::default(), sentinel, ty })))
            },
            Token::Punctuation(Punctuation::Caret) => {
                self.consume_single();
                let sentinel = if self.try_consume(Token::Punctuation(Punctuation::Semicolon)) {
                    Some(self.parse_expr(ExprParseMode::General)?)
                } else {
                    None
                };
                self.end_scope()?;
                let is_mut = self.try_consume(Token::StrongKw(StrongKeyword::Mut));
                let ty = self.parse_type_no_bounds()?;
                let span = self.get_span_to_current(begin);
                Ok(Type::Pointer(self.add_node(PointerType { span, node_id: NodeId::default(), is_multi: true, is_mut, ty, sentinel })))
            },
            _ => {
                let size = self.parse_expr(ExprParseMode::General)?;
                let sentinel = if self.try_consume(Token::Punctuation(Punctuation::Semicolon)) {
                    Some(self.parse_expr(ExprParseMode::General)?)
                } else {
                    None
                };
                self.end_scope()?;
                let ty = self.parse_type_no_bounds()?;
                let span = self.get_span_to_current(begin);
                Ok(Type::Array(self.add_node(ArrayType { span, node_id: NodeId::default(), size, sentinel, ty })))
            },
        }
    }

    pub(crate) fn parse_pointer_type(&mut self) -> (r: Result<Type, ParserErr>)
        requires
            old(self).wf(),
        ensures
            r matches Ok(t) ==> Self::fresh(old(self), final(self), t.spec_node_id()),
            Self::steps(old(self), final(self)),
            Self::advanced(old(self), final(self), r),
            r matches Ok(t) ==> (t is Pointer),
            r matches Ok(t) ==> match t {
                Type::Pointer(n) => old(self).peek_spec(0) == Some(Token::Punctuation(Punctuation::Caret)) && !n.is_multi && n.sentinel is None && n.is_mut == (old(self).peek_spec(1) == Some(Token::StrongKw(StrongKeyword::Mut))),
                _ => false,
            },
        decreases old(self).tokens().len() - old(self).pos(), 0nat,
    {
        let begin = self.cur_span()?;
        self.consume_punct(Punctuation::Caret)?;
        let is_mut = self.try_consume(Token::StrongKw(StrongKeyword::Mut));
        let ty = self.parse_type_no_bounds()?;
        let span = self.get_span_to_current(begin);
        Ok(Type::Pointer(self.add_node(PointerType { span, node_id: NodeId::default(), is_multi: false, is_mut, ty, sentinel: None })))
    }

    pub(crate) fn parse_reference_type(&mut self) -> (r: Result<Type, ParserErr>)
        requires
            old(self).wf(),
        ensures
            r matches Ok(t) ==> Self::fresh(old(self), final(self), t.spec_node_id()),
            Self::steps(old(self), final(self)),
            Self::advanced(old(self), final(self), r),
            r matches Ok(t) ==> (t is Ref),
            r matches Ok(t) ==> match t {
                Type::Ref(n) => old(self).peek_spec(0) == Some(Token::Punctuation(Punctuation::Ampersand)) && n.is_mut == (old(self).peek_spec(1) == Some(Token::StrongKw(StrongKeyword::Mut))),
                _ => false,
            },
        decreases old(self).tokens().len() - old(self).pos(), 0nat,
    {
        let begin = self.cur_span()?;
        self.consume_punct(Punctuation::Ampersand)?;
        let is_mut = self.try_consume(Token::StrongKw(StrongKeyword::Mut));
        let ty = self.parse_type_no_bounds()?;
        let span = self.get_span_to_current(begin);
        Ok(Type::Ref(self.add_node(ReferenceType { span, node_id: NodeId::default(), is_mut, ty })))
    }

    pub(crate) fn parse_optional_type(&mut self) -> (r: Result<Type, ParserErr>)
        requires
            old(self).wf(),
        ensures
            r matches Ok(t) ==> Self::fresh(old(self), final(self), t.spec_node_id()),
            Self::steps(old(self), final(self)),
            Self::advanced(old(self), final(self), r),
            r matches Ok(t) ==> (t is Optional),
            r matches Ok(t) ==> (t is Optional) && old(self).peek_spec(0) == Some(Token::Punctuation(Punctuation::Question)),
        decreases old(self).tokens().len() - old(self).pos(), 0nat,
    {
        let begin = self.cur_span()?;
        self.consume_punct(Punctuation::Question)?;
        let ty = self.parse_type_no_bounds()?;
        let span = self.get_span_to_current(begin);
        Ok(Type::Optional(self.add_node(OptionalType { span, node_id: NodeId::default(), ty })))
    }

    pub(crate) fn parse_fn_type(&mut self) -> (r: Result<Type, ParserErr>)
        requires
            old(self).wf(),
        ensures
            r matches Ok(t) ==> Self::fresh(old(self), final(self), t.spec_node_id()),
            Self::steps(old(self), final(self)),
            Self::advanced(old(self), final(self), r),
            r matches Ok(t) ==> (t is Fn),
            r matches Ok(t) ==> match t {
                Type::Fn(n) => {
                    let at = (if n.is_unsafe { 1int } else { 0int }) + (if n.abi is Some { 2int } else { 0int });
                    &&& n.is_unsafe == (old(self).peek_spec(0) == Some(Token::StrongKw(StrongKeyword::Unsafe)))
                    &&& (n.abi is Some <==> old(self).peek_spec(if n.is_unsafe { 1int } else { 0int }) == Some(Token::StrongKw(StrongKeyword::Extern)))
                    &&& n.abi matches Some(abi) ==> old(self).peek_spec(if n.is_unsafe { 2int } else { 1int }) == Some(Token::Literal(abi))
                    &&& old(self).peek_spec(at) == Some(Token::StrongKw(StrongKeyword::Fn))
                    &&& Self::in_source_order(old(self), final(self), n.params@.map_values(|p: (Vec<NameId>, Type)| p.1))
                },
                _ => false,
            },
        decreases old(self).tokens().len() - old(self).pos(), 0nat,
    {
        let begin = self.cur_span()?;
        let is_unsafe = self.try_consume(Token::StrongKw(StrongKeyword::Unsafe));
        let abi = if self.try_consume(Token::StrongKw(StrongKeyword::Extern)) {
            Some(self.consume_lit()?)
        } else {
            None
        };

        self.consume_strong_kw(StrongKeyword::Fn)?;
        let params = self.parse_fn_type_params()?;

        let return_ty = if self.try_consume(Token::Punctuation(Punctuation::SingleArrowR)) {
            Some(self.parse_type_no_bounds()?)
        } else {
            None
        };

        let span = self.get_span_to_current(begin);
        Ok(Type::Fn(self.add_node(FnType { span, node_id: NodeId::default(), is_unsafe, abi, params, return_ty })))
    }

    /// Function type parameters, comma separated between parentheses.
    pub(crate) fn parse_fn_type_params(&mut self) -> (r: Result<Vec<(Vec<NameId>, Type)>, ParserErr>)
        requires
            old(self).wf(),
        ensures
            Self::steps(old(self), final(self)),
            Self::advanced(old(self), final(self), r),
            r matches Ok(ps) ==> Self::in_source_order(old(self), final(self), ps@.map_values(|p: (Vec<NameId>, Type)| p.1)),
        decreases old(self).tokens().len() - old(self).pos(), 0nat,
    {
        self.begin_scope(OpenCloseSymbol::Paren)?;
        let mut params: Vec<(Vec<NameId>, Type)> = Vec::new();
        assert(params@.map_values(|p: (Vec<NameId>, Type)| p.1) =~= Seq::<Type>::empty());
        while !self.try_end_scope()
            invariant
                Self::steps(old(self), self),
                self.pos() > old(self).pos(),
                Self::in_source_order(old(self), self, params@.map_values(|p: (Vec<NameId>, Type)| p.1)),
            decreases self.tokens().len() - self.pos(),
        {
            let ghost before = params@.map_values(|p: (Vec<NameId>, Type)| p.1);
            let param = self.parse_fn_type_param()?;
            params.push(param);
            proof {
                assert(params@.map_values(|p: (Vec<NameId>, Type)| p.1) =~= before.push(params@.last().1));
                Self::lemma_in_source_order_push(old(self), self, before, params@.last().1);
            }
            if !self.try_consume(Token::Punctuation(Punctuation::Comma)) {
                self.end_scope()?;
                break;
            }
        }
        Ok(params)
    }

    /// How many names, separated by commas, start at the cursor: `None` where
    /// a comma is followed by something that is no name, or nothing.
    pub(crate) fn scan_names(&self) -> (r: Option<usize>)
        requires
            self.wf(),
            self.pos() < self.tokens().len(),
        ensures
            r matches Some(n) ==> n >= 1 && self.pos() + 2 * n - 1 <= self.tokens().len(),
    {
        let len = self.token_store.tokens.len();
        let mut i = self.token_idx;
        let mut n: usize = 0;
        loop
            invariant
                self.wf(),
                len == self.tokens().len(),
                self.pos() <= i,
                i == self.pos() + 2 * n,
            decreases len - i,
        {
            if i >= len {
                return None;
            }
            if self.name_from_tok(self.token_store.tokens[i]).is_none() {
                return None;
            }
            n = n + 1;
            if i + 1 < len && self.token_store.tokens[i + 1] == Token::Punctuation(Punctuation::Comma) {
                i = i + 2;
            } else {
                return Some(n);
            }
        }
    }

    /// A function type parameter: optionally names and a colon, then a type.
    /// Where the names do not parse, the parameter is read as a type from the start.
    pub(crate) fn parse_fn_type_param(&mut self) -> (r: Result<(Vec<NameId>, Type), ParserErr>)
        requires
            old(self).wf(),
        ensures
            Self::steps(old(self), final(self)),
            Self::advanced(old(self), final(self), r),
            r matches Ok(p) ==> Self::fresh(old(self), final(self), p.1.spec_node_id()),
        decreases old(self).tokens().len() - old(self).pos(), 5nat,
    {
        let peek = self.peek_at(1)?;

        let mut names: Vec<NameId> = Vec::new();
        if peek == Token::Punctuation(Punctuation::Comma) || peek == Token::Punctuation(Punctuation::Colon) {
            if let Some(count) = self.scan_names() {
                let mut k: usize = 0;
                while k < count
                    invariant
                        Self::steps(old(self), self),
                        k <= count,
                        k > 0 ==> self.pos() > old(self).pos(),
                    decreases count - k,
                {
                    let name = self.consume_name()?;
                    names.push(name);
                    k = k + 1;
                    if k < count {
                        self.consume_punct(Punctuation::Comma)?;
                    }
                }
                if !self.try_consume(Token::Punctuation(Punctuation::Colon)) {
                    names.clear();
                }
            }
        }

        let ty = self.parse_type_no_bounds()?;
        Ok((names, ty))
    }

    pub(crate) fn parse_record_type(&mut self) -> (r: Result<Type, ParserErr>)
        requires
            old(self).wf(),
        ensures
            r matches Ok(t) ==> Self::fresh(old(self), final(self), t.spec_node_id()),
            Self::steps(old(self), final(self)),
            Self::advanced(old(self), final(self), r),
            r matches Ok(t) ==> (t is Record),
        decreases old(self).tokens().len() - old(self).pos(), 0nat,
    {
        let begin = self.cur_span()?;
        let _ = self.consume_strong_kw(StrongKeyword::Struct);
        self.begin_scope(OpenCloseSymbol::Brace)?;
        let mut fields: Vec<RegStructField> = Vec::new();
        while !self.try_end_scope()
            invariant
                Self::steps(old(self), self),
                self.pos() > old(self).pos(),
            decreases self.tokens().len() - self.pos(),
        {
            let field = self.parse_struct_field()?;
            fields.push(field);
            if !self.try_consume(Token::Punctuation(Punctuation::Comma)) {
                self.end_scope()?;
                break;
            }
        }
        let span = self.get_span_to_current(begin);
        Ok(Type::Record(self.add_node(RecordType { span, node_id: NodeId::default(), fields })))
    }

    pub(crate) fn parse_enum_record_type(&mut self) -> (r: Result<Type, ParserErr>)
        requires
            old(self).wf(),
        ensures
            r matches Ok(t) ==> Self::fresh(old(self), final(self), t.spec_node_id()),
            Self::steps(old(self), final(self)),
            Self::advanced(old(self), final(self), r),
            r matches Ok(t) ==> (t is EnumRecord),
        decreases old(self).tokens().len() - old(self).pos(), 0nat,
    {
        let begin = self.cur_span()?;
        let _ = self.consume_strong_kw(StrongKeyword::Enum);
        self.begin_scope(OpenCloseSymbol::Brace)?;
        let mut variants: Vec<EnumVariant> = Vec::new();
        while !self.try_end_scope()
            invariant
                Self::steps(old(self), self),
                self.pos() > old(self).pos(),
            decreases self.tokens().len() - self.pos(),
        {
            let variant = self.parse_enum_variant()?;
            variants.push(variant);
            if !self.try_consume(Token::Punctuation(Punctuation::Comma)) {
                self.end_scope()?;
                break;
            }
        }
        let span = self.get_span_to_current(begin);
        Ok(Type::EnumRecord(self.add_node(EnumRecordType { span, node_id: NodeId::default(), variants })))
    }

// =============================================================================================================================

    pub(crate) fn parse_generic_params(&mut self, allow_bounds: bool) -> (r: Result<Option<AstNodeRef<GenericParams>>, ParserErr>)
        requires
            old(self).wf(),
        ensures
            Self::steps(old(self), final(self)),
            Self::err_at_cursor(final(self), r),
            r matches Ok(None) ==> final(self).pos() == old(self).pos(),
            r matches Ok(Some(n)) ==> final(self).pos() > old(self).pos()
                && Self::fresh(old(self), final(self), n.spec_node_id()),
            old(self).peek_spec(0) matches Some(t) && t != Token::OpenSymbol(OpenCloseSymbol::Bracket) ==> r matches Ok(None),
        decreases old(self).tokens().len() - old(self).pos(), 0nat,
    {
        let begin = self.cur_span()?;
        if !self.try_begin_scope(OpenCloseSymbol::Bracket) {
            return Ok(None);
        }

        let mut params: Vec<GenericParam> = Vec::new();
        while !self.try_end_scope()
            invariant
                Self::steps(old(self), self),
                old(self).peek_spec(0) == Some(Token::OpenSymbol(OpenCloseSymbol::Bracket)),
                self.pos() > old(self).pos(),
            decreases self.tokens().len() - self.pos(),
        {
            if self.peek()? == Token::OpenSymbol(OpenCloseSymbol::Paren) {
                let pack = self.parse_mutli_parameter_pack()?;
                params.push(pack);
                self.end_scope()?;
                break;
            }
            if self.peek_at(1)? == Token::Punctuation(Punctuation::DotDotDot) {
                let pack = self.parse_single_parameter_pack()?;
                params.push(pack);
                self.end_scope()?;
                break;
            }

            let param = match self.peek()? {
                Token::StrongKw(StrongKeyword::Is) => self.parse_generic_type_spec()?,
                Token::OpenSymbol(OpenCloseSymbol::Brace) => self.parse_generic_const_spec()?,
                _ => if self.peek_at(1)? == Token::Punctuation(Punctuation::Colon) {
                    self.parse_generic_const_param()?
                } else {
                    self.parse_generic_type_param(allow_bounds)?
                },
            };
            params.push(param);
        }

        let span = self.get_span_to_current(begin);
        Ok(Some(self.add_node(GenericParams { span, node_id: NodeId::invalid(), params })))
    }

    pub(crate) fn parse_generic_type_param(&mut self, allow_bounds: bool) -> (r: Result<GenericParam, ParserErr>)
        requires
            old(self).wf(),
        ensures
            Self::steps(old(self), final(self)),
            Self::advanced(old(self), final(self), r),
        decreases old(self).tokens().len() - old(self).pos(), 0nat,
    {
        let begin = self.cur_span()?;
        let name = self.consume_name()?;
        let mut bounds: Vec<GenericTypeBound> = Vec::new();
        if allow_bounds && self.try_consume(Token::StrongKw(StrongKeyword::Is)) {
            loop
                invariant
                    Self::steps(old(self), self),
                    self.pos() > old(self).pos(),
                decreases self.tokens().len() - self.pos(),
            {
                let bound = self.parse_generic_type_bound()?;
                bounds.push(bound);
                if !self.try_consume(Token::Punctuation(Punctuation::Or)) {
                    break;
                }
            }
        }

        let def = if self.try_consume(Token::Punctuation(Punctuation::Equals)) {
            Some(self.parse_type()?)
        } else {
            None
        };

        let span = self.get_span_to_current(begin);
        Ok(GenericParam::Type(self.add_node(GenericTypeParam { span, node_id: NodeId::invalid(), name, bounds, def })))
    }

    pub(crate) fn parse_generic_type_spec(&mut self) -> (r: Result<GenericParam, ParserErr>)
        requires
            old(self).wf(),
        ensures
            Self::steps(old(self), final(self)),
            Self::advanced(old(self), final(self), r),
        decreases old(self).tokens().len() - old(self).pos(), 0nat,
    {
        let begin = self.cur_span()?;
        self.consume_strong_kw(StrongKeyword::Is)?;
        let ty = self.parse_type()?;

        let span = self.get_span_to_current(begin);
        Ok(GenericParam::TypeSpec(self.add_node(GenericTypeSpec { span, node_id: NodeId::invalid(), ty })))
    }

    pub(crate) fn parse_generic_const_param(&mut self) -> (r: Result<GenericParam, ParserErr>)
        requires
            old(self).wf(),
        ensures
            Self::steps(old(self), final(self)),
            Self::advanced(old(self), final(self), r),
        decreases old(self).tokens().len() - old(self).pos(), 0nat,
    {
        let begin = self.cur_span()?;
        let name = self.consume_name()?;
        let _ = self.consume_punct(Punctuation::Colon);
        let ty = self.parse_type()?;
        let def = if self.try_consume(Token::Punctuation(Punctuation::Equals)) {
            Some(self.parse_expr(ExprParseMode::General)?)
        } else {
            None
        };

        let span = self.get_span_to_current(begin);
        Ok(GenericParam::Const(self.add_node(GenericConstParam { span, node_id: NodeId::invalid(), name, ty, def })))
    }

    pub(crate) fn parse_generic_const_spec(&mut self) -> (r: Result<GenericParam, ParserErr>)
        requires
            old(self).wf(),
        ensures
            Self::steps(old(self), final(self)),
            Self::advanced(old(self), final(self), r),
        decreases old(self).tokens().len() - old(self).pos(), 2nat,
    {
        let begin = self.cur_span()?;
        let expr = self.parse_block_expr(begin, None)?;
        let span = expr.span;
        Ok(GenericParam::ConstSpec(self.add_node(GenericConstSpec { span, node_id: NodeId::invalid(), expr })))
    }

    pub(crate) fn parse_single_parameter_pack(&mut self) -> (r: Result<GenericParam, ParserErr>)
        requires
            old(self).wf(),
        ensures
            Self::steps(old(self), final(self)),
            Self::advanced(old(self), final(self), r),
        decreases old(self).tokens().len() - old(self).pos(), 0nat,
    {
        let begin = self.cur_span()?;
        let name = self.consume_name_and_span()?;
        self.consume_punct(Punctuation::DotDotDot)?;
        let desc = if self.try_consume(Token::Punctuation(Punctuation::Colon)) {
            self.parse_param_pack_desc()?
        } else {
            GenericParamPackDesc::Type(SpanId::invalid())
        };

        let mut defs: Vec<GenericParamPackDef> = Vec::new();
        if self.try_consume(Token::Punctuation(Punctuation::Equals)) {
            let def = self.parse_param_pack_def()?;
            defs.push(def);
        }

        let span = self.get_span_to_current(begin);
        let mut names: Vec<(NameId, SpanId)> = Vec::new();
        names.push(name);
        let mut descs: Vec<GenericParamPackDesc> = Vec::new();
        descs.push(desc);
        Ok(GenericParam::Pack(self.add_node(GenericParamPack { span, node_id: NodeId::invalid(), names, descs, defs })))
    }

    /// A parameter pack with several names: `(a, b): (descs) = defs`.
    /// A pack without names is refused: no number of definitions fits it.
    pub(crate) fn parse_mutli_parameter_pack(&mut self) -> (r: Result<GenericParam, ParserErr>)
        requires
            old(self).wf(),
        ensures
            Self::steps(old(self), final(self)),
            Self::advanced(old(self), final(self), r),
            r matches Ok(param) ==> param matches GenericParam::Pack(pack) && {
                &&& pack.names@.len() == pack.descs@.len()
                &&& pack.names@.len() > 0
                &&& pack.defs@.len() % pack.names@.len() == 0
            },
        decreases old(self).tokens().len() - old(self).pos(), 0nat,
    {
        let begin = self.cur_span()?;

        self.begin_scope(OpenCloseSymbol::Paren)?;
        let mut names: Vec<(NameId, SpanId)> = Vec::new();
        while !self.try_end_scope()
            invariant
                Self::steps(old(self), self),
                self.pos() > old(self).pos(),
            decreases self.tokens().len() - self.pos(),
        {
            let name = self.consume_name_and_span()?;
            names.push(name);
            if !self.try_consume(Token::Punctuation(Punctuation::Comma)) {
                self.end_scope()?;
                break;
            }
        }

        let _ = self.consume_punct(Punctuation::Colon);

        self.begin_scope(OpenCloseSymbol::Paren)?;
        let mut descs: Vec<GenericParamPackDesc> = Vec::new();
        while !self.try_end_scope()
            invariant
                Self::steps(old(self), self),
                self.pos() > old(self).pos(),
            decreases self.tokens().len() - self.pos(),
        {
            let desc = self.parse_param_pack_desc()?;
            descs.push(desc);
            if !self.try_consume(Token::Punctuation(Punctuation::Comma)) {
                self.end_scope()?;
                break;
            }
        }

        let mut defs: Vec<GenericParamPackDef> = Vec::new();
        if self.try_consume(Token::Punctuation(Punctuation::Equals)) {
            loop
                invariant
                    Self::steps(old(self), self),
                    self.pos() > old(self).pos(),
                decreases self.tokens().len() - self.pos(),
            {
                let def = self.parse_param_pack_def()?;
                defs.push(def);
                if !self.try_consume(Token::Punctuation(Punctuation::Comma)) {
                    break;
                }
            }
        }

        if names.len() != descs.len() {
            return Err(self.gen_error(ParseErrorCode::ParamPackNameDescMismatch { name_count: names.len() as u32, desc_count: descs.len() as u32 }));
        }
        if names.len() == 0 || defs.len() % names.len() != 0 {
            return Err(self.gen_error(ParseErrorCode::ParamPackDefMisMatch { elem_count: names.len() as u32, def_count: defs.len() as u32 }));
        }

        let span = self.get_span_to_current(begin);
        Ok(GenericParam::Pack(self.add_node(GenericParamPack { span, node_id: NodeId::invalid(), names, descs, defs })))
    }

    pub(crate) fn parse_param_pack_desc(&mut self) -> (r: Result<GenericParamPackDesc, ParserErr>)
        requires
            old(self).wf(),
        ensures
            Self::steps(old(self), final(self)),
            Self::advanced(old(self), final(self), r),
        decreases old(self).tokens().len() - old(self).pos(), 6nat,
    {
        match self.peek()? {
            Token::StrongKw(StrongKeyword::Type) => {
                let (_, span) = self.consume_single();
                Ok(GenericParamPackDesc::Type(span))
            },
            Token::StrongKw(StrongKeyword::Is) => {
                let begin = self.get_cur_span();
                self.consume_strong_kw(StrongKeyword::Is)?;
                let mut bounds: Vec<GenericTypeBound> = Vec::new();
                loop
                    invariant
                        Self::steps(old(self), self),
                        self.pos() > old(self).pos(),
                    decreases self.tokens().len() - self.pos(),
                {
                    let bound = self.parse_generic_type_bound()?;
                    bounds.push(bound);
                    if !self.try_consume(Token::Punctuation(Punctuation::Ampersand)) {
                        break;
                    }
                }
                let span = self.get_span_to_current(begin);
                Ok(GenericParamPackDesc::TypeBounds(span, bounds))
            },
            _ => {
                let ty = self.parse_type()?;
                Ok(GenericParamPackDesc::Expr(ty))
            },
        }
    }

    pub(crate) fn parse_param_pack_def(&mut self) -> (r: Result<GenericParamPackDef, ParserErr>)
        requires
            old(self).wf(),
        ensures
            Self::steps(old(self), final(self)),
            Self::advanced(old(self), final(self), r),
        decreases old(self).tokens().len() - old(self).pos(), 6nat,
    {
        if self.peek()? == Token::OpenSymbol(OpenCloseSymbol::Brace) {
            let begin = self.get_cur_span();
            let block_expr = self.parse_block_expr(begin, None)?;
            Ok(GenericParamPackDef::Expr(block_expr))
        } else {
            let ty = self.parse_type()?;
            Ok(GenericParamPackDef::Type(ty))
        }
    }

    /// A bound on a generic type: a type path.
    pub fn parse_generic_type_bound(&mut self) -> (r: Result<GenericTypeBound, ParserErr>)
        requires
            old(self).wf(),
        ensures
            Self::steps(old(self), final(self)),
            Self::advanced(old(self), final(self), r),
            r matches Ok(GenericTypeBound::Type(p)) ==> Self::fresh(old(self), final(self), p.spec_node_id()),
            r matches Ok(GenericTypeBound::Type(p)) ==> p.spec_node_id().spec_index() == final(self).node_meta().len() - 1,
        decreases old(self).tokens().len() - old(self).pos(), 3nat,
    {
        let path = self.parse_type_path()?;
        Ok(GenericTypeBound::Type(path))
    }

    /// Generic arguments between brackets, after a dot where `start_with_dot`
    /// is set; `None` where none follow.
    pub(crate) fn parse_generic_args(&mut self, start_with_dot: bool) -> (r: Result<Option<AstNodeRef<GenericArgs>>, ParserErr>)
        requires
            old(self).wf(),
        ensures
            Self::steps(old(self), final(self)),
            Self::err_at_cursor(final(self), r),
            r matches Ok(None) ==> final(self).pos() == old(self).pos(),
            r matches Ok(Some(n)) ==> final(self).pos() > old(self).pos()
                && Self::fresh(old(self), final(self), n.spec_node_id()),
        decreases old(self).tokens().len() - old(self).pos(), 0nat,
    {
        let begin = self.cur_span()?;
        if start_with_dot {
            if self.try_peek_at(1) != Some(Token::OpenSymbol(OpenCloseSymbol::Bracket)) || !self.try_consume(Token::Punctuation(Punctuation::Dot)) {
                return Ok(None);
            }
        } else {
            if self.peek()? != Token::OpenSymbol(OpenCloseSymbol::Bracket) {
                return Ok(None);
            }
        }

        self.begin_scope(OpenCloseSymbol::Bracket)?;
        let mut args: Vec<GenericArg> = Vec::new();
        while !self.try_end_scope()
            invariant
                Self::steps(old(self), self),
                self.pos() > old(self).pos(),
            decreases self.tokens().len() - self.pos(),
        {
            let arg = self.parse_generic_arg()?;
            args.push(arg);
            if !self.try_consume(Token::Punctuation(Punctuation::Comma)) {
                self.end_scope()?;
                break;
            }
        }

        let span = self.get_span_to_current(begin);
        Ok(Some(self.add_node(GenericArgs { span, node_id: NodeId::invalid(), args })))
    }

    pub(crate) fn parse_generic_arg(&mut self) -> (r: Result<GenericArg, ParserErr>)
        requires
            old(self).wf(),
        ensures
            Self::steps(old(self), final(self)),
            Self::advanced(old(self), final(self), r),
        decreases old(self).tokens().len() - old(self).pos(), 6nat,
    {
        let peek = self.peek()?;
        match peek {
            Token::OpenSymbol(OpenCloseSymbol::Brace) => {
                let begin = self.get_cur_span();
                let expr = self.parse_block_expr(begin, None)?;
                Ok(GenericArg::Value(expr))
            },
            Token::Name(name_id) => {
                let peek_1 = self.peek_at(1)?;
                if peek_1 == Token::Punctuation(Punctuation::Comma) || matches!(peek_1, Token::CloseSymbol(_)) {
                    self.consume_single();
                    Ok(GenericArg::TypeOrValue(name_id))
                } else {
                    let ty = self.parse_type()?;
                    Ok(GenericArg::Type(ty))
                }
            },
            _ => {
                let ty = self.parse_type()?;
                Ok(GenericArg::Type(ty))
            },
        }
    }

    pub(crate) fn parse_where_bound(&mut self) -> (r: Result<WhereBound, ParserErr>)
        requires
            old(self).wf(),
        ensures
            Self::steps(old(self), final(self)),
            Self::advanced(old(self), final(self), r),
        decreases old(self).tokens().len() - old(self).pos(), 6nat,
    {
        let begin = self.cur_span()?;
        if self.peek()? == Token::OpenSymbol(OpenCloseSymbol::Brace) {
            let bound = self.parse_block_expr(begin, None)?;
            return Ok(WhereBound::Value { bound });
        }

        let ty = self.parse_type()?;
        if self.try_consume(Token::Punctuation(Punctuation::Colon)) {
            let mut bounds: Vec<GenericTypeBound> = Vec::new();
            loop
                invariant
                    Self::steps(old(self), self),
                    self.pos() > old(self).pos(),
                decreases self.tokens().len() - self.pos(),
            {
                let bound = self.parse_generic_type_bound()?;
                bounds.push(bound);
                if !self.try_consume(Token::Punctuation(Punctuation::Ampersand)) {
                    break;
                }
            }
            let span = self.get_span_to_current(begin);
            Ok(WhereBound::Type { span, ty, bounds })
        } else {
            self.consume_strong_kw(StrongKeyword::In)?;
            let mut bounds: Vec<Type> = Vec::new();
            loop
                invariant
                    Self::steps(old(self), self),
                    self.pos() > old(self).pos(),
                decreases self.tokens().len() - self.pos(),
            {
                let bound = self.parse_type()?;
                bounds.push(bound);
                if !self.try_consume(Token::Punctuation(Punctuation::Or)) {
                    break;
                }
            }
            let span = self.get_span_to_current(begin);
            Ok(WhereBound::ExplicitType { span, ty, bounds })
        }
    }

    pub(crate) fn parse_where_clause(&mut self) -> (r: Result<Option<AstNodeRef<WhereClause>>, ParserErr>)
        requires
            old(self).wf(),
        ensures
            Self::steps(old(self), final(self)),
            Self::err_at_cursor(final(self), r),
            r matches Ok(None) ==> final(self).pos() == old(self).pos(),
            r matches Ok(Some(n)) ==> final(self).pos() > old(self).pos()
                && Self::fresh(old(self), final(self), n.spec_node_id()),
            old(self).peek_spec(0) matches Some(t) && t != Token::StrongKw(StrongKeyword::Where) ==> r matches Ok(None),
        decreases old(self).tokens().len() - old(self).pos(), 0nat,
    {
        let begin = self.cur_span()?;
        if !self.try_consume(Token::StrongKw(StrongKeyword::Where)) {
            return Ok(None);
        }

        let mut bounds: Vec<WhereBound> = Vec::new();
        loop
            invariant
                Self::steps(old(self), self),
                old(self).peek_spec(0) == Some(Token::StrongKw(StrongKeyword::Where)),
                self.pos() > old(self).pos(),
            decreases self.tokens().len() - self.pos(),
        {
            let bound = self.parse_where_bound()?;
            bounds.push(bound);
            if !self.try_consume(Token::Punctuation(Punctuation::Comma)) {
                break;
            }
        }
        let span = self.get_span_to_current(begin);
        Ok(Some(self.add_node(WhereClause { span, node_id: NodeId::invalid(), bounds })))
    }

    pub(crate) fn parse_trait_bounds(&mut self) -> (r: Result<AstNodeRef<TraitBounds>, ParserErr>)
        requires
            old(self).wf(),
        ensures
            Self::steps(old(self), final(self)),
            Self::advanced(old(self), final(self), r),
            r matches Ok(n) ==> Self::fresh(old(self), final(self), n.spec_node_id()),
        decreases old(self).tokens().len() - old(self).pos(), 4nat,
    {
        let begin = self.cur_span()?;
        let mut bounds: Vec<AstNodeRef<TraitPath>> = Vec::new();
        loop
            invariant
                Self::steps(old(self), self),
                bounds@.len() > 0 ==> self.pos() > old(self).pos(),
            ensures
                Self::steps(old(self), self),
                self.pos() > old(self).pos(),
            decreases self.tokens().len() - self.pos(),
        {
            let bound = self.parse_trait_path()?;
            bounds.push(bound);
            if !self.try_consume(Token::Punctuation(Punctuation::Ampersand)) {
                break;
            }
        }

        let span = self.get_span_to_current(begin);
        Ok(self.add_node(TraitBounds { span, node_id: NodeId::invalid(), bounds }))
    }
}

} // verus!
