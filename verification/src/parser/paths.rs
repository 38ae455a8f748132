//! Paths, identifiers, visibilities and attributes.

use vstd::prelude::*;
use crate::ast::{
    AstNode, AstNodeRef, AttribMeta, Attribute, ExprPath, IdenName, Identifier, NodeId, PathStart,
    SimplePath, SimplePathStart, SimplePathStartKind, TraitPath, TraitPathFnEnd, TypePath, Visibility,
};
use crate::common::{NameId, SpanId};
use crate::lexer::{OpenCloseSymbol, Punctuation, StrongKeyword, Token, WeakKeyword};
use super::{ExprParseMode, ParseErrorCode, Parser, ParserErr, group_parser_steps};

verus! {

broadcast use group_parser_steps;

impl<'a> Parser<'a> {
    /// An optional start (`.`, `super` or `self`) and names separated by dots.
    pub(crate) fn parse_simple_path(&mut self, only_allow_none_start: bool) -> (r: Result<AstNodeRef<SimplePath>, ParserErr>)
        requires
            old(self).wf(),
        ensures
            Self::steps(old(self), final(self)),
            Self::advanced(old(self), final(self), r),
            r matches Ok(n) ==> Self::fresh(old(self), final(self), n.spec_node_id()),
            r matches Ok(n) ==> {
                let first = old(self).pos() + (if n.start is Some { 1int } else { 0int });
                let names = n.names@.map_values(|p: (NameId, SpanId)| p.0);
                &&& names.len() > 0
                &&& old(self).separated_names(first, Token::Punctuation(Punctuation::Dot), names)
                &&& final(self).pos() == first + 2 * names.len() - 1
                &&& final(self).peek_spec(0) != Some(Token::Punctuation(Punctuation::Dot))
                &&& n.start is None ==> (old(self).peek_spec(0) matches Some(Token::Name(_)))
                &&& n.start matches Some(start) ==> !only_allow_none_start && match old(self).peek_spec(0)->0 {
                    Token::Punctuation(Punctuation::Dot) => start.kind == SimplePathStartKind::Inferred,
                    Token::WeakKw(WeakKeyword::Super) => start.kind == SimplePathStartKind::Super,
                    _ => start.kind == SimplePathStartKind::SelfPath,
                }
            },
    {
        self.peek()?;
        self.push_meta_frame();

        let start = self.parse_simple_path_start(only_allow_none_start)?;
        let ghost first = self.pos();

        let mut names: Vec<(NameId, SpanId)> = Vec::new();
        loop
            invariant_except_break
                self.pos() == first + 2 * names@.len(),
                names@.len() > 0 ==> self.tokens()[Parser::name_slot(first, names@.len() - 1) + 1] == Token::Punctuation(Punctuation::Dot),
            invariant
                Self::steps(old(self), self),
                self.node_meta().len() == old(self).node_meta().len(),
                names@.len() > 0 ==> self.pos() > old(self).pos(),
                old(self).pos() <= first,
                old(self).separated_names(first, Token::Punctuation(Punctuation::Dot), names@.map_values(|p: (NameId, SpanId)| p.0)),
            ensures
                Self::steps(old(self), self),
                self.node_meta().len() == old(self).node_meta().len(),
                names@.len() > 0,
                self.pos() > old(self).pos(),
                self.pos() == first + 2 * names@.len() - 1,
                old(self).separated_names(first, Token::Punctuation(Punctuation::Dot), names@.map_values(|p: (NameId, SpanId)| p.0)),
                self.peek_spec(0) != Some(Token::Punctuation(Punctuation::Dot)),
            decreases self.tokens().len() - self.pos(),
        {
            let ghost before = names@.map_values(|p: (NameId, SpanId)| p.0);
            let name = self.consume_name_and_span()?;
            names.push(name);
            proof {
                let all = names@.map_values(|p: (NameId, SpanId)| p.0);
                assert(all[before.len() as int] == name.0);
                assert(old(self).name_of(old(self).tokens()[Parser::name_slot(first, before.len() as int)]) == Some(name.0));
                assert forall|j: int| 0 <= j < all.len() implies
                    old(self).name_of(#[trigger] old(self).tokens()[Parser::name_slot(first, j)]) == Some(all[j]) by {
                    if j < before.len() {
                        assert(all[j] == before[j]);
                    }
                }
                assert forall|j: int| 0 <= j < all.len() - 1 implies
                    #[trigger] old(self).tokens()[Parser::name_slot(first, j) + 1] == Token::Punctuation(Punctuation::Dot) by {
                    if j < before.len() - 1 {
                        assert(all[j] == before[j]);
                    }
                }
            }
            if !self.try_consume(Token::Punctuation(Punctuation::Dot)) {
                break;
            }
        }

        let begin = match &start {
            Some(start) => start.span,
            None => names[0].1,
        };
        let span = self.get_span_to_current(begin);

        Ok(self.add_node(SimplePath {
            span,
            node_id: NodeId::default(),
            start,
            names,
        }))
    }

    pub(crate) fn parse_simple_path_start(&mut self, only_allow_none_start: bool) -> (r: Result<Option<SimplePathStart>, ParserErr>)
        requires
            old(self).wf(),
        ensures
            Self::steps(old(self), final(self)),
            Self::err_at_cursor(final(self), r),
            final(self).node_meta() == old(self).node_meta(),
            r matches Ok(None) ==> final(self).pos() == old(self).pos()
                && old(self).peek_spec(0) matches Some(Token::Name(_)),
            r matches Ok(Some(_)) ==> final(self).pos() == old(self).pos() + 1 && !only_allow_none_start,
            old(self).peek_spec(0) matches Some(Token::Name(_)) ==> r matches Ok(None),
            old(self).peek_spec(0) matches Some(t) ==> match t {
                Token::Name(_) => r matches Ok(None),
                Token::Punctuation(Punctuation::Dot) => if only_allow_none_start { r is Err } else {
                    r matches Ok(Some(start)) && start.kind == SimplePathStartKind::Inferred
                },
                Token::WeakKw(WeakKeyword::Super) => if only_allow_none_start { r is Err } else {
                    r matches Ok(Some(start)) && start.kind == SimplePathStartKind::Super
                },
                Token::StrongKw(StrongKeyword::SelfName) => if only_allow_none_start { r is Err } else {
                    r matches Ok(Some(start)) && start.kind == SimplePathStartKind::SelfPath
                },
                _ => r is Err,
            },
    {
        let tok = self.peek()?;
        match tok {
            Token::Name(_) => Ok(None),
            Token::Punctuation(Punctuation::Dot) => if only_allow_none_start {
                Err(self.gen_error(ParseErrorCode::InvalidPathStart { found: tok, reason: "inferred simple paths are not allowed" }))
            } else {
                let (_, span) = self.consume_single();
                Ok(Some(SimplePathStart { span, kind: SimplePathStartKind::Inferred }))
            },
            Token::WeakKw(WeakKeyword::Super) => if only_allow_none_start {
                Err(self.gen_error(ParseErrorCode::InvalidPathStart { found: tok, reason: "'super' relative paths are not allowed" }))
            } else {
                let (_, span) = self.consume_single();
                Ok(Some(SimplePathStart { span, kind: SimplePathStartKind::Super }))
            },
            Token::StrongKw(StrongKeyword::SelfName) => if only_allow_none_start {
                Err(self.gen_error(ParseErrorCode::InvalidPathStart { found: tok, reason: "'self' relative paths are not allowed" }))
            } else {
                let (_, span) = self.consume_single();
                Ok(Some(SimplePathStart { span, kind: SimplePathStartKind::SelfPath }))
            },
            _ => Err(self.gen_error(ParseErrorCode::InvalidPathStart { found: tok, reason: "" })),
        }
    }

    pub(crate) fn parse_identifier(&mut self, dot_generics: bool) -> (r: Result<Identifier, ParserErr>)
        requires
            old(self).wf(),
        ensures
            Self::steps(old(self), final(self)),
            Self::advanced(old(self), final(self), r),
        decreases old(self).tokens().len() - old(self).pos(), 0nat,
    {
        let begin = self.cur_span()?;
        let name = if self.try_begin_scope(OpenCloseSymbol::Paren) {
            let begin = self.cur_span()?;
            let (path, last) = self.parse_raw_trait_path(true)?;
            let (name, name_span) = match last {
                Some(last) => last,
                None => return Err(self.gen_error(ParseErrorCode::InternalError("disambiguated path without a name"))),
            };
            let path = self.add_node(path);

            let span = self.get_span_to_current(begin);
            IdenName::Disambig { span, trait_path: path, name, name_span }
        } else {
            let (name, span) = self.consume_name_and_span()?;
            IdenName::Name(name, span)
        };

        let gen_args = self.parse_generic_args(dot_generics)?;
        let span = self.get_span_to_current(begin);
        Ok(Identifier { span, name, gen_args })
    }

    pub(crate) fn parse_path_start(&mut self) -> (r: Result<PathStart, ParserErr>)
        requires
            old(self).wf(),
        ensures
            Self::steps(old(self), final(self)),
            Self::err_at_cursor(final(self), r),
            r matches Ok(PathStart::Plain) ==> final(self).pos() == old(self).pos(),
            r matches Ok(s) && !(s is Plain) ==> final(self).pos() > old(self).pos(),
            r matches Ok(s) ==> match old(self).peek_spec(0)->0 {
                Token::StrongKw(StrongKeyword::SelfTy) => s is SelfTy,
                Token::Punctuation(Punctuation::Dot) => s is Inferred,
                Token::OpenSymbol(OpenCloseSymbol::Paren) => s is Typed,
                Token::StrongKw(kw) => (s is Typed) == (kw.spec_primitive_index() is Some),
                _ => s is Plain,
            },
            old(self).peek_spec(0) matches Some(t) && !(t is StrongKw) && !(t is OpenSymbol)
                && t != Token::Punctuation(Punctuation::Dot) ==> r matches Ok(PathStart::Plain),
        decreases old(self).tokens().len() - old(self).pos(), 0nat,
    {
        match self.peek()? {
            Token::StrongKw(StrongKeyword::SelfTy) => {
                let span = self.get_cur_span();
                self.consume_single();
                Ok(PathStart::SelfTy(span))
            },
            Token::Punctuation(Punctuation::Dot) => {
                let span = self.get_cur_span();
                self.consume_single();
                Ok(PathStart::Inferred(span))
            },
            Token::OpenSymbol(OpenCloseSymbol::Paren) => {
                self.begin_scope(OpenCloseSymbol::Paren)?;
                self.consume_punct(Punctuation::Colon)?;
                let ty = self.parse_type()?;
                self.consume_punct(Punctuation::Colon)?;
                let _ = self.end_scope();
                Ok(PathStart::Typed(ty))
            },
            Token::StrongKw(kw) => if kw.is_primitive_type() {
                let ty = self.parse_primitive_type(kw)?;
                Ok(PathStart::Typed(ty))
            } else {
                Ok(PathStart::Plain)
            },
            _ => Ok(PathStart::Plain),
        }
    }

    /// One or more identifiers separated by dots.
    pub(crate) fn parse_identifiers(&mut self) -> (r: Result<Vec<Identifier>, ParserErr>)
        requires
            old(self).wf(),
        ensures
            Self::steps(old(self), final(self)),
            Self::advanced(old(self), final(self), r),
            r matches Ok(v) ==> v@.len() > 0,
        decreases old(self).tokens().len() - old(self).pos(), 1nat,
    {
        let mut idens: Vec<Identifier> = Vec::new();
        loop
            invariant
                Self::steps(old(self), self),
                idens@.len() > 0 ==> self.pos() > old(self).pos(),
            ensures
                Self::steps(old(self), self),
                idens@.len() > 0,
                self.pos() > old(self).pos(),
            decreases self.tokens().len() - self.pos(),
        {
            let iden = self.parse_identifier(false)?;
            idens.push(iden);
            if !self.try_consume(Token::Punctuation(Punctuation::Dot)) {
                break;
            }
        }
        Ok(idens)
    }

    pub(crate) fn parse_type_path(&mut self) -> (r: Result<AstNodeRef<TypePath>, ParserErr>)
        requires
            old(self).wf(),
        ensures
            Self::steps(old(self), final(self)),
            Self::advanced(old(self), final(self), r),
            r matches Ok(n) ==> Self::fresh(old(self), final(self), n.spec_node_id()),
            r matches Ok(n) ==> n.spec_node_id().spec_index() == final(self).node_meta().len() - 1,
        decreases old(self).tokens().len() - old(self).pos(), 2nat,
    {
        self.peek()?;
        self.push_meta_frame();
        let begin = self.last_frame.span;

        let start = self.parse_path_start()?;
        let idens = if !matches!(start, PathStart::SelfTy(_)) || self.try_consume(Token::Punctuation(Punctuation::Dot)) {
            self.parse_identifiers()?
        } else {
            Vec::new()
        };

        let span = self.get_span_to_current(begin);
        Ok(self.add_node(TypePath {
            span,
            node_id: NodeId::invalid(),
            start,
            idens,
        }))
    }

    pub(crate) fn parse_expr_path(&mut self) -> (r: Result<AstNodeRef<ExprPath>, ParserErr>)
        requires
            old(self).wf(),
        ensures
            Self::steps(old(self), final(self)),
            Self::advanced(old(self), final(self), r),
            r matches Ok(n) ==> Self::fresh(old(self), final(self), n.spec_node_id()),
        decreases old(self).tokens().len() - old(self).pos(), 2nat,
    {
        self.peek()?;
        self.push_meta_frame();
        let begin = self.last_frame.span;

        let start = self.parse_path_start()?;
        let idens = self.parse_identifiers()?;

        let span = self.get_span_to_current(begin);
        Ok(self.add_node(ExprPath {
            span,
            node_id: NodeId::default(),
            start,
            idens,
        }))
    }

    pub(crate) fn parse_trait_path(&mut self) -> (r: Result<AstNodeRef<TraitPath>, ParserErr>)
        requires
            old(self).wf(),
        ensures
            Self::steps(old(self), final(self)),
            Self::advanced(old(self), final(self), r),
            r matches Ok(n) ==> Self::fresh(old(self), final(self), n.spec_node_id()),
        decreases old(self).tokens().len() - old(self).pos(), 3nat,
    {
        let (path, _) = self.parse_raw_trait_path(false)?;
        Ok(self.add_node(path))
    }

    /// A trait path, and, where `seperate_last_iden` is set, its last name
    /// split off as the name that the path disambiguates.
    pub(crate) fn parse_raw_trait_path(&mut self, seperate_last_iden: bool) -> (r: Result<(TraitPath, Option<(NameId, SpanId)>), ParserErr>)
        requires
            old(self).wf(),
        ensures
            Self::steps(old(self), final(self)),
            Self::advanced(old(self), final(self), r),
            r matches Ok((_, last)) ==> (last is Some <==> seperate_last_iden),
        decreases old(self).tokens().len() - old(self).pos(), 2nat,
    {
        self.peek()?;
        self.push_meta_frame();
        let begin = self.last_frame.span;

        let start = self.parse_path_start()?;
        let mut idens = self.parse_identifiers()?;

        let fn_end = if self.peek()? == Token::OpenSymbol(OpenCloseSymbol::Paren) {
            let begin = self.get_cur_span();
            let iden = match idens.pop() {
                Some(iden) => iden,
                None => return Err(self.gen_error(ParseErrorCode::InternalError("trait path without identifiers"))),
            };
            if iden.gen_args.is_some() {
                return Err(self.gen_error(ParseErrorCode::InvalidTraitPathFnEnd { reason: "Cannot contain any generic arguments" }));
            }
            let name = match iden.name {
                IdenName::Name(name, _) => name,
                IdenName::Disambig { .. } => return Err(self.gen_error(ParseErrorCode::InvalidTraitPathFnEnd { reason: "Cannot have trait disambiguation" })),
            };

            let params = self.parse_fn_type_params()?;
            let return_ty = if self.try_consume(Token::Punctuation(Punctuation::SingleArrowR)) {
                Some(self.parse_type()?)
            } else {
                None
            };
            let span = self.get_span_to_current(begin);

            Some(TraitPathFnEnd { span, name, params, return_ty })
        } else {
            None
        };

        let last_name = if seperate_last_iden {
            if fn_end.is_some() {
                return Err(self.gen_error(ParseErrorCode::InvalidPathDisabmiguation { reason: "Cannot have a function-style end" }));
            }

            let iden = match idens.pop() {
                Some(iden) => iden,
                None => return Err(self.gen_error(ParseErrorCode::InternalError("trait path without identifiers"))),
            };
            if iden.gen_args.is_some() {
                return Err(self.gen_error(ParseErrorCode::InvalidPathDisabmiguation { reason: "Cannot contain any generic arguments" }));
            }
            match iden.name {
                IdenName::Name(name, span) => Some((name, span)),
                IdenName::Disambig { .. } => return Err(self.gen_error(ParseErrorCode::InvalidPathDisabmiguation { reason: "Cannot have trait disambiguation" })),
            }
        } else {
            None
        };

        let span = self.get_span_to_current(begin);
        Ok((TraitPath {
            span,
            node_id: NodeId::default(),
            start,
            idens,
            fn_end,
        }, last_name))
    }

// =============================================================================================================================

    pub(crate) fn parse_visibility(&mut self) -> (r: Result<Option<AstNodeRef<Visibility>>, ParserErr>)
        requires
            old(self).wf(),
        ensures
            Self::steps(old(self), final(self)),
            Self::err_at_cursor(final(self), r),
            r is Ok && old(self).peek_spec(0) != Some(Token::StrongKw(StrongKeyword::Pub)) ==> final(self).pos() == old(self).pos(),
            old(self).peek_spec(0) != Some(Token::StrongKw(StrongKeyword::Pub)) ==> r matches Ok(None),
            r matches Ok(Some(n)) ==> Self::fresh(old(self), final(self), n.spec_node_id()),
            old(self).peek_spec(0) == Some(Token::StrongKw(StrongKeyword::Pub)) ==> (r matches Ok(v) ==>
                v matches Some(vis) && match old(self).peek_spec(1) {
                    Some(Token::OpenSymbol(OpenCloseSymbol::Paren)) => match old(self).peek_spec(2) {
                        Some(Token::WeakKw(WeakKeyword::Package)) => *vis is Package,
                        Some(Token::WeakKw(WeakKeyword::Lib)) => *vis is Lib,
                        Some(Token::WeakKw(WeakKeyword::Super)) => *vis is Super,
                        _ => *vis is Path,
                    },
                    _ => *vis is Pub,
                }),
    {
        if !self.try_consume(Token::StrongKw(StrongKeyword::Pub)) {
            return Ok(None);
        }

        self.peek()?;
        self.push_meta_frame();
        let begin = self.get_cur_span();
        if self.try_begin_scope(OpenCloseSymbol::Paren) {
            let peek = self.peek()?;
            let vis = match peek {
                Token::WeakKw(WeakKeyword::Package) => {
                    self.consume_single();
                    self.end_scope()?;
                    let span = self.get_span_to_current(begin);
                    Visibility::Package { span, node_id: NodeId::default() }
                },
                Token::WeakKw(WeakKeyword::Lib) => {
                    self.consume_single();
                    self.end_scope()?;
                    let span = self.get_span_to_current(begin);
                    Visibility::Lib { span, node_id: NodeId::default() }
                },
                Token::WeakKw(WeakKeyword::Super) => {
                    self.consume_single();
                    self.end_scope()?;
                    let span = self.get_span_to_current(begin);
                    Visibility::Super { span, node_id: NodeId::default() }
                },
                _ => {
                    let path = self.parse_simple_path(true)?;
                    let span = self.get_span_to_current(begin);
                    Visibility::Path { span, node_id: NodeId::default(), path }
                },
            };

            Ok(Some(self.add_node(vis)))
        } else {
            Ok(Some(self.add_node(Visibility::Pub { span: begin, node_id: NodeId::default() })))
        }
    }

// =============================================================================================================================

    pub(crate) fn parse_attributes(&mut self) -> (r: Result<Vec<AstNodeRef<Attribute>>, ParserErr>)
        requires
            old(self).wf(),
        ensures
            Self::steps(old(self), final(self)),
            Self::err_at_cursor(final(self), r),
            r matches Ok(v) && v@.len() == 0 ==> final(self).pos() == old(self).pos(),
            (old(self).peek_spec(0) matches Some(t) && t != Token::Punctuation(Punctuation::At)
                && t != Token::Punctuation(Punctuation::AtExclaim)) ==> (r matches Ok(v) && v@.len() == 0),
        decreases old(self).tokens().len() - old(self).pos(), 0nat,
    {
        let mut attrs: Vec<AstNodeRef<Attribute>> = Vec::new();

        loop
            invariant
                Self::steps(old(self), self),
                attrs@.len() == 0 ==> self.pos() == old(self).pos(),
                attrs@.len() > 0 ==> self.pos() > old(self).pos(),
                (old(self).peek_spec(0) matches Some(t) && t != Token::Punctuation(Punctuation::At)
                    && t != Token::Punctuation(Punctuation::AtExclaim)) ==> attrs@.len() == 0,
            ensures
                Self::steps(old(self), self),
                attrs@.len() == 0 ==> self.pos() == old(self).pos(),
                (old(self).peek_spec(0) matches Some(t) && t != Token::Punctuation(Punctuation::At)
                    && t != Token::Punctuation(Punctuation::AtExclaim)) ==> attrs@.len() == 0,
            decreases self.tokens().len() - self.pos(),
        {
            self.peek()?;
            self.push_meta_frame();
            let begin = self.get_cur_span();

            let is_mod = if self.try_consume(Token::Punctuation(Punctuation::At)) {
                false
            } else if self.try_consume(Token::Punctuation(Punctuation::AtExclaim)) {
                true
            } else {
                self.pop_meta_frame();
                break;
            };

            let path = self.parse_simple_path(true)?;
            let metas = if self.try_peek() == Some(Token::OpenSymbol(OpenCloseSymbol::Paren)) {
                self.parse_attrib_metas()?
            } else {
                Vec::new()
            };

            let span = self.get_span_to_current(begin);
            let attr = self.add_node(Attribute {
                span,
                node_id: NodeId::default(),
                is_mod,
                path,
                metas,
            });
            attrs.push(attr);
        }
        Ok(attrs)
    }

    /// Attribute metas, comma separated between parentheses.
    pub(crate) fn parse_attrib_metas(&mut self) -> (r: Result<Vec<AttribMeta>, ParserErr>)
        requires
            old(self).wf(),
        ensures
            Self::steps(old(self), final(self)),
            Self::advanced(old(self), final(self), r),
        decreases old(self).tokens().len() - old(self).pos(), 0nat,
    {
        self.begin_scope(OpenCloseSymbol::Paren)?;
        let mut values: Vec<AttribMeta> = Vec::new();
        while !self.try_end_scope()
            invariant
                Self::steps(old(self), self),
                self.pos() > old(self).pos(),
            decreases self.tokens().len() - self.pos(),
        {
            let meta = self.parse_attrib_meta()?;
            values.push(meta);
            if !self.try_consume(Token::Punctuation(Punctuation::Comma)) {
                self.end_scope()?;
                break;
            }
        }
        Ok(values)
    }

    pub(crate) fn parse_attrib_meta(&mut self) -> (r: Result<AttribMeta, ParserErr>)
        requires
            old(self).wf(),
        ensures
            Self::steps(old(self), final(self)),
            Self::advanced(old(self), final(self), r),
        decreases old(self).tokens().len() - old(self).pos(), 4nat,
    {
        let begin = self.cur_span()?;
        if matches!(self.peek()?, Token::Name(_)) {
            let path = self.parse_simple_path(false)?;
            if self.peek()? == Token::Punctuation(Punctuation::Equals) {
                self.consume_punct(Punctuation::Equals)?;
                let expr = self.parse_expr(ExprParseMode::General)?;
                let span = self.get_span_to_current(begin);
                Ok(AttribMeta::Assign { span, path, expr })
            } else if self.peek()? == Token::OpenSymbol(OpenCloseSymbol::Paren) {
                let metas = self.parse_attrib_metas()?;
                let span = self.get_span_to_current(begin);
                Ok(AttribMeta::Meta { span, path, metas })
            } else {
                let _ = self.get_span_to_current(begin);
                Ok(AttribMeta::Simple { path })
            }
        } else {
            let expr = self.parse_expr(ExprParseMode::General)?;
            let _ = self.get_span_to_current(begin);
            Ok(AttribMeta::Expr { expr })
        }
    }
}

} // verus!
