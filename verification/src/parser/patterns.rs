//! Patterns.

use vstd::prelude::*;
use crate::ast::{
    AlternativePattern, AstNode, EnumMemberPattern, GroupedPattern, IdentifierPattern, LiteralPattern,
    NodeId, PathPattern, Pattern, RangePattern, ReferencePattern, RestPattern, SlicePattern, StructPattern,
    StructPatternField, TuplePattern, TypeCheckPattern, WildcardPattern,
};
use crate::lexer::{OpenCloseSymbol, Punctuation, StrongKeyword, Token};
use super::{ParseErrorCode, Parser, ParserErr, group_parser_steps};

verus! {

broadcast use group_parser_steps;

impl<'a> Parser<'a> {
    pub(crate) fn parse_pattern(&mut self) -> (r: Result<Pattern, ParserErr>)
        requires
            old(self).wf(),
        ensures
            r matches Ok(p) ==> Self::fresh(old(self), final(self), p.spec_node_id()),
            Self::steps(old(self), final(self)),
            Self::advanced(old(self), final(self), r),
        decreases old(self).tokens().len() - old(self).pos(), 5nat,
    {
        let begin = self.cur_span()?;
        self.push_meta_frame();

        let mut patterns: Vec<Pattern> = Vec::new();
        loop
            invariant
                Self::steps(old(self), self),
                patterns@.len() > 0 ==> self.pos() > old(self).pos(),
                Self::in_source_order(old(self), self, patterns@),
            ensures
                Self::steps(old(self), self),
                patterns@.len() > 0,
                self.pos() > old(self).pos(),
                Self::in_source_order(old(self), self, patterns@),
            decreases self.tokens().len() - self.pos(),
        {
            let ghost before = patterns@;
            let pattern = self.parse_pattern_no_top_alternative()?;
            patterns.push(pattern);
            proof { Self::lemma_in_source_order_push(old(self), self, before, pattern); }
            if !self.try_consume(Token::Punctuation(Punctuation::Or)) {
                break;
            }
        }

        if patterns.len() == 1 {
            Ok(patterns.remove(0))
        } else {
            let span = self.get_span_to_current(begin);
            Ok(Pattern::Alternative(self.add_node(AlternativePattern { span, node_id: NodeId::default(), patterns })))
        }
    }

    pub(crate) fn parse_pattern_no_top_alternative(&mut self) -> (r: Result<Pattern, ParserErr>)
        requires
            old(self).wf(),
        ensures
            r matches Ok(p) ==> Self::fresh(old(self), final(self), p.spec_node_id()),
            Self::steps(old(self), final(self)),
            Self::advanced(old(self), final(self), r),
            r matches Ok(p) ==> p is Range || match old(self).peek_spec(0)->0 {
                Token::StrongKw(StrongKeyword::True) | Token::StrongKw(StrongKeyword::False) | Token::Literal(_) => p is Literal,
                Token::StrongKw(StrongKeyword::Ref) | Token::StrongKw(StrongKeyword::Mut) => p is Identifier,
                Token::Underscore => p is Wildcard,
                Token::Punctuation(Punctuation::DotDot) => p is Rest,
                Token::Punctuation(Punctuation::Ampersand) => p is Reference,
                Token::OpenSymbol(OpenCloseSymbol::Paren) => p is Grouped || p is Tuple,
                Token::OpenSymbol(OpenCloseSymbol::Bracket) => p is Slice,
                Token::Punctuation(Punctuation::Dot) => p is Struct || p is EnumMember,
                Token::StrongKw(StrongKeyword::Is) => p is TypeCheck,
                _ => true,
            },
        decreases old(self).tokens().len() - old(self).pos(), 4nat,
    {
        let peek = self.peek()?;
        let pattern = match peek {
            Token::StrongKw(StrongKeyword::True) | Token::StrongKw(StrongKeyword::False) | Token::Literal(_) => self.parse_literal_pattern()?,
            Token::StrongKw(StrongKeyword::Ref) | Token::StrongKw(StrongKeyword::Mut) => self.parse_identifier_pattern()?,
            Token::Underscore => {
                let span = self.get_cur_span();
                self.consume_single();
                Pattern::Wildcard(self.add_node(WildcardPattern { span, node_id: NodeId::default() }))
            },
            Token::Punctuation(Punctuation::DotDot) => self.parse_dotdot_pattern()?,
            Token::Punctuation(Punctuation::DotDotEquals) => self.parse_inclusive_to_pattern()?,
            Token::Punctuation(Punctuation::Ampersand) => self.parse_reference_pattern()?,
            Token::OpenSymbol(OpenCloseSymbol::Paren) => self.parse_tuple_like_pattern()?,
            Token::OpenSymbol(OpenCloseSymbol::Bracket) => self.parse_slice_pattern()?,
            Token::Punctuation(Punctuation::Dot) => if self.try_peek_at(1) == Some(Token::OpenSymbol(OpenCloseSymbol::Brace)) {
                self.parse_inferred_struct_pattern()?
            } else {
                self.parse_enum_member_pattern()?
            },
            Token::StrongKw(StrongKeyword::Is) => self.parse_type_check_pattern()?,
            _ => self.parse_path_like_pattern()?,
        };

        let peek = self.peek()?;
        match peek {
            Token::Punctuation(Punctuation::DotDot) => self.parse_range_pattern(pattern),
            Token::Punctuation(Punctuation::DotDotEquals) => self.parse_inclusive_range_pattern(pattern),
            _ => Ok(pattern),
        }
    }

    pub(crate) fn parse_literal_pattern(&mut self) -> (r: Result<Pattern, ParserErr>)
        requires
            old(self).wf(),
        ensures
            r matches Ok(p) ==> Self::fresh(old(self), final(self), p.spec_node_id()),
            Self::steps(old(self), final(self)),
            Self::advanced(old(self), final(self), r),
            r matches Ok(p) ==> (p is Literal),
    {
        let begin = self.cur_span()?;
        let lit = self.parse_literal_expr_node()?;
        let span = self.get_span_to_current(begin);
        Ok(Pattern::Literal(self.add_node(LiteralPattern { span, node_id: NodeId::default(), literal: lit.literal, lit_op: lit.lit_op })))
    }

    /// Whether a pattern can start at the cursor: a literal, a name or a dot.
    pub(crate) fn pattern_available(&mut self) -> (r: bool)
        requires
            old(self).wf(),
        ensures
            *final(self) == *old(self),
            r == match old(self).peek_spec(0) {
                Some(Token::Literal(_)) => true,
                Some(Token::Name(_)) => true,
                Some(Token::Punctuation(Punctuation::Dot)) => true,
                _ => false,
            },
    {
        let peek = match self.try_peek() {
            Some(peek) => peek,
            None => return false,
        };
        match peek {
            Token::Literal(_) | Token::Name(_) | Token::Punctuation(Punctuation::Dot) => true,
            _ => false,
        }
    }

    pub(crate) fn parse_identifier_pattern(&mut self) -> (r: Result<Pattern, ParserErr>)
        requires
            old(self).wf(),
        ensures
            r matches Ok(p) ==> Self::fresh(old(self), final(self), p.spec_node_id()),
            Self::steps(old(self), final(self)),
            Self::advanced(old(self), final(self), r),
            r matches Ok(p) ==> (p is Identifier),
            r matches Ok(p) ==> match p {
                Pattern::Identifier(n) => {
                    let at = (if n.is_ref { 1int } else { 0int }) + (if n.is_mut { 1int } else { 0int });
                    &&& n.is_ref == (old(self).peek_spec(0) == Some(Token::StrongKw(StrongKeyword::Ref)))
                    &&& n.is_mut == (old(self).peek_spec(if n.is_ref { 1int } else { 0int }) == Some(Token::StrongKw(StrongKeyword::Mut)))
                    &&& old(self).peek_spec(at) matches Some(t) && old(self).name_of(t) == Some(n.name)
                    &&& (n.bound is Some <==> old(self).peek_spec(at + 1) == Some(Token::Punctuation(Punctuation::At)))
                },
                _ => false,
            },
        decreases old(self).tokens().len() - old(self).pos(), 0nat,
    {
        let begin = self.cur_span()?;
        let is_ref = self.try_consume(Token::StrongKw(StrongKeyword::Ref));
        let is_mut = self.try_consume(Token::StrongKw(StrongKeyword::Mut));

        let name = self.consume_name()?;

        let bound = if self.try_consume(Token::Punctuation(Punctuation::At)) {
            Some(self.parse_pattern()?)
        } else {
            None
        };

        let span = self.get_span_to_current(begin);
        Ok(Pattern::Identifier(self.add_node(IdentifierPattern { span, node_id: NodeId::default(), is_ref, is_mut, name, bound })))
    }

    pub(crate) fn parse_dotdot_pattern(&mut self) -> (r: Result<Pattern, ParserErr>)
        requires
            old(self).wf(),
        ensures
            r matches Ok(p) ==> Self::fresh(old(self), final(self), p.spec_node_id()),
            Self::steps(old(self), final(self)),
            Self::advanced(old(self), final(self), r),
            r matches Ok(p) ==> (p is Range || p is Rest),
            r matches Ok(p) ==> old(self).peek_spec(0) == Some(Token::Punctuation(Punctuation::DotDot)),
            r matches Ok(p) ==> match p {
                Pattern::Range(n) => *n is To,
                Pattern::Rest(n) => final(self).pos() == old(self).pos() + 1,
                _ => false,
            },
        decreases old(self).tokens().len() - old(self).pos(), 0nat,
    {
        let begin = self.cur_span()?;
        self.consume_punct(Punctuation::DotDot)?;
        if self.pattern_available() {
            self.push_meta_frame();
            let end = self.parse_pattern_no_top_alternative()?;
            let span = self.get_span_to_current(begin);
            Ok(Pattern::Range(self.add_node(RangePattern::To { span, node_id: NodeId::default(), end })))
        } else {
            Ok(Pattern::Rest(self.add_node(RestPattern { span: begin, node_id: NodeId::default() })))
        }
    }

    pub(crate) fn parse_inclusive_to_pattern(&mut self) -> (r: Result<Pattern, ParserErr>)
        requires
            old(self).wf(),
        ensures
            r matches Ok(p) ==> Self::fresh(old(self), final(self), p.spec_node_id()),
            Self::steps(old(self), final(self)),
            Self::advanced(old(self), final(self), r),
            r matches Ok(p) ==> (p is Range),
            r matches Ok(p) ==> match p {
                Pattern::Range(n) => old(self).peek_spec(0) == Some(Token::Punctuation(Punctuation::DotDotEquals)) && *n is InclusiveTo,
                _ => false,
            },
        decreases old(self).tokens().len() - old(self).pos(), 0nat,
    {
        let begin = self.cur_span()?;
        self.consume_punct(Punctuation::DotDotEquals)?;
        self.peek()?;
        self.push_meta_frame();
        let end = self.parse_pattern_no_top_alternative()?;
        let span = self.get_span_to_current(begin);
        Ok(Pattern::Range(self.add_node(RangePattern::InclusiveTo { span, node_id: NodeId::default(), end })))
    }

    /// A pattern that starts with a name: a binding where no dot, parenthesis
    /// or brace follows the name, else a path, a tuple struct or a struct pattern.
    pub(crate) fn parse_path_like_pattern(&mut self) -> (r: Result<Pattern, ParserErr>)
        requires
            old(self).wf(),
        ensures
            r matches Ok(p) ==> Self::fresh(old(self), final(self), p.spec_node_id()),
            Self::steps(old(self), final(self)),
            Self::advanced(old(self), final(self), r),
            r matches Ok(Pattern::Tuple(n)) ==> Self::in_source_order(old(self), final(self), n.patterns@),
        decreases old(self).tokens().len() - old(self).pos(), 3nat,
    {
        let begin = self.cur_span()?;
        let peek_1 = self.peek_at(1)?;
        if peek_1 != Token::Punctuation(Punctuation::Dot) && peek_1 != Token::OpenSymbol(OpenCloseSymbol::Paren)
            && peek_1 != Token::OpenSymbol(OpenCloseSymbol::Brace)
        {
            let name = self.consume_name()?;

            let bound = if self.try_consume(Token::Punctuation(Punctuation::At)) {
                self.peek()?;
                self.push_meta_frame();
                Some(self.parse_pattern_no_top_alternative()?)
            } else {
                None
            };

            let span = self.get_span_to_current(begin);
            return Ok(Pattern::Identifier(self.add_node(IdentifierPattern { span, node_id: NodeId::default(), is_ref: false, is_mut: false, name, bound })));
        }

        let path = self.parse_expr_path()?;
        match self.peek()? {
            Token::OpenSymbol(OpenCloseSymbol::Paren) => {
                self.begin_scope(OpenCloseSymbol::Paren)?;
                let mut patterns: Vec<Pattern> = Vec::new();
                while !self.try_end_scope()
                    invariant
                        Self::steps(old(self), self),
                        self.pos() > old(self).pos(),
                        Self::in_source_order(old(self), self, patterns@),
                    decreases self.tokens().len() - self.pos(),
                {
                    let ghost before = patterns@;
                    let pattern = self.parse_pattern()?;
                    patterns.push(pattern);
                    proof { Self::lemma_in_source_order_push(old(self), self, before, pattern); }
                    if !self.try_consume(Token::Punctuation(Punctuation::Comma)) {
                        self.end_scope()?;
                        break;
                    }
                }
                let span = self.get_span_to_current(begin);
                Ok(Pattern::Tuple(self.add_node(TuplePattern { span, node_id: NodeId::default(), patterns })))
            },
            Token::OpenSymbol(OpenCloseSymbol::Brace) => {
                let fields = self.parse_struct_pattern_fields()?;
                let span = self.get_span_to_current(begin);
                Ok(Pattern::Struct(self.add_node(StructPattern::Path { span, node_id: NodeId::default(), path, fields })))
            },
            Token::OpenSymbol(sym) => Err(self.gen_error(ParseErrorCode::UnexpectedFor { found: Token::OpenSymbol(sym), for_reason: "pattern" })),
            _ => {
                let span = self.get_span_to_current(begin);
                Ok(Pattern::Path(self.add_node(PathPattern { span, node_id: NodeId::default(), path })))
            },
        }
    }

    /// Struct pattern fields, comma separated between braces.
    pub(crate) fn parse_struct_pattern_fields(&mut self) -> (r: Result<Vec<StructPatternField>, ParserErr>)
        requires
            old(self).wf(),
        ensures
            Self::steps(old(self), final(self)),
            Self::advanced(old(self), final(self), r),
        decreases old(self).tokens().len() - old(self).pos(), 0nat,
    {
        self.begin_scope(OpenCloseSymbol::Brace)?;
        let mut fields: Vec<StructPatternField> = Vec::new();
        while !self.try_end_scope()
            invariant
                Self::steps(old(self), self),
                self.pos() > old(self).pos(),
            decreases self.tokens().len() - self.pos(),
        {
            let field = self.parse_struct_pattern_field()?;
            fields.push(field);
            if !self.try_consume(Token::Punctuation(Punctuation::Comma)) {
                self.end_scope()?;
                break;
            }
        }
        Ok(fields)
    }

    /// A binding after `@`, where there is one.
    pub(crate) fn parse_opt_bound(&mut self) -> (r: Result<Option<Pattern>, ParserErr>)
        requires
            old(self).wf(),
        ensures
            Self::steps(old(self), final(self)),
            Self::err_at_cursor(final(self), r),
        decreases old(self).tokens().len() - old(self).pos(), 0nat,
    {
        if self.try_consume(Token::Punctuation(Punctuation::At)) {
            Ok(Some(self.parse_pattern()?))
        } else {
            Ok(None)
        }
    }

    pub(crate) fn parse_struct_pattern_field(&mut self) -> (r: Result<StructPatternField, ParserErr>)
        requires
            old(self).wf(),
        ensures
            Self::steps(old(self), final(self)),
            Self::advanced(old(self), final(self), r),
        decreases old(self).tokens().len() - old(self).pos(), 0nat,
    {
        let begin = self.cur_span()?;
        let peek = self.peek()?;
        match peek {
            Token::Name(name) => {
                self.consume_single();
                if self.try_consume(Token::Punctuation(Punctuation::Colon)) {
                    let pattern = self.parse_pattern()?;
                    let span = self.get_span_to_current(begin);
                    Ok(StructPatternField::Named { span, name, pattern })
                } else {
                    let bound = self.parse_opt_bound()?;
                    let span = self.get_span_to_current(begin);
                    Ok(StructPatternField::Iden { span, is_ref: false, is_mut: false, iden: name, bound })
                }
            },
            Token::Literal(lit_id) => {
                self.consume_single();
                self.consume_punct(Punctuation::Colon)?;
                let pattern = self.parse_pattern()?;
                let span = self.get_span_to_current(begin);
                Ok(StructPatternField::TupleIndex { span, idx: lit_id, pattern })
            },
            Token::StrongKw(StrongKeyword::Mut) => {
                self.consume_single();
                let iden = self.consume_name()?;
                let bound = self.parse_opt_bound()?;
                let span = self.get_span_to_current(begin);
                Ok(StructPatternField::Iden { span, is_ref: false, is_mut: true, iden, bound })
            },
            Token::Punctuation(Punctuation::Ampersand) => {
                self.consume_single();
                let is_mut = self.try_consume(Token::StrongKw(StrongKeyword::Mut));
                let iden = self.consume_name()?;
                let bound = self.parse_opt_bound()?;
                let span = self.get_span_to_current(begin);
                Ok(StructPatternField::Iden { span, is_ref: true, is_mut, iden, bound })
            },
            Token::Punctuation(Punctuation::DotDot) => {
                self.consume_single();
                Ok(StructPatternField::Rest)
            },
            _ => Err(self.gen_error(ParseErrorCode::UnexpectedFor { found: peek, for_reason: "struct pattern field" })),
        }
    }

    pub(crate) fn parse_inferred_struct_pattern(&mut self) -> (r: Result<Pattern, ParserErr>)
        requires
            old(self).wf(),
        ensures
            r matches Ok(p) ==> Self::fresh(old(self), final(self), p.spec_node_id()),
            Self::steps(old(self), final(self)),
            Self::advanced(old(self), final(self), r),
            r matches Ok(p) ==> (p is Struct),
        decreases old(self).tokens().len() - old(self).pos(), 0nat,
    {
        let begin = self.cur_span()?;
        self.consume_punct(Punctuation::Dot)?;
        let fields = self.parse_struct_pattern_fields()?;
        let span = self.get_span_to_current(begin);
        Ok(Pattern::Struct(self.add_node(StructPattern::Inferred { span, node_id: NodeId::default(), fields })))
    }

    pub(crate) fn parse_enum_member_pattern(&mut self) -> (r: Result<Pattern, ParserErr>)
        requires
            old(self).wf(),
        ensures
            r matches Ok(p) ==> Self::fresh(old(self), final(self), p.spec_node_id()),
            Self::steps(old(self), final(self)),
            Self::advanced(old(self), final(self), r),
            r matches Ok(p) ==> (p is EnumMember),
            r matches Ok(p) ==> match p {
                Pattern::EnumMember(n) => old(self).peek_spec(0) == Some(Token::Punctuation(Punctuation::Dot)) && (old(self).peek_spec(1) matches Some(t) && old(self).name_of(t) == Some(n.name))
                    && final(self).pos() == old(self).pos() + 2,
                _ => false,
            },
    {
        let begin = self.cur_span()?;
        self.consume_punct(Punctuation::Dot)?;
        let name = self.consume_name()?;
        let span = self.get_span_to_current(begin);
        Ok(Pattern::EnumMember(self.add_node(EnumMemberPattern { span, node_id: NodeId::default(), name })))
    }

    pub(crate) fn parse_struct_pattern_elem(&mut self) -> (r: Result<StructPatternField, ParserErr>)
        requires
            old(self).wf(),
        ensures
            Self::steps(old(self), final(self)),
            Self::advanced(old(self), final(self), r),
        decreases old(self).tokens().len() - old(self).pos(), 0nat,
    {
        let begin = self.cur_span()?;
        if self.try_consume(Token::Punctuation(Punctuation::DotDot)) {
            return Ok(StructPatternField::Rest);
        }

        let peek = self.peek()?;
        match peek {
            Token::StrongKw(StrongKeyword::Ref) | Token::StrongKw(StrongKeyword::Mut) => {
                let is_ref = self.try_consume(Token::StrongKw(StrongKeyword::Ref));
                let is_mut = self.try_consume(Token::StrongKw(StrongKeyword::Mut));
                let iden = self.consume_name()?;
                let bound = self.parse_opt_bound()?;
                let span = self.get_span_to_current(begin);
                Ok(StructPatternField::Iden { span, is_ref, is_mut, iden, bound })
            },
            Token::Literal(lit_id) => {
                self.consume_single();
                self.consume_punct(Punctuation::Colon)?;
                let pattern = self.parse_pattern()?;
                let span = self.get_span_to_current(begin);
                Ok(StructPatternField::TupleIndex { span, idx: lit_id, pattern })
            },
            Token::Name(iden) => {
                self.consume_single();
                if !self.try_consume(Token::Punctuation(Punctuation::Colon)) {
                    let bound = self.parse_opt_bound()?;
                    let span = self.get_span_to_current(begin);
                    Ok(StructPatternField::Iden { span, is_ref: false, is_mut: false, iden, bound })
                } else {
                    let pattern = self.parse_pattern()?;
                    let span = self.get_span_to_current(begin);
                    Ok(StructPatternField::Named { span, name: iden, pattern })
                }
            },
            _ => Err(self.gen_error(ParseErrorCode::UnexpectedFor { found: peek, for_reason: "struct pattern element" })),
        }
    }

    pub(crate) fn parse_reference_pattern(&mut self) -> (r: Result<Pattern, ParserErr>)
        requires
            old(self).wf(),
        ensures
            r matches Ok(p) ==> Self::fresh(old(self), final(self), p.spec_node_id()),
            Self::steps(old(self), final(self)),
            Self::advanced(old(self), final(self), r),
            r matches Ok(p) ==> (p is Reference),
            r matches Ok(p) ==> match p {
                Pattern::Reference(n) => old(self).peek_spec(0) == Some(Token::Punctuation(Punctuation::Ampersand)) && n.is_mut == (old(self).peek_spec(1) == Some(Token::StrongKw(StrongKeyword::Mut))),
                _ => false,
            },
        decreases old(self).tokens().len() - old(self).pos(), 0nat,
    {
        let begin = self.cur_span()?;
        self.consume_punct(Punctuation::Ampersand)?;
        let is_mut = self.try_consume(Token::StrongKw(StrongKeyword::Mut));
        let pattern = self.parse_pattern()?;
        let span = self.get_span_to_current(begin);
        Ok(Pattern::Reference(self.add_node(ReferencePattern { span, node_id: NodeId::default(), is_mut, pattern })))
    }

    /// Patterns, comma separated between `sym` and its closing delimiter.
    pub(crate) fn parse_pattern_list(&mut self, sym: OpenCloseSymbol) -> (r: Result<Vec<Pattern>, ParserErr>)
        requires
            old(self).wf(),
        ensures
            Self::steps(old(self), final(self)),
            Self::advanced(old(self), final(self), r),
            r matches Ok(patterns) ==> old(self).peek_spec(0) == Some(Token::OpenSymbol(sym))
                && Self::in_source_order(old(self), final(self), patterns@),
        decreases old(self).tokens().len() - old(self).pos(), 0nat,
    {
        self.begin_scope(sym)?;
        let mut patterns: Vec<Pattern> = Vec::new();
        while !self.try_end_scope()
            invariant
                Self::steps(old(self), self),
                self.pos() > old(self).pos(),
                old(self).peek_spec(0) == Some(Token::OpenSymbol(sym)),
                Self::in_source_order(old(self), self, patterns@),
            decreases self.tokens().len() - self.pos(),
        {
            let ghost before = patterns@;
            let pattern = self.parse_pattern()?;
            patterns.push(pattern);
            proof { Self::lemma_in_source_order_push(old(self), self, before, pattern); }
            if !self.try_consume(Token::Punctuation(Punctuation::Comma)) {
                self.end_scope()?;
                break;
            }
        }
        Ok(patterns)
    }

    pub(crate) fn parse_tuple_like_pattern(&mut self) -> (r: Result<Pattern, ParserErr>)
        requires
            old(self).wf(),
        ensures
            r matches Ok(p) ==> Self::fresh(old(self), final(self), p.spec_node_id()),
            Self::steps(old(self), final(self)),
            Self::advanced(old(self), final(self), r),
            r matches Ok(p) ==> (p is Grouped || p is Tuple),
        decreases old(self).tokens().len() - old(self).pos(), 1nat,
    {
        let begin = self.cur_span()?;
        let mut patterns = self.parse_pattern_list(OpenCloseSymbol::Paren)?;
        let span = self.get_span_to_current(begin);
        if patterns.len() == 1 {
            let pattern = patterns.remove(0);
            Ok(Pattern::Grouped(self.add_node(GroupedPattern { span, node_id: NodeId::default(), pattern })))
        } else {
            Ok(Pattern::Tuple(self.add_node(TuplePattern { span, node_id: NodeId::default(), patterns })))
        }
    }

    pub(crate) fn parse_slice_pattern(&mut self) -> (r: Result<Pattern, ParserErr>)
        requires
            old(self).wf(),
        ensures
            r matches Ok(p) ==> Self::fresh(old(self), final(self), p.spec_node_id()),
            Self::steps(old(self), final(self)),
            Self::advanced(old(self), final(self), r),
            r matches Ok(p) ==> (p is Slice),
        decreases old(self).tokens().len() - old(self).pos(), 1nat,
    {
        let begin = self.cur_span()?;
        let patterns = self.parse_pattern_list(OpenCloseSymbol::Bracket)?;
        let span = self.get_span_to_current(begin);
        Ok(Pattern::Slice(self.add_node(SlicePattern { span, node_id: NodeId::default(), patterns })))
    }

    pub(crate) fn parse_type_check_pattern(&mut self) -> (r: Result<Pattern, ParserErr>)
        requires
            old(self).wf(),
        ensures
            r matches Ok(p) ==> Self::fresh(old(self), final(self), p.spec_node_id()),
            Self::steps(old(self), final(self)),
            Self::advanced(old(self), final(self), r),
            r matches Ok(p) ==> (p is TypeCheck),
            r matches Ok(p) ==> (p is TypeCheck) && old(self).peek_spec(0) == Some(Token::StrongKw(StrongKeyword::Is)),
        decreases old(self).tokens().len() - old(self).pos(), 0nat,
    {
        let begin = self.cur_span()?;
        self.consume_strong_kw(StrongKeyword::Is)?;
        let ty = self.parse_type()?;
        let span = self.get_span_to_current(begin);
        Ok(Pattern::TypeCheck(self.add_node(TypeCheckPattern { span, node_id: NodeId::default(), ty })))
    }

    pub(crate) fn parse_range_pattern(&mut self, begin: Pattern) -> (r: Result<Pattern, ParserErr>)
        requires
            old(self).wf(),
        ensures
            r matches Ok(p) ==> Self::fresh(old(self), final(self), p.spec_node_id()),
            Self::steps(old(self), final(self)),
            Self::advanced(old(self), final(self), r),
            r matches Ok(p) ==> (p is Range),
        decreases old(self).tokens().len() - old(self).pos(), 0nat,
    {
        let begin_span = begin.span();
        self.consume_punct(Punctuation::DotDot)?;
        if self.pattern_available() {
            self.push_meta_frame();
            let end = self.parse_pattern_no_top_alternative()?;
            let span = self.get_span_to_current(begin_span);
            Ok(Pattern::Range(self.add_node(RangePattern::Exclusive { span, node_id: NodeId::default(), begin, end })))
        } else {
            let span = self.get_span_to_current(begin_span);
            Ok(Pattern::Range(self.add_node(RangePattern::From { span, node_id: NodeId::default(), begin })))
        }
    }

    pub(crate) fn parse_inclusive_range_pattern(&mut self, begin: Pattern) -> (r: Result<Pattern, ParserErr>)
        requires
            old(self).wf(),
        ensures
            r matches Ok(p) ==> Self::fresh(old(self), final(self), p.spec_node_id()),
            Self::steps(old(self), final(self)),
            Self::advanced(old(self), final(self), r),
            r matches Ok(p) ==> (p is Range),
        decreases old(self).tokens().len() - old(self).pos(), 0nat,
    {
        let begin_span = begin.span();
        self.consume_punct(Punctuation::DotDotEquals)?;
        let end = self.parse_pattern()?;
        let span = self.get_span_to_current(begin_span);
        Ok(Pattern::Range(self.add_node(RangePattern::Inclusive { span, node_id: NodeId::default(), begin, end })))
    }
}

} // verus!
