//! Expressions.

use vstd::prelude::*;
use crate::ast::{
    ArrayExpr, AstNode, AstNodeRef, BlockExpr, BlockExprKind, BreakExpr, ClosureExpr, CommaExpr,
    ContinueExpr, DoWhileExpr, Expr, FallthroughExpr, FieldAccessExpr, FnArg, FnCallExpr, FnParam, ForExpr,
    IfExpr, IndexExpr, InfixExpr, InplaceExpr, LetBindingExpr, LiteralExpr, LiteralOp, LiteralValue,
    LoopExpr, MatchBranch, MatchExpr, MethodCallExpr, NodeId, ParenExpr, PathExpr, PostfixExpr,
    PrefixExpr, PrimitiveType, ReturnExpr, StringSliceType, StructArg, StructExpr, ThrowExpr, TupleExpr,
    TupleIndexExpr, TypeCastExpr, TypeCastKind, TypeCheckExpr, UnderscoreExpr, UnitExpr, WhenExpr,
    WhileExpr,
};
use crate::common::{NameId, SpanId};
use crate::lexer::{OpenCloseSymbol, Punctuation, StrongKeyword, Token};
use crate::type_system;
use super::{ExprParseMode, ParseErrorCode, Parser, ParserErr, group_parser_steps};
use super::types::{keyword_primitive, keyword_string_slice};

verus! {

broadcast use group_parser_steps;

/// The primitive type that a keyword names after a literal: the pointer-sized
/// integer types are not among them.
pub open spec fn literal_op_primitive(kw: StrongKeyword) -> Option<type_system::PrimitiveType> {
    match kw {
        StrongKeyword::Usize | StrongKeyword::Isize => None,
        _ => keyword_primitive(kw),
    }
}

/// The expression of a call argument, labeled or not.
pub open spec fn fn_arg_expr(arg: FnArg) -> Expr {
    match arg {
        FnArg::Expr { expr, .. } => expr,
        FnArg::Labeled { expr, .. } => expr,
    }
}

impl<'a> Parser<'a> {
    pub(crate) fn parse_expr(&mut self, mode: ExprParseMode) -> (r: Result<Expr, ParserErr>)
        requires
            old(self).wf(),
        ensures
            r matches Ok(e) ==> Self::fresh(old(self), final(self), e.spec_node_id()),
            Self::steps(old(self), final(self)),
            Self::advanced(old(self), final(self), r),
        decreases old(self).tokens().len() - old(self).pos(), 3nat,
    {
        let peek = self.peek()?;
        let begin = self.get_cur_span();
        self.push_meta_frame();

        let expr = self.parse_expr_operand(mode, begin)?;
        if mode == ExprParseMode::Prefix {
            return Ok(expr);
        }
        self.parse_expr_postfix(expr, begin, mode, peek)
    }

    /// The operand that an expression starts with.
    pub(crate) fn parse_expr_operand(&mut self, mode: ExprParseMode, begin: SpanId) -> (r: Result<Expr, ParserErr>)
        requires
            old(self).wf(),
        ensures
            r matches Ok(e) ==> Self::fresh(old(self), final(self), e.spec_node_id()),
            Self::steps(old(self), final(self)),
            Self::advanced(old(self), final(self), r),
            r matches Ok(e) ==> match old(self).peek_spec(0)->0 {
                Token::StrongKw(StrongKeyword::True) | Token::StrongKw(StrongKeyword::False) | Token::Literal(_) => e is Literal,
                Token::Name(_) | Token::Punctuation(Punctuation::Dot) | Token::StrongKw(StrongKeyword::SelfName) => e is Path,
                Token::StrongKw(StrongKeyword::Unsafe) | Token::StrongKw(StrongKeyword::Const)
                    | Token::StrongKw(StrongKeyword::Try) | Token::StrongKw(StrongKeyword::TryExclaim) => e is Block,
                Token::StrongKw(StrongKeyword::If) => e is If,
                Token::StrongKw(StrongKeyword::Loop) => e is Loop,
                Token::StrongKw(StrongKeyword::While) => e is While,
                Token::StrongKw(StrongKeyword::Do) => e is DoWhile,
                Token::StrongKw(StrongKeyword::For) => e is For,
                Token::StrongKw(StrongKeyword::Match) => e is Match,
                Token::StrongKw(StrongKeyword::Break) => e is Break,
                Token::StrongKw(StrongKeyword::Continue) => e is Continue,
                Token::StrongKw(StrongKeyword::Fallthrough) => e is Fallthrough,
                Token::StrongKw(StrongKeyword::Return) => e is Return,
                Token::StrongKw(StrongKeyword::When) => e is When,
                Token::StrongKw(StrongKeyword::Move) | Token::Punctuation(Punctuation::Or) => e is Closure,
                Token::OpenSymbol(OpenCloseSymbol::Brace) => e is Block,
                Token::OpenSymbol(OpenCloseSymbol::Bracket) => e is Array,
                Token::Underscore => e is Underscore,
                _ => true,
            },
        decreases old(self).tokens().len() - old(self).pos(), 2nat,
    {
        let peek = self.peek()?;
        match peek {
            Token::StrongKw(StrongKeyword::True) | Token::StrongKw(StrongKeyword::False) | Token::Literal(_) => self.parse_literal_expr(),
            Token::Name(_) | Token::Punctuation(Punctuation::Dot) | Token::StrongKw(StrongKeyword::SelfName) => self.parse_path_expr(),
            Token::StrongKw(kw) if kw.is_primitive_type() => self.parse_path_expr(),
            Token::StrongKw(StrongKeyword::Unsafe) => self.parse_unsafe_block_expr(),
            Token::StrongKw(StrongKeyword::Const) => self.parse_const_block_expr(),
            Token::StrongKw(StrongKeyword::TryExclaim) | Token::StrongKw(StrongKeyword::Try) => self.parse_try_block_expr(),
            Token::StrongKw(StrongKeyword::If) => self.parse_if_expr(),
            Token::StrongKw(StrongKeyword::Loop) => {
                let span = self.get_cur_span();
                self.parse_loop_expr(span, None)
            },
            Token::StrongKw(StrongKeyword::While) => {
                let span = self.get_cur_span();
                self.parse_while_expr(span, None)
            },
            Token::StrongKw(StrongKeyword::Do) => {
                let span = self.get_cur_span();
                self.parse_do_while_expr(span, None)
            },
            Token::StrongKw(StrongKeyword::For) => {
                let span = self.get_cur_span();
                self.parse_for_expr(span, None)
            },
            Token::StrongKw(StrongKeyword::Match) => {
                let span = self.get_cur_span();
                self.parse_match_expr(span, None)
            },
            Token::StrongKw(StrongKeyword::Break) => self.parse_break_expr(),
            Token::StrongKw(StrongKeyword::Continue) => self.parse_continue_expr(),
            Token::StrongKw(StrongKeyword::Fallthrough) => self.parse_fallthrough_expr(),
            Token::StrongKw(StrongKeyword::Return) => self.parse_return_expr(),
            Token::StrongKw(StrongKeyword::When) => self.parse_when_expr(),
            Token::StrongKw(StrongKeyword::Let) if mode == ExprParseMode::AllowLet => self.parse_let_binding_expr(),
            Token::StrongKw(StrongKeyword::Move) | Token::Punctuation(Punctuation::Or) => self.parse_closure_expr(),
            Token::Punctuation(Punctuation::Colon) => self.parse_labeled_expr(),
            Token::Punctuation(Punctuation::Comma) | Token::Punctuation(Punctuation::Semicolon) =>
                Err(self.gen_error(ParseErrorCode::UnexpectedFor { found: peek, for_reason: "expression" })),
            Token::Punctuation(_) => self.parse_prefix_expr(),
            Token::OpenSymbol(OpenCloseSymbol::Brace) => {
                let span = self.get_cur_span();
                let block = self.parse_block_expr(span, None)?;
                Ok(Expr::Block(block))
            },
            Token::OpenSymbol(OpenCloseSymbol::Bracket) => self.parse_array_expr(),
            Token::OpenSymbol(OpenCloseSymbol::Paren) => {
                if self.check_peek(&[1], Token::CloseSymbol(OpenCloseSymbol::Paren)) {
                    self.consume_single();
                    self.consume_single();
                    let span = self.get_span_to_current(begin);
                    Ok(Expr::Unit(self.add_node(UnitExpr { span, node_id: NodeId::default() })))
                } else if self.check_peek(&[1], Token::Punctuation(Punctuation::Colon)) {
                    self.parse_path_expr()
                } else {
                    self.parse_paren_expr()
                }
            },
            Token::Underscore => {
                self.consume_single();
                Ok(Expr::Underscore(self.add_node(UnderscoreExpr { span: begin, node_id: NodeId::default() })))
            },
            _ => Err(self.gen_error(ParseErrorCode::UnexpectedFor { found: peek, for_reason: "expression" })),
        }
    }

    /// A loop, block or match with a label in front of it.
    pub(crate) fn parse_labeled_expr(&mut self) -> (r: Result<Expr, ParserErr>)
        requires
            old(self).wf(),
        ensures
            r matches Ok(e) ==> Self::fresh(old(self), final(self), e.spec_node_id()),
            Self::steps(old(self), final(self)),
            Self::advanced(old(self), final(self), r),
        decreases old(self).tokens().len() - old(self).pos(), 0nat,
    {
        let begin = self.cur_span()?;
        let label = Some(self.parse_label()?);
        let peek = self.peek()?;
        match peek {
            Token::StrongKw(StrongKeyword::Loop) => self.parse_loop_expr(begin, label),
            Token::StrongKw(StrongKeyword::While) => self.parse_while_expr(begin, label),
            Token::StrongKw(StrongKeyword::Do) => self.parse_do_while_expr(begin, label),
            Token::StrongKw(StrongKeyword::For) => self.parse_for_expr(begin, label),
            Token::StrongKw(StrongKeyword::Match) => self.parse_match_expr(begin, label),
            Token::OpenSymbol(OpenCloseSymbol::Brace) => {
                let block = self.parse_block_expr(begin, label)?;
                Ok(Expr::Block(block))
            },
            _ => Err(self.gen_error(ParseErrorCode::InvalidLabel)),
        }
    }

    /// What follows the first operand of an expression: postfix and infix
    /// operators, calls, indexing, member access, casts and checks. Where a
    /// brace follows and struct literals are not allowed, the expression ends.
    pub(crate) fn parse_expr_postfix(&mut self, first: Expr, begin: SpanId, mode: ExprParseMode, first_tok: Token) -> (r: Result<Expr, ParserErr>)
        requires
            old(self).wf(),
            old(self).pos() >= 1,
        ensures
            r matches Ok(e) ==> (e == first || Self::fresh(old(self), final(self), e.spec_node_id())),
            Self::steps(old(self), final(self)),
            Self::err_at_cursor(final(self), r),
        decreases old(self).tokens().len() - old(self).pos(), 2nat,
    {
        let mut expr = first;
        loop
            invariant
                Self::steps(old(self), self),
                self.pos() >= 1,
                expr == first || Self::fresh(old(self), self, expr.spec_node_id()),
            decreases self.tokens().len() - self.pos(),
        {
            self.push_last_frame();
            let peek = self.peek()?;
            expr = match peek {
                Token::Punctuation(Punctuation::Semicolon) | Token::Punctuation(Punctuation::Colon) | Token::Punctuation(Punctuation::DoubleArrow) => {
                    self.pop_meta_frame();
                    return Ok(expr);
                },
                Token::Punctuation(Punctuation::SingleArrowL) => return self.parse_inplace_expr(expr),
                Token::Punctuation(Punctuation::AndAnd) if mode == ExprParseMode::Scrutinee => {
                    self.pop_meta_frame();
                    return Ok(expr);
                },
                Token::Punctuation(Punctuation::Comma) => if mode == ExprParseMode::AllowComma {
                    self.parse_comma_expr(expr)?
                } else {
                    self.pop_meta_frame();
                    return Ok(expr);
                },
                Token::Punctuation(Punctuation::QuestionDot) => self.parse_field_access_or_method_expr(expr)?,
                Token::Punctuation(Punctuation::Dot) => {
                    let peek_1 = self.peek_at(1)?;
                    match peek_1 {
                        Token::Literal(_) => self.parse_tuple_index(expr)?,
                        Token::Name(_) => self.parse_field_access_or_method_expr(expr)?,
                        _ => return Err(self.gen_error(ParseErrorCode::UnexpectedFor { found: peek_1, for_reason: "expression" })),
                    }
                },
                Token::Punctuation(_) => self.parse_operator_expr(expr, begin, mode)?,
                Token::StrongKw(StrongKeyword::In) | Token::StrongKw(StrongKeyword::ExclaimIn) => self.parse_contains_expr(expr, begin, mode)?,
                Token::OpenSymbol(OpenCloseSymbol::Brace) => if mode != ExprParseMode::NoStructLit {
                    self.parse_struct_expr(expr, true)?
                } else {
                    let expr = self.parse_struct_expr(expr, false)?;
                    self.pop_meta_frame();
                    return Ok(expr);
                },
                Token::OpenSymbol(OpenCloseSymbol::Bracket) => self.parse_index_expr(expr)?,
                Token::OpenSymbol(OpenCloseSymbol::Paren) => self.parse_call_expression(expr)?,
                Token::StrongKw(StrongKeyword::As) | Token::StrongKw(StrongKeyword::AsQuestion) | Token::StrongKw(StrongKeyword::AsExclaim) =>
                    return self.parse_type_cast(expr),
                Token::StrongKw(StrongKeyword::Is) | Token::StrongKw(StrongKeyword::ExclaimIs) => return self.parse_type_check(expr),
                Token::Name(_) | Token::Literal(_) =>
                    return Err(self.gen_error(ParseErrorCode::UnexpectedFor { found: first_tok, for_reason: "expression" })),
                _ => {
                    self.pop_meta_frame();
                    return Ok(expr);
                },
            };
        }
    }

    /// An operator after an expression: postfix where the expression ends
    /// after it, or where it is followed by another operator with whitespace
    /// only after it; infix otherwise.
    pub(crate) fn parse_operator_expr(&mut self, expr: Expr, begin: SpanId, mode: ExprParseMode) -> (r: Result<Expr, ParserErr>)
        requires
            old(self).wf(),
            old(self).pos() >= 1,
        ensures
            r matches Ok(e) ==> Self::fresh(old(self), final(self), e.spec_node_id()),
            Self::steps(old(self), final(self)),
            Self::advanced(old(self), final(self), r),
            !(old(self).peek_spec(0) matches Some(Token::Punctuation(_))) ==> r is Err,
            old(self).peek_spec(0) matches Some(Token::Punctuation(op)) ==> ({
                let p = old(self).pos();
                let next = old(self).peek_spec(1);
                let ends = match next {
                    None => true,
                    Some(Token::CloseSymbol(_)) => true,
                    Some(Token::Punctuation(Punctuation::Semicolon)) => true,
                    Some(Token::Punctuation(Punctuation::Comma)) => true,
                    Some(_) => false,
                };
                let glued = next matches Some(Token::Punctuation(_));
                &&& ends ==> (r matches Ok(Expr::Postfix(n)) && n.op == op && n.expr == expr)
                &&& (!ends && glued && p + 2 >= old(self).tokens().len()) ==> (r matches Err(e) && e.err is NotEnoughTokens)
                &&& (!ends && glued && p + 2 < old(self).tokens().len()) ==> {
                    let before = old(self).spaced_before(p);
                    let after = old(self).spaced_before(p + 2);
                    &&& before == after ==> (r matches Err(e) && e.err is AmbiguousOperators)
                    &&& (before && !after) ==> (r matches Ok(x) ==> (x matches Expr::Infix(n) && n.op == op && n.left == expr))
                    &&& (!before && after) ==> (r matches Ok(Expr::Postfix(n)) && n.op == op && n.expr == expr)
                }
                &&& (!ends && !glued) ==> (r matches Ok(x) ==> (x matches Expr::Infix(n) && n.op == op && n.left == expr))
            }),
        decreases old(self).tokens().len() - old(self).pos(), 0nat,
    {
        let ghost start = *self;
        let op = self.consume_any_punct()?;
        proof { reveal(Parser::keeps); }
        if self.is_end_of_expr() {
            let span = self.get_span_to_current(begin);
            return Ok(Expr::Postfix(self.add_node(PostfixExpr { span, node_id: NodeId::default(), op, expr })));
        }

        if let Token::Punctuation(_) = self.peek()? {
            if self.token_idx + 1 >= self.token_store.tokens.len() {
                return Err(self.gen_error(ParseErrorCode::NotEnoughTokens));
            }
            let has_prev_whitespace = self.token_store.metadata[self.token_idx - 1].meta_elems.len() != 0;
            let has_next_whitespace = self.token_store.metadata[self.token_idx + 1].meta_elems.len() != 0;

            if has_prev_whitespace == has_next_whitespace {
                Err(self.gen_error(ParseErrorCode::AmbiguousOperators))
            } else if has_prev_whitespace {
                let right = self.parse_expr(mode)?;
                let span = self.get_span_to_current(begin);
                Ok(Expr::Infix(self.add_node(InfixExpr { span, node_id: NodeId::default(), op, left: expr, right })))
            } else {
                let span = self.get_span_to_current(begin);
                Ok(Expr::Postfix(self.add_node(PostfixExpr { span, node_id: NodeId::default(), op, expr })))
            }
        } else {
            let right = self.parse_expr(mode)?;
            let span = self.get_span_to_current(begin);
            Ok(Expr::Infix(self.add_node(InfixExpr { span, node_id: NodeId::default(), op, left: expr, right })))
        }
    }

    /// `in` or `!in` and the expression on its right.
    pub(crate) fn parse_contains_expr(&mut self, expr: Expr, begin: SpanId, mode: ExprParseMode) -> (r: Result<Expr, ParserErr>)
        requires
            old(self).wf(),
        ensures
            r matches Ok(e) ==> Self::fresh(old(self), final(self), e.spec_node_id()),
            Self::steps(old(self), final(self)),
            Self::advanced(old(self), final(self), r),
            r is Ok ==> (old(self).peek_spec(0) == Some(Token::StrongKw(StrongKeyword::In))
                || old(self).peek_spec(0) == Some(Token::StrongKw(StrongKeyword::ExclaimIn))),
            r matches Ok(e) ==> (e matches Expr::Infix(n) && n.left == expr
                && (n.op == Punctuation::Contains <==> old(self).peek_spec(0) == Some(Token::StrongKw(StrongKeyword::In)))
                && (n.op == Punctuation::NotContains <==> old(self).peek_spec(0) == Some(Token::StrongKw(StrongKeyword::ExclaimIn)))
                && Self::fresh(old(self), final(self), n.spec_node_id())),
        decreases old(self).tokens().len() - old(self).pos(), 0nat,
    {
        let op = if self.try_consume(Token::StrongKw(StrongKeyword::ExclaimIn)) {
            Punctuation::NotContains
        } else {
            self.consume_strong_kw(StrongKeyword::In)?;
            Punctuation::Contains
        };
        let right = self.parse_expr(mode)?;
        let span = self.get_span_to_current(begin);
        Ok(Expr::Infix(self.add_node(InfixExpr { span, node_id: NodeId::default(), op, left: expr, right })))
    }

    /// Whether an expression ends at the cursor: at the end of the tokens,
    /// or before a closing delimiter, a semicolon or a comma.
    pub fn is_end_of_expr(&mut self) -> (r: bool)
        requires
            old(self).wf(),
        ensures
            *final(self) == *old(self),
            r == match old(self).peek_spec(0) {
                None => true,
                Some(Token::CloseSymbol(_)) => true,
                Some(Token::Punctuation(Punctuation::Semicolon)) => true,
                Some(Token::Punctuation(Punctuation::Comma)) => true,
                Some(_) => false,
            },
    {
        let peek = match self.try_peek() {
            Some(peek) => peek,
            None => return true,
        };
        match peek {
            Token::CloseSymbol(_) | Token::Punctuation(Punctuation::Semicolon) | Token::Punctuation(Punctuation::Comma) => true,
            _ => false,
        }
    }

    pub(crate) fn parse_literal_expr(&mut self) -> (r: Result<Expr, ParserErr>)
        requires
            old(self).wf(),
        ensures
            r matches Ok(e) ==> Self::fresh(old(self), final(self), e.spec_node_id()),
            Self::steps(old(self), final(self)),
            Self::advanced(old(self), final(self), r),
            r matches Ok(e) ==> (e is Literal),
            r matches Ok(Expr::Literal(n)) ==> match old(self).peek_spec(0) {
                Some(Token::Literal(id)) => n.literal == LiteralValue::Lit(id),
                Some(Token::StrongKw(StrongKeyword::True)) => n.literal == LiteralValue::Bool(true),
                Some(Token::StrongKw(StrongKeyword::False)) => n.literal == LiteralValue::Bool(false),
                _ => false,
            },
    {
        let node = self.parse_literal_expr_node()?;
        Ok(Expr::Literal(self.add_node(node)))
    }

    pub(crate) fn parse_literal_expr_node(&mut self) -> (r: Result<LiteralExpr, ParserErr>)
        requires
            old(self).wf(),
        ensures
            Self::steps(old(self), final(self)),
            Self::advanced(old(self), final(self), r),
            final(self).node_meta() == old(self).node_meta(),
            r matches Ok(n) ==> match old(self).peek_spec(0) {
                Some(Token::Literal(id)) => n.literal == LiteralValue::Lit(id),
                Some(Token::StrongKw(StrongKeyword::True)) => n.literal == LiteralValue::Bool(true),
                Some(Token::StrongKw(StrongKeyword::False)) => n.literal == LiteralValue::Bool(false),
                _ => false,
            },
    {
        let begin = self.cur_span()?;
        let peek = self.peek()?;
        match peek {
            Token::Literal(_) => {
                let literal = self.consume_lit()?;
                let lit_op = self.parse_literal_op()?;
                let span = self.get_span_to_current(begin);
                Ok(LiteralExpr { span, node_id: NodeId::default(), literal: LiteralValue::Lit(literal), lit_op })
            },
            Token::StrongKw(StrongKeyword::True) | Token::StrongKw(StrongKeyword::False) => {
                let (tok, _) = self.consume_single();
                let value = tok == Token::StrongKw(StrongKeyword::True);
                let lit_op = self.parse_literal_op()?;
                let span = self.get_span_to_current(begin);
                Ok(LiteralExpr { span, node_id: NodeId::default(), literal: LiteralValue::Bool(value), lit_op })
            },
            _ => Err(self.gen_error(ParseErrorCode::UnexpectedFor { found: peek, for_reason: "literal" })),
        }
    }

    /// A literal operator: a colon and a name or a primitive type after a literal.
    pub(crate) fn parse_literal_op(&mut self) -> (r: Result<Option<LiteralOp>, ParserErr>)
        requires
            old(self).wf(),
        ensures
            Self::steps(old(self), final(self)),
            Self::err_at_cursor(final(self), r),
            final(self).node_meta() == old(self).node_meta(),
            r matches Ok(None) ==> final(self).pos() == old(self).pos(),
            r matches Ok(Some(_)) ==> final(self).pos() == old(self).pos() + 2,
            old(self).peek_spec(0) != Some(Token::Punctuation(Punctuation::Colon)) ==> r matches Ok(None),
            old(self).peek_spec(0) == Some(Token::Punctuation(Punctuation::Colon)) ==> match old(self).peek_spec(1) {
                Some(Token::Name(name)) => r matches Ok(Some(LiteralOp::Name(n))) && n == name,
                Some(Token::StrongKw(kw)) => match literal_op_primitive(kw) {
                    Some(prim) => r matches Ok(Some(LiteralOp::Primitive(t))) && t.ty == prim,
                    None => match keyword_string_slice(kw) {
                        Some(slice) => r matches Ok(Some(LiteralOp::StringSlice(t))) && t.ty == slice,
                        None => r is Err,
                    },
                },
                _ => r is Err,
            },
    {
        if !self.try_consume(Token::Punctuation(Punctuation::Colon)) {
            return Ok(None);
        }
        let peek = self.peek()?;
        let (_, span) = self.consume_single();
        match peek {
            Token::Name(name_id) => Ok(Some(LiteralOp::Name(name_id))),
            Token::StrongKw(kw) => {
                let prim = match kw {
                    StrongKeyword::U8 => Some(type_system::PrimitiveType::U8),
                    StrongKeyword::U16 => Some(type_system::PrimitiveType::U16),
                    StrongKeyword::U32 => Some(type_system::PrimitiveType::U32),
                    StrongKeyword::U64 => Some(type_system::PrimitiveType::U64),
                    StrongKeyword::U128 => Some(type_system::PrimitiveType::U128),
                    StrongKeyword::I8 => Some(type_system::PrimitiveType::I8),
                    StrongKeyword::I16 => Some(type_system::PrimitiveType::I16),
                    StrongKeyword::I32 => Some(type_system::PrimitiveType::I32),
                    StrongKeyword::I64 => Some(type_system::PrimitiveType::I64),
                    StrongKeyword::I128 => Some(type_system::PrimitiveType::I128),
                    StrongKeyword::F16 => Some(type_system::PrimitiveType::F16),
                    StrongKeyword::F32 => Some(type_system::PrimitiveType::F32),
                    StrongKeyword::F64 => Some(type_system::PrimitiveType::F64),
                    StrongKeyword::F128 => Some(type_system::PrimitiveType::F128),
                    StrongKeyword::Bool => Some(type_system::PrimitiveType::Bool),
                    StrongKeyword::B8 => Some(type_system::PrimitiveType::B8),
                    StrongKeyword::B16 => Some(type_system::PrimitiveType::B16),
                    StrongKeyword::B32 => Some(type_system::PrimitiveType::B32),
                    StrongKeyword::B64 => Some(type_system::PrimitiveType::B64),
                    StrongKeyword::Char => Some(type_system::PrimitiveType::Char),
                    StrongKeyword::Char7 => Some(type_system::PrimitiveType::Char7),
                    StrongKeyword::Char8 => Some(type_system::PrimitiveType::Char8),
                    StrongKeyword::Char16 => Some(type_system::PrimitiveType::Char16),
                    StrongKeyword::Char32 => Some(type_system::PrimitiveType::Char32),
                    _ => None,
                };
                let string_slice = match kw {
                    StrongKeyword::Str => Some(type_system::StringSliceType::Str),
                    StrongKeyword::Str7 => Some(type_system::StringSliceType::Str7),
                    StrongKeyword::Str8 => Some(type_system::StringSliceType::Str8),
                    StrongKeyword::Str16 => Some(type_system::StringSliceType::Str16),
                    StrongKeyword::Str32 => Some(type_system::StringSliceType::Str32),
                    StrongKeyword::CStr => Some(type_system::StringSliceType::CStr),
                    _ => None,
                };
                if let Some(ty) = prim {
                    Ok(Some(LiteralOp::Primitive(PrimitiveType { span, node_id: NodeId::default(), ty })))
                } else if let Some(ty) = string_slice {
                    Ok(Some(LiteralOp::StringSlice(StringSliceType { span, node_id: NodeId::default(), ty })))
                } else {
                    Err(self.gen_error(ParseErrorCode::UnexpectedFor { found: peek, for_reason: "literal operator" }))
                }
            },
            _ => Err(self.gen_error(ParseErrorCode::UnexpectedFor { found: peek, for_reason: "literal operator" })),
        }
    }

    pub(crate) fn parse_path_expr(&mut self) -> (r: Result<Expr, ParserErr>)
        requires
            old(self).wf(),
        ensures
            r matches Ok(e) ==> Self::fresh(old(self), final(self), e.spec_node_id()),
            Self::steps(old(self), final(self)),
            Self::advanced(old(self), final(self), r),
            r matches Ok(e) ==> (e is Path),
        decreases old(self).tokens().len() - old(self).pos(), 1nat,
    {
        let begin = self.cur_span()?;
        if self.try_consume(Token::StrongKw(StrongKeyword::SelfName)) {
            Ok(Expr::Path(self.add_node(PathExpr::SelfVar { span: begin, node_id: NodeId::invalid() })))
        } else {
            let start = self.parse_path_start()?;
            let iden = self.parse_identifier(true)?;
            let span = self.get_span_to_current(begin);
            Ok(Expr::Path(self.add_node(PathExpr::Path { span, node_id: NodeId::invalid(), start, iden })))
        }
    }

    pub(crate) fn parse_block_expr(&mut self, begin: SpanId, label: Option<NameId>) -> (r: Result<AstNodeRef<BlockExpr>, ParserErr>)
        requires
            old(self).wf(),
        ensures
            r matches Ok(b) ==> Self::fresh(old(self), final(self), b.spec_node_id()),
            Self::steps(old(self), final(self)),
            Self::advanced(old(self), final(self), r),
            r matches Ok(n) ==> Self::fresh(old(self), final(self), n.spec_node_id()),
        decreases old(self).tokens().len() - old(self).pos(), 1nat,
    {
        let block = self.parse_block()?;
        let span = self.get_span_to_current(begin);
        let kind = match label {
            Some(label) => BlockExprKind::Labeled { label },
            None => BlockExprKind::Normal,
        };
        Ok(self.add_node(BlockExpr { span, node_id: NodeId::default(), kind, block }))
    }

    /// A block after a frame is opened at its brace.
    pub(crate) fn parse_framed_block_expr(&mut self) -> (r: Result<AstNodeRef<BlockExpr>, ParserErr>)
        requires
            old(self).wf(),
        ensures
            r matches Ok(b) ==> Self::fresh(old(self), final(self), b.spec_node_id()),
            Self::steps(old(self), final(self)),
            Self::advanced(old(self), final(self), r),
        decreases old(self).tokens().len() - old(self).pos(), 2nat,
    {
        self.peek()?;
        self.push_meta_frame();
        let span = self.get_cur_span();
        self.parse_block_expr(span, None)
    }

    pub(crate) fn parse_unsafe_block_expr(&mut self) -> (r: Result<Expr, ParserErr>)
        requires
            old(self).wf(),
        ensures
            r matches Ok(e) ==> Self::fresh(old(self), final(self), e.spec_node_id()),
            Self::steps(old(self), final(self)),
            Self::advanced(old(self), final(self), r),
            r matches Ok(e) ==> (e is Block),
            r matches Ok(e) ==> match e {
                Expr::Block(b) => old(self).peek_spec(0) == Some(Token::StrongKw(StrongKeyword::Unsafe)) && b.kind == BlockExprKind::Unsafe,
                _ => false,
            },
        decreases old(self).tokens().len() - old(self).pos(), 0nat,
    {
        let begin = self.cur_span()?;
        self.consume_strong_kw(StrongKeyword::Unsafe)?;
        let block = self.parse_block()?;
        let span = self.get_span_to_current(begin);
        Ok(Expr::Block(self.add_node(BlockExpr { span, node_id: NodeId::default(), kind: BlockExprKind::Unsafe, block })))
    }

    pub(crate) fn parse_const_block_expr(&mut self) -> (r: Result<Expr, ParserErr>)
        requires
            old(self).wf(),
        ensures
            r matches Ok(e) ==> Self::fresh(old(self), final(self), e.spec_node_id()),
            Self::steps(old(self), final(self)),
            Self::advanced(old(self), final(self), r),
            r matches Ok(e) ==> (e is Block),
            r matches Ok(e) ==> match e {
                Expr::Block(b) => old(self).peek_spec(0) == Some(Token::StrongKw(StrongKeyword::Const)) && b.kind == BlockExprKind::Const,
                _ => false,
            },
        decreases old(self).tokens().len() - old(self).pos(), 0nat,
    {
        let begin = self.cur_span()?;
        self.consume_strong_kw(StrongKeyword::Const)?;
        let block = self.parse_block()?;
        let span = self.get_span_to_current(begin);
        Ok(Expr::Block(self.add_node(BlockExpr { span, node_id: NodeId::default(), kind: BlockExprKind::Const, block })))
    }

    pub(crate) fn parse_try_block_expr(&mut self) -> (r: Result<Expr, ParserErr>)
        requires
            old(self).wf(),
        ensures
            r matches Ok(e) ==> Self::fresh(old(self), final(self), e.spec_node_id()),
            Self::steps(old(self), final(self)),
            Self::advanced(old(self), final(self), r),
            r matches Ok(e) ==> (e is Block),
            r matches Ok(e) ==> match e {
                Expr::Block(b) => (old(self).peek_spec(0) == Some(Token::StrongKw(StrongKeyword::TryExclaim)) && b.kind == BlockExprKind::TryUnwrap)
                    || (old(self).peek_spec(0) == Some(Token::StrongKw(StrongKeyword::Try)) && b.kind == BlockExprKind::Try),
                _ => false,
            },
        decreases old(self).tokens().len() - old(self).pos(), 0nat,
    {
        let begin = self.cur_span()?;
        let kind = if self.try_consume(Token::StrongKw(StrongKeyword::TryExclaim)) {
            BlockExprKind::TryUnwrap
        } else {
            self.consume_strong_kw(StrongKeyword::Try)?;
            BlockExprKind::Try
        };
        let block = self.parse_block()?;
        let span = self.get_span_to_current(begin);
        Ok(Expr::Block(self.add_node(BlockExpr { span, node_id: NodeId::default(), kind, block })))
    }

    pub(crate) fn parse_prefix_expr(&mut self) -> (r: Result<Expr, ParserErr>)
        requires
            old(self).wf(),
        ensures
            r matches Ok(e) ==> Self::fresh(old(self), final(self), e.spec_node_id()),
            Self::steps(old(self), final(self)),
            Self::advanced(old(self), final(self), r),
            r matches Ok(e) ==> (e is Prefix),
            r matches Ok(e) ==> match e {
                Expr::Prefix(n) => old(self).peek_spec(0) == Some(Token::Punctuation(n.op)),
                _ => false,
            },
        decreases old(self).tokens().len() - old(self).pos(), 0nat,
    {
        let begin = self.cur_span()?;
        let op = self.consume_any_punct()?;
        let expr = self.parse_expr(ExprParseMode::Prefix)?;
        let span = self.get_span_to_current(begin);
        Ok(Expr::Prefix(self.add_node(PrefixExpr { span, node_id: NodeId::default(), op, expr })))
    }

    pub(crate) fn parse_paren_expr(&mut self) -> (r: Result<Expr, ParserErr>)
        requires
            old(self).wf(),
        ensures
            r matches Ok(e) ==> Self::fresh(old(self), final(self), e.spec_node_id()),
            Self::steps(old(self), final(self)),
            Self::advanced(old(self), final(self), r),
            r matches Ok(e) ==> (e is Paren || e is Tuple),
            r matches Ok(Expr::Paren(n)) ==> Self::fresh(old(self), final(self), n.expr.spec_node_id()),
            r matches Ok(Expr::Tuple(n)) ==> Self::in_source_order(old(self), final(self), n.exprs@),
        decreases old(self).tokens().len() - old(self).pos(), 0nat,
    {
        let begin = self.cur_span()?;
        self.begin_scope(OpenCloseSymbol::Paren)?;
        let mut exprs: Vec<Expr> = Vec::new();
        while !self.try_end_scope()
            invariant
                Self::steps(old(self), self),
                self.pos() > old(self).pos(),
                Self::in_source_order(old(self), self, exprs@),
            decreases self.tokens().len() - self.pos(),
        {
            let ghost before = exprs@;
            let expr = self.parse_expr(ExprParseMode::AllowComma)?;
            exprs.push(expr);
            proof {
                assert forall|k: int| 0 <= k < exprs@.len() implies
                    old(self).node_meta().len() <= #[trigger] exprs@[k].spec_node_id().spec_index() < self.node_meta().len() by {
                    if k < before.len() {
                        assert(exprs@[k] == before[k]);
                    }
                }
                assert forall|a: int, b: int| 0 <= a < b < exprs@.len() implies
                    #[trigger] exprs@[a].spec_node_id().spec_index() < #[trigger] exprs@[b].spec_node_id().spec_index() by {
                    assert(exprs@[a] == before[a]);
                    if b < before.len() {
                        assert(exprs@[b] == before[b]);
                    }
                }
            }
            if !self.try_consume(Token::Punctuation(Punctuation::Comma)) {
                self.end_scope()?;
                break;
            }
        }
        let span = self.get_span_to_current(begin);
        if exprs.len() == 1 {
            let expr = exprs.remove(0);
            Ok(Expr::Paren(self.add_node(ParenExpr { span, node_id: NodeId::default(), expr })))
        } else {
            Ok(Expr::Tuple(self.add_node(TupleExpr { span, node_id: NodeId::default(), exprs })))
        }
    }

    pub(crate) fn parse_inplace_expr(&mut self, left: Expr) -> (r: Result<Expr, ParserErr>)
        requires
            old(self).wf(),
        ensures
            r matches Ok(e) ==> Self::fresh(old(self), final(self), e.spec_node_id()),
            Self::steps(old(self), final(self)),
            Self::advanced(old(self), final(self), r),
            r matches Ok(e) ==> match e {
                Expr::Inplace(n) => old(self).peek_spec(0) == Some(Token::Punctuation(Punctuation::SingleArrowL)) && n.left == left,
                _ => false,
            },
        decreases old(self).tokens().len() - old(self).pos(), 0nat,
    {
        let begin = left.span();
        self.consume_punct(Punctuation::SingleArrowL)?;
        let right = self.parse_expr(ExprParseMode::AllowComma)?;
        let span = self.get_span_to_current(begin);
        Ok(Expr::Inplace(self.add_node(InplaceExpr { span, node_id: NodeId::default(), left, right })))
    }

    pub(crate) fn parse_type_cast(&mut self, expr: Expr) -> (r: Result<Expr, ParserErr>)
        requires
            old(self).wf(),
        ensures
            r matches Ok(e) ==> Self::fresh(old(self), final(self), e.spec_node_id()),
            Self::steps(old(self), final(self)),
            Self::advanced(old(self), final(self), r),
            r is Ok ==> (old(self).peek_spec(0) == Some(Token::StrongKw(StrongKeyword::As)) || old(self).peek_spec(0) == Some(Token::StrongKw(StrongKeyword::AsQuestion))
                || old(self).peek_spec(0) == Some(Token::StrongKw(StrongKeyword::AsExclaim))),
            r matches Ok(e) ==> (e matches Expr::TypeCast(n) && n.expr == expr
                && (n.kind == TypeCastKind::Normal <==> old(self).peek_spec(0) == Some(Token::StrongKw(StrongKeyword::As)))
                && (n.kind == TypeCastKind::Try <==> old(self).peek_spec(0) == Some(Token::StrongKw(StrongKeyword::AsQuestion)))
                && (n.kind == TypeCastKind::Unwrap <==> old(self).peek_spec(0) == Some(Token::StrongKw(StrongKeyword::AsExclaim)))),
        decreases old(self).tokens().len() - old(self).pos(), 0nat,
    {
        let begin = expr.span();
        let kind = if self.try_consume(Token::StrongKw(StrongKeyword::AsQuestion)) {
            TypeCastKind::Try
        } else if self.try_consume(Token::StrongKw(StrongKeyword::AsExclaim)) {
            TypeCastKind::Unwrap
        } else {
            self.consume_strong_kw(StrongKeyword::As)?;
            TypeCastKind::Normal
        };
        let ty = self.parse_type()?;
        let span = self.get_span_to_current(begin);
        Ok(Expr::TypeCast(self.add_node(TypeCastExpr { span, node_id: NodeId::default(), kind, expr, ty })))
    }

    pub(crate) fn parse_type_check(&mut self, expr: Expr) -> (r: Result<Expr, ParserErr>)
        requires
            old(self).wf(),
        ensures
            r matches Ok(e) ==> Self::fresh(old(self), final(self), e.spec_node_id()),
            Self::steps(old(self), final(self)),
            Self::advanced(old(self), final(self), r),
            r is Ok ==> (old(self).peek_spec(0) == Some(Token::StrongKw(StrongKeyword::Is)) || old(self).peek_spec(0) == Some(Token::StrongKw(StrongKeyword::ExclaimIs))),
            r matches Ok(e) ==> (e matches Expr::TypeCheck(n) && n.expr == expr
                && (n.negate <==> old(self).peek_spec(0) == Some(Token::StrongKw(StrongKeyword::ExclaimIs)))),
        decreases old(self).tokens().len() - old(self).pos(), 0nat,
    {
        let begin = expr.span();
        let negate = if self.try_consume(Token::StrongKw(StrongKeyword::ExclaimIs)) {
            true
        } else {
            self.consume_strong_kw(StrongKeyword::Is)?;
            false
        };
        let ty = self.parse_type()?;
        let span = self.get_span_to_current(begin);
        Ok(Expr::TypeCheck(self.add_node(TypeCheckExpr { span, node_id: NodeId::default(), negate, expr, ty })))
    }

    /// An array expression. The opening delimiter expected is a brace, so
    /// that the bracket that starts an array at the cursor is refused.
    pub(crate) fn parse_array_expr(&mut self) -> (r: Result<Expr, ParserErr>)
        requires
            old(self).wf(),
        ensures
            r matches Ok(e) ==> Self::fresh(old(self), final(self), e.spec_node_id()),
            Self::steps(old(self), final(self)),
            Self::advanced(old(self), final(self), r),
            r matches Ok(e) ==> (e is Array),
            r matches Ok(Expr::Array(n)) ==> match *n {
                ArrayExpr::Slice { exprs, .. } => Self::in_source_order(old(self), final(self), exprs@),
                ArrayExpr::Count { val, count, .. } => Self::in_source_order(old(self), final(self), seq![val, count]),
            },
        decreases old(self).tokens().len() - old(self).pos(), 0nat,
    {
        let begin = self.cur_span()?;
        self.begin_scope(OpenCloseSymbol::Brace)?;
        let val = self.parse_expr(ExprParseMode::General)?;
        if self.try_consume(Token::Punctuation(Punctuation::Semicolon)) {
            let count = self.parse_expr(ExprParseMode::General)?;
            self.end_scope()?;
            let span = self.get_span_to_current(begin);
            Ok(Expr::Array(self.add_node(ArrayExpr::Count { span, node_id: NodeId::default(), val, count })))
        } else {
            let mut exprs: Vec<Expr> = Vec::new();
            exprs.push(val);
            if self.try_consume(Token::Punctuation(Punctuation::Comma)) {
                while !self.try_end_scope()
                    invariant
                        Self::steps(old(self), self),
                        self.pos() > old(self).pos(),
                        Self::in_source_order(old(self), self, exprs@),
                    decreases self.tokens().len() - self.pos(),
                {
                    let ghost before = exprs@;
                    let expr = self.parse_expr(ExprParseMode::General)?;
                    exprs.push(expr);
                proof {
                    assert forall|k: int| 0 <= k < exprs@.len() implies
                        old(self).node_meta().len() <= #[trigger] exprs@[k].spec_node_id().spec_index() < self.node_meta().len() by {
                        if k < before.len() {
                            assert(exprs@[k] == before[k]);
                        }
                    }
                    assert forall|a: int, b: int| 0 <= a < b < exprs@.len() implies
                        #[trigger] exprs@[a].spec_node_id().spec_index() < #[trigger] exprs@[b].spec_node_id().spec_index() by {
                        assert(exprs@[a] == before[a]);
                        if b < before.len() {
                            assert(exprs@[b] == before[b]);
                        }
                    }
                }
                    if !self.try_consume(Token::Punctuation(Punctuation::Comma)) {
                        break;
                    }
                }
            }
            let span = self.get_span_to_current(begin);
            Ok(Expr::Array(self.add_node(ArrayExpr::Slice { span, node_id: NodeId::default(), exprs })))
        }
    }

    /// A struct expression after `path`. Where struct expressions are not
    /// allowed, nothing is consumed and `path` is returned, unless the brace
    /// starts with a field name and a colon, which is an error.
    pub(crate) fn parse_struct_expr(&mut self, path: Expr, allow: bool) -> (r: Result<Expr, ParserErr>)
        requires
            old(self).wf(),
        ensures
            allow ==> (r matches Ok(e) ==> Self::fresh(old(self), final(self), e.spec_node_id())),
            !allow ==> (r matches Ok(e) ==> e == path),
            Self::steps(old(self), final(self)),
            Self::err_at_cursor(final(self), r),
            allow ==> Self::advanced(old(self), final(self), r),
            !allow ==> final(self).pos() == old(self).pos(),
        decreases old(self).tokens().len() - old(self).pos(), 0nat,
    {
        let begin = self.cur_span()?;
        if !allow {
            let peek_1 = self.peek_at(1)?;
            let peek_2 = self.peek_at(2)?;
            if matches!(peek_1, Token::Name(_)) && peek_2 == Token::Punctuation(Punctuation::Colon) {
                return Err(self.gen_error(ParseErrorCode::ExprNotSupported { expr: "Struct Expression", loc: "for loop's source value" }));
            }
            return Ok(path);
        }

        self.begin_scope(OpenCloseSymbol::Brace)?;
        let mut args: Vec<StructArg> = Vec::new();
        while !self.try_end_scope()
            invariant
                Self::steps(old(self), self),
                allow,
                self.pos() > old(self).pos(),
            decreases self.tokens().len() - self.pos(),
        {
            let arg = self.parse_struct_arg()?;
            args.push(arg);
            if !self.try_consume(Token::Punctuation(Punctuation::Comma)) {
                self.end_scope()?;
                break;
            }
        }

        let span = self.get_span_to_current(begin);
        Ok(Expr::Struct(self.add_node(StructExpr { span, node_id: NodeId::default(), path, args })))
    }

    pub(crate) fn parse_struct_arg(&mut self) -> (r: Result<StructArg, ParserErr>)
        requires
            old(self).wf(),
        ensures
            Self::steps(old(self), final(self)),
            Self::advanced(old(self), final(self), r),
        decreases old(self).tokens().len() - old(self).pos(), 0nat,
    {
        let begin = self.cur_span()?;
        let peek = self.peek()?;
        match peek {
            Token::Name(_) => if self.peek_at(1)? == Token::Punctuation(Punctuation::Colon) {
                let name = self.consume_name()?;
                let _ = self.consume_punct(Punctuation::Colon);
                let expr = self.parse_expr(ExprParseMode::General)?;
                let span = self.get_span_to_current(begin);
                Ok(StructArg::Expr { span, name, expr })
            } else {
                let name = self.consume_name()?;
                let span = self.get_span_to_current(begin);
                Ok(StructArg::Name { span, name })
            },
            Token::Punctuation(Punctuation::DotDot) => {
                self.consume_single();
                let expr = self.parse_expr(ExprParseMode::General)?;
                let span = self.get_span_to_current(begin);
                Ok(StructArg::Complete { span, expr })
            },
            _ => Err(self.gen_error(ParseErrorCode::UnexpectedFor { found: peek, for_reason: "struct argument" })),
        }
    }

    /// An index expression. The closing bracket is left for the caller.
    pub(crate) fn parse_index_expr(&mut self, expr: Expr) -> (r: Result<Expr, ParserErr>)
        requires
            old(self).wf(),
        ensures
            r matches Ok(e) ==> Self::fresh(old(self), final(self), e.spec_node_id()),
            Self::steps(old(self), final(self)),
            Self::advanced(old(self), final(self), r),
            r matches Ok(e) ==> (e matches Expr::Index(n) && n.expr == expr
                && old(self).peek_spec(0) == Some(Token::OpenSymbol(OpenCloseSymbol::Bracket))
                && (n.is_opt <==> old(self).peek_spec(1) == Some(Token::Punctuation(Punctuation::Question)))),
        decreases old(self).tokens().len() - old(self).pos(), 0nat,
    {
        let begin = expr.span();
        self.begin_scope(OpenCloseSymbol::Bracket)?;
        let is_opt = self.try_consume(Token::Punctuation(Punctuation::Question));
        let index = self.parse_expr(ExprParseMode::AllowComma)?;
        let span = self.get_span_to_current(begin);
        Ok(Expr::Index(self.add_node(IndexExpr { span, node_id: NodeId::default(), is_opt, expr, index })))
    }

    pub(crate) fn parse_tuple_index(&mut self, expr: Expr) -> (r: Result<Expr, ParserErr>)
        requires
            old(self).wf(),
        ensures
            r matches Ok(e) ==> Self::fresh(old(self), final(self), e.spec_node_id()),
            Self::steps(old(self), final(self)),
            Self::advanced(old(self), final(self), r),
            r matches Ok(e) ==> (e matches Expr::TupleIndex(n) && n.expr == expr && old(self).peek_spec(0) == Some(Token::Punctuation(Punctuation::Dot))),
    {
        let begin = expr.span();
        self.consume_punct(Punctuation::Dot)?;
        let index = self.consume_lit()?;
        let span = self.get_span_to_current(begin);
        Ok(Expr::TupleIndex(self.add_node(TupleIndexExpr { span, node_id: NodeId::default(), expr, index })))
    }

    /// Call arguments, comma separated between parentheses.
    pub(crate) fn parse_call_args(&mut self) -> (r: Result<Vec<FnArg>, ParserErr>)
        requires
            old(self).wf(),
        ensures
            Self::steps(old(self), final(self)),
            Self::advanced(old(self), final(self), r),
            r matches Ok(args) ==> Self::in_source_order(old(self), final(self), args@.map_values(|a: FnArg| fn_arg_expr(a))),
        decreases old(self).tokens().len() - old(self).pos(), 0nat,
    {
        self.begin_scope(OpenCloseSymbol::Paren)?;
        let mut args: Vec<FnArg> = Vec::new();
        assert(args@.map_values(|a: FnArg| fn_arg_expr(a)) =~= Seq::<Expr>::empty());
        while !self.try_end_scope()
            invariant
                Self::steps(old(self), self),
                self.pos() > old(self).pos(),
                Self::in_source_order(old(self), self, args@.map_values(|a: FnArg| fn_arg_expr(a))),
            decreases self.tokens().len() - self.pos(),
        {
            let ghost before = args@.map_values(|a: FnArg| fn_arg_expr(a));
            let arg = self.parse_func_arg()?;
            args.push(arg);
            proof {
                let exprs = args@.map_values(|a: FnArg| fn_arg_expr(a));
                assert(exprs =~= before.push(fn_arg_expr(args@.last())));
                assert forall|k: int| 0 <= k < exprs.len() implies
                    old(self).node_meta().len() <= #[trigger] exprs[k].spec_node_id().spec_index() < self.node_meta().len() by {
                    if k < before.len() {
                        assert(exprs[k] == before[k]);
                    }
                }
                assert forall|a: int, b: int| 0 <= a < b < exprs.len() implies
                    #[trigger] exprs[a].spec_node_id().spec_index() < #[trigger] exprs[b].spec_node_id().spec_index() by {
                    assert(exprs[a] == before[a]);
                    if b < before.len() {
                        assert(exprs[b] == before[b]);
                    }
                }
            }
            if !self.try_consume(Token::Punctuation(Punctuation::Comma)) {
                self.end_scope()?;
                break;
            }
        }
        Ok(args)
    }

    pub(crate) fn parse_call_expression(&mut self, expr: Expr) -> (r: Result<Expr, ParserErr>)
        requires
            old(self).wf(),
        ensures
            r matches Ok(e) ==> Self::fresh(old(self), final(self), e.spec_node_id()),
            Self::steps(old(self), final(self)),
            Self::advanced(old(self), final(self), r),
            r matches Ok(e) ==> (e matches Expr::FnCall(n) && n.expr == expr
                && Self::in_source_order(old(self), final(self), n.args@.map_values(|a: FnArg| fn_arg_expr(a)))),
        decreases old(self).tokens().len() - old(self).pos(), 1nat,
    {
        let begin = expr.span();
        let args = self.parse_call_args()?;
        let span = self.get_span_to_current(begin);
        Ok(Expr::FnCall(self.add_node(FnCallExpr { span, node_id: NodeId::default(), expr, args })))
    }

    pub(crate) fn parse_func_arg(&mut self) -> (r: Result<FnArg, ParserErr>)
        requires
            old(self).wf(),
        ensures
            Self::steps(old(self), final(self)),
            Self::advanced(old(self), final(self), r),
            r matches Ok(a) ==> Self::fresh(old(self), final(self), fn_arg_expr(a).spec_node_id()),
        decreases old(self).tokens().len() - old(self).pos(), 4nat,
    {
        let begin = self.cur_span()?;
        let peek = self.peek()?;
        let labeled = if matches!(peek, Token::Name(_)) {
            self.peek_at(1)? == Token::Punctuation(Punctuation::Colon)
        } else {
            false
        };

        if labeled {
            let label = self.consume_name()?;
            let _ = self.consume_punct(Punctuation::Colon);
            let expr = self.parse_expr(ExprParseMode::General)?;
            let span = self.get_span_to_current(begin);
            Ok(FnArg::Labeled { span, label, expr })
        } else {
            let expr = self.parse_expr(ExprParseMode::General)?;
            let span = self.get_span_to_current(begin);
            Ok(FnArg::Expr { span, expr })
        }
    }

    pub(crate) fn parse_field_access_or_method_expr(&mut self, expr: Expr) -> (r: Result<Expr, ParserErr>)
        requires
            old(self).wf(),
        ensures
            r matches Ok(e) ==> Self::fresh(old(self), final(self), e.spec_node_id()),
            Self::steps(old(self), final(self)),
            Self::advanced(old(self), final(self), r),
            r is Ok ==> (old(self).peek_spec(0) == Some(Token::Punctuation(Punctuation::Dot)) || old(self).peek_spec(0) == Some(Token::Punctuation(Punctuation::QuestionDot))),
            r matches Ok(e) ==> ((e matches Expr::Method(n) && n.receiver == expr
                    && (n.is_propagating <==> old(self).peek_spec(0) == Some(Token::Punctuation(Punctuation::QuestionDot)))
                    && Self::in_source_order(old(self), final(self), n.args@.map_values(|a: FnArg| fn_arg_expr(a))))
                || (e matches Expr::FieldAccess(n) && n.expr == expr
                    && (n.is_propagating <==> old(self).peek_spec(0) == Some(Token::Punctuation(Punctuation::QuestionDot))))),
        decreases old(self).tokens().len() - old(self).pos(), 0nat,
    {
        let begin = self.cur_span()?;
        let is_propagating = if self.try_consume(Token::Punctuation(Punctuation::QuestionDot)) {
            true
        } else {
            self.consume_punct(Punctuation::Dot)?;
            false
        };

        let field = self.parse_identifier(true)?;

        if self.peek()? == Token::OpenSymbol(OpenCloseSymbol::Paren) {
            let args = self.parse_call_args()?;
            let span = self.get_span_to_current(begin);
            Ok(Expr::Method(self.add_node(MethodCallExpr { span, node_id: NodeId::default(), receiver: expr, method: field, args, is_propagating })))
        } else {
            let span = self.get_span_to_current(begin);
            Ok(Expr::FieldAccess(self.add_node(FieldAccessExpr { span, node_id: NodeId::default(), expr, field, is_propagating })))
        }
    }

    pub(crate) fn parse_closure_expr(&mut self) -> (r: Result<Expr, ParserErr>)
        requires
            old(self).wf(),
        ensures
            r matches Ok(e) ==> Self::fresh(old(self), final(self), e.spec_node_id()),
            Self::steps(old(self), final(self)),
            Self::advanced(old(self), final(self), r),
            r matches Ok(e) ==> (e is Closure),
        decreases old(self).tokens().len() - old(self).pos(), 0nat,
    {
        let begin = self.cur_span()?;
        let is_moved = self.try_consume(Token::StrongKw(StrongKeyword::Move));
        self.consume_punct(Punctuation::Or)?;

        let mut params: Vec<FnParam> = Vec::new();
        while self.peek()? != Token::Punctuation(Punctuation::Or)
            invariant
                Self::steps(old(self), self),
                self.pos() > old(self).pos(),
            decreases self.tokens().len() - self.pos(),
        {
            let param = self.parse_function_param()?;
            params.push(param);
            if !self.try_consume(Token::Punctuation(Punctuation::Comma)) {
                break;
            }
        }
        self.consume_punct(Punctuation::Or)?;

        let ret = if self.try_consume(Token::Punctuation(Punctuation::SingleArrowR)) {
            Some(self.parse_func_return()?)
        } else {
            None
        };

        let body = self.parse_expr(ExprParseMode::General)?;

        let span = self.get_span_to_current(begin);
        Ok(Expr::Closure(self.add_node(ClosureExpr { span, node_id: NodeId::default(), is_moved, params, ret, body })))
    }

    pub(crate) fn parse_if_expr(&mut self) -> (r: Result<Expr, ParserErr>)
        requires
            old(self).wf(),
        ensures
            r matches Ok(e) ==> Self::fresh(old(self), final(self), e.spec_node_id()),
            Self::steps(old(self), final(self)),
            Self::advanced(old(self), final(self), r),
            r matches Ok(e) ==> (e is If),
            r matches Ok(e) ==> (e is If) && old(self).peek_spec(0) == Some(Token::StrongKw(StrongKeyword::If)),
        decreases old(self).tokens().len() - old(self).pos(), 0nat,
    {
        let begin = self.cur_span()?;
        self.consume_strong_kw(StrongKeyword::If)?;
        let cond = self.parse_expr(ExprParseMode::AllowLet)?;
        let body = self.parse_framed_block_expr()?;

        let else_body = if self.try_consume(Token::StrongKw(StrongKeyword::Else)) {
            if self.peek()? == Token::StrongKw(StrongKeyword::If) {
                Some(self.parse_if_expr()?)
            } else {
                Some(Expr::Block(self.parse_framed_block_expr()?))
            }
        } else {
            None
        };

        let span = self.get_span_to_current(begin);
        Ok(Expr::If(self.add_node(IfExpr { span, node_id: NodeId::default(), cond, body, else_body })))
    }

    pub(crate) fn parse_let_binding_expr(&mut self) -> (r: Result<Expr, ParserErr>)
        requires
            old(self).wf(),
        ensures
            r matches Ok(e) ==> Self::fresh(old(self), final(self), e.spec_node_id()),
            Self::steps(old(self), final(self)),
            Self::advanced(old(self), final(self), r),
            r matches Ok(e) ==> (e is Let),
            r matches Ok(e) ==> (e is Let) && old(self).peek_spec(0) == Some(Token::StrongKw(StrongKeyword::Let)),
        decreases old(self).tokens().len() - old(self).pos(), 0nat,
    {
        let begin = self.cur_span()?;
        self.consume_strong_kw(StrongKeyword::Let)?;
        self.peek()?;
        self.push_meta_frame();
        let pattern = self.parse_pattern_no_top_alternative()?;
        self.consume_punct(Punctuation::Equals)?;
        let scrutinee = self.parse_expr(ExprParseMode::Scrutinee)?;
        let span = self.get_span_to_current(begin);
        Ok(Expr::Let(self.add_node(LetBindingExpr { span, node_id: NodeId::default(), pattern, scrutinee })))
    }

    /// A label: a name between colons.
    pub(crate) fn parse_label(&mut self) -> (r: Result<NameId, ParserErr>)
        requires
            old(self).wf(),
        ensures
            Self::steps(old(self), final(self)),
            Self::advanced(old(self), final(self), r),
            final(self).node_meta() == old(self).node_meta(),
            r is Ok <==> {
                &&& old(self).peek_spec(0) == Some(Token::Punctuation(Punctuation::Colon))
                &&& old(self).peek_spec(1) matches Some(t) && old(self).name_of(t) is Some
                &&& old(self).peek_spec(2) == Some(Token::Punctuation(Punctuation::Colon))
            },
            r matches Ok(label) ==> final(self).pos() == old(self).pos() + 3
                && old(self).name_of(old(self).peek_spec(1)->0) == Some(label),
    {
        self.consume_punct(Punctuation::Colon)?;
        let label = self.consume_name()?;
        self.consume_punct(Punctuation::Colon)?;
        Ok(label)
    }

    pub(crate) fn parse_loop_expr(&mut self, begin: SpanId, label: Option<NameId>) -> (r: Result<Expr, ParserErr>)
        requires
            old(self).wf(),
        ensures
            r matches Ok(e) ==> Self::fresh(old(self), final(self), e.spec_node_id()),
            Self::steps(old(self), final(self)),
            Self::advanced(old(self), final(self), r),
            r matches Ok(e) ==> (e is Loop),
            r matches Ok(e) ==> match e {
                Expr::Loop(n) => old(self).peek_spec(0) == Some(Token::StrongKw(StrongKeyword::Loop)) && n.label == label,
                _ => false,
            },
        decreases old(self).tokens().len() - old(self).pos(), 0nat,
    {
        self.consume_strong_kw(StrongKeyword::Loop)?;
        let body_begin = self.cur_span()?;
        let body = self.parse_block_expr(body_begin, None)?;
        let span = self.get_span_to_current(begin);
        Ok(Expr::Loop(self.add_node(LoopExpr { span, node_id: NodeId::default(), label, body })))
    }

    pub(crate) fn parse_while_expr(&mut self, begin: SpanId, label: Option<NameId>) -> (r: Result<Expr, ParserErr>)
        requires
            old(self).wf(),
        ensures
            r matches Ok(e) ==> Self::fresh(old(self), final(self), e.spec_node_id()),
            Self::steps(old(self), final(self)),
            Self::advanced(old(self), final(self), r),
            r matches Ok(e) ==> (e is While),
            r matches Ok(e) ==> match e {
                Expr::While(n) => old(self).peek_spec(0) == Some(Token::StrongKw(StrongKeyword::While)) && n.label == label,
                _ => false,
            },
        decreases old(self).tokens().len() - old(self).pos(), 0nat,
    {
        self.consume_strong_kw(StrongKeyword::While)?;
        let cond = self.parse_expr(ExprParseMode::AllowLet)?;
        let inc = if self.try_consume(Token::Punctuation(Punctuation::Semicolon)) {
            Some(self.parse_expr(ExprParseMode::General)?)
        } else {
            None
        };

        let body = self.parse_framed_block_expr()?;
        let else_body = if self.try_consume(Token::StrongKw(StrongKeyword::Else)) {
            Some(self.parse_framed_block_expr()?)
        } else {
            None
        };

        let span = self.get_span_to_current(begin);
        Ok(Expr::While(self.add_node(WhileExpr { span, node_id: NodeId::default(), label, cond, inc, body, else_body })))
    }

    pub(crate) fn parse_do_while_expr(&mut self, begin: SpanId, label: Option<NameId>) -> (r: Result<Expr, ParserErr>)
        requires
            old(self).wf(),
        ensures
            r matches Ok(e) ==> Self::fresh(old(self), final(self), e.spec_node_id()),
            Self::steps(old(self), final(self)),
            Self::advanced(old(self), final(self), r),
            r matches Ok(e) ==> (e is DoWhile),
            r matches Ok(e) ==> match e {
                Expr::DoWhile(n) => old(self).peek_spec(0) == Some(Token::StrongKw(StrongKeyword::Do)) && n.label == label,
                _ => false,
            },
        decreases old(self).tokens().len() - old(self).pos(), 0nat,
    {
        self.consume_strong_kw(StrongKeyword::Do)?;
        let body_begin = self.cur_span()?;
        let body = self.parse_block_expr(body_begin, None)?;
        self.consume_strong_kw(StrongKeyword::While)?;
        let cond = self.parse_expr(ExprParseMode::General)?;
        let span = self.get_span_to_current(begin);
        Ok(Expr::DoWhile(self.add_node(DoWhileExpr { span, node_id: NodeId::default(), label, body, cond })))
    }

    pub(crate) fn parse_for_expr(&mut self, begin: SpanId, label: Option<NameId>) -> (r: Result<Expr, ParserErr>)
        requires
            old(self).wf(),
        ensures
            r matches Ok(e) ==> Self::fresh(old(self), final(self), e.spec_node_id()),
            Self::steps(old(self), final(self)),
            Self::advanced(old(self), final(self), r),
            r matches Ok(e) ==> (e is For),
            r matches Ok(e) ==> match e {
                Expr::For(n) => old(self).peek_spec(0) == Some(Token::StrongKw(StrongKeyword::For)) && n.label == label,
                _ => false,
            },
        decreases old(self).tokens().len() - old(self).pos(), 0nat,
    {
        self.consume_strong_kw(StrongKeyword::For)?;
        let pattern = self.parse_pattern()?;
        self.consume_strong_kw(StrongKeyword::In)?;
        let src = self.parse_expr(ExprParseMode::NoStructLit)?;

        let body = self.parse_framed_block_expr()?;
        let else_body = if self.try_consume(Token::StrongKw(StrongKeyword::Else)) {
            Some(self.parse_framed_block_expr()?)
        } else {
            None
        };

        let span = self.get_span_to_current(begin);
        Ok(Expr::For(self.add_node(ForExpr { span, node_id: NodeId::default(), label, pattern, src, body, else_body })))
    }

    pub(crate) fn parse_match_expr(&mut self, begin: SpanId, label: Option<NameId>) -> (r: Result<Expr, ParserErr>)
        requires
            old(self).wf(),
        ensures
            r matches Ok(e) ==> Self::fresh(old(self), final(self), e.spec_node_id()),
            Self::steps(old(self), final(self)),
            Self::advanced(old(self), final(self), r),
            r matches Ok(e) ==> (e is Match),
            r matches Ok(e) ==> match e {
                Expr::Match(n) => old(self).peek_spec(0) == Some(Token::StrongKw(StrongKeyword::Match)) && n.label == label
                    && Self::in_source_order(old(self), final(self), n.branches@.map_values(|b: MatchBranch| b.body)),
                _ => false,
            },
        decreases old(self).tokens().len() - old(self).pos(), 0nat,
    {
        self.consume_strong_kw(StrongKeyword::Match)?;
        let scrutinee = self.parse_expr(ExprParseMode::NoStructLit)?;

        self.begin_scope(OpenCloseSymbol::Brace)?;
        let mut branches: Vec<MatchBranch> = Vec::new();
        assert(branches@.map_values(|b: MatchBranch| b.body) =~= Seq::<Expr>::empty());
        while !self.try_end_scope()
            invariant
                Self::steps(old(self), self),
                self.pos() > old(self).pos(),
                Self::in_source_order(old(self), self, branches@.map_values(|b: MatchBranch| b.body)),
            decreases self.tokens().len() - self.pos(),
        {
            let ghost before = branches@.map_values(|b: MatchBranch| b.body);
            let branch = self.parse_match_branch()?;
            let needs_comma = !branch.body.has_block();
            branches.push(branch);
            proof {
                assert(branches@.map_values(|b: MatchBranch| b.body) =~= before.push(branches@.last().body));
                Self::lemma_in_source_order_push(old(self), self, before, branches@.last().body);
            }

            if needs_comma {
                if !self.try_consume(Token::Punctuation(Punctuation::Comma)) {
                    self.end_scope()?;
                    break;
                }
            } else {
                self.try_consume(Token::Punctuation(Punctuation::Comma));
            }
        }

        let span = self.get_span_to_current(begin);
        Ok(Expr::Match(self.add_node(MatchExpr { span, node_id: NodeId::default(), label, scrutinee, branches })))
    }

    pub(crate) fn parse_match_branch(&mut self) -> (r: Result<MatchBranch, ParserErr>)
        requires
            old(self).wf(),
        ensures
            Self::steps(old(self), final(self)),
            Self::advanced(old(self), final(self), r),
            r matches Ok(b) ==> Self::fresh(old(self), final(self), b.pattern.spec_node_id())
                && Self::fresh(old(self), final(self), b.body.spec_node_id())
                && b.pattern.spec_node_id().spec_index() < b.body.spec_node_id().spec_index(),
        decreases old(self).tokens().len() - old(self).pos(), 6nat,
    {
        let begin = self.cur_span()?;
        let label = if self.peek()? == Token::Punctuation(Punctuation::Colon) {
            Some(self.parse_label()?)
        } else {
            None
        };
        let pattern = self.parse_pattern()?;
        let guard = if self.try_consume(Token::StrongKw(StrongKeyword::If)) {
            Some(self.parse_expr(ExprParseMode::NoStructLit)?)
        } else {
            None
        };
        self.consume_punct(Punctuation::DoubleArrow)?;
        let body = self.parse_expr(ExprParseMode::General)?;

        let span = self.get_span_to_current(begin);
        Ok(MatchBranch { span, label, pattern, guard, body })
    }

    /// A label after `break`, `continue` or `fallthrough`, where there is one.
    /// A label, where the next token is a colon.
    pub(crate) fn parse_opt_label(&mut self) -> (r: Result<Option<NameId>, ParserErr>)
        requires
            old(self).wf(),
        ensures
            Self::steps(old(self), final(self)),
            Self::err_at_cursor(final(self), r),
            final(self).node_meta() == old(self).node_meta(),
            old(self).peek_spec(0) is None ==> r is Err,
            (old(self).peek_spec(0) matches Some(t) && t != Token::Punctuation(Punctuation::Colon))
                ==> (r matches Ok(None)) && final(self).pos() == old(self).pos(),
            r matches Ok(Some(label)) ==> old(self).peek_spec(0) == Some(Token::Punctuation(Punctuation::Colon))
                && final(self).pos() == old(self).pos() + 3
                && old(self).name_of(old(self).peek_spec(1)->0) == Some(label)
                && old(self).peek_spec(2) == Some(Token::Punctuation(Punctuation::Colon)),
            old(self).peek_spec(0) == Some(Token::Punctuation(Punctuation::Colon)) ==> !(r matches Ok(None)),
    {
        if self.peek()? == Token::Punctuation(Punctuation::Colon) {
            Ok(Some(self.parse_label()?))
        } else {
            Ok(None)
        }
    }

    pub(crate) fn parse_break_expr(&mut self) -> (r: Result<Expr, ParserErr>)
        requires
            old(self).wf(),
        ensures
            r matches Ok(e) ==> Self::fresh(old(self), final(self), e.spec_node_id()),
            Self::steps(old(self), final(self)),
            Self::advanced(old(self), final(self), r),
            r matches Ok(e) ==> match e {
                Expr::Break(n) => {
                    &&& old(self).peek_spec(0) == Some(Token::StrongKw(StrongKeyword::Break))
                    &&& (n.label is Some <==> old(self).peek_spec(1) == Some(Token::Punctuation(Punctuation::Colon)))
                    &&& n.label matches Some(l) ==> old(self).name_of(old(self).peek_spec(2)->0) == Some(l)
                },
                _ => false,
            },
        decreases old(self).tokens().len() - old(self).pos(), 0nat,
    {
        let begin = self.cur_span()?;
        self.consume_strong_kw(StrongKeyword::Break)?;
        let label = self.parse_opt_label()?;
        let value = if self.peek()? != Token::Punctuation(Punctuation::Semicolon) {
            Some(self.parse_expr(ExprParseMode::AllowComma)?)
        } else {
            None
        };

        let span = self.get_span_to_current(begin);
        Ok(Expr::Break(self.add_node(BreakExpr { span, node_id: NodeId::default(), label, value })))
    }

    pub(crate) fn parse_continue_expr(&mut self) -> (r: Result<Expr, ParserErr>)
        requires
            old(self).wf(),
        ensures
            r matches Ok(e) ==> Self::fresh(old(self), final(self), e.spec_node_id()),
            Self::steps(old(self), final(self)),
            Self::advanced(old(self), final(self), r),
            r matches Ok(e) ==> match e {
                Expr::Continue(n) => {
                    &&& old(self).peek_spec(0) == Some(Token::StrongKw(StrongKeyword::Continue))
                    &&& (n.label is Some <==> old(self).peek_spec(1) == Some(Token::Punctuation(Punctuation::Colon)))
                    &&& n.label matches Some(l) ==> old(self).name_of(old(self).peek_spec(2)->0) == Some(l)
                },
                _ => false,
            },
    {
        let begin = self.cur_span()?;
        self.consume_strong_kw(StrongKeyword::Continue)?;
        let label = self.parse_opt_label()?;
        let span = self.get_span_to_current(begin);
        Ok(Expr::Continue(self.add_node(ContinueExpr { span, node_id: NodeId::default(), label })))
    }

    pub(crate) fn parse_fallthrough_expr(&mut self) -> (r: Result<Expr, ParserErr>)
        requires
            old(self).wf(),
        ensures
            r matches Ok(e) ==> Self::fresh(old(self), final(self), e.spec_node_id()),
            Self::steps(old(self), final(self)),
            Self::advanced(old(self), final(self), r),
            r matches Ok(e) ==> (e is Fallthrough),
            r matches Ok(e) ==> match e {
                Expr::Fallthrough(n) => {
                    &&& old(self).peek_spec(0) == Some(Token::StrongKw(StrongKeyword::Fallthrough))
                    &&& (n.label is Some <==> old(self).peek_spec(1) == Some(Token::Punctuation(Punctuation::Colon)))
                    &&& n.label matches Some(l) ==> old(self).name_of(old(self).peek_spec(2)->0) == Some(l)
                },
                _ => false,
            },
    {
        let begin = self.cur_span()?;
        self.consume_strong_kw(StrongKeyword::Fallthrough)?;
        let label = self.parse_opt_label()?;
        let span = self.get_span_to_current(begin);
        Ok(Expr::Fallthrough(self.add_node(FallthroughExpr { span, node_id: NodeId::default(), label })))
    }

    pub(crate) fn parse_return_expr(&mut self) -> (r: Result<Expr, ParserErr>)
        requires
            old(self).wf(),
        ensures
            r matches Ok(e) ==> Self::fresh(old(self), final(self), e.spec_node_id()),
            Self::steps(old(self), final(self)),
            Self::advanced(old(self), final(self), r),
            r matches Ok(e) ==> (e is Return),
            r matches Ok(e) ==> match e {
                Expr::Return(n) => old(self).peek_spec(0) == Some(Token::StrongKw(StrongKeyword::Return))
                    && (n.value is None <==> old(self).peek_spec(1) == Some(Token::Punctuation(Punctuation::Semicolon))),
                _ => false,
            },
        decreases old(self).tokens().len() - old(self).pos(), 0nat,
    {
        let begin = self.cur_span()?;
        self.consume_strong_kw(StrongKeyword::Return)?;
        let value = if self.peek()? != Token::Punctuation(Punctuation::Semicolon) {
            Some(self.parse_expr(ExprParseMode::AllowComma)?)
        } else {
            None
        };

        let span = self.get_span_to_current(begin);
        Ok(Expr::Return(self.add_node(ReturnExpr { span, node_id: NodeId::default(), value })))
    }

    pub(crate) fn parse_throw_expr(&mut self) -> (r: Result<Expr, ParserErr>)
        requires
            old(self).wf(),
        ensures
            r matches Ok(e) ==> Self::fresh(old(self), final(self), e.spec_node_id()),
            Self::steps(old(self), final(self)),
            Self::advanced(old(self), final(self), r),
            r matches Ok(e) ==> (e is Throw) && old(self).peek_spec(0) == Some(Token::StrongKw(StrongKeyword::Throw)),
        decreases old(self).tokens().len() - old(self).pos(), 0nat,
    {
        let begin = self.cur_span()?;
        self.consume_strong_kw(StrongKeyword::Throw)?;
        let expr = self.parse_expr(ExprParseMode::General)?;
        let span = self.get_span_to_current(begin);
        Ok(Expr::Throw(self.add_node(ThrowExpr { span, node_id: NodeId::default(), expr })))
    }

    pub(crate) fn parse_comma_expr(&mut self, first: Expr) -> (r: Result<Expr, ParserErr>)
        requires
            old(self).wf(),
        ensures
            r matches Ok(e) ==> Self::fresh(old(self), final(self), e.spec_node_id()),
            Self::steps(old(self), final(self)),
            Self::advanced(old(self), final(self), r),
            r matches Ok(e) ==> (e matches Expr::Comma(n) && n.exprs@.len() >= 2 && n.exprs@[0] == first
                && Self::in_source_order(old(self), final(self), n.exprs@.drop_first())),
        decreases old(self).tokens().len() - old(self).pos(), 0nat,
    {
        let begin = self.cur_span()?;
        self.consume_punct(Punctuation::Comma)?;

        let mut exprs: Vec<Expr> = Vec::new();
        exprs.push(first);
        loop
            invariant
                Self::steps(old(self), self),
                self.pos() > old(self).pos(),
                exprs@.len() >= 1,
                exprs@[0] == first,
                Self::in_source_order(old(self), self, exprs@.drop_first()),
            ensures
                exprs@.len() >= 2,
                exprs@[0] == first,
                Self::in_source_order(old(self), self, exprs@.drop_first()),
            decreases self.tokens().len() - self.pos(),
        {
            let ghost before = exprs@.drop_first();
            let expr = self.parse_expr(ExprParseMode::General)?;
            exprs.push(expr);
            proof {
                let rest = exprs@.drop_first();
                assert(rest =~= before.push(exprs@.last()));
                assert forall|k: int| 0 <= k < rest.len() implies
                    old(self).node_meta().len() <= #[trigger] rest[k].spec_node_id().spec_index() < self.node_meta().len() by {
                    if k < before.len() {
                        assert(rest[k] == before[k]);
                    }
                }
                assert forall|a: int, b: int| 0 <= a < b < rest.len() implies
                    #[trigger] rest[a].spec_node_id().spec_index() < #[trigger] rest[b].spec_node_id().spec_index() by {
                    assert(rest[a] == before[a]);
                    if b < before.len() {
                        assert(rest[b] == before[b]);
                    }
                }
            }
            if !self.try_consume(Token::Punctuation(Punctuation::Comma)) {
                break;
            }
        }

        let span = self.get_span_to_current(begin);
        Ok(Expr::Comma(self.add_node(CommaExpr { span, node_id: NodeId::default(), exprs })))
    }

    pub(crate) fn parse_when_expr(&mut self) -> (r: Result<Expr, ParserErr>)
        requires
            old(self).wf(),
        ensures
            r matches Ok(e) ==> Self::fresh(old(self), final(self), e.spec_node_id()),
            Self::steps(old(self), final(self)),
            Self::advanced(old(self), final(self), r),
            r matches Ok(e) ==> (e is When),
            r matches Ok(e) ==> (e is When) && old(self).peek_spec(0) == Some(Token::StrongKw(StrongKeyword::When)),
        decreases old(self).tokens().len() - old(self).pos(), 0nat,
    {
        let begin = self.cur_span()?;
        self.consume_strong_kw(StrongKeyword::When)?;
        let cond = self.parse_expr(ExprParseMode::NoStructLit)?;
        let body = self.parse_framed_block_expr()?;

        let else_body = if self.try_consume(Token::StrongKw(StrongKeyword::Else)) {
            if self.peek()? == Token::StrongKw(StrongKeyword::If) {
                Some(self.parse_if_expr()?)
            } else {
                Some(Expr::Block(self.parse_framed_block_expr()?))
            }
        } else {
            None
        };

        let span = self.get_span_to_current(begin);
        Ok(Expr::When(self.add_node(WhenExpr { span, node_id: NodeId::default(), cond, body, else_body })))
    }
}

} // verus!
