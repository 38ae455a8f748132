//! Blocks and statements.

use vstd::prelude::*;
use crate::ast::{
    AstNode, AstNodeRef, Attribute, Block, Defer, EmptyStmt, ErrDefer, ErrDeferReceiver, ExprStmt, NodeId,
    Stmt, VarDecl,
};
use crate::common::{NameId, SpanId};
use crate::lexer::{OpenCloseSymbol, Punctuation, StrongKeyword, Token, WeakKeyword};
use super::{ExprParseMode, ParseErrorCode, Parser, ParserErr, group_parser_steps};

verus! {

broadcast use group_parser_steps;

impl<'a> Parser<'a> {
    /// A block: statements between braces. Where the last statement is an
    /// expression statement with a semicolon, it becomes the final expression.
    pub(crate) fn parse_block(&mut self) -> (r: Result<AstNodeRef<Block>, ParserErr>)
        requires
            old(self).wf(),
        ensures
            Self::steps(old(self), final(self)),
            Self::advanced(old(self), final(self), r),
            r matches Ok(n) ==> Self::fresh(old(self), final(self), n.spec_node_id()),
        decreases old(self).tokens().len() - old(self).pos(), 0nat,
    {
        self.peek()?;
        self.push_meta_frame();
        let begin = self.last_frame.span;
        self.begin_scope(OpenCloseSymbol::Brace)?;

        let mut stmts: Vec<Stmt> = Vec::new();
        while !self.try_end_scope()
            invariant
                Self::steps(old(self), self),
                self.pos() > old(self).pos(),
            decreases self.tokens().len() - self.pos(),
        {
            let stmt = self.parse_stmt(true)?;
            stmts.push(stmt);
        }

        let n = stmts.len();
        let take_last = if n > 0 {
            match &stmts[n - 1] {
                Stmt::Expr(stmt) => stmt.has_semi,
                _ => false,
            }
        } else {
            false
        };
        let final_expr = if take_last {
            match stmts.pop() {
                Some(Stmt::Expr(stmt)) => Some(stmt),
                _ => return Err(self.gen_error(ParseErrorCode::InternalError("Final expr in block stopped existing when removing it"))),
            }
        } else {
            None
        };

        let span = self.get_span_to_current(begin);
        Ok(self.add_node(Block { span, node_id: NodeId::default(), stmts, final_expr }))
    }

    pub(crate) fn parse_stmt(&mut self, allow_expr_without_semicolon: bool) -> (r: Result<Stmt, ParserErr>)
        requires
            old(self).wf(),
        ensures
            Self::steps(old(self), final(self)),
            Self::advanced(old(self), final(self), r),
            (old(self).peek_spec(0) matches Some(t) && t != Token::Punctuation(Punctuation::At)
                && t != Token::Punctuation(Punctuation::AtExclaim)) ==> (r matches Ok(stmt) ==> match old(self).peek_spec(0)->0 {
                Token::StrongKw(StrongKeyword::Fn) => stmt matches Stmt::Item(i) && i is Function,
                Token::StrongKw(StrongKeyword::Bitfield) => stmt matches Stmt::Item(i) && i is Bitfield,
                Token::StrongKw(StrongKeyword::Enum) => stmt matches Stmt::Item(i) && i is Enum,
                Token::StrongKw(StrongKeyword::Impl) => stmt matches Stmt::Item(i) && i is Impl,
                Token::StrongKw(StrongKeyword::Static) => stmt matches Stmt::Item(i) && i is Static,
                Token::StrongKw(StrongKeyword::Struct) => stmt matches Stmt::Item(i) && i is Struct,
                Token::StrongKw(StrongKeyword::Trait) => stmt matches Stmt::Item(i) && i is Trait,
                Token::StrongKw(StrongKeyword::Use) => stmt matches Stmt::Item(i) && i is Use,
                Token::StrongKw(StrongKeyword::Union) => stmt matches Stmt::Item(i) && i is Union,
                Token::StrongKw(StrongKeyword::Defer) => stmt is Defer,
                Token::StrongKw(StrongKeyword::Let) => stmt is VarDecl,
                Token::StrongKw(StrongKeyword::ErrDefer) => stmt is ErrDefer,
                Token::Punctuation(Punctuation::Semicolon) => stmt is Empty,
                _ => true,
            }),
            old(self).peek_spec(0) == Some(Token::Punctuation(Punctuation::Semicolon)) ==> r is Ok,
        decreases old(self).tokens().len() - old(self).pos(), 5nat,
    {
        self.peek()?;
        self.push_meta_frame();

        let attrs = self.parse_attributes()?;

        let peek = self.peek()?;
        match peek {
            Token::StrongKw(StrongKeyword::Bitfield) | Token::StrongKw(StrongKeyword::Fn) | Token::StrongKw(StrongKeyword::Enum)
            | Token::StrongKw(StrongKeyword::Impl) | Token::StrongKw(StrongKeyword::Static) | Token::StrongKw(StrongKeyword::Struct)
            | Token::StrongKw(StrongKeyword::Trait) | Token::StrongKw(StrongKeyword::Use) | Token::StrongKw(StrongKeyword::Union) =>
                Ok(Stmt::Item(self.parse_item(Some(attrs))?)),
            Token::StrongKw(StrongKeyword::Defer) => Ok(Stmt::Defer(self.parse_defer_stmt(attrs)?)),
            Token::StrongKw(StrongKeyword::Let) => Ok(Stmt::VarDecl(self.parse_let_var_decl(attrs)?)),
            Token::StrongKw(StrongKeyword::Mut) => {
                let peek_1 = self.peek_at(1)?;
                if let Token::Name(_) = peek_1 {
                    Ok(Stmt::VarDecl(self.parse_name_var_decl(attrs)?))
                } else {
                    Ok(Stmt::Item(self.parse_item(Some(attrs))?))
                }
            },
            Token::StrongKw(StrongKeyword::ErrDefer) => Ok(Stmt::ErrDefer(self.parse_err_defer_stmt(attrs)?)),
            Token::WeakKw(WeakKeyword::Flag) => if self.check_peek(&[1], Token::StrongKw(StrongKeyword::Enum)) {
                Ok(Stmt::Item(self.parse_item(Some(attrs))?))
            } else {
                Ok(Stmt::Expr(self.parse_expr_stmt(attrs, allow_expr_without_semicolon)?))
            },
            Token::WeakKw(WeakKeyword::Sealed) => if self.check_peek(&[1], Token::StrongKw(StrongKeyword::Trait)) {
                Ok(Stmt::Item(self.parse_item(Some(attrs))?))
            } else {
                Ok(Stmt::Expr(self.parse_expr_stmt(attrs, allow_expr_without_semicolon)?))
            },
            Token::WeakKw(WeakKeyword::Tls) => if self.check_peek(&[1], Token::StrongKw(StrongKeyword::Static)) {
                Ok(Stmt::Item(self.parse_item(Some(attrs))?))
            } else {
                Ok(Stmt::Expr(self.parse_expr_stmt(attrs, allow_expr_without_semicolon)?))
            },
            Token::WeakKw(WeakKeyword::Distinct) => if self.check_peek(&[1], Token::StrongKw(StrongKeyword::Type)) {
                Ok(Stmt::Item(self.parse_item(Some(attrs))?))
            } else {
                Ok(Stmt::Expr(self.parse_expr_stmt(attrs, allow_expr_without_semicolon)?))
            },
            Token::WeakKw(WeakKeyword::Record) => if self.check_peek(&[1], Token::StrongKw(StrongKeyword::Struct))
                || self.check_peek(&[1], Token::StrongKw(StrongKeyword::Enum))
                || self.check_peek(&[1], Token::OpenSymbol(OpenCloseSymbol::Brace))
            {
                Ok(Stmt::Item(self.parse_item(Some(attrs))?))
            } else {
                Ok(Stmt::Expr(self.parse_expr_stmt(attrs, allow_expr_without_semicolon)?))
            },
            Token::Name(_) => {
                let peek_1 = self.peek_at(1)?;
                if peek_1 == Token::Punctuation(Punctuation::Comma) || peek_1 == Token::Punctuation(Punctuation::ColonEquals) {
                    Ok(Stmt::VarDecl(self.parse_name_var_decl(attrs)?))
                } else {
                    Ok(Stmt::Expr(self.parse_expr_stmt(attrs, allow_expr_without_semicolon)?))
                }
            },
            Token::Punctuation(Punctuation::Semicolon) => {
                if attrs.len() != 0 {
                    return Err(self.gen_error(ParseErrorCode::EmptyStmtWithAttrs));
                }
                let span = self.get_cur_span();
                self.consume_single();
                Ok(Stmt::Empty(self.add_node(EmptyStmt { span, node_id: NodeId::default() })))
            },
            _ => Ok(Stmt::Expr(self.parse_expr_stmt(attrs, allow_expr_without_semicolon)?)),
        }
    }

    /// Declares variables by name: `a, mut b := expr;`.
    pub(crate) fn parse_name_var_decl(&mut self, attrs: Vec<AstNodeRef<Attribute>>) -> (r: Result<AstNodeRef<VarDecl>, ParserErr>)
        requires
            old(self).wf(),
        ensures
            Self::steps(old(self), final(self)),
            Self::advanced(old(self), final(self), r),
            r matches Ok(n) ==> Self::fresh(old(self), final(self), n.spec_node_id()),
            r matches Ok(n) ==> match *n {
                VarDecl::Named { attrs: a, names, .. } => a == attrs && names@.len() > 0 && final(self).tokens()[final(self).pos() - 1] == Token::Punctuation(Punctuation::Semicolon),
                _ => false,
            },
        decreases old(self).tokens().len() - old(self).pos(), 0nat,
    {
        let begin = self.cur_span()?;
        let mut names: Vec<(bool, NameId, SpanId)> = Vec::new();
        loop
            invariant
                Self::steps(old(self), self),
                names@.len() > 0 ==> self.pos() > old(self).pos(),
            ensures
                Self::steps(old(self), self),
                self.pos() > old(self).pos(),
                names@.len() > 0,
            decreases self.tokens().len() - self.pos(),
        {
            let name_begin = self.cur_span()?;
            let is_mut = self.try_consume(Token::StrongKw(StrongKeyword::Mut));
            let name = self.consume_name()?;
            let span = self.get_span_to_current(name_begin);
            names.push((is_mut, name, span));
            if !self.try_consume(Token::Punctuation(Punctuation::Comma)) {
                break;
            }
        }

        self.consume_punct(Punctuation::ColonEquals)?;
        let expr = self.parse_expr(ExprParseMode::AllowComma)?;
        self.consume_punct(Punctuation::Semicolon)?;

        let span = self.get_span_to_current(begin);
        Ok(self.add_node(VarDecl::Named { span, node_id: NodeId::default(), attrs, names, expr }))
    }

    pub(crate) fn parse_let_var_decl(&mut self, attrs: Vec<AstNodeRef<Attribute>>) -> (r: Result<AstNodeRef<VarDecl>, ParserErr>)
        requires
            old(self).wf(),
        ensures
            Self::steps(old(self), final(self)),
            Self::advanced(old(self), final(self), r),
            r matches Ok(n) ==> Self::fresh(old(self), final(self), n.spec_node_id()),
            r matches Ok(n) ==> match *n {
                VarDecl::Let { attrs: a, .. } => a == attrs && old(self).peek_spec(0) == Some(Token::StrongKw(StrongKeyword::Let)) && final(self).tokens()[final(self).pos() - 1] == Token::Punctuation(Punctuation::Semicolon),
                _ => false,
            },
        decreases old(self).tokens().len() - old(self).pos(), 0nat,
    {
        let begin = self.cur_span()?;
        self.consume_strong_kw(StrongKeyword::Let)?;
        self.peek()?;
        self.push_meta_frame();
        let pattern = self.parse_pattern_no_top_alternative()?;
        let ty = if self.try_consume(Token::Punctuation(Punctuation::Colon)) {
            Some(self.parse_type()?)
        } else {
            None
        };
        let expr = if self.try_consume(Token::Punctuation(Punctuation::Equals)) {
            Some(self.parse_expr(ExprParseMode::AllowComma)?)
        } else {
            None
        };
        let else_block = if self.try_consume(Token::StrongKw(StrongKeyword::Else)) {
            Some(self.parse_framed_block_expr()?)
        } else {
            None
        };
        self.consume_punct(Punctuation::Semicolon)?;

        let span = self.get_span_to_current(begin);
        Ok(self.add_node(VarDecl::Let { span, node_id: NodeId::default(), attrs, pattern, ty, expr, else_block }))
    }

    pub(crate) fn parse_defer_stmt(&mut self, attrs: Vec<AstNodeRef<Attribute>>) -> (r: Result<AstNodeRef<Defer>, ParserErr>)
        requires
            old(self).wf(),
        ensures
            Self::steps(old(self), final(self)),
            Self::advanced(old(self), final(self), r),
            r matches Ok(n) ==> Self::fresh(old(self), final(self), n.spec_node_id()),
            r matches Ok(n) ==> old(self).peek_spec(0) == Some(Token::StrongKw(StrongKeyword::Defer)) && n.attrs == attrs,
        decreases old(self).tokens().len() - old(self).pos(), 0nat,
    {
        let begin = self.cur_span()?;
        self.consume_strong_kw(StrongKeyword::Defer)?;
        let expr = self.parse_expr(ExprParseMode::General)?;
        if !expr.has_block() {
            self.consume_punct(Punctuation::Semicolon)?;
        }

        let span = self.get_span_to_current(begin);
        Ok(self.add_node(Defer { span, node_id: NodeId::default(), attrs, expr }))
    }

    pub(crate) fn parse_err_defer_stmt(&mut self, attrs: Vec<AstNodeRef<Attribute>>) -> (r: Result<AstNodeRef<ErrDefer>, ParserErr>)
        requires
            old(self).wf(),
        ensures
            Self::steps(old(self), final(self)),
            Self::advanced(old(self), final(self), r),
            r matches Ok(n) ==> Self::fresh(old(self), final(self), n.spec_node_id()),
            r matches Ok(n) ==> {
                &&& old(self).peek_spec(0) == Some(Token::StrongKw(StrongKeyword::ErrDefer))
                &&& n.attrs == attrs
                &&& (n.receiver is Some <==> old(self).peek_spec(1) == Some(Token::Punctuation(Punctuation::Or)))
                &&& n.receiver matches Some(rc) ==> {
                    let at = if rc.is_mut { 3int } else { 2int };
                    &&& rc.is_mut == (old(self).peek_spec(2) == Some(Token::StrongKw(StrongKeyword::Mut)))
                    &&& old(self).peek_spec(at) matches Some(t) && old(self).name_of(t) == Some(rc.name)
                    &&& old(self).peek_spec(at + 1) == Some(Token::Punctuation(Punctuation::Or))
                }
            },
        decreases old(self).tokens().len() - old(self).pos(), 0nat,
    {
        let begin = self.cur_span()?;
        self.consume_strong_kw(StrongKeyword::ErrDefer)?;
        let receiver = if self.try_consume(Token::Punctuation(Punctuation::Or)) {
            let begin = self.cur_span()?;
            let is_mut = self.try_consume(Token::StrongKw(StrongKeyword::Mut));
            let name = self.consume_name()?;
            self.consume_punct(Punctuation::Or)?;
            let span = self.get_span_to_current(begin);
            Some(ErrDeferReceiver { span, is_mut, name })
        } else {
            None
        };

        let expr = self.parse_expr(ExprParseMode::General)?;
        if !expr.has_block() {
            self.consume_punct(Punctuation::Semicolon)?;
        }

        let span = self.get_span_to_current(begin);
        Ok(self.add_node(ErrDefer { span, node_id: NodeId::default(), attrs, receiver, expr }))
    }

    pub(crate) fn parse_expr_stmt(&mut self, attrs: Vec<AstNodeRef<Attribute>>, allow_expr_without_semicolon: bool) -> (r: Result<AstNodeRef<ExprStmt>, ParserErr>)
        requires
            old(self).wf(),
        ensures
            Self::steps(old(self), final(self)),
            Self::advanced(old(self), final(self), r),
            r matches Ok(n) ==> Self::fresh(old(self), final(self), n.spec_node_id()),
            r matches Ok(n) ==> n.attrs == attrs && (n.has_semi ==> final(self).tokens()[final(self).pos() - 1] == Token::Punctuation(Punctuation::Semicolon)),
        decreases old(self).tokens().len() - old(self).pos(), 4nat,
    {
        let begin = self.cur_span()?;
        let expr = self.parse_expr(ExprParseMode::AllowComma)?;
        let has_semi = if !expr.has_block() {
            if allow_expr_without_semicolon {
                self.try_consume(Token::Punctuation(Punctuation::Semicolon))
            } else {
                self.consume_punct(Punctuation::Semicolon)?;
                true
            }
        } else {
            false
        };

        let span = self.get_span_to_current(begin);
        Ok(self.add_node(ExprStmt { span, node_id: NodeId::default(), attrs, expr, has_semi }))
    }
}

} // verus!
