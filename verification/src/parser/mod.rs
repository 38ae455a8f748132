//! Recursive-descent parser from a token stream to the AST.
//!
//! The parser keeps a cursor into the tokens, a stack of open delimiters and
//! a stack of frames that record where the node under construction started.
//! Each node it builds is registered in the AST together with the span and
//! token range it was parsed from.

use vstd::prelude::*;
use crate::ast::{Ast, AstNode, AstNodeMeta, AstNodeParseHelper, AstNodeRef, Item, NodeId};
use crate::common::{LiteralId, NameId, NameTable, Span, SpanId, SpanRegistry, combined_span};
use crate::lexer::{OpenCloseSymbol, Punctuation, PunctuationId, StrongKeyword, Token, TokenStore, WeakKeyword};

mod paths;
mod types;
mod exprs;
mod patterns;
mod stmts;
mod items;

verus! {

/// Why parsing failed.
pub enum ParseErrorCode {
    NotEnoughTokens,
    FoundButExpected { found: Token, expected: Token },
    InvalidPathStart { found: Token, reason: &'static str },
    UnexpectedFor { found: Token, for_reason: &'static str },
    InvalidTraitPathFnEnd { reason: &'static str },
    InvalidPathDisabmiguation { reason: &'static str },
    ExpectPackageName { found: Token },
    ExpectModuleName { found: Token },
    InvalidExternUse,
    MissingExternFuncNoBlock,
    ReceiverInFreeFunction,
    DuplicateProp { get_set: &'static str },
    InvalidPrecedenceAssoc { name: String },
    EmptyStmtWithAttrs,
    InvalidLabel,
    AmbiguousOperators,
    ExprNotSupported { expr: &'static str, loc: &'static str },
    GenericTypeBoundsNotAllowed,
    ParamPackNameDescMismatch { name_count: u32, desc_count: u32 },
    ParamPackDefMisMatch { elem_count: u32, def_count: u32 },
    NotYetSupported { what: &'static str },
    InternalError(&'static str),
}

/// A parse error and the position of the token where it was found.
pub struct ParserErr {
    pub err:     ParseErrorCode,
    pub tok_idx: usize,
}

/// Where the node under construction started.
#[derive(Clone, Copy)]
pub struct ParserFrame {
    span:     SpanId,
    token_id: u32,
}

/// What an expression may contain at the place it is parsed.
#[derive(Clone, Copy, PartialEq, Eq, Structural, Debug)]
pub enum ExprParseMode {
    AllowComma,
    Prefix,
    AllowLet,
    Scrutinee,
    NoStructLit,
    General,
}

pub struct Parser<'a> {
    token_store: &'a TokenStore,
    token_idx:   usize,
    spans:       &'a mut SpanRegistry,
    frames:      Vec<ParserFrame>,
    last_frame:  ParserFrame,
    scope_stack: Vec<OpenCloseSymbol>,
    names:       &'a NameTable,
    pub ast:     Ast,
}

pub broadcast proof fn lemma_keeps_trans<'a>(a: &Parser<'a>, b: &Parser<'a>, c: &Parser<'a>)
    requires
        a.keeps(b),
        b.keeps(c),
    ensures
        #![trigger a.keeps(b), b.keeps(c)]
        a.keeps(c),
{
    reveal(Parser::keeps);
}

pub broadcast proof fn lemma_keeps_refl<'a>(a: &Parser<'a>)
    ensures
        #[trigger] a.keeps(a),
{
    reveal(Parser::keeps);
}

/// Moving on keeps the registered nodes and the items: there are at least as
/// many nodes after, and the same items.
pub broadcast proof fn lemma_keeps_nodes<'a>(a: &Parser<'a>, b: &Parser<'a>)
    requires
        a.keeps(b),
    ensures
        #![trigger a.keeps(b)]
        a.node_meta().len() <= b.node_meta().len(),
        is_prefix(a.node_meta(), b.node_meta()),
        a.items() == b.items(),
{
    reveal(Parser::keeps);
}

/// Moving on keeps the names that tokens stand for.
pub broadcast proof fn lemma_keeps_name_of<'a>(a: &Parser<'a>, b: &Parser<'a>, t: Token)
    requires
        a.keeps(b),
    ensures
        #[trigger] b.name_of(t) == #[trigger] a.name_of(t),
{
    reveal(Parser::keeps);
}

/// Moving on keeps the texts of the names.
pub broadcast proof fn lemma_keeps_name_text<'a>(a: &Parser<'a>, b: &Parser<'a>, id: NameId)
    requires
        a.keeps(b),
    ensures
        #[trigger] b.name_text(id) == #[trigger] a.name_text(id),
{
    reveal(Parser::keeps);
}

pub broadcast group group_parser_steps {
    lemma_keeps_trans,
    lemma_keeps_refl,
    lemma_keeps_nodes,
    lemma_keeps_name_of,
    lemma_keeps_name_text,
}

/// The items from position `first` on started, in order, at the token
/// positions `starts`, the first at `begin` and all before `end`; each one
/// that starts with neither a visibility nor an attribute is of the kind its
/// first token says.
pub open spec fn items_started_at(tokens: Seq<Token>, items: Seq<Item>, first: int, starts: Seq<int>, begin: int, end: int) -> bool {
    &&& starts.len() == items.len() - first
    &&& starts.len() > 0 ==> starts[0] == begin
    &&& forall|i: int| 0 <= i < starts.len() ==> begin <= #[trigger] starts[i] < end && starts[i] < tokens.len()
    &&& forall|i: int, j: int| 0 <= i < j < starts.len() ==> #[trigger] starts[i] < #[trigger] starts[j]
    &&& forall|i: int| 0 <= i < starts.len() ==> {
        let t = tokens[#[trigger] starts[i]];
        (t != Token::StrongKw(StrongKeyword::Pub) && t != Token::Punctuation(Punctuation::At)
            && t != Token::Punctuation(Punctuation::AtExclaim)) ==> item_begins_with(items[first + i], t)
    }
}

/// Each of the items from position `first` on that starts, at its position
/// in `starts`, with neither a visibility nor an attribute has the header
/// that the tokens there say.
pub open spec fn headers_at(parser: &Parser, items: Seq<Item>, first: int, starts: Seq<int>) -> bool {
    forall|i: int| 0 <= i < starts.len() ==> {
        let t = parser.tokens()[#[trigger] starts[i]];
        (t != Token::StrongKw(StrongKeyword::Pub) && t != Token::Punctuation(Punctuation::At)
            && t != Token::Punctuation(Punctuation::AtExclaim)) ==> parser.item_header_at(starts[i], items[first + i])
    }
}

/// From `lo` to `hi`, the tokens are module declarations, `mod name;`, one after another.
pub open spec fn module_decls(parser: &Parser, lo: int, hi: int) -> bool {
    &&& 0 <= lo <= hi <= parser.tokens().len()
    &&& (hi - lo) % 3 == 0
    &&& forall|i: int| lo <= i < hi && (i - lo) % 3 == 0 ==> {
        &&& #[trigger] parser.tokens()[i] == Token::StrongKw(StrongKeyword::Mod)
        &&& parser.name_of(parser.tokens()[i + 1]) is Some
        &&& parser.tokens()[i + 2] == Token::Punctuation(Punctuation::Semicolon)
    }
}

/// The module declaration at `i`, one of those from `lo` to `hi`.
pub proof fn lemma_module_decl_at(parser: &Parser, lo: int, hi: int, i: int)
    requires
        module_decls(parser, lo, hi),
        lo <= i < hi,
        (i - lo) % 3 == 0,
    ensures
        i + 3 <= hi,
        parser.tokens()[i] == Token::StrongKw(StrongKeyword::Mod),
        parser.name_of(parser.tokens()[i + 1]) is Some,
        parser.tokens()[i + 2] == Token::Punctuation(Punctuation::Semicolon),
{
    assert(parser.tokens()[i] == Token::StrongKw(StrongKeyword::Mod));
    assert((hi - i) % 3 == 0) by (nonlinear_arith)
        requires (hi - lo) % 3 == 0, (i - lo) % 3 == 0, lo <= i;
}

/// Whether `item` is of the kind that an item starting with the keyword `t`
/// has; a token that leaves the kind open, or that starts no item, allows any.
pub open spec fn item_begins_with(item: Item, t: Token) -> bool {
    match t {
        Token::StrongKw(StrongKeyword::Fn) => item is Function,
        Token::StrongKw(StrongKeyword::Bitfield) => item is Bitfield,
        Token::StrongKw(StrongKeyword::Enum) => item is Enum,
        Token::WeakKw(WeakKeyword::Flag) => item is Enum,
        Token::StrongKw(StrongKeyword::Impl) => item is Impl,
        Token::StrongKw(StrongKeyword::Mod) => item is Module,
        Token::StrongKw(StrongKeyword::Static) => item is Static,
        Token::WeakKw(WeakKeyword::Tls) => item is Static,
        Token::StrongKw(StrongKeyword::Struct) => item is Struct,
        Token::StrongKw(StrongKeyword::Trait) => item is Trait,
        Token::WeakKw(WeakKeyword::Sealed) => item is Trait,
        Token::StrongKw(StrongKeyword::Use) => item is Use,
        Token::StrongKw(StrongKeyword::Union) => item is Union,
        Token::StrongKw(StrongKeyword::Type) => item is TypeAlias || item is OpaqueType,
        Token::WeakKw(WeakKeyword::Distinct) => item is DistinctType,
        Token::WeakKw(WeakKeyword::Op) => item is OpTrait || item is OpUse,
        Token::WeakKw(WeakKeyword::Precedence) => item is Precedence || item is PrecedenceUse,
        Token::StrongKw(StrongKeyword::Const) => item is Function || item is Const,
        Token::StrongKw(StrongKeyword::Extern) => item is Function || item is Static || item is Extern,
        _ => true,
    }
}

/// `a` is a prefix of `b`.
pub open spec fn is_prefix<T>(a: Seq<T>, b: Seq<T>) -> bool {
    &&& a.len() <= b.len()
    &&& forall|i: int| 0 <= i < a.len() ==> #[trigger] a[i] == b[i]
}

/// Being a prefix is transitive.
pub proof fn lemma_prefix_trans<T>(a: Seq<T>, b: Seq<T>, c: Seq<T>)
    requires
        is_prefix(a, b),
        is_prefix(b, c),
    ensures
        is_prefix(a, c),
{
    assert forall|i: int| 0 <= i < a.len() implies #[trigger] a[i] == c[i] by {
        assert(a[i] == b[i]);
        assert(b[i] == c[i]);
    }
}

impl<'a> Parser<'a> {
    /// The tokens being parsed.
    pub closed spec fn tokens(&self) -> Seq<Token> {
        self.token_store.tokens@
    }

    /// The position of the next token to parse.
    pub closed spec fn pos(&self) -> int {
        self.token_idx as int
    }

    /// The metadata of the nodes registered so far.
    pub closed spec fn node_meta(&self) -> Seq<AstNodeMeta> {
        self.ast.meta@
    }

    /// The items parsed so far.
    pub closed spec fn items(&self) -> Seq<crate::ast::Item> {
        self.ast.items@
    }

    /// The span that the lexer gave the token at position `i`.
    pub closed spec fn span_of_token(&self, i: int) -> SpanId {
        self.token_store.metadata@[i].span_id
    }

    /// Whether the lexer saw whitespace, a line break or a comment just
    /// before the token at position `i`.
    pub closed spec fn spaced_before(&self, i: int) -> bool {
        self.token_store.metadata@[i].meta_elems@.len() != 0
    }

    /// The spans registered so far.
    pub closed spec fn spans(&self) -> Seq<Span> {
        self.spans.spans@
    }

    /// The open frames of the nodes under construction: where each began.
    pub closed spec fn frames(&self) -> Seq<(u32, SpanId)> {
        self.frames@.map_values(|f: ParserFrame| (f.token_id, f.span))
    }

    /// The frame of the node registered last: where it began.
    pub closed spec fn last_frame(&self) -> (u32, SpanId) {
        (self.last_frame.token_id, self.last_frame.span)
    }

    /// The delimiters that are open, innermost last.
    pub closed spec fn scopes(&self) -> Seq<OpenCloseSymbol> {
        self.scope_stack@
    }

    /// The token at `pos() + offset`, where there is one.
    pub open spec fn peek_spec(&self, offset: int) -> Option<Token> {
        if 0 <= self.pos() + offset < self.tokens().len() {
            Some(self.tokens()[self.pos() + offset])
        } else {
            None
        }
    }

    /// The cursor lies within the tokens; every open frame, and every
    /// registered node's token range, lies before the cursor.
    pub closed spec fn wf(&self) -> bool {
        &&& self.token_store.wf()
        &&& self.token_idx <= self.token_store.tokens@.len()
        &&& self.last_frame.token_id <= self.token_idx
        &&& forall|i: int| 0 <= i < self.frames@.len() ==> #[trigger] self.frames@[i].token_id <= self.token_idx
        &&& forall|i: int| 0 <= i < self.ast.meta@.len() ==>
                #[trigger] self.ast.meta@[i].first_tok <= self.ast.meta@[i].last_tok
                && self.ast.meta@[i].last_tok <= self.token_idx
    }

    /// What stays when the parser moves on from `self` to `next`: the tokens,
    /// the name table, the nodes and spans registered so far, and the items.
    #[verifier::opaque]
    pub closed spec fn keeps(&self, next: &Self) -> bool {
        &&& next.token_store == self.token_store
        &&& next.names == self.names
        &&& is_prefix(self.ast.meta@, next.ast.meta@)
        &&& is_prefix(self.spans.spans@, next.spans.spans@)
        &&& next.ast.items@ == self.ast.items@
        &&& next.ast.file@ == self.ast.file@
    }

    /// One step of the parser from `old` to `new`: well-formed, same tokens,
    /// the cursor did not move back, and nothing registered was lost.
    pub open spec fn steps(old: &Self, new: &Self) -> bool {
        &&& new.wf()
        &&& new.tokens() == old.tokens()
        &&& old.pos() <= new.pos()
        &&& old.keeps(new)
    }

    /// On success the parser moved forward; on failure the error is at the cursor.
    pub open spec fn advanced<T>(old: &Self, new: &Self, r: Result<T, ParserErr>) -> bool {
        &&& r is Ok ==> new.pos() > old.pos()
        &&& r matches Err(e) ==> e.tok_idx == new.pos()
    }

    /// On failure the error is at the cursor.
    pub open spec fn err_at_cursor<T>(new: &Self, r: Result<T, ParserErr>) -> bool {
        r matches Err(e) ==> e.tok_idx == new.pos()
    }

    /// `id` names a node registered between `old` and `new`.
    pub open spec fn fresh(old: &Self, new: &Self, id: NodeId) -> bool {
        old.node_meta().len() <= id.spec_index() < new.node_meta().len()
    }

    /// Every registered node's token range is ordered and lies within the tokens.
    pub proof fn lemma_node_ranges(&self)
        requires
            self.wf(),
        ensures
            forall|i: int| 0 <= i < self.node_meta().len() ==>
                #[trigger] self.node_meta()[i].first_tok <= self.node_meta()[i].last_tok
                && self.node_meta()[i].last_tok <= self.tokens().len(),
    {
        assert forall|i: int| 0 <= i < self.node_meta().len() implies
            #[trigger] self.node_meta()[i].first_tok <= self.node_meta()[i].last_tok
            && self.node_meta()[i].last_tok <= self.tokens().len() by {
            assert(self.ast.meta@[i].first_tok <= self.ast.meta@[i].last_tok);
            assert(self.ast.meta@[i].last_tok <= self.token_idx);
            assert(self.token_idx <= self.tokens().len());
            assert(self.node_meta()[i] == self.ast.meta@[i]);
        }
    }

    pub fn new(token_store: &'a TokenStore, names: &'a NameTable, spans: &'a mut SpanRegistry) -> (r: Self)
        requires
            token_store.wf(),
        ensures
            r.wf(),
            r.tokens() == token_store.tokens@,
            r.pos() == 0,
            r.scopes().len() == 0,
            r.node_meta().len() == 0,
            r.items().len() == 0,
            r.frames().len() == 0,
            r.last_frame() == (0u32, SpanId::spec_invalid()),
            r.spans() == old(spans).spans@,
    {
        Parser {
            token_store,
            token_idx: 0,
            spans,
            frames: Vec::new(),
            last_frame: ParserFrame { token_id: 0, span: SpanId::invalid() },
            scope_stack: Vec::new(),
            names,
            ast: Ast::new(),
        }
    }

    /// Parses items until the tokens run out, appending them to the AST. Each
    /// new item is a node registered during the call, after the items before
    /// it; the items start at increasing positions, and each one that starts
    /// with its keywords (no visibility, no attribute) is of the kind they say,
    /// with the flags and the name that the tokens there give.
    pub fn parse(&mut self) -> (r: Result<(), ParserErr>)
        requires
            old(self).wf(),
        ensures
            final(self).wf(),
            final(self).tokens() == old(self).tokens(),
            old(self).pos() <= final(self).pos(),
            is_prefix(old(self).node_meta(), final(self).node_meta()),
            is_prefix(old(self).items(), final(self).items()),
            r is Ok ==> final(self).pos() == final(self).tokens().len(),
            old(self).pos() == old(self).tokens().len() ==> r is Ok && final(self).items() == old(self).items()
                && final(self).node_meta() == old(self).node_meta(),
            module_decls(old(self), old(self).pos(), old(self).tokens().len() as int) ==> r is Ok,
            r matches Err(e) ==> e.tok_idx == final(self).pos(),
            forall|i: int| old(self).items().len() <= i < final(self).items().len() ==>
                old(self).node_meta().len() <= #[trigger] final(self).items()[i].spec_node_id().spec_index()
                && final(self).items()[i].spec_node_id().spec_index() < final(self).node_meta().len(),
            forall|i: int, j: int| old(self).items().len() <= i < j < final(self).items().len() ==>
                #[trigger] final(self).items()[i].spec_node_id().spec_index() < #[trigger] final(self).items()[j].spec_node_id().spec_index(),
            exists|starts: Seq<int>| #[trigger] items_started_at(final(self).tokens(), final(self).items(),
                old(self).items().len() as int, starts, old(self).pos(), final(self).pos())
                && headers_at(old(self), final(self).items(), old(self).items().len() as int, starts),
    {
        let ghost mut starts: Seq<int> = Seq::empty();
        while self.token_idx != self.token_store.tokens.len()
            invariant
                self.wf(),
                self.tokens() == old(self).tokens(),
                old(self).pos() <= self.pos(),
                is_prefix(old(self).node_meta(), self.node_meta()),
                is_prefix(old(self).items(), self.items()),
                forall|i: int| old(self).items().len() <= i < self.items().len() ==>
                    old(self).node_meta().len() <= #[trigger] self.items()[i].spec_node_id().spec_index()
                    && self.items()[i].spec_node_id().spec_index() < self.node_meta().len(),
                forall|i: int, j: int| old(self).items().len() <= i < j < self.items().len() ==>
                    #[trigger] self.items()[i].spec_node_id().spec_index() < #[trigger] self.items()[j].spec_node_id().spec_index(),
                self.items().len() == old(self).items().len() ==> self.pos() == old(self).pos(),
                old(self).pos() == old(self).tokens().len() ==> self.items() == old(self).items()
                    && self.node_meta() == old(self).node_meta(),
                module_decls(old(self), old(self).pos(), old(self).tokens().len() as int) ==> (self.pos() - old(self).pos()) % 3 == 0,
                items_started_at(self.tokens(), self.items(), old(self).items().len() as int, starts, old(self).pos(), self.pos()),
                headers_at(old(self), self.items(), old(self).items().len() as int, starts),
                self.token_store == old(self).token_store,
                self.names == old(self).names,
            decreases self.tokens().len() - self.pos(),
        {
            let ghost prev = *self;
            proof {
                if module_decls(old(self), old(self).pos(), old(self).tokens().len() as int) {
                    lemma_module_decl_at(old(self), old(self).pos(), old(self).tokens().len() as int, prev.pos());
                    assert forall|t: Token| #[trigger] prev.name_of(t) == old(self).name_of(t) by {}
                }
            }
            let item = match self.parse_item(None) {
                Ok(item) => item,
                Err(e) => {
                    proof {
                        lemma_keeps_nodes(&prev, self);
                        lemma_prefix_trans(old(self).node_meta(), prev.node_meta(), self.node_meta());
                        assert(items_started_at(self.tokens(), self.items(), old(self).items().len() as int, starts, old(self).pos(), self.pos()));
                    }
                    return Err(e);
                },
            };
            proof {
                lemma_keeps_nodes(&prev, self);
                lemma_prefix_trans(old(self).node_meta(), prev.node_meta(), self.node_meta());
                reveal(Parser::keeps);
            }
            self.ast.items.push(item);
            assert(is_prefix(old(self).items(), self.items()));
            proof {
                let first = old(self).items().len() as int;
                let before = starts;
                starts = starts.push(prev.pos());
                assert(self.items()[first + before.len()] == item);
                assert forall|i: int| 0 <= i < before.len() implies
                    #[trigger] self.items()[first + i] == prev.items()[first + i] by {}
                assert(items_started_at(self.tokens(), self.items(), first, starts, old(self).pos(), self.pos()));
                let t = self.tokens()[prev.pos()];
                if t != Token::StrongKw(StrongKeyword::Pub) && t != Token::Punctuation(Punctuation::At)
                    && t != Token::Punctuation(Punctuation::AtExclaim) {
                    assert(prev.peek_spec(0) == Some(t));
                    assert(prev.item_header_at(prev.pos(), item));
                    assert forall|tok: Token| #[trigger] prev.name_of(tok) == old(self).name_of(tok) by {}
                    assert(old(self).item_header_at(prev.pos(), item));
                }
                assert(headers_at(old(self), self.items(), first, starts));
            }
        }
        proof {
            assert(items_started_at(self.tokens(), self.items(), old(self).items().len() as int, starts, old(self).pos(), self.pos()));
        }
        Ok(())
    }

// =============================================================================================================================

    fn try_peek(&self) -> (r: Option<Token>)
        requires
            self.wf(),
        ensures
            r == self.peek_spec(0),
    {
        if self.token_idx < self.token_store.tokens.len() {
            Some(self.token_store.tokens[self.token_idx])
        } else {
            None
        }
    }

    fn try_peek_at(&self, offset: usize) -> (r: Option<Token>)
        requires
            self.wf(),
            offset < 0x1_0000,
        ensures
            r == self.peek_spec(offset as int),
    {
        if self.token_idx + offset < self.token_store.tokens.len() {
            Some(self.token_store.tokens[self.token_idx + offset])
        } else {
            None
        }
    }

    fn peek(&self) -> (r: Result<Token, ParserErr>)
        requires
            self.wf(),
        ensures
            r matches Ok(t) ==> self.peek_spec(0) == Some(t),
            r is Err ==> self.peek_spec(0) is None,
            r matches Err(e) ==> e.tok_idx == self.pos() && e.err is NotEnoughTokens,
    {
        if self.token_idx < self.token_store.tokens.len() {
            Ok(self.token_store.tokens[self.token_idx])
        } else {
            Err(self.gen_error(ParseErrorCode::NotEnoughTokens))
        }
    }

    fn peek_at(&self, offset: usize) -> (r: Result<Token, ParserErr>)
        requires
            self.wf(),
            offset < 0x1_0000,
        ensures
            r matches Ok(t) ==> self.peek_spec(offset as int) == Some(t),
            r is Err ==> self.peek_spec(offset as int) is None,
            r matches Err(e) ==> e.tok_idx == self.pos() && e.err is NotEnoughTokens,
    {
        if self.token_idx + offset < self.token_store.tokens.len() {
            Ok(self.token_store.tokens[self.token_idx + offset])
        } else {
            Err(self.gen_error(ParseErrorCode::NotEnoughTokens))
        }
    }

    /// Whether `token` is found at one of the offsets in `indices`.
    fn check_peek(&self, indices: &[usize], token: Token) -> (r: bool)
        requires
            self.wf(),
            forall|i: int| 0 <= i < indices@.len() ==> #[trigger] indices@[i] < 0x1_0000,
        ensures
            r == exists|i: int| 0 <= i < indices@.len() && self.peek_spec(#[trigger] indices@[i] as int) == Some(token),
    {
        let mut i: usize = 0;
        while i < indices.len()
            invariant
                self.wf(),
                i <= indices@.len(),
                forall|k: int| 0 <= k < indices@.len() ==> #[trigger] indices@[k] < 0x1_0000,
                forall|k: int| 0 <= k < i ==> self.peek_spec(#[trigger] indices@[k] as int) != Some(token),
            decreases indices@.len() - i,
        {
            if self.try_peek_at(indices[i]) == Some(token) {
                return true;
            }
            i = i + 1;
        }
        false
    }

    /// Moves past the current token, returning it and its span.
    fn consume_single(&mut self) -> (r: (Token, SpanId))
        requires
            old(self).wf(),
            old(self).pos() < old(self).tokens().len(),
        ensures
            Self::steps(old(self), final(self)),
            final(self).pos() == old(self).pos() + 1,
            r.0 == old(self).tokens()[old(self).pos()],
            final(self).scopes() == old(self).scopes(),
            final(self).node_meta() == old(self).node_meta(),
    {
        let token_idx = self.token_idx;
        self.token_idx += 1;
        let span = self.token_store.metadata[token_idx].span_id;
        let tok = self.token_store.tokens[token_idx];
        proof {
            reveal(Parser::keeps);
            assert(old(self).keeps(self));
            assert(self.wf());
        }
        (tok, span)
    }

    /// Moves past the current token if it is `expected`.
    fn consume(&mut self, expected: Token) -> (r: Result<(), ParserErr>)
        requires
            old(self).wf(),
        ensures
            Self::steps(old(self), final(self)),
            final(self).scopes() == old(self).scopes(),
            final(self).node_meta() == old(self).node_meta(),
            r is Ok <==> old(self).peek_spec(0) == Some(expected),
            r is Ok ==> final(self).pos() == old(self).pos() + 1,
            r matches Err(e) ==> final(self).pos() == old(self).pos() && e.tok_idx == final(self).pos(),
            r matches Err(e) ==> match old(self).peek_spec(0) {
                Some(found) => e.err == ParseErrorCode::FoundButExpected { found, expected },
                None => e.err is NotEnoughTokens,
            },
    {
        let peek = self.peek();
        match peek {
            Ok(peek) => if peek == expected {
                self.consume_single();
                Ok(())
            } else {
                proof { reveal(Parser::keeps); }
                Err(self.gen_error(ParseErrorCode::FoundButExpected { found: peek, expected }))
            },
            Err(e) => {
                proof { reveal(Parser::keeps); }
                Err(e)
            },
        }
    }

    /// The name that a token stands for, where it can be used as a name.
    /// The position of the `j`-th name of a list that starts at `start`, the
    /// names separated by single tokens.
    pub open spec fn name_slot(start: int, j: int) -> int {
        start + 2 * j
    }

    /// From `start` on, the tokens are the names `names`, each but the last
    /// followed by `sep`.
    pub open spec fn separated_names(&self, start: int, sep: Token, names: Seq<NameId>) -> bool {
        &&& 0 <= start
        &&& start + 2 * names.len() <= self.tokens().len() + 1
        &&& forall|j: int| 0 <= j < names.len() ==>
            self.name_of(#[trigger] self.tokens()[Self::name_slot(start, j)]) == Some(names[j])
        &&& forall|j: int| 0 <= j < names.len() - 1 ==>
            #[trigger] self.tokens()[Self::name_slot(start, j) + 1] == sep
    }

    /// From `start` to `end`, the tokens are names between braces, separated
    /// by commas, with an optional comma after the last.
    pub open spec fn braced_names_at(&self, start: int, end: int, names: Seq<NameId>) -> bool {
        &&& 0 <= start && end <= self.tokens().len()
        &&& self.tokens()[start] == Token::OpenSymbol(OpenCloseSymbol::Brace)
        &&& self.separated_names(start + 1, Token::Punctuation(Punctuation::Comma), names)
        &&& self.tokens()[end - 1] == Token::CloseSymbol(OpenCloseSymbol::Brace)
        &&& (end == start + 2 * names.len() + 1 && names.len() > 0)
            || (end == start + 2 * names.len() + 2
                && (names.len() > 0 ==> self.tokens()[end - 2] == Token::Punctuation(Punctuation::Comma)))
    }

    /// From `start` to `end`, the tokens name where an import comes from: an
    /// optional group and package (`group.package` or `package`), a colon, and
    /// the library's name or a dot.
    pub open spec fn import_source_at(&self, start: int, end: int, group: Option<NameId>, package: Option<NameId>,
        library: Option<NameId>) -> bool
    {
        let colon = start + if group is Some { 3int } else if package is Some { 1int } else { 0int };
        &&& 0 <= start && end <= self.tokens().len()
        &&& colon + 1 < self.tokens().len()
        &&& self.tokens()[colon] == Token::Punctuation(Punctuation::Colon)
        &&& match group {
            Some(g) => {
                &&& self.tokens()[start] == Token::Name(g)
                &&& self.tokens()[start + 1] == Token::Punctuation(Punctuation::Dot)
                &&& package matches Some(pk) && self.name_of(self.tokens()[start + 2]) == Some(pk)
            },
            None => package matches Some(pk) ==> self.tokens()[start] == Token::Name(pk),
        }
        &&& match library {
            Some(l) => self.tokens()[colon + 1] == Token::Name(l) && end == colon + 2,
            None => self.tokens()[colon + 1] == Token::Punctuation(Punctuation::Dot) && end == colon + 1,
        }
    }

    /// The text of the name `id`, or nothing where the table has no such name.
    pub closed spec fn name_text(&self, id: NameId) -> Option<Seq<char>> {
        if (id.0 as int) < self.names.names@.len() { Some(self.names.names@[id.0 as int]@) } else { None }
    }

    pub closed spec fn name_of(&self, token: Token) -> Option<NameId> {
        match token {
            Token::Name(name_id) => Some(name_id),
            Token::WeakKw(kw) => Some(self.token_store.spec_weak_kw_name(kw)),
            Token::StrongKw(kw) => self.token_store.spec_prim_ty_name(kw),
            _ => None,
        }
    }

    fn name_from_tok(&self, token: Token) -> (r: Option<NameId>)
        requires
            self.wf(),
        ensures
            r == self.name_of(token),
    {
        match token {
            Token::Name(name_id) => Some(name_id),
            Token::WeakKw(kw) => Some(self.token_store.get_name_from_weak_keyword(kw)),
            Token::StrongKw(kw) => self.token_store.get_name_from_prim_ty(kw),
            _ => None,
        }
    }

    fn try_consume_name(&mut self) -> (r: Option<NameId>)
        requires
            old(self).wf(),
        ensures
            Self::steps(old(self), final(self)),
            final(self).scopes() == old(self).scopes(),
            final(self).node_meta() == old(self).node_meta(),
            match old(self).peek_spec(0) {
                Some(t) => r == old(self).name_of(t),
                None => r is None,
            },
            r is Some ==> final(self).pos() == old(self).pos() + 1,
            r is None ==> final(self).pos() == old(self).pos(),
    {
        let peek = match self.try_peek() {
            Some(peek) => peek,
            None => {
                proof { reveal(Parser::keeps); }
                return None;
            },
        };

        let name = self.name_from_tok(peek);
        if name.is_some() {
            self.consume_single();
        } else {
            proof { reveal(Parser::keeps); }
        }
        name
    }

    /// The text of the name `id`, where the name table has it.
    fn name_string(&self, id: NameId) -> (r: Option<&String>)
        ensures
            r is Some == self.name_text(id) is Some,
            r matches Some(text) ==> self.name_text(id) == Some(text@),
    {
        let idx = id.0 as usize;
        if idx < self.names.names.len() {
            Some(&self.names.names[idx])
        } else {
            None
        }
    }

    fn consume_name(&mut self) -> (r: Result<NameId, ParserErr>)
        requires
            old(self).wf(),
        ensures
            Self::steps(old(self), final(self)),
            final(self).scopes() == old(self).scopes(),
            final(self).node_meta() == old(self).node_meta(),
            r matches Ok(n) ==> old(self).peek_spec(0) matches Some(t) && old(self).name_of(t) == Some(n),
            r is Err ==> (old(self).peek_spec(0) matches Some(t) ==> old(self).name_of(t) is None),
            r is Ok ==> final(self).pos() == old(self).pos() + 1,
            r matches Err(e) ==> final(self).pos() == old(self).pos() && e.tok_idx == final(self).pos(),
    {
        let peek = match self.peek() {
            Ok(peek) => peek,
            Err(e) => {
                proof { reveal(Parser::keeps); }
                return Err(e);
            },
        };
        match self.name_from_tok(peek) {
            Some(name) => {
                self.consume_single();
                Ok(name)
            },
            None => {
                proof { reveal(Parser::keeps); }
                Err(self.gen_error(ParseErrorCode::FoundButExpected { found: peek, expected: Token::Name(NameId::invalid()) }))
            },
        }
    }

    fn consume_name_and_span(&mut self) -> (r: Result<(NameId, SpanId), ParserErr>)
        requires
            old(self).wf(),
        ensures
            Self::steps(old(self), final(self)),
            final(self).scopes() == old(self).scopes(),
            final(self).node_meta() == old(self).node_meta(),
            r matches Ok((n, _)) ==> old(self).peek_spec(0) matches Some(t) && old(self).name_of(t) == Some(n),
            r is Err ==> (old(self).peek_spec(0) matches Some(t) ==> old(self).name_of(t) is None),
            r is Ok ==> final(self).pos() == old(self).pos() + 1,
            r matches Err(e) ==> final(self).pos() == old(self).pos() && e.tok_idx == final(self).pos(),
    {
        let token = self.consume_name()?;
        let span = self.token_store.metadata[self.token_idx - 1].span_id;
        Ok((token, span))
    }

    fn consume_lit(&mut self) -> (r: Result<LiteralId, ParserErr>)
        requires
            old(self).wf(),
        ensures
            Self::steps(old(self), final(self)),
            final(self).scopes() == old(self).scopes(),
            final(self).node_meta() == old(self).node_meta(),
            r matches Ok(l) ==> old(self).peek_spec(0) == Some(Token::Literal(l)),
            r is Err ==> !(old(self).peek_spec(0) matches Some(Token::Literal(_))),
            r is Ok ==> final(self).pos() == old(self).pos() + 1,
            r matches Err(e) ==> final(self).pos() == old(self).pos() && e.tok_idx == final(self).pos(),
    {
        let peek = match self.peek() {
            Ok(peek) => peek,
            Err(e) => {
                proof { reveal(Parser::keeps); }
                return Err(e);
            },
        };
        if let Token::Literal(lit_id) = peek {
            self.consume_single();
            Ok(lit_id)
        } else {
            proof { reveal(Parser::keeps); }
            Err(self.gen_error(ParseErrorCode::FoundButExpected { found: peek, expected: Token::Literal(LiteralId::invalid()) }))
        }
    }

    fn consume_any_punct(&mut self) -> (r: Result<Punctuation, ParserErr>)
        requires
            old(self).wf(),
        ensures
            Self::steps(old(self), final(self)),
            final(self).scopes() == old(self).scopes(),
            final(self).node_meta() == old(self).node_meta(),
            r matches Ok(p) ==> old(self).peek_spec(0) == Some(Token::Punctuation(p)),
            r is Err ==> !(old(self).peek_spec(0) matches Some(Token::Punctuation(_))),
            r is Ok ==> final(self).pos() == old(self).pos() + 1,
            r matches Err(e) ==> final(self).pos() == old(self).pos() && e.tok_idx == final(self).pos(),
    {
        let peek = match self.peek() {
            Ok(peek) => peek,
            Err(e) => {
                proof { reveal(Parser::keeps); }
                return Err(e);
            },
        };
        if let Token::Punctuation(punct) = peek {
            self.consume_single();
            Ok(punct)
        } else {
            proof { reveal(Parser::keeps); }
            Err(self.gen_error(ParseErrorCode::FoundButExpected {
                found: peek,
                expected: Token::Punctuation(Punctuation::Custom(PunctuationId::invalid())),
            }))
        }
    }

    fn consume_punct(&mut self, punct: Punctuation) -> (r: Result<(), ParserErr>)
        requires
            old(self).wf(),
        ensures
            Self::steps(old(self), final(self)),
            final(self).scopes() == old(self).scopes(),
            final(self).node_meta() == old(self).node_meta(),
            r is Ok <==> old(self).peek_spec(0) == Some(Token::Punctuation(punct)),
            r is Ok ==> final(self).pos() == old(self).pos() + 1,
            r matches Err(e) ==> final(self).pos() == old(self).pos() && e.tok_idx == final(self).pos(),
    {
        self.consume(Token::Punctuation(punct))
    }

    fn consume_strong_kw(&mut self, kw: StrongKeyword) -> (r: Result<(), ParserErr>)
        requires
            old(self).wf(),
        ensures
            Self::steps(old(self), final(self)),
            final(self).scopes() == old(self).scopes(),
            final(self).node_meta() == old(self).node_meta(),
            r is Ok <==> old(self).peek_spec(0) == Some(Token::StrongKw(kw)),
            r is Ok ==> final(self).pos() == old(self).pos() + 1,
            r matches Err(e) ==> final(self).pos() == old(self).pos() && e.tok_idx == final(self).pos(),
    {
        self.consume(Token::StrongKw(kw))
    }

    fn consume_weak_kw(&mut self, kw: WeakKeyword) -> (r: Result<(), ParserErr>)
        requires
            old(self).wf(),
        ensures
            Self::steps(old(self), final(self)),
            final(self).scopes() == old(self).scopes(),
            final(self).node_meta() == old(self).node_meta(),
            r is Ok <==> old(self).peek_spec(0) == Some(Token::WeakKw(kw)),
            r is Ok ==> final(self).pos() == old(self).pos() + 1,
            r matches Err(e) ==> final(self).pos() == old(self).pos() && e.tok_idx == final(self).pos(),
    {
        self.consume(Token::WeakKw(kw))
    }

    /// Moves past the current token if it is `token`, and says whether it did.
    fn try_consume(&mut self, token: Token) -> (r: bool)
        requires
            old(self).wf(),
        ensures
            Self::steps(old(self), final(self)),
            final(self).scopes() == old(self).scopes(),
            final(self).node_meta() == old(self).node_meta(),
            r == (old(self).peek_spec(0) == Some(token)),
            r ==> final(self).pos() == old(self).pos() + 1,
            !r ==> final(self).pos() == old(self).pos(),
    {
        if let Some(peek) = self.try_peek() {
            if peek == token {
                self.consume_single();
                return true;
            }
        }
        proof { reveal(Parser::keeps); }
        false
    }

    fn begin_scope(&mut self, sym: OpenCloseSymbol) -> (r: Result<(), ParserErr>)
        requires
            old(self).wf(),
        ensures
            Self::steps(old(self), final(self)),
            final(self).node_meta() == old(self).node_meta(),
            r is Ok <==> old(self).peek_spec(0) == Some(Token::OpenSymbol(sym)),
            r is Ok ==> final(self).pos() == old(self).pos() + 1 && final(self).scopes() == old(self).scopes().push(sym),
            r matches Err(e) ==> final(self).pos() == old(self).pos() && e.tok_idx == final(self).pos()
                && final(self).scopes() == old(self).scopes(),
            r matches Err(e) ==> match old(self).peek_spec(0) {
                Some(found) => e.err == ParseErrorCode::FoundButExpected { found, expected: Token::OpenSymbol(sym) },
                None => e.err is NotEnoughTokens,
            },
    {
        self.consume(Token::OpenSymbol(sym))?;
        self.scope_stack.push(sym);
        proof { reveal(Parser::keeps); }
        Ok(())
    }

    fn try_begin_scope(&mut self, sym: OpenCloseSymbol) -> (r: bool)
        requires
            old(self).wf(),
        ensures
            Self::steps(old(self), final(self)),
            final(self).node_meta() == old(self).node_meta(),
            r == (old(self).peek_spec(0) == Some(Token::OpenSymbol(sym))),
            r ==> final(self).pos() == old(self).pos() + 1 && final(self).scopes() == old(self).scopes().push(sym),
            !r ==> final(self).pos() == old(self).pos() && final(self).scopes() == old(self).scopes(),
    {
        if self.try_consume(Token::OpenSymbol(sym)) {
            self.scope_stack.push(sym);
            proof { reveal(Parser::keeps); }
            true
        } else {
            false
        }
    }

    /// Closes the innermost open delimiter. With no delimiter open, nothing is
    /// consumed and an internal error is returned.
    fn end_scope(&mut self) -> (r: Result<(), ParserErr>)
        requires
            old(self).wf(),
        ensures
            Self::steps(old(self), final(self)),
            final(self).node_meta() == old(self).node_meta(),
            old(self).scopes().len() == 0 ==> r is Err && final(self).pos() == old(self).pos()
                && final(self).scopes() == old(self).scopes(),
            old(self).scopes().len() > 0 ==> {
                &&& final(self).scopes() == old(self).scopes().drop_last()
                &&& r is Ok <==> old(self).peek_spec(0) == Some(Token::CloseSymbol(old(self).scopes().last()))
            },
            r is Ok ==> final(self).pos() == old(self).pos() + 1,
            r matches Err(e) ==> final(self).pos() == old(self).pos() && e.tok_idx == final(self).pos(),
    {
        let sym = match self.scope_stack.pop() {
            Some(sym) => sym,
            None => {
                proof { reveal(Parser::keeps); }
                return Err(self.gen_error(ParseErrorCode::InternalError("no open scope to close")));
            },
        };
        proof { reveal(Parser::keeps); }
        self.consume(Token::CloseSymbol(sym))
    }

    /// Closes the innermost open delimiter if the current token closes it.
    /// With no delimiter open, nothing happens and `false` is returned.
    fn try_end_scope(&mut self) -> (r: bool)
        requires
            old(self).wf(),
        ensures
            Self::steps(old(self), final(self)),
            final(self).node_meta() == old(self).node_meta(),
            r == (old(self).scopes().len() > 0
                && old(self).peek_spec(0) == Some(Token::CloseSymbol(old(self).scopes().last()))),
            r ==> final(self).pos() == old(self).pos() + 1 && final(self).scopes() == old(self).scopes().drop_last(),
            !r ==> final(self).pos() == old(self).pos() && final(self).scopes() == old(self).scopes(),
    {
        let len = self.scope_stack.len();
        if len == 0 {
            proof { reveal(Parser::keeps); }
            return false;
        }
        let sym = self.scope_stack[len - 1];
        if self.try_consume(Token::CloseSymbol(sym)) {
            self.scope_stack.pop();
            proof { reveal(Parser::keeps); }
            true
        } else {
            false
        }
    }

    fn gen_error(&self, err: ParseErrorCode) -> (r: ParserErr)
        ensures
            r.tok_idx == self.pos(),
            r.err == err,
    {
        ParserErr { err, tok_idx: self.token_idx }
    }

    /// Opens a frame at the current token.
    fn push_meta_frame(&mut self)
        requires
            old(self).wf(),
            old(self).pos() < old(self).tokens().len(),
        ensures
            Self::steps(old(self), final(self)),
            final(self).pos() == old(self).pos(),
            final(self).scopes() == old(self).scopes(),
            final(self).node_meta() == old(self).node_meta(),
    {
        let span = self.token_store.metadata[self.token_idx].span_id;
        self.frames.push(ParserFrame { span, token_id: self.token_idx as u32 });
        proof {
            reveal(Parser::keeps);
            assert(old(self).keeps(self));
            assert(self.wf());
        }
    }

    /// Opens a frame where the last node started.
    fn push_last_frame(&mut self)
        requires
            old(self).wf(),
        ensures
            Self::steps(old(self), final(self)),
            final(self).pos() == old(self).pos(),
            final(self).scopes() == old(self).scopes(),
            final(self).node_meta() == old(self).node_meta(),
    {
        self.frames.push(self.last_frame);
        proof { reveal(Parser::keeps); }
    }

    fn pop_meta_frame(&mut self) -> (r: Option<ParserFrame>)
        requires
            old(self).wf(),
        ensures
            Self::steps(old(self), final(self)),
            final(self).pos() == old(self).pos(),
            final(self).scopes() == old(self).scopes(),
            final(self).node_meta() == old(self).node_meta(),
            r matches Some(f) ==> f.token_id <= old(self).pos(),
    {
        let r = self.frames.pop();
        proof {
            reveal(Parser::keeps);
            if r.is_some() {
                assert(self.frames@ == old(self).frames@.subrange(0, old(self).frames@.len() - 1));
                assert(forall|i: int| 0 <= i < self.frames@.len() ==> self.frames@[i] == old(self).frames@[i]);
            }
        }
        r
    }

    /// Registers `node` in the AST, with the span and token range of the
    /// innermost open frame, which is closed; returns the node with its id.
    fn add_node<T: AstNode + AstNodeParseHelper>(&mut self, node: T) -> (r: AstNodeRef<T>)
        requires
            old(self).wf(),
        ensures
            Self::steps(old(self), final(self)),
            final(self).pos() == old(self).pos(),
            final(self).scopes() == old(self).scopes(),
            final(self).node_meta().len() == old(self).node_meta().len() + 1,
            r.spec_node_id().spec_index() == old(self).node_meta().len(),
            r.spec_span() == node.spec_span(),
            *r == node.spec_with_node_id(r.spec_node_id()),
    {
        let meta = if let Some(frame) = self.pop_meta_frame() {
            self.last_frame = frame;
            AstNodeMeta {
                span: frame.span,
                first_tok: frame.token_id,
                last_tok: self.token_idx as u32,
            }
        } else {
            self.last_frame = ParserFrame { token_id: 0, span: SpanId::invalid() };
            AstNodeMeta {
                span: SpanId::invalid(),
                first_tok: 0,
                last_tok: 0,
            }
        };
        let ghost before = self.ast.meta@;
        let r = self.ast.add_node(node, meta);
        proof {
            reveal(Parser::keeps);
            assert(forall|i: int| 0 <= i < before.len() ==> self.ast.meta@[i] == before[i]);
        }
        r
    }

    /// The span of the current token.
    pub fn get_cur_span(&self) -> (r: SpanId)
        requires
            self.wf(),
            self.pos() < self.tokens().len(),
        ensures
            r == self.span_of_token(self.pos()),
    {
        self.token_store.metadata[self.token_idx].span_id
    }

    /// The span of the current token; at the end of the tokens, an error.
    fn cur_span(&self) -> (r: Result<SpanId, ParserErr>)
        requires
            self.wf(),
        ensures
            r is Ok <==> self.pos() < self.tokens().len(),
            r matches Err(e) ==> e.tok_idx == self.pos(),
    {
        if self.token_idx < self.token_store.tokens.len() {
            Ok(self.get_cur_span())
        } else {
            Err(self.gen_error(ParseErrorCode::NotEnoughTokens))
        }
    }

    /// Registers and returns the span from `begin` to the end of the last consumed token.
    pub fn get_span_to_current(&mut self, begin: SpanId) -> (r: SpanId)
        requires
            old(self).wf(),
            old(self).pos() >= 1,
        ensures
            Self::steps(old(self), final(self)),
            final(self).pos() == old(self).pos(),
            final(self).scopes() == old(self).scopes(),
            final(self).node_meta() == old(self).node_meta(),
            final(self).frames() == old(self).frames(),
            final(self).last_frame() == old(self).last_frame(),
            ({
                let end = old(self).span_of_token(old(self).pos() - 1);
                let n = old(self).spans().len();
                if begin.0 < n && end.0 < n && n < 0xFFFF_FFFF {
                    &&& r.0 == n
                    &&& final(self).spans() == old(self).spans().push(
                        combined_span(old(self).spans()[begin.0 as int], old(self).spans()[end.0 as int]))
                } else {
                    &&& r == SpanId::spec_invalid()
                    &&& final(self).spans() == old(self).spans()
                }
            }),
    {
        let end = self.token_store.metadata[self.token_idx - 1].span_id;
        let r = self.spans.combine_spans(begin, end);
        proof { reveal(Parser::keeps); }
        r
    }
}

} // verus!
