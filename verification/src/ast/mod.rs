//! The abstract syntax tree that the parser builds.
//!
//! Every node that carries a `node_id` is registered in the [`Ast`] when it is
//! created; its id is its position in the AST's node metadata.

use vstd::prelude::*;
use vstd::string::StringExecFns;
use std::sync::Arc;
use crate::common::{LiteralId, NameId, OpType, SpanId, decimal, push_decimal};
use crate::lexer::{Punctuation, TokenStore};
use crate::type_system;

pub mod visitor;
pub mod logger;
pub mod log;

pub use logger::{AstLogger, AstNodeLog};

verus! {

/// Shared handle to an AST node.
pub type AstNodeRef<T> = Arc<T>;

/// Position of a node in the AST's node metadata.
#[derive(Clone, Copy, PartialEq, Eq, Structural, Debug)]
pub struct NodeId(usize);

impl NodeId {
    /// The position that the id stands for.
    pub closed spec fn spec_index(self) -> usize {
        self.0
    }

    /// The id of the node at position `idx`.
    pub closed spec fn spec_from_index(idx: usize) -> NodeId {
        NodeId(idx)
    }

    pub fn index(self) -> (r: usize)
        ensures
            r == self.spec_index(),
    {
        self.0
    }

    /// The id of the node at position `idx`.
    pub fn from_index(idx: usize) -> (r: NodeId)
        ensures
            r.spec_index() == idx,
            r == NodeId::spec_from_index(idx),
    {
        NodeId(idx)
    }

    /// The id that stands for no node.
    pub fn invalid() -> (r: NodeId)
        ensures
            r.spec_index() == usize::MAX,
    {
        NodeId(usize::MAX)
    }

    /// The position, in decimal digits.
    pub fn to_string(&self) -> (r: String)
        ensures
            r@ == decimal(self.spec_index() as nat),
    {
        let mut s = String::new();
        push_decimal(&mut s, self.0 as u64);
        s
    }
}

impl Default for NodeId {
    fn default() -> (r: NodeId)
        ensures
            r.spec_index() == 0,
            r == NodeId::spec_from_index(0),
    {
        NodeId(0)
    }
}

/// A node of the AST: something with a span and an id.
pub trait AstNode {
    spec fn spec_span(&self) -> SpanId;

    spec fn spec_node_id(&self) -> NodeId;

    fn span(&self) -> (r: SpanId)
        ensures
            r == self.spec_span(),
    ;

    fn node_id(&self) -> (r: NodeId)
        ensures
            r == self.spec_node_id(),
    ;
}

/// What the AST needs from a node to register it.
pub trait AstNodeParseHelper: AstNode {
    /// The node with its id replaced by `node_id`, all else kept.
    spec fn spec_with_node_id(&self, node_id: NodeId) -> Self where Self: Sized;

    fn set_node_id(&mut self, node_id: NodeId)
        where Self: Sized
        ensures
            *final(self) == old(self).spec_with_node_id(node_id),
            final(self).spec_node_id() == node_id,
            final(self).spec_span() == old(self).spec_span(),
    ;
}

/// Where a node came from: its span and the tokens it was parsed from.
#[derive(Clone, Copy, PartialEq, Eq, Structural, Debug)]
pub struct AstNodeMeta {
    pub span:      SpanId,
    pub first_tok: u32,
    pub last_tok:  u32,
}

/// The name in an identifier, possibly disambiguated by a trait path.
pub enum IdenName {
    Name(NameId, SpanId),
    Disambig {
        span:       SpanId,
        trait_path: AstNodeRef<TraitPath>,
        name:       NameId,
        name_span:  SpanId,
    },
}

/// A name with optional generic arguments.
pub struct Identifier {
    pub span:     SpanId,
    pub name:     IdenName,
    pub gen_args: Option<AstNodeRef<GenericArgs>>,
}

/// How a simple path starts.
#[derive(Clone, Copy, PartialEq, Eq, Structural, Debug)]
pub enum SimplePathStartKind {
    Plain,
    Inferred,
    SelfPath,
    Super,
}

pub struct SimplePathStart {
    pub span: SpanId,
    pub kind: SimplePathStartKind,
}

/// A path made of names only, as used by visibilities and attributes.
pub struct SimplePath {
    pub span:    SpanId,
    pub node_id: NodeId,
    pub start:   Option<SimplePathStart>,
    pub names:   Vec<(NameId, SpanId)>,
}

impl AstNode for SimplePath {
    open spec fn spec_span(&self) -> SpanId {
        self.span
    }

    open spec fn spec_node_id(&self) -> NodeId {
        self.node_id
    }

    fn span(&self) -> (r: SpanId) {
        self.span
    }

    fn node_id(&self) -> (r: NodeId) {
        self.node_id
    }
}

impl AstNodeParseHelper for SimplePath {
    open spec fn spec_with_node_id(&self, node_id: NodeId) -> Self {
        SimplePath { node_id, ..*self }
    }

    fn set_node_id(&mut self, node_id: NodeId) {
        self.node_id = node_id;
    }
}

/// How an expression, type or trait path starts.
pub enum PathStart {
    Plain,
    SelfTy(SpanId),
    Inferred(SpanId),
    Typed(Type),
}

pub struct ExprPath {
    pub span:    SpanId,
    pub node_id: NodeId,
    pub start:   PathStart,
    pub idens:   Vec<Identifier>,
}

impl AstNode for ExprPath {
    open spec fn spec_span(&self) -> SpanId {
        self.span
    }

    open spec fn spec_node_id(&self) -> NodeId {
        self.node_id
    }

    fn span(&self) -> (r: SpanId) {
        self.span
    }

    fn node_id(&self) -> (r: NodeId) {
        self.node_id
    }
}

impl AstNodeParseHelper for ExprPath {
    open spec fn spec_with_node_id(&self, node_id: NodeId) -> Self {
        ExprPath { node_id, ..*self }
    }

    fn set_node_id(&mut self, node_id: NodeId) {
        self.node_id = node_id;
    }
}

pub struct TypePath {
    pub span:    SpanId,
    pub node_id: NodeId,
    pub start:   PathStart,
    pub idens:   Vec<Identifier>,
}

impl AstNode for TypePath {
    open spec fn spec_span(&self) -> SpanId {
        self.span
    }

    open spec fn spec_node_id(&self) -> NodeId {
        self.node_id
    }

    fn span(&self) -> (r: SpanId) {
        self.span
    }

    fn node_id(&self) -> (r: NodeId) {
        self.node_id
    }
}

impl AstNodeParseHelper for TypePath {
    open spec fn spec_with_node_id(&self, node_id: NodeId) -> Self {
        TypePath { node_id, ..*self }
    }

    fn set_node_id(&mut self, node_id: NodeId) {
        self.node_id = node_id;
    }
}

/// The function-like end of a trait path, such as `Fn(A) -> B`.
pub struct TraitPathFnEnd {
    pub span:      SpanId,
    pub name:      NameId,
    pub params:    Vec<(Vec<NameId>, Type)>,
    pub return_ty: Option<Type>,
}

pub struct TraitPath {
    pub span:    SpanId,
    pub node_id: NodeId,
    pub start:   PathStart,
    pub idens:   Vec<Identifier>,
    pub fn_end:  Option<TraitPathFnEnd>,
}

impl AstNode for TraitPath {
    open spec fn spec_span(&self) -> SpanId {
        self.span
    }

    open spec fn spec_node_id(&self) -> NodeId {
        self.node_id
    }

    fn span(&self) -> (r: SpanId) {
        self.span
    }

    fn node_id(&self) -> (r: NodeId) {
        self.node_id
    }
}

impl AstNodeParseHelper for TraitPath {
    open spec fn spec_with_node_id(&self, node_id: NodeId) -> Self {
        TraitPath { node_id, ..*self }
    }

    fn set_node_id(&mut self, node_id: NodeId) {
        self.node_id = node_id;
    }
}

pub struct Block {
    pub span:       SpanId,
    pub node_id:    NodeId,
    pub stmts:      Vec<Stmt>,
    pub final_expr: Option<AstNodeRef<ExprStmt>>,
}

impl AstNode for Block {
    open spec fn spec_span(&self) -> SpanId {
        self.span
    }

    open spec fn spec_node_id(&self) -> NodeId {
        self.node_id
    }

    fn span(&self) -> (r: SpanId) {
        self.span
    }

    fn node_id(&self) -> (r: NodeId) {
        self.node_id
    }
}

impl AstNodeParseHelper for Block {
    open spec fn spec_with_node_id(&self, node_id: NodeId) -> Self {
        Block { node_id, ..*self }
    }

    fn set_node_id(&mut self, node_id: NodeId) {
        self.node_id = node_id;
    }
}

pub enum Item {
    Module(AstNodeRef<ModuleItem>),
    Use(AstNodeRef<UseItem>),
    Function(AstNodeRef<Function>),
    TypeAlias(AstNodeRef<TypeAlias>),
    DistinctType(AstNodeRef<DistinctType>),
    OpaqueType(AstNodeRef<OpaqueType>),
    Struct(AstNodeRef<Struct>),
    Union(AstNodeRef<Union>),
    Enum(AstNodeRef<Enum>),
    Bitfield(AstNodeRef<Bitfield>),
    Const(AstNodeRef<Const>),
    Static(AstNodeRef<Static>),
    Trait(AstNodeRef<Trait>),
    Impl(AstNodeRef<Impl>),
    Extern(AstNodeRef<ExternBlock>),
    OpTrait(AstNodeRef<OpTrait>),
    OpUse(AstNodeRef<OpUse>),
    Precedence(AstNodeRef<Precedence>),
    PrecedenceUse(AstNodeRef<PrecedenceUse>),
}

impl AstNode for Item {
    open spec fn spec_span(&self) -> SpanId {
        match self {
            Item::Module(node) => node.spec_span(),
            Item::Use(node) => node.spec_span(),
            Item::Function(node) => node.spec_span(),
            Item::TypeAlias(node) => node.spec_span(),
            Item::DistinctType(node) => node.spec_span(),
            Item::OpaqueType(node) => node.spec_span(),
            Item::Struct(node) => node.spec_span(),
            Item::Union(node) => node.spec_span(),
            Item::Enum(node) => node.spec_span(),
            Item::Bitfield(node) => node.spec_span(),
            Item::Const(node) => node.spec_span(),
            Item::Static(node) => node.spec_span(),
            Item::Trait(node) => node.spec_span(),
            Item::Impl(node) => node.spec_span(),
            Item::Extern(node) => node.spec_span(),
            Item::OpTrait(node) => node.spec_span(),
            Item::OpUse(node) => node.spec_span(),
            Item::Precedence(node) => node.spec_span(),
            Item::PrecedenceUse(node) => node.spec_span(),
        }
    }

    open spec fn spec_node_id(&self) -> NodeId {
        match self {
            Item::Module(node) => node.spec_node_id(),
            Item::Use(node) => node.spec_node_id(),
            Item::Function(node) => node.spec_node_id(),
            Item::TypeAlias(node) => node.spec_node_id(),
            Item::DistinctType(node) => node.spec_node_id(),
            Item::OpaqueType(node) => node.spec_node_id(),
            Item::Struct(node) => node.spec_node_id(),
            Item::Union(node) => node.spec_node_id(),
            Item::Enum(node) => node.spec_node_id(),
            Item::Bitfield(node) => node.spec_node_id(),
            Item::Const(node) => node.spec_node_id(),
            Item::Static(node) => node.spec_node_id(),
            Item::Trait(node) => node.spec_node_id(),
            Item::Impl(node) => node.spec_node_id(),
            Item::Extern(node) => node.spec_node_id(),
            Item::OpTrait(node) => node.spec_node_id(),
            Item::OpUse(node) => node.spec_node_id(),
            Item::Precedence(node) => node.spec_node_id(),
            Item::PrecedenceUse(node) => node.spec_node_id(),
        }
    }

    fn span(&self) -> (r: SpanId) {
        match self {
            Item::Module(node) => node.span(),
            Item::Use(node) => node.span(),
            Item::Function(node) => node.span(),
            Item::TypeAlias(node) => node.span(),
            Item::DistinctType(node) => node.span(),
            Item::OpaqueType(node) => node.span(),
            Item::Struct(node) => node.span(),
            Item::Union(node) => node.span(),
            Item::Enum(node) => node.span(),
            Item::Bitfield(node) => node.span(),
            Item::Const(node) => node.span(),
            Item::Static(node) => node.span(),
            Item::Trait(node) => node.span(),
            Item::Impl(node) => node.span(),
            Item::Extern(node) => node.span(),
            Item::OpTrait(node) => node.span(),
            Item::OpUse(node) => node.span(),
            Item::Precedence(node) => node.span(),
            Item::PrecedenceUse(node) => node.span(),
        }
    }

    fn node_id(&self) -> (r: NodeId) {
        match self {
            Item::Module(node) => node.node_id(),
            Item::Use(node) => node.node_id(),
            Item::Function(node) => node.node_id(),
            Item::TypeAlias(node) => node.node_id(),
            Item::DistinctType(node) => node.node_id(),
            Item::OpaqueType(node) => node.node_id(),
            Item::Struct(node) => node.node_id(),
            Item::Union(node) => node.node_id(),
            Item::Enum(node) => node.node_id(),
            Item::Bitfield(node) => node.node_id(),
            Item::Const(node) => node.node_id(),
            Item::Static(node) => node.node_id(),
            Item::Trait(node) => node.node_id(),
            Item::Impl(node) => node.node_id(),
            Item::Extern(node) => node.node_id(),
            Item::OpTrait(node) => node.node_id(),
            Item::OpUse(node) => node.node_id(),
            Item::Precedence(node) => node.node_id(),
            Item::PrecedenceUse(node) => node.node_id(),
        }
    }
}

pub enum TraitItem {
    Function(AstNodeRef<TraitFunction>),
    Method(AstNodeRef<TraitMethod>),
    TypeAlias(AstNodeRef<TraitTypeAlias>),
    Const(AstNodeRef<TraitConst>),
    Property(AstNodeRef<TraitProperty>),
}

impl AstNode for TraitItem {
    open spec fn spec_span(&self) -> SpanId {
        match self {
            TraitItem::Function(node) => node.spec_span(),
            TraitItem::Method(node) => node.spec_span(),
            TraitItem::TypeAlias(node) => node.spec_span(),
            TraitItem::Const(node) => node.spec_span(),
            TraitItem::Property(node) => node.spec_span(),
        }
    }

    open spec fn spec_node_id(&self) -> NodeId {
        match self {
            TraitItem::Function(node) => node.spec_node_id(),
            TraitItem::Method(node) => node.spec_node_id(),
            TraitItem::TypeAlias(node) => node.spec_node_id(),
            TraitItem::Const(node) => node.spec_node_id(),
            TraitItem::Property(node) => node.spec_node_id(),
        }
    }

    fn span(&self) -> (r: SpanId) {
        match self {
            TraitItem::Function(node) => node.span(),
            TraitItem::Method(node) => node.span(),
            TraitItem::TypeAlias(node) => node.span(),
            TraitItem::Const(node) => node.span(),
            TraitItem::Property(node) => node.span(),
        }
    }

    fn node_id(&self) -> (r: NodeId) {
        match self {
            TraitItem::Function(node) => node.node_id(),
            TraitItem::Method(node) => node.node_id(),
            TraitItem::TypeAlias(node) => node.node_id(),
            TraitItem::Const(node) => node.node_id(),
            TraitItem::Property(node) => node.node_id(),
        }
    }
}

/// An item inside an `impl` block.
pub enum AssocItem {
    Function(AstNodeRef<Function>),
    Method(AstNodeRef<Method>),
    TypeAlias(AstNodeRef<TypeAlias>),
    Const(AstNodeRef<Const>),
    Static(AstNodeRef<Static>),
    Property(AstNodeRef<Property>),
}

impl AstNode for AssocItem {
    open spec fn spec_span(&self) -> SpanId {
        match self {
            AssocItem::Function(node) => node.spec_span(),
            AssocItem::Method(node) => node.spec_span(),
            AssocItem::TypeAlias(node) => node.spec_span(),
            AssocItem::Const(node) => node.spec_span(),
            AssocItem::Static(node) => node.spec_span(),
            AssocItem::Property(node) => node.spec_span(),
        }
    }

    open spec fn spec_node_id(&self) -> NodeId {
        match self {
            AssocItem::Function(node) => node.spec_node_id(),
            AssocItem::Method(node) => node.spec_node_id(),
            AssocItem::TypeAlias(node) => node.spec_node_id(),
            AssocItem::Const(node) => node.spec_node_id(),
            AssocItem::Static(node) => node.spec_node_id(),
            AssocItem::Property(node) => node.spec_node_id(),
        }
    }

    fn span(&self) -> (r: SpanId) {
        match self {
            AssocItem::Function(node) => node.span(),
            AssocItem::Method(node) => node.span(),
            AssocItem::TypeAlias(node) => node.span(),
            AssocItem::Const(node) => node.span(),
            AssocItem::Static(node) => node.span(),
            AssocItem::Property(node) => node.span(),
        }
    }

    fn node_id(&self) -> (r: NodeId) {
        match self {
            AssocItem::Function(node) => node.node_id(),
            AssocItem::Method(node) => node.node_id(),
            AssocItem::TypeAlias(node) => node.node_id(),
            AssocItem::Const(node) => node.node_id(),
            AssocItem::Static(node) => node.node_id(),
            AssocItem::Property(node) => node.node_id(),
        }
    }
}

pub enum ExternItem {
    Function(AstNodeRef<Function>),
    Static(AstNodeRef<Static>),
}

impl AstNode for ExternItem {
    open spec fn spec_span(&self) -> SpanId {
        match self {
            ExternItem::Function(node) => node.spec_span(),
            ExternItem::Static(node) => node.spec_span(),
        }
    }

    open spec fn spec_node_id(&self) -> NodeId {
        match self {
            ExternItem::Function(node) => node.spec_node_id(),
            ExternItem::Static(node) => node.spec_node_id(),
        }
    }

    fn span(&self) -> (r: SpanId) {
        match self {
            ExternItem::Function(node) => node.span(),
            ExternItem::Static(node) => node.span(),
        }
    }

    fn node_id(&self) -> (r: NodeId) {
        match self {
            ExternItem::Function(node) => node.node_id(),
            ExternItem::Static(node) => node.node_id(),
        }
    }
}

pub struct ModuleItem {
    pub span:    SpanId,
    pub node_id: NodeId,
    pub attrs:   Vec<AstNodeRef<Attribute>>,
    pub vis:     Option<AstNodeRef<Visibility>>,
    pub name:    NameId,
    pub block:   Option<AstNodeRef<Block>>,
}

impl AstNode for ModuleItem {
    open spec fn spec_span(&self) -> SpanId {
        self.span
    }

    open spec fn spec_node_id(&self) -> NodeId {
        self.node_id
    }

    fn span(&self) -> (r: SpanId) {
        self.span
    }

    fn node_id(&self) -> (r: NodeId) {
        self.node_id
    }
}

impl AstNodeParseHelper for ModuleItem {
    open spec fn spec_with_node_id(&self, node_id: NodeId) -> Self {
        ModuleItem { node_id, ..*self }
    }

    fn set_node_id(&mut self, node_id: NodeId) {
        self.node_id = node_id;
    }
}

pub struct UseItem {
    pub span:    SpanId,
    pub node_id: NodeId,
    pub attrs:   Vec<AstNodeRef<Attribute>>,
    pub vis:     Option<AstNodeRef<Visibility>>,
    pub group:   Option<NameId>,
    pub package: Option<NameId>,
    pub library: Option<NameId>,
    pub path:    AstNodeRef<UsePath>,
}

impl AstNode for UseItem {
    open spec fn spec_span(&self) -> SpanId {
        self.span
    }

    open spec fn spec_node_id(&self) -> NodeId {
        self.node_id
    }

    fn span(&self) -> (r: SpanId) {
        self.span
    }

    fn node_id(&self) -> (r: NodeId) {
        self.node_id
    }
}

impl AstNodeParseHelper for UseItem {
    open spec fn spec_with_node_id(&self, node_id: NodeId) -> Self {
        UseItem { node_id, ..*self }
    }

    fn set_node_id(&mut self, node_id: NodeId) {
        self.node_id = node_id;
    }
}

pub enum UsePath {
    SelfPath {
        span:    SpanId,
        node_id: NodeId,
        alias:   Option<NameId>,
    },
    SubPaths {
        span:      SpanId,
        node_id:   NodeId,
        segments:  Vec<NameId>,
        sub_paths: Vec<AstNodeRef<UsePath>>,
    },
    Alias {
        span:     SpanId,
        node_id:  NodeId,
        segments: Vec<NameId>,
        alias:    Option<NameId>,
    },
    Wildcard {
        span:     SpanId,
        node_id:  NodeId,
        segments: Vec<NameId>,
    },
}

impl AstNode for UsePath {
    open spec fn spec_span(&self) -> SpanId {
        match self {
            UsePath::SelfPath { span, .. } => *span,
            UsePath::SubPaths { span, .. } => *span,
            UsePath::Alias { span, .. } => *span,
            UsePath::Wildcard { span, .. } => *span,
        }
    }

    open spec fn spec_node_id(&self) -> NodeId {
        match self {
            UsePath::SelfPath { node_id, .. } => *node_id,
            UsePath::SubPaths { node_id, .. } => *node_id,
            UsePath::Alias { node_id, .. } => *node_id,
            UsePath::Wildcard { node_id, .. } => *node_id,
        }
    }

    fn span(&self) -> (r: SpanId) {
        match self {
            UsePath::SelfPath { span, .. } => *span,
            UsePath::SubPaths { span, .. } => *span,
            UsePath::Alias { span, .. } => *span,
            UsePath::Wildcard { span, .. } => *span,
        }
    }

    fn node_id(&self) -> (r: NodeId) {
        match self {
            UsePath::SelfPath { node_id, .. } => *node_id,
            UsePath::SubPaths { node_id, .. } => *node_id,
            UsePath::Alias { node_id, .. } => *node_id,
            UsePath::Wildcard { node_id, .. } => *node_id,
        }
    }
}

impl AstNodeParseHelper for UsePath {
    open spec fn spec_with_node_id(&self, node_id: NodeId) -> Self {
        match self {
            UsePath::SelfPath { span, node_id: _, alias } => UsePath::SelfPath { span: *span, node_id, alias: *alias },
            UsePath::SubPaths { span, node_id: _, segments, sub_paths } => UsePath::SubPaths { span: *span, node_id, segments: *segments, sub_paths: *sub_paths },
            UsePath::Alias { span, node_id: _, segments, alias } => UsePath::Alias { span: *span, node_id, segments: *segments, alias: *alias },
            UsePath::Wildcard { span, node_id: _, segments } => UsePath::Wildcard { span: *span, node_id, segments: *segments },
        }
    }

    fn set_node_id(&mut self, node_id: NodeId) {
        match self {
            UsePath::SelfPath { node_id: id, .. } => *id = node_id,
            UsePath::SubPaths { node_id: id, .. } => *id = node_id,
            UsePath::Alias { node_id: id, .. } => *id = node_id,
            UsePath::Wildcard { node_id: id, .. } => *id = node_id,
        }
    }
}

pub struct Function {
    pub span:         SpanId,
    pub node_id:      NodeId,
    pub attrs:        Vec<AstNodeRef<Attribute>>,
    pub vis:          Option<AstNodeRef<Visibility>>,
    pub is_const:     bool,
    pub is_unsafe:    bool,
    pub abi:          Option<LiteralId>,
    pub name:         NameId,
    pub generics:     Option<AstNodeRef<GenericParams>>,
    pub params:       Vec<FnParam>,
    pub returns:      Option<FnReturn>,
    pub where_clause: Option<AstNodeRef<WhereClause>>,
    pub contracts:    Vec<AstNodeRef<Contract>>,
    pub body:         Option<AstNodeRef<Block>>,
}

impl AstNode for Function {
    open spec fn spec_span(&self) -> SpanId {
        self.span
    }

    open spec fn spec_node_id(&self) -> NodeId {
        self.node_id
    }

    fn span(&self) -> (r: SpanId) {
        self.span
    }

    fn node_id(&self) -> (r: NodeId) {
        self.node_id
    }
}

impl AstNodeParseHelper for Function {
    open spec fn spec_with_node_id(&self, node_id: NodeId) -> Self {
        Function { node_id, ..*self }
    }

    fn set_node_id(&mut self, node_id: NodeId) {
        self.node_id = node_id;
    }
}

/// A function with a receiver inside an `impl` block.
pub struct Method {
    pub span:         SpanId,
    pub node_id:      NodeId,
    pub attrs:        Vec<AstNodeRef<Attribute>>,
    pub vis:          Option<AstNodeRef<Visibility>>,
    pub is_const:     bool,
    pub is_unsafe:    bool,
    pub name:         NameId,
    pub generics:     Option<AstNodeRef<GenericParams>>,
    pub receiver:     FnReceiver,
    pub params:       Vec<FnParam>,
    pub returns:      Option<FnReturn>,
    pub where_clause: Option<AstNodeRef<WhereClause>>,
    pub contracts:    Vec<AstNodeRef<Contract>>,
    pub body:         AstNodeRef<Block>,
}

impl AstNode for Method {
    open spec fn spec_span(&self) -> SpanId {
        self.span
    }

    open spec fn spec_node_id(&self) -> NodeId {
        self.node_id
    }

    fn span(&self) -> (r: SpanId) {
        self.span
    }

    fn node_id(&self) -> (r: NodeId) {
        self.node_id
    }
}

impl AstNodeParseHelper for Method {
    open spec fn spec_with_node_id(&self, node_id: NodeId) -> Self {
        Method { node_id, ..*self }
    }

    fn set_node_id(&mut self, node_id: NodeId) {
        self.node_id = node_id;
    }
}

pub enum FnReceiver {
    SelfReceiver {
        span:   SpanId,
        is_ref: bool,
        is_mut: bool,
    },
    SelfTyped {
        span:   SpanId,
        is_mut: bool,
        ty:     Type,
    },
}

pub struct FnParam {
    pub span:        SpanId,
    pub names:       Vec<FnParamName>,
    pub ty:          Type,
    pub is_variadic: bool,
    pub def_val:     Option<Expr>,
}

pub struct FnParamName {
    pub span:    SpanId,
    pub attrs:   Vec<AstNodeRef<Attribute>>,
    pub label:   Option<NameId>,
    pub pattern: Pattern,
}

pub enum FnReturn {
    Type {
        span: SpanId,
        ty:   Type,
    },
    Named {
        span: SpanId,
        vars: Vec<(Vec<(NameId, SpanId)>, Type)>,
    },
}

pub struct TypeAlias {
    pub span:     SpanId,
    pub node_id:  NodeId,
    pub attrs:    Vec<AstNodeRef<Attribute>>,
    pub vis:      Option<AstNodeRef<Visibility>>,
    pub name:     NameId,
    pub generics: Option<AstNodeRef<GenericParams>>,
    pub ty:       Type,
}

impl AstNode for TypeAlias {
    open spec fn spec_span(&self) -> SpanId {
        self.span
    }

    open spec fn spec_node_id(&self) -> NodeId {
        self.node_id
    }

    fn span(&self) -> (r: SpanId) {
        self.span
    }

    fn node_id(&self) -> (r: NodeId) {
        self.node_id
    }
}

impl AstNodeParseHelper for TypeAlias {
    open spec fn spec_with_node_id(&self, node_id: NodeId) -> Self {
        TypeAlias { node_id, ..*self }
    }

    fn set_node_id(&mut self, node_id: NodeId) {
        self.node_id = node_id;
    }
}

pub struct DistinctType {
    pub span:     SpanId,
    pub node_id:  NodeId,
    pub attrs:    Vec<AstNodeRef<Attribute>>,
    pub vis:      Option<AstNodeRef<Visibility>>,
    pub name:     NameId,
    pub generics: Option<AstNodeRef<GenericParams>>,
    pub ty:       Type,
}

impl AstNode for DistinctType {
    open spec fn spec_span(&self) -> SpanId {
        self.span
    }

    open spec fn spec_node_id(&self) -> NodeId {
        self.node_id
    }

    fn span(&self) -> (r: SpanId) {
        self.span
    }

    fn node_id(&self) -> (r: NodeId) {
        self.node_id
    }
}

impl AstNodeParseHelper for DistinctType {
    open spec fn spec_with_node_id(&self, node_id: NodeId) -> Self {
        DistinctType { node_id, ..*self }
    }

    fn set_node_id(&mut self, node_id: NodeId) {
        self.node_id = node_id;
    }
}

pub struct OpaqueType {
    pub span:    SpanId,
    pub node_id: NodeId,
    pub attrs:   Vec<AstNodeRef<Attribute>>,
    pub vis:     Option<AstNodeRef<Visibility>>,
    pub name:    NameId,
    pub size:    Option<Expr>,
}

impl AstNode for OpaqueType {
    open spec fn spec_span(&self) -> SpanId {
        self.span
    }

    open spec fn spec_node_id(&self) -> NodeId {
        self.node_id
    }

    fn span(&self) -> (r: SpanId) {
        self.span
    }

    fn node_id(&self) -> (r: NodeId) {
        self.node_id
    }
}

impl AstNodeParseHelper for OpaqueType {
    open spec fn spec_with_node_id(&self, node_id: NodeId) -> Self {
        OpaqueType { node_id, ..*self }
    }

    fn set_node_id(&mut self, node_id: NodeId) {
        self.node_id = node_id;
    }
}

pub enum Struct {
    Regular {
        span:         SpanId,
        node_id:      NodeId,
        attrs:        Vec<AstNodeRef<Attribute>>,
        vis:          Option<AstNodeRef<Visibility>>,
        is_mut:       bool,
        is_record:    bool,
        name:         NameId,
        generics:     Option<AstNodeRef<GenericParams>>,
        where_clause: Option<AstNodeRef<WhereClause>>,
        fields:       Vec<RegStructField>,
    },
    Tuple {
        span:         SpanId,
        node_id:      NodeId,
        attrs:        Vec<AstNodeRef<Attribute>>,
        vis:          Option<AstNodeRef<Visibility>>,
        is_mut:       bool,
        is_record:    bool,
        name:         NameId,
        generics:     Option<AstNodeRef<GenericParams>>,
        where_clause: Option<AstNodeRef<WhereClause>>,
        fields:       Vec<TupleStructField>,
    },
    Unit {
        span:    SpanId,
        node_id: NodeId,
        attrs:   Vec<AstNodeRef<Attribute>>,
        vis:     Option<AstNodeRef<Visibility>>,
        name:    NameId,
    },
}

impl AstNode for Struct {
    open spec fn spec_span(&self) -> SpanId {
        match self {
            Struct::Regular { span, .. } => *span,
            Struct::Tuple { span, .. } => *span,
            Struct::Unit { span, .. } => *span,
        }
    }

    open spec fn spec_node_id(&self) -> NodeId {
        match self {
            Struct::Regular { node_id, .. } => *node_id,
            Struct::Tuple { node_id, .. } => *node_id,
            Struct::Unit { node_id, .. } => *node_id,
        }
    }

    fn span(&self) -> (r: SpanId) {
        match self {
            Struct::Regular { span, .. } => *span,
            Struct::Tuple { span, .. } => *span,
            Struct::Unit { span, .. } => *span,
        }
    }

    fn node_id(&self) -> (r: NodeId) {
        match self {
            Struct::Regular { node_id, .. } => *node_id,
            Struct::Tuple { node_id, .. } => *node_id,
            Struct::Unit { node_id, .. } => *node_id,
        }
    }
}

impl AstNodeParseHelper for Struct {
    open spec fn spec_with_node_id(&self, node_id: NodeId) -> Self {
        match self {
            Struct::Regular { span, node_id: _, attrs, vis, is_mut, is_record, name, generics, where_clause, fields } => Struct::Regular { span: *span, node_id, attrs: *attrs, vis: *vis, is_mut: *is_mut, is_record: *is_record, name: *name, generics: *generics, where_clause: *where_clause, fields: *fields },
            Struct::Tuple { span, node_id: _, attrs, vis, is_mut, is_record, name, generics, where_clause, fields } => Struct::Tuple { span: *span, node_id, attrs: *attrs, vis: *vis, is_mut: *is_mut, is_record: *is_record, name: *name, generics: *generics, where_clause: *where_clause, fields: *fields },
            Struct::Unit { span, node_id: _, attrs, vis, name } => Struct::Unit { span: *span, node_id, attrs: *attrs, vis: *vis, name: *name },
        }
    }

    fn set_node_id(&mut self, node_id: NodeId) {
        match self {
            Struct::Regular { node_id: id, .. } => *id = node_id,
            Struct::Tuple { node_id: id, .. } => *id = node_id,
            Struct::Unit { node_id: id, .. } => *id = node_id,
        }
    }
}

pub enum RegStructField {
    Field {
        span:   SpanId,
        attrs:  Vec<AstNodeRef<Attribute>>,
        vis:    Option<AstNodeRef<Visibility>>,
        is_mut: bool,
        names:  Vec<NameId>,
        ty:     Type,
        def:    Option<Expr>,
    },
    Use {
        span:   SpanId,
        attrs:  Vec<AstNodeRef<Attribute>>,
        vis:    Option<AstNodeRef<Visibility>>,
        is_mut: bool,
        path:   AstNodeRef<TypePath>,
    },
}

pub struct TupleStructField {
    pub span:  SpanId,
    pub attrs: Vec<AstNodeRef<Attribute>>,
    pub vis:   Option<AstNodeRef<Visibility>>,
    pub ty:    Type,
    pub def:   Option<Expr>,
}

pub struct Union {
    pub span:         SpanId,
    pub node_id:      NodeId,
    pub attrs:        Vec<AstNodeRef<Attribute>>,
    pub vis:          Option<AstNodeRef<Visibility>>,
    pub is_mut:       bool,
    pub name:         NameId,
    pub generics:     Option<AstNodeRef<GenericParams>>,
    pub where_clause: Option<AstNodeRef<WhereClause>>,
    pub fields:       Vec<UnionField>,
}

impl AstNode for Union {
    open spec fn spec_span(&self) -> SpanId {
        self.span
    }

    open spec fn spec_node_id(&self) -> NodeId {
        self.node_id
    }

    fn span(&self) -> (r: SpanId) {
        self.span
    }

    fn node_id(&self) -> (r: NodeId) {
        self.node_id
    }
}

impl AstNodeParseHelper for Union {
    open spec fn spec_with_node_id(&self, node_id: NodeId) -> Self {
        Union { node_id, ..*self }
    }

    fn set_node_id(&mut self, node_id: NodeId) {
        self.node_id = node_id;
    }
}

pub struct UnionField {
    pub span:   SpanId,
    pub attrs:  Vec<AstNodeRef<Attribute>>,
    pub vis:    Option<AstNodeRef<Visibility>>,
    pub is_mut: bool,
    pub name:   NameId,
    pub ty:     Type,
}

pub enum Enum {
    Adt {
        span:         SpanId,
        node_id:      NodeId,
        attrs:        Vec<AstNodeRef<Attribute>>,
        vis:          Option<AstNodeRef<Visibility>>,
        is_mut:       bool,
        is_record:    bool,
        name:         NameId,
        generics:     Option<AstNodeRef<GenericParams>>,
        where_clause: Option<AstNodeRef<WhereClause>>,
        variants:     Vec<EnumVariant>,
    },
    Flag {
        span:     SpanId,
        node_id:  NodeId,
        attrs:    Vec<AstNodeRef<Attribute>>,
        vis:      Option<AstNodeRef<Visibility>>,
        name:     NameId,
        variants: Vec<FlagEnumVariant>,
    },
}

impl AstNode for Enum {
    open spec fn spec_span(&self) -> SpanId {
        match self {
            Enum::Adt { span, .. } => *span,
            Enum::Flag { span, .. } => *span,
        }
    }

    open spec fn spec_node_id(&self) -> NodeId {
        match self {
            Enum::Adt { node_id, .. } => *node_id,
            Enum::Flag { node_id, .. } => *node_id,
        }
    }

    fn span(&self) -> (r: SpanId) {
        match self {
            Enum::Adt { span, .. } => *span,
            Enum::Flag { span, .. } => *span,
        }
    }

    fn node_id(&self) -> (r: NodeId) {
        match self {
            Enum::Adt { node_id, .. } => *node_id,
            Enum::Flag { node_id, .. } => *node_id,
        }
    }
}

impl AstNodeParseHelper for Enum {
    open spec fn spec_with_node_id(&self, node_id: NodeId) -> Self {
        match self {
            Enum::Adt { span, node_id: _, attrs, vis, is_mut, is_record, name, generics, where_clause, variants } => Enum::Adt { span: *span, node_id, attrs: *attrs, vis: *vis, is_mut: *is_mut, is_record: *is_record, name: *name, generics: *generics, where_clause: *where_clause, variants: *variants },
            Enum::Flag { span, node_id: _, attrs, vis, name, variants } => Enum::Flag { span: *span, node_id, attrs: *attrs, vis: *vis, name: *name, variants: *variants },
        }
    }

    fn set_node_id(&mut self, node_id: NodeId) {
        match self {
            Enum::Adt { node_id: id, .. } => *id = node_id,
            Enum::Flag { node_id: id, .. } => *id = node_id,
        }
    }
}

pub enum EnumVariant {
    Struct {
        span:         SpanId,
        attrs:        Vec<AstNodeRef<Attribute>>,
        is_mut:       bool,
        name:         NameId,
        fields:       Vec<RegStructField>,
        discriminant: Option<Expr>,
    },
    Tuple {
        span:         SpanId,
        attrs:        Vec<AstNodeRef<Attribute>>,
        is_mut:       bool,
        name:         NameId,
        fields:       Vec<TupleStructField>,
        discriminant: Option<Expr>,
    },
    Fieldless {
        span:         SpanId,
        attrs:        Vec<AstNodeRef<Attribute>>,
        name:         NameId,
        discriminant: Option<Expr>,
    },
}

pub struct FlagEnumVariant {
    pub span:         SpanId,
    pub attrs:        Vec<AstNodeRef<Attribute>>,
    pub name:         NameId,
    pub discriminant: Option<Expr>,
}

pub struct Bitfield {
    pub span:         SpanId,
    pub node_id:      NodeId,
    pub attrs:        Vec<AstNodeRef<Attribute>>,
    pub vis:          Option<AstNodeRef<Visibility>>,
    pub is_mut:       bool,
    pub is_record:    bool,
    pub name:         NameId,
    pub generics:     Option<AstNodeRef<GenericParams>>,
    pub bit_count:    Option<Expr>,
    pub where_clause: Option<AstNodeRef<WhereClause>>,
    pub fields:       Vec<BitfieldField>,
}

impl AstNode for Bitfield {
    open spec fn spec_span(&self) -> SpanId {
        self.span
    }

    open spec fn spec_node_id(&self) -> NodeId {
        self.node_id
    }

    fn span(&self) -> (r: SpanId) {
        self.span
    }

    fn node_id(&self) -> (r: NodeId) {
        self.node_id
    }
}

impl AstNodeParseHelper for Bitfield {
    open spec fn spec_with_node_id(&self, node_id: NodeId) -> Self {
        Bitfield { node_id, ..*self }
    }

    fn set_node_id(&mut self, node_id: NodeId) {
        self.node_id = node_id;
    }
}

pub enum BitfieldField {
    Field {
        span:   SpanId,
        attrs:  Vec<AstNodeRef<Attribute>>,
        vis:    Option<AstNodeRef<Visibility>>,
        is_mut: bool,
        names:  Vec<NameId>,
        ty:     Type,
        bits:   Option<Expr>,
        def:    Option<Expr>,
    },
    Use {
        span:   SpanId,
        attrs:  Vec<AstNodeRef<Attribute>>,
        vis:    Option<AstNodeRef<Visibility>>,
        is_mut: bool,
        path:   AstNodeRef<TypePath>,
        bits:   Option<Expr>,
    },
}

pub struct Const {
    pub span:    SpanId,
    pub node_id: NodeId,
    pub attrs:   Vec<AstNodeRef<Attribute>>,
    pub vis:     Option<AstNodeRef<Visibility>>,
    pub name:    NameId,
    pub ty:      Option<Type>,
    pub val:     Expr,
}

impl AstNode for Const {
    open spec fn spec_span(&self) -> SpanId {
        self.span
    }

    open spec fn spec_node_id(&self) -> NodeId {
        self.node_id
    }

    fn span(&self) -> (r: SpanId) {
        self.span
    }

    fn node_id(&self) -> (r: NodeId) {
        self.node_id
    }
}

impl AstNodeParseHelper for Const {
    open spec fn spec_with_node_id(&self, node_id: NodeId) -> Self {
        Const { node_id, ..*self }
    }

    fn set_node_id(&mut self, node_id: NodeId) {
        self.node_id = node_id;
    }
}

pub enum Static {
    Static {
        span:    SpanId,
        node_id: NodeId,
        attrs:   Vec<AstNodeRef<Attribute>>,
        vis:     Option<AstNodeRef<Visibility>>,
        name:    NameId,
        ty:      Option<Type>,
        val:     Expr,
    },
    Tls {
        span:    SpanId,
        node_id: NodeId,
        attrs:   Vec<AstNodeRef<Attribute>>,
        vis:     Option<AstNodeRef<Visibility>>,
        is_mut:  bool,
        name:    NameId,
        ty:      Option<Type>,
        val:     Expr,
    },
    Extern {
        span:    SpanId,
        node_id: NodeId,
        attrs:   Vec<AstNodeRef<Attribute>>,
        vis:     Option<AstNodeRef<Visibility>>,
        abi:     LiteralId,
        is_mut:  bool,
        name:    NameId,
        ty:      Type,
    },
}

impl AstNode for Static {
    open spec fn spec_span(&self) -> SpanId {
        match self {
            Static::Static { span, .. } => *span,
            Static::Tls { span, .. } => *span,
            Static::Extern { span, .. } => *span,
        }
    }

    open spec fn spec_node_id(&self) -> NodeId {
        match self {
            Static::Static { node_id, .. } => *node_id,
            Static::Tls { node_id, .. } => *node_id,
            Static::Extern { node_id, .. } => *node_id,
        }
    }

    fn span(&self) -> (r: SpanId) {
        match self {
            Static::Static { span, .. } => *span,
            Static::Tls { span, .. } => *span,
            Static::Extern { span, .. } => *span,
        }
    }

    fn node_id(&self) -> (r: NodeId) {
        match self {
            Static::Static { node_id, .. } => *node_id,
            Static::Tls { node_id, .. } => *node_id,
            Static::Extern { node_id, .. } => *node_id,
        }
    }
}

impl AstNodeParseHelper for Static {
    open spec fn spec_with_node_id(&self, node_id: NodeId) -> Self {
        match self {
            Static::Static { span, node_id: _, attrs, vis, name, ty, val } => Static::Static { span: *span, node_id, attrs: *attrs, vis: *vis, name: *name, ty: *ty, val: *val },
            Static::Tls { span, node_id: _, attrs, vis, is_mut, name, ty, val } => Static::Tls { span: *span, node_id, attrs: *attrs, vis: *vis, is_mut: *is_mut, name: *name, ty: *ty, val: *val },
            Static::Extern { span, node_id: _, attrs, vis, abi, is_mut, name, ty } => Static::Extern { span: *span, node_id, attrs: *attrs, vis: *vis, abi: *abi, is_mut: *is_mut, name: *name, ty: *ty },
        }
    }

    fn set_node_id(&mut self, node_id: NodeId) {
        match self {
            Static::Static { node_id: id, .. } => *id = node_id,
            Static::Tls { node_id: id, .. } => *id = node_id,
            Static::Extern { node_id: id, .. } => *id = node_id,
        }
    }
}

pub struct Property {
    pub span:      SpanId,
    pub node_id:   NodeId,
    pub attrs:     Vec<AstNodeRef<Attribute>>,
    pub vis:       Option<AstNodeRef<Visibility>>,
    pub is_unsafe: bool,
    pub name:      NameId,
    pub ty:        Option<Type>,
    pub body:      PropertyBody,
}

impl AstNode for Property {
    open spec fn spec_span(&self) -> SpanId {
        self.span
    }

    open spec fn spec_node_id(&self) -> NodeId {
        self.node_id
    }

    fn span(&self) -> (r: SpanId) {
        self.span
    }

    fn node_id(&self) -> (r: NodeId) {
        self.node_id
    }
}

impl AstNodeParseHelper for Property {
    open spec fn spec_with_node_id(&self, node_id: NodeId) -> Self {
        Property { node_id, ..*self }
    }

    fn set_node_id(&mut self, node_id: NodeId) {
        self.node_id = node_id;
    }
}

pub enum PropertyBody {
    Assoc {
        get:     Option<(SpanId, Expr)>,
        ref_get: Option<(SpanId, Expr)>,
        mut_get: Option<(SpanId, Expr)>,
        set:     Option<(SpanId, Expr)>,
    },
    Trait {
        has_get:     Option<SpanId>,
        has_ref_get: Option<SpanId>,
        has_mut_get: Option<SpanId>,
        has_set:     Option<SpanId>,
    },
}

pub struct Trait {
    pub span:         SpanId,
    pub node_id:      NodeId,
    pub attrs:        Vec<AstNodeRef<Attribute>>,
    pub vis:          Option<AstNodeRef<Visibility>>,
    pub is_unsafe:    bool,
    pub is_sealed:    bool,
    pub name:         NameId,
    pub generics:     Option<AstNodeRef<GenericParams>>,
    pub bounds:       Option<AstNodeRef<TraitBounds>>,
    pub where_clause: Option<AstNodeRef<WhereClause>>,
    pub assoc_items:  Vec<TraitItem>,
}

impl AstNode for Trait {
    open spec fn spec_span(&self) -> SpanId {
        self.span
    }

    open spec fn spec_node_id(&self) -> NodeId {
        self.node_id
    }

    fn span(&self) -> (r: SpanId) {
        self.span
    }

    fn node_id(&self) -> (r: NodeId) {
        self.node_id
    }
}

impl AstNodeParseHelper for Trait {
    open spec fn spec_with_node_id(&self, node_id: NodeId) -> Self {
        Trait { node_id, ..*self }
    }

    fn set_node_id(&mut self, node_id: NodeId) {
        self.node_id = node_id;
    }
}

pub struct TraitFunction {
    pub span:         SpanId,
    pub node_id:      NodeId,
    pub attrs:        Vec<AstNodeRef<Attribute>>,
    pub is_const:     bool,
    pub is_unsafe:    bool,
    pub name:         NameId,
    pub generics:     Option<AstNodeRef<GenericParams>>,
    pub params:       Vec<FnParam>,
    pub returns:      Option<FnReturn>,
    pub where_clause: Option<AstNodeRef<WhereClause>>,
    pub contracts:    Vec<AstNodeRef<Contract>>,
    pub body:         Option<AstNodeRef<Block>>,
}

impl AstNode for TraitFunction {
    open spec fn spec_span(&self) -> SpanId {
        self.span
    }

    open spec fn spec_node_id(&self) -> NodeId {
        self.node_id
    }

    fn span(&self) -> (r: SpanId) {
        self.span
    }

    fn node_id(&self) -> (r: NodeId) {
        self.node_id
    }
}

impl AstNodeParseHelper for TraitFunction {
    open spec fn spec_with_node_id(&self, node_id: NodeId) -> Self {
        TraitFunction { node_id, ..*self }
    }

    fn set_node_id(&mut self, node_id: NodeId) {
        self.node_id = node_id;
    }
}

pub struct TraitMethod {
    pub span:         SpanId,
    pub node_id:      NodeId,
    pub attrs:        Vec<AstNodeRef<Attribute>>,
    pub is_const:     bool,
    pub is_unsafe:    bool,
    pub name:         NameId,
    pub generics:     Option<AstNodeRef<GenericParams>>,
    pub receiver:     FnReceiver,
    pub params:       Vec<FnParam>,
    pub returns:      Option<FnReturn>,
    pub where_clause: Option<AstNodeRef<WhereClause>>,
    pub contracts:    Vec<AstNodeRef<Contract>>,
    pub body:         Option<AstNodeRef<Block>>,
}

impl AstNode for TraitMethod {
    open spec fn spec_span(&self) -> SpanId {
        self.span
    }

    open spec fn spec_node_id(&self) -> NodeId {
        self.node_id
    }

    fn span(&self) -> (r: SpanId) {
        self.span
    }

    fn node_id(&self) -> (r: NodeId) {
        self.node_id
    }
}

impl AstNodeParseHelper for TraitMethod {
    open spec fn spec_with_node_id(&self, node_id: NodeId) -> Self {
        TraitMethod { node_id, ..*self }
    }

    fn set_node_id(&mut self, node_id: NodeId) {
        self.node_id = node_id;
    }
}

pub struct TraitTypeAlias {
    pub span:         SpanId,
    pub node_id:      NodeId,
    pub attrs:        Vec<AstNodeRef<Attribute>>,
    pub name:         NameId,
    pub generics:     Option<AstNodeRef<GenericParams>>,
    pub bounds:       Vec<GenericTypeBound>,
    pub where_clause: Option<AstNodeRef<WhereClause>>,
    pub def:          Option<Type>,
}

impl AstNode for TraitTypeAlias {
    open spec fn spec_span(&self) -> SpanId {
        self.span
    }

    open spec fn spec_node_id(&self) -> NodeId {
        self.node_id
    }

    fn span(&self) -> (r: SpanId) {
        self.span
    }

    fn node_id(&self) -> (r: NodeId) {
        self.node_id
    }
}

impl AstNodeParseHelper for TraitTypeAlias {
    open spec fn spec_with_node_id(&self, node_id: NodeId) -> Self {
        TraitTypeAlias { node_id, ..*self }
    }

    fn set_node_id(&mut self, node_id: NodeId) {
        self.node_id = node_id;
    }
}

pub struct TraitConst {
    pub span:    SpanId,
    pub node_id: NodeId,
    pub attrs:   Vec<AstNodeRef<Attribute>>,
    pub name:    NameId,
    pub ty:      Type,
    pub def:     Option<Expr>,
}

impl AstNode for TraitConst {
    open spec fn spec_span(&self) -> SpanId {
        self.span
    }

    open spec fn spec_node_id(&self) -> NodeId {
        self.node_id
    }

    fn span(&self) -> (r: SpanId) {
        self.span
    }

    fn node_id(&self) -> (r: NodeId) {
        self.node_id
    }
}

impl AstNodeParseHelper for TraitConst {
    open spec fn spec_with_node_id(&self, node_id: NodeId) -> Self {
        TraitConst { node_id, ..*self }
    }

    fn set_node_id(&mut self, node_id: NodeId) {
        self.node_id = node_id;
    }
}

pub struct TraitProperty {
    pub span:      SpanId,
    pub node_id:   NodeId,
    pub attrs:     Vec<AstNodeRef<Attribute>>,
    pub is_unsafe: bool,
    pub name:      NameId,
    pub ty:        Type,
    pub get:       Option<(SpanId, Option<Expr>)>,
    pub ref_get:   Option<(SpanId, Option<Expr>)>,
    pub mut_get:   Option<(SpanId, Option<Expr>)>,
    pub set:       Option<(SpanId, Option<Expr>)>,
}

impl AstNode for TraitProperty {
    open spec fn spec_span(&self) -> SpanId {
        self.span
    }

    open spec fn spec_node_id(&self) -> NodeId {
        self.node_id
    }

    fn span(&self) -> (r: SpanId) {
        self.span
    }

    fn node_id(&self) -> (r: NodeId) {
        self.node_id
    }
}

impl AstNodeParseHelper for TraitProperty {
    open spec fn spec_with_node_id(&self, node_id: NodeId) -> Self {
        TraitProperty { node_id, ..*self }
    }

    fn set_node_id(&mut self, node_id: NodeId) {
        self.node_id = node_id;
    }
}

pub struct Impl {
    pub span:         SpanId,
    pub node_id:      NodeId,
    pub attrs:        Vec<AstNodeRef<Attribute>>,
    pub vis:          Option<AstNodeRef<Visibility>>,
    pub is_unsafe:    bool,
    pub generics:     Option<AstNodeRef<GenericParams>>,
    pub ty:           Type,
    pub impl_trait:   Option<AstNodeRef<TraitPath>>,
    pub where_clause: Option<AstNodeRef<WhereClause>>,
    pub assoc_items:  Vec<AssocItem>,
}

impl AstNode for Impl {
    open spec fn spec_span(&self) -> SpanId {
        self.span
    }

    open spec fn spec_node_id(&self) -> NodeId {
        self.node_id
    }

    fn span(&self) -> (r: SpanId) {
        self.span
    }

    fn node_id(&self) -> (r: NodeId) {
        self.node_id
    }
}

impl AstNodeParseHelper for Impl {
    open spec fn spec_with_node_id(&self, node_id: NodeId) -> Self {
        Impl { node_id, ..*self }
    }

    fn set_node_id(&mut self, node_id: NodeId) {
        self.node_id = node_id;
    }
}

pub struct ExternBlock {
    pub span:    SpanId,
    pub node_id: NodeId,
    pub attrs:   Vec<AstNodeRef<Attribute>>,
    pub vis:     Option<AstNodeRef<Visibility>>,
    pub abi:     LiteralId,
    pub items:   Vec<ExternItem>,
}

impl AstNode for ExternBlock {
    open spec fn spec_span(&self) -> SpanId {
        self.span
    }

    open spec fn spec_node_id(&self) -> NodeId {
        self.node_id
    }

    fn span(&self) -> (r: SpanId) {
        self.span
    }

    fn node_id(&self) -> (r: NodeId) {
        self.node_id
    }
}

impl AstNodeParseHelper for ExternBlock {
    open spec fn spec_with_node_id(&self, node_id: NodeId) -> Self {
        ExternBlock { node_id, ..*self }
    }

    fn set_node_id(&mut self, node_id: NodeId) {
        self.node_id = node_id;
    }
}

/// A set of operators with their names and defaults.
pub enum OpTrait {
    Base {
        span:       SpanId,
        node_id:    NodeId,
        attrs:      Vec<AstNodeRef<Attribute>>,
        vis:        Option<AstNodeRef<Visibility>>,
        name:       NameId,
        precedence: Option<NameId>,
        elems:      Vec<OpElem>,
    },
    Extended {
        span:    SpanId,
        node_id: NodeId,
        attrs:   Vec<AstNodeRef<Attribute>>,
        vis:     Option<AstNodeRef<Visibility>>,
        name:    NameId,
        bases:   Vec<(NameId, SpanId)>,
        elems:   Vec<OpElem>,
    },
}

impl AstNode for OpTrait {
    open spec fn spec_span(&self) -> SpanId {
        match self {
            OpTrait::Base { span, .. } => *span,
            OpTrait::Extended { span, .. } => *span,
        }
    }

    open spec fn spec_node_id(&self) -> NodeId {
        match self {
            OpTrait::Base { node_id, .. } => *node_id,
            OpTrait::Extended { node_id, .. } => *node_id,
        }
    }

    fn span(&self) -> (r: SpanId) {
        match self {
            OpTrait::Base { span, .. } => *span,
            OpTrait::Extended { span, .. } => *span,
        }
    }

    fn node_id(&self) -> (r: NodeId) {
        match self {
            OpTrait::Base { node_id, .. } => *node_id,
            OpTrait::Extended { node_id, .. } => *node_id,
        }
    }
}

impl AstNodeParseHelper for OpTrait {
    open spec fn spec_with_node_id(&self, node_id: NodeId) -> Self {
        match self {
            OpTrait::Base { span, node_id: _, attrs, vis, name, precedence, elems } => OpTrait::Base { span: *span, node_id, attrs: *attrs, vis: *vis, name: *name, precedence: *precedence, elems: *elems },
            OpTrait::Extended { span, node_id: _, attrs, vis, name, bases, elems } => OpTrait::Extended { span: *span, node_id, attrs: *attrs, vis: *vis, name: *name, bases: *bases, elems: *elems },
        }
    }

    fn set_node_id(&mut self, node_id: NodeId) {
        match self {
            OpTrait::Base { node_id: id, .. } => *id = node_id,
            OpTrait::Extended { node_id: id, .. } => *id = node_id,
        }
    }
}

pub enum OpElem {
    Def {
        span:    SpanId,
        op_type: OpType,
        op:      Punctuation,
        name:    NameId,
        ret:     Option<Type>,
        def:     Option<Expr>,
    },
    Contract {
        span: SpanId,
        expr: AstNodeRef<BlockExpr>,
    },
}

pub struct OpUse {
    pub span:    SpanId,
    pub node_id: NodeId,
    pub group:   Option<NameId>,
    pub package: Option<NameId>,
    pub library: Option<NameId>,
    pub op_sets: Vec<NameId>,
}

impl AstNode for OpUse {
    open spec fn spec_span(&self) -> SpanId {
        self.span
    }

    open spec fn spec_node_id(&self) -> NodeId {
        self.node_id
    }

    fn span(&self) -> (r: SpanId) {
        self.span
    }

    fn node_id(&self) -> (r: NodeId) {
        self.node_id
    }
}

impl AstNodeParseHelper for OpUse {
    open spec fn spec_with_node_id(&self, node_id: NodeId) -> Self {
        OpUse { node_id, ..*self }
    }

    fn set_node_id(&mut self, node_id: NodeId) {
        self.node_id = node_id;
    }
}

#[derive(Clone, Copy, PartialEq, Eq, Structural, Debug)]
pub enum PrecedenceAssociativityKind {
    NonAssoc,
    Left,
    Right,
}

pub struct PrecedenceAssociativity {
    pub span: SpanId,
    pub kind: PrecedenceAssociativityKind,
}

impl PrecedenceAssociativity {
    /// The name of the associativity: `none`, `left` or `right`.
    pub fn to_string(&self) -> (r: String)
        ensures
            r@ == match self.kind {
                PrecedenceAssociativityKind::NonAssoc => "none"@,
                PrecedenceAssociativityKind::Left => "left"@,
                PrecedenceAssociativityKind::Right => "right"@,
            },
    {
        match self.kind {
            PrecedenceAssociativityKind::NonAssoc => String::from_str("none"),
            PrecedenceAssociativityKind::Left => String::from_str("left"),
            PrecedenceAssociativityKind::Right => String::from_str("right"),
        }
    }
}

pub struct Precedence {
    pub span:          SpanId,
    pub node_id:       NodeId,
    pub attrs:         Vec<AstNodeRef<Attribute>>,
    pub vis:           Option<AstNodeRef<Visibility>>,
    pub name:          NameId,
    pub higher_than:   Option<(NameId, SpanId)>,
    pub lower_than:    Option<(NameId, SpanId)>,
    pub associativity: Option<PrecedenceAssociativity>,
}

impl AstNode for Precedence {
    open spec fn spec_span(&self) -> SpanId {
        self.span
    }

    open spec fn spec_node_id(&self) -> NodeId {
        self.node_id
    }

    fn span(&self) -> (r: SpanId) {
        self.span
    }

    fn node_id(&self) -> (r: NodeId) {
        self.node_id
    }
}

impl AstNodeParseHelper for Precedence {
    open spec fn spec_with_node_id(&self, node_id: NodeId) -> Self {
        Precedence { node_id, ..*self }
    }

    fn set_node_id(&mut self, node_id: NodeId) {
        self.node_id = node_id;
    }
}

pub struct PrecedenceUse {
    pub span:        SpanId,
    pub node_id:     NodeId,
    pub group:       Option<NameId>,
    pub package:     Option<NameId>,
    pub library:     Option<NameId>,
    pub precedences: Vec<NameId>,
}

impl AstNode for PrecedenceUse {
    open spec fn spec_span(&self) -> SpanId {
        self.span
    }

    open spec fn spec_node_id(&self) -> NodeId {
        self.node_id
    }

    fn span(&self) -> (r: SpanId) {
        self.span
    }

    fn node_id(&self) -> (r: NodeId) {
        self.node_id
    }
}

impl AstNodeParseHelper for PrecedenceUse {
    open spec fn spec_with_node_id(&self, node_id: NodeId) -> Self {
        PrecedenceUse { node_id, ..*self }
    }

    fn set_node_id(&mut self, node_id: NodeId) {
        self.node_id = node_id;
    }
}

pub enum Stmt {
    Empty(AstNodeRef<EmptyStmt>),
    Item(Item),
    VarDecl(AstNodeRef<VarDecl>),
    Defer(AstNodeRef<Defer>),
    ErrDefer(AstNodeRef<ErrDefer>),
    Expr(AstNodeRef<ExprStmt>),
}

impl AstNode for Stmt {
    open spec fn spec_span(&self) -> SpanId {
        match self {
            Stmt::Empty(node) => node.spec_span(),
            Stmt::Item(node) => node.spec_span(),
            Stmt::VarDecl(node) => node.spec_span(),
            Stmt::Defer(node) => node.spec_span(),
            Stmt::ErrDefer(node) => node.spec_span(),
            Stmt::Expr(node) => node.spec_span(),
        }
    }

    open spec fn spec_node_id(&self) -> NodeId {
        match self {
            Stmt::Empty(node) => node.spec_node_id(),
            Stmt::Item(node) => node.spec_node_id(),
            Stmt::VarDecl(node) => node.spec_node_id(),
            Stmt::Defer(node) => node.spec_node_id(),
            Stmt::ErrDefer(node) => node.spec_node_id(),
            Stmt::Expr(node) => node.spec_node_id(),
        }
    }

    fn span(&self) -> (r: SpanId) {
        match self {
            Stmt::Empty(node) => node.span(),
            Stmt::Item(node) => node.span(),
            Stmt::VarDecl(node) => node.span(),
            Stmt::Defer(node) => node.span(),
            Stmt::ErrDefer(node) => node.span(),
            Stmt::Expr(node) => node.span(),
        }
    }

    fn node_id(&self) -> (r: NodeId) {
        match self {
            Stmt::Empty(node) => node.node_id(),
            Stmt::Item(node) => node.node_id(),
            Stmt::VarDecl(node) => node.node_id(),
            Stmt::Defer(node) => node.node_id(),
            Stmt::ErrDefer(node) => node.node_id(),
            Stmt::Expr(node) => node.node_id(),
        }
    }
}

pub struct EmptyStmt {
    pub span:    SpanId,
    pub node_id: NodeId,
}

impl AstNode for EmptyStmt {
    open spec fn spec_span(&self) -> SpanId {
        self.span
    }

    open spec fn spec_node_id(&self) -> NodeId {
        self.node_id
    }

    fn span(&self) -> (r: SpanId) {
        self.span
    }

    fn node_id(&self) -> (r: NodeId) {
        self.node_id
    }
}

impl AstNodeParseHelper for EmptyStmt {
    open spec fn spec_with_node_id(&self, node_id: NodeId) -> Self {
        EmptyStmt { node_id, ..*self }
    }

    fn set_node_id(&mut self, node_id: NodeId) {
        self.node_id = node_id;
    }
}

pub enum VarDecl {
    Named {
        span:    SpanId,
        node_id: NodeId,
        attrs:   Vec<AstNodeRef<Attribute>>,
        names:   Vec<(bool, NameId, SpanId)>,
        expr:    Expr,
    },
    Let {
        span:       SpanId,
        node_id:    NodeId,
        attrs:      Vec<AstNodeRef<Attribute>>,
        pattern:    Pattern,
        ty:         Option<Type>,
        expr:       Option<Expr>,
        else_block: Option<AstNodeRef<BlockExpr>>,
    },
}

impl AstNode for VarDecl {
    open spec fn spec_span(&self) -> SpanId {
        match self {
            VarDecl::Named { span, .. } => *span,
            VarDecl::Let { span, .. } => *span,
        }
    }

    open spec fn spec_node_id(&self) -> NodeId {
        match self {
            VarDecl::Named { node_id, .. } => *node_id,
            VarDecl::Let { node_id, .. } => *node_id,
        }
    }

    fn span(&self) -> (r: SpanId) {
        match self {
            VarDecl::Named { span, .. } => *span,
            VarDecl::Let { span, .. } => *span,
        }
    }

    fn node_id(&self) -> (r: NodeId) {
        match self {
            VarDecl::Named { node_id, .. } => *node_id,
            VarDecl::Let { node_id, .. } => *node_id,
        }
    }
}

impl AstNodeParseHelper for VarDecl {
    open spec fn spec_with_node_id(&self, node_id: NodeId) -> Self {
        match self {
            VarDecl::Named { span, node_id: _, attrs, names, expr } => VarDecl::Named { span: *span, node_id, attrs: *attrs, names: *names, expr: *expr },
            VarDecl::Let { span, node_id: _, attrs, pattern, ty, expr, else_block } => VarDecl::Let { span: *span, node_id, attrs: *attrs, pattern: *pattern, ty: *ty, expr: *expr, else_block: *else_block },
        }
    }

    fn set_node_id(&mut self, node_id: NodeId) {
        match self {
            VarDecl::Named { node_id: id, .. } => *id = node_id,
            VarDecl::Let { node_id: id, .. } => *id = node_id,
        }
    }
}

pub struct Defer {
    pub span:    SpanId,
    pub node_id: NodeId,
    pub attrs:   Vec<AstNodeRef<Attribute>>,
    pub expr:    Expr,
}

impl AstNode for Defer {
    open spec fn spec_span(&self) -> SpanId {
        self.span
    }

    open spec fn spec_node_id(&self) -> NodeId {
        self.node_id
    }

    fn span(&self) -> (r: SpanId) {
        self.span
    }

    fn node_id(&self) -> (r: NodeId) {
        self.node_id
    }
}

impl AstNodeParseHelper for Defer {
    open spec fn spec_with_node_id(&self, node_id: NodeId) -> Self {
        Defer { node_id, ..*self }
    }

    fn set_node_id(&mut self, node_id: NodeId) {
        self.node_id = node_id;
    }
}

pub struct ErrDefer {
    pub span:     SpanId,
    pub node_id:  NodeId,
    pub attrs:    Vec<AstNodeRef<Attribute>>,
    pub receiver: Option<ErrDeferReceiver>,
    pub expr:     Expr,
}

impl AstNode for ErrDefer {
    open spec fn spec_span(&self) -> SpanId {
        self.span
    }

    open spec fn spec_node_id(&self) -> NodeId {
        self.node_id
    }

    fn span(&self) -> (r: SpanId) {
        self.span
    }

    fn node_id(&self) -> (r: NodeId) {
        self.node_id
    }
}

impl AstNodeParseHelper for ErrDefer {
    open spec fn spec_with_node_id(&self, node_id: NodeId) -> Self {
        ErrDefer { node_id, ..*self }
    }

    fn set_node_id(&mut self, node_id: NodeId) {
        self.node_id = node_id;
    }
}

pub struct ErrDeferReceiver {
    pub span:   SpanId,
    pub is_mut: bool,
    pub name:   NameId,
}

pub struct ExprStmt {
    pub span:     SpanId,
    pub node_id:  NodeId,
    pub attrs:    Vec<AstNodeRef<Attribute>>,
    pub expr:     Expr,
    pub has_semi: bool,
}

impl AstNode for ExprStmt {
    open spec fn spec_span(&self) -> SpanId {
        self.span
    }

    open spec fn spec_node_id(&self) -> NodeId {
        self.node_id
    }

    fn span(&self) -> (r: SpanId) {
        self.span
    }

    fn node_id(&self) -> (r: NodeId) {
        self.node_id
    }
}

impl AstNodeParseHelper for ExprStmt {
    open spec fn spec_with_node_id(&self, node_id: NodeId) -> Self {
        ExprStmt { node_id, ..*self }
    }

    fn set_node_id(&mut self, node_id: NodeId) {
        self.node_id = node_id;
    }
}

pub enum Expr {
    Literal(AstNodeRef<LiteralExpr>),
    Path(AstNodeRef<PathExpr>),
    Unit(AstNodeRef<UnitExpr>),
    Block(AstNodeRef<BlockExpr>),
    Prefix(AstNodeRef<PrefixExpr>),
    Postfix(AstNodeRef<PostfixExpr>),
    Infix(AstNodeRef<InfixExpr>),
    Paren(AstNodeRef<ParenExpr>),
    Inplace(AstNodeRef<InplaceExpr>),
    TypeCast(AstNodeRef<TypeCastExpr>),
    TypeCheck(AstNodeRef<TypeCheckExpr>),
    Tuple(AstNodeRef<TupleExpr>),
    Array(AstNodeRef<ArrayExpr>),
    Struct(AstNodeRef<StructExpr>),
    Index(AstNodeRef<IndexExpr>),
    TupleIndex(AstNodeRef<TupleIndexExpr>),
    FnCall(AstNodeRef<FnCallExpr>),
    Method(AstNodeRef<MethodCallExpr>),
    FieldAccess(AstNodeRef<FieldAccessExpr>),
    Closure(AstNodeRef<ClosureExpr>),
    If(AstNodeRef<IfExpr>),
    Let(AstNodeRef<LetBindingExpr>),
    Loop(AstNodeRef<LoopExpr>),
    While(AstNodeRef<WhileExpr>),
    DoWhile(AstNodeRef<DoWhileExpr>),
    For(AstNodeRef<ForExpr>),
    Match(AstNodeRef<MatchExpr>),
    Break(AstNodeRef<BreakExpr>),
    Continue(AstNodeRef<ContinueExpr>),
    Fallthrough(AstNodeRef<FallthroughExpr>),
    Return(AstNodeRef<ReturnExpr>),
    Underscore(AstNodeRef<UnderscoreExpr>),
    Throw(AstNodeRef<ThrowExpr>),
    Comma(AstNodeRef<CommaExpr>),
    When(AstNodeRef<WhenExpr>),
}

impl AstNode for Expr {
    open spec fn spec_span(&self) -> SpanId {
        match self {
            Expr::Literal(node) => node.spec_span(),
            Expr::Path(node) => node.spec_span(),
            Expr::Unit(node) => node.spec_span(),
            Expr::Block(node) => node.spec_span(),
            Expr::Prefix(node) => node.spec_span(),
            Expr::Postfix(node) => node.spec_span(),
            Expr::Infix(node) => node.spec_span(),
            Expr::Paren(node) => node.spec_span(),
            Expr::Inplace(node) => node.spec_span(),
            Expr::TypeCast(node) => node.spec_span(),
            Expr::TypeCheck(node) => node.spec_span(),
            Expr::Tuple(node) => node.spec_span(),
            Expr::Array(node) => node.spec_span(),
            Expr::Struct(node) => node.spec_span(),
            Expr::Index(node) => node.spec_span(),
            Expr::TupleIndex(node) => node.spec_span(),
            Expr::FnCall(node) => node.spec_span(),
            Expr::Method(node) => node.spec_span(),
            Expr::FieldAccess(node) => node.spec_span(),
            Expr::Closure(node) => node.spec_span(),
            Expr::If(node) => node.spec_span(),
            Expr::Let(node) => node.spec_span(),
            Expr::Loop(node) => node.spec_span(),
            Expr::While(node) => node.spec_span(),
            Expr::DoWhile(node) => node.spec_span(),
            Expr::For(node) => node.spec_span(),
            Expr::Match(node) => node.spec_span(),
            Expr::Break(node) => node.spec_span(),
            Expr::Continue(node) => node.spec_span(),
            Expr::Fallthrough(node) => node.spec_span(),
            Expr::Return(node) => node.spec_span(),
            Expr::Underscore(node) => node.spec_span(),
            Expr::Throw(node) => node.spec_span(),
            Expr::Comma(node) => node.spec_span(),
            Expr::When(node) => node.spec_span(),
        }
    }

    open spec fn spec_node_id(&self) -> NodeId {
        match self {
            Expr::Literal(node) => node.spec_node_id(),
            Expr::Path(node) => node.spec_node_id(),
            Expr::Unit(node) => node.spec_node_id(),
            Expr::Block(node) => node.spec_node_id(),
            Expr::Prefix(node) => node.spec_node_id(),
            Expr::Postfix(node) => node.spec_node_id(),
            Expr::Infix(node) => node.spec_node_id(),
            Expr::Paren(node) => node.spec_node_id(),
            Expr::Inplace(node) => node.spec_node_id(),
            Expr::TypeCast(node) => node.spec_node_id(),
            Expr::TypeCheck(node) => node.spec_node_id(),
            Expr::Tuple(node) => node.spec_node_id(),
            Expr::Array(node) => node.spec_node_id(),
            Expr::Struct(node) => node.spec_node_id(),
            Expr::Index(node) => node.spec_node_id(),
            Expr::TupleIndex(node) => node.spec_node_id(),
            Expr::FnCall(node) => node.spec_node_id(),
            Expr::Method(node) => node.spec_node_id(),
            Expr::FieldAccess(node) => node.spec_node_id(),
            Expr::Closure(node) => node.spec_node_id(),
            Expr::If(node) => node.spec_node_id(),
            Expr::Let(node) => node.spec_node_id(),
            Expr::Loop(node) => node.spec_node_id(),
            Expr::While(node) => node.spec_node_id(),
            Expr::DoWhile(node) => node.spec_node_id(),
            Expr::For(node) => node.spec_node_id(),
            Expr::Match(node) => node.spec_node_id(),
            Expr::Break(node) => node.spec_node_id(),
            Expr::Continue(node) => node.spec_node_id(),
            Expr::Fallthrough(node) => node.spec_node_id(),
            Expr::Return(node) => node.spec_node_id(),
            Expr::Underscore(node) => node.spec_node_id(),
            Expr::Throw(node) => node.spec_node_id(),
            Expr::Comma(node) => node.spec_node_id(),
            Expr::When(node) => node.spec_node_id(),
        }
    }

    fn span(&self) -> (r: SpanId) {
        match self {
            Expr::Literal(node) => node.span(),
            Expr::Path(node) => node.span(),
            Expr::Unit(node) => node.span(),
            Expr::Block(node) => node.span(),
            Expr::Prefix(node) => node.span(),
            Expr::Postfix(node) => node.span(),
            Expr::Infix(node) => node.span(),
            Expr::Paren(node) => node.span(),
            Expr::Inplace(node) => node.span(),
            Expr::TypeCast(node) => node.span(),
            Expr::TypeCheck(node) => node.span(),
            Expr::Tuple(node) => node.span(),
            Expr::Array(node) => node.span(),
            Expr::Struct(node) => node.span(),
            Expr::Index(node) => node.span(),
            Expr::TupleIndex(node) => node.span(),
            Expr::FnCall(node) => node.span(),
            Expr::Method(node) => node.span(),
            Expr::FieldAccess(node) => node.span(),
            Expr::Closure(node) => node.span(),
            Expr::If(node) => node.span(),
            Expr::Let(node) => node.span(),
            Expr::Loop(node) => node.span(),
            Expr::While(node) => node.span(),
            Expr::DoWhile(node) => node.span(),
            Expr::For(node) => node.span(),
            Expr::Match(node) => node.span(),
            Expr::Break(node) => node.span(),
            Expr::Continue(node) => node.span(),
            Expr::Fallthrough(node) => node.span(),
            Expr::Return(node) => node.span(),
            Expr::Underscore(node) => node.span(),
            Expr::Throw(node) => node.span(),
            Expr::Comma(node) => node.span(),
            Expr::When(node) => node.span(),
        }
    }

    fn node_id(&self) -> (r: NodeId) {
        match self {
            Expr::Literal(node) => node.node_id(),
            Expr::Path(node) => node.node_id(),
            Expr::Unit(node) => node.node_id(),
            Expr::Block(node) => node.node_id(),
            Expr::Prefix(node) => node.node_id(),
            Expr::Postfix(node) => node.node_id(),
            Expr::Infix(node) => node.node_id(),
            Expr::Paren(node) => node.node_id(),
            Expr::Inplace(node) => node.node_id(),
            Expr::TypeCast(node) => node.node_id(),
            Expr::TypeCheck(node) => node.node_id(),
            Expr::Tuple(node) => node.node_id(),
            Expr::Array(node) => node.node_id(),
            Expr::Struct(node) => node.node_id(),
            Expr::Index(node) => node.node_id(),
            Expr::TupleIndex(node) => node.node_id(),
            Expr::FnCall(node) => node.node_id(),
            Expr::Method(node) => node.node_id(),
            Expr::FieldAccess(node) => node.node_id(),
            Expr::Closure(node) => node.node_id(),
            Expr::If(node) => node.node_id(),
            Expr::Let(node) => node.node_id(),
            Expr::Loop(node) => node.node_id(),
            Expr::While(node) => node.node_id(),
            Expr::DoWhile(node) => node.node_id(),
            Expr::For(node) => node.node_id(),
            Expr::Match(node) => node.node_id(),
            Expr::Break(node) => node.node_id(),
            Expr::Continue(node) => node.node_id(),
            Expr::Fallthrough(node) => node.node_id(),
            Expr::Return(node) => node.node_id(),
            Expr::Underscore(node) => node.node_id(),
            Expr::Throw(node) => node.node_id(),
            Expr::Comma(node) => node.node_id(),
            Expr::When(node) => node.node_id(),
        }
    }
}

pub enum LiteralValue {
    Lit(LiteralId),
    Bool(bool),
}

pub enum LiteralOp {
    Name(NameId),
    Primitive(PrimitiveType),
    StringSlice(StringSliceType),
}

pub struct LiteralExpr {
    pub span:    SpanId,
    pub node_id: NodeId,
    pub literal: LiteralValue,
    pub lit_op:  Option<LiteralOp>,
}

impl AstNode for LiteralExpr {
    open spec fn spec_span(&self) -> SpanId {
        self.span
    }

    open spec fn spec_node_id(&self) -> NodeId {
        self.node_id
    }

    fn span(&self) -> (r: SpanId) {
        self.span
    }

    fn node_id(&self) -> (r: NodeId) {
        self.node_id
    }
}

impl AstNodeParseHelper for LiteralExpr {
    open spec fn spec_with_node_id(&self, node_id: NodeId) -> Self {
        LiteralExpr { node_id, ..*self }
    }

    fn set_node_id(&mut self, node_id: NodeId) {
        self.node_id = node_id;
    }
}

pub enum PathExpr {
    SelfVar {
        span:    SpanId,
        node_id: NodeId,
    },
    Path {
        span:    SpanId,
        node_id: NodeId,
        start:   PathStart,
        iden:    Identifier,
    },
}

impl AstNode for PathExpr {
    open spec fn spec_span(&self) -> SpanId {
        match self {
            PathExpr::SelfVar { span, .. } => *span,
            PathExpr::Path { span, .. } => *span,
        }
    }

    open spec fn spec_node_id(&self) -> NodeId {
        match self {
            PathExpr::SelfVar { node_id, .. } => *node_id,
            PathExpr::Path { node_id, .. } => *node_id,
        }
    }

    fn span(&self) -> (r: SpanId) {
        match self {
            PathExpr::SelfVar { span, .. } => *span,
            PathExpr::Path { span, .. } => *span,
        }
    }

    fn node_id(&self) -> (r: NodeId) {
        match self {
            PathExpr::SelfVar { node_id, .. } => *node_id,
            PathExpr::Path { node_id, .. } => *node_id,
        }
    }
}

impl AstNodeParseHelper for PathExpr {
    open spec fn spec_with_node_id(&self, node_id: NodeId) -> Self {
        match self {
            PathExpr::SelfVar { span, node_id: _ } => PathExpr::SelfVar { span: *span, node_id },
            PathExpr::Path { span, node_id: _, start, iden } => PathExpr::Path { span: *span, node_id, start: *start, iden: *iden },
        }
    }

    fn set_node_id(&mut self, node_id: NodeId) {
        match self {
            PathExpr::SelfVar { node_id: id, .. } => *id = node_id,
            PathExpr::Path { node_id: id, .. } => *id = node_id,
        }
    }
}

pub struct UnitExpr {
    pub span:    SpanId,
    pub node_id: NodeId,
}

impl AstNode for UnitExpr {
    open spec fn spec_span(&self) -> SpanId {
        self.span
    }

    open spec fn spec_node_id(&self) -> NodeId {
        self.node_id
    }

    fn span(&self) -> (r: SpanId) {
        self.span
    }

    fn node_id(&self) -> (r: NodeId) {
        self.node_id
    }
}

impl AstNodeParseHelper for UnitExpr {
    open spec fn spec_with_node_id(&self, node_id: NodeId) -> Self {
        UnitExpr { node_id, ..*self }
    }

    fn set_node_id(&mut self, node_id: NodeId) {
        self.node_id = node_id;
    }
}

pub enum BlockExprKind {
    Normal,
    Unsafe,
    Const,
    Try,
    TryUnwrap,
    Labeled {
        label: NameId,
    },
}

pub struct BlockExpr {
    pub span:    SpanId,
    pub node_id: NodeId,
    pub kind:    BlockExprKind,
    pub block:   AstNodeRef<Block>,
}

impl AstNode for BlockExpr {
    open spec fn spec_span(&self) -> SpanId {
        self.span
    }

    open spec fn spec_node_id(&self) -> NodeId {
        self.node_id
    }

    fn span(&self) -> (r: SpanId) {
        self.span
    }

    fn node_id(&self) -> (r: NodeId) {
        self.node_id
    }
}

impl AstNodeParseHelper for BlockExpr {
    open spec fn spec_with_node_id(&self, node_id: NodeId) -> Self {
        BlockExpr { node_id, ..*self }
    }

    fn set_node_id(&mut self, node_id: NodeId) {
        self.node_id = node_id;
    }
}

pub struct PrefixExpr {
    pub span:    SpanId,
    pub node_id: NodeId,
    pub op:      Punctuation,
    pub expr:    Expr,
}

impl AstNode for PrefixExpr {
    open spec fn spec_span(&self) -> SpanId {
        self.span
    }

    open spec fn spec_node_id(&self) -> NodeId {
        self.node_id
    }

    fn span(&self) -> (r: SpanId) {
        self.span
    }

    fn node_id(&self) -> (r: NodeId) {
        self.node_id
    }
}

impl AstNodeParseHelper for PrefixExpr {
    open spec fn spec_with_node_id(&self, node_id: NodeId) -> Self {
        PrefixExpr { node_id, ..*self }
    }

    fn set_node_id(&mut self, node_id: NodeId) {
        self.node_id = node_id;
    }
}

pub struct PostfixExpr {
    pub span:    SpanId,
    pub node_id: NodeId,
    pub op:      Punctuation,
    pub expr:    Expr,
}

impl AstNode for PostfixExpr {
    open spec fn spec_span(&self) -> SpanId {
        self.span
    }

    open spec fn spec_node_id(&self) -> NodeId {
        self.node_id
    }

    fn span(&self) -> (r: SpanId) {
        self.span
    }

    fn node_id(&self) -> (r: NodeId) {
        self.node_id
    }
}

impl AstNodeParseHelper for PostfixExpr {
    open spec fn spec_with_node_id(&self, node_id: NodeId) -> Self {
        PostfixExpr { node_id, ..*self }
    }

    fn set_node_id(&mut self, node_id: NodeId) {
        self.node_id = node_id;
    }
}

pub struct InfixExpr {
    pub span:    SpanId,
    pub node_id: NodeId,
    pub op:      Punctuation,
    pub left:    Expr,
    pub right:   Expr,
}

impl AstNode for InfixExpr {
    open spec fn spec_span(&self) -> SpanId {
        self.span
    }

    open spec fn spec_node_id(&self) -> NodeId {
        self.node_id
    }

    fn span(&self) -> (r: SpanId) {
        self.span
    }

    fn node_id(&self) -> (r: NodeId) {
        self.node_id
    }
}

impl AstNodeParseHelper for InfixExpr {
    open spec fn spec_with_node_id(&self, node_id: NodeId) -> Self {
        InfixExpr { node_id, ..*self }
    }

    fn set_node_id(&mut self, node_id: NodeId) {
        self.node_id = node_id;
    }
}

pub struct ParenExpr {
    pub span:    SpanId,
    pub node_id: NodeId,
    pub expr:    Expr,
}

impl AstNode for ParenExpr {
    open spec fn spec_span(&self) -> SpanId {
        self.span
    }

    open spec fn spec_node_id(&self) -> NodeId {
        self.node_id
    }

    fn span(&self) -> (r: SpanId) {
        self.span
    }

    fn node_id(&self) -> (r: NodeId) {
        self.node_id
    }
}

impl AstNodeParseHelper for ParenExpr {
    open spec fn spec_with_node_id(&self, node_id: NodeId) -> Self {
        ParenExpr { node_id, ..*self }
    }

    fn set_node_id(&mut self, node_id: NodeId) {
        self.node_id = node_id;
    }
}

pub struct InplaceExpr {
    pub span:    SpanId,
    pub node_id: NodeId,
    pub left:    Expr,
    pub right:   Expr,
}

impl AstNode for InplaceExpr {
    open spec fn spec_span(&self) -> SpanId {
        self.span
    }

    open spec fn spec_node_id(&self) -> NodeId {
        self.node_id
    }

    fn span(&self) -> (r: SpanId) {
        self.span
    }

    fn node_id(&self) -> (r: NodeId) {
        self.node_id
    }
}

impl AstNodeParseHelper for InplaceExpr {
    open spec fn spec_with_node_id(&self, node_id: NodeId) -> Self {
        InplaceExpr { node_id, ..*self }
    }

    fn set_node_id(&mut self, node_id: NodeId) {
        self.node_id = node_id;
    }
}

#[derive(Clone, Copy, PartialEq, Eq, Structural, Debug)]
pub enum TypeCastKind {
    Normal,
    Try,
    Unwrap,
}

pub struct TypeCastExpr {
    pub span:    SpanId,
    pub node_id: NodeId,
    pub kind:    TypeCastKind,
    pub expr:    Expr,
    pub ty:      Type,
}

impl AstNode for TypeCastExpr {
    open spec fn spec_span(&self) -> SpanId {
        self.span
    }

    open spec fn spec_node_id(&self) -> NodeId {
        self.node_id
    }

    fn span(&self) -> (r: SpanId) {
        self.span
    }

    fn node_id(&self) -> (r: NodeId) {
        self.node_id
    }
}

impl AstNodeParseHelper for TypeCastExpr {
    open spec fn spec_with_node_id(&self, node_id: NodeId) -> Self {
        TypeCastExpr { node_id, ..*self }
    }

    fn set_node_id(&mut self, node_id: NodeId) {
        self.node_id = node_id;
    }
}

pub struct TypeCheckExpr {
    pub span:    SpanId,
    pub node_id: NodeId,
    pub negate:  bool,
    pub expr:    Expr,
    pub ty:      Type,
}

impl AstNode for TypeCheckExpr {
    open spec fn spec_span(&self) -> SpanId {
        self.span
    }

    open spec fn spec_node_id(&self) -> NodeId {
        self.node_id
    }

    fn span(&self) -> (r: SpanId) {
        self.span
    }

    fn node_id(&self) -> (r: NodeId) {
        self.node_id
    }
}

impl AstNodeParseHelper for TypeCheckExpr {
    open spec fn spec_with_node_id(&self, node_id: NodeId) -> Self {
        TypeCheckExpr { node_id, ..*self }
    }

    fn set_node_id(&mut self, node_id: NodeId) {
        self.node_id = node_id;
    }
}

pub struct TupleExpr {
    pub span:    SpanId,
    pub node_id: NodeId,
    pub exprs:   Vec<Expr>,
}

impl AstNode for TupleExpr {
    open spec fn spec_span(&self) -> SpanId {
        self.span
    }

    open spec fn spec_node_id(&self) -> NodeId {
        self.node_id
    }

    fn span(&self) -> (r: SpanId) {
        self.span
    }

    fn node_id(&self) -> (r: NodeId) {
        self.node_id
    }
}

impl AstNodeParseHelper for TupleExpr {
    open spec fn spec_with_node_id(&self, node_id: NodeId) -> Self {
        TupleExpr { node_id, ..*self }
    }

    fn set_node_id(&mut self, node_id: NodeId) {
        self.node_id = node_id;
    }
}

pub enum ArrayExpr {
    Slice {
        span:    SpanId,
        node_id: NodeId,
        exprs:   Vec<Expr>,
    },
    Count {
        span:    SpanId,
        node_id: NodeId,
        val:     Expr,
        count:   Expr,
    },
}

impl AstNode for ArrayExpr {
    open spec fn spec_span(&self) -> SpanId {
        match self {
            ArrayExpr::Slice { span, .. } => *span,
            ArrayExpr::Count { span, .. } => *span,
        }
    }

    open spec fn spec_node_id(&self) -> NodeId {
        match self {
            ArrayExpr::Slice { node_id, .. } => *node_id,
            ArrayExpr::Count { node_id, .. } => *node_id,
        }
    }

    fn span(&self) -> (r: SpanId) {
        match self {
            ArrayExpr::Slice { span, .. } => *span,
            ArrayExpr::Count { span, .. } => *span,
        }
    }

    fn node_id(&self) -> (r: NodeId) {
        match self {
            ArrayExpr::Slice { node_id, .. } => *node_id,
            ArrayExpr::Count { node_id, .. } => *node_id,
        }
    }
}

impl AstNodeParseHelper for ArrayExpr {
    open spec fn spec_with_node_id(&self, node_id: NodeId) -> Self {
        match self {
            ArrayExpr::Slice { span, node_id: _, exprs } => ArrayExpr::Slice { span: *span, node_id, exprs: *exprs },
            ArrayExpr::Count { span, node_id: _, val, count } => ArrayExpr::Count { span: *span, node_id, val: *val, count: *count },
        }
    }

    fn set_node_id(&mut self, node_id: NodeId) {
        match self {
            ArrayExpr::Slice { node_id: id, .. } => *id = node_id,
            ArrayExpr::Count { node_id: id, .. } => *id = node_id,
        }
    }
}

pub enum StructArg {
    Expr {
        span: SpanId,
        name: NameId,
        expr: Expr,
    },
    Name {
        span: SpanId,
        name: NameId,
    },
    Complete {
        span: SpanId,
        expr: Expr,
    },
}

pub struct StructExpr {
    pub span:    SpanId,
    pub node_id: NodeId,
    pub path:    Expr,
    pub args:    Vec<StructArg>,
}

impl AstNode for StructExpr {
    open spec fn spec_span(&self) -> SpanId {
        self.span
    }

    open spec fn spec_node_id(&self) -> NodeId {
        self.node_id
    }

    fn span(&self) -> (r: SpanId) {
        self.span
    }

    fn node_id(&self) -> (r: NodeId) {
        self.node_id
    }
}

impl AstNodeParseHelper for StructExpr {
    open spec fn spec_with_node_id(&self, node_id: NodeId) -> Self {
        StructExpr { node_id, ..*self }
    }

    fn set_node_id(&mut self, node_id: NodeId) {
        self.node_id = node_id;
    }
}

pub struct IndexExpr {
    pub span:    SpanId,
    pub node_id: NodeId,
    pub is_opt:  bool,
    pub expr:    Expr,
    pub index:   Expr,
}

impl AstNode for IndexExpr {
    open spec fn spec_span(&self) -> SpanId {
        self.span
    }

    open spec fn spec_node_id(&self) -> NodeId {
        self.node_id
    }

    fn span(&self) -> (r: SpanId) {
        self.span
    }

    fn node_id(&self) -> (r: NodeId) {
        self.node_id
    }
}

impl AstNodeParseHelper for IndexExpr {
    open spec fn spec_with_node_id(&self, node_id: NodeId) -> Self {
        IndexExpr { node_id, ..*self }
    }

    fn set_node_id(&mut self, node_id: NodeId) {
        self.node_id = node_id;
    }
}

pub struct TupleIndexExpr {
    pub span:    SpanId,
    pub node_id: NodeId,
    pub expr:    Expr,
    pub index:   LiteralId,
}

impl AstNode for TupleIndexExpr {
    open spec fn spec_span(&self) -> SpanId {
        self.span
    }

    open spec fn spec_node_id(&self) -> NodeId {
        self.node_id
    }

    fn span(&self) -> (r: SpanId) {
        self.span
    }

    fn node_id(&self) -> (r: NodeId) {
        self.node_id
    }
}

impl AstNodeParseHelper for TupleIndexExpr {
    open spec fn spec_with_node_id(&self, node_id: NodeId) -> Self {
        TupleIndexExpr { node_id, ..*self }
    }

    fn set_node_id(&mut self, node_id: NodeId) {
        self.node_id = node_id;
    }
}

pub enum FnArg {
    Expr {
        span: SpanId,
        expr: Expr,
    },
    Labeled {
        span:  SpanId,
        label: NameId,
        expr:  Expr,
    },
}

pub struct FnCallExpr {
    pub span:    SpanId,
    pub node_id: NodeId,
    pub expr:    Expr,
    pub args:    Vec<FnArg>,
}

impl AstNode for FnCallExpr {
    open spec fn spec_span(&self) -> SpanId {
        self.span
    }

    open spec fn spec_node_id(&self) -> NodeId {
        self.node_id
    }

    fn span(&self) -> (r: SpanId) {
        self.span
    }

    fn node_id(&self) -> (r: NodeId) {
        self.node_id
    }
}

impl AstNodeParseHelper for FnCallExpr {
    open spec fn spec_with_node_id(&self, node_id: NodeId) -> Self {
        FnCallExpr { node_id, ..*self }
    }

    fn set_node_id(&mut self, node_id: NodeId) {
        self.node_id = node_id;
    }
}

pub struct MethodCallExpr {
    pub span:           SpanId,
    pub node_id:        NodeId,
    pub receiver:       Expr,
    pub method:         Identifier,
    pub args:           Vec<FnArg>,
    pub is_propagating: bool,
}

impl AstNode for MethodCallExpr {
    open spec fn spec_span(&self) -> SpanId {
        self.span
    }

    open spec fn spec_node_id(&self) -> NodeId {
        self.node_id
    }

    fn span(&self) -> (r: SpanId) {
        self.span
    }

    fn node_id(&self) -> (r: NodeId) {
        self.node_id
    }
}

impl AstNodeParseHelper for MethodCallExpr {
    open spec fn spec_with_node_id(&self, node_id: NodeId) -> Self {
        MethodCallExpr { node_id, ..*self }
    }

    fn set_node_id(&mut self, node_id: NodeId) {
        self.node_id = node_id;
    }
}

pub struct FieldAccessExpr {
    pub span:           SpanId,
    pub node_id:        NodeId,
    pub expr:           Expr,
    pub field:          Identifier,
    pub is_propagating: bool,
}

impl AstNode for FieldAccessExpr {
    open spec fn spec_span(&self) -> SpanId {
        self.span
    }

    open spec fn spec_node_id(&self) -> NodeId {
        self.node_id
    }

    fn span(&self) -> (r: SpanId) {
        self.span
    }

    fn node_id(&self) -> (r: NodeId) {
        self.node_id
    }
}

impl AstNodeParseHelper for FieldAccessExpr {
    open spec fn spec_with_node_id(&self, node_id: NodeId) -> Self {
        FieldAccessExpr { node_id, ..*self }
    }

    fn set_node_id(&mut self, node_id: NodeId) {
        self.node_id = node_id;
    }
}

pub struct ClosureExpr {
    pub span:     SpanId,
    pub node_id:  NodeId,
    pub is_moved: bool,
    pub params:   Vec<FnParam>,
    pub ret:      Option<FnReturn>,
    pub body:     Expr,
}

impl AstNode for ClosureExpr {
    open spec fn spec_span(&self) -> SpanId {
        self.span
    }

    open spec fn spec_node_id(&self) -> NodeId {
        self.node_id
    }

    fn span(&self) -> (r: SpanId) {
        self.span
    }

    fn node_id(&self) -> (r: NodeId) {
        self.node_id
    }
}

impl AstNodeParseHelper for ClosureExpr {
    open spec fn spec_with_node_id(&self, node_id: NodeId) -> Self {
        ClosureExpr { node_id, ..*self }
    }

    fn set_node_id(&mut self, node_id: NodeId) {
        self.node_id = node_id;
    }
}

pub struct IfExpr {
    pub span:      SpanId,
    pub node_id:   NodeId,
    pub cond:      Expr,
    pub body:      AstNodeRef<BlockExpr>,
    pub else_body: Option<Expr>,
}

impl AstNode for IfExpr {
    open spec fn spec_span(&self) -> SpanId {
        self.span
    }

    open spec fn spec_node_id(&self) -> NodeId {
        self.node_id
    }

    fn span(&self) -> (r: SpanId) {
        self.span
    }

    fn node_id(&self) -> (r: NodeId) {
        self.node_id
    }
}

impl AstNodeParseHelper for IfExpr {
    open spec fn spec_with_node_id(&self, node_id: NodeId) -> Self {
        IfExpr { node_id, ..*self }
    }

    fn set_node_id(&mut self, node_id: NodeId) {
        self.node_id = node_id;
    }
}

pub struct LetBindingExpr {
    pub span:      SpanId,
    pub node_id:   NodeId,
    pub pattern:   Pattern,
    pub scrutinee: Expr,
}

impl AstNode for LetBindingExpr {
    open spec fn spec_span(&self) -> SpanId {
        self.span
    }

    open spec fn spec_node_id(&self) -> NodeId {
        self.node_id
    }

    fn span(&self) -> (r: SpanId) {
        self.span
    }

    fn node_id(&self) -> (r: NodeId) {
        self.node_id
    }
}

impl AstNodeParseHelper for LetBindingExpr {
    open spec fn spec_with_node_id(&self, node_id: NodeId) -> Self {
        LetBindingExpr { node_id, ..*self }
    }

    fn set_node_id(&mut self, node_id: NodeId) {
        self.node_id = node_id;
    }
}

pub struct LoopExpr {
    pub span:    SpanId,
    pub node_id: NodeId,
    pub label:   Option<NameId>,
    pub body:    AstNodeRef<BlockExpr>,
}

impl AstNode for LoopExpr {
    open spec fn spec_span(&self) -> SpanId {
        self.span
    }

    open spec fn spec_node_id(&self) -> NodeId {
        self.node_id
    }

    fn span(&self) -> (r: SpanId) {
        self.span
    }

    fn node_id(&self) -> (r: NodeId) {
        self.node_id
    }
}

impl AstNodeParseHelper for LoopExpr {
    open spec fn spec_with_node_id(&self, node_id: NodeId) -> Self {
        LoopExpr { node_id, ..*self }
    }

    fn set_node_id(&mut self, node_id: NodeId) {
        self.node_id = node_id;
    }
}

pub struct WhileExpr {
    pub span:      SpanId,
    pub node_id:   NodeId,
    pub label:     Option<NameId>,
    pub cond:      Expr,
    pub inc:       Option<Expr>,
    pub body:      AstNodeRef<BlockExpr>,
    pub else_body: Option<AstNodeRef<BlockExpr>>,
}

impl AstNode for WhileExpr {
    open spec fn spec_span(&self) -> SpanId {
        self.span
    }

    open spec fn spec_node_id(&self) -> NodeId {
        self.node_id
    }

    fn span(&self) -> (r: SpanId) {
        self.span
    }

    fn node_id(&self) -> (r: NodeId) {
        self.node_id
    }
}

impl AstNodeParseHelper for WhileExpr {
    open spec fn spec_with_node_id(&self, node_id: NodeId) -> Self {
        WhileExpr { node_id, ..*self }
    }

    fn set_node_id(&mut self, node_id: NodeId) {
        self.node_id = node_id;
    }
}

pub struct DoWhileExpr {
    pub span:    SpanId,
    pub node_id: NodeId,
    pub label:   Option<NameId>,
    pub body:    AstNodeRef<BlockExpr>,
    pub cond:    Expr,
}

impl AstNode for DoWhileExpr {
    open spec fn spec_span(&self) -> SpanId {
        self.span
    }

    open spec fn spec_node_id(&self) -> NodeId {
        self.node_id
    }

    fn span(&self) -> (r: SpanId) {
        self.span
    }

    fn node_id(&self) -> (r: NodeId) {
        self.node_id
    }
}

impl AstNodeParseHelper for DoWhileExpr {
    open spec fn spec_with_node_id(&self, node_id: NodeId) -> Self {
        DoWhileExpr { node_id, ..*self }
    }

    fn set_node_id(&mut self, node_id: NodeId) {
        self.node_id = node_id;
    }
}

pub struct ForExpr {
    pub span:      SpanId,
    pub node_id:   NodeId,
    pub label:     Option<NameId>,
    pub pattern:   Pattern,
    pub src:       Expr,
    pub body:      AstNodeRef<BlockExpr>,
    pub else_body: Option<AstNodeRef<BlockExpr>>,
}

impl AstNode for ForExpr {
    open spec fn spec_span(&self) -> SpanId {
        self.span
    }

    open spec fn spec_node_id(&self) -> NodeId {
        self.node_id
    }

    fn span(&self) -> (r: SpanId) {
        self.span
    }

    fn node_id(&self) -> (r: NodeId) {
        self.node_id
    }
}

impl AstNodeParseHelper for ForExpr {
    open spec fn spec_with_node_id(&self, node_id: NodeId) -> Self {
        ForExpr { node_id, ..*self }
    }

    fn set_node_id(&mut self, node_id: NodeId) {
        self.node_id = node_id;
    }
}

pub struct MatchExpr {
    pub span:      SpanId,
    pub node_id:   NodeId,
    pub label:     Option<NameId>,
    pub scrutinee: Expr,
    pub branches:  Vec<MatchBranch>,
}

impl AstNode for MatchExpr {
    open spec fn spec_span(&self) -> SpanId {
        self.span
    }

    open spec fn spec_node_id(&self) -> NodeId {
        self.node_id
    }

    fn span(&self) -> (r: SpanId) {
        self.span
    }

    fn node_id(&self) -> (r: NodeId) {
        self.node_id
    }
}

impl AstNodeParseHelper for MatchExpr {
    open spec fn spec_with_node_id(&self, node_id: NodeId) -> Self {
        MatchExpr { node_id, ..*self }
    }

    fn set_node_id(&mut self, node_id: NodeId) {
        self.node_id = node_id;
    }
}

pub struct MatchBranch {
    pub span:    SpanId,
    pub label:   Option<NameId>,
    pub pattern: Pattern,
    pub guard:   Option<Expr>,
    pub body:    Expr,
}

pub struct BreakExpr {
    pub span:    SpanId,
    pub node_id: NodeId,
    pub label:   Option<NameId>,
    pub value:   Option<Expr>,
}

impl AstNode for BreakExpr {
    open spec fn spec_span(&self) -> SpanId {
        self.span
    }

    open spec fn spec_node_id(&self) -> NodeId {
        self.node_id
    }

    fn span(&self) -> (r: SpanId) {
        self.span
    }

    fn node_id(&self) -> (r: NodeId) {
        self.node_id
    }
}

impl AstNodeParseHelper for BreakExpr {
    open spec fn spec_with_node_id(&self, node_id: NodeId) -> Self {
        BreakExpr { node_id, ..*self }
    }

    fn set_node_id(&mut self, node_id: NodeId) {
        self.node_id = node_id;
    }
}

pub struct ContinueExpr {
    pub span:    SpanId,
    pub node_id: NodeId,
    pub label:   Option<NameId>,
}

impl AstNode for ContinueExpr {
    open spec fn spec_span(&self) -> SpanId {
        self.span
    }

    open spec fn spec_node_id(&self) -> NodeId {
        self.node_id
    }

    fn span(&self) -> (r: SpanId) {
        self.span
    }

    fn node_id(&self) -> (r: NodeId) {
        self.node_id
    }
}

impl AstNodeParseHelper for ContinueExpr {
    open spec fn spec_with_node_id(&self, node_id: NodeId) -> Self {
        ContinueExpr { node_id, ..*self }
    }

    fn set_node_id(&mut self, node_id: NodeId) {
        self.node_id = node_id;
    }
}

pub struct FallthroughExpr {
    pub span:    SpanId,
    pub node_id: NodeId,
    pub label:   Option<NameId>,
}

impl AstNode for FallthroughExpr {
    open spec fn spec_span(&self) -> SpanId {
        self.span
    }

    open spec fn spec_node_id(&self) -> NodeId {
        self.node_id
    }

    fn span(&self) -> (r: SpanId) {
        self.span
    }

    fn node_id(&self) -> (r: NodeId) {
        self.node_id
    }
}

impl AstNodeParseHelper for FallthroughExpr {
    open spec fn spec_with_node_id(&self, node_id: NodeId) -> Self {
        FallthroughExpr { node_id, ..*self }
    }

    fn set_node_id(&mut self, node_id: NodeId) {
        self.node_id = node_id;
    }
}

pub struct ReturnExpr {
    pub span:    SpanId,
    pub node_id: NodeId,
    pub value:   Option<Expr>,
}

impl AstNode for ReturnExpr {
    open spec fn spec_span(&self) -> SpanId {
        self.span
    }

    open spec fn spec_node_id(&self) -> NodeId {
        self.node_id
    }

    fn span(&self) -> (r: SpanId) {
        self.span
    }

    fn node_id(&self) -> (r: NodeId) {
        self.node_id
    }
}

impl AstNodeParseHelper for ReturnExpr {
    open spec fn spec_with_node_id(&self, node_id: NodeId) -> Self {
        ReturnExpr { node_id, ..*self }
    }

    fn set_node_id(&mut self, node_id: NodeId) {
        self.node_id = node_id;
    }
}

pub struct UnderscoreExpr {
    pub span:    SpanId,
    pub node_id: NodeId,
}

impl AstNode for UnderscoreExpr {
    open spec fn spec_span(&self) -> SpanId {
        self.span
    }

    open spec fn spec_node_id(&self) -> NodeId {
        self.node_id
    }

    fn span(&self) -> (r: SpanId) {
        self.span
    }

    fn node_id(&self) -> (r: NodeId) {
        self.node_id
    }
}

impl AstNodeParseHelper for UnderscoreExpr {
    open spec fn spec_with_node_id(&self, node_id: NodeId) -> Self {
        UnderscoreExpr { node_id, ..*self }
    }

    fn set_node_id(&mut self, node_id: NodeId) {
        self.node_id = node_id;
    }
}

pub struct ThrowExpr {
    pub span:    SpanId,
    pub node_id: NodeId,
    pub expr:    Expr,
}

impl AstNode for ThrowExpr {
    open spec fn spec_span(&self) -> SpanId {
        self.span
    }

    open spec fn spec_node_id(&self) -> NodeId {
        self.node_id
    }

    fn span(&self) -> (r: SpanId) {
        self.span
    }

    fn node_id(&self) -> (r: NodeId) {
        self.node_id
    }
}

impl AstNodeParseHelper for ThrowExpr {
    open spec fn spec_with_node_id(&self, node_id: NodeId) -> Self {
        ThrowExpr { node_id, ..*self }
    }

    fn set_node_id(&mut self, node_id: NodeId) {
        self.node_id = node_id;
    }
}

pub struct CommaExpr {
    pub span:    SpanId,
    pub node_id: NodeId,
    pub exprs:   Vec<Expr>,
}

impl AstNode for CommaExpr {
    open spec fn spec_span(&self) -> SpanId {
        self.span
    }

    open spec fn spec_node_id(&self) -> NodeId {
        self.node_id
    }

    fn span(&self) -> (r: SpanId) {
        self.span
    }

    fn node_id(&self) -> (r: NodeId) {
        self.node_id
    }
}

impl AstNodeParseHelper for CommaExpr {
    open spec fn spec_with_node_id(&self, node_id: NodeId) -> Self {
        CommaExpr { node_id, ..*self }
    }

    fn set_node_id(&mut self, node_id: NodeId) {
        self.node_id = node_id;
    }
}

pub struct WhenExpr {
    pub span:      SpanId,
    pub node_id:   NodeId,
    pub cond:      Expr,
    pub body:      AstNodeRef<BlockExpr>,
    pub else_body: Option<Expr>,
}

impl AstNode for WhenExpr {
    open spec fn spec_span(&self) -> SpanId {
        self.span
    }

    open spec fn spec_node_id(&self) -> NodeId {
        self.node_id
    }

    fn span(&self) -> (r: SpanId) {
        self.span
    }

    fn node_id(&self) -> (r: NodeId) {
        self.node_id
    }
}

impl AstNodeParseHelper for WhenExpr {
    open spec fn spec_with_node_id(&self, node_id: NodeId) -> Self {
        WhenExpr { node_id, ..*self }
    }

    fn set_node_id(&mut self, node_id: NodeId) {
        self.node_id = node_id;
    }
}

pub enum Pattern {
    Literal(AstNodeRef<LiteralPattern>),
    Identifier(AstNodeRef<IdentifierPattern>),
    Path(AstNodeRef<PathPattern>),
    Wildcard(AstNodeRef<WildcardPattern>),
    Rest(AstNodeRef<RestPattern>),
    Range(AstNodeRef<RangePattern>),
    Reference(AstNodeRef<ReferencePattern>),
    Struct(AstNodeRef<StructPattern>),
    Tuple(AstNodeRef<TuplePattern>),
    Grouped(AstNodeRef<GroupedPattern>),
    Slice(AstNodeRef<SlicePattern>),
    EnumMember(AstNodeRef<EnumMemberPattern>),
    Alternative(AstNodeRef<AlternativePattern>),
    TypeCheck(AstNodeRef<TypeCheckPattern>),
}

impl AstNode for Pattern {
    open spec fn spec_span(&self) -> SpanId {
        match self {
            Pattern::Literal(node) => node.spec_span(),
            Pattern::Identifier(node) => node.spec_span(),
            Pattern::Path(node) => node.spec_span(),
            Pattern::Wildcard(node) => node.spec_span(),
            Pattern::Rest(node) => node.spec_span(),
            Pattern::Range(node) => node.spec_span(),
            Pattern::Reference(node) => node.spec_span(),
            Pattern::Struct(node) => node.spec_span(),
            Pattern::Tuple(node) => node.spec_span(),
            Pattern::Grouped(node) => node.spec_span(),
            Pattern::Slice(node) => node.spec_span(),
            Pattern::EnumMember(node) => node.spec_span(),
            Pattern::Alternative(node) => node.spec_span(),
            Pattern::TypeCheck(node) => node.spec_span(),
        }
    }

    open spec fn spec_node_id(&self) -> NodeId {
        match self {
            Pattern::Literal(node) => node.spec_node_id(),
            Pattern::Identifier(node) => node.spec_node_id(),
            Pattern::Path(node) => node.spec_node_id(),
            Pattern::Wildcard(node) => node.spec_node_id(),
            Pattern::Rest(node) => node.spec_node_id(),
            Pattern::Range(node) => node.spec_node_id(),
            Pattern::Reference(node) => node.spec_node_id(),
            Pattern::Struct(node) => node.spec_node_id(),
            Pattern::Tuple(node) => node.spec_node_id(),
            Pattern::Grouped(node) => node.spec_node_id(),
            Pattern::Slice(node) => node.spec_node_id(),
            Pattern::EnumMember(node) => node.spec_node_id(),
            Pattern::Alternative(node) => node.spec_node_id(),
            Pattern::TypeCheck(node) => node.spec_node_id(),
        }
    }

    fn span(&self) -> (r: SpanId) {
        match self {
            Pattern::Literal(node) => node.span(),
            Pattern::Identifier(node) => node.span(),
            Pattern::Path(node) => node.span(),
            Pattern::Wildcard(node) => node.span(),
            Pattern::Rest(node) => node.span(),
            Pattern::Range(node) => node.span(),
            Pattern::Reference(node) => node.span(),
            Pattern::Struct(node) => node.span(),
            Pattern::Tuple(node) => node.span(),
            Pattern::Grouped(node) => node.span(),
            Pattern::Slice(node) => node.span(),
            Pattern::EnumMember(node) => node.span(),
            Pattern::Alternative(node) => node.span(),
            Pattern::TypeCheck(node) => node.span(),
        }
    }

    fn node_id(&self) -> (r: NodeId) {
        match self {
            Pattern::Literal(node) => node.node_id(),
            Pattern::Identifier(node) => node.node_id(),
            Pattern::Path(node) => node.node_id(),
            Pattern::Wildcard(node) => node.node_id(),
            Pattern::Rest(node) => node.node_id(),
            Pattern::Range(node) => node.node_id(),
            Pattern::Reference(node) => node.node_id(),
            Pattern::Struct(node) => node.node_id(),
            Pattern::Tuple(node) => node.node_id(),
            Pattern::Grouped(node) => node.node_id(),
            Pattern::Slice(node) => node.node_id(),
            Pattern::EnumMember(node) => node.node_id(),
            Pattern::Alternative(node) => node.node_id(),
            Pattern::TypeCheck(node) => node.node_id(),
        }
    }
}

pub struct LiteralPattern {
    pub span:    SpanId,
    pub node_id: NodeId,
    pub literal: LiteralValue,
    pub lit_op:  Option<LiteralOp>,
}

impl AstNode for LiteralPattern {
    open spec fn spec_span(&self) -> SpanId {
        self.span
    }

    open spec fn spec_node_id(&self) -> NodeId {
        self.node_id
    }

    fn span(&self) -> (r: SpanId) {
        self.span
    }

    fn node_id(&self) -> (r: NodeId) {
        self.node_id
    }
}

impl AstNodeParseHelper for LiteralPattern {
    open spec fn spec_with_node_id(&self, node_id: NodeId) -> Self {
        LiteralPattern { node_id, ..*self }
    }

    fn set_node_id(&mut self, node_id: NodeId) {
        self.node_id = node_id;
    }
}

pub struct IdentifierPattern {
    pub span:    SpanId,
    pub node_id: NodeId,
    pub is_ref:  bool,
    pub is_mut:  bool,
    pub name:    NameId,
    pub bound:   Option<Pattern>,
}

impl AstNode for IdentifierPattern {
    open spec fn spec_span(&self) -> SpanId {
        self.span
    }

    open spec fn spec_node_id(&self) -> NodeId {
        self.node_id
    }

    fn span(&self) -> (r: SpanId) {
        self.span
    }

    fn node_id(&self) -> (r: NodeId) {
        self.node_id
    }
}

impl AstNodeParseHelper for IdentifierPattern {
    open spec fn spec_with_node_id(&self, node_id: NodeId) -> Self {
        IdentifierPattern { node_id, ..*self }
    }

    fn set_node_id(&mut self, node_id: NodeId) {
        self.node_id = node_id;
    }
}

pub struct PathPattern {
    pub span:    SpanId,
    pub node_id: NodeId,
    pub path:    AstNodeRef<ExprPath>,
}

impl AstNode for PathPattern {
    open spec fn spec_span(&self) -> SpanId {
        self.span
    }

    open spec fn spec_node_id(&self) -> NodeId {
        self.node_id
    }

    fn span(&self) -> (r: SpanId) {
        self.span
    }

    fn node_id(&self) -> (r: NodeId) {
        self.node_id
    }
}

impl AstNodeParseHelper for PathPattern {
    open spec fn spec_with_node_id(&self, node_id: NodeId) -> Self {
        PathPattern { node_id, ..*self }
    }

    fn set_node_id(&mut self, node_id: NodeId) {
        self.node_id = node_id;
    }
}

pub struct WildcardPattern {
    pub span:    SpanId,
    pub node_id: NodeId,
}

impl AstNode for WildcardPattern {
    open spec fn spec_span(&self) -> SpanId {
        self.span
    }

    open spec fn spec_node_id(&self) -> NodeId {
        self.node_id
    }

    fn span(&self) -> (r: SpanId) {
        self.span
    }

    fn node_id(&self) -> (r: NodeId) {
        self.node_id
    }
}

impl AstNodeParseHelper for WildcardPattern {
    open spec fn spec_with_node_id(&self, node_id: NodeId) -> Self {
        WildcardPattern { node_id, ..*self }
    }

    fn set_node_id(&mut self, node_id: NodeId) {
        self.node_id = node_id;
    }
}

pub struct RestPattern {
    pub span:    SpanId,
    pub node_id: NodeId,
}

impl AstNode for RestPattern {
    open spec fn spec_span(&self) -> SpanId {
        self.span
    }

    open spec fn spec_node_id(&self) -> NodeId {
        self.node_id
    }

    fn span(&self) -> (r: SpanId) {
        self.span
    }

    fn node_id(&self) -> (r: NodeId) {
        self.node_id
    }
}

impl AstNodeParseHelper for RestPattern {
    open spec fn spec_with_node_id(&self, node_id: NodeId) -> Self {
        RestPattern { node_id, ..*self }
    }

    fn set_node_id(&mut self, node_id: NodeId) {
        self.node_id = node_id;
    }
}

pub enum RangePattern {
    Exclusive {
        span:    SpanId,
        node_id: NodeId,
        begin:   Pattern,
        end:     Pattern,
    },
    Inclusive {
        span:    SpanId,
        node_id: NodeId,
        begin:   Pattern,
        end:     Pattern,
    },
    From {
        span:    SpanId,
        node_id: NodeId,
        begin:   Pattern,
    },
    To {
        span:    SpanId,
        node_id: NodeId,
        end:     Pattern,
    },
    InclusiveTo {
        span:    SpanId,
        node_id: NodeId,
        end:     Pattern,
    },
}

impl AstNode for RangePattern {
    open spec fn spec_span(&self) -> SpanId {
        match self {
            RangePattern::Exclusive { span, .. } => *span,
            RangePattern::Inclusive { span, .. } => *span,
            RangePattern::From { span, .. } => *span,
            RangePattern::To { span, .. } => *span,
            RangePattern::InclusiveTo { span, .. } => *span,
        }
    }

    open spec fn spec_node_id(&self) -> NodeId {
        match self {
            RangePattern::Exclusive { node_id, .. } => *node_id,
            RangePattern::Inclusive { node_id, .. } => *node_id,
            RangePattern::From { node_id, .. } => *node_id,
            RangePattern::To { node_id, .. } => *node_id,
            RangePattern::InclusiveTo { node_id, .. } => *node_id,
        }
    }

    fn span(&self) -> (r: SpanId) {
        match self {
            RangePattern::Exclusive { span, .. } => *span,
            RangePattern::Inclusive { span, .. } => *span,
            RangePattern::From { span, .. } => *span,
            RangePattern::To { span, .. } => *span,
            RangePattern::InclusiveTo { span, .. } => *span,
        }
    }

    fn node_id(&self) -> (r: NodeId) {
        match self {
            RangePattern::Exclusive { node_id, .. } => *node_id,
            RangePattern::Inclusive { node_id, .. } => *node_id,
            RangePattern::From { node_id, .. } => *node_id,
            RangePattern::To { node_id, .. } => *node_id,
            RangePattern::InclusiveTo { node_id, .. } => *node_id,
        }
    }
}

impl AstNodeParseHelper for RangePattern {
    open spec fn spec_with_node_id(&self, node_id: NodeId) -> Self {
        match self {
            RangePattern::Exclusive { span, node_id: _, begin, end } => RangePattern::Exclusive { span: *span, node_id, begin: *begin, end: *end },
            RangePattern::Inclusive { span, node_id: _, begin, end } => RangePattern::Inclusive { span: *span, node_id, begin: *begin, end: *end },
            RangePattern::From { span, node_id: _, begin } => RangePattern::From { span: *span, node_id, begin: *begin },
            RangePattern::To { span, node_id: _, end } => RangePattern::To { span: *span, node_id, end: *end },
            RangePattern::InclusiveTo { span, node_id: _, end } => RangePattern::InclusiveTo { span: *span, node_id, end: *end },
        }
    }

    fn set_node_id(&mut self, node_id: NodeId) {
        match self {
            RangePattern::Exclusive { node_id: id, .. } => *id = node_id,
            RangePattern::Inclusive { node_id: id, .. } => *id = node_id,
            RangePattern::From { node_id: id, .. } => *id = node_id,
            RangePattern::To { node_id: id, .. } => *id = node_id,
            RangePattern::InclusiveTo { node_id: id, .. } => *id = node_id,
        }
    }
}

pub struct ReferencePattern {
    pub span:    SpanId,
    pub node_id: NodeId,
    pub is_mut:  bool,
    pub pattern: Pattern,
}

impl AstNode for ReferencePattern {
    open spec fn spec_span(&self) -> SpanId {
        self.span
    }

    open spec fn spec_node_id(&self) -> NodeId {
        self.node_id
    }

    fn span(&self) -> (r: SpanId) {
        self.span
    }

    fn node_id(&self) -> (r: NodeId) {
        self.node_id
    }
}

impl AstNodeParseHelper for ReferencePattern {
    open spec fn spec_with_node_id(&self, node_id: NodeId) -> Self {
        ReferencePattern { node_id, ..*self }
    }

    fn set_node_id(&mut self, node_id: NodeId) {
        self.node_id = node_id;
    }
}

pub enum StructPattern {
    Inferred {
        span:    SpanId,
        node_id: NodeId,
        fields:  Vec<StructPatternField>,
    },
    Path {
        span:    SpanId,
        node_id: NodeId,
        path:    AstNodeRef<ExprPath>,
        fields:  Vec<StructPatternField>,
    },
}

impl AstNode for StructPattern {
    open spec fn spec_span(&self) -> SpanId {
        match self {
            StructPattern::Inferred { span, .. } => *span,
            StructPattern::Path { span, .. } => *span,
        }
    }

    open spec fn spec_node_id(&self) -> NodeId {
        match self {
            StructPattern::Inferred { node_id, .. } => *node_id,
            StructPattern::Path { node_id, .. } => *node_id,
        }
    }

    fn span(&self) -> (r: SpanId) {
        match self {
            StructPattern::Inferred { span, .. } => *span,
            StructPattern::Path { span, .. } => *span,
        }
    }

    fn node_id(&self) -> (r: NodeId) {
        match self {
            StructPattern::Inferred { node_id, .. } => *node_id,
            StructPattern::Path { node_id, .. } => *node_id,
        }
    }
}

impl AstNodeParseHelper for StructPattern {
    open spec fn spec_with_node_id(&self, node_id: NodeId) -> Self {
        match self {
            StructPattern::Inferred { span, node_id: _, fields } => StructPattern::Inferred { span: *span, node_id, fields: *fields },
            StructPattern::Path { span, node_id: _, path, fields } => StructPattern::Path { span: *span, node_id, path: *path, fields: *fields },
        }
    }

    fn set_node_id(&mut self, node_id: NodeId) {
        match self {
            StructPattern::Inferred { node_id: id, .. } => *id = node_id,
            StructPattern::Path { node_id: id, .. } => *id = node_id,
        }
    }
}

pub enum StructPatternField {
    Named {
        span:    SpanId,
        name:    NameId,
        pattern: Pattern,
    },
    TupleIndex {
        span:    SpanId,
        idx:     LiteralId,
        pattern: Pattern,
    },
    Iden {
        span:   SpanId,
        is_ref: bool,
        is_mut: bool,
        iden:   NameId,
        bound:  Option<Pattern>,
    },
    Rest,
}

pub struct TuplePattern {
    pub span:     SpanId,
    pub node_id:  NodeId,
    pub patterns: Vec<Pattern>,
}

impl AstNode for TuplePattern {
    open spec fn spec_span(&self) -> SpanId {
        self.span
    }

    open spec fn spec_node_id(&self) -> NodeId {
        self.node_id
    }

    fn span(&self) -> (r: SpanId) {
        self.span
    }

    fn node_id(&self) -> (r: NodeId) {
        self.node_id
    }
}

impl AstNodeParseHelper for TuplePattern {
    open spec fn spec_with_node_id(&self, node_id: NodeId) -> Self {
        TuplePattern { node_id, ..*self }
    }

    fn set_node_id(&mut self, node_id: NodeId) {
        self.node_id = node_id;
    }
}

pub struct GroupedPattern {
    pub span:    SpanId,
    pub node_id: NodeId,
    pub pattern: Pattern,
}

impl AstNode for GroupedPattern {
    open spec fn spec_span(&self) -> SpanId {
        self.span
    }

    open spec fn spec_node_id(&self) -> NodeId {
        self.node_id
    }

    fn span(&self) -> (r: SpanId) {
        self.span
    }

    fn node_id(&self) -> (r: NodeId) {
        self.node_id
    }
}

impl AstNodeParseHelper for GroupedPattern {
    open spec fn spec_with_node_id(&self, node_id: NodeId) -> Self {
        GroupedPattern { node_id, ..*self }
    }

    fn set_node_id(&mut self, node_id: NodeId) {
        self.node_id = node_id;
    }
}

pub struct SlicePattern {
    pub span:     SpanId,
    pub node_id:  NodeId,
    pub patterns: Vec<Pattern>,
}

impl AstNode for SlicePattern {
    open spec fn spec_span(&self) -> SpanId {
        self.span
    }

    open spec fn spec_node_id(&self) -> NodeId {
        self.node_id
    }

    fn span(&self) -> (r: SpanId) {
        self.span
    }

    fn node_id(&self) -> (r: NodeId) {
        self.node_id
    }
}

impl AstNodeParseHelper for SlicePattern {
    open spec fn spec_with_node_id(&self, node_id: NodeId) -> Self {
        SlicePattern { node_id, ..*self }
    }

    fn set_node_id(&mut self, node_id: NodeId) {
        self.node_id = node_id;
    }
}

pub struct EnumMemberPattern {
    pub span:    SpanId,
    pub node_id: NodeId,
    pub name:    NameId,
}

impl AstNode for EnumMemberPattern {
    open spec fn spec_span(&self) -> SpanId {
        self.span
    }

    open spec fn spec_node_id(&self) -> NodeId {
        self.node_id
    }

    fn span(&self) -> (r: SpanId) {
        self.span
    }

    fn node_id(&self) -> (r: NodeId) {
        self.node_id
    }
}

impl AstNodeParseHelper for EnumMemberPattern {
    open spec fn spec_with_node_id(&self, node_id: NodeId) -> Self {
        EnumMemberPattern { node_id, ..*self }
    }

    fn set_node_id(&mut self, node_id: NodeId) {
        self.node_id = node_id;
    }
}

pub struct AlternativePattern {
    pub span:     SpanId,
    pub node_id:  NodeId,
    pub patterns: Vec<Pattern>,
}

impl AstNode for AlternativePattern {
    open spec fn spec_span(&self) -> SpanId {
        self.span
    }

    open spec fn spec_node_id(&self) -> NodeId {
        self.node_id
    }

    fn span(&self) -> (r: SpanId) {
        self.span
    }

    fn node_id(&self) -> (r: NodeId) {
        self.node_id
    }
}

impl AstNodeParseHelper for AlternativePattern {
    open spec fn spec_with_node_id(&self, node_id: NodeId) -> Self {
        AlternativePattern { node_id, ..*self }
    }

    fn set_node_id(&mut self, node_id: NodeId) {
        self.node_id = node_id;
    }
}

pub struct TypeCheckPattern {
    pub span:    SpanId,
    pub node_id: NodeId,
    pub ty:      Type,
}

impl AstNode for TypeCheckPattern {
    open spec fn spec_span(&self) -> SpanId {
        self.span
    }

    open spec fn spec_node_id(&self) -> NodeId {
        self.node_id
    }

    fn span(&self) -> (r: SpanId) {
        self.span
    }

    fn node_id(&self) -> (r: NodeId) {
        self.node_id
    }
}

impl AstNodeParseHelper for TypeCheckPattern {
    open spec fn spec_with_node_id(&self, node_id: NodeId) -> Self {
        TypeCheckPattern { node_id, ..*self }
    }

    fn set_node_id(&mut self, node_id: NodeId) {
        self.node_id = node_id;
    }
}

pub enum Type {
    Paren(AstNodeRef<ParenthesizedType>),
    Primitive(AstNodeRef<PrimitiveType>),
    Unit(AstNodeRef<UnitType>),
    Never(AstNodeRef<NeverType>),
    Path(AstNodeRef<PathType>),
    Tuple(AstNodeRef<TupleType>),
    Array(AstNodeRef<ArrayType>),
    Slice(AstNodeRef<SliceType>),
    StringSlice(AstNodeRef<StringSliceType>),
    Pointer(AstNodeRef<PointerType>),
    Ref(AstNodeRef<ReferenceType>),
    Optional(AstNodeRef<OptionalType>),
    Fn(AstNodeRef<FnType>),
    Record(AstNodeRef<RecordType>),
    EnumRecord(AstNodeRef<EnumRecordType>),
}

impl AstNode for Type {
    open spec fn spec_span(&self) -> SpanId {
        match self {
            Type::Paren(node) => node.spec_span(),
            Type::Primitive(node) => node.spec_span(),
            Type::Unit(node) => node.spec_span(),
            Type::Never(node) => node.spec_span(),
            Type::Path(node) => node.spec_span(),
            Type::Tuple(node) => node.spec_span(),
            Type::Array(node) => node.spec_span(),
            Type::Slice(node) => node.spec_span(),
            Type::StringSlice(node) => node.spec_span(),
            Type::Pointer(node) => node.spec_span(),
            Type::Ref(node) => node.spec_span(),
            Type::Optional(node) => node.spec_span(),
            Type::Fn(node) => node.spec_span(),
            Type::Record(node) => node.spec_span(),
            Type::EnumRecord(node) => node.spec_span(),
        }
    }

    open spec fn spec_node_id(&self) -> NodeId {
        match self {
            Type::Paren(node) => node.spec_node_id(),
            Type::Primitive(node) => node.spec_node_id(),
            Type::Unit(node) => node.spec_node_id(),
            Type::Never(node) => node.spec_node_id(),
            Type::Path(node) => node.spec_node_id(),
            Type::Tuple(node) => node.spec_node_id(),
            Type::Array(node) => node.spec_node_id(),
            Type::Slice(node) => node.spec_node_id(),
            Type::StringSlice(node) => node.spec_node_id(),
            Type::Pointer(node) => node.spec_node_id(),
            Type::Ref(node) => node.spec_node_id(),
            Type::Optional(node) => node.spec_node_id(),
            Type::Fn(node) => node.spec_node_id(),
            Type::Record(node) => node.spec_node_id(),
            Type::EnumRecord(node) => node.spec_node_id(),
        }
    }

    fn span(&self) -> (r: SpanId) {
        match self {
            Type::Paren(node) => node.span(),
            Type::Primitive(node) => node.span(),
            Type::Unit(node) => node.span(),
            Type::Never(node) => node.span(),
            Type::Path(node) => node.span(),
            Type::Tuple(node) => node.span(),
            Type::Array(node) => node.span(),
            Type::Slice(node) => node.span(),
            Type::StringSlice(node) => node.span(),
            Type::Pointer(node) => node.span(),
            Type::Ref(node) => node.span(),
            Type::Optional(node) => node.span(),
            Type::Fn(node) => node.span(),
            Type::Record(node) => node.span(),
            Type::EnumRecord(node) => node.span(),
        }
    }

    fn node_id(&self) -> (r: NodeId) {
        match self {
            Type::Paren(node) => node.node_id(),
            Type::Primitive(node) => node.node_id(),
            Type::Unit(node) => node.node_id(),
            Type::Never(node) => node.node_id(),
            Type::Path(node) => node.node_id(),
            Type::Tuple(node) => node.node_id(),
            Type::Array(node) => node.node_id(),
            Type::Slice(node) => node.node_id(),
            Type::StringSlice(node) => node.node_id(),
            Type::Pointer(node) => node.node_id(),
            Type::Ref(node) => node.node_id(),
            Type::Optional(node) => node.node_id(),
            Type::Fn(node) => node.node_id(),
            Type::Record(node) => node.node_id(),
            Type::EnumRecord(node) => node.node_id(),
        }
    }
}

pub struct ParenthesizedType {
    pub span:    SpanId,
    pub node_id: NodeId,
    pub ty:      Type,
}

impl AstNode for ParenthesizedType {
    open spec fn spec_span(&self) -> SpanId {
        self.span
    }

    open spec fn spec_node_id(&self) -> NodeId {
        self.node_id
    }

    fn span(&self) -> (r: SpanId) {
        self.span
    }

    fn node_id(&self) -> (r: NodeId) {
        self.node_id
    }
}

impl AstNodeParseHelper for ParenthesizedType {
    open spec fn spec_with_node_id(&self, node_id: NodeId) -> Self {
        ParenthesizedType { node_id, ..*self }
    }

    fn set_node_id(&mut self, node_id: NodeId) {
        self.node_id = node_id;
    }
}

pub struct PrimitiveType {
    pub span:    SpanId,
    pub node_id: NodeId,
    pub ty:      type_system::PrimitiveType,
}

impl AstNode for PrimitiveType {
    open spec fn spec_span(&self) -> SpanId {
        self.span
    }

    open spec fn spec_node_id(&self) -> NodeId {
        self.node_id
    }

    fn span(&self) -> (r: SpanId) {
        self.span
    }

    fn node_id(&self) -> (r: NodeId) {
        self.node_id
    }
}

impl AstNodeParseHelper for PrimitiveType {
    open spec fn spec_with_node_id(&self, node_id: NodeId) -> Self {
        PrimitiveType { node_id, ..*self }
    }

    fn set_node_id(&mut self, node_id: NodeId) {
        self.node_id = node_id;
    }
}

pub struct UnitType {
    pub span:    SpanId,
    pub node_id: NodeId,
}

impl AstNode for UnitType {
    open spec fn spec_span(&self) -> SpanId {
        self.span
    }

    open spec fn spec_node_id(&self) -> NodeId {
        self.node_id
    }

    fn span(&self) -> (r: SpanId) {
        self.span
    }

    fn node_id(&self) -> (r: NodeId) {
        self.node_id
    }
}

impl AstNodeParseHelper for UnitType {
    open spec fn spec_with_node_id(&self, node_id: NodeId) -> Self {
        UnitType { node_id, ..*self }
    }

    fn set_node_id(&mut self, node_id: NodeId) {
        self.node_id = node_id;
    }
}

pub struct NeverType {
    pub span:    SpanId,
    pub node_id: NodeId,
}

impl AstNode for NeverType {
    open spec fn spec_span(&self) -> SpanId {
        self.span
    }

    open spec fn spec_node_id(&self) -> NodeId {
        self.node_id
    }

    fn span(&self) -> (r: SpanId) {
        self.span
    }

    fn node_id(&self) -> (r: NodeId) {
        self.node_id
    }
}

impl AstNodeParseHelper for NeverType {
    open spec fn spec_with_node_id(&self, node_id: NodeId) -> Self {
        NeverType { node_id, ..*self }
    }

    fn set_node_id(&mut self, node_id: NodeId) {
        self.node_id = node_id;
    }
}

pub struct PathType {
    pub span:    SpanId,
    pub node_id: NodeId,
    pub path:    AstNodeRef<TypePath>,
}

impl AstNode for PathType {
    open spec fn spec_span(&self) -> SpanId {
        self.span
    }

    open spec fn spec_node_id(&self) -> NodeId {
        self.node_id
    }

    fn span(&self) -> (r: SpanId) {
        self.span
    }

    fn node_id(&self) -> (r: NodeId) {
        self.node_id
    }
}

impl AstNodeParseHelper for PathType {
    open spec fn spec_with_node_id(&self, node_id: NodeId) -> Self {
        PathType { node_id, ..*self }
    }

    fn set_node_id(&mut self, node_id: NodeId) {
        self.node_id = node_id;
    }
}

pub struct TupleType {
    pub span:    SpanId,
    pub node_id: NodeId,
    pub types:   Vec<Type>,
}

impl AstNode for TupleType {
    open spec fn spec_span(&self) -> SpanId {
        self.span
    }

    open spec fn spec_node_id(&self) -> NodeId {
        self.node_id
    }

    fn span(&self) -> (r: SpanId) {
        self.span
    }

    fn node_id(&self) -> (r: NodeId) {
        self.node_id
    }
}

impl AstNodeParseHelper for TupleType {
    open spec fn spec_with_node_id(&self, node_id: NodeId) -> Self {
        TupleType { node_id, ..*self }
    }

    fn set_node_id(&mut self, node_id: NodeId) {
        self.node_id = node_id;
    }
}

pub struct ArrayType {
    pub span:     SpanId,
    pub node_id:  NodeId,
    pub size:     Expr,
    pub sentinel: Option<Expr>,
    pub ty:       Type,
}

impl AstNode for ArrayType {
    open spec fn spec_span(&self) -> SpanId {
        self.span
    }

    open spec fn spec_node_id(&self) -> NodeId {
        self.node_id
    }

    fn span(&self) -> (r: SpanId) {
        self.span
    }

    fn node_id(&self) -> (r: NodeId) {
        self.node_id
    }
}

impl AstNodeParseHelper for ArrayType {
    open spec fn spec_with_node_id(&self, node_id: NodeId) -> Self {
        ArrayType { node_id, ..*self }
    }

    fn set_node_id(&mut self, node_id: NodeId) {
        self.node_id = node_id;
    }
}

pub struct SliceType {
    pub span:     SpanId,
    pub node_id:  NodeId,
    pub sentinel: Option<Expr>,
    pub ty:       Type,
}

impl AstNode for SliceType {
    open spec fn spec_span(&self) -> SpanId {
        self.span
    }

    open spec fn spec_node_id(&self) -> NodeId {
        self.node_id
    }

    fn span(&self) -> (r: SpanId) {
        self.span
    }

    fn node_id(&self) -> (r: NodeId) {
        self.node_id
    }
}

impl AstNodeParseHelper for SliceType {
    open spec fn spec_with_node_id(&self, node_id: NodeId) -> Self {
        SliceType { node_id, ..*self }
    }

    fn set_node_id(&mut self, node_id: NodeId) {
        self.node_id = node_id;
    }
}

pub struct StringSliceType {
    pub span:    SpanId,
    pub node_id: NodeId,
    pub ty:      type_system::StringSliceType,
}

impl AstNode for StringSliceType {
    open spec fn spec_span(&self) -> SpanId {
        self.span
    }

    open spec fn spec_node_id(&self) -> NodeId {
        self.node_id
    }

    fn span(&self) -> (r: SpanId) {
        self.span
    }

    fn node_id(&self) -> (r: NodeId) {
        self.node_id
    }
}

impl AstNodeParseHelper for StringSliceType {
    open spec fn spec_with_node_id(&self, node_id: NodeId) -> Self {
        StringSliceType { node_id, ..*self }
    }

    fn set_node_id(&mut self, node_id: NodeId) {
        self.node_id = node_id;
    }
}

pub struct PointerType {
    pub span:     SpanId,
    pub node_id:  NodeId,
    pub is_multi: bool,
    pub is_mut:   bool,
    pub ty:       Type,
    pub sentinel: Option<Expr>,
}

impl AstNode for PointerType {
    open spec fn spec_span(&self) -> SpanId {
        self.span
    }

    open spec fn spec_node_id(&self) -> NodeId {
        self.node_id
    }

    fn span(&self) -> (r: SpanId) {
        self.span
    }

    fn node_id(&self) -> (r: NodeId) {
        self.node_id
    }
}

impl AstNodeParseHelper for PointerType {
    open spec fn spec_with_node_id(&self, node_id: NodeId) -> Self {
        PointerType { node_id, ..*self }
    }

    fn set_node_id(&mut self, node_id: NodeId) {
        self.node_id = node_id;
    }
}

pub struct ReferenceType {
    pub span:    SpanId,
    pub node_id: NodeId,
    pub is_mut:  bool,
    pub ty:      Type,
}

impl AstNode for ReferenceType {
    open spec fn spec_span(&self) -> SpanId {
        self.span
    }

    open spec fn spec_node_id(&self) -> NodeId {
        self.node_id
    }

    fn span(&self) -> (r: SpanId) {
        self.span
    }

    fn node_id(&self) -> (r: NodeId) {
        self.node_id
    }
}

impl AstNodeParseHelper for ReferenceType {
    open spec fn spec_with_node_id(&self, node_id: NodeId) -> Self {
        ReferenceType { node_id, ..*self }
    }

    fn set_node_id(&mut self, node_id: NodeId) {
        self.node_id = node_id;
    }
}

pub struct OptionalType {
    pub span:    SpanId,
    pub node_id: NodeId,
    pub ty:      Type,
}

impl AstNode for OptionalType {
    open spec fn spec_span(&self) -> SpanId {
        self.span
    }

    open spec fn spec_node_id(&self) -> NodeId {
        self.node_id
    }

    fn span(&self) -> (r: SpanId) {
        self.span
    }

    fn node_id(&self) -> (r: NodeId) {
        self.node_id
    }
}

impl AstNodeParseHelper for OptionalType {
    open spec fn spec_with_node_id(&self, node_id: NodeId) -> Self {
        OptionalType { node_id, ..*self }
    }

    fn set_node_id(&mut self, node_id: NodeId) {
        self.node_id = node_id;
    }
}

pub struct FnType {
    pub span:      SpanId,
    pub node_id:   NodeId,
    pub is_unsafe: bool,
    pub abi:       Option<LiteralId>,
    pub params:    Vec<(Vec<NameId>, Type)>,
    pub return_ty: Option<Type>,
}

impl AstNode for FnType {
    open spec fn spec_span(&self) -> SpanId {
        self.span
    }

    open spec fn spec_node_id(&self) -> NodeId {
        self.node_id
    }

    fn span(&self) -> (r: SpanId) {
        self.span
    }

    fn node_id(&self) -> (r: NodeId) {
        self.node_id
    }
}

impl AstNodeParseHelper for FnType {
    open spec fn spec_with_node_id(&self, node_id: NodeId) -> Self {
        FnType { node_id, ..*self }
    }

    fn set_node_id(&mut self, node_id: NodeId) {
        self.node_id = node_id;
    }
}

pub struct RecordType {
    pub span:    SpanId,
    pub node_id: NodeId,
    pub fields:  Vec<RegStructField>,
}

impl AstNode for RecordType {
    open spec fn spec_span(&self) -> SpanId {
        self.span
    }

    open spec fn spec_node_id(&self) -> NodeId {
        self.node_id
    }

    fn span(&self) -> (r: SpanId) {
        self.span
    }

    fn node_id(&self) -> (r: NodeId) {
        self.node_id
    }
}

impl AstNodeParseHelper for RecordType {
    open spec fn spec_with_node_id(&self, node_id: NodeId) -> Self {
        RecordType { node_id, ..*self }
    }

    fn set_node_id(&mut self, node_id: NodeId) {
        self.node_id = node_id;
    }
}

pub struct EnumRecordType {
    pub span:     SpanId,
    pub node_id:  NodeId,
    pub variants: Vec<EnumVariant>,
}

impl AstNode for EnumRecordType {
    open spec fn spec_span(&self) -> SpanId {
        self.span
    }

    open spec fn spec_node_id(&self) -> NodeId {
        self.node_id
    }

    fn span(&self) -> (r: SpanId) {
        self.span
    }

    fn node_id(&self) -> (r: NodeId) {
        self.node_id
    }
}

impl AstNodeParseHelper for EnumRecordType {
    open spec fn spec_with_node_id(&self, node_id: NodeId) -> Self {
        EnumRecordType { node_id, ..*self }
    }

    fn set_node_id(&mut self, node_id: NodeId) {
        self.node_id = node_id;
    }
}

pub struct GenericParams {
    pub span:    SpanId,
    pub node_id: NodeId,
    pub params:  Vec<GenericParam>,
}

impl AstNode for GenericParams {
    open spec fn spec_span(&self) -> SpanId {
        self.span
    }

    open spec fn spec_node_id(&self) -> NodeId {
        self.node_id
    }

    fn span(&self) -> (r: SpanId) {
        self.span
    }

    fn node_id(&self) -> (r: NodeId) {
        self.node_id
    }
}

impl AstNodeParseHelper for GenericParams {
    open spec fn spec_with_node_id(&self, node_id: NodeId) -> Self {
        GenericParams { node_id, ..*self }
    }

    fn set_node_id(&mut self, node_id: NodeId) {
        self.node_id = node_id;
    }
}

pub enum GenericParam {
    Type(AstNodeRef<GenericTypeParam>),
    TypeSpec(AstNodeRef<GenericTypeSpec>),
    Const(AstNodeRef<GenericConstParam>),
    ConstSpec(AstNodeRef<GenericConstSpec>),
    Pack(AstNodeRef<GenericParamPack>),
}

impl AstNode for GenericParam {
    open spec fn spec_span(&self) -> SpanId {
        match self {
            GenericParam::Type(node) => node.spec_span(),
            GenericParam::TypeSpec(node) => node.spec_span(),
            GenericParam::Const(node) => node.spec_span(),
            GenericParam::ConstSpec(node) => node.spec_span(),
            GenericParam::Pack(node) => node.spec_span(),
        }
    }

    open spec fn spec_node_id(&self) -> NodeId {
        match self {
            GenericParam::Type(node) => node.spec_node_id(),
            GenericParam::TypeSpec(node) => node.spec_node_id(),
            GenericParam::Const(node) => node.spec_node_id(),
            GenericParam::ConstSpec(node) => node.spec_node_id(),
            GenericParam::Pack(node) => node.spec_node_id(),
        }
    }

    fn span(&self) -> (r: SpanId) {
        match self {
            GenericParam::Type(node) => node.span(),
            GenericParam::TypeSpec(node) => node.span(),
            GenericParam::Const(node) => node.span(),
            GenericParam::ConstSpec(node) => node.span(),
            GenericParam::Pack(node) => node.span(),
        }
    }

    fn node_id(&self) -> (r: NodeId) {
        match self {
            GenericParam::Type(node) => node.node_id(),
            GenericParam::TypeSpec(node) => node.node_id(),
            GenericParam::Const(node) => node.node_id(),
            GenericParam::ConstSpec(node) => node.node_id(),
            GenericParam::Pack(node) => node.node_id(),
        }
    }
}

pub struct GenericTypeParam {
    pub span:    SpanId,
    pub node_id: NodeId,
    pub name:    NameId,
    pub bounds:  Vec<GenericTypeBound>,
    pub def:     Option<Type>,
}

impl AstNode for GenericTypeParam {
    open spec fn spec_span(&self) -> SpanId {
        self.span
    }

    open spec fn spec_node_id(&self) -> NodeId {
        self.node_id
    }

    fn span(&self) -> (r: SpanId) {
        self.span
    }

    fn node_id(&self) -> (r: NodeId) {
        self.node_id
    }
}

impl AstNodeParseHelper for GenericTypeParam {
    open spec fn spec_with_node_id(&self, node_id: NodeId) -> Self {
        GenericTypeParam { node_id, ..*self }
    }

    fn set_node_id(&mut self, node_id: NodeId) {
        self.node_id = node_id;
    }
}

pub struct GenericTypeSpec {
    pub span:    SpanId,
    pub node_id: NodeId,
    pub ty:      Type,
}

impl AstNode for GenericTypeSpec {
    open spec fn spec_span(&self) -> SpanId {
        self.span
    }

    open spec fn spec_node_id(&self) -> NodeId {
        self.node_id
    }

    fn span(&self) -> (r: SpanId) {
        self.span
    }

    fn node_id(&self) -> (r: NodeId) {
        self.node_id
    }
}

impl AstNodeParseHelper for GenericTypeSpec {
    open spec fn spec_with_node_id(&self, node_id: NodeId) -> Self {
        GenericTypeSpec { node_id, ..*self }
    }

    fn set_node_id(&mut self, node_id: NodeId) {
        self.node_id = node_id;
    }
}

pub struct GenericConstParam {
    pub span:    SpanId,
    pub node_id: NodeId,
    pub name:    NameId,
    pub ty:      Type,
    pub def:     Option<Expr>,
}

impl AstNode for GenericConstParam {
    open spec fn spec_span(&self) -> SpanId {
        self.span
    }

    open spec fn spec_node_id(&self) -> NodeId {
        self.node_id
    }

    fn span(&self) -> (r: SpanId) {
        self.span
    }

    fn node_id(&self) -> (r: NodeId) {
        self.node_id
    }
}

impl AstNodeParseHelper for GenericConstParam {
    open spec fn spec_with_node_id(&self, node_id: NodeId) -> Self {
        GenericConstParam { node_id, ..*self }
    }

    fn set_node_id(&mut self, node_id: NodeId) {
        self.node_id = node_id;
    }
}

pub struct GenericConstSpec {
    pub span:    SpanId,
    pub node_id: NodeId,
    pub expr:    AstNodeRef<BlockExpr>,
}

impl AstNode for GenericConstSpec {
    open spec fn spec_span(&self) -> SpanId {
        self.span
    }

    open spec fn spec_node_id(&self) -> NodeId {
        self.node_id
    }

    fn span(&self) -> (r: SpanId) {
        self.span
    }

    fn node_id(&self) -> (r: NodeId) {
        self.node_id
    }
}

impl AstNodeParseHelper for GenericConstSpec {
    open spec fn spec_with_node_id(&self, node_id: NodeId) -> Self {
        GenericConstSpec { node_id, ..*self }
    }

    fn set_node_id(&mut self, node_id: NodeId) {
        self.node_id = node_id;
    }
}

pub struct GenericParamPack {
    pub span:    SpanId,
    pub node_id: NodeId,
    pub names:   Vec<(NameId, SpanId)>,
    pub descs:   Vec<GenericParamPackDesc>,
    pub defs:    Vec<GenericParamPackDef>,
}

impl AstNode for GenericParamPack {
    open spec fn spec_span(&self) -> SpanId {
        self.span
    }

    open spec fn spec_node_id(&self) -> NodeId {
        self.node_id
    }

    fn span(&self) -> (r: SpanId) {
        self.span
    }

    fn node_id(&self) -> (r: NodeId) {
        self.node_id
    }
}

impl AstNodeParseHelper for GenericParamPack {
    open spec fn spec_with_node_id(&self, node_id: NodeId) -> Self {
        GenericParamPack { node_id, ..*self }
    }

    fn set_node_id(&mut self, node_id: NodeId) {
        self.node_id = node_id;
    }
}

pub enum GenericParamPackDesc {
    Type(SpanId),
    TypeBounds(SpanId, Vec<GenericTypeBound>),
    Expr(Type),
}

pub enum GenericParamPackDef {
    Type(Type),
    Expr(AstNodeRef<BlockExpr>),
}

pub enum GenericTypeBound {
    Type(AstNodeRef<TypePath>),
}

pub struct GenericArgs {
    pub span:    SpanId,
    pub node_id: NodeId,
    pub args:    Vec<GenericArg>,
}

impl AstNode for GenericArgs {
    open spec fn spec_span(&self) -> SpanId {
        self.span
    }

    open spec fn spec_node_id(&self) -> NodeId {
        self.node_id
    }

    fn span(&self) -> (r: SpanId) {
        self.span
    }

    fn node_id(&self) -> (r: NodeId) {
        self.node_id
    }
}

impl AstNodeParseHelper for GenericArgs {
    open spec fn spec_with_node_id(&self, node_id: NodeId) -> Self {
        GenericArgs { node_id, ..*self }
    }

    fn set_node_id(&mut self, node_id: NodeId) {
        self.node_id = node_id;
    }
}

pub enum GenericArg {
    Type(Type),
    Value(AstNodeRef<BlockExpr>),
    TypeOrValue(NameId),
}

pub struct WhereClause {
    pub span:    SpanId,
    pub node_id: NodeId,
    pub bounds:  Vec<WhereBound>,
}

impl AstNode for WhereClause {
    open spec fn spec_span(&self) -> SpanId {
        self.span
    }

    open spec fn spec_node_id(&self) -> NodeId {
        self.node_id
    }

    fn span(&self) -> (r: SpanId) {
        self.span
    }

    fn node_id(&self) -> (r: NodeId) {
        self.node_id
    }
}

impl AstNodeParseHelper for WhereClause {
    open spec fn spec_with_node_id(&self, node_id: NodeId) -> Self {
        WhereClause { node_id, ..*self }
    }

    fn set_node_id(&mut self, node_id: NodeId) {
        self.node_id = node_id;
    }
}

pub enum WhereBound {
    Type {
        span:   SpanId,
        ty:     Type,
        bounds: Vec<GenericTypeBound>,
    },
    ExplicitType {
        span:   SpanId,
        ty:     Type,
        bounds: Vec<Type>,
    },
    Value {
        bound: AstNodeRef<BlockExpr>,
    },
}

pub struct TraitBounds {
    pub span:    SpanId,
    pub node_id: NodeId,
    pub bounds:  Vec<AstNodeRef<TraitPath>>,
}

impl AstNode for TraitBounds {
    open spec fn spec_span(&self) -> SpanId {
        self.span
    }

    open spec fn spec_node_id(&self) -> NodeId {
        self.node_id
    }

    fn span(&self) -> (r: SpanId) {
        self.span
    }

    fn node_id(&self) -> (r: NodeId) {
        self.node_id
    }
}

impl AstNodeParseHelper for TraitBounds {
    open spec fn spec_with_node_id(&self, node_id: NodeId) -> Self {
        TraitBounds { node_id, ..*self }
    }

    fn set_node_id(&mut self, node_id: NodeId) {
        self.node_id = node_id;
    }
}

pub enum Visibility {
    Pub {
        span:    SpanId,
        node_id: NodeId,
    },
    Super {
        span:    SpanId,
        node_id: NodeId,
    },
    Lib {
        span:    SpanId,
        node_id: NodeId,
    },
    Package {
        span:    SpanId,
        node_id: NodeId,
    },
    Path {
        span:    SpanId,
        node_id: NodeId,
        path:    AstNodeRef<SimplePath>,
    },
}

impl AstNode for Visibility {
    open spec fn spec_span(&self) -> SpanId {
        match self {
            Visibility::Pub { span, .. } => *span,
            Visibility::Super { span, .. } => *span,
            Visibility::Lib { span, .. } => *span,
            Visibility::Package { span, .. } => *span,
            Visibility::Path { span, .. } => *span,
        }
    }

    open spec fn spec_node_id(&self) -> NodeId {
        match self {
            Visibility::Pub { node_id, .. } => *node_id,
            Visibility::Super { node_id, .. } => *node_id,
            Visibility::Lib { node_id, .. } => *node_id,
            Visibility::Package { node_id, .. } => *node_id,
            Visibility::Path { node_id, .. } => *node_id,
        }
    }

    fn span(&self) -> (r: SpanId) {
        match self {
            Visibility::Pub { span, .. } => *span,
            Visibility::Super { span, .. } => *span,
            Visibility::Lib { span, .. } => *span,
            Visibility::Package { span, .. } => *span,
            Visibility::Path { span, .. } => *span,
        }
    }

    fn node_id(&self) -> (r: NodeId) {
        match self {
            Visibility::Pub { node_id, .. } => *node_id,
            Visibility::Super { node_id, .. } => *node_id,
            Visibility::Lib { node_id, .. } => *node_id,
            Visibility::Package { node_id, .. } => *node_id,
            Visibility::Path { node_id, .. } => *node_id,
        }
    }
}

impl AstNodeParseHelper for Visibility {
    open spec fn spec_with_node_id(&self, node_id: NodeId) -> Self {
        match self {
            Visibility::Pub { span, node_id: _ } => Visibility::Pub { span: *span, node_id },
            Visibility::Super { span, node_id: _ } => Visibility::Super { span: *span, node_id },
            Visibility::Lib { span, node_id: _ } => Visibility::Lib { span: *span, node_id },
            Visibility::Package { span, node_id: _ } => Visibility::Package { span: *span, node_id },
            Visibility::Path { span, node_id: _, path } => Visibility::Path { span: *span, node_id, path: *path },
        }
    }

    fn set_node_id(&mut self, node_id: NodeId) {
        match self {
            Visibility::Pub { node_id: id, .. } => *id = node_id,
            Visibility::Super { node_id: id, .. } => *id = node_id,
            Visibility::Lib { node_id: id, .. } => *id = node_id,
            Visibility::Package { node_id: id, .. } => *id = node_id,
            Visibility::Path { node_id: id, .. } => *id = node_id,
        }
    }
}

pub struct Attribute {
    pub span:    SpanId,
    pub node_id: NodeId,
    pub is_mod:  bool,
    pub path:    AstNodeRef<SimplePath>,
    pub metas:   Vec<AttribMeta>,
}

impl AstNode for Attribute {
    open spec fn spec_span(&self) -> SpanId {
        self.span
    }

    open spec fn spec_node_id(&self) -> NodeId {
        self.node_id
    }

    fn span(&self) -> (r: SpanId) {
        self.span
    }

    fn node_id(&self) -> (r: NodeId) {
        self.node_id
    }
}

impl AstNodeParseHelper for Attribute {
    open spec fn spec_with_node_id(&self, node_id: NodeId) -> Self {
        Attribute { node_id, ..*self }
    }

    fn set_node_id(&mut self, node_id: NodeId) {
        self.node_id = node_id;
    }
}

pub enum AttribMeta {
    Simple {
        path: AstNodeRef<SimplePath>,
    },
    Expr {
        expr: Expr,
    },
    Assign {
        span: SpanId,
        path: AstNodeRef<SimplePath>,
        expr: Expr,
    },
    Meta {
        span:  SpanId,
        path:  AstNodeRef<SimplePath>,
        metas: Vec<AttribMeta>,
    },
}

/// A function contract clause; the parser does not produce these yet.
pub struct Contract {
    pub span:    SpanId,
    pub node_id: NodeId,
}

impl AstNode for Contract {
    open spec fn spec_span(&self) -> SpanId {
        self.span
    }

    open spec fn spec_node_id(&self) -> NodeId {
        self.node_id
    }

    fn span(&self) -> (r: SpanId) {
        self.span
    }

    fn node_id(&self) -> (r: NodeId) {
        self.node_id
    }
}

impl AstNodeParseHelper for Contract {
    open spec fn spec_with_node_id(&self, node_id: NodeId) -> Self {
        Contract { node_id, ..*self }
    }

    fn set_node_id(&mut self, node_id: NodeId) {
        self.node_id = node_id;
    }
}

/// The AST of one file: its top-level items and the metadata of every node.
pub struct Ast {
    pub file:   String,
    pub meta:   Vec<AstNodeMeta>,
    pub items:  Vec<Item>,
    pub tokens: TokenStore,
}

impl Ast {
    pub fn new() -> (r: Ast)
        ensures
            r.file@.len() == 0,
            r.meta@.len() == 0,
            r.items@.len() == 0,
            r.tokens.tokens@.len() == 0,
            r.tokens.metadata@.len() == 0,
            r.tokens.weak_kw_names@.len() == 0,
            r.tokens.prim_ty_names@.len() == 0,
    {
        Ast {
            file: String::new(),
            meta: Vec::new(),
            items: Vec::new(),
            tokens: TokenStore::new_dummy(),
        }
    }

    /// Registers `node` with its metadata: the node gets the next id, which
    /// is the position of `meta` in the AST's node metadata.
    pub fn add_node<T: AstNode + AstNodeParseHelper>(&mut self, node: T, meta: AstNodeMeta) -> (r: AstNodeRef<T>)
        ensures
            r.spec_node_id().spec_index() == old(self).meta@.len(),
            r.spec_span() == node.spec_span(),
            *r == node.spec_with_node_id(r.spec_node_id()),
            final(self).meta@ == old(self).meta@.push(meta),
            final(self).items@ == old(self).items@,
            final(self).file@ == old(self).file@,
            final(self).tokens == old(self).tokens,
    {
        let idx = self.meta.len();
        let mut node = node;
        node.set_node_id(NodeId(idx));
        let node_ref = Arc::new(node);
        self.meta.push(meta);
        node_ref
    }
}

impl Expr {
    /// Whether the expression ends in a block, so that no semicolon needs to follow it.
    pub open spec fn spec_has_block(&self) -> bool {
        match self {
            Expr::Block(_) | Expr::If(_) | Expr::Loop(_) | Expr::While(_) | Expr::For(_) => true,
            _ => false,
        }
    }

    pub fn has_block(&self) -> (r: bool)
        ensures
            r == self.spec_has_block(),
    {
        match self {
            Expr::Block(_) | Expr::If(_) | Expr::Loop(_) | Expr::While(_) | Expr::For(_) => true,
            _ => false,
        }
    }
}

impl Property {
    pub fn is_trait_property(&self) -> (r: bool)
        ensures
            r == (self.body is Trait),
    {
        match self.body {
            PropertyBody::Trait { .. } => true,
            _ => false,
        }
    }

    pub fn has_get(&self) -> (r: bool)
        ensures
            r == match self.body {
                PropertyBody::Assoc { get, .. } => get is Some,
                PropertyBody::Trait { has_get, .. } => has_get is Some,
            },
    {
        match &self.body {
            PropertyBody::Assoc { get, .. } => get.is_some(),
            PropertyBody::Trait { has_get, .. } => has_get.is_some(),
        }
    }

    pub fn has_ref_get(&self) -> (r: bool)
        ensures
            r == match self.body {
                PropertyBody::Assoc { ref_get, .. } => ref_get is Some,
                PropertyBody::Trait { has_ref_get, .. } => has_ref_get is Some,
            },
    {
        match &self.body {
            PropertyBody::Assoc { ref_get, .. } => ref_get.is_some(),
            PropertyBody::Trait { has_ref_get, .. } => has_ref_get.is_some(),
        }
    }

    pub fn has_mut_get(&self) -> (r: bool)
        ensures
            r == match self.body {
                PropertyBody::Assoc { mut_get, .. } => mut_get is Some,
                PropertyBody::Trait { has_mut_get, .. } => has_mut_get is Some,
            },
    {
        match &self.body {
            PropertyBody::Assoc { mut_get, .. } => mut_get.is_some(),
            PropertyBody::Trait { has_mut_get, .. } => has_mut_get.is_some(),
        }
    }

    pub fn has_set(&self) -> (r: bool)
        ensures
            r == match self.body {
                PropertyBody::Assoc { set, .. } => set is Some,
                PropertyBody::Trait { has_set, .. } => has_set is Some,
            },
    {
        match &self.body {
            PropertyBody::Assoc { set, .. } => set.is_some(),
            PropertyBody::Trait { has_set, .. } => has_set.is_some(),
        }
    }
}

} // verus!
