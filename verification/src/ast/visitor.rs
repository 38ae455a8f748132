//! Walking the AST: a trait with a method for each kind of node. The
//! functions in [`helpers`] visit the children of a node in order; an
//! implementation calls them from the methods whose children it walks.

use vstd::prelude::*;
use super::{
    AstNodeRef, AlternativePattern, ArrayExpr, ArrayType, AssocItem, Ast, Attribute, Bitfield, BitfieldField, Block, BlockExpr, BreakExpr, ClosureExpr, CommaExpr, Const, ContinueExpr, Contract, Defer, DistinctType, DoWhileExpr, EmptyStmt, Enum, EnumMemberPattern, EnumRecordType, EnumVariant, ErrDefer, Expr, ExprPath, ExprStmt, ExternBlock, ExternItem, FallthroughExpr, FieldAccessExpr, FnCallExpr, FnType, ForExpr, Function, GenericArgs, GenericConstParam, GenericConstSpec, GenericParamPack, GenericParams, GenericTypeParam, GenericTypeSpec, GroupedPattern, IdentifierPattern, IfExpr, Impl, IndexExpr, InfixExpr, InplaceExpr, Item, LetBindingExpr, LiteralExpr, LiteralPattern, LoopExpr, MatchExpr, Method, MethodCallExpr, ModuleItem, NeverType, OpTrait, OpUse, OpaqueType, OptionalType, ParenExpr, ParenthesizedType, PathExpr, PathPattern, PathType, Pattern, PointerType, PostfixExpr, Precedence, PrecedenceUse, PrefixExpr, PrimitiveType, Property, RangePattern, RecordType, ReferencePattern, ReferenceType, RegStructField, RestPattern, ReturnExpr, SimplePath, SlicePattern, SliceType, Static, Stmt, StringSliceType, Struct, StructExpr, StructPattern, ThrowExpr, Trait, TraitBounds, TraitConst, TraitFunction, TraitItem, TraitMethod, TraitProperty, TraitTypeAlias, TupleExpr, TupleIndexExpr, TuplePattern, TupleStructField, TupleType, Type, TypeAlias, TypeCastExpr, TypeCheckExpr, TypeCheckPattern, TypePath, UnderscoreExpr, Union, UnitExpr, UnitType, UseItem, UsePath, VarDecl, Visibility, WhenExpr, WhereClause, WhileExpr, WildcardPattern,
};

pub mod helpers;

use crate::parser::is_prefix;

verus! {

/// One call of a visitor's method, with the node it was called on.
pub enum VisitEvent {
    Ast(Ast),
    SimplePath(AstNodeRef<SimplePath>),
    ExprPath(AstNodeRef<ExprPath>),
    TypePath(AstNodeRef<TypePath>),
    Item(Item),
    TraitItem(TraitItem),
    AssocItem(AssocItem),
    ExternItem(ExternItem),
    Module(AstNodeRef<ModuleItem>),
    Use(AstNodeRef<UseItem>),
    UsePath(AstNodeRef<UsePath>),
    Function(AstNodeRef<Function>),
    Method(AstNodeRef<Method>),
    TypeAlias(AstNodeRef<TypeAlias>),
    DistinctType(AstNodeRef<DistinctType>),
    OpaqueType(AstNodeRef<OpaqueType>),
    Struct(AstNodeRef<Struct>),
    RegStructField(RegStructField),
    TupleStructField(TupleStructField),
    Union(AstNodeRef<Union>),
    Enum(AstNodeRef<Enum>),
    EnumVariant(EnumVariant),
    Bitfield(AstNodeRef<Bitfield>),
    BitfieldField(BitfieldField),
    Const(AstNodeRef<Const>),
    Static(AstNodeRef<Static>),
    Property(AstNodeRef<Property>),
    Trait(AstNodeRef<Trait>),
    TraitFunction(AstNodeRef<TraitFunction>),
    TraitMethod(AstNodeRef<TraitMethod>),
    TraitTypeAlias(AstNodeRef<TraitTypeAlias>),
    TraitConst(AstNodeRef<TraitConst>),
    TraitProperty(AstNodeRef<TraitProperty>),
    Impl(AstNodeRef<Impl>),
    ExternBlock(AstNodeRef<ExternBlock>),
    OpTrait(AstNodeRef<OpTrait>),
    OpUse(AstNodeRef<OpUse>),
    Precedence(AstNodeRef<Precedence>),
    PrecedenceUse(AstNodeRef<PrecedenceUse>),
    Block(AstNodeRef<Block>),
    Stmt(Stmt),
    EmptyStmt(AstNodeRef<EmptyStmt>),
    VarDecl(AstNodeRef<VarDecl>),
    Defer(AstNodeRef<Defer>),
    ErrDefer(AstNodeRef<ErrDefer>),
    ExprStmt(AstNodeRef<ExprStmt>),
    Expr(Expr),
    LiteralExpr(AstNodeRef<LiteralExpr>),
    PathExpr(AstNodeRef<PathExpr>),
    UnitExpr(AstNodeRef<UnitExpr>),
    BlockExpr(AstNodeRef<BlockExpr>),
    PrefixExpr(AstNodeRef<PrefixExpr>),
    PostfixExpr(AstNodeRef<PostfixExpr>),
    BinaryExpr(AstNodeRef<InfixExpr>),
    ParenExpr(AstNodeRef<ParenExpr>),
    InplaceExpr(AstNodeRef<InplaceExpr>),
    TypeCastExpr(AstNodeRef<TypeCastExpr>),
    TypeCheckExpr(AstNodeRef<TypeCheckExpr>),
    TupleExpr(AstNodeRef<TupleExpr>),
    ArrayExpr(AstNodeRef<ArrayExpr>),
    StructExpr(AstNodeRef<StructExpr>),
    IndexExpr(AstNodeRef<IndexExpr>),
    TupleIndexExpr(AstNodeRef<TupleIndexExpr>),
    FnCallExpr(AstNodeRef<FnCallExpr>),
    MethodCallExpr(AstNodeRef<MethodCallExpr>),
    FieldAccessExpr(AstNodeRef<FieldAccessExpr>),
    ClosureExpr(AstNodeRef<ClosureExpr>),
    LetBindingExpr(AstNodeRef<LetBindingExpr>),
    IfExpr(AstNodeRef<IfExpr>),
    LoopExpr(AstNodeRef<LoopExpr>),
    WhileExpr(AstNodeRef<WhileExpr>),
    DoWhileExpr(AstNodeRef<DoWhileExpr>),
    ForExpr(AstNodeRef<ForExpr>),
    MatchExpr(AstNodeRef<MatchExpr>),
    BreakExpr(AstNodeRef<BreakExpr>),
    ContinueExpr(AstNodeRef<ContinueExpr>),
    FallthroughExpr(AstNodeRef<FallthroughExpr>),
    ReturnExpr(AstNodeRef<ReturnExpr>),
    UnderscoreExpr(AstNodeRef<UnderscoreExpr>),
    ThrowExpr(AstNodeRef<ThrowExpr>),
    CommaExpr(AstNodeRef<CommaExpr>),
    WhenExpr(AstNodeRef<WhenExpr>),
    Pattern(Pattern),
    LiteralPattern(AstNodeRef<LiteralPattern>),
    IdentifierPattern(AstNodeRef<IdentifierPattern>),
    PathPattern(AstNodeRef<PathPattern>),
    WildcardPattern(AstNodeRef<WildcardPattern>),
    RestPattern(AstNodeRef<RestPattern>),
    RangePattern(AstNodeRef<RangePattern>),
    ReferencePattern(AstNodeRef<ReferencePattern>),
    StructPattern(AstNodeRef<StructPattern>),
    TuplePattern(AstNodeRef<TuplePattern>),
    GroupedPattern(AstNodeRef<GroupedPattern>),
    SlicePattern(AstNodeRef<SlicePattern>),
    EnumMemberPattern(AstNodeRef<EnumMemberPattern>),
    AlternativePattern(AstNodeRef<AlternativePattern>),
    TypeCheckPattern(AstNodeRef<TypeCheckPattern>),
    Type(Type),
    ParenType(AstNodeRef<ParenthesizedType>),
    PrimitiveType(AstNodeRef<PrimitiveType>),
    UnitType(AstNodeRef<UnitType>),
    NeverType(AstNodeRef<NeverType>),
    PathType(AstNodeRef<PathType>),
    TupleType(AstNodeRef<TupleType>),
    ArrayType(AstNodeRef<ArrayType>),
    SliceType(AstNodeRef<SliceType>),
    StringSliceType(AstNodeRef<StringSliceType>),
    PointerType(AstNodeRef<PointerType>),
    ReferenceType(AstNodeRef<ReferenceType>),
    OptionalType(AstNodeRef<OptionalType>),
    FnType(AstNodeRef<FnType>),
    RecordType(AstNodeRef<RecordType>),
    EnumRecordType(AstNodeRef<EnumRecordType>),
    Visibility(AstNodeRef<Visibility>),
    Attribute(AstNodeRef<Attribute>),
    Contract(AstNodeRef<Contract>),
    GenericParams(AstNodeRef<GenericParams>),
    GenericTypeParam(AstNodeRef<GenericTypeParam>),
    GenericTypeSpec(AstNodeRef<GenericTypeSpec>),
    GenericConstParam(AstNodeRef<GenericConstParam>),
    GenericConstSpec(AstNodeRef<GenericConstSpec>),
    GenericParamPack(AstNodeRef<GenericParamPack>),
    GenericArgs(AstNodeRef<GenericArgs>),
    WhereClause(AstNodeRef<WhereClause>),
    TraitBounds(AstNodeRef<TraitBounds>),
}

/// Something that walks an AST, one method for each kind of node. Each
/// method's call is the next entry of the visitor's trace, ahead of the calls
/// that it makes in turn.
pub trait Visitor {
    /// The calls of this visitor's methods so far, in order.
    spec fn trace(&self) -> Seq<VisitEvent>;

    fn visit(&mut self, ast: &Ast)
        ensures
            is_prefix(old(self).trace().push(VisitEvent::Ast(*ast)), final(self).trace()),
    ;

    fn visit_simple_path(&mut self, node: &AstNodeRef<SimplePath>)
        ensures
            is_prefix(old(self).trace().push(VisitEvent::SimplePath(*node)), final(self).trace()),
    ;

    fn visit_expr_path(&mut self, node: &AstNodeRef<ExprPath>)
        ensures
            is_prefix(old(self).trace().push(VisitEvent::ExprPath(*node)), final(self).trace()),
    ;

    fn visit_type_path(&mut self, node: &AstNodeRef<TypePath>)
        ensures
            is_prefix(old(self).trace().push(VisitEvent::TypePath(*node)), final(self).trace()),
    ;

    fn visit_item(&mut self, item: &Item)
        ensures
            is_prefix(old(self).trace().push(VisitEvent::Item(*item)), final(self).trace()),
    ;

    fn visit_trait_item(&mut self, item: &TraitItem)
        ensures
            is_prefix(old(self).trace().push(VisitEvent::TraitItem(*item)), final(self).trace()),
    ;

    fn visit_assoc_item(&mut self, item: &AssocItem)
        ensures
            is_prefix(old(self).trace().push(VisitEvent::AssocItem(*item)), final(self).trace()),
    ;

    fn visit_extern_item(&mut self, item: &ExternItem)
        ensures
            is_prefix(old(self).trace().push(VisitEvent::ExternItem(*item)), final(self).trace()),
    ;

    fn visit_module(&mut self, node: &AstNodeRef<ModuleItem>)
        ensures
            is_prefix(old(self).trace().push(VisitEvent::Module(*node)), final(self).trace()),
    ;

    fn visit_use(&mut self, node: &AstNodeRef<UseItem>)
        ensures
            is_prefix(old(self).trace().push(VisitEvent::Use(*node)), final(self).trace()),
    ;

    fn visit_use_path(&mut self, node: &AstNodeRef<UsePath>)
        ensures
            is_prefix(old(self).trace().push(VisitEvent::UsePath(*node)), final(self).trace()),
    ;

    fn visit_function(&mut self, node: &AstNodeRef<Function>)
        ensures
            is_prefix(old(self).trace().push(VisitEvent::Function(*node)), final(self).trace()),
    ;

    fn visit_method(&mut self, node: &AstNodeRef<Method>)
        ensures
            is_prefix(old(self).trace().push(VisitEvent::Method(*node)), final(self).trace()),
    ;

    fn visit_type_alias(&mut self, node: &AstNodeRef<TypeAlias>)
        ensures
            is_prefix(old(self).trace().push(VisitEvent::TypeAlias(*node)), final(self).trace()),
    ;

    fn visit_distinct_type(&mut self, node: &AstNodeRef<DistinctType>)
        ensures
            is_prefix(old(self).trace().push(VisitEvent::DistinctType(*node)), final(self).trace()),
    ;

    fn visit_opaque_type(&mut self, node: &AstNodeRef<OpaqueType>)
        ensures
            is_prefix(old(self).trace().push(VisitEvent::OpaqueType(*node)), final(self).trace()),
    ;

    fn visit_struct(&mut self, node: &AstNodeRef<Struct>)
        ensures
            is_prefix(old(self).trace().push(VisitEvent::Struct(*node)), final(self).trace()),
    ;

    fn visit_reg_struct_field(&mut self, field: &RegStructField)
        ensures
            is_prefix(old(self).trace().push(VisitEvent::RegStructField(*field)), final(self).trace()),
    ;

    fn visit_tuple_struct_field(&mut self, field: &TupleStructField)
        ensures
            is_prefix(old(self).trace().push(VisitEvent::TupleStructField(*field)), final(self).trace()),
    ;

    fn visit_union(&mut self, node: &AstNodeRef<Union>)
        ensures
            is_prefix(old(self).trace().push(VisitEvent::Union(*node)), final(self).trace()),
    ;

    fn visit_enum(&mut self, node: &AstNodeRef<Enum>)
        ensures
            is_prefix(old(self).trace().push(VisitEvent::Enum(*node)), final(self).trace()),
    ;

    fn visit_enum_variant(&mut self, variant: &EnumVariant)
        ensures
            is_prefix(old(self).trace().push(VisitEvent::EnumVariant(*variant)), final(self).trace()),
    ;

    fn visit_bitfield(&mut self, node: &AstNodeRef<Bitfield>)
        ensures
            is_prefix(old(self).trace().push(VisitEvent::Bitfield(*node)), final(self).trace()),
    ;

    fn visit_bitfield_field(&mut self, field: &BitfieldField)
        ensures
            is_prefix(old(self).trace().push(VisitEvent::BitfieldField(*field)), final(self).trace()),
    ;

    fn visit_const(&mut self, node: &AstNodeRef<Const>)
        ensures
            is_prefix(old(self).trace().push(VisitEvent::Const(*node)), final(self).trace()),
    ;

    fn visit_static(&mut self, node: &AstNodeRef<Static>)
        ensures
            is_prefix(old(self).trace().push(VisitEvent::Static(*node)), final(self).trace()),
    ;

    fn visit_property(&mut self, node: &AstNodeRef<Property>)
        ensures
            is_prefix(old(self).trace().push(VisitEvent::Property(*node)), final(self).trace()),
    ;

    fn visit_trait(&mut self, node: &AstNodeRef<Trait>)
        ensures
            is_prefix(old(self).trace().push(VisitEvent::Trait(*node)), final(self).trace()),
    ;

    fn visit_trait_function(&mut self, node: &AstNodeRef<TraitFunction>)
        ensures
            is_prefix(old(self).trace().push(VisitEvent::TraitFunction(*node)), final(self).trace()),
    ;

    fn visit_trait_method(&mut self, node: &AstNodeRef<TraitMethod>)
        ensures
            is_prefix(old(self).trace().push(VisitEvent::TraitMethod(*node)), final(self).trace()),
    ;

    fn visit_trait_type_alias(&mut self, node: &AstNodeRef<TraitTypeAlias>)
        ensures
            is_prefix(old(self).trace().push(VisitEvent::TraitTypeAlias(*node)), final(self).trace()),
    ;

    fn visit_trait_const(&mut self, node: &AstNodeRef<TraitConst>)
        ensures
            is_prefix(old(self).trace().push(VisitEvent::TraitConst(*node)), final(self).trace()),
    ;

    fn visit_trait_property(&mut self, node: &AstNodeRef<TraitProperty>)
        ensures
            is_prefix(old(self).trace().push(VisitEvent::TraitProperty(*node)), final(self).trace()),
    ;

    fn visit_impl(&mut self, node: &AstNodeRef<Impl>)
        ensures
            is_prefix(old(self).trace().push(VisitEvent::Impl(*node)), final(self).trace()),
    ;

    fn visit_extern_block(&mut self, node: &AstNodeRef<ExternBlock>)
        ensures
            is_prefix(old(self).trace().push(VisitEvent::ExternBlock(*node)), final(self).trace()),
    ;

    fn visit_op_trait(&mut self, node: &AstNodeRef<OpTrait>)
        ensures
            is_prefix(old(self).trace().push(VisitEvent::OpTrait(*node)), final(self).trace()),
    ;

    fn visit_op_use(&mut self, node: &AstNodeRef<OpUse>)
        ensures
            is_prefix(old(self).trace().push(VisitEvent::OpUse(*node)), final(self).trace()),
    ;

    fn visit_precedence(&mut self, node: &AstNodeRef<Precedence>)
        ensures
            is_prefix(old(self).trace().push(VisitEvent::Precedence(*node)), final(self).trace()),
    ;

    fn visit_precedence_use(&mut self, node: &AstNodeRef<PrecedenceUse>)
        ensures
            is_prefix(old(self).trace().push(VisitEvent::PrecedenceUse(*node)), final(self).trace()),
    ;

    fn visit_block(&mut self, node: &AstNodeRef<Block>)
        ensures
            is_prefix(old(self).trace().push(VisitEvent::Block(*node)), final(self).trace()),
    ;

    fn visit_stmt(&mut self, node: &Stmt)
        ensures
            is_prefix(old(self).trace().push(VisitEvent::Stmt(*node)), final(self).trace()),
    ;

    fn visit_empty_stmt(&mut self, node: &AstNodeRef<EmptyStmt>)
        ensures
            is_prefix(old(self).trace().push(VisitEvent::EmptyStmt(*node)), final(self).trace()),
    ;

    fn visit_var_decl(&mut self, node: &AstNodeRef<VarDecl>)
        ensures
            is_prefix(old(self).trace().push(VisitEvent::VarDecl(*node)), final(self).trace()),
    ;

    fn visit_defer(&mut self, node: &AstNodeRef<Defer>)
        ensures
            is_prefix(old(self).trace().push(VisitEvent::Defer(*node)), final(self).trace()),
    ;

    fn visit_err_defer(&mut self, node: &AstNodeRef<ErrDefer>)
        ensures
            is_prefix(old(self).trace().push(VisitEvent::ErrDefer(*node)), final(self).trace()),
    ;

    fn visit_expr_stmt(&mut self, node: &AstNodeRef<ExprStmt>)
        ensures
            is_prefix(old(self).trace().push(VisitEvent::ExprStmt(*node)), final(self).trace()),
    ;

    fn visit_expr(&mut self, node: &Expr)
        ensures
            is_prefix(old(self).trace().push(VisitEvent::Expr(*node)), final(self).trace()),
    ;

    fn visit_literal_expr(&mut self, node: &AstNodeRef<LiteralExpr>)
        ensures
            is_prefix(old(self).trace().push(VisitEvent::LiteralExpr(*node)), final(self).trace()),
    ;

    fn visit_path_expr(&mut self, node: &AstNodeRef<PathExpr>)
        ensures
            is_prefix(old(self).trace().push(VisitEvent::PathExpr(*node)), final(self).trace()),
    ;

    fn visit_unit_expr(&mut self, node: &AstNodeRef<UnitExpr>)
        ensures
            is_prefix(old(self).trace().push(VisitEvent::UnitExpr(*node)), final(self).trace()),
    ;

    fn visit_block_expr(&mut self, node: &AstNodeRef<BlockExpr>)
        ensures
            is_prefix(old(self).trace().push(VisitEvent::BlockExpr(*node)), final(self).trace()),
    ;

    fn visit_prefix_expr(&mut self, node: &AstNodeRef<PrefixExpr>)
        ensures
            is_prefix(old(self).trace().push(VisitEvent::PrefixExpr(*node)), final(self).trace()),
    ;

    fn visit_postfix_expr(&mut self, node: &AstNodeRef<PostfixExpr>)
        ensures
            is_prefix(old(self).trace().push(VisitEvent::PostfixExpr(*node)), final(self).trace()),
    ;

    fn visit_binary_expr(&mut self, node: &AstNodeRef<InfixExpr>)
        ensures
            is_prefix(old(self).trace().push(VisitEvent::BinaryExpr(*node)), final(self).trace()),
    ;

    fn visit_paren_expr(&mut self, node: &AstNodeRef<ParenExpr>)
        ensures
            is_prefix(old(self).trace().push(VisitEvent::ParenExpr(*node)), final(self).trace()),
    ;

    fn visit_inplace_expr(&mut self, node: &AstNodeRef<InplaceExpr>)
        ensures
            is_prefix(old(self).trace().push(VisitEvent::InplaceExpr(*node)), final(self).trace()),
    ;

    fn visit_type_cast_expr(&mut self, node: &AstNodeRef<TypeCastExpr>)
        ensures
            is_prefix(old(self).trace().push(VisitEvent::TypeCastExpr(*node)), final(self).trace()),
    ;

    fn visit_type_check_expr(&mut self, node: &AstNodeRef<TypeCheckExpr>)
        ensures
            is_prefix(old(self).trace().push(VisitEvent::TypeCheckExpr(*node)), final(self).trace()),
    ;

    fn visit_tuple_expr(&mut self, node: &AstNodeRef<TupleExpr>)
        ensures
            is_prefix(old(self).trace().push(VisitEvent::TupleExpr(*node)), final(self).trace()),
    ;

    fn visit_array_expr(&mut self, node: &AstNodeRef<ArrayExpr>)
        ensures
            is_prefix(old(self).trace().push(VisitEvent::ArrayExpr(*node)), final(self).trace()),
    ;

    fn visit_struct_expr(&mut self, node: &AstNodeRef<StructExpr>)
        ensures
            is_prefix(old(self).trace().push(VisitEvent::StructExpr(*node)), final(self).trace()),
    ;

    fn visit_index_expr(&mut self, node: &AstNodeRef<IndexExpr>)
        ensures
            is_prefix(old(self).trace().push(VisitEvent::IndexExpr(*node)), final(self).trace()),
    ;

    fn visit_tuple_index_expr(&mut self, node: &AstNodeRef<TupleIndexExpr>)
        ensures
            is_prefix(old(self).trace().push(VisitEvent::TupleIndexExpr(*node)), final(self).trace()),
    ;

    fn visit_fn_call_expr(&mut self, node: &AstNodeRef<FnCallExpr>)
        ensures
            is_prefix(old(self).trace().push(VisitEvent::FnCallExpr(*node)), final(self).trace()),
    ;

    fn visit_method_call_expr(&mut self, node: &AstNodeRef<MethodCallExpr>)
        ensures
            is_prefix(old(self).trace().push(VisitEvent::MethodCallExpr(*node)), final(self).trace()),
    ;

    fn visit_field_access_expr(&mut self, node: &AstNodeRef<FieldAccessExpr>)
        ensures
            is_prefix(old(self).trace().push(VisitEvent::FieldAccessExpr(*node)), final(self).trace()),
    ;

    fn visit_closure_expr(&mut self, node: &AstNodeRef<ClosureExpr>)
        ensures
            is_prefix(old(self).trace().push(VisitEvent::ClosureExpr(*node)), final(self).trace()),
    ;

    fn visit_let_binding_expr(&mut self, node: &AstNodeRef<LetBindingExpr>)
        ensures
            is_prefix(old(self).trace().push(VisitEvent::LetBindingExpr(*node)), final(self).trace()),
    ;

    fn visit_if_expr(&mut self, node: &AstNodeRef<IfExpr>)
        ensures
            is_prefix(old(self).trace().push(VisitEvent::IfExpr(*node)), final(self).trace()),
    ;

    fn visit_loop_expr(&mut self, node: &AstNodeRef<LoopExpr>)
        ensures
            is_prefix(old(self).trace().push(VisitEvent::LoopExpr(*node)), final(self).trace()),
    ;

    fn visit_while_expr(&mut self, node: &AstNodeRef<WhileExpr>)
        ensures
            is_prefix(old(self).trace().push(VisitEvent::WhileExpr(*node)), final(self).trace()),
    ;

    fn visit_do_while_expr(&mut self, node: &AstNodeRef<DoWhileExpr>)
        ensures
            is_prefix(old(self).trace().push(VisitEvent::DoWhileExpr(*node)), final(self).trace()),
    ;

    fn visit_for_expr(&mut self, node: &AstNodeRef<ForExpr>)
        ensures
            is_prefix(old(self).trace().push(VisitEvent::ForExpr(*node)), final(self).trace()),
    ;

    fn visit_match_expr(&mut self, node: &AstNodeRef<MatchExpr>)
        ensures
            is_prefix(old(self).trace().push(VisitEvent::MatchExpr(*node)), final(self).trace()),
    ;

    fn visit_break_expr(&mut self, node: &AstNodeRef<BreakExpr>)
        ensures
            is_prefix(old(self).trace().push(VisitEvent::BreakExpr(*node)), final(self).trace()),
    ;

    fn visit_continue_expr(&mut self, node: &AstNodeRef<ContinueExpr>)
        ensures
            is_prefix(old(self).trace().push(VisitEvent::ContinueExpr(*node)), final(self).trace()),
    ;

    fn visit_fallthrough_expr(&mut self, node: &AstNodeRef<FallthroughExpr>)
        ensures
            is_prefix(old(self).trace().push(VisitEvent::FallthroughExpr(*node)), final(self).trace()),
    ;

    fn visit_return_expr(&mut self, node: &AstNodeRef<ReturnExpr>)
        ensures
            is_prefix(old(self).trace().push(VisitEvent::ReturnExpr(*node)), final(self).trace()),
    ;

    fn visit_underscore_expr(&mut self, node: &AstNodeRef<UnderscoreExpr>)
        ensures
            is_prefix(old(self).trace().push(VisitEvent::UnderscoreExpr(*node)), final(self).trace()),
    ;

    fn visit_throw_expr(&mut self, node: &AstNodeRef<ThrowExpr>)
        ensures
            is_prefix(old(self).trace().push(VisitEvent::ThrowExpr(*node)), final(self).trace()),
    ;

    fn visit_comma_expr(&mut self, node: &AstNodeRef<CommaExpr>)
        ensures
            is_prefix(old(self).trace().push(VisitEvent::CommaExpr(*node)), final(self).trace()),
    ;

    fn visit_when_expr(&mut self, node: &AstNodeRef<WhenExpr>)
        ensures
            is_prefix(old(self).trace().push(VisitEvent::WhenExpr(*node)), final(self).trace()),
    ;

    fn visit_pattern(&mut self, node: &Pattern)
        ensures
            is_prefix(old(self).trace().push(VisitEvent::Pattern(*node)), final(self).trace()),
    ;

    fn visit_literal_pattern(&mut self, node: &AstNodeRef<LiteralPattern>)
        ensures
            is_prefix(old(self).trace().push(VisitEvent::LiteralPattern(*node)), final(self).trace()),
    ;

    fn visit_identifier_pattern(&mut self, node: &AstNodeRef<IdentifierPattern>)
        ensures
            is_prefix(old(self).trace().push(VisitEvent::IdentifierPattern(*node)), final(self).trace()),
    ;

    fn visit_path_pattern(&mut self, node: &AstNodeRef<PathPattern>)
        ensures
            is_prefix(old(self).trace().push(VisitEvent::PathPattern(*node)), final(self).trace()),
    ;

    fn visit_wildcard_pattern(&mut self, node: &AstNodeRef<WildcardPattern>)
        ensures
            is_prefix(old(self).trace().push(VisitEvent::WildcardPattern(*node)), final(self).trace()),
    ;

    fn visit_rest_pattern(&mut self, node: &AstNodeRef<RestPattern>)
        ensures
            is_prefix(old(self).trace().push(VisitEvent::RestPattern(*node)), final(self).trace()),
    ;

    fn visit_range_pattern(&mut self, node: &AstNodeRef<RangePattern>)
        ensures
            is_prefix(old(self).trace().push(VisitEvent::RangePattern(*node)), final(self).trace()),
    ;

    fn visit_reference_pattern(&mut self, node: &AstNodeRef<ReferencePattern>)
        ensures
            is_prefix(old(self).trace().push(VisitEvent::ReferencePattern(*node)), final(self).trace()),
    ;

    fn visit_struct_pattern(&mut self, node: &AstNodeRef<StructPattern>)
        ensures
            is_prefix(old(self).trace().push(VisitEvent::StructPattern(*node)), final(self).trace()),
    ;

    fn visit_tuple_pattern(&mut self, node: &AstNodeRef<TuplePattern>)
        ensures
            is_prefix(old(self).trace().push(VisitEvent::TuplePattern(*node)), final(self).trace()),
    ;

    fn visit_grouped_pattern(&mut self, node: &AstNodeRef<GroupedPattern>)
        ensures
            is_prefix(old(self).trace().push(VisitEvent::GroupedPattern(*node)), final(self).trace()),
    ;

    fn visit_slice_pattern(&mut self, node: &AstNodeRef<SlicePattern>)
        ensures
            is_prefix(old(self).trace().push(VisitEvent::SlicePattern(*node)), final(self).trace()),
    ;

    fn visit_enum_member_pattern(&mut self, node: &AstNodeRef<EnumMemberPattern>)
        ensures
            is_prefix(old(self).trace().push(VisitEvent::EnumMemberPattern(*node)), final(self).trace()),
    ;

    fn visit_alternative_pattern(&mut self, node: &AstNodeRef<AlternativePattern>)
        ensures
            is_prefix(old(self).trace().push(VisitEvent::AlternativePattern(*node)), final(self).trace()),
    ;

    fn visit_type_check_pattern(&mut self, node: &AstNodeRef<TypeCheckPattern>)
        ensures
            is_prefix(old(self).trace().push(VisitEvent::TypeCheckPattern(*node)), final(self).trace()),
    ;

    fn visit_type(&mut self, node: &Type)
        ensures
            is_prefix(old(self).trace().push(VisitEvent::Type(*node)), final(self).trace()),
    ;

    fn visit_paren_type(&mut self, node: &AstNodeRef<ParenthesizedType>)
        ensures
            is_prefix(old(self).trace().push(VisitEvent::ParenType(*node)), final(self).trace()),
    ;

    fn visit_primitive_type(&mut self, node: &AstNodeRef<PrimitiveType>)
        ensures
            is_prefix(old(self).trace().push(VisitEvent::PrimitiveType(*node)), final(self).trace()),
    ;

    fn visit_unit_type(&mut self, node: &AstNodeRef<UnitType>)
        ensures
            is_prefix(old(self).trace().push(VisitEvent::UnitType(*node)), final(self).trace()),
    ;

    fn visit_never_type(&mut self, node: &AstNodeRef<NeverType>)
        ensures
            is_prefix(old(self).trace().push(VisitEvent::NeverType(*node)), final(self).trace()),
    ;

    fn visit_path_type(&mut self, node: &AstNodeRef<PathType>)
        ensures
            is_prefix(old(self).trace().push(VisitEvent::PathType(*node)), final(self).trace()),
    ;

    fn visit_tuple_type(&mut self, node: &AstNodeRef<TupleType>)
        ensures
            is_prefix(old(self).trace().push(VisitEvent::TupleType(*node)), final(self).trace()),
    ;

    fn visit_array_type(&mut self, node: &AstNodeRef<ArrayType>)
        ensures
            is_prefix(old(self).trace().push(VisitEvent::ArrayType(*node)), final(self).trace()),
    ;

    fn visit_slice_type(&mut self, node: &AstNodeRef<SliceType>)
        ensures
            is_prefix(old(self).trace().push(VisitEvent::SliceType(*node)), final(self).trace()),
    ;

    fn visit_string_slice_type(&mut self, node: &AstNodeRef<StringSliceType>)
        ensures
            is_prefix(old(self).trace().push(VisitEvent::StringSliceType(*node)), final(self).trace()),
    ;

    fn visit_pointer_type(&mut self, node: &AstNodeRef<PointerType>)
        ensures
            is_prefix(old(self).trace().push(VisitEvent::PointerType(*node)), final(self).trace()),
    ;

    fn visit_reference_type(&mut self, node: &AstNodeRef<ReferenceType>)
        ensures
            is_prefix(old(self).trace().push(VisitEvent::ReferenceType(*node)), final(self).trace()),
    ;

    fn visit_optional_type(&mut self, node: &AstNodeRef<OptionalType>)
        ensures
            is_prefix(old(self).trace().push(VisitEvent::OptionalType(*node)), final(self).trace()),
    ;

    fn visit_fn_type(&mut self, node: &AstNodeRef<FnType>)
        ensures
            is_prefix(old(self).trace().push(VisitEvent::FnType(*node)), final(self).trace()),
    ;

    fn visit_record_type(&mut self, node: &AstNodeRef<RecordType>)
        ensures
            is_prefix(old(self).trace().push(VisitEvent::RecordType(*node)), final(self).trace()),
    ;

    fn visit_enum_record_type(&mut self, node: &AstNodeRef<EnumRecordType>)
        ensures
            is_prefix(old(self).trace().push(VisitEvent::EnumRecordType(*node)), final(self).trace()),
    ;

    fn visit_visibility(&mut self, node: &AstNodeRef<Visibility>)
        ensures
            is_prefix(old(self).trace().push(VisitEvent::Visibility(*node)), final(self).trace()),
    ;

    fn visit_attribute(&mut self, node: &AstNodeRef<Attribute>)
        ensures
            is_prefix(old(self).trace().push(VisitEvent::Attribute(*node)), final(self).trace()),
    ;

    fn visit_contract(&mut self, node: &AstNodeRef<Contract>)
        ensures
            is_prefix(old(self).trace().push(VisitEvent::Contract(*node)), final(self).trace()),
    ;

    fn visit_generic_params(&mut self, node: &AstNodeRef<GenericParams>)
        ensures
            is_prefix(old(self).trace().push(VisitEvent::GenericParams(*node)), final(self).trace()),
    ;

    fn visit_generic_type_param(&mut self, node: &AstNodeRef<GenericTypeParam>)
        ensures
            is_prefix(old(self).trace().push(VisitEvent::GenericTypeParam(*node)), final(self).trace()),
    ;

    fn visit_generic_type_spec(&mut self, node: &AstNodeRef<GenericTypeSpec>)
        ensures
            is_prefix(old(self).trace().push(VisitEvent::GenericTypeSpec(*node)), final(self).trace()),
    ;

    fn visit_generic_const_param(&mut self, node: &AstNodeRef<GenericConstParam>)
        ensures
            is_prefix(old(self).trace().push(VisitEvent::GenericConstParam(*node)), final(self).trace()),
    ;

    fn visit_generic_const_spec(&mut self, node: &AstNodeRef<GenericConstSpec>)
        ensures
            is_prefix(old(self).trace().push(VisitEvent::GenericConstSpec(*node)), final(self).trace()),
    ;

    fn visit_generic_param_pack(&mut self, node: &AstNodeRef<GenericParamPack>)
        ensures
            is_prefix(old(self).trace().push(VisitEvent::GenericParamPack(*node)), final(self).trace()),
    ;

    fn visit_generic_args(&mut self, node: &AstNodeRef<GenericArgs>)
        ensures
            is_prefix(old(self).trace().push(VisitEvent::GenericArgs(*node)), final(self).trace()),
    ;

    fn visit_where_clause(&mut self, node: &AstNodeRef<WhereClause>)
        ensures
            is_prefix(old(self).trace().push(VisitEvent::WhereClause(*node)), final(self).trace()),
    ;

    fn visit_trait_bounds(&mut self, node: &AstNodeRef<TraitBounds>)
        ensures
            is_prefix(old(self).trace().push(VisitEvent::TraitBounds(*node)), final(self).trace()),
    ;
}


/// `pos` places `events`, in order, at strictly increasing positions of
/// `after` from `start` on.
pub open spec fn positions_of(start: int, after: Seq<VisitEvent>, events: Seq<VisitEvent>, pos: Seq<int>) -> bool {
    &&& pos.len() == events.len()
    &&& forall|i: int| 0 <= i < pos.len() ==> start <= #[trigger] pos[i] < after.len() && after[pos[i]] == events[i]
    &&& forall|i: int, j: int| 0 <= i < j < pos.len() ==> #[trigger] pos[i] < #[trigger] pos[j]
}

/// A walk from a visitor whose trace was `before` to one whose trace is
/// `after`: the trace is only extended, and the calls `events` are among the
/// new entries, in this order.
pub open spec fn visits_in_order(before: Seq<VisitEvent>, after: Seq<VisitEvent>, events: Seq<VisitEvent>) -> bool {
    &&& is_prefix(before, after)
    &&& exists|pos: Seq<int>| #[trigger] positions_of(before.len() as int, after, events, pos)
}

/// A walk that calls nothing.
pub proof fn lemma_visits_none(t: Seq<VisitEvent>)
    ensures
        visits_in_order(t, t, Seq::empty()),
{
    assert(positions_of(t.len() as int, t, Seq::empty(), Seq::empty()));
}

/// A walk followed by one more call.
pub proof fn lemma_visits_step(t0: Seq<VisitEvent>, t1: Seq<VisitEvent>, t2: Seq<VisitEvent>, done: Seq<VisitEvent>, e: VisitEvent)
    requires
        visits_in_order(t0, t1, done),
        is_prefix(t1.push(e), t2),
    ensures
        visits_in_order(t0, t2, done.push(e)),
{
    let pos = choose|pos: Seq<int>| #[trigger] positions_of(t0.len() as int, t1, done, pos);
    let npos = pos.push(t1.len() as int);
    assert(t2[t1.len() as int] == t1.push(e)[t1.len() as int]);
    assert forall|i: int| 0 <= i < npos.len() implies t0.len() <= #[trigger] npos[i] < t2.len() && t2[npos[i]] == done.push(e)[i] by {
        if i < pos.len() {
            assert(npos[i] == pos[i]);
            assert(t1.push(e)[pos[i]] == t1[pos[i]]);
        }
    }
    assert forall|i: int, j: int| 0 <= i < j < npos.len() implies #[trigger] npos[i] < #[trigger] npos[j] by {
        if j < pos.len() {
            assert(npos[i] == pos[i] && npos[j] == pos[j]);
        } else {
            assert(npos[i] == pos[i]);
        }
    }
    assert(positions_of(t0.len() as int, t2, done.push(e), npos));
    assert forall|i: int| 0 <= i < t0.len() implies #[trigger] t0[i] == t2[i] by {
        assert(t0[i] == t1[i]);
        assert(t1.push(e)[i] == t1[i]);
    }
}

/// Two walks, one after the other.
pub proof fn lemma_visits_concat(t0: Seq<VisitEvent>, t1: Seq<VisitEvent>, t2: Seq<VisitEvent>, a: Seq<VisitEvent>, b: Seq<VisitEvent>)
    requires
        visits_in_order(t0, t1, a),
        visits_in_order(t1, t2, b),
    ensures
        visits_in_order(t0, t2, a + b),
{
    let pa = choose|pos: Seq<int>| #[trigger] positions_of(t0.len() as int, t1, a, pos);
    let pb = choose|pos: Seq<int>| #[trigger] positions_of(t1.len() as int, t2, b, pos);
    let p = pa + pb;
    assert forall|i: int| 0 <= i < p.len() implies t0.len() <= #[trigger] p[i] < t2.len() && t2[p[i]] == (a + b)[i] by {
        if i < pa.len() {
            assert(p[i] == pa[i]);
            assert(t1[pa[i]] == t2[pa[i]]);
        } else {
            assert(p[i] == pb[i - pa.len()]);
        }
    }
    assert forall|i: int, j: int| 0 <= i < j < p.len() implies #[trigger] p[i] < #[trigger] p[j] by {
        if j < pa.len() {
            assert(p[i] == pa[i] && p[j] == pa[j]);
        } else if i < pa.len() {
            assert(p[i] == pa[i] && p[j] == pb[j - pa.len()]);
        } else {
            assert(p[i] == pb[i - pa.len()] && p[j] == pb[j - pa.len()]);
        }
    }
    assert(positions_of(t0.len() as int, t2, a + b, p));
    assert forall|i: int| 0 <= i < t0.len() implies #[trigger] t0[i] == t2[i] by {
        assert(t0[i] == t1[i]);
    }
}


/// The call `f(x)` where `o` holds `x`, and none where it is empty.
pub open spec fn opt_visit<A>(o: Option<A>, f: spec_fn(A) -> VisitEvent) -> Seq<VisitEvent> {
    match o {
        Some(x) => seq![f(x)],
        None => Seq::empty(),
    }
}


/// The calls `f(x)` for each `x` of `items`, one after the other.
pub open spec fn visits_each<A>(items: Seq<A>, f: spec_fn(A) -> Seq<VisitEvent>) -> Seq<VisitEvent>
    decreases items.len(),
{
    if items.len() == 0 {
        Seq::empty()
    } else {
        visits_each(items.drop_last(), f) + f(items.last())
    }
}

/// No items, no calls.
pub proof fn lemma_visits_each_start<A>(items: Seq<A>, f: spec_fn(A) -> Seq<VisitEvent>)
    ensures
        visits_each(items.take(0), f) == Seq::<VisitEvent>::empty(),
{
    assert(items.take(0).len() == 0);
}

/// One more item: its calls come after those of the items before it.
pub proof fn lemma_visits_each_step<A>(items: Seq<A>, f: spec_fn(A) -> Seq<VisitEvent>, i: int)
    requires
        0 <= i < items.len(),
    ensures
        visits_each(items.take(i + 1), f) == visits_each(items.take(i), f) + f(items[i]),
{
    assert(items.take(i + 1).drop_last() =~= items.take(i));
    assert(items.take(i + 1).last() == items[i]);
}

/// All the items.
pub proof fn lemma_visits_each_all<A>(items: Seq<A>, f: spec_fn(A) -> Seq<VisitEvent>)
    ensures
        visits_each(items.take(items.len() as int), f) == visits_each(items, f),
{
    assert(items.take(items.len() as int) =~= items);
}

} // verus!
