//! The default walk of each kind of node: its children, in source order.

use vstd::prelude::*;
use crate::ast::{
    AlternativePattern, ArrayExpr, ArrayType, AssocItem, Ast, AstNodeRef, AttribMeta, Attribute, Bitfield,
    BitfieldField, Block, BlockExpr, BreakExpr, ClosureExpr, CommaExpr, Const, Contract, Defer, DistinctType,
    DoWhileExpr, Enum, EnumRecordType, EnumVariant, ErrDefer, Expr, ExprPath, ExprStmt, ExternBlock,
    ExternItem, FieldAccessExpr, FnArg, FnCallExpr, FnParam, FnParamName, FnReceiver, FnReturn, FnType, ForExpr, Function,
    GenericArg, GenericArgs, GenericConstParam, GenericConstSpec, GenericParam, GenericParamPack,
    GenericParamPackDesc, GenericParams, GenericTypeBound, GenericTypeParam, GenericTypeSpec, GroupedPattern,
    Identifier, IdentifierPattern, IfExpr, MatchBranch, UnionField, FlagEnumVariant, Impl, IndexExpr, InfixExpr, InplaceExpr, Item, LetBindingExpr, LoopExpr,
    MatchExpr, Method, MethodCallExpr, ModuleItem, OpElem, OpTrait, OpaqueType, OptionalType, ParenExpr,
    ParenthesizedType, PathExpr, PathPattern, PathType, Pattern, PointerType, PostfixExpr, Precedence,
    PrefixExpr, Property, PropertyBody, RangePattern, RecordType, ReferencePattern, ReferenceType,
    RegStructField, ReturnExpr, SlicePattern, SliceType, Static, Stmt, Struct, StructArg, StructExpr,
    StructPattern, StructPatternField, ThrowExpr, Trait, TraitBounds, TraitConst, TraitFunction, TraitItem,
    TraitMethod, TraitProperty, TraitTypeAlias, TupleExpr, TupleIndexExpr, TuplePattern, TupleStructField,
    TupleType, Type, TypeAlias, TypeCastExpr, TypeCheckExpr, TypeCheckPattern, TypePath, Union, UseItem,
    UsePath, VarDecl, Visibility, WhenExpr, WhereBound, WhereClause, WhileExpr,
};
use crate::common::{NameId, SpanId};
use super::{Visitor, VisitEvent, visits_in_order, visits_each, opt_visit, lemma_visits_none, lemma_visits_step, lemma_visits_concat, lemma_visits_each_start, lemma_visits_each_step, lemma_visits_each_all};

verus! {

pub fn visit<T: Visitor>(visitor: &mut T, ast: &Ast)
    ensures
        visits_in_order(old(visitor).trace(), final(visitor).trace(), ast.items@.map_values(|x| VisitEvent::Item(x))),
{
    let ghost t0 = visitor.trace();
    proof { lemma_visits_none(t0); }
    let items = &ast.items;
    assert(items@.take(0).map_values(|x| VisitEvent::Item(x)) =~= Seq::<VisitEvent>::empty());
    let mut i: usize = 0;
    while i < items.len()
        invariant
            i <= items@.len(),
            items@ == ast.items@,
            visits_in_order(t0, visitor.trace(), items@.take(i as int).map_values(|x| VisitEvent::Item(x))),
        decreases items@.len() - i,
    {
        let ghost t = visitor.trace();
        visitor.visit_item(&items[i]);
        proof {
            lemma_visits_step(t0, t, visitor.trace(), items@.take(i as int).map_values(|x| VisitEvent::Item(x)), VisitEvent::Item(items@[i as int]));
            assert(items@.take(i as int + 1).map_values(|x| VisitEvent::Item(x)) =~= items@.take(i as int).map_values(|x| VisitEvent::Item(x)).push(VisitEvent::Item(items@[i as int])));
        }
        i = i + 1;
    }
    assert(items@.take(items@.len() as int) =~= items@);
}

/// The calls that the walk makes for one item.
pub open spec fn ident_visits(iden: Identifier) -> Seq<VisitEvent> {
    opt_visit(iden.gen_args, |x| VisitEvent::GenericArgs(x))
}

pub fn visit_expr_path<T: Visitor>(visitor: &mut T, node: &AstNodeRef<ExprPath>)
    ensures
        visits_in_order(old(visitor).trace(), final(visitor).trace(), visits_each(node.idens@, |x: Identifier| ident_visits(x))),
{
    let ghost t0 = visitor.trace();
    proof { lemma_visits_none(t0); }
    let ghost mut done: Seq<VisitEvent> = Seq::empty();
    let idens = &node.idens;
    let ghost before = done;
    proof { lemma_visits_each_start(idens@, |x: Identifier| ident_visits(x)); }
    assert(before + Seq::<VisitEvent>::empty() =~= before);
    let mut j: usize = 0;
    while j < idens.len()
        invariant
            j <= idens@.len(),
            visits_in_order(t0, visitor.trace(), before + visits_each(idens@.take(j as int), |x: Identifier| ident_visits(x))),
        decreases idens@.len() - j,
    {
        let iden = &idens[j];
        proof { done = before + visits_each(idens@.take(j as int), |x: Identifier| ident_visits(x)); }
        if let Some(gen_args) = &iden.gen_args {
            let ghost t = visitor.trace();
            visitor.visit_generic_args(gen_args);
            proof { lemma_visits_step(t0, t, visitor.trace(), done, VisitEvent::GenericArgs(*gen_args)); done = done.push(VisitEvent::GenericArgs(*gen_args)); }
        }
        proof {
            lemma_visits_each_step(idens@, |x: Identifier| ident_visits(x), j as int);
            assert(done =~= before + visits_each(idens@.take(j as int + 1), |x: Identifier| ident_visits(x)));
        }
        j = j + 1;
    }
    proof { lemma_visits_each_all(idens@, |x: Identifier| ident_visits(x)); done = before + visits_each(idens@, |x: Identifier| ident_visits(x)); }
    assert(done =~= visits_each(node.idens@, |x: Identifier| ident_visits(x)));
}

pub fn visit_type_path<T: Visitor>(visitor: &mut T, node: &AstNodeRef<TypePath>)
    ensures
        visits_in_order(old(visitor).trace(), final(visitor).trace(), visits_each(node.idens@, |x: Identifier| ident_visits(x))),
{
    let ghost t0 = visitor.trace();
    proof { lemma_visits_none(t0); }
    let ghost mut done: Seq<VisitEvent> = Seq::empty();
    let idens = &node.idens;
    let ghost before = done;
    proof { lemma_visits_each_start(idens@, |x: Identifier| ident_visits(x)); }
    assert(before + Seq::<VisitEvent>::empty() =~= before);
    let mut j: usize = 0;
    while j < idens.len()
        invariant
            j <= idens@.len(),
            visits_in_order(t0, visitor.trace(), before + visits_each(idens@.take(j as int), |x: Identifier| ident_visits(x))),
        decreases idens@.len() - j,
    {
        let iden = &idens[j];
        proof { done = before + visits_each(idens@.take(j as int), |x: Identifier| ident_visits(x)); }
        if let Some(gen_args) = &iden.gen_args {
            let ghost t = visitor.trace();
            visitor.visit_generic_args(gen_args);
            proof { lemma_visits_step(t0, t, visitor.trace(), done, VisitEvent::GenericArgs(*gen_args)); done = done.push(VisitEvent::GenericArgs(*gen_args)); }
        }
        proof {
            lemma_visits_each_step(idens@, |x: Identifier| ident_visits(x), j as int);
            assert(done =~= before + visits_each(idens@.take(j as int + 1), |x: Identifier| ident_visits(x)));
        }
        j = j + 1;
    }
    proof { lemma_visits_each_all(idens@, |x: Identifier| ident_visits(x)); done = before + visits_each(idens@, |x: Identifier| ident_visits(x)); }
    assert(done =~= visits_each(node.idens@, |x: Identifier| ident_visits(x)));
}

// =============================================================================================================================

pub fn visit_item<T: Visitor>(visitor: &mut T, item: &Item)
    ensures
        visits_in_order(old(visitor).trace(), final(visitor).trace(), seq![match *item {
            Item::Module(n) => VisitEvent::Module(n),
            Item::Use(n) => VisitEvent::Use(n),
            Item::Function(n) => VisitEvent::Function(n),
            Item::TypeAlias(n) => VisitEvent::TypeAlias(n),
            Item::DistinctType(n) => VisitEvent::DistinctType(n),
            Item::OpaqueType(n) => VisitEvent::OpaqueType(n),
            Item::Struct(n) => VisitEvent::Struct(n),
            Item::Union(n) => VisitEvent::Union(n),
            Item::Enum(n) => VisitEvent::Enum(n),
            Item::Bitfield(n) => VisitEvent::Bitfield(n),
            Item::Const(n) => VisitEvent::Const(n),
            Item::Static(n) => VisitEvent::Static(n),
            Item::Trait(n) => VisitEvent::Trait(n),
            Item::Impl(n) => VisitEvent::Impl(n),
            Item::Extern(n) => VisitEvent::ExternBlock(n),
            Item::OpTrait(n) => VisitEvent::OpTrait(n),
            Item::OpUse(n) => VisitEvent::OpUse(n),
            Item::Precedence(n) => VisitEvent::Precedence(n),
            Item::PrecedenceUse(n) => VisitEvent::PrecedenceUse(n),
        }]),
{
    let ghost t0 = visitor.trace();
    proof { lemma_visits_none(t0); }
    match item {
        Item::Module(n) => {
            visitor.visit_module(n);
            proof { lemma_visits_step(t0, t0, visitor.trace(), Seq::empty(), VisitEvent::Module(*n)); }
        },
        Item::Use(n) => {
            visitor.visit_use(n);
            proof { lemma_visits_step(t0, t0, visitor.trace(), Seq::empty(), VisitEvent::Use(*n)); }
        },
        Item::Function(n) => {
            visitor.visit_function(n);
            proof { lemma_visits_step(t0, t0, visitor.trace(), Seq::empty(), VisitEvent::Function(*n)); }
        },
        Item::TypeAlias(n) => {
            visitor.visit_type_alias(n);
            proof { lemma_visits_step(t0, t0, visitor.trace(), Seq::empty(), VisitEvent::TypeAlias(*n)); }
        },
        Item::DistinctType(n) => {
            visitor.visit_distinct_type(n);
            proof { lemma_visits_step(t0, t0, visitor.trace(), Seq::empty(), VisitEvent::DistinctType(*n)); }
        },
        Item::OpaqueType(n) => {
            visitor.visit_opaque_type(n);
            proof { lemma_visits_step(t0, t0, visitor.trace(), Seq::empty(), VisitEvent::OpaqueType(*n)); }
        },
        Item::Struct(n) => {
            visitor.visit_struct(n);
            proof { lemma_visits_step(t0, t0, visitor.trace(), Seq::empty(), VisitEvent::Struct(*n)); }
        },
        Item::Union(n) => {
            visitor.visit_union(n);
            proof { lemma_visits_step(t0, t0, visitor.trace(), Seq::empty(), VisitEvent::Union(*n)); }
        },
        Item::Enum(n) => {
            visitor.visit_enum(n);
            proof { lemma_visits_step(t0, t0, visitor.trace(), Seq::empty(), VisitEvent::Enum(*n)); }
        },
        Item::Bitfield(n) => {
            visitor.visit_bitfield(n);
            proof { lemma_visits_step(t0, t0, visitor.trace(), Seq::empty(), VisitEvent::Bitfield(*n)); }
        },
        Item::Const(n) => {
            visitor.visit_const(n);
            proof { lemma_visits_step(t0, t0, visitor.trace(), Seq::empty(), VisitEvent::Const(*n)); }
        },
        Item::Static(n) => {
            visitor.visit_static(n);
            proof { lemma_visits_step(t0, t0, visitor.trace(), Seq::empty(), VisitEvent::Static(*n)); }
        },
        Item::Trait(n) => {
            visitor.visit_trait(n);
            proof { lemma_visits_step(t0, t0, visitor.trace(), Seq::empty(), VisitEvent::Trait(*n)); }
        },
        Item::Impl(n) => {
            visitor.visit_impl(n);
            proof { lemma_visits_step(t0, t0, visitor.trace(), Seq::empty(), VisitEvent::Impl(*n)); }
        },
        Item::Extern(n) => {
            visitor.visit_extern_block(n);
            proof { lemma_visits_step(t0, t0, visitor.trace(), Seq::empty(), VisitEvent::ExternBlock(*n)); }
        },
        Item::OpTrait(n) => {
            visitor.visit_op_trait(n);
            proof { lemma_visits_step(t0, t0, visitor.trace(), Seq::empty(), VisitEvent::OpTrait(*n)); }
        },
        Item::OpUse(n) => {
            visitor.visit_op_use(n);
            proof { lemma_visits_step(t0, t0, visitor.trace(), Seq::empty(), VisitEvent::OpUse(*n)); }
        },
        Item::Precedence(n) => {
            visitor.visit_precedence(n);
            proof { lemma_visits_step(t0, t0, visitor.trace(), Seq::empty(), VisitEvent::Precedence(*n)); }
        },
        Item::PrecedenceUse(n) => {
            visitor.visit_precedence_use(n);
            proof { lemma_visits_step(t0, t0, visitor.trace(), Seq::empty(), VisitEvent::PrecedenceUse(*n)); }
        },
    }
}

pub fn visit_trait_item<T: Visitor>(visitor: &mut T, item: &TraitItem)
    ensures
        visits_in_order(old(visitor).trace(), final(visitor).trace(), seq![match *item {
            TraitItem::Function(n) => VisitEvent::TraitFunction(n),
            TraitItem::Method(n) => VisitEvent::TraitMethod(n),
            TraitItem::TypeAlias(n) => VisitEvent::TraitTypeAlias(n),
            TraitItem::Const(n) => VisitEvent::TraitConst(n),
            TraitItem::Property(n) => VisitEvent::TraitProperty(n),
        }]),
{
    let ghost t0 = visitor.trace();
    proof { lemma_visits_none(t0); }
    match item {
        TraitItem::Function(n) => {
            visitor.visit_trait_function(n);
            proof { lemma_visits_step(t0, t0, visitor.trace(), Seq::empty(), VisitEvent::TraitFunction(*n)); }
        },
        TraitItem::Method(n) => {
            visitor.visit_trait_method(n);
            proof { lemma_visits_step(t0, t0, visitor.trace(), Seq::empty(), VisitEvent::TraitMethod(*n)); }
        },
        TraitItem::TypeAlias(n) => {
            visitor.visit_trait_type_alias(n);
            proof { lemma_visits_step(t0, t0, visitor.trace(), Seq::empty(), VisitEvent::TraitTypeAlias(*n)); }
        },
        TraitItem::Const(n) => {
            visitor.visit_trait_const(n);
            proof { lemma_visits_step(t0, t0, visitor.trace(), Seq::empty(), VisitEvent::TraitConst(*n)); }
        },
        TraitItem::Property(n) => {
            visitor.visit_trait_property(n);
            proof { lemma_visits_step(t0, t0, visitor.trace(), Seq::empty(), VisitEvent::TraitProperty(*n)); }
        },
    }
}

pub fn visit_assoc_item<T: Visitor>(visitor: &mut T, item: &AssocItem)
    ensures
        visits_in_order(old(visitor).trace(), final(visitor).trace(), seq![match *item {
            AssocItem::Function(n) => VisitEvent::Function(n),
            AssocItem::Method(n) => VisitEvent::Method(n),
            AssocItem::TypeAlias(n) => VisitEvent::TypeAlias(n),
            AssocItem::Const(n) => VisitEvent::Const(n),
            AssocItem::Static(n) => VisitEvent::Static(n),
            AssocItem::Property(n) => VisitEvent::Property(n),
        }]),
{
    let ghost t0 = visitor.trace();
    proof { lemma_visits_none(t0); }
    match item {
        AssocItem::Function(n) => {
            visitor.visit_function(n);
            proof { lemma_visits_step(t0, t0, visitor.trace(), Seq::empty(), VisitEvent::Function(*n)); }
        },
        AssocItem::Method(n) => {
            visitor.visit_method(n);
            proof { lemma_visits_step(t0, t0, visitor.trace(), Seq::empty(), VisitEvent::Method(*n)); }
        },
        AssocItem::TypeAlias(n) => {
            visitor.visit_type_alias(n);
            proof { lemma_visits_step(t0, t0, visitor.trace(), Seq::empty(), VisitEvent::TypeAlias(*n)); }
        },
        AssocItem::Const(n) => {
            visitor.visit_const(n);
            proof { lemma_visits_step(t0, t0, visitor.trace(), Seq::empty(), VisitEvent::Const(*n)); }
        },
        AssocItem::Static(n) => {
            visitor.visit_static(n);
            proof { lemma_visits_step(t0, t0, visitor.trace(), Seq::empty(), VisitEvent::Static(*n)); }
        },
        AssocItem::Property(n) => {
            visitor.visit_property(n);
            proof { lemma_visits_step(t0, t0, visitor.trace(), Seq::empty(), VisitEvent::Property(*n)); }
        },
    }
}

pub fn visit_extern_item<T: Visitor>(visitor: &mut T, item: &ExternItem)
    ensures
        visits_in_order(old(visitor).trace(), final(visitor).trace(), seq![match *item {
            ExternItem::Function(n) => VisitEvent::Function(n),
            ExternItem::Static(n) => VisitEvent::Static(n),
        }]),
{
    let ghost t0 = visitor.trace();
    proof { lemma_visits_none(t0); }
    match item {
        ExternItem::Function(n) => {
            visitor.visit_function(n);
            proof { lemma_visits_step(t0, t0, visitor.trace(), Seq::empty(), VisitEvent::Function(*n)); }
        },
        ExternItem::Static(n) => {
            visitor.visit_static(n);
            proof { lemma_visits_step(t0, t0, visitor.trace(), Seq::empty(), VisitEvent::Static(*n)); }
        },
    }
}

/// The calls of [`visit_attrs_vis`]: each attribute, then the visibility
/// where there is one.
pub open spec fn attrs_vis_visits(attrs: Seq<AstNodeRef<Attribute>>, vis: Option<AstNodeRef<Visibility>>) -> Seq<VisitEvent> {
    attrs.map_values(|x| VisitEvent::Attribute(x)) + opt_visit(vis, |x| VisitEvent::Visibility(x))
}

/// Attributes, then the visibility where there is one.
fn visit_attrs_vis<T: Visitor>(visitor: &mut T, attrs: &Vec<AstNodeRef<Attribute>>, vis: &Option<AstNodeRef<Visibility>>)
    ensures
        visits_in_order(old(visitor).trace(), final(visitor).trace(), attrs_vis_visits(attrs@, *vis)),
{
    let ghost t0 = visitor.trace();
    proof { lemma_visits_none(t0); }
    let ghost mut done: Seq<VisitEvent> = Seq::empty();
    let ghost base = done;
    assert(base + attrs@.take(0).map_values(|x| VisitEvent::Attribute(x)) =~= base);
    let mut i: usize = 0;
    while i < attrs.len()
        invariant
            i <= attrs@.len(),
            visits_in_order(t0, visitor.trace(), base + attrs@.take(i as int).map_values(|x| VisitEvent::Attribute(x))),
        decreases attrs@.len() - i,
    {
        let ghost t = visitor.trace();
        visitor.visit_attribute(&attrs[i]);
        proof {
            lemma_visits_step(t0, t, visitor.trace(), base + attrs@.take(i as int).map_values(|x| VisitEvent::Attribute(x)), VisitEvent::Attribute(attrs@[i as int]));
            assert(base + attrs@.take(i as int + 1).map_values(|x| VisitEvent::Attribute(x)) =~= (base + attrs@.take(i as int).map_values(|x| VisitEvent::Attribute(x))).push(VisitEvent::Attribute(attrs@[i as int])));
        }
        i = i + 1;
    }
    proof { assert(attrs@.take(attrs@.len() as int) =~= attrs@); done = base + attrs@.map_values(|x| VisitEvent::Attribute(x)); }
    if let Some(vis) = &*vis {
        let ghost t = visitor.trace();
        visitor.visit_visibility(vis);
        proof { lemma_visits_step(t0, t, visitor.trace(), done, VisitEvent::Visibility(*vis)); done = done.push(VisitEvent::Visibility(*vis)); }
    }
    assert(done =~= attrs_vis_visits(attrs@, *vis));
}

pub fn visit_module<T: Visitor>(visitor: &mut T, node: &AstNodeRef<ModuleItem>)
    ensures
        visits_in_order(old(visitor).trace(), final(visitor).trace(), attrs_vis_visits(node.attrs@, node.vis) + opt_visit(node.block, |x| VisitEvent::Block(x))),
{
    let ghost t0 = visitor.trace();
    proof { lemma_visits_none(t0); }
    let ghost mut done: Seq<VisitEvent> = Seq::empty();
    let attrs = &node.attrs;
    let vis = &node.vis;
    let ghost t = visitor.trace();
    visit_attrs_vis(visitor, attrs, vis);
    proof { lemma_visits_concat(t0, t, visitor.trace(), done, attrs_vis_visits(attrs@, *vis)); done = done + attrs_vis_visits(attrs@, *vis); }
    if let Some(block) = &node.block {
        let ghost t = visitor.trace();
        visitor.visit_block(block);
        proof { lemma_visits_step(t0, t, visitor.trace(), done, VisitEvent::Block(*block)); done = done.push(VisitEvent::Block(*block)); }
    }
    assert(done =~= attrs_vis_visits(node.attrs@, node.vis) + opt_visit(node.block, |x| VisitEvent::Block(x)));
}

pub fn visit_use<T: Visitor>(visitor: &mut T, node: &AstNodeRef<UseItem>)
    ensures
        visits_in_order(old(visitor).trace(), final(visitor).trace(), attrs_vis_visits(node.attrs@, node.vis) + seq![VisitEvent::UsePath(node.path)]),
{
    let ghost t0 = visitor.trace();
    proof { lemma_visits_none(t0); }
    let ghost mut done: Seq<VisitEvent> = Seq::empty();
    let attrs = &node.attrs;
    let vis = &node.vis;
    let ghost t = visitor.trace();
    visit_attrs_vis(visitor, attrs, vis);
    proof { lemma_visits_concat(t0, t, visitor.trace(), done, attrs_vis_visits(attrs@, *vis)); done = done + attrs_vis_visits(attrs@, *vis); }
    let path = &node.path;
    let ghost t = visitor.trace();
    visitor.visit_use_path(path);
    proof { lemma_visits_step(t0, t, visitor.trace(), done, VisitEvent::UsePath(*path)); done = done.push(VisitEvent::UsePath(*path)); }
    assert(done =~= attrs_vis_visits(node.attrs@, node.vis) + seq![VisitEvent::UsePath(node.path)]);
}

pub fn visit_use_path<T: Visitor>(visitor: &mut T, node: &AstNodeRef<UsePath>)
    ensures
        visits_in_order(old(visitor).trace(), final(visitor).trace(), (match **node { UsePath::SubPaths { sub_paths, .. } => sub_paths@.map_values(|x| VisitEvent::UsePath(x)), _ => Seq::<VisitEvent>::empty() })),
{
    let ghost t0 = visitor.trace();
    proof { lemma_visits_none(t0); }
    let ghost mut done: Seq<VisitEvent> = Seq::empty();
    match &**node {
        UsePath::SubPaths { sub_paths, .. } => {
            let ghost base = done;
            assert(base + sub_paths@.take(0).map_values(|x| VisitEvent::UsePath(x)) =~= base);
            let mut i: usize = 0;
            while i < sub_paths.len()
                invariant
                    i <= sub_paths@.len(),
                    visits_in_order(t0, visitor.trace(), base + sub_paths@.take(i as int).map_values(|x| VisitEvent::UsePath(x))),
                decreases sub_paths@.len() - i,
            {
                let ghost t = visitor.trace();
                visitor.visit_use_path(&sub_paths[i]);
                proof {
                    lemma_visits_step(t0, t, visitor.trace(), base + sub_paths@.take(i as int).map_values(|x| VisitEvent::UsePath(x)), VisitEvent::UsePath(sub_paths@[i as int]));
                    assert(base + sub_paths@.take(i as int + 1).map_values(|x| VisitEvent::UsePath(x)) =~= (base + sub_paths@.take(i as int).map_values(|x| VisitEvent::UsePath(x))).push(VisitEvent::UsePath(sub_paths@[i as int])));
                }
                i = i + 1;
            }
            proof { assert(sub_paths@.take(sub_paths@.len() as int) =~= sub_paths@); done = base + sub_paths@.map_values(|x| VisitEvent::UsePath(x)); }
        },
        _ => {},
    }
    assert(done =~= (match **node { UsePath::SubPaths { sub_paths, .. } => sub_paths@.map_values(|x| VisitEvent::UsePath(x)), _ => Seq::<VisitEvent>::empty() }));
}

#[verifier::spinoff_prover]
#[verifier::rlimit(60)]
pub fn visit_function<T: Visitor>(visitor: &mut T, node: &AstNodeRef<Function>, do_generics: bool, do_body: bool)
    ensures
        visits_in_order(old(visitor).trace(), final(visitor).trace(), attrs_vis_visits(node.attrs@, node.vis) + (if do_generics { opt_visit(node.generics, |x| VisitEvent::GenericParams(x)) } else { Seq::empty() }) + visits_each(node.params@, |x: FnParam| fn_param_visits(x)) + (match node.returns { Some(x) => fn_return_visits(x), None => Seq::empty() }) + (if do_generics { opt_visit(node.where_clause, |x| VisitEvent::WhereClause(x)) } else { Seq::empty() }) + node.contracts@.map_values(|x| VisitEvent::Contract(x)) + (if do_body { opt_visit(node.body, |x| VisitEvent::Block(x)) } else { Seq::empty() })),
{
    let ghost t0 = visitor.trace();
    proof { lemma_visits_none(t0); }
    let ghost mut done: Seq<VisitEvent> = Seq::empty();
    let attrs = &node.attrs;
    let vis = &node.vis;
    let ghost t = visitor.trace();
    visit_attrs_vis(visitor, attrs, vis);
    proof { lemma_visits_concat(t0, t, visitor.trace(), done, attrs_vis_visits(attrs@, *vis)); done = done + attrs_vis_visits(attrs@, *vis); }
    if do_generics {
        if let Some(generics) = &node.generics {
            let ghost t = visitor.trace();
            visitor.visit_generic_params(generics);
            proof { lemma_visits_step(t0, t, visitor.trace(), done, VisitEvent::GenericParams(*generics)); done = done.push(VisitEvent::GenericParams(*generics)); }
        }
    }
    let params = &node.params;
    let ghost before = done;
    proof { lemma_visits_each_start(params@, |x: FnParam| fn_param_visits(x)); }
    assert(before + Seq::<VisitEvent>::empty() =~= before);
    let mut j: usize = 0;
    while j < params.len()
        invariant
            j <= params@.len(),
            visits_in_order(t0, visitor.trace(), before + visits_each(params@.take(j as int), |x: FnParam| fn_param_visits(x))),
        decreases params@.len() - j,
    {
        let param = &params[j];
        proof { done = before + visits_each(params@.take(j as int), |x: FnParam| fn_param_visits(x)); }
        let ghost t = visitor.trace();
        visit_fn_param(visitor, param);
        proof { lemma_visits_concat(t0, t, visitor.trace(), done, fn_param_visits(*param)); done = done + fn_param_visits(*param); }
        proof {
            lemma_visits_each_step(params@, |x: FnParam| fn_param_visits(x), j as int);
            assert(done =~= before + visits_each(params@.take(j as int + 1), |x: FnParam| fn_param_visits(x)));
        }
        j = j + 1;
    }
    proof { lemma_visits_each_all(params@, |x: FnParam| fn_param_visits(x)); done = before + visits_each(params@, |x: FnParam| fn_param_visits(x)); }
    if let Some(ret) = &node.returns {
        let ghost t = visitor.trace();
        visit_fn_return(visitor, ret);
        proof { lemma_visits_concat(t0, t, visitor.trace(), done, fn_return_visits(*ret)); done = done + fn_return_visits(*ret); }
    }
    if do_generics {
        if let Some(where_clause) = &node.where_clause {
            let ghost t = visitor.trace();
            visitor.visit_where_clause(where_clause);
            proof { lemma_visits_step(t0, t, visitor.trace(), done, VisitEvent::WhereClause(*where_clause)); done = done.push(VisitEvent::WhereClause(*where_clause)); }
        }
    }
    let contracts = &node.contracts;
    let ghost base = done;
    assert(base + contracts@.take(0).map_values(|x| VisitEvent::Contract(x)) =~= base);
    let mut i: usize = 0;
    while i < contracts.len()
        invariant
            i <= contracts@.len(),
            visits_in_order(t0, visitor.trace(), base + contracts@.take(i as int).map_values(|x| VisitEvent::Contract(x))),
        decreases contracts@.len() - i,
    {
        let ghost t = visitor.trace();
        visitor.visit_contract(&contracts[i]);
        proof {
            lemma_visits_step(t0, t, visitor.trace(), base + contracts@.take(i as int).map_values(|x| VisitEvent::Contract(x)), VisitEvent::Contract(contracts@[i as int]));
            assert(base + contracts@.take(i as int + 1).map_values(|x| VisitEvent::Contract(x)) =~= (base + contracts@.take(i as int).map_values(|x| VisitEvent::Contract(x))).push(VisitEvent::Contract(contracts@[i as int])));
        }
        i = i + 1;
    }
    proof { assert(contracts@.take(contracts@.len() as int) =~= contracts@); done = base + contracts@.map_values(|x| VisitEvent::Contract(x)); }
    if do_body {
        if let Some(body) = &node.body {
            let ghost t = visitor.trace();
            visitor.visit_block(body);
            proof { lemma_visits_step(t0, t, visitor.trace(), done, VisitEvent::Block(*body)); done = done.push(VisitEvent::Block(*body)); }
        }
    }
    assert(done =~= attrs_vis_visits(node.attrs@, node.vis) + (if do_generics { opt_visit(node.generics, |x| VisitEvent::GenericParams(x)) } else { Seq::empty() }) + visits_each(node.params@, |x: FnParam| fn_param_visits(x)) + (match node.returns { Some(x) => fn_return_visits(x), None => Seq::empty() }) + (if do_generics { opt_visit(node.where_clause, |x| VisitEvent::WhereClause(x)) } else { Seq::empty() }) + node.contracts@.map_values(|x| VisitEvent::Contract(x)) + (if do_body { opt_visit(node.body, |x| VisitEvent::Block(x)) } else { Seq::empty() }));
}

/// The calls that the walk makes for one item.
pub open spec fn fn_param_name_visits(name: FnParamName) -> Seq<VisitEvent> {
    name.attrs@.map_values(|x| VisitEvent::Attribute(x)) + seq![VisitEvent::Pattern(name.pattern)]
}

/// The calls of [`visit_fn_param`]: the attributes and pattern of each name,
/// then the type, then the default value where there is one.
pub open spec fn fn_param_visits(param: FnParam) -> Seq<VisitEvent> {
    visits_each(param.names@, |x: FnParamName| fn_param_name_visits(x)) + seq![VisitEvent::Type(param.ty)] + opt_visit(param.def_val, |x| VisitEvent::Expr(x))
}

pub fn visit_fn_param<T: Visitor>(visitor: &mut T, param: &FnParam)
    ensures
        visits_in_order(old(visitor).trace(), final(visitor).trace(), fn_param_visits(*param)),
{
    let ghost t0 = visitor.trace();
    proof { lemma_visits_none(t0); }
    let ghost mut done: Seq<VisitEvent> = Seq::empty();
    let names = &param.names;
    let ghost before = done;
    proof { lemma_visits_each_start(names@, |x: FnParamName| fn_param_name_visits(x)); }
    assert(before + Seq::<VisitEvent>::empty() =~= before);
    let mut j: usize = 0;
    while j < names.len()
        invariant
            j <= names@.len(),
            visits_in_order(t0, visitor.trace(), before + visits_each(names@.take(j as int), |x: FnParamName| fn_param_name_visits(x))),
        decreases names@.len() - j,
    {
        let name = &names[j];
        proof { done = before + visits_each(names@.take(j as int), |x: FnParamName| fn_param_name_visits(x)); }
        let attrs = &name.attrs;
        let ghost base = done;
        assert(base + attrs@.take(0).map_values(|x| VisitEvent::Attribute(x)) =~= base);
        let mut i: usize = 0;
        while i < attrs.len()
            invariant
                i <= attrs@.len(),
                visits_in_order(t0, visitor.trace(), base + attrs@.take(i as int).map_values(|x| VisitEvent::Attribute(x))),
            decreases attrs@.len() - i,
        {
            let ghost t = visitor.trace();
            visitor.visit_attribute(&attrs[i]);
            proof {
                lemma_visits_step(t0, t, visitor.trace(), base + attrs@.take(i as int).map_values(|x| VisitEvent::Attribute(x)), VisitEvent::Attribute(attrs@[i as int]));
                assert(base + attrs@.take(i as int + 1).map_values(|x| VisitEvent::Attribute(x)) =~= (base + attrs@.take(i as int).map_values(|x| VisitEvent::Attribute(x))).push(VisitEvent::Attribute(attrs@[i as int])));
            }
            i = i + 1;
        }
        proof { assert(attrs@.take(attrs@.len() as int) =~= attrs@); done = base + attrs@.map_values(|x| VisitEvent::Attribute(x)); }
        let pattern = &name.pattern;
        let ghost t = visitor.trace();
        visitor.visit_pattern(pattern);
        proof { lemma_visits_step(t0, t, visitor.trace(), done, VisitEvent::Pattern(*pattern)); done = done.push(VisitEvent::Pattern(*pattern)); }
        proof {
            lemma_visits_each_step(names@, |x: FnParamName| fn_param_name_visits(x), j as int);
            assert(done =~= before + visits_each(names@.take(j as int + 1), |x: FnParamName| fn_param_name_visits(x)));
        }
        j = j + 1;
    }
    proof { lemma_visits_each_all(names@, |x: FnParamName| fn_param_name_visits(x)); done = before + visits_each(names@, |x: FnParamName| fn_param_name_visits(x)); }
    let ty = &param.ty;
    let ghost t = visitor.trace();
    visitor.visit_type(ty);
    proof { lemma_visits_step(t0, t, visitor.trace(), done, VisitEvent::Type(*ty)); done = done.push(VisitEvent::Type(*ty)); }
    if let Some(def_val) = &param.def_val {
        let ghost t = visitor.trace();
        visitor.visit_expr(def_val);
        proof { lemma_visits_step(t0, t, visitor.trace(), done, VisitEvent::Expr(*def_val)); done = done.push(VisitEvent::Expr(*def_val)); }
    }
    assert(done =~= fn_param_visits(*param));
}

/// The calls that the walk makes for one item.
pub open spec fn named_return_visits(var: (Vec<(NameId, SpanId)>, Type)) -> Seq<VisitEvent> {
    seq![VisitEvent::Type(var.1)]
}

/// The calls of [`visit_fn_return`]: the return type, or the type of each
/// named return value.
pub open spec fn fn_return_visits(ret: FnReturn) -> Seq<VisitEvent> {
    (match ret { FnReturn::Type { ty, .. } => seq![VisitEvent::Type(ty)], FnReturn::Named { vars, .. } => visits_each(vars@, |x: (Vec<(NameId, SpanId)>, Type)| named_return_visits(x)) })
}

pub fn visit_fn_return<T: Visitor>(visitor: &mut T, ret: &FnReturn)
    ensures
        visits_in_order(old(visitor).trace(), final(visitor).trace(), fn_return_visits(*ret)),
{
    let ghost t0 = visitor.trace();
    proof { lemma_visits_none(t0); }
    let ghost mut done: Seq<VisitEvent> = Seq::empty();
    match ret {
        FnReturn::Type { ty, .. } => {
            let ghost t = visitor.trace();
            visitor.visit_type(ty);
            proof { lemma_visits_step(t0, t, visitor.trace(), done, VisitEvent::Type(*ty)); done = done.push(VisitEvent::Type(*ty)); }
        },
        FnReturn::Named { vars, .. } => {
            let ghost before = done;
            proof { lemma_visits_each_start(vars@, |x: (Vec<(NameId, SpanId)>, Type)| named_return_visits(x)); }
            assert(before + Seq::<VisitEvent>::empty() =~= before);
            let mut j: usize = 0;
            while j < vars.len()
                invariant
                    j <= vars@.len(),
                    visits_in_order(t0, visitor.trace(), before + visits_each(vars@.take(j as int), |x: (Vec<(NameId, SpanId)>, Type)| named_return_visits(x))),
                decreases vars@.len() - j,
            {
                let var = &vars[j];
                proof { done = before + visits_each(vars@.take(j as int), |x: (Vec<(NameId, SpanId)>, Type)| named_return_visits(x)); }
                let child = &var.1;
                let ghost t = visitor.trace();
                visitor.visit_type(child);
                proof { lemma_visits_step(t0, t, visitor.trace(), done, VisitEvent::Type(*child)); done = done.push(VisitEvent::Type(*child)); }
                proof {
                    lemma_visits_each_step(vars@, |x: (Vec<(NameId, SpanId)>, Type)| named_return_visits(x), j as int);
                    assert(done =~= before + visits_each(vars@.take(j as int + 1), |x: (Vec<(NameId, SpanId)>, Type)| named_return_visits(x)));
                }
                j = j + 1;
            }
            proof { lemma_visits_each_all(vars@, |x: (Vec<(NameId, SpanId)>, Type)| named_return_visits(x)); done = before + visits_each(vars@, |x: (Vec<(NameId, SpanId)>, Type)| named_return_visits(x)); }
        },
    }
    assert(done =~= fn_return_visits(*ret));
}

#[verifier::spinoff_prover]
#[verifier::rlimit(60)]
pub fn visit_method<T: Visitor>(visitor: &mut T, node: &AstNodeRef<Method>, do_generics: bool, do_body: bool)
    ensures
        visits_in_order(old(visitor).trace(), final(visitor).trace(), attrs_vis_visits(node.attrs@, node.vis) + (if do_generics { opt_visit(node.generics, |x| VisitEvent::GenericParams(x)) } else { Seq::empty() }) + (match node.receiver { FnReceiver::SelfTyped { ty, .. } => seq![VisitEvent::Type(ty)], _ => Seq::<VisitEvent>::empty() }) + visits_each(node.params@, |x: FnParam| fn_param_visits(x)) + (match node.returns { Some(x) => fn_return_visits(x), None => Seq::empty() }) + (if do_generics { opt_visit(node.where_clause, |x| VisitEvent::WhereClause(x)) } else { Seq::empty() }) + node.contracts@.map_values(|x| VisitEvent::Contract(x)) + (if do_body { seq![VisitEvent::Block(node.body)] } else { Seq::empty() })),
{
    let ghost t0 = visitor.trace();
    proof { lemma_visits_none(t0); }
    let ghost mut done: Seq<VisitEvent> = Seq::empty();
    let attrs = &node.attrs;
    let vis = &node.vis;
    let ghost t = visitor.trace();
    visit_attrs_vis(visitor, attrs, vis);
    proof { lemma_visits_concat(t0, t, visitor.trace(), done, attrs_vis_visits(attrs@, *vis)); done = done + attrs_vis_visits(attrs@, *vis); }
    if do_generics {
        if let Some(generics) = &node.generics {
            let ghost t = visitor.trace();
            visitor.visit_generic_params(generics);
            proof { lemma_visits_step(t0, t, visitor.trace(), done, VisitEvent::GenericParams(*generics)); done = done.push(VisitEvent::GenericParams(*generics)); }
        }
    }
    match &node.receiver {
        FnReceiver::SelfTyped { ty, .. } => {
            let ghost t = visitor.trace();
            visitor.visit_type(ty);
            proof { lemma_visits_step(t0, t, visitor.trace(), done, VisitEvent::Type(*ty)); done = done.push(VisitEvent::Type(*ty)); }
        },
        _ => {},
    }
    let params = &node.params;
    let ghost before = done;
    proof { lemma_visits_each_start(params@, |x: FnParam| fn_param_visits(x)); }
    assert(before + Seq::<VisitEvent>::empty() =~= before);
    let mut j: usize = 0;
    while j < params.len()
        invariant
            j <= params@.len(),
            visits_in_order(t0, visitor.trace(), before + visits_each(params@.take(j as int), |x: FnParam| fn_param_visits(x))),
        decreases params@.len() - j,
    {
        let param = &params[j];
        proof { done = before + visits_each(params@.take(j as int), |x: FnParam| fn_param_visits(x)); }
        let ghost t = visitor.trace();
        visit_fn_param(visitor, param);
        proof { lemma_visits_concat(t0, t, visitor.trace(), done, fn_param_visits(*param)); done = done + fn_param_visits(*param); }
        proof {
            lemma_visits_each_step(params@, |x: FnParam| fn_param_visits(x), j as int);
            assert(done =~= before + visits_each(params@.take(j as int + 1), |x: FnParam| fn_param_visits(x)));
        }
        j = j + 1;
    }
    proof { lemma_visits_each_all(params@, |x: FnParam| fn_param_visits(x)); done = before + visits_each(params@, |x: FnParam| fn_param_visits(x)); }
    if let Some(ret) = &node.returns {
        let ghost t = visitor.trace();
        visit_fn_return(visitor, ret);
        proof { lemma_visits_concat(t0, t, visitor.trace(), done, fn_return_visits(*ret)); done = done + fn_return_visits(*ret); }
    }
    if do_generics {
        if let Some(where_clause) = &node.where_clause {
            let ghost t = visitor.trace();
            visitor.visit_where_clause(where_clause);
            proof { lemma_visits_step(t0, t, visitor.trace(), done, VisitEvent::WhereClause(*where_clause)); done = done.push(VisitEvent::WhereClause(*where_clause)); }
        }
    }
    let contracts = &node.contracts;
    let ghost base = done;
    assert(base + contracts@.take(0).map_values(|x| VisitEvent::Contract(x)) =~= base);
    let mut i: usize = 0;
    while i < contracts.len()
        invariant
            i <= contracts@.len(),
            visits_in_order(t0, visitor.trace(), base + contracts@.take(i as int).map_values(|x| VisitEvent::Contract(x))),
        decreases contracts@.len() - i,
    {
        let ghost t = visitor.trace();
        visitor.visit_contract(&contracts[i]);
        proof {
            lemma_visits_step(t0, t, visitor.trace(), base + contracts@.take(i as int).map_values(|x| VisitEvent::Contract(x)), VisitEvent::Contract(contracts@[i as int]));
            assert(base + contracts@.take(i as int + 1).map_values(|x| VisitEvent::Contract(x)) =~= (base + contracts@.take(i as int).map_values(|x| VisitEvent::Contract(x))).push(VisitEvent::Contract(contracts@[i as int])));
        }
        i = i + 1;
    }
    proof { assert(contracts@.take(contracts@.len() as int) =~= contracts@); done = base + contracts@.map_values(|x| VisitEvent::Contract(x)); }
    if do_body {
        let body = &node.body;
        let ghost t = visitor.trace();
        visitor.visit_block(body);
        proof { lemma_visits_step(t0, t, visitor.trace(), done, VisitEvent::Block(*body)); done = done.push(VisitEvent::Block(*body)); }
    }
    assert(done =~= attrs_vis_visits(node.attrs@, node.vis) + (if do_generics { opt_visit(node.generics, |x| VisitEvent::GenericParams(x)) } else { Seq::empty() }) + (match node.receiver { FnReceiver::SelfTyped { ty, .. } => seq![VisitEvent::Type(ty)], _ => Seq::<VisitEvent>::empty() }) + visits_each(node.params@, |x: FnParam| fn_param_visits(x)) + (match node.returns { Some(x) => fn_return_visits(x), None => Seq::empty() }) + (if do_generics { opt_visit(node.where_clause, |x| VisitEvent::WhereClause(x)) } else { Seq::empty() }) + node.contracts@.map_values(|x| VisitEvent::Contract(x)) + (if do_body { seq![VisitEvent::Block(node.body)] } else { Seq::empty() }));
}

pub fn visit_type_alias<T: Visitor>(visitor: &mut T, node: &AstNodeRef<TypeAlias>, do_generics: bool)
    ensures
        visits_in_order(old(visitor).trace(), final(visitor).trace(), attrs_vis_visits(node.attrs@, node.vis) + (if do_generics { opt_visit(node.generics, |x| VisitEvent::GenericParams(x)) } else { Seq::empty() }) + seq![VisitEvent::Type(node.ty)]),
{
    let ghost t0 = visitor.trace();
    proof { lemma_visits_none(t0); }
    let ghost mut done: Seq<VisitEvent> = Seq::empty();
    let attrs = &node.attrs;
    let vis = &node.vis;
    let ghost t = visitor.trace();
    visit_attrs_vis(visitor, attrs, vis);
    proof { lemma_visits_concat(t0, t, visitor.trace(), done, attrs_vis_visits(attrs@, *vis)); done = done + attrs_vis_visits(attrs@, *vis); }
    if do_generics {
        if let Some(generics) = &node.generics {
            let ghost t = visitor.trace();
            visitor.visit_generic_params(generics);
            proof { lemma_visits_step(t0, t, visitor.trace(), done, VisitEvent::GenericParams(*generics)); done = done.push(VisitEvent::GenericParams(*generics)); }
        }
    }
    let ty = &node.ty;
    let ghost t = visitor.trace();
    visitor.visit_type(ty);
    proof { lemma_visits_step(t0, t, visitor.trace(), done, VisitEvent::Type(*ty)); done = done.push(VisitEvent::Type(*ty)); }
    assert(done =~= attrs_vis_visits(node.attrs@, node.vis) + (if do_generics { opt_visit(node.generics, |x| VisitEvent::GenericParams(x)) } else { Seq::empty() }) + seq![VisitEvent::Type(node.ty)]);
}

pub fn visit_distinct_type<T: Visitor>(visitor: &mut T, node: &AstNodeRef<DistinctType>, do_generics: bool)
    ensures
        visits_in_order(old(visitor).trace(), final(visitor).trace(), attrs_vis_visits(node.attrs@, node.vis) + (if do_generics { opt_visit(node.generics, |x| VisitEvent::GenericParams(x)) } else { Seq::empty() }) + seq![VisitEvent::Type(node.ty)]),
{
    let ghost t0 = visitor.trace();
    proof { lemma_visits_none(t0); }
    let ghost mut done: Seq<VisitEvent> = Seq::empty();
    let attrs = &node.attrs;
    let vis = &node.vis;
    let ghost t = visitor.trace();
    visit_attrs_vis(visitor, attrs, vis);
    proof { lemma_visits_concat(t0, t, visitor.trace(), done, attrs_vis_visits(attrs@, *vis)); done = done + attrs_vis_visits(attrs@, *vis); }
    if do_generics {
        if let Some(generics) = &node.generics {
            let ghost t = visitor.trace();
            visitor.visit_generic_params(generics);
            proof { lemma_visits_step(t0, t, visitor.trace(), done, VisitEvent::GenericParams(*generics)); done = done.push(VisitEvent::GenericParams(*generics)); }
        }
    }
    let ty = &node.ty;
    let ghost t = visitor.trace();
    visitor.visit_type(ty);
    proof { lemma_visits_step(t0, t, visitor.trace(), done, VisitEvent::Type(*ty)); done = done.push(VisitEvent::Type(*ty)); }
    assert(done =~= attrs_vis_visits(node.attrs@, node.vis) + (if do_generics { opt_visit(node.generics, |x| VisitEvent::GenericParams(x)) } else { Seq::empty() }) + seq![VisitEvent::Type(node.ty)]);
}

pub fn visit_opaque_type<T: Visitor>(visitor: &mut T, node: &AstNodeRef<OpaqueType>)
    ensures
        visits_in_order(old(visitor).trace(), final(visitor).trace(), attrs_vis_visits(node.attrs@, node.vis) + opt_visit(node.size, |x| VisitEvent::Expr(x))),
{
    let ghost t0 = visitor.trace();
    proof { lemma_visits_none(t0); }
    let ghost mut done: Seq<VisitEvent> = Seq::empty();
    let attrs = &node.attrs;
    let vis = &node.vis;
    let ghost t = visitor.trace();
    visit_attrs_vis(visitor, attrs, vis);
    proof { lemma_visits_concat(t0, t, visitor.trace(), done, attrs_vis_visits(attrs@, *vis)); done = done + attrs_vis_visits(attrs@, *vis); }
    if let Some(size) = &node.size {
        let ghost t = visitor.trace();
        visitor.visit_expr(size);
        proof { lemma_visits_step(t0, t, visitor.trace(), done, VisitEvent::Expr(*size)); done = done.push(VisitEvent::Expr(*size)); }
    }
    assert(done =~= attrs_vis_visits(node.attrs@, node.vis) + opt_visit(node.size, |x| VisitEvent::Expr(x)));
}

pub fn visit_struct<T: Visitor>(visitor: &mut T, node: &AstNodeRef<Struct>, do_generics: bool)
    ensures
        visits_in_order(old(visitor).trace(), final(visitor).trace(), (match **node { Struct::Regular { attrs, vis, generics, where_clause, fields, .. } => attrs_vis_visits(attrs@, vis) + (if do_generics { opt_visit(generics, |x| VisitEvent::GenericParams(x)) + opt_visit(where_clause, |x| VisitEvent::WhereClause(x)) } else { Seq::empty() }) + fields@.map_values(|x| VisitEvent::RegStructField(x)), Struct::Tuple { attrs, vis, generics, where_clause, fields, .. } => attrs_vis_visits(attrs@, vis) + (if do_generics { opt_visit(generics, |x| VisitEvent::GenericParams(x)) + opt_visit(where_clause, |x| VisitEvent::WhereClause(x)) } else { Seq::empty() }) + fields@.map_values(|x| VisitEvent::TupleStructField(x)), Struct::Unit { attrs, vis, .. } => attrs_vis_visits(attrs@, vis) })),
{
    let ghost t0 = visitor.trace();
    proof { lemma_visits_none(t0); }
    let ghost mut done: Seq<VisitEvent> = Seq::empty();
    match &**node {
        Struct::Regular { attrs, vis, generics, where_clause, fields, .. } => {
            let ghost t = visitor.trace();
            visit_attrs_vis(visitor, attrs, vis);
            proof { lemma_visits_concat(t0, t, visitor.trace(), done, attrs_vis_visits(attrs@, *vis)); done = done + attrs_vis_visits(attrs@, *vis); }
            if do_generics {
                if let Some(generics) = generics {
                    let ghost t = visitor.trace();
                    visitor.visit_generic_params(generics);
                    proof { lemma_visits_step(t0, t, visitor.trace(), done, VisitEvent::GenericParams(*generics)); done = done.push(VisitEvent::GenericParams(*generics)); }
                }
                if let Some(where_clause) = where_clause {
                    let ghost t = visitor.trace();
                    visitor.visit_where_clause(where_clause);
                    proof { lemma_visits_step(t0, t, visitor.trace(), done, VisitEvent::WhereClause(*where_clause)); done = done.push(VisitEvent::WhereClause(*where_clause)); }
                }
            }
            let ghost base = done;
            assert(base + fields@.take(0).map_values(|x| VisitEvent::RegStructField(x)) =~= base);
            let mut i: usize = 0;
            while i < fields.len()
                invariant
                    i <= fields@.len(),
                    visits_in_order(t0, visitor.trace(), base + fields@.take(i as int).map_values(|x| VisitEvent::RegStructField(x))),
                decreases fields@.len() - i,
            {
                let ghost t = visitor.trace();
                visitor.visit_reg_struct_field(&fields[i]);
                proof {
                    lemma_visits_step(t0, t, visitor.trace(), base + fields@.take(i as int).map_values(|x| VisitEvent::RegStructField(x)), VisitEvent::RegStructField(fields@[i as int]));
                    assert(base + fields@.take(i as int + 1).map_values(|x| VisitEvent::RegStructField(x)) =~= (base + fields@.take(i as int).map_values(|x| VisitEvent::RegStructField(x))).push(VisitEvent::RegStructField(fields@[i as int])));
                }
                i = i + 1;
            }
            proof { assert(fields@.take(fields@.len() as int) =~= fields@); done = base + fields@.map_values(|x| VisitEvent::RegStructField(x)); }
        },
        Struct::Tuple { attrs, vis, generics, where_clause, fields, .. } => {
            let ghost t = visitor.trace();
            visit_attrs_vis(visitor, attrs, vis);
            proof { lemma_visits_concat(t0, t, visitor.trace(), done, attrs_vis_visits(attrs@, *vis)); done = done + attrs_vis_visits(attrs@, *vis); }
            if do_generics {
                if let Some(generics) = generics {
                    let ghost t = visitor.trace();
                    visitor.visit_generic_params(generics);
                    proof { lemma_visits_step(t0, t, visitor.trace(), done, VisitEvent::GenericParams(*generics)); done = done.push(VisitEvent::GenericParams(*generics)); }
                }
                if let Some(where_clause) = where_clause {
                    let ghost t = visitor.trace();
                    visitor.visit_where_clause(where_clause);
                    proof { lemma_visits_step(t0, t, visitor.trace(), done, VisitEvent::WhereClause(*where_clause)); done = done.push(VisitEvent::WhereClause(*where_clause)); }
                }
            }
            let ghost base = done;
            assert(base + fields@.take(0).map_values(|x| VisitEvent::TupleStructField(x)) =~= base);
            let mut i: usize = 0;
            while i < fields.len()
                invariant
                    i <= fields@.len(),
                    visits_in_order(t0, visitor.trace(), base + fields@.take(i as int).map_values(|x| VisitEvent::TupleStructField(x))),
                decreases fields@.len() - i,
            {
                let ghost t = visitor.trace();
                visitor.visit_tuple_struct_field(&fields[i]);
                proof {
                    lemma_visits_step(t0, t, visitor.trace(), base + fields@.take(i as int).map_values(|x| VisitEvent::TupleStructField(x)), VisitEvent::TupleStructField(fields@[i as int]));
                    assert(base + fields@.take(i as int + 1).map_values(|x| VisitEvent::TupleStructField(x)) =~= (base + fields@.take(i as int).map_values(|x| VisitEvent::TupleStructField(x))).push(VisitEvent::TupleStructField(fields@[i as int])));
                }
                i = i + 1;
            }
            proof { assert(fields@.take(fields@.len() as int) =~= fields@); done = base + fields@.map_values(|x| VisitEvent::TupleStructField(x)); }
        },
        Struct::Unit { attrs, vis, .. } => {
            let ghost t = visitor.trace();
            visit_attrs_vis(visitor, attrs, vis);
            proof { lemma_visits_concat(t0, t, visitor.trace(), done, attrs_vis_visits(attrs@, *vis)); done = done + attrs_vis_visits(attrs@, *vis); }
        },
    }
    assert(done =~= (match **node { Struct::Regular { attrs, vis, generics, where_clause, fields, .. } => attrs_vis_visits(attrs@, vis) + (if do_generics { opt_visit(generics, |x| VisitEvent::GenericParams(x)) + opt_visit(where_clause, |x| VisitEvent::WhereClause(x)) } else { Seq::empty() }) + fields@.map_values(|x| VisitEvent::RegStructField(x)), Struct::Tuple { attrs, vis, generics, where_clause, fields, .. } => attrs_vis_visits(attrs@, vis) + (if do_generics { opt_visit(generics, |x| VisitEvent::GenericParams(x)) + opt_visit(where_clause, |x| VisitEvent::WhereClause(x)) } else { Seq::empty() }) + fields@.map_values(|x| VisitEvent::TupleStructField(x)), Struct::Unit { attrs, vis, .. } => attrs_vis_visits(attrs@, vis) }));
}

/// The calls of [`visit_reg_struct_field`]: the attributes and visibility,
/// then the type and default value, or the type path of a `use` field.
pub open spec fn reg_struct_field_visits(field: RegStructField) -> Seq<VisitEvent> {
    (match field { RegStructField::Field { attrs, vis, ty, def, .. } => attrs_vis_visits(attrs@, vis) + seq![VisitEvent::Type(ty)] + opt_visit(def, |x| VisitEvent::Expr(x)), RegStructField::Use { attrs, vis, path, .. } => attrs_vis_visits(attrs@, vis) + seq![VisitEvent::TypePath(path)] })
}

pub fn visit_reg_struct_field<T: Visitor>(visitor: &mut T, field: &RegStructField)
    ensures
        visits_in_order(old(visitor).trace(), final(visitor).trace(), reg_struct_field_visits(*field)),
{
    let ghost t0 = visitor.trace();
    proof { lemma_visits_none(t0); }
    let ghost mut done: Seq<VisitEvent> = Seq::empty();
    match field {
        RegStructField::Field { attrs, vis, ty, def, .. } => {
            let ghost t = visitor.trace();
            visit_attrs_vis(visitor, attrs, vis);
            proof { lemma_visits_concat(t0, t, visitor.trace(), done, attrs_vis_visits(attrs@, *vis)); done = done + attrs_vis_visits(attrs@, *vis); }
            let ghost t = visitor.trace();
            visitor.visit_type(ty);
            proof { lemma_visits_step(t0, t, visitor.trace(), done, VisitEvent::Type(*ty)); done = done.push(VisitEvent::Type(*ty)); }
            if let Some(def) = def {
                let ghost t = visitor.trace();
                visitor.visit_expr(def);
                proof { lemma_visits_step(t0, t, visitor.trace(), done, VisitEvent::Expr(*def)); done = done.push(VisitEvent::Expr(*def)); }
            }
        },
        RegStructField::Use { attrs, vis, path, .. } => {
            let ghost t = visitor.trace();
            visit_attrs_vis(visitor, attrs, vis);
            proof { lemma_visits_concat(t0, t, visitor.trace(), done, attrs_vis_visits(attrs@, *vis)); done = done + attrs_vis_visits(attrs@, *vis); }
            let ghost t = visitor.trace();
            visitor.visit_type_path(path);
            proof { lemma_visits_step(t0, t, visitor.trace(), done, VisitEvent::TypePath(*path)); done = done.push(VisitEvent::TypePath(*path)); }
        },
    }
    assert(done =~= reg_struct_field_visits(*field));
}

pub fn visit_tuple_struct_field<T: Visitor>(visitor: &mut T, field: &TupleStructField)
    ensures
        visits_in_order(old(visitor).trace(), final(visitor).trace(), attrs_vis_visits(field.attrs@, field.vis) + seq![VisitEvent::Type(field.ty)] + opt_visit(field.def, |x| VisitEvent::Expr(x))),
{
    let ghost t0 = visitor.trace();
    proof { lemma_visits_none(t0); }
    let ghost mut done: Seq<VisitEvent> = Seq::empty();
    let attrs = &field.attrs;
    let vis = &field.vis;
    let ghost t = visitor.trace();
    visit_attrs_vis(visitor, attrs, vis);
    proof { lemma_visits_concat(t0, t, visitor.trace(), done, attrs_vis_visits(attrs@, *vis)); done = done + attrs_vis_visits(attrs@, *vis); }
    let ty = &field.ty;
    let ghost t = visitor.trace();
    visitor.visit_type(ty);
    proof { lemma_visits_step(t0, t, visitor.trace(), done, VisitEvent::Type(*ty)); done = done.push(VisitEvent::Type(*ty)); }
    if let Some(def) = &field.def {
        let ghost t = visitor.trace();
        visitor.visit_expr(def);
        proof { lemma_visits_step(t0, t, visitor.trace(), done, VisitEvent::Expr(*def)); done = done.push(VisitEvent::Expr(*def)); }
    }
    assert(done =~= attrs_vis_visits(field.attrs@, field.vis) + seq![VisitEvent::Type(field.ty)] + opt_visit(field.def, |x| VisitEvent::Expr(x)));
}

/// The calls that the walk makes for one item.
pub open spec fn union_field_visits(field: UnionField) -> Seq<VisitEvent> {
    attrs_vis_visits(field.attrs@, field.vis) + seq![VisitEvent::Type(field.ty)]
}

pub fn visit_union<T: Visitor>(visitor: &mut T, node: &AstNodeRef<Union>, do_generics: bool)
    ensures
        visits_in_order(old(visitor).trace(), final(visitor).trace(), attrs_vis_visits(node.attrs@, node.vis) + (if do_generics { opt_visit(node.generics, |x| VisitEvent::GenericParams(x)) + opt_visit(node.where_clause, |x| VisitEvent::WhereClause(x)) } else { Seq::empty() }) + visits_each(node.fields@, |x: UnionField| union_field_visits(x))),
{
    let ghost t0 = visitor.trace();
    proof { lemma_visits_none(t0); }
    let ghost mut done: Seq<VisitEvent> = Seq::empty();
    let attrs = &node.attrs;
    let vis = &node.vis;
    let ghost t = visitor.trace();
    visit_attrs_vis(visitor, attrs, vis);
    proof { lemma_visits_concat(t0, t, visitor.trace(), done, attrs_vis_visits(attrs@, *vis)); done = done + attrs_vis_visits(attrs@, *vis); }
    if do_generics {
        if let Some(generics) = &node.generics {
            let ghost t = visitor.trace();
            visitor.visit_generic_params(generics);
            proof { lemma_visits_step(t0, t, visitor.trace(), done, VisitEvent::GenericParams(*generics)); done = done.push(VisitEvent::GenericParams(*generics)); }
        }
        if let Some(where_clause) = &node.where_clause {
            let ghost t = visitor.trace();
            visitor.visit_where_clause(where_clause);
            proof { lemma_visits_step(t0, t, visitor.trace(), done, VisitEvent::WhereClause(*where_clause)); done = done.push(VisitEvent::WhereClause(*where_clause)); }
        }
    }
    let fields = &node.fields;
    let ghost before = done;
    proof { lemma_visits_each_start(fields@, |x: UnionField| union_field_visits(x)); }
    assert(before + Seq::<VisitEvent>::empty() =~= before);
    let mut j: usize = 0;
    while j < fields.len()
        invariant
            j <= fields@.len(),
            visits_in_order(t0, visitor.trace(), before + visits_each(fields@.take(j as int), |x: UnionField| union_field_visits(x))),
        decreases fields@.len() - j,
    {
        let field = &fields[j];
        proof { done = before + visits_each(fields@.take(j as int), |x: UnionField| union_field_visits(x)); }
        let attrs = &field.attrs;
        let vis = &field.vis;
        let ghost t = visitor.trace();
        visit_attrs_vis(visitor, attrs, vis);
        proof { lemma_visits_concat(t0, t, visitor.trace(), done, attrs_vis_visits(attrs@, *vis)); done = done + attrs_vis_visits(attrs@, *vis); }
        let ty = &field.ty;
        let ghost t = visitor.trace();
        visitor.visit_type(ty);
        proof { lemma_visits_step(t0, t, visitor.trace(), done, VisitEvent::Type(*ty)); done = done.push(VisitEvent::Type(*ty)); }
        proof {
            lemma_visits_each_step(fields@, |x: UnionField| union_field_visits(x), j as int);
            assert(done =~= before + visits_each(fields@.take(j as int + 1), |x: UnionField| union_field_visits(x)));
        }
        j = j + 1;
    }
    proof { lemma_visits_each_all(fields@, |x: UnionField| union_field_visits(x)); done = before + visits_each(fields@, |x: UnionField| union_field_visits(x)); }
    assert(done =~= attrs_vis_visits(node.attrs@, node.vis) + (if do_generics { opt_visit(node.generics, |x| VisitEvent::GenericParams(x)) + opt_visit(node.where_clause, |x| VisitEvent::WhereClause(x)) } else { Seq::empty() }) + visits_each(node.fields@, |x: UnionField| union_field_visits(x)));
}

/// The calls that the walk makes for one item.
pub open spec fn flag_variant_visits(variant: FlagEnumVariant) -> Seq<VisitEvent> {
    variant.attrs@.map_values(|x| VisitEvent::Attribute(x)) + opt_visit(variant.discriminant, |x| VisitEvent::Expr(x))
}

pub fn visit_enum<T: Visitor>(visitor: &mut T, node: &AstNodeRef<Enum>, do_generics: bool)
    ensures
        visits_in_order(old(visitor).trace(), final(visitor).trace(), (match **node { Enum::Adt { attrs, vis, generics, where_clause, variants, .. } => attrs_vis_visits(attrs@, vis) + (if do_generics { opt_visit(generics, |x| VisitEvent::GenericParams(x)) + opt_visit(where_clause, |x| VisitEvent::WhereClause(x)) } else { Seq::empty() }) + variants@.map_values(|x| VisitEvent::EnumVariant(x)), Enum::Flag { attrs, vis, variants, .. } => attrs_vis_visits(attrs@, vis) + visits_each(variants@, |x: FlagEnumVariant| flag_variant_visits(x)) })),
{
    let ghost t0 = visitor.trace();
    proof { lemma_visits_none(t0); }
    let ghost mut done: Seq<VisitEvent> = Seq::empty();
    match &**node {
        Enum::Adt { attrs, vis, generics, where_clause, variants, .. } => {
            let ghost t = visitor.trace();
            visit_attrs_vis(visitor, attrs, vis);
            proof { lemma_visits_concat(t0, t, visitor.trace(), done, attrs_vis_visits(attrs@, *vis)); done = done + attrs_vis_visits(attrs@, *vis); }
            if do_generics {
                if let Some(generics) = generics {
                    let ghost t = visitor.trace();
                    visitor.visit_generic_params(generics);
                    proof { lemma_visits_step(t0, t, visitor.trace(), done, VisitEvent::GenericParams(*generics)); done = done.push(VisitEvent::GenericParams(*generics)); }
                }
                if let Some(where_clause) = where_clause {
                    let ghost t = visitor.trace();
                    visitor.visit_where_clause(where_clause);
                    proof { lemma_visits_step(t0, t, visitor.trace(), done, VisitEvent::WhereClause(*where_clause)); done = done.push(VisitEvent::WhereClause(*where_clause)); }
                }
            }
            let ghost base = done;
            assert(base + variants@.take(0).map_values(|x| VisitEvent::EnumVariant(x)) =~= base);
            let mut i: usize = 0;
            while i < variants.len()
                invariant
                    i <= variants@.len(),
                    visits_in_order(t0, visitor.trace(), base + variants@.take(i as int).map_values(|x| VisitEvent::EnumVariant(x))),
                decreases variants@.len() - i,
            {
                let ghost t = visitor.trace();
                visitor.visit_enum_variant(&variants[i]);
                proof {
                    lemma_visits_step(t0, t, visitor.trace(), base + variants@.take(i as int).map_values(|x| VisitEvent::EnumVariant(x)), VisitEvent::EnumVariant(variants@[i as int]));
                    assert(base + variants@.take(i as int + 1).map_values(|x| VisitEvent::EnumVariant(x)) =~= (base + variants@.take(i as int).map_values(|x| VisitEvent::EnumVariant(x))).push(VisitEvent::EnumVariant(variants@[i as int])));
                }
                i = i + 1;
            }
            proof { assert(variants@.take(variants@.len() as int) =~= variants@); done = base + variants@.map_values(|x| VisitEvent::EnumVariant(x)); }
        },
        Enum::Flag { attrs, vis, variants, .. } => {
            let ghost t = visitor.trace();
            visit_attrs_vis(visitor, attrs, vis);
            proof { lemma_visits_concat(t0, t, visitor.trace(), done, attrs_vis_visits(attrs@, *vis)); done = done + attrs_vis_visits(attrs@, *vis); }
            let ghost before = done;
            proof { lemma_visits_each_start(variants@, |x: FlagEnumVariant| flag_variant_visits(x)); }
            assert(before + Seq::<VisitEvent>::empty() =~= before);
            let mut j: usize = 0;
            while j < variants.len()
                invariant
                    j <= variants@.len(),
                    visits_in_order(t0, visitor.trace(), before + visits_each(variants@.take(j as int), |x: FlagEnumVariant| flag_variant_visits(x))),
                decreases variants@.len() - j,
            {
                let variant = &variants[j];
                proof { done = before + visits_each(variants@.take(j as int), |x: FlagEnumVariant| flag_variant_visits(x)); }
                let attrs = &variant.attrs;
                let ghost base = done;
                assert(base + attrs@.take(0).map_values(|x| VisitEvent::Attribute(x)) =~= base);
                let mut i: usize = 0;
                while i < attrs.len()
                    invariant
                        i <= attrs@.len(),
                        visits_in_order(t0, visitor.trace(), base + attrs@.take(i as int).map_values(|x| VisitEvent::Attribute(x))),
                    decreases attrs@.len() - i,
                {
                    let ghost t = visitor.trace();
                    visitor.visit_attribute(&attrs[i]);
                    proof {
                        lemma_visits_step(t0, t, visitor.trace(), base + attrs@.take(i as int).map_values(|x| VisitEvent::Attribute(x)), VisitEvent::Attribute(attrs@[i as int]));
                        assert(base + attrs@.take(i as int + 1).map_values(|x| VisitEvent::Attribute(x)) =~= (base + attrs@.take(i as int).map_values(|x| VisitEvent::Attribute(x))).push(VisitEvent::Attribute(attrs@[i as int])));
                    }
                    i = i + 1;
                }
                proof { assert(attrs@.take(attrs@.len() as int) =~= attrs@); done = base + attrs@.map_values(|x| VisitEvent::Attribute(x)); }
                if let Some(discriminant) = &variant.discriminant {
                    let ghost t = visitor.trace();
                    visitor.visit_expr(discriminant);
                    proof { lemma_visits_step(t0, t, visitor.trace(), done, VisitEvent::Expr(*discriminant)); done = done.push(VisitEvent::Expr(*discriminant)); }
                }
                proof {
                    lemma_visits_each_step(variants@, |x: FlagEnumVariant| flag_variant_visits(x), j as int);
                    assert(done =~= before + visits_each(variants@.take(j as int + 1), |x: FlagEnumVariant| flag_variant_visits(x)));
                }
                j = j + 1;
            }
            proof { lemma_visits_each_all(variants@, |x: FlagEnumVariant| flag_variant_visits(x)); done = before + visits_each(variants@, |x: FlagEnumVariant| flag_variant_visits(x)); }
        },
    }
    assert(done =~= (match **node { Enum::Adt { attrs, vis, generics, where_clause, variants, .. } => attrs_vis_visits(attrs@, vis) + (if do_generics { opt_visit(generics, |x| VisitEvent::GenericParams(x)) + opt_visit(where_clause, |x| VisitEvent::WhereClause(x)) } else { Seq::empty() }) + variants@.map_values(|x| VisitEvent::EnumVariant(x)), Enum::Flag { attrs, vis, variants, .. } => attrs_vis_visits(attrs@, vis) + visits_each(variants@, |x: FlagEnumVariant| flag_variant_visits(x)) }));
}

/// The calls of [`visit_enum_variant`]: the attributes, the fields, then
/// the discriminant where there is one.
pub open spec fn enum_variant_visits(variant: EnumVariant) -> Seq<VisitEvent> {
    (match variant { EnumVariant::Struct { attrs, fields, discriminant, .. } => attrs@.map_values(|x| VisitEvent::Attribute(x)) + fields@.map_values(|x| VisitEvent::RegStructField(x)) + opt_visit(discriminant, |x| VisitEvent::Expr(x)), EnumVariant::Tuple { attrs, fields, discriminant, .. } => attrs@.map_values(|x| VisitEvent::Attribute(x)) + fields@.map_values(|x| VisitEvent::TupleStructField(x)) + opt_visit(discriminant, |x| VisitEvent::Expr(x)), EnumVariant::Fieldless { attrs, discriminant, .. } => attrs@.map_values(|x| VisitEvent::Attribute(x)) + opt_visit(discriminant, |x| VisitEvent::Expr(x)) })
}

pub fn visit_enum_variant<T: Visitor>(visitor: &mut T, variant: &EnumVariant)
    ensures
        visits_in_order(old(visitor).trace(), final(visitor).trace(), enum_variant_visits(*variant)),
{
    let ghost t0 = visitor.trace();
    proof { lemma_visits_none(t0); }
    let ghost mut done: Seq<VisitEvent> = Seq::empty();
    match variant {
        EnumVariant::Struct { attrs, fields, discriminant, .. } => {
            let ghost base = done;
            assert(base + attrs@.take(0).map_values(|x| VisitEvent::Attribute(x)) =~= base);
            let mut i: usize = 0;
            while i < attrs.len()
                invariant
                    i <= attrs@.len(),
                    visits_in_order(t0, visitor.trace(), base + attrs@.take(i as int).map_values(|x| VisitEvent::Attribute(x))),
                decreases attrs@.len() - i,
            {
                let ghost t = visitor.trace();
                visitor.visit_attribute(&attrs[i]);
                proof {
                    lemma_visits_step(t0, t, visitor.trace(), base + attrs@.take(i as int).map_values(|x| VisitEvent::Attribute(x)), VisitEvent::Attribute(attrs@[i as int]));
                    assert(base + attrs@.take(i as int + 1).map_values(|x| VisitEvent::Attribute(x)) =~= (base + attrs@.take(i as int).map_values(|x| VisitEvent::Attribute(x))).push(VisitEvent::Attribute(attrs@[i as int])));
                }
                i = i + 1;
            }
            proof { assert(attrs@.take(attrs@.len() as int) =~= attrs@); done = base + attrs@.map_values(|x| VisitEvent::Attribute(x)); }
            let ghost base = done;
            assert(base + fields@.take(0).map_values(|x| VisitEvent::RegStructField(x)) =~= base);
            let mut i: usize = 0;
            while i < fields.len()
                invariant
                    i <= fields@.len(),
                    visits_in_order(t0, visitor.trace(), base + fields@.take(i as int).map_values(|x| VisitEvent::RegStructField(x))),
                decreases fields@.len() - i,
            {
                let ghost t = visitor.trace();
                visitor.visit_reg_struct_field(&fields[i]);
                proof {
                    lemma_visits_step(t0, t, visitor.trace(), base + fields@.take(i as int).map_values(|x| VisitEvent::RegStructField(x)), VisitEvent::RegStructField(fields@[i as int]));
                    assert(base + fields@.take(i as int + 1).map_values(|x| VisitEvent::RegStructField(x)) =~= (base + fields@.take(i as int).map_values(|x| VisitEvent::RegStructField(x))).push(VisitEvent::RegStructField(fields@[i as int])));
                }
                i = i + 1;
            }
            proof { assert(fields@.take(fields@.len() as int) =~= fields@); done = base + fields@.map_values(|x| VisitEvent::RegStructField(x)); }
            if let Some(discriminant) = discriminant {
                let ghost t = visitor.trace();
                visitor.visit_expr(discriminant);
                proof { lemma_visits_step(t0, t, visitor.trace(), done, VisitEvent::Expr(*discriminant)); done = done.push(VisitEvent::Expr(*discriminant)); }
            }
        },
        EnumVariant::Tuple { attrs, fields, discriminant, .. } => {
            let ghost base = done;
            assert(base + attrs@.take(0).map_values(|x| VisitEvent::Attribute(x)) =~= base);
            let mut i: usize = 0;
            while i < attrs.len()
                invariant
                    i <= attrs@.len(),
                    visits_in_order(t0, visitor.trace(), base + attrs@.take(i as int).map_values(|x| VisitEvent::Attribute(x))),
                decreases attrs@.len() - i,
            {
                let ghost t = visitor.trace();
                visitor.visit_attribute(&attrs[i]);
                proof {
                    lemma_visits_step(t0, t, visitor.trace(), base + attrs@.take(i as int).map_values(|x| VisitEvent::Attribute(x)), VisitEvent::Attribute(attrs@[i as int]));
                    assert(base + attrs@.take(i as int + 1).map_values(|x| VisitEvent::Attribute(x)) =~= (base + attrs@.take(i as int).map_values(|x| VisitEvent::Attribute(x))).push(VisitEvent::Attribute(attrs@[i as int])));
                }
                i = i + 1;
            }
            proof { assert(attrs@.take(attrs@.len() as int) =~= attrs@); done = base + attrs@.map_values(|x| VisitEvent::Attribute(x)); }
            let ghost base = done;
            assert(base + fields@.take(0).map_values(|x| VisitEvent::TupleStructField(x)) =~= base);
            let mut i: usize = 0;
            while i < fields.len()
                invariant
                    i <= fields@.len(),
                    visits_in_order(t0, visitor.trace(), base + fields@.take(i as int).map_values(|x| VisitEvent::TupleStructField(x))),
                decreases fields@.len() - i,
            {
                let ghost t = visitor.trace();
                visitor.visit_tuple_struct_field(&fields[i]);
                proof {
                    lemma_visits_step(t0, t, visitor.trace(), base + fields@.take(i as int).map_values(|x| VisitEvent::TupleStructField(x)), VisitEvent::TupleStructField(fields@[i as int]));
                    assert(base + fields@.take(i as int + 1).map_values(|x| VisitEvent::TupleStructField(x)) =~= (base + fields@.take(i as int).map_values(|x| VisitEvent::TupleStructField(x))).push(VisitEvent::TupleStructField(fields@[i as int])));
                }
                i = i + 1;
            }
            proof { assert(fields@.take(fields@.len() as int) =~= fields@); done = base + fields@.map_values(|x| VisitEvent::TupleStructField(x)); }
            if let Some(discriminant) = discriminant {
                let ghost t = visitor.trace();
                visitor.visit_expr(discriminant);
                proof { lemma_visits_step(t0, t, visitor.trace(), done, VisitEvent::Expr(*discriminant)); done = done.push(VisitEvent::Expr(*discriminant)); }
            }
        },
        EnumVariant::Fieldless { attrs, discriminant, .. } => {
            let ghost base = done;
            assert(base + attrs@.take(0).map_values(|x| VisitEvent::Attribute(x)) =~= base);
            let mut i: usize = 0;
            while i < attrs.len()
                invariant
                    i <= attrs@.len(),
                    visits_in_order(t0, visitor.trace(), base + attrs@.take(i as int).map_values(|x| VisitEvent::Attribute(x))),
                decreases attrs@.len() - i,
            {
                let ghost t = visitor.trace();
                visitor.visit_attribute(&attrs[i]);
                proof {
                    lemma_visits_step(t0, t, visitor.trace(), base + attrs@.take(i as int).map_values(|x| VisitEvent::Attribute(x)), VisitEvent::Attribute(attrs@[i as int]));
                    assert(base + attrs@.take(i as int + 1).map_values(|x| VisitEvent::Attribute(x)) =~= (base + attrs@.take(i as int).map_values(|x| VisitEvent::Attribute(x))).push(VisitEvent::Attribute(attrs@[i as int])));
                }
                i = i + 1;
            }
            proof { assert(attrs@.take(attrs@.len() as int) =~= attrs@); done = base + attrs@.map_values(|x| VisitEvent::Attribute(x)); }
            if let Some(discriminant) = discriminant {
                let ghost t = visitor.trace();
                visitor.visit_expr(discriminant);
                proof { lemma_visits_step(t0, t, visitor.trace(), done, VisitEvent::Expr(*discriminant)); done = done.push(VisitEvent::Expr(*discriminant)); }
            }
        },
    }
    assert(done =~= enum_variant_visits(*variant));
}

pub fn visit_bitfield<T: Visitor>(visitor: &mut T, node: &AstNodeRef<Bitfield>, do_generics: bool)
    ensures
        visits_in_order(old(visitor).trace(), final(visitor).trace(), attrs_vis_visits(node.attrs@, node.vis) + (if do_generics { opt_visit(node.generics, |x| VisitEvent::GenericParams(x)) + opt_visit(node.where_clause, |x| VisitEvent::WhereClause(x)) } else { Seq::empty() }) + node.fields@.map_values(|x| VisitEvent::BitfieldField(x))),
{
    let ghost t0 = visitor.trace();
    proof { lemma_visits_none(t0); }
    let ghost mut done: Seq<VisitEvent> = Seq::empty();
    let attrs = &node.attrs;
    let vis = &node.vis;
    let ghost t = visitor.trace();
    visit_attrs_vis(visitor, attrs, vis);
    proof { lemma_visits_concat(t0, t, visitor.trace(), done, attrs_vis_visits(attrs@, *vis)); done = done + attrs_vis_visits(attrs@, *vis); }
    if do_generics {
        if let Some(generics) = &node.generics {
            let ghost t = visitor.trace();
            visitor.visit_generic_params(generics);
            proof { lemma_visits_step(t0, t, visitor.trace(), done, VisitEvent::GenericParams(*generics)); done = done.push(VisitEvent::GenericParams(*generics)); }
        }
        if let Some(where_clause) = &node.where_clause {
            let ghost t = visitor.trace();
            visitor.visit_where_clause(where_clause);
            proof { lemma_visits_step(t0, t, visitor.trace(), done, VisitEvent::WhereClause(*where_clause)); done = done.push(VisitEvent::WhereClause(*where_clause)); }
        }
    }
    let fields = &node.fields;
    let ghost base = done;
    assert(base + fields@.take(0).map_values(|x| VisitEvent::BitfieldField(x)) =~= base);
    let mut i: usize = 0;
    while i < fields.len()
        invariant
            i <= fields@.len(),
            visits_in_order(t0, visitor.trace(), base + fields@.take(i as int).map_values(|x| VisitEvent::BitfieldField(x))),
        decreases fields@.len() - i,
    {
        let ghost t = visitor.trace();
        visitor.visit_bitfield_field(&fields[i]);
        proof {
            lemma_visits_step(t0, t, visitor.trace(), base + fields@.take(i as int).map_values(|x| VisitEvent::BitfieldField(x)), VisitEvent::BitfieldField(fields@[i as int]));
            assert(base + fields@.take(i as int + 1).map_values(|x| VisitEvent::BitfieldField(x)) =~= (base + fields@.take(i as int).map_values(|x| VisitEvent::BitfieldField(x))).push(VisitEvent::BitfieldField(fields@[i as int])));
        }
        i = i + 1;
    }
    proof { assert(fields@.take(fields@.len() as int) =~= fields@); done = base + fields@.map_values(|x| VisitEvent::BitfieldField(x)); }
    assert(done =~= attrs_vis_visits(node.attrs@, node.vis) + (if do_generics { opt_visit(node.generics, |x| VisitEvent::GenericParams(x)) + opt_visit(node.where_clause, |x| VisitEvent::WhereClause(x)) } else { Seq::empty() }) + node.fields@.map_values(|x| VisitEvent::BitfieldField(x)));
}

pub fn visit_bitfield_field<T: Visitor>(visitor: &mut T, field: &BitfieldField)
    ensures
        visits_in_order(old(visitor).trace(), final(visitor).trace(), (match *field { BitfieldField::Field { attrs, vis, bits, def, .. } => attrs_vis_visits(attrs@, vis) + opt_visit(bits, |x| VisitEvent::Expr(x)) + opt_visit(def, |x| VisitEvent::Expr(x)), BitfieldField::Use { attrs, vis, path, bits, .. } => attrs_vis_visits(attrs@, vis) + seq![VisitEvent::TypePath(path)] + opt_visit(bits, |x| VisitEvent::Expr(x)) })),
{
    let ghost t0 = visitor.trace();
    proof { lemma_visits_none(t0); }
    let ghost mut done: Seq<VisitEvent> = Seq::empty();
    match field {
        BitfieldField::Field { attrs, vis, bits, def, .. } => {
            let ghost t = visitor.trace();
            visit_attrs_vis(visitor, attrs, vis);
            proof { lemma_visits_concat(t0, t, visitor.trace(), done, attrs_vis_visits(attrs@, *vis)); done = done + attrs_vis_visits(attrs@, *vis); }
            if let Some(bits) = bits {
                let ghost t = visitor.trace();
                visitor.visit_expr(bits);
                proof { lemma_visits_step(t0, t, visitor.trace(), done, VisitEvent::Expr(*bits)); done = done.push(VisitEvent::Expr(*bits)); }
            }
            if let Some(def) = def {
                let ghost t = visitor.trace();
                visitor.visit_expr(def);
                proof { lemma_visits_step(t0, t, visitor.trace(), done, VisitEvent::Expr(*def)); done = done.push(VisitEvent::Expr(*def)); }
            }
        },
        BitfieldField::Use { attrs, vis, path, bits, .. } => {
            let ghost t = visitor.trace();
            visit_attrs_vis(visitor, attrs, vis);
            proof { lemma_visits_concat(t0, t, visitor.trace(), done, attrs_vis_visits(attrs@, *vis)); done = done + attrs_vis_visits(attrs@, *vis); }
            let ghost t = visitor.trace();
            visitor.visit_type_path(path);
            proof { lemma_visits_step(t0, t, visitor.trace(), done, VisitEvent::TypePath(*path)); done = done.push(VisitEvent::TypePath(*path)); }
            if let Some(bits) = bits {
                let ghost t = visitor.trace();
                visitor.visit_expr(bits);
                proof { lemma_visits_step(t0, t, visitor.trace(), done, VisitEvent::Expr(*bits)); done = done.push(VisitEvent::Expr(*bits)); }
            }
        },
    }
    assert(done =~= (match *field { BitfieldField::Field { attrs, vis, bits, def, .. } => attrs_vis_visits(attrs@, vis) + opt_visit(bits, |x| VisitEvent::Expr(x)) + opt_visit(def, |x| VisitEvent::Expr(x)), BitfieldField::Use { attrs, vis, path, bits, .. } => attrs_vis_visits(attrs@, vis) + seq![VisitEvent::TypePath(path)] + opt_visit(bits, |x| VisitEvent::Expr(x)) }));
}

pub fn visit_const<T: Visitor>(visitor: &mut T, node: &AstNodeRef<Const>)
    ensures
        visits_in_order(old(visitor).trace(), final(visitor).trace(), attrs_vis_visits(node.attrs@, node.vis) + opt_visit(node.ty, |x| VisitEvent::Type(x)) + seq![VisitEvent::Expr(node.val)]),
{
    let ghost t0 = visitor.trace();
    proof { lemma_visits_none(t0); }
    let ghost mut done: Seq<VisitEvent> = Seq::empty();
    let attrs = &node.attrs;
    let vis = &node.vis;
    let ghost t = visitor.trace();
    visit_attrs_vis(visitor, attrs, vis);
    proof { lemma_visits_concat(t0, t, visitor.trace(), done, attrs_vis_visits(attrs@, *vis)); done = done + attrs_vis_visits(attrs@, *vis); }
    if let Some(ty) = &node.ty {
        let ghost t = visitor.trace();
        visitor.visit_type(ty);
        proof { lemma_visits_step(t0, t, visitor.trace(), done, VisitEvent::Type(*ty)); done = done.push(VisitEvent::Type(*ty)); }
    }
    let val = &node.val;
    let ghost t = visitor.trace();
    visitor.visit_expr(val);
    proof { lemma_visits_step(t0, t, visitor.trace(), done, VisitEvent::Expr(*val)); done = done.push(VisitEvent::Expr(*val)); }
    assert(done =~= attrs_vis_visits(node.attrs@, node.vis) + opt_visit(node.ty, |x| VisitEvent::Type(x)) + seq![VisitEvent::Expr(node.val)]);
}

pub fn visit_static<T: Visitor>(visitor: &mut T, node: &AstNodeRef<Static>)
    ensures
        visits_in_order(old(visitor).trace(), final(visitor).trace(), (match **node { Static::Static { attrs, vis, ty, val, .. } => attrs_vis_visits(attrs@, vis) + opt_visit(ty, |x| VisitEvent::Type(x)) + seq![VisitEvent::Expr(val)], Static::Tls { attrs, vis, ty, val, .. } => attrs_vis_visits(attrs@, vis) + opt_visit(ty, |x| VisitEvent::Type(x)) + seq![VisitEvent::Expr(val)], Static::Extern { attrs, vis, ty, .. } => attrs_vis_visits(attrs@, vis) + seq![VisitEvent::Type(ty)] })),
{
    let ghost t0 = visitor.trace();
    proof { lemma_visits_none(t0); }
    let ghost mut done: Seq<VisitEvent> = Seq::empty();
    match &**node {
        Static::Static { attrs, vis, ty, val, .. } => {
            let ghost t = visitor.trace();
            visit_attrs_vis(visitor, attrs, vis);
            proof { lemma_visits_concat(t0, t, visitor.trace(), done, attrs_vis_visits(attrs@, *vis)); done = done + attrs_vis_visits(attrs@, *vis); }
            if let Some(ty) = ty {
                let ghost t = visitor.trace();
                visitor.visit_type(ty);
                proof { lemma_visits_step(t0, t, visitor.trace(), done, VisitEvent::Type(*ty)); done = done.push(VisitEvent::Type(*ty)); }
            }
            let ghost t = visitor.trace();
            visitor.visit_expr(val);
            proof { lemma_visits_step(t0, t, visitor.trace(), done, VisitEvent::Expr(*val)); done = done.push(VisitEvent::Expr(*val)); }
        },
        Static::Tls { attrs, vis, ty, val, .. } => {
            let ghost t = visitor.trace();
            visit_attrs_vis(visitor, attrs, vis);
            proof { lemma_visits_concat(t0, t, visitor.trace(), done, attrs_vis_visits(attrs@, *vis)); done = done + attrs_vis_visits(attrs@, *vis); }
            if let Some(ty) = ty {
                let ghost t = visitor.trace();
                visitor.visit_type(ty);
                proof { lemma_visits_step(t0, t, visitor.trace(), done, VisitEvent::Type(*ty)); done = done.push(VisitEvent::Type(*ty)); }
            }
            let ghost t = visitor.trace();
            visitor.visit_expr(val);
            proof { lemma_visits_step(t0, t, visitor.trace(), done, VisitEvent::Expr(*val)); done = done.push(VisitEvent::Expr(*val)); }
        },
        Static::Extern { attrs, vis, ty, .. } => {
            let ghost t = visitor.trace();
            visit_attrs_vis(visitor, attrs, vis);
            proof { lemma_visits_concat(t0, t, visitor.trace(), done, attrs_vis_visits(attrs@, *vis)); done = done + attrs_vis_visits(attrs@, *vis); }
            let ghost t = visitor.trace();
            visitor.visit_type(ty);
            proof { lemma_visits_step(t0, t, visitor.trace(), done, VisitEvent::Type(*ty)); done = done.push(VisitEvent::Type(*ty)); }
        },
    }
    assert(done =~= (match **node { Static::Static { attrs, vis, ty, val, .. } => attrs_vis_visits(attrs@, vis) + opt_visit(ty, |x| VisitEvent::Type(x)) + seq![VisitEvent::Expr(val)], Static::Tls { attrs, vis, ty, val, .. } => attrs_vis_visits(attrs@, vis) + opt_visit(ty, |x| VisitEvent::Type(x)) + seq![VisitEvent::Expr(val)], Static::Extern { attrs, vis, ty, .. } => attrs_vis_visits(attrs@, vis) + seq![VisitEvent::Type(ty)] }));
}

#[verifier::spinoff_prover]
#[verifier::rlimit(60)]
pub fn visit_property<T: Visitor>(visitor: &mut T, node: &AstNodeRef<Property>)
    ensures
        visits_in_order(old(visitor).trace(), final(visitor).trace(), attrs_vis_visits(node.attrs@, node.vis) + (match node.body { PropertyBody::Assoc { get, ref_get, mut_get, set } => (match get { Some((_, x)) => seq![VisitEvent::Expr(x)], _ => Seq::<VisitEvent>::empty() }) + (match ref_get { Some((_, x)) => seq![VisitEvent::Expr(x)], _ => Seq::<VisitEvent>::empty() }) + (match mut_get { Some((_, x)) => seq![VisitEvent::Expr(x)], _ => Seq::<VisitEvent>::empty() }) + (match set { Some((_, x)) => seq![VisitEvent::Expr(x)], _ => Seq::<VisitEvent>::empty() }), _ => Seq::<VisitEvent>::empty() })),
{
    let ghost t0 = visitor.trace();
    proof { lemma_visits_none(t0); }
    let ghost mut done: Seq<VisitEvent> = Seq::empty();
    let attrs = &node.attrs;
    let vis = &node.vis;
    let ghost t = visitor.trace();
    visit_attrs_vis(visitor, attrs, vis);
    proof { lemma_visits_concat(t0, t, visitor.trace(), done, attrs_vis_visits(attrs@, *vis)); done = done + attrs_vis_visits(attrs@, *vis); }
    match &node.body {
        PropertyBody::Assoc { get, ref_get, mut_get, set } => {
            if let Some((_, expr)) = get {
                let ghost t = visitor.trace();
                visitor.visit_expr(expr);
                proof { lemma_visits_step(t0, t, visitor.trace(), done, VisitEvent::Expr(*expr)); done = done.push(VisitEvent::Expr(*expr)); }
            }
            if let Some((_, expr)) = ref_get {
                let ghost t = visitor.trace();
                visitor.visit_expr(expr);
                proof { lemma_visits_step(t0, t, visitor.trace(), done, VisitEvent::Expr(*expr)); done = done.push(VisitEvent::Expr(*expr)); }
            }
            if let Some((_, expr)) = mut_get {
                let ghost t = visitor.trace();
                visitor.visit_expr(expr);
                proof { lemma_visits_step(t0, t, visitor.trace(), done, VisitEvent::Expr(*expr)); done = done.push(VisitEvent::Expr(*expr)); }
            }
            if let Some((_, expr)) = set {
                let ghost t = visitor.trace();
                visitor.visit_expr(expr);
                proof { lemma_visits_step(t0, t, visitor.trace(), done, VisitEvent::Expr(*expr)); done = done.push(VisitEvent::Expr(*expr)); }
            }
        },
        _ => {},
    }
    assert(done =~= attrs_vis_visits(node.attrs@, node.vis) + (match node.body { PropertyBody::Assoc { get, ref_get, mut_get, set } => (match get { Some((_, x)) => seq![VisitEvent::Expr(x)], _ => Seq::<VisitEvent>::empty() }) + (match ref_get { Some((_, x)) => seq![VisitEvent::Expr(x)], _ => Seq::<VisitEvent>::empty() }) + (match mut_get { Some((_, x)) => seq![VisitEvent::Expr(x)], _ => Seq::<VisitEvent>::empty() }) + (match set { Some((_, x)) => seq![VisitEvent::Expr(x)], _ => Seq::<VisitEvent>::empty() }), _ => Seq::<VisitEvent>::empty() }));
}

// =============================================================================================================================

pub fn visit_trait<T: Visitor>(visitor: &mut T, node: &AstNodeRef<Trait>, do_generics: bool)
    ensures
        visits_in_order(old(visitor).trace(), final(visitor).trace(), attrs_vis_visits(node.attrs@, node.vis) + (if do_generics { opt_visit(node.generics, |x| VisitEvent::GenericParams(x)) } else { Seq::empty() }) + opt_visit(node.bounds, |x| VisitEvent::TraitBounds(x)) + (if do_generics { opt_visit(node.where_clause, |x| VisitEvent::WhereClause(x)) } else { Seq::empty() }) + node.assoc_items@.map_values(|x| VisitEvent::TraitItem(x))),
{
    let ghost t0 = visitor.trace();
    proof { lemma_visits_none(t0); }
    let ghost mut done: Seq<VisitEvent> = Seq::empty();
    let attrs = &node.attrs;
    let vis = &node.vis;
    let ghost t = visitor.trace();
    visit_attrs_vis(visitor, attrs, vis);
    proof { lemma_visits_concat(t0, t, visitor.trace(), done, attrs_vis_visits(attrs@, *vis)); done = done + attrs_vis_visits(attrs@, *vis); }
    if do_generics {
        if let Some(generics) = &node.generics {
            let ghost t = visitor.trace();
            visitor.visit_generic_params(generics);
            proof { lemma_visits_step(t0, t, visitor.trace(), done, VisitEvent::GenericParams(*generics)); done = done.push(VisitEvent::GenericParams(*generics)); }
        }
    }
    if let Some(bounds) = &node.bounds {
        let ghost t = visitor.trace();
        visitor.visit_trait_bounds(bounds);
        proof { lemma_visits_step(t0, t, visitor.trace(), done, VisitEvent::TraitBounds(*bounds)); done = done.push(VisitEvent::TraitBounds(*bounds)); }
    }
    if do_generics {
        if let Some(where_clause) = &node.where_clause {
            let ghost t = visitor.trace();
            visitor.visit_where_clause(where_clause);
            proof { lemma_visits_step(t0, t, visitor.trace(), done, VisitEvent::WhereClause(*where_clause)); done = done.push(VisitEvent::WhereClause(*where_clause)); }
        }
    }
    let assoc_items = &node.assoc_items;
    let ghost base = done;
    assert(base + assoc_items@.take(0).map_values(|x| VisitEvent::TraitItem(x)) =~= base);
    let mut i: usize = 0;
    while i < assoc_items.len()
        invariant
            i <= assoc_items@.len(),
            visits_in_order(t0, visitor.trace(), base + assoc_items@.take(i as int).map_values(|x| VisitEvent::TraitItem(x))),
        decreases assoc_items@.len() - i,
    {
        let ghost t = visitor.trace();
        visitor.visit_trait_item(&assoc_items[i]);
        proof {
            lemma_visits_step(t0, t, visitor.trace(), base + assoc_items@.take(i as int).map_values(|x| VisitEvent::TraitItem(x)), VisitEvent::TraitItem(assoc_items@[i as int]));
            assert(base + assoc_items@.take(i as int + 1).map_values(|x| VisitEvent::TraitItem(x)) =~= (base + assoc_items@.take(i as int).map_values(|x| VisitEvent::TraitItem(x))).push(VisitEvent::TraitItem(assoc_items@[i as int])));
        }
        i = i + 1;
    }
    proof { assert(assoc_items@.take(assoc_items@.len() as int) =~= assoc_items@); done = base + assoc_items@.map_values(|x| VisitEvent::TraitItem(x)); }
    assert(done =~= attrs_vis_visits(node.attrs@, node.vis) + (if do_generics { opt_visit(node.generics, |x| VisitEvent::GenericParams(x)) } else { Seq::empty() }) + opt_visit(node.bounds, |x| VisitEvent::TraitBounds(x)) + (if do_generics { opt_visit(node.where_clause, |x| VisitEvent::WhereClause(x)) } else { Seq::empty() }) + node.assoc_items@.map_values(|x| VisitEvent::TraitItem(x)));
}

#[verifier::spinoff_prover]
#[verifier::rlimit(60)]
pub fn visit_trait_function<T: Visitor>(visitor: &mut T, node: &AstNodeRef<TraitFunction>, do_generics: bool, do_body: bool)
    ensures
        visits_in_order(old(visitor).trace(), final(visitor).trace(), node.attrs@.map_values(|x| VisitEvent::Attribute(x)) + (if do_generics { opt_visit(node.generics, |x| VisitEvent::GenericParams(x)) } else { Seq::empty() }) + visits_each(node.params@, |x: FnParam| fn_param_visits(x)) + (match node.returns { Some(x) => fn_return_visits(x), None => Seq::empty() }) + (if do_generics { opt_visit(node.where_clause, |x| VisitEvent::WhereClause(x)) } else { Seq::empty() }) + node.contracts@.map_values(|x| VisitEvent::Contract(x)) + (if do_body { opt_visit(node.body, |x| VisitEvent::Block(x)) } else { Seq::empty() })),
{
    let ghost t0 = visitor.trace();
    proof { lemma_visits_none(t0); }
    let ghost mut done: Seq<VisitEvent> = Seq::empty();
    let attrs = &node.attrs;
    let ghost base = done;
    assert(base + attrs@.take(0).map_values(|x| VisitEvent::Attribute(x)) =~= base);
    let mut i: usize = 0;
    while i < attrs.len()
        invariant
            i <= attrs@.len(),
            visits_in_order(t0, visitor.trace(), base + attrs@.take(i as int).map_values(|x| VisitEvent::Attribute(x))),
        decreases attrs@.len() - i,
    {
        let ghost t = visitor.trace();
        visitor.visit_attribute(&attrs[i]);
        proof {
            lemma_visits_step(t0, t, visitor.trace(), base + attrs@.take(i as int).map_values(|x| VisitEvent::Attribute(x)), VisitEvent::Attribute(attrs@[i as int]));
            assert(base + attrs@.take(i as int + 1).map_values(|x| VisitEvent::Attribute(x)) =~= (base + attrs@.take(i as int).map_values(|x| VisitEvent::Attribute(x))).push(VisitEvent::Attribute(attrs@[i as int])));
        }
        i = i + 1;
    }
    proof { assert(attrs@.take(attrs@.len() as int) =~= attrs@); done = base + attrs@.map_values(|x| VisitEvent::Attribute(x)); }
    if do_generics {
        if let Some(generics) = &node.generics {
            let ghost t = visitor.trace();
            visitor.visit_generic_params(generics);
            proof { lemma_visits_step(t0, t, visitor.trace(), done, VisitEvent::GenericParams(*generics)); done = done.push(VisitEvent::GenericParams(*generics)); }
        }
    }
    let params = &node.params;
    let ghost before = done;
    proof { lemma_visits_each_start(params@, |x: FnParam| fn_param_visits(x)); }
    assert(before + Seq::<VisitEvent>::empty() =~= before);
    let mut j: usize = 0;
    while j < params.len()
        invariant
            j <= params@.len(),
            visits_in_order(t0, visitor.trace(), before + visits_each(params@.take(j as int), |x: FnParam| fn_param_visits(x))),
        decreases params@.len() - j,
    {
        let param = &params[j];
        proof { done = before + visits_each(params@.take(j as int), |x: FnParam| fn_param_visits(x)); }
        let ghost t = visitor.trace();
        visit_fn_param(visitor, param);
        proof { lemma_visits_concat(t0, t, visitor.trace(), done, fn_param_visits(*param)); done = done + fn_param_visits(*param); }
        proof {
            lemma_visits_each_step(params@, |x: FnParam| fn_param_visits(x), j as int);
            assert(done =~= before + visits_each(params@.take(j as int + 1), |x: FnParam| fn_param_visits(x)));
        }
        j = j + 1;
    }
    proof { lemma_visits_each_all(params@, |x: FnParam| fn_param_visits(x)); done = before + visits_each(params@, |x: FnParam| fn_param_visits(x)); }
    if let Some(ret) = &node.returns {
        let ghost t = visitor.trace();
        visit_fn_return(visitor, ret);
        proof { lemma_visits_concat(t0, t, visitor.trace(), done, fn_return_visits(*ret)); done = done + fn_return_visits(*ret); }
    }
    if do_generics {
        if let Some(where_clause) = &node.where_clause {
            let ghost t = visitor.trace();
            visitor.visit_where_clause(where_clause);
            proof { lemma_visits_step(t0, t, visitor.trace(), done, VisitEvent::WhereClause(*where_clause)); done = done.push(VisitEvent::WhereClause(*where_clause)); }
        }
    }
    let contracts = &node.contracts;
    let ghost base = done;
    assert(base + contracts@.take(0).map_values(|x| VisitEvent::Contract(x)) =~= base);
    let mut i: usize = 0;
    while i < contracts.len()
        invariant
            i <= contracts@.len(),
            visits_in_order(t0, visitor.trace(), base + contracts@.take(i as int).map_values(|x| VisitEvent::Contract(x))),
        decreases contracts@.len() - i,
    {
        let ghost t = visitor.trace();
        visitor.visit_contract(&contracts[i]);
        proof {
            lemma_visits_step(t0, t, visitor.trace(), base + contracts@.take(i as int).map_values(|x| VisitEvent::Contract(x)), VisitEvent::Contract(contracts@[i as int]));
            assert(base + contracts@.take(i as int + 1).map_values(|x| VisitEvent::Contract(x)) =~= (base + contracts@.take(i as int).map_values(|x| VisitEvent::Contract(x))).push(VisitEvent::Contract(contracts@[i as int])));
        }
        i = i + 1;
    }
    proof { assert(contracts@.take(contracts@.len() as int) =~= contracts@); done = base + contracts@.map_values(|x| VisitEvent::Contract(x)); }
    if do_body {
        if let Some(body) = &node.body {
            let ghost t = visitor.trace();
            visitor.visit_block(body);
            proof { lemma_visits_step(t0, t, visitor.trace(), done, VisitEvent::Block(*body)); done = done.push(VisitEvent::Block(*body)); }
        }
    }
    assert(done =~= node.attrs@.map_values(|x| VisitEvent::Attribute(x)) + (if do_generics { opt_visit(node.generics, |x| VisitEvent::GenericParams(x)) } else { Seq::empty() }) + visits_each(node.params@, |x: FnParam| fn_param_visits(x)) + (match node.returns { Some(x) => fn_return_visits(x), None => Seq::empty() }) + (if do_generics { opt_visit(node.where_clause, |x| VisitEvent::WhereClause(x)) } else { Seq::empty() }) + node.contracts@.map_values(|x| VisitEvent::Contract(x)) + (if do_body { opt_visit(node.body, |x| VisitEvent::Block(x)) } else { Seq::empty() }));
}

#[verifier::spinoff_prover]
#[verifier::rlimit(60)]
pub fn visit_trait_method<T: Visitor>(visitor: &mut T, node: &AstNodeRef<TraitMethod>, do_generics: bool, do_body: bool)
    ensures
        visits_in_order(old(visitor).trace(), final(visitor).trace(), node.attrs@.map_values(|x| VisitEvent::Attribute(x)) + (if do_generics { opt_visit(node.generics, |x| VisitEvent::GenericParams(x)) } else { Seq::empty() }) + (match node.receiver { FnReceiver::SelfTyped { ty, .. } => seq![VisitEvent::Type(ty)], _ => Seq::<VisitEvent>::empty() }) + visits_each(node.params@, |x: FnParam| fn_param_visits(x)) + (match node.returns { Some(x) => fn_return_visits(x), None => Seq::empty() }) + (if do_generics { opt_visit(node.where_clause, |x| VisitEvent::WhereClause(x)) } else { Seq::empty() }) + node.contracts@.map_values(|x| VisitEvent::Contract(x)) + (if do_body { opt_visit(node.body, |x| VisitEvent::Block(x)) } else { Seq::empty() })),
{
    let ghost t0 = visitor.trace();
    proof { lemma_visits_none(t0); }
    let ghost mut done: Seq<VisitEvent> = Seq::empty();
    let attrs = &node.attrs;
    let ghost base = done;
    assert(base + attrs@.take(0).map_values(|x| VisitEvent::Attribute(x)) =~= base);
    let mut i: usize = 0;
    while i < attrs.len()
        invariant
            i <= attrs@.len(),
            visits_in_order(t0, visitor.trace(), base + attrs@.take(i as int).map_values(|x| VisitEvent::Attribute(x))),
        decreases attrs@.len() - i,
    {
        let ghost t = visitor.trace();
        visitor.visit_attribute(&attrs[i]);
        proof {
            lemma_visits_step(t0, t, visitor.trace(), base + attrs@.take(i as int).map_values(|x| VisitEvent::Attribute(x)), VisitEvent::Attribute(attrs@[i as int]));
            assert(base + attrs@.take(i as int + 1).map_values(|x| VisitEvent::Attribute(x)) =~= (base + attrs@.take(i as int).map_values(|x| VisitEvent::Attribute(x))).push(VisitEvent::Attribute(attrs@[i as int])));
        }
        i = i + 1;
    }
    proof { assert(attrs@.take(attrs@.len() as int) =~= attrs@); done = base + attrs@.map_values(|x| VisitEvent::Attribute(x)); }
    if do_generics {
        if let Some(generics) = &node.generics {
            let ghost t = visitor.trace();
            visitor.visit_generic_params(generics);
            proof { lemma_visits_step(t0, t, visitor.trace(), done, VisitEvent::GenericParams(*generics)); done = done.push(VisitEvent::GenericParams(*generics)); }
        }
    }
    match &node.receiver {
        FnReceiver::SelfTyped { ty, .. } => {
            let ghost t = visitor.trace();
            visitor.visit_type(ty);
            proof { lemma_visits_step(t0, t, visitor.trace(), done, VisitEvent::Type(*ty)); done = done.push(VisitEvent::Type(*ty)); }
        },
        _ => {},
    }
    let params = &node.params;
    let ghost before = done;
    proof { lemma_visits_each_start(params@, |x: FnParam| fn_param_visits(x)); }
    assert(before + Seq::<VisitEvent>::empty() =~= before);
    let mut j: usize = 0;
    while j < params.len()
        invariant
            j <= params@.len(),
            visits_in_order(t0, visitor.trace(), before + visits_each(params@.take(j as int), |x: FnParam| fn_param_visits(x))),
        decreases params@.len() - j,
    {
        let param = &params[j];
        proof { done = before + visits_each(params@.take(j as int), |x: FnParam| fn_param_visits(x)); }
        let ghost t = visitor.trace();
        visit_fn_param(visitor, param);
        proof { lemma_visits_concat(t0, t, visitor.trace(), done, fn_param_visits(*param)); done = done + fn_param_visits(*param); }
        proof {
            lemma_visits_each_step(params@, |x: FnParam| fn_param_visits(x), j as int);
            assert(done =~= before + visits_each(params@.take(j as int + 1), |x: FnParam| fn_param_visits(x)));
        }
        j = j + 1;
    }
    proof { lemma_visits_each_all(params@, |x: FnParam| fn_param_visits(x)); done = before + visits_each(params@, |x: FnParam| fn_param_visits(x)); }
    if let Some(ret) = &node.returns {
        let ghost t = visitor.trace();
        visit_fn_return(visitor, ret);
        proof { lemma_visits_concat(t0, t, visitor.trace(), done, fn_return_visits(*ret)); done = done + fn_return_visits(*ret); }
    }
    if do_generics {
        if let Some(where_clause) = &node.where_clause {
            let ghost t = visitor.trace();
            visitor.visit_where_clause(where_clause);
            proof { lemma_visits_step(t0, t, visitor.trace(), done, VisitEvent::WhereClause(*where_clause)); done = done.push(VisitEvent::WhereClause(*where_clause)); }
        }
    }
    let contracts = &node.contracts;
    let ghost base = done;
    assert(base + contracts@.take(0).map_values(|x| VisitEvent::Contract(x)) =~= base);
    let mut i: usize = 0;
    while i < contracts.len()
        invariant
            i <= contracts@.len(),
            visits_in_order(t0, visitor.trace(), base + contracts@.take(i as int).map_values(|x| VisitEvent::Contract(x))),
        decreases contracts@.len() - i,
    {
        let ghost t = visitor.trace();
        visitor.visit_contract(&contracts[i]);
        proof {
            lemma_visits_step(t0, t, visitor.trace(), base + contracts@.take(i as int).map_values(|x| VisitEvent::Contract(x)), VisitEvent::Contract(contracts@[i as int]));
            assert(base + contracts@.take(i as int + 1).map_values(|x| VisitEvent::Contract(x)) =~= (base + contracts@.take(i as int).map_values(|x| VisitEvent::Contract(x))).push(VisitEvent::Contract(contracts@[i as int])));
        }
        i = i + 1;
    }
    proof { assert(contracts@.take(contracts@.len() as int) =~= contracts@); done = base + contracts@.map_values(|x| VisitEvent::Contract(x)); }
    if do_body {
        if let Some(body) = &node.body {
            let ghost t = visitor.trace();
            visitor.visit_block(body);
            proof { lemma_visits_step(t0, t, visitor.trace(), done, VisitEvent::Block(*body)); done = done.push(VisitEvent::Block(*body)); }
        }
    }
    assert(done =~= node.attrs@.map_values(|x| VisitEvent::Attribute(x)) + (if do_generics { opt_visit(node.generics, |x| VisitEvent::GenericParams(x)) } else { Seq::empty() }) + (match node.receiver { FnReceiver::SelfTyped { ty, .. } => seq![VisitEvent::Type(ty)], _ => Seq::<VisitEvent>::empty() }) + visits_each(node.params@, |x: FnParam| fn_param_visits(x)) + (match node.returns { Some(x) => fn_return_visits(x), None => Seq::empty() }) + (if do_generics { opt_visit(node.where_clause, |x| VisitEvent::WhereClause(x)) } else { Seq::empty() }) + node.contracts@.map_values(|x| VisitEvent::Contract(x)) + (if do_body { opt_visit(node.body, |x| VisitEvent::Block(x)) } else { Seq::empty() }));
}

pub fn visit_trait_type_alias<T: Visitor>(visitor: &mut T, node: &AstNodeRef<TraitTypeAlias>, do_generics: bool)
    ensures
        visits_in_order(old(visitor).trace(), final(visitor).trace(), node.attrs@.map_values(|x| VisitEvent::Attribute(x)) + (if do_generics { opt_visit(node.generics, |x| VisitEvent::GenericParams(x)) + visits_each(node.bounds@, |x: GenericTypeBound| type_bound_visits(x)) + opt_visit(node.where_clause, |x| VisitEvent::WhereClause(x)) } else { Seq::empty() }) + opt_visit(node.def, |x| VisitEvent::Type(x))),
{
    let ghost t0 = visitor.trace();
    proof { lemma_visits_none(t0); }
    let ghost mut done: Seq<VisitEvent> = Seq::empty();
    let attrs = &node.attrs;
    let ghost base = done;
    assert(base + attrs@.take(0).map_values(|x| VisitEvent::Attribute(x)) =~= base);
    let mut i: usize = 0;
    while i < attrs.len()
        invariant
            i <= attrs@.len(),
            visits_in_order(t0, visitor.trace(), base + attrs@.take(i as int).map_values(|x| VisitEvent::Attribute(x))),
        decreases attrs@.len() - i,
    {
        let ghost t = visitor.trace();
        visitor.visit_attribute(&attrs[i]);
        proof {
            lemma_visits_step(t0, t, visitor.trace(), base + attrs@.take(i as int).map_values(|x| VisitEvent::Attribute(x)), VisitEvent::Attribute(attrs@[i as int]));
            assert(base + attrs@.take(i as int + 1).map_values(|x| VisitEvent::Attribute(x)) =~= (base + attrs@.take(i as int).map_values(|x| VisitEvent::Attribute(x))).push(VisitEvent::Attribute(attrs@[i as int])));
        }
        i = i + 1;
    }
    proof { assert(attrs@.take(attrs@.len() as int) =~= attrs@); done = base + attrs@.map_values(|x| VisitEvent::Attribute(x)); }
    if do_generics {
        if let Some(generics) = &node.generics {
            let ghost t = visitor.trace();
            visitor.visit_generic_params(generics);
            proof { lemma_visits_step(t0, t, visitor.trace(), done, VisitEvent::GenericParams(*generics)); done = done.push(VisitEvent::GenericParams(*generics)); }
        }
        let bounds = &node.bounds;
        let ghost before = done;
        proof { lemma_visits_each_start(bounds@, |x: GenericTypeBound| type_bound_visits(x)); }
        assert(before + Seq::<VisitEvent>::empty() =~= before);
        let mut j: usize = 0;
        while j < bounds.len()
            invariant
                j <= bounds@.len(),
                visits_in_order(t0, visitor.trace(), before + visits_each(bounds@.take(j as int), |x: GenericTypeBound| type_bound_visits(x))),
            decreases bounds@.len() - j,
        {
            let bound = &bounds[j];
            proof { done = before + visits_each(bounds@.take(j as int), |x: GenericTypeBound| type_bound_visits(x)); }
            match bound {
                GenericTypeBound::Type(path) => {
                    let ghost t = visitor.trace();
                    visitor.visit_type_path(path);
                    proof { lemma_visits_step(t0, t, visitor.trace(), done, VisitEvent::TypePath(*path)); done = done.push(VisitEvent::TypePath(*path)); }
                },
            }
            proof {
                lemma_visits_each_step(bounds@, |x: GenericTypeBound| type_bound_visits(x), j as int);
                assert(done =~= before + visits_each(bounds@.take(j as int + 1), |x: GenericTypeBound| type_bound_visits(x)));
            }
            j = j + 1;
        }
        proof { lemma_visits_each_all(bounds@, |x: GenericTypeBound| type_bound_visits(x)); done = before + visits_each(bounds@, |x: GenericTypeBound| type_bound_visits(x)); }
        if let Some(where_clause) = &node.where_clause {
            let ghost t = visitor.trace();
            visitor.visit_where_clause(where_clause);
            proof { lemma_visits_step(t0, t, visitor.trace(), done, VisitEvent::WhereClause(*where_clause)); done = done.push(VisitEvent::WhereClause(*where_clause)); }
        }
    }
    if let Some(def) = &node.def {
        let ghost t = visitor.trace();
        visitor.visit_type(def);
        proof { lemma_visits_step(t0, t, visitor.trace(), done, VisitEvent::Type(*def)); done = done.push(VisitEvent::Type(*def)); }
    }
    assert(done =~= node.attrs@.map_values(|x| VisitEvent::Attribute(x)) + (if do_generics { opt_visit(node.generics, |x| VisitEvent::GenericParams(x)) + visits_each(node.bounds@, |x: GenericTypeBound| type_bound_visits(x)) + opt_visit(node.where_clause, |x| VisitEvent::WhereClause(x)) } else { Seq::empty() }) + opt_visit(node.def, |x| VisitEvent::Type(x)));
}

pub fn visit_trait_const<T: Visitor>(visitor: &mut T, node: &AstNodeRef<TraitConst>)
    ensures
        visits_in_order(old(visitor).trace(), final(visitor).trace(), node.attrs@.map_values(|x| VisitEvent::Attribute(x)) + seq![VisitEvent::Type(node.ty)] + opt_visit(node.def, |x| VisitEvent::Expr(x))),
{
    let ghost t0 = visitor.trace();
    proof { lemma_visits_none(t0); }
    let ghost mut done: Seq<VisitEvent> = Seq::empty();
    let attrs = &node.attrs;
    let ghost base = done;
    assert(base + attrs@.take(0).map_values(|x| VisitEvent::Attribute(x)) =~= base);
    let mut i: usize = 0;
    while i < attrs.len()
        invariant
            i <= attrs@.len(),
            visits_in_order(t0, visitor.trace(), base + attrs@.take(i as int).map_values(|x| VisitEvent::Attribute(x))),
        decreases attrs@.len() - i,
    {
        let ghost t = visitor.trace();
        visitor.visit_attribute(&attrs[i]);
        proof {
            lemma_visits_step(t0, t, visitor.trace(), base + attrs@.take(i as int).map_values(|x| VisitEvent::Attribute(x)), VisitEvent::Attribute(attrs@[i as int]));
            assert(base + attrs@.take(i as int + 1).map_values(|x| VisitEvent::Attribute(x)) =~= (base + attrs@.take(i as int).map_values(|x| VisitEvent::Attribute(x))).push(VisitEvent::Attribute(attrs@[i as int])));
        }
        i = i + 1;
    }
    proof { assert(attrs@.take(attrs@.len() as int) =~= attrs@); done = base + attrs@.map_values(|x| VisitEvent::Attribute(x)); }
    let ty = &node.ty;
    let ghost t = visitor.trace();
    visitor.visit_type(ty);
    proof { lemma_visits_step(t0, t, visitor.trace(), done, VisitEvent::Type(*ty)); done = done.push(VisitEvent::Type(*ty)); }
    if let Some(def) = &node.def {
        let ghost t = visitor.trace();
        visitor.visit_expr(def);
        proof { lemma_visits_step(t0, t, visitor.trace(), done, VisitEvent::Expr(*def)); done = done.push(VisitEvent::Expr(*def)); }
    }
    assert(done =~= node.attrs@.map_values(|x| VisitEvent::Attribute(x)) + seq![VisitEvent::Type(node.ty)] + opt_visit(node.def, |x| VisitEvent::Expr(x)));
}

#[verifier::spinoff_prover]
#[verifier::rlimit(60)]
pub fn visit_trait_property<T: Visitor>(visitor: &mut T, node: &AstNodeRef<TraitProperty>)
    ensures
        visits_in_order(old(visitor).trace(), final(visitor).trace(), node.attrs@.map_values(|x| VisitEvent::Attribute(x)) + (match node.get { Some((_, Some(x))) => seq![VisitEvent::Expr(x)], _ => Seq::<VisitEvent>::empty() }) + (match node.ref_get { Some((_, Some(x))) => seq![VisitEvent::Expr(x)], _ => Seq::<VisitEvent>::empty() }) + (match node.mut_get { Some((_, Some(x))) => seq![VisitEvent::Expr(x)], _ => Seq::<VisitEvent>::empty() }) + (match node.set { Some((_, Some(x))) => seq![VisitEvent::Expr(x)], _ => Seq::<VisitEvent>::empty() })),
{
    let ghost t0 = visitor.trace();
    proof { lemma_visits_none(t0); }
    let ghost mut done: Seq<VisitEvent> = Seq::empty();
    let attrs = &node.attrs;
    let ghost base = done;
    assert(base + attrs@.take(0).map_values(|x| VisitEvent::Attribute(x)) =~= base);
    let mut i: usize = 0;
    while i < attrs.len()
        invariant
            i <= attrs@.len(),
            visits_in_order(t0, visitor.trace(), base + attrs@.take(i as int).map_values(|x| VisitEvent::Attribute(x))),
        decreases attrs@.len() - i,
    {
        let ghost t = visitor.trace();
        visitor.visit_attribute(&attrs[i]);
        proof {
            lemma_visits_step(t0, t, visitor.trace(), base + attrs@.take(i as int).map_values(|x| VisitEvent::Attribute(x)), VisitEvent::Attribute(attrs@[i as int]));
            assert(base + attrs@.take(i as int + 1).map_values(|x| VisitEvent::Attribute(x)) =~= (base + attrs@.take(i as int).map_values(|x| VisitEvent::Attribute(x))).push(VisitEvent::Attribute(attrs@[i as int])));
        }
        i = i + 1;
    }
    proof { assert(attrs@.take(attrs@.len() as int) =~= attrs@); done = base + attrs@.map_values(|x| VisitEvent::Attribute(x)); }
    if let Some((_, Some(expr))) = &node.get {
        let ghost t = visitor.trace();
        visitor.visit_expr(expr);
        proof { lemma_visits_step(t0, t, visitor.trace(), done, VisitEvent::Expr(*expr)); done = done.push(VisitEvent::Expr(*expr)); }
    }
    if let Some((_, Some(expr))) = &node.ref_get {
        let ghost t = visitor.trace();
        visitor.visit_expr(expr);
        proof { lemma_visits_step(t0, t, visitor.trace(), done, VisitEvent::Expr(*expr)); done = done.push(VisitEvent::Expr(*expr)); }
    }
    if let Some((_, Some(expr))) = &node.mut_get {
        let ghost t = visitor.trace();
        visitor.visit_expr(expr);
        proof { lemma_visits_step(t0, t, visitor.trace(), done, VisitEvent::Expr(*expr)); done = done.push(VisitEvent::Expr(*expr)); }
    }
    if let Some((_, Some(expr))) = &node.set {
        let ghost t = visitor.trace();
        visitor.visit_expr(expr);
        proof { lemma_visits_step(t0, t, visitor.trace(), done, VisitEvent::Expr(*expr)); done = done.push(VisitEvent::Expr(*expr)); }
    }
    assert(done =~= node.attrs@.map_values(|x| VisitEvent::Attribute(x)) + (match node.get { Some((_, Some(x))) => seq![VisitEvent::Expr(x)], _ => Seq::<VisitEvent>::empty() }) + (match node.ref_get { Some((_, Some(x))) => seq![VisitEvent::Expr(x)], _ => Seq::<VisitEvent>::empty() }) + (match node.mut_get { Some((_, Some(x))) => seq![VisitEvent::Expr(x)], _ => Seq::<VisitEvent>::empty() }) + (match node.set { Some((_, Some(x))) => seq![VisitEvent::Expr(x)], _ => Seq::<VisitEvent>::empty() }));
}

pub fn visit_impl<T: Visitor>(visitor: &mut T, node: &AstNodeRef<Impl>, do_generics: bool)
    ensures
        visits_in_order(old(visitor).trace(), final(visitor).trace(), attrs_vis_visits(node.attrs@, node.vis) + (if do_generics { opt_visit(node.generics, |x| VisitEvent::GenericParams(x)) } else { Seq::empty() }) + seq![VisitEvent::Type(node.ty)] + (if do_generics { opt_visit(node.where_clause, |x| VisitEvent::WhereClause(x)) } else { Seq::empty() }) + node.assoc_items@.map_values(|x| VisitEvent::AssocItem(x))),
{
    let ghost t0 = visitor.trace();
    proof { lemma_visits_none(t0); }
    let ghost mut done: Seq<VisitEvent> = Seq::empty();
    let attrs = &node.attrs;
    let vis = &node.vis;
    let ghost t = visitor.trace();
    visit_attrs_vis(visitor, attrs, vis);
    proof { lemma_visits_concat(t0, t, visitor.trace(), done, attrs_vis_visits(attrs@, *vis)); done = done + attrs_vis_visits(attrs@, *vis); }
    if do_generics {
        if let Some(generics) = &node.generics {
            let ghost t = visitor.trace();
            visitor.visit_generic_params(generics);
            proof { lemma_visits_step(t0, t, visitor.trace(), done, VisitEvent::GenericParams(*generics)); done = done.push(VisitEvent::GenericParams(*generics)); }
        }
    }
    let ty = &node.ty;
    let ghost t = visitor.trace();
    visitor.visit_type(ty);
    proof { lemma_visits_step(t0, t, visitor.trace(), done, VisitEvent::Type(*ty)); done = done.push(VisitEvent::Type(*ty)); }
    if do_generics {
        if let Some(where_clause) = &node.where_clause {
            let ghost t = visitor.trace();
            visitor.visit_where_clause(where_clause);
            proof { lemma_visits_step(t0, t, visitor.trace(), done, VisitEvent::WhereClause(*where_clause)); done = done.push(VisitEvent::WhereClause(*where_clause)); }
        }
    }
    let assoc_items = &node.assoc_items;
    let ghost base = done;
    assert(base + assoc_items@.take(0).map_values(|x| VisitEvent::AssocItem(x)) =~= base);
    let mut i: usize = 0;
    while i < assoc_items.len()
        invariant
            i <= assoc_items@.len(),
            visits_in_order(t0, visitor.trace(), base + assoc_items@.take(i as int).map_values(|x| VisitEvent::AssocItem(x))),
        decreases assoc_items@.len() - i,
    {
        let ghost t = visitor.trace();
        visitor.visit_assoc_item(&assoc_items[i]);
        proof {
            lemma_visits_step(t0, t, visitor.trace(), base + assoc_items@.take(i as int).map_values(|x| VisitEvent::AssocItem(x)), VisitEvent::AssocItem(assoc_items@[i as int]));
            assert(base + assoc_items@.take(i as int + 1).map_values(|x| VisitEvent::AssocItem(x)) =~= (base + assoc_items@.take(i as int).map_values(|x| VisitEvent::AssocItem(x))).push(VisitEvent::AssocItem(assoc_items@[i as int])));
        }
        i = i + 1;
    }
    proof { assert(assoc_items@.take(assoc_items@.len() as int) =~= assoc_items@); done = base + assoc_items@.map_values(|x| VisitEvent::AssocItem(x)); }
    assert(done =~= attrs_vis_visits(node.attrs@, node.vis) + (if do_generics { opt_visit(node.generics, |x| VisitEvent::GenericParams(x)) } else { Seq::empty() }) + seq![VisitEvent::Type(node.ty)] + (if do_generics { opt_visit(node.where_clause, |x| VisitEvent::WhereClause(x)) } else { Seq::empty() }) + node.assoc_items@.map_values(|x| VisitEvent::AssocItem(x)));
}

pub fn visit_extern_block<T: Visitor>(visitor: &mut T, node: &AstNodeRef<ExternBlock>)
    ensures
        visits_in_order(old(visitor).trace(), final(visitor).trace(), attrs_vis_visits(node.attrs@, node.vis) + node.items@.map_values(|x| VisitEvent::ExternItem(x))),
{
    let ghost t0 = visitor.trace();
    proof { lemma_visits_none(t0); }
    let ghost mut done: Seq<VisitEvent> = Seq::empty();
    let attrs = &node.attrs;
    let vis = &node.vis;
    let ghost t = visitor.trace();
    visit_attrs_vis(visitor, attrs, vis);
    proof { lemma_visits_concat(t0, t, visitor.trace(), done, attrs_vis_visits(attrs@, *vis)); done = done + attrs_vis_visits(attrs@, *vis); }
    let items = &node.items;
    let ghost base = done;
    assert(base + items@.take(0).map_values(|x| VisitEvent::ExternItem(x)) =~= base);
    let mut i: usize = 0;
    while i < items.len()
        invariant
            i <= items@.len(),
            visits_in_order(t0, visitor.trace(), base + items@.take(i as int).map_values(|x| VisitEvent::ExternItem(x))),
        decreases items@.len() - i,
    {
        let ghost t = visitor.trace();
        visitor.visit_extern_item(&items[i]);
        proof {
            lemma_visits_step(t0, t, visitor.trace(), base + items@.take(i as int).map_values(|x| VisitEvent::ExternItem(x)), VisitEvent::ExternItem(items@[i as int]));
            assert(base + items@.take(i as int + 1).map_values(|x| VisitEvent::ExternItem(x)) =~= (base + items@.take(i as int).map_values(|x| VisitEvent::ExternItem(x))).push(VisitEvent::ExternItem(items@[i as int])));
        }
        i = i + 1;
    }
    proof { assert(items@.take(items@.len() as int) =~= items@); done = base + items@.map_values(|x| VisitEvent::ExternItem(x)); }
    assert(done =~= attrs_vis_visits(node.attrs@, node.vis) + node.items@.map_values(|x| VisitEvent::ExternItem(x)));
}

pub fn visit_op_trait<T: Visitor>(visitor: &mut T, node: &AstNodeRef<OpTrait>)
    ensures
        visits_in_order(old(visitor).trace(), final(visitor).trace(), (match **node { OpTrait::Base { attrs, vis, elems, .. } => attrs_vis_visits(attrs@, vis) + visits_each(elems@, |x: OpElem| op_elem_visits(x)), OpTrait::Extended { attrs, vis, elems, .. } => attrs_vis_visits(attrs@, vis) + visits_each(elems@, |x: OpElem| op_elem_visits(x)) })),
{
    let ghost t0 = visitor.trace();
    proof { lemma_visits_none(t0); }
    let ghost mut done: Seq<VisitEvent> = Seq::empty();
    match &**node {
        OpTrait::Base { attrs, vis, elems, .. } => {
            let ghost t = visitor.trace();
            visit_attrs_vis(visitor, attrs, vis);
            proof { lemma_visits_concat(t0, t, visitor.trace(), done, attrs_vis_visits(attrs@, *vis)); done = done + attrs_vis_visits(attrs@, *vis); }
            let ghost before = done;
            proof { lemma_visits_each_start(elems@, |x: OpElem| op_elem_visits(x)); }
            assert(before + Seq::<VisitEvent>::empty() =~= before);
            let mut j: usize = 0;
            while j < elems.len()
                invariant
                    j <= elems@.len(),
                    visits_in_order(t0, visitor.trace(), before + visits_each(elems@.take(j as int), |x: OpElem| op_elem_visits(x))),
                decreases elems@.len() - j,
            {
                let elem = &elems[j];
                proof { done = before + visits_each(elems@.take(j as int), |x: OpElem| op_elem_visits(x)); }
                let ghost t = visitor.trace();
                visit_op_elem(visitor, elem);
                proof { lemma_visits_concat(t0, t, visitor.trace(), done, op_elem_visits(*elem)); done = done + op_elem_visits(*elem); }
                proof {
                    lemma_visits_each_step(elems@, |x: OpElem| op_elem_visits(x), j as int);
                    assert(done =~= before + visits_each(elems@.take(j as int + 1), |x: OpElem| op_elem_visits(x)));
                }
                j = j + 1;
            }
            proof { lemma_visits_each_all(elems@, |x: OpElem| op_elem_visits(x)); done = before + visits_each(elems@, |x: OpElem| op_elem_visits(x)); }
        },
        OpTrait::Extended { attrs, vis, elems, .. } => {
            let ghost t = visitor.trace();
            visit_attrs_vis(visitor, attrs, vis);
            proof { lemma_visits_concat(t0, t, visitor.trace(), done, attrs_vis_visits(attrs@, *vis)); done = done + attrs_vis_visits(attrs@, *vis); }
            let ghost before = done;
            proof { lemma_visits_each_start(elems@, |x: OpElem| op_elem_visits(x)); }
            assert(before + Seq::<VisitEvent>::empty() =~= before);
            let mut j: usize = 0;
            while j < elems.len()
                invariant
                    j <= elems@.len(),
                    visits_in_order(t0, visitor.trace(), before + visits_each(elems@.take(j as int), |x: OpElem| op_elem_visits(x))),
                decreases elems@.len() - j,
            {
                let elem = &elems[j];
                proof { done = before + visits_each(elems@.take(j as int), |x: OpElem| op_elem_visits(x)); }
                let ghost t = visitor.trace();
                visit_op_elem(visitor, elem);
                proof { lemma_visits_concat(t0, t, visitor.trace(), done, op_elem_visits(*elem)); done = done + op_elem_visits(*elem); }
                proof {
                    lemma_visits_each_step(elems@, |x: OpElem| op_elem_visits(x), j as int);
                    assert(done =~= before + visits_each(elems@.take(j as int + 1), |x: OpElem| op_elem_visits(x)));
                }
                j = j + 1;
            }
            proof { lemma_visits_each_all(elems@, |x: OpElem| op_elem_visits(x)); done = before + visits_each(elems@, |x: OpElem| op_elem_visits(x)); }
        },
    }
    assert(done =~= (match **node { OpTrait::Base { attrs, vis, elems, .. } => attrs_vis_visits(attrs@, vis) + visits_each(elems@, |x: OpElem| op_elem_visits(x)), OpTrait::Extended { attrs, vis, elems, .. } => attrs_vis_visits(attrs@, vis) + visits_each(elems@, |x: OpElem| op_elem_visits(x)) }));
}

/// The calls of [`visit_op_elem`]: the return type and default of a
/// definition, or the block of a contract.
pub open spec fn op_elem_visits(elem: OpElem) -> Seq<VisitEvent> {
    (match elem { OpElem::Def { ret, def, .. } => opt_visit(ret, |x| VisitEvent::Type(x)) + opt_visit(def, |x| VisitEvent::Expr(x)), OpElem::Contract { expr, .. } => seq![VisitEvent::BlockExpr(expr)] })
}

pub fn visit_op_elem<T: Visitor>(visitor: &mut T, elem: &OpElem)
    ensures
        visits_in_order(old(visitor).trace(), final(visitor).trace(), op_elem_visits(*elem)),
{
    let ghost t0 = visitor.trace();
    proof { lemma_visits_none(t0); }
    let ghost mut done: Seq<VisitEvent> = Seq::empty();
    match elem {
        OpElem::Def { ret, def, .. } => {
            if let Some(ret) = ret {
                let ghost t = visitor.trace();
                visitor.visit_type(ret);
                proof { lemma_visits_step(t0, t, visitor.trace(), done, VisitEvent::Type(*ret)); done = done.push(VisitEvent::Type(*ret)); }
            }
            if let Some(def) = def {
                let ghost t = visitor.trace();
                visitor.visit_expr(def);
                proof { lemma_visits_step(t0, t, visitor.trace(), done, VisitEvent::Expr(*def)); done = done.push(VisitEvent::Expr(*def)); }
            }
        },
        OpElem::Contract { expr, .. } => {
            let ghost t = visitor.trace();
            visitor.visit_block_expr(expr);
            proof { lemma_visits_step(t0, t, visitor.trace(), done, VisitEvent::BlockExpr(*expr)); done = done.push(VisitEvent::BlockExpr(*expr)); }
        },
    }
    assert(done =~= op_elem_visits(*elem));
}

pub fn visit_precedence<T: Visitor>(visitor: &mut T, node: &AstNodeRef<Precedence>)
    ensures
        visits_in_order(old(visitor).trace(), final(visitor).trace(), attrs_vis_visits(node.attrs@, node.vis)),
{
    let ghost t0 = visitor.trace();
    proof { lemma_visits_none(t0); }
    let ghost mut done: Seq<VisitEvent> = Seq::empty();
    let attrs = &node.attrs;
    let vis = &node.vis;
    let ghost t = visitor.trace();
    visit_attrs_vis(visitor, attrs, vis);
    proof { lemma_visits_concat(t0, t, visitor.trace(), done, attrs_vis_visits(attrs@, *vis)); done = done + attrs_vis_visits(attrs@, *vis); }
    assert(done =~= attrs_vis_visits(node.attrs@, node.vis));
}

// =============================================================================================================================

pub fn visit_block<T: Visitor>(visitor: &mut T, node: &AstNodeRef<Block>)
    ensures
        visits_in_order(old(visitor).trace(), final(visitor).trace(), node.stmts@.map_values(|x| VisitEvent::Stmt(x))),
{
    let ghost t0 = visitor.trace();
    proof { lemma_visits_none(t0); }
    let items = &node.stmts;
    assert(items@.take(0).map_values(|x| VisitEvent::Stmt(x)) =~= Seq::<VisitEvent>::empty());
    let mut i: usize = 0;
    while i < items.len()
        invariant
            i <= items@.len(),
            items@ == node.stmts@,
            visits_in_order(t0, visitor.trace(), items@.take(i as int).map_values(|x| VisitEvent::Stmt(x))),
        decreases items@.len() - i,
    {
        let ghost t = visitor.trace();
        visitor.visit_stmt(&items[i]);
        proof {
            lemma_visits_step(t0, t, visitor.trace(), items@.take(i as int).map_values(|x| VisitEvent::Stmt(x)), VisitEvent::Stmt(items@[i as int]));
            assert(items@.take(i as int + 1).map_values(|x| VisitEvent::Stmt(x)) =~= items@.take(i as int).map_values(|x| VisitEvent::Stmt(x)).push(VisitEvent::Stmt(items@[i as int])));
        }
        i = i + 1;
    }
    assert(items@.take(items@.len() as int) =~= items@);
}

pub fn visit_stmt<T: Visitor>(visitor: &mut T, node: &Stmt)
    ensures
        visits_in_order(old(visitor).trace(), final(visitor).trace(), seq![match *node {
            Stmt::Empty(n) => VisitEvent::EmptyStmt(n),
            Stmt::Item(n) => VisitEvent::Item(n),
            Stmt::VarDecl(n) => VisitEvent::VarDecl(n),
            Stmt::Defer(n) => VisitEvent::Defer(n),
            Stmt::ErrDefer(n) => VisitEvent::ErrDefer(n),
            Stmt::Expr(n) => VisitEvent::ExprStmt(n),
        }]),
{
    let ghost t0 = visitor.trace();
    proof { lemma_visits_none(t0); }
    match node {
        Stmt::Empty(n) => {
            visitor.visit_empty_stmt(n);
            proof { lemma_visits_step(t0, t0, visitor.trace(), Seq::empty(), VisitEvent::EmptyStmt(*n)); }
        },
        Stmt::Item(n) => {
            visitor.visit_item(n);
            proof { lemma_visits_step(t0, t0, visitor.trace(), Seq::empty(), VisitEvent::Item(*n)); }
        },
        Stmt::VarDecl(n) => {
            visitor.visit_var_decl(n);
            proof { lemma_visits_step(t0, t0, visitor.trace(), Seq::empty(), VisitEvent::VarDecl(*n)); }
        },
        Stmt::Defer(n) => {
            visitor.visit_defer(n);
            proof { lemma_visits_step(t0, t0, visitor.trace(), Seq::empty(), VisitEvent::Defer(*n)); }
        },
        Stmt::ErrDefer(n) => {
            visitor.visit_err_defer(n);
            proof { lemma_visits_step(t0, t0, visitor.trace(), Seq::empty(), VisitEvent::ErrDefer(*n)); }
        },
        Stmt::Expr(n) => {
            visitor.visit_expr_stmt(n);
            proof { lemma_visits_step(t0, t0, visitor.trace(), Seq::empty(), VisitEvent::ExprStmt(*n)); }
        },
    }
}

pub fn visit_var_decl<T: Visitor>(visitor: &mut T, node: &AstNodeRef<VarDecl>)
    ensures
        visits_in_order(old(visitor).trace(), final(visitor).trace(), (match **node { VarDecl::Named { attrs, expr, .. } => attrs@.map_values(|x| VisitEvent::Attribute(x)) + seq![VisitEvent::Expr(expr)], VarDecl::Let { attrs, pattern, ty, expr, else_block, .. } => attrs@.map_values(|x| VisitEvent::Attribute(x)) + seq![VisitEvent::Pattern(pattern)] + opt_visit(ty, |x| VisitEvent::Type(x)) + opt_visit(expr, |x| VisitEvent::Expr(x)) + opt_visit(else_block, |x| VisitEvent::BlockExpr(x)) })),
{
    let ghost t0 = visitor.trace();
    proof { lemma_visits_none(t0); }
    let ghost mut done: Seq<VisitEvent> = Seq::empty();
    match &**node {
        VarDecl::Named { attrs, expr, .. } => {
            let ghost base = done;
            assert(base + attrs@.take(0).map_values(|x| VisitEvent::Attribute(x)) =~= base);
            let mut i: usize = 0;
            while i < attrs.len()
                invariant
                    i <= attrs@.len(),
                    visits_in_order(t0, visitor.trace(), base + attrs@.take(i as int).map_values(|x| VisitEvent::Attribute(x))),
                decreases attrs@.len() - i,
            {
                let ghost t = visitor.trace();
                visitor.visit_attribute(&attrs[i]);
                proof {
                    lemma_visits_step(t0, t, visitor.trace(), base + attrs@.take(i as int).map_values(|x| VisitEvent::Attribute(x)), VisitEvent::Attribute(attrs@[i as int]));
                    assert(base + attrs@.take(i as int + 1).map_values(|x| VisitEvent::Attribute(x)) =~= (base + attrs@.take(i as int).map_values(|x| VisitEvent::Attribute(x))).push(VisitEvent::Attribute(attrs@[i as int])));
                }
                i = i + 1;
            }
            proof { assert(attrs@.take(attrs@.len() as int) =~= attrs@); done = base + attrs@.map_values(|x| VisitEvent::Attribute(x)); }
            let ghost t = visitor.trace();
            visitor.visit_expr(expr);
            proof { lemma_visits_step(t0, t, visitor.trace(), done, VisitEvent::Expr(*expr)); done = done.push(VisitEvent::Expr(*expr)); }
        },
        VarDecl::Let { attrs, pattern, ty, expr, else_block, .. } => {
            let ghost base = done;
            assert(base + attrs@.take(0).map_values(|x| VisitEvent::Attribute(x)) =~= base);
            let mut i: usize = 0;
            while i < attrs.len()
                invariant
                    i <= attrs@.len(),
                    visits_in_order(t0, visitor.trace(), base + attrs@.take(i as int).map_values(|x| VisitEvent::Attribute(x))),
                decreases attrs@.len() - i,
            {
                let ghost t = visitor.trace();
                visitor.visit_attribute(&attrs[i]);
                proof {
                    lemma_visits_step(t0, t, visitor.trace(), base + attrs@.take(i as int).map_values(|x| VisitEvent::Attribute(x)), VisitEvent::Attribute(attrs@[i as int]));
                    assert(base + attrs@.take(i as int + 1).map_values(|x| VisitEvent::Attribute(x)) =~= (base + attrs@.take(i as int).map_values(|x| VisitEvent::Attribute(x))).push(VisitEvent::Attribute(attrs@[i as int])));
                }
                i = i + 1;
            }
            proof { assert(attrs@.take(attrs@.len() as int) =~= attrs@); done = base + attrs@.map_values(|x| VisitEvent::Attribute(x)); }
            let ghost t = visitor.trace();
            visitor.visit_pattern(pattern);
            proof { lemma_visits_step(t0, t, visitor.trace(), done, VisitEvent::Pattern(*pattern)); done = done.push(VisitEvent::Pattern(*pattern)); }
            if let Some(ty) = ty {
                let ghost t = visitor.trace();
                visitor.visit_type(ty);
                proof { lemma_visits_step(t0, t, visitor.trace(), done, VisitEvent::Type(*ty)); done = done.push(VisitEvent::Type(*ty)); }
            }
            if let Some(expr) = expr {
                let ghost t = visitor.trace();
                visitor.visit_expr(expr);
                proof { lemma_visits_step(t0, t, visitor.trace(), done, VisitEvent::Expr(*expr)); done = done.push(VisitEvent::Expr(*expr)); }
            }
            if let Some(else_block) = else_block {
                let ghost t = visitor.trace();
                visitor.visit_block_expr(else_block);
                proof { lemma_visits_step(t0, t, visitor.trace(), done, VisitEvent::BlockExpr(*else_block)); done = done.push(VisitEvent::BlockExpr(*else_block)); }
            }
        },
    }
    assert(done =~= (match **node { VarDecl::Named { attrs, expr, .. } => attrs@.map_values(|x| VisitEvent::Attribute(x)) + seq![VisitEvent::Expr(expr)], VarDecl::Let { attrs, pattern, ty, expr, else_block, .. } => attrs@.map_values(|x| VisitEvent::Attribute(x)) + seq![VisitEvent::Pattern(pattern)] + opt_visit(ty, |x| VisitEvent::Type(x)) + opt_visit(expr, |x| VisitEvent::Expr(x)) + opt_visit(else_block, |x| VisitEvent::BlockExpr(x)) }));
}

pub fn visit_defer<T: Visitor>(visitor: &mut T, node: &AstNodeRef<Defer>)
    ensures
        visits_in_order(old(visitor).trace(), final(visitor).trace(), node.attrs@.map_values(|x| VisitEvent::Attribute(x)) + seq![VisitEvent::Expr(node.expr)]),
{
    let ghost t0 = visitor.trace();
    proof { lemma_visits_none(t0); }
    let ghost mut done: Seq<VisitEvent> = Seq::empty();
    let attrs = &node.attrs;
    let ghost base = done;
    assert(base + attrs@.take(0).map_values(|x| VisitEvent::Attribute(x)) =~= base);
    let mut i: usize = 0;
    while i < attrs.len()
        invariant
            i <= attrs@.len(),
            visits_in_order(t0, visitor.trace(), base + attrs@.take(i as int).map_values(|x| VisitEvent::Attribute(x))),
        decreases attrs@.len() - i,
    {
        let ghost t = visitor.trace();
        visitor.visit_attribute(&attrs[i]);
        proof {
            lemma_visits_step(t0, t, visitor.trace(), base + attrs@.take(i as int).map_values(|x| VisitEvent::Attribute(x)), VisitEvent::Attribute(attrs@[i as int]));
            assert(base + attrs@.take(i as int + 1).map_values(|x| VisitEvent::Attribute(x)) =~= (base + attrs@.take(i as int).map_values(|x| VisitEvent::Attribute(x))).push(VisitEvent::Attribute(attrs@[i as int])));
        }
        i = i + 1;
    }
    proof { assert(attrs@.take(attrs@.len() as int) =~= attrs@); done = base + attrs@.map_values(|x| VisitEvent::Attribute(x)); }
    let expr = &node.expr;
    let ghost t = visitor.trace();
    visitor.visit_expr(expr);
    proof { lemma_visits_step(t0, t, visitor.trace(), done, VisitEvent::Expr(*expr)); done = done.push(VisitEvent::Expr(*expr)); }
    assert(done =~= node.attrs@.map_values(|x| VisitEvent::Attribute(x)) + seq![VisitEvent::Expr(node.expr)]);
}

pub fn visit_err_defer<T: Visitor>(visitor: &mut T, node: &AstNodeRef<ErrDefer>)
    ensures
        visits_in_order(old(visitor).trace(), final(visitor).trace(), node.attrs@.map_values(|x| VisitEvent::Attribute(x)) + seq![VisitEvent::Expr(node.expr)]),
{
    let ghost t0 = visitor.trace();
    proof { lemma_visits_none(t0); }
    let ghost mut done: Seq<VisitEvent> = Seq::empty();
    let attrs = &node.attrs;
    let ghost base = done;
    assert(base + attrs@.take(0).map_values(|x| VisitEvent::Attribute(x)) =~= base);
    let mut i: usize = 0;
    while i < attrs.len()
        invariant
            i <= attrs@.len(),
            visits_in_order(t0, visitor.trace(), base + attrs@.take(i as int).map_values(|x| VisitEvent::Attribute(x))),
        decreases attrs@.len() - i,
    {
        let ghost t = visitor.trace();
        visitor.visit_attribute(&attrs[i]);
        proof {
            lemma_visits_step(t0, t, visitor.trace(), base + attrs@.take(i as int).map_values(|x| VisitEvent::Attribute(x)), VisitEvent::Attribute(attrs@[i as int]));
            assert(base + attrs@.take(i as int + 1).map_values(|x| VisitEvent::Attribute(x)) =~= (base + attrs@.take(i as int).map_values(|x| VisitEvent::Attribute(x))).push(VisitEvent::Attribute(attrs@[i as int])));
        }
        i = i + 1;
    }
    proof { assert(attrs@.take(attrs@.len() as int) =~= attrs@); done = base + attrs@.map_values(|x| VisitEvent::Attribute(x)); }
    let expr = &node.expr;
    let ghost t = visitor.trace();
    visitor.visit_expr(expr);
    proof { lemma_visits_step(t0, t, visitor.trace(), done, VisitEvent::Expr(*expr)); done = done.push(VisitEvent::Expr(*expr)); }
    assert(done =~= node.attrs@.map_values(|x| VisitEvent::Attribute(x)) + seq![VisitEvent::Expr(node.expr)]);
}

pub fn visit_expr_stmt<T: Visitor>(visitor: &mut T, node: &AstNodeRef<ExprStmt>)
    ensures
        visits_in_order(old(visitor).trace(), final(visitor).trace(), node.attrs@.map_values(|x| VisitEvent::Attribute(x)) + seq![VisitEvent::Expr(node.expr)]),
{
    let ghost t0 = visitor.trace();
    proof { lemma_visits_none(t0); }
    let ghost mut done: Seq<VisitEvent> = Seq::empty();
    let attrs = &node.attrs;
    let ghost base = done;
    assert(base + attrs@.take(0).map_values(|x| VisitEvent::Attribute(x)) =~= base);
    let mut i: usize = 0;
    while i < attrs.len()
        invariant
            i <= attrs@.len(),
            visits_in_order(t0, visitor.trace(), base + attrs@.take(i as int).map_values(|x| VisitEvent::Attribute(x))),
        decreases attrs@.len() - i,
    {
        let ghost t = visitor.trace();
        visitor.visit_attribute(&attrs[i]);
        proof {
            lemma_visits_step(t0, t, visitor.trace(), base + attrs@.take(i as int).map_values(|x| VisitEvent::Attribute(x)), VisitEvent::Attribute(attrs@[i as int]));
            assert(base + attrs@.take(i as int + 1).map_values(|x| VisitEvent::Attribute(x)) =~= (base + attrs@.take(i as int).map_values(|x| VisitEvent::Attribute(x))).push(VisitEvent::Attribute(attrs@[i as int])));
        }
        i = i + 1;
    }
    proof { assert(attrs@.take(attrs@.len() as int) =~= attrs@); done = base + attrs@.map_values(|x| VisitEvent::Attribute(x)); }
    let expr = &node.expr;
    let ghost t = visitor.trace();
    visitor.visit_expr(expr);
    proof { lemma_visits_step(t0, t, visitor.trace(), done, VisitEvent::Expr(*expr)); done = done.push(VisitEvent::Expr(*expr)); }
    assert(done =~= node.attrs@.map_values(|x| VisitEvent::Attribute(x)) + seq![VisitEvent::Expr(node.expr)]);
}

// =============================================================================================================================

pub fn visit_expr<T: Visitor>(visitor: &mut T, node: &Expr)
    ensures
        visits_in_order(old(visitor).trace(), final(visitor).trace(), seq![match *node {
            Expr::Literal(n) => VisitEvent::LiteralExpr(n),
            Expr::Path(n) => VisitEvent::PathExpr(n),
            Expr::Unit(n) => VisitEvent::UnitExpr(n),
            Expr::Block(n) => VisitEvent::BlockExpr(n),
            Expr::Prefix(n) => VisitEvent::PrefixExpr(n),
            Expr::Postfix(n) => VisitEvent::PostfixExpr(n),
            Expr::Infix(n) => VisitEvent::BinaryExpr(n),
            Expr::Paren(n) => VisitEvent::ParenExpr(n),
            Expr::Inplace(n) => VisitEvent::InplaceExpr(n),
            Expr::TypeCast(n) => VisitEvent::TypeCastExpr(n),
            Expr::TypeCheck(n) => VisitEvent::TypeCheckExpr(n),
            Expr::Tuple(n) => VisitEvent::TupleExpr(n),
            Expr::Array(n) => VisitEvent::ArrayExpr(n),
            Expr::Struct(n) => VisitEvent::StructExpr(n),
            Expr::Index(n) => VisitEvent::IndexExpr(n),
            Expr::TupleIndex(n) => VisitEvent::TupleIndexExpr(n),
            Expr::FnCall(n) => VisitEvent::FnCallExpr(n),
            Expr::Method(n) => VisitEvent::MethodCallExpr(n),
            Expr::FieldAccess(n) => VisitEvent::FieldAccessExpr(n),
            Expr::Closure(n) => VisitEvent::ClosureExpr(n),
            Expr::If(n) => VisitEvent::IfExpr(n),
            Expr::Let(n) => VisitEvent::LetBindingExpr(n),
            Expr::Loop(n) => VisitEvent::LoopExpr(n),
            Expr::While(n) => VisitEvent::WhileExpr(n),
            Expr::DoWhile(n) => VisitEvent::DoWhileExpr(n),
            Expr::For(n) => VisitEvent::ForExpr(n),
            Expr::Match(n) => VisitEvent::MatchExpr(n),
            Expr::Break(n) => VisitEvent::BreakExpr(n),
            Expr::Continue(n) => VisitEvent::ContinueExpr(n),
            Expr::Fallthrough(n) => VisitEvent::FallthroughExpr(n),
            Expr::Return(n) => VisitEvent::ReturnExpr(n),
            Expr::Underscore(n) => VisitEvent::UnderscoreExpr(n),
            Expr::Throw(n) => VisitEvent::ThrowExpr(n),
            Expr::Comma(n) => VisitEvent::CommaExpr(n),
            Expr::When(n) => VisitEvent::WhenExpr(n),
        }]),
{
    let ghost t0 = visitor.trace();
    proof { lemma_visits_none(t0); }
    match node {
        Expr::Literal(n) => {
            visitor.visit_literal_expr(n);
            proof { lemma_visits_step(t0, t0, visitor.trace(), Seq::empty(), VisitEvent::LiteralExpr(*n)); }
        },
        Expr::Path(n) => {
            visitor.visit_path_expr(n);
            proof { lemma_visits_step(t0, t0, visitor.trace(), Seq::empty(), VisitEvent::PathExpr(*n)); }
        },
        Expr::Unit(n) => {
            visitor.visit_unit_expr(n);
            proof { lemma_visits_step(t0, t0, visitor.trace(), Seq::empty(), VisitEvent::UnitExpr(*n)); }
        },
        Expr::Block(n) => {
            visitor.visit_block_expr(n);
            proof { lemma_visits_step(t0, t0, visitor.trace(), Seq::empty(), VisitEvent::BlockExpr(*n)); }
        },
        Expr::Prefix(n) => {
            visitor.visit_prefix_expr(n);
            proof { lemma_visits_step(t0, t0, visitor.trace(), Seq::empty(), VisitEvent::PrefixExpr(*n)); }
        },
        Expr::Postfix(n) => {
            visitor.visit_postfix_expr(n);
            proof { lemma_visits_step(t0, t0, visitor.trace(), Seq::empty(), VisitEvent::PostfixExpr(*n)); }
        },
        Expr::Infix(n) => {
            visitor.visit_binary_expr(n);
            proof { lemma_visits_step(t0, t0, visitor.trace(), Seq::empty(), VisitEvent::BinaryExpr(*n)); }
        },
        Expr::Paren(n) => {
            visitor.visit_paren_expr(n);
            proof { lemma_visits_step(t0, t0, visitor.trace(), Seq::empty(), VisitEvent::ParenExpr(*n)); }
        },
        Expr::Inplace(n) => {
            visitor.visit_inplace_expr(n);
            proof { lemma_visits_step(t0, t0, visitor.trace(), Seq::empty(), VisitEvent::InplaceExpr(*n)); }
        },
        Expr::TypeCast(n) => {
            visitor.visit_type_cast_expr(n);
            proof { lemma_visits_step(t0, t0, visitor.trace(), Seq::empty(), VisitEvent::TypeCastExpr(*n)); }
        },
        Expr::TypeCheck(n) => {
            visitor.visit_type_check_expr(n);
            proof { lemma_visits_step(t0, t0, visitor.trace(), Seq::empty(), VisitEvent::TypeCheckExpr(*n)); }
        },
        Expr::Tuple(n) => {
            visitor.visit_tuple_expr(n);
            proof { lemma_visits_step(t0, t0, visitor.trace(), Seq::empty(), VisitEvent::TupleExpr(*n)); }
        },
        Expr::Array(n) => {
            visitor.visit_array_expr(n);
            proof { lemma_visits_step(t0, t0, visitor.trace(), Seq::empty(), VisitEvent::ArrayExpr(*n)); }
        },
        Expr::Struct(n) => {
            visitor.visit_struct_expr(n);
            proof { lemma_visits_step(t0, t0, visitor.trace(), Seq::empty(), VisitEvent::StructExpr(*n)); }
        },
        Expr::Index(n) => {
            visitor.visit_index_expr(n);
            proof { lemma_visits_step(t0, t0, visitor.trace(), Seq::empty(), VisitEvent::IndexExpr(*n)); }
        },
        Expr::TupleIndex(n) => {
            visitor.visit_tuple_index_expr(n);
            proof { lemma_visits_step(t0, t0, visitor.trace(), Seq::empty(), VisitEvent::TupleIndexExpr(*n)); }
        },
        Expr::FnCall(n) => {
            visitor.visit_fn_call_expr(n);
            proof { lemma_visits_step(t0, t0, visitor.trace(), Seq::empty(), VisitEvent::FnCallExpr(*n)); }
        },
        Expr::Method(n) => {
            visitor.visit_method_call_expr(n);
            proof { lemma_visits_step(t0, t0, visitor.trace(), Seq::empty(), VisitEvent::MethodCallExpr(*n)); }
        },
        Expr::FieldAccess(n) => {
            visitor.visit_field_access_expr(n);
            proof { lemma_visits_step(t0, t0, visitor.trace(), Seq::empty(), VisitEvent::FieldAccessExpr(*n)); }
        },
        Expr::Closure(n) => {
            visitor.visit_closure_expr(n);
            proof { lemma_visits_step(t0, t0, visitor.trace(), Seq::empty(), VisitEvent::ClosureExpr(*n)); }
        },
        Expr::If(n) => {
            visitor.visit_if_expr(n);
            proof { lemma_visits_step(t0, t0, visitor.trace(), Seq::empty(), VisitEvent::IfExpr(*n)); }
        },
        Expr::Let(n) => {
            visitor.visit_let_binding_expr(n);
            proof { lemma_visits_step(t0, t0, visitor.trace(), Seq::empty(), VisitEvent::LetBindingExpr(*n)); }
        },
        Expr::Loop(n) => {
            visitor.visit_loop_expr(n);
            proof { lemma_visits_step(t0, t0, visitor.trace(), Seq::empty(), VisitEvent::LoopExpr(*n)); }
        },
        Expr::While(n) => {
            visitor.visit_while_expr(n);
            proof { lemma_visits_step(t0, t0, visitor.trace(), Seq::empty(), VisitEvent::WhileExpr(*n)); }
        },
        Expr::DoWhile(n) => {
            visitor.visit_do_while_expr(n);
            proof { lemma_visits_step(t0, t0, visitor.trace(), Seq::empty(), VisitEvent::DoWhileExpr(*n)); }
        },
        Expr::For(n) => {
            visitor.visit_for_expr(n);
            proof { lemma_visits_step(t0, t0, visitor.trace(), Seq::empty(), VisitEvent::ForExpr(*n)); }
        },
        Expr::Match(n) => {
            visitor.visit_match_expr(n);
            proof { lemma_visits_step(t0, t0, visitor.trace(), Seq::empty(), VisitEvent::MatchExpr(*n)); }
        },
        Expr::Break(n) => {
            visitor.visit_break_expr(n);
            proof { lemma_visits_step(t0, t0, visitor.trace(), Seq::empty(), VisitEvent::BreakExpr(*n)); }
        },
        Expr::Continue(n) => {
            visitor.visit_continue_expr(n);
            proof { lemma_visits_step(t0, t0, visitor.trace(), Seq::empty(), VisitEvent::ContinueExpr(*n)); }
        },
        Expr::Fallthrough(n) => {
            visitor.visit_fallthrough_expr(n);
            proof { lemma_visits_step(t0, t0, visitor.trace(), Seq::empty(), VisitEvent::FallthroughExpr(*n)); }
        },
        Expr::Return(n) => {
            visitor.visit_return_expr(n);
            proof { lemma_visits_step(t0, t0, visitor.trace(), Seq::empty(), VisitEvent::ReturnExpr(*n)); }
        },
        Expr::Underscore(n) => {
            visitor.visit_underscore_expr(n);
            proof { lemma_visits_step(t0, t0, visitor.trace(), Seq::empty(), VisitEvent::UnderscoreExpr(*n)); }
        },
        Expr::Throw(n) => {
            visitor.visit_throw_expr(n);
            proof { lemma_visits_step(t0, t0, visitor.trace(), Seq::empty(), VisitEvent::ThrowExpr(*n)); }
        },
        Expr::Comma(n) => {
            visitor.visit_comma_expr(n);
            proof { lemma_visits_step(t0, t0, visitor.trace(), Seq::empty(), VisitEvent::CommaExpr(*n)); }
        },
        Expr::When(n) => {
            visitor.visit_when_expr(n);
            proof { lemma_visits_step(t0, t0, visitor.trace(), Seq::empty(), VisitEvent::WhenExpr(*n)); }
        },
    }
}

/// A path expression has no children to visit.
pub fn visit_path_expr<T: Visitor>(visitor: &mut T, node: &AstNodeRef<PathExpr>)
    ensures
        *final(visitor) == *old(visitor),
{
}

pub fn visit_block_expr<T: Visitor>(visitor: &mut T, node: &AstNodeRef<BlockExpr>)
    ensures
        visits_in_order(old(visitor).trace(), final(visitor).trace(), seq![VisitEvent::Block(node.block)]),
{
    let ghost t0 = visitor.trace();
    proof { lemma_visits_none(t0); }
    let ghost mut done: Seq<VisitEvent> = Seq::empty();
    let r0 = &node.block;
    let ghost t = visitor.trace();
    visitor.visit_block(r0);
    proof { lemma_visits_step(t0, t, visitor.trace(), done, VisitEvent::Block(*r0)); done = done.push(VisitEvent::Block(*r0)); }
    assert(done =~= seq![VisitEvent::Block(node.block)]);
}

pub fn visit_prefix_expr<T: Visitor>(visitor: &mut T, node: &AstNodeRef<PrefixExpr>)
    ensures
        visits_in_order(old(visitor).trace(), final(visitor).trace(), seq![VisitEvent::Expr(node.expr)]),
{
    let ghost t0 = visitor.trace();
    proof { lemma_visits_none(t0); }
    let ghost mut done: Seq<VisitEvent> = Seq::empty();
    let r0 = &node.expr;
    let ghost t = visitor.trace();
    visitor.visit_expr(r0);
    proof { lemma_visits_step(t0, t, visitor.trace(), done, VisitEvent::Expr(*r0)); done = done.push(VisitEvent::Expr(*r0)); }
    assert(done =~= seq![VisitEvent::Expr(node.expr)]);
}

pub fn visit_postfix_expr<T: Visitor>(visitor: &mut T, node: &AstNodeRef<PostfixExpr>)
    ensures
        visits_in_order(old(visitor).trace(), final(visitor).trace(), seq![VisitEvent::Expr(node.expr)]),
{
    let ghost t0 = visitor.trace();
    proof { lemma_visits_none(t0); }
    let ghost mut done: Seq<VisitEvent> = Seq::empty();
    let r0 = &node.expr;
    let ghost t = visitor.trace();
    visitor.visit_expr(r0);
    proof { lemma_visits_step(t0, t, visitor.trace(), done, VisitEvent::Expr(*r0)); done = done.push(VisitEvent::Expr(*r0)); }
    assert(done =~= seq![VisitEvent::Expr(node.expr)]);
}

pub fn visit_binary_expr<T: Visitor>(visitor: &mut T, node: &AstNodeRef<InfixExpr>)
    ensures
        visits_in_order(old(visitor).trace(), final(visitor).trace(), seq![VisitEvent::Expr(node.left)] + seq![VisitEvent::Expr(node.right)]),
{
    let ghost t0 = visitor.trace();
    proof { lemma_visits_none(t0); }
    let ghost mut done: Seq<VisitEvent> = Seq::empty();
    let r0 = &node.left;
    let ghost t = visitor.trace();
    visitor.visit_expr(r0);
    proof { lemma_visits_step(t0, t, visitor.trace(), done, VisitEvent::Expr(*r0)); done = done.push(VisitEvent::Expr(*r0)); }
    let r1 = &node.right;
    let ghost t = visitor.trace();
    visitor.visit_expr(r1);
    proof { lemma_visits_step(t0, t, visitor.trace(), done, VisitEvent::Expr(*r1)); done = done.push(VisitEvent::Expr(*r1)); }
    assert(done =~= seq![VisitEvent::Expr(node.left)] + seq![VisitEvent::Expr(node.right)]);
}

pub fn visit_paren_expr<T: Visitor>(visitor: &mut T, node: &AstNodeRef<ParenExpr>)
    ensures
        visits_in_order(old(visitor).trace(), final(visitor).trace(), seq![VisitEvent::Expr(node.expr)]),
{
    let ghost t0 = visitor.trace();
    proof { lemma_visits_none(t0); }
    let ghost mut done: Seq<VisitEvent> = Seq::empty();
    let r0 = &node.expr;
    let ghost t = visitor.trace();
    visitor.visit_expr(r0);
    proof { lemma_visits_step(t0, t, visitor.trace(), done, VisitEvent::Expr(*r0)); done = done.push(VisitEvent::Expr(*r0)); }
    assert(done =~= seq![VisitEvent::Expr(node.expr)]);
}

pub fn visit_inplace_expr<T: Visitor>(visitor: &mut T, node: &AstNodeRef<InplaceExpr>)
    ensures
        visits_in_order(old(visitor).trace(), final(visitor).trace(), seq![VisitEvent::Expr(node.left)] + seq![VisitEvent::Expr(node.right)]),
{
    let ghost t0 = visitor.trace();
    proof { lemma_visits_none(t0); }
    let ghost mut done: Seq<VisitEvent> = Seq::empty();
    let r0 = &node.left;
    let ghost t = visitor.trace();
    visitor.visit_expr(r0);
    proof { lemma_visits_step(t0, t, visitor.trace(), done, VisitEvent::Expr(*r0)); done = done.push(VisitEvent::Expr(*r0)); }
    let r1 = &node.right;
    let ghost t = visitor.trace();
    visitor.visit_expr(r1);
    proof { lemma_visits_step(t0, t, visitor.trace(), done, VisitEvent::Expr(*r1)); done = done.push(VisitEvent::Expr(*r1)); }
    assert(done =~= seq![VisitEvent::Expr(node.left)] + seq![VisitEvent::Expr(node.right)]);
}

pub fn visit_type_cast_expr<T: Visitor>(visitor: &mut T, node: &AstNodeRef<TypeCastExpr>)
    ensures
        visits_in_order(old(visitor).trace(), final(visitor).trace(), seq![VisitEvent::Expr(node.expr)] + seq![VisitEvent::Type(node.ty)]),
{
    let ghost t0 = visitor.trace();
    proof { lemma_visits_none(t0); }
    let ghost mut done: Seq<VisitEvent> = Seq::empty();
    let r0 = &node.expr;
    let ghost t = visitor.trace();
    visitor.visit_expr(r0);
    proof { lemma_visits_step(t0, t, visitor.trace(), done, VisitEvent::Expr(*r0)); done = done.push(VisitEvent::Expr(*r0)); }
    let r1 = &node.ty;
    let ghost t = visitor.trace();
    visitor.visit_type(r1);
    proof { lemma_visits_step(t0, t, visitor.trace(), done, VisitEvent::Type(*r1)); done = done.push(VisitEvent::Type(*r1)); }
    assert(done =~= seq![VisitEvent::Expr(node.expr)] + seq![VisitEvent::Type(node.ty)]);
}

pub fn visit_type_check_expr<T: Visitor>(visitor: &mut T, node: &AstNodeRef<TypeCheckExpr>)
    ensures
        visits_in_order(old(visitor).trace(), final(visitor).trace(), seq![VisitEvent::Expr(node.expr)] + seq![VisitEvent::Type(node.ty)]),
{
    let ghost t0 = visitor.trace();
    proof { lemma_visits_none(t0); }
    let ghost mut done: Seq<VisitEvent> = Seq::empty();
    let r0 = &node.expr;
    let ghost t = visitor.trace();
    visitor.visit_expr(r0);
    proof { lemma_visits_step(t0, t, visitor.trace(), done, VisitEvent::Expr(*r0)); done = done.push(VisitEvent::Expr(*r0)); }
    let r1 = &node.ty;
    let ghost t = visitor.trace();
    visitor.visit_type(r1);
    proof { lemma_visits_step(t0, t, visitor.trace(), done, VisitEvent::Type(*r1)); done = done.push(VisitEvent::Type(*r1)); }
    assert(done =~= seq![VisitEvent::Expr(node.expr)] + seq![VisitEvent::Type(node.ty)]);
}

pub fn visit_tuple_expr<T: Visitor>(visitor: &mut T, node: &AstNodeRef<TupleExpr>)
    ensures
        visits_in_order(old(visitor).trace(), final(visitor).trace(), node.exprs@.map_values(|x| VisitEvent::Expr(x))),
{
    let ghost t0 = visitor.trace();
    proof { lemma_visits_none(t0); }
    let items = &node.exprs;
    assert(items@.take(0).map_values(|x| VisitEvent::Expr(x)) =~= Seq::<VisitEvent>::empty());
    let mut i: usize = 0;
    while i < items.len()
        invariant
            i <= items@.len(),
            items@ == node.exprs@,
            visits_in_order(t0, visitor.trace(), items@.take(i as int).map_values(|x| VisitEvent::Expr(x))),
        decreases items@.len() - i,
    {
        let ghost t = visitor.trace();
        visitor.visit_expr(&items[i]);
        proof {
            lemma_visits_step(t0, t, visitor.trace(), items@.take(i as int).map_values(|x| VisitEvent::Expr(x)), VisitEvent::Expr(items@[i as int]));
            assert(items@.take(i as int + 1).map_values(|x| VisitEvent::Expr(x)) =~= items@.take(i as int).map_values(|x| VisitEvent::Expr(x)).push(VisitEvent::Expr(items@[i as int])));
        }
        i = i + 1;
    }
    assert(items@.take(items@.len() as int) =~= items@);
}

pub fn visit_array_expr<T: Visitor>(visitor: &mut T, node: &AstNodeRef<ArrayExpr>)
    ensures
        visits_in_order(old(visitor).trace(), final(visitor).trace(), (match **node { ArrayExpr::Slice { exprs, .. } => exprs@.map_values(|x| VisitEvent::Expr(x)), ArrayExpr::Count { val, count, .. } => seq![VisitEvent::Expr(val)] + seq![VisitEvent::Expr(count)] })),
{
    let ghost t0 = visitor.trace();
    proof { lemma_visits_none(t0); }
    let ghost mut done: Seq<VisitEvent> = Seq::empty();
    match &**node {
        ArrayExpr::Slice { exprs, .. } => {
            let ghost base = done;
            assert(base + exprs@.take(0).map_values(|x| VisitEvent::Expr(x)) =~= base);
            let mut i: usize = 0;
            while i < exprs.len()
                invariant
                    i <= exprs@.len(),
                    visits_in_order(t0, visitor.trace(), base + exprs@.take(i as int).map_values(|x| VisitEvent::Expr(x))),
                decreases exprs@.len() - i,
            {
                let ghost t = visitor.trace();
                visitor.visit_expr(&exprs[i]);
                proof {
                    lemma_visits_step(t0, t, visitor.trace(), base + exprs@.take(i as int).map_values(|x| VisitEvent::Expr(x)), VisitEvent::Expr(exprs@[i as int]));
                    assert(base + exprs@.take(i as int + 1).map_values(|x| VisitEvent::Expr(x)) =~= (base + exprs@.take(i as int).map_values(|x| VisitEvent::Expr(x))).push(VisitEvent::Expr(exprs@[i as int])));
                }
                i = i + 1;
            }
            proof { assert(exprs@.take(exprs@.len() as int) =~= exprs@); done = base + exprs@.map_values(|x| VisitEvent::Expr(x)); }
        },
        ArrayExpr::Count { val, count, .. } => {
            let ghost t = visitor.trace();
            visitor.visit_expr(val);
            proof { lemma_visits_step(t0, t, visitor.trace(), done, VisitEvent::Expr(*val)); done = done.push(VisitEvent::Expr(*val)); }
            let ghost t = visitor.trace();
            visitor.visit_expr(count);
            proof { lemma_visits_step(t0, t, visitor.trace(), done, VisitEvent::Expr(*count)); done = done.push(VisitEvent::Expr(*count)); }
        },
    }
    assert(done =~= (match **node { ArrayExpr::Slice { exprs, .. } => exprs@.map_values(|x| VisitEvent::Expr(x)), ArrayExpr::Count { val, count, .. } => seq![VisitEvent::Expr(val)] + seq![VisitEvent::Expr(count)] }));
}

/// The calls that the walk makes for one item.
pub open spec fn struct_arg_visits(arg: StructArg) -> Seq<VisitEvent> {
    (match arg { StructArg::Expr { expr, .. } => seq![VisitEvent::Expr(expr)], StructArg::Name { .. } => Seq::<VisitEvent>::empty(), StructArg::Complete { expr, .. } => seq![VisitEvent::Expr(expr)] })
}

pub fn visit_struct_expr<T: Visitor>(visitor: &mut T, node: &AstNodeRef<StructExpr>)
    ensures
        visits_in_order(old(visitor).trace(), final(visitor).trace(), seq![VisitEvent::Expr(node.path)] + visits_each(node.args@, |x: StructArg| struct_arg_visits(x))),
{
    let ghost t0 = visitor.trace();
    proof { lemma_visits_none(t0); }
    let ghost mut done: Seq<VisitEvent> = Seq::empty();
    let path = &node.path;
    let ghost t = visitor.trace();
    visitor.visit_expr(path);
    proof { lemma_visits_step(t0, t, visitor.trace(), done, VisitEvent::Expr(*path)); done = done.push(VisitEvent::Expr(*path)); }
    let args = &node.args;
    let ghost before = done;
    proof { lemma_visits_each_start(args@, |x: StructArg| struct_arg_visits(x)); }
    assert(before + Seq::<VisitEvent>::empty() =~= before);
    let mut j: usize = 0;
    while j < args.len()
        invariant
            j <= args@.len(),
            visits_in_order(t0, visitor.trace(), before + visits_each(args@.take(j as int), |x: StructArg| struct_arg_visits(x))),
        decreases args@.len() - j,
    {
        let arg = &args[j];
        proof { done = before + visits_each(args@.take(j as int), |x: StructArg| struct_arg_visits(x)); }
        match arg {
            StructArg::Expr { expr, .. } => {
                let ghost t = visitor.trace();
                visitor.visit_expr(expr);
                proof { lemma_visits_step(t0, t, visitor.trace(), done, VisitEvent::Expr(*expr)); done = done.push(VisitEvent::Expr(*expr)); }
            },
            StructArg::Name { .. } => {},
            StructArg::Complete { expr, .. } => {
                let ghost t = visitor.trace();
                visitor.visit_expr(expr);
                proof { lemma_visits_step(t0, t, visitor.trace(), done, VisitEvent::Expr(*expr)); done = done.push(VisitEvent::Expr(*expr)); }
            },
        }
        proof {
            lemma_visits_each_step(args@, |x: StructArg| struct_arg_visits(x), j as int);
            assert(done =~= before + visits_each(args@.take(j as int + 1), |x: StructArg| struct_arg_visits(x)));
        }
        j = j + 1;
    }
    proof { lemma_visits_each_all(args@, |x: StructArg| struct_arg_visits(x)); done = before + visits_each(args@, |x: StructArg| struct_arg_visits(x)); }
    assert(done =~= seq![VisitEvent::Expr(node.path)] + visits_each(node.args@, |x: StructArg| struct_arg_visits(x)));
}

pub fn visit_index_expr<T: Visitor>(visitor: &mut T, node: &AstNodeRef<IndexExpr>)
    ensures
        visits_in_order(old(visitor).trace(), final(visitor).trace(), seq![VisitEvent::Expr(node.expr)] + seq![VisitEvent::Expr(node.index)]),
{
    let ghost t0 = visitor.trace();
    proof { lemma_visits_none(t0); }
    let ghost mut done: Seq<VisitEvent> = Seq::empty();
    let r0 = &node.expr;
    let ghost t = visitor.trace();
    visitor.visit_expr(r0);
    proof { lemma_visits_step(t0, t, visitor.trace(), done, VisitEvent::Expr(*r0)); done = done.push(VisitEvent::Expr(*r0)); }
    let r1 = &node.index;
    let ghost t = visitor.trace();
    visitor.visit_expr(r1);
    proof { lemma_visits_step(t0, t, visitor.trace(), done, VisitEvent::Expr(*r1)); done = done.push(VisitEvent::Expr(*r1)); }
    assert(done =~= seq![VisitEvent::Expr(node.expr)] + seq![VisitEvent::Expr(node.index)]);
}

pub fn visit_tuple_index_expr<T: Visitor>(visitor: &mut T, node: &AstNodeRef<TupleIndexExpr>)
    ensures
        visits_in_order(old(visitor).trace(), final(visitor).trace(), seq![VisitEvent::Expr(node.expr)]),
{
    let ghost t0 = visitor.trace();
    proof { lemma_visits_none(t0); }
    let ghost mut done: Seq<VisitEvent> = Seq::empty();
    let r0 = &node.expr;
    let ghost t = visitor.trace();
    visitor.visit_expr(r0);
    proof { lemma_visits_step(t0, t, visitor.trace(), done, VisitEvent::Expr(*r0)); done = done.push(VisitEvent::Expr(*r0)); }
    assert(done =~= seq![VisitEvent::Expr(node.expr)]);
}

/// The expression of each call argument.
/// The calls that the walk makes for one item.
pub open spec fn fn_arg_visits(arg: FnArg) -> Seq<VisitEvent> {
    (match arg { FnArg::Expr { expr, .. } => seq![VisitEvent::Expr(expr)], FnArg::Labeled { expr, .. } => seq![VisitEvent::Expr(expr)] })
}

/// The calls of [`visit_fn_args`]: the expression of each argument.
pub open spec fn fn_args_visits(args: Seq<FnArg>) -> Seq<VisitEvent> {
    visits_each(args, |x: FnArg| fn_arg_visits(x))
}

fn visit_fn_args<T: Visitor>(visitor: &mut T, args: &Vec<FnArg>)
    ensures
        visits_in_order(old(visitor).trace(), final(visitor).trace(), fn_args_visits(args@)),
{
    let ghost t0 = visitor.trace();
    proof { lemma_visits_none(t0); }
    let ghost mut done: Seq<VisitEvent> = Seq::empty();
    let ghost before = done;
    proof { lemma_visits_each_start(args@, |x: FnArg| fn_arg_visits(x)); }
    assert(before + Seq::<VisitEvent>::empty() =~= before);
    let mut j: usize = 0;
    while j < args.len()
        invariant
            j <= args@.len(),
            visits_in_order(t0, visitor.trace(), before + visits_each(args@.take(j as int), |x: FnArg| fn_arg_visits(x))),
        decreases args@.len() - j,
    {
        let arg = &args[j];
        proof { done = before + visits_each(args@.take(j as int), |x: FnArg| fn_arg_visits(x)); }
        match arg {
            FnArg::Expr { expr, .. } => {
                let ghost t = visitor.trace();
                visitor.visit_expr(expr);
                proof { lemma_visits_step(t0, t, visitor.trace(), done, VisitEvent::Expr(*expr)); done = done.push(VisitEvent::Expr(*expr)); }
            },
            FnArg::Labeled { expr, .. } => {
                let ghost t = visitor.trace();
                visitor.visit_expr(expr);
                proof { lemma_visits_step(t0, t, visitor.trace(), done, VisitEvent::Expr(*expr)); done = done.push(VisitEvent::Expr(*expr)); }
            },
        }
        proof {
            lemma_visits_each_step(args@, |x: FnArg| fn_arg_visits(x), j as int);
            assert(done =~= before + visits_each(args@.take(j as int + 1), |x: FnArg| fn_arg_visits(x)));
        }
        j = j + 1;
    }
    proof { lemma_visits_each_all(args@, |x: FnArg| fn_arg_visits(x)); done = before + visits_each(args@, |x: FnArg| fn_arg_visits(x)); }
    assert(done =~= fn_args_visits(args@));
}

pub fn visit_fn_call_expr<T: Visitor>(visitor: &mut T, node: &AstNodeRef<FnCallExpr>)
    ensures
        visits_in_order(old(visitor).trace(), final(visitor).trace(), seq![VisitEvent::Expr(node.expr)] + fn_args_visits(node.args@)),
{
    let ghost t0 = visitor.trace();
    proof { lemma_visits_none(t0); }
    let ghost mut done: Seq<VisitEvent> = Seq::empty();
    let expr = &node.expr;
    let ghost t = visitor.trace();
    visitor.visit_expr(expr);
    proof { lemma_visits_step(t0, t, visitor.trace(), done, VisitEvent::Expr(*expr)); done = done.push(VisitEvent::Expr(*expr)); }
    let args = &node.args;
    let ghost t = visitor.trace();
    visit_fn_args(visitor, args);
    proof { lemma_visits_concat(t0, t, visitor.trace(), done, fn_args_visits(args@)); done = done + fn_args_visits(args@); }
    assert(done =~= seq![VisitEvent::Expr(node.expr)] + fn_args_visits(node.args@));
}

pub fn visit_method_call_expr<T: Visitor>(visitor: &mut T, node: &AstNodeRef<MethodCallExpr>)
    ensures
        visits_in_order(old(visitor).trace(), final(visitor).trace(), seq![VisitEvent::Expr(node.receiver)] + opt_visit(node.method.gen_args, |x| VisitEvent::GenericArgs(x)) + fn_args_visits(node.args@)),
{
    let ghost t0 = visitor.trace();
    proof { lemma_visits_none(t0); }
    let ghost mut done: Seq<VisitEvent> = Seq::empty();
    let receiver = &node.receiver;
    let ghost t = visitor.trace();
    visitor.visit_expr(receiver);
    proof { lemma_visits_step(t0, t, visitor.trace(), done, VisitEvent::Expr(*receiver)); done = done.push(VisitEvent::Expr(*receiver)); }
    if let Some(gen_args) = &node.method.gen_args {
        let ghost t = visitor.trace();
        visitor.visit_generic_args(gen_args);
        proof { lemma_visits_step(t0, t, visitor.trace(), done, VisitEvent::GenericArgs(*gen_args)); done = done.push(VisitEvent::GenericArgs(*gen_args)); }
    }
    let args = &node.args;
    let ghost t = visitor.trace();
    visit_fn_args(visitor, args);
    proof { lemma_visits_concat(t0, t, visitor.trace(), done, fn_args_visits(args@)); done = done + fn_args_visits(args@); }
    assert(done =~= seq![VisitEvent::Expr(node.receiver)] + opt_visit(node.method.gen_args, |x| VisitEvent::GenericArgs(x)) + fn_args_visits(node.args@));
}

pub fn visit_field_access_expr<T: Visitor>(visitor: &mut T, node: &AstNodeRef<FieldAccessExpr>)
    ensures
        visits_in_order(old(visitor).trace(), final(visitor).trace(), seq![VisitEvent::Expr(node.expr)]),
{
    let ghost t0 = visitor.trace();
    proof { lemma_visits_none(t0); }
    let ghost mut done: Seq<VisitEvent> = Seq::empty();
    let r0 = &node.expr;
    let ghost t = visitor.trace();
    visitor.visit_expr(r0);
    proof { lemma_visits_step(t0, t, visitor.trace(), done, VisitEvent::Expr(*r0)); done = done.push(VisitEvent::Expr(*r0)); }
    assert(done =~= seq![VisitEvent::Expr(node.expr)]);
}

pub fn visit_closure_expr<T: Visitor>(visitor: &mut T, node: &AstNodeRef<ClosureExpr>)
    ensures
        visits_in_order(old(visitor).trace(), final(visitor).trace(), visits_each(node.params@, |x: FnParam| fn_param_visits(x)) + (match node.ret { Some(x) => fn_return_visits(x), None => Seq::empty() }) + seq![VisitEvent::Expr(node.body)]),
{
    let ghost t0 = visitor.trace();
    proof { lemma_visits_none(t0); }
    let ghost mut done: Seq<VisitEvent> = Seq::empty();
    let params = &node.params;
    let ghost before = done;
    proof { lemma_visits_each_start(params@, |x: FnParam| fn_param_visits(x)); }
    assert(before + Seq::<VisitEvent>::empty() =~= before);
    let mut j: usize = 0;
    while j < params.len()
        invariant
            j <= params@.len(),
            visits_in_order(t0, visitor.trace(), before + visits_each(params@.take(j as int), |x: FnParam| fn_param_visits(x))),
        decreases params@.len() - j,
    {
        let param = &params[j];
        proof { done = before + visits_each(params@.take(j as int), |x: FnParam| fn_param_visits(x)); }
        let ghost t = visitor.trace();
        visit_fn_param(visitor, param);
        proof { lemma_visits_concat(t0, t, visitor.trace(), done, fn_param_visits(*param)); done = done + fn_param_visits(*param); }
        proof {
            lemma_visits_each_step(params@, |x: FnParam| fn_param_visits(x), j as int);
            assert(done =~= before + visits_each(params@.take(j as int + 1), |x: FnParam| fn_param_visits(x)));
        }
        j = j + 1;
    }
    proof { lemma_visits_each_all(params@, |x: FnParam| fn_param_visits(x)); done = before + visits_each(params@, |x: FnParam| fn_param_visits(x)); }
    if let Some(ret) = &node.ret {
        let ghost t = visitor.trace();
        visit_fn_return(visitor, ret);
        proof { lemma_visits_concat(t0, t, visitor.trace(), done, fn_return_visits(*ret)); done = done + fn_return_visits(*ret); }
    }
    let body = &node.body;
    let ghost t = visitor.trace();
    visitor.visit_expr(body);
    proof { lemma_visits_step(t0, t, visitor.trace(), done, VisitEvent::Expr(*body)); done = done.push(VisitEvent::Expr(*body)); }
    assert(done =~= visits_each(node.params@, |x: FnParam| fn_param_visits(x)) + (match node.ret { Some(x) => fn_return_visits(x), None => Seq::empty() }) + seq![VisitEvent::Expr(node.body)]);
}

pub fn visit_let_binding_expr<T: Visitor>(visitor: &mut T, node: &AstNodeRef<LetBindingExpr>)
    ensures
        visits_in_order(old(visitor).trace(), final(visitor).trace(), seq![VisitEvent::Pattern(node.pattern)] + seq![VisitEvent::Expr(node.scrutinee)]),
{
    let ghost t0 = visitor.trace();
    proof { lemma_visits_none(t0); }
    let ghost mut done: Seq<VisitEvent> = Seq::empty();
    let r0 = &node.pattern;
    let ghost t = visitor.trace();
    visitor.visit_pattern(r0);
    proof { lemma_visits_step(t0, t, visitor.trace(), done, VisitEvent::Pattern(*r0)); done = done.push(VisitEvent::Pattern(*r0)); }
    let r1 = &node.scrutinee;
    let ghost t = visitor.trace();
    visitor.visit_expr(r1);
    proof { lemma_visits_step(t0, t, visitor.trace(), done, VisitEvent::Expr(*r1)); done = done.push(VisitEvent::Expr(*r1)); }
    assert(done =~= seq![VisitEvent::Pattern(node.pattern)] + seq![VisitEvent::Expr(node.scrutinee)]);
}

pub fn visit_if_expr<T: Visitor>(visitor: &mut T, node: &AstNodeRef<IfExpr>)
    ensures
        visits_in_order(old(visitor).trace(), final(visitor).trace(),
            seq![VisitEvent::Expr(node.cond), VisitEvent::BlockExpr(node.body)]
                + opt_visit(node.else_body, |e: Expr| VisitEvent::Expr(e))),
{
    let ghost t0 = visitor.trace();
    proof { lemma_visits_none(t0); }
    let cond = &node.cond;
    let ghost t = visitor.trace();
    visitor.visit_expr(cond);
    proof { lemma_visits_step(t0, t, visitor.trace(), Seq::empty(), VisitEvent::Expr(*cond)); }
    let ghost done = seq![VisitEvent::Expr(*cond)];
    let body = &node.body;
    let ghost t = visitor.trace();
    visitor.visit_block_expr(body);
    proof { lemma_visits_step(t0, t, visitor.trace(), done, VisitEvent::BlockExpr(*body)); }
    let ghost done = done.push(VisitEvent::BlockExpr(*body));
    if let Some(else_body) = &node.else_body {
        let ghost t = visitor.trace();
        visitor.visit_expr(else_body);
        proof { lemma_visits_step(t0, t, visitor.trace(), done, VisitEvent::Expr(*else_body)); }
        assert(done.push(VisitEvent::Expr(*else_body)) =~= seq![VisitEvent::Expr(node.cond), VisitEvent::BlockExpr(node.body)]
            + opt_visit(node.else_body, |e: Expr| VisitEvent::Expr(e)));
    } else {
        assert(done =~= seq![VisitEvent::Expr(node.cond), VisitEvent::BlockExpr(node.body)]
            + opt_visit(node.else_body, |e: Expr| VisitEvent::Expr(e)));
    }
}

pub fn visit_loop_expr<T: Visitor>(visitor: &mut T, node: &AstNodeRef<LoopExpr>)
    ensures
        visits_in_order(old(visitor).trace(), final(visitor).trace(), seq![VisitEvent::BlockExpr(node.body)]),
{
    let ghost t0 = visitor.trace();
    proof { lemma_visits_none(t0); }
    let ghost mut done: Seq<VisitEvent> = Seq::empty();
    let r0 = &node.body;
    let ghost t = visitor.trace();
    visitor.visit_block_expr(r0);
    proof { lemma_visits_step(t0, t, visitor.trace(), done, VisitEvent::BlockExpr(*r0)); done = done.push(VisitEvent::BlockExpr(*r0)); }
    assert(done =~= seq![VisitEvent::BlockExpr(node.body)]);
}

pub fn visit_while_expr<T: Visitor>(visitor: &mut T, node: &AstNodeRef<WhileExpr>)
    ensures
        visits_in_order(old(visitor).trace(), final(visitor).trace(), seq![VisitEvent::Expr(node.cond)] + opt_visit(node.inc, |x| VisitEvent::Expr(x)) + seq![VisitEvent::BlockExpr(node.body)] + opt_visit(node.else_body, |x| VisitEvent::BlockExpr(x))),
{
    let ghost t0 = visitor.trace();
    proof { lemma_visits_none(t0); }
    let ghost mut done: Seq<VisitEvent> = Seq::empty();
    let r0 = &node.cond;
    let ghost t = visitor.trace();
    visitor.visit_expr(r0);
    proof { lemma_visits_step(t0, t, visitor.trace(), done, VisitEvent::Expr(*r0)); done = done.push(VisitEvent::Expr(*r0)); }
    if let Some(r1) = &node.inc {
        let ghost t = visitor.trace();
        visitor.visit_expr(r1);
        proof { lemma_visits_step(t0, t, visitor.trace(), done, VisitEvent::Expr(*r1)); done = done.push(VisitEvent::Expr(*r1)); }
    }
    let r2 = &node.body;
    let ghost t = visitor.trace();
    visitor.visit_block_expr(r2);
    proof { lemma_visits_step(t0, t, visitor.trace(), done, VisitEvent::BlockExpr(*r2)); done = done.push(VisitEvent::BlockExpr(*r2)); }
    if let Some(r3) = &node.else_body {
        let ghost t = visitor.trace();
        visitor.visit_block_expr(r3);
        proof { lemma_visits_step(t0, t, visitor.trace(), done, VisitEvent::BlockExpr(*r3)); done = done.push(VisitEvent::BlockExpr(*r3)); }
    }
    assert(done =~= seq![VisitEvent::Expr(node.cond)] + opt_visit(node.inc, |x| VisitEvent::Expr(x)) + seq![VisitEvent::BlockExpr(node.body)] + opt_visit(node.else_body, |x| VisitEvent::BlockExpr(x)));
}

pub fn visit_do_while_expr<T: Visitor>(visitor: &mut T, node: &AstNodeRef<DoWhileExpr>)
    ensures
        visits_in_order(old(visitor).trace(), final(visitor).trace(), seq![VisitEvent::BlockExpr(node.body)] + seq![VisitEvent::Expr(node.cond)]),
{
    let ghost t0 = visitor.trace();
    proof { lemma_visits_none(t0); }
    let ghost mut done: Seq<VisitEvent> = Seq::empty();
    let r0 = &node.body;
    let ghost t = visitor.trace();
    visitor.visit_block_expr(r0);
    proof { lemma_visits_step(t0, t, visitor.trace(), done, VisitEvent::BlockExpr(*r0)); done = done.push(VisitEvent::BlockExpr(*r0)); }
    let r1 = &node.cond;
    let ghost t = visitor.trace();
    visitor.visit_expr(r1);
    proof { lemma_visits_step(t0, t, visitor.trace(), done, VisitEvent::Expr(*r1)); done = done.push(VisitEvent::Expr(*r1)); }
    assert(done =~= seq![VisitEvent::BlockExpr(node.body)] + seq![VisitEvent::Expr(node.cond)]);
}

pub fn visit_for_expr<T: Visitor>(visitor: &mut T, node: &AstNodeRef<ForExpr>)
    ensures
        visits_in_order(old(visitor).trace(), final(visitor).trace(), seq![VisitEvent::Pattern(node.pattern)] + seq![VisitEvent::Expr(node.src)] + seq![VisitEvent::BlockExpr(node.body)] + opt_visit(node.else_body, |x| VisitEvent::BlockExpr(x))),
{
    let ghost t0 = visitor.trace();
    proof { lemma_visits_none(t0); }
    let ghost mut done: Seq<VisitEvent> = Seq::empty();
    let r0 = &node.pattern;
    let ghost t = visitor.trace();
    visitor.visit_pattern(r0);
    proof { lemma_visits_step(t0, t, visitor.trace(), done, VisitEvent::Pattern(*r0)); done = done.push(VisitEvent::Pattern(*r0)); }
    let r1 = &node.src;
    let ghost t = visitor.trace();
    visitor.visit_expr(r1);
    proof { lemma_visits_step(t0, t, visitor.trace(), done, VisitEvent::Expr(*r1)); done = done.push(VisitEvent::Expr(*r1)); }
    let r2 = &node.body;
    let ghost t = visitor.trace();
    visitor.visit_block_expr(r2);
    proof { lemma_visits_step(t0, t, visitor.trace(), done, VisitEvent::BlockExpr(*r2)); done = done.push(VisitEvent::BlockExpr(*r2)); }
    if let Some(r3) = &node.else_body {
        let ghost t = visitor.trace();
        visitor.visit_block_expr(r3);
        proof { lemma_visits_step(t0, t, visitor.trace(), done, VisitEvent::BlockExpr(*r3)); done = done.push(VisitEvent::BlockExpr(*r3)); }
    }
    assert(done =~= seq![VisitEvent::Pattern(node.pattern)] + seq![VisitEvent::Expr(node.src)] + seq![VisitEvent::BlockExpr(node.body)] + opt_visit(node.else_body, |x| VisitEvent::BlockExpr(x)));
}

/// The calls that the walk makes for one item.
pub open spec fn match_branch_visits(branch: MatchBranch) -> Seq<VisitEvent> {
    seq![VisitEvent::Pattern(branch.pattern)] + opt_visit(branch.guard, |x| VisitEvent::Expr(x)) + seq![VisitEvent::Expr(branch.body)]
}

pub fn visit_match_expr<T: Visitor>(visitor: &mut T, node: &AstNodeRef<MatchExpr>)
    ensures
        visits_in_order(old(visitor).trace(), final(visitor).trace(), seq![VisitEvent::Expr(node.scrutinee)] + visits_each(node.branches@, |x: MatchBranch| match_branch_visits(x))),
{
    let ghost t0 = visitor.trace();
    proof { lemma_visits_none(t0); }
    let ghost mut done: Seq<VisitEvent> = Seq::empty();
    let scrutinee = &node.scrutinee;
    let ghost t = visitor.trace();
    visitor.visit_expr(scrutinee);
    proof { lemma_visits_step(t0, t, visitor.trace(), done, VisitEvent::Expr(*scrutinee)); done = done.push(VisitEvent::Expr(*scrutinee)); }
    let branches = &node.branches;
    let ghost before = done;
    proof { lemma_visits_each_start(branches@, |x: MatchBranch| match_branch_visits(x)); }
    assert(before + Seq::<VisitEvent>::empty() =~= before);
    let mut j: usize = 0;
    while j < branches.len()
        invariant
            j <= branches@.len(),
            visits_in_order(t0, visitor.trace(), before + visits_each(branches@.take(j as int), |x: MatchBranch| match_branch_visits(x))),
        decreases branches@.len() - j,
    {
        let branch = &branches[j];
        proof { done = before + visits_each(branches@.take(j as int), |x: MatchBranch| match_branch_visits(x)); }
        let pattern = &branch.pattern;
        let ghost t = visitor.trace();
        visitor.visit_pattern(pattern);
        proof { lemma_visits_step(t0, t, visitor.trace(), done, VisitEvent::Pattern(*pattern)); done = done.push(VisitEvent::Pattern(*pattern)); }
        if let Some(guard) = &branch.guard {
            let ghost t = visitor.trace();
            visitor.visit_expr(guard);
            proof { lemma_visits_step(t0, t, visitor.trace(), done, VisitEvent::Expr(*guard)); done = done.push(VisitEvent::Expr(*guard)); }
        }
        let body = &branch.body;
        let ghost t = visitor.trace();
        visitor.visit_expr(body);
        proof { lemma_visits_step(t0, t, visitor.trace(), done, VisitEvent::Expr(*body)); done = done.push(VisitEvent::Expr(*body)); }
        proof {
            lemma_visits_each_step(branches@, |x: MatchBranch| match_branch_visits(x), j as int);
            assert(done =~= before + visits_each(branches@.take(j as int + 1), |x: MatchBranch| match_branch_visits(x)));
        }
        j = j + 1;
    }
    proof { lemma_visits_each_all(branches@, |x: MatchBranch| match_branch_visits(x)); done = before + visits_each(branches@, |x: MatchBranch| match_branch_visits(x)); }
    assert(done =~= seq![VisitEvent::Expr(node.scrutinee)] + visits_each(node.branches@, |x: MatchBranch| match_branch_visits(x)));
}

pub fn visit_break_expr<T: Visitor>(visitor: &mut T, node: &AstNodeRef<BreakExpr>)
    ensures
        visits_in_order(old(visitor).trace(), final(visitor).trace(), opt_visit(node.value, |x| VisitEvent::Expr(x))),
{
    let ghost t0 = visitor.trace();
    proof { lemma_visits_none(t0); }
    let ghost mut done: Seq<VisitEvent> = Seq::empty();
    if let Some(r0) = &node.value {
        let ghost t = visitor.trace();
        visitor.visit_expr(r0);
        proof { lemma_visits_step(t0, t, visitor.trace(), done, VisitEvent::Expr(*r0)); done = done.push(VisitEvent::Expr(*r0)); }
    }
    assert(done =~= opt_visit(node.value, |x| VisitEvent::Expr(x)));
}

pub fn visit_return_expr<T: Visitor>(visitor: &mut T, node: &AstNodeRef<ReturnExpr>)
    ensures
        visits_in_order(old(visitor).trace(), final(visitor).trace(), opt_visit(node.value, |x| VisitEvent::Expr(x))),
{
    let ghost t0 = visitor.trace();
    proof { lemma_visits_none(t0); }
    let ghost mut done: Seq<VisitEvent> = Seq::empty();
    if let Some(r0) = &node.value {
        let ghost t = visitor.trace();
        visitor.visit_expr(r0);
        proof { lemma_visits_step(t0, t, visitor.trace(), done, VisitEvent::Expr(*r0)); done = done.push(VisitEvent::Expr(*r0)); }
    }
    assert(done =~= opt_visit(node.value, |x| VisitEvent::Expr(x)));
}

pub fn visit_throw_expr<T: Visitor>(visitor: &mut T, node: &AstNodeRef<ThrowExpr>)
    ensures
        visits_in_order(old(visitor).trace(), final(visitor).trace(), seq![VisitEvent::Expr(node.expr)]),
{
    let ghost t0 = visitor.trace();
    proof { lemma_visits_none(t0); }
    let ghost mut done: Seq<VisitEvent> = Seq::empty();
    let r0 = &node.expr;
    let ghost t = visitor.trace();
    visitor.visit_expr(r0);
    proof { lemma_visits_step(t0, t, visitor.trace(), done, VisitEvent::Expr(*r0)); done = done.push(VisitEvent::Expr(*r0)); }
    assert(done =~= seq![VisitEvent::Expr(node.expr)]);
}

pub fn visit_comma_expr<T: Visitor>(visitor: &mut T, node: &AstNodeRef<CommaExpr>)
    ensures
        visits_in_order(old(visitor).trace(), final(visitor).trace(), node.exprs@.map_values(|x| VisitEvent::Expr(x))),
{
    let ghost t0 = visitor.trace();
    proof { lemma_visits_none(t0); }
    let items = &node.exprs;
    assert(items@.take(0).map_values(|x| VisitEvent::Expr(x)) =~= Seq::<VisitEvent>::empty());
    let mut i: usize = 0;
    while i < items.len()
        invariant
            i <= items@.len(),
            items@ == node.exprs@,
            visits_in_order(t0, visitor.trace(), items@.take(i as int).map_values(|x| VisitEvent::Expr(x))),
        decreases items@.len() - i,
    {
        let ghost t = visitor.trace();
        visitor.visit_expr(&items[i]);
        proof {
            lemma_visits_step(t0, t, visitor.trace(), items@.take(i as int).map_values(|x| VisitEvent::Expr(x)), VisitEvent::Expr(items@[i as int]));
            assert(items@.take(i as int + 1).map_values(|x| VisitEvent::Expr(x)) =~= items@.take(i as int).map_values(|x| VisitEvent::Expr(x)).push(VisitEvent::Expr(items@[i as int])));
        }
        i = i + 1;
    }
    assert(items@.take(items@.len() as int) =~= items@);
}

pub fn visit_when_expr<T: Visitor>(visitor: &mut T, node: &AstNodeRef<WhenExpr>)
    ensures
        visits_in_order(old(visitor).trace(), final(visitor).trace(), seq![VisitEvent::Expr(node.cond)] + seq![VisitEvent::BlockExpr(node.body)] + opt_visit(node.else_body, |x| VisitEvent::Expr(x))),
{
    let ghost t0 = visitor.trace();
    proof { lemma_visits_none(t0); }
    let ghost mut done: Seq<VisitEvent> = Seq::empty();
    let r0 = &node.cond;
    let ghost t = visitor.trace();
    visitor.visit_expr(r0);
    proof { lemma_visits_step(t0, t, visitor.trace(), done, VisitEvent::Expr(*r0)); done = done.push(VisitEvent::Expr(*r0)); }
    let r1 = &node.body;
    let ghost t = visitor.trace();
    visitor.visit_block_expr(r1);
    proof { lemma_visits_step(t0, t, visitor.trace(), done, VisitEvent::BlockExpr(*r1)); done = done.push(VisitEvent::BlockExpr(*r1)); }
    if let Some(r2) = &node.else_body {
        let ghost t = visitor.trace();
        visitor.visit_expr(r2);
        proof { lemma_visits_step(t0, t, visitor.trace(), done, VisitEvent::Expr(*r2)); done = done.push(VisitEvent::Expr(*r2)); }
    }
    assert(done =~= seq![VisitEvent::Expr(node.cond)] + seq![VisitEvent::BlockExpr(node.body)] + opt_visit(node.else_body, |x| VisitEvent::Expr(x)));
}

// =============================================================================================================================

pub fn visit_pattern<T: Visitor>(visitor: &mut T, pattern: &Pattern)
    ensures
        visits_in_order(old(visitor).trace(), final(visitor).trace(), seq![match *pattern {
            Pattern::Literal(n) => VisitEvent::LiteralPattern(n),
            Pattern::Identifier(n) => VisitEvent::IdentifierPattern(n),
            Pattern::Path(n) => VisitEvent::PathPattern(n),
            Pattern::Wildcard(n) => VisitEvent::WildcardPattern(n),
            Pattern::Rest(n) => VisitEvent::RestPattern(n),
            Pattern::Range(n) => VisitEvent::RangePattern(n),
            Pattern::Reference(n) => VisitEvent::ReferencePattern(n),
            Pattern::Struct(n) => VisitEvent::StructPattern(n),
            Pattern::Tuple(n) => VisitEvent::TuplePattern(n),
            Pattern::Grouped(n) => VisitEvent::GroupedPattern(n),
            Pattern::Slice(n) => VisitEvent::SlicePattern(n),
            Pattern::EnumMember(n) => VisitEvent::EnumMemberPattern(n),
            Pattern::Alternative(n) => VisitEvent::AlternativePattern(n),
            Pattern::TypeCheck(n) => VisitEvent::TypeCheckPattern(n),
        }]),
{
    let ghost t0 = visitor.trace();
    proof { lemma_visits_none(t0); }
    match pattern {
        Pattern::Literal(n) => {
            visitor.visit_literal_pattern(n);
            proof { lemma_visits_step(t0, t0, visitor.trace(), Seq::empty(), VisitEvent::LiteralPattern(*n)); }
        },
        Pattern::Identifier(n) => {
            visitor.visit_identifier_pattern(n);
            proof { lemma_visits_step(t0, t0, visitor.trace(), Seq::empty(), VisitEvent::IdentifierPattern(*n)); }
        },
        Pattern::Path(n) => {
            visitor.visit_path_pattern(n);
            proof { lemma_visits_step(t0, t0, visitor.trace(), Seq::empty(), VisitEvent::PathPattern(*n)); }
        },
        Pattern::Wildcard(n) => {
            visitor.visit_wildcard_pattern(n);
            proof { lemma_visits_step(t0, t0, visitor.trace(), Seq::empty(), VisitEvent::WildcardPattern(*n)); }
        },
        Pattern::Rest(n) => {
            visitor.visit_rest_pattern(n);
            proof { lemma_visits_step(t0, t0, visitor.trace(), Seq::empty(), VisitEvent::RestPattern(*n)); }
        },
        Pattern::Range(n) => {
            visitor.visit_range_pattern(n);
            proof { lemma_visits_step(t0, t0, visitor.trace(), Seq::empty(), VisitEvent::RangePattern(*n)); }
        },
        Pattern::Reference(n) => {
            visitor.visit_reference_pattern(n);
            proof { lemma_visits_step(t0, t0, visitor.trace(), Seq::empty(), VisitEvent::ReferencePattern(*n)); }
        },
        Pattern::Struct(n) => {
            visitor.visit_struct_pattern(n);
            proof { lemma_visits_step(t0, t0, visitor.trace(), Seq::empty(), VisitEvent::StructPattern(*n)); }
        },
        Pattern::Tuple(n) => {
            visitor.visit_tuple_pattern(n);
            proof { lemma_visits_step(t0, t0, visitor.trace(), Seq::empty(), VisitEvent::TuplePattern(*n)); }
        },
        Pattern::Grouped(n) => {
            visitor.visit_grouped_pattern(n);
            proof { lemma_visits_step(t0, t0, visitor.trace(), Seq::empty(), VisitEvent::GroupedPattern(*n)); }
        },
        Pattern::Slice(n) => {
            visitor.visit_slice_pattern(n);
            proof { lemma_visits_step(t0, t0, visitor.trace(), Seq::empty(), VisitEvent::SlicePattern(*n)); }
        },
        Pattern::EnumMember(n) => {
            visitor.visit_enum_member_pattern(n);
            proof { lemma_visits_step(t0, t0, visitor.trace(), Seq::empty(), VisitEvent::EnumMemberPattern(*n)); }
        },
        Pattern::Alternative(n) => {
            visitor.visit_alternative_pattern(n);
            proof { lemma_visits_step(t0, t0, visitor.trace(), Seq::empty(), VisitEvent::AlternativePattern(*n)); }
        },
        Pattern::TypeCheck(n) => {
            visitor.visit_type_check_pattern(n);
            proof { lemma_visits_step(t0, t0, visitor.trace(), Seq::empty(), VisitEvent::TypeCheckPattern(*n)); }
        },
    }
}

pub fn visit_identifier_pattern<T: Visitor>(visitor: &mut T, node: &AstNodeRef<IdentifierPattern>)
    ensures
        visits_in_order(old(visitor).trace(), final(visitor).trace(), opt_visit(node.bound, |x| VisitEvent::Pattern(x))),
{
    let ghost t0 = visitor.trace();
    proof { lemma_visits_none(t0); }
    let ghost mut done: Seq<VisitEvent> = Seq::empty();
    if let Some(r0) = &node.bound {
        let ghost t = visitor.trace();
        visitor.visit_pattern(r0);
        proof { lemma_visits_step(t0, t, visitor.trace(), done, VisitEvent::Pattern(*r0)); done = done.push(VisitEvent::Pattern(*r0)); }
    }
    assert(done =~= opt_visit(node.bound, |x| VisitEvent::Pattern(x)));
}

pub fn visit_path_pattern<T: Visitor>(visitor: &mut T, node: &AstNodeRef<PathPattern>)
    ensures
        visits_in_order(old(visitor).trace(), final(visitor).trace(), seq![VisitEvent::ExprPath(node.path)]),
{
    let ghost t0 = visitor.trace();
    proof { lemma_visits_none(t0); }
    let ghost mut done: Seq<VisitEvent> = Seq::empty();
    let r0 = &node.path;
    let ghost t = visitor.trace();
    visitor.visit_expr_path(r0);
    proof { lemma_visits_step(t0, t, visitor.trace(), done, VisitEvent::ExprPath(*r0)); done = done.push(VisitEvent::ExprPath(*r0)); }
    assert(done =~= seq![VisitEvent::ExprPath(node.path)]);
}

pub fn visit_range_pattern<T: Visitor>(visitor: &mut T, node: &AstNodeRef<RangePattern>)
    ensures
        visits_in_order(old(visitor).trace(), final(visitor).trace(), (match **node { RangePattern::Exclusive { begin, end, .. } => seq![VisitEvent::Pattern(begin)] + seq![VisitEvent::Pattern(end)], RangePattern::Inclusive { begin, end, .. } => seq![VisitEvent::Pattern(begin)] + seq![VisitEvent::Pattern(end)], RangePattern::From { begin, .. } => seq![VisitEvent::Pattern(begin)], RangePattern::To { end, .. } => seq![VisitEvent::Pattern(end)], RangePattern::InclusiveTo { end, .. } => seq![VisitEvent::Pattern(end)] })),
{
    let ghost t0 = visitor.trace();
    proof { lemma_visits_none(t0); }
    let ghost mut done: Seq<VisitEvent> = Seq::empty();
    match &**node {
        RangePattern::Exclusive { begin, end, .. } => {
            let ghost t = visitor.trace();
            visitor.visit_pattern(begin);
            proof { lemma_visits_step(t0, t, visitor.trace(), done, VisitEvent::Pattern(*begin)); done = done.push(VisitEvent::Pattern(*begin)); }
            let ghost t = visitor.trace();
            visitor.visit_pattern(end);
            proof { lemma_visits_step(t0, t, visitor.trace(), done, VisitEvent::Pattern(*end)); done = done.push(VisitEvent::Pattern(*end)); }
        },
        RangePattern::Inclusive { begin, end, .. } => {
            let ghost t = visitor.trace();
            visitor.visit_pattern(begin);
            proof { lemma_visits_step(t0, t, visitor.trace(), done, VisitEvent::Pattern(*begin)); done = done.push(VisitEvent::Pattern(*begin)); }
            let ghost t = visitor.trace();
            visitor.visit_pattern(end);
            proof { lemma_visits_step(t0, t, visitor.trace(), done, VisitEvent::Pattern(*end)); done = done.push(VisitEvent::Pattern(*end)); }
        },
        RangePattern::From { begin, .. } => {
            let ghost t = visitor.trace();
            visitor.visit_pattern(begin);
            proof { lemma_visits_step(t0, t, visitor.trace(), done, VisitEvent::Pattern(*begin)); done = done.push(VisitEvent::Pattern(*begin)); }
        },
        RangePattern::To { end, .. } => {
            let ghost t = visitor.trace();
            visitor.visit_pattern(end);
            proof { lemma_visits_step(t0, t, visitor.trace(), done, VisitEvent::Pattern(*end)); done = done.push(VisitEvent::Pattern(*end)); }
        },
        RangePattern::InclusiveTo { end, .. } => {
            let ghost t = visitor.trace();
            visitor.visit_pattern(end);
            proof { lemma_visits_step(t0, t, visitor.trace(), done, VisitEvent::Pattern(*end)); done = done.push(VisitEvent::Pattern(*end)); }
        },
    }
    assert(done =~= (match **node { RangePattern::Exclusive { begin, end, .. } => seq![VisitEvent::Pattern(begin)] + seq![VisitEvent::Pattern(end)], RangePattern::Inclusive { begin, end, .. } => seq![VisitEvent::Pattern(begin)] + seq![VisitEvent::Pattern(end)], RangePattern::From { begin, .. } => seq![VisitEvent::Pattern(begin)], RangePattern::To { end, .. } => seq![VisitEvent::Pattern(end)], RangePattern::InclusiveTo { end, .. } => seq![VisitEvent::Pattern(end)] }));
}

pub fn visit_reference_pattern<T: Visitor>(visitor: &mut T, node: &AstNodeRef<ReferencePattern>)
    ensures
        visits_in_order(old(visitor).trace(), final(visitor).trace(), seq![VisitEvent::Pattern(node.pattern)]),
{
    let ghost t0 = visitor.trace();
    proof { lemma_visits_none(t0); }
    let ghost mut done: Seq<VisitEvent> = Seq::empty();
    let r0 = &node.pattern;
    let ghost t = visitor.trace();
    visitor.visit_pattern(r0);
    proof { lemma_visits_step(t0, t, visitor.trace(), done, VisitEvent::Pattern(*r0)); done = done.push(VisitEvent::Pattern(*r0)); }
    assert(done =~= seq![VisitEvent::Pattern(node.pattern)]);
}

/// The patterns inside struct pattern fields.
/// The calls that the walk makes for one item.
pub open spec fn struct_pattern_field_visits(field: StructPatternField) -> Seq<VisitEvent> {
    (match field { StructPatternField::Named { pattern, .. } => seq![VisitEvent::Pattern(pattern)], StructPatternField::TupleIndex { pattern, .. } => seq![VisitEvent::Pattern(pattern)], StructPatternField::Iden { bound, .. } => opt_visit(bound, |x| VisitEvent::Pattern(x)), StructPatternField::Rest => Seq::<VisitEvent>::empty() })
}

/// The calls of [`visit_struct_pattern_fields`]: the pattern of each field.
pub open spec fn struct_pattern_fields_visits(fields: Seq<StructPatternField>) -> Seq<VisitEvent> {
    visits_each(fields, |x: StructPatternField| struct_pattern_field_visits(x))
}

fn visit_struct_pattern_fields<T: Visitor>(visitor: &mut T, fields: &Vec<StructPatternField>)
    ensures
        visits_in_order(old(visitor).trace(), final(visitor).trace(), struct_pattern_fields_visits(fields@)),
{
    let ghost t0 = visitor.trace();
    proof { lemma_visits_none(t0); }
    let ghost mut done: Seq<VisitEvent> = Seq::empty();
    let ghost before = done;
    proof { lemma_visits_each_start(fields@, |x: StructPatternField| struct_pattern_field_visits(x)); }
    assert(before + Seq::<VisitEvent>::empty() =~= before);
    let mut j: usize = 0;
    while j < fields.len()
        invariant
            j <= fields@.len(),
            visits_in_order(t0, visitor.trace(), before + visits_each(fields@.take(j as int), |x: StructPatternField| struct_pattern_field_visits(x))),
        decreases fields@.len() - j,
    {
        let field = &fields[j];
        proof { done = before + visits_each(fields@.take(j as int), |x: StructPatternField| struct_pattern_field_visits(x)); }
        match field {
            StructPatternField::Named { pattern, .. } => {
                let ghost t = visitor.trace();
                visitor.visit_pattern(pattern);
                proof { lemma_visits_step(t0, t, visitor.trace(), done, VisitEvent::Pattern(*pattern)); done = done.push(VisitEvent::Pattern(*pattern)); }
            },
            StructPatternField::TupleIndex { pattern, .. } => {
                let ghost t = visitor.trace();
                visitor.visit_pattern(pattern);
                proof { lemma_visits_step(t0, t, visitor.trace(), done, VisitEvent::Pattern(*pattern)); done = done.push(VisitEvent::Pattern(*pattern)); }
            },
            StructPatternField::Iden { bound, .. } => {
                if let Some(bound) = bound {
                    let ghost t = visitor.trace();
                    visitor.visit_pattern(bound);
                    proof { lemma_visits_step(t0, t, visitor.trace(), done, VisitEvent::Pattern(*bound)); done = done.push(VisitEvent::Pattern(*bound)); }
                }
            },
            StructPatternField::Rest => {},
        }
        proof {
            lemma_visits_each_step(fields@, |x: StructPatternField| struct_pattern_field_visits(x), j as int);
            assert(done =~= before + visits_each(fields@.take(j as int + 1), |x: StructPatternField| struct_pattern_field_visits(x)));
        }
        j = j + 1;
    }
    proof { lemma_visits_each_all(fields@, |x: StructPatternField| struct_pattern_field_visits(x)); done = before + visits_each(fields@, |x: StructPatternField| struct_pattern_field_visits(x)); }
    assert(done =~= struct_pattern_fields_visits(fields@));
}

pub fn visit_struct_pattern<T: Visitor>(visitor: &mut T, node: &AstNodeRef<StructPattern>)
    ensures
        visits_in_order(old(visitor).trace(), final(visitor).trace(), (match **node { StructPattern::Inferred { fields, .. } => struct_pattern_fields_visits(fields@), StructPattern::Path { path, fields, .. } => seq![VisitEvent::ExprPath(path)] + struct_pattern_fields_visits(fields@) })),
{
    let ghost t0 = visitor.trace();
    proof { lemma_visits_none(t0); }
    let ghost mut done: Seq<VisitEvent> = Seq::empty();
    match &**node {
        StructPattern::Inferred { fields, .. } => {
            let ghost t = visitor.trace();
            visit_struct_pattern_fields(visitor, fields);
            proof { lemma_visits_concat(t0, t, visitor.trace(), done, struct_pattern_fields_visits(fields@)); done = done + struct_pattern_fields_visits(fields@); }
        },
        StructPattern::Path { path, fields, .. } => {
            let ghost t = visitor.trace();
            visitor.visit_expr_path(path);
            proof { lemma_visits_step(t0, t, visitor.trace(), done, VisitEvent::ExprPath(*path)); done = done.push(VisitEvent::ExprPath(*path)); }
            let ghost t = visitor.trace();
            visit_struct_pattern_fields(visitor, fields);
            proof { lemma_visits_concat(t0, t, visitor.trace(), done, struct_pattern_fields_visits(fields@)); done = done + struct_pattern_fields_visits(fields@); }
        },
    }
    assert(done =~= (match **node { StructPattern::Inferred { fields, .. } => struct_pattern_fields_visits(fields@), StructPattern::Path { path, fields, .. } => seq![VisitEvent::ExprPath(path)] + struct_pattern_fields_visits(fields@) }));
}

pub fn visit_tuple_pattern<T: Visitor>(visitor: &mut T, node: &AstNodeRef<TuplePattern>)
    ensures
        visits_in_order(old(visitor).trace(), final(visitor).trace(), node.patterns@.map_values(|x| VisitEvent::Pattern(x))),
{
    let ghost t0 = visitor.trace();
    proof { lemma_visits_none(t0); }
    let items = &node.patterns;
    assert(items@.take(0).map_values(|x| VisitEvent::Pattern(x)) =~= Seq::<VisitEvent>::empty());
    let mut i: usize = 0;
    while i < items.len()
        invariant
            i <= items@.len(),
            items@ == node.patterns@,
            visits_in_order(t0, visitor.trace(), items@.take(i as int).map_values(|x| VisitEvent::Pattern(x))),
        decreases items@.len() - i,
    {
        let ghost t = visitor.trace();
        visitor.visit_pattern(&items[i]);
        proof {
            lemma_visits_step(t0, t, visitor.trace(), items@.take(i as int).map_values(|x| VisitEvent::Pattern(x)), VisitEvent::Pattern(items@[i as int]));
            assert(items@.take(i as int + 1).map_values(|x| VisitEvent::Pattern(x)) =~= items@.take(i as int).map_values(|x| VisitEvent::Pattern(x)).push(VisitEvent::Pattern(items@[i as int])));
        }
        i = i + 1;
    }
    assert(items@.take(items@.len() as int) =~= items@);
}

pub fn visit_grouped_pattern<T: Visitor>(visitor: &mut T, node: &AstNodeRef<GroupedPattern>)
    ensures
        visits_in_order(old(visitor).trace(), final(visitor).trace(), seq![VisitEvent::Pattern(node.pattern)]),
{
    let ghost t0 = visitor.trace();
    proof { lemma_visits_none(t0); }
    let ghost mut done: Seq<VisitEvent> = Seq::empty();
    let r0 = &node.pattern;
    let ghost t = visitor.trace();
    visitor.visit_pattern(r0);
    proof { lemma_visits_step(t0, t, visitor.trace(), done, VisitEvent::Pattern(*r0)); done = done.push(VisitEvent::Pattern(*r0)); }
    assert(done =~= seq![VisitEvent::Pattern(node.pattern)]);
}

pub fn visit_slice_pattern<T: Visitor>(visitor: &mut T, node: &AstNodeRef<SlicePattern>)
    ensures
        visits_in_order(old(visitor).trace(), final(visitor).trace(), node.patterns@.map_values(|x| VisitEvent::Pattern(x))),
{
    let ghost t0 = visitor.trace();
    proof { lemma_visits_none(t0); }
    let items = &node.patterns;
    assert(items@.take(0).map_values(|x| VisitEvent::Pattern(x)) =~= Seq::<VisitEvent>::empty());
    let mut i: usize = 0;
    while i < items.len()
        invariant
            i <= items@.len(),
            items@ == node.patterns@,
            visits_in_order(t0, visitor.trace(), items@.take(i as int).map_values(|x| VisitEvent::Pattern(x))),
        decreases items@.len() - i,
    {
        let ghost t = visitor.trace();
        visitor.visit_pattern(&items[i]);
        proof {
            lemma_visits_step(t0, t, visitor.trace(), items@.take(i as int).map_values(|x| VisitEvent::Pattern(x)), VisitEvent::Pattern(items@[i as int]));
            assert(items@.take(i as int + 1).map_values(|x| VisitEvent::Pattern(x)) =~= items@.take(i as int).map_values(|x| VisitEvent::Pattern(x)).push(VisitEvent::Pattern(items@[i as int])));
        }
        i = i + 1;
    }
    assert(items@.take(items@.len() as int) =~= items@);
}

pub fn visit_alternative_pattern<T: Visitor>(visitor: &mut T, node: &AstNodeRef<AlternativePattern>)
    ensures
        visits_in_order(old(visitor).trace(), final(visitor).trace(), node.patterns@.map_values(|x| VisitEvent::Pattern(x))),
{
    let ghost t0 = visitor.trace();
    proof { lemma_visits_none(t0); }
    let items = &node.patterns;
    assert(items@.take(0).map_values(|x| VisitEvent::Pattern(x)) =~= Seq::<VisitEvent>::empty());
    let mut i: usize = 0;
    while i < items.len()
        invariant
            i <= items@.len(),
            items@ == node.patterns@,
            visits_in_order(t0, visitor.trace(), items@.take(i as int).map_values(|x| VisitEvent::Pattern(x))),
        decreases items@.len() - i,
    {
        let ghost t = visitor.trace();
        visitor.visit_pattern(&items[i]);
        proof {
            lemma_visits_step(t0, t, visitor.trace(), items@.take(i as int).map_values(|x| VisitEvent::Pattern(x)), VisitEvent::Pattern(items@[i as int]));
            assert(items@.take(i as int + 1).map_values(|x| VisitEvent::Pattern(x)) =~= items@.take(i as int).map_values(|x| VisitEvent::Pattern(x)).push(VisitEvent::Pattern(items@[i as int])));
        }
        i = i + 1;
    }
    assert(items@.take(items@.len() as int) =~= items@);
}

pub fn visit_type_check_pattern<T: Visitor>(visitor: &mut T, node: &AstNodeRef<TypeCheckPattern>)
    ensures
        visits_in_order(old(visitor).trace(), final(visitor).trace(), seq![VisitEvent::Type(node.ty)]),
{
    let ghost t0 = visitor.trace();
    proof { lemma_visits_none(t0); }
    let ghost mut done: Seq<VisitEvent> = Seq::empty();
    let r0 = &node.ty;
    let ghost t = visitor.trace();
    visitor.visit_type(r0);
    proof { lemma_visits_step(t0, t, visitor.trace(), done, VisitEvent::Type(*r0)); done = done.push(VisitEvent::Type(*r0)); }
    assert(done =~= seq![VisitEvent::Type(node.ty)]);
}

// =============================================================================================================================

pub fn visit_type<T: Visitor>(visitor: &mut T, node: &Type)
    ensures
        visits_in_order(old(visitor).trace(), final(visitor).trace(), seq![match *node {
            Type::Paren(n) => VisitEvent::ParenType(n),
            Type::Primitive(n) => VisitEvent::PrimitiveType(n),
            Type::Unit(n) => VisitEvent::UnitType(n),
            Type::Never(n) => VisitEvent::NeverType(n),
            Type::Path(n) => VisitEvent::PathType(n),
            Type::Tuple(n) => VisitEvent::TupleType(n),
            Type::Array(n) => VisitEvent::ArrayType(n),
            Type::Slice(n) => VisitEvent::SliceType(n),
            Type::StringSlice(n) => VisitEvent::StringSliceType(n),
            Type::Pointer(n) => VisitEvent::PointerType(n),
            Type::Ref(n) => VisitEvent::ReferenceType(n),
            Type::Optional(n) => VisitEvent::OptionalType(n),
            Type::Fn(n) => VisitEvent::FnType(n),
            Type::Record(n) => VisitEvent::RecordType(n),
            Type::EnumRecord(n) => VisitEvent::EnumRecordType(n),
        }]),
{
    let ghost t0 = visitor.trace();
    proof { lemma_visits_none(t0); }
    match node {
        Type::Paren(n) => {
            visitor.visit_paren_type(n);
            proof { lemma_visits_step(t0, t0, visitor.trace(), Seq::empty(), VisitEvent::ParenType(*n)); }
        },
        Type::Primitive(n) => {
            visitor.visit_primitive_type(n);
            proof { lemma_visits_step(t0, t0, visitor.trace(), Seq::empty(), VisitEvent::PrimitiveType(*n)); }
        },
        Type::Unit(n) => {
            visitor.visit_unit_type(n);
            proof { lemma_visits_step(t0, t0, visitor.trace(), Seq::empty(), VisitEvent::UnitType(*n)); }
        },
        Type::Never(n) => {
            visitor.visit_never_type(n);
            proof { lemma_visits_step(t0, t0, visitor.trace(), Seq::empty(), VisitEvent::NeverType(*n)); }
        },
        Type::Path(n) => {
            visitor.visit_path_type(n);
            proof { lemma_visits_step(t0, t0, visitor.trace(), Seq::empty(), VisitEvent::PathType(*n)); }
        },
        Type::Tuple(n) => {
            visitor.visit_tuple_type(n);
            proof { lemma_visits_step(t0, t0, visitor.trace(), Seq::empty(), VisitEvent::TupleType(*n)); }
        },
        Type::Array(n) => {
            visitor.visit_array_type(n);
            proof { lemma_visits_step(t0, t0, visitor.trace(), Seq::empty(), VisitEvent::ArrayType(*n)); }
        },
        Type::Slice(n) => {
            visitor.visit_slice_type(n);
            proof { lemma_visits_step(t0, t0, visitor.trace(), Seq::empty(), VisitEvent::SliceType(*n)); }
        },
        Type::StringSlice(n) => {
            visitor.visit_string_slice_type(n);
            proof { lemma_visits_step(t0, t0, visitor.trace(), Seq::empty(), VisitEvent::StringSliceType(*n)); }
        },
        Type::Pointer(n) => {
            visitor.visit_pointer_type(n);
            proof { lemma_visits_step(t0, t0, visitor.trace(), Seq::empty(), VisitEvent::PointerType(*n)); }
        },
        Type::Ref(n) => {
            visitor.visit_reference_type(n);
            proof { lemma_visits_step(t0, t0, visitor.trace(), Seq::empty(), VisitEvent::ReferenceType(*n)); }
        },
        Type::Optional(n) => {
            visitor.visit_optional_type(n);
            proof { lemma_visits_step(t0, t0, visitor.trace(), Seq::empty(), VisitEvent::OptionalType(*n)); }
        },
        Type::Fn(n) => {
            visitor.visit_fn_type(n);
            proof { lemma_visits_step(t0, t0, visitor.trace(), Seq::empty(), VisitEvent::FnType(*n)); }
        },
        Type::Record(n) => {
            visitor.visit_record_type(n);
            proof { lemma_visits_step(t0, t0, visitor.trace(), Seq::empty(), VisitEvent::RecordType(*n)); }
        },
        Type::EnumRecord(n) => {
            visitor.visit_enum_record_type(n);
            proof { lemma_visits_step(t0, t0, visitor.trace(), Seq::empty(), VisitEvent::EnumRecordType(*n)); }
        },
    }
}

pub fn visit_paren_type<T: Visitor>(visitor: &mut T, node: &AstNodeRef<ParenthesizedType>)
    ensures
        visits_in_order(old(visitor).trace(), final(visitor).trace(), seq![VisitEvent::Type(node.ty)]),
{
    let ghost t0 = visitor.trace();
    proof { lemma_visits_none(t0); }
    let ghost mut done: Seq<VisitEvent> = Seq::empty();
    let r0 = &node.ty;
    let ghost t = visitor.trace();
    visitor.visit_type(r0);
    proof { lemma_visits_step(t0, t, visitor.trace(), done, VisitEvent::Type(*r0)); done = done.push(VisitEvent::Type(*r0)); }
    assert(done =~= seq![VisitEvent::Type(node.ty)]);
}

pub fn visit_path_type<T: Visitor>(visitor: &mut T, node: &AstNodeRef<PathType>)
    ensures
        visits_in_order(old(visitor).trace(), final(visitor).trace(), seq![VisitEvent::TypePath(node.path)]),
{
    let ghost t0 = visitor.trace();
    proof { lemma_visits_none(t0); }
    let ghost mut done: Seq<VisitEvent> = Seq::empty();
    let r0 = &node.path;
    let ghost t = visitor.trace();
    visitor.visit_type_path(r0);
    proof { lemma_visits_step(t0, t, visitor.trace(), done, VisitEvent::TypePath(*r0)); done = done.push(VisitEvent::TypePath(*r0)); }
    assert(done =~= seq![VisitEvent::TypePath(node.path)]);
}

pub fn visit_tuple_type<T: Visitor>(visitor: &mut T, node: &AstNodeRef<TupleType>)
    ensures
        visits_in_order(old(visitor).trace(), final(visitor).trace(), node.types@.map_values(|x| VisitEvent::Type(x))),
{
    let ghost t0 = visitor.trace();
    proof { lemma_visits_none(t0); }
    let items = &node.types;
    assert(items@.take(0).map_values(|x| VisitEvent::Type(x)) =~= Seq::<VisitEvent>::empty());
    let mut i: usize = 0;
    while i < items.len()
        invariant
            i <= items@.len(),
            items@ == node.types@,
            visits_in_order(t0, visitor.trace(), items@.take(i as int).map_values(|x| VisitEvent::Type(x))),
        decreases items@.len() - i,
    {
        let ghost t = visitor.trace();
        visitor.visit_type(&items[i]);
        proof {
            lemma_visits_step(t0, t, visitor.trace(), items@.take(i as int).map_values(|x| VisitEvent::Type(x)), VisitEvent::Type(items@[i as int]));
            assert(items@.take(i as int + 1).map_values(|x| VisitEvent::Type(x)) =~= items@.take(i as int).map_values(|x| VisitEvent::Type(x)).push(VisitEvent::Type(items@[i as int])));
        }
        i = i + 1;
    }
    assert(items@.take(items@.len() as int) =~= items@);
}

pub fn visit_array_type<T: Visitor>(visitor: &mut T, node: &AstNodeRef<ArrayType>)
    ensures
        visits_in_order(old(visitor).trace(), final(visitor).trace(), seq![VisitEvent::Expr(node.size)] + opt_visit(node.sentinel, |x| VisitEvent::Expr(x)) + seq![VisitEvent::Type(node.ty)]),
{
    let ghost t0 = visitor.trace();
    proof { lemma_visits_none(t0); }
    let ghost mut done: Seq<VisitEvent> = Seq::empty();
    let r0 = &node.size;
    let ghost t = visitor.trace();
    visitor.visit_expr(r0);
    proof { lemma_visits_step(t0, t, visitor.trace(), done, VisitEvent::Expr(*r0)); done = done.push(VisitEvent::Expr(*r0)); }
    if let Some(r1) = &node.sentinel {
        let ghost t = visitor.trace();
        visitor.visit_expr(r1);
        proof { lemma_visits_step(t0, t, visitor.trace(), done, VisitEvent::Expr(*r1)); done = done.push(VisitEvent::Expr(*r1)); }
    }
    let r2 = &node.ty;
    let ghost t = visitor.trace();
    visitor.visit_type(r2);
    proof { lemma_visits_step(t0, t, visitor.trace(), done, VisitEvent::Type(*r2)); done = done.push(VisitEvent::Type(*r2)); }
    assert(done =~= seq![VisitEvent::Expr(node.size)] + opt_visit(node.sentinel, |x| VisitEvent::Expr(x)) + seq![VisitEvent::Type(node.ty)]);
}

pub fn visit_slice_type<T: Visitor>(visitor: &mut T, node: &AstNodeRef<SliceType>)
    ensures
        visits_in_order(old(visitor).trace(), final(visitor).trace(), opt_visit(node.sentinel, |x| VisitEvent::Expr(x)) + seq![VisitEvent::Type(node.ty)]),
{
    let ghost t0 = visitor.trace();
    proof { lemma_visits_none(t0); }
    let ghost mut done: Seq<VisitEvent> = Seq::empty();
    if let Some(r0) = &node.sentinel {
        let ghost t = visitor.trace();
        visitor.visit_expr(r0);
        proof { lemma_visits_step(t0, t, visitor.trace(), done, VisitEvent::Expr(*r0)); done = done.push(VisitEvent::Expr(*r0)); }
    }
    let r1 = &node.ty;
    let ghost t = visitor.trace();
    visitor.visit_type(r1);
    proof { lemma_visits_step(t0, t, visitor.trace(), done, VisitEvent::Type(*r1)); done = done.push(VisitEvent::Type(*r1)); }
    assert(done =~= opt_visit(node.sentinel, |x| VisitEvent::Expr(x)) + seq![VisitEvent::Type(node.ty)]);
}

pub fn visit_pointer_type<T: Visitor>(visitor: &mut T, node: &AstNodeRef<PointerType>)
    ensures
        visits_in_order(old(visitor).trace(), final(visitor).trace(), opt_visit(node.sentinel, |x| VisitEvent::Expr(x)) + seq![VisitEvent::Type(node.ty)]),
{
    let ghost t0 = visitor.trace();
    proof { lemma_visits_none(t0); }
    let ghost mut done: Seq<VisitEvent> = Seq::empty();
    if let Some(r0) = &node.sentinel {
        let ghost t = visitor.trace();
        visitor.visit_expr(r0);
        proof { lemma_visits_step(t0, t, visitor.trace(), done, VisitEvent::Expr(*r0)); done = done.push(VisitEvent::Expr(*r0)); }
    }
    let r1 = &node.ty;
    let ghost t = visitor.trace();
    visitor.visit_type(r1);
    proof { lemma_visits_step(t0, t, visitor.trace(), done, VisitEvent::Type(*r1)); done = done.push(VisitEvent::Type(*r1)); }
    assert(done =~= opt_visit(node.sentinel, |x| VisitEvent::Expr(x)) + seq![VisitEvent::Type(node.ty)]);
}

pub fn visit_reference_type<T: Visitor>(visitor: &mut T, node: &AstNodeRef<ReferenceType>)
    ensures
        visits_in_order(old(visitor).trace(), final(visitor).trace(), seq![VisitEvent::Type(node.ty)]),
{
    let ghost t0 = visitor.trace();
    proof { lemma_visits_none(t0); }
    let ghost mut done: Seq<VisitEvent> = Seq::empty();
    let r0 = &node.ty;
    let ghost t = visitor.trace();
    visitor.visit_type(r0);
    proof { lemma_visits_step(t0, t, visitor.trace(), done, VisitEvent::Type(*r0)); done = done.push(VisitEvent::Type(*r0)); }
    assert(done =~= seq![VisitEvent::Type(node.ty)]);
}

pub fn visit_optional_type<T: Visitor>(visitor: &mut T, node: &AstNodeRef<OptionalType>)
    ensures
        visits_in_order(old(visitor).trace(), final(visitor).trace(), seq![VisitEvent::Type(node.ty)]),
{
    let ghost t0 = visitor.trace();
    proof { lemma_visits_none(t0); }
    let ghost mut done: Seq<VisitEvent> = Seq::empty();
    let r0 = &node.ty;
    let ghost t = visitor.trace();
    visitor.visit_type(r0);
    proof { lemma_visits_step(t0, t, visitor.trace(), done, VisitEvent::Type(*r0)); done = done.push(VisitEvent::Type(*r0)); }
    assert(done =~= seq![VisitEvent::Type(node.ty)]);
}

/// The calls that the walk makes for one item.
pub open spec fn fn_type_param_visits(param: (Vec<NameId>, Type)) -> Seq<VisitEvent> {
    seq![VisitEvent::Type(param.1)]
}

pub fn visit_fn_type<T: Visitor>(visitor: &mut T, node: &AstNodeRef<FnType>)
    ensures
        visits_in_order(old(visitor).trace(), final(visitor).trace(), visits_each(node.params@, |x: (Vec<NameId>, Type)| fn_type_param_visits(x)) + opt_visit(node.return_ty, |x| VisitEvent::Type(x))),
{
    let ghost t0 = visitor.trace();
    proof { lemma_visits_none(t0); }
    let ghost mut done: Seq<VisitEvent> = Seq::empty();
    let params = &node.params;
    let ghost before = done;
    proof { lemma_visits_each_start(params@, |x: (Vec<NameId>, Type)| fn_type_param_visits(x)); }
    assert(before + Seq::<VisitEvent>::empty() =~= before);
    let mut j: usize = 0;
    while j < params.len()
        invariant
            j <= params@.len(),
            visits_in_order(t0, visitor.trace(), before + visits_each(params@.take(j as int), |x: (Vec<NameId>, Type)| fn_type_param_visits(x))),
        decreases params@.len() - j,
    {
        let param = &params[j];
        proof { done = before + visits_each(params@.take(j as int), |x: (Vec<NameId>, Type)| fn_type_param_visits(x)); }
        let child = &param.1;
        let ghost t = visitor.trace();
        visitor.visit_type(child);
        proof { lemma_visits_step(t0, t, visitor.trace(), done, VisitEvent::Type(*child)); done = done.push(VisitEvent::Type(*child)); }
        proof {
            lemma_visits_each_step(params@, |x: (Vec<NameId>, Type)| fn_type_param_visits(x), j as int);
            assert(done =~= before + visits_each(params@.take(j as int + 1), |x: (Vec<NameId>, Type)| fn_type_param_visits(x)));
        }
        j = j + 1;
    }
    proof { lemma_visits_each_all(params@, |x: (Vec<NameId>, Type)| fn_type_param_visits(x)); done = before + visits_each(params@, |x: (Vec<NameId>, Type)| fn_type_param_visits(x)); }
    if let Some(return_ty) = &node.return_ty {
        let ghost t = visitor.trace();
        visitor.visit_type(return_ty);
        proof { lemma_visits_step(t0, t, visitor.trace(), done, VisitEvent::Type(*return_ty)); done = done.push(VisitEvent::Type(*return_ty)); }
    }
    assert(done =~= visits_each(node.params@, |x: (Vec<NameId>, Type)| fn_type_param_visits(x)) + opt_visit(node.return_ty, |x| VisitEvent::Type(x)));
}

pub fn visit_record_type<T: Visitor>(visitor: &mut T, node: &AstNodeRef<RecordType>)
    ensures
        visits_in_order(old(visitor).trace(), final(visitor).trace(), visits_each(node.fields@, |x: RegStructField| reg_struct_field_visits(x))),
{
    let ghost t0 = visitor.trace();
    proof { lemma_visits_none(t0); }
    let ghost mut done: Seq<VisitEvent> = Seq::empty();
    let fields = &node.fields;
    let ghost before = done;
    proof { lemma_visits_each_start(fields@, |x: RegStructField| reg_struct_field_visits(x)); }
    assert(before + Seq::<VisitEvent>::empty() =~= before);
    let mut j: usize = 0;
    while j < fields.len()
        invariant
            j <= fields@.len(),
            visits_in_order(t0, visitor.trace(), before + visits_each(fields@.take(j as int), |x: RegStructField| reg_struct_field_visits(x))),
        decreases fields@.len() - j,
    {
        let field = &fields[j];
        proof { done = before + visits_each(fields@.take(j as int), |x: RegStructField| reg_struct_field_visits(x)); }
        let ghost t = visitor.trace();
        visit_reg_struct_field(visitor, field);
        proof { lemma_visits_concat(t0, t, visitor.trace(), done, reg_struct_field_visits(*field)); done = done + reg_struct_field_visits(*field); }
        proof {
            lemma_visits_each_step(fields@, |x: RegStructField| reg_struct_field_visits(x), j as int);
            assert(done =~= before + visits_each(fields@.take(j as int + 1), |x: RegStructField| reg_struct_field_visits(x)));
        }
        j = j + 1;
    }
    proof { lemma_visits_each_all(fields@, |x: RegStructField| reg_struct_field_visits(x)); done = before + visits_each(fields@, |x: RegStructField| reg_struct_field_visits(x)); }
    assert(done =~= visits_each(node.fields@, |x: RegStructField| reg_struct_field_visits(x)));
}

pub fn visit_enum_record_type<T: Visitor>(visitor: &mut T, node: &AstNodeRef<EnumRecordType>)
    ensures
        visits_in_order(old(visitor).trace(), final(visitor).trace(), visits_each(node.variants@, |x: EnumVariant| enum_variant_visits(x))),
{
    let ghost t0 = visitor.trace();
    proof { lemma_visits_none(t0); }
    let ghost mut done: Seq<VisitEvent> = Seq::empty();
    let variants = &node.variants;
    let ghost before = done;
    proof { lemma_visits_each_start(variants@, |x: EnumVariant| enum_variant_visits(x)); }
    assert(before + Seq::<VisitEvent>::empty() =~= before);
    let mut j: usize = 0;
    while j < variants.len()
        invariant
            j <= variants@.len(),
            visits_in_order(t0, visitor.trace(), before + visits_each(variants@.take(j as int), |x: EnumVariant| enum_variant_visits(x))),
        decreases variants@.len() - j,
    {
        let variant = &variants[j];
        proof { done = before + visits_each(variants@.take(j as int), |x: EnumVariant| enum_variant_visits(x)); }
        let ghost t = visitor.trace();
        visit_enum_variant(visitor, variant);
        proof { lemma_visits_concat(t0, t, visitor.trace(), done, enum_variant_visits(*variant)); done = done + enum_variant_visits(*variant); }
        proof {
            lemma_visits_each_step(variants@, |x: EnumVariant| enum_variant_visits(x), j as int);
            assert(done =~= before + visits_each(variants@.take(j as int + 1), |x: EnumVariant| enum_variant_visits(x)));
        }
        j = j + 1;
    }
    proof { lemma_visits_each_all(variants@, |x: EnumVariant| enum_variant_visits(x)); done = before + visits_each(variants@, |x: EnumVariant| enum_variant_visits(x)); }
    assert(done =~= visits_each(node.variants@, |x: EnumVariant| enum_variant_visits(x)));
}

// =============================================================================================================================

pub fn visit_visibility<T: Visitor>(visitor: &mut T, node: &AstNodeRef<Visibility>)
    ensures
        visits_in_order(old(visitor).trace(), final(visitor).trace(), (match **node { Visibility::Path { path, .. } => seq![VisitEvent::SimplePath(path)], _ => Seq::<VisitEvent>::empty() })),
{
    let ghost t0 = visitor.trace();
    proof { lemma_visits_none(t0); }
    let ghost mut done: Seq<VisitEvent> = Seq::empty();
    match &**node {
        Visibility::Path { path, .. } => {
            let ghost t = visitor.trace();
            visitor.visit_simple_path(path);
            proof { lemma_visits_step(t0, t, visitor.trace(), done, VisitEvent::SimplePath(*path)); done = done.push(VisitEvent::SimplePath(*path)); }
        },
        _ => {},
    }
    assert(done =~= (match **node { Visibility::Path { path, .. } => seq![VisitEvent::SimplePath(path)], _ => Seq::<VisitEvent>::empty() }));
}

/// The calls of [`visit_attribute_meta`]: the path of a meta, then its
/// expression or, for a nested list, the calls of each inner meta in turn.
pub open spec fn attrib_meta_visits(meta: AttribMeta) -> Seq<VisitEvent>
    decreases meta, 1nat,
{
    match meta {
        AttribMeta::Simple { path } => seq![VisitEvent::SimplePath(path)],
        AttribMeta::Expr { expr } => seq![VisitEvent::Expr(expr)],
        AttribMeta::Assign { path, expr, .. } => seq![VisitEvent::SimplePath(path), VisitEvent::Expr(expr)],
        AttribMeta::Meta { path, metas, .. } => {
            proof {
                assert(decreases_to!(meta => meta->metas));
                assert(decreases_to!(meta->metas => meta->metas@));
            }
            seq![VisitEvent::SimplePath(path)] + attrib_metas_visits(metas@)
        },
    }
}

/// The calls of [`visit_attribute_meta`] for each of `metas`, one after the other.
pub open spec fn attrib_metas_visits(metas: Seq<AttribMeta>) -> Seq<VisitEvent>
    decreases metas, 0nat,
{
    if metas.len() == 0 {
        Seq::empty()
    } else {
        proof {
            assert(decreases_to!(metas => metas[metas.len() - 1]));
        }
        attrib_metas_visits(metas.drop_last()) + attrib_meta_visits(metas[metas.len() - 1])
    }
}

/// One more meta: its calls come after those of the metas before it.
pub proof fn lemma_attrib_metas_step(metas: Seq<AttribMeta>, i: int)
    requires
        0 <= i < metas.len(),
    ensures
        attrib_metas_visits(metas.take(i + 1)) == attrib_metas_visits(metas.take(i)) + attrib_meta_visits(metas[i]),
{
    assert(metas.take(i + 1).drop_last() =~= metas.take(i));
    assert(metas.take(i + 1)[i] == metas[i]);
}

pub fn visit_attribute<T: Visitor>(visitor: &mut T, node: &AstNodeRef<Attribute>)
    ensures
        visits_in_order(old(visitor).trace(), final(visitor).trace(),
            seq![VisitEvent::SimplePath(node.path)] + attrib_metas_visits(node.metas@)),
{
    let ghost t0 = visitor.trace();
    proof { lemma_visits_none(t0); }
    let path = &node.path;
    let ghost t = visitor.trace();
    visitor.visit_simple_path(path);
    proof { lemma_visits_step(t0, t, visitor.trace(), Seq::empty(), VisitEvent::SimplePath(*path)); }
    let ghost head = seq![VisitEvent::SimplePath(*path)];
    let metas = &node.metas;
    assert(metas@.take(0) =~= Seq::<AttribMeta>::empty());
    assert(head + attrib_metas_visits(metas@.take(0)) =~= head);
    let mut i: usize = 0;
    while i < metas.len()
        invariant
            i <= metas@.len(),
            visits_in_order(t0, visitor.trace(), head + attrib_metas_visits(metas@.take(i as int))),
        decreases metas@.len() - i,
    {
        let ghost t = visitor.trace();
        visit_attribute_meta(visitor, &metas[i]);
        proof {
            lemma_visits_concat(t0, t, visitor.trace(), head + attrib_metas_visits(metas@.take(i as int)), attrib_meta_visits(metas@[i as int]));
            lemma_attrib_metas_step(metas@, i as int);
            assert(head + attrib_metas_visits(metas@.take(i as int + 1))
                =~= head + attrib_metas_visits(metas@.take(i as int)) + attrib_meta_visits(metas@[i as int]));
        }
        i = i + 1;
    }
    assert(metas@.take(metas@.len() as int) =~= metas@);
}

pub fn visit_attribute_meta<T: Visitor>(visitor: &mut T, meta: &AttribMeta)
    ensures
        visits_in_order(old(visitor).trace(), final(visitor).trace(), attrib_meta_visits(*meta)),
    decreases meta,
{
    let ghost t0 = visitor.trace();
    proof { lemma_visits_none(t0); }
    match meta {
        AttribMeta::Simple { path } => {
            visitor.visit_simple_path(path);
            proof { lemma_visits_step(t0, t0, visitor.trace(), Seq::empty(), VisitEvent::SimplePath(*path)); }
            assert(attrib_meta_visits(*meta) =~= seq![VisitEvent::SimplePath(*path)]);
        },
        AttribMeta::Expr { expr } => {
            visitor.visit_expr(expr);
            proof { lemma_visits_step(t0, t0, visitor.trace(), Seq::empty(), VisitEvent::Expr(*expr)); }
            assert(attrib_meta_visits(*meta) =~= seq![VisitEvent::Expr(*expr)]);
        },
        AttribMeta::Assign { path, expr, .. } => {
            visitor.visit_simple_path(path);
            proof { lemma_visits_step(t0, t0, visitor.trace(), Seq::empty(), VisitEvent::SimplePath(*path)); }
            let ghost t = visitor.trace();
            visitor.visit_expr(expr);
            proof { lemma_visits_step(t0, t, visitor.trace(), seq![VisitEvent::SimplePath(*path)], VisitEvent::Expr(*expr)); }
            assert(attrib_meta_visits(*meta) =~= seq![VisitEvent::SimplePath(*path)].push(VisitEvent::Expr(*expr)));
        },
        AttribMeta::Meta { path, metas, .. } => {
            visitor.visit_simple_path(path);
            proof { lemma_visits_step(t0, t0, visitor.trace(), Seq::empty(), VisitEvent::SimplePath(*path)); }
            let ghost head = seq![VisitEvent::SimplePath(*path)];
            assert(metas@.take(0) =~= Seq::<AttribMeta>::empty());
            assert(head + attrib_metas_visits(metas@.take(0)) =~= head);
            let mut i: usize = 0;
            while i < metas.len()
                invariant
                    i <= metas@.len(),
                    meta is Meta,
                    meta->metas == *metas,
                    visits_in_order(t0, visitor.trace(), head + attrib_metas_visits(metas@.take(i as int))),
                decreases metas@.len() - i,
            {
                proof {
                    assert(decreases_to!(*meta => meta->metas));
                    assert(decreases_to!(meta->metas => meta->metas@));
                    assert(decreases_to!(meta->metas@ => meta->metas@[i as int]));
                }
                let ghost t = visitor.trace();
                visit_attribute_meta(visitor, &metas[i]);
                proof {
                    lemma_visits_concat(t0, t, visitor.trace(), head + attrib_metas_visits(metas@.take(i as int)), attrib_meta_visits(metas@[i as int]));
                    lemma_attrib_metas_step(metas@, i as int);
                    assert(head + attrib_metas_visits(metas@.take(i as int + 1))
                        =~= head + attrib_metas_visits(metas@.take(i as int)) + attrib_meta_visits(metas@[i as int]));
                }
                i = i + 1;
            }
            assert(metas@.take(metas@.len() as int) =~= metas@);
            assert(attrib_meta_visits(*meta) =~= head + attrib_metas_visits(metas@));
        },
    }
}

// =============================================================================================================================

/// Contracts have no children to visit yet.
pub fn visit_contract<T: Visitor>(visitor: &mut T, node: &AstNodeRef<Contract>)
    ensures
        *final(visitor) == *old(visitor),
{
}

// =============================================================================================================================

/// The calls that the walk makes for one item.
pub open spec fn generic_param_visits(param: GenericParam) -> Seq<VisitEvent> {
    (match param { GenericParam::Type(p) => seq![VisitEvent::GenericTypeParam(p)], GenericParam::TypeSpec(p) => seq![VisitEvent::GenericTypeSpec(p)], GenericParam::Const(p) => seq![VisitEvent::GenericConstParam(p)], GenericParam::ConstSpec(p) => seq![VisitEvent::GenericConstSpec(p)], GenericParam::Pack(p) => seq![VisitEvent::GenericParamPack(p)] })
}

pub fn visit_generic_params<T: Visitor>(visitor: &mut T, node: &AstNodeRef<GenericParams>)
    ensures
        visits_in_order(old(visitor).trace(), final(visitor).trace(), visits_each(node.params@, |x: GenericParam| generic_param_visits(x))),
{
    let ghost t0 = visitor.trace();
    proof { lemma_visits_none(t0); }
    let ghost mut done: Seq<VisitEvent> = Seq::empty();
    let params = &node.params;
    let ghost before = done;
    proof { lemma_visits_each_start(params@, |x: GenericParam| generic_param_visits(x)); }
    assert(before + Seq::<VisitEvent>::empty() =~= before);
    let mut j: usize = 0;
    while j < params.len()
        invariant
            j <= params@.len(),
            visits_in_order(t0, visitor.trace(), before + visits_each(params@.take(j as int), |x: GenericParam| generic_param_visits(x))),
        decreases params@.len() - j,
    {
        let param = &params[j];
        proof { done = before + visits_each(params@.take(j as int), |x: GenericParam| generic_param_visits(x)); }
        match param {
            GenericParam::Type(p) => {
                let ghost t = visitor.trace();
                visitor.visit_generic_type_param(p);
                proof { lemma_visits_step(t0, t, visitor.trace(), done, VisitEvent::GenericTypeParam(*p)); done = done.push(VisitEvent::GenericTypeParam(*p)); }
            },
            GenericParam::TypeSpec(p) => {
                let ghost t = visitor.trace();
                visitor.visit_generic_type_spec(p);
                proof { lemma_visits_step(t0, t, visitor.trace(), done, VisitEvent::GenericTypeSpec(*p)); done = done.push(VisitEvent::GenericTypeSpec(*p)); }
            },
            GenericParam::Const(p) => {
                let ghost t = visitor.trace();
                visitor.visit_generic_const_param(p);
                proof { lemma_visits_step(t0, t, visitor.trace(), done, VisitEvent::GenericConstParam(*p)); done = done.push(VisitEvent::GenericConstParam(*p)); }
            },
            GenericParam::ConstSpec(p) => {
                let ghost t = visitor.trace();
                visitor.visit_generic_const_spec(p);
                proof { lemma_visits_step(t0, t, visitor.trace(), done, VisitEvent::GenericConstSpec(*p)); done = done.push(VisitEvent::GenericConstSpec(*p)); }
            },
            GenericParam::Pack(p) => {
                let ghost t = visitor.trace();
                visitor.visit_generic_param_pack(p);
                proof { lemma_visits_step(t0, t, visitor.trace(), done, VisitEvent::GenericParamPack(*p)); done = done.push(VisitEvent::GenericParamPack(*p)); }
            },
        }
        proof {
            lemma_visits_each_step(params@, |x: GenericParam| generic_param_visits(x), j as int);
            assert(done =~= before + visits_each(params@.take(j as int + 1), |x: GenericParam| generic_param_visits(x)));
        }
        j = j + 1;
    }
    proof { lemma_visits_each_all(params@, |x: GenericParam| generic_param_visits(x)); done = before + visits_each(params@, |x: GenericParam| generic_param_visits(x)); }
    assert(done =~= visits_each(node.params@, |x: GenericParam| generic_param_visits(x)));
}

/// The type path of each bound.
/// The calls that the walk makes for one item.
pub open spec fn type_bound_visits(bound: GenericTypeBound) -> Seq<VisitEvent> {
    (match bound { GenericTypeBound::Type(path) => seq![VisitEvent::TypePath(path)] })
}

/// The calls of [`visit_type_bounds`]: the type path of each bound.
pub open spec fn type_bounds_visits(bounds: Seq<GenericTypeBound>) -> Seq<VisitEvent> {
    visits_each(bounds, |x: GenericTypeBound| type_bound_visits(x))
}

fn visit_type_bounds<T: Visitor>(visitor: &mut T, bounds: &Vec<GenericTypeBound>)
    ensures
        visits_in_order(old(visitor).trace(), final(visitor).trace(), type_bounds_visits(bounds@)),
{
    let ghost t0 = visitor.trace();
    proof { lemma_visits_none(t0); }
    let ghost mut done: Seq<VisitEvent> = Seq::empty();
    let ghost before = done;
    proof { lemma_visits_each_start(bounds@, |x: GenericTypeBound| type_bound_visits(x)); }
    assert(before + Seq::<VisitEvent>::empty() =~= before);
    let mut j: usize = 0;
    while j < bounds.len()
        invariant
            j <= bounds@.len(),
            visits_in_order(t0, visitor.trace(), before + visits_each(bounds@.take(j as int), |x: GenericTypeBound| type_bound_visits(x))),
        decreases bounds@.len() - j,
    {
        let bound = &bounds[j];
        proof { done = before + visits_each(bounds@.take(j as int), |x: GenericTypeBound| type_bound_visits(x)); }
        match bound {
            GenericTypeBound::Type(path) => {
                let ghost t = visitor.trace();
                visitor.visit_type_path(path);
                proof { lemma_visits_step(t0, t, visitor.trace(), done, VisitEvent::TypePath(*path)); done = done.push(VisitEvent::TypePath(*path)); }
            },
        }
        proof {
            lemma_visits_each_step(bounds@, |x: GenericTypeBound| type_bound_visits(x), j as int);
            assert(done =~= before + visits_each(bounds@.take(j as int + 1), |x: GenericTypeBound| type_bound_visits(x)));
        }
        j = j + 1;
    }
    proof { lemma_visits_each_all(bounds@, |x: GenericTypeBound| type_bound_visits(x)); done = before + visits_each(bounds@, |x: GenericTypeBound| type_bound_visits(x)); }
    assert(done =~= type_bounds_visits(bounds@));
}

pub fn visit_generic_type_param<T: Visitor>(visitor: &mut T, node: &AstNodeRef<GenericTypeParam>)
    ensures
        visits_in_order(old(visitor).trace(), final(visitor).trace(), type_bounds_visits(node.bounds@) + opt_visit(node.def, |x| VisitEvent::Type(x))),
{
    let ghost t0 = visitor.trace();
    proof { lemma_visits_none(t0); }
    let ghost mut done: Seq<VisitEvent> = Seq::empty();
    let bounds = &node.bounds;
    let ghost t = visitor.trace();
    visit_type_bounds(visitor, bounds);
    proof { lemma_visits_concat(t0, t, visitor.trace(), done, type_bounds_visits(bounds@)); done = done + type_bounds_visits(bounds@); }
    if let Some(def) = &node.def {
        let ghost t = visitor.trace();
        visitor.visit_type(def);
        proof { lemma_visits_step(t0, t, visitor.trace(), done, VisitEvent::Type(*def)); done = done.push(VisitEvent::Type(*def)); }
    }
    assert(done =~= type_bounds_visits(node.bounds@) + opt_visit(node.def, |x| VisitEvent::Type(x)));
}

pub fn visit_generic_type_spec<T: Visitor>(visitor: &mut T, node: &AstNodeRef<GenericTypeSpec>)
    ensures
        visits_in_order(old(visitor).trace(), final(visitor).trace(), seq![VisitEvent::Type(node.ty)]),
{
    let ghost t0 = visitor.trace();
    proof { lemma_visits_none(t0); }
    let ghost mut done: Seq<VisitEvent> = Seq::empty();
    let r0 = &node.ty;
    let ghost t = visitor.trace();
    visitor.visit_type(r0);
    proof { lemma_visits_step(t0, t, visitor.trace(), done, VisitEvent::Type(*r0)); done = done.push(VisitEvent::Type(*r0)); }
    assert(done =~= seq![VisitEvent::Type(node.ty)]);
}

pub fn visit_generic_const_param<T: Visitor>(visitor: &mut T, node: &AstNodeRef<GenericConstParam>)
    ensures
        visits_in_order(old(visitor).trace(), final(visitor).trace(), seq![VisitEvent::Type(node.ty)] + opt_visit(node.def, |x| VisitEvent::Expr(x))),
{
    let ghost t0 = visitor.trace();
    proof { lemma_visits_none(t0); }
    let ghost mut done: Seq<VisitEvent> = Seq::empty();
    let r0 = &node.ty;
    let ghost t = visitor.trace();
    visitor.visit_type(r0);
    proof { lemma_visits_step(t0, t, visitor.trace(), done, VisitEvent::Type(*r0)); done = done.push(VisitEvent::Type(*r0)); }
    if let Some(r1) = &node.def {
        let ghost t = visitor.trace();
        visitor.visit_expr(r1);
        proof { lemma_visits_step(t0, t, visitor.trace(), done, VisitEvent::Expr(*r1)); done = done.push(VisitEvent::Expr(*r1)); }
    }
    assert(done =~= seq![VisitEvent::Type(node.ty)] + opt_visit(node.def, |x| VisitEvent::Expr(x)));
}

pub fn visit_generic_const_spec<T: Visitor>(visitor: &mut T, node: &AstNodeRef<GenericConstSpec>)
    ensures
        visits_in_order(old(visitor).trace(), final(visitor).trace(), seq![VisitEvent::BlockExpr(node.expr)]),
{
    let ghost t0 = visitor.trace();
    proof { lemma_visits_none(t0); }
    let ghost mut done: Seq<VisitEvent> = Seq::empty();
    let r0 = &node.expr;
    let ghost t = visitor.trace();
    visitor.visit_block_expr(r0);
    proof { lemma_visits_step(t0, t, visitor.trace(), done, VisitEvent::BlockExpr(*r0)); done = done.push(VisitEvent::BlockExpr(*r0)); }
    assert(done =~= seq![VisitEvent::BlockExpr(node.expr)]);
}

/// The calls that the walk makes for one item.
pub open spec fn pack_desc_visits(desc: GenericParamPackDesc) -> Seq<VisitEvent> {
    (match desc { GenericParamPackDesc::Type(_) => Seq::<VisitEvent>::empty(), GenericParamPackDesc::TypeBounds(_, bounds) => type_bounds_visits(bounds@), GenericParamPackDesc::Expr(ty) => seq![VisitEvent::Type(ty)] })
}

pub fn visit_generic_param_pack<T: Visitor>(visitor: &mut T, node: &AstNodeRef<GenericParamPack>)
    ensures
        visits_in_order(old(visitor).trace(), final(visitor).trace(), visits_each(node.descs@, |x: GenericParamPackDesc| pack_desc_visits(x))),
{
    let ghost t0 = visitor.trace();
    proof { lemma_visits_none(t0); }
    let ghost mut done: Seq<VisitEvent> = Seq::empty();
    let descs = &node.descs;
    let ghost before = done;
    proof { lemma_visits_each_start(descs@, |x: GenericParamPackDesc| pack_desc_visits(x)); }
    assert(before + Seq::<VisitEvent>::empty() =~= before);
    let mut j: usize = 0;
    while j < descs.len()
        invariant
            j <= descs@.len(),
            visits_in_order(t0, visitor.trace(), before + visits_each(descs@.take(j as int), |x: GenericParamPackDesc| pack_desc_visits(x))),
        decreases descs@.len() - j,
    {
        let desc = &descs[j];
        proof { done = before + visits_each(descs@.take(j as int), |x: GenericParamPackDesc| pack_desc_visits(x)); }
        match desc {
            GenericParamPackDesc::Type(_) => {},
            GenericParamPackDesc::TypeBounds(_, bounds) => {
                let ghost t = visitor.trace();
                visit_type_bounds(visitor, bounds);
                proof { lemma_visits_concat(t0, t, visitor.trace(), done, type_bounds_visits(bounds@)); done = done + type_bounds_visits(bounds@); }
            },
            GenericParamPackDesc::Expr(ty) => {
                let ghost t = visitor.trace();
                visitor.visit_type(ty);
                proof { lemma_visits_step(t0, t, visitor.trace(), done, VisitEvent::Type(*ty)); done = done.push(VisitEvent::Type(*ty)); }
            },
        }
        proof {
            lemma_visits_each_step(descs@, |x: GenericParamPackDesc| pack_desc_visits(x), j as int);
            assert(done =~= before + visits_each(descs@.take(j as int + 1), |x: GenericParamPackDesc| pack_desc_visits(x)));
        }
        j = j + 1;
    }
    proof { lemma_visits_each_all(descs@, |x: GenericParamPackDesc| pack_desc_visits(x)); done = before + visits_each(descs@, |x: GenericParamPackDesc| pack_desc_visits(x)); }
    assert(done =~= visits_each(node.descs@, |x: GenericParamPackDesc| pack_desc_visits(x)));
}

/// The calls that the walk makes for one item.
pub open spec fn generic_arg_visits(arg: GenericArg) -> Seq<VisitEvent> {
    (match arg { GenericArg::Type(ty) => seq![VisitEvent::Type(ty)], GenericArg::Value(expr) => seq![VisitEvent::BlockExpr(expr)], GenericArg::TypeOrValue(_) => Seq::<VisitEvent>::empty() })
}

pub fn visit_generic_args<T: Visitor>(visitor: &mut T, node: &AstNodeRef<GenericArgs>)
    ensures
        visits_in_order(old(visitor).trace(), final(visitor).trace(), visits_each(node.args@, |x: GenericArg| generic_arg_visits(x))),
{
    let ghost t0 = visitor.trace();
    proof { lemma_visits_none(t0); }
    let ghost mut done: Seq<VisitEvent> = Seq::empty();
    let args = &node.args;
    let ghost before = done;
    proof { lemma_visits_each_start(args@, |x: GenericArg| generic_arg_visits(x)); }
    assert(before + Seq::<VisitEvent>::empty() =~= before);
    let mut j: usize = 0;
    while j < args.len()
        invariant
            j <= args@.len(),
            visits_in_order(t0, visitor.trace(), before + visits_each(args@.take(j as int), |x: GenericArg| generic_arg_visits(x))),
        decreases args@.len() - j,
    {
        let arg = &args[j];
        proof { done = before + visits_each(args@.take(j as int), |x: GenericArg| generic_arg_visits(x)); }
        match arg {
            GenericArg::Type(ty) => {
                let ghost t = visitor.trace();
                visitor.visit_type(ty);
                proof { lemma_visits_step(t0, t, visitor.trace(), done, VisitEvent::Type(*ty)); done = done.push(VisitEvent::Type(*ty)); }
            },
            GenericArg::Value(expr) => {
                let ghost t = visitor.trace();
                visitor.visit_block_expr(expr);
                proof { lemma_visits_step(t0, t, visitor.trace(), done, VisitEvent::BlockExpr(*expr)); done = done.push(VisitEvent::BlockExpr(*expr)); }
            },
            GenericArg::TypeOrValue(_) => {},
        }
        proof {
            lemma_visits_each_step(args@, |x: GenericArg| generic_arg_visits(x), j as int);
            assert(done =~= before + visits_each(args@.take(j as int + 1), |x: GenericArg| generic_arg_visits(x)));
        }
        j = j + 1;
    }
    proof { lemma_visits_each_all(args@, |x: GenericArg| generic_arg_visits(x)); done = before + visits_each(args@, |x: GenericArg| generic_arg_visits(x)); }
    assert(done =~= visits_each(node.args@, |x: GenericArg| generic_arg_visits(x)));
}

/// The calls that the walk makes for one item.
pub open spec fn where_bound_visits(bound: WhereBound) -> Seq<VisitEvent> {
    (match bound { WhereBound::Type { ty, bounds, .. } => seq![VisitEvent::Type(ty)] + type_bounds_visits(bounds@), WhereBound::ExplicitType { ty, bounds, .. } => seq![VisitEvent::Type(ty)] + bounds@.map_values(|x| VisitEvent::Type(x)), WhereBound::Value { bound } => seq![VisitEvent::BlockExpr(bound)] })
}

pub fn visit_where_clause<T: Visitor>(visitor: &mut T, node: &AstNodeRef<WhereClause>)
    ensures
        visits_in_order(old(visitor).trace(), final(visitor).trace(), visits_each(node.bounds@, |x: WhereBound| where_bound_visits(x))),
{
    let ghost t0 = visitor.trace();
    proof { lemma_visits_none(t0); }
    let ghost mut done: Seq<VisitEvent> = Seq::empty();
    let bounds = &node.bounds;
    let ghost before = done;
    proof { lemma_visits_each_start(bounds@, |x: WhereBound| where_bound_visits(x)); }
    assert(before + Seq::<VisitEvent>::empty() =~= before);
    let mut j: usize = 0;
    while j < bounds.len()
        invariant
            j <= bounds@.len(),
            visits_in_order(t0, visitor.trace(), before + visits_each(bounds@.take(j as int), |x: WhereBound| where_bound_visits(x))),
        decreases bounds@.len() - j,
    {
        let bound = &bounds[j];
        proof { done = before + visits_each(bounds@.take(j as int), |x: WhereBound| where_bound_visits(x)); }
        match bound {
            WhereBound::Type { ty, bounds, .. } => {
                let ghost t = visitor.trace();
                visitor.visit_type(ty);
                proof { lemma_visits_step(t0, t, visitor.trace(), done, VisitEvent::Type(*ty)); done = done.push(VisitEvent::Type(*ty)); }
                let ghost t = visitor.trace();
                visit_type_bounds(visitor, bounds);
                proof { lemma_visits_concat(t0, t, visitor.trace(), done, type_bounds_visits(bounds@)); done = done + type_bounds_visits(bounds@); }
            },
            WhereBound::ExplicitType { ty, bounds, .. } => {
                let ghost t = visitor.trace();
                visitor.visit_type(ty);
                proof { lemma_visits_step(t0, t, visitor.trace(), done, VisitEvent::Type(*ty)); done = done.push(VisitEvent::Type(*ty)); }
                let ghost base = done;
                assert(base + bounds@.take(0).map_values(|x| VisitEvent::Type(x)) =~= base);
                let mut i: usize = 0;
                while i < bounds.len()
                    invariant
                        i <= bounds@.len(),
                        visits_in_order(t0, visitor.trace(), base + bounds@.take(i as int).map_values(|x| VisitEvent::Type(x))),
                    decreases bounds@.len() - i,
                {
                    let ghost t = visitor.trace();
                    visitor.visit_type(&bounds[i]);
                    proof {
                        lemma_visits_step(t0, t, visitor.trace(), base + bounds@.take(i as int).map_values(|x| VisitEvent::Type(x)), VisitEvent::Type(bounds@[i as int]));
                        assert(base + bounds@.take(i as int + 1).map_values(|x| VisitEvent::Type(x)) =~= (base + bounds@.take(i as int).map_values(|x| VisitEvent::Type(x))).push(VisitEvent::Type(bounds@[i as int])));
                    }
                    i = i + 1;
                }
                proof { assert(bounds@.take(bounds@.len() as int) =~= bounds@); done = base + bounds@.map_values(|x| VisitEvent::Type(x)); }
            },
            WhereBound::Value { bound } => {
                let ghost t = visitor.trace();
                visitor.visit_block_expr(bound);
                proof { lemma_visits_step(t0, t, visitor.trace(), done, VisitEvent::BlockExpr(*bound)); done = done.push(VisitEvent::BlockExpr(*bound)); }
            },
        }
        proof {
            lemma_visits_each_step(bounds@, |x: WhereBound| where_bound_visits(x), j as int);
            assert(done =~= before + visits_each(bounds@.take(j as int + 1), |x: WhereBound| where_bound_visits(x)));
        }
        j = j + 1;
    }
    proof { lemma_visits_each_all(bounds@, |x: WhereBound| where_bound_visits(x)); done = before + visits_each(bounds@, |x: WhereBound| where_bound_visits(x)); }
    assert(done =~= visits_each(node.bounds@, |x: WhereBound| where_bound_visits(x)));
}

/// Trait bounds are trait paths, which have no visitor method: nothing is visited.
pub fn visit_trait_bounds<T: Visitor>(visitor: &mut T, node: &AstNodeRef<TraitBounds>)
    ensures
        *final(visitor) == *old(visitor),
{
}

} // verus!
