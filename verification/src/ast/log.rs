//! How each kind of AST node writes itself to an [`AstLogger`].

use vstd::prelude::*;
use crate::common::{LiteralTable, NameId, NameTable, OpType, SpanId};
use crate::lexer::PuncutationTable;
use crate::parser::is_prefix;
use crate::type_system;
use super::logger::{group_logger_appends, lemma_appends_text, LogEnv, LogState, st_begin_indented, st_begin_last, st_begin_node, st_enter, st_line, st_log, st_name_group, st_pop, st_prefixed, st_set_last, st_set_last_if, bool_text, dotted_names_text, table_literal_text, table_name_text};
use super::{
    AlternativePattern, ArrayExpr, ArrayType, AssocItem, Ast, AstLogger, AstNode, AstNodeLog,
    AstNodeRef, AttribMeta, NodeId, Attribute, Bitfield, BitfieldField, Block, BlockExpr,
    BlockExprKind, BreakExpr, ClosureExpr, CommaExpr, Const, ContinueExpr, Contract, Defer,
    DistinctType, DoWhileExpr, EmptyStmt, Enum, EnumMemberPattern, EnumRecordType, EnumVariant,
    ErrDefer, Expr, ExprPath, ExprStmt, ExternBlock, ExternItem, FallthroughExpr,
    FieldAccessExpr, FlagEnumVariant, FnArg, FnCallExpr, FnParam, FnParamName, FnReceiver,
    FnReturn, FnType, ForExpr, Function, GenericArgs, GenericParams, GenericTypeBound,
    GroupedPattern, IdenName, Identifier, IdentifierPattern, IfExpr, Impl, IndexExpr,
    InfixExpr, InplaceExpr, Item, LetBindingExpr, LiteralExpr, LiteralOp, LiteralPattern,
    LiteralValue, LoopExpr, MatchBranch, MatchExpr, Method, MethodCallExpr, ModuleItem,
    NeverType, OpElem, OpTrait, OpUse, OpaqueType, OptionalType, ParenExpr, ParenthesizedType,
    PathExpr, PathPattern, PathStart, PathType, Pattern, PointerType, PostfixExpr, Precedence,
    PrecedenceAssociativityKind, PrecedenceUse, PrefixExpr, PrimitiveType, Property,
    PropertyBody, RangePattern, RecordType, ReferencePattern, ReferenceType, RegStructField,
    RestPattern, ReturnExpr, SimplePath, SimplePathStart, SimplePathStartKind, SlicePattern,
    SliceType, Static, Stmt, StringSliceType, Struct, StructArg, StructExpr, StructPattern,
    StructPatternField, ThrowExpr, Trait, TraitBounds, TraitConst, TraitFunction, TraitItem,
    TraitMethod, TraitPath, TraitPathFnEnd, TraitProperty, TraitTypeAlias, TupleExpr,
    TupleIndexExpr, TuplePattern, TupleStructField, TupleType, Type, TypeAlias, TypeCastExpr,
    TypeCastKind, TypeCheckExpr, TypeCheckPattern, TypePath, UnderscoreExpr, Union, UnionField,
    UnitExpr, UnitType, UseItem, UsePath, VarDecl, Visibility, WhenExpr, WhereClause,
    WhileExpr, WildcardPattern,
};

verus! {

broadcast use group_logger_appends;

/// The state after the visibility, where there is one.
pub open spec fn spec_log_vis(env: LogEnv, st: LogState, vis: Option<AstNodeRef<Visibility>>) -> LogState {
    match vis {
        Some(vis) => st_enter(vis.spec_log(env, st_enter(st, vis.spec_node_id())), st.node),
        None => st,
    }
}

/// The state after the generic parameters, where there are any.
pub open spec fn spec_log_generics(env: LogEnv, st: LogState, generics: Option<AstNodeRef<GenericParams>>) -> LogState {
    match generics {
        Some(generics) => st_enter(generics.spec_log(env, st_enter(st, generics.spec_node_id())), st.node),
        None => st,
    }
}

/// The state after the where clause, where there is one.
pub open spec fn spec_log_where(env: LogEnv, st: LogState, where_clause: Option<AstNodeRef<WhereClause>>) -> LogState {
    match where_clause {
        Some(where_clause) => st_enter(where_clause.spec_log(env, st_enter(st, where_clause.spec_node_id())), st.node),
        None => st,
    }
}

/// The visibility, where there is one.
fn log_vis(logger: &mut AstLogger, vis: &Option<AstNodeRef<Visibility>>)
    ensures
        final(logger).state() == spec_log_vis(old(logger).env(), old(logger).state(), *vis),
        old(logger).appends(final(logger)),
        final(logger).levels().len() == old(logger).levels().len(),
        vis is None ==> final(logger).text() == old(logger).text() && final(logger).levels() == old(logger).levels(),
{
    if let Some(vis) = vis {
        let prev = logger.enter_node(vis.node_id());
        vis.log(logger);
        logger.enter_node(prev);
    }
}

/// The generic parameters, where there are any.
fn log_generics(logger: &mut AstLogger, generics: &Option<AstNodeRef<GenericParams>>)
    ensures
        final(logger).state() == spec_log_generics(old(logger).env(), old(logger).state(), *generics),
        old(logger).appends(final(logger)),
        final(logger).levels().len() == old(logger).levels().len(),
        generics is None ==> final(logger).text() == old(logger).text() && final(logger).levels() == old(logger).levels(),
{
    if let Some(generics) = generics {
        let prev = logger.enter_node(generics.node_id());
        generics.log(logger);
        logger.enter_node(prev);
    }
}

/// The where clause, where there is one.
fn log_where(logger: &mut AstLogger, where_clause: &Option<AstNodeRef<WhereClause>>)
    ensures
        final(logger).state() == spec_log_where(old(logger).env(), old(logger).state(), *where_clause),
        old(logger).appends(final(logger)),
        final(logger).levels().len() == old(logger).levels().len(),
        where_clause is None ==> final(logger).text() == old(logger).text() && final(logger).levels() == old(logger).levels(),
{
    if let Some(where_clause) = where_clause {
        let prev = logger.enter_node(where_clause.node_id());
        where_clause.log(logger);
        logger.enter_node(prev);
    }
}

/// The text of an operator type.
pub open spec fn op_type_text(op_type: OpType) -> Seq<char> {
    match op_type {
        OpType::Prefix => "Prefix"@,
        OpType::Postfix => "Postfix"@,
        OpType::Infix => "Infix"@,
        OpType::Assign => "Assign"@,
    }
}

/// The text of an operator type.
fn op_type_str(op_type: OpType) -> (r: &'static str)
    ensures
        r@ == op_type_text(op_type),
{
    proof {
        reveal_strlit("Prefix");
        reveal_strlit("Postfix");
        reveal_strlit("Infix");
        reveal_strlit("Assign");
    }
    match op_type {
        OpType::Prefix => "Prefix",
        OpType::Postfix => "Postfix",
        OpType::Infix => "Infix",
        OpType::Assign => "Assign",
    }
}

impl AstNodeLog for Identifier {
    fn log(&self, logger: &mut AstLogger)
        ensures
            is_prefix(old(logger).text() + old(logger).prefix() + "Identifier"@ + "\n"@, final(logger).text()),
        decreases self,
    {
        logger.begin_indented("Identifier");
        match &self.name {
            IdenName::Name(name, _) => {
                logger.name_line("Name: ", *name);
            },
            IdenName::Disambig { trait_path, name, .. } => {
                logger.begin_last("Disambiguation");
                logger.enter_node(trait_path.node_id());
                trait_path.log(logger);
                logger.pop_indent();
                logger.name_line("Name: ", *name);
            },
        }
        if let Some(gen_args) = &self.gen_args {
            let prev = logger.enter_node(gen_args.node_id());
            gen_args.log(logger);
            logger.enter_node(prev);
        }
        logger.pop_indent();
    }

    open spec fn spec_log(&self, env: LogEnv, st: LogState) -> LogState
        decreases self, 0int,
    {
        let s1 = st_begin_indented(env, st, "Identifier"@);
        let s2 = match self.name {
            IdenName::Name(name, _) => st_line(env, s1, "Name: "@, table_name_text(env.names, name)),
            IdenName::Disambig { trait_path, name, .. } => {
                let s5 = st_begin_last(env, s1, "Disambiguation"@);
                let s6 = st_enter(s5, trait_path.spec_node_id());
                let s7 = trait_path.spec_log(env, s6);
                let s8 = st_pop(s7);
                st_line(env, s8, "Name: "@, table_name_text(env.names, name))
            },
        };
        let s11 = s2;
        let s15 = match self.gen_args {
            Some(gen_args) => {
                let prev = s11.node;
                let s12 = st_enter(s11, gen_args.spec_node_id());
                let s13 = gen_args.spec_log(env, s12);
                let s14 = st_enter(s13, prev);
                s14
            },
            None => s11,
        };
        let s16 = st_pop(s15);
        s16
    }
}

/// The line that says how a simple path starts, at `prefix`; nothing for a plain start.
pub open spec fn path_start_text(kind: SimplePathStartKind, prefix: Seq<char>) -> Seq<char> {
    match kind {
        SimplePathStartKind::Plain => Seq::<char>::empty(),
        SimplePathStartKind::Inferred => prefix + "Path Start: Inferred"@ + "\n"@,
        SimplePathStartKind::SelfPath => prefix + "Path Start: self"@ + "\n"@,
        SimplePathStartKind::Super => prefix + "Path Start: super"@ + "\n"@,
    }
}

impl AstNodeLog for SimplePathStart {
    fn log(&self, logger: &mut AstLogger)
        ensures
            final(logger).text() == old(logger).text() + path_start_text(self.kind, old(logger).prefix()),
            final(logger).levels() == old(logger).levels(),
    {
        match self.kind {
            SimplePathStartKind::Plain => {},
            SimplePathStartKind::Inferred => logger.prefixed_logln("Path Start: Inferred"),
            SimplePathStartKind::SelfPath => logger.prefixed_logln("Path Start: self"),
            SimplePathStartKind::Super => logger.prefixed_logln("Path Start: super"),
        }
    }

    open spec fn spec_log(&self, env: LogEnv, st: LogState) -> LogState
    {
        let s1 = match self.kind {
            SimplePathStartKind::Plain => {
                st
            },
            SimplePathStartKind::Inferred => {
                let s2 = st_log(st_prefixed(env, st, "Path Start: Inferred"@), "\n"@);
                s2
            },
            SimplePathStartKind::SelfPath => {
                let s3 = st_log(st_prefixed(env, st, "Path Start: self"@), "\n"@);
                s3
            },
            SimplePathStartKind::Super => {
                let s4 = st_log(st_prefixed(env, st, "Path Start: super"@), "\n"@);
                s4
            },
        };
        s1
    }
}

impl AstNodeLog for SimplePath {
    fn log(&self, logger: &mut AstLogger)
        ensures
            final(logger).text() == old(logger).text() + old(logger).header("Simple Path"@)
                + match self.start {
                    Some(start) => path_start_text(start.kind, old(logger).prefix_for(old(logger).levels().push(false))),
                    None => Seq::<char>::empty(),
                }
                + (if self.names@.len() > 0 {
                    old(logger).prefix_for(old(logger).levels().push(false))
                        + old(logger).dotted_text(self.names@.map_values(|p: (NameId, SpanId)| p.0))
                } else {
                    Seq::<char>::empty()
                }) + "\n"@,
            final(logger).levels() == old(logger).levels(),
    {
        assert(""@ =~= Seq::<char>::empty()) by { reveal_strlit(""); }
        logger.begin_ast_node("Simple Path");
        let ghost opened = logger.text();
        if let Some(start) = &self.start {
            start.log(logger);
        }
        let ghost started = logger.text();
        assert(started =~= opened + match self.start {
            Some(start) => path_start_text(start.kind, old(logger).prefix_for(old(logger).levels().push(false))),
            None => Seq::<char>::empty(),
        });
        if self.names.len() > 0 {
            logger.prefixed_log("");
            logger.dotted_spanned_names(&self.names);
        }
        let ghost named = logger.text();
        assert(named =~= started + (if self.names@.len() > 0 {
            old(logger).prefix_for(old(logger).levels().push(false))
                + old(logger).dotted_text(self.names@.map_values(|p: (NameId, SpanId)| p.0))
        } else {
            Seq::<char>::empty()
        }));
        logger.logln("");
        logger.pop_indent();
        assert(logger.levels() =~= old(logger).levels());
    }

    open spec fn spec_log(&self, env: LogEnv, st: LogState) -> LogState
    {
        let s1 = st_begin_node(env, st, "Simple Path"@);
        let s3 = match self.start {
            Some(start) => {
                let s2 = start.spec_log(env, s1);
                s2
            },
            None => s1,
        };
        let s6 = if self.names.len() > 0 {
            let s4 = st_prefixed(env, s3, ""@);
            let s5 = st_log(s4, dotted_names_text(env.names, self.names@.map_values(|p: (NameId, SpanId)| p.0)));
            s5
        } else { s3 };
        let s7 = st_log(st_log(s6, ""@), "\n"@);
        let s8 = st_pop(s7);
        s8
    }
}

impl AstNodeLog for PathStart {
    fn log(&self, logger: &mut AstLogger)
        decreases self,
    {
        match self {
            PathStart::Plain => {},
            PathStart::SelfTy(_) => logger.prefixed_logln("Path Start: Self"),
            PathStart::Inferred(_) => logger.prefixed_logln("Path Start: Inferred"),
            PathStart::Typed(ty) => {
                logger.begin_last("Path Start: Type");
                ty.log(logger);
                logger.pop_indent();
            },
        }
    }

    open spec fn spec_log(&self, env: LogEnv, st: LogState) -> LogState
        decreases self, 0int,
    {
        let s1 = match *self {
            PathStart::Plain => {
                st
            },
            PathStart::SelfTy(_) => {
                let s2 = st_log(st_prefixed(env, st, "Path Start: Self"@), "\n"@);
                s2
            },
            PathStart::Inferred(_) => {
                let s3 = st_log(st_prefixed(env, st, "Path Start: Inferred"@), "\n"@);
                s3
            },
            PathStart::Typed(ty) => {
                let s4 = st_begin_last(env, st, "Path Start: Type"@);
                let s5 = ty.spec_log(env, s4);
                let s6 = st_pop(s5);
                s6
            },
        };
        s1
    }
}

impl AstNodeLog for ExprPath {
    fn log(&self, logger: &mut AstLogger)
        ensures
            is_prefix(old(logger).text() + old(logger).header("Expr Path"@), final(logger).text()),
        decreases self,
    {
        logger.begin_ast_node("Expr Path");
        self.start.log(logger);
        logger.set_last_at_indent();
        log_identifiers_group(logger, "Identifiers", &self.idens);
        logger.pop_indent();
    }

    open spec fn spec_log(&self, env: LogEnv, st: LogState) -> LogState
        decreases self, 0int,
    {
        let s1 = st_begin_node(env, st, "Expr Path"@);
        let s2 = self.start.spec_log(env, s1);
        let s3 = st_set_last(s2);
        let s4 = spec_log_identifiers_group(env, s3, "Identifiers"@, self.idens@);
        let s5 = st_pop(s4);
        s5
    }
}

impl AstNodeLog for TypePath {
    fn log(&self, logger: &mut AstLogger)
        ensures
            is_prefix(old(logger).text() + old(logger).header("Type Path"@), final(logger).text()),
        decreases self,
    {
        logger.begin_ast_node("Type Path");
        self.start.log(logger);
        logger.set_last_at_indent();
        log_identifiers_group(logger, "Identifiers", &self.idens);
        logger.pop_indent();
    }

    open spec fn spec_log(&self, env: LogEnv, st: LogState) -> LogState
        decreases self, 0int,
    {
        let s1 = st_begin_node(env, st, "Type Path"@);
        let s2 = self.start.spec_log(env, s1);
        let s3 = st_set_last(s2);
        let s4 = spec_log_identifiers_group(env, s3, "Identifiers"@, self.idens@);
        let s5 = st_pop(s4);
        s5
    }
}

impl AstNodeLog for TraitPathFnEnd {
    fn log(&self, logger: &mut AstLogger)
        ensures
            is_prefix(old(logger).text() + old(logger).prefix() + "Function End"@ + "\n"@, final(logger).text()),
        decreases self,
    {
        logger.begin_indented("Function End");
        logger.name_line("Name: ", self.name);
        logger.set_last_at_indent_if(self.return_ty.is_none());
        log_fn_type_params_group(logger, "Params", &self.params);
        logger.set_last_at_indent();
        if let Some(ret) = &self.return_ty {
            logger.begin_last("Return Type");
            ret.log(logger);
            logger.pop_indent();
        }
        logger.pop_indent();
    }

    open spec fn spec_log(&self, env: LogEnv, st: LogState) -> LogState
        decreases self, 0int,
    {
        let s1 = st_begin_indented(env, st, "Function End"@);
        let s2 = st_line(env, s1, "Name: "@, table_name_text(env.names, self.name));
        let s3 = st_set_last_if(s2, (self.return_ty is None));
        let s4 = spec_log_fn_type_params_group(env, s3, "Params"@, self.params@);
        let s5 = st_set_last(s4);
        let s9 = match self.return_ty {
            Some(ret) => {
                let s6 = st_begin_last(env, s5, "Return Type"@);
                let s7 = ret.spec_log(env, s6);
                let s8 = st_pop(s7);
                s8
            },
            None => s5,
        };
        let s10 = st_pop(s9);
        s10
    }
}

impl AstNodeLog for TraitPath {
    fn log(&self, logger: &mut AstLogger)
        ensures
            is_prefix(old(logger).text() + old(logger).header("Trait Path"@), final(logger).text()),
        decreases self,
    {
        logger.begin_ast_node("Trait Path");
        self.start.log(logger);
        logger.set_last_at_indent_if(self.fn_end.is_none());
        log_identifiers_group(logger, "Identifiers", &self.idens);
        logger.set_last_at_indent();
        if let Some(fn_end) = &self.fn_end {
            fn_end.log(logger);
        }
        logger.pop_indent();
    }

    open spec fn spec_log(&self, env: LogEnv, st: LogState) -> LogState
        decreases self, 0int,
    {
        let s1 = st_begin_node(env, st, "Trait Path"@);
        let s2 = self.start.spec_log(env, s1);
        let s3 = st_set_last_if(s2, (self.fn_end is None));
        let s4 = spec_log_identifiers_group(env, s3, "Identifiers"@, self.idens@);
        let s5 = st_set_last(s4);
        let s7 = match self.fn_end {
            Some(fn_end) => {
                let s6 = fn_end.spec_log(env, s5);
                s6
            },
            None => s5,
        };
        let s8 = st_pop(s7);
        s8
    }
}

impl AstNodeLog for Block {
    fn log(&self, logger: &mut AstLogger)
        ensures
            is_prefix(old(logger).text() + old(logger).header("Block"@), final(logger).text()),
        decreases self,
    {
        logger.begin_ast_node("Block");
        logger.set_last_at_indent_if(self.final_expr.is_none());
        log_stmts_group(logger, "Statements", &self.stmts);
        logger.set_last_at_indent();
        if let Some(final_expr) = &self.final_expr {
            logger.begin_last("Final expression");
            logger.enter_node(final_expr.node_id());
            final_expr.log(logger);
            logger.pop_indent();
        }
        logger.pop_indent();
    }

    open spec fn spec_log(&self, env: LogEnv, st: LogState) -> LogState
        decreases self, 0int,
    {
        let s1 = st_begin_node(env, st, "Block"@);
        let s2 = st_set_last_if(s1, (self.final_expr is None));
        let s3 = spec_log_stmts_group(env, s2, "Statements"@, self.stmts@);
        let s4 = st_set_last(s3);
        let s9 = match self.final_expr {
            Some(final_expr) => {
                let s5 = st_begin_last(env, s4, "Final expression"@);
                let s6 = st_enter(s5, final_expr.spec_node_id());
                let s7 = final_expr.spec_log(env, s6);
                let s8 = st_pop(s7);
                s8
            },
            None => s4,
        };
        let s10 = st_pop(s9);
        s10
    }
}

impl AstNodeLog for ModuleItem {
    fn log(&self, logger: &mut AstLogger)
        decreases self,
    {
        logger.begin_indented("Module");
        log_attrs_group(logger, "Attributes", &self.attrs);
        log_vis(logger, &self.vis);
        logger.name_line("Module: ", self.name);
        logger.set_last_at_indent();
        if let Some(block) = &self.block {
            logger.begin_last("Body");
            logger.enter_node(block.node_id());
            block.log(logger);
            logger.pop_indent();
        }
        logger.pop_indent();
    }

    open spec fn spec_log(&self, env: LogEnv, st: LogState) -> LogState
        decreases self, 0int,
    {
        let s1 = st_begin_indented(env, st, "Module"@);
        let s2 = spec_log_attrs_group(env, s1, "Attributes"@, self.attrs@);
        let s3 = spec_log_vis(env, s2, self.vis);
        let s4 = st_line(env, s3, "Module: "@, table_name_text(env.names, self.name));
        let s5 = st_set_last(s4);
        let s10 = match self.block {
            Some(block) => {
                let s6 = st_begin_last(env, s5, "Body"@);
                let s7 = st_enter(s6, block.spec_node_id());
                let s8 = block.spec_log(env, s7);
                let s9 = st_pop(s8);
                s9
            },
            None => s5,
        };
        let s11 = st_pop(s10);
        s11
    }
}

impl AstNodeLog for UseItem {
    fn log(&self, logger: &mut AstLogger)
        ensures
            is_prefix(old(logger).text() + old(logger).header("Use Declaration"@), final(logger).text()),
        decreases self,
    {
        logger.begin_ast_node("Use Declaration");
        log_attrs_group(logger, "Attributes", &self.attrs);
        log_vis(logger, &self.vis);
        logger.opt_name_line("Group: ", self.group);
        logger.opt_name_line("Package: ", self.package);
        logger.opt_name_line("Library: ", self.library);
        logger.set_last_at_indent();
        let prev = logger.enter_node(self.path.node_id());
        self.path.log(logger);
        logger.enter_node(prev);
        logger.pop_indent();
    }

    open spec fn spec_log(&self, env: LogEnv, st: LogState) -> LogState
        decreases self, 0int,
    {
        let s1 = st_begin_node(env, st, "Use Declaration"@);
        let s2 = spec_log_attrs_group(env, s1, "Attributes"@, self.attrs@);
        let s3 = spec_log_vis(env, s2, self.vis);
        let s4 = match self.group { Some(id) => st_line(env, s3, "Group: "@, table_name_text(env.names, id)), None => s3 };
        let s5 = match self.package { Some(id) => st_line(env, s4, "Package: "@, table_name_text(env.names, id)), None => s4 };
        let s6 = match self.library { Some(id) => st_line(env, s5, "Library: "@, table_name_text(env.names, id)), None => s5 };
        let s7 = st_set_last(s6);
        let prev = s7.node;
        let s8 = st_enter(s7, self.path.spec_node_id());
        let s9 = self.path.spec_log(env, s8);
        let s10 = st_enter(s9, prev);
        let s11 = st_pop(s10);
        s11
    }
}

impl AstNodeLog for UsePath {
    fn log(&self, logger: &mut AstLogger)
        ensures
            match self {
                UsePath::SelfPath { alias, .. } => final(logger).text() == old(logger).text()
                    + old(logger).header("Use Path"@) + old(logger).prefix_for(old(logger).levels().push(true))
                    + "SelfPath"@ + match alias {
                        Some(alias) => ", alias: "@ + old(logger).name_text(*alias) + "\n"@,
                        None => Seq::<char>::empty(),
                    } + "\n"@,
                UsePath::Alias { segments, alias, .. } => final(logger).text() == old(logger).text()
                    + old(logger).header("Use Path"@) + old(logger).prefix_for(old(logger).levels().push(true))
                    + "Path: "@ + old(logger).dotted_text(segments@) + match alias {
                        Some(alias) => ", alias: "@ + old(logger).name_text(*alias),
                        None => Seq::<char>::empty(),
                    } + "\n"@,
                UsePath::Wildcard { segments, .. } => final(logger).text() == old(logger).text()
                    + old(logger).header("Use Path"@) + old(logger).prefix_for(old(logger).levels().push(true))
                    + "Path: "@ + old(logger).dotted_text(segments@) + ".*"@ + "\n"@,
                UsePath::SubPaths { segments, .. } => is_prefix(old(logger).text()
                    + old(logger).header("Use Path"@) + old(logger).prefix_for(old(logger).levels().push(false))
                    + "Path: "@ + old(logger).dotted_text(segments@) + "\n"@, final(logger).text()),
            },
        decreases self,
    {
        assert(""@ =~= Seq::<char>::empty()) by { reveal_strlit(""); }
        logger.begin_ast_node("Use Path");
        match self {
            UsePath::SelfPath { alias, .. } => {
                logger.set_last_at_indent();
                assert(logger.levels() =~= old(logger).levels().push(true));
                logger.prefixed_log("SelfPath");
                let ghost named = *logger;
                if let Some(alias) = alias {
                    logger.log(", alias: ");
                    logger.log_name(*alias);
                    logger.log("\n");
                }
                let ghost aliased = logger.text();
                logger.logln("");
                assert(logger.text() =~= aliased + "\n"@);
                assert(aliased =~= named.text() + match alias {
                    Some(alias) => ", alias: "@ + old(logger).name_text(*alias) + "\n"@,
                    None => Seq::<char>::empty(),
                });
            },
            UsePath::SubPaths { segments, sub_paths, .. } => {
                logger.prefixed_log("Path: ");
                logger.dotted_names(segments);
                logger.logln("");
                assert(logger.text() =~= old(logger).text() + old(logger).header("Use Path"@)
                    + old(logger).prefix_for(old(logger).levels().push(false))
                    + "Path: "@ + old(logger).dotted_text(segments@) + "\n"@);
                let ghost written = *logger;
                logger.set_last_at_indent();
                log_use_paths_group(logger, "Sub Paths", sub_paths);
                assert(written.appends(&*logger));
            },
            UsePath::Alias { segments, alias, .. } => {
                logger.set_last_at_indent();
                assert(logger.levels() =~= old(logger).levels().push(true));
                logger.prefixed_log("Path: ");
                logger.dotted_names(segments);
                let ghost joined = logger.text();
                if let Some(alias) = alias {
                    logger.log(", alias: ");
                    logger.log_name(*alias);
                }
                let ghost aliased = logger.text();
                logger.logln("");
                assert(logger.text() =~= aliased + "\n"@);
                assert(aliased =~= joined + match alias {
                    Some(alias) => ", alias: "@ + old(logger).name_text(*alias),
                    None => Seq::<char>::empty(),
                });
            },
            UsePath::Wildcard { segments, .. } => {
                logger.set_last_at_indent();
                assert(logger.levels() =~= old(logger).levels().push(true));
                logger.prefixed_log("Path: ");
                logger.dotted_names(segments);
                logger.logln(".*");
            },
        }
        logger.pop_indent();
    }

    open spec fn spec_log(&self, env: LogEnv, st: LogState) -> LogState
        decreases self, 0int,
    {
        let s1 = st_begin_node(env, st, "Use Path"@);
        let s2 = match *self {
            UsePath::SelfPath { alias, .. } => {
                let s3 = st_set_last(s1);
                let s4 = st_prefixed(env, s3, "SelfPath"@);
                let s8 = match alias {
                    Some(alias) => {
                        let s5 = st_log(s4, ", alias: "@);
                        let s6 = st_log(s5, table_name_text(env.names, alias));
                        let s7 = st_log(s6, "\n"@);
                        s7
                    },
                    None => s4,
                };
                let s9 = st_log(st_log(s8, ""@), "\n"@);
                s9
            },
            UsePath::SubPaths { segments, sub_paths, .. } => {
                let s10 = st_prefixed(env, s1, "Path: "@);
                let s11 = st_log(s10, dotted_names_text(env.names, segments@));
                let s12 = st_log(st_log(s11, ""@), "\n"@);
                let s13 = st_set_last(s12);
                let s14 = spec_log_use_paths_group(env, s13, "Sub Paths"@, sub_paths@);
                s14
            },
            UsePath::Alias { segments, alias, .. } => {
                let s15 = st_set_last(s1);
                let s16 = st_prefixed(env, s15, "Path: "@);
                let s17 = st_log(s16, dotted_names_text(env.names, segments@));
                let s20 = match alias {
                    Some(alias) => {
                        let s18 = st_log(s17, ", alias: "@);
                        let s19 = st_log(s18, table_name_text(env.names, alias));
                        s19
                    },
                    None => s17,
                };
                let s21 = st_log(st_log(s20, ""@), "\n"@);
                s21
            },
            UsePath::Wildcard { segments, .. } => {
                let s22 = st_set_last(s1);
                let s23 = st_prefixed(env, s22, "Path: "@);
                let s24 = st_log(s23, dotted_names_text(env.names, segments@));
                let s25 = st_log(st_log(s24, ".*"@), "\n"@);
                s25
            },
        };
        let s26 = st_pop(s2);
        s26
    }
}

impl AstNodeLog for Function {
    fn log(&self, logger: &mut AstLogger)
        ensures
            is_prefix(old(logger).text() + old(logger).header("Function"@), final(logger).text()),
            self.attrs@.len() == 0 && self.vis is None ==> is_prefix(old(logger).text() + old(logger).header("Function"@)
                + old(logger).prefix_for(old(logger).levels().push(false)) + "Is Const: "@ + (if self.is_const { "true"@ } else { "false"@ }) + "\n"@
                + old(logger).prefix_for(old(logger).levels().push(false)) + "Is Unsafe: "@ + (if self.is_unsafe { "true"@ } else { "false"@ }) + "\n"@, final(logger).text()),
            (self.attrs@.len() == 0 && self.vis is None && self.abi is None && self.generics is None
                && self.params@.len() == 0 && self.returns is None && self.body is None) ==> {
                &&& final(logger).text() == old(logger).text() + old(logger).header("Function"@)
                    + old(logger).prefix_for(old(logger).levels().push(false)) + "Is Const: "@ + (if self.is_const { "true"@ } else { "false"@ }) + "\n"@
                    + old(logger).prefix_for(old(logger).levels().push(false)) + "Is Unsafe: "@ + (if self.is_unsafe { "true"@ } else { "false"@ }) + "\n"@
                    + old(logger).prefix_for(old(logger).levels().push(true)) + "Name: "@ + old(logger).name_text(self.name) + "\n"@
                &&& final(logger).levels() == old(logger).levels()
            },
        decreases self,
    {
        logger.begin_ast_node("Function");
        log_attrs_group(logger, "Attributes", &self.attrs);
        log_vis(logger, &self.vis);
        logger.bool_line("Is Const: ", self.is_const);
        logger.bool_line("Is Unsafe: ", self.is_unsafe);
        if self.abi.is_some() {
            logger.name_line("ABI: ", self.name);
        }
        logger.set_last_at_indent_if(self.generics.is_none() && self.params.len() == 0 && self.body.is_none());
        proof {
            if self.attrs@.len() == 0 && self.vis is None && self.abi is None && self.generics is None
                && self.params@.len() == 0 && self.body is None {
                assert(logger.levels() =~= old(logger).levels().push(true));
            }
        }
        logger.name_line("Name: ", self.name);
        logger.set_last_at_indent_if(self.generics.is_none() && self.params.len() == 0 && self.body.is_none());
        log_generics(logger, &self.generics);
        logger.set_last_at_indent_if(self.params.len() == 0 && self.body.is_none());
        log_fn_params_group(logger, "Params", &self.params);
        logger.set_last_at_indent_if(self.body.is_none());
        if let Some(ret) = &self.returns {
            ret.log(logger);
        }
        logger.set_last_at_indent();
        if let Some(body) = &self.body {
            let prev = logger.enter_node(body.node_id());
            body.log(logger);
            logger.enter_node(prev);
        }
        logger.pop_indent();
        proof {
            if self.attrs@.len() == 0 && self.vis is None && self.abi is None && self.generics is None
                && self.params@.len() == 0 && self.returns is None && self.body is None {
                assert(logger.levels() =~= old(logger).levels());
            }
        }
    }

    open spec fn spec_log(&self, env: LogEnv, st: LogState) -> LogState
        decreases self, 0int,
    {
        let s1 = st_begin_node(env, st, "Function"@);
        let s2 = spec_log_attrs_group(env, s1, "Attributes"@, self.attrs@);
        let s3 = spec_log_vis(env, s2, self.vis);
        let s4 = st_line(env, s3, "Is Const: "@, bool_text(self.is_const));
        let s5 = st_line(env, s4, "Is Unsafe: "@, bool_text(self.is_unsafe));
        let s7 = if (self.abi is Some) {
            let s6 = st_line(env, s5, "ABI: "@, table_name_text(env.names, self.name));
            s6
        } else { s5 };
        let s8 = st_set_last_if(s7, (self.generics is None) && self.params.len() == 0 && (self.body is None));
        let s9 = st_line(env, s8, "Name: "@, table_name_text(env.names, self.name));
        let s10 = st_set_last_if(s9, (self.generics is None) && self.params.len() == 0 && (self.body is None));
        let s11 = spec_log_generics(env, s10, self.generics);
        let s12 = st_set_last_if(s11, self.params.len() == 0 && (self.body is None));
        let s13 = spec_log_fn_params_group(env, s12, "Params"@, self.params@);
        let s14 = st_set_last_if(s13, (self.body is None));
        let s16 = match self.returns {
            Some(ret) => {
                let s15 = ret.spec_log(env, s14);
                s15
            },
            None => s14,
        };
        let s17 = st_set_last(s16);
        let s21 = match self.body {
            Some(body) => {
                let prev = s17.node;
                let s18 = st_enter(s17, body.spec_node_id());
                let s19 = body.spec_log(env, s18);
                let s20 = st_enter(s19, prev);
                s20
            },
            None => s17,
        };
        let s22 = st_pop(s21);
        s22
    }
}

impl AstNodeLog for Method {
    #[verifier::rlimit(40)]
    fn log(&self, logger: &mut AstLogger)
        ensures
            is_prefix(old(logger).text() + old(logger).header("Method"@), final(logger).text()),
        decreases self,
    {
        logger.begin_ast_node("Method");
        log_attrs_group(logger, "Attributes", &self.attrs);
        log_vis(logger, &self.vis);
        logger.bool_line("Is Const: ", self.is_const);
        logger.bool_line("Is Unsafe: ", self.is_unsafe);
        logger.name_line("Name: ", self.name);
        log_generics(logger, &self.generics);
        self.receiver.log(logger);
        log_fn_params_group(logger, "Params", &self.params);
        if let Some(ret) = &self.returns {
            ret.log(logger);
        }
        logger.set_last_at_indent();
        let prev = logger.enter_node(self.body.node_id());
        self.body.log(logger);
        logger.enter_node(prev);
        logger.pop_indent();
    }

    open spec fn spec_log(&self, env: LogEnv, st: LogState) -> LogState
        decreases self, 0int,
    {
        let s1 = st_begin_node(env, st, "Method"@);
        let s2 = spec_log_attrs_group(env, s1, "Attributes"@, self.attrs@);
        let s3 = spec_log_vis(env, s2, self.vis);
        let s4 = st_line(env, s3, "Is Const: "@, bool_text(self.is_const));
        let s5 = st_line(env, s4, "Is Unsafe: "@, bool_text(self.is_unsafe));
        let s6 = st_line(env, s5, "Name: "@, table_name_text(env.names, self.name));
        let s7 = spec_log_generics(env, s6, self.generics);
        let s8 = self.receiver.spec_log(env, s7);
        let s9 = spec_log_fn_params_group(env, s8, "Params"@, self.params@);
        let s11 = match self.returns {
            Some(ret) => {
                let s10 = ret.spec_log(env, s9);
                s10
            },
            None => s9,
        };
        let s12 = st_set_last(s11);
        let prev = s12.node;
        let s13 = st_enter(s12, self.body.spec_node_id());
        let s14 = self.body.spec_log(env, s13);
        let s15 = st_enter(s14, prev);
        let s16 = st_pop(s15);
        s16
    }
}

impl AstNodeLog for FnReceiver {
    fn log(&self, logger: &mut AstLogger)
        ensures
            is_prefix(old(logger).text() + old(logger).prefix() + match self {
                FnReceiver::SelfReceiver { .. } => "Self Receiver"@,
                FnReceiver::SelfTyped { .. } => "Typed Receiver"@,
            } + "\n"@, final(logger).text()),
        decreases self,
    {
        match self {
            FnReceiver::SelfReceiver { is_ref, is_mut, .. } => {
                logger.begin_indented("Self Receiver");
                logger.bool_line("Is Ref: ", *is_ref);
                logger.bool_line("Is Mut: ", *is_mut);
                logger.pop_indent();
            },
            FnReceiver::SelfTyped { is_mut, ty, .. } => {
                logger.begin_indented("Typed Receiver");
                logger.bool_line("Is Mut: ", *is_mut);
                logger.set_last_at_indent();
                logger.begin_last("Type");
                ty.log(logger);
                logger.pop_indent();
                logger.pop_indent();
            },
        }
    }

    open spec fn spec_log(&self, env: LogEnv, st: LogState) -> LogState
        decreases self, 0int,
    {
        let s1 = match *self {
            FnReceiver::SelfReceiver { is_ref, is_mut, .. } => {
                let s2 = st_begin_indented(env, st, "Self Receiver"@);
                let s3 = st_line(env, s2, "Is Ref: "@, bool_text(is_ref));
                let s4 = st_line(env, s3, "Is Mut: "@, bool_text(is_mut));
                let s5 = st_pop(s4);
                s5
            },
            FnReceiver::SelfTyped { is_mut, ty, .. } => {
                let s6 = st_begin_indented(env, st, "Typed Receiver"@);
                let s7 = st_line(env, s6, "Is Mut: "@, bool_text(is_mut));
                let s8 = st_set_last(s7);
                let s9 = st_begin_last(env, s8, "Type"@);
                let s10 = ty.spec_log(env, s9);
                let s11 = st_pop(s10);
                let s12 = st_pop(s11);
                s12
            },
        };
        s1
    }
}

impl AstNodeLog for FnParam {
    fn log(&self, logger: &mut AstLogger)
        ensures
            is_prefix(old(logger).text() + old(logger).prefix() + "Param"@ + "\n"@, final(logger).text()),
        decreases self,
    {
        logger.begin_indented("Param");
        logger.bool_line("Is Variadic: ", self.is_variadic);
        log_param_names_group(logger, "Names", &self.names);
        logger.set_last_at_indent();
        logger.begin_last("Type");
        self.ty.log(logger);
        logger.pop_indent();
        logger.pop_indent();
    }

    open spec fn spec_log(&self, env: LogEnv, st: LogState) -> LogState
        decreases self, 0int,
    {
        let s1 = st_begin_indented(env, st, "Param"@);
        let s2 = st_line(env, s1, "Is Variadic: "@, bool_text(self.is_variadic));
        let s3 = spec_log_param_names_group(env, s2, "Names"@, self.names@);
        let s4 = st_set_last(s3);
        let s5 = st_begin_last(env, s4, "Type"@);
        let s6 = self.ty.spec_log(env, s5);
        let s7 = st_pop(s6);
        let s8 = st_pop(s7);
        s8
    }
}

impl AstNodeLog for FnParamName {
    fn log(&self, logger: &mut AstLogger)
        ensures
            is_prefix(old(logger).text() + old(logger).prefix() + "Name"@ + "\n"@, final(logger).text()),
        decreases self,
    {
        logger.begin_indented("Name");
        log_attrs_group(logger, "Attributes", &self.attrs);
        logger.opt_name_line("Label: ", self.label);
        logger.set_last_at_indent();
        self.pattern.log(logger);
        logger.pop_indent();
    }

    open spec fn spec_log(&self, env: LogEnv, st: LogState) -> LogState
        decreases self, 0int,
    {
        let s1 = st_begin_indented(env, st, "Name"@);
        let s2 = spec_log_attrs_group(env, s1, "Attributes"@, self.attrs@);
        let s3 = match self.label { Some(id) => st_line(env, s2, "Label: "@, table_name_text(env.names, id)), None => s2 };
        let s4 = st_set_last(s3);
        let s5 = self.pattern.spec_log(env, s4);
        let s6 = st_pop(s5);
        s6
    }
}

impl AstNodeLog for FnReturn {
    fn log(&self, logger: &mut AstLogger)
        decreases self,
    {
        match self {
            FnReturn::Type { ty, .. } => {
                logger.begin_last("Typed Function Return");
                ty.log(logger);
                logger.pop_indent();
            },
            FnReturn::Named { vars, .. } => {
                log_return_vars_group(logger, "Named Function Return", vars);
            },
        }
    }

    open spec fn spec_log(&self, env: LogEnv, st: LogState) -> LogState
        decreases self, 0int,
    {
        let s1 = match *self {
            FnReturn::Type { ty, .. } => {
                let s2 = st_begin_last(env, st, "Typed Function Return"@);
                let s3 = ty.spec_log(env, s2);
                let s4 = st_pop(s3);
                s4
            },
            FnReturn::Named { vars, .. } => {
                let s5 = spec_log_return_vars_group(env, st, "Named Function Return"@, vars@);
                s5
            },
        };
        s1
    }
}

impl AstNodeLog for TypeAlias {
    fn log(&self, logger: &mut AstLogger)
        ensures
            is_prefix(old(logger).text() + old(logger).header("Typealias"@), final(logger).text()),
            self.attrs@.len() == 0 && self.vis is None ==> is_prefix(old(logger).text() + old(logger).header("Typealias"@)
                + old(logger).prefix_for(old(logger).levels().push(false)) + "Name: "@ + old(logger).name_text(self.name) + "\n"@, final(logger).text()),
        decreases self,
    {
        logger.begin_ast_node("Typealias");
        log_attrs_group(logger, "Attributes", &self.attrs);
        log_vis(logger, &self.vis);
        logger.name_line("Name: ", self.name);
        log_generics(logger, &self.generics);
        logger.set_last_at_indent();
        logger.begin_last("Type");
        self.ty.log(logger);
        logger.pop_indent();
        logger.pop_indent();
    }

    open spec fn spec_log(&self, env: LogEnv, st: LogState) -> LogState
        decreases self, 0int,
    {
        let s1 = st_begin_node(env, st, "Typealias"@);
        let s2 = spec_log_attrs_group(env, s1, "Attributes"@, self.attrs@);
        let s3 = spec_log_vis(env, s2, self.vis);
        let s4 = st_line(env, s3, "Name: "@, table_name_text(env.names, self.name));
        let s5 = spec_log_generics(env, s4, self.generics);
        let s6 = st_set_last(s5);
        let s7 = st_begin_last(env, s6, "Type"@);
        let s8 = self.ty.spec_log(env, s7);
        let s9 = st_pop(s8);
        let s10 = st_pop(s9);
        s10
    }
}

impl AstNodeLog for DistinctType {
    fn log(&self, logger: &mut AstLogger)
        ensures
            is_prefix(old(logger).text() + old(logger).header("Distinct Typealias"@), final(logger).text()),
        decreases self,
    {
        logger.begin_ast_node("Distinct Typealias");
        log_attrs_group(logger, "Attributes", &self.attrs);
        log_vis(logger, &self.vis);
        logger.name_line("Name: ", self.name);
        log_generics(logger, &self.generics);
        logger.set_last_at_indent();
        logger.begin_last("Type");
        self.ty.log(logger);
        logger.pop_indent();
        logger.pop_indent();
    }

    open spec fn spec_log(&self, env: LogEnv, st: LogState) -> LogState
        decreases self, 0int,
    {
        let s1 = st_begin_node(env, st, "Distinct Typealias"@);
        let s2 = spec_log_attrs_group(env, s1, "Attributes"@, self.attrs@);
        let s3 = spec_log_vis(env, s2, self.vis);
        let s4 = st_line(env, s3, "Name: "@, table_name_text(env.names, self.name));
        let s5 = spec_log_generics(env, s4, self.generics);
        let s6 = st_set_last(s5);
        let s7 = st_begin_last(env, s6, "Type"@);
        let s8 = self.ty.spec_log(env, s7);
        let s9 = st_pop(s8);
        let s10 = st_pop(s9);
        s10
    }
}

impl AstNodeLog for OpaqueType {
    fn log(&self, logger: &mut AstLogger)
        ensures
            is_prefix(old(logger).text() + old(logger).header("Opaque Typealias"@), final(logger).text()),
        decreases self,
    {
        logger.begin_ast_node("Opaque Typealias");
        log_attrs_group(logger, "Attributes", &self.attrs);
        log_vis(logger, &self.vis);
        logger.name_line("Name: ", self.name);
        if let Some(size) = &self.size {
            logger.begin_last("Size");
            size.log(logger);
            logger.pop_indent();
        }
        logger.pop_indent();
    }

    open spec fn spec_log(&self, env: LogEnv, st: LogState) -> LogState
        decreases self, 0int,
    {
        let s1 = st_begin_node(env, st, "Opaque Typealias"@);
        let s2 = spec_log_attrs_group(env, s1, "Attributes"@, self.attrs@);
        let s3 = spec_log_vis(env, s2, self.vis);
        let s4 = st_line(env, s3, "Name: "@, table_name_text(env.names, self.name));
        let s8 = match self.size {
            Some(size) => {
                let s5 = st_begin_last(env, s4, "Size"@);
                let s6 = size.spec_log(env, s5);
                let s7 = st_pop(s6);
                s7
            },
            None => s4,
        };
        let s9 = st_pop(s8);
        s9
    }
}

impl AstNodeLog for Struct {
    fn log(&self, logger: &mut AstLogger)
        ensures
            is_prefix(old(logger).text() + old(logger).header(match self {
                Struct::Regular { .. } => "Struct"@,
                Struct::Tuple { .. } => "Tuple Struct"@,
                Struct::Unit { .. } => "Unit Struct"@,
            }), final(logger).text()),
            match self {
                Struct::Regular { attrs, vis, is_mut, is_record, name, .. } => attrs@.len() == 0 && vis is None ==> is_prefix(
                    old(logger).text() + old(logger).header("Struct"@) + old(logger).prefix_for(old(logger).levels().push(false)) + "Name: "@ + old(logger).name_text(*name) + "\n"@
                    + old(logger).prefix_for(old(logger).levels().push(false)) + "Is Mut: "@ + (if *is_mut { "true"@ } else { "false"@ }) + "\n"@
                    + old(logger).prefix_for(old(logger).levels().push(false)) + "Is Record: "@ + (if *is_record { "true"@ } else { "false"@ }) + "\n"@, final(logger).text()),
                Struct::Tuple { attrs, vis, name, .. } => attrs@.len() == 0 && vis is None ==> is_prefix(
                    old(logger).text() + old(logger).header("Tuple Struct"@) + old(logger).prefix_for(old(logger).levels().push(false)) + "Name: "@ + old(logger).name_text(*name) + "\n"@, final(logger).text()),
                Struct::Unit { attrs, vis, name, .. } => attrs@.len() == 0 && vis is None ==> is_prefix(
                    old(logger).text() + old(logger).header("Unit Struct"@) + old(logger).prefix_for(old(logger).levels().push(false)) + "Name: "@ + old(logger).name_text(*name) + "\n"@, final(logger).text()),
            },
            match self {
                Struct::Regular { attrs, vis, is_mut, is_record, name, generics, where_clause, fields, .. } =>
                    (attrs@.len() == 0 && vis is None && generics is None && where_clause is None && fields@.len() == 0) ==> {
                        &&& final(logger).text() == old(logger).text() + old(logger).header("Struct"@) + old(logger).prefix_for(old(logger).levels().push(false)) + "Name: "@ + old(logger).name_text(*name) + "\n"@
                            + old(logger).prefix_for(old(logger).levels().push(false)) + "Is Mut: "@ + (if *is_mut { "true"@ } else { "false"@ }) + "\n"@
                            + old(logger).prefix_for(old(logger).levels().push(false)) + "Is Record: "@ + (if *is_record { "true"@ } else { "false"@ }) + "\n"@
                        &&& final(logger).levels() == old(logger).levels()
                    },
                Struct::Tuple { attrs, vis, name, generics, where_clause, fields, .. } =>
                    (attrs@.len() == 0 && vis is None && generics is None && where_clause is None && fields@.len() == 0) ==> {
                        &&& final(logger).text() == old(logger).text() + old(logger).header("Tuple Struct"@) + old(logger).prefix_for(old(logger).levels().push(false)) + "Name: "@ + old(logger).name_text(*name) + "\n"@
                        &&& final(logger).levels() == old(logger).levels()
                    },
                Struct::Unit { attrs, vis, name, .. } => (attrs@.len() == 0 && vis is None) ==> {
                    &&& final(logger).text() == old(logger).text() + old(logger).header("Unit Struct"@) + old(logger).prefix_for(old(logger).levels().push(false)) + "Name: "@ + old(logger).name_text(*name) + "\n"@
                    &&& final(logger).levels() == old(logger).levels()
                },
            },
        decreases self,
    {
        match self {
            Struct::Regular { attrs, vis, is_mut, is_record, name, generics, where_clause, fields, .. } => {
                logger.begin_ast_node("Struct");
                log_attrs_group(logger, "Attributes", attrs);
                log_vis(logger, vis);
                logger.name_line("Name: ", *name);
                logger.bool_line("Is Mut: ", *is_mut);
                logger.bool_line("Is Record: ", *is_record);
                logger.set_last_at_indent_if(where_clause.is_none() && fields.len() == 0);
                log_generics(logger, generics);
                logger.set_last_at_indent_if(fields.len() == 0);
                log_where(logger, where_clause);
                logger.set_last_at_indent();
                log_reg_fields_group(logger, "Fields", fields);
                logger.pop_indent();
                proof {
                    if attrs@.len() == 0 && vis is None && generics is None && where_clause is None && fields@.len() == 0 {
                        assert(logger.levels() =~= old(logger).levels());
                    }
                }
            },
            Struct::Tuple { attrs, vis, name, generics, where_clause, fields, .. } => {
                logger.begin_ast_node("Tuple Struct");
                log_attrs_group(logger, "Attributes", attrs);
                log_vis(logger, vis);
                logger.name_line("Name: ", *name);
                log_generics(logger, generics);
                log_where(logger, where_clause);
                logger.set_last_at_indent();
                log_tuple_fields_group(logger, "Fields", fields);
                logger.pop_indent();
                proof {
                    if attrs@.len() == 0 && vis is None && generics is None && where_clause is None && fields@.len() == 0 {
                        assert(logger.levels() =~= old(logger).levels());
                    }
                }
            },
            Struct::Unit { attrs, vis, name, .. } => {
                logger.begin_ast_node("Unit Struct");
                log_attrs_group(logger, "Attributes", attrs);
                log_vis(logger, vis);
                logger.name_line("Name: ", *name);
                logger.pop_indent();
                proof {
                    if attrs@.len() == 0 && vis is None {
                        assert(logger.levels() =~= old(logger).levels());
                    }
                }
            },
        }
    }

    open spec fn spec_log(&self, env: LogEnv, st: LogState) -> LogState
        decreases self, 0int,
    {
        let s1 = match *self {
            Struct::Regular { attrs, vis, is_mut, is_record, name, generics, where_clause, fields, .. } => {
                let s2 = st_begin_node(env, st, "Struct"@);
                let s3 = spec_log_attrs_group(env, s2, "Attributes"@, attrs@);
                let s4 = spec_log_vis(env, s3, vis);
                let s5 = st_line(env, s4, "Name: "@, table_name_text(env.names, name));
                let s6 = st_line(env, s5, "Is Mut: "@, bool_text(is_mut));
                let s7 = st_line(env, s6, "Is Record: "@, bool_text(is_record));
                let s8 = st_set_last_if(s7, (where_clause is None) && fields.len() == 0);
                let s9 = spec_log_generics(env, s8, generics);
                let s10 = st_set_last_if(s9, fields.len() == 0);
                let s11 = spec_log_where(env, s10, where_clause);
                let s12 = st_set_last(s11);
                let s13 = spec_log_reg_fields_group(env, s12, "Fields"@, fields@);
                let s14 = st_pop(s13);
                s14
            },
            Struct::Tuple { attrs, vis, name, generics, where_clause, fields, .. } => {
                let s15 = st_begin_node(env, st, "Tuple Struct"@);
                let s16 = spec_log_attrs_group(env, s15, "Attributes"@, attrs@);
                let s17 = spec_log_vis(env, s16, vis);
                let s18 = st_line(env, s17, "Name: "@, table_name_text(env.names, name));
                let s19 = spec_log_generics(env, s18, generics);
                let s20 = spec_log_where(env, s19, where_clause);
                let s21 = st_set_last(s20);
                let s22 = spec_log_tuple_fields_group(env, s21, "Fields"@, fields@);
                let s23 = st_pop(s22);
                s23
            },
            Struct::Unit { attrs, vis, name, .. } => {
                let s24 = st_begin_node(env, st, "Unit Struct"@);
                let s25 = spec_log_attrs_group(env, s24, "Attributes"@, attrs@);
                let s26 = spec_log_vis(env, s25, vis);
                let s27 = st_line(env, s26, "Name: "@, table_name_text(env.names, name));
                let s28 = st_pop(s27);
                s28
            },
        };
        s1
    }
}

impl AstNodeLog for RegStructField {
    fn log(&self, logger: &mut AstLogger)
        ensures
            is_prefix(old(logger).text() + old(logger).prefix() + match self {
                RegStructField::Field { .. } => "Named Field"@,
                RegStructField::Use { .. } => "Use Field"@,
            } + "\n"@, final(logger).text()),
        decreases self,
    {
        match self {
            RegStructField::Field { attrs, vis, is_mut, names, ty, def, .. } => {
                logger.begin_indented("Named Field");
                log_attrs_group(logger, "Attributes", attrs);
                log_vis(logger, vis);
                logger.bool_line("Is Mut: ", *is_mut);
                logger.name_group("Names", "Name: ", names);
                logger.set_last_at_indent_if(def.is_none());
                logger.begin_last("Type");
                ty.log(logger);
                logger.pop_indent();
                logger.set_last_at_indent();
                if let Some(def) = def {
                    logger.begin_last("Default Value");
                    def.log(logger);
                    logger.pop_indent();
                }
                logger.pop_indent();
            },
            RegStructField::Use { attrs, vis, is_mut, path, .. } => {
                logger.begin_indented("Use Field");
                log_attrs_group(logger, "Attributes", attrs);
                log_vis(logger, vis);
                logger.bool_line("Is Mut: ", *is_mut);
                logger.set_last_at_indent();
                let prev = logger.enter_node(path.node_id());
                path.log(logger);
                logger.enter_node(prev);
                logger.pop_indent();
            },
        }
    }

    open spec fn spec_log(&self, env: LogEnv, st: LogState) -> LogState
        decreases self, 0int,
    {
        let s1 = match *self {
            RegStructField::Field { attrs, vis, is_mut, names, ty, def, .. } => {
                let s2 = st_begin_indented(env, st, "Named Field"@);
                let s3 = spec_log_attrs_group(env, s2, "Attributes"@, attrs@);
                let s4 = spec_log_vis(env, s3, vis);
                let s5 = st_line(env, s4, "Is Mut: "@, bool_text(is_mut));
                let s6 = st_name_group(env, s5, "Names"@, "Name: "@, names@);
                let s7 = st_set_last_if(s6, (def is None));
                let s8 = st_begin_last(env, s7, "Type"@);
                let s9 = ty.spec_log(env, s8);
                let s10 = st_pop(s9);
                let s11 = st_set_last(s10);
                let s15 = match def {
                    Some(def) => {
                        let s12 = st_begin_last(env, s11, "Default Value"@);
                        let s13 = def.spec_log(env, s12);
                        let s14 = st_pop(s13);
                        s14
                    },
                    None => s11,
                };
                let s16 = st_pop(s15);
                s16
            },
            RegStructField::Use { attrs, vis, is_mut, path, .. } => {
                let s17 = st_begin_indented(env, st, "Use Field"@);
                let s18 = spec_log_attrs_group(env, s17, "Attributes"@, attrs@);
                let s19 = spec_log_vis(env, s18, vis);
                let s20 = st_line(env, s19, "Is Mut: "@, bool_text(is_mut));
                let s21 = st_set_last(s20);
                let prev = s21.node;
                let s22 = st_enter(s21, path.spec_node_id());
                let s23 = path.spec_log(env, s22);
                let s24 = st_enter(s23, prev);
                let s25 = st_pop(s24);
                s25
            },
        };
        s1
    }
}

impl AstNodeLog for TupleStructField {
    fn log(&self, logger: &mut AstLogger)
        ensures
            is_prefix(old(logger).text() + old(logger).prefix() + "Field"@ + "\n"@, final(logger).text()),
        decreases self,
    {
        logger.begin_indented("Field");
        log_attrs_group(logger, "Attributes", &self.attrs);
        log_vis(logger, &self.vis);
        logger.set_last_at_indent_if(self.def.is_none());
        logger.begin_last("Type");
        self.ty.log(logger);
        logger.pop_indent();
        logger.set_last_at_indent();
        if let Some(def) = &self.def {
            logger.begin_last("Default");
            def.log(logger);
            logger.pop_indent();
        }
        logger.pop_indent();
    }

    open spec fn spec_log(&self, env: LogEnv, st: LogState) -> LogState
        decreases self, 0int,
    {
        let s1 = st_begin_indented(env, st, "Field"@);
        let s2 = spec_log_attrs_group(env, s1, "Attributes"@, self.attrs@);
        let s3 = spec_log_vis(env, s2, self.vis);
        let s4 = st_set_last_if(s3, (self.def is None));
        let s5 = st_begin_last(env, s4, "Type"@);
        let s6 = self.ty.spec_log(env, s5);
        let s7 = st_pop(s6);
        let s8 = st_set_last(s7);
        let s12 = match self.def {
            Some(def) => {
                let s9 = st_begin_last(env, s8, "Default"@);
                let s10 = def.spec_log(env, s9);
                let s11 = st_pop(s10);
                s11
            },
            None => s8,
        };
        let s13 = st_pop(s12);
        s13
    }
}

impl AstNodeLog for Union {
    fn log(&self, logger: &mut AstLogger)
        ensures
            is_prefix(old(logger).text() + old(logger).header("Union"@), final(logger).text()),
        decreases self,
    {
        logger.begin_ast_node("Union");
        log_attrs_group(logger, "Attributes", &self.attrs);
        log_vis(logger, &self.vis);
        logger.bool_line("Is Mut: ", self.is_mut);
        logger.set_last_at_indent_if(self.where_clause.is_none() && self.fields.len() == 0);
        log_generics(logger, &self.generics);
        logger.set_last_at_indent_if(self.fields.len() == 0);
        log_where(logger, &self.where_clause);
        logger.set_last_at_indent();
        log_union_fields_group(logger, "Fields", &self.fields);
        logger.pop_indent();
    }

    open spec fn spec_log(&self, env: LogEnv, st: LogState) -> LogState
        decreases self, 0int,
    {
        let s1 = st_begin_node(env, st, "Union"@);
        let s2 = spec_log_attrs_group(env, s1, "Attributes"@, self.attrs@);
        let s3 = spec_log_vis(env, s2, self.vis);
        let s4 = st_line(env, s3, "Is Mut: "@, bool_text(self.is_mut));
        let s5 = st_set_last_if(s4, (self.where_clause is None) && self.fields.len() == 0);
        let s6 = spec_log_generics(env, s5, self.generics);
        let s7 = st_set_last_if(s6, self.fields.len() == 0);
        let s8 = spec_log_where(env, s7, self.where_clause);
        let s9 = st_set_last(s8);
        let s10 = spec_log_union_fields_group(env, s9, "Fields"@, self.fields@);
        let s11 = st_pop(s10);
        s11
    }
}

impl AstNodeLog for UnionField {
    fn log(&self, logger: &mut AstLogger)
        ensures
            is_prefix(old(logger).text() + old(logger).prefix() + "Field"@ + "\n"@, final(logger).text()),
        decreases self,
    {
        logger.begin_indented("Field");
        log_attrs_group(logger, "Attributes", &self.attrs);
        log_vis(logger, &self.vis);
        logger.bool_line("Is Mut: ", self.is_mut);
        logger.name_line("Name: ", self.name);
        logger.set_last_at_indent();
        logger.begin_last("Type");
        self.ty.log(logger);
        logger.pop_indent();
        logger.pop_indent();
    }

    open spec fn spec_log(&self, env: LogEnv, st: LogState) -> LogState
        decreases self, 0int,
    {
        let s1 = st_begin_indented(env, st, "Field"@);
        let s2 = spec_log_attrs_group(env, s1, "Attributes"@, self.attrs@);
        let s3 = spec_log_vis(env, s2, self.vis);
        let s4 = st_line(env, s3, "Is Mut: "@, bool_text(self.is_mut));
        let s5 = st_line(env, s4, "Name: "@, table_name_text(env.names, self.name));
        let s6 = st_set_last(s5);
        let s7 = st_begin_last(env, s6, "Type"@);
        let s8 = self.ty.spec_log(env, s7);
        let s9 = st_pop(s8);
        let s10 = st_pop(s9);
        s10
    }
}

impl AstNodeLog for Enum {
    fn log(&self, logger: &mut AstLogger)
        ensures
            is_prefix(old(logger).text() + old(logger).header(match self {
                Enum::Adt { .. } => "Adt Enum"@,
                Enum::Flag { .. } => "Flag Enum"@,
            }), final(logger).text()),
        decreases self,
    {
        match self {
            Enum::Adt { attrs, vis, is_mut, is_record, name, generics, where_clause, variants, .. } => {
                logger.begin_ast_node("Adt Enum");
                log_attrs_group(logger, "Attributes", attrs);
                log_vis(logger, vis);
                logger.bool_line("Is Mut: ", *is_mut);
                logger.bool_line("Is Record: ", *is_record);
                logger.name_line("Name: ", *name);
                logger.set_last_at_indent_if(where_clause.is_none() && variants.len() == 0);
                log_generics(logger, generics);
                logger.set_last_at_indent_if(variants.len() == 0);
                log_where(logger, where_clause);
                logger.set_last_at_indent();
                log_variants_group(logger, "Variants", variants);
                logger.pop_indent();
            },
            Enum::Flag { attrs, vis, name, variants, .. } => {
                logger.begin_ast_node("Flag Enum");
                log_attrs_group(logger, "Attributes", attrs);
                log_vis(logger, vis);
                logger.name_line("Name: ", *name);
                logger.set_last_at_indent();
                log_flag_variants_group(logger, "Variants", variants);
                logger.pop_indent();
            },
        }
    }

    open spec fn spec_log(&self, env: LogEnv, st: LogState) -> LogState
        decreases self, 0int,
    {
        let s1 = match *self {
            Enum::Adt { attrs, vis, is_mut, is_record, name, generics, where_clause, variants, .. } => {
                let s2 = st_begin_node(env, st, "Adt Enum"@);
                let s3 = spec_log_attrs_group(env, s2, "Attributes"@, attrs@);
                let s4 = spec_log_vis(env, s3, vis);
                let s5 = st_line(env, s4, "Is Mut: "@, bool_text(is_mut));
                let s6 = st_line(env, s5, "Is Record: "@, bool_text(is_record));
                let s7 = st_line(env, s6, "Name: "@, table_name_text(env.names, name));
                let s8 = st_set_last_if(s7, (where_clause is None) && variants.len() == 0);
                let s9 = spec_log_generics(env, s8, generics);
                let s10 = st_set_last_if(s9, variants.len() == 0);
                let s11 = spec_log_where(env, s10, where_clause);
                let s12 = st_set_last(s11);
                let s13 = spec_log_variants_group(env, s12, "Variants"@, variants@);
                let s14 = st_pop(s13);
                s14
            },
            Enum::Flag { attrs, vis, name, variants, .. } => {
                let s15 = st_begin_node(env, st, "Flag Enum"@);
                let s16 = spec_log_attrs_group(env, s15, "Attributes"@, attrs@);
                let s17 = spec_log_vis(env, s16, vis);
                let s18 = st_line(env, s17, "Name: "@, table_name_text(env.names, name));
                let s19 = st_set_last(s18);
                let s20 = spec_log_flag_variants_group(env, s19, "Variants"@, variants@);
                let s21 = st_pop(s20);
                s21
            },
        };
        s1
    }
}

impl AstNodeLog for EnumVariant {
    fn log(&self, logger: &mut AstLogger)
        ensures
            is_prefix(old(logger).text() + old(logger).prefix() + match self {
                EnumVariant::Struct { .. } => "Struct Variant"@,
                EnumVariant::Tuple { .. } => "Tuple Variant"@,
                EnumVariant::Fieldless { .. } => "Fieldless Variant"@,
            } + "\n"@, final(logger).text()),
            match self {
                EnumVariant::Struct { attrs, name, .. } => attrs@.len() == 0 ==> is_prefix(
                    old(logger).text() + old(logger).prefix() + "Struct Variant"@ + "\n"@ + old(logger).prefix_for(old(logger).levels().push(false)) + "Name: "@ + old(logger).name_text(*name) + "\n"@, final(logger).text()),
                EnumVariant::Tuple { attrs, name, .. } => attrs@.len() == 0 ==> is_prefix(
                    old(logger).text() + old(logger).prefix() + "Tuple Variant"@ + "\n"@ + old(logger).prefix_for(old(logger).levels().push(false)) + "Name: "@ + old(logger).name_text(*name) + "\n"@, final(logger).text()),
                EnumVariant::Fieldless { attrs, name, discriminant, .. } => attrs@.len() == 0 ==> is_prefix(
                    old(logger).text() + old(logger).prefix() + "Fieldless Variant"@ + "\n"@
                    + old(logger).prefix_for(old(logger).levels().push(discriminant is None)) + "Name: "@
                    + old(logger).name_text(*name) + "\n"@, final(logger).text()),
            },
            match self {
                EnumVariant::Struct { attrs, name, fields, discriminant, .. } =>
                    (attrs@.len() == 0 && fields@.len() == 0 && discriminant is None) ==> {
                        &&& final(logger).text() == old(logger).text() + old(logger).prefix() + "Struct Variant"@ + "\n"@
                            + old(logger).prefix_for(old(logger).levels().push(false)) + "Name: "@ + old(logger).name_text(*name) + "\n"@
                        &&& final(logger).levels() == old(logger).levels()
                    },
                EnumVariant::Tuple { attrs, name, fields, discriminant, .. } =>
                    (attrs@.len() == 0 && fields@.len() == 0 && discriminant is None) ==> {
                        &&& final(logger).text() == old(logger).text() + old(logger).prefix() + "Tuple Variant"@ + "\n"@
                            + old(logger).prefix_for(old(logger).levels().push(false)) + "Name: "@ + old(logger).name_text(*name) + "\n"@
                        &&& final(logger).levels() == old(logger).levels()
                    },
                EnumVariant::Fieldless { attrs, name, discriminant, .. } => (attrs@.len() == 0 && discriminant is None) ==> {
                    &&& final(logger).text() == old(logger).text() + old(logger).prefix() + "Fieldless Variant"@ + "\n"@
                        + old(logger).prefix_for(old(logger).levels().push(true)) + "Name: "@ + old(logger).name_text(*name) + "\n"@
                    &&& final(logger).levels() == old(logger).levels()
                },
            },
        decreases self,
    {
        match self {
            EnumVariant::Struct { attrs, name, fields, discriminant, .. } => {
                logger.begin_indented("Struct Variant");
                log_attrs_group(logger, "Attributes", attrs);
                logger.name_line("Name: ", *name);
                logger.set_last_at_indent_if(discriminant.is_none());
                log_reg_fields_group(logger, "Fields", fields);
                logger.set_last_at_indent();
                if let Some(discriminant) = discriminant {
                    logger.begin_last("Discriminant");
                    discriminant.log(logger);
                    logger.pop_indent();
                }
                logger.pop_indent();
                proof {
                    if attrs@.len() == 0 && fields@.len() == 0 && discriminant is None {
                        assert(logger.levels() =~= old(logger).levels());
                    }
                }
            },
            EnumVariant::Tuple { attrs, name, fields, discriminant, .. } => {
                logger.begin_indented("Tuple Variant");
                log_attrs_group(logger, "Attributes", attrs);
                logger.name_line("Name: ", *name);
                logger.set_last_at_indent_if(discriminant.is_none());
                log_tuple_fields_group(logger, "Fields", fields);
                logger.set_last_at_indent();
                if let Some(discriminant) = discriminant {
                    logger.begin_last("Discriminant");
                    discriminant.log(logger);
                    logger.pop_indent();
                }
                logger.pop_indent();
                proof {
                    if attrs@.len() == 0 && fields@.len() == 0 && discriminant is None {
                        assert(logger.levels() =~= old(logger).levels());
                    }
                }
            },
            EnumVariant::Fieldless { attrs, name, discriminant, .. } => {
                logger.begin_indented("Fieldless Variant");
                log_attrs_group(logger, "Attributes", attrs);
                logger.set_last_at_indent_if(discriminant.is_none());
                proof {
                    if attrs@.len() == 0 {
                        assert(logger.levels() =~= old(logger).levels().push(discriminant is None));
                    }
                }
                logger.name_line("Name: ", *name);
                logger.set_last_at_indent();
                if let Some(discriminant) = discriminant {
                    logger.begin_last("Discriminant");
                    discriminant.log(logger);
                    logger.pop_indent();
                }
                logger.pop_indent();
                proof {
                    if attrs@.len() == 0 && discriminant is None {
                        assert(logger.levels() =~= old(logger).levels());
                    }
                }
            },
        }
    }

    open spec fn spec_log(&self, env: LogEnv, st: LogState) -> LogState
        decreases self, 0int,
    {
        let s1 = match *self {
            EnumVariant::Struct { attrs, name, fields, discriminant, .. } => {
                let s2 = st_begin_indented(env, st, "Struct Variant"@);
                let s3 = spec_log_attrs_group(env, s2, "Attributes"@, attrs@);
                let s4 = st_line(env, s3, "Name: "@, table_name_text(env.names, name));
                let s5 = st_set_last_if(s4, (discriminant is None));
                let s6 = spec_log_reg_fields_group(env, s5, "Fields"@, fields@);
                let s7 = st_set_last(s6);
                let s11 = match discriminant {
                    Some(discriminant) => {
                        let s8 = st_begin_last(env, s7, "Discriminant"@);
                        let s9 = discriminant.spec_log(env, s8);
                        let s10 = st_pop(s9);
                        s10
                    },
                    None => s7,
                };
                let s12 = st_pop(s11);
                s12
            },
            EnumVariant::Tuple { attrs, name, fields, discriminant, .. } => {
                let s13 = st_begin_indented(env, st, "Tuple Variant"@);
                let s14 = spec_log_attrs_group(env, s13, "Attributes"@, attrs@);
                let s15 = st_line(env, s14, "Name: "@, table_name_text(env.names, name));
                let s16 = st_set_last_if(s15, (discriminant is None));
                let s17 = spec_log_tuple_fields_group(env, s16, "Fields"@, fields@);
                let s18 = st_set_last(s17);
                let s22 = match discriminant {
                    Some(discriminant) => {
                        let s19 = st_begin_last(env, s18, "Discriminant"@);
                        let s20 = discriminant.spec_log(env, s19);
                        let s21 = st_pop(s20);
                        s21
                    },
                    None => s18,
                };
                let s23 = st_pop(s22);
                s23
            },
            EnumVariant::Fieldless { attrs, name, discriminant, .. } => {
                let s24 = st_begin_indented(env, st, "Fieldless Variant"@);
                let s25 = spec_log_attrs_group(env, s24, "Attributes"@, attrs@);
                let s26 = st_set_last_if(s25, (discriminant is None));
                let s27 = st_line(env, s26, "Name: "@, table_name_text(env.names, name));
                let s28 = st_set_last(s27);
                let s32 = match discriminant {
                    Some(discriminant) => {
                        let s29 = st_begin_last(env, s28, "Discriminant"@);
                        let s30 = discriminant.spec_log(env, s29);
                        let s31 = st_pop(s30);
                        s31
                    },
                    None => s28,
                };
                let s33 = st_pop(s32);
                s33
            },
        };
        s1
    }
}

impl AstNodeLog for FlagEnumVariant {
    fn log(&self, logger: &mut AstLogger)
        ensures
            is_prefix(old(logger).text() + old(logger).prefix() + "Flag Variant"@ + "\n"@, final(logger).text()),
        decreases self,
    {
        logger.begin_indented("Flag Variant");
        log_attrs_group(logger, "Attributes", &self.attrs);
        logger.name_line("Name: ", self.name);
        logger.set_last_at_indent();
        if let Some(discriminant) = &self.discriminant {
            logger.begin_last("Discriminant");
            discriminant.log(logger);
            logger.pop_indent();
        }
        logger.pop_indent();
    }

    open spec fn spec_log(&self, env: LogEnv, st: LogState) -> LogState
        decreases self, 0int,
    {
        let s1 = st_begin_indented(env, st, "Flag Variant"@);
        let s2 = spec_log_attrs_group(env, s1, "Attributes"@, self.attrs@);
        let s3 = st_line(env, s2, "Name: "@, table_name_text(env.names, self.name));
        let s4 = st_set_last(s3);
        let s8 = match self.discriminant {
            Some(discriminant) => {
                let s5 = st_begin_last(env, s4, "Discriminant"@);
                let s6 = discriminant.spec_log(env, s5);
                let s7 = st_pop(s6);
                s7
            },
            None => s4,
        };
        let s9 = st_pop(s8);
        s9
    }
}

impl AstNodeLog for Bitfield {
    fn log(&self, logger: &mut AstLogger)
        ensures
            is_prefix(old(logger).text() + old(logger).header("Bitfield"@), final(logger).text()),
        decreases self,
    {
        logger.begin_ast_node("Bitfield");
        log_attrs_group(logger, "Attributes", &self.attrs);
        log_vis(logger, &self.vis);
        logger.bool_line("Is Mut: ", self.is_mut);
        logger.bool_line("Is Record: ", self.is_record);
        logger.name_line("Name: ", self.name);
        logger.set_last_at_indent_if(self.bit_count.is_none() && self.where_clause.is_none() && self.fields.len() == 0);
        log_generics(logger, &self.generics);
        logger.set_last_at_indent_if(self.where_clause.is_none() && self.bit_count.is_none() && self.fields.len() == 0);
        if let Some(bits) = &self.bit_count {
            logger.begin_last("Bits");
            bits.log(logger);
            logger.pop_indent();
        }
        logger.set_last_at_indent_if(self.fields.len() == 0);
        log_where(logger, &self.where_clause);
        logger.set_last_at_indent();
        log_bitfield_fields_group(logger, "Fields", &self.fields);
        logger.pop_indent();
    }

    open spec fn spec_log(&self, env: LogEnv, st: LogState) -> LogState
        decreases self, 0int,
    {
        let s1 = st_begin_node(env, st, "Bitfield"@);
        let s2 = spec_log_attrs_group(env, s1, "Attributes"@, self.attrs@);
        let s3 = spec_log_vis(env, s2, self.vis);
        let s4 = st_line(env, s3, "Is Mut: "@, bool_text(self.is_mut));
        let s5 = st_line(env, s4, "Is Record: "@, bool_text(self.is_record));
        let s6 = st_line(env, s5, "Name: "@, table_name_text(env.names, self.name));
        let s7 = st_set_last_if(s6, (self.bit_count is None) && (self.where_clause is None) && self.fields.len() == 0);
        let s8 = spec_log_generics(env, s7, self.generics);
        let s9 = st_set_last_if(s8, (self.where_clause is None) && (self.bit_count is None) && self.fields.len() == 0);
        let s13 = match self.bit_count {
            Some(bits) => {
                let s10 = st_begin_last(env, s9, "Bits"@);
                let s11 = bits.spec_log(env, s10);
                let s12 = st_pop(s11);
                s12
            },
            None => s9,
        };
        let s14 = st_set_last_if(s13, self.fields.len() == 0);
        let s15 = spec_log_where(env, s14, self.where_clause);
        let s16 = st_set_last(s15);
        let s17 = spec_log_bitfield_fields_group(env, s16, "Fields"@, self.fields@);
        let s18 = st_pop(s17);
        s18
    }
}

impl AstNodeLog for BitfieldField {
    fn log(&self, logger: &mut AstLogger)
        ensures
            is_prefix(old(logger).text() + old(logger).prefix() + match self {
                BitfieldField::Field { .. } => "Field"@,
                BitfieldField::Use { .. } => "Use Field"@,
            } + "\n"@, final(logger).text()),
            match self {
                BitfieldField::Field { attrs, vis, is_mut, .. } => attrs@.len() == 0 && vis is None ==> is_prefix(
                    old(logger).text() + old(logger).prefix() + "Field"@ + "\n"@
                    + old(logger).prefix_for(old(logger).levels().push(false)) + "Is Mut: "@ + (if *is_mut { "true"@ } else { "false"@ }) + "\n"@, final(logger).text()),
                BitfieldField::Use { attrs, vis, is_mut, .. } => attrs@.len() == 0 && vis is None ==> is_prefix(
                    old(logger).text() + old(logger).prefix() + "Use Field"@ + "\n"@
                    + old(logger).prefix_for(old(logger).levels().push(false)) + "Is Mut: "@ + (if *is_mut { "true"@ } else { "false"@ }) + "\n"@, final(logger).text()),
            },
        decreases self,
    {
        match self {
            BitfieldField::Field { attrs, vis, is_mut, names, ty, bits, def, .. } => {
                logger.begin_indented("Field");
                log_attrs_group(logger, "Attributes", attrs);
                log_vis(logger, vis);
                logger.bool_line("Is Mut: ", *is_mut);
                logger.name_group("Names", "Name: ", names);
                logger.set_last_at_indent_if(bits.is_none() && def.is_none());
                logger.begin_last("Type");
                ty.log(logger);
                logger.pop_indent();
                logger.set_last_at_indent_if(def.is_none());
                if let Some(bits) = bits {
                    logger.begin_last("Bits");
                    bits.log(logger);
                    logger.pop_indent();
                }
                logger.set_last_at_indent();
                if let Some(def) = def {
                    logger.begin_last("Default Value");
                    def.log(logger);
                    logger.pop_indent();
                }
                logger.pop_indent();
            },
            BitfieldField::Use { attrs, vis, is_mut, path, bits, .. } => {
                logger.begin_indented("Use Field");
                log_attrs_group(logger, "Attributes", attrs);
                log_vis(logger, vis);
                logger.bool_line("Is Mut: ", *is_mut);
                logger.set_last_at_indent_if(bits.is_none());
                logger.begin_last("Path");
                logger.enter_node(path.node_id());
                path.log(logger);
                logger.pop_indent();
                logger.set_last_at_indent();
                if let Some(bits) = bits {
                    logger.begin_last("Bits");
                    bits.log(logger);
                    logger.pop_indent();
                }
                logger.pop_indent();
            },
        }
    }

    open spec fn spec_log(&self, env: LogEnv, st: LogState) -> LogState
        decreases self, 0int,
    {
        let s1 = match *self {
            BitfieldField::Field { attrs, vis, is_mut, names, ty, bits, def, .. } => {
                let s2 = st_begin_indented(env, st, "Field"@);
                let s3 = spec_log_attrs_group(env, s2, "Attributes"@, attrs@);
                let s4 = spec_log_vis(env, s3, vis);
                let s5 = st_line(env, s4, "Is Mut: "@, bool_text(is_mut));
                let s6 = st_name_group(env, s5, "Names"@, "Name: "@, names@);
                let s7 = st_set_last_if(s6, (bits is None) && (def is None));
                let s8 = st_begin_last(env, s7, "Type"@);
                let s9 = ty.spec_log(env, s8);
                let s10 = st_pop(s9);
                let s11 = st_set_last_if(s10, (def is None));
                let s15 = match bits {
                    Some(bits) => {
                        let s12 = st_begin_last(env, s11, "Bits"@);
                        let s13 = bits.spec_log(env, s12);
                        let s14 = st_pop(s13);
                        s14
                    },
                    None => s11,
                };
                let s16 = st_set_last(s15);
                let s20 = match def {
                    Some(def) => {
                        let s17 = st_begin_last(env, s16, "Default Value"@);
                        let s18 = def.spec_log(env, s17);
                        let s19 = st_pop(s18);
                        s19
                    },
                    None => s16,
                };
                let s21 = st_pop(s20);
                s21
            },
            BitfieldField::Use { attrs, vis, is_mut, path, bits, .. } => {
                let s22 = st_begin_indented(env, st, "Use Field"@);
                let s23 = spec_log_attrs_group(env, s22, "Attributes"@, attrs@);
                let s24 = spec_log_vis(env, s23, vis);
                let s25 = st_line(env, s24, "Is Mut: "@, bool_text(is_mut));
                let s26 = st_set_last_if(s25, (bits is None));
                let s27 = st_begin_last(env, s26, "Path"@);
                let s28 = st_enter(s27, path.spec_node_id());
                let s29 = path.spec_log(env, s28);
                let s30 = st_pop(s29);
                let s31 = st_set_last(s30);
                let s35 = match bits {
                    Some(bits) => {
                        let s32 = st_begin_last(env, s31, "Bits"@);
                        let s33 = bits.spec_log(env, s32);
                        let s34 = st_pop(s33);
                        s34
                    },
                    None => s31,
                };
                let s36 = st_pop(s35);
                s36
            },
        };
        s1
    }
}

impl AstNodeLog for Const {
    fn log(&self, logger: &mut AstLogger)
        ensures
            is_prefix(old(logger).text() + old(logger).header("Const Item"@), final(logger).text()),
        decreases self,
    {
        logger.begin_ast_node("Const Item");
        logger.name_line("Name: ", self.name);
        if let Some(ty) = &self.ty {
            logger.begin_last("Type");
            ty.log(logger);
            logger.pop_indent();
        }
        logger.set_last_at_indent();
        logger.begin_last("Value");
        self.val.log(logger);
        logger.pop_indent();
        logger.pop_indent();
    }

    open spec fn spec_log(&self, env: LogEnv, st: LogState) -> LogState
        decreases self, 0int,
    {
        let s1 = st_begin_node(env, st, "Const Item"@);
        let s2 = st_line(env, s1, "Name: "@, table_name_text(env.names, self.name));
        let s6 = match self.ty {
            Some(ty) => {
                let s3 = st_begin_last(env, s2, "Type"@);
                let s4 = ty.spec_log(env, s3);
                let s5 = st_pop(s4);
                s5
            },
            None => s2,
        };
        let s7 = st_set_last(s6);
        let s8 = st_begin_last(env, s7, "Value"@);
        let s9 = self.val.spec_log(env, s8);
        let s10 = st_pop(s9);
        let s11 = st_pop(s10);
        s11
    }
}

impl AstNodeLog for Static {
    fn log(&self, logger: &mut AstLogger)
        ensures
            is_prefix(old(logger).text() + old(logger).header(match self {
                Static::Static { .. } => "Static"@,
                Static::Tls { .. } => "Tls Static"@,
                Static::Extern { .. } => "Extern Static"@,
            }), final(logger).text()),
            match self {
                Static::Static { attrs, vis, name, .. } => attrs@.len() == 0 && vis is None ==> is_prefix(
                    old(logger).text() + old(logger).header("Static"@) + old(logger).prefix_for(old(logger).levels().push(false)) + "Name: "@ + old(logger).name_text(*name) + "\n"@, final(logger).text()),
                Static::Tls { attrs, vis, is_mut, name, .. } => attrs@.len() == 0 && vis is None ==> is_prefix(
                    old(logger).text() + old(logger).header("Tls Static"@)
                    + old(logger).prefix_for(old(logger).levels().push(false)) + "Is Mut: "@ + (if *is_mut { "true"@ } else { "false"@ }) + "\n"@ + old(logger).prefix_for(old(logger).levels().push(false)) + "Name: "@ + old(logger).name_text(*name) + "\n"@, final(logger).text()),
                Static::Extern { attrs, vis, abi, is_mut, name, .. } => attrs@.len() == 0 && vis is None ==> is_prefix(
                    old(logger).text() + old(logger).header("Extern Static"@)
                    + old(logger).prefix_for(old(logger).levels().push(false)) + "ABI: "@ + old(logger).literal_text(*abi) + "\n"@
                    + old(logger).prefix_for(old(logger).levels().push(false)) + "Is Mut: "@ + (if *is_mut { "true"@ } else { "false"@ }) + "\n"@ + old(logger).prefix_for(old(logger).levels().push(false)) + "Name: "@ + old(logger).name_text(*name) + "\n"@, final(logger).text()),
            },
        decreases self,
    {
        match self {
            Static::Static { attrs, vis, name, ty, val, .. } => {
                logger.begin_ast_node("Static");
                log_attrs_group(logger, "Attributes", attrs);
                log_vis(logger, vis);
                logger.name_line("Name: ", *name);
                if let Some(ty) = ty {
                    logger.begin_last("Type");
                    ty.log(logger);
                    logger.pop_indent();
                }
                logger.set_last_at_indent();
                logger.begin_last("Val");
                val.log(logger);
                logger.pop_indent();
                logger.pop_indent();
            },
            Static::Tls { attrs, vis, is_mut, name, ty, val, .. } => {
                logger.begin_ast_node("Tls Static");
                log_attrs_group(logger, "Attributes", attrs);
                log_vis(logger, vis);
                logger.bool_line("Is Mut: ", *is_mut);
                logger.name_line("Name: ", *name);
                if let Some(ty) = ty {
                    logger.begin_last("Type");
                    ty.log(logger);
                    logger.pop_indent();
                }
                logger.set_last_at_indent();
                logger.begin_last("Val");
                val.log(logger);
                logger.pop_indent();
                logger.pop_indent();
            },
            Static::Extern { attrs, vis, abi, is_mut, name, ty, .. } => {
                logger.begin_ast_node("Extern Static");
                log_attrs_group(logger, "Attributes", attrs);
                log_vis(logger, vis);
                logger.literal_line("ABI: ", *abi);
                logger.bool_line("Is Mut: ", *is_mut);
                logger.name_line("Name: ", *name);
                logger.set_last_at_indent();
                logger.begin_last("Type");
                ty.log(logger);
                logger.pop_indent();
                logger.pop_indent();
            },
        }
    }

    open spec fn spec_log(&self, env: LogEnv, st: LogState) -> LogState
        decreases self, 0int,
    {
        let s1 = match *self {
            Static::Static { attrs, vis, name, ty, val, .. } => {
                let s2 = st_begin_node(env, st, "Static"@);
                let s3 = spec_log_attrs_group(env, s2, "Attributes"@, attrs@);
                let s4 = spec_log_vis(env, s3, vis);
                let s5 = st_line(env, s4, "Name: "@, table_name_text(env.names, name));
                let s9 = match ty {
                    Some(ty) => {
                        let s6 = st_begin_last(env, s5, "Type"@);
                        let s7 = ty.spec_log(env, s6);
                        let s8 = st_pop(s7);
                        s8
                    },
                    None => s5,
                };
                let s10 = st_set_last(s9);
                let s11 = st_begin_last(env, s10, "Val"@);
                let s12 = val.spec_log(env, s11);
                let s13 = st_pop(s12);
                let s14 = st_pop(s13);
                s14
            },
            Static::Tls { attrs, vis, is_mut, name, ty, val, .. } => {
                let s15 = st_begin_node(env, st, "Tls Static"@);
                let s16 = spec_log_attrs_group(env, s15, "Attributes"@, attrs@);
                let s17 = spec_log_vis(env, s16, vis);
                let s18 = st_line(env, s17, "Is Mut: "@, bool_text(is_mut));
                let s19 = st_line(env, s18, "Name: "@, table_name_text(env.names, name));
                let s23 = match ty {
                    Some(ty) => {
                        let s20 = st_begin_last(env, s19, "Type"@);
                        let s21 = ty.spec_log(env, s20);
                        let s22 = st_pop(s21);
                        s22
                    },
                    None => s19,
                };
                let s24 = st_set_last(s23);
                let s25 = st_begin_last(env, s24, "Val"@);
                let s26 = val.spec_log(env, s25);
                let s27 = st_pop(s26);
                let s28 = st_pop(s27);
                s28
            },
            Static::Extern { attrs, vis, abi, is_mut, name, ty, .. } => {
                let s29 = st_begin_node(env, st, "Extern Static"@);
                let s30 = spec_log_attrs_group(env, s29, "Attributes"@, attrs@);
                let s31 = spec_log_vis(env, s30, vis);
                let s32 = st_line(env, s31, "ABI: "@, table_literal_text(env.literals, abi));
                let s33 = st_line(env, s32, "Is Mut: "@, bool_text(is_mut));
                let s34 = st_line(env, s33, "Name: "@, table_name_text(env.names, name));
                let s35 = st_set_last(s34);
                let s36 = st_begin_last(env, s35, "Type"@);
                let s37 = ty.spec_log(env, s36);
                let s38 = st_pop(s37);
                let s39 = st_pop(s38);
                s39
            },
        };
        s1
    }
}

impl AstNodeLog for Property {
    fn log(&self, logger: &mut AstLogger)
        ensures
            is_prefix(old(logger).text() + old(logger).header("Assoc Property"@), final(logger).text()),
        decreases self,
    {
        logger.begin_ast_node("Assoc Property");
        log_attrs_group(logger, "Attributes", &self.attrs);
        log_vis(logger, &self.vis);
        logger.bool_line("Is Unsafe: ", self.is_unsafe);
        logger.name_line("Name: ", self.name);
        self.body.log(logger);
        logger.pop_indent();
    }

    open spec fn spec_log(&self, env: LogEnv, st: LogState) -> LogState
        decreases self, 0int,
    {
        let s1 = st_begin_node(env, st, "Assoc Property"@);
        let s2 = spec_log_attrs_group(env, s1, "Attributes"@, self.attrs@);
        let s3 = spec_log_vis(env, s2, self.vis);
        let s4 = st_line(env, s3, "Is Unsafe: "@, bool_text(self.is_unsafe));
        let s5 = st_line(env, s4, "Name: "@, table_name_text(env.names, self.name));
        let s6 = self.body.spec_log(env, s5);
        let s7 = st_pop(s6);
        s7
    }
}

impl AstNodeLog for PropertyBody {
    fn log(&self, logger: &mut AstLogger)
        decreases self,
    {
        match self {
            PropertyBody::Assoc { get, ref_get, mut_get, set } => {
                logger.set_last_at_indent_if(ref_get.is_none() && mut_get.is_none() && set.is_none());
                if let Some((_, get)) = get {
                    logger.begin_indented("Get");
                    get.log(logger);
                    logger.pop_indent();
                }
                logger.set_last_at_indent_if(mut_get.is_none() && set.is_none());
                if let Some((_, ref_get)) = ref_get {
                    logger.begin_indented("Ref Get");
                    ref_get.log(logger);
                    logger.pop_indent();
                }
                logger.set_last_at_indent_if(set.is_none());
                if let Some((_, mut_get)) = mut_get {
                    logger.begin_indented("Mut Get");
                    mut_get.log(logger);
                    logger.pop_indent();
                }
                logger.set_last_at_indent();
                if let Some((_, set)) = set {
                    logger.begin_indented("Set");
                    set.log(logger);
                    logger.pop_indent();
                }
            },
            PropertyBody::Trait { has_get, has_ref_get, has_mut_get, has_set } => {
                logger.bool_line("Has Get: ", has_get.is_some());
                logger.bool_line("Has Ref Get: ", has_ref_get.is_some());
                logger.bool_line("Has Mut Get: ", has_mut_get.is_some());
                logger.bool_line("Has Set: ", has_set.is_some());
            },
        }
    }

    open spec fn spec_log(&self, env: LogEnv, st: LogState) -> LogState
        decreases self, 0int,
    {
        let s1 = match *self {
            PropertyBody::Assoc { get, ref_get, mut_get, set } => {
                let s2 = st_set_last_if(st, (ref_get is None) && (mut_get is None) && (set is None));
                let s6 = match get {
                    Some((_, get)) => {
                        let s3 = st_begin_indented(env, s2, "Get"@);
                        let s4 = get.spec_log(env, s3);
                        let s5 = st_pop(s4);
                        s5
                    },
                    None => s2,
                };
                let s7 = st_set_last_if(s6, (mut_get is None) && (set is None));
                let s11 = match ref_get {
                    Some((_, ref_get)) => {
                        let s8 = st_begin_indented(env, s7, "Ref Get"@);
                        let s9 = ref_get.spec_log(env, s8);
                        let s10 = st_pop(s9);
                        s10
                    },
                    None => s7,
                };
                let s12 = st_set_last_if(s11, (set is None));
                let s16 = match mut_get {
                    Some((_, mut_get)) => {
                        let s13 = st_begin_indented(env, s12, "Mut Get"@);
                        let s14 = mut_get.spec_log(env, s13);
                        let s15 = st_pop(s14);
                        s15
                    },
                    None => s12,
                };
                let s17 = st_set_last(s16);
                let s21 = match set {
                    Some((_, set)) => {
                        let s18 = st_begin_indented(env, s17, "Set"@);
                        let s19 = set.spec_log(env, s18);
                        let s20 = st_pop(s19);
                        s20
                    },
                    None => s17,
                };
                s21
            },
            PropertyBody::Trait { has_get, has_ref_get, has_mut_get, has_set } => {
                let s22 = st_line(env, st, "Has Get: "@, bool_text((has_get is Some)));
                let s23 = st_line(env, s22, "Has Ref Get: "@, bool_text((has_ref_get is Some)));
                let s24 = st_line(env, s23, "Has Mut Get: "@, bool_text((has_mut_get is Some)));
                let s25 = st_line(env, s24, "Has Set: "@, bool_text((has_set is Some)));
                s25
            },
        };
        s1
    }
}

impl AstNodeLog for Trait {
    fn log(&self, logger: &mut AstLogger)
        ensures
            is_prefix(old(logger).text() + old(logger).header("Trait"@), final(logger).text()),
        decreases self,
    {
        logger.begin_ast_node("Trait");
        log_attrs_group(logger, "Attributes", &self.attrs);
        log_vis(logger, &self.vis);
        logger.bool_line("Is Unsafe: ", self.is_unsafe);
        logger.bool_line("Is Sealed: ", self.is_sealed);
        logger.name_line("Name: ", self.name);
        logger.set_last_at_indent_if(self.assoc_items.len() == 0);
        if let Some(bounds) = &self.bounds {
            let prev = logger.enter_node(bounds.node_id());
            bounds.log(logger);
            logger.enter_node(prev);
        }
        logger.set_last_at_indent();
        log_trait_items_group(logger, "Associated Items", &self.assoc_items);
        logger.pop_indent();
    }

    open spec fn spec_log(&self, env: LogEnv, st: LogState) -> LogState
        decreases self, 0int,
    {
        let s1 = st_begin_node(env, st, "Trait"@);
        let s2 = spec_log_attrs_group(env, s1, "Attributes"@, self.attrs@);
        let s3 = spec_log_vis(env, s2, self.vis);
        let s4 = st_line(env, s3, "Is Unsafe: "@, bool_text(self.is_unsafe));
        let s5 = st_line(env, s4, "Is Sealed: "@, bool_text(self.is_sealed));
        let s6 = st_line(env, s5, "Name: "@, table_name_text(env.names, self.name));
        let s7 = st_set_last_if(s6, self.assoc_items.len() == 0);
        let s11 = match self.bounds {
            Some(bounds) => {
                let prev = s7.node;
                let s8 = st_enter(s7, bounds.spec_node_id());
                let s9 = bounds.spec_log(env, s8);
                let s10 = st_enter(s9, prev);
                s10
            },
            None => s7,
        };
        let s12 = st_set_last(s11);
        let s13 = spec_log_trait_items_group(env, s12, "Associated Items"@, self.assoc_items@);
        let s14 = st_pop(s13);
        s14
    }
}

impl AstNodeLog for TraitFunction {
    fn log(&self, logger: &mut AstLogger)
        ensures
            is_prefix(old(logger).text() + old(logger).header("Trait Function"@), final(logger).text()),
        decreases self,
    {
        logger.begin_ast_node("Trait Function");
        log_attrs_group(logger, "Attributes", &self.attrs);
        logger.bool_line("Is Const: ", self.is_const);
        logger.bool_line("Is Unsafe: ", self.is_unsafe);
        logger.set_last_at_indent_if(self.generics.is_none() && self.params.len() == 0 && self.body.is_none());
        logger.name_line("Name: ", self.name);
        logger.set_last_at_indent_if(self.params.len() == 0 && self.body.is_none());
        log_generics(logger, &self.generics);
        logger.set_last_at_indent_if(self.body.is_none());
        log_fn_params_group(logger, "Params", &self.params);
        if let Some(ret) = &self.returns {
            ret.log(logger);
        }
        logger.set_last_at_indent();
        if let Some(body) = &self.body {
            let prev = logger.enter_node(body.node_id());
            body.log(logger);
            logger.enter_node(prev);
        }
        logger.pop_indent();
    }

    open spec fn spec_log(&self, env: LogEnv, st: LogState) -> LogState
        decreases self, 0int,
    {
        let s1 = st_begin_node(env, st, "Trait Function"@);
        let s2 = spec_log_attrs_group(env, s1, "Attributes"@, self.attrs@);
        let s3 = st_line(env, s2, "Is Const: "@, bool_text(self.is_const));
        let s4 = st_line(env, s3, "Is Unsafe: "@, bool_text(self.is_unsafe));
        let s5 = st_set_last_if(s4, (self.generics is None) && self.params.len() == 0 && (self.body is None));
        let s6 = st_line(env, s5, "Name: "@, table_name_text(env.names, self.name));
        let s7 = st_set_last_if(s6, self.params.len() == 0 && (self.body is None));
        let s8 = spec_log_generics(env, s7, self.generics);
        let s9 = st_set_last_if(s8, (self.body is None));
        let s10 = spec_log_fn_params_group(env, s9, "Params"@, self.params@);
        let s12 = match self.returns {
            Some(ret) => {
                let s11 = ret.spec_log(env, s10);
                s11
            },
            None => s10,
        };
        let s13 = st_set_last(s12);
        let s17 = match self.body {
            Some(body) => {
                let prev = s13.node;
                let s14 = st_enter(s13, body.spec_node_id());
                let s15 = body.spec_log(env, s14);
                let s16 = st_enter(s15, prev);
                s16
            },
            None => s13,
        };
        let s18 = st_pop(s17);
        s18
    }
}

impl AstNodeLog for TraitMethod {
    #[verifier::rlimit(40)]
    fn log(&self, logger: &mut AstLogger)
        ensures
            is_prefix(old(logger).text() + old(logger).header("Trait Method"@), final(logger).text()),
        decreases self,
    {
        logger.begin_ast_node("Trait Method");
        log_attrs_group(logger, "Attributes", &self.attrs);
        logger.bool_line("Is Const: ", self.is_const);
        logger.bool_line("Is Unsafe: ", self.is_unsafe);
        logger.name_line("Name: ", self.name);
        log_generics(logger, &self.generics);
        logger.set_last_at_indent_if(self.params.len() == 0 && self.returns.is_none() && self.body.is_none());
        self.receiver.log(logger);
        logger.set_last_at_indent_if(self.returns.is_none() && self.body.is_none());
        log_fn_params_group(logger, "Params", &self.params);
        logger.set_last_at_indent_if(self.body.is_none());
        if let Some(ret) = &self.returns {
            ret.log(logger);
        }
        logger.set_last_at_indent();
        if let Some(body) = &self.body {
            let prev = logger.enter_node(body.node_id());
            body.log(logger);
            logger.enter_node(prev);
        }
        logger.pop_indent();
    }

    open spec fn spec_log(&self, env: LogEnv, st: LogState) -> LogState
        decreases self, 0int,
    {
        let s1 = st_begin_node(env, st, "Trait Method"@);
        let s2 = spec_log_attrs_group(env, s1, "Attributes"@, self.attrs@);
        let s3 = st_line(env, s2, "Is Const: "@, bool_text(self.is_const));
        let s4 = st_line(env, s3, "Is Unsafe: "@, bool_text(self.is_unsafe));
        let s5 = st_line(env, s4, "Name: "@, table_name_text(env.names, self.name));
        let s6 = spec_log_generics(env, s5, self.generics);
        let s7 = st_set_last_if(s6, self.params.len() == 0 && (self.returns is None) && (self.body is None));
        let s8 = self.receiver.spec_log(env, s7);
        let s9 = st_set_last_if(s8, (self.returns is None) && (self.body is None));
        let s10 = spec_log_fn_params_group(env, s9, "Params"@, self.params@);
        let s11 = st_set_last_if(s10, (self.body is None));
        let s13 = match self.returns {
            Some(ret) => {
                let s12 = ret.spec_log(env, s11);
                s12
            },
            None => s11,
        };
        let s14 = st_set_last(s13);
        let s18 = match self.body {
            Some(body) => {
                let prev = s14.node;
                let s15 = st_enter(s14, body.spec_node_id());
                let s16 = body.spec_log(env, s15);
                let s17 = st_enter(s16, prev);
                s17
            },
            None => s14,
        };
        let s19 = st_pop(s18);
        s19
    }
}

impl AstNodeLog for TraitTypeAlias {
    fn log(&self, logger: &mut AstLogger)
        ensures
            is_prefix(old(logger).text() + old(logger).header("Trait Typealias"@), final(logger).text()),
        decreases self,
    {
        logger.begin_ast_node("Trait Typealias");
        log_attrs_group(logger, "Attributes", &self.attrs);
        logger.name_line("Name: ", self.name);
        logger.set_last_at_indent_if(self.bounds.len() == 0 && self.def.is_none());
        log_generics(logger, &self.generics);
        logger.set_last_at_indent_if(self.def.is_none());
        log_type_bounds_group(logger, "Bounds", &self.bounds);
        logger.set_last_at_indent();
        if let Some(def) = &self.def {
            logger.begin_last("Default");
            def.log(logger);
            logger.pop_indent();
        }
        logger.pop_indent();
    }

    open spec fn spec_log(&self, env: LogEnv, st: LogState) -> LogState
        decreases self, 0int,
    {
        let s1 = st_begin_node(env, st, "Trait Typealias"@);
        let s2 = spec_log_attrs_group(env, s1, "Attributes"@, self.attrs@);
        let s3 = st_line(env, s2, "Name: "@, table_name_text(env.names, self.name));
        let s4 = st_set_last_if(s3, self.bounds.len() == 0 && (self.def is None));
        let s5 = spec_log_generics(env, s4, self.generics);
        let s6 = st_set_last_if(s5, (self.def is None));
        let s7 = spec_log_type_bounds_group(env, s6, "Bounds"@, self.bounds@);
        let s8 = st_set_last(s7);
        let s12 = match self.def {
            Some(def) => {
                let s9 = st_begin_last(env, s8, "Default"@);
                let s10 = def.spec_log(env, s9);
                let s11 = st_pop(s10);
                s11
            },
            None => s8,
        };
        let s13 = st_pop(s12);
        s13
    }
}

impl AstNodeLog for TraitConst {
    fn log(&self, logger: &mut AstLogger)
        ensures
            is_prefix(old(logger).text() + old(logger).header("Trait Const"@), final(logger).text()),
        decreases self,
    {
        logger.begin_ast_node("Trait Const");
        log_attrs_group(logger, "Attributes", &self.attrs);
        logger.name_line("Name: ", self.name);
        logger.set_last_at_indent_if(self.def.is_none());
        logger.begin_last("Type");
        self.ty.log(logger);
        logger.pop_indent();
        logger.set_last_at_indent();
        if let Some(def) = &self.def {
            logger.begin_last("Default");
            def.log(logger);
            logger.pop_indent();
        }
        logger.pop_indent();
    }

    open spec fn spec_log(&self, env: LogEnv, st: LogState) -> LogState
        decreases self, 0int,
    {
        let s1 = st_begin_node(env, st, "Trait Const"@);
        let s2 = spec_log_attrs_group(env, s1, "Attributes"@, self.attrs@);
        let s3 = st_line(env, s2, "Name: "@, table_name_text(env.names, self.name));
        let s4 = st_set_last_if(s3, (self.def is None));
        let s5 = st_begin_last(env, s4, "Type"@);
        let s6 = self.ty.spec_log(env, s5);
        let s7 = st_pop(s6);
        let s8 = st_set_last(s7);
        let s12 = match self.def {
            Some(def) => {
                let s9 = st_begin_last(env, s8, "Default"@);
                let s10 = def.spec_log(env, s9);
                let s11 = st_pop(s10);
                s11
            },
            None => s8,
        };
        let s13 = st_pop(s12);
        s13
    }
}

/// The state after one accessor of a trait property, where there is one:
/// the line `label`, then its default body, where it has one, one level deeper.
pub open spec fn spec_log_trait_accessor(env: LogEnv, st: LogState, label: Seq<char>, accessor: Option<(SpanId, Option<Expr>)>) -> LogState
    decreases accessor, 0int,
{
    match accessor {
        Some((_, def)) => {
            let begun = st_set_last(st_begin_indented(env, st, label));
            let body = match def {
                Some(def) => def.spec_log(env, begun),
                None => begun,
            };
            st_pop(body)
        },
        None => st,
    }
}

/// One accessor of a trait property: the line `label`, then its default
/// body, where it has one, one level deeper.
fn log_trait_accessor(logger: &mut AstLogger, label: &str, accessor: &Option<(SpanId, Option<Expr>)>)
    ensures
        final(logger).state() == spec_log_trait_accessor(old(logger).env(), old(logger).state(), label@, *accessor),
        old(logger).appends(final(logger)),
        final(logger).levels().len() == old(logger).levels().len(),
    decreases accessor,
{
    if let Some((_, def)) = accessor {
        logger.begin_indented(label);
        logger.set_last_at_indent();
        if let Some(def) = def {
            def.log(logger);
        }
        logger.pop_indent();
    }
}

impl AstNodeLog for TraitProperty {
    fn log(&self, logger: &mut AstLogger)
        ensures
            is_prefix(old(logger).text() + old(logger).header("Trait Property"@), final(logger).text()),
        decreases self,
    {
        logger.begin_ast_node("Trait Property");
        log_attrs_group(logger, "Attributes", &self.attrs);
        logger.bool_line("Is Unsafe: ", self.is_unsafe);
        logger.name_line("Name: ", self.name);
        logger.set_last_at_indent_if(self.get.is_none() && self.ref_get.is_none() && self.mut_get.is_none() && self.set.is_none());
        logger.begin_last("Type");
        self.ty.log(logger);
        logger.pop_indent();
        logger.set_last_at_indent_if(self.ref_get.is_none() && self.mut_get.is_none() && self.set.is_none());
        log_trait_accessor(logger, "Get", &self.get);
        logger.set_last_at_indent_if(self.mut_get.is_none() && self.set.is_none());
        log_trait_accessor(logger, "Ref Get", &self.ref_get);
        logger.set_last_at_indent_if(self.set.is_none());
        log_trait_accessor(logger, "Mut Get", &self.mut_get);
        logger.set_last_at_indent();
        log_trait_accessor(logger, "Set", &self.set);
        logger.pop_indent();
    }

    open spec fn spec_log(&self, env: LogEnv, st: LogState) -> LogState
        decreases self, 0int,
    {
        let s1 = st_begin_node(env, st, "Trait Property"@);
        let s2 = spec_log_attrs_group(env, s1, "Attributes"@, self.attrs@);
        let s3 = st_line(env, s2, "Is Unsafe: "@, bool_text(self.is_unsafe));
        let s4 = st_line(env, s3, "Name: "@, table_name_text(env.names, self.name));
        let s5 = st_set_last_if(s4, (self.get is None) && (self.ref_get is None) && (self.mut_get is None) && (self.set is None));
        let s6 = st_begin_last(env, s5, "Type"@);
        let s7 = self.ty.spec_log(env, s6);
        let s8 = st_pop(s7);
        let s9 = st_set_last_if(s8, (self.ref_get is None) && (self.mut_get is None) && (self.set is None));
        let s10 = spec_log_trait_accessor(env, s9, "Get"@, self.get);
        let s11 = st_set_last_if(s10, (self.mut_get is None) && (self.set is None));
        let s12 = spec_log_trait_accessor(env, s11, "Ref Get"@, self.ref_get);
        let s13 = st_set_last_if(s12, (self.set is None));
        let s14 = spec_log_trait_accessor(env, s13, "Mut Get"@, self.mut_get);
        let s15 = st_set_last(s14);
        let s16 = spec_log_trait_accessor(env, s15, "Set"@, self.set);
        let s17 = st_pop(s16);
        s17
    }
}

impl AstNodeLog for Impl {
    fn log(&self, logger: &mut AstLogger)
        ensures
            is_prefix(old(logger).text() + old(logger).header("Impl"@), final(logger).text()),
        decreases self,
    {
        logger.begin_ast_node("Impl");
        log_attrs_group(logger, "Attributes", &self.attrs);
        log_vis(logger, &self.vis);
        logger.bool_line("Is Unsafe: ", self.is_unsafe);
        logger.set_last_at_indent_if(self.impl_trait.is_none() && self.where_clause.is_none() && self.assoc_items.len() == 0);
        logger.begin_last("Type");
        self.ty.log(logger);
        logger.pop_indent();
        logger.set_last_at_indent_if(self.where_clause.is_none() && self.assoc_items.len() == 0);
        if let Some(impl_trait) = &self.impl_trait {
            logger.begin_last("Impl Trait");
            logger.enter_node(impl_trait.node_id());
            impl_trait.log(logger);
            logger.pop_indent();
        }
        logger.set_last_at_indent_if(self.assoc_items.len() == 0);
        log_where(logger, &self.where_clause);
        logger.set_last_at_indent();
        log_assoc_items_group(logger, "Associated Items", &self.assoc_items);
        logger.pop_indent();
    }

    open spec fn spec_log(&self, env: LogEnv, st: LogState) -> LogState
        decreases self, 0int,
    {
        let s1 = st_begin_node(env, st, "Impl"@);
        let s2 = spec_log_attrs_group(env, s1, "Attributes"@, self.attrs@);
        let s3 = spec_log_vis(env, s2, self.vis);
        let s4 = st_line(env, s3, "Is Unsafe: "@, bool_text(self.is_unsafe));
        let s5 = st_set_last_if(s4, (self.impl_trait is None) && (self.where_clause is None) && self.assoc_items.len() == 0);
        let s6 = st_begin_last(env, s5, "Type"@);
        let s7 = self.ty.spec_log(env, s6);
        let s8 = st_pop(s7);
        let s9 = st_set_last_if(s8, (self.where_clause is None) && self.assoc_items.len() == 0);
        let s14 = match self.impl_trait {
            Some(impl_trait) => {
                let s10 = st_begin_last(env, s9, "Impl Trait"@);
                let s11 = st_enter(s10, impl_trait.spec_node_id());
                let s12 = impl_trait.spec_log(env, s11);
                let s13 = st_pop(s12);
                s13
            },
            None => s9,
        };
        let s15 = st_set_last_if(s14, self.assoc_items.len() == 0);
        let s16 = spec_log_where(env, s15, self.where_clause);
        let s17 = st_set_last(s16);
        let s18 = spec_log_assoc_items_group(env, s17, "Associated Items"@, self.assoc_items@);
        let s19 = st_pop(s18);
        s19
    }
}

impl AstNodeLog for ExternBlock {
    fn log(&self, logger: &mut AstLogger)
        ensures
            is_prefix(old(logger).text() + old(logger).header("Extern Block"@), final(logger).text()),
        decreases self,
    {
        logger.begin_ast_node("Extern Block");
        log_attrs_group(logger, "Attributes", &self.attrs);
        log_vis(logger, &self.vis);
        logger.literal_line("ABI: ", self.abi);
        logger.set_last_at_indent();
        log_extern_items_group(logger, "Extern Items", &self.items);
        logger.pop_indent();
    }

    open spec fn spec_log(&self, env: LogEnv, st: LogState) -> LogState
        decreases self, 0int,
    {
        let s1 = st_begin_node(env, st, "Extern Block"@);
        let s2 = spec_log_attrs_group(env, s1, "Attributes"@, self.attrs@);
        let s3 = spec_log_vis(env, s2, self.vis);
        let s4 = st_line(env, s3, "ABI: "@, table_literal_text(env.literals, self.abi));
        let s5 = st_set_last(s4);
        let s6 = spec_log_extern_items_group(env, s5, "Extern Items"@, self.items@);
        let s7 = st_pop(s6);
        s7
    }
}

impl AstNodeLog for OpTrait {
    fn log(&self, logger: &mut AstLogger)
        ensures
            is_prefix(old(logger).text() + old(logger).header(match self {
                OpTrait::Base { .. } => "Operator Trait"@,
                OpTrait::Extended { .. } => "Operator Extension"@,
            }), final(logger).text()),
        decreases self,
    {
        match self {
            OpTrait::Base { attrs, vis, name, precedence, elems, .. } => {
                logger.begin_ast_node("Operator Trait");
                log_attrs_group(logger, "Attributes", attrs);
                log_vis(logger, vis);
                logger.set_last_at_indent_if(precedence.is_none() && elems.len() == 0);
                logger.name_line("Name: ", *name);
                logger.set_last_at_indent_if(elems.len() == 0);
                if let Some(precedence) = precedence {
                    logger.log("Precedence: ");
                    logger.log_name(*precedence);
                }
                logger.set_last_at_indent();
                log_op_elems_group(logger, "Elements", elems);
                logger.pop_indent();
            },
            OpTrait::Extended { attrs, vis, name, bases, elems, .. } => {
                logger.begin_ast_node("Operator Extension");
                log_attrs_group(logger, "Attributes", attrs);
                log_vis(logger, vis);
                logger.name_line("Name: ", *name);
                logger.set_last_at_indent_if(elems.len() == 0);
                logger.spanned_name_group("Bases", "Base: ", bases);
                logger.set_last_at_indent();
                log_op_elems_group(logger, "Elements", elems);
                logger.pop_indent();
            },
        }
    }

    open spec fn spec_log(&self, env: LogEnv, st: LogState) -> LogState
        decreases self, 0int,
    {
        let s1 = match *self {
            OpTrait::Base { attrs, vis, name, precedence, elems, .. } => {
                let s2 = st_begin_node(env, st, "Operator Trait"@);
                let s3 = spec_log_attrs_group(env, s2, "Attributes"@, attrs@);
                let s4 = spec_log_vis(env, s3, vis);
                let s5 = st_set_last_if(s4, (precedence is None) && elems.len() == 0);
                let s6 = st_line(env, s5, "Name: "@, table_name_text(env.names, name));
                let s7 = st_set_last_if(s6, elems.len() == 0);
                let s10 = match precedence {
                    Some(precedence) => {
                        let s8 = st_log(s7, "Precedence: "@);
                        let s9 = st_log(s8, table_name_text(env.names, precedence));
                        s9
                    },
                    None => s7,
                };
                let s11 = st_set_last(s10);
                let s12 = spec_log_op_elems_group(env, s11, "Elements"@, elems@);
                let s13 = st_pop(s12);
                s13
            },
            OpTrait::Extended { attrs, vis, name, bases, elems, .. } => {
                let s14 = st_begin_node(env, st, "Operator Extension"@);
                let s15 = spec_log_attrs_group(env, s14, "Attributes"@, attrs@);
                let s16 = spec_log_vis(env, s15, vis);
                let s17 = st_line(env, s16, "Name: "@, table_name_text(env.names, name));
                let s18 = st_set_last_if(s17, elems.len() == 0);
                let s19 = st_name_group(env, s18, "Bases"@, "Base: "@, bases@.map_values(|p: (NameId, SpanId)| p.0));
                let s20 = st_set_last(s19);
                let s21 = spec_log_op_elems_group(env, s20, "Elements"@, elems@);
                let s22 = st_pop(s21);
                s22
            },
        };
        s1
    }
}

impl AstNodeLog for OpElem {
    fn log(&self, logger: &mut AstLogger)
        decreases self,
    {
        match self {
            OpElem::Def { op_type, op, name, ret, def, .. } => {
                logger.begin_indented("Operator Definition");
                logger.prefixed_log("Operator Type: ");
                logger.log(op_type_str(*op_type));
                logger.log("\n");
                logger.punct_line("Operator: ", *op);
                logger.set_last_at_indent_if(def.is_none());
                logger.name_line("Name: ", *name);
                logger.set_last_at_indent_if(def.is_none());
                if let Some(ret) = ret {
                    logger.begin_last("Return Type");
                    ret.log(logger);
                    logger.pop_indent();
                }
                logger.set_last_at_indent();
                if let Some(def) = def {
                    logger.begin_last("Default Implementation");
                    def.log(logger);
                    logger.pop_indent();
                }
                logger.pop_indent();
            },
            OpElem::Contract { expr, .. } => {
                logger.begin_last("Contract");
                logger.enter_node(expr.node_id());
                expr.log(logger);
                logger.pop_indent();
            },
        }
    }

    open spec fn spec_log(&self, env: LogEnv, st: LogState) -> LogState
        decreases self, 0int,
    {
        let s1 = match *self {
            OpElem::Def { op_type, op, name, ret, def, .. } => {
                let s2 = st_begin_indented(env, st, "Operator Definition"@);
                let s3 = st_prefixed(env, s2, "Operator Type: "@);
                let s4 = st_log(s3, op_type_text(op_type));
                let s5 = st_log(s4, "\n"@);
                let s6 = st_line(env, s5, "Operator: "@, op.spec_as_str(&env.puncts));
                let s7 = st_set_last_if(s6, (def is None));
                let s8 = st_line(env, s7, "Name: "@, table_name_text(env.names, name));
                let s9 = st_set_last_if(s8, (def is None));
                let s13 = match ret {
                    Some(ret) => {
                        let s10 = st_begin_last(env, s9, "Return Type"@);
                        let s11 = ret.spec_log(env, s10);
                        let s12 = st_pop(s11);
                        s12
                    },
                    None => s9,
                };
                let s14 = st_set_last(s13);
                let s18 = match def {
                    Some(def) => {
                        let s15 = st_begin_last(env, s14, "Default Implementation"@);
                        let s16 = def.spec_log(env, s15);
                        let s17 = st_pop(s16);
                        s17
                    },
                    None => s14,
                };
                let s19 = st_pop(s18);
                s19
            },
            OpElem::Contract { expr, .. } => {
                let s20 = st_begin_last(env, st, "Contract"@);
                let s21 = st_enter(s20, expr.spec_node_id());
                let s22 = expr.spec_log(env, s21);
                let s23 = st_pop(s22);
                s23
            },
        };
        s1
    }
}

/// The state after the optional scope lines of a use of operators or precedences.
pub open spec fn spec_log_use_scope(env: LogEnv, st: LogState, group: Option<NameId>, package: Option<NameId>, library: Option<NameId>, no_list: bool) -> LogState {
    let s1 = match group {
        Some(group) => st_log(st_prefixed(env, st, "Group: "@), table_name_text(env.names, group)),
        None => st,
    };
    let s2 = st_set_last_if(s1, library is None && no_list);
    let s3 = match package {
        Some(package) => st_log(st_prefixed(env, s2, "Package: "@), table_name_text(env.names, package)),
        None => s2,
    };
    let s4 = st_set_last_if(s3, no_list);
    let s5 = match library {
        Some(library) => st_log(st_prefixed(env, s4, "Library: "@), table_name_text(env.names, library)),
        None => s4,
    };
    st_set_last(s5)
}

/// The optional scope lines of a use of operators or precedences.
fn log_use_scope(logger: &mut AstLogger, group: Option<NameId>, package: Option<NameId>, library: Option<NameId>, no_list: bool)
    ensures
        final(logger).state() == spec_log_use_scope(old(logger).env(), old(logger).state(), group, package, library, no_list),
        old(logger).appends(final(logger)),
        final(logger).levels().len() == old(logger).levels().len(),
{
    if let Some(group) = group {
        logger.prefixed_log("Group: ");
        logger.log_name(group);
    }
    logger.set_last_at_indent_if(library.is_none() && no_list);
    if let Some(package) = package {
        logger.prefixed_log("Package: ");
        logger.log_name(package);
    }
    logger.set_last_at_indent_if(no_list);
    if let Some(library) = library {
        logger.prefixed_log("Library: ");
        logger.log_name(library);
    }
    logger.set_last_at_indent();
}

/// The state after the first `k` names, each prefixed, the last one marked.
pub open spec fn spec_log_bare_name_steps(env: LogEnv, st: LogState, names: Seq<NameId>, k: int) -> LogState
    decreases k,
{
    if k <= 0 || k > names.len() {
        st
    } else {
        let marked = st_set_last_if(spec_log_bare_name_steps(env, st, names, k - 1), k == names.len());
        st_log(st_prefixed(env, marked, ""@), table_name_text(env.names, names[k - 1]))
    }
}

/// The state after a group of bare names: where `names` is not empty, the
/// line `label`, then each name, prefixed, one level deeper, the last one marked.
pub open spec fn spec_log_bare_name_group(env: LogEnv, st: LogState, label: Seq<char>, names: Seq<NameId>) -> LogState {
    if names.len() == 0 {
        st
    } else {
        st_pop(spec_log_bare_name_steps(env, st_begin_indented(env, st, label), names, names.len() as int))
    }
}

/// Where `names` is not empty: the line `label`, then each name, prefixed,
/// one level deeper, the last one marked.
fn log_bare_name_group(logger: &mut AstLogger, label: &str, names: &Vec<NameId>)
    ensures
        final(logger).state() == spec_log_bare_name_group(old(logger).env(), old(logger).state(), label@, names@),
        old(logger).appends(final(logger)),
        final(logger).levels().len() == old(logger).levels().len(),
{
    if names.len() == 0 {
        return;
    }
    logger.begin_indented(label);
    let ghost begun = logger.state();
    let mut idx: usize = 0;
    while idx < names.len()
    invariant
    old(logger).appends(logger),
    logger.levels().len() == old(logger).levels().len() + 1,
    logger.env() == old(logger).env(),
    idx <= names@.len(),
    logger.state() == spec_log_bare_name_steps(old(logger).env(), begun, names@, idx as int),
    decreases names@.len() - idx,
    {
        if idx + 1 == names.len() {
            logger.set_last_at_indent();
        }
        logger.prefixed_log("");
        logger.log_name(names[idx]);
        idx = idx + 1;
    }
    logger.pop_indent();
}

impl AstNodeLog for OpUse {
    fn log(&self, logger: &mut AstLogger) {
        logger.begin_ast_node("Operator Use");
        log_use_scope(logger, self.group, self.package, self.library, self.op_sets.len() == 0);
        log_bare_name_group(logger, "Precedences", &self.op_sets);
        logger.pop_indent();
    }

    open spec fn spec_log(&self, env: LogEnv, st: LogState) -> LogState
    {
        let s1 = st_begin_node(env, st, "Operator Use"@);
        let s2 = spec_log_use_scope(env, s1, self.group, self.package, self.library, self.op_sets.len() == 0);
        let s3 = spec_log_bare_name_group(env, s2, "Precedences"@, self.op_sets@);
        let s4 = st_pop(s3);
        s4
    }
}

impl AstNodeLog for Precedence {
    fn log(&self, logger: &mut AstLogger)
        ensures
            is_prefix(old(logger).text() + old(logger).header("Precedence"@), final(logger).text()),
        decreases self,
    {
        logger.begin_ast_node("Precedence");
        log_attrs_group(logger, "Attributes", &self.attrs);
        log_vis(logger, &self.vis);
        logger.set_last_at_indent_if(self.higher_than.is_none() && self.lower_than.is_none() && self.associativity.is_none());
        logger.name_line("Name: ", self.name);
        logger.set_last_at_indent_if(self.lower_than.is_none() && self.associativity.is_none());
        if let Some((higher_than, _)) = self.higher_than {
            logger.name_line("Higher Than: ", higher_than);
        }
        logger.set_last_at_indent_if(self.associativity.is_none());
        if let Some((lower_than, _)) = self.lower_than {
            logger.name_line("Lower Than: ", lower_than);
        }
        logger.set_last_at_indent();
        if let Some(assoc) = &self.associativity {
            logger.prefixed_log("Associativity: ");
            match assoc.kind {
                PrecedenceAssociativityKind::NonAssoc => logger.logln("none"),
                PrecedenceAssociativityKind::Left => logger.logln("left"),
                PrecedenceAssociativityKind::Right => logger.logln("right"),
            }
        }
        logger.pop_indent();
    }

    open spec fn spec_log(&self, env: LogEnv, st: LogState) -> LogState
        decreases self, 0int,
    {
        let s1 = st_begin_node(env, st, "Precedence"@);
        let s2 = spec_log_attrs_group(env, s1, "Attributes"@, self.attrs@);
        let s3 = spec_log_vis(env, s2, self.vis);
        let s4 = st_set_last_if(s3, (self.higher_than is None) && (self.lower_than is None) && (self.associativity is None));
        let s5 = st_line(env, s4, "Name: "@, table_name_text(env.names, self.name));
        let s6 = st_set_last_if(s5, (self.lower_than is None) && (self.associativity is None));
        let s8 = match self.higher_than {
            Some((higher_than, _)) => {
                let s7 = st_line(env, s6, "Higher Than: "@, table_name_text(env.names, higher_than));
                s7
            },
            None => s6,
        };
        let s9 = st_set_last_if(s8, (self.associativity is None));
        let s11 = match self.lower_than {
            Some((lower_than, _)) => {
                let s10 = st_line(env, s9, "Lower Than: "@, table_name_text(env.names, lower_than));
                s10
            },
            None => s9,
        };
        let s12 = st_set_last(s11);
        let s18 = match self.associativity {
            Some(assoc) => {
                let s13 = st_prefixed(env, s12, "Associativity: "@);
                let s14 = match assoc.kind {
                    PrecedenceAssociativityKind::NonAssoc => {
                        let s15 = st_log(st_log(s13, "none"@), "\n"@);
                        s15
                    },
                    PrecedenceAssociativityKind::Left => {
                        let s16 = st_log(st_log(s13, "left"@), "\n"@);
                        s16
                    },
                    PrecedenceAssociativityKind::Right => {
                        let s17 = st_log(st_log(s13, "right"@), "\n"@);
                        s17
                    },
                };
                s14
            },
            None => s12,
        };
        let s19 = st_pop(s18);
        s19
    }
}

impl AstNodeLog for PrecedenceUse {
    fn log(&self, logger: &mut AstLogger) {
        logger.begin_ast_node("Precedence Use");
        log_use_scope(logger, self.group, self.package, self.library, self.precedences.len() == 0);
        log_bare_name_group(logger, "Precedences", &self.precedences);
        logger.pop_indent();
    }

    open spec fn spec_log(&self, env: LogEnv, st: LogState) -> LogState
    {
        let s1 = st_begin_node(env, st, "Precedence Use"@);
        let s2 = spec_log_use_scope(env, s1, self.group, self.package, self.library, self.precedences.len() == 0);
        let s3 = spec_log_bare_name_group(env, s2, "Precedences"@, self.precedences@);
        let s4 = st_pop(s3);
        s4
    }
}

impl AstNodeLog for EmptyStmt {
    fn log(&self, logger: &mut AstLogger)
        ensures
            final(logger).text() == old(logger).text() + old(logger).prefix() + "Empty Statement"@ + "\n"@,
            final(logger).levels() == old(logger).levels(),
    {
        logger.prefixed_logln("Empty Statement");
    }

    open spec fn spec_log(&self, env: LogEnv, st: LogState) -> LogState
    {
        let s1 = st_log(st_prefixed(env, st, "Empty Statement"@), "\n"@);
        s1
    }
}

/// The state after the first `k` names of a named variable declaration, the last one marked.
pub open spec fn spec_log_var_names_steps(env: LogEnv, st: LogState, names: Seq<(bool, NameId, SpanId)>, k: int) -> LogState
    decreases k,
{
    if k <= 0 || k > names.len() {
        st
    } else {
        let marked = st_set_last_if(spec_log_var_names_steps(env, st, names, k - 1), k == names.len());
        let begun = st_begin_indented(env, marked, "Name"@);
        let with_mut = st_line(env, begun, "Is Mut: "@, bool_text(names[k - 1].0));
        st_pop(st_line(env, with_mut, "Name: "@, table_name_text(env.names, names[k - 1].1)))
    }
}

/// The state after the names of a named variable declaration, each with its mutability.
pub open spec fn spec_log_var_names(env: LogEnv, st: LogState, names: Seq<(bool, NameId, SpanId)>) -> LogState {
    if names.len() == 0 {
        st
    } else {
        st_pop(spec_log_var_names_steps(env, st_begin_indented(env, st, "Names"@), names, names.len() as int))
    }
}

/// The names of a named variable declaration, each with its mutability.
fn log_var_names(logger: &mut AstLogger, names: &Vec<(bool, NameId, SpanId)>)
    ensures
        final(logger).state() == spec_log_var_names(old(logger).env(), old(logger).state(), names@),
        old(logger).appends(final(logger)),
        final(logger).levels().len() == old(logger).levels().len(),
{
    if names.len() == 0 {
        return;
    }
    logger.begin_indented("Names");
    let ghost begun = logger.state();
    let mut idx: usize = 0;
    while idx < names.len()
    invariant
    old(logger).appends(logger),
    logger.levels().len() == old(logger).levels().len() + 1,
    logger.env() == old(logger).env(),
    idx <= names@.len(),
    logger.state() == spec_log_var_names_steps(old(logger).env(), begun, names@, idx as int),
    decreases names@.len() - idx,
    {
        if idx + 1 == names.len() {
            logger.set_last_at_indent();
        }
        let (is_mut, name, _) = names[idx];
        logger.begin_indented("Name");
        logger.bool_line("Is Mut: ", is_mut);
        logger.name_line("Name: ", name);
        logger.pop_indent();
        idx = idx + 1;
    }
    logger.pop_indent();
}

impl AstNodeLog for VarDecl {
    fn log(&self, logger: &mut AstLogger)
        ensures
            is_prefix(old(logger).text() + old(logger).header(match self {
                VarDecl::Named { .. } => "Named Variable Declaration"@,
                VarDecl::Let { .. } => "Let Variable Declaration"@,
            }), final(logger).text()),
        decreases self,
    {
        match self {
            VarDecl::Named { attrs, names, expr, .. } => {
                logger.begin_ast_node("Named Variable Declaration");
                log_attrs_group(logger, "Attributes", attrs);
                log_var_names(logger, names);
                logger.set_last_at_indent();
                logger.begin_last("Value");
                expr.log(logger);
                logger.pop_indent();
                logger.pop_indent();
            },
            VarDecl::Let { attrs, pattern, ty, expr, else_block, .. } => {
                logger.begin_ast_node("Let Variable Declaration");
                log_attrs_group(logger, "Attributes", attrs);
                logger.begin_last("Pattern");
                pattern.log(logger);
                logger.pop_indent();
                logger.set_last_at_indent_if(expr.is_none() && else_block.is_none());
                if let Some(ty) = ty {
                    logger.begin_last("Type");
                    ty.log(logger);
                    logger.pop_indent();
                }
                logger.set_last_at_indent_if(else_block.is_none());
                if let Some(expr) = expr {
                    logger.begin_last("Value");
                    expr.log(logger);
                    logger.pop_indent();
                }
                logger.set_last_at_indent();
                if let Some(else_block) = else_block {
                    logger.begin_last("Else Block");
                    logger.enter_node(else_block.node_id());
                    else_block.log(logger);
                    logger.pop_indent();
                }
                logger.pop_indent();
            },
        }
    }

    open spec fn spec_log(&self, env: LogEnv, st: LogState) -> LogState
        decreases self, 0int,
    {
        let s1 = match *self {
            VarDecl::Named { attrs, names, expr, .. } => {
                let s2 = st_begin_node(env, st, "Named Variable Declaration"@);
                let s3 = spec_log_attrs_group(env, s2, "Attributes"@, attrs@);
                let s4 = spec_log_var_names(env, s3, names@);
                let s5 = st_set_last(s4);
                let s6 = st_begin_last(env, s5, "Value"@);
                let s7 = expr.spec_log(env, s6);
                let s8 = st_pop(s7);
                let s9 = st_pop(s8);
                s9
            },
            VarDecl::Let { attrs, pattern, ty, expr, else_block, .. } => {
                let s10 = st_begin_node(env, st, "Let Variable Declaration"@);
                let s11 = spec_log_attrs_group(env, s10, "Attributes"@, attrs@);
                let s12 = st_begin_last(env, s11, "Pattern"@);
                let s13 = pattern.spec_log(env, s12);
                let s14 = st_pop(s13);
                let s15 = st_set_last_if(s14, (expr is None) && (else_block is None));
                let s19 = match ty {
                    Some(ty) => {
                        let s16 = st_begin_last(env, s15, "Type"@);
                        let s17 = ty.spec_log(env, s16);
                        let s18 = st_pop(s17);
                        s18
                    },
                    None => s15,
                };
                let s20 = st_set_last_if(s19, (else_block is None));
                let s24 = match expr {
                    Some(expr) => {
                        let s21 = st_begin_last(env, s20, "Value"@);
                        let s22 = expr.spec_log(env, s21);
                        let s23 = st_pop(s22);
                        s23
                    },
                    None => s20,
                };
                let s25 = st_set_last(s24);
                let s30 = match else_block {
                    Some(else_block) => {
                        let s26 = st_begin_last(env, s25, "Else Block"@);
                        let s27 = st_enter(s26, else_block.spec_node_id());
                        let s28 = else_block.spec_log(env, s27);
                        let s29 = st_pop(s28);
                        s29
                    },
                    None => s25,
                };
                let s31 = st_pop(s30);
                s31
            },
        };
        s1
    }
}

impl AstNodeLog for Defer {
    fn log(&self, logger: &mut AstLogger)
        ensures
            is_prefix(old(logger).text() + old(logger).header("Defer Statement"@), final(logger).text()),
        decreases self,
    {
        logger.begin_ast_node("Defer Statement");
        log_attrs_group(logger, "Attributes", &self.attrs);
        logger.set_last_at_indent();
        logger.begin_last("Expr");
        self.expr.log(logger);
        logger.pop_indent();
        logger.pop_indent();
    }

    open spec fn spec_log(&self, env: LogEnv, st: LogState) -> LogState
        decreases self, 0int,
    {
        let s1 = st_begin_node(env, st, "Defer Statement"@);
        let s2 = spec_log_attrs_group(env, s1, "Attributes"@, self.attrs@);
        let s3 = st_set_last(s2);
        let s4 = st_begin_last(env, s3, "Expr"@);
        let s5 = self.expr.spec_log(env, s4);
        let s6 = st_pop(s5);
        let s7 = st_pop(s6);
        s7
    }
}

impl AstNodeLog for ErrDefer {
    fn log(&self, logger: &mut AstLogger)
        ensures
            is_prefix(old(logger).text() + old(logger).header("Error Defer Statement"@), final(logger).text()),
        decreases self,
    {
        logger.begin_ast_node("Error Defer Statement");
        log_attrs_group(logger, "Attributes", &self.attrs);
        if let Some(receiver) = &self.receiver {
            logger.begin_indented("Receiver");
            logger.bool_line("Is Mut: ", receiver.is_mut);
            logger.name_line("Name: ", receiver.name);
            logger.pop_indent();
        }
        logger.set_last_at_indent();
        logger.begin_last("Expr");
        self.expr.log(logger);
        logger.pop_indent();
        logger.pop_indent();
    }

    open spec fn spec_log(&self, env: LogEnv, st: LogState) -> LogState
        decreases self, 0int,
    {
        let s1 = st_begin_node(env, st, "Error Defer Statement"@);
        let s2 = spec_log_attrs_group(env, s1, "Attributes"@, self.attrs@);
        let s7 = match self.receiver {
            Some(receiver) => {
                let s3 = st_begin_indented(env, s2, "Receiver"@);
                let s4 = st_line(env, s3, "Is Mut: "@, bool_text(receiver.is_mut));
                let s5 = st_line(env, s4, "Name: "@, table_name_text(env.names, receiver.name));
                let s6 = st_pop(s5);
                s6
            },
            None => s2,
        };
        let s8 = st_set_last(s7);
        let s9 = st_begin_last(env, s8, "Expr"@);
        let s10 = self.expr.spec_log(env, s9);
        let s11 = st_pop(s10);
        let s12 = st_pop(s11);
        s12
    }
}

impl AstNodeLog for ExprStmt {
    fn log(&self, logger: &mut AstLogger)
        ensures
            is_prefix(old(logger).text() + old(logger).header("Expression Statement"@), final(logger).text()),
        decreases self,
    {
        logger.begin_ast_node("Expression Statement");
        log_attrs_group(logger, "Attributes", &self.attrs);
        logger.set_last_at_indent();
        self.expr.log(logger);
        logger.pop_indent();
    }

    open spec fn spec_log(&self, env: LogEnv, st: LogState) -> LogState
        decreases self, 0int,
    {
        let s1 = st_begin_node(env, st, "Expression Statement"@);
        let s2 = spec_log_attrs_group(env, s1, "Attributes"@, self.attrs@);
        let s3 = st_set_last(s2);
        let s4 = self.expr.spec_log(env, s3);
        let s5 = st_pop(s4);
        s5
    }
}

impl AstNodeLog for LiteralOp {
    fn log(&self, logger: &mut AstLogger) {
        logger.begin_last("Literal Op");
        match self {
            LiteralOp::Name(name) => logger.name_line("Named: ", *name),
            LiteralOp::Primitive(ty) => ty.log(logger),
            LiteralOp::StringSlice(ty) => ty.log(logger),
        }
        logger.pop_indent();
    }

    open spec fn spec_log(&self, env: LogEnv, st: LogState) -> LogState
    {
        let s1 = st_begin_last(env, st, "Literal Op"@);
        let s2 = match *self {
            LiteralOp::Name(name) => {
                let s3 = st_line(env, s1, "Named: "@, table_name_text(env.names, name));
                s3
            },
            LiteralOp::Primitive(ty) => {
                let s4 = ty.spec_log(env, s1);
                s4
            },
            LiteralOp::StringSlice(ty) => {
                let s5 = ty.spec_log(env, s1);
                s5
            },
        };
        let s6 = st_pop(s2);
        s6
    }
}

/// The state after the line `Literal: ` and the value of a literal.
pub open spec fn spec_log_literal_value(env: LogEnv, st: LogState, literal: LiteralValue) -> LogState {
    match literal {
        LiteralValue::Lit(lit) => st_line(env, st, "Literal: "@, table_literal_text(env.literals, lit)),
        LiteralValue::Bool(val) => st_line(env, st, "Literal: "@, bool_text(val)),
    }
}

/// The line `Literal: ` and the value of a literal.
fn log_literal_value(logger: &mut AstLogger, literal: &LiteralValue)
    ensures
        final(logger).state() == spec_log_literal_value(old(logger).env(), old(logger).state(), *literal),
        old(logger).appends(final(logger)),
        final(logger).levels().len() == old(logger).levels().len(),
{
    match literal {
        LiteralValue::Lit(lit) => logger.literal_line("Literal: ", *lit),
        LiteralValue::Bool(val) => logger.bool_line("Literal: ", *val),
    }
}

impl AstNodeLog for LiteralExpr {
    fn log(&self, logger: &mut AstLogger) {
        logger.begin_ast_node("Literal Expr");
        log_literal_value(logger, &self.literal);
        logger.set_last_at_indent();
        if let Some(lit_op) = &self.lit_op {
            lit_op.log(logger);
        }
        logger.pop_indent();
    }

    open spec fn spec_log(&self, env: LogEnv, st: LogState) -> LogState
    {
        let s1 = st_begin_node(env, st, "Literal Expr"@);
        let s2 = spec_log_literal_value(env, s1, self.literal);
        let s3 = st_set_last(s2);
        let s5 = match self.lit_op {
            Some(lit_op) => {
                let s4 = lit_op.spec_log(env, s3);
                s4
            },
            None => s3,
        };
        let s6 = st_pop(s5);
        s6
    }
}

impl AstNodeLog for PathExpr {
    fn log(&self, logger: &mut AstLogger)
        decreases self,
    {
        match self {
            PathExpr::SelfVar { .. } => {
                logger.set_last_at_indent();
                logger.prefixed_logln("Self Path Expr");
            },
            PathExpr::Path { start, iden, .. } => {
                logger.begin_ast_node("Path Expr");
                start.log(logger);
                logger.set_last_at_indent();
                iden.log(logger);
                logger.pop_indent();
            },
        }
    }

    open spec fn spec_log(&self, env: LogEnv, st: LogState) -> LogState
        decreases self, 0int,
    {
        let s1 = match *self {
            PathExpr::SelfVar { .. } => {
                let s2 = st_set_last(st);
                let s3 = st_log(st_prefixed(env, s2, "Self Path Expr"@), "\n"@);
                s3
            },
            PathExpr::Path { start, iden, .. } => {
                let s4 = st_begin_node(env, st, "Path Expr"@);
                let s5 = start.spec_log(env, s4);
                let s6 = st_set_last(s5);
                let s7 = iden.spec_log(env, s6);
                let s8 = st_pop(s7);
                s8
            },
        };
        s1
    }
}

impl AstNodeLog for UnitExpr {
    fn log(&self, logger: &mut AstLogger)
        ensures
            final(logger).text() == old(logger).text() + old(logger).prefix() + "Unit Expression"@ + "\n"@,
            final(logger).levels() == old(logger).levels(),
    {
        logger.prefixed_logln("Unit Expression");
    }

    open spec fn spec_log(&self, env: LogEnv, st: LogState) -> LogState
    {
        let s1 = st_log(st_prefixed(env, st, "Unit Expression"@), "\n"@);
        s1
    }
}

impl AstNodeLog for BlockExpr {
    fn log(&self, logger: &mut AstLogger)
        decreases self,
    {
        let name = match self.kind {
            BlockExprKind::Normal => "Block Expression",
            BlockExprKind::Unsafe => "Unsafe Block Expression",
            BlockExprKind::Const => "Const Block Expression",
            BlockExprKind::Try => "Try Block Expression",
            BlockExprKind::TryUnwrap => "Try Unwrap Block Expression",
            BlockExprKind::Labeled { .. } => "Labeled Block Expression",
        };
        logger.begin_ast_node(name);
        if let BlockExprKind::Labeled { label } = self.kind {
            logger.name_line("Label: ", label);
        }
        logger.set_last_at_indent();
        let prev = logger.enter_node(self.block.node_id());
        self.block.log(logger);
        logger.enter_node(prev);
        logger.pop_indent();
    }

    open spec fn spec_log(&self, env: LogEnv, st: LogState) -> LogState
        decreases self, 0int,
    {
        let name = match self.kind {
            BlockExprKind::Normal => "Block Expression"@,
            BlockExprKind::Unsafe => "Unsafe Block Expression"@,
            BlockExprKind::Const => "Const Block Expression"@,
            BlockExprKind::Try => "Try Block Expression"@,
            BlockExprKind::TryUnwrap => "Try Unwrap Block Expression"@,
            BlockExprKind::Labeled { .. } => "Labeled Block Expression"@,
        };
        let s1 = st_begin_node(env, st, name);
        let s2 = match self.kind {
            BlockExprKind::Labeled { label } => st_line(env, s1, "Label: "@, table_name_text(env.names, label)),
            _ => s1,
        };
        let s3 = st_set_last(s2);
        let s4 = self.block.spec_log(env, st_enter(s3, self.block.spec_node_id()));
        st_pop(st_enter(s4, s3.node))
    }
}

impl AstNodeLog for PrefixExpr {
    fn log(&self, logger: &mut AstLogger)
        ensures
            is_prefix(old(logger).text() + old(logger).header("Prefix expression"@), final(logger).text()),
        decreases self,
    {
        logger.begin_ast_node("Prefix expression");
        logger.punct_line("Op: ", self.op);
        logger.set_last_at_indent();
        self.expr.log(logger);
        logger.pop_indent();
    }

    open spec fn spec_log(&self, env: LogEnv, st: LogState) -> LogState
        decreases self, 0int,
    {
        let s1 = st_begin_node(env, st, "Prefix expression"@);
        let s2 = st_line(env, s1, "Op: "@, self.op.spec_as_str(&env.puncts));
        let s3 = st_set_last(s2);
        let s4 = self.expr.spec_log(env, s3);
        let s5 = st_pop(s4);
        s5
    }
}

impl AstNodeLog for PostfixExpr {
    fn log(&self, logger: &mut AstLogger)
        ensures
            is_prefix(old(logger).text() + old(logger).header("Postfix expression"@), final(logger).text()),
        decreases self,
    {
        logger.begin_ast_node("Postfix expression");
        logger.punct_line("Op: ", self.op);
        logger.set_last_at_indent();
        self.expr.log(logger);
        logger.pop_indent();
    }

    open spec fn spec_log(&self, env: LogEnv, st: LogState) -> LogState
        decreases self, 0int,
    {
        let s1 = st_begin_node(env, st, "Postfix expression"@);
        let s2 = st_line(env, s1, "Op: "@, self.op.spec_as_str(&env.puncts));
        let s3 = st_set_last(s2);
        let s4 = self.expr.spec_log(env, s3);
        let s5 = st_pop(s4);
        s5
    }
}

impl AstNodeLog for InfixExpr {
    fn log(&self, logger: &mut AstLogger)
        ensures
            is_prefix(old(logger).text() + old(logger).header("Infix expression"@), final(logger).text()),
        decreases self,
    {
        logger.begin_ast_node("Infix expression");
        logger.punct_line("Op: ", self.op);
        self.left.log(logger);
        logger.set_last_at_indent();
        self.right.log(logger);
        logger.pop_indent();
    }

    open spec fn spec_log(&self, env: LogEnv, st: LogState) -> LogState
        decreases self, 0int,
    {
        let s1 = st_begin_node(env, st, "Infix expression"@);
        let s2 = st_line(env, s1, "Op: "@, self.op.spec_as_str(&env.puncts));
        let s3 = self.left.spec_log(env, s2);
        let s4 = st_set_last(s3);
        let s5 = self.right.spec_log(env, s4);
        let s6 = st_pop(s5);
        s6
    }
}

/// An infix expression writes its header and the line of its operator, then
/// its left operand, then its right operand as the last child at that level,
/// and then closes the level: the left operand's text always comes first.
pub proof fn lemma_infix_log_left_then_right(n: InfixExpr, env: LogEnv, st: LogState)
    ensures
        ({
            let at_op = st_line(env, st_begin_node(env, st, "Infix expression"@), "Op: "@, n.op.spec_as_str(&env.puncts));
            let after_left = n.left.spec_log(env, at_op);
            n.spec_log(env, st) == st_pop(n.right.spec_log(env, st_set_last(after_left)))
        }),
{
}

impl AstNodeLog for ParenExpr {
    fn log(&self, logger: &mut AstLogger)
        ensures
            is_prefix(old(logger).text() + old(logger).header("Parenthesized Expression"@), final(logger).text()),
        decreases self,
    {
        logger.begin_ast_node("Parenthesized Expression");
        logger.set_last_at_indent();
        self.expr.log(logger);
        logger.pop_indent();
    }

    open spec fn spec_log(&self, env: LogEnv, st: LogState) -> LogState
        decreases self, 0int,
    {
        let s1 = st_begin_node(env, st, "Parenthesized Expression"@);
        let s2 = st_set_last(s1);
        let s3 = self.expr.spec_log(env, s2);
        let s4 = st_pop(s3);
        s4
    }
}

impl AstNodeLog for InplaceExpr {
    fn log(&self, logger: &mut AstLogger)
        ensures
            is_prefix(old(logger).text() + old(logger).header("Inplace Expession"@), final(logger).text()),
        decreases self,
    {
        logger.begin_ast_node("Inplace Expession");
        self.left.log(logger);
        logger.set_last_at_indent();
        self.right.log(logger);
        logger.pop_indent();
    }

    open spec fn spec_log(&self, env: LogEnv, st: LogState) -> LogState
        decreases self, 0int,
    {
        let s1 = st_begin_node(env, st, "Inplace Expession"@);
        let s2 = self.left.spec_log(env, s1);
        let s3 = st_set_last(s2);
        let s4 = self.right.spec_log(env, s3);
        let s5 = st_pop(s4);
        s5
    }
}

/// An in-place expression writes its header, then its left side, then its
/// right side as the last child, and closes its level.
pub proof fn lemma_inplace_log_left_then_right(n: InplaceExpr, env: LogEnv, st: LogState)
    ensures
        ({
            let s1 = st_begin_node(env, st, "Inplace Expession"@);
            let s2 = n.left.spec_log(env, s1);
            let s3 = st_set_last(s2);
            let s4 = n.right.spec_log(env, s3);
            let s5 = st_pop(s4);
            n.spec_log(env, st) == s5
        }),
{
}

impl AstNodeLog for TypeCastExpr {
    fn log(&self, logger: &mut AstLogger)
        decreases self,
    {
        let name = match self.kind {
            TypeCastKind::Normal => "Type Cast Expression",
            TypeCastKind::Try => "Try Type Cast Expression",
            TypeCastKind::Unwrap => "Unwrap Type Cast Expression",
        };
        logger.begin_ast_node(name);
        self.expr.log(logger);
        logger.set_last_at_indent();
        self.ty.log(logger);
        logger.pop_indent();
    }

    open spec fn spec_log(&self, env: LogEnv, st: LogState) -> LogState
        decreases self, 0int,
    {
        let name = match self.kind {
            TypeCastKind::Normal => "Type Cast Expression"@,
            TypeCastKind::Try => "Try Type Cast Expression"@,
            TypeCastKind::Unwrap => "Unwrap Type Cast Expression"@,
        };
        let s1 = st_begin_node(env, st, name);
        let s2 = self.expr.spec_log(env, s1);
        let s3 = st_set_last(s2);
        let s4 = self.ty.spec_log(env, s3);
        let s5 = st_pop(s4);
        s5
    }
}

/// A type cast writes a header that names its kind, then the expression,
/// then the type as the last child.
pub proof fn lemma_type_cast_log_expr_then_type(n: TypeCastExpr, env: LogEnv, st: LogState)
    ensures
        ({
            let name = match n.kind {
                TypeCastKind::Normal => "Type Cast Expression"@,
                TypeCastKind::Try => "Try Type Cast Expression"@,
                TypeCastKind::Unwrap => "Unwrap Type Cast Expression"@,
            };
            let s1 = st_begin_node(env, st, name);
            let s2 = n.expr.spec_log(env, s1);
            let s3 = st_set_last(s2);
            let s4 = n.ty.spec_log(env, s3);
            let s5 = st_pop(s4);
            n.spec_log(env, st) == s5
        }),
{
}

impl AstNodeLog for TypeCheckExpr {
    fn log(&self, logger: &mut AstLogger)
        ensures
            is_prefix(old(logger).text() + old(logger).header("Type Check Expression"@), final(logger).text()),
        decreases self,
    {
        logger.begin_ast_node("Type Check Expression");
        logger.bool_line("Negate: ", self.negate);
        self.expr.log(logger);
        logger.set_last_at_indent();
        self.ty.log(logger);
        logger.pop_indent();
    }

    open spec fn spec_log(&self, env: LogEnv, st: LogState) -> LogState
        decreases self, 0int,
    {
        let s1 = st_begin_node(env, st, "Type Check Expression"@);
        let s2 = st_line(env, s1, "Negate: "@, bool_text(self.negate));
        let s3 = self.expr.spec_log(env, s2);
        let s4 = st_set_last(s3);
        let s5 = self.ty.spec_log(env, s4);
        let s6 = st_pop(s5);
        s6
    }
}

/// A type check writes its header and whether it is negated, then the
/// expression, then the type as the last child.
pub proof fn lemma_type_check_log_expr_then_type(n: TypeCheckExpr, env: LogEnv, st: LogState)
    ensures
        ({
            let s1 = st_begin_node(env, st, "Type Check Expression"@);
            let s2 = st_line(env, s1, "Negate: "@, bool_text(n.negate));
            let s3 = n.expr.spec_log(env, s2);
            let s4 = st_set_last(s3);
            let s5 = n.ty.spec_log(env, s4);
            let s6 = st_pop(s5);
            n.spec_log(env, st) == s6
        }),
{
}

impl AstNodeLog for TupleExpr {
    fn log(&self, logger: &mut AstLogger)
        ensures
            is_prefix(old(logger).text() + old(logger).header("Tuple Expression"@), final(logger).text()),
        decreases self,
    {
        logger.begin_ast_node("Tuple Expression");
        log_exprs(logger, &self.exprs);
        logger.pop_indent();
    }

    open spec fn spec_log(&self, env: LogEnv, st: LogState) -> LogState
        decreases self, 0int,
    {
        let s1 = st_begin_node(env, st, "Tuple Expression"@);
        let s2 = spec_log_exprs(env, s1, self.exprs@);
        let s3 = st_pop(s2);
        s3
    }
}

impl AstNodeLog for ArrayExpr {
    fn log(&self, logger: &mut AstLogger)
        ensures
            is_prefix(old(logger).text() + old(logger).header("Array Expression"@), final(logger).text()),
        decreases self,
    {
        logger.begin_ast_node("Array Expression");
        match self {
            ArrayExpr::Slice { exprs, .. } => log_exprs(logger, exprs),
            ArrayExpr::Count { val, count, .. } => {
                logger.begin_last("Value");
                val.log(logger);
                logger.pop_indent();
                logger.set_last_at_indent();
                logger.begin_last("Count");
                count.log(logger);
                logger.pop_indent();
            },
        }
        logger.pop_indent();
    }

    open spec fn spec_log(&self, env: LogEnv, st: LogState) -> LogState
        decreases self, 0int,
    {
        let s1 = st_begin_node(env, st, "Array Expression"@);
        let s2 = match *self {
            ArrayExpr::Slice { exprs, .. } => {
                let s3 = spec_log_exprs(env, s1, exprs@);
                s3
            },
            ArrayExpr::Count { val, count, .. } => {
                let s4 = st_begin_last(env, s1, "Value"@);
                let s5 = val.spec_log(env, s4);
                let s6 = st_pop(s5);
                let s7 = st_set_last(s6);
                let s8 = st_begin_last(env, s7, "Count"@);
                let s9 = count.spec_log(env, s8);
                let s10 = st_pop(s9);
                s10
            },
        };
        let s11 = st_pop(s2);
        s11
    }
}

impl AstNodeLog for StructArg {
    fn log(&self, logger: &mut AstLogger)
        decreases self,
    {
        match self {
            StructArg::Expr { name, expr, .. } => {
                logger.begin_indented("Named Argument");
                logger.name_line("Name: ", *name);
                logger.set_last_at_indent();
                expr.log(logger);
                logger.pop_indent();
            },
            StructArg::Name { name, .. } => logger.name_line("Name-only: ", *name),
            StructArg::Complete { expr, .. } => {
                logger.begin_last("Struct Completion");
                expr.log(logger);
                logger.pop_indent();
            },
        }
    }

    open spec fn spec_log(&self, env: LogEnv, st: LogState) -> LogState
        decreases self, 0int,
    {
        let s1 = match *self {
            StructArg::Expr { name, expr, .. } => {
                let s2 = st_begin_indented(env, st, "Named Argument"@);
                let s3 = st_line(env, s2, "Name: "@, table_name_text(env.names, name));
                let s4 = st_set_last(s3);
                let s5 = expr.spec_log(env, s4);
                let s6 = st_pop(s5);
                s6
            },
            StructArg::Name { name, .. } => {
                let s7 = st_line(env, st, "Name-only: "@, table_name_text(env.names, name));
                s7
            },
            StructArg::Complete { expr, .. } => {
                let s8 = st_begin_last(env, st, "Struct Completion"@);
                let s9 = expr.spec_log(env, s8);
                let s10 = st_pop(s9);
                s10
            },
        };
        s1
    }
}

impl AstNodeLog for StructExpr {
    fn log(&self, logger: &mut AstLogger)
        ensures
            is_prefix(old(logger).text() + old(logger).header("Struct Expression"@), final(logger).text()),
        decreases self,
    {
        logger.begin_ast_node("Struct Expression");
        logger.set_last_at_indent_if(self.args.len() == 0);
        logger.begin_last("Path");
        self.path.log(logger);
        logger.pop_indent();
        logger.set_last_at_indent();
        log_struct_args_group(logger, "Arguments", &self.args);
        logger.pop_indent();
    }

    open spec fn spec_log(&self, env: LogEnv, st: LogState) -> LogState
        decreases self, 0int,
    {
        let s1 = st_begin_node(env, st, "Struct Expression"@);
        let s2 = st_set_last_if(s1, self.args.len() == 0);
        let s3 = st_begin_last(env, s2, "Path"@);
        let s4 = self.path.spec_log(env, s3);
        let s5 = st_pop(s4);
        let s6 = st_set_last(s5);
        let s7 = spec_log_struct_args_group(env, s6, "Arguments"@, self.args@);
        let s8 = st_pop(s7);
        s8
    }
}

impl AstNodeLog for IndexExpr {
    fn log(&self, logger: &mut AstLogger)
        ensures
            is_prefix(old(logger).text() + old(logger).header("Index Expression"@), final(logger).text()),
        decreases self,
    {
        logger.begin_ast_node("Index Expression");
        logger.bool_line("Is Optional: ", self.is_opt);
        logger.begin_last("Expression");
        self.expr.log(logger);
        logger.pop_indent();
        logger.set_last_at_indent();
        let index_name = if let Expr::Comma(_) = &self.index { "Indices" } else { "Index" };
        logger.begin_last(index_name);
        self.index.log(logger);
        logger.pop_indent();
        logger.pop_indent();
    }

    open spec fn spec_log(&self, env: LogEnv, st: LogState) -> LogState
        decreases self, 0int,
    {
        let s1 = st_begin_node(env, st, "Index Expression"@);
        let s2 = st_line(env, s1, "Is Optional: "@, bool_text(self.is_opt));
        let s3 = st_begin_last(env, s2, "Expression"@);
        let s4 = self.expr.spec_log(env, s3);
        let s5 = st_pop(s4);
        let s6 = st_set_last(s5);
        let index_name = if self.index is Comma { "Indices"@ } else { "Index"@ };
        let s7 = st_begin_last(env, s6, index_name);
        let s8 = self.index.spec_log(env, s7);
        let s9 = st_pop(s8);
        let s10 = st_pop(s9);
        s10
    }
}

/// An index expression writes its header and whether it is optional, then
/// the indexed expression, then the index as the last child.
pub proof fn lemma_index_log_expr_then_index(n: IndexExpr, env: LogEnv, st: LogState)
    ensures
        ({
            let s1 = st_begin_node(env, st, "Index Expression"@);
            let s2 = st_line(env, s1, "Is Optional: "@, bool_text(n.is_opt));
            let s3 = st_begin_last(env, s2, "Expression"@);
            let s4 = n.expr.spec_log(env, s3);
            let s5 = st_pop(s4);
            let s6 = st_set_last(s5);
            let index_name = if n.index is Comma { "Indices"@ } else { "Index"@ };
            let s7 = st_begin_last(env, s6, index_name);
            let s8 = n.index.spec_log(env, s7);
            let s9 = st_pop(s8);
            let s10 = st_pop(s9);
            n.spec_log(env, st) == s10
        }),
{
}

impl AstNodeLog for TupleIndexExpr {
    fn log(&self, logger: &mut AstLogger)
        ensures
            is_prefix(old(logger).text() + old(logger).header("Tuple Index Expression"@), final(logger).text()),
        decreases self,
    {
        logger.begin_ast_node("Tuple Index Expression");
        logger.literal_line("Index: ", self.index);
        logger.set_last_at_indent();
        self.expr.log(logger);
        logger.pop_indent();
    }

    open spec fn spec_log(&self, env: LogEnv, st: LogState) -> LogState
        decreases self, 0int,
    {
        let s1 = st_begin_node(env, st, "Tuple Index Expression"@);
        let s2 = st_line(env, s1, "Index: "@, table_literal_text(env.literals, self.index));
        let s3 = st_set_last(s2);
        let s4 = self.expr.spec_log(env, s3);
        let s5 = st_pop(s4);
        s5
    }
}

impl AstNodeLog for FnArg {
    fn log(&self, logger: &mut AstLogger)
        decreases self,
    {
        match self {
            FnArg::Expr { expr, .. } => {
                logger.begin_last("Argument");
                expr.log(logger);
                logger.pop_indent();
            },
            FnArg::Labeled { label, expr, .. } => {
                logger.begin_indented("Labeled Argument");
                logger.name_line("Label: ", *label);
                logger.set_last_at_indent();
                logger.begin_last("Expression");
                expr.log(logger);
                logger.pop_indent();
                logger.pop_indent();
            },
        }
    }

    open spec fn spec_log(&self, env: LogEnv, st: LogState) -> LogState
        decreases self, 0int,
    {
        let s1 = match *self {
            FnArg::Expr { expr, .. } => {
                let s2 = st_begin_last(env, st, "Argument"@);
                let s3 = expr.spec_log(env, s2);
                let s4 = st_pop(s3);
                s4
            },
            FnArg::Labeled { label, expr, .. } => {
                let s5 = st_begin_indented(env, st, "Labeled Argument"@);
                let s6 = st_line(env, s5, "Label: "@, table_name_text(env.names, label));
                let s7 = st_set_last(s6);
                let s8 = st_begin_last(env, s7, "Expression"@);
                let s9 = expr.spec_log(env, s8);
                let s10 = st_pop(s9);
                let s11 = st_pop(s10);
                s11
            },
        };
        s1
    }
}

impl AstNodeLog for FnCallExpr {
    fn log(&self, logger: &mut AstLogger)
        ensures
            is_prefix(old(logger).text() + old(logger).header("Expression Function Call"@), final(logger).text()),
        decreases self,
    {
        logger.begin_ast_node("Expression Function Call");
        logger.set_last_at_indent_if(self.args.len() == 0);
        logger.begin_last("Function");
        self.expr.log(logger);
        logger.pop_indent();
        logger.set_last_at_indent();
        log_fn_args_group(logger, "Arguments", &self.args);
        logger.pop_indent();
    }

    open spec fn spec_log(&self, env: LogEnv, st: LogState) -> LogState
        decreases self, 0int,
    {
        let s1 = st_begin_node(env, st, "Expression Function Call"@);
        let s2 = st_set_last_if(s1, self.args.len() == 0);
        let s3 = st_begin_last(env, s2, "Function"@);
        let s4 = self.expr.spec_log(env, s3);
        let s5 = st_pop(s4);
        let s6 = st_set_last(s5);
        let s7 = spec_log_fn_args_group(env, s6, "Arguments"@, self.args@);
        let s8 = st_pop(s7);
        s8
    }
}

/// A call writes its header, then the called expression, then its arguments
/// as the last child.
pub proof fn lemma_fn_call_log_callee_then_args(n: FnCallExpr, env: LogEnv, st: LogState)
    ensures
        ({
            let s1 = st_begin_node(env, st, "Expression Function Call"@);
            let s2 = st_set_last_if(s1, n.args.len() == 0);
            let s3 = st_begin_last(env, s2, "Function"@);
            let s4 = n.expr.spec_log(env, s3);
            let s5 = st_pop(s4);
            let s6 = st_set_last(s5);
            let s7 = spec_log_fn_args_group(env, s6, "Arguments"@, n.args@);
            let s8 = st_pop(s7);
            n.spec_log(env, st) == s8
        }),
{
}

impl AstNodeLog for MethodCallExpr {
    fn log(&self, logger: &mut AstLogger)
        ensures
            is_prefix(old(logger).text() + old(logger).header("Method Call Expression"@), final(logger).text()),
        decreases self,
    {
        logger.begin_ast_node("Method Call Expression");
        logger.bool_line("Is Propagating: ", self.is_propagating);
        self.method.log(logger);
        logger.set_last_at_indent_if(self.args.len() == 0);
        logger.begin_last("Receiver");
        self.receiver.log(logger);
        logger.pop_indent();
        logger.set_last_at_indent();
        log_fn_args_group(logger, "Arguments", &self.args);
        logger.pop_indent();
    }

    open spec fn spec_log(&self, env: LogEnv, st: LogState) -> LogState
        decreases self, 0int,
    {
        let s1 = st_begin_node(env, st, "Method Call Expression"@);
        let s2 = st_line(env, s1, "Is Propagating: "@, bool_text(self.is_propagating));
        let s3 = self.method.spec_log(env, s2);
        let s4 = st_set_last_if(s3, self.args.len() == 0);
        let s5 = st_begin_last(env, s4, "Receiver"@);
        let s6 = self.receiver.spec_log(env, s5);
        let s7 = st_pop(s6);
        let s8 = st_set_last(s7);
        let s9 = spec_log_fn_args_group(env, s8, "Arguments"@, self.args@);
        let s10 = st_pop(s9);
        s10
    }
}

/// A method call writes its header, whether it propagates, the method, then
/// the receiver, then its arguments as the last child.
pub proof fn lemma_method_call_log_children_in_order(n: MethodCallExpr, env: LogEnv, st: LogState)
    ensures
        ({
            let s1 = st_begin_node(env, st, "Method Call Expression"@);
            let s2 = st_line(env, s1, "Is Propagating: "@, bool_text(n.is_propagating));
            let s3 = n.method.spec_log(env, s2);
            let s4 = st_set_last_if(s3, n.args.len() == 0);
            let s5 = st_begin_last(env, s4, "Receiver"@);
            let s6 = n.receiver.spec_log(env, s5);
            let s7 = st_pop(s6);
            let s8 = st_set_last(s7);
            let s9 = spec_log_fn_args_group(env, s8, "Arguments"@, n.args@);
            let s10 = st_pop(s9);
            n.spec_log(env, st) == s10
        }),
{
}

impl AstNodeLog for FieldAccessExpr {
    fn log(&self, logger: &mut AstLogger)
        ensures
            is_prefix(old(logger).text() + old(logger).header("Field Access Expression"@), final(logger).text()),
        decreases self,
    {
        logger.begin_ast_node("Field Access Expression");
        logger.bool_line("Is Propagating: ", self.is_propagating);
        self.field.log(logger);
        logger.set_last_at_indent();
        self.expr.log(logger);
        logger.pop_indent();
    }

    open spec fn spec_log(&self, env: LogEnv, st: LogState) -> LogState
        decreases self, 0int,
    {
        let s1 = st_begin_node(env, st, "Field Access Expression"@);
        let s2 = st_line(env, s1, "Is Propagating: "@, bool_text(self.is_propagating));
        let s3 = self.field.spec_log(env, s2);
        let s4 = st_set_last(s3);
        let s5 = self.expr.spec_log(env, s4);
        let s6 = st_pop(s5);
        s6
    }
}

impl AstNodeLog for ClosureExpr {
    fn log(&self, logger: &mut AstLogger)
        ensures
            final(logger).text() == old(logger).text() + old(logger).header("Closure Expression"@),
            final(logger).levels() == old(logger).levels(),
    {
        logger.begin_ast_node("Closure Expression");
        logger.pop_indent();
    }

    open spec fn spec_log(&self, env: LogEnv, st: LogState) -> LogState
    {
        let s1 = st_begin_node(env, st, "Closure Expression"@);
        let s2 = st_pop(s1);
        s2
    }
}

impl AstNodeLog for IfExpr {
    fn log(&self, logger: &mut AstLogger)
        ensures
            is_prefix(old(logger).text() + old(logger).header("If Expression"@), final(logger).text()),
        decreases self,
    {
        logger.begin_ast_node("If Expression");
        logger.begin_last("Condition");
        self.cond.log(logger);
        logger.pop_indent();
        logger.set_last_at_indent_if(self.else_body.is_none());
        logger.begin_last("Body");
        logger.enter_node(self.body.node_id());
        self.body.log(logger);
        logger.pop_indent();
        logger.set_last_at_indent();
        if let Some(else_body) = &self.else_body {
            logger.begin_last("Else Body");
            else_body.log(logger);
            logger.pop_indent();
        }
        logger.pop_indent();
    }

    open spec fn spec_log(&self, env: LogEnv, st: LogState) -> LogState
        decreases self, 0int,
    {
        let s1 = st_begin_node(env, st, "If Expression"@);
        let s2 = st_begin_last(env, s1, "Condition"@);
        let s3 = self.cond.spec_log(env, s2);
        let s4 = st_pop(s3);
        let s5 = st_set_last_if(s4, (self.else_body is None));
        let s6 = st_begin_last(env, s5, "Body"@);
        let s7 = st_enter(s6, self.body.spec_node_id());
        let s8 = self.body.spec_log(env, s7);
        let s9 = st_pop(s8);
        let s10 = st_set_last(s9);
        let s14 = match self.else_body {
            Some(else_body) => {
                let s11 = st_begin_last(env, s10, "Else Body"@);
                let s12 = else_body.spec_log(env, s11);
                let s13 = st_pop(s12);
                s13
            },
            None => s10,
        };
        let s15 = st_pop(s14);
        s15
    }
}

/// An if expression writes its header, then its condition, then its body,
/// then its else branch where there is one, the last of them as the last child.
pub proof fn lemma_if_log_cond_body_else(n: IfExpr, env: LogEnv, st: LogState)
    ensures
        ({
            let s1 = st_begin_node(env, st, "If Expression"@);
            let s2 = st_begin_last(env, s1, "Condition"@);
            let s3 = n.cond.spec_log(env, s2);
            let s4 = st_pop(s3);
            let s5 = st_set_last_if(s4, (n.else_body is None));
            let s6 = st_begin_last(env, s5, "Body"@);
            let s7 = st_enter(s6, n.body.spec_node_id());
            let s8 = n.body.spec_log(env, s7);
            let s9 = st_pop(s8);
            let s10 = st_set_last(s9);
            let s14 = match n.else_body {
                Some(else_body) => {
                    let s11 = st_begin_last(env, s10, "Else Body"@);
                    let s12 = else_body.spec_log(env, s11);
                    let s13 = st_pop(s12);
                    s13
                },
                None => s10,
            };
            let s15 = st_pop(s14);
            n.spec_log(env, st) == s15
        }),
{
}

impl AstNodeLog for LetBindingExpr {
    fn log(&self, logger: &mut AstLogger)
        ensures
            is_prefix(old(logger).text() + old(logger).header("Let Binding Expression"@), final(logger).text()),
        decreases self,
    {
        logger.begin_ast_node("Let Binding Expression");
        self.pattern.log(logger);
        logger.set_last_at_indent();
        self.scrutinee.log(logger);
        logger.pop_indent();
    }

    open spec fn spec_log(&self, env: LogEnv, st: LogState) -> LogState
        decreases self, 0int,
    {
        let s1 = st_begin_node(env, st, "Let Binding Expression"@);
        let s2 = self.pattern.spec_log(env, s1);
        let s3 = st_set_last(s2);
        let s4 = self.scrutinee.spec_log(env, s3);
        let s5 = st_pop(s4);
        s5
    }
}

/// A let binding writes its header, then its pattern, then its scrutinee as
/// the last child.
pub proof fn lemma_let_binding_log_pattern_then_scrutinee(n: LetBindingExpr, env: LogEnv, st: LogState)
    ensures
        ({
            let s1 = st_begin_node(env, st, "Let Binding Expression"@);
            let s2 = n.pattern.spec_log(env, s1);
            let s3 = st_set_last(s2);
            let s4 = n.scrutinee.spec_log(env, s3);
            let s5 = st_pop(s4);
            n.spec_log(env, st) == s5
        }),
{
}

impl AstNodeLog for LoopExpr {
    fn log(&self, logger: &mut AstLogger)
        ensures
            is_prefix(old(logger).text() + old(logger).header("Loop expression"@), final(logger).text()),
        decreases self,
    {
        logger.begin_ast_node("Loop expression");
        logger.opt_name_line("Label: ", self.label);
        logger.set_last_at_indent();
        let prev = logger.enter_node(self.body.node_id());
        self.body.log(logger);
        logger.enter_node(prev);
        logger.pop_indent();
    }

    open spec fn spec_log(&self, env: LogEnv, st: LogState) -> LogState
        decreases self, 0int,
    {
        let s1 = st_begin_node(env, st, "Loop expression"@);
        let s2 = match self.label { Some(id) => st_line(env, s1, "Label: "@, table_name_text(env.names, id)), None => s1 };
        let s3 = st_set_last(s2);
        let prev = s3.node;
        let s4 = st_enter(s3, self.body.spec_node_id());
        let s5 = self.body.spec_log(env, s4);
        let s6 = st_enter(s5, prev);
        let s7 = st_pop(s6);
        s7
    }
}

impl AstNodeLog for WhileExpr {
    fn log(&self, logger: &mut AstLogger)
        ensures
            is_prefix(old(logger).text() + old(logger).header("While Expression"@), final(logger).text()),
        decreases self,
    {
        logger.begin_ast_node("While Expression");
        logger.opt_name_line("Label: ", self.label);
        logger.begin_last("Condition");
        self.cond.log(logger);
        logger.pop_indent();
        if let Some(inc) = &self.inc {
            logger.begin_last("Increment");
            inc.log(logger);
            logger.pop_indent();
        }
        logger.set_last_at_indent_if(self.else_body.is_none());
        logger.begin_last("Body");
        logger.enter_node(self.body.node_id());
        self.body.log(logger);
        logger.pop_indent();
        logger.set_last_at_indent();
        if let Some(else_body) = &self.else_body {
            logger.begin_last("Else Body");
            logger.enter_node(else_body.node_id());
            else_body.log(logger);
            logger.pop_indent();
        }
        logger.pop_indent();
    }

    open spec fn spec_log(&self, env: LogEnv, st: LogState) -> LogState
        decreases self, 0int,
    {
        let s1 = st_begin_node(env, st, "While Expression"@);
        let s2 = match self.label { Some(id) => st_line(env, s1, "Label: "@, table_name_text(env.names, id)), None => s1 };
        let s3 = st_begin_last(env, s2, "Condition"@);
        let s4 = self.cond.spec_log(env, s3);
        let s5 = st_pop(s4);
        let s9 = match self.inc {
            Some(inc) => {
                let s6 = st_begin_last(env, s5, "Increment"@);
                let s7 = inc.spec_log(env, s6);
                let s8 = st_pop(s7);
                s8
            },
            None => s5,
        };
        let s10 = st_set_last_if(s9, (self.else_body is None));
        let s11 = st_begin_last(env, s10, "Body"@);
        let s12 = st_enter(s11, self.body.spec_node_id());
        let s13 = self.body.spec_log(env, s12);
        let s14 = st_pop(s13);
        let s15 = st_set_last(s14);
        let s20 = match self.else_body {
            Some(else_body) => {
                let s16 = st_begin_last(env, s15, "Else Body"@);
                let s17 = st_enter(s16, else_body.spec_node_id());
                let s18 = else_body.spec_log(env, s17);
                let s19 = st_pop(s18);
                s19
            },
            None => s15,
        };
        let s21 = st_pop(s20);
        s21
    }
}

/// A while loop writes its header and label, then its condition, its
/// increment where there is one, its body, and its else branch where there
/// is one, in that order.
pub proof fn lemma_while_log_children_in_order(n: WhileExpr, env: LogEnv, st: LogState)
    ensures
        ({
            let s1 = st_begin_node(env, st, "While Expression"@);
            let s2 = match n.label { Some(id) => st_line(env, s1, "Label: "@, table_name_text(env.names, id)), None => s1 };
            let s3 = st_begin_last(env, s2, "Condition"@);
            let s4 = n.cond.spec_log(env, s3);
            let s5 = st_pop(s4);
            let s9 = match n.inc {
                Some(inc) => {
                    let s6 = st_begin_last(env, s5, "Increment"@);
                    let s7 = inc.spec_log(env, s6);
                    let s8 = st_pop(s7);
                    s8
                },
                None => s5,
            };
            let s10 = st_set_last_if(s9, (n.else_body is None));
            let s11 = st_begin_last(env, s10, "Body"@);
            let s12 = st_enter(s11, n.body.spec_node_id());
            let s13 = n.body.spec_log(env, s12);
            let s14 = st_pop(s13);
            let s15 = st_set_last(s14);
            let s20 = match n.else_body {
                Some(else_body) => {
                    let s16 = st_begin_last(env, s15, "Else Body"@);
                    let s17 = st_enter(s16, else_body.spec_node_id());
                    let s18 = else_body.spec_log(env, s17);
                    let s19 = st_pop(s18);
                    s19
                },
                None => s15,
            };
            let s21 = st_pop(s20);
            n.spec_log(env, st) == s21
        }),
{
}

impl AstNodeLog for DoWhileExpr {
    fn log(&self, logger: &mut AstLogger)
        ensures
            is_prefix(old(logger).text() + old(logger).header("Do While Expression"@), final(logger).text()),
        decreases self,
    {
        logger.begin_ast_node("Do While Expression");
        logger.opt_name_line("Label: ", self.label);
        logger.begin_last("Body");
        logger.enter_node(self.body.node_id());
        self.body.log(logger);
        logger.pop_indent();
        logger.set_last_at_indent();
        logger.begin_last("Condition");
        self.cond.log(logger);
        logger.pop_indent();
        logger.pop_indent();
    }

    open spec fn spec_log(&self, env: LogEnv, st: LogState) -> LogState
        decreases self, 0int,
    {
        let s1 = st_begin_node(env, st, "Do While Expression"@);
        let s2 = match self.label { Some(id) => st_line(env, s1, "Label: "@, table_name_text(env.names, id)), None => s1 };
        let s3 = st_begin_last(env, s2, "Body"@);
        let s4 = st_enter(s3, self.body.spec_node_id());
        let s5 = self.body.spec_log(env, s4);
        let s6 = st_pop(s5);
        let s7 = st_set_last(s6);
        let s8 = st_begin_last(env, s7, "Condition"@);
        let s9 = self.cond.spec_log(env, s8);
        let s10 = st_pop(s9);
        let s11 = st_pop(s10);
        s11
    }
}

/// A do-while loop writes its header and label, then its body, then its
/// condition as the last child.
pub proof fn lemma_do_while_log_body_then_cond(n: DoWhileExpr, env: LogEnv, st: LogState)
    ensures
        ({
            let s1 = st_begin_node(env, st, "Do While Expression"@);
            let s2 = match n.label { Some(id) => st_line(env, s1, "Label: "@, table_name_text(env.names, id)), None => s1 };
            let s3 = st_begin_last(env, s2, "Body"@);
            let s4 = st_enter(s3, n.body.spec_node_id());
            let s5 = n.body.spec_log(env, s4);
            let s6 = st_pop(s5);
            let s7 = st_set_last(s6);
            let s8 = st_begin_last(env, s7, "Condition"@);
            let s9 = n.cond.spec_log(env, s8);
            let s10 = st_pop(s9);
            let s11 = st_pop(s10);
            n.spec_log(env, st) == s11
        }),
{
}

impl AstNodeLog for ForExpr {
    fn log(&self, logger: &mut AstLogger)
        ensures
            is_prefix(old(logger).text() + old(logger).header("For Expression"@), final(logger).text()),
        decreases self,
    {
        logger.begin_ast_node("For Expression");
        logger.opt_name_line("Label: ", self.label);
        logger.begin_last("Pattern");
        self.pattern.log(logger);
        logger.pop_indent();
        logger.begin_last("Src");
        self.src.log(logger);
        logger.pop_indent();
        logger.set_last_at_indent_if(self.else_body.is_some());
        logger.begin_last("Body");
        logger.enter_node(self.body.node_id());
        self.body.log(logger);
        logger.pop_indent();
        logger.set_last_at_indent();
        if let Some(else_body) = &self.else_body {
            logger.begin_last("Else Body");
            logger.enter_node(else_body.node_id());
            else_body.log(logger);
            logger.pop_indent();
        }
        logger.pop_indent();
    }

    open spec fn spec_log(&self, env: LogEnv, st: LogState) -> LogState
        decreases self, 0int,
    {
        let s1 = st_begin_node(env, st, "For Expression"@);
        let s2 = match self.label { Some(id) => st_line(env, s1, "Label: "@, table_name_text(env.names, id)), None => s1 };
        let s3 = st_begin_last(env, s2, "Pattern"@);
        let s4 = self.pattern.spec_log(env, s3);
        let s5 = st_pop(s4);
        let s6 = st_begin_last(env, s5, "Src"@);
        let s7 = self.src.spec_log(env, s6);
        let s8 = st_pop(s7);
        let s9 = st_set_last_if(s8, (self.else_body is Some));
        let s10 = st_begin_last(env, s9, "Body"@);
        let s11 = st_enter(s10, self.body.spec_node_id());
        let s12 = self.body.spec_log(env, s11);
        let s13 = st_pop(s12);
        let s14 = st_set_last(s13);
        let s19 = match self.else_body {
            Some(else_body) => {
                let s15 = st_begin_last(env, s14, "Else Body"@);
                let s16 = st_enter(s15, else_body.spec_node_id());
                let s17 = else_body.spec_log(env, s16);
                let s18 = st_pop(s17);
                s18
            },
            None => s14,
        };
        let s20 = st_pop(s19);
        s20
    }
}

/// A for loop writes its header and label, then its pattern, its source,
/// its body, and its else branch where there is one, in that order.
pub proof fn lemma_for_log_children_in_order(n: ForExpr, env: LogEnv, st: LogState)
    ensures
        ({
            let s1 = st_begin_node(env, st, "For Expression"@);
            let s2 = match n.label { Some(id) => st_line(env, s1, "Label: "@, table_name_text(env.names, id)), None => s1 };
            let s3 = st_begin_last(env, s2, "Pattern"@);
            let s4 = n.pattern.spec_log(env, s3);
            let s5 = st_pop(s4);
            let s6 = st_begin_last(env, s5, "Src"@);
            let s7 = n.src.spec_log(env, s6);
            let s8 = st_pop(s7);
            let s9 = st_set_last_if(s8, (n.else_body is Some));
            let s10 = st_begin_last(env, s9, "Body"@);
            let s11 = st_enter(s10, n.body.spec_node_id());
            let s12 = n.body.spec_log(env, s11);
            let s13 = st_pop(s12);
            let s14 = st_set_last(s13);
            let s19 = match n.else_body {
                Some(else_body) => {
                    let s15 = st_begin_last(env, s14, "Else Body"@);
                    let s16 = st_enter(s15, else_body.spec_node_id());
                    let s17 = else_body.spec_log(env, s16);
                    let s18 = st_pop(s17);
                    s18
                },
                None => s14,
            };
            let s20 = st_pop(s19);
            n.spec_log(env, st) == s20
        }),
{
}

impl AstNodeLog for MatchExpr {
    fn log(&self, logger: &mut AstLogger)
        ensures
            is_prefix(old(logger).text() + old(logger).header("Match Expression"@), final(logger).text()),
        decreases self,
    {
        logger.begin_ast_node("Match Expression");
        logger.opt_name_line("Label: ", self.label);
        logger.set_last_at_indent_if(self.branches.len() == 0);
        logger.begin_last("Scrutinee");
        self.scrutinee.log(logger);
        logger.pop_indent();
        logger.set_last_at_indent();
        log_branches_group(logger, "Branches", &self.branches);
        logger.pop_indent();
    }

    open spec fn spec_log(&self, env: LogEnv, st: LogState) -> LogState
        decreases self, 0int,
    {
        let s1 = st_begin_node(env, st, "Match Expression"@);
        let s2 = match self.label { Some(id) => st_line(env, s1, "Label: "@, table_name_text(env.names, id)), None => s1 };
        let s3 = st_set_last_if(s2, self.branches.len() == 0);
        let s4 = st_begin_last(env, s3, "Scrutinee"@);
        let s5 = self.scrutinee.spec_log(env, s4);
        let s6 = st_pop(s5);
        let s7 = st_set_last(s6);
        let s8 = spec_log_branches_group(env, s7, "Branches"@, self.branches@);
        let s9 = st_pop(s8);
        s9
    }
}

impl AstNodeLog for MatchBranch {
    fn log(&self, logger: &mut AstLogger)
        ensures
            is_prefix(old(logger).text() + old(logger).prefix() + "Branch"@ + "\n"@, final(logger).text()),
        decreases self,
    {
        logger.begin_indented("Branch");
        logger.opt_name_line("Label: ", self.label);
        logger.begin_last("Pattern");
        self.pattern.log(logger);
        logger.pop_indent();
        if let Some(guard) = &self.guard {
            logger.begin_last("Guard");
            guard.log(logger);
            logger.pop_indent();
        }
        logger.set_last_at_indent();
        logger.begin_last("Body");
        self.body.log(logger);
        logger.pop_indent();
        logger.pop_indent();
    }

    open spec fn spec_log(&self, env: LogEnv, st: LogState) -> LogState
        decreases self, 0int,
    {
        let s1 = st_begin_indented(env, st, "Branch"@);
        let s2 = match self.label { Some(id) => st_line(env, s1, "Label: "@, table_name_text(env.names, id)), None => s1 };
        let s3 = st_begin_last(env, s2, "Pattern"@);
        let s4 = self.pattern.spec_log(env, s3);
        let s5 = st_pop(s4);
        let s9 = match self.guard {
            Some(guard) => {
                let s6 = st_begin_last(env, s5, "Guard"@);
                let s7 = guard.spec_log(env, s6);
                let s8 = st_pop(s7);
                s8
            },
            None => s5,
        };
        let s10 = st_set_last(s9);
        let s11 = st_begin_last(env, s10, "Body"@);
        let s12 = self.body.spec_log(env, s11);
        let s13 = st_pop(s12);
        let s14 = st_pop(s13);
        s14
    }
}

/// A match branch writes its label, then its pattern, its guard where there
/// is one, and its body as the last child.
pub proof fn lemma_match_branch_log_children_in_order(n: MatchBranch, env: LogEnv, st: LogState)
    ensures
        ({
            let s1 = st_begin_indented(env, st, "Branch"@);
            let s2 = match n.label { Some(id) => st_line(env, s1, "Label: "@, table_name_text(env.names, id)), None => s1 };
            let s3 = st_begin_last(env, s2, "Pattern"@);
            let s4 = n.pattern.spec_log(env, s3);
            let s5 = st_pop(s4);
            let s9 = match n.guard {
                Some(guard) => {
                    let s6 = st_begin_last(env, s5, "Guard"@);
                    let s7 = guard.spec_log(env, s6);
                    let s8 = st_pop(s7);
                    s8
                },
                None => s5,
            };
            let s10 = st_set_last(s9);
            let s11 = st_begin_last(env, s10, "Body"@);
            let s12 = n.body.spec_log(env, s11);
            let s13 = st_pop(s12);
            let s14 = st_pop(s13);
            n.spec_log(env, st) == s14
        }),
{
}

impl AstNodeLog for BreakExpr {
    fn log(&self, logger: &mut AstLogger)
        ensures
            is_prefix(old(logger).text() + old(logger).header("Continue Expr"@), final(logger).text()),
        decreases self,
    {
        logger.begin_ast_node("Continue Expr");
        logger.opt_name_line("Label: ", self.label);
        logger.set_last_at_indent();
        if let Some(value) = &self.value {
            value.log(logger);
        }
        logger.pop_indent();
    }

    open spec fn spec_log(&self, env: LogEnv, st: LogState) -> LogState
        decreases self, 0int,
    {
        let s1 = st_begin_node(env, st, "Continue Expr"@);
        let s2 = match self.label { Some(id) => st_line(env, s1, "Label: "@, table_name_text(env.names, id)), None => s1 };
        let s3 = st_set_last(s2);
        let s5 = match self.value {
            Some(value) => {
                let s4 = value.spec_log(env, s3);
                s4
            },
            None => s3,
        };
        let s6 = st_pop(s5);
        s6
    }
}

impl AstNodeLog for ContinueExpr {
    fn log(&self, logger: &mut AstLogger)
        ensures
            final(logger).text() == old(logger).text() + old(logger).header("Continue Expr"@) + match self.label {
                Some(label) => old(logger).prefix_for(old(logger).levels().push(false)) + "Label: "@
                    + old(logger).name_text(label) + "\n"@,
                None => Seq::<char>::empty(),
            },
            final(logger).levels() == old(logger).levels(),
    {
        logger.begin_ast_node("Continue Expr");
        logger.opt_name_line("Label: ", self.label);
        logger.pop_indent();
    }

    open spec fn spec_log(&self, env: LogEnv, st: LogState) -> LogState
    {
        let s1 = st_begin_node(env, st, "Continue Expr"@);
        let s2 = match self.label { Some(id) => st_line(env, s1, "Label: "@, table_name_text(env.names, id)), None => s1 };
        let s3 = st_pop(s2);
        s3
    }
}

impl AstNodeLog for FallthroughExpr {
    fn log(&self, logger: &mut AstLogger)
        ensures
            final(logger).text() == old(logger).text() + old(logger).header("Fallthrough Expr"@) + match self.label {
                Some(label) => old(logger).prefix_for(old(logger).levels().push(false)) + "Label: "@
                    + old(logger).name_text(label) + "\n"@,
                None => Seq::<char>::empty(),
            },
            final(logger).levels() == old(logger).levels(),
    {
        logger.begin_ast_node("Fallthrough Expr");
        logger.opt_name_line("Label: ", self.label);
        logger.pop_indent();
    }

    open spec fn spec_log(&self, env: LogEnv, st: LogState) -> LogState
    {
        let s1 = st_begin_node(env, st, "Fallthrough Expr"@);
        let s2 = match self.label { Some(id) => st_line(env, s1, "Label: "@, table_name_text(env.names, id)), None => s1 };
        let s3 = st_pop(s2);
        s3
    }
}

impl AstNodeLog for ReturnExpr {
    fn log(&self, logger: &mut AstLogger)
        ensures
            is_prefix(old(logger).text() + old(logger).header("Continue Expr"@), final(logger).text()),
        decreases self,
    {
        logger.begin_ast_node("Continue Expr");
        logger.set_last_at_indent();
        if let Some(value) = &self.value {
            value.log(logger);
        }
        logger.pop_indent();
    }

    open spec fn spec_log(&self, env: LogEnv, st: LogState) -> LogState
        decreases self, 0int,
    {
        let s1 = st_begin_node(env, st, "Continue Expr"@);
        let s2 = st_set_last(s1);
        let s4 = match self.value {
            Some(value) => {
                let s3 = value.spec_log(env, s2);
                s3
            },
            None => s2,
        };
        let s5 = st_pop(s4);
        s5
    }
}

impl AstNodeLog for UnderscoreExpr {
    fn log(&self, logger: &mut AstLogger)
        ensures
            final(logger).text() == old(logger).text() + old(logger).prefix() + "Underscore expression"@ + "\n"@,
            final(logger).levels() == old(logger).levels(),
    {
        logger.prefixed_logln("Underscore expression");
    }

    open spec fn spec_log(&self, env: LogEnv, st: LogState) -> LogState
    {
        let s1 = st_log(st_prefixed(env, st, "Underscore expression"@), "\n"@);
        s1
    }
}

impl AstNodeLog for ThrowExpr {
    fn log(&self, logger: &mut AstLogger)
        ensures
            is_prefix(old(logger).text() + old(logger).header("Throw Expression"@), final(logger).text()),
        decreases self,
    {
        logger.begin_ast_node("Throw Expression");
        self.expr.log(logger);
        logger.pop_indent();
    }

    open spec fn spec_log(&self, env: LogEnv, st: LogState) -> LogState
        decreases self, 0int,
    {
        let s1 = st_begin_node(env, st, "Throw Expression"@);
        let s2 = self.expr.spec_log(env, s1);
        let s3 = st_pop(s2);
        s3
    }
}

impl AstNodeLog for CommaExpr {
    fn log(&self, logger: &mut AstLogger)
        ensures
            is_prefix(old(logger).text() + old(logger).header("Comma expression"@), final(logger).text()),
        decreases self,
    {
        logger.begin_ast_node("Comma expression");
        log_exprs(logger, &self.exprs);
        logger.pop_indent();
    }

    open spec fn spec_log(&self, env: LogEnv, st: LogState) -> LogState
        decreases self, 0int,
    {
        let s1 = st_begin_node(env, st, "Comma expression"@);
        let s2 = spec_log_exprs(env, s1, self.exprs@);
        let s3 = st_pop(s2);
        s3
    }
}

impl AstNodeLog for WhenExpr {
    fn log(&self, logger: &mut AstLogger)
        ensures
            is_prefix(old(logger).text() + old(logger).header("When Expression"@), final(logger).text()),
        decreases self,
    {
        logger.begin_ast_node("When Expression");
        logger.begin_last("Condition");
        self.cond.log(logger);
        logger.pop_indent();
        logger.set_last_at_indent_if(self.else_body.is_none());
        logger.begin_last("Body");
        logger.enter_node(self.body.node_id());
        self.body.log(logger);
        logger.pop_indent();
        logger.set_last_at_indent();
        if let Some(else_body) = &self.else_body {
            logger.begin_last("Else Body");
            else_body.log(logger);
            logger.pop_indent();
        }
        logger.pop_indent();
    }

    open spec fn spec_log(&self, env: LogEnv, st: LogState) -> LogState
        decreases self, 0int,
    {
        let s1 = st_begin_node(env, st, "When Expression"@);
        let s2 = st_begin_last(env, s1, "Condition"@);
        let s3 = self.cond.spec_log(env, s2);
        let s4 = st_pop(s3);
        let s5 = st_set_last_if(s4, (self.else_body is None));
        let s6 = st_begin_last(env, s5, "Body"@);
        let s7 = st_enter(s6, self.body.spec_node_id());
        let s8 = self.body.spec_log(env, s7);
        let s9 = st_pop(s8);
        let s10 = st_set_last(s9);
        let s14 = match self.else_body {
            Some(else_body) => {
                let s11 = st_begin_last(env, s10, "Else Body"@);
                let s12 = else_body.spec_log(env, s11);
                let s13 = st_pop(s12);
                s13
            },
            None => s10,
        };
        let s15 = st_pop(s14);
        s15
    }
}

/// A when expression writes its header, then its condition, then its body,
/// then its else branch where there is one.
pub proof fn lemma_when_log_cond_body_else(n: WhenExpr, env: LogEnv, st: LogState)
    ensures
        ({
            let s1 = st_begin_node(env, st, "When Expression"@);
            let s2 = st_begin_last(env, s1, "Condition"@);
            let s3 = n.cond.spec_log(env, s2);
            let s4 = st_pop(s3);
            let s5 = st_set_last_if(s4, (n.else_body is None));
            let s6 = st_begin_last(env, s5, "Body"@);
            let s7 = st_enter(s6, n.body.spec_node_id());
            let s8 = n.body.spec_log(env, s7);
            let s9 = st_pop(s8);
            let s10 = st_set_last(s9);
            let s14 = match n.else_body {
                Some(else_body) => {
                    let s11 = st_begin_last(env, s10, "Else Body"@);
                    let s12 = else_body.spec_log(env, s11);
                    let s13 = st_pop(s12);
                    s13
                },
                None => s10,
            };
            let s15 = st_pop(s14);
            n.spec_log(env, st) == s15
        }),
{
}

impl AstNodeLog for LiteralPattern {
    fn log(&self, logger: &mut AstLogger) {
        logger.begin_ast_node("Literal Pattern");
        log_literal_value(logger, &self.literal);
        logger.set_last_at_indent();
        if let Some(lit_op) = &self.lit_op {
            lit_op.log(logger);
        }
        logger.pop_indent();
    }

    open spec fn spec_log(&self, env: LogEnv, st: LogState) -> LogState
    {
        let s1 = st_begin_node(env, st, "Literal Pattern"@);
        let s2 = spec_log_literal_value(env, s1, self.literal);
        let s3 = st_set_last(s2);
        let s5 = match self.lit_op {
            Some(lit_op) => {
                let s4 = lit_op.spec_log(env, s3);
                s4
            },
            None => s3,
        };
        let s6 = st_pop(s5);
        s6
    }
}

impl AstNodeLog for IdentifierPattern {
    fn log(&self, logger: &mut AstLogger)
        ensures
            is_prefix(old(logger).text() + old(logger).header("Identifier Pattern"@), final(logger).text()),
        decreases self,
    {
        logger.begin_ast_node("Identifier Pattern");
        logger.bool_line("Is Ref: ", self.is_ref);
        logger.bool_line("Is Mut: ", self.is_mut);
        logger.name_line("Name: ", self.name);
        logger.set_last_at_indent();
        if let Some(bound) = &self.bound {
            logger.begin_last("Bound");
            bound.log(logger);
            logger.pop_indent();
        }
        logger.pop_indent();
    }

    open spec fn spec_log(&self, env: LogEnv, st: LogState) -> LogState
        decreases self, 0int,
    {
        let s1 = st_begin_node(env, st, "Identifier Pattern"@);
        let s2 = st_line(env, s1, "Is Ref: "@, bool_text(self.is_ref));
        let s3 = st_line(env, s2, "Is Mut: "@, bool_text(self.is_mut));
        let s4 = st_line(env, s3, "Name: "@, table_name_text(env.names, self.name));
        let s5 = st_set_last(s4);
        let s9 = match self.bound {
            Some(bound) => {
                let s6 = st_begin_last(env, s5, "Bound"@);
                let s7 = bound.spec_log(env, s6);
                let s8 = st_pop(s7);
                s8
            },
            None => s5,
        };
        let s10 = st_pop(s9);
        s10
    }
}

impl AstNodeLog for PathPattern {
    fn log(&self, logger: &mut AstLogger)
        ensures
            is_prefix(old(logger).text() + old(logger).header("Path Pattern"@), final(logger).text()),
        decreases self,
    {
        logger.begin_ast_node("Path Pattern");
        logger.set_last_at_indent();
        let prev = logger.enter_node(self.path.node_id());
        self.path.log(logger);
        logger.enter_node(prev);
        logger.pop_indent();
    }

    open spec fn spec_log(&self, env: LogEnv, st: LogState) -> LogState
        decreases self, 0int,
    {
        let s1 = st_begin_node(env, st, "Path Pattern"@);
        let s2 = st_set_last(s1);
        let prev = s2.node;
        let s3 = st_enter(s2, self.path.spec_node_id());
        let s4 = self.path.spec_log(env, s3);
        let s5 = st_enter(s4, prev);
        let s6 = st_pop(s5);
        s6
    }
}

impl AstNodeLog for WildcardPattern {
    fn log(&self, logger: &mut AstLogger)
        ensures
            final(logger).text() == old(logger).text() + old(logger).prefix() + "Wildcard Pattern"@ + "\n"@,
            final(logger).levels() == old(logger).levels(),
    {
        logger.prefixed_logln("Wildcard Pattern");
    }

    open spec fn spec_log(&self, env: LogEnv, st: LogState) -> LogState
    {
        let s1 = st_log(st_prefixed(env, st, "Wildcard Pattern"@), "\n"@);
        s1
    }
}

impl AstNodeLog for RestPattern {
    fn log(&self, logger: &mut AstLogger)
        ensures
            final(logger).text() == old(logger).text() + old(logger).prefix() + "Rest Pattern"@ + "\n"@,
            final(logger).levels() == old(logger).levels(),
    {
        logger.prefixed_logln("Rest Pattern");
    }

    open spec fn spec_log(&self, env: LogEnv, st: LogState) -> LogState
    {
        let s1 = st_log(st_prefixed(env, st, "Rest Pattern"@), "\n"@);
        s1
    }
}

impl AstNodeLog for RangePattern {
    fn log(&self, logger: &mut AstLogger)
        ensures
            is_prefix(old(logger).text() + old(logger).prefix() + match self {
                RangePattern::Exclusive { .. } => "Exclusive Range Pattern"@,
                RangePattern::Inclusive { .. } => "Inclusive Range Pattern"@,
                RangePattern::From { .. } => "From Range Pattern"@,
                RangePattern::To { .. } => "To Range Pattern"@,
                RangePattern::InclusiveTo { .. } => "Inclusive To Range Pattern"@,
            } + "\n"@, final(logger).text()),
        decreases self,
    {
        match self {
            RangePattern::Exclusive { begin, end, .. } => {
                logger.begin_indented("Exclusive Range Pattern");
                logger.begin_last("Begin");
                begin.log(logger);
                logger.pop_indent();
                logger.set_last_at_indent();
                logger.begin_last("End");
                end.log(logger);
                logger.pop_indent();
                logger.pop_indent();
            },
            RangePattern::Inclusive { begin, end, .. } => {
                logger.begin_indented("Inclusive Range Pattern");
                logger.begin_last("Begin");
                begin.log(logger);
                logger.pop_indent();
                logger.set_last_at_indent();
                logger.begin_last("End");
                end.log(logger);
                logger.pop_indent();
                logger.pop_indent();
            },
            RangePattern::From { begin, .. } => {
                logger.begin_indented("From Range Pattern");
                logger.set_last_at_indent();
                logger.begin_last("Begin");
                begin.log(logger);
                logger.pop_indent();
                logger.pop_indent();
            },
            RangePattern::To { end, .. } => {
                logger.begin_indented("To Range Pattern");
                logger.set_last_at_indent();
                logger.begin_last("End");
                end.log(logger);
                logger.pop_indent();
                logger.pop_indent();
            },
            RangePattern::InclusiveTo { end, .. } => {
                logger.begin_indented("Inclusive To Range Pattern");
                logger.set_last_at_indent();
                logger.begin_last("End");
                end.log(logger);
                logger.pop_indent();
                logger.pop_indent();
            },
        }
    }

    open spec fn spec_log(&self, env: LogEnv, st: LogState) -> LogState
        decreases self, 0int,
    {
        let s1 = match *self {
            RangePattern::Exclusive { begin, end, .. } => {
                let s2 = st_begin_indented(env, st, "Exclusive Range Pattern"@);
                let s3 = st_begin_last(env, s2, "Begin"@);
                let s4 = begin.spec_log(env, s3);
                let s5 = st_pop(s4);
                let s6 = st_set_last(s5);
                let s7 = st_begin_last(env, s6, "End"@);
                let s8 = end.spec_log(env, s7);
                let s9 = st_pop(s8);
                let s10 = st_pop(s9);
                s10
            },
            RangePattern::Inclusive { begin, end, .. } => {
                let s11 = st_begin_indented(env, st, "Inclusive Range Pattern"@);
                let s12 = st_begin_last(env, s11, "Begin"@);
                let s13 = begin.spec_log(env, s12);
                let s14 = st_pop(s13);
                let s15 = st_set_last(s14);
                let s16 = st_begin_last(env, s15, "End"@);
                let s17 = end.spec_log(env, s16);
                let s18 = st_pop(s17);
                let s19 = st_pop(s18);
                s19
            },
            RangePattern::From { begin, .. } => {
                let s20 = st_begin_indented(env, st, "From Range Pattern"@);
                let s21 = st_set_last(s20);
                let s22 = st_begin_last(env, s21, "Begin"@);
                let s23 = begin.spec_log(env, s22);
                let s24 = st_pop(s23);
                let s25 = st_pop(s24);
                s25
            },
            RangePattern::To { end, .. } => {
                let s26 = st_begin_indented(env, st, "To Range Pattern"@);
                let s27 = st_set_last(s26);
                let s28 = st_begin_last(env, s27, "End"@);
                let s29 = end.spec_log(env, s28);
                let s30 = st_pop(s29);
                let s31 = st_pop(s30);
                s31
            },
            RangePattern::InclusiveTo { end, .. } => {
                let s32 = st_begin_indented(env, st, "Inclusive To Range Pattern"@);
                let s33 = st_set_last(s32);
                let s34 = st_begin_last(env, s33, "End"@);
                let s35 = end.spec_log(env, s34);
                let s36 = st_pop(s35);
                let s37 = st_pop(s36);
                s37
            },
        };
        s1
    }
}

impl AstNodeLog for ReferencePattern {
    fn log(&self, logger: &mut AstLogger)
        ensures
            is_prefix(old(logger).text() + old(logger).header("Reference Pattern"@), final(logger).text()),
        decreases self,
    {
        logger.begin_ast_node("Reference Pattern");
        logger.bool_line("Is Mut: ", self.is_mut);
        logger.set_last_at_indent();
        self.pattern.log(logger);
        logger.pop_indent();
    }

    open spec fn spec_log(&self, env: LogEnv, st: LogState) -> LogState
        decreases self, 0int,
    {
        let s1 = st_begin_node(env, st, "Reference Pattern"@);
        let s2 = st_line(env, s1, "Is Mut: "@, bool_text(self.is_mut));
        let s3 = st_set_last(s2);
        let s4 = self.pattern.spec_log(env, s3);
        let s5 = st_pop(s4);
        s5
    }
}

impl AstNodeLog for StructPattern {
    fn log(&self, logger: &mut AstLogger)
        ensures
            is_prefix(old(logger).text() + old(logger).header("Struct Pattern"@), final(logger).text()),
        decreases self,
    {
        logger.begin_ast_node("Struct Pattern");
        match self {
            StructPattern::Inferred { fields, .. } => {
                logger.prefixed_logln("Inferred Path");
                logger.set_last_at_indent();
                log_pattern_fields_group(logger, "Fields", fields);
            },
            StructPattern::Path { path, fields, .. } => {
                logger.begin_last("Path");
                logger.enter_node(path.node_id());
                path.log(logger);
                logger.pop_indent();
                logger.set_last_at_indent();
                log_pattern_fields_group(logger, "Fields", fields);
            },
        }
        logger.pop_indent();
    }

    open spec fn spec_log(&self, env: LogEnv, st: LogState) -> LogState
        decreases self, 0int,
    {
        let s1 = st_begin_node(env, st, "Struct Pattern"@);
        let s2 = match *self {
            StructPattern::Inferred { fields, .. } => {
                let s3 = st_log(st_prefixed(env, s1, "Inferred Path"@), "\n"@);
                let s4 = st_set_last(s3);
                let s5 = spec_log_pattern_fields_group(env, s4, "Fields"@, fields@);
                s5
            },
            StructPattern::Path { path, fields, .. } => {
                let s6 = st_begin_last(env, s1, "Path"@);
                let s7 = st_enter(s6, path.spec_node_id());
                let s8 = path.spec_log(env, s7);
                let s9 = st_pop(s8);
                let s10 = st_set_last(s9);
                let s11 = spec_log_pattern_fields_group(env, s10, "Fields"@, fields@);
                s11
            },
        };
        let s12 = st_pop(s2);
        s12
    }
}

impl AstNodeLog for StructPatternField {
    fn log(&self, logger: &mut AstLogger)
        decreases self,
    {
        match self {
            StructPatternField::Named { name, pattern, .. } => {
                logger.begin_indented("Named Struct Field");
                logger.name_line("Name: ", *name);
                logger.set_last_at_indent();
                pattern.log(logger);
                logger.pop_indent();
            },
            StructPatternField::TupleIndex { idx, pattern, .. } => {
                logger.begin_indented("Tuple Index Struct Field");
                logger.literal_line("Index: ", *idx);
                logger.set_last_at_indent();
                pattern.log(logger);
                logger.pop_indent();
            },
            StructPatternField::Iden { is_ref, is_mut, iden, bound, .. } => {
                logger.begin_indented("Iden Struct Field");
                logger.bool_line("Is Ref: ", *is_ref);
                logger.bool_line("Is Mut: ", *is_mut);
                logger.set_last_at_indent();
                logger.name_line("Name: ", *iden);
                if let Some(bound) = bound {
                    logger.begin_last("Bound");
                    bound.log(logger);
                    logger.pop_indent();
                }
                logger.pop_indent();
            },
            StructPatternField::Rest => logger.prefixed_logln("Rest Struct Field"),
        }
    }

    open spec fn spec_log(&self, env: LogEnv, st: LogState) -> LogState
        decreases self, 0int,
    {
        let s1 = match *self {
            StructPatternField::Named { name, pattern, .. } => {
                let s2 = st_begin_indented(env, st, "Named Struct Field"@);
                let s3 = st_line(env, s2, "Name: "@, table_name_text(env.names, name));
                let s4 = st_set_last(s3);
                let s5 = pattern.spec_log(env, s4);
                let s6 = st_pop(s5);
                s6
            },
            StructPatternField::TupleIndex { idx, pattern, .. } => {
                let s7 = st_begin_indented(env, st, "Tuple Index Struct Field"@);
                let s8 = st_line(env, s7, "Index: "@, table_literal_text(env.literals, idx));
                let s9 = st_set_last(s8);
                let s10 = pattern.spec_log(env, s9);
                let s11 = st_pop(s10);
                s11
            },
            StructPatternField::Iden { is_ref, is_mut, iden, bound, .. } => {
                let s12 = st_begin_indented(env, st, "Iden Struct Field"@);
                let s13 = st_line(env, s12, "Is Ref: "@, bool_text(is_ref));
                let s14 = st_line(env, s13, "Is Mut: "@, bool_text(is_mut));
                let s15 = st_set_last(s14);
                let s16 = st_line(env, s15, "Name: "@, table_name_text(env.names, iden));
                let s20 = match bound {
                    Some(bound) => {
                        let s17 = st_begin_last(env, s16, "Bound"@);
                        let s18 = bound.spec_log(env, s17);
                        let s19 = st_pop(s18);
                        s19
                    },
                    None => s16,
                };
                let s21 = st_pop(s20);
                s21
            },
            StructPatternField::Rest => {
                let s22 = st_log(st_prefixed(env, st, "Rest Struct Field"@), "\n"@);
                s22
            },
        };
        s1
    }
}

impl AstNodeLog for TuplePattern {
    fn log(&self, logger: &mut AstLogger)
        ensures
            is_prefix(old(logger).text() + old(logger).header("Tuple Pattern"@), final(logger).text()),
        decreases self,
    {
        logger.begin_ast_node("Tuple Pattern");
        logger.set_last_at_indent();
        log_patterns_group(logger, "Patterns", &self.patterns);
        logger.pop_indent();
    }

    open spec fn spec_log(&self, env: LogEnv, st: LogState) -> LogState
        decreases self, 0int,
    {
        let s1 = st_begin_node(env, st, "Tuple Pattern"@);
        let s2 = st_set_last(s1);
        let s3 = spec_log_patterns_group(env, s2, "Patterns"@, self.patterns@);
        let s4 = st_pop(s3);
        s4
    }
}

impl AstNodeLog for GroupedPattern {
    fn log(&self, logger: &mut AstLogger)
        ensures
            is_prefix(old(logger).text() + old(logger).header("Grouped Pattern"@), final(logger).text()),
        decreases self,
    {
        logger.begin_ast_node("Grouped Pattern");
        logger.set_last_at_indent();
        self.pattern.log(logger);
        logger.pop_indent();
    }

    open spec fn spec_log(&self, env: LogEnv, st: LogState) -> LogState
        decreases self, 0int,
    {
        let s1 = st_begin_node(env, st, "Grouped Pattern"@);
        let s2 = st_set_last(s1);
        let s3 = self.pattern.spec_log(env, s2);
        let s4 = st_pop(s3);
        s4
    }
}

impl AstNodeLog for SlicePattern {
    fn log(&self, logger: &mut AstLogger)
        ensures
            is_prefix(old(logger).text() + old(logger).header("Slice Pattern"@), final(logger).text()),
        decreases self,
    {
        logger.begin_ast_node("Slice Pattern");
        logger.set_last_at_indent();
        log_patterns_group(logger, "Patterns", &self.patterns);
        logger.pop_indent();
    }

    open spec fn spec_log(&self, env: LogEnv, st: LogState) -> LogState
        decreases self, 0int,
    {
        let s1 = st_begin_node(env, st, "Slice Pattern"@);
        let s2 = st_set_last(s1);
        let s3 = spec_log_patterns_group(env, s2, "Patterns"@, self.patterns@);
        let s4 = st_pop(s3);
        s4
    }
}

impl AstNodeLog for EnumMemberPattern {
    fn log(&self, logger: &mut AstLogger)
        ensures
            final(logger).text() == old(logger).text() + old(logger).header("Enum Member Pattern"@)
                + old(logger).prefix_for(old(logger).levels().push(false)) + "Enum Member: "@
                + old(logger).name_text(self.name) + "\n"@,
            final(logger).levels() == old(logger).levels(),
    {
        logger.begin_ast_node("Enum Member Pattern");
        logger.name_line("Enum Member: ", self.name);
        logger.pop_indent();
    }

    open spec fn spec_log(&self, env: LogEnv, st: LogState) -> LogState
    {
        let s1 = st_begin_node(env, st, "Enum Member Pattern"@);
        let s2 = st_line(env, s1, "Enum Member: "@, table_name_text(env.names, self.name));
        let s3 = st_pop(s2);
        s3
    }
}

impl AstNodeLog for AlternativePattern {
    fn log(&self, logger: &mut AstLogger)
        ensures
            is_prefix(old(logger).text() + old(logger).header("Alternative Pattern"@), final(logger).text()),
        decreases self,
    {
        logger.begin_ast_node("Alternative Pattern");
        logger.set_last_at_indent();
        log_patterns_group(logger, "Patterns", &self.patterns);
        logger.pop_indent();
    }

    open spec fn spec_log(&self, env: LogEnv, st: LogState) -> LogState
        decreases self, 0int,
    {
        let s1 = st_begin_node(env, st, "Alternative Pattern"@);
        let s2 = st_set_last(s1);
        let s3 = spec_log_patterns_group(env, s2, "Patterns"@, self.patterns@);
        let s4 = st_pop(s3);
        s4
    }
}

impl AstNodeLog for TypeCheckPattern {
    fn log(&self, logger: &mut AstLogger)
        ensures
            is_prefix(old(logger).text() + old(logger).header("Type Check Pattern"@), final(logger).text()),
        decreases self,
    {
        logger.begin_ast_node("Type Check Pattern");
        logger.set_last_at_indent();
        self.ty.log(logger);
        logger.pop_indent();
    }

    open spec fn spec_log(&self, env: LogEnv, st: LogState) -> LogState
        decreases self, 0int,
    {
        let s1 = st_begin_node(env, st, "Type Check Pattern"@);
        let s2 = st_set_last(s1);
        let s3 = self.ty.spec_log(env, s2);
        let s4 = st_pop(s3);
        s4
    }
}

impl AstNodeLog for ParenthesizedType {
    fn log(&self, logger: &mut AstLogger)
        ensures
            is_prefix(old(logger).text() + old(logger).header("Parenthesized Type"@), final(logger).text()),
        decreases self,
    {
        logger.begin_ast_node("Parenthesized Type");
        logger.set_last_at_indent();
        self.ty.log(logger);
        logger.pop_indent();
    }

    open spec fn spec_log(&self, env: LogEnv, st: LogState) -> LogState
        decreases self, 0int,
    {
        let s1 = st_begin_node(env, st, "Parenthesized Type"@);
        let s2 = st_set_last(s1);
        let s3 = self.ty.spec_log(env, s2);
        let s4 = st_pop(s3);
        s4
    }
}

/// The name of a primitive type.
pub open spec fn primitive_type_name(ty: type_system::PrimitiveType) -> Seq<char> {
    match ty {
        type_system::PrimitiveType::U8 => "u8"@,
        type_system::PrimitiveType::U16 => "u16"@,
        type_system::PrimitiveType::U32 => "u32"@,
        type_system::PrimitiveType::U64 => "u64"@,
        type_system::PrimitiveType::U128 => "u128"@,
        type_system::PrimitiveType::Usize => "usize"@,
        type_system::PrimitiveType::I8 => "i8"@,
        type_system::PrimitiveType::I16 => "i16"@,
        type_system::PrimitiveType::I32 => "i32"@,
        type_system::PrimitiveType::I64 => "i64"@,
        type_system::PrimitiveType::I128 => "i128"@,
        type_system::PrimitiveType::Isize => "isize"@,
        type_system::PrimitiveType::F16 => "f16"@,
        type_system::PrimitiveType::F32 => "f32"@,
        type_system::PrimitiveType::F64 => "f64"@,
        type_system::PrimitiveType::F128 => "f128"@,
        type_system::PrimitiveType::Bool => "bool"@,
        type_system::PrimitiveType::B8 => "b8"@,
        type_system::PrimitiveType::B16 => "b16"@,
        type_system::PrimitiveType::B32 => "b32"@,
        type_system::PrimitiveType::B64 => "b64"@,
        type_system::PrimitiveType::Char => "char"@,
        type_system::PrimitiveType::Char7 => "char7"@,
        type_system::PrimitiveType::Char8 => "char8"@,
        type_system::PrimitiveType::Char16 => "char16"@,
        type_system::PrimitiveType::Char32 => "char32"@,
    }
}

/// The name of a primitive type.
fn primitive_name(ty: type_system::PrimitiveType) -> (r: &'static str)
    ensures
        r@ == primitive_type_name(ty),
{
    match ty {
        type_system::PrimitiveType::U8 => "u8",
        type_system::PrimitiveType::U16 => "u16",
        type_system::PrimitiveType::U32 => "u32",
        type_system::PrimitiveType::U64 => "u64",
        type_system::PrimitiveType::U128 => "u128",
        type_system::PrimitiveType::Usize => "usize",
        type_system::PrimitiveType::I8 => "i8",
        type_system::PrimitiveType::I16 => "i16",
        type_system::PrimitiveType::I32 => "i32",
        type_system::PrimitiveType::I64 => "i64",
        type_system::PrimitiveType::I128 => "i128",
        type_system::PrimitiveType::Isize => "isize",
        type_system::PrimitiveType::F16 => "f16",
        type_system::PrimitiveType::F32 => "f32",
        type_system::PrimitiveType::F64 => "f64",
        type_system::PrimitiveType::F128 => "f128",
        type_system::PrimitiveType::Bool => "bool",
        type_system::PrimitiveType::B8 => "b8",
        type_system::PrimitiveType::B16 => "b16",
        type_system::PrimitiveType::B32 => "b32",
        type_system::PrimitiveType::B64 => "b64",
        type_system::PrimitiveType::Char => "char",
        type_system::PrimitiveType::Char7 => "char7",
        type_system::PrimitiveType::Char8 => "char8",
        type_system::PrimitiveType::Char16 => "char16",
        type_system::PrimitiveType::Char32 => "char32",
    }
}

impl AstNodeLog for PrimitiveType {
    fn log(&self, logger: &mut AstLogger)
        ensures
            final(logger).text() == old(logger).text() + old(logger).header("Primitive Type"@)
                + old(logger).prefix_for(old(logger).levels().push(true)) + "Primitive: "@
                + primitive_type_name(self.ty) + "\n"@,
            final(logger).levels() == old(logger).levels(),
    {
        logger.begin_ast_node("Primitive Type");
        logger.set_last_at_indent();
        assert(logger.levels() =~= old(logger).levels().push(true));
        logger.prefixed_log("Primitive: ");
        logger.logln(primitive_name(self.ty));
        logger.pop_indent();
    }

    open spec fn spec_log(&self, env: LogEnv, st: LogState) -> LogState
    {
        let s1 = st_begin_node(env, st, "Primitive Type"@);
        let s2 = st_set_last(s1);
        let s3 = st_prefixed(env, s2, "Primitive: "@);
        let s4 = st_log(st_log(s3, primitive_type_name(self.ty)), "\n"@);
        let s5 = st_pop(s4);
        s5
    }
}

impl AstNodeLog for UnitType {
    fn log(&self, logger: &mut AstLogger)
        ensures
            final(logger).text() == old(logger).text() + old(logger).prefix() + "Unit Type"@ + "\n"@,
            final(logger).levels() == old(logger).levels(),
    {
        logger.prefixed_logln("Unit Type");
    }

    open spec fn spec_log(&self, env: LogEnv, st: LogState) -> LogState
    {
        let s1 = st_log(st_prefixed(env, st, "Unit Type"@), "\n"@);
        s1
    }
}

impl AstNodeLog for NeverType {
    fn log(&self, logger: &mut AstLogger)
        ensures
            final(logger).text() == old(logger).text() + old(logger).prefix() + "Never Type"@ + "\n"@,
            final(logger).levels() == old(logger).levels(),
    {
        logger.prefixed_logln("Never Type");
    }

    open spec fn spec_log(&self, env: LogEnv, st: LogState) -> LogState
    {
        let s1 = st_log(st_prefixed(env, st, "Never Type"@), "\n"@);
        s1
    }
}

impl AstNodeLog for PathType {
    fn log(&self, logger: &mut AstLogger)
        ensures
            is_prefix(old(logger).text() + old(logger).header("Path Type"@), final(logger).text()),
        decreases self,
    {
        logger.begin_ast_node("Path Type");
        let prev = logger.enter_node(self.path.node_id());
        self.path.log(logger);
        logger.enter_node(prev);
        logger.pop_indent();
    }

    open spec fn spec_log(&self, env: LogEnv, st: LogState) -> LogState
        decreases self, 0int,
    {
        let s1 = st_begin_node(env, st, "Path Type"@);
        let prev = s1.node;
        let s2 = st_enter(s1, self.path.spec_node_id());
        let s3 = self.path.spec_log(env, s2);
        let s4 = st_enter(s3, prev);
        let s5 = st_pop(s4);
        s5
    }
}

impl AstNodeLog for TupleType {
    fn log(&self, logger: &mut AstLogger)
        ensures
            is_prefix(old(logger).text() + old(logger).header("Tuple Type"@), final(logger).text()),
        decreases self,
    {
        logger.begin_ast_node("Tuple Type");
        log_types_group(logger, "Types", &self.types);
        logger.pop_indent();
    }

    open spec fn spec_log(&self, env: LogEnv, st: LogState) -> LogState
        decreases self, 0int,
    {
        let s1 = st_begin_node(env, st, "Tuple Type"@);
        let s2 = spec_log_types_group(env, s1, "Types"@, self.types@);
        let s3 = st_pop(s2);
        s3
    }
}

impl AstNodeLog for ArrayType {
    fn log(&self, logger: &mut AstLogger)
        ensures
            is_prefix(old(logger).text() + old(logger).header("Array Type"@), final(logger).text()),
        decreases self,
    {
        logger.begin_ast_node("Array Type");
        logger.begin_last("Size");
        self.size.log(logger);
        logger.pop_indent();
        if let Some(sentinel) = &self.sentinel {
            logger.begin_last("Sentinel");
            sentinel.log(logger);
            logger.pop_indent();
        }
        logger.set_last_at_indent();
        self.ty.log(logger);
        logger.pop_indent();
    }

    open spec fn spec_log(&self, env: LogEnv, st: LogState) -> LogState
        decreases self, 0int,
    {
        let s1 = st_begin_node(env, st, "Array Type"@);
        let s2 = st_begin_last(env, s1, "Size"@);
        let s3 = self.size.spec_log(env, s2);
        let s4 = st_pop(s3);
        let s8 = match self.sentinel {
            Some(sentinel) => {
                let s5 = st_begin_last(env, s4, "Sentinel"@);
                let s6 = sentinel.spec_log(env, s5);
                let s7 = st_pop(s6);
                s7
            },
            None => s4,
        };
        let s9 = st_set_last(s8);
        let s10 = self.ty.spec_log(env, s9);
        let s11 = st_pop(s10);
        s11
    }
}

impl AstNodeLog for SliceType {
    fn log(&self, logger: &mut AstLogger)
        ensures
            is_prefix(old(logger).text() + old(logger).header("Slice Type"@), final(logger).text()),
        decreases self,
    {
        logger.begin_ast_node("Slice Type");
        if let Some(sentinel) = &self.sentinel {
            logger.begin_last("Sentinel");
            sentinel.log(logger);
            logger.pop_indent();
        }
        logger.set_last_at_indent();
        self.ty.log(logger);
        logger.pop_indent();
    }

    open spec fn spec_log(&self, env: LogEnv, st: LogState) -> LogState
        decreases self, 0int,
    {
        let s1 = st_begin_node(env, st, "Slice Type"@);
        let s5 = match self.sentinel {
            Some(sentinel) => {
                let s2 = st_begin_last(env, s1, "Sentinel"@);
                let s3 = sentinel.spec_log(env, s2);
                let s4 = st_pop(s3);
                s4
            },
            None => s1,
        };
        let s6 = st_set_last(s5);
        let s7 = self.ty.spec_log(env, s6);
        let s8 = st_pop(s7);
        s8
    }
}

/// The name of a string slice type.
pub open spec fn string_slice_type_name(ty: type_system::StringSliceType) -> Seq<char> {
    match ty {
        type_system::StringSliceType::Str => "str"@,
        type_system::StringSliceType::Str7 => "str7"@,
        type_system::StringSliceType::Str8 => "str8"@,
        type_system::StringSliceType::Str16 => "str16"@,
        type_system::StringSliceType::Str32 => "str32"@,
        type_system::StringSliceType::CStr => "cstr"@,
    }
}

impl AstNodeLog for StringSliceType {
    fn log(&self, logger: &mut AstLogger)
        ensures
            final(logger).text() == old(logger).text() + old(logger).header("String Slice Type"@)
                + old(logger).prefix_for(old(logger).levels().push(false)) + "StringSlice: "@
                + string_slice_type_name(self.ty) + "\n"@,
            final(logger).levels() == old(logger).levels(),
    {
        logger.begin_ast_node("String Slice Type");
        logger.prefixed_log("StringSlice: ");
        match self.ty {
            type_system::StringSliceType::Str => logger.logln("str"),
            type_system::StringSliceType::Str7 => logger.logln("str7"),
            type_system::StringSliceType::Str8 => logger.logln("str8"),
            type_system::StringSliceType::Str16 => logger.logln("str16"),
            type_system::StringSliceType::Str32 => logger.logln("str32"),
            type_system::StringSliceType::CStr => logger.logln("cstr"),
        }
        logger.pop_indent();
    }

    open spec fn spec_log(&self, env: LogEnv, st: LogState) -> LogState
    {
        let s1 = st_begin_node(env, st, "String Slice Type"@);
        let s2 = st_prefixed(env, s1, "StringSlice: "@);
        let s3 = match self.ty {
            type_system::StringSliceType::Str => {
                let s4 = st_log(st_log(s2, "str"@), "\n"@);
                s4
            },
            type_system::StringSliceType::Str7 => {
                let s5 = st_log(st_log(s2, "str7"@), "\n"@);
                s5
            },
            type_system::StringSliceType::Str8 => {
                let s6 = st_log(st_log(s2, "str8"@), "\n"@);
                s6
            },
            type_system::StringSliceType::Str16 => {
                let s7 = st_log(st_log(s2, "str16"@), "\n"@);
                s7
            },
            type_system::StringSliceType::Str32 => {
                let s8 = st_log(st_log(s2, "str32"@), "\n"@);
                s8
            },
            type_system::StringSliceType::CStr => {
                let s9 = st_log(st_log(s2, "cstr"@), "\n"@);
                s9
            },
        };
        let s10 = st_pop(s3);
        s10
    }
}

impl AstNodeLog for PointerType {
    fn log(&self, logger: &mut AstLogger)
        ensures
            is_prefix(old(logger).text() + old(logger).header("Pointer Type"@), final(logger).text()),
        decreases self,
    {
        logger.begin_ast_node("Pointer Type");
        logger.bool_line("Is Multi-elem: ", self.is_multi);
        logger.bool_line("Is Mut: ", self.is_mut);
        logger.set_last_at_indent_if(self.sentinel.is_none());
        logger.begin_last("Type");
        self.ty.log(logger);
        logger.pop_indent();
        logger.set_last_at_indent();
        if let Some(sentinel) = &self.sentinel {
            logger.begin_last("Sentinel");
            sentinel.log(logger);
            logger.pop_indent();
        }
        logger.pop_indent();
    }

    open spec fn spec_log(&self, env: LogEnv, st: LogState) -> LogState
        decreases self, 0int,
    {
        let s1 = st_begin_node(env, st, "Pointer Type"@);
        let s2 = st_line(env, s1, "Is Multi-elem: "@, bool_text(self.is_multi));
        let s3 = st_line(env, s2, "Is Mut: "@, bool_text(self.is_mut));
        let s4 = st_set_last_if(s3, (self.sentinel is None));
        let s5 = st_begin_last(env, s4, "Type"@);
        let s6 = self.ty.spec_log(env, s5);
        let s7 = st_pop(s6);
        let s8 = st_set_last(s7);
        let s12 = match self.sentinel {
            Some(sentinel) => {
                let s9 = st_begin_last(env, s8, "Sentinel"@);
                let s10 = sentinel.spec_log(env, s9);
                let s11 = st_pop(s10);
                s11
            },
            None => s8,
        };
        let s13 = st_pop(s12);
        s13
    }
}

impl AstNodeLog for ReferenceType {
    fn log(&self, logger: &mut AstLogger)
        ensures
            is_prefix(old(logger).text() + old(logger).header("Reference Type"@), final(logger).text()),
        decreases self,
    {
        logger.begin_ast_node("Reference Type");
        logger.bool_line("Is Mut: ", self.is_mut);
        logger.set_last_at_indent();
        logger.begin_last("Type");
        self.ty.log(logger);
        logger.pop_indent();
        logger.pop_indent();
    }

    open spec fn spec_log(&self, env: LogEnv, st: LogState) -> LogState
        decreases self, 0int,
    {
        let s1 = st_begin_node(env, st, "Reference Type"@);
        let s2 = st_line(env, s1, "Is Mut: "@, bool_text(self.is_mut));
        let s3 = st_set_last(s2);
        let s4 = st_begin_last(env, s3, "Type"@);
        let s5 = self.ty.spec_log(env, s4);
        let s6 = st_pop(s5);
        let s7 = st_pop(s6);
        s7
    }
}

impl AstNodeLog for OptionalType {
    fn log(&self, logger: &mut AstLogger)
        ensures
            is_prefix(old(logger).text() + old(logger).header("Optional Type"@), final(logger).text()),
        decreases self,
    {
        logger.begin_ast_node("Optional Type");
        logger.set_last_at_indent();
        self.ty.log(logger);
        logger.pop_indent();
    }

    open spec fn spec_log(&self, env: LogEnv, st: LogState) -> LogState
        decreases self, 0int,
    {
        let s1 = st_begin_node(env, st, "Optional Type"@);
        let s2 = st_set_last(s1);
        let s3 = self.ty.spec_log(env, s2);
        let s4 = st_pop(s3);
        s4
    }
}

impl AstNodeLog for FnType {
    fn log(&self, logger: &mut AstLogger)
        ensures
            is_prefix(old(logger).text() + old(logger).header("Function Type"@), final(logger).text()),
        decreases self,
    {
        logger.begin_ast_node("Function Type");
        logger.bool_line("Is unsafe: ", self.is_unsafe);
        logger.set_last_at_indent_if(self.params.len() == 0 && self.return_ty.is_none());
        if let Some(abi) = self.abi {
            logger.literal_line("ABI: ", abi);
        }
        logger.set_last_at_indent_if(self.return_ty.is_none());
        log_fn_type_params_group(logger, "Params", &self.params);
        logger.set_last_at_indent();
        if let Some(return_ty) = &self.return_ty {
            logger.begin_last("Return Type");
            return_ty.log(logger);
            logger.pop_indent();
        }
        logger.pop_indent();
    }

    open spec fn spec_log(&self, env: LogEnv, st: LogState) -> LogState
        decreases self, 0int,
    {
        let s1 = st_begin_node(env, st, "Function Type"@);
        let s2 = st_line(env, s1, "Is unsafe: "@, bool_text(self.is_unsafe));
        let s3 = st_set_last_if(s2, self.params.len() == 0 && (self.return_ty is None));
        let s5 = match self.abi {
            Some(abi) => {
                let s4 = st_line(env, s3, "ABI: "@, table_literal_text(env.literals, abi));
                s4
            },
            None => s3,
        };
        let s6 = st_set_last_if(s5, (self.return_ty is None));
        let s7 = spec_log_fn_type_params_group(env, s6, "Params"@, self.params@);
        let s8 = st_set_last(s7);
        let s12 = match self.return_ty {
            Some(return_ty) => {
                let s9 = st_begin_last(env, s8, "Return Type"@);
                let s10 = return_ty.spec_log(env, s9);
                let s11 = st_pop(s10);
                s11
            },
            None => s8,
        };
        let s13 = st_pop(s12);
        s13
    }
}

impl AstNodeLog for RecordType {
    fn log(&self, logger: &mut AstLogger)
        ensures
            is_prefix(old(logger).text() + old(logger).header("Record type"@), final(logger).text()),
        decreases self,
    {
        logger.begin_ast_node("Record type");
        logger.set_last_at_indent();
        log_reg_fields_group(logger, "Fields", &self.fields);
        logger.pop_indent();
    }

    open spec fn spec_log(&self, env: LogEnv, st: LogState) -> LogState
        decreases self, 0int,
    {
        let s1 = st_begin_node(env, st, "Record type"@);
        let s2 = st_set_last(s1);
        let s3 = spec_log_reg_fields_group(env, s2, "Fields"@, self.fields@);
        let s4 = st_pop(s3);
        s4
    }
}

impl AstNodeLog for EnumRecordType {
    fn log(&self, logger: &mut AstLogger)
        ensures
            is_prefix(old(logger).text() + old(logger).header("Enum Record Type"@), final(logger).text()),
        decreases self,
    {
        logger.begin_ast_node("Enum Record Type");
        logger.set_last_at_indent();
        log_variants_group(logger, "Variants", &self.variants);
        logger.pop_indent();
    }

    open spec fn spec_log(&self, env: LogEnv, st: LogState) -> LogState
        decreases self, 0int,
    {
        let s1 = st_begin_node(env, st, "Enum Record Type"@);
        let s2 = st_set_last(s1);
        let s3 = spec_log_variants_group(env, s2, "Variants"@, self.variants@);
        let s4 = st_pop(s3);
        s4
    }
}

impl AstNodeLog for GenericParams {
    fn log(&self, logger: &mut AstLogger)
        ensures
            final(logger).text() == old(logger).text() + old(logger).prefix() + "Generic Params"@ + "\n"@,
            final(logger).levels() == old(logger).levels(),
    {
        logger.begin_indented("Generic Params");
        logger.pop_indent();
    }

    open spec fn spec_log(&self, env: LogEnv, st: LogState) -> LogState
    {
        let s1 = st_begin_indented(env, st, "Generic Params"@);
        let s2 = st_pop(s1);
        s2
    }
}

impl AstNodeLog for GenericArgs {
    fn log(&self, logger: &mut AstLogger)
        ensures
            final(logger).text() == old(logger).text() + old(logger).prefix() + "Generic Args"@ + "\n"@,
            final(logger).levels() == old(logger).levels(),
    {
        logger.begin_indented("Generic Args");
        logger.pop_indent();
    }

    open spec fn spec_log(&self, env: LogEnv, st: LogState) -> LogState
    {
        let s1 = st_begin_indented(env, st, "Generic Args"@);
        let s2 = st_pop(s1);
        s2
    }
}

impl AstNodeLog for WhereClause {
    fn log(&self, logger: &mut AstLogger)
        ensures
            final(logger).text() == old(logger).text() + old(logger).prefix() + "Where Clause"@ + "\n"@,
            final(logger).levels() == old(logger).levels(),
    {
        logger.begin_indented("Where Clause");
        logger.pop_indent();
    }

    open spec fn spec_log(&self, env: LogEnv, st: LogState) -> LogState
    {
        let s1 = st_begin_indented(env, st, "Where Clause"@);
        let s2 = st_pop(s1);
        s2
    }
}

impl AstNodeLog for TraitBounds {
    fn log(&self, logger: &mut AstLogger)
        ensures
            final(logger).text() == old(logger).text() + old(logger).prefix() + "Trait Bounds"@ + "\n"@,
            final(logger).levels() == old(logger).levels(),
    {
        logger.begin_indented("Trait Bounds");
        logger.pop_indent();
    }

    open spec fn spec_log(&self, env: LogEnv, st: LogState) -> LogState
    {
        let s1 = st_begin_indented(env, st, "Trait Bounds"@);
        let s2 = st_pop(s1);
        s2
    }
}

impl AstNodeLog for GenericTypeBound {
    fn log(&self, logger: &mut AstLogger)
        decreases self,
    {
        match self {
            GenericTypeBound::Type(path) => {
                let prev = logger.enter_node(path.node_id());
                path.log(logger);
                logger.enter_node(prev);
            },
        }
    }

    open spec fn spec_log(&self, env: LogEnv, st: LogState) -> LogState
        decreases self, 0int,
    {
        let s1 = match *self {
            GenericTypeBound::Type(path) => {
                let prev = st.node;
                let s2 = st_enter(st, path.spec_node_id());
                let s3 = path.spec_log(env, s2);
                let s4 = st_enter(s3, prev);
                s4
            },
        };
        s1
    }
}

impl AstNodeLog for Visibility {
    fn log(&self, logger: &mut AstLogger)
        ensures
            match self {
                Visibility::Pub { .. } => final(logger).text() == old(logger).text() + old(logger).prefix()
                    + "Visibility: "@ + "pub"@ + "\n"@,
                Visibility::Super { .. } => final(logger).text() == old(logger).text() + old(logger).prefix()
                    + "Visibility: "@ + "pub(super)"@ + "\n"@,
                Visibility::Lib { .. } => final(logger).text() == old(logger).text() + old(logger).prefix()
                    + "Visibility: "@ + "pub(lib)"@ + "\n"@,
                Visibility::Package { .. } => final(logger).text() == old(logger).text() + old(logger).prefix()
                    + "Visibility: "@ + "pub(package)"@ + "\n"@,
                Visibility::Path { .. } => is_prefix(old(logger).text() + old(logger).prefix() + "Visibility: "@
                    + old(logger).prefix() + "pub(..)"@ + "\n"@, final(logger).text()),
            },
            final(logger).levels() == old(logger).levels(),
    {
        logger.prefixed_log("Visibility: ");
        match self {
            Visibility::Pub { .. } => logger.logln("pub"),
            Visibility::Super { .. } => logger.logln("pub(super)"),
            Visibility::Lib { .. } => logger.logln("pub(lib)"),
            Visibility::Package { .. } => logger.logln("pub(package)"),
            Visibility::Path { path, .. } => {
                logger.begin_last("pub(..)");
                logger.enter_node(path.node_id());
                path.log(logger);
                logger.pop_indent();
                assert(logger.levels() =~= old(logger).levels());
            },
        }
    }

    open spec fn spec_log(&self, env: LogEnv, st: LogState) -> LogState
    {
        let s1 = st_prefixed(env, st, "Visibility: "@);
        let s2 = match *self {
            Visibility::Pub { .. } => {
                let s3 = st_log(st_log(s1, "pub"@), "\n"@);
                s3
            },
            Visibility::Super { .. } => {
                let s4 = st_log(st_log(s1, "pub(super)"@), "\n"@);
                s4
            },
            Visibility::Lib { .. } => {
                let s5 = st_log(st_log(s1, "pub(lib)"@), "\n"@);
                s5
            },
            Visibility::Package { .. } => {
                let s6 = st_log(st_log(s1, "pub(package)"@), "\n"@);
                s6
            },
            Visibility::Path { path, .. } => {
                let s7 = st_begin_last(env, s1, "pub(..)"@);
                let s8 = st_enter(s7, path.spec_node_id());
                let s9 = path.spec_log(env, s8);
                let s10 = st_pop(s9);
                s10
            },
        };
        s2
    }
}

impl AstNodeLog for Attribute {
    fn log(&self, logger: &mut AstLogger)
        ensures
            is_prefix(old(logger).text() + old(logger).header("Attribute"@), final(logger).text()),
        decreases self,
    {
        logger.begin_ast_node("Attribute");
        logger.bool_line("Is Module Attribute: ", self.is_mod);
        logger.set_last_at_indent();
        log_metas_group(logger, "Meta", &self.metas);
        logger.pop_indent();
    }

    open spec fn spec_log(&self, env: LogEnv, st: LogState) -> LogState
        decreases self, 0int,
    {
        let s1 = st_begin_node(env, st, "Attribute"@);
        let s2 = st_line(env, s1, "Is Module Attribute: "@, bool_text(self.is_mod));
        let s3 = st_set_last(s2);
        let s4 = spec_log_metas_group(env, s3, "Meta"@, self.metas@);
        let s5 = st_pop(s4);
        s5
    }
}

impl AstNodeLog for AttribMeta {
    fn log(&self, logger: &mut AstLogger)
        decreases self,
    {
        match self {
            AttribMeta::Simple { path } => {
                logger.begin_last("Simple Attrib Meta");
                logger.enter_node(path.node_id());
                path.log(logger);
                logger.pop_indent();
            },
            AttribMeta::Expr { expr } => {
                logger.begin_last("Expression Attrib Meta");
                expr.log(logger);
                logger.pop_indent();
            },
            AttribMeta::Assign { path, expr, .. } => {
                logger.begin_indented("Assign Attribute Meta");
                logger.begin_last("Path");
                logger.enter_node(path.node_id());
                path.log(logger);
                logger.pop_indent();
                logger.set_last_at_indent();
                logger.begin_last("Expr");
                expr.log(logger);
                logger.pop_indent();
                logger.pop_indent();
            },
            AttribMeta::Meta { path, metas, .. } => {
                logger.begin_indented("Nested Attribute Meta");
                logger.begin_last("Path");
                logger.enter_node(path.node_id());
                path.log(logger);
                logger.pop_indent();
                logger.set_last_at_indent();
                log_metas_group(logger, "Metas", metas);
                logger.pop_indent();
            },
        }
    }

    open spec fn spec_log(&self, env: LogEnv, st: LogState) -> LogState
        decreases self, 0int,
    {
        let s1 = match *self {
            AttribMeta::Simple { path } => {
                let s2 = st_begin_last(env, st, "Simple Attrib Meta"@);
                let s3 = st_enter(s2, path.spec_node_id());
                let s4 = path.spec_log(env, s3);
                let s5 = st_pop(s4);
                s5
            },
            AttribMeta::Expr { expr } => {
                let s6 = st_begin_last(env, st, "Expression Attrib Meta"@);
                let s7 = expr.spec_log(env, s6);
                let s8 = st_pop(s7);
                s8
            },
            AttribMeta::Assign { path, expr, .. } => {
                let s9 = st_begin_indented(env, st, "Assign Attribute Meta"@);
                let s10 = st_begin_last(env, s9, "Path"@);
                let s11 = st_enter(s10, path.spec_node_id());
                let s12 = path.spec_log(env, s11);
                let s13 = st_pop(s12);
                let s14 = st_set_last(s13);
                let s15 = st_begin_last(env, s14, "Expr"@);
                let s16 = expr.spec_log(env, s15);
                let s17 = st_pop(s16);
                let s18 = st_pop(s17);
                s18
            },
            AttribMeta::Meta { path, metas, .. } => {
                let s19 = st_begin_indented(env, st, "Nested Attribute Meta"@);
                let s20 = st_begin_last(env, s19, "Path"@);
                let s21 = st_enter(s20, path.spec_node_id());
                let s22 = path.spec_log(env, s21);
                let s23 = st_pop(s22);
                let s24 = st_set_last(s23);
                let s25 = spec_log_metas_group(env, s24, "Metas"@, metas@);
                let s26 = st_pop(s25);
                s26
            },
        };
        s1
    }
}

impl AstNodeLog for Contract {
    /// Contracts write nothing.
    fn log(&self, _logger: &mut AstLogger) {
    }

    open spec fn spec_log(&self, env: LogEnv, st: LogState) -> LogState {
        st
    }
}

impl Ast {
    /// The AST as a tree of text: a line naming the file, then each item,
    /// names, literals and punctuation resolved through the given tables.
    pub fn log(&self, names: &NameTable, literals: &LiteralTable, puncts: &PuncutationTable) -> (r: String)
        ensures
            r@ == spec_log_items(
                LogEnv {
                    pads: ("    "@, "|   "@, "+---"@),
                    names: names.names@,
                    literals: literals.literals@,
                    puncts: *puncts,
                    meta: self.meta@,
                },
                LogState {
                    text: "AST for File: "@ + self.file@ + "\n"@,
                    levels: Seq::empty(),
                    node: NodeId::spec_from_index(0),
                },
                self.items@,
            ).text,
            is_prefix("AST for File: "@ + self.file@ + "\n"@, r@),
    {
        let mut logger = AstLogger::new(self, names, literals, puncts);
        logger.log("AST for File: ");
        logger.log(self.file.as_str());
        logger.log("\n");
        let ghost before = logger;
        log_items(&mut logger, &self.items);
        proof {
            lemma_appends_text(&before, &logger);
            assert(before.text() =~= "AST for File: "@ + self.file@ + "\n"@);
        }
        logger.output().clone()
    }
}

/// The state after the first `k` elements of a `attrs` group, each one level deeper, the last one marked.
pub open spec fn spec_log_attrs_steps(env: LogEnv, st: LogState, v: Seq<AstNodeRef<Attribute>>, k: int) -> LogState
    decreases v, k,
{
    if k <= 0 || k > v.len() {
        st
    } else {
        let marked = st_set_last_if(spec_log_attrs_steps(env, st, v, k - 1), k == v.len());
        let prev = marked.node;
        let s1 = st_enter(marked, v[k - 1].spec_node_id());
        let s2 = v[k - 1].spec_log(env, s1);
        let s3 = st_enter(s2, prev);
        s3
    }
}

/// The state after a `attrs` group: where `v` is not empty, the line `label`, then each element one level deeper.
pub open spec fn spec_log_attrs_group(env: LogEnv, st: LogState, label: Seq<char>, v: Seq<AstNodeRef<Attribute>>) -> LogState
    decreases v, v.len() + 1,
{
    if v.len() == 0 {
        st
    } else {
        st_pop(spec_log_attrs_steps(env, st_begin_indented(env, st, label), v, v.len() as int))
    }
}

/// Where `v` is not empty: the line `label`, then each element one level
/// deeper, the last one marked.
fn log_attrs_group(logger: &mut AstLogger, label: &str, v: &Vec<AstNodeRef<Attribute>>)
    ensures
        final(logger).state() == spec_log_attrs_group(old(logger).env(), old(logger).state(), label@, v@),
        old(logger).appends(final(logger)),
        final(logger).levels().len() == old(logger).levels().len(),
        v@.len() == 0 ==> final(logger).text() == old(logger).text() && final(logger).levels() == old(logger).levels(),
    decreases v,
{
    if v.len() == 0 {
        return;
    }
    logger.begin_indented(label);
    let ghost begun = logger.state();
    let mut idx: usize = 0;
    while idx < v.len()
        invariant
            old(logger).appends(logger),
            logger.levels().len() == old(logger).levels().len() + 1,
            logger.env() == old(logger).env(),
            idx <= v@.len(),
            logger.state() == spec_log_attrs_steps(old(logger).env(), begun, v@, idx as int),
        decreases v@.len() - idx,
    {
        if idx + 1 == v.len() {
            logger.set_last_at_indent();
        }
        proof { assert(decreases_to!(*v => v@[idx as int])); }
        let prev = logger.enter_node(v[idx].node_id());
        v[idx].log(logger);
        logger.enter_node(prev);
        idx = idx + 1;
    }
    logger.pop_indent();
}

/// The state after the first `k` elements of a `fn_params` group, each one level deeper, the last one marked.
pub open spec fn spec_log_fn_params_steps(env: LogEnv, st: LogState, v: Seq<FnParam>, k: int) -> LogState
    decreases v, k,
{
    if k <= 0 || k > v.len() {
        st
    } else {
        let marked = st_set_last_if(spec_log_fn_params_steps(env, st, v, k - 1), k == v.len());
        let s1 = v[k - 1].spec_log(env, marked);
        s1
    }
}

/// The state after a `fn_params` group: where `v` is not empty, the line `label`, then each element one level deeper.
pub open spec fn spec_log_fn_params_group(env: LogEnv, st: LogState, label: Seq<char>, v: Seq<FnParam>) -> LogState
    decreases v, v.len() + 1,
{
    if v.len() == 0 {
        st
    } else {
        st_pop(spec_log_fn_params_steps(env, st_begin_indented(env, st, label), v, v.len() as int))
    }
}

/// Where `v` is not empty: the line `label`, then each element one level
/// deeper, the last one marked.
fn log_fn_params_group(logger: &mut AstLogger, label: &str, v: &Vec<FnParam>)
    ensures
        final(logger).state() == spec_log_fn_params_group(old(logger).env(), old(logger).state(), label@, v@),
        old(logger).appends(final(logger)),
        final(logger).levels().len() == old(logger).levels().len(),
        v@.len() == 0 ==> final(logger).text() == old(logger).text() && final(logger).levels() == old(logger).levels(),
    decreases v,
{
    if v.len() == 0 {
        return;
    }
    logger.begin_indented(label);
    let ghost begun = logger.state();
    let mut idx: usize = 0;
    while idx < v.len()
        invariant
            old(logger).appends(logger),
            logger.levels().len() == old(logger).levels().len() + 1,
            logger.env() == old(logger).env(),
            idx <= v@.len(),
            logger.state() == spec_log_fn_params_steps(old(logger).env(), begun, v@, idx as int),
        decreases v@.len() - idx,
    {
        if idx + 1 == v.len() {
            logger.set_last_at_indent();
        }
        proof { assert(decreases_to!(*v => v@[idx as int])); }
        v[idx].log(logger);
        idx = idx + 1;
    }
    logger.pop_indent();
}

/// The state after the first `k` elements of a `param_names` group, each one level deeper, the last one marked.
pub open spec fn spec_log_param_names_steps(env: LogEnv, st: LogState, v: Seq<FnParamName>, k: int) -> LogState
    decreases v, k,
{
    if k <= 0 || k > v.len() {
        st
    } else {
        let marked = st_set_last_if(spec_log_param_names_steps(env, st, v, k - 1), k == v.len());
        let s1 = v[k - 1].spec_log(env, marked);
        s1
    }
}

/// The state after a `param_names` group: where `v` is not empty, the line `label`, then each element one level deeper.
pub open spec fn spec_log_param_names_group(env: LogEnv, st: LogState, label: Seq<char>, v: Seq<FnParamName>) -> LogState
    decreases v, v.len() + 1,
{
    if v.len() == 0 {
        st
    } else {
        st_pop(spec_log_param_names_steps(env, st_begin_indented(env, st, label), v, v.len() as int))
    }
}

/// Where `v` is not empty: the line `label`, then each element one level
/// deeper, the last one marked.
fn log_param_names_group(logger: &mut AstLogger, label: &str, v: &Vec<FnParamName>)
    ensures
        final(logger).state() == spec_log_param_names_group(old(logger).env(), old(logger).state(), label@, v@),
        old(logger).appends(final(logger)),
        final(logger).levels().len() == old(logger).levels().len(),
        v@.len() == 0 ==> final(logger).text() == old(logger).text() && final(logger).levels() == old(logger).levels(),
    decreases v,
{
    if v.len() == 0 {
        return;
    }
    logger.begin_indented(label);
    let ghost begun = logger.state();
    let mut idx: usize = 0;
    while idx < v.len()
        invariant
            old(logger).appends(logger),
            logger.levels().len() == old(logger).levels().len() + 1,
            logger.env() == old(logger).env(),
            idx <= v@.len(),
            logger.state() == spec_log_param_names_steps(old(logger).env(), begun, v@, idx as int),
        decreases v@.len() - idx,
    {
        if idx + 1 == v.len() {
            logger.set_last_at_indent();
        }
        proof { assert(decreases_to!(*v => v@[idx as int])); }
        v[idx].log(logger);
        idx = idx + 1;
    }
    logger.pop_indent();
}

/// The state after the first `k` elements of a `reg_fields` group, each one level deeper, the last one marked.
pub open spec fn spec_log_reg_fields_steps(env: LogEnv, st: LogState, v: Seq<RegStructField>, k: int) -> LogState
    decreases v, k,
{
    if k <= 0 || k > v.len() {
        st
    } else {
        let marked = st_set_last_if(spec_log_reg_fields_steps(env, st, v, k - 1), k == v.len());
        let s1 = v[k - 1].spec_log(env, marked);
        s1
    }
}

/// The state after a `reg_fields` group: where `v` is not empty, the line `label`, then each element one level deeper.
pub open spec fn spec_log_reg_fields_group(env: LogEnv, st: LogState, label: Seq<char>, v: Seq<RegStructField>) -> LogState
    decreases v, v.len() + 1,
{
    if v.len() == 0 {
        st
    } else {
        st_pop(spec_log_reg_fields_steps(env, st_begin_indented(env, st, label), v, v.len() as int))
    }
}

/// Where `v` is not empty: the line `label`, then each element one level
/// deeper, the last one marked.
fn log_reg_fields_group(logger: &mut AstLogger, label: &str, v: &Vec<RegStructField>)
    ensures
        final(logger).state() == spec_log_reg_fields_group(old(logger).env(), old(logger).state(), label@, v@),
        old(logger).appends(final(logger)),
        final(logger).levels().len() == old(logger).levels().len(),
        v@.len() == 0 ==> final(logger).text() == old(logger).text() && final(logger).levels() == old(logger).levels(),
    decreases v,
{
    if v.len() == 0 {
        return;
    }
    logger.begin_indented(label);
    let ghost begun = logger.state();
    let mut idx: usize = 0;
    while idx < v.len()
        invariant
            old(logger).appends(logger),
            logger.levels().len() == old(logger).levels().len() + 1,
            logger.env() == old(logger).env(),
            idx <= v@.len(),
            logger.state() == spec_log_reg_fields_steps(old(logger).env(), begun, v@, idx as int),
        decreases v@.len() - idx,
    {
        if idx + 1 == v.len() {
            logger.set_last_at_indent();
        }
        proof { assert(decreases_to!(*v => v@[idx as int])); }
        v[idx].log(logger);
        idx = idx + 1;
    }
    logger.pop_indent();
}

/// The state after the first `k` elements of a `tuple_fields` group, each one level deeper, the last one marked.
pub open spec fn spec_log_tuple_fields_steps(env: LogEnv, st: LogState, v: Seq<TupleStructField>, k: int) -> LogState
    decreases v, k,
{
    if k <= 0 || k > v.len() {
        st
    } else {
        let marked = st_set_last_if(spec_log_tuple_fields_steps(env, st, v, k - 1), k == v.len());
        let s1 = v[k - 1].spec_log(env, marked);
        s1
    }
}

/// The state after a `tuple_fields` group: where `v` is not empty, the line `label`, then each element one level deeper.
pub open spec fn spec_log_tuple_fields_group(env: LogEnv, st: LogState, label: Seq<char>, v: Seq<TupleStructField>) -> LogState
    decreases v, v.len() + 1,
{
    if v.len() == 0 {
        st
    } else {
        st_pop(spec_log_tuple_fields_steps(env, st_begin_indented(env, st, label), v, v.len() as int))
    }
}

/// Where `v` is not empty: the line `label`, then each element one level
/// deeper, the last one marked.
fn log_tuple_fields_group(logger: &mut AstLogger, label: &str, v: &Vec<TupleStructField>)
    ensures
        final(logger).state() == spec_log_tuple_fields_group(old(logger).env(), old(logger).state(), label@, v@),
        old(logger).appends(final(logger)),
        final(logger).levels().len() == old(logger).levels().len(),
        v@.len() == 0 ==> final(logger).text() == old(logger).text() && final(logger).levels() == old(logger).levels(),
    decreases v,
{
    if v.len() == 0 {
        return;
    }
    logger.begin_indented(label);
    let ghost begun = logger.state();
    let mut idx: usize = 0;
    while idx < v.len()
        invariant
            old(logger).appends(logger),
            logger.levels().len() == old(logger).levels().len() + 1,
            logger.env() == old(logger).env(),
            idx <= v@.len(),
            logger.state() == spec_log_tuple_fields_steps(old(logger).env(), begun, v@, idx as int),
        decreases v@.len() - idx,
    {
        if idx + 1 == v.len() {
            logger.set_last_at_indent();
        }
        proof { assert(decreases_to!(*v => v@[idx as int])); }
        v[idx].log(logger);
        idx = idx + 1;
    }
    logger.pop_indent();
}

/// The state after the first `k` elements of a `union_fields` group, each one level deeper, the last one marked.
pub open spec fn spec_log_union_fields_steps(env: LogEnv, st: LogState, v: Seq<UnionField>, k: int) -> LogState
    decreases v, k,
{
    if k <= 0 || k > v.len() {
        st
    } else {
        let marked = st_set_last_if(spec_log_union_fields_steps(env, st, v, k - 1), k == v.len());
        let s1 = v[k - 1].spec_log(env, marked);
        s1
    }
}

/// The state after a `union_fields` group: where `v` is not empty, the line `label`, then each element one level deeper.
pub open spec fn spec_log_union_fields_group(env: LogEnv, st: LogState, label: Seq<char>, v: Seq<UnionField>) -> LogState
    decreases v, v.len() + 1,
{
    if v.len() == 0 {
        st
    } else {
        st_pop(spec_log_union_fields_steps(env, st_begin_indented(env, st, label), v, v.len() as int))
    }
}

/// Where `v` is not empty: the line `label`, then each element one level
/// deeper, the last one marked.
fn log_union_fields_group(logger: &mut AstLogger, label: &str, v: &Vec<UnionField>)
    ensures
        final(logger).state() == spec_log_union_fields_group(old(logger).env(), old(logger).state(), label@, v@),
        old(logger).appends(final(logger)),
        final(logger).levels().len() == old(logger).levels().len(),
        v@.len() == 0 ==> final(logger).text() == old(logger).text() && final(logger).levels() == old(logger).levels(),
    decreases v,
{
    if v.len() == 0 {
        return;
    }
    logger.begin_indented(label);
    let ghost begun = logger.state();
    let mut idx: usize = 0;
    while idx < v.len()
        invariant
            old(logger).appends(logger),
            logger.levels().len() == old(logger).levels().len() + 1,
            logger.env() == old(logger).env(),
            idx <= v@.len(),
            logger.state() == spec_log_union_fields_steps(old(logger).env(), begun, v@, idx as int),
        decreases v@.len() - idx,
    {
        if idx + 1 == v.len() {
            logger.set_last_at_indent();
        }
        proof { assert(decreases_to!(*v => v@[idx as int])); }
        v[idx].log(logger);
        idx = idx + 1;
    }
    logger.pop_indent();
}

/// The state after the first `k` elements of a `variants` group, each one level deeper, the last one marked.
pub open spec fn spec_log_variants_steps(env: LogEnv, st: LogState, v: Seq<EnumVariant>, k: int) -> LogState
    decreases v, k,
{
    if k <= 0 || k > v.len() {
        st
    } else {
        let marked = st_set_last_if(spec_log_variants_steps(env, st, v, k - 1), k == v.len());
        let s1 = v[k - 1].spec_log(env, marked);
        s1
    }
}

/// The state after a `variants` group: where `v` is not empty, the line `label`, then each element one level deeper.
pub open spec fn spec_log_variants_group(env: LogEnv, st: LogState, label: Seq<char>, v: Seq<EnumVariant>) -> LogState
    decreases v, v.len() + 1,
{
    if v.len() == 0 {
        st
    } else {
        st_pop(spec_log_variants_steps(env, st_begin_indented(env, st, label), v, v.len() as int))
    }
}

/// Where `v` is not empty: the line `label`, then each element one level
/// deeper, the last one marked.
fn log_variants_group(logger: &mut AstLogger, label: &str, v: &Vec<EnumVariant>)
    ensures
        final(logger).state() == spec_log_variants_group(old(logger).env(), old(logger).state(), label@, v@),
        old(logger).appends(final(logger)),
        final(logger).levels().len() == old(logger).levels().len(),
        v@.len() == 0 ==> final(logger).text() == old(logger).text() && final(logger).levels() == old(logger).levels(),
    decreases v,
{
    if v.len() == 0 {
        return;
    }
    logger.begin_indented(label);
    let ghost begun = logger.state();
    let mut idx: usize = 0;
    while idx < v.len()
        invariant
            old(logger).appends(logger),
            logger.levels().len() == old(logger).levels().len() + 1,
            logger.env() == old(logger).env(),
            idx <= v@.len(),
            logger.state() == spec_log_variants_steps(old(logger).env(), begun, v@, idx as int),
        decreases v@.len() - idx,
    {
        if idx + 1 == v.len() {
            logger.set_last_at_indent();
        }
        proof { assert(decreases_to!(*v => v@[idx as int])); }
        v[idx].log(logger);
        idx = idx + 1;
    }
    logger.pop_indent();
}

/// The state after the first `k` elements of a `flag_variants` group, each one level deeper, the last one marked.
pub open spec fn spec_log_flag_variants_steps(env: LogEnv, st: LogState, v: Seq<FlagEnumVariant>, k: int) -> LogState
    decreases v, k,
{
    if k <= 0 || k > v.len() {
        st
    } else {
        let marked = st_set_last_if(spec_log_flag_variants_steps(env, st, v, k - 1), k == v.len());
        let s1 = v[k - 1].spec_log(env, marked);
        s1
    }
}

/// The state after a `flag_variants` group: where `v` is not empty, the line `label`, then each element one level deeper.
pub open spec fn spec_log_flag_variants_group(env: LogEnv, st: LogState, label: Seq<char>, v: Seq<FlagEnumVariant>) -> LogState
    decreases v, v.len() + 1,
{
    if v.len() == 0 {
        st
    } else {
        st_pop(spec_log_flag_variants_steps(env, st_begin_indented(env, st, label), v, v.len() as int))
    }
}

/// Where `v` is not empty: the line `label`, then each element one level
/// deeper, the last one marked.
fn log_flag_variants_group(logger: &mut AstLogger, label: &str, v: &Vec<FlagEnumVariant>)
    ensures
        final(logger).state() == spec_log_flag_variants_group(old(logger).env(), old(logger).state(), label@, v@),
        old(logger).appends(final(logger)),
        final(logger).levels().len() == old(logger).levels().len(),
        v@.len() == 0 ==> final(logger).text() == old(logger).text() && final(logger).levels() == old(logger).levels(),
    decreases v,
{
    if v.len() == 0 {
        return;
    }
    logger.begin_indented(label);
    let ghost begun = logger.state();
    let mut idx: usize = 0;
    while idx < v.len()
        invariant
            old(logger).appends(logger),
            logger.levels().len() == old(logger).levels().len() + 1,
            logger.env() == old(logger).env(),
            idx <= v@.len(),
            logger.state() == spec_log_flag_variants_steps(old(logger).env(), begun, v@, idx as int),
        decreases v@.len() - idx,
    {
        if idx + 1 == v.len() {
            logger.set_last_at_indent();
        }
        proof { assert(decreases_to!(*v => v@[idx as int])); }
        v[idx].log(logger);
        idx = idx + 1;
    }
    logger.pop_indent();
}

/// The state after the first `k` elements of a `bitfield_fields` group, each one level deeper, the last one marked.
pub open spec fn spec_log_bitfield_fields_steps(env: LogEnv, st: LogState, v: Seq<BitfieldField>, k: int) -> LogState
    decreases v, k,
{
    if k <= 0 || k > v.len() {
        st
    } else {
        let marked = st_set_last_if(spec_log_bitfield_fields_steps(env, st, v, k - 1), k == v.len());
        let s1 = v[k - 1].spec_log(env, marked);
        s1
    }
}

/// The state after a `bitfield_fields` group: where `v` is not empty, the line `label`, then each element one level deeper.
pub open spec fn spec_log_bitfield_fields_group(env: LogEnv, st: LogState, label: Seq<char>, v: Seq<BitfieldField>) -> LogState
    decreases v, v.len() + 1,
{
    if v.len() == 0 {
        st
    } else {
        st_pop(spec_log_bitfield_fields_steps(env, st_begin_indented(env, st, label), v, v.len() as int))
    }
}

/// Where `v` is not empty: the line `label`, then each element one level
/// deeper, the last one marked.
fn log_bitfield_fields_group(logger: &mut AstLogger, label: &str, v: &Vec<BitfieldField>)
    ensures
        final(logger).state() == spec_log_bitfield_fields_group(old(logger).env(), old(logger).state(), label@, v@),
        old(logger).appends(final(logger)),
        final(logger).levels().len() == old(logger).levels().len(),
        v@.len() == 0 ==> final(logger).text() == old(logger).text() && final(logger).levels() == old(logger).levels(),
    decreases v,
{
    if v.len() == 0 {
        return;
    }
    logger.begin_indented(label);
    let ghost begun = logger.state();
    let mut idx: usize = 0;
    while idx < v.len()
        invariant
            old(logger).appends(logger),
            logger.levels().len() == old(logger).levels().len() + 1,
            logger.env() == old(logger).env(),
            idx <= v@.len(),
            logger.state() == spec_log_bitfield_fields_steps(old(logger).env(), begun, v@, idx as int),
        decreases v@.len() - idx,
    {
        if idx + 1 == v.len() {
            logger.set_last_at_indent();
        }
        proof { assert(decreases_to!(*v => v@[idx as int])); }
        v[idx].log(logger);
        idx = idx + 1;
    }
    logger.pop_indent();
}

/// The state after the first `k` elements of a `trait_items` group, each one level deeper, the last one marked.
pub open spec fn spec_log_trait_items_steps(env: LogEnv, st: LogState, v: Seq<TraitItem>, k: int) -> LogState
    decreases v, k,
{
    if k <= 0 || k > v.len() {
        st
    } else {
        let marked = st_set_last_if(spec_log_trait_items_steps(env, st, v, k - 1), k == v.len());
        let s1 = v[k - 1].spec_log(env, marked);
        s1
    }
}

/// The state after a `trait_items` group: where `v` is not empty, the line `label`, then each element one level deeper.
pub open spec fn spec_log_trait_items_group(env: LogEnv, st: LogState, label: Seq<char>, v: Seq<TraitItem>) -> LogState
    decreases v, v.len() + 1,
{
    if v.len() == 0 {
        st
    } else {
        st_pop(spec_log_trait_items_steps(env, st_begin_indented(env, st, label), v, v.len() as int))
    }
}

/// Where `v` is not empty: the line `label`, then each element one level
/// deeper, the last one marked.
fn log_trait_items_group(logger: &mut AstLogger, label: &str, v: &Vec<TraitItem>)
    ensures
        final(logger).state() == spec_log_trait_items_group(old(logger).env(), old(logger).state(), label@, v@),
        old(logger).appends(final(logger)),
        final(logger).levels().len() == old(logger).levels().len(),
        v@.len() == 0 ==> final(logger).text() == old(logger).text() && final(logger).levels() == old(logger).levels(),
    decreases v,
{
    if v.len() == 0 {
        return;
    }
    logger.begin_indented(label);
    let ghost begun = logger.state();
    let mut idx: usize = 0;
    while idx < v.len()
        invariant
            old(logger).appends(logger),
            logger.levels().len() == old(logger).levels().len() + 1,
            logger.env() == old(logger).env(),
            idx <= v@.len(),
            logger.state() == spec_log_trait_items_steps(old(logger).env(), begun, v@, idx as int),
        decreases v@.len() - idx,
    {
        if idx + 1 == v.len() {
            logger.set_last_at_indent();
        }
        proof { assert(decreases_to!(*v => v@[idx as int])); }
        v[idx].log(logger);
        idx = idx + 1;
    }
    logger.pop_indent();
}

/// The state after the first `k` elements of a `assoc_items` group, each one level deeper, the last one marked.
pub open spec fn spec_log_assoc_items_steps(env: LogEnv, st: LogState, v: Seq<AssocItem>, k: int) -> LogState
    decreases v, k,
{
    if k <= 0 || k > v.len() {
        st
    } else {
        let marked = st_set_last_if(spec_log_assoc_items_steps(env, st, v, k - 1), k == v.len());
        let s1 = v[k - 1].spec_log(env, marked);
        s1
    }
}

/// The state after a `assoc_items` group: where `v` is not empty, the line `label`, then each element one level deeper.
pub open spec fn spec_log_assoc_items_group(env: LogEnv, st: LogState, label: Seq<char>, v: Seq<AssocItem>) -> LogState
    decreases v, v.len() + 1,
{
    if v.len() == 0 {
        st
    } else {
        st_pop(spec_log_assoc_items_steps(env, st_begin_indented(env, st, label), v, v.len() as int))
    }
}

/// Where `v` is not empty: the line `label`, then each element one level
/// deeper, the last one marked.
fn log_assoc_items_group(logger: &mut AstLogger, label: &str, v: &Vec<AssocItem>)
    ensures
        final(logger).state() == spec_log_assoc_items_group(old(logger).env(), old(logger).state(), label@, v@),
        old(logger).appends(final(logger)),
        final(logger).levels().len() == old(logger).levels().len(),
        v@.len() == 0 ==> final(logger).text() == old(logger).text() && final(logger).levels() == old(logger).levels(),
    decreases v,
{
    if v.len() == 0 {
        return;
    }
    logger.begin_indented(label);
    let ghost begun = logger.state();
    let mut idx: usize = 0;
    while idx < v.len()
        invariant
            old(logger).appends(logger),
            logger.levels().len() == old(logger).levels().len() + 1,
            logger.env() == old(logger).env(),
            idx <= v@.len(),
            logger.state() == spec_log_assoc_items_steps(old(logger).env(), begun, v@, idx as int),
        decreases v@.len() - idx,
    {
        if idx + 1 == v.len() {
            logger.set_last_at_indent();
        }
        proof { assert(decreases_to!(*v => v@[idx as int])); }
        v[idx].log(logger);
        idx = idx + 1;
    }
    logger.pop_indent();
}

/// The state after the first `k` elements of a `extern_items` group, each one level deeper, the last one marked.
pub open spec fn spec_log_extern_items_steps(env: LogEnv, st: LogState, v: Seq<ExternItem>, k: int) -> LogState
    decreases v, k,
{
    if k <= 0 || k > v.len() {
        st
    } else {
        let marked = st_set_last_if(spec_log_extern_items_steps(env, st, v, k - 1), k == v.len());
        let s1 = v[k - 1].spec_log(env, marked);
        s1
    }
}

/// The state after a `extern_items` group: where `v` is not empty, the line `label`, then each element one level deeper.
pub open spec fn spec_log_extern_items_group(env: LogEnv, st: LogState, label: Seq<char>, v: Seq<ExternItem>) -> LogState
    decreases v, v.len() + 1,
{
    if v.len() == 0 {
        st
    } else {
        st_pop(spec_log_extern_items_steps(env, st_begin_indented(env, st, label), v, v.len() as int))
    }
}

/// Where `v` is not empty: the line `label`, then each element one level
/// deeper, the last one marked.
fn log_extern_items_group(logger: &mut AstLogger, label: &str, v: &Vec<ExternItem>)
    ensures
        final(logger).state() == spec_log_extern_items_group(old(logger).env(), old(logger).state(), label@, v@),
        old(logger).appends(final(logger)),
        final(logger).levels().len() == old(logger).levels().len(),
        v@.len() == 0 ==> final(logger).text() == old(logger).text() && final(logger).levels() == old(logger).levels(),
    decreases v,
{
    if v.len() == 0 {
        return;
    }
    logger.begin_indented(label);
    let ghost begun = logger.state();
    let mut idx: usize = 0;
    while idx < v.len()
        invariant
            old(logger).appends(logger),
            logger.levels().len() == old(logger).levels().len() + 1,
            logger.env() == old(logger).env(),
            idx <= v@.len(),
            logger.state() == spec_log_extern_items_steps(old(logger).env(), begun, v@, idx as int),
        decreases v@.len() - idx,
    {
        if idx + 1 == v.len() {
            logger.set_last_at_indent();
        }
        proof { assert(decreases_to!(*v => v@[idx as int])); }
        v[idx].log(logger);
        idx = idx + 1;
    }
    logger.pop_indent();
}

/// The state after the first `k` elements of a `op_elems` group, each one level deeper, the last one marked.
pub open spec fn spec_log_op_elems_steps(env: LogEnv, st: LogState, v: Seq<OpElem>, k: int) -> LogState
    decreases v, k,
{
    if k <= 0 || k > v.len() {
        st
    } else {
        let marked = st_set_last_if(spec_log_op_elems_steps(env, st, v, k - 1), k == v.len());
        let s1 = v[k - 1].spec_log(env, marked);
        s1
    }
}

/// The state after a `op_elems` group: where `v` is not empty, the line `label`, then each element one level deeper.
pub open spec fn spec_log_op_elems_group(env: LogEnv, st: LogState, label: Seq<char>, v: Seq<OpElem>) -> LogState
    decreases v, v.len() + 1,
{
    if v.len() == 0 {
        st
    } else {
        st_pop(spec_log_op_elems_steps(env, st_begin_indented(env, st, label), v, v.len() as int))
    }
}

/// Where `v` is not empty: the line `label`, then each element one level
/// deeper, the last one marked.
fn log_op_elems_group(logger: &mut AstLogger, label: &str, v: &Vec<OpElem>)
    ensures
        final(logger).state() == spec_log_op_elems_group(old(logger).env(), old(logger).state(), label@, v@),
        old(logger).appends(final(logger)),
        final(logger).levels().len() == old(logger).levels().len(),
        v@.len() == 0 ==> final(logger).text() == old(logger).text() && final(logger).levels() == old(logger).levels(),
    decreases v,
{
    if v.len() == 0 {
        return;
    }
    logger.begin_indented(label);
    let ghost begun = logger.state();
    let mut idx: usize = 0;
    while idx < v.len()
        invariant
            old(logger).appends(logger),
            logger.levels().len() == old(logger).levels().len() + 1,
            logger.env() == old(logger).env(),
            idx <= v@.len(),
            logger.state() == spec_log_op_elems_steps(old(logger).env(), begun, v@, idx as int),
        decreases v@.len() - idx,
    {
        if idx + 1 == v.len() {
            logger.set_last_at_indent();
        }
        proof { assert(decreases_to!(*v => v@[idx as int])); }
        v[idx].log(logger);
        idx = idx + 1;
    }
    logger.pop_indent();
}

/// The state after the first `k` elements of a `stmts` group, each one level deeper, the last one marked.
pub open spec fn spec_log_stmts_steps(env: LogEnv, st: LogState, v: Seq<Stmt>, k: int) -> LogState
    decreases v, k,
{
    if k <= 0 || k > v.len() {
        st
    } else {
        let marked = st_set_last_if(spec_log_stmts_steps(env, st, v, k - 1), k == v.len());
        let s1 = v[k - 1].spec_log(env, marked);
        s1
    }
}

/// The state after a `stmts` group: where `v` is not empty, the line `label`, then each element one level deeper.
pub open spec fn spec_log_stmts_group(env: LogEnv, st: LogState, label: Seq<char>, v: Seq<Stmt>) -> LogState
    decreases v, v.len() + 1,
{
    if v.len() == 0 {
        st
    } else {
        st_pop(spec_log_stmts_steps(env, st_begin_indented(env, st, label), v, v.len() as int))
    }
}

/// Where `v` is not empty: the line `label`, then each element one level
/// deeper, the last one marked.
fn log_stmts_group(logger: &mut AstLogger, label: &str, v: &Vec<Stmt>)
    ensures
        final(logger).state() == spec_log_stmts_group(old(logger).env(), old(logger).state(), label@, v@),
        old(logger).appends(final(logger)),
        final(logger).levels().len() == old(logger).levels().len(),
        v@.len() == 0 ==> final(logger).text() == old(logger).text() && final(logger).levels() == old(logger).levels(),
    decreases v,
{
    if v.len() == 0 {
        return;
    }
    logger.begin_indented(label);
    let ghost begun = logger.state();
    let mut idx: usize = 0;
    while idx < v.len()
        invariant
            old(logger).appends(logger),
            logger.levels().len() == old(logger).levels().len() + 1,
            logger.env() == old(logger).env(),
            idx <= v@.len(),
            logger.state() == spec_log_stmts_steps(old(logger).env(), begun, v@, idx as int),
        decreases v@.len() - idx,
    {
        if idx + 1 == v.len() {
            logger.set_last_at_indent();
        }
        proof { assert(decreases_to!(*v => v@[idx as int])); }
        v[idx].log(logger);
        idx = idx + 1;
    }
    logger.pop_indent();
}

/// The state after each of `v` from the first `k`, the last one marked.
pub open spec fn spec_log_exprs_steps(env: LogEnv, st: LogState, v: Seq<Expr>, k: int) -> LogState
    decreases v, k,
{
    if k <= 0 || k > v.len() {
        st
    } else {
        let marked = st_set_last_if(spec_log_exprs_steps(env, st, v, k - 1), k == v.len());
        v[k - 1].spec_log(env, marked)
    }
}

/// The state after each of `v`, the last one marked.
pub open spec fn spec_log_exprs(env: LogEnv, st: LogState, v: Seq<Expr>) -> LogState
    decreases v, v.len() + 1,
{
    spec_log_exprs_steps(env, st, v, v.len() as int)
}

/// Logs each element, marking the last one.
fn log_exprs(logger: &mut AstLogger, v: &Vec<Expr>)
    ensures
        final(logger).state() == spec_log_exprs(old(logger).env(), old(logger).state(), v@),
        old(logger).appends(final(logger)),
        final(logger).levels().len() == old(logger).levels().len(),
    decreases v,
{
    let mut idx: usize = 0;
    while idx < v.len()
        invariant
            old(logger).appends(logger),
            logger.levels().len() == old(logger).levels().len(),
            logger.env() == old(logger).env(),
            idx <= v@.len(),
            logger.state() == spec_log_exprs_steps(old(logger).env(), old(logger).state(), v@, idx as int),
        decreases v@.len() - idx,
    {
        if idx + 1 == v.len() {
            logger.set_last_at_indent();
        }
        proof { assert(decreases_to!(*v => v@[idx as int])); }
        v[idx].log(logger);
        idx = idx + 1;
    }
}

/// The state after the first `k` elements of a `struct_args` group, each one level deeper, the last one marked.
pub open spec fn spec_log_struct_args_steps(env: LogEnv, st: LogState, v: Seq<StructArg>, k: int) -> LogState
    decreases v, k,
{
    if k <= 0 || k > v.len() {
        st
    } else {
        let marked = st_set_last_if(spec_log_struct_args_steps(env, st, v, k - 1), k == v.len());
        let s1 = v[k - 1].spec_log(env, marked);
        s1
    }
}

/// The state after a `struct_args` group: where `v` is not empty, the line `label`, then each element one level deeper.
pub open spec fn spec_log_struct_args_group(env: LogEnv, st: LogState, label: Seq<char>, v: Seq<StructArg>) -> LogState
    decreases v, v.len() + 1,
{
    if v.len() == 0 {
        st
    } else {
        st_pop(spec_log_struct_args_steps(env, st_begin_indented(env, st, label), v, v.len() as int))
    }
}

/// Where `v` is not empty: the line `label`, then each element one level
/// deeper, the last one marked.
fn log_struct_args_group(logger: &mut AstLogger, label: &str, v: &Vec<StructArg>)
    ensures
        final(logger).state() == spec_log_struct_args_group(old(logger).env(), old(logger).state(), label@, v@),
        old(logger).appends(final(logger)),
        final(logger).levels().len() == old(logger).levels().len(),
        v@.len() == 0 ==> final(logger).text() == old(logger).text() && final(logger).levels() == old(logger).levels(),
    decreases v,
{
    if v.len() == 0 {
        return;
    }
    logger.begin_indented(label);
    let ghost begun = logger.state();
    let mut idx: usize = 0;
    while idx < v.len()
        invariant
            old(logger).appends(logger),
            logger.levels().len() == old(logger).levels().len() + 1,
            logger.env() == old(logger).env(),
            idx <= v@.len(),
            logger.state() == spec_log_struct_args_steps(old(logger).env(), begun, v@, idx as int),
        decreases v@.len() - idx,
    {
        if idx + 1 == v.len() {
            logger.set_last_at_indent();
        }
        proof { assert(decreases_to!(*v => v@[idx as int])); }
        v[idx].log(logger);
        idx = idx + 1;
    }
    logger.pop_indent();
}

/// The state after the first `k` elements of a `fn_args` group, each one level deeper, the last one marked.
pub open spec fn spec_log_fn_args_steps(env: LogEnv, st: LogState, v: Seq<FnArg>, k: int) -> LogState
    decreases v, k,
{
    if k <= 0 || k > v.len() {
        st
    } else {
        let marked = st_set_last_if(spec_log_fn_args_steps(env, st, v, k - 1), k == v.len());
        let s1 = v[k - 1].spec_log(env, marked);
        s1
    }
}

/// The state after a `fn_args` group: where `v` is not empty, the line `label`, then each element one level deeper.
pub open spec fn spec_log_fn_args_group(env: LogEnv, st: LogState, label: Seq<char>, v: Seq<FnArg>) -> LogState
    decreases v, v.len() + 1,
{
    if v.len() == 0 {
        st
    } else {
        st_pop(spec_log_fn_args_steps(env, st_begin_indented(env, st, label), v, v.len() as int))
    }
}

/// Where `v` is not empty: the line `label`, then each element one level
/// deeper, the last one marked.
fn log_fn_args_group(logger: &mut AstLogger, label: &str, v: &Vec<FnArg>)
    ensures
        final(logger).state() == spec_log_fn_args_group(old(logger).env(), old(logger).state(), label@, v@),
        old(logger).appends(final(logger)),
        final(logger).levels().len() == old(logger).levels().len(),
        v@.len() == 0 ==> final(logger).text() == old(logger).text() && final(logger).levels() == old(logger).levels(),
    decreases v,
{
    if v.len() == 0 {
        return;
    }
    logger.begin_indented(label);
    let ghost begun = logger.state();
    let mut idx: usize = 0;
    while idx < v.len()
        invariant
            old(logger).appends(logger),
            logger.levels().len() == old(logger).levels().len() + 1,
            logger.env() == old(logger).env(),
            idx <= v@.len(),
            logger.state() == spec_log_fn_args_steps(old(logger).env(), begun, v@, idx as int),
        decreases v@.len() - idx,
    {
        if idx + 1 == v.len() {
            logger.set_last_at_indent();
        }
        proof { assert(decreases_to!(*v => v@[idx as int])); }
        v[idx].log(logger);
        idx = idx + 1;
    }
    logger.pop_indent();
}

/// The state after the first `k` elements of a `branches` group, each one level deeper, the last one marked.
pub open spec fn spec_log_branches_steps(env: LogEnv, st: LogState, v: Seq<MatchBranch>, k: int) -> LogState
    decreases v, k,
{
    if k <= 0 || k > v.len() {
        st
    } else {
        let marked = st_set_last_if(spec_log_branches_steps(env, st, v, k - 1), k == v.len());
        let s1 = v[k - 1].spec_log(env, marked);
        s1
    }
}

/// The state after a `branches` group: where `v` is not empty, the line `label`, then each element one level deeper.
pub open spec fn spec_log_branches_group(env: LogEnv, st: LogState, label: Seq<char>, v: Seq<MatchBranch>) -> LogState
    decreases v, v.len() + 1,
{
    if v.len() == 0 {
        st
    } else {
        st_pop(spec_log_branches_steps(env, st_begin_indented(env, st, label), v, v.len() as int))
    }
}

/// Where `v` is not empty: the line `label`, then each element one level
/// deeper, the last one marked.
fn log_branches_group(logger: &mut AstLogger, label: &str, v: &Vec<MatchBranch>)
    ensures
        final(logger).state() == spec_log_branches_group(old(logger).env(), old(logger).state(), label@, v@),
        old(logger).appends(final(logger)),
        final(logger).levels().len() == old(logger).levels().len(),
        v@.len() == 0 ==> final(logger).text() == old(logger).text() && final(logger).levels() == old(logger).levels(),
    decreases v,
{
    if v.len() == 0 {
        return;
    }
    logger.begin_indented(label);
    let ghost begun = logger.state();
    let mut idx: usize = 0;
    while idx < v.len()
        invariant
            old(logger).appends(logger),
            logger.levels().len() == old(logger).levels().len() + 1,
            logger.env() == old(logger).env(),
            idx <= v@.len(),
            logger.state() == spec_log_branches_steps(old(logger).env(), begun, v@, idx as int),
        decreases v@.len() - idx,
    {
        if idx + 1 == v.len() {
            logger.set_last_at_indent();
        }
        proof { assert(decreases_to!(*v => v@[idx as int])); }
        v[idx].log(logger);
        idx = idx + 1;
    }
    logger.pop_indent();
}

/// The state after the first `k` elements of a `patterns` group, each one level deeper, the last one marked.
pub open spec fn spec_log_patterns_steps(env: LogEnv, st: LogState, v: Seq<Pattern>, k: int) -> LogState
    decreases v, k,
{
    if k <= 0 || k > v.len() {
        st
    } else {
        let marked = st_set_last_if(spec_log_patterns_steps(env, st, v, k - 1), k == v.len());
        let s1 = v[k - 1].spec_log(env, marked);
        s1
    }
}

/// The state after a `patterns` group: where `v` is not empty, the line `label`, then each element one level deeper.
pub open spec fn spec_log_patterns_group(env: LogEnv, st: LogState, label: Seq<char>, v: Seq<Pattern>) -> LogState
    decreases v, v.len() + 1,
{
    if v.len() == 0 {
        st
    } else {
        st_pop(spec_log_patterns_steps(env, st_begin_indented(env, st, label), v, v.len() as int))
    }
}

/// Where `v` is not empty: the line `label`, then each element one level
/// deeper, the last one marked.
fn log_patterns_group(logger: &mut AstLogger, label: &str, v: &Vec<Pattern>)
    ensures
        final(logger).state() == spec_log_patterns_group(old(logger).env(), old(logger).state(), label@, v@),
        old(logger).appends(final(logger)),
        final(logger).levels().len() == old(logger).levels().len(),
        v@.len() == 0 ==> final(logger).text() == old(logger).text() && final(logger).levels() == old(logger).levels(),
    decreases v,
{
    if v.len() == 0 {
        return;
    }
    logger.begin_indented(label);
    let ghost begun = logger.state();
    let mut idx: usize = 0;
    while idx < v.len()
        invariant
            old(logger).appends(logger),
            logger.levels().len() == old(logger).levels().len() + 1,
            logger.env() == old(logger).env(),
            idx <= v@.len(),
            logger.state() == spec_log_patterns_steps(old(logger).env(), begun, v@, idx as int),
        decreases v@.len() - idx,
    {
        if idx + 1 == v.len() {
            logger.set_last_at_indent();
        }
        proof { assert(decreases_to!(*v => v@[idx as int])); }
        v[idx].log(logger);
        idx = idx + 1;
    }
    logger.pop_indent();
}

/// The state after the first `k` elements of a `pattern_fields` group, each one level deeper, the last one marked.
pub open spec fn spec_log_pattern_fields_steps(env: LogEnv, st: LogState, v: Seq<StructPatternField>, k: int) -> LogState
    decreases v, k,
{
    if k <= 0 || k > v.len() {
        st
    } else {
        let marked = st_set_last_if(spec_log_pattern_fields_steps(env, st, v, k - 1), k == v.len());
        let s1 = v[k - 1].spec_log(env, marked);
        s1
    }
}

/// The state after a `pattern_fields` group: where `v` is not empty, the line `label`, then each element one level deeper.
pub open spec fn spec_log_pattern_fields_group(env: LogEnv, st: LogState, label: Seq<char>, v: Seq<StructPatternField>) -> LogState
    decreases v, v.len() + 1,
{
    if v.len() == 0 {
        st
    } else {
        st_pop(spec_log_pattern_fields_steps(env, st_begin_indented(env, st, label), v, v.len() as int))
    }
}

/// Where `v` is not empty: the line `label`, then each element one level
/// deeper, the last one marked.
fn log_pattern_fields_group(logger: &mut AstLogger, label: &str, v: &Vec<StructPatternField>)
    ensures
        final(logger).state() == spec_log_pattern_fields_group(old(logger).env(), old(logger).state(), label@, v@),
        old(logger).appends(final(logger)),
        final(logger).levels().len() == old(logger).levels().len(),
        v@.len() == 0 ==> final(logger).text() == old(logger).text() && final(logger).levels() == old(logger).levels(),
    decreases v,
{
    if v.len() == 0 {
        return;
    }
    logger.begin_indented(label);
    let ghost begun = logger.state();
    let mut idx: usize = 0;
    while idx < v.len()
        invariant
            old(logger).appends(logger),
            logger.levels().len() == old(logger).levels().len() + 1,
            logger.env() == old(logger).env(),
            idx <= v@.len(),
            logger.state() == spec_log_pattern_fields_steps(old(logger).env(), begun, v@, idx as int),
        decreases v@.len() - idx,
    {
        if idx + 1 == v.len() {
            logger.set_last_at_indent();
        }
        proof { assert(decreases_to!(*v => v@[idx as int])); }
        v[idx].log(logger);
        idx = idx + 1;
    }
    logger.pop_indent();
}

/// The state after the first `k` elements of a `types` group, each one level deeper, the last one marked.
pub open spec fn spec_log_types_steps(env: LogEnv, st: LogState, v: Seq<Type>, k: int) -> LogState
    decreases v, k,
{
    if k <= 0 || k > v.len() {
        st
    } else {
        let marked = st_set_last_if(spec_log_types_steps(env, st, v, k - 1), k == v.len());
        let s1 = v[k - 1].spec_log(env, marked);
        s1
    }
}

/// The state after a `types` group: where `v` is not empty, the line `label`, then each element one level deeper.
pub open spec fn spec_log_types_group(env: LogEnv, st: LogState, label: Seq<char>, v: Seq<Type>) -> LogState
    decreases v, v.len() + 1,
{
    if v.len() == 0 {
        st
    } else {
        st_pop(spec_log_types_steps(env, st_begin_indented(env, st, label), v, v.len() as int))
    }
}

/// Where `v` is not empty: the line `label`, then each element one level
/// deeper, the last one marked.
fn log_types_group(logger: &mut AstLogger, label: &str, v: &Vec<Type>)
    ensures
        final(logger).state() == spec_log_types_group(old(logger).env(), old(logger).state(), label@, v@),
        old(logger).appends(final(logger)),
        final(logger).levels().len() == old(logger).levels().len(),
        v@.len() == 0 ==> final(logger).text() == old(logger).text() && final(logger).levels() == old(logger).levels(),
    decreases v,
{
    if v.len() == 0 {
        return;
    }
    logger.begin_indented(label);
    let ghost begun = logger.state();
    let mut idx: usize = 0;
    while idx < v.len()
        invariant
            old(logger).appends(logger),
            logger.levels().len() == old(logger).levels().len() + 1,
            logger.env() == old(logger).env(),
            idx <= v@.len(),
            logger.state() == spec_log_types_steps(old(logger).env(), begun, v@, idx as int),
        decreases v@.len() - idx,
    {
        if idx + 1 == v.len() {
            logger.set_last_at_indent();
        }
        proof { assert(decreases_to!(*v => v@[idx as int])); }
        v[idx].log(logger);
        idx = idx + 1;
    }
    logger.pop_indent();
}

/// The state after the first `k` elements of a `identifiers` group, each one level deeper, the last one marked.
pub open spec fn spec_log_identifiers_steps(env: LogEnv, st: LogState, v: Seq<Identifier>, k: int) -> LogState
    decreases v, k,
{
    if k <= 0 || k > v.len() {
        st
    } else {
        let marked = st_set_last_if(spec_log_identifiers_steps(env, st, v, k - 1), k == v.len());
        let s1 = v[k - 1].spec_log(env, marked);
        s1
    }
}

/// The state after a `identifiers` group: where `v` is not empty, the line `label`, then each element one level deeper.
pub open spec fn spec_log_identifiers_group(env: LogEnv, st: LogState, label: Seq<char>, v: Seq<Identifier>) -> LogState
    decreases v, v.len() + 1,
{
    if v.len() == 0 {
        st
    } else {
        st_pop(spec_log_identifiers_steps(env, st_begin_indented(env, st, label), v, v.len() as int))
    }
}

/// Where `v` is not empty: the line `label`, then each element one level
/// deeper, the last one marked.
fn log_identifiers_group(logger: &mut AstLogger, label: &str, v: &Vec<Identifier>)
    ensures
        final(logger).state() == spec_log_identifiers_group(old(logger).env(), old(logger).state(), label@, v@),
        old(logger).appends(final(logger)),
        final(logger).levels().len() == old(logger).levels().len(),
        v@.len() == 0 ==> final(logger).text() == old(logger).text() && final(logger).levels() == old(logger).levels(),
    decreases v,
{
    if v.len() == 0 {
        return;
    }
    logger.begin_indented(label);
    let ghost begun = logger.state();
    let mut idx: usize = 0;
    while idx < v.len()
        invariant
            old(logger).appends(logger),
            logger.levels().len() == old(logger).levels().len() + 1,
            logger.env() == old(logger).env(),
            idx <= v@.len(),
            logger.state() == spec_log_identifiers_steps(old(logger).env(), begun, v@, idx as int),
        decreases v@.len() - idx,
    {
        if idx + 1 == v.len() {
            logger.set_last_at_indent();
        }
        proof { assert(decreases_to!(*v => v@[idx as int])); }
        v[idx].log(logger);
        idx = idx + 1;
    }
    logger.pop_indent();
}

/// The state after the first `k` elements of a `use_paths` group, each one level deeper, the last one marked.
pub open spec fn spec_log_use_paths_steps(env: LogEnv, st: LogState, v: Seq<AstNodeRef<UsePath>>, k: int) -> LogState
    decreases v, k,
{
    if k <= 0 || k > v.len() {
        st
    } else {
        let marked = st_set_last_if(spec_log_use_paths_steps(env, st, v, k - 1), k == v.len());
        let prev = marked.node;
        let s1 = st_enter(marked, v[k - 1].spec_node_id());
        let s2 = v[k - 1].spec_log(env, s1);
        let s3 = st_enter(s2, prev);
        s3
    }
}

/// The state after a `use_paths` group: where `v` is not empty, the line `label`, then each element one level deeper.
pub open spec fn spec_log_use_paths_group(env: LogEnv, st: LogState, label: Seq<char>, v: Seq<AstNodeRef<UsePath>>) -> LogState
    decreases v, v.len() + 1,
{
    if v.len() == 0 {
        st
    } else {
        st_pop(spec_log_use_paths_steps(env, st_begin_indented(env, st, label), v, v.len() as int))
    }
}

/// Where `v` is not empty: the line `label`, then each element one level
/// deeper, the last one marked.
fn log_use_paths_group(logger: &mut AstLogger, label: &str, v: &Vec<AstNodeRef<UsePath>>)
    ensures
        final(logger).state() == spec_log_use_paths_group(old(logger).env(), old(logger).state(), label@, v@),
        old(logger).appends(final(logger)),
        final(logger).levels().len() == old(logger).levels().len(),
        v@.len() == 0 ==> final(logger).text() == old(logger).text() && final(logger).levels() == old(logger).levels(),
    decreases v,
{
    if v.len() == 0 {
        return;
    }
    logger.begin_indented(label);
    let ghost begun = logger.state();
    let mut idx: usize = 0;
    while idx < v.len()
        invariant
            old(logger).appends(logger),
            logger.levels().len() == old(logger).levels().len() + 1,
            logger.env() == old(logger).env(),
            idx <= v@.len(),
            logger.state() == spec_log_use_paths_steps(old(logger).env(), begun, v@, idx as int),
        decreases v@.len() - idx,
    {
        if idx + 1 == v.len() {
            logger.set_last_at_indent();
        }
        proof { assert(decreases_to!(*v => v@[idx as int])); }
        let prev = logger.enter_node(v[idx].node_id());
        v[idx].log(logger);
        logger.enter_node(prev);
        idx = idx + 1;
    }
    logger.pop_indent();
}

/// The state after the first `k` elements of a `type_bounds` group, each one level deeper, the last one marked.
pub open spec fn spec_log_type_bounds_steps(env: LogEnv, st: LogState, v: Seq<GenericTypeBound>, k: int) -> LogState
    decreases v, k,
{
    if k <= 0 || k > v.len() {
        st
    } else {
        let marked = st_set_last_if(spec_log_type_bounds_steps(env, st, v, k - 1), k == v.len());
        let s1 = v[k - 1].spec_log(env, marked);
        s1
    }
}

/// The state after a `type_bounds` group: where `v` is not empty, the line `label`, then each element one level deeper.
pub open spec fn spec_log_type_bounds_group(env: LogEnv, st: LogState, label: Seq<char>, v: Seq<GenericTypeBound>) -> LogState
    decreases v, v.len() + 1,
{
    if v.len() == 0 {
        st
    } else {
        st_pop(spec_log_type_bounds_steps(env, st_begin_indented(env, st, label), v, v.len() as int))
    }
}

/// Where `v` is not empty: the line `label`, then each element one level
/// deeper, the last one marked.
fn log_type_bounds_group(logger: &mut AstLogger, label: &str, v: &Vec<GenericTypeBound>)
    ensures
        final(logger).state() == spec_log_type_bounds_group(old(logger).env(), old(logger).state(), label@, v@),
        old(logger).appends(final(logger)),
        final(logger).levels().len() == old(logger).levels().len(),
        v@.len() == 0 ==> final(logger).text() == old(logger).text() && final(logger).levels() == old(logger).levels(),
    decreases v,
{
    if v.len() == 0 {
        return;
    }
    logger.begin_indented(label);
    let ghost begun = logger.state();
    let mut idx: usize = 0;
    while idx < v.len()
        invariant
            old(logger).appends(logger),
            logger.levels().len() == old(logger).levels().len() + 1,
            logger.env() == old(logger).env(),
            idx <= v@.len(),
            logger.state() == spec_log_type_bounds_steps(old(logger).env(), begun, v@, idx as int),
        decreases v@.len() - idx,
    {
        if idx + 1 == v.len() {
            logger.set_last_at_indent();
        }
        proof { assert(decreases_to!(*v => v@[idx as int])); }
        v[idx].log(logger);
        idx = idx + 1;
    }
    logger.pop_indent();
}

/// The state after the first `k` elements of a `metas` group, each one level deeper, the last one marked.
pub open spec fn spec_log_metas_steps(env: LogEnv, st: LogState, v: Seq<AttribMeta>, k: int) -> LogState
    decreases v, k,
{
    if k <= 0 || k > v.len() {
        st
    } else {
        let marked = st_set_last_if(spec_log_metas_steps(env, st, v, k - 1), k == v.len());
        let s1 = v[k - 1].spec_log(env, marked);
        s1
    }
}

/// The state after a `metas` group: where `v` is not empty, the line `label`, then each element one level deeper.
pub open spec fn spec_log_metas_group(env: LogEnv, st: LogState, label: Seq<char>, v: Seq<AttribMeta>) -> LogState
    decreases v, v.len() + 1,
{
    if v.len() == 0 {
        st
    } else {
        st_pop(spec_log_metas_steps(env, st_begin_indented(env, st, label), v, v.len() as int))
    }
}

/// Where `v` is not empty: the line `label`, then each element one level
/// deeper, the last one marked.
fn log_metas_group(logger: &mut AstLogger, label: &str, v: &Vec<AttribMeta>)
    ensures
        final(logger).state() == spec_log_metas_group(old(logger).env(), old(logger).state(), label@, v@),
        old(logger).appends(final(logger)),
        final(logger).levels().len() == old(logger).levels().len(),
        v@.len() == 0 ==> final(logger).text() == old(logger).text() && final(logger).levels() == old(logger).levels(),
    decreases v,
{
    if v.len() == 0 {
        return;
    }
    logger.begin_indented(label);
    let ghost begun = logger.state();
    let mut idx: usize = 0;
    while idx < v.len()
        invariant
            old(logger).appends(logger),
            logger.levels().len() == old(logger).levels().len() + 1,
            logger.env() == old(logger).env(),
            idx <= v@.len(),
            logger.state() == spec_log_metas_steps(old(logger).env(), begun, v@, idx as int),
        decreases v@.len() - idx,
    {
        if idx + 1 == v.len() {
            logger.set_last_at_indent();
        }
        proof { assert(decreases_to!(*v => v@[idx as int])); }
        v[idx].log(logger);
        idx = idx + 1;
    }
    logger.pop_indent();
}

/// The state after each of `v` from the first `k`, the last one marked.
pub open spec fn spec_log_items_steps(env: LogEnv, st: LogState, v: Seq<Item>, k: int) -> LogState
    decreases v, k,
{
    if k <= 0 || k > v.len() {
        st
    } else {
        let marked = st_set_last_if(spec_log_items_steps(env, st, v, k - 1), k == v.len());
        v[k - 1].spec_log(env, marked)
    }
}

/// The state after each of `v`, the last one marked.
pub open spec fn spec_log_items(env: LogEnv, st: LogState, v: Seq<Item>) -> LogState
    decreases v, v.len() + 1,
{
    spec_log_items_steps(env, st, v, v.len() as int)
}

/// Logs each element, marking the last one.
fn log_items(logger: &mut AstLogger, v: &Vec<Item>)
    ensures
        final(logger).state() == spec_log_items(old(logger).env(), old(logger).state(), v@),
        old(logger).appends(final(logger)),
        final(logger).levels().len() == old(logger).levels().len(),
    decreases v,
{
    let mut idx: usize = 0;
    while idx < v.len()
        invariant
            old(logger).appends(logger),
            logger.levels().len() == old(logger).levels().len(),
            logger.env() == old(logger).env(),
            idx <= v@.len(),
            logger.state() == spec_log_items_steps(old(logger).env(), old(logger).state(), v@, idx as int),
        decreases v@.len() - idx,
    {
        if idx + 1 == v.len() {
            logger.set_last_at_indent();
        }
        proof { assert(decreases_to!(*v => v@[idx as int])); }
        v[idx].log(logger);
        idx = idx + 1;
    }
}

/// The state after the first `k` elements of a `fn_type_params` group, each one level deeper, the last one marked.
pub open spec fn spec_log_fn_type_params_steps(env: LogEnv, st: LogState, v: Seq<(Vec<NameId>, Type)>, k: int) -> LogState
    decreases v, k,
{
    if k <= 0 || k > v.len() {
        st
    } else {
        let marked = st_set_last_if(spec_log_fn_type_params_steps(env, st, v, k - 1), k == v.len());
        let s1 = st_name_group(env, marked, "Names"@, "Name: "@, v[k - 1].0@);
        let s2 = st_set_last(s1);
        let s3 = st_begin_last(env, s2, "Type"@);
        let s4 = v[k - 1].1.spec_log(env, s3);
        let s5 = st_pop(s4);
        s5
    }
}

/// The state after a `fn_type_params` group: where `v` is not empty, the line `label`, then each element one level deeper.
pub open spec fn spec_log_fn_type_params_group(env: LogEnv, st: LogState, label: Seq<char>, v: Seq<(Vec<NameId>, Type)>) -> LogState
    decreases v, v.len() + 1,
{
    if v.len() == 0 {
        st
    } else {
        st_pop(spec_log_fn_type_params_steps(env, st_begin_indented(env, st, label), v, v.len() as int))
    }
}

/// Where `v` is not empty: the line `label`, then each element one level
/// deeper, the last one marked.
fn log_fn_type_params_group(logger: &mut AstLogger, label: &str, v: &Vec<(Vec<NameId>, Type)>)
    ensures
        final(logger).state() == spec_log_fn_type_params_group(old(logger).env(), old(logger).state(), label@, v@),
        old(logger).appends(final(logger)),
        final(logger).levels().len() == old(logger).levels().len(),
        v@.len() == 0 ==> final(logger).text() == old(logger).text() && final(logger).levels() == old(logger).levels(),
    decreases v,
{
    if v.len() == 0 {
        return;
    }
    logger.begin_indented(label);
    let ghost begun = logger.state();
    let mut idx: usize = 0;
    while idx < v.len()
        invariant
            old(logger).appends(logger),
            logger.levels().len() == old(logger).levels().len() + 1,
            logger.env() == old(logger).env(),
            idx <= v@.len(),
            logger.state() == spec_log_fn_type_params_steps(old(logger).env(), begun, v@, idx as int),
        decreases v@.len() - idx,
    {
        if idx + 1 == v.len() {
            logger.set_last_at_indent();
        }
        proof { assert(decreases_to!(*v => v@[idx as int])); }
        logger.name_group("Names", "Name: ", &v[idx].0);
        logger.set_last_at_indent();
        logger.begin_last("Type");
        v[idx].1.log(logger);
        logger.pop_indent();
        idx = idx + 1;
    }
    logger.pop_indent();
}

/// The state after the first `k` elements of a `return_vars` group, each one level deeper, the last one marked.
pub open spec fn spec_log_return_vars_steps(env: LogEnv, st: LogState, v: Seq<(Vec<(NameId, SpanId)>, Type)>, k: int) -> LogState
    decreases v, k,
{
    if k <= 0 || k > v.len() {
        st
    } else {
        let marked = st_set_last_if(spec_log_return_vars_steps(env, st, v, k - 1), k == v.len());
        let s1 = st_begin_indented(env, marked, "Return"@);
        let s2 = st_name_group(env, s1, "Names"@, "Name: "@, v[k - 1].0@.map_values(|p: (NameId, SpanId)| p.0));
        let s3 = st_set_last(s2);
        let s4 = st_begin_last(env, s3, "Type"@);
        let s5 = v[k - 1].1.spec_log(env, s4);
        let s6 = st_pop(s5);
        let s7 = st_pop(s6);
        s7
    }
}

/// The state after a `return_vars` group: where `v` is not empty, the line `label`, then each element one level deeper.
pub open spec fn spec_log_return_vars_group(env: LogEnv, st: LogState, label: Seq<char>, v: Seq<(Vec<(NameId, SpanId)>, Type)>) -> LogState
    decreases v, v.len() + 1,
{
    if v.len() == 0 {
        st
    } else {
        st_pop(spec_log_return_vars_steps(env, st_begin_indented(env, st, label), v, v.len() as int))
    }
}

/// Where `v` is not empty: the line `label`, then each element one level
/// deeper, the last one marked.
fn log_return_vars_group(logger: &mut AstLogger, label: &str, v: &Vec<(Vec<(NameId, SpanId)>, Type)>)
    ensures
        final(logger).state() == spec_log_return_vars_group(old(logger).env(), old(logger).state(), label@, v@),
        old(logger).appends(final(logger)),
        final(logger).levels().len() == old(logger).levels().len(),
        v@.len() == 0 ==> final(logger).text() == old(logger).text() && final(logger).levels() == old(logger).levels(),
    decreases v,
{
    if v.len() == 0 {
        return;
    }
    logger.begin_indented(label);
    let ghost begun = logger.state();
    let mut idx: usize = 0;
    while idx < v.len()
        invariant
            old(logger).appends(logger),
            logger.levels().len() == old(logger).levels().len() + 1,
            logger.env() == old(logger).env(),
            idx <= v@.len(),
            logger.state() == spec_log_return_vars_steps(old(logger).env(), begun, v@, idx as int),
        decreases v@.len() - idx,
    {
        if idx + 1 == v.len() {
            logger.set_last_at_indent();
        }
        proof { assert(decreases_to!(*v => v@[idx as int])); }
        logger.begin_indented("Return");
        logger.spanned_name_group("Names", "Name: ", &v[idx].0);
        logger.set_last_at_indent();
        logger.begin_last("Type");
        v[idx].1.log(logger);
        logger.pop_indent();
        logger.pop_indent();
        idx = idx + 1;
    }
    logger.pop_indent();
}

impl AstNodeLog for Item {
    /// Logs the node of the variant as the current node, then makes the
    /// previous node current again.
    fn log(&self, logger: &mut AstLogger)
        ensures
            final(logger).current_node() == old(logger).current_node(),
        decreases self,
    {
        match self {
            Item::Module(node) => {
                let prev = logger.enter_node(node.node_id());
                node.log(logger);
                logger.enter_node(prev);
            },
            Item::Use(node) => {
                let prev = logger.enter_node(node.node_id());
                node.log(logger);
                logger.enter_node(prev);
            },
            Item::Function(node) => {
                let prev = logger.enter_node(node.node_id());
                node.log(logger);
                logger.enter_node(prev);
            },
            Item::TypeAlias(node) => {
                let prev = logger.enter_node(node.node_id());
                node.log(logger);
                logger.enter_node(prev);
            },
            Item::DistinctType(node) => {
                let prev = logger.enter_node(node.node_id());
                node.log(logger);
                logger.enter_node(prev);
            },
            Item::OpaqueType(node) => {
                let prev = logger.enter_node(node.node_id());
                node.log(logger);
                logger.enter_node(prev);
            },
            Item::Struct(node) => {
                let prev = logger.enter_node(node.node_id());
                node.log(logger);
                logger.enter_node(prev);
            },
            Item::Union(node) => {
                let prev = logger.enter_node(node.node_id());
                node.log(logger);
                logger.enter_node(prev);
            },
            Item::Enum(node) => {
                let prev = logger.enter_node(node.node_id());
                node.log(logger);
                logger.enter_node(prev);
            },
            Item::Bitfield(node) => {
                let prev = logger.enter_node(node.node_id());
                node.log(logger);
                logger.enter_node(prev);
            },
            Item::Const(node) => {
                let prev = logger.enter_node(node.node_id());
                node.log(logger);
                logger.enter_node(prev);
            },
            Item::Static(node) => {
                let prev = logger.enter_node(node.node_id());
                node.log(logger);
                logger.enter_node(prev);
            },
            Item::Trait(node) => {
                let prev = logger.enter_node(node.node_id());
                node.log(logger);
                logger.enter_node(prev);
            },
            Item::Impl(node) => {
                let prev = logger.enter_node(node.node_id());
                node.log(logger);
                logger.enter_node(prev);
            },
            Item::Extern(node) => {
                let prev = logger.enter_node(node.node_id());
                node.log(logger);
                logger.enter_node(prev);
            },
            Item::OpTrait(node) => {
                let prev = logger.enter_node(node.node_id());
                node.log(logger);
                logger.enter_node(prev);
            },
            Item::OpUse(node) => {
                let prev = logger.enter_node(node.node_id());
                node.log(logger);
                logger.enter_node(prev);
            },
            Item::Precedence(node) => {
                let prev = logger.enter_node(node.node_id());
                node.log(logger);
                logger.enter_node(prev);
            },
            Item::PrecedenceUse(node) => {
                let prev = logger.enter_node(node.node_id());
                node.log(logger);
                logger.enter_node(prev);
            },
        }
    }

    open spec fn spec_log(&self, env: LogEnv, st: LogState) -> LogState
        decreases self, 0int,
    {
        let s1 = match *self {
            Item::Module(node) => {
                let prev = st.node;
                let s2 = st_enter(st, node.spec_node_id());
                let s3 = node.spec_log(env, s2);
                let s4 = st_enter(s3, prev);
                s4
            },
            Item::Use(node) => {
                let prev = st.node;
                let s5 = st_enter(st, node.spec_node_id());
                let s6 = node.spec_log(env, s5);
                let s7 = st_enter(s6, prev);
                s7
            },
            Item::Function(node) => {
                let prev = st.node;
                let s8 = st_enter(st, node.spec_node_id());
                let s9 = node.spec_log(env, s8);
                let s10 = st_enter(s9, prev);
                s10
            },
            Item::TypeAlias(node) => {
                let prev = st.node;
                let s11 = st_enter(st, node.spec_node_id());
                let s12 = node.spec_log(env, s11);
                let s13 = st_enter(s12, prev);
                s13
            },
            Item::DistinctType(node) => {
                let prev = st.node;
                let s14 = st_enter(st, node.spec_node_id());
                let s15 = node.spec_log(env, s14);
                let s16 = st_enter(s15, prev);
                s16
            },
            Item::OpaqueType(node) => {
                let prev = st.node;
                let s17 = st_enter(st, node.spec_node_id());
                let s18 = node.spec_log(env, s17);
                let s19 = st_enter(s18, prev);
                s19
            },
            Item::Struct(node) => {
                let prev = st.node;
                let s20 = st_enter(st, node.spec_node_id());
                let s21 = node.spec_log(env, s20);
                let s22 = st_enter(s21, prev);
                s22
            },
            Item::Union(node) => {
                let prev = st.node;
                let s23 = st_enter(st, node.spec_node_id());
                let s24 = node.spec_log(env, s23);
                let s25 = st_enter(s24, prev);
                s25
            },
            Item::Enum(node) => {
                let prev = st.node;
                let s26 = st_enter(st, node.spec_node_id());
                let s27 = node.spec_log(env, s26);
                let s28 = st_enter(s27, prev);
                s28
            },
            Item::Bitfield(node) => {
                let prev = st.node;
                let s29 = st_enter(st, node.spec_node_id());
                let s30 = node.spec_log(env, s29);
                let s31 = st_enter(s30, prev);
                s31
            },
            Item::Const(node) => {
                let prev = st.node;
                let s32 = st_enter(st, node.spec_node_id());
                let s33 = node.spec_log(env, s32);
                let s34 = st_enter(s33, prev);
                s34
            },
            Item::Static(node) => {
                let prev = st.node;
                let s35 = st_enter(st, node.spec_node_id());
                let s36 = node.spec_log(env, s35);
                let s37 = st_enter(s36, prev);
                s37
            },
            Item::Trait(node) => {
                let prev = st.node;
                let s38 = st_enter(st, node.spec_node_id());
                let s39 = node.spec_log(env, s38);
                let s40 = st_enter(s39, prev);
                s40
            },
            Item::Impl(node) => {
                let prev = st.node;
                let s41 = st_enter(st, node.spec_node_id());
                let s42 = node.spec_log(env, s41);
                let s43 = st_enter(s42, prev);
                s43
            },
            Item::Extern(node) => {
                let prev = st.node;
                let s44 = st_enter(st, node.spec_node_id());
                let s45 = node.spec_log(env, s44);
                let s46 = st_enter(s45, prev);
                s46
            },
            Item::OpTrait(node) => {
                let prev = st.node;
                let s47 = st_enter(st, node.spec_node_id());
                let s48 = node.spec_log(env, s47);
                let s49 = st_enter(s48, prev);
                s49
            },
            Item::OpUse(node) => {
                let prev = st.node;
                let s50 = st_enter(st, node.spec_node_id());
                let s51 = node.spec_log(env, s50);
                let s52 = st_enter(s51, prev);
                s52
            },
            Item::Precedence(node) => {
                let prev = st.node;
                let s53 = st_enter(st, node.spec_node_id());
                let s54 = node.spec_log(env, s53);
                let s55 = st_enter(s54, prev);
                s55
            },
            Item::PrecedenceUse(node) => {
                let prev = st.node;
                let s56 = st_enter(st, node.spec_node_id());
                let s57 = node.spec_log(env, s56);
                let s58 = st_enter(s57, prev);
                s58
            },
        };
        s1
    }
}

impl AstNodeLog for TraitItem {
    /// Logs the node of the variant as the current node, then makes the
    /// previous node current again.
    fn log(&self, logger: &mut AstLogger)
        ensures
            final(logger).current_node() == old(logger).current_node(),
        decreases self,
    {
        match self {
            TraitItem::Function(node) => {
                let prev = logger.enter_node(node.node_id());
                node.log(logger);
                logger.enter_node(prev);
            },
            TraitItem::Method(node) => {
                let prev = logger.enter_node(node.node_id());
                node.log(logger);
                logger.enter_node(prev);
            },
            TraitItem::TypeAlias(node) => {
                let prev = logger.enter_node(node.node_id());
                node.log(logger);
                logger.enter_node(prev);
            },
            TraitItem::Const(node) => {
                let prev = logger.enter_node(node.node_id());
                node.log(logger);
                logger.enter_node(prev);
            },
            TraitItem::Property(node) => {
                let prev = logger.enter_node(node.node_id());
                node.log(logger);
                logger.enter_node(prev);
            },
        }
    }

    open spec fn spec_log(&self, env: LogEnv, st: LogState) -> LogState
        decreases self, 0int,
    {
        let s1 = match *self {
            TraitItem::Function(node) => {
                let prev = st.node;
                let s2 = st_enter(st, node.spec_node_id());
                let s3 = node.spec_log(env, s2);
                let s4 = st_enter(s3, prev);
                s4
            },
            TraitItem::Method(node) => {
                let prev = st.node;
                let s5 = st_enter(st, node.spec_node_id());
                let s6 = node.spec_log(env, s5);
                let s7 = st_enter(s6, prev);
                s7
            },
            TraitItem::TypeAlias(node) => {
                let prev = st.node;
                let s8 = st_enter(st, node.spec_node_id());
                let s9 = node.spec_log(env, s8);
                let s10 = st_enter(s9, prev);
                s10
            },
            TraitItem::Const(node) => {
                let prev = st.node;
                let s11 = st_enter(st, node.spec_node_id());
                let s12 = node.spec_log(env, s11);
                let s13 = st_enter(s12, prev);
                s13
            },
            TraitItem::Property(node) => {
                let prev = st.node;
                let s14 = st_enter(st, node.spec_node_id());
                let s15 = node.spec_log(env, s14);
                let s16 = st_enter(s15, prev);
                s16
            },
        };
        s1
    }
}

impl AstNodeLog for AssocItem {
    /// Logs the node of the variant as the current node, then makes the
    /// previous node current again.
    fn log(&self, logger: &mut AstLogger)
        ensures
            final(logger).current_node() == old(logger).current_node(),
        decreases self,
    {
        match self {
            AssocItem::Function(node) => {
                let prev = logger.enter_node(node.node_id());
                node.log(logger);
                logger.enter_node(prev);
            },
            AssocItem::Method(node) => {
                let prev = logger.enter_node(node.node_id());
                node.log(logger);
                logger.enter_node(prev);
            },
            AssocItem::TypeAlias(node) => {
                let prev = logger.enter_node(node.node_id());
                node.log(logger);
                logger.enter_node(prev);
            },
            AssocItem::Const(node) => {
                let prev = logger.enter_node(node.node_id());
                node.log(logger);
                logger.enter_node(prev);
            },
            AssocItem::Static(node) => {
                let prev = logger.enter_node(node.node_id());
                node.log(logger);
                logger.enter_node(prev);
            },
            AssocItem::Property(node) => {
                let prev = logger.enter_node(node.node_id());
                node.log(logger);
                logger.enter_node(prev);
            },
        }
    }

    open spec fn spec_log(&self, env: LogEnv, st: LogState) -> LogState
        decreases self, 0int,
    {
        let s1 = match *self {
            AssocItem::Function(node) => {
                let prev = st.node;
                let s2 = st_enter(st, node.spec_node_id());
                let s3 = node.spec_log(env, s2);
                let s4 = st_enter(s3, prev);
                s4
            },
            AssocItem::Method(node) => {
                let prev = st.node;
                let s5 = st_enter(st, node.spec_node_id());
                let s6 = node.spec_log(env, s5);
                let s7 = st_enter(s6, prev);
                s7
            },
            AssocItem::TypeAlias(node) => {
                let prev = st.node;
                let s8 = st_enter(st, node.spec_node_id());
                let s9 = node.spec_log(env, s8);
                let s10 = st_enter(s9, prev);
                s10
            },
            AssocItem::Const(node) => {
                let prev = st.node;
                let s11 = st_enter(st, node.spec_node_id());
                let s12 = node.spec_log(env, s11);
                let s13 = st_enter(s12, prev);
                s13
            },
            AssocItem::Static(node) => {
                let prev = st.node;
                let s14 = st_enter(st, node.spec_node_id());
                let s15 = node.spec_log(env, s14);
                let s16 = st_enter(s15, prev);
                s16
            },
            AssocItem::Property(node) => {
                let prev = st.node;
                let s17 = st_enter(st, node.spec_node_id());
                let s18 = node.spec_log(env, s17);
                let s19 = st_enter(s18, prev);
                s19
            },
        };
        s1
    }
}

impl AstNodeLog for ExternItem {
    /// Logs the node of the variant as the current node, then makes the
    /// previous node current again.
    fn log(&self, logger: &mut AstLogger)
        ensures
            final(logger).current_node() == old(logger).current_node(),
        decreases self,
    {
        match self {
            ExternItem::Function(node) => {
                let prev = logger.enter_node(node.node_id());
                node.log(logger);
                logger.enter_node(prev);
            },
            ExternItem::Static(node) => {
                let prev = logger.enter_node(node.node_id());
                node.log(logger);
                logger.enter_node(prev);
            },
        }
    }

    open spec fn spec_log(&self, env: LogEnv, st: LogState) -> LogState
        decreases self, 0int,
    {
        let s1 = match *self {
            ExternItem::Function(node) => {
                let prev = st.node;
                let s2 = st_enter(st, node.spec_node_id());
                let s3 = node.spec_log(env, s2);
                let s4 = st_enter(s3, prev);
                s4
            },
            ExternItem::Static(node) => {
                let prev = st.node;
                let s5 = st_enter(st, node.spec_node_id());
                let s6 = node.spec_log(env, s5);
                let s7 = st_enter(s6, prev);
                s7
            },
        };
        s1
    }
}

impl AstNodeLog for Stmt {
    fn log(&self, logger: &mut AstLogger)
        decreases self,
    {
        match self {
            Stmt::Empty(node) => {
                let prev = logger.enter_node(node.node_id());
                node.log(logger);
                logger.enter_node(prev);
            },
            Stmt::Item(node) => node.log(logger),
            Stmt::VarDecl(node) => {
                let prev = logger.enter_node(node.node_id());
                node.log(logger);
                logger.enter_node(prev);
            },
            Stmt::Defer(node) => {
                let prev = logger.enter_node(node.node_id());
                node.log(logger);
                logger.enter_node(prev);
            },
            Stmt::ErrDefer(node) => {
                let prev = logger.enter_node(node.node_id());
                node.log(logger);
                logger.enter_node(prev);
            },
            Stmt::Expr(node) => {
                let prev = logger.enter_node(node.node_id());
                node.log(logger);
                logger.enter_node(prev);
            },
        }
    }

    open spec fn spec_log(&self, env: LogEnv, st: LogState) -> LogState
        decreases self, 0int,
    {
        let s1 = match *self {
            Stmt::Empty(node) => {
                let prev = st.node;
                let s2 = st_enter(st, node.spec_node_id());
                let s3 = node.spec_log(env, s2);
                let s4 = st_enter(s3, prev);
                s4
            },
            Stmt::Item(node) => {
                let s5 = node.spec_log(env, st);
                s5
            },
            Stmt::VarDecl(node) => {
                let prev = st.node;
                let s6 = st_enter(st, node.spec_node_id());
                let s7 = node.spec_log(env, s6);
                let s8 = st_enter(s7, prev);
                s8
            },
            Stmt::Defer(node) => {
                let prev = st.node;
                let s9 = st_enter(st, node.spec_node_id());
                let s10 = node.spec_log(env, s9);
                let s11 = st_enter(s10, prev);
                s11
            },
            Stmt::ErrDefer(node) => {
                let prev = st.node;
                let s12 = st_enter(st, node.spec_node_id());
                let s13 = node.spec_log(env, s12);
                let s14 = st_enter(s13, prev);
                s14
            },
            Stmt::Expr(node) => {
                let prev = st.node;
                let s15 = st_enter(st, node.spec_node_id());
                let s16 = node.spec_log(env, s15);
                let s17 = st_enter(s16, prev);
                s17
            },
        };
        s1
    }
}

impl AstNodeLog for Expr {
    /// Logs the node of the variant as the current node, then makes the
    /// previous node current again.
    fn log(&self, logger: &mut AstLogger)
        ensures
            final(logger).current_node() == old(logger).current_node(),
            match self {
                Expr::Unit(_) => final(logger).text() == old(logger).text() + old(logger).prefix() + "Unit Expression"@ + "\n"@
                    && final(logger).levels() == old(logger).levels(),
                Expr::Underscore(_) => final(logger).text() == old(logger).text() + old(logger).prefix() + "Underscore expression"@ + "\n"@
                    && final(logger).levels() == old(logger).levels(),
                _ => true,
            },
        decreases self,
    {
        match self {
            Expr::Literal(node) => {
                let prev = logger.enter_node(node.node_id());
                node.log(logger);
                logger.enter_node(prev);
            },
            Expr::Path(node) => {
                let prev = logger.enter_node(node.node_id());
                node.log(logger);
                logger.enter_node(prev);
            },
            Expr::Unit(node) => {
                let prev = logger.enter_node(node.node_id());
                node.log(logger);
                logger.enter_node(prev);
            },
            Expr::Block(node) => {
                let prev = logger.enter_node(node.node_id());
                node.log(logger);
                logger.enter_node(prev);
            },
            Expr::Prefix(node) => {
                let prev = logger.enter_node(node.node_id());
                node.log(logger);
                logger.enter_node(prev);
            },
            Expr::Postfix(node) => {
                let prev = logger.enter_node(node.node_id());
                node.log(logger);
                logger.enter_node(prev);
            },
            Expr::Infix(node) => {
                let prev = logger.enter_node(node.node_id());
                node.log(logger);
                logger.enter_node(prev);
            },
            Expr::Paren(node) => {
                let prev = logger.enter_node(node.node_id());
                node.log(logger);
                logger.enter_node(prev);
            },
            Expr::Inplace(node) => {
                let prev = logger.enter_node(node.node_id());
                node.log(logger);
                logger.enter_node(prev);
            },
            Expr::TypeCast(node) => {
                let prev = logger.enter_node(node.node_id());
                node.log(logger);
                logger.enter_node(prev);
            },
            Expr::TypeCheck(node) => {
                let prev = logger.enter_node(node.node_id());
                node.log(logger);
                logger.enter_node(prev);
            },
            Expr::Tuple(node) => {
                let prev = logger.enter_node(node.node_id());
                node.log(logger);
                logger.enter_node(prev);
            },
            Expr::Array(node) => {
                let prev = logger.enter_node(node.node_id());
                node.log(logger);
                logger.enter_node(prev);
            },
            Expr::Struct(node) => {
                let prev = logger.enter_node(node.node_id());
                node.log(logger);
                logger.enter_node(prev);
            },
            Expr::Index(node) => {
                let prev = logger.enter_node(node.node_id());
                node.log(logger);
                logger.enter_node(prev);
            },
            Expr::TupleIndex(node) => {
                let prev = logger.enter_node(node.node_id());
                node.log(logger);
                logger.enter_node(prev);
            },
            Expr::FnCall(node) => {
                let prev = logger.enter_node(node.node_id());
                node.log(logger);
                logger.enter_node(prev);
            },
            Expr::Method(node) => {
                let prev = logger.enter_node(node.node_id());
                node.log(logger);
                logger.enter_node(prev);
            },
            Expr::FieldAccess(node) => {
                let prev = logger.enter_node(node.node_id());
                node.log(logger);
                logger.enter_node(prev);
            },
            Expr::Closure(node) => {
                let prev = logger.enter_node(node.node_id());
                node.log(logger);
                logger.enter_node(prev);
            },
            Expr::If(node) => {
                let prev = logger.enter_node(node.node_id());
                node.log(logger);
                logger.enter_node(prev);
            },
            Expr::Let(node) => {
                let prev = logger.enter_node(node.node_id());
                node.log(logger);
                logger.enter_node(prev);
            },
            Expr::Loop(node) => {
                let prev = logger.enter_node(node.node_id());
                node.log(logger);
                logger.enter_node(prev);
            },
            Expr::While(node) => {
                let prev = logger.enter_node(node.node_id());
                node.log(logger);
                logger.enter_node(prev);
            },
            Expr::DoWhile(node) => {
                let prev = logger.enter_node(node.node_id());
                node.log(logger);
                logger.enter_node(prev);
            },
            Expr::For(node) => {
                let prev = logger.enter_node(node.node_id());
                node.log(logger);
                logger.enter_node(prev);
            },
            Expr::Match(node) => {
                let prev = logger.enter_node(node.node_id());
                node.log(logger);
                logger.enter_node(prev);
            },
            Expr::Break(node) => {
                let prev = logger.enter_node(node.node_id());
                node.log(logger);
                logger.enter_node(prev);
            },
            Expr::Continue(node) => {
                let prev = logger.enter_node(node.node_id());
                node.log(logger);
                logger.enter_node(prev);
            },
            Expr::Fallthrough(node) => {
                let prev = logger.enter_node(node.node_id());
                node.log(logger);
                logger.enter_node(prev);
            },
            Expr::Return(node) => {
                let prev = logger.enter_node(node.node_id());
                node.log(logger);
                logger.enter_node(prev);
            },
            Expr::Underscore(node) => {
                let prev = logger.enter_node(node.node_id());
                node.log(logger);
                logger.enter_node(prev);
            },
            Expr::Throw(node) => {
                let prev = logger.enter_node(node.node_id());
                node.log(logger);
                logger.enter_node(prev);
            },
            Expr::Comma(node) => {
                let prev = logger.enter_node(node.node_id());
                node.log(logger);
                logger.enter_node(prev);
            },
            Expr::When(node) => {
                let prev = logger.enter_node(node.node_id());
                node.log(logger);
                logger.enter_node(prev);
            },
        }
    }

    open spec fn spec_log(&self, env: LogEnv, st: LogState) -> LogState
        decreases self, 0int,
    {
        let s1 = match *self {
            Expr::Literal(node) => {
                let prev = st.node;
                let s2 = st_enter(st, node.spec_node_id());
                let s3 = node.spec_log(env, s2);
                let s4 = st_enter(s3, prev);
                s4
            },
            Expr::Path(node) => {
                let prev = st.node;
                let s5 = st_enter(st, node.spec_node_id());
                let s6 = node.spec_log(env, s5);
                let s7 = st_enter(s6, prev);
                s7
            },
            Expr::Unit(node) => {
                let prev = st.node;
                let s8 = st_enter(st, node.spec_node_id());
                let s9 = node.spec_log(env, s8);
                let s10 = st_enter(s9, prev);
                s10
            },
            Expr::Block(node) => {
                let prev = st.node;
                let s11 = st_enter(st, node.spec_node_id());
                let s12 = node.spec_log(env, s11);
                let s13 = st_enter(s12, prev);
                s13
            },
            Expr::Prefix(node) => {
                let prev = st.node;
                let s14 = st_enter(st, node.spec_node_id());
                let s15 = node.spec_log(env, s14);
                let s16 = st_enter(s15, prev);
                s16
            },
            Expr::Postfix(node) => {
                let prev = st.node;
                let s17 = st_enter(st, node.spec_node_id());
                let s18 = node.spec_log(env, s17);
                let s19 = st_enter(s18, prev);
                s19
            },
            Expr::Infix(node) => {
                let prev = st.node;
                let s20 = st_enter(st, node.spec_node_id());
                let s21 = node.spec_log(env, s20);
                let s22 = st_enter(s21, prev);
                s22
            },
            Expr::Paren(node) => {
                let prev = st.node;
                let s23 = st_enter(st, node.spec_node_id());
                let s24 = node.spec_log(env, s23);
                let s25 = st_enter(s24, prev);
                s25
            },
            Expr::Inplace(node) => {
                let prev = st.node;
                let s26 = st_enter(st, node.spec_node_id());
                let s27 = node.spec_log(env, s26);
                let s28 = st_enter(s27, prev);
                s28
            },
            Expr::TypeCast(node) => {
                let prev = st.node;
                let s29 = st_enter(st, node.spec_node_id());
                let s30 = node.spec_log(env, s29);
                let s31 = st_enter(s30, prev);
                s31
            },
            Expr::TypeCheck(node) => {
                let prev = st.node;
                let s32 = st_enter(st, node.spec_node_id());
                let s33 = node.spec_log(env, s32);
                let s34 = st_enter(s33, prev);
                s34
            },
            Expr::Tuple(node) => {
                let prev = st.node;
                let s35 = st_enter(st, node.spec_node_id());
                let s36 = node.spec_log(env, s35);
                let s37 = st_enter(s36, prev);
                s37
            },
            Expr::Array(node) => {
                let prev = st.node;
                let s38 = st_enter(st, node.spec_node_id());
                let s39 = node.spec_log(env, s38);
                let s40 = st_enter(s39, prev);
                s40
            },
            Expr::Struct(node) => {
                let prev = st.node;
                let s41 = st_enter(st, node.spec_node_id());
                let s42 = node.spec_log(env, s41);
                let s43 = st_enter(s42, prev);
                s43
            },
            Expr::Index(node) => {
                let prev = st.node;
                let s44 = st_enter(st, node.spec_node_id());
                let s45 = node.spec_log(env, s44);
                let s46 = st_enter(s45, prev);
                s46
            },
            Expr::TupleIndex(node) => {
                let prev = st.node;
                let s47 = st_enter(st, node.spec_node_id());
                let s48 = node.spec_log(env, s47);
                let s49 = st_enter(s48, prev);
                s49
            },
            Expr::FnCall(node) => {
                let prev = st.node;
                let s50 = st_enter(st, node.spec_node_id());
                let s51 = node.spec_log(env, s50);
                let s52 = st_enter(s51, prev);
                s52
            },
            Expr::Method(node) => {
                let prev = st.node;
                let s53 = st_enter(st, node.spec_node_id());
                let s54 = node.spec_log(env, s53);
                let s55 = st_enter(s54, prev);
                s55
            },
            Expr::FieldAccess(node) => {
                let prev = st.node;
                let s56 = st_enter(st, node.spec_node_id());
                let s57 = node.spec_log(env, s56);
                let s58 = st_enter(s57, prev);
                s58
            },
            Expr::Closure(node) => {
                let prev = st.node;
                let s59 = st_enter(st, node.spec_node_id());
                let s60 = node.spec_log(env, s59);
                let s61 = st_enter(s60, prev);
                s61
            },
            Expr::If(node) => {
                let prev = st.node;
                let s62 = st_enter(st, node.spec_node_id());
                let s63 = node.spec_log(env, s62);
                let s64 = st_enter(s63, prev);
                s64
            },
            Expr::Let(node) => {
                let prev = st.node;
                let s65 = st_enter(st, node.spec_node_id());
                let s66 = node.spec_log(env, s65);
                let s67 = st_enter(s66, prev);
                s67
            },
            Expr::Loop(node) => {
                let prev = st.node;
                let s68 = st_enter(st, node.spec_node_id());
                let s69 = node.spec_log(env, s68);
                let s70 = st_enter(s69, prev);
                s70
            },
            Expr::While(node) => {
                let prev = st.node;
                let s71 = st_enter(st, node.spec_node_id());
                let s72 = node.spec_log(env, s71);
                let s73 = st_enter(s72, prev);
                s73
            },
            Expr::DoWhile(node) => {
                let prev = st.node;
                let s74 = st_enter(st, node.spec_node_id());
                let s75 = node.spec_log(env, s74);
                let s76 = st_enter(s75, prev);
                s76
            },
            Expr::For(node) => {
                let prev = st.node;
                let s77 = st_enter(st, node.spec_node_id());
                let s78 = node.spec_log(env, s77);
                let s79 = st_enter(s78, prev);
                s79
            },
            Expr::Match(node) => {
                let prev = st.node;
                let s80 = st_enter(st, node.spec_node_id());
                let s81 = node.spec_log(env, s80);
                let s82 = st_enter(s81, prev);
                s82
            },
            Expr::Break(node) => {
                let prev = st.node;
                let s83 = st_enter(st, node.spec_node_id());
                let s84 = node.spec_log(env, s83);
                let s85 = st_enter(s84, prev);
                s85
            },
            Expr::Continue(node) => {
                let prev = st.node;
                let s86 = st_enter(st, node.spec_node_id());
                let s87 = node.spec_log(env, s86);
                let s88 = st_enter(s87, prev);
                s88
            },
            Expr::Fallthrough(node) => {
                let prev = st.node;
                let s89 = st_enter(st, node.spec_node_id());
                let s90 = node.spec_log(env, s89);
                let s91 = st_enter(s90, prev);
                s91
            },
            Expr::Return(node) => {
                let prev = st.node;
                let s92 = st_enter(st, node.spec_node_id());
                let s93 = node.spec_log(env, s92);
                let s94 = st_enter(s93, prev);
                s94
            },
            Expr::Underscore(node) => {
                let prev = st.node;
                let s95 = st_enter(st, node.spec_node_id());
                let s96 = node.spec_log(env, s95);
                let s97 = st_enter(s96, prev);
                s97
            },
            Expr::Throw(node) => {
                let prev = st.node;
                let s98 = st_enter(st, node.spec_node_id());
                let s99 = node.spec_log(env, s98);
                let s100 = st_enter(s99, prev);
                s100
            },
            Expr::Comma(node) => {
                let prev = st.node;
                let s101 = st_enter(st, node.spec_node_id());
                let s102 = node.spec_log(env, s101);
                let s103 = st_enter(s102, prev);
                s103
            },
            Expr::When(node) => {
                let prev = st.node;
                let s104 = st_enter(st, node.spec_node_id());
                let s105 = node.spec_log(env, s104);
                let s106 = st_enter(s105, prev);
                s106
            },
        };
        s1
    }
}

impl AstNodeLog for Pattern {
    /// Logs the node of the variant as the current node, then makes the
    /// previous node current again.
    fn log(&self, logger: &mut AstLogger)
        ensures
            final(logger).current_node() == old(logger).current_node(),
            match self {
                Pattern::Wildcard(_) => final(logger).text() == old(logger).text() + old(logger).prefix() + "Wildcard Pattern"@ + "\n"@
                    && final(logger).levels() == old(logger).levels(),
                Pattern::Rest(_) => final(logger).text() == old(logger).text() + old(logger).prefix() + "Rest Pattern"@ + "\n"@
                    && final(logger).levels() == old(logger).levels(),
                _ => true,
            },
        decreases self,
    {
        match self {
            Pattern::Literal(node) => {
                let prev = logger.enter_node(node.node_id());
                node.log(logger);
                logger.enter_node(prev);
            },
            Pattern::Identifier(node) => {
                let prev = logger.enter_node(node.node_id());
                node.log(logger);
                logger.enter_node(prev);
            },
            Pattern::Path(node) => {
                let prev = logger.enter_node(node.node_id());
                node.log(logger);
                logger.enter_node(prev);
            },
            Pattern::Wildcard(node) => {
                let prev = logger.enter_node(node.node_id());
                node.log(logger);
                logger.enter_node(prev);
            },
            Pattern::Rest(node) => {
                let prev = logger.enter_node(node.node_id());
                node.log(logger);
                logger.enter_node(prev);
            },
            Pattern::Range(node) => {
                let prev = logger.enter_node(node.node_id());
                node.log(logger);
                logger.enter_node(prev);
            },
            Pattern::Reference(node) => {
                let prev = logger.enter_node(node.node_id());
                node.log(logger);
                logger.enter_node(prev);
            },
            Pattern::Struct(node) => {
                let prev = logger.enter_node(node.node_id());
                node.log(logger);
                logger.enter_node(prev);
            },
            Pattern::Tuple(node) => {
                let prev = logger.enter_node(node.node_id());
                node.log(logger);
                logger.enter_node(prev);
            },
            Pattern::Grouped(node) => {
                let prev = logger.enter_node(node.node_id());
                node.log(logger);
                logger.enter_node(prev);
            },
            Pattern::Slice(node) => {
                let prev = logger.enter_node(node.node_id());
                node.log(logger);
                logger.enter_node(prev);
            },
            Pattern::EnumMember(node) => {
                let prev = logger.enter_node(node.node_id());
                node.log(logger);
                logger.enter_node(prev);
            },
            Pattern::Alternative(node) => {
                let prev = logger.enter_node(node.node_id());
                node.log(logger);
                logger.enter_node(prev);
            },
            Pattern::TypeCheck(node) => {
                let prev = logger.enter_node(node.node_id());
                node.log(logger);
                logger.enter_node(prev);
            },
        }
    }

    open spec fn spec_log(&self, env: LogEnv, st: LogState) -> LogState
        decreases self, 0int,
    {
        let s1 = match *self {
            Pattern::Literal(node) => {
                let prev = st.node;
                let s2 = st_enter(st, node.spec_node_id());
                let s3 = node.spec_log(env, s2);
                let s4 = st_enter(s3, prev);
                s4
            },
            Pattern::Identifier(node) => {
                let prev = st.node;
                let s5 = st_enter(st, node.spec_node_id());
                let s6 = node.spec_log(env, s5);
                let s7 = st_enter(s6, prev);
                s7
            },
            Pattern::Path(node) => {
                let prev = st.node;
                let s8 = st_enter(st, node.spec_node_id());
                let s9 = node.spec_log(env, s8);
                let s10 = st_enter(s9, prev);
                s10
            },
            Pattern::Wildcard(node) => {
                let prev = st.node;
                let s11 = st_enter(st, node.spec_node_id());
                let s12 = node.spec_log(env, s11);
                let s13 = st_enter(s12, prev);
                s13
            },
            Pattern::Rest(node) => {
                let prev = st.node;
                let s14 = st_enter(st, node.spec_node_id());
                let s15 = node.spec_log(env, s14);
                let s16 = st_enter(s15, prev);
                s16
            },
            Pattern::Range(node) => {
                let prev = st.node;
                let s17 = st_enter(st, node.spec_node_id());
                let s18 = node.spec_log(env, s17);
                let s19 = st_enter(s18, prev);
                s19
            },
            Pattern::Reference(node) => {
                let prev = st.node;
                let s20 = st_enter(st, node.spec_node_id());
                let s21 = node.spec_log(env, s20);
                let s22 = st_enter(s21, prev);
                s22
            },
            Pattern::Struct(node) => {
                let prev = st.node;
                let s23 = st_enter(st, node.spec_node_id());
                let s24 = node.spec_log(env, s23);
                let s25 = st_enter(s24, prev);
                s25
            },
            Pattern::Tuple(node) => {
                let prev = st.node;
                let s26 = st_enter(st, node.spec_node_id());
                let s27 = node.spec_log(env, s26);
                let s28 = st_enter(s27, prev);
                s28
            },
            Pattern::Grouped(node) => {
                let prev = st.node;
                let s29 = st_enter(st, node.spec_node_id());
                let s30 = node.spec_log(env, s29);
                let s31 = st_enter(s30, prev);
                s31
            },
            Pattern::Slice(node) => {
                let prev = st.node;
                let s32 = st_enter(st, node.spec_node_id());
                let s33 = node.spec_log(env, s32);
                let s34 = st_enter(s33, prev);
                s34
            },
            Pattern::EnumMember(node) => {
                let prev = st.node;
                let s35 = st_enter(st, node.spec_node_id());
                let s36 = node.spec_log(env, s35);
                let s37 = st_enter(s36, prev);
                s37
            },
            Pattern::Alternative(node) => {
                let prev = st.node;
                let s38 = st_enter(st, node.spec_node_id());
                let s39 = node.spec_log(env, s38);
                let s40 = st_enter(s39, prev);
                s40
            },
            Pattern::TypeCheck(node) => {
                let prev = st.node;
                let s41 = st_enter(st, node.spec_node_id());
                let s42 = node.spec_log(env, s41);
                let s43 = st_enter(s42, prev);
                s43
            },
        };
        s1
    }
}

impl AstNodeLog for Type {
    /// Logs the node of the variant as the current node, then makes the
    /// previous node current again.
    fn log(&self, logger: &mut AstLogger)
        ensures
            final(logger).current_node() == old(logger).current_node(),
            match self {
                Type::Unit(_) => final(logger).text() == old(logger).text() + old(logger).prefix() + "Unit Type"@ + "\n"@
                    && final(logger).levels() == old(logger).levels(),
                Type::Never(_) => final(logger).text() == old(logger).text() + old(logger).prefix() + "Never Type"@ + "\n"@
                    && final(logger).levels() == old(logger).levels(),
                _ => true,
            },
        decreases self,
    {
        match self {
            Type::Paren(node) => {
                let prev = logger.enter_node(node.node_id());
                node.log(logger);
                logger.enter_node(prev);
            },
            Type::Primitive(node) => {
                let prev = logger.enter_node(node.node_id());
                node.log(logger);
                logger.enter_node(prev);
            },
            Type::Unit(node) => {
                let prev = logger.enter_node(node.node_id());
                node.log(logger);
                logger.enter_node(prev);
            },
            Type::Never(node) => {
                let prev = logger.enter_node(node.node_id());
                node.log(logger);
                logger.enter_node(prev);
            },
            Type::Path(node) => {
                let prev = logger.enter_node(node.node_id());
                node.log(logger);
                logger.enter_node(prev);
            },
            Type::Tuple(node) => {
                let prev = logger.enter_node(node.node_id());
                node.log(logger);
                logger.enter_node(prev);
            },
            Type::Array(node) => {
                let prev = logger.enter_node(node.node_id());
                node.log(logger);
                logger.enter_node(prev);
            },
            Type::Slice(node) => {
                let prev = logger.enter_node(node.node_id());
                node.log(logger);
                logger.enter_node(prev);
            },
            Type::StringSlice(node) => {
                let prev = logger.enter_node(node.node_id());
                node.log(logger);
                logger.enter_node(prev);
            },
            Type::Pointer(node) => {
                let prev = logger.enter_node(node.node_id());
                node.log(logger);
                logger.enter_node(prev);
            },
            Type::Ref(node) => {
                let prev = logger.enter_node(node.node_id());
                node.log(logger);
                logger.enter_node(prev);
            },
            Type::Optional(node) => {
                let prev = logger.enter_node(node.node_id());
                node.log(logger);
                logger.enter_node(prev);
            },
            Type::Fn(node) => {
                let prev = logger.enter_node(node.node_id());
                node.log(logger);
                logger.enter_node(prev);
            },
            Type::Record(node) => {
                let prev = logger.enter_node(node.node_id());
                node.log(logger);
                logger.enter_node(prev);
            },
            Type::EnumRecord(node) => {
                let prev = logger.enter_node(node.node_id());
                node.log(logger);
                logger.enter_node(prev);
            },
        }
    }

    open spec fn spec_log(&self, env: LogEnv, st: LogState) -> LogState
        decreases self, 0int,
    {
        let s1 = match *self {
            Type::Paren(node) => {
                let prev = st.node;
                let s2 = st_enter(st, node.spec_node_id());
                let s3 = node.spec_log(env, s2);
                let s4 = st_enter(s3, prev);
                s4
            },
            Type::Primitive(node) => {
                let prev = st.node;
                let s5 = st_enter(st, node.spec_node_id());
                let s6 = node.spec_log(env, s5);
                let s7 = st_enter(s6, prev);
                s7
            },
            Type::Unit(node) => {
                let prev = st.node;
                let s8 = st_enter(st, node.spec_node_id());
                let s9 = node.spec_log(env, s8);
                let s10 = st_enter(s9, prev);
                s10
            },
            Type::Never(node) => {
                let prev = st.node;
                let s11 = st_enter(st, node.spec_node_id());
                let s12 = node.spec_log(env, s11);
                let s13 = st_enter(s12, prev);
                s13
            },
            Type::Path(node) => {
                let prev = st.node;
                let s14 = st_enter(st, node.spec_node_id());
                let s15 = node.spec_log(env, s14);
                let s16 = st_enter(s15, prev);
                s16
            },
            Type::Tuple(node) => {
                let prev = st.node;
                let s17 = st_enter(st, node.spec_node_id());
                let s18 = node.spec_log(env, s17);
                let s19 = st_enter(s18, prev);
                s19
            },
            Type::Array(node) => {
                let prev = st.node;
                let s20 = st_enter(st, node.spec_node_id());
                let s21 = node.spec_log(env, s20);
                let s22 = st_enter(s21, prev);
                s22
            },
            Type::Slice(node) => {
                let prev = st.node;
                let s23 = st_enter(st, node.spec_node_id());
                let s24 = node.spec_log(env, s23);
                let s25 = st_enter(s24, prev);
                s25
            },
            Type::StringSlice(node) => {
                let prev = st.node;
                let s26 = st_enter(st, node.spec_node_id());
                let s27 = node.spec_log(env, s26);
                let s28 = st_enter(s27, prev);
                s28
            },
            Type::Pointer(node) => {
                let prev = st.node;
                let s29 = st_enter(st, node.spec_node_id());
                let s30 = node.spec_log(env, s29);
                let s31 = st_enter(s30, prev);
                s31
            },
            Type::Ref(node) => {
                let prev = st.node;
                let s32 = st_enter(st, node.spec_node_id());
                let s33 = node.spec_log(env, s32);
                let s34 = st_enter(s33, prev);
                s34
            },
            Type::Optional(node) => {
                let prev = st.node;
                let s35 = st_enter(st, node.spec_node_id());
                let s36 = node.spec_log(env, s35);
                let s37 = st_enter(s36, prev);
                s37
            },
            Type::Fn(node) => {
                let prev = st.node;
                let s38 = st_enter(st, node.spec_node_id());
                let s39 = node.spec_log(env, s38);
                let s40 = st_enter(s39, prev);
                s40
            },
            Type::Record(node) => {
                let prev = st.node;
                let s41 = st_enter(st, node.spec_node_id());
                let s42 = node.spec_log(env, s41);
                let s43 = st_enter(s42, prev);
                s43
            },
            Type::EnumRecord(node) => {
                let prev = st.node;
                let s44 = st_enter(st, node.spec_node_id());
                let s45 = node.spec_log(env, s44);
                let s46 = st_enter(s45, prev);
                s46
            },
        };
        s1
    }
}


} // verus!
