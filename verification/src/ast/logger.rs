//! Writing an AST as an indented tree of text.

use vstd::prelude::*;
use crate::common::{IndentLogger, line_prefix, LiteralId, NameId, NameTable, LiteralTable, SpanId, decimal, push_decimal};
use crate::lexer::{Punctuation, PuncutationTable};
use super::{Ast, AstNode, AstNodeMeta, AstNodeRef, NodeId};

verus! {

/// Something that can write itself to an [`AstLogger`].
pub trait AstNodeLog {
    /// The state of a logger, whose environment is `env` and whose state is
    /// `st`, after it has written the node.
    spec fn spec_log(&self, env: LogEnv, st: LogState) -> LogState;

    /// Writes the node: the logger's state becomes what [`AstNodeLog::spec_log`]
    /// says; text is only appended, and the nesting is left as it was.
    fn log(&self, logger: &mut AstLogger)
        ensures
            final(logger).state() == self.spec_log(old(logger).env(), old(logger).state()),
            old(logger).appends(final(logger)),
            final(logger).levels().len() == old(logger).levels().len(),
    ;
}

/// Writes AST nodes as a tree, with their ids and token ranges, resolving
/// names, literals and punctuation through the tables it was given.
pub struct AstLogger<'a> {
    ast:          &'a Ast,
    names:        &'a NameTable,
    literals:     &'a LiteralTable,
    puncts:       &'a PuncutationTable,
    logger:       IndentLogger,
    node_id:      NodeId,
}

pub broadcast proof fn lemma_appends_trans<'a>(a: &AstLogger<'a>, b: &AstLogger<'a>, c: &AstLogger<'a>)
    requires
        a.appends(b),
        b.appends(c),
    ensures
        #![trigger a.appends(b), b.appends(c)]
        a.appends(c),
{
    reveal(AstLogger::appends);
}

pub broadcast proof fn lemma_appends_refl<'a>(a: &AstLogger<'a>)
    ensures
        #[trigger] a.appends(a),
{
    reveal(AstLogger::appends);
}

/// What `appends` says of the text: the earlier text is a prefix of the later.
pub broadcast proof fn lemma_appends_text<'a>(a: &AstLogger<'a>, b: &AstLogger<'a>)
    requires
        #[trigger] a.appends(b),
    ensures
        crate::parser::is_prefix(a.text(), b.text()),
{
    reveal(AstLogger::appends);
}

/// Appending keeps the padding and the tables the logger resolves with.
pub broadcast proof fn lemma_appends_tables<'a>(a: &AstLogger<'a>, b: &AstLogger<'a>)
    requires
        #[trigger] a.appends(b),
    ensures
        b.pads() == a.pads(),
        b.ast() == a.ast(),
        b.names() == a.names(),
        b.literals() == a.literals(),
        b.puncts() == a.puncts(),
        b.env() == a.env(),
{
    reveal(AstLogger::appends);
}

pub broadcast group group_logger_appends {
    lemma_appends_trans,
    lemma_appends_refl,
    lemma_appends_tables,
    lemma_appends_text,
}

/// What the text a logger writes depends on, besides its state: the padding
/// and marker of lines, the tables it resolves with, and the metadata of the
/// AST's nodes.
pub struct LogEnv {
    pub pads:     (Seq<char>, Seq<char>, Seq<char>),
    pub names:    Seq<String>,
    pub literals: Seq<String>,
    pub puncts:   PuncutationTable,
    pub meta:     Seq<AstNodeMeta>,
}

/// The state of a logger: the text so far, the open nesting levels (whether
/// each one's last child has begun), and the current node.
pub struct LogState {
    pub text:   Seq<char>,
    pub levels: Seq<bool>,
    pub node:   NodeId,
}

/// The prefix of a line at nesting `levels`.
pub closed spec fn st_prefix(env: LogEnv, levels: Seq<bool>) -> Seq<char> {
    line_prefix(levels, env.pads.0, env.pads.1, env.pads.2)
}

/// `s` appended.
pub closed spec fn st_log(st: LogState, s: Seq<char>) -> LogState {
    LogState { text: st.text + s, ..st }
}

/// The prefix of the current nesting and `s` appended.
pub closed spec fn st_prefixed(env: LogEnv, st: LogState, s: Seq<char>) -> LogState {
    LogState { text: st.text + st_prefix(env, st.levels) + s, ..st }
}

/// A nesting level opened.
pub closed spec fn st_push(st: LogState) -> LogState {
    LogState { levels: st.levels.push(false), ..st }
}

/// The innermost nesting level closed, where one is open.
pub closed spec fn st_pop(st: LogState) -> LogState {
    LogState { levels: if st.levels.len() > 0 { st.levels.drop_last() } else { st.levels }, ..st }
}

/// The innermost level marked as having begun its last child, where one is open.
pub closed spec fn st_set_last(st: LogState) -> LogState {
    LogState {
        levels: if st.levels.len() > 0 { st.levels.update(st.levels.len() - 1, true) } else { st.levels },
        ..st
    }
}

/// [`st_set_last`] where `cond` holds.
pub open spec fn st_set_last_if(st: LogState, cond: bool) -> LogState {
    if cond { st_set_last(st) } else { st }
}

/// `id` made the current node.
pub closed spec fn st_enter(st: LogState, id: NodeId) -> LogState {
    LogState { node: id, ..st }
}

/// The token range of the current node, or `(0, 0)` where the AST has no such node.
pub closed spec fn st_tokens(env: LogEnv, node: NodeId) -> (u32, u32) {
    if node.spec_index() < env.meta.len() {
        (env.meta[node.spec_index() as int].first_tok, env.meta[node.spec_index() as int].last_tok)
    } else {
        (0u32, 0u32)
    }
}

/// The header line of a node called `name` written at `st`.
pub closed spec fn st_header(env: LogEnv, st: LogState, name: Seq<char>) -> Seq<char> {
    st_prefix(env, st.levels) + "[ "@ + name + " ] (node id: "@ + decimal(st.node.spec_index() as nat)
        + ", tokens: ["@ + decimal(st_tokens(env, st.node).0 as nat) + ".."@
        + decimal(st_tokens(env, st.node).1 as nat) + "])\n"@
}

/// A node started: its header line, then a nesting level for its children.
pub closed spec fn st_begin_node(env: LogEnv, st: LogState, name: Seq<char>) -> LogState {
    LogState { text: st.text + st_header(env, st, name), levels: st.levels.push(false), node: st.node }
}

/// A group started: the prefixed line `name`, then a nesting level.
pub closed spec fn st_begin_indented(env: LogEnv, st: LogState, name: Seq<char>) -> LogState {
    st_push(st_log(st_prefixed(env, st, name), "\n"@))
}

/// A group started whose content is its last child.
pub closed spec fn st_begin_last(env: LogEnv, st: LogState, name: Seq<char>) -> LogState {
    st_set_last(st_begin_indented(env, st, name))
}

/// The prefixed line `label` followed by `value`.
pub closed spec fn st_line(env: LogEnv, st: LogState, label: Seq<char>, value: Seq<char>) -> LogState {
    st_log(st_log(st_prefixed(env, st, label), value), "\n"@)
}

/// The text of a boolean.
pub open spec fn bool_text(value: bool) -> Seq<char> {
    if value { "true"@ } else { "false"@ }
}

/// The text of the literal `id` in `table`, or `?` where the table has no such literal.
pub open spec fn table_literal_text(table: Seq<String>, id: LiteralId) -> Seq<char> {
    if (id.0 as int) < table.len() { table[id.0 as int]@ } else { "?"@ }
}

/// For each name, the prefixed line `label` and the name, the last one marked,
/// as far as the first `k` names.
pub closed spec fn st_name_lines(env: LogEnv, st: LogState, label: Seq<char>, names: Seq<NameId>, k: int) -> LogState
    decreases k,
{
    if k <= 0 {
        st
    } else {
        let before = st_name_lines(env, st, label, names, k - 1);
        let marked = st_set_last_if(before, k == names.len());
        st_line(env, marked, label, table_name_text(env.names, names[k - 1]))
    }
}

/// Where `names` is not empty: the line `group`, then a line `label` and the
/// name for each name, one level deeper, the last one marked.
pub closed spec fn st_name_group(env: LogEnv, st: LogState, group: Seq<char>, label: Seq<char>, names: Seq<NameId>) -> LogState {
    if names.len() == 0 {
        st
    } else {
        st_pop(st_name_lines(env, st_begin_indented(env, st, group), label, names, names.len() as int))
    }
}

/// The text of the name `id` in `table`, or `?` where the table has no such name.
pub open spec fn table_name_text(table: Seq<String>, id: NameId) -> Seq<char> {
    if (id.0 as int) < table.len() { table[id.0 as int]@ } else { "?"@ }
}

/// The texts of the names `ids` in `table`, joined by `.`.
pub open spec fn dotted_names_text(table: Seq<String>, ids: Seq<NameId>) -> Seq<char>
    decreases ids.len(),
{
    if ids.len() == 0 {
        Seq::empty()
    } else if ids.len() == 1 {
        table_name_text(table, ids[0])
    } else {
        dotted_names_text(table, ids.drop_last()) + "."@ + table_name_text(table, ids.last())
    }
}

/// The state after `node` written as the current node, the previous node
/// made current again.
pub open spec fn st_node_ref<T: AstNode + AstNodeLog>(env: LogEnv, st: LogState, node: T) -> LogState {
    st_enter(node.spec_log(env, st_enter(st, node.spec_node_id())), st.node)
}

/// The state after the first `k` of `nodes`, the last one marked.
pub open spec fn st_nodes_steps<T: AstNodeLog>(env: LogEnv, st: LogState, nodes: Seq<T>, k: int) -> LogState
    decreases k,
{
    if k <= 0 || k > nodes.len() {
        st
    } else {
        nodes[k - 1].spec_log(env, st_set_last_if(st_nodes_steps(env, st, nodes, k - 1), k == nodes.len()))
    }
}

/// The state after the first `k` of `nodes`, each as the current node, the last one marked.
pub open spec fn st_node_refs_steps<T: AstNode + AstNodeLog>(env: LogEnv, st: LogState, nodes: Seq<T>, k: int) -> LogState
    decreases k,
{
    if k <= 0 || k > nodes.len() {
        st
    } else {
        st_node_ref(env, st_set_last_if(st_node_refs_steps(env, st, nodes, k - 1), k == nodes.len()), nodes[k - 1])
    }
}

/// The state after the line `name` and `node` one level deeper, as the last
/// child.
pub open spec fn st_indented_node<T: AstNodeLog>(env: LogEnv, st: LogState, name: Seq<char>, node: T) -> LogState {
    st_pop(node.spec_log(env, st_begin_last(env, st, name)))
}

/// What each step of a logger's state is: callers that need the text a
/// state holds use this group.
pub broadcast proof fn lemma_st_prefix(env: LogEnv, levels: Seq<bool>)
    ensures
        #[trigger] st_prefix(env, levels) == (line_prefix(levels, env.pads.0, env.pads.1, env.pads.2)),
{
}

pub broadcast proof fn lemma_st_log(st: LogState, s: Seq<char>)
    ensures
        #[trigger] st_log(st, s) == (LogState { text: st.text + s, ..st }),
{
}

pub broadcast proof fn lemma_st_prefixed(env: LogEnv, st: LogState, s: Seq<char>)
    ensures
        #[trigger] st_prefixed(env, st, s) == (LogState { text: st.text + st_prefix(env, st.levels) + s, ..st }),
{
}

pub broadcast proof fn lemma_st_push(st: LogState)
    ensures
        #[trigger] st_push(st) == (LogState { levels: st.levels.push(false), ..st }),
{
}

pub broadcast proof fn lemma_st_pop(st: LogState)
    ensures
        #[trigger] st_pop(st) == (LogState { levels: if st.levels.len() > 0 { st.levels.drop_last() } else { st.levels }, ..st }),
{
}

pub broadcast proof fn lemma_st_set_last(st: LogState)
    ensures
        #[trigger] st_set_last(st) == (LogState {
            levels: if st.levels.len() > 0 { st.levels.update(st.levels.len() - 1, true) } else { st.levels },
            ..st
        }),
{
}

pub broadcast proof fn lemma_st_enter(st: LogState, id: NodeId)
    ensures
        #[trigger] st_enter(st, id) == (LogState { node: id, ..st }),
{
}

pub broadcast proof fn lemma_st_tokens(env: LogEnv, node: NodeId)
    ensures
        #[trigger] st_tokens(env, node) == (if node.spec_index() < env.meta.len() {
            (env.meta[node.spec_index() as int].first_tok, env.meta[node.spec_index() as int].last_tok)
        } else {
            (0u32, 0u32)
        }),
{
}

pub broadcast proof fn lemma_st_header(env: LogEnv, st: LogState, name: Seq<char>)
    ensures
        #[trigger] st_header(env, st, name) == (st_prefix(env, st.levels) + "[ "@ + name + " ] (node id: "@ + decimal(st.node.spec_index() as nat)
            + ", tokens: ["@ + decimal(st_tokens(env, st.node).0 as nat) + ".."@
            + decimal(st_tokens(env, st.node).1 as nat) + "])\n"@),
{
}

pub broadcast proof fn lemma_st_begin_node(env: LogEnv, st: LogState, name: Seq<char>)
    ensures
        #[trigger] st_begin_node(env, st, name) == (LogState { text: st.text + st_header(env, st, name), levels: st.levels.push(false), node: st.node }),
{
}

pub broadcast proof fn lemma_st_begin_indented(env: LogEnv, st: LogState, name: Seq<char>)
    ensures
        #[trigger] st_begin_indented(env, st, name) == (st_push(st_log(st_prefixed(env, st, name), "\n"@))),
{
}

pub broadcast proof fn lemma_st_begin_last(env: LogEnv, st: LogState, name: Seq<char>)
    ensures
        #[trigger] st_begin_last(env, st, name) == (st_set_last(st_begin_indented(env, st, name))),
{
}

pub broadcast proof fn lemma_st_line(env: LogEnv, st: LogState, label: Seq<char>, value: Seq<char>)
    ensures
        #[trigger] st_line(env, st, label, value) == (st_log(st_log(st_prefixed(env, st, label), value), "\n"@)),
{
}

pub proof fn lemma_st_name_lines(env: LogEnv, st: LogState, label: Seq<char>, names: Seq<NameId>, k: int)
    ensures
        st_name_lines(env, st, label, names, k) == (if k <= 0 {
            st
        } else {
            let before = st_name_lines(env, st, label, names, k - 1);
            let marked = st_set_last_if(before, k == names.len());
            st_line(env, marked, label, table_name_text(env.names, names[k - 1]))
        }),
{
}

pub broadcast proof fn lemma_st_name_group(env: LogEnv, st: LogState, group: Seq<char>, label: Seq<char>, names: Seq<NameId>)
    ensures
        #[trigger] st_name_group(env, st, group, label, names) == (if names.len() == 0 {
            st
        } else {
            st_pop(st_name_lines(env, st_begin_indented(env, st, group), label, names, names.len() as int))
        }),
{
}

pub broadcast group group_log_steps {
    lemma_st_prefix,
    lemma_st_log,
    lemma_st_prefixed,
    lemma_st_push,
    lemma_st_pop,
    lemma_st_set_last,
    lemma_st_enter,
    lemma_st_tokens,
    lemma_st_header,
    lemma_st_begin_node,
    lemma_st_begin_indented,
    lemma_st_begin_last,
    lemma_st_line,
    lemma_st_name_group,
}

impl<'a> AstLogger<'a> {
    /// What the text written depends on besides the logger's state.
    pub open spec fn env(&self) -> LogEnv {
        LogEnv {
            pads: self.pads(),
            names: self.names(),
            literals: self.literals(),
            puncts: *self.puncts(),
            meta: self.ast().meta@,
        }
    }

    /// The text so far, the open levels and the current node.
    pub open spec fn state(&self) -> LogState {
        LogState { text: self.text(), levels: self.levels(), node: self.current_node() }
    }

    /// The text written so far.
    pub closed spec fn text(&self) -> Seq<char> {
        self.logger.text()
    }

    /// For each open nesting level, whether its last child has begun.
    pub closed spec fn levels(&self) -> Seq<bool> {
        self.logger.levels()
    }

    /// The padding under a finished level, the padding under an open one,
    /// and the marker of a prefixed line.
    pub closed spec fn pads(&self) -> (Seq<char>, Seq<char>, Seq<char>) {
        self.logger.pads()
    }

    /// The prefix of the next prefixed line.
    pub open spec fn prefix(&self) -> Seq<char> {
        line_prefix(self.levels(), self.pads().0, self.pads().1, self.pads().2)
    }

    /// The node whose id and token range the next node header shows.
    pub closed spec fn current_node(&self) -> NodeId {
        self.node_id
    }

    /// The name tables the logger resolves with.
    pub closed spec fn names(&self) -> Seq<String> {
        self.names.names@
    }

    /// The literal table the logger resolves with.
    pub closed spec fn literals(&self) -> Seq<String> {
        self.literals.literals@
    }

    /// The punctuation table the logger resolves with.
    pub closed spec fn puncts(&self) -> &'a PuncutationTable {
        self.puncts
    }

    /// The AST the logger reads node metadata from.
    pub closed spec fn ast(&self) -> &'a Ast {
        self.ast
    }

    /// `next` is `self` with text appended, and the same tables.
    #[verifier::opaque]
    pub closed spec fn appends(&self, next: &Self) -> bool {
        &&& crate::parser::is_prefix(self.logger.text(), next.logger.text())
        &&& next.ast == self.ast
        &&& next.names == self.names
        &&& next.literals == self.literals
        &&& next.puncts == self.puncts
        &&& next.logger.pads() == self.logger.pads()
    }

    pub fn new(ast: &'a Ast, names: &'a NameTable, literals: &'a LiteralTable, puncts: &'a PuncutationTable) -> (r: Self)
        ensures
            r.text() == Seq::<char>::empty(),
            r.levels() == Seq::<bool>::empty(),
            r.pads() == ("    "@, "|   "@, "+---"@),
            r.current_node().spec_index() == 0,
            r.current_node() == NodeId::spec_from_index(0),
            r.names() == names.names@,
            r.literals() == literals.literals@,
            r.puncts() == puncts,
            r.ast() == ast,
    {
        AstLogger {
            ast,
            names,
            literals,
            puncts,
            logger: IndentLogger::new("    ", "|   ", "+---"),
            node_id: NodeId::default(),
        }
    }

    /// The text written so far.
    pub fn output(&self) -> (r: &String)
        ensures
            r@ == self.text(),
    {
        self.logger.output()
    }

    /// Appends `s`.
    pub fn log(&mut self, s: &str)
        ensures
            final(self).state() == st_log(old(self).state(), s@),
            final(self).text() == old(self).text() + s@,
            final(self).levels() == old(self).levels(),
            final(self).prefix() == old(self).prefix(),
            final(self).current_node() == old(self).current_node(),
            old(self).appends(final(self)),
    {
        self.logger.log(s);
        proof { reveal(AstLogger::appends); }
    }

    /// Appends the prefix of the current nesting, then `s`.
    pub fn prefixed_log(&mut self, s: &str)
        ensures
            final(self).state() == st_prefixed(old(self).env(), old(self).state(), s@),
            final(self).text() == old(self).text() + old(self).prefix() + s@,
            final(self).levels() == old(self).levels(),
            final(self).prefix() == old(self).prefix(),
            final(self).current_node() == old(self).current_node(),
            old(self).appends(final(self)),
    {
        self.logger.prefixed_log(s);
        proof { reveal(AstLogger::appends); }
    }

    /// Appends `s` and a line break.
    pub fn logln(&mut self, s: &str)
        ensures
            final(self).state() == st_log(st_log(old(self).state(), s@), "\n"@),
            final(self).text() == old(self).text() + s@ + "\n"@,
            final(self).levels() == old(self).levels(),
            final(self).prefix() == old(self).prefix(),
            final(self).current_node() == old(self).current_node(),
            old(self).appends(final(self)),
    {
        self.logger.logln(s);
        proof { reveal(AstLogger::appends); }
    }

    /// Appends the prefix of the current nesting, `s` and a line break.
    pub fn prefixed_logln(&mut self, s: &str)
        ensures
            final(self).state() == st_log(st_prefixed(old(self).env(), old(self).state(), s@), "\n"@),
            final(self).text() == old(self).text() + old(self).prefix() + s@ + "\n"@,
            final(self).levels() == old(self).levels(),
            final(self).prefix() == old(self).prefix(),
            final(self).current_node() == old(self).current_node(),
            old(self).appends(final(self)),
    {
        self.logger.prefixed_logln(s);
        proof { reveal(AstLogger::appends); }
    }

    /// Appends text that the caller formatted.
    pub fn log_fmt(&mut self, s: &str)
        ensures
            final(self).state() == st_log(old(self).state(), s@),
            final(self).text() == old(self).text() + s@,
            final(self).levels() == old(self).levels(),
            final(self).prefix() == old(self).prefix(),
            final(self).current_node() == old(self).current_node(),
            old(self).appends(final(self)),
    {
        broadcast use group_logger_appends;
        self.log(s);
    }

    /// Appends the prefix of the current nesting, then text that the caller formatted.
    pub fn prefixed_log_fmt(&mut self, s: &str)
        ensures
            final(self).state() == st_prefixed(old(self).env(), old(self).state(), s@),
            final(self).text() == old(self).text() + old(self).prefix() + s@,
            final(self).levels() == old(self).levels(),
            final(self).prefix() == old(self).prefix(),
            final(self).current_node() == old(self).current_node(),
            old(self).appends(final(self)),
    {
        broadcast use group_logger_appends;
        self.prefixed_log(s);
    }

    /// Opens a nesting level.
    pub fn push_indent(&mut self)
        ensures
            final(self).state() == st_push(old(self).state()),
            final(self).text() == old(self).text(),
            final(self).levels() == old(self).levels().push(false),
            final(self).current_node() == old(self).current_node(),
            old(self).appends(final(self)),
    {
        self.logger.push_indent();
        proof { reveal(AstLogger::appends); }
    }

    /// Closes the innermost nesting level, where one is open.
    pub fn pop_indent(&mut self)
        ensures
            final(self).state() == st_pop(old(self).state()),
            final(self).text() == old(self).text(),
            old(self).levels().len() > 0 ==> final(self).levels() == old(self).levels().drop_last(),
            old(self).levels().len() == 0 ==> final(self).levels() == old(self).levels(),
            final(self).current_node() == old(self).current_node(),
            old(self).appends(final(self)),
    {
        self.logger.pop_indent();
        proof { reveal(AstLogger::appends); }
    }

    /// Marks that the last child of the innermost level begins.
    pub fn set_last_at_indent(&mut self)
        ensures
            final(self).state() == st_set_last(old(self).state()),
            final(self).text() == old(self).text(),
            old(self).levels().len() > 0 ==> final(self).levels() == old(self).levels().update(old(self).levels().len() - 1, true),
            old(self).levels().len() == 0 ==> final(self).levels() == old(self).levels(),
            final(self).current_node() == old(self).current_node(),
            old(self).appends(final(self)),
    {
        self.logger.set_last_at_indent();
        proof { reveal(AstLogger::appends); }
    }

    /// Marks that the last child of the innermost level begins, where `cond` holds.
    pub fn set_last_at_indent_if(&mut self, cond: bool)
        ensures
            final(self).state() == st_set_last_if(old(self).state(), cond),
            final(self).text() == old(self).text(),
            cond && old(self).levels().len() > 0 ==> final(self).levels() == old(self).levels().update(old(self).levels().len() - 1, true),
            !(cond && old(self).levels().len() > 0) ==> final(self).levels() == old(self).levels(),
            final(self).current_node() == old(self).current_node(),
            old(self).appends(final(self)),
    {
        self.logger.set_last_at_indent_if(cond);
        proof { reveal(AstLogger::appends); }
    }

    /// The text of the name `id`.
    pub fn resolve_name(&self, id: NameId) -> (r: &str)
        requires
            (id.0 as int) < self.names().len(),
        ensures
            r@ == self.names()[id.0 as int]@,
    {
        self.names.get(id)
    }

    /// The text of the literal `id`.
    pub fn resolve_literal(&self, id: LiteralId) -> (r: String)
        requires
            (id.0 as int) < self.literals().len(),
        ensures
            r@ == self.literals()[id.0 as int]@,
    {
        self.literals.literals[id.0 as usize].clone()
    }

    /// The text of the punctuation `punct`.
    pub fn resolve_punctuation(&self, punct: Punctuation) -> (r: String)
        ensures
            r@ == punct.spec_as_str(self.puncts()),
    {
        punct.as_str(self.puncts)
    }

    /// Appends the name `id`, or `?` where the table has no such name.
    pub fn log_name(&mut self, id: NameId)
        ensures
            final(self).state() == st_log(old(self).state(), table_name_text(old(self).env().names, id)),
            (id.0 as int) < old(self).names().len() ==> final(self).text() == old(self).text() + old(self).names()[id.0 as int]@,
            (id.0 as int) >= old(self).names().len() ==> final(self).text() == old(self).text() + "?"@,
            final(self).levels() == old(self).levels(),
            final(self).prefix() == old(self).prefix(),
            final(self).current_node() == old(self).current_node(),
            old(self).appends(final(self)),
    {
        broadcast use group_logger_appends;
        if (id.0 as usize) < self.names.names.len() {
            let names = self.names;
            let s = names.get(id);
            self.log(s);
        } else {
            self.log("?");
        }
    }

    /// Appends the literal `id`, or `?` where the table has no such literal.
    pub fn log_literal(&mut self, id: LiteralId)
        ensures
            final(self).state() == st_log(old(self).state(), table_literal_text(old(self).env().literals, id)),
            (id.0 as int) < old(self).literals().len() ==> final(self).text() == old(self).text() + old(self).literals()[id.0 as int]@,
            (id.0 as int) >= old(self).literals().len() ==> final(self).text() == old(self).text() + "?"@,
            final(self).levels() == old(self).levels(),
            final(self).prefix() == old(self).prefix(),
            final(self).current_node() == old(self).current_node(),
            old(self).appends(final(self)),
    {
        broadcast use group_logger_appends;
        if (id.0 as usize) < self.literals.literals.len() {
            let literals = self.literals;
            let s = literals.literals[id.0 as usize].as_str();
            self.log(s);
        } else {
            self.log("?");
        }
    }

    /// Appends the text of the punctuation `punct`.
    pub fn log_punct(&mut self, punct: Punctuation)
        ensures
            final(self).state() == st_log(old(self).state(), punct.spec_as_str(&old(self).env().puncts)),
            final(self).text() == old(self).text() + punct.spec_as_str(old(self).puncts()),
            final(self).levels() == old(self).levels(),
            final(self).prefix() == old(self).prefix(),
            final(self).current_node() == old(self).current_node(),
            old(self).appends(final(self)),
    {
        broadcast use group_logger_appends;
        let s = self.resolve_punctuation(punct);
        self.log(s.as_str());
    }

    /// Appends `true` or `false`.
    pub fn log_bool(&mut self, value: bool)
        ensures
            final(self).state() == st_log(old(self).state(), bool_text(value)),
            final(self).text() == old(self).text() + (if value { "true"@ } else { "false"@ }),
            final(self).levels() == old(self).levels(),
            final(self).prefix() == old(self).prefix(),
            final(self).current_node() == old(self).current_node(),
            old(self).appends(final(self)),
    {
        broadcast use group_logger_appends;
        if value {
            self.log("true");
        } else {
            self.log("false");
        }
    }

    /// Appends the decimal digits of `n`.
    pub fn log_decimal(&mut self, n: u64)
        ensures
            final(self).state() == st_log(old(self).state(), decimal(n as nat)),
            final(self).text() == old(self).text() + decimal(n as nat),
            final(self).levels() == old(self).levels(),
            final(self).prefix() == old(self).prefix(),
            final(self).current_node() == old(self).current_node(),
            old(self).appends(final(self)),
    {
        broadcast use group_logger_appends;
        let mut s = String::new();
        push_decimal(&mut s, n);
        assert(s@ =~= decimal(n as nat));
        self.log(s.as_str());
    }

    /// The text of the name `id`, or `?` where the table has no such name.
    pub open spec fn name_text(&self, id: NameId) -> Seq<char> {
        table_name_text(self.names(), id)
    }

    /// The text of the literal `id`, or `?` where the table has no such literal.
    pub open spec fn literal_text(&self, id: LiteralId) -> Seq<char> {
        if (id.0 as int) < self.literals().len() { self.literals()[id.0 as int]@ } else { "?"@ }
    }

    /// The prefixed line `label`, the name `id`.
    pub fn name_line(&mut self, label: &str, id: NameId)
        ensures
            final(self).state() == st_line(old(self).env(), old(self).state(), label@, table_name_text(old(self).env().names, id)),
            final(self).text() == old(self).text() + old(self).prefix() + label@ + old(self).name_text(id) + "\n"@,
            final(self).levels() == old(self).levels(),
            final(self).prefix() == old(self).prefix(),
            final(self).current_node() == old(self).current_node(),
            old(self).appends(final(self)),
    {
        broadcast use group_logger_appends;
        proof { reveal(AstLogger::appends); }
        self.prefixed_log(label);
        self.log_name(id);
        self.log("\n");
    }

    /// Where there is a name, the prefixed line `label`, the name.
    pub fn opt_name_line(&mut self, label: &str, id: Option<NameId>)
        ensures
            final(self).state() == match id {
                Some(id) => st_line(old(self).env(), old(self).state(), label@, table_name_text(old(self).env().names, id)),
                None => old(self).state(),
            },
            id is Some ==> final(self).text() == old(self).text() + old(self).prefix() + label@ + old(self).name_text(id->0) + "\n"@,
            id is None ==> final(self).text() == old(self).text(),
            final(self).levels() == old(self).levels(),
            final(self).prefix() == old(self).prefix(),
            final(self).current_node() == old(self).current_node(),
            old(self).appends(final(self)),
    {
        broadcast use group_logger_appends;
        proof { reveal(AstLogger::appends); }
        if let Some(id) = id {
            self.name_line(label, id);
        }
    }

    /// The prefixed line `label`, the literal `id`.
    pub fn literal_line(&mut self, label: &str, id: LiteralId)
        ensures
            final(self).state() == st_line(old(self).env(), old(self).state(), label@, table_literal_text(old(self).env().literals, id)),
            final(self).text() == old(self).text() + old(self).prefix() + label@ + old(self).literal_text(id) + "\n"@,
            final(self).levels() == old(self).levels(),
            final(self).prefix() == old(self).prefix(),
            final(self).current_node() == old(self).current_node(),
            old(self).appends(final(self)),
    {
        broadcast use group_logger_appends;
        proof { reveal(AstLogger::appends); }
        self.prefixed_log(label);
        self.log_literal(id);
        self.log("\n");
    }

    /// The prefixed line `label`, `true` or `false`.
    pub fn bool_line(&mut self, label: &str, value: bool)
        ensures
            final(self).state() == st_line(old(self).env(), old(self).state(), label@, bool_text(value)),
            final(self).text() == old(self).text() + old(self).prefix() + label@ + (if value { "true"@ } else { "false"@ }) + "\n"@,
            final(self).levels() == old(self).levels(),
            final(self).prefix() == old(self).prefix(),
            final(self).current_node() == old(self).current_node(),
            old(self).appends(final(self)),
    {
        broadcast use group_logger_appends;
        proof { reveal(AstLogger::appends); }
        self.prefixed_log(label);
        self.log_bool(value);
        self.log("\n");
    }

    /// The prefixed line `label`, the text of the punctuation `punct`.
    pub fn punct_line(&mut self, label: &str, punct: Punctuation)
        ensures
            final(self).state() == st_line(old(self).env(), old(self).state(), label@, punct.spec_as_str(&old(self).env().puncts)),
            final(self).text() == old(self).text() + old(self).prefix() + label@ + punct.spec_as_str(old(self).puncts()) + "\n"@,
            final(self).levels() == old(self).levels(),
            final(self).prefix() == old(self).prefix(),
            final(self).current_node() == old(self).current_node(),
            old(self).appends(final(self)),
    {
        broadcast use group_logger_appends;
        proof { reveal(AstLogger::appends); }
        self.prefixed_log(label);
        self.log_punct(punct);
        self.log("\n");
    }

    /// The texts of the names joined by `.`.
    pub open spec fn dotted_text(&self, names: Seq<NameId>) -> Seq<char> {
        dotted_names_text(self.names(), names)
    }

    /// The names joined by `.`.
    pub fn dotted_names(&mut self, names: &Vec<NameId>)
        ensures
            final(self).state() == st_log(old(self).state(), dotted_names_text(old(self).env().names, names@)),
            final(self).text() == old(self).text() + old(self).dotted_text(names@),
            final(self).levels() == old(self).levels(),
            final(self).prefix() == old(self).prefix(),
            final(self).current_node() == old(self).current_node(),
            old(self).appends(final(self)),
    {
        broadcast use group_logger_appends;
        proof { reveal(AstLogger::appends); }
        let mut idx: usize = 0;
        assert(names@.subrange(0, 0) =~= Seq::<NameId>::empty());
        assert(self.text() =~= old(self).text() + Seq::<char>::empty());
        while idx < names.len()
            invariant
                old(self).appends(self),
                self.levels() == old(self).levels(),
                self.prefix() == old(self).prefix(),
                self.current_node() == old(self).current_node(),
                idx <= names@.len(),
                self.text() == old(self).text() + old(self).dotted_text(names@.subrange(0, idx as int)),
            decreases names@.len() - idx,
        {
            let ghost before = self.text();
            if idx != 0 {
                self.log(".");
            }
            self.log_name(names[idx]);
            proof {
                reveal(AstLogger::appends);
                let done = names@.subrange(0, idx as int + 1);
                assert(done.drop_last() =~= names@.subrange(0, idx as int));
                assert(done.last() == names@[idx as int]);
                if idx == 0 {
                    assert(done.len() == 1);
                    assert(self.text() =~= old(self).text() + old(self).dotted_text(done));
                } else {
                    assert(self.text() =~= old(self).text() + old(self).dotted_text(done));
                }
            }
            assert(old(self).appends(self)) by { broadcast use group_logger_appends; }
            idx = idx + 1;
        }
        assert(names@.subrange(0, names@.len() as int) =~= names@);
    }

    /// The names of the pairs joined by `.`.
    pub fn dotted_spanned_names(&mut self, names: &Vec<(NameId, SpanId)>)
        ensures
            final(self).state() == st_log(old(self).state(), dotted_names_text(old(self).env().names, names@.map_values(|p: (NameId, SpanId)| p.0))),
            final(self).text() == old(self).text() + old(self).dotted_text(names@.map_values(|p: (NameId, SpanId)| p.0)),
            final(self).levels() == old(self).levels(),
            final(self).prefix() == old(self).prefix(),
            final(self).current_node() == old(self).current_node(),
            old(self).appends(final(self)),
    {
        broadcast use group_logger_appends;
        proof { reveal(AstLogger::appends); }
        let ghost all = names@.map_values(|p: (NameId, SpanId)| p.0);
        let mut idx: usize = 0;
        assert(all.subrange(0, 0) =~= Seq::<NameId>::empty());
        assert(self.text() =~= old(self).text() + Seq::<char>::empty());
        while idx < names.len()
            invariant
                old(self).appends(self),
                self.levels() == old(self).levels(),
                self.prefix() == old(self).prefix(),
                self.current_node() == old(self).current_node(),
                idx <= names@.len(),
                all == names@.map_values(|p: (NameId, SpanId)| p.0),
                self.text() == old(self).text() + old(self).dotted_text(all.subrange(0, idx as int)),
            decreases names@.len() - idx,
        {
            if idx != 0 {
                self.log(".");
            }
            self.log_name(names[idx].0);
            proof {
                reveal(AstLogger::appends);
                let done = all.subrange(0, idx as int + 1);
                assert(done.drop_last() =~= all.subrange(0, idx as int));
                assert(done.last() == names@[idx as int].0);
                if idx == 0 {
                    assert(done.len() == 1);
                    assert(self.text() =~= old(self).text() + old(self).dotted_text(done));
                } else {
                    assert(self.text() =~= old(self).text() + old(self).dotted_text(done));
                }
            }
            assert(old(self).appends(self)) by { broadcast use group_logger_appends; }
            idx = idx + 1;
        }
        assert(all.subrange(0, all.len() as int) =~= all);
    }

    /// Where `names` is not empty: the line `group`, then a line `label` and
    /// the name for each name, one level deeper, the last one marked.
    pub fn name_group(&mut self, group: &str, label: &str, names: &Vec<NameId>)
        ensures
            final(self).state() == st_name_group(old(self).env(), old(self).state(), group@, label@, names@),
            final(self).levels() == old(self).levels(),
            final(self).current_node() == old(self).current_node(),
            old(self).appends(final(self)),
    {
        broadcast use group_logger_appends;
        proof { reveal(AstLogger::appends); }
        if names.len() == 0 {
            proof { reveal(AstLogger::appends); }
            return;
        }
        let ghost all = names@;
        self.begin_indented(group);
        let ghost begun = self.state();
        let mut idx: usize = 0;
        while idx < names.len()
            invariant
                old(self).appends(self),
                self.levels().len() == old(self).levels().len() + 1,
                self.levels().drop_last() == old(self).levels(),
                self.current_node() == old(self).current_node(),
                self.env() == old(self).env(),
                idx <= names@.len(),
                all == names@,
                self.state() == st_name_lines(old(self).env(), begun, label@, all, idx as int),
            decreases names@.len() - idx,
        {
            let ghost start = *self;
            if idx + 1 == names.len() {
                self.set_last_at_indent();
            }
            let ghost before = *self;
            self.name_line(label, names[idx]);
            proof {
                lemma_appends_tables(&before, self);
                lemma_appends_refl(&start);
                lemma_appends_tables(&start, &before);
            }
            assert(all[idx as int] == names@[idx as int]);
            assert(old(self).appends(self)) by { broadcast use group_logger_appends; }
            idx = idx + 1;
        }
        self.pop_indent();
    }

    /// Where `names` is not empty: the line `group`, then a line `label` and
    /// the name for each pair, one level deeper, the last one marked.
    pub fn spanned_name_group(&mut self, group: &str, label: &str, names: &Vec<(NameId, SpanId)>)
        ensures
            final(self).state() == st_name_group(old(self).env(), old(self).state(), group@, label@, names@.map_values(|p: (NameId, SpanId)| p.0)),
            final(self).levels() == old(self).levels(),
            final(self).current_node() == old(self).current_node(),
            old(self).appends(final(self)),
    {
        broadcast use group_logger_appends;
        proof { reveal(AstLogger::appends); }
        if names.len() == 0 {
            proof { reveal(AstLogger::appends); }
            return;
        }
        let ghost all = names@.map_values(|p: (NameId, SpanId)| p.0);
        self.begin_indented(group);
        let ghost begun = self.state();
        let mut idx: usize = 0;
        while idx < names.len()
            invariant
                old(self).appends(self),
                self.levels().len() == old(self).levels().len() + 1,
                self.levels().drop_last() == old(self).levels(),
                self.current_node() == old(self).current_node(),
                self.env() == old(self).env(),
                idx <= names@.len(),
                all == names@.map_values(|p: (NameId, SpanId)| p.0),
                self.state() == st_name_lines(old(self).env(), begun, label@, all, idx as int),
            decreases names@.len() - idx,
        {
            let ghost start = *self;
            if idx + 1 == names.len() {
                self.set_last_at_indent();
            }
            let ghost before = *self;
            self.name_line(label, names[idx].0);
            proof {
                lemma_appends_tables(&before, self);
                lemma_appends_refl(&start);
                lemma_appends_tables(&start, &before);
            }
            assert(all[idx as int] == names@[idx as int].0);
            assert(old(self).appends(self)) by { broadcast use group_logger_appends; }
            idx = idx + 1;
        }
        self.pop_indent();
    }

    /// The prefixed line `name`, then a nesting level whose last child begins.
    pub fn begin_last(&mut self, name: &str)
        ensures
            final(self).state() == st_begin_last(old(self).env(), old(self).state(), name@),
            final(self).text() == old(self).text() + old(self).prefix() + name@ + "\n"@,
            final(self).levels() == old(self).levels().push(true),
            final(self).current_node() == old(self).current_node(),
            old(self).appends(final(self)),
    {
        broadcast use group_logger_appends;
        self.begin_indented(name);
        self.set_last_at_indent();
    }

    /// Makes `id` the current node; returns the node that was current.
    pub fn enter_node(&mut self, id: NodeId) -> (r: NodeId)
        ensures
            final(self).state() == st_enter(old(self).state(), id),
            r == old(self).current_node(),
            final(self).current_node() == id,
            final(self).text() == old(self).text(),
            final(self).levels() == old(self).levels(),
            old(self).appends(final(self)),
    {
        let prev = self.node_id;
        self.node_id = id;
        proof { reveal(AstLogger::appends); }
        prev
    }

    /// The token range of the current node, or `(0, 0)` where the AST has no such node.
    pub open spec fn spec_tokens(&self) -> (u32, u32) {
        if self.current_node().spec_index() < self.ast().meta@.len() {
            (self.ast().meta@[self.current_node().spec_index() as int].first_tok,
             self.ast().meta@[self.current_node().spec_index() as int].last_tok)
        } else {
            (0u32, 0u32)
        }
    }

    /// The prefix of a line at nesting `levels`.
    pub open spec fn prefix_for(&self, levels: Seq<bool>) -> Seq<char> {
        line_prefix(levels, self.pads().0, self.pads().1, self.pads().2)
    }

    /// The header line of a node called `name`: the prefix, the name, and the
    /// current node's id and token range.
    pub open spec fn header(&self, name: Seq<char>) -> Seq<char> {
        self.prefix() + "[ "@ + name + " ] (node id: "@ + decimal(self.current_node().spec_index() as nat)
            + ", tokens: ["@ + decimal(self.spec_tokens().0 as nat) + ".."@
            + decimal(self.spec_tokens().1 as nat) + "])\n"@
    }

    /// The token range of the current node, or `(0, 0)` where the AST has no such node.
    pub fn current_tokens(&self) -> (r: (u32, u32))
        ensures
            r == self.spec_tokens(),
    {
        let idx = self.node_id.index();
        if idx < self.ast.meta.len() {
            let meta = &self.ast.meta[idx];
            (meta.first_tok, meta.last_tok)
        } else {
            (0, 0)
        }
    }

    /// Starts a node: a line `[ name ] (node id: .., tokens: [..])` with the
    /// current node's id and token range, then a nesting level for its children.
    pub fn begin_ast_node(&mut self, name: &str)
        ensures
            final(self).state() == st_begin_node(old(self).env(), old(self).state(), name@),
            final(self).text() == old(self).text() + old(self).header(name@),
            final(self).levels() == old(self).levels().push(false),
            final(self).current_node() == old(self).current_node(),
            old(self).appends(final(self)),
    {
        broadcast use group_logger_appends;
        let (first, last) = self.current_tokens();
        let id = self.node_id.index();
        self.prefixed_log("[ ");
        self.log(name);
        self.log(" ] (node id: ");
        self.log_decimal(id as u64);
        self.log(", tokens: [");
        self.log_decimal(first as u64);
        self.log("..");
        self.log_decimal(last as u64);
        self.log("])\n");
        self.push_indent();
        assert(old(self).header(name@) == st_header(old(self).env(), old(self).state(), name@));
        assert(self.text() == old(self).text() + old(self).header(name@));
        assert(self.text() == st_begin_node(old(self).env(), old(self).state(), name@).text);
        assert(self.levels() == st_begin_node(old(self).env(), old(self).state(), name@).levels);
        assert(self.current_node() == st_begin_node(old(self).env(), old(self).state(), name@).node);
    }

    /// Starts a group: a prefixed line `name`, then a nesting level for its children.
    pub fn begin_indented(&mut self, name: &str)
        ensures
            final(self).state() == st_begin_indented(old(self).env(), old(self).state(), name@),
            final(self).text() == old(self).text() + old(self).prefix() + name@ + "\n"@,
            final(self).levels() == old(self).levels().push(false),
            final(self).current_node() == old(self).current_node(),
            old(self).appends(final(self)),
    {
        broadcast use group_logger_appends;
        self.prefixed_logln(name);
        self.push_indent();
    }

    /// Logs `node` as the current node, then makes the previous node current again.
    pub(crate) fn log_node_ref<T: AstNode + AstNodeLog>(&mut self, node: &AstNodeRef<T>)
        ensures
            final(self).state() == st_node_ref(old(self).env(), old(self).state(), **node),
            old(self).appends(final(self)),
            final(self).levels().len() == old(self).levels().len(),
            final(self).current_node() == old(self).current_node(),
    {
        broadcast use group_logger_appends;
        let prev = self.enter_node(node.node_id());
        node.log(self);
        self.node_id = prev;
        proof { reveal(AstLogger::appends); }
    }

    pub(crate) fn log_node<T: AstNodeLog>(&mut self, node: &T)
        ensures
            final(self).state() == node.spec_log(old(self).env(), old(self).state()),
            old(self).appends(final(self)),
            final(self).levels().len() == old(self).levels().len(),
    {
        node.log(self);
    }

    /// Logs each node, marking the last one.
    pub fn log_node_slice<T: AstNodeLog>(&mut self, nodes: &[T])
        ensures
            final(self).state() == st_nodes_steps(old(self).env(), old(self).state(), nodes@, nodes@.len() as int),
            old(self).appends(final(self)),
            final(self).levels().len() == old(self).levels().len(),
    {
        broadcast use group_logger_appends;
        let mut idx: usize = 0;
        while idx < nodes.len()
            invariant
                old(self).appends(self),
                self.levels().len() == old(self).levels().len(),
                self.env() == old(self).env(),
                idx <= nodes@.len(),
                self.state() == st_nodes_steps(old(self).env(), old(self).state(), nodes@, idx as int),
            decreases nodes@.len() - idx,
        {
            let ghost start = *self;
            self.set_last_at_indent_if(idx + 1 == nodes.len());
            let ghost before = *self;
            nodes[idx].log(self);
            proof {
                lemma_appends_tables(&start, &before);
                lemma_appends_tables(&before, self);
            }
            assert(old(self).appends(self)) by { broadcast use group_logger_appends; }
            idx = idx + 1;
        }
    }

    /// Starts a node as [`Self::begin_ast_node`] does, lets `f` write its
    /// children, and closes the nesting level.
    pub fn log_ast_node<F>(&mut self, name: &str, f: F)
        where F: Fn(&mut Self)
        requires
            forall|l: &mut Self| #[trigger] f.requires((l,)),
        ensures
            exists|l: &mut Self| #[trigger] f.ensures((l,), ())
                && (*l).state() == st_begin_node(old(self).env(), old(self).state(), name@)
                && final(self).state() == st_pop((*final(l)).state()),
    {
        self.begin_ast_node(name);
        f(self);
        self.pop_indent();
    }

    /// Writes the prefixed line `name`, lets `f` write below it one level
    /// deeper, and closes that level.
    pub fn log_indented<F>(&mut self, name: &str, f: F)
        where F: Fn(&mut Self)
        requires
            forall|l: &mut Self| #[trigger] f.requires((l,)),
        ensures
            exists|l: &mut Self| #[trigger] f.ensures((l,), ())
                && (*l).state() == st_begin_indented(old(self).env(), old(self).state(), name@)
                && final(self).state() == st_pop((*final(l)).state()),
    {
        self.begin_indented(name);
        f(self);
        self.pop_indent();
    }

    /// Where `slice` is not empty: the line `name`, then `f` on each element
    /// one level deeper, the last one marked.
    pub fn log_indented_slice<T, F>(&mut self, name: &str, slice: &[T], f: F)
        where F: Fn(&mut Self, &T)
        requires
            forall|l: &mut Self, x: &T| #[trigger] f.requires((l, x)),
        ensures
            slice@.len() == 0 ==> *final(self) == *old(self),
            slice@.len() > 0 ==> exists|calls: Seq<(Self, Self)>| #[trigger] calls.len() == slice@.len()
                && Self::calls_chain(calls, slice@.len() as int, st_begin_indented(old(self).env(), old(self).state(), name@), old(self).env())
                && (forall|i: int| #![trigger calls[i]] 0 <= i < calls.len() ==> exists|l: &mut Self| #[trigger] f.ensures((l, &slice@[i]), ())
                    && *l == calls[i].0 && *final(l) == calls[i].1)
                && final(self).state() == st_pop(calls.last().1.state())
                && final(self).env() == calls.last().1.env(),
    {
        if slice.len() == 0 {
            return;
        }
        self.begin_indented(name);
        proof { lemma_appends_tables(old(self), self); }
        let ghost begun = self.state();
        let ghost env0 = self.env();
        let ghost mut calls: Seq<(Self, Self)> = Seq::empty();
        let mut idx: usize = 0;
        while idx < slice.len()
            invariant
                forall|l: &mut Self, x: &T| #[trigger] f.requires((l, x)),
                idx <= slice@.len(),
                calls.len() == idx,
                begun == st_begin_indented(old(self).env(), old(self).state(), name@),
                env0 == old(self).env(),
                Self::calls_chain(calls, slice@.len() as int, begun, env0),
                forall|i: int| #![trigger calls[i]] 0 <= i < calls.len() ==> exists|l: &mut Self| #[trigger] f.ensures((l, &slice@[i]), ())
                    && *l == calls[i].0 && *final(l) == calls[i].1,
                idx == 0 ==> self.state() == begun && self.env() == env0,
                idx > 0 ==> *self == calls.last().1,
            decreases slice@.len() - idx,
        {
            let ghost marked_from = *self;
            self.set_last_at_indent_if(idx + 1 == slice.len());
            let ghost pre = *self;
            f(self, &slice[idx]);
            proof {
                assert(exists|l: &mut Self| #[trigger] f.ensures((l, &slice@[idx as int]), ())
                    && *l == pre && *final(l) == *self);
                let old_calls = calls;
                calls = calls.push((pre, *self));
                lemma_appends_tables(&marked_from, &pre);
                assert forall|i: int| #![trigger calls[i]] 0 <= i < calls.len() implies exists|l: &mut Self| #[trigger] f.ensures((l, &slice@[i]), ())
                    && *l == calls[i].0 && *final(l) == calls[i].1 by {
                    if i < old_calls.len() {
                        assert(calls[i] == old_calls[i]);
                    }
                }
                assert(Self::calls_chain(calls, slice@.len() as int, begun, env0));
            }
            idx = idx + 1;
        }
        let ghost last = *self;
        self.pop_indent();
        proof {
            lemma_appends_tables(&last, self);
            assert(last == calls.last().1);
            assert(calls.len() == slice@.len());
        }
    }

    /// The loggers in `calls` chain up: the first starts from `start` in
    /// `env`, each next one from where the one before ended, and the one at
    /// position `total - 1` has its last child marked.
    pub open spec fn calls_chain(calls: Seq<(Self, Self)>, total: int, start: LogState, env: LogEnv) -> bool {
        &&& calls.len() > 0 ==> calls[0].0.state() == st_set_last_if(start, total == 1) && calls[0].0.env() == env
        &&& forall|i: int| 0 < i < calls.len() ==>
            (#[trigger] calls[i]).0.state() == st_set_last_if(calls[i - 1].1.state(), i + 1 == total)
            && calls[i].0.env() == calls[i - 1].1.env()
    }


    /// The line `name`, then `node` as the current node, one level deeper.
    /// The node stays current.
    pub fn log_indented_node_ref<T: AstNode + AstNodeLog>(&mut self, name: &str, node: &AstNodeRef<T>)
        ensures
            final(self).state() == st_indented_node(old(self).env(), st_enter(old(self).state(), node.spec_node_id()), name@, **node),
            old(self).appends(final(self)),
            final(self).levels().len() == old(self).levels().len(),
    {
        broadcast use group_logger_appends;
        self.node_id = node.node_id();
        proof { reveal(AstLogger::appends); }
        self.log_indented_node(name, &**node);
    }

    /// The line `name`, then `node` one level deeper, as the last child.
    pub fn log_indented_node<T: AstNodeLog>(&mut self, name: &str, node: &T)
        ensures
            final(self).state() == st_indented_node(old(self).env(), old(self).state(), name@, *node),
            old(self).appends(final(self)),
            final(self).levels().len() == old(self).levels().len(),
    {
        broadcast use group_logger_appends;
        self.prefixed_logln(name);
        self.push_indent();
        self.set_last_at_indent();
        node.log(self);
        self.pop_indent();
    }

    /// Where `nodes` is not empty: the line `name`, then each node as the
    /// current node, one level deeper, the last one marked.
    pub fn log_indented_node_ref_slice<T: AstNode + AstNodeLog>(&mut self, name: &str, nodes: &[AstNodeRef<T>])
        ensures
            nodes@.len() == 0 ==> final(self).state() == old(self).state(),
            nodes@.len() > 0 ==> final(self).state() == st_pop(st_node_refs_steps(old(self).env(),
                st_begin_indented(old(self).env(), old(self).state(), name@), nodes@.map_values(|n: AstNodeRef<T>| *n), nodes@.len() as int)),
            old(self).appends(final(self)),
            final(self).levels().len() == old(self).levels().len(),
            final(self).current_node() == old(self).current_node(),
    {
        broadcast use group_logger_appends;
        if nodes.len() == 0 {
            proof { reveal(AstLogger::appends); }
            return;
        }
        let ghost all = nodes@.map_values(|n: AstNodeRef<T>| *n);
        self.begin_indented(name);
        let ghost begun = self.state();
        let mut idx: usize = 0;
        while idx < nodes.len()
            invariant
                old(self).appends(self),
                self.levels().len() == old(self).levels().len() + 1,
                self.current_node() == old(self).current_node(),
                self.env() == old(self).env(),
                idx <= nodes@.len(),
                all == nodes@.map_values(|n: AstNodeRef<T>| *n),
                self.state() == st_node_refs_steps(old(self).env(), begun, all, idx as int),
            decreases nodes@.len() - idx,
        {
            let ghost start = *self;
            self.set_last_at_indent_if(idx + 1 == nodes.len());
            let ghost before = *self;
            self.log_node_ref(&nodes[idx]);
            proof {
                lemma_appends_tables(&start, &before);
                lemma_appends_tables(&before, self);
                assert(all[idx as int] == *nodes@[idx as int]);
            }
            assert(old(self).appends(self)) by { broadcast use group_logger_appends; }
            idx = idx + 1;
        }
        self.pop_indent();
    }

    /// Where `nodes` is not empty: the line `name`, then each node one level
    /// deeper, the last one marked.
    pub fn log_indented_node_slice<T: AstNodeLog>(&mut self, name: &str, nodes: &[T])
        ensures
            nodes@.len() == 0 ==> final(self).state() == old(self).state(),
            nodes@.len() > 0 ==> final(self).state() == st_pop(st_nodes_steps(old(self).env(),
                st_begin_indented(old(self).env(), old(self).state(), name@), nodes@, nodes@.len() as int)),
            old(self).appends(final(self)),
            final(self).levels().len() == old(self).levels().len(),
    {
        broadcast use group_logger_appends;
        if nodes.len() == 0 {
            proof { reveal(AstLogger::appends); }
            return;
        }
        self.begin_indented(name);
        self.log_node_slice(nodes);
        self.pop_indent();
    }

    /// `f` on the value, where there is one.
    pub fn log_opt<T, F>(&mut self, val: &Option<T>, f: F)
        where F: Fn(&mut Self, &T)
        requires
            forall|l: &mut Self, x: &T| #[trigger] f.requires((l, x)),
        ensures
            val is None ==> *final(self) == *old(self),
            val matches Some(v) ==> exists|l: &mut Self| #[trigger] f.ensures((l, &v), ())
                && *l == *old(self) && *final(self) == *final(l),
    {
        if let Some(val) = val {
            f(self, val);
        }
    }

    /// Where there is a value: the line `name`, then `f` on the value one level deeper.
    pub fn log_indented_opt<T, F>(&mut self, name: &str, val: &Option<T>, f: F)
        where F: Fn(&mut Self, &T)
        requires
            forall|l: &mut Self, x: &T| #[trigger] f.requires((l, x)),
        ensures
            val is None ==> *final(self) == *old(self),
            val matches Some(v) ==> exists|l: &mut Self| #[trigger] f.ensures((l, &v), ())
                && (*l).state() == st_begin_indented(old(self).env(), old(self).state(), name@)
                && final(self).state() == st_pop((*final(l)).state()),
    {
        if let Some(val) = val {
            self.begin_indented(name);
            f(self, val);
            self.pop_indent();
        }
    }

    /// The node as the current node, where there is one.
    pub fn log_opt_node_ref<T: AstNode + AstNodeLog>(&mut self, node: &Option<AstNodeRef<T>>)
        ensures
            final(self).state() == match *node {
                Some(node) => st_node_ref(old(self).env(), old(self).state(), *node),
                None => old(self).state(),
            },
            old(self).appends(final(self)),
            final(self).levels().len() == old(self).levels().len(),
            final(self).current_node() == old(self).current_node(),
    {
        broadcast use group_logger_appends;
        if let Some(node) = node {
            self.log_node_ref(node);
        } else {
            proof { reveal(AstLogger::appends); }
        }
    }

    /// Where there is a node: the line `name`, then the node one level deeper.
    pub fn log_indented_opt_node<T: AstNodeLog>(&mut self, name: &str, val: &Option<T>)
        ensures
            final(self).state() == match *val {
                Some(val) => st_indented_node(old(self).env(), old(self).state(), name@, val),
                None => old(self).state(),
            },
            old(self).appends(final(self)),
            final(self).levels().len() == old(self).levels().len(),
    {
        broadcast use group_logger_appends;
        if let Some(val) = val {
            self.log_indented_node(name, val);
        } else {
            proof { reveal(AstLogger::appends); }
        }
    }

    /// Where there is a node: the line `name`, then the node, as the current
    /// node, one level deeper.
    pub fn log_indented_opt_node_ref<T: AstNode + AstNodeLog>(&mut self, name: &str, val: &Option<AstNodeRef<T>>)
        ensures
            final(self).state() == match *val {
                Some(val) => st_indented_node(old(self).env(), st_enter(old(self).state(), val.spec_node_id()), name@, *val),
                None => old(self).state(),
            },
            old(self).appends(final(self)),
            final(self).levels().len() == old(self).levels().len(),
    {
        broadcast use group_logger_appends;
        if let Some(val) = val {
            self.log_indented_node_ref(name, val);
        } else {
            proof { reveal(AstLogger::appends); }
        }
    }

    /// The node, where there is one.
    pub fn log_opt_node<T: AstNodeLog>(&mut self, node: &Option<T>)
        ensures
            final(self).state() == match *node {
                Some(node) => node.spec_log(old(self).env(), old(self).state()),
                None => old(self).state(),
            },
            old(self).appends(final(self)),
            final(self).levels().len() == old(self).levels().len(),
    {
        broadcast use group_logger_appends;
        if let Some(node) = node {
            node.log(self);
        } else {
            proof { reveal(AstLogger::appends); }
        }
    }
}

} // verus!
