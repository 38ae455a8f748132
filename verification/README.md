# lib

The front end of a compiler, written in Verus: a recursive-descent parser
that turns a lexed token stream into an abstract syntax tree, a logger that
writes the tree as indented text, and a visitor over the tree.

The modules `common`, `lexer` and `type_system` hold what the parser and
the logger need of the compiler's shared code (ids, tables, tokens, the
indenting text logger, the builtin types); they are written here from how
that code is used, not taken from it. The compiler passes that run over the
AST (scoping, symbol generation, lowering to the next representation) are
not part of this crate: they work on a symbol table, a HIR and diagnostics
that live outside it.

## Layout

- `src/common.rs`: ids of spans, names and literals; the span registry and
  the name table; `IndentLogger`, which draws text as a tree, with the spec
  of the prefixes it writes.
- `src/lexer.rs`: the tokens the parser reads, keywords and punctuation.
- `src/type_system.rs`: the builtin primitive and string slice types.
- `src/ast/mod.rs`: the AST. Every node with an id is registered in the
  `Ast`, and its id is its position in the AST's node metadata.
- `src/ast/logger.rs`, `src/ast/log.rs`: `AstLogger` and how each node writes
  itself. The state of a logger (its text, its open nesting levels and the
  current node) is modelled by `LogState`; each kind of node has a spec
  function `spec_log` that gives the state after the node is written, and
  each `log` is proved to reach exactly that state. Logging only appends
  text and leaves the nesting as it found it.
- `src/ast/visitor.rs`, `src/ast/visitor/helpers.rs`: the `Visitor` trait and
  the walks over each node's children.
- `src/parser/`: the parser. Each parse function keeps the tokens, never moves
  the cursor back, never loses a registered node, and reports errors at the
  cursor; many also state which node they build from the tokens they see:
  its kind, its flags and names, and for lists of names (paths, name lists,
  braced lists, import sources) exactly which tokens they come from. Parsing
  a file registers its items in order, each with a fresh node id.
- `tests/`: parsing and logging scenarios on concrete token streams.

Verify with Verus on `src/lib.rs`; the tests run against the compiled library.
