//! Front end of a compiler: the AST, the parser that builds it from tokens,
//! a visitor over it, and a logger that writes it out as a tree.

pub mod common;
pub mod type_system;
pub mod lexer;
pub mod ast;
pub mod parser;
