//! Front end of a small domain-specific language: a hand-written
//! recursive-descent parser that turns a flat sequence of lexical tokens
//! into an abstract syntax tree of data declarations, parameterized group
//! templates, named procedure blocks, action-triggered blocks and an
//! imperative instruction sub-language. The grammar is written down as
//! specification functions over token values, and every parsing function
//! is proved to return exactly what those functions say: the same tree,
//! the same cursor position, or the same first violation.

pub mod token;
pub mod ast;
pub mod error;
pub mod grammar;
pub mod ast_parser;
