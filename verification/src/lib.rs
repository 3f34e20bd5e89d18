//! Front end of a small statically typed language: a lexer that turns a byte
//! buffer into tokens, a recursive-descent parser with precedence climbing
//! that builds an abstract syntax tree, scope-aware symbol resolvers, and a
//! type checker that validates and infers the types of a parsed program.

pub mod ast;
pub mod lexer;
pub mod parser;
pub mod resolver;
pub mod token;
pub mod typechecker;
