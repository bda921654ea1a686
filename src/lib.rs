//! An expression interpreter: text is split into tokens, the tokens are
//! parsed into a tree, and the tree is evaluated to a number or a boolean.
pub mod ast;
pub mod lexer;
pub mod eval;
pub mod parser;
pub mod laws;
