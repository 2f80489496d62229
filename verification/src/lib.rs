//! Front end of the Rus language: a lexer that turns source text into
//! located tokens, and a recursive-descent / precedence-climbing parser that
//! turns located tokens into an abstract syntax tree.

pub mod data;
pub mod lex;
pub mod parser;
