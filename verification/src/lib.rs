//! Front end of a small scripting language: a tokenizer that turns source
//! text into a typed token sequence, and a table-driven parser (precedence
//! climbing for expressions, recursive descent for statements) that turns
//! the token sequence into a syntax tree.

pub mod error;
pub mod expression_ast;
pub mod grammar;
pub mod lexer;
pub mod lookup;
pub mod parse_expression;
pub mod parse_statement;
pub mod parser;
pub mod statement_ast;
pub mod token;
