//! The typed error surface of the front end. Every fatal condition of the
//! tokenizer or parser is reported as one of these values; no partial tree
//! is ever returned beside one.

use vstd::prelude::*;
use crate::token::TokenType;

verus! {

/// A fatal front-end error.
#[derive(Debug, Clone, PartialEq)]
pub enum ParseError {
    /// An input character matches none of the known symbol, letter or
    /// digit classes.
    Lexical { found: char },
    /// The current token has no registered prefix or infix handler where
    /// one is required.
    MissingHandler { kind: TokenType },
    /// A specific expected token kind was not found at the cursor.
    Expectation { expected: TokenType, found: TokenType, message: Option<String> },
    /// A parameter or variable declaration lacks its required type
    /// annotation, or a construct is otherwise malformed.
    MalformedDeclaration { message: String },
}

/// Mathematical model of a front-end error, with messages as character
/// sequences.
pub enum ErrModel {
    Lexical { found: char },
    MissingHandler { kind: TokenType },
    Expectation { expected: TokenType, found: TokenType, message: Option<Seq<char>> },
    MalformedDeclaration { message: Seq<char> },
}

impl ParseError {
    /// The mathematical model of this error.
    pub open spec fn model(self) -> ErrModel {
        match self {
            ParseError::Lexical { found } => ErrModel::Lexical { found },
            ParseError::MissingHandler { kind } => ErrModel::MissingHandler { kind },
            ParseError::Expectation { expected, found, message } => ErrModel::Expectation {
                expected,
                found,
                message: match message {
                    Some(m) => Some(m@),
                    None => None,
                },
            },
            ParseError::MalformedDeclaration { message } => ErrModel::MalformedDeclaration {
                message: message@,
            },
        }
    }
}

} // verus!
