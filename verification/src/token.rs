//! The lexical token model: the closed set of token kinds, the immutable
//! `(kind, text)` token value, and the reserved-word table.

use vstd::prelude::*;

verus! {

/// Every kind of lexical unit the tokenizer can produce: literals,
/// single- and two-character operator symbols, reserved words, and the
/// end-of-input marker.
#[derive(Debug, Clone, Copy, PartialEq, Eq, Hash, Structural)]
pub enum TokenType {
    Number,
    Identifier,
    QuestionMark,
    ExclamationMark,
    BackQuote,
    DoubleQuote,
    Quote,
    CircumFlex,
    Amper,
    AmperAmper,
    Verbar,
    VerbarVerbar,
    Percent,
    Tild,
    Plus,
    PlusEqual,
    Minus,
    MinusEqual,
    Star,
    StarEqual,
    Slash,
    SlashEqual,
    BackSlash,
    LParen,
    RParen,
    LBracket,
    RBracket,
    LBrace,
    RBrace,
    At,
    Dot,
    Colon,
    ColonEqual,
    SemiColon,
    Comma,
    Hash,
    Equal,
    EqualEqual,
    ExclEqual,
    Sup,
    Inf,
    SupEqual,
    InfEqual,
    Arrow,
    DoubleArrow,
    NewLine,
    Alias,
    Raise,
    Import,
    FromFile,
    Lambda,
    Exportable,
    Async,
    Func,
    Await,
    Return,
    IfConditional,
    ElseConditional,
    ForLoop,
    WhileLoop,
    BreakLoop,
    InLoop,
    Break,
    Continue,
    EOF,
}

/// Mathematical view of a token: its kind together with the text it was
/// lexed from, as a sequence of characters.
pub struct TokenModel {
    pub kind: TokenType,
    pub text: Seq<char>,
}

/// A lexical token: a kind and the raw source text it stands for.
///
/// Invariant kept by the tokenizer: `value` is the exact source substring
/// the token was lexed from (literals, identifiers) or the canonical
/// spelling of the symbol or keyword.
#[derive(Debug, Clone, PartialEq)]
pub struct Token {
    pub kind: TokenType,
    pub value: String,
}

impl View for Token {
    type V = TokenModel;

    open spec fn view(&self) -> TokenModel {
        TokenModel { kind: self.kind, text: self.value@ }
    }
}

impl DeepView for Token {
    type V = TokenModel;

    open spec fn deep_view(&self) -> TokenModel {
        self@
    }
}

impl Token {
    /// Create a new token with a kind and value.
    pub fn new(kind: TokenType, value: String) -> (r: Token)
        ensures
            r.kind == kind,
            r.value == value,
    {
        Token { kind, value }
    }

    /// Check if the token matches a specific kind.
    pub fn is(&self, kind: TokenType) -> (r: bool)
        ensures
            r == (self.kind == kind),
    {
        self.kind == kind
    }

    /// Check if the token matches a kind and a value.
    pub fn is_value(&self, kind: TokenType, value: &str) -> (r: bool)
        ensures
            r == (self.kind == kind && self.value@ == value@),
    {
        self.kind == kind && self.value == value.to_owned()
    }
}

/// The reserved-word table: the token kind a piece of text is reclassified
/// to, or `None` when the text is no reserved word.
pub open spec fn spec_keyword(w: Seq<char>) -> Option<TokenType> {
    if w == "!"@ {
        Some(TokenType::ExclamationMark)
    } else if w == "?"@ {
        Some(TokenType::QuestionMark)
    } else if w == "as"@ {
        Some(TokenType::Alias)
    } else if w == "raise"@ {
        Some(TokenType::Raise)
    } else if w == "import"@ {
        Some(TokenType::Import)
    } else if w == "from"@ {
        Some(TokenType::FromFile)
    } else if w == "lambda"@ {
        Some(TokenType::Lambda)
    } else if w == "export"@ {
        Some(TokenType::Exportable)
    } else if w == "async"@ {
        Some(TokenType::Async)
    } else if w == "func"@ {
        Some(TokenType::Func)
    } else if w == "await"@ {
        Some(TokenType::Await)
    } else if w == "return"@ {
        Some(TokenType::Return)
    } else if w == "and"@ {
        Some(TokenType::AmperAmper)
    } else if w == "or"@ {
        Some(TokenType::VerbarVerbar)
    } else if w == "not"@ {
        Some(TokenType::ExclamationMark)
    } else if w == "if"@ {
        Some(TokenType::IfConditional)
    } else if w == "else"@ {
        Some(TokenType::ElseConditional)
    } else if w == "for"@ {
        Some(TokenType::ForLoop)
    } else if w == "while"@ {
        Some(TokenType::WhileLoop)
    } else if w == "loop"@ {
        Some(TokenType::BreakLoop)
    } else if w == "in"@ {
        Some(TokenType::InLoop)
    } else if w == "break"@ {
        Some(TokenType::Break)
    } else if w == "continue"@ {
        Some(TokenType::Continue)
    } else {
        None
    }
}

} // verus!
