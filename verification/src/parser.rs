//! The parser state: one token sequence, exclusively owned, and a cursor
//! over it, with the primitive operations the two parsers are built from.

use vstd::prelude::*;
use crate::token::{Token, TokenModel, TokenType};
use crate::error::ParseError;
use crate::statement_ast::Stmt;

verus! {

/// A well-formed token sequence: never empty, ends with exactly one
/// end-of-input token. This is what the tokenizer produces.
pub open spec fn wf_tokens(toks: Seq<TokenModel>) -> bool {
    &&& toks.len() >= 1
    &&& toks[toks.len() - 1].kind == TokenType::EOF
    &&& forall|k: int| 0 <= k < toks.len() - 1 ==> (#[trigger] toks[k].kind) != TokenType::EOF
}

/// The cursor after skipping a run of consecutive newline tokens.
pub open spec fn spec_skip_newlines(toks: Seq<TokenModel>, i: int) -> int
    decreases toks.len() - i,
{
    if 0 <= i < toks.len() && toks[i].kind == TokenType::NewLine {
        spec_skip_newlines(toks, i + 1)
    } else {
        i
    }
}

/// Turn one source text into its syntax tree: tokenize, then parse the
/// whole token sequence as a program. The result is exactly what the
/// grammar specification says of the mathematical token sequence of the
/// source, or the first fatal error.
pub fn parse_source(source: String) -> (r: Result<Stmt, ParseError>)
    ensures
        match crate::lexer::spec_tokenize(source@) {
            Err(c) => r matches Err(e) && e == (ParseError::Lexical { found: c }),
            Ok(toks) => match crate::grammar::spec_parse(toks, 0) {
                Ok((m, j)) => r matches Ok(s) && s.model() == m,
                Err(em) => r matches Err(e) && e.model() == em,
            },
        },
{
    let mut lexer = crate::lexer::Lexer::new(source);
    let tokens = match lexer.tokenize() {
        Ok(v) => v,
        Err(e) => {
            return Err(e);
        },
    };
    proof {
        crate::lexer::lemma_tokenize_ok_well_formed(lexer.src(), 0);
    }
    let mut parser = Parser::new(tokens);
    parser.parse()
}

/// The parser: a token sequence and the cursor position. The sequence is
/// never changed; only the cursor moves, and only forward.
pub struct Parser {
    pub tokens: Vec<Token>,
    pub pos: usize,
}

impl Parser {
    /// The mathematical view of the token sequence.
    pub open spec fn toks(self) -> Seq<TokenModel> {
        self.tokens.deep_view()
    }

    /// The cursor position.
    pub open spec fn at(self) -> int {
        self.pos as int
    }

    /// Well-formedness: the token sequence is well formed and the cursor
    /// stands on a token (at worst on the final end-of-input token).
    pub open spec fn wf(self) -> bool {
        &&& wf_tokens(self.toks())
        &&& 0 <= self.at() < self.toks().len()
    }

    /// Start a parser at the beginning of a token sequence.
    pub fn new(tokens: Vec<Token>) -> (r: Parser)
        requires
            wf_tokens(tokens.deep_view()),
        ensures
            r.wf(),
            r.toks() == tokens.deep_view(),
            r.at() == 0,
    {
        Parser { pos: 0, tokens }
    }

    /// The kind of the token under the cursor.
    pub fn current_tokenkind(&self) -> (r: TokenType)
        requires
            self.wf(),
        ensures
            r == self.toks()[self.at()].kind,
    {
        self.tokens[self.pos].kind
    }

    /// The token under the cursor.
    pub fn current_token(&self) -> (r: &Token)
        requires
            self.wf(),
        ensures
            r@ == self.toks()[self.at()],
    {
        &self.tokens[self.pos]
    }

    /// Whether any token kind in the list matches the current one.
    pub fn is_one_of_many(&self, tokens: Vec<TokenType>) -> (r: bool)
        requires
            self.wf(),
        ensures
            r == exists|i: int|
                0 <= i < tokens@.len() && tokens@[i] == self.toks()[self.at()].kind,
    {
        let current = self.current_tokenkind();
        let n = tokens.len();
        let mut i: usize = 0;
        while i < n
            invariant
                n == tokens@.len(),
                0 <= i <= n,
                current == self.toks()[self.at()].kind,
                forall|k: int| 0 <= k < i ==> tokens@[k] != current,
            decreases n - i,
        {
            if tokens[i] == current {
                return true;
            }
            i = i + 1;
        }
        false
    }

    /// Whether a token is left to parse: the cursor stands before the
    /// end-of-input token.
    pub fn has_token(&self) -> (r: bool)
        requires
            self.wf(),
        ensures
            r == (self.toks()[self.at()].kind != TokenType::EOF),
    {
        self.pos < self.tokens.len() && self.current_tokenkind() != TokenType::EOF
    }

    /// Consume the token under the cursor and return it.
    pub fn advance(&mut self) -> (r: Token)
        requires
            old(self).wf(),
            old(self).toks()[old(self).at()].kind != TokenType::EOF,
        ensures
            final(self).wf(),
            final(self).toks() == old(self).toks(),
            final(self).at() == old(self).at() + 1,
            r@ == old(self).toks()[old(self).at()],
    {
        // The sequence length fits in usize and bounds the cursor, so the
        // step below cannot overflow.
        let n = self.tokens.len();
        proof {
            assert(self.at() < self.toks().len() - 1);
        }
        let t = &self.tokens[self.pos];
        let token = Token::new(t.kind, t.value.clone());
        self.pos = self.pos + 1;
        token
    }

    /// Consume the token under the cursor if it has the expected kind;
    /// otherwise report an expectation error carrying the given message,
    /// leaving the cursor where it stands.
    pub fn expect_error(&mut self, expected: TokenType, err: Option<String>) -> (r: Result<
        Token,
        ParseError,
    >)
        requires
            old(self).wf(),
            expected != TokenType::EOF,
        ensures
            final(self).wf(),
            final(self).toks() == old(self).toks(),
            if old(self).toks()[old(self).at()].kind == expected {
                &&& r matches Ok(t) && t@ == old(self).toks()[old(self).at()]
                &&& final(self).at() == old(self).at() + 1
            } else {
                &&& r matches Err(e) && e == (ParseError::Expectation {
                    expected,
                    found: old(self).toks()[old(self).at()].kind,
                    message: err,
                })
                &&& final(self).at() == old(self).at()
            },
    {
        if self.current_tokenkind() != expected {
            return Err(
                ParseError::Expectation { expected, found: self.current_tokenkind(), message: err },
            );
        }
        Ok(self.advance())
    }

    /// Consume the token under the cursor if it has the expected kind;
    /// otherwise report a plain expectation error.
    pub fn expect(&mut self, expected: TokenType) -> (r: Result<Token, ParseError>)
        requires
            old(self).wf(),
            expected != TokenType::EOF,
        ensures
            final(self).wf(),
            final(self).toks() == old(self).toks(),
            if old(self).toks()[old(self).at()].kind == expected {
                &&& r matches Ok(t) && t@ == old(self).toks()[old(self).at()]
                &&& final(self).at() == old(self).at() + 1
            } else {
                &&& r matches Err(e) && e == (ParseError::Expectation {
                    expected,
                    found: old(self).toks()[old(self).at()].kind,
                    message: None,
                })
                &&& final(self).at() == old(self).at()
            },
    {
        self.expect_error(expected, None)
    }

    /// Skip a run of consecutive newline tokens.
    pub fn clean_newline(&mut self)
        requires
            old(self).wf(),
        ensures
            final(self).wf(),
            final(self).toks() == old(self).toks(),
            final(self).at() == spec_skip_newlines(old(self).toks(), old(self).at()),
            old(self).at() <= final(self).at(),
    {
        while self.has_token() && self.current_tokenkind() == TokenType::NewLine
            invariant
                self.wf(),
                self.toks() == old(self).toks(),
                old(self).at() <= self.at(),
                spec_skip_newlines(self.toks(), self.at()) == spec_skip_newlines(
                    old(self).toks(),
                    old(self).at(),
                ),
            decreases self.toks().len() - self.at(),
        {
            self.advance();
        }
    }

    /// Parse a whole program: every top-level statement in source order,
    /// gathered under one program node, or the first fatal error.
    pub fn parse(&mut self) -> (r: Result<Stmt, ParseError>)
        requires
            old(self).wf(),
        ensures
            final(self).wf(),
            final(self).toks() == old(self).toks(),
            match crate::grammar::spec_parse(old(self).toks(), old(self).at()) {
                Ok((m, j)) => {
                    &&& r matches Ok(s) && s.model() == m
                    &&& final(self).at() == j
                },
                Err(em) => r matches Err(e) && e.model() == em,
            },
    {
        let body = match crate::parse_statement::parse_program_items(self) {
            Ok(v) => v,
            Err(e) => {
                return Err(e);
            },
        };
        Ok(Stmt::new_program(body))
    }

    /// Build the typed error the parser aborts with on a malformed
    /// construct.
    pub fn throw(&self, mess: &str) -> (r: ParseError)
        ensures
            r matches ParseError::MalformedDeclaration { message } && message@ == mess@,
    {
        ParseError::MalformedDeclaration { message: mess.to_owned() }
    }
}

} // verus!
