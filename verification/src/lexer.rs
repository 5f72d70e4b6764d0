//! The tokenizer: a cursor over the source text that classifies raw
//! characters into typed tokens, resolving two-character operators before
//! their single-character prefixes (longest match wins) and reclassifying
//! alphabetic runs through the reserved-word table.
//!
//! The whole lexing behaviour is stated mathematically: `spec_next_token`
//! says what the next token at a cursor position is, and
//! `spec_tokenize_from` says what the whole token sequence of a source is;
//! the executable lexer is proved to return exactly those.

use vstd::prelude::*;
use crate::token::{Token, TokenModel, TokenType, spec_keyword};
use crate::lookup::lookup_keyword;
use crate::error::ParseError;

verus! {

/// Whether a character counts as alphabetic, exactly as the Unicode
/// `Alphabetic` property draws the line.
pub uninterp spec fn alphabetic(c: char) -> bool;

/// Whether a character counts as white space, exactly as the Unicode
/// `White_Space` property draws the line.
pub uninterp spec fn whitespace(c: char) -> bool;

/// Relied on: `char::is_alphabetic` returns whether the character has the
/// Unicode `Alphabetic` property, a function of the character alone.
pub assume_specification[ char::is_alphabetic ](c: char) -> (r: bool)
    ensures
        r == alphabetic(c),
;

/// Relied on: `char::is_whitespace` returns whether the character has the
/// Unicode `White_Space` property, a function of the character alone.
pub assume_specification[ char::is_whitespace ](c: char) -> (r: bool)
    ensures
        r == whitespace(c),
;

/// An ASCII decimal digit.
pub open spec fn is_digit(c: char) -> bool {
    '0' <= c && c <= '9'
}

/// The two-character operator the pair spells, if any. Two-character
/// forms take priority over their single-character prefixes.
pub open spec fn two_char_kind(c1: char, c2: char) -> Option<TokenType> {
    if c1 == '=' && c2 == '=' {
        Some(TokenType::EqualEqual)
    } else if c1 == '!' && c2 == '=' {
        Some(TokenType::ExclEqual)
    } else if c1 == '<' && c2 == '=' {
        Some(TokenType::InfEqual)
    } else if c1 == '>' && c2 == '=' {
        Some(TokenType::SupEqual)
    } else if c1 == '&' && c2 == '&' {
        Some(TokenType::AmperAmper)
    } else if c1 == '+' && c2 == '=' {
        Some(TokenType::PlusEqual)
    } else if c1 == '-' && c2 == '=' {
        Some(TokenType::MinusEqual)
    } else if c1 == '*' && c2 == '=' {
        Some(TokenType::StarEqual)
    } else if c1 == '/' && c2 == '=' {
        Some(TokenType::SlashEqual)
    } else if c1 == ':' && c2 == '=' {
        Some(TokenType::ColonEqual)
    } else if c1 == '-' && c2 == '>' {
        Some(TokenType::Arrow)
    } else if c1 == '=' && c2 == '>' {
        Some(TokenType::DoubleArrow)
    } else {
        None
    }
}

/// The fixed symbol table for single characters, newline included.
pub open spec fn single_char_kind(c: char) -> Option<TokenType> {
    if c == '?' {
        Some(TokenType::QuestionMark)
    } else if c == '!' {
        Some(TokenType::ExclamationMark)
    } else if c == '`' {
        Some(TokenType::BackQuote)
    } else if c == '"' {
        Some(TokenType::DoubleQuote)
    } else if c == '\'' {
        Some(TokenType::Quote)
    } else if c == '^' {
        Some(TokenType::CircumFlex)
    } else if c == '&' {
        Some(TokenType::Amper)
    } else if c == '|' {
        Some(TokenType::Verbar)
    } else if c == '%' {
        Some(TokenType::Percent)
    } else if c == '~' {
        Some(TokenType::Tild)
    } else if c == '+' {
        Some(TokenType::Plus)
    } else if c == '-' {
        Some(TokenType::Minus)
    } else if c == '*' {
        Some(TokenType::Star)
    } else if c == '/' {
        Some(TokenType::Slash)
    } else if c == '\\' {
        Some(TokenType::BackSlash)
    } else if c == '(' {
        Some(TokenType::LParen)
    } else if c == ')' {
        Some(TokenType::RParen)
    } else if c == '[' {
        Some(TokenType::LBracket)
    } else if c == ']' {
        Some(TokenType::RBracket)
    } else if c == '{' {
        Some(TokenType::LBrace)
    } else if c == '}' {
        Some(TokenType::RBrace)
    } else if c == '@' {
        Some(TokenType::At)
    } else if c == '.' {
        Some(TokenType::Dot)
    } else if c == ':' {
        Some(TokenType::Colon)
    } else if c == ';' {
        Some(TokenType::SemiColon)
    } else if c == ',' {
        Some(TokenType::Comma)
    } else if c == '#' {
        Some(TokenType::Hash)
    } else if c == '=' {
        Some(TokenType::Equal)
    } else if c == '>' {
        Some(TokenType::Sup)
    } else if c == '<' {
        Some(TokenType::Inf)
    } else if c == '\n' {
        Some(TokenType::NewLine)
    } else {
        None
    }
}

/// The cursor after skipping consecutive white space. Newline is not
/// skipped: it is itself a significant token.
pub open spec fn spec_skip_ws(s: Seq<char>, i: int) -> int
    decreases s.len() - i,
{
    if i < s.len() && whitespace(s[i]) && s[i] != '\n' {
        spec_skip_ws(s, i + 1)
    } else {
        i
    }
}

/// The cursor after a maximal run of ASCII digits.
pub open spec fn spec_scan_digits(s: Seq<char>, i: int) -> int
    decreases s.len() - i,
{
    if i < s.len() && is_digit(s[i]) {
        spec_scan_digits(s, i + 1)
    } else {
        i
    }
}

/// The cursor after a maximal run of alphabetic characters.
pub open spec fn spec_scan_alpha(s: Seq<char>, i: int) -> int
    decreases s.len() - i,
{
    if i < s.len() && alphabetic(s[i]) {
        spec_scan_alpha(s, i + 1)
    } else {
        i
    }
}

/// The kind an alphabetic run is classified to: a reserved-word hit
/// reclassifies it, a miss keeps it an identifier.
pub open spec fn keyword_or_identifier(w: Seq<char>) -> TokenType {
    match spec_keyword(w) {
        Some(kw) => kw,
        None => TokenType::Identifier,
    }
}

/// What one lexing step produces: the next token and the cursor after it,
/// or the character that matches no known class.
pub enum LexStep {
    Lexed { kind: TokenType, text: Seq<char>, next: int },
    Failed { offending: char },
}

/// The next token of `s` at cursor `i`: skip white space, try the
/// two-character operators, then the single-character symbol table, then a
/// digit run, then an alphabetic run; at the end of input, the end marker.
pub open spec fn spec_next_token(s: Seq<char>, i: int) -> LexStep {
    let j = spec_skip_ws(s, i);
    if j >= s.len() {
        LexStep::Lexed { kind: TokenType::EOF, text: Seq::empty(), next: j }
    } else {
        let c1 = s[j];
        if j + 1 < s.len() && two_char_kind(c1, s[j + 1]) is Some {
            LexStep::Lexed {
                kind: two_char_kind(c1, s[j + 1])->Some_0,
                text: s.subrange(j, j + 2),
                next: j + 2,
            }
        } else if single_char_kind(c1) is Some {
            LexStep::Lexed {
                kind: single_char_kind(c1)->Some_0,
                text: s.subrange(j, j + 1),
                next: j + 1,
            }
        } else if is_digit(c1) {
            LexStep::Lexed {
                kind: TokenType::Number,
                text: s.subrange(j, spec_scan_digits(s, j)),
                next: spec_scan_digits(s, j),
            }
        } else if alphabetic(c1) {
            LexStep::Lexed {
                kind: keyword_or_identifier(s.subrange(j, spec_scan_alpha(s, j))),
                text: s.subrange(j, spec_scan_alpha(s, j)),
                next: spec_scan_alpha(s, j),
            }
        } else {
            LexStep::Failed { offending: c1 }
        }
    }
}

proof fn lemma_skip_ws_bounds(s: Seq<char>, i: int)
    ensures
        i <= spec_skip_ws(s, i),
        i <= s.len() ==> spec_skip_ws(s, i) <= s.len(),
        !(spec_skip_ws(s, i) < s.len() && whitespace(s[spec_skip_ws(s, i)]) && s[spec_skip_ws(
            s,
            i,
        )] != '\n'),
    decreases s.len() - i,
{
    if i < s.len() && whitespace(s[i]) && s[i] != '\n' {
        lemma_skip_ws_bounds(s, i + 1);
    }
}

proof fn lemma_scan_digits_bounds(s: Seq<char>, i: int)
    ensures
        i <= spec_scan_digits(s, i),
        i <= s.len() ==> spec_scan_digits(s, i) <= s.len(),
    decreases s.len() - i,
{
    if i < s.len() && is_digit(s[i]) {
        lemma_scan_digits_bounds(s, i + 1);
    }
}

proof fn lemma_scan_alpha_bounds(s: Seq<char>, i: int)
    ensures
        i <= spec_scan_alpha(s, i),
        i <= s.len() ==> spec_scan_alpha(s, i) <= s.len(),
    decreases s.len() - i,
{
    if i < s.len() && alphabetic(s[i]) {
        lemma_scan_alpha_bounds(s, i + 1);
    }
}

/// The whole token sequence of `s` from cursor `i`: tokens in source
/// order, ended by exactly one end marker, or the first offending
/// character.
pub open spec fn spec_tokenize_from(s: Seq<char>, i: int) -> Result<Seq<TokenModel>, char>
    decreases s.len() - i,
        via spec_tokenize_from_dec
{
    match spec_next_token(s, i) {
        LexStep::Failed { offending } => Err(offending),
        LexStep::Lexed { kind, text, next } => {
            if kind == TokenType::EOF {
                Ok(seq![TokenModel { kind, text }])
            } else {
                match spec_tokenize_from(s, next) {
                    Ok(rest) => Ok(seq![TokenModel { kind, text }] + rest),
                    Err(c) => Err(c),
                }
            }
        },
    }
}

#[via_fn]
proof fn spec_tokenize_from_dec(s: Seq<char>, i: int) {
    lemma_skip_ws_bounds(s, i);
    let j = spec_skip_ws(s, i);
    lemma_scan_digits_bounds(s, j + 1);
    lemma_scan_alpha_bounds(s, j + 1);
}

/// The token sequence of a whole source text.
pub open spec fn spec_tokenize(s: Seq<char>) -> Result<Seq<TokenModel>, char> {
    spec_tokenize_from(s, 0)
}

/// A character the tokenizer recognizes: white space, a known symbol, an
/// ASCII digit, or an alphabetic character.
pub open spec fn recognized_char(c: char) -> bool {
    whitespace(c) || single_char_kind(c) is Some || is_digit(c) || alphabetic(c)
}

/// Law: the tokenizer is total on recognized input. On a source made of
/// white space, known symbols, digit runs and alphabetic runs, tokenizing
/// succeeds and yields a sequence that ends in exactly one end-of-input
/// token.
pub proof fn lemma_tokenizer_total(s: Seq<char>, i: int)
    requires
        0 <= i <= s.len(),
        forall|j: int| i <= j < s.len() ==> recognized_char(#[trigger] s[j]),
    ensures
        spec_tokenize_from(s, i) matches Ok(toks) && {
            &&& toks.len() >= 1
            &&& toks[toks.len() - 1].kind == TokenType::EOF
            &&& forall|k: int| 0 <= k < toks.len() - 1 ==> (#[trigger] toks[k].kind)
                != TokenType::EOF
        },
    decreases s.len() - i,
{
    lemma_skip_ws_bounds(s, i);
    let j = spec_skip_ws(s, i);
    if j < s.len() {
        let c1 = s[j];
        let step = spec_next_token(s, i);
        assert(recognized_char(c1));
        assert(!(whitespace(c1) && c1 != '\n'));
        if c1 == '\n' {
            assert(single_char_kind(c1) is Some);
        }
        assert(step matches LexStep::Lexed { kind, text, next } && kind != TokenType::EOF && j
            < next <= s.len()) by {
            if !(j + 1 < s.len() && two_char_kind(c1, s[j + 1]) is Some)
                && !(single_char_kind(c1) is Some) {
                if is_digit(c1) {
                    lemma_scan_digits_bounds(s, j + 1);
                } else {
                    lemma_scan_alpha_bounds(s, j + 1);
                }
            }
        }
        let next = step->Lexed_next;
        lemma_tokenizer_total(s, next);
        let kind = step->Lexed_kind;
        let text = step->Lexed_text;
        let rest = spec_tokenize_from(s, next)->Ok_0;
        let toks = spec_tokenize_from(s, i)->Ok_0;
        assert(toks == seq![TokenModel { kind, text }] + rest);
        assert(toks[toks.len() - 1] == rest[rest.len() - 1]);
        assert(forall|k: int|
            0 <= k < toks.len() - 1 ==> (#[trigger] toks[k].kind) != TokenType::EOF) by {
            assert(forall|k: int| 1 <= k < toks.len() ==> toks[k] == rest[k - 1]);
        }
    }
}

/// Law: longest match wins. On a significant character that starts a
/// known two-character operator, the tokenizer produces that operator as
/// one token and never its single-character prefix.
pub proof fn lemma_longest_match_priority(s: Seq<char>, i: int)
    requires
        0 <= i,
        i + 1 < s.len(),
        !(whitespace(s[i]) && s[i] != '\n'),
        two_char_kind(s[i], s[i + 1]) is Some,
    ensures
        spec_next_token(s, i) matches LexStep::Lexed { kind, text, next } && {
            &&& Some(kind) == two_char_kind(s[i], s[i + 1])
            &&& text == s.subrange(i, i + 2)
            &&& next == i + 2
        },
{
}

/// Law: keyword reclassification. On a significant alphabetic character
/// that opens no operator form, the tokenizer consumes the maximal
/// alphabetic run and classifies it through the reserved-word table: a
/// hit gives the keyword kind, a miss keeps the identifier kind, and the
/// token text is the run itself either way.
pub proof fn lemma_keyword_reclassification(s: Seq<char>, i: int)
    requires
        0 <= i < s.len(),
        !(whitespace(s[i]) && s[i] != '\n'),
        !(i + 1 < s.len() && two_char_kind(s[i], s[i + 1]) is Some),
        single_char_kind(s[i]) is None,
        !is_digit(s[i]),
        alphabetic(s[i]),
    ensures
        spec_next_token(s, i) matches LexStep::Lexed { kind, text, next } && {
            &&& next == spec_scan_alpha(s, i)
            &&& text == s.subrange(i, spec_scan_alpha(s, i))
            &&& kind == keyword_or_identifier(text)
        },
{
}

/// Law: whenever tokenizing succeeds, the token sequence is well formed:
/// never empty, and ended by exactly one end-of-input token. In
/// particular every successful tokenizer result is fit for the parser.
pub proof fn lemma_tokenize_ok_well_formed(s: Seq<char>, i: int)
    ensures
        spec_tokenize_from(s, i) matches Ok(toks) ==> crate::parser::wf_tokens(toks),
    decreases s.len() - i,
{
    lemma_skip_ws_bounds(s, i);
    let j = spec_skip_ws(s, i);
    if spec_tokenize_from(s, i) is Ok {
        let toks = spec_tokenize_from(s, i)->Ok_0;
        if j < s.len() {
            let step = spec_next_token(s, i);
            let next = step->Lexed_next;
            if !(j + 1 < s.len() && two_char_kind(s[j], s[j + 1]) is Some) && !(single_char_kind(
                s[j],
            ) is Some) {
                if is_digit(s[j]) {
                    lemma_scan_digits_bounds(s, j + 1);
                } else {
                    lemma_scan_alpha_bounds(s, j + 1);
                }
            }
            assert(j < next <= s.len());
            lemma_tokenize_ok_well_formed(s, next);
            let kind = step->Lexed_kind;
            let text = step->Lexed_text;
            let rest = spec_tokenize_from(s, next)->Ok_0;
            assert(toks == seq![TokenModel { kind, text }] + rest);
            assert(toks[toks.len() - 1] == rest[rest.len() - 1]);
            assert(forall|k: int|
                0 <= k < toks.len() - 1 ==> (#[trigger] toks[k].kind) != TokenType::EOF) by {
                assert(forall|k: int| 1 <= k < toks.len() ==> toks[k] == rest[k - 1]);
            }
        }
    }
}

/// The tokenizer: a character cursor over one source text.
pub struct Lexer {
    input: String,
    position: usize,
}

impl Lexer {
    /// The source text under the cursor, as a character sequence.
    pub closed spec fn src(self) -> Seq<char> {
        self.input@
    }

    /// The cursor: how many characters have been consumed.
    pub closed spec fn pos(self) -> int {
        self.position as int
    }

    /// Start a tokenizer at the beginning of a source text.
    pub fn new(input: String) -> (r: Lexer)
        ensures
            r.src() == input@,
            r.pos() == 0,
    {
        Lexer { input, position: 0 }
    }

    /// The current character, if the cursor has not passed the end.
    fn peek(&self) -> (r: Option<char>)
        ensures
            match r {
                Some(c) => self.pos() < self.src().len() && c == self.src()[self.pos()],
                None => self.pos() >= self.src().len(),
            },
    {
        if self.position < self.input.as_str().unicode_len() {
            Some(self.input.as_str().get_char(self.position))
        } else {
            None
        }
    }

    /// Advance the cursor to the next character.
    fn advance(&mut self)
        requires
            old(self).pos() < old(self).src().len(),
        ensures
            final(self).src() == old(self).src(),
            final(self).pos() == old(self).pos() + 1,
    {
        // The character count fits in usize and bounds the cursor, so the
        // step below cannot overflow.
        let n = self.input.as_str().unicode_len();
        self.position = self.position + 1;
    }

    /// Whether the cursor stands on skippable white space (newline is
    /// significant and never skipped).
    fn on_skippable_space(&self) -> (r: bool)
        ensures
            r == (self.pos() < self.src().len() && whitespace(self.src()[self.pos()])
                && self.src()[self.pos()] != '\n'),
    {
        match self.peek() {
            Some(c) => c.is_whitespace() && c != '\n',
            None => false,
        }
    }

    /// Skip consecutive white space, leaving the cursor on the first
    /// significant character.
    fn skip_whitespace(&mut self)
        ensures
            final(self).src() == old(self).src(),
            final(self).pos() == spec_skip_ws(old(self).src(), old(self).pos()),
    {
        while self.on_skippable_space()
            invariant
                self.src() == old(self).src(),
                old(self).pos() <= self.pos(),
                self.pos() <= self.src().len() || self.pos() == old(self).pos(),
                spec_skip_ws(self.src(), self.pos()) == spec_skip_ws(
                    old(self).src(),
                    old(self).pos(),
                ),
            decreases self.src().len() - self.pos(),
        {
            self.advance();
        }
    }

    /// Whether the character is an ASCII digit.
    fn is_digit_char(c: char) -> (r: bool)
        ensures
            r == is_digit(c),
    {
        let u = c as u32;
        48 <= u && u <= 57
    }

    /// Whether the cursor stands on an ASCII digit.
    fn on_digit(&self) -> (r: bool)
        ensures
            r == (self.pos() < self.src().len() && is_digit(self.src()[self.pos()])),
    {
        match self.peek() {
            Some(c) => Self::is_digit_char(c),
            None => false,
        }
    }

    /// Whether the cursor stands on an alphabetic character.
    fn on_alphabetic(&self) -> (r: bool)
        ensures
            r == (self.pos() < self.src().len() && alphabetic(self.src()[self.pos()])),
    {
        match self.peek() {
            Some(c) => c.is_alphabetic(),
            None => false,
        }
    }

    /// Consume a maximal run of ASCII digits as one number token whose
    /// text is the exact source substring.
    fn read_number(&mut self) -> (t: Token)
        requires
            old(self).pos() < old(self).src().len(),
            is_digit(old(self).src()[old(self).pos()]),
        ensures
            final(self).src() == old(self).src(),
            final(self).pos() == spec_scan_digits(old(self).src(), old(self).pos()),
            t@.kind == TokenType::Number,
            t@.text == old(self).src().subrange(old(self).pos(), final(self).pos()),
    {
        let start = self.position;
        while self.on_digit()
            invariant
                self.src() == old(self).src(),
                start == old(self).position,
                old(self).pos() <= self.pos() <= self.src().len(),
                spec_scan_digits(self.src(), self.pos()) == spec_scan_digits(
                    old(self).src(),
                    old(self).pos(),
                ),
            decreases self.src().len() - self.pos(),
        {
            self.advance();
        }
        let text = self.input.as_str().substring_char(start, self.position);
        Token::new(TokenType::Number, text.to_owned())
    }

    /// Consume a maximal alphabetic run, then look it up in the
    /// reserved-word table: a hit reclassifies the token to the keyword
    /// kind, a miss keeps it an identifier.
    fn read_identifier(&mut self) -> (t: Token)
        requires
            old(self).pos() < old(self).src().len(),
            alphabetic(old(self).src()[old(self).pos()]),
        ensures
            final(self).src() == old(self).src(),
            final(self).pos() == spec_scan_alpha(old(self).src(), old(self).pos()),
            t@.kind == keyword_or_identifier(
                old(self).src().subrange(old(self).pos(), final(self).pos()),
            ),
            t@.text == old(self).src().subrange(old(self).pos(), final(self).pos()),
    {
        let start = self.position;
        while self.on_alphabetic()
            invariant
                self.src() == old(self).src(),
                start == old(self).position,
                old(self).pos() <= self.pos() <= self.src().len(),
                spec_scan_alpha(self.src(), self.pos()) == spec_scan_alpha(
                    old(self).src(),
                    old(self).pos(),
                ),
            decreases self.src().len() - self.pos(),
        {
            self.advance();
        }
        let word = self.input.as_str().substring_char(start, self.position);
        let kind = match lookup_keyword(word) {
            Some(k) => k,
            None => TokenType::Identifier,
        };
        Token::new(kind, word.to_owned())
    }

    /// The two-character operator the pair spells, if any.
    fn two_char_token(c1: char, c2: char) -> (r: Option<TokenType>)
        ensures
            r == two_char_kind(c1, c2),
    {
        match (c1, c2) {
            ('=', '=') => Some(TokenType::EqualEqual),
            ('!', '=') => Some(TokenType::ExclEqual),
            ('<', '=') => Some(TokenType::InfEqual),
            ('>', '=') => Some(TokenType::SupEqual),
            ('&', '&') => Some(TokenType::AmperAmper),
            ('+', '=') => Some(TokenType::PlusEqual),
            ('-', '=') => Some(TokenType::MinusEqual),
            ('*', '=') => Some(TokenType::StarEqual),
            ('/', '=') => Some(TokenType::SlashEqual),
            (':', '=') => Some(TokenType::ColonEqual),
            ('-', '>') => Some(TokenType::Arrow),
            ('=', '>') => Some(TokenType::DoubleArrow),
            _ => None,
        }
    }

    /// The single-character symbol the character spells, if any.
    fn single_char_token(c: char) -> (r: Option<TokenType>)
        ensures
            r == single_char_kind(c),
    {
        match c {
            '?' => Some(TokenType::QuestionMark),
            '!' => Some(TokenType::ExclamationMark),
            '`' => Some(TokenType::BackQuote),
            '"' => Some(TokenType::DoubleQuote),
            '\'' => Some(TokenType::Quote),
            '^' => Some(TokenType::CircumFlex),
            '&' => Some(TokenType::Amper),
            '|' => Some(TokenType::Verbar),
            '%' => Some(TokenType::Percent),
            '~' => Some(TokenType::Tild),
            '+' => Some(TokenType::Plus),
            '-' => Some(TokenType::Minus),
            '*' => Some(TokenType::Star),
            '/' => Some(TokenType::Slash),
            '\\' => Some(TokenType::BackSlash),
            '(' => Some(TokenType::LParen),
            ')' => Some(TokenType::RParen),
            '[' => Some(TokenType::LBracket),
            ']' => Some(TokenType::RBracket),
            '{' => Some(TokenType::LBrace),
            '}' => Some(TokenType::RBrace),
            '@' => Some(TokenType::At),
            '.' => Some(TokenType::Dot),
            ':' => Some(TokenType::Colon),
            ';' => Some(TokenType::SemiColon),
            ',' => Some(TokenType::Comma),
            '#' => Some(TokenType::Hash),
            '=' => Some(TokenType::Equal),
            '>' => Some(TokenType::Sup),
            '<' => Some(TokenType::Inf),
            '\n' => Some(TokenType::NewLine),
            _ => None,
        }
    }

    /// Produce the next token at the cursor, or the lexical error naming
    /// the offending character. At the end of input the end marker is
    /// produced and the cursor does not advance further.
    pub fn next_token(&mut self) -> (r: Result<Token, ParseError>)
        ensures
            final(self).src() == old(self).src(),
            match spec_next_token(old(self).src(), old(self).pos()) {
                LexStep::Lexed { kind, text, next } => {
                    &&& r matches Ok(t) && t@.kind == kind && t@.text == text
                    &&& final(self).pos() == next
                },
                LexStep::Failed { offending } => r matches Err(e) && e == (ParseError::Lexical {
                    found: offending,
                }),
            },
    {
        self.skip_whitespace();
        let n = self.input.as_str().unicode_len();
        if self.position >= n {
            return Ok(Token::new(TokenType::EOF, String::new()));
        }
        if self.position < n - 1 {
            let c1 = self.input.as_str().get_char(self.position);
            let c2 = self.input.as_str().get_char(self.position + 1);
            if let Some(kind) = Self::two_char_token(c1, c2) {
                let text = self.input.as_str().substring_char(self.position, self.position + 2);
                let token = Token::new(kind, text.to_owned());
                self.position = self.position + 2;
                return Ok(token);
            }
        }
        let c1 = self.input.as_str().get_char(self.position);
        if let Some(kind) = Self::single_char_token(c1) {
            let text = self.input.as_str().substring_char(self.position, self.position + 1);
            let token = Token::new(kind, text.to_owned());
            self.position = self.position + 1;
            return Ok(token);
        }
        if self.on_digit() {
            return Ok(self.read_number());
        }
        if self.on_alphabetic() {
            return Ok(self.read_identifier());
        }
        Err(ParseError::Lexical { found: c1 })
    }

    /// Tokenize the remaining source: the ordered token sequence ending in
    /// exactly one end-of-input token, or the lexical error naming the
    /// first offending character.
    pub fn tokenize(&mut self) -> (r: Result<Vec<Token>, ParseError>)
        ensures
            final(self).src() == old(self).src(),
            match spec_tokenize_from(old(self).src(), old(self).pos()) {
                Ok(toks) => r matches Ok(v) && v.deep_view() == toks,
                Err(c) => r matches Err(e) && e == (ParseError::Lexical { found: c }),
            },
    {
        let ghost s0: Seq<char> = self.src();
        let ghost p0: int = self.pos();
        let mut tokens: Vec<Token> = Vec::new();
        loop
            invariant
                s0 == old(self).src(),
                p0 == old(self).pos(),
                self.src() == s0,
                0 <= self.pos() <= s0.len() || self.pos() == p0,
                match spec_tokenize_from(s0, self.pos()) {
                    Ok(rest) => spec_tokenize_from(s0, p0) == Ok::<_, char>(
                        tokens.deep_view() + rest,
                    ),
                    Err(c) => spec_tokenize_from(s0, p0) == Err::<Seq<TokenModel>, _>(c),
                },
            decreases s0.len() - self.pos() + 1,
        {
            let ghost p: int = self.pos();
            let t = match self.next_token() {
                Ok(t) => t,
                Err(e) => {
                    return Err(e);
                },
            };
            proof {
                lemma_skip_ws_bounds(s0, p);
                let j = spec_skip_ws(s0, p);
                lemma_scan_digits_bounds(s0, j + 1);
                lemma_scan_alpha_bounds(s0, j + 1);
            }
            let is_end = t.is(TokenType::EOF);
            let ghost tokens_before: Seq<TokenModel> = tokens.deep_view();
            tokens.push(t);
            proof {
                assert(tokens.deep_view() =~= tokens_before.push(t@));
                if !is_end {
                    match spec_tokenize_from(s0, self.pos()) {
                        Ok(rest2) => {
                            assert(spec_tokenize_from(s0, p) == Ok::<_, char>(
                                seq![t@] + rest2,
                            ));
                            assert(tokens_before.push(t@) + rest2 =~= tokens_before + (seq![t@]
                                + rest2));
                        },
                        Err(c) => {
                            assert(spec_tokenize_from(s0, p) == Err::<Seq<TokenModel>, _>(c));
                        },
                    }
                }
            }
            if is_end {
                proof {
                    assert(tokens.deep_view() =~= tokens_before + seq![t@]);
                }
                return Ok(tokens);
            }
        }
    }
}

} // verus!
