use script_front::error::ParseError;
use script_front::lexer::Lexer;
use script_front::token::{Token, TokenType};

fn tokenize(source: &str) -> Vec<Token> {
    let mut lexer = Lexer::new(source.to_string());
    lexer.tokenize().expect("tokenizing should succeed")
}

fn kinds(source: &str) -> Vec<TokenType> {
    tokenize(source).iter().map(|t| t.kind).collect()
}

#[test]
fn empty_source_yields_one_end_marker() {
    let toks = tokenize("");
    assert_eq!(toks.len(), 1);
    assert_eq!(toks[0].kind, TokenType::EOF);
    assert_eq!(toks[0].value, "");
}

#[test]
fn tokenizer_total_on_recognized_input() {
    // Digits, alphabetic runs, white space and known symbols: tokenizing
    // terminates with a sequence ending in exactly one end-of-input token.
    let toks = tokenize("abc 12 + (see) <= fn \n 42");
    assert_eq!(toks.last().unwrap().kind, TokenType::EOF);
    let eof_count = toks.iter().filter(|t| t.kind == TokenType::EOF).count();
    assert_eq!(eof_count, 1);
}

#[test]
fn longest_match_double_equal() {
    let toks = tokenize("==");
    assert_eq!(toks.len(), 2);
    assert_eq!(toks[0].kind, TokenType::EqualEqual);
    assert_eq!(toks[0].value, "==");
    assert_eq!(toks[1].kind, TokenType::EOF);
}

#[test]
fn longest_match_colon_equal() {
    let toks = tokenize(":=");
    assert_eq!(toks.len(), 2);
    assert_eq!(toks[0].kind, TokenType::ColonEqual);
    assert_eq!(toks[0].value, ":=");
}

#[test]
fn two_char_operators() {
    assert_eq!(
        kinds("!= <= >= && += -= *= /= -> =>"),
        vec![
            TokenType::ExclEqual,
            TokenType::InfEqual,
            TokenType::SupEqual,
            TokenType::AmperAmper,
            TokenType::PlusEqual,
            TokenType::MinusEqual,
            TokenType::StarEqual,
            TokenType::SlashEqual,
            TokenType::Arrow,
            TokenType::DoubleArrow,
            TokenType::EOF,
        ]
    );
}

#[test]
fn single_equal_at_end_of_input() {
    let toks = tokenize("=");
    assert_eq!(toks[0].kind, TokenType::Equal);
    assert_eq!(toks[0].value, "=");
}

#[test]
fn double_verbar_is_two_tokens() {
    // `||` is not in the two-character table; `or` is the logical keyword.
    assert_eq!(
        kinds("||"),
        vec![TokenType::Verbar, TokenType::Verbar, TokenType::EOF]
    );
}

#[test]
fn keyword_reclassification_if() {
    let toks = tokenize("if");
    assert_eq!(toks[0].kind, TokenType::IfConditional);
    assert_eq!(toks[0].value, "if");
}

#[test]
fn keyword_prefix_stays_identifier() {
    let toks = tokenize("iffy");
    assert_eq!(toks[0].kind, TokenType::Identifier);
    assert_eq!(toks[0].value, "iffy");
}

#[test]
fn logical_keywords_map_to_operator_kinds() {
    let toks = tokenize("and or not");
    assert_eq!(toks[0].kind, TokenType::AmperAmper);
    assert_eq!(toks[0].value, "and");
    assert_eq!(toks[1].kind, TokenType::VerbarVerbar);
    assert_eq!(toks[2].kind, TokenType::ExclamationMark);
}

#[test]
fn number_is_maximal_digit_run() {
    let toks = tokenize("123abc");
    assert_eq!(toks[0].kind, TokenType::Number);
    assert_eq!(toks[0].value, "123");
    assert_eq!(toks[1].kind, TokenType::Identifier);
    assert_eq!(toks[1].value, "abc");
}

#[test]
fn newline_is_a_significant_token() {
    assert_eq!(
        kinds("a\nb"),
        vec![
            TokenType::Identifier,
            TokenType::NewLine,
            TokenType::Identifier,
            TokenType::EOF,
        ]
    );
}

#[test]
fn other_whitespace_is_skipped() {
    assert_eq!(
        kinds("  a\t b "),
        vec![TokenType::Identifier, TokenType::Identifier, TokenType::EOF]
    );
}

#[test]
fn compound_statement_tokens() {
    assert_eq!(
        kinds("x+=1"),
        vec![
            TokenType::Identifier,
            TokenType::PlusEqual,
            TokenType::Number,
            TokenType::EOF,
        ]
    );
}

#[test]
fn dot_and_comma_are_symbols() {
    assert_eq!(
        kinds("a.b, c"),
        vec![
            TokenType::Identifier,
            TokenType::Dot,
            TokenType::Identifier,
            TokenType::Comma,
            TokenType::Identifier,
            TokenType::EOF,
        ]
    );
}

#[test]
fn unrecognized_character_is_a_lexical_error() {
    let mut lexer = Lexer::new("a $ b".to_string());
    let result = lexer.tokenize();
    assert_eq!(result, Err(ParseError::Lexical { found: '$' }));
}

#[test]
fn token_constructors_and_queries() {
    let t = Token::new(TokenType::Number, "42".to_string());
    assert!(t.is(TokenType::Number));
    assert!(!t.is(TokenType::Identifier));
    assert!(t.is_value(TokenType::Number, "42"));
    assert!(!t.is_value(TokenType::Number, "41"));
    assert!(!t.is_value(TokenType::Plus, "42"));
}

#[test]
fn identifiers_are_alphabetic_only() {
    // A digit ends an identifier run: this is a deliberate grammar
    // restriction, not an oversight.
    assert_eq!(
        kinds("a1b"),
        vec![
            TokenType::Identifier,
            TokenType::Number,
            TokenType::Identifier,
            TokenType::EOF,
        ]
    );
    let toks = tokenize("a1b");
    assert_eq!(toks[0].value, "a");
    assert_eq!(toks[1].value, "1");
    assert_eq!(toks[2].value, "b");
}

#[test]
fn numbers_are_integer_digit_runs_only() {
    // No decimals, no signs, no exponents: `1.5` is a number, a dot and
    // a number.
    assert_eq!(
        kinds("1.5"),
        vec![TokenType::Number, TokenType::Dot, TokenType::Number, TokenType::EOF]
    );
}
