//! The dispatch tables: pure, read-only mappings from token kind to
//! binding power, prefix handler, infix handler and statement handler.
//! Lookups return an explicit absent result; absence of a prefix or infix
//! handler where one is required is a parse error, while absence of a
//! statement handler selects the expression-statement fallback.

use vstd::prelude::*;
use crate::token::{TokenType, spec_keyword};

verus! {

/// Operator strength: a small totally-ordered enumeration used only for
/// magnitude comparison, never for arithmetic.
#[derive(Debug, Clone, Copy, PartialEq, Eq, Structural)]
pub enum BindingPower {
    Default,
    Comma,
    Assignment,
    Conditional,
    Logical,
    Relational,
    Additive,
    Multiplicative,
    Unary,
    Call,
    Member,
    Primary,
}

impl BindingPower {
    /// Position of this tier in the total order; two tiers compare as
    /// their positions do.
    pub open spec fn spec_level(self) -> nat {
        match self {
            BindingPower::Default => 0,
            BindingPower::Comma => 1,
            BindingPower::Assignment => 2,
            BindingPower::Conditional => 3,
            BindingPower::Logical => 4,
            BindingPower::Relational => 5,
            BindingPower::Additive => 6,
            BindingPower::Multiplicative => 7,
            BindingPower::Unary => 8,
            BindingPower::Call => 9,
            BindingPower::Member => 10,
            BindingPower::Primary => 11,
        }
    }

    /// The tier's position in the total order, for comparison.
    pub fn level(self) -> (r: u8)
        ensures
            r as nat == self.spec_level(),
    {
        match self {
            BindingPower::Default => 0,
            BindingPower::Comma => 1,
            BindingPower::Assignment => 2,
            BindingPower::Conditional => 3,
            BindingPower::Logical => 4,
            BindingPower::Relational => 5,
            BindingPower::Additive => 6,
            BindingPower::Multiplicative => 7,
            BindingPower::Unary => 8,
            BindingPower::Call => 9,
            BindingPower::Member => 10,
            BindingPower::Primary => 11,
        }
    }
}

/// The prefix-expression (nud) forms a token kind can open.
#[derive(Debug, Clone, Copy, PartialEq, Eq, Structural)]
pub enum NudHandler {
    Primary,
    Array,
    Prefix,
    Grouping,
    LambdaLiteral,
    ReturnExpr,
}

/// The infix-expression (led) forms a token kind can continue.
#[derive(Debug, Clone, Copy, PartialEq, Eq, Structural)]
pub enum LedHandler {
    Assignment,
    Binary,
    Member,
    Call,
}

/// The statement forms a token kind can begin.
#[derive(Debug, Clone, Copy, PartialEq, Eq, Structural)]
pub enum StmtHandler {
    Function,
    If,
    For,
    While,
    Variable,
    Block,
}

/// The binding-power table: the strength an infix occurrence of the token
/// kind binds with, or `None` when the kind never continues an expression.
pub open spec fn spec_binding_power(kind: TokenType) -> Option<BindingPower> {
    match kind {
        TokenType::Equal => Some(BindingPower::Assignment),
        TokenType::AmperAmper => Some(BindingPower::Logical),
        TokenType::VerbarVerbar => Some(BindingPower::Logical),
        TokenType::Inf => Some(BindingPower::Relational),
        TokenType::Sup => Some(BindingPower::Relational),
        TokenType::SupEqual => Some(BindingPower::Relational),
        TokenType::InfEqual => Some(BindingPower::Relational),
        TokenType::EqualEqual => Some(BindingPower::Relational),
        TokenType::ExclEqual => Some(BindingPower::Relational),
        TokenType::Minus => Some(BindingPower::Additive),
        TokenType::Plus => Some(BindingPower::Additive),
        TokenType::Star => Some(BindingPower::Multiplicative),
        TokenType::Slash => Some(BindingPower::Multiplicative),
        TokenType::Percent => Some(BindingPower::Multiplicative),
        TokenType::QuestionMark => Some(BindingPower::Conditional),
        TokenType::Dot => Some(BindingPower::Member),
        TokenType::LBracket => Some(BindingPower::Member),
        TokenType::LParen => Some(BindingPower::Call),
        _ => None,
    }
}

/// The prefix-handler table.
pub open spec fn spec_nud_handler(kind: TokenType) -> Option<NudHandler> {
    match kind {
        TokenType::Identifier => Some(NudHandler::Primary),
        TokenType::DoubleQuote => Some(NudHandler::Primary),
        TokenType::Number => Some(NudHandler::Primary),
        TokenType::LBracket => Some(NudHandler::Array),
        TokenType::Plus => Some(NudHandler::Prefix),
        TokenType::Minus => Some(NudHandler::Prefix),
        TokenType::ExclamationMark => Some(NudHandler::Prefix),
        TokenType::LParen => Some(NudHandler::Grouping),
        TokenType::Lambda => Some(NudHandler::LambdaLiteral),
        TokenType::Return => Some(NudHandler::ReturnExpr),
        _ => None,
    }
}

/// The infix-handler table.
pub open spec fn spec_led_handler(kind: TokenType) -> Option<LedHandler> {
    match kind {
        TokenType::Equal => Some(LedHandler::Assignment),
        TokenType::AmperAmper => Some(LedHandler::Binary),
        TokenType::VerbarVerbar => Some(LedHandler::Binary),
        TokenType::Inf => Some(LedHandler::Binary),
        TokenType::Sup => Some(LedHandler::Binary),
        TokenType::SupEqual => Some(LedHandler::Binary),
        TokenType::InfEqual => Some(LedHandler::Binary),
        TokenType::EqualEqual => Some(LedHandler::Binary),
        TokenType::ExclEqual => Some(LedHandler::Binary),
        TokenType::Minus => Some(LedHandler::Binary),
        TokenType::Plus => Some(LedHandler::Binary),
        TokenType::Star => Some(LedHandler::Binary),
        TokenType::Slash => Some(LedHandler::Binary),
        TokenType::Percent => Some(LedHandler::Binary),
        TokenType::QuestionMark => Some(LedHandler::Binary),
        TokenType::Dot => Some(LedHandler::Member),
        TokenType::LBracket => Some(LedHandler::Member),
        TokenType::LParen => Some(LedHandler::Call),
        _ => None,
    }
}

/// The statement-handler table.
pub open spec fn spec_stmt_handler(kind: TokenType) -> Option<StmtHandler> {
    match kind {
        TokenType::Func => Some(StmtHandler::Function),
        TokenType::IfConditional => Some(StmtHandler::If),
        TokenType::ForLoop => Some(StmtHandler::For),
        TokenType::WhileLoop => Some(StmtHandler::While),
        TokenType::QuestionMark => Some(StmtHandler::Variable),
        TokenType::ExclamationMark => Some(StmtHandler::Variable),
        TokenType::LBrace => Some(StmtHandler::Block),
        _ => None,
    }
}

/// The reserved-word kind a piece of text maps to, if any.
pub fn lookup_keyword(word: &str) -> (r: Option<TokenType>)
    ensures
        r == spec_keyword(word@),
{
    let w: String = word.to_owned();
    if w == "!".to_owned() {
        Some(TokenType::ExclamationMark)
    } else if w == "?".to_owned() {
        Some(TokenType::QuestionMark)
    } else if w == "as".to_owned() {
        Some(TokenType::Alias)
    } else if w == "raise".to_owned() {
        Some(TokenType::Raise)
    } else if w == "import".to_owned() {
        Some(TokenType::Import)
    } else if w == "from".to_owned() {
        Some(TokenType::FromFile)
    } else if w == "lambda".to_owned() {
        Some(TokenType::Lambda)
    } else if w == "export".to_owned() {
        Some(TokenType::Exportable)
    } else if w == "async".to_owned() {
        Some(TokenType::Async)
    } else if w == "func".to_owned() {
        Some(TokenType::Func)
    } else if w == "await".to_owned() {
        Some(TokenType::Await)
    } else if w == "return".to_owned() {
        Some(TokenType::Return)
    } else if w == "and".to_owned() {
        Some(TokenType::AmperAmper)
    } else if w == "or".to_owned() {
        Some(TokenType::VerbarVerbar)
    } else if w == "not".to_owned() {
        Some(TokenType::ExclamationMark)
    } else if w == "if".to_owned() {
        Some(TokenType::IfConditional)
    } else if w == "else".to_owned() {
        Some(TokenType::ElseConditional)
    } else if w == "for".to_owned() {
        Some(TokenType::ForLoop)
    } else if w == "while".to_owned() {
        Some(TokenType::WhileLoop)
    } else if w == "loop".to_owned() {
        Some(TokenType::BreakLoop)
    } else if w == "in".to_owned() {
        Some(TokenType::InLoop)
    } else if w == "break".to_owned() {
        Some(TokenType::Break)
    } else if w == "continue".to_owned() {
        Some(TokenType::Continue)
    } else {
        None
    }
}

/// Whether a dedicated statement handler is registered for the kind.
pub fn is_stmt_token(token_type: TokenType) -> (r: bool)
    ensures
        r == spec_stmt_handler(token_type) is Some,
{
    get_stmt_handler(token_type).is_some()
}

/// Look up the statement handler registered for the kind.
pub fn get_stmt_handler(token_type: TokenType) -> (r: Option<StmtHandler>)
    ensures
        r == spec_stmt_handler(token_type),
{
    match token_type {
        TokenType::Func => Some(StmtHandler::Function),
        TokenType::IfConditional => Some(StmtHandler::If),
        TokenType::ForLoop => Some(StmtHandler::For),
        TokenType::WhileLoop => Some(StmtHandler::While),
        TokenType::QuestionMark => Some(StmtHandler::Variable),
        TokenType::ExclamationMark => Some(StmtHandler::Variable),
        TokenType::LBrace => Some(StmtHandler::Block),
        _ => None,
    }
}

/// Look up the binding power registered for the kind.
pub fn get_binding_power(token_type: TokenType) -> (r: Option<BindingPower>)
    ensures
        r == spec_binding_power(token_type),
{
    match token_type {
        TokenType::Equal => Some(BindingPower::Assignment),
        TokenType::AmperAmper => Some(BindingPower::Logical),
        TokenType::VerbarVerbar => Some(BindingPower::Logical),
        TokenType::Inf => Some(BindingPower::Relational),
        TokenType::Sup => Some(BindingPower::Relational),
        TokenType::SupEqual => Some(BindingPower::Relational),
        TokenType::InfEqual => Some(BindingPower::Relational),
        TokenType::EqualEqual => Some(BindingPower::Relational),
        TokenType::ExclEqual => Some(BindingPower::Relational),
        TokenType::Minus => Some(BindingPower::Additive),
        TokenType::Plus => Some(BindingPower::Additive),
        TokenType::Star => Some(BindingPower::Multiplicative),
        TokenType::Slash => Some(BindingPower::Multiplicative),
        TokenType::Percent => Some(BindingPower::Multiplicative),
        TokenType::QuestionMark => Some(BindingPower::Conditional),
        TokenType::Dot => Some(BindingPower::Member),
        TokenType::LBracket => Some(BindingPower::Member),
        TokenType::LParen => Some(BindingPower::Call),
        _ => None,
    }
}

/// Look up the prefix handler registered for the kind.
pub fn get_nud_handler(token_type: TokenType) -> (r: Option<NudHandler>)
    ensures
        r == spec_nud_handler(token_type),
{
    match token_type {
        TokenType::Identifier => Some(NudHandler::Primary),
        TokenType::DoubleQuote => Some(NudHandler::Primary),
        TokenType::Number => Some(NudHandler::Primary),
        TokenType::LBracket => Some(NudHandler::Array),
        TokenType::Plus => Some(NudHandler::Prefix),
        TokenType::Minus => Some(NudHandler::Prefix),
        TokenType::ExclamationMark => Some(NudHandler::Prefix),
        TokenType::LParen => Some(NudHandler::Grouping),
        TokenType::Lambda => Some(NudHandler::LambdaLiteral),
        TokenType::Return => Some(NudHandler::ReturnExpr),
        _ => None,
    }
}

/// Look up the infix handler registered for the kind.
pub fn get_led_handler(token_type: TokenType) -> (r: Option<LedHandler>)
    ensures
        r == spec_led_handler(token_type),
{
    match token_type {
        TokenType::Equal => Some(LedHandler::Assignment),
        TokenType::AmperAmper => Some(LedHandler::Binary),
        TokenType::VerbarVerbar => Some(LedHandler::Binary),
        TokenType::Inf => Some(LedHandler::Binary),
        TokenType::Sup => Some(LedHandler::Binary),
        TokenType::SupEqual => Some(LedHandler::Binary),
        TokenType::InfEqual => Some(LedHandler::Binary),
        TokenType::EqualEqual => Some(LedHandler::Binary),
        TokenType::ExclEqual => Some(LedHandler::Binary),
        TokenType::Minus => Some(LedHandler::Binary),
        TokenType::Plus => Some(LedHandler::Binary),
        TokenType::Star => Some(LedHandler::Binary),
        TokenType::Slash => Some(LedHandler::Binary),
        TokenType::Percent => Some(LedHandler::Binary),
        TokenType::QuestionMark => Some(LedHandler::Binary),
        TokenType::Dot => Some(LedHandler::Member),
        TokenType::LBracket => Some(LedHandler::Member),
        TokenType::LParen => Some(LedHandler::Call),
        _ => None,
    }
}

/// Law: table lookups are idempotent. The lookup contracts pin every
/// result to a pure function of the token kind alone, so any two results
/// the contracts admit for the same kind — in particular the results of
/// any two calls, at any two times in a process — are equal.
pub proof fn lemma_table_lookups_idempotent(
    kind: TokenType,
    bp1: Option<BindingPower>,
    bp2: Option<BindingPower>,
    nud1: Option<NudHandler>,
    nud2: Option<NudHandler>,
    led1: Option<LedHandler>,
    led2: Option<LedHandler>,
    st1: Option<StmtHandler>,
    st2: Option<StmtHandler>,
)
    requires
        bp1 == spec_binding_power(kind),
        bp2 == spec_binding_power(kind),
        nud1 == spec_nud_handler(kind),
        nud2 == spec_nud_handler(kind),
        led1 == spec_led_handler(kind),
        led2 == spec_led_handler(kind),
        st1 == spec_stmt_handler(kind),
        st2 == spec_stmt_handler(kind),
    ensures
        bp1 == bp2,
        nud1 == nud2,
        led1 == led2,
        st1 == st2,
{
}

} // verus!
