use script_front::lookup::{
    get_binding_power, get_led_handler, get_nud_handler, get_stmt_handler, is_stmt_token,
    lookup_keyword, BindingPower, LedHandler, NudHandler, StmtHandler,
};
use script_front::token::TokenType;

#[test]
fn binding_power_table_entries() {
    assert_eq!(get_binding_power(TokenType::Equal), Some(BindingPower::Assignment));
    assert_eq!(get_binding_power(TokenType::AmperAmper), Some(BindingPower::Logical));
    assert_eq!(get_binding_power(TokenType::EqualEqual), Some(BindingPower::Relational));
    assert_eq!(get_binding_power(TokenType::Plus), Some(BindingPower::Additive));
    assert_eq!(get_binding_power(TokenType::Star), Some(BindingPower::Multiplicative));
    assert_eq!(get_binding_power(TokenType::QuestionMark), Some(BindingPower::Conditional));
    assert_eq!(get_binding_power(TokenType::Dot), Some(BindingPower::Member));
    assert_eq!(get_binding_power(TokenType::LParen), Some(BindingPower::Call));
    assert_eq!(get_binding_power(TokenType::Number), None);
    assert_eq!(get_binding_power(TokenType::NewLine), None);
}

#[test]
fn binding_power_order_matches_tiers() {
    assert!(BindingPower::Default.level() < BindingPower::Comma.level());
    assert!(BindingPower::Comma.level() < BindingPower::Assignment.level());
    assert!(BindingPower::Assignment.level() < BindingPower::Conditional.level());
    assert!(BindingPower::Conditional.level() < BindingPower::Logical.level());
    assert!(BindingPower::Logical.level() < BindingPower::Relational.level());
    assert!(BindingPower::Relational.level() < BindingPower::Additive.level());
    assert!(BindingPower::Additive.level() < BindingPower::Multiplicative.level());
    assert!(BindingPower::Multiplicative.level() < BindingPower::Unary.level());
    assert!(BindingPower::Unary.level() < BindingPower::Call.level());
    assert!(BindingPower::Call.level() < BindingPower::Member.level());
    assert!(BindingPower::Member.level() < BindingPower::Primary.level());
}

#[test]
fn nud_table_entries() {
    assert_eq!(get_nud_handler(TokenType::Identifier), Some(NudHandler::Primary));
    assert_eq!(get_nud_handler(TokenType::Number), Some(NudHandler::Primary));
    assert_eq!(get_nud_handler(TokenType::DoubleQuote), Some(NudHandler::Primary));
    assert_eq!(get_nud_handler(TokenType::LBracket), Some(NudHandler::Array));
    assert_eq!(get_nud_handler(TokenType::Minus), Some(NudHandler::Prefix));
    assert_eq!(get_nud_handler(TokenType::LParen), Some(NudHandler::Grouping));
    assert_eq!(get_nud_handler(TokenType::Lambda), Some(NudHandler::LambdaLiteral));
    assert_eq!(get_nud_handler(TokenType::Return), Some(NudHandler::ReturnExpr));
    assert_eq!(get_nud_handler(TokenType::RParen), None);
}

#[test]
fn led_table_entries() {
    assert_eq!(get_led_handler(TokenType::Equal), Some(LedHandler::Assignment));
    assert_eq!(get_led_handler(TokenType::Plus), Some(LedHandler::Binary));
    assert_eq!(get_led_handler(TokenType::QuestionMark), Some(LedHandler::Binary));
    assert_eq!(get_led_handler(TokenType::Dot), Some(LedHandler::Member));
    assert_eq!(get_led_handler(TokenType::LBracket), Some(LedHandler::Member));
    assert_eq!(get_led_handler(TokenType::LParen), Some(LedHandler::Call));
    assert_eq!(get_led_handler(TokenType::Number), None);
}

#[test]
fn stmt_table_entries() {
    assert_eq!(get_stmt_handler(TokenType::Func), Some(StmtHandler::Function));
    assert_eq!(get_stmt_handler(TokenType::IfConditional), Some(StmtHandler::If));
    assert_eq!(get_stmt_handler(TokenType::ForLoop), Some(StmtHandler::For));
    assert_eq!(get_stmt_handler(TokenType::WhileLoop), Some(StmtHandler::While));
    assert_eq!(get_stmt_handler(TokenType::QuestionMark), Some(StmtHandler::Variable));
    assert_eq!(get_stmt_handler(TokenType::ExclamationMark), Some(StmtHandler::Variable));
    assert_eq!(get_stmt_handler(TokenType::LBrace), Some(StmtHandler::Block));
    assert!(is_stmt_token(TokenType::Func));
    assert!(!is_stmt_token(TokenType::Plus));
}

#[test]
fn table_lookups_are_idempotent() {
    // Repeated lookups of the same token kind return identical results.
    let all = [
        TokenType::Number,
        TokenType::Identifier,
        TokenType::Equal,
        TokenType::Plus,
        TokenType::Star,
        TokenType::LParen,
        TokenType::LBracket,
        TokenType::Dot,
        TokenType::Func,
        TokenType::QuestionMark,
        TokenType::ExclamationMark,
        TokenType::EOF,
    ];
    for kind in all {
        assert_eq!(get_binding_power(kind), get_binding_power(kind));
        assert_eq!(get_nud_handler(kind), get_nud_handler(kind));
        assert_eq!(get_led_handler(kind), get_led_handler(kind));
        assert_eq!(get_stmt_handler(kind), get_stmt_handler(kind));
        assert_eq!(is_stmt_token(kind), is_stmt_token(kind));
    }
}

#[test]
fn keyword_table_entries() {
    assert_eq!(lookup_keyword("!"), Some(TokenType::ExclamationMark));
    assert_eq!(lookup_keyword("?"), Some(TokenType::QuestionMark));
    assert_eq!(lookup_keyword("as"), Some(TokenType::Alias));
    assert_eq!(lookup_keyword("raise"), Some(TokenType::Raise));
    assert_eq!(lookup_keyword("import"), Some(TokenType::Import));
    assert_eq!(lookup_keyword("from"), Some(TokenType::FromFile));
    assert_eq!(lookup_keyword("lambda"), Some(TokenType::Lambda));
    assert_eq!(lookup_keyword("export"), Some(TokenType::Exportable));
    assert_eq!(lookup_keyword("async"), Some(TokenType::Async));
    assert_eq!(lookup_keyword("func"), Some(TokenType::Func));
    assert_eq!(lookup_keyword("await"), Some(TokenType::Await));
    assert_eq!(lookup_keyword("return"), Some(TokenType::Return));
    assert_eq!(lookup_keyword("and"), Some(TokenType::AmperAmper));
    assert_eq!(lookup_keyword("or"), Some(TokenType::VerbarVerbar));
    assert_eq!(lookup_keyword("not"), Some(TokenType::ExclamationMark));
    assert_eq!(lookup_keyword("if"), Some(TokenType::IfConditional));
    assert_eq!(lookup_keyword("else"), Some(TokenType::ElseConditional));
    assert_eq!(lookup_keyword("for"), Some(TokenType::ForLoop));
    assert_eq!(lookup_keyword("while"), Some(TokenType::WhileLoop));
    assert_eq!(lookup_keyword("loop"), Some(TokenType::BreakLoop));
    assert_eq!(lookup_keyword("in"), Some(TokenType::InLoop));
    assert_eq!(lookup_keyword("break"), Some(TokenType::Break));
    assert_eq!(lookup_keyword("continue"), Some(TokenType::Continue));
    assert_eq!(lookup_keyword("iffy"), None);
    assert_eq!(lookup_keyword(""), None);
}
