use script_front::error::ParseError;
use script_front::expression_ast::{expect_expr, Expr, IfBranch};
use script_front::lexer::Lexer;
use script_front::lookup::BindingPower;
use script_front::parse_expression::parse_expr;
use script_front::parse_statement::{parse_stmt, parse_var};
use script_front::parser::{parse_source as parse_one_source, Parser};
use script_front::statement_ast::{expect_stmt, Arity, Stmt, Type};
use script_front::token::{Token, TokenType};

fn parser_for(source: &str) -> Parser {
    let mut lexer = Lexer::new(source.to_string());
    let tokens = lexer.tokenize().expect("tokenizing should succeed");
    Parser::new(tokens)
}

fn parse_source(source: &str) -> Result<Stmt, ParseError> {
    parser_for(source).parse()
}

fn number(text: &str) -> Expr {
    Expr::Number { value: text.to_string() }
}

fn ident(name: &str) -> Expr {
    Expr::Identifier { value: name.to_string() }
}

fn binary(left: Expr, kind: TokenType, text: &str, right: Expr) -> Expr {
    Expr::BinaryExpr {
        left: Box::new(left),
        operator: Token::new(kind, text.to_string()),
        right: Box::new(right),
    }
}

fn program(body: Vec<Stmt>) -> Stmt {
    Stmt::Program { body }
}

fn expr_stmt(e: Expr) -> Stmt {
    Stmt::Expression { expression: Box::new(e) }
}

#[test]
fn multiplication_binds_tighter_than_addition() {
    let tree = parse_source("1 + 2 * 3").unwrap();
    let expected = program(vec![expr_stmt(binary(
        number("1"),
        TokenType::Plus,
        "+",
        binary(number("2"), TokenType::Star, "*", number("3")),
    ))]);
    assert_eq!(tree, expected);
}

#[test]
fn assignment_is_right_associative() {
    let tree = parse_source("a = b = 1").unwrap();
    let expected = program(vec![expr_stmt(Expr::AssignmentExpr {
        assigne: Box::new(ident("a")),
        value: Box::new(Expr::AssignmentExpr {
            assigne: Box::new(ident("b")),
            value: Box::new(number("1")),
        }),
    })]);
    assert_eq!(tree, expected);
}

#[test]
fn expression_statement_accepts_end_of_input() {
    assert!(parse_source("1 + 2").is_ok());
}

#[test]
fn expression_statement_requires_newline_or_end() {
    let result = parse_source("1 + 2 3");
    assert_eq!(
        result,
        Err(ParseError::Expectation {
            expected: TokenType::NewLine,
            found: TokenType::Number,
            message: None,
        })
    );
}

#[test]
fn constant_declaration_shape() {
    let tree = parse_source("!x: number = 5").unwrap();
    let expected = program(vec![Stmt::VariableDecl {
        name: "x".to_string(),
        value: Box::new(number("5")),
        constant: true,
        explicit_type: Type::Number,
    }]);
    assert_eq!(tree, expected);
}

#[test]
fn mutable_declaration_with_custom_type() {
    let tree = parse_source("?p: point = q").unwrap();
    let expected = program(vec![Stmt::VariableDecl {
        name: "p".to_string(),
        value: Box::new(ident("q")),
        constant: false,
        explicit_type: Type::Custom("point".to_string()),
    }]);
    assert_eq!(tree, expected);
}

#[test]
fn declaration_without_identifier_reports_its_message() {
    let result = parse_source("!5: number = 1");
    assert_eq!(
        result,
        Err(ParseError::Expectation {
            expected: TokenType::Identifier,
            found: TokenType::Number,
            message: Some("Expected Identifier".to_string()),
        })
    );
}

#[test]
fn declaration_without_equals_reports_its_message() {
    let result = parse_source("!x: number 5");
    assert_eq!(
        result,
        Err(ParseError::Expectation {
            expected: TokenType::Equal,
            found: TokenType::Number,
            message: Some("Expected an equals sign".to_string()),
        })
    );
}

#[test]
fn grouping_overrides_precedence() {
    let tree = parse_source("(1 + 2) * 3").unwrap();
    let expected = program(vec![expr_stmt(binary(
        binary(number("1"), TokenType::Plus, "+", number("2")),
        TokenType::Star,
        "*",
        number("3"),
    ))]);
    assert_eq!(tree, expected);
}

#[test]
fn unclosed_group_is_an_expectation_error() {
    let result = parse_source("(1");
    assert_eq!(
        result,
        Err(ParseError::Expectation {
            expected: TokenType::RParen,
            found: TokenType::EOF,
            message: None,
        })
    );
}

#[test]
fn unary_minus_parses_at_unary_tier() {
    let tree = parse_source("-5").unwrap();
    let expected = program(vec![expr_stmt(Expr::UnaryExpr {
        operator: Token::new(TokenType::Minus, "-".to_string()),
        right: Box::new(number("5")),
    })]);
    assert_eq!(tree, expected);
}

#[test]
fn missing_prefix_handler_is_a_parse_error() {
    let result = parse_source("*");
    assert_eq!(result, Err(ParseError::MissingHandler { kind: TokenType::Star }));
}

#[test]
fn list_literal_records_elements_and_length() {
    let tree = parse_source("[1, 2]").unwrap();
    let expected = program(vec![expr_stmt(Expr::List {
        value: vec![number("1"), number("2")],
        length: 2,
    })]);
    assert_eq!(tree, expected);
}

#[test]
fn call_with_arguments() {
    let tree = parse_source("f(1, x)").unwrap();
    let expected = program(vec![expr_stmt(Expr::CallExpr {
        args: vec![number("1"), ident("x")],
        caller: Box::new(ident("f")),
    })]);
    assert_eq!(tree, expected);
}

#[test]
fn member_and_computed_access() {
    let tree = parse_source("a.b").unwrap();
    let expected = program(vec![expr_stmt(Expr::MembreExpr {
        member: Box::new(ident("a")),
        property: Box::new(ident("b")),
    })]);
    assert_eq!(tree, expected);

    let tree = parse_source("a[1]").unwrap();
    let expected = program(vec![expr_stmt(Expr::ComputedExpr {
        member: Box::new(ident("a")),
        property: Box::new(number("1")),
    })]);
    assert_eq!(tree, expected);
}

#[test]
fn logical_keyword_operator_keeps_source_text() {
    let tree = parse_source("a and b").unwrap();
    let expected = program(vec![expr_stmt(binary(
        ident("a"),
        TokenType::AmperAmper,
        "and",
        ident("b"),
    ))]);
    assert_eq!(tree, expected);
}

#[test]
fn two_statements_separated_by_newline() {
    let tree = parse_source("1 + 2\n3 * 4").unwrap();
    let expected = program(vec![
        expr_stmt(binary(number("1"), TokenType::Plus, "+", number("2"))),
        expr_stmt(binary(number("3"), TokenType::Star, "*", number("4"))),
    ]);
    assert_eq!(tree, expected);
}

#[test]
fn function_declaration_full_shape() {
    let tree = parse_source("func f|a: number, b: string): number {\n1\n}").unwrap();
    let expected = program(vec![Stmt::FunctionDecl {
        name: "f".to_string(),
        parameters: vec![
            Stmt::Parameter { name: "a".to_string(), param_type: Type::Number },
            Stmt::Parameter { name: "b".to_string(), param_type: Type::Text },
        ],
        return_type: Some(Type::Number),
        body: Some(vec![expr_stmt(number("1"))]),
    }]);
    assert_eq!(tree, expected);
}

#[test]
fn function_declaration_without_return_type() {
    let tree = parse_source("func g|) {\n}").unwrap();
    let expected = program(vec![Stmt::FunctionDecl {
        name: "g".to_string(),
        parameters: vec![],
        return_type: None,
        body: Some(vec![]),
    }]);
    assert_eq!(tree, expected);
}

#[test]
fn parameter_without_type_is_a_malformed_declaration() {
    let result = parse_source("func f|x) {\n}");
    assert_eq!(
        result,
        Err(ParseError::MalformedDeclaration {
            message: "Expected type description".to_string(),
        })
    );
}

#[test]
fn block_statement_at_top_level() {
    let tree = parse_source("{\n1\n}").unwrap();
    let expected = program(vec![Stmt::Block { body: vec![expr_stmt(number("1"))] }]);
    assert_eq!(tree, expected);
}

#[test]
fn unclosed_block_is_an_expectation_error() {
    let result = parse_source("{\n1\n");
    assert_eq!(
        result,
        Err(ParseError::Expectation {
            expected: TokenType::RBrace,
            found: TokenType::EOF,
            message: None,
        })
    );
}

#[test]
fn while_statement_builds_while_expression() {
    let tree = parse_source("while a {\n1\n}").unwrap();
    let expected = program(vec![expr_stmt(Expr::WhileExpr {
        condition: Box::new(ident("a")),
        body: vec![expr_stmt(number("1"))],
    })]);
    assert_eq!(tree, expected);
}

#[test]
fn if_else_chain_builds_branches_and_else_body() {
    let tree = parse_source("if a {\n1\n} else if b {\n2\n} else {\n3\n}").unwrap();
    let expected = program(vec![expr_stmt(Expr::IfExpr {
        branches: vec![
            IfBranch { condition: ident("a"), body: vec![expr_stmt(number("1"))] },
            IfBranch { condition: ident("b"), body: vec![expr_stmt(number("2"))] },
        ],
        else_body: vec![expr_stmt(number("3"))],
    })]);
    assert_eq!(tree, expected);
}

#[test]
fn for_statement_builds_for_expression() {
    let tree = parse_source("for x in xs {\n}").unwrap();
    let expected = program(vec![expr_stmt(Expr::ForExpr {
        var_name: Box::new(ident("x")),
        sequence: Box::new(ident("xs")),
        body: vec![],
    })]);
    assert_eq!(tree, expected);
}

#[test]
fn lambda_literal_as_initializer() {
    let tree = parse_source("!f: any = lambda |x: number) x + 1").unwrap();
    let expected = program(vec![Stmt::VariableDecl {
        name: "f".to_string(),
        value: Box::new(Expr::Lambda {
            parameters: vec![Stmt::Parameter {
                name: "x".to_string(),
                param_type: Type::Number,
            }],
            body: Box::new(binary(ident("x"), TokenType::Plus, "+", number("1"))),
        }),
        constant: true,
        explicit_type: Type::Any,
    }]);
    assert_eq!(tree, expected);
}

#[test]
fn return_wraps_the_following_expression() {
    let tree = parse_source("return 5").unwrap();
    let expected = program(vec![expr_stmt(Expr::Return { value: Box::new(number("5")) })]);
    assert_eq!(tree, expected);
}

#[test]
fn question_mark_as_infix_parses_as_binary() {
    let tree = parse_source("a ? b").unwrap();
    let expected = program(vec![expr_stmt(binary(
        ident("a"),
        TokenType::QuestionMark,
        "?",
        ident("b"),
    ))]);
    assert_eq!(tree, expected);
}

#[test]
fn parse_expr_can_be_driven_directly() {
    let mut parser = parser_for("1 + 2 * 3");
    let expr = parse_expr(&mut parser, BindingPower::Default).unwrap();
    assert_eq!(
        expr,
        binary(
            number("1"),
            TokenType::Plus,
            "+",
            binary(number("2"), TokenType::Star, "*", number("3")),
        )
    );
}

#[test]
fn parse_var_can_be_driven_directly() {
    let mut parser = parser_for("!x: boolean = y");
    let decl = parse_var(&mut parser).unwrap();
    assert_eq!(
        decl,
        Stmt::VariableDecl {
            name: "x".to_string(),
            value: Box::new(ident("y")),
            constant: true,
            explicit_type: Type::Boolean,
        }
    );
}

#[test]
fn parse_stmt_falls_back_to_expression_statement() {
    let mut parser = parser_for("42");
    let stmt = parse_stmt(&mut parser).unwrap();
    assert_eq!(stmt, expr_stmt(number("42")));
}

#[test]
fn parser_cursor_primitives() {
    let mut parser = parser_for("a + b");
    assert!(parser.has_token());
    assert_eq!(parser.current_tokenkind(), TokenType::Identifier);
    assert_eq!(parser.current_token().value, "a");
    assert!(parser.is_one_of_many(vec![TokenType::Identifier, TokenType::Number]));
    assert!(!parser.is_one_of_many(vec![TokenType::Plus]));
    let first = parser.advance();
    assert_eq!(first.value, "a");
    assert_eq!(parser.current_tokenkind(), TokenType::Plus);
    let op = parser.expect(TokenType::Plus).unwrap();
    assert_eq!(op.value, "+");
    let err = parser.expect(TokenType::Plus).unwrap_err();
    assert_eq!(
        err,
        ParseError::Expectation {
            expected: TokenType::Plus,
            found: TokenType::Identifier,
            message: None,
        }
    );
}

#[test]
fn expect_error_carries_the_custom_message() {
    let mut parser = parser_for("1");
    let err = parser
        .expect_error(TokenType::Identifier, Some("name needed".to_string()))
        .unwrap_err();
    assert_eq!(
        err,
        ParseError::Expectation {
            expected: TokenType::Identifier,
            found: TokenType::Number,
            message: Some("name needed".to_string()),
        }
    );
}

#[test]
fn clean_newline_skips_newline_runs() {
    let mut parser = parser_for("\n\n\nx");
    parser.clean_newline();
    assert_eq!(parser.current_tokenkind(), TokenType::Identifier);
}

#[test]
fn throw_builds_a_malformed_declaration_error() {
    let parser = parser_for("x");
    assert_eq!(
        parser.throw("bad shape"),
        ParseError::MalformedDeclaration { message: "bad shape".to_string() }
    );
}

#[test]
fn program_node_helpers() {
    let mut prog = Stmt::init_program();
    assert_eq!(prog, Stmt::Program { body: vec![] });
    assert_eq!(prog.push_to_program(expr_stmt(number("1"))), Ok(()));
    assert_eq!(prog, Stmt::Program { body: vec![expr_stmt(number("1"))] });
    let mut not_prog = Stmt::new_block(vec![]);
    assert!(not_prog.push_to_program(expr_stmt(number("2"))).is_err());
    assert_eq!(Stmt::new_program(vec![]), Stmt::Program { body: vec![] });
}

#[test]
fn block_body_extraction() {
    let block = Stmt::new_block(vec![expr_stmt(number("7"))]);
    assert_eq!(block.extractblock_body(), Some(&vec![expr_stmt(number("7"))]));
    let other = expr_stmt(number("7"));
    assert_eq!(other.extractblock_body(), None);
}

#[test]
fn node_constructors() {
    assert_eq!(
        Expr::new_assignment(ident("a"), number("1")),
        Expr::AssignmentExpr { assigne: Box::new(ident("a")), value: Box::new(number("1")) }
    );
    assert_eq!(
        Expr::new_binary(number("1"), Token::new(TokenType::Plus, "+".to_string()), number("2")),
        binary(number("1"), TokenType::Plus, "+", number("2"))
    );
    assert_eq!(Expr::new_boolean(true), Expr::Boolean { value: true });
    assert_eq!(
        Stmt::new_parameter("n".to_string(), Type::Number),
        Stmt::Parameter { name: "n".to_string(), param_type: Type::Number }
    );
    assert_eq!(expect_expr(number("3")), number("3"));
    assert_eq!(expect_stmt(expr_stmt(number("3"))), expr_stmt(number("3")));
    assert_eq!(Arity::Exact(2), Arity::Exact(2));
    assert_ne!(Arity::Exact(2), Arity::Range(1, 2));
}

#[test]
fn source_to_tree_in_one_call() {
    let tree = parse_one_source("!x: number = 1 + 2".to_string()).unwrap();
    let expected = program(vec![Stmt::VariableDecl {
        name: "x".to_string(),
        value: Box::new(binary(number("1"), TokenType::Plus, "+", number("2"))),
        constant: true,
        explicit_type: Type::Number,
    }]);
    assert_eq!(tree, expected);
    assert_eq!(
        parse_one_source("a $ b".to_string()),
        Err(ParseError::Lexical { found: '$' })
    );
}

#[test]
fn empty_source_parses_to_empty_program() {
    let tree = parse_source("").unwrap();
    assert_eq!(tree, program(vec![]));
}

#[test]
fn trailing_newlines_are_skipped() {
    let tree = parse_source("1\n\n\n").unwrap();
    assert_eq!(tree, program(vec![expr_stmt(number("1"))]));
}

#[test]
fn trailing_commas_are_tolerated() {
    let tree = parse_source("[1, 2,]").unwrap();
    let expected = program(vec![expr_stmt(Expr::List {
        value: vec![number("1"), number("2")],
        length: 2,
    })]);
    assert_eq!(tree, expected);

    let tree = parse_source("f(1,)").unwrap();
    let expected = program(vec![expr_stmt(Expr::CallExpr {
        args: vec![number("1")],
        caller: Box::new(ident("f")),
    })]);
    assert_eq!(tree, expected);

    let tree = parse_source("func f|a: number,) {\n}").unwrap();
    let expected = program(vec![Stmt::FunctionDecl {
        name: "f".to_string(),
        parameters: vec![Stmt::Parameter { name: "a".to_string(), param_type: Type::Number }],
        return_type: None,
        body: Some(vec![]),
    }]);
    assert_eq!(tree, expected);
}

#[test]
fn empty_list_and_call() {
    let tree = parse_source("f()").unwrap();
    let expected = program(vec![expr_stmt(Expr::CallExpr {
        args: vec![],
        caller: Box::new(ident("f")),
    })]);
    assert_eq!(tree, expected);

    let tree = parse_source("[]").unwrap();
    let expected = program(vec![expr_stmt(Expr::List { value: vec![], length: 0 })]);
    assert_eq!(tree, expected);
}
