//! The statement parser: recursive descent through the statement table,
//! falling back to expression statements. Each function is proved to
//! return exactly what the grammar specification says.

use vstd::prelude::*;
use crate::parser::Parser;
use crate::token::TokenType;
use crate::lookup::{BindingPower, StmtHandler, get_stmt_handler};
use crate::expression_ast::Expr;
use crate::statement_ast::{Stmt, StmtModel, Type, model_stmts};
use crate::expression_ast::{IfBranch, model_branches};
use crate::error::ParseError;
use crate::grammar::{
    spec_parse_block, spec_parse_block_items, spec_parse_expr_stmt, spec_parse_for,
    spec_parse_funct, spec_parse_if, spec_parse_if_chain, spec_parse_params, spec_parse_stmt,
    spec_parse_type, spec_parse_var, spec_parse_while,
};
use crate::parse_expression::parse_expr;

verus! {

broadcast use vstd::std_specs::control_flow::group_control_flow_axioms;

/// Parse one statement: dispatch through the statement table, or fall
/// back to an expression statement.
pub fn parse_stmt(parser: &mut Parser) -> (r: Result<Stmt, ParseError>)
    requires
        old(parser).wf(),
    ensures
        final(parser).wf(),
        final(parser).toks() == old(parser).toks(),
        match spec_parse_stmt(old(parser).toks(), old(parser).at()) {
            Ok((m, j)) => {
                &&& r matches Ok(s) && s.model() == m
                &&& final(parser).at() == j
                &&& old(parser).at() < j
            },
            Err(em) => r matches Err(e) && e.model() == em,
        },
    decreases old(parser).toks().len() - old(parser).at(), 8int,
{
    match get_stmt_handler(parser.current_tokenkind()) {
        Some(StmtHandler::Function) => parse_funct(parser),
        Some(StmtHandler::If) => parse_if_stmt(parser),
        Some(StmtHandler::For) => parse_for_stmt(parser),
        Some(StmtHandler::While) => parse_while_stmt(parser),
        Some(StmtHandler::Variable) => parse_var(parser),
        Some(StmtHandler::Block) => parse_block(parser),
        None => parse_expr_stmt(parser),
    }
}

/// Parse a bare expression as a statement; the next token must then be
/// a newline or the end of input, the grammar's statement separator.
pub fn parse_expr_stmt(parser: &mut Parser) -> (r: Result<Stmt, ParseError>)
    requires
        old(parser).wf(),
    ensures
        final(parser).wf(),
        final(parser).toks() == old(parser).toks(),
        match spec_parse_expr_stmt(old(parser).toks(), old(parser).at()) {
            Ok((m, j)) => {
                &&& r matches Ok(s) && s.model() == m
                &&& final(parser).at() == j
                &&& old(parser).at() < j
            },
            Err(em) => r matches Err(e) && e.model() == em,
        },
    decreases old(parser).toks().len() - old(parser).at(), 7int,
{
    let expr = match parse_expr(parser, BindingPower::Default) {
        Ok(e) => e,
        Err(e) => {
            return Err(e);
        },
    };
    let k = parser.current_tokenkind();
    if k == TokenType::NewLine || k == TokenType::EOF {
        Ok(Stmt::new_expression(expr))
    } else {
        Err(ParseError::Expectation { expected: TokenType::NewLine, found: k, message: None })
    }
}

/// Parse a brace-delimited block of statements.
pub fn parse_block(parser: &mut Parser) -> (r: Result<Stmt, ParseError>)
    requires
        old(parser).wf(),
    ensures
        final(parser).wf(),
        final(parser).toks() == old(parser).toks(),
        match spec_parse_block(old(parser).toks(), old(parser).at()) {
            Ok((m, j)) => {
                &&& r matches Ok(s) && s.model() == m
                &&& final(parser).at() == j
                &&& old(parser).at() < j
            },
            Err(em) => r matches Err(e) && e.model() == em,
        },
    decreases old(parser).toks().len() - old(parser).at(), 6int,
{
    match parser.expect(TokenType::LBrace) {
        Ok(_) => {},
        Err(e) => {
            return Err(e);
        },
    }
    let body = match parse_block_items(parser) {
        Ok(v) => v,
        Err(e) => {
            return Err(e);
        },
    };
    Ok(Stmt::new_block(body))
}

/// The statements of a block, up to and including the closing brace,
/// with the newline runs between them skipped.
fn parse_block_items(parser: &mut Parser) -> (r: Result<Vec<Stmt>, ParseError>)
    requires
        old(parser).wf(),
    ensures
        final(parser).wf(),
        final(parser).toks() == old(parser).toks(),
        match spec_parse_block_items(old(parser).toks(), old(parser).at()) {
            Ok((items, j)) => {
                &&& r matches Ok(v) && model_stmts(v@) == items
                &&& final(parser).at() == j
                &&& old(parser).at() < j
            },
            Err(em) => r matches Err(e) && e.model() == em,
        },
    decreases old(parser).toks().len() - old(parser).at(), 9int,
{
    parser.clean_newline();
    if parser.current_tokenkind() == TokenType::RBrace {
        parser.advance();
        return Ok(Vec::new());
    }
    if !parser.has_token() {
        return Err(
            ParseError::Expectation {
                expected: TokenType::RBrace,
                found: TokenType::EOF,
                message: None,
            },
        );
    }
    let s = match parse_stmt(parser) {
        Ok(s) => s,
        Err(e) => {
            return Err(e);
        },
    };
    let mut rest = match parse_block_items(parser) {
        Ok(v) => v,
        Err(e2) => {
            return Err(e2);
        },
    };
    let ghost r0: Seq<Stmt> = rest@;
    let ghost sm: StmtModel = s.model();
    rest.insert(0, s);
    proof {
        assert(rest@ =~= seq![rest@[0]] + r0);
        assert((seq![rest@[0]] + r0).drop_first() =~= r0);
        assert(model_stmts(rest@) =~= seq![sm] + model_stmts(r0));
    }
    Ok(rest)
}

/// Parse a variable declaration: a constant or mutable marker, a name,
/// `:`, a declared type, `=`, and an initializer at the assignment tier.
pub fn parse_var(parser: &mut Parser) -> (r: Result<Stmt, ParseError>)
    requires
        old(parser).wf(),
    ensures
        final(parser).wf(),
        final(parser).toks() == old(parser).toks(),
        match spec_parse_var(old(parser).toks(), old(parser).at()) {
            Ok((m, j)) => {
                &&& r matches Ok(s) && s.model() == m
                &&& final(parser).at() == j
                &&& old(parser).at() < j
            },
            Err(em) => r matches Err(e) && e.model() == em,
        },
    decreases old(parser).toks().len() - old(parser).at(), 7int,
{
    let constant = parser.current_tokenkind() == TokenType::ExclamationMark;
    if !parser.has_token() {
        return Err(
            ParseError::Expectation {
                expected: TokenType::Identifier,
                found: TokenType::EOF,
                message: Some("Expected Identifier".to_owned()),
            },
        );
    }
    parser.advance();
    let name = match parser.expect_error(
        TokenType::Identifier,
        Some("Expected Identifier".to_owned()),
    ) {
        Ok(t) => t,
        Err(e) => {
            return Err(e);
        },
    };
    match parser.expect(TokenType::Colon) {
        Ok(_) => {},
        Err(e) => {
            return Err(e);
        },
    }
    let explicite_type = match parse_type(parser) {
        Ok(t) => t,
        Err(e) => {
            return Err(e);
        },
    };
    match parser.expect_error(TokenType::Equal, Some("Expected an equals sign".to_owned())) {
        Ok(_) => {},
        Err(e) => {
            return Err(e);
        },
    }
    let value = match parse_expr(parser, BindingPower::Assignment) {
        Ok(e) => e,
        Err(e) => {
            return Err(e);
        },
    };
    Ok(Stmt::new_variable_decl(name.value, value, constant, explicite_type))
}

/// Parse a function declaration: keyword, name, `|`-opened parameter
/// list, optional `:`-introduced return type, and a block body.
pub fn parse_funct(parser: &mut Parser) -> (r: Result<Stmt, ParseError>)
    requires
        old(parser).wf(),
    ensures
        final(parser).wf(),
        final(parser).toks() == old(parser).toks(),
        match spec_parse_funct(old(parser).toks(), old(parser).at()) {
            Ok((m, j)) => {
                &&& r matches Ok(s) && s.model() == m
                &&& final(parser).at() == j
                &&& old(parser).at() < j
            },
            Err(em) => r matches Err(e) && e.model() == em,
        },
    decreases old(parser).toks().len() - old(parser).at(), 7int,
{
    if !parser.has_token() {
        return Err(
            ParseError::Expectation {
                expected: TokenType::Identifier,
                found: TokenType::EOF,
                message: Some("Expect an identifier".to_owned()),
            },
        );
    }
    parser.advance();
    let name = match parser.expect_error(
        TokenType::Identifier,
        Some("Expect an identifier".to_owned()),
    ) {
        Ok(t) => t,
        Err(e) => {
            return Err(e);
        },
    };
    match parser.expect(TokenType::Verbar) {
        Ok(_) => {},
        Err(e) => {
            return Err(e);
        },
    }
    let param = match parse_parameter(parser) {
        Ok(v) => v,
        Err(e) => {
            return Err(e);
        },
    };
    let retype: Option<Type> = if parser.current_tokenkind() == TokenType::Colon {
        parser.advance();
        match parse_type(parser) {
            Ok(t) => Some(t),
            Err(e) => {
                return Err(e);
            },
        }
    } else {
        None
    };
    let block = match parse_block(parser) {
        Ok(b) => b,
        Err(e) => {
            return Err(e);
        },
    };
    let body = match block {
        Stmt::Block { body } => body,
        _ => {
            // Unreachable: the block parser's contract pins a block node.
            proof {
                assert(false);
            }
            Vec::new()
        },
    };
    Ok(Stmt::new_function_decl(name.value, param, retype, Some(body)))
}

/// Parse a parameter list: `name: type`, comma-separated, up to and
/// including the closing parenthesis. A missing type annotation is a
/// fatal malformed-declaration error.
pub fn parse_parameter(parser: &mut Parser) -> (r: Result<Vec<Stmt>, ParseError>)
    requires
        old(parser).wf(),
    ensures
        final(parser).wf(),
        final(parser).toks() == old(parser).toks(),
        match spec_parse_params(old(parser).toks(), old(parser).at()) {
            Ok((items, j)) => {
                &&& r matches Ok(v) && model_stmts(v@) == items
                &&& final(parser).at() == j
                &&& old(parser).at() < j
            },
            Err(em) => r matches Err(e) && e.model() == em,
        },
    decreases old(parser).toks().len() - old(parser).at(), 5int,
{
    if parser.current_tokenkind() == TokenType::RParen {
        parser.advance();
        return Ok(Vec::new());
    }
    if !parser.has_token() {
        return Err(
            ParseError::Expectation {
                expected: TokenType::RParen,
                found: TokenType::EOF,
                message: None,
            },
        );
    }
    let name = match parser.expect(TokenType::Identifier) {
        Ok(t) => t,
        Err(e) => {
            return Err(e);
        },
    };
    if parser.current_tokenkind() != TokenType::Colon {
        return Err(parser.throw("Expected type description"));
    }
    parser.advance();
    let ptype = match parse_type(parser) {
        Ok(t) => t,
        Err(e) => {
            return Err(e);
        },
    };
    if parser.current_tokenkind() == TokenType::Comma {
        parser.advance();
    }
    let mut rest = match parse_parameter(parser) {
        Ok(v) => v,
        Err(e2) => {
            return Err(e2);
        },
    };
    let ghost r0: Seq<Stmt> = rest@;
    let p = Stmt::new_parameter(name.value, ptype);
    let ghost pm: StmtModel = p.model();
    rest.insert(0, p);
    proof {
        assert(rest@ =~= seq![rest@[0]] + r0);
        assert((seq![rest@[0]] + r0).drop_first() =~= r0);
        assert(model_stmts(rest@) =~= seq![pm] + model_stmts(r0));
    }
    Ok(rest)
}

/// Parse a declared type: one identifier naming a built-in or custom
/// type.
pub fn parse_type(parser: &mut Parser) -> (r: Result<Type, ParseError>)
    requires
        old(parser).wf(),
    ensures
        final(parser).wf(),
        final(parser).toks() == old(parser).toks(),
        match spec_parse_type(old(parser).toks(), old(parser).at()) {
            Ok((m, j)) => {
                &&& r matches Ok(t) && t.model() == m
                &&& final(parser).at() == j
                &&& old(parser).at() < j
            },
            Err(em) => r matches Err(e) && e.model() == em,
        },
    decreases old(parser).toks().len() - old(parser).at(), 1int,
{
    let tok = match parser.expect(TokenType::Identifier) {
        Ok(t) => t,
        Err(e) => {
            return Err(e);
        },
    };
    if tok.value == "number".to_owned() {
        Ok(Type::Number)
    } else if tok.value == "string".to_owned() {
        Ok(Type::Text)
    } else if tok.value == "boolean".to_owned() {
        Ok(Type::Boolean)
    } else if tok.value == "null".to_owned() {
        Ok(Type::Null)
    } else if tok.value == "any".to_owned() {
        Ok(Type::Any)
    } else {
        Ok(Type::Custom(tok.value))
    }
}

/// Parse an if statement: condition and block, any number of `else if`
/// arms, and an optional final `else` block, built as one
/// if-as-expression wrapped in an expression statement.
pub fn parse_if_stmt(parser: &mut Parser) -> (r: Result<Stmt, ParseError>)
    requires
        old(parser).wf(),
    ensures
        final(parser).wf(),
        final(parser).toks() == old(parser).toks(),
        match spec_parse_if(old(parser).toks(), old(parser).at()) {
            Ok((m, j)) => {
                &&& r matches Ok(s) && s.model() == m
                &&& final(parser).at() == j
                &&& old(parser).at() < j
            },
            Err(em) => r matches Err(e) && e.model() == em,
        },
    decreases old(parser).toks().len() - old(parser).at(), 7int,
{
    if !parser.has_token() {
        return Err(ParseError::MissingHandler { kind: TokenType::EOF });
    }
    parser.advance();
    let condition = match parse_expr(parser, BindingPower::Default) {
        Ok(e) => e,
        Err(e) => {
            return Err(e);
        },
    };
    let block = match parse_block(parser) {
        Ok(b) => b,
        Err(e) => {
            return Err(e);
        },
    };
    let body = match block {
        Stmt::Block { body } => body,
        _ => {
            // Unreachable: the block parser's contract pins a block node.
            proof {
                assert(false);
            }
            Vec::new()
        },
    };
    let (chain, else_body) = match parse_if_chain(parser) {
        Ok(p) => p,
        Err(e) => {
            return Err(e);
        },
    };
    let mut branches = chain;
    let ghost b0: Seq<IfBranch> = branches@;
    let first = IfBranch { condition, body };
    let ghost fm: (
        crate::expression_ast::ExprModel,
        Seq<StmtModel>,
    ) = (first.condition.model(), model_stmts(first.body@));
    branches.insert(0, first);
    proof {
        assert(branches@ =~= seq![branches@[0]] + b0);
        assert((seq![branches@[0]] + b0).drop_first() =~= b0);
        assert(model_branches(branches@) =~= seq![fm] + model_branches(b0));
    }
    Ok(Stmt::new_expression(Expr::IfExpr { branches, else_body }))
}

/// Parse the `else if` arms and the optional final `else` block of an
/// if statement.
fn parse_if_chain(parser: &mut Parser) -> (r: Result<(Vec<IfBranch>, Vec<Stmt>), ParseError>)
    requires
        old(parser).wf(),
    ensures
        final(parser).wf(),
        final(parser).toks() == old(parser).toks(),
        match spec_parse_if_chain(old(parser).toks(), old(parser).at()) {
            Ok(((branches, else_body), j)) => {
                &&& r matches Ok(p) && model_branches(p.0@) == branches && model_stmts(p.1@)
                    == else_body
                &&& final(parser).at() == j
                &&& old(parser).at() <= j
            },
            Err(em) => r matches Err(e) && e.model() == em,
        },
    decreases old(parser).toks().len() - old(parser).at(), 9int,
{
    if parser.current_tokenkind() != TokenType::ElseConditional {
        return Ok((Vec::new(), Vec::new()));
    }
    parser.advance();
    if parser.current_tokenkind() == TokenType::IfConditional {
        parser.advance();
        let condition = match parse_expr(parser, BindingPower::Default) {
            Ok(e) => e,
            Err(e) => {
                return Err(e);
            },
        };
        let block = match parse_block(parser) {
            Ok(b) => b,
            Err(e) => {
                return Err(e);
            },
        };
        let body = match block {
            Stmt::Block { body } => body,
            _ => {
                // Unreachable: the block parser's contract pins a block node.
                proof {
                    assert(false);
                }
                Vec::new()
            },
        };
        let (chain, else_body) = match parse_if_chain(parser) {
            Ok(p) => p,
            Err(e) => {
                return Err(e);
            },
        };
        let mut branches = chain;
        let ghost b0: Seq<IfBranch> = branches@;
        let first = IfBranch { condition, body };
        let ghost fm: (
            crate::expression_ast::ExprModel,
            Seq<StmtModel>,
        ) = (first.condition.model(), model_stmts(first.body@));
        branches.insert(0, first);
        proof {
            assert(branches@ =~= seq![branches@[0]] + b0);
            assert((seq![branches@[0]] + b0).drop_first() =~= b0);
            assert(model_branches(branches@) =~= seq![fm] + model_branches(b0));
        }
        Ok((branches, else_body))
    } else {
        let block = match parse_block(parser) {
            Ok(b) => b,
            Err(e) => {
                return Err(e);
            },
        };
        let body = match block {
            Stmt::Block { body } => body,
            _ => {
                // Unreachable: the block parser's contract pins a block node.
                proof {
                    assert(false);
                }
                Vec::new()
            },
        };
        Ok((Vec::new(), body))
    }
}

/// Parse a for statement: keyword, loop variable, `in`, the sequence
/// expression, and a block body, built as one for-as-expression wrapped
/// in an expression statement.
pub fn parse_for_stmt(parser: &mut Parser) -> (r: Result<Stmt, ParseError>)
    requires
        old(parser).wf(),
    ensures
        final(parser).wf(),
        final(parser).toks() == old(parser).toks(),
        match spec_parse_for(old(parser).toks(), old(parser).at()) {
            Ok((m, j)) => {
                &&& r matches Ok(s) && s.model() == m
                &&& final(parser).at() == j
                &&& old(parser).at() < j
            },
            Err(em) => r matches Err(e) && e.model() == em,
        },
    decreases old(parser).toks().len() - old(parser).at(), 7int,
{
    if !parser.has_token() {
        return Err(
            ParseError::Expectation {
                expected: TokenType::Identifier,
                found: TokenType::EOF,
                message: None,
            },
        );
    }
    parser.advance();
    let var_tok = match parser.expect(TokenType::Identifier) {
        Ok(t) => t,
        Err(e) => {
            return Err(e);
        },
    };
    match parser.expect(TokenType::InLoop) {
        Ok(_) => {},
        Err(e) => {
            return Err(e);
        },
    }
    let sequence = match parse_expr(parser, BindingPower::Default) {
        Ok(e) => e,
        Err(e) => {
            return Err(e);
        },
    };
    let block = match parse_block(parser) {
        Ok(b) => b,
        Err(e) => {
            return Err(e);
        },
    };
    let body = match block {
        Stmt::Block { body } => body,
        _ => {
            // Unreachable: the block parser's contract pins a block node.
            proof {
                assert(false);
            }
            Vec::new()
        },
    };
    let ghost vv: Seq<char> = var_tok.value@;
    let var_name = Expr::Identifier { value: var_tok.value };
    proof {
        assert(var_name.model() == (crate::expression_ast::ExprModel::Identifier { value: vv }));
    }
    Ok(
        Stmt::new_expression(
            Expr::ForExpr { var_name: Box::new(var_name), sequence: Box::new(sequence), body },
        ),
    )
}

/// The top-level statements of a program, with the newline runs that
/// separate them skipped, up to the end of input.
pub fn parse_program_items(parser: &mut Parser) -> (r: Result<Vec<Stmt>, ParseError>)
    requires
        old(parser).wf(),
    ensures
        final(parser).wf(),
        final(parser).toks() == old(parser).toks(),
        match crate::grammar::spec_parse_program_items(old(parser).toks(), old(parser).at()) {
            Ok((items, j)) => {
                &&& r matches Ok(v) && model_stmts(v@) == items
                &&& final(parser).at() == j
                &&& old(parser).at() <= j
            },
            Err(em) => r matches Err(e) && e.model() == em,
        },
    decreases old(parser).toks().len() - old(parser).at(), 9int,
{
    if !parser.has_token() {
        return Ok(Vec::new());
    }
    let s = match parse_stmt(parser) {
        Ok(s) => s,
        Err(e) => {
            return Err(e);
        },
    };
    parser.clean_newline();
    let mut rest = match parse_program_items(parser) {
        Ok(v) => v,
        Err(e2) => {
            return Err(e2);
        },
    };
    let ghost r0: Seq<Stmt> = rest@;
    let ghost sm: StmtModel = s.model();
    rest.insert(0, s);
    proof {
        assert(rest@ =~= seq![rest@[0]] + r0);
        assert((seq![rest@[0]] + r0).drop_first() =~= r0);
        assert(model_stmts(rest@) =~= seq![sm] + model_stmts(r0));
    }
    Ok(rest)
}

/// Parse a while statement: keyword, condition, and a block body, built
/// as one while-as-expression wrapped in an expression statement.
pub fn parse_while_stmt(parser: &mut Parser) -> (r: Result<Stmt, ParseError>)
    requires
        old(parser).wf(),
    ensures
        final(parser).wf(),
        final(parser).toks() == old(parser).toks(),
        match spec_parse_while(old(parser).toks(), old(parser).at()) {
            Ok((m, j)) => {
                &&& r matches Ok(s) && s.model() == m
                &&& final(parser).at() == j
                &&& old(parser).at() < j
            },
            Err(em) => r matches Err(e) && e.model() == em,
        },
    decreases old(parser).toks().len() - old(parser).at(), 7int,
{
    if !parser.has_token() {
        return Err(ParseError::MissingHandler { kind: TokenType::EOF });
    }
    parser.advance();
    let condition = match parse_expr(parser, BindingPower::Default) {
        Ok(e) => e,
        Err(e) => {
            return Err(e);
        },
    };
    let block = match parse_block(parser) {
        Ok(b) => b,
        Err(e) => {
            return Err(e);
        },
    };
    let body = match block {
        Stmt::Block { body } => body,
        _ => {
            // Unreachable: the block parser's contract pins a block node.
            proof {
                assert(false);
            }
            Vec::new()
        },
    };
    Ok(Stmt::new_expression(Expr::WhileExpr { condition: Box::new(condition), body }))
}

} // verus!
