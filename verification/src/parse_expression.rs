//! The expression parser: precedence climbing driven by the dispatch
//! tables. Each function is proved to return exactly what the grammar
//! specification says for the tokens at its cursor.

use vstd::prelude::*;
use crate::parser::Parser;
use crate::token::TokenType;
use crate::lookup::{
    BindingPower, LedHandler, NudHandler, get_binding_power, get_led_handler, get_nud_handler,
};
use crate::expression_ast::{Expr, model_exprs, lemma_model_exprs_len};
use crate::error::ParseError;
use crate::grammar::{
    spec_parse_array_items, spec_parse_call_args, spec_parse_expr, spec_run_led, spec_run_nud,
    spec_led_loop,
};
use crate::parse_statement::parse_parameter;

verus! {

broadcast use vstd::std_specs::control_flow::group_control_flow_axioms;

/// Parse an expression: one prefix form, then every infix form whose
/// binding power is strictly greater than the given minimum.
pub fn parse_expr(parser: &mut Parser, bp: BindingPower) -> (r: Result<Expr, ParseError>)
    requires
        old(parser).wf(),
    ensures
        final(parser).wf(),
        final(parser).toks() == old(parser).toks(),
        match spec_parse_expr(old(parser).toks(), old(parser).at(), bp) {
            Ok((m, j)) => {
                &&& r matches Ok(e) && e.model() == m
                &&& final(parser).at() == j
                &&& old(parser).at() < j
            },
            Err(em) => r matches Err(e) && e.model() == em,
        },
    decreases old(parser).toks().len() - old(parser).at(), 6int,
{
    let kind = parser.current_tokenkind();
    let left = match get_nud_handler(kind) {
        None => {
            return Err(ParseError::MissingHandler { kind });
        },
        Some(NudHandler::Primary) => parse_primary_expr(parser),
        Some(NudHandler::Array) => parse_array_expr(parser),
        Some(NudHandler::Prefix) => parse_prefix_expr(parser),
        Some(NudHandler::Grouping) => parse_grouping_expr(parser),
        Some(NudHandler::LambdaLiteral) => parse_lambda_expr(parser),
        Some(NudHandler::ReturnExpr) => parse_return_decl(parser),
    };
    let left = match left {
        Ok(e) => e,
        Err(e) => {
            return Err(e);
        },
    };
    parse_led_loop(parser, left, bp)
}

/// The infix loop: run infix handlers while the current token binds
/// strictly stronger than the minimum.
fn parse_led_loop(parser: &mut Parser, left: Expr, min: BindingPower) -> (r: Result<
    Expr,
    ParseError,
>)
    requires
        old(parser).wf(),
    ensures
        final(parser).wf(),
        final(parser).toks() == old(parser).toks(),
        match spec_led_loop(old(parser).toks(), old(parser).at(), left.model(), min) {
            Ok((m, j)) => {
                &&& r matches Ok(e) && e.model() == m
                &&& final(parser).at() == j
                &&& old(parser).at() <= j
            },
            Err(em) => r matches Err(e) && e.model() == em,
        },
    decreases old(parser).toks().len() - old(parser).at(), 5int,
{
    let k = parser.current_tokenkind();
    match get_binding_power(k) {
        None => Ok(left),
        Some(b) => {
            if b.level() > min.level() {
                let step = match get_led_handler(k) {
                    None => {
                        return Err(ParseError::MissingHandler { kind: k });
                    },
                    Some(LedHandler::Assignment) => parse_assignment_expr(parser, left, min),
                    Some(LedHandler::Binary) => parse_binary_expr(parser, left, min),
                    Some(LedHandler::Member) => parse_member_expr(parser, left, min),
                    Some(LedHandler::Call) => parse_call_expr(parser, left, min),
                };
                let left2 = match step {
                    Ok(e) => e,
                    Err(e) => {
                        return Err(e);
                    },
                };
                parse_led_loop(parser, left2, min)
            } else {
                Ok(left)
            }
        },
    }
}

/// Prefix handler for the primary forms: a number literal, an
/// identifier, or a string-quote token.
pub fn parse_primary_expr(parser: &mut Parser) -> (r: Result<Expr, ParseError>)
    requires
        old(parser).wf(),
    ensures
        final(parser).wf(),
        final(parser).toks() == old(parser).toks(),
        match spec_run_nud(old(parser).toks(), old(parser).at(), NudHandler::Primary) {
            Ok((m, j)) => {
                &&& r matches Ok(e) && e.model() == m
                &&& final(parser).at() == j
                &&& old(parser).at() < j
            },
            Err(em) => r matches Err(e) && e.model() == em,
        },
    decreases old(parser).toks().len() - old(parser).at(), 5int,
{
    let kind = parser.current_tokenkind();
    match kind {
        TokenType::Number => {
            let tok = parser.advance();
            Ok(Expr::Number { value: tok.value })
        },
        TokenType::Identifier => {
            let tok = parser.advance();
            Ok(Expr::Identifier { value: tok.value })
        },
        TokenType::DoubleQuote => {
            let tok = parser.advance();
            let length = tok.value.as_str().unicode_len();
            Ok(Expr::StringLiteral { value: tok.value, length })
        },
        _ => Err(ParseError::MissingHandler { kind }),
    }
}

/// Prefix handler for the unary operators: consume the operator, then
/// an operand at the unary tier.
pub fn parse_prefix_expr(parser: &mut Parser) -> (r: Result<Expr, ParseError>)
    requires
        old(parser).wf(),
    ensures
        final(parser).wf(),
        final(parser).toks() == old(parser).toks(),
        match spec_run_nud(old(parser).toks(), old(parser).at(), NudHandler::Prefix) {
            Ok((m, j)) => {
                &&& r matches Ok(e) && e.model() == m
                &&& final(parser).at() == j
                &&& old(parser).at() < j
            },
            Err(em) => r matches Err(e) && e.model() == em,
        },
    decreases old(parser).toks().len() - old(parser).at(), 5int,
{
    if !parser.has_token() {
        return Err(ParseError::MissingHandler { kind: TokenType::EOF });
    }
    let op = parser.advance();
    let right = match parse_expr(parser, BindingPower::Unary) {
        Ok(e) => e,
        Err(e) => {
            return Err(e);
        },
    };
    Ok(Expr::UnaryExpr { operator: op, right: Box::new(right) })
}

/// Prefix handler for grouping: a parenthesized expression at the
/// default tier, closed by a matching parenthesis.
pub fn parse_grouping_expr(parser: &mut Parser) -> (r: Result<Expr, ParseError>)
    requires
        old(parser).wf(),
    ensures
        final(parser).wf(),
        final(parser).toks() == old(parser).toks(),
        match spec_run_nud(old(parser).toks(), old(parser).at(), NudHandler::Grouping) {
            Ok((m, j)) => {
                &&& r matches Ok(e) && e.model() == m
                &&& final(parser).at() == j
                &&& old(parser).at() < j
            },
            Err(em) => r matches Err(e) && e.model() == em,
        },
    decreases old(parser).toks().len() - old(parser).at(), 5int,
{
    if !parser.has_token() {
        return Err(ParseError::MissingHandler { kind: TokenType::EOF });
    }
    parser.advance();
    let inner = match parse_expr(parser, BindingPower::Default) {
        Ok(e) => e,
        Err(e) => {
            return Err(e);
        },
    };
    match parser.expect(TokenType::RParen) {
        Ok(_) => Ok(inner),
        Err(e) => Err(e),
    }
}

/// Prefix handler for a list literal: bracketed, comma-separated
/// elements.
pub fn parse_array_expr(parser: &mut Parser) -> (r: Result<Expr, ParseError>)
    requires
        old(parser).wf(),
    ensures
        final(parser).wf(),
        final(parser).toks() == old(parser).toks(),
        match spec_run_nud(old(parser).toks(), old(parser).at(), NudHandler::Array) {
            Ok((m, j)) => {
                &&& r matches Ok(e) && e.model() == m
                &&& final(parser).at() == j
                &&& old(parser).at() < j
            },
            Err(em) => r matches Err(e) && e.model() == em,
        },
    decreases old(parser).toks().len() - old(parser).at(), 5int,
{
    if !parser.has_token() {
        return Err(ParseError::MissingHandler { kind: TokenType::EOF });
    }
    parser.advance();
    let value = match parse_array_items(parser) {
        Ok(v) => v,
        Err(e) => {
            return Err(e);
        },
    };
    let length = value.len();
    proof {
        lemma_model_exprs_len(value@);
    }
    Ok(Expr::List { value, length })
}

/// The elements of a list literal, up to and including the closing
/// bracket; a trailing comma is tolerated.
fn parse_array_items(parser: &mut Parser) -> (r: Result<Vec<Expr>, ParseError>)
    requires
        old(parser).wf(),
    ensures
        final(parser).wf(),
        final(parser).toks() == old(parser).toks(),
        match spec_parse_array_items(old(parser).toks(), old(parser).at()) {
            Ok((items, j)) => {
                &&& r matches Ok(v) && model_exprs(v@) == items
                &&& final(parser).at() == j
                &&& old(parser).at() < j
            },
            Err(em) => r matches Err(e) && e.model() == em,
        },
    decreases old(parser).toks().len() - old(parser).at(), 9int,
{
    if parser.current_tokenkind() == TokenType::RBracket {
        parser.advance();
        return Ok(Vec::new());
    }
    let e = match parse_expr(parser, BindingPower::Default) {
        Ok(e) => e,
        Err(e) => {
            return Err(e);
        },
    };
    if parser.current_tokenkind() == TokenType::Comma {
        parser.advance();
        let mut rest = match parse_array_items(parser) {
            Ok(v) => v,
            Err(e2) => {
                return Err(e2);
            },
        };
        let ghost r0: Seq<Expr> = rest@;
        let ghost em: crate::expression_ast::ExprModel = e.model();
        rest.insert(0, e);
        proof {
            assert(rest@ =~= seq![rest@[0]] + r0);
            assert((seq![rest@[0]] + r0).drop_first() =~= r0);
            assert(model_exprs(rest@) =~= seq![em] + model_exprs(r0));
        }
        Ok(rest)
    } else if parser.current_tokenkind() == TokenType::RBracket {
        parser.advance();
        let mut v = Vec::new();
        let ghost e0: Expr = e;
        let ghost em: crate::expression_ast::ExprModel = e.model();
        v.push(e);
        proof {
            assert(v@ =~= seq![e0]);
            assert(v@.first() == e0);
            assert(v@.drop_first() =~= Seq::<Expr>::empty());
            assert(model_exprs(v@.drop_first()) == Seq::<crate::expression_ast::ExprModel>::empty());
            assert(model_exprs(v@) == seq![em] + Seq::<crate::expression_ast::ExprModel>::empty());
            assert(model_exprs(v@) =~= seq![em]);
        }
        Ok(v)
    } else {
        Err(
            ParseError::Expectation {
                expected: TokenType::RBracket,
                found: parser.current_tokenkind(),
                message: None,
            },
        )
    }
}

/// Prefix handler for a lambda literal: the keyword, a parameter list,
/// then the body expression.
pub fn parse_lambda_expr(parser: &mut Parser) -> (r: Result<Expr, ParseError>)
    requires
        old(parser).wf(),
    ensures
        final(parser).wf(),
        final(parser).toks() == old(parser).toks(),
        match spec_run_nud(old(parser).toks(), old(parser).at(), NudHandler::LambdaLiteral) {
            Ok((m, j)) => {
                &&& r matches Ok(e) && e.model() == m
                &&& final(parser).at() == j
                &&& old(parser).at() < j
            },
            Err(em) => r matches Err(e) && e.model() == em,
        },
    decreases old(parser).toks().len() - old(parser).at(), 5int,
{
    if !parser.has_token() {
        return Err(
            ParseError::Expectation {
                expected: TokenType::Verbar,
                found: TokenType::EOF,
                message: None,
            },
        );
    }
    parser.advance();
    match parser.expect(TokenType::Verbar) {
        Ok(_) => {},
        Err(e) => {
            return Err(e);
        },
    }
    let parameters = match parse_parameter(parser) {
        Ok(v) => v,
        Err(e) => {
            return Err(e);
        },
    };
    let body = match parse_expr(parser, BindingPower::Default) {
        Ok(e) => e,
        Err(e) => {
            return Err(e);
        },
    };
    Ok(Expr::Lambda { parameters, body: Box::new(body) })
}

/// Prefix handler for `return` in expression position: it wraps the
/// following expression.
pub fn parse_return_decl(parser: &mut Parser) -> (r: Result<Expr, ParseError>)
    requires
        old(parser).wf(),
    ensures
        final(parser).wf(),
        final(parser).toks() == old(parser).toks(),
        match spec_run_nud(old(parser).toks(), old(parser).at(), NudHandler::ReturnExpr) {
            Ok((m, j)) => {
                &&& r matches Ok(e) && e.model() == m
                &&& final(parser).at() == j
                &&& old(parser).at() < j
            },
            Err(em) => r matches Err(e) && e.model() == em,
        },
    decreases old(parser).toks().len() - old(parser).at(), 5int,
{
    if !parser.has_token() {
        return Err(ParseError::MissingHandler { kind: TokenType::EOF });
    }
    parser.advance();
    let value = match parse_expr(parser, BindingPower::Default) {
        Ok(e) => e,
        Err(e) => {
            return Err(e);
        },
    };
    Ok(Expr::Return { value: Box::new(value) })
}

/// Infix handler for assignment. Right-associative: the right-hand side
/// is parsed with the minimum binding power the loop was entered with,
/// which lies strictly below the assignment tier.
pub fn parse_assignment_expr(parser: &mut Parser, left: Expr, bp: BindingPower) -> (r: Result<
    Expr,
    ParseError,
>)
    requires
        old(parser).wf(),
    ensures
        final(parser).wf(),
        final(parser).toks() == old(parser).toks(),
        match spec_run_led(
            old(parser).toks(),
            old(parser).at(),
            left.model(),
            bp,
            LedHandler::Assignment,
        ) {
            Ok((m, j)) => {
                &&& r matches Ok(e) && e.model() == m
                &&& final(parser).at() == j
                &&& old(parser).at() < j
            },
            Err(em) => r matches Err(e) && e.model() == em,
        },
    decreases old(parser).toks().len() - old(parser).at(), 4int,
{
    if !parser.has_token() {
        return Err(ParseError::MissingHandler { kind: TokenType::EOF });
    }
    parser.advance();
    let value = match parse_expr(parser, bp) {
        Ok(e) => e,
        Err(e) => {
            return Err(e);
        },
    };
    Ok(Expr::new_assignment(left, value))
}

/// Infix handler for the binary operators. Left-associative: the
/// right-hand side is parsed at the operator's own binding power.
pub fn parse_binary_expr(parser: &mut Parser, left: Expr, bp: BindingPower) -> (r: Result<
    Expr,
    ParseError,
>)
    requires
        old(parser).wf(),
    ensures
        final(parser).wf(),
        final(parser).toks() == old(parser).toks(),
        match spec_run_led(
            old(parser).toks(),
            old(parser).at(),
            left.model(),
            bp,
            LedHandler::Binary,
        ) {
            Ok((m, j)) => {
                &&& r matches Ok(e) && e.model() == m
                &&& final(parser).at() == j
                &&& old(parser).at() < j
            },
            Err(em) => r matches Err(e) && e.model() == em,
        },
    decreases old(parser).toks().len() - old(parser).at(), 4int,
{
    if !parser.has_token() {
        return Err(ParseError::MissingHandler { kind: TokenType::EOF });
    }
    let op = parser.advance();
    let obp = match get_binding_power(op.kind) {
        Some(b) => b,
        None => BindingPower::Default,
    };
    let right = match parse_expr(parser, obp) {
        Ok(e) => e,
        Err(e) => {
            return Err(e);
        },
    };
    Ok(Expr::new_binary(left, op, right))
}

/// Infix handler for member access (`.name`) and computed, indexed
/// access (`[expr]`).
pub fn parse_member_expr(parser: &mut Parser, left: Expr, bp: BindingPower) -> (r: Result<
    Expr,
    ParseError,
>)
    requires
        old(parser).wf(),
    ensures
        final(parser).wf(),
        final(parser).toks() == old(parser).toks(),
        match spec_run_led(
            old(parser).toks(),
            old(parser).at(),
            left.model(),
            bp,
            LedHandler::Member,
        ) {
            Ok((m, j)) => {
                &&& r matches Ok(e) && e.model() == m
                &&& final(parser).at() == j
                &&& old(parser).at() < j
            },
            Err(em) => r matches Err(e) && e.model() == em,
        },
    decreases old(parser).toks().len() - old(parser).at(), 4int,
{
    if !parser.has_token() {
        return Err(ParseError::MissingHandler { kind: TokenType::EOF });
    }
    let op = parser.advance();
    if op.kind == TokenType::Dot {
        let prop = match parser.expect(TokenType::Identifier) {
            Ok(t) => t,
            Err(e) => {
                return Err(e);
            },
        };
        let ghost pv: Seq<char> = prop.value@;
        let property = Expr::Identifier { value: prop.value };
        proof {
            assert(property.model() == (crate::expression_ast::ExprModel::Identifier {
                value: pv,
            }));
        }
        Ok(Expr::MembreExpr { member: Box::new(left), property: Box::new(property) })
    } else {
        let property = match parse_expr(parser, BindingPower::Default) {
            Ok(e) => e,
            Err(e) => {
                return Err(e);
            },
        };
        match parser.expect(TokenType::RBracket) {
            Ok(_) => Ok(
                Expr::ComputedExpr { member: Box::new(left), property: Box::new(property) },
            ),
            Err(e) => Err(e),
        }
    }
}

/// Infix handler for call application: a parenthesized, comma-separated
/// argument list.
pub fn parse_call_expr(parser: &mut Parser, left: Expr, bp: BindingPower) -> (r: Result<
    Expr,
    ParseError,
>)
    requires
        old(parser).wf(),
    ensures
        final(parser).wf(),
        final(parser).toks() == old(parser).toks(),
        match spec_run_led(
            old(parser).toks(),
            old(parser).at(),
            left.model(),
            bp,
            LedHandler::Call,
        ) {
            Ok((m, j)) => {
                &&& r matches Ok(e) && e.model() == m
                &&& final(parser).at() == j
                &&& old(parser).at() < j
            },
            Err(em) => r matches Err(e) && e.model() == em,
        },
    decreases old(parser).toks().len() - old(parser).at(), 4int,
{
    if !parser.has_token() {
        return Err(ParseError::MissingHandler { kind: TokenType::EOF });
    }
    parser.advance();
    let args = match parse_call_args(parser) {
        Ok(v) => v,
        Err(e) => {
            return Err(e);
        },
    };
    Ok(Expr::CallExpr { args, caller: Box::new(left) })
}

/// The arguments of a call, up to and including the closing
/// parenthesis; a trailing comma is tolerated.
fn parse_call_args(parser: &mut Parser) -> (r: Result<Vec<Expr>, ParseError>)
    requires
        old(parser).wf(),
    ensures
        final(parser).wf(),
        final(parser).toks() == old(parser).toks(),
        match spec_parse_call_args(old(parser).toks(), old(parser).at()) {
            Ok((items, j)) => {
                &&& r matches Ok(v) && model_exprs(v@) == items
                &&& final(parser).at() == j
                &&& old(parser).at() < j
            },
            Err(em) => r matches Err(e) && e.model() == em,
        },
    decreases old(parser).toks().len() - old(parser).at(), 9int,
{
    if parser.current_tokenkind() == TokenType::RParen {
        parser.advance();
        return Ok(Vec::new());
    }
    let e = match parse_expr(parser, BindingPower::Default) {
        Ok(e) => e,
        Err(e) => {
            return Err(e);
        },
    };
    if parser.current_tokenkind() == TokenType::Comma {
        parser.advance();
        let mut rest = match parse_call_args(parser) {
            Ok(v) => v,
            Err(e2) => {
                return Err(e2);
            },
        };
        let ghost r0: Seq<Expr> = rest@;
        let ghost em: crate::expression_ast::ExprModel = e.model();
        rest.insert(0, e);
        proof {
            assert(rest@ =~= seq![rest@[0]] + r0);
            assert((seq![rest@[0]] + r0).drop_first() =~= r0);
            assert(model_exprs(rest@) =~= seq![em] + model_exprs(r0));
        }
        Ok(rest)
    } else if parser.current_tokenkind() == TokenType::RParen {
        parser.advance();
        let mut v = Vec::new();
        let ghost e0: Expr = e;
        let ghost em: crate::expression_ast::ExprModel = e.model();
        v.push(e);
        proof {
            assert(v@ =~= seq![e0]);
            assert(v@.first() == e0);
            assert(v@.drop_first() =~= Seq::<Expr>::empty());
            assert(model_exprs(v@.drop_first()) == Seq::<crate::expression_ast::ExprModel>::empty());
            assert(model_exprs(v@) == seq![em] + Seq::<crate::expression_ast::ExprModel>::empty());
            assert(model_exprs(v@) =~= seq![em]);
        }
        Ok(v)
    } else {
        Err(
            ParseError::Expectation {
                expected: TokenType::RParen,
                found: parser.current_tokenkind(),
                message: None,
            },
        )
    }
}

} // verus!
