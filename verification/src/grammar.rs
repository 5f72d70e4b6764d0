//! The grammar, stated mathematically: one total specification function
//! per parsing construct, over the token-sequence model. Each says exactly
//! which tree a construct parses to, where the cursor ends, and which
//! error is reported otherwise. The executable parsers are proved to
//! return exactly these results.

use vstd::prelude::*;
use crate::token::{TokenModel, TokenType};
use crate::lookup::{
    BindingPower, LedHandler, NudHandler, StmtHandler, spec_binding_power, spec_led_handler,
    spec_nud_handler, spec_stmt_handler,
};
use crate::expression_ast::ExprModel;
use crate::statement_ast::{StmtModel, TypeModel};
use crate::error::ErrModel;
use crate::parser::spec_skip_newlines;

verus! {

/// The kind of the token at a position; out of range counts as the end
/// marker.
pub open spec fn kind_at(t: Seq<TokenModel>, i: int) -> TokenType {
    if 0 <= i < t.len() {
        t[i].kind
    } else {
        TokenType::EOF
    }
}

/// The token at a position; out of range counts as a bare end marker.
pub open spec fn tok_at(t: Seq<TokenModel>, i: int) -> TokenModel {
    if 0 <= i < t.len() {
        t[i]
    } else {
        TokenModel { kind: TokenType::EOF, text: Seq::empty() }
    }
}

/// The end position a sub-parse reported. A successful sub-parse always
/// consumes at least one token and never passes the end of the sequence;
/// this guard keeps that manifest for the termination checker and changes
/// nothing on the positions a sub-parse actually reports.
pub open spec fn bump(t: Seq<TokenModel>, i: int, j: int) -> int {
    if i < j <= t.len() {
        j
    } else {
        i + 1
    }
}

/// The declared type a type name spells: a built-in name or a custom one.
pub open spec fn type_of_name(w: Seq<char>) -> TypeModel {
    if w == "number"@ {
        TypeModel::Number
    } else if w == "string"@ {
        TypeModel::Text
    } else if w == "boolean"@ {
        TypeModel::Boolean
    } else if w == "null"@ {
        TypeModel::Null
    } else if w == "any"@ {
        TypeModel::Any
    } else {
        TypeModel::Custom { name: w }
    }
}

/// The body of a block statement model; other models have none.
pub open spec fn block_body(m: StmtModel) -> Seq<StmtModel> {
    match m {
        StmtModel::Block { body } => body,
        _ => Seq::empty(),
    }
}

/// Parse a declared type: one identifier naming the type.
pub open spec fn spec_parse_type(t: Seq<TokenModel>, i: int) -> Result<(TypeModel, int), ErrModel>
    decreases t.len() - i, 1int,
{
    if kind_at(t, i) == TokenType::Identifier {
        Ok((type_of_name(tok_at(t, i).text), i + 1))
    } else {
        Err(ErrModel::Expectation {
            expected: TokenType::Identifier,
            found: kind_at(t, i),
            message: None,
        })
    }
}

/// Parse an expression by precedence climbing: one prefix form, then
/// every infix form whose binding power exceeds the minimum.
pub open spec fn spec_parse_expr(t: Seq<TokenModel>, i: int, min: BindingPower) -> Result<
    (ExprModel, int),
    ErrModel,
>
    decreases t.len() - i, 6int,
{
    match spec_nud_handler(kind_at(t, i)) {
        None => Err(ErrModel::MissingHandler { kind: kind_at(t, i) }),
        Some(h) => match spec_run_nud(t, i, h) {
            Err(e) => Err(e),
            Ok((left, j)) => spec_led_loop(t, bump(t, i, j), left, min),
        },
    }
}

/// The infix loop: while the current token's binding power is strictly
/// greater than the minimum, run its infix handler on the accumulated
/// left-hand expression. A token with a binding power but no infix
/// handler is a parse error.
pub open spec fn spec_led_loop(
    t: Seq<TokenModel>,
    i: int,
    left: ExprModel,
    min: BindingPower,
) -> Result<(ExprModel, int), ErrModel>
    decreases t.len() - i, 5int,
{
    let k = kind_at(t, i);
    match spec_binding_power(k) {
        None => Ok((left, i)),
        Some(bp) => {
            if bp.spec_level() <= min.spec_level() {
                Ok((left, i))
            } else {
                match spec_led_handler(k) {
                    None => Err(ErrModel::MissingHandler { kind: k }),
                    Some(h) => match spec_run_led(t, i, left, min, h) {
                        Err(e) => Err(e),
                        Ok((left2, j)) => spec_led_loop(t, bump(t, i, j), left2, min),
                    },
                }
            }
        },
    }
}

/// Run one prefix handler at a position.
pub open spec fn spec_run_nud(t: Seq<TokenModel>, i: int, h: NudHandler) -> Result<
    (ExprModel, int),
    ErrModel,
>
    decreases t.len() - i, 5int,
{
    if !(0 <= i < t.len()) {
        Err(ErrModel::MissingHandler { kind: TokenType::EOF })
    } else {
        match h {
            NudHandler::Primary => {
                match t[i].kind {
                    TokenType::Number => Ok((ExprModel::Number { value: t[i].text }, i + 1)),
                    TokenType::Identifier => Ok(
                        (ExprModel::Identifier { value: t[i].text }, i + 1),
                    ),
                    TokenType::DoubleQuote => Ok(
                        (
                            ExprModel::StringLiteral {
                                value: t[i].text,
                                length: t[i].text.len(),
                            },
                            i + 1,
                        ),
                    ),
                    _ => Err(ErrModel::MissingHandler { kind: t[i].kind }),
                }
            },
            NudHandler::Prefix => {
                match spec_parse_expr(t, i + 1, BindingPower::Unary) {
                    Err(e) => Err(e),
                    Ok((right, j)) => Ok(
                        (
                            ExprModel::UnaryExpr { operator: t[i], right: Box::new(right) },
                            j,
                        ),
                    ),
                }
            },
            NudHandler::Grouping => {
                match spec_parse_expr(t, i + 1, BindingPower::Default) {
                    Err(e) => Err(e),
                    Ok((inner, j)) => {
                        if kind_at(t, j) == TokenType::RParen {
                            Ok((inner, j + 1))
                        } else {
                            Err(ErrModel::Expectation {
                                expected: TokenType::RParen,
                                found: kind_at(t, j),
                                message: None,
                            })
                        }
                    },
                }
            },
            NudHandler::Array => {
                match spec_parse_array_items(t, i + 1) {
                    Err(e) => Err(e),
                    Ok((items, j)) => Ok(
                        (ExprModel::List { value: items, length: items.len() }, j),
                    ),
                }
            },
            NudHandler::LambdaLiteral => {
                if kind_at(t, i + 1) != TokenType::Verbar {
                    Err(ErrModel::Expectation {
                        expected: TokenType::Verbar,
                        found: kind_at(t, i + 1),
                        message: None,
                    })
                } else {
                    match spec_parse_params(t, i + 2) {
                        Err(e) => Err(e),
                        Ok((params, j)) => {
                            match spec_parse_expr(t, bump(t, i, j), BindingPower::Default) {
                                Err(e) => Err(e),
                                Ok((body, j2)) => Ok(
                                    (
                                        ExprModel::Lambda {
                                            parameters: params,
                                            body: Box::new(body),
                                        },
                                        j2,
                                    ),
                                ),
                            }
                        },
                    }
                }
            },
            NudHandler::ReturnExpr => {
                match spec_parse_expr(t, i + 1, BindingPower::Default) {
                    Err(e) => Err(e),
                    Ok((value, j)) => Ok((ExprModel::Return { value: Box::new(value) }, j)),
                }
            },
        }
    }
}

/// Run one infix handler at a position on an accumulated left-hand
/// expression.
pub open spec fn spec_run_led(
    t: Seq<TokenModel>,
    i: int,
    left: ExprModel,
    min: BindingPower,
    h: LedHandler,
) -> Result<(ExprModel, int), ErrModel>
    decreases t.len() - i, 4int,
{
    if !(0 <= i < t.len()) {
        Err(ErrModel::MissingHandler { kind: TokenType::EOF })
    } else {
        match h {
            LedHandler::Assignment => {
                // Right-associative: the right-hand side is parsed with the
                // same minimum binding power the loop itself was entered
                // with, which lies strictly below Assignment.
                match spec_parse_expr(t, i + 1, min) {
                    Err(e) => Err(e),
                    Ok((value, j)) => Ok(
                        (
                            ExprModel::AssignmentExpr {
                                assigne: Box::new(left),
                                value: Box::new(value),
                            },
                            j,
                        ),
                    ),
                }
            },
            LedHandler::Binary => {
                // Left-associative: the right-hand side is parsed at the
                // operator's own binding power.
                let obp = match spec_binding_power(t[i].kind) {
                    Some(b) => b,
                    None => BindingPower::Default,
                };
                match spec_parse_expr(t, i + 1, obp) {
                    Err(e) => Err(e),
                    Ok((right, j)) => Ok(
                        (
                            ExprModel::BinaryExpr {
                                left: Box::new(left),
                                operator: t[i],
                                right: Box::new(right),
                            },
                            j,
                        ),
                    ),
                }
            },
            LedHandler::Member => {
                if t[i].kind == TokenType::Dot {
                    if kind_at(t, i + 1) == TokenType::Identifier {
                        Ok(
                            (
                                ExprModel::MembreExpr {
                                    member: Box::new(left),
                                    property: Box::new(
                                        ExprModel::Identifier { value: tok_at(t, i + 1).text },
                                    ),
                                },
                                i + 2,
                            ),
                        )
                    } else {
                        Err(ErrModel::Expectation {
                            expected: TokenType::Identifier,
                            found: kind_at(t, i + 1),
                            message: None,
                        })
                    }
                } else {
                    match spec_parse_expr(t, i + 1, BindingPower::Default) {
                        Err(e) => Err(e),
                        Ok((property, j)) => {
                            if kind_at(t, j) == TokenType::RBracket {
                                Ok(
                                    (
                                        ExprModel::ComputedExpr {
                                            member: Box::new(left),
                                            property: Box::new(property),
                                        },
                                        j + 1,
                                    ),
                                )
                            } else {
                                Err(ErrModel::Expectation {
                                    expected: TokenType::RBracket,
                                    found: kind_at(t, j),
                                    message: None,
                                })
                            }
                        },
                    }
                }
            },
            LedHandler::Call => {
                match spec_parse_call_args(t, i + 1) {
                    Err(e) => Err(e),
                    Ok((args, j)) => Ok(
                        (ExprModel::CallExpr { args, caller: Box::new(left) }, j),
                    ),
                }
            },
        }
    }
}

/// Parse the comma-separated elements of a list literal, up to and
/// including the closing bracket; a trailing comma is tolerated.
pub open spec fn spec_parse_array_items(t: Seq<TokenModel>, i: int) -> Result<
    (Seq<ExprModel>, int),
    ErrModel,
>
    decreases t.len() - i, 9int,
{
    if kind_at(t, i) == TokenType::RBracket {
        Ok((Seq::empty(), i + 1))
    } else if kind_at(t, i) == TokenType::EOF {
        // What parsing an element at the end of input reports anyway;
        // stated here so the list keeps shrinking for the termination
        // checker.
        Err(ErrModel::MissingHandler { kind: TokenType::EOF })
    } else {
        match spec_parse_expr(t, i, BindingPower::Default) {
            Err(e) => Err(e),
            Ok((e, j)) => {
                if kind_at(t, j) == TokenType::Comma {
                    match spec_parse_array_items(t, bump(t, i, j + 1)) {
                        Err(e2) => Err(e2),
                        Ok((rest, end)) => Ok((seq![e] + rest, end)),
                    }
                } else if kind_at(t, j) == TokenType::RBracket {
                    Ok((seq![e], j + 1))
                } else {
                    Err(ErrModel::Expectation {
                        expected: TokenType::RBracket,
                        found: kind_at(t, j),
                        message: None,
                    })
                }
            },
        }
    }
}

/// Parse the comma-separated arguments of a call, up to and including
/// the closing parenthesis; a trailing comma is tolerated.
pub open spec fn spec_parse_call_args(t: Seq<TokenModel>, i: int) -> Result<
    (Seq<ExprModel>, int),
    ErrModel,
>
    decreases t.len() - i, 9int,
{
    if kind_at(t, i) == TokenType::RParen {
        Ok((Seq::empty(), i + 1))
    } else if kind_at(t, i) == TokenType::EOF {
        // What parsing an argument at the end of input reports anyway;
        // stated here so the list keeps shrinking for the termination
        // checker.
        Err(ErrModel::MissingHandler { kind: TokenType::EOF })
    } else {
        match spec_parse_expr(t, i, BindingPower::Default) {
            Err(e) => Err(e),
            Ok((e, j)) => {
                if kind_at(t, j) == TokenType::Comma {
                    match spec_parse_call_args(t, bump(t, i, j + 1)) {
                        Err(e2) => Err(e2),
                        Ok((rest, end)) => Ok((seq![e] + rest, end)),
                    }
                } else if kind_at(t, j) == TokenType::RParen {
                    Ok((seq![e], j + 1))
                } else {
                    Err(ErrModel::Expectation {
                        expected: TokenType::RParen,
                        found: kind_at(t, j),
                        message: None,
                    })
                }
            },
        }
    }
}

/// Parse a parameter list: `name: type`, comma-separated, up to and
/// including the closing parenthesis; a missing type annotation is a
/// fatal malformed-declaration error.
pub open spec fn spec_parse_params(t: Seq<TokenModel>, i: int) -> Result<
    (Seq<StmtModel>, int),
    ErrModel,
>
    decreases t.len() - i, 5int,
{
    if kind_at(t, i) == TokenType::RParen {
        Ok((Seq::empty(), i + 1))
    } else if kind_at(t, i) == TokenType::EOF {
        Err(ErrModel::Expectation {
            expected: TokenType::RParen,
            found: TokenType::EOF,
            message: None,
        })
    } else if kind_at(t, i) != TokenType::Identifier {
        Err(ErrModel::Expectation {
            expected: TokenType::Identifier,
            found: kind_at(t, i),
            message: None,
        })
    } else {
        let name = tok_at(t, i).text;
        if kind_at(t, i + 1) != TokenType::Colon {
            Err(ErrModel::MalformedDeclaration { message: "Expected type description"@ })
        } else {
            match spec_parse_type(t, i + 2) {
                Err(e) => Err(e),
                Ok((ty, j)) => {
                    let param = StmtModel::Parameter { name, param_type: ty };
                    let k = if kind_at(t, j) == TokenType::Comma {
                        j + 1
                    } else {
                        j
                    };
                    match spec_parse_params(t, bump(t, i, k)) {
                        Err(e2) => Err(e2),
                        Ok((rest, end)) => Ok((seq![param] + rest, end)),
                    }
                },
            }
        }
    }
}

/// Parse one statement: a registered statement handler for the current
/// token kind, or the expression-statement fallback.
pub open spec fn spec_parse_stmt(t: Seq<TokenModel>, i: int) -> Result<(StmtModel, int), ErrModel>
    decreases t.len() - i, 8int,
{
    match spec_stmt_handler(kind_at(t, i)) {
        Some(StmtHandler::Function) => spec_parse_funct(t, i),
        Some(StmtHandler::If) => spec_parse_if(t, i),
        Some(StmtHandler::For) => spec_parse_for(t, i),
        Some(StmtHandler::While) => spec_parse_while(t, i),
        Some(StmtHandler::Variable) => spec_parse_var(t, i),
        Some(StmtHandler::Block) => spec_parse_block(t, i),
        None => spec_parse_expr_stmt(t, i),
    }
}

/// Parse a bare expression as a statement; the next token must then be a
/// newline or the end of input — the grammar's statement separator.
pub open spec fn spec_parse_expr_stmt(t: Seq<TokenModel>, i: int) -> Result<
    (StmtModel, int),
    ErrModel,
>
    decreases t.len() - i, 7int,
{
    match spec_parse_expr(t, i, BindingPower::Default) {
        Err(e) => Err(e),
        Ok((e, j)) => {
            if kind_at(t, j) == TokenType::NewLine || kind_at(t, j) == TokenType::EOF {
                Ok((StmtModel::Expression { expression: Box::new(e) }, j))
            } else {
                Err(ErrModel::Expectation {
                    expected: TokenType::NewLine,
                    found: kind_at(t, j),
                    message: None,
                })
            }
        },
    }
}

/// Parse a brace-delimited block of statements.
pub open spec fn spec_parse_block(t: Seq<TokenModel>, i: int) -> Result<(StmtModel, int), ErrModel>
    decreases t.len() - i, 6int,
{
    if kind_at(t, i) != TokenType::LBrace {
        Err(ErrModel::Expectation {
            expected: TokenType::LBrace,
            found: kind_at(t, i),
            message: None,
        })
    } else {
        match spec_parse_block_items(t, i + 1) {
            Err(e) => Err(e),
            Ok((items, j)) => Ok((StmtModel::Block { body: items }, j)),
        }
    }
}

/// Parse statements up to and including the closing brace, skipping the
/// newline runs that separate them.
pub open spec fn spec_parse_block_items(t: Seq<TokenModel>, i: int) -> Result<
    (Seq<StmtModel>, int),
    ErrModel,
>
    decreases t.len() - i, 9int,
{
    // Newline skipping never moves backward nor past the end; the guard
    // keeps that manifest for the termination checker.
    let nl = spec_skip_newlines(t, i);
    let i2 = if i <= nl <= t.len() {
        nl
    } else {
        i
    };
    if kind_at(t, i2) == TokenType::RBrace {
        Ok((Seq::empty(), i2 + 1))
    } else if kind_at(t, i2) == TokenType::EOF {
        Err(ErrModel::Expectation {
            expected: TokenType::RBrace,
            found: TokenType::EOF,
            message: None,
        })
    } else {
        match spec_parse_stmt(t, i2) {
            Err(e) => Err(e),
            Ok((s, j)) => {
                match spec_parse_block_items(t, bump(t, i, j)) {
                    Err(e2) => Err(e2),
                    Ok((rest, end)) => Ok((seq![s] + rest, end)),
                }
            },
        }
    }
}

/// Parse a variable declaration: a constant or mutable marker, a name,
/// `:`, a declared type, `=`, and an initializer parsed at the
/// assignment tier.
pub open spec fn spec_parse_var(t: Seq<TokenModel>, i: int) -> Result<(StmtModel, int), ErrModel>
    decreases t.len() - i, 7int,
{
    let constant = kind_at(t, i) == TokenType::ExclamationMark;
    if kind_at(t, i + 1) != TokenType::Identifier {
        Err(ErrModel::Expectation {
            expected: TokenType::Identifier,
            found: kind_at(t, i + 1),
            message: Some("Expected Identifier"@),
        })
    } else if kind_at(t, i + 2) != TokenType::Colon {
        Err(ErrModel::Expectation {
            expected: TokenType::Colon,
            found: kind_at(t, i + 2),
            message: None,
        })
    } else {
        match spec_parse_type(t, i + 3) {
            Err(e) => Err(e),
            Ok((ty, j)) => {
                if kind_at(t, j) != TokenType::Equal {
                    Err(ErrModel::Expectation {
                        expected: TokenType::Equal,
                        found: kind_at(t, j),
                        message: Some("Expected an equals sign"@),
                    })
                } else {
                    match spec_parse_expr(t, bump(t, i, j + 1), BindingPower::Assignment) {
                        Err(e) => Err(e),
                        Ok((value, k)) => Ok(
                            (
                                StmtModel::VariableDecl {
                                    name: tok_at(t, i + 1).text,
                                    value: Box::new(value),
                                    constant,
                                    explicit_type: ty,
                                },
                                k,
                            ),
                        ),
                    }
                }
            },
        }
    }
}

/// Parse a function declaration: keyword, name, `|`-opened parameter
/// list, an optional `:`-introduced return type, and a block body.
pub open spec fn spec_parse_funct(t: Seq<TokenModel>, i: int) -> Result<(StmtModel, int), ErrModel>
    decreases t.len() - i, 7int,
{
    if kind_at(t, i + 1) != TokenType::Identifier {
        Err(ErrModel::Expectation {
            expected: TokenType::Identifier,
            found: kind_at(t, i + 1),
            message: Some("Expect an identifier"@),
        })
    } else if kind_at(t, i + 2) != TokenType::Verbar {
        Err(ErrModel::Expectation {
            expected: TokenType::Verbar,
            found: kind_at(t, i + 2),
            message: None,
        })
    } else {
        match spec_parse_params(t, i + 3) {
            Err(e) => Err(e),
            Ok((params, j)) => {
                let rt: Result<(Option<TypeModel>, int), ErrModel> = if kind_at(t, j)
                    == TokenType::Colon {
                    match spec_parse_type(t, bump(t, i, j + 1)) {
                        Err(e) => Err(e),
                        Ok((ty, j2)) => Ok((Some(ty), j2)),
                    }
                } else {
                    Ok((None, j))
                };
                match rt {
                    Err(e) => Err(e),
                    Ok((retype, j2)) => {
                        match spec_parse_block(t, bump(t, i, j2)) {
                            Err(e) => Err(e),
                            Ok((bm, j3)) => Ok(
                                (
                                    StmtModel::FunctionDecl {
                                        name: tok_at(t, i + 1).text,
                                        parameters: params,
                                        return_type: retype,
                                        body: Some(block_body(bm)),
                                    },
                                    j3,
                                ),
                            ),
                        }
                    },
                }
            },
        }
    }
}

/// Parse an if statement: condition and block, any number of
/// `else if` arms, and an optional final `else` block, as one
/// if-as-expression wrapped in an expression statement.
pub open spec fn spec_parse_if(t: Seq<TokenModel>, i: int) -> Result<(StmtModel, int), ErrModel>
    decreases t.len() - i, 7int,
{
    if kind_at(t, i) == TokenType::EOF {
        Err(ErrModel::MissingHandler { kind: TokenType::EOF })
    } else {
        match spec_parse_expr(t, i + 1, BindingPower::Default) {
            Err(e) => Err(e),
            Ok((cond, j)) => {
                match spec_parse_block(t, bump(t, i, j)) {
                    Err(e) => Err(e),
                    Ok((bm, j2)) => {
                        match spec_parse_if_chain(t, bump(t, i, j2)) {
                            Err(e) => Err(e),
                            Ok(((branches, else_body), j3)) => Ok(
                                (
                                    StmtModel::Expression {
                                        expression: Box::new(
                                            ExprModel::IfExpr {
                                                branches: seq![(cond, block_body(bm))] + branches,
                                                else_body,
                                            },
                                        ),
                                    },
                                    j3,
                                ),
                            ),
                        }
                    },
                }
            },
        }
    }
}

/// Parse the `else if` arms and optional final `else` block of an if
/// statement.
pub open spec fn spec_parse_if_chain(t: Seq<TokenModel>, i: int) -> Result<
    ((Seq<(ExprModel, Seq<StmtModel>)>, Seq<StmtModel>), int),
    ErrModel,
>
    decreases t.len() - i, 9int,
{
    if kind_at(t, i) != TokenType::ElseConditional {
        Ok(((Seq::empty(), Seq::empty()), i))
    } else if kind_at(t, i + 1) == TokenType::IfConditional {
        match spec_parse_expr(t, i + 2, BindingPower::Default) {
            Err(e) => Err(e),
            Ok((cond, j)) => {
                match spec_parse_block(t, bump(t, i, j)) {
                    Err(e) => Err(e),
                    Ok((bm, j2)) => {
                        match spec_parse_if_chain(t, bump(t, i, j2)) {
                            Err(e) => Err(e),
                            Ok(((branches, else_body), j3)) => Ok(
                                (
                                    (seq![(cond, block_body(bm))] + branches, else_body),
                                    j3,
                                ),
                            ),
                        }
                    },
                }
            },
        }
    } else {
        match spec_parse_block(t, i + 1) {
            Err(e) => Err(e),
            Ok((bm, j2)) => Ok(((Seq::empty(), block_body(bm)), j2)),
        }
    }
}

/// Parse a for statement: keyword, loop variable, `in`, the sequence
/// expression, and a block body, as one for-as-expression wrapped in an
/// expression statement.
pub open spec fn spec_parse_for(t: Seq<TokenModel>, i: int) -> Result<(StmtModel, int), ErrModel>
    decreases t.len() - i, 7int,
{
    if kind_at(t, i + 1) != TokenType::Identifier {
        Err(ErrModel::Expectation {
            expected: TokenType::Identifier,
            found: kind_at(t, i + 1),
            message: None,
        })
    } else if kind_at(t, i + 2) != TokenType::InLoop {
        Err(ErrModel::Expectation {
            expected: TokenType::InLoop,
            found: kind_at(t, i + 2),
            message: None,
        })
    } else {
        match spec_parse_expr(t, i + 3, BindingPower::Default) {
            Err(e) => Err(e),
            Ok((sequence, j)) => {
                match spec_parse_block(t, bump(t, i, j)) {
                    Err(e) => Err(e),
                    Ok((bm, j2)) => Ok(
                        (
                            StmtModel::Expression {
                                expression: Box::new(
                                    ExprModel::ForExpr {
                                        var_name: Box::new(
                                            ExprModel::Identifier { value: tok_at(t, i + 1).text },
                                        ),
                                        sequence: Box::new(sequence),
                                        body: block_body(bm),
                                    },
                                ),
                            },
                            j2,
                        ),
                    ),
                }
            },
        }
    }
}

/// Parse a while statement: keyword, condition and block body, as one
/// while-as-expression wrapped in an expression statement.
pub open spec fn spec_parse_while(t: Seq<TokenModel>, i: int) -> Result<(StmtModel, int), ErrModel>
    decreases t.len() - i, 7int,
{
    if kind_at(t, i) == TokenType::EOF {
        Err(ErrModel::MissingHandler { kind: TokenType::EOF })
    } else {
        match spec_parse_expr(t, i + 1, BindingPower::Default) {
            Err(e) => Err(e),
            Ok((cond, j)) => {
                match spec_parse_block(t, bump(t, i, j)) {
                    Err(e) => Err(e),
                    Ok((bm, j2)) => Ok(
                        (
                            StmtModel::Expression {
                                expression: Box::new(
                                    ExprModel::WhileExpr {
                                        condition: Box::new(cond),
                                        body: block_body(bm),
                                    },
                                ),
                            },
                            j2,
                        ),
                    ),
                }
            },
        }
    }
}

/// Parse the top-level statements of a program, skipping the newline
/// runs that separate them, until the end of input.
pub open spec fn spec_parse_program_items(t: Seq<TokenModel>, i: int) -> Result<
    (Seq<StmtModel>, int),
    ErrModel,
>
    decreases t.len() - i, 9int,
{
    if kind_at(t, i) == TokenType::EOF {
        Ok((Seq::empty(), i))
    } else {
        match spec_parse_stmt(t, i) {
            Err(e) => Err(e),
            Ok((s, j)) => {
                let j2 = spec_skip_newlines(t, bump(t, i, j));
                match spec_parse_program_items(t, bump(t, i, j2)) {
                    Err(e2) => Err(e2),
                    Ok((rest, end)) => Ok((seq![s] + rest, end)),
                }
            },
        }
    }
}

/// Parse a whole program: every top-level statement in source order,
/// gathered under one program node.
pub open spec fn spec_parse(t: Seq<TokenModel>, i: int) -> Result<(StmtModel, int), ErrModel>
    decreases t.len() - i, 10int,
{
    match spec_parse_program_items(t, i) {
        Err(e) => Err(e),
        Ok((items, j)) => Ok((StmtModel::Program { body: items }, j)),
    }
}

} // verus!
