//! The expression side of the syntax tree model: the closed set of
//! expression node shapes, their mathematical models, and constructors.

use vstd::prelude::*;
use crate::token::{Token, TokenModel};
use crate::statement_ast::{Stmt, StmtModel, model_stmts};

verus! {

broadcast use
    vstd::std_specs::vec::axiom_vec_decreases_to_view,
    vstd::seq::axiom_seq_index_decreases,
    vstd::seq::axiom_seq_subrange_decreases;

/// One `condition => body` arm of an if-as-expression.
#[derive(Debug, PartialEq)]
pub struct IfBranch {
    pub condition: Expr,
    pub body: Vec<Stmt>,
}

/// One ordered key/value pair of a map literal.
#[derive(Debug, PartialEq)]
pub struct MapEntry {
    pub key: Expr,
    pub value: Expr,
}

/// An expression node. Every child is exclusively owned by its parent:
/// the tree is acyclic and nodes are never mutated after construction.
#[derive(Debug, PartialEq)]
pub enum Expr {
    AssignmentExpr { assigne: Box<Expr>, value: Box<Expr> },
    BinaryExpr { left: Box<Expr>, operator: Token, right: Box<Expr> },
    Boolean { value: bool },
    CallExpr { args: Vec<Expr>, caller: Box<Expr> },
    ComputedExpr { member: Box<Expr>, property: Box<Expr> },
    ForExpr { var_name: Box<Expr>, sequence: Box<Expr>, body: Vec<Stmt> },
    Identifier { value: String },
    IfExpr { branches: Vec<IfBranch>, else_body: Vec<Stmt> },
    Lambda { parameters: Vec<Stmt>, body: Box<Expr> },
    List { value: Vec<Expr>, length: usize },
    MapLiteral { entries: Vec<MapEntry> },
    MembreExpr { member: Box<Expr>, property: Box<Expr> },
    NCallExpr { args: Vec<Stmt>, caller: Box<Expr> },
    Null,
    Number { value: String },
    Property { name: String, value: Box<Expr> },
    Return { value: Box<Expr> },
    StringLiteral { value: String, length: usize },
    TernaryExpr { condition: Box<Expr>, true_value: Box<Expr>, false_value: Box<Expr> },
    UnaryExpr { operator: Token, right: Box<Expr> },
    WhileExpr { condition: Box<Expr>, body: Vec<Stmt> },
}

/// Mathematical model of an expression node, with text as character
/// sequences and children as mathematical sequences.
pub enum ExprModel {
    AssignmentExpr { assigne: Box<ExprModel>, value: Box<ExprModel> },
    BinaryExpr { left: Box<ExprModel>, operator: TokenModel, right: Box<ExprModel> },
    Boolean { value: bool },
    CallExpr { args: Seq<ExprModel>, caller: Box<ExprModel> },
    ComputedExpr { member: Box<ExprModel>, property: Box<ExprModel> },
    ForExpr { var_name: Box<ExprModel>, sequence: Box<ExprModel>, body: Seq<StmtModel> },
    Identifier { value: Seq<char> },
    IfExpr { branches: Seq<(ExprModel, Seq<StmtModel>)>, else_body: Seq<StmtModel> },
    Lambda { parameters: Seq<StmtModel>, body: Box<ExprModel> },
    List { value: Seq<ExprModel>, length: nat },
    MapLiteral { entries: Seq<(ExprModel, ExprModel)> },
    MembreExpr { member: Box<ExprModel>, property: Box<ExprModel> },
    NCallExpr { args: Seq<StmtModel>, caller: Box<ExprModel> },
    Null,
    Number { value: Seq<char> },
    Property { name: Seq<char>, value: Box<ExprModel> },
    Return { value: Box<ExprModel> },
    StringLiteral { value: Seq<char>, length: nat },
    TernaryExpr { condition: Box<ExprModel>, true_value: Box<ExprModel>, false_value: Box<ExprModel> },
    UnaryExpr { operator: TokenModel, right: Box<ExprModel> },
    WhileExpr { condition: Box<ExprModel>, body: Seq<StmtModel> },
}

impl Expr {
    /// The mathematical model of this expression.
    pub open spec fn model(self) -> ExprModel
        decreases self,
    {
        match self {
            Expr::AssignmentExpr { assigne, value } => ExprModel::AssignmentExpr {
                assigne: Box::new((*assigne).model()),
                value: Box::new((*value).model()),
            },
            Expr::BinaryExpr { left, operator, right } => ExprModel::BinaryExpr {
                left: Box::new((*left).model()),
                operator: operator@,
                right: Box::new((*right).model()),
            },
            Expr::Boolean { value } => ExprModel::Boolean { value },
            Expr::CallExpr { args, caller } => ExprModel::CallExpr {
                args: model_exprs(args@),
                caller: Box::new((*caller).model()),
            },
            Expr::ComputedExpr { member, property } => ExprModel::ComputedExpr {
                member: Box::new((*member).model()),
                property: Box::new((*property).model()),
            },
            Expr::ForExpr { var_name, sequence, body } => ExprModel::ForExpr {
                var_name: Box::new((*var_name).model()),
                sequence: Box::new((*sequence).model()),
                body: model_stmts(body@),
            },
            Expr::Identifier { value } => ExprModel::Identifier { value: value@ },
            Expr::IfExpr { branches, else_body } => ExprModel::IfExpr {
                branches: model_branches(branches@),
                else_body: model_stmts(else_body@),
            },
            Expr::Lambda { parameters, body } => ExprModel::Lambda {
                parameters: model_stmts(parameters@),
                body: Box::new((*body).model()),
            },
            Expr::List { value, length } => ExprModel::List {
                value: model_exprs(value@),
                length: length as nat,
            },
            Expr::MapLiteral { entries } => ExprModel::MapLiteral {
                entries: model_entries(entries@),
            },
            Expr::MembreExpr { member, property } => ExprModel::MembreExpr {
                member: Box::new((*member).model()),
                property: Box::new((*property).model()),
            },
            Expr::NCallExpr { args, caller } => ExprModel::NCallExpr {
                args: model_stmts(args@),
                caller: Box::new((*caller).model()),
            },
            Expr::Null => ExprModel::Null,
            Expr::Number { value } => ExprModel::Number { value: value@ },
            Expr::Property { name, value } => ExprModel::Property {
                name: name@,
                value: Box::new((*value).model()),
            },
            Expr::Return { value } => ExprModel::Return { value: Box::new((*value).model()) },
            Expr::StringLiteral { value, length } => ExprModel::StringLiteral {
                value: value@,
                length: length as nat,
            },
            Expr::TernaryExpr { condition, true_value, false_value } => ExprModel::TernaryExpr {
                condition: Box::new((*condition).model()),
                true_value: Box::new((*true_value).model()),
                false_value: Box::new((*false_value).model()),
            },
            Expr::UnaryExpr { operator, right } => ExprModel::UnaryExpr {
                operator: operator@,
                right: Box::new((*right).model()),
            },
            Expr::WhileExpr { condition, body } => ExprModel::WhileExpr {
                condition: Box::new((*condition).model()),
                body: model_stmts(body@),
            },
        }
    }
}

/// Models of a sequence of expressions, element by element, in order.
pub open spec fn model_exprs(s: Seq<Expr>) -> Seq<ExprModel>
    decreases s,
{
    if s.len() == 0 {
        Seq::empty()
    } else {
        seq![s.first().model()] + model_exprs(s.drop_first())
    }
}

/// Models of a sequence of if-branches, element by element, in order.
pub open spec fn model_branches(s: Seq<IfBranch>) -> Seq<(ExprModel, Seq<StmtModel>)>
    decreases s,
{
    if s.len() == 0 {
        Seq::empty()
    } else {
        seq![(s.first().condition.model(), model_stmts(s.first().body@))] + model_branches(
            s.drop_first(),
        )
    }
}

/// Models of a sequence of map entries, element by element, in order.
pub open spec fn model_entries(s: Seq<MapEntry>) -> Seq<(ExprModel, ExprModel)>
    decreases s,
{
    if s.len() == 0 {
        Seq::empty()
    } else {
        seq![(s.first().key.model(), s.first().value.model())] + model_entries(s.drop_first())
    }
}

/// A sequence of expressions and its model have the same length.
pub proof fn lemma_model_exprs_len(s: Seq<Expr>)
    ensures
        model_exprs(s).len() == s.len(),
    decreases s.len(),
{
    if s.len() != 0 {
        lemma_model_exprs_len(s.drop_first());
    }
}

/// Pass an expression through unchanged.
pub fn expect_expr<T>(expr: T) -> (r: T)
    ensures
        r == expr,
{
    expr
}

impl Expr {
    /// Build an assignment node from its target and its value.
    pub fn new_assignment(assigne: Expr, value: Expr) -> (r: Self)
        ensures
            r == (Expr::AssignmentExpr { assigne: Box::new(assigne), value: Box::new(value) }),
    {
        Expr::AssignmentExpr { assigne: Box::new(assigne), value: Box::new(value) }
    }

    /// Build a binary node from its children and its operator token.
    pub fn new_binary(left: Expr, operator: Token, right: Expr) -> (r: Self)
        ensures
            r == (Expr::BinaryExpr {
                left: Box::new(left),
                operator: operator,
                right: Box::new(right),
            }),
    {
        Expr::BinaryExpr { left: Box::new(left), operator, right: Box::new(right) }
    }

    /// Build a boolean literal node.
    pub fn new_boolean(value: bool) -> (r: Self)
        ensures
            r == (Expr::Boolean { value }),
    {
        Expr::Boolean { value }
    }
}

} // verus!
