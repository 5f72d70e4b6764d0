//! The statement side of the syntax tree model: declared types, statement
//! node shapes, their mathematical models, and constructors.

use vstd::prelude::*;
use crate::expression_ast::{Expr, ExprModel};

verus! {

broadcast use
    vstd::std_specs::vec::axiom_vec_decreases_to_view,
    vstd::seq::axiom_seq_index_decreases,
    vstd::seq::axiom_seq_subrange_decreases;

/// A declared type annotation: one of the built-in type names or a named
/// custom type.
#[derive(Debug, PartialEq)]
pub enum Type {
    Number,
    Text,
    Boolean,
    Null,
    Any,
    Custom(String),
}

/// Mathematical model of a declared type.
pub enum TypeModel {
    Number,
    Text,
    Boolean,
    Null,
    Any,
    Custom { name: Seq<char> },
}

impl Type {
    /// The mathematical model of this declared type.
    pub open spec fn model(self) -> TypeModel {
        match self {
            Type::Number => TypeModel::Number,
            Type::Text => TypeModel::Text,
            Type::Boolean => TypeModel::Boolean,
            Type::Null => TypeModel::Null,
            Type::Any => TypeModel::Any,
            Type::Custom(name) => TypeModel::Custom { name: name@ },
        }
    }
}

/// A statement node. The program node is the root of every parsed tree.
#[derive(Debug, PartialEq)]
pub enum Stmt {
    Expression { expression: Box<Expr> },
    Block { body: Vec<Stmt> },
    Program { body: Vec<Stmt> },
    FunctionDecl {
        name: String,
        parameters: Vec<Stmt>,
        return_type: Option<Type>,
        body: Option<Vec<Stmt>>,
    },
    Parameter { name: String, param_type: Type },
    VariableDecl { name: String, value: Box<Expr>, constant: bool, explicit_type: Type },
}

/// Mathematical model of a statement node.
pub enum StmtModel {
    Expression { expression: Box<ExprModel> },
    Block { body: Seq<StmtModel> },
    Program { body: Seq<StmtModel> },
    FunctionDecl {
        name: Seq<char>,
        parameters: Seq<StmtModel>,
        return_type: Option<TypeModel>,
        body: Option<Seq<StmtModel>>,
    },
    Parameter { name: Seq<char>, param_type: TypeModel },
    VariableDecl {
        name: Seq<char>,
        value: Box<ExprModel>,
        constant: bool,
        explicit_type: TypeModel,
    },
}

impl Stmt {
    /// The mathematical model of this statement.
    pub open spec fn model(self) -> StmtModel
        decreases self,
    {
        match self {
            Stmt::Expression { expression } => StmtModel::Expression {
                expression: Box::new((*expression).model()),
            },
            Stmt::Block { body } => StmtModel::Block { body: model_stmts(body@) },
            Stmt::Program { body } => StmtModel::Program { body: model_stmts(body@) },
            Stmt::FunctionDecl { name, parameters, return_type, body } => StmtModel::FunctionDecl {
                name: name@,
                parameters: model_stmts(parameters@),
                return_type: match return_type {
                    Some(t) => Some(t.model()),
                    None => None,
                },
                body: match body {
                    Some(b) => Some(model_stmts(b@)),
                    None => None,
                },
            },
            Stmt::Parameter { name, param_type } => StmtModel::Parameter {
                name: name@,
                param_type: param_type.model(),
            },
            Stmt::VariableDecl { name, value, constant, explicit_type } => StmtModel::VariableDecl {
                name: name@,
                value: Box::new((*value).model()),
                constant,
                explicit_type: explicit_type.model(),
            },
        }
    }
}

/// Models of a sequence of statements, element by element, in order.
pub open spec fn model_stmts(s: Seq<Stmt>) -> Seq<StmtModel>
    decreases s,
{
    if s.len() == 0 {
        Seq::empty()
    } else {
        seq![s.first().model()] + model_stmts(s.drop_first())
    }
}

/// Function arity: an exact parameter count, or an accepted range.
#[derive(Debug, PartialEq)]
pub enum Arity {
    Exact(usize),
    Range(usize, usize),
}

/// Pass a statement through unchanged.
pub fn expect_stmt<T>(stmt: T) -> (r: T)
    ensures
        r == stmt,
{
    stmt
}

impl Stmt {
    /// Build an expression statement around an expression.
    pub fn new_expression(expression: Expr) -> (r: Self)
        ensures
            r == (Stmt::Expression { expression: Box::new(expression) }),
    {
        Stmt::Expression { expression: Box::new(expression) }
    }

    /// Build a block node from its statements.
    pub fn new_block(body: Vec<Stmt>) -> (r: Self)
        ensures
            r == (Stmt::Block { body }),
    {
        Stmt::Block { body }
    }

    /// Build the root node of a parse: a program with an empty body.
    pub fn init_program() -> (r: Self)
        ensures
            r matches Stmt::Program { body } && body@ =~= Seq::<Stmt>::empty(),
    {
        Stmt::Program { body: Vec::new() }
    }

    /// Build a program node from its statements.
    pub fn new_program(body: Vec<Stmt>) -> (r: Self)
        ensures
            r == (Stmt::Program { body }),
    {
        Stmt::Program { body }
    }

    /// Append a statement to a program node's body; any other node is left
    /// unchanged and reported as an error.
    pub fn push_to_program(&mut self, stmt: Stmt) -> (r: Result<(), &'static str>)
        ensures
            match *old(self) {
                Stmt::Program { body } => {
                    &&& r is Ok
                    &&& *final(self) matches Stmt::Program { body: b } && b@ == body@.push(stmt)
                },
                _ => r is Err && *final(self) == *old(self),
            },
    {
        if let Stmt::Program { body } = self {
            body.push(stmt);
            Ok(())
        } else {
            Err("Not a Program variant")
        }
    }

    /// Build a function declaration node.
    pub fn new_function_decl(
        name: String,
        parameters: Vec<Stmt>,
        return_type: Option<Type>,
        body: Option<Vec<Stmt>>,
    ) -> (r: Self)
        ensures
            r == (Stmt::FunctionDecl { name, parameters, return_type, body }),
    {
        Stmt::FunctionDecl { name, parameters, return_type, body }
    }

    /// Build a parameter node.
    pub fn new_parameter(name: String, param_type: Type) -> (r: Self)
        ensures
            r == (Stmt::Parameter { name, param_type }),
    {
        Stmt::Parameter { name, param_type }
    }

    /// Build a variable declaration node.
    pub fn new_variable_decl(name: String, value: Expr, constant: bool, explicit_type: Type) -> (r:
        Self)
        ensures
            r == (Stmt::VariableDecl {
                name,
                value: Box::new(value),
                constant,
                explicit_type,
            }),
    {
        Stmt::VariableDecl { name, value: Box::new(value), constant, explicit_type }
    }

    /// The body of a block node, or `None` for any other node.
    pub fn extractblock_body(&self) -> (r: Option<&Vec<Stmt>>)
        ensures
            match *self {
                Stmt::Block { body } => r matches Some(b) && *b == body,
                _ => r is None,
            },
    {
        if let Stmt::Block { body } = self {
            Some(body)
        } else {
            None
        }
    }
}

} // verus!
