use crate::token::TokenKind;
use vstd::prelude::*;

verus! {

/// An expression tree.
#[derive(Debug, PartialEq)]
pub enum Expression {
    /// A name, taken from an identifier token.
    Ident(String),
    /// A literal, taken from the text of its token.
    Literal(String),
    /// A unary operator applied to its operand.
    Prefix(TokenKind, Box<Expression>),
    /// A binary operator between a left and a right operand.
    Infix(Box<Expression>, TokenKind, Box<Expression>),
}

/// A statement at the top level of a program.
#[derive(Debug, PartialEq)]
pub enum Statement {
    /// `let name = value`.
    Let(String, Expression),
    /// `constrain value`.
    Constrain(Expression),
    /// An expression evaluated for its effect.
    Expr(Expression),
}

/// A parameter of a function: its name and the name of its type.
#[derive(Debug, PartialEq)]
pub struct Parameter {
    pub name: String,
    pub ty: String,
}

/// A function definition: its name, its ordered parameters and its body.
#[derive(Debug, PartialEq)]
pub struct FunctionDefinition {
    pub name: String,
    pub parameters: Vec<Parameter>,
    pub body: Vec<Statement>,
}

impl FunctionDefinition {
    pub fn new(name: String, parameters: Vec<Parameter>, body: Vec<Statement>) -> (r:
        FunctionDefinition)
        ensures
            r.name == name,
            r.parameters == parameters,
            r.body == body,
    {
        FunctionDefinition { name, parameters, body }
    }
}

impl Parameter {
    pub fn new(name: String, ty: String) -> (r: Parameter)
        ensures
            r.name == name,
            r.ty == ty,
    {
        Parameter { name, ty }
    }
}

} // verus!
