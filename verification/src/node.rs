//! The expression tree that the evaluator walks.
//!
//! The outside parser's output is converted, node by node, into this shape;
//! everything downstream of that conversion is verified against it.

use vstd::prelude::*;

use crate::operator::Operator;
use crate::value::Value;

verus! {

/// A node of an expression tree.
#[derive(Debug)]
pub enum Node {
    /// A literal value.
    Lit(Value),
    /// The `None` literal; its value is option-derived.
    NoneLit,
    /// The `Some(x)` option constructor; its value is option-derived.
    Wrap(Box<Node>),
    /// A name, resolved against the context.
    Ident(String),
    /// A unary operator applied to an operand.
    Unary(Operator, Box<Node>),
    /// A binary operator between two operands.
    Binary(Box<Node>, Operator, Box<Node>),
    /// A method call: receiver, method name, optional single argument.
    Method(Box<Node>, String, Option<Box<Node>>),
    /// A list literal.
    Array(Vec<Node>),
    /// An indexing or slicing expression.
    Index(Box<Node>, Box<Node>),
    /// A range with both bounds given, end exclusive.
    RangeOf(Box<Node>, Box<Node>),
    /// A parenthesized group: structural only.
    Paren(Box<Node>),
    /// A reference prefix: a transparent pass-through.
    RefOf(Box<Node>),
    /// Syntax the language does not evaluate; always fails.
    Unsupported,
}

} // verus!
