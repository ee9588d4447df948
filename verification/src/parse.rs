//! The boundary to the outside expression parser.
//!
//! Source text is handed to syn_impersonated, a general-purpose expression
//! parser, and its tree is converted node by node into `Node`. Both steps are
//! pure functions of the text, which `parse_of` names; nothing further is
//! assumed of them. Syntax outside the evaluated language is kept as
//! `Node::Unsupported`, which evaluation rejects, as the original grammar is
//! wider than the language.

use vstd::prelude::*;

use crate::node::Node;
use crate::float::float_from_digits;
use crate::operator::Operator;
use crate::value::Value;

verus! {

#[verifier::external_type_specification]
#[verifier::external_body]
pub struct ExSynExpr(syn_impersonated::Expr);

#[verifier::external_type_specification]
#[verifier::external_body]
pub struct ExSynLit(syn_impersonated::Lit);

#[verifier::external_type_specification]
#[verifier::external_body]
pub struct ExSynBinOp(syn_impersonated::BinOp);

#[verifier::external_type_specification]
#[verifier::external_body]
pub struct ExSynExprUnary(syn_impersonated::ExprUnary);

#[verifier::external_type_specification]
#[verifier::external_body]
pub struct ExSynExprBinary(syn_impersonated::ExprBinary);

#[verifier::external_type_specification]
#[verifier::external_body]
pub struct ExSynExprPath(syn_impersonated::ExprPath);

#[verifier::external_type_specification]
#[verifier::external_body]
pub struct ExSynExprCall(syn_impersonated::ExprCall);

#[verifier::external_type_specification]
#[verifier::external_body]
pub struct ExSynExprMethodCall(syn_impersonated::ExprMethodCall);

#[verifier::external_type_specification]
#[verifier::external_body]
pub struct ExSynExprArray(syn_impersonated::ExprArray);

#[verifier::external_type_specification]
#[verifier::external_body]
pub struct ExSynExprIndex(syn_impersonated::ExprIndex);

#[verifier::external_type_specification]
#[verifier::external_body]
pub struct ExSynExprRange(syn_impersonated::ExprRange);

/// The expression tree that the source text parses and converts to, absent
/// when the text does not parse; a pure function of the text.
pub uninterp spec fn parse_of(s: Seq<char>) -> Option<Node>;

/// Relies on syn_impersonated::parse_str for turning source text into the
/// parser's expression tree, which is then converted node by node; both
/// steps depend on the text alone.
#[verifier::external_body]
pub fn parse_source(s: &str) -> (r: Option<Node>)
    ensures
        r == parse_of(s@),
{
    match syn_impersonated::parse_str::<syn_impersonated::Expr>(s) {
        Ok(e) => Some(conv_expr(&e)),
        Err(_) => None,
    }
}

/// Converts one parser node, handing each supported kind to its converter.
#[verifier::external_body]
fn conv_expr(e: &syn_impersonated::Expr) -> Node {
    match e {
        syn_impersonated::Expr::Lit(x) => conv_lit(&x.lit),
        syn_impersonated::Expr::Unary(x) => conv_unary(x),
        syn_impersonated::Expr::Binary(x) => conv_binary(x),
        syn_impersonated::Expr::Path(x) => conv_path(x),
        syn_impersonated::Expr::Call(x) => conv_call(x),
        syn_impersonated::Expr::MethodCall(x) => conv_method(x),
        _ => conv_expr_rest(e),
    }
}

/// Converts the collection, indexing, range and grouping node kinds.
#[verifier::external_body]
fn conv_expr_rest(e: &syn_impersonated::Expr) -> Node {
    match e {
        syn_impersonated::Expr::Array(x) => conv_array(x),
        syn_impersonated::Expr::Index(x) => conv_index(x),
        syn_impersonated::Expr::Range(x) => conv_range(x),
        syn_impersonated::Expr::Paren(x) => Node::Paren(Box::new(conv_expr(&x.expr))),
        syn_impersonated::Expr::Group(x) => Node::Paren(Box::new(conv_expr(&x.expr))),
        syn_impersonated::Expr::Reference(x) => Node::RefOf(Box::new(conv_expr(&x.expr))),
        _ => Node::Unsupported,
    }
}

/// Converts a literal; relies on LitInt::base10_parse, LitFloat::base10_digits,
/// LitStr::value and LitBool's value field.
#[verifier::external_body]
fn conv_lit(l: &syn_impersonated::Lit) -> Node {
    match l {
        syn_impersonated::Lit::Bool(b) => Node::Lit(Value::Bool(b.value)),
        syn_impersonated::Lit::Int(i) => match i.base10_parse::<i64>() {
            Ok(v) => Node::Lit(Value::Int(v)),
            Err(_) => Node::Unsupported,
        },
        syn_impersonated::Lit::Float(f) => match float_from_digits(f.base10_digits()) {
            Some(bits) => Node::Lit(Value::Float(bits)),
            None => Node::Unsupported,
        },
        syn_impersonated::Lit::Str(s) => Node::Lit(Value::Str(s.value())),
        _ => Node::Unsupported,
    }
}

/// Converts a unary node; only logical negation and arithmetic negation
/// belong to the language.
#[verifier::external_body]
fn conv_unary(x: &syn_impersonated::ExprUnary) -> Node {
    let inner = Box::new(conv_expr(&x.expr));
    match x.op {
        syn_impersonated::UnOp::Not(_) => Node::Unary(Operator::Not, inner),
        syn_impersonated::UnOp::Neg(_) => Node::Unary(Operator::Neg, inner),
        _ => Node::Unsupported,
    }
}

/// Converts an arithmetic or logical operator token, one arm per variant.
#[verifier::external_body]
fn conv_binop(op: &syn_impersonated::BinOp) -> Option<Operator> {
    match op {
        syn_impersonated::BinOp::Add(_) => Some(Operator::Add),
        syn_impersonated::BinOp::Sub(_) => Some(Operator::Sub),
        syn_impersonated::BinOp::Mul(_) => Some(Operator::Mul),
        syn_impersonated::BinOp::Div(_) => Some(Operator::Div),
        syn_impersonated::BinOp::Rem(_) => Some(Operator::Rem),
        syn_impersonated::BinOp::And(_) => Some(Operator::And),
        syn_impersonated::BinOp::Or(_) => Some(Operator::Or),
        _ => conv_binop_cmp(op),
    }
}

/// Converts a comparison operator token, one arm per variant.
#[verifier::external_body]
fn conv_binop_cmp(op: &syn_impersonated::BinOp) -> Option<Operator> {
    match op {
        syn_impersonated::BinOp::Eq(_) => Some(Operator::Eq),
        syn_impersonated::BinOp::Ne(_) => Some(Operator::Ne),
        syn_impersonated::BinOp::Lt(_) => Some(Operator::Lt),
        syn_impersonated::BinOp::Le(_) => Some(Operator::Le),
        syn_impersonated::BinOp::Gt(_) => Some(Operator::Gt),
        syn_impersonated::BinOp::Ge(_) => Some(Operator::Ge),
        _ => None,
    }
}

/// Converts a binary node.
#[verifier::external_body]
fn conv_binary(x: &syn_impersonated::ExprBinary) -> Node {
    match conv_binop(&x.op) {
        Some(op) => Node::Binary(
            Box::new(conv_expr(&x.left)),
            op,
            Box::new(conv_expr(&x.right)),
        ),
        None => Node::Unsupported,
    }
}

/// Converts a path node; relies on Path::get_ident and Ident::to_string.
/// A lone `None` is the language's empty-optional literal; any other lone
/// name refers to a context entry.
#[verifier::external_body]
fn conv_path(x: &syn_impersonated::ExprPath) -> Node {
    if x.qself.is_some() {
        return Node::Unsupported;
    }
    match x.path.get_ident() {
        Some(id) if *id == "None" => Node::NoneLit,
        Some(id) => Node::Ident(id.to_string()),
        None => Node::Unsupported,
    }
}

/// Converts a call node; only the option constructor `Some(x)` belongs to
/// the language. Relies on Path::get_ident.
#[verifier::external_body]
fn conv_call(x: &syn_impersonated::ExprCall) -> Node {
    if let syn_impersonated::Expr::Path(p) = &*x.func {
        if p.qself.is_none() && x.args.len() == 1 {
            if let Some(id) = p.path.get_ident() {
                if *id == "Some" {
                    return Node::Wrap(Box::new(conv_expr(&x.args[0])));
                }
            }
        }
    }
    Node::Unsupported
}

/// Converts a method-call node; relies on Ident::to_string for the method
/// name. The language has no method of more than one argument.
#[verifier::external_body]
fn conv_method(x: &syn_impersonated::ExprMethodCall) -> Node {
    if x.turbofish.is_some() || x.args.len() > 1 {
        return Node::Unsupported;
    }
    let recv = Box::new(conv_expr(&x.receiver));
    let arg = match x.args.first() {
        Some(a) => Some(Box::new(conv_expr(a))),
        None => None,
    };
    Node::Method(recv, x.method.to_string(), arg)
}

/// Converts a list literal, element by element.
#[verifier::external_body]
fn conv_array(x: &syn_impersonated::ExprArray) -> Node {
    let mut out: Vec<Node> = Vec::new();
    for el in x.elems.iter() {
        out.push(conv_expr(el));
    }
    Node::Array(out)
}

/// Converts an indexing node.
#[verifier::external_body]
fn conv_index(x: &syn_impersonated::ExprIndex) -> Node {
    Node::Index(Box::new(conv_expr(&x.expr)), Box::new(conv_expr(&x.index)))
}

/// Converts a range node; the language has half-open ranges with both
/// bounds written out.
#[verifier::external_body]
fn conv_range(x: &syn_impersonated::ExprRange) -> Node {
    match (&x.from, &x.to, &x.limits) {
        (Some(a), Some(b), syn_impersonated::RangeLimits::HalfOpen(_)) => Node::RangeOf(
            Box::new(conv_expr(a)),
            Box::new(conv_expr(b)),
        ),
        _ => Node::Unsupported,
    }
}

/// Relies on str's equality: true exactly when the two texts hold the same
/// characters.
#[verifier::external_body]
pub fn str_eq(a: &str, b: &str) -> (r: bool)
    ensures
        r == (a@ == b@),
{
    a == b
}

} // verus!
