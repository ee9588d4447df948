//! Binary and unary operators: their precedence, the operand-compatibility
//! rule, and their semantics.
//!
//! Operators at a higher level bind tighter; operators at one level associate
//! left to right. Unary operators are applied against a synthetic identity
//! operand (`Int(0)` for negation, `Bool(false)` for logical negation), which the compatibility rule checks like any right operand.

use vstd::prelude::*;

use crate::float::{
    add_bits, cmp_bits, div_bits, float_add, float_cmp, float_div, float_mul, float_rem, float_sub,
    mul_bits, neg_bits, rem_bits, spec_neg_bits, sub_bits,
};
use crate::value::{
    spec_repeat, spec_same_tag, spec_val_eq, str_repeat, sval, SpecValue, Value, value_eq,
};
use vstd::string::StringExecFns;

verus! {

/// An operator of the expression language.
#[derive(Debug, Clone, Copy, PartialEq, Eq, Structural)]
pub enum Operator {
    Not,
    Neg,
    Mul,
    Div,
    Rem,
    Add,
    Sub,
    Eq,
    Ne,
    Gt,
    Lt,
    Ge,
    Le,
    And,
    Or,
}

/// The precedence level of an operator; a higher level binds tighter.
/// Unary operators stand above multiplication, which stands above addition,
/// which stands above the comparisons, which share one level, as do the two
/// logical connectives.
pub open spec fn spec_level(op: Operator) -> int {
    match op {
        Operator::Not | Operator::Neg => 5,
        Operator::Mul | Operator::Div | Operator::Rem => 4,
        Operator::Add | Operator::Sub => 3,
        Operator::Eq | Operator::Ne | Operator::Gt | Operator::Lt | Operator::Ge
            | Operator::Le => 2,
        Operator::And | Operator::Or => 1,
    }
}

impl Operator {
    /// The precedence level; a higher level binds tighter.
    pub fn level(self) -> (r: u8)
        ensures
            r as int == spec_level(self),
    {
        match self {
            Operator::Not | Operator::Neg => 5,
            Operator::Mul | Operator::Div | Operator::Rem => 4,
            Operator::Add | Operator::Sub => 3,
            Operator::Eq | Operator::Ne | Operator::Gt | Operator::Lt | Operator::Ge
                | Operator::Le => 2,
            Operator::And | Operator::Or => 1,
        }
    }

    /// How this operator's precedence compares to another's.
    pub fn preference(self, o: Operator) -> (r: core::cmp::Ordering)
        ensures
            r == core::cmp::Ordering::Less <==> spec_level(self) < spec_level(o),
            r == core::cmp::Ordering::Equal <==> spec_level(self) == spec_level(o),
            r == core::cmp::Ordering::Greater <==> spec_level(self) > spec_level(o),
    {
        let a = self.level();
        let b = o.level();
        if a < b {
            core::cmp::Ordering::Less
        } else if a == b {
            core::cmp::Ordering::Equal
        } else {
            core::cmp::Ordering::Greater
        }
    }

    /// Whether this operator binds strictly tighter than another.
    pub fn gt_preference(self, o: Operator) -> (r: bool)
        ensures
            r == (spec_level(self) > spec_level(o)),
    {
        match self.preference(o) {
            core::cmp::Ordering::Greater => true,
            _ => false,
        }
    }

    /// Whether this operator binds exactly as tightly as another.
    pub fn eq_preference(self, o: Operator) -> (r: bool)
        ensures
            r == (spec_level(self) == spec_level(o)),
    {
        match self.preference(o) {
            core::cmp::Ordering::Equal => true,
            _ => false,
        }
    }
}

/// The operand-compatibility rule: whether `op` may combine a left operand
/// of `a`'s variant with a right operand of `b`'s variant. Unary operators
/// expect their synthetic identity as the right operand. No operator accepts
/// a `None` left operand.
pub open spec fn spec_check_op(op: Operator, a: SpecValue, b: SpecValue) -> bool {
    match a {
        SpecValue::Int(_) => match op {
            Operator::Mul => match b {
                SpecValue::Str(_) => true,
                _ => spec_same_tag(a, b),
            },
            Operator::Add | Operator::Sub | Operator::Div | Operator::Rem | Operator::Eq
                | Operator::Ne | Operator::Gt | Operator::Ge | Operator::Lt | Operator::Le =>
                spec_same_tag(a, b),
            Operator::Neg => b == SpecValue::Int(0),
            _ => false,
        },
        SpecValue::Float(_) => match op {
            Operator::Add | Operator::Mul | Operator::Sub | Operator::Div | Operator::Rem
                | Operator::Eq | Operator::Ne | Operator::Gt | Operator::Ge | Operator::Lt
                | Operator::Le => spec_same_tag(a, b),
            Operator::Neg => b == SpecValue::Int(0),
            _ => false,
        },
        SpecValue::Str(_) => match op {
            Operator::Mul => match b {
                SpecValue::Int(_) => true,
                _ => false,
            },
            Operator::Add | Operator::Eq | Operator::Ne => spec_same_tag(a, b),
            _ => false,
        },
        SpecValue::Range(_, _) | SpecValue::List(_) => match op {
            Operator::Eq | Operator::Ne => spec_same_tag(a, b),
            _ => false,
        },
        SpecValue::Bool(_) => match op {
            Operator::Eq | Operator::Ne | Operator::And | Operator::Or => spec_same_tag(a, b),
            Operator::Not => b == SpecValue::Bool(false),
            _ => false,
        },
        SpecValue::Null => false,
    }
}

/// The operand-compatibility rule on values.
pub fn check_op(op: Operator, op1: &Value, op2: &Value) -> (r: bool)
    ensures
        r == spec_check_op(op, sval(*op1), sval(*op2)),
{
    match op1 {
        Value::Int(_) => match op {
            Operator::Mul => match op2 {
                Value::Str(_) => true,
                _ => op1.is_same(op2),
            },
            Operator::Add | Operator::Sub | Operator::Div | Operator::Rem | Operator::Eq
                | Operator::Ne | Operator::Gt | Operator::Ge | Operator::Lt | Operator::Le =>
                op1.is_same(op2),
            Operator::Neg => match op2 {
                Value::Int(z) => *z == 0,
                _ => false,
            },
            _ => false,
        },
        Value::Float(_) => match op {
            Operator::Add | Operator::Mul | Operator::Sub | Operator::Div | Operator::Rem
                | Operator::Eq | Operator::Ne | Operator::Gt | Operator::Ge | Operator::Lt
                | Operator::Le => op1.is_same(op2),
            Operator::Neg => match op2 {
                Value::Int(z) => *z == 0,
                _ => false,
            },
            _ => false,
        },
        Value::Str(_) => match op {
            Operator::Mul => match op2 {
                Value::Int(_) => true,
                _ => false,
            },
            Operator::Add | Operator::Eq | Operator::Ne => op1.is_same(op2),
            _ => false,
        },
        Value::Range(_, _) | Value::List(_) => match op {
            Operator::Eq | Operator::Ne => op1.is_same(op2),
            _ => false,
        },
        Value::Bool(_) => match op {
            Operator::Eq | Operator::Ne | Operator::And | Operator::Or => op1.is_same(op2),
            Operator::Not => match op2 {
                Value::Bool(z) => *z == false,
                _ => false,
            },
            _ => false,
        },
        Value::Null => false,
    }
}

/// The result of applying `op` to operand models that the compatibility rule admits;
/// absent when the rule refuses the pair, when integer arithmetic leaves the 64-bit
/// range, when an integer divisor is zero, or when a comparison meets a NaN.
pub open spec fn spec_apply(op: Operator, a: SpecValue, b: SpecValue) -> Option<SpecValue> {
    if !spec_check_op(op, a, b) {
        Option::None
    } else {
        match op {
            Operator::Add => match (a, b) {
                (SpecValue::Int(x), SpecValue::Int(y)) => match x.checked_add(y) {
                    Option::Some(s) => Option::Some(SpecValue::Int(s)),
                    Option::None => Option::None,
                },
                (SpecValue::Float(x), SpecValue::Float(y)) => Option::Some(
                    SpecValue::Float(add_bits(x, y)),
                ),
                (SpecValue::Str(x), SpecValue::Str(y)) => Option::Some(SpecValue::Str(x + y)),
                _ => Option::None,
            },
            Operator::Sub => match (a, b) {
                (SpecValue::Int(x), SpecValue::Int(y)) => match x.checked_sub(y) {
                    Option::Some(s) => Option::Some(SpecValue::Int(s)),
                    Option::None => Option::None,
                },
                (SpecValue::Float(x), SpecValue::Float(y)) => Option::Some(
                    SpecValue::Float(sub_bits(x, y)),
                ),
                _ => Option::None,
            },
            Operator::Mul => match (a, b) {
                (SpecValue::Int(x), SpecValue::Int(y)) => match x.checked_mul(y) {
                    Option::Some(s) => Option::Some(SpecValue::Int(s)),
                    Option::None => Option::None,
                },
                (SpecValue::Float(x), SpecValue::Float(y)) => Option::Some(
                    SpecValue::Float(mul_bits(x, y)),
                ),
                (SpecValue::Int(x), SpecValue::Str(s)) => Option::Some(
                    SpecValue::Str(spec_repeat(s, x as int)),
                ),
                (SpecValue::Str(s), SpecValue::Int(x)) => Option::Some(
                    SpecValue::Str(spec_repeat(s, x as int)),
                ),
                _ => Option::None,
            },
            Operator::Div => match (a, b) {
                (SpecValue::Int(x), SpecValue::Int(y)) => match x.checked_div(y) {
                    Option::Some(s) => Option::Some(SpecValue::Int(s)),
                    Option::None => Option::None,
                },
                (SpecValue::Float(x), SpecValue::Float(y)) => Option::Some(
                    SpecValue::Float(div_bits(x, y)),
                ),
                _ => Option::None,
            },
            Operator::Rem => match (a, b) {
                (SpecValue::Int(x), SpecValue::Int(y)) => match x.checked_rem(y) {
                    Option::Some(s) => Option::Some(SpecValue::Int(s)),
                    Option::None => Option::None,
                },
                (SpecValue::Float(x), SpecValue::Float(y)) => Option::Some(
                    SpecValue::Float(rem_bits(x, y)),
                ),
                _ => Option::None,
            },
            Operator::Eq => Option::Some(SpecValue::Bool(spec_val_eq(a, b))),
            Operator::Ne => Option::Some(SpecValue::Bool(!spec_val_eq(a, b))),
            Operator::Gt => spec_order(a, b, 1i8, 1i8),
            Operator::Ge => spec_order(a, b, 1i8, 0i8),
            Operator::Lt => spec_order(a, b, -1i8, -1i8),
            Operator::Le => spec_order(a, b, -1i8, 0i8),
            Operator::And => match (a, b) {
                (SpecValue::Bool(x), SpecValue::Bool(y)) => Option::Some(SpecValue::Bool(x && y)),
                _ => Option::None,
            },
            Operator::Or => match (a, b) {
                (SpecValue::Bool(x), SpecValue::Bool(y)) => Option::Some(SpecValue::Bool(x || y)),
                _ => Option::None,
            },
            Operator::Not => match a {
                SpecValue::Bool(x) => Option::Some(SpecValue::Bool(!x)),
                _ => Option::None,
            },
            Operator::Neg => match a {
                SpecValue::Int(x) => if x == i64::MIN {
                    Option::None
                } else {
                    Option::Some(SpecValue::Int((-x) as i64))
                },
                SpecValue::Float(x) => Option::Some(SpecValue::Float(spec_neg_bits(x))),
                _ => Option::None,
            },
        }
    }
}

/// An ordering comparison: true when the comparison of the operands is one
/// of the two accepted outcomes; absent for a NaN operand.
pub open spec fn spec_order(a: SpecValue, b: SpecValue, w1: i8, w2: i8) -> Option<SpecValue> {
    match (a, b) {
        (SpecValue::Int(x), SpecValue::Int(y)) => {
            let c: i8 = if x < y {
                -1i8
            } else if x == y {
                0i8
            } else {
                1i8
            };
            Option::Some(SpecValue::Bool(c == w1 || c == w2))
        },
        (SpecValue::Float(x), SpecValue::Float(y)) => match cmp_bits(x, y) {
            Option::Some(c) => Option::Some(SpecValue::Bool(c == w1 || c == w2)),
            Option::None => Option::None,
        },
        _ => Option::None,
    }
}

/// When the compatibility rule refuses an operator and operand pair, applying the operator
/// yields no value: evaluation of the surrounding expression fails.
pub proof fn lemma_refused_pair_yields_absence(op: Operator, a: SpecValue, b: SpecValue)
    requires
        !spec_check_op(op, a, b),
    ensures
        spec_apply(op, a, b) is None,
{
}

/// Applies `op` to two values, following `spec_apply` on the models.
pub fn apply_op(op: Operator, a: Value, b: Value) -> (r: Option<Value>)
    ensures
        match r {
            Option::Some(v) => spec_apply(op, sval(a), sval(b)) == Option::Some(sval(v)),
            Option::None => spec_apply(op, sval(a), sval(b)) is None,
        },
{
    if !check_op(op, &a, &b) {
        return Option::None;
    }
    match op {
        Operator::Add => match (a, b) {
            (Value::Int(x), Value::Int(y)) => match x.checked_add(y) {
                Option::Some(s) => Option::Some(Value::Int(s)),
                Option::None => Option::None,
            },
            (Value::Float(x), Value::Float(y)) => Option::Some(Value::Float(float_add(x, y))),
            (Value::Str(x), Value::Str(y)) => Option::Some(Value::Str(x.concat(y.as_str()))),
            _ => Option::None,
        },
        Operator::Sub => match (a, b) {
            (Value::Int(x), Value::Int(y)) => match x.checked_sub(y) {
                Option::Some(s) => Option::Some(Value::Int(s)),
                Option::None => Option::None,
            },
            (Value::Float(x), Value::Float(y)) => Option::Some(Value::Float(float_sub(x, y))),
            _ => Option::None,
        },
        Operator::Mul => match (a, b) {
            (Value::Int(x), Value::Int(y)) => match x.checked_mul(y) {
                Option::Some(s) => Option::Some(Value::Int(s)),
                Option::None => Option::None,
            },
            (Value::Float(x), Value::Float(y)) => Option::Some(Value::Float(float_mul(x, y))),
            (Value::Int(x), Value::Str(s)) => Option::Some(Value::Str(str_repeat(s.as_str(), x))),
            (Value::Str(s), Value::Int(x)) => Option::Some(Value::Str(str_repeat(s.as_str(), x))),
            _ => Option::None,
        },
        Operator::Div => match (a, b) {
            (Value::Int(x), Value::Int(y)) => match x.checked_div(y) {
                Option::Some(s) => Option::Some(Value::Int(s)),
                Option::None => Option::None,
            },
            (Value::Float(x), Value::Float(y)) => Option::Some(Value::Float(float_div(x, y))),
            _ => Option::None,
        },
        Operator::Rem => match (a, b) {
            (Value::Int(x), Value::Int(y)) => match x.checked_rem(y) {
                Option::Some(s) => Option::Some(Value::Int(s)),
                Option::None => Option::None,
            },
            (Value::Float(x), Value::Float(y)) => Option::Some(Value::Float(float_rem(x, y))),
            _ => Option::None,
        },
        Operator::Eq => Option::Some(Value::Bool(value_eq(&a, &b))),
        Operator::Ne => Option::Some(Value::Bool(!value_eq(&a, &b))),
        Operator::Gt => order_op(&a, &b, 1i8, 1i8),
        Operator::Ge => order_op(&a, &b, 1i8, 0i8),
        Operator::Lt => order_op(&a, &b, -1i8, -1i8),
        Operator::Le => order_op(&a, &b, -1i8, 0i8),
        Operator::And => match (a, b) {
            (Value::Bool(x), Value::Bool(y)) => Option::Some(Value::Bool(x && y)),
            _ => Option::None,
        },
        Operator::Or => match (a, b) {
            (Value::Bool(x), Value::Bool(y)) => Option::Some(Value::Bool(x || y)),
            _ => Option::None,
        },
        Operator::Not => match a {
            Value::Bool(x) => Option::Some(Value::Bool(!x)),
            _ => Option::None,
        },
        Operator::Neg => match a {
            Value::Int(x) => if x == i64::MIN {
                Option::None
            } else {
                Option::Some(Value::Int(-x))
            },
            Value::Float(x) => Option::Some(Value::Float(neg_bits(x))),
            _ => Option::None,
        },
    }
}

/// An ordering comparison on values, following `spec_order`.
fn order_op(a: &Value, b: &Value, w1: i8, w2: i8) -> (r: Option<Value>)
    ensures
        match r {
            Option::Some(v) => spec_order(sval(*a), sval(*b), w1, w2) == Option::Some(sval(v)),
            Option::None => spec_order(sval(*a), sval(*b), w1, w2) is None,
        },
{
    match (a, b) {
        (Value::Int(x), Value::Int(y)) => {
            let c: i8 = if *x < *y {
                -1i8
            } else if *x == *y {
                0i8
            } else {
                1i8
            };
            Option::Some(Value::Bool(c == w1 || c == w2))
        },
        (Value::Float(x), Value::Float(y)) => match float_cmp(*x, *y) {
            Option::Some(c) => Option::Some(Value::Bool(c == w1 || c == w2)),
            Option::None => Option::None,
        },
        _ => Option::None,
    }
}

} // verus!
