//! The evaluator: structural resolution of an expression tree against a
//! context of named subtrees.
//!
//! `spec_eval` is the mathematical account: a fuel-bounded, structurally
//! recursive function from a context model and a tree to an optional value
//! model with its option-derived flag. The executable evaluator is proved to
//! follow it exactly. Runs of binary operators are linearized and reduced
//! with a precedence-aware stack fold, so an operand grouping chosen by the
//! outside parser never decides; the precedence table does.

use vstd::prelude::*;

use crate::float::{
    acos_bits, acosh_bits, asin_bits, asinh_bits, atan2_bits, atan_bits, atanh_bits, cbrt_bits,
    ceil_int_of, cos_bits, cosh_bits, div_bits, double_of_int, exp2_bits, exp_bits, exp_m1_bits,
    float_acos, float_acosh, float_asin, float_asinh, float_atan, float_atan2, float_atanh,
    float_cbrt, float_ceil_int, float_cos, float_cosh, float_exp, float_exp2, float_exp_m1,
    float_floor_int, float_fract, float_from_int, float_hypot, float_ln, float_ln_1p, float_log,
    float_log10, float_log2, float_max, float_min, float_pow, float_recip, float_round_int,
    float_signum, float_sin, float_sinh, float_sqrt, float_tan, float_tanh, float_to_degrees,
    float_to_radians, float_trunc_int, floor_int_of, fract_bits, hypot_bits, ln_1p_bits, ln_bits,
    log10_bits, log2_bits, mul_bits, pow_bits, round_int_of, sin_bits, sinh_bits, spec_abs_bits,
    spec_max_bits, spec_min_bits, spec_signum_bits, sqrt_bits, tan_bits, tanh_bits, trunc_int_of,
    abs_bits, PI_BITS,
};
use crate::node::Node;
use crate::operator::{apply_op, spec_apply, spec_level, Operator};
use crate::parse::str_eq;
use crate::value::{lemma_sval_seq, spec_same_tag, sval, sval_seq, SpecValue, Value};
use vstd::string::StrSliceExecFns;

verus! {

/// The bound on chained context references: resolving a name spends one
/// unit of fuel, and evaluation of an expression that chains deeper fails.
pub const EVAL_FUEL: u64 = 64;

/// The context model built from entries in order: a later entry under the
/// same name shadows an earlier one.
pub open spec fn map_of(s: Seq<(String, Node)>) -> Map<Seq<char>, Node>
    decreases s.len(),
{
    if s.len() == 0 {
        Map::empty()
    } else {
        map_of(s.subrange(0, s.len() - 1)).insert(s[s.len() - 1].0@, s[s.len() - 1].1)
    }
}

/// The synthetic right operand checked against a unary operator.
pub open spec fn unary_identity(op: Operator) -> SpecValue {
    if op == Operator::Not {
        SpecValue::Bool(false)
    } else {
        SpecValue::Int(0)
    }
}

/// How a method receiver resolves: evaluation failure, an unresolved name,
/// or a value with its option-derived flag.
pub enum RecvOutcome {
    Fail,
    Missing,
    Present(SpecValue, bool),
}

/// Indexing and slicing: an element of a list by position, a substring of a
/// text by a character range; absent outside the bounds, never a default.
pub open spec fn spec_index(c: SpecValue, i: SpecValue) -> Option<SpecValue> {
    match (c, i) {
        (SpecValue::List(l), SpecValue::Int(k)) => if 0 <= k < l.len() {
            Option::Some(l[k as int])
        } else {
            Option::None
        },
        (SpecValue::Str(s), SpecValue::Range(a, b)) => if 0 <= a <= b <= s.len() {
            Option::Some(SpecValue::Str(s.subrange(a as int, b as int)))
        } else {
            Option::None
        },
        _ => Option::None,
    }
}

/// The numeric methods of one argumentless name on receiver bits; the
/// truncating family yields an integer, every other result is a float.
pub open spec fn spec_numeric_unary(n: Seq<char>, x: u64) -> Option<SpecValue> {
    if n == "abs"@ {
        Option::Some(SpecValue::Float(spec_abs_bits(x)))
    } else if n == "trunc"@ {
        Option::Some(SpecValue::Int(trunc_int_of(x)))
    } else if n == "floor"@ {
        Option::Some(SpecValue::Int(floor_int_of(x)))
    } else if n == "ceil"@ {
        Option::Some(SpecValue::Int(ceil_int_of(x)))
    } else if n == "round"@ {
        Option::Some(SpecValue::Int(round_int_of(x)))
    } else if n == "fract"@ {
        Option::Some(SpecValue::Float(fract_bits(x)))
    } else if n == "recip"@ {
        Option::Some(SpecValue::Float(div_bits(double_of_int(1), x)))
    } else if n == "signum"@ {
        Option::Some(SpecValue::Float(spec_signum_bits(x)))
    } else if n == "sqrt"@ {
        Option::Some(SpecValue::Float(sqrt_bits(x)))
    } else if n == "cbrt"@ {
        Option::Some(SpecValue::Float(cbrt_bits(x)))
    } else if n == "exp"@ {
        Option::Some(SpecValue::Float(exp_bits(x)))
    } else if n == "exp2"@ {
        Option::Some(SpecValue::Float(exp2_bits(x)))
    } else if n == "exp_m1"@ {
        Option::Some(SpecValue::Float(exp_m1_bits(x)))
    } else if n == "ln"@ {
        Option::Some(SpecValue::Float(ln_bits(x)))
    } else if n == "ln_1p"@ {
        Option::Some(SpecValue::Float(ln_1p_bits(x)))
    } else if n == "log2"@ {
        Option::Some(SpecValue::Float(log2_bits(x)))
    } else if n == "log10"@ {
        Option::Some(SpecValue::Float(log10_bits(x)))
    } else if n == "to_degrees"@ {
        Option::Some(SpecValue::Float(mul_bits(x, div_bits(double_of_int(180), PI_BITS))))
    } else if n == "to_radians"@ {
        Option::Some(SpecValue::Float(mul_bits(x, div_bits(PI_BITS, double_of_int(180)))))
    } else if n == "sin"@ {
        Option::Some(SpecValue::Float(sin_bits(x)))
    } else if n == "cos"@ {
        Option::Some(SpecValue::Float(crate::float::cos_bits(x)))
    } else if n == "tan"@ {
        Option::Some(SpecValue::Float(tan_bits(x)))
    } else if n == "asin"@ {
        Option::Some(SpecValue::Float(asin_bits(x)))
    } else if n == "acos"@ {
        Option::Some(SpecValue::Float(acos_bits(x)))
    } else if n == "atan"@ {
        Option::Some(SpecValue::Float(atan_bits(x)))
    } else if n == "sinh"@ {
        Option::Some(SpecValue::Float(sinh_bits(x)))
    } else if n == "cosh"@ {
        Option::Some(SpecValue::Float(cosh_bits(x)))
    } else if n == "tanh"@ {
        Option::Some(SpecValue::Float(tanh_bits(x)))
    } else if n == "asinh"@ {
        Option::Some(SpecValue::Float(asinh_bits(x)))
    } else if n == "acosh"@ {
        Option::Some(SpecValue::Float(acosh_bits(x)))
    } else if n == "atanh"@ {
        Option::Some(SpecValue::Float(atanh_bits(x)))
    } else {
        Option::None
    }
}

/// The numeric methods of one name and one numeric argument, on bits.
pub open spec fn spec_numeric_binary(n: Seq<char>, x: u64, y: u64) -> Option<SpecValue> {
    if n == "max"@ {
        Option::Some(SpecValue::Float(spec_max_bits(x, y)))
    } else if n == "min"@ {
        Option::Some(SpecValue::Float(spec_min_bits(x, y)))
    } else if n == "atan2"@ {
        Option::Some(SpecValue::Float(atan2_bits(x, y)))
    } else if n == "hypot"@ {
        Option::Some(SpecValue::Float(hypot_bits(x, y)))
    } else if n == "powf"@ {
        Option::Some(SpecValue::Float(pow_bits(x, y)))
    } else if n == "powi"@ {
        Option::Some(SpecValue::Float(pow_bits(x, y)))
    } else if n == "log"@ {
        Option::Some(SpecValue::Float(div_bits(ln_bits(x), ln_bits(y))))
    } else {
        Option::None
    }
}

/// The bits of a numeric receiver or argument: an integer converted to a
/// double, a float as it stands.
pub open spec fn spec_as_bits(v: SpecValue) -> Option<u64> {
    match v {
        SpecValue::Int(i) => Option::Some(double_of_int(i)),
        SpecValue::Float(f) => Option::Some(f),
        _ => Option::None,
    }
}

/// Whether the name is one of the type predicates of one argumentless name.
pub open spec fn is_type_pred(n: Seq<char>) -> bool {
    n == "is_bool"@ || n == "is_int"@ || n == "is_float"@ || n == "is_str"@ || n == "is_vec"@
        || n == "is_range"@
}

/// The type predicate of the given name on a value model.
pub open spec fn spec_type_pred(n: Seq<char>, v: SpecValue) -> bool {
    if n == "is_bool"@ {
        v is Bool
    } else if n == "is_int"@ {
        v is Int
    } else if n == "is_float"@ {
        v is Float
    } else if n == "is_str"@ {
        v is Str
    } else if n == "is_vec"@ {
        v is List
    } else {
        v is Range
    }
}

/// Evaluation of a tree against a context model: the value model and its
/// option-derived flag, or absence when the expression cannot be evaluated.
pub open spec fn spec_eval(ctx: Map<Seq<char>, Node>, e: Node, fuel: nat) -> Option<
    (SpecValue, bool),
>
    decreases fuel, e, 1int,
{
    match e {
        Node::Lit(v) => Option::Some((sval(v), false)),
        Node::NoneLit => Option::Some((SpecValue::Null, true)),
        Node::Wrap(inner) => match spec_eval(ctx, *inner, fuel) {
            Option::Some((v, _)) => Option::Some((v, true)),
            Option::None => Option::None,
        },
        Node::Ident(n) => if fuel == 0 {
            Option::None
        } else if ctx.contains_key(n@) {
            spec_eval(ctx, ctx[n@], (fuel - 1) as nat)
        } else {
            Option::None
        },
        Node::Unary(op, inner) => match spec_eval(ctx, *inner, fuel) {
            Option::Some((v, _)) => match spec_apply(op, v, unary_identity(op)) {
                Option::Some(w) => Option::Some((w, false)),
                Option::None => Option::None,
            },
            Option::None => Option::None,
        },
        Node::Binary(l, op, r) => match spec_run(ctx, *l, Seq::empty(), Seq::empty(), fuel) {
            Option::Some((vs, os)) => match spec_push_op(op, vs, os) {
                Option::Some((vs2, os2)) => match spec_run(ctx, *r, vs2, os2, fuel) {
                    Option::Some((vs3, os3)) => spec_reduce(vs3, os3),
                    Option::None => Option::None,
                },
                Option::None => Option::None,
            },
            Option::None => Option::None,
        },
        Node::Method(_, _, _) => spec_method(ctx, e, fuel),
        Node::Array(elems) => match spec_elems(ctx, elems@, fuel) {
            Option::Some(vs) => Option::Some((SpecValue::List(vs), false)),
            Option::None => Option::None,
        },
        Node::Index(coll, idx) => match (spec_eval(ctx, *coll, fuel), spec_eval(ctx, *idx, fuel)) {
            (Option::Some((c, _)), Option::Some((i, _))) => match spec_index(c, i) {
                Option::Some(v) => Option::Some((v, false)),
                Option::None => Option::None,
            },
            _ => Option::None,
        },
        Node::RangeOf(a, b) => match (spec_eval(ctx, *a, fuel), spec_eval(ctx, *b, fuel)) {
            (Option::Some((SpecValue::Int(x), _)), Option::Some((SpecValue::Int(y), _))) =>
                Option::Some((SpecValue::Range(x, y), false)),
            _ => Option::None,
        },
        Node::Paren(inner) => spec_eval(ctx, *inner, fuel),
        Node::RefOf(inner) => spec_eval(ctx, *inner, fuel),
        Node::Unsupported => Option::None,
    }
}

/// Linearization of a run of binary operators: operands are evaluated and
/// pushed; each operator first reduces pending operators that bind at least
/// as tightly.
pub open spec fn spec_run(
    ctx: Map<Seq<char>, Node>,
    e: Node,
    vals: Seq<(SpecValue, bool)>,
    ops: Seq<Operator>,
    fuel: nat,
) -> Option<(Seq<(SpecValue, bool)>, Seq<Operator>)>
    decreases fuel, e, 2int,
{
    match e {
        Node::Binary(l, op, r) => match spec_run(ctx, *l, vals, ops, fuel) {
            Option::Some((v1, o1)) => match spec_push_op(op, v1, o1) {
                Option::Some((v2, o2)) => spec_run(ctx, *r, v2, o2, fuel),
                Option::None => Option::None,
            },
            Option::None => Option::None,
        },
        _ => match spec_eval(ctx, e, fuel) {
            Option::Some(p) => Option::Some((vals.push(p), ops)),
            Option::None => Option::None,
        },
    }
}

/// Pushing an operator on the fold's stacks: pending operators that bind at
/// least as tightly are applied to the top two values first.
pub open spec fn spec_push_op(
    op: Operator,
    vals: Seq<(SpecValue, bool)>,
    ops: Seq<Operator>,
) -> Option<(Seq<(SpecValue, bool)>, Seq<Operator>)>
    decreases ops.len(),
{
    if ops.len() > 0 && spec_level(ops[ops.len() - 1]) >= spec_level(op) {
        if vals.len() < 2 {
            Option::None
        } else {
            match spec_apply(ops[ops.len() - 1], vals[vals.len() - 2].0, vals[vals.len() - 1].0) {
                Option::Some(v) => spec_push_op(
                    op,
                    vals.subrange(0, vals.len() - 2).push((v, false)),
                    ops.subrange(0, ops.len() - 1),
                ),
                Option::None => Option::None,
            }
        }
    } else {
        Option::Some((vals, ops.push(op)))
    }
}

/// Reduction of whatever the fold still holds; a run yields a value exactly
/// when one value is left.
pub open spec fn spec_reduce(vals: Seq<(SpecValue, bool)>, ops: Seq<Operator>) -> Option<
    (SpecValue, bool),
>
    decreases ops.len(),
{
    if ops.len() == 0 {
        if vals.len() == 1 {
            Option::Some(vals[0])
        } else {
            Option::None
        }
    } else {
        if vals.len() < 2 {
            Option::None
        } else {
            match spec_apply(ops[ops.len() - 1], vals[vals.len() - 2].0, vals[vals.len() - 1].0) {
                Option::Some(v) => spec_reduce(
                    vals.subrange(0, vals.len() - 2).push((v, false)),
                    ops.subrange(0, ops.len() - 1),
                ),
                Option::None => Option::None,
            }
        }
    }
}

/// The elements of a list literal, each evaluated; a failing element, or
/// one that is the `None` value, fails the whole literal.
pub open spec fn spec_elems(ctx: Map<Seq<char>, Node>, s: Seq<Node>, fuel: nat) -> Option<
    Seq<SpecValue>,
>
    decreases fuel, s, 2int,
{
    if s.len() == 0 {
        Option::Some(Seq::empty())
    } else {
        match spec_elems(ctx, s.subrange(0, s.len() - 1), fuel) {
            Option::Some(pre) => match spec_eval(ctx, s[s.len() - 1], fuel) {
                Option::Some((v, _)) => if v is Null {
                    Option::None
                } else {
                    Option::Some(pre.push(v))
                },
                Option::None => Option::None,
            },
            Option::None => Option::None,
        }
    }
}

/// How a receiver or a combinator argument resolves: an identifier that is
/// not in the context is `Missing`; any other evaluation failure is `Fail`.
pub open spec fn spec_recv(ctx: Map<Seq<char>, Node>, e: Node, fuel: nat) -> RecvOutcome
    decreases fuel, e, 2int,
{
    match e {
        Node::Ident(n) => if !ctx.contains_key(n@) {
            RecvOutcome::Missing
        } else {
            match spec_eval(ctx, e, fuel) {
                Option::Some((v, p)) => RecvOutcome::Present(v, p),
                Option::None => RecvOutcome::Fail,
            }
        },
        _ => match spec_eval(ctx, e, fuel) {
            Option::Some((v, p)) => RecvOutcome::Present(v, p),
            Option::None => RecvOutcome::Fail,
        },
    }
}

/// Method dispatch: optional-value combinators with their per-method
/// tolerance of an unresolved receiver, type predicates, and the numeric
/// table; an unknown method, or a wrong argument count, fails.
pub open spec fn spec_method(ctx: Map<Seq<char>, Node>, e: Node, fuel: nat) -> Option<
    (SpecValue, bool),
>
    decreases fuel, e, 0int,
{
    match e {
        Node::Method(recv0, name, arg0) => {
            let n = name@;
            let rcv = spec_recv(ctx, *recv0, fuel);
            if rcv is Fail {
                Option::None
            } else if n == "and"@ {
                match (arg0, rcv) {
                    (Option::Some(a), RecvOutcome::Present(v, p)) => if v is Null {
                        Option::Some((SpecValue::Null, p))
                    } else {
                        spec_eval(ctx, *a, fuel)
                    },
                    _ => Option::None,
                }
            } else if n == "or"@ {
                match (arg0, rcv) {
                    (Option::Some(a), RecvOutcome::Missing) => spec_eval(ctx, *a, fuel),
                    (Option::Some(a), RecvOutcome::Present(v, p)) => if v is Null {
                        spec_eval(ctx, *a, fuel)
                    } else {
                        Option::Some((v, p))
                    },
                    _ => Option::None,
                }
            } else if n == "xor"@ {
                match arg0 {
                    Option::Some(a) => {
                        let av = spec_recv(ctx, *a, fuel);
                        if av is Fail {
                            Option::None
                        } else {
                            let rp = match rcv {
                                RecvOutcome::Present(v, p) => if v is Null {
                                    Option::None
                                } else {
                                    Option::Some((v, p))
                                },
                                _ => Option::None,
                            };
                            let ap = match av {
                                RecvOutcome::Present(v, p) => if v is Null {
                                    Option::None
                                } else {
                                    Option::Some((v, p))
                                },
                                _ => Option::None,
                            };
                            match (rp, ap) {
                                (Option::Some(x), Option::None) => Option::Some(x),
                                (Option::None, Option::Some(y)) => Option::Some(y),
                                (Option::Some(_), Option::Some(_)) => Option::None,
                                (Option::None, Option::None) => Option::Some(
                                    (SpecValue::Null, true),
                                ),
                            }
                        }
                    },
                    Option::None => Option::None,
                }
            } else if n == "unwrap"@ {
                match (arg0, rcv) {
                    (Option::None, RecvOutcome::Present(v, p)) => if v is Null {
                        Option::None
                    } else {
                        Option::Some((v, p))
                    },
                    _ => Option::None,
                }
            } else if n == "unwrap_or"@ {
                match (arg0, rcv) {
                    (Option::Some(a), RecvOutcome::Missing) => spec_eval(ctx, *a, fuel),
                    (Option::Some(a), RecvOutcome::Present(v, p)) => if v is Null {
                        spec_eval(ctx, *a, fuel)
                    } else {
                        Option::Some((v, p))
                    },
                    _ => Option::None,
                }
            } else if n == "is_none"@ {
                match (arg0, rcv) {
                    (Option::None, RecvOutcome::Missing) => Option::Some(
                        (SpecValue::Bool(true), false),
                    ),
                    (Option::None, RecvOutcome::Present(v, _)) => Option::Some(
                        (SpecValue::Bool(v is Null), false),
                    ),
                    _ => Option::None,
                }
            } else if n == "is_some"@ {
                match (arg0, rcv) {
                    (Option::None, RecvOutcome::Missing) => Option::Some(
                        (SpecValue::Bool(false), false),
                    ),
                    (Option::None, RecvOutcome::Present(v, _)) => Option::Some(
                        (SpecValue::Bool(!(v is Null)), false),
                    ),
                    _ => Option::None,
                }
            } else if n == "is_option"@ {
                match (arg0, rcv) {
                    (Option::None, RecvOutcome::Missing) => Option::Some(
                        (SpecValue::Bool(true), false),
                    ),
                    (Option::None, RecvOutcome::Present(_, p)) => Option::Some(
                        (SpecValue::Bool(p), false),
                    ),
                    _ => Option::None,
                }
            } else if n == "is_same"@ {
                match (arg0, rcv) {
                    (Option::Some(a), RecvOutcome::Present(v, _)) => match spec_eval(
                        ctx,
                        *a,
                        fuel,
                    ) {
                        Option::Some((w, _)) => Option::Some(
                            (SpecValue::Bool(spec_same_tag(v, w)), false),
                        ),
                        Option::None => Option::None,
                    },
                    _ => Option::None,
                }
            } else if is_type_pred(n) {
                match (arg0, rcv) {
                    (Option::None, RecvOutcome::Present(v, _)) => Option::Some(
                        (SpecValue::Bool(spec_type_pred(n, v)), false),
                    ),
                    _ => Option::None,
                }
            } else {
                match rcv {
                    RecvOutcome::Present(v, _) => match spec_as_bits(v) {
                        Option::Some(x) => match arg0 {
                            Option::None => match spec_numeric_unary(n, x) {
                                Option::Some(res) => Option::Some((res, false)),
                                Option::None => Option::None,
                            },
                            Option::Some(a) => match spec_eval(ctx, *a, fuel) {
                                Option::Some((w, _)) => match spec_as_bits(w) {
                                    Option::Some(y) => match spec_numeric_binary(n, x, y) {
                                        Option::Some(res) => Option::Some((res, false)),
                                        Option::None => Option::None,
                                    },
                                    Option::None => Option::None,
                                },
                                Option::None => Option::None,
                            },
                        },
                        Option::None => Option::None,
                    },
                    _ => Option::None,
                }
            }
        },
        _ => Option::None,
    }
}

} // verus!

verus! {

/// The model of an evaluated pair: the value model with its flag.
pub open spec fn pview(p: (Value, bool)) -> (SpecValue, bool) {
    (sval(p.0), p.1)
}

/// The models of a stack of evaluated pairs.
pub open spec fn pseq(s: Seq<(Value, bool)>) -> Seq<(SpecValue, bool)> {
    Seq::new(s.len(), |i: int| pview(s[i]))
}

/// Looks a name up among the first `n` entries, the latest match winning.
fn lookup_prefix<'a>(ctx: &'a Vec<(String, Node)>, n: usize, k: &str) -> (r: Option<&'a Node>)
    requires
        n <= ctx@.len(),
    ensures
        match r {
            Option::Some(e) => map_of(ctx@.subrange(0, n as int)).contains_key(k@) && *e == map_of(
                ctx@.subrange(0, n as int),
            )[k@],
            Option::None => !map_of(ctx@.subrange(0, n as int)).contains_key(k@),
        },
    decreases n,
{
    if n == 0 {
        Option::None
    } else {
        let entry = &ctx[n - 1];
        proof {
            assert(ctx@.subrange(0, n as int)[n as int - 1] == ctx@[n as int - 1]);
            assert(ctx@.subrange(0, n as int).subrange(0, n as int - 1) =~= ctx@.subrange(
                0,
                n as int - 1,
            ));
        }
        if str_eq(entry.0.as_str(), k) {
            Option::Some(&entry.1)
        } else {
            lookup_prefix(ctx, n - 1, k)
        }
    }
}

/// Looks a name up in the context; a later entry shadows an earlier one.
pub fn lookup<'a>(ctx: &'a Vec<(String, Node)>, k: &str) -> (r: Option<&'a Node>)
    ensures
        match r {
            Option::Some(e) => map_of(ctx@).contains_key(k@) && *e == map_of(ctx@)[k@],
            Option::None => !map_of(ctx@).contains_key(k@),
        },
{
    let n = ctx.len();
    proof {
        assert(ctx@.subrange(0, n as int) =~= ctx@);
    }
    lookup_prefix(ctx, n, k)
}

/// The receiver's bits for the numeric table: an integer converted to a
/// double, a float as it stands.
fn as_bits(v: &Value) -> (r: Option<u64>)
    ensures
        r == spec_as_bits(sval(*v)),
{
    match v {
        Value::Int(i) => Option::Some(float_from_int(*i)),
        Value::Float(f) => Option::Some(*f),
        _ => Option::None,
    }
}

/// The argumentless numeric methods, following `spec_numeric_unary`.
fn numeric_unary(name: &str, x: u64) -> (r: Option<Value>)
    ensures
        match r {
            Option::Some(v) => spec_numeric_unary(name@, x) == Option::Some(sval(v)),
            Option::None => spec_numeric_unary(name@, x) is None,
        },
{
    if str_eq(name, "abs") {
        Option::Some(Value::Float(abs_bits(x)))
    } else if str_eq(name, "trunc") {
        Option::Some(Value::Int(float_trunc_int(x)))
    } else if str_eq(name, "floor") {
        Option::Some(Value::Int(float_floor_int(x)))
    } else if str_eq(name, "ceil") {
        Option::Some(Value::Int(float_ceil_int(x)))
    } else if str_eq(name, "round") {
        Option::Some(Value::Int(float_round_int(x)))
    } else if str_eq(name, "fract") {
        Option::Some(Value::Float(float_fract(x)))
    } else if str_eq(name, "recip") {
        Option::Some(Value::Float(float_recip(x)))
    } else if str_eq(name, "signum") {
        Option::Some(Value::Float(float_signum(x)))
    } else if str_eq(name, "sqrt") {
        Option::Some(Value::Float(float_sqrt(x)))
    } else if str_eq(name, "cbrt") {
        Option::Some(Value::Float(float_cbrt(x)))
    } else if str_eq(name, "exp") {
        Option::Some(Value::Float(float_exp(x)))
    } else if str_eq(name, "exp2") {
        Option::Some(Value::Float(float_exp2(x)))
    } else if str_eq(name, "exp_m1") {
        Option::Some(Value::Float(float_exp_m1(x)))
    } else if str_eq(name, "ln") {
        Option::Some(Value::Float(float_ln(x)))
    } else if str_eq(name, "ln_1p") {
        Option::Some(Value::Float(float_ln_1p(x)))
    } else if str_eq(name, "log2") {
        Option::Some(Value::Float(float_log2(x)))
    } else if str_eq(name, "log10") {
        Option::Some(Value::Float(float_log10(x)))
    } else if str_eq(name, "to_degrees") {
        Option::Some(Value::Float(float_to_degrees(x)))
    } else if str_eq(name, "to_radians") {
        Option::Some(Value::Float(float_to_radians(x)))
    } else if str_eq(name, "sin") {
        Option::Some(Value::Float(float_sin(x)))
    } else if str_eq(name, "cos") {
        Option::Some(Value::Float(float_cos(x)))
    } else if str_eq(name, "tan") {
        Option::Some(Value::Float(float_tan(x)))
    } else if str_eq(name, "asin") {
        Option::Some(Value::Float(float_asin(x)))
    } else if str_eq(name, "acos") {
        Option::Some(Value::Float(float_acos(x)))
    } else if str_eq(name, "atan") {
        Option::Some(Value::Float(float_atan(x)))
    } else if str_eq(name, "sinh") {
        Option::Some(Value::Float(float_sinh(x)))
    } else if str_eq(name, "cosh") {
        Option::Some(Value::Float(float_cosh(x)))
    } else if str_eq(name, "tanh") {
        Option::Some(Value::Float(float_tanh(x)))
    } else if str_eq(name, "asinh") {
        Option::Some(Value::Float(float_asinh(x)))
    } else if str_eq(name, "acosh") {
        Option::Some(Value::Float(float_acosh(x)))
    } else if str_eq(name, "atanh") {
        Option::Some(Value::Float(float_atanh(x)))
    } else {
        Option::None
    }
}

/// The one-argument numeric methods, following `spec_numeric_binary`.
fn numeric_binary(name: &str, x: u64, y: u64) -> (r: Option<Value>)
    ensures
        match r {
            Option::Some(v) => spec_numeric_binary(name@, x, y) == Option::Some(sval(v)),
            Option::None => spec_numeric_binary(name@, x, y) is None,
        },
{
    if str_eq(name, "max") {
        Option::Some(Value::Float(float_max(x, y)))
    } else if str_eq(name, "min") {
        Option::Some(Value::Float(float_min(x, y)))
    } else if str_eq(name, "atan2") {
        Option::Some(Value::Float(float_atan2(x, y)))
    } else if str_eq(name, "hypot") {
        Option::Some(Value::Float(float_hypot(x, y)))
    } else if str_eq(name, "powf") {
        Option::Some(Value::Float(float_pow(x, y)))
    } else if str_eq(name, "powi") {
        Option::Some(Value::Float(float_pow(x, y)))
    } else if str_eq(name, "log") {
        Option::Some(Value::Float(float_log(x, y)))
    } else {
        Option::None
    }
}

/// Whether the name is a type predicate, following `is_type_pred`.
fn type_pred_name(name: &str) -> (r: bool)
    ensures
        r == is_type_pred(name@),
{
    str_eq(name, "is_bool") || str_eq(name, "is_int") || str_eq(name, "is_float") || str_eq(
        name,
        "is_str",
    ) || str_eq(name, "is_vec") || str_eq(name, "is_range")
}

/// The type predicate of the given name, following `spec_type_pred`.
fn type_pred_val(name: &str, v: &Value) -> (r: bool)
    ensures
        r == spec_type_pred(name@, sval(*v)),
{
    if str_eq(name, "is_bool") {
        matches!(v, Value::Bool(_))
    } else if str_eq(name, "is_int") {
        matches!(v, Value::Int(_))
    } else if str_eq(name, "is_float") {
        matches!(v, Value::Float(_))
    } else if str_eq(name, "is_str") {
        matches!(v, Value::Str(_))
    } else if str_eq(name, "is_vec") {
        matches!(v, Value::List(_))
    } else {
        matches!(v, Value::Range(_, _))
    }
}

} // verus!

verus! {

/// Pushing an operator on the fold's stacks, following `spec_push_op`.
#[verifier::loop_isolation(false)]
fn exec_push_op(op: Operator, vals: Vec<(Value, bool)>, ops: Vec<Operator>) -> (r: Option<
    (Vec<(Value, bool)>, Vec<Operator>),
>)
    ensures
        match r {
            Option::Some(st) => spec_push_op(op, pseq(vals@), ops@) == Option::Some(
                (pseq(st.0@), st.1@),
            ),
            Option::None => spec_push_op(op, pseq(vals@), ops@) is None,
        },
{
    let ghost vals0 = pseq(vals@);
    let ghost ops0 = ops@;
    let mut vals = vals;
    let mut ops = ops;
    loop
        invariant
            spec_push_op(op, vals0, ops0) == spec_push_op(op, pseq(vals@), ops@),
        decreases ops@.len(),
    {
        if ops.len() == 0 {
            break ;
        }
        let top = ops[ops.len() - 1];
        if top.level() < op.level() {
            break ;
        }
        if vals.len() < 2 {
            return Option::None;
        }
        let ghost vpre = pseq(vals@);
        let ghost opre = ops@;
        let b = vals.pop().unwrap();
        let a = vals.pop().unwrap();
        proof {
            assert(vpre[vpre.len() - 2] == pview(a));
            assert(vpre[vpre.len() - 1] == pview(b));
        }
        match apply_op(top, a.0, b.0) {
            Option::Some(v) => {
                vals.push((v, false));
                ops.pop();
                proof {
                    assert(pseq(vals@) =~= vpre.subrange(0, vpre.len() - 2).push(
                        (sval(v), false),
                    ));
                    assert(ops@ =~= opre.subrange(0, opre.len() - 1));
                }
            },
            Option::None => {
                return Option::None;
            },
        }
    }
    let mut ops = ops;
    ops.push(op);
    Option::Some((vals, ops))
}

/// Reduction of whatever the fold still holds, following `spec_reduce`.
#[verifier::loop_isolation(false)]
fn exec_reduce(vals: Vec<(Value, bool)>, ops: Vec<Operator>) -> (r: Option<(Value, bool)>)
    ensures
        match r {
            Option::Some(p) => spec_reduce(pseq(vals@), ops@) == Option::Some(pview(p)),
            Option::None => spec_reduce(pseq(vals@), ops@) is None,
        },
{
    let ghost vals0 = pseq(vals@);
    let ghost ops0 = ops@;
    let mut vals = vals;
    let mut ops = ops;
    loop
        invariant
            spec_reduce(vals0, ops0) == spec_reduce(pseq(vals@), ops@),
        decreases ops@.len(),
    {
        if ops.len() == 0 {
            break ;
        }
        if vals.len() < 2 {
            return Option::None;
        }
        let top = ops[ops.len() - 1];
        let ghost vpre = pseq(vals@);
        let ghost opre = ops@;
        let b = vals.pop().unwrap();
        let a = vals.pop().unwrap();
        proof {
            assert(vpre[vpre.len() - 2] == pview(a));
            assert(vpre[vpre.len() - 1] == pview(b));
        }
        match apply_op(top, a.0, b.0) {
            Option::Some(v) => {
                vals.push((v, false));
                ops.pop();
                proof {
                    assert(pseq(vals@) =~= vpre.subrange(0, vpre.len() - 2).push(
                        (sval(v), false),
                    ));
                    assert(ops@ =~= opre.subrange(0, opre.len() - 1));
                }
            },
            Option::None => {
                return Option::None;
            },
        }
    }
    if vals.len() == 1 {
        let mut vals = vals;
        let p = vals.pop().unwrap();
        Option::Some(p)
    } else {
        Option::None
    }
}

} // verus!

verus! {

/// A method receiver or combinator argument as it resolves at run time.
pub enum Outcome {
    Missing,
    Present(Value, bool),
}

/// A failing prefix of a list literal fails the whole literal.
proof fn lemma_elems_fail(ctx: Map<Seq<char>, Node>, s: Seq<Node>, j: int, fuel: nat)
    requires
        0 <= j <= s.len(),
        spec_elems(ctx, s.subrange(0, j), fuel) is None,
    ensures
        spec_elems(ctx, s, fuel) is None,
    decreases s.len(),
{
    if s.len() > j {
        let pre = s.subrange(0, s.len() - 1);
        assert(pre.subrange(0, j) =~= s.subrange(0, j));
        lemma_elems_fail(ctx, pre, j, fuel);
    } else {
        assert(s.subrange(0, j) =~= s);
    }
}

/// Indexing of one value by another, following `spec_index`.
fn index_value(c: &Value, i: &Value) -> (r: Option<Value>)
    ensures
        match r {
            Option::Some(v) => spec_index(sval(*c), sval(*i)) == Option::Some(sval(v)),
            Option::None => spec_index(sval(*c), sval(*i)) is None,
        },
{
    match (c, i) {
        (Value::List(l), Value::Int(k)) => {
            proof {
                lemma_sval_seq(l@);
            }
            if *k >= 0 && (*k as u64) < (l.len() as u64) {
                Option::Some(l[*k as usize].duplicate())
            } else {
                Option::None
            }
        },
        (Value::Str(s), Value::Range(a, b)) => {
            if *a >= 0 && *b >= *a {
                let len = s.as_str().unicode_len();
                if (*b as u64) <= (len as u64) {
                    let sub = s.as_str().substring_char(*a as usize, *b as usize);
                    Option::Some(Value::Str(sub.to_owned()))
                } else {
                    Option::None
                }
            } else {
                Option::None
            }
        },
        _ => Option::None,
    }
}

/// Resolves a method receiver or combinator argument, following `spec_recv`.
fn eval_recv(ctx: &Vec<(String, Node)>, e: &Node, fuel: u64) -> (r: Option<Outcome>)
    ensures
        match r {
            Option::None => spec_recv(map_of(ctx@), *e, fuel as nat) is Fail,
            Option::Some(Outcome::Missing) => spec_recv(map_of(ctx@), *e, fuel as nat) is Missing,
            Option::Some(Outcome::Present(v, p)) => spec_recv(map_of(ctx@), *e, fuel as nat)
                == RecvOutcome::Present(sval(v), p),
        },
    decreases fuel, *e, 2int,
{
    if let Node::Ident(n) = e {
        if lookup(ctx, n.as_str()).is_none() {
            return Option::Some(Outcome::Missing);
        }
    }
    match eval_node(ctx, e, fuel) {
        Option::Some((v, p)) => Option::Some(Outcome::Present(v, p)),
        Option::None => Option::None,
    }
}

/// Evaluation of a tree against the context, following `spec_eval`.
#[verifier::loop_isolation(false)]
#[verifier::rlimit(100)]
pub fn eval_node(ctx: &Vec<(String, Node)>, e: &Node, fuel: u64) -> (r: Option<(Value, bool)>)
    ensures
        match r {
            Option::Some(p) => spec_eval(map_of(ctx@), *e, fuel as nat) == Option::Some(pview(p)),
            Option::None => spec_eval(map_of(ctx@), *e, fuel as nat) is None,
        },
    decreases fuel, *e, 1int,
{
    match e {
        Node::Lit(v) => Option::Some((v.duplicate(), false)),
        Node::NoneLit => Option::Some((Value::Null, true)),
        Node::Wrap(inner) => match eval_node(ctx, &**inner, fuel) {
            Option::Some((v, _)) => Option::Some((v, true)),
            Option::None => Option::None,
        },
        Node::Ident(n) => {
            if fuel == 0 {
                return Option::None;
            }
            match lookup(ctx, n.as_str()) {
                Option::Some(sub) => eval_node(ctx, sub, fuel - 1),
                Option::None => Option::None,
            }
        },
        Node::Unary(op, inner) => match eval_node(ctx, &**inner, fuel) {
            Option::Some((v, _)) => {
                let ident = if *op == Operator::Not {
                    Value::Bool(false)
                } else {
                    Value::Int(0)
                };
                match apply_op(*op, v, ident) {
                    Option::Some(w) => Option::Some((w, false)),
                    Option::None => Option::None,
                }
            },
            Option::None => Option::None,
        },
        Node::Binary(_, op, _) => {
            match eval_run_parts(ctx, e, fuel) {
                Option::Some((vs3, os3)) => exec_reduce(vs3, os3),
                Option::None => Option::None,
            }
        },
        Node::Method(_, _, _) => eval_method(ctx, e, fuel),
        Node::Array(elems) => {
            let n = elems.len();
            let mut out: Vec<Value> = Vec::new();
            for k in 0..n
                invariant
                    n == elems@.len(),
                    out@.len() == k,
                    spec_elems(map_of(ctx@), elems@.subrange(0, k as int), fuel as nat)
                        == Option::Some(sval_seq(out@)),
                decreases n - k,
            {
                proof {
                    assert(decreases_to!(*e => (*e)->Array_0));
                    assert(decreases_to!((*e)->Array_0 => (*e)->Array_0@[k as int]));
                    assert((*e)->Array_0@[k as int] == elems@[k as int]);
                    assert(elems@.subrange(0, k as int + 1).subrange(0, k as int) =~= elems@
                        .subrange(0, k as int));
                    assert(elems@.subrange(0, k as int + 1)[k as int] == elems@[k as int]);
                }
                match eval_node(ctx, &elems[k], fuel) {
                    Option::Some((v, _)) => {
                        if let Value::Null = v {
                            proof {
                                lemma_elems_fail(map_of(ctx@), elems@, k as int + 1, fuel as nat);
                            }
                            return Option::None;
                        }
                        let ghost out0 = out@;
                        out.push(v);
                        proof {
                            assert(out@.subrange(0, out0.len() as int) =~= out0);
                        }
                    },
                    Option::None => {
                        proof {
                            lemma_elems_fail(map_of(ctx@), elems@, k as int + 1, fuel as nat);
                        }
                        return Option::None;
                    },
                }
            }
            proof {
                assert(elems@.subrange(0, n as int) =~= elems@);
            }
            Option::Some((Value::List(out), false))
        },
        Node::Index(coll, idx) => match eval_node(ctx, &**coll, fuel) {
            Option::Some((c, _)) => match eval_node(ctx, &**idx, fuel) {
                Option::Some((i, _)) => match index_value(&c, &i) {
                    Option::Some(v) => Option::Some((v, false)),
                    Option::None => Option::None,
                },
                Option::None => Option::None,
            },
            Option::None => Option::None,
        },
        Node::RangeOf(a, b) => match eval_node(ctx, &**a, fuel) {
            Option::Some((va, _)) => match eval_node(ctx, &**b, fuel) {
                Option::Some((vb, _)) => match (va, vb) {
                    (Value::Int(x), Value::Int(y)) => Option::Some((Value::Range(x, y), false)),
                    _ => Option::None,
                },
                Option::None => Option::None,
            },
            Option::None => Option::None,
        },
        Node::Paren(inner) => eval_node(ctx, &**inner, fuel),
        Node::RefOf(inner) => eval_node(ctx, &**inner, fuel),
        Node::Unsupported => Option::None,
    }
}

/// The run of a top-level binary node: left run, the node's own operator,
/// right run.
fn eval_run_parts(ctx: &Vec<(String, Node)>, e: &Node, fuel: u64) -> (r: Option<
    (Vec<(Value, bool)>, Vec<Operator>),
>)
    requires
        *e is Binary,
    ensures
        match r {
            Option::Some(st) => ({
                let l = (*e)->Binary_0;
                let op = (*e)->Binary_1;
                let rr = (*e)->Binary_2;
                match spec_run(map_of(ctx@), *l, Seq::empty(), Seq::empty(), fuel as nat) {
                    Option::Some((vs, os)) => match spec_push_op(op, vs, os) {
                        Option::Some((vs2, os2)) => spec_run(
                            map_of(ctx@),
                            *rr,
                            vs2,
                            os2,
                            fuel as nat,
                        ) == Option::Some((pseq(st.0@), st.1@)),
                        Option::None => false,
                    },
                    Option::None => false,
                }
            }),
            Option::None => spec_eval(map_of(ctx@), *e, fuel as nat) is None,
        },
    decreases fuel, *e, 0int,
{
    match e {
        Node::Binary(l, op, r) => {
            proof {
                assert(pseq(Seq::<(Value, bool)>::empty()) =~= Seq::<(SpecValue, bool)>::empty());
            }
            match eval_run(ctx, &**l, Vec::new(), Vec::new(), fuel) {
                Option::Some((v1, o1)) => match exec_push_op(*op, v1, o1) {
                    Option::Some((v2, o2)) => match eval_run(ctx, &**r, v2, o2, fuel) {
                        Option::Some(st) => Option::Some(st),
                        Option::None => Option::None,
                    },
                    Option::None => Option::None,
                },
                Option::None => Option::None,
            }
        },
        _ => Option::None,
    }
}

/// Linearization of a run, following `spec_run`.
fn eval_run(
    ctx: &Vec<(String, Node)>,
    e: &Node,
    vals: Vec<(Value, bool)>,
    ops: Vec<Operator>,
    fuel: u64,
) -> (r: Option<(Vec<(Value, bool)>, Vec<Operator>)>)
    ensures
        match r {
            Option::Some(st) => spec_run(map_of(ctx@), *e, pseq(vals@), ops@, fuel as nat)
                == Option::Some((pseq(st.0@), st.1@)),
            Option::None => spec_run(map_of(ctx@), *e, pseq(vals@), ops@, fuel as nat) is None,
        },
    decreases fuel, *e, 2int,
{
    match e {
        Node::Binary(l, op, r) => match eval_run(ctx, &**l, vals, ops, fuel) {
            Option::Some((v1, o1)) => match exec_push_op(*op, v1, o1) {
                Option::Some((v2, o2)) => eval_run(ctx, &**r, v2, o2, fuel),
                Option::None => Option::None,
            },
            Option::None => Option::None,
        },
        _ => match eval_node(ctx, e, fuel) {
            Option::Some(p) => {
                let ghost v0 = pseq(vals@);
                let mut vals = vals;
                vals.push(p);
                proof {
                    assert(pseq(vals@) =~= v0.push(pview(p)));
                }
                Option::Some((vals, ops))
            },
            Option::None => Option::None,
        },
    }
}

} // verus!

verus! {

/// Method dispatch, following `spec_method`: the optional-value
/// combinators with their per-method tolerance of an unresolved receiver,
/// the type predicates, and the numeric table.
fn eval_method(ctx: &Vec<(String, Node)>, e: &Node, fuel: u64) -> (r: Option<(Value, bool)>)
    ensures
        match r {
            Option::Some(p) => spec_method(map_of(ctx@), *e, fuel as nat) == Option::Some(
                pview(p),
            ),
            Option::None => spec_method(map_of(ctx@), *e, fuel as nat) is None,
        },
    decreases fuel, *e, 0int,
{
    match e {
        Node::Method(recv0, name, arg0) => {
            let rcv = match eval_recv(ctx, &**recv0, fuel) {
                Option::Some(o) => o,
                Option::None => {
                    return Option::None;
                },
            };
            if str_eq(name.as_str(), "and") {
                match (arg0, rcv) {
                    (Option::Some(a), Outcome::Present(v, p)) => {
                        if let Value::Null = v {
                            Option::Some((Value::Null, p))
                        } else {
                            eval_node(ctx, &**a, fuel)
                        }
                    },
                    _ => Option::None,
                }
            } else if str_eq(name.as_str(), "or") {
                match (arg0, rcv) {
                    (Option::Some(a), Outcome::Missing) => eval_node(ctx, &**a, fuel),
                    (Option::Some(a), Outcome::Present(v, p)) => {
                        if let Value::Null = v {
                            eval_node(ctx, &**a, fuel)
                        } else {
                            Option::Some((v, p))
                        }
                    },
                    _ => Option::None,
                }
            } else if str_eq(name.as_str(), "xor") {
                match arg0 {
                    Option::Some(a) => {
                        let av = match eval_recv(ctx, &**a, fuel) {
                            Option::Some(o) => o,
                            Option::None => {
                                return Option::None;
                            },
                        };
                        let rp: Option<(Value, bool)> = match rcv {
                            Outcome::Present(v, p) => {
                                if let Value::Null = v {
                                    Option::None
                                } else {
                                    Option::Some((v, p))
                                }
                            },
                            Outcome::Missing => Option::None,
                        };
                        let ap: Option<(Value, bool)> = match av {
                            Outcome::Present(v, p) => {
                                if let Value::Null = v {
                                    Option::None
                                } else {
                                    Option::Some((v, p))
                                }
                            },
                            Outcome::Missing => Option::None,
                        };
                        match (rp, ap) {
                            (Option::Some(x), Option::None) => Option::Some(x),
                            (Option::None, Option::Some(y)) => Option::Some(y),
                            (Option::Some(_), Option::Some(_)) => Option::None,
                            (Option::None, Option::None) => Option::Some((Value::Null, true)),
                        }
                    },
                    Option::None => Option::None,
                }
            } else if str_eq(name.as_str(), "unwrap") {
                match (arg0, rcv) {
                    (Option::None, Outcome::Present(v, p)) => {
                        if let Value::Null = v {
                            Option::None
                        } else {
                            Option::Some((v, p))
                        }
                    },
                    _ => Option::None,
                }
            } else if str_eq(name.as_str(), "unwrap_or") {
                match (arg0, rcv) {
                    (Option::Some(a), Outcome::Missing) => eval_node(ctx, &**a, fuel),
                    (Option::Some(a), Outcome::Present(v, p)) => {
                        if let Value::Null = v {
                            eval_node(ctx, &**a, fuel)
                        } else {
                            Option::Some((v, p))
                        }
                    },
                    _ => Option::None,
                }
            } else if str_eq(name.as_str(), "is_none") {
                match (arg0, rcv) {
                    (Option::None, Outcome::Missing) => Option::Some((Value::Bool(true), false)),
                    (Option::None, Outcome::Present(v, _)) => Option::Some(
                        (Value::Bool(matches!(v, Value::Null)), false),
                    ),
                    _ => Option::None,
                }
            } else if str_eq(name.as_str(), "is_some") {
                match (arg0, rcv) {
                    (Option::None, Outcome::Missing) => Option::Some((Value::Bool(false), false)),
                    (Option::None, Outcome::Present(v, _)) => Option::Some(
                        (Value::Bool(!matches!(v, Value::Null)), false),
                    ),
                    _ => Option::None,
                }
            } else if str_eq(name.as_str(), "is_option") {
                match (arg0, rcv) {
                    (Option::None, Outcome::Missing) => Option::Some((Value::Bool(true), false)),
                    (Option::None, Outcome::Present(_, p)) => Option::Some(
                        (Value::Bool(p), false),
                    ),
                    _ => Option::None,
                }
            } else if str_eq(name.as_str(), "is_same") {
                match (arg0, rcv) {
                    (Option::Some(a), Outcome::Present(v, _)) => match eval_node(
                        ctx,
                        &**a,
                        fuel,
                    ) {
                        Option::Some((w, _)) => Option::Some(
                            (Value::Bool(v.is_same(&w)), false),
                        ),
                        Option::None => Option::None,
                    },
                    _ => Option::None,
                }
            } else if type_pred_name(name.as_str()) {
                match (arg0, rcv) {
                    (Option::None, Outcome::Present(v, _)) => Option::Some(
                        (Value::Bool(type_pred_val(name.as_str(), &v)), false),
                    ),
                    _ => Option::None,
                }
            } else {
                match rcv {
                    Outcome::Present(v, _) => match as_bits(&v) {
                        Option::Some(x) => match arg0 {
                            Option::None => match numeric_unary(name.as_str(), x) {
                                Option::Some(res) => Option::Some((res, false)),
                                Option::None => Option::None,
                            },
                            Option::Some(a) => match eval_node(ctx, &**a, fuel) {
                                Option::Some((w, _)) => match as_bits(&w) {
                                    Option::Some(y) => match numeric_binary(
                                        name.as_str(),
                                        x,
                                        y,
                                    ) {
                                        Option::Some(res) => Option::Some((res, false)),
                                        Option::None => Option::None,
                                    },
                                    Option::None => Option::None,
                                },
                                Option::None => Option::None,
                            },
                        },
                        Option::None => Option::None,
                    },
                    _ => Option::None,
                }
            }
        },
        _ => Option::None,
    }
}

/// The value of an expression under the context, the option-derived flag
/// dropped.
pub open spec fn spec_result(ctx: Map<Seq<char>, Node>, e: Node) -> Option<SpecValue> {
    match spec_eval(ctx, e, EVAL_FUEL as nat) {
        Option::Some((v, _)) => Option::Some(v),
        Option::None => Option::None,
    }
}

/// Evaluates an expression tree against the context entries.
pub fn eval(ctx: &Vec<(String, Node)>, e: &Node) -> (r: Option<Value>)
    ensures
        match r {
            Option::Some(v) => spec_result(map_of(ctx@), *e) == Option::Some(sval(v)),
            Option::None => spec_result(map_of(ctx@), *e) is None,
        },
{
    match eval_node(ctx, e, EVAL_FUEL) {
        Option::Some((v, _)) => Option::Some(v),
        Option::None => Option::None,
    }
}

} // verus!
