//! The dynamically typed result of evaluating an expression.
//!
//! A `Value` is one of: boolean, 64-bit signed integer, IEEE double (held as
//! its 64-bit pattern, see the `float` module), text, ordered list, half-open
//! integer range, or the language's `None` value. `SpecValue` is the
//! mathematical model of a `Value`: text as a sequence of characters, lists
//! as sequences of models.

use vstd::prelude::*;

use crate::float::{eq_bits, float_eq};
use vstd::string::StringExecFns;

verus! {

/// A value of the expression language.
#[derive(Debug)]
pub enum Value {
    Bool(bool),
    Int(i64),
    /// An IEEE double, as its 64-bit pattern.
    Float(u64),
    Str(String),
    /// An ordered, possibly heterogeneous list.
    List(Vec<Value>),
    /// A half-open integer range: start inclusive, end exclusive,
    /// unnormalized (end below start is an empty but valid range).
    Range(i64, i64),
    /// The language's empty-optional value.
    Null,
}

/// The mathematical model of a `Value`.
pub enum SpecValue {
    Bool(bool),
    Int(i64),
    Float(u64),
    Str(Seq<char>),
    List(Seq<SpecValue>),
    Range(i64, i64),
    Null,
}

/// The model of a value: text and lists are abstracted to sequences.
pub open spec fn sval(v: Value) -> SpecValue
    decreases v,
{
    match v {
        Value::Bool(b) => SpecValue::Bool(b),
        Value::Int(i) => SpecValue::Int(i),
        Value::Float(f) => SpecValue::Float(f),
        Value::Str(s) => SpecValue::Str(s@),
        Value::List(l) => SpecValue::List(sval_seq(l@)),
        Value::Range(a, b) => SpecValue::Range(a, b),
        Value::Null => SpecValue::Null,
    }
}

/// The models of a sequence of values, in order.
pub open spec fn sval_seq(s: Seq<Value>) -> Seq<SpecValue>
    decreases s,
{
    if s.len() == 0 {
        Seq::empty()
    } else {
        sval_seq(s.subrange(0, s.len() - 1)).push(sval(s[s.len() - 1]))
    }
}

/// Whether two models carry the same variant tag, whatever their contents.
pub open spec fn spec_same_tag(a: SpecValue, b: SpecValue) -> bool {
    match (a, b) {
        (SpecValue::Bool(_), SpecValue::Bool(_)) => true,
        (SpecValue::Int(_), SpecValue::Int(_)) => true,
        (SpecValue::Float(_), SpecValue::Float(_)) => true,
        (SpecValue::Str(_), SpecValue::Str(_)) => true,
        (SpecValue::List(_), SpecValue::List(_)) => true,
        (SpecValue::Range(_, _), SpecValue::Range(_, _)) => true,
        (SpecValue::Null, SpecValue::Null) => true,
        _ => false,
    }
}

/// Structural, variant-exact equality of two models. Values of different
/// variants are never equal; floats compare by IEEE equality on their bits.
pub open spec fn spec_val_eq(a: SpecValue, b: SpecValue) -> bool
    decreases a,
{
    match (a, b) {
        (SpecValue::Bool(x), SpecValue::Bool(y)) => x == y,
        (SpecValue::Int(x), SpecValue::Int(y)) => x == y,
        (SpecValue::Float(x), SpecValue::Float(y)) => eq_bits(x, y),
        (SpecValue::Str(x), SpecValue::Str(y)) => x == y,
        (SpecValue::List(x), SpecValue::List(y)) => x.len() == y.len() && (forall|i: int|
            0 <= i < x.len() ==> spec_val_eq(#[trigger] x[i], y[i])),
        (SpecValue::Range(x1, x2), SpecValue::Range(y1, y2)) => x1 == y1 && x2 == y2,
        (SpecValue::Null, SpecValue::Null) => true,
        _ => false,
    }
}

impl Value {
    /// Whether this value and `other` share a variant tag, independent of
    /// their contents.
    pub fn is_same(&self, other: &Value) -> (r: bool)
        ensures
            r == spec_same_tag(sval(*self), sval(*other)),
    {
        match (self, other) {
            (Value::Bool(_), Value::Bool(_)) => true,
            (Value::Int(_), Value::Int(_)) => true,
            (Value::Float(_), Value::Float(_)) => true,
            (Value::Str(_), Value::Str(_)) => true,
            (Value::List(_), Value::List(_)) => true,
            (Value::Range(_, _), Value::Range(_, _)) => true,
            (Value::Null, Value::Null) => true,
            _ => false,
        }
    }

    /// A value equal to this one under the model.
    #[verifier::loop_isolation(false)]
    pub fn duplicate(&self) -> (r: Value)
        ensures
            sval(r) == sval(*self),
        decreases *self,
    {
        match self {
            Value::Bool(b) => Value::Bool(*b),
            Value::Int(i) => Value::Int(*i),
            Value::Float(f) => Value::Float(*f),
            Value::Str(s) => Value::Str(s.clone()),
            Value::List(l) => {
                let mut out: Vec<Value> = Vec::new();
                let n = l.len();
                for k in 0..n
                    invariant
                        n == l@.len(),
                        out@.len() == k,
                        forall|i: int| 0 <= i < k ==> sval(#[trigger] out@[i]) == sval(l@[i]),
                    decreases n - k,
                {
                    proof {
                        assert(decreases_to!(*self => (*self)->List_0));
                        assert(decreases_to!((*self)->List_0 => (*self)->List_0@[k as int]));
                        assert((*self)->List_0@[k as int] == l@[k as int]);
                    }
                    out.push(l[k].duplicate());
                }
                let r = Value::List(out);
                proof {
                    lemma_sval_seq(out@);
                    lemma_sval_seq(l@);
                    assert(sval_seq(out@) =~= sval_seq(l@));
                }
                r
            },
            Value::Range(a, b) => Value::Range(*a, *b),
            Value::Null => Value::Null,
        }
    }
}

/// The model of a sequence is pointwise: as long as the sequence, with the
/// model of each element at its place.
pub proof fn lemma_sval_seq(s: Seq<Value>)
    ensures
        sval_seq(s).len() == s.len(),
        forall|i: int| 0 <= i < s.len() ==> #[trigger] sval_seq(s)[i] == sval(s[i]),
    decreases s.len(),
{
    if s.len() > 0 {
        lemma_sval_seq(s.subrange(0, s.len() - 1));
    }
}

/// Structural equality of two values, following `spec_val_eq` on the models.
#[verifier::loop_isolation(false)]
pub fn value_eq(a: &Value, b: &Value) -> (r: bool)
    ensures
        r == spec_val_eq(sval(*a), sval(*b)),
    decreases *a,
{
    match (a, b) {
        (Value::Bool(x), Value::Bool(y)) => *x == *y,
        (Value::Int(x), Value::Int(y)) => *x == *y,
        (Value::Float(x), Value::Float(y)) => float_eq(*x, *y),
        (Value::Str(x), Value::Str(y)) => *x == *y,
        (Value::List(x), Value::List(y)) => {
            proof {
                lemma_sval_seq(x@);
                lemma_sval_seq(y@);
            }
            if x.len() != y.len() {
                false
            } else {
                let n = x.len();
                let mut all = true;
                for k in 0..n
                    invariant
                        n == x@.len() == y@.len(),
                        all == (forall|i: int|
                            0 <= i < k ==> spec_val_eq(
                                #[trigger] sval_seq(x@)[i],
                                sval_seq(y@)[i],
                            )),
                    decreases n - k,
                {
                    proof {
                        assert(decreases_to!(*a => (*a)->List_0));
                        assert(decreases_to!((*a)->List_0 => (*a)->List_0@[k as int]));
                        assert((*a)->List_0@[k as int] == x@[k as int]);
                    }
                    let e = value_eq(&x[k], &y[k]);
                    proof {
                        assert(sval_seq(x@)[k as int] == sval(x@[k as int]));
                        assert(sval_seq(y@)[k as int] == sval(y@[k as int]));
                    }
                    if !e {
                        all = false;
                    }
                }
                proof {
                    assert(sval_seq(x@).len() == sval_seq(y@).len());
                    assert(all == (forall|i: int|
                        0 <= i < x@.len() ==> spec_val_eq(
                            #[trigger] sval_seq(x@)[i],
                            sval_seq(y@)[i],
                        )));
                    assert(spec_val_eq(sval(*a), sval(*b)) == all);
                }
                all
            }
        },
        (Value::Range(x1, x2), Value::Range(y1, y2)) => *x1 == *y1 && *x2 == *y2,
        (Value::Null, Value::Null) => true,
        _ => false,
    }
}

impl PartialEq for Value {
    /// Structural, variant-exact equality; floats compare by IEEE equality.
    fn eq(&self, other: &Value) -> (r: bool) {
        value_eq(self, other)
    }
}

impl vstd::std_specs::cmp::PartialEqSpecImpl for Value {
    open spec fn obeys_eq_spec() -> bool {
        true
    }

    open spec fn eq_spec(&self, other: &Value) -> bool {
        spec_val_eq(sval(*self), sval(*other))
    }
}

} // verus!

verus! {

/// `n` concatenated copies of `s`; none for a count of zero or below.
pub open spec fn spec_repeat(s: Seq<char>, n: int) -> Seq<char>
    decreases n,
{
    if n <= 0 {
        Seq::empty()
    } else {
        spec_repeat(s, n - 1) + s
    }
}

/// Repetition of a string: `n` concatenated copies, the empty string for a
/// count of zero or below.
#[verifier::loop_isolation(false)]
pub fn str_repeat(s: &str, n: i64) -> (r: String)
    ensures
        r@ == spec_repeat(s@, n as int),
{
    let mut acc = String::new();
    if n <= 0 {
        return acc;
    }
    let mut k: i64 = 0;
    while k < n
        invariant
            0 <= k <= n,
            acc@ == spec_repeat(s@, k as int),
        decreases n - k,
    {
        acc.append(s);
        k = k + 1;
    }
    acc
}

} // verus!

verus! {

/// The decimal digit character of one digit.
pub open spec fn digit_char(d: int) -> char {
    if d == 0 {
        '0'
    } else if d == 1 {
        '1'
    } else if d == 2 {
        '2'
    } else if d == 3 {
        '3'
    } else if d == 4 {
        '4'
    } else if d == 5 {
        '5'
    } else if d == 6 {
        '6'
    } else if d == 7 {
        '7'
    } else if d == 8 {
        '8'
    } else {
        '9'
    }
}

/// The decimal digits of a non-negative number, most significant first.
pub open spec fn dec_u(n: int) -> Seq<char>
    decreases n,
{
    if n < 10 {
        seq![digit_char(n)]
    } else {
        dec_u(n / 10).push(digit_char(n % 10))
    }
}

/// The decimal rendering of a signed number: a leading minus sign for a
/// negative one.
pub open spec fn dec_i(n: int) -> Seq<char> {
    if n >= 0 {
        dec_u(n)
    } else {
        seq!['-'] + dec_u(-n)
    }
}

/// Canonical rendering of a value model: booleans and numbers in literal
/// form, text double-quoted, lists bracketed with a comma after every
/// element, ranges as their two bounds, the empty optional by its name.
pub open spec fn render(v: SpecValue) -> Seq<char>
    decreases v,
{
    match v {
        SpecValue::Bool(b) => if b {
            "true"@
        } else {
            "false"@
        },
        SpecValue::Int(i) => dec_i(i as int),
        SpecValue::Float(f) => crate::float::float_repr(f),
        SpecValue::Str(s) => "\""@ + s + "\""@,
        SpecValue::List(l) => "["@ + render_elems(l) + "]"@,
        SpecValue::Range(a, b) => dec_i(a as int) + ".."@ + dec_i(b as int),
        SpecValue::Null => "None"@,
    }
}

/// The rendered elements of a list, a comma after each.
pub open spec fn render_elems(s: Seq<SpecValue>) -> Seq<char>
    decreases s,
{
    if s.len() == 0 {
        Seq::empty()
    } else {
        render_elems(s.subrange(0, s.len() - 1)) + render(s[s.len() - 1]) + ","@
    }
}

/// A one-character text holding the given decimal digit.
fn digit_str(d: u64) -> (r: &'static str)
    requires
        d < 10,
    ensures
        r@ == seq![digit_char(d as int)],
{
    if d == 0 {
        proof {
            reveal_strlit("0");
        }
        assert("0"@ =~= seq!['0']);
        "0"
    } else if d == 1 {
        proof {
            reveal_strlit("1");
        }
        assert("1"@ =~= seq!['1']);
        "1"
    } else if d == 2 {
        proof {
            reveal_strlit("2");
        }
        assert("2"@ =~= seq!['2']);
        "2"
    } else if d == 3 {
        proof {
            reveal_strlit("3");
        }
        assert("3"@ =~= seq!['3']);
        "3"
    } else if d == 4 {
        proof {
            reveal_strlit("4");
        }
        assert("4"@ =~= seq!['4']);
        "4"
    } else if d == 5 {
        proof {
            reveal_strlit("5");
        }
        assert("5"@ =~= seq!['5']);
        "5"
    } else if d == 6 {
        proof {
            reveal_strlit("6");
        }
        assert("6"@ =~= seq!['6']);
        "6"
    } else if d == 7 {
        proof {
            reveal_strlit("7");
        }
        assert("7"@ =~= seq!['7']);
        "7"
    } else if d == 8 {
        proof {
            reveal_strlit("8");
        }
        assert("8"@ =~= seq!['8']);
        "8"
    } else {
        proof {
            reveal_strlit("9");
        }
        assert("9"@ =~= seq!['9']);
        "9"
    }
}

/// The decimal digits of a non-negative number.
fn dec_str(m: u64) -> (r: String)
    ensures
        r@ == dec_u(m as int),
    decreases m,
{
    if m < 10 {
        let r = String::from_str(digit_str(m));
        r
    } else {
        let mut s = dec_str(m / 10);
        s.append(digit_str(m % 10));
        proof {
            assert(dec_u((m / 10) as int).push(digit_char((m % 10) as int)) =~= dec_u(
                (m / 10) as int,
            ) + seq![digit_char((m % 10) as int)]);
        }
        s
    }
}

/// The decimal rendering of a signed number.
fn int_str(n: i64) -> (r: String)
    ensures
        r@ == dec_i(n as int),
{
    if n >= 0 {
        dec_str(n as u64)
    } else {
        let mag: u64 = if n == i64::MIN {
            9223372036854775808u64
        } else {
            (-n) as u64
        };
        proof {
            assert(mag as int == -(n as int));
        }
        let mut s = String::from_str("-");
        s.append(dec_str(mag).as_str());
        proof {
            reveal_strlit("-");
            assert("-"@ =~= seq!['-']);
        }
        s
    }
}

impl Value {
    /// Canonical rendering, following `render` on the model.
    #[verifier::loop_isolation(false)]
    pub fn to_string(&self) -> (r: String)
        ensures
            r@ == render(sval(*self)),
        decreases *self,
    {
        match self {
            Value::Bool(b) => {
                if *b {
                    String::from_str("true")
                } else {
                    String::from_str("false")
                }
            },
            Value::Int(i) => int_str(*i),
            Value::Float(f) => crate::float::float_to_string(*f),
            Value::Str(s) => {
                let mut r = String::from_str("\"");
                r.append(s.as_str());
                r.append("\"");
                r
            },
            Value::List(l) => {
                let mut r = String::from_str("[");
                let n = l.len();
                proof {
                    lemma_sval_seq(l@);
                }
                for k in 0..n
                    invariant
                        n == l@.len(),
                        r@ == "["@ + render_elems(sval_seq(l@).subrange(0, k as int)),
                    decreases n - k,
                {
                    proof {
                        assert(decreases_to!(*self => (*self)->List_0));
                        assert(decreases_to!((*self)->List_0 => (*self)->List_0@[k as int]));
                        assert((*self)->List_0@[k as int] == l@[k as int]);
                    }
                    let piece = l[k].to_string();
                    r.append(piece.as_str());
                    r.append(",");
                    proof {
                        reveal_strlit(",");
                        assert(","@ =~= seq![',']);
                        let pre = sval_seq(l@).subrange(0, k as int);
                        let cur = sval_seq(l@).subrange(0, k as int + 1);
                        assert(cur.subrange(0, cur.len() - 1) =~= pre);
                        assert(cur[cur.len() - 1] == sval(l@[k as int]));
                        assert(render_elems(cur) == render_elems(pre) + render(sval(l@[k as int]))
                            + ","@);
                    }
                }
                r.append("]");
                proof {
                    assert(sval_seq(l@).subrange(0, n as int) =~= sval_seq(l@));
                }
                r
            },
            Value::Range(a, b) => {
                let mut r = int_str(*a);
                r.append("..");
                r.append(int_str(*b).as_str());
                r
            },
            Value::Null => String::from_str("None"),
        }
    }
}

} // verus!
