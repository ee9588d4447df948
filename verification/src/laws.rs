//! Properties of the evaluator, stated and proved over the specification
//! functions that the executable functions' contracts use.

use vstd::prelude::*;

use crate::node::Node;
use crate::reflect::{spec_eval, spec_method, spec_recv, spec_index, RecvOutcome};
use crate::value::{spec_repeat, spec_val_eq, SpecValue};

verus! {

/// Repetition of text is the count times the text's length; a count of
/// zero or below yields the empty text.
pub proof fn lemma_repeat_len(s: Seq<char>, n: int)
    ensures
        n <= 0 ==> spec_repeat(s, n) == Seq::<char>::empty(),
        n >= 0 ==> spec_repeat(s, n).len() == n * s.len(),
    decreases n,
{
    if n > 0 {
        lemma_repeat_len(s, n - 1);
        assert((n - 1) * s.len() + s.len() == n * s.len()) by (nonlinear_arith);
    }
}

/// Two ranges are equal exactly when their bounds agree; equality on
/// ranges is structural.
pub proof fn lemma_range_equality(a: i64, b: i64, c: i64, d: i64)
    ensures
        spec_val_eq(SpecValue::Range(a, b), SpecValue::Range(c, d)) == (a == c && b == d),
{
}

/// Indexing a list outside its bounds yields no value, never a default.
pub proof fn lemma_index_out_of_bounds(l: Seq<SpecValue>, k: i64)
    requires
        k < 0 || k >= l.len(),
    ensures
        spec_index(SpecValue::List(l), SpecValue::Int(k)) is None,
{
}

/// Slicing text beyond its length yields no value, never a default.
pub proof fn lemma_slice_out_of_bounds(s: Seq<char>, a: i64, b: i64)
    requires
        !(0 <= a <= b <= s.len()),
    ensures
        spec_index(SpecValue::Str(s), SpecValue::Range(a, b)) is None,
{
}

/// `unwrap_or`: an absent or `None` receiver yields the default's value;
/// a present receiver that is not `None` is returned itself.
#[verifier::rlimit(100)]
pub proof fn lemma_unwrap_or(ctx: Map<Seq<char>, Node>, e: Node, fuel: nat)
    requires
        e is Method,
        (e->Method_1)@ == "unwrap_or"@,
        e->Method_2 is Some,
    ensures
        ({
            let rcv = spec_recv(ctx, *e->Method_0, fuel);
            let a = *(e->Method_2)->0;
            match rcv {
                RecvOutcome::Missing => spec_method(ctx, e, fuel) == spec_eval(ctx, a, fuel),
                RecvOutcome::Present(v, p) => if v is Null {
                    spec_method(ctx, e, fuel) == spec_eval(ctx, a, fuel)
                } else {
                    spec_method(ctx, e, fuel) == Option::Some((v, p))
                },
                RecvOutcome::Fail => spec_method(ctx, e, fuel) is None,
            }
        }),
{
    reveal_strlit("and");
    reveal_strlit("or");
    reveal_strlit("xor");
    reveal_strlit("unwrap");
    reveal_strlit("unwrap_or");
    assert("unwrap_or"@.len() == 9);
    assert("and"@.len() == 3);
    let n = (e->Method_1)@;
    assert(n.len() == 9);
    assert(n != "and"@);
}

/// `xor` of two present, non-`None` operands is ambiguous: it yields no
/// value at all.
#[verifier::rlimit(100)]
pub proof fn lemma_xor_ambiguous(ctx: Map<Seq<char>, Node>, e: Node, fuel: nat)
    requires
        e is Method,
        (e->Method_1)@ == "xor"@,
        e->Method_2 is Some,
        spec_recv(ctx, *e->Method_0, fuel) matches RecvOutcome::Present(v, _) && !(v is Null),
        spec_recv(ctx, *(e->Method_2)->0, fuel) matches RecvOutcome::Present(w, _) && !(
        w is Null),
    ensures
        spec_method(ctx, e, fuel) is None,
{
    reveal_strlit("and");
    reveal_strlit("or");
    reveal_strlit("xor");
    let n = (e->Method_1)@;
    assert(n.len() == 3 && n[0] == 'x');
    assert("and"@.len() == 3 && "and"@[0] == 'a');
    assert("or"@.len() == 2);
    assert(n != "and"@ && n != "or"@);
}

/// A text value renders double-quoted.
pub proof fn lemma_render_str(s: Seq<char>)
    ensures
        crate::value::render(SpecValue::Str(s)) == "\""@ + s + "\""@,
{
}

} // verus!
