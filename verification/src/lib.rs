//! An embedded expression evaluator with a named context.
//!
//! A context binds names to parsed expression subtrees; evaluating source
//! text parses it and resolves it against the context, yielding a
//! dynamically typed `Value` or nothing when the expression cannot be
//! evaluated. The contract of `Eval::eval` pins its result to a function of
//! the context model and the text alone: evaluation is pure.

use vstd::prelude::*;

pub mod float;
pub mod laws;
pub mod node;
pub mod operator;
pub mod parse;
pub mod reflect;
pub mod value;

pub use crate::node::Node;
pub use crate::operator::Operator;
pub use crate::reflect::eval;
pub use crate::value::Value;

use crate::parse::{parse_of, parse_source, str_eq};
use crate::reflect::{map_of, spec_result};
use crate::value::{sval, SpecValue};

verus! {

/// The result of evaluating source text under a context model; absent when
/// the text does not parse or the expression cannot be evaluated.
pub open spec fn spec_eval_source(ctx: Map<Seq<char>, Node>, src: Seq<char>) -> Option<SpecValue> {
    match parse_of(src) {
        Option::Some(e) => spec_result(ctx, e),
        Option::None => Option::None,
    }
}

/// Evaluator with context.
pub struct Eval {
    entries: Vec<(String, Node)>,
}

impl View for Eval {
    type V = Map<Seq<char>, Node>;

    closed spec fn view(&self) -> Map<Seq<char>, Node> {
        map_of(self.entries@)
    }
}

impl Default for Eval {
    /// The empty context.
    fn default() -> (r: Self)
        ensures
            r@ == Map::<Seq<char>, Node>::empty(),
    {
        Eval { entries: Vec::new() }
    }
}

/// Removes every entry bound to the name, keeping the rest in order.
fn remove_key(entries: Vec<(String, Node)>, k: &str) -> (r: Vec<(String, Node)>)
    ensures
        map_of(r@) == map_of(entries@).remove(k@),
    decreases entries@.len(),
{
    let mut entries = entries;
    if entries.len() == 0 {
        proof {
            assert(map_of(entries@).remove(k@) =~= map_of(entries@));
        }
        return entries;
    }
    let ghost all = entries@;
    let last = entries.pop().unwrap();
    let rest = remove_key(entries, k);
    if str_eq(last.0.as_str(), k) {
        proof {
            assert(map_of(rest@) =~= map_of(all).remove(k@));
        }
        rest
    } else {
        let mut rest = rest;
        let ghost restv = rest@;
        rest.push(last);
        proof {
            assert(rest@.subrange(0, restv.len() as int) =~= restv);
            assert(map_of(rest@) =~= map_of(all).remove(k@));
        }
        rest
    }
}

impl Eval {
    /// A context holding the given entries; a later entry shadows an
    /// earlier one of the same name.
    pub fn new(c: Vec<(String, Node)>) -> (r: Self)
        ensures
            r@ == map_of(c@),
    {
        Eval { entries: c }
    }

    /// Parses the source text and binds the tree to the name; text that
    /// does not parse is rejected at once.
    pub fn insert(self, k: &str, v: &str) -> (r: Result<Self, ()>)
        ensures
            match parse_of(v@) {
                Option::Some(e) => r matches Ok(s) && s@ == self@.insert(k@, e),
                Option::None => r is Err,
            },
    {
        match parse_source(v) {
            Option::Some(e) => {
                let mut s = self;
                let ghost before = s.entries@;
                s.entries.push((k.to_owned(), e));
                proof {
                    assert(s.entries@.subrange(0, before.len() as int) =~= before);
                }
                Ok(s)
            },
            Option::None => Err(()),
        }
    }

    /// Removes the name from the context.
    pub fn remove(self, k: &str) -> (r: Self)
        ensures
            r@ == self@.remove(k@),
    {
        Eval { entries: remove_key(self.entries, k) }
    }

    /// Evaluates source text with the current context: the result is a
    /// function of the context model and the text alone.
    pub fn eval(&self, src: &str) -> (r: Option<Value>)
        ensures
            match r {
                Option::Some(v) => spec_eval_source(self@, src@) == Option::Some(sval(v)),
                Option::None => spec_eval_source(self@, src@) is None,
            },
    {
        match parse_source(src) {
            Option::Some(e) => crate::reflect::eval(&self.entries, &e),
            Option::None => Option::None,
        }
    }
}

} // verus!
