use v_eval::{Eval, Value};

#[test]
fn refused_operand_pairs_are_absent() {
    let e = Eval::default();
    assert_eq!(e.eval("1 + 1.0"), None);
    assert_eq!(e.eval("1.0 + 1"), None);
    assert_eq!(e.eval("1 + true"), None);
    assert_eq!(e.eval(r#""a" - "b""#), None);
    assert_eq!(e.eval("true > false"), None);
    assert_eq!(e.eval("None == None"), None);
    assert_eq!(e.eval("[1] + [2]"), None);
}

#[test]
fn string_repetition() {
    let e = Eval::default();
    assert_eq!(e.eval(r#""x" * 3"#).unwrap(), Value::Str("xxx".into()));
    assert_eq!(e.eval(r#""x" * 0"#).unwrap(), Value::Str("".into()));
    assert_eq!(e.eval(r#"2 * "ab""#).unwrap(), Value::Str("abab".into()));
}

#[test]
fn range_equality() {
    let e = Eval::default();
    assert_eq!(e.eval("(0..4) == (0..4)").unwrap(), Value::Bool(true));
    assert_eq!(e.eval("(0..4) == (0..5)").unwrap(), Value::Bool(false));
    assert_eq!(e.eval("(0..4) != (1..4)").unwrap(), Value::Bool(true));
    assert_eq!(e.eval("3..1").unwrap(), Value::Range(3, 1));
}

#[test]
fn comparison_chains_fold_left() {
    let e = Eval::default();
    assert_eq!(e.eval("1 == 1 != false").unwrap(), Value::Bool(true));
    assert_eq!(e.eval("2 > 1 == true").unwrap(), Value::Bool(true));
}

#[test]
fn indexing_beyond_bounds_is_absent() {
    let e = Eval::default();
    assert_eq!(e.eval("[1, 2][5]"), None);
    assert_eq!(e.eval(r#""ab"[5..6]"#), None);
    assert_eq!(e.eval(r#""ab"[1..0]"#), None);
    assert_eq!(e.eval("[1, 2][0]").unwrap(), Value::Int(1));
    assert_eq!(e.eval(r#""ab"[0..2]"#).unwrap(), Value::Str("ab".into()));
}

#[test]
fn optional_combinators() {
    let e = Eval::default()
        .insert("foo", "true")
        .unwrap()
        .insert("bar", "false")
        .unwrap()
        .insert("opt", "Some(true)")
        .unwrap();
    assert_eq!(e.eval("None.unwrap_or(2)").unwrap(), Value::Int(2));
    assert_eq!(e.eval("3.unwrap_or(2)").unwrap(), Value::Int(3));
    assert_eq!(e.eval("not_exist.unwrap_or(bar)").unwrap(), Value::Bool(false));
    assert_eq!(e.eval("bar.xor(foo)"), None);
    assert_eq!(e.eval("not_exist.xor(opt)").unwrap(), Value::Bool(true));
    assert_eq!(e.eval("bar.xor(None)").unwrap(), Value::Bool(false));
    assert_eq!(e.eval("foo.and(bar)").unwrap(), Value::Bool(false));
    assert_eq!(e.eval("not_exist.and(bar)"), None);
    assert_eq!(e.eval("None.or(bar)").unwrap(), Value::Bool(false));
    assert_eq!(e.eval("None.or(not_exist)"), None);
    assert_eq!(e.eval("foo.unwrap()").unwrap(), Value::Bool(true));
    assert_eq!(e.eval("None.unwrap()"), None);
    assert_eq!(e.eval("not_exist.unwrap()"), None);
    assert_eq!(e.eval("foo.is_none()").unwrap(), Value::Bool(false));
    assert_eq!(e.eval("not_exist.is_none()").unwrap(), Value::Bool(true));
    assert_eq!(e.eval("not_exist.is_some()").unwrap(), Value::Bool(false));
    assert_eq!(e.eval("None.is_option()").unwrap(), Value::Bool(true));
    assert_eq!(e.eval("not_exist.is_option()").unwrap(), Value::Bool(true));
    assert_eq!(e.eval("bar.is_option()").unwrap(), Value::Bool(false));
    assert_eq!(e.eval("opt.is_option()").unwrap(), Value::Bool(true));
}

#[test]
fn type_predicates() {
    let e = Eval::default()
        .insert("foo", "true")
        .unwrap()
        .insert("string", r#""foo""#)
        .unwrap();
    assert_eq!(e.eval("foo.is_bool()").unwrap(), Value::Bool(true));
    assert_eq!(e.eval("string.is_bool()").unwrap(), Value::Bool(false));
    assert_eq!(e.eval("1.0.is_float()").unwrap(), Value::Bool(true));
    assert_eq!(e.eval("1.is_int()").unwrap(), Value::Bool(true));
    assert_eq!(e.eval("(0..10).is_range()").unwrap(), Value::Bool(true));
    assert_eq!(e.eval("string.is_str()").unwrap(), Value::Bool(true));
    assert_eq!(e.eval("[1, 3, 4.0, true, foo].is_vec()").unwrap(), Value::Bool(true));
    assert_eq!(e.eval("foo.is_same(false)").unwrap(), Value::Bool(true));
    assert_eq!(e.eval("foo.is_same(1)").unwrap(), Value::Bool(false));
}

#[test]
fn numeric_methods() {
    let e = Eval::default();
    assert_eq!(e.eval("1.5.trunc()").unwrap(), Value::Int(1));
    assert_eq!(e.eval("50.log10().trunc() == 1").unwrap(), Value::Bool(true));
    assert_eq!(e.eval("1.5.floor()").unwrap(), Value::Int(1));
    assert_eq!(e.eval("-1.5.floor()").unwrap(), Value::Int(-1));
    assert_eq!(e.eval("(-1.5).floor()").unwrap(), Value::Int(-2));
    assert_eq!(e.eval("1.5.ceil()").unwrap(), Value::Int(2));
    assert_eq!(e.eval("2.5.round()").unwrap(), Value::Int(3));
    assert_eq!(
        e.eval("2.0.powf(3.0)").unwrap(),
        Value::Float(8.0f64.to_bits())
    );
    assert_eq!(
        e.eval("2.0.min(3.0)").unwrap(),
        Value::Float(2.0f64.to_bits())
    );
    assert_eq!(
        e.eval("9.0.sqrt()").unwrap(),
        Value::Float(3.0f64.to_bits())
    );
    assert_eq!(e.eval("true.sqrt()"), None);
    assert_eq!(e.eval("1.no_such_method()"), None);
}

#[test]
fn float_arithmetic_and_order() {
    let e = Eval::default();
    assert_eq!(
        e.eval("1.5 + 2.25").unwrap(),
        Value::Float((1.5f64 + 2.25f64).to_bits())
    );
    assert_eq!(
        e.eval("1.5 * 2.0 - 0.5").unwrap(),
        Value::Float(2.5f64.to_bits())
    );
    assert_eq!(
        e.eval("1.0 / 4.0").unwrap(),
        Value::Float(0.25f64.to_bits())
    );
    assert_eq!(e.eval("1.5 < 2.5").unwrap(), Value::Bool(true));
    assert_eq!(e.eval("1.5 >= 2.5").unwrap(), Value::Bool(false));
    assert_eq!(e.eval("2.5 == 2.5").unwrap(), Value::Bool(true));
    assert_eq!(e.eval("-2.5").unwrap(), Value::Float((-2.5f64).to_bits()));
}

#[test]
fn integer_arithmetic_failures_are_absent() {
    let e = Eval::default();
    assert_eq!(e.eval("1 / 0"), None);
    assert_eq!(e.eval("1 % 0"), None);
    assert_eq!(e.eval("9223372036854775807 + 1"), None);
    assert_eq!(e.eval("7 / 2").unwrap(), Value::Int(3));
    assert_eq!(e.eval("7 % 2").unwrap(), Value::Int(1));
}

#[test]
fn insertion_rejects_unparsable_text() {
    assert!(Eval::default().insert("x", "1 +").is_err());
    assert!(Eval::default().insert("x", "1 + 1").is_ok());
}

#[test]
fn removal_unbinds_a_name() {
    let e = Eval::default().insert("foo", "1").unwrap();
    assert_eq!(e.eval("foo").unwrap(), Value::Int(1));
    let e = e.remove("foo");
    assert_eq!(e.eval("foo"), None);
}

#[test]
fn evaluation_is_repeatable() {
    let e = Eval::default().insert("foo", "1 + 1").unwrap();
    let first = e.eval("foo * 21");
    let second = e.eval("foo * 21");
    assert_eq!(first, second);
    assert_eq!(first.unwrap(), Value::Int(42));
}

#[test]
fn rendering_is_canonical() {
    let e = Eval::default();
    assert_eq!(e.eval("[true,[1,2]]").unwrap().to_string(), "[true,[1,2,],]");
    assert_eq!(e.eval(r#""foo""#).unwrap().to_string(), "\"foo\"");
    assert_eq!(e.eval("-12..34").unwrap().to_string(), "-12..34");
    assert_eq!(e.eval("true").unwrap().to_string(), "true");
    assert_eq!(e.eval("1024").unwrap().to_string(), "1024");
}

#[test]
fn context_entries_resolve_transitively() {
    let e = Eval::default()
        .insert("a", "1")
        .unwrap()
        .insert("b", "a + 1")
        .unwrap()
        .insert("c", "b * 2")
        .unwrap();
    assert_eq!(e.eval("c").unwrap(), Value::Int(4));
    let cyclic = Eval::default().insert("x", "x + 1").unwrap();
    assert_eq!(cyclic.eval("x"), None);
}
