use v_eval::{Eval, Operator, Value};

#[test]
fn test() -> Result<(), ()> {
    let e = Eval::default()
        .insert("foo", "true")?
        .insert("fon", "1")?
        .insert("s", r#""foo""#)?
        .insert("arr", "[1, 2]")?
        .insert("bar", "false")?;

    assert_eq!(e.eval("foo != bar").unwrap(), Value::Bool(true));
    assert_eq!(
        e.eval("true && foo != bar && true").unwrap(),
        Value::Bool(true)
    );
    assert_eq!(e.eval("1 == 1 != bar").unwrap(), Value::Bool(true));
    assert_eq!(e.eval("1 == 1 + 1 == bar").unwrap(), Value::Bool(true));
    assert_eq!(e.eval("0..1").unwrap(), Value::Range(0, 1));
    assert_eq!(e.eval("(0..1) == (0..1)").unwrap(), Value::Bool(true));
    assert_eq!(e.eval("0..2 * (1 + 1)").unwrap(), Value::Range(0, 4));
    assert_eq!(
        e.eval("fon + 1..fon + 2 * (1 + 1)").unwrap(),
        Value::Range(2, 5)
    );
    assert_eq!(
        e.eval("fon + 1..fon + 2 * (1 + 1)").unwrap(),
        Value::Range(2, 5)
    );
    assert_eq!(e.eval(r#""foo" == s"#).unwrap(), Value::Bool(true));
    assert_eq!(e.eval(r#""bar" != s"#).unwrap(), Value::Bool(true));
    assert_eq!(e.eval("s").unwrap(), Value::Str("foo".into()));
    assert_eq!(
        e.eval("[foo, true]").unwrap(),
        Value::List(vec![Value::Bool(true), Value::Bool(true)])
    );
    assert_eq!(
        e.eval("[foo, 1]").unwrap(),
        Value::List(vec![Value::Bool(true), Value::Int(1)])
    );
    assert_eq!(
        e.eval("[foo, [1, 2]]").unwrap(),
        Value::List(vec![
            Value::Bool(true),
            Value::List(vec![Value::Int(1), Value::Int(2)])
        ])
    );
    assert_eq!(
        e.eval(r#""foo" * 2 * 2"#).unwrap(),
        Value::Str("foofoofoofoo".into())
    );
    assert_eq!(
        e.eval(r#""foo" * (2 * 2 - 1 + 1)"#).unwrap(),
        Value::Str("foofoofoofoo".into())
    );
    assert_eq!(
        e.eval(r#"("foo" + "bar") * 2"#).unwrap(),
        Value::Str("foobarfoobar".into())
    );
    assert_eq!(
        e.eval(r#"("bar" + s * 2) * 2"#).unwrap(),
        Value::Str("barfoofoobarfoofoo".into())
    );

    assert_eq!(e.eval("[foo, 1][1]").unwrap(), Value::Int(1));
    assert_eq!(e.eval("&[0, 1][1]").unwrap(), Value::Int(1));

    assert_eq!(e.eval("arr[1]").unwrap(), Value::Int(2));

    assert_eq!(e.eval("arr[1] + 1").unwrap(), Value::Int(3));

    assert_eq!(e.eval("2 * arr[1] + 1").unwrap(), Value::Int(5));

    assert!(e.eval("arr[2]").is_none());
    assert!(e.eval("[foo, 1][2]").is_none());

    assert_eq!(e.eval(r#""bar"[0..1]"#).unwrap(), Value::Str("b".into()));

    assert_eq!(
        e.eval(r#"("bar" * 2)[3..4]"#).unwrap(),
        Value::Str("b".into())
    );

    assert_eq!(
        e.eval("[foo, [1, 2]]").unwrap().to_string(),
        "[true,[1,2,],]"
    );

    assert_eq!(e.eval(r#""foo""#).unwrap().to_string(), r#""foo""#,);
    assert_eq!(e.eval("0..1").unwrap().to_string(), "0..1");

    assert_eq!(e.eval("1.log10()").unwrap(), Value::Float(1.0f64.log10().to_bits()));

    assert_eq!(
        e.eval("1.log10() + 2.0").unwrap(),
        Value::Float((1.0f64.log10() + 2.0).to_bits())
    );

    assert_eq!(e.eval("&[true, not_exist]"), None);
    assert_eq!(e.eval("&[true, None]"), None);
    assert_eq!(e.eval("&[\"foo\", None, None]"), None);
    assert_eq!(e.eval("not_exist"), None);
    assert_eq!(e.eval(r#"&[ "foo", self.s]"#), None);

    Ok(())
}

#[test]
fn test_opt() {
    let e = Eval::default();
    assert_eq!(
        e.eval("Some(1.log10()).unwrap()").unwrap(),
        Value::Float(1.0f64.log10().to_bits())
    );
    assert_eq!(
        e.eval("None.unwrap_or(1.log10())"),
        Some(Value::Float(1.0f64.log10().to_bits()))
    );
}

#[test]
fn test_op_preference() {
    assert!(!Operator::Add.gt_preference(Operator::Sub) && Operator::Sub != Operator::Add);
    assert!(!Operator::Not.gt_preference(Operator::Not));
    assert!(!Operator::Add.gt_preference(Operator::Not));
    assert!(Operator::Not.gt_preference(Operator::Add));
}
