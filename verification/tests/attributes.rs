use space_shutdown::hass::attributes::{Attributes, Decimal, Value};

#[test]
fn test_attribute() {
    Attributes::new().set("foo", Value::Integer(1)).set("baz", Value::Text("foo".to_string()));
}

#[test]
fn new_attributes_are_empty() {
    let a = Attributes::new();
    assert_eq!(a.len(), 0);
    assert_eq!(a.get("foo"), None);
    assert!(a.into_entries().is_empty());
}

#[test]
fn set_then_get() {
    let a = Attributes::new()
        .set("foo", Value::Integer(1))
        .set("baz", Value::Text("foo".to_string()))
        .set("zes", Value::Bool(false))
        .set("t", Value::Decimal(Decimal { mantissa: 215, scale: 1 }))
        .set("n", Value::Null);
    assert_eq!(a.len(), 5);
    assert_eq!(a.get("n"), Some(&Value::Null));
    assert_eq!(a.get("foo"), Some(&Value::Integer(1)));
    assert_eq!(a.get("baz"), Some(&Value::Text("foo".to_string())));
    assert_eq!(a.get("zes"), Some(&Value::Bool(false)));
    assert_eq!(a.get("t"), Some(&Value::Decimal(Decimal { mantissa: 215, scale: 1 })));
    assert_eq!(a.get("fo"), None);
}

#[test]
fn set_replaces_what_was_there() {
    let a = Attributes::new()
        .set("foo", Value::Integer(1))
        .set("bar", Value::Integer(2))
        .set("foo", Value::Bool(true));
    assert_eq!(a.len(), 2);
    assert_eq!(a.get("foo"), Some(&Value::Bool(true)));
    assert_eq!(a.get("bar"), Some(&Value::Integer(2)));
    let entries = a.into_entries();
    assert_eq!(entries.len(), 2);
    assert_eq!(entries.iter().filter(|e| e.0 == "foo").count(), 1);
}

#[test]
fn value_clone_says_the_same() {
    for v in [
        Value::Null,
        Value::Bool(true),
        Value::Integer(-7),
        Value::Decimal(Decimal { mantissa: 180, scale: 1 }),
        Value::Text("x".to_string()),
    ] {
        assert_eq!(v.clone(), v);
    }
}
