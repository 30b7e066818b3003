use space_shutdown::hass::attributes::{Attributes, Decimal, Value};
use space_shutdown::hass::state::State;

#[test]
fn create_state_with_attributes() {
    let attrs = Attributes::new()
        .set("foo", Value::Text("bar".to_string()))
        .set("baz", Value::Decimal(Decimal { mantissa: 10, scale: 1 }))
        .set("zes", Value::Bool(false));

    State::new("some_state", Some(attrs));
}

#[test]
fn state_keeps_name_and_attributes() {
    let attrs = Attributes::new().set("foo", Value::Integer(1));
    let state = State::new("some_state", Some(attrs));
    assert_eq!(state.name, "some_state");
    assert_eq!(state.attributes.unwrap().get("foo"), Some(&Value::Integer(1)));
    assert!(State::new("bare", None).attributes.is_none());
}
