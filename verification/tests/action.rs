use space_shutdown::action::{FanIn, ShutdownActions, ShutdownMessage, Thermostat};
use space_shutdown::mqtt::OpCode;
use space_shutdown::hass::attributes::Decimal;

#[test]
fn shutdown_message_keeps_topic_and_value() {
    let msg = ShutdownMessage::new("w17/kitchen/bear/set", "0");
    assert_eq!(msg.topic, "w17/kitchen/bear/set");
    assert_eq!(msg.value, "0");
    assert_eq!(msg.clone(), msg);
}

#[test]
fn thermostat_keeps_room_and_temperature() {
    let t = Thermostat::new("lounge_wandthermostat", Decimal { mantissa: 180, scale: 1 });
    assert_eq!(t.room, "lounge_wandthermostat");
    assert_eq!(t.temperature, Decimal { mantissa: 180, scale: 1 });
}

#[test]
fn fan_in_completes_only_when_every_action_has_resolved() {
    let mut fan_in = FanIn::new(3);
    assert_eq!(fan_in.len(), 3);
    assert!(!fan_in.is_complete());
    assert!(!fan_in.resolve(1, true));
    assert!(!fan_in.resolve(0, false));
    assert!(!fan_in.is_complete());
    assert!(fan_in.resolve(2, false));
    assert!(fan_in.is_complete());
    assert_eq!(fan_in.failures(), 2);
}

#[test]
fn fan_in_completes_when_every_action_fails() {
    let mut fan_in = FanIn::new(2);
    assert!(!fan_in.resolve(0, false));
    assert!(fan_in.resolve(1, false));
    assert_eq!(fan_in.failures(), 2);
}

#[test]
fn fan_in_counts_the_first_report_of_an_action() {
    let mut fan_in = FanIn::new(2);
    assert!(!fan_in.resolve(0, false));
    assert!(!fan_in.resolve(0, true));
    assert_eq!(fan_in.failures(), 1);
    assert!(!fan_in.is_complete());
    assert!(fan_in.resolve(1, true));
    assert_eq!(fan_in.failures(), 1);
}

#[test]
fn fan_in_ignores_an_action_that_was_never_dispatched() {
    let mut fan_in = FanIn::new(1);
    assert!(!fan_in.resolve(1, true));
    assert!(!fan_in.resolve(usize::MAX, false));
    assert_eq!(fan_in.failures(), 0);
    assert!(fan_in.resolve(0, true));
}

#[test]
fn fan_in_of_nothing_is_complete() {
    let fan_in = FanIn::new(0);
    assert!(fan_in.is_complete());
    assert_eq!(fan_in.failures(), 0);
    assert_eq!(fan_in.len(), 0);
}

#[test]
fn fan_in_waits_for_every_action_of_a_shutdown() {
    let actions = ShutdownActions {
        calls: vec![],
        publishes: vec![
            OpCode::Publish(("a".to_string(), "0".to_string())),
            OpCode::Publish(("b".to_string(), "0".to_string())),
            OpCode::Publish(("c".to_string(), "0".to_string())),
        ],
    };
    let mut fan_in = FanIn::for_actions(&actions);
    assert_eq!(fan_in.len(), 3);
    assert!(!fan_in.resolve(2, false));
    assert!(!fan_in.resolve(0, true));
    assert!(fan_in.resolve(1, false));
    assert_eq!(fan_in.failures(), 2);
}
