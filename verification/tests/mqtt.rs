use futures::Stream;
use space_shutdown::mqtt::{
    BrokerRequest, MqttConnection, OpCode, QoS, Reconnect, BUS_BUFFER,
};

#[test]
fn op_code_clone_says_the_same() {
    let ops = vec![
        OpCode::MessageReceived(("a/b".to_string(), "1".to_string())),
        OpCode::Subscribe("a/b".to_string()),
        OpCode::Unsubscribe("a/b".to_string()),
        OpCode::Publish(("a/b".to_string(), "0".to_string())),
        OpCode::Shutdown,
        OpCode::ShutdownComplete,
    ];
    for op in ops {
        assert_eq!(op.clone(), op);
    }
}

#[test]
fn session_settings_are_fixed_but_for_the_broker() {
    let settings = MqttConnection::settings("mqtt.w17.io", 1883);
    assert_eq!(settings.client_id, "space-shutdown");
    assert_eq!(settings.broker, "mqtt.w17.io");
    assert_eq!(settings.port, 1883);
    assert_eq!(settings.keep_alive_secs, 10);
    assert_eq!(settings.reconnect, Reconnect::Always(5));
    assert!(!settings.clean_session);
}

#[test]
fn subscribe_goes_to_the_broker() {
    assert_eq!(
        MqttConnection::outbound(OpCode::Subscribe("w17/door".to_string())),
        BrokerRequest::Subscribe { topic: "w17/door".to_string(), qos: QoS::AtLeastOnce }
    );
}

#[test]
fn unsubscribe_goes_to_the_broker() {
    assert_eq!(
        MqttConnection::outbound(OpCode::Unsubscribe("w17/door".to_string())),
        BrokerRequest::Unsubscribe { topic: "w17/door".to_string() }
    );
}

#[test]
fn publish_goes_to_the_broker_as_bytes() {
    assert_eq!(
        MqttConnection::outbound(OpCode::Publish(("w17/amp/set".to_string(), "0".to_string()))),
        BrokerRequest::Publish {
            topic: "w17/amp/set".to_string(),
            qos: QoS::AtLeastOnce,
            retain: false,
            payload: vec![0x30],
        }
    );
    assert_eq!(
        MqttConnection::outbound(OpCode::Publish(("t".to_string(), "aus\u{fc}".to_string()))),
        BrokerRequest::Publish {
            topic: "t".to_string(),
            qos: QoS::AtLeastOnce,
            retain: false,
            payload: vec![0x61, 0x75, 0x73, 0xc3, 0xbc],
        }
    );
}

#[test]
fn other_messages_ask_nothing_of_the_broker() {
    for op in [
        OpCode::MessageReceived(("a".to_string(), "1".to_string())),
        OpCode::Shutdown,
        OpCode::ShutdownComplete,
    ] {
        assert_eq!(MqttConnection::outbound(op.clone()), BrokerRequest::Unimplemented(op));
    }
}

#[test]
fn publication_with_text_becomes_an_observation() {
    assert_eq!(
        MqttConnection::inbound("w17/door".to_string(), b"1"),
        Some(OpCode::MessageReceived(("w17/door".to_string(), "1".to_string())))
    );
    assert_eq!(
        MqttConnection::inbound("t".to_string(), &[0x61, 0x75, 0x73, 0xc3, 0xbc]),
        Some(OpCode::MessageReceived(("t".to_string(), "aus\u{fc}".to_string())))
    );
    assert_eq!(
        MqttConnection::inbound("t".to_string(), b""),
        Some(OpCode::MessageReceived(("t".to_string(), "".to_string())))
    );
}

#[test]
fn publication_that_is_no_text_is_dropped() {
    assert_eq!(MqttConnection::inbound("t".to_string(), &[0xff]), None);
    assert_eq!(MqttConnection::inbound("t".to_string(), &[0x61, 0xc3]), None);
    assert_eq!(MqttConnection::inbound("t".to_string(), &[0xed, 0xa0, 0x80]), None);
}

#[test]
fn bus_carries_messages_in_both_directions_in_order() {
    let ((mut tx, rx), connection) = MqttConnection::new();
    let (mut emitter, requests) = connection.into_parts();

    tx.try_send(OpCode::Subscribe("a".to_string())).unwrap();
    tx.try_send(OpCode::Publish(("a".to_string(), "0".to_string()))).unwrap();
    drop(tx);
    let taken: Vec<OpCode> = requests.wait().map(|op| op.unwrap()).collect();
    assert_eq!(
        taken,
        vec![
            OpCode::Subscribe("a".to_string()),
            OpCode::Publish(("a".to_string(), "0".to_string())),
        ]
    );

    emitter.try_send(OpCode::MessageReceived(("a".to_string(), "1".to_string()))).unwrap();
    drop(emitter);
    let seen: Vec<OpCode> = rx.wait().map(|op| op.unwrap()).collect();
    assert_eq!(seen, vec![OpCode::MessageReceived(("a".to_string(), "1".to_string()))]);
}

#[test]
fn bus_buffers_its_bound_and_then_refuses() {
    let ((mut tx, _rx), _connection) = MqttConnection::new();
    // One sender may fill the buffer and the slot of its own.
    for i in 0..BUS_BUFFER + 1 {
        assert!(tx.try_send(OpCode::Subscribe(format!("t/{}", i))).is_ok());
    }
    let refused = tx.try_send(OpCode::Shutdown).unwrap_err();
    assert!(refused.is_full());
    assert_eq!(refused.into_inner(), OpCode::Shutdown);
}

#[test]
fn bus_refuses_once_the_consumer_is_gone() {
    let ((mut tx, _rx), connection) = MqttConnection::new();
    drop(connection);
    let refused = tx.try_send(OpCode::Shutdown).unwrap_err();
    assert!(refused.is_disconnected());
    assert_eq!(refused.into_inner(), OpCode::Shutdown);
}
