use glimesh::protocol::{
    Event, HandleMessageError, IncomingMessage, ReceiveEvent, SessionResult, SocketSession,
};

const JOIN_REF: u128 = 1;

fn uuid(v: u128) -> String {
    uuid::Uuid::from_u128(v).to_string()
}

fn json_error() -> serde_json::Error {
    serde_json::from_str::<serde_json::Value>("{").unwrap_err()
}

fn reply_to(msg_ref: u128, subscription_id: Option<&str>) -> IncomingMessage {
    IncomingMessage {
        msg_ref: Some(msg_ref),
        event: ReceiveEvent::PhxReply,
        reply: match subscription_id {
            Some(id) => Ok(id.to_string()),
            None => Err(json_error()),
        },
        data: Err(json_error()),
    }
}

fn data_for(subscription_id: &str, result: serde_json::Value) -> IncomingMessage {
    IncomingMessage {
        msg_ref: None,
        event: ReceiveEvent::SubscriptionData,
        reply: Err(json_error()),
        data: Ok((subscription_id.to_string(), result)),
    }
}

fn messages(results: &[SessionResult]) -> Vec<String> {
    results
        .iter()
        .map(|r| match r {
            SessionResult::Message(m) => m.clone(),
            other => panic!("expected a message, got {:?}", other),
        })
        .collect()
}

fn frame(msg_ref: u128, topic: &str, event: &str, payload: &str) -> String {
    format!(
        "[\"{}\",\"{}\",\"{}\",\"{}\",{}]",
        uuid(JOIN_REF),
        uuid(msg_ref),
        topic,
        event,
        payload
    )
}

#[test]
fn join_frame_text() {
    let mut s = SocketSession::with_join_ref(JOIN_REF);
    let out = s.join_with_ref(2);
    assert_eq!(
        messages(&out),
        vec![
            "[\"00000000-0000-0000-0000-000000000001\",\"00000000-0000-0000-0000-000000000002\",\"__absinthe__:control\",\"phx_join\",null]"
                .to_string()
        ]
    );
}

#[test]
fn frames_match_serde_json_serialization() {
    let mut s = SocketSession::with_join_ref(0xdead_beef_0000_1111_2222_3333_4444_5555);
    let out = s.join_with_ref(u128::MAX);
    let expected = serde_json::to_string(&(
        uuid::Uuid::from_u128(0xdead_beef_0000_1111_2222_3333_4444_5555),
        uuid::Uuid::from_u128(u128::MAX),
        "__absinthe__:control",
        "phx_join",
        (),
    ))
    .unwrap();
    assert_eq!(messages(&out), vec![expected]);
}

#[test]
fn requests_before_join_are_held_back_then_sent_in_order() {
    let mut s = SocketSession::with_join_ref(JOIN_REF);
    assert!(s.ping_with_ref(10).is_empty());
    assert!(s.subscribe_with_ref(7, "{\"query\":\"q\"}", 11).is_empty());
    let join = s.join_with_ref(12);
    assert_eq!(messages(&join).len(), 1);
    let released = s.handle_incoming(reply_to(12, None)).unwrap();
    assert_eq!(released.len(), 3);
    assert!(matches!(released[0], SessionResult::Event(Event::Joined)));
    assert_eq!(
        messages(&released[1..]),
        vec![
            frame(10, "phoenix", "heartbeat", "null"),
            frame(11, "__absinthe__:control", "doc", "{\"query\":\"q\"}"),
        ]
    );
    // Once joined, requests go out at once.
    let ping = s.ping_with_ref(13);
    assert_eq!(messages(&ping), vec![frame(13, "phoenix", "heartbeat", "null")]);
    // The held-back ping is now in flight and is answered with a pong.
    let pong = s.handle_incoming(reply_to(10, None)).unwrap();
    assert_eq!(pong.len(), 1);
    assert!(matches!(pong[0], SessionResult::Event(Event::Pong)));
}

#[test]
fn subscription_delivers_then_unsubscribe_stops_it() {
    let mut s = SocketSession::with_join_ref(JOIN_REF);
    s.join_with_ref(2);
    s.handle_incoming(reply_to(2, None)).unwrap();
    let sub = s.subscribe_with_ref(42, "{}", 3);
    assert_eq!(messages(&sub), vec![frame(3, "__absinthe__:control", "doc", "{}")]);
    assert!(s.handle_incoming(reply_to(3, Some("sub-1"))).unwrap().is_empty());

    let doc = s
        .handle_incoming(data_for("sub-1", serde_json::from_str("{\"n\":1}").unwrap()))
        .unwrap();
    assert_eq!(doc.len(), 1);
    match &doc[0] {
        SessionResult::Event(Event::Document(reference, value)) => {
            assert_eq!(*reference, 42);
            assert_eq!(value["n"], 1);
        }
        other => panic!("unexpected {:?}", other),
    }

    let unsub = s.unsubscribe_with_ref(42, 4);
    assert_eq!(
        messages(&unsub),
        vec![frame(4, "__absinthe__:control", "unsubscribe", "{\"subscriptionId\":\"sub-1\"}")]
    );
    assert!(s
        .handle_incoming(data_for("sub-1", serde_json::Value::Null))
        .unwrap()
        .is_empty());
    // A second unsubscribe finds nothing to end.
    assert!(s.unsubscribe_with_ref(42, 5).is_empty());
}

#[test]
fn unsubscribe_payload_escapes_the_id() {
    let mut s = SocketSession::with_join_ref(JOIN_REF);
    s.join_with_ref(2);
    s.handle_incoming(reply_to(2, None)).unwrap();
    s.subscribe_with_ref(9, "{}", 3);
    s.handle_incoming(reply_to(3, Some("a\"b\\c\n\u{1}é"))).unwrap();
    let unsub = s.unsubscribe_with_ref(9, 4);
    let expected_payload = format!(
        "{{\"subscriptionId\":{}}}",
        serde_json::to_string("a\"b\\c\n\u{1}é").unwrap()
    );
    assert_eq!(
        messages(&unsub),
        vec![frame(4, "__absinthe__:control", "unsubscribe", &expected_payload)]
    );
    assert_eq!(expected_payload, "{\"subscriptionId\":\"a\\\"b\\\\c\\n\\u0001é\"}");
}

#[test]
fn malformed_subscription_reply_is_an_error_and_ends_the_request() {
    let mut s = SocketSession::with_join_ref(JOIN_REF);
    s.join_with_ref(2);
    s.handle_incoming(reply_to(2, None)).unwrap();
    s.subscribe_with_ref(5, "{}", 3);
    let err = s.handle_incoming(reply_to(3, None));
    assert!(matches!(err, Err(HandleMessageError::DeserializeError { .. })));
    // The request is no longer in flight: a later good reply is ignored.
    assert!(s.handle_incoming(reply_to(3, Some("late"))).unwrap().is_empty());
    assert!(s
        .handle_incoming(data_for("late", serde_json::Value::Null))
        .unwrap()
        .is_empty());
}

#[test]
fn malformed_subscription_data_is_an_error() {
    let mut s = SocketSession::with_join_ref(JOIN_REF);
    let msg = IncomingMessage {
        msg_ref: None,
        event: ReceiveEvent::SubscriptionData,
        reply: Err(json_error()),
        data: Err(json_error()),
    };
    assert!(matches!(
        s.handle_incoming(msg),
        Err(HandleMessageError::DeserializeError { .. })
    ));
}

#[test]
fn unmatched_and_error_messages_yield_nothing() {
    let mut s = SocketSession::with_join_ref(JOIN_REF);
    assert!(s.handle_incoming(reply_to(99, Some("x"))).unwrap().is_empty());
    let no_ref = IncomingMessage {
        msg_ref: None,
        event: ReceiveEvent::PhxReply,
        reply: Err(json_error()),
        data: Err(json_error()),
    };
    assert!(s.handle_incoming(no_ref).unwrap().is_empty());
    let phx_error = IncomingMessage {
        msg_ref: Some(1),
        event: ReceiveEvent::PhxError,
        reply: Err(json_error()),
        data: Err(json_error()),
    };
    assert!(s.handle_incoming(phx_error).unwrap().is_empty());
    assert!(s
        .handle_incoming(data_for("nobody", serde_json::Value::Null))
        .unwrap()
        .is_empty());
    // Still not joined: a ping is held back.
    assert!(s.ping_with_ref(3).is_empty());
}

#[test]
fn resubscribing_a_reference_replaces_its_id() {
    let mut s = SocketSession::with_join_ref(JOIN_REF);
    s.join_with_ref(2);
    s.handle_incoming(reply_to(2, None)).unwrap();
    s.subscribe_with_ref(1, "{}", 3);
    s.handle_incoming(reply_to(3, Some("old"))).unwrap();
    s.subscribe_with_ref(1, "{}", 4);
    s.handle_incoming(reply_to(4, Some("new"))).unwrap();
    assert!(s
        .handle_incoming(data_for("old", serde_json::Value::Null))
        .unwrap()
        .is_empty());
    assert_eq!(
        s.handle_incoming(data_for("new", serde_json::Value::Null))
            .unwrap()
            .len(),
        1
    );
}

#[test]
fn random_references_are_used_by_the_plain_methods() {
    let mut s = SocketSession::new();
    let join = s.join();
    assert_eq!(messages(&join).len(), 1);
    let text = &messages(&join)[0];
    assert!(text.starts_with("[\""));
    assert!(text.ends_with(",\"__absinthe__:control\",\"phx_join\",null]"));
    assert!(s.ping().is_empty());
    assert!(s.subscribe(3, "{}").is_empty());
    assert!(s.unsubscribe(3).is_empty());
    let mut d = SocketSession::default();
    assert_eq!(messages(&d.join()).len(), 1);
    let from: SessionResult = Event::Pong.into();
    assert!(matches!(from, SessionResult::Event(Event::Pong)));
}
