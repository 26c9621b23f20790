use pubsub_relay::{
    asay_line_to_message, decode_asay_subscription, handle_access_subscription,
    handle_asay_subscription, handle_meta_subscription, handle_round_subscription,
    lookup_field, parse_destination_id, resolve_channels, rgb, AsaySubscription, ChannelConfig,
    ChannelDefinition, ChannelWorker, JsonValue, OutboundMessage, ResolveError,
    TerminationReason, TransformKind, WorkerAction, WorkerEvent, WorkerState,
};

fn from_serde(v: serde_json::Value) -> JsonValue {
    match v {
        serde_json::Value::Null => JsonValue::Null,
        serde_json::Value::Bool(b) => JsonValue::Bool(b),
        serde_json::Value::Number(n) => JsonValue::Number(n.as_u64()),
        serde_json::Value::String(s) => JsonValue::Str(s),
        serde_json::Value::Array(a) => JsonValue::Array(a.into_iter().map(from_serde).collect()),
        serde_json::Value::Object(m) => {
            JsonValue::Object(m.into_iter().map(|(k, x)| (k, from_serde(x))).collect())
        }
    }
}

fn parse(text: &str) -> Option<JsonValue> {
    serde_json::from_str::<serde_json::Value>(text).ok().map(from_serde)
}

fn definition(transform: TransformKind) -> ChannelDefinition {
    ChannelDefinition {
        subscription_topic: "asay".to_string(),
        output_destination: 42,
        transform,
    }
}

fn listening_worker(transform: TransformKind) -> ChannelWorker {
    let (mut worker, _) = ChannelWorker::start(definition(transform));
    assert_eq!(worker.step(WorkerEvent::Subscribed), WorkerAction::Poll);
    worker
}

const ACCENT: u32 = 0x7C440C;

#[test]
fn game_line_becomes_message() {
    let payload = parse(r#"{"source":"game","author":"Alice","message":"hello","rank":"admin"}"#);
    let m = handle_asay_subscription(&payload).expect("a message");
    assert_eq!(m.title, "Alice");
    assert_eq!(m.body, "hello");
    assert_eq!(m.footer.as_deref(), Some("admin@game"));
    assert_eq!(m.colour, ACCENT);
}

#[test]
fn discord_line_is_dropped() {
    let payload = parse(r#"{"source":"discord","author":"Bob","message":"hi","rank":"user"}"#);
    assert!(payload.is_some());
    assert_eq!(handle_asay_subscription(&payload), None);
}

#[test]
fn non_json_payload_keeps_worker_listening() {
    let payload = parse("not-json");
    assert!(payload.is_none());
    assert_eq!(handle_asay_subscription(&payload), None);
    let mut worker = listening_worker(TransformKind::Asay);
    assert_eq!(worker.step(WorkerEvent::Payload(payload)), WorkerAction::Poll);
    assert_eq!(worker.state(), WorkerState::Listening);
    let next = parse(r#"{"source":"game","author":"Alice","message":"again","rank":"admin"}"#);
    match worker.step(WorkerEvent::Payload(next)) {
        WorkerAction::Deliver(42, m) => assert_eq!(m.body, "again"),
        other => panic!("unexpected action {:?}", other),
    }
}

#[test]
fn optional_members_take_defaults() {
    let j = parse(r#"{"source":"game","author":"A","message":"m","rank":"r"}"#).unwrap();
    let line = decode_asay_subscription(&j).expect("a chat line");
    assert_eq!(line.round_id, "");
    assert_eq!(line.admin, 0);
    let j = parse(
        r#"{"source":"game","round_id":"17","author":"A","message":"m","admin":1,"rank":"r","extra":true}"#,
    )
    .unwrap();
    let line = decode_asay_subscription(&j).expect("a chat line");
    assert_eq!(line.round_id, "17");
    assert_eq!(line.admin, 1);
}

#[test]
fn schema_violations_yield_nothing() {
    let cases = [
        r#"{"author":"A","message":"m","rank":"r"}"#,
        r#"{"source":"game","message":"m","rank":"r"}"#,
        r#"{"source":"game","author":"A","rank":"r"}"#,
        r#"{"source":"game","author":"A","message":"m"}"#,
        r#"{"source":1,"author":"A","message":"m","rank":"r"}"#,
        r#"{"source":"game","author":"A","message":"m","rank":"r","admin":256}"#,
        r#"{"source":"game","author":"A","message":"m","rank":"r","admin":-1}"#,
        r#"{"source":"game","author":"A","message":"m","rank":"r","admin":"1"}"#,
        r#"{"source":"game","author":"A","message":"m","rank":"r","round_id":null}"#,
        r#"["game","A","m","r"]"#,
        r#""text""#,
    ];
    for text in cases {
        let payload = parse(text);
        assert!(payload.is_some(), "{}", text);
        assert_eq!(handle_asay_subscription(&payload), None, "{}", text);
    }
}

#[test]
fn admin_at_upper_bound_is_accepted() {
    let j = parse(r#"{"source":"game","author":"A","message":"m","rank":"r","admin":255}"#).unwrap();
    assert_eq!(decode_asay_subscription(&j).unwrap().admin, 255);
}

#[test]
fn line_to_message_builds_footer() {
    let line = AsaySubscription {
        source: "server".to_string(),
        round_id: String::new(),
        author: "Carol".to_string(),
        message: "text".to_string(),
        admin: 0,
        rank: "mod".to_string(),
    };
    let expected = OutboundMessage {
        title: "Carol".to_string(),
        body: "text".to_string(),
        footer: Some("mod@server".to_string()),
        colour: ACCENT,
    };
    assert_eq!(asay_line_to_message(line), Some(expected));
}

#[test]
fn unimplemented_transforms_are_silent() {
    let payload = parse(r#"{"source":"game","author":"Alice","message":"hello","rank":"admin"}"#);
    assert_eq!(handle_access_subscription(&payload), None);
    assert_eq!(handle_round_subscription(&payload), None);
    assert_eq!(handle_meta_subscription(&payload), None);
    assert_eq!(handle_meta_subscription(&None), None);
    assert_eq!(TransformKind::Access.apply(&payload), None);
    assert!(TransformKind::Asay.apply(&payload).is_some());
}

#[test]
fn colour_packing() {
    assert_eq!(rgb(124, 68, 12), ACCENT);
    assert_eq!(rgb(255, 255, 255), 0xFFFFFF);
    assert_eq!(rgb(0, 0, 1), 1);
}

#[test]
fn field_lookup_finds_first() {
    let members = vec![
        ("a".to_string(), JsonValue::Null),
        ("b".to_string(), JsonValue::Bool(true)),
        ("b".to_string(), JsonValue::Null),
    ];
    assert_eq!(lookup_field(&members, "b"), Some(1));
    assert_eq!(lookup_field(&members, "c"), None);
    assert_eq!(lookup_field(&Vec::new(), "a"), None);
}

#[test]
fn destination_ids() {
    assert_eq!(parse_destination_id("1234567890"), Some(1234567890));
    assert_eq!(parse_destination_id("+7"), Some(7));
    assert_eq!(parse_destination_id("18446744073709551615"), Some(u64::MAX));
    assert_eq!(parse_destination_id("18446744073709551616"), None);
    assert_eq!(parse_destination_id("0"), None);
    assert_eq!(parse_destination_id(""), None);
    assert_eq!(parse_destination_id("+"), None);
    assert_eq!(parse_destination_id("-5"), None);
    assert_eq!(parse_destination_id(" 5"), None);
    assert_eq!(parse_destination_id("12a"), None);
}

#[test]
fn resolve_reports_each_error() {
    let ok = ChannelDefinition::resolve(Some("t".to_string()), Some("9".to_string()), TransformKind::Round);
    assert_eq!(
        ok,
        Ok(ChannelDefinition {
            subscription_topic: "t".to_string(),
            output_destination: 9,
            transform: TransformKind::Round
        })
    );
    assert_eq!(
        ChannelDefinition::resolve(None, Some("9".to_string()), TransformKind::Asay),
        Err(ResolveError::MissingTopic)
    );
    assert_eq!(
        ChannelDefinition::resolve(Some("t".to_string()), None, TransformKind::Asay),
        Err(ResolveError::MissingDestination)
    );
    assert_eq!(
        ChannelDefinition::resolve(Some("t".to_string()), Some("abc".to_string()), TransformKind::Asay),
        Err(ResolveError::MalformedDestination)
    );
}

#[test]
fn unresolvable_channels_are_skipped() {
    let configs = vec![
        ChannelConfig { topic: Some("a".to_string()), destination: Some("1".to_string()), transform: TransformKind::Asay },
        ChannelConfig { topic: None, destination: Some("2".to_string()), transform: TransformKind::Access },
        ChannelConfig { topic: Some("c".to_string()), destination: Some("x".to_string()), transform: TransformKind::Round },
        ChannelConfig { topic: Some("d".to_string()), destination: Some("4".to_string()), transform: TransformKind::Meta },
    ];
    let (channels, skipped) = resolve_channels(&configs);
    assert_eq!(channels.len(), 2);
    assert_eq!(channels[0].subscription_topic, "a");
    assert_eq!(channels[1].output_destination, 4);
    assert_eq!(channels[1].transform, TransformKind::Meta);
    assert_eq!(skipped, vec![(1, ResolveError::MissingTopic), (2, ResolveError::MalformedDestination)]);
}

#[test]
fn worker_setup_failures_terminate() {
    let (mut w, first) = ChannelWorker::start(definition(TransformKind::Asay));
    assert_eq!(first, WorkerAction::Subscribe("asay".to_string()));
    assert_eq!(w.state(), WorkerState::Starting);
    assert_eq!(w.step(WorkerEvent::ConnectFailed), WorkerAction::Stop);
    assert_eq!(w.state(), WorkerState::Terminated(TerminationReason::ConnectionUnavailable));
    assert!(w.is_terminated());

    let (mut w, _) = ChannelWorker::start(definition(TransformKind::Asay));
    assert_eq!(w.step(WorkerEvent::SubscribeFailed), WorkerAction::Stop);
    assert_eq!(w.state(), WorkerState::Terminated(TerminationReason::SubscribeFailed));
    assert_eq!(w.step(WorkerEvent::Subscribed), WorkerAction::Stop);
}

#[test]
fn worker_ignores_stray_events_while_starting() {
    let (mut w, _) = ChannelWorker::start(definition(TransformKind::Asay));
    assert_eq!(w.step(WorkerEvent::NoItem), WorkerAction::Idle);
    assert_eq!(w.state(), WorkerState::Starting);
    assert_eq!(w.step(WorkerEvent::Subscribed), WorkerAction::Poll);
    assert_eq!(w.state(), WorkerState::Subscribed);
    assert_eq!(w.step(WorkerEvent::Subscribed), WorkerAction::Idle);
}

#[test]
fn delivery_failure_does_not_stop_worker() {
    let mut w = listening_worker(TransformKind::Asay);
    let first = parse(r#"{"source":"game","author":"A","message":"one","rank":"r"}"#);
    assert!(matches!(w.step(WorkerEvent::Payload(first)), WorkerAction::Deliver(42, _)));
    assert_eq!(w.step(WorkerEvent::DeliveryFailed), WorkerAction::Poll);
    assert_eq!(w.state(), WorkerState::Listening);
    let second = parse(r#"{"source":"game","author":"A","message":"two","rank":"r"}"#);
    match w.step(WorkerEvent::Payload(second)) {
        WorkerAction::Deliver(42, m) => assert_eq!(m.body, "two"),
        other => panic!("unexpected action {:?}", other),
    }
    assert_eq!(w.step(WorkerEvent::Delivered), WorkerAction::Poll);
}

#[test]
fn empty_polls_and_extraction_failures_continue() {
    let mut w = listening_worker(TransformKind::Access);
    assert_eq!(w.step(WorkerEvent::NoItem), WorkerAction::Poll);
    assert_eq!(w.step(WorkerEvent::ExtractFailed), WorkerAction::Poll);
    let p = parse(r#"{"source":"game","author":"A","message":"m","rank":"r"}"#);
    assert_eq!(w.step(WorkerEvent::Payload(p)), WorkerAction::Poll);
    assert_eq!(w.state(), WorkerState::Listening);
    assert_eq!(w.step(WorkerEvent::StreamClosed), WorkerAction::Stop);
    assert_eq!(w.state(), WorkerState::Terminated(TerminationReason::StreamClosed));
    assert_eq!(w.step(WorkerEvent::NoItem), WorkerAction::Stop);
}

#[test]
fn workers_progress_independently() {
    let (mut a, _) = ChannelWorker::start(definition(TransformKind::Asay));
    let (mut b, _) = ChannelWorker::start(ChannelDefinition {
        subscription_topic: "round".to_string(),
        output_destination: 7,
        transform: TransformKind::Round,
    });
    assert_eq!(b.step(WorkerEvent::SubscribeFailed), WorkerAction::Stop);
    assert_eq!(a.step(WorkerEvent::Subscribed), WorkerAction::Poll);
    let p = parse(r#"{"source":"game","author":"A","message":"m","rank":"r"}"#);
    assert!(matches!(a.step(WorkerEvent::Payload(p)), WorkerAction::Deliver(42, _)));
    assert!(b.is_terminated());
    assert_eq!(a.state(), WorkerState::Listening);
}
