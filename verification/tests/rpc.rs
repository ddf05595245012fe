use irn::bus::{MessageBus, MessageBusEvent};
use irn::network::{Network, NetworkCommand};
use irn::primitives::{Message, Multihash, Pubkey, Subscription};
use irn::rpc::protocol::{parse_request, request_from_json, Request, RequestError};
use irn::rpc::service::{serve_frame, serve_info, Frame, Served};
use irn::rpc::{handle, RpcEvent};
use tokio::sync::mpsc::unbounded_channel;

fn topic() -> Multihash {
    Multihash::wrap(0x16, &[7u8; 32]).unwrap()
}

fn topic_text() -> String {
    bs58::encode(topic().to_bytes()).into_string()
}

fn publish_frame(message: &str) -> String {
    format!(
        "{{\"method\":\"irn_publish\",\"params\":{{\"topic\":\"{}\",\"message\":\"{}\"}}}}",
        topic_text(),
        message
    )
}

fn subscribe_frame() -> String {
    format!("{{\"method\":\"irn_subscribe\",\"params\":{{\"topic\":\"{}\"}}}}", topic_text())
}

fn missing(result: Result<Request, RequestError>, field: &str) -> bool {
    matches!(result, Err(RequestError::MissingField(f)) if f == field)
}

#[test]
fn frame_that_is_not_json_is_rejected() {
    assert!(matches!(parse_request("not json"), Err(RequestError::Deserialization(_))));
    assert!(matches!(parse_request(""), Err(RequestError::Deserialization(_))));
    assert!(matches!(parse_request("{\"method\":"), Err(RequestError::Deserialization(_))));
}

#[test]
fn frame_without_method_is_rejected() {
    assert!(missing(parse_request("{}"), "method"));
    assert!(missing(parse_request("{\"params\":{}}"), "method"));
    assert!(missing(parse_request("{\"method\":7}"), "method"));
    assert!(missing(parse_request("{\"method\":null}"), "method"));
    assert!(missing(parse_request("[\"irn_publish\"]"), "method"));
    assert!(missing(parse_request("\"irn_publish\""), "method"));
}

#[test]
fn frame_with_unknown_method_is_rejected() {
    assert!(matches!(
        parse_request("{\"method\":\"unknown\"}"),
        Err(RequestError::InvalidMethod(m)) if m == "unknown"
    ));
    assert!(matches!(
        parse_request("{\"method\":\"IRN_PUBLISH\",\"params\":{}}"),
        Err(RequestError::InvalidMethod(m)) if m == "IRN_PUBLISH"
    ));
    assert!(matches!(
        parse_request("{\"method\":\"\"}"),
        Err(RequestError::InvalidMethod(m)) if m.is_empty()
    ));
}

#[test]
fn publish_request_gives_a_message() {
    match parse_request(&publish_frame("hello")) {
        Ok(Request::Publish(m)) => {
            assert_eq!(m.topic(), &topic());
            assert_eq!(m.content(), &b"hello".to_vec());
        },
        other => panic!("{other:?}"),
    }
}

#[test]
fn publish_payload_is_the_utf8_of_the_text() {
    match parse_request(&publish_frame("h\\u00e9 \\n")) {
        Ok(Request::Publish(m)) => assert_eq!(m.content(), &vec![b'h', 0xc3, 0xa9, b' ', b'\n']),
        other => panic!("{other:?}"),
    }
    match parse_request(&publish_frame("")) {
        Ok(Request::Publish(m)) => assert!(m.content().is_empty()),
        other => panic!("{other:?}"),
    }
}

#[test]
fn publish_request_reports_what_is_missing() {
    assert!(missing(parse_request("{\"method\":\"irn_publish\"}"), "params"));
    let no_message = format!(
        "{{\"method\":\"irn_publish\",\"params\":{{\"topic\":\"{}\"}}}}",
        topic_text()
    );
    assert!(missing(parse_request(&no_message), "params.message"));
    assert!(missing(
        parse_request("{\"method\":\"irn_publish\",\"params\":{\"message\":\"m\"}}"),
        "params.topic"
    ));
    assert!(missing(
        parse_request("{\"method\":\"irn_publish\",\"params\":{}}"),
        "params.message"
    ));
    assert!(missing(
        parse_request("{\"method\":\"irn_publish\",\"params\":{\"topic\":\"0OIl\",\"message\":\"m\"}}"),
        "params.topic"
    ));
    assert!(missing(
        parse_request("{\"method\":\"irn_publish\",\"params\":{\"topic\":\"abc\",\"message\":\"m\"}}"),
        "params.topic"
    ));
    assert!(missing(
        parse_request("{\"method\":\"irn_publish\",\"params\":{\"topic\":5,\"message\":\"m\"}}"),
        "params.topic"
    ));
    assert!(missing(
        parse_request("{\"method\":\"irn_publish\",\"params\":{\"topic\":5,\"message\":6}}"),
        "params.message"
    ));
    assert!(missing(
        parse_request("{\"method\":\"irn_publish\",\"params\":\"text\"}"),
        "params.message"
    ));
}

#[test]
fn subscribe_request_gives_a_subscription() {
    assert!(matches!(
        parse_request(&subscribe_frame()),
        Ok(Request::Subscribe(s)) if s == Subscription::new(topic())
    ));
}

#[test]
fn subscribe_request_reports_what_is_wrong() {
    assert!(missing(parse_request("{\"method\":\"irn_subscribe\"}"), "params"));
    assert!(missing(parse_request("{\"method\":\"irn_subscribe\",\"params\":{}}"), "params"));
    assert!(missing(
        parse_request("{\"method\":\"irn_subscribe\",\"params\":{\"topic\":7}}"),
        "params"
    ));
    assert!(missing(
        parse_request("{\"method\":\"irn_subscribe\",\"params\":{\"topic\":\"0OIl\"}}"),
        "params"
    ));
    assert!(matches!(
        parse_request("{\"method\":\"irn_subscribe\",\"params\":{\"topic\":\"abc\"}}"),
        Err(RequestError::MultihashError(_))
    ));
}

#[test]
fn request_is_read_from_a_document_built_by_hand() {
    let mut params = serde_json::Map::new();
    params.insert("topic".to_string(), serde_json::Value::String(topic_text()));
    params.insert("message".to_string(), serde_json::Value::String("hi".to_string()));
    let mut document = serde_json::Map::new();
    document.insert("method".to_string(), serde_json::Value::String("irn_publish".to_string()));
    document.insert("params".to_string(), serde_json::Value::Object(params));
    match request_from_json(&serde_json::Value::Object(document)) {
        Ok(Request::Publish(m)) => assert_eq!(m.content(), &b"hi".to_vec()),
        other => panic!("{other:?}"),
    }
    assert!(missing(request_from_json(&serde_json::Value::Null), "method"));
}

#[test]
fn frames_that_are_no_text_are_ignored() {
    let served = serve_frame(&Frame::Other, 1);
    assert!(matches!(served, Served::Ignored));
    assert!(served.keeps_serving());
    assert!(served.into_event().is_none());
}

#[test]
fn malformed_frames_are_rejected_and_serving_goes_on() {
    for text in ["not json", "{}", "{\"method\":\"unknown\"}"] {
        let served = serve_frame(&Frame::Text(text.to_string()), 1);
        assert!(matches!(served, Served::Rejected(_)));
        assert!(served.keeps_serving());
        assert!(served.into_event().is_none());
    }
}

#[test]
fn publish_frame_emits_a_message_and_serving_goes_on() {
    let served = serve_frame(&Frame::Text(publish_frame("hello")), 1);
    assert!(served.keeps_serving());
    match served.into_event() {
        Some(RpcEvent::Message(m)) => assert_eq!(m.content(), &b"hello".to_vec()),
        other => panic!("{other:?}"),
    }
}

#[test]
fn subscribe_frame_hands_the_connection_over() {
    let served = serve_frame(&Frame::Text(subscribe_frame()), 42);
    assert!(!served.keeps_serving());
    assert!(matches!(
        served.into_event(),
        Some(RpcEvent::_Subscription(s, 42)) if s.topic == topic()
    ));
}

#[test]
fn info_names_version_and_identity() {
    let info = serve_info("1.2.3", &Pubkey([0u8; 32]));
    assert_eq!(info.version, "1.2.3");
    assert_eq!(info.identity, "1".repeat(32));
}

#[test]
fn published_message_is_gossiped() {
    let (tx, mut rx) = unbounded_channel();
    let mut network = Network::new(tx);
    let mut bus = MessageBus::new();
    let event = RpcEvent::Message(Message::new(topic(), b"hello".to_vec()));
    assert!(matches!(handle(event, &mut bus, &mut network), Ok(None)));
    assert!(matches!(
        rx.try_recv(),
        Ok(NetworkCommand::GossipMessage(m)) if m.content() == &b"hello".to_vec()
    ));
    assert!(bus.poll_next().is_none());
}

#[test]
fn subscription_is_registered_with_the_bus() {
    let (tx, mut rx) = unbounded_channel();
    let mut network = Network::new(tx);
    let mut bus = MessageBus::new();
    let first = RpcEvent::_Subscription(Subscription::new(topic()), 1);
    assert!(matches!(handle(first, &mut bus, &mut network), Ok(None)));
    let second = RpcEvent::_Subscription(Subscription::new(topic()), 2);
    assert!(matches!(handle(second, &mut bus, &mut network), Ok(Some(1))));
    assert!(rx.try_recv().is_err());
    assert!(matches!(bus.poll_next(), Some(MessageBusEvent::SubscriptionCreated(t)) if t == topic()));
    assert_eq!(bus._send_message(Message::new(topic(), vec![1])).unwrap().connection, 2);
}

#[test]
fn published_message_fails_once_the_network_is_closed() {
    let (tx, rx) = unbounded_channel();
    drop(rx);
    let mut network = Network::new(tx);
    let mut bus = MessageBus::new();
    let event = RpcEvent::Message(Message::new(topic(), b"hello".to_vec()));
    assert!(handle(event, &mut bus, &mut network).is_err());
}
