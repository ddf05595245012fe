use irn::bus::{drain, handle, MessageBus, MessageBusEvent, SendError};
use irn::network::{Network, NetworkCommand};
use irn::primitives::{Addressable, Message, Multihash};
use tokio::sync::mpsc::unbounded_channel;

fn topic(byte: u8) -> Multihash {
    Multihash::wrap(0x16, &[byte; 32]).unwrap()
}

fn refused() -> SendError {
    SendError::Serialization(serde_json::from_str::<serde_json::Value>("{").unwrap_err())
}

#[test]
fn new_bus_has_no_events_and_no_subscribers() {
    let mut bus = MessageBus::new();
    assert!(bus.poll_next().is_none());
    assert!(bus._send_message(Message::new(topic(1), vec![1])).is_none());
    assert!(bus.poll_next().is_none());
}

#[test]
fn message_goes_to_the_subscriber_of_its_topic() {
    let mut bus = MessageBus::new();
    assert_eq!(bus.create_subscription(topic(1), 7), None);
    let mut message = Message::new(topic(1), b"hello".to_vec());
    let hash = message.multihash();

    let delivery = bus._send_message(message).unwrap();
    assert_eq!(delivery.connection, 7);
    assert_eq!(delivery.message.topic(), &topic(1));
    assert_eq!(delivery.message.content(), &b"hello".to_vec());
    assert!(bus.settle(delivery, Ok(())).is_ok());

    assert!(matches!(bus.poll_next(), Some(MessageBusEvent::SubscriptionCreated(t)) if t == topic(1)));
    assert!(matches!(bus.poll_next(), Some(MessageBusEvent::_MessageDelivered(h)) if h == hash));
    assert!(bus.poll_next().is_none());
}

#[test]
fn message_without_subscriber_is_discarded_quietly() {
    let mut bus = MessageBus::new();
    assert_eq!(bus.create_subscription(topic(1), 7), None);
    assert!(bus._send_message(Message::new(topic(2), b"hello".to_vec())).is_none());
    assert!(matches!(bus.poll_next(), Some(MessageBusEvent::SubscriptionCreated(_))));
    assert!(bus.poll_next().is_none());
}

#[test]
fn second_subscription_replaces_the_first() {
    let mut bus = MessageBus::new();
    assert_eq!(bus.create_subscription(topic(1), 1), None);
    assert_eq!(bus.create_subscription(topic(1), 2), Some(1));
    for _ in 0..3 {
        let delivery = bus._send_message(Message::new(topic(1), vec![0])).unwrap();
        assert_eq!(delivery.connection, 2);
    }
    assert_eq!(bus.create_subscription(topic(2), 3), None);
    assert_eq!(bus._send_message(Message::new(topic(1), vec![0])).unwrap().connection, 2);
    assert_eq!(bus._send_message(Message::new(topic(2), vec![0])).unwrap().connection, 3);
}

#[test]
fn dropped_subscription_no_longer_receives() {
    let mut bus = MessageBus::new();
    bus.create_subscription(topic(1), 1);
    assert_eq!(bus._drop_subscription(topic(1)), Some(1));
    assert!(bus._send_message(Message::new(topic(1), vec![0])).is_none());
    assert_eq!(bus._drop_subscription(topic(1)), None);
    assert!(matches!(bus.poll_next(), Some(MessageBusEvent::SubscriptionCreated(_))));
    assert!(matches!(bus.poll_next(), Some(MessageBusEvent::_SubscriptionDropped(t)) if t == topic(1)));
    assert!(matches!(bus.poll_next(), Some(MessageBusEvent::_SubscriptionDropped(_))));
    assert!(bus.poll_next().is_none());
}

#[test]
fn failed_delivery_surfaces_the_error_and_emits_nothing() {
    let mut bus = MessageBus::new();
    bus.create_subscription(topic(1), 1);
    assert!(bus.poll_next().is_some());
    let delivery = bus._send_message(Message::new(topic(1), vec![0])).unwrap();
    assert!(matches!(bus.settle(delivery, Err(refused())), Err(SendError::Serialization(_))));
    assert!(bus.poll_next().is_none());
    assert_eq!(bus._send_message(Message::new(topic(1), vec![0])).unwrap().connection, 1);
}

#[test]
fn events_come_out_in_the_order_they_went_in() {
    let mut bus = MessageBus::new();
    for byte in 0..5u8 {
        bus.create_subscription(topic(byte), byte as u64);
    }
    for byte in 0..5u8 {
        assert!(matches!(bus.poll_next(), Some(MessageBusEvent::SubscriptionCreated(t)) if t == topic(byte)));
    }
    assert!(bus.poll_next().is_none());
}

#[test]
fn drop_message_leaves_the_bus_alone() {
    let mut bus = MessageBus::new();
    bus.create_subscription(topic(1), 1);
    bus.drop_message(&topic(9));
    assert!(matches!(bus.poll_next(), Some(MessageBusEvent::SubscriptionCreated(_))));
    assert!(bus.poll_next().is_none());
    assert_eq!(bus._send_message(Message::new(topic(1), vec![0])).unwrap().connection, 1);
}

#[test]
fn delivered_message_is_acknowledged_on_the_network() {
    let (tx, mut rx) = unbounded_channel();
    let mut network = Network::new(tx);
    assert!(handle(MessageBusEvent::_MessageDelivered(topic(4)), &mut network).is_ok());
    assert!(matches!(rx.try_recv(), Ok(NetworkCommand::GossipACK(h)) if h == topic(4)));
    assert!(rx.try_recv().is_err());
}

#[test]
fn created_subscription_is_announced_on_the_network() {
    let (tx, mut rx) = unbounded_channel();
    let mut network = Network::new(tx);
    assert!(handle(MessageBusEvent::SubscriptionCreated(topic(4)), &mut network).is_ok());
    assert!(matches!(rx.try_recv(), Ok(NetworkCommand::GossipSubscription(s)) if s.topic == topic(4)));
    assert!(rx.try_recv().is_err());
}

#[test]
fn dropped_subscription_is_not_gossiped() {
    let (tx, mut rx) = unbounded_channel();
    let mut network = Network::new(tx);
    assert!(handle(MessageBusEvent::_SubscriptionDropped(topic(4)), &mut network).is_ok());
    assert!(rx.try_recv().is_err());
}

#[test]
fn bus_event_fails_once_the_network_is_closed() {
    let (tx, rx) = unbounded_channel();
    drop(rx);
    let mut network = Network::new(tx);
    let result = handle(MessageBusEvent::_MessageDelivered(topic(4)), &mut network);
    assert!(matches!(result, Err(e) if matches!(&e.0, NetworkCommand::GossipACK(h) if *h == topic(4))));
    assert!(handle(MessageBusEvent::_SubscriptionDropped(topic(4)), &mut network).is_ok());
}

#[test]
fn websocket_failure_is_surfaced_as_it_came() {
    let mut bus = MessageBus::new();
    bus.create_subscription(topic(1), 1);
    let delivery = bus._send_message(Message::new(topic(1), vec![0])).unwrap();
    let gone = std::io::Error::new(std::io::ErrorKind::BrokenPipe, "gone");
    let outcome = Err(SendError::WebSocket(axum::Error::new(gone)));
    assert!(matches!(bus.settle(delivery, outcome), Err(SendError::WebSocket(_))));
}

#[test]
fn drain_routes_every_event_once_and_in_order() {
    let (tx, mut rx) = unbounded_channel();
    let mut network = Network::new(tx);
    let mut bus = MessageBus::new();
    bus.create_subscription(topic(1), 1);
    bus._drop_subscription(topic(1));
    bus.create_subscription(topic(2), 2);
    let mut message = Message::new(topic(2), b"hello".to_vec());
    let hash = message.multihash();
    let delivery = bus._send_message(message).unwrap();
    assert!(bus.settle(delivery, Ok(())).is_ok());

    assert!(drain(&mut bus, &mut network).is_ok());
    assert!(bus.poll_next().is_none());
    assert!(matches!(rx.try_recv(), Ok(NetworkCommand::GossipSubscription(s)) if s.topic == topic(1)));
    assert!(matches!(rx.try_recv(), Ok(NetworkCommand::GossipSubscription(s)) if s.topic == topic(2)));
    assert!(matches!(rx.try_recv(), Ok(NetworkCommand::GossipACK(h)) if h == hash));
    assert!(rx.try_recv().is_err());

    assert!(drain(&mut bus, &mut network).is_ok());
    assert!(rx.try_recv().is_err());
    assert_eq!(bus._send_message(Message::new(topic(2), vec![0])).unwrap().connection, 2);
}

#[test]
fn drain_stops_where_the_network_is_closed() {
    let (tx, rx) = unbounded_channel();
    drop(rx);
    let mut network = Network::new(tx);
    let mut bus = MessageBus::new();
    bus._drop_subscription(topic(1));
    bus.create_subscription(topic(2), 2);
    bus.create_subscription(topic(3), 3);
    let result = drain(&mut bus, &mut network);
    assert!(matches!(
        result,
        Err(e) if matches!(&e.0, NetworkCommand::GossipSubscription(s) if s.topic == topic(2))
    ));
    assert!(matches!(bus.poll_next(), Some(MessageBusEvent::SubscriptionCreated(t)) if t == topic(3)));
    assert!(bus.poll_next().is_none());
}
