//! The message bus: routes messages that arrive from the network to the
//! connections that subscribed locally, and reports what happened as events.

use crate::network::{Network, NetworkClosed, NetworkCommandView};
use crate::primitives::{
    Addressable, Message, MessageView, Multihash, MultihashView, Subscription,
};
use crossbeam::queue::SegQueue;
use dashmap::DashMap;
use vstd::prelude::*;

verus! {

/// What the bus reports to the rest of the node.
#[derive(Debug)]
pub enum MessageBusEvent {
    /// A message reached a local subscriber; carries the message's content address.
    _MessageDelivered(Multihash),
    /// A subscription on the topic was registered.
    SubscriptionCreated(Multihash),
    /// The subscription on the topic was removed.
    _SubscriptionDropped(Multihash),
}

/// Mathematical value of a bus event.
pub enum BusEventView {
    MessageDelivered(MultihashView),
    SubscriptionCreated(MultihashView),
    SubscriptionDropped(MultihashView),
}

impl View for MessageBusEvent {
    type V = BusEventView;

    open spec fn view(&self) -> BusEventView {
        match self {
            MessageBusEvent::_MessageDelivered(h) => BusEventView::MessageDelivered(h@),
            MessageBusEvent::SubscriptionCreated(t) => BusEventView::SubscriptionCreated(t@),
            MessageBusEvent::_SubscriptionDropped(t) => BusEventView::SubscriptionDropped(t@),
        }
    }
}

#[verifier::external_type_specification]
#[verifier::external_body]
pub struct ExAxumError(axum::Error);

/// Why a message could not be handed to a subscriber's connection.
#[derive(Debug)]
pub enum SendError {
    /// The message could not be put into the connection's wire format.
    Serialization(serde_json::Error),
    /// The connection refused the frame.
    WebSocket(axum::Error),
}

#[verifier::external_type_specification]
#[verifier::external_body]
#[verifier::reject_recursive_types(K)]
#[verifier::reject_recursive_types(V)]
#[verifier::reject_recursive_types(S)]
pub struct ExDashMap<K, V, S>(DashMap<K, V, S>);

#[verifier::external_type_specification]
#[verifier::external_body]
#[verifier::reject_recursive_types(T)]
pub struct ExSegQueue<T>(SegQueue<T>);

/// The key of a routing entry: the code and the digest of the topic.
pub type TopicKey = (u64, Vec<u8>);

/// The routing entries that a table holds: the connection of each topic.
pub uninterp spec fn routing_entries(table: DashMap<TopicKey, u64>) -> Map<
    MultihashView,
    u64,
>;

/// The events that a queue holds, oldest first.
pub uninterp spec fn queued_events(queue: SegQueue<MessageBusEvent>) -> Seq<BusEventView>;

/// `dashmap::DashMap::new`: a table without entries.
#[verifier::external_body]
fn table_new() -> (table: DashMap<TopicKey, u64>)
    ensures
        routing_entries(table) == BusView::empty().topics,
{
    DashMap::new()
}

/// `dashmap::DashMap::insert`: binds the topic of the given code and digest to
/// the connection, in place of the connection that it had, which is returned.
#[verifier::external_body]
fn table_insert(
    table: &mut DashMap<TopicKey, u64>,
    code: u64,
    digest: &Vec<u8>,
    connection: u64,
) -> (replaced: Option<u64>)
    ensures
        routing_entries(*final(table)) == routing_entries(*old(table)).insert(
            topic_of(code, digest@),
            connection,
        ),
        replaced == lookup(routing_entries(*old(table)), topic_of(code, digest@)),
{
    table.insert((code, digest.clone()), connection)
}

/// `dashmap::DashMap::remove`: takes the entry of the topic of the given code
/// and digest out, and returns the connection that it had.
#[verifier::external_body]
fn table_remove(table: &mut DashMap<TopicKey, u64>, code: u64, digest: &Vec<u8>) -> (removed:
    Option<u64>)
    ensures
        routing_entries(*final(table)) == routing_entries(*old(table)).remove(
            topic_of(code, digest@),
        ),
        removed == lookup(routing_entries(*old(table)), topic_of(code, digest@)),
{
    table.remove(&(code, digest.clone())).map(|entry| entry.1)
}

/// `dashmap::DashMap::get`: the connection that the topic of the given code and
/// digest is bound to.
#[verifier::external_body]
fn table_get(table: &DashMap<TopicKey, u64>, code: u64, digest: &Vec<u8>) -> (found: Option<u64>)
    ensures
        found == lookup(routing_entries(*table), topic_of(code, digest@)),
{
    table.get(&(code, digest.clone())).map(|entry| *entry.value())
}

/// `crossbeam::queue::SegQueue::new`: an empty queue.
#[verifier::external_body]
fn queue_new() -> (queue: SegQueue<MessageBusEvent>)
    ensures
        queued_events(queue) == BusView::empty().events,
{
    SegQueue::new()
}

/// `crossbeam::queue::SegQueue::push`: adds the event at the tail.
#[verifier::external_body]
fn queue_push(queue: &mut SegQueue<MessageBusEvent>, event: MessageBusEvent)
    ensures
        queued_events(*final(queue)) == queued_events(*old(queue)).push(event@),
{
    queue.push(event)
}

/// `crossbeam::queue::SegQueue::pop`: takes the event at the head, if there is one.
#[verifier::external_body]
fn queue_pop(queue: &mut SegQueue<MessageBusEvent>) -> (event: Option<MessageBusEvent>)
    ensures
        queued_events(*old(queue)).len() == 0 ==> event is None && queued_events(*final(queue))
            == queued_events(*old(queue)),
        queued_events(*old(queue)).len() > 0 ==> event is Some && event->0@ == queued_events(
            *old(queue),
        )[0] && queued_events(*final(queue)) == queued_events(*old(queue)).skip(1),
{
    queue.pop()
}

/// The topic with the given code and digest.
pub open spec fn topic_of(code: u64, digest: Seq<u8>) -> MultihashView {
    MultihashView { code, digest }
}

/// The connection that a topic is bound to, if it is bound.
pub open spec fn lookup(topics: Map<MultihashView, u64>, topic: MultihashView) -> Option<u64> {
    if topics.contains_key(topic) {
        Some(topics[topic])
    } else {
        None
    }
}

/// Mathematical value of the bus: the connection of each subscribed topic, and
/// the events that were emitted and not yet taken, oldest first.
pub struct BusView {
    pub topics: Map<MultihashView, u64>,
    pub events: Seq<BusEventView>,
}

impl BusView {
    /// The bus at startup: no subscription, no event.
    pub open spec fn empty() -> BusView {
        BusView { topics: Map::empty(), events: Seq::empty() }
    }

    /// The connection that messages on `topic` are delivered to.
    pub open spec fn subscriber(self, topic: MultihashView) -> Option<u64> {
        lookup(self.topics, topic)
    }

    /// The bus after `connection` subscribed to `topic`.
    pub open spec fn subscribed(self, topic: MultihashView, connection: u64) -> BusView {
        BusView {
            topics: self.topics.insert(topic, connection),
            events: self.events.push(BusEventView::SubscriptionCreated(topic)),
        }
    }

    /// The bus after the subscription on `topic` was dropped.
    pub open spec fn unsubscribed(self, topic: MultihashView) -> BusView {
        BusView {
            topics: self.topics.remove(topic),
            events: self.events.push(BusEventView::SubscriptionDropped(topic)),
        }
    }

    /// The bus after `message` was handed to its subscriber's connection.
    pub open spec fn delivered(self, message: MessageView) -> BusView {
        BusView {
            topics: self.topics,
            events: self.events.push(BusEventView::MessageDelivered(message.address())),
        }
    }

    /// The bus after `message` arrived and, where its topic has a subscriber,
    /// putting it on the subscriber's connection ended as `sent` says.
    pub open spec fn routed(self, message: MessageView, sent: bool) -> BusView {
        if self.subscriber(message.topic) is Some && sent {
            self.delivered(message)
        } else {
            self
        }
    }
}

/// Routing is correct: once `connection` subscribed to a topic, a message on that
/// topic goes to `connection`, and its successful delivery adds exactly one
/// event, `MessageDelivered` with the message's content address, behind the
/// events that were there.
pub proof fn lemma_subscriber_receives(
    bus: BusView,
    topic: MultihashView,
    connection: u64,
    message: MessageView,
)
    requires
        message.topic == topic,
    ensures
        bus.subscribed(topic, connection).subscriber(message.topic) == Some(connection),
        ({
            let before = bus.subscribed(topic, connection);
            let after = before.routed(message, true);
            &&& after.topics == before.topics
            &&& after.events.len() == before.events.len() + 1
            &&& after.events.last() == BusEventView::MessageDelivered(message.address())
            &&& after.events.drop_last() == before.events
        }),
{
}

/// A message on a topic without a subscription is delivered nowhere: no
/// connection is chosen for it, and the bus stays as it was, with no event
/// added.
pub proof fn lemma_unsubscribed_topic_discards(bus: BusView, message: MessageView, sent: bool)
    requires
        !bus.topics.contains_key(message.topic),
    ensures
        bus.subscriber(message.topic) is None,
        bus.routed(message, sent) == bus,
{
}

/// A second subscription on a topic replaces the first: from then on messages
/// on the topic go to the second connection only, whatever is delivered and
/// whatever other topics are subscribed to or dropped in between.
pub proof fn lemma_subscription_replaces(
    bus: BusView,
    topic: MultihashView,
    first: u64,
    second: u64,
    other: MultihashView,
    connection: u64,
    message: MessageView,
    sent: bool,
)
    requires
        other != topic,
    ensures
        ({
            let after = bus.subscribed(topic, first).subscribed(topic, second);
            &&& after.subscriber(topic) == Some(second)
            &&& after.topics == bus.topics.insert(topic, second)
            &&& after.routed(message, sent).subscriber(topic) == Some(second)
            &&& after.subscribed(other, connection).subscriber(topic) == Some(second)
            &&& after.unsubscribed(other).subscriber(topic) == Some(second)
        }),
{
}

/// Dropping the subscription on a topic leaves the topic without a subscriber.
pub proof fn lemma_dropped_subscription_is_gone(bus: BusView, topic: MultihashView)
    ensures
        bus.unsubscribed(topic).subscriber(topic) is None,
{
}

/// The command that routes a bus event to the network: a delivered message is
/// acknowledged by its content address, a new subscription is announced, and a
/// dropped subscription is only taken note of.
pub open spec fn command_of(event: BusEventView) -> Option<NetworkCommandView> {
    match event {
        BusEventView::MessageDelivered(hash) => Some(NetworkCommandView::GossipACK(hash)),
        BusEventView::SubscriptionCreated(topic) => Some(
            NetworkCommandView::GossipSubscription(topic),
        ),
        BusEventView::SubscriptionDropped(_) => None,
    }
}

/// The commands that route a sequence of bus events, in the order of the
/// events.
pub open spec fn commands_of(events: Seq<BusEventView>) -> Seq<NetworkCommandView>
    decreases events.len(),
{
    if events.len() == 0 {
        Seq::empty()
    } else {
        match command_of(events.last()) {
            Some(command) => commands_of(events.drop_last()).push(command),
            None => commands_of(events.drop_last()),
        }
    }
}

/// Routes an event of the bus to the network. Fails only if the network is
/// closed, and then hands the command back.
pub fn handle(event: MessageBusEvent, network: &mut Network) -> (r: Result<(), NetworkClosed>)
    ensures
        match command_of(event@) {
            Some(command) => {
                &&& r is Ok ==> final(network)@ == old(network)@.push(command)
                &&& r matches Err(e) ==> e.0@ == command && final(network)@ == old(network)@
            },
            None => r is Ok && final(network)@ == old(network)@,
        },
{
    match event {
        MessageBusEvent::_MessageDelivered(hash) => network.gossip_ack(hash),
        MessageBusEvent::SubscriptionCreated(topic) => network.gossip_subscription(
            Subscription::new(topic),
        ),
        MessageBusEvent::_SubscriptionDropped(_) => Ok(()),
    }
}

/// Routes every event that the bus has ready, oldest first, and leaves the
/// bus without events: each event is consumed exactly once. Where the network
/// is closed, it stops at the event whose command came back; the events
/// before it were routed, and those behind it stay with the bus.
pub fn drain(bus: &mut MessageBus, network: &mut Network) -> (r: Result<(), NetworkClosed>)
    ensures
        final(bus)@.topics == old(bus)@.topics,
        r is Ok ==> final(bus)@.events.len() == 0 && final(network)@ == old(network)@
            + commands_of(old(bus)@.events),
        r matches Err(e) ==> exists|n: int|
            {
                &&& 0 <= n < old(bus)@.events.len()
                &&& #[trigger] command_of(old(bus)@.events[n]) == Some(e.0@)
                &&& final(network)@ == old(network)@ + commands_of(old(bus)@.events.take(n))
                &&& final(bus)@.events == old(bus)@.events.skip(n + 1)
            },
{
    let ghost events = bus@.events;
    let ghost sent = network@;
    let ghost mut n: int = 0;
    loop
        invariant
            0 <= n <= events.len(),
            bus@.topics == old(bus)@.topics,
            events == old(bus)@.events,
            sent == old(network)@,
            bus@.events == events.skip(n),
            network@ == sent + commands_of(events.take(n)),
        decreases events.len() - n,
    {
        match bus.poll_next() {
            None => {
                assert(events.take(n) =~= events);
                return Ok(());
            },
            Some(event) => {
                assert(events.take(n + 1).drop_last() =~= events.take(n));
                match handle(event, network) {
                    Ok(()) => {
                        proof {
                            n = n + 1;
                        }
                    },
                    Err(e) => {
                        return Err(e);
                    },
                }
            },
        }
    }
}

/// A message on its way to the connection of its topic's subscriber.
#[derive(Debug)]
pub struct Delivery {
    /// The connection that the message goes to.
    pub connection: u64,
    /// The message to put on that connection.
    pub message: Message,
}

/// Routes messages to the connections that subscribed to their topics. A topic
/// has at most one connection at a time.
pub struct MessageBus {
    topics: DashMap<TopicKey, u64>,
    events_out: SegQueue<MessageBusEvent>,
}

impl View for MessageBus {
    type V = BusView;

    closed spec fn view(&self) -> BusView {
        BusView {
            topics: routing_entries(self.topics),
            events: queued_events(self.events_out),
        }
    }
}

impl MessageBus {
    /// A bus without subscriptions and without events.
    pub fn new() -> (bus: MessageBus)
        ensures
            bus@ == BusView::empty(),
    {
        MessageBus { topics: table_new(), events_out: queue_new() }
    }

    /// Binds `topic` to `connection` and emits `SubscriptionCreated`. A connection
    /// that the topic was bound to before is replaced, and returned so that its
    /// owner can let go of it.
    pub fn create_subscription(&mut self, topic: Multihash, connection: u64) -> (replaced: Option<
        u64,
    >)
        ensures
            final(self)@ == old(self)@.subscribed(topic@, connection),
            replaced == old(self)@.subscriber(topic@),
    {
        let replaced = table_insert(&mut self.topics, topic.code(), topic.digest(), connection);
        queue_push(&mut self.events_out, MessageBusEvent::SubscriptionCreated(topic));
        replaced
    }

    /// Removes the binding of `topic`, as when its connection was closed for
    /// whatever reason, and emits `SubscriptionDropped`. Returns the connection
    /// that the topic was bound to.
    pub fn _drop_subscription(&mut self, topic: Multihash) -> (removed: Option<u64>)
        ensures
            final(self)@ == old(self)@.unsubscribed(topic@),
            removed == old(self)@.subscriber(topic@),
    {
        let removed = table_remove(&mut self.topics, topic.code(), topic.digest());
        queue_push(&mut self.events_out, MessageBusEvent::_SubscriptionDropped(topic));
        removed
    }

    /// Called when some node acknowledges that it delivered a message to a
    /// subscription that it manages. Messages without a subscriber are not
    /// retained, so there is nothing to retire.
    pub fn drop_message(&mut self, _hash: &Multihash)
        ensures
            final(self)@ == old(self)@,
    {
    }

    /// Called whenever a message is gossiped through the network and reaches the
    /// bus. Where the message's topic has a subscriber here, the message is
    /// handed back together with the subscriber's connection, to be put on it;
    /// otherwise it is discarded. The bus itself is left as it is.
    pub fn _send_message(&self, message: Message) -> (r: Option<Delivery>)
        ensures
            match self@.subscriber(message@.topic) {
                Some(connection) => r matches Some(d) && d.connection == connection && d.message@
                    == message@,
                None => r is None,
            },
    {
        let topic = message.topic();
        match table_get(&self.topics, topic.code(), topic.digest()) {
            Some(connection) => Some(Delivery { connection, message }),
            None => None,
        }
    }

    /// Records how putting a message on its subscriber's connection ended. On
    /// success `MessageDelivered` is emitted with the message's content address;
    /// on failure the error is surfaced and nothing is emitted.
    pub fn settle(&mut self, delivery: Delivery, outcome: Result<(), SendError>) -> (r: Result<
        (),
        SendError,
    >)
        ensures
            outcome is Ok ==> r is Ok && final(self)@ == old(self)@.delivered(delivery.message@),
            outcome matches Err(e) ==> r == Err::<(), SendError>(e) && final(self)@ == old(self)@,
    {
        match outcome {
            Ok(()) => {
                let mut message = delivery.message;
                let hash = message.multihash();
                queue_push(&mut self.events_out, MessageBusEvent::_MessageDelivered(hash));
                Ok(())
            },
            Err(e) => Err(e),
        }
    }

    /// Takes the oldest event that was emitted and not yet taken. `None` means
    /// that no event is ready.
    pub fn poll_next(&mut self) -> (event: Option<MessageBusEvent>)
        ensures
            old(self)@.events.len() == 0 ==> event is None && final(self)@ == old(self)@,
            old(self)@.events.len() > 0 ==> event is Some && event->0@ == old(self)@.events[0]
                && final(self)@ == (BusView {
                topics: old(self)@.topics,
                events: old(self)@.events.skip(1),
            }),
    {
        queue_pop(&mut self.events_out)
    }
}

} // verus!
