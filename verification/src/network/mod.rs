//! The bridge to the peer-to-peer gossip network: what the node tells the
//! network to do, what the network tells the node, and how both are put on the
//! three gossip channels of a network namespace.

use crate::bus::{Delivery, MessageBus};
use crate::primitives::{Message, MessageView, Multihash, MultihashView, Subscription};
use libp2p::Multiaddr;
use tokio::sync::mpsc::UnboundedSender;
use vstd::prelude::*;
use vstd::string::StringExecFns;

pub mod wire;

use wire::{
    ack_read, ack_wire, decode_ack, decode_message, decode_subscription, encode_ack,
    encode_message, encode_subscription, message_read, message_wire, subscription_read,
    subscription_wire,
};

verus! {

/// Target fan-out of the gossip mesh, as a factor of the logarithm of the
/// network's size.
pub const ACTIVE_VIEW_FACTOR: usize = 4;

/// Estimate of the number of nodes in the network.
pub const NETWORK_SIZE: usize = 20;

/// Largest gossip payload, in bytes.
pub const MAX_TRANSMIT_SIZE: usize = 64 * 1024;

/// For how many seconds the gossip history is retained.
pub const HISTORY_WINDOW_SECS: u64 = 30;

/// For how many seconds a lazy push is delayed.
pub const LAZY_PUSH_WINDOW_SECS: u64 = 5;

#[verifier::external_type_specification]
#[verifier::external_body]
pub struct ExMultiaddr(Multiaddr);

#[verifier::external_type_specification]
#[verifier::external_body]
#[verifier::reject_recursive_types(T)]
pub struct ExUnboundedSender<T>(UnboundedSender<T>);

/// What the network tells the node.
#[derive(Debug)]
pub enum NetworkEvent {
    /// A message was gossiped to this node.
    MessageReceived(Message),
    /// Some node delivered the message with this content address.
    MessageAcknowledged(Multihash),
    /// Some node announced a subscription.
    SubscriptionReceived(Subscription),
}

/// Mathematical value of a network event.
pub enum NetworkEventView {
    MessageReceived(MessageView),
    MessageAcknowledged(MultihashView),
    SubscriptionReceived(MultihashView),
}

impl View for NetworkEvent {
    type V = NetworkEventView;

    open spec fn view(&self) -> NetworkEventView {
        match self {
            NetworkEvent::MessageReceived(m) => NetworkEventView::MessageReceived(m@),
            NetworkEvent::MessageAcknowledged(h) => NetworkEventView::MessageAcknowledged(h@),
            NetworkEvent::SubscriptionReceived(s) => NetworkEventView::SubscriptionReceived(s@),
        }
    }
}

/// What the node tells the network to do.
#[derive(Debug)]
pub enum NetworkCommand {
    /// Dial the peer at this address.
    Connect(Multiaddr),
    /// Gossip a message.
    GossipMessage(Message),
    /// Gossip that the message with this content address was delivered.
    GossipACK(Multihash),
    /// Gossip the announcement of a subscription.
    GossipSubscription(Subscription),
}

/// Mathematical value of a network command.
pub enum NetworkCommandView {
    Connect(Multiaddr),
    GossipMessage(MessageView),
    GossipACK(MultihashView),
    GossipSubscription(MultihashView),
}

impl View for NetworkCommand {
    type V = NetworkCommandView;

    open spec fn view(&self) -> NetworkCommandView {
        match self {
            NetworkCommand::Connect(a) => NetworkCommandView::Connect(*a),
            NetworkCommand::GossipMessage(m) => NetworkCommandView::GossipMessage(m@),
            NetworkCommand::GossipACK(h) => NetworkCommandView::GossipACK(h@),
            NetworkCommand::GossipSubscription(s) => NetworkCommandView::GossipSubscription(s@),
        }
    }
}

/// The three gossip channels of a network namespace.
#[derive(Clone, Copy, Debug, PartialEq, Eq, Structural)]
pub enum Channel {
    /// Messages between end-parties that are not connected to the same node.
    Message,
    /// Announcements that a subscription started on some node.
    Subscribe,
    /// Acknowledgments that a message was delivered.
    Ack,
}

/// The name of a channel within its namespace.
pub open spec fn channel_suffix(channel: Channel) -> Seq<char> {
    match channel {
        Channel::Message => "/message"@,
        Channel::Subscribe => "/subscribe"@,
        Channel::Ack => "/ack"@,
    }
}

/// The gossip topic of a channel: the namespace, then the channel's name.
pub open spec fn channel_name(network_id: Seq<char>, channel: Channel) -> Seq<char> {
    network_id + channel_suffix(channel)
}

/// The channel of the namespace that a gossip topic names, if it names one.
pub open spec fn channel_of(network_id: Seq<char>, topic: Seq<char>) -> Option<Channel> {
    if topic == channel_name(network_id, Channel::Message) {
        Some(Channel::Message)
    } else if topic == channel_name(network_id, Channel::Subscribe) {
        Some(Channel::Subscribe)
    } else if topic == channel_name(network_id, Channel::Ack) {
        Some(Channel::Ack)
    } else {
        None
    }
}

/// The gossip topic of a channel in the namespace `network_id`.
pub fn channel_topic(network_id: &str, channel: Channel) -> (topic: String)
    ensures
        topic@ == channel_name(network_id@, channel),
{
    let mut topic = String::from_str(network_id);
    match channel {
        Channel::Message => topic.append("/message"),
        Channel::Subscribe => topic.append("/subscribe"),
        Channel::Ack => topic.append("/ack"),
    }
    topic
}

/// The gossip topics that a node of the namespace `network_id` subscribes to:
/// those of its three channels, and no other.
pub fn channel_topics(network_id: &str) -> (topics: Vec<String>)
    ensures
        topics@.len() == 3,
        topics@[0]@ == channel_name(network_id@, Channel::Message),
        topics@[1]@ == channel_name(network_id@, Channel::Subscribe),
        topics@[2]@ == channel_name(network_id@, Channel::Ack),
{
    let mut topics = Vec::new();
    topics.push(channel_topic(network_id, Channel::Message));
    topics.push(channel_topic(network_id, Channel::Subscribe));
    topics.push(channel_topic(network_id, Channel::Ack));
    topics
}

/// Tells which channel of the namespace `network_id` a gossip topic names.
pub fn classify(network_id: &str, topic: &str) -> (channel: Option<Channel>)
    ensures
        channel == channel_of(network_id@, topic@),
{
    let topic = String::from_str(topic);
    if topic == channel_topic(network_id, Channel::Message) {
        Some(Channel::Message)
    } else if topic == channel_topic(network_id, Channel::Subscribe) {
        Some(Channel::Subscribe)
    } else if topic == channel_topic(network_id, Channel::Ack) {
        Some(Channel::Ack)
    } else {
        None
    }
}

/// The event that a gossiped payload stands for: the decoded payload where the
/// topic names a channel of the namespace and the payload is well-formed for
/// it, and nothing otherwise.
pub open spec fn gossip_event(network_id: Seq<char>, topic: Seq<char>, payload: Seq<u8>) -> Option<
    NetworkEventView,
> {
    match channel_of(network_id, topic) {
        Some(Channel::Message) => match message_read(payload) {
            Some(m) => Some(NetworkEventView::MessageReceived(m)),
            None => None,
        },
        Some(Channel::Subscribe) => match subscription_read(payload) {
            Some(t) => Some(NetworkEventView::SubscriptionReceived(t)),
            None => None,
        },
        Some(Channel::Ack) => match ack_read(payload) {
            Some(h) => Some(NetworkEventView::MessageAcknowledged(h)),
            None => None,
        },
        None => None,
    }
}

/// Reacts to a payload that the gossip swarm received on `topic`: decodes it
/// as the topic's channel asks and hands back the event to enqueue. A
/// malformed payload, and one on a topic that is no channel of the namespace,
/// is dropped: the node is never brought down by what peers send.
pub fn on_gossip(network_id: &str, topic: &str, payload: &[u8]) -> (event: Option<NetworkEvent>)
    ensures
        event is Some <==> gossip_event(network_id@, topic@, payload@) is Some,
        event matches Some(e) ==> Some(e@) == gossip_event(network_id@, topic@, payload@),
{
    match classify(network_id, topic) {
        Some(Channel::Message) => match decode_message(payload) {
            Some(message) => Some(NetworkEvent::MessageReceived(message)),
            None => None,
        },
        Some(Channel::Subscribe) => match decode_subscription(payload) {
            Some(subscription) => Some(NetworkEvent::SubscriptionReceived(subscription)),
            None => None,
        },
        Some(Channel::Ack) => match decode_ack(payload) {
            Some(hash) => Some(NetworkEvent::MessageAcknowledged(hash)),
            None => None,
        },
        None => None,
    }
}

/// What the task that owns the gossip swarm does with the swarm.
#[derive(Debug)]
pub enum SwarmAction {
    /// Dial the peer at this address.
    Dial(Multiaddr),
    /// Publish the payload on the gossip topic.
    Publish { topic: String, payload: Vec<u8> },
}

/// Mathematical value of a swarm action.
pub enum SwarmActionView {
    Dial(Multiaddr),
    Publish { topic: Seq<char>, payload: Seq<u8> },
}

impl View for SwarmAction {
    type V = SwarmActionView;

    open spec fn view(&self) -> SwarmActionView {
        match self {
            SwarmAction::Dial(a) => SwarmActionView::Dial(*a),
            SwarmAction::Publish { topic, payload } => SwarmActionView::Publish {
                topic: topic@,
                payload: payload@,
            },
        }
    }
}

/// The swarm action that carries out a command: a dial, or the command's value
/// in its wire form on the channel that is meant for it.
pub open spec fn command_action(
    network_id: Seq<char>,
    command: NetworkCommandView,
) -> SwarmActionView {
    match command {
        NetworkCommandView::Connect(a) => SwarmActionView::Dial(a),
        NetworkCommandView::GossipMessage(m) => SwarmActionView::Publish {
            topic: channel_name(network_id, Channel::Message),
            payload: message_wire(m),
        },
        NetworkCommandView::GossipACK(h) => SwarmActionView::Publish {
            topic: channel_name(network_id, Channel::Ack),
            payload: ack_wire(h),
        },
        NetworkCommandView::GossipSubscription(t) => SwarmActionView::Publish {
            topic: channel_name(network_id, Channel::Subscribe),
            payload: subscription_wire(t),
        },
    }
}

/// Reacts to a command from the node: tells the task that owns the swarm what
/// to dial or what to publish where. What is published here is read back by
/// `on_gossip` in the same namespace as the event that tells of the same value.
pub fn on_command(network_id: &str, command: NetworkCommand) -> (action: SwarmAction)
    ensures
        action@ == command_action(network_id@, command@),
        command@ matches NetworkCommandView::GossipMessage(m) ==> (action@
            matches SwarmActionView::Publish { topic, payload } && gossip_event(
            network_id@,
            topic,
            payload,
        ) == Some(NetworkEventView::MessageReceived(m))),
        command@ matches NetworkCommandView::GossipACK(h) ==> (action@
            matches SwarmActionView::Publish { topic, payload } && gossip_event(
            network_id@,
            topic,
            payload,
        ) == Some(NetworkEventView::MessageAcknowledged(h))),
        command@ matches NetworkCommandView::GossipSubscription(t) ==> (action@
            matches SwarmActionView::Publish { topic, payload } && gossip_event(
            network_id@,
            topic,
            payload,
        ) == Some(NetworkEventView::SubscriptionReceived(t))),
{
    proof {
        lemma_channels_differ(network_id@);
    }
    match command {
        NetworkCommand::Connect(addr) => SwarmAction::Dial(addr),
        NetworkCommand::GossipMessage(message) => SwarmAction::Publish {
            topic: channel_topic(network_id, Channel::Message),
            payload: encode_message(&message),
        },
        NetworkCommand::GossipACK(hash) => SwarmAction::Publish {
            topic: channel_topic(network_id, Channel::Ack),
            payload: encode_ack(&hash),
        },
        NetworkCommand::GossipSubscription(subscription) => SwarmAction::Publish {
            topic: channel_topic(network_id, Channel::Subscribe),
            payload: encode_subscription(&subscription),
        },
    }
}

/// `tokio::sync::mpsc::UnboundedSender::send`: hands the command to the channel
/// without waiting. Where the receiving half is closed, the command comes back.
#[verifier::external_body]
fn send_command(netout: &UnboundedSender<NetworkCommand>, command: NetworkCommand) -> (r: Result<
    (),
    NetworkCommand,
>)
    ensures
        r matches Err(returned) ==> returned@ == command@,
{
    netout.send(command).map_err(|e| e.0)
}

/// The task that owns the gossip swarm has ended, and the command that is
/// handed back here was not taken.
#[derive(Debug)]
pub struct NetworkClosed(pub NetworkCommand);

/// The node's handle on the network: commands go through a queue to the task
/// that owns the gossip swarm. Its mathematical value is the sequence of the
/// commands that the queue took, oldest first.
pub struct Network {
    netout: UnboundedSender<NetworkCommand>,
    sent: Ghost<Seq<NetworkCommandView>>,
}

impl View for Network {
    type V = Seq<NetworkCommandView>;

    closed spec fn view(&self) -> Seq<NetworkCommandView> {
        self.sent@
    }
}

impl Network {
    /// A handle that sends its commands into `netout`. Nothing was sent yet.
    pub fn new(netout: UnboundedSender<NetworkCommand>) -> (network: Network)
        ensures
            network@ == Seq::<NetworkCommandView>::empty(),
    {
        Network { netout, sent: Ghost(Seq::empty()) }
    }

    /// Hands a command to the queue. Fails only if the task that owns the swarm
    /// has ended; the command then comes back and counts as not sent.
    pub fn send(&mut self, command: NetworkCommand) -> (r: Result<(), NetworkClosed>)
        ensures
            r is Ok ==> final(self)@ == old(self)@.push(command@),
            r matches Err(e) ==> e.0@ == command@,
            r is Err ==> final(self)@ == old(self)@,
    {
        let ghost value = command@;
        match send_command(&self.netout, command) {
            Ok(()) => {
                proof {
                    self.sent@ = self.sent@.push(value);
                }
                Ok(())
            },
            Err(returned) => Err(NetworkClosed(returned)),
        }
    }

    /// Asks the network to dial the peer at `addr`.
    pub fn connect(&mut self, addr: Multiaddr) -> (r: Result<(), NetworkClosed>)
        ensures
            r is Ok ==> final(self)@ == old(self)@.push(NetworkCommandView::Connect(addr)),
            r matches Err(e) ==> e.0@ == NetworkCommandView::Connect(addr),
            r is Err ==> final(self)@ == old(self)@,
    {
        self.send(NetworkCommand::Connect(addr))
    }

    /// Asks the network to gossip `message`.
    pub fn gossip_message(&mut self, message: Message) -> (r: Result<(), NetworkClosed>)
        ensures
            r is Ok ==> final(self)@ == old(self)@.push(
                NetworkCommandView::GossipMessage(message@),
            ),
            r matches Err(e) ==> e.0@ == NetworkCommandView::GossipMessage(message@),
            r is Err ==> final(self)@ == old(self)@,
    {
        self.send(NetworkCommand::GossipMessage(message))
    }

    /// Asks the network to gossip the announcement of `sub`.
    pub fn gossip_subscription(&mut self, sub: Subscription) -> (r: Result<(), NetworkClosed>)
        ensures
            r is Ok ==> final(self)@ == old(self)@.push(
                NetworkCommandView::GossipSubscription(sub@),
            ),
            r matches Err(e) ==> e.0@ == NetworkCommandView::GossipSubscription(sub@),
            r is Err ==> final(self)@ == old(self)@,
    {
        self.send(NetworkCommand::GossipSubscription(sub))
    }

    /// Asks the network to gossip that the message with the content address
    /// `hash` was delivered.
    pub fn gossip_ack(&mut self, hash: Multihash) -> (r: Result<(), NetworkClosed>)
        ensures
            r is Ok ==> final(self)@ == old(self)@.push(NetworkCommandView::GossipACK(hash@)),
            r matches Err(e) ==> e.0@ == NetworkCommandView::GossipACK(hash@),
            r is Err ==> final(self)@ == old(self)@,
    {
        self.send(NetworkCommand::GossipACK(hash))
    }
}

/// Routes an event of the network. A received message goes to the bus, which
/// hands it back with the connection of its topic's subscriber, or discards
/// it. Acknowledgments and announced subscriptions are only taken note of.
pub fn handle(event: NetworkEvent, bus: &MessageBus) -> (delivery: Option<Delivery>)
    ensures
        match event@ {
            NetworkEventView::MessageReceived(m) => match bus@.subscriber(m.topic) {
                Some(connection) => delivery matches Some(d) && d.connection == connection
                    && d.message@ == m,
                None => delivery is None,
            },
            _ => delivery is None,
        },
{
    match event {
        NetworkEvent::MessageReceived(message) => bus._send_message(message),
        NetworkEvent::MessageAcknowledged(_) => None,
        NetworkEvent::SubscriptionReceived(_) => None,
    }
}

/// The three channels of a namespace have three different gossip topics, and
/// each topic names its own channel.
pub proof fn lemma_channels_differ(network_id: Seq<char>)
    ensures
        forall|c: Channel|
            #[trigger] channel_of(network_id, channel_name(network_id, c)) == Some(c),
{
    reveal_strlit("/message");
    reveal_strlit("/subscribe");
    reveal_strlit("/ack");
    // The three names differ in length, so no two topics of a namespace are equal.
    assert(channel_name(network_id, Channel::Message).len() == network_id.len() + 8);
    assert(channel_name(network_id, Channel::Subscribe).len() == network_id.len() + 10);
    assert(channel_name(network_id, Channel::Ack).len() == network_id.len() + 4);
    assert forall|c: Channel| #[trigger]
        channel_of(network_id, channel_name(network_id, c)) == Some(c) by {
        match c {
            Channel::Message => {},
            Channel::Subscribe => {},
            Channel::Ack => {},
        }
    }
}

} // verus!
