//! The client-facing gateway: the request protocol, the events that the
//! gateway produces, and where those events go.

use crate::bus::MessageBus;
use crate::network::{Network, NetworkClosed, NetworkCommandView};
use crate::primitives::{Message, MessageView, MultihashView, Subscription};
use vstd::prelude::*;

pub mod protocol;
pub mod service;

verus! {

/// What the gateway reports to the rest of the node.
#[derive(Debug)]
pub enum RpcEvent {
    /// An end-party published a message.
    Message(Message),
    /// An end-party subscribed to a topic. The connection that asked now awaits
    /// the topic's messages, and belongs to whoever takes this event.
    _Subscription(Subscription, u64),
}

/// Mathematical value of a gateway event.
pub enum RpcEventView {
    Message(MessageView),
    Subscription(MultihashView, u64),
}

impl View for RpcEvent {
    type V = RpcEventView;

    open spec fn view(&self) -> RpcEventView {
        match self {
            RpcEvent::Message(m) => RpcEventView::Message(m@),
            RpcEvent::_Subscription(s, connection) => RpcEventView::Subscription(s@, *connection),
        }
    }
}

/// Routes an event of the gateway. A published message is gossiped on the
/// network and leaves the bus alone. A subscription is registered with the
/// bus, which from then on owns the connection; the connection that the topic
/// was bound to before is handed back.
pub fn handle(event: RpcEvent, bus: &mut MessageBus, network: &mut Network) -> (r: Result<
    Option<u64>,
    NetworkClosed,
>)
    ensures
        event@ matches RpcEventView::Message(m) ==> {
            &&& final(bus)@ == old(bus)@
            &&& r matches Ok(replaced) ==> replaced is None
            &&& r is Ok ==> final(network)@ == old(network)@.push(
                NetworkCommandView::GossipMessage(m),
            )
            &&& r matches Err(e) ==> e.0@ == NetworkCommandView::GossipMessage(m)
            &&& r is Err ==> final(network)@ == old(network)@
        },
        event@ matches RpcEventView::Subscription(topic, connection) ==> {
            &&& final(bus)@ == old(bus)@.subscribed(topic, connection)
            &&& final(network)@ == old(network)@
            &&& r matches Ok(replaced) && replaced == old(bus)@.subscriber(topic)
        },
{
    match event {
        RpcEvent::Message(message) => match network.gossip_message(message) {
            Ok(()) => Ok(None),
            Err(e) => Err(e),
        },
        RpcEvent::_Subscription(subscription, connection) => Ok(
            bus.create_subscription(subscription.topic, connection),
        ),
    }
}

} // verus!
