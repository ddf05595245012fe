//! What the gateway does with each frame that a client's connection hands it.

use super::protocol::{
    parse_request, request_in, Request, RequestError, RequestErrorView, RequestView,
};
use super::{RpcEvent, RpcEventView};
use crate::primitives::base58::base58_encoded;
use crate::primitives::Pubkey;
use vstd::prelude::*;
use vstd::string::StringExecFns;

verus! {

/// What a client's connection hands to the gateway.
#[derive(Debug)]
pub enum Frame {
    /// A text frame.
    Text(String),
    /// Anything else: a binary or control frame, or a frame that failed to arrive
    /// whole.
    Other,
}

/// Mathematical value of a frame.
pub enum FrameView {
    Text(Seq<char>),
    Other,
}

impl View for Frame {
    type V = FrameView;

    open spec fn view(&self) -> FrameView {
        match self {
            Frame::Text(t) => FrameView::Text(t@),
            Frame::Other => FrameView::Other,
        }
    }
}

/// What serving one frame came to.
#[derive(Debug)]
pub enum Served {
    /// The frame was no text. It is ignored.
    Ignored,
    /// The frame was no request. Only this one request is rejected.
    Rejected(RequestError),
    /// A publish request: the event is to be emitted.
    Published(RpcEvent),
    /// A subscribe request: the event is to be emitted, and with it the
    /// connection leaves the gateway for good.
    Subscribed(RpcEvent),
}

/// Mathematical value of what serving one frame came to.
pub enum ServedView {
    Ignored,
    Rejected(RequestErrorView),
    Published(RpcEventView),
    Subscribed(RpcEventView),
}

impl View for Served {
    type V = ServedView;

    open spec fn view(&self) -> ServedView {
        match self {
            Served::Ignored => ServedView::Ignored,
            Served::Rejected(e) => ServedView::Rejected(e@),
            Served::Published(e) => ServedView::Published(e@),
            Served::Subscribed(e) => ServedView::Subscribed(e@),
        }
    }
}

impl ServedView {
    /// Whether the gateway goes on serving the connection. It stops only when
    /// a subscription hands the connection over.
    pub open spec fn keeps_serving(self) -> bool {
        !(self is Subscribed)
    }

    /// The event that the gateway emits, if it emits one.
    pub open spec fn emitted(self) -> Option<RpcEventView> {
        match self {
            ServedView::Published(e) => Some(e),
            ServedView::Subscribed(e) => Some(e),
            _ => None,
        }
    }
}

/// What serving a frame on `connection` comes to: a frame that is no text is
/// ignored, a text that is no request is rejected, a publish request emits
/// its message, and a subscribe request emits the subscription together with
/// the connection.
pub open spec fn frame_outcome(frame: FrameView, connection: u64) -> ServedView {
    match frame {
        FrameView::Other => ServedView::Ignored,
        FrameView::Text(text) => match request_in(text) {
            Ok(RequestView::Publish(m)) => ServedView::Published(RpcEventView::Message(m)),
            Ok(RequestView::Subscribe(topic)) => ServedView::Subscribed(
                RpcEventView::Subscription(topic, connection),
            ),
            Err(e) => ServedView::Rejected(e),
        },
    }
}

impl Served {
    /// Whether the gateway goes on serving the connection.
    pub fn keeps_serving(&self) -> (r: bool)
        ensures
            r == self@.keeps_serving(),
    {
        match self {
            Served::Subscribed(_) => false,
            _ => true,
        }
    }

    /// The event to emit, if there is one.
    pub fn into_event(self) -> (event: Option<RpcEvent>)
        ensures
            match self@.emitted() {
                Some(e) => event matches Some(found) && found@ == e,
                None => event is None,
            },
    {
        match self {
            Served::Published(e) => Some(e),
            Served::Subscribed(e) => Some(e),
            _ => None,
        }
    }
}

/// Serves one frame that arrived on `connection`. No frame ends the serving
/// but a subscribe request, and no frame brings the gateway down.
pub fn serve_frame(frame: &Frame, connection: u64) -> (served: Served)
    ensures
        served@ == frame_outcome(frame@, connection),
{
    match frame {
        Frame::Text(text) => match parse_request(text.as_str()) {
            Ok(Request::Publish(message)) => Served::Published(RpcEvent::Message(message)),
            Ok(Request::Subscribe(subscription)) => Served::Subscribed(
                RpcEvent::_Subscription(subscription, connection),
            ),
            Err(e) => Served::Rejected(e),
        },
        Frame::Other => Served::Ignored,
    }
}

/// What the informational endpoint tells about the node.
#[derive(Debug)]
pub struct NodeInfo {
    /// The version of the node's software.
    pub version: String,
    /// The node's public key in base-58.
    pub identity: String,
}

/// The answer of the informational endpoint for a node of the given version
/// and identity.
pub fn serve_info(version: &str, identity: &Pubkey) -> (info: NodeInfo)
    ensures
        info.version@ == version@,
        info.identity@ == base58_encoded(identity@),
{
    NodeInfo { version: String::from_str(version), identity: identity.to_string() }
}

} // verus!
