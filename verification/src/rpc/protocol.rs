//! The request protocol that clients speak over their connection: JSON text
//! frames that either publish a message or subscribe to a topic.

use crate::network::wire::multihash_read;
use crate::primitives::base58::{base58_decoded, from_base58};
use crate::primitives::{Message, MessageView, Multihash, MultihashView, Subscription};
use serde_json::Value;
use vstd::prelude::*;
use vstd::string::{StrSliceExecFns, StringExecFns};
use vstd::utf8::encode_utf8;

verus! {

#[verifier::external_type_specification]
#[verifier::external_body]
pub struct ExJsonValue(Value);

#[verifier::external_type_specification]
#[verifier::external_body]
pub struct ExJsonError(serde_json::Error);

/// The JSON document that a text is, as `serde_json` parses it, or nothing
/// where the text is not JSON.
pub uninterp spec fn json_parsed(text: Seq<char>) -> Option<Value>;

/// The members that a JSON document holds by name. Only an object has members.
pub uninterp spec fn json_members(document: Value) -> Map<Seq<char>, Value>;

/// The text that a JSON document holds, where the document is a string.
pub uninterp spec fn json_text(document: Value) -> Option<Seq<char>>;

/// `serde_json::Value::from_str`: parses a text as one JSON document; fails
/// exactly where the text is not JSON.
#[verifier::external_body]
fn parse_json(text: &str) -> (r: Result<Value, serde_json::Error>)
    ensures
        r is Ok <==> json_parsed(text@) is Some,
        r matches Ok(document) ==> json_parsed(text@) == Some(document),
{
    <Value as std::str::FromStr>::from_str(text)
}

/// `serde_json::Value::get` with a name: the member of that name, where the
/// document is an object that has one.
#[verifier::external_body]
fn json_get<'a>(document: &'a Value, name: &str) -> (member: Option<&'a Value>)
    ensures
        member is Some <==> json_members(*document).contains_key(name@),
        member matches Some(found) ==> json_members(*document)[name@] == *found,
{
    document.get(name)
}

/// `serde_json::Value::as_str`: the text of the document, where it is a string.
#[verifier::external_body]
fn json_as_str<'a>(document: &'a Value) -> (text: Option<&'a str>)
    ensures
        text is Some <==> json_text(*document) is Some,
        text matches Some(found) ==> json_text(*document) == Some(found@),
{
    document.as_str()
}

/// What a client asks for.
#[derive(Debug)]
pub enum Request {
    /// Publish this message.
    Publish(Message),
    /// Send all future messages on this topic down the connection.
    Subscribe(Subscription),
}

/// Mathematical value of a request.
pub enum RequestView {
    Publish(MessageView),
    Subscribe(MultihashView),
}

impl View for Request {
    type V = RequestView;

    open spec fn view(&self) -> RequestView {
        match self {
            Request::Publish(m) => RequestView::Publish(m@),
            Request::Subscribe(s) => RequestView::Subscribe(s@),
        }
    }
}

/// Why a frame is no request.
#[derive(Debug)]
pub enum RequestError {
    /// The method is none that the protocol knows.
    InvalidMethod(String),
    /// A field is missing or is not what it has to be.
    MissingField(String),
    /// A text is not base-58.
    Base58Error(bs58::decode::Error),
    /// The bytes of a topic are no multihash.
    MultihashError(::multihash::Error),
    /// The frame is not JSON.
    Deserialization(serde_json::Error),
}

/// Mathematical value of a request error: its kind, and the method or the
/// field that it names.
pub enum RequestErrorView {
    InvalidMethod(Seq<char>),
    MissingField(Seq<char>),
    Base58Error,
    MultihashError,
    Deserialization,
}

impl View for RequestError {
    type V = RequestErrorView;

    open spec fn view(&self) -> RequestErrorView {
        match self {
            RequestError::InvalidMethod(m) => RequestErrorView::InvalidMethod(m@),
            RequestError::MissingField(f) => RequestErrorView::MissingField(f@),
            RequestError::Base58Error(_) => RequestErrorView::Base58Error,
            RequestError::MultihashError(_) => RequestErrorView::MultihashError,
            RequestError::Deserialization(_) => RequestErrorView::Deserialization,
        }
    }
}

/// The text of the member `name` of a document, where the document has such a
/// member and it is a string.
pub open spec fn string_member(document: Value, name: Seq<char>) -> Option<Seq<char>> {
    if json_members(document).contains_key(name) {
        json_text(json_members(document)[name])
    } else {
        None
    }
}

/// The multihash that a base-58 text stands for: nothing where the text is
/// not base-58, and `Some(None)` where its bytes are no multihash.
pub open spec fn topic_text(text: Seq<char>) -> Option<Option<MultihashView>> {
    match base58_decoded(text) {
        Some(bytes) => Some(multihash_read(bytes)),
        None => None,
    }
}

/// What a subscribe request asks for: the topic in `params.topic`. A missing
/// `params`, a `params.topic` that is missing or no string, and one that is
/// not base-58 are all reported as the missing field `params`; base-58 text
/// that is no multihash is reported as such.
pub open spec fn subscribe_request(document: Value) -> Result<MultihashView, RequestErrorView> {
    if json_members(document).contains_key("params"@) {
        match string_member(json_members(document)["params"@], "topic"@) {
            Some(text) => match topic_text(text) {
                Some(Some(topic)) => Ok(topic),
                Some(None) => Err(RequestErrorView::MultihashError),
                None => Err(RequestErrorView::MissingField("params"@)),
            },
            None => Err(RequestErrorView::MissingField("params"@)),
        }
    } else {
        Err(RequestErrorView::MissingField("params"@))
    }
}

/// What a publish request asks for: a message on the topic in `params.topic`
/// whose payload is the bytes of the text in `params.message`. A missing
/// `params` is reported first, then a `params.message` that is missing or no
/// string, then a `params.topic` that is missing, no string, not base-58 or no
/// multihash.
pub open spec fn publish_request(document: Value) -> Result<MessageView, RequestErrorView> {
    if json_members(document).contains_key("params"@) {
        let params = json_members(document)["params"@];
        match string_member(params, "message"@) {
            Some(content) => match string_member(params, "topic"@) {
                Some(text) => match topic_text(text) {
                    Some(Some(topic)) => Ok(MessageView { topic, content: encode_utf8(content) }),
                    _ => Err(RequestErrorView::MissingField("params.topic"@)),
                },
                None => Err(RequestErrorView::MissingField("params.topic"@)),
            },
            None => Err(RequestErrorView::MissingField("params.message"@)),
        }
    } else {
        Err(RequestErrorView::MissingField("params"@))
    }
}

/// What a JSON document asks for. Its `method` has to be a string, and names
/// the kind of the request; any method but `irn_subscribe` and `irn_publish`
/// is rejected under its own name.
pub open spec fn request_of(document: Value) -> Result<RequestView, RequestErrorView> {
    match string_member(document, "method"@) {
        Some(method) => if method == "irn_subscribe"@ {
            match subscribe_request(document) {
                Ok(topic) => Ok(RequestView::Subscribe(topic)),
                Err(e) => Err(e),
            }
        } else if method == "irn_publish"@ {
            match publish_request(document) {
                Ok(message) => Ok(RequestView::Publish(message)),
                Err(e) => Err(e),
            }
        } else {
            Err(RequestErrorView::InvalidMethod(method))
        },
        None => Err(RequestErrorView::MissingField("method"@)),
    }
}

/// What a text frame asks for: what its JSON document asks for, where it is
/// JSON at all.
pub open spec fn request_in(text: Seq<char>) -> Result<RequestView, RequestErrorView> {
    match json_parsed(text) {
        Some(document) => request_of(document),
        None => Err(RequestErrorView::Deserialization),
    }
}

/// The mathematical value of the outcome of reading a request.
pub open spec fn outcome(r: Result<Request, RequestError>) -> Result<
    RequestView,
    RequestErrorView,
> {
    match r {
        Ok(request) => Ok(request@),
        Err(e) => Err(e@),
    }
}

/// Malformed input is rejected, each kind under its own error: a frame that is
/// not JSON, a JSON frame whose `method` is missing or no string, and a JSON
/// frame with a method that the protocol does not know.
pub proof fn lemma_malformed_frames_are_rejected(text: Seq<char>)
    ensures
        json_parsed(text) is None ==> request_in(text) == Err::<RequestView, RequestErrorView>(
            RequestErrorView::Deserialization,
        ),
        json_parsed(text) matches Some(document) ==> {
            &&& string_member(document, "method"@) is None ==> request_in(text) == Err::<
                RequestView,
                RequestErrorView,
            >(RequestErrorView::MissingField("method"@))
            &&& string_member(document, "method"@) matches Some(method) ==> (method
                != "irn_subscribe"@ && method != "irn_publish"@ ==> request_in(text) == Err::<
                RequestView,
                RequestErrorView,
            >(RequestErrorView::InvalidMethod(method)))
        },
{
}

fn get_string(json: &Value, name: &str) -> (r: Result<String, RequestError>)
    ensures
        match string_member(*json, name@) {
            Some(text) => r matches Ok(found) && found@ == text,
            None => r matches Err(e) && e@ == RequestErrorView::MissingField(name@),
        },
{
    if let Some(member) = json_get(json, name) {
        if let Some(text) = json_as_str(member) {
            return Ok(String::from_str(text));
        }
    }
    Err(RequestError::MissingField(String::from_str(name)))
}

fn parse_subscribe(json: &Value) -> (r: Result<Subscription, RequestError>)
    ensures
        match subscribe_request(*json) {
            Ok(topic) => r matches Ok(s) && s@ == topic,
            Err(kind) => r matches Err(e) && e@ == kind,
        },
{
    if let Some(params) = json_get(json, "params") {
        if let Ok(topic) = get_string(params, "topic") {
            if let Ok(bytes) = from_base58(topic.as_str()) {
                return match Multihash::from_bytes(bytes.as_slice()) {
                    Ok(topic) => Ok(Subscription::new(topic)),
                    Err(e) => Err(RequestError::MultihashError(e)),
                };
            }
        }
    }
    Err(RequestError::MissingField(String::from_str("params")))
}

fn parse_publish(json: &Value) -> (r: Result<Message, RequestError>)
    ensures
        match publish_request(*json) {
            Ok(message) => r matches Ok(m) && m@ == message,
            Err(kind) => r matches Err(e) && e@ == kind,
        },
{
    if let Some(params) = json_get(json, "params") {
        let content = match get_string(params, "message") {
            Ok(content) => content,
            Err(_) => {
                return Err(RequestError::MissingField(String::from_str("params.message")));
            },
        };
        if let Ok(topic) = get_string(params, "topic") {
            if let Ok(bytes) = from_base58(topic.as_str()) {
                if let Ok(topic) = Multihash::from_bytes(bytes.as_slice()) {
                    return Ok(Message::new(topic, content.as_str().as_bytes_vec()));
                }
            }
        }
        return Err(RequestError::MissingField(String::from_str("params.topic")));
    }
    Err(RequestError::MissingField(String::from_str("params")))
}

/// Reads the request that a JSON document holds. Every document that is no
/// request gives the error that says why, and none brings the reader down.
pub fn request_from_json(json: &Value) -> (r: Result<Request, RequestError>)
    ensures
        outcome(r) == request_of(*json),
{
    let method = match get_string(json, "method") {
        Ok(method) => method,
        Err(e) => { return Err(e); },
    };
    if method == String::from_str("irn_subscribe") {
        match parse_subscribe(json) {
            Ok(subscription) => Ok(Request::Subscribe(subscription)),
            Err(e) => Err(e),
        }
    } else if method == String::from_str("irn_publish") {
        match parse_publish(json) {
            Ok(message) => Ok(Request::Publish(message)),
            Err(e) => Err(e),
        }
    } else {
        Err(RequestError::InvalidMethod(method))
    }
}

/// Reads the request that a text frame holds. A frame that is not JSON gives
/// `Deserialization`; a JSON frame that is no request gives the error that
/// says why. No frame brings the reader down.
pub fn parse_request(request: &str) -> (r: Result<Request, RequestError>)
    ensures
        outcome(r) == request_in(request@),
{
    match parse_json(request) {
        Ok(json) => request_from_json(&json),
        Err(e) => Err(RequestError::Deserialization(e)),
    }
}

} // verus!
