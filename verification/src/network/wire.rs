//! The binary encoding of what is gossiped: messages, subscriptions and
//! acknowledgments.

use crate::primitives::hash::{multihash_bytes, multihash_parsed};
use crate::primitives::{Message, MessageView, Multihash, MultihashView, Subscription};
use vstd::bytes::{
    lemma_auto_spec_u64_to_from_le_bytes, spec_u64_from_le_bytes, spec_u64_to_le_bytes,
};
use vstd::prelude::*;
use vstd::slice::slice_subrange;

verus! {

#[verifier::external_type_specification]
#[verifier::external_body]
pub struct ExBincodeErrorKind(bincode::ErrorKind);

/// A byte string as one field on the wire: its length as eight little-endian
/// bytes, then the bytes themselves.
pub open spec fn field(bytes: Seq<u8>) -> Seq<u8> {
    spec_u64_to_le_bytes(bytes.len() as u64) + bytes
}

/// The length that the first eight bytes of a payload announce.
pub open spec fn announced_len(payload: Seq<u8>) -> int {
    spec_u64_from_le_bytes(payload.subrange(0, 8)) as int
}

/// Whether a payload starts with one whole field; more bytes may follow.
pub open spec fn starts_with_field(payload: Seq<u8>) -> bool {
    payload.len() >= 8 && announced_len(payload) <= payload.len() - 8
}

/// The bytes of the field that a payload starts with.
pub open spec fn first_field(payload: Seq<u8>) -> Seq<u8> {
    payload.subrange(8, 8 + announced_len(payload))
}

/// What follows the field that a payload starts with.
pub open spec fn after_first_field(payload: Seq<u8>) -> Seq<u8> {
    payload.subrange(8 + announced_len(payload), payload.len() as int)
}

/// The multihash that a byte string is the canonical form of.
pub open spec fn multihash_read(bytes: Seq<u8>) -> Option<MultihashView> {
    match multihash_parsed(bytes) {
        Some((code, digest)) => Some(MultihashView { code, digest }),
        None => None,
    }
}

/// A message on the wire: its topic's byte form as one field, then its payload
/// as another.
pub open spec fn message_wire(message: MessageView) -> Seq<u8> {
    field(multihash_bytes(message.topic.code, message.topic.digest)) + field(message.content)
}

/// The message that a payload holds: two fields, the first of which is the byte
/// form of a multihash. Bytes behind the second field are ignored.
pub open spec fn message_read(payload: Seq<u8>) -> Option<MessageView> {
    if starts_with_field(payload) && starts_with_field(after_first_field(payload)) {
        match multihash_read(first_field(payload)) {
            Some(topic) => Some(
                MessageView { topic, content: first_field(after_first_field(payload)) },
            ),
            None => None,
        }
    } else {
        None
    }
}

/// A subscription on the wire: its topic's byte form as one field.
pub open spec fn subscription_wire(topic: MultihashView) -> Seq<u8> {
    field(multihash_bytes(topic.code, topic.digest))
}

/// The subscription that a payload holds: one field that is the byte form of a
/// multihash. Bytes behind the field are ignored.
pub open spec fn subscription_read(payload: Seq<u8>) -> Option<MultihashView> {
    if starts_with_field(payload) {
        multihash_read(first_field(payload))
    } else {
        None
    }
}

/// An acknowledgment on the wire: the byte form of the message's content
/// address, and nothing else.
pub open spec fn ack_wire(hash: MultihashView) -> Seq<u8> {
    multihash_bytes(hash.code, hash.digest)
}

/// The content address that an acknowledgment holds.
pub open spec fn ack_read(payload: Seq<u8>) -> Option<MultihashView> {
    multihash_read(payload)
}

/// `bincode::serialize` on a byte vector: the length as a `u64` in eight
/// little-endian bytes, then the bytes.
#[verifier::external_body]
fn serialize_bytes(bytes: &Vec<u8>) -> (wire: Vec<u8>)
    ensures
        wire@ == field(bytes@),
{
    bincode::serialize(bytes).expect("a byte vector always serializes")
}

/// `bincode::deserialize` to a byte vector: reads the length from the first
/// eight bytes and then that many bytes; fails exactly where the payload is
/// shorter than that. Bytes behind them are left unread.
#[verifier::external_body]
fn deserialize_bytes(payload: &[u8]) -> (r: Result<Vec<u8>, bincode::Error>)
    ensures
        r is Ok <==> starts_with_field(payload@),
        r matches Ok(bytes) ==> bytes@ == first_field(payload@),
{
    bincode::deserialize(payload)
}

/// Reading a field back gives the bytes that were written, and what follows
/// the field is what was written behind it.
pub proof fn lemma_field_round_trip(bytes: Seq<u8>, rest: Seq<u8>)
    requires
        bytes.len() <= u64::MAX,
    ensures
        starts_with_field(field(bytes) + rest),
        first_field(field(bytes) + rest) == bytes,
        after_first_field(field(bytes) + rest) == rest,
{
    lemma_auto_spec_u64_to_from_le_bytes();
    let payload = field(bytes) + rest;
    let prefix = spec_u64_to_le_bytes(bytes.len() as u64);
    assert(payload.subrange(0, 8) =~= prefix);
}

/// Puts a message into its wire form, from which `decode_message` reads an
/// equal message.
pub fn encode_message(message: &Message) -> (wire: Vec<u8>)
    ensures
        wire@ == message_wire(message@),
        message_read(wire@) == Some(message@),
{
    let topic = message.topic().to_bytes();
    let payload = message.content();
    let mut wire = serialize_bytes(&topic);
    let mut content = serialize_bytes(payload);
    proof {
        assert(topic@.len() == topic.len() && payload@.len() == payload.len());
        lemma_field_round_trip(topic@, field(message@.content));
        lemma_field_round_trip(message@.content, Seq::empty());
    }
    wire.append(&mut content);
    wire
}

/// Reads a message from its wire form. Gives nothing exactly where the payload
/// does not hold two fields of which the first is a multihash.
pub fn decode_message(payload: &[u8]) -> (r: Option<Message>)
    ensures
        r is Some <==> message_read(payload@) is Some,
        r matches Some(message) ==> Some(message@) == message_read(payload@),
{
    let topic = match deserialize_bytes(payload) {
        Ok(bytes) => bytes,
        Err(_) => { return None; },
    };
    assert(topic@.len() == announced_len(payload@) && payload@.len() == payload.len());
    let rest = slice_subrange(payload, 8 + topic.len(), payload.len());
    let content = match deserialize_bytes(rest) {
        Ok(bytes) => bytes,
        Err(_) => { return None; },
    };
    match Multihash::from_bytes(topic.as_slice()) {
        Ok(topic) => Some(Message::new(topic, content)),
        Err(_) => None,
    }
}

/// Puts a subscription into its wire form, from which `decode_subscription`
/// reads an equal subscription.
pub fn encode_subscription(subscription: &Subscription) -> (wire: Vec<u8>)
    ensures
        wire@ == subscription_wire(subscription@),
        subscription_read(wire@) == Some(subscription@),
{
    let topic = subscription.topic.to_bytes();
    proof {
        assert(topic@.len() == topic.len());
        lemma_field_round_trip(topic@, Seq::empty());
    }
    serialize_bytes(&topic)
}

/// Reads a subscription from its wire form. Gives nothing exactly where the
/// payload does not start with a field that is a multihash.
pub fn decode_subscription(payload: &[u8]) -> (r: Option<Subscription>)
    ensures
        r is Some <==> subscription_read(payload@) is Some,
        r matches Some(subscription) ==> Some(subscription@) == subscription_read(payload@),
{
    match deserialize_bytes(payload) {
        Ok(bytes) => match Multihash::from_bytes(bytes.as_slice()) {
            Ok(topic) => Some(Subscription::new(topic)),
            Err(_) => None,
        },
        Err(_) => None,
    }
}

/// Puts an acknowledgment into its wire form: the content address's own byte
/// form, from which `decode_ack` reads an equal content address.
pub fn encode_ack(hash: &Multihash) -> (wire: Vec<u8>)
    ensures
        wire@ == ack_wire(hash@),
        ack_read(wire@) == Some(hash@),
{
    hash.to_bytes()
}

/// Reads an acknowledged content address from its wire form. Gives nothing
/// exactly where the payload is not the byte form of a multihash.
pub fn decode_ack(payload: &[u8]) -> (r: Option<Multihash>)
    ensures
        r is Some <==> ack_read(payload@) is Some,
        r matches Some(hash) ==> Some(hash@) == ack_read(payload@),
{
    match Multihash::from_bytes(payload) {
        Ok(hash) => Some(hash),
        Err(_) => None,
    }
}

} // verus!
