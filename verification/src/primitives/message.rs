//! Messages relayed between two end-parties, identified by their content.

use super::hash::{
    lemma_multihash_bytes_prefix_free, multihash_bytes, Multihash, MultihashView, SHA3_256,
};
use super::Addressable;
use once_cell::sync::OnceCell;
use sha3::{Digest, Sha3_256};
use vstd::prelude::*;

verus! {

/// The SHA3-256 digest of a byte string, as `sha3::Sha3_256` computes it.
pub uninterp spec fn sha3_256(data: Seq<u8>) -> Seq<u8>;

/// The value that a content-address cache holds, if it holds one.
pub uninterp spec fn cached_address(cell: OnceCell<Multihash>) -> Option<MultihashView>;

#[verifier::external_type_specification]
#[verifier::external_body]
#[verifier::reject_recursive_types(T)]
pub struct ExOnceCell<T>(OnceCell<T>);

/// Mathematical value of a message: its topic and its payload.
pub struct MessageView {
    pub topic: MultihashView,
    pub content: Seq<u8>,
}

/// The content address of a message: the SHA3-256 digest of the topic's byte
/// form followed by the payload, tagged with the code of SHA3-256.
pub open spec fn content_address(topic: MultihashView, content: Seq<u8>) -> MultihashView {
    MultihashView {
        code: SHA3_256,
        digest: sha3_256(multihash_bytes(topic.code, topic.digest) + content),
    }
}

impl MessageView {
    /// The bytes that are hashed for the content address: the topic's byte form,
    /// then the payload.
    pub open spec fn hashed(self) -> Seq<u8> {
        multihash_bytes(self.topic.code, self.topic.digest) + self.content
    }

    /// The content address of this message.
    pub open spec fn address(self) -> MultihashView {
        content_address(self.topic, self.content)
    }
}

/// Content addresses are stable: two messages with the same topic and the same
/// payload have the same content address.
pub proof fn lemma_equal_content_equal_address(a: MessageView, b: MessageView)
    requires
        a.topic == b.topic,
        a.content == b.content,
    ensures
        a.address() == b.address(),
{
}

/// The bytes that are hashed tell the message: two messages with the same
/// hashed bytes have the same topic and the same payload.
pub proof fn lemma_hashed_bytes_tell_the_message(a: MessageView, b: MessageView)
    requires
        a.hashed() == b.hashed(),
    ensures
        a == b,
{
    lemma_multihash_bytes_prefix_free(a.topic, a.content, b.topic, b.content);
}

/// Changing the topic or the payload changes the content address, as far as
/// SHA3-256 tells the hashed bytes of the two messages apart.
pub proof fn lemma_different_content_different_address(a: MessageView, b: MessageView)
    requires
        a.topic != b.topic || a.content != b.content,
        a.hashed() != b.hashed() ==> sha3_256(a.hashed()) != sha3_256(b.hashed()),
    ensures
        a.address() != b.address(),
{
    if a.hashed() == b.hashed() {
        lemma_hashed_bytes_tell_the_message(a, b);
    }
}

/// `sha3::Sha3_256::digest`: the SHA3-256 digest of the input, which is 32 bytes
/// long.
#[verifier::external_body]
fn sha3_256_digest(data: &[u8]) -> (d: Vec<u8>)
    ensures
        d@ == sha3_256(data@),
        d@.len() == 32,
{
    Sha3_256::digest(data).to_vec()
}

/// `once_cell::sync::OnceCell::new`: a cell that holds nothing yet.
#[verifier::external_body]
fn empty_cache() -> (cell: OnceCell<Multihash>)
    ensures
        cached_address(cell) is None,
{
    OnceCell::new()
}

/// `once_cell::sync::OnceCell::get_or_init`: hands out the value that the cell
/// holds; an empty cell is first filled with the content address of the given
/// topic and payload, and a filled one is left as it is.
#[verifier::external_body]
fn cached_or_hashed<'a>(
    cell: &'a mut OnceCell<Multihash>,
    topic: &Multihash,
    content: &Vec<u8>,
) -> (h: &'a Multihash)
    ensures
        cached_address(*old(cell)) matches Some(v) ==> h@ == v && cached_address(*final(cell))
            == Some(v),
        cached_address(*old(cell)) is None ==> h@ == content_address(topic@, content@)
            && cached_address(*final(cell)) == Some(h@),
    no_unwind
{
    cell.get_or_init(|| hash_content(topic, content))
}

/// Computes the content address of a topic and a payload.
pub fn hash_content(topic: &Multihash, content: &Vec<u8>) -> (h: Multihash)
    ensures
        h@ == content_address(topic@, content@),
{
    let mut input = topic.to_bytes();
    input.extend_from_slice(content.as_slice());
    assert(input@ == multihash_bytes(topic@.code, topic@.digest) + content@);
    let digest = sha3_256_digest(input.as_slice());
    let wrapped = Multihash::wrap(SHA3_256, digest.as_slice());
    wrapped.unwrap()
}

/// A single message relayed between two end-parties: a topic and an opaque
/// payload. Its content address is computed on first use and kept.
#[derive(Debug)]
pub struct Message {
    topic: Multihash,
    content: Vec<u8>,
    hashcache: OnceCell<Multihash>,
}

impl View for Message {
    type V = MessageView;

    closed spec fn view(&self) -> MessageView {
        MessageView { topic: self.topic@, content: self.content@ }
    }
}

impl Message {
    #[verifier::type_invariant]
    spec fn cache_agrees(self) -> bool {
        cached_address(self.hashcache) matches Some(v) ==> v == content_address(
            self.topic@,
            self.content@,
        )
    }

    /// The content address that the message keeps from an earlier use, if it
    /// was asked for before.
    pub closed spec fn cached(&self) -> Option<MultihashView> {
        cached_address(self.hashcache)
    }

    /// A message on `topic` with the payload `content`. Its content address is
    /// not computed yet.
    pub fn new(topic: Multihash, content: Vec<u8>) -> (m: Message)
        ensures
            m@ == (MessageView { topic: topic@, content: content@ }),
            m.cached() is None,
    {
        Message { topic, content, hashcache: empty_cache() }
    }

    /// The topic that the message is published on.
    pub fn topic(&self) -> (t: &Multihash)
        ensures
            t@ == self@.topic,
    {
        &self.topic
    }

    /// The payload.
    pub fn content(&self) -> (c: &Vec<u8>)
        ensures
            c@ == self@.content,
    {
        &self.content
    }
}

/// The unique identifier of a message is the hash of its contents: it serves to
/// acknowledge and to deduplicate, and asking for it never changes the message.
impl Addressable for Message {
    open spec fn address(&self) -> MultihashView {
        self@.address()
    }

    fn multihash(&mut self) -> (h: Multihash)
        ensures
            final(self)@ == old(self)@,
            final(self).cached() == Some(h@),
    {
        proof {
            use_type_invariant(&*self);
        }
        cached_or_hashed(&mut self.hashcache, &self.topic, &self.content).clone()
    }
}

impl Clone for Message {
    fn clone(&self) -> (m: Self)
        ensures
            m@ == self@,
    {
        Message::new(self.topic.clone(), self.content.clone())
    }
}

} // verus!
