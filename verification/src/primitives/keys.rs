//! Identities: the public key that names an account, and the key pair that
//! proves the identity of a node.

use super::base58::{
    base58_decoded, base58_encoded, key_from_base58, to_base58, zero_padded,
};
use ed25519_dalek::{PublicKey, SecretKey};
use rand::RngCore;
use vstd::prelude::*;
use vstd::slice::slice_subrange;

verus! {

/// The Ed25519 public key that belongs to a 32-byte secret key, as
/// `ed25519_dalek` derives it.
pub uninterp spec fn ed25519_public(secret: Seq<u8>) -> Seq<u8>;

#[verifier::external_type_specification]
#[verifier::external_body]
pub struct ExSignatureError(ed25519_dalek::SignatureError);

/// `ed25519_dalek::SecretKey::from_bytes`, then `PublicKey::from` on the secret
/// key: fails exactly when the secret is not 32 bytes long, and otherwise gives
/// the secret's 32 bytes and the 32 bytes of the public key that belongs to it.
#[verifier::external_body]
fn derive_keys(secret: &[u8]) -> (r: Result<([u8; 32], [u8; 32]), ed25519_dalek::SignatureError>)
    ensures
        r is Ok <==> secret@.len() == 32,
        r matches Ok(keys) ==> keys.0@ == secret@ && keys.1@ == ed25519_public(secret@),
{
    let secret = SecretKey::from_bytes(secret)?;
    Ok((secret.to_bytes(), PublicKey::from(&secret).to_bytes()))
}

/// `rand::thread_rng().fill_bytes`: 32 bytes from the thread's random number
/// generator. Nothing is known of them.
#[verifier::external_body]
fn random_secret() -> (bytes: [u8; 32]) {
    let mut bytes = [0u8; 32];
    rand::thread_rng().fill_bytes(&mut bytes);
    bytes
}

/// The address of an account: a relay node, a dApp or a client.
#[derive(Copy, Clone, Debug, PartialEq, Eq, Hash, PartialOrd, Ord)]
pub struct Pubkey(pub [u8; 32]);

impl View for Pubkey {
    type V = Seq<u8>;

    open spec fn view(&self) -> Seq<u8> {
        self.0@
    }
}

impl Pubkey {
    /// The 32 bytes of the key, its compact form.
    pub fn as_bytes(&self) -> (bytes: &[u8; 32])
        ensures
            bytes@ == self@,
    {
        &self.0
    }

    /// The key whose compact form is `bytes`; nothing unless these are exactly 32
    /// bytes.
    pub fn from_slice(bytes: &[u8]) -> (r: Option<Pubkey>)
        ensures
            r is Some <==> bytes@.len() == 32,
            r matches Some(key) ==> key@ == bytes@,
    {
        if bytes.len() != 32 {
            return None;
        }
        let mut key = [0u8; 32];
        let mut i: usize = 0;
        while i < 32
            invariant
                i <= 32,
                bytes@.len() == 32,
                forall|j: int| 0 <= j < i ==> key@[j] == bytes@[j],
            decreases 32 - i,
        {
            key[i] = bytes[i];
            i += 1;
        }
        Some(Pubkey(key))
    }

    /// The key of a peer whose identity digest is `digest`: four bytes that say
    /// what kind of key follows, then the 32 bytes of the key.
    pub fn from_peer_digest(digest: &[u8]) -> (key: Pubkey)
        requires
            digest@.len() == 36,
        ensures
            key@ == digest@.subrange(4, 36),
    {
        let key = Pubkey::from_slice(slice_subrange(digest, 4, 36));
        key.unwrap()
    }

    /// Whether this is the key of the peer whose identity digest is `digest`.
    pub fn is_peer(&self, digest: &[u8]) -> (same: bool)
        requires
            digest@.len() >= 4,
        ensures
            same == (self@ == digest@.subrange(4, digest@.len() as int)),
    {
        match Pubkey::from_slice(slice_subrange(digest, 4, digest.len())) {
            Some(other) => {
                let mut i: usize = 0;
                while i < 32
                    invariant
                        i <= 32,
                        other@ == digest@.subrange(4, digest@.len() as int),
                        forall|j: int| 0 <= j < i ==> self.0@[j] == other.0@[j],
                    decreases 32 - i,
                {
                    if self.0[i] != other.0[i] {
                        return false;
                    }
                    i += 1;
                }
                assert(self.0@ =~= other.0@);
                true
            },
            None => false,
        }
    }

    /// The base-58 text of the key, its human-readable form. Reading the text
    /// back gives the key again.
    pub fn to_string(&self) -> (text: String)
        ensures
            text@ == base58_encoded(self@),
            base58_decoded(text@) == Some(self@),
    {
        to_base58(self.0.as_slice())
    }

    /// Reads a key from base-58 text. The text may stand for fewer than 32
    /// bytes, which are then followed by zero bytes; it fails where the text is
    /// not base-58 or stands for more than 32 bytes.
    pub fn from_str(s: &str) -> (r: Result<Pubkey, bs58::decode::Error>)
        ensures
            r is Ok <==> (base58_decoded(s@) matches Some(bytes) && bytes.len() <= 32),
            r matches Ok(key) ==> key@ == zero_padded(base58_decoded(s@)->0, 32),
    {
        match key_from_base58(s) {
            Ok(bytes) => Ok(Pubkey(bytes)),
            Err(e) => Err(e),
        }
    }
}

/// Why a key pair could not be read.
#[derive(Debug)]
pub enum KeypairError {
    /// The text is not base-58, or stands for more than 32 bytes.
    Base58ParseError(bs58::decode::Error),
    /// The bytes are no Ed25519 secret key.
    Ed25519Error(ed25519_dalek::SignatureError),
}

/// Mathematical value of a key pair.
pub struct KeypairView {
    pub secret: Seq<u8>,
    pub public: Seq<u8>,
}

impl KeypairView {
    /// The public key is the one that belongs to the secret key.
    pub open spec fn valid(self) -> bool {
        self.secret.len() == 32 && self.public == ed25519_public(self.secret)
    }
}

/// A text with everything but its first four and its last four characters
/// replaced by three dots.
pub open spec fn masked(text: Seq<char>) -> Seq<char> {
    text.subrange(0, 4) + seq!['.', '.', '.'] + text.subrange(text.len() - 4, text.len() as int)
}

/// Hides the middle of a text: keeps its first four and its last four
/// characters, with three dots in between.
pub fn mask(text: &str) -> (hint: String)
    requires
        text@.len() >= 8,
    ensures
        hint@ == masked(text@),
{
    let len = text.unicode_len();
    let mut hint = String::from_str(text.substring_char(0, 4));
    proof {
        reveal_strlit("...");
    }
    hint.append("...");
    hint.append(text.substring_char(len - 4, len));
    hint
}

/// A pair of a secret and a public key that proves the identity of a node.
pub struct Keypair {
    secret: [u8; 32],
    public: Pubkey,
}

impl View for Keypair {
    type V = KeypairView;

    closed spec fn view(&self) -> KeypairView {
        KeypairView { secret: self.secret@, public: self.public@ }
    }
}

impl Keypair {
    #[verifier::type_invariant]
    spec fn keys_belong_together(self) -> bool {
        self.public@ == ed25519_public(self.secret@)
    }

    /// A fresh key pair from 32 random bytes.
    pub fn unique() -> (pair: Keypair)
        ensures
            pair@.valid(),
    {
        let bytes = random_secret();
        let keys = derive_keys(bytes.as_slice());
        let (secret, public) = keys.unwrap();
        Keypair { secret, public: Pubkey(public) }
    }

    /// The public key.
    pub fn public(&self) -> (key: Pubkey)
        ensures
            key@ == self@.public,
            self@.valid(),
    {
        proof {
            use_type_invariant(self);
        }
        self.public
    }

    /// The 32 bytes of the secret key.
    pub fn secret(&self) -> (bytes: &[u8; 32])
        ensures
            bytes@ == self@.secret,
            self@.valid(),
    {
        proof {
            use_type_invariant(self);
        }
        &self.secret
    }

    /// The key pair of the secret key in `value`. Fails with `Ed25519Error`
    /// exactly when `value` is not 32 bytes long.
    pub fn try_from(value: &[u8]) -> (r: Result<Keypair, KeypairError>)
        ensures
            r is Ok <==> value@.len() == 32,
            r matches Ok(pair) ==> pair@.secret == value@ && pair@.valid(),
            r matches Err(e) ==> e is Ed25519Error,
    {
        match derive_keys(value) {
            Ok((secret, public)) => Ok(Keypair { secret, public: Pubkey(public) }),
            Err(e) => Err(KeypairError::Ed25519Error(e)),
        }
    }

    /// The key pair of the secret key that is written in base-58 in `value`. The
    /// text may stand for fewer than 32 bytes, which are then followed by zero
    /// bytes. Fails with `Base58ParseError` exactly when the text is not base-58
    /// or stands for more than 32 bytes.
    pub fn from_str(value: &str) -> (r: Result<Keypair, KeypairError>)
        ensures
            r is Ok <==> (base58_decoded(value@) matches Some(bytes) && bytes.len() <= 32),
            r matches Ok(pair) ==> pair@.secret == zero_padded(base58_decoded(value@)->0, 32)
                && pair@.valid(),
            r matches Err(e) ==> e is Base58ParseError,
    {
        match key_from_base58(value) {
            Ok(bytes) => {
                let keys = derive_keys(bytes.as_slice());
                let (secret, public) = keys.unwrap();
                Ok(Keypair { secret, public: Pubkey(public) })
            },
            Err(e) => Err(KeypairError::Base58ParseError(e)),
        }
    }

    /// The base-58 text of the public key.
    pub fn to_string(&self) -> (text: String)
        ensures
            text@ == base58_encoded(self@.public),
    {
        self.public.to_string()
    }

    /// The base-58 text of the secret key with its middle hidden, fit to be
    /// shown in logs; nothing where that text has fewer than eight characters.
    pub fn masked_secret(&self) -> (hint: Option<String>)
        ensures
            base58_encoded(self@.secret).len() >= 8 ==> hint is Some && hint->0@ == masked(
                base58_encoded(self@.secret),
            ),
            base58_encoded(self@.secret).len() < 8 ==> hint is None,
    {
        let text = to_base58(self.secret.as_slice());
        if text.as_str().unicode_len() >= 8 {
            Some(mask(text.as_str()))
        } else {
            None
        }
    }
}

impl Clone for Keypair {
    fn clone(&self) -> (pair: Self)
        ensures
            pair@ == self@,
    {
        proof {
            use_type_invariant(self);
        }
        Keypair { secret: self.secret, public: self.public }
    }
}

} // verus!
