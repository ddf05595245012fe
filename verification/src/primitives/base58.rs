//! Base-58 text, the human-readable form of keys and topics.

use vstd::prelude::*;

verus! {

/// The base-58 text of a byte string, as `bs58::encode` writes it with the
/// default alphabet.
pub uninterp spec fn base58_encoded(bytes: Seq<u8>) -> Seq<char>;

/// The bytes that a base-58 text stands for, as `bs58::decode` reads it with the
/// default alphabet, or nothing where the text is not base-58.
pub uninterp spec fn base58_decoded(text: Seq<char>) -> Option<Seq<u8>>;

#[verifier::external_type_specification]
#[verifier::external_body]
pub struct ExBase58DecodeError(bs58::decode::Error);

/// `bytes` followed by as many zero bytes as it takes to reach `len` bytes.
pub open spec fn zero_padded(bytes: Seq<u8>, len: nat) -> Seq<u8> {
    bytes + Seq::new((len - bytes.len()) as nat, |i: int| 0u8)
}

/// `bs58::encode(..).into_string()`: the base-58 text of the bytes, which decodes
/// to the same bytes again.
#[verifier::external_body]
pub(crate) fn to_base58(bytes: &[u8]) -> (text: String)
    ensures
        text@ == base58_encoded(bytes@),
        base58_decoded(text@) == Some(bytes@),
{
    bs58::encode(bytes).into_string()
}

/// `bs58::decode(..).into_vec()`: the bytes that the text stands for; fails
/// exactly where the text is not base-58.
#[verifier::external_body]
pub(crate) fn from_base58(text: &str) -> (r: Result<Vec<u8>, bs58::decode::Error>)
    ensures
        r is Ok <==> base58_decoded(text@) is Some,
        r matches Ok(bytes) ==> base58_decoded(text@) == Some(bytes@),
{
    bs58::decode(text).into_vec()
}

/// `bs58::decode(..).into(..)` on a buffer of 32 zero bytes: the bytes that the
/// text stands for, followed by the zeros that they left untouched; fails where
/// the text is not base-58 or stands for more than 32 bytes.
#[verifier::external_body]
pub(crate) fn key_from_base58(text: &str) -> (r: Result<[u8; 32], bs58::decode::Error>)
    ensures
        r is Ok <==> (base58_decoded(text@) matches Some(bytes) && bytes.len() <= 32),
        r matches Ok(key) ==> key@ == zero_padded(base58_decoded(text@)->0, 32),
{
    let mut key = [0u8; 32];
    bs58::decode(text).into(&mut key)?;
    Ok(key)
}

} // verus!
