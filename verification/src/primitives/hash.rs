//! Self-describing digests: a hash-function code together with the digest bytes.

use vstd::prelude::*;

verus! {

/// Largest digest, in bytes, that a multihash can carry.
pub const MAX_DIGEST_LEN: usize = 64;

/// Code of SHA3-256 in the multihash table.
pub const SHA3_256: u64 = 0x16;

/// Mathematical value of a multihash.
pub struct MultihashView {
    pub code: u64,
    pub digest: Seq<u8>,
}

impl MultihashView {
    /// A multihash never carries more than `MAX_DIGEST_LEN` digest bytes.
    pub open spec fn valid(self) -> bool {
        self.digest.len() <= MAX_DIGEST_LEN
    }
}

/// The unsigned varint of a number: its bits in groups of seven, lowest group
/// first, one group to a byte, with the high bit set on every byte but the
/// last.
pub open spec fn varint(n: nat) -> Seq<u8>
    decreases n,
{
    if n < 128 {
        seq![n as u8]
    } else {
        seq![(n % 128 + 128) as u8] + varint(n / 128)
    }
}

/// The canonical byte form of a multihash: the code and the length of the
/// digest as unsigned varints, then the digest.
pub open spec fn multihash_bytes(code: u64, digest: Seq<u8>) -> Seq<u8> {
    varint(code as nat) + varint(digest.len()) + digest
}

/// What `multihash::Multihash::<64>::from_bytes` reads from a byte string: the code
/// and the digest, or nothing where the bytes are no multihash of at most 64
/// digest bytes.
pub uninterp spec fn multihash_parsed(bytes: Seq<u8>) -> Option<(u64, Seq<u8>)>;

/// No varint is the beginning of another: where two varints, each followed by
/// more bytes, give the same byte string, they are varints of the same number
/// and the same bytes follow them.
pub proof fn lemma_varint_prefix_free(a: nat, x: Seq<u8>, b: nat, y: Seq<u8>)
    requires
        varint(a) + x == varint(b) + y,
    ensures
        a == b,
        x == y,
    decreases a,
{
    let left = varint(a) + x;
    let right = varint(b) + y;
    assert(left[0] == varint(a)[0] && right[0] == varint(b)[0]);
    if a < 128 && b < 128 {
        assert(x =~= left.subrange(1, left.len() as int));
        assert(y =~= right.subrange(1, right.len() as int));
    } else if a >= 128 && b >= 128 {
        assert(varint(a / 128) + x =~= left.subrange(1, left.len() as int));
        assert(varint(b / 128) + y =~= right.subrange(1, right.len() as int));
        lemma_varint_prefix_free(a / 128, x, b / 128, y);
    }
}

/// The byte form of a multihash tells where it ends: where two byte forms, each
/// followed by more bytes, give the same byte string, they are the forms of
/// the same multihash and the same bytes follow them.
pub proof fn lemma_multihash_bytes_prefix_free(
    a: MultihashView,
    x: Seq<u8>,
    b: MultihashView,
    y: Seq<u8>,
)
    requires
        multihash_bytes(a.code, a.digest) + x == multihash_bytes(b.code, b.digest) + y,
    ensures
        a == b,
        x == y,
{
    let left = varint(a.digest.len()) + (a.digest + x);
    let right = varint(b.digest.len()) + (b.digest + y);
    assert(multihash_bytes(a.code, a.digest) + x =~= varint(a.code as nat) + left);
    assert(multihash_bytes(b.code, b.digest) + y =~= varint(b.code as nat) + right);
    lemma_varint_prefix_free(a.code as nat, left, b.code as nat, right);
    lemma_varint_prefix_free(a.digest.len(), a.digest + x, b.digest.len(), b.digest + y);
    let n = a.digest.len() as int;
    assert(a.digest =~= (a.digest + x).subrange(0, n));
    assert(b.digest =~= (b.digest + y).subrange(0, n));
    assert(x =~= (a.digest + x).subrange(n, n + x.len()));
    assert(y =~= (b.digest + y).subrange(n, n + y.len()));
}

#[verifier::external_type_specification]
#[verifier::external_body]
pub struct ExMultihashError(::multihash::Error);

/// A self-describing digest value, used both as a topic identifier and as the
/// content address of a message.
#[derive(Debug, PartialEq, Eq, Hash)]
pub struct Multihash {
    code: u64,
    digest: Vec<u8>,
}

impl View for Multihash {
    type V = MultihashView;

    closed spec fn view(&self) -> MultihashView {
        MultihashView { code: self.code, digest: self.digest@ }
    }
}

/// `multihash::Multihash::<64>::wrap`: fails exactly when the digest is longer
/// than 64 bytes, and otherwise keeps the code and the digest as given.
#[verifier::external_body]
fn wrap_digest(code: u64, digest: &[u8]) -> (r: Result<Multihash, ::multihash::Error>)
    ensures
        r is Ok <==> digest@.len() <= MAX_DIGEST_LEN,
        r matches Ok(m) ==> m@ == (MultihashView { code, digest: digest@ }),
{
    let m = ::multihash::Multihash::<64>::wrap(code, digest)?;
    Ok(Multihash { code: m.code(), digest: m.digest().to_vec() })
}

/// `multihash::Multihash::to_bytes`: the code and the digest's length as
/// unsigned varints, then the digest; `from_bytes` reads these bytes back as
/// the same code and digest.
#[verifier::external_body]
fn write_bytes(m: &Multihash) -> (r: Vec<u8>)
    requires
        m@.valid(),
    ensures
        r@ == multihash_bytes(m@.code, m@.digest),
        multihash_parsed(r@) == Some((m@.code, m@.digest)),
{
    ::multihash::Multihash::<64>::wrap(m.code, &m.digest).unwrap().to_bytes()
}

/// `multihash::Multihash::<64>::from_bytes`: succeeds exactly on the byte strings
/// that hold one whole multihash and nothing else, with at most 64 digest bytes.
#[verifier::external_body]
fn read_bytes(bytes: &[u8]) -> (r: Result<Multihash, ::multihash::Error>)
    ensures
        r is Ok <==> multihash_parsed(bytes@) is Some,
        r matches Ok(m) ==> multihash_parsed(bytes@) == Some((m@.code, m@.digest)) && m@.valid(),
{
    let m = ::multihash::Multihash::<64>::from_bytes(bytes)?;
    Ok(Multihash { code: m.code(), digest: m.digest().to_vec() })
}

impl Multihash {
    #[verifier::type_invariant]
    spec fn digest_fits(self) -> bool {
        self.digest@.len() <= MAX_DIGEST_LEN
    }

    /// Wraps a digest with the code of the function that produced it. Fails
    /// exactly when the digest is longer than `MAX_DIGEST_LEN` bytes.
    pub fn wrap(code: u64, digest: &[u8]) -> (r: Result<Multihash, ::multihash::Error>)
        ensures
            r is Ok <==> digest@.len() <= MAX_DIGEST_LEN,
            r matches Ok(m) ==> m@ == (MultihashView { code, digest: digest@ }),
    {
        wrap_digest(code, digest)
    }

    /// The code of the hash function.
    pub fn code(&self) -> (c: u64)
        ensures
            c == self@.code,
    {
        self.code
    }

    /// The digest bytes.
    pub fn digest(&self) -> (d: &Vec<u8>)
        ensures
            d@ == self@.digest,
            d@.len() <= MAX_DIGEST_LEN,
    {
        proof {
            use_type_invariant(self);
        }
        &self.digest
    }

    /// The canonical byte form.
    pub fn to_bytes(&self) -> (r: Vec<u8>)
        ensures
            r@ == multihash_bytes(self@.code, self@.digest),
            multihash_parsed(r@) == Some((self@.code, self@.digest)),
    {
        proof {
            use_type_invariant(self);
        }
        write_bytes(self)
    }

    /// Reads a multihash from its canonical byte form. Fails exactly on the byte
    /// strings that are not the byte form of a multihash.
    pub fn from_bytes(bytes: &[u8]) -> (r: Result<Multihash, ::multihash::Error>)
        ensures
            r is Ok <==> multihash_parsed(bytes@) is Some,
            r matches Ok(m) ==> multihash_parsed(bytes@) == Some((m@.code, m@.digest)),
    {
        read_bytes(bytes)
    }
}

impl Clone for Multihash {
    fn clone(&self) -> (r: Self)
        ensures
            r@ == self@,
    {
        proof {
            use_type_invariant(self);
        }
        Multihash { code: self.code, digest: self.digest.clone() }
    }
}

} // verus!
