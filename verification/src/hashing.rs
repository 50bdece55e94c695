//! The hash/encode step: a resumable digest accumulator over the bytes
//! before the nonce insertion point, completed per attempt with the nonce
//! text, finalized, framed with two fixed version bytes, and rendered as a
//! checksummed Base58 identifier.

use blake2::Digest;
use vstd::prelude::*;
use vstd::slice::slice_subrange;
use vstd::utf8::encode_utf8;
use vstd::utf8::is_ascii_chars;

verus! {

/// A resumable cryptographic digest accumulator. It is duplicated, never
/// rewound: the only operations are feeding more bytes and finalizing.
#[verifier::external_body]
pub struct PrefixDigest {
    inner: blake2::Blake2b<blake2::digest::consts::U32>,
}

/// The bytes an accumulator has been fed so far.
pub uninterp spec fn digest_fed(d: PrefixDigest) -> Seq<u8>;

/// The 32-byte BLAKE2b digest of a byte sequence.
pub uninterp spec fn blake2b256_of(bytes: Seq<u8>) -> Seq<u8>;

/// The Base58Check rendering of a byte sequence: a 4-byte double-SHA-256
/// checksum appended, then base-58 encoding of the whole.
pub uninterp spec fn base58check_of(bytes: Seq<u8>) -> Seq<char>;

/// Relies on blake2's `Digest::new`: a fresh accumulator has been fed
/// nothing.
#[verifier::external_body]
pub fn digest_new() -> (d: PrefixDigest)
    ensures
        digest_fed(d) == Seq::<u8>::empty(),
{
    PrefixDigest { inner: blake2::Blake2b::new() }
}

/// Relies on blake2's `Digest::update`: it appends the given data to the
/// bytes already fed.
#[verifier::external_body]
pub fn digest_update(d: &mut PrefixDigest, data: &[u8])
    ensures
        digest_fed(*final(d)) == digest_fed(*old(d)) + data@,
{
    d.inner.update(data);
}

/// Relies on `Clone` for blake2's hasher: the copy has been fed exactly the
/// same bytes and evolves independently afterwards.
#[verifier::external_body]
pub fn digest_dup(d: &PrefixDigest) -> (r: PrefixDigest)
    ensures
        digest_fed(r) == digest_fed(*d),
{
    PrefixDigest { inner: d.inner.clone() }
}

/// Relies on blake2's `Digest::finalize`: the digest of exactly the fed
/// bytes, 32 bytes wide for this output-size parameter.
#[verifier::external_body]
pub fn digest_finalize(d: PrefixDigest) -> (r: Vec<u8>)
    ensures
        r@ == blake2b256_of(digest_fed(d)),
        r@.len() == 32,
{
    d.inner.finalize().to_vec()
}

/// Relies on bs58's checked encoding (`encode(..).with_check().into_string()`):
/// the Base58Check text of the input bytes, drawn from the base-58 alphabet,
/// which is ASCII.
#[verifier::external_body]
pub fn bs58_check_encode(data: &Vec<u8>) -> (r: String)
    ensures
        r@ == base58check_of(data@),
        is_ascii_chars(r@),
{
    bs58::encode(data.as_slice()).with_check().into_string()
}

/// The two fixed version bytes put ahead of the digest before encoding.
pub open spec fn version_bytes() -> Seq<u8> {
    seq![2u8, 0xaau8]
}

/// The identifier obtained from an accumulator fed `prefix` and completed
/// with the UTF-8 bytes of `nonce`.
pub open spec fn identifier_of(prefix: Seq<u8>, nonce: Seq<char>) -> Seq<char> {
    base58check_of(version_bytes() + blake2b256_of(prefix + encode_utf8(nonce)))
}

/// Finalize an accumulator into its checksummed identifier: version bytes
/// ahead of the digest, then Base58Check.
pub fn finalize_identifier(d: PrefixDigest) -> (r: String)
    ensures
        r@ == base58check_of(version_bytes() + blake2b256_of(digest_fed(d))),
        is_ascii_chars(r@),
{
    let digest = digest_finalize(d);
    let mut buf: Vec<u8> = Vec::new();
    buf.push(2u8);
    buf.push(0xaau8);
    let mut i: usize = 0;
    while i < digest.len()
        invariant
            i <= digest.len(),
            buf@ == version_bytes() + digest@.take(i as int),
        decreases digest.len() - i,
    {
        buf.push(digest[i]);
        proof {
            assert(buf@ =~= version_bytes() + digest@.take(i + 1));
        }
        i += 1;
    }
    proof {
        assert(buf@ =~= version_bytes() + digest@);
    }
    bs58_check_encode(&buf)
}

/// The identifier for one attempt: the duplicated prefix accumulator is
/// completed with the nonce text and finalized.
pub fn get_hash(vanity_nonce: &str, proto_hash: PrefixDigest) -> (r: String)
    ensures
        r@ == identifier_of(digest_fed(proto_hash), vanity_nonce@),
        is_ascii_chars(r@),
{
    let mut h = proto_hash;
    digest_update(&mut h, vanity_nonce.as_bytes());
    finalize_identifier(h)
}

/// The accumulator fed with the hashed prefix of a blob: every byte after
/// the fixed 4-byte header, up to (excluding) `end`.
pub fn prefix_digest_of(data: &Vec<u8>, end: usize) -> (d: PrefixDigest)
    requires
        4 <= end <= data@.len(),
    ensures
        digest_fed(d) == data@.subrange(4, end as int),
{
    let mut d = digest_new();
    digest_update(&mut d, slice_subrange(data.as_slice(), 4, end));
    proof {
        assert(digest_fed(d) =~= data@.subrange(4, end as int));
    }
    d
}

/// The identifier the whole blob currently hashes to.
pub fn current_identifier(data: &Vec<u8>) -> (r: String)
    requires
        data@.len() >= 4,
    ensures
        r@ == base58check_of(version_bytes() + blake2b256_of(data@.skip(4))),
        is_ascii_chars(r@),
{
    let d = prefix_digest_of(data, data.len());
    proof {
        assert(data@.subrange(4, data@.len() as int) =~= data@.skip(4));
    }
    finalize_identifier(d)
}

/// Law: identifier encoding is deterministic — two attempts over the same
/// prefix bytes and the same nonce text always yield the same identifier.
pub proof fn lemma_identifier_deterministic(
    prefix_a: Seq<u8>,
    nonce_a: Seq<char>,
    prefix_b: Seq<u8>,
    nonce_b: Seq<char>,
)
    requires
        prefix_a == prefix_b,
        nonce_a == nonce_b,
    ensures
        identifier_of(prefix_a, nonce_a) == identifier_of(prefix_b, nonce_b),
{
}

} // verus!
