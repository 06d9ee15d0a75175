//! Identifier derivation: SCALE encoding of the seed and its 128-bit Blake2 digest.

use vstd::prelude::*;

verus! {

/// The SCALE encoding of a `u64`: its eight bytes, least significant first.
pub open spec fn scale_u64(v: u64) -> Seq<u8> {
    seq![
        (v & 0xff) as u8,
        ((v >> 8) & 0xff) as u8,
        ((v >> 16) & 0xff) as u8,
        ((v >> 24) & 0xff) as u8,
        ((v >> 32) & 0xff) as u8,
        ((v >> 40) & 0xff) as u8,
        ((v >> 48) & 0xff) as u8,
        ((v >> 56) & 0xff) as u8,
    ]
}

/// The SCALE encoding of the triple (randomness, account, nonce bytes): the
/// 32 bytes of randomness, the account, then the nonce bytes behind their
/// one-byte compact length.
pub open spec fn seed_payload(rand: Seq<u8>, who: u64, nonce: Seq<u8>) -> Seq<u8> {
    rand + scale_u64(who) + seq![(4 * nonce.len()) as u8] + nonce
}

/// The 128-bit Blake2b digest of a byte string.
pub uninterp spec fn blake2_128_digest(data: Seq<u8>) -> Seq<u8>;

/// The number that a byte string spells, most significant byte first.
pub open spec fn bytes_to_id(s: Seq<u8>) -> u128
    decreases s.len(),
{
    if s.len() == 0 {
        0
    } else {
        (bytes_to_id(s.drop_last()) << 8) | (s.last() as u128)
    }
}

/// The identifier derived from randomness, the requesting account and a nonce.
pub open spec fn fresh_id(rand: Seq<u8>, who: u64, nonce: u64) -> u128 {
    bytes_to_id(blake2_128_digest(seed_payload(rand, who, scale_u64(nonce))))
}

/// Trusted: `parity_scale_codec::Encode::encode` on a `u64`. The codec writes
/// fixed-width integers as their little-endian bytes.
#[verifier::external_body]
pub(crate) fn encode_u64(v: u64) -> (bytes: Vec<u8>)
    ensures
        bytes@ == scale_u64(v),
{
    parity_scale_codec::Encode::encode(&v)
}

/// Trusted: `parity_scale_codec::Encode::encode` on a tuple of a byte array,
/// a `u64` and a byte vector. The codec concatenates the fields' encodings: an
/// array as its raw bytes, and a vector of fewer than 64 bytes as one length
/// byte (four times the length) followed by the bytes.
#[verifier::external_body]
pub(crate) fn encode_seed(rand: &[u8; 32], who: u64, nonce: &Vec<u8>) -> (bytes: Vec<u8>)
    requires
        nonce@.len() < 64,
    ensures
        bytes@ == seed_payload(rand@, who, nonce@),
{
    parity_scale_codec::Encode::encode(&(rand, who, nonce))
}

/// Trusted: `sp_io::hashing::blake2_128`. The digest depends on the input
/// bytes alone and is 16 bytes long.
#[verifier::external_body]
pub(crate) fn blake2_128(data: &Vec<u8>) -> (digest: [u8; 16])
    ensures
        digest@ == blake2_128_digest(data@),
{
    sp_io::hashing::blake2_128(data.as_slice())
}

/// Reads 16 bytes as one 128-bit number, most significant byte first.
pub fn id_from_bytes(bytes: &[u8; 16]) -> (id: u128)
    ensures
        id == bytes_to_id(bytes@),
{
    let mut id: u128 = 0;
    let mut i: usize = 0;
    while i < 16
        invariant
            i <= 16,
            id == bytes_to_id(bytes@.take(i as int)),
        decreases 16 - i,
    {
        proof {
            assert(bytes@.take(i + 1).drop_last() =~= bytes@.take(i as int));
        }
        id = (id << 8) | (bytes[i] as u128);
        i += 1;
    }
    proof {
        assert(bytes@.take(16) =~= bytes@);
    }
    id
}

/// Derives the identifier for a request by `who` from the host's randomness
/// and the encoded nonce.
pub(crate) fn derive_id(rand: &[u8; 32], who: u64, nonce: &Vec<u8>) -> (id: u128)
    requires
        nonce@.len() < 64,
    ensures
        id == bytes_to_id(blake2_128_digest(seed_payload(rand@, who, nonce@))),
{
    let payload = encode_seed(rand, who, nonce);
    let digest = blake2_128(&payload);
    id_from_bytes(&digest)
}

} // verus!
