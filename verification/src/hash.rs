//! Hashes as multihash texts: a SHA-256 digest behind its multihash code,
//! written in base58btc.

use sha2::Digest;
use vstd::prelude::*;

use crate::encoding::{encode_base58btc, multibase_base58btc};

verus! {

/// The length of a SHA-256 digest, in bytes.
pub const DIGEST_LENGTH: usize = 32;

/// The multihash code of SHA-256 with a digest of 32 bytes.
pub const SHA256_CODE: [u8; 2] = [0x12, 0x20];

/// The SHA-256 digest of `bytes`.
pub uninterp spec fn sha256(bytes: Seq<u8>) -> Seq<u8>;

/// `sha2::Sha256::digest`: the SHA-256 digest of `bytes`, which is 32 bytes
/// long.
#[verifier::external_body]
pub(crate) fn digest(bytes: &[u8]) -> (d: Vec<u8>)
    ensures
        d@ == sha256(bytes@),
        d@.len() == DIGEST_LENGTH,
{
    sha2::Sha256::digest(bytes).to_vec()
}

/// The multihash text of `bytes`: the code of SHA-256, then the digest, in
/// base58btc.
pub open spec fn multihash(bytes: Seq<u8>) -> Seq<char> {
    multibase_base58btc(SHA256_CODE@ + sha256(bytes))
}

/// The multihash text of the UTF-8 form of `text`.
pub open spec fn text_hash(text: Seq<char>) -> Seq<char> {
    multihash(vstd::utf8::encode_utf8(text))
}

/// The multihash text of `bytes`.
pub fn hash(bytes: &[u8]) -> (h: String)
    ensures
        h@ == multihash(bytes@),
        h@.len() >= 1,
        h@[0] == 'z',
{
    let d = digest(bytes);
    let mut coded: Vec<u8> = Vec::new();
    coded.push(SHA256_CODE[0]);
    coded.push(SHA256_CODE[1]);
    assert(coded@ == SHA256_CODE@);
    let n: usize = d.len();
    let mut i: usize = 0;
    while i < n
        invariant
            n == d@.len(),
            i <= n,
            coded@ == SHA256_CODE@ + d@.take(i as int),
        decreases n - i,
    {
        coded.push(d[i]);
        i += 1;
        assert(d@.take(i as int) == d@.take(i - 1).push(d@[i - 1]));
    }
    assert(d@.take(n as int) == d@);
    encode_base58btc(coded.as_slice())
}

/// The multihash text of the UTF-8 form of `text`.
pub fn hash_text(text: &str) -> (h: String)
    ensures
        h@ == text_hash(text@),
        h@.len() >= 1,
        h@[0] == 'z',
{
    hash(text.as_bytes())
}

} // verus!
