//! Text encodings of bytes: base64url without padding, and multibase.
//!
//! The encoders and decoders are those of the `base64ct` and `multibase`
//! crates. What they compute is named here, not defined: a proof that speaks
//! of an encoded text knows of it what the contracts below state, and no
//! more.

use base64ct::Encoding;
use vstd::prelude::*;

verus! {

/// The unpadded base64url text of `bytes`.
pub uninterp spec fn base64url(bytes: Seq<u8>) -> Seq<char>;

/// The bytes that the unpadded base64url text `text` stands for; `None`
/// where `text` is no such text.
pub uninterp spec fn base64url_decoded(text: Seq<char>) -> Option<Seq<u8>>;

/// The multibase text of `bytes` in base58btc: the base's code `z`, then
/// the digits.
pub uninterp spec fn multibase_base58btc(bytes: Seq<u8>) -> Seq<char>;

/// The bytes that the multibase text `text` stands for, in whichever base
/// its first character names; `None` where `text` is no multibase text.
pub uninterp spec fn multibase_decoded(text: Seq<char>) -> Option<Seq<u8>>;

/// `base64ct::Base64UrlUnpadded::encode_string`. The result is the
/// base64url text of `bytes`, and decoding it gives `bytes` back. The
/// encoder panics on more than `usize::MAX / 4` bytes, which `requires`
/// leaves out.
#[verifier::external_body]
pub(crate) fn encode_base64url(bytes: &[u8]) -> (text: String)
    requires
        bytes@.len() <= usize::MAX / 4,
    ensures
        text@ == base64url(bytes@),
        base64url_decoded(text@) == Some(bytes@),
{
    base64ct::Base64UrlUnpadded::encode_string(bytes)
}

/// `base64ct::Base64UrlUnpadded::decode_vec`. The result is the bytes that
/// `text` stands for, and `None` where the decoder reports an error.
#[verifier::external_body]
pub(crate) fn decode_base64url(text: &str) -> (bytes: Option<Vec<u8>>)
    ensures
        match bytes {
            Some(b) => base64url_decoded(text@) == Some(b@),
            None => base64url_decoded(text@) is None,
        },
{
    match base64ct::Base64UrlUnpadded::decode_vec(text) {
        Ok(b) => Some(b),
        Err(_) => None,
    }
}

/// `multibase::encode` with `Base::Base58Btc`. The result is the multibase
/// text of `bytes`, it begins with the code `z`, and decoding it gives
/// `bytes` back.
#[verifier::external_body]
pub(crate) fn encode_base58btc(bytes: &[u8]) -> (text: String)
    ensures
        text@ == multibase_base58btc(bytes@),
        text@.len() >= 1,
        text@[0] == 'z',
        multibase_decoded(text@) == Some(bytes@),
{
    multibase::encode(multibase::Base::Base58Btc, bytes)
}

/// `multibase::decode`, without the base that it also reports. The result
/// is the bytes that `text` stands for, and `None` where the decoder
/// reports an error.
#[verifier::external_body]
pub(crate) fn decode_multibase(text: &str) -> (bytes: Option<Vec<u8>>)
    ensures
        match bytes {
            Some(b) => multibase_decoded(text@) == Some(b@),
            None => multibase_decoded(text@) is None,
        },
{
    match multibase::decode(text) {
        Ok((_, b)) => Some(b),
        Err(_) => None,
    }
}

} // verus!
