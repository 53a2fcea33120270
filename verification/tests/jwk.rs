//! Tests for JSON Web Keys and the multibase form of public keys.

use credibil_did::error::Error;
use credibil_did::json::json_of;
use credibil_did::jwk::{
    decode_multikey, encode_multikey, Curve, KeyAlgorithm, KeyType, KeyUse, PublicKeyJwk,
    ED25519_CODEC, X25519_CODEC,
};

fn key_of(first: u8) -> Vec<u8> {
    (0..32u8).map(|i| first.wrapping_add(i.wrapping_mul(7))).collect()
}

fn jwk_with_x(x: &str) -> PublicKeyJwk {
    PublicKeyJwk {
        kid: None,
        kty: KeyType::Okp,
        crv: Curve::Ed25519,
        x: x.to_string(),
        y: None,
        alg: None,
        use_: None,
    }
}

#[test]
fn jwk_from_bytes_encodes_the_key() {
    let jwk = PublicKeyJwk::from_bytes(&[0u8; 32]).expect("should convert");
    assert_eq!(jwk, jwk_with_x("AAAAAAAAAAAAAAAAAAAAAAAAAAAAAAAAAAAAAAAAAAA"));
    let jwk = PublicKeyJwk::from_bytes(&[0xfb, 0xff]).expect("should convert");
    assert_eq!(jwk.x, "-_8");
    let jwk = PublicKeyJwk::from_bytes(&[]).expect("should convert");
    assert_eq!(jwk.x, "");
}

#[test]
fn jwk_round_trip() {
    let jwk = jwk_with_x("q6rjRnEH_XK72jvB8FNBJtOl9_gDs6NW49cAz6p2sW4");
    let converted =
        PublicKeyJwk::from_multibase("z6Mkr1NtupNezZtcUAMxJ79HPex6ZTR9RnGh8xfV257ZQdss")
            .expect("should convert");
    assert_eq!(jwk, converted);
    let multi = converted.to_multibase().expect("should convert");
    assert_eq!("z6Mkr1NtupNezZtcUAMxJ79HPex6ZTR9RnGh8xfV257ZQdss", multi);
}

#[test]
fn jwk_from_multibase() {
    let jwk = PublicKeyJwk::from_multibase("z6Mkj8Jr1rg3YjVWWhg7ahEYJibqhjBgZt1pDCbT4Lv7D4HX")
        .expect("should convert");
    assert_eq!(jwk_with_x("RW-Q0fO2oECyLs4rZDZZo4p6b7pu7UF2eu9JBsktDco"), jwk);
}

#[test]
fn jwk_from_multibase_takes_an_x25519_key() {
    let mut coded = X25519_CODEC.to_vec();
    coded.extend_from_slice(&key_of(9));
    let text = multibase::encode(multibase::Base::Base58Btc, coded);
    let jwk = PublicKeyJwk::from_multibase(&text).expect("should convert");
    assert_eq!(jwk, PublicKeyJwk::from_bytes(&key_of(9)).unwrap());
}

#[test]
fn jwk_from_multibase_takes_another_base() {
    let mut coded = ED25519_CODEC.to_vec();
    coded.extend_from_slice(&key_of(3));
    let text = multibase::encode(multibase::Base::Base64Url, coded);
    assert!(text.starts_with('u'));
    let jwk = PublicKeyJwk::from_multibase(&text).expect("should convert");
    assert_eq!(jwk, PublicKeyJwk::from_bytes(&key_of(3)).unwrap());
}

#[test]
fn jwk_from_multibase_rejects_what_is_no_multibase() {
    for text in ["", "!abc", "z0OIl", "zCn8eVZg\u{e4}"] {
        match PublicKeyJwk::from_multibase(text) {
            Err(Error::Other(message)) => assert_eq!(message, "issue decoding key"),
            other => panic!("expected Other for {text:?}, got {other:?}"),
        }
    }
}

#[test]
fn jwk_from_multibase_rejects_a_wrong_length() {
    let short = multibase::encode(multibase::Base::Base58Btc, [0xed, 0x01, 1, 2, 3]);
    let empty = multibase::encode(multibase::Base::Base58Btc, []);
    let one = multibase::encode(multibase::Base::Base58Btc, [0xed]);
    let mut long = ED25519_CODEC.to_vec();
    long.extend_from_slice(&[7u8; 33]);
    let long = multibase::encode(multibase::Base::Base58Btc, long);
    for text in [short, empty, one, long] {
        match PublicKeyJwk::from_multibase(&text) {
            Err(Error::Other(message)) => assert_eq!(message, "key is not 32 bytes long"),
            other => panic!("expected Other for {text:?}, got {other:?}"),
        }
    }
}

#[test]
fn jwk_from_multibase_rejects_another_codec() {
    let mut coded = vec![0xe7, 0x01];
    coded.extend_from_slice(&key_of(1));
    let text = multibase::encode(multibase::Base::Base58Btc, coded);
    match PublicKeyJwk::from_multibase(&text) {
        Err(Error::Other(message)) => assert_eq!(message, "not Ed25519"),
        other => panic!("expected Other, got {other:?}"),
    }
    let mut coded = vec![0xed, 0x02];
    coded.extend_from_slice(&key_of(1));
    let text = multibase::encode(multibase::Base::Base58Btc, coded);
    assert!(PublicKeyJwk::from_multibase(&text).is_err());
}

#[test]
fn jwk_to_multibase_rejects_an_x_that_is_no_base64url() {
    for x in ["a", "+/+/", "q6rj=", "not base64"] {
        match jwk_with_x(x).to_multibase() {
            Err(Error::Other(message)) => assert_eq!(message, "issue decoding key"),
            other => panic!("expected Other for {x:?}, got {other:?}"),
        }
    }
}

#[test]
fn multikey_round_trips() {
    for first in [0u8, 1, 17, 200, 255] {
        let key = key_of(first);
        let text = encode_multikey(&key);
        assert!(text.starts_with("z6Mk"));
        assert_eq!(decode_multikey(&text), Some(key.clone()));
        let jwk = PublicKeyJwk::from_bytes(&key).unwrap();
        assert_eq!(jwk.to_multibase().unwrap(), text);
        assert_eq!(PublicKeyJwk::from_multibase(&text).unwrap(), jwk);
    }
}

#[test]
fn multikey_of_zero_key_keeps_its_leading_zeros() {
    let key = vec![0u8; 32];
    let text = encode_multikey(&key);
    assert_eq!(decode_multikey(&text), Some(key));
}

#[test]
fn multikey_decoding_rejects_other_texts() {
    assert_eq!(decode_multikey(""), None);
    assert_eq!(decode_multikey("zCn8eVZg"), None);
    assert_eq!(decode_multikey("z6Mkr1NtupNezZtcUAMxJ79HPex6ZTR9RnGh8xfV257ZQds"), None);
    let short = encode_multikey(&[1, 2, 3]);
    assert_eq!(decode_multikey(&short), None);
}

#[test]
fn thumbprint_of_an_ed25519_key() {
    let jwk = jwk_with_x("11qYAYKxCrfVS_7TyWQHOg7hcvPapiMlrwIaaPcHURo");
    assert_eq!(jwk.thumbprint(), "kPrK_qmxVWaYVA9wwBF6Iuo3vVzz7TxHCTwXBygrS4k");
    assert_eq!(
        jwk.key_id("did:web:example.com"),
        "did:web:example.com#kPrK_qmxVWaYVA9wwBF6Iuo3vVzz7TxHCTwXBygrS4k"
    );
    let mut named = jwk.clone();
    named.kid = Some("key-1".to_string());
    assert_eq!(named.thumbprint(), jwk.thumbprint());
    let mut other = jwk.clone();
    other.y = Some("AA".to_string());
    assert_ne!(other.thumbprint(), jwk.thumbprint());
}

#[test]
fn jwk_agrees_with_the_outside_jwk() {
    for first in [0u8, 1, 17, 200, 255] {
        let key = key_of(first);
        let ours = PublicKeyJwk::from_bytes(&key).unwrap();
        let theirs = credibil_infosec::PublicKeyJwk::from_bytes(&key).unwrap();
        assert_eq!(ours.x, theirs.x);
        assert_eq!(ours.kid, theirs.kid);
        assert_eq!(ours.y, theirs.y);
        assert!(theirs.alg.is_none() && theirs.use_.is_none());
        assert_eq!(theirs.kty, credibil_infosec::KeyType::Okp);
        assert_eq!(theirs.crv, credibil_infosec::Curve::Ed25519);
        let text = ours.to_multibase().unwrap();
        assert_eq!(text, theirs.to_multibase().unwrap());
        let back = credibil_infosec::PublicKeyJwk::from_multibase(&text).unwrap();
        assert_eq!(PublicKeyJwk::from_multibase(&text).unwrap().x, back.x);
    }
    let mut coded = vec![0xe7, 0x01];
    coded.extend_from_slice(&key_of(1));
    let other_codec = multibase::encode(multibase::Base::Base58Btc, coded);
    let long = multibase::encode(multibase::Base::Base58Btc, [7u8; 40]);
    for text in ["!abc", "z0OIl", other_codec.as_str(), long.as_str()] {
        assert!(credibil_infosec::PublicKeyJwk::from_multibase(text).is_err());
        assert!(PublicKeyJwk::from_multibase(text).is_err());
    }
    for x in ["a", "+/+/", "q6rj="] {
        let theirs = credibil_infosec::PublicKeyJwk { x: x.to_string(), ..Default::default() };
        assert!(theirs.to_multibase().is_err());
        assert!(jwk_with_x(x).to_multibase().is_err());
    }
}

#[test]
fn jwk_canonical_text_leaves_out_what_is_absent() {
    let jwk = jwk_with_x("abc");
    let text: String = json_of(&jwk).into_iter().collect();
    assert_eq!(text, "{\"crv\":\"Ed25519\",\"kty\":\"OKP\",\"x\":\"abc\"}");
    let full = PublicKeyJwk {
        kid: Some("k\"1".to_string()),
        kty: KeyType::Ec,
        crv: Curve::Es256K,
        x: "x".to_string(),
        y: Some("y".to_string()),
        alg: Some(KeyAlgorithm::EcdhEsA256Kw),
        use_: Some(KeyUse::Encryption),
    };
    let text: String = json_of(&full).into_iter().collect();
    assert_eq!(
        text,
        "{\"alg\":\"ECDH-ES+A256KW\",\"crv\":\"ES256K\",\"kid\":\"k\\\"1\",\"kty\":\"EC\",\
         \"use\":\"enc\",\"x\":\"x\",\"y\":\"y\"}"
    );
}
