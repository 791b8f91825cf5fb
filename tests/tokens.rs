use jwt_cli::algorithms::SupportedAlgorithms;
use jwt_cli::builder::{build_claims, ClaimOptions};
use jwt_cli::keys::{
    decoding_key_from_secret, encoding_key_from_secret, jwk_pem_from, key_format, key_format_from,
    key_source, select_jwk, KeyError, KeyFormat, KeySource,
};
use jwt_cli::payload::Payload;
use jwt_cli::report::{failure_kind, failure_message, FailureKind};
use jwt_cli::token::{create_header, decode_token, encode_token, DecodeError, EncodeError};
use serde_json::Value;

fn options() -> ClaimOptions {
    ClaimOptions {
        no_iat: false,
        expires: None,
        not_before: None,
        issuer: None,
        subject: None,
        audience: None,
        jwt_id: None,
        payloads: vec![],
        json: None,
    }
}

fn claim<'a>(p: &'a Payload, name: &str) -> Option<&'a Value> {
    p.0.iter().find(|i| i.0 == name).map(|i| &i.1)
}

fn now() -> u64 {
    chrono::Utc::now().timestamp() as u64
}

const JWK_SET: &str = r#"{"keys":[{"kty":"oct","kid":"a","k":"AAAA"},{"kty":"oct","kid":"b","k":"BBBB"}]}"#;

#[test]
fn secrets_name_files_with_at_sign() {
    assert_eq!(key_source("@/tmp/key.pem"), KeySource::File("/tmp/key.pem".to_string()));
    assert_eq!(key_source("plain"), KeySource::Literal(b"plain".to_vec()));
    assert_eq!(key_source(""), KeySource::Literal(vec![]));
}

#[test]
fn key_format_follows_choice_then_extension() {
    assert_eq!(key_format("@key.der", None), KeyFormat::DER);
    assert_eq!(key_format("@key.jwk", None), KeyFormat::JWK);
    assert_eq!(key_format("@key.cer", None), KeyFormat::PEM);
    assert_eq!(key_format("@key", None), KeyFormat::PEM);
    assert_eq!(key_format("key.der", None), KeyFormat::PEM);
    assert_eq!(key_format("@key.der", Some("jwk")), KeyFormat::JWK);
    assert_eq!(key_format("@key.jwk", Some("pem")), KeyFormat::PEM);
    assert_eq!(key_format("secret", Some("der")), KeyFormat::DER);
    assert_eq!(key_format("secret", Some("xml")), KeyFormat::PEM);
    assert_eq!(key_format_from(true, Some("jwk"), None), KeyFormat::JWK);
    assert_eq!(key_format_from(false, Some("jwk"), None), KeyFormat::PEM);
}

#[test]
fn jwk_set_entry_is_chosen_by_kid() {
    let chosen = select_jwk(JWK_SET, Some("b")).unwrap();
    let v: Value = serde_json::from_str(&chosen).unwrap();
    assert_eq!(v["kid"], Value::String("b".to_string()));
    assert_eq!(v["k"], Value::String("BBBB".to_string()));
    let first: Value = serde_json::from_str(&select_jwk(JWK_SET, Some("a")).unwrap()).unwrap();
    assert_eq!(first["k"], Value::String("AAAA".to_string()));
}

#[test]
fn jwk_set_without_matching_kid_fails() {
    assert!(matches!(select_jwk(JWK_SET, Some("c")), Err(KeyError::KeyNotFound)));
    assert!(matches!(select_jwk(JWK_SET, None), Err(KeyError::KeyNotFound)));
    assert!(matches!(select_jwk("not json", Some("a")), Err(KeyError::InvalidJson)));
}

#[test]
fn single_jwk_is_used_as_it_is() {
    let doc = r#"{"kty":"oct","kid":"x","k":"AAAA"}"#;
    assert_eq!(select_jwk(doc, Some("other")).unwrap(), doc);
    assert_eq!(select_jwk(doc, None).unwrap(), doc);
}

#[test]
fn symmetric_jwk_has_no_pem() {
    let doc = r#"{"kty":"oct","k":"AAAA"}"#;
    assert!(matches!(jwk_pem_from(doc.as_bytes(), None), Err(KeyError::MalformedJwk)));
    assert!(matches!(jwk_pem_from(b"{}", None), Err(KeyError::MalformedJwk)));
    assert!(matches!(jwk_pem_from(&[0xff, 0xfe], None), Err(KeyError::InvalidJson)));
    assert!(matches!(
        encoding_key_from_secret(SupportedAlgorithms::ES256, doc.as_bytes(), KeyFormat::JWK),
        Err(KeyError::MalformedJwk)
    ));
}

#[test]
fn hmac_keys_ignore_the_format() {
    assert!(encoding_key_from_secret(SupportedAlgorithms::HS256, b"s", KeyFormat::JWK).is_ok());
    assert!(decoding_key_from_secret(SupportedAlgorithms::HS512, b"s", KeyFormat::DER, None).is_ok());
}

#[test]
fn bad_pem_is_rejected() {
    assert!(matches!(
        encoding_key_from_secret(SupportedAlgorithms::RS256, b"not a key", KeyFormat::PEM),
        Err(KeyError::Rejected(_))
    ));
    assert!(matches!(
        decoding_key_from_secret(SupportedAlgorithms::ES256, b"not a key", KeyFormat::PEM, None),
        Err(KeyError::Rejected(_))
    ));
}

#[test]
fn header_carries_algorithm_and_kid() {
    let h = create_header(SupportedAlgorithms::HS384, Some("k1"));
    assert_eq!(h.alg, jsonwebtoken::Algorithm::HS384);
    assert_eq!(h.kid, Some("k1".to_string()));
    assert_eq!(h.typ, Some("JWT".to_string()));
    assert_eq!(h.cty, None);
    assert_eq!(h.jku, None);
    assert_eq!(h.x5u, None);
    assert_eq!(h.x5t, None);
    assert_eq!(create_header(SupportedAlgorithms::ES256, None).kid, None);
}

#[test]
fn hmac_tokens_round_trip() {
    for alg in [SupportedAlgorithms::HS256, SupportedAlgorithms::HS384, SupportedAlgorithms::HS512] {
        let mut o = options();
        o.payloads = vec!["role=admin".to_string(), "n=7".to_string()];
        o.expires = Some("+1h".to_string());
        let t = now();
        let token = encode_token(alg, Some("kid-1"), &o, t, b"secret", KeyFormat::PEM).unwrap();
        let built = build_claims(&o, t).unwrap();
        let out = decode_token(&token, alg, Some(b"secret"), KeyFormat::PEM, false, false);
        let verified = out.verified.unwrap();
        assert_eq!(verified.claims.0.len(), built.0.len());
        for item in &built.0 {
            assert_eq!(claim(&verified.claims, &item.0), Some(&item.1));
        }
        assert_eq!(verified.header.kid, Some("kid-1".to_string()));
        assert_eq!(out.unverified.unwrap().claims, verified.claims);
    }
}

#[test]
fn declared_algorithm_must_match_token() {
    let token = encode_token(SupportedAlgorithms::HS256, None, &options(), now(), b"k", KeyFormat::PEM)
        .unwrap();
    let out = decode_token(&token, SupportedAlgorithms::HS384, Some(b"k"), KeyFormat::PEM, false, false);
    let err = out.verified.unwrap_err();
    assert_eq!(failure_kind(&err), FailureKind::InvalidAlgorithm);
    assert!(out.unverified.is_ok());
}

#[test]
fn wrong_secret_fails_verification() {
    let token = encode_token(SupportedAlgorithms::HS256, None, &options(), now(), b"k", KeyFormat::PEM)
        .unwrap();
    let out = decode_token(&token, SupportedAlgorithms::HS256, Some(b"other"), KeyFormat::PEM, false, false);
    assert_eq!(failure_kind(&out.verified.unwrap_err()), FailureKind::InvalidSignature);
}

#[test]
fn role_and_subject_scenario() {
    let mut o = options();
    o.payloads = vec!["role=admin".to_string(), "sub=42".to_string()];
    o.expires = Some("+30 min".to_string());
    let token = encode_token(SupportedAlgorithms::HS256, None, &o, now(), b"foo", KeyFormat::PEM).unwrap();
    let out = decode_token(&token, SupportedAlgorithms::HS256, Some(b"foo"), KeyFormat::PEM, false, false);
    let v = out.verified.unwrap();
    assert_eq!(claim(&v.claims, "role"), Some(&Value::String("admin".to_string())));
    assert_eq!(claim(&v.claims, "sub"), Some(&Value::from(42)));
    let iat = claim(&v.claims, "iat").unwrap().as_u64().unwrap();
    let exp = claim(&v.claims, "exp").unwrap().as_u64().unwrap();
    assert_eq!(exp, iat + 1800);
}

#[test]
fn empty_secret_skips_verification() {
    let token = encode_token(SupportedAlgorithms::HS256, None, &options(), now(), b"k", KeyFormat::PEM)
        .unwrap();
    let cut = token.rfind('.').unwrap();
    let garbage = format!("{}.AAAA", &token[..cut]);
    let out = decode_token(&garbage, SupportedAlgorithms::HS512, None, KeyFormat::PEM, false, false);
    assert!(out.verified.is_ok());
    assert!(out.unverified.is_ok());
    let bad = decode_token("not-a-token", SupportedAlgorithms::HS256, None, KeyFormat::PEM, false, false);
    assert!(matches!(bad.verified, Err(DecodeError::Token(_))));
    assert!(bad.unverified.is_err());
}

#[test]
fn expired_tokens_are_shown_but_not_accepted() {
    let mut o = options();
    o.expires = Some("1000".to_string());
    let token = encode_token(SupportedAlgorithms::HS256, None, &o, 500, b"k", KeyFormat::PEM).unwrap();
    let out = decode_token(&token, SupportedAlgorithms::HS256, Some(b"k"), KeyFormat::PEM, false, true);
    assert_eq!(failure_kind(&out.verified.unwrap_err()), FailureKind::ExpiredSignature);
    let shown = out.unverified.unwrap();
    assert_eq!(
        claim(&shown.claims, "exp"),
        Some(&Value::String("1970-01-01T00:16:40+00:00".to_string()))
    );
    let ignored = decode_token(&token, SupportedAlgorithms::HS256, Some(b"k"), KeyFormat::PEM, true, false);
    let v = ignored.verified.unwrap();
    assert_eq!(claim(&v.claims, "exp"), Some(&Value::from(1000u64)));
}

#[test]
fn unknown_kid_in_jwk_set_is_a_key_error() {
    let mut o = options();
    o.no_iat = true;
    let token = encode_token(SupportedAlgorithms::HS256, Some("c"), &o, now(), b"k", KeyFormat::PEM).unwrap();
    let out = decode_token(&token, SupportedAlgorithms::RS256, Some(JWK_SET.as_bytes()), KeyFormat::JWK, false, false);
    let err = out.verified.unwrap_err();
    assert!(matches!(err, DecodeError::Key(KeyError::KeyNotFound)));
    assert_eq!(failure_kind(&err), FailureKind::InvalidSignature);
}

#[test]
fn invalid_json_claims_stop_encoding() {
    let mut o = options();
    o.json = Some("3".to_string());
    assert!(matches!(
        encode_token(SupportedAlgorithms::HS256, None, &o, 1, b"k", KeyFormat::PEM),
        Err(EncodeError::Claims(_))
    ));
    assert!(matches!(
        encode_token(SupportedAlgorithms::RS256, None, &options(), 1, b"nope", KeyFormat::PEM),
        Err(EncodeError::Key(_))
    ));
}

#[test]
fn failure_messages() {
    assert_eq!(failure_message(FailureKind::InvalidToken), Some("The JWT provided is invalid"));
    assert_eq!(
        failure_message(FailureKind::InvalidAlgorithm),
        Some("The JWT provided has a different signing algorithm than the one you provided")
    );
    assert_eq!(
        failure_message(FailureKind::ImmatureSignature),
        Some("The `nbf` claim is in the future which isn't allowed")
    );
    assert_eq!(failure_message(FailureKind::Other), None);
}

const EC_PUBLIC: &str = r#"{"kty":"EC","crv":"P-256","x":"MKBCTNIcKUSDii11ySs3526iDZ8AiTo7Tu6KPAqv7D4","y":"4Etl6SRW2YiLUrN5vfvVHuhp7x8PxltmWWlbbM4IFyM","kid":"b"}"#;
const EC_PRIVATE: &str = r#"{"kty":"EC","crv":"P-256","x":"MKBCTNIcKUSDii11ySs3526iDZ8AiTo7Tu6KPAqv7D4","y":"4Etl6SRW2YiLUrN5vfvVHuhp7x8PxltmWWlbbM4IFyM","d":"870MB6gfuTJ4HtUnUvYMyJpr5eUZNP4Bk43bVdj3eAE"}"#;

#[test]
fn ec_jwk_becomes_pem() {
    let pem = jwk_pem_from(EC_PUBLIC.as_bytes(), None).unwrap();
    let text = String::from_utf8(pem).unwrap();
    assert!(text.starts_with("-----BEGIN PUBLIC KEY-----"));
    assert!(decoding_key_from_secret(SupportedAlgorithms::ES256, EC_PUBLIC.as_bytes(), KeyFormat::JWK, None).is_ok());
}

#[test]
fn ec_jwk_set_signs_and_verifies_by_kid() {
    let set = format!(
        r#"{{"keys":[{{"kty":"EC","crv":"P-256","kid":"a","x":"AAAA","y":"AAAA"}},{}]}}"#,
        EC_PUBLIC
    );
    let mut o = options();
    o.expires = Some("+1h".to_string());
    let token = encode_token(SupportedAlgorithms::ES256, Some("b"), &o, now(), EC_PRIVATE.as_bytes(), KeyFormat::JWK)
        .unwrap();
    let out = decode_token(&token, SupportedAlgorithms::ES256, Some(set.as_bytes()), KeyFormat::JWK, false, false);
    assert_eq!(out.verified.unwrap().header.kid, Some("b".to_string()));
}

#[test]
fn encoded_token_reads_back_header_and_claim_names() {
    let mut o = options();
    o.no_iat = true;
    o.payloads = vec!["role=admin".to_string()];
    let token = encode_token(SupportedAlgorithms::HS512, Some("k9"), &o, 10, b"s", KeyFormat::DER).unwrap();
    let read = jsonwebtoken::dangerous_insecure_decode::<std::collections::BTreeMap<String, Value>>(&token).unwrap();
    assert_eq!(read.header.alg, jsonwebtoken::Algorithm::HS512);
    assert_eq!(read.header.kid, Some("k9".to_string()));
    assert_eq!(read.claims.keys().cloned().collect::<Vec<_>>(), vec!["role".to_string()]);
}
