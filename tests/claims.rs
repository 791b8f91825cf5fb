use jwt_cli::algorithms::{translate_algorithm, AlgorithmFamily, SupportedAlgorithms};
use jwt_cli::builder::{build_claims, ClaimError, ClaimOptions};
use jwt_cli::claims::{is_payload_item, is_timestamp_or_duration, PayloadItem};
use jwt_cli::numbers::{parse_i64, parse_u64};
use jwt_cli::payload::Payload;
use jwt_cli::text::{count_occurrences, find_char};
use serde_json::Value;

fn options() -> ClaimOptions {
    ClaimOptions {
        no_iat: false,
        expires: None,
        not_before: None,
        issuer: None,
        subject: None,
        audience: None,
        jwt_id: None,
        payloads: vec![],
        json: None,
    }
}

fn claim<'a>(p: &'a Payload, name: &str) -> Option<&'a Value> {
    p.0.iter().find(|i| i.0 == name).map(|i| &i.1)
}

#[test]
fn algorithm_names_are_read() {
    assert_eq!(SupportedAlgorithms::from_string("HS384"), SupportedAlgorithms::HS384);
    assert_eq!(SupportedAlgorithms::from_string("PS512"), SupportedAlgorithms::PS512);
    assert_eq!(SupportedAlgorithms::from_string("ES384"), SupportedAlgorithms::ES384);
    assert_eq!(SupportedAlgorithms::from_string("nonsense"), SupportedAlgorithms::HS256);
    assert_eq!(SupportedAlgorithms::from_string("hs384"), SupportedAlgorithms::HS256);
}

#[test]
fn algorithm_families_and_library_names() {
    assert_eq!(SupportedAlgorithms::HS512.family(), AlgorithmFamily::Hmac);
    assert_eq!(SupportedAlgorithms::PS256.family(), AlgorithmFamily::Rsa);
    assert_eq!(SupportedAlgorithms::RS384.family(), AlgorithmFamily::Rsa);
    assert_eq!(SupportedAlgorithms::ES256.family(), AlgorithmFamily::Ecdsa);
    assert_eq!(translate_algorithm(SupportedAlgorithms::RS512), jsonwebtoken::Algorithm::RS512);
    assert_eq!(translate_algorithm(SupportedAlgorithms::ES384), jsonwebtoken::Algorithm::ES384);
}

#[test]
fn unsigned_integers_are_parsed() {
    assert_eq!(parse_u64("42"), Some(42));
    assert_eq!(parse_u64("+5"), Some(5));
    assert_eq!(parse_u64("0007"), Some(7));
    assert_eq!(parse_u64("18446744073709551615"), Some(u64::MAX));
    assert_eq!(parse_u64("18446744073709551616"), None);
    assert_eq!(parse_u64(""), None);
    assert_eq!(parse_u64("+"), None);
    assert_eq!(parse_u64("-1"), None);
    assert_eq!(parse_u64("1a"), None);
    assert_eq!(parse_u64(" 1"), None);
}

#[test]
fn signed_integers_are_parsed() {
    assert_eq!(parse_i64("-9223372036854775808"), Some(i64::MIN));
    assert_eq!(parse_i64("9223372036854775807"), Some(i64::MAX));
    assert_eq!(parse_i64("9223372036854775808"), None);
    assert_eq!(parse_i64("-12"), Some(-12));
    assert_eq!(parse_i64("+12"), Some(12));
    assert_eq!(parse_i64("-"), None);
    assert_eq!(parse_i64("--1"), None);
}

#[test]
fn characters_are_found_and_counted() {
    assert_eq!(find_char("a=b=c", '=', 0), Some(1));
    assert_eq!(find_char("a=b=c", '=', 2), Some(3));
    assert_eq!(find_char("abc", '=', 0), None);
    assert_eq!(count_occurrences("a=b=c", '='), 2);
    assert_eq!(count_occurrences("", '='), 0);
}

#[test]
fn payload_items_need_exactly_one_equals_sign() {
    assert!(is_payload_item("a=b".to_string()).is_ok());
    assert!(is_payload_item("a=".to_string()).is_ok());
    assert_eq!(
        is_payload_item("ab".to_string()),
        Err("payloads must have a key and value in the form key=value".to_string())
    );
    assert!(is_payload_item("a=b=c".to_string()).is_err());
}

#[test]
fn timestamps_and_durations_are_accepted() {
    assert!(is_timestamp_or_duration("1234".to_string()).is_ok());
    assert!(is_timestamp_or_duration("-5".to_string()).is_ok());
    assert!(is_timestamp_or_duration("+30 min".to_string()).is_ok());
    assert!(is_timestamp_or_duration("2h".to_string()).is_ok());
    assert_eq!(
        is_timestamp_or_duration("soon-ish".to_string()),
        Err("must be a UNIX timestamp or systemd.time string".to_string())
    );
}

#[test]
fn pair_values_are_read_as_json_first() {
    assert_eq!(
        PayloadItem::split_payload_item("n=42"),
        Some(PayloadItem("n".to_string(), Value::from(42)))
    );
    assert_eq!(
        PayloadItem::split_payload_item("flag=true"),
        Some(PayloadItem("flag".to_string(), Value::Bool(true)))
    );
    assert_eq!(
        PayloadItem::split_payload_item("word=hello"),
        Some(PayloadItem("word".to_string(), Value::String("hello".to_string())))
    );
    assert_eq!(
        PayloadItem::from_string(Some("list=[1,2]")),
        Some(PayloadItem("list".to_string(), serde_json::from_str("[1,2]").unwrap()))
    );
    assert_eq!(PayloadItem::from_string(None), None);
}

#[test]
fn pair_without_equals_or_unreadable_value_gives_no_claim() {
    assert_eq!(PayloadItem::split_payload_item("novalue"), None);
    assert_eq!(PayloadItem::split_payload_item("q=a\"b"), None);
    assert_eq!(
        PayloadItem::split_payload_item("a=b=c"),
        Some(PayloadItem("a".to_string(), Value::String("b".to_string())))
    );
}

#[test]
fn named_values_fall_back_to_strings() {
    assert_eq!(
        PayloadItem::from_string_with_name(Some("admin"), "role"),
        Some(PayloadItem("role".to_string(), Value::String("admin".to_string())))
    );
    assert_eq!(
        PayloadItem::from_string_with_name(Some("{\"a\":1}"), "obj"),
        Some(PayloadItem("obj".to_string(), serde_json::from_str("{\"a\":1}").unwrap()))
    );
    assert_eq!(PayloadItem::from_string_with_name(None, "iss"), None);
}

#[test]
fn expiry_thirty_minutes_after_now() {
    let item = PayloadItem::from_timestamp_with_name(Some("+30 min"), "exp", 1_600_000_000).unwrap();
    assert_eq!(item.0, "exp");
    assert!(item.1.is_u64());
    assert_eq!(item.1, Value::from(1_600_001_800u64));
}

#[test]
fn timestamps_are_taken_as_they_are() {
    assert_eq!(
        PayloadItem::from_timestamp_with_name(Some("1700000000"), "nbf", 5),
        Some(PayloadItem("nbf".to_string(), Value::from(1_700_000_000u64)))
    );
    assert_eq!(
        PayloadItem::from_timestamp_with_name(Some("2h"), "nbf", 100),
        Some(PayloadItem("nbf".to_string(), Value::from(7300u64)))
    );
}

#[test]
fn unreadable_or_overflowing_times_give_no_claim() {
    assert_eq!(PayloadItem::from_timestamp_with_name(Some("whenever"), "exp", 100), None);
    assert_eq!(PayloadItem::from_timestamp_with_name(Some("1h"), "exp", u64::MAX), None);
    assert_eq!(PayloadItem::from_timestamp_with_name(None, "exp", 100), None);
}

#[test]
fn later_claims_overwrite_earlier_ones() {
    let p = Payload::from_payloads(vec![
        PayloadItem("a".to_string(), Value::from(1)),
        PayloadItem("b".to_string(), Value::from(2)),
        PayloadItem("a".to_string(), Value::from(3)),
    ]);
    assert_eq!(p.0.len(), 2);
    assert_eq!(claim(&p, "a"), Some(&Value::from(3)));
    assert_eq!(claim(&p, "b"), Some(&Value::from(2)));
    assert_eq!(Payload::from_payloads(vec![]).0.len(), 0);
}

#[test]
fn time_claims_are_rendered_as_dates() {
    let mut p = Payload::from_payloads(vec![
        PayloadItem("iat".to_string(), Value::from(0)),
        PayloadItem("exp".to_string(), Value::from(1_600_000_000)),
        PayloadItem("nbf".to_string(), Value::String("later".to_string())),
        PayloadItem("sub".to_string(), Value::from(42)),
    ]);
    p.convert_timestamps();
    assert_eq!(claim(&p, "iat"), Some(&Value::String("1970-01-01T00:00:00+00:00".to_string())));
    assert_eq!(claim(&p, "exp"), Some(&Value::String("2020-09-13T12:26:40+00:00".to_string())));
    assert_eq!(claim(&p, "nbf"), Some(&Value::String("later".to_string())));
    assert_eq!(claim(&p, "sub"), Some(&Value::from(42)));
}

#[test]
fn iat_is_now_unless_left_out() {
    let with = build_claims(&options(), 1000).unwrap();
    assert_eq!(claim(&with, "iat"), Some(&Value::from(1000u64)));
    let mut o = options();
    o.no_iat = true;
    let without = build_claims(&o, 1000).unwrap();
    assert_eq!(claim(&without, "iat"), None);
    assert_eq!(without.0.len(), 0);
}

#[test]
fn standard_claims_are_built() {
    let mut o = options();
    o.expires = Some("+30 min".to_string());
    o.not_before = Some("10".to_string());
    o.issuer = Some("me".to_string());
    o.subject = Some("42".to_string());
    o.audience = Some("you".to_string());
    o.jwt_id = Some("id-1".to_string());
    let p = build_claims(&o, 1000).unwrap();
    assert_eq!(claim(&p, "exp"), Some(&Value::from(2800u64)));
    assert_eq!(claim(&p, "nbf"), Some(&Value::from(10u64)));
    assert_eq!(claim(&p, "iss"), Some(&Value::String("me".to_string())));
    assert_eq!(claim(&p, "sub"), Some(&Value::from(42)));
    assert_eq!(claim(&p, "aud"), Some(&Value::String("you".to_string())));
    assert_eq!(claim(&p, "jti"), Some(&Value::String("id-1".to_string())));
    assert_eq!(p.0.len(), 7);
}

#[test]
fn pairs_and_json_object_take_precedence() {
    let mut o = options();
    o.issuer = Some("me".to_string());
    o.payloads = vec!["iss=pair".to_string(), "role=admin".to_string(), "n=1".to_string()];
    o.json = Some("{\"n\":2,\"extra\":[true]}\n".to_string());
    let p = build_claims(&o, 7).unwrap();
    assert_eq!(claim(&p, "iss"), Some(&Value::String("pair".to_string())));
    assert_eq!(claim(&p, "role"), Some(&Value::String("admin".to_string())));
    assert_eq!(claim(&p, "n"), Some(&Value::from(2)));
    assert_eq!(claim(&p, "extra"), Some(&serde_json::from_str::<Value>("[true]").unwrap()));
    assert_eq!(claim(&p, "iat"), Some(&Value::from(7u64)));
}

#[test]
fn json_that_is_not_an_object_is_refused() {
    let mut o = options();
    o.json = Some("[1, 2]".to_string());
    assert!(matches!(build_claims(&o, 7), Err(ClaimError::InvalidJson)));
    o.json = Some("{not json".to_string());
    assert!(matches!(build_claims(&o, 7), Err(ClaimError::InvalidJson)));
}
