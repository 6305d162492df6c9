use jsonwebtoken::{DecodingKey, EncodingKey};
use serde_json::{Number, Value};
use simple_auth::auth::claims::{AccessClaims, JwtClaim};
use simple_auth::auth::errors::ErrorKind;
use simple_auth::auth::jwt::{
    create_token, decode_token, header_as_read, Algorithm, Header, JwtFailure,
};
use simple_auth::auth::tokens::{check_time_bounds, AccessToken};

fn signing_key() -> EncodingKey {
    EncodingKey::from_secret(b"a shared test value")
}

fn verifying_key() -> DecodingKey {
    DecodingKey::from_secret(b"a shared test value")
}

fn session(id: &str) -> serde_json::Map<String, Value> {
    AccessClaims { session_id: id.to_string() }.to_json_object()
}

fn part(raw: &str, index: usize) -> String {
    let piece = raw.split('.').nth(index).unwrap();
    let engine = base64::engine::general_purpose::URL_SAFE_NO_PAD;
    String::from_utf8(base64::Engine::decode(&engine, piece).unwrap()).unwrap()
}

#[test]
fn algorithm_names() {
    let names = [
        (Algorithm::HS256, "HS256"),
        (Algorithm::HS384, "HS384"),
        (Algorithm::HS512, "HS512"),
        (Algorithm::ES256, "ES256"),
        (Algorithm::ES384, "ES384"),
        (Algorithm::RS256, "RS256"),
        (Algorithm::RS384, "RS384"),
        (Algorithm::RS512, "RS512"),
        (Algorithm::PS256, "PS256"),
        (Algorithm::PS384, "PS384"),
        (Algorithm::PS512, "PS512"),
        (Algorithm::EdDSA, "EdDSA"),
    ];
    for (algorithm, name) in names {
        assert_eq!(algorithm.name(), name);
        let known: jsonwebtoken::Algorithm = name.parse().unwrap();
        assert_eq!(format!("{:?}", known), name);
    }
}

#[test]
fn header_new_has_no_key_id() {
    assert_eq!(Header::new(Algorithm::RS256), Header { alg: Algorithm::RS256, kid: None });
    assert_eq!(
        Header::new(Algorithm::ES256).with_key_id("k1".to_string()),
        Header { alg: Algorithm::ES256, kid: Some("k1".to_string()) }
    );
    let header = Header::new(Algorithm::HS512).with_key_id("k".to_string());
    assert_eq!(header.clone(), header);
}

#[test]
fn failures_of_signing() {
    for failure in [
        JwtFailure::InvalidToken,
        JwtFailure::InvalidSignature,
        JwtFailure::InvalidAlgorithm,
        JwtFailure::Base64,
        JwtFailure::Utf8,
        JwtFailure::Other,
    ] {
        let error = failure.signing_error("why".to_string());
        assert_eq!(error.kind, ErrorKind::Signing);
        assert_eq!(error.message, "why");
    }
    let error = JwtFailure::Json.signing_error("not written".to_string());
    assert_eq!(error.kind, ErrorKind::Serialization);
    assert_eq!(error.message, "not written");
}

#[test]
fn failures_of_reading() {
    let kinds = [
        (JwtFailure::InvalidToken, ErrorKind::Malformed),
        (JwtFailure::InvalidSignature, ErrorKind::SignatureInvalid),
        (JwtFailure::InvalidAlgorithm, ErrorKind::SignatureInvalid),
        (JwtFailure::Base64, ErrorKind::Malformed),
        (JwtFailure::Json, ErrorKind::Malformed),
        (JwtFailure::Utf8, ErrorKind::Malformed),
        (JwtFailure::Other, ErrorKind::SignatureInvalid),
    ];
    for (failure, kind) in kinds {
        let error = failure.reading_error("why".to_string());
        assert_eq!(error.kind, kind);
        assert_eq!(error.message, "why");
    }
}

#[test]
fn token_carries_header_and_merged_document() {
    let claims = JwtClaim::empty().with_issuer("x".to_string()).expires_at(4_000_000_000, 5);
    let header = Header::new(Algorithm::HS256).with_key_id("k1".to_string());
    let raw = create_token(&signing_key(), &header, claims, session("s1")).unwrap();
    assert_eq!(raw.split('.').count(), 3);
    assert_eq!(part(&raw, 0), r#"{"typ":"JWT","alg":"HS256","kid":"k1"}"#);
    assert_eq!(part(&raw, 1), r#"{"exp":4000000005,"iss":"x","session_id":"s1"}"#);
}

#[test]
fn signing_is_repeatable_under_a_shared_secret() {
    let claims = JwtClaim::empty().expires_at(4_000_000_000, 5);
    let header = Header::new(Algorithm::HS256);
    let first = create_token(&signing_key(), &header, claims.clone(), session("s1")).unwrap();
    let second = create_token(&signing_key(), &header, claims, session("s1")).unwrap();
    assert_eq!(first, second);
}

#[test]
fn decode_gives_back_header_and_document() {
    let claims = JwtClaim::empty().with_audience("y".to_string()).expires_in(3600);
    let exp = claims.exp.unwrap();
    let header = Header::new(Algorithm::HS384).with_key_id("k1".to_string());
    let raw = create_token(&signing_key(), &header, claims, session("s1")).unwrap();
    let (read_header, document) = decode_token(&verifying_key(), Algorithm::HS384, &raw).unwrap();
    assert_eq!(read_header, header);
    let mut expected = serde_json::Map::new();
    expected.insert("aud".to_string(), Value::String("y".to_string()));
    expected.insert("exp".to_string(), Value::Number(Number::from(exp)));
    expected.insert("session_id".to_string(), Value::String("s1".to_string()));
    assert_eq!(document, expected);
}

#[test]
fn decode_with_another_key_is_signature_invalid() {
    let claims = JwtClaim::empty().expires_in(3600);
    let raw = create_token(&signing_key(), &Header::new(Algorithm::HS256), claims, session("s"))
        .unwrap();
    let other = DecodingKey::from_secret(b"another test value");
    let error = decode_token(&other, Algorithm::HS256, &raw).unwrap_err();
    assert_eq!(error.kind, ErrorKind::SignatureInvalid);
    assert_eq!(error.message, "InvalidSignature");
}

#[test]
fn decode_under_another_algorithm_is_signature_invalid() {
    let claims = JwtClaim::empty().expires_in(3600);
    let raw = create_token(&signing_key(), &Header::new(Algorithm::HS256), claims, session("s"))
        .unwrap();
    let error = decode_token(&verifying_key(), Algorithm::HS512, &raw).unwrap_err();
    assert_eq!(error.kind, ErrorKind::SignatureInvalid);
    let error = decode_token(&verifying_key(), Algorithm::RS256, &raw).unwrap_err();
    assert_eq!(error.kind, ErrorKind::SignatureInvalid);
}

#[test]
fn decode_of_text_that_is_no_token_is_malformed() {
    for raw in ["", "abc", "a.b", "a.b.c.d", "....", "not base64!.e30.c2ln"] {
        let error = decode_token(&verifying_key(), Algorithm::HS256, raw).unwrap_err();
        assert_eq!(error.kind, ErrorKind::Malformed);
    }
}

#[test]
fn decode_token_does_not_look_at_the_time() {
    let claims = JwtClaim { nbf: Some(u64::MAX), ..JwtClaim::empty().expires_at(1_000_000, 0) };
    let raw = create_token(&signing_key(), &Header::new(Algorithm::HS256), claims.clone(), session("s"))
        .unwrap();
    let (_, document) = decode_token(&verifying_key(), Algorithm::HS256, &raw).unwrap();
    assert_eq!(JwtClaim::from_json_object(&document), Ok(claims));
}

#[test]
fn expiry_is_a_strict_boundary() {
    let claims = JwtClaim::empty().expires_at(1000, 0);
    let raw = create_token(&signing_key(), &Header::new(Algorithm::HS256), claims, session("s"))
        .unwrap();
    let key = verifying_key();
    for now in [0, 999, 1000] {
        let token = AccessToken::decode_at(&key, Algorithm::HS256, &raw, now).unwrap();
        assert_eq!(token.claims.exp, Some(1000));
        assert_eq!(token.raw, raw);
    }
    for now in [1001, 1002, 4_000_000_000, u64::MAX] {
        let error = AccessToken::decode_at(&key, Algorithm::HS256, &raw, now).unwrap_err();
        assert_eq!(error.kind, ErrorKind::ExpiredOrNotYetValid);
        assert_eq!(error.message, "token is past its expiry or ahead of its time");
    }
}

#[test]
fn the_same_moment_gives_the_same_answer() {
    let claims = JwtClaim::empty().expires_at(1000, 0);
    let raw = create_token(&signing_key(), &Header::new(Algorithm::HS256), claims, session("s"))
        .unwrap();
    let key = verifying_key();
    for _ in 0..5 {
        assert!(AccessToken::decode_at(&key, Algorithm::HS256, &raw, 1000).is_ok());
        assert!(AccessToken::decode_at(&key, Algorithm::HS256, &raw, 1001).is_err());
    }
}

#[test]
fn a_token_is_not_accepted_before_its_time() {
    let claims = JwtClaim { nbf: Some(500), ..JwtClaim::empty().expires_at(1000, 0) };
    let raw = create_token(&signing_key(), &Header::new(Algorithm::HS256), claims, session("s"))
        .unwrap();
    let key = verifying_key();
    for now in [0, 499, 1001] {
        let error = AccessToken::decode_at(&key, Algorithm::HS256, &raw, now).unwrap_err();
        assert_eq!(error.kind, ErrorKind::ExpiredOrNotYetValid);
    }
    for now in [500, 501, 1000] {
        assert!(AccessToken::decode_at(&key, Algorithm::HS256, &raw, now).is_ok());
    }
}

#[test]
fn a_token_without_time_bounds_is_in_time_always() {
    let claims = JwtClaim::empty().with_issuer("x".to_string());
    let raw = create_token(&signing_key(), &Header::new(Algorithm::HS256), claims, session("s"))
        .unwrap();
    for now in [0, 1, u64::MAX] {
        assert!(AccessToken::decode_at(&verifying_key(), Algorithm::HS256, &raw, now).is_ok());
    }
    assert!(AccessToken::decode(&verifying_key(), Algorithm::HS256, &raw).is_ok());
}

#[test]
fn signature_and_form_come_before_the_time() {
    let claims = JwtClaim::empty().expires_at(1000, 0);
    let raw = create_token(&signing_key(), &Header::new(Algorithm::HS256), claims, session("s"))
        .unwrap();
    let other = DecodingKey::from_secret(b"another test value");
    let error = AccessToken::decode_at(&other, Algorithm::HS256, &raw, 2000).unwrap_err();
    assert_eq!(error.kind, ErrorKind::SignatureInvalid);
    let claims = JwtClaim::empty().expires_at(1000, 0);
    let no_session = create_token(
        &signing_key(),
        &Header::new(Algorithm::HS256),
        claims,
        serde_json::Map::new(),
    )
    .unwrap();
    let error =
        AccessToken::decode_at(&verifying_key(), Algorithm::HS256, &no_session, 2000).unwrap_err();
    assert_eq!(error.kind, ErrorKind::Malformed);
}

#[test]
fn check_time_bounds_turns_away_what_is_out_of_time() {
    let claims = JwtClaim { nbf: Some(10), ..JwtClaim::empty().expires_at(20, 0) };
    assert_eq!(check_time_bounds(&claims, 10), Ok(()));
    assert_eq!(check_time_bounds(&claims, 20), Ok(()));
    for now in [9, 21] {
        let error = check_time_bounds(&claims, now).unwrap_err();
        assert_eq!(error.kind, ErrorKind::ExpiredOrNotYetValid);
        assert_eq!(error.message, "token is past its expiry or ahead of its time");
    }
    assert_eq!(check_time_bounds(&JwtClaim::empty(), u64::MAX), Ok(()));
}

#[test]
fn decode_holds_a_token_to_the_clock() {
    let header = Header::new(Algorithm::HS256);
    let key = verifying_key();
    for _ in 0..20 {
        let claims = JwtClaim::empty().expires_in(0);
        let exp = claims.exp.unwrap();
        let raw = create_token(&signing_key(), &header, claims, session("s")).unwrap();
        let before = jsonwebtoken::get_current_timestamp();
        let outcome = AccessToken::decode(&key, Algorithm::HS256, &raw);
        let after = jsonwebtoken::get_current_timestamp();
        match outcome {
            Ok(_) => assert!(before <= exp),
            Err(error) => {
                assert_eq!(error.kind, ErrorKind::ExpiredOrNotYetValid);
                assert!(exp < after);
            }
        }
    }
    let now = jsonwebtoken::get_current_timestamp();
    let ahead = JwtClaim::empty().expires_at(now, 30);
    let raw = create_token(&signing_key(), &header, ahead, session("s")).unwrap();
    assert!(AccessToken::decode(&key, Algorithm::HS256, &raw).is_ok());
    let past = JwtClaim::empty().expires_at(now - 2, 0);
    let raw = create_token(&signing_key(), &header, past, session("s")).unwrap();
    let error = AccessToken::decode(&key, Algorithm::HS256, &raw).unwrap_err();
    assert_eq!(error.kind, ErrorKind::ExpiredOrNotYetValid);
    let early = JwtClaim { nbf: Some(now + 3600), ..JwtClaim::empty().expires_in(7200) };
    let raw = create_token(&signing_key(), &header, early, session("s")).unwrap();
    let error = AccessToken::decode(&key, Algorithm::HS256, &raw).unwrap_err();
    assert_eq!(error.kind, ErrorKind::ExpiredOrNotYetValid);
}

#[test]
fn decode_does_not_ask_for_an_audience() {
    let claims = JwtClaim::empty().with_audience("simple-auth.example.com".to_string()).expires_in(60);
    let raw = create_token(&signing_key(), &Header::new(Algorithm::HS256), claims, session("s"))
        .unwrap();
    assert!(decode_token(&verifying_key(), Algorithm::HS256, &raw).is_ok());
    assert!(AccessToken::decode(&verifying_key(), Algorithm::HS256, &raw).is_ok());
}

#[test]
fn header_as_read_asks_for_the_expected_algorithm() {
    let document = session("s1");
    let read = header_as_read(Algorithm::RS256, "RS256", Some("k1".to_string()), document.clone());
    assert_eq!(
        read,
        Ok((Header { alg: Algorithm::RS256, kid: Some("k1".to_string()) }, document.clone()))
    );
    let read = header_as_read(Algorithm::ES384, "ES384", None, document.clone());
    assert_eq!(read, Ok((Header::new(Algorithm::ES384), document.clone())));
    for name in ["HS256", "RS384", "rs256", "", "RS256 "] {
        let error = header_as_read(Algorithm::RS256, name, None, document.clone()).unwrap_err();
        assert_eq!(error.kind, ErrorKind::SignatureInvalid);
        assert_eq!(error.message, "InvalidAlgorithm");
    }
}

#[test]
fn the_header_names_the_algorithm_it_was_signed_under() {
    let claims = JwtClaim::empty().expires_in(60);
    let raw = create_token(&signing_key(), &Header::new(Algorithm::HS512), claims, session("s"))
        .unwrap();
    assert_eq!(part(&raw, 0), r#"{"typ":"JWT","alg":"HS512"}"#);
    let (header, _) = decode_token(&verifying_key(), Algorithm::HS512, &raw).unwrap();
    assert_eq!(header, Header::new(Algorithm::HS512));
    assert!(decode_token(&verifying_key(), Algorithm::HS256, &raw).is_err());
}

#[test]
fn a_key_of_the_wrong_family_cannot_sign() {
    let claims = JwtClaim::empty().expires_in(60);
    let error = create_token(&signing_key(), &Header::new(Algorithm::RS256), claims, session("s"))
        .unwrap_err();
    assert_eq!(error.kind, ErrorKind::Signing);
    assert_eq!(error.message, "InvalidAlgorithm");
}
