use inner_shelter::admission::{
    admit_connection, assemble_claims, choose_token, claims_from_json, extract_access_token,
    first_value_of, identity_of, last_value_of, query_parameter, validate_jwt, AdmissionError,
    Handshake,
};
use inner_shelter::errors::AppError;

const SECRET: &[u8] = b"my_secret_key";

fn now() -> u64 {
    jsonwebtoken::get_current_timestamp()
}

fn payload(sub: Option<&str>, exp: Option<u64>) -> serde_json::Value {
    let mut members = serde_json::Map::new();
    if let Some(sub) = sub {
        members.insert("sub".to_string(), serde_json::Value::from(sub));
    }
    if let Some(exp) = exp {
        members.insert("exp".to_string(), serde_json::Value::from(exp));
    }
    serde_json::Value::Object(members)
}

fn token_of(claims: &serde_json::Value, secret: &[u8]) -> String {
    jsonwebtoken::encode(
        &jsonwebtoken::Header::default(),
        claims,
        &jsonwebtoken::EncodingKey::from_secret(secret),
    )
    .unwrap()
}

fn token_for(sub: &str) -> String {
    token_of(&payload(Some(sub), Some(now() + 3600)), SECRET)
}

fn pairs(list: &[(&str, &str)]) -> Vec<(String, String)> {
    list.iter().map(|p| (p.0.to_string(), p.1.to_string())).collect()
}

fn handshake(cookies: &[(&str, &str)], query: &str) -> Handshake {
    Handshake { cookies: pairs(cookies), query: query.to_string() }
}

#[test]
fn a_valid_token_names_its_identity() {
    assert_eq!(validate_jwt(&token_for("alice"), SECRET), Ok("alice".to_string()));
}

#[test]
fn a_token_signed_with_another_secret_is_invalid() {
    let token = token_of(&payload(Some("alice"), Some(now() + 3600)), b"another_secret");
    assert_eq!(validate_jwt(&token, SECRET), Err(AdmissionError::InvalidCredential));
}

#[test]
fn an_expired_token_is_invalid() {
    let token = token_of(&payload(Some("alice"), Some(now() - 3600)), SECRET);
    assert_eq!(validate_jwt(&token, SECRET), Err(AdmissionError::InvalidCredential));
}

#[test]
fn a_token_without_identity_is_invalid() {
    let token = token_of(&payload(None, Some(now() + 3600)), SECRET);
    assert_eq!(validate_jwt(&token, SECRET), Err(AdmissionError::InvalidCredential));
}

#[test]
fn a_token_without_expiry_is_invalid() {
    let token = token_of(&payload(Some("alice"), None), SECRET);
    assert_eq!(validate_jwt(&token, SECRET), Err(AdmissionError::InvalidCredential));
}

#[test]
fn a_malformed_token_is_invalid() {
    assert_eq!(validate_jwt("", SECRET), Err(AdmissionError::InvalidCredential));
    assert_eq!(validate_jwt("alice", SECRET), Err(AdmissionError::InvalidCredential));
    assert_eq!(validate_jwt("a.b.c", SECRET), Err(AdmissionError::InvalidCredential));
    let mut tampered = token_for("alice");
    tampered.push('x');
    assert_eq!(validate_jwt(&tampered, SECRET), Err(AdmissionError::InvalidCredential));
}

#[test]
fn a_handshake_without_credential_is_refused_as_missing() {
    let plain = handshake(&[], "");
    assert_eq!(admit_connection(&plain, SECRET), Err(AdmissionError::MissingCredential));
    let unrelated = handshake(&[("session", "1"), ("theme", "dark")], "room=3&lang=en");
    assert_eq!(admit_connection(&unrelated, SECRET), Err(AdmissionError::MissingCredential));
}

#[test]
fn a_handshake_with_a_bad_credential_is_refused_as_invalid() {
    let by_cookie = handshake(&[("access_token", "garbage")], "");
    assert_eq!(admit_connection(&by_cookie, SECRET), Err(AdmissionError::InvalidCredential));
    let by_query = handshake(&[], "token=garbage");
    assert_eq!(admit_connection(&by_query, SECRET), Err(AdmissionError::InvalidCredential));
    let empty = handshake(&[("access_token", "")], "");
    assert_eq!(admit_connection(&empty, SECRET), Err(AdmissionError::InvalidCredential));
}

#[test]
fn a_credential_in_a_cookie_admits() {
    let token = token_for("alice");
    let offered = handshake(&[("theme", "dark"), ("access_token", token.as_str())], "");
    assert_eq!(admit_connection(&offered, SECRET), Ok("alice".to_string()));
}

#[test]
fn a_credential_in_the_query_admits() {
    let token = token_for("bob");
    let query = format!("room=3&token={}", token);
    let offered = handshake(&[], &query);
    assert_eq!(admit_connection(&offered, SECRET), Ok("bob".to_string()));
}

#[test]
fn the_cookie_goes_before_the_query() {
    let cookie_token = token_for("alice");
    let query = format!("token={}", token_for("bob"));
    let offered = handshake(&[("access_token", cookie_token.as_str())], &query);
    assert_eq!(admit_connection(&offered, SECRET), Ok("alice".to_string()));
    assert_eq!(extract_access_token(&offered), Some(cookie_token));
}

#[test]
fn the_first_cookie_of_the_name_counts() {
    let offered = handshake(&[("access_token", "one"), ("access_token", "two")], "token=three");
    assert_eq!(extract_access_token(&offered), Some("one".to_string()));
}

#[test]
fn the_last_parameter_of_the_name_counts() {
    assert_eq!(query_parameter("token=one&x=1&token=two", "token"), Some("two".to_string()));
    let offered = handshake(&[("other", "1")], "token=one&token=two");
    assert_eq!(extract_access_token(&offered), Some("two".to_string()));
}

#[test]
fn a_query_is_split_and_decoded() {
    assert_eq!(query_parameter("a=1&b=2", "a"), Some("1".to_string()));
    assert_eq!(query_parameter("a=1&b=2", "b"), Some("2".to_string()));
    assert_eq!(query_parameter("a=1&b=2", "c"), None);
    assert_eq!(query_parameter("", "a"), None);
    assert_eq!(query_parameter("token=x%2Ey+z", "token"), Some("x.y z".to_string()));
    assert_eq!(query_parameter("to%6Ben=abc", "token"), Some("abc".to_string()));
    assert_eq!(query_parameter("token", "token"), Some("".to_string()));
    assert_eq!(query_parameter("token=a=b", "token"), Some("a=b".to_string()));
}

#[test]
fn first_and_last_value_differ_on_duplicates() {
    let list = pairs(&[("k", "1"), ("j", "2"), ("k", "3")]);
    assert_eq!(first_value_of(&list, "k"), Some("1".to_string()));
    assert_eq!(last_value_of(&list, "k"), Some("3".to_string()));
    assert_eq!(first_value_of(&list, "j"), Some("2".to_string()));
    assert_eq!(last_value_of(&list, "j"), Some("2".to_string()));
    assert_eq!(first_value_of(&list, "x"), None);
    assert_eq!(last_value_of(&list, "x"), None);
    assert_eq!(first_value_of(&Vec::new(), "k"), None);
    assert_eq!(last_value_of(&Vec::new(), "k"), None);
}

#[test]
fn choose_token_prefers_the_cookie() {
    let cookies = pairs(&[("access_token", "c")]);
    assert_eq!(choose_token(&cookies, Some("q".to_string())), Some("c".to_string()));
    assert_eq!(choose_token(&cookies, None), Some("c".to_string()));
    assert_eq!(choose_token(&Vec::new(), Some("q".to_string())), Some("q".to_string()));
    assert_eq!(choose_token(&Vec::new(), None), None);
}

#[test]
fn claims_are_read_from_a_payload() {
    let claims = claims_from_json(&payload(Some("alice"), Some(1700000000))).unwrap();
    assert_eq!(claims.sub, "alice");
    assert_eq!(claims.exp, 1700000000);
    assert!(claims_from_json(&payload(None, Some(1))).is_none());
    assert!(claims_from_json(&payload(Some("alice"), None)).is_none());
    assert!(claims_from_json(&serde_json::Value::Null).is_none());
    let negative: serde_json::Value = serde_json::from_str("{\"sub\":\"a\",\"exp\":-1}").unwrap();
    assert!(claims_from_json(&negative).is_none());
    let fraction: serde_json::Value = serde_json::from_str("{\"sub\":\"a\",\"exp\":1.5}").unwrap();
    assert!(claims_from_json(&fraction).is_none());
    let number_sub: serde_json::Value = serde_json::from_str("{\"sub\":5,\"exp\":1}").unwrap();
    assert!(claims_from_json(&number_sub).is_none());
}

#[test]
fn assemble_claims_needs_both_members() {
    let claims = assemble_claims(Some("alice".to_string()), Some(7)).unwrap();
    assert_eq!((claims.sub.as_str(), claims.exp), ("alice", 7));
    assert!(assemble_claims(None, Some(7)).is_none());
    assert!(assemble_claims(Some("alice".to_string()), None).is_none());
}

#[test]
fn identity_of_a_failed_check_is_invalid() {
    assert_eq!(identity_of(None), Err(AdmissionError::InvalidCredential));
    assert_eq!(identity_of(Some(payload(None, Some(1)))), Err(AdmissionError::InvalidCredential));
    assert_eq!(identity_of(Some(payload(Some("zed"), Some(1)))), Ok("zed".to_string()));
}

#[test]
fn a_refusal_is_an_authentication_error() {
    match AdmissionError::MissingCredential.to_app_error() {
        AppError::AuthError(message) => assert_eq!(message, "Missing credential"),
        other => panic!("unexpected error: {:?}", other),
    }
    match AdmissionError::InvalidCredential.to_app_error() {
        AppError::AuthError(message) => assert_eq!(message, "Invalid credential"),
        other => panic!("unexpected error: {:?}", other),
    }
    assert_eq!(AdmissionError::MissingCredential.to_app_error().status_code(), 401);
    assert_eq!(AdmissionError::InvalidCredential.to_app_error().status_code(), 401);
}

#[test]
fn a_token_is_checked_against_the_secret_of_the_settings() {
    let defaults = inner_shelter::config::Config::new(None, None, None);
    assert_eq!(
        inner_shelter::admission::validate_token(&token_for("alice"), &defaults),
        Ok("alice".to_string())
    );
    let other = inner_shelter::config::Config::new(Some("other".to_string()), None, None);
    assert_eq!(
        inner_shelter::admission::validate_token(&token_for("alice"), &other),
        Err(AdmissionError::InvalidCredential)
    );
}

#[test]
fn the_identity_is_the_sub_that_the_token_carries() {
    for sub in ["alice", "bob", "", "name with spaces", "ünïcödé"] {
        let mut claims = payload(Some(sub), Some(now() + 60));
        claims
            .as_object_mut()
            .unwrap()
            .insert("role".to_string(), serde_json::Value::from("admin"));
        let token = token_of(&claims, SECRET);
        assert_eq!(validate_jwt(&token, SECRET), Ok(sub.to_string()));
    }
}
