use base64::Engine;
use pocketbase_sdk::errors::Error;
use pocketbase_sdk::user::{AdminRecord, User, UserRecord, UserTypes};

fn sample_user_record() -> UserRecord {
    UserRecord {
        id: "r1".to_string(),
        collection_id: "c1".to_string(),
        collection_name: "users".to_string(),
        created: String::new(),
        updated: String::new(),
        username: "u".to_string(),
        verified: true,
        email_visibility: false,
        email: "u@example.com".to_string(),
        name: "U".to_string(),
        avatar: String::new(),
    }
}

fn sample_admin_record() -> AdminRecord {
    AdminRecord {
        id: "a1".to_string(),
        created: String::new(),
        updated: String::new(),
        email: "admin@example.com".to_string(),
        avatar: 0,
    }
}

/// A JWT-shaped token whose payload carries the given expiry, with the
/// padding stripped as tokens carry their segments.
fn token_with_exp(exp: i64) -> String {
    let payload = format!("{{\"exp\":{}}}", exp);
    let encoded = base64::engine::general_purpose::STANDARD.encode(payload.as_bytes());
    format!("header.{}.signature", encoded.trim_end_matches('='))
}

#[test]
fn new_user_and_new_admin_fill_the_right_record() {
    let u = User::new_user("tok".to_string(), UserTypes::User, sample_user_record());
    assert_eq!(u.token, "tok");
    assert_eq!(u.usertype, UserTypes::User);
    assert!(u.admin_record.is_none());
    assert_eq!(u.user_record.as_ref().unwrap().id, "r1");

    let a = User::new_admin("tok2".to_string(), UserTypes::Admin, sample_admin_record());
    assert_eq!(a.token, "tok2");
    assert_eq!(a.usertype, UserTypes::Admin);
    assert!(a.user_record.is_none());
    assert_eq!(a.admin_record.as_ref().unwrap().id, "a1");
}

#[test]
fn expiry_is_read_from_the_payload() {
    let user = User::new_user(token_with_exp(1893456000), UserTypes::User, sample_user_record());
    assert_eq!(user.get_expired_datetime().unwrap(), 1893456000);
}

#[test]
fn expiry_survives_a_payload_that_needs_padding() {
    // A payload whose base64 form, stripped of padding, has a length of 2 or
    // 3 modulo 4, so the reader has to pad it back.
    for exp in [5i64, 77, 1700000000, 1234567890123] {
        let user = User::new_user(token_with_exp(exp), UserTypes::User, sample_user_record());
        assert_eq!(user.get_expired_datetime().unwrap(), exp, "exp {exp}");
    }
}

#[test]
fn empty_token_is_rejected() {
    let user = User::new_user(String::new(), UserTypes::User, sample_user_record());
    assert!(matches!(user.get_expired_datetime(), Err(Error::ShouldNot(_))));
}

#[test]
fn token_without_three_segments_is_rejected() {
    let user = User::new_user("only.two".to_string(), UserTypes::User, sample_user_record());
    match user.get_expired_datetime() {
        Err(Error::PocketBaseImplementException(m)) => {
            assert_eq!(m, "Token no longer have 3 part '.' Seem PocketBase Change logic for Token");
        },
        _ => panic!("a token without three segments must be rejected"),
    }
}

#[test]
fn garbage_payload_fails_the_parse() {
    let user = User::new_user("a.!!!.c".to_string(), UserTypes::User, sample_user_record());
    match user.get_expired_datetime() {
        Err(Error::PocketBaseImplementException(m)) => assert_eq!(m, "Failed parse"),
        _ => panic!("an undecodable payload must fail the parse"),
    }
}

#[test]
fn payload_without_exp_fails_the_parse() {
    let payload = base64::engine::general_purpose::STANDARD.encode(b"{\"sub\":\"x\"}");
    let token = format!("h.{}.s", payload.trim_end_matches('='));
    let user = User::new_user(token, UserTypes::User, sample_user_record());
    match user.get_expired_datetime() {
        Err(Error::PocketBaseImplementException(m)) => assert_eq!(m, "Failed parse"),
        _ => panic!("a payload without exp must fail the parse"),
    }
}

#[test]
fn validity_compares_the_expiry_against_the_given_time() {
    let user = User::new_user(token_with_exp(1000), UserTypes::User, sample_user_record());
    assert!(user.is_valid_at(999_999));
    assert!(!user.is_valid_at(1_000_000));
    assert!(!user.is_valid_at(1_000_001));
}

#[test]
fn a_far_future_token_is_valid_now() {
    let user = User::new_user(token_with_exp(32503680000), UserTypes::User, sample_user_record());
    assert!(user.is_valid());
    let expired = User::new_user(token_with_exp(1000), UserTypes::User, sample_user_record());
    assert!(!expired.is_valid());
}
