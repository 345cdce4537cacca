use auth_core::decimal::parse_digits;
use auth_core::model::Role;
use auth_core::token::{issue_token, verify_token, TokenError};
use hmac::Mac;

const SECRET: &str = "s3cret";
const SALT: &str = "pepper";

fn expected_signature(secret: &str, msg: &str) -> String {
    let mut m = hmac::Hmac::<sha2::Sha256>::new_from_slice(secret.as_bytes()).unwrap();
    m.update(msg.as_bytes());
    let tag = m.finalize().into_bytes();
    tag.iter().map(|b| format!("{:02x}", b)).collect()
}

#[test]
fn issued_token_verifies_with_same_subject_and_role() {
    let t = issue_token("bob@x.com", Role::User, 1000, 3600, SECRET, SALT);
    let c = verify_token(&t, 1000, SECRET, SALT).unwrap();
    assert_eq!(c.sub, "bob@x.com");
    assert_eq!(c.role, Role::User);
    assert_eq!(c.exp, 4600);
    let c = verify_token(&t, 4599, SECRET, SALT).unwrap();
    assert_eq!(c.role, Role::User);
}

#[test]
fn token_layout_and_signature() {
    let t = issue_token("a.b@x.com", Role::Admin, 7, 5, SECRET, SALT);
    let payload = "00000000000000000012Aa.b@x.com";
    assert_eq!(&t[64..], format!(".{}", payload));
    let msg = format!("{}.{}", SALT, payload);
    assert_eq!(&t[..64], expected_signature(SECRET, &msg));
}

#[test]
fn token_expires_at_its_expiry() {
    let t = issue_token("bob@x.com", Role::Admin, 1000, 60, SECRET, SALT);
    assert_eq!(verify_token(&t, 1060, SECRET, SALT).unwrap_err(), TokenError::Expired);
    assert_eq!(verify_token(&t, 99999, SECRET, SALT).unwrap_err(), TokenError::Expired);
}

#[test]
fn expiry_is_capped_at_largest_time() {
    let t = issue_token("bob@x.com", Role::User, u64::MAX - 1, 10, SECRET, SALT);
    let c = verify_token(&t, 0, SECRET, SALT).unwrap();
    assert_eq!(c.exp, u64::MAX);
}

#[test]
fn tampered_token_is_invalid() {
    let t = issue_token("bob@x.com", Role::User, 1000, 3600, SECRET, SALT);
    let forged = t.replacen(".00000000000000004600U", ".00000000000000004600A", 1);
    assert_ne!(forged, t);
    assert_eq!(verify_token(&forged, 1000, SECRET, SALT).unwrap_err(), TokenError::Invalid);
    let later = t.replacen("4600U", "9600U", 1);
    assert_eq!(verify_token(&later, 5000, SECRET, SALT).unwrap_err(), TokenError::Invalid);
}

#[test]
fn forged_expired_token_is_invalid_not_expired() {
    let t = issue_token("bob@x.com", Role::User, 1000, 10, "other", SALT);
    assert_eq!(verify_token(&t, 5000, SECRET, SALT).unwrap_err(), TokenError::Invalid);
}

#[test]
fn wrong_secret_or_salt_is_invalid() {
    let t = issue_token("bob@x.com", Role::User, 1000, 3600, SECRET, SALT);
    assert_eq!(verify_token(&t, 1000, "other", SALT).unwrap_err(), TokenError::Invalid);
    assert_eq!(verify_token(&t, 1000, SECRET, "salt2").unwrap_err(), TokenError::Invalid);
}

#[test]
fn malformed_tokens_are_invalid() {
    assert_eq!(verify_token("", 0, SECRET, SALT).unwrap_err(), TokenError::Invalid);
    assert_eq!(verify_token("abc.def", 0, SECRET, SALT).unwrap_err(), TokenError::Invalid);
    let t = issue_token("bob@x.com", Role::User, 1000, 3600, SECRET, SALT);
    let bad_role = t.replacen("4600U", "4600X", 1);
    assert_eq!(verify_token(&bad_role, 1000, SECRET, SALT).unwrap_err(), TokenError::Invalid);
    let bad_digit = t.replacen("4600U", "46x0U", 1);
    assert_eq!(verify_token(&bad_digit, 1000, SECRET, SALT).unwrap_err(), TokenError::Invalid);
    let no_dot = t.replacen(".0000", "x0000", 1);
    assert_eq!(verify_token(&no_dot, 1000, SECRET, SALT).unwrap_err(), TokenError::Invalid);
}

#[test]
fn digits_parse_exactly() {
    assert_eq!(parse_digits("x4600y", 1, 5), Some(4600));
    assert_eq!(parse_digits("18446744073709551615", 0, 20), Some(u64::MAX));
    assert_eq!(parse_digits("18446744073709551616", 0, 20), None);
    assert_eq!(parse_digits("99999999999999999999", 0, 20), None);
    assert_eq!(parse_digits("12a", 0, 3), None);
    assert_eq!(parse_digits("123", 1, 1), None);
}
