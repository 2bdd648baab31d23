use authcore::session::{issue, revoke, validate, SessionError, SessionToken};

fn secret() -> String {
    "session-signing-secret".to_string()
}

#[test]
fn validate_returns_subject_before_expiry() {
    let k = secret();
    let u = "alice".to_string();
    let t = issue(&u, &k, 1_000, 86_400).unwrap();
    assert_eq!(t.expires_at, 87_400);
    assert_eq!(validate(&t, &k, 1_000), Ok("alice".to_string()));
    assert_eq!(validate(&t, &k, 87_399), Ok("alice".to_string()));
}

#[test]
fn validate_reports_expiry_from_the_deadline_on() {
    let k = secret();
    let t = issue(&"alice".to_string(), &k, 1_000, 86_400).unwrap();
    assert_eq!(validate(&t, &k, 87_400), Err(SessionError::Expired));
    assert_eq!(validate(&t, &k, 1_000_000_000), Err(SessionError::Expired));
}

#[test]
fn tampered_tag_is_invalid() {
    let k = secret();
    let t = issue(&"alice".to_string(), &k, 1_000, 86_400).unwrap();
    let mut tag_bytes = t.tag.clone().into_bytes();
    tag_bytes[0] ^= 0x01;
    let forged = SessionToken {
        username: t.username.clone(),
        expires_at: t.expires_at,
        tag: String::from_utf8(tag_bytes).unwrap(),
    };
    assert_eq!(validate(&forged, &k, 1_000), Err(SessionError::Invalid));
}

#[test]
fn tampered_subject_or_expiry_is_invalid() {
    let k = secret();
    let t = issue(&"alice".to_string(), &k, 1_000, 86_400).unwrap();
    let as_bob = SessionToken {
        username: "alicf".to_string(),
        expires_at: t.expires_at,
        tag: t.tag.clone(),
    };
    assert_eq!(validate(&as_bob, &k, 1_000), Err(SessionError::Invalid));
    let extended = SessionToken {
        username: t.username.clone(),
        expires_at: t.expires_at + 1,
        tag: t.tag.clone(),
    };
    assert_eq!(validate(&extended, &k, 1_000), Err(SessionError::Invalid));
}

#[test]
fn wrong_secret_is_invalid_and_revoke_is_a_noop() {
    let k = secret();
    let t = issue(&"alice".to_string(), &k, 1_000, 86_400).unwrap();
    assert_eq!(
        validate(&t, &"other-secret".to_string(), 1_000),
        Err(SessionError::Invalid)
    );
    revoke(&t);
    // Stateless design: after revoke the token still validates until expiry.
    assert_eq!(validate(&t, &k, 1_000), Ok("alice".to_string()));
}
