use authcore::hash::{generate_hash, verify_hash, HashError};

fn secret() -> String {
    "server-side-pepper".to_string()
}

#[test]
fn hash_then_verify_succeeds() {
    let k = secret();
    let p = "secret123".to_string();
    let h = generate_hash(&p, &k).unwrap();
    assert_eq!(verify_hash(&h, &p, &k), Ok(true));
}

#[test]
fn verify_rejects_wrong_password() {
    let k = secret();
    let h = generate_hash(&"right horse".to_string(), &k).unwrap();
    assert_eq!(verify_hash(&h, &"wrong horse".to_string(), &k), Ok(false));
}

#[test]
fn verify_rejects_wrong_secret() {
    let k = secret();
    let p = "secret123".to_string();
    let h = generate_hash(&p, &k).unwrap();
    assert_eq!(verify_hash(&h, &p, &"another-pepper".to_string()), Ok(false));
}

#[test]
fn rehashing_salts_anew_yet_both_verify() {
    let k = secret();
    let p = "secret123".to_string();
    let h1 = generate_hash(&p, &k).unwrap();
    let h2 = generate_hash(&p, &k).unwrap();
    assert_ne!(h1, h2);
    assert_eq!(verify_hash(&h1, &p, &k), Ok(true));
    assert_eq!(verify_hash(&h2, &p, &k), Ok(true));
}

#[test]
fn corrupted_stored_hash_is_unavailable_not_false() {
    let k = secret();
    let r = verify_hash(&"not an encoded hash".to_string(), &"p".to_string(), &k);
    assert_eq!(r, Err(HashError::VerifierUnavailable));
}

#[test]
fn empty_password_still_hashes() {
    let k = secret();
    let p = String::new();
    let h = generate_hash(&p, &k).unwrap();
    assert_eq!(verify_hash(&h, &p, &k), Ok(true));
    assert_eq!(verify_hash(&h, &"x".to_string(), &k), Ok(false));
}
