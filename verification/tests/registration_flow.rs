use authcore::auth::{login, register, AuthError};
use authcore::session::validate;
use authcore::store::CredentialStore;

#[test]
fn invitation_gated_registration_and_login() {
    let hash_secret = "server-side-pepper".to_string();
    let session_secret = "session-signing-secret".to_string();
    let mut store = CredentialStore::new();

    let inv = store.create_invitation();
    let user = register(
        &mut store,
        &inv.token,
        "alice".to_string(),
        &"secret123".to_string(),
        &hash_secret,
    )
    .unwrap();
    assert_eq!(user.username, "alice");

    // The same invitation cannot admit a second registration.
    let reused = register(
        &mut store,
        &inv.token,
        "carol".to_string(),
        &"pw".to_string(),
        &hash_secret,
    );
    assert_eq!(reused, Err(AuthError::InvalidInvitation));

    // A taken username is refused even with a fresh invitation.
    let inv2 = store.create_invitation();
    let taken = register(
        &mut store,
        &inv2.token,
        "alice".to_string(),
        &"pw".to_string(),
        &hash_secret,
    );
    assert_eq!(taken, Err(AuthError::UsernameTaken));

    let session = login(
        &store,
        &"alice".to_string(),
        &"secret123".to_string(),
        &hash_secret,
        &session_secret,
        5_000,
        86_400,
    )
    .unwrap();
    assert_eq!(
        validate(&session, &session_secret, 5_001),
        Ok("alice".to_string())
    );
}

#[test]
fn bad_credentials_are_indistinguishable() {
    let hash_secret = "server-side-pepper".to_string();
    let session_secret = "session-signing-secret".to_string();
    let mut store = CredentialStore::new();
    let inv = store.create_invitation();
    register(
        &mut store,
        &inv.token,
        "alice".to_string(),
        &"secret123".to_string(),
        &hash_secret,
    )
    .unwrap();

    let wrong_password = login(
        &store,
        &"alice".to_string(),
        &"wrong".to_string(),
        &hash_secret,
        &session_secret,
        5_000,
        86_400,
    );
    let unknown_user = login(
        &store,
        &"bob".to_string(),
        &"secret123".to_string(),
        &hash_secret,
        &session_secret,
        5_000,
        86_400,
    );
    assert_eq!(wrong_password, Err(AuthError::BadCredentials));
    assert_eq!(unknown_user, Err(AuthError::BadCredentials));
    assert_eq!(wrong_password, unknown_user);
}
