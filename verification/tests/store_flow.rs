use authcore::store::{CredentialStore, StoreError};

#[test]
fn invitation_consumed_exactly_once() {
    let mut store = CredentialStore::new();
    let inv = store.create_invitation();
    assert!(inv.consumed_at.is_none());
    assert!(store.token_exists(&inv.token));
    assert!(!store.token_exists(&"no such token".to_string()));
    assert_eq!(store.consume_invitation(&inv.token), Ok(()));
    assert_eq!(
        store.consume_invitation(&inv.token),
        Err(StoreError::InvalidInvitation)
    );
}

#[test]
fn unknown_invitation_is_invalid() {
    let mut store = CredentialStore::new();
    store.create_invitation();
    assert_eq!(
        store.consume_invitation(&"no such token".to_string()),
        Err(StoreError::InvalidInvitation)
    );
}

#[test]
fn invitation_tokens_are_unique_and_sized() {
    let mut store = CredentialStore::new();
    let a = store.create_invitation();
    let b = store.create_invitation();
    let c = store.create_invitation();
    assert_eq!(a.token.len(), 48);
    assert_eq!(b.token.len(), 48);
    assert_ne!(a.token, b.token);
    assert_ne!(a.token, c.token);
    assert_ne!(b.token, c.token);
}

#[test]
fn username_created_exactly_once() {
    let mut store = CredentialStore::new();
    let u = store
        .create_user("alice".to_string(), "stored-hash".to_string())
        .unwrap();
    assert_eq!(u.username, "alice");
    assert_eq!(u.hash, "stored-hash");
    assert_eq!(
        store.create_user("alice".to_string(), "other-hash".to_string()),
        Err(StoreError::UsernameTaken)
    );
}

#[test]
fn find_user_returns_the_stored_record() {
    let mut store = CredentialStore::new();
    assert!(store.find_user(&"alice".to_string()).is_none());
    store
        .create_user("alice".to_string(), "stored-hash".to_string())
        .unwrap();
    let found = store.find_user(&"alice".to_string()).unwrap();
    assert_eq!(found.username, "alice");
    assert_eq!(found.hash, "stored-hash");
    assert!(store.find_user(&"bob".to_string()).is_none());
    assert!(store.user_exists(&"alice".to_string()));
    assert!(!store.user_exists(&"bob".to_string()));
}
