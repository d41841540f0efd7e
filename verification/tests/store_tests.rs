//! Tests of the credential store: users, tags, credentials, ceremony state,
//! sessions, and the reaper.

use iam_core::errors::{DatabaseError, UniqueField};
use iam_core::models::{
    new_uuid, NewPasskeyCredential, PasskeyAuthenticationState, PasskeyAuthenticationStateType,
    PasskeyCredentialUpdate, PasskeyRegistrationState, Session, SessionState, SessionUpdate,
    TagUpdate, UserCreate, UserUpdate,
};
use iam_core::store::Store;
use webauthn_rs::prelude::Url;
use webauthn_rs::{Webauthn, WebauthnBuilder};

fn webauthn() -> Webauthn {
    WebauthnBuilder::new("example.org", &Url::parse("http://example.org").unwrap())
        .expect("expected webauthn builder creation to succeed")
        .build()
        .expect("expected webauthn creation to succeed")
}

fn user_create(email: &str, display_name: &str) -> UserCreate {
    UserCreate {
        email: email.to_string(),
        display_name: display_name.to_string(),
    }
}

#[test]
fn test_create_user() {
    let mut store = Store::new();
    let user = store
        .create_user(new_uuid(), &user_create("test@example.com", "Test User"), 100)
        .expect("expected user creation to succeed");
    assert_eq!(user.email(), "test@example.com");
    assert_eq!(user.display_name(), "Test User");
}

#[test]
fn test_create_passkey_registration() {
    let mut store = Store::new();
    let user_id = new_uuid();
    let email = "test@example.com";
    let display_name = "Test User";
    let (_, reg) = webauthn()
        .start_passkey_registration(uuid::Uuid::from_u128(user_id), email, display_name, None)
        .unwrap();
    let registration = PasskeyRegistrationState {
        id: new_uuid(),
        user_id,
        email: email.to_string(),
        registration: serde_json::to_vec(&reg).unwrap(),
        created_at: 100,
    };
    store
        .create_passkey_registration(&registration)
        .expect("expected create passkey registration to succeed");
}

#[test]
fn test_get_passkey_registration_by_id() {
    let mut store = Store::new();
    let email = "test@kasad.com";
    let display_name = "Test User";
    let id = new_uuid();
    let user_id = new_uuid();
    let (_, reg) = webauthn()
        .start_passkey_registration(uuid::Uuid::from_u128(user_id), email, display_name, None)
        .unwrap();
    let registration = PasskeyRegistrationState {
        id,
        user_id,
        email: email.to_string(),
        registration: serde_json::to_vec(&reg).unwrap(),
        created_at: 100,
    };
    store.create_passkey_registration(&registration).unwrap();

    let registration = store.get_passkey_registration_by_id(id).unwrap();
    assert_eq!(registration.user_id, user_id);
    assert_eq!(registration.email, email);
}

#[test]
fn test_create_session() {
    let mut store = Store::new();
    let user = store
        .create_user(new_uuid(), &user_create("test@kasad.com", "Test User"), 100)
        .expect("expected user creation to succeed");

    let session_id: u64 = 123_456_789;
    let session = Session {
        user_id: user.id(),
        id_hash: blake3::hash(&session_id.to_le_bytes()).as_bytes().to_vec(),
        state: SessionState::Active,
        created_at: 100,
        expires_at: 100 + 86400,
        is_admin: false,
        parent_id_hash: None,
    };
    store.create_session(&session).unwrap();
}

#[test]
fn test_get_session_by_id_hash() {
    let mut store = Store::new();
    let user = store
        .create_user(new_uuid(), &user_create("test@kasad.com", "Test User"), 100)
        .expect("expected user creation to succeed");

    let session_id: u64 = 123_456_789;
    let id_hash = blake3::hash(&session_id.to_le_bytes()).as_bytes().to_vec();
    let session = Session {
        user_id: user.id(),
        id_hash: id_hash.clone(),
        state: SessionState::Active,
        created_at: 100,
        expires_at: 100 + 86400,
        is_admin: false,
        parent_id_hash: None,
    };
    store.create_session(&session).unwrap();

    let got = store.get_session_by_id_hash(&id_hash).unwrap();
    assert_eq!(got.user_id, user.id());
    assert_eq!(got.id_hash, id_hash);
    assert_eq!(got.state, SessionState::Active);
    assert_eq!(got.created_at, 100);
    assert_eq!(got.expires_at, 100 + 86400);
}

#[test]
fn test_create_passkey() {
    let mut store = Store::new();
    let user_id = new_uuid();
    store
        .create_user(user_id, &user_create("test@kasad.com", "Test User"), 100)
        .unwrap();
    store
        .create_passkey(
            new_uuid(),
            user_id,
            &NewPasskeyCredential {
                display_name: None,
                passkey: b"opaque-credential-material".to_vec(),
                credential_id: vec![1, 2, 3, 4],
            },
            100,
        )
        .unwrap();
}

#[test]
fn test_non_discoverable_passkey_authentication() {
    let mut store = Store::new();
    store
        .create_user(new_uuid(), &user_create("test@kasad.com", "Test User"), 100)
        .unwrap();

    let state = PasskeyAuthenticationState {
        id: new_uuid(),
        email: Some("test@kasad.com".to_string()),
        state: PasskeyAuthenticationStateType::Regular(b"opaque-continuation".to_vec()),
        created_at: 100,
    };
    store.create_passkey_authentication(&state).unwrap();

    let got_state = store.get_passkey_authentication_by_id(state.id).unwrap();
    assert_eq!(got_state.id, state.id);
    assert_eq!(got_state.email, state.email);
    assert!(matches!(
        got_state.state,
        PasskeyAuthenticationStateType::Regular(_)
    ));
}

#[test]
fn test_discoverable_passkey_authentication() {
    let mut store = Store::new();
    store
        .create_user(new_uuid(), &user_create("test@kasad.com", "Test User"), 100)
        .unwrap();

    let (_, disco_state) = webauthn().start_discoverable_authentication().unwrap();
    let state = PasskeyAuthenticationState {
        id: new_uuid(),
        email: Some("test@kasad.com".to_string()),
        state: PasskeyAuthenticationStateType::Discoverable(
            serde_json::to_vec(&disco_state).unwrap(),
        ),
        created_at: 100,
    };
    store.create_passkey_authentication(&state).unwrap();

    let got_state = store.get_passkey_authentication_by_id(state.id).unwrap();
    assert_eq!(got_state.id, state.id);
    assert_eq!(got_state.email, state.email);
    assert!(matches!(
        got_state.state,
        PasskeyAuthenticationStateType::Discoverable(_)
    ));
}

#[test]
fn test_update_passkey() {
    let mut store = Store::new();
    let user_id = new_uuid();
    store
        .create_user(user_id, &user_create("test@kasad.com", "Test User"), 100)
        .unwrap();

    let pkid = new_uuid();
    store
        .create_passkey(
            pkid,
            user_id,
            &NewPasskeyCredential {
                display_name: None,
                passkey: b"material-before".to_vec(),
                credential_id: vec![9, 9, 9],
            },
            100,
        )
        .unwrap();

    let update = PasskeyCredentialUpdate::new().with_display_name(Some("My passkey".to_string()));
    store.update_passkey(pkid, &update).unwrap();
    let passkey = store.get_passkey_by_id(pkid).unwrap();
    assert_eq!(passkey.display_name, Some("My passkey".to_string()));

    let update = PasskeyCredentialUpdate::new().with_passkey(b"material-after".to_vec());
    store.update_passkey(pkid, &update).unwrap();
    let passkey = store.get_passkey_by_id(pkid).unwrap();
    assert_eq!(passkey.passkey, b"material-after".to_vec());
}

#[test]
fn test_update_session() {
    let mut store = Store::new();
    let user = store
        .create_user(new_uuid(), &user_create("test@kasad.com", "Test User"), 100)
        .unwrap();

    let session_id: u64 = 123_456_789;
    let id_hash = blake3::hash(&session_id.to_le_bytes()).as_bytes().to_vec();
    let session = Session {
        user_id: user.id(),
        id_hash: id_hash.clone(),
        state: SessionState::Active,
        created_at: 100,
        expires_at: 100 + 86400,
        is_admin: false,
        parent_id_hash: None,
    };
    store.create_session(&session).unwrap();

    let update = SessionUpdate::new().with_state(SessionState::LoggedOut);
    let session = store.update_session(&id_hash, &update).unwrap();
    assert_eq!(session.state, SessionState::LoggedOut);

    let new_expires_at = 100 + 2 * 86400;
    let update = SessionUpdate::new().with_expires_at(new_expires_at);
    let session = store.update_session(&id_hash, &update).unwrap();
    assert_eq!(session.expires_at, new_expires_at);
}

#[test]
fn test_duplicate_email_rejected() {
    let mut store = Store::new();
    store
        .create_user(1, &user_create("a@example.com", "A"), 10)
        .unwrap();
    let err = store
        .create_user(2, &user_create("a@example.com", "B"), 11)
        .unwrap_err();
    assert_eq!(
        err,
        DatabaseError::UniquenessViolation {
            field: Some(UniqueField::Email)
        }
    );
}

#[test]
fn test_get_unknown_user() {
    let store = Store::new();
    assert_eq!(store.get_user_by_id(42).unwrap_err(), DatabaseError::NotFound);
    assert_eq!(
        store.get_user_by_email("nobody@example.com").unwrap_err(),
        DatabaseError::NotFound
    );
}

#[test]
fn test_empty_update_rejected() {
    let mut store = Store::new();
    store.create_user(1, &user_create("a@example.com", "A"), 10).unwrap();
    assert_eq!(
        store.update_user(1, &UserUpdate::new(), 11).unwrap_err(),
        DatabaseError::EmptyUpdate
    );
    assert_eq!(
        store.update_session(&vec![0u8; 32], &SessionUpdate::new()).unwrap_err(),
        DatabaseError::EmptyUpdate
    );
    assert_eq!(
        store
            .update_passkey(7, &PasskeyCredentialUpdate::new())
            .unwrap_err(),
        DatabaseError::EmptyUpdate
    );
}

#[test]
fn test_update_user_changes_fields() {
    let mut store = Store::new();
    store.create_user(1, &user_create("a@example.com", "A"), 10).unwrap();
    let updated = store
        .update_user(
            1,
            &UserUpdate::new().with_display_name("A Prime".to_string()),
            20,
        )
        .unwrap();
    assert_eq!(updated.display_name(), "A Prime");
    assert_eq!(updated.email(), "a@example.com");
    assert_eq!(updated.created_at(), 10);
    assert_eq!(updated.updated_at(), 20);
}

#[test]
fn test_create_passkey_unknown_user() {
    let mut store = Store::new();
    let err = store
        .create_passkey(
            1,
            999,
            &NewPasskeyCredential {
                display_name: None,
                passkey: b"m".to_vec(),
                credential_id: vec![1],
            },
            10,
        )
        .unwrap_err();
    assert_eq!(err, DatabaseError::Other);
}

#[test]
fn test_create_authentication_unknown_email() {
    let mut store = Store::new();
    let state = PasskeyAuthenticationState {
        id: 5,
        email: Some("nobody@example.com".to_string()),
        state: PasskeyAuthenticationStateType::Regular(b"c".to_vec()),
        created_at: 10,
    };
    assert_eq!(
        store.create_passkey_authentication(&state).unwrap_err(),
        DatabaseError::UserNotFound
    );
}

#[test]
fn test_update_session_cannot_reactivate() {
    let mut store = Store::new();
    let user = store.create_user(1, &user_create("a@example.com", "A"), 10).unwrap();
    let id_hash = blake3::hash(b"some-token").as_bytes().to_vec();
    let session = Session {
        user_id: user.id(),
        id_hash: id_hash.clone(),
        state: SessionState::Active,
        created_at: 10,
        expires_at: 10 + 86400,
        is_admin: false,
        parent_id_hash: None,
    };
    store.create_session(&session).unwrap();
    store
        .update_session(&id_hash, &SessionUpdate::new().with_state(SessionState::LoggedOut))
        .unwrap();
    let err = store
        .update_session(&id_hash, &SessionUpdate::new().with_state(SessionState::Active))
        .unwrap_err();
    assert_eq!(err, DatabaseError::Other);
    let got = store.get_session_by_id_hash(&id_hash).unwrap();
    assert_eq!(got.state, SessionState::LoggedOut);
}

#[test]
fn test_tags_roundtrip() {
    let mut store = Store::new();
    let user = store.create_user(1, &user_create("a@example.com", "A"), 10).unwrap();
    let tag = store
        .create_tag(77, &TagUpdate::new().with_name("iam::admin".to_string()), 10)
        .unwrap();
    assert_eq!(store.get_tag_by_name("iam::admin").unwrap().id, 77);
    store.add_tag_to_user(user.id(), &tag).unwrap();
    let tags = store.get_tags_by_user_id(user.id()).unwrap();
    assert_eq!(tags.len(), 1);
    assert_eq!(tags[0].name, "iam::admin");
    let users = store.get_users_by_tag_id(77).unwrap();
    assert_eq!(users.len(), 1);
    assert_eq!(users[0].id(), user.id());
    store.remove_tag_from_user(user.id(), &tag).unwrap();
    assert!(store.get_tags_by_user_id(user.id()).unwrap().is_empty());
}

#[test]
fn test_cleanup_expired_ceremonies() {
    let mut store = Store::new();
    let old_reg = PasskeyRegistrationState {
        id: 1,
        user_id: 10,
        email: "a@example.com".to_string(),
        registration: b"c1".to_vec(),
        created_at: 500,
    };
    let fresh_reg = PasskeyRegistrationState {
        id: 2,
        user_id: 11,
        email: "b@example.com".to_string(),
        registration: b"c2".to_vec(),
        created_at: 900,
    };
    store.create_passkey_registration(&old_reg).unwrap();
    store.create_passkey_registration(&fresh_reg).unwrap();
    let old_auth = PasskeyAuthenticationState {
        id: 3,
        email: None,
        state: PasskeyAuthenticationStateType::Discoverable(b"c3".to_vec()),
        created_at: 500,
    };
    store.create_passkey_authentication(&old_auth).unwrap();

    store.cleanup_expired_ceremonies(1000);

    assert_eq!(
        store.get_passkey_registration_by_id(1).unwrap_err(),
        DatabaseError::NotFound
    );
    assert_eq!(store.get_passkey_registration_by_id(2).unwrap().id, 2);
    assert_eq!(
        store.get_passkey_authentication_by_id(3).unwrap_err(),
        DatabaseError::NotFound
    );
}

#[test]
fn test_get_passkeys_by_user_email() {
    let mut store = Store::new();
    store.create_user(1, &user_create("a@example.com", "A"), 10).unwrap();
    store.create_user(2, &user_create("b@example.com", "B"), 10).unwrap();
    store
        .create_passkey(
            501,
            1,
            &NewPasskeyCredential {
                display_name: None,
                passkey: b"m1".to_vec(),
                credential_id: vec![1],
            },
            10,
        )
        .unwrap();
    store
        .create_passkey(
            502,
            2,
            &NewPasskeyCredential {
                display_name: None,
                passkey: b"m2".to_vec(),
                credential_id: vec![2],
            },
            10,
        )
        .unwrap();
    let keys = store.get_passkeys_by_user_email("a@example.com").unwrap();
    assert_eq!(keys.len(), 1);
    assert_eq!(keys[0].id, 501);
    assert!(store.get_passkeys_by_user_email("nobody@example.com").unwrap().is_empty());
    let by_cred = store.get_passkey_by_credential_id(&[2]).unwrap();
    assert_eq!(by_cred.id, 502);
    assert_eq!(by_cred.user_id, 2);
}

#[test]
fn test_delete_passkey_and_user() {
    let mut store = Store::new();
    store.create_user(1, &user_create("a@example.com", "A"), 10).unwrap();
    store
        .create_passkey(
            501,
            1,
            &NewPasskeyCredential {
                display_name: None,
                passkey: b"m1".to_vec(),
                credential_id: vec![1],
            },
            10,
        )
        .unwrap();
    store.delete_passkey_by_id(501).unwrap();
    assert_eq!(store.get_passkey_by_id(501).unwrap_err(), DatabaseError::NotFound);
    store.delete_user_by_id(1).unwrap();
    assert_eq!(store.get_user_by_id(1).unwrap_err(), DatabaseError::NotFound);
    // deleting again is harmless
    store.delete_user_by_id(1).unwrap();
}

#[test]
fn test_update_tag_and_delete() {
    let mut store = Store::new();
    store
        .create_tag(7, &TagUpdate::new().with_name("alpha".to_string()), 10)
        .unwrap();
    let updated = store
        .update_tag(7, &TagUpdate::new().with_name("beta".to_string()), 20)
        .unwrap();
    assert_eq!(updated.name, "beta");
    assert_eq!(updated.updated_at, 20);
    assert_eq!(store.get_tag_by_id(7).unwrap().name, "beta");
    store.delete_tag_by_id(7).unwrap();
    assert_eq!(store.get_tag_by_id(7).unwrap_err(), DatabaseError::NotFound);
}

#[test]
fn test_duplicate_ids_rejected() {
    let mut store = Store::new();
    store.create_user(1, &user_create("a@example.com", "A"), 10).unwrap();
    assert_eq!(
        store
            .create_user(1, &user_create("b@example.com", "B"), 10)
            .unwrap_err(),
        DatabaseError::UniquenessViolation {
            field: Some(UniqueField::Id)
        }
    );
    store
        .create_tag(7, &TagUpdate::new().with_name("alpha".to_string()), 10)
        .unwrap();
    assert_eq!(
        store
            .create_tag(8, &TagUpdate::new().with_name("alpha".to_string()), 10)
            .unwrap_err(),
        DatabaseError::UniquenessViolation {
            field: Some(UniqueField::Name)
        }
    );
}
