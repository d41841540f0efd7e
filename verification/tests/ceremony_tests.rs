//! Tests of the registration and authentication orchestrators: ceremony
//! expiry, compensation, the discoverable cross-check, and session minting
//! at ceremony finish.

use iam_core::authentication::{
    finalize_discoverable_authentication, finish_authentication,
    finish_conditional_ui_authentication, issue_session_for_email, start_authentication,
    start_conditional_ui_authentication,
};
use iam_core::errors::{ApiError, DatabaseError, UniqueField};
use iam_core::models::{
    AuthenticationStartRequest, NewPasskeyCredential, PasskeyAuthenticationState,
    PasskeyAuthenticationStateType, SessionState, UserCreate,
};
use iam_core::registration::{complete_registration, finish_registration, start_registration};
use iam_core::store::Store;
use webauthn_rs::prelude::{PublicKeyCredential, RegisterPublicKeyCredential, Url};
use webauthn_rs::{Webauthn, WebauthnBuilder};

fn webauthn() -> Webauthn {
    WebauthnBuilder::new("example.org", &Url::parse("http://example.org").unwrap())
        .unwrap()
        .build()
        .unwrap()
}

fn token(fill: u8) -> Vec<u8> {
    vec![fill; 32]
}

fn user_create(email: &str) -> UserCreate {
    UserCreate {
        email: email.to_string(),
        display_name: "Test User".to_string(),
    }
}

/// A syntactically valid registration response that cannot pass
/// verification.
fn bogus_registration_response() -> RegisterPublicKeyCredential {
    serde_json::from_str(
        "{\"id\":\"AAECAw\",\"rawId\":\"AAECAw\",\
         \"response\":{\"attestationObject\":\"AAAA\",\"clientDataJSON\":\"AAAA\"},\
         \"type\":\"public-key\"}",
    )
    .unwrap()
}

/// A syntactically valid assertion response claiming user
/// 0x000102030405060708090a0b0c0d0e0f with credential id [0, 1, 2, 3].
fn crafted_assertion_response() -> PublicKeyCredential {
    serde_json::from_str(
        "{\"id\":\"AAECAw\",\"rawId\":\"AAECAw\",\
         \"response\":{\"authenticatorData\":\"AAAA\",\"clientDataJSON\":\"AAAA\",\
         \"signature\":\"AAAA\",\"userHandle\":\"AAECAwQFBgcICQoLDA0ODw\"},\
         \"type\":\"public-key\"}",
    )
    .unwrap()
}

const CLAIMED_USER: u128 = 0x0001_0203_0405_0607_0809_0a0b_0c0d_0e0f;

#[test]
fn test_start_registration_creates_ceremony() {
    let mut store = Store::new();
    let (_challenge, handle) =
        start_registration(&mut store, &webauthn(), &user_create("new@example.com"), 1000)
            .unwrap();
    let ceremony = store.get_passkey_registration_by_id(handle).unwrap();
    assert_eq!(ceremony.email, "new@example.com");
    assert_eq!(ceremony.created_at, 1000);
}

#[test]
fn test_registration_unknown_handle() {
    let mut store = Store::new();
    let err = finish_registration(
        &mut store,
        &webauthn(),
        424_242,
        &user_create("new@example.com"),
        &bogus_registration_response(),
        1000,
    )
    .unwrap_err();
    assert_eq!(err, ApiError::InvalidCeremonyHandle);
}

#[test]
fn test_registration_finish_expired() {
    let mut store = Store::new();
    let wa = webauthn();
    let (_c, handle) =
        start_registration(&mut store, &wa, &user_create("new@example.com"), 1000).unwrap();
    // one second past the ceremony TTL: expiry wins before verification
    let err = finish_registration(
        &mut store,
        &wa,
        handle,
        &user_create("new@example.com"),
        &bogus_registration_response(),
        1000 + 300 + 1,
    )
    .unwrap_err();
    assert_eq!(err, ApiError::CeremonyExpired);
    // no user was created
    assert!(store.get_user_by_email("new@example.com").is_err());
}

#[test]
fn test_registration_finish_fresh_proceeds_to_verification() {
    let mut store = Store::new();
    let wa = webauthn();
    let (_c, handle) =
        start_registration(&mut store, &wa, &user_create("new@example.com"), 1000).unwrap();
    // exactly at the TTL the ceremony still proceeds, and the bogus
    // response fails cryptographic verification instead
    let err = finish_registration(
        &mut store,
        &wa,
        handle,
        &user_create("new@example.com"),
        &bogus_registration_response(),
        1000 + 300,
    )
    .unwrap_err();
    assert_eq!(err, ApiError::VerificationFailed);
    assert!(store.get_user_by_email("new@example.com").is_err());
}

#[test]
fn test_complete_registration_success() {
    let mut store = Store::new();
    let raw = token(5);
    let (user, session) = complete_registration(
        &mut store,
        77,
        &user_create("new@example.com"),
        b"opaque-material".to_vec(),
        vec![1, 2, 3],
        501,
        &raw,
        1000,
    )
    .unwrap();
    assert_eq!(user.id(), 77);
    assert_eq!(user.email(), "new@example.com");
    assert_eq!(session.user_id, 77);
    assert_eq!(session.state, SessionState::Active);
    assert_eq!(session.created_at, 1000);
    assert_eq!(session.expires_at, 1000 + 86400);
    assert!(!session.is_admin);
    // the user, credential and session are all stored
    assert!(store.get_user_by_id(77).is_ok());
    assert!(store.get_passkey_by_id(501).is_ok());
    assert!(iam_core::session::validate_session(&store, &raw, 1000).is_ok());
}

#[test]
fn test_registration_compensation() {
    // a credential id that is already registered makes credential creation
    // fail after user creation; the user must be compensated away
    let mut store = Store::new();
    store.create_user(1, &user_create("old@example.com"), 10).unwrap();
    store
        .create_passkey(
            500,
            1,
            &NewPasskeyCredential {
                display_name: None,
                passkey: b"m".to_vec(),
                credential_id: vec![1, 2, 3],
            },
            10,
        )
        .unwrap();

    let err = complete_registration(
        &mut store,
        77,
        &user_create("new@example.com"),
        b"opaque-material".to_vec(),
        vec![1, 2, 3],
        501,
        &token(5),
        1000,
    )
    .unwrap_err();
    // the caller receives the credential-creation error ...
    assert_eq!(
        err,
        ApiError::Database(DatabaseError::UniquenessViolation {
            field: Some(UniqueField::CredentialId)
        })
    );
    // ... and no partial user remains
    assert!(store.get_user_by_id(77).is_err());
    assert!(store.get_user_by_email("new@example.com").is_err());
}

#[test]
fn test_complete_registration_duplicate_email() {
    let mut store = Store::new();
    store.create_user(1, &user_create("taken@example.com"), 10).unwrap();
    let err = complete_registration(
        &mut store,
        77,
        &user_create("taken@example.com"),
        b"m".to_vec(),
        vec![9],
        501,
        &token(5),
        1000,
    )
    .unwrap_err();
    assert_eq!(
        err,
        ApiError::Database(DatabaseError::UniquenessViolation {
            field: Some(UniqueField::Email)
        })
    );
    assert!(store.get_user_by_id(77).is_err());
}

#[test]
fn test_start_authentication_unknown_email() {
    let mut store = Store::new();
    let err = start_authentication(
        &mut store,
        &webauthn(),
        &AuthenticationStartRequest {
            email: "nobody@example.com".to_string(),
        },
        1000,
    )
    .unwrap_err();
    assert_eq!(err, ApiError::UserNotFound);
}

#[test]
fn test_start_authentication_no_credentials() {
    // the user exists but owns no credential: the ceremony library is
    // content to start with an empty candidate set, and the ceremony is
    // recorded as targeted at the email
    let mut store = Store::new();
    store.create_user(1, &user_create("a@example.com"), 10).unwrap();
    let (_challenge, handle) = start_authentication(
        &mut store,
        &webauthn(),
        &AuthenticationStartRequest {
            email: "a@example.com".to_string(),
        },
        1000,
    )
    .unwrap();
    let ceremony = store.get_passkey_authentication_by_id(handle).unwrap();
    assert_eq!(ceremony.email, Some("a@example.com".to_string()));
    assert!(matches!(
        ceremony.state,
        PasskeyAuthenticationStateType::Regular(_)
    ));
    assert_eq!(ceremony.created_at, 1000);
}

#[test]
fn test_targeted_finish_expired() {
    let mut store = Store::new();
    store.create_user(1, &user_create("a@example.com"), 10).unwrap();
    let state = PasskeyAuthenticationState {
        id: 42,
        email: Some("a@example.com".to_string()),
        state: PasskeyAuthenticationStateType::Regular(b"continuation".to_vec()),
        created_at: 1000,
    };
    store.create_passkey_authentication(&state).unwrap();
    let err = finish_authentication(
        &mut store,
        &webauthn(),
        42,
        &crafted_assertion_response(),
        1000 + 300 + 1,
    )
    .unwrap_err();
    assert_eq!(err, ApiError::CeremonyExpired);
}

#[test]
fn test_targeted_finish_unknown_handle() {
    let mut store = Store::new();
    let err = finish_authentication(
        &mut store,
        &webauthn(),
        42,
        &crafted_assertion_response(),
        1000,
    )
    .unwrap_err();
    assert_eq!(err, ApiError::InvalidCeremonyHandle);
}

#[test]
fn test_targeted_finish_wrong_mode() {
    // a discoverable-tagged ceremony cannot be finished through the
    // targeted endpoint
    let mut store = Store::new();
    let state = PasskeyAuthenticationState {
        id: 42,
        email: None,
        state: PasskeyAuthenticationStateType::Discoverable(b"continuation".to_vec()),
        created_at: 1000,
    };
    store.create_passkey_authentication(&state).unwrap();
    let err = finish_authentication(
        &mut store,
        &webauthn(),
        42,
        &crafted_assertion_response(),
        1001,
    )
    .unwrap_err();
    assert_eq!(err, ApiError::InvalidCeremonyHandle);
}

#[test]
fn test_issue_session_for_email() {
    // targeted-mode scenario: one stored credential for the email, the
    // ceremony library reported the response valid; the minted session
    // belongs to that email's user, is active, and expires one session TTL
    // after its creation
    let mut store = Store::new();
    store.create_user(1, &user_create("test@example.com"), 10).unwrap();
    store
        .create_passkey(
            500,
            1,
            &NewPasskeyCredential {
                display_name: None,
                passkey: b"m".to_vec(),
                credential_id: vec![1],
            },
            10,
        )
        .unwrap();
    let raw = token(6);
    let (user, session) =
        issue_session_for_email(&mut store, "test@example.com", &raw, 2000).unwrap();
    assert_eq!(user.email(), "test@example.com");
    assert_eq!(session.user_id, user.id());
    assert_eq!(session.state, SessionState::Active);
    assert_eq!(session.expires_at, session.created_at + 86400);
    let validated = iam_core::session::validate_session(&store, &raw, 2001).unwrap();
    assert_eq!(validated.user_id, user.id());
}

#[test]
fn test_issue_session_unknown_email() {
    let mut store = Store::new();
    let err =
        issue_session_for_email(&mut store, "nobody@example.com", &token(6), 2000).unwrap_err();
    assert_eq!(err, ApiError::NotFound);
}

#[test]
fn test_discoverable_cross_check_mismatch() {
    // the fetched credential belongs to user B while the response claimed
    // user A: a hard authentication failure, no session for either user
    let mut store = Store::new();
    store.create_user(CLAIMED_USER, &user_create("a@example.com"), 10).unwrap();
    store.create_user(2, &user_create("b@example.com"), 10).unwrap();
    store
        .create_passkey(
            500,
            2,
            &NewPasskeyCredential {
                display_name: None,
                passkey: b"m".to_vec(),
                credential_id: vec![0, 1, 2, 3],
            },
            10,
        )
        .unwrap();
    let credential = store.get_passkey_by_id(500).unwrap();
    let raw = token(6);
    let err =
        finalize_discoverable_authentication(&mut store, CLAIMED_USER, &credential, &raw, 2000)
            .unwrap_err();
    assert_eq!(err, ApiError::VerificationFailed);
    assert_eq!(
        iam_core::session::validate_session(&store, &raw, 2000).unwrap_err(),
        ApiError::NotLoggedIn
    );
}

#[test]
fn test_discoverable_cross_check_match() {
    let mut store = Store::new();
    store.create_user(2, &user_create("b@example.com"), 10).unwrap();
    store
        .create_passkey(
            500,
            2,
            &NewPasskeyCredential {
                display_name: None,
                passkey: b"m".to_vec(),
                credential_id: vec![0, 1, 2, 3],
            },
            10,
        )
        .unwrap();
    let credential = store.get_passkey_by_id(500).unwrap();
    let (user, session) =
        finalize_discoverable_authentication(&mut store, 2, &credential, &token(6), 2000).unwrap();
    assert_eq!(user.id(), 2);
    assert_eq!(session.user_id, 2);
    assert_eq!(session.state, SessionState::Active);
}

#[test]
fn test_discoverable_finish_expired() {
    let mut store = Store::new();
    let state = PasskeyAuthenticationState {
        id: 42,
        email: None,
        state: PasskeyAuthenticationStateType::Discoverable(b"continuation".to_vec()),
        created_at: 1000,
    };
    store.create_passkey_authentication(&state).unwrap();
    let err = finish_conditional_ui_authentication(
        &mut store,
        &webauthn(),
        42,
        &crafted_assertion_response(),
        1000 + 300 + 1,
    )
    .unwrap_err();
    assert_eq!(err, ApiError::CeremonyExpired);
}

#[test]
fn test_discoverable_unknown_credential() {
    // the response names a credential id no passkey carries: the same
    // error as a bad handle, so credential ids cannot be probed
    let mut store = Store::new();
    let state = PasskeyAuthenticationState {
        id: 42,
        email: None,
        state: PasskeyAuthenticationStateType::Discoverable(b"continuation".to_vec()),
        created_at: 1000,
    };
    store.create_passkey_authentication(&state).unwrap();
    let err = finish_conditional_ui_authentication(
        &mut store,
        &webauthn(),
        42,
        &crafted_assertion_response(),
        1001,
    )
    .unwrap_err();
    assert_eq!(err, ApiError::InvalidCeremonyHandle);
}

#[test]
fn test_conditional_ui_start_creates_ceremony() {
    let mut store = Store::new();
    let (_challenge, handle) =
        start_conditional_ui_authentication(&mut store, &webauthn(), 1000).unwrap();
    let ceremony = store.get_passkey_authentication_by_id(handle).unwrap();
    assert_eq!(ceremony.email, None);
    assert!(matches!(
        ceremony.state,
        PasskeyAuthenticationStateType::Discoverable(_)
    ));
    assert_eq!(ceremony.created_at, 1000);
}

#[test]
fn test_start_registration_empty_email() {
    // the ceremony library refuses to begin registration for an empty
    // user name; no ceremony state is recorded
    let mut store = Store::new();
    let err = start_registration(&mut store, &webauthn(), &user_create(""), 1000).unwrap_err();
    assert_eq!(err, ApiError::Webauthn);
}
