//! Tests of the session manager: token one-wayness, validation, logout,
//! supersession monotonicity, and the elevate / de-elevate protocol.

use iam_core::errors::ApiError;
use iam_core::models::{SessionState, TagUpdate, UpgradeTarget, UserCreate};
use iam_core::session::{
    downgrade_session_with_token, get_session, logout, mint, new_session, supersede_session,
    upgrade_session_with_token, validate_admin_session, validate_session, ADMIN_TAG,
};
use iam_core::store::Store;

fn token(fill: u8) -> Vec<u8> {
    vec![fill; 32]
}

fn store_with_user(email: &str, id: u128) -> Store {
    let mut store = Store::new();
    store
        .create_user(
            id,
            &UserCreate {
                email: email.to_string(),
                display_name: "Test User".to_string(),
            },
            100,
        )
        .unwrap();
    store
}

fn grant_admin(store: &mut Store, user_id: u128) {
    let tag = store
        .create_tag(900, &TagUpdate::new().with_name(ADMIN_TAG.to_string()), 100)
        .unwrap();
    store.add_tag_to_user(user_id, &tag).unwrap();
}

#[test]
fn test_mint_and_validate() {
    let mut store = store_with_user("a@example.com", 1);
    let raw = token(7);
    let session = mint(&mut store, 1, false, None, &raw, 1000).unwrap();
    // the stored identifier is the hash of the token, never the token
    assert_eq!(session.id_hash.len(), 32);
    assert_ne!(session.id_hash, raw);
    assert_eq!(session.state, SessionState::Active);
    assert_eq!(session.created_at, 1000);
    assert_eq!(session.expires_at, 1000 + 86400);
    assert!(!session.is_admin);
    assert_eq!(session.parent_id_hash, None);

    let validated = validate_session(&store, &raw, 1000).unwrap();
    assert_eq!(validated.user_id, 1);
    assert_eq!(validated.id_hash, session.id_hash);
}

#[test]
fn test_unknown_token_never_validates() {
    let mut store = store_with_user("a@example.com", 1);
    mint(&mut store, 1, false, None, &token(7), 1000).unwrap();
    let err = validate_session(&store, &token(8), 1000).unwrap_err();
    assert_eq!(err, ApiError::NotLoggedIn);
}

#[test]
fn test_fresh_tokens_differ() {
    let mut store = store_with_user("a@example.com", 1);
    let (s1, t1) = new_session(&mut store, 1, false, None, 1000).unwrap();
    let (s2, t2) = new_session(&mut store, 1, false, None, 1000).unwrap();
    assert_eq!(t1.len(), 32);
    assert_eq!(t2.len(), 32);
    assert_ne!(t1, t2);
    assert_ne!(s1.id_hash, s2.id_hash);
    // both tokens validate to their own session
    assert_eq!(validate_session(&store, &t1, 1000).unwrap().id_hash, s1.id_hash);
    assert_eq!(validate_session(&store, &t2, 1000).unwrap().id_hash, s2.id_hash);
}

#[test]
fn test_new_uuid_differs() {
    assert_ne!(iam_core::models::new_uuid(), iam_core::models::new_uuid());
}

#[test]
fn test_validate_expiry_boundary() {
    let mut store = store_with_user("a@example.com", 1);
    let raw = token(7);
    mint(&mut store, 1, false, None, &raw, 1000).unwrap();
    // still valid at the expiry instant, invalid one second later
    assert!(validate_session(&store, &raw, 1000 + 86400).is_ok());
    assert_eq!(
        validate_session(&store, &raw, 1000 + 86400 + 1).unwrap_err(),
        ApiError::SessionExpired
    );
}

#[test]
fn test_logout_then_validate_fails() {
    let mut store = store_with_user("a@example.com", 1);
    let raw = token(7);
    let session = mint(&mut store, 1, false, None, &raw, 1000).unwrap();
    logout(&mut store, &session).unwrap();
    assert_eq!(
        validate_session(&store, &raw, 1001).unwrap_err(),
        ApiError::SessionExpired
    );
    // logout is idempotent on a terminal session
    logout(&mut store, &session).unwrap();
    let got = store.get_session_by_id_hash(&session.id_hash).unwrap();
    assert_eq!(got.state, SessionState::LoggedOut);
}

#[test]
fn test_logout_unknown_session_fails() {
    let mut store = store_with_user("a@example.com", 1);
    let raw = token(7);
    let session = mint(&mut store, 1, false, None, &raw, 1000).unwrap();
    let mut other = session.clone();
    other.id_hash = vec![0u8; 32];
    assert_eq!(logout(&mut store, &other).unwrap_err(), ApiError::NotFound);
}

#[test]
fn test_superseded_never_reactivated() {
    let mut store = store_with_user("a@example.com", 1);
    let raw = token(7);
    let session = mint(&mut store, 1, false, None, &raw, 1000).unwrap();
    supersede_session(&mut store, &session).unwrap();
    let got = store.get_session_by_id_hash(&session.id_hash).unwrap();
    assert_eq!(got.state, SessionState::Superseded);
    // no later call can return it to Active: the store refuses
    let err = store
        .update_session(
            &session.id_hash,
            &iam_core::models::SessionUpdate::new().with_state(SessionState::Active),
        )
        .unwrap_err();
    assert_eq!(err, iam_core::errors::DatabaseError::Other);
    assert_eq!(
        validate_session(&store, &raw, 1001).unwrap_err(),
        ApiError::SessionExpired
    );
}

#[test]
fn test_elevate_deelevate_round_trip() {
    let mut store = store_with_user("admin@example.com", 1);
    grant_admin(&mut store, 1);
    let raw0 = token(1);
    let session = mint(&mut store, 1, false, None, &raw0, 1000).unwrap();

    // elevate: S' is elevated, same user, parent = S; S becomes invalid
    let raw1 = token(2);
    let elevated =
        upgrade_session_with_token(&mut store, &session, UpgradeTarget::Admin, &raw1, 1010)
            .unwrap();
    assert!(elevated.is_admin);
    assert_eq!(elevated.user_id, 1);
    assert_eq!(elevated.parent_id_hash, Some(session.id_hash.clone()));
    assert_eq!(
        validate_session(&store, &raw0, 1011).unwrap_err(),
        ApiError::SessionExpired
    );
    assert!(validate_session(&store, &raw1, 1011).is_ok());
    assert!(validate_admin_session(&store, &raw1, 1011).is_ok());

    // de-elevate: S'' has the original privilege, same user, parent = S';
    // S' becomes invalid
    let raw2 = token(3);
    let restored = downgrade_session_with_token(&mut store, &elevated, &raw2, 1020).unwrap();
    assert_eq!(restored.user_id, 1);
    assert_eq!(restored.is_admin, session.is_admin);
    assert!(!restored.is_admin);
    assert_eq!(restored.parent_id_hash, Some(elevated.id_hash.clone()));
    assert_eq!(
        validate_session(&store, &raw1, 1021).unwrap_err(),
        ApiError::SessionExpired
    );
    let validated = validate_session(&store, &raw2, 1021).unwrap();
    assert_eq!(validated.id_hash, restored.id_hash);
}

#[test]
fn test_elevate_without_admin_tag() {
    let mut store = store_with_user("user@example.com", 1);
    let raw = token(1);
    let session = mint(&mut store, 1, false, None, &raw, 1000).unwrap();
    let err = upgrade_session_with_token(&mut store, &session, UpgradeTarget::Admin, &token(2), 1010)
        .unwrap_err();
    assert_eq!(err, ApiError::NotAuthorized);
    // the original session remains Active
    let got = store.get_session_by_id_hash(&session.id_hash).unwrap();
    assert_eq!(got.state, SessionState::Active);
    assert!(validate_session(&store, &raw, 1011).is_ok());
}

#[test]
fn test_downgrade_without_parent() {
    let mut store = store_with_user("a@example.com", 1);
    let session = mint(&mut store, 1, false, None, &token(1), 1000).unwrap();
    let err = downgrade_session_with_token(&mut store, &session, &token(2), 1010).unwrap_err();
    assert_eq!(err, ApiError::DowngradeImpossible);
}

#[test]
fn test_validate_admin_session_requires_admin() {
    let mut store = store_with_user("a@example.com", 1);
    let raw = token(1);
    mint(&mut store, 1, false, None, &raw, 1000).unwrap();
    assert_eq!(
        validate_admin_session(&store, &raw, 1001).unwrap_err(),
        ApiError::NotAuthorized
    );
    assert_eq!(
        validate_admin_session(&store, &token(9), 1001).unwrap_err(),
        ApiError::NotLoggedIn
    );
}

#[test]
fn test_get_session_info() {
    let mut store = store_with_user("a@example.com", 1);
    grant_admin(&mut store, 1);
    let session = mint(&mut store, 1, false, None, &token(1), 1000).unwrap();
    let info = get_session(&store, &session).unwrap();
    assert_eq!(info.user.id(), 1);
    assert_eq!(info.user.email(), "a@example.com");
    assert_eq!(info.tags.len(), 1);
    assert_eq!(info.tags[0].name, ADMIN_TAG);
    assert_eq!(info.session.id_hash, session.id_hash);
}

#[test]
fn test_mint_same_token_twice() {
    let mut store = store_with_user("a@example.com", 1);
    let raw = token(7);
    mint(&mut store, 1, false, None, &raw, 1000).unwrap();
    let err = mint(&mut store, 1, false, None, &raw, 1001).unwrap_err();
    assert_eq!(
        err,
        iam_core::errors::DatabaseError::UniquenessViolation {
            field: Some(iam_core::errors::UniqueField::IdHash)
        }
    );
}
