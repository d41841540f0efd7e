//! The authentication orchestrator: drives "prove possession of an existing
//! credential" ceremonies, in targeted (email-first) and discoverable
//! (credential-first) modes.
//!
//! In the discoverable mode the client's response itself claims a user id;
//! that claim is never trusted: the credential it names is fetched and its
//! owner is cross-checked against the claim after verification, and a
//! mismatch is a hard authentication failure. Lookup failures in that mode
//! surface as the same error as an invalid ceremony handle, so a caller
//! cannot probe which credential ids exist.

use vstd::prelude::*;
use webauthn_rs::prelude::{
    AuthenticationResult, DiscoverableKey, Passkey, PublicKeyCredential, RequestChallengeResponse,
};
use webauthn_rs::Webauthn;

use crate::ceremony::{
    auth_result_cred_id, auth_result_needs_update, decode_authentication, decode_discoverable,
    decode_passkey, encode_authentication, encode_discoverable, encode_passkey,
    passkey_to_discoverable_key, passkey_update_credential, wa_finish_authentication,
    wa_finish_discoverable_authentication, wa_identify_discoverable_authentication,
    wa_start_authentication, wa_start_discoverable_authentication,
};
use crate::crypto::{hash_of, random_token_bytes};
use crate::errors::{ApiError, DatabaseError};
use crate::models::{
    new_uuid, AuthenticationStartRequest, PasskeyAuthenticationState,
    PasskeyAuthenticationStateType, PasskeyCredential, PasskeyCredentialUpdate,
    PasskeyCredentialView, Session, User,
};
use crate::session::{mint, minted_session};
use crate::store::{
    authentication_by_id, has_authentication_id, has_session_hash, has_user_email, has_user_id,
    sessions_monotone, user_by_email, user_by_id, Store, StoreView,
};

verus! {

/// Whether `b` is `a` with at most the opaque credential material changed:
/// everything the orchestration layer reads of a stored credential — its
/// ids, owner, name and timestamps — is the same.
pub open spec fn same_except_material(a: PasskeyCredentialView, b: PasskeyCredentialView) -> bool {
    b == (PasskeyCredentialView { passkey: b.passkey, ..a })
}

/// Whether `post` is `pre` everywhere except possibly at index `j`.
pub open spec fn differs_only_at(
    pre: Seq<PasskeyCredentialView>,
    post: Seq<PasskeyCredentialView>,
    j: int,
) -> bool {
    forall|i: int| 0 <= i < pre.len() && i != j ==> #[trigger] post[i] == pre[i]
}

/// Applies a verified assertion to the stored credential it was made with:
/// fetches the credential by the assertion's credential id, folds the
/// assertion into its opaque material, and persists the new material if it
/// changed. Nothing else about any credential changes.
pub fn do_passkey_update(store: &mut Store, result: &AuthenticationResult) -> (r: Result<
    (),
    ApiError,
>)
    requires
        old(store)@.wf(),
    ensures
        final(store)@.wf(),
        final(store)@ == (StoreView { passkeys: final(store)@.passkeys, ..old(store)@ }),
        final(store)@.passkeys.len() == old(store)@.passkeys.len(),
        forall|i: int|
            0 <= i < old(store)@.passkeys.len() ==> same_except_material(
                old(store)@.passkeys[i],
                #[trigger] final(store)@.passkeys[i],
            ),
        exists|j: int|
            #[trigger] differs_only_at(old(store)@.passkeys, final(store)@.passkeys, j),
        r matches Err(e) ==> (e == ApiError::NotFound || e == ApiError::Webauthn || e matches
            ApiError::Database(_)),
{
    let ghost s0 = store@;
    proof {
        // the identity witness covers every path that writes nothing
        assert(differs_only_at(s0.passkeys, s0.passkeys, -1));
    }
    let cred_id = auth_result_cred_id(result);
    let stored = match store.get_passkey_by_credential_id(cred_id.as_slice()) {
        Ok(p) => p,
        Err(e) => {
            return Err(ApiError::from_database(e));
        },
    };
    proof {
        let cidx = crate::store::passkey_index_by_credential_id(s0.passkeys, cred_id@);
        assert(0 <= cidx < s0.passkeys.len() && s0.passkeys[cidx].id == stored@.id);
    }
    let mut material = match decode_passkey(&stored.passkey) {
        Some(p) => p,
        None => {
            return Err(ApiError::Database(DatabaseError::Other));
        },
    };
    let changed = passkey_update_credential(&mut material, result);
    if matches!(changed, Some(true)) {
        let new_material = match encode_passkey(&material) {
            Some(b) => b,
            None => {
                return Err(ApiError::Webauthn);
            },
        };
        let update = PasskeyCredentialUpdate::new().with_passkey(new_material);
        match store.update_passkey(stored.id, &update) {
            Ok(_) => {
                proof {
                    // exactly the updated row's slot may differ
                    let j = crate::store::passkey_index_by_id(s0.passkeys, stored.id);
                    assert(differs_only_at(s0.passkeys, store@.passkeys, j));
                }
                Ok(())
            },
            Err(e) => Err(ApiError::from_database(e)),
        }
    } else {
        Ok(())
    }
}

/// Resolves the user a finished targeted ceremony authenticated — by the
/// email captured at ceremony start — and mints an ordinary session for
/// them from the given raw token.
pub fn issue_session_for_email(store: &mut Store, email: &str, token: &Vec<u8>, now: i64) -> (r:
    Result<(User, Session), ApiError>)
    requires
        old(store)@.wf(),
        token@.len() == 32,
        0 <= now,
        now + crate::SESSION_TTL_SECONDS <= i64::MAX,
    ensures
        final(store)@.wf(),
        sessions_monotone(old(store)@.sessions, final(store)@.sessions),
        !has_user_email(old(store)@.users, email@) ==> r == Err::<(User, Session), ApiError>(
            ApiError::NotFound,
        ) && final(store)@ == old(store)@,
        has_user_email(old(store)@.users, email@) && has_session_hash(
            old(store)@.sessions,
            hash_of(token@),
        ) ==> r is Err && (r matches Err(e) ==> e matches ApiError::Database(_)) && final(store)@ == old(store)@,
        has_user_email(old(store)@.users, email@) && !has_session_hash(
            old(store)@.sessions,
            hash_of(token@),
        ) ==> match r {
            Ok(t) => {
                let user = user_by_email(old(store)@.users, email@);
                let sess = minted_session(user.id, false, None, hash_of(token@), now as int);
                t.0@ == user && t.1@ == sess && final(store)@ == (StoreView {
                    sessions: old(store)@.sessions.push(sess),
                    ..old(store)@
                })
            },
            Err(_) => false,
        },
{
    let user = match store.get_user_by_email(email) {
        Ok(u) => u,
        Err(e) => {
            return Err(ApiError::from_database(e));
        },
    };
    let session = match mint(store, user.id(), false, None, token, now) {
        Ok(s) => s,
        Err(e) => {
            return Err(ApiError::Database(e));
        },
    };
    Ok((user, session))
}

/// Starts a targeted authentication ceremony for the given email: loads the
/// credentials stored for that email, asks the ceremony library to begin
/// authentication against them, and persists the ceremony state tagged as
/// targeted, keeping the email for the user lookup at finish. No ceremony
/// is ever recorded for an email no user holds.
pub fn start_authentication(
    store: &mut Store,
    wa: &Webauthn,
    request: &AuthenticationStartRequest,
    now: i64,
) -> (r: Result<(RequestChallengeResponse, u128), ApiError>)
    requires
        old(store)@.wf(),
        0 <= now,
    ensures
        final(store)@.wf(),
        sessions_monotone(old(store)@.sessions, final(store)@.sessions),
        !has_user_email(old(store)@.users, request.email@) ==> r == Err::<
            (RequestChallengeResponse, u128),
            ApiError,
        >(ApiError::UserNotFound) && final(store)@ == old(store)@,
        r == Err::<(RequestChallengeResponse, u128), ApiError>(ApiError::UserNotFound)
            ==> !has_user_email(old(store)@.users, request.email@),
        match r {
            Ok(pair) => final(store)@.authentications.len() == old(store)@.authentications.len()
                + 1 && final(store)@ == (StoreView {
                authentications: old(store)@.authentications.push(
                    final(store)@.authentications.last(),
                ),
                ..old(store)@
            }) && final(store)@.authentications.last().id == pair.1 && final(store)@.authentications.last().email == Some(request.email@) && final(store)@.authentications.last().state is Regular && final(store)@.authentications.last().created_at == now as int,
            Err(e) => final(store)@ == old(store)@ && (e == ApiError::Webauthn || e
                == ApiError::UserNotFound || e matches ApiError::Database(_)),
        },
{
    let user = match store.get_user_by_email(request.email.as_str()) {
        Ok(u) => u,
        Err(_) => {
            return Err(ApiError::UserNotFound);
        },
    };
    let stored_credentials = match store.get_passkeys_by_user_id(user.id()) {
        Ok(c) => c,
        Err(e) => {
            return Err(ApiError::from_database(e));
        },
    };
    let mut candidates: Vec<Passkey> = Vec::new();
    let mut i: usize = 0;
    while i < stored_credentials.len()
        invariant
            store@ == old(store)@,
            old(store)@.wf(),
            has_user_email(old(store)@.users, request.email@),
        decreases stored_credentials.len() - i,
    {
        match decode_passkey(&stored_credentials[i].passkey) {
            Some(p) => candidates.push(p),
            None => {
                return Err(ApiError::Database(DatabaseError::Other));
            },
        }
        i = i + 1;
    }
    let (challenge, continuation) = match wa_start_authentication(wa, &candidates) {
        Ok(pair) => pair,
        Err(_) => {
            return Err(ApiError::Webauthn);
        },
    };
    let continuation_bytes = match encode_authentication(&continuation) {
        Some(b) => b,
        None => {
            return Err(ApiError::Webauthn);
        },
    };
    let authentication_id = new_uuid();
    let state = PasskeyAuthenticationState {
        id: authentication_id,
        email: Some(request.email.clone()),
        state: PasskeyAuthenticationStateType::Regular(continuation_bytes),
        created_at: now,
    };
    match store.create_passkey_authentication(&state) {
        Ok(()) => Ok((challenge, authentication_id)),
        Err(DatabaseError::UserNotFound) => Err(ApiError::UserNotFound),
        Err(e) => Err(ApiError::Database(e)),
    }
}

/// Finishes a targeted authentication ceremony: looks the ceremony state up
/// by its handle, rejects a missing handle, one past the ceremony TTL, or
/// one of the wrong mode, verifies the client's response against the stored
/// continuation, applies a credential update if the library asks for one,
/// then resolves the user by the ceremony's stored email and mints a
/// session, returning the user, the session, and the raw session token.
pub fn finish_authentication(
    store: &mut Store,
    wa: &Webauthn,
    authentication_id: u128,
    response: &PublicKeyCredential,
    now: i64,
) -> (r: Result<(User, Session, Vec<u8>), ApiError>)
    requires
        old(store)@.wf(),
        0 <= now,
        now + crate::SESSION_TTL_SECONDS <= i64::MAX,
    ensures
        final(store)@.wf(),
        sessions_monotone(old(store)@.sessions, final(store)@.sessions),
        !has_authentication_id(old(store)@.authentications, authentication_id) ==> r == Err::<
            (User, Session, Vec<u8>),
            ApiError,
        >(ApiError::InvalidCeremonyHandle) && final(store)@ == old(store)@,
        has_authentication_id(old(store)@.authentications, authentication_id) && now
            - authentication_by_id(old(store)@.authentications, authentication_id).created_at
            > crate::CEREMONY_TTL_SECONDS ==> r == Err::<(User, Session, Vec<u8>), ApiError>(
            ApiError::CeremonyExpired,
        ) && final(store)@ == old(store)@,
        has_authentication_id(old(store)@.authentications, authentication_id) && now
            - authentication_by_id(old(store)@.authentications, authentication_id).created_at
            <= crate::CEREMONY_TTL_SECONDS && !(authentication_by_id(
            old(store)@.authentications,
            authentication_id,
        ).state is Regular) ==> r == Err::<(User, Session, Vec<u8>), ApiError>(
            ApiError::InvalidCeremonyHandle,
        ) && final(store)@ == old(store)@,
        has_authentication_id(old(store)@.authentications, authentication_id) && now
            - authentication_by_id(old(store)@.authentications, authentication_id).created_at
            <= crate::CEREMONY_TTL_SECONDS ==> r != Err::<(User, Session, Vec<u8>), ApiError>(
            ApiError::CeremonyExpired,
        ),
        ({
            let ceremony = authentication_by_id(old(store)@.authentications, authentication_id);
            has_authentication_id(old(store)@.authentications, authentication_id) && now
                - ceremony.created_at <= crate::CEREMONY_TTL_SECONDS && ceremony.state is Regular
                && ceremony.email is Some ==> r != Err::<(User, Session, Vec<u8>), ApiError>(
                ApiError::InvalidCeremonyHandle,
            )
        }),
        forall|i: int|
            0 <= i < old(store)@.passkeys.len() ==> same_except_material(
                old(store)@.passkeys[i],
                #[trigger] final(store)@.passkeys[i],
            ),
        exists|j: int|
            #[trigger] differs_only_at(old(store)@.passkeys, final(store)@.passkeys, j),
        match r {
            Ok(t) => {
                let ceremony = authentication_by_id(
                    old(store)@.authentications,
                    authentication_id,
                );
                &&& has_authentication_id(old(store)@.authentications, authentication_id)
                &&& now - ceremony.created_at <= crate::CEREMONY_TTL_SECONDS
                &&& ceremony.state is Regular
                &&& ceremony.email is Some
                &&& has_user_email(old(store)@.users, ceremony.email->0)
                &&& t.0@ == user_by_email(old(store)@.users, ceremony.email->0)
                &&& t.2@.len() == 32
                &&& t.1@ == minted_session(t.0@.id, false, None, hash_of(t.2@), now as int)
                &&& final(store)@.sessions == old(store)@.sessions.push(t.1@)
                &&& final(store)@.users == old(store)@.users
                &&& final(store)@.authentications == old(store)@.authentications
                &&& final(store)@.passkeys.len() == old(store)@.passkeys.len()
            },
            Err(e) => {
                &&& final(store)@.sessions == old(store)@.sessions
                &&& final(store)@.users == old(store)@.users
                &&& final(store)@.authentications == old(store)@.authentications
                &&& (e == ApiError::InvalidCeremonyHandle || e == ApiError::CeremonyExpired || e
                    == ApiError::VerificationFailed || e == ApiError::NotFound || e
                    == ApiError::Webauthn || e matches ApiError::Database(_))
            },
        },
{
    proof {
        // the identity witness covers every path that writes no credential
        assert(differs_only_at(store@.passkeys, store@.passkeys, -1));
    }
    let ceremony = match store.get_passkey_authentication_by_id(authentication_id) {
        Ok(c) => c,
        Err(_) => {
            return Err(ApiError::InvalidCeremonyHandle);
        },
    };
    if now - ceremony.created_at > crate::CEREMONY_TTL_SECONDS {
        return Err(ApiError::CeremonyExpired);
    }
    let continuation_bytes = match &ceremony.state {
        PasskeyAuthenticationStateType::Regular(b) => b,
        PasskeyAuthenticationStateType::Discoverable(_) => {
            return Err(ApiError::InvalidCeremonyHandle);
        },
    };
    let continuation = match decode_authentication(continuation_bytes) {
        Some(c) => c,
        None => {
            return Err(ApiError::Database(DatabaseError::Other));
        },
    };
    let result = match wa_finish_authentication(wa, response, &continuation) {
        Ok(res) => res,
        Err(_) => {
            return Err(ApiError::VerificationFailed);
        },
    };
    if auth_result_needs_update(&result) {
        match do_passkey_update(store, &result) {
            Ok(()) => {},
            Err(e) => {
                return Err(e);
            },
        }
    }
    let email = match &ceremony.email {
        Some(e) => e,
        None => {
            return Err(ApiError::InvalidCeremonyHandle);
        },
    };
    let token = random_token_bytes();
    match issue_session_for_email(store, email.as_str(), &token, now) {
        Ok((user, session)) => Ok((user, session, token)),
        Err(e) => Err(e),
    }
}

/// Starts a discoverable (credential-first) authentication ceremony: asks
/// the ceremony library for a challenge with no candidate set and persists
/// the ceremony state tagged as discoverable, with no email.
pub fn start_conditional_ui_authentication(store: &mut Store, wa: &Webauthn, now: i64) -> (r:
    Result<(RequestChallengeResponse, u128), ApiError>)
    requires
        old(store)@.wf(),
        0 <= now,
    ensures
        final(store)@.wf(),
        sessions_monotone(old(store)@.sessions, final(store)@.sessions),
        match r {
            Ok(pair) => final(store)@.authentications.len() == old(store)@.authentications.len()
                + 1 && final(store)@ == (StoreView {
                authentications: old(store)@.authentications.push(
                    final(store)@.authentications.last(),
                ),
                ..old(store)@
            }) && final(store)@.authentications.last().id == pair.1 && final(store)@.authentications.last().email is None && final(store)@.authentications.last().state is Discoverable && final(store)@.authentications.last().created_at == now as int,
            Err(e) => final(store)@ == old(store)@ && (e == ApiError::Webauthn || e matches
                ApiError::Database(_)),
        },
{
    let (challenge, continuation) = match wa_start_discoverable_authentication(wa) {
        Ok(pair) => pair,
        Err(_) => {
            return Err(ApiError::Webauthn);
        },
    };
    let continuation_bytes = match encode_discoverable(&continuation) {
        Some(b) => b,
        None => {
            return Err(ApiError::Webauthn);
        },
    };
    let authentication_id = new_uuid();
    let state = PasskeyAuthenticationState {
        id: authentication_id,
        email: None,
        state: PasskeyAuthenticationStateType::Discoverable(continuation_bytes),
        created_at: now,
    };
    match store.create_passkey_authentication(&state) {
        Ok(()) => Ok((challenge, authentication_id)),
        Err(e) => Err(ApiError::Database(e)),
    }
}

/// Completes a verified discoverable ceremony: cross-checks that the
/// credential the client presented belongs to the user the client claimed
/// to be — a mismatch is a hard authentication failure, never silently
/// corrected — then resolves that user and mints an ordinary session from
/// the given raw token.
pub fn finalize_discoverable_authentication(
    store: &mut Store,
    claimed_user_id: u128,
    credential: &PasskeyCredential,
    token: &Vec<u8>,
    now: i64,
) -> (r: Result<(User, Session), ApiError>)
    requires
        old(store)@.wf(),
        token@.len() == 32,
        0 <= now,
        now + crate::SESSION_TTL_SECONDS <= i64::MAX,
    ensures
        final(store)@.wf(),
        sessions_monotone(old(store)@.sessions, final(store)@.sessions),
        credential@.user_id != claimed_user_id ==> r == Err::<(User, Session), ApiError>(
            ApiError::VerificationFailed,
        ) && final(store)@ == old(store)@,
        credential@.user_id == claimed_user_id && !has_user_id(old(store)@.users, claimed_user_id)
            ==> r == Err::<(User, Session), ApiError>(ApiError::NotFound) && final(store)@ == old(store)@,
        credential@.user_id == claimed_user_id && has_user_id(old(store)@.users, claimed_user_id)
            && has_session_hash(old(store)@.sessions, hash_of(token@)) ==> r is Err && (r
            matches Err(e) ==> e matches ApiError::Database(_)) && final(store)@ == old(store)@,
        credential@.user_id == claimed_user_id && has_user_id(old(store)@.users, claimed_user_id)
            && !has_session_hash(old(store)@.sessions, hash_of(token@)) ==> match r {
            Ok(t) => {
                let user = user_by_id(old(store)@.users, claimed_user_id);
                let sess = minted_session(user.id, false, None, hash_of(token@), now as int);
                t.0@ == user && t.1@ == sess && final(store)@ == (StoreView {
                    sessions: old(store)@.sessions.push(sess),
                    ..old(store)@
                })
            },
            Err(_) => false,
        },
{
    if credential.user_id != claimed_user_id {
        return Err(ApiError::VerificationFailed);
    }
    let user = match store.get_user_by_id(claimed_user_id) {
        Ok(u) => u,
        Err(e) => {
            return Err(ApiError::from_database(e));
        },
    };
    let session = match mint(store, user.id(), false, None, token, now) {
        Ok(s) => s,
        Err(e) => {
            return Err(ApiError::Database(e));
        },
    };
    Ok((user, session))
}

/// Finishes a discoverable authentication ceremony: reads the claimed user
/// and credential id out of the response, looks the ceremony state up by
/// its handle, rejects a missing handle, one past the ceremony TTL, or one
/// of the wrong mode, fetches the named credential — hiding whether it
/// exists behind the invalid-handle error — verifies the response, applies
/// a credential update if asked for, then cross-checks the claim and mints
/// a session for the credential's owner.
pub fn finish_conditional_ui_authentication(
    store: &mut Store,
    wa: &Webauthn,
    authentication_id: u128,
    response: &PublicKeyCredential,
    now: i64,
) -> (r: Result<(User, Session, Vec<u8>), ApiError>)
    requires
        old(store)@.wf(),
        0 <= now,
        now + crate::SESSION_TTL_SECONDS <= i64::MAX,
    ensures
        final(store)@.wf(),
        sessions_monotone(old(store)@.sessions, final(store)@.sessions),
        !has_authentication_id(old(store)@.authentications, authentication_id) ==> final(store)@
            == old(store)@ && (r == Err::<(User, Session, Vec<u8>), ApiError>(
            ApiError::InvalidCeremonyHandle,
        ) || r == Err::<(User, Session, Vec<u8>), ApiError>(ApiError::VerificationFailed)),
        has_authentication_id(old(store)@.authentications, authentication_id) && now
            - authentication_by_id(old(store)@.authentications, authentication_id).created_at
            > crate::CEREMONY_TTL_SECONDS ==> final(store)@ == old(store)@ && (r == Err::<
            (User, Session, Vec<u8>),
            ApiError,
        >(ApiError::CeremonyExpired) || r == Err::<(User, Session, Vec<u8>), ApiError>(
            ApiError::VerificationFailed,
        )),
        has_authentication_id(old(store)@.authentications, authentication_id) && now
            - authentication_by_id(old(store)@.authentications, authentication_id).created_at
            <= crate::CEREMONY_TTL_SECONDS ==> r != Err::<(User, Session, Vec<u8>), ApiError>(
            ApiError::CeremonyExpired,
        ),
        forall|i: int|
            0 <= i < old(store)@.passkeys.len() ==> same_except_material(
                old(store)@.passkeys[i],
                #[trigger] final(store)@.passkeys[i],
            ),
        exists|j: int|
            #[trigger] differs_only_at(old(store)@.passkeys, final(store)@.passkeys, j),
        match r {
            Ok(t) => {
                let ceremony = authentication_by_id(
                    old(store)@.authentications,
                    authentication_id,
                );
                &&& has_authentication_id(old(store)@.authentications, authentication_id)
                &&& now - ceremony.created_at <= crate::CEREMONY_TTL_SECONDS
                &&& ceremony.state is Discoverable
                &&& has_user_id(old(store)@.users, t.0@.id)
                &&& t.0@ == user_by_id(old(store)@.users, t.0@.id)
                &&& exists|i: int|
                    0 <= i < old(store)@.passkeys.len() && (#[trigger] old(store)@.passkeys[i]).user_id == t.0@.id
                &&& t.2@.len() == 32
                &&& t.1@ == minted_session(t.0@.id, false, None, hash_of(t.2@), now as int)
                &&& final(store)@.sessions == old(store)@.sessions.push(t.1@)
                &&& final(store)@.users == old(store)@.users
                &&& final(store)@.authentications == old(store)@.authentications
                &&& final(store)@.passkeys.len() == old(store)@.passkeys.len()
            },
            Err(e) => {
                &&& final(store)@.sessions == old(store)@.sessions
                &&& final(store)@.users == old(store)@.users
                &&& final(store)@.authentications == old(store)@.authentications
                &&& (e == ApiError::InvalidCeremonyHandle || e == ApiError::CeremonyExpired || e
                    == ApiError::VerificationFailed || e == ApiError::NotFound || e
                    == ApiError::Webauthn || e matches ApiError::Database(_))
            },
        },
{
    proof {
        // the identity witness covers every path that writes no credential
        assert(differs_only_at(store@.passkeys, store@.passkeys, -1));
    }
    let (claimed_user_id, cred_id) = match wa_identify_discoverable_authentication(wa, response) {
        Ok(pair) => pair,
        Err(_) => {
            return Err(ApiError::VerificationFailed);
        },
    };
    let ceremony = match store.get_passkey_authentication_by_id(authentication_id) {
        Ok(c) => c,
        Err(_) => {
            return Err(ApiError::InvalidCeremonyHandle);
        },
    };
    if now - ceremony.created_at > crate::CEREMONY_TTL_SECONDS {
        return Err(ApiError::CeremonyExpired);
    }
    // A credential id no passkey carries maps to the same error as a bad
    // handle, so this endpoint cannot be used to probe which ids exist.
    let credential = match store.get_passkey_by_credential_id(cred_id.as_slice()) {
        Ok(p) => p,
        Err(_) => {
            return Err(ApiError::InvalidCeremonyHandle);
        },
    };
    let continuation_bytes = match &ceremony.state {
        PasskeyAuthenticationStateType::Discoverable(b) => b,
        PasskeyAuthenticationStateType::Regular(_) => {
            return Err(ApiError::InvalidCeremonyHandle);
        },
    };
    let continuation = match decode_discoverable(continuation_bytes) {
        Some(c) => c,
        None => {
            return Err(ApiError::Database(DatabaseError::Other));
        },
    };
    let material = match decode_passkey(&credential.passkey) {
        Some(p) => p,
        None => {
            return Err(ApiError::Database(DatabaseError::Other));
        },
    };
    let mut candidates: Vec<DiscoverableKey> = Vec::new();
    candidates.push(passkey_to_discoverable_key(&material));
    let result = match wa_finish_discoverable_authentication(
        wa,
        response,
        continuation,
        &candidates,
    ) {
        Ok(res) => res,
        Err(_) => {
            return Err(ApiError::VerificationFailed);
        },
    };
    // The claimed user must own the presented credential; a mismatch is a
    // hard failure before anything is written.
    if credential.user_id != claimed_user_id {
        return Err(ApiError::VerificationFailed);
    }
    if auth_result_needs_update(&result) {
        match do_passkey_update(store, &result) {
            Ok(()) => {},
            Err(e) => {
                return Err(e);
            },
        }
    }
    let token = random_token_bytes();
    match finalize_discoverable_authentication(store, claimed_user_id, &credential, &token, now) {
        Ok((user, session)) => Ok((user, session, token)),
        Err(e) => Err(e),
    }
}

} // verus!
