//! The registration orchestrator: drives a "create a new user and first
//! credential" ceremony end to end.
//!
//! `start_registration` allocates a candidate user id before any user
//! record exists, asks the ceremony library for a challenge, and persists
//! the ceremony state under a fresh handle. `finish_registration` checks
//! the handle and the ceremony TTL, verifies the client's response, then
//! hands the verified outcome to [`complete_registration`], which creates
//! the user and credential atomically — with a compensating delete of the
//! user if credential creation fails — and mints the first session.

use vstd::prelude::*;
use webauthn_rs::prelude::{CreationChallengeResponse, RegisterPublicKeyCredential};
use webauthn_rs::Webauthn;

use crate::ceremony::{
    encode_passkey, encode_registration, decode_registration, passkey_cred_id,
    set_resident_key_preference, wa_finish_registration, wa_start_registration,
};
use crate::crypto::{hash_of, random_token_bytes};
use crate::errors::{ApiError, DatabaseError, UniqueField};
use crate::models::{
    new_uuid, NewPasskeyCredential, PasskeyCredentialView, PasskeyRegistrationState, Session,
    User, UserCreate, UserView,
};
use crate::session::{mint, minted_session};
use crate::store::{
    has_credential_id, has_passkey_id, has_registration_id, has_session_hash, has_user_email,
    has_user_id, lemma_user_id_index_unique, registration_by_id, sessions_monotone, Store,
    StoreView,
};

verus! {

/// Completes a verified registration ceremony: creates the user under the
/// candidate id captured at ceremony start, creates the first credential
/// from the verified material, and mints the first session from the given
/// raw token. If credential creation fails after the user was created, the
/// user is deleted again and the credential-creation error is returned: no
/// error path leaves a partial user behind.
pub fn complete_registration(
    store: &mut Store,
    candidate_user_id: u128,
    profile: &UserCreate,
    material: Vec<u8>,
    credential_id: Vec<u8>,
    passkey_id: u128,
    token: &Vec<u8>,
    now: i64,
) -> (r: Result<(User, Session), ApiError>)
    requires
        old(store)@.wf(),
        token@.len() == 32,
        0 <= now,
        now + crate::SESSION_TTL_SECONDS <= i64::MAX,
    ensures
        final(store)@.wf(),
        sessions_monotone(old(store)@.sessions, final(store)@.sessions),
        ({
            let new_user = UserView {
                id: candidate_user_id,
                email: profile.email@,
                display_name: profile.display_name@,
                created_at: now as int,
                updated_at: now as int,
            };
            let new_credential = PasskeyCredentialView {
                id: passkey_id,
                user_id: candidate_user_id,
                display_name: None,
                passkey: material@,
                credential_id: credential_id@,
                created_at: now as int,
                last_used_at: Some(now as int),
            };
            let new_sess = minted_session(
                candidate_user_id,
                false,
                None,
                hash_of(token@),
                now as int,
            );
            &&& has_user_id(old(store)@.users, candidate_user_id) ==> r == Err::<
                (User, Session),
                ApiError,
            >(ApiError::Database(
                DatabaseError::UniquenessViolation { field: Some(UniqueField::Id) },
            )) && final(store)@ == old(store)@
            &&& !has_user_id(old(store)@.users, candidate_user_id) && has_user_email(
                old(store)@.users,
                profile.email@,
            ) ==> r == Err::<(User, Session), ApiError>(
                ApiError::Database(
                    DatabaseError::UniquenessViolation { field: Some(UniqueField::Email) },
                ),
            ) && final(store)@ == old(store)@
            &&& !has_user_id(old(store)@.users, candidate_user_id) && !has_user_email(
                old(store)@.users,
                profile.email@,
            ) && has_passkey_id(old(store)@.passkeys, passkey_id) ==> r == Err::<
                (User, Session),
                ApiError,
            >(ApiError::Database(
                DatabaseError::UniquenessViolation { field: Some(UniqueField::Id) },
            )) && final(store)@ == old(store)@
            &&& !has_user_id(old(store)@.users, candidate_user_id) && !has_user_email(
                old(store)@.users,
                profile.email@,
            ) && !has_passkey_id(old(store)@.passkeys, passkey_id) && has_credential_id(
                old(store)@.passkeys,
                credential_id@,
            ) ==> r == Err::<(User, Session), ApiError>(
                ApiError::Database(
                    DatabaseError::UniquenessViolation { field: Some(UniqueField::CredentialId) },
                ),
            ) && final(store)@ == old(store)@
            &&& !has_user_id(old(store)@.users, candidate_user_id) && !has_user_email(
                old(store)@.users,
                profile.email@,
            ) && !has_passkey_id(old(store)@.passkeys, passkey_id) && !has_credential_id(
                old(store)@.passkeys,
                credential_id@,
            ) && has_session_hash(old(store)@.sessions, hash_of(token@)) ==> r == Err::<
                (User, Session),
                ApiError,
            >(ApiError::Database(
                DatabaseError::UniquenessViolation { field: Some(UniqueField::IdHash) },
            )) && final(store)@ == (StoreView {
                users: old(store)@.users.push(new_user),
                passkeys: old(store)@.passkeys.push(new_credential),
                ..old(store)@
            })
            &&& !has_user_id(old(store)@.users, candidate_user_id) && !has_user_email(
                old(store)@.users,
                profile.email@,
            ) && !has_passkey_id(old(store)@.passkeys, passkey_id) && !has_credential_id(
                old(store)@.passkeys,
                credential_id@,
            ) && !has_session_hash(old(store)@.sessions, hash_of(token@)) ==> match r {
                Ok(t) => t.0@ == new_user && t.1@ == new_sess && final(store)@ == (StoreView {
                    users: old(store)@.users.push(new_user),
                    passkeys: old(store)@.passkeys.push(new_credential),
                    sessions: old(store)@.sessions.push(new_sess),
                    ..old(store)@
                }),
                Err(_) => false,
            }
        }),
        r is Err ==> final(store)@.sessions == old(store)@.sessions,
{
    let ghost s0 = store@;
    let user = match store.create_user(candidate_user_id, profile, now) {
        Ok(u) => u,
        Err(e) => {
            return Err(ApiError::Database(e));
        },
    };
    let ghost s1 = store@;
    let new_passkey = NewPasskeyCredential {
        display_name: None,
        passkey: material,
        credential_id,
    };
    let created = store.create_passkey(passkey_id, user.id(), &new_passkey, now);
    let _credential = match created {
        Ok(c) => c,
        Err(e) => {
            // Credential creation failed after the user row was written:
            // compensate by deleting the just-created user, then surface the
            // credential-creation error, never a partial success.
            let deleted = store.delete_user_by_id(user.id());
            proof {
                lemma_user_id_index_unique(s1, s0.users.len() as int, candidate_user_id);
                assert(s1.users.remove(s0.users.len() as int) =~= s0.users);
                assert(store@ =~~= s0);
            }
            match deleted {
                Ok(()) => {
                    return Err(ApiError::Database(e));
                },
                Err(_) => {
                    return Err(ApiError::Database(e));
                },
            }
        },
    };
    let session = match mint(store, user.id(), false, None, token, now) {
        Ok(s) => s,
        Err(e) => {
            return Err(ApiError::Database(e));
        },
    };
    Ok((user, session))
}

/// Starts a registration ceremony: allocates a fresh candidate user id,
/// asks the ceremony library to begin registration for it, and persists the
/// ceremony state under a fresh handle. Returns the challenge to send to
/// the client and the ceremony handle. No user record exists yet.
pub fn start_registration(store: &mut Store, wa: &Webauthn, request: &UserCreate, now: i64) -> (r:
    Result<(CreationChallengeResponse, u128), ApiError>)
    requires
        old(store)@.wf(),
        0 <= now,
    ensures
        final(store)@.wf(),
        sessions_monotone(old(store)@.sessions, final(store)@.sessions),
        match r {
            Ok(pair) => final(store)@.registrations.len() == old(store)@.registrations.len() + 1
                && final(store)@ == (StoreView {
                registrations: old(store)@.registrations.push(final(store)@.registrations.last()),
                ..old(store)@
            }) && final(store)@.registrations.last().id == pair.1
                && final(store)@.registrations.last().email == request.email@ && final(store)@.registrations.last().created_at == now as int,
            Err(e) => final(store)@ == old(store)@ && (e == ApiError::Webauthn || e matches
                ApiError::Database(_)),
        },
{
    let user_id = new_uuid();
    let (mut challenge, continuation) = match wa_start_registration(
        wa,
        user_id,
        request.email.as_str(),
        request.display_name.as_str(),
    ) {
        Ok(pair) => pair,
        Err(_) => {
            return Err(ApiError::Webauthn);
        },
    };
    set_resident_key_preference(&mut challenge);
    let continuation_bytes = match encode_registration(&continuation) {
        Some(b) => b,
        None => {
            return Err(ApiError::Webauthn);
        },
    };
    let registration_id = new_uuid();
    let state = PasskeyRegistrationState {
        id: registration_id,
        user_id,
        email: request.email.clone(),
        registration: continuation_bytes,
        created_at: now,
    };
    match store.create_passkey_registration(&state) {
        Ok(()) => Ok((challenge, registration_id)),
        Err(e) => Err(ApiError::Database(e)),
    }
}

/// Finishes a registration ceremony: looks the ceremony state up by its
/// handle, rejects a missing handle or one past the ceremony TTL, verifies
/// the client's response against the stored continuation, and on success
/// creates the user and credential and mints the first session, returning
/// the new user, the session, and the raw session token.
pub fn finish_registration(
    store: &mut Store,
    wa: &Webauthn,
    registration_id: u128,
    request_user: &UserCreate,
    response: &RegisterPublicKeyCredential,
    now: i64,
) -> (r: Result<(User, Session, Vec<u8>), ApiError>)
    requires
        old(store)@.wf(),
        0 <= now,
        now + crate::SESSION_TTL_SECONDS <= i64::MAX,
    ensures
        final(store)@.wf(),
        sessions_monotone(old(store)@.sessions, final(store)@.sessions),
        !has_registration_id(old(store)@.registrations, registration_id) ==> r == Err::<
            (User, Session, Vec<u8>),
            ApiError,
        >(ApiError::InvalidCeremonyHandle) && final(store)@ == old(store)@,
        has_registration_id(old(store)@.registrations, registration_id) && now
            - registration_by_id(old(store)@.registrations, registration_id).created_at
            > crate::CEREMONY_TTL_SECONDS ==> r == Err::<(User, Session, Vec<u8>), ApiError>(
            ApiError::CeremonyExpired,
        ) && final(store)@ == old(store)@,
        has_registration_id(old(store)@.registrations, registration_id) && now
            - registration_by_id(old(store)@.registrations, registration_id).created_at
            <= crate::CEREMONY_TTL_SECONDS ==> match r {
            Ok(t) => {
                let ceremony = registration_by_id(old(store)@.registrations, registration_id);
                &&& t.0@.id == ceremony.user_id
                &&& t.0@.email == request_user.email@
                &&& t.0@.display_name == request_user.display_name@
                &&& t.0@.created_at == now as int
                &&& t.2@.len() == 32
                &&& t.1@ == minted_session(ceremony.user_id, false, None, hash_of(t.2@), now as int)
                &&& final(store)@.users == old(store)@.users.push(t.0@)
                &&& final(store)@.sessions == old(store)@.sessions.push(t.1@)
                &&& final(store)@.passkeys.len() == old(store)@.passkeys.len() + 1
                &&& final(store)@.passkeys.last().user_id == ceremony.user_id
                &&& final(store)@ == (StoreView {
                    users: final(store)@.users,
                    passkeys: final(store)@.passkeys,
                    sessions: final(store)@.sessions,
                    ..old(store)@
                })
            },
            Err(e) => {
                &&& final(store)@.sessions == old(store)@.sessions
                &&& final(store)@.registrations == old(store)@.registrations
                &&& (e == ApiError::VerificationFailed || e == ApiError::Webauthn || e matches
                    ApiError::Database(_))
                &&& (e == ApiError::VerificationFailed || e == ApiError::Webauthn) ==> final(store)@ == old(store)@
            },
        },
        r is Err ==> final(store)@.sessions == old(store)@.sessions,
{
    let ceremony = match store.get_passkey_registration_by_id(registration_id) {
        Ok(c) => c,
        Err(_) => {
            return Err(ApiError::InvalidCeremonyHandle);
        },
    };
    if now - ceremony.created_at > crate::CEREMONY_TTL_SECONDS {
        return Err(ApiError::CeremonyExpired);
    }
    let continuation = match decode_registration(&ceremony.registration) {
        Some(c) => c,
        None => {
            return Err(ApiError::Webauthn);
        },
    };
    let passkey = match wa_finish_registration(wa, response, &continuation) {
        Ok(p) => p,
        Err(_) => {
            return Err(ApiError::VerificationFailed);
        },
    };
    let material = match encode_passkey(&passkey) {
        Some(m) => m,
        None => {
            return Err(ApiError::Webauthn);
        },
    };
    let credential_id = passkey_cred_id(&passkey);
    let passkey_id = new_uuid();
    let token = random_token_bytes();
    match complete_registration(
        store,
        ceremony.user_id,
        request_user,
        material,
        credential_id,
        passkey_id,
        &token,
        now,
    ) {
        Ok((user, session)) => Ok((user, session, token)),
        Err(e) => Err(e),
    }
}

} // verus!
