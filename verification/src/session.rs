//! The session manager: minting, validation, logout, supersession, and the
//! elevate / de-elevate protocol.
//!
//! A session is identified to the server only by the one-way hash of its
//! raw bearer token; the raw token is returned to the caller once and never
//! stored. Elevation and de-elevation mint a brand-new session chained to
//! the old one through `parent_id_hash`, then supersede the old one —
//! mint-then-supersede, so a racing request sees at most the old session
//! still valid, never neither.

use vstd::prelude::*;

use crate::bytes::clone_bytes;
use crate::crypto::{hash_bytes, hash_of, random_token_bytes};
use crate::errors::{ApiError, DatabaseError, UniqueField};
use crate::models::{Session, SessionState, SessionUpdate, SessionView, TagView, UpgradeTarget,
    UserAndSessionInfo};
use crate::store::{
    has_session_hash, has_user_id, has_user_tag, session_by_hash, session_index_by_hash,
    sessions_monotone, user_by_id, user_has_named_tag, Store, StoreView,
};

verus! {

/// Name of the capability tag that authorizes session elevation.
pub const ADMIN_TAG: &'static str = "iam::admin";

/// View of the tag name that authorizes session elevation.
pub open spec fn admin_tag_name() -> Seq<char> {
    "iam::admin"@
}

/// The session record minted for the given owner, privilege, parent and
/// token hash: `Active`, created now, expiring one session TTL later.
pub open spec fn minted_session(
    user_id: u128,
    is_admin: bool,
    parent_id_hash: Option<Seq<u8>>,
    token_hash: Seq<u8>,
    now: int,
) -> SessionView {
    SessionView {
        id_hash: token_hash,
        user_id,
        state: SessionState::Active,
        created_at: now,
        expires_at: now + crate::SESSION_TTL_SECONDS,
        is_admin,
        parent_id_hash,
    }
}

/// What validating a token against the store yields: the session stored
/// under the token's hash if it is `Active` and unexpired; `NotLoggedIn`
/// when no session carries that hash; `SessionExpired` when one does but it
/// is terminal or past its expiry time.
pub open spec fn validate_spec(s: StoreView, token_hash: Seq<u8>, now: int) -> Result<
    SessionView,
    ApiError,
> {
    if !has_session_hash(s.sessions, token_hash) {
        Err(ApiError::NotLoggedIn)
    } else {
        let sess = session_by_hash(s.sessions, token_hash);
        if sess.state != SessionState::Active || sess.expires_at < now {
            Err(ApiError::SessionExpired)
        } else {
            Ok(sess)
        }
    }
}

/// Superseding the session stored under `id_hash`: the store with that
/// session's state set to `Superseded`, and whether such a session was
/// found.
pub open spec fn supersede_result(s: StoreView, id_hash: Seq<u8>) -> (StoreView, bool) {
    if has_session_hash(s.sessions, id_hash) {
        let idx = session_index_by_hash(s.sessions, id_hash);
        let prev = s.sessions[idx];
        (
            StoreView {
                sessions: s.sessions.update(
                    idx,
                    SessionView { state: SessionState::Superseded, ..prev },
                ),
                ..s
            },
            true,
        )
    } else {
        (s, false)
    }
}

/// The view of the session an optional parent contributes.
pub open spec fn parent_hash_view(parent: Option<&Session>) -> Option<Seq<u8>> {
    match parent {
        Some(p) => Some(p@.id_hash),
        None => None,
    }
}

/// Hashes the token and returns the session stored under the hash, if it
/// is `Active` and unexpired. This is the single authorization gate every
/// protected operation goes through.
pub fn validate_session(store: &Store, token: &Vec<u8>, now: i64) -> (r: Result<Session, ApiError>)
    requires
        store@.wf(),
    ensures
        match (r, validate_spec(store@, hash_of(token@), now as int)) {
            (Ok(s), Ok(sv)) => s@ == sv,
            (Err(e), Err(ev)) => e == ev,
            _ => false,
        },
{
    let id_hash = hash_bytes(token);
    match store.get_session_by_id_hash(&id_hash) {
        Ok(session) => {
            let active = matches!(session.state, SessionState::Active);
            if !active || session.expires_at < now {
                Err(ApiError::SessionExpired)
            } else {
                Ok(session)
            }
        },
        Err(_) => Err(ApiError::NotLoggedIn),
    }
}

/// Validates a token as [`validate_session`] does, and additionally
/// requires the session to carry administrator privilege, failing with
/// `NotAuthorized` otherwise.
pub fn validate_admin_session(store: &Store, token: &Vec<u8>, now: i64) -> (r: Result<
    Session,
    ApiError,
>)
    requires
        store@.wf(),
    ensures
        match validate_spec(store@, hash_of(token@), now as int) {
            Ok(sv) => {
                if sv.is_admin {
                    r matches Ok(s) && s@ == sv
                } else {
                    r == Err::<Session, ApiError>(ApiError::NotAuthorized)
                }
            },
            Err(ev) => r == Err::<Session, ApiError>(ev),
        },
{
    let session = match validate_session(store, token, now) {
        Ok(s) => s,
        Err(e) => {
            return Err(e);
        },
    };
    if session.is_admin {
        Ok(session)
    } else {
        Err(ApiError::NotAuthorized)
    }
}

/// Stores a new `Active` session for the given user whose id hash is the
/// one-way hash of the given raw token. The token itself is not stored:
/// only its hash reaches the store. Fails only if a session with the same
/// hash already exists.
pub fn mint(
    store: &mut Store,
    user_id: u128,
    is_admin: bool,
    parent: Option<&Session>,
    token: &Vec<u8>,
    now: i64,
) -> (r: Result<Session, DatabaseError>)
    requires
        old(store)@.wf(),
        token@.len() == 32,
        0 <= now,
        now + crate::SESSION_TTL_SECONDS <= i64::MAX,
    ensures
        final(store)@.wf(),
        sessions_monotone(old(store)@.sessions, final(store)@.sessions),
        !has_session_hash(old(store)@.sessions, hash_of(token@)) ==> match r {
            Ok(s) => s@ == minted_session(
                user_id,
                is_admin,
                parent_hash_view(parent),
                hash_of(token@),
                now as int,
            ) && final(store)@ == (StoreView {
                sessions: old(store)@.sessions.push(s@),
                ..old(store)@
            }),
            Err(_) => false,
        },
        has_session_hash(old(store)@.sessions, hash_of(token@)) ==> r == Err::<
            Session,
            DatabaseError,
        >(DatabaseError::UniquenessViolation { field: Some(UniqueField::IdHash) }) && final(store)@
            == old(store)@,
{
    let id_hash = hash_bytes(token);
    let parent_id_hash = match parent {
        Some(p) => Some(clone_bytes(&p.id_hash)),
        None => None,
    };
    let session = Session {
        id_hash,
        user_id,
        state: SessionState::Active,
        created_at: now,
        expires_at: now + crate::SESSION_TTL_SECONDS,
        is_admin,
        parent_id_hash,
    };
    proof {
        assert(session@.parent_id_hash =~~= parent_hash_view(parent));
        assert(session@ =~~= minted_session(
            user_id,
            is_admin,
            parent_hash_view(parent),
            hash_of(token@),
            now as int,
        ));
    }
    match store.create_session(&session) {
        Ok(()) => Ok(session),
        Err(e) => Err(e),
    }
}

/// Draws a fresh 256-bit raw token, mints a session from it, and returns
/// both the session and the raw token. The caller hands the raw token to
/// the client; the store has seen only its hash.
pub fn new_session(
    store: &mut Store,
    user_id: u128,
    is_admin: bool,
    parent: Option<&Session>,
    now: i64,
) -> (r: Result<(Session, Vec<u8>), DatabaseError>)
    requires
        old(store)@.wf(),
        0 <= now,
        now + crate::SESSION_TTL_SECONDS <= i64::MAX,
    ensures
        final(store)@.wf(),
        sessions_monotone(old(store)@.sessions, final(store)@.sessions),
        match r {
            Ok(pair) => pair.1@.len() == 32 && !has_session_hash(
                old(store)@.sessions,
                hash_of(pair.1@),
            ) && pair.0@ == minted_session(
                user_id,
                is_admin,
                parent_hash_view(parent),
                hash_of(pair.1@),
                now as int,
            ) && final(store)@ == (StoreView {
                sessions: old(store)@.sessions.push(pair.0@),
                ..old(store)@
            }),
            Err(e) => e == (DatabaseError::UniquenessViolation {
                field: Some(UniqueField::IdHash),
            }) && final(store)@ == old(store)@,
        },
{
    let token = random_token_bytes();
    match mint(store, user_id, is_admin, parent, &token, now) {
        Ok(session) => Ok((session, token)),
        Err(e) => Err(e),
    }
}

/// If the given session is still `Active`, transitions it to `LoggedOut`;
/// if it is already in a terminal state, does nothing. Fails only when no
/// session with its hash exists.
pub fn logout(store: &mut Store, session: &Session) -> (r: Result<(), ApiError>)
    requires
        old(store)@.wf(),
    ensures
        final(store)@.wf(),
        sessions_monotone(old(store)@.sessions, final(store)@.sessions),
        !has_session_hash(old(store)@.sessions, session@.id_hash) ==> r == Err::<(), ApiError>(
            ApiError::NotFound,
        ) && final(store)@ == old(store)@,
        has_session_hash(old(store)@.sessions, session@.id_hash) ==> {
            let idx = session_index_by_hash(old(store)@.sessions, session@.id_hash);
            let prev = old(store)@.sessions[idx];
            r is Ok && if prev.state == SessionState::Active {
                final(store)@ == (StoreView {
                    sessions: old(store)@.sessions.update(
                        idx,
                        SessionView { state: SessionState::LoggedOut, ..prev },
                    ),
                    ..old(store)@
                })
            } else {
                final(store)@ == old(store)@
            }
        },
{
    let current = match store.get_session_by_id_hash(&session.id_hash) {
        Ok(s) => s,
        Err(e) => {
            return Err(ApiError::from_database(e));
        },
    };
    if matches!(current.state, SessionState::Active) {
        let update = SessionUpdate::new().with_state(SessionState::LoggedOut);
        match store.update_session(&session.id_hash, &update) {
            Ok(_) => Ok(()),
            Err(e) => Err(ApiError::from_database(e)),
        }
    } else {
        Ok(())
    }
}

/// Marks the session stored under the given session's hash as superseded,
/// whatever state it is in. Fails only when no session with its hash
/// exists.
pub fn supersede_session(store: &mut Store, session: &Session) -> (r: Result<(), DatabaseError>)
    requires
        old(store)@.wf(),
    ensures
        final(store)@.wf(),
        sessions_monotone(old(store)@.sessions, final(store)@.sessions),
        ({
            let (fin, found) = supersede_result(old(store)@, session@.id_hash);
            final(store)@ == fin && if found {
                r is Ok
            } else {
                r == Err::<(), DatabaseError>(DatabaseError::NotFound)
            }
        }),
{
    let update = SessionUpdate::new().with_state(SessionState::Superseded);
    match store.update_session(&session.id_hash, &update) {
        Ok(_) => Ok(()),
        Err(e) => Err(e),
    }
}

/// Elevates a session with a caller-supplied raw token: verifies that the
/// session's user holds the administrator tag, mints a new elevated session
/// whose parent is the given session, then supersedes the given session.
/// Mint-then-supersede: on the error paths after minting, the new session
/// exists and the old one is untouched.
pub fn upgrade_session_with_token(
    store: &mut Store,
    session: &Session,
    target: UpgradeTarget,
    token: &Vec<u8>,
    now: i64,
) -> (r: Result<Session, ApiError>)
    requires
        old(store)@.wf(),
        token@.len() == 32,
        0 <= now,
        now + crate::SESSION_TTL_SECONDS <= i64::MAX,
    ensures
        final(store)@.wf(),
        sessions_monotone(old(store)@.sessions, final(store)@.sessions),
        !user_has_named_tag(old(store)@, session@.user_id, admin_tag_name()) ==> r == Err::<
            Session,
            ApiError,
        >(ApiError::NotAuthorized) && final(store)@ == old(store)@,
        user_has_named_tag(old(store)@, session@.user_id, admin_tag_name()) && has_session_hash(
            old(store)@.sessions,
            hash_of(token@),
        ) ==> r == Err::<Session, ApiError>(
            ApiError::Database(
                DatabaseError::UniquenessViolation { field: Some(UniqueField::IdHash) },
            ),
        ) && final(store)@ == old(store)@,
        user_has_named_tag(old(store)@, session@.user_id, admin_tag_name()) && !has_session_hash(
            old(store)@.sessions,
            hash_of(token@),
        ) ==> {
            let minted = minted_session(
                session@.user_id,
                true,
                Some(session@.id_hash),
                hash_of(token@),
                now as int,
            );
            let mid = StoreView { sessions: old(store)@.sessions.push(minted), ..old(store)@ };
            let (fin, found) = supersede_result(mid, session@.id_hash);
            final(store)@ == fin && if found {
                r matches Ok(s) && s@ == minted
            } else {
                r == Err::<Session, ApiError>(ApiError::NotFound)
            }
        },
        has_session_hash(old(store)@.sessions, session@.id_hash) ==> r != Err::<Session, ApiError>(
            ApiError::NotFound,
        ),
        (match r {
            Err(ApiError::Database(_)) => final(store)@ == old(store)@,
            _ => true,
        }),
{
    if !store.user_has_tag_named(session.user_id, ADMIN_TAG) {
        return Err(ApiError::NotAuthorized);
    }
    match target {
        UpgradeTarget::Admin => {
            let minted = match mint(store, session.user_id, true, Some(session), token, now) {
                Ok(s) => s,
                Err(e) => {
                    return Err(ApiError::Database(e));
                },
            };
            match supersede_session(store, session) {
                Ok(()) => Ok(minted),
                Err(e) => {
                    proof {
                        // a stored session cannot vanish: it is still at its
                        // slot after the mint's push
                        if has_session_hash(old(store)@.sessions, session@.id_hash) {
                            let i = choose|i: int|
                                0 <= i < old(store)@.sessions.len() && #[trigger] old(
                                    store,
                                )@.sessions[i].id_hash == session@.id_hash;
                            assert(store@.sessions[i].id_hash == session@.id_hash);
                        }
                    }
                    Err(ApiError::from_database(e))
                },
            }
        },
    }
}

/// Elevates a session as [`upgrade_session_with_token`] does, drawing a
/// fresh raw token and returning it with the new session.
pub fn upgrade_session(store: &mut Store, session: &Session, target: UpgradeTarget, now: i64) -> (r:
    Result<(Session, Vec<u8>), ApiError>)
    requires
        old(store)@.wf(),
        0 <= now,
        now + crate::SESSION_TTL_SECONDS <= i64::MAX,
    ensures
        final(store)@.wf(),
        sessions_monotone(old(store)@.sessions, final(store)@.sessions),
        !user_has_named_tag(old(store)@, session@.user_id, admin_tag_name()) ==> r == Err::<
            (Session, Vec<u8>),
            ApiError,
        >(ApiError::NotAuthorized) && final(store)@ == old(store)@,
        user_has_named_tag(old(store)@, session@.user_id, admin_tag_name()) ==> match r {
            Ok(pair) => pair.1@.len() == 32 && !has_session_hash(
                old(store)@.sessions,
                hash_of(pair.1@),
            ) && ({
                let minted = minted_session(
                    session@.user_id,
                    true,
                    Some(session@.id_hash),
                    hash_of(pair.1@),
                    now as int,
                );
                let mid = StoreView { sessions: old(store)@.sessions.push(minted), ..old(store)@ };
                let (fin, found) = supersede_result(mid, session@.id_hash);
                pair.0@ == minted && final(store)@ == fin && found
            }),
            Err(e) => e == ApiError::NotFound || e matches ApiError::Database(_),
        },
        has_session_hash(old(store)@.sessions, session@.id_hash) ==> r != Err::<
            (Session, Vec<u8>),
            ApiError,
        >(ApiError::NotFound),
        (match r {
            Err(ApiError::Database(_)) => final(store)@ == old(store)@,
            _ => true,
        }),
{
    let token = random_token_bytes();
    match upgrade_session_with_token(store, session, target, &token, now) {
        Ok(s) => Ok((s, token)),
        Err(e) => Err(e),
    }
}

/// De-elevates a session with a caller-supplied raw token: looks up the
/// session's parent (it may itself be superseded — that is expected), mints
/// a brand-new session with the parent's owner and privilege whose parent
/// is the given session, then supersedes the given session. The original
/// parent cannot be reactivated, because only its hash was ever known.
pub fn downgrade_session_with_token(
    store: &mut Store,
    session: &Session,
    token: &Vec<u8>,
    now: i64,
) -> (r: Result<Session, ApiError>)
    requires
        old(store)@.wf(),
        token@.len() == 32,
        0 <= now,
        now + crate::SESSION_TTL_SECONDS <= i64::MAX,
    ensures
        final(store)@.wf(),
        sessions_monotone(old(store)@.sessions, final(store)@.sessions),
        session@.parent_id_hash is None ==> r == Err::<Session, ApiError>(
            ApiError::DowngradeImpossible,
        ) && final(store)@ == old(store)@,
        session@.parent_id_hash matches Some(parent_hash) && !has_session_hash(
            old(store)@.sessions,
            parent_hash,
        ) ==> r == Err::<Session, ApiError>(ApiError::NotFound) && final(store)@ == old(store)@,
        session@.parent_id_hash matches Some(parent_hash) && has_session_hash(
            old(store)@.sessions,
            parent_hash,
        ) && has_session_hash(old(store)@.sessions, hash_of(token@)) ==> r == Err::<
            Session,
            ApiError,
        >(ApiError::Database(
            DatabaseError::UniquenessViolation { field: Some(UniqueField::IdHash) },
        )) && final(store)@ == old(store)@,
        session@.parent_id_hash is Some && has_session_hash(
            old(store)@.sessions,
            session@.parent_id_hash->0,
        ) && !has_session_hash(old(store)@.sessions, hash_of(token@)) ==> {
            let parent = session_by_hash(old(store)@.sessions, session@.parent_id_hash->0);
            let minted = minted_session(
                parent.user_id,
                parent.is_admin,
                Some(session@.id_hash),
                hash_of(token@),
                now as int,
            );
            let mid = StoreView { sessions: old(store)@.sessions.push(minted), ..old(store)@ };
            let (fin, found) = supersede_result(mid, session@.id_hash);
            final(store)@ == fin && if found {
                r matches Ok(s) && s@ == minted
            } else {
                r == Err::<Session, ApiError>(ApiError::NotFound)
            }
        },
        session@.parent_id_hash is Some && has_session_hash(
            old(store)@.sessions,
            session@.parent_id_hash->0,
        ) && has_session_hash(old(store)@.sessions, session@.id_hash) ==> r != Err::<
            Session,
            ApiError,
        >(ApiError::NotFound),
        (match r {
            Err(ApiError::Database(_)) => final(store)@ == old(store)@,
            _ => true,
        }),
{
    let parent_id_hash = match &session.parent_id_hash {
        Some(h) => clone_bytes(h),
        None => {
            return Err(ApiError::DowngradeImpossible);
        },
    };
    proof {
        assert(parent_id_hash@ =~= session@.parent_id_hash->0);
        assert(session@.parent_id_hash =~~= Some(parent_id_hash@));
    }
    let parent = match store.get_session_by_id_hash(&parent_id_hash) {
        Ok(p) => p,
        Err(e) => {
            return Err(ApiError::from_database(e));
        },
    };
    let minted = match mint(store, parent.user_id, parent.is_admin, Some(session), token, now) {
        Ok(s) => s,
        Err(e) => {
            return Err(ApiError::Database(e));
        },
    };
    match supersede_session(store, session) {
        Ok(()) => Ok(minted),
        Err(e) => {
            proof {
                // a stored session cannot vanish: it is still at its slot
                // after the mint's push
                if has_session_hash(old(store)@.sessions, session@.id_hash) {
                    let i = choose|i: int|
                        0 <= i < old(store)@.sessions.len() && #[trigger] old(
                            store,
                        )@.sessions[i].id_hash == session@.id_hash;
                    assert(store@.sessions[i].id_hash == session@.id_hash);
                }
            }
            Err(ApiError::from_database(e))
        },
    }
}

/// De-elevates a session as [`downgrade_session_with_token`] does, drawing
/// a fresh raw token and returning it with the new session.
pub fn downgrade_session(store: &mut Store, session: &Session, now: i64) -> (r: Result<
    (Session, Vec<u8>),
    ApiError,
>)
    requires
        old(store)@.wf(),
        0 <= now,
        now + crate::SESSION_TTL_SECONDS <= i64::MAX,
    ensures
        final(store)@.wf(),
        sessions_monotone(old(store)@.sessions, final(store)@.sessions),
        session@.parent_id_hash is None ==> r == Err::<(Session, Vec<u8>), ApiError>(
            ApiError::DowngradeImpossible,
        ) && final(store)@ == old(store)@,
        session@.parent_id_hash matches Some(parent_hash) && !has_session_hash(
            old(store)@.sessions,
            parent_hash,
        ) ==> r == Err::<(Session, Vec<u8>), ApiError>(ApiError::NotFound) && final(store)@ == old(store)@,
        session@.parent_id_hash is Some && has_session_hash(
            old(store)@.sessions,
            session@.parent_id_hash->0,
        ) ==> match r {
            Ok(pair) => pair.1@.len() == 32 && !has_session_hash(
                old(store)@.sessions,
                hash_of(pair.1@),
            ) && ({
                let parent = session_by_hash(old(store)@.sessions, session@.parent_id_hash->0);
                let minted = minted_session(
                    parent.user_id,
                    parent.is_admin,
                    Some(session@.id_hash),
                    hash_of(pair.1@),
                    now as int,
                );
                let mid = StoreView { sessions: old(store)@.sessions.push(minted), ..old(store)@ };
                let (fin, found) = supersede_result(mid, session@.id_hash);
                pair.0@ == minted && final(store)@ == fin && found
            }),
            Err(e) => e == ApiError::NotFound || e matches ApiError::Database(_),
        },
        session@.parent_id_hash is Some && has_session_hash(
            old(store)@.sessions,
            session@.parent_id_hash->0,
        ) && has_session_hash(old(store)@.sessions, session@.id_hash) ==> r != Err::<
            (Session, Vec<u8>),
            ApiError,
        >(ApiError::NotFound),
        (match r {
            Err(ApiError::Database(_)) => final(store)@ == old(store)@,
            _ => true,
        }),
{
    let token = random_token_bytes();
    match downgrade_session_with_token(store, session, &token, now) {
        Ok(s) => Ok((s, token)),
        Err(e) => Err(e),
    }
}

/// Returns the session's user together with the tags attached to them and
/// the session itself.
pub fn get_session(store: &Store, session: &Session) -> (r: Result<UserAndSessionInfo, ApiError>)
    requires
        store@.wf(),
    ensures
        !has_user_id(store@.users, session@.user_id) ==> r == Err::<UserAndSessionInfo, ApiError>(
            ApiError::NotFound,
        ),
        has_user_id(store@.users, session@.user_id) ==> match r {
            Ok(info) => info.user@ == user_by_id(store@.users, session@.user_id)
                && info.tags.deep_view() == store@.tags.filter(
                |t: TagView| has_user_tag(store@.user_tags, session@.user_id, t.id),
            ) && info.session@ == session@,
            Err(_) => false,
        },
{
    let user = match store.get_user_by_id(session.user_id) {
        Ok(u) => u,
        Err(e) => {
            return Err(ApiError::from_database(e));
        },
    };
    let tags = match store.get_tags_by_user_id(session.user_id) {
        Ok(t) => t,
        Err(e) => {
            return Err(ApiError::from_database(e));
        },
    };
    Ok(UserAndSessionInfo { user, tags, session: session.clone() })
}

} // verus!
