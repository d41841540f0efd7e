//! Laws of the session lifecycle, stated over the same spec functions the
//! session manager's contracts use and proved once and for all.

use vstd::prelude::*;

use crate::errors::ApiError;
use crate::models::{SessionState, SessionView};
use crate::session::{
    admin_tag_name, minted_session, supersede_result, validate_spec,
};
use crate::store::{
    has_session_hash, session_by_hash, session_index_by_hash, sessions_monotone,
    user_has_named_tag, StoreView,
};

verus! {

/// Pairwise-distinct token hashes in a session table.
pub open spec fn sessions_distinct(ss: Seq<SessionView>) -> bool {
    forall|i: int, j: int|
        #![trigger ss[i], ss[j]]
        0 <= i < j < ss.len() ==> ss[i].id_hash != ss[j].id_hash
}

/// With distinct hashes, an index holding `id_hash` is the chosen index.
proof fn lemma_session_index(ss: Seq<SessionView>, i: int, id_hash: Seq<u8>)
    requires
        sessions_distinct(ss),
        0 <= i < ss.len(),
        ss[i].id_hash == id_hash,
    ensures
        session_index_by_hash(ss, id_hash) == i,
        has_session_hash(ss, id_hash),
        session_by_hash(ss, id_hash) == ss[i],
{
    assert(has_session_hash(ss, id_hash));
    let j = session_index_by_hash(ss, id_hash);
    assert(0 <= j < ss.len() && ss[j].id_hash == id_hash);
    if i < j {
        assert(ss[i].id_hash != ss[j].id_hash);
    } else if j < i {
        assert(ss[j].id_hash != ss[i].id_hash);
    }
}

/// Appending a session with a fresh hash keeps the hashes distinct.
proof fn lemma_distinct_push(ss: Seq<SessionView>, sv: SessionView)
    requires
        sessions_distinct(ss),
        !has_session_hash(ss, sv.id_hash),
    ensures
        sessions_distinct(ss.push(sv)),
{
    let post = ss.push(sv);
    assert forall|i: int, j: int|
        #![trigger post[i], post[j]]
        0 <= i < j < post.len() implies post[i].id_hash != post[j].id_hash by {
        if j < ss.len() {
            assert(post[i] == ss[i]);
            assert(post[j] == ss[j]);
        } else {
            assert(post[j] == sv);
            assert(post[i] == ss[i]);
        }
    }
}

/// Updating a session in place with the same hash keeps the hashes
/// distinct.
proof fn lemma_distinct_update(ss: Seq<SessionView>, i: int, sv: SessionView)
    requires
        sessions_distinct(ss),
        0 <= i < ss.len(),
        sv.id_hash == ss[i].id_hash,
    ensures
        sessions_distinct(ss.update(i, sv)),
{
    let post = ss.update(i, sv);
    assert forall|a: int, b: int|
        #![trigger post[a], post[b]]
        0 <= a < b < post.len() implies post[a].id_hash != post[b].id_hash by {
        let pa = if a == i { sv } else { ss[a] };
        let pb = if b == i { sv } else { ss[b] };
        assert(post[a] == pa);
        assert(post[b] == pb);
        assert(ss[a].id_hash != ss[b].id_hash);
    }
}

/// Token one-wayness, seen from the validation gate: a token whose hash no
/// stored session carries never validates. Minting stores only the hash of
/// the raw token (see `mint`), so a token that was never minted — and whose
/// hash therefore matches no stored session, hash collisions being
/// cryptographically negligible — always fails with `NotLoggedIn`.
pub proof fn lemma_unknown_token_never_validates(s: StoreView, token_hash: Seq<u8>, now: int)
    requires
        forall|i: int|
            0 <= i < s.sessions.len() ==> (#[trigger] s.sessions[i]).id_hash != token_hash,
    ensures
        validate_spec(s, token_hash, now) == Err::<SessionView, ApiError>(ApiError::NotLoggedIn),
{
    assert(!has_session_hash(s.sessions, token_hash));
}

/// Supersession monotonicity, first half: a session in a terminal state
/// always fails validation with `SessionExpired`, at every time.
pub proof fn lemma_terminal_session_never_validates(s: StoreView, i: int, now: int)
    requires
        s.wf(),
        0 <= i < s.sessions.len(),
        s.sessions[i].state != SessionState::Active,
    ensures
        validate_spec(s, s.sessions[i].id_hash, now) == Err::<SessionView, ApiError>(
            ApiError::SessionExpired,
        ),
{
    assert(sessions_distinct(s.sessions));
    lemma_session_index(s.sessions, i, s.sessions[i].id_hash);
}

/// Supersession monotonicity, second half: `sessions_monotone` — which
/// every store or session-manager operation that touches the session table
/// ensures — composes. However many operations run, a session that has
/// left `Active` is never `Active` again, and its identity, owner,
/// parentage and privilege never change.
pub proof fn lemma_sessions_monotone_transitive(
    a: Seq<SessionView>,
    b: Seq<SessionView>,
    c: Seq<SessionView>,
)
    requires
        sessions_monotone(a, b),
        sessions_monotone(b, c),
    ensures
        sessions_monotone(a, c),
{
}

/// `sessions_monotone` is reflexive: an operation that leaves the session
/// table alone preserves it.
pub proof fn lemma_sessions_monotone_reflexive(a: Seq<SessionView>)
    ensures
        sessions_monotone(a, a),
{
}

/// The elevate / de-elevate round trip. Starting from a stored non-elevated
/// session S whose user holds the administrator tag: elevating S with a
/// fresh token hash yields S' — elevated, same user, parent S — and leaves
/// S superseded and failing validation; de-elevating S' with a fresh token
/// hash yields S'' — same user, the same privilege as the original S,
/// parent S' — and leaves S' superseded and failing validation. The store
/// states are exactly those the contracts of `upgrade_session_with_token`
/// and `downgrade_session_with_token` establish on their success paths.
pub proof fn lemma_elevate_deelevate_round_trip(
    s0: StoreView,
    session: SessionView,
    h1: Seq<u8>,
    now1: int,
    s1: StoreView,
    elevated: SessionView,
    h2: Seq<u8>,
    now2: int,
    s2: StoreView,
    restored: SessionView,
)
    requires
        s0.wf(),
        has_session_hash(s0.sessions, session.id_hash),
        session_by_hash(s0.sessions, session.id_hash) == session,
        !session.is_admin,
        user_has_named_tag(s0, session.user_id, admin_tag_name()),
        // what upgrade_session_with_token ensures on success, with fresh h1
        !has_session_hash(s0.sessions, h1),
        elevated == minted_session(session.user_id, true, Some(session.id_hash), h1, now1),
        s1 == supersede_result(
            StoreView { sessions: s0.sessions.push(elevated), ..s0 },
            session.id_hash,
        ).0,
        // what downgrade_session_with_token ensures on success, with fresh h2
        !has_session_hash(s1.sessions, h2),
        restored == minted_session(
            session_by_hash(s1.sessions, session.id_hash).user_id,
            session_by_hash(s1.sessions, session.id_hash).is_admin,
            Some(elevated.id_hash),
            h2,
            now2,
        ),
        s2 == supersede_result(
            StoreView { sessions: s1.sessions.push(restored), ..s1 },
            elevated.id_hash,
        ).0,
    ensures
        // S' is an elevated session for the same user, chained to S
        elevated.user_id == session.user_id,
        elevated.is_admin,
        elevated.parent_id_hash == Some(session.id_hash),
        // elevation leaves S superseded and unusable
        session_by_hash(s1.sessions, session.id_hash).state == SessionState::Superseded,
        validate_spec(s1, session.id_hash, now1) == Err::<SessionView, ApiError>(
            ApiError::SessionExpired,
        ),
        // S'' restores the original owner and privilege, chained to S'
        restored.user_id == session.user_id,
        restored.is_admin == session.is_admin,
        restored.parent_id_hash == Some(elevated.id_hash),
        // de-elevation leaves S' superseded and unusable
        session_by_hash(s2.sessions, elevated.id_hash).state == SessionState::Superseded,
        validate_spec(s2, elevated.id_hash, now2) == Err::<SessionView, ApiError>(
            ApiError::SessionExpired,
        ),
{
    assert(sessions_distinct(s0.sessions));
    let idx0 = session_index_by_hash(s0.sessions, session.id_hash);
    assert(0 <= idx0 < s0.sessions.len() && s0.sessions[idx0].id_hash == session.id_hash);
    lemma_session_index(s0.sessions, idx0, session.id_hash);
    assert(s0.sessions[idx0] == session);

    // after minting S': S is still there, S' has a different hash
    let mid1 = s0.sessions.push(elevated);
    lemma_distinct_push(s0.sessions, elevated);
    assert(mid1[idx0] == session);
    lemma_session_index(mid1, idx0, session.id_hash);

    // superseding S updates exactly S's slot
    let superseded_session = SessionView { state: SessionState::Superseded, ..session };
    assert(s1.sessions == mid1.update(idx0, superseded_session));
    lemma_distinct_update(mid1, idx0, superseded_session);
    assert(sessions_distinct(s1.sessions));
    lemma_session_index(s1.sessions, idx0, session.id_hash);
    assert(session_by_hash(s1.sessions, session.id_hash) == superseded_session);
    lemma_session_index(s1.sessions, s0.sessions.len() as int, h1);
    assert(session_by_hash(s1.sessions, h1) == elevated);

    // S no longer validates in s1
    assert(validate_spec(s1, session.id_hash, now1) == Err::<SessionView, ApiError>(
        ApiError::SessionExpired,
    ));

    // the parent looked up during de-elevation is the superseded S
    assert(restored.user_id == session.user_id);
    assert(restored.is_admin == session.is_admin);

    // after minting S'': S' is still there, S'' has a different hash
    let elev_idx = s0.sessions.len() as int;
    let mid2 = s1.sessions.push(restored);
    lemma_distinct_push(s1.sessions, restored);
    assert(mid2[elev_idx] == elevated);
    lemma_session_index(mid2, elev_idx, elevated.id_hash);

    // superseding S' updates exactly S''s slot
    let superseded_elevated = SessionView { state: SessionState::Superseded, ..elevated };
    assert(s2.sessions == mid2.update(elev_idx, superseded_elevated));
    lemma_distinct_update(mid2, elev_idx, superseded_elevated);
    assert(sessions_distinct(s2.sessions));
    lemma_session_index(s2.sessions, elev_idx, elevated.id_hash);
    assert(session_by_hash(s2.sessions, elevated.id_hash) == superseded_elevated);

    // S' no longer validates in s2
    assert(validate_spec(s2, elevated.id_hash, now2) == Err::<SessionView, ApiError>(
        ApiError::SessionExpired,
    ));
}

} // verus!
