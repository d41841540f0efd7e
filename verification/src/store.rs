//! The credential store: users, tags, passkey credentials, ceremony state,
//! and sessions, held as explicit in-memory state.
//!
//! Every operation is a single-row read or write, matching the store
//! collaborator contract the orchestration layer is written against: each
//! call is individually atomic and there are no cross-row transactions.
//! The store enforces the uniqueness constraints listed in
//! [`StoreView::wf`] and refuses to move a session out of a terminal state
//! back to `Active`.

use vstd::prelude::*;
use vstd::pervasive::VecAdditionalExecFns;
use vstd::string::*;

use crate::bytes::{bytes_eq, bytes_eq_slice, clone_bytes, clone_opt_string};
use crate::errors::{DatabaseError, UniqueField};
use crate::models::{
    PasskeyAuthenticationState, PasskeyAuthenticationStateType, PasskeyAuthenticationStateTypeView,
    PasskeyAuthenticationStateView, PasskeyCredential, PasskeyCredentialUpdate,
    PasskeyCredentialView, NewPasskeyCredential, PasskeyRegistrationState,
    PasskeyRegistrationStateView, Session, SessionState, SessionUpdate, SessionView, Tag,
    TagUpdate, TagView, User, UserCreate, UserUpdate, UserView,
};

verus! {

/// Mathematical view of the whole store.
#[verifier::ext_equal]
pub ghost struct StoreView {
    pub users: Seq<UserView>,
    pub tags: Seq<TagView>,
    pub user_tags: Seq<(u128, u128)>,
    pub passkeys: Seq<PasskeyCredentialView>,
    pub registrations: Seq<PasskeyRegistrationStateView>,
    pub authentications: Seq<PasskeyAuthenticationStateView>,
    pub sessions: Seq<SessionView>,
}

// ---------------------------------------------------------------------------
// Lookup spec functions
// ---------------------------------------------------------------------------

pub open spec fn has_user_id(users: Seq<UserView>, id: u128) -> bool {
    exists|i: int| 0 <= i < users.len() && #[trigger] users[i].id == id
}

pub open spec fn user_index_by_id(users: Seq<UserView>, id: u128) -> int {
    choose|i: int| 0 <= i < users.len() && #[trigger] users[i].id == id
}

pub open spec fn user_by_id(users: Seq<UserView>, id: u128) -> UserView {
    users[user_index_by_id(users, id)]
}

pub open spec fn has_user_email(users: Seq<UserView>, email: Seq<char>) -> bool {
    exists|i: int| 0 <= i < users.len() && #[trigger] users[i].email == email
}

pub open spec fn user_index_by_email(users: Seq<UserView>, email: Seq<char>) -> int {
    choose|i: int| 0 <= i < users.len() && #[trigger] users[i].email == email
}

pub open spec fn user_by_email(users: Seq<UserView>, email: Seq<char>) -> UserView {
    users[user_index_by_email(users, email)]
}

pub open spec fn has_tag_id(tags: Seq<TagView>, id: u128) -> bool {
    exists|i: int| 0 <= i < tags.len() && #[trigger] tags[i].id == id
}

pub open spec fn tag_index_by_id(tags: Seq<TagView>, id: u128) -> int {
    choose|i: int| 0 <= i < tags.len() && #[trigger] tags[i].id == id
}

pub open spec fn tag_by_id(tags: Seq<TagView>, id: u128) -> TagView {
    tags[tag_index_by_id(tags, id)]
}

pub open spec fn has_tag_name(tags: Seq<TagView>, name: Seq<char>) -> bool {
    exists|i: int| 0 <= i < tags.len() && #[trigger] tags[i].name == name
}

pub open spec fn tag_index_by_name(tags: Seq<TagView>, name: Seq<char>) -> int {
    choose|i: int| 0 <= i < tags.len() && #[trigger] tags[i].name == name
}

pub open spec fn tag_by_name(tags: Seq<TagView>, name: Seq<char>) -> TagView {
    tags[tag_index_by_name(tags, name)]
}

pub open spec fn has_user_tag(user_tags: Seq<(u128, u128)>, user_id: u128, tag_id: u128) -> bool {
    exists|i: int| 0 <= i < user_tags.len() && #[trigger] user_tags[i] == (user_id, tag_id)
}

pub open spec fn has_passkey_id(passkeys: Seq<PasskeyCredentialView>, id: u128) -> bool {
    exists|i: int| 0 <= i < passkeys.len() && #[trigger] passkeys[i].id == id
}

pub open spec fn passkey_index_by_id(passkeys: Seq<PasskeyCredentialView>, id: u128) -> int {
    choose|i: int| 0 <= i < passkeys.len() && #[trigger] passkeys[i].id == id
}

pub open spec fn passkey_by_id(passkeys: Seq<PasskeyCredentialView>, id: u128) -> PasskeyCredentialView {
    passkeys[passkey_index_by_id(passkeys, id)]
}

pub open spec fn has_credential_id(passkeys: Seq<PasskeyCredentialView>, credential_id: Seq<u8>) -> bool {
    exists|i: int| 0 <= i < passkeys.len() && #[trigger] passkeys[i].credential_id == credential_id
}

pub open spec fn passkey_index_by_credential_id(
    passkeys: Seq<PasskeyCredentialView>,
    credential_id: Seq<u8>,
) -> int {
    choose|i: int| 0 <= i < passkeys.len() && #[trigger] passkeys[i].credential_id == credential_id
}

pub open spec fn passkey_by_credential_id(
    passkeys: Seq<PasskeyCredentialView>,
    credential_id: Seq<u8>,
) -> PasskeyCredentialView {
    passkeys[passkey_index_by_credential_id(passkeys, credential_id)]
}

pub open spec fn has_registration_id(
    registrations: Seq<PasskeyRegistrationStateView>,
    id: u128,
) -> bool {
    exists|i: int| 0 <= i < registrations.len() && #[trigger] registrations[i].id == id
}

pub open spec fn registration_index_by_id(
    registrations: Seq<PasskeyRegistrationStateView>,
    id: u128,
) -> int {
    choose|i: int| 0 <= i < registrations.len() && #[trigger] registrations[i].id == id
}

pub open spec fn registration_by_id(
    registrations: Seq<PasskeyRegistrationStateView>,
    id: u128,
) -> PasskeyRegistrationStateView {
    registrations[registration_index_by_id(registrations, id)]
}

pub open spec fn has_authentication_id(
    authentications: Seq<PasskeyAuthenticationStateView>,
    id: u128,
) -> bool {
    exists|i: int| 0 <= i < authentications.len() && #[trigger] authentications[i].id == id
}

pub open spec fn authentication_index_by_id(
    authentications: Seq<PasskeyAuthenticationStateView>,
    id: u128,
) -> int {
    choose|i: int| 0 <= i < authentications.len() && #[trigger] authentications[i].id == id
}

pub open spec fn authentication_by_id(
    authentications: Seq<PasskeyAuthenticationStateView>,
    id: u128,
) -> PasskeyAuthenticationStateView {
    authentications[authentication_index_by_id(authentications, id)]
}

pub open spec fn has_session_hash(sessions: Seq<SessionView>, id_hash: Seq<u8>) -> bool {
    exists|i: int| 0 <= i < sessions.len() && #[trigger] sessions[i].id_hash == id_hash
}

pub open spec fn session_index_by_hash(sessions: Seq<SessionView>, id_hash: Seq<u8>) -> int {
    choose|i: int| 0 <= i < sessions.len() && #[trigger] sessions[i].id_hash == id_hash
}

pub open spec fn session_by_hash(sessions: Seq<SessionView>, id_hash: Seq<u8>) -> SessionView {
    sessions[session_index_by_hash(sessions, id_hash)]
}

impl StoreView {
    /// Uniqueness constraints the store maintains, and the bound on ceremony
    /// timestamps that keeps expiry arithmetic within machine limits.
    pub open spec fn wf(self) -> bool {
        &&& forall|i: int, j: int|
            #![trigger self.users[i], self.users[j]]
            0 <= i < j < self.users.len() ==> self.users[i].id != self.users[j].id
                && self.users[i].email != self.users[j].email
        &&& forall|i: int, j: int|
            #![trigger self.tags[i], self.tags[j]]
            0 <= i < j < self.tags.len() ==> self.tags[i].id != self.tags[j].id
                && self.tags[i].name != self.tags[j].name
        &&& forall|i: int, j: int|
            #![trigger self.user_tags[i], self.user_tags[j]]
            0 <= i < j < self.user_tags.len() ==> self.user_tags[i] != self.user_tags[j]
        &&& forall|i: int, j: int|
            #![trigger self.passkeys[i], self.passkeys[j]]
            0 <= i < j < self.passkeys.len() ==> self.passkeys[i].id != self.passkeys[j].id
                && self.passkeys[i].credential_id != self.passkeys[j].credential_id
        &&& forall|i: int, j: int|
            #![trigger self.registrations[i], self.registrations[j]]
            0 <= i < j < self.registrations.len() ==> self.registrations[i].id
                != self.registrations[j].id
        &&& forall|i: int, j: int|
            #![trigger self.authentications[i], self.authentications[j]]
            0 <= i < j < self.authentications.len() ==> self.authentications[i].id
                != self.authentications[j].id
        &&& forall|i: int, j: int|
            #![trigger self.sessions[i], self.sessions[j]]
            0 <= i < j < self.sessions.len() ==> self.sessions[i].id_hash
                != self.sessions[j].id_hash
        &&& forall|i: int|
            0 <= i < self.registrations.len() ==> (#[trigger] self.registrations[i]).created_at >= 0
        &&& forall|i: int|
            0 <= i < self.authentications.len() ==> (#[trigger] self.authentications[i]).created_at
                >= 0
    }

    /// The empty store.
    pub open spec fn empty() -> StoreView {
        StoreView {
            users: Seq::empty(),
            tags: Seq::empty(),
            user_tags: Seq::empty(),
            passkeys: Seq::empty(),
            registrations: Seq::empty(),
            authentications: Seq::empty(),
            sessions: Seq::empty(),
        }
    }
}

// ---------------------------------------------------------------------------
// The store itself
// ---------------------------------------------------------------------------

/// In-memory credential store. All access goes through the methods below,
/// which keep [`StoreView::wf`].
#[derive(Debug)]
pub struct Store {
    users: Vec<User>,
    tags: Vec<Tag>,
    user_tags: Vec<(u128, u128)>,
    passkeys: Vec<PasskeyCredential>,
    registrations: Vec<PasskeyRegistrationState>,
    authentications: Vec<PasskeyAuthenticationState>,
    sessions: Vec<Session>,
}

impl View for Store {
    type V = StoreView;

    closed spec fn view(&self) -> StoreView {
        StoreView {
            users: self.users.deep_view(),
            tags: self.tags.deep_view(),
            user_tags: self.user_tags.deep_view(),
            passkeys: self.passkeys.deep_view(),
            registrations: self.registrations.deep_view(),
            authentications: self.authentications.deep_view(),
            sessions: self.sessions.deep_view(),
        }
    }
}

impl Store {
    /// Creates an empty store.
    pub fn new() -> (r: Store)
        ensures
            r@ == StoreView::empty(),
            r@.wf(),
    {
        let r = Store {
            users: Vec::new(),
            tags: Vec::new(),
            user_tags: Vec::new(),
            passkeys: Vec::new(),
            registrations: Vec::new(),
            authentications: Vec::new(),
            sessions: Vec::new(),
        };
        proof {
            assert(r@.users =~= Seq::<UserView>::empty());
            assert(r@.tags =~= Seq::<TagView>::empty());
            assert(r@.user_tags =~= Seq::<(u128, u128)>::empty());
            assert(r@.passkeys =~= Seq::<PasskeyCredentialView>::empty());
            assert(r@.registrations =~= Seq::<PasskeyRegistrationStateView>::empty());
            assert(r@.authentications =~= Seq::<PasskeyAuthenticationStateView>::empty());
            assert(r@.sessions =~= Seq::<SessionView>::empty());
        }
        r
    }

    // -----------------------------------------------------------------------
    // User repository
    // -----------------------------------------------------------------------

    /// Finds the position of the user with the given id.
    fn find_user_by_id(&self, id: u128) -> (r: Option<usize>)
        ensures
            match r {
                Some(i) => i < self@.users.len() && self@.users[i as int].id == id,
                None => !has_user_id(self@.users, id),
            },
    {
        let mut i: usize = 0;
        while i < self.users.len()
            invariant
                i <= self.users.len(),
                forall|k: int| 0 <= k < i ==> (#[trigger] self@.users[k]).id != id,
            decreases self.users.len() - i,
        {
            if self.users[i].id() == id {
                return Some(i);
            }
            i = i + 1;
        }
        None
    }

    /// Finds the position of the user with the given email.
    fn find_user_by_email(&self, email: &str) -> (r: Option<usize>)
        ensures
            match r {
                Some(i) => i < self@.users.len() && self@.users[i as int].email == email@,
                None => !has_user_email(self@.users, email@),
            },
    {
        let mut i: usize = 0;
        while i < self.users.len()
            invariant
                i <= self.users.len(),
                forall|k: int| 0 <= k < i ==> (#[trigger] self@.users[k]).email != email@,
            decreases self.users.len() - i,
        {
            if self.users[i].email_eq(email) {
                return Some(i);
            }
            i = i + 1;
        }
        None
    }

    /// Creates a new user with the given id and initial information.
    /// Fails if the id or the email is already taken.
    pub fn create_user(&mut self, id: u128, user: &UserCreate, now: i64) -> (r: Result<
        User,
        DatabaseError,
    >)
        requires
            old(self)@.wf(),
        ensures
            final(self)@.wf(),
            has_user_id(old(self)@.users, id) ==> r == Err::<User, DatabaseError>(
                DatabaseError::UniquenessViolation { field: Some(UniqueField::Id) },
            ) && final(self)@ == old(self)@,
            !has_user_id(old(self)@.users, id) && has_user_email(old(self)@.users, user.email@)
                ==> r == Err::<User, DatabaseError>(
                DatabaseError::UniquenessViolation { field: Some(UniqueField::Email) },
            ) && final(self)@ == old(self)@,
            !has_user_id(old(self)@.users, id) && !has_user_email(old(self)@.users, user.email@)
                ==> match r {
                Ok(u) => u@ == (UserView {
                    id,
                    email: user.email@,
                    display_name: user.display_name@,
                    created_at: now as int,
                    updated_at: now as int,
                }) && final(self)@ == (StoreView {
                    users: old(self)@.users.push(u@),
                    ..old(self)@
                }),
                Err(_) => false,
            },
    {
        if self.find_user_by_id(id).is_some() {
            return Err(DatabaseError::UniquenessViolation { field: Some(UniqueField::Id) });
        }
        if self.find_user_by_email(user.email.as_str()).is_some() {
            return Err(DatabaseError::UniquenessViolation { field: Some(UniqueField::Email) });
        }
        let record = User::new_record(
            id,
            user.email.clone(),
            user.display_name.clone(),
            now,
            now,
        );
        let result = record.clone();
        let ghost pre = self@;
        self.users.push(record);
        proof {
            assert(self@.users =~= pre.users.push(result@));
            assert(self@ == (StoreView { users: pre.users.push(result@), ..pre }));
        }
        Ok(result)
    }

    /// Fetches the user with the given id.
    pub fn get_user_by_id(&self, id: u128) -> (r: Result<User, DatabaseError>)
        requires
            self@.wf(),
        ensures
            match r {
                Ok(u) => has_user_id(self@.users, id) && u@ == user_by_id(self@.users, id),
                Err(e) => e == DatabaseError::NotFound && !has_user_id(self@.users, id),
            },
    {
        match self.find_user_by_id(id) {
            Some(i) => {
                let u = self.users[i].clone();
                proof {
                    lemma_user_id_index_unique(self@, i as int, id);
                }
                Ok(u)
            },
            None => Err(DatabaseError::NotFound),
        }
    }

    /// Fetches the user with the given email address.
    pub fn get_user_by_email(&self, email: &str) -> (r: Result<User, DatabaseError>)
        requires
            self@.wf(),
        ensures
            match r {
                Ok(u) => has_user_email(self@.users, email@) && u@ == user_by_email(
                    self@.users,
                    email@,
                ),
                Err(e) => e == DatabaseError::NotFound && !has_user_email(self@.users, email@),
            },
    {
        match self.find_user_by_email(email) {
            Some(i) => {
                let u = self.users[i].clone();
                proof {
                    lemma_user_email_index_unique(self@, i as int, email@);
                }
                Ok(u)
            },
            None => Err(DatabaseError::NotFound),
        }
    }

    /// Alters the user with the given id, bumping its update timestamp.
    /// Fails on an empty update, a missing user, or an email that another
    /// user already holds.
    pub fn update_user(&mut self, id: u128, update: &UserUpdate, now: i64) -> (r: Result<
        User,
        DatabaseError,
    >)
        requires
            old(self)@.wf(),
        ensures
            final(self)@.wf(),
            update.email is None && update.display_name is None ==> r == Err::<User, DatabaseError>(
                DatabaseError::EmptyUpdate,
            ) && final(self)@ == old(self)@,
            !(update.email is None && update.display_name is None) && !has_user_id(
                old(self)@.users,
                id,
            ) ==> r == Err::<User, DatabaseError>(DatabaseError::NotFound) && final(self)@ == old(self)@,
            !(update.email is None && update.display_name is None) && has_user_id(
                old(self)@.users,
                id,
            ) ==> {
                let idx = user_index_by_id(old(self)@.users, id);
                let prev = old(self)@.users[idx];
                let updated = UserView {
                    id: prev.id,
                    email: match update.email.deep_view() {
                        Some(e) => e,
                        None => prev.email,
                    },
                    display_name: match update.display_name.deep_view() {
                        Some(d) => d,
                        None => prev.display_name,
                    },
                    created_at: prev.created_at,
                    updated_at: now as int,
                };
                if updated.email != prev.email && has_user_email(old(self)@.users, updated.email) {
                    r == Err::<User, DatabaseError>(
                        DatabaseError::UniquenessViolation { field: Some(UniqueField::Email) },
                    ) && final(self)@ == old(self)@
                } else {
                    match r {
                        Ok(u) => u@ == updated && final(self)@ == (StoreView {
                            users: old(self)@.users.update(idx, updated),
                            ..old(self)@
                        }),
                        Err(_) => false,
                    }
                }
            },
    {
        if update.is_empty() {
            return Err(DatabaseError::EmptyUpdate);
        }
        let i = match self.find_user_by_id(id) {
            Some(i) => i,
            None => {
                return Err(DatabaseError::NotFound);
            },
        };
        proof {
            lemma_user_id_index_unique(self@, i as int, id);
        }
        let (new_email, email_changed): (String, bool) = match &update.email {
            Some(e) => {
                let changed = !self.users[i].email_eq(e.as_str());
                (e.clone(), changed)
            },
            None => (String::from_str(self.users[i].email()), false),
        };
        let new_display_name = match &update.display_name {
            Some(d) => d.clone(),
            None => String::from_str(self.users[i].display_name()),
        };
        let created_at = self.users[i].created_at();
        if email_changed {
            if self.find_user_by_email(new_email.as_str()).is_some() {
                return Err(DatabaseError::UniquenessViolation {
                    field: Some(UniqueField::Email),
                });
            }
        }
        let record = User::new_record(id, new_email, new_display_name, created_at, now);
        let result = record.clone();
        let ghost pre = self@;
        self.users.set(i, record);
        proof {
            assert(self@.users =~= pre.users.update(i as int, result@));
            assert(self@ == (StoreView { users: pre.users.update(i as int, result@), ..pre }));
            lemma_user_update_keeps_wf(pre, self@, i as int, result@);
        }
        Ok(result)
    }

    /// Deletes the user with the given id, if present.
    pub fn delete_user_by_id(&mut self, id: u128) -> (r: Result<(), DatabaseError>)
        requires
            old(self)@.wf(),
        ensures
            final(self)@.wf(),
            r is Ok,
            has_user_id(old(self)@.users, id) ==> final(self)@ == (StoreView {
                users: old(self)@.users.remove(user_index_by_id(old(self)@.users, id)),
                ..old(self)@
            }),
            !has_user_id(old(self)@.users, id) ==> final(self)@ == old(self)@,
            final(self)@.users.len() <= old(self)@.users.len(),
            !has_user_id(final(self)@.users, id),
    {
        match self.find_user_by_id(id) {
            Some(i) => {
                proof {
                    lemma_user_id_index_unique(self@, i as int, id);
                }
                let ghost pre = self@;
                self.users.remove(i);
                proof {
                    assert(self@.users =~= pre.users.remove(i as int));
                    assert(self@ == (StoreView {
                        users: pre.users.remove(i as int),
                        ..pre
                    }));
                    lemma_user_remove_keeps_wf(pre, self@, i as int);
                    assert forall|k: int| 0 <= k < self@.users.len() implies (
                    #[trigger] self@.users[k]).id != id by {
                        if k < i {
                            assert(self@.users[k] == pre.users[k]);
                        } else {
                            assert(self@.users[k] == pre.users[k + 1]);
                        }
                    }
                }
                Ok(())
            },
            None => Ok(()),
        }
    }
}

impl Store {
    // -----------------------------------------------------------------------
    // Tag repository
    // -----------------------------------------------------------------------

    /// Finds the position of the tag with the given id.
    fn find_tag_by_id(&self, id: u128) -> (r: Option<usize>)
        ensures
            match r {
                Some(i) => i < self@.tags.len() && self@.tags[i as int].id == id,
                None => !has_tag_id(self@.tags, id),
            },
    {
        let mut i: usize = 0;
        while i < self.tags.len()
            invariant
                i <= self.tags.len(),
                forall|k: int| 0 <= k < i ==> (#[trigger] self@.tags[k]).id != id,
            decreases self.tags.len() - i,
        {
            if self.tags[i].id == id {
                return Some(i);
            }
            i = i + 1;
        }
        None
    }

    /// Finds the position of the tag with the given name.
    fn find_tag_by_name(&self, name: &str) -> (r: Option<usize>)
        ensures
            match r {
                Some(i) => i < self@.tags.len() && self@.tags[i as int].name == name@,
                None => !has_tag_name(self@.tags, name@),
            },
    {
        let needle = String::from_str(name);
        let mut i: usize = 0;
        while i < self.tags.len()
            invariant
                i <= self.tags.len(),
                needle@ == name@,
                forall|k: int| 0 <= k < i ==> (#[trigger] self@.tags[k]).name != name@,
            decreases self.tags.len() - i,
        {
            if self.tags[i].name.eq(&needle) {
                return Some(i);
            }
            i = i + 1;
        }
        None
    }

    /// Whether the given tag is attached to the given user.
    fn has_pair(&self, user_id: u128, tag_id: u128) -> (r: bool)
        ensures
            r == has_user_tag(self@.user_tags, user_id, tag_id),
    {
        let mut i: usize = 0;
        while i < self.user_tags.len()
            invariant
                i <= self.user_tags.len(),
                forall|k: int| 0 <= k < i ==> #[trigger] self@.user_tags[k] != (user_id, tag_id),
            decreases self.user_tags.len() - i,
        {
            let pair = self.user_tags[i];
            if pair.0 == user_id && pair.1 == tag_id {
                proof {
                    assert(self@.user_tags[i as int] == (user_id, tag_id));
                }
                return true;
            }
            i = i + 1;
        }
        false
    }

    /// Creates a new tag with the given id and name. Fails if the update
    /// carries no name or if the id or the name is already taken.
    pub fn create_tag(&mut self, id: u128, tag: &TagUpdate, now: i64) -> (r: Result<
        Tag,
        DatabaseError,
    >)
        requires
            old(self)@.wf(),
        ensures
            final(self)@.wf(),
            tag.name is None ==> r == Err::<Tag, DatabaseError>(DatabaseError::Other) && final(self)@ == old(self)@,
            tag.name is Some && has_tag_id(old(self)@.tags, id) ==> r == Err::<
                Tag,
                DatabaseError,
            >(DatabaseError::UniquenessViolation { field: Some(UniqueField::Id) }) && final(self)@
                == old(self)@,
            tag.name is Some && !has_tag_id(old(self)@.tags, id) && has_tag_name(
                old(self)@.tags,
                (tag.name->0)@,
            ) ==> r == Err::<Tag, DatabaseError>(
                DatabaseError::UniquenessViolation { field: Some(UniqueField::Name) },
            ) && final(self)@ == old(self)@,
            tag.name is Some && !has_tag_id(old(self)@.tags, id) && !has_tag_name(
                old(self)@.tags,
                (tag.name->0)@,
            ) ==> match r {
                Ok(t) => t@ == (TagView {
                    id,
                    name: (tag.name->0)@,
                    created_at: now as int,
                    updated_at: now as int,
                }) && final(self)@ == (StoreView { tags: old(self)@.tags.push(t@), ..old(self)@ }),
                Err(_) => false,
            },
    {
        let name = match &tag.name {
            Some(n) => n.clone(),
            None => {
                return Err(DatabaseError::Other);
            },
        };
        if self.find_tag_by_id(id).is_some() {
            return Err(DatabaseError::UniquenessViolation { field: Some(UniqueField::Id) });
        }
        if self.find_tag_by_name(name.as_str()).is_some() {
            return Err(DatabaseError::UniquenessViolation { field: Some(UniqueField::Name) });
        }
        let record = Tag { id, name, created_at: now, updated_at: now };
        let result = record.clone();
        let ghost pre = self@;
        self.tags.push(record);
        proof {
            assert(self@.tags =~= pre.tags.push(result@));
            assert(self@ == (StoreView { tags: pre.tags.push(result@), ..pre }));
        }
        Ok(result)
    }

    /// Fetches the tag with the given id.
    pub fn get_tag_by_id(&self, id: u128) -> (r: Result<Tag, DatabaseError>)
        requires
            self@.wf(),
        ensures
            match r {
                Ok(t) => has_tag_id(self@.tags, id) && t@ == tag_by_id(self@.tags, id),
                Err(e) => e == DatabaseError::NotFound && !has_tag_id(self@.tags, id),
            },
    {
        match self.find_tag_by_id(id) {
            Some(i) => {
                let t = self.tags[i].clone();
                proof {
                    lemma_tag_id_index_unique(self@, i as int, id);
                }
                Ok(t)
            },
            None => Err(DatabaseError::NotFound),
        }
    }

    /// Fetches the tag with the given name.
    pub fn get_tag_by_name(&self, name: &str) -> (r: Result<Tag, DatabaseError>)
        requires
            self@.wf(),
        ensures
            match r {
                Ok(t) => has_tag_name(self@.tags, name@) && t@ == tag_by_name(self@.tags, name@),
                Err(e) => e == DatabaseError::NotFound && !has_tag_name(self@.tags, name@),
            },
    {
        match self.find_tag_by_name(name) {
            Some(i) => {
                let t = self.tags[i].clone();
                proof {
                    lemma_tag_name_index_unique(self@, i as int, name@);
                }
                Ok(t)
            },
            None => Err(DatabaseError::NotFound),
        }
    }

    /// Alters the tag with the given id, bumping its update timestamp.
    /// Fails on an empty update, a missing tag, or a name that another tag
    /// already holds.
    pub fn update_tag(&mut self, id: u128, update: &TagUpdate, now: i64) -> (r: Result<
        Tag,
        DatabaseError,
    >)
        requires
            old(self)@.wf(),
        ensures
            final(self)@.wf(),
            update.name is None ==> r == Err::<Tag, DatabaseError>(DatabaseError::EmptyUpdate)
                && final(self)@ == old(self)@,
            update.name is Some && !has_tag_id(old(self)@.tags, id) ==> r == Err::<
                Tag,
                DatabaseError,
            >(DatabaseError::NotFound) && final(self)@ == old(self)@,
            update.name is Some && has_tag_id(old(self)@.tags, id) ==> {
                let idx = tag_index_by_id(old(self)@.tags, id);
                let prev = old(self)@.tags[idx];
                let updated = TagView {
                    id: prev.id,
                    name: (update.name->0)@,
                    created_at: prev.created_at,
                    updated_at: now as int,
                };
                if (update.name->0)@ != prev.name && has_tag_name(old(self)@.tags, (update.name->0)@) {
                    r == Err::<Tag, DatabaseError>(
                        DatabaseError::UniquenessViolation { field: Some(UniqueField::Name) },
                    ) && final(self)@ == old(self)@
                } else {
                    match r {
                        Ok(t) => t@ == updated && final(self)@ == (StoreView {
                            tags: old(self)@.tags.update(idx, updated),
                            ..old(self)@
                        }),
                        Err(_) => false,
                    }
                }
            },
    {
        let name = match &update.name {
            Some(n) => n.clone(),
            None => {
                return Err(DatabaseError::EmptyUpdate);
            },
        };
        let i = match self.find_tag_by_id(id) {
            Some(i) => i,
            None => {
                return Err(DatabaseError::NotFound);
            },
        };
        proof {
            lemma_tag_id_index_unique(self@, i as int, id);
        }
        let name_changed = !self.tags[i].name.eq(&name);
        if name_changed {
            if self.find_tag_by_name(name.as_str()).is_some() {
                return Err(DatabaseError::UniquenessViolation { field: Some(UniqueField::Name) });
            }
        }
        let record = Tag {
            id,
            name,
            created_at: self.tags[i].created_at,
            updated_at: now,
        };
        let result = record.clone();
        let ghost pre = self@;
        self.tags.set(i, record);
        proof {
            assert(self@.tags =~= pre.tags.update(i as int, result@));
            assert(self@ == (StoreView { tags: pre.tags.update(i as int, result@), ..pre }));
            lemma_tag_update_keeps_wf(pre, self@, i as int, result@);
        }
        Ok(result)
    }

    /// Deletes the tag with the given id, if present.
    pub fn delete_tag_by_id(&mut self, id: u128) -> (r: Result<(), DatabaseError>)
        requires
            old(self)@.wf(),
        ensures
            final(self)@.wf(),
            r is Ok,
            has_tag_id(old(self)@.tags, id) ==> final(self)@ == (StoreView {
                tags: old(self)@.tags.remove(tag_index_by_id(old(self)@.tags, id)),
                ..old(self)@
            }),
            !has_tag_id(old(self)@.tags, id) ==> final(self)@ == old(self)@,
    {
        match self.find_tag_by_id(id) {
            Some(i) => {
                proof {
                    lemma_tag_id_index_unique(self@, i as int, id);
                }
                let ghost pre = self@;
                self.tags.remove(i);
                proof {
                    assert(self@.tags =~= pre.tags.remove(i as int));
                    assert(self@ == (StoreView { tags: pre.tags.remove(i as int), ..pre }));
                    lemma_tag_remove_keeps_wf(pre, self@, i as int);
                }
                Ok(())
            },
            None => Ok(()),
        }
    }

    /// Attaches the given tag to the user with the given id. Fails if either
    /// does not exist or if the tag is already attached.
    pub fn add_tag_to_user(&mut self, user_id: u128, tag: &Tag) -> (r: Result<(), DatabaseError>)
        requires
            old(self)@.wf(),
        ensures
            final(self)@.wf(),
            !has_user_id(old(self)@.users, user_id) || !has_tag_id(old(self)@.tags, tag.id) ==> r
                == Err::<(), DatabaseError>(DatabaseError::Other) && final(self)@ == old(self)@,
            has_user_id(old(self)@.users, user_id) && has_tag_id(old(self)@.tags, tag.id)
                && has_user_tag(old(self)@.user_tags, user_id, tag.id) ==> r == Err::<
                (),
                DatabaseError,
            >(DatabaseError::UniquenessViolation { field: None }) && final(self)@ == old(self)@,
            has_user_id(old(self)@.users, user_id) && has_tag_id(old(self)@.tags, tag.id)
                && !has_user_tag(old(self)@.user_tags, user_id, tag.id) ==> r is Ok && final(self)@
                == (StoreView {
                user_tags: old(self)@.user_tags.push((user_id, tag.id)),
                ..old(self)@
            }),
    {
        if self.find_user_by_id(user_id).is_none() || self.find_tag_by_id(tag.id).is_none() {
            return Err(DatabaseError::Other);
        }
        if self.has_pair(user_id, tag.id) {
            return Err(DatabaseError::UniquenessViolation { field: None });
        }
        let ghost pre = self@;
        self.user_tags.push((user_id, tag.id));
        proof {
            assert(self@.user_tags =~= pre.user_tags.push((user_id, tag.id)));
            assert(self@ == (StoreView {
                user_tags: pre.user_tags.push((user_id, tag.id)),
                ..pre
            }));
        }
        Ok(())
    }

    /// Detaches the given tag from the user with the given id, if attached.
    pub fn remove_tag_from_user(&mut self, user_id: u128, tag: &Tag) -> (r: Result<
        (),
        DatabaseError,
    >)
        requires
            old(self)@.wf(),
        ensures
            final(self)@.wf(),
            r is Ok,
            !has_user_tag(final(self)@.user_tags, user_id, tag.id),
            forall|u: u128, t: u128|
                !(u == user_id && t == tag.id) ==> has_user_tag(final(self)@.user_tags, u, t)
                    == has_user_tag(old(self)@.user_tags, u, t),
            final(self)@ == (StoreView { user_tags: final(self)@.user_tags, ..old(self)@ }),
    {
        let mut i: usize = 0;
        let tag_id = tag.id;
        let ghost pre = self@;
        while i < self.user_tags.len()
            invariant
                i <= self.user_tags.len(),
                self@ == pre,
                pre == old(self)@,
                pre.wf(),
                tag_id == tag.id,
                forall|k: int| 0 <= k < i ==> #[trigger] pre.user_tags[k] != (user_id, tag_id),
            decreases self.user_tags.len() - i,
        {
            let pair = self.user_tags[i];
            if pair.0 == user_id && pair.1 == tag_id {
                proof {
                    assert(pre.user_tags[i as int] == (user_id, tag_id));
                }
                self.user_tags.remove(i);
                proof {
                    assert(self@.user_tags =~= pre.user_tags.remove(i as int));
                    assert(self@ == (StoreView {
                        user_tags: pre.user_tags.remove(i as int),
                        ..pre
                    }));
                    lemma_user_tag_remove(pre, self@, i as int, user_id, tag_id);
                }
                return Ok(());
            }
            i = i + 1;
        }
        Ok(())
    }

    /// Fetches the tags attached to the user with the given id.
    pub fn get_tags_by_user_id(&self, user_id: u128) -> (r: Result<Vec<Tag>, DatabaseError>)
        requires
            self@.wf(),
        ensures
            match r {
                Ok(tags) => tags.deep_view() == self@.tags.filter(
                    |t: TagView| has_user_tag(self@.user_tags, user_id, t.id),
                ),
                Err(_) => false,
            },
    {
        let ghost pred = |t: TagView| has_user_tag(self@.user_tags, user_id, t.id);
        let mut out: Vec<Tag> = Vec::new();
        let mut i: usize = 0;
        proof {
            assert(self@.tags.take(0).filter(pred) =~= Seq::<TagView>::empty()) by {
                reveal(Seq::filter);
            }
            assert(out.deep_view() =~= Seq::<TagView>::empty());
        }
        while i < self.tags.len()
            invariant
                self@.wf(),
                i <= self.tags.len(),
                pred == (|t: TagView| has_user_tag(self@.user_tags, user_id, t.id)),
                out.deep_view() == self@.tags.take(i as int).filter(pred),
            decreases self.tags.len() - i,
        {
            let ghost prev_out = out.deep_view();
            if self.has_pair(user_id, self.tags[i].id) {
                out.push(self.tags[i].clone());
                proof {
                    assert(out.deep_view() =~= prev_out.push(self@.tags[i as int]));
                }
            }
            proof {
                lemma_filter_take_step(self@.tags, pred, i as int);
            }
            i = i + 1;
        }
        proof {
            assert(self@.tags.take(self.tags.len() as int) =~= self@.tags);
        }
        Ok(out)
    }

    /// Fetches the users that the tag with the given id is attached to.
    pub fn get_users_by_tag_id(&self, tag_id: u128) -> (r: Result<Vec<User>, DatabaseError>)
        requires
            self@.wf(),
        ensures
            match r {
                Ok(users) => users.deep_view() == self@.users.filter(
                    |u: UserView| has_user_tag(self@.user_tags, u.id, tag_id),
                ),
                Err(_) => false,
            },
    {
        let ghost pred = |u: UserView| has_user_tag(self@.user_tags, u.id, tag_id);
        let mut out: Vec<User> = Vec::new();
        let mut i: usize = 0;
        proof {
            assert(self@.users.take(0).filter(pred) =~= Seq::<UserView>::empty()) by {
                reveal(Seq::filter);
            }
            assert(out.deep_view() =~= Seq::<UserView>::empty());
        }
        while i < self.users.len()
            invariant
                self@.wf(),
                i <= self.users.len(),
                pred == (|u: UserView| has_user_tag(self@.user_tags, u.id, tag_id)),
                out.deep_view() == self@.users.take(i as int).filter(pred),
            decreases self.users.len() - i,
        {
            let ghost prev_out = out.deep_view();
            if self.has_pair(self.users[i].id(), tag_id) {
                out.push(self.users[i].clone());
                proof {
                    assert(out.deep_view() =~= prev_out.push(self@.users[i as int]));
                }
            }
            proof {
                lemma_filter_take_step(self@.users, pred, i as int);
            }
            i = i + 1;
        }
        proof {
            assert(self@.users.take(self.users.len() as int) =~= self@.users);
        }
        Ok(out)
    }
}

impl Store {
    // -----------------------------------------------------------------------
    // Passkey repository
    // -----------------------------------------------------------------------

    /// Finds the position of the passkey with the given id.
    fn find_passkey_by_id(&self, id: u128) -> (r: Option<usize>)
        ensures
            match r {
                Some(i) => i < self@.passkeys.len() && self@.passkeys[i as int].id == id,
                None => !has_passkey_id(self@.passkeys, id),
            },
    {
        let mut i: usize = 0;
        while i < self.passkeys.len()
            invariant
                i <= self.passkeys.len(),
                forall|k: int| 0 <= k < i ==> (#[trigger] self@.passkeys[k]).id != id,
            decreases self.passkeys.len() - i,
        {
            if self.passkeys[i].id == id {
                return Some(i);
            }
            i = i + 1;
        }
        None
    }

    /// Finds the position of the passkey with the given credential id.
    fn find_passkey_by_credential_id(&self, credential_id: &[u8]) -> (r: Option<usize>)
        ensures
            match r {
                Some(i) => i < self@.passkeys.len() && self@.passkeys[i as int].credential_id
                    == credential_id@,
                None => !has_credential_id(self@.passkeys, credential_id@),
            },
    {
        let mut i: usize = 0;
        while i < self.passkeys.len()
            invariant
                i <= self.passkeys.len(),
                forall|k: int| 0 <= k < i ==> (#[trigger] self@.passkeys[k]).credential_id
                    != credential_id@,
            decreases self.passkeys.len() - i,
        {
            if bytes_eq_slice(&self.passkeys[i].credential_id, credential_id) {
                return Some(i);
            }
            i = i + 1;
        }
        None
    }

    /// Creates a new passkey credential with the given id for the user with
    /// the given user id. Fails if the id or the authenticator's credential
    /// id is already taken, or if the user does not exist.
    pub fn create_passkey(
        &mut self,
        id: u128,
        user_id: u128,
        passkey: &NewPasskeyCredential,
        now: i64,
    ) -> (r: Result<PasskeyCredential, DatabaseError>)
        requires
            old(self)@.wf(),
        ensures
            final(self)@.wf(),
            has_passkey_id(old(self)@.passkeys, id) ==> r == Err::<
                PasskeyCredential,
                DatabaseError,
            >(DatabaseError::UniquenessViolation { field: Some(UniqueField::Id) }) && final(self)@
                == old(self)@,
            !has_passkey_id(old(self)@.passkeys, id) && has_credential_id(
                old(self)@.passkeys,
                passkey.credential_id@,
            ) ==> r == Err::<PasskeyCredential, DatabaseError>(
                DatabaseError::UniquenessViolation { field: Some(UniqueField::CredentialId) },
            ) && final(self)@ == old(self)@,
            !has_passkey_id(old(self)@.passkeys, id) && !has_credential_id(
                old(self)@.passkeys,
                passkey.credential_id@,
            ) && !has_user_id(old(self)@.users, user_id) ==> r == Err::<
                PasskeyCredential,
                DatabaseError,
            >(DatabaseError::Other) && final(self)@ == old(self)@,
            !has_passkey_id(old(self)@.passkeys, id) && !has_credential_id(
                old(self)@.passkeys,
                passkey.credential_id@,
            ) && has_user_id(old(self)@.users, user_id) ==> match r {
                Ok(p) => p@ == (PasskeyCredentialView {
                    id,
                    user_id,
                    display_name: passkey.display_name.deep_view(),
                    passkey: passkey.passkey@,
                    credential_id: passkey.credential_id@,
                    created_at: now as int,
                    last_used_at: Some(now as int),
                }) && final(self)@ == (StoreView {
                    passkeys: old(self)@.passkeys.push(p@),
                    ..old(self)@
                }),
                Err(_) => false,
            },
    {
        if self.find_passkey_by_id(id).is_some() {
            return Err(DatabaseError::UniquenessViolation { field: Some(UniqueField::Id) });
        }
        if self.find_passkey_by_credential_id(passkey.credential_id.as_slice()).is_some() {
            return Err(DatabaseError::UniquenessViolation {
                field: Some(UniqueField::CredentialId),
            });
        }
        if self.find_user_by_id(user_id).is_none() {
            return Err(DatabaseError::Other);
        }
        let record = PasskeyCredential {
            id,
            user_id,
            display_name: clone_opt_string(&passkey.display_name),
            passkey: clone_bytes(&passkey.passkey),
            credential_id: clone_bytes(&passkey.credential_id),
            created_at: now,
            last_used_at: Some(now),
        };
        let result = record.clone();
        let ghost pre = self@;
        self.passkeys.push(record);
        proof {
            assert(self@.passkeys =~= pre.passkeys.push(result@));
            assert(self@ == (StoreView { passkeys: pre.passkeys.push(result@), ..pre }));
        }
        Ok(result)
    }

    /// Fetches the passkey credential with the given id.
    pub fn get_passkey_by_id(&self, id: u128) -> (r: Result<PasskeyCredential, DatabaseError>)
        requires
            self@.wf(),
        ensures
            match r {
                Ok(p) => has_passkey_id(self@.passkeys, id) && p@ == passkey_by_id(
                    self@.passkeys,
                    id,
                ),
                Err(e) => e == DatabaseError::NotFound && !has_passkey_id(self@.passkeys, id),
            },
    {
        match self.find_passkey_by_id(id) {
            Some(i) => {
                let p = self.passkeys[i].clone();
                proof {
                    lemma_passkey_id_index_unique(self@, i as int, id);
                }
                Ok(p)
            },
            None => Err(DatabaseError::NotFound),
        }
    }

    /// Fetches the passkey credential with the given authenticator-chosen
    /// credential id.
    pub fn get_passkey_by_credential_id(&self, credential_id: &[u8]) -> (r: Result<
        PasskeyCredential,
        DatabaseError,
    >)
        requires
            self@.wf(),
        ensures
            match r {
                Ok(p) => has_credential_id(self@.passkeys, credential_id@) && p@
                    == passkey_by_credential_id(self@.passkeys, credential_id@),
                Err(e) => e == DatabaseError::NotFound && !has_credential_id(
                    self@.passkeys,
                    credential_id@,
                ),
            },
    {
        match self.find_passkey_by_credential_id(credential_id) {
            Some(i) => {
                let p = self.passkeys[i].clone();
                proof {
                    lemma_passkey_credential_id_index_unique(self@, i as int, credential_id@);
                }
                Ok(p)
            },
            None => Err(DatabaseError::NotFound),
        }
    }

    /// Fetches the passkey credentials belonging to the user with the given
    /// id.
    pub fn get_passkeys_by_user_id(&self, user_id: u128) -> (r: Result<
        Vec<PasskeyCredential>,
        DatabaseError,
    >)
        requires
            self@.wf(),
        ensures
            match r {
                Ok(passkeys) => passkeys.deep_view() == self@.passkeys.filter(
                    |p: PasskeyCredentialView| p.user_id == user_id,
                ),
                Err(_) => false,
            },
    {
        let ghost pred = |p: PasskeyCredentialView| p.user_id == user_id;
        let mut out: Vec<PasskeyCredential> = Vec::new();
        let mut i: usize = 0;
        proof {
            assert(self@.passkeys.take(0).filter(pred) =~= Seq::<PasskeyCredentialView>::empty())
                by {
                reveal(Seq::filter);
            }
            assert(out.deep_view() =~= Seq::<PasskeyCredentialView>::empty());
        }
        while i < self.passkeys.len()
            invariant
                i <= self.passkeys.len(),
                pred == (|p: PasskeyCredentialView| p.user_id == user_id),
                out.deep_view() == self@.passkeys.take(i as int).filter(pred),
            decreases self.passkeys.len() - i,
        {
            let ghost prev_out = out.deep_view();
            if self.passkeys[i].user_id == user_id {
                out.push(self.passkeys[i].clone());
                proof {
                    assert(out.deep_view() =~= prev_out.push(self@.passkeys[i as int]));
                }
            }
            proof {
                lemma_filter_take_step(self@.passkeys, pred, i as int);
            }
            i = i + 1;
        }
        proof {
            assert(self@.passkeys.take(self.passkeys.len() as int) =~= self@.passkeys);
        }
        Ok(out)
    }

    /// Fetches the passkey credentials belonging to the user with the given
    /// email. An unknown email yields an empty list, not an error.
    pub fn get_passkeys_by_user_email(&self, email: &str) -> (r: Result<
        Vec<PasskeyCredential>,
        DatabaseError,
    >)
        requires
            self@.wf(),
        ensures
            match r {
                Ok(passkeys) => {
                    if has_user_email(self@.users, email@) {
                        passkeys.deep_view() == self@.passkeys.filter(
                            |p: PasskeyCredentialView| p.user_id == user_by_email(
                                self@.users,
                                email@,
                            ).id,
                        )
                    } else {
                        passkeys.deep_view() == Seq::<PasskeyCredentialView>::empty()
                    }
                },
                Err(_) => false,
            },
    {
        match self.find_user_by_email(email) {
            Some(i) => {
                proof {
                    lemma_user_email_index_unique(self@, i as int, email@);
                }
                self.get_passkeys_by_user_id(self.users[i].id())
            },
            None => {
                let out: Vec<PasskeyCredential> = Vec::new();
                proof {
                    assert(out.deep_view() =~= Seq::<PasskeyCredentialView>::empty());
                }
                Ok(out)
            },
        }
    }

    /// Alters the passkey credential with the given id. Fails on an empty
    /// update or a missing credential.
    pub fn update_passkey(&mut self, id: u128, passkey: &PasskeyCredentialUpdate) -> (r: Result<
        PasskeyCredential,
        DatabaseError,
    >)
        requires
            old(self)@.wf(),
        ensures
            final(self)@.wf(),
            passkey.display_name is None && passkey.passkey is None ==> r == Err::<
                PasskeyCredential,
                DatabaseError,
            >(DatabaseError::EmptyUpdate) && final(self)@ == old(self)@,
            !(passkey.display_name is None && passkey.passkey is None) && !has_passkey_id(
                old(self)@.passkeys,
                id,
            ) ==> r == Err::<PasskeyCredential, DatabaseError>(DatabaseError::NotFound) && final(self)@ == old(self)@,
            !(passkey.display_name is None && passkey.passkey is None) && has_passkey_id(
                old(self)@.passkeys,
                id,
            ) ==> {
                let idx = passkey_index_by_id(old(self)@.passkeys, id);
                let prev = old(self)@.passkeys[idx];
                let updated = PasskeyCredentialView {
                    id: prev.id,
                    user_id: prev.user_id,
                    display_name: match passkey.display_name.deep_view() {
                        Some(d) => d,
                        None => prev.display_name,
                    },
                    passkey: match passkey.passkey.deep_view() {
                        Some(p) => p,
                        None => prev.passkey,
                    },
                    credential_id: prev.credential_id,
                    created_at: prev.created_at,
                    last_used_at: prev.last_used_at,
                };
                match r {
                    Ok(p) => p@ == updated && final(self)@ == (StoreView {
                        passkeys: old(self)@.passkeys.update(idx, updated),
                        ..old(self)@
                    }),
                    Err(_) => false,
                }
            },
    {
        if passkey.is_empty() {
            return Err(DatabaseError::EmptyUpdate);
        }
        let i = match self.find_passkey_by_id(id) {
            Some(i) => i,
            None => {
                return Err(DatabaseError::NotFound);
            },
        };
        proof {
            lemma_passkey_id_index_unique(self@, i as int, id);
        }
        let prev = &self.passkeys[i];
        let new_display_name = match &passkey.display_name {
            Some(d) => clone_opt_string(d),
            None => clone_opt_string(&prev.display_name),
        };
        let new_material = match &passkey.passkey {
            Some(p) => clone_bytes(p),
            None => clone_bytes(&prev.passkey),
        };
        let record = PasskeyCredential {
            id,
            user_id: prev.user_id,
            display_name: new_display_name,
            passkey: new_material,
            credential_id: clone_bytes(&prev.credential_id),
            created_at: prev.created_at,
            last_used_at: prev.last_used_at,
        };
        let result = record.clone();
        let ghost pre = self@;
        self.passkeys.set(i, record);
        proof {
            assert(self@.passkeys =~= pre.passkeys.update(i as int, result@));
            assert(self@ == (StoreView {
                passkeys: pre.passkeys.update(i as int, result@),
                ..pre
            }));
            lemma_passkey_update_keeps_wf(pre, self@, i as int, result@);
            // relate the stored record to the view-level update, field by
            // field
            let prevv = pre.passkeys[i as int];
            assert(result@.id == prevv.id);
            assert(result@.user_id == prevv.user_id);
            assert(result@.credential_id == prevv.credential_id);
            assert(result@.created_at == prevv.created_at);
            assert(result@.last_used_at == prevv.last_used_at);
            assert(result@.display_name == (match passkey.display_name.deep_view() {
                Some(d) => d,
                None => prevv.display_name,
            }));
            assert(result@.passkey == (match passkey.passkey.deep_view() {
                Some(m) => m,
                None => prevv.passkey,
            }));
        }
        Ok(result)
    }

    /// Deletes the passkey credential with the given id, if present.
    pub fn delete_passkey_by_id(&mut self, id: u128) -> (r: Result<(), DatabaseError>)
        requires
            old(self)@.wf(),
        ensures
            final(self)@.wf(),
            r is Ok,
            has_passkey_id(old(self)@.passkeys, id) ==> final(self)@ == (StoreView {
                passkeys: old(self)@.passkeys.remove(passkey_index_by_id(old(self)@.passkeys, id)),
                ..old(self)@
            }),
            !has_passkey_id(old(self)@.passkeys, id) ==> final(self)@ == old(self)@,
    {
        match self.find_passkey_by_id(id) {
            Some(i) => {
                proof {
                    lemma_passkey_id_index_unique(self@, i as int, id);
                }
                let ghost pre = self@;
                self.passkeys.remove(i);
                proof {
                    assert(self@.passkeys =~= pre.passkeys.remove(i as int));
                    assert(self@ == (StoreView {
                        passkeys: pre.passkeys.remove(i as int),
                        ..pre
                    }));
                    lemma_passkey_remove_keeps_wf(pre, self@, i as int);
                }
                Ok(())
            },
            None => Ok(()),
        }
    }
}

/// Whether the user holds a tag with the given name.
pub open spec fn user_has_named_tag(s: StoreView, user_id: u128, name: Seq<char>) -> bool {
    exists|i: int|
        0 <= i < s.tags.len() && (#[trigger] s.tags[i]).name == name && has_user_tag(
            s.user_tags,
            user_id,
            s.tags[i].id,
        )
}

impl Store {
    /// Whether the user with the given id holds a tag with the given name.
    /// This is the authorization predicate behind session elevation.
    pub fn user_has_tag_named(&self, user_id: u128, name: &str) -> (r: bool)
        requires
            self@.wf(),
        ensures
            r == user_has_named_tag(self@, user_id, name@),
    {
        let needle = String::from_str(name);
        let mut i: usize = 0;
        while i < self.tags.len()
            invariant
                i <= self.tags.len(),
                needle@ == name@,
                forall|k: int|
                    0 <= k < i ==> !((#[trigger] self@.tags[k]).name == name@ && has_user_tag(
                        self@.user_tags,
                        user_id,
                        self@.tags[k].id,
                    )),
            decreases self.tags.len() - i,
        {
            if self.tags[i].name.eq(&needle) {
                if self.has_pair(user_id, self.tags[i].id) {
                    proof {
                        assert((self@.tags[i as int]).name == name@ && has_user_tag(
                            self@.user_tags,
                            user_id,
                            self@.tags[i as int].id,
                        ));
                    }
                    return true;
                }
            }
            i = i + 1;
        }
        false
    }
}

/// What every mutation of the session table preserves: sessions are never
/// deleted or reordered; a session's identity, owner, parentage, privilege
/// and creation time never change; and a session in a terminal state is
/// never returned to `Active`.
pub open spec fn sessions_monotone(pre: Seq<SessionView>, post: Seq<SessionView>) -> bool {
    &&& pre.len() <= post.len()
    &&& forall|i: int|
        #![trigger post[i]]
        0 <= i < pre.len() ==> {
            &&& post[i].id_hash == pre[i].id_hash
            &&& post[i].user_id == pre[i].user_id
            &&& post[i].created_at == pre[i].created_at
            &&& post[i].is_admin == pre[i].is_admin
            &&& post[i].parent_id_hash == pre[i].parent_id_hash
            &&& (pre[i].state != SessionState::Active ==> post[i].state != SessionState::Active)
        }
}

impl Store {
    // -----------------------------------------------------------------------
    // Ceremony state repository
    // -----------------------------------------------------------------------

    /// Finds the position of the registration ceremony with the given
    /// handle.
    fn find_registration_by_id(&self, id: u128) -> (r: Option<usize>)
        ensures
            match r {
                Some(i) => i < self@.registrations.len() && self@.registrations[i as int].id == id,
                None => !has_registration_id(self@.registrations, id),
            },
    {
        let mut i: usize = 0;
        while i < self.registrations.len()
            invariant
                i <= self.registrations.len(),
                forall|k: int| 0 <= k < i ==> (#[trigger] self@.registrations[k]).id != id,
            decreases self.registrations.len() - i,
        {
            if self.registrations[i].id == id {
                return Some(i);
            }
            i = i + 1;
        }
        None
    }

    /// Finds the position of the authentication ceremony with the given
    /// handle.
    fn find_authentication_by_id(&self, id: u128) -> (r: Option<usize>)
        ensures
            match r {
                Some(i) => i < self@.authentications.len() && self@.authentications[i as int].id
                    == id,
                None => !has_authentication_id(self@.authentications, id),
            },
    {
        let mut i: usize = 0;
        while i < self.authentications.len()
            invariant
                i <= self.authentications.len(),
                forall|k: int| 0 <= k < i ==> (#[trigger] self@.authentications[k]).id != id,
            decreases self.authentications.len() - i,
        {
            if self.authentications[i].id == id {
                return Some(i);
            }
            i = i + 1;
        }
        None
    }

    /// Stores a registration ceremony state record.
    pub fn create_passkey_registration(&mut self, registration: &PasskeyRegistrationState) -> (r:
        Result<(), DatabaseError>)
        requires
            old(self)@.wf(),
            registration.created_at >= 0,
        ensures
            final(self)@.wf(),
            has_registration_id(old(self)@.registrations, registration.id) ==> r == Err::<
                (),
                DatabaseError,
            >(DatabaseError::UniquenessViolation { field: Some(UniqueField::Id) }) && final(self)@
                == old(self)@,
            !has_registration_id(old(self)@.registrations, registration.id) ==> r is Ok && final(self)@ == (StoreView {
                registrations: old(self)@.registrations.push(registration@),
                ..old(self)@
            }),
    {
        if self.find_registration_by_id(registration.id).is_some() {
            return Err(DatabaseError::UniquenessViolation { field: Some(UniqueField::Id) });
        }
        let record = registration.clone();
        let ghost pre = self@;
        self.registrations.push(record);
        proof {
            assert(self@.registrations =~= pre.registrations.push(registration@));
            assert(self@ == (StoreView {
                registrations: pre.registrations.push(registration@),
                ..pre
            }));
        }
        Ok(())
    }

    /// Fetches the registration ceremony state with the given handle.
    pub fn get_passkey_registration_by_id(&self, id: u128) -> (r: Result<
        PasskeyRegistrationState,
        DatabaseError,
    >)
        requires
            self@.wf(),
        ensures
            match r {
                Ok(reg) => has_registration_id(self@.registrations, id) && reg@ == registration_by_id(
                    self@.registrations,
                    id,
                ),
                Err(e) => e == DatabaseError::NotFound && !has_registration_id(
                    self@.registrations,
                    id,
                ),
            },
    {
        match self.find_registration_by_id(id) {
            Some(i) => {
                let reg = self.registrations[i].clone();
                proof {
                    lemma_registration_id_index_unique(self@, i as int, id);
                }
                Ok(reg)
            },
            None => Err(DatabaseError::NotFound),
        }
    }

    /// Stores an authentication ceremony state record. A targeted ceremony
    /// names a user email, which must exist.
    pub fn create_passkey_authentication(&mut self, state: &PasskeyAuthenticationState) -> (r:
        Result<(), DatabaseError>)
        requires
            old(self)@.wf(),
            state.created_at >= 0,
        ensures
            final(self)@.wf(),
            has_authentication_id(old(self)@.authentications, state.id) ==> r == Err::<
                (),
                DatabaseError,
            >(DatabaseError::UniquenessViolation { field: Some(UniqueField::Id) }) && final(self)@
                == old(self)@,
            !has_authentication_id(old(self)@.authentications, state.id) && state@.email is Some
                && !has_user_email(old(self)@.users, state@.email->0) ==> r == Err::<
                (),
                DatabaseError,
            >(DatabaseError::UserNotFound) && final(self)@ == old(self)@,
            !has_authentication_id(old(self)@.authentications, state.id) && (state@.email is None
                || has_user_email(old(self)@.users, state@.email->0))
                ==> r is Ok && final(self)@ == (StoreView {
                authentications: old(self)@.authentications.push(state@),
                ..old(self)@
            }),
    {
        if self.find_authentication_by_id(state.id).is_some() {
            return Err(DatabaseError::UniquenessViolation { field: Some(UniqueField::Id) });
        }
        match &state.email {
            Some(email) => {
                if self.find_user_by_email(email.as_str()).is_none() {
                    return Err(DatabaseError::UserNotFound);
                }
            },
            None => {},
        }
        let record = state.clone();
        let ghost pre = self@;
        self.authentications.push(record);
        proof {
            assert(self@.authentications =~= pre.authentications.push(state@));
            assert(self@ == (StoreView {
                authentications: pre.authentications.push(state@),
                ..pre
            }));
        }
        Ok(())
    }

    /// Fetches the authentication ceremony state with the given handle.
    pub fn get_passkey_authentication_by_id(&self, id: u128) -> (r: Result<
        PasskeyAuthenticationState,
        DatabaseError,
    >)
        requires
            self@.wf(),
        ensures
            match r {
                Ok(state) => has_authentication_id(self@.authentications, id) && state@
                    == authentication_by_id(self@.authentications, id),
                Err(e) => e == DatabaseError::NotFound && !has_authentication_id(
                    self@.authentications,
                    id,
                ),
            },
    {
        match self.find_authentication_by_id(id) {
            Some(i) => {
                let state = self.authentications[i].clone();
                proof {
                    lemma_authentication_id_index_unique(self@, i as int, id);
                }
                Ok(state)
            },
            None => Err(DatabaseError::NotFound),
        }
    }

    /// Deletes every ceremony state record older than the ceremony TTL.
    /// This is the reaper's whole job: it reclaims storage, while expiry
    /// itself is enforced again at ceremony finish.
    pub fn cleanup_expired_ceremonies(&mut self, now: i64)
        requires
            old(self)@.wf(),
            now >= 0,
        ensures
            final(self)@.wf(),
            final(self)@ == (StoreView {
                registrations: old(self)@.registrations.filter(
                    |x: PasskeyRegistrationStateView| x.created_at
                        >= now - crate::CEREMONY_TTL_SECONDS,
                ),
                authentications: old(self)@.authentications.filter(
                    |x: PasskeyAuthenticationStateView| x.created_at
                        >= now - crate::CEREMONY_TTL_SECONDS,
                ),
                ..old(self)@
            }),
    {
        let threshold = now - crate::CEREMONY_TTL_SECONDS;
        let ghost keep_r = |x: PasskeyRegistrationStateView|
            x.created_at >= now - crate::CEREMONY_TTL_SECONDS;
        let ghost keep_a = |x: PasskeyAuthenticationStateView|
            x.created_at >= now - crate::CEREMONY_TTL_SECONDS;

        let mut kept_regs: Vec<PasskeyRegistrationState> = Vec::new();
        let mut i: usize = 0;
        proof {
            assert(self@.registrations.take(0).filter(keep_r) =~= Seq::<
                PasskeyRegistrationStateView,
            >::empty()) by {
                reveal(Seq::filter);
            }
            assert(kept_regs.deep_view() =~= Seq::<PasskeyRegistrationStateView>::empty());
        }
        while i < self.registrations.len()
            invariant
                i <= self.registrations.len(),
                threshold == now - crate::CEREMONY_TTL_SECONDS,
                keep_r == (|x: PasskeyRegistrationStateView|
                    x.created_at >= now - crate::CEREMONY_TTL_SECONDS),
                kept_regs.deep_view() == self@.registrations.take(i as int).filter(keep_r),
            decreases self.registrations.len() - i,
        {
            let ghost prev = kept_regs.deep_view();
            if self.registrations[i].created_at >= threshold {
                kept_regs.push(self.registrations[i].clone());
                proof {
                    assert(kept_regs.deep_view() =~= prev.push(self@.registrations[i as int]));
                }
            }
            proof {
                lemma_filter_take_step(self@.registrations, keep_r, i as int);
            }
            i = i + 1;
        }

        let mut kept_auths: Vec<PasskeyAuthenticationState> = Vec::new();
        let mut j: usize = 0;
        proof {
            assert(self@.authentications.take(0).filter(keep_a) =~= Seq::<
                PasskeyAuthenticationStateView,
            >::empty()) by {
                reveal(Seq::filter);
            }
            assert(kept_auths.deep_view() =~= Seq::<PasskeyAuthenticationStateView>::empty());
        }
        while j < self.authentications.len()
            invariant
                j <= self.authentications.len(),
                threshold == now - crate::CEREMONY_TTL_SECONDS,
                keep_a == (|x: PasskeyAuthenticationStateView|
                    x.created_at >= now - crate::CEREMONY_TTL_SECONDS),
                kept_auths.deep_view() == self@.authentications.take(j as int).filter(keep_a),
            decreases self.authentications.len() - j,
        {
            let ghost prev = kept_auths.deep_view();
            if self.authentications[j].created_at >= threshold {
                kept_auths.push(self.authentications[j].clone());
                proof {
                    assert(kept_auths.deep_view() =~= prev.push(self@.authentications[j as int]));
                }
            }
            proof {
                lemma_filter_take_step(self@.authentications, keep_a, j as int);
            }
            j = j + 1;
        }

        let ghost pre = self@;
        proof {
            assert(pre.registrations.take(pre.registrations.len() as int) =~= pre.registrations);
            assert(pre.authentications.take(pre.authentications.len() as int)
                =~= pre.authentications);
        }
        self.registrations = kept_regs;
        self.authentications = kept_auths;
        proof {
            assert(self@ == (StoreView {
                registrations: pre.registrations.filter(keep_r),
                authentications: pre.authentications.filter(keep_a),
                ..pre
            }));
            lemma_registration_filter_keeps_wf(pre.registrations, keep_r);
            lemma_authentication_filter_keeps_wf(pre.authentications, keep_a);
            assert forall|k: int|
                0 <= k < self@.registrations.len() implies (
            #[trigger] self@.registrations[k]).created_at >= 0 by {
                lemma_filter_element_from(pre.registrations, keep_r, k);
            }
            assert forall|k: int|
                0 <= k < self@.authentications.len() implies (
            #[trigger] self@.authentications[k]).created_at >= 0 by {
                lemma_filter_element_from(pre.authentications, keep_a, k);
            }
        }
    }

    // -----------------------------------------------------------------------
    // Session repository
    // -----------------------------------------------------------------------

    /// Finds the position of the session with the given token hash.
    fn find_session_by_hash(&self, id_hash: &Vec<u8>) -> (r: Option<usize>)
        ensures
            match r {
                Some(i) => i < self@.sessions.len() && self@.sessions[i as int].id_hash == id_hash@,
                None => !has_session_hash(self@.sessions, id_hash@),
            },
    {
        let mut i: usize = 0;
        while i < self.sessions.len()
            invariant
                i <= self.sessions.len(),
                forall|k: int| 0 <= k < i ==> (#[trigger] self@.sessions[k]).id_hash != id_hash@,
            decreases self.sessions.len() - i,
        {
            if bytes_eq(&self.sessions[i].id_hash, id_hash) {
                return Some(i);
            }
            i = i + 1;
        }
        None
    }

    /// Stores a new session record. Fails if a session with the same token
    /// hash already exists.
    pub fn create_session(&mut self, session: &Session) -> (r: Result<(), DatabaseError>)
        requires
            old(self)@.wf(),
        ensures
            final(self)@.wf(),
            sessions_monotone(old(self)@.sessions, final(self)@.sessions),
            has_session_hash(old(self)@.sessions, session@.id_hash) ==> r == Err::<
                (),
                DatabaseError,
            >(DatabaseError::UniquenessViolation { field: Some(UniqueField::IdHash) }) && final(self)@ == old(self)@,
            !has_session_hash(old(self)@.sessions, session@.id_hash) ==> r is Ok && final(self)@
                == (StoreView { sessions: old(self)@.sessions.push(session@), ..old(self)@ }),
    {
        if self.find_session_by_hash(&session.id_hash).is_some() {
            return Err(DatabaseError::UniquenessViolation { field: Some(UniqueField::IdHash) });
        }
        let record = session.clone();
        let ghost pre = self@;
        self.sessions.push(record);
        proof {
            assert(self@.sessions =~= pre.sessions.push(session@));
            assert(self@ == (StoreView { sessions: pre.sessions.push(session@), ..pre }));
        }
        Ok(())
    }

    /// Fetches the session with the given token hash.
    pub fn get_session_by_id_hash(&self, id_hash: &Vec<u8>) -> (r: Result<Session, DatabaseError>)
        requires
            self@.wf(),
        ensures
            match r {
                Ok(s) => has_session_hash(self@.sessions, id_hash@) && s@ == session_by_hash(
                    self@.sessions,
                    id_hash@,
                ),
                Err(e) => e == DatabaseError::NotFound && !has_session_hash(
                    self@.sessions,
                    id_hash@,
                ),
            },
    {
        match self.find_session_by_hash(id_hash) {
            Some(i) => {
                let s = self.sessions[i].clone();
                proof {
                    lemma_session_hash_index_unique(self@, i as int, id_hash@);
                }
                Ok(s)
            },
            None => Err(DatabaseError::NotFound),
        }
    }

    /// Alters the session with the given token hash. Only the state and the
    /// expiry time can change; a session in a terminal state is never
    /// returned to `Active`, and asking for that fails.
    pub fn update_session(&mut self, id_hash: &Vec<u8>, update: &SessionUpdate) -> (r: Result<
        Session,
        DatabaseError,
    >)
        requires
            old(self)@.wf(),
        ensures
            final(self)@.wf(),
            sessions_monotone(old(self)@.sessions, final(self)@.sessions),
            update.state is None && update.expires_at is None ==> r == Err::<
                Session,
                DatabaseError,
            >(DatabaseError::EmptyUpdate) && final(self)@ == old(self)@,
            !(update.state is None && update.expires_at is None) && !has_session_hash(
                old(self)@.sessions,
                id_hash@,
            ) ==> r == Err::<Session, DatabaseError>(DatabaseError::NotFound) && final(self)@
                == old(self)@,
            !(update.state is None && update.expires_at is None) && has_session_hash(
                old(self)@.sessions,
                id_hash@,
            ) ==> {
                let idx = session_index_by_hash(old(self)@.sessions, id_hash@);
                let prev = old(self)@.sessions[idx];
                let updated = SessionView {
                    id_hash: prev.id_hash,
                    user_id: prev.user_id,
                    state: match update.state {
                        Some(s) => s,
                        None => prev.state,
                    },
                    created_at: prev.created_at,
                    expires_at: match update.expires_at {
                        Some(t) => t as int,
                        None => prev.expires_at,
                    },
                    is_admin: prev.is_admin,
                    parent_id_hash: prev.parent_id_hash,
                };
                if update.state == Some(SessionState::Active) && prev.state
                    != SessionState::Active {
                    r == Err::<Session, DatabaseError>(DatabaseError::Other) && final(self)@ == old(self)@
                } else {
                    match r {
                        Ok(s) => s@ == updated && final(self)@ == (StoreView {
                            sessions: old(self)@.sessions.update(idx, updated),
                            ..old(self)@
                        }),
                        Err(_) => false,
                    }
                }
            },
    {
        if update.is_empty() {
            return Err(DatabaseError::EmptyUpdate);
        }
        let i = match self.find_session_by_hash(id_hash) {
            Some(i) => i,
            None => {
                return Err(DatabaseError::NotFound);
            },
        };
        proof {
            lemma_session_hash_index_unique(self@, i as int, id_hash@);
        }
        let prev = &self.sessions[i];
        let wants_active = matches!(update.state, Some(SessionState::Active));
        let prev_active = matches!(prev.state, SessionState::Active);
        if wants_active && !prev_active {
            return Err(DatabaseError::Other);
        }
        let new_state = match update.state {
            Some(s) => s,
            None => prev.state,
        };
        let new_expires_at = match update.expires_at {
            Some(t) => t,
            None => prev.expires_at,
        };
        let record = Session {
            id_hash: clone_bytes(&prev.id_hash),
            user_id: prev.user_id,
            state: new_state,
            created_at: prev.created_at,
            expires_at: new_expires_at,
            is_admin: prev.is_admin,
            parent_id_hash: crate::bytes::clone_opt_bytes(&prev.parent_id_hash),
        };
        let result = record.clone();
        let ghost pre = self@;
        self.sessions.set(i, record);
        proof {
            assert(self@.sessions =~= pre.sessions.update(i as int, result@));
            assert(self@ == (StoreView {
                sessions: pre.sessions.update(i as int, result@),
                ..pre
            }));
            lemma_session_update_keeps_wf(pre, self@, i as int, result@);
        }
        Ok(result)
    }
}

// ---------------------------------------------------------------------------
// Uniqueness lemmas
// ---------------------------------------------------------------------------

/// With distinct registration handles, an index holding `id` is the chosen
/// index.
pub(crate) proof fn lemma_registration_id_index_unique(s: StoreView, i: int, id: u128)
    requires
        s.wf(),
        0 <= i < s.registrations.len(),
        s.registrations[i].id == id,
    ensures
        registration_index_by_id(s.registrations, id) == i,
        has_registration_id(s.registrations, id),
{
    assert(has_registration_id(s.registrations, id));
    let j = registration_index_by_id(s.registrations, id);
    assert(0 <= j < s.registrations.len() && s.registrations[j].id == id);
    if i < j {
        assert(s.registrations[i].id != s.registrations[j].id);
    } else if j < i {
        assert(s.registrations[j].id != s.registrations[i].id);
    }
}

/// With distinct authentication handles, an index holding `id` is the
/// chosen index.
pub(crate) proof fn lemma_authentication_id_index_unique(s: StoreView, i: int, id: u128)
    requires
        s.wf(),
        0 <= i < s.authentications.len(),
        s.authentications[i].id == id,
    ensures
        authentication_index_by_id(s.authentications, id) == i,
        has_authentication_id(s.authentications, id),
{
    assert(has_authentication_id(s.authentications, id));
    let j = authentication_index_by_id(s.authentications, id);
    assert(0 <= j < s.authentications.len() && s.authentications[j].id == id);
    if i < j {
        assert(s.authentications[i].id != s.authentications[j].id);
    } else if j < i {
        assert(s.authentications[j].id != s.authentications[i].id);
    }
}

/// With distinct session hashes, an index holding `id_hash` is the chosen
/// index.
pub(crate) proof fn lemma_session_hash_index_unique(s: StoreView, i: int, id_hash: Seq<u8>)
    requires
        s.wf(),
        0 <= i < s.sessions.len(),
        s.sessions[i].id_hash == id_hash,
    ensures
        session_index_by_hash(s.sessions, id_hash) == i,
        has_session_hash(s.sessions, id_hash),
{
    assert(has_session_hash(s.sessions, id_hash));
    let j = session_index_by_hash(s.sessions, id_hash);
    assert(0 <= j < s.sessions.len() && s.sessions[j].id_hash == id_hash);
    if i < j {
        assert(s.sessions[i].id_hash != s.sessions[j].id_hash);
    } else if j < i {
        assert(s.sessions[j].id_hash != s.sessions[i].id_hash);
    }
}

/// Updating one session in place keeps the store well formed, provided the
/// new record keeps the token hash.
pub(crate) proof fn lemma_session_update_keeps_wf(pre: StoreView, post: StoreView, i: int, updated: SessionView)
    requires
        pre.wf(),
        0 <= i < pre.sessions.len(),
        updated.id_hash == pre.sessions[i].id_hash,
        post == (StoreView { sessions: pre.sessions.update(i, updated), ..pre }),
    ensures
        post.wf(),
{
    assert forall|a: int, b: int|
        #![trigger post.sessions[a], post.sessions[b]]
        0 <= a < b < post.sessions.len() implies post.sessions[a].id_hash
        != post.sessions[b].id_hash by {
        let pa = if a == i { updated } else { pre.sessions[a] };
        let pb = if b == i { updated } else { pre.sessions[b] };
        assert(post.sessions[a] == pa);
        assert(post.sessions[b] == pb);
        assert(pre.sessions[a].id_hash != pre.sessions[b].id_hash);
    }
}

/// Every element of a filtered sequence is an element of the sequence.
pub(crate) proof fn lemma_filter_element_from<A>(s: Seq<A>, pred: spec_fn(A) -> bool, a: int)
    requires
        0 <= a < s.filter(pred).len(),
    ensures
        exists|k: int| 0 <= k < s.len() && #[trigger] s[k] == s.filter(pred)[a],
    decreases s.len(),
{
    reveal(Seq::filter);
    if s.len() == 0 {
    } else {
        let sub = s.drop_last().filter(pred);
        if pred(s.last()) {
            if a < sub.len() {
                lemma_filter_element_from(s.drop_last(), pred, a);
                let k = choose|k: int|
                    0 <= k < s.drop_last().len() && #[trigger] s.drop_last()[k] == sub[a];
                assert(s[k] == s.filter(pred)[a]);
            } else {
                assert(s[s.len() - 1] == s.filter(pred)[a]);
            }
        } else {
            lemma_filter_element_from(s.drop_last(), pred, a);
            let k = choose|k: int|
                0 <= k < s.drop_last().len() && #[trigger] s.drop_last()[k] == sub[a];
            assert(s[k] == s.filter(pred)[a]);
        }
    }
}

/// Filtering keeps registration handles distinct and timestamps in range.
pub(crate) proof fn lemma_registration_filter_keeps_wf(
    s: Seq<PasskeyRegistrationStateView>,
    pred: spec_fn(PasskeyRegistrationStateView) -> bool,
)
    requires
        forall|i: int, j: int| #![trigger s[i], s[j]] 0 <= i < j < s.len() ==> s[i].id != s[j].id,
    ensures
        forall|i: int, j: int|
            #![trigger s.filter(pred)[i], s.filter(pred)[j]]
            0 <= i < j < s.filter(pred).len() ==> s.filter(pred)[i].id != s.filter(pred)[j].id,
    decreases s.len(),
{
    reveal(Seq::filter);
    if s.len() == 0 {
    } else {
        let prefix = s.drop_last();
        assert(forall|i: int, j: int|
            #![trigger prefix[i], prefix[j]]
            0 <= i < j < prefix.len() ==> prefix[i].id != prefix[j].id);
        lemma_registration_filter_keeps_wf(prefix, pred);
        let sub = prefix.filter(pred);
        if pred(s.last()) {
            assert forall|a: int| 0 <= a < sub.len() implies (#[trigger] sub[a]).id
                != s.last().id by {
                lemma_filter_element_from(prefix, pred, a);
                let k = choose|k: int| 0 <= k < prefix.len() && #[trigger] prefix[k] == sub[a];
                assert(s[k] == prefix[k]);
                assert(s[k].id != s[s.len() - 1].id);
            }
            assert forall|i: int, j: int|
                #![trigger s.filter(pred)[i], s.filter(pred)[j]]
                0 <= i < j < s.filter(pred).len() implies s.filter(pred)[i].id != s.filter(
                pred,
            )[j].id by {
                if j < sub.len() {
                    assert(s.filter(pred)[i] == sub[i]);
                    assert(s.filter(pred)[j] == sub[j]);
                } else {
                    assert(s.filter(pred)[j] == s.last());
                    assert(s.filter(pred)[i] == sub[i]);
                }
            }
        }
    }
}

/// Filtering keeps authentication handles distinct.
pub(crate) proof fn lemma_authentication_filter_keeps_wf(
    s: Seq<PasskeyAuthenticationStateView>,
    pred: spec_fn(PasskeyAuthenticationStateView) -> bool,
)
    requires
        forall|i: int, j: int| #![trigger s[i], s[j]] 0 <= i < j < s.len() ==> s[i].id != s[j].id,
    ensures
        forall|i: int, j: int|
            #![trigger s.filter(pred)[i], s.filter(pred)[j]]
            0 <= i < j < s.filter(pred).len() ==> s.filter(pred)[i].id != s.filter(pred)[j].id,
    decreases s.len(),
{
    reveal(Seq::filter);
    if s.len() == 0 {
    } else {
        let prefix = s.drop_last();
        assert(forall|i: int, j: int|
            #![trigger prefix[i], prefix[j]]
            0 <= i < j < prefix.len() ==> prefix[i].id != prefix[j].id);
        lemma_authentication_filter_keeps_wf(prefix, pred);
        let sub = prefix.filter(pred);
        if pred(s.last()) {
            assert forall|a: int| 0 <= a < sub.len() implies (#[trigger] sub[a]).id
                != s.last().id by {
                lemma_filter_element_from(prefix, pred, a);
                let k = choose|k: int| 0 <= k < prefix.len() && #[trigger] prefix[k] == sub[a];
                assert(s[k] == prefix[k]);
                assert(s[k].id != s[s.len() - 1].id);
            }
            assert forall|i: int, j: int|
                #![trigger s.filter(pred)[i], s.filter(pred)[j]]
                0 <= i < j < s.filter(pred).len() implies s.filter(pred)[i].id != s.filter(
                pred,
            )[j].id by {
                if j < sub.len() {
                    assert(s.filter(pred)[i] == sub[i]);
                    assert(s.filter(pred)[j] == sub[j]);
                } else {
                    assert(s.filter(pred)[j] == s.last());
                    assert(s.filter(pred)[i] == sub[i]);
                }
            }
        }
    }
}

/// With distinct passkey ids, an index holding `id` is the chosen index.
pub(crate) proof fn lemma_passkey_id_index_unique(s: StoreView, i: int, id: u128)
    requires
        s.wf(),
        0 <= i < s.passkeys.len(),
        s.passkeys[i].id == id,
    ensures
        passkey_index_by_id(s.passkeys, id) == i,
        has_passkey_id(s.passkeys, id),
{
    assert(has_passkey_id(s.passkeys, id));
    let j = passkey_index_by_id(s.passkeys, id);
    assert(0 <= j < s.passkeys.len() && s.passkeys[j].id == id);
    if i < j {
        assert(s.passkeys[i].id != s.passkeys[j].id);
    } else if j < i {
        assert(s.passkeys[j].id != s.passkeys[i].id);
    }
}

/// With distinct credential ids, an index holding `credential_id` is the
/// chosen index.
pub(crate) proof fn lemma_passkey_credential_id_index_unique(s: StoreView, i: int, credential_id: Seq<u8>)
    requires
        s.wf(),
        0 <= i < s.passkeys.len(),
        s.passkeys[i].credential_id == credential_id,
    ensures
        passkey_index_by_credential_id(s.passkeys, credential_id) == i,
        has_credential_id(s.passkeys, credential_id),
{
    assert(has_credential_id(s.passkeys, credential_id));
    let j = passkey_index_by_credential_id(s.passkeys, credential_id);
    assert(0 <= j < s.passkeys.len() && s.passkeys[j].credential_id == credential_id);
    if i < j {
        assert(s.passkeys[i].credential_id != s.passkeys[j].credential_id);
    } else if j < i {
        assert(s.passkeys[j].credential_id != s.passkeys[i].credential_id);
    }
}

/// Updating one passkey in place keeps the store well formed, provided the
/// new record keeps the id and the credential id.
pub(crate) proof fn lemma_passkey_update_keeps_wf(
    pre: StoreView,
    post: StoreView,
    i: int,
    updated: PasskeyCredentialView,
)
    requires
        pre.wf(),
        0 <= i < pre.passkeys.len(),
        updated.id == pre.passkeys[i].id,
        updated.credential_id == pre.passkeys[i].credential_id,
        post == (StoreView { passkeys: pre.passkeys.update(i, updated), ..pre }),
    ensures
        post.wf(),
{
    assert forall|a: int, b: int|
        #![trigger post.passkeys[a], post.passkeys[b]]
        0 <= a < b < post.passkeys.len() implies post.passkeys[a].id != post.passkeys[b].id
        && post.passkeys[a].credential_id != post.passkeys[b].credential_id by {
        let pa = if a == i { updated } else { pre.passkeys[a] };
        let pb = if b == i { updated } else { pre.passkeys[b] };
        assert(post.passkeys[a] == pa);
        assert(post.passkeys[b] == pb);
        assert(pre.passkeys[a].id != pre.passkeys[b].id);
        assert(pre.passkeys[a].credential_id != pre.passkeys[b].credential_id);
    }
}

/// Removing one passkey keeps the store well formed.
pub(crate) proof fn lemma_passkey_remove_keeps_wf(pre: StoreView, post: StoreView, i: int)
    requires
        pre.wf(),
        0 <= i < pre.passkeys.len(),
        post == (StoreView { passkeys: pre.passkeys.remove(i), ..pre }),
    ensures
        post.wf(),
{
    assert forall|a: int, b: int|
        #![trigger post.passkeys[a], post.passkeys[b]]
        0 <= a < b < post.passkeys.len() implies post.passkeys[a].id != post.passkeys[b].id
        && post.passkeys[a].credential_id != post.passkeys[b].credential_id by {
        let a0 = if a < i { a } else { a + 1 };
        let b0 = if b < i { b } else { b + 1 };
        assert(post.passkeys[a] == pre.passkeys[a0]);
        assert(post.passkeys[b] == pre.passkeys[b0]);
        assert(pre.passkeys[a0].id != pre.passkeys[b0].id);
        assert(pre.passkeys[a0].credential_id != pre.passkeys[b0].credential_id);
    }
}

/// Stepping a filter over one more element of a sequence.
pub(crate) proof fn lemma_filter_take_step<A>(s: Seq<A>, pred: spec_fn(A) -> bool, i: int)
    requires
        0 <= i < s.len(),
    ensures
        pred(s[i]) ==> s.take(i + 1).filter(pred) == s.take(i).filter(pred).push(s[i]),
        !pred(s[i]) ==> s.take(i + 1).filter(pred) == s.take(i).filter(pred),
{
    let a = s.take(i);
    let single = seq![s[i]];
    assert(s.take(i + 1) =~= a + single);
    Seq::<A>::filter_distributes_over_add(a, single, pred);
    reveal(Seq::filter);
    assert(single.drop_last() =~= Seq::<A>::empty());
    assert(Seq::<A>::empty().filter(pred) =~= Seq::<A>::empty());
    if pred(s[i]) {
        assert(single.filter(pred) =~= seq![s[i]]);
        assert(a.filter(pred) + seq![s[i]] =~= a.filter(pred).push(s[i]));
    } else {
        assert(single.filter(pred) =~= Seq::<A>::empty());
        assert(a.filter(pred) + Seq::<A>::empty() =~= a.filter(pred));
    }
}

/// With distinct tag ids, an index holding `id` is the chosen index.
pub(crate) proof fn lemma_tag_id_index_unique(s: StoreView, i: int, id: u128)
    requires
        s.wf(),
        0 <= i < s.tags.len(),
        s.tags[i].id == id,
    ensures
        tag_index_by_id(s.tags, id) == i,
        has_tag_id(s.tags, id),
{
    assert(has_tag_id(s.tags, id));
    let j = tag_index_by_id(s.tags, id);
    assert(0 <= j < s.tags.len() && s.tags[j].id == id);
    if i < j {
        assert(s.tags[i].id != s.tags[j].id);
    } else if j < i {
        assert(s.tags[j].id != s.tags[i].id);
    }
}

/// With distinct tag names, an index holding `name` is the chosen index.
pub(crate) proof fn lemma_tag_name_index_unique(s: StoreView, i: int, name: Seq<char>)
    requires
        s.wf(),
        0 <= i < s.tags.len(),
        s.tags[i].name == name,
    ensures
        tag_index_by_name(s.tags, name) == i,
        has_tag_name(s.tags, name),
{
    assert(has_tag_name(s.tags, name));
    let j = tag_index_by_name(s.tags, name);
    assert(0 <= j < s.tags.len() && s.tags[j].name == name);
    if i < j {
        assert(s.tags[i].name != s.tags[j].name);
    } else if j < i {
        assert(s.tags[j].name != s.tags[i].name);
    }
}

/// Updating one tag in place keeps the store well formed, provided the new
/// record keeps the id and takes no name another tag holds.
pub(crate) proof fn lemma_tag_update_keeps_wf(pre: StoreView, post: StoreView, i: int, updated: TagView)
    requires
        pre.wf(),
        0 <= i < pre.tags.len(),
        updated.id == pre.tags[i].id,
        updated.name == pre.tags[i].name || !has_tag_name(pre.tags, updated.name),
        post == (StoreView { tags: pre.tags.update(i, updated), ..pre }),
    ensures
        post.wf(),
{
    assert forall|a: int, b: int|
        #![trigger post.tags[a], post.tags[b]]
        0 <= a < b < post.tags.len() implies post.tags[a].id != post.tags[b].id && post.tags[a].name
        != post.tags[b].name by {
        if a != i && b != i {
            assert(post.tags[a] == pre.tags[a]);
            assert(post.tags[b] == pre.tags[b]);
        } else if a == i {
            assert(post.tags[b] == pre.tags[b]);
            assert(pre.tags[a].id != pre.tags[b].id);
            if updated.name != pre.tags[i].name {
                assert(!has_tag_name(pre.tags, updated.name));
                assert(pre.tags[b].name != updated.name);
            } else {
                assert(pre.tags[a].name != pre.tags[b].name);
            }
        } else {
            assert(post.tags[a] == pre.tags[a]);
            assert(pre.tags[a].id != pre.tags[b].id);
            if updated.name != pre.tags[i].name {
                assert(!has_tag_name(pre.tags, updated.name));
                assert(pre.tags[a].name != updated.name);
            } else {
                assert(pre.tags[a].name != pre.tags[b].name);
            }
        }
    }
}

/// Removing one tag keeps the store well formed.
pub(crate) proof fn lemma_tag_remove_keeps_wf(pre: StoreView, post: StoreView, i: int)
    requires
        pre.wf(),
        0 <= i < pre.tags.len(),
        post == (StoreView { tags: pre.tags.remove(i), ..pre }),
    ensures
        post.wf(),
{
    assert forall|a: int, b: int|
        #![trigger post.tags[a], post.tags[b]]
        0 <= a < b < post.tags.len() implies post.tags[a].id != post.tags[b].id && post.tags[a].name
        != post.tags[b].name by {
        let a0 = if a < i { a } else { a + 1 };
        let b0 = if b < i { b } else { b + 1 };
        assert(post.tags[a] == pre.tags[a0]);
        assert(post.tags[b] == pre.tags[b0]);
        assert(pre.tags[a0].id != pre.tags[b0].id);
        assert(pre.tags[a0].name != pre.tags[b0].name);
    }
}

/// Removing one attachment pair: what holds of membership afterwards.
pub(crate) proof fn lemma_user_tag_remove(pre: StoreView, post: StoreView, i: int, user_id: u128, tag_id: u128)
    requires
        pre.wf(),
        0 <= i < pre.user_tags.len(),
        pre.user_tags[i] == (user_id, tag_id),
        post == (StoreView { user_tags: pre.user_tags.remove(i), ..pre }),
    ensures
        post.wf(),
        !has_user_tag(post.user_tags, user_id, tag_id),
        forall|u: u128, t: u128|
            !(u == user_id && t == tag_id) ==> has_user_tag(post.user_tags, u, t) == has_user_tag(
                pre.user_tags,
                u,
                t,
            ),
{
    assert forall|a: int, b: int|
        #![trigger post.user_tags[a], post.user_tags[b]]
        0 <= a < b < post.user_tags.len() implies post.user_tags[a] != post.user_tags[b] by {
        let a0 = if a < i { a } else { a + 1 };
        let b0 = if b < i { b } else { b + 1 };
        assert(post.user_tags[a] == pre.user_tags[a0]);
        assert(post.user_tags[b] == pre.user_tags[b0]);
        assert(pre.user_tags[a0] != pre.user_tags[b0]);
    }
    assert forall|k: int| 0 <= k < post.user_tags.len() implies #[trigger] post.user_tags[k] != (
    user_id,
    tag_id,
    ) by {
        let k0 = if k < i { k } else { k + 1 };
        assert(post.user_tags[k] == pre.user_tags[k0]);
        if k0 != i {
            assert(pre.user_tags[k0] != pre.user_tags[i]);
        }
    }
    assert forall|u: u128, t: u128|
        !(u == user_id && t == tag_id) implies has_user_tag(post.user_tags, u, t) == has_user_tag(
        pre.user_tags,
        u,
        t,
    ) by {
        if has_user_tag(pre.user_tags, u, t) {
            let k = choose|k: int|
                0 <= k < pre.user_tags.len() && #[trigger] pre.user_tags[k] == (u, t);
            if k < i {
                assert(post.user_tags[k] == (u, t));
            } else if k > i {
                assert(post.user_tags[k - 1] == (u, t));
            } else {
                assert(false);
            }
        }
        if has_user_tag(post.user_tags, u, t) {
            let k = choose|k: int|
                0 <= k < post.user_tags.len() && #[trigger] post.user_tags[k] == (u, t);
            let k0 = if k < i { k } else { k + 1 };
            assert(pre.user_tags[k0] == (u, t));
        }
    }
}

/// With distinct user ids, an index holding `id` is the chosen index.
pub(crate) proof fn lemma_user_id_index_unique(s: StoreView, i: int, id: u128)
    requires
        s.wf(),
        0 <= i < s.users.len(),
        s.users[i].id == id,
    ensures
        user_index_by_id(s.users, id) == i,
        has_user_id(s.users, id),
{
    assert(has_user_id(s.users, id));
    let j = user_index_by_id(s.users, id);
    assert(0 <= j < s.users.len() && s.users[j].id == id);
    if i < j {
        assert(s.users[i].id != s.users[j].id);
    } else if j < i {
        assert(s.users[j].id != s.users[i].id);
    }
}

/// With distinct user emails, an index holding `email` is the chosen index.
pub(crate) proof fn lemma_user_email_index_unique(s: StoreView, i: int, email: Seq<char>)
    requires
        s.wf(),
        0 <= i < s.users.len(),
        s.users[i].email == email,
    ensures
        user_index_by_email(s.users, email) == i,
        has_user_email(s.users, email),
{
    assert(has_user_email(s.users, email));
    let j = user_index_by_email(s.users, email);
    assert(0 <= j < s.users.len() && s.users[j].email == email);
    if i < j {
        assert(s.users[i].email != s.users[j].email);
    } else if j < i {
        assert(s.users[j].email != s.users[i].email);
    }
}

/// Updating one user in place keeps the store well formed, provided the new
/// record keeps the id and takes no email another user holds.
pub(crate) proof fn lemma_user_update_keeps_wf(pre: StoreView, post: StoreView, i: int, updated: UserView)
    requires
        pre.wf(),
        0 <= i < pre.users.len(),
        updated.id == pre.users[i].id,
        updated.email == pre.users[i].email || !has_user_email(pre.users, updated.email),
        post == (StoreView { users: pre.users.update(i, updated), ..pre }),
    ensures
        post.wf(),
{
    assert forall|a: int, b: int|
        #![trigger post.users[a], post.users[b]]
        0 <= a < b < post.users.len() implies post.users[a].id != post.users[b].id
        && post.users[a].email != post.users[b].email by {
        if a != i && b != i {
            assert(post.users[a] == pre.users[a]);
            assert(post.users[b] == pre.users[b]);
        } else if a == i {
            assert(post.users[b] == pre.users[b]);
            assert(pre.users[a].id != pre.users[b].id);
            if updated.email != pre.users[i].email {
                assert(!has_user_email(pre.users, updated.email));
                assert(pre.users[b].email != updated.email);
            } else {
                assert(pre.users[a].email != pre.users[b].email);
            }
        } else {
            assert(post.users[a] == pre.users[a]);
            assert(pre.users[a].id != pre.users[b].id);
            if updated.email != pre.users[i].email {
                assert(!has_user_email(pre.users, updated.email));
                assert(pre.users[a].email != updated.email);
            } else {
                assert(pre.users[a].email != pre.users[b].email);
            }
        }
    }
}

/// Removing one user keeps the store well formed.
pub(crate) proof fn lemma_user_remove_keeps_wf(pre: StoreView, post: StoreView, i: int)
    requires
        pre.wf(),
        0 <= i < pre.users.len(),
        post == (StoreView { users: pre.users.remove(i), ..pre }),
    ensures
        post.wf(),
{
    assert forall|a: int, b: int|
        #![trigger post.users[a], post.users[b]]
        0 <= a < b < post.users.len() implies post.users[a].id != post.users[b].id
        && post.users[a].email != post.users[b].email by {
        let a0 = if a < i { a } else { a + 1 };
        let b0 = if b < i { b } else { b + 1 };
        assert(post.users[a] == pre.users[a0]);
        assert(post.users[b] == pre.users[b0]);
        assert(pre.users[a0].id != pre.users[b0].id);
        assert(pre.users[a0].email != pre.users[b0].email);
    }
}

} // verus!
