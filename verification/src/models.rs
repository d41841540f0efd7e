//! Data models for users, tags, passkey credentials, ceremony state, and
//! sessions.
//!
//! Identifiers are carried as plain 128-bit values, timestamps as unix
//! seconds, and the ceremony library's continuation values and credential
//! material as opaque byte strings that are persisted verbatim. Each record
//! type has a mathematical view used by the contracts.

use vstd::prelude::*;
use vstd::string::*;

use crate::bytes::{clone_bytes, clone_opt_bytes, clone_opt_string};

verus! {

/// Relies on `uuid::Uuid::new_v4` to draw a fresh random 128-bit identifier.
/// Nothing can be promised of a random value.
#[verifier::external_body]
pub fn new_uuid() -> u128 {
    uuid::Uuid::new_v4().as_u128()
}

/// State of a login session. `Active` is the only state in which a session
/// can be used; the other three are terminal.
#[derive(Debug, Copy, Clone, PartialEq, Eq, Structural)]
pub enum SessionState {
    /// Session is active and usable
    Active,
    /// Session was revoked by the user from another device
    Revoked,
    /// Session was canceled due to the user logging out
    LoggedOut,
    /// Session was upgraded or downgraded
    Superseded,
}

// ---------------------------------------------------------------------------
// Users
// ---------------------------------------------------------------------------

/// Mathematical view of a [`User`].
#[verifier::ext_equal]
pub ghost struct UserView {
    pub id: u128,
    pub email: Seq<char>,
    pub display_name: Seq<char>,
    pub created_at: int,
    pub updated_at: int,
}

/// An identity record. Emails are unique across users.
#[derive(Debug)]
pub struct User {
    id: u128,
    email: String,
    display_name: String,
    created_at: i64,
    updated_at: i64,
}

impl View for User {
    type V = UserView;

    closed spec fn view(&self) -> UserView {
        UserView {
            id: self.id,
            email: self.email@,
            display_name: self.display_name@,
            created_at: self.created_at as int,
            updated_at: self.updated_at as int,
        }
    }
}

impl DeepView for User {
    type V = UserView;

    open spec fn deep_view(&self) -> UserView {
        self.view()
    }
}

impl User {
    /// Builds a user record; only the store creates users.
    pub(crate) fn new_record(
        id: u128,
        email: String,
        display_name: String,
        created_at: i64,
        updated_at: i64,
    ) -> (r: User)
        ensures
            r@ == (UserView {
                id,
                email: email@,
                display_name: display_name@,
                created_at: created_at as int,
                updated_at: updated_at as int,
            }),
    {
        User { id, email, display_name, created_at, updated_at }
    }

    #[must_use]
    pub fn id(&self) -> (r: u128)
        ensures
            r == self@.id,
    {
        self.id
    }

    #[must_use]
    pub fn email(&self) -> (r: &str)
        ensures
            r@ == self@.email,
    {
        self.email.as_str()
    }

    /// Whether this user's email equals the given one.
    pub fn email_eq(&self, other: &str) -> (r: bool)
        ensures
            r == (self@.email == other@),
    {
        self.email.eq(&String::from_str(other))
    }

    #[must_use]
    pub fn display_name(&self) -> (r: &str)
        ensures
            r@ == self@.display_name,
    {
        self.display_name.as_str()
    }

    #[must_use]
    pub fn created_at(&self) -> (r: i64)
        ensures
            r == self@.created_at,
    {
        self.created_at
    }

    #[must_use]
    pub fn updated_at(&self) -> (r: i64)
        ensures
            r == self@.updated_at,
    {
        self.updated_at
    }
}

/// Data used to create a user.
#[derive(Debug, Clone)]
pub struct UserCreate {
    pub email: String,
    pub display_name: String,
}

/// Data used to update a user. Fields with a value replace the
/// corresponding field of the user the update is applied to.
#[derive(Debug, Clone)]
pub struct UserUpdate {
    pub email: Option<String>,
    pub display_name: Option<String>,
}

impl UserUpdate {
    #[must_use]
    pub fn new() -> (r: Self)
        ensures
            r.email is None,
            r.display_name is None,
    {
        Self { email: None, display_name: None }
    }

    #[must_use]
    pub fn with_email(self, email: String) -> (r: Self)
        ensures
            r.email.deep_view() == Some(email@),
            r.display_name == self.display_name,
    {
        Self { email: Some(email), display_name: self.display_name }
    }

    #[must_use]
    pub fn with_display_name(self, display_name: String) -> (r: Self)
        ensures
            r.display_name.deep_view() == Some(display_name@),
            r.email == self.email,
    {
        Self { email: self.email, display_name: Some(display_name) }
    }

    #[must_use]
    pub fn is_empty(&self) -> (r: bool)
        ensures
            r == (self.email is None && self.display_name is None),
    {
        self.email.is_none() && self.display_name.is_none()
    }
}

// ---------------------------------------------------------------------------
// Tags
// ---------------------------------------------------------------------------

/// Mathematical view of a [`Tag`].
#[verifier::ext_equal]
pub ghost struct TagView {
    pub id: u128,
    pub name: Seq<char>,
    pub created_at: int,
    pub updated_at: int,
}

/// A named capability marker attachable to users. Tag names are unique.
/// Holding the administrator tag is what authorizes session elevation.
#[derive(Debug)]
pub struct Tag {
    pub id: u128,
    pub name: String,
    pub created_at: i64,
    pub updated_at: i64,
}

impl View for Tag {
    type V = TagView;

    open spec fn view(&self) -> TagView {
        TagView {
            id: self.id,
            name: self.name@,
            created_at: self.created_at as int,
            updated_at: self.updated_at as int,
        }
    }
}

impl DeepView for Tag {
    type V = TagView;

    open spec fn deep_view(&self) -> TagView {
        self.view()
    }
}

/// Data used to create or update a tag.
#[derive(Debug, Clone)]
pub struct TagUpdate {
    pub name: Option<String>,
}

impl TagUpdate {
    #[must_use]
    pub fn new() -> (r: Self)
        ensures
            r.name is None,
    {
        Self { name: None }
    }

    #[must_use]
    pub fn with_name(self, name: String) -> (r: Self)
        ensures
            r.name.deep_view() == Some(name@),
    {
        Self { name: Some(name) }
    }

    #[must_use]
    pub fn is_empty(&self) -> (r: bool)
        ensures
            r == (self.name is None),
    {
        self.name.is_none()
    }
}

// ---------------------------------------------------------------------------
// Passkey credentials
// ---------------------------------------------------------------------------

/// Mathematical view of a [`PasskeyCredential`].
#[verifier::ext_equal]
pub ghost struct PasskeyCredentialView {
    pub id: u128,
    pub user_id: u128,
    pub display_name: Option<Seq<char>>,
    pub passkey: Seq<u8>,
    pub credential_id: Seq<u8>,
    pub created_at: int,
    pub last_used_at: Option<int>,
}

/// One registered authenticator. The credential material produced by the
/// ceremony library is persisted verbatim as opaque bytes; `credential_id`
/// is the authenticator-chosen identifier the material is looked up by.
#[derive(Debug)]
pub struct PasskeyCredential {
    pub id: u128,
    pub user_id: u128,
    pub display_name: Option<String>,
    pub passkey: Vec<u8>,
    pub credential_id: Vec<u8>,
    pub created_at: i64,
    pub last_used_at: Option<i64>,
}

impl View for PasskeyCredential {
    type V = PasskeyCredentialView;

    open spec fn view(&self) -> PasskeyCredentialView {
        PasskeyCredentialView {
            id: self.id,
            user_id: self.user_id,
            display_name: self.display_name.deep_view(),
            passkey: self.passkey@,
            credential_id: self.credential_id@,
            created_at: self.created_at as int,
            last_used_at: match self.last_used_at {
                Some(t) => Some(t as int),
                None => None,
            },
        }
    }
}

impl DeepView for PasskeyCredential {
    type V = PasskeyCredentialView;

    open spec fn deep_view(&self) -> PasskeyCredentialView {
        self.view()
    }
}

/// Data used to create a new [`PasskeyCredential`].
#[derive(Debug, Clone)]
pub struct NewPasskeyCredential {
    pub display_name: Option<String>,
    pub passkey: Vec<u8>,
    pub credential_id: Vec<u8>,
}

/// Data used to update a [`PasskeyCredential`]. Fields with a value replace
/// the corresponding field of the credential the update is applied to.
#[derive(Debug, Clone)]
pub struct PasskeyCredentialUpdate {
    pub display_name: Option<Option<String>>,
    pub passkey: Option<Vec<u8>>,
}

impl PasskeyCredentialUpdate {
    #[must_use]
    pub fn new() -> (r: Self)
        ensures
            r.display_name is None,
            r.passkey is None,
    {
        Self { display_name: None, passkey: None }
    }

    #[must_use]
    pub fn with_display_name(self, display_name: Option<String>) -> (r: Self)
        ensures
            r.display_name.deep_view() == Some(display_name.deep_view()),
            r.passkey == self.passkey,
    {
        Self { display_name: Some(display_name), passkey: self.passkey }
    }

    #[must_use]
    pub fn with_passkey(self, passkey: Vec<u8>) -> (r: Self)
        ensures
            r.passkey.deep_view() == Some(passkey@),
            r.display_name == self.display_name,
    {
        Self { display_name: self.display_name, passkey: Some(passkey) }
    }

    #[must_use]
    pub fn is_empty(&self) -> (r: bool)
        ensures
            r == (self.display_name is None && self.passkey is None),
    {
        self.display_name.is_none() && self.passkey.is_none()
    }
}

// ---------------------------------------------------------------------------
// Ceremony state
// ---------------------------------------------------------------------------

/// Mathematical view of a [`PasskeyRegistrationState`].
#[verifier::ext_equal]
pub ghost struct PasskeyRegistrationStateView {
    pub id: u128,
    pub user_id: u128,
    pub email: Seq<char>,
    pub registration: Seq<u8>,
    pub created_at: int,
}

/// Server-side state for an in-progress registration ceremony. `user_id` is
/// the candidate user id allocated at ceremony start, before any user record
/// exists; `registration` is the ceremony library's opaque continuation.
#[derive(Debug)]
pub struct PasskeyRegistrationState {
    pub id: u128,
    pub user_id: u128,
    pub email: String,
    pub registration: Vec<u8>,
    pub created_at: i64,
}

impl View for PasskeyRegistrationState {
    type V = PasskeyRegistrationStateView;

    open spec fn view(&self) -> PasskeyRegistrationStateView {
        PasskeyRegistrationStateView {
            id: self.id,
            user_id: self.user_id,
            email: self.email@,
            registration: self.registration@,
            created_at: self.created_at as int,
        }
    }
}

impl DeepView for PasskeyRegistrationState {
    type V = PasskeyRegistrationStateView;

    open spec fn deep_view(&self) -> PasskeyRegistrationStateView {
        self.view()
    }
}

/// Mathematical view of a [`PasskeyAuthenticationStateType`].
#[verifier::ext_equal]
pub ghost enum PasskeyAuthenticationStateTypeView {
    Discoverable(Seq<u8>),
    Regular(Seq<u8>),
}

/// Kind of authentication ceremony in progress, with the ceremony library's
/// opaque continuation for that kind.
#[derive(Debug)]
pub enum PasskeyAuthenticationStateType {
    Discoverable(Vec<u8>),
    Regular(Vec<u8>),
}

impl View for PasskeyAuthenticationStateType {
    type V = PasskeyAuthenticationStateTypeView;

    open spec fn view(&self) -> PasskeyAuthenticationStateTypeView {
        match self {
            PasskeyAuthenticationStateType::Discoverable(b) => {
                PasskeyAuthenticationStateTypeView::Discoverable(b@)
            },
            PasskeyAuthenticationStateType::Regular(b) => {
                PasskeyAuthenticationStateTypeView::Regular(b@)
            },
        }
    }
}

impl DeepView for PasskeyAuthenticationStateType {
    type V = PasskeyAuthenticationStateTypeView;

    open spec fn deep_view(&self) -> PasskeyAuthenticationStateTypeView {
        self.view()
    }
}

/// Mathematical view of a [`PasskeyAuthenticationState`].
#[verifier::ext_equal]
pub ghost struct PasskeyAuthenticationStateView {
    pub id: u128,
    pub email: Option<Seq<char>>,
    pub state: PasskeyAuthenticationStateTypeView,
    pub created_at: int,
}

/// Server-side state for an in-progress authentication ceremony. `email` is
/// the target email for the targeted mode and absent for the discoverable
/// mode.
#[derive(Debug)]
pub struct PasskeyAuthenticationState {
    pub id: u128,
    pub email: Option<String>,
    pub state: PasskeyAuthenticationStateType,
    pub created_at: i64,
}

impl View for PasskeyAuthenticationState {
    type V = PasskeyAuthenticationStateView;

    open spec fn view(&self) -> PasskeyAuthenticationStateView {
        PasskeyAuthenticationStateView {
            id: self.id,
            email: self.email.deep_view(),
            state: self.state.deep_view(),
            created_at: self.created_at as int,
        }
    }
}

impl DeepView for PasskeyAuthenticationState {
    type V = PasskeyAuthenticationStateView;

    open spec fn deep_view(&self) -> PasskeyAuthenticationStateView {
        self.view()
    }
}

// ---------------------------------------------------------------------------
// Sessions
// ---------------------------------------------------------------------------

/// Mathematical view of a [`Session`].
#[verifier::ext_equal]
pub ghost struct SessionView {
    pub id_hash: Seq<u8>,
    pub user_id: u128,
    pub state: SessionState,
    pub created_at: int,
    pub expires_at: int,
    pub is_admin: bool,
    pub parent_id_hash: Option<Seq<u8>>,
}

/// A login session. `id_hash` is the one-way hash of the raw bearer token;
/// the raw token itself is never stored. `parent_id_hash` links an elevated
/// or de-elevated session to the session it was created from.
#[derive(Debug)]
pub struct Session {
    pub id_hash: Vec<u8>,
    pub user_id: u128,
    pub state: SessionState,
    pub created_at: i64,
    pub expires_at: i64,
    pub is_admin: bool,
    pub parent_id_hash: Option<Vec<u8>>,
}

impl View for Session {
    type V = SessionView;

    open spec fn view(&self) -> SessionView {
        SessionView {
            id_hash: self.id_hash@,
            user_id: self.user_id,
            state: self.state,
            created_at: self.created_at as int,
            expires_at: self.expires_at as int,
            is_admin: self.is_admin,
            parent_id_hash: self.parent_id_hash.deep_view(),
        }
    }
}

impl DeepView for Session {
    type V = SessionView;

    open spec fn deep_view(&self) -> SessionView {
        self.view()
    }
}

/// Data used to update a session. Fields with a value replace the
/// corresponding field of the session the update is applied to.
#[derive(Debug, Clone)]
pub struct SessionUpdate {
    pub state: Option<SessionState>,
    pub expires_at: Option<i64>,
}

impl SessionUpdate {
    #[must_use]
    pub fn new() -> (r: Self)
        ensures
            r.state is None,
            r.expires_at is None,
    {
        Self { state: None, expires_at: None }
    }

    #[must_use]
    pub fn with_state(self, state: SessionState) -> (r: Self)
        ensures
            r.state == Some(state),
            r.expires_at == self.expires_at,
    {
        Self { state: Some(state), expires_at: self.expires_at }
    }

    #[must_use]
    pub fn with_expires_at(self, expires_at: i64) -> (r: Self)
        ensures
            r.expires_at == Some(expires_at),
            r.state == self.state,
    {
        Self { state: self.state, expires_at: Some(expires_at) }
    }

    #[must_use]
    pub fn is_empty(&self) -> (r: bool)
        ensures
            r == (self.state is None && self.expires_at is None),
    {
        self.state.is_none() && self.expires_at.is_none()
    }
}

// ---------------------------------------------------------------------------
// Request and response shapes
// ---------------------------------------------------------------------------

/// Request body for starting a targeted authentication ceremony.
#[derive(Debug, Clone)]
pub struct AuthenticationStartRequest {
    pub email: String,
}

/// Kind of session elevation to perform.
#[derive(Debug, Clone, Copy, PartialEq, Eq, Structural)]
pub enum UpgradeTarget {
    Admin,
}

/// The currently logged in user, the tags attached to them, and the session
/// they presented.
#[derive(Debug)]
pub struct UserAndSessionInfo {
    pub user: User,
    pub tags: Vec<Tag>,
    pub session: Session,
}

// ---------------------------------------------------------------------------
// Clone impls, written by hand so that a copy is known to keep the view
// ---------------------------------------------------------------------------

impl Clone for User {
    fn clone(&self) -> (r: Self)
        ensures
            r@ == self@,
    {
        User {
            id: self.id,
            email: self.email.clone(),
            display_name: self.display_name.clone(),
            created_at: self.created_at,
            updated_at: self.updated_at,
        }
    }
}

impl Clone for Tag {
    fn clone(&self) -> (r: Self)
        ensures
            r@ == self@,
    {
        Tag {
            id: self.id,
            name: self.name.clone(),
            created_at: self.created_at,
            updated_at: self.updated_at,
        }
    }
}

impl Clone for PasskeyCredential {
    fn clone(&self) -> (r: Self)
        ensures
            r@ == self@,
    {
        PasskeyCredential {
            id: self.id,
            user_id: self.user_id,
            display_name: clone_opt_string(&self.display_name),
            passkey: clone_bytes(&self.passkey),
            credential_id: clone_bytes(&self.credential_id),
            created_at: self.created_at,
            last_used_at: self.last_used_at,
        }
    }
}

impl Clone for PasskeyRegistrationState {
    fn clone(&self) -> (r: Self)
        ensures
            r@ == self@,
    {
        PasskeyRegistrationState {
            id: self.id,
            user_id: self.user_id,
            email: self.email.clone(),
            registration: clone_bytes(&self.registration),
            created_at: self.created_at,
        }
    }
}

impl Clone for PasskeyAuthenticationStateType {
    fn clone(&self) -> (r: Self)
        ensures
            r@ == self@,
    {
        match self {
            PasskeyAuthenticationStateType::Discoverable(b) => {
                PasskeyAuthenticationStateType::Discoverable(clone_bytes(b))
            },
            PasskeyAuthenticationStateType::Regular(b) => {
                PasskeyAuthenticationStateType::Regular(clone_bytes(b))
            },
        }
    }
}

impl Clone for PasskeyAuthenticationState {
    fn clone(&self) -> (r: Self)
        ensures
            r@ == self@,
    {
        PasskeyAuthenticationState {
            id: self.id,
            email: clone_opt_string(&self.email),
            state: self.state.clone(),
            created_at: self.created_at,
        }
    }
}

impl Clone for Session {
    fn clone(&self) -> (r: Self)
        ensures
            r@ == self@,
    {
        Session {
            id_hash: clone_bytes(&self.id_hash),
            user_id: self.user_id,
            state: self.state,
            created_at: self.created_at,
            expires_at: self.expires_at,
            is_admin: self.is_admin,
            parent_id_hash: clone_opt_bytes(&self.parent_id_hash),
        }
    }
}

} // verus!
