//! Trusted boundary to the WebAuthn ceremony library.
//!
//! The ceremony library produces challenges and opaque continuation values,
//! and verifies client responses against them; its values are opaque here.
//! Continuations and credential material cross into the store as serialized
//! bytes, persisted verbatim and decoded only at this boundary. Nothing is
//! assumed about what the library returns: every caller handles every
//! outcome, and the verified logic downstream takes the outcome as an
//! argument.

use vstd::prelude::*;
use webauthn_rs::prelude::{
    AuthenticationResult, CreationChallengeResponse, DiscoverableAuthentication, DiscoverableKey,
    Passkey, PasskeyAuthentication, PasskeyRegistration, PublicKeyCredential,
    RegisterPublicKeyCredential, RequestChallengeResponse, WebauthnError,
};
use webauthn_rs::Webauthn;
use webauthn_rs_proto::{AuthenticatorSelectionCriteria, ResidentKeyRequirement};

verus! {

#[verifier::external_type_specification]
#[verifier::external_body]
pub struct ExWebauthn(Webauthn);

#[verifier::external_type_specification]
#[verifier::external_body]
pub struct ExCreationChallengeResponse(CreationChallengeResponse);

#[verifier::external_type_specification]
#[verifier::external_body]
pub struct ExRequestChallengeResponse(RequestChallengeResponse);

#[verifier::external_type_specification]
#[verifier::external_body]
pub struct ExPasskeyRegistration(PasskeyRegistration);

#[verifier::external_type_specification]
#[verifier::external_body]
pub struct ExPasskeyAuthentication(PasskeyAuthentication);

#[verifier::external_type_specification]
#[verifier::external_body]
pub struct ExDiscoverableAuthentication(DiscoverableAuthentication);

#[verifier::external_type_specification]
#[verifier::external_body]
pub struct ExRegisterPublicKeyCredential(RegisterPublicKeyCredential);

#[verifier::external_type_specification]
#[verifier::external_body]
pub struct ExPublicKeyCredential(PublicKeyCredential);

#[verifier::external_type_specification]
#[verifier::external_body]
pub struct ExPasskey(Passkey);

#[verifier::external_type_specification]
#[verifier::external_body]
pub struct ExAuthenticationResult(AuthenticationResult);

#[verifier::external_type_specification]
#[verifier::external_body]
pub struct ExDiscoverableKey(DiscoverableKey);

#[verifier::external_type_specification]
#[verifier::external_body]
pub struct ExWebauthnError(WebauthnError);

/// Relies on `Webauthn::start_passkey_registration` to produce a challenge
/// and an opaque registration continuation for the candidate user. The
/// challenge contains fresh randomness, so nothing is stated of the result.
#[verifier::external_body]
pub(crate) fn wa_start_registration(
    wa: &Webauthn,
    user_id: u128,
    email: &str,
    display_name: &str,
) -> Result<(CreationChallengeResponse, PasskeyRegistration), WebauthnError> {
    wa.start_passkey_registration(uuid::Uuid::from_u128(user_id), email, display_name, None)
}

/// Relies on `webauthn_rs_proto::AuthenticatorSelectionCriteria`: marks the
/// challenge as preferring resident keys, the registration policy handed to
/// authenticators.
#[verifier::external_body]
pub(crate) fn set_resident_key_preference(challenge: &mut CreationChallengeResponse) {
    challenge.public_key.authenticator_selection = Some(AuthenticatorSelectionCriteria {
        resident_key: Some(ResidentKeyRequirement::Preferred),
        ..AuthenticatorSelectionCriteria::default()
    });
}

/// Relies on `Webauthn::finish_passkey_registration` to verify the client's
/// response against the stored continuation, yielding the new credential or
/// a verification error.
#[verifier::external_body]
pub(crate) fn wa_finish_registration(
    wa: &Webauthn,
    response: &RegisterPublicKeyCredential,
    state: &PasskeyRegistration,
) -> Result<Passkey, WebauthnError> {
    wa.finish_passkey_registration(response, state)
}

/// Relies on `Webauthn::start_passkey_authentication` to produce a
/// challenge and an opaque authentication continuation for the candidate
/// credential set.
#[verifier::external_body]
pub(crate) fn wa_start_authentication(
    wa: &Webauthn,
    creds: &Vec<Passkey>,
) -> Result<(RequestChallengeResponse, PasskeyAuthentication), WebauthnError> {
    wa.start_passkey_authentication(creds.as_slice())
}

/// Relies on `Webauthn::finish_passkey_authentication` to verify the
/// client's response against the stored continuation.
#[verifier::external_body]
pub(crate) fn wa_finish_authentication(
    wa: &Webauthn,
    response: &PublicKeyCredential,
    state: &PasskeyAuthentication,
) -> Result<AuthenticationResult, WebauthnError> {
    wa.finish_passkey_authentication(response, state)
}

/// Relies on `Webauthn::start_discoverable_authentication` to produce a
/// challenge and continuation for a credential-first ceremony with no
/// candidate set.
#[verifier::external_body]
pub(crate) fn wa_start_discoverable_authentication(wa: &Webauthn) -> Result<
    (RequestChallengeResponse, DiscoverableAuthentication),
    WebauthnError,
> {
    wa.start_discoverable_authentication()
}

/// Relies on `Webauthn::identify_discoverable_authentication` to read the
/// claimed user id and credential id out of the client's response. The
/// claim is attacker-controlled until verified and cross-checked.
#[verifier::external_body]
pub(crate) fn wa_identify_discoverable_authentication(
    wa: &Webauthn,
    response: &PublicKeyCredential,
) -> Result<(u128, Vec<u8>), WebauthnError> {
    let (user_id, cred_id) = wa.identify_discoverable_authentication(response)?;
    Ok((user_id.as_u128(), cred_id.to_vec()))
}

/// Relies on `Webauthn::finish_discoverable_authentication` to verify the
/// client's response against the stored continuation and the candidate
/// credential.
#[verifier::external_body]
pub(crate) fn wa_finish_discoverable_authentication(
    wa: &Webauthn,
    response: &PublicKeyCredential,
    state: DiscoverableAuthentication,
    creds: &Vec<DiscoverableKey>,
) -> Result<AuthenticationResult, WebauthnError> {
    wa.finish_discoverable_authentication(response, state, creds.as_slice())
}

/// Relies on `DiscoverableKey::from(&Passkey)` to view a stored credential
/// as a discoverable-ceremony candidate.
#[verifier::external_body]
pub(crate) fn passkey_to_discoverable_key(p: &Passkey) -> DiscoverableKey {
    DiscoverableKey::from(p)
}

/// Relies on `Passkey::cred_id`: the authenticator-chosen credential id of
/// the credential material.
#[verifier::external_body]
pub(crate) fn passkey_cred_id(p: &Passkey) -> Vec<u8> {
    p.cred_id().as_ref().to_vec()
}

/// Relies on `AuthenticationResult::cred_id`: the credential id the
/// verified assertion was made with.
#[verifier::external_body]
pub(crate) fn auth_result_cred_id(result: &AuthenticationResult) -> Vec<u8> {
    result.cred_id().as_ref().to_vec()
}

/// Relies on `AuthenticationResult::needs_update`: whether the verified
/// assertion should be applied to the stored credential material.
#[verifier::external_body]
pub(crate) fn auth_result_needs_update(result: &AuthenticationResult) -> bool {
    result.needs_update()
}

/// Relies on `Passkey::update_credential`: folds a verified assertion into
/// the credential material, saying whether anything changed, or `None` if
/// the result belongs to a different credential.
#[verifier::external_body]
pub(crate) fn passkey_update_credential(
    p: &mut Passkey,
    result: &AuthenticationResult,
) -> Option<bool> {
    p.update_credential(result)
}

/// Relies on `serde_json::to_vec` to serialize credential material for
/// verbatim persistence.
#[verifier::external_body]
pub(crate) fn encode_passkey(p: &Passkey) -> Option<Vec<u8>> {
    serde_json::to_vec(p).ok()
}

/// Relies on `serde_json::from_slice` to bring persisted credential
/// material back.
#[verifier::external_body]
pub(crate) fn decode_passkey(bytes: &Vec<u8>) -> Option<Passkey> {
    serde_json::from_slice(bytes.as_slice()).ok()
}

/// Relies on `serde_json::to_vec` to serialize a registration continuation
/// for verbatim persistence.
#[verifier::external_body]
pub(crate) fn encode_registration(state: &PasskeyRegistration) -> Option<Vec<u8>> {
    serde_json::to_vec(state).ok()
}

/// Relies on `serde_json::from_slice` to bring a persisted registration
/// continuation back.
#[verifier::external_body]
pub(crate) fn decode_registration(bytes: &Vec<u8>) -> Option<PasskeyRegistration> {
    serde_json::from_slice(bytes.as_slice()).ok()
}

/// Relies on `serde_json::to_vec` to serialize an authentication
/// continuation for verbatim persistence.
#[verifier::external_body]
pub(crate) fn encode_authentication(state: &PasskeyAuthentication) -> Option<Vec<u8>> {
    serde_json::to_vec(state).ok()
}

/// Relies on `serde_json::from_slice` to bring a persisted authentication
/// continuation back.
#[verifier::external_body]
pub(crate) fn decode_authentication(bytes: &Vec<u8>) -> Option<PasskeyAuthentication> {
    serde_json::from_slice(bytes.as_slice()).ok()
}

/// Relies on `serde_json::to_vec` to serialize a discoverable-ceremony
/// continuation for verbatim persistence.
#[verifier::external_body]
pub(crate) fn encode_discoverable(state: &DiscoverableAuthentication) -> Option<Vec<u8>> {
    serde_json::to_vec(state).ok()
}

/// Relies on `serde_json::from_slice` to bring a persisted
/// discoverable-ceremony continuation back.
#[verifier::external_body]
pub(crate) fn decode_discoverable(bytes: &Vec<u8>) -> Option<DiscoverableAuthentication> {
    serde_json::from_slice(bytes.as_slice()).ok()
}

} // verus!
