//! The adapter over the PAKE primitive.
//!
//! The four operations of the exchange (registration start and finish,
//! login start and finish) are those of `opaque_ke`, over whatever cipher
//! suite the caller picks. The secret that the client keeps between a start
//! and its finish is held in serialized form by a value that cannot be
//! copied and is taken by value where it is used, so none is used twice.

use vstd::prelude::*;
use core::marker::PhantomData;
use opaque_ke::ciphersuite::CipherSuite;
use opaque_ke::errors::ProtocolError;
use opaque_ke::{ClientLogin, ClientRegistration, CredentialResponse, RegistrationResponse};
use opaque_ke::{ClientLoginFinishParameters, ClientLoginStartParameters, ClientRegistrationFinishParameters};
use rand::rngs::OsRng;
use crate::error::Error;
use crate::messages::{introduces, wrap_registration_start};
use crate::messages::{OutboundMessage, SessionInitializationInfo};

verus! {

/// `rand::rngs::OsRng`, the operating system's random source; carried
/// through to the primitive and never looked into.
#[verifier::external_type_specification]
#[verifier::external_body]
pub struct ExOsRng(OsRng);

/// `opaque_ke::errors::ProtocolError`, the primitive's own error; carried
/// through and never looked into.
#[verifier::external_type_specification]
#[verifier::external_body]
pub struct ExProtocolError(ProtocolError);

/// The client's secret between the start and the finish of registration.
pub struct RegistrationState<CS> {
    secret: Vec<u8>,
    suite: PhantomData<CS>,
}

/// The client's secret between the start and the finish of login.
pub struct LoginState<CS> {
    secret: Vec<u8>,
    suite: PhantomData<CS>,
}

/// How a finish step of the primitive ended.
pub enum FinishOutcome {
    /// The step succeeded; these are the serialized bytes of its message.
    Finished(Vec<u8>),
    /// The server's bytes are not an encoding of the awaited response.
    Undecodable(ProtocolError),
    /// The primitive refused the response or the state.
    Rejected(ProtocolError),
}

/// `ClientRegistration::start` of `opaque_ke`, which blinds the password
/// with a fresh random scalar, followed by `serialize` on the request and
/// on the state that it returns. Nothing is claimed of the outcome.
#[verifier::external_body]
fn opaque_registration_start<CS: CipherSuite>(rng: &mut OsRng, password: &str) -> (started: Result<
    (Vec<u8>, Vec<u8>),
    ProtocolError,
>) {
    match ClientRegistration::<CS>::start(rng, password.as_bytes()) {
        Ok(started) => Ok((started.message.serialize(), started.state.serialize())),
        Err(e) => Err(e),
    }
}

/// `ClientRegistration::finish` of `opaque_ke`, default parameters, on a response and a state
/// read by their `deserialize`; the upload comes out by its `serialize`. Claimed: asked first,
/// `RegistrationResponse::deserialize` refuses bytes too short to hold the server's public key.
#[verifier::external_body]
fn opaque_registration_finish<CS: CipherSuite>(
    rng: &mut OsRng,
    response: &Vec<u8>,
    secret: Vec<u8>,
) -> (outcome: FinishOutcome)
    ensures
        response@.len() < PUBLIC_KEY_LEN ==> outcome is Undecodable,
{
    let response = match RegistrationResponse::<CS>::deserialize(response) {
        Ok(response) => response,
        Err(e) => return FinishOutcome::Undecodable(e),
    };
    let state = match ClientRegistration::<CS>::deserialize(&secret) {
        Ok(state) => state,
        Err(e) => return FinishOutcome::Rejected(e),
    };
    match state.finish(rng, response, ClientRegistrationFinishParameters::default()) {
        Ok(finished) => FinishOutcome::Finished(finished.message.serialize()),
        Err(e) => FinishOutcome::Rejected(e),
    }
}

/// `ClientLogin::start` of `opaque_ke` with default parameters, followed by
/// `serialize` on the credential request and on the state that it returns.
/// Nothing is claimed of the outcome.
#[verifier::external_body]
fn opaque_login_start<CS: CipherSuite>(rng: &mut OsRng, password: &str) -> (started: Result<
    (Vec<u8>, Vec<u8>),
    ProtocolError,
>) {
    let parameters = ClientLoginStartParameters::default();
    let started = match ClientLogin::<CS>::start(rng, password.as_bytes(), parameters) {
        Ok(started) => started,
        Err(e) => return Err(e),
    };
    match (started.message.serialize(), started.state.serialize()) {
        (Ok(request), Ok(secret)) => Ok((request, secret)),
        (Err(e), _) => Err(e),
        (_, Err(e)) => Err(e),
    }
}

/// `ClientLogin::finish` of `opaque_ke`, default parameters, on a response and a state read by
/// their `deserialize`; the finalization comes out by its `serialize`. Claimed: asked first,
/// `CredentialResponse::deserialize` refuses bytes too short to hold the server's public key.
#[verifier::external_body]
fn opaque_login_finish<CS: CipherSuite>(response: &Vec<u8>, secret: Vec<u8>) -> (outcome: FinishOutcome)
    ensures
        response@.len() < PUBLIC_KEY_LEN ==> outcome is Undecodable,
{
    let response = match CredentialResponse::<CS>::deserialize(response) {
        Ok(response) => response,
        Err(e) => return FinishOutcome::Undecodable(e),
    };
    let state = match ClientLogin::<CS>::deserialize(&secret) {
        Ok(state) => state,
        Err(e) => return FinishOutcome::Rejected(e),
    };
    match state.finish(response, ClientLoginFinishParameters::default()) {
        Ok(finished) => match finished.message.serialize() {
            Ok(bytes) => FinishOutcome::Finished(bytes),
            Err(e) => FinishOutcome::Rejected(e),
        },
        Err(e) => FinishOutcome::Rejected(e),
    }
}

/// What a start step hands on: the serialized request with the secret to
/// keep, or `CryptoFailure` whatever the primitive's reason.
pub open spec fn start_result(started: Result<(Vec<u8>, Vec<u8>), ProtocolError>) -> Result<
    (Vec<u8>, Vec<u8>),
    Error,
> {
    match started {
        Ok(pair) => Ok(pair),
        Err(_) => Err(Error::CryptoFailure),
    }
}

/// Turns the outcome of a start step into the request and secret or the
/// error that ends the attempt.
pub fn conclude_start(started: Result<(Vec<u8>, Vec<u8>), ProtocolError>) -> (result: Result<
    (Vec<u8>, Vec<u8>),
    Error,
>)
    ensures
        result == start_result(started),
{
    match started {
        Ok(pair) => Ok(pair),
        Err(_) => Err(Error::CryptoFailure),
    }
}

/// What a finish step hands on: the message bytes, or the failure by kind.
pub open spec fn finish_result(outcome: FinishOutcome) -> Result<Vec<u8>, Error> {
    match outcome {
        FinishOutcome::Finished(bytes) => Ok(bytes),
        FinishOutcome::Undecodable(_) => Err(Error::DeserializationFailure),
        FinishOutcome::Rejected(_) => Err(Error::CryptoFailure),
    }
}

/// Turns the outcome of a finish step into the bytes to send or the error
/// that ends the attempt.
pub fn conclude_finish(outcome: FinishOutcome) -> (result: Result<Vec<u8>, Error>)
    ensures
        result == finish_result(outcome),
{
    match outcome {
        FinishOutcome::Finished(bytes) => Ok(bytes),
        FinishOutcome::Undecodable(_) => Err(Error::DeserializationFailure),
        FinishOutcome::Rejected(_) => Err(Error::CryptoFailure),
    }
}

/// Begins PAKE registration and wraps the request for the wire together
/// with the account's identity.
///
/// An empty password is refused before the primitive is asked. Otherwise
/// the primitive decides; whatever it returns, a request that comes out is
/// the first message of the exchange and carries the identity and the
/// session information exactly as given, and the only error is
/// `CryptoFailure`.
pub fn pake_registration_start<CS: CipherSuite>(
    rng: &mut OsRng,
    user_id: String,
    signing_public_key: String,
    password: &str,
    username: String,
    session_initialization_info: SessionInitializationInfo,
) -> (result: Result<(OutboundMessage, RegistrationState<CS>), Error>)
    ensures
        password@.len() == 0 ==> result is Err,
        match result {
            Ok((request, _)) => introduces(
                request,
                user_id,
                signing_public_key,
                username,
                session_initialization_info,
            ),
            Err(e) => e == Error::CryptoFailure,
        },
{
    if password.is_empty() {
        return Err(Error::CryptoFailure);
    }
    match conclude_start(opaque_registration_start::<CS>(rng, password)) {
        Ok((pake_registration_request, secret)) => Ok(
            (
                wrap_registration_start(
                    user_id,
                    signing_public_key,
                    username,
                    session_initialization_info,
                    pake_registration_request,
                ),
                RegistrationState { secret, suite: PhantomData },
            ),
        ),
        Err(e) => Err(e),
    }
}

/// Completes PAKE registration with the server's response and returns the
/// serialized upload. The state is consumed whatever the outcome. Bytes that
/// do not decode, as all shorter than a public key, give `DeserializationFailure`;
/// every other failure of the primitive gives `CryptoFailure`.
pub fn pake_registration_finish<CS: CipherSuite>(
    rng: &mut OsRng,
    registration_response_bytes: &Vec<u8>,
    client_registration: RegistrationState<CS>,
) -> (result: Result<Vec<u8>, Error>)
    ensures
        result matches Err(e) ==> e == Error::DeserializationFailure || e == Error::CryptoFailure,
        cannot_be_a_response(registration_response_bytes@) ==> result == finish_refused(),
{
    conclude_finish(
        opaque_registration_finish::<CS>(rng, registration_response_bytes, client_registration.secret),
    )
}

/// Begins PAKE login and returns the serialized credential request with the
/// state to finish with. An empty password is refused before the primitive
/// is asked; the only error is `CryptoFailure`.
pub fn pake_login_start<CS: CipherSuite>(rng: &mut OsRng, password: &str) -> (result:
    Result<(Vec<u8>, LoginState<CS>), Error>)
    ensures
        password@.len() == 0 ==> result is Err,
        result matches Err(e) ==> e == Error::CryptoFailure,
{
    if password.is_empty() {
        return Err(Error::CryptoFailure);
    }
    match conclude_start(opaque_login_start::<CS>(rng, password)) {
        Ok((pake_credential_request, secret)) => Ok(
            (pake_credential_request, LoginState { secret, suite: PhantomData }),
        ),
        Err(e) => Err(e),
    }
}

/// Completes PAKE login with the server's credential response and returns
/// the serialized finalization. The state is consumed whatever the outcome.
/// Bytes that do not decode, as all that are shorter than a public key,
/// give `DeserializationFailure`; every other failure of the primitive
/// gives `CryptoFailure`.
pub fn pake_login_finish<CS: CipherSuite>(
    credential_response_bytes: &Vec<u8>,
    client_login: LoginState<CS>,
) -> (result: Result<Vec<u8>, Error>)
    ensures
        result matches Err(e) ==> e == Error::DeserializationFailure || e == Error::CryptoFailure,
        cannot_be_a_response(credential_response_bytes@) ==> result == finish_refused(),
{
    conclude_finish(opaque_login_finish::<CS>(credential_response_bytes, client_login.secret))
}

/// The length in bytes of a public key of the primitive, whatever the suite.
pub const PUBLIC_KEY_LEN: usize = 32;

/// Whether `bytes` are too short to be any response of the server: each
/// response carries the server's public key, so none is shorter than one.
pub open spec fn cannot_be_a_response(bytes: Seq<u8>) -> bool {
    bytes.len() < PUBLIC_KEY_LEN
}

/// What a finish step answers to bytes that are no response of the server.
pub open spec fn finish_refused() -> Result<Vec<u8>, Error> {
    Err(Error::DeserializationFailure)
}

} // verus!
