//! The wire messages of the exchange and their variant-checked decoding.

use vstd::prelude::*;
use std::collections::HashMap;
use crate::error::{Error, Expected, Received};

verus! {

/// Caller-supplied key/value pairs, forwarded to the service untouched.
#[derive(Clone, Debug, PartialEq, Eq)]
pub struct SessionInitializationInfo {
    pub info: HashMap<String, String>,
}

/// An outbound message: one shape per stage, in protocol order.
#[derive(Clone, Debug, PartialEq, Eq)]
pub enum OutboundMessage {
    /// Introduces the account and begins PAKE registration.
    RegistrationStart {
        user_id: String,
        signing_public_key: String,
        username: String,
        session_initialization_info: SessionInitializationInfo,
        pake_registration_request: Vec<u8>,
    },
    /// Ends PAKE registration and begins PAKE login in one round trip.
    RegistrationUploadAndCredentialRequest {
        pake_registration_upload: Vec<u8>,
        pake_credential_request: Vec<u8>,
    },
    /// Ends PAKE login.
    CredentialFinalization { pake_credential_finalization: Vec<u8> },
}

/// The payload nested under the login-response wrapper.
#[derive(Clone, Debug, PartialEq, Eq)]
pub enum PakeLoginResponseData {
    PakeCredentialResponse(Vec<u8>),
    AccessToken(String),
}

/// The login-response wrapper; its payload may be unset on the wire.
#[derive(Clone, Debug, PartialEq, Eq)]
pub struct PakeLoginResponse {
    pub data: Option<PakeLoginResponseData>,
}

/// The payload of an inbound message.
#[derive(Clone, Debug, PartialEq, Eq)]
pub enum RegistrationResponseData {
    PakeRegistrationResponse(Vec<u8>),
    PakeLoginResponse(PakeLoginResponse),
}

/// An inbound message; its payload may be unset on the wire.
#[derive(Clone, Debug, PartialEq, Eq)]
pub struct RegistrationResponseMessage {
    pub data: Option<RegistrationResponseData>,
}

/// The shape of what the inbound stream delivered; `None` is a closed stream.
pub open spec fn shape_of(message: Option<RegistrationResponseMessage>) -> Received {
    match message {
        None => Received::Nothing,
        Some(RegistrationResponseMessage { data: None }) => Received::Empty,
        Some(RegistrationResponseMessage {
            data: Some(RegistrationResponseData::PakeRegistrationResponse(_)),
        }) => Received::RegistrationResponse,
        Some(RegistrationResponseMessage {
            data: Some(RegistrationResponseData::PakeLoginResponse(PakeLoginResponse { data: None })),
        }) => Received::Empty,
        Some(RegistrationResponseMessage {
            data: Some(
                RegistrationResponseData::PakeLoginResponse(
                    PakeLoginResponse { data: Some(PakeLoginResponseData::PakeCredentialResponse(_)) },
                ),
            ),
        }) => Received::LoginResponse,
        Some(RegistrationResponseMessage {
            data: Some(
                RegistrationResponseData::PakeLoginResponse(
                    PakeLoginResponse { data: Some(PakeLoginResponseData::AccessToken(_)) },
                ),
            ),
        }) => Received::AccessToken,
    }
}

/// The error for a message that does not answer the stage waiting for `expected`.
pub open spec fn unexpected(expected: Expected, message: Option<RegistrationResponseMessage>) -> Error {
    Error::UnexpectedResponse { expected, received: shape_of(message) }
}

/// The bytes carried by a registration response, or why there are none.
pub open spec fn registration_response_of(message: Option<RegistrationResponseMessage>) -> Result<
    Vec<u8>,
    Error,
> {
    match message {
        Some(RegistrationResponseMessage {
            data: Some(RegistrationResponseData::PakeRegistrationResponse(bytes)),
        }) => Ok(bytes),
        _ => Err(unexpected(Expected::RegistrationResponse, message)),
    }
}

/// The bytes carried by a login credential response, or why there are none.
pub open spec fn credential_response_of(message: Option<RegistrationResponseMessage>) -> Result<
    Vec<u8>,
    Error,
> {
    match message {
        Some(RegistrationResponseMessage {
            data: Some(
                RegistrationResponseData::PakeLoginResponse(
                    PakeLoginResponse { data: Some(PakeLoginResponseData::PakeCredentialResponse(bytes)) },
                ),
            ),
        }) => Ok(bytes),
        _ => Err(unexpected(Expected::LoginResponse, message)),
    }
}

/// The token carried by an access-token response, or why there is none.
pub open spec fn access_token_of(message: Option<RegistrationResponseMessage>) -> Result<
    String,
    Error,
> {
    match message {
        Some(RegistrationResponseMessage {
            data: Some(
                RegistrationResponseData::PakeLoginResponse(
                    PakeLoginResponse { data: Some(PakeLoginResponseData::AccessToken(token)) },
                ),
            ),
        }) => Ok(token),
        _ => Err(unexpected(Expected::AccessToken, message)),
    }
}

/// Whether `request` is the first message of the exchange and carries the
/// identity and the session information exactly as given.
pub open spec fn introduces(
    request: OutboundMessage,
    user_id: String,
    signing_public_key: String,
    username: String,
    session_initialization_info: SessionInitializationInfo,
) -> bool {
    match request {
        OutboundMessage::RegistrationStart {
            user_id: u,
            signing_public_key: k,
            username: n,
            session_initialization_info: i,
            pake_registration_request: _,
        } => u == user_id && k == signing_public_key && n == username && i
            == session_initialization_info,
        _ => false,
    }
}

/// Wraps serialized PAKE registration-request bytes with the account's identity.
pub fn wrap_registration_start(
    user_id: String,
    signing_public_key: String,
    username: String,
    session_initialization_info: SessionInitializationInfo,
    pake_registration_request: Vec<u8>,
) -> (request: OutboundMessage)
    ensures
        request == (OutboundMessage::RegistrationStart {
            user_id,
            signing_public_key,
            username,
            session_initialization_info,
            pake_registration_request,
        }),
{
    OutboundMessage::RegistrationStart {
        user_id,
        signing_public_key,
        username,
        session_initialization_info,
        pake_registration_request,
    }
}

/// Wraps the serialized registration upload and credential request into
/// the one message that ends registration and begins login.
pub fn wrap_upload_and_credential_request(
    pake_registration_upload: Vec<u8>,
    pake_credential_request: Vec<u8>,
) -> (request: OutboundMessage)
    ensures
        request == (OutboundMessage::RegistrationUploadAndCredentialRequest {
            pake_registration_upload,
            pake_credential_request,
        }),
{
    OutboundMessage::RegistrationUploadAndCredentialRequest {
        pake_registration_upload,
        pake_credential_request,
    }
}

/// Wraps the serialized credential finalization into the message that ends login.
pub fn wrap_credential_finalization(pake_credential_finalization: Vec<u8>) -> (request:
    OutboundMessage)
    ensures
        request == (OutboundMessage::CredentialFinalization { pake_credential_finalization }),
{
    OutboundMessage::CredentialFinalization { pake_credential_finalization }
}

/// Names the shape of an arrival without consuming it.
pub fn classify(message: &Option<RegistrationResponseMessage>) -> (received: Received)
    ensures
        received == shape_of(*message),
{
    match message {
        None => Received::Nothing,
        Some(m) => match &m.data {
            None => Received::Empty,
            Some(RegistrationResponseData::PakeRegistrationResponse(_)) => Received::RegistrationResponse,
            Some(RegistrationResponseData::PakeLoginResponse(login)) => match &login.data {
                None => Received::Empty,
                Some(PakeLoginResponseData::PakeCredentialResponse(_)) => Received::LoginResponse,
                Some(PakeLoginResponseData::AccessToken(_)) => Received::AccessToken,
            },
        },
    }
}

/// Builds the error for an arrival that the stage waiting for `expected` rejects.
pub fn handle_unexpected_response(
    expected: Expected,
    message: &Option<RegistrationResponseMessage>,
) -> (error: Error)
    ensures
        error == unexpected(expected, *message),
{
    Error::UnexpectedResponse { expected, received: classify(message) }
}

/// Accepts a registration response and nothing else.
pub fn expect_registration_response(message: Option<RegistrationResponseMessage>) -> (result: Result<
    Vec<u8>,
    Error,
>)
    ensures
        result == registration_response_of(message),
        result is Ok <==> shape_of(message) == Received::RegistrationResponse,
{
    let error = handle_unexpected_response(Expected::RegistrationResponse, &message);
    match message {
        Some(RegistrationResponseMessage {
            data: Some(RegistrationResponseData::PakeRegistrationResponse(bytes)),
        }) => Ok(bytes),
        _ => Err(error),
    }
}

/// Accepts a login credential response and nothing else.
pub fn expect_credential_response(message: Option<RegistrationResponseMessage>) -> (result: Result<
    Vec<u8>,
    Error,
>)
    ensures
        result == credential_response_of(message),
        result is Ok <==> shape_of(message) == Received::LoginResponse,
{
    let error = handle_unexpected_response(Expected::LoginResponse, &message);
    match message {
        Some(RegistrationResponseMessage {
            data: Some(
                RegistrationResponseData::PakeLoginResponse(
                    PakeLoginResponse { data: Some(PakeLoginResponseData::PakeCredentialResponse(bytes)) },
                ),
            ),
        }) => Ok(bytes),
        _ => Err(error),
    }
}

/// Accepts an access-token response and nothing else, and hands the token out.
pub fn handle_registration_token_response(message: Option<RegistrationResponseMessage>) -> (result:
    Result<String, Error>)
    ensures
        result == access_token_of(message),
        result is Ok <==> shape_of(message) == Received::AccessToken,
{
    let error = handle_unexpected_response(Expected::AccessToken, &message);
    match message {
        Some(RegistrationResponseMessage {
            data: Some(
                RegistrationResponseData::PakeLoginResponse(
                    PakeLoginResponse { data: Some(PakeLoginResponseData::AccessToken(access_token)) },
                ),
            ),
        }) => Ok(access_token),
        _ => Err(error),
    }
}

/// Decoding is total and accepts exactly the awaited variant: an arrival is
/// decoded for the stage waiting for `expected` if and only if its shape
/// answers that stage, and is otherwise rejected as unexpected, carrying
/// what was awaited and what came.
pub proof fn lemma_decoding_checks_variant(message: Option<RegistrationResponseMessage>)
    ensures
        registration_response_of(message) is Ok <==> crate::error::answers(
            Expected::RegistrationResponse,
            shape_of(message),
        ),
        credential_response_of(message) is Ok <==> crate::error::answers(
            Expected::LoginResponse,
            shape_of(message),
        ),
        access_token_of(message) is Ok <==> crate::error::answers(Expected::AccessToken, shape_of(message)),
        registration_response_of(message) is Err ==> registration_response_of(message)
            == Err::<Vec<u8>, Error>(unexpected(Expected::RegistrationResponse, message)),
        credential_response_of(message) is Err ==> credential_response_of(message) == Err::<
            Vec<u8>,
            Error,
        >(unexpected(Expected::LoginResponse, message)),
        access_token_of(message) is Err ==> access_token_of(message) == Err::<String, Error>(
            unexpected(Expected::AccessToken, message),
        ),
{
}

} // verus!
