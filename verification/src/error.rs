//! The failures that end a registration attempt.

use vstd::prelude::*;

verus! {

/// The inbound message variant that a stage of the exchange waits for.
#[derive(Clone, Copy, Debug, PartialEq, Eq, Structural)]
pub enum Expected {
    RegistrationResponse,
    LoginResponse,
    AccessToken,
}

/// What actually arrived on the inbound stream, by shape only.
#[derive(Clone, Copy, Debug, PartialEq, Eq, Structural)]
pub enum Received {
    /// The stream ended: there was no message.
    Nothing,
    /// A message whose payload, or whose nested login payload, is unset.
    Empty,
    RegistrationResponse,
    LoginResponse,
    AccessToken,
}

/// Every error is terminal for the attempt in which it occurs.
#[derive(Clone, Copy, Debug, PartialEq, Eq, Structural)]
pub enum Error {
    /// The session could not be opened.
    TransportUnavailable,
    /// The transport stopped accepting outbound messages.
    TransportClosed,
    /// The static service credential is malformed.
    AuthTokenInvalid,
    /// A PAKE operation rejected its input or its state.
    CryptoFailure,
    /// A received byte payload is not the expected cryptographic structure.
    DeserializationFailure,
    /// The inbound message is not the variant that the stage waits for.
    UnexpectedResponse { expected: Expected, received: Received },
}

/// Whether an arrival of shape `received` answers a stage that waits for `expected`.
pub open spec fn answers(expected: Expected, received: Received) -> bool {
    match expected {
        Expected::RegistrationResponse => received == Received::RegistrationResponse,
        Expected::LoginResponse => received == Received::LoginResponse,
        Expected::AccessToken => received == Received::AccessToken,
    }
}

/// A closed stream answers no stage.
pub proof fn lemma_closed_stream_answers_nothing(expected: Expected)
    ensures
        !answers(expected, Received::Nothing),
{
}

/// Each shape of arrival answers at most one stage: what one stage waits
/// for is out of order at every other.
pub proof fn lemma_answer_fits_one_stage(first: Expected, second: Expected, received: Received)
    requires
        answers(first, received),
        first != second,
    ensures
        !answers(second, received),
{
}

} // verus!
